//! JSON documents as plain values, read and written by the `json` crate.
use vstd::prelude::*;

verus! {

#[verifier::external_type_specification]
#[verifier::external_body]
pub struct ExJsonValue(json::JsonValue);

#[verifier::external_type_specification]
#[verifier::external_body]
pub struct ExJsonError(json::Error);

#[verifier::external_type_specification]
#[verifier::external_body]
pub struct ExJsonNumber(json::number::Number);

/// A JSON number as the `json` crate stores it: a sign, an integer mantissa
/// and a decimal exponent.
#[derive(Debug, Clone, Copy, PartialEq, Eq, Structural)]
pub struct JsonNumber {
    pub positive: bool,
    pub mantissa: u64,
    pub exponent: i16,
}

/// A number of a JSON value: the `json` crate's number, kept as that crate
/// made it, and its parts as `Number::as_parts` gives them. Values of this
/// type are only made here, from a number of the `json` crate.
#[derive(Debug, Clone, Copy)]
pub struct JsonNumberValue {
    number: json::number::Number,
    parts: (bool, u64, i16),
}

impl View for JsonNumberValue {
    type V = JsonNumber;

    closed spec fn view(&self) -> JsonNumber {
        JsonNumber { positive: self.parts.0, mantissa: self.parts.1, exponent: self.parts.2 }
    }
}

impl JsonNumberValue {
    /// The number's sign, mantissa and exponent.
    pub fn parts(&self) -> (p: JsonNumber)
        ensures
            p == self@,
    {
        JsonNumber { positive: self.parts.0, mantissa: self.parts.1, exponent: self.parts.2 }
    }

    /// `Number::from(u64)`: the non-negative integer `n`, with exponent 0.
    #[verifier::external_body]
    pub(crate) fn integer(n: u64) -> (r: Self)
        ensures
            r@ == (JsonNumber { positive: true, mantissa: n, exponent: 0 }),
    {
        let number = json::number::Number::from(n);
        JsonNumberValue { number, parts: number.as_parts() }
    }
}

/// A JSON value. Object entries keep their order.
#[derive(Debug)]
pub enum Json {
    Null,
    Boolean(bool),
    Number(JsonNumberValue),
    String(String),
    Array(Vec<Json>),
    Object(Vec<JsonMember>),
}

/// One `key: value` entry of an object.
#[derive(Debug)]
pub struct JsonMember {
    pub key: String,
    pub value: Json,
}

pub enum JsonView {
    Null,
    Boolean(bool),
    Number(JsonNumber),
    String(Seq<char>),
    Array(Seq<JsonView>),
    Object(Seq<JsonMemberView>),
}

pub struct JsonMemberView {
    pub key: Seq<char>,
    pub value: JsonView,
}

pub open spec fn json_view(j: Json) -> JsonView
    decreases j,
{
    match j {
        Json::Null => JsonView::Null,
        Json::Boolean(b) => JsonView::Boolean(b),
        Json::Number(n) => JsonView::Number(n@),
        Json::String(s) => JsonView::String(s@),
        Json::Array(a) => {
            proof {
                broadcast use vstd::std_specs::vec::axiom_vec_decreases_to_view;
                assert(decreases_to!(a => a@));
            }
            JsonView::Array(json_seq_view(a@))
        },
        Json::Object(o) => {
            proof {
                broadcast use vstd::std_specs::vec::axiom_vec_decreases_to_view;
                assert(decreases_to!(o => o@));
            }
            JsonView::Object(json_entries_view(o@))
        },
    }
}

pub open spec fn json_seq_view(s: Seq<Json>) -> Seq<JsonView>
    decreases s,
{
    if s.len() == 0 {
        Seq::empty()
    } else {
        proof {
            broadcast use vstd::seq::axiom_seq_index_decreases;
            vstd::seq::axiom_seq_len_decreases(s, s.drop_first());
        }
        seq![json_view(s[0])] + json_seq_view(s.drop_first())
    }
}

pub open spec fn json_entries_view(s: Seq<JsonMember>) -> Seq<JsonMemberView>
    decreases s,
{
    if s.len() == 0 {
        Seq::empty()
    } else {
        proof {
            broadcast use vstd::seq::axiom_seq_index_decreases;
            vstd::seq::axiom_seq_len_decreases(s, s.drop_first());
        }
        seq![JsonMemberView { key: s[0].key@, value: json_view(s[0].value) }] + json_entries_view(s.drop_first())
    }
}

impl View for Json {
    type V = JsonView;

    open spec fn view(&self) -> JsonView {
        json_view(*self)
    }
}

/// The document `json::parse` reads from `text`, or `None` where it reports
/// an error.
pub uninterp spec fn json_parse(text: Seq<char>) -> Option<JsonView>;

/// The text `JsonValue::dump` writes for `v`.
pub uninterp spec fn json_dump(v: JsonView) -> Seq<char>;

/// `Number::as_fixed_point_u64`: the number scaled by `10^point`, truncated.
pub uninterp spec fn json_fixed_point_u64(n: JsonNumber, point: u16) -> Option<u64>;

/// Converts a value of the `json` crate, one variant for one variant; short
/// and long strings both become `Json::String`.
#[verifier::external_body]
fn from_json_value(v: &json::JsonValue) -> Json {
    match v {
        json::JsonValue::Null => Json::Null,
        json::JsonValue::Short(s) => Json::String(s.as_str().to_string()),
        json::JsonValue::String(s) => Json::String(s.clone()),
        json::JsonValue::Number(n) => Json::Number(JsonNumberValue { number: *n, parts: n.as_parts() }),
        json::JsonValue::Boolean(b) => Json::Boolean(*b),
        json::JsonValue::Object(o) => Json::Object(
            o.iter().map(|(k, v)| JsonMember { key: k.to_string(), value: from_json_value(v) }).collect(),
        ),
        json::JsonValue::Array(a) => Json::Array(a.iter().map(from_json_value).collect()),
    }
}

/// Converts to a value of the `json` crate, one variant for one variant.
#[verifier::external_body]
fn to_json_value(v: &Json) -> json::JsonValue {
    match v {
        Json::Null => json::JsonValue::Null,
        Json::Boolean(b) => json::JsonValue::Boolean(*b),
        Json::Number(n) => json::JsonValue::Number(n.number),
        Json::String(s) => json::JsonValue::String(s.clone()),
        Json::Array(a) => json::JsonValue::Array(a.iter().map(to_json_value).collect()),
        Json::Object(o) => json::JsonValue::Object(o.iter().map(|m| (m.key.as_str(), to_json_value(&m.value))).collect()),
    }
}

/// `json::parse`: reads a JSON document from `text`.
#[verifier::external_body]
pub(crate) fn parse(text: &str) -> (r: Result<Json, json::Error>)
    ensures
        match r {
            Ok(v) => json_parse(text@) == Some(v@),
            Err(_) => json_parse(text@) is None,
        },
{
    match json::parse(text) {
        Ok(v) => Ok(from_json_value(&v)),
        Err(e) => Err(e),
    }
}

/// `JsonValue::dump`: writes `v` as compact JSON text.
#[verifier::external_body]
pub(crate) fn dump(v: &Json) -> (text: String)
    ensures
        text@ == json_dump(v@),
{
    to_json_value(v).dump()
}

/// `Number::as_fixed_point_u64` on the number as the `json` crate holds it.
/// A negative number gives `None`, and a non-negative one whose exponent
/// cancels `point` gives its mantissa. The call adds `point` to the exponent
/// and, when the sum is negative, negates it, both as `i16`; the `requires`
/// keeps both in range for a non-negative number, where they are reached.
#[verifier::external_body]
pub(crate) fn fixed_point_u64(n: &JsonNumberValue, point: u16) -> (r: Option<u64>)
    requires
        n@.positive ==> point <= 0x7fff && i16::MIN < n@.exponent + point <= i16::MAX,
    ensures
        r == json_fixed_point_u64(n@, point),
        !n@.positive ==> r is None,
        n@.positive && n@.exponent + point == 0 ==> r == Some(n@.mantissa),
{
    n.number.as_fixed_point_u64(point)
}

/// `JsonValue::as_u32`: a non-negative integer with no exponent that fits a
/// `u32`.
pub open spec fn number_as_u32(n: JsonNumber) -> Option<u32> {
    if n.positive && n.exponent == 0 && n.mantissa <= u32::MAX {
        Some(n.mantissa as u32)
    } else {
        None
    }
}

/// `JsonValue::as_u32`: the value as a `u32`, if it is a number that is one.
pub open spec fn json_as_u32(v: JsonView) -> Option<u32> {
    match v {
        JsonView::Number(n) => number_as_u32(n),
        _ => None,
    }
}

/// `JsonValue::as_str`: the text of a string value.
pub open spec fn json_as_str(v: JsonView) -> Option<Seq<char>> {
    match v {
        JsonView::String(s) => Some(s),
        _ => None,
    }
}

/// The entries of an object; for any other value, none.
pub open spec fn json_entries(v: JsonView) -> Seq<JsonMemberView> {
    match v {
        JsonView::Object(o) => o,
        _ => Seq::empty(),
    }
}

impl Json {
    pub fn as_u32(&self) -> (r: Option<u32>)
        ensures
            r == json_as_u32(self@),
    {
        match self {
            Json::Number(n) => {
                let n = n.parts();
                if n.positive && n.exponent == 0 && n.mantissa <= 0xffff_ffff {
                    Some(n.mantissa as u32)
                } else {
                    None
                }
            },
            _ => None,
        }
    }

    pub fn as_str(&self) -> (r: Option<&str>)
        ensures
            match r {
                Some(s) => json_as_str(self@) == Some(s@),
                None => json_as_str(self@) is None,
            },
    {
        match self {
            Json::String(s) => Some(s.as_str()),
            _ => None,
        }
    }
}

/// The views of a list of values, one by one.
pub proof fn lemma_seq_view_index(s: Seq<Json>)
    ensures
        json_seq_view(s).len() == s.len(),
        forall|j: int| 0 <= j < s.len() ==> (#[trigger] json_seq_view(s)[j]) == s[j]@,
    decreases s.len(),
{
    if s.len() > 0 {
        lemma_seq_view_index(s.drop_first());
        assert forall|j: int| 0 <= j < s.len() implies (#[trigger] json_seq_view(s)[j]) == s[j]@ by {
            if j > 0 {
                assert(s.drop_first()[j - 1] == s[j]);
            }
        }
    }
}

/// The views of a list of object entries, one by one.
pub proof fn lemma_entries_view_index(s: Seq<JsonMember>)
    ensures
        json_entries_view(s).len() == s.len(),
        forall|j: int| 0 <= j < s.len() ==> (#[trigger] json_entries_view(s)[j]) == (JsonMemberView { key: s[j].key@, value: s[j].value@ }),
    decreases s.len(),
{
    if s.len() > 0 {
        lemma_entries_view_index(s.drop_first());
        assert forall|j: int| 0 <= j < s.len() implies (#[trigger] json_entries_view(s)[j]) == (JsonMemberView { key: s[j].key@, value: s[j].value@ }) by {
            if j > 0 {
                assert(s.drop_first()[j - 1] == s[j]);
            }
        }
    }
}

} // verus!
