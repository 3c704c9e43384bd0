//! Writing Pentacom BitFontMaker2 fonts (`.json`).
//!
//! The document is a JSON object: the font's `name`, its author as `copy`,
//! `monospace` and `monospacewidth` for a monospaced font, the advance of the
//! space glyph as `wordspacing`, and then one entry per mapped codepoint
//! other than the space, keyed by the codepoint in decimal and holding the
//! sixteen rows of its glyph.
use vstd::prelude::*;

use crate::error::FontError;
use crate::export::ExportError;
use crate::font::{CodepointMappingView, Font, FontView, GlyphView};
use crate::formats::pentacom::{glyph_rows, row_value, GLYPH_HEIGHT, GLYPH_Y_MAX};
use crate::geometry::Point;
use crate::json::{dump, json_dump, Json, JsonMember, JsonMemberView, JsonNumber, JsonNumberValue, JsonView};
use crate::maps::{glyph_map_get, has_key, lookup, mapping_map_entries, mapping_map_get, mapping_map_get_index, mapping_map_len};
use crate::text::{decimal, decimal_string};

verus! {

/// The entry `key: value`.
pub open spec fn member(key: Seq<char>, value: JsonView) -> JsonMemberView {
    JsonMemberView { key, value }
}

/// The JSON number `n`.
pub open spec fn number(n: u64) -> JsonView {
    JsonView::Number(JsonNumber { positive: true, mantissa: n, exponent: 0 })
}

/// The sixteen rows of a glyph with these pixels, top row first.
pub open spec fn rows_json(pixels: Set<Point>) -> JsonView {
    JsonView::Array(
        Seq::new(GLYPH_HEIGHT as nat, |r: int| number(row_value(pixels, (GLYPH_Y_MAX - r) as i32) as u64)),
    )
}

/// The entries before the glyphs: name, author, monospacing and word spacing.
pub open spec fn header_members(font: FontView) -> Seq<JsonMemberView> {
    let name = seq![member("name"@, JsonView::String(font.metadata.name))];
    let copy = match font.metadata.author {
        Some(a) => if a.len() > 0 {
            seq![member("copy"@, JsonView::String(a))]
        } else {
            Seq::empty()
        },
        None => Seq::empty(),
    };
    let mono = match font.metrics.mono_advance {
        Some(m) => seq![member("monospace"@, JsonView::Boolean(true)), member("monospacewidth"@, number(m as u64))],
        None => Seq::empty(),
    };
    let word = match lookup(font.mappings, 32u32) {
        Some(space) => seq![member("wordspacing"@, number(lookup(font.glyphs, space.glyph).unwrap().advance as u64))],
        None => Seq::empty(),
    };
    name + copy + mono + word
}

/// The glyph entries for `mappings` in order, skipping the space; or the
/// name of the first glyph a mapping names that `glyphs` lacks.
pub open spec fn glyph_members(
    mappings: Seq<(u32, CodepointMappingView)>,
    glyphs: Seq<(Seq<char>, GlyphView)>,
) -> Result<Seq<JsonMemberView>, Seq<char>>
    decreases mappings.len(),
{
    if mappings.len() == 0 {
        Ok(Seq::empty())
    } else {
        match glyph_members(mappings.drop_last(), glyphs) {
            Err(name) => Err(name),
            Ok(members) => {
                let (codepoint, mapping) = mappings.last();
                if codepoint == 32 {
                    Ok(members)
                } else {
                    match lookup(glyphs, mapping.glyph) {
                        None => Err(mapping.glyph),
                        Some(g) => Ok(members.push(member(decimal(codepoint as nat), rows_json(g.pixels)))),
                    }
                }
            },
        }
    }
}

/// The document for `font`, or the name of a glyph it maps to but lacks.
pub open spec fn export_outcome(font: FontView) -> Result<JsonView, Seq<char>> {
    match glyph_members(font.mappings, font.glyphs) {
        Ok(members) => Ok(JsonView::Object(header_members(font) + members)),
        Err(name) => Err(name),
    }
}

/// The entry a mapping gets: its codepoint in decimal, and the rows of the
/// glyph it names.
pub open spec fn mapping_entry(
    glyphs: Seq<(Seq<char>, GlyphView)>,
) -> spec_fn((u32, CodepointMappingView)) -> JsonMemberView {
    |e: (u32, CodepointMappingView)| member(decimal(e.0 as nat), rows_json(lookup(glyphs, e.1.glyph).unwrap().pixels))
}

/// The mapping is not the space's.
pub open spec fn not_space(e: (u32, CodepointMappingView)) -> bool {
    e.0 != 32
}

/// The mappings other than the space's, in order.
pub open spec fn glyph_mappings(mappings: Seq<(u32, CodepointMappingView)>) -> Seq<(u32, CodepointMappingView)> {
    mappings.filter(|e: (u32, CodepointMappingView)| not_space(e))
}

/// Where every mapping other than the space's names a glyph the font has, the
/// glyph entries are exactly one per such mapping, in the mappings' order:
/// keyed by the codepoint in decimal, holding the sixteen rows of the glyph.
proof fn lemma_glyph_members_all(
    mappings: Seq<(u32, CodepointMappingView)>,
    glyphs: Seq<(Seq<char>, GlyphView)>,
)
    requires
        forall|i: int| 0 <= i < mappings.len() && (#[trigger] mappings[i]).0 != 32 ==> has_key(glyphs, mappings[i].1.glyph),
    ensures
        glyph_members(mappings, glyphs) == Ok::<Seq<JsonMemberView>, Seq<char>>(
            glyph_mappings(mappings).map_values(mapping_entry(glyphs)),
        ),
    decreases mappings.len(),
{
    reveal(Seq::filter);
    if mappings.len() > 0 {
        let rest = mappings.drop_last();
        assert forall|i: int| 0 <= i < rest.len() && (#[trigger] rest[i]).0 != 32 implies has_key(glyphs, rest[i].1.glyph) by {
            assert(rest[i] == mappings[i]);
        }
        lemma_glyph_members_all(rest, glyphs);
        let e = mappings.last();
        assert(e == mappings[mappings.len() - 1]);
        if e.0 != 32 {
            assert(has_key(glyphs, e.1.glyph));
            assert(glyph_mappings(mappings) == glyph_mappings(rest).push(e));
            assert(glyph_mappings(mappings).map_values(mapping_entry(glyphs)) =~= glyph_mappings(rest).map_values(
                mapping_entry(glyphs),
            ).push(mapping_entry(glyphs)(e)));
        } else {
            assert(glyph_mappings(mappings) == glyph_mappings(rest));
        }
    } else {
        assert(glyph_mappings(mappings).map_values(mapping_entry(glyphs)) =~= Seq::<JsonMemberView>::empty());
    }
}

/// Exporting a font whose mappings all name glyphs it has gives the header
/// entries and then one entry per codepoint other than the space, in the
/// order of the mappings: keyed by the codepoint in decimal and holding the
/// sixteen rows of the glyph the codepoint maps to. So there are as many
/// glyph entries as mappings other than the space's.
pub proof fn lemma_export_writes_every_glyph(font: FontView)
    requires
        forall|i: int| 0 <= i < font.mappings.len() ==> has_key(font.glyphs, (#[trigger] font.mappings[i]).1.glyph),
    ensures
        export_outcome(font) == Ok::<JsonView, Seq<char>>(JsonView::Object(
            header_members(font) + glyph_mappings(font.mappings).map_values(mapping_entry(font.glyphs)),
        )),
        forall|i: int| 0 <= i < glyph_mappings(font.mappings).len() ==> (#[trigger] glyph_mappings(font.mappings)[i]).0 != 32
            && font.mappings.contains(glyph_mappings(font.mappings)[i]),
        forall|i: int| 0 <= i < font.mappings.len() && (#[trigger] font.mappings[i]).0 != 32 ==> glyph_mappings(
            font.mappings,
        ).contains(font.mappings[i]),
{
    lemma_glyph_members_all(font.mappings, font.glyphs);
    let f = |e: (u32, CodepointMappingView)| not_space(e);
    assert(glyph_mappings(font.mappings) == font.mappings.filter(f));
    assert forall|i: int| 0 <= i < glyph_mappings(font.mappings).len() implies (#[trigger] glyph_mappings(
        font.mappings,
    )[i]).0 != 32 && font.mappings.contains(glyph_mappings(font.mappings)[i]) by {
        lemma_filter_from(font.mappings, f, i);
    }
    assert forall|i: int| 0 <= i < font.mappings.len() && (#[trigger] font.mappings[i]).0 != 32 implies glyph_mappings(
        font.mappings,
    ).contains(font.mappings[i]) by {
        font.mappings.lemma_filter_contains(f, i);
    }
}

/// Each element that a filter keeps comes from the sequence.
proof fn lemma_filter_from<A>(s: Seq<A>, f: spec_fn(A) -> bool, i: int)
    requires
        0 <= i < s.filter(f).len(),
    ensures
        f(s.filter(f)[i]),
        s.contains(s.filter(f)[i]),
    decreases s.len(),
{
    reveal(Seq::filter);
    s.lemma_filter_pred(f, i);
    if s.len() > 0 {
        let t = s.drop_last();
        if f(s.last()) && i == s.filter(f).len() - 1 {
            assert(s[s.len() - 1] == s.filter(f)[i]);
        } else {
            assert(s.filter(f)[i] == t.filter(f)[i]);
            lemma_filter_from(t, f, i);
            let j = choose|j: int| 0 <= j < t.len() && t[j] == t.filter(f)[i];
            assert(s[j] == t[j]);
        }
    }
}

/// If the space is mapped, the font has the glyph it maps to.
pub open spec fn space_glyph_present(font: FontView) -> bool {
    has_key(font.mappings, 32u32) ==> has_key(font.glyphs, lookup(font.mappings, 32u32).unwrap().glyph)
}

/// `r` is what exporting a font that ends in `outcome` returns.
pub open spec fn export_result<T>(r: Result<T, ExportError>, outcome: Result<JsonView, Seq<char>>, ok: spec_fn(T, JsonView) -> bool) -> bool {
    match outcome {
        Ok(doc) => r matches Ok(v) && ok(v, doc),
        Err(name) => r matches Err(ExportError::Format(FontError::GlyphNotFound { name: n })) && n@ == name,
    }
}

// ---------------------------------------------------------------------------

fn string_member(key: &str, value: &str) -> (m: JsonMember)
    ensures
        m.key@ == key@,
        m.value@ == JsonView::String(value@),
{
    JsonMember { key: key.to_owned(), value: Json::String(value.to_owned()) }
}

fn number_member(key: &str, n: u32) -> (m: JsonMember)
    ensures
        m.key@ == key@,
        m.value@ == number(n as u64),
{
    JsonMember { key: key.to_owned(), value: Json::Number(JsonNumberValue::integer(n as u64)) }
}

/// Pushing an entry pushes its view.
proof fn lemma_push_member(s: Seq<JsonMember>, m: JsonMember)
    ensures
        crate::json::json_entries_view(s.push(m)) == crate::json::json_entries_view(s).push(
            JsonMemberView { key: m.key@, value: m.value@ },
        ),
{
    crate::json::lemma_entries_view_index(s);
    crate::json::lemma_entries_view_index(s.push(m));
    assert(crate::json::json_entries_view(s.push(m)) =~= crate::json::json_entries_view(s).push(
        JsonMemberView { key: m.key@, value: m.value@ },
    ));
}

/// The rows of a glyph as a JSON array.
fn rows_value(pixels: &crate::pixels::Pixels) -> (v: Json)
    ensures
        v@ == rows_json(pixels@),
{
    let rows = glyph_rows(pixels);
    let mut out: Vec<Json> = Vec::with_capacity(GLYPH_HEIGHT);
    let mut r: usize = 0;
    while r < GLYPH_HEIGHT
        invariant
            r <= GLYPH_HEIGHT,
            rows@.len() == GLYPH_HEIGHT,
            forall|i: int| 0 <= i < 16 ==> #[trigger] rows@[i] == row_value(pixels@, (GLYPH_Y_MAX - i) as i32),
            out@.len() == r,
            forall|i: int| 0 <= i < r ==> (#[trigger] out@[i])@ == number(rows@[i] as u64),
        decreases GLYPH_HEIGHT - r,
    {
        out.push(Json::Number(JsonNumberValue::integer(rows[r] as u64)));
        r += 1;
    }
    proof {
        crate::json::lemma_seq_view_index(out@);
        assert(crate::json::json_seq_view(out@) =~= Seq::new(
            GLYPH_HEIGHT as nat,
            |i: int| number(row_value(pixels@, (GLYPH_Y_MAX - i) as i32) as u64),
        ));
    }
    Json::Array(out)
}

/// The Pentacom document for `font`. A mapping to a glyph the font lacks
/// gives `ExportError::Format`.
pub fn export_document(font: &Font) -> (r: Result<Json, ExportError>)
    requires
        space_glyph_present(font@),
    ensures
        export_result(r, export_outcome(font@), |j: Json, doc: JsonView| j@ == doc),
{
    let mut members: Vec<JsonMember> = Vec::new();
    let name = string_member("name", font.metadata.name.as_str());
    proof { lemma_push_member(members@, name); }
    members.push(name);
    if let Some(author) = &font.metadata.author {
        if !author.as_str().is_empty() {
            let copy = string_member("copy", author.as_str());
            proof { lemma_push_member(members@, copy); }
            members.push(copy);
        }
    }
    if let Some(mono_advance) = font.metrics.mono_advance {
        let flag = JsonMember { key: "monospace".to_owned(), value: Json::Boolean(true) };
        proof { lemma_push_member(members@, flag); }
        members.push(flag);
        let width = number_member("monospacewidth", mono_advance);
        proof { lemma_push_member(members@, width); }
        members.push(width);
    }
    if let Some(space) = mapping_map_get(&font.mappings, 32) {
        let glyph = glyph_map_get(&font.glyphs, space.glyph.as_str()).unwrap();
        let word = number_member("wordspacing", glyph.advance);
        proof { lemma_push_member(members@, word); }
        members.push(word);
    }
    let ghost header = crate::json::json_entries_view(members@);
    proof {
        reveal_strlit("name");
        reveal_strlit("copy");
        reveal_strlit("monospace");
        reveal_strlit("monospacewidth");
        reveal_strlit("wordspacing");
        assert(header =~= header_members(font@));
    }
    let ghost mappings = mapping_map_entries(font.mappings);
    let n = mapping_map_len(&font.mappings);
    let ghost mut glyph_entries: Seq<JsonMemberView> = Seq::empty();
    let mut i: usize = 0;
    assert(mappings.take(0) =~= Seq::<(u32, CodepointMappingView)>::empty());
    while i < n
        invariant
            mappings == mapping_map_entries(font.mappings),
            n == mappings.len(),
            i <= n,
            header == header_members(font@),
            glyph_members(mappings.take(i as int), font@.glyphs) == Ok::<Seq<JsonMemberView>, Seq<char>>(glyph_entries),
            crate::json::json_entries_view(members@) == header + glyph_entries,
        decreases n - i,
    {
        let (codepoint, mapping) = mapping_map_get_index(&font.mappings, i);
        assert(mappings.take(i + 1).drop_last() =~= mappings.take(i as int));
        assert(mappings.take(i + 1).last() == mappings[i as int]);
        if *codepoint != 32 {
            match glyph_map_get(&font.glyphs, mapping.glyph.as_str()) {
                None => {
                    proof {
                        lemma_error_persists(mappings, font@.glyphs, i + 1);
                    }
                    return Err(ExportError::Format(FontError::GlyphNotFound { name: mapping.glyph.clone() }));
                },
                Some(glyph) => {
                    let key = decimal_string(*codepoint);
                    let value = rows_value(&glyph.pixels);
                    let entry = JsonMember { key, value };
                    proof {
                        lemma_push_member(members@, entry);
                        glyph_entries = glyph_entries.push(member(decimal(*codepoint as nat), rows_json(glyph.pixels@)));
                    }
                    members.push(entry);
                },
            }
        }
        i += 1;
    }
    assert(mappings.take(n as int) =~= mappings);
    Ok(Json::Object(members))
}

/// Once the glyph entries of a prefix of the mappings fail, those of all the
/// mappings fail the same way.
proof fn lemma_error_persists(
    mappings: Seq<(u32, CodepointMappingView)>,
    glyphs: Seq<(Seq<char>, GlyphView)>,
    k: int,
)
    requires
        0 < k <= mappings.len(),
        glyph_members(mappings.take(k), glyphs) is Err,
    ensures
        glyph_members(mappings, glyphs) == glyph_members(mappings.take(k), glyphs),
    decreases mappings.len() - k,
{
    if k == mappings.len() {
        assert(mappings.take(k) =~= mappings);
    } else {
        assert(mappings.take(k + 1).drop_last() =~= mappings.take(k));
        lemma_error_persists(mappings, glyphs, k + 1);
    }
}

/// The text of the Pentacom document for `font`.
pub fn export(font: &Font) -> (r: Result<String, ExportError>)
    requires
        space_glyph_present(font@),
    ensures
        export_result(r, export_outcome(font@), |s: String, doc: JsonView| s@ == json_dump(doc)),
{
    match export_document(font) {
        Ok(doc) => Ok(dump(&doc)),
        Err(e) => Err(e),
    }
}

} // verus!
