//! Reading Pentacom BitFontMaker2 fonts (`.json`).
//!
//! The document is a JSON object. Its entries are read in order: `name`,
//! `copy` (the author), `letterspace`, `wordspacing`, `monospace` and
//! `monospacewidth` set font-wide values, and an entry whose key is a
//! decimal codepoint holds that codepoint's glyph as sixteen row numbers.
//! Other entries are skipped.
use vstd::prelude::*;

use crate::font::{
    aglfn_glyph_name, aglfn_name, CodepointMapping, CodepointMappingView, Font, FontView, Glyph,
    GlyphView, Guideline, GuidelineView, Guidelines, GuidelinesView, Metadata, MetadataView, Metrics,
    MetricsView,
};
use crate::formats::pentacom::{grid_point, on_grid, pixels_from_rows, rows_pixels, GLYPH_HEIGHT};
use crate::geometry::{u32_as_i32, Point};
use crate::import::ImportError;
use crate::json::{
    fixed_point_u64, json_as_str, json_as_u32, json_entries, json_fixed_point_u64, json_parse, parse, Json,
    JsonMemberView, JsonNumber, JsonView,
};
use crate::maps::{
    glyph_map_get_index, glyph_map_get_index_of, glyph_map_insert, glyph_map_len, glyph_map_replace_value,
    has_key, lookup, map_insert, mapping_map_get_index, mapping_map_get_index_of, mapping_map_insert,
    string_map_new, is_key_index, key_index, lemma_key_index, lemma_key_index_unique,
};
use crate::pixels::{bounding_rect, Pixels};
use crate::text::{decimal, decimal_string, parse_u32, parse_u32_spec, same_text};

verus! {

/// What the entries read so far have set.
pub struct PentacomState {
    pub name: Seq<char>,
    pub author: Option<Seq<char>>,
    pub monospace: bool,
    pub monospace_width: u32,
    pub word_spacing: u32,
    pub letter_spacing: u32,
    pub glyphs: Seq<(Seq<char>, GlyphView)>,
    pub mappings: Seq<(u32, CodepointMappingView)>,
}

/// How reading entries ends.
pub enum PentacomOutcome {
    Read(PentacomState),
    /// The entry for this codepoint does not hold sixteen row numbers.
    Invalid(u32),
    /// A glyph's advance would not fit a `u32`.
    Overflow,
}

/// How importing a document ends.
pub enum Imported {
    Font(FontView),
    Invalid(u32),
    Overflow,
}

pub open spec fn initial_state() -> PentacomState {
    PentacomState {
        name: Seq::empty(),
        author: None,
        monospace: false,
        monospace_width: 0,
        word_spacing: 5,
        letter_spacing: 1,
        glyphs: Seq::empty(),
        mappings: Seq::empty(),
    }
}

/// The integer part of a JSON number as the `json` crate takes it
/// (`as_fixed_point_u64` with no decimal places): for a non-negative integer
/// written without exponent, the integer itself.
pub open spec fn integer_part(n: JsonNumber) -> Option<u64> {
    if n.positive && n.exponent == 0 {
        Some(n.mantissa)
    } else {
        json_fixed_point_u64(n, 0)
    }
}

/// A row number: a JSON number whose integer part fits a `u16`. A number
/// whose exponent is the least an `i16` holds is none: taking its integer
/// part overflows in the `json` crate.
pub open spec fn row_number(v: JsonView) -> Option<u16> {
    match v {
        JsonView::Number(n) => if n.exponent == i16::MIN {
            None
        } else {
            match integer_part(n) {
                Some(m) => if m <= u16::MAX { Some(m as u16) } else { None },
                None => None,
            }
        },
        _ => None,
    }
}

/// The sixteen rows of a glyph entry, if it is an array of sixteen row numbers.
pub open spec fn json_rows(v: JsonView) -> Option<Seq<u16>> {
    match v {
        JsonView::Array(a) => if a.len() == GLYPH_HEIGHT && (forall|i: int| 0 <= i < a.len() ==> #[trigger] row_number(a[i]) is Some) {
            Some(Seq::new(a.len(), |i: int| row_number(a[i]).unwrap()))
        } else {
            None
        },
        _ => None,
    }
}

/// Sixteen non-negative JSON integers, each at most 65535, are a glyph's
/// sixteen rows, read as they are written; and the glyph they describe has
/// its pixel in row `r` from the top and column `x` from the left on exactly
/// when bit `x` of the `r`th number is set.
pub proof fn lemma_integer_rows(a: Seq<JsonView>, values: Seq<u16>)
    requires
        a.len() == 16,
        values.len() == 16,
        forall|i: int|
            0 <= i < 16 ==> a[i] == JsonView::Number(
                JsonNumber { positive: true, mantissa: #[trigger] values[i] as u64, exponent: 0 },
            ),
    ensures
        json_rows(JsonView::Array(a)) == Some(values),
        forall|r: int, x: int|
            0 <= r < 16 && 0 <= x < 16 ==> (rows_pixels(values).contains(#[trigger] grid_point(r, x)) <==> (values[r]
                >> (x as u16)) & 1 == 1),
{
    assert forall|i: int| 0 <= i < a.len() implies #[trigger] row_number(a[i]) == Some(values[i]) by {
        assert(a[i] == JsonView::Number(JsonNumber { positive: true, mantissa: values[i] as u64, exponent: 0 }));
    }
    assert(Seq::new(a.len(), |i: int| row_number(a[i]).unwrap()) =~= values);
    assert forall|r: int, x: int| 0 <= r < 16 && 0 <= x < 16 implies (rows_pixels(values).contains(
        #[trigger] grid_point(r, x),
    ) <==> (values[r] >> (x as u16)) & 1 == 1) by {
        let p = grid_point(r, x);
        assert(on_grid(p));
        assert(crate::formats::pentacom::GLYPH_Y_MAX - p.y == r);
        assert(p.x - crate::formats::pentacom::GLYPH_X_MIN == x);
    }
}

/// The glyph that sixteen rows describe: unnamed, with its advance one past
/// the right edge of its pixels. `None` where that advance does not fit a
/// `u32` (the pixels are all in the leftmost column).
pub open spec fn rows_glyph(rows: Seq<u16>) -> Option<GlyphView> {
    let pixels = rows_pixels(rows);
    let rect = bounding_rect(pixels);
    let right = rect.x + u32_as_i32(rect.width);
    if right < 0 {
        None
    } else {
        Some(GlyphView {
            name: Seq::empty(),
            pixels,
            advance: (right + 1) as u32,
            guidelines: GuidelinesView { x: Seq::empty(), y: Seq::empty() },
            extra: Seq::empty(),
        })
    }
}

/// The state after reading one entry.
pub open spec fn read_member(st: PentacomState, m: JsonMemberView) -> PentacomOutcome {
    if m.key == "name"@ {
        match json_as_str(m.value) {
            Some(s) => PentacomOutcome::Read(PentacomState { name: s, ..st }),
            None => PentacomOutcome::Read(st),
        }
    } else if m.key == "copy"@ {
        match json_as_str(m.value) {
            Some(s) => PentacomOutcome::Read(PentacomState { author: Some(s), ..st }),
            None => PentacomOutcome::Read(st),
        }
    } else if m.key == "letterspace"@ {
        match json_as_u32(m.value) {
            Some(v) => PentacomOutcome::Read(PentacomState { letter_spacing: v, ..st }),
            None => PentacomOutcome::Read(st),
        }
    } else if m.key == "wordspacing"@ {
        match json_as_u32(m.value) {
            Some(v) => PentacomOutcome::Read(PentacomState { word_spacing: v, ..st }),
            None => PentacomOutcome::Read(st),
        }
    } else if m.key == "monospace"@ {
        PentacomOutcome::Read(PentacomState { monospace: true, ..st })
    } else if m.key == "monospacewidth"@ {
        let width = match json_as_str(m.value) {
            Some(s) => match parse_u32_spec(s) {
                Some(w) => w,
                None => 0,
            },
            None => 0,
        };
        PentacomOutcome::Read(PentacomState { monospace_width: width, ..st })
    } else {
        match parse_u32_spec(m.key) {
            None => PentacomOutcome::Read(st),
            Some(codepoint) => match json_rows(m.value) {
                None => PentacomOutcome::Invalid(codepoint),
                Some(rows) => match rows_glyph(rows) {
                    None => PentacomOutcome::Overflow,
                    Some(glyph) => {
                        let name = aglfn_glyph_name(codepoint);
                        PentacomOutcome::Read(PentacomState {
                            glyphs: map_insert(st.glyphs, name, glyph),
                            mappings: map_insert(
                                st.mappings,
                                codepoint,
                                CodepointMappingView { glyph: name, alternate: Seq::empty() },
                            ),
                            ..st
                        })
                    },
                },
            },
        }
    }
}

/// The outcome of reading `members` in order, stopping at the first failure.
pub open spec fn read_members(members: Seq<JsonMemberView>) -> PentacomOutcome
    decreases members.len(),
{
    if members.len() == 0 {
        PentacomOutcome::Read(initial_state())
    } else {
        match read_members(members.drop_last()) {
            PentacomOutcome::Read(st) => read_member(st, members.last()),
            other => other,
        }
    }
}

/// Every glyph's advance plus `spacing` fits a `u32`.
pub open spec fn spacing_fits(glyphs: Seq<(Seq<char>, GlyphView)>, spacing: u32) -> bool {
    forall|i: int| 0 <= i < glyphs.len() ==> #[trigger] glyphs[i].1.advance + spacing <= u32::MAX
}

/// The glyphs with `spacing` added to every advance.
pub open spec fn spaced_glyphs(glyphs: Seq<(Seq<char>, GlyphView)>, spacing: u32) -> Seq<(Seq<char>, GlyphView)> {
    glyphs.map_values(|e: (Seq<char>, GlyphView)| (e.0, GlyphView { advance: (e.1.advance + spacing) as u32, ..e.1 }))
}

/// The mapping the space character gets when the document has none.
pub open spec fn space_mapping() -> CodepointMappingView {
    CodepointMappingView { glyph: aglfn_glyph_name(32), alternate: Seq::empty() }
}

/// The empty glyph named `name` that advances `advance` pixels.
pub open spec fn blank_glyph(name: Seq<char>, advance: u32) -> GlyphView {
    GlyphView {
        name,
        pixels: Set::empty(),
        advance,
        guidelines: GuidelinesView { x: Seq::empty(), y: Seq::empty() },
        extra: Seq::empty(),
    }
}

/// The metrics every imported font gets: a sixteen-pixel em with the
/// baseline four pixels up, and a bearing guideline two pixels left of the
/// origin.
pub open spec fn pentacom_metrics(mono_advance: Option<u32>) -> MetricsView {
    MetricsView {
        ascender: 12,
        descender: -4i32,
        cap_height: 9,
        x_height: 8,
        mono_advance,
        guidelines: GuidelinesView {
            x: seq![GuidelineView { name: "bearing"@, position: -2i32 }],
            y: Seq::empty(),
        },
    }
}

/// The font made from what the entries set.
pub open spec fn finish(st: PentacomState) -> Imported {
    if st.letter_spacing > 0 && !spacing_fits(st.glyphs, st.letter_spacing) {
        Imported::Overflow
    } else {
        let glyphs = if st.letter_spacing > 0 { spaced_glyphs(st.glyphs, st.letter_spacing) } else { st.glyphs };
        let mappings = if has_key(st.mappings, 32) { st.mappings } else { st.mappings.push((32, space_mapping())) };
        let space_name = lookup(mappings, 32u32).unwrap().glyph;
        let glyphs = if has_key(glyphs, space_name) {
            glyphs
        } else {
            glyphs.push((space_name, blank_glyph(space_name, st.word_spacing)))
        };
        Imported::Font(FontView {
            metadata: MetadataView {
                name: st.name,
                family: None,
                weight: None,
                style: None,
                author: st.author,
                copyright: None,
                license: None,
                extra: Seq::empty(),
            },
            metrics: pentacom_metrics(
                if st.monospace && st.monospace_width > 0 { Some(st.monospace_width) } else { None },
            ),
            alternates: Seq::empty(),
            mappings,
            glyphs,
        })
    }
}

/// What importing the document `doc` gives.
pub open spec fn import_outcome(doc: JsonView) -> Imported {
    match read_members(json_entries(doc)) {
        PentacomOutcome::Read(st) => finish(st),
        PentacomOutcome::Invalid(c) => Imported::Invalid(c),
        PentacomOutcome::Overflow => Imported::Overflow,
    }
}

/// The message for a glyph entry that is not sixteen row numbers.
pub open spec fn invalid_codepoint_message(codepoint: u32) -> Seq<char> {
    "codepoint "@ + decimal(codepoint as nat) + " is not valid"@
}

/// `r` is what the import of a document that ends in `outcome` returns.
pub open spec fn import_result(r: Result<Font, ImportError>, outcome: Imported) -> bool {
    match outcome {
        Imported::Font(f) => r matches Ok(font) && font@ == f,
        Imported::Invalid(c) => r matches Err(ImportError::Message(m)) && m@ == invalid_codepoint_message(c),
        Imported::Overflow => r matches Err(ImportError::AdvanceOverflow),
    }
}

// ---------------------------------------------------------------------------


fn invalid_codepoint(codepoint: u32) -> (e: ImportError)
    ensures
        e matches ImportError::Message(m) && m@ == invalid_codepoint_message(codepoint),
{
    let mut m = "codepoint ".to_owned();
    let digits = decimal_string(codepoint);
    m.append(digits.as_str());
    m.append(" is not valid");
    ImportError::Message(m)
}

/// The row numbers of a glyph entry.
fn read_rows(value: &Json) -> (r: Option<Vec<u16>>)
    ensures
        match r {
            Some(rows) => json_rows(value@) == Some(rows@),
            None => json_rows(value@) is None,
        },
{
    match value {
        Json::Array(a) => {
            proof {
                crate::json::lemma_seq_view_index(a@);
                assert(value@ == JsonView::Array(crate::json::json_seq_view(a@)));
            }
            if a.len() != GLYPH_HEIGHT {
                return None;
            }
            let mut rows: Vec<u16> = Vec::with_capacity(GLYPH_HEIGHT);
            let mut i: usize = 0;
            while i < a.len()
                invariant
                    value@ == JsonView::Array(crate::json::json_seq_view(a@)),
                    a@.len() == GLYPH_HEIGHT,
                    i <= a@.len(),
                    rows@.len() == i,
                    forall|j: int| 0 <= j < a@.len() ==> (#[trigger] crate::json::json_seq_view(a@)[j]) == a@[j]@,
                    crate::json::json_seq_view(a@).len() == a@.len(),
                    forall|j: int| 0 <= j < i ==> row_number(a@[j]@) == Some(#[trigger] rows@[j]),
                decreases a.len() - i,
            {
                let row = match &a[i] {
                    Json::Number(n) => if n.parts().exponent == -0x8000 {
                        None
                    } else {
                        match fixed_point_u64(n, 0) {
                            Some(m) => if m <= 0xffff { Some(m as u16) } else { None },
                            None => None,
                        }
                    },
                    _ => None,
                };
                match row {
                    Some(v) => rows.push(v),
                    None => {
                        let ghost items = crate::json::json_seq_view(a@);
                        assert(items[i as int] == a@[i as int]@);
                        assert(row_number(items[i as int]) is None);
                        assert(!(forall|j: int| 0 <= j < items.len() ==> #[trigger] row_number(items[j]) is Some));
                        assert(json_rows(JsonView::Array(items)) is None);
                        return None;
                    },
                }
                i += 1;
            }
            let ghost items = crate::json::json_seq_view(a@);
            assert(forall|j: int| 0 <= j < items.len() ==> #[trigger] row_number(items[j]) == Some(rows@[j]));
            assert(Seq::new(items.len(), |j: int| row_number(items[j]).unwrap()) =~= rows@);
            Some(rows)
        },
        _ => None,
    }
}

/// The glyph that sixteen rows describe, or `None` where its advance
/// overflows.
fn glyph_from_rows(rows: &Vec<u16>) -> (r: Option<Glyph>)
    requires
        rows@.len() == GLYPH_HEIGHT,
    ensures
        match r {
            Some(g) => rows_glyph(rows@) == Some(g@),
            None => rows_glyph(rows@) is None,
        },
{
    let mut glyph = Glyph::default();
    glyph.pixels = pixels_from_rows(rows);
    let rect = glyph.pixels.rect();
    proof {
        let s = glyph.pixels@;
        if !s.is_empty() {
            let p0 = choose|p: Point| s.contains(p) && p.x == rect.x;
            let p1 = choose|p: Point| s.contains(p) && p.x == (rect.x + rect.width - 1) as i32;
            assert(on_grid(p0) && on_grid(p1));
        }
    }
    let right = rect.right();
    if right < 0 {
        return None;
    }
    glyph.advance = (right as u32) + 1;
    Some(glyph)
}

} // verus!

verus! {

/// The font being read and the font-wide values read so far.
struct Reader {
    font: Font,
    monospace: bool,
    monospace_width: u32,
    word_spacing: u32,
    letter_spacing: u32,
}

impl Reader {
    spec fn state(&self) -> PentacomState {
        PentacomState {
            name: self.font@.metadata.name,
            author: self.font@.metadata.author,
            monospace: self.monospace,
            monospace_width: self.monospace_width,
            word_spacing: self.word_spacing,
            letter_spacing: self.letter_spacing,
            glyphs: self.font@.glyphs,
            mappings: self.font@.mappings,
        }
    }

    /// The parts of the font that entries do not change have their initial values.
    spec fn shaped(&self) -> bool {
        &&& self.font@.metadata.family is None
        &&& self.font@.metadata.weight is None
        &&& self.font@.metadata.style is None
        &&& self.font@.metadata.copyright is None
        &&& self.font@.metadata.license is None
        &&& self.font@.metadata.extra == Seq::<(Seq<char>, Seq<char>)>::empty()
        &&& self.font@.metrics == pentacom_metrics(None)
        &&& self.font@.alternates == Seq::<(Seq<char>, Seq<char>)>::empty()
    }

    fn new() -> (r: Self)
        ensures
            r.state() == initial_state(),
            r.shaped(),
    {
        let bearing = Guideline { name: "bearing".to_owned(), position: -2 };
        let guidelines = Guidelines { x: vec![bearing], y: Vec::new() };
        let metrics = Metrics {
            ascender: 12,
            descender: -4,
            cap_height: 9,
            x_height: 8,
            mono_advance: None,
            guidelines,
        };
        proof {
            reveal_strlit("bearing");
            assert(metrics@.guidelines.x =~= seq![GuidelineView { name: "bearing"@, position: -2i32 }]);
            assert(metrics@.guidelines.y =~= Seq::<GuidelineView>::empty());
        }
        let mut font = Font::default();
        font.metrics = metrics;
        let r = Reader { font, monospace: false, monospace_width: 0, word_spacing: 5, letter_spacing: 1 };
        assert(r.state() =~= initial_state());
        r
    }

    /// Reads one entry of the document.
    fn read(&mut self, m: &crate::json::JsonMember) -> (r: Result<(), ImportError>)
        requires
            old(self).shaped(),
        ensures
            final(self).shaped(),
            match read_member(old(self).state(), JsonMemberView { key: m.key@, value: m.value@ }) {
                PentacomOutcome::Read(st) => r is Ok && final(self).state() == st,
                PentacomOutcome::Invalid(c) => r matches Err(ImportError::Message(msg))
                    && msg@ == invalid_codepoint_message(c),
                PentacomOutcome::Overflow => r matches Err(ImportError::AdvanceOverflow),
            },
    {
        let key = &m.key;
        let value = &m.value;
        if same_text(key.as_str(), "name") {
            if let Some(name) = value.as_str() {
                self.font.metadata.name = name.to_owned();
            }
        } else if same_text(key.as_str(), "copy") {
            if let Some(author) = value.as_str() {
                self.font.metadata.author = Some(author.to_owned());
            }
        } else if same_text(key.as_str(), "letterspace") {
            if let Some(v) = value.as_u32() {
                self.letter_spacing = v;
            }
        } else if same_text(key.as_str(), "wordspacing") {
            if let Some(v) = value.as_u32() {
                self.word_spacing = v;
            }
        } else if same_text(key.as_str(), "monospace") {
            self.monospace = true;
        } else if same_text(key.as_str(), "monospacewidth") {
            self.monospace_width = match value.as_str() {
                Some(s) => match parse_u32(s) {
                    Some(w) => w,
                    None => 0,
                },
                None => 0,
            };
        } else {
            let codepoint = match parse_u32(key.as_str()) {
                Some(c) => c,
                None => return Ok(()),
            };
            let rows = match read_rows(value) {
                Some(rows) => rows,
                None => return Err(invalid_codepoint(codepoint)),
            };
            let glyph = match glyph_from_rows(&rows) {
                Some(g) => g,
                None => return Err(ImportError::AdvanceOverflow),
            };
            let name = aglfn_name(codepoint);
            let _ = self.font.add_glyph_and_mapping(codepoint, name.as_str(), glyph);
        }
        Ok(())
    }

    /// Adds the letter spacing to every glyph's advance.
    fn space_letters(&mut self) -> (r: Result<(), ImportError>)
        requires
            old(self).shaped(),
            old(self).letter_spacing > 0,
        ensures
            final(self).shaped(),
            spacing_fits(old(self).font@.glyphs, old(self).letter_spacing) ==> {
                &&& r is Ok
                &&& final(self).state() == (PentacomState {
                    glyphs: spaced_glyphs(old(self).font@.glyphs, old(self).letter_spacing),
                    ..old(self).state()
                })
            },
            !spacing_fits(old(self).font@.glyphs, old(self).letter_spacing) ==> r matches Err(
                ImportError::AdvanceOverflow,
            ),
    {
        let ghost orig = self.font@.glyphs;
        let spacing = self.letter_spacing;
        let n = glyph_map_len(&self.font.glyphs);
        let mut i: usize = 0;
        while i < n
            invariant
                self.shaped(),
                spacing == self.letter_spacing,
                self.letter_spacing == old(self).letter_spacing,
                self.state() == (PentacomState { glyphs: self.font@.glyphs, ..old(self).state() }),
                orig == old(self).font@.glyphs,
                n == orig.len(),
                i <= n,
                self.font@.glyphs == Seq::new(
                    n as nat,
                    |j: int| if j < i {
                        (orig[j].0, GlyphView { advance: (orig[j].1.advance + spacing) as u32, ..orig[j].1 })
                    } else {
                        orig[j]
                    },
                ),
                forall|j: int| 0 <= j < i ==> #[trigger] orig[j].1.advance + spacing <= u32::MAX,
            decreases n - i,
        {
            let mut glyph = glyph_map_replace_value(&mut self.font.glyphs, i, Glyph::default());
            if glyph.advance > u32::MAX - spacing {
                assert(!spacing_fits(orig, spacing)) by {
                    assert(orig[i as int].1.advance + spacing > u32::MAX);
                }
                return Err(ImportError::AdvanceOverflow);
            }
            glyph.advance = glyph.advance + spacing;
            let _ = glyph_map_replace_value(&mut self.font.glyphs, i, glyph);
            proof {
                assert(self.font@.glyphs =~= Seq::new(
                    n as nat,
                    |j: int| if j < i + 1 {
                        (orig[j].0, GlyphView { advance: (orig[j].1.advance + spacing) as u32, ..orig[j].1 })
                    } else {
                        orig[j]
                    },
                ));
            }
            i += 1;
        }
        assert(self.font@.glyphs =~= spaced_glyphs(orig, spacing));
        Ok(())
    }

    /// Gives the space character a mapping and a glyph if it has none.
    fn add_space(&mut self)
        requires
            old(self).shaped(),
        ensures
            final(self).shaped(),
            ({
                let mappings = if has_key(old(self).font@.mappings, 32) {
                    old(self).font@.mappings
                } else {
                    old(self).font@.mappings.push((32, space_mapping()))
                };
                let space_name = lookup(mappings, 32u32).unwrap().glyph;
                let glyphs = if has_key(old(self).font@.glyphs, space_name) {
                    old(self).font@.glyphs
                } else {
                    old(self).font@.glyphs.push((space_name, blank_glyph(space_name, old(self).word_spacing)))
                };
                final(self).state() == (PentacomState { mappings, glyphs, ..old(self).state() })
            }),
    {
        let ghost old_mappings = self.font@.mappings;
        if mapping_map_get_index_of(&self.font.mappings, 32).is_none() {
            let name = aglfn_name(32);
            mapping_map_insert(&mut self.font.mappings, 32, CodepointMapping::new(name.as_str()));
        }
        let ghost mappings = self.font@.mappings;
        assert(mappings == if has_key(old_mappings, 32) {
            old_mappings
        } else {
            old_mappings.push((32, space_mapping()))
        });
        proof {
            if !has_key(old_mappings, 32) {
                assert(mappings[old_mappings.len() as int].0 == 32);
            } else {
                lemma_key_index(old_mappings, 32);
                assert(mappings[key_index(old_mappings, 32)].0 == 32);
            }
        }
        let idx = mapping_map_get_index_of(&self.font.mappings, 32).unwrap();
        proof {
            lemma_key_index_unique(mappings, 32u32, idx as int);
        }
        let (_, mapping) = mapping_map_get_index(&self.font.mappings, idx);
        let space_name = mapping.glyph.clone();
        let ghost old_glyphs = self.font@.glyphs;
        if glyph_map_get_index_of(&self.font.glyphs, space_name.as_str()).is_none() {
            let glyph = Glyph {
                name: space_name.clone(),
                pixels: Pixels::new(),
                advance: self.word_spacing,
                guidelines: Guidelines::default(),
                extra: string_map_new(),
            };
            glyph_map_insert(&mut self.font.glyphs, space_name, glyph);
        }
    }
}

/// Once reading a prefix of the entries fails, reading all of them fails the
/// same way.
proof fn lemma_failure_persists(entries: Seq<JsonMemberView>, k: int)
    requires
        0 < k <= entries.len(),
        !(read_members(entries.take(k)) is Read),
    ensures
        read_members(entries) == read_members(entries.take(k)),
    decreases entries.len() - k,
{
    if k == entries.len() {
        assert(entries.take(k) =~= entries);
    } else {
        assert(entries.take(k + 1).drop_last() =~= entries.take(k));
        lemma_failure_persists(entries, k + 1);
    }
}

/// Reads the document's entries and builds the font, reporting an advance
/// overflow as an error.
fn read_document(doc: &Json) -> (r: Result<Font, ImportError>)
    ensures
        import_result(r, import_outcome(doc@)),
{
    let mut reader = Reader::new();
    let empty: Vec<crate::json::JsonMember> = Vec::new();
    let members = match doc {
        Json::Object(o) => o,
        _ => &empty,
    };
    proof {
        crate::json::lemma_entries_view_index(members@);
        assert(json_entries(doc@) == crate::json::json_entries_view(members@));
    }
    let ghost entries = json_entries(doc@);
    let mut i: usize = 0;
    assert(entries.take(0) =~= Seq::<JsonMemberView>::empty());
    while i < members.len()
        invariant
            entries == json_entries(doc@),
            entries == crate::json::json_entries_view(members@),
            entries.len() == members@.len(),
            forall|j: int| 0 <= j < members@.len() ==> (#[trigger] entries[j]) == (JsonMemberView {
                key: members@[j].key@,
                value: members@[j].value@,
            }),
            i <= members@.len(),
            reader.shaped(),
            read_members(entries.take(i as int)) == PentacomOutcome::Read(reader.state()),
        decreases members.len() - i,
    {
        let ghost before = reader.state();
        assert(entries.take(i + 1).drop_last() =~= entries.take(i as int));
        let step = reader.read(&members[i]);
        if step.is_err() {
            proof {
                assert(read_members(entries.take(i + 1)) == read_member(before, entries[i as int]));
                lemma_failure_persists(entries, i + 1);
            }
            return match step {
                Err(e) => Err(e),
                Ok(_) => Err(ImportError::NoImporter),
            };
        }
        i += 1;
    }
    assert(entries.take(members@.len() as int) =~= entries);
    if reader.letter_spacing > 0 {
        let spaced = reader.space_letters();
        if spaced.is_err() {
            return Err(ImportError::AdvanceOverflow);
        }
    }
    reader.add_space();
    if reader.monospace && reader.monospace_width > 0 {
        reader.font.metrics.mono_advance = Some(reader.monospace_width);
    }
    proof {
        assert(reader.font@.metadata =~= (MetadataView {
            name: reader.font@.metadata.name,
            family: None,
            weight: None,
            style: None,
            author: reader.font@.metadata.author,
            copyright: None,
            license: None,
            extra: Seq::empty(),
        }));
    }
    Ok(reader.font)
}

/// Builds a font from a Pentacom document.
pub fn import_document(doc: &Json) -> (r: Result<Font, ImportError>)
    requires
        !(import_outcome(doc@) is Overflow),
    ensures
        import_result(r, import_outcome(doc@)),
{
    read_document(doc)
}

/// Reads a font from the text of a Pentacom `.json` file. Text that is not
/// JSON gives `ImportError::Misc`; a glyph whose advance would overflow gives
/// `ImportError::AdvanceOverflow`.
pub fn import(text: &str) -> (r: Result<Font, ImportError>)
    ensures
        match json_parse(text@) {
            None => r matches Err(ImportError::Misc(_)),
            Some(doc) => import_result(r, import_outcome(doc)),
        },
{
    match parse(text) {
        Ok(doc) => read_document(&doc),
        Err(e) => Err(ImportError::Misc(e)),
    }
}

} // verus!
