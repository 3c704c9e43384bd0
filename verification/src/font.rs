//! The font model: metadata, metrics, glyphs and codepoint mappings.
use vstd::prelude::*;

use glifnames::GlyphName;
use indexmap::IndexMap;

use crate::maps::{
    entries_consistent, glyph_map_entries, lemma_insert_all_twice, glyph_map_insert, glyph_map_new, lemma_map_insert_all_step, map_insert, map_insert_all,
    mapping_map_entries, mapping_map_get_index, mapping_map_insert, mapping_map_len, mapping_map_new, string_map_entries,
    string_map_clone, string_map_get_index, string_map_len, string_map_new, glyph_map_clone, mapping_map_clone,
};
use crate::pixels::Pixels;
use crate::geometry::Point;
use crate::text::same_text;

verus! {

/// The glyph name that the Adobe Glyph List for New Fonts gives a codepoint:
/// the list's own name where it has one, else `uniXXXX` or `uXXXXX` for a
/// valid character, else an `.invalid.` name.
pub uninterp spec fn aglfn_glyph_name(codepoint: u32) -> Seq<char>;

/// `AGLFN::glyph_name` from `glifnames`: the AGLFN glyph name of `codepoint`.
/// It returns a name for every `u32`; which one is left to the name above.
#[verifier::external_body]
pub(crate) fn aglfn_name(codepoint: u32) -> (name: String)
    ensures
        name@ == aglfn_glyph_name(codepoint),
{
    glifnames::AGLFN::glyph_name(codepoint).into_owned()
}

/// The text of an optional string.
pub open spec fn opt_string_view(o: Option<String>) -> Option<Seq<char>> {
    match o {
        Some(s) => Some(s@),
        None => None,
    }
}

/// A named line across the glyph grid at a fixed position.
#[derive(Debug)]
pub struct Guideline {
    pub name: String,
    pub position: i32,
}

pub struct GuidelineView {
    pub name: Seq<char>,
    pub position: i32,
}

impl View for Guideline {
    type V = GuidelineView;

    open spec fn view(&self) -> GuidelineView {
        GuidelineView { name: self.name@, position: self.position }
    }
}

/// The views of a list of guidelines.
pub open spec fn guideline_views(v: Seq<Guideline>) -> Seq<GuidelineView> {
    v.map_values(|g: Guideline| g@)
}

/// Vertical (`x`) and horizontal (`y`) guidelines.
#[derive(Debug)]
pub struct Guidelines {
    pub x: Vec<Guideline>,
    pub y: Vec<Guideline>,
}

pub struct GuidelinesView {
    pub x: Seq<GuidelineView>,
    pub y: Seq<GuidelineView>,
}

impl View for Guidelines {
    type V = GuidelinesView;

    open spec fn view(&self) -> GuidelinesView {
        GuidelinesView { x: guideline_views(self.x@), y: guideline_views(self.y@) }
    }
}

impl Default for Guidelines {
    fn default() -> (g: Self)
        ensures
            g@ == no_guidelines(),
    {
        let g = Guidelines { x: Vec::new(), y: Vec::new() };
        assert(g@.x =~= Seq::<GuidelineView>::empty());
        assert(g@.y =~= Seq::<GuidelineView>::empty());
        g
    }
}

#[derive(Debug)]
pub struct Metadata {
    pub name: String,
    pub family: Option<String>,
    pub weight: Option<String>,
    pub style: Option<String>,
    pub author: Option<String>,
    pub copyright: Option<String>,
    pub license: Option<String>,
    pub extra: IndexMap<String, String>,
}

pub struct MetadataView {
    pub name: Seq<char>,
    pub family: Option<Seq<char>>,
    pub weight: Option<Seq<char>>,
    pub style: Option<Seq<char>>,
    pub author: Option<Seq<char>>,
    pub copyright: Option<Seq<char>>,
    pub license: Option<Seq<char>>,
    pub extra: Seq<(Seq<char>, Seq<char>)>,
}

impl View for Metadata {
    type V = MetadataView;

    open spec fn view(&self) -> MetadataView {
        MetadataView {
            name: self.name@,
            family: opt_string_view(self.family),
            weight: opt_string_view(self.weight),
            style: opt_string_view(self.style),
            author: opt_string_view(self.author),
            copyright: opt_string_view(self.copyright),
            license: opt_string_view(self.license),
            extra: string_map_entries(self.extra),
        }
    }
}

/// Metadata with an empty name and nothing else set.
pub open spec fn empty_metadata() -> MetadataView {
    MetadataView {
        name: Seq::empty(),
        family: None,
        weight: None,
        style: None,
        author: None,
        copyright: None,
        license: None,
        extra: Seq::empty(),
    }
}

impl Default for Metadata {
    fn default() -> (m: Self)
        ensures
            m@ == empty_metadata(),
    {
        Metadata {
            name: String::new(),
            family: None,
            weight: None,
            style: None,
            author: None,
            copyright: None,
            license: None,
            extra: string_map_new(),
        }
    }
}

#[derive(Debug)]
pub struct Metrics {
    /// The position where ascenders normally end.
    pub ascender: i32,
    /// The position where descenders normally end.
    pub descender: i32,
    /// The height of capital characters.
    pub cap_height: i32,
    /// The height of lower-case characters (such as 'x').
    pub x_height: i32,
    /// If set, all glyphs advance this many pixels.
    pub mono_advance: Option<u32>,
    /// Guidelines appearing across all glyphs.
    pub guidelines: Guidelines,
}

pub struct MetricsView {
    pub ascender: i32,
    pub descender: i32,
    pub cap_height: i32,
    pub x_height: i32,
    pub mono_advance: Option<u32>,
    pub guidelines: GuidelinesView,
}

impl View for Metrics {
    type V = MetricsView;

    open spec fn view(&self) -> MetricsView {
        MetricsView {
            ascender: self.ascender,
            descender: self.descender,
            cap_height: self.cap_height,
            x_height: self.x_height,
            mono_advance: self.mono_advance,
            guidelines: self.guidelines@,
        }
    }
}

/// Guidelines with no lines.
pub open spec fn no_guidelines() -> GuidelinesView {
    GuidelinesView { x: Seq::empty(), y: Seq::empty() }
}

/// Metrics with every line at zero and no guidelines.
pub open spec fn zero_metrics() -> MetricsView {
    MetricsView {
        ascender: 0,
        descender: 0,
        cap_height: 0,
        x_height: 0,
        mono_advance: None,
        guidelines: no_guidelines(),
    }
}

impl Default for Metrics {
    fn default() -> (m: Self)
        ensures
            m@ == zero_metrics(),
    {
        Metrics {
            ascender: 0,
            descender: 0,
            cap_height: 0,
            x_height: 0,
            mono_advance: None,
            guidelines: Guidelines::default(),
        }
    }
}

impl Metrics {
    /// The distance from the descender line up to the ascender line.
    pub fn em_size(&self) -> (size: i32)
        requires
            i32::MIN <= self.ascender - self.descender <= i32::MAX,
        ensures
            size == self.ascender - self.descender,
    {
        self.ascender - self.descender
    }
}

/// The glyphs a codepoint maps to: a default one and named alternates.
#[derive(Debug)]
pub struct CodepointMapping {
    /// Default glyph for this mapping.
    pub glyph: String,
    /// Alternative glyphs for this mapping, by alternate name.
    pub alternate: IndexMap<String, String>,
}

pub struct CodepointMappingView {
    pub glyph: Seq<char>,
    pub alternate: Seq<(Seq<char>, Seq<char>)>,
}

impl View for CodepointMapping {
    type V = CodepointMappingView;

    open spec fn view(&self) -> CodepointMappingView {
        CodepointMappingView { glyph: self.glyph@, alternate: string_map_entries(self.alternate) }
    }
}

impl CodepointMapping {
    pub fn new(glyph: &str) -> (m: Self)
        ensures
            m@ == (CodepointMappingView { glyph: glyph@, alternate: Seq::empty() }),
    {
        Self { glyph: glyph.to_owned(), alternate: string_map_new() }
    }
}

#[derive(Debug)]
pub struct Glyph {
    pub name: String,
    pub pixels: Pixels,
    /// How much space to reserve for this glyph.
    pub advance: u32,
    /// Guidelines for this glyph.
    pub guidelines: Guidelines,
    /// Additional information for exporters.
    pub extra: IndexMap<String, String>,
}

pub struct GlyphView {
    pub name: Seq<char>,
    pub pixels: Set<Point>,
    pub advance: u32,
    pub guidelines: GuidelinesView,
    pub extra: Seq<(Seq<char>, Seq<char>)>,
}

impl View for Glyph {
    type V = GlyphView;

    open spec fn view(&self) -> GlyphView {
        GlyphView {
            name: self.name@,
            pixels: self.pixels@,
            advance: self.advance,
            guidelines: self.guidelines@,
            extra: string_map_entries(self.extra),
        }
    }
}

/// An unnamed glyph with no pixels, advance, guidelines or extra data.
pub open spec fn empty_glyph() -> GlyphView {
    GlyphView {
        name: Seq::empty(),
        pixels: Set::empty(),
        advance: 0,
        guidelines: no_guidelines(),
        extra: Seq::empty(),
    }
}

impl Default for Glyph {
    fn default() -> (g: Self)
        ensures
            g@ == empty_glyph(),
    {
        Glyph {
            name: String::new(),
            pixels: Pixels::new(),
            advance: 0,
            guidelines: Guidelines::default(),
            extra: string_map_new(),
        }
    }
}

#[derive(Debug)]
pub struct Font {
    /// Information about the font.
    pub metadata: Metadata,
    /// Font metrics.
    pub metrics: Metrics,
    /// Names and descriptions of alternate mappings.
    pub alternates: IndexMap<String, String>,
    /// Unicode codepoint to glyph name mappings.
    pub mappings: IndexMap<u32, CodepointMapping>,
    /// Glyphs by name.
    pub glyphs: IndexMap<String, Glyph>,
}

pub struct FontView {
    pub metadata: MetadataView,
    pub metrics: MetricsView,
    pub alternates: Seq<(Seq<char>, Seq<char>)>,
    pub mappings: Seq<(u32, CodepointMappingView)>,
    pub glyphs: Seq<(Seq<char>, GlyphView)>,
}

impl View for Font {
    type V = FontView;

    open spec fn view(&self) -> FontView {
        FontView {
            metadata: self.metadata@,
            metrics: self.metrics@,
            alternates: string_map_entries(self.alternates),
            mappings: mapping_map_entries(self.mappings),
            glyphs: glyph_map_entries(self.glyphs),
        }
    }
}

/// A font with empty metadata, zero metrics and no alternates, mappings or
/// glyphs.
pub open spec fn empty_font() -> FontView {
    FontView {
        metadata: empty_metadata(),
        metrics: zero_metrics(),
        alternates: Seq::empty(),
        mappings: Seq::empty(),
        glyphs: Seq::empty(),
    }
}

impl Default for Font {
    fn default() -> (f: Self)
        ensures
            f@ == empty_font(),
    {
        Font {
            metadata: Metadata::default(),
            metrics: Metrics::default(),
            alternates: string_map_new(),
            mappings: mapping_map_new(),
            glyphs: glyph_map_new(),
        }
    }
}

impl Font {
    /// Adds `glyph` under `name` and maps `codepoint` to it, replacing any
    /// glyph of that name and any mapping of that codepoint.
    pub fn add_glyph_and_mapping(&mut self, codepoint: u32, name: &str, glyph: Glyph) -> (r: &mut Self)
        ensures
            (*r)@ == (FontView {
                glyphs: map_insert(old(self)@.glyphs, name@, glyph@),
                mappings: map_insert(
                    old(self)@.mappings,
                    codepoint,
                    CodepointMappingView { glyph: name@, alternate: Seq::empty() },
                ),
                ..old(self)@
            }),
            *final(self) == *final(r),
    {
        glyph_map_insert(&mut self.glyphs, name.to_owned(), glyph);
        mapping_map_insert(&mut self.mappings, codepoint, CodepointMapping::new(name));
        self
    }
}

/// The glyph entries that `add_glyphs_and_mappings` inserts for `entries`.
pub open spec fn named_glyphs(entries: Seq<(Seq<char>, u32, GlyphView)>) -> Seq<(Seq<char>, GlyphView)> {
    entries.map_values(|e: (Seq<char>, u32, GlyphView)| (e.0, e.2))
}

/// The mapping entries that `add_glyphs_and_mappings` inserts for `entries`.
pub open spec fn named_mappings(entries: Seq<(Seq<char>, u32, GlyphView)>) -> Seq<(u32, CodepointMappingView)> {
    entries.map_values(|e: (Seq<char>, u32, GlyphView)| (e.1, CodepointMappingView { glyph: e.0, alternate: Seq::empty() }))
}

/// The entries that `add_codepoints` adds for `codepoints`: each codepoint's
/// AGLFN glyph name, the codepoint, and an empty glyph.
pub open spec fn codepoint_entries(codepoints: Seq<u32>) -> Seq<(Seq<char>, u32, GlyphView)> {
    codepoints.map_values(|c: u32| (aglfn_glyph_name(c), c, empty_glyph()))
}

/// The font after `add_codepoints`: an empty glyph under each codepoint's
/// AGLFN name, and the codepoint mapped to that name.
pub open spec fn with_codepoints(f: FontView, codepoints: Seq<u32>) -> FontView {
    FontView {
        glyphs: map_insert_all(f.glyphs, named_glyphs(codepoint_entries(codepoints))),
        mappings: map_insert_all(f.mappings, named_mappings(codepoint_entries(codepoints))),
        ..f
    }
}

/// Adding the same codepoints a second time leaves the font as adding them
/// once did.
pub proof fn lemma_add_codepoints_twice(f: FontView, codepoints: Seq<u32>)
    ensures
        with_codepoints(with_codepoints(f, codepoints), codepoints) == with_codepoints(f, codepoints),
{
    let glyphs = named_glyphs(codepoint_entries(codepoints));
    let mappings = named_mappings(codepoint_entries(codepoints));
    assert(entries_consistent(glyphs));
    assert(entries_consistent(mappings)) by {
        assert forall|i: int, j: int|
            0 <= i < mappings.len() && 0 <= j < mappings.len() && #[trigger] mappings[i].0 == #[trigger] mappings[j].0
            implies mappings[i].1 == mappings[j].1 by {
            assert(mappings[i].0 == codepoints[i] && mappings[j].0 == codepoints[j]);
        }
    }
    lemma_insert_all_twice(f.glyphs, glyphs);
    lemma_insert_all_twice(f.mappings, mappings);
}

/// The first alternate of `alternates` that names glyph `name`, if any.
pub open spec fn first_alternate(alternates: Seq<(Seq<char>, Seq<char>)>, name: Seq<char>) -> Option<Seq<char>>
    decreases alternates.len(),
{
    if alternates.len() == 0 {
        None
    } else if alternates[0].1 == name {
        Some(alternates[0].0)
    } else {
        first_alternate(alternates.drop_first(), name)
    }
}

/// The first mapping, in order, that names glyph `name` as its default glyph
/// (`None` beside the codepoint) or else as one of its alternates (that
/// alternate's name beside the codepoint).
pub open spec fn glyph_codepoint(mappings: Seq<(u32, CodepointMappingView)>, name: Seq<char>) -> Option<
    (u32, Option<Seq<char>>),
>
    decreases mappings.len(),
{
    if mappings.len() == 0 {
        None
    } else if mappings[0].1.glyph == name {
        Some((mappings[0].0, None))
    } else {
        match first_alternate(mappings[0].1.alternate, name) {
            Some(alt) => Some((mappings[0].0, Some(alt))),
            None => glyph_codepoint(mappings.drop_first(), name),
        }
    }
}

impl Font {
    /// Adds each named glyph in turn, replacing any glyph of the same name.
    pub fn add_glyphs(&mut self, glyphs: Vec<(String, Glyph)>) -> (r: &mut Self)
        ensures
            (*r)@ == (FontView {
                glyphs: map_insert_all(old(self)@.glyphs, glyphs@.map_values(|e: (String, Glyph)| (e.0@, e.1@))),
                ..old(self)@
            }),
            *final(self) == *final(r),
    {
        let ghost entries = glyphs@.map_values(|e: (String, Glyph)| (e.0@, e.1@));
        let ghost start = self@;
        let mut glyphs = glyphs;
        let n = glyphs.len();
        let mut i: usize = 0;
        while i < n
            invariant
                n == entries.len(),
                glyphs@.len() == n,
                i <= n,
                entries == glyphs@.map_values(|e: (String, Glyph)| (e.0@, e.1@)),
                self@ == (FontView { glyphs: map_insert_all(start.glyphs, entries.take(i as int)), ..start }),
            decreases n - i,
        {
            proof {
                lemma_map_insert_all_step(start.glyphs, entries, i as int);
            }
            let name = glyphs[i].0.clone();
            let glyph = glyphs[i].1.clone();
            glyph_map_insert(&mut self.glyphs, name, glyph);
            i += 1;
        }
        assert(entries.take(n as int) =~= entries);
        self
    }

    /// For each `(name, codepoint, glyph)` in turn, maps `codepoint` to
    /// `name` and adds `glyph` under `name`, replacing what was there.
    pub fn add_glyphs_and_mappings(&mut self, glyph_mappings: Vec<(String, u32, Glyph)>) -> (r: &mut Self)
        ensures
            (*r)@ == (FontView {
                glyphs: map_insert_all(
                    old(self)@.glyphs,
                    named_glyphs(glyph_mappings@.map_values(|e: (String, u32, Glyph)| (e.0@, e.1, e.2@))),
                ),
                mappings: map_insert_all(
                    old(self)@.mappings,
                    named_mappings(glyph_mappings@.map_values(|e: (String, u32, Glyph)| (e.0@, e.1, e.2@))),
                ),
                ..old(self)@
            }),
            *final(self) == *final(r),
    {
        let ghost entries = glyph_mappings@.map_values(|e: (String, u32, Glyph)| (e.0@, e.1, e.2@));
        let ghost start = self@;
        let n = glyph_mappings.len();
        let mut i: usize = 0;
        while i < n
            invariant
                n == entries.len(),
                glyph_mappings@.len() == n,
                i <= n,
                entries == glyph_mappings@.map_values(|e: (String, u32, Glyph)| (e.0@, e.1, e.2@)),
                self@ == (FontView {
                    glyphs: map_insert_all(start.glyphs, named_glyphs(entries).take(i as int)),
                    mappings: map_insert_all(start.mappings, named_mappings(entries).take(i as int)),
                    ..start
                }),
            decreases n - i,
        {
            proof {
                lemma_map_insert_all_step(start.glyphs, named_glyphs(entries), i as int);
                lemma_map_insert_all_step(start.mappings, named_mappings(entries), i as int);
            }
            let name = glyph_mappings[i].0.clone();
            let codepoint = glyph_mappings[i].1;
            let glyph = glyph_mappings[i].2.clone();
            mapping_map_insert(&mut self.mappings, codepoint, CodepointMapping::new(name.as_str()));
            glyph_map_insert(&mut self.glyphs, name, glyph);
            i += 1;
        }
        assert(named_glyphs(entries).take(n as int) =~= named_glyphs(entries));
        assert(named_mappings(entries).take(n as int) =~= named_mappings(entries));
        self
    }

    /// Maps each codepoint to its AGLFN glyph name and adds an empty glyph
    /// under that name, replacing what was there.
    pub fn add_codepoints(&mut self, codepoints: Vec<u32>) -> (r: &mut Self)
        ensures
            (*r)@ == with_codepoints(old(self)@, codepoints@),
            *final(self) == *final(r),
    {
        let mut entries: Vec<(String, u32, Glyph)> = Vec::new();
        let mut i: usize = 0;
        while i < codepoints.len()
            invariant
                i <= codepoints@.len(),
                entries@.len() == i,
                forall|k: int|
                    0 <= k < i ==> (#[trigger] entries@[k]).0@ == aglfn_glyph_name(codepoints@[k]) && entries@[k].1
                        == codepoints@[k] && entries@[k].2@ == empty_glyph(),
            decreases codepoints.len() - i,
        {
            let c = codepoints[i];
            entries.push((aglfn_name(c), c, Glyph::default()));
            i += 1;
        }
        assert(entries@.map_values(|e: (String, u32, Glyph)| (e.0@, e.1, e.2@)) =~= codepoint_entries(codepoints@));
        self.add_glyphs_and_mappings(entries)
    }

    /// The first mapping, in order, whose default glyph is `glyph_name`
    /// (with `None`), or else that has it as an alternate (with that
    /// alternate's name).
    pub fn get_glyph_codepoint(&self, glyph_name: &str) -> (r: Option<(u32, Option<&String>)>)
        ensures
            match r {
                Some((c, alt)) => glyph_codepoint(self@.mappings, glyph_name@) == Some(
                    (c, match alt { Some(a) => Some(a@), None => None }),
                ),
                None => glyph_codepoint(self@.mappings, glyph_name@) is None,
            },
    {
        let ghost mappings = self@.mappings;
        let n = mapping_map_len(&self.mappings);
        assert(mappings.skip(0) =~= mappings);
        let mut i: usize = 0;
        while i < n
            invariant
                mappings == self@.mappings,
                n == mappings.len(),
                i <= n,
                glyph_codepoint(mappings, glyph_name@) == glyph_codepoint(mappings.skip(i as int), glyph_name@),
            decreases n - i,
        {
            let (codepoint, mapping) = mapping_map_get_index(&self.mappings, i);
            let ghost rest = mappings.skip(i as int);
            assert(rest[0] == mappings[i as int]);
            assert(rest.drop_first() =~= mappings.skip(i + 1));
            if same_text(mapping.glyph.as_str(), glyph_name) {
                return Some((*codepoint, None));
            }
            let ghost alts = mapping@.alternate;
            let m = string_map_len(&mapping.alternate);
            let mut j: usize = 0;
            assert(alts.skip(0) =~= alts);
            while j < m
                invariant
                    mappings == self@.mappings,
                    i < n == mappings.len(),
                    glyph_codepoint(mappings, glyph_name@) == glyph_codepoint(mappings.skip(i as int), glyph_name@),
                    mappings.skip(i as int)[0] == (*codepoint, mapping@),
                    mapping@.glyph != glyph_name@,
                    alts == mapping@.alternate,
                    alts == string_map_entries(mapping.alternate),
                    m == alts.len(),
                    j <= m,
                    first_alternate(alts, glyph_name@) == first_alternate(alts.skip(j as int), glyph_name@),
                decreases m - j,
            {
                let (alternate, glyph) = string_map_get_index(&mapping.alternate, j);
                assert(alts.skip(j as int)[0] == alts[j as int]);
                assert(alts.skip(j as int).drop_first() =~= alts.skip(j + 1));
                if same_text(glyph.as_str(), glyph_name) {
                    return Some((*codepoint, Some(alternate)));
                }
                j += 1;
            }
            assert(alts.skip(m as int) =~= Seq::<(Seq<char>, Seq<char>)>::empty());
            i += 1;
        }
        assert(mappings.skip(n as int) =~= Seq::<(u32, CodepointMappingView)>::empty());
        None
    }
}

impl Clone for Guideline {
    fn clone(&self) -> (r: Self)
        ensures
            r@ == self@,
    {
        Guideline { name: self.name.clone(), position: self.position }
    }
}

fn clone_lines(v: &Vec<Guideline>) -> (r: Vec<Guideline>)
    ensures
        guideline_views(r@) == guideline_views(v@),
{
    let mut out: Vec<Guideline> = Vec::new();
    let mut i: usize = 0;
    while i < v.len()
        invariant
            i <= v@.len(),
            out@.len() == i,
            forall|k: int| 0 <= k < i ==> (#[trigger] out@[k])@ == v@[k]@,
        decreases v.len() - i,
    {
        out.push(v[i].clone());
        i += 1;
    }
    assert(guideline_views(out@) =~= guideline_views(v@));
    out
}

impl Clone for Guidelines {
    fn clone(&self) -> (r: Self)
        ensures
            r@ == self@,
    {
        Guidelines { x: clone_lines(&self.x), y: clone_lines(&self.y) }
    }
}

fn clone_opt(o: &Option<String>) -> (r: Option<String>)
    ensures
        opt_string_view(r) == opt_string_view(*o),
{
    match o {
        Some(s) => Some(s.clone()),
        None => None,
    }
}

impl Clone for Metadata {
    fn clone(&self) -> (r: Self)
        ensures
            r@ == self@,
    {
        Metadata {
            name: self.name.clone(),
            family: clone_opt(&self.family),
            weight: clone_opt(&self.weight),
            style: clone_opt(&self.style),
            author: clone_opt(&self.author),
            copyright: clone_opt(&self.copyright),
            license: clone_opt(&self.license),
            extra: string_map_clone(&self.extra),
        }
    }
}

impl Clone for Metrics {
    fn clone(&self) -> (r: Self)
        ensures
            r@ == self@,
    {
        Metrics {
            ascender: self.ascender,
            descender: self.descender,
            cap_height: self.cap_height,
            x_height: self.x_height,
            mono_advance: self.mono_advance,
            guidelines: self.guidelines.clone(),
        }
    }
}

impl Clone for CodepointMapping {
    fn clone(&self) -> (r: Self)
        ensures
            r@ == self@,
    {
        CodepointMapping { glyph: self.glyph.clone(), alternate: string_map_clone(&self.alternate) }
    }
}

impl Clone for Glyph {
    fn clone(&self) -> (r: Self)
        ensures
            r@ == self@,
    {
        Glyph {
            name: self.name.clone(),
            pixels: self.pixels.clone(),
            advance: self.advance,
            guidelines: self.guidelines.clone(),
            extra: string_map_clone(&self.extra),
        }
    }
}

impl Clone for Font {
    fn clone(&self) -> (r: Self)
        ensures
            r@ == self@,
    {
        Font {
            metadata: self.metadata.clone(),
            metrics: self.metrics.clone(),
            alternates: string_map_clone(&self.alternates),
            mappings: mapping_map_clone(&self.mappings),
            glyphs: glyph_map_clone(&self.glyphs),
        }
    }
}

} // verus!
