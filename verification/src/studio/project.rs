//! The open project: its font, where it is saved, and whether it has
//! changes that are not saved. Edits arrive as actions; the actions that
//! read or write files are carried out by the caller, which reports back.
use vstd::prelude::*;

use indexmap::IndexMap;

use crate::export::{ExportError, Exporter};
use crate::font::{
    empty_font, guideline_views, CodepointMapping, CodepointMappingView, Font, FontView, Glyph, GlyphView, Guideline,
    GuidelineView, Guidelines, GuidelinesView, MetadataView, MetricsView, named_glyphs, named_mappings,
    codepoint_entries,
};
use crate::import::ImportError;
use crate::maps::{
    glyph_map_entries, glyph_map_get_index_of, glyph_map_insert, glyph_map_replace_value, has_key, is_key_index,
    key_index, lemma_key_index, lemma_key_index_unique, lookup, map_insert, map_insert_all, map_remove,
    mapping_map_entries, mapping_map_get_index_of, mapping_map_insert, mapping_map_replace_value,
    string_map_entries, string_map_get_index, string_map_get_index_of, string_map_len, glyph_map_get, string_map_insert, string_map_new, string_map_replace_index,
    string_map_shift_remove,
};
use crate::pixels::Pixels;
use crate::sets::{set_codepoints, GlyphSet};
use crate::text::same_text;

verus! {

/// An axis of guidelines: vertical lines (`X`) or horizontal ones (`Y`).
#[derive(Debug, Clone, Copy, PartialEq, Eq, Structural)]
pub enum Direction {
    X,
    Y,
}

/// A change to one axis of a set of guidelines.
#[derive(Debug)]
pub enum GuidelineAction {
    Create { name: String, position: i32 },
    SetName { index: usize, name: String },
    SetPosition { index: usize, position: i32 },
    SetDirection { index: usize, direction: Direction },
    Remove { index: usize },
}

/// A change to a map of extra string data.
#[derive(Debug)]
pub enum Extra {
    Add { key: String, value: String },
    RenameKey { old: String, new: String },
    SetValue { key: String, value: String },
    Remove { key: String },
}

/// A change to the font's metadata. An optional field is set to the text
/// given.
#[derive(Debug)]
pub enum SetMetadata {
    SetName(String),
    SetFamily(String),
    SetWeight(String),
    SetStyle(String),
    SetAuthor(String),
    SetCopyright(String),
    SetLicense(String),
    Extra(Extra),
}

/// A change to the font's metrics.
#[derive(Debug)]
pub enum SetMetrics {
    SetAscender(i32),
    SetDescender(i32),
    SetCapHeight(i32),
    SetXHeight(i32),
    SetMonoAdvance(Option<u32>),
    Guideline(Direction, GuidelineAction),
}

/// A change to a glyph's mapping.
#[derive(Debug)]
pub enum Mapping {
    SetCodepoint(u32),
    SetAlternate(Option<String>),
}

/// A change to one glyph. Renaming and remapping are not supported yet.
#[derive(Debug)]
pub enum GlyphAction {
    Rename(String),
    SetMapping(Mapping),
    SetAdvance(u32),
    Guideline(Direction, GuidelineAction),
    Extra(Extra),
}

/// A new empty glyph, optionally mapped from a codepoint, either as its
/// default glyph or as a named alternate.
#[derive(Debug)]
pub struct AddGlyph {
    pub name: String,
    pub mapping: Option<(u32, Option<String>)>,
}

/// What a project can be asked to do.
#[derive(Debug)]
pub enum Action {
    New,
    Import(String),
    ExportPath,
    Export(String, Exporter),
    Metadata(SetMetadata),
    Metrics(SetMetrics),
    Glyph { name: String, action: GlyphAction },
    AddGlyph(AddGlyph),
    AddGlyphs(Vec<AddGlyph>),
    AddGlyphSet(GlyphSet),
}

impl GlyphAction {
    /// This change, aimed at the glyph `name`.
    pub fn with_glyph(self, name: String) -> (a: Action)
        ensures
            a == (Action::Glyph { name, action: self }),
    {
        Action::Glyph { name, action: self }
    }
}

/// The action that applies `change` to the font's extra metadata.
pub fn extra_msg(change: Extra) -> (a: Action)
    ensures
        a == Action::Metadata(SetMetadata::Extra(change)),
{
    Action::Metadata(SetMetadata::Extra(change))
}

/// The action that applies `change` to the font's metadata; the inspector
/// applies this to each value the user enters.
pub fn set_metadata_fn(change: SetMetadata) -> (a: Action)
    ensures
        a == Action::Metadata(change),
{
    Action::Metadata(change)
}

/// What the project tells its user after an action.
#[derive(Debug, Clone, Copy, PartialEq, Eq, Structural)]
pub enum Response {
    /// The whole project was replaced.
    Reset,
    Changed,
}

/// What the caller of `Project::update` has left to do.
#[derive(Debug)]
pub enum Effect {
    /// Nothing more.
    Done,
    /// Pass this response on.
    Respond(Response),
    /// Import the font at this path, then call `Project::imported`.
    Import(String),
    /// Write the font to this path in this format, then call
    /// `Project::exported`.
    Export(String, Exporter),
}

/// Why an action failed.
#[derive(Debug)]
pub enum ProjectError {
    NoPath,
    Import(ImportError),
    Export(ExportError),
    GlyphMissing,
    GlyphExists,
    AlreadyContainsGlyphMapping,
    NoBaseGlyphMapping,
}

/// How a failed edit failed.
pub enum EditError {
    GlyphMissing,
    GlyphExists,
    AlreadyContainsGlyphMapping,
    NoBaseGlyphMapping,
}

/// `e` is the error `k` stands for.
pub open spec fn is_error(e: ProjectError, k: EditError) -> bool {
    match k {
        EditError::GlyphMissing => e is GlyphMissing,
        EditError::GlyphExists => e is GlyphExists,
        EditError::AlreadyContainsGlyphMapping => e is AlreadyContainsGlyphMapping,
        EditError::NoBaseGlyphMapping => e is NoBaseGlyphMapping,
    }
}

// ---------------------------------------------------------------------------
// Guidelines

/// The guidelines along `d`.
pub open spec fn lines(g: GuidelinesView, d: Direction) -> Seq<GuidelineView> {
    match d {
        Direction::X => g.x,
        Direction::Y => g.y,
    }
}

/// `g` with the guidelines along `d` replaced by `s`.
pub open spec fn with_lines(g: GuidelinesView, d: Direction, s: Seq<GuidelineView>) -> GuidelinesView {
    match d {
        Direction::X => GuidelinesView { x: s, ..g },
        Direction::Y => GuidelinesView { y: s, ..g },
    }
}

/// The index an action names exists.
pub open spec fn guideline_action_valid(g: GuidelinesView, d: Direction, a: GuidelineAction) -> bool {
    match a {
        GuidelineAction::Create { .. } => true,
        GuidelineAction::SetName { index, .. } => index < lines(g, d).len(),
        GuidelineAction::SetPosition { index, .. } => index < lines(g, d).len(),
        GuidelineAction::SetDirection { index, .. } => index < lines(g, d).len(),
        GuidelineAction::Remove { index } => index < lines(g, d).len(),
    }
}

/// The guidelines after `a` along `d`: a new guideline goes last; one moved
/// to the other axis goes last there.
pub open spec fn guidelines_after(g: GuidelinesView, d: Direction, a: GuidelineAction) -> GuidelinesView {
    let s = lines(g, d);
    match a {
        GuidelineAction::Create { name, position } => with_lines(
            g,
            d,
            s.push(GuidelineView { name: name@, position }),
        ),
        GuidelineAction::SetName { index, name } => with_lines(
            g,
            d,
            s.update(index as int, GuidelineView { name: name@, ..s[index as int] }),
        ),
        GuidelineAction::SetPosition { index, position } => with_lines(
            g,
            d,
            s.update(index as int, GuidelineView { position, ..s[index as int] }),
        ),
        GuidelineAction::Remove { index } => with_lines(g, d, s.remove(index as int)),
        GuidelineAction::SetDirection { index, direction } => {
            let removed = with_lines(g, d, s.remove(index as int));
            with_lines(removed, direction, lines(removed, direction).push(s[index as int]))
        },
    }
}

/// The other axis.
pub open spec fn other_direction(d: Direction) -> Direction {
    match d {
        Direction::X => Direction::Y,
        Direction::Y => Direction::X,
    }
}

/// What each guideline action does along its axis `d`, the guidelines before
/// being `s`: creating appends the new guideline; renaming or moving changes
/// only the one at `index`; removing takes out exactly the one at `index`,
/// the others keeping their order; and sending one to an axis takes it out
/// there and appends it to the axis it is sent to. Guidelines on an axis the
/// action does not name stay as they were.
pub proof fn lemma_guideline_actions(g: GuidelinesView, d: Direction, a: GuidelineAction)
    requires
        guideline_action_valid(g, d, a),
    ensures
        ({
            let s = lines(g, d);
            let t = lines(guidelines_after(g, d, a), d);
            let o = other_direction(d);
            match a {
                GuidelineAction::Create { name, position } => {
                    &&& t == s + seq![GuidelineView { name: name@, position }]
                    &&& lines(guidelines_after(g, d, a), o) == lines(g, o)
                },
                GuidelineAction::SetName { index, name } => {
                    &&& t.len() == s.len()
                    &&& forall|j: int| 0 <= j < s.len() && j != index ==> #[trigger] t[j] == s[j]
                    &&& t[index as int].name == name@
                    &&& t[index as int].position == s[index as int].position
                    &&& lines(guidelines_after(g, d, a), o) == lines(g, o)
                },
                GuidelineAction::SetPosition { index, position } => {
                    &&& t.len() == s.len()
                    &&& forall|j: int| 0 <= j < s.len() && j != index ==> #[trigger] t[j] == s[j]
                    &&& t[index as int].position == position
                    &&& t[index as int].name == s[index as int].name
                    &&& lines(guidelines_after(g, d, a), o) == lines(g, o)
                },
                GuidelineAction::Remove { index } => {
                    &&& t == s.take(index as int) + s.skip(index + 1)
                    &&& lines(guidelines_after(g, d, a), o) == lines(g, o)
                },
                GuidelineAction::SetDirection { index, direction } => if direction == d {
                    t == s.take(index as int) + s.skip(index + 1) + seq![s[index as int]]
                } else {
                    &&& t == s.take(index as int) + s.skip(index + 1)
                    &&& lines(guidelines_after(g, d, a), o) == lines(g, o) + seq![s[index as int]]
                },
            }
        }),
{
    let s = lines(g, d);
    match a {
        GuidelineAction::Remove { index } => {
            assert(s.remove(index as int) =~= s.take(index as int) + s.skip(index + 1));
        },
        GuidelineAction::SetDirection { index, direction } => {
            assert(s.remove(index as int) =~= s.take(index as int) + s.skip(index + 1));
            if direction != d {
                assert(direction == other_direction(d));
            }
        },
        GuidelineAction::Create { name, position } => {
            assert(s.push(GuidelineView { name: name@, position }) =~= s + seq![GuidelineView { name: name@, position }]);
        },
        _ => {},
    }
}

proof fn lemma_views_push(v: Seq<Guideline>, l: Guideline)
    ensures
        guideline_views(v.push(l)) == guideline_views(v).push(l@),
{
    assert(guideline_views(v.push(l)) =~= guideline_views(v).push(l@));
}

proof fn lemma_views_update(v: Seq<Guideline>, i: int, l: Guideline)
    requires
        0 <= i < v.len(),
    ensures
        guideline_views(v.update(i, l)) == guideline_views(v).update(i, l@),
{
    assert(guideline_views(v.update(i, l)) =~= guideline_views(v).update(i, l@));
}

proof fn lemma_views_remove(v: Seq<Guideline>, i: int)
    requires
        0 <= i < v.len(),
    ensures
        guideline_views(v.remove(i)) == guideline_views(v).remove(i),
{
    assert(guideline_views(v.remove(i)) =~= guideline_views(v).remove(i));
}

/// The guidelines of `guidelines` along `direction`.
fn lines_of(guidelines: &mut Guidelines, direction: Direction) -> (r: &mut Vec<Guideline>)
    ensures
        guideline_views(r@) == lines(old(guidelines)@, direction),
        final(guidelines)@ == with_lines(old(guidelines)@, direction, guideline_views(final(r)@)),
{
    match direction {
        Direction::X => &mut guidelines.x,
        Direction::Y => &mut guidelines.y,
    }
}

// ---------------------------------------------------------------------------
// Extra data

/// The action's key exists, and a rename gives no other entry's key.
pub open spec fn extra_action_valid(entries: Seq<(Seq<char>, Seq<char>)>, a: Extra) -> bool {
    match a {
        Extra::RenameKey { old, new } => {
            &&& has_key(entries, old@)
            &&& forall|j: int| 0 <= j < entries.len() && j != key_index(entries, old@) ==> #[trigger] entries[j].0 != new@
        },
        _ => true,
    }
}

/// The extra data after `a`: adding and setting insert, renaming keeps the
/// entry's place and value, removing shifts later entries down.
pub open spec fn extra_after(entries: Seq<(Seq<char>, Seq<char>)>, a: Extra) -> Seq<(Seq<char>, Seq<char>)> {
    match a {
        Extra::Add { key, value } => map_insert(entries, key@, value@),
        Extra::SetValue { key, value } => map_insert(entries, key@, value@),
        Extra::RenameKey { old, new } => {
            let i = key_index(entries, old@);
            entries.update(i, (new@, entries[i].1))
        },
        Extra::Remove { key } => map_remove(entries, key@),
    }
}

// ---------------------------------------------------------------------------
// Metadata and metrics

pub open spec fn metadata_after(m: MetadataView, a: SetMetadata) -> MetadataView {
    match a {
        SetMetadata::SetName(s) => MetadataView { name: s@, ..m },
        SetMetadata::SetFamily(s) => MetadataView { family: Some(s@), ..m },
        SetMetadata::SetWeight(s) => MetadataView { weight: Some(s@), ..m },
        SetMetadata::SetStyle(s) => MetadataView { style: Some(s@), ..m },
        SetMetadata::SetAuthor(s) => MetadataView { author: Some(s@), ..m },
        SetMetadata::SetCopyright(s) => MetadataView { copyright: Some(s@), ..m },
        SetMetadata::SetLicense(s) => MetadataView { license: Some(s@), ..m },
        SetMetadata::Extra(e) => MetadataView { extra: extra_after(m.extra, e), ..m },
    }
}

pub open spec fn metadata_action_valid(m: MetadataView, a: SetMetadata) -> bool {
    match a {
        SetMetadata::Extra(e) => extra_action_valid(m.extra, e),
        _ => true,
    }
}

pub open spec fn metrics_after(m: MetricsView, a: SetMetrics) -> MetricsView {
    match a {
        SetMetrics::SetAscender(v) => MetricsView { ascender: v, ..m },
        SetMetrics::SetDescender(v) => MetricsView { descender: v, ..m },
        SetMetrics::SetCapHeight(v) => MetricsView { cap_height: v, ..m },
        SetMetrics::SetXHeight(v) => MetricsView { x_height: v, ..m },
        SetMetrics::SetMonoAdvance(v) => MetricsView { mono_advance: v, ..m },
        SetMetrics::Guideline(d, g) => MetricsView { guidelines: guidelines_after(m.guidelines, d, g), ..m },
    }
}

pub open spec fn metrics_action_valid(m: MetricsView, a: SetMetrics) -> bool {
    match a {
        SetMetrics::Guideline(d, g) => guideline_action_valid(m.guidelines, d, g),
        _ => true,
    }
}

// ---------------------------------------------------------------------------
// Glyphs

pub open spec fn glyph_after(g: GlyphView, a: GlyphAction) -> GlyphView {
    match a {
        GlyphAction::SetAdvance(advance) => GlyphView { advance, ..g },
        GlyphAction::Extra(e) => GlyphView { extra: extra_after(g.extra, e), ..g },
        GlyphAction::Guideline(d, l) => GlyphView { guidelines: guidelines_after(g.guidelines, d, l), ..g },
        _ => g,
    }
}

/// The change is supported and its indexes and keys exist.
pub open spec fn glyph_action_valid(g: GlyphView, a: GlyphAction) -> bool {
    match a {
        GlyphAction::Rename(_) => false,
        GlyphAction::SetMapping(_) => false,
        GlyphAction::SetAdvance(_) => true,
        GlyphAction::Extra(e) => extra_action_valid(g.extra, e),
        GlyphAction::Guideline(d, l) => guideline_action_valid(g.guidelines, d, l),
    }
}

/// A new glyph as an addition describes it.
pub open spec fn add_view(a: AddGlyph) -> (Seq<char>, Option<(u32, Option<Seq<char>>)>) {
    (
        a.name@,
        match a.mapping {
            Some((c, alt)) => Some(
                (
                    c,
                    match alt {
                        Some(s) => Some(s@),
                        None => None,
                    },
                ),
            ),
            None => None,
        },
    )
}

/// The empty glyph named `name`.
pub open spec fn new_glyph(name: Seq<char>) -> GlyphView {
    GlyphView {
        name,
        pixels: Set::empty(),
        advance: 0,
        guidelines: GuidelinesView { x: Seq::empty(), y: Seq::empty() },
        extra: Seq::empty(),
    }
}

/// Adding the glyph `name`: it must not exist yet. It is added, and then
/// mapped: as the default glyph of a codepoint that has none, or as a new
/// alternate of a codepoint that has a default glyph. A failed mapping
/// leaves the glyph added.
pub open spec fn add_glyph_outcome(
    f: FontView,
    name: Seq<char>,
    mapping: Option<(u32, Option<Seq<char>>)>,
) -> (FontView, Option<EditError>) {
    if has_key(f.glyphs, name) {
        (f, Some(EditError::GlyphExists))
    } else {
        let f1 = FontView { glyphs: map_insert(f.glyphs, name, new_glyph(name)), ..f };
        match mapping {
            None => (f1, None),
            Some((c, alt)) => match lookup(f.mappings, c) {
                Some(m) => match alt {
                    Some(a) => if has_key(m.alternate, a) {
                        (f1, Some(EditError::AlreadyContainsGlyphMapping))
                    } else {
                        (
                            FontView {
                                mappings: map_insert(
                                    f.mappings,
                                    c,
                                    CodepointMappingView { alternate: map_insert(m.alternate, a, name), ..m },
                                ),
                                ..f1
                            },
                            None,
                        )
                    },
                    None => (f1, Some(EditError::AlreadyContainsGlyphMapping)),
                },
                None => match alt {
                    Some(_) => (f1, Some(EditError::NoBaseGlyphMapping)),
                    None => (
                        FontView {
                            mappings: map_insert(f.mappings, c, CodepointMappingView { glyph: name, alternate: Seq::empty() }),
                            ..f1
                        },
                        None,
                    ),
                },
            },
        }
    }
}

/// Adding glyphs in turn, stopping at the first that fails.
pub open spec fn add_glyphs_outcome(
    f: FontView,
    adds: Seq<(Seq<char>, Option<(u32, Option<Seq<char>>)>)>,
) -> (FontView, Option<EditError>)
    decreases adds.len(),
{
    if adds.len() == 0 {
        (f, None)
    } else {
        let (g, e) = add_glyphs_outcome(f, adds.drop_last());
        if e is Some {
            (g, e)
        } else {
            add_glyph_outcome(g, adds.last().0, adds.last().1)
        }
    }
}

// ---------------------------------------------------------------------------
// Edits

/// Applies a guideline change along `direction`.
fn update_guideline(guidelines: &mut Guidelines, direction: Direction, action: GuidelineAction)
    requires
        guideline_action_valid(old(guidelines)@, direction, action),
    ensures
        final(guidelines)@ == guidelines_after(old(guidelines)@, direction, action),
{
    let ghost g = guidelines@;
    match action {
        GuidelineAction::Create { name, position } => {
            let v = lines_of(guidelines, direction);
            let l = Guideline { name, position };
            proof {
                lemma_views_push(v@, l);
            }
            v.push(l);
        },
        GuidelineAction::SetName { index, name } => {
            let v = lines_of(guidelines, direction);
            let l = Guideline { name, position: v[index].position };
            proof {
                lemma_views_update(v@, index as int, l);
            }
            v.set(index, l);
        },
        GuidelineAction::SetPosition { index, position } => {
            let v = lines_of(guidelines, direction);
            let l = Guideline { name: v[index].name.clone(), position };
            proof {
                lemma_views_update(v@, index as int, l);
            }
            v.set(index, l);
        },
        GuidelineAction::Remove { index } => {
            let v = lines_of(guidelines, direction);
            proof {
                lemma_views_remove(v@, index as int);
            }
            v.remove(index);
        },
        GuidelineAction::SetDirection { index, direction: to } => {
            let l = {
                let v = lines_of(guidelines, direction);
                proof {
                    lemma_views_remove(v@, index as int);
                }
                v.remove(index)
            };
            let ghost removed = guidelines@;
            assert(l@ == lines(g, direction)[index as int]);
            let w = lines_of(guidelines, to);
            proof {
                lemma_views_push(w@, l);
            }
            w.push(l);
        },
    }
}

/// Applies a change to a map of extra data.
fn update_extra(map: &mut IndexMap<String, String>, action: Extra)
    requires
        extra_action_valid(string_map_entries(*old(map)), action),
    ensures
        string_map_entries(*final(map)) == extra_after(string_map_entries(*old(map)), action),
{
    match action {
        Extra::Add { key, value } => {
            let _ = string_map_insert(map, key, value);
        },
        Extra::RenameKey { old, new } => {
            let ghost entries = string_map_entries(*map);
            proof {
                lemma_key_index(entries, old@);
            }
            let index = string_map_get_index_of(map, old.as_str()).unwrap();
            proof {
                lemma_key_index_unique(entries, old@, index as int);
            }
            let r = string_map_replace_index(map, index, new);
            assert(r is Ok);
        },
        Extra::SetValue { key, value } => {
            let _ = string_map_insert(map, key, value);
        },
        Extra::Remove { key } => {
            let _ = string_map_shift_remove(map, key.as_str());
        },
    }
}

/// Adds the glyph an addition describes; see `add_glyph_outcome`.
fn add_glyph(font: &mut Font, add: AddGlyph) -> (r: Result<(), ProjectError>)
    ensures
        ({
            let (f, e) = add_glyph_outcome(old(font)@, add_view(add).0, add_view(add).1);
            &&& final(font)@ == f
            &&& match e {
                None => r is Ok,
                Some(k) => r matches Err(err) && is_error(err, k),
            }
        }),
{
    let ghost f0 = font@;
    let AddGlyph { name, mapping } = add;
    if glyph_map_get_index_of(&font.glyphs, name.as_str()).is_some() {
        return Err(ProjectError::GlyphExists);
    }
    let glyph = Glyph {
        name: name.clone(),
        pixels: Pixels::new(),
        advance: 0,
        guidelines: Guidelines::default(),
        extra: string_map_new(),
    };
    let _ = glyph_map_insert(&mut font.glyphs, name.clone(), glyph);
    match mapping {
        None => Ok(()),
        Some((codepoint, alternate)) => match mapping_map_get_index_of(&font.mappings, codepoint) {
            Some(i) => {
                proof {
                    lemma_key_index_unique(f0.mappings, codepoint, i as int);
                }
                match alternate {
                    Some(alt) => {
                        let filler = CodepointMapping { glyph: String::new(), alternate: string_map_new() };
                        let mut m = mapping_map_replace_value(&mut font.mappings, i, filler);
                        let r = if string_map_get_index_of(&m.alternate, alt.as_str()).is_some() {
                            Err(ProjectError::AlreadyContainsGlyphMapping)
                        } else {
                            let _ = string_map_insert(&mut m.alternate, alt, name.clone());
                            Ok(())
                        };
                        let _ = mapping_map_replace_value(&mut font.mappings, i, m);
                        assert(font@.mappings =~= if r is Ok {
                            map_insert(
                                f0.mappings,
                                codepoint,
                                CodepointMappingView {
                                    alternate: map_insert(f0.mappings[i as int].1.alternate, alt@, name@),
                                    ..f0.mappings[i as int].1
                                },
                            )
                        } else {
                            f0.mappings
                        });
                        r
                    },
                    None => Err(ProjectError::AlreadyContainsGlyphMapping),
                }
            },
            None => match alternate {
                Some(_) => Err(ProjectError::NoBaseGlyphMapping),
                None => {
                    let _ = mapping_map_insert(&mut font.mappings, codepoint, CodepointMapping::new(name.as_str()));
                    Ok(())
                },
            },
        },
    }
}

// ---------------------------------------------------------------------------
// The project

/// The font being edited, the file it is saved in, if any, and whether it
/// has changed since it was last saved or opened.
#[derive(Debug)]
pub struct Project {
    pub path: Option<String>,
    pub font: Font,
    dirty: bool,
}

pub struct ProjectView {
    pub path: Option<Seq<char>>,
    pub font: FontView,
    pub dirty: bool,
}

impl View for Project {
    type V = ProjectView;

    closed spec fn view(&self) -> ProjectView {
        ProjectView { path: crate::font::opt_string_view(self.path), font: self.font@, dirty: self.dirty }
    }
}

/// A new project: an empty font, not saved anywhere.
pub open spec fn new_project() -> ProjectView {
    ProjectView { path: None, font: empty_font(), dirty: true }
}

impl Default for Project {
    fn default() -> (p: Self)
        ensures
            p@ == new_project(),
    {
        Project { path: None, font: Font::default(), dirty: true }
    }
}

/// The action can be carried out: its indexes and keys exist, and it asks
/// for nothing that is not supported yet.
pub open spec fn action_valid(f: FontView, a: Action) -> bool {
    match a {
        Action::Metadata(m) => metadata_action_valid(f.metadata, m),
        Action::Metrics(m) => metrics_action_valid(f.metrics, m),
        Action::Glyph { name, action } => has_key(f.glyphs, name@) ==> glyph_action_valid(
            lookup(f.glyphs, name@).unwrap(),
            action,
        ),
        Action::AddGlyphSet(set) => !(set is Punctuation) && !(set is BoxDrawing),
        _ => true,
    }
}

/// The font after an edit, and how the edit failed, if it did.
pub open spec fn edit_outcome(f: FontView, a: Action) -> (FontView, Option<EditError>) {
    match a {
        Action::Metadata(m) => (FontView { metadata: metadata_after(f.metadata, m), ..f }, None),
        Action::Metrics(m) => (FontView { metrics: metrics_after(f.metrics, m), ..f }, None),
        Action::Glyph { name, action } => if has_key(f.glyphs, name@) {
            let i = key_index(f.glyphs, name@);
            (FontView { glyphs: f.glyphs.update(i, (name@, glyph_after(f.glyphs[i].1, action))), ..f }, None)
        } else {
            (f, Some(EditError::GlyphMissing))
        },
        Action::AddGlyph(add) => add_glyph_outcome(f, add_view(add).0, add_view(add).1),
        Action::AddGlyphs(adds) => add_glyphs_outcome(f, adds@.map_values(|a: AddGlyph| add_view(a))),
        Action::AddGlyphSet(set) => (
            FontView {
                glyphs: map_insert_all(f.glyphs, named_glyphs(codepoint_entries(set_codepoints(set)))),
                mappings: map_insert_all(f.mappings, named_mappings(codepoint_entries(set_codepoints(set)))),
                ..f
            },
            None,
        ),
        _ => (f, None),
    }
}

/// `r` is what `update` returns for `a` on a project that was `p`.
pub open spec fn update_result(p: ProjectView, a: Action, r: Result<Effect, ProjectError>) -> bool {
    match a {
        Action::New => r matches Ok(Effect::Respond(Response::Reset)),
        Action::Import(path) => r matches Ok(Effect::Import(q)) && q@ == path@,
        Action::ExportPath => match p.path {
            None => r matches Err(ProjectError::NoPath),
            Some(path) => r matches Ok(Effect::Export(q, e)) && q@ == path && e == Exporter::Project,
        },
        Action::Export(path, exporter) => r matches Ok(Effect::Export(q, e)) && q@ == path@ && e == exporter,
        _ => match edit_outcome(p.font, a).1 {
            None => r matches Ok(Effect::Done),
            Some(k) => r matches Err(e) && is_error(e, k),
        },
    }
}

/// The project after `update` runs `a` on `p`: a new project for `New`;
/// otherwise marked changed, with the font edited as far as the edit went.
pub open spec fn update_state(p: ProjectView, a: Action) -> ProjectView {
    match a {
        Action::New => new_project(),
        _ => ProjectView { font: edit_outcome(p.font, a).0, dirty: true, ..p },
    }
}

/// Whether the guideline action's index exists.
fn guideline_action_ok(g: &Guidelines, d: Direction, a: &GuidelineAction) -> (r: bool)
    ensures
        r == guideline_action_valid(g@, d, *a),
{
    let n = match d {
        Direction::X => g.x.len(),
        Direction::Y => g.y.len(),
    };
    match a {
        GuidelineAction::Create { .. } => true,
        GuidelineAction::SetName { index, .. } => *index < n,
        GuidelineAction::SetPosition { index, .. } => *index < n,
        GuidelineAction::SetDirection { index, .. } => *index < n,
        GuidelineAction::Remove { index } => *index < n,
    }
}

/// Whether the extra-data action's key exists and a rename clashes with no
/// other entry.
fn extra_action_ok(m: &IndexMap<String, String>, a: &Extra) -> (r: bool)
    ensures
        r == extra_action_valid(string_map_entries(*m), *a),
{
    match a {
        Extra::RenameKey { old: from, new: to } => {
            let ghost entries = string_map_entries(*m);
            let i = match string_map_get_index_of(m, from.as_str()) {
                Some(i) => i,
                None => return false,
            };
            proof {
                lemma_key_index_unique(entries, from@, i as int);
            }
            let n = string_map_len(m);
            let mut j: usize = 0;
            while j < n
                invariant
                    entries == string_map_entries(*m),
                    *a == (Extra::RenameKey { old: *from, new: *to }),
                    n == entries.len(),
                    i == key_index(entries, from@),
                    j <= n,
                    forall|k: int| 0 <= k < j && k != i ==> #[trigger] entries[k].0 != to@,
                decreases n - j,
            {
                let (key, _) = string_map_get_index(m, j);
                if j != i && same_text(key.as_str(), to.as_str()) {
                    assert(entries[j as int].0 == to@);
                    return false;
                }
                j += 1;
            }
            true
        },
        _ => true,
    }
}

impl Project {
    /// Where the project is saved, if anywhere.
    pub fn path(&self) -> (r: Option<&String>)
        ensures
            match r {
                Some(p) => self@.path == Some(p@),
                None => self@.path is None,
            },
    {
        match &self.path {
            Some(p) => Some(p),
            None => None,
        }
    }

    /// The font being edited.
    pub fn font(&self) -> (f: &Font)
        ensures
            f@ == self@.font,
    {
        &self.font
    }

    /// Whether the project has changes that are not saved: it has changed
    /// since it was opened or saved, or it was never saved.
    pub fn is_dirty(&self) -> (r: bool)
        ensures
            r == (self@.dirty || self@.path is None),
    {
        self.dirty || self.path.is_none()
    }

    /// Whether `update` can carry out `action`: the indexes and keys it names
    /// exist, and it asks for nothing that is not supported yet.
    pub fn accepts(&self, action: &Action) -> (r: bool)
        ensures
            r == action_valid(self@.font, *action),
    {
        match action {
            Action::Metadata(SetMetadata::Extra(e)) => extra_action_ok(&self.font.metadata.extra, e),
            Action::Metadata(_) => true,
            Action::Metrics(SetMetrics::Guideline(d, g)) => guideline_action_ok(&self.font.metrics.guidelines, *d, g),
            Action::Metrics(_) => true,
            Action::Glyph { name, action } => {
                let glyph = match glyph_map_get(&self.font.glyphs, name.as_str()) {
                    Some(g) => g,
                    None => return true,
                };
                match action {
                    GlyphAction::Rename(_) => false,
                    GlyphAction::SetMapping(_) => false,
                    GlyphAction::SetAdvance(_) => true,
                    GlyphAction::Extra(e) => extra_action_ok(&glyph.extra, e),
                    GlyphAction::Guideline(d, l) => guideline_action_ok(&glyph.guidelines, *d, l),
                }
            },
            Action::AddGlyphSet(set) => !matches!(set, GlyphSet::Punctuation | GlyphSet::BoxDrawing),
            _ => true,
        }
    }

    /// Carries out `action`. Opening and saving files is left to the caller,
    /// which the returned effect asks to do it.
    pub fn update(&mut self, action: Action) -> (r: Result<Effect, ProjectError>)
        requires
            action_valid(old(self)@.font, action),
        ensures
            final(self)@ == update_state(old(self)@, action),
            update_result(old(self)@, action, r),
    {
        let ghost p = self@;
        let ghost a = action;
        self.dirty = true;
        match action {
            Action::New => {
                *self = Project::default();
                Ok(Effect::Respond(Response::Reset))
            },
            Action::Import(path) => Ok(Effect::Import(path)),
            Action::ExportPath => match &self.path {
                Some(path) => Ok(Effect::Export(path.clone(), Exporter::Project)),
                None => Err(ProjectError::NoPath),
            },
            Action::Export(path, exporter) => Ok(Effect::Export(path, exporter)),
            Action::Metadata(metadata) => {
                let m = &mut self.font.metadata;
                match metadata {
                    SetMetadata::SetName(name) => m.name = name,
                    SetMetadata::SetFamily(family) => m.family = Some(family),
                    SetMetadata::SetWeight(weight) => m.weight = Some(weight),
                    SetMetadata::SetStyle(style) => m.style = Some(style),
                    SetMetadata::SetAuthor(author) => m.author = Some(author),
                    SetMetadata::SetCopyright(copyright) => m.copyright = Some(copyright),
                    SetMetadata::SetLicense(license) => m.license = Some(license),
                    SetMetadata::Extra(extra) => update_extra(&mut m.extra, extra),
                }
                assert(self@ == update_state(p, a));
                Ok(Effect::Done)
            },
            Action::Metrics(metrics) => {
                let m = &mut self.font.metrics;
                match metrics {
                    SetMetrics::SetAscender(v) => m.ascender = v,
                    SetMetrics::SetDescender(v) => m.descender = v,
                    SetMetrics::SetCapHeight(v) => m.cap_height = v,
                    SetMetrics::SetXHeight(v) => m.x_height = v,
                    SetMetrics::SetMonoAdvance(v) => m.mono_advance = v,
                    SetMetrics::Guideline(direction, action) => update_guideline(&mut m.guidelines, direction, action),
                }
                assert(self@ == update_state(p, a));
                Ok(Effect::Done)
            },
            Action::Glyph { name, action } => {
                let index = match glyph_map_get_index_of(&self.font.glyphs, name.as_str()) {
                    Some(i) => i,
                    None => return Err(ProjectError::GlyphMissing),
                };
                proof {
                    lemma_key_index_unique(p.font.glyphs, name@, index as int);
                }
                let ghost ga = action;
                let mut glyph = glyph_map_replace_value(&mut self.font.glyphs, index, Glyph::default());
                assert(glyph@ == p.font.glyphs[index as int].1);
                match action {
                    GlyphAction::SetAdvance(advance) => glyph.advance = advance,
                    GlyphAction::Extra(extra) => update_extra(&mut glyph.extra, extra),
                    GlyphAction::Guideline(direction, action) => update_guideline(&mut glyph.guidelines, direction, action),
                    _ => {},
                }
                assert(glyph@ == glyph_after(p.font.glyphs[index as int].1, ga));
                let _ = glyph_map_replace_value(&mut self.font.glyphs, index, glyph);
                assert(self@.font.glyphs == p.font.glyphs.update(index as int, (name@, glyph_after(p.font.glyphs[index as int].1, ga))));
                assert(self@ == update_state(p, a));
                Ok(Effect::Done)
            },
            Action::AddGlyph(add) => match add_glyph(&mut self.font, add) {
                Ok(()) => Ok(Effect::Done),
                Err(e) => Err(e),
            },
            Action::AddGlyphs(adds) => {
                let ghost views = adds@.map_values(|a: AddGlyph| add_view(a));
                let mut adds = adds;
                let n = adds.len();
                let mut i: usize = 0;
                assert(views.take(0) =~= Seq::<(Seq<char>, Option<(u32, Option<Seq<char>>)>)>::empty());
                assert(edit_outcome(p.font, a) == add_glyphs_outcome(p.font, views));
                while i < n
                    invariant
                        p == old(self)@,
                        a == action,
                        a is AddGlyphs,
                        edit_outcome(p.font, a) == add_glyphs_outcome(p.font, views),
                        n == views.len(),
                        adds@.len() == n,
                        i <= n,
                        forall|k: int| i <= k < n ==> add_view(#[trigger] adds@[k]) == views[k],
                        add_glyphs_outcome(p.font, views.take(i as int)) == (self.font@, None::<EditError>),
                        self.path == old(self).path,
                        self.dirty,
                    decreases n - i,
                {
                    let add = crate::maps::take_entry(&mut adds, i, AddGlyph { name: String::new(), mapping: None });
                    assert(views.take(i + 1).drop_last() =~= views.take(i as int));
                    assert(views.take(i + 1).last() == views[i as int]);
                    assert(add_view(add) == views[i as int]);
                    match add_glyph(&mut self.font, add) {
                        Ok(()) => {},
                        Err(e) => {
                            proof {
                                lemma_add_glyphs_stop(p.font, views, i + 1);
                                assert(add_glyphs_outcome(p.font, views.take(i + 1)).0 == self.font@);
                                assert(edit_outcome(p.font, a).0 == self.font@);
                                assert(self@.path == p.path);
                                assert(self@.dirty);
                            }
                            return Err(e);
                        },
                    }
                    i += 1;
                }
                assert(views.take(n as int) =~= views);
                assert(self@ == update_state(p, a));
                Ok(Effect::Done)
            },
            Action::AddGlyphSet(set) => {
                let codepoints = set.codepoints();
                let ghost cs = crate::maps::codepoint_set_elements(codepoints);
                let count = crate::maps::codepoint_set_len(&codepoints);
                let mut list: Vec<u32> = Vec::new();
                let mut i: usize = 0;
                while i < count
                    invariant
                        cs == crate::maps::codepoint_set_elements(codepoints),
                        count == cs.len(),
                        i <= count,
                        list@ == cs.take(i as int),
                    decreases count - i,
                {
                    list.push(crate::maps::codepoint_set_get_index(&codepoints, i));
                    assert(list@ =~= cs.take(i + 1));
                    i += 1;
                }
                assert(cs.take(count as int) =~= cs);
                let _ = self.font.add_codepoints(list);
                assert(self@ == update_state(p, a));
                Ok(Effect::Done)
            },
        }
    }

    /// Takes the font imported from `path` as the project, saved there.
    pub fn imported(&mut self, path: String, font: Font) -> (r: Response)
        ensures
            final(self)@ == (ProjectView { path: Some(path@), font: font@, dirty: false }),
            r == Response::Reset,
    {
        *self = Project { path: Some(path), font, dirty: false };
        Response::Reset
    }

    /// Records that the font was written to `path` with `exporter`: written
    /// as a project file, the project is now saved there.
    pub fn exported(&mut self, path: String, exporter: Exporter)
        ensures
            final(self)@ == if exporter == Exporter::Project {
                ProjectView { path: Some(path@), dirty: false, ..old(self)@ }
            } else {
                old(self)@
            },
    {
        if exporter == Exporter::Project {
            self.path = Some(path);
            self.dirty = false;
        }
    }
}

/// Once adding a prefix of the glyphs fails, adding all of them fails the
/// same way.
proof fn lemma_add_glyphs_stop(f: FontView, adds: Seq<(Seq<char>, Option<(u32, Option<Seq<char>>)>)>, k: int)
    requires
        0 < k <= adds.len(),
        add_glyphs_outcome(f, adds.take(k)).1 is Some,
    ensures
        add_glyphs_outcome(f, adds) == add_glyphs_outcome(f, adds.take(k)),
    decreases adds.len() - k,
{
    if k == adds.len() {
        assert(adds.take(k) =~= adds);
    } else {
        assert(adds.take(k + 1).drop_last() =~= adds.take(k));
        lemma_add_glyphs_stop(f, adds, k + 1);
    }
}

} // verus!
