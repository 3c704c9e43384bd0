//! Guideline and metric edits made from the glyph editor. A guideline is
//! global (font-wide, in the font's metrics) or local (in the selected
//! glyph).
use vstd::prelude::*;

use crate::font::{guideline_views, Font, FontView, Glyph, GlyphView, Guideline, GuidelineView, Guidelines, GuidelinesView, MetricsView};
use crate::maps::{glyph_map_get_index_of, glyph_map_replace_value, key_index, lemma_key_index, lemma_key_index_unique};
use crate::studio::editor::Editor;

verus! {

/// A glyph or font property set from the glyph editor.
#[derive(Debug, Clone, Copy, PartialEq, Eq, Structural)]
pub enum GlyphProp {
    Advance(u32),
    Ascender(i32),
    Descender(i32),
    CapHeight(i32),
    XHeight(i32),
}

/// Whether a guideline is the font's or the selected glyph's.
#[derive(Debug, Clone, Copy, PartialEq, Eq, Structural)]
pub enum GuidelineScope {
    Global,
    Local,
}

/// Vertical (`X`) or horizontal (`Y`) guidelines.
#[derive(Debug, Clone, Copy, PartialEq, Eq, Structural)]
pub enum GuidelineDirection {
    X,
    Y,
}

/// A guideline edit made from the glyph editor.
#[derive(Debug)]
pub enum GuidelineAction {
    /// Create a new empty guideline.
    Create,
    /// Rename a guideline.
    Rename { scope: GuidelineScope, direction: GuidelineDirection, index: usize, name: String },
    /// Move a guideline.
    SetPosition { scope: GuidelineScope, direction: GuidelineDirection, index: usize, position: i32 },
    /// Remove a guideline.
    Remove { scope: GuidelineScope, direction: GuidelineDirection, index: usize },
    /// Move a local (glyph-specific) guideline to the global scope (font-wide).
    MakeGlobal { direction: GuidelineDirection, index: usize },
    /// Move a global (font-wide) guideline to the local scope.
    MakeLocal { direction: GuidelineDirection, index: usize },
    /// Make a vertical guideline horizontal.
    MakeX { scope: GuidelineScope, index: usize },
    /// Make a horizontal guideline vertical.
    MakeY { scope: GuidelineScope, index: usize },
}

/// The guidelines of `g` in `direction`.
pub open spec fn axis(g: GuidelinesView, d: GuidelineDirection) -> Seq<GuidelineView> {
    match d {
        GuidelineDirection::X => g.x,
        GuidelineDirection::Y => g.y,
    }
}

/// `g` with its guidelines in `direction` replaced by `s`.
pub open spec fn with_axis(g: GuidelinesView, d: GuidelineDirection, s: Seq<GuidelineView>) -> GuidelinesView {
    match d {
        GuidelineDirection::X => GuidelinesView { x: s, ..g },
        GuidelineDirection::Y => GuidelinesView { y: s, ..g },
    }
}

/// The guidelines in `direction` of `guidelines`.
pub fn direction_of(guidelines: &mut Guidelines, direction: GuidelineDirection) -> (r: &mut Vec<Guideline>)
    ensures
        guideline_views(r@) == axis(old(guidelines)@, direction),
        final(guidelines)@ == with_axis(old(guidelines)@, direction, guideline_views(final(r)@)),
{
    match direction {
        GuidelineDirection::X => &mut guidelines.x,
        GuidelineDirection::Y => &mut guidelines.y,
    }
}

/// The guidelines of a scope: the font's (`global`) or the glyph's (`local`).
pub open spec fn scoped(global: GuidelinesView, local: GuidelinesView, s: GuidelineScope) -> GuidelinesView {
    match s {
        GuidelineScope::Global => global,
        GuidelineScope::Local => local,
    }
}

/// The pair of global and local guidelines with the scope `s` replaced by `g`.
pub open spec fn with_scope(
    global: GuidelinesView,
    local: GuidelinesView,
    s: GuidelineScope,
    g: GuidelinesView,
) -> (GuidelinesView, GuidelinesView) {
    match s {
        GuidelineScope::Global => (g, local),
        GuidelineScope::Local => (global, g),
    }
}

/// The index an action names exists.
pub open spec fn guideline_edit_valid(global: GuidelinesView, local: GuidelinesView, a: GuidelineAction) -> bool {
    match a {
        GuidelineAction::Create => true,
        GuidelineAction::Rename { scope, direction, index, .. } => index < axis(scoped(global, local, scope), direction).len(),
        GuidelineAction::SetPosition { scope, direction, index, .. } => index < axis(scoped(global, local, scope), direction).len(),
        GuidelineAction::Remove { scope, direction, index } => index < axis(scoped(global, local, scope), direction).len(),
        GuidelineAction::MakeGlobal { direction, index } => index < axis(local, direction).len(),
        GuidelineAction::MakeLocal { direction, index } => index < axis(global, direction).len(),
        GuidelineAction::MakeX { scope, index } => index < scoped(global, local, scope).y.len(),
        GuidelineAction::MakeY { scope, index } => index < scoped(global, local, scope).x.len(),
    }
}

/// The global and local guidelines after `a`. A new guideline is a
/// vertical one named `""` at 16; a moved guideline goes last.
pub open spec fn guideline_edit(global: GuidelinesView, local: GuidelinesView, a: GuidelineAction) -> (
    GuidelinesView,
    GuidelinesView,
) {
    match a {
        GuidelineAction::Create => (
            global,
            GuidelinesView { x: local.x.push(GuidelineView { name: Seq::empty(), position: 16 }), ..local },
        ),
        GuidelineAction::Rename { scope, direction, index, name } => {
            let g = scoped(global, local, scope);
            let s = axis(g, direction);
            with_scope(
                global,
                local,
                scope,
                with_axis(g, direction, s.update(index as int, GuidelineView { name: name@, ..s[index as int] })),
            )
        },
        GuidelineAction::SetPosition { scope, direction, index, position } => {
            let g = scoped(global, local, scope);
            let s = axis(g, direction);
            with_scope(
                global,
                local,
                scope,
                with_axis(g, direction, s.update(index as int, GuidelineView { position, ..s[index as int] })),
            )
        },
        GuidelineAction::Remove { scope, direction, index } => {
            let g = scoped(global, local, scope);
            with_scope(global, local, scope, with_axis(g, direction, axis(g, direction).remove(index as int)))
        },
        GuidelineAction::MakeGlobal { direction, index } => {
            let moved = axis(local, direction)[index as int];
            (
                with_axis(global, direction, axis(global, direction).push(moved)),
                with_axis(local, direction, axis(local, direction).remove(index as int)),
            )
        },
        GuidelineAction::MakeLocal { direction, index } => {
            let moved = axis(global, direction)[index as int];
            (
                with_axis(global, direction, axis(global, direction).remove(index as int)),
                with_axis(local, direction, axis(local, direction).push(moved)),
            )
        },
        GuidelineAction::MakeX { scope, index } => {
            let g = scoped(global, local, scope);
            with_scope(global, local, scope, GuidelinesView { x: g.x.push(g.y[index as int]), y: g.y.remove(index as int) })
        },
        GuidelineAction::MakeY { scope, index } => {
            let g = scoped(global, local, scope);
            with_scope(global, local, scope, GuidelinesView { y: g.y.push(g.x[index as int]), x: g.x.remove(index as int) })
        },
    }
}

proof fn lemma_views_push(v: Seq<Guideline>, l: Guideline)
    ensures
        guideline_views(v.push(l)) == guideline_views(v).push(l@),
{
    assert(guideline_views(v.push(l)) =~= guideline_views(v).push(l@));
}

proof fn lemma_views_update(v: Seq<Guideline>, i: int, l: Guideline)
    requires
        0 <= i < v.len(),
    ensures
        guideline_views(v.update(i, l)) == guideline_views(v).update(i, l@),
{
    assert(guideline_views(v.update(i, l)) =~= guideline_views(v).update(i, l@));
}

proof fn lemma_views_remove(v: Seq<Guideline>, i: int)
    requires
        0 <= i < v.len(),
    ensures
        guideline_views(v.remove(i)) == guideline_views(v).remove(i),
{
    assert(guideline_views(v.remove(i)) =~= guideline_views(v).remove(i));
}

/// Renames, moves or removes the guideline `index` of `v`.
fn edit_line(v: &mut Vec<Guideline>, index: usize, name: Option<String>, position: Option<i32>, remove: bool)
    requires
        index < old(v)@.len(),
    ensures
        guideline_views(final(v)@) == if remove {
            guideline_views(old(v)@).remove(index as int)
        } else {
            let old_line = guideline_views(old(v)@)[index as int];
            guideline_views(old(v)@).update(
                index as int,
                GuidelineView {
                    name: match name {
                        Some(n) => n@,
                        None => old_line.name,
                    },
                    position: match position {
                        Some(p) => p,
                        None => old_line.position,
                    },
                },
            )
        },
{
    if remove {
        proof {
            lemma_views_remove(v@, index as int);
        }
        v.remove(index);
    } else {
        let new_name = match name {
            Some(n) => n,
            None => v[index].name.clone(),
        };
        let new_position = match position {
            Some(p) => p,
            None => v[index].position,
        };
        let l = Guideline { name: new_name, position: new_position };
        proof {
            lemma_views_update(v@, index as int, l);
        }
        v.set(index, l);
    }
}

/// Applies a guideline edit to the font's guidelines (`global`) and the
/// glyph's (`local`).
fn edit_guidelines(global: &mut Guidelines, local: &mut Guidelines, action: GuidelineAction)
    requires
        guideline_edit_valid(old(global)@, old(local)@, action),
    ensures
        (final(global)@, final(local)@) == guideline_edit(old(global)@, old(local)@, action),
{
    match action {
        GuidelineAction::Create => {
            let l = Guideline { name: String::new(), position: 16 };
            proof {
                lemma_views_push(local.x@, l);
            }
            local.x.push(l);
        },
        GuidelineAction::Rename { scope, direction, index, name } => {
            let g = match scope {
                GuidelineScope::Global => global,
                GuidelineScope::Local => local,
            };
            edit_line(direction_of(g, direction), index, Some(name), None, false);
        },
        GuidelineAction::SetPosition { scope, direction, index, position } => {
            let g = match scope {
                GuidelineScope::Global => global,
                GuidelineScope::Local => local,
            };
            edit_line(direction_of(g, direction), index, None, Some(position), false);
        },
        GuidelineAction::Remove { scope, direction, index } => {
            let g = match scope {
                GuidelineScope::Global => global,
                GuidelineScope::Local => local,
            };
            edit_line(direction_of(g, direction), index, None, None, true);
        },
        GuidelineAction::MakeGlobal { direction, index } => {
            let from = direction_of(local, direction);
            proof {
                lemma_views_remove(from@, index as int);
            }
            let l = from.remove(index);
            let to = direction_of(global, direction);
            proof {
                lemma_views_push(to@, l);
            }
            to.push(l);
        },
        GuidelineAction::MakeLocal { direction, index } => {
            let from = direction_of(global, direction);
            proof {
                lemma_views_remove(from@, index as int);
            }
            let l = from.remove(index);
            let to = direction_of(local, direction);
            proof {
                lemma_views_push(to@, l);
            }
            to.push(l);
        },
        GuidelineAction::MakeX { scope, index } => {
            let g = match scope {
                GuidelineScope::Global => global,
                GuidelineScope::Local => local,
            };
            proof {
                lemma_views_remove(g.y@, index as int);
            }
            let l = g.y.remove(index);
            proof {
                lemma_views_push(g.x@, l);
            }
            g.x.push(l);
        },
        GuidelineAction::MakeY { scope, index } => {
            let g = match scope {
                GuidelineScope::Global => global,
                GuidelineScope::Local => local,
            };
            proof {
                lemma_views_remove(g.x@, index as int);
            }
            let l = g.x.remove(index);
            proof {
                lemma_views_push(g.y@, l);
            }
            g.y.push(l);
        },
    }
}

/// The font after setting `prop` for the glyph at position `i`: the advance
/// is the glyph's, the other properties are the font's metrics.
pub open spec fn prop_set(f: FontView, i: int, prop: GlyphProp) -> FontView {
    match prop {
        GlyphProp::Advance(v) => FontView { glyphs: f.glyphs.update(i, (f.glyphs[i].0, GlyphView { advance: v, ..f.glyphs[i].1 })), ..f },
        GlyphProp::Ascender(v) => FontView { metrics: MetricsView { ascender: v, ..f.metrics }, ..f },
        GlyphProp::Descender(v) => FontView { metrics: MetricsView { descender: v, ..f.metrics }, ..f },
        GlyphProp::CapHeight(v) => FontView { metrics: MetricsView { cap_height: v, ..f.metrics }, ..f },
        GlyphProp::XHeight(v) => FontView { metrics: MetricsView { x_height: v, ..f.metrics }, ..f },
    }
}

/// The font after a guideline edit with the glyph at position `i`.
pub open spec fn guidelines_set(f: FontView, i: int, a: GuidelineAction) -> FontView {
    let (global, local) = guideline_edit(f.metrics.guidelines, f.glyphs[i].1.guidelines, a);
    FontView {
        metrics: MetricsView { guidelines: global, ..f.metrics },
        glyphs: f.glyphs.update(i, (f.glyphs[i].0, GlyphView { guidelines: local, ..f.glyphs[i].1 })),
        ..f
    }
}

impl Editor {
    /// The position in `font` of the selected glyph.
    fn selected_index(&self, font: &Font) -> (i: usize)
        requires
            self.selects_glyph_of(*font),
        ensures
            i == key_index(font@.glyphs, self.glyph_name_view().unwrap()),
            i < font@.glyphs.len(),
    {
        let name = self.glyph_name().unwrap();
        proof {
            lemma_key_index(font@.glyphs, name@);
        }
        let i = glyph_map_get_index_of(&font.glyphs, name.as_str()).unwrap();
        proof {
            lemma_key_index_unique(font@.glyphs, name@, i as int);
        }
        i
    }

    /// Sets a property of the selected glyph or of the font's metrics.
    pub fn set_glyph_prop(&self, font: &mut Font, prop: GlyphProp)
        requires
            self.selects_glyph_of(*old(font)),
        ensures
            final(font)@ == prop_set(old(font)@, key_index(old(font)@.glyphs, self.glyph_name_view().unwrap()), prop),
    {
        let i = self.selected_index(font);
        match prop {
            GlyphProp::Advance(v) => {
                let mut glyph = glyph_map_replace_value(&mut font.glyphs, i, Glyph::default());
                glyph.advance = v;
                let _ = glyph_map_replace_value(&mut font.glyphs, i, glyph);
                assert(font@.glyphs =~= prop_set(old(font)@, i as int, prop).glyphs);
            },
            GlyphProp::Ascender(v) => font.metrics.ascender = v,
            GlyphProp::Descender(v) => font.metrics.descender = v,
            GlyphProp::CapHeight(v) => font.metrics.cap_height = v,
            GlyphProp::XHeight(v) => font.metrics.x_height = v,
        }
    }

    /// Edits the font's guidelines or those of the selected glyph.
    pub fn set_guideline(&self, font: &mut Font, action: GuidelineAction)
        requires
            self.selects_glyph_of(*old(font)),
            guideline_edit_valid(
                old(font)@.metrics.guidelines,
                old(font)@.glyphs[key_index(old(font)@.glyphs, self.glyph_name_view().unwrap())].1.guidelines,
                action,
            ),
        ensures
            final(font)@ == guidelines_set(
                old(font)@,
                key_index(old(font)@.glyphs, self.glyph_name_view().unwrap()),
                action,
            ),
    {
        let ghost a = action;
        let i = self.selected_index(font);
        let mut glyph = glyph_map_replace_value(&mut font.glyphs, i, Glyph::default());
        edit_guidelines(&mut font.metrics.guidelines, &mut glyph.guidelines, action);
        let _ = glyph_map_replace_value(&mut font.glyphs, i, glyph);
        assert(font@.glyphs =~= guidelines_set(old(font)@, i as int, a).glyphs);
    }
}

} // verus!
