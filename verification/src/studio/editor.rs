//! The glyph editor's state: the selected glyph, the tool, and the undo and
//! redo history of pixel changes.
use vstd::prelude::*;

use crate::font::{Font, Glyph, GlyphView};
use crate::geometry::Point;
use crate::maps::{glyph_map_entries, glyph_map_get_index_of, glyph_map_replace_value, has_key, is_key_index, key_index, lemma_key_index};
use crate::studio::tools::{Delta, Tool};

verus! {

/// `pixels` after turning on `add` and then turning off `remove`.
pub open spec fn applied(pixels: Set<Point>, add: Set<Point>, remove: Set<Point>) -> Set<Point> {
    pixels.union(add).difference(remove)
}

/// `g` with its pixels changed by `add` and `remove`.
pub open spec fn glyph_applied(g: GlyphView, add: Set<Point>, remove: Set<Point>) -> GlyphView {
    GlyphView { pixels: applied(g.pixels, add, remove), ..g }
}

/// A delta as the pair of sets it turns on and off.
pub open spec fn delta_view(d: Delta) -> (Set<Point>, Set<Point>) {
    (d.add@, d.remove@)
}

/// Turns on the pixels of `add`, then turns off those of `remove`.
pub fn apply_change(glyph: &mut Glyph, add: &crate::pixels::Pixels, remove: &crate::pixels::Pixels)
    ensures
        final(glyph)@ == glyph_applied(old(glyph)@, add@, remove@),
{
    let on = add.pixels();
    let off = remove.pixels();
    let mut i: usize = 0;
    assert(old(glyph)@.pixels.union(on@.take(0).to_set()) =~= old(glyph)@.pixels);
    while i < on.len()
        invariant
            i <= on@.len(),
            glyph@ == (GlyphView { pixels: old(glyph)@.pixels.union(on@.take(i as int).to_set()), ..old(glyph)@ }),
        decreases on.len() - i,
    {
        glyph.pixels.set(on[i], true);
        proof {
            assert(on@.take(i + 1) =~= on@.take(i as int).push(on@[i as int]));
            on@.take(i as int).lemma_push_to_set_commute(on@[i as int]);
            assert(glyph@.pixels =~= old(glyph)@.pixels.union(on@.take(i + 1).to_set()));
        }
        i += 1;
    }
    assert(on@.take(on@.len() as int) =~= on@);
    assert(glyph@.pixels.difference(off@.take(0).to_set()) =~= glyph@.pixels);
    let mut j: usize = 0;
    while j < off.len()
        invariant
            j <= off@.len(),
            on@.to_set() == add@,
            glyph@ == (GlyphView {
                pixels: old(glyph)@.pixels.union(add@).difference(off@.take(j as int).to_set()),
                ..old(glyph)@
            }),
        decreases off.len() - j,
    {
        glyph.pixels.set(off[j], false);
        proof {
            assert(off@.take(j + 1) =~= off@.take(j as int).push(off@[j as int]));
            off@.take(j as int).lemma_push_to_set_commute(off@[j as int]);
            assert(glyph@.pixels =~= old(glyph)@.pixels.union(add@).difference(off@.take(j + 1).to_set()));
        }
        j += 1;
    }
    assert(off@.take(off@.len() as int) =~= off@);
}

/// Applies `delta` to `glyph`.
pub fn apply(glyph: &mut Glyph, delta: &Delta)
    ensures
        final(glyph)@ == glyph_applied(old(glyph)@, delta.add@, delta.remove@),
{
    apply_change(glyph, &delta.add, &delta.remove);
}

/// The editor's state that is not about the viewport.
pub struct Editor {
    glyph_name: Option<String>,
    tool: Tool,
    undo_stack: Vec<Delta>,
    redo_stack: Vec<Delta>,
}

impl Editor {
    pub closed spec fn glyph_name_view(&self) -> Option<Seq<char>> {
        match self.glyph_name {
            Some(n) => Some(n@),
            None => None,
        }
    }

    pub closed spec fn tool_view(&self) -> Tool {
        self.tool
    }

    /// The changes that can be undone, the latest last.
    pub closed spec fn undo_view(&self) -> Seq<(Set<Point>, Set<Point>)> {
        self.undo_stack@.map_values(|d: Delta| delta_view(d))
    }

    /// The changes that can be redone, the latest undone last.
    pub closed spec fn redo_view(&self) -> Seq<(Set<Point>, Set<Point>)> {
        self.redo_stack@.map_values(|d: Delta| delta_view(d))
    }

    /// The selected glyph is in `font`.
    pub open spec fn selects_glyph_of(&self, font: Font) -> bool {
        &&& self.glyph_name_view() is Some
        &&& has_key(font@.glyphs, self.glyph_name_view().unwrap())
    }

    pub fn new() -> (e: Self)
        ensures
            e.glyph_name_view() is None,
            e.tool_view() == Tool::Pen,
            e.undo_view().len() == 0,
            e.redo_view().len() == 0,
    {
        let e = Editor { glyph_name: None, tool: Tool::Pen, undo_stack: Vec::new(), redo_stack: Vec::new() };
        assert(e.undo_view() =~= Seq::<(Set<Point>, Set<Point>)>::empty());
        assert(e.redo_view() =~= Seq::<(Set<Point>, Set<Point>)>::empty());
        e
    }

    pub fn glyph_name(&self) -> (r: Option<&String>)
        ensures
            match r {
                Some(n) => self.glyph_name_view() == Some(n@),
                None => self.glyph_name_view() is None,
            },
    {
        match &self.glyph_name {
            Some(n) => Some(n),
            None => None,
        }
    }

    pub fn tool(&self) -> (t: Tool)
        ensures
            t == self.tool_view(),
    {
        self.tool
    }

    pub fn select_glyph(&mut self, name: Option<String>)
        ensures
            final(self).glyph_name_view() == match name {
                Some(n) => Some(n@),
                None => None::<Seq<char>>,
            },
            final(self).tool_view() == old(self).tool_view(),
            final(self).undo_view() == old(self).undo_view(),
            final(self).redo_view() == old(self).redo_view(),
    {
        self.glyph_name = name;
    }

    pub fn set_tool(&mut self, tool: Tool)
        ensures
            final(self).tool_view() == tool,
            final(self).glyph_name_view() == old(self).glyph_name_view(),
            final(self).undo_view() == old(self).undo_view(),
            final(self).redo_view() == old(self).redo_view(),
    {
        self.tool = tool;
    }

    /// Applies `add` and `remove` to the selected glyph of `font`.
    fn change_selected(&self, font: &mut Font, add: &crate::pixels::Pixels, remove: &crate::pixels::Pixels)
        requires
            self.selects_glyph_of(*old(font)),
        ensures
            ({
                let name = self.glyph_name_view().unwrap();
                let i = key_index(old(font)@.glyphs, name);
                &&& final(font)@.glyphs == old(font)@.glyphs.update(
                    i,
                    (name, glyph_applied(old(font)@.glyphs[i].1, add@, remove@)),
                )
                &&& final(font)@.metadata == old(font)@.metadata
                &&& final(font)@.metrics == old(font)@.metrics
                &&& final(font)@.alternates == old(font)@.alternates
                &&& final(font)@.mappings == old(font)@.mappings
            }),
    {
        let name = self.glyph_name.as_ref().unwrap();
        proof {
            lemma_key_index(old(font)@.glyphs, name@);
        }
        let i = glyph_map_get_index_of(&font.glyphs, name.as_str()).unwrap();
        proof {
            let s = old(font)@.glyphs;
            assert(is_key_index(s, name@, i as int));
            if (i as int) < key_index(s, name@) {
                assert(s[i as int].0 != name@);
            } else if (i as int) > key_index(s, name@) {
                assert(s[key_index(s, name@)].0 != name@);
            }
        }
        let mut glyph = glyph_map_replace_value(&mut font.glyphs, i, Glyph::default());
        apply_change(&mut glyph, add, remove);
        let _ = glyph_map_replace_value(&mut font.glyphs, i, glyph);
        proof {
            assert(font@.glyphs =~= old(font)@.glyphs.update(
                i as int,
                (name@, glyph_applied(old(font)@.glyphs[i as int].1, add@, remove@)),
            ));
        }
    }

    /// Records `delta` as undoable and applies it to the selected glyph.
    pub fn apply(&mut self, delta: Delta, font: &mut Font)
        requires
            old(self).selects_glyph_of(*old(font)),
        ensures
            ({
                let name = old(self).glyph_name_view().unwrap();
                let i = key_index(old(font)@.glyphs, name);
                &&& final(font)@.glyphs == old(font)@.glyphs.update(
                    i,
                    (name, glyph_applied(old(font)@.glyphs[i].1, delta.add@, delta.remove@)),
                )
                &&& final(font)@.metadata == old(font)@.metadata
                &&& final(font)@.metrics == old(font)@.metrics
                &&& final(font)@.alternates == old(font)@.alternates
                &&& final(font)@.mappings == old(font)@.mappings
            }),
            final(self).undo_view() == old(self).undo_view().push(delta_view(delta)),
            final(self).redo_view() == old(self).redo_view(),
            final(self).glyph_name_view() == old(self).glyph_name_view(),
            final(self).tool_view() == old(self).tool_view(),
    {
        self.change_selected(font, &delta.add, &delta.remove);
        let ghost d = delta_view(delta);
        self.undo_stack.push(delta);
        proof {
            assert(self.undo_view() =~= old(self).undo_view().push(d));
        }
    }

    /// Reverts the latest change that can be undone and makes it redoable.
    /// With nothing to undo, changes nothing.
    pub fn undo(&mut self, font: &mut Font)
        requires
            old(self).selects_glyph_of(*old(font)),
        ensures
            old(self).undo_view().len() == 0 ==> {
                &&& final(font)@ == old(font)@
                &&& final(self).undo_view() == old(self).undo_view()
                &&& final(self).redo_view() == old(self).redo_view()
            },
            old(self).undo_view().len() > 0 ==> ({
                let name = old(self).glyph_name_view().unwrap();
                let i = key_index(old(font)@.glyphs, name);
                let (add, remove) = old(self).undo_view().last();
                &&& final(font)@.glyphs == old(font)@.glyphs.update(
                    i,
                    (name, glyph_applied(old(font)@.glyphs[i].1, remove, add)),
                )
                &&& final(font)@.metadata == old(font)@.metadata
                &&& final(font)@.metrics == old(font)@.metrics
                &&& final(font)@.alternates == old(font)@.alternates
                &&& final(font)@.mappings == old(font)@.mappings
                &&& final(self).undo_view() == old(self).undo_view().drop_last()
                &&& final(self).redo_view() == old(self).redo_view().push((add, remove))
            }),
            final(self).glyph_name_view() == old(self).glyph_name_view(),
            final(self).tool_view() == old(self).tool_view(),
    {
        match self.undo_stack.pop() {
            None => {},
            Some(delta) => {
                self.change_selected(font, &delta.remove, &delta.add);
                let ghost d = delta_view(delta);
                self.redo_stack.push(delta);
                proof {
                    assert(self.undo_view() =~= old(self).undo_view().drop_last());
                    assert(self.redo_view() =~= old(self).redo_view().push(d));
                }
            },
        }
    }

    /// Re-applies the latest undone change and makes it undoable again.
    /// With nothing to redo, changes nothing.
    pub fn redo(&mut self, font: &mut Font)
        requires
            old(self).selects_glyph_of(*old(font)),
        ensures
            old(self).redo_view().len() == 0 ==> {
                &&& final(font)@ == old(font)@
                &&& final(self).undo_view() == old(self).undo_view()
                &&& final(self).redo_view() == old(self).redo_view()
            },
            old(self).redo_view().len() > 0 ==> ({
                let name = old(self).glyph_name_view().unwrap();
                let i = key_index(old(font)@.glyphs, name);
                let (add, remove) = old(self).redo_view().last();
                &&& final(font)@.glyphs == old(font)@.glyphs.update(
                    i,
                    (name, glyph_applied(old(font)@.glyphs[i].1, add, remove)),
                )
                &&& final(font)@.metadata == old(font)@.metadata
                &&& final(font)@.metrics == old(font)@.metrics
                &&& final(font)@.alternates == old(font)@.alternates
                &&& final(font)@.mappings == old(font)@.mappings
                &&& final(self).undo_view() == old(self).undo_view().push((add, remove))
                &&& final(self).redo_view() == old(self).redo_view().drop_last()
            }),
            final(self).glyph_name_view() == old(self).glyph_name_view(),
            final(self).tool_view() == old(self).tool_view(),
    {
        match self.redo_stack.pop() {
            None => {},
            Some(delta) => {
                self.change_selected(font, &delta.add, &delta.remove);
                let ghost d = delta_view(delta);
                self.undo_stack.push(delta);
                proof {
                    assert(self.redo_view() =~= old(self).redo_view().drop_last());
                    assert(self.undo_view() =~= old(self).undo_view().push(d));
                }
            },
        }
    }
}

/// Redoing an undone change gives back the pixels the change made: undo
/// followed by redo restores the glyph, whatever the change and the glyph.
pub proof fn lemma_undo_then_redo(pixels: Set<Point>, add: Set<Point>, remove: Set<Point>)
    ensures
        applied(applied(applied(pixels, add, remove), remove, add), add, remove) == applied(pixels, add, remove),
{
    assert(applied(applied(applied(pixels, add, remove), remove, add), add, remove) =~= applied(pixels, add, remove));
}

/// Undoing a change restores the glyph when the change only turned on pixels
/// that were off and only turned off pixels that were on.
pub proof fn lemma_apply_then_undo(pixels: Set<Point>, add: Set<Point>, remove: Set<Point>)
    requires
        add.disjoint(pixels),
        remove.subset_of(pixels),
    ensures
        applied(applied(pixels, add, remove), remove, add) == pixels,
{
    assert(applied(applied(pixels, add, remove), remove, add) =~= pixels);
}

} // verus!
