//! The order in which the glyph directory lists a font's glyphs: as the font
//! holds them, by name, or by the codepoints that map to them.
use vstd::prelude::*;

use crate::font::{CodepointMappingView, Font, GlyphView};
use crate::maps::{
    glyph_map_get, glyph_map_get_index, glyph_map_len, has_key, lookup, mapping_map_get, mapping_map_get_index,
    mapping_map_len, string_map_get_index, string_map_len,
};
use crate::studio::ui::{glyph_names, Directory, DirectoryOrder};

verus! {

broadcast use vstd::seq_lib::group_to_multiset_ensures;

// ---------------------------------------------------------------------------
// Ordering text

/// `a` comes before `b` in the order of `str`: character by character, a
/// proper prefix first.
pub open spec fn text_lt(a: Seq<char>, b: Seq<char>) -> bool
    decreases a.len(),
{
    if a.len() == 0 {
        b.len() > 0
    } else if b.len() == 0 {
        false
    } else if a[0] != b[0] {
        a[0] < b[0]
    } else {
        text_lt(a.drop_first(), b.drop_first())
    }
}

/// The name order is the order of `str`, whatever the lengths: where two
/// texts first differ at a position both reach, the one with the smaller
/// character there comes first; a proper prefix comes before the texts it
/// begins; and a text never comes before its own prefix.
pub proof fn lemma_text_order(a: Seq<char>, b: Seq<char>)
    ensures
        forall|i: int|
            0 <= i < a.len() && i < b.len() && a.take(i) == b.take(i) && a[i] != b[i] ==> (text_lt(a, b) <==> a[i]
                < b[i]),
        a.len() < b.len() && a == b.take(a.len() as int) ==> text_lt(a, b),
        b.len() <= a.len() && b == a.take(b.len() as int) ==> !text_lt(a, b),
    decreases a.len(),
{
    if a.len() > 0 && b.len() > 0 {
        let a1 = a.drop_first();
        let b1 = b.drop_first();
        lemma_text_order(a1, b1);
        assert forall|i: int|
            0 <= i < a.len() && i < b.len() && a.take(i) == b.take(i) && a[i] != b[i] implies (text_lt(a, b) <==> a[i]
                < b[i]) by {
            if i > 0 {
                assert(a[0] == a.take(i)[0]);
                assert(b[0] == b.take(i)[0]);
                assert(a1.take(i - 1) =~= a.take(i).drop_first());
                assert(b1.take(i - 1) =~= b.take(i).drop_first());
                assert(a1[i - 1] == a[i] && b1[i - 1] == b[i]);
            }
        }
        if a.len() < b.len() && a == b.take(a.len() as int) {
            assert(a[0] == b[0]);
            assert(a1 =~= b1.take(a1.len() as int));
        }
        if b.len() <= a.len() && b == a.take(b.len() as int) {
            assert(a[0] == b[0]);
            assert(b1 =~= a1.take(b1.len() as int));
        }
    }
}

proof fn lemma_text_lt_asymmetric(a: Seq<char>, b: Seq<char>)
    ensures
        text_lt(a, b) ==> !text_lt(b, a),
        !text_lt(a, a),
    decreases a.len(),
{
    if a.len() > 0 && b.len() > 0 {
        lemma_text_lt_asymmetric(a.drop_first(), b.drop_first());
        lemma_text_lt_asymmetric(a.drop_first(), a.drop_first());
    } else if a.len() > 0 {
        lemma_text_lt_asymmetric(a.drop_first(), a.drop_first());
    }
}

proof fn lemma_text_lt_total(a: Seq<char>, b: Seq<char>)
    ensures
        a == b || text_lt(a, b) || text_lt(b, a),
    decreases a.len(),
{
    if a.len() > 0 && b.len() > 0 && a[0] == b[0] {
        lemma_text_lt_total(a.drop_first(), b.drop_first());
        if a.drop_first() == b.drop_first() {
            assert(a =~= seq![a[0]] + a.drop_first());
            assert(b =~= seq![b[0]] + b.drop_first());
        }
    } else if a.len() == 0 && b.len() == 0 {
        assert(a =~= b);
    }
}

proof fn lemma_text_lt_transitive(a: Seq<char>, b: Seq<char>, c: Seq<char>)
    requires
        text_lt(a, b),
        text_lt(b, c),
    ensures
        text_lt(a, c),
    decreases a.len(),
{
    if a.len() > 0 && b.len() > 0 && c.len() > 0 && a[0] == b[0] && b[0] == c[0] {
        lemma_text_lt_transitive(a.drop_first(), b.drop_first(), c.drop_first());
    }
}

/// Whether `a` comes before `b` in the order of `str`.
fn text_less(a: &str, b: &str) -> (r: bool)
    ensures
        r == text_lt(a@, b@),
{
    let n = a.unicode_len();
    let m = b.unicode_len();
    let mut i: usize = 0;
    assert(a@.skip(0) =~= a@);
    assert(b@.skip(0) =~= b@);
    while i < n && i < m
        invariant
            n == a@.len(),
            m == b@.len(),
            i <= n,
            i <= m,
            text_lt(a@, b@) == text_lt(a@.skip(i as int), b@.skip(i as int)),
        decreases n - i,
    {
        let x = a.get_char(i);
        let y = b.get_char(i);
        assert(a@.skip(i as int)[0] == x && b@.skip(i as int)[0] == y);
        if x != y {
            return x < y;
        }
        assert(a@.skip(i as int).drop_first() =~= a@.skip(i + 1));
        assert(b@.skip(i as int).drop_first() =~= b@.skip(i + 1));
        i += 1;
    }
    i < m && i == n
}

// ---------------------------------------------------------------------------
// Sorting

/// No name of `s` comes before an earlier one.
pub open spec fn names_sorted(s: Seq<Seq<char>>) -> bool {
    forall|i: int, j: int| 0 <= i < j < s.len() ==> !text_lt(#[trigger] s[j], #[trigger] s[i])
}

/// No codepoint of `s` is less than an earlier one.
pub open spec fn codepoints_sorted(s: Seq<u32>) -> bool {
    forall|i: int, j: int| 0 <= i < j < s.len() ==> #[trigger] s[i] <= #[trigger] s[j]
}

/// The names in order, each placed after the equal names before it.
fn sort_names(names: Vec<String>) -> (r: Vec<String>)
    ensures
        names_sorted(r@.map_values(|s: String| s@)),
        r@.map_values(|s: String| s@).to_multiset() == names@.map_values(|s: String| s@).to_multiset(),
{
    let ghost input = names@.map_values(|s: String| s@);
    let mut out: Vec<String> = Vec::new();
    let mut i: usize = 0;
    assert(input.take(0) =~= Seq::<Seq<char>>::empty());
    while i < names.len()
        invariant
            input == names@.map_values(|s: String| s@),
            i <= names@.len(),
            names_sorted(out@.map_values(|s: String| s@)),
            out@.map_values(|s: String| s@).to_multiset() == input.take(i as int).to_multiset(),
        decreases names.len() - i,
    {
        let x = names[i].clone();
        let ghost o = out@.map_values(|s: String| s@);
        let mut p: usize = 0;
        while p < out.len()
            invariant
                o == out@.map_values(|s: String| s@),
                p <= out@.len(),
                forall|k: int| 0 <= k < p ==> !text_lt(x@, #[trigger] o[k]),
            ensures
                p <= o.len(),
                forall|k: int| 0 <= k < p ==> !text_lt(x@, #[trigger] o[k]),
                p < o.len() ==> text_lt(x@, o[p as int]),
            decreases out.len() - p,
        {
            if text_less(x.as_str(), out[p].as_str()) {
                break;
            }
            p += 1;
        }
        out.insert(p, x);
        proof {
            let n = out@.map_values(|s: String| s@);
            assert(n =~= o.insert(p as int, x@));
            assert forall|a: int, b: int| 0 <= a < b < n.len() implies !text_lt(#[trigger] n[b], #[trigger] n[a]) by {
                if b == p {
                    assert(!text_lt(x@, o[a]));
                    lemma_text_lt_total(x@, o[a]);
                    lemma_text_lt_asymmetric(x@, o[a]);
                } else if a == p {
                    let c = o[b - 1];
                    if (p as int) < o.len() {
                        assert(!text_lt(c, o[p as int]) || b - 1 == p);
                        lemma_text_lt_total(c, o[p as int]);
                        if c != o[p as int] && !text_lt(c, o[p as int]) {
                            lemma_text_lt_transitive(x@, o[p as int], c);
                        }
                        lemma_text_lt_asymmetric(x@, c);
                    }
                } else {
                    let a0 = if a < p { a } else { a - 1 };
                    let b0 = if b < p { b } else { b - 1 };
                    assert(n[a] == o[a0] && n[b] == o[b0]);
                }
            }
            assert(input.take(i + 1) =~= input.take(i as int).push(input[i as int]));
        }
        i += 1;
    }
    assert(input.take(names@.len() as int) =~= input);
    out
}

/// The codepoints in increasing order.
fn sort_codepoints(codepoints: Vec<u32>) -> (r: Vec<u32>)
    ensures
        codepoints_sorted(r@),
        r@.to_multiset() == codepoints@.to_multiset(),
{
    let mut out: Vec<u32> = Vec::new();
    let mut i: usize = 0;
    assert(codepoints@.take(0) =~= Seq::<u32>::empty());
    while i < codepoints.len()
        invariant
            i <= codepoints@.len(),
            codepoints_sorted(out@),
            out@.to_multiset() == codepoints@.take(i as int).to_multiset(),
        decreases codepoints.len() - i,
    {
        let x = codepoints[i];
        let mut p: usize = 0;
        while p < out.len()
            invariant
                p <= out@.len(),
                forall|k: int| 0 <= k < p ==> #[trigger] out@[k] <= x,
            ensures
                p <= out@.len(),
                forall|k: int| 0 <= k < p ==> #[trigger] out@[k] <= x,
                p < out@.len() ==> x < out@[p as int],
            decreases out.len() - p,
        {
            if x < out[p] {
                break;
            }
            p += 1;
        }
        let ghost o = out@;
        out.insert(p, x);
        proof {
            assert(out@ =~= o.insert(p as int, x));
            assert forall|a: int, b: int| 0 <= a < b < out@.len() implies #[trigger] out@[a] <= #[trigger] out@[b] by {
                if b == p {
                } else if a == p {
                    assert(o[p as int] <= o[b - 1]);
                } else {
                    let a0 = if a < p { a } else { a - 1 };
                    let b0 = if b < p { b } else { b - 1 };
                    assert(out@[a] == o[a0] && out@[b] == o[b0]);
                }
            }
            assert(codepoints@.take(i + 1) =~= codepoints@.take(i as int).push(codepoints@[i as int]));
        }
        i += 1;
    }
    assert(codepoints@.take(codepoints@.len() as int) =~= codepoints@);
    out
}

// ---------------------------------------------------------------------------
// Listings

/// The names of a mapping's glyphs: its default glyph, then its alternates'.
pub open spec fn mapping_glyphs(m: CodepointMappingView) -> Seq<Seq<char>> {
    seq![m.glyph] + m.alternate.map_values(|e: (Seq<char>, Seq<char>)| e.1)
}

/// The names of `names` that `glyphs` holds, in order.
pub open spec fn present(names: Seq<Seq<char>>, glyphs: Seq<(Seq<char>, GlyphView)>) -> Seq<Seq<char>>
    decreases names.len(),
{
    if names.len() == 0 {
        Seq::empty()
    } else {
        let rest = present(names.drop_last(), glyphs);
        if has_key(glyphs, names.last()) { rest.push(names.last()) } else { rest }
    }
}

/// The glyphs of the mappings of `codepoints`, in that order, leaving out
/// those the font lacks.
pub open spec fn listing_by_codepoints(
    codepoints: Seq<u32>,
    mappings: Seq<(u32, CodepointMappingView)>,
    glyphs: Seq<(Seq<char>, GlyphView)>,
) -> Seq<Seq<char>>
    decreases codepoints.len(),
{
    if codepoints.len() == 0 {
        Seq::empty()
    } else {
        listing_by_codepoints(codepoints.drop_last(), mappings, glyphs) + present(
            mapping_glyphs(lookup(mappings, codepoints.last()).unwrap()),
            glyphs,
        )
    }
}

/// The codepoints that have mappings, in the font's order.
pub open spec fn mapped_codepoints(mappings: Seq<(u32, CodepointMappingView)>) -> Seq<u32> {
    mappings.map_values(|e: (u32, CodepointMappingView)| e.0)
}

/// The names of the glyphs of mapping `m` that `font` holds, appended to
/// `out`.
fn push_present(out: &mut Vec<String>, font: &Font, m: &crate::font::CodepointMapping)
    ensures
        final(out)@.map_values(|s: String| s@) == old(out)@.map_values(|s: String| s@) + present(
            mapping_glyphs(m@),
            font@.glyphs,
        ),
{
    let ghost start = out@.map_values(|s: String| s@);
    let ghost names = mapping_glyphs(m@);
    let n = string_map_len(&m.alternate);
    assert(names.take(0) =~= Seq::<Seq<char>>::empty());
    proof {
        lemma_present_step(names, font@.glyphs, 0);
    }
    push_if_present(out, font, &m.glyph);
    let mut i: usize = 0;
    while i < n
        invariant
            names == mapping_glyphs(m@),
            n == m@.alternate.len(),
            names.len() == n + 1,
            i <= n,
            out@.map_values(|s: String| s@) == start + present(names.take(i + 1), font@.glyphs),
        decreases n - i,
    {
        let name = string_map_get_index(&m.alternate, i).1;
        proof {
            lemma_present_step(names, font@.glyphs, i + 1);
            assert(names[i + 1] == name@);
        }
        push_if_present(out, font, name);
        i += 1;
    }
    assert(names.take(n + 1) =~= names);
}

/// Appends `name` where `font` has a glyph of that name.
fn push_if_present(out: &mut Vec<String>, font: &Font, name: &String)
    ensures
        final(out)@.map_values(|s: String| s@) == if has_key(font@.glyphs, name@) {
            old(out)@.map_values(|s: String| s@).push(name@)
        } else {
            old(out)@.map_values(|s: String| s@)
        },
{
    let ghost before = out@.map_values(|s: String| s@);
    if glyph_map_get(&font.glyphs, name.as_str()).is_some() {
        proof {
            crate::maps::lemma_key_index(font@.glyphs, name@);
        }
        out.push(name.clone());
        assert(out@.map_values(|s: String| s@) =~= before.push(name@));
    } else {
        proof {
            if has_key(font@.glyphs, name@) {
                crate::maps::lemma_key_index(font@.glyphs, name@);
            }
        }
    }
}

/// `present` over one more name.
proof fn lemma_present_step(names: Seq<Seq<char>>, glyphs: Seq<(Seq<char>, GlyphView)>, i: int)
    requires
        0 <= i < names.len(),
    ensures
        present(names.take(i + 1), glyphs) == if has_key(glyphs, names[i]) {
            present(names.take(i), glyphs).push(names[i])
        } else {
            present(names.take(i), glyphs)
        },
{
    assert(names.take(i + 1).drop_last() =~= names.take(i));
}

/// The names of the font's glyphs as the directory lists them in `order`:
/// as the font holds them; sorted by name; or by codepoint, each codepoint's
/// default glyph and then its alternates, leaving out names the font has no
/// glyph for.
pub fn directory_listing(font: &Font, order: DirectoryOrder) -> (r: Vec<String>)
    ensures
        order is Unordered ==> r@.map_values(|s: String| s@) == glyph_names(font@.glyphs),
        order is Name ==> {
            &&& names_sorted(r@.map_values(|s: String| s@))
            &&& r@.map_values(|s: String| s@).to_multiset() == glyph_names(font@.glyphs).to_multiset()
        },
        order is Unicode ==> exists|cs: Seq<u32>|
            {
                &&& codepoints_sorted(cs)
                &&& cs.to_multiset() == mapped_codepoints(font@.mappings).to_multiset()
                &&& r@.map_values(|s: String| s@) == listing_by_codepoints(cs, font@.mappings, font@.glyphs)
            },
{
    match order {
        DirectoryOrder::Unordered | DirectoryOrder::Name => {
            let n = glyph_map_len(&font.glyphs);
            let mut names: Vec<String> = Vec::new();
            let mut i: usize = 0;
            while i < n
                invariant
                    n == font@.glyphs.len(),
                    i <= n,
                    names@.len() == i,
                    forall|k: int| 0 <= k < i ==> (#[trigger] names@[k])@ == font@.glyphs[k].0,
                decreases n - i,
            {
                let (name, _) = glyph_map_get_index(&font.glyphs, i);
                names.push(name.clone());
                i += 1;
            }
            assert(names@.map_values(|s: String| s@) =~= glyph_names(font@.glyphs));
            if order == DirectoryOrder::Name {
                sort_names(names)
            } else {
                names
            }
        },
        DirectoryOrder::Unicode => {
            let n = mapping_map_len(&font.mappings);
            let mut keys: Vec<u32> = Vec::new();
            let mut i: usize = 0;
            while i < n
                invariant
                    n == font@.mappings.len(),
                    i <= n,
                    keys@ == mapped_codepoints(font@.mappings).take(i as int),
                decreases n - i,
            {
                let (c, _) = mapping_map_get_index(&font.mappings, i);
                keys.push(*c);
                assert(keys@ =~= mapped_codepoints(font@.mappings).take(i + 1));
                i += 1;
            }
            assert(keys@ =~= mapped_codepoints(font@.mappings));
            let sorted = sort_codepoints(keys);
            let mut out: Vec<String> = Vec::new();
            let mut j: usize = 0;
            assert(sorted@.take(0) =~= Seq::<u32>::empty());
            while j < sorted.len()
                invariant
                    j <= sorted@.len(),
                    sorted@.to_multiset() == mapped_codepoints(font@.mappings).to_multiset(),
                    out@.map_values(|s: String| s@) == listing_by_codepoints(sorted@.take(j as int), font@.mappings, font@.glyphs),
                decreases sorted.len() - j,
            {
                let c = sorted[j];
                assert(sorted@.take(j + 1).drop_last() =~= sorted@.take(j as int));
                proof {
                    assert(sorted@.to_multiset().count(c) > 0);
                    assert(mapped_codepoints(font@.mappings).contains(c));
                    let k = choose|k: int| 0 <= k < font@.mappings.len() && mapped_codepoints(font@.mappings)[k] == c;
                    assert(font@.mappings[k].0 == c);
                }
                let m = mapping_map_get(&font.mappings, c).unwrap();
                push_present(&mut out, font, m);
                j += 1;
            }
            assert(sorted@.take(sorted@.len() as int) =~= sorted@);
            out
        },
    }
}

impl Directory {
    /// The names of the font's glyphs in the directory's order.
    pub fn listing(&self, font: &Font) -> (r: Vec<String>)
        ensures
            self.order is Unordered ==> r@.map_values(|s: String| s@) == glyph_names(font@.glyphs),
            self.order is Name ==> {
                &&& names_sorted(r@.map_values(|s: String| s@))
                &&& r@.map_values(|s: String| s@).to_multiset() == glyph_names(font@.glyphs).to_multiset()
            },
            self.order is Unicode ==> exists|cs: Seq<u32>|
                {
                    &&& codepoints_sorted(cs)
                    &&& cs.to_multiset() == mapped_codepoints(font@.mappings).to_multiset()
                    &&& r@.map_values(|s: String| s@) == listing_by_codepoints(cs, font@.mappings, font@.glyphs)
                },
    {
        directory_listing(font, self.order)
    }
}

} // verus!
