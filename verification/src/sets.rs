//! Predefined sets of characters that a font can be given glyphs for.
use vstd::prelude::*;

use indexmap::IndexSet;

use crate::maps::{codepoint_set_elements, codepoint_set_insert, codepoint_set_new};

verus! {

#[derive(Debug, Clone, Copy, PartialEq, Eq, Structural)]
pub enum GlyphSet {
    Numbers,
    LatinLower,
    LatinUpper,
    Alphanumeric,
    Punctuation,
    BoxDrawing,
}

/// The glyph sets offered to users, in the order they are listed.
pub fn defined_glyph_sets() -> (v: Vec<GlyphSet>)
    ensures
        v@ == seq![
            GlyphSet::Numbers,
            GlyphSet::LatinLower,
            GlyphSet::LatinUpper,
            GlyphSet::Alphanumeric,
            GlyphSet::Punctuation,
            GlyphSet::BoxDrawing,
        ],
{
    vec![
        GlyphSet::Numbers,
        GlyphSet::LatinLower,
        GlyphSet::LatinUpper,
        GlyphSet::Alphanumeric,
        GlyphSet::Punctuation,
        GlyphSet::BoxDrawing,
    ]
}

/// The codepoints from `lo` to `hi`, both included, in increasing order.
pub open spec fn code_range(lo: u32, hi: u32) -> Seq<u32> {
    Seq::new((hi - lo + 1) as nat, |i: int| (lo + i) as u32)
}

/// The codepoints of a glyph set, in order: the digits `0` to `9`, the
/// letters `a` to `z`, the letters `A` to `Z`, or all three in that order.
pub open spec fn set_codepoints(set: GlyphSet) -> Seq<u32> {
    match set {
        GlyphSet::Numbers => code_range(48, 57),
        GlyphSet::LatinLower => code_range(97, 122),
        GlyphSet::LatinUpper => code_range(65, 90),
        GlyphSet::Alphanumeric => code_range(48, 57) + code_range(97, 122) + code_range(65, 90),
        _ => Seq::empty(),
    }
}

/// Each codepoint comes before every larger one, and none twice.
pub open spec fn increasing(s: Seq<u32>) -> bool {
    forall|i: int, j: int| 0 <= i < j < s.len() ==> s[i] < s[j]
}

/// Each glyph set holds what its name says, each codepoint once and in
/// increasing order: "Numbers" the digits `0` to `9`, "Lowercase letters"
/// the letters `a` to `z`, "Uppercase letters" the letters `A` to `Z`; and
/// "Alphanumeric" the digits, then the lowercase, then the uppercase letters.
pub proof fn lemma_set_contents(c: u32)
    ensures
        set_codepoints(GlyphSet::Numbers).contains(c) <==> ('0' as u32 <= c <= '9' as u32),
        set_codepoints(GlyphSet::LatinLower).contains(c) <==> ('a' as u32 <= c <= 'z' as u32),
        set_codepoints(GlyphSet::LatinUpper).contains(c) <==> ('A' as u32 <= c <= 'Z' as u32),
        increasing(set_codepoints(GlyphSet::Numbers)),
        increasing(set_codepoints(GlyphSet::LatinLower)),
        increasing(set_codepoints(GlyphSet::LatinUpper)),
        set_codepoints(GlyphSet::Alphanumeric) == set_codepoints(GlyphSet::Numbers) + set_codepoints(
            GlyphSet::LatinLower,
        ) + set_codepoints(GlyphSet::LatinUpper),
{
    lemma_range_contents(48, 57, c);
    lemma_range_contents(97, 122, c);
    lemma_range_contents(65, 90, c);
}

proof fn lemma_range_contents(lo: u32, hi: u32, c: u32)
    requires
        lo <= hi,
    ensures
        code_range(lo, hi).contains(c) <==> (lo <= c <= hi),
        increasing(code_range(lo, hi)),
{
    let r = code_range(lo, hi);
    if lo <= c <= hi {
        assert(r[c - lo] == c);
    }
}

/// Appends `lo..=hi` to a set that holds none of them.
fn insert_range(set: &mut IndexSet<u32>, lo: u32, hi: u32)
    requires
        lo <= hi < u32::MAX,
        forall|i: int|
            0 <= i < codepoint_set_elements(*old(set)).len() ==> !(lo <= #[trigger] codepoint_set_elements(
                *old(set),
            )[i] <= hi),
    ensures
        codepoint_set_elements(*final(set)) == codepoint_set_elements(*old(set)) + code_range(lo, hi),
{
    let ghost start = codepoint_set_elements(*set);
    let mut c = lo;
    while c <= hi
        invariant
            lo <= c <= hi + 1,
            hi < u32::MAX,
            forall|i: int| 0 <= i < start.len() ==> !(lo <= #[trigger] start[i] <= hi),
            codepoint_set_elements(*set) == start + Seq::new((c - lo) as nat, |i: int| (lo + i) as u32),
        decreases hi + 1 - c,
    {
        let ghost before = codepoint_set_elements(*set);
        assert(!before.contains(c)) by {
            if before.contains(c) {
                let i = choose|i: int| 0 <= i < before.len() && before[i] == c;
                if i < start.len() {
                    assert(lo <= start[i] <= hi);
                }
            }
        }
        codepoint_set_insert(set, c);
        assert(codepoint_set_elements(*set) =~= start + Seq::new((c + 1 - lo) as nat, |i: int| (lo + i) as u32));
        c += 1;
    }
}

impl GlyphSet {
    /// The set's codepoints, in order. Punctuation and box drawing have no
    /// codepoints defined yet.
    pub fn codepoints(&self) -> (r: IndexSet<u32>)
        requires
            !(self is Punctuation),
            !(self is BoxDrawing),
        ensures
            codepoint_set_elements(r) == set_codepoints(*self),
    {
        let mut set = codepoint_set_new();
        match self {
            GlyphSet::Numbers => insert_range(&mut set, 48, 57),
            GlyphSet::LatinLower => insert_range(&mut set, 97, 122),
            GlyphSet::LatinUpper => insert_range(&mut set, 65, 90),
            GlyphSet::Alphanumeric => {
                insert_range(&mut set, 48, 57);
                insert_range(&mut set, 97, 122);
                insert_range(&mut set, 65, 90);
            },
            _ => {},
        }
        assert(codepoint_set_elements(set) =~= set_codepoints(*self));
        set
    }

    /// The set's name as shown to users.
    pub fn name(&self) -> (s: &'static str)
        ensures
            s@ == match self {
                GlyphSet::Numbers => "Numbers"@,
                GlyphSet::LatinLower => "Lowercase letters"@,
                GlyphSet::LatinUpper => "Uppercase letters"@,
                GlyphSet::Alphanumeric => "Alphanumeric"@,
                GlyphSet::Punctuation => "Punctuation"@,
                GlyphSet::BoxDrawing => "Box drawing characters"@,
            },
    {
        match self {
            GlyphSet::Numbers => "Numbers",
            GlyphSet::LatinLower => "Lowercase letters",
            GlyphSet::LatinUpper => "Uppercase letters",
            GlyphSet::Alphanumeric => "Alphanumeric",
            GlyphSet::Punctuation => "Punctuation",
            GlyphSet::BoxDrawing => "Box drawing characters",
        }
    }
}

} // verus!
