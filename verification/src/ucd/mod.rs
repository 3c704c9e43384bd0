//! Unicode character data: the blocks that divide the codepoints, and the
//! names of characters, with lookups by codepoint.
//!
//! Both tables are in increasing order of codepoint, which a lookup checks
//! before it searches by halving.
use vstd::prelude::*;

pub mod blocks;
pub mod names;
pub mod source;

use crate::ucd::blocks::{all_blocks, block_table, lemma_blocks_adjacent};
use crate::ucd::names::{all_codepoints, codepoint_table, lemma_codepoint_table_dense};

verus! {

/// The codepoints from `start` to `last`, both included.
#[derive(Debug, Clone, Copy, PartialEq, Eq, Structural)]
pub struct CodeRange {
    pub start: u32,
    pub last: u32,
}

/// A named range of codepoints.
#[derive(Debug, Clone, Copy, PartialEq, Eq)]
pub struct Block {
    pub range: CodeRange,
    pub name: &'static str,
}

/// A character's name and its other names.
#[derive(Debug, Clone, Copy, PartialEq, Eq)]
pub struct Codepoint {
    pub codepoint: u32,
    pub name: &'static str,
    pub aliases: &'static [&'static str],
}

/// `b`'s range holds `c`.
pub open spec fn in_block(b: Block, c: u32) -> bool {
    b.range.start <= c <= b.range.last
}

/// Every block's range is in order, and lies wholly before the next block's.
pub open spec fn blocks_ordered(s: Seq<Block>) -> bool {
    &&& forall|i: int| 0 <= i < s.len() ==> (#[trigger] s[i]).range.start <= s[i].range.last
    &&& forall|i: int, j: int| 0 <= i < j < s.len() ==> (#[trigger] s[i]).range.last < (#[trigger] s[j]).range.start
}

/// The first block of `table` that holds `c`, if any.
pub open spec fn first_block(table: Seq<Block>, c: u32) -> Option<Block>
    decreases table.len(),
{
    if table.len() == 0 {
        None
    } else if in_block(table[0], c) {
        Some(table[0])
    } else {
        first_block(table.drop_first(), c)
    }
}

/// `r` is the first block of `table` that holds `c`, or `None` where no block
/// does.
pub open spec fn block_found(table: Seq<Block>, c: u32, r: Option<Block>) -> bool {
    r == first_block(table, c)
}

/// The block at `i` is the first that holds `c`.
proof fn lemma_first_block(table: Seq<Block>, c: u32, i: int)
    requires
        0 <= i < table.len(),
        in_block(table[i], c),
        forall|k: int| 0 <= k < i ==> !in_block(#[trigger] table[k], c),
    ensures
        first_block(table, c) == Some(table[i]),
    decreases i,
{
    if i > 0 {
        let t = table.drop_first();
        assert(!in_block(table[0], c));
        assert forall|k: int| 0 <= k < i - 1 implies !in_block(#[trigger] t[k], c) by {
            assert(t[k] == table[k + 1]);
        }
        lemma_first_block(t, c, i - 1);
    }
}

/// No block holds `c`.
proof fn lemma_no_block(table: Seq<Block>, c: u32)
    requires
        forall|k: int| 0 <= k < table.len() ==> !in_block(#[trigger] table[k], c),
    ensures
        first_block(table, c) is None,
    decreases table.len(),
{
    if table.len() > 0 {
        let t = table.drop_first();
        assert(!in_block(table[0], c));
        assert forall|k: int| 0 <= k < t.len() implies !in_block(#[trigger] t[k], c) by {
            assert(t[k] == table[k + 1]);
        }
        lemma_no_block(t, c);
    }
}

/// Every entry's codepoint is less than the next entry's.
pub open spec fn codepoints_ordered(s: Seq<Codepoint>) -> bool {
    forall|i: int, j: int| 0 <= i < j < s.len() ==> (#[trigger] s[i]).codepoint < (#[trigger] s[j]).codepoint
}

/// The first entry of `table` for `c`, if any.
pub open spec fn first_codepoint(table: Seq<Codepoint>, c: u32) -> Option<Codepoint>
    decreases table.len(),
{
    if table.len() == 0 {
        None
    } else if table[0].codepoint == c {
        Some(table[0])
    } else {
        first_codepoint(table.drop_first(), c)
    }
}

/// `r` is the first entry of `table` for `c`, or `None` where there is none.
pub open spec fn codepoint_found(table: Seq<Codepoint>, c: u32, r: Option<Codepoint>) -> bool {
    r == first_codepoint(table, c)
}

/// The entry at `i` is the first for `c`.
proof fn lemma_first_codepoint(table: Seq<Codepoint>, c: u32, i: int)
    requires
        0 <= i < table.len(),
        table[i].codepoint == c,
        forall|k: int| 0 <= k < i ==> (#[trigger] table[k]).codepoint != c,
    ensures
        first_codepoint(table, c) == Some(table[i]),
    decreases i,
{
    if i > 0 {
        let t = table.drop_first();
        assert(table[0].codepoint != c);
        assert forall|k: int| 0 <= k < i - 1 implies (#[trigger] t[k]).codepoint != c by {
            assert(t[k] == table[k + 1]);
        }
        lemma_first_codepoint(t, c, i - 1);
    }
}

/// No entry is for `c`.
proof fn lemma_no_codepoint(table: Seq<Codepoint>, c: u32)
    requires
        forall|k: int| 0 <= k < table.len() ==> (#[trigger] table[k]).codepoint != c,
    ensures
        first_codepoint(table, c) is None,
    decreases table.len(),
{
    if table.len() > 0 {
        let t = table.drop_first();
        assert(table[0].codepoint != c);
        assert forall|k: int| 0 <= k < t.len() implies (#[trigger] t[k]).codepoint != c by {
            assert(t[k] == table[k + 1]);
        }
        lemma_no_codepoint(t, c);
    }
}

/// Whether the blocks are in order, checked entry by entry.
fn check_blocks_ordered(table: &Vec<Block>) -> (r: bool)
    ensures
        r == blocks_ordered(table@),
{
    let n = table.len();
    let mut i: usize = 0;
    while i < n
        invariant
            n == table@.len(),
            i <= n,
            forall|k: int| 0 <= k < i ==> (#[trigger] table@[k]).range.start <= table@[k].range.last,
            forall|k: int| 0 <= k < i && k + 1 < n ==> (#[trigger] table@[k]).range.last < table@[k + 1].range.start,
        decreases n - i,
    {
        if table[i].range.start > table[i].range.last {
            assert(!blocks_ordered(table@));
            return false;
        }
        if i + 1 < n && table[i].range.last >= table[i + 1].range.start {
            assert(table@[i as int].range.last >= table@[i + 1].range.start);
            assert(!blocks_ordered(table@));
            return false;
        }
        i += 1;
    }
    proof {
        assert forall|a: int, b: int| 0 <= a < b < n implies (#[trigger] table@[a]).range.last
            < (#[trigger] table@[b]).range.start by {
            lemma_blocks_chain(table@, a, b);
        }
    }
    true
}

proof fn lemma_blocks_chain(s: Seq<Block>, a: int, b: int)
    requires
        0 <= a < b < s.len(),
        forall|k: int| 0 <= k < s.len() ==> (#[trigger] s[k]).range.start <= s[k].range.last,
        forall|k: int| 0 <= k && k + 1 < s.len() ==> (#[trigger] s[k]).range.last < s[k + 1].range.start,
    ensures
        s[a].range.last < s[b].range.start,
    decreases b - a,
{
    if b > a + 1 {
        lemma_blocks_chain(s, a, b - 1);
        assert(s[b - 1].range.start <= s[b - 1].range.last);
    }
}

/// The block of an ordered table that holds `c`, found by halving the table.
fn search_blocks(table: &Vec<Block>, c: u32) -> (r: Option<Block>)
    requires
        blocks_ordered(table@),
    ensures
        block_found(table@, c, r),
{
    let mut lo: usize = 0;
    let mut hi: usize = table.len();
    while lo < hi
        invariant
            blocks_ordered(table@),
            lo <= hi <= table@.len(),
            forall|k: int| 0 <= k < lo ==> (#[trigger] table@[k]).range.last < c,
            forall|k: int| hi <= k < table@.len() ==> c < (#[trigger] table@[k]).range.start,
        decreases hi - lo,
    {
        let mid = lo + (hi - lo) / 2;
        let pivot = table[mid];
        if c < pivot.range.start {
            proof {
                assert forall|k: int| mid <= k < table@.len() implies c < (#[trigger] table@[k]).range.start by {
                    if k > mid {
                        assert(table@[mid as int].range.last < table@[k].range.start);
                    }
                }
            }
            hi = mid;
        } else if c > pivot.range.last {
            proof {
                assert forall|k: int| 0 <= k <= mid implies (#[trigger] table@[k]).range.last < c by {
                    if k < mid {
                        assert(table@[k].range.last < table@[mid as int].range.start);
                    }
                }
            }
            lo = mid + 1;
        } else {
            assert(table@[mid as int] == pivot);
            proof {
                assert forall|k: int| 0 <= k < mid implies !in_block(#[trigger] table@[k], c) by {
                    assert(table@[k].range.last < table@[mid as int].range.start);
                }
                lemma_first_block(table@, c, mid as int);
            }
            return Some(pivot);
        }
    }
    proof {
        lemma_no_block(table@, c);
    }
    None
}

/// The first block of `table` that holds `c`, found by looking at each.
fn scan_blocks(table: &Vec<Block>, c: u32) -> (r: Option<Block>)
    ensures
        block_found(table@, c, r),
{
    let mut i: usize = 0;
    while i < table.len()
        invariant
            i <= table@.len(),
            forall|k: int| 0 <= k < i ==> !in_block(#[trigger] table@[k], c),
        decreases table.len() - i,
    {
        if table[i].range.start <= c && c <= table[i].range.last {
            assert(table@[i as int] == table[i as int]);
            proof {
                lemma_first_block(table@, c, i as int);
            }
            return Some(table[i]);
        }
        i += 1;
    }
    proof {
        lemma_no_block(table@, c);
    }
    None
}

/// Whether the entries are in order, checked entry by entry.
fn check_codepoints_ordered(table: &Vec<Codepoint>) -> (r: bool)
    ensures
        r == codepoints_ordered(table@),
{
    let n = table.len();
    let mut i: usize = 0;
    while i < n
        invariant
            n == table@.len(),
            i <= n,
            forall|k: int| 0 <= k < i && k + 1 < n ==> (#[trigger] table@[k]).codepoint < table@[k + 1].codepoint,
        decreases n - i,
    {
        if i + 1 < n && table[i].codepoint >= table[i + 1].codepoint {
            assert(table@[i as int].codepoint >= table@[i + 1].codepoint);
            assert(!codepoints_ordered(table@));
            return false;
        }
        i += 1;
    }
    proof {
        assert forall|a: int, b: int| 0 <= a < b < n implies (#[trigger] table@[a]).codepoint
            < (#[trigger] table@[b]).codepoint by {
            lemma_codepoints_chain(table@, a, b);
        }
    }
    true
}

proof fn lemma_codepoints_chain(s: Seq<Codepoint>, a: int, b: int)
    requires
        0 <= a < b < s.len(),
        forall|k: int| 0 <= k && k + 1 < s.len() ==> (#[trigger] s[k]).codepoint < s[k + 1].codepoint,
    ensures
        s[a].codepoint < s[b].codepoint,
    decreases b - a,
{
    if b > a + 1 {
        lemma_codepoints_chain(s, a, b - 1);
    }
}

/// The entry of an ordered table for `c`, found by halving the table.
fn search_codepoints(table: &Vec<Codepoint>, c: u32) -> (r: Option<Codepoint>)
    requires
        codepoints_ordered(table@),
    ensures
        codepoint_found(table@, c, r),
{
    let mut lo: usize = 0;
    let mut hi: usize = table.len();
    while lo < hi
        invariant
            codepoints_ordered(table@),
            lo <= hi <= table@.len(),
            forall|k: int| 0 <= k < lo ==> (#[trigger] table@[k]).codepoint < c,
            forall|k: int| hi <= k < table@.len() ==> c < (#[trigger] table@[k]).codepoint,
        decreases hi - lo,
    {
        let mid = lo + (hi - lo) / 2;
        let pivot = table[mid];
        if c < pivot.codepoint {
            proof {
                assert forall|k: int| mid <= k < table@.len() implies c < (#[trigger] table@[k]).codepoint by {
                    if k > mid {
                        assert(table@[mid as int].codepoint < table@[k].codepoint);
                    }
                }
            }
            hi = mid;
        } else if c > pivot.codepoint {
            proof {
                assert forall|k: int| 0 <= k <= mid implies (#[trigger] table@[k]).codepoint < c by {
                    if k < mid {
                        assert(table@[k].codepoint < table@[mid as int].codepoint);
                    }
                }
            }
            lo = mid + 1;
        } else {
            assert(table@[mid as int] == pivot);
            proof {
                assert forall|k: int| 0 <= k < mid implies (#[trigger] table@[k]).codepoint != c by {
                    assert(table@[k].codepoint < table@[mid as int].codepoint);
                }
                lemma_first_codepoint(table@, c, mid as int);
            }
            return Some(pivot);
        }
    }
    proof {
        lemma_no_codepoint(table@, c);
    }
    None
}

/// The first entry of `table` for `c`, found by looking at each.
fn scan_codepoints(table: &Vec<Codepoint>, c: u32) -> (r: Option<Codepoint>)
    ensures
        codepoint_found(table@, c, r),
{
    let mut i: usize = 0;
    while i < table.len()
        invariant
            i <= table@.len(),
            forall|k: int| 0 <= k < i ==> (#[trigger] table@[k]).codepoint != c,
        decreases table.len() - i,
    {
        if table[i].codepoint == c {
            assert(table@[i as int] == table[i as int]);
            proof {
                lemma_first_codepoint(table@, c, i as int);
            }
            return Some(table[i]);
        }
        i += 1;
    }
    proof {
        lemma_no_codepoint(table@, c);
    }
    None
}

/// The table's blocks are in order, each wholly before the next.
pub proof fn lemma_block_table_ordered()
    ensures
        blocks_ordered(block_table()),
{
    lemma_blocks_adjacent();
    let t = block_table();
    assert forall|a: int, b: int| 0 <= a < b < t.len() implies (#[trigger] t[a]).range.last < (#[trigger] t[b]).range.start by {
        lemma_blocks_chain(t, a, b);
    }
}

/// A lookup of a codepoint that the block at `i` holds gives that block.
pub proof fn lemma_block_lookup(i: int, c: u32)
    requires
        0 <= i < block_table().len(),
        in_block(block_table()[i], c),
    ensures
        first_block(block_table(), c) == Some(block_table()[i]),
{
    lemma_block_table_ordered();
    let t = block_table();
    assert forall|k: int| 0 <= k < i implies !in_block(#[trigger] t[k], c) by {
        assert(t[k].range.last < t[i].range.start);
    }
    lemma_first_block(t, c, i);
}

/// A lookup of a codepoint up to U+024F gives its entry, which sits at the
/// position of the codepoint's number.
pub proof fn lemma_codepoint_lookup(c: u32)
    requires
        c < 0x250,
    ensures
        first_codepoint(codepoint_table(), c) == Some(codepoint_table()[c as int]),
{
    lemma_codepoint_table_dense();
    let t = codepoint_table();
    assert forall|k: int| 0 <= k < c implies (#[trigger] t[k]).codepoint != c by {}
    lemma_first_codepoint(t, c, c as int);
}

impl Block {
    /// The blocks, in order.
    pub fn all() -> (v: Vec<Block>)
        ensures
            v@ == block_table(),
    {
        all_blocks()
    }

    /// The block that holds `codepoint`, if any.
    pub fn of(codepoint: u32) -> (r: Option<Block>)
        ensures
            block_found(block_table(), codepoint, r),
    {
        let table = all_blocks();
        if check_blocks_ordered(&table) {
            search_blocks(&table, codepoint)
        } else {
            scan_blocks(&table, codepoint)
        }
    }

    /// The block's name as shown to users.
    pub fn name(&self) -> (s: &'static str)
        ensures
            s == self.name,
    {
        self.name
    }
}

impl Codepoint {
    /// The named codepoints, in order.
    pub fn all() -> (v: Vec<Codepoint>)
        ensures
            v@ == codepoint_table(),
    {
        all_codepoints()
    }

    /// The name entry for `codepoint`, if it has one.
    pub fn of(codepoint: u32) -> (r: Option<Codepoint>)
        ensures
            codepoint_found(codepoint_table(), codepoint, r),
    {
        let table = all_codepoints();
        if check_codepoints_ordered(&table) {
            search_codepoints(&table, codepoint)
        } else {
            scan_codepoints(&table, codepoint)
        }
    }
}

} // verus!
