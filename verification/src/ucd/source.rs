//! Reading the list of Unicode blocks in the form the Unicode Character
//! Database publishes it: a block per line, written `start..last; name` in
//! hexadecimal, with `#` opening a comment line.
use vstd::prelude::*;

use crate::text::{
    chars_of, find, find_in, first_occurrence, lemma_find_some, lemma_line_length, line_length,
    parse_hex, parse_hex_spec, split_once, text_lines, trim, trim_bounds,
};
use crate::ucd::CodeRange;

verus! {

/// A block as a list names it.
#[derive(Debug, Clone, PartialEq, Eq)]
pub struct BlockEntry {
    pub range: CodeRange,
    pub name: String,
}

/// The entry as plain values: its first and last codepoint and its name.
pub open spec fn entry_view(e: BlockEntry) -> (u32, u32, Seq<char>) {
    (e.range.start, e.range.last, e.name@)
}

/// The fields of a line that names a block: the first and the last codepoint
/// as written, and the name without white space around it. A comment line
/// names none, and neither does a line without `;`, or whose part before
/// the `;` has no `..`.
pub open spec fn block_fields(l: Seq<char>) -> Option<(Seq<char>, Seq<char>, Seq<char>)> {
    if l.len() > 0 && l[0] == '#' {
        None
    } else {
        match split_once(l, seq![';']) {
            None => None,
            Some((range, name)) => match split_once(range, seq!['.', '.']) {
                None => None,
                Some((start, last)) => Some((start, last, trim(name))),
            },
        }
    }
}

/// Where the line names a block, both its codepoints are hexadecimal numbers
/// that fit a `u32`.
pub open spec fn block_line_readable(l: Seq<char>) -> bool {
    match block_fields(l) {
        Some((start, last, _)) => parse_hex_spec(start) is Some && parse_hex_spec(last) is Some,
        None => true,
    }
}

/// The block a line names, if it names one.
pub open spec fn block_of_line(l: Seq<char>) -> Option<(u32, u32, Seq<char>)> {
    match block_fields(l) {
        Some((start, last, name)) => Some((parse_hex_spec(start).unwrap(), parse_hex_spec(last).unwrap(), name)),
        None => None,
    }
}

/// The blocks that the lines name, in order.
pub open spec fn blocks_of_lines(ls: Seq<Seq<char>>) -> Seq<(u32, u32, Seq<char>)>
    decreases ls.len(),
{
    if ls.len() == 0 {
        seq![]
    } else {
        let rest = blocks_of_lines(ls.drop_last());
        match block_of_line(ls.last()) {
            Some(b) => rest.push(b),
            None => rest,
        }
    }
}

/// Every line of `t` can be read.
pub open spec fn blocks_readable(t: Seq<char>) -> bool {
    forall|i: int| 0 <= i < text_lines(t).len() ==> block_line_readable(#[trigger] text_lines(t)[i])
}

/// The block that `cs[a..b]` names, if it names one.
fn block_line(text: &str, cs: &Vec<char>, a: usize, b: usize) -> (r: Option<BlockEntry>)
    requires
        a < b <= cs@.len(),
        cs@ == text@,
        block_line_readable(cs@.subrange(a as int, b as int)),
    ensures
        match r {
            Some(e) => block_of_line(cs@.subrange(a as int, b as int)) == Some(entry_view(e)),
            None => block_of_line(cs@.subrange(a as int, b as int)) is None,
        },
{
    let ghost l = cs@.subrange(a as int, b as int);
    if cs[a] == '#' {
        return None;
    }
    let semicolon = vec![';'];
    let dots = vec!['.', '.'];
    assert(semicolon@ == seq![';']);
    assert(dots@ == seq!['.', '.']);
    let k = match find_in(cs, a, b, &semicolon) {
        Some(k) => k,
        None => return None,
    };
    proof {
        lemma_find_some(l, seq![';']);
    }
    let ghost range = l.take(k as int);
    let ghost name = l.skip(k + 1);
    assert(range =~= cs@.subrange(a as int, a + k));
    assert(name =~= cs@.subrange(a + k + 1, b as int));
    let d = match find_in(cs, a, a + k, &dots) {
        Some(d) => d,
        None => return None,
    };
    proof {
        lemma_find_some(range, seq!['.', '.']);
    }
    assert(range.take(d as int) =~= cs@.subrange(a as int, a + d));
    assert(range.skip(d + 2) =~= cs@.subrange(a + d + 2, a + k));
    let start = parse_hex(text.substring_char(a, a + d)).unwrap();
    let last = parse_hex(text.substring_char(a + d + 2, a + k)).unwrap();
    let (ns, ne) = trim_bounds(cs, a + k + 1, b);
    let name_text = text.substring_char(ns, ne).to_owned();
    Some(BlockEntry { range: CodeRange { start, last }, name: name_text })
}

/// Reads the blocks that a list names, in the order it names them. Lines
/// that name no block are passed over.
pub fn blocks(text: &str) -> (r: Vec<BlockEntry>)
    requires
        blocks_readable(text@),
    ensures
        r@.map_values(|e: BlockEntry| entry_view(e)) == blocks_of_lines(text_lines(text@)),
{
    let cs = chars_of(text);
    let n = cs.len();
    let newline = vec!['\n'];
    assert(newline@ == seq!['\n']);
    let mut out: Vec<BlockEntry> = Vec::new();
    let mut i: usize = 0;
    let ghost mut done: Seq<Seq<char>> = seq![];
    assert(cs@.skip(0) =~= cs@);
    while i < n
        invariant
            cs@ == text@,
            n == cs@.len(),
            newline@ == seq!['\n'],
            i <= n,
            done + text_lines(cs@.skip(i as int)) == text_lines(cs@),
            out@.map_values(|e: BlockEntry| entry_view(e)) == blocks_of_lines(done),
            blocks_readable(text@),
        decreases n - i,
    {
        let ghost rest = cs@.skip(i as int);
        assert(rest =~= cs@.subrange(i as int, n as int));
        let e = match find_in(&cs, i, n, &newline) {
            Some(k) => {
                proof {
                    lemma_find_some(rest, seq!['\n']);
                }
                i + k + 1
            },
            None => n,
        };
        proof {
            lemma_line_length(rest);
            assert(e - i == line_length(rest));
            assert(rest.skip(e - i) =~= cs@.skip(e as int));
            assert(rest.take(e - i) =~= cs@.subrange(i as int, e as int));
            assert(text_lines(rest) == seq![cs@.subrange(i as int, e as int)] + text_lines(cs@.skip(e as int)));
            assert((done + text_lines(rest))[done.len() as int] == cs@.subrange(i as int, e as int));
            assert(block_line_readable(text_lines(text@)[done.len() as int]));
        }
        let line = block_line(text, &cs, i, e);
        let ghost line_text = cs@.subrange(i as int, e as int);
        let ghost before = out@.map_values(|e: BlockEntry| entry_view(e));
        match line {
            Some(entry) => {
                out.push(entry);
                assert(out@.map_values(|e: BlockEntry| entry_view(e)) =~= before.push(entry_view(entry)));
            },
            None => {},
        }
        proof {
            let next = done.push(line_text);
            assert(next.drop_last() =~= done);
            assert(next + text_lines(cs@.skip(e as int)) =~= done + text_lines(rest));
            done = next;
        }
        i = e;
    }
    assert(cs@.skip(n as int) =~= Seq::<char>::empty());
    assert(done =~= text_lines(cs@));
    out
}

} // verus!
