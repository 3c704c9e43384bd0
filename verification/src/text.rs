//! Text: decimal and hexadecimal numbers, searching, splitting into lines,
//! and trimming white space.
use vstd::prelude::*;

verus! {

pub open spec fn is_ascii_digit(c: char) -> bool {
    '0' <= c <= '9'
}

/// The number that a string of decimal digits spells.
pub open spec fn digits_value(s: Seq<char>) -> nat
    decreases s.len(),
{
    if s.len() == 0 {
        0
    } else {
        digits_value(s.drop_last()) * 10 + ((s.last() as int - '0' as int) as nat)
    }
}

/// The digits of an unsigned number: the text after a leading `+`, if any.
pub open spec fn unsigned_digits(s: Seq<char>) -> Seq<char> {
    if s.len() > 0 && s[0] == '+' {
        s.drop_first()
    } else {
        s
    }
}

/// What `str::parse::<u32>` reads: an optional `+` and then one or more
/// decimal digits whose value fits a `u32`.
pub open spec fn parse_u32_spec(s: Seq<char>) -> Option<u32> {
    let digits = unsigned_digits(s);
    if digits.len() > 0 && (forall|i: int| 0 <= i < digits.len() ==> is_ascii_digit(#[trigger] digits[i]))
        && digits_value(digits) <= u32::MAX {
        Some(digits_value(digits) as u32)
    } else {
        None
    }
}

/// The digit character for `d < 10`.
pub open spec fn digit_char(d: nat) -> char {
    ('0' as int + d) as char
}

/// The decimal digits of `n`, without leading zeros.
pub open spec fn decimal(n: nat) -> Seq<char>
    decreases n,
{
    if n < 10 {
        seq![digit_char(n)]
    } else {
        decimal(n / 10).push(digit_char(n % 10))
    }
}

/// A longer run of decimal digits spells at least what its beginning does.
proof fn lemma_digits_prefix(s: Seq<char>, i: int)
    requires
        0 <= i <= s.len(),
    ensures
        digits_value(s.take(i)) <= digits_value(s),
    decreases s.len() - i,
{
    if i < s.len() {
        lemma_digits_prefix(s.drop_last(), i);
        assert(s.drop_last().take(i) =~= s.take(i));
    } else {
        assert(s.take(i) =~= s);
    }
}

/// Reads a decimal number as `str::parse::<u32>` does: an optional `+`
/// sign followed by decimal digits, the value fitting in a `u32`.
pub(crate) fn parse_u32(s: &str) -> (r: Option<u32>)
    ensures
        r == parse_u32_spec(s@),
{
    let n = s.unicode_len();
    let mut start: usize = 0;
    if n > 0 && s.get_char(0) == '+' {
        start = 1;
    }
    let ghost digits = s@.subrange(start as int, n as int);
    assert(digits =~= unsigned_digits(s@));
    if start == n {
        return None;
    }
    let mut v: u64 = 0;
    let mut i = start;
    assert(digits.take(0) =~= Seq::<char>::empty());
    while i < n
        invariant
            n == s@.len(),
            start <= i <= n,
            start < n,
            digits == s@.subrange(start as int, n as int),
            digits == unsigned_digits(s@),
            v == digits_value(digits.take(i - start)),
            v <= u32::MAX,
            forall|k: int| 0 <= k < i - start ==> is_ascii_digit(#[trigger] digits[k]),
        decreases n - i,
    {
        let c = s.get_char(i);
        assert(c == digits[i - start]);
        if !('0' <= c && c <= '9') {
            assert(!is_ascii_digit(digits[i - start]));
            return None;
        }
        let d: u64 = (c as u32 - '0' as u32) as u64;
        assert(digits.take(i - start + 1).drop_last() =~= digits.take(i - start));
        v = v * 10 + d;
        assert(v == digits_value(digits.take(i - start + 1)));
        if v > 0xffff_ffff {
            proof {
                if forall|k: int| 0 <= k < digits.len() ==> is_ascii_digit(#[trigger] digits[k]) {
                    lemma_digits_prefix(digits, i - start + 1);
                }
            }
            return None;
        }
        i += 1;
    }
    assert(digits.take(n - start) =~= digits);
    Some(v as u32)
}

/// The digit `d` as text.
fn digit_text(d: u32) -> (s: &'static str)
    requires
        d < 10,
    ensures
        s@ == seq![digit_char(d as nat)],
{
    match d {
        0 => {
            proof {
                reveal_strlit("0");
            }
            "0"
        },
        1 => {
            proof {
                reveal_strlit("1");
            }
            "1"
        },
        2 => {
            proof {
                reveal_strlit("2");
            }
            "2"
        },
        3 => {
            proof {
                reveal_strlit("3");
            }
            "3"
        },
        4 => {
            proof {
                reveal_strlit("4");
            }
            "4"
        },
        5 => {
            proof {
                reveal_strlit("5");
            }
            "5"
        },
        6 => {
            proof {
                reveal_strlit("6");
            }
            "6"
        },
        7 => {
            proof {
                reveal_strlit("7");
            }
            "7"
        },
        8 => {
            proof {
                reveal_strlit("8");
            }
            "8"
        },
        _ => {
            proof {
                reveal_strlit("9");
            }
            "9"
        },
    }
}

/// The decimal digits of `n`, as `u32::to_string` writes them.
pub(crate) fn decimal_string(n: u32) -> (s: String)
    ensures
        s@ == decimal(n as nat),
    decreases n,
{
    if n < 10 {
        String::from_str(digit_text(n))
    } else {
        let mut s = decimal_string(n / 10);
        s.append(digit_text(n % 10));
        s
    }
}

/// Whether two strings hold the same characters.
pub fn same_text(a: &str, b: &str) -> (r: bool)
    ensures
        r == (a@ == b@),
{
    let a = a.to_owned();
    let b = b.to_owned();
    a == b
}

/// `c` in upper case if it is an ASCII letter.
pub open spec fn ascii_upper(c: char) -> char {
    if 'a' <= c <= 'z' { ((c as int) - 32) as char } else { c }
}

/// `c` in lower case if it is an ASCII letter; the Kelvin sign, the one
/// other character whose lower case is ASCII, becomes `k`.
pub open spec fn ascii_lower(c: char) -> char {
    if 'A' <= c <= 'Z' {
        ((c as int) + 32) as char
    } else if c == '\u{212A}' {
        'k'
    } else {
        c
    }
}

/// The ASCII character with code `v`.
fn ascii_char(v: u32) -> (c: char)
    requires
        v < 128,
    ensures
        c as int == v,
{
    let b: u8 = v as u8;
    b as char
}

pub fn to_ascii_upper(c: char) -> (d: char)
    ensures
        d == ascii_upper(c),
{
    if 'a' <= c && c <= 'z' {
        let v = (c as u32) - 32;
        ascii_char(v)
    } else {
        c
    }
}

pub fn to_ascii_lower(c: char) -> (d: char)
    ensures
        d == ascii_lower(c),
{
    if 'A' <= c && c <= 'Z' {
        let v = (c as u32) + 32;
        ascii_char(v)
    } else if c == '\u{212A}' {
        'k'
    } else {
        c
    }
}


// ---------------------------------------------------------------------------
// Hexadecimal numbers

pub open spec fn is_hex_digit(c: char) -> bool {
    ('0' <= c <= '9') || ('a' <= c <= 'f') || ('A' <= c <= 'F')
}

/// The value of a hexadecimal digit.
pub open spec fn hex_digit_value(c: char) -> nat {
    if '0' <= c <= '9' {
        (c as int - '0' as int) as nat
    } else if 'a' <= c <= 'f' {
        (c as int - 'a' as int + 10) as nat
    } else {
        (c as int - 'A' as int + 10) as nat
    }
}

/// The number that a string of hexadecimal digits spells.
pub open spec fn hex_digits_value(s: Seq<char>) -> nat
    decreases s.len(),
{
    if s.len() == 0 {
        0
    } else {
        hex_digits_value(s.drop_last()) * 16 + hex_digit_value(s.last())
    }
}

/// What `u32::from_str_radix(s, 16)` reads: an optional `+` and then one or
/// more hexadecimal digits, of either case, whose value fits a `u32`.
pub open spec fn parse_hex_spec(s: Seq<char>) -> Option<u32> {
    let digits = unsigned_digits(s);
    if digits.len() > 0 && (forall|i: int| 0 <= i < digits.len() ==> is_hex_digit(#[trigger] digits[i]))
        && hex_digits_value(digits) <= u32::MAX {
        Some(hex_digits_value(digits) as u32)
    } else {
        None
    }
}

/// A longer run of hexadecimal digits spells at least what its beginning does.
proof fn lemma_hex_digits_prefix(s: Seq<char>, i: int)
    requires
        0 <= i <= s.len(),
    ensures
        hex_digits_value(s.take(i)) <= hex_digits_value(s),
    decreases s.len() - i,
{
    if i < s.len() {
        lemma_hex_digits_prefix(s.drop_last(), i);
        assert(s.drop_last().take(i) =~= s.take(i));
    } else {
        assert(s.take(i) =~= s);
    }
}

/// Reads a hexadecimal number as `u32::from_str_radix(s, 16)` does: an
/// optional `+` sign followed by digits `0`-`9`, `a`-`f` or `A`-`F`, the
/// value fitting in a `u32`.
pub(crate) fn parse_hex(s: &str) -> (r: Option<u32>)
    ensures
        r == parse_hex_spec(s@),
{
    let n = s.unicode_len();
    let mut start: usize = 0;
    if n > 0 && s.get_char(0) == '+' {
        start = 1;
    }
    let ghost digits = s@.subrange(start as int, n as int);
    assert(digits =~= unsigned_digits(s@));
    if start == n {
        return None;
    }
    let mut v: u64 = 0;
    let mut i = start;
    assert(digits.take(0) =~= Seq::<char>::empty());
    while i < n
        invariant
            n == s@.len(),
            start <= i <= n,
            start < n,
            digits == s@.subrange(start as int, n as int),
            digits == unsigned_digits(s@),
            v == hex_digits_value(digits.take(i - start)),
            v <= u32::MAX,
            forall|k: int| 0 <= k < i - start ==> is_hex_digit(#[trigger] digits[k]),
        decreases n - i,
    {
        let c = s.get_char(i);
        assert(c == digits[i - start]);
        let d: u64 = if '0' <= c && c <= '9' {
            (c as u32 - '0' as u32) as u64
        } else if 'a' <= c && c <= 'f' {
            (c as u32 - 'a' as u32 + 10) as u64
        } else if 'A' <= c && c <= 'F' {
            (c as u32 - 'A' as u32 + 10) as u64
        } else {
            assert(!is_hex_digit(digits[i - start]));
            return None;
        };
        assert(d == hex_digit_value(c));
        assert(digits.take(i - start + 1).drop_last() =~= digits.take(i - start));
        v = v * 16 + d;
        assert(v == hex_digits_value(digits.take(i - start + 1)));
        if v > 0xffff_ffff {
            proof {
                if forall|k: int| 0 <= k < digits.len() ==> is_hex_digit(#[trigger] digits[k]) {
                    lemma_hex_digits_prefix(digits, i - start + 1);
                }
            }
            return None;
        }
        i += 1;
    }
    assert(digits.take(n - start) =~= digits);
    Some(v as u32)
}

// ---------------------------------------------------------------------------
// Searching and splitting

/// `p` occurs in `t` at position `i`.
pub open spec fn occurs_at(t: Seq<char>, p: Seq<char>, i: int) -> bool {
    0 <= i && i + p.len() <= t.len() && t.subrange(i, i + p.len()) == p
}

/// `i` is where `p` first occurs in `t`.
pub open spec fn first_occurrence(t: Seq<char>, p: Seq<char>, i: int) -> bool {
    occurs_at(t, p, i) && forall|j: int| 0 <= j < i ==> !occurs_at(t, p, j)
}

/// Where `p` first occurs in `t`, if it does.
pub open spec fn find(t: Seq<char>, p: Seq<char>) -> Option<int> {
    if exists|i: int| first_occurrence(t, p, i) {
        Some(choose|i: int| first_occurrence(t, p, i))
    } else {
        None
    }
}

/// `t` split around the first occurrence of `p`, as `str::split_once` does.
pub open spec fn split_once(t: Seq<char>, p: Seq<char>) -> Option<(Seq<char>, Seq<char>)> {
    match find(t, p) {
        Some(i) => Some((t.take(i), t.skip(i + p.len()))),
        None => None,
    }
}

/// What `find` gives is where `p` first occurs.
pub proof fn lemma_find_some(t: Seq<char>, p: Seq<char>)
    ensures
        find(t, p) matches Some(i) ==> first_occurrence(t, p, i),
{
}

proof fn lemma_first_occurrence_unique(t: Seq<char>, p: Seq<char>, i: int)
    requires
        first_occurrence(t, p, i),
    ensures
        find(t, p) == Some(i),
{
    let j = choose|j: int| first_occurrence(t, p, j);
    assert(first_occurrence(t, p, j));
    if j < i {
        assert(!occurs_at(t, p, j));
    } else if i < j {
        assert(!occurs_at(t, p, i));
    }
}

/// The characters of `s`.
pub fn chars_of(s: &str) -> (v: Vec<char>)
    ensures
        v@ == s@,
{
    let n = s.unicode_len();
    let mut v: Vec<char> = Vec::new();
    let mut i: usize = 0;
    while i < n
        invariant
            n == s@.len(),
            i <= n,
            v@ == s@.take(i as int),
        decreases n - i,
    {
        v.push(s.get_char(i));
        assert(v@ =~= s@.take(i + 1));
        i += 1;
    }
    assert(v@ =~= s@);
    v
}

/// Where `p` first occurs in `cs[a..b]`, counted from `a`.
pub fn find_in(cs: &Vec<char>, a: usize, b: usize, p: &Vec<char>) -> (r: Option<usize>)
    requires
        a <= b <= cs@.len(),
    ensures
        match r {
            Some(k) => find(cs@.subrange(a as int, b as int), p@) == Some(k as int),
            None => find(cs@.subrange(a as int, b as int), p@) is None,
        },
{
    let ghost t = cs@.subrange(a as int, b as int);
    let m = p.len();
    if m > b - a {
        assert forall|i: int| !#[trigger] first_occurrence(t, p@, i) by {}
        return None;
    }
    let last = b - a - m;
    let mut i: usize = 0;
    loop
        invariant
            t == cs@.subrange(a as int, b as int),
            a <= b <= cs@.len(),
            m == p@.len(),
            last == b - a - m,
            i <= last,
            forall|j: int| 0 <= j < i ==> !occurs_at(t, p@, j),
        ensures
            forall|j: int| 0 <= j <= last ==> !occurs_at(t, p@, j),
        decreases last - i,
    {
        let mut k: usize = 0;
        let mut same = true;
        while k < m
            invariant
                t == cs@.subrange(a as int, b as int),
                a <= b <= cs@.len(),
                m == p@.len(),
                i + m <= b - a,
                k <= m,
                same ==> t.subrange(i as int, i + k) == p@.take(k as int),
                !same ==> !occurs_at(t, p@, i as int),
            decreases m - k,
        {
            if cs[a + i + k] != p[k] {
                assert(t.subrange(i as int, i + m)[k as int] != p@[k as int]);
                same = false;
                k = m;
            } else {
                assert(t.subrange(i as int, i + k + 1) =~= t.subrange(i as int, i + k).push(t[i + k]));
                assert(p@.take(k + 1) =~= p@.take(k as int).push(p@[k as int]));
                k += 1;
            }
        }
        if same {
            assert(p@.take(m as int) =~= p@);
            assert(first_occurrence(t, p@, i as int));
            proof {
                lemma_first_occurrence_unique(t, p@, i as int);
            }
            return Some(i);
        }
        if i == last {
            break;
        }
        i += 1;
    }
    assert forall|j: int| !#[trigger] first_occurrence(t, p@, j) by {
        if first_occurrence(t, p@, j) {
            assert(occurs_at(t, p@, j));
        }
    }
    None
}

// ---------------------------------------------------------------------------
// Lines

/// How long the first line of `t` is: up to and including its `\n`, or all
/// of `t` where there is none.
pub open spec fn line_length(t: Seq<char>) -> int {
    match find(t, seq!['\n']) {
        Some(i) => i + 1,
        None => t.len() as int,
    }
}

pub proof fn lemma_line_length(t: Seq<char>)
    requires
        t.len() > 0,
    ensures
        0 < line_length(t) <= t.len(),
{
    if let Some(i) = find(t, seq!['\n']) {
        let j = choose|j: int| first_occurrence(t, seq!['\n'], j);
        assert(first_occurrence(t, seq!['\n'], j));
    }
}

/// The lines of `t` as reading it line by line gives them: each with its
/// closing `\n`, the last without one where `t` does not end in `\n`.
pub open spec fn text_lines(t: Seq<char>) -> Seq<Seq<char>>
    decreases t.len(),
{
    if t.len() == 0 {
        seq![]
    } else {
        proof {
            lemma_line_length(t);
        }
        seq![t.take(line_length(t))] + text_lines(t.skip(line_length(t)))
    }
}

// ---------------------------------------------------------------------------
// White space

/// `c` has the Unicode `White_Space` property, which `char::is_whitespace`
/// tests.
pub open spec fn is_white_space(c: char) -> bool {
    ||| '\u{9}' <= c <= '\u{d}'
    ||| c == ' '
    ||| c == '\u{85}'
    ||| c == '\u{a0}'
    ||| c == '\u{1680}'
    ||| '\u{2000}' <= c <= '\u{200a}'
    ||| c == '\u{2028}'
    ||| c == '\u{2029}'
    ||| c == '\u{202f}'
    ||| c == '\u{205f}'
    ||| c == '\u{3000}'
}

pub fn white_space(c: char) -> (r: bool)
    ensures
        r == is_white_space(c),
{
    ('\u{9}' <= c && c <= '\u{d}') || c == ' ' || c == '\u{85}' || c == '\u{a0}' || c == '\u{1680}'
        || ('\u{2000}' <= c && c <= '\u{200a}') || c == '\u{2028}' || c == '\u{2029}' || c == '\u{202f}'
        || c == '\u{205f}' || c == '\u{3000}'
}

/// `t` without the white space it starts with.
pub open spec fn trim_start(t: Seq<char>) -> Seq<char>
    decreases t.len(),
{
    if t.len() > 0 && is_white_space(t[0]) {
        trim_start(t.drop_first())
    } else {
        t
    }
}

/// `t` without the white space it ends with.
pub open spec fn trim_end(t: Seq<char>) -> Seq<char>
    decreases t.len(),
{
    if t.len() > 0 && is_white_space(t.last()) {
        trim_end(t.drop_last())
    } else {
        t
    }
}

/// `t` without white space at either end, as `str::trim` gives it.
pub open spec fn trim(t: Seq<char>) -> Seq<char> {
    trim_end(trim_start(t))
}

/// The bounds of `cs[a..b]` without the white space at either end.
pub fn trim_bounds(cs: &Vec<char>, a: usize, b: usize) -> (r: (usize, usize))
    requires
        a <= b <= cs@.len(),
    ensures
        a <= r.0 <= r.1 <= b,
        cs@.subrange(r.0 as int, r.1 as int) == trim(cs@.subrange(a as int, b as int)),
{
    let mut i = a;
    while i < b && white_space(cs[i])
        invariant
            a <= i <= b <= cs@.len(),
            trim_start(cs@.subrange(a as int, b as int)) == trim_start(cs@.subrange(i as int, b as int)),
        decreases b - i,
    {
        assert(cs@.subrange(i as int, b as int).drop_first() =~= cs@.subrange(i + 1, b as int));
        i += 1;
    }
    let mut j = b;
    while j > i && white_space(cs[j - 1])
        invariant
            a <= i <= j <= b <= cs@.len(),
            trim_start(cs@.subrange(a as int, b as int)) == cs@.subrange(i as int, b as int),
            trim_end(cs@.subrange(i as int, b as int)) == trim_end(cs@.subrange(i as int, j as int)),
        decreases j - i,
    {
        assert(cs@.subrange(i as int, j as int).drop_last() =~= cs@.subrange(i as int, j - 1));
        j -= 1;
    }
    (i, j)
}

} // verus!
