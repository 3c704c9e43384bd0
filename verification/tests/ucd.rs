use pixfont::ucd::source::blocks;
use pixfont::ucd::{Block, Codepoint};

#[test]
fn test_block_of() {
    [
        ('A', "Basic Latin"),
        ('î', "Latin-1 Supplement"),
        ('Ş', "Latin Extended-A"),
        ('ș', "Latin Extended-B"),
    ]
    .into_iter()
    .for_each(|(codepoint, expected)| {
        let Some(Block { name: actual, .. }) = Block::of(codepoint as u32) else {
            panic!("can't find block for '{codepoint}' (U+{:04X})", codepoint as u32)
        };

        assert_eq!(
            actual, expected,
            "block for '{codepoint}' (U+{:04X}) is incorrect. wanted \"{expected}\", got \"{actual}\"",
            codepoint as u32
        );
    });
}

#[test]
fn test_codepoint_of() {
    [
        ('A', "LATIN CAPITAL LETTER A"),
        ('î', "LATIN SMALL LETTER I WITH CIRCUMFLEX"),
        ('Ş', "LATIN CAPITAL LETTER S WITH CEDILLA"),
        ('ș', "LATIN SMALL LETTER S WITH COMMA BELOW"),
    ]
    .into_iter()
    .for_each(|(codepoint, expected)| {
        let Some(Codepoint { name: actual, .. }) = Codepoint::of(codepoint as u32) else {
            panic!("can't find codepoint for '{codepoint}' (U+{:04X})", codepoint as u32);
        };

        assert_eq!(
            actual, expected,
            "codepoint for '{codepoint}' (U+{:04X}) is incorrect. wanted \"{expected}\", got \"{actual}\"",
            codepoint as u32
        )
    });
}

#[test]
fn block_of_finds_the_range_holding_a_codepoint() {
    let block = Block::of(0x0250).unwrap();
    assert_eq!(block.name, "IPA Extensions");
    assert_eq!((block.range.start, block.range.last), (0x0250, 0x02AF));
    assert_eq!(Block::of(0x10FFFF).unwrap().name, "Supplementary Private Use Area-B");
    assert!(Block::of(0x0870 - 0x10).is_some());
    assert!(Block::of(0x110000).is_none());
    assert!(Block::of(0x2FE0).is_none());
}

#[test]
fn codepoint_aliases_hold_old_names() {
    let nul = Codepoint::of(0).unwrap();
    assert_eq!(nul.name, "<control>");
    assert_eq!(nul.aliases, &["NULL"]);
    assert!(Codepoint::of(0x41).unwrap().aliases.is_empty());
    assert_eq!(Codepoint::of(0xA6).unwrap().aliases, &["BROKEN VERTICAL BAR"]);
    assert_eq!(Block::all()[0].name, "Basic Latin");
}

#[test]
fn block_list_lines_are_read_in_order() {
    let text = "# Blocks-14.0.0.txt\n\n# Start Code..End Code; Block Name\n\n0000..007F; Basic Latin\n0080..00FF; Latin-1 Supplement\n\n# EOF\n";
    let list = blocks(text);
    assert_eq!(list.len(), 2);
    assert_eq!((list[0].range.start, list[0].range.last, list[0].name.as_str()), (0x0000, 0x007F, "Basic Latin"));
    assert_eq!((list[1].range.start, list[1].range.last, list[1].name.as_str()), (0x0080, 0x00FF, "Latin-1 Supplement"));
}

#[test]
fn block_list_names_are_trimmed_and_digits_take_either_case() {
    let list = blocks("1f600..1F64f;\t Emoticons \r\n10000..1007F; Linear B Syllabary");
    assert_eq!(list.len(), 2);
    assert_eq!((list[0].range.start, list[0].range.last, list[0].name.as_str()), (0x1F600, 0x1F64F, "Emoticons"));
    assert_eq!((list[1].range.start, list[1].range.last, list[1].name.as_str()), (0x10000, 0x1007F, "Linear B Syllabary"));
}

#[test]
fn block_list_lines_without_a_range_are_passed_over() {
    let list = blocks("no separator here\n0041; no dots\n0000..007F; Basic Latin\n");
    assert_eq!(list.len(), 1);
    assert_eq!(list[0].name, "Basic Latin");
    assert!(blocks("").is_empty());
}

#[test]
fn codepoints_up_to_latin_extended_b_are_named() {
    for c in (0u32..0x250).step_by(7) {
        assert_eq!(Codepoint::of(c).unwrap().codepoint, c);
    }
    assert_eq!(Codepoint::of(0x250).unwrap().name, "LATIN SMALL LETTER TURNED A");
}

#[test]
fn codepoints_beyond_latin_are_named_as_the_list_names_them() {
    assert_eq!(Codepoint::of(0x3B1).unwrap().name, "GREEK SMALL LETTER ALPHA");
    assert_eq!(Codepoint::of(0x1F600).unwrap().name, "GRINNING FACE");
    assert_eq!(Codepoint::of(0x2028).unwrap().name, "LINE SEPARATOR");
    // A range of ideographs is listed by its first and last codepoint only.
    assert_eq!(Codepoint::of(0x4E00).unwrap().name, "<CJK Ideograph, First>");
    assert_eq!(Codepoint::of(0x9FFF).unwrap().name, "<CJK Ideograph, Last>");
    assert!(Codepoint::of(0x4E01).is_none());
    // Unassigned codepoints have no entry.
    assert!(Codepoint::of(0x378).is_none());
    assert!(Codepoint::of(0x10FFFF).is_none());
    assert_eq!(Codepoint::all().len(), 34626);
}
