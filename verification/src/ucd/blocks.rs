//! The Unicode blocks, from the Unicode Character Database (version 14.0.0).
use vstd::prelude::*;

use crate::ucd::{Block, CodeRange};

verus! {

pub open spec fn block_table_0() -> Seq<Block> {
    seq![
        Block { range: CodeRange { start: 0x0000, last: 0x007F }, name: "Basic Latin" },
        Block { range: CodeRange { start: 0x0080, last: 0x00FF }, name: "Latin-1 Supplement" },
        Block { range: CodeRange { start: 0x0100, last: 0x017F }, name: "Latin Extended-A" },
        Block { range: CodeRange { start: 0x0180, last: 0x024F }, name: "Latin Extended-B" },
        Block { range: CodeRange { start: 0x0250, last: 0x02AF }, name: "IPA Extensions" },
        Block { range: CodeRange { start: 0x02B0, last: 0x02FF }, name: "Spacing Modifier Letters" },
        Block { range: CodeRange { start: 0x0300, last: 0x036F }, name: "Combining Diacritical Marks" },
        Block { range: CodeRange { start: 0x0370, last: 0x03FF }, name: "Greek and Coptic" },
        Block { range: CodeRange { start: 0x0400, last: 0x04FF }, name: "Cyrillic" },
        Block { range: CodeRange { start: 0x0500, last: 0x052F }, name: "Cyrillic Supplement" },
        Block { range: CodeRange { start: 0x0530, last: 0x058F }, name: "Armenian" },
        Block { range: CodeRange { start: 0x0590, last: 0x05FF }, name: "Hebrew" },
        Block { range: CodeRange { start: 0x0600, last: 0x06FF }, name: "Arabic" },
        Block { range: CodeRange { start: 0x0700, last: 0x074F }, name: "Syriac" },
        Block { range: CodeRange { start: 0x0750, last: 0x077F }, name: "Arabic Supplement" },
        Block { range: CodeRange { start: 0x0780, last: 0x07BF }, name: "Thaana" },
        Block { range: CodeRange { start: 0x07C0, last: 0x07FF }, name: "NKo" },
        Block { range: CodeRange { start: 0x0800, last: 0x083F }, name: "Samaritan" },
        Block { range: CodeRange { start: 0x0840, last: 0x085F }, name: "Mandaic" },
        Block { range: CodeRange { start: 0x0860, last: 0x086F }, name: "Syriac Supplement" },
        Block { range: CodeRange { start: 0x0870, last: 0x089F }, name: "Arabic Extended-B" },
        Block { range: CodeRange { start: 0x08A0, last: 0x08FF }, name: "Arabic Extended-A" },
        Block { range: CodeRange { start: 0x0900, last: 0x097F }, name: "Devanagari" },
        Block { range: CodeRange { start: 0x0980, last: 0x09FF }, name: "Bengali" },
        Block { range: CodeRange { start: 0x0A00, last: 0x0A7F }, name: "Gurmukhi" },
        Block { range: CodeRange { start: 0x0A80, last: 0x0AFF }, name: "Gujarati" },
        Block { range: CodeRange { start: 0x0B00, last: 0x0B7F }, name: "Oriya" },
        Block { range: CodeRange { start: 0x0B80, last: 0x0BFF }, name: "Tamil" },
        Block { range: CodeRange { start: 0x0C00, last: 0x0C7F }, name: "Telugu" },
        Block { range: CodeRange { start: 0x0C80, last: 0x0CFF }, name: "Kannada" },
        Block { range: CodeRange { start: 0x0D00, last: 0x0D7F }, name: "Malayalam" },
        Block { range: CodeRange { start: 0x0D80, last: 0x0DFF }, name: "Sinhala" },
        Block { range: CodeRange { start: 0x0E00, last: 0x0E7F }, name: "Thai" },
        Block { range: CodeRange { start: 0x0E80, last: 0x0EFF }, name: "Lao" },
        Block { range: CodeRange { start: 0x0F00, last: 0x0FFF }, name: "Tibetan" },
        Block { range: CodeRange { start: 0x1000, last: 0x109F }, name: "Myanmar" },
        Block { range: CodeRange { start: 0x10A0, last: 0x10FF }, name: "Georgian" },
        Block { range: CodeRange { start: 0x1100, last: 0x11FF }, name: "Hangul Jamo" },
        Block { range: CodeRange { start: 0x1200, last: 0x137F }, name: "Ethiopic" },
        Block { range: CodeRange { start: 0x1380, last: 0x139F }, name: "Ethiopic Supplement" },
    ]
}

fn all_blocks_0() -> (v: Vec<Block>)
    ensures
        v@ == block_table_0(),
{
    let v = vec![
        Block { range: CodeRange { start: 0x0000, last: 0x007F }, name: "Basic Latin" },
        Block { range: CodeRange { start: 0x0080, last: 0x00FF }, name: "Latin-1 Supplement" },
        Block { range: CodeRange { start: 0x0100, last: 0x017F }, name: "Latin Extended-A" },
        Block { range: CodeRange { start: 0x0180, last: 0x024F }, name: "Latin Extended-B" },
        Block { range: CodeRange { start: 0x0250, last: 0x02AF }, name: "IPA Extensions" },
        Block { range: CodeRange { start: 0x02B0, last: 0x02FF }, name: "Spacing Modifier Letters" },
        Block { range: CodeRange { start: 0x0300, last: 0x036F }, name: "Combining Diacritical Marks" },
        Block { range: CodeRange { start: 0x0370, last: 0x03FF }, name: "Greek and Coptic" },
        Block { range: CodeRange { start: 0x0400, last: 0x04FF }, name: "Cyrillic" },
        Block { range: CodeRange { start: 0x0500, last: 0x052F }, name: "Cyrillic Supplement" },
        Block { range: CodeRange { start: 0x0530, last: 0x058F }, name: "Armenian" },
        Block { range: CodeRange { start: 0x0590, last: 0x05FF }, name: "Hebrew" },
        Block { range: CodeRange { start: 0x0600, last: 0x06FF }, name: "Arabic" },
        Block { range: CodeRange { start: 0x0700, last: 0x074F }, name: "Syriac" },
        Block { range: CodeRange { start: 0x0750, last: 0x077F }, name: "Arabic Supplement" },
        Block { range: CodeRange { start: 0x0780, last: 0x07BF }, name: "Thaana" },
        Block { range: CodeRange { start: 0x07C0, last: 0x07FF }, name: "NKo" },
        Block { range: CodeRange { start: 0x0800, last: 0x083F }, name: "Samaritan" },
        Block { range: CodeRange { start: 0x0840, last: 0x085F }, name: "Mandaic" },
        Block { range: CodeRange { start: 0x0860, last: 0x086F }, name: "Syriac Supplement" },
        Block { range: CodeRange { start: 0x0870, last: 0x089F }, name: "Arabic Extended-B" },
        Block { range: CodeRange { start: 0x08A0, last: 0x08FF }, name: "Arabic Extended-A" },
        Block { range: CodeRange { start: 0x0900, last: 0x097F }, name: "Devanagari" },
        Block { range: CodeRange { start: 0x0980, last: 0x09FF }, name: "Bengali" },
        Block { range: CodeRange { start: 0x0A00, last: 0x0A7F }, name: "Gurmukhi" },
        Block { range: CodeRange { start: 0x0A80, last: 0x0AFF }, name: "Gujarati" },
        Block { range: CodeRange { start: 0x0B00, last: 0x0B7F }, name: "Oriya" },
        Block { range: CodeRange { start: 0x0B80, last: 0x0BFF }, name: "Tamil" },
        Block { range: CodeRange { start: 0x0C00, last: 0x0C7F }, name: "Telugu" },
        Block { range: CodeRange { start: 0x0C80, last: 0x0CFF }, name: "Kannada" },
        Block { range: CodeRange { start: 0x0D00, last: 0x0D7F }, name: "Malayalam" },
        Block { range: CodeRange { start: 0x0D80, last: 0x0DFF }, name: "Sinhala" },
        Block { range: CodeRange { start: 0x0E00, last: 0x0E7F }, name: "Thai" },
        Block { range: CodeRange { start: 0x0E80, last: 0x0EFF }, name: "Lao" },
        Block { range: CodeRange { start: 0x0F00, last: 0x0FFF }, name: "Tibetan" },
        Block { range: CodeRange { start: 0x1000, last: 0x109F }, name: "Myanmar" },
        Block { range: CodeRange { start: 0x10A0, last: 0x10FF }, name: "Georgian" },
        Block { range: CodeRange { start: 0x1100, last: 0x11FF }, name: "Hangul Jamo" },
        Block { range: CodeRange { start: 0x1200, last: 0x137F }, name: "Ethiopic" },
        Block { range: CodeRange { start: 0x1380, last: 0x139F }, name: "Ethiopic Supplement" },
    ];
    assert(v@ =~= block_table_0());
    v
}

pub open spec fn block_table_1() -> Seq<Block> {
    seq![
        Block { range: CodeRange { start: 0x13A0, last: 0x13FF }, name: "Cherokee" },
        Block { range: CodeRange { start: 0x1400, last: 0x167F }, name: "Unified Canadian Aboriginal Syllabics" },
        Block { range: CodeRange { start: 0x1680, last: 0x169F }, name: "Ogham" },
        Block { range: CodeRange { start: 0x16A0, last: 0x16FF }, name: "Runic" },
        Block { range: CodeRange { start: 0x1700, last: 0x171F }, name: "Tagalog" },
        Block { range: CodeRange { start: 0x1720, last: 0x173F }, name: "Hanunoo" },
        Block { range: CodeRange { start: 0x1740, last: 0x175F }, name: "Buhid" },
        Block { range: CodeRange { start: 0x1760, last: 0x177F }, name: "Tagbanwa" },
        Block { range: CodeRange { start: 0x1780, last: 0x17FF }, name: "Khmer" },
        Block { range: CodeRange { start: 0x1800, last: 0x18AF }, name: "Mongolian" },
        Block { range: CodeRange { start: 0x18B0, last: 0x18FF }, name: "Unified Canadian Aboriginal Syllabics Extended" },
        Block { range: CodeRange { start: 0x1900, last: 0x194F }, name: "Limbu" },
        Block { range: CodeRange { start: 0x1950, last: 0x197F }, name: "Tai Le" },
        Block { range: CodeRange { start: 0x1980, last: 0x19DF }, name: "New Tai Lue" },
        Block { range: CodeRange { start: 0x19E0, last: 0x19FF }, name: "Khmer Symbols" },
        Block { range: CodeRange { start: 0x1A00, last: 0x1A1F }, name: "Buginese" },
        Block { range: CodeRange { start: 0x1A20, last: 0x1AAF }, name: "Tai Tham" },
        Block { range: CodeRange { start: 0x1AB0, last: 0x1AFF }, name: "Combining Diacritical Marks Extended" },
        Block { range: CodeRange { start: 0x1B00, last: 0x1B7F }, name: "Balinese" },
        Block { range: CodeRange { start: 0x1B80, last: 0x1BBF }, name: "Sundanese" },
        Block { range: CodeRange { start: 0x1BC0, last: 0x1BFF }, name: "Batak" },
        Block { range: CodeRange { start: 0x1C00, last: 0x1C4F }, name: "Lepcha" },
        Block { range: CodeRange { start: 0x1C50, last: 0x1C7F }, name: "Ol Chiki" },
        Block { range: CodeRange { start: 0x1C80, last: 0x1C8F }, name: "Cyrillic Extended-C" },
        Block { range: CodeRange { start: 0x1C90, last: 0x1CBF }, name: "Georgian Extended" },
        Block { range: CodeRange { start: 0x1CC0, last: 0x1CCF }, name: "Sundanese Supplement" },
        Block { range: CodeRange { start: 0x1CD0, last: 0x1CFF }, name: "Vedic Extensions" },
        Block { range: CodeRange { start: 0x1D00, last: 0x1D7F }, name: "Phonetic Extensions" },
        Block { range: CodeRange { start: 0x1D80, last: 0x1DBF }, name: "Phonetic Extensions Supplement" },
        Block { range: CodeRange { start: 0x1DC0, last: 0x1DFF }, name: "Combining Diacritical Marks Supplement" },
        Block { range: CodeRange { start: 0x1E00, last: 0x1EFF }, name: "Latin Extended Additional" },
        Block { range: CodeRange { start: 0x1F00, last: 0x1FFF }, name: "Greek Extended" },
        Block { range: CodeRange { start: 0x2000, last: 0x206F }, name: "General Punctuation" },
        Block { range: CodeRange { start: 0x2070, last: 0x209F }, name: "Superscripts and Subscripts" },
        Block { range: CodeRange { start: 0x20A0, last: 0x20CF }, name: "Currency Symbols" },
        Block { range: CodeRange { start: 0x20D0, last: 0x20FF }, name: "Combining Diacritical Marks for Symbols" },
        Block { range: CodeRange { start: 0x2100, last: 0x214F }, name: "Letterlike Symbols" },
        Block { range: CodeRange { start: 0x2150, last: 0x218F }, name: "Number Forms" },
        Block { range: CodeRange { start: 0x2190, last: 0x21FF }, name: "Arrows" },
        Block { range: CodeRange { start: 0x2200, last: 0x22FF }, name: "Mathematical Operators" },
    ]
}

fn all_blocks_1() -> (v: Vec<Block>)
    ensures
        v@ == block_table_1(),
{
    let v = vec![
        Block { range: CodeRange { start: 0x13A0, last: 0x13FF }, name: "Cherokee" },
        Block { range: CodeRange { start: 0x1400, last: 0x167F }, name: "Unified Canadian Aboriginal Syllabics" },
        Block { range: CodeRange { start: 0x1680, last: 0x169F }, name: "Ogham" },
        Block { range: CodeRange { start: 0x16A0, last: 0x16FF }, name: "Runic" },
        Block { range: CodeRange { start: 0x1700, last: 0x171F }, name: "Tagalog" },
        Block { range: CodeRange { start: 0x1720, last: 0x173F }, name: "Hanunoo" },
        Block { range: CodeRange { start: 0x1740, last: 0x175F }, name: "Buhid" },
        Block { range: CodeRange { start: 0x1760, last: 0x177F }, name: "Tagbanwa" },
        Block { range: CodeRange { start: 0x1780, last: 0x17FF }, name: "Khmer" },
        Block { range: CodeRange { start: 0x1800, last: 0x18AF }, name: "Mongolian" },
        Block { range: CodeRange { start: 0x18B0, last: 0x18FF }, name: "Unified Canadian Aboriginal Syllabics Extended" },
        Block { range: CodeRange { start: 0x1900, last: 0x194F }, name: "Limbu" },
        Block { range: CodeRange { start: 0x1950, last: 0x197F }, name: "Tai Le" },
        Block { range: CodeRange { start: 0x1980, last: 0x19DF }, name: "New Tai Lue" },
        Block { range: CodeRange { start: 0x19E0, last: 0x19FF }, name: "Khmer Symbols" },
        Block { range: CodeRange { start: 0x1A00, last: 0x1A1F }, name: "Buginese" },
        Block { range: CodeRange { start: 0x1A20, last: 0x1AAF }, name: "Tai Tham" },
        Block { range: CodeRange { start: 0x1AB0, last: 0x1AFF }, name: "Combining Diacritical Marks Extended" },
        Block { range: CodeRange { start: 0x1B00, last: 0x1B7F }, name: "Balinese" },
        Block { range: CodeRange { start: 0x1B80, last: 0x1BBF }, name: "Sundanese" },
        Block { range: CodeRange { start: 0x1BC0, last: 0x1BFF }, name: "Batak" },
        Block { range: CodeRange { start: 0x1C00, last: 0x1C4F }, name: "Lepcha" },
        Block { range: CodeRange { start: 0x1C50, last: 0x1C7F }, name: "Ol Chiki" },
        Block { range: CodeRange { start: 0x1C80, last: 0x1C8F }, name: "Cyrillic Extended-C" },
        Block { range: CodeRange { start: 0x1C90, last: 0x1CBF }, name: "Georgian Extended" },
        Block { range: CodeRange { start: 0x1CC0, last: 0x1CCF }, name: "Sundanese Supplement" },
        Block { range: CodeRange { start: 0x1CD0, last: 0x1CFF }, name: "Vedic Extensions" },
        Block { range: CodeRange { start: 0x1D00, last: 0x1D7F }, name: "Phonetic Extensions" },
        Block { range: CodeRange { start: 0x1D80, last: 0x1DBF }, name: "Phonetic Extensions Supplement" },
        Block { range: CodeRange { start: 0x1DC0, last: 0x1DFF }, name: "Combining Diacritical Marks Supplement" },
        Block { range: CodeRange { start: 0x1E00, last: 0x1EFF }, name: "Latin Extended Additional" },
        Block { range: CodeRange { start: 0x1F00, last: 0x1FFF }, name: "Greek Extended" },
        Block { range: CodeRange { start: 0x2000, last: 0x206F }, name: "General Punctuation" },
        Block { range: CodeRange { start: 0x2070, last: 0x209F }, name: "Superscripts and Subscripts" },
        Block { range: CodeRange { start: 0x20A0, last: 0x20CF }, name: "Currency Symbols" },
        Block { range: CodeRange { start: 0x20D0, last: 0x20FF }, name: "Combining Diacritical Marks for Symbols" },
        Block { range: CodeRange { start: 0x2100, last: 0x214F }, name: "Letterlike Symbols" },
        Block { range: CodeRange { start: 0x2150, last: 0x218F }, name: "Number Forms" },
        Block { range: CodeRange { start: 0x2190, last: 0x21FF }, name: "Arrows" },
        Block { range: CodeRange { start: 0x2200, last: 0x22FF }, name: "Mathematical Operators" },
    ];
    assert(v@ =~= block_table_1());
    v
}

pub open spec fn block_table_2() -> Seq<Block> {
    seq![
        Block { range: CodeRange { start: 0x2300, last: 0x23FF }, name: "Miscellaneous Technical" },
        Block { range: CodeRange { start: 0x2400, last: 0x243F }, name: "Control Pictures" },
        Block { range: CodeRange { start: 0x2440, last: 0x245F }, name: "Optical Character Recognition" },
        Block { range: CodeRange { start: 0x2460, last: 0x24FF }, name: "Enclosed Alphanumerics" },
        Block { range: CodeRange { start: 0x2500, last: 0x257F }, name: "Box Drawing" },
        Block { range: CodeRange { start: 0x2580, last: 0x259F }, name: "Block Elements" },
        Block { range: CodeRange { start: 0x25A0, last: 0x25FF }, name: "Geometric Shapes" },
        Block { range: CodeRange { start: 0x2600, last: 0x26FF }, name: "Miscellaneous Symbols" },
        Block { range: CodeRange { start: 0x2700, last: 0x27BF }, name: "Dingbats" },
        Block { range: CodeRange { start: 0x27C0, last: 0x27EF }, name: "Miscellaneous Mathematical Symbols-A" },
        Block { range: CodeRange { start: 0x27F0, last: 0x27FF }, name: "Supplemental Arrows-A" },
        Block { range: CodeRange { start: 0x2800, last: 0x28FF }, name: "Braille Patterns" },
        Block { range: CodeRange { start: 0x2900, last: 0x297F }, name: "Supplemental Arrows-B" },
        Block { range: CodeRange { start: 0x2980, last: 0x29FF }, name: "Miscellaneous Mathematical Symbols-B" },
        Block { range: CodeRange { start: 0x2A00, last: 0x2AFF }, name: "Supplemental Mathematical Operators" },
        Block { range: CodeRange { start: 0x2B00, last: 0x2BFF }, name: "Miscellaneous Symbols and Arrows" },
        Block { range: CodeRange { start: 0x2C00, last: 0x2C5F }, name: "Glagolitic" },
        Block { range: CodeRange { start: 0x2C60, last: 0x2C7F }, name: "Latin Extended-C" },
        Block { range: CodeRange { start: 0x2C80, last: 0x2CFF }, name: "Coptic" },
        Block { range: CodeRange { start: 0x2D00, last: 0x2D2F }, name: "Georgian Supplement" },
        Block { range: CodeRange { start: 0x2D30, last: 0x2D7F }, name: "Tifinagh" },
        Block { range: CodeRange { start: 0x2D80, last: 0x2DDF }, name: "Ethiopic Extended" },
        Block { range: CodeRange { start: 0x2DE0, last: 0x2DFF }, name: "Cyrillic Extended-A" },
        Block { range: CodeRange { start: 0x2E00, last: 0x2E7F }, name: "Supplemental Punctuation" },
        Block { range: CodeRange { start: 0x2E80, last: 0x2EFF }, name: "CJK Radicals Supplement" },
        Block { range: CodeRange { start: 0x2F00, last: 0x2FDF }, name: "Kangxi Radicals" },
        Block { range: CodeRange { start: 0x2FF0, last: 0x2FFF }, name: "Ideographic Description Characters" },
        Block { range: CodeRange { start: 0x3000, last: 0x303F }, name: "CJK Symbols and Punctuation" },
        Block { range: CodeRange { start: 0x3040, last: 0x309F }, name: "Hiragana" },
        Block { range: CodeRange { start: 0x30A0, last: 0x30FF }, name: "Katakana" },
        Block { range: CodeRange { start: 0x3100, last: 0x312F }, name: "Bopomofo" },
        Block { range: CodeRange { start: 0x3130, last: 0x318F }, name: "Hangul Compatibility Jamo" },
        Block { range: CodeRange { start: 0x3190, last: 0x319F }, name: "Kanbun" },
        Block { range: CodeRange { start: 0x31A0, last: 0x31BF }, name: "Bopomofo Extended" },
        Block { range: CodeRange { start: 0x31C0, last: 0x31EF }, name: "CJK Strokes" },
        Block { range: CodeRange { start: 0x31F0, last: 0x31FF }, name: "Katakana Phonetic Extensions" },
        Block { range: CodeRange { start: 0x3200, last: 0x32FF }, name: "Enclosed CJK Letters and Months" },
        Block { range: CodeRange { start: 0x3300, last: 0x33FF }, name: "CJK Compatibility" },
        Block { range: CodeRange { start: 0x3400, last: 0x4DBF }, name: "CJK Unified Ideographs Extension A" },
        Block { range: CodeRange { start: 0x4DC0, last: 0x4DFF }, name: "Yijing Hexagram Symbols" },
    ]
}

fn all_blocks_2() -> (v: Vec<Block>)
    ensures
        v@ == block_table_2(),
{
    let v = vec![
        Block { range: CodeRange { start: 0x2300, last: 0x23FF }, name: "Miscellaneous Technical" },
        Block { range: CodeRange { start: 0x2400, last: 0x243F }, name: "Control Pictures" },
        Block { range: CodeRange { start: 0x2440, last: 0x245F }, name: "Optical Character Recognition" },
        Block { range: CodeRange { start: 0x2460, last: 0x24FF }, name: "Enclosed Alphanumerics" },
        Block { range: CodeRange { start: 0x2500, last: 0x257F }, name: "Box Drawing" },
        Block { range: CodeRange { start: 0x2580, last: 0x259F }, name: "Block Elements" },
        Block { range: CodeRange { start: 0x25A0, last: 0x25FF }, name: "Geometric Shapes" },
        Block { range: CodeRange { start: 0x2600, last: 0x26FF }, name: "Miscellaneous Symbols" },
        Block { range: CodeRange { start: 0x2700, last: 0x27BF }, name: "Dingbats" },
        Block { range: CodeRange { start: 0x27C0, last: 0x27EF }, name: "Miscellaneous Mathematical Symbols-A" },
        Block { range: CodeRange { start: 0x27F0, last: 0x27FF }, name: "Supplemental Arrows-A" },
        Block { range: CodeRange { start: 0x2800, last: 0x28FF }, name: "Braille Patterns" },
        Block { range: CodeRange { start: 0x2900, last: 0x297F }, name: "Supplemental Arrows-B" },
        Block { range: CodeRange { start: 0x2980, last: 0x29FF }, name: "Miscellaneous Mathematical Symbols-B" },
        Block { range: CodeRange { start: 0x2A00, last: 0x2AFF }, name: "Supplemental Mathematical Operators" },
        Block { range: CodeRange { start: 0x2B00, last: 0x2BFF }, name: "Miscellaneous Symbols and Arrows" },
        Block { range: CodeRange { start: 0x2C00, last: 0x2C5F }, name: "Glagolitic" },
        Block { range: CodeRange { start: 0x2C60, last: 0x2C7F }, name: "Latin Extended-C" },
        Block { range: CodeRange { start: 0x2C80, last: 0x2CFF }, name: "Coptic" },
        Block { range: CodeRange { start: 0x2D00, last: 0x2D2F }, name: "Georgian Supplement" },
        Block { range: CodeRange { start: 0x2D30, last: 0x2D7F }, name: "Tifinagh" },
        Block { range: CodeRange { start: 0x2D80, last: 0x2DDF }, name: "Ethiopic Extended" },
        Block { range: CodeRange { start: 0x2DE0, last: 0x2DFF }, name: "Cyrillic Extended-A" },
        Block { range: CodeRange { start: 0x2E00, last: 0x2E7F }, name: "Supplemental Punctuation" },
        Block { range: CodeRange { start: 0x2E80, last: 0x2EFF }, name: "CJK Radicals Supplement" },
        Block { range: CodeRange { start: 0x2F00, last: 0x2FDF }, name: "Kangxi Radicals" },
        Block { range: CodeRange { start: 0x2FF0, last: 0x2FFF }, name: "Ideographic Description Characters" },
        Block { range: CodeRange { start: 0x3000, last: 0x303F }, name: "CJK Symbols and Punctuation" },
        Block { range: CodeRange { start: 0x3040, last: 0x309F }, name: "Hiragana" },
        Block { range: CodeRange { start: 0x30A0, last: 0x30FF }, name: "Katakana" },
        Block { range: CodeRange { start: 0x3100, last: 0x312F }, name: "Bopomofo" },
        Block { range: CodeRange { start: 0x3130, last: 0x318F }, name: "Hangul Compatibility Jamo" },
        Block { range: CodeRange { start: 0x3190, last: 0x319F }, name: "Kanbun" },
        Block { range: CodeRange { start: 0x31A0, last: 0x31BF }, name: "Bopomofo Extended" },
        Block { range: CodeRange { start: 0x31C0, last: 0x31EF }, name: "CJK Strokes" },
        Block { range: CodeRange { start: 0x31F0, last: 0x31FF }, name: "Katakana Phonetic Extensions" },
        Block { range: CodeRange { start: 0x3200, last: 0x32FF }, name: "Enclosed CJK Letters and Months" },
        Block { range: CodeRange { start: 0x3300, last: 0x33FF }, name: "CJK Compatibility" },
        Block { range: CodeRange { start: 0x3400, last: 0x4DBF }, name: "CJK Unified Ideographs Extension A" },
        Block { range: CodeRange { start: 0x4DC0, last: 0x4DFF }, name: "Yijing Hexagram Symbols" },
    ];
    assert(v@ =~= block_table_2());
    v
}

pub open spec fn block_table_3() -> Seq<Block> {
    seq![
        Block { range: CodeRange { start: 0x4E00, last: 0x9FFF }, name: "CJK Unified Ideographs" },
        Block { range: CodeRange { start: 0xA000, last: 0xA48F }, name: "Yi Syllables" },
        Block { range: CodeRange { start: 0xA490, last: 0xA4CF }, name: "Yi Radicals" },
        Block { range: CodeRange { start: 0xA4D0, last: 0xA4FF }, name: "Lisu" },
        Block { range: CodeRange { start: 0xA500, last: 0xA63F }, name: "Vai" },
        Block { range: CodeRange { start: 0xA640, last: 0xA69F }, name: "Cyrillic Extended-B" },
        Block { range: CodeRange { start: 0xA6A0, last: 0xA6FF }, name: "Bamum" },
        Block { range: CodeRange { start: 0xA700, last: 0xA71F }, name: "Modifier Tone Letters" },
        Block { range: CodeRange { start: 0xA720, last: 0xA7FF }, name: "Latin Extended-D" },
        Block { range: CodeRange { start: 0xA800, last: 0xA82F }, name: "Syloti Nagri" },
        Block { range: CodeRange { start: 0xA830, last: 0xA83F }, name: "Common Indic Number Forms" },
        Block { range: CodeRange { start: 0xA840, last: 0xA87F }, name: "Phags-pa" },
        Block { range: CodeRange { start: 0xA880, last: 0xA8DF }, name: "Saurashtra" },
        Block { range: CodeRange { start: 0xA8E0, last: 0xA8FF }, name: "Devanagari Extended" },
        Block { range: CodeRange { start: 0xA900, last: 0xA92F }, name: "Kayah Li" },
        Block { range: CodeRange { start: 0xA930, last: 0xA95F }, name: "Rejang" },
        Block { range: CodeRange { start: 0xA960, last: 0xA97F }, name: "Hangul Jamo Extended-A" },
        Block { range: CodeRange { start: 0xA980, last: 0xA9DF }, name: "Javanese" },
        Block { range: CodeRange { start: 0xA9E0, last: 0xA9FF }, name: "Myanmar Extended-B" },
        Block { range: CodeRange { start: 0xAA00, last: 0xAA5F }, name: "Cham" },
        Block { range: CodeRange { start: 0xAA60, last: 0xAA7F }, name: "Myanmar Extended-A" },
        Block { range: CodeRange { start: 0xAA80, last: 0xAADF }, name: "Tai Viet" },
        Block { range: CodeRange { start: 0xAAE0, last: 0xAAFF }, name: "Meetei Mayek Extensions" },
        Block { range: CodeRange { start: 0xAB00, last: 0xAB2F }, name: "Ethiopic Extended-A" },
        Block { range: CodeRange { start: 0xAB30, last: 0xAB6F }, name: "Latin Extended-E" },
        Block { range: CodeRange { start: 0xAB70, last: 0xABBF }, name: "Cherokee Supplement" },
        Block { range: CodeRange { start: 0xABC0, last: 0xABFF }, name: "Meetei Mayek" },
        Block { range: CodeRange { start: 0xAC00, last: 0xD7AF }, name: "Hangul Syllables" },
        Block { range: CodeRange { start: 0xD7B0, last: 0xD7FF }, name: "Hangul Jamo Extended-B" },
        Block { range: CodeRange { start: 0xD800, last: 0xDB7F }, name: "High Surrogates" },
        Block { range: CodeRange { start: 0xDB80, last: 0xDBFF }, name: "High Private Use Surrogates" },
        Block { range: CodeRange { start: 0xDC00, last: 0xDFFF }, name: "Low Surrogates" },
        Block { range: CodeRange { start: 0xE000, last: 0xF8FF }, name: "Private Use Area" },
        Block { range: CodeRange { start: 0xF900, last: 0xFAFF }, name: "CJK Compatibility Ideographs" },
        Block { range: CodeRange { start: 0xFB00, last: 0xFB4F }, name: "Alphabetic Presentation Forms" },
        Block { range: CodeRange { start: 0xFB50, last: 0xFDFF }, name: "Arabic Presentation Forms-A" },
        Block { range: CodeRange { start: 0xFE00, last: 0xFE0F }, name: "Variation Selectors" },
        Block { range: CodeRange { start: 0xFE10, last: 0xFE1F }, name: "Vertical Forms" },
        Block { range: CodeRange { start: 0xFE20, last: 0xFE2F }, name: "Combining Half Marks" },
        Block { range: CodeRange { start: 0xFE30, last: 0xFE4F }, name: "CJK Compatibility Forms" },
    ]
}

fn all_blocks_3() -> (v: Vec<Block>)
    ensures
        v@ == block_table_3(),
{
    let v = vec![
        Block { range: CodeRange { start: 0x4E00, last: 0x9FFF }, name: "CJK Unified Ideographs" },
        Block { range: CodeRange { start: 0xA000, last: 0xA48F }, name: "Yi Syllables" },
        Block { range: CodeRange { start: 0xA490, last: 0xA4CF }, name: "Yi Radicals" },
        Block { range: CodeRange { start: 0xA4D0, last: 0xA4FF }, name: "Lisu" },
        Block { range: CodeRange { start: 0xA500, last: 0xA63F }, name: "Vai" },
        Block { range: CodeRange { start: 0xA640, last: 0xA69F }, name: "Cyrillic Extended-B" },
        Block { range: CodeRange { start: 0xA6A0, last: 0xA6FF }, name: "Bamum" },
        Block { range: CodeRange { start: 0xA700, last: 0xA71F }, name: "Modifier Tone Letters" },
        Block { range: CodeRange { start: 0xA720, last: 0xA7FF }, name: "Latin Extended-D" },
        Block { range: CodeRange { start: 0xA800, last: 0xA82F }, name: "Syloti Nagri" },
        Block { range: CodeRange { start: 0xA830, last: 0xA83F }, name: "Common Indic Number Forms" },
        Block { range: CodeRange { start: 0xA840, last: 0xA87F }, name: "Phags-pa" },
        Block { range: CodeRange { start: 0xA880, last: 0xA8DF }, name: "Saurashtra" },
        Block { range: CodeRange { start: 0xA8E0, last: 0xA8FF }, name: "Devanagari Extended" },
        Block { range: CodeRange { start: 0xA900, last: 0xA92F }, name: "Kayah Li" },
        Block { range: CodeRange { start: 0xA930, last: 0xA95F }, name: "Rejang" },
        Block { range: CodeRange { start: 0xA960, last: 0xA97F }, name: "Hangul Jamo Extended-A" },
        Block { range: CodeRange { start: 0xA980, last: 0xA9DF }, name: "Javanese" },
        Block { range: CodeRange { start: 0xA9E0, last: 0xA9FF }, name: "Myanmar Extended-B" },
        Block { range: CodeRange { start: 0xAA00, last: 0xAA5F }, name: "Cham" },
        Block { range: CodeRange { start: 0xAA60, last: 0xAA7F }, name: "Myanmar Extended-A" },
        Block { range: CodeRange { start: 0xAA80, last: 0xAADF }, name: "Tai Viet" },
        Block { range: CodeRange { start: 0xAAE0, last: 0xAAFF }, name: "Meetei Mayek Extensions" },
        Block { range: CodeRange { start: 0xAB00, last: 0xAB2F }, name: "Ethiopic Extended-A" },
        Block { range: CodeRange { start: 0xAB30, last: 0xAB6F }, name: "Latin Extended-E" },
        Block { range: CodeRange { start: 0xAB70, last: 0xABBF }, name: "Cherokee Supplement" },
        Block { range: CodeRange { start: 0xABC0, last: 0xABFF }, name: "Meetei Mayek" },
        Block { range: CodeRange { start: 0xAC00, last: 0xD7AF }, name: "Hangul Syllables" },
        Block { range: CodeRange { start: 0xD7B0, last: 0xD7FF }, name: "Hangul Jamo Extended-B" },
        Block { range: CodeRange { start: 0xD800, last: 0xDB7F }, name: "High Surrogates" },
        Block { range: CodeRange { start: 0xDB80, last: 0xDBFF }, name: "High Private Use Surrogates" },
        Block { range: CodeRange { start: 0xDC00, last: 0xDFFF }, name: "Low Surrogates" },
        Block { range: CodeRange { start: 0xE000, last: 0xF8FF }, name: "Private Use Area" },
        Block { range: CodeRange { start: 0xF900, last: 0xFAFF }, name: "CJK Compatibility Ideographs" },
        Block { range: CodeRange { start: 0xFB00, last: 0xFB4F }, name: "Alphabetic Presentation Forms" },
        Block { range: CodeRange { start: 0xFB50, last: 0xFDFF }, name: "Arabic Presentation Forms-A" },
        Block { range: CodeRange { start: 0xFE00, last: 0xFE0F }, name: "Variation Selectors" },
        Block { range: CodeRange { start: 0xFE10, last: 0xFE1F }, name: "Vertical Forms" },
        Block { range: CodeRange { start: 0xFE20, last: 0xFE2F }, name: "Combining Half Marks" },
        Block { range: CodeRange { start: 0xFE30, last: 0xFE4F }, name: "CJK Compatibility Forms" },
    ];
    assert(v@ =~= block_table_3());
    v
}

pub open spec fn block_table_4() -> Seq<Block> {
    seq![
        Block { range: CodeRange { start: 0xFE50, last: 0xFE6F }, name: "Small Form Variants" },
        Block { range: CodeRange { start: 0xFE70, last: 0xFEFF }, name: "Arabic Presentation Forms-B" },
        Block { range: CodeRange { start: 0xFF00, last: 0xFFEF }, name: "Halfwidth and Fullwidth Forms" },
        Block { range: CodeRange { start: 0xFFF0, last: 0xFFFF }, name: "Specials" },
        Block { range: CodeRange { start: 0x10000, last: 0x1007F }, name: "Linear B Syllabary" },
        Block { range: CodeRange { start: 0x10080, last: 0x100FF }, name: "Linear B Ideograms" },
        Block { range: CodeRange { start: 0x10100, last: 0x1013F }, name: "Aegean Numbers" },
        Block { range: CodeRange { start: 0x10140, last: 0x1018F }, name: "Ancient Greek Numbers" },
        Block { range: CodeRange { start: 0x10190, last: 0x101CF }, name: "Ancient Symbols" },
        Block { range: CodeRange { start: 0x101D0, last: 0x101FF }, name: "Phaistos Disc" },
        Block { range: CodeRange { start: 0x10280, last: 0x1029F }, name: "Lycian" },
        Block { range: CodeRange { start: 0x102A0, last: 0x102DF }, name: "Carian" },
        Block { range: CodeRange { start: 0x102E0, last: 0x102FF }, name: "Coptic Epact Numbers" },
        Block { range: CodeRange { start: 0x10300, last: 0x1032F }, name: "Old Italic" },
        Block { range: CodeRange { start: 0x10330, last: 0x1034F }, name: "Gothic" },
        Block { range: CodeRange { start: 0x10350, last: 0x1037F }, name: "Old Permic" },
        Block { range: CodeRange { start: 0x10380, last: 0x1039F }, name: "Ugaritic" },
        Block { range: CodeRange { start: 0x103A0, last: 0x103DF }, name: "Old Persian" },
        Block { range: CodeRange { start: 0x10400, last: 0x1044F }, name: "Deseret" },
        Block { range: CodeRange { start: 0x10450, last: 0x1047F }, name: "Shavian" },
        Block { range: CodeRange { start: 0x10480, last: 0x104AF }, name: "Osmanya" },
        Block { range: CodeRange { start: 0x104B0, last: 0x104FF }, name: "Osage" },
        Block { range: CodeRange { start: 0x10500, last: 0x1052F }, name: "Elbasan" },
        Block { range: CodeRange { start: 0x10530, last: 0x1056F }, name: "Caucasian Albanian" },
        Block { range: CodeRange { start: 0x10570, last: 0x105BF }, name: "Vithkuqi" },
        Block { range: CodeRange { start: 0x10600, last: 0x1077F }, name: "Linear A" },
        Block { range: CodeRange { start: 0x10780, last: 0x107BF }, name: "Latin Extended-F" },
        Block { range: CodeRange { start: 0x10800, last: 0x1083F }, name: "Cypriot Syllabary" },
        Block { range: CodeRange { start: 0x10840, last: 0x1085F }, name: "Imperial Aramaic" },
        Block { range: CodeRange { start: 0x10860, last: 0x1087F }, name: "Palmyrene" },
        Block { range: CodeRange { start: 0x10880, last: 0x108AF }, name: "Nabataean" },
        Block { range: CodeRange { start: 0x108E0, last: 0x108FF }, name: "Hatran" },
        Block { range: CodeRange { start: 0x10900, last: 0x1091F }, name: "Phoenician" },
        Block { range: CodeRange { start: 0x10920, last: 0x1093F }, name: "Lydian" },
        Block { range: CodeRange { start: 0x10980, last: 0x1099F }, name: "Meroitic Hieroglyphs" },
        Block { range: CodeRange { start: 0x109A0, last: 0x109FF }, name: "Meroitic Cursive" },
        Block { range: CodeRange { start: 0x10A00, last: 0x10A5F }, name: "Kharoshthi" },
        Block { range: CodeRange { start: 0x10A60, last: 0x10A7F }, name: "Old South Arabian" },
        Block { range: CodeRange { start: 0x10A80, last: 0x10A9F }, name: "Old North Arabian" },
        Block { range: CodeRange { start: 0x10AC0, last: 0x10AFF }, name: "Manichaean" },
    ]
}

fn all_blocks_4() -> (v: Vec<Block>)
    ensures
        v@ == block_table_4(),
{
    let v = vec![
        Block { range: CodeRange { start: 0xFE50, last: 0xFE6F }, name: "Small Form Variants" },
        Block { range: CodeRange { start: 0xFE70, last: 0xFEFF }, name: "Arabic Presentation Forms-B" },
        Block { range: CodeRange { start: 0xFF00, last: 0xFFEF }, name: "Halfwidth and Fullwidth Forms" },
        Block { range: CodeRange { start: 0xFFF0, last: 0xFFFF }, name: "Specials" },
        Block { range: CodeRange { start: 0x10000, last: 0x1007F }, name: "Linear B Syllabary" },
        Block { range: CodeRange { start: 0x10080, last: 0x100FF }, name: "Linear B Ideograms" },
        Block { range: CodeRange { start: 0x10100, last: 0x1013F }, name: "Aegean Numbers" },
        Block { range: CodeRange { start: 0x10140, last: 0x1018F }, name: "Ancient Greek Numbers" },
        Block { range: CodeRange { start: 0x10190, last: 0x101CF }, name: "Ancient Symbols" },
        Block { range: CodeRange { start: 0x101D0, last: 0x101FF }, name: "Phaistos Disc" },
        Block { range: CodeRange { start: 0x10280, last: 0x1029F }, name: "Lycian" },
        Block { range: CodeRange { start: 0x102A0, last: 0x102DF }, name: "Carian" },
        Block { range: CodeRange { start: 0x102E0, last: 0x102FF }, name: "Coptic Epact Numbers" },
        Block { range: CodeRange { start: 0x10300, last: 0x1032F }, name: "Old Italic" },
        Block { range: CodeRange { start: 0x10330, last: 0x1034F }, name: "Gothic" },
        Block { range: CodeRange { start: 0x10350, last: 0x1037F }, name: "Old Permic" },
        Block { range: CodeRange { start: 0x10380, last: 0x1039F }, name: "Ugaritic" },
        Block { range: CodeRange { start: 0x103A0, last: 0x103DF }, name: "Old Persian" },
        Block { range: CodeRange { start: 0x10400, last: 0x1044F }, name: "Deseret" },
        Block { range: CodeRange { start: 0x10450, last: 0x1047F }, name: "Shavian" },
        Block { range: CodeRange { start: 0x10480, last: 0x104AF }, name: "Osmanya" },
        Block { range: CodeRange { start: 0x104B0, last: 0x104FF }, name: "Osage" },
        Block { range: CodeRange { start: 0x10500, last: 0x1052F }, name: "Elbasan" },
        Block { range: CodeRange { start: 0x10530, last: 0x1056F }, name: "Caucasian Albanian" },
        Block { range: CodeRange { start: 0x10570, last: 0x105BF }, name: "Vithkuqi" },
        Block { range: CodeRange { start: 0x10600, last: 0x1077F }, name: "Linear A" },
        Block { range: CodeRange { start: 0x10780, last: 0x107BF }, name: "Latin Extended-F" },
        Block { range: CodeRange { start: 0x10800, last: 0x1083F }, name: "Cypriot Syllabary" },
        Block { range: CodeRange { start: 0x10840, last: 0x1085F }, name: "Imperial Aramaic" },
        Block { range: CodeRange { start: 0x10860, last: 0x1087F }, name: "Palmyrene" },
        Block { range: CodeRange { start: 0x10880, last: 0x108AF }, name: "Nabataean" },
        Block { range: CodeRange { start: 0x108E0, last: 0x108FF }, name: "Hatran" },
        Block { range: CodeRange { start: 0x10900, last: 0x1091F }, name: "Phoenician" },
        Block { range: CodeRange { start: 0x10920, last: 0x1093F }, name: "Lydian" },
        Block { range: CodeRange { start: 0x10980, last: 0x1099F }, name: "Meroitic Hieroglyphs" },
        Block { range: CodeRange { start: 0x109A0, last: 0x109FF }, name: "Meroitic Cursive" },
        Block { range: CodeRange { start: 0x10A00, last: 0x10A5F }, name: "Kharoshthi" },
        Block { range: CodeRange { start: 0x10A60, last: 0x10A7F }, name: "Old South Arabian" },
        Block { range: CodeRange { start: 0x10A80, last: 0x10A9F }, name: "Old North Arabian" },
        Block { range: CodeRange { start: 0x10AC0, last: 0x10AFF }, name: "Manichaean" },
    ];
    assert(v@ =~= block_table_4());
    v
}

pub open spec fn block_table_5() -> Seq<Block> {
    seq![
        Block { range: CodeRange { start: 0x10B00, last: 0x10B3F }, name: "Avestan" },
        Block { range: CodeRange { start: 0x10B40, last: 0x10B5F }, name: "Inscriptional Parthian" },
        Block { range: CodeRange { start: 0x10B60, last: 0x10B7F }, name: "Inscriptional Pahlavi" },
        Block { range: CodeRange { start: 0x10B80, last: 0x10BAF }, name: "Psalter Pahlavi" },
        Block { range: CodeRange { start: 0x10C00, last: 0x10C4F }, name: "Old Turkic" },
        Block { range: CodeRange { start: 0x10C80, last: 0x10CFF }, name: "Old Hungarian" },
        Block { range: CodeRange { start: 0x10D00, last: 0x10D3F }, name: "Hanifi Rohingya" },
        Block { range: CodeRange { start: 0x10E60, last: 0x10E7F }, name: "Rumi Numeral Symbols" },
        Block { range: CodeRange { start: 0x10E80, last: 0x10EBF }, name: "Yezidi" },
        Block { range: CodeRange { start: 0x10F00, last: 0x10F2F }, name: "Old Sogdian" },
        Block { range: CodeRange { start: 0x10F30, last: 0x10F6F }, name: "Sogdian" },
        Block { range: CodeRange { start: 0x10F70, last: 0x10FAF }, name: "Old Uyghur" },
        Block { range: CodeRange { start: 0x10FB0, last: 0x10FDF }, name: "Chorasmian" },
        Block { range: CodeRange { start: 0x10FE0, last: 0x10FFF }, name: "Elymaic" },
        Block { range: CodeRange { start: 0x11000, last: 0x1107F }, name: "Brahmi" },
        Block { range: CodeRange { start: 0x11080, last: 0x110CF }, name: "Kaithi" },
        Block { range: CodeRange { start: 0x110D0, last: 0x110FF }, name: "Sora Sompeng" },
        Block { range: CodeRange { start: 0x11100, last: 0x1114F }, name: "Chakma" },
        Block { range: CodeRange { start: 0x11150, last: 0x1117F }, name: "Mahajani" },
        Block { range: CodeRange { start: 0x11180, last: 0x111DF }, name: "Sharada" },
        Block { range: CodeRange { start: 0x111E0, last: 0x111FF }, name: "Sinhala Archaic Numbers" },
        Block { range: CodeRange { start: 0x11200, last: 0x1124F }, name: "Khojki" },
        Block { range: CodeRange { start: 0x11280, last: 0x112AF }, name: "Multani" },
        Block { range: CodeRange { start: 0x112B0, last: 0x112FF }, name: "Khudawadi" },
        Block { range: CodeRange { start: 0x11300, last: 0x1137F }, name: "Grantha" },
        Block { range: CodeRange { start: 0x11400, last: 0x1147F }, name: "Newa" },
        Block { range: CodeRange { start: 0x11480, last: 0x114DF }, name: "Tirhuta" },
        Block { range: CodeRange { start: 0x11580, last: 0x115FF }, name: "Siddham" },
        Block { range: CodeRange { start: 0x11600, last: 0x1165F }, name: "Modi" },
        Block { range: CodeRange { start: 0x11660, last: 0x1167F }, name: "Mongolian Supplement" },
        Block { range: CodeRange { start: 0x11680, last: 0x116CF }, name: "Takri" },
        Block { range: CodeRange { start: 0x11700, last: 0x1174F }, name: "Ahom" },
        Block { range: CodeRange { start: 0x11800, last: 0x1184F }, name: "Dogra" },
        Block { range: CodeRange { start: 0x118A0, last: 0x118FF }, name: "Warang Citi" },
        Block { range: CodeRange { start: 0x11900, last: 0x1195F }, name: "Dives Akuru" },
        Block { range: CodeRange { start: 0x119A0, last: 0x119FF }, name: "Nandinagari" },
        Block { range: CodeRange { start: 0x11A00, last: 0x11A4F }, name: "Zanabazar Square" },
        Block { range: CodeRange { start: 0x11A50, last: 0x11AAF }, name: "Soyombo" },
        Block { range: CodeRange { start: 0x11AB0, last: 0x11ABF }, name: "Unified Canadian Aboriginal Syllabics Extended-A" },
        Block { range: CodeRange { start: 0x11AC0, last: 0x11AFF }, name: "Pau Cin Hau" },
    ]
}

fn all_blocks_5() -> (v: Vec<Block>)
    ensures
        v@ == block_table_5(),
{
    let v = vec![
        Block { range: CodeRange { start: 0x10B00, last: 0x10B3F }, name: "Avestan" },
        Block { range: CodeRange { start: 0x10B40, last: 0x10B5F }, name: "Inscriptional Parthian" },
        Block { range: CodeRange { start: 0x10B60, last: 0x10B7F }, name: "Inscriptional Pahlavi" },
        Block { range: CodeRange { start: 0x10B80, last: 0x10BAF }, name: "Psalter Pahlavi" },
        Block { range: CodeRange { start: 0x10C00, last: 0x10C4F }, name: "Old Turkic" },
        Block { range: CodeRange { start: 0x10C80, last: 0x10CFF }, name: "Old Hungarian" },
        Block { range: CodeRange { start: 0x10D00, last: 0x10D3F }, name: "Hanifi Rohingya" },
        Block { range: CodeRange { start: 0x10E60, last: 0x10E7F }, name: "Rumi Numeral Symbols" },
        Block { range: CodeRange { start: 0x10E80, last: 0x10EBF }, name: "Yezidi" },
        Block { range: CodeRange { start: 0x10F00, last: 0x10F2F }, name: "Old Sogdian" },
        Block { range: CodeRange { start: 0x10F30, last: 0x10F6F }, name: "Sogdian" },
        Block { range: CodeRange { start: 0x10F70, last: 0x10FAF }, name: "Old Uyghur" },
        Block { range: CodeRange { start: 0x10FB0, last: 0x10FDF }, name: "Chorasmian" },
        Block { range: CodeRange { start: 0x10FE0, last: 0x10FFF }, name: "Elymaic" },
        Block { range: CodeRange { start: 0x11000, last: 0x1107F }, name: "Brahmi" },
        Block { range: CodeRange { start: 0x11080, last: 0x110CF }, name: "Kaithi" },
        Block { range: CodeRange { start: 0x110D0, last: 0x110FF }, name: "Sora Sompeng" },
        Block { range: CodeRange { start: 0x11100, last: 0x1114F }, name: "Chakma" },
        Block { range: CodeRange { start: 0x11150, last: 0x1117F }, name: "Mahajani" },
        Block { range: CodeRange { start: 0x11180, last: 0x111DF }, name: "Sharada" },
        Block { range: CodeRange { start: 0x111E0, last: 0x111FF }, name: "Sinhala Archaic Numbers" },
        Block { range: CodeRange { start: 0x11200, last: 0x1124F }, name: "Khojki" },
        Block { range: CodeRange { start: 0x11280, last: 0x112AF }, name: "Multani" },
        Block { range: CodeRange { start: 0x112B0, last: 0x112FF }, name: "Khudawadi" },
        Block { range: CodeRange { start: 0x11300, last: 0x1137F }, name: "Grantha" },
        Block { range: CodeRange { start: 0x11400, last: 0x1147F }, name: "Newa" },
        Block { range: CodeRange { start: 0x11480, last: 0x114DF }, name: "Tirhuta" },
        Block { range: CodeRange { start: 0x11580, last: 0x115FF }, name: "Siddham" },
        Block { range: CodeRange { start: 0x11600, last: 0x1165F }, name: "Modi" },
        Block { range: CodeRange { start: 0x11660, last: 0x1167F }, name: "Mongolian Supplement" },
        Block { range: CodeRange { start: 0x11680, last: 0x116CF }, name: "Takri" },
        Block { range: CodeRange { start: 0x11700, last: 0x1174F }, name: "Ahom" },
        Block { range: CodeRange { start: 0x11800, last: 0x1184F }, name: "Dogra" },
        Block { range: CodeRange { start: 0x118A0, last: 0x118FF }, name: "Warang Citi" },
        Block { range: CodeRange { start: 0x11900, last: 0x1195F }, name: "Dives Akuru" },
        Block { range: CodeRange { start: 0x119A0, last: 0x119FF }, name: "Nandinagari" },
        Block { range: CodeRange { start: 0x11A00, last: 0x11A4F }, name: "Zanabazar Square" },
        Block { range: CodeRange { start: 0x11A50, last: 0x11AAF }, name: "Soyombo" },
        Block { range: CodeRange { start: 0x11AB0, last: 0x11ABF }, name: "Unified Canadian Aboriginal Syllabics Extended-A" },
        Block { range: CodeRange { start: 0x11AC0, last: 0x11AFF }, name: "Pau Cin Hau" },
    ];
    assert(v@ =~= block_table_5());
    v
}

pub open spec fn block_table_6() -> Seq<Block> {
    seq![
        Block { range: CodeRange { start: 0x11C00, last: 0x11C6F }, name: "Bhaiksuki" },
        Block { range: CodeRange { start: 0x11C70, last: 0x11CBF }, name: "Marchen" },
        Block { range: CodeRange { start: 0x11D00, last: 0x11D5F }, name: "Masaram Gondi" },
        Block { range: CodeRange { start: 0x11D60, last: 0x11DAF }, name: "Gunjala Gondi" },
        Block { range: CodeRange { start: 0x11EE0, last: 0x11EFF }, name: "Makasar" },
        Block { range: CodeRange { start: 0x11FB0, last: 0x11FBF }, name: "Lisu Supplement" },
        Block { range: CodeRange { start: 0x11FC0, last: 0x11FFF }, name: "Tamil Supplement" },
        Block { range: CodeRange { start: 0x12000, last: 0x123FF }, name: "Cuneiform" },
        Block { range: CodeRange { start: 0x12400, last: 0x1247F }, name: "Cuneiform Numbers and Punctuation" },
        Block { range: CodeRange { start: 0x12480, last: 0x1254F }, name: "Early Dynastic Cuneiform" },
        Block { range: CodeRange { start: 0x12F90, last: 0x12FFF }, name: "Cypro-Minoan" },
        Block { range: CodeRange { start: 0x13000, last: 0x1342F }, name: "Egyptian Hieroglyphs" },
        Block { range: CodeRange { start: 0x13430, last: 0x1343F }, name: "Egyptian Hieroglyph Format Controls" },
        Block { range: CodeRange { start: 0x14400, last: 0x1467F }, name: "Anatolian Hieroglyphs" },
        Block { range: CodeRange { start: 0x16800, last: 0x16A3F }, name: "Bamum Supplement" },
        Block { range: CodeRange { start: 0x16A40, last: 0x16A6F }, name: "Mro" },
        Block { range: CodeRange { start: 0x16A70, last: 0x16ACF }, name: "Tangsa" },
        Block { range: CodeRange { start: 0x16AD0, last: 0x16AFF }, name: "Bassa Vah" },
        Block { range: CodeRange { start: 0x16B00, last: 0x16B8F }, name: "Pahawh Hmong" },
        Block { range: CodeRange { start: 0x16E40, last: 0x16E9F }, name: "Medefaidrin" },
        Block { range: CodeRange { start: 0x16F00, last: 0x16F9F }, name: "Miao" },
        Block { range: CodeRange { start: 0x16FE0, last: 0x16FFF }, name: "Ideographic Symbols and Punctuation" },
        Block { range: CodeRange { start: 0x17000, last: 0x187FF }, name: "Tangut" },
        Block { range: CodeRange { start: 0x18800, last: 0x18AFF }, name: "Tangut Components" },
        Block { range: CodeRange { start: 0x18B00, last: 0x18CFF }, name: "Khitan Small Script" },
        Block { range: CodeRange { start: 0x18D00, last: 0x18D7F }, name: "Tangut Supplement" },
        Block { range: CodeRange { start: 0x1AFF0, last: 0x1AFFF }, name: "Kana Extended-B" },
        Block { range: CodeRange { start: 0x1B000, last: 0x1B0FF }, name: "Kana Supplement" },
        Block { range: CodeRange { start: 0x1B100, last: 0x1B12F }, name: "Kana Extended-A" },
        Block { range: CodeRange { start: 0x1B130, last: 0x1B16F }, name: "Small Kana Extension" },
        Block { range: CodeRange { start: 0x1B170, last: 0x1B2FF }, name: "Nushu" },
        Block { range: CodeRange { start: 0x1BC00, last: 0x1BC9F }, name: "Duployan" },
        Block { range: CodeRange { start: 0x1BCA0, last: 0x1BCAF }, name: "Shorthand Format Controls" },
        Block { range: CodeRange { start: 0x1CF00, last: 0x1CFCF }, name: "Znamenny Musical Notation" },
        Block { range: CodeRange { start: 0x1D000, last: 0x1D0FF }, name: "Byzantine Musical Symbols" },
        Block { range: CodeRange { start: 0x1D100, last: 0x1D1FF }, name: "Musical Symbols" },
        Block { range: CodeRange { start: 0x1D200, last: 0x1D24F }, name: "Ancient Greek Musical Notation" },
        Block { range: CodeRange { start: 0x1D2E0, last: 0x1D2FF }, name: "Mayan Numerals" },
        Block { range: CodeRange { start: 0x1D300, last: 0x1D35F }, name: "Tai Xuan Jing Symbols" },
        Block { range: CodeRange { start: 0x1D360, last: 0x1D37F }, name: "Counting Rod Numerals" },
    ]
}

fn all_blocks_6() -> (v: Vec<Block>)
    ensures
        v@ == block_table_6(),
{
    let v = vec![
        Block { range: CodeRange { start: 0x11C00, last: 0x11C6F }, name: "Bhaiksuki" },
        Block { range: CodeRange { start: 0x11C70, last: 0x11CBF }, name: "Marchen" },
        Block { range: CodeRange { start: 0x11D00, last: 0x11D5F }, name: "Masaram Gondi" },
        Block { range: CodeRange { start: 0x11D60, last: 0x11DAF }, name: "Gunjala Gondi" },
        Block { range: CodeRange { start: 0x11EE0, last: 0x11EFF }, name: "Makasar" },
        Block { range: CodeRange { start: 0x11FB0, last: 0x11FBF }, name: "Lisu Supplement" },
        Block { range: CodeRange { start: 0x11FC0, last: 0x11FFF }, name: "Tamil Supplement" },
        Block { range: CodeRange { start: 0x12000, last: 0x123FF }, name: "Cuneiform" },
        Block { range: CodeRange { start: 0x12400, last: 0x1247F }, name: "Cuneiform Numbers and Punctuation" },
        Block { range: CodeRange { start: 0x12480, last: 0x1254F }, name: "Early Dynastic Cuneiform" },
        Block { range: CodeRange { start: 0x12F90, last: 0x12FFF }, name: "Cypro-Minoan" },
        Block { range: CodeRange { start: 0x13000, last: 0x1342F }, name: "Egyptian Hieroglyphs" },
        Block { range: CodeRange { start: 0x13430, last: 0x1343F }, name: "Egyptian Hieroglyph Format Controls" },
        Block { range: CodeRange { start: 0x14400, last: 0x1467F }, name: "Anatolian Hieroglyphs" },
        Block { range: CodeRange { start: 0x16800, last: 0x16A3F }, name: "Bamum Supplement" },
        Block { range: CodeRange { start: 0x16A40, last: 0x16A6F }, name: "Mro" },
        Block { range: CodeRange { start: 0x16A70, last: 0x16ACF }, name: "Tangsa" },
        Block { range: CodeRange { start: 0x16AD0, last: 0x16AFF }, name: "Bassa Vah" },
        Block { range: CodeRange { start: 0x16B00, last: 0x16B8F }, name: "Pahawh Hmong" },
        Block { range: CodeRange { start: 0x16E40, last: 0x16E9F }, name: "Medefaidrin" },
        Block { range: CodeRange { start: 0x16F00, last: 0x16F9F }, name: "Miao" },
        Block { range: CodeRange { start: 0x16FE0, last: 0x16FFF }, name: "Ideographic Symbols and Punctuation" },
        Block { range: CodeRange { start: 0x17000, last: 0x187FF }, name: "Tangut" },
        Block { range: CodeRange { start: 0x18800, last: 0x18AFF }, name: "Tangut Components" },
        Block { range: CodeRange { start: 0x18B00, last: 0x18CFF }, name: "Khitan Small Script" },
        Block { range: CodeRange { start: 0x18D00, last: 0x18D7F }, name: "Tangut Supplement" },
        Block { range: CodeRange { start: 0x1AFF0, last: 0x1AFFF }, name: "Kana Extended-B" },
        Block { range: CodeRange { start: 0x1B000, last: 0x1B0FF }, name: "Kana Supplement" },
        Block { range: CodeRange { start: 0x1B100, last: 0x1B12F }, name: "Kana Extended-A" },
        Block { range: CodeRange { start: 0x1B130, last: 0x1B16F }, name: "Small Kana Extension" },
        Block { range: CodeRange { start: 0x1B170, last: 0x1B2FF }, name: "Nushu" },
        Block { range: CodeRange { start: 0x1BC00, last: 0x1BC9F }, name: "Duployan" },
        Block { range: CodeRange { start: 0x1BCA0, last: 0x1BCAF }, name: "Shorthand Format Controls" },
        Block { range: CodeRange { start: 0x1CF00, last: 0x1CFCF }, name: "Znamenny Musical Notation" },
        Block { range: CodeRange { start: 0x1D000, last: 0x1D0FF }, name: "Byzantine Musical Symbols" },
        Block { range: CodeRange { start: 0x1D100, last: 0x1D1FF }, name: "Musical Symbols" },
        Block { range: CodeRange { start: 0x1D200, last: 0x1D24F }, name: "Ancient Greek Musical Notation" },
        Block { range: CodeRange { start: 0x1D2E0, last: 0x1D2FF }, name: "Mayan Numerals" },
        Block { range: CodeRange { start: 0x1D300, last: 0x1D35F }, name: "Tai Xuan Jing Symbols" },
        Block { range: CodeRange { start: 0x1D360, last: 0x1D37F }, name: "Counting Rod Numerals" },
    ];
    assert(v@ =~= block_table_6());
    v
}

pub open spec fn block_table_7() -> Seq<Block> {
    seq![
        Block { range: CodeRange { start: 0x1D400, last: 0x1D7FF }, name: "Mathematical Alphanumeric Symbols" },
        Block { range: CodeRange { start: 0x1D800, last: 0x1DAAF }, name: "Sutton SignWriting" },
        Block { range: CodeRange { start: 0x1DF00, last: 0x1DFFF }, name: "Latin Extended-G" },
        Block { range: CodeRange { start: 0x1E000, last: 0x1E02F }, name: "Glagolitic Supplement" },
        Block { range: CodeRange { start: 0x1E100, last: 0x1E14F }, name: "Nyiakeng Puachue Hmong" },
        Block { range: CodeRange { start: 0x1E290, last: 0x1E2BF }, name: "Toto" },
        Block { range: CodeRange { start: 0x1E2C0, last: 0x1E2FF }, name: "Wancho" },
        Block { range: CodeRange { start: 0x1E7E0, last: 0x1E7FF }, name: "Ethiopic Extended-B" },
        Block { range: CodeRange { start: 0x1E800, last: 0x1E8DF }, name: "Mende Kikakui" },
        Block { range: CodeRange { start: 0x1E900, last: 0x1E95F }, name: "Adlam" },
        Block { range: CodeRange { start: 0x1EC70, last: 0x1ECBF }, name: "Indic Siyaq Numbers" },
        Block { range: CodeRange { start: 0x1ED00, last: 0x1ED4F }, name: "Ottoman Siyaq Numbers" },
        Block { range: CodeRange { start: 0x1EE00, last: 0x1EEFF }, name: "Arabic Mathematical Alphabetic Symbols" },
        Block { range: CodeRange { start: 0x1F000, last: 0x1F02F }, name: "Mahjong Tiles" },
        Block { range: CodeRange { start: 0x1F030, last: 0x1F09F }, name: "Domino Tiles" },
        Block { range: CodeRange { start: 0x1F0A0, last: 0x1F0FF }, name: "Playing Cards" },
        Block { range: CodeRange { start: 0x1F100, last: 0x1F1FF }, name: "Enclosed Alphanumeric Supplement" },
        Block { range: CodeRange { start: 0x1F200, last: 0x1F2FF }, name: "Enclosed Ideographic Supplement" },
        Block { range: CodeRange { start: 0x1F300, last: 0x1F5FF }, name: "Miscellaneous Symbols and Pictographs" },
        Block { range: CodeRange { start: 0x1F600, last: 0x1F64F }, name: "Emoticons" },
        Block { range: CodeRange { start: 0x1F650, last: 0x1F67F }, name: "Ornamental Dingbats" },
        Block { range: CodeRange { start: 0x1F680, last: 0x1F6FF }, name: "Transport and Map Symbols" },
        Block { range: CodeRange { start: 0x1F700, last: 0x1F77F }, name: "Alchemical Symbols" },
        Block { range: CodeRange { start: 0x1F780, last: 0x1F7FF }, name: "Geometric Shapes Extended" },
        Block { range: CodeRange { start: 0x1F800, last: 0x1F8FF }, name: "Supplemental Arrows-C" },
        Block { range: CodeRange { start: 0x1F900, last: 0x1F9FF }, name: "Supplemental Symbols and Pictographs" },
        Block { range: CodeRange { start: 0x1FA00, last: 0x1FA6F }, name: "Chess Symbols" },
        Block { range: CodeRange { start: 0x1FA70, last: 0x1FAFF }, name: "Symbols and Pictographs Extended-A" },
        Block { range: CodeRange { start: 0x1FB00, last: 0x1FBFF }, name: "Symbols for Legacy Computing" },
        Block { range: CodeRange { start: 0x20000, last: 0x2A6DF }, name: "CJK Unified Ideographs Extension B" },
        Block { range: CodeRange { start: 0x2A700, last: 0x2B73F }, name: "CJK Unified Ideographs Extension C" },
        Block { range: CodeRange { start: 0x2B740, last: 0x2B81F }, name: "CJK Unified Ideographs Extension D" },
        Block { range: CodeRange { start: 0x2B820, last: 0x2CEAF }, name: "CJK Unified Ideographs Extension E" },
        Block { range: CodeRange { start: 0x2CEB0, last: 0x2EBEF }, name: "CJK Unified Ideographs Extension F" },
        Block { range: CodeRange { start: 0x2F800, last: 0x2FA1F }, name: "CJK Compatibility Ideographs Supplement" },
        Block { range: CodeRange { start: 0x30000, last: 0x3134F }, name: "CJK Unified Ideographs Extension G" },
        Block { range: CodeRange { start: 0xE0000, last: 0xE007F }, name: "Tags" },
        Block { range: CodeRange { start: 0xE0100, last: 0xE01EF }, name: "Variation Selectors Supplement" },
        Block { range: CodeRange { start: 0xF0000, last: 0xFFFFF }, name: "Supplementary Private Use Area-A" },
        Block { range: CodeRange { start: 0x100000, last: 0x10FFFF }, name: "Supplementary Private Use Area-B" },
    ]
}

fn all_blocks_7() -> (v: Vec<Block>)
    ensures
        v@ == block_table_7(),
{
    let v = vec![
        Block { range: CodeRange { start: 0x1D400, last: 0x1D7FF }, name: "Mathematical Alphanumeric Symbols" },
        Block { range: CodeRange { start: 0x1D800, last: 0x1DAAF }, name: "Sutton SignWriting" },
        Block { range: CodeRange { start: 0x1DF00, last: 0x1DFFF }, name: "Latin Extended-G" },
        Block { range: CodeRange { start: 0x1E000, last: 0x1E02F }, name: "Glagolitic Supplement" },
        Block { range: CodeRange { start: 0x1E100, last: 0x1E14F }, name: "Nyiakeng Puachue Hmong" },
        Block { range: CodeRange { start: 0x1E290, last: 0x1E2BF }, name: "Toto" },
        Block { range: CodeRange { start: 0x1E2C0, last: 0x1E2FF }, name: "Wancho" },
        Block { range: CodeRange { start: 0x1E7E0, last: 0x1E7FF }, name: "Ethiopic Extended-B" },
        Block { range: CodeRange { start: 0x1E800, last: 0x1E8DF }, name: "Mende Kikakui" },
        Block { range: CodeRange { start: 0x1E900, last: 0x1E95F }, name: "Adlam" },
        Block { range: CodeRange { start: 0x1EC70, last: 0x1ECBF }, name: "Indic Siyaq Numbers" },
        Block { range: CodeRange { start: 0x1ED00, last: 0x1ED4F }, name: "Ottoman Siyaq Numbers" },
        Block { range: CodeRange { start: 0x1EE00, last: 0x1EEFF }, name: "Arabic Mathematical Alphabetic Symbols" },
        Block { range: CodeRange { start: 0x1F000, last: 0x1F02F }, name: "Mahjong Tiles" },
        Block { range: CodeRange { start: 0x1F030, last: 0x1F09F }, name: "Domino Tiles" },
        Block { range: CodeRange { start: 0x1F0A0, last: 0x1F0FF }, name: "Playing Cards" },
        Block { range: CodeRange { start: 0x1F100, last: 0x1F1FF }, name: "Enclosed Alphanumeric Supplement" },
        Block { range: CodeRange { start: 0x1F200, last: 0x1F2FF }, name: "Enclosed Ideographic Supplement" },
        Block { range: CodeRange { start: 0x1F300, last: 0x1F5FF }, name: "Miscellaneous Symbols and Pictographs" },
        Block { range: CodeRange { start: 0x1F600, last: 0x1F64F }, name: "Emoticons" },
        Block { range: CodeRange { start: 0x1F650, last: 0x1F67F }, name: "Ornamental Dingbats" },
        Block { range: CodeRange { start: 0x1F680, last: 0x1F6FF }, name: "Transport and Map Symbols" },
        Block { range: CodeRange { start: 0x1F700, last: 0x1F77F }, name: "Alchemical Symbols" },
        Block { range: CodeRange { start: 0x1F780, last: 0x1F7FF }, name: "Geometric Shapes Extended" },
        Block { range: CodeRange { start: 0x1F800, last: 0x1F8FF }, name: "Supplemental Arrows-C" },
        Block { range: CodeRange { start: 0x1F900, last: 0x1F9FF }, name: "Supplemental Symbols and Pictographs" },
        Block { range: CodeRange { start: 0x1FA00, last: 0x1FA6F }, name: "Chess Symbols" },
        Block { range: CodeRange { start: 0x1FA70, last: 0x1FAFF }, name: "Symbols and Pictographs Extended-A" },
        Block { range: CodeRange { start: 0x1FB00, last: 0x1FBFF }, name: "Symbols for Legacy Computing" },
        Block { range: CodeRange { start: 0x20000, last: 0x2A6DF }, name: "CJK Unified Ideographs Extension B" },
        Block { range: CodeRange { start: 0x2A700, last: 0x2B73F }, name: "CJK Unified Ideographs Extension C" },
        Block { range: CodeRange { start: 0x2B740, last: 0x2B81F }, name: "CJK Unified Ideographs Extension D" },
        Block { range: CodeRange { start: 0x2B820, last: 0x2CEAF }, name: "CJK Unified Ideographs Extension E" },
        Block { range: CodeRange { start: 0x2CEB0, last: 0x2EBEF }, name: "CJK Unified Ideographs Extension F" },
        Block { range: CodeRange { start: 0x2F800, last: 0x2FA1F }, name: "CJK Compatibility Ideographs Supplement" },
        Block { range: CodeRange { start: 0x30000, last: 0x3134F }, name: "CJK Unified Ideographs Extension G" },
        Block { range: CodeRange { start: 0xE0000, last: 0xE007F }, name: "Tags" },
        Block { range: CodeRange { start: 0xE0100, last: 0xE01EF }, name: "Variation Selectors Supplement" },
        Block { range: CodeRange { start: 0xF0000, last: 0xFFFFF }, name: "Supplementary Private Use Area-A" },
        Block { range: CodeRange { start: 0x100000, last: 0x10FFFF }, name: "Supplementary Private Use Area-B" },
    ];
    assert(v@ =~= block_table_7());
    v
}

proof fn lemma_chunk_ordered_0()
    ensures
        block_table_0().len() == 40,
        blocks_adjacent(block_table_0()),
{
    let t = block_table_0();
    assert forall|k: int| 0 <= k < 40 implies (#[trigger] t[k]).range.start <= t[k].range.last by {}
    assert forall|k: int| 0 <= k && k + 1 < 40 implies (#[trigger] t[k]).range.last < t[k + 1].range.start by {}
}

proof fn lemma_chunk_ordered_1()
    ensures
        block_table_1().len() == 40,
        blocks_adjacent(block_table_1()),
{
    let t = block_table_1();
    assert forall|k: int| 0 <= k < 40 implies (#[trigger] t[k]).range.start <= t[k].range.last by {}
    assert forall|k: int| 0 <= k && k + 1 < 40 implies (#[trigger] t[k]).range.last < t[k + 1].range.start by {}
}

proof fn lemma_chunk_ordered_2()
    ensures
        block_table_2().len() == 40,
        blocks_adjacent(block_table_2()),
{
    let t = block_table_2();
    assert forall|k: int| 0 <= k < 40 implies (#[trigger] t[k]).range.start <= t[k].range.last by {}
    assert forall|k: int| 0 <= k && k + 1 < 40 implies (#[trigger] t[k]).range.last < t[k + 1].range.start by {}
}

proof fn lemma_chunk_ordered_3()
    ensures
        block_table_3().len() == 40,
        blocks_adjacent(block_table_3()),
{
    let t = block_table_3();
    assert forall|k: int| 0 <= k < 40 implies (#[trigger] t[k]).range.start <= t[k].range.last by {}
    assert forall|k: int| 0 <= k && k + 1 < 40 implies (#[trigger] t[k]).range.last < t[k + 1].range.start by {}
}

proof fn lemma_chunk_ordered_4()
    ensures
        block_table_4().len() == 40,
        blocks_adjacent(block_table_4()),
{
    let t = block_table_4();
    assert forall|k: int| 0 <= k < 40 implies (#[trigger] t[k]).range.start <= t[k].range.last by {}
    assert forall|k: int| 0 <= k && k + 1 < 40 implies (#[trigger] t[k]).range.last < t[k + 1].range.start by {}
}

proof fn lemma_chunk_ordered_5()
    ensures
        block_table_5().len() == 40,
        blocks_adjacent(block_table_5()),
{
    let t = block_table_5();
    assert forall|k: int| 0 <= k < 40 implies (#[trigger] t[k]).range.start <= t[k].range.last by {}
    assert forall|k: int| 0 <= k && k + 1 < 40 implies (#[trigger] t[k]).range.last < t[k + 1].range.start by {}
}

proof fn lemma_chunk_ordered_6()
    ensures
        block_table_6().len() == 40,
        blocks_adjacent(block_table_6()),
{
    let t = block_table_6();
    assert forall|k: int| 0 <= k < 40 implies (#[trigger] t[k]).range.start <= t[k].range.last by {}
    assert forall|k: int| 0 <= k && k + 1 < 40 implies (#[trigger] t[k]).range.last < t[k + 1].range.start by {}
}

proof fn lemma_chunk_ordered_7()
    ensures
        block_table_7().len() == 40,
        blocks_adjacent(block_table_7()),
{
    let t = block_table_7();
    assert forall|k: int| 0 <= k < 40 implies (#[trigger] t[k]).range.start <= t[k].range.last by {}
    assert forall|k: int| 0 <= k && k + 1 < 40 implies (#[trigger] t[k]).range.last < t[k + 1].range.start by {}
}

/// Each block's range is in order and ends before the next one's begins.
pub open spec fn blocks_adjacent(s: Seq<Block>) -> bool {
    &&& forall|k: int| 0 <= k < s.len() ==> (#[trigger] s[k]).range.start <= s[k].range.last
    &&& forall|k: int| 0 <= k && k + 1 < s.len() ==> (#[trigger] s[k]).range.last < s[k + 1].range.start
}

proof fn lemma_join(a: Seq<Block>, b: Seq<Block>)
    requires
        blocks_adjacent(a),
        blocks_adjacent(b),
        a.len() > 0,
        b.len() > 0,
        a.last().range.last < b[0].range.start,
    ensures
        blocks_adjacent(a + b),
        (a + b).last() == b.last(),
{
    let s = a + b;
    assert forall|k: int| 0 <= k < s.len() implies (#[trigger] s[k]).range.start <= s[k].range.last by {
        if k >= a.len() {
            assert(s[k] == b[k - a.len()]);
        } else {
            assert(s[k] == a[k]);
        }
    }
    assert forall|k: int| 0 <= k && k + 1 < s.len() implies (#[trigger] s[k]).range.last < s[k + 1].range.start by {
        if k >= a.len() {
            assert(s[k] == b[k - a.len()]);
            assert(s[k + 1] == b[k + 1 - a.len()]);
        } else if k + 1 < a.len() {
            assert(s[k] == a[k]);
            assert(s[k + 1] == a[k + 1]);
        } else {
            assert(s[k] == a[k]);
            assert(s[k + 1] == b[0]);
        }
    }
}

/// The table's blocks are in order, each ending before the next begins.
pub proof fn lemma_blocks_adjacent()
    ensures
        blocks_adjacent(block_table()),
{
    lemma_chunk_ordered_0();
    lemma_chunk_ordered_1();
    lemma_chunk_ordered_2();
    lemma_chunk_ordered_3();
    lemma_chunk_ordered_4();
    lemma_chunk_ordered_5();
    lemma_chunk_ordered_6();
    lemma_chunk_ordered_7();
    let p0 = block_table_0();
    assert(p0.last() == block_table_0()[39]);
    lemma_join(p0, block_table_1());
    let p1 = p0 + block_table_1();
    assert(p1.last() == block_table_1()[39]);
    lemma_join(p1, block_table_2());
    let p2 = p1 + block_table_2();
    assert(p2.last() == block_table_2()[39]);
    lemma_join(p2, block_table_3());
    let p3 = p2 + block_table_3();
    assert(p3.last() == block_table_3()[39]);
    lemma_join(p3, block_table_4());
    let p4 = p3 + block_table_4();
    assert(p4.last() == block_table_4()[39]);
    lemma_join(p4, block_table_5());
    let p5 = p4 + block_table_5();
    assert(p5.last() == block_table_5()[39]);
    lemma_join(p5, block_table_6());
    let p6 = p5 + block_table_6();
    assert(p6.last() == block_table_6()[39]);
    lemma_join(p6, block_table_7());
    let p7 = p6 + block_table_7();
    assert(p7 == block_table());
}

/// The blocks in order of their ranges.
pub open spec fn block_table() -> Seq<Block> {
    block_table_0() + block_table_1() + block_table_2() + block_table_3() + block_table_4() + block_table_5() + block_table_6() + block_table_7()
}

/// The blocks in order of their ranges.
pub fn all_blocks() -> (v: Vec<Block>)
    ensures
        v@ == block_table(),
{
    let mut v = all_blocks_0();
    let mut part = all_blocks_1();
    v.append(&mut part);
    let mut part = all_blocks_2();
    v.append(&mut part);
    let mut part = all_blocks_3();
    v.append(&mut part);
    let mut part = all_blocks_4();
    v.append(&mut part);
    let mut part = all_blocks_5();
    v.append(&mut part);
    let mut part = all_blocks_6();
    v.append(&mut part);
    let mut part = all_blocks_7();
    v.append(&mut part);
    v
}

/// The table is not empty.
pub proof fn lemma_blocks_not_empty()
    ensures
        block_table().len() > 0,
{
    assert(block_table_0().len() > 0);
}

} // verus!
