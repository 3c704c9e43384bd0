//! Part 0 of the character names: groups 0 to 9 of the table.
use vstd::prelude::*;

use crate::ucd::Codepoint;

verus! {

pub open spec fn codepoint_table_0() -> Seq<Codepoint> {
    seq![
        Codepoint { codepoint: 0x0000, name: "<control>", aliases: &["NULL"] },
        Codepoint { codepoint: 0x0001, name: "<control>", aliases: &["START OF HEADING"] },
        Codepoint { codepoint: 0x0002, name: "<control>", aliases: &["START OF TEXT"] },
        Codepoint { codepoint: 0x0003, name: "<control>", aliases: &["END OF TEXT"] },
        Codepoint { codepoint: 0x0004, name: "<control>", aliases: &["END OF TRANSMISSION"] },
        Codepoint { codepoint: 0x0005, name: "<control>", aliases: &["ENQUIRY"] },
        Codepoint { codepoint: 0x0006, name: "<control>", aliases: &["ACKNOWLEDGE"] },
        Codepoint { codepoint: 0x0007, name: "<control>", aliases: &["BELL"] },
        Codepoint { codepoint: 0x0008, name: "<control>", aliases: &["BACKSPACE"] },
        Codepoint { codepoint: 0x0009, name: "<control>", aliases: &["CHARACTER TABULATION"] },
        Codepoint { codepoint: 0x000A, name: "<control>", aliases: &["LINE FEED (LF)"] },
        Codepoint { codepoint: 0x000B, name: "<control>", aliases: &["LINE TABULATION"] },
        Codepoint { codepoint: 0x000C, name: "<control>", aliases: &["FORM FEED (FF)"] },
        Codepoint { codepoint: 0x000D, name: "<control>", aliases: &["CARRIAGE RETURN (CR)"] },
        Codepoint { codepoint: 0x000E, name: "<control>", aliases: &["SHIFT OUT"] },
        Codepoint { codepoint: 0x000F, name: "<control>", aliases: &["SHIFT IN"] },
        Codepoint { codepoint: 0x0010, name: "<control>", aliases: &["DATA LINK ESCAPE"] },
        Codepoint { codepoint: 0x0011, name: "<control>", aliases: &["DEVICE CONTROL ONE"] },
        Codepoint { codepoint: 0x0012, name: "<control>", aliases: &["DEVICE CONTROL TWO"] },
        Codepoint { codepoint: 0x0013, name: "<control>", aliases: &["DEVICE CONTROL THREE"] },
        Codepoint { codepoint: 0x0014, name: "<control>", aliases: &["DEVICE CONTROL FOUR"] },
        Codepoint { codepoint: 0x0015, name: "<control>", aliases: &["NEGATIVE ACKNOWLEDGE"] },
        Codepoint { codepoint: 0x0016, name: "<control>", aliases: &["SYNCHRONOUS IDLE"] },
        Codepoint { codepoint: 0x0017, name: "<control>", aliases: &["END OF TRANSMISSION BLOCK"] },
        Codepoint { codepoint: 0x0018, name: "<control>", aliases: &["CANCEL"] },
        Codepoint { codepoint: 0x0019, name: "<control>", aliases: &["END OF MEDIUM"] },
        Codepoint { codepoint: 0x001A, name: "<control>", aliases: &["SUBSTITUTE"] },
        Codepoint { codepoint: 0x001B, name: "<control>", aliases: &["ESCAPE"] },
        Codepoint { codepoint: 0x001C, name: "<control>", aliases: &["INFORMATION SEPARATOR FOUR"] },
        Codepoint { codepoint: 0x001D, name: "<control>", aliases: &["INFORMATION SEPARATOR THREE"] },
        Codepoint { codepoint: 0x001E, name: "<control>", aliases: &["INFORMATION SEPARATOR TWO"] },
        Codepoint { codepoint: 0x001F, name: "<control>", aliases: &["INFORMATION SEPARATOR ONE"] },
        Codepoint { codepoint: 0x0020, name: "SPACE", aliases: &[] },
        Codepoint { codepoint: 0x0021, name: "EXCLAMATION MARK", aliases: &[] },
        Codepoint { codepoint: 0x0022, name: "QUOTATION MARK", aliases: &[] },
        Codepoint { codepoint: 0x0023, name: "NUMBER SIGN", aliases: &[] },
        Codepoint { codepoint: 0x0024, name: "DOLLAR SIGN", aliases: &[] },
        Codepoint { codepoint: 0x0025, name: "PERCENT SIGN", aliases: &[] },
        Codepoint { codepoint: 0x0026, name: "AMPERSAND", aliases: &[] },
        Codepoint { codepoint: 0x0027, name: "APOSTROPHE", aliases: &["APOSTROPHE-QUOTE"] },
    ]
}

fn all_codepoints_0() -> (v: Vec<Codepoint>)
    ensures
        v@ == codepoint_table_0(),
{
    let v = vec![
        Codepoint { codepoint: 0x0000, name: "<control>", aliases: &["NULL"] },
        Codepoint { codepoint: 0x0001, name: "<control>", aliases: &["START OF HEADING"] },
        Codepoint { codepoint: 0x0002, name: "<control>", aliases: &["START OF TEXT"] },
        Codepoint { codepoint: 0x0003, name: "<control>", aliases: &["END OF TEXT"] },
        Codepoint { codepoint: 0x0004, name: "<control>", aliases: &["END OF TRANSMISSION"] },
        Codepoint { codepoint: 0x0005, name: "<control>", aliases: &["ENQUIRY"] },
        Codepoint { codepoint: 0x0006, name: "<control>", aliases: &["ACKNOWLEDGE"] },
        Codepoint { codepoint: 0x0007, name: "<control>", aliases: &["BELL"] },
        Codepoint { codepoint: 0x0008, name: "<control>", aliases: &["BACKSPACE"] },
        Codepoint { codepoint: 0x0009, name: "<control>", aliases: &["CHARACTER TABULATION"] },
        Codepoint { codepoint: 0x000A, name: "<control>", aliases: &["LINE FEED (LF)"] },
        Codepoint { codepoint: 0x000B, name: "<control>", aliases: &["LINE TABULATION"] },
        Codepoint { codepoint: 0x000C, name: "<control>", aliases: &["FORM FEED (FF)"] },
        Codepoint { codepoint: 0x000D, name: "<control>", aliases: &["CARRIAGE RETURN (CR)"] },
        Codepoint { codepoint: 0x000E, name: "<control>", aliases: &["SHIFT OUT"] },
        Codepoint { codepoint: 0x000F, name: "<control>", aliases: &["SHIFT IN"] },
        Codepoint { codepoint: 0x0010, name: "<control>", aliases: &["DATA LINK ESCAPE"] },
        Codepoint { codepoint: 0x0011, name: "<control>", aliases: &["DEVICE CONTROL ONE"] },
        Codepoint { codepoint: 0x0012, name: "<control>", aliases: &["DEVICE CONTROL TWO"] },
        Codepoint { codepoint: 0x0013, name: "<control>", aliases: &["DEVICE CONTROL THREE"] },
        Codepoint { codepoint: 0x0014, name: "<control>", aliases: &["DEVICE CONTROL FOUR"] },
        Codepoint { codepoint: 0x0015, name: "<control>", aliases: &["NEGATIVE ACKNOWLEDGE"] },
        Codepoint { codepoint: 0x0016, name: "<control>", aliases: &["SYNCHRONOUS IDLE"] },
        Codepoint { codepoint: 0x0017, name: "<control>", aliases: &["END OF TRANSMISSION BLOCK"] },
        Codepoint { codepoint: 0x0018, name: "<control>", aliases: &["CANCEL"] },
        Codepoint { codepoint: 0x0019, name: "<control>", aliases: &["END OF MEDIUM"] },
        Codepoint { codepoint: 0x001A, name: "<control>", aliases: &["SUBSTITUTE"] },
        Codepoint { codepoint: 0x001B, name: "<control>", aliases: &["ESCAPE"] },
        Codepoint { codepoint: 0x001C, name: "<control>", aliases: &["INFORMATION SEPARATOR FOUR"] },
        Codepoint { codepoint: 0x001D, name: "<control>", aliases: &["INFORMATION SEPARATOR THREE"] },
        Codepoint { codepoint: 0x001E, name: "<control>", aliases: &["INFORMATION SEPARATOR TWO"] },
        Codepoint { codepoint: 0x001F, name: "<control>", aliases: &["INFORMATION SEPARATOR ONE"] },
        Codepoint { codepoint: 0x0020, name: "SPACE", aliases: &[] },
        Codepoint { codepoint: 0x0021, name: "EXCLAMATION MARK", aliases: &[] },
        Codepoint { codepoint: 0x0022, name: "QUOTATION MARK", aliases: &[] },
        Codepoint { codepoint: 0x0023, name: "NUMBER SIGN", aliases: &[] },
        Codepoint { codepoint: 0x0024, name: "DOLLAR SIGN", aliases: &[] },
        Codepoint { codepoint: 0x0025, name: "PERCENT SIGN", aliases: &[] },
        Codepoint { codepoint: 0x0026, name: "AMPERSAND", aliases: &[] },
        Codepoint { codepoint: 0x0027, name: "APOSTROPHE", aliases: &["APOSTROPHE-QUOTE"] },
    ];
    assert(v@ =~= codepoint_table_0());
    v
}

pub open spec fn codepoint_table_1() -> Seq<Codepoint> {
    seq![
        Codepoint { codepoint: 0x0028, name: "LEFT PARENTHESIS", aliases: &["OPENING PARENTHESIS"] },
        Codepoint { codepoint: 0x0029, name: "RIGHT PARENTHESIS", aliases: &["CLOSING PARENTHESIS"] },
        Codepoint { codepoint: 0x002A, name: "ASTERISK", aliases: &[] },
        Codepoint { codepoint: 0x002B, name: "PLUS SIGN", aliases: &[] },
        Codepoint { codepoint: 0x002C, name: "COMMA", aliases: &[] },
        Codepoint { codepoint: 0x002D, name: "HYPHEN-MINUS", aliases: &[] },
        Codepoint { codepoint: 0x002E, name: "FULL STOP", aliases: &["PERIOD"] },
        Codepoint { codepoint: 0x002F, name: "SOLIDUS", aliases: &["SLASH"] },
        Codepoint { codepoint: 0x0030, name: "DIGIT ZERO", aliases: &[] },
        Codepoint { codepoint: 0x0031, name: "DIGIT ONE", aliases: &[] },
        Codepoint { codepoint: 0x0032, name: "DIGIT TWO", aliases: &[] },
        Codepoint { codepoint: 0x0033, name: "DIGIT THREE", aliases: &[] },
        Codepoint { codepoint: 0x0034, name: "DIGIT FOUR", aliases: &[] },
        Codepoint { codepoint: 0x0035, name: "DIGIT FIVE", aliases: &[] },
        Codepoint { codepoint: 0x0036, name: "DIGIT SIX", aliases: &[] },
        Codepoint { codepoint: 0x0037, name: "DIGIT SEVEN", aliases: &[] },
        Codepoint { codepoint: 0x0038, name: "DIGIT EIGHT", aliases: &[] },
        Codepoint { codepoint: 0x0039, name: "DIGIT NINE", aliases: &[] },
        Codepoint { codepoint: 0x003A, name: "COLON", aliases: &[] },
        Codepoint { codepoint: 0x003B, name: "SEMICOLON", aliases: &[] },
        Codepoint { codepoint: 0x003C, name: "LESS-THAN SIGN", aliases: &[] },
        Codepoint { codepoint: 0x003D, name: "EQUALS SIGN", aliases: &[] },
        Codepoint { codepoint: 0x003E, name: "GREATER-THAN SIGN", aliases: &[] },
        Codepoint { codepoint: 0x003F, name: "QUESTION MARK", aliases: &[] },
        Codepoint { codepoint: 0x0040, name: "COMMERCIAL AT", aliases: &[] },
        Codepoint { codepoint: 0x0041, name: "LATIN CAPITAL LETTER A", aliases: &[] },
        Codepoint { codepoint: 0x0042, name: "LATIN CAPITAL LETTER B", aliases: &[] },
        Codepoint { codepoint: 0x0043, name: "LATIN CAPITAL LETTER C", aliases: &[] },
        Codepoint { codepoint: 0x0044, name: "LATIN CAPITAL LETTER D", aliases: &[] },
        Codepoint { codepoint: 0x0045, name: "LATIN CAPITAL LETTER E", aliases: &[] },
        Codepoint { codepoint: 0x0046, name: "LATIN CAPITAL LETTER F", aliases: &[] },
        Codepoint { codepoint: 0x0047, name: "LATIN CAPITAL LETTER G", aliases: &[] },
        Codepoint { codepoint: 0x0048, name: "LATIN CAPITAL LETTER H", aliases: &[] },
        Codepoint { codepoint: 0x0049, name: "LATIN CAPITAL LETTER I", aliases: &[] },
        Codepoint { codepoint: 0x004A, name: "LATIN CAPITAL LETTER J", aliases: &[] },
        Codepoint { codepoint: 0x004B, name: "LATIN CAPITAL LETTER K", aliases: &[] },
        Codepoint { codepoint: 0x004C, name: "LATIN CAPITAL LETTER L", aliases: &[] },
        Codepoint { codepoint: 0x004D, name: "LATIN CAPITAL LETTER M", aliases: &[] },
        Codepoint { codepoint: 0x004E, name: "LATIN CAPITAL LETTER N", aliases: &[] },
        Codepoint { codepoint: 0x004F, name: "LATIN CAPITAL LETTER O", aliases: &[] },
    ]
}

fn all_codepoints_1() -> (v: Vec<Codepoint>)
    ensures
        v@ == codepoint_table_1(),
{
    let v = vec![
        Codepoint { codepoint: 0x0028, name: "LEFT PARENTHESIS", aliases: &["OPENING PARENTHESIS"] },
        Codepoint { codepoint: 0x0029, name: "RIGHT PARENTHESIS", aliases: &["CLOSING PARENTHESIS"] },
        Codepoint { codepoint: 0x002A, name: "ASTERISK", aliases: &[] },
        Codepoint { codepoint: 0x002B, name: "PLUS SIGN", aliases: &[] },
        Codepoint { codepoint: 0x002C, name: "COMMA", aliases: &[] },
        Codepoint { codepoint: 0x002D, name: "HYPHEN-MINUS", aliases: &[] },
        Codepoint { codepoint: 0x002E, name: "FULL STOP", aliases: &["PERIOD"] },
        Codepoint { codepoint: 0x002F, name: "SOLIDUS", aliases: &["SLASH"] },
        Codepoint { codepoint: 0x0030, name: "DIGIT ZERO", aliases: &[] },
        Codepoint { codepoint: 0x0031, name: "DIGIT ONE", aliases: &[] },
        Codepoint { codepoint: 0x0032, name: "DIGIT TWO", aliases: &[] },
        Codepoint { codepoint: 0x0033, name: "DIGIT THREE", aliases: &[] },
        Codepoint { codepoint: 0x0034, name: "DIGIT FOUR", aliases: &[] },
        Codepoint { codepoint: 0x0035, name: "DIGIT FIVE", aliases: &[] },
        Codepoint { codepoint: 0x0036, name: "DIGIT SIX", aliases: &[] },
        Codepoint { codepoint: 0x0037, name: "DIGIT SEVEN", aliases: &[] },
        Codepoint { codepoint: 0x0038, name: "DIGIT EIGHT", aliases: &[] },
        Codepoint { codepoint: 0x0039, name: "DIGIT NINE", aliases: &[] },
        Codepoint { codepoint: 0x003A, name: "COLON", aliases: &[] },
        Codepoint { codepoint: 0x003B, name: "SEMICOLON", aliases: &[] },
        Codepoint { codepoint: 0x003C, name: "LESS-THAN SIGN", aliases: &[] },
        Codepoint { codepoint: 0x003D, name: "EQUALS SIGN", aliases: &[] },
        Codepoint { codepoint: 0x003E, name: "GREATER-THAN SIGN", aliases: &[] },
        Codepoint { codepoint: 0x003F, name: "QUESTION MARK", aliases: &[] },
        Codepoint { codepoint: 0x0040, name: "COMMERCIAL AT", aliases: &[] },
        Codepoint { codepoint: 0x0041, name: "LATIN CAPITAL LETTER A", aliases: &[] },
        Codepoint { codepoint: 0x0042, name: "LATIN CAPITAL LETTER B", aliases: &[] },
        Codepoint { codepoint: 0x0043, name: "LATIN CAPITAL LETTER C", aliases: &[] },
        Codepoint { codepoint: 0x0044, name: "LATIN CAPITAL LETTER D", aliases: &[] },
        Codepoint { codepoint: 0x0045, name: "LATIN CAPITAL LETTER E", aliases: &[] },
        Codepoint { codepoint: 0x0046, name: "LATIN CAPITAL LETTER F", aliases: &[] },
        Codepoint { codepoint: 0x0047, name: "LATIN CAPITAL LETTER G", aliases: &[] },
        Codepoint { codepoint: 0x0048, name: "LATIN CAPITAL LETTER H", aliases: &[] },
        Codepoint { codepoint: 0x0049, name: "LATIN CAPITAL LETTER I", aliases: &[] },
        Codepoint { codepoint: 0x004A, name: "LATIN CAPITAL LETTER J", aliases: &[] },
        Codepoint { codepoint: 0x004B, name: "LATIN CAPITAL LETTER K", aliases: &[] },
        Codepoint { codepoint: 0x004C, name: "LATIN CAPITAL LETTER L", aliases: &[] },
        Codepoint { codepoint: 0x004D, name: "LATIN CAPITAL LETTER M", aliases: &[] },
        Codepoint { codepoint: 0x004E, name: "LATIN CAPITAL LETTER N", aliases: &[] },
        Codepoint { codepoint: 0x004F, name: "LATIN CAPITAL LETTER O", aliases: &[] },
    ];
    assert(v@ =~= codepoint_table_1());
    v
}

pub open spec fn codepoint_table_2() -> Seq<Codepoint> {
    seq![
        Codepoint { codepoint: 0x0050, name: "LATIN CAPITAL LETTER P", aliases: &[] },
        Codepoint { codepoint: 0x0051, name: "LATIN CAPITAL LETTER Q", aliases: &[] },
        Codepoint { codepoint: 0x0052, name: "LATIN CAPITAL LETTER R", aliases: &[] },
        Codepoint { codepoint: 0x0053, name: "LATIN CAPITAL LETTER S", aliases: &[] },
        Codepoint { codepoint: 0x0054, name: "LATIN CAPITAL LETTER T", aliases: &[] },
        Codepoint { codepoint: 0x0055, name: "LATIN CAPITAL LETTER U", aliases: &[] },
        Codepoint { codepoint: 0x0056, name: "LATIN CAPITAL LETTER V", aliases: &[] },
        Codepoint { codepoint: 0x0057, name: "LATIN CAPITAL LETTER W", aliases: &[] },
        Codepoint { codepoint: 0x0058, name: "LATIN CAPITAL LETTER X", aliases: &[] },
        Codepoint { codepoint: 0x0059, name: "LATIN CAPITAL LETTER Y", aliases: &[] },
        Codepoint { codepoint: 0x005A, name: "LATIN CAPITAL LETTER Z", aliases: &[] },
        Codepoint { codepoint: 0x005B, name: "LEFT SQUARE BRACKET", aliases: &["OPENING SQUARE BRACKET"] },
        Codepoint { codepoint: 0x005C, name: "REVERSE SOLIDUS", aliases: &["BACKSLASH"] },
        Codepoint { codepoint: 0x005D, name: "RIGHT SQUARE BRACKET", aliases: &["CLOSING SQUARE BRACKET"] },
        Codepoint { codepoint: 0x005E, name: "CIRCUMFLEX ACCENT", aliases: &["SPACING CIRCUMFLEX"] },
        Codepoint { codepoint: 0x005F, name: "LOW LINE", aliases: &["SPACING UNDERSCORE"] },
        Codepoint { codepoint: 0x0060, name: "GRAVE ACCENT", aliases: &["SPACING GRAVE"] },
        Codepoint { codepoint: 0x0061, name: "LATIN SMALL LETTER A", aliases: &[] },
        Codepoint { codepoint: 0x0062, name: "LATIN SMALL LETTER B", aliases: &[] },
        Codepoint { codepoint: 0x0063, name: "LATIN SMALL LETTER C", aliases: &[] },
        Codepoint { codepoint: 0x0064, name: "LATIN SMALL LETTER D", aliases: &[] },
        Codepoint { codepoint: 0x0065, name: "LATIN SMALL LETTER E", aliases: &[] },
        Codepoint { codepoint: 0x0066, name: "LATIN SMALL LETTER F", aliases: &[] },
        Codepoint { codepoint: 0x0067, name: "LATIN SMALL LETTER G", aliases: &[] },
        Codepoint { codepoint: 0x0068, name: "LATIN SMALL LETTER H", aliases: &[] },
        Codepoint { codepoint: 0x0069, name: "LATIN SMALL LETTER I", aliases: &[] },
        Codepoint { codepoint: 0x006A, name: "LATIN SMALL LETTER J", aliases: &[] },
        Codepoint { codepoint: 0x006B, name: "LATIN SMALL LETTER K", aliases: &[] },
        Codepoint { codepoint: 0x006C, name: "LATIN SMALL LETTER L", aliases: &[] },
        Codepoint { codepoint: 0x006D, name: "LATIN SMALL LETTER M", aliases: &[] },
        Codepoint { codepoint: 0x006E, name: "LATIN SMALL LETTER N", aliases: &[] },
        Codepoint { codepoint: 0x006F, name: "LATIN SMALL LETTER O", aliases: &[] },
        Codepoint { codepoint: 0x0070, name: "LATIN SMALL LETTER P", aliases: &[] },
        Codepoint { codepoint: 0x0071, name: "LATIN SMALL LETTER Q", aliases: &[] },
        Codepoint { codepoint: 0x0072, name: "LATIN SMALL LETTER R", aliases: &[] },
        Codepoint { codepoint: 0x0073, name: "LATIN SMALL LETTER S", aliases: &[] },
        Codepoint { codepoint: 0x0074, name: "LATIN SMALL LETTER T", aliases: &[] },
        Codepoint { codepoint: 0x0075, name: "LATIN SMALL LETTER U", aliases: &[] },
        Codepoint { codepoint: 0x0076, name: "LATIN SMALL LETTER V", aliases: &[] },
        Codepoint { codepoint: 0x0077, name: "LATIN SMALL LETTER W", aliases: &[] },
    ]
}

fn all_codepoints_2() -> (v: Vec<Codepoint>)
    ensures
        v@ == codepoint_table_2(),
{
    let v = vec![
        Codepoint { codepoint: 0x0050, name: "LATIN CAPITAL LETTER P", aliases: &[] },
        Codepoint { codepoint: 0x0051, name: "LATIN CAPITAL LETTER Q", aliases: &[] },
        Codepoint { codepoint: 0x0052, name: "LATIN CAPITAL LETTER R", aliases: &[] },
        Codepoint { codepoint: 0x0053, name: "LATIN CAPITAL LETTER S", aliases: &[] },
        Codepoint { codepoint: 0x0054, name: "LATIN CAPITAL LETTER T", aliases: &[] },
        Codepoint { codepoint: 0x0055, name: "LATIN CAPITAL LETTER U", aliases: &[] },
        Codepoint { codepoint: 0x0056, name: "LATIN CAPITAL LETTER V", aliases: &[] },
        Codepoint { codepoint: 0x0057, name: "LATIN CAPITAL LETTER W", aliases: &[] },
        Codepoint { codepoint: 0x0058, name: "LATIN CAPITAL LETTER X", aliases: &[] },
        Codepoint { codepoint: 0x0059, name: "LATIN CAPITAL LETTER Y", aliases: &[] },
        Codepoint { codepoint: 0x005A, name: "LATIN CAPITAL LETTER Z", aliases: &[] },
        Codepoint { codepoint: 0x005B, name: "LEFT SQUARE BRACKET", aliases: &["OPENING SQUARE BRACKET"] },
        Codepoint { codepoint: 0x005C, name: "REVERSE SOLIDUS", aliases: &["BACKSLASH"] },
        Codepoint { codepoint: 0x005D, name: "RIGHT SQUARE BRACKET", aliases: &["CLOSING SQUARE BRACKET"] },
        Codepoint { codepoint: 0x005E, name: "CIRCUMFLEX ACCENT", aliases: &["SPACING CIRCUMFLEX"] },
        Codepoint { codepoint: 0x005F, name: "LOW LINE", aliases: &["SPACING UNDERSCORE"] },
        Codepoint { codepoint: 0x0060, name: "GRAVE ACCENT", aliases: &["SPACING GRAVE"] },
        Codepoint { codepoint: 0x0061, name: "LATIN SMALL LETTER A", aliases: &[] },
        Codepoint { codepoint: 0x0062, name: "LATIN SMALL LETTER B", aliases: &[] },
        Codepoint { codepoint: 0x0063, name: "LATIN SMALL LETTER C", aliases: &[] },
        Codepoint { codepoint: 0x0064, name: "LATIN SMALL LETTER D", aliases: &[] },
        Codepoint { codepoint: 0x0065, name: "LATIN SMALL LETTER E", aliases: &[] },
        Codepoint { codepoint: 0x0066, name: "LATIN SMALL LETTER F", aliases: &[] },
        Codepoint { codepoint: 0x0067, name: "LATIN SMALL LETTER G", aliases: &[] },
        Codepoint { codepoint: 0x0068, name: "LATIN SMALL LETTER H", aliases: &[] },
        Codepoint { codepoint: 0x0069, name: "LATIN SMALL LETTER I", aliases: &[] },
        Codepoint { codepoint: 0x006A, name: "LATIN SMALL LETTER J", aliases: &[] },
        Codepoint { codepoint: 0x006B, name: "LATIN SMALL LETTER K", aliases: &[] },
        Codepoint { codepoint: 0x006C, name: "LATIN SMALL LETTER L", aliases: &[] },
        Codepoint { codepoint: 0x006D, name: "LATIN SMALL LETTER M", aliases: &[] },
        Codepoint { codepoint: 0x006E, name: "LATIN SMALL LETTER N", aliases: &[] },
        Codepoint { codepoint: 0x006F, name: "LATIN SMALL LETTER O", aliases: &[] },
        Codepoint { codepoint: 0x0070, name: "LATIN SMALL LETTER P", aliases: &[] },
        Codepoint { codepoint: 0x0071, name: "LATIN SMALL LETTER Q", aliases: &[] },
        Codepoint { codepoint: 0x0072, name: "LATIN SMALL LETTER R", aliases: &[] },
        Codepoint { codepoint: 0x0073, name: "LATIN SMALL LETTER S", aliases: &[] },
        Codepoint { codepoint: 0x0074, name: "LATIN SMALL LETTER T", aliases: &[] },
        Codepoint { codepoint: 0x0075, name: "LATIN SMALL LETTER U", aliases: &[] },
        Codepoint { codepoint: 0x0076, name: "LATIN SMALL LETTER V", aliases: &[] },
        Codepoint { codepoint: 0x0077, name: "LATIN SMALL LETTER W", aliases: &[] },
    ];
    assert(v@ =~= codepoint_table_2());
    v
}

pub open spec fn codepoint_table_3() -> Seq<Codepoint> {
    seq![
        Codepoint { codepoint: 0x0078, name: "LATIN SMALL LETTER X", aliases: &[] },
        Codepoint { codepoint: 0x0079, name: "LATIN SMALL LETTER Y", aliases: &[] },
        Codepoint { codepoint: 0x007A, name: "LATIN SMALL LETTER Z", aliases: &[] },
        Codepoint { codepoint: 0x007B, name: "LEFT CURLY BRACKET", aliases: &["OPENING CURLY BRACKET"] },
        Codepoint { codepoint: 0x007C, name: "VERTICAL LINE", aliases: &["VERTICAL BAR"] },
        Codepoint { codepoint: 0x007D, name: "RIGHT CURLY BRACKET", aliases: &["CLOSING CURLY BRACKET"] },
        Codepoint { codepoint: 0x007E, name: "TILDE", aliases: &[] },
        Codepoint { codepoint: 0x007F, name: "<control>", aliases: &["DELETE"] },
        Codepoint { codepoint: 0x0080, name: "<control>", aliases: &[] },
        Codepoint { codepoint: 0x0081, name: "<control>", aliases: &[] },
        Codepoint { codepoint: 0x0082, name: "<control>", aliases: &["BREAK PERMITTED HERE"] },
        Codepoint { codepoint: 0x0083, name: "<control>", aliases: &["NO BREAK HERE"] },
        Codepoint { codepoint: 0x0084, name: "<control>", aliases: &[] },
        Codepoint { codepoint: 0x0085, name: "<control>", aliases: &["NEXT LINE (NEL)"] },
        Codepoint { codepoint: 0x0086, name: "<control>", aliases: &["START OF SELECTED AREA"] },
        Codepoint { codepoint: 0x0087, name: "<control>", aliases: &["END OF SELECTED AREA"] },
        Codepoint { codepoint: 0x0088, name: "<control>", aliases: &["CHARACTER TABULATION SET"] },
        Codepoint { codepoint: 0x0089, name: "<control>", aliases: &["CHARACTER TABULATION WITH JUSTIFICATION"] },
        Codepoint { codepoint: 0x008A, name: "<control>", aliases: &["LINE TABULATION SET"] },
        Codepoint { codepoint: 0x008B, name: "<control>", aliases: &["PARTIAL LINE FORWARD"] },
        Codepoint { codepoint: 0x008C, name: "<control>", aliases: &["PARTIAL LINE BACKWARD"] },
        Codepoint { codepoint: 0x008D, name: "<control>", aliases: &["REVERSE LINE FEED"] },
        Codepoint { codepoint: 0x008E, name: "<control>", aliases: &["SINGLE SHIFT TWO"] },
        Codepoint { codepoint: 0x008F, name: "<control>", aliases: &["SINGLE SHIFT THREE"] },
        Codepoint { codepoint: 0x0090, name: "<control>", aliases: &["DEVICE CONTROL STRING"] },
        Codepoint { codepoint: 0x0091, name: "<control>", aliases: &["PRIVATE USE ONE"] },
        Codepoint { codepoint: 0x0092, name: "<control>", aliases: &["PRIVATE USE TWO"] },
        Codepoint { codepoint: 0x0093, name: "<control>", aliases: &["SET TRANSMIT STATE"] },
        Codepoint { codepoint: 0x0094, name: "<control>", aliases: &["CANCEL CHARACTER"] },
        Codepoint { codepoint: 0x0095, name: "<control>", aliases: &["MESSAGE WAITING"] },
        Codepoint { codepoint: 0x0096, name: "<control>", aliases: &["START OF GUARDED AREA"] },
        Codepoint { codepoint: 0x0097, name: "<control>", aliases: &["END OF GUARDED AREA"] },
        Codepoint { codepoint: 0x0098, name: "<control>", aliases: &["START OF STRING"] },
        Codepoint { codepoint: 0x0099, name: "<control>", aliases: &[] },
        Codepoint { codepoint: 0x009A, name: "<control>", aliases: &["SINGLE CHARACTER INTRODUCER"] },
        Codepoint { codepoint: 0x009B, name: "<control>", aliases: &["CONTROL SEQUENCE INTRODUCER"] },
        Codepoint { codepoint: 0x009C, name: "<control>", aliases: &["STRING TERMINATOR"] },
        Codepoint { codepoint: 0x009D, name: "<control>", aliases: &["OPERATING SYSTEM COMMAND"] },
        Codepoint { codepoint: 0x009E, name: "<control>", aliases: &["PRIVACY MESSAGE"] },
        Codepoint { codepoint: 0x009F, name: "<control>", aliases: &["APPLICATION PROGRAM COMMAND"] },
    ]
}

fn all_codepoints_3() -> (v: Vec<Codepoint>)
    ensures
        v@ == codepoint_table_3(),
{
    let v = vec![
        Codepoint { codepoint: 0x0078, name: "LATIN SMALL LETTER X", aliases: &[] },
        Codepoint { codepoint: 0x0079, name: "LATIN SMALL LETTER Y", aliases: &[] },
        Codepoint { codepoint: 0x007A, name: "LATIN SMALL LETTER Z", aliases: &[] },
        Codepoint { codepoint: 0x007B, name: "LEFT CURLY BRACKET", aliases: &["OPENING CURLY BRACKET"] },
        Codepoint { codepoint: 0x007C, name: "VERTICAL LINE", aliases: &["VERTICAL BAR"] },
        Codepoint { codepoint: 0x007D, name: "RIGHT CURLY BRACKET", aliases: &["CLOSING CURLY BRACKET"] },
        Codepoint { codepoint: 0x007E, name: "TILDE", aliases: &[] },
        Codepoint { codepoint: 0x007F, name: "<control>", aliases: &["DELETE"] },
        Codepoint { codepoint: 0x0080, name: "<control>", aliases: &[] },
        Codepoint { codepoint: 0x0081, name: "<control>", aliases: &[] },
        Codepoint { codepoint: 0x0082, name: "<control>", aliases: &["BREAK PERMITTED HERE"] },
        Codepoint { codepoint: 0x0083, name: "<control>", aliases: &["NO BREAK HERE"] },
        Codepoint { codepoint: 0x0084, name: "<control>", aliases: &[] },
        Codepoint { codepoint: 0x0085, name: "<control>", aliases: &["NEXT LINE (NEL)"] },
        Codepoint { codepoint: 0x0086, name: "<control>", aliases: &["START OF SELECTED AREA"] },
        Codepoint { codepoint: 0x0087, name: "<control>", aliases: &["END OF SELECTED AREA"] },
        Codepoint { codepoint: 0x0088, name: "<control>", aliases: &["CHARACTER TABULATION SET"] },
        Codepoint { codepoint: 0x0089, name: "<control>", aliases: &["CHARACTER TABULATION WITH JUSTIFICATION"] },
        Codepoint { codepoint: 0x008A, name: "<control>", aliases: &["LINE TABULATION SET"] },
        Codepoint { codepoint: 0x008B, name: "<control>", aliases: &["PARTIAL LINE FORWARD"] },
        Codepoint { codepoint: 0x008C, name: "<control>", aliases: &["PARTIAL LINE BACKWARD"] },
        Codepoint { codepoint: 0x008D, name: "<control>", aliases: &["REVERSE LINE FEED"] },
        Codepoint { codepoint: 0x008E, name: "<control>", aliases: &["SINGLE SHIFT TWO"] },
        Codepoint { codepoint: 0x008F, name: "<control>", aliases: &["SINGLE SHIFT THREE"] },
        Codepoint { codepoint: 0x0090, name: "<control>", aliases: &["DEVICE CONTROL STRING"] },
        Codepoint { codepoint: 0x0091, name: "<control>", aliases: &["PRIVATE USE ONE"] },
        Codepoint { codepoint: 0x0092, name: "<control>", aliases: &["PRIVATE USE TWO"] },
        Codepoint { codepoint: 0x0093, name: "<control>", aliases: &["SET TRANSMIT STATE"] },
        Codepoint { codepoint: 0x0094, name: "<control>", aliases: &["CANCEL CHARACTER"] },
        Codepoint { codepoint: 0x0095, name: "<control>", aliases: &["MESSAGE WAITING"] },
        Codepoint { codepoint: 0x0096, name: "<control>", aliases: &["START OF GUARDED AREA"] },
        Codepoint { codepoint: 0x0097, name: "<control>", aliases: &["END OF GUARDED AREA"] },
        Codepoint { codepoint: 0x0098, name: "<control>", aliases: &["START OF STRING"] },
        Codepoint { codepoint: 0x0099, name: "<control>", aliases: &[] },
        Codepoint { codepoint: 0x009A, name: "<control>", aliases: &["SINGLE CHARACTER INTRODUCER"] },
        Codepoint { codepoint: 0x009B, name: "<control>", aliases: &["CONTROL SEQUENCE INTRODUCER"] },
        Codepoint { codepoint: 0x009C, name: "<control>", aliases: &["STRING TERMINATOR"] },
        Codepoint { codepoint: 0x009D, name: "<control>", aliases: &["OPERATING SYSTEM COMMAND"] },
        Codepoint { codepoint: 0x009E, name: "<control>", aliases: &["PRIVACY MESSAGE"] },
        Codepoint { codepoint: 0x009F, name: "<control>", aliases: &["APPLICATION PROGRAM COMMAND"] },
    ];
    assert(v@ =~= codepoint_table_3());
    v
}

pub open spec fn codepoint_table_4() -> Seq<Codepoint> {
    seq![
        Codepoint { codepoint: 0x00A0, name: "NO-BREAK SPACE", aliases: &["NON-BREAKING SPACE"] },
        Codepoint { codepoint: 0x00A1, name: "INVERTED EXCLAMATION MARK", aliases: &[] },
        Codepoint { codepoint: 0x00A2, name: "CENT SIGN", aliases: &[] },
        Codepoint { codepoint: 0x00A3, name: "POUND SIGN", aliases: &[] },
        Codepoint { codepoint: 0x00A4, name: "CURRENCY SIGN", aliases: &[] },
        Codepoint { codepoint: 0x00A5, name: "YEN SIGN", aliases: &[] },
        Codepoint { codepoint: 0x00A6, name: "BROKEN BAR", aliases: &["BROKEN VERTICAL BAR"] },
        Codepoint { codepoint: 0x00A7, name: "SECTION SIGN", aliases: &[] },
        Codepoint { codepoint: 0x00A8, name: "DIAERESIS", aliases: &["SPACING DIAERESIS"] },
        Codepoint { codepoint: 0x00A9, name: "COPYRIGHT SIGN", aliases: &[] },
        Codepoint { codepoint: 0x00AA, name: "FEMININE ORDINAL INDICATOR", aliases: &[] },
        Codepoint { codepoint: 0x00AB, name: "LEFT-POINTING DOUBLE ANGLE QUOTATION MARK", aliases: &["LEFT POINTING GUILLEMET"] },
        Codepoint { codepoint: 0x00AC, name: "NOT SIGN", aliases: &[] },
        Codepoint { codepoint: 0x00AD, name: "SOFT HYPHEN", aliases: &[] },
        Codepoint { codepoint: 0x00AE, name: "REGISTERED SIGN", aliases: &["REGISTERED TRADE MARK SIGN"] },
        Codepoint { codepoint: 0x00AF, name: "MACRON", aliases: &["SPACING MACRON"] },
        Codepoint { codepoint: 0x00B0, name: "DEGREE SIGN", aliases: &[] },
        Codepoint { codepoint: 0x00B1, name: "PLUS-MINUS SIGN", aliases: &["PLUS-OR-MINUS SIGN"] },
        Codepoint { codepoint: 0x00B2, name: "SUPERSCRIPT TWO", aliases: &["SUPERSCRIPT DIGIT TWO"] },
        Codepoint { codepoint: 0x00B3, name: "SUPERSCRIPT THREE", aliases: &["SUPERSCRIPT DIGIT THREE"] },
        Codepoint { codepoint: 0x00B4, name: "ACUTE ACCENT", aliases: &["SPACING ACUTE"] },
        Codepoint { codepoint: 0x00B5, name: "MICRO SIGN", aliases: &[] },
        Codepoint { codepoint: 0x00B6, name: "PILCROW SIGN", aliases: &["PARAGRAPH SIGN"] },
        Codepoint { codepoint: 0x00B7, name: "MIDDLE DOT", aliases: &[] },
        Codepoint { codepoint: 0x00B8, name: "CEDILLA", aliases: &["SPACING CEDILLA"] },
        Codepoint { codepoint: 0x00B9, name: "SUPERSCRIPT ONE", aliases: &["SUPERSCRIPT DIGIT ONE"] },
        Codepoint { codepoint: 0x00BA, name: "MASCULINE ORDINAL INDICATOR", aliases: &[] },
        Codepoint { codepoint: 0x00BB, name: "RIGHT-POINTING DOUBLE ANGLE QUOTATION MARK", aliases: &["RIGHT POINTING GUILLEMET"] },
        Codepoint { codepoint: 0x00BC, name: "VULGAR FRACTION ONE QUARTER", aliases: &["FRACTION ONE QUARTER"] },
        Codepoint { codepoint: 0x00BD, name: "VULGAR FRACTION ONE HALF", aliases: &["FRACTION ONE HALF"] },
        Codepoint { codepoint: 0x00BE, name: "VULGAR FRACTION THREE QUARTERS", aliases: &["FRACTION THREE QUARTERS"] },
        Codepoint { codepoint: 0x00BF, name: "INVERTED QUESTION MARK", aliases: &[] },
        Codepoint { codepoint: 0x00C0, name: "LATIN CAPITAL LETTER A WITH GRAVE", aliases: &["LATIN CAPITAL LETTER A GRAVE"] },
        Codepoint { codepoint: 0x00C1, name: "LATIN CAPITAL LETTER A WITH ACUTE", aliases: &["LATIN CAPITAL LETTER A ACUTE"] },
        Codepoint { codepoint: 0x00C2, name: "LATIN CAPITAL LETTER A WITH CIRCUMFLEX", aliases: &["LATIN CAPITAL LETTER A CIRCUMFLEX"] },
        Codepoint { codepoint: 0x00C3, name: "LATIN CAPITAL LETTER A WITH TILDE", aliases: &["LATIN CAPITAL LETTER A TILDE"] },
        Codepoint { codepoint: 0x00C4, name: "LATIN CAPITAL LETTER A WITH DIAERESIS", aliases: &["LATIN CAPITAL LETTER A DIAERESIS"] },
        Codepoint { codepoint: 0x00C5, name: "LATIN CAPITAL LETTER A WITH RING ABOVE", aliases: &["LATIN CAPITAL LETTER A RING"] },
        Codepoint { codepoint: 0x00C6, name: "LATIN CAPITAL LETTER AE", aliases: &["LATIN CAPITAL LETTER A E"] },
        Codepoint { codepoint: 0x00C7, name: "LATIN CAPITAL LETTER C WITH CEDILLA", aliases: &["LATIN CAPITAL LETTER C CEDILLA"] },
    ]
}

fn all_codepoints_4() -> (v: Vec<Codepoint>)
    ensures
        v@ == codepoint_table_4(),
{
    let v = vec![
        Codepoint { codepoint: 0x00A0, name: "NO-BREAK SPACE", aliases: &["NON-BREAKING SPACE"] },
        Codepoint { codepoint: 0x00A1, name: "INVERTED EXCLAMATION MARK", aliases: &[] },
        Codepoint { codepoint: 0x00A2, name: "CENT SIGN", aliases: &[] },
        Codepoint { codepoint: 0x00A3, name: "POUND SIGN", aliases: &[] },
        Codepoint { codepoint: 0x00A4, name: "CURRENCY SIGN", aliases: &[] },
        Codepoint { codepoint: 0x00A5, name: "YEN SIGN", aliases: &[] },
        Codepoint { codepoint: 0x00A6, name: "BROKEN BAR", aliases: &["BROKEN VERTICAL BAR"] },
        Codepoint { codepoint: 0x00A7, name: "SECTION SIGN", aliases: &[] },
        Codepoint { codepoint: 0x00A8, name: "DIAERESIS", aliases: &["SPACING DIAERESIS"] },
        Codepoint { codepoint: 0x00A9, name: "COPYRIGHT SIGN", aliases: &[] },
        Codepoint { codepoint: 0x00AA, name: "FEMININE ORDINAL INDICATOR", aliases: &[] },
        Codepoint { codepoint: 0x00AB, name: "LEFT-POINTING DOUBLE ANGLE QUOTATION MARK", aliases: &["LEFT POINTING GUILLEMET"] },
        Codepoint { codepoint: 0x00AC, name: "NOT SIGN", aliases: &[] },
        Codepoint { codepoint: 0x00AD, name: "SOFT HYPHEN", aliases: &[] },
        Codepoint { codepoint: 0x00AE, name: "REGISTERED SIGN", aliases: &["REGISTERED TRADE MARK SIGN"] },
        Codepoint { codepoint: 0x00AF, name: "MACRON", aliases: &["SPACING MACRON"] },
        Codepoint { codepoint: 0x00B0, name: "DEGREE SIGN", aliases: &[] },
        Codepoint { codepoint: 0x00B1, name: "PLUS-MINUS SIGN", aliases: &["PLUS-OR-MINUS SIGN"] },
        Codepoint { codepoint: 0x00B2, name: "SUPERSCRIPT TWO", aliases: &["SUPERSCRIPT DIGIT TWO"] },
        Codepoint { codepoint: 0x00B3, name: "SUPERSCRIPT THREE", aliases: &["SUPERSCRIPT DIGIT THREE"] },
        Codepoint { codepoint: 0x00B4, name: "ACUTE ACCENT", aliases: &["SPACING ACUTE"] },
        Codepoint { codepoint: 0x00B5, name: "MICRO SIGN", aliases: &[] },
        Codepoint { codepoint: 0x00B6, name: "PILCROW SIGN", aliases: &["PARAGRAPH SIGN"] },
        Codepoint { codepoint: 0x00B7, name: "MIDDLE DOT", aliases: &[] },
        Codepoint { codepoint: 0x00B8, name: "CEDILLA", aliases: &["SPACING CEDILLA"] },
        Codepoint { codepoint: 0x00B9, name: "SUPERSCRIPT ONE", aliases: &["SUPERSCRIPT DIGIT ONE"] },
        Codepoint { codepoint: 0x00BA, name: "MASCULINE ORDINAL INDICATOR", aliases: &[] },
        Codepoint { codepoint: 0x00BB, name: "RIGHT-POINTING DOUBLE ANGLE QUOTATION MARK", aliases: &["RIGHT POINTING GUILLEMET"] },
        Codepoint { codepoint: 0x00BC, name: "VULGAR FRACTION ONE QUARTER", aliases: &["FRACTION ONE QUARTER"] },
        Codepoint { codepoint: 0x00BD, name: "VULGAR FRACTION ONE HALF", aliases: &["FRACTION ONE HALF"] },
        Codepoint { codepoint: 0x00BE, name: "VULGAR FRACTION THREE QUARTERS", aliases: &["FRACTION THREE QUARTERS"] },
        Codepoint { codepoint: 0x00BF, name: "INVERTED QUESTION MARK", aliases: &[] },
        Codepoint { codepoint: 0x00C0, name: "LATIN CAPITAL LETTER A WITH GRAVE", aliases: &["LATIN CAPITAL LETTER A GRAVE"] },
        Codepoint { codepoint: 0x00C1, name: "LATIN CAPITAL LETTER A WITH ACUTE", aliases: &["LATIN CAPITAL LETTER A ACUTE"] },
        Codepoint { codepoint: 0x00C2, name: "LATIN CAPITAL LETTER A WITH CIRCUMFLEX", aliases: &["LATIN CAPITAL LETTER A CIRCUMFLEX"] },
        Codepoint { codepoint: 0x00C3, name: "LATIN CAPITAL LETTER A WITH TILDE", aliases: &["LATIN CAPITAL LETTER A TILDE"] },
        Codepoint { codepoint: 0x00C4, name: "LATIN CAPITAL LETTER A WITH DIAERESIS", aliases: &["LATIN CAPITAL LETTER A DIAERESIS"] },
        Codepoint { codepoint: 0x00C5, name: "LATIN CAPITAL LETTER A WITH RING ABOVE", aliases: &["LATIN CAPITAL LETTER A RING"] },
        Codepoint { codepoint: 0x00C6, name: "LATIN CAPITAL LETTER AE", aliases: &["LATIN CAPITAL LETTER A E"] },
        Codepoint { codepoint: 0x00C7, name: "LATIN CAPITAL LETTER C WITH CEDILLA", aliases: &["LATIN CAPITAL LETTER C CEDILLA"] },
    ];
    assert(v@ =~= codepoint_table_4());
    v
}

pub open spec fn codepoint_table_5() -> Seq<Codepoint> {
    seq![
        Codepoint { codepoint: 0x00C8, name: "LATIN CAPITAL LETTER E WITH GRAVE", aliases: &["LATIN CAPITAL LETTER E GRAVE"] },
        Codepoint { codepoint: 0x00C9, name: "LATIN CAPITAL LETTER E WITH ACUTE", aliases: &["LATIN CAPITAL LETTER E ACUTE"] },
        Codepoint { codepoint: 0x00CA, name: "LATIN CAPITAL LETTER E WITH CIRCUMFLEX", aliases: &["LATIN CAPITAL LETTER E CIRCUMFLEX"] },
        Codepoint { codepoint: 0x00CB, name: "LATIN CAPITAL LETTER E WITH DIAERESIS", aliases: &["LATIN CAPITAL LETTER E DIAERESIS"] },
        Codepoint { codepoint: 0x00CC, name: "LATIN CAPITAL LETTER I WITH GRAVE", aliases: &["LATIN CAPITAL LETTER I GRAVE"] },
        Codepoint { codepoint: 0x00CD, name: "LATIN CAPITAL LETTER I WITH ACUTE", aliases: &["LATIN CAPITAL LETTER I ACUTE"] },
        Codepoint { codepoint: 0x00CE, name: "LATIN CAPITAL LETTER I WITH CIRCUMFLEX", aliases: &["LATIN CAPITAL LETTER I CIRCUMFLEX"] },
        Codepoint { codepoint: 0x00CF, name: "LATIN CAPITAL LETTER I WITH DIAERESIS", aliases: &["LATIN CAPITAL LETTER I DIAERESIS"] },
        Codepoint { codepoint: 0x00D0, name: "LATIN CAPITAL LETTER ETH", aliases: &[] },
        Codepoint { codepoint: 0x00D1, name: "LATIN CAPITAL LETTER N WITH TILDE", aliases: &["LATIN CAPITAL LETTER N TILDE"] },
        Codepoint { codepoint: 0x00D2, name: "LATIN CAPITAL LETTER O WITH GRAVE", aliases: &["LATIN CAPITAL LETTER O GRAVE"] },
        Codepoint { codepoint: 0x00D3, name: "LATIN CAPITAL LETTER O WITH ACUTE", aliases: &["LATIN CAPITAL LETTER O ACUTE"] },
        Codepoint { codepoint: 0x00D4, name: "LATIN CAPITAL LETTER O WITH CIRCUMFLEX", aliases: &["LATIN CAPITAL LETTER O CIRCUMFLEX"] },
        Codepoint { codepoint: 0x00D5, name: "LATIN CAPITAL LETTER O WITH TILDE", aliases: &["LATIN CAPITAL LETTER O TILDE"] },
        Codepoint { codepoint: 0x00D6, name: "LATIN CAPITAL LETTER O WITH DIAERESIS", aliases: &["LATIN CAPITAL LETTER O DIAERESIS"] },
        Codepoint { codepoint: 0x00D7, name: "MULTIPLICATION SIGN", aliases: &[] },
        Codepoint { codepoint: 0x00D8, name: "LATIN CAPITAL LETTER O WITH STROKE", aliases: &["LATIN CAPITAL LETTER O SLASH"] },
        Codepoint { codepoint: 0x00D9, name: "LATIN CAPITAL LETTER U WITH GRAVE", aliases: &["LATIN CAPITAL LETTER U GRAVE"] },
        Codepoint { codepoint: 0x00DA, name: "LATIN CAPITAL LETTER U WITH ACUTE", aliases: &["LATIN CAPITAL LETTER U ACUTE"] },
        Codepoint { codepoint: 0x00DB, name: "LATIN CAPITAL LETTER U WITH CIRCUMFLEX", aliases: &["LATIN CAPITAL LETTER U CIRCUMFLEX"] },
        Codepoint { codepoint: 0x00DC, name: "LATIN CAPITAL LETTER U WITH DIAERESIS", aliases: &["LATIN CAPITAL LETTER U DIAERESIS"] },
        Codepoint { codepoint: 0x00DD, name: "LATIN CAPITAL LETTER Y WITH ACUTE", aliases: &["LATIN CAPITAL LETTER Y ACUTE"] },
        Codepoint { codepoint: 0x00DE, name: "LATIN CAPITAL LETTER THORN", aliases: &[] },
        Codepoint { codepoint: 0x00DF, name: "LATIN SMALL LETTER SHARP S", aliases: &[] },
        Codepoint { codepoint: 0x00E0, name: "LATIN SMALL LETTER A WITH GRAVE", aliases: &["LATIN SMALL LETTER A GRAVE"] },
        Codepoint { codepoint: 0x00E1, name: "LATIN SMALL LETTER A WITH ACUTE", aliases: &["LATIN SMALL LETTER A ACUTE"] },
        Codepoint { codepoint: 0x00E2, name: "LATIN SMALL LETTER A WITH CIRCUMFLEX", aliases: &["LATIN SMALL LETTER A CIRCUMFLEX"] },
        Codepoint { codepoint: 0x00E3, name: "LATIN SMALL LETTER A WITH TILDE", aliases: &["LATIN SMALL LETTER A TILDE"] },
        Codepoint { codepoint: 0x00E4, name: "LATIN SMALL LETTER A WITH DIAERESIS", aliases: &["LATIN SMALL LETTER A DIAERESIS"] },
        Codepoint { codepoint: 0x00E5, name: "LATIN SMALL LETTER A WITH RING ABOVE", aliases: &["LATIN SMALL LETTER A RING"] },
        Codepoint { codepoint: 0x00E6, name: "LATIN SMALL LETTER AE", aliases: &["LATIN SMALL LETTER A E"] },
        Codepoint { codepoint: 0x00E7, name: "LATIN SMALL LETTER C WITH CEDILLA", aliases: &["LATIN SMALL LETTER C CEDILLA"] },
        Codepoint { codepoint: 0x00E8, name: "LATIN SMALL LETTER E WITH GRAVE", aliases: &["LATIN SMALL LETTER E GRAVE"] },
        Codepoint { codepoint: 0x00E9, name: "LATIN SMALL LETTER E WITH ACUTE", aliases: &["LATIN SMALL LETTER E ACUTE"] },
        Codepoint { codepoint: 0x00EA, name: "LATIN SMALL LETTER E WITH CIRCUMFLEX", aliases: &["LATIN SMALL LETTER E CIRCUMFLEX"] },
        Codepoint { codepoint: 0x00EB, name: "LATIN SMALL LETTER E WITH DIAERESIS", aliases: &["LATIN SMALL LETTER E DIAERESIS"] },
        Codepoint { codepoint: 0x00EC, name: "LATIN SMALL LETTER I WITH GRAVE", aliases: &["LATIN SMALL LETTER I GRAVE"] },
        Codepoint { codepoint: 0x00ED, name: "LATIN SMALL LETTER I WITH ACUTE", aliases: &["LATIN SMALL LETTER I ACUTE"] },
        Codepoint { codepoint: 0x00EE, name: "LATIN SMALL LETTER I WITH CIRCUMFLEX", aliases: &["LATIN SMALL LETTER I CIRCUMFLEX"] },
        Codepoint { codepoint: 0x00EF, name: "LATIN SMALL LETTER I WITH DIAERESIS", aliases: &["LATIN SMALL LETTER I DIAERESIS"] },
    ]
}

fn all_codepoints_5() -> (v: Vec<Codepoint>)
    ensures
        v@ == codepoint_table_5(),
{
    let v = vec![
        Codepoint { codepoint: 0x00C8, name: "LATIN CAPITAL LETTER E WITH GRAVE", aliases: &["LATIN CAPITAL LETTER E GRAVE"] },
        Codepoint { codepoint: 0x00C9, name: "LATIN CAPITAL LETTER E WITH ACUTE", aliases: &["LATIN CAPITAL LETTER E ACUTE"] },
        Codepoint { codepoint: 0x00CA, name: "LATIN CAPITAL LETTER E WITH CIRCUMFLEX", aliases: &["LATIN CAPITAL LETTER E CIRCUMFLEX"] },
        Codepoint { codepoint: 0x00CB, name: "LATIN CAPITAL LETTER E WITH DIAERESIS", aliases: &["LATIN CAPITAL LETTER E DIAERESIS"] },
        Codepoint { codepoint: 0x00CC, name: "LATIN CAPITAL LETTER I WITH GRAVE", aliases: &["LATIN CAPITAL LETTER I GRAVE"] },
        Codepoint { codepoint: 0x00CD, name: "LATIN CAPITAL LETTER I WITH ACUTE", aliases: &["LATIN CAPITAL LETTER I ACUTE"] },
        Codepoint { codepoint: 0x00CE, name: "LATIN CAPITAL LETTER I WITH CIRCUMFLEX", aliases: &["LATIN CAPITAL LETTER I CIRCUMFLEX"] },
        Codepoint { codepoint: 0x00CF, name: "LATIN CAPITAL LETTER I WITH DIAERESIS", aliases: &["LATIN CAPITAL LETTER I DIAERESIS"] },
        Codepoint { codepoint: 0x00D0, name: "LATIN CAPITAL LETTER ETH", aliases: &[] },
        Codepoint { codepoint: 0x00D1, name: "LATIN CAPITAL LETTER N WITH TILDE", aliases: &["LATIN CAPITAL LETTER N TILDE"] },
        Codepoint { codepoint: 0x00D2, name: "LATIN CAPITAL LETTER O WITH GRAVE", aliases: &["LATIN CAPITAL LETTER O GRAVE"] },
        Codepoint { codepoint: 0x00D3, name: "LATIN CAPITAL LETTER O WITH ACUTE", aliases: &["LATIN CAPITAL LETTER O ACUTE"] },
        Codepoint { codepoint: 0x00D4, name: "LATIN CAPITAL LETTER O WITH CIRCUMFLEX", aliases: &["LATIN CAPITAL LETTER O CIRCUMFLEX"] },
        Codepoint { codepoint: 0x00D5, name: "LATIN CAPITAL LETTER O WITH TILDE", aliases: &["LATIN CAPITAL LETTER O TILDE"] },
        Codepoint { codepoint: 0x00D6, name: "LATIN CAPITAL LETTER O WITH DIAERESIS", aliases: &["LATIN CAPITAL LETTER O DIAERESIS"] },
        Codepoint { codepoint: 0x00D7, name: "MULTIPLICATION SIGN", aliases: &[] },
        Codepoint { codepoint: 0x00D8, name: "LATIN CAPITAL LETTER O WITH STROKE", aliases: &["LATIN CAPITAL LETTER O SLASH"] },
        Codepoint { codepoint: 0x00D9, name: "LATIN CAPITAL LETTER U WITH GRAVE", aliases: &["LATIN CAPITAL LETTER U GRAVE"] },
        Codepoint { codepoint: 0x00DA, name: "LATIN CAPITAL LETTER U WITH ACUTE", aliases: &["LATIN CAPITAL LETTER U ACUTE"] },
        Codepoint { codepoint: 0x00DB, name: "LATIN CAPITAL LETTER U WITH CIRCUMFLEX", aliases: &["LATIN CAPITAL LETTER U CIRCUMFLEX"] },
        Codepoint { codepoint: 0x00DC, name: "LATIN CAPITAL LETTER U WITH DIAERESIS", aliases: &["LATIN CAPITAL LETTER U DIAERESIS"] },
        Codepoint { codepoint: 0x00DD, name: "LATIN CAPITAL LETTER Y WITH ACUTE", aliases: &["LATIN CAPITAL LETTER Y ACUTE"] },
        Codepoint { codepoint: 0x00DE, name: "LATIN CAPITAL LETTER THORN", aliases: &[] },
        Codepoint { codepoint: 0x00DF, name: "LATIN SMALL LETTER SHARP S", aliases: &[] },
        Codepoint { codepoint: 0x00E0, name: "LATIN SMALL LETTER A WITH GRAVE", aliases: &["LATIN SMALL LETTER A GRAVE"] },
        Codepoint { codepoint: 0x00E1, name: "LATIN SMALL LETTER A WITH ACUTE", aliases: &["LATIN SMALL LETTER A ACUTE"] },
        Codepoint { codepoint: 0x00E2, name: "LATIN SMALL LETTER A WITH CIRCUMFLEX", aliases: &["LATIN SMALL LETTER A CIRCUMFLEX"] },
        Codepoint { codepoint: 0x00E3, name: "LATIN SMALL LETTER A WITH TILDE", aliases: &["LATIN SMALL LETTER A TILDE"] },
        Codepoint { codepoint: 0x00E4, name: "LATIN SMALL LETTER A WITH DIAERESIS", aliases: &["LATIN SMALL LETTER A DIAERESIS"] },
        Codepoint { codepoint: 0x00E5, name: "LATIN SMALL LETTER A WITH RING ABOVE", aliases: &["LATIN SMALL LETTER A RING"] },
        Codepoint { codepoint: 0x00E6, name: "LATIN SMALL LETTER AE", aliases: &["LATIN SMALL LETTER A E"] },
        Codepoint { codepoint: 0x00E7, name: "LATIN SMALL LETTER C WITH CEDILLA", aliases: &["LATIN SMALL LETTER C CEDILLA"] },
        Codepoint { codepoint: 0x00E8, name: "LATIN SMALL LETTER E WITH GRAVE", aliases: &["LATIN SMALL LETTER E GRAVE"] },
        Codepoint { codepoint: 0x00E9, name: "LATIN SMALL LETTER E WITH ACUTE", aliases: &["LATIN SMALL LETTER E ACUTE"] },
        Codepoint { codepoint: 0x00EA, name: "LATIN SMALL LETTER E WITH CIRCUMFLEX", aliases: &["LATIN SMALL LETTER E CIRCUMFLEX"] },
        Codepoint { codepoint: 0x00EB, name: "LATIN SMALL LETTER E WITH DIAERESIS", aliases: &["LATIN SMALL LETTER E DIAERESIS"] },
        Codepoint { codepoint: 0x00EC, name: "LATIN SMALL LETTER I WITH GRAVE", aliases: &["LATIN SMALL LETTER I GRAVE"] },
        Codepoint { codepoint: 0x00ED, name: "LATIN SMALL LETTER I WITH ACUTE", aliases: &["LATIN SMALL LETTER I ACUTE"] },
        Codepoint { codepoint: 0x00EE, name: "LATIN SMALL LETTER I WITH CIRCUMFLEX", aliases: &["LATIN SMALL LETTER I CIRCUMFLEX"] },
        Codepoint { codepoint: 0x00EF, name: "LATIN SMALL LETTER I WITH DIAERESIS", aliases: &["LATIN SMALL LETTER I DIAERESIS"] },
    ];
    assert(v@ =~= codepoint_table_5());
    v
}

pub open spec fn codepoint_table_6() -> Seq<Codepoint> {
    seq![
        Codepoint { codepoint: 0x00F0, name: "LATIN SMALL LETTER ETH", aliases: &[] },
        Codepoint { codepoint: 0x00F1, name: "LATIN SMALL LETTER N WITH TILDE", aliases: &["LATIN SMALL LETTER N TILDE"] },
        Codepoint { codepoint: 0x00F2, name: "LATIN SMALL LETTER O WITH GRAVE", aliases: &["LATIN SMALL LETTER O GRAVE"] },
        Codepoint { codepoint: 0x00F3, name: "LATIN SMALL LETTER O WITH ACUTE", aliases: &["LATIN SMALL LETTER O ACUTE"] },
        Codepoint { codepoint: 0x00F4, name: "LATIN SMALL LETTER O WITH CIRCUMFLEX", aliases: &["LATIN SMALL LETTER O CIRCUMFLEX"] },
        Codepoint { codepoint: 0x00F5, name: "LATIN SMALL LETTER O WITH TILDE", aliases: &["LATIN SMALL LETTER O TILDE"] },
        Codepoint { codepoint: 0x00F6, name: "LATIN SMALL LETTER O WITH DIAERESIS", aliases: &["LATIN SMALL LETTER O DIAERESIS"] },
        Codepoint { codepoint: 0x00F7, name: "DIVISION SIGN", aliases: &[] },
        Codepoint { codepoint: 0x00F8, name: "LATIN SMALL LETTER O WITH STROKE", aliases: &["LATIN SMALL LETTER O SLASH"] },
        Codepoint { codepoint: 0x00F9, name: "LATIN SMALL LETTER U WITH GRAVE", aliases: &["LATIN SMALL LETTER U GRAVE"] },
        Codepoint { codepoint: 0x00FA, name: "LATIN SMALL LETTER U WITH ACUTE", aliases: &["LATIN SMALL LETTER U ACUTE"] },
        Codepoint { codepoint: 0x00FB, name: "LATIN SMALL LETTER U WITH CIRCUMFLEX", aliases: &["LATIN SMALL LETTER U CIRCUMFLEX"] },
        Codepoint { codepoint: 0x00FC, name: "LATIN SMALL LETTER U WITH DIAERESIS", aliases: &["LATIN SMALL LETTER U DIAERESIS"] },
        Codepoint { codepoint: 0x00FD, name: "LATIN SMALL LETTER Y WITH ACUTE", aliases: &["LATIN SMALL LETTER Y ACUTE"] },
        Codepoint { codepoint: 0x00FE, name: "LATIN SMALL LETTER THORN", aliases: &[] },
        Codepoint { codepoint: 0x00FF, name: "LATIN SMALL LETTER Y WITH DIAERESIS", aliases: &["LATIN SMALL LETTER Y DIAERESIS"] },
        Codepoint { codepoint: 0x0100, name: "LATIN CAPITAL LETTER A WITH MACRON", aliases: &["LATIN CAPITAL LETTER A MACRON"] },
        Codepoint { codepoint: 0x0101, name: "LATIN SMALL LETTER A WITH MACRON", aliases: &["LATIN SMALL LETTER A MACRON"] },
        Codepoint { codepoint: 0x0102, name: "LATIN CAPITAL LETTER A WITH BREVE", aliases: &["LATIN CAPITAL LETTER A BREVE"] },
        Codepoint { codepoint: 0x0103, name: "LATIN SMALL LETTER A WITH BREVE", aliases: &["LATIN SMALL LETTER A BREVE"] },
        Codepoint { codepoint: 0x0104, name: "LATIN CAPITAL LETTER A WITH OGONEK", aliases: &["LATIN CAPITAL LETTER A OGONEK"] },
        Codepoint { codepoint: 0x0105, name: "LATIN SMALL LETTER A WITH OGONEK", aliases: &["LATIN SMALL LETTER A OGONEK"] },
        Codepoint { codepoint: 0x0106, name: "LATIN CAPITAL LETTER C WITH ACUTE", aliases: &["LATIN CAPITAL LETTER C ACUTE"] },
        Codepoint { codepoint: 0x0107, name: "LATIN SMALL LETTER C WITH ACUTE", aliases: &["LATIN SMALL LETTER C ACUTE"] },
        Codepoint { codepoint: 0x0108, name: "LATIN CAPITAL LETTER C WITH CIRCUMFLEX", aliases: &["LATIN CAPITAL LETTER C CIRCUMFLEX"] },
        Codepoint { codepoint: 0x0109, name: "LATIN SMALL LETTER C WITH CIRCUMFLEX", aliases: &["LATIN SMALL LETTER C CIRCUMFLEX"] },
        Codepoint { codepoint: 0x010A, name: "LATIN CAPITAL LETTER C WITH DOT ABOVE", aliases: &["LATIN CAPITAL LETTER C DOT"] },
        Codepoint { codepoint: 0x010B, name: "LATIN SMALL LETTER C WITH DOT ABOVE", aliases: &["LATIN SMALL LETTER C DOT"] },
        Codepoint { codepoint: 0x010C, name: "LATIN CAPITAL LETTER C WITH CARON", aliases: &["LATIN CAPITAL LETTER C HACEK"] },
        Codepoint { codepoint: 0x010D, name: "LATIN SMALL LETTER C WITH CARON", aliases: &["LATIN SMALL LETTER C HACEK"] },
        Codepoint { codepoint: 0x010E, name: "LATIN CAPITAL LETTER D WITH CARON", aliases: &["LATIN CAPITAL LETTER D HACEK"] },
        Codepoint { codepoint: 0x010F, name: "LATIN SMALL LETTER D WITH CARON", aliases: &["LATIN SMALL LETTER D HACEK"] },
        Codepoint { codepoint: 0x0110, name: "LATIN CAPITAL LETTER D WITH STROKE", aliases: &["LATIN CAPITAL LETTER D BAR"] },
        Codepoint { codepoint: 0x0111, name: "LATIN SMALL LETTER D WITH STROKE", aliases: &["LATIN SMALL LETTER D BAR"] },
        Codepoint { codepoint: 0x0112, name: "LATIN CAPITAL LETTER E WITH MACRON", aliases: &["LATIN CAPITAL LETTER E MACRON"] },
        Codepoint { codepoint: 0x0113, name: "LATIN SMALL LETTER E WITH MACRON", aliases: &["LATIN SMALL LETTER E MACRON"] },
        Codepoint { codepoint: 0x0114, name: "LATIN CAPITAL LETTER E WITH BREVE", aliases: &["LATIN CAPITAL LETTER E BREVE"] },
        Codepoint { codepoint: 0x0115, name: "LATIN SMALL LETTER E WITH BREVE", aliases: &["LATIN SMALL LETTER E BREVE"] },
        Codepoint { codepoint: 0x0116, name: "LATIN CAPITAL LETTER E WITH DOT ABOVE", aliases: &["LATIN CAPITAL LETTER E DOT"] },
        Codepoint { codepoint: 0x0117, name: "LATIN SMALL LETTER E WITH DOT ABOVE", aliases: &["LATIN SMALL LETTER E DOT"] },
    ]
}

fn all_codepoints_6() -> (v: Vec<Codepoint>)
    ensures
        v@ == codepoint_table_6(),
{
    let v = vec![
        Codepoint { codepoint: 0x00F0, name: "LATIN SMALL LETTER ETH", aliases: &[] },
        Codepoint { codepoint: 0x00F1, name: "LATIN SMALL LETTER N WITH TILDE", aliases: &["LATIN SMALL LETTER N TILDE"] },
        Codepoint { codepoint: 0x00F2, name: "LATIN SMALL LETTER O WITH GRAVE", aliases: &["LATIN SMALL LETTER O GRAVE"] },
        Codepoint { codepoint: 0x00F3, name: "LATIN SMALL LETTER O WITH ACUTE", aliases: &["LATIN SMALL LETTER O ACUTE"] },
        Codepoint { codepoint: 0x00F4, name: "LATIN SMALL LETTER O WITH CIRCUMFLEX", aliases: &["LATIN SMALL LETTER O CIRCUMFLEX"] },
        Codepoint { codepoint: 0x00F5, name: "LATIN SMALL LETTER O WITH TILDE", aliases: &["LATIN SMALL LETTER O TILDE"] },
        Codepoint { codepoint: 0x00F6, name: "LATIN SMALL LETTER O WITH DIAERESIS", aliases: &["LATIN SMALL LETTER O DIAERESIS"] },
        Codepoint { codepoint: 0x00F7, name: "DIVISION SIGN", aliases: &[] },
        Codepoint { codepoint: 0x00F8, name: "LATIN SMALL LETTER O WITH STROKE", aliases: &["LATIN SMALL LETTER O SLASH"] },
        Codepoint { codepoint: 0x00F9, name: "LATIN SMALL LETTER U WITH GRAVE", aliases: &["LATIN SMALL LETTER U GRAVE"] },
        Codepoint { codepoint: 0x00FA, name: "LATIN SMALL LETTER U WITH ACUTE", aliases: &["LATIN SMALL LETTER U ACUTE"] },
        Codepoint { codepoint: 0x00FB, name: "LATIN SMALL LETTER U WITH CIRCUMFLEX", aliases: &["LATIN SMALL LETTER U CIRCUMFLEX"] },
        Codepoint { codepoint: 0x00FC, name: "LATIN SMALL LETTER U WITH DIAERESIS", aliases: &["LATIN SMALL LETTER U DIAERESIS"] },
        Codepoint { codepoint: 0x00FD, name: "LATIN SMALL LETTER Y WITH ACUTE", aliases: &["LATIN SMALL LETTER Y ACUTE"] },
        Codepoint { codepoint: 0x00FE, name: "LATIN SMALL LETTER THORN", aliases: &[] },
        Codepoint { codepoint: 0x00FF, name: "LATIN SMALL LETTER Y WITH DIAERESIS", aliases: &["LATIN SMALL LETTER Y DIAERESIS"] },
        Codepoint { codepoint: 0x0100, name: "LATIN CAPITAL LETTER A WITH MACRON", aliases: &["LATIN CAPITAL LETTER A MACRON"] },
        Codepoint { codepoint: 0x0101, name: "LATIN SMALL LETTER A WITH MACRON", aliases: &["LATIN SMALL LETTER A MACRON"] },
        Codepoint { codepoint: 0x0102, name: "LATIN CAPITAL LETTER A WITH BREVE", aliases: &["LATIN CAPITAL LETTER A BREVE"] },
        Codepoint { codepoint: 0x0103, name: "LATIN SMALL LETTER A WITH BREVE", aliases: &["LATIN SMALL LETTER A BREVE"] },
        Codepoint { codepoint: 0x0104, name: "LATIN CAPITAL LETTER A WITH OGONEK", aliases: &["LATIN CAPITAL LETTER A OGONEK"] },
        Codepoint { codepoint: 0x0105, name: "LATIN SMALL LETTER A WITH OGONEK", aliases: &["LATIN SMALL LETTER A OGONEK"] },
        Codepoint { codepoint: 0x0106, name: "LATIN CAPITAL LETTER C WITH ACUTE", aliases: &["LATIN CAPITAL LETTER C ACUTE"] },
        Codepoint { codepoint: 0x0107, name: "LATIN SMALL LETTER C WITH ACUTE", aliases: &["LATIN SMALL LETTER C ACUTE"] },
        Codepoint { codepoint: 0x0108, name: "LATIN CAPITAL LETTER C WITH CIRCUMFLEX", aliases: &["LATIN CAPITAL LETTER C CIRCUMFLEX"] },
        Codepoint { codepoint: 0x0109, name: "LATIN SMALL LETTER C WITH CIRCUMFLEX", aliases: &["LATIN SMALL LETTER C CIRCUMFLEX"] },
        Codepoint { codepoint: 0x010A, name: "LATIN CAPITAL LETTER C WITH DOT ABOVE", aliases: &["LATIN CAPITAL LETTER C DOT"] },
        Codepoint { codepoint: 0x010B, name: "LATIN SMALL LETTER C WITH DOT ABOVE", aliases: &["LATIN SMALL LETTER C DOT"] },
        Codepoint { codepoint: 0x010C, name: "LATIN CAPITAL LETTER C WITH CARON", aliases: &["LATIN CAPITAL LETTER C HACEK"] },
        Codepoint { codepoint: 0x010D, name: "LATIN SMALL LETTER C WITH CARON", aliases: &["LATIN SMALL LETTER C HACEK"] },
        Codepoint { codepoint: 0x010E, name: "LATIN CAPITAL LETTER D WITH CARON", aliases: &["LATIN CAPITAL LETTER D HACEK"] },
        Codepoint { codepoint: 0x010F, name: "LATIN SMALL LETTER D WITH CARON", aliases: &["LATIN SMALL LETTER D HACEK"] },
        Codepoint { codepoint: 0x0110, name: "LATIN CAPITAL LETTER D WITH STROKE", aliases: &["LATIN CAPITAL LETTER D BAR"] },
        Codepoint { codepoint: 0x0111, name: "LATIN SMALL LETTER D WITH STROKE", aliases: &["LATIN SMALL LETTER D BAR"] },
        Codepoint { codepoint: 0x0112, name: "LATIN CAPITAL LETTER E WITH MACRON", aliases: &["LATIN CAPITAL LETTER E MACRON"] },
        Codepoint { codepoint: 0x0113, name: "LATIN SMALL LETTER E WITH MACRON", aliases: &["LATIN SMALL LETTER E MACRON"] },
        Codepoint { codepoint: 0x0114, name: "LATIN CAPITAL LETTER E WITH BREVE", aliases: &["LATIN CAPITAL LETTER E BREVE"] },
        Codepoint { codepoint: 0x0115, name: "LATIN SMALL LETTER E WITH BREVE", aliases: &["LATIN SMALL LETTER E BREVE"] },
        Codepoint { codepoint: 0x0116, name: "LATIN CAPITAL LETTER E WITH DOT ABOVE", aliases: &["LATIN CAPITAL LETTER E DOT"] },
        Codepoint { codepoint: 0x0117, name: "LATIN SMALL LETTER E WITH DOT ABOVE", aliases: &["LATIN SMALL LETTER E DOT"] },
    ];
    assert(v@ =~= codepoint_table_6());
    v
}

pub open spec fn codepoint_table_7() -> Seq<Codepoint> {
    seq![
        Codepoint { codepoint: 0x0118, name: "LATIN CAPITAL LETTER E WITH OGONEK", aliases: &["LATIN CAPITAL LETTER E OGONEK"] },
        Codepoint { codepoint: 0x0119, name: "LATIN SMALL LETTER E WITH OGONEK", aliases: &["LATIN SMALL LETTER E OGONEK"] },
        Codepoint { codepoint: 0x011A, name: "LATIN CAPITAL LETTER E WITH CARON", aliases: &["LATIN CAPITAL LETTER E HACEK"] },
        Codepoint { codepoint: 0x011B, name: "LATIN SMALL LETTER E WITH CARON", aliases: &["LATIN SMALL LETTER E HACEK"] },
        Codepoint { codepoint: 0x011C, name: "LATIN CAPITAL LETTER G WITH CIRCUMFLEX", aliases: &["LATIN CAPITAL LETTER G CIRCUMFLEX"] },
        Codepoint { codepoint: 0x011D, name: "LATIN SMALL LETTER G WITH CIRCUMFLEX", aliases: &["LATIN SMALL LETTER G CIRCUMFLEX"] },
        Codepoint { codepoint: 0x011E, name: "LATIN CAPITAL LETTER G WITH BREVE", aliases: &["LATIN CAPITAL LETTER G BREVE"] },
        Codepoint { codepoint: 0x011F, name: "LATIN SMALL LETTER G WITH BREVE", aliases: &["LATIN SMALL LETTER G BREVE"] },
        Codepoint { codepoint: 0x0120, name: "LATIN CAPITAL LETTER G WITH DOT ABOVE", aliases: &["LATIN CAPITAL LETTER G DOT"] },
        Codepoint { codepoint: 0x0121, name: "LATIN SMALL LETTER G WITH DOT ABOVE", aliases: &["LATIN SMALL LETTER G DOT"] },
        Codepoint { codepoint: 0x0122, name: "LATIN CAPITAL LETTER G WITH CEDILLA", aliases: &["LATIN CAPITAL LETTER G CEDILLA"] },
        Codepoint { codepoint: 0x0123, name: "LATIN SMALL LETTER G WITH CEDILLA", aliases: &["LATIN SMALL LETTER G CEDILLA"] },
        Codepoint { codepoint: 0x0124, name: "LATIN CAPITAL LETTER H WITH CIRCUMFLEX", aliases: &["LATIN CAPITAL LETTER H CIRCUMFLEX"] },
        Codepoint { codepoint: 0x0125, name: "LATIN SMALL LETTER H WITH CIRCUMFLEX", aliases: &["LATIN SMALL LETTER H CIRCUMFLEX"] },
        Codepoint { codepoint: 0x0126, name: "LATIN CAPITAL LETTER H WITH STROKE", aliases: &["LATIN CAPITAL LETTER H BAR"] },
        Codepoint { codepoint: 0x0127, name: "LATIN SMALL LETTER H WITH STROKE", aliases: &["LATIN SMALL LETTER H BAR"] },
        Codepoint { codepoint: 0x0128, name: "LATIN CAPITAL LETTER I WITH TILDE", aliases: &["LATIN CAPITAL LETTER I TILDE"] },
        Codepoint { codepoint: 0x0129, name: "LATIN SMALL LETTER I WITH TILDE", aliases: &["LATIN SMALL LETTER I TILDE"] },
        Codepoint { codepoint: 0x012A, name: "LATIN CAPITAL LETTER I WITH MACRON", aliases: &["LATIN CAPITAL LETTER I MACRON"] },
        Codepoint { codepoint: 0x012B, name: "LATIN SMALL LETTER I WITH MACRON", aliases: &["LATIN SMALL LETTER I MACRON"] },
        Codepoint { codepoint: 0x012C, name: "LATIN CAPITAL LETTER I WITH BREVE", aliases: &["LATIN CAPITAL LETTER I BREVE"] },
        Codepoint { codepoint: 0x012D, name: "LATIN SMALL LETTER I WITH BREVE", aliases: &["LATIN SMALL LETTER I BREVE"] },
        Codepoint { codepoint: 0x012E, name: "LATIN CAPITAL LETTER I WITH OGONEK", aliases: &["LATIN CAPITAL LETTER I OGONEK"] },
        Codepoint { codepoint: 0x012F, name: "LATIN SMALL LETTER I WITH OGONEK", aliases: &["LATIN SMALL LETTER I OGONEK"] },
        Codepoint { codepoint: 0x0130, name: "LATIN CAPITAL LETTER I WITH DOT ABOVE", aliases: &["LATIN CAPITAL LETTER I DOT"] },
        Codepoint { codepoint: 0x0131, name: "LATIN SMALL LETTER DOTLESS I", aliases: &[] },
        Codepoint { codepoint: 0x0132, name: "LATIN CAPITAL LIGATURE IJ", aliases: &["LATIN CAPITAL LETTER I J"] },
        Codepoint { codepoint: 0x0133, name: "LATIN SMALL LIGATURE IJ", aliases: &["LATIN SMALL LETTER I J"] },
        Codepoint { codepoint: 0x0134, name: "LATIN CAPITAL LETTER J WITH CIRCUMFLEX", aliases: &["LATIN CAPITAL LETTER J CIRCUMFLEX"] },
        Codepoint { codepoint: 0x0135, name: "LATIN SMALL LETTER J WITH CIRCUMFLEX", aliases: &["LATIN SMALL LETTER J CIRCUMFLEX"] },
        Codepoint { codepoint: 0x0136, name: "LATIN CAPITAL LETTER K WITH CEDILLA", aliases: &["LATIN CAPITAL LETTER K CEDILLA"] },
        Codepoint { codepoint: 0x0137, name: "LATIN SMALL LETTER K WITH CEDILLA", aliases: &["LATIN SMALL LETTER K CEDILLA"] },
        Codepoint { codepoint: 0x0138, name: "LATIN SMALL LETTER KRA", aliases: &[] },
        Codepoint { codepoint: 0x0139, name: "LATIN CAPITAL LETTER L WITH ACUTE", aliases: &["LATIN CAPITAL LETTER L ACUTE"] },
        Codepoint { codepoint: 0x013A, name: "LATIN SMALL LETTER L WITH ACUTE", aliases: &["LATIN SMALL LETTER L ACUTE"] },
        Codepoint { codepoint: 0x013B, name: "LATIN CAPITAL LETTER L WITH CEDILLA", aliases: &["LATIN CAPITAL LETTER L CEDILLA"] },
        Codepoint { codepoint: 0x013C, name: "LATIN SMALL LETTER L WITH CEDILLA", aliases: &["LATIN SMALL LETTER L CEDILLA"] },
        Codepoint { codepoint: 0x013D, name: "LATIN CAPITAL LETTER L WITH CARON", aliases: &["LATIN CAPITAL LETTER L HACEK"] },
        Codepoint { codepoint: 0x013E, name: "LATIN SMALL LETTER L WITH CARON", aliases: &["LATIN SMALL LETTER L HACEK"] },
        Codepoint { codepoint: 0x013F, name: "LATIN CAPITAL LETTER L WITH MIDDLE DOT", aliases: &[] },
    ]
}

fn all_codepoints_7() -> (v: Vec<Codepoint>)
    ensures
        v@ == codepoint_table_7(),
{
    let v = vec![
        Codepoint { codepoint: 0x0118, name: "LATIN CAPITAL LETTER E WITH OGONEK", aliases: &["LATIN CAPITAL LETTER E OGONEK"] },
        Codepoint { codepoint: 0x0119, name: "LATIN SMALL LETTER E WITH OGONEK", aliases: &["LATIN SMALL LETTER E OGONEK"] },
        Codepoint { codepoint: 0x011A, name: "LATIN CAPITAL LETTER E WITH CARON", aliases: &["LATIN CAPITAL LETTER E HACEK"] },
        Codepoint { codepoint: 0x011B, name: "LATIN SMALL LETTER E WITH CARON", aliases: &["LATIN SMALL LETTER E HACEK"] },
        Codepoint { codepoint: 0x011C, name: "LATIN CAPITAL LETTER G WITH CIRCUMFLEX", aliases: &["LATIN CAPITAL LETTER G CIRCUMFLEX"] },
        Codepoint { codepoint: 0x011D, name: "LATIN SMALL LETTER G WITH CIRCUMFLEX", aliases: &["LATIN SMALL LETTER G CIRCUMFLEX"] },
        Codepoint { codepoint: 0x011E, name: "LATIN CAPITAL LETTER G WITH BREVE", aliases: &["LATIN CAPITAL LETTER G BREVE"] },
        Codepoint { codepoint: 0x011F, name: "LATIN SMALL LETTER G WITH BREVE", aliases: &["LATIN SMALL LETTER G BREVE"] },
        Codepoint { codepoint: 0x0120, name: "LATIN CAPITAL LETTER G WITH DOT ABOVE", aliases: &["LATIN CAPITAL LETTER G DOT"] },
        Codepoint { codepoint: 0x0121, name: "LATIN SMALL LETTER G WITH DOT ABOVE", aliases: &["LATIN SMALL LETTER G DOT"] },
        Codepoint { codepoint: 0x0122, name: "LATIN CAPITAL LETTER G WITH CEDILLA", aliases: &["LATIN CAPITAL LETTER G CEDILLA"] },
        Codepoint { codepoint: 0x0123, name: "LATIN SMALL LETTER G WITH CEDILLA", aliases: &["LATIN SMALL LETTER G CEDILLA"] },
        Codepoint { codepoint: 0x0124, name: "LATIN CAPITAL LETTER H WITH CIRCUMFLEX", aliases: &["LATIN CAPITAL LETTER H CIRCUMFLEX"] },
        Codepoint { codepoint: 0x0125, name: "LATIN SMALL LETTER H WITH CIRCUMFLEX", aliases: &["LATIN SMALL LETTER H CIRCUMFLEX"] },
        Codepoint { codepoint: 0x0126, name: "LATIN CAPITAL LETTER H WITH STROKE", aliases: &["LATIN CAPITAL LETTER H BAR"] },
        Codepoint { codepoint: 0x0127, name: "LATIN SMALL LETTER H WITH STROKE", aliases: &["LATIN SMALL LETTER H BAR"] },
        Codepoint { codepoint: 0x0128, name: "LATIN CAPITAL LETTER I WITH TILDE", aliases: &["LATIN CAPITAL LETTER I TILDE"] },
        Codepoint { codepoint: 0x0129, name: "LATIN SMALL LETTER I WITH TILDE", aliases: &["LATIN SMALL LETTER I TILDE"] },
        Codepoint { codepoint: 0x012A, name: "LATIN CAPITAL LETTER I WITH MACRON", aliases: &["LATIN CAPITAL LETTER I MACRON"] },
        Codepoint { codepoint: 0x012B, name: "LATIN SMALL LETTER I WITH MACRON", aliases: &["LATIN SMALL LETTER I MACRON"] },
        Codepoint { codepoint: 0x012C, name: "LATIN CAPITAL LETTER I WITH BREVE", aliases: &["LATIN CAPITAL LETTER I BREVE"] },
        Codepoint { codepoint: 0x012D, name: "LATIN SMALL LETTER I WITH BREVE", aliases: &["LATIN SMALL LETTER I BREVE"] },
        Codepoint { codepoint: 0x012E, name: "LATIN CAPITAL LETTER I WITH OGONEK", aliases: &["LATIN CAPITAL LETTER I OGONEK"] },
        Codepoint { codepoint: 0x012F, name: "LATIN SMALL LETTER I WITH OGONEK", aliases: &["LATIN SMALL LETTER I OGONEK"] },
        Codepoint { codepoint: 0x0130, name: "LATIN CAPITAL LETTER I WITH DOT ABOVE", aliases: &["LATIN CAPITAL LETTER I DOT"] },
        Codepoint { codepoint: 0x0131, name: "LATIN SMALL LETTER DOTLESS I", aliases: &[] },
        Codepoint { codepoint: 0x0132, name: "LATIN CAPITAL LIGATURE IJ", aliases: &["LATIN CAPITAL LETTER I J"] },
        Codepoint { codepoint: 0x0133, name: "LATIN SMALL LIGATURE IJ", aliases: &["LATIN SMALL LETTER I J"] },
        Codepoint { codepoint: 0x0134, name: "LATIN CAPITAL LETTER J WITH CIRCUMFLEX", aliases: &["LATIN CAPITAL LETTER J CIRCUMFLEX"] },
        Codepoint { codepoint: 0x0135, name: "LATIN SMALL LETTER J WITH CIRCUMFLEX", aliases: &["LATIN SMALL LETTER J CIRCUMFLEX"] },
        Codepoint { codepoint: 0x0136, name: "LATIN CAPITAL LETTER K WITH CEDILLA", aliases: &["LATIN CAPITAL LETTER K CEDILLA"] },
        Codepoint { codepoint: 0x0137, name: "LATIN SMALL LETTER K WITH CEDILLA", aliases: &["LATIN SMALL LETTER K CEDILLA"] },
        Codepoint { codepoint: 0x0138, name: "LATIN SMALL LETTER KRA", aliases: &[] },
        Codepoint { codepoint: 0x0139, name: "LATIN CAPITAL LETTER L WITH ACUTE", aliases: &["LATIN CAPITAL LETTER L ACUTE"] },
        Codepoint { codepoint: 0x013A, name: "LATIN SMALL LETTER L WITH ACUTE", aliases: &["LATIN SMALL LETTER L ACUTE"] },
        Codepoint { codepoint: 0x013B, name: "LATIN CAPITAL LETTER L WITH CEDILLA", aliases: &["LATIN CAPITAL LETTER L CEDILLA"] },
        Codepoint { codepoint: 0x013C, name: "LATIN SMALL LETTER L WITH CEDILLA", aliases: &["LATIN SMALL LETTER L CEDILLA"] },
        Codepoint { codepoint: 0x013D, name: "LATIN CAPITAL LETTER L WITH CARON", aliases: &["LATIN CAPITAL LETTER L HACEK"] },
        Codepoint { codepoint: 0x013E, name: "LATIN SMALL LETTER L WITH CARON", aliases: &["LATIN SMALL LETTER L HACEK"] },
        Codepoint { codepoint: 0x013F, name: "LATIN CAPITAL LETTER L WITH MIDDLE DOT", aliases: &[] },
    ];
    assert(v@ =~= codepoint_table_7());
    v
}

pub open spec fn codepoint_table_8() -> Seq<Codepoint> {
    seq![
        Codepoint { codepoint: 0x0140, name: "LATIN SMALL LETTER L WITH MIDDLE DOT", aliases: &[] },
        Codepoint { codepoint: 0x0141, name: "LATIN CAPITAL LETTER L WITH STROKE", aliases: &["LATIN CAPITAL LETTER L SLASH"] },
        Codepoint { codepoint: 0x0142, name: "LATIN SMALL LETTER L WITH STROKE", aliases: &["LATIN SMALL LETTER L SLASH"] },
        Codepoint { codepoint: 0x0143, name: "LATIN CAPITAL LETTER N WITH ACUTE", aliases: &["LATIN CAPITAL LETTER N ACUTE"] },
        Codepoint { codepoint: 0x0144, name: "LATIN SMALL LETTER N WITH ACUTE", aliases: &["LATIN SMALL LETTER N ACUTE"] },
        Codepoint { codepoint: 0x0145, name: "LATIN CAPITAL LETTER N WITH CEDILLA", aliases: &["LATIN CAPITAL LETTER N CEDILLA"] },
        Codepoint { codepoint: 0x0146, name: "LATIN SMALL LETTER N WITH CEDILLA", aliases: &["LATIN SMALL LETTER N CEDILLA"] },
        Codepoint { codepoint: 0x0147, name: "LATIN CAPITAL LETTER N WITH CARON", aliases: &["LATIN CAPITAL LETTER N HACEK"] },
        Codepoint { codepoint: 0x0148, name: "LATIN SMALL LETTER N WITH CARON", aliases: &["LATIN SMALL LETTER N HACEK"] },
        Codepoint { codepoint: 0x0149, name: "LATIN SMALL LETTER N PRECEDED BY APOSTROPHE", aliases: &["LATIN SMALL LETTER APOSTROPHE N"] },
        Codepoint { codepoint: 0x014A, name: "LATIN CAPITAL LETTER ENG", aliases: &[] },
        Codepoint { codepoint: 0x014B, name: "LATIN SMALL LETTER ENG", aliases: &[] },
        Codepoint { codepoint: 0x014C, name: "LATIN CAPITAL LETTER O WITH MACRON", aliases: &["LATIN CAPITAL LETTER O MACRON"] },
        Codepoint { codepoint: 0x014D, name: "LATIN SMALL LETTER O WITH MACRON", aliases: &["LATIN SMALL LETTER O MACRON"] },
        Codepoint { codepoint: 0x014E, name: "LATIN CAPITAL LETTER O WITH BREVE", aliases: &["LATIN CAPITAL LETTER O BREVE"] },
        Codepoint { codepoint: 0x014F, name: "LATIN SMALL LETTER O WITH BREVE", aliases: &["LATIN SMALL LETTER O BREVE"] },
        Codepoint { codepoint: 0x0150, name: "LATIN CAPITAL LETTER O WITH DOUBLE ACUTE", aliases: &["LATIN CAPITAL LETTER O DOUBLE ACUTE"] },
        Codepoint { codepoint: 0x0151, name: "LATIN SMALL LETTER O WITH DOUBLE ACUTE", aliases: &["LATIN SMALL LETTER O DOUBLE ACUTE"] },
        Codepoint { codepoint: 0x0152, name: "LATIN CAPITAL LIGATURE OE", aliases: &["LATIN CAPITAL LETTER O E"] },
        Codepoint { codepoint: 0x0153, name: "LATIN SMALL LIGATURE OE", aliases: &["LATIN SMALL LETTER O E"] },
        Codepoint { codepoint: 0x0154, name: "LATIN CAPITAL LETTER R WITH ACUTE", aliases: &["LATIN CAPITAL LETTER R ACUTE"] },
        Codepoint { codepoint: 0x0155, name: "LATIN SMALL LETTER R WITH ACUTE", aliases: &["LATIN SMALL LETTER R ACUTE"] },
        Codepoint { codepoint: 0x0156, name: "LATIN CAPITAL LETTER R WITH CEDILLA", aliases: &["LATIN CAPITAL LETTER R CEDILLA"] },
        Codepoint { codepoint: 0x0157, name: "LATIN SMALL LETTER R WITH CEDILLA", aliases: &["LATIN SMALL LETTER R CEDILLA"] },
        Codepoint { codepoint: 0x0158, name: "LATIN CAPITAL LETTER R WITH CARON", aliases: &["LATIN CAPITAL LETTER R HACEK"] },
        Codepoint { codepoint: 0x0159, name: "LATIN SMALL LETTER R WITH CARON", aliases: &["LATIN SMALL LETTER R HACEK"] },
        Codepoint { codepoint: 0x015A, name: "LATIN CAPITAL LETTER S WITH ACUTE", aliases: &["LATIN CAPITAL LETTER S ACUTE"] },
        Codepoint { codepoint: 0x015B, name: "LATIN SMALL LETTER S WITH ACUTE", aliases: &["LATIN SMALL LETTER S ACUTE"] },
        Codepoint { codepoint: 0x015C, name: "LATIN CAPITAL LETTER S WITH CIRCUMFLEX", aliases: &["LATIN CAPITAL LETTER S CIRCUMFLEX"] },
        Codepoint { codepoint: 0x015D, name: "LATIN SMALL LETTER S WITH CIRCUMFLEX", aliases: &["LATIN SMALL LETTER S CIRCUMFLEX"] },
        Codepoint { codepoint: 0x015E, name: "LATIN CAPITAL LETTER S WITH CEDILLA", aliases: &["LATIN CAPITAL LETTER S CEDILLA"] },
        Codepoint { codepoint: 0x015F, name: "LATIN SMALL LETTER S WITH CEDILLA", aliases: &["LATIN SMALL LETTER S CEDILLA"] },
        Codepoint { codepoint: 0x0160, name: "LATIN CAPITAL LETTER S WITH CARON", aliases: &["LATIN CAPITAL LETTER S HACEK"] },
        Codepoint { codepoint: 0x0161, name: "LATIN SMALL LETTER S WITH CARON", aliases: &["LATIN SMALL LETTER S HACEK"] },
        Codepoint { codepoint: 0x0162, name: "LATIN CAPITAL LETTER T WITH CEDILLA", aliases: &["LATIN CAPITAL LETTER T CEDILLA"] },
        Codepoint { codepoint: 0x0163, name: "LATIN SMALL LETTER T WITH CEDILLA", aliases: &["LATIN SMALL LETTER T CEDILLA"] },
        Codepoint { codepoint: 0x0164, name: "LATIN CAPITAL LETTER T WITH CARON", aliases: &["LATIN CAPITAL LETTER T HACEK"] },
        Codepoint { codepoint: 0x0165, name: "LATIN SMALL LETTER T WITH CARON", aliases: &["LATIN SMALL LETTER T HACEK"] },
        Codepoint { codepoint: 0x0166, name: "LATIN CAPITAL LETTER T WITH STROKE", aliases: &["LATIN CAPITAL LETTER T BAR"] },
        Codepoint { codepoint: 0x0167, name: "LATIN SMALL LETTER T WITH STROKE", aliases: &["LATIN SMALL LETTER T BAR"] },
    ]
}

fn all_codepoints_8() -> (v: Vec<Codepoint>)
    ensures
        v@ == codepoint_table_8(),
{
    let v = vec![
        Codepoint { codepoint: 0x0140, name: "LATIN SMALL LETTER L WITH MIDDLE DOT", aliases: &[] },
        Codepoint { codepoint: 0x0141, name: "LATIN CAPITAL LETTER L WITH STROKE", aliases: &["LATIN CAPITAL LETTER L SLASH"] },
        Codepoint { codepoint: 0x0142, name: "LATIN SMALL LETTER L WITH STROKE", aliases: &["LATIN SMALL LETTER L SLASH"] },
        Codepoint { codepoint: 0x0143, name: "LATIN CAPITAL LETTER N WITH ACUTE", aliases: &["LATIN CAPITAL LETTER N ACUTE"] },
        Codepoint { codepoint: 0x0144, name: "LATIN SMALL LETTER N WITH ACUTE", aliases: &["LATIN SMALL LETTER N ACUTE"] },
        Codepoint { codepoint: 0x0145, name: "LATIN CAPITAL LETTER N WITH CEDILLA", aliases: &["LATIN CAPITAL LETTER N CEDILLA"] },
        Codepoint { codepoint: 0x0146, name: "LATIN SMALL LETTER N WITH CEDILLA", aliases: &["LATIN SMALL LETTER N CEDILLA"] },
        Codepoint { codepoint: 0x0147, name: "LATIN CAPITAL LETTER N WITH CARON", aliases: &["LATIN CAPITAL LETTER N HACEK"] },
        Codepoint { codepoint: 0x0148, name: "LATIN SMALL LETTER N WITH CARON", aliases: &["LATIN SMALL LETTER N HACEK"] },
        Codepoint { codepoint: 0x0149, name: "LATIN SMALL LETTER N PRECEDED BY APOSTROPHE", aliases: &["LATIN SMALL LETTER APOSTROPHE N"] },
        Codepoint { codepoint: 0x014A, name: "LATIN CAPITAL LETTER ENG", aliases: &[] },
        Codepoint { codepoint: 0x014B, name: "LATIN SMALL LETTER ENG", aliases: &[] },
        Codepoint { codepoint: 0x014C, name: "LATIN CAPITAL LETTER O WITH MACRON", aliases: &["LATIN CAPITAL LETTER O MACRON"] },
        Codepoint { codepoint: 0x014D, name: "LATIN SMALL LETTER O WITH MACRON", aliases: &["LATIN SMALL LETTER O MACRON"] },
        Codepoint { codepoint: 0x014E, name: "LATIN CAPITAL LETTER O WITH BREVE", aliases: &["LATIN CAPITAL LETTER O BREVE"] },
        Codepoint { codepoint: 0x014F, name: "LATIN SMALL LETTER O WITH BREVE", aliases: &["LATIN SMALL LETTER O BREVE"] },
        Codepoint { codepoint: 0x0150, name: "LATIN CAPITAL LETTER O WITH DOUBLE ACUTE", aliases: &["LATIN CAPITAL LETTER O DOUBLE ACUTE"] },
        Codepoint { codepoint: 0x0151, name: "LATIN SMALL LETTER O WITH DOUBLE ACUTE", aliases: &["LATIN SMALL LETTER O DOUBLE ACUTE"] },
        Codepoint { codepoint: 0x0152, name: "LATIN CAPITAL LIGATURE OE", aliases: &["LATIN CAPITAL LETTER O E"] },
        Codepoint { codepoint: 0x0153, name: "LATIN SMALL LIGATURE OE", aliases: &["LATIN SMALL LETTER O E"] },
        Codepoint { codepoint: 0x0154, name: "LATIN CAPITAL LETTER R WITH ACUTE", aliases: &["LATIN CAPITAL LETTER R ACUTE"] },
        Codepoint { codepoint: 0x0155, name: "LATIN SMALL LETTER R WITH ACUTE", aliases: &["LATIN SMALL LETTER R ACUTE"] },
        Codepoint { codepoint: 0x0156, name: "LATIN CAPITAL LETTER R WITH CEDILLA", aliases: &["LATIN CAPITAL LETTER R CEDILLA"] },
        Codepoint { codepoint: 0x0157, name: "LATIN SMALL LETTER R WITH CEDILLA", aliases: &["LATIN SMALL LETTER R CEDILLA"] },
        Codepoint { codepoint: 0x0158, name: "LATIN CAPITAL LETTER R WITH CARON", aliases: &["LATIN CAPITAL LETTER R HACEK"] },
        Codepoint { codepoint: 0x0159, name: "LATIN SMALL LETTER R WITH CARON", aliases: &["LATIN SMALL LETTER R HACEK"] },
        Codepoint { codepoint: 0x015A, name: "LATIN CAPITAL LETTER S WITH ACUTE", aliases: &["LATIN CAPITAL LETTER S ACUTE"] },
        Codepoint { codepoint: 0x015B, name: "LATIN SMALL LETTER S WITH ACUTE", aliases: &["LATIN SMALL LETTER S ACUTE"] },
        Codepoint { codepoint: 0x015C, name: "LATIN CAPITAL LETTER S WITH CIRCUMFLEX", aliases: &["LATIN CAPITAL LETTER S CIRCUMFLEX"] },
        Codepoint { codepoint: 0x015D, name: "LATIN SMALL LETTER S WITH CIRCUMFLEX", aliases: &["LATIN SMALL LETTER S CIRCUMFLEX"] },
        Codepoint { codepoint: 0x015E, name: "LATIN CAPITAL LETTER S WITH CEDILLA", aliases: &["LATIN CAPITAL LETTER S CEDILLA"] },
        Codepoint { codepoint: 0x015F, name: "LATIN SMALL LETTER S WITH CEDILLA", aliases: &["LATIN SMALL LETTER S CEDILLA"] },
        Codepoint { codepoint: 0x0160, name: "LATIN CAPITAL LETTER S WITH CARON", aliases: &["LATIN CAPITAL LETTER S HACEK"] },
        Codepoint { codepoint: 0x0161, name: "LATIN SMALL LETTER S WITH CARON", aliases: &["LATIN SMALL LETTER S HACEK"] },
        Codepoint { codepoint: 0x0162, name: "LATIN CAPITAL LETTER T WITH CEDILLA", aliases: &["LATIN CAPITAL LETTER T CEDILLA"] },
        Codepoint { codepoint: 0x0163, name: "LATIN SMALL LETTER T WITH CEDILLA", aliases: &["LATIN SMALL LETTER T CEDILLA"] },
        Codepoint { codepoint: 0x0164, name: "LATIN CAPITAL LETTER T WITH CARON", aliases: &["LATIN CAPITAL LETTER T HACEK"] },
        Codepoint { codepoint: 0x0165, name: "LATIN SMALL LETTER T WITH CARON", aliases: &["LATIN SMALL LETTER T HACEK"] },
        Codepoint { codepoint: 0x0166, name: "LATIN CAPITAL LETTER T WITH STROKE", aliases: &["LATIN CAPITAL LETTER T BAR"] },
        Codepoint { codepoint: 0x0167, name: "LATIN SMALL LETTER T WITH STROKE", aliases: &["LATIN SMALL LETTER T BAR"] },
    ];
    assert(v@ =~= codepoint_table_8());
    v
}

pub open spec fn codepoint_table_9() -> Seq<Codepoint> {
    seq![
        Codepoint { codepoint: 0x0168, name: "LATIN CAPITAL LETTER U WITH TILDE", aliases: &["LATIN CAPITAL LETTER U TILDE"] },
        Codepoint { codepoint: 0x0169, name: "LATIN SMALL LETTER U WITH TILDE", aliases: &["LATIN SMALL LETTER U TILDE"] },
        Codepoint { codepoint: 0x016A, name: "LATIN CAPITAL LETTER U WITH MACRON", aliases: &["LATIN CAPITAL LETTER U MACRON"] },
        Codepoint { codepoint: 0x016B, name: "LATIN SMALL LETTER U WITH MACRON", aliases: &["LATIN SMALL LETTER U MACRON"] },
        Codepoint { codepoint: 0x016C, name: "LATIN CAPITAL LETTER U WITH BREVE", aliases: &["LATIN CAPITAL LETTER U BREVE"] },
        Codepoint { codepoint: 0x016D, name: "LATIN SMALL LETTER U WITH BREVE", aliases: &["LATIN SMALL LETTER U BREVE"] },
        Codepoint { codepoint: 0x016E, name: "LATIN CAPITAL LETTER U WITH RING ABOVE", aliases: &["LATIN CAPITAL LETTER U RING"] },
        Codepoint { codepoint: 0x016F, name: "LATIN SMALL LETTER U WITH RING ABOVE", aliases: &["LATIN SMALL LETTER U RING"] },
        Codepoint { codepoint: 0x0170, name: "LATIN CAPITAL LETTER U WITH DOUBLE ACUTE", aliases: &["LATIN CAPITAL LETTER U DOUBLE ACUTE"] },
        Codepoint { codepoint: 0x0171, name: "LATIN SMALL LETTER U WITH DOUBLE ACUTE", aliases: &["LATIN SMALL LETTER U DOUBLE ACUTE"] },
        Codepoint { codepoint: 0x0172, name: "LATIN CAPITAL LETTER U WITH OGONEK", aliases: &["LATIN CAPITAL LETTER U OGONEK"] },
        Codepoint { codepoint: 0x0173, name: "LATIN SMALL LETTER U WITH OGONEK", aliases: &["LATIN SMALL LETTER U OGONEK"] },
        Codepoint { codepoint: 0x0174, name: "LATIN CAPITAL LETTER W WITH CIRCUMFLEX", aliases: &["LATIN CAPITAL LETTER W CIRCUMFLEX"] },
        Codepoint { codepoint: 0x0175, name: "LATIN SMALL LETTER W WITH CIRCUMFLEX", aliases: &["LATIN SMALL LETTER W CIRCUMFLEX"] },
        Codepoint { codepoint: 0x0176, name: "LATIN CAPITAL LETTER Y WITH CIRCUMFLEX", aliases: &["LATIN CAPITAL LETTER Y CIRCUMFLEX"] },
        Codepoint { codepoint: 0x0177, name: "LATIN SMALL LETTER Y WITH CIRCUMFLEX", aliases: &["LATIN SMALL LETTER Y CIRCUMFLEX"] },
        Codepoint { codepoint: 0x0178, name: "LATIN CAPITAL LETTER Y WITH DIAERESIS", aliases: &["LATIN CAPITAL LETTER Y DIAERESIS"] },
        Codepoint { codepoint: 0x0179, name: "LATIN CAPITAL LETTER Z WITH ACUTE", aliases: &["LATIN CAPITAL LETTER Z ACUTE"] },
        Codepoint { codepoint: 0x017A, name: "LATIN SMALL LETTER Z WITH ACUTE", aliases: &["LATIN SMALL LETTER Z ACUTE"] },
        Codepoint { codepoint: 0x017B, name: "LATIN CAPITAL LETTER Z WITH DOT ABOVE", aliases: &["LATIN CAPITAL LETTER Z DOT"] },
        Codepoint { codepoint: 0x017C, name: "LATIN SMALL LETTER Z WITH DOT ABOVE", aliases: &["LATIN SMALL LETTER Z DOT"] },
        Codepoint { codepoint: 0x017D, name: "LATIN CAPITAL LETTER Z WITH CARON", aliases: &["LATIN CAPITAL LETTER Z HACEK"] },
        Codepoint { codepoint: 0x017E, name: "LATIN SMALL LETTER Z WITH CARON", aliases: &["LATIN SMALL LETTER Z HACEK"] },
        Codepoint { codepoint: 0x017F, name: "LATIN SMALL LETTER LONG S", aliases: &[] },
        Codepoint { codepoint: 0x0180, name: "LATIN SMALL LETTER B WITH STROKE", aliases: &["LATIN SMALL LETTER B BAR"] },
        Codepoint { codepoint: 0x0181, name: "LATIN CAPITAL LETTER B WITH HOOK", aliases: &["LATIN CAPITAL LETTER B HOOK"] },
        Codepoint { codepoint: 0x0182, name: "LATIN CAPITAL LETTER B WITH TOPBAR", aliases: &["LATIN CAPITAL LETTER B TOPBAR"] },
        Codepoint { codepoint: 0x0183, name: "LATIN SMALL LETTER B WITH TOPBAR", aliases: &["LATIN SMALL LETTER B TOPBAR"] },
        Codepoint { codepoint: 0x0184, name: "LATIN CAPITAL LETTER TONE SIX", aliases: &[] },
        Codepoint { codepoint: 0x0185, name: "LATIN SMALL LETTER TONE SIX", aliases: &[] },
        Codepoint { codepoint: 0x0186, name: "LATIN CAPITAL LETTER OPEN O", aliases: &[] },
        Codepoint { codepoint: 0x0187, name: "LATIN CAPITAL LETTER C WITH HOOK", aliases: &["LATIN CAPITAL LETTER C HOOK"] },
        Codepoint { codepoint: 0x0188, name: "LATIN SMALL LETTER C WITH HOOK", aliases: &["LATIN SMALL LETTER C HOOK"] },
        Codepoint { codepoint: 0x0189, name: "LATIN CAPITAL LETTER AFRICAN D", aliases: &[] },
        Codepoint { codepoint: 0x018A, name: "LATIN CAPITAL LETTER D WITH HOOK", aliases: &["LATIN CAPITAL LETTER D HOOK"] },
        Codepoint { codepoint: 0x018B, name: "LATIN CAPITAL LETTER D WITH TOPBAR", aliases: &["LATIN CAPITAL LETTER D TOPBAR"] },
        Codepoint { codepoint: 0x018C, name: "LATIN SMALL LETTER D WITH TOPBAR", aliases: &["LATIN SMALL LETTER D TOPBAR"] },
        Codepoint { codepoint: 0x018D, name: "LATIN SMALL LETTER TURNED DELTA", aliases: &[] },
        Codepoint { codepoint: 0x018E, name: "LATIN CAPITAL LETTER REVERSED E", aliases: &["LATIN CAPITAL LETTER TURNED E"] },
        Codepoint { codepoint: 0x018F, name: "LATIN CAPITAL LETTER SCHWA", aliases: &[] },
    ]
}

fn all_codepoints_9() -> (v: Vec<Codepoint>)
    ensures
        v@ == codepoint_table_9(),
{
    let v = vec![
        Codepoint { codepoint: 0x0168, name: "LATIN CAPITAL LETTER U WITH TILDE", aliases: &["LATIN CAPITAL LETTER U TILDE"] },
        Codepoint { codepoint: 0x0169, name: "LATIN SMALL LETTER U WITH TILDE", aliases: &["LATIN SMALL LETTER U TILDE"] },
        Codepoint { codepoint: 0x016A, name: "LATIN CAPITAL LETTER U WITH MACRON", aliases: &["LATIN CAPITAL LETTER U MACRON"] },
        Codepoint { codepoint: 0x016B, name: "LATIN SMALL LETTER U WITH MACRON", aliases: &["LATIN SMALL LETTER U MACRON"] },
        Codepoint { codepoint: 0x016C, name: "LATIN CAPITAL LETTER U WITH BREVE", aliases: &["LATIN CAPITAL LETTER U BREVE"] },
        Codepoint { codepoint: 0x016D, name: "LATIN SMALL LETTER U WITH BREVE", aliases: &["LATIN SMALL LETTER U BREVE"] },
        Codepoint { codepoint: 0x016E, name: "LATIN CAPITAL LETTER U WITH RING ABOVE", aliases: &["LATIN CAPITAL LETTER U RING"] },
        Codepoint { codepoint: 0x016F, name: "LATIN SMALL LETTER U WITH RING ABOVE", aliases: &["LATIN SMALL LETTER U RING"] },
        Codepoint { codepoint: 0x0170, name: "LATIN CAPITAL LETTER U WITH DOUBLE ACUTE", aliases: &["LATIN CAPITAL LETTER U DOUBLE ACUTE"] },
        Codepoint { codepoint: 0x0171, name: "LATIN SMALL LETTER U WITH DOUBLE ACUTE", aliases: &["LATIN SMALL LETTER U DOUBLE ACUTE"] },
        Codepoint { codepoint: 0x0172, name: "LATIN CAPITAL LETTER U WITH OGONEK", aliases: &["LATIN CAPITAL LETTER U OGONEK"] },
        Codepoint { codepoint: 0x0173, name: "LATIN SMALL LETTER U WITH OGONEK", aliases: &["LATIN SMALL LETTER U OGONEK"] },
        Codepoint { codepoint: 0x0174, name: "LATIN CAPITAL LETTER W WITH CIRCUMFLEX", aliases: &["LATIN CAPITAL LETTER W CIRCUMFLEX"] },
        Codepoint { codepoint: 0x0175, name: "LATIN SMALL LETTER W WITH CIRCUMFLEX", aliases: &["LATIN SMALL LETTER W CIRCUMFLEX"] },
        Codepoint { codepoint: 0x0176, name: "LATIN CAPITAL LETTER Y WITH CIRCUMFLEX", aliases: &["LATIN CAPITAL LETTER Y CIRCUMFLEX"] },
        Codepoint { codepoint: 0x0177, name: "LATIN SMALL LETTER Y WITH CIRCUMFLEX", aliases: &["LATIN SMALL LETTER Y CIRCUMFLEX"] },
        Codepoint { codepoint: 0x0178, name: "LATIN CAPITAL LETTER Y WITH DIAERESIS", aliases: &["LATIN CAPITAL LETTER Y DIAERESIS"] },
        Codepoint { codepoint: 0x0179, name: "LATIN CAPITAL LETTER Z WITH ACUTE", aliases: &["LATIN CAPITAL LETTER Z ACUTE"] },
        Codepoint { codepoint: 0x017A, name: "LATIN SMALL LETTER Z WITH ACUTE", aliases: &["LATIN SMALL LETTER Z ACUTE"] },
        Codepoint { codepoint: 0x017B, name: "LATIN CAPITAL LETTER Z WITH DOT ABOVE", aliases: &["LATIN CAPITAL LETTER Z DOT"] },
        Codepoint { codepoint: 0x017C, name: "LATIN SMALL LETTER Z WITH DOT ABOVE", aliases: &["LATIN SMALL LETTER Z DOT"] },
        Codepoint { codepoint: 0x017D, name: "LATIN CAPITAL LETTER Z WITH CARON", aliases: &["LATIN CAPITAL LETTER Z HACEK"] },
        Codepoint { codepoint: 0x017E, name: "LATIN SMALL LETTER Z WITH CARON", aliases: &["LATIN SMALL LETTER Z HACEK"] },
        Codepoint { codepoint: 0x017F, name: "LATIN SMALL LETTER LONG S", aliases: &[] },
        Codepoint { codepoint: 0x0180, name: "LATIN SMALL LETTER B WITH STROKE", aliases: &["LATIN SMALL LETTER B BAR"] },
        Codepoint { codepoint: 0x0181, name: "LATIN CAPITAL LETTER B WITH HOOK", aliases: &["LATIN CAPITAL LETTER B HOOK"] },
        Codepoint { codepoint: 0x0182, name: "LATIN CAPITAL LETTER B WITH TOPBAR", aliases: &["LATIN CAPITAL LETTER B TOPBAR"] },
        Codepoint { codepoint: 0x0183, name: "LATIN SMALL LETTER B WITH TOPBAR", aliases: &["LATIN SMALL LETTER B TOPBAR"] },
        Codepoint { codepoint: 0x0184, name: "LATIN CAPITAL LETTER TONE SIX", aliases: &[] },
        Codepoint { codepoint: 0x0185, name: "LATIN SMALL LETTER TONE SIX", aliases: &[] },
        Codepoint { codepoint: 0x0186, name: "LATIN CAPITAL LETTER OPEN O", aliases: &[] },
        Codepoint { codepoint: 0x0187, name: "LATIN CAPITAL LETTER C WITH HOOK", aliases: &["LATIN CAPITAL LETTER C HOOK"] },
        Codepoint { codepoint: 0x0188, name: "LATIN SMALL LETTER C WITH HOOK", aliases: &["LATIN SMALL LETTER C HOOK"] },
        Codepoint { codepoint: 0x0189, name: "LATIN CAPITAL LETTER AFRICAN D", aliases: &[] },
        Codepoint { codepoint: 0x018A, name: "LATIN CAPITAL LETTER D WITH HOOK", aliases: &["LATIN CAPITAL LETTER D HOOK"] },
        Codepoint { codepoint: 0x018B, name: "LATIN CAPITAL LETTER D WITH TOPBAR", aliases: &["LATIN CAPITAL LETTER D TOPBAR"] },
        Codepoint { codepoint: 0x018C, name: "LATIN SMALL LETTER D WITH TOPBAR", aliases: &["LATIN SMALL LETTER D TOPBAR"] },
        Codepoint { codepoint: 0x018D, name: "LATIN SMALL LETTER TURNED DELTA", aliases: &[] },
        Codepoint { codepoint: 0x018E, name: "LATIN CAPITAL LETTER REVERSED E", aliases: &["LATIN CAPITAL LETTER TURNED E"] },
        Codepoint { codepoint: 0x018F, name: "LATIN CAPITAL LETTER SCHWA", aliases: &[] },
    ];
    assert(v@ =~= codepoint_table_9());
    v
}

pub open spec fn codepoint_table_10() -> Seq<Codepoint> {
    seq![
        Codepoint { codepoint: 0x0190, name: "LATIN CAPITAL LETTER OPEN E", aliases: &["LATIN CAPITAL LETTER EPSILON"] },
        Codepoint { codepoint: 0x0191, name: "LATIN CAPITAL LETTER F WITH HOOK", aliases: &["LATIN CAPITAL LETTER F HOOK"] },
        Codepoint { codepoint: 0x0192, name: "LATIN SMALL LETTER F WITH HOOK", aliases: &["LATIN SMALL LETTER SCRIPT F"] },
        Codepoint { codepoint: 0x0193, name: "LATIN CAPITAL LETTER G WITH HOOK", aliases: &["LATIN CAPITAL LETTER G HOOK"] },
        Codepoint { codepoint: 0x0194, name: "LATIN CAPITAL LETTER GAMMA", aliases: &[] },
        Codepoint { codepoint: 0x0195, name: "LATIN SMALL LETTER HV", aliases: &["LATIN SMALL LETTER H V"] },
        Codepoint { codepoint: 0x0196, name: "LATIN CAPITAL LETTER IOTA", aliases: &[] },
        Codepoint { codepoint: 0x0197, name: "LATIN CAPITAL LETTER I WITH STROKE", aliases: &["LATIN CAPITAL LETTER BARRED I"] },
        Codepoint { codepoint: 0x0198, name: "LATIN CAPITAL LETTER K WITH HOOK", aliases: &["LATIN CAPITAL LETTER K HOOK"] },
        Codepoint { codepoint: 0x0199, name: "LATIN SMALL LETTER K WITH HOOK", aliases: &["LATIN SMALL LETTER K HOOK"] },
        Codepoint { codepoint: 0x019A, name: "LATIN SMALL LETTER L WITH BAR", aliases: &["LATIN SMALL LETTER BARRED L"] },
        Codepoint { codepoint: 0x019B, name: "LATIN SMALL LETTER LAMBDA WITH STROKE", aliases: &["LATIN SMALL LETTER BARRED LAMBDA"] },
        Codepoint { codepoint: 0x019C, name: "LATIN CAPITAL LETTER TURNED M", aliases: &[] },
        Codepoint { codepoint: 0x019D, name: "LATIN CAPITAL LETTER N WITH LEFT HOOK", aliases: &["LATIN CAPITAL LETTER N HOOK"] },
        Codepoint { codepoint: 0x019E, name: "LATIN SMALL LETTER N WITH LONG RIGHT LEG", aliases: &[] },
        Codepoint { codepoint: 0x019F, name: "LATIN CAPITAL LETTER O WITH MIDDLE TILDE", aliases: &["LATIN CAPITAL LETTER BARRED O"] },
        Codepoint { codepoint: 0x01A0, name: "LATIN CAPITAL LETTER O WITH HORN", aliases: &["LATIN CAPITAL LETTER O HORN"] },
        Codepoint { codepoint: 0x01A1, name: "LATIN SMALL LETTER O WITH HORN", aliases: &["LATIN SMALL LETTER O HORN"] },
        Codepoint { codepoint: 0x01A2, name: "LATIN CAPITAL LETTER OI", aliases: &["LATIN CAPITAL LETTER O I"] },
        Codepoint { codepoint: 0x01A3, name: "LATIN SMALL LETTER OI", aliases: &["LATIN SMALL LETTER O I"] },
        Codepoint { codepoint: 0x01A4, name: "LATIN CAPITAL LETTER P WITH HOOK", aliases: &["LATIN CAPITAL LETTER P HOOK"] },
        Codepoint { codepoint: 0x01A5, name: "LATIN SMALL LETTER P WITH HOOK", aliases: &["LATIN SMALL LETTER P HOOK"] },
        Codepoint { codepoint: 0x01A6, name: "LATIN LETTER YR", aliases: &["LATIN LETTER Y R"] },
        Codepoint { codepoint: 0x01A7, name: "LATIN CAPITAL LETTER TONE TWO", aliases: &[] },
        Codepoint { codepoint: 0x01A8, name: "LATIN SMALL LETTER TONE TWO", aliases: &[] },
        Codepoint { codepoint: 0x01A9, name: "LATIN CAPITAL LETTER ESH", aliases: &[] },
        Codepoint { codepoint: 0x01AA, name: "LATIN LETTER REVERSED ESH LOOP", aliases: &[] },
        Codepoint { codepoint: 0x01AB, name: "LATIN SMALL LETTER T WITH PALATAL HOOK", aliases: &["LATIN SMALL LETTER T PALATAL HOOK"] },
        Codepoint { codepoint: 0x01AC, name: "LATIN CAPITAL LETTER T WITH HOOK", aliases: &["LATIN CAPITAL LETTER T HOOK"] },
        Codepoint { codepoint: 0x01AD, name: "LATIN SMALL LETTER T WITH HOOK", aliases: &["LATIN SMALL LETTER T HOOK"] },
        Codepoint { codepoint: 0x01AE, name: "LATIN CAPITAL LETTER T WITH RETROFLEX HOOK", aliases: &["LATIN CAPITAL LETTER T RETROFLEX HOOK"] },
        Codepoint { codepoint: 0x01AF, name: "LATIN CAPITAL LETTER U WITH HORN", aliases: &["LATIN CAPITAL LETTER U HORN"] },
        Codepoint { codepoint: 0x01B0, name: "LATIN SMALL LETTER U WITH HORN", aliases: &["LATIN SMALL LETTER U HORN"] },
        Codepoint { codepoint: 0x01B1, name: "LATIN CAPITAL LETTER UPSILON", aliases: &[] },
        Codepoint { codepoint: 0x01B2, name: "LATIN CAPITAL LETTER V WITH HOOK", aliases: &["LATIN CAPITAL LETTER SCRIPT V"] },
        Codepoint { codepoint: 0x01B3, name: "LATIN CAPITAL LETTER Y WITH HOOK", aliases: &["LATIN CAPITAL LETTER Y HOOK"] },
        Codepoint { codepoint: 0x01B4, name: "LATIN SMALL LETTER Y WITH HOOK", aliases: &["LATIN SMALL LETTER Y HOOK"] },
        Codepoint { codepoint: 0x01B5, name: "LATIN CAPITAL LETTER Z WITH STROKE", aliases: &["LATIN CAPITAL LETTER Z BAR"] },
        Codepoint { codepoint: 0x01B6, name: "LATIN SMALL LETTER Z WITH STROKE", aliases: &["LATIN SMALL LETTER Z BAR"] },
        Codepoint { codepoint: 0x01B7, name: "LATIN CAPITAL LETTER EZH", aliases: &["LATIN CAPITAL LETTER YOGH"] },
    ]
}

fn all_codepoints_10() -> (v: Vec<Codepoint>)
    ensures
        v@ == codepoint_table_10(),
{
    let v = vec![
        Codepoint { codepoint: 0x0190, name: "LATIN CAPITAL LETTER OPEN E", aliases: &["LATIN CAPITAL LETTER EPSILON"] },
        Codepoint { codepoint: 0x0191, name: "LATIN CAPITAL LETTER F WITH HOOK", aliases: &["LATIN CAPITAL LETTER F HOOK"] },
        Codepoint { codepoint: 0x0192, name: "LATIN SMALL LETTER F WITH HOOK", aliases: &["LATIN SMALL LETTER SCRIPT F"] },
        Codepoint { codepoint: 0x0193, name: "LATIN CAPITAL LETTER G WITH HOOK", aliases: &["LATIN CAPITAL LETTER G HOOK"] },
        Codepoint { codepoint: 0x0194, name: "LATIN CAPITAL LETTER GAMMA", aliases: &[] },
        Codepoint { codepoint: 0x0195, name: "LATIN SMALL LETTER HV", aliases: &["LATIN SMALL LETTER H V"] },
        Codepoint { codepoint: 0x0196, name: "LATIN CAPITAL LETTER IOTA", aliases: &[] },
        Codepoint { codepoint: 0x0197, name: "LATIN CAPITAL LETTER I WITH STROKE", aliases: &["LATIN CAPITAL LETTER BARRED I"] },
        Codepoint { codepoint: 0x0198, name: "LATIN CAPITAL LETTER K WITH HOOK", aliases: &["LATIN CAPITAL LETTER K HOOK"] },
        Codepoint { codepoint: 0x0199, name: "LATIN SMALL LETTER K WITH HOOK", aliases: &["LATIN SMALL LETTER K HOOK"] },
        Codepoint { codepoint: 0x019A, name: "LATIN SMALL LETTER L WITH BAR", aliases: &["LATIN SMALL LETTER BARRED L"] },
        Codepoint { codepoint: 0x019B, name: "LATIN SMALL LETTER LAMBDA WITH STROKE", aliases: &["LATIN SMALL LETTER BARRED LAMBDA"] },
        Codepoint { codepoint: 0x019C, name: "LATIN CAPITAL LETTER TURNED M", aliases: &[] },
        Codepoint { codepoint: 0x019D, name: "LATIN CAPITAL LETTER N WITH LEFT HOOK", aliases: &["LATIN CAPITAL LETTER N HOOK"] },
        Codepoint { codepoint: 0x019E, name: "LATIN SMALL LETTER N WITH LONG RIGHT LEG", aliases: &[] },
        Codepoint { codepoint: 0x019F, name: "LATIN CAPITAL LETTER O WITH MIDDLE TILDE", aliases: &["LATIN CAPITAL LETTER BARRED O"] },
        Codepoint { codepoint: 0x01A0, name: "LATIN CAPITAL LETTER O WITH HORN", aliases: &["LATIN CAPITAL LETTER O HORN"] },
        Codepoint { codepoint: 0x01A1, name: "LATIN SMALL LETTER O WITH HORN", aliases: &["LATIN SMALL LETTER O HORN"] },
        Codepoint { codepoint: 0x01A2, name: "LATIN CAPITAL LETTER OI", aliases: &["LATIN CAPITAL LETTER O I"] },
        Codepoint { codepoint: 0x01A3, name: "LATIN SMALL LETTER OI", aliases: &["LATIN SMALL LETTER O I"] },
        Codepoint { codepoint: 0x01A4, name: "LATIN CAPITAL LETTER P WITH HOOK", aliases: &["LATIN CAPITAL LETTER P HOOK"] },
        Codepoint { codepoint: 0x01A5, name: "LATIN SMALL LETTER P WITH HOOK", aliases: &["LATIN SMALL LETTER P HOOK"] },
        Codepoint { codepoint: 0x01A6, name: "LATIN LETTER YR", aliases: &["LATIN LETTER Y R"] },
        Codepoint { codepoint: 0x01A7, name: "LATIN CAPITAL LETTER TONE TWO", aliases: &[] },
        Codepoint { codepoint: 0x01A8, name: "LATIN SMALL LETTER TONE TWO", aliases: &[] },
        Codepoint { codepoint: 0x01A9, name: "LATIN CAPITAL LETTER ESH", aliases: &[] },
        Codepoint { codepoint: 0x01AA, name: "LATIN LETTER REVERSED ESH LOOP", aliases: &[] },
        Codepoint { codepoint: 0x01AB, name: "LATIN SMALL LETTER T WITH PALATAL HOOK", aliases: &["LATIN SMALL LETTER T PALATAL HOOK"] },
        Codepoint { codepoint: 0x01AC, name: "LATIN CAPITAL LETTER T WITH HOOK", aliases: &["LATIN CAPITAL LETTER T HOOK"] },
        Codepoint { codepoint: 0x01AD, name: "LATIN SMALL LETTER T WITH HOOK", aliases: &["LATIN SMALL LETTER T HOOK"] },
        Codepoint { codepoint: 0x01AE, name: "LATIN CAPITAL LETTER T WITH RETROFLEX HOOK", aliases: &["LATIN CAPITAL LETTER T RETROFLEX HOOK"] },
        Codepoint { codepoint: 0x01AF, name: "LATIN CAPITAL LETTER U WITH HORN", aliases: &["LATIN CAPITAL LETTER U HORN"] },
        Codepoint { codepoint: 0x01B0, name: "LATIN SMALL LETTER U WITH HORN", aliases: &["LATIN SMALL LETTER U HORN"] },
        Codepoint { codepoint: 0x01B1, name: "LATIN CAPITAL LETTER UPSILON", aliases: &[] },
        Codepoint { codepoint: 0x01B2, name: "LATIN CAPITAL LETTER V WITH HOOK", aliases: &["LATIN CAPITAL LETTER SCRIPT V"] },
        Codepoint { codepoint: 0x01B3, name: "LATIN CAPITAL LETTER Y WITH HOOK", aliases: &["LATIN CAPITAL LETTER Y HOOK"] },
        Codepoint { codepoint: 0x01B4, name: "LATIN SMALL LETTER Y WITH HOOK", aliases: &["LATIN SMALL LETTER Y HOOK"] },
        Codepoint { codepoint: 0x01B5, name: "LATIN CAPITAL LETTER Z WITH STROKE", aliases: &["LATIN CAPITAL LETTER Z BAR"] },
        Codepoint { codepoint: 0x01B6, name: "LATIN SMALL LETTER Z WITH STROKE", aliases: &["LATIN SMALL LETTER Z BAR"] },
        Codepoint { codepoint: 0x01B7, name: "LATIN CAPITAL LETTER EZH", aliases: &["LATIN CAPITAL LETTER YOGH"] },
    ];
    assert(v@ =~= codepoint_table_10());
    v
}

pub open spec fn codepoint_table_11() -> Seq<Codepoint> {
    seq![
        Codepoint { codepoint: 0x01B8, name: "LATIN CAPITAL LETTER EZH REVERSED", aliases: &["LATIN CAPITAL LETTER REVERSED YOGH"] },
        Codepoint { codepoint: 0x01B9, name: "LATIN SMALL LETTER EZH REVERSED", aliases: &["LATIN SMALL LETTER REVERSED YOGH"] },
        Codepoint { codepoint: 0x01BA, name: "LATIN SMALL LETTER EZH WITH TAIL", aliases: &["LATIN SMALL LETTER YOGH WITH TAIL"] },
        Codepoint { codepoint: 0x01BB, name: "LATIN LETTER TWO WITH STROKE", aliases: &["LATIN LETTER TWO BAR"] },
        Codepoint { codepoint: 0x01BC, name: "LATIN CAPITAL LETTER TONE FIVE", aliases: &[] },
        Codepoint { codepoint: 0x01BD, name: "LATIN SMALL LETTER TONE FIVE", aliases: &[] },
        Codepoint { codepoint: 0x01BE, name: "LATIN LETTER INVERTED GLOTTAL STOP WITH STROKE", aliases: &["LATIN LETTER INVERTED GLOTTAL STOP BAR"] },
        Codepoint { codepoint: 0x01BF, name: "LATIN LETTER WYNN", aliases: &[] },
        Codepoint { codepoint: 0x01C0, name: "LATIN LETTER DENTAL CLICK", aliases: &["LATIN LETTER PIPE"] },
        Codepoint { codepoint: 0x01C1, name: "LATIN LETTER LATERAL CLICK", aliases: &["LATIN LETTER DOUBLE PIPE"] },
        Codepoint { codepoint: 0x01C2, name: "LATIN LETTER ALVEOLAR CLICK", aliases: &["LATIN LETTER PIPE DOUBLE BAR"] },
        Codepoint { codepoint: 0x01C3, name: "LATIN LETTER RETROFLEX CLICK", aliases: &["LATIN LETTER EXCLAMATION MARK"] },
        Codepoint { codepoint: 0x01C4, name: "LATIN CAPITAL LETTER DZ WITH CARON", aliases: &["LATIN CAPITAL LETTER D Z HACEK"] },
        Codepoint { codepoint: 0x01C5, name: "LATIN CAPITAL LETTER D WITH SMALL LETTER Z WITH CARON", aliases: &["LATIN LETTER CAPITAL D SMALL Z HACEK"] },
        Codepoint { codepoint: 0x01C6, name: "LATIN SMALL LETTER DZ WITH CARON", aliases: &["LATIN SMALL LETTER D Z HACEK"] },
        Codepoint { codepoint: 0x01C7, name: "LATIN CAPITAL LETTER LJ", aliases: &["LATIN CAPITAL LETTER L J"] },
        Codepoint { codepoint: 0x01C8, name: "LATIN CAPITAL LETTER L WITH SMALL LETTER J", aliases: &["LATIN LETTER CAPITAL L SMALL J"] },
        Codepoint { codepoint: 0x01C9, name: "LATIN SMALL LETTER LJ", aliases: &["LATIN SMALL LETTER L J"] },
        Codepoint { codepoint: 0x01CA, name: "LATIN CAPITAL LETTER NJ", aliases: &["LATIN CAPITAL LETTER N J"] },
        Codepoint { codepoint: 0x01CB, name: "LATIN CAPITAL LETTER N WITH SMALL LETTER J", aliases: &["LATIN LETTER CAPITAL N SMALL J"] },
        Codepoint { codepoint: 0x01CC, name: "LATIN SMALL LETTER NJ", aliases: &["LATIN SMALL LETTER N J"] },
        Codepoint { codepoint: 0x01CD, name: "LATIN CAPITAL LETTER A WITH CARON", aliases: &["LATIN CAPITAL LETTER A HACEK"] },
        Codepoint { codepoint: 0x01CE, name: "LATIN SMALL LETTER A WITH CARON", aliases: &["LATIN SMALL LETTER A HACEK"] },
        Codepoint { codepoint: 0x01CF, name: "LATIN CAPITAL LETTER I WITH CARON", aliases: &["LATIN CAPITAL LETTER I HACEK"] },
        Codepoint { codepoint: 0x01D0, name: "LATIN SMALL LETTER I WITH CARON", aliases: &["LATIN SMALL LETTER I HACEK"] },
        Codepoint { codepoint: 0x01D1, name: "LATIN CAPITAL LETTER O WITH CARON", aliases: &["LATIN CAPITAL LETTER O HACEK"] },
        Codepoint { codepoint: 0x01D2, name: "LATIN SMALL LETTER O WITH CARON", aliases: &["LATIN SMALL LETTER O HACEK"] },
        Codepoint { codepoint: 0x01D3, name: "LATIN CAPITAL LETTER U WITH CARON", aliases: &["LATIN CAPITAL LETTER U HACEK"] },
        Codepoint { codepoint: 0x01D4, name: "LATIN SMALL LETTER U WITH CARON", aliases: &["LATIN SMALL LETTER U HACEK"] },
        Codepoint { codepoint: 0x01D5, name: "LATIN CAPITAL LETTER U WITH DIAERESIS AND MACRON", aliases: &["LATIN CAPITAL LETTER U DIAERESIS MACRON"] },
        Codepoint { codepoint: 0x01D6, name: "LATIN SMALL LETTER U WITH DIAERESIS AND MACRON", aliases: &["LATIN SMALL LETTER U DIAERESIS MACRON"] },
        Codepoint { codepoint: 0x01D7, name: "LATIN CAPITAL LETTER U WITH DIAERESIS AND ACUTE", aliases: &["LATIN CAPITAL LETTER U DIAERESIS ACUTE"] },
        Codepoint { codepoint: 0x01D8, name: "LATIN SMALL LETTER U WITH DIAERESIS AND ACUTE", aliases: &["LATIN SMALL LETTER U DIAERESIS ACUTE"] },
        Codepoint { codepoint: 0x01D9, name: "LATIN CAPITAL LETTER U WITH DIAERESIS AND CARON", aliases: &["LATIN CAPITAL LETTER U DIAERESIS HACEK"] },
        Codepoint { codepoint: 0x01DA, name: "LATIN SMALL LETTER U WITH DIAERESIS AND CARON", aliases: &["LATIN SMALL LETTER U DIAERESIS HACEK"] },
        Codepoint { codepoint: 0x01DB, name: "LATIN CAPITAL LETTER U WITH DIAERESIS AND GRAVE", aliases: &["LATIN CAPITAL LETTER U DIAERESIS GRAVE"] },
        Codepoint { codepoint: 0x01DC, name: "LATIN SMALL LETTER U WITH DIAERESIS AND GRAVE", aliases: &["LATIN SMALL LETTER U DIAERESIS GRAVE"] },
        Codepoint { codepoint: 0x01DD, name: "LATIN SMALL LETTER TURNED E", aliases: &[] },
        Codepoint { codepoint: 0x01DE, name: "LATIN CAPITAL LETTER A WITH DIAERESIS AND MACRON", aliases: &["LATIN CAPITAL LETTER A DIAERESIS MACRON"] },
        Codepoint { codepoint: 0x01DF, name: "LATIN SMALL LETTER A WITH DIAERESIS AND MACRON", aliases: &["LATIN SMALL LETTER A DIAERESIS MACRON"] },
    ]
}

fn all_codepoints_11() -> (v: Vec<Codepoint>)
    ensures
        v@ == codepoint_table_11(),
{
    let v = vec![
        Codepoint { codepoint: 0x01B8, name: "LATIN CAPITAL LETTER EZH REVERSED", aliases: &["LATIN CAPITAL LETTER REVERSED YOGH"] },
        Codepoint { codepoint: 0x01B9, name: "LATIN SMALL LETTER EZH REVERSED", aliases: &["LATIN SMALL LETTER REVERSED YOGH"] },
        Codepoint { codepoint: 0x01BA, name: "LATIN SMALL LETTER EZH WITH TAIL", aliases: &["LATIN SMALL LETTER YOGH WITH TAIL"] },
        Codepoint { codepoint: 0x01BB, name: "LATIN LETTER TWO WITH STROKE", aliases: &["LATIN LETTER TWO BAR"] },
        Codepoint { codepoint: 0x01BC, name: "LATIN CAPITAL LETTER TONE FIVE", aliases: &[] },
        Codepoint { codepoint: 0x01BD, name: "LATIN SMALL LETTER TONE FIVE", aliases: &[] },
        Codepoint { codepoint: 0x01BE, name: "LATIN LETTER INVERTED GLOTTAL STOP WITH STROKE", aliases: &["LATIN LETTER INVERTED GLOTTAL STOP BAR"] },
        Codepoint { codepoint: 0x01BF, name: "LATIN LETTER WYNN", aliases: &[] },
        Codepoint { codepoint: 0x01C0, name: "LATIN LETTER DENTAL CLICK", aliases: &["LATIN LETTER PIPE"] },
        Codepoint { codepoint: 0x01C1, name: "LATIN LETTER LATERAL CLICK", aliases: &["LATIN LETTER DOUBLE PIPE"] },
        Codepoint { codepoint: 0x01C2, name: "LATIN LETTER ALVEOLAR CLICK", aliases: &["LATIN LETTER PIPE DOUBLE BAR"] },
        Codepoint { codepoint: 0x01C3, name: "LATIN LETTER RETROFLEX CLICK", aliases: &["LATIN LETTER EXCLAMATION MARK"] },
        Codepoint { codepoint: 0x01C4, name: "LATIN CAPITAL LETTER DZ WITH CARON", aliases: &["LATIN CAPITAL LETTER D Z HACEK"] },
        Codepoint { codepoint: 0x01C5, name: "LATIN CAPITAL LETTER D WITH SMALL LETTER Z WITH CARON", aliases: &["LATIN LETTER CAPITAL D SMALL Z HACEK"] },
        Codepoint { codepoint: 0x01C6, name: "LATIN SMALL LETTER DZ WITH CARON", aliases: &["LATIN SMALL LETTER D Z HACEK"] },
        Codepoint { codepoint: 0x01C7, name: "LATIN CAPITAL LETTER LJ", aliases: &["LATIN CAPITAL LETTER L J"] },
        Codepoint { codepoint: 0x01C8, name: "LATIN CAPITAL LETTER L WITH SMALL LETTER J", aliases: &["LATIN LETTER CAPITAL L SMALL J"] },
        Codepoint { codepoint: 0x01C9, name: "LATIN SMALL LETTER LJ", aliases: &["LATIN SMALL LETTER L J"] },
        Codepoint { codepoint: 0x01CA, name: "LATIN CAPITAL LETTER NJ", aliases: &["LATIN CAPITAL LETTER N J"] },
        Codepoint { codepoint: 0x01CB, name: "LATIN CAPITAL LETTER N WITH SMALL LETTER J", aliases: &["LATIN LETTER CAPITAL N SMALL J"] },
        Codepoint { codepoint: 0x01CC, name: "LATIN SMALL LETTER NJ", aliases: &["LATIN SMALL LETTER N J"] },
        Codepoint { codepoint: 0x01CD, name: "LATIN CAPITAL LETTER A WITH CARON", aliases: &["LATIN CAPITAL LETTER A HACEK"] },
        Codepoint { codepoint: 0x01CE, name: "LATIN SMALL LETTER A WITH CARON", aliases: &["LATIN SMALL LETTER A HACEK"] },
        Codepoint { codepoint: 0x01CF, name: "LATIN CAPITAL LETTER I WITH CARON", aliases: &["LATIN CAPITAL LETTER I HACEK"] },
        Codepoint { codepoint: 0x01D0, name: "LATIN SMALL LETTER I WITH CARON", aliases: &["LATIN SMALL LETTER I HACEK"] },
        Codepoint { codepoint: 0x01D1, name: "LATIN CAPITAL LETTER O WITH CARON", aliases: &["LATIN CAPITAL LETTER O HACEK"] },
        Codepoint { codepoint: 0x01D2, name: "LATIN SMALL LETTER O WITH CARON", aliases: &["LATIN SMALL LETTER O HACEK"] },
        Codepoint { codepoint: 0x01D3, name: "LATIN CAPITAL LETTER U WITH CARON", aliases: &["LATIN CAPITAL LETTER U HACEK"] },
        Codepoint { codepoint: 0x01D4, name: "LATIN SMALL LETTER U WITH CARON", aliases: &["LATIN SMALL LETTER U HACEK"] },
        Codepoint { codepoint: 0x01D5, name: "LATIN CAPITAL LETTER U WITH DIAERESIS AND MACRON", aliases: &["LATIN CAPITAL LETTER U DIAERESIS MACRON"] },
        Codepoint { codepoint: 0x01D6, name: "LATIN SMALL LETTER U WITH DIAERESIS AND MACRON", aliases: &["LATIN SMALL LETTER U DIAERESIS MACRON"] },
        Codepoint { codepoint: 0x01D7, name: "LATIN CAPITAL LETTER U WITH DIAERESIS AND ACUTE", aliases: &["LATIN CAPITAL LETTER U DIAERESIS ACUTE"] },
        Codepoint { codepoint: 0x01D8, name: "LATIN SMALL LETTER U WITH DIAERESIS AND ACUTE", aliases: &["LATIN SMALL LETTER U DIAERESIS ACUTE"] },
        Codepoint { codepoint: 0x01D9, name: "LATIN CAPITAL LETTER U WITH DIAERESIS AND CARON", aliases: &["LATIN CAPITAL LETTER U DIAERESIS HACEK"] },
        Codepoint { codepoint: 0x01DA, name: "LATIN SMALL LETTER U WITH DIAERESIS AND CARON", aliases: &["LATIN SMALL LETTER U DIAERESIS HACEK"] },
        Codepoint { codepoint: 0x01DB, name: "LATIN CAPITAL LETTER U WITH DIAERESIS AND GRAVE", aliases: &["LATIN CAPITAL LETTER U DIAERESIS GRAVE"] },
        Codepoint { codepoint: 0x01DC, name: "LATIN SMALL LETTER U WITH DIAERESIS AND GRAVE", aliases: &["LATIN SMALL LETTER U DIAERESIS GRAVE"] },
        Codepoint { codepoint: 0x01DD, name: "LATIN SMALL LETTER TURNED E", aliases: &[] },
        Codepoint { codepoint: 0x01DE, name: "LATIN CAPITAL LETTER A WITH DIAERESIS AND MACRON", aliases: &["LATIN CAPITAL LETTER A DIAERESIS MACRON"] },
        Codepoint { codepoint: 0x01DF, name: "LATIN SMALL LETTER A WITH DIAERESIS AND MACRON", aliases: &["LATIN SMALL LETTER A DIAERESIS MACRON"] },
    ];
    assert(v@ =~= codepoint_table_11());
    v
}

pub open spec fn codepoint_table_12() -> Seq<Codepoint> {
    seq![
        Codepoint { codepoint: 0x01E0, name: "LATIN CAPITAL LETTER A WITH DOT ABOVE AND MACRON", aliases: &["LATIN CAPITAL LETTER A DOT MACRON"] },
        Codepoint { codepoint: 0x01E1, name: "LATIN SMALL LETTER A WITH DOT ABOVE AND MACRON", aliases: &["LATIN SMALL LETTER A DOT MACRON"] },
        Codepoint { codepoint: 0x01E2, name: "LATIN CAPITAL LETTER AE WITH MACRON", aliases: &["LATIN CAPITAL LETTER A E MACRON"] },
        Codepoint { codepoint: 0x01E3, name: "LATIN SMALL LETTER AE WITH MACRON", aliases: &["LATIN SMALL LETTER A E MACRON"] },
        Codepoint { codepoint: 0x01E4, name: "LATIN CAPITAL LETTER G WITH STROKE", aliases: &["LATIN CAPITAL LETTER G BAR"] },
        Codepoint { codepoint: 0x01E5, name: "LATIN SMALL LETTER G WITH STROKE", aliases: &["LATIN SMALL LETTER G BAR"] },
        Codepoint { codepoint: 0x01E6, name: "LATIN CAPITAL LETTER G WITH CARON", aliases: &["LATIN CAPITAL LETTER G HACEK"] },
        Codepoint { codepoint: 0x01E7, name: "LATIN SMALL LETTER G WITH CARON", aliases: &["LATIN SMALL LETTER G HACEK"] },
        Codepoint { codepoint: 0x01E8, name: "LATIN CAPITAL LETTER K WITH CARON", aliases: &["LATIN CAPITAL LETTER K HACEK"] },
        Codepoint { codepoint: 0x01E9, name: "LATIN SMALL LETTER K WITH CARON", aliases: &["LATIN SMALL LETTER K HACEK"] },
        Codepoint { codepoint: 0x01EA, name: "LATIN CAPITAL LETTER O WITH OGONEK", aliases: &["LATIN CAPITAL LETTER O OGONEK"] },
        Codepoint { codepoint: 0x01EB, name: "LATIN SMALL LETTER O WITH OGONEK", aliases: &["LATIN SMALL LETTER O OGONEK"] },
        Codepoint { codepoint: 0x01EC, name: "LATIN CAPITAL LETTER O WITH OGONEK AND MACRON", aliases: &["LATIN CAPITAL LETTER O OGONEK MACRON"] },
        Codepoint { codepoint: 0x01ED, name: "LATIN SMALL LETTER O WITH OGONEK AND MACRON", aliases: &["LATIN SMALL LETTER O OGONEK MACRON"] },
        Codepoint { codepoint: 0x01EE, name: "LATIN CAPITAL LETTER EZH WITH CARON", aliases: &["LATIN CAPITAL LETTER YOGH HACEK"] },
        Codepoint { codepoint: 0x01EF, name: "LATIN SMALL LETTER EZH WITH CARON", aliases: &["LATIN SMALL LETTER YOGH HACEK"] },
        Codepoint { codepoint: 0x01F0, name: "LATIN SMALL LETTER J WITH CARON", aliases: &["LATIN SMALL LETTER J HACEK"] },
        Codepoint { codepoint: 0x01F1, name: "LATIN CAPITAL LETTER DZ", aliases: &[] },
        Codepoint { codepoint: 0x01F2, name: "LATIN CAPITAL LETTER D WITH SMALL LETTER Z", aliases: &[] },
        Codepoint { codepoint: 0x01F3, name: "LATIN SMALL LETTER DZ", aliases: &[] },
        Codepoint { codepoint: 0x01F4, name: "LATIN CAPITAL LETTER G WITH ACUTE", aliases: &[] },
        Codepoint { codepoint: 0x01F5, name: "LATIN SMALL LETTER G WITH ACUTE", aliases: &[] },
        Codepoint { codepoint: 0x01F6, name: "LATIN CAPITAL LETTER HWAIR", aliases: &[] },
        Codepoint { codepoint: 0x01F7, name: "LATIN CAPITAL LETTER WYNN", aliases: &[] },
        Codepoint { codepoint: 0x01F8, name: "LATIN CAPITAL LETTER N WITH GRAVE", aliases: &[] },
        Codepoint { codepoint: 0x01F9, name: "LATIN SMALL LETTER N WITH GRAVE", aliases: &[] },
        Codepoint { codepoint: 0x01FA, name: "LATIN CAPITAL LETTER A WITH RING ABOVE AND ACUTE", aliases: &[] },
        Codepoint { codepoint: 0x01FB, name: "LATIN SMALL LETTER A WITH RING ABOVE AND ACUTE", aliases: &[] },
        Codepoint { codepoint: 0x01FC, name: "LATIN CAPITAL LETTER AE WITH ACUTE", aliases: &[] },
        Codepoint { codepoint: 0x01FD, name: "LATIN SMALL LETTER AE WITH ACUTE", aliases: &[] },
        Codepoint { codepoint: 0x01FE, name: "LATIN CAPITAL LETTER O WITH STROKE AND ACUTE", aliases: &[] },
        Codepoint { codepoint: 0x01FF, name: "LATIN SMALL LETTER O WITH STROKE AND ACUTE", aliases: &[] },
        Codepoint { codepoint: 0x0200, name: "LATIN CAPITAL LETTER A WITH DOUBLE GRAVE", aliases: &[] },
        Codepoint { codepoint: 0x0201, name: "LATIN SMALL LETTER A WITH DOUBLE GRAVE", aliases: &[] },
        Codepoint { codepoint: 0x0202, name: "LATIN CAPITAL LETTER A WITH INVERTED BREVE", aliases: &[] },
        Codepoint { codepoint: 0x0203, name: "LATIN SMALL LETTER A WITH INVERTED BREVE", aliases: &[] },
        Codepoint { codepoint: 0x0204, name: "LATIN CAPITAL LETTER E WITH DOUBLE GRAVE", aliases: &[] },
        Codepoint { codepoint: 0x0205, name: "LATIN SMALL LETTER E WITH DOUBLE GRAVE", aliases: &[] },
        Codepoint { codepoint: 0x0206, name: "LATIN CAPITAL LETTER E WITH INVERTED BREVE", aliases: &[] },
        Codepoint { codepoint: 0x0207, name: "LATIN SMALL LETTER E WITH INVERTED BREVE", aliases: &[] },
    ]
}

fn all_codepoints_12() -> (v: Vec<Codepoint>)
    ensures
        v@ == codepoint_table_12(),
{
    let v = vec![
        Codepoint { codepoint: 0x01E0, name: "LATIN CAPITAL LETTER A WITH DOT ABOVE AND MACRON", aliases: &["LATIN CAPITAL LETTER A DOT MACRON"] },
        Codepoint { codepoint: 0x01E1, name: "LATIN SMALL LETTER A WITH DOT ABOVE AND MACRON", aliases: &["LATIN SMALL LETTER A DOT MACRON"] },
        Codepoint { codepoint: 0x01E2, name: "LATIN CAPITAL LETTER AE WITH MACRON", aliases: &["LATIN CAPITAL LETTER A E MACRON"] },
        Codepoint { codepoint: 0x01E3, name: "LATIN SMALL LETTER AE WITH MACRON", aliases: &["LATIN SMALL LETTER A E MACRON"] },
        Codepoint { codepoint: 0x01E4, name: "LATIN CAPITAL LETTER G WITH STROKE", aliases: &["LATIN CAPITAL LETTER G BAR"] },
        Codepoint { codepoint: 0x01E5, name: "LATIN SMALL LETTER G WITH STROKE", aliases: &["LATIN SMALL LETTER G BAR"] },
        Codepoint { codepoint: 0x01E6, name: "LATIN CAPITAL LETTER G WITH CARON", aliases: &["LATIN CAPITAL LETTER G HACEK"] },
        Codepoint { codepoint: 0x01E7, name: "LATIN SMALL LETTER G WITH CARON", aliases: &["LATIN SMALL LETTER G HACEK"] },
        Codepoint { codepoint: 0x01E8, name: "LATIN CAPITAL LETTER K WITH CARON", aliases: &["LATIN CAPITAL LETTER K HACEK"] },
        Codepoint { codepoint: 0x01E9, name: "LATIN SMALL LETTER K WITH CARON", aliases: &["LATIN SMALL LETTER K HACEK"] },
        Codepoint { codepoint: 0x01EA, name: "LATIN CAPITAL LETTER O WITH OGONEK", aliases: &["LATIN CAPITAL LETTER O OGONEK"] },
        Codepoint { codepoint: 0x01EB, name: "LATIN SMALL LETTER O WITH OGONEK", aliases: &["LATIN SMALL LETTER O OGONEK"] },
        Codepoint { codepoint: 0x01EC, name: "LATIN CAPITAL LETTER O WITH OGONEK AND MACRON", aliases: &["LATIN CAPITAL LETTER O OGONEK MACRON"] },
        Codepoint { codepoint: 0x01ED, name: "LATIN SMALL LETTER O WITH OGONEK AND MACRON", aliases: &["LATIN SMALL LETTER O OGONEK MACRON"] },
        Codepoint { codepoint: 0x01EE, name: "LATIN CAPITAL LETTER EZH WITH CARON", aliases: &["LATIN CAPITAL LETTER YOGH HACEK"] },
        Codepoint { codepoint: 0x01EF, name: "LATIN SMALL LETTER EZH WITH CARON", aliases: &["LATIN SMALL LETTER YOGH HACEK"] },
        Codepoint { codepoint: 0x01F0, name: "LATIN SMALL LETTER J WITH CARON", aliases: &["LATIN SMALL LETTER J HACEK"] },
        Codepoint { codepoint: 0x01F1, name: "LATIN CAPITAL LETTER DZ", aliases: &[] },
        Codepoint { codepoint: 0x01F2, name: "LATIN CAPITAL LETTER D WITH SMALL LETTER Z", aliases: &[] },
        Codepoint { codepoint: 0x01F3, name: "LATIN SMALL LETTER DZ", aliases: &[] },
        Codepoint { codepoint: 0x01F4, name: "LATIN CAPITAL LETTER G WITH ACUTE", aliases: &[] },
        Codepoint { codepoint: 0x01F5, name: "LATIN SMALL LETTER G WITH ACUTE", aliases: &[] },
        Codepoint { codepoint: 0x01F6, name: "LATIN CAPITAL LETTER HWAIR", aliases: &[] },
        Codepoint { codepoint: 0x01F7, name: "LATIN CAPITAL LETTER WYNN", aliases: &[] },
        Codepoint { codepoint: 0x01F8, name: "LATIN CAPITAL LETTER N WITH GRAVE", aliases: &[] },
        Codepoint { codepoint: 0x01F9, name: "LATIN SMALL LETTER N WITH GRAVE", aliases: &[] },
        Codepoint { codepoint: 0x01FA, name: "LATIN CAPITAL LETTER A WITH RING ABOVE AND ACUTE", aliases: &[] },
        Codepoint { codepoint: 0x01FB, name: "LATIN SMALL LETTER A WITH RING ABOVE AND ACUTE", aliases: &[] },
        Codepoint { codepoint: 0x01FC, name: "LATIN CAPITAL LETTER AE WITH ACUTE", aliases: &[] },
        Codepoint { codepoint: 0x01FD, name: "LATIN SMALL LETTER AE WITH ACUTE", aliases: &[] },
        Codepoint { codepoint: 0x01FE, name: "LATIN CAPITAL LETTER O WITH STROKE AND ACUTE", aliases: &[] },
        Codepoint { codepoint: 0x01FF, name: "LATIN SMALL LETTER O WITH STROKE AND ACUTE", aliases: &[] },
        Codepoint { codepoint: 0x0200, name: "LATIN CAPITAL LETTER A WITH DOUBLE GRAVE", aliases: &[] },
        Codepoint { codepoint: 0x0201, name: "LATIN SMALL LETTER A WITH DOUBLE GRAVE", aliases: &[] },
        Codepoint { codepoint: 0x0202, name: "LATIN CAPITAL LETTER A WITH INVERTED BREVE", aliases: &[] },
        Codepoint { codepoint: 0x0203, name: "LATIN SMALL LETTER A WITH INVERTED BREVE", aliases: &[] },
        Codepoint { codepoint: 0x0204, name: "LATIN CAPITAL LETTER E WITH DOUBLE GRAVE", aliases: &[] },
        Codepoint { codepoint: 0x0205, name: "LATIN SMALL LETTER E WITH DOUBLE GRAVE", aliases: &[] },
        Codepoint { codepoint: 0x0206, name: "LATIN CAPITAL LETTER E WITH INVERTED BREVE", aliases: &[] },
        Codepoint { codepoint: 0x0207, name: "LATIN SMALL LETTER E WITH INVERTED BREVE", aliases: &[] },
    ];
    assert(v@ =~= codepoint_table_12());
    v
}

pub open spec fn codepoint_table_13() -> Seq<Codepoint> {
    seq![
        Codepoint { codepoint: 0x0208, name: "LATIN CAPITAL LETTER I WITH DOUBLE GRAVE", aliases: &[] },
        Codepoint { codepoint: 0x0209, name: "LATIN SMALL LETTER I WITH DOUBLE GRAVE", aliases: &[] },
        Codepoint { codepoint: 0x020A, name: "LATIN CAPITAL LETTER I WITH INVERTED BREVE", aliases: &[] },
        Codepoint { codepoint: 0x020B, name: "LATIN SMALL LETTER I WITH INVERTED BREVE", aliases: &[] },
        Codepoint { codepoint: 0x020C, name: "LATIN CAPITAL LETTER O WITH DOUBLE GRAVE", aliases: &[] },
        Codepoint { codepoint: 0x020D, name: "LATIN SMALL LETTER O WITH DOUBLE GRAVE", aliases: &[] },
        Codepoint { codepoint: 0x020E, name: "LATIN CAPITAL LETTER O WITH INVERTED BREVE", aliases: &[] },
        Codepoint { codepoint: 0x020F, name: "LATIN SMALL LETTER O WITH INVERTED BREVE", aliases: &[] },
        Codepoint { codepoint: 0x0210, name: "LATIN CAPITAL LETTER R WITH DOUBLE GRAVE", aliases: &[] },
        Codepoint { codepoint: 0x0211, name: "LATIN SMALL LETTER R WITH DOUBLE GRAVE", aliases: &[] },
        Codepoint { codepoint: 0x0212, name: "LATIN CAPITAL LETTER R WITH INVERTED BREVE", aliases: &[] },
        Codepoint { codepoint: 0x0213, name: "LATIN SMALL LETTER R WITH INVERTED BREVE", aliases: &[] },
        Codepoint { codepoint: 0x0214, name: "LATIN CAPITAL LETTER U WITH DOUBLE GRAVE", aliases: &[] },
        Codepoint { codepoint: 0x0215, name: "LATIN SMALL LETTER U WITH DOUBLE GRAVE", aliases: &[] },
        Codepoint { codepoint: 0x0216, name: "LATIN CAPITAL LETTER U WITH INVERTED BREVE", aliases: &[] },
        Codepoint { codepoint: 0x0217, name: "LATIN SMALL LETTER U WITH INVERTED BREVE", aliases: &[] },
        Codepoint { codepoint: 0x0218, name: "LATIN CAPITAL LETTER S WITH COMMA BELOW", aliases: &[] },
        Codepoint { codepoint: 0x0219, name: "LATIN SMALL LETTER S WITH COMMA BELOW", aliases: &[] },
        Codepoint { codepoint: 0x021A, name: "LATIN CAPITAL LETTER T WITH COMMA BELOW", aliases: &[] },
        Codepoint { codepoint: 0x021B, name: "LATIN SMALL LETTER T WITH COMMA BELOW", aliases: &[] },
        Codepoint { codepoint: 0x021C, name: "LATIN CAPITAL LETTER YOGH", aliases: &[] },
        Codepoint { codepoint: 0x021D, name: "LATIN SMALL LETTER YOGH", aliases: &[] },
        Codepoint { codepoint: 0x021E, name: "LATIN CAPITAL LETTER H WITH CARON", aliases: &[] },
        Codepoint { codepoint: 0x021F, name: "LATIN SMALL LETTER H WITH CARON", aliases: &[] },
        Codepoint { codepoint: 0x0220, name: "LATIN CAPITAL LETTER N WITH LONG RIGHT LEG", aliases: &[] },
        Codepoint { codepoint: 0x0221, name: "LATIN SMALL LETTER D WITH CURL", aliases: &[] },
        Codepoint { codepoint: 0x0222, name: "LATIN CAPITAL LETTER OU", aliases: &[] },
        Codepoint { codepoint: 0x0223, name: "LATIN SMALL LETTER OU", aliases: &[] },
        Codepoint { codepoint: 0x0224, name: "LATIN CAPITAL LETTER Z WITH HOOK", aliases: &[] },
        Codepoint { codepoint: 0x0225, name: "LATIN SMALL LETTER Z WITH HOOK", aliases: &[] },
        Codepoint { codepoint: 0x0226, name: "LATIN CAPITAL LETTER A WITH DOT ABOVE", aliases: &[] },
        Codepoint { codepoint: 0x0227, name: "LATIN SMALL LETTER A WITH DOT ABOVE", aliases: &[] },
        Codepoint { codepoint: 0x0228, name: "LATIN CAPITAL LETTER E WITH CEDILLA", aliases: &[] },
        Codepoint { codepoint: 0x0229, name: "LATIN SMALL LETTER E WITH CEDILLA", aliases: &[] },
        Codepoint { codepoint: 0x022A, name: "LATIN CAPITAL LETTER O WITH DIAERESIS AND MACRON", aliases: &[] },
        Codepoint { codepoint: 0x022B, name: "LATIN SMALL LETTER O WITH DIAERESIS AND MACRON", aliases: &[] },
        Codepoint { codepoint: 0x022C, name: "LATIN CAPITAL LETTER O WITH TILDE AND MACRON", aliases: &[] },
        Codepoint { codepoint: 0x022D, name: "LATIN SMALL LETTER O WITH TILDE AND MACRON", aliases: &[] },
        Codepoint { codepoint: 0x022E, name: "LATIN CAPITAL LETTER O WITH DOT ABOVE", aliases: &[] },
        Codepoint { codepoint: 0x022F, name: "LATIN SMALL LETTER O WITH DOT ABOVE", aliases: &[] },
    ]
}

fn all_codepoints_13() -> (v: Vec<Codepoint>)
    ensures
        v@ == codepoint_table_13(),
{
    let v = vec![
        Codepoint { codepoint: 0x0208, name: "LATIN CAPITAL LETTER I WITH DOUBLE GRAVE", aliases: &[] },
        Codepoint { codepoint: 0x0209, name: "LATIN SMALL LETTER I WITH DOUBLE GRAVE", aliases: &[] },
        Codepoint { codepoint: 0x020A, name: "LATIN CAPITAL LETTER I WITH INVERTED BREVE", aliases: &[] },
        Codepoint { codepoint: 0x020B, name: "LATIN SMALL LETTER I WITH INVERTED BREVE", aliases: &[] },
        Codepoint { codepoint: 0x020C, name: "LATIN CAPITAL LETTER O WITH DOUBLE GRAVE", aliases: &[] },
        Codepoint { codepoint: 0x020D, name: "LATIN SMALL LETTER O WITH DOUBLE GRAVE", aliases: &[] },
        Codepoint { codepoint: 0x020E, name: "LATIN CAPITAL LETTER O WITH INVERTED BREVE", aliases: &[] },
        Codepoint { codepoint: 0x020F, name: "LATIN SMALL LETTER O WITH INVERTED BREVE", aliases: &[] },
        Codepoint { codepoint: 0x0210, name: "LATIN CAPITAL LETTER R WITH DOUBLE GRAVE", aliases: &[] },
        Codepoint { codepoint: 0x0211, name: "LATIN SMALL LETTER R WITH DOUBLE GRAVE", aliases: &[] },
        Codepoint { codepoint: 0x0212, name: "LATIN CAPITAL LETTER R WITH INVERTED BREVE", aliases: &[] },
        Codepoint { codepoint: 0x0213, name: "LATIN SMALL LETTER R WITH INVERTED BREVE", aliases: &[] },
        Codepoint { codepoint: 0x0214, name: "LATIN CAPITAL LETTER U WITH DOUBLE GRAVE", aliases: &[] },
        Codepoint { codepoint: 0x0215, name: "LATIN SMALL LETTER U WITH DOUBLE GRAVE", aliases: &[] },
        Codepoint { codepoint: 0x0216, name: "LATIN CAPITAL LETTER U WITH INVERTED BREVE", aliases: &[] },
        Codepoint { codepoint: 0x0217, name: "LATIN SMALL LETTER U WITH INVERTED BREVE", aliases: &[] },
        Codepoint { codepoint: 0x0218, name: "LATIN CAPITAL LETTER S WITH COMMA BELOW", aliases: &[] },
        Codepoint { codepoint: 0x0219, name: "LATIN SMALL LETTER S WITH COMMA BELOW", aliases: &[] },
        Codepoint { codepoint: 0x021A, name: "LATIN CAPITAL LETTER T WITH COMMA BELOW", aliases: &[] },
        Codepoint { codepoint: 0x021B, name: "LATIN SMALL LETTER T WITH COMMA BELOW", aliases: &[] },
        Codepoint { codepoint: 0x021C, name: "LATIN CAPITAL LETTER YOGH", aliases: &[] },
        Codepoint { codepoint: 0x021D, name: "LATIN SMALL LETTER YOGH", aliases: &[] },
        Codepoint { codepoint: 0x021E, name: "LATIN CAPITAL LETTER H WITH CARON", aliases: &[] },
        Codepoint { codepoint: 0x021F, name: "LATIN SMALL LETTER H WITH CARON", aliases: &[] },
        Codepoint { codepoint: 0x0220, name: "LATIN CAPITAL LETTER N WITH LONG RIGHT LEG", aliases: &[] },
        Codepoint { codepoint: 0x0221, name: "LATIN SMALL LETTER D WITH CURL", aliases: &[] },
        Codepoint { codepoint: 0x0222, name: "LATIN CAPITAL LETTER OU", aliases: &[] },
        Codepoint { codepoint: 0x0223, name: "LATIN SMALL LETTER OU", aliases: &[] },
        Codepoint { codepoint: 0x0224, name: "LATIN CAPITAL LETTER Z WITH HOOK", aliases: &[] },
        Codepoint { codepoint: 0x0225, name: "LATIN SMALL LETTER Z WITH HOOK", aliases: &[] },
        Codepoint { codepoint: 0x0226, name: "LATIN CAPITAL LETTER A WITH DOT ABOVE", aliases: &[] },
        Codepoint { codepoint: 0x0227, name: "LATIN SMALL LETTER A WITH DOT ABOVE", aliases: &[] },
        Codepoint { codepoint: 0x0228, name: "LATIN CAPITAL LETTER E WITH CEDILLA", aliases: &[] },
        Codepoint { codepoint: 0x0229, name: "LATIN SMALL LETTER E WITH CEDILLA", aliases: &[] },
        Codepoint { codepoint: 0x022A, name: "LATIN CAPITAL LETTER O WITH DIAERESIS AND MACRON", aliases: &[] },
        Codepoint { codepoint: 0x022B, name: "LATIN SMALL LETTER O WITH DIAERESIS AND MACRON", aliases: &[] },
        Codepoint { codepoint: 0x022C, name: "LATIN CAPITAL LETTER O WITH TILDE AND MACRON", aliases: &[] },
        Codepoint { codepoint: 0x022D, name: "LATIN SMALL LETTER O WITH TILDE AND MACRON", aliases: &[] },
        Codepoint { codepoint: 0x022E, name: "LATIN CAPITAL LETTER O WITH DOT ABOVE", aliases: &[] },
        Codepoint { codepoint: 0x022F, name: "LATIN SMALL LETTER O WITH DOT ABOVE", aliases: &[] },
    ];
    assert(v@ =~= codepoint_table_13());
    v
}

pub open spec fn codepoint_table_14() -> Seq<Codepoint> {
    seq![
        Codepoint { codepoint: 0x0230, name: "LATIN CAPITAL LETTER O WITH DOT ABOVE AND MACRON", aliases: &[] },
        Codepoint { codepoint: 0x0231, name: "LATIN SMALL LETTER O WITH DOT ABOVE AND MACRON", aliases: &[] },
        Codepoint { codepoint: 0x0232, name: "LATIN CAPITAL LETTER Y WITH MACRON", aliases: &[] },
        Codepoint { codepoint: 0x0233, name: "LATIN SMALL LETTER Y WITH MACRON", aliases: &[] },
        Codepoint { codepoint: 0x0234, name: "LATIN SMALL LETTER L WITH CURL", aliases: &[] },
        Codepoint { codepoint: 0x0235, name: "LATIN SMALL LETTER N WITH CURL", aliases: &[] },
        Codepoint { codepoint: 0x0236, name: "LATIN SMALL LETTER T WITH CURL", aliases: &[] },
        Codepoint { codepoint: 0x0237, name: "LATIN SMALL LETTER DOTLESS J", aliases: &[] },
        Codepoint { codepoint: 0x0238, name: "LATIN SMALL LETTER DB DIGRAPH", aliases: &[] },
        Codepoint { codepoint: 0x0239, name: "LATIN SMALL LETTER QP DIGRAPH", aliases: &[] },
        Codepoint { codepoint: 0x023A, name: "LATIN CAPITAL LETTER A WITH STROKE", aliases: &[] },
        Codepoint { codepoint: 0x023B, name: "LATIN CAPITAL LETTER C WITH STROKE", aliases: &[] },
        Codepoint { codepoint: 0x023C, name: "LATIN SMALL LETTER C WITH STROKE", aliases: &[] },
        Codepoint { codepoint: 0x023D, name: "LATIN CAPITAL LETTER L WITH BAR", aliases: &[] },
        Codepoint { codepoint: 0x023E, name: "LATIN CAPITAL LETTER T WITH DIAGONAL STROKE", aliases: &[] },
        Codepoint { codepoint: 0x023F, name: "LATIN SMALL LETTER S WITH SWASH TAIL", aliases: &[] },
        Codepoint { codepoint: 0x0240, name: "LATIN SMALL LETTER Z WITH SWASH TAIL", aliases: &[] },
        Codepoint { codepoint: 0x0241, name: "LATIN CAPITAL LETTER GLOTTAL STOP", aliases: &[] },
        Codepoint { codepoint: 0x0242, name: "LATIN SMALL LETTER GLOTTAL STOP", aliases: &[] },
        Codepoint { codepoint: 0x0243, name: "LATIN CAPITAL LETTER B WITH STROKE", aliases: &[] },
        Codepoint { codepoint: 0x0244, name: "LATIN CAPITAL LETTER U BAR", aliases: &[] },
        Codepoint { codepoint: 0x0245, name: "LATIN CAPITAL LETTER TURNED V", aliases: &[] },
        Codepoint { codepoint: 0x0246, name: "LATIN CAPITAL LETTER E WITH STROKE", aliases: &[] },
        Codepoint { codepoint: 0x0247, name: "LATIN SMALL LETTER E WITH STROKE", aliases: &[] },
        Codepoint { codepoint: 0x0248, name: "LATIN CAPITAL LETTER J WITH STROKE", aliases: &[] },
        Codepoint { codepoint: 0x0249, name: "LATIN SMALL LETTER J WITH STROKE", aliases: &[] },
        Codepoint { codepoint: 0x024A, name: "LATIN CAPITAL LETTER SMALL Q WITH HOOK TAIL", aliases: &[] },
        Codepoint { codepoint: 0x024B, name: "LATIN SMALL LETTER Q WITH HOOK TAIL", aliases: &[] },
        Codepoint { codepoint: 0x024C, name: "LATIN CAPITAL LETTER R WITH STROKE", aliases: &[] },
        Codepoint { codepoint: 0x024D, name: "LATIN SMALL LETTER R WITH STROKE", aliases: &[] },
        Codepoint { codepoint: 0x024E, name: "LATIN CAPITAL LETTER Y WITH STROKE", aliases: &[] },
        Codepoint { codepoint: 0x024F, name: "LATIN SMALL LETTER Y WITH STROKE", aliases: &[] },
        Codepoint { codepoint: 0x0250, name: "LATIN SMALL LETTER TURNED A", aliases: &[] },
        Codepoint { codepoint: 0x0251, name: "LATIN SMALL LETTER ALPHA", aliases: &["LATIN SMALL LETTER SCRIPT A"] },
        Codepoint { codepoint: 0x0252, name: "LATIN SMALL LETTER TURNED ALPHA", aliases: &["LATIN SMALL LETTER TURNED SCRIPT A"] },
        Codepoint { codepoint: 0x0253, name: "LATIN SMALL LETTER B WITH HOOK", aliases: &["LATIN SMALL LETTER B HOOK"] },
        Codepoint { codepoint: 0x0254, name: "LATIN SMALL LETTER OPEN O", aliases: &[] },
        Codepoint { codepoint: 0x0255, name: "LATIN SMALL LETTER C WITH CURL", aliases: &["LATIN SMALL LETTER C CURL"] },
        Codepoint { codepoint: 0x0256, name: "LATIN SMALL LETTER D WITH TAIL", aliases: &["LATIN SMALL LETTER D RETROFLEX HOOK"] },
        Codepoint { codepoint: 0x0257, name: "LATIN SMALL LETTER D WITH HOOK", aliases: &["LATIN SMALL LETTER D HOOK"] },
    ]
}

fn all_codepoints_14() -> (v: Vec<Codepoint>)
    ensures
        v@ == codepoint_table_14(),
{
    let v = vec![
        Codepoint { codepoint: 0x0230, name: "LATIN CAPITAL LETTER O WITH DOT ABOVE AND MACRON", aliases: &[] },
        Codepoint { codepoint: 0x0231, name: "LATIN SMALL LETTER O WITH DOT ABOVE AND MACRON", aliases: &[] },
        Codepoint { codepoint: 0x0232, name: "LATIN CAPITAL LETTER Y WITH MACRON", aliases: &[] },
        Codepoint { codepoint: 0x0233, name: "LATIN SMALL LETTER Y WITH MACRON", aliases: &[] },
        Codepoint { codepoint: 0x0234, name: "LATIN SMALL LETTER L WITH CURL", aliases: &[] },
        Codepoint { codepoint: 0x0235, name: "LATIN SMALL LETTER N WITH CURL", aliases: &[] },
        Codepoint { codepoint: 0x0236, name: "LATIN SMALL LETTER T WITH CURL", aliases: &[] },
        Codepoint { codepoint: 0x0237, name: "LATIN SMALL LETTER DOTLESS J", aliases: &[] },
        Codepoint { codepoint: 0x0238, name: "LATIN SMALL LETTER DB DIGRAPH", aliases: &[] },
        Codepoint { codepoint: 0x0239, name: "LATIN SMALL LETTER QP DIGRAPH", aliases: &[] },
        Codepoint { codepoint: 0x023A, name: "LATIN CAPITAL LETTER A WITH STROKE", aliases: &[] },
        Codepoint { codepoint: 0x023B, name: "LATIN CAPITAL LETTER C WITH STROKE", aliases: &[] },
        Codepoint { codepoint: 0x023C, name: "LATIN SMALL LETTER C WITH STROKE", aliases: &[] },
        Codepoint { codepoint: 0x023D, name: "LATIN CAPITAL LETTER L WITH BAR", aliases: &[] },
        Codepoint { codepoint: 0x023E, name: "LATIN CAPITAL LETTER T WITH DIAGONAL STROKE", aliases: &[] },
        Codepoint { codepoint: 0x023F, name: "LATIN SMALL LETTER S WITH SWASH TAIL", aliases: &[] },
        Codepoint { codepoint: 0x0240, name: "LATIN SMALL LETTER Z WITH SWASH TAIL", aliases: &[] },
        Codepoint { codepoint: 0x0241, name: "LATIN CAPITAL LETTER GLOTTAL STOP", aliases: &[] },
        Codepoint { codepoint: 0x0242, name: "LATIN SMALL LETTER GLOTTAL STOP", aliases: &[] },
        Codepoint { codepoint: 0x0243, name: "LATIN CAPITAL LETTER B WITH STROKE", aliases: &[] },
        Codepoint { codepoint: 0x0244, name: "LATIN CAPITAL LETTER U BAR", aliases: &[] },
        Codepoint { codepoint: 0x0245, name: "LATIN CAPITAL LETTER TURNED V", aliases: &[] },
        Codepoint { codepoint: 0x0246, name: "LATIN CAPITAL LETTER E WITH STROKE", aliases: &[] },
        Codepoint { codepoint: 0x0247, name: "LATIN SMALL LETTER E WITH STROKE", aliases: &[] },
        Codepoint { codepoint: 0x0248, name: "LATIN CAPITAL LETTER J WITH STROKE", aliases: &[] },
        Codepoint { codepoint: 0x0249, name: "LATIN SMALL LETTER J WITH STROKE", aliases: &[] },
        Codepoint { codepoint: 0x024A, name: "LATIN CAPITAL LETTER SMALL Q WITH HOOK TAIL", aliases: &[] },
        Codepoint { codepoint: 0x024B, name: "LATIN SMALL LETTER Q WITH HOOK TAIL", aliases: &[] },
        Codepoint { codepoint: 0x024C, name: "LATIN CAPITAL LETTER R WITH STROKE", aliases: &[] },
        Codepoint { codepoint: 0x024D, name: "LATIN SMALL LETTER R WITH STROKE", aliases: &[] },
        Codepoint { codepoint: 0x024E, name: "LATIN CAPITAL LETTER Y WITH STROKE", aliases: &[] },
        Codepoint { codepoint: 0x024F, name: "LATIN SMALL LETTER Y WITH STROKE", aliases: &[] },
        Codepoint { codepoint: 0x0250, name: "LATIN SMALL LETTER TURNED A", aliases: &[] },
        Codepoint { codepoint: 0x0251, name: "LATIN SMALL LETTER ALPHA", aliases: &["LATIN SMALL LETTER SCRIPT A"] },
        Codepoint { codepoint: 0x0252, name: "LATIN SMALL LETTER TURNED ALPHA", aliases: &["LATIN SMALL LETTER TURNED SCRIPT A"] },
        Codepoint { codepoint: 0x0253, name: "LATIN SMALL LETTER B WITH HOOK", aliases: &["LATIN SMALL LETTER B HOOK"] },
        Codepoint { codepoint: 0x0254, name: "LATIN SMALL LETTER OPEN O", aliases: &[] },
        Codepoint { codepoint: 0x0255, name: "LATIN SMALL LETTER C WITH CURL", aliases: &["LATIN SMALL LETTER C CURL"] },
        Codepoint { codepoint: 0x0256, name: "LATIN SMALL LETTER D WITH TAIL", aliases: &["LATIN SMALL LETTER D RETROFLEX HOOK"] },
        Codepoint { codepoint: 0x0257, name: "LATIN SMALL LETTER D WITH HOOK", aliases: &["LATIN SMALL LETTER D HOOK"] },
    ];
    assert(v@ =~= codepoint_table_14());
    v
}

pub open spec fn codepoint_table_15() -> Seq<Codepoint> {
    seq![
        Codepoint { codepoint: 0x0258, name: "LATIN SMALL LETTER REVERSED E", aliases: &[] },
        Codepoint { codepoint: 0x0259, name: "LATIN SMALL LETTER SCHWA", aliases: &[] },
        Codepoint { codepoint: 0x025A, name: "LATIN SMALL LETTER SCHWA WITH HOOK", aliases: &["LATIN SMALL LETTER SCHWA HOOK"] },
        Codepoint { codepoint: 0x025B, name: "LATIN SMALL LETTER OPEN E", aliases: &["LATIN SMALL LETTER EPSILON"] },
        Codepoint { codepoint: 0x025C, name: "LATIN SMALL LETTER REVERSED OPEN E", aliases: &["LATIN SMALL LETTER REVERSED EPSILON"] },
        Codepoint { codepoint: 0x025D, name: "LATIN SMALL LETTER REVERSED OPEN E WITH HOOK", aliases: &["LATIN SMALL LETTER REVERSED EPSILON HOOK"] },
        Codepoint { codepoint: 0x025E, name: "LATIN SMALL LETTER CLOSED REVERSED OPEN E", aliases: &["LATIN SMALL LETTER CLOSED REVERSED EPSILON"] },
        Codepoint { codepoint: 0x025F, name: "LATIN SMALL LETTER DOTLESS J WITH STROKE", aliases: &["LATIN SMALL LETTER DOTLESS J BAR"] },
        Codepoint { codepoint: 0x0260, name: "LATIN SMALL LETTER G WITH HOOK", aliases: &["LATIN SMALL LETTER G HOOK"] },
        Codepoint { codepoint: 0x0261, name: "LATIN SMALL LETTER SCRIPT G", aliases: &[] },
        Codepoint { codepoint: 0x0262, name: "LATIN LETTER SMALL CAPITAL G", aliases: &[] },
        Codepoint { codepoint: 0x0263, name: "LATIN SMALL LETTER GAMMA", aliases: &[] },
        Codepoint { codepoint: 0x0264, name: "LATIN SMALL LETTER RAMS HORN", aliases: &["LATIN SMALL LETTER BABY GAMMA"] },
        Codepoint { codepoint: 0x0265, name: "LATIN SMALL LETTER TURNED H", aliases: &[] },
        Codepoint { codepoint: 0x0266, name: "LATIN SMALL LETTER H WITH HOOK", aliases: &["LATIN SMALL LETTER H HOOK"] },
        Codepoint { codepoint: 0x0267, name: "LATIN SMALL LETTER HENG WITH HOOK", aliases: &["LATIN SMALL LETTER HENG HOOK"] },
        Codepoint { codepoint: 0x0268, name: "LATIN SMALL LETTER I WITH STROKE", aliases: &["LATIN SMALL LETTER BARRED I"] },
        Codepoint { codepoint: 0x0269, name: "LATIN SMALL LETTER IOTA", aliases: &[] },
        Codepoint { codepoint: 0x026A, name: "LATIN LETTER SMALL CAPITAL I", aliases: &[] },
        Codepoint { codepoint: 0x026B, name: "LATIN SMALL LETTER L WITH MIDDLE TILDE", aliases: &[] },
        Codepoint { codepoint: 0x026C, name: "LATIN SMALL LETTER L WITH BELT", aliases: &["LATIN SMALL LETTER L BELT"] },
        Codepoint { codepoint: 0x026D, name: "LATIN SMALL LETTER L WITH RETROFLEX HOOK", aliases: &["LATIN SMALL LETTER L RETROFLEX HOOK"] },
        Codepoint { codepoint: 0x026E, name: "LATIN SMALL LETTER LEZH", aliases: &["LATIN SMALL LETTER L YOGH"] },
        Codepoint { codepoint: 0x026F, name: "LATIN SMALL LETTER TURNED M", aliases: &[] },
        Codepoint { codepoint: 0x0270, name: "LATIN SMALL LETTER TURNED M WITH LONG LEG", aliases: &[] },
        Codepoint { codepoint: 0x0271, name: "LATIN SMALL LETTER M WITH HOOK", aliases: &["LATIN SMALL LETTER M HOOK"] },
        Codepoint { codepoint: 0x0272, name: "LATIN SMALL LETTER N WITH LEFT HOOK", aliases: &["LATIN SMALL LETTER N HOOK"] },
        Codepoint { codepoint: 0x0273, name: "LATIN SMALL LETTER N WITH RETROFLEX HOOK", aliases: &["LATIN SMALL LETTER N RETROFLEX HOOK"] },
        Codepoint { codepoint: 0x0274, name: "LATIN LETTER SMALL CAPITAL N", aliases: &[] },
        Codepoint { codepoint: 0x0275, name: "LATIN SMALL LETTER BARRED O", aliases: &[] },
        Codepoint { codepoint: 0x0276, name: "LATIN LETTER SMALL CAPITAL OE", aliases: &["LATIN LETTER SMALL CAPITAL O E"] },
        Codepoint { codepoint: 0x0277, name: "LATIN SMALL LETTER CLOSED OMEGA", aliases: &[] },
        Codepoint { codepoint: 0x0278, name: "LATIN SMALL LETTER PHI", aliases: &[] },
        Codepoint { codepoint: 0x0279, name: "LATIN SMALL LETTER TURNED R", aliases: &[] },
        Codepoint { codepoint: 0x027A, name: "LATIN SMALL LETTER TURNED R WITH LONG LEG", aliases: &[] },
        Codepoint { codepoint: 0x027B, name: "LATIN SMALL LETTER TURNED R WITH HOOK", aliases: &["LATIN SMALL LETTER TURNED R HOOK"] },
        Codepoint { codepoint: 0x027C, name: "LATIN SMALL LETTER R WITH LONG LEG", aliases: &[] },
        Codepoint { codepoint: 0x027D, name: "LATIN SMALL LETTER R WITH TAIL", aliases: &["LATIN SMALL LETTER R HOOK"] },
        Codepoint { codepoint: 0x027E, name: "LATIN SMALL LETTER R WITH FISHHOOK", aliases: &["LATIN SMALL LETTER FISHHOOK R"] },
        Codepoint { codepoint: 0x027F, name: "LATIN SMALL LETTER REVERSED R WITH FISHHOOK", aliases: &["LATIN SMALL LETTER REVERSED FISHHOOK R"] },
    ]
}

fn all_codepoints_15() -> (v: Vec<Codepoint>)
    ensures
        v@ == codepoint_table_15(),
{
    let v = vec![
        Codepoint { codepoint: 0x0258, name: "LATIN SMALL LETTER REVERSED E", aliases: &[] },
        Codepoint { codepoint: 0x0259, name: "LATIN SMALL LETTER SCHWA", aliases: &[] },
        Codepoint { codepoint: 0x025A, name: "LATIN SMALL LETTER SCHWA WITH HOOK", aliases: &["LATIN SMALL LETTER SCHWA HOOK"] },
        Codepoint { codepoint: 0x025B, name: "LATIN SMALL LETTER OPEN E", aliases: &["LATIN SMALL LETTER EPSILON"] },
        Codepoint { codepoint: 0x025C, name: "LATIN SMALL LETTER REVERSED OPEN E", aliases: &["LATIN SMALL LETTER REVERSED EPSILON"] },
        Codepoint { codepoint: 0x025D, name: "LATIN SMALL LETTER REVERSED OPEN E WITH HOOK", aliases: &["LATIN SMALL LETTER REVERSED EPSILON HOOK"] },
        Codepoint { codepoint: 0x025E, name: "LATIN SMALL LETTER CLOSED REVERSED OPEN E", aliases: &["LATIN SMALL LETTER CLOSED REVERSED EPSILON"] },
        Codepoint { codepoint: 0x025F, name: "LATIN SMALL LETTER DOTLESS J WITH STROKE", aliases: &["LATIN SMALL LETTER DOTLESS J BAR"] },
        Codepoint { codepoint: 0x0260, name: "LATIN SMALL LETTER G WITH HOOK", aliases: &["LATIN SMALL LETTER G HOOK"] },
        Codepoint { codepoint: 0x0261, name: "LATIN SMALL LETTER SCRIPT G", aliases: &[] },
        Codepoint { codepoint: 0x0262, name: "LATIN LETTER SMALL CAPITAL G", aliases: &[] },
        Codepoint { codepoint: 0x0263, name: "LATIN SMALL LETTER GAMMA", aliases: &[] },
        Codepoint { codepoint: 0x0264, name: "LATIN SMALL LETTER RAMS HORN", aliases: &["LATIN SMALL LETTER BABY GAMMA"] },
        Codepoint { codepoint: 0x0265, name: "LATIN SMALL LETTER TURNED H", aliases: &[] },
        Codepoint { codepoint: 0x0266, name: "LATIN SMALL LETTER H WITH HOOK", aliases: &["LATIN SMALL LETTER H HOOK"] },
        Codepoint { codepoint: 0x0267, name: "LATIN SMALL LETTER HENG WITH HOOK", aliases: &["LATIN SMALL LETTER HENG HOOK"] },
        Codepoint { codepoint: 0x0268, name: "LATIN SMALL LETTER I WITH STROKE", aliases: &["LATIN SMALL LETTER BARRED I"] },
        Codepoint { codepoint: 0x0269, name: "LATIN SMALL LETTER IOTA", aliases: &[] },
        Codepoint { codepoint: 0x026A, name: "LATIN LETTER SMALL CAPITAL I", aliases: &[] },
        Codepoint { codepoint: 0x026B, name: "LATIN SMALL LETTER L WITH MIDDLE TILDE", aliases: &[] },
        Codepoint { codepoint: 0x026C, name: "LATIN SMALL LETTER L WITH BELT", aliases: &["LATIN SMALL LETTER L BELT"] },
        Codepoint { codepoint: 0x026D, name: "LATIN SMALL LETTER L WITH RETROFLEX HOOK", aliases: &["LATIN SMALL LETTER L RETROFLEX HOOK"] },
        Codepoint { codepoint: 0x026E, name: "LATIN SMALL LETTER LEZH", aliases: &["LATIN SMALL LETTER L YOGH"] },
        Codepoint { codepoint: 0x026F, name: "LATIN SMALL LETTER TURNED M", aliases: &[] },
        Codepoint { codepoint: 0x0270, name: "LATIN SMALL LETTER TURNED M WITH LONG LEG", aliases: &[] },
        Codepoint { codepoint: 0x0271, name: "LATIN SMALL LETTER M WITH HOOK", aliases: &["LATIN SMALL LETTER M HOOK"] },
        Codepoint { codepoint: 0x0272, name: "LATIN SMALL LETTER N WITH LEFT HOOK", aliases: &["LATIN SMALL LETTER N HOOK"] },
        Codepoint { codepoint: 0x0273, name: "LATIN SMALL LETTER N WITH RETROFLEX HOOK", aliases: &["LATIN SMALL LETTER N RETROFLEX HOOK"] },
        Codepoint { codepoint: 0x0274, name: "LATIN LETTER SMALL CAPITAL N", aliases: &[] },
        Codepoint { codepoint: 0x0275, name: "LATIN SMALL LETTER BARRED O", aliases: &[] },
        Codepoint { codepoint: 0x0276, name: "LATIN LETTER SMALL CAPITAL OE", aliases: &["LATIN LETTER SMALL CAPITAL O E"] },
        Codepoint { codepoint: 0x0277, name: "LATIN SMALL LETTER CLOSED OMEGA", aliases: &[] },
        Codepoint { codepoint: 0x0278, name: "LATIN SMALL LETTER PHI", aliases: &[] },
        Codepoint { codepoint: 0x0279, name: "LATIN SMALL LETTER TURNED R", aliases: &[] },
        Codepoint { codepoint: 0x027A, name: "LATIN SMALL LETTER TURNED R WITH LONG LEG", aliases: &[] },
        Codepoint { codepoint: 0x027B, name: "LATIN SMALL LETTER TURNED R WITH HOOK", aliases: &["LATIN SMALL LETTER TURNED R HOOK"] },
        Codepoint { codepoint: 0x027C, name: "LATIN SMALL LETTER R WITH LONG LEG", aliases: &[] },
        Codepoint { codepoint: 0x027D, name: "LATIN SMALL LETTER R WITH TAIL", aliases: &["LATIN SMALL LETTER R HOOK"] },
        Codepoint { codepoint: 0x027E, name: "LATIN SMALL LETTER R WITH FISHHOOK", aliases: &["LATIN SMALL LETTER FISHHOOK R"] },
        Codepoint { codepoint: 0x027F, name: "LATIN SMALL LETTER REVERSED R WITH FISHHOOK", aliases: &["LATIN SMALL LETTER REVERSED FISHHOOK R"] },
    ];
    assert(v@ =~= codepoint_table_15());
    v
}

pub open spec fn codepoint_table_16() -> Seq<Codepoint> {
    seq![
        Codepoint { codepoint: 0x0280, name: "LATIN LETTER SMALL CAPITAL R", aliases: &[] },
        Codepoint { codepoint: 0x0281, name: "LATIN LETTER SMALL CAPITAL INVERTED R", aliases: &[] },
        Codepoint { codepoint: 0x0282, name: "LATIN SMALL LETTER S WITH HOOK", aliases: &["LATIN SMALL LETTER S HOOK"] },
        Codepoint { codepoint: 0x0283, name: "LATIN SMALL LETTER ESH", aliases: &[] },
        Codepoint { codepoint: 0x0284, name: "LATIN SMALL LETTER DOTLESS J WITH STROKE AND HOOK", aliases: &["LATIN SMALL LETTER DOTLESS J BAR HOOK"] },
        Codepoint { codepoint: 0x0285, name: "LATIN SMALL LETTER SQUAT REVERSED ESH", aliases: &[] },
        Codepoint { codepoint: 0x0286, name: "LATIN SMALL LETTER ESH WITH CURL", aliases: &["LATIN SMALL LETTER ESH CURL"] },
        Codepoint { codepoint: 0x0287, name: "LATIN SMALL LETTER TURNED T", aliases: &[] },
        Codepoint { codepoint: 0x0288, name: "LATIN SMALL LETTER T WITH RETROFLEX HOOK", aliases: &["LATIN SMALL LETTER T RETROFLEX HOOK"] },
        Codepoint { codepoint: 0x0289, name: "LATIN SMALL LETTER U BAR", aliases: &[] },
        Codepoint { codepoint: 0x028A, name: "LATIN SMALL LETTER UPSILON", aliases: &[] },
        Codepoint { codepoint: 0x028B, name: "LATIN SMALL LETTER V WITH HOOK", aliases: &["LATIN SMALL LETTER SCRIPT V"] },
        Codepoint { codepoint: 0x028C, name: "LATIN SMALL LETTER TURNED V", aliases: &[] },
        Codepoint { codepoint: 0x028D, name: "LATIN SMALL LETTER TURNED W", aliases: &[] },
        Codepoint { codepoint: 0x028E, name: "LATIN SMALL LETTER TURNED Y", aliases: &[] },
        Codepoint { codepoint: 0x028F, name: "LATIN LETTER SMALL CAPITAL Y", aliases: &[] },
        Codepoint { codepoint: 0x0290, name: "LATIN SMALL LETTER Z WITH RETROFLEX HOOK", aliases: &["LATIN SMALL LETTER Z RETROFLEX HOOK"] },
        Codepoint { codepoint: 0x0291, name: "LATIN SMALL LETTER Z WITH CURL", aliases: &["LATIN SMALL LETTER Z CURL"] },
        Codepoint { codepoint: 0x0292, name: "LATIN SMALL LETTER EZH", aliases: &["LATIN SMALL LETTER YOGH"] },
        Codepoint { codepoint: 0x0293, name: "LATIN SMALL LETTER EZH WITH CURL", aliases: &["LATIN SMALL LETTER YOGH CURL"] },
        Codepoint { codepoint: 0x0294, name: "LATIN LETTER GLOTTAL STOP", aliases: &[] },
        Codepoint { codepoint: 0x0295, name: "LATIN LETTER PHARYNGEAL VOICED FRICATIVE", aliases: &["LATIN LETTER REVERSED GLOTTAL STOP"] },
        Codepoint { codepoint: 0x0296, name: "LATIN LETTER INVERTED GLOTTAL STOP", aliases: &[] },
        Codepoint { codepoint: 0x0297, name: "LATIN LETTER STRETCHED C", aliases: &[] },
        Codepoint { codepoint: 0x0298, name: "LATIN LETTER BILABIAL CLICK", aliases: &["LATIN LETTER BULLSEYE"] },
        Codepoint { codepoint: 0x0299, name: "LATIN LETTER SMALL CAPITAL B", aliases: &[] },
        Codepoint { codepoint: 0x029A, name: "LATIN SMALL LETTER CLOSED OPEN E", aliases: &["LATIN SMALL LETTER CLOSED EPSILON"] },
        Codepoint { codepoint: 0x029B, name: "LATIN LETTER SMALL CAPITAL G WITH HOOK", aliases: &["LATIN LETTER SMALL CAPITAL G HOOK"] },
        Codepoint { codepoint: 0x029C, name: "LATIN LETTER SMALL CAPITAL H", aliases: &[] },
        Codepoint { codepoint: 0x029D, name: "LATIN SMALL LETTER J WITH CROSSED-TAIL", aliases: &["LATIN SMALL LETTER CROSSED-TAIL J"] },
        Codepoint { codepoint: 0x029E, name: "LATIN SMALL LETTER TURNED K", aliases: &[] },
        Codepoint { codepoint: 0x029F, name: "LATIN LETTER SMALL CAPITAL L", aliases: &[] },
        Codepoint { codepoint: 0x02A0, name: "LATIN SMALL LETTER Q WITH HOOK", aliases: &["LATIN SMALL LETTER Q HOOK"] },
        Codepoint { codepoint: 0x02A1, name: "LATIN LETTER GLOTTAL STOP WITH STROKE", aliases: &["LATIN LETTER GLOTTAL STOP BAR"] },
        Codepoint { codepoint: 0x02A2, name: "LATIN LETTER REVERSED GLOTTAL STOP WITH STROKE", aliases: &["LATIN LETTER REVERSED GLOTTAL STOP BAR"] },
        Codepoint { codepoint: 0x02A3, name: "LATIN SMALL LETTER DZ DIGRAPH", aliases: &["LATIN SMALL LETTER D Z"] },
        Codepoint { codepoint: 0x02A4, name: "LATIN SMALL LETTER DEZH DIGRAPH", aliases: &["LATIN SMALL LETTER D YOGH"] },
        Codepoint { codepoint: 0x02A5, name: "LATIN SMALL LETTER DZ DIGRAPH WITH CURL", aliases: &["LATIN SMALL LETTER D Z CURL"] },
        Codepoint { codepoint: 0x02A6, name: "LATIN SMALL LETTER TS DIGRAPH", aliases: &["LATIN SMALL LETTER T S"] },
        Codepoint { codepoint: 0x02A7, name: "LATIN SMALL LETTER TESH DIGRAPH", aliases: &["LATIN SMALL LETTER T ESH"] },
    ]
}

fn all_codepoints_16() -> (v: Vec<Codepoint>)
    ensures
        v@ == codepoint_table_16(),
{
    let v = vec![
        Codepoint { codepoint: 0x0280, name: "LATIN LETTER SMALL CAPITAL R", aliases: &[] },
        Codepoint { codepoint: 0x0281, name: "LATIN LETTER SMALL CAPITAL INVERTED R", aliases: &[] },
        Codepoint { codepoint: 0x0282, name: "LATIN SMALL LETTER S WITH HOOK", aliases: &["LATIN SMALL LETTER S HOOK"] },
        Codepoint { codepoint: 0x0283, name: "LATIN SMALL LETTER ESH", aliases: &[] },
        Codepoint { codepoint: 0x0284, name: "LATIN SMALL LETTER DOTLESS J WITH STROKE AND HOOK", aliases: &["LATIN SMALL LETTER DOTLESS J BAR HOOK"] },
        Codepoint { codepoint: 0x0285, name: "LATIN SMALL LETTER SQUAT REVERSED ESH", aliases: &[] },
        Codepoint { codepoint: 0x0286, name: "LATIN SMALL LETTER ESH WITH CURL", aliases: &["LATIN SMALL LETTER ESH CURL"] },
        Codepoint { codepoint: 0x0287, name: "LATIN SMALL LETTER TURNED T", aliases: &[] },
        Codepoint { codepoint: 0x0288, name: "LATIN SMALL LETTER T WITH RETROFLEX HOOK", aliases: &["LATIN SMALL LETTER T RETROFLEX HOOK"] },
        Codepoint { codepoint: 0x0289, name: "LATIN SMALL LETTER U BAR", aliases: &[] },
        Codepoint { codepoint: 0x028A, name: "LATIN SMALL LETTER UPSILON", aliases: &[] },
        Codepoint { codepoint: 0x028B, name: "LATIN SMALL LETTER V WITH HOOK", aliases: &["LATIN SMALL LETTER SCRIPT V"] },
        Codepoint { codepoint: 0x028C, name: "LATIN SMALL LETTER TURNED V", aliases: &[] },
        Codepoint { codepoint: 0x028D, name: "LATIN SMALL LETTER TURNED W", aliases: &[] },
        Codepoint { codepoint: 0x028E, name: "LATIN SMALL LETTER TURNED Y", aliases: &[] },
        Codepoint { codepoint: 0x028F, name: "LATIN LETTER SMALL CAPITAL Y", aliases: &[] },
        Codepoint { codepoint: 0x0290, name: "LATIN SMALL LETTER Z WITH RETROFLEX HOOK", aliases: &["LATIN SMALL LETTER Z RETROFLEX HOOK"] },
        Codepoint { codepoint: 0x0291, name: "LATIN SMALL LETTER Z WITH CURL", aliases: &["LATIN SMALL LETTER Z CURL"] },
        Codepoint { codepoint: 0x0292, name: "LATIN SMALL LETTER EZH", aliases: &["LATIN SMALL LETTER YOGH"] },
        Codepoint { codepoint: 0x0293, name: "LATIN SMALL LETTER EZH WITH CURL", aliases: &["LATIN SMALL LETTER YOGH CURL"] },
        Codepoint { codepoint: 0x0294, name: "LATIN LETTER GLOTTAL STOP", aliases: &[] },
        Codepoint { codepoint: 0x0295, name: "LATIN LETTER PHARYNGEAL VOICED FRICATIVE", aliases: &["LATIN LETTER REVERSED GLOTTAL STOP"] },
        Codepoint { codepoint: 0x0296, name: "LATIN LETTER INVERTED GLOTTAL STOP", aliases: &[] },
        Codepoint { codepoint: 0x0297, name: "LATIN LETTER STRETCHED C", aliases: &[] },
        Codepoint { codepoint: 0x0298, name: "LATIN LETTER BILABIAL CLICK", aliases: &["LATIN LETTER BULLSEYE"] },
        Codepoint { codepoint: 0x0299, name: "LATIN LETTER SMALL CAPITAL B", aliases: &[] },
        Codepoint { codepoint: 0x029A, name: "LATIN SMALL LETTER CLOSED OPEN E", aliases: &["LATIN SMALL LETTER CLOSED EPSILON"] },
        Codepoint { codepoint: 0x029B, name: "LATIN LETTER SMALL CAPITAL G WITH HOOK", aliases: &["LATIN LETTER SMALL CAPITAL G HOOK"] },
        Codepoint { codepoint: 0x029C, name: "LATIN LETTER SMALL CAPITAL H", aliases: &[] },
        Codepoint { codepoint: 0x029D, name: "LATIN SMALL LETTER J WITH CROSSED-TAIL", aliases: &["LATIN SMALL LETTER CROSSED-TAIL J"] },
        Codepoint { codepoint: 0x029E, name: "LATIN SMALL LETTER TURNED K", aliases: &[] },
        Codepoint { codepoint: 0x029F, name: "LATIN LETTER SMALL CAPITAL L", aliases: &[] },
        Codepoint { codepoint: 0x02A0, name: "LATIN SMALL LETTER Q WITH HOOK", aliases: &["LATIN SMALL LETTER Q HOOK"] },
        Codepoint { codepoint: 0x02A1, name: "LATIN LETTER GLOTTAL STOP WITH STROKE", aliases: &["LATIN LETTER GLOTTAL STOP BAR"] },
        Codepoint { codepoint: 0x02A2, name: "LATIN LETTER REVERSED GLOTTAL STOP WITH STROKE", aliases: &["LATIN LETTER REVERSED GLOTTAL STOP BAR"] },
        Codepoint { codepoint: 0x02A3, name: "LATIN SMALL LETTER DZ DIGRAPH", aliases: &["LATIN SMALL LETTER D Z"] },
        Codepoint { codepoint: 0x02A4, name: "LATIN SMALL LETTER DEZH DIGRAPH", aliases: &["LATIN SMALL LETTER D YOGH"] },
        Codepoint { codepoint: 0x02A5, name: "LATIN SMALL LETTER DZ DIGRAPH WITH CURL", aliases: &["LATIN SMALL LETTER D Z CURL"] },
        Codepoint { codepoint: 0x02A6, name: "LATIN SMALL LETTER TS DIGRAPH", aliases: &["LATIN SMALL LETTER T S"] },
        Codepoint { codepoint: 0x02A7, name: "LATIN SMALL LETTER TESH DIGRAPH", aliases: &["LATIN SMALL LETTER T ESH"] },
    ];
    assert(v@ =~= codepoint_table_16());
    v
}

pub open spec fn codepoint_table_17() -> Seq<Codepoint> {
    seq![
        Codepoint { codepoint: 0x02A8, name: "LATIN SMALL LETTER TC DIGRAPH WITH CURL", aliases: &["LATIN SMALL LETTER T C CURL"] },
        Codepoint { codepoint: 0x02A9, name: "LATIN SMALL LETTER FENG DIGRAPH", aliases: &[] },
        Codepoint { codepoint: 0x02AA, name: "LATIN SMALL LETTER LS DIGRAPH", aliases: &[] },
        Codepoint { codepoint: 0x02AB, name: "LATIN SMALL LETTER LZ DIGRAPH", aliases: &[] },
        Codepoint { codepoint: 0x02AC, name: "LATIN LETTER BILABIAL PERCUSSIVE", aliases: &[] },
        Codepoint { codepoint: 0x02AD, name: "LATIN LETTER BIDENTAL PERCUSSIVE", aliases: &[] },
        Codepoint { codepoint: 0x02AE, name: "LATIN SMALL LETTER TURNED H WITH FISHHOOK", aliases: &[] },
        Codepoint { codepoint: 0x02AF, name: "LATIN SMALL LETTER TURNED H WITH FISHHOOK AND TAIL", aliases: &[] },
        Codepoint { codepoint: 0x02B0, name: "MODIFIER LETTER SMALL H", aliases: &[] },
        Codepoint { codepoint: 0x02B1, name: "MODIFIER LETTER SMALL H WITH HOOK", aliases: &["MODIFIER LETTER SMALL H HOOK"] },
        Codepoint { codepoint: 0x02B2, name: "MODIFIER LETTER SMALL J", aliases: &[] },
        Codepoint { codepoint: 0x02B3, name: "MODIFIER LETTER SMALL R", aliases: &[] },
        Codepoint { codepoint: 0x02B4, name: "MODIFIER LETTER SMALL TURNED R", aliases: &[] },
        Codepoint { codepoint: 0x02B5, name: "MODIFIER LETTER SMALL TURNED R WITH HOOK", aliases: &["MODIFIER LETTER SMALL TURNED R HOOK"] },
        Codepoint { codepoint: 0x02B6, name: "MODIFIER LETTER SMALL CAPITAL INVERTED R", aliases: &[] },
        Codepoint { codepoint: 0x02B7, name: "MODIFIER LETTER SMALL W", aliases: &[] },
        Codepoint { codepoint: 0x02B8, name: "MODIFIER LETTER SMALL Y", aliases: &[] },
        Codepoint { codepoint: 0x02B9, name: "MODIFIER LETTER PRIME", aliases: &[] },
        Codepoint { codepoint: 0x02BA, name: "MODIFIER LETTER DOUBLE PRIME", aliases: &[] },
        Codepoint { codepoint: 0x02BB, name: "MODIFIER LETTER TURNED COMMA", aliases: &[] },
        Codepoint { codepoint: 0x02BC, name: "MODIFIER LETTER APOSTROPHE", aliases: &[] },
        Codepoint { codepoint: 0x02BD, name: "MODIFIER LETTER REVERSED COMMA", aliases: &[] },
        Codepoint { codepoint: 0x02BE, name: "MODIFIER LETTER RIGHT HALF RING", aliases: &[] },
        Codepoint { codepoint: 0x02BF, name: "MODIFIER LETTER LEFT HALF RING", aliases: &[] },
        Codepoint { codepoint: 0x02C0, name: "MODIFIER LETTER GLOTTAL STOP", aliases: &[] },
        Codepoint { codepoint: 0x02C1, name: "MODIFIER LETTER REVERSED GLOTTAL STOP", aliases: &[] },
        Codepoint { codepoint: 0x02C2, name: "MODIFIER LETTER LEFT ARROWHEAD", aliases: &[] },
        Codepoint { codepoint: 0x02C3, name: "MODIFIER LETTER RIGHT ARROWHEAD", aliases: &[] },
        Codepoint { codepoint: 0x02C4, name: "MODIFIER LETTER UP ARROWHEAD", aliases: &[] },
        Codepoint { codepoint: 0x02C5, name: "MODIFIER LETTER DOWN ARROWHEAD", aliases: &[] },
        Codepoint { codepoint: 0x02C6, name: "MODIFIER LETTER CIRCUMFLEX ACCENT", aliases: &["MODIFIER LETTER CIRCUMFLEX"] },
        Codepoint { codepoint: 0x02C7, name: "CARON", aliases: &["MODIFIER LETTER HACEK"] },
        Codepoint { codepoint: 0x02C8, name: "MODIFIER LETTER VERTICAL LINE", aliases: &[] },
        Codepoint { codepoint: 0x02C9, name: "MODIFIER LETTER MACRON", aliases: &[] },
        Codepoint { codepoint: 0x02CA, name: "MODIFIER LETTER ACUTE ACCENT", aliases: &["MODIFIER LETTER ACUTE"] },
        Codepoint { codepoint: 0x02CB, name: "MODIFIER LETTER GRAVE ACCENT", aliases: &["MODIFIER LETTER GRAVE"] },
        Codepoint { codepoint: 0x02CC, name: "MODIFIER LETTER LOW VERTICAL LINE", aliases: &[] },
        Codepoint { codepoint: 0x02CD, name: "MODIFIER LETTER LOW MACRON", aliases: &[] },
        Codepoint { codepoint: 0x02CE, name: "MODIFIER LETTER LOW GRAVE ACCENT", aliases: &["MODIFIER LETTER LOW GRAVE"] },
        Codepoint { codepoint: 0x02CF, name: "MODIFIER LETTER LOW ACUTE ACCENT", aliases: &["MODIFIER LETTER LOW ACUTE"] },
    ]
}

fn all_codepoints_17() -> (v: Vec<Codepoint>)
    ensures
        v@ == codepoint_table_17(),
{
    let v = vec![
        Codepoint { codepoint: 0x02A8, name: "LATIN SMALL LETTER TC DIGRAPH WITH CURL", aliases: &["LATIN SMALL LETTER T C CURL"] },
        Codepoint { codepoint: 0x02A9, name: "LATIN SMALL LETTER FENG DIGRAPH", aliases: &[] },
        Codepoint { codepoint: 0x02AA, name: "LATIN SMALL LETTER LS DIGRAPH", aliases: &[] },
        Codepoint { codepoint: 0x02AB, name: "LATIN SMALL LETTER LZ DIGRAPH", aliases: &[] },
        Codepoint { codepoint: 0x02AC, name: "LATIN LETTER BILABIAL PERCUSSIVE", aliases: &[] },
        Codepoint { codepoint: 0x02AD, name: "LATIN LETTER BIDENTAL PERCUSSIVE", aliases: &[] },
        Codepoint { codepoint: 0x02AE, name: "LATIN SMALL LETTER TURNED H WITH FISHHOOK", aliases: &[] },
        Codepoint { codepoint: 0x02AF, name: "LATIN SMALL LETTER TURNED H WITH FISHHOOK AND TAIL", aliases: &[] },
        Codepoint { codepoint: 0x02B0, name: "MODIFIER LETTER SMALL H", aliases: &[] },
        Codepoint { codepoint: 0x02B1, name: "MODIFIER LETTER SMALL H WITH HOOK", aliases: &["MODIFIER LETTER SMALL H HOOK"] },
        Codepoint { codepoint: 0x02B2, name: "MODIFIER LETTER SMALL J", aliases: &[] },
        Codepoint { codepoint: 0x02B3, name: "MODIFIER LETTER SMALL R", aliases: &[] },
        Codepoint { codepoint: 0x02B4, name: "MODIFIER LETTER SMALL TURNED R", aliases: &[] },
        Codepoint { codepoint: 0x02B5, name: "MODIFIER LETTER SMALL TURNED R WITH HOOK", aliases: &["MODIFIER LETTER SMALL TURNED R HOOK"] },
        Codepoint { codepoint: 0x02B6, name: "MODIFIER LETTER SMALL CAPITAL INVERTED R", aliases: &[] },
        Codepoint { codepoint: 0x02B7, name: "MODIFIER LETTER SMALL W", aliases: &[] },
        Codepoint { codepoint: 0x02B8, name: "MODIFIER LETTER SMALL Y", aliases: &[] },
        Codepoint { codepoint: 0x02B9, name: "MODIFIER LETTER PRIME", aliases: &[] },
        Codepoint { codepoint: 0x02BA, name: "MODIFIER LETTER DOUBLE PRIME", aliases: &[] },
        Codepoint { codepoint: 0x02BB, name: "MODIFIER LETTER TURNED COMMA", aliases: &[] },
        Codepoint { codepoint: 0x02BC, name: "MODIFIER LETTER APOSTROPHE", aliases: &[] },
        Codepoint { codepoint: 0x02BD, name: "MODIFIER LETTER REVERSED COMMA", aliases: &[] },
        Codepoint { codepoint: 0x02BE, name: "MODIFIER LETTER RIGHT HALF RING", aliases: &[] },
        Codepoint { codepoint: 0x02BF, name: "MODIFIER LETTER LEFT HALF RING", aliases: &[] },
        Codepoint { codepoint: 0x02C0, name: "MODIFIER LETTER GLOTTAL STOP", aliases: &[] },
        Codepoint { codepoint: 0x02C1, name: "MODIFIER LETTER REVERSED GLOTTAL STOP", aliases: &[] },
        Codepoint { codepoint: 0x02C2, name: "MODIFIER LETTER LEFT ARROWHEAD", aliases: &[] },
        Codepoint { codepoint: 0x02C3, name: "MODIFIER LETTER RIGHT ARROWHEAD", aliases: &[] },
        Codepoint { codepoint: 0x02C4, name: "MODIFIER LETTER UP ARROWHEAD", aliases: &[] },
        Codepoint { codepoint: 0x02C5, name: "MODIFIER LETTER DOWN ARROWHEAD", aliases: &[] },
        Codepoint { codepoint: 0x02C6, name: "MODIFIER LETTER CIRCUMFLEX ACCENT", aliases: &["MODIFIER LETTER CIRCUMFLEX"] },
        Codepoint { codepoint: 0x02C7, name: "CARON", aliases: &["MODIFIER LETTER HACEK"] },
        Codepoint { codepoint: 0x02C8, name: "MODIFIER LETTER VERTICAL LINE", aliases: &[] },
        Codepoint { codepoint: 0x02C9, name: "MODIFIER LETTER MACRON", aliases: &[] },
        Codepoint { codepoint: 0x02CA, name: "MODIFIER LETTER ACUTE ACCENT", aliases: &["MODIFIER LETTER ACUTE"] },
        Codepoint { codepoint: 0x02CB, name: "MODIFIER LETTER GRAVE ACCENT", aliases: &["MODIFIER LETTER GRAVE"] },
        Codepoint { codepoint: 0x02CC, name: "MODIFIER LETTER LOW VERTICAL LINE", aliases: &[] },
        Codepoint { codepoint: 0x02CD, name: "MODIFIER LETTER LOW MACRON", aliases: &[] },
        Codepoint { codepoint: 0x02CE, name: "MODIFIER LETTER LOW GRAVE ACCENT", aliases: &["MODIFIER LETTER LOW GRAVE"] },
        Codepoint { codepoint: 0x02CF, name: "MODIFIER LETTER LOW ACUTE ACCENT", aliases: &["MODIFIER LETTER LOW ACUTE"] },
    ];
    assert(v@ =~= codepoint_table_17());
    v
}

pub open spec fn codepoint_table_18() -> Seq<Codepoint> {
    seq![
        Codepoint { codepoint: 0x02D0, name: "MODIFIER LETTER TRIANGULAR COLON", aliases: &[] },
        Codepoint { codepoint: 0x02D1, name: "MODIFIER LETTER HALF TRIANGULAR COLON", aliases: &[] },
        Codepoint { codepoint: 0x02D2, name: "MODIFIER LETTER CENTRED RIGHT HALF RING", aliases: &["MODIFIER LETTER CENTERED RIGHT HALF RING"] },
        Codepoint { codepoint: 0x02D3, name: "MODIFIER LETTER CENTRED LEFT HALF RING", aliases: &["MODIFIER LETTER CENTERED LEFT HALF RING"] },
        Codepoint { codepoint: 0x02D4, name: "MODIFIER LETTER UP TACK", aliases: &[] },
        Codepoint { codepoint: 0x02D5, name: "MODIFIER LETTER DOWN TACK", aliases: &[] },
        Codepoint { codepoint: 0x02D6, name: "MODIFIER LETTER PLUS SIGN", aliases: &[] },
        Codepoint { codepoint: 0x02D7, name: "MODIFIER LETTER MINUS SIGN", aliases: &[] },
        Codepoint { codepoint: 0x02D8, name: "BREVE", aliases: &["SPACING BREVE"] },
        Codepoint { codepoint: 0x02D9, name: "DOT ABOVE", aliases: &["SPACING DOT ABOVE"] },
        Codepoint { codepoint: 0x02DA, name: "RING ABOVE", aliases: &["SPACING RING ABOVE"] },
        Codepoint { codepoint: 0x02DB, name: "OGONEK", aliases: &["SPACING OGONEK"] },
        Codepoint { codepoint: 0x02DC, name: "SMALL TILDE", aliases: &["SPACING TILDE"] },
        Codepoint { codepoint: 0x02DD, name: "DOUBLE ACUTE ACCENT", aliases: &["SPACING DOUBLE ACUTE"] },
        Codepoint { codepoint: 0x02DE, name: "MODIFIER LETTER RHOTIC HOOK", aliases: &[] },
        Codepoint { codepoint: 0x02DF, name: "MODIFIER LETTER CROSS ACCENT", aliases: &[] },
        Codepoint { codepoint: 0x02E0, name: "MODIFIER LETTER SMALL GAMMA", aliases: &[] },
        Codepoint { codepoint: 0x02E1, name: "MODIFIER LETTER SMALL L", aliases: &[] },
        Codepoint { codepoint: 0x02E2, name: "MODIFIER LETTER SMALL S", aliases: &[] },
        Codepoint { codepoint: 0x02E3, name: "MODIFIER LETTER SMALL X", aliases: &[] },
        Codepoint { codepoint: 0x02E4, name: "MODIFIER LETTER SMALL REVERSED GLOTTAL STOP", aliases: &[] },
        Codepoint { codepoint: 0x02E5, name: "MODIFIER LETTER EXTRA-HIGH TONE BAR", aliases: &[] },
        Codepoint { codepoint: 0x02E6, name: "MODIFIER LETTER HIGH TONE BAR", aliases: &[] },
        Codepoint { codepoint: 0x02E7, name: "MODIFIER LETTER MID TONE BAR", aliases: &[] },
        Codepoint { codepoint: 0x02E8, name: "MODIFIER LETTER LOW TONE BAR", aliases: &[] },
        Codepoint { codepoint: 0x02E9, name: "MODIFIER LETTER EXTRA-LOW TONE BAR", aliases: &[] },
        Codepoint { codepoint: 0x02EA, name: "MODIFIER LETTER YIN DEPARTING TONE MARK", aliases: &[] },
        Codepoint { codepoint: 0x02EB, name: "MODIFIER LETTER YANG DEPARTING TONE MARK", aliases: &[] },
        Codepoint { codepoint: 0x02EC, name: "MODIFIER LETTER VOICING", aliases: &[] },
        Codepoint { codepoint: 0x02ED, name: "MODIFIER LETTER UNASPIRATED", aliases: &[] },
        Codepoint { codepoint: 0x02EE, name: "MODIFIER LETTER DOUBLE APOSTROPHE", aliases: &[] },
        Codepoint { codepoint: 0x02EF, name: "MODIFIER LETTER LOW DOWN ARROWHEAD", aliases: &[] },
        Codepoint { codepoint: 0x02F0, name: "MODIFIER LETTER LOW UP ARROWHEAD", aliases: &[] },
        Codepoint { codepoint: 0x02F1, name: "MODIFIER LETTER LOW LEFT ARROWHEAD", aliases: &[] },
        Codepoint { codepoint: 0x02F2, name: "MODIFIER LETTER LOW RIGHT ARROWHEAD", aliases: &[] },
        Codepoint { codepoint: 0x02F3, name: "MODIFIER LETTER LOW RING", aliases: &[] },
        Codepoint { codepoint: 0x02F4, name: "MODIFIER LETTER MIDDLE GRAVE ACCENT", aliases: &[] },
        Codepoint { codepoint: 0x02F5, name: "MODIFIER LETTER MIDDLE DOUBLE GRAVE ACCENT", aliases: &[] },
        Codepoint { codepoint: 0x02F6, name: "MODIFIER LETTER MIDDLE DOUBLE ACUTE ACCENT", aliases: &[] },
        Codepoint { codepoint: 0x02F7, name: "MODIFIER LETTER LOW TILDE", aliases: &[] },
    ]
}

fn all_codepoints_18() -> (v: Vec<Codepoint>)
    ensures
        v@ == codepoint_table_18(),
{
    let v = vec![
        Codepoint { codepoint: 0x02D0, name: "MODIFIER LETTER TRIANGULAR COLON", aliases: &[] },
        Codepoint { codepoint: 0x02D1, name: "MODIFIER LETTER HALF TRIANGULAR COLON", aliases: &[] },
        Codepoint { codepoint: 0x02D2, name: "MODIFIER LETTER CENTRED RIGHT HALF RING", aliases: &["MODIFIER LETTER CENTERED RIGHT HALF RING"] },
        Codepoint { codepoint: 0x02D3, name: "MODIFIER LETTER CENTRED LEFT HALF RING", aliases: &["MODIFIER LETTER CENTERED LEFT HALF RING"] },
        Codepoint { codepoint: 0x02D4, name: "MODIFIER LETTER UP TACK", aliases: &[] },
        Codepoint { codepoint: 0x02D5, name: "MODIFIER LETTER DOWN TACK", aliases: &[] },
        Codepoint { codepoint: 0x02D6, name: "MODIFIER LETTER PLUS SIGN", aliases: &[] },
        Codepoint { codepoint: 0x02D7, name: "MODIFIER LETTER MINUS SIGN", aliases: &[] },
        Codepoint { codepoint: 0x02D8, name: "BREVE", aliases: &["SPACING BREVE"] },
        Codepoint { codepoint: 0x02D9, name: "DOT ABOVE", aliases: &["SPACING DOT ABOVE"] },
        Codepoint { codepoint: 0x02DA, name: "RING ABOVE", aliases: &["SPACING RING ABOVE"] },
        Codepoint { codepoint: 0x02DB, name: "OGONEK", aliases: &["SPACING OGONEK"] },
        Codepoint { codepoint: 0x02DC, name: "SMALL TILDE", aliases: &["SPACING TILDE"] },
        Codepoint { codepoint: 0x02DD, name: "DOUBLE ACUTE ACCENT", aliases: &["SPACING DOUBLE ACUTE"] },
        Codepoint { codepoint: 0x02DE, name: "MODIFIER LETTER RHOTIC HOOK", aliases: &[] },
        Codepoint { codepoint: 0x02DF, name: "MODIFIER LETTER CROSS ACCENT", aliases: &[] },
        Codepoint { codepoint: 0x02E0, name: "MODIFIER LETTER SMALL GAMMA", aliases: &[] },
        Codepoint { codepoint: 0x02E1, name: "MODIFIER LETTER SMALL L", aliases: &[] },
        Codepoint { codepoint: 0x02E2, name: "MODIFIER LETTER SMALL S", aliases: &[] },
        Codepoint { codepoint: 0x02E3, name: "MODIFIER LETTER SMALL X", aliases: &[] },
        Codepoint { codepoint: 0x02E4, name: "MODIFIER LETTER SMALL REVERSED GLOTTAL STOP", aliases: &[] },
        Codepoint { codepoint: 0x02E5, name: "MODIFIER LETTER EXTRA-HIGH TONE BAR", aliases: &[] },
        Codepoint { codepoint: 0x02E6, name: "MODIFIER LETTER HIGH TONE BAR", aliases: &[] },
        Codepoint { codepoint: 0x02E7, name: "MODIFIER LETTER MID TONE BAR", aliases: &[] },
        Codepoint { codepoint: 0x02E8, name: "MODIFIER LETTER LOW TONE BAR", aliases: &[] },
        Codepoint { codepoint: 0x02E9, name: "MODIFIER LETTER EXTRA-LOW TONE BAR", aliases: &[] },
        Codepoint { codepoint: 0x02EA, name: "MODIFIER LETTER YIN DEPARTING TONE MARK", aliases: &[] },
        Codepoint { codepoint: 0x02EB, name: "MODIFIER LETTER YANG DEPARTING TONE MARK", aliases: &[] },
        Codepoint { codepoint: 0x02EC, name: "MODIFIER LETTER VOICING", aliases: &[] },
        Codepoint { codepoint: 0x02ED, name: "MODIFIER LETTER UNASPIRATED", aliases: &[] },
        Codepoint { codepoint: 0x02EE, name: "MODIFIER LETTER DOUBLE APOSTROPHE", aliases: &[] },
        Codepoint { codepoint: 0x02EF, name: "MODIFIER LETTER LOW DOWN ARROWHEAD", aliases: &[] },
        Codepoint { codepoint: 0x02F0, name: "MODIFIER LETTER LOW UP ARROWHEAD", aliases: &[] },
        Codepoint { codepoint: 0x02F1, name: "MODIFIER LETTER LOW LEFT ARROWHEAD", aliases: &[] },
        Codepoint { codepoint: 0x02F2, name: "MODIFIER LETTER LOW RIGHT ARROWHEAD", aliases: &[] },
        Codepoint { codepoint: 0x02F3, name: "MODIFIER LETTER LOW RING", aliases: &[] },
        Codepoint { codepoint: 0x02F4, name: "MODIFIER LETTER MIDDLE GRAVE ACCENT", aliases: &[] },
        Codepoint { codepoint: 0x02F5, name: "MODIFIER LETTER MIDDLE DOUBLE GRAVE ACCENT", aliases: &[] },
        Codepoint { codepoint: 0x02F6, name: "MODIFIER LETTER MIDDLE DOUBLE ACUTE ACCENT", aliases: &[] },
        Codepoint { codepoint: 0x02F7, name: "MODIFIER LETTER LOW TILDE", aliases: &[] },
    ];
    assert(v@ =~= codepoint_table_18());
    v
}

pub open spec fn codepoint_table_19() -> Seq<Codepoint> {
    seq![
        Codepoint { codepoint: 0x02F8, name: "MODIFIER LETTER RAISED COLON", aliases: &[] },
        Codepoint { codepoint: 0x02F9, name: "MODIFIER LETTER BEGIN HIGH TONE", aliases: &[] },
        Codepoint { codepoint: 0x02FA, name: "MODIFIER LETTER END HIGH TONE", aliases: &[] },
        Codepoint { codepoint: 0x02FB, name: "MODIFIER LETTER BEGIN LOW TONE", aliases: &[] },
        Codepoint { codepoint: 0x02FC, name: "MODIFIER LETTER END LOW TONE", aliases: &[] },
        Codepoint { codepoint: 0x02FD, name: "MODIFIER LETTER SHELF", aliases: &[] },
        Codepoint { codepoint: 0x02FE, name: "MODIFIER LETTER OPEN SHELF", aliases: &[] },
        Codepoint { codepoint: 0x02FF, name: "MODIFIER LETTER LOW LEFT ARROW", aliases: &[] },
        Codepoint { codepoint: 0x0300, name: "COMBINING GRAVE ACCENT", aliases: &["NON-SPACING GRAVE"] },
        Codepoint { codepoint: 0x0301, name: "COMBINING ACUTE ACCENT", aliases: &["NON-SPACING ACUTE"] },
        Codepoint { codepoint: 0x0302, name: "COMBINING CIRCUMFLEX ACCENT", aliases: &["NON-SPACING CIRCUMFLEX"] },
        Codepoint { codepoint: 0x0303, name: "COMBINING TILDE", aliases: &["NON-SPACING TILDE"] },
        Codepoint { codepoint: 0x0304, name: "COMBINING MACRON", aliases: &["NON-SPACING MACRON"] },
        Codepoint { codepoint: 0x0305, name: "COMBINING OVERLINE", aliases: &["NON-SPACING OVERSCORE"] },
        Codepoint { codepoint: 0x0306, name: "COMBINING BREVE", aliases: &["NON-SPACING BREVE"] },
        Codepoint { codepoint: 0x0307, name: "COMBINING DOT ABOVE", aliases: &["NON-SPACING DOT ABOVE"] },
        Codepoint { codepoint: 0x0308, name: "COMBINING DIAERESIS", aliases: &["NON-SPACING DIAERESIS"] },
        Codepoint { codepoint: 0x0309, name: "COMBINING HOOK ABOVE", aliases: &["NON-SPACING HOOK ABOVE"] },
        Codepoint { codepoint: 0x030A, name: "COMBINING RING ABOVE", aliases: &["NON-SPACING RING ABOVE"] },
        Codepoint { codepoint: 0x030B, name: "COMBINING DOUBLE ACUTE ACCENT", aliases: &["NON-SPACING DOUBLE ACUTE"] },
        Codepoint { codepoint: 0x030C, name: "COMBINING CARON", aliases: &["NON-SPACING HACEK"] },
        Codepoint { codepoint: 0x030D, name: "COMBINING VERTICAL LINE ABOVE", aliases: &["NON-SPACING VERTICAL LINE ABOVE"] },
        Codepoint { codepoint: 0x030E, name: "COMBINING DOUBLE VERTICAL LINE ABOVE", aliases: &["NON-SPACING DOUBLE VERTICAL LINE ABOVE"] },
        Codepoint { codepoint: 0x030F, name: "COMBINING DOUBLE GRAVE ACCENT", aliases: &["NON-SPACING DOUBLE GRAVE"] },
        Codepoint { codepoint: 0x0310, name: "COMBINING CANDRABINDU", aliases: &["NON-SPACING CANDRABINDU"] },
        Codepoint { codepoint: 0x0311, name: "COMBINING INVERTED BREVE", aliases: &["NON-SPACING INVERTED BREVE"] },
        Codepoint { codepoint: 0x0312, name: "COMBINING TURNED COMMA ABOVE", aliases: &["NON-SPACING TURNED COMMA ABOVE"] },
        Codepoint { codepoint: 0x0313, name: "COMBINING COMMA ABOVE", aliases: &["NON-SPACING COMMA ABOVE"] },
        Codepoint { codepoint: 0x0314, name: "COMBINING REVERSED COMMA ABOVE", aliases: &["NON-SPACING REVERSED COMMA ABOVE"] },
        Codepoint { codepoint: 0x0315, name: "COMBINING COMMA ABOVE RIGHT", aliases: &["NON-SPACING COMMA ABOVE RIGHT"] },
        Codepoint { codepoint: 0x0316, name: "COMBINING GRAVE ACCENT BELOW", aliases: &["NON-SPACING GRAVE BELOW"] },
        Codepoint { codepoint: 0x0317, name: "COMBINING ACUTE ACCENT BELOW", aliases: &["NON-SPACING ACUTE BELOW"] },
        Codepoint { codepoint: 0x0318, name: "COMBINING LEFT TACK BELOW", aliases: &["NON-SPACING LEFT TACK BELOW"] },
        Codepoint { codepoint: 0x0319, name: "COMBINING RIGHT TACK BELOW", aliases: &["NON-SPACING RIGHT TACK BELOW"] },
        Codepoint { codepoint: 0x031A, name: "COMBINING LEFT ANGLE ABOVE", aliases: &["NON-SPACING LEFT ANGLE ABOVE"] },
        Codepoint { codepoint: 0x031B, name: "COMBINING HORN", aliases: &["NON-SPACING HORN"] },
        Codepoint { codepoint: 0x031C, name: "COMBINING LEFT HALF RING BELOW", aliases: &["NON-SPACING LEFT HALF RING BELOW"] },
        Codepoint { codepoint: 0x031D, name: "COMBINING UP TACK BELOW", aliases: &["NON-SPACING UP TACK BELOW"] },
        Codepoint { codepoint: 0x031E, name: "COMBINING DOWN TACK BELOW", aliases: &["NON-SPACING DOWN TACK BELOW"] },
        Codepoint { codepoint: 0x031F, name: "COMBINING PLUS SIGN BELOW", aliases: &["NON-SPACING PLUS SIGN BELOW"] },
    ]
}

fn all_codepoints_19() -> (v: Vec<Codepoint>)
    ensures
        v@ == codepoint_table_19(),
{
    let v = vec![
        Codepoint { codepoint: 0x02F8, name: "MODIFIER LETTER RAISED COLON", aliases: &[] },
        Codepoint { codepoint: 0x02F9, name: "MODIFIER LETTER BEGIN HIGH TONE", aliases: &[] },
        Codepoint { codepoint: 0x02FA, name: "MODIFIER LETTER END HIGH TONE", aliases: &[] },
        Codepoint { codepoint: 0x02FB, name: "MODIFIER LETTER BEGIN LOW TONE", aliases: &[] },
        Codepoint { codepoint: 0x02FC, name: "MODIFIER LETTER END LOW TONE", aliases: &[] },
        Codepoint { codepoint: 0x02FD, name: "MODIFIER LETTER SHELF", aliases: &[] },
        Codepoint { codepoint: 0x02FE, name: "MODIFIER LETTER OPEN SHELF", aliases: &[] },
        Codepoint { codepoint: 0x02FF, name: "MODIFIER LETTER LOW LEFT ARROW", aliases: &[] },
        Codepoint { codepoint: 0x0300, name: "COMBINING GRAVE ACCENT", aliases: &["NON-SPACING GRAVE"] },
        Codepoint { codepoint: 0x0301, name: "COMBINING ACUTE ACCENT", aliases: &["NON-SPACING ACUTE"] },
        Codepoint { codepoint: 0x0302, name: "COMBINING CIRCUMFLEX ACCENT", aliases: &["NON-SPACING CIRCUMFLEX"] },
        Codepoint { codepoint: 0x0303, name: "COMBINING TILDE", aliases: &["NON-SPACING TILDE"] },
        Codepoint { codepoint: 0x0304, name: "COMBINING MACRON", aliases: &["NON-SPACING MACRON"] },
        Codepoint { codepoint: 0x0305, name: "COMBINING OVERLINE", aliases: &["NON-SPACING OVERSCORE"] },
        Codepoint { codepoint: 0x0306, name: "COMBINING BREVE", aliases: &["NON-SPACING BREVE"] },
        Codepoint { codepoint: 0x0307, name: "COMBINING DOT ABOVE", aliases: &["NON-SPACING DOT ABOVE"] },
        Codepoint { codepoint: 0x0308, name: "COMBINING DIAERESIS", aliases: &["NON-SPACING DIAERESIS"] },
        Codepoint { codepoint: 0x0309, name: "COMBINING HOOK ABOVE", aliases: &["NON-SPACING HOOK ABOVE"] },
        Codepoint { codepoint: 0x030A, name: "COMBINING RING ABOVE", aliases: &["NON-SPACING RING ABOVE"] },
        Codepoint { codepoint: 0x030B, name: "COMBINING DOUBLE ACUTE ACCENT", aliases: &["NON-SPACING DOUBLE ACUTE"] },
        Codepoint { codepoint: 0x030C, name: "COMBINING CARON", aliases: &["NON-SPACING HACEK"] },
        Codepoint { codepoint: 0x030D, name: "COMBINING VERTICAL LINE ABOVE", aliases: &["NON-SPACING VERTICAL LINE ABOVE"] },
        Codepoint { codepoint: 0x030E, name: "COMBINING DOUBLE VERTICAL LINE ABOVE", aliases: &["NON-SPACING DOUBLE VERTICAL LINE ABOVE"] },
        Codepoint { codepoint: 0x030F, name: "COMBINING DOUBLE GRAVE ACCENT", aliases: &["NON-SPACING DOUBLE GRAVE"] },
        Codepoint { codepoint: 0x0310, name: "COMBINING CANDRABINDU", aliases: &["NON-SPACING CANDRABINDU"] },
        Codepoint { codepoint: 0x0311, name: "COMBINING INVERTED BREVE", aliases: &["NON-SPACING INVERTED BREVE"] },
        Codepoint { codepoint: 0x0312, name: "COMBINING TURNED COMMA ABOVE", aliases: &["NON-SPACING TURNED COMMA ABOVE"] },
        Codepoint { codepoint: 0x0313, name: "COMBINING COMMA ABOVE", aliases: &["NON-SPACING COMMA ABOVE"] },
        Codepoint { codepoint: 0x0314, name: "COMBINING REVERSED COMMA ABOVE", aliases: &["NON-SPACING REVERSED COMMA ABOVE"] },
        Codepoint { codepoint: 0x0315, name: "COMBINING COMMA ABOVE RIGHT", aliases: &["NON-SPACING COMMA ABOVE RIGHT"] },
        Codepoint { codepoint: 0x0316, name: "COMBINING GRAVE ACCENT BELOW", aliases: &["NON-SPACING GRAVE BELOW"] },
        Codepoint { codepoint: 0x0317, name: "COMBINING ACUTE ACCENT BELOW", aliases: &["NON-SPACING ACUTE BELOW"] },
        Codepoint { codepoint: 0x0318, name: "COMBINING LEFT TACK BELOW", aliases: &["NON-SPACING LEFT TACK BELOW"] },
        Codepoint { codepoint: 0x0319, name: "COMBINING RIGHT TACK BELOW", aliases: &["NON-SPACING RIGHT TACK BELOW"] },
        Codepoint { codepoint: 0x031A, name: "COMBINING LEFT ANGLE ABOVE", aliases: &["NON-SPACING LEFT ANGLE ABOVE"] },
        Codepoint { codepoint: 0x031B, name: "COMBINING HORN", aliases: &["NON-SPACING HORN"] },
        Codepoint { codepoint: 0x031C, name: "COMBINING LEFT HALF RING BELOW", aliases: &["NON-SPACING LEFT HALF RING BELOW"] },
        Codepoint { codepoint: 0x031D, name: "COMBINING UP TACK BELOW", aliases: &["NON-SPACING UP TACK BELOW"] },
        Codepoint { codepoint: 0x031E, name: "COMBINING DOWN TACK BELOW", aliases: &["NON-SPACING DOWN TACK BELOW"] },
        Codepoint { codepoint: 0x031F, name: "COMBINING PLUS SIGN BELOW", aliases: &["NON-SPACING PLUS SIGN BELOW"] },
    ];
    assert(v@ =~= codepoint_table_19());
    v
}

/// The entries from position 0 of the table, 800 at most.
pub open spec fn codepoint_group_0() -> Seq<Codepoint> {
    codepoint_table_0() + codepoint_table_1() + codepoint_table_2() + codepoint_table_3() + codepoint_table_4() + codepoint_table_5() + codepoint_table_6() + codepoint_table_7() + codepoint_table_8() + codepoint_table_9() + codepoint_table_10() + codepoint_table_11() + codepoint_table_12() + codepoint_table_13() + codepoint_table_14() + codepoint_table_15() + codepoint_table_16() + codepoint_table_17() + codepoint_table_18() + codepoint_table_19()
}

pub fn all_codepoints_group_0() -> (v: Vec<Codepoint>)
    ensures
        v@ == codepoint_group_0(),
{
    let mut v = all_codepoints_0();
    let mut part = all_codepoints_1();
    v.append(&mut part);
    let mut part = all_codepoints_2();
    v.append(&mut part);
    let mut part = all_codepoints_3();
    v.append(&mut part);
    let mut part = all_codepoints_4();
    v.append(&mut part);
    let mut part = all_codepoints_5();
    v.append(&mut part);
    let mut part = all_codepoints_6();
    v.append(&mut part);
    let mut part = all_codepoints_7();
    v.append(&mut part);
    let mut part = all_codepoints_8();
    v.append(&mut part);
    let mut part = all_codepoints_9();
    v.append(&mut part);
    let mut part = all_codepoints_10();
    v.append(&mut part);
    let mut part = all_codepoints_11();
    v.append(&mut part);
    let mut part = all_codepoints_12();
    v.append(&mut part);
    let mut part = all_codepoints_13();
    v.append(&mut part);
    let mut part = all_codepoints_14();
    v.append(&mut part);
    let mut part = all_codepoints_15();
    v.append(&mut part);
    let mut part = all_codepoints_16();
    v.append(&mut part);
    let mut part = all_codepoints_17();
    v.append(&mut part);
    let mut part = all_codepoints_18();
    v.append(&mut part);
    let mut part = all_codepoints_19();
    v.append(&mut part);
    v
}

pub open spec fn codepoint_table_20() -> Seq<Codepoint> {
    seq![
        Codepoint { codepoint: 0x0320, name: "COMBINING MINUS SIGN BELOW", aliases: &["NON-SPACING MINUS SIGN BELOW"] },
        Codepoint { codepoint: 0x0321, name: "COMBINING PALATALIZED HOOK BELOW", aliases: &["NON-SPACING PALATALIZED HOOK BELOW"] },
        Codepoint { codepoint: 0x0322, name: "COMBINING RETROFLEX HOOK BELOW", aliases: &["NON-SPACING RETROFLEX HOOK BELOW"] },
        Codepoint { codepoint: 0x0323, name: "COMBINING DOT BELOW", aliases: &["NON-SPACING DOT BELOW"] },
        Codepoint { codepoint: 0x0324, name: "COMBINING DIAERESIS BELOW", aliases: &["NON-SPACING DOUBLE DOT BELOW"] },
        Codepoint { codepoint: 0x0325, name: "COMBINING RING BELOW", aliases: &["NON-SPACING RING BELOW"] },
        Codepoint { codepoint: 0x0326, name: "COMBINING COMMA BELOW", aliases: &["NON-SPACING COMMA BELOW"] },
        Codepoint { codepoint: 0x0327, name: "COMBINING CEDILLA", aliases: &["NON-SPACING CEDILLA"] },
        Codepoint { codepoint: 0x0328, name: "COMBINING OGONEK", aliases: &["NON-SPACING OGONEK"] },
        Codepoint { codepoint: 0x0329, name: "COMBINING VERTICAL LINE BELOW", aliases: &["NON-SPACING VERTICAL LINE BELOW"] },
        Codepoint { codepoint: 0x032A, name: "COMBINING BRIDGE BELOW", aliases: &["NON-SPACING BRIDGE BELOW"] },
        Codepoint { codepoint: 0x032B, name: "COMBINING INVERTED DOUBLE ARCH BELOW", aliases: &["NON-SPACING INVERTED DOUBLE ARCH BELOW"] },
        Codepoint { codepoint: 0x032C, name: "COMBINING CARON BELOW", aliases: &["NON-SPACING HACEK BELOW"] },
        Codepoint { codepoint: 0x032D, name: "COMBINING CIRCUMFLEX ACCENT BELOW", aliases: &["NON-SPACING CIRCUMFLEX BELOW"] },
        Codepoint { codepoint: 0x032E, name: "COMBINING BREVE BELOW", aliases: &["NON-SPACING BREVE BELOW"] },
        Codepoint { codepoint: 0x032F, name: "COMBINING INVERTED BREVE BELOW", aliases: &["NON-SPACING INVERTED BREVE BELOW"] },
        Codepoint { codepoint: 0x0330, name: "COMBINING TILDE BELOW", aliases: &["NON-SPACING TILDE BELOW"] },
        Codepoint { codepoint: 0x0331, name: "COMBINING MACRON BELOW", aliases: &["NON-SPACING MACRON BELOW"] },
        Codepoint { codepoint: 0x0332, name: "COMBINING LOW LINE", aliases: &["NON-SPACING UNDERSCORE"] },
        Codepoint { codepoint: 0x0333, name: "COMBINING DOUBLE LOW LINE", aliases: &["NON-SPACING DOUBLE UNDERSCORE"] },
        Codepoint { codepoint: 0x0334, name: "COMBINING TILDE OVERLAY", aliases: &["NON-SPACING TILDE OVERLAY"] },
        Codepoint { codepoint: 0x0335, name: "COMBINING SHORT STROKE OVERLAY", aliases: &["NON-SPACING SHORT BAR OVERLAY"] },
        Codepoint { codepoint: 0x0336, name: "COMBINING LONG STROKE OVERLAY", aliases: &["NON-SPACING LONG BAR OVERLAY"] },
        Codepoint { codepoint: 0x0337, name: "COMBINING SHORT SOLIDUS OVERLAY", aliases: &["NON-SPACING SHORT SLASH OVERLAY"] },
        Codepoint { codepoint: 0x0338, name: "COMBINING LONG SOLIDUS OVERLAY", aliases: &["NON-SPACING LONG SLASH OVERLAY"] },
        Codepoint { codepoint: 0x0339, name: "COMBINING RIGHT HALF RING BELOW", aliases: &["NON-SPACING RIGHT HALF RING BELOW"] },
        Codepoint { codepoint: 0x033A, name: "COMBINING INVERTED BRIDGE BELOW", aliases: &["NON-SPACING INVERTED BRIDGE BELOW"] },
        Codepoint { codepoint: 0x033B, name: "COMBINING SQUARE BELOW", aliases: &["NON-SPACING SQUARE BELOW"] },
        Codepoint { codepoint: 0x033C, name: "COMBINING SEAGULL BELOW", aliases: &["NON-SPACING SEAGULL BELOW"] },
        Codepoint { codepoint: 0x033D, name: "COMBINING X ABOVE", aliases: &["NON-SPACING X ABOVE"] },
        Codepoint { codepoint: 0x033E, name: "COMBINING VERTICAL TILDE", aliases: &["NON-SPACING VERTICAL TILDE"] },
        Codepoint { codepoint: 0x033F, name: "COMBINING DOUBLE OVERLINE", aliases: &["NON-SPACING DOUBLE OVERSCORE"] },
        Codepoint { codepoint: 0x0340, name: "COMBINING GRAVE TONE MARK", aliases: &["NON-SPACING GRAVE TONE MARK"] },
        Codepoint { codepoint: 0x0341, name: "COMBINING ACUTE TONE MARK", aliases: &["NON-SPACING ACUTE TONE MARK"] },
        Codepoint { codepoint: 0x0342, name: "COMBINING GREEK PERISPOMENI", aliases: &[] },
        Codepoint { codepoint: 0x0343, name: "COMBINING GREEK KORONIS", aliases: &[] },
        Codepoint { codepoint: 0x0344, name: "COMBINING GREEK DIALYTIKA TONOS", aliases: &["GREEK NON-SPACING DIAERESIS TONOS"] },
        Codepoint { codepoint: 0x0345, name: "COMBINING GREEK YPOGEGRAMMENI", aliases: &["GREEK NON-SPACING IOTA BELOW"] },
        Codepoint { codepoint: 0x0346, name: "COMBINING BRIDGE ABOVE", aliases: &[] },
        Codepoint { codepoint: 0x0347, name: "COMBINING EQUALS SIGN BELOW", aliases: &[] },
    ]
}

fn all_codepoints_20() -> (v: Vec<Codepoint>)
    ensures
        v@ == codepoint_table_20(),
{
    let v = vec![
        Codepoint { codepoint: 0x0320, name: "COMBINING MINUS SIGN BELOW", aliases: &["NON-SPACING MINUS SIGN BELOW"] },
        Codepoint { codepoint: 0x0321, name: "COMBINING PALATALIZED HOOK BELOW", aliases: &["NON-SPACING PALATALIZED HOOK BELOW"] },
        Codepoint { codepoint: 0x0322, name: "COMBINING RETROFLEX HOOK BELOW", aliases: &["NON-SPACING RETROFLEX HOOK BELOW"] },
        Codepoint { codepoint: 0x0323, name: "COMBINING DOT BELOW", aliases: &["NON-SPACING DOT BELOW"] },
        Codepoint { codepoint: 0x0324, name: "COMBINING DIAERESIS BELOW", aliases: &["NON-SPACING DOUBLE DOT BELOW"] },
        Codepoint { codepoint: 0x0325, name: "COMBINING RING BELOW", aliases: &["NON-SPACING RING BELOW"] },
        Codepoint { codepoint: 0x0326, name: "COMBINING COMMA BELOW", aliases: &["NON-SPACING COMMA BELOW"] },
        Codepoint { codepoint: 0x0327, name: "COMBINING CEDILLA", aliases: &["NON-SPACING CEDILLA"] },
        Codepoint { codepoint: 0x0328, name: "COMBINING OGONEK", aliases: &["NON-SPACING OGONEK"] },
        Codepoint { codepoint: 0x0329, name: "COMBINING VERTICAL LINE BELOW", aliases: &["NON-SPACING VERTICAL LINE BELOW"] },
        Codepoint { codepoint: 0x032A, name: "COMBINING BRIDGE BELOW", aliases: &["NON-SPACING BRIDGE BELOW"] },
        Codepoint { codepoint: 0x032B, name: "COMBINING INVERTED DOUBLE ARCH BELOW", aliases: &["NON-SPACING INVERTED DOUBLE ARCH BELOW"] },
        Codepoint { codepoint: 0x032C, name: "COMBINING CARON BELOW", aliases: &["NON-SPACING HACEK BELOW"] },
        Codepoint { codepoint: 0x032D, name: "COMBINING CIRCUMFLEX ACCENT BELOW", aliases: &["NON-SPACING CIRCUMFLEX BELOW"] },
        Codepoint { codepoint: 0x032E, name: "COMBINING BREVE BELOW", aliases: &["NON-SPACING BREVE BELOW"] },
        Codepoint { codepoint: 0x032F, name: "COMBINING INVERTED BREVE BELOW", aliases: &["NON-SPACING INVERTED BREVE BELOW"] },
        Codepoint { codepoint: 0x0330, name: "COMBINING TILDE BELOW", aliases: &["NON-SPACING TILDE BELOW"] },
        Codepoint { codepoint: 0x0331, name: "COMBINING MACRON BELOW", aliases: &["NON-SPACING MACRON BELOW"] },
        Codepoint { codepoint: 0x0332, name: "COMBINING LOW LINE", aliases: &["NON-SPACING UNDERSCORE"] },
        Codepoint { codepoint: 0x0333, name: "COMBINING DOUBLE LOW LINE", aliases: &["NON-SPACING DOUBLE UNDERSCORE"] },
        Codepoint { codepoint: 0x0334, name: "COMBINING TILDE OVERLAY", aliases: &["NON-SPACING TILDE OVERLAY"] },
        Codepoint { codepoint: 0x0335, name: "COMBINING SHORT STROKE OVERLAY", aliases: &["NON-SPACING SHORT BAR OVERLAY"] },
        Codepoint { codepoint: 0x0336, name: "COMBINING LONG STROKE OVERLAY", aliases: &["NON-SPACING LONG BAR OVERLAY"] },
        Codepoint { codepoint: 0x0337, name: "COMBINING SHORT SOLIDUS OVERLAY", aliases: &["NON-SPACING SHORT SLASH OVERLAY"] },
        Codepoint { codepoint: 0x0338, name: "COMBINING LONG SOLIDUS OVERLAY", aliases: &["NON-SPACING LONG SLASH OVERLAY"] },
        Codepoint { codepoint: 0x0339, name: "COMBINING RIGHT HALF RING BELOW", aliases: &["NON-SPACING RIGHT HALF RING BELOW"] },
        Codepoint { codepoint: 0x033A, name: "COMBINING INVERTED BRIDGE BELOW", aliases: &["NON-SPACING INVERTED BRIDGE BELOW"] },
        Codepoint { codepoint: 0x033B, name: "COMBINING SQUARE BELOW", aliases: &["NON-SPACING SQUARE BELOW"] },
        Codepoint { codepoint: 0x033C, name: "COMBINING SEAGULL BELOW", aliases: &["NON-SPACING SEAGULL BELOW"] },
        Codepoint { codepoint: 0x033D, name: "COMBINING X ABOVE", aliases: &["NON-SPACING X ABOVE"] },
        Codepoint { codepoint: 0x033E, name: "COMBINING VERTICAL TILDE", aliases: &["NON-SPACING VERTICAL TILDE"] },
        Codepoint { codepoint: 0x033F, name: "COMBINING DOUBLE OVERLINE", aliases: &["NON-SPACING DOUBLE OVERSCORE"] },
        Codepoint { codepoint: 0x0340, name: "COMBINING GRAVE TONE MARK", aliases: &["NON-SPACING GRAVE TONE MARK"] },
        Codepoint { codepoint: 0x0341, name: "COMBINING ACUTE TONE MARK", aliases: &["NON-SPACING ACUTE TONE MARK"] },
        Codepoint { codepoint: 0x0342, name: "COMBINING GREEK PERISPOMENI", aliases: &[] },
        Codepoint { codepoint: 0x0343, name: "COMBINING GREEK KORONIS", aliases: &[] },
        Codepoint { codepoint: 0x0344, name: "COMBINING GREEK DIALYTIKA TONOS", aliases: &["GREEK NON-SPACING DIAERESIS TONOS"] },
        Codepoint { codepoint: 0x0345, name: "COMBINING GREEK YPOGEGRAMMENI", aliases: &["GREEK NON-SPACING IOTA BELOW"] },
        Codepoint { codepoint: 0x0346, name: "COMBINING BRIDGE ABOVE", aliases: &[] },
        Codepoint { codepoint: 0x0347, name: "COMBINING EQUALS SIGN BELOW", aliases: &[] },
    ];
    assert(v@ =~= codepoint_table_20());
    v
}

pub open spec fn codepoint_table_21() -> Seq<Codepoint> {
    seq![
        Codepoint { codepoint: 0x0348, name: "COMBINING DOUBLE VERTICAL LINE BELOW", aliases: &[] },
        Codepoint { codepoint: 0x0349, name: "COMBINING LEFT ANGLE BELOW", aliases: &[] },
        Codepoint { codepoint: 0x034A, name: "COMBINING NOT TILDE ABOVE", aliases: &[] },
        Codepoint { codepoint: 0x034B, name: "COMBINING HOMOTHETIC ABOVE", aliases: &[] },
        Codepoint { codepoint: 0x034C, name: "COMBINING ALMOST EQUAL TO ABOVE", aliases: &[] },
        Codepoint { codepoint: 0x034D, name: "COMBINING LEFT RIGHT ARROW BELOW", aliases: &[] },
        Codepoint { codepoint: 0x034E, name: "COMBINING UPWARDS ARROW BELOW", aliases: &[] },
        Codepoint { codepoint: 0x034F, name: "COMBINING GRAPHEME JOINER", aliases: &[] },
        Codepoint { codepoint: 0x0350, name: "COMBINING RIGHT ARROWHEAD ABOVE", aliases: &[] },
        Codepoint { codepoint: 0x0351, name: "COMBINING LEFT HALF RING ABOVE", aliases: &[] },
        Codepoint { codepoint: 0x0352, name: "COMBINING FERMATA", aliases: &[] },
        Codepoint { codepoint: 0x0353, name: "COMBINING X BELOW", aliases: &[] },
        Codepoint { codepoint: 0x0354, name: "COMBINING LEFT ARROWHEAD BELOW", aliases: &[] },
        Codepoint { codepoint: 0x0355, name: "COMBINING RIGHT ARROWHEAD BELOW", aliases: &[] },
        Codepoint { codepoint: 0x0356, name: "COMBINING RIGHT ARROWHEAD AND UP ARROWHEAD BELOW", aliases: &[] },
        Codepoint { codepoint: 0x0357, name: "COMBINING RIGHT HALF RING ABOVE", aliases: &[] },
        Codepoint { codepoint: 0x0358, name: "COMBINING DOT ABOVE RIGHT", aliases: &[] },
        Codepoint { codepoint: 0x0359, name: "COMBINING ASTERISK BELOW", aliases: &[] },
        Codepoint { codepoint: 0x035A, name: "COMBINING DOUBLE RING BELOW", aliases: &[] },
        Codepoint { codepoint: 0x035B, name: "COMBINING ZIGZAG ABOVE", aliases: &[] },
        Codepoint { codepoint: 0x035C, name: "COMBINING DOUBLE BREVE BELOW", aliases: &[] },
        Codepoint { codepoint: 0x035D, name: "COMBINING DOUBLE BREVE", aliases: &[] },
        Codepoint { codepoint: 0x035E, name: "COMBINING DOUBLE MACRON", aliases: &[] },
        Codepoint { codepoint: 0x035F, name: "COMBINING DOUBLE MACRON BELOW", aliases: &[] },
        Codepoint { codepoint: 0x0360, name: "COMBINING DOUBLE TILDE", aliases: &[] },
        Codepoint { codepoint: 0x0361, name: "COMBINING DOUBLE INVERTED BREVE", aliases: &[] },
        Codepoint { codepoint: 0x0362, name: "COMBINING DOUBLE RIGHTWARDS ARROW BELOW", aliases: &[] },
        Codepoint { codepoint: 0x0363, name: "COMBINING LATIN SMALL LETTER A", aliases: &[] },
        Codepoint { codepoint: 0x0364, name: "COMBINING LATIN SMALL LETTER E", aliases: &[] },
        Codepoint { codepoint: 0x0365, name: "COMBINING LATIN SMALL LETTER I", aliases: &[] },
        Codepoint { codepoint: 0x0366, name: "COMBINING LATIN SMALL LETTER O", aliases: &[] },
        Codepoint { codepoint: 0x0367, name: "COMBINING LATIN SMALL LETTER U", aliases: &[] },
        Codepoint { codepoint: 0x0368, name: "COMBINING LATIN SMALL LETTER C", aliases: &[] },
        Codepoint { codepoint: 0x0369, name: "COMBINING LATIN SMALL LETTER D", aliases: &[] },
        Codepoint { codepoint: 0x036A, name: "COMBINING LATIN SMALL LETTER H", aliases: &[] },
        Codepoint { codepoint: 0x036B, name: "COMBINING LATIN SMALL LETTER M", aliases: &[] },
        Codepoint { codepoint: 0x036C, name: "COMBINING LATIN SMALL LETTER R", aliases: &[] },
        Codepoint { codepoint: 0x036D, name: "COMBINING LATIN SMALL LETTER T", aliases: &[] },
        Codepoint { codepoint: 0x036E, name: "COMBINING LATIN SMALL LETTER V", aliases: &[] },
        Codepoint { codepoint: 0x036F, name: "COMBINING LATIN SMALL LETTER X", aliases: &[] },
    ]
}

fn all_codepoints_21() -> (v: Vec<Codepoint>)
    ensures
        v@ == codepoint_table_21(),
{
    let v = vec![
        Codepoint { codepoint: 0x0348, name: "COMBINING DOUBLE VERTICAL LINE BELOW", aliases: &[] },
        Codepoint { codepoint: 0x0349, name: "COMBINING LEFT ANGLE BELOW", aliases: &[] },
        Codepoint { codepoint: 0x034A, name: "COMBINING NOT TILDE ABOVE", aliases: &[] },
        Codepoint { codepoint: 0x034B, name: "COMBINING HOMOTHETIC ABOVE", aliases: &[] },
        Codepoint { codepoint: 0x034C, name: "COMBINING ALMOST EQUAL TO ABOVE", aliases: &[] },
        Codepoint { codepoint: 0x034D, name: "COMBINING LEFT RIGHT ARROW BELOW", aliases: &[] },
        Codepoint { codepoint: 0x034E, name: "COMBINING UPWARDS ARROW BELOW", aliases: &[] },
        Codepoint { codepoint: 0x034F, name: "COMBINING GRAPHEME JOINER", aliases: &[] },
        Codepoint { codepoint: 0x0350, name: "COMBINING RIGHT ARROWHEAD ABOVE", aliases: &[] },
        Codepoint { codepoint: 0x0351, name: "COMBINING LEFT HALF RING ABOVE", aliases: &[] },
        Codepoint { codepoint: 0x0352, name: "COMBINING FERMATA", aliases: &[] },
        Codepoint { codepoint: 0x0353, name: "COMBINING X BELOW", aliases: &[] },
        Codepoint { codepoint: 0x0354, name: "COMBINING LEFT ARROWHEAD BELOW", aliases: &[] },
        Codepoint { codepoint: 0x0355, name: "COMBINING RIGHT ARROWHEAD BELOW", aliases: &[] },
        Codepoint { codepoint: 0x0356, name: "COMBINING RIGHT ARROWHEAD AND UP ARROWHEAD BELOW", aliases: &[] },
        Codepoint { codepoint: 0x0357, name: "COMBINING RIGHT HALF RING ABOVE", aliases: &[] },
        Codepoint { codepoint: 0x0358, name: "COMBINING DOT ABOVE RIGHT", aliases: &[] },
        Codepoint { codepoint: 0x0359, name: "COMBINING ASTERISK BELOW", aliases: &[] },
        Codepoint { codepoint: 0x035A, name: "COMBINING DOUBLE RING BELOW", aliases: &[] },
        Codepoint { codepoint: 0x035B, name: "COMBINING ZIGZAG ABOVE", aliases: &[] },
        Codepoint { codepoint: 0x035C, name: "COMBINING DOUBLE BREVE BELOW", aliases: &[] },
        Codepoint { codepoint: 0x035D, name: "COMBINING DOUBLE BREVE", aliases: &[] },
        Codepoint { codepoint: 0x035E, name: "COMBINING DOUBLE MACRON", aliases: &[] },
        Codepoint { codepoint: 0x035F, name: "COMBINING DOUBLE MACRON BELOW", aliases: &[] },
        Codepoint { codepoint: 0x0360, name: "COMBINING DOUBLE TILDE", aliases: &[] },
        Codepoint { codepoint: 0x0361, name: "COMBINING DOUBLE INVERTED BREVE", aliases: &[] },
        Codepoint { codepoint: 0x0362, name: "COMBINING DOUBLE RIGHTWARDS ARROW BELOW", aliases: &[] },
        Codepoint { codepoint: 0x0363, name: "COMBINING LATIN SMALL LETTER A", aliases: &[] },
        Codepoint { codepoint: 0x0364, name: "COMBINING LATIN SMALL LETTER E", aliases: &[] },
        Codepoint { codepoint: 0x0365, name: "COMBINING LATIN SMALL LETTER I", aliases: &[] },
        Codepoint { codepoint: 0x0366, name: "COMBINING LATIN SMALL LETTER O", aliases: &[] },
        Codepoint { codepoint: 0x0367, name: "COMBINING LATIN SMALL LETTER U", aliases: &[] },
        Codepoint { codepoint: 0x0368, name: "COMBINING LATIN SMALL LETTER C", aliases: &[] },
        Codepoint { codepoint: 0x0369, name: "COMBINING LATIN SMALL LETTER D", aliases: &[] },
        Codepoint { codepoint: 0x036A, name: "COMBINING LATIN SMALL LETTER H", aliases: &[] },
        Codepoint { codepoint: 0x036B, name: "COMBINING LATIN SMALL LETTER M", aliases: &[] },
        Codepoint { codepoint: 0x036C, name: "COMBINING LATIN SMALL LETTER R", aliases: &[] },
        Codepoint { codepoint: 0x036D, name: "COMBINING LATIN SMALL LETTER T", aliases: &[] },
        Codepoint { codepoint: 0x036E, name: "COMBINING LATIN SMALL LETTER V", aliases: &[] },
        Codepoint { codepoint: 0x036F, name: "COMBINING LATIN SMALL LETTER X", aliases: &[] },
    ];
    assert(v@ =~= codepoint_table_21());
    v
}

pub open spec fn codepoint_table_22() -> Seq<Codepoint> {
    seq![
        Codepoint { codepoint: 0x0370, name: "GREEK CAPITAL LETTER HETA", aliases: &[] },
        Codepoint { codepoint: 0x0371, name: "GREEK SMALL LETTER HETA", aliases: &[] },
        Codepoint { codepoint: 0x0372, name: "GREEK CAPITAL LETTER ARCHAIC SAMPI", aliases: &[] },
        Codepoint { codepoint: 0x0373, name: "GREEK SMALL LETTER ARCHAIC SAMPI", aliases: &[] },
        Codepoint { codepoint: 0x0374, name: "GREEK NUMERAL SIGN", aliases: &["GREEK UPPER NUMERAL SIGN"] },
        Codepoint { codepoint: 0x0375, name: "GREEK LOWER NUMERAL SIGN", aliases: &[] },
        Codepoint { codepoint: 0x0376, name: "GREEK CAPITAL LETTER PAMPHYLIAN DIGAMMA", aliases: &[] },
        Codepoint { codepoint: 0x0377, name: "GREEK SMALL LETTER PAMPHYLIAN DIGAMMA", aliases: &[] },
        Codepoint { codepoint: 0x037A, name: "GREEK YPOGEGRAMMENI", aliases: &["GREEK SPACING IOTA BELOW"] },
        Codepoint { codepoint: 0x037B, name: "GREEK SMALL REVERSED LUNATE SIGMA SYMBOL", aliases: &[] },
        Codepoint { codepoint: 0x037C, name: "GREEK SMALL DOTTED LUNATE SIGMA SYMBOL", aliases: &[] },
        Codepoint { codepoint: 0x037D, name: "GREEK SMALL REVERSED DOTTED LUNATE SIGMA SYMBOL", aliases: &[] },
        Codepoint { codepoint: 0x037E, name: "GREEK QUESTION MARK", aliases: &[] },
        Codepoint { codepoint: 0x037F, name: "GREEK CAPITAL LETTER YOT", aliases: &[] },
        Codepoint { codepoint: 0x0384, name: "GREEK TONOS", aliases: &["GREEK SPACING TONOS"] },
        Codepoint { codepoint: 0x0385, name: "GREEK DIALYTIKA TONOS", aliases: &["GREEK SPACING DIAERESIS TONOS"] },
        Codepoint { codepoint: 0x0386, name: "GREEK CAPITAL LETTER ALPHA WITH TONOS", aliases: &["GREEK CAPITAL LETTER ALPHA TONOS"] },
        Codepoint { codepoint: 0x0387, name: "GREEK ANO TELEIA", aliases: &[] },
        Codepoint { codepoint: 0x0388, name: "GREEK CAPITAL LETTER EPSILON WITH TONOS", aliases: &["GREEK CAPITAL LETTER EPSILON TONOS"] },
        Codepoint { codepoint: 0x0389, name: "GREEK CAPITAL LETTER ETA WITH TONOS", aliases: &["GREEK CAPITAL LETTER ETA TONOS"] },
        Codepoint { codepoint: 0x038A, name: "GREEK CAPITAL LETTER IOTA WITH TONOS", aliases: &["GREEK CAPITAL LETTER IOTA TONOS"] },
        Codepoint { codepoint: 0x038C, name: "GREEK CAPITAL LETTER OMICRON WITH TONOS", aliases: &["GREEK CAPITAL LETTER OMICRON TONOS"] },
        Codepoint { codepoint: 0x038E, name: "GREEK CAPITAL LETTER UPSILON WITH TONOS", aliases: &["GREEK CAPITAL LETTER UPSILON TONOS"] },
        Codepoint { codepoint: 0x038F, name: "GREEK CAPITAL LETTER OMEGA WITH TONOS", aliases: &["GREEK CAPITAL LETTER OMEGA TONOS"] },
        Codepoint { codepoint: 0x0390, name: "GREEK SMALL LETTER IOTA WITH DIALYTIKA AND TONOS", aliases: &["GREEK SMALL LETTER IOTA DIAERESIS TONOS"] },
        Codepoint { codepoint: 0x0391, name: "GREEK CAPITAL LETTER ALPHA", aliases: &[] },
        Codepoint { codepoint: 0x0392, name: "GREEK CAPITAL LETTER BETA", aliases: &[] },
        Codepoint { codepoint: 0x0393, name: "GREEK CAPITAL LETTER GAMMA", aliases: &[] },
        Codepoint { codepoint: 0x0394, name: "GREEK CAPITAL LETTER DELTA", aliases: &[] },
        Codepoint { codepoint: 0x0395, name: "GREEK CAPITAL LETTER EPSILON", aliases: &[] },
        Codepoint { codepoint: 0x0396, name: "GREEK CAPITAL LETTER ZETA", aliases: &[] },
        Codepoint { codepoint: 0x0397, name: "GREEK CAPITAL LETTER ETA", aliases: &[] },
        Codepoint { codepoint: 0x0398, name: "GREEK CAPITAL LETTER THETA", aliases: &[] },
        Codepoint { codepoint: 0x0399, name: "GREEK CAPITAL LETTER IOTA", aliases: &[] },
        Codepoint { codepoint: 0x039A, name: "GREEK CAPITAL LETTER KAPPA", aliases: &[] },
        Codepoint { codepoint: 0x039B, name: "GREEK CAPITAL LETTER LAMDA", aliases: &["GREEK CAPITAL LETTER LAMBDA"] },
        Codepoint { codepoint: 0x039C, name: "GREEK CAPITAL LETTER MU", aliases: &[] },
        Codepoint { codepoint: 0x039D, name: "GREEK CAPITAL LETTER NU", aliases: &[] },
        Codepoint { codepoint: 0x039E, name: "GREEK CAPITAL LETTER XI", aliases: &[] },
        Codepoint { codepoint: 0x039F, name: "GREEK CAPITAL LETTER OMICRON", aliases: &[] },
    ]
}

fn all_codepoints_22() -> (v: Vec<Codepoint>)
    ensures
        v@ == codepoint_table_22(),
{
    let v = vec![
        Codepoint { codepoint: 0x0370, name: "GREEK CAPITAL LETTER HETA", aliases: &[] },
        Codepoint { codepoint: 0x0371, name: "GREEK SMALL LETTER HETA", aliases: &[] },
        Codepoint { codepoint: 0x0372, name: "GREEK CAPITAL LETTER ARCHAIC SAMPI", aliases: &[] },
        Codepoint { codepoint: 0x0373, name: "GREEK SMALL LETTER ARCHAIC SAMPI", aliases: &[] },
        Codepoint { codepoint: 0x0374, name: "GREEK NUMERAL SIGN", aliases: &["GREEK UPPER NUMERAL SIGN"] },
        Codepoint { codepoint: 0x0375, name: "GREEK LOWER NUMERAL SIGN", aliases: &[] },
        Codepoint { codepoint: 0x0376, name: "GREEK CAPITAL LETTER PAMPHYLIAN DIGAMMA", aliases: &[] },
        Codepoint { codepoint: 0x0377, name: "GREEK SMALL LETTER PAMPHYLIAN DIGAMMA", aliases: &[] },
        Codepoint { codepoint: 0x037A, name: "GREEK YPOGEGRAMMENI", aliases: &["GREEK SPACING IOTA BELOW"] },
        Codepoint { codepoint: 0x037B, name: "GREEK SMALL REVERSED LUNATE SIGMA SYMBOL", aliases: &[] },
        Codepoint { codepoint: 0x037C, name: "GREEK SMALL DOTTED LUNATE SIGMA SYMBOL", aliases: &[] },
        Codepoint { codepoint: 0x037D, name: "GREEK SMALL REVERSED DOTTED LUNATE SIGMA SYMBOL", aliases: &[] },
        Codepoint { codepoint: 0x037E, name: "GREEK QUESTION MARK", aliases: &[] },
        Codepoint { codepoint: 0x037F, name: "GREEK CAPITAL LETTER YOT", aliases: &[] },
        Codepoint { codepoint: 0x0384, name: "GREEK TONOS", aliases: &["GREEK SPACING TONOS"] },
        Codepoint { codepoint: 0x0385, name: "GREEK DIALYTIKA TONOS", aliases: &["GREEK SPACING DIAERESIS TONOS"] },
        Codepoint { codepoint: 0x0386, name: "GREEK CAPITAL LETTER ALPHA WITH TONOS", aliases: &["GREEK CAPITAL LETTER ALPHA TONOS"] },
        Codepoint { codepoint: 0x0387, name: "GREEK ANO TELEIA", aliases: &[] },
        Codepoint { codepoint: 0x0388, name: "GREEK CAPITAL LETTER EPSILON WITH TONOS", aliases: &["GREEK CAPITAL LETTER EPSILON TONOS"] },
        Codepoint { codepoint: 0x0389, name: "GREEK CAPITAL LETTER ETA WITH TONOS", aliases: &["GREEK CAPITAL LETTER ETA TONOS"] },
        Codepoint { codepoint: 0x038A, name: "GREEK CAPITAL LETTER IOTA WITH TONOS", aliases: &["GREEK CAPITAL LETTER IOTA TONOS"] },
        Codepoint { codepoint: 0x038C, name: "GREEK CAPITAL LETTER OMICRON WITH TONOS", aliases: &["GREEK CAPITAL LETTER OMICRON TONOS"] },
        Codepoint { codepoint: 0x038E, name: "GREEK CAPITAL LETTER UPSILON WITH TONOS", aliases: &["GREEK CAPITAL LETTER UPSILON TONOS"] },
        Codepoint { codepoint: 0x038F, name: "GREEK CAPITAL LETTER OMEGA WITH TONOS", aliases: &["GREEK CAPITAL LETTER OMEGA TONOS"] },
        Codepoint { codepoint: 0x0390, name: "GREEK SMALL LETTER IOTA WITH DIALYTIKA AND TONOS", aliases: &["GREEK SMALL LETTER IOTA DIAERESIS TONOS"] },
        Codepoint { codepoint: 0x0391, name: "GREEK CAPITAL LETTER ALPHA", aliases: &[] },
        Codepoint { codepoint: 0x0392, name: "GREEK CAPITAL LETTER BETA", aliases: &[] },
        Codepoint { codepoint: 0x0393, name: "GREEK CAPITAL LETTER GAMMA", aliases: &[] },
        Codepoint { codepoint: 0x0394, name: "GREEK CAPITAL LETTER DELTA", aliases: &[] },
        Codepoint { codepoint: 0x0395, name: "GREEK CAPITAL LETTER EPSILON", aliases: &[] },
        Codepoint { codepoint: 0x0396, name: "GREEK CAPITAL LETTER ZETA", aliases: &[] },
        Codepoint { codepoint: 0x0397, name: "GREEK CAPITAL LETTER ETA", aliases: &[] },
        Codepoint { codepoint: 0x0398, name: "GREEK CAPITAL LETTER THETA", aliases: &[] },
        Codepoint { codepoint: 0x0399, name: "GREEK CAPITAL LETTER IOTA", aliases: &[] },
        Codepoint { codepoint: 0x039A, name: "GREEK CAPITAL LETTER KAPPA", aliases: &[] },
        Codepoint { codepoint: 0x039B, name: "GREEK CAPITAL LETTER LAMDA", aliases: &["GREEK CAPITAL LETTER LAMBDA"] },
        Codepoint { codepoint: 0x039C, name: "GREEK CAPITAL LETTER MU", aliases: &[] },
        Codepoint { codepoint: 0x039D, name: "GREEK CAPITAL LETTER NU", aliases: &[] },
        Codepoint { codepoint: 0x039E, name: "GREEK CAPITAL LETTER XI", aliases: &[] },
        Codepoint { codepoint: 0x039F, name: "GREEK CAPITAL LETTER OMICRON", aliases: &[] },
    ];
    assert(v@ =~= codepoint_table_22());
    v
}

pub open spec fn codepoint_table_23() -> Seq<Codepoint> {
    seq![
        Codepoint { codepoint: 0x03A0, name: "GREEK CAPITAL LETTER PI", aliases: &[] },
        Codepoint { codepoint: 0x03A1, name: "GREEK CAPITAL LETTER RHO", aliases: &[] },
        Codepoint { codepoint: 0x03A3, name: "GREEK CAPITAL LETTER SIGMA", aliases: &[] },
        Codepoint { codepoint: 0x03A4, name: "GREEK CAPITAL LETTER TAU", aliases: &[] },
        Codepoint { codepoint: 0x03A5, name: "GREEK CAPITAL LETTER UPSILON", aliases: &[] },
        Codepoint { codepoint: 0x03A6, name: "GREEK CAPITAL LETTER PHI", aliases: &[] },
        Codepoint { codepoint: 0x03A7, name: "GREEK CAPITAL LETTER CHI", aliases: &[] },
        Codepoint { codepoint: 0x03A8, name: "GREEK CAPITAL LETTER PSI", aliases: &[] },
        Codepoint { codepoint: 0x03A9, name: "GREEK CAPITAL LETTER OMEGA", aliases: &[] },
        Codepoint { codepoint: 0x03AA, name: "GREEK CAPITAL LETTER IOTA WITH DIALYTIKA", aliases: &["GREEK CAPITAL LETTER IOTA DIAERESIS"] },
        Codepoint { codepoint: 0x03AB, name: "GREEK CAPITAL LETTER UPSILON WITH DIALYTIKA", aliases: &["GREEK CAPITAL LETTER UPSILON DIAERESIS"] },
        Codepoint { codepoint: 0x03AC, name: "GREEK SMALL LETTER ALPHA WITH TONOS", aliases: &["GREEK SMALL LETTER ALPHA TONOS"] },
        Codepoint { codepoint: 0x03AD, name: "GREEK SMALL LETTER EPSILON WITH TONOS", aliases: &["GREEK SMALL LETTER EPSILON TONOS"] },
        Codepoint { codepoint: 0x03AE, name: "GREEK SMALL LETTER ETA WITH TONOS", aliases: &["GREEK SMALL LETTER ETA TONOS"] },
        Codepoint { codepoint: 0x03AF, name: "GREEK SMALL LETTER IOTA WITH TONOS", aliases: &["GREEK SMALL LETTER IOTA TONOS"] },
        Codepoint { codepoint: 0x03B0, name: "GREEK SMALL LETTER UPSILON WITH DIALYTIKA AND TONOS", aliases: &["GREEK SMALL LETTER UPSILON DIAERESIS TONOS"] },
        Codepoint { codepoint: 0x03B1, name: "GREEK SMALL LETTER ALPHA", aliases: &[] },
        Codepoint { codepoint: 0x03B2, name: "GREEK SMALL LETTER BETA", aliases: &[] },
        Codepoint { codepoint: 0x03B3, name: "GREEK SMALL LETTER GAMMA", aliases: &[] },
        Codepoint { codepoint: 0x03B4, name: "GREEK SMALL LETTER DELTA", aliases: &[] },
        Codepoint { codepoint: 0x03B5, name: "GREEK SMALL LETTER EPSILON", aliases: &[] },
        Codepoint { codepoint: 0x03B6, name: "GREEK SMALL LETTER ZETA", aliases: &[] },
        Codepoint { codepoint: 0x03B7, name: "GREEK SMALL LETTER ETA", aliases: &[] },
        Codepoint { codepoint: 0x03B8, name: "GREEK SMALL LETTER THETA", aliases: &[] },
        Codepoint { codepoint: 0x03B9, name: "GREEK SMALL LETTER IOTA", aliases: &[] },
        Codepoint { codepoint: 0x03BA, name: "GREEK SMALL LETTER KAPPA", aliases: &[] },
        Codepoint { codepoint: 0x03BB, name: "GREEK SMALL LETTER LAMDA", aliases: &["GREEK SMALL LETTER LAMBDA"] },
        Codepoint { codepoint: 0x03BC, name: "GREEK SMALL LETTER MU", aliases: &[] },
        Codepoint { codepoint: 0x03BD, name: "GREEK SMALL LETTER NU", aliases: &[] },
        Codepoint { codepoint: 0x03BE, name: "GREEK SMALL LETTER XI", aliases: &[] },
        Codepoint { codepoint: 0x03BF, name: "GREEK SMALL LETTER OMICRON", aliases: &[] },
        Codepoint { codepoint: 0x03C0, name: "GREEK SMALL LETTER PI", aliases: &[] },
        Codepoint { codepoint: 0x03C1, name: "GREEK SMALL LETTER RHO", aliases: &[] },
        Codepoint { codepoint: 0x03C2, name: "GREEK SMALL LETTER FINAL SIGMA", aliases: &[] },
        Codepoint { codepoint: 0x03C3, name: "GREEK SMALL LETTER SIGMA", aliases: &[] },
        Codepoint { codepoint: 0x03C4, name: "GREEK SMALL LETTER TAU", aliases: &[] },
        Codepoint { codepoint: 0x03C5, name: "GREEK SMALL LETTER UPSILON", aliases: &[] },
        Codepoint { codepoint: 0x03C6, name: "GREEK SMALL LETTER PHI", aliases: &[] },
        Codepoint { codepoint: 0x03C7, name: "GREEK SMALL LETTER CHI", aliases: &[] },
        Codepoint { codepoint: 0x03C8, name: "GREEK SMALL LETTER PSI", aliases: &[] },
    ]
}

fn all_codepoints_23() -> (v: Vec<Codepoint>)
    ensures
        v@ == codepoint_table_23(),
{
    let v = vec![
        Codepoint { codepoint: 0x03A0, name: "GREEK CAPITAL LETTER PI", aliases: &[] },
        Codepoint { codepoint: 0x03A1, name: "GREEK CAPITAL LETTER RHO", aliases: &[] },
        Codepoint { codepoint: 0x03A3, name: "GREEK CAPITAL LETTER SIGMA", aliases: &[] },
        Codepoint { codepoint: 0x03A4, name: "GREEK CAPITAL LETTER TAU", aliases: &[] },
        Codepoint { codepoint: 0x03A5, name: "GREEK CAPITAL LETTER UPSILON", aliases: &[] },
        Codepoint { codepoint: 0x03A6, name: "GREEK CAPITAL LETTER PHI", aliases: &[] },
        Codepoint { codepoint: 0x03A7, name: "GREEK CAPITAL LETTER CHI", aliases: &[] },
        Codepoint { codepoint: 0x03A8, name: "GREEK CAPITAL LETTER PSI", aliases: &[] },
        Codepoint { codepoint: 0x03A9, name: "GREEK CAPITAL LETTER OMEGA", aliases: &[] },
        Codepoint { codepoint: 0x03AA, name: "GREEK CAPITAL LETTER IOTA WITH DIALYTIKA", aliases: &["GREEK CAPITAL LETTER IOTA DIAERESIS"] },
        Codepoint { codepoint: 0x03AB, name: "GREEK CAPITAL LETTER UPSILON WITH DIALYTIKA", aliases: &["GREEK CAPITAL LETTER UPSILON DIAERESIS"] },
        Codepoint { codepoint: 0x03AC, name: "GREEK SMALL LETTER ALPHA WITH TONOS", aliases: &["GREEK SMALL LETTER ALPHA TONOS"] },
        Codepoint { codepoint: 0x03AD, name: "GREEK SMALL LETTER EPSILON WITH TONOS", aliases: &["GREEK SMALL LETTER EPSILON TONOS"] },
        Codepoint { codepoint: 0x03AE, name: "GREEK SMALL LETTER ETA WITH TONOS", aliases: &["GREEK SMALL LETTER ETA TONOS"] },
        Codepoint { codepoint: 0x03AF, name: "GREEK SMALL LETTER IOTA WITH TONOS", aliases: &["GREEK SMALL LETTER IOTA TONOS"] },
        Codepoint { codepoint: 0x03B0, name: "GREEK SMALL LETTER UPSILON WITH DIALYTIKA AND TONOS", aliases: &["GREEK SMALL LETTER UPSILON DIAERESIS TONOS"] },
        Codepoint { codepoint: 0x03B1, name: "GREEK SMALL LETTER ALPHA", aliases: &[] },
        Codepoint { codepoint: 0x03B2, name: "GREEK SMALL LETTER BETA", aliases: &[] },
        Codepoint { codepoint: 0x03B3, name: "GREEK SMALL LETTER GAMMA", aliases: &[] },
        Codepoint { codepoint: 0x03B4, name: "GREEK SMALL LETTER DELTA", aliases: &[] },
        Codepoint { codepoint: 0x03B5, name: "GREEK SMALL LETTER EPSILON", aliases: &[] },
        Codepoint { codepoint: 0x03B6, name: "GREEK SMALL LETTER ZETA", aliases: &[] },
        Codepoint { codepoint: 0x03B7, name: "GREEK SMALL LETTER ETA", aliases: &[] },
        Codepoint { codepoint: 0x03B8, name: "GREEK SMALL LETTER THETA", aliases: &[] },
        Codepoint { codepoint: 0x03B9, name: "GREEK SMALL LETTER IOTA", aliases: &[] },
        Codepoint { codepoint: 0x03BA, name: "GREEK SMALL LETTER KAPPA", aliases: &[] },
        Codepoint { codepoint: 0x03BB, name: "GREEK SMALL LETTER LAMDA", aliases: &["GREEK SMALL LETTER LAMBDA"] },
        Codepoint { codepoint: 0x03BC, name: "GREEK SMALL LETTER MU", aliases: &[] },
        Codepoint { codepoint: 0x03BD, name: "GREEK SMALL LETTER NU", aliases: &[] },
        Codepoint { codepoint: 0x03BE, name: "GREEK SMALL LETTER XI", aliases: &[] },
        Codepoint { codepoint: 0x03BF, name: "GREEK SMALL LETTER OMICRON", aliases: &[] },
        Codepoint { codepoint: 0x03C0, name: "GREEK SMALL LETTER PI", aliases: &[] },
        Codepoint { codepoint: 0x03C1, name: "GREEK SMALL LETTER RHO", aliases: &[] },
        Codepoint { codepoint: 0x03C2, name: "GREEK SMALL LETTER FINAL SIGMA", aliases: &[] },
        Codepoint { codepoint: 0x03C3, name: "GREEK SMALL LETTER SIGMA", aliases: &[] },
        Codepoint { codepoint: 0x03C4, name: "GREEK SMALL LETTER TAU", aliases: &[] },
        Codepoint { codepoint: 0x03C5, name: "GREEK SMALL LETTER UPSILON", aliases: &[] },
        Codepoint { codepoint: 0x03C6, name: "GREEK SMALL LETTER PHI", aliases: &[] },
        Codepoint { codepoint: 0x03C7, name: "GREEK SMALL LETTER CHI", aliases: &[] },
        Codepoint { codepoint: 0x03C8, name: "GREEK SMALL LETTER PSI", aliases: &[] },
    ];
    assert(v@ =~= codepoint_table_23());
    v
}

pub open spec fn codepoint_table_24() -> Seq<Codepoint> {
    seq![
        Codepoint { codepoint: 0x03C9, name: "GREEK SMALL LETTER OMEGA", aliases: &[] },
        Codepoint { codepoint: 0x03CA, name: "GREEK SMALL LETTER IOTA WITH DIALYTIKA", aliases: &["GREEK SMALL LETTER IOTA DIAERESIS"] },
        Codepoint { codepoint: 0x03CB, name: "GREEK SMALL LETTER UPSILON WITH DIALYTIKA", aliases: &["GREEK SMALL LETTER UPSILON DIAERESIS"] },
        Codepoint { codepoint: 0x03CC, name: "GREEK SMALL LETTER OMICRON WITH TONOS", aliases: &["GREEK SMALL LETTER OMICRON TONOS"] },
        Codepoint { codepoint: 0x03CD, name: "GREEK SMALL LETTER UPSILON WITH TONOS", aliases: &["GREEK SMALL LETTER UPSILON TONOS"] },
        Codepoint { codepoint: 0x03CE, name: "GREEK SMALL LETTER OMEGA WITH TONOS", aliases: &["GREEK SMALL LETTER OMEGA TONOS"] },
        Codepoint { codepoint: 0x03CF, name: "GREEK CAPITAL KAI SYMBOL", aliases: &[] },
        Codepoint { codepoint: 0x03D0, name: "GREEK BETA SYMBOL", aliases: &["GREEK SMALL LETTER CURLED BETA"] },
        Codepoint { codepoint: 0x03D1, name: "GREEK THETA SYMBOL", aliases: &["GREEK SMALL LETTER SCRIPT THETA"] },
        Codepoint { codepoint: 0x03D2, name: "GREEK UPSILON WITH HOOK SYMBOL", aliases: &["GREEK CAPITAL LETTER UPSILON HOOK"] },
        Codepoint { codepoint: 0x03D3, name: "GREEK UPSILON WITH ACUTE AND HOOK SYMBOL", aliases: &["GREEK CAPITAL LETTER UPSILON HOOK TONOS"] },
        Codepoint { codepoint: 0x03D4, name: "GREEK UPSILON WITH DIAERESIS AND HOOK SYMBOL", aliases: &["GREEK CAPITAL LETTER UPSILON HOOK DIAERESIS"] },
        Codepoint { codepoint: 0x03D5, name: "GREEK PHI SYMBOL", aliases: &["GREEK SMALL LETTER SCRIPT PHI"] },
        Codepoint { codepoint: 0x03D6, name: "GREEK PI SYMBOL", aliases: &["GREEK SMALL LETTER OMEGA PI"] },
        Codepoint { codepoint: 0x03D7, name: "GREEK KAI SYMBOL", aliases: &[] },
        Codepoint { codepoint: 0x03D8, name: "GREEK LETTER ARCHAIC KOPPA", aliases: &[] },
        Codepoint { codepoint: 0x03D9, name: "GREEK SMALL LETTER ARCHAIC KOPPA", aliases: &[] },
        Codepoint { codepoint: 0x03DA, name: "GREEK LETTER STIGMA", aliases: &["GREEK CAPITAL LETTER STIGMA"] },
        Codepoint { codepoint: 0x03DB, name: "GREEK SMALL LETTER STIGMA", aliases: &[] },
        Codepoint { codepoint: 0x03DC, name: "GREEK LETTER DIGAMMA", aliases: &["GREEK CAPITAL LETTER DIGAMMA"] },
        Codepoint { codepoint: 0x03DD, name: "GREEK SMALL LETTER DIGAMMA", aliases: &[] },
        Codepoint { codepoint: 0x03DE, name: "GREEK LETTER KOPPA", aliases: &["GREEK CAPITAL LETTER KOPPA"] },
        Codepoint { codepoint: 0x03DF, name: "GREEK SMALL LETTER KOPPA", aliases: &[] },
        Codepoint { codepoint: 0x03E0, name: "GREEK LETTER SAMPI", aliases: &["GREEK CAPITAL LETTER SAMPI"] },
        Codepoint { codepoint: 0x03E1, name: "GREEK SMALL LETTER SAMPI", aliases: &[] },
        Codepoint { codepoint: 0x03E2, name: "COPTIC CAPITAL LETTER SHEI", aliases: &["GREEK CAPITAL LETTER SHEI"] },
        Codepoint { codepoint: 0x03E3, name: "COPTIC SMALL LETTER SHEI", aliases: &["GREEK SMALL LETTER SHEI"] },
        Codepoint { codepoint: 0x03E4, name: "COPTIC CAPITAL LETTER FEI", aliases: &["GREEK CAPITAL LETTER FEI"] },
        Codepoint { codepoint: 0x03E5, name: "COPTIC SMALL LETTER FEI", aliases: &["GREEK SMALL LETTER FEI"] },
        Codepoint { codepoint: 0x03E6, name: "COPTIC CAPITAL LETTER KHEI", aliases: &["GREEK CAPITAL LETTER KHEI"] },
        Codepoint { codepoint: 0x03E7, name: "COPTIC SMALL LETTER KHEI", aliases: &["GREEK SMALL LETTER KHEI"] },
        Codepoint { codepoint: 0x03E8, name: "COPTIC CAPITAL LETTER HORI", aliases: &["GREEK CAPITAL LETTER HORI"] },
        Codepoint { codepoint: 0x03E9, name: "COPTIC SMALL LETTER HORI", aliases: &["GREEK SMALL LETTER HORI"] },
        Codepoint { codepoint: 0x03EA, name: "COPTIC CAPITAL LETTER GANGIA", aliases: &["GREEK CAPITAL LETTER GANGIA"] },
        Codepoint { codepoint: 0x03EB, name: "COPTIC SMALL LETTER GANGIA", aliases: &["GREEK SMALL LETTER GANGIA"] },
        Codepoint { codepoint: 0x03EC, name: "COPTIC CAPITAL LETTER SHIMA", aliases: &["GREEK CAPITAL LETTER SHIMA"] },
        Codepoint { codepoint: 0x03ED, name: "COPTIC SMALL LETTER SHIMA", aliases: &["GREEK SMALL LETTER SHIMA"] },
        Codepoint { codepoint: 0x03EE, name: "COPTIC CAPITAL LETTER DEI", aliases: &["GREEK CAPITAL LETTER DEI"] },
        Codepoint { codepoint: 0x03EF, name: "COPTIC SMALL LETTER DEI", aliases: &["GREEK SMALL LETTER DEI"] },
        Codepoint { codepoint: 0x03F0, name: "GREEK KAPPA SYMBOL", aliases: &["GREEK SMALL LETTER SCRIPT KAPPA"] },
    ]
}

fn all_codepoints_24() -> (v: Vec<Codepoint>)
    ensures
        v@ == codepoint_table_24(),
{
    let v = vec![
        Codepoint { codepoint: 0x03C9, name: "GREEK SMALL LETTER OMEGA", aliases: &[] },
        Codepoint { codepoint: 0x03CA, name: "GREEK SMALL LETTER IOTA WITH DIALYTIKA", aliases: &["GREEK SMALL LETTER IOTA DIAERESIS"] },
        Codepoint { codepoint: 0x03CB, name: "GREEK SMALL LETTER UPSILON WITH DIALYTIKA", aliases: &["GREEK SMALL LETTER UPSILON DIAERESIS"] },
        Codepoint { codepoint: 0x03CC, name: "GREEK SMALL LETTER OMICRON WITH TONOS", aliases: &["GREEK SMALL LETTER OMICRON TONOS"] },
        Codepoint { codepoint: 0x03CD, name: "GREEK SMALL LETTER UPSILON WITH TONOS", aliases: &["GREEK SMALL LETTER UPSILON TONOS"] },
        Codepoint { codepoint: 0x03CE, name: "GREEK SMALL LETTER OMEGA WITH TONOS", aliases: &["GREEK SMALL LETTER OMEGA TONOS"] },
        Codepoint { codepoint: 0x03CF, name: "GREEK CAPITAL KAI SYMBOL", aliases: &[] },
        Codepoint { codepoint: 0x03D0, name: "GREEK BETA SYMBOL", aliases: &["GREEK SMALL LETTER CURLED BETA"] },
        Codepoint { codepoint: 0x03D1, name: "GREEK THETA SYMBOL", aliases: &["GREEK SMALL LETTER SCRIPT THETA"] },
        Codepoint { codepoint: 0x03D2, name: "GREEK UPSILON WITH HOOK SYMBOL", aliases: &["GREEK CAPITAL LETTER UPSILON HOOK"] },
        Codepoint { codepoint: 0x03D3, name: "GREEK UPSILON WITH ACUTE AND HOOK SYMBOL", aliases: &["GREEK CAPITAL LETTER UPSILON HOOK TONOS"] },
        Codepoint { codepoint: 0x03D4, name: "GREEK UPSILON WITH DIAERESIS AND HOOK SYMBOL", aliases: &["GREEK CAPITAL LETTER UPSILON HOOK DIAERESIS"] },
        Codepoint { codepoint: 0x03D5, name: "GREEK PHI SYMBOL", aliases: &["GREEK SMALL LETTER SCRIPT PHI"] },
        Codepoint { codepoint: 0x03D6, name: "GREEK PI SYMBOL", aliases: &["GREEK SMALL LETTER OMEGA PI"] },
        Codepoint { codepoint: 0x03D7, name: "GREEK KAI SYMBOL", aliases: &[] },
        Codepoint { codepoint: 0x03D8, name: "GREEK LETTER ARCHAIC KOPPA", aliases: &[] },
        Codepoint { codepoint: 0x03D9, name: "GREEK SMALL LETTER ARCHAIC KOPPA", aliases: &[] },
        Codepoint { codepoint: 0x03DA, name: "GREEK LETTER STIGMA", aliases: &["GREEK CAPITAL LETTER STIGMA"] },
        Codepoint { codepoint: 0x03DB, name: "GREEK SMALL LETTER STIGMA", aliases: &[] },
        Codepoint { codepoint: 0x03DC, name: "GREEK LETTER DIGAMMA", aliases: &["GREEK CAPITAL LETTER DIGAMMA"] },
        Codepoint { codepoint: 0x03DD, name: "GREEK SMALL LETTER DIGAMMA", aliases: &[] },
        Codepoint { codepoint: 0x03DE, name: "GREEK LETTER KOPPA", aliases: &["GREEK CAPITAL LETTER KOPPA"] },
        Codepoint { codepoint: 0x03DF, name: "GREEK SMALL LETTER KOPPA", aliases: &[] },
        Codepoint { codepoint: 0x03E0, name: "GREEK LETTER SAMPI", aliases: &["GREEK CAPITAL LETTER SAMPI"] },
        Codepoint { codepoint: 0x03E1, name: "GREEK SMALL LETTER SAMPI", aliases: &[] },
        Codepoint { codepoint: 0x03E2, name: "COPTIC CAPITAL LETTER SHEI", aliases: &["GREEK CAPITAL LETTER SHEI"] },
        Codepoint { codepoint: 0x03E3, name: "COPTIC SMALL LETTER SHEI", aliases: &["GREEK SMALL LETTER SHEI"] },
        Codepoint { codepoint: 0x03E4, name: "COPTIC CAPITAL LETTER FEI", aliases: &["GREEK CAPITAL LETTER FEI"] },
        Codepoint { codepoint: 0x03E5, name: "COPTIC SMALL LETTER FEI", aliases: &["GREEK SMALL LETTER FEI"] },
        Codepoint { codepoint: 0x03E6, name: "COPTIC CAPITAL LETTER KHEI", aliases: &["GREEK CAPITAL LETTER KHEI"] },
        Codepoint { codepoint: 0x03E7, name: "COPTIC SMALL LETTER KHEI", aliases: &["GREEK SMALL LETTER KHEI"] },
        Codepoint { codepoint: 0x03E8, name: "COPTIC CAPITAL LETTER HORI", aliases: &["GREEK CAPITAL LETTER HORI"] },
        Codepoint { codepoint: 0x03E9, name: "COPTIC SMALL LETTER HORI", aliases: &["GREEK SMALL LETTER HORI"] },
        Codepoint { codepoint: 0x03EA, name: "COPTIC CAPITAL LETTER GANGIA", aliases: &["GREEK CAPITAL LETTER GANGIA"] },
        Codepoint { codepoint: 0x03EB, name: "COPTIC SMALL LETTER GANGIA", aliases: &["GREEK SMALL LETTER GANGIA"] },
        Codepoint { codepoint: 0x03EC, name: "COPTIC CAPITAL LETTER SHIMA", aliases: &["GREEK CAPITAL LETTER SHIMA"] },
        Codepoint { codepoint: 0x03ED, name: "COPTIC SMALL LETTER SHIMA", aliases: &["GREEK SMALL LETTER SHIMA"] },
        Codepoint { codepoint: 0x03EE, name: "COPTIC CAPITAL LETTER DEI", aliases: &["GREEK CAPITAL LETTER DEI"] },
        Codepoint { codepoint: 0x03EF, name: "COPTIC SMALL LETTER DEI", aliases: &["GREEK SMALL LETTER DEI"] },
        Codepoint { codepoint: 0x03F0, name: "GREEK KAPPA SYMBOL", aliases: &["GREEK SMALL LETTER SCRIPT KAPPA"] },
    ];
    assert(v@ =~= codepoint_table_24());
    v
}

pub open spec fn codepoint_table_25() -> Seq<Codepoint> {
    seq![
        Codepoint { codepoint: 0x03F1, name: "GREEK RHO SYMBOL", aliases: &["GREEK SMALL LETTER TAILED RHO"] },
        Codepoint { codepoint: 0x03F2, name: "GREEK LUNATE SIGMA SYMBOL", aliases: &["GREEK SMALL LETTER LUNATE SIGMA"] },
        Codepoint { codepoint: 0x03F3, name: "GREEK LETTER YOT", aliases: &[] },
        Codepoint { codepoint: 0x03F4, name: "GREEK CAPITAL THETA SYMBOL", aliases: &[] },
        Codepoint { codepoint: 0x03F5, name: "GREEK LUNATE EPSILON SYMBOL", aliases: &[] },
        Codepoint { codepoint: 0x03F6, name: "GREEK REVERSED LUNATE EPSILON SYMBOL", aliases: &[] },
        Codepoint { codepoint: 0x03F7, name: "GREEK CAPITAL LETTER SHO", aliases: &[] },
        Codepoint { codepoint: 0x03F8, name: "GREEK SMALL LETTER SHO", aliases: &[] },
        Codepoint { codepoint: 0x03F9, name: "GREEK CAPITAL LUNATE SIGMA SYMBOL", aliases: &[] },
        Codepoint { codepoint: 0x03FA, name: "GREEK CAPITAL LETTER SAN", aliases: &[] },
        Codepoint { codepoint: 0x03FB, name: "GREEK SMALL LETTER SAN", aliases: &[] },
        Codepoint { codepoint: 0x03FC, name: "GREEK RHO WITH STROKE SYMBOL", aliases: &[] },
        Codepoint { codepoint: 0x03FD, name: "GREEK CAPITAL REVERSED LUNATE SIGMA SYMBOL", aliases: &[] },
        Codepoint { codepoint: 0x03FE, name: "GREEK CAPITAL DOTTED LUNATE SIGMA SYMBOL", aliases: &[] },
        Codepoint { codepoint: 0x03FF, name: "GREEK CAPITAL REVERSED DOTTED LUNATE SIGMA SYMBOL", aliases: &[] },
        Codepoint { codepoint: 0x0400, name: "CYRILLIC CAPITAL LETTER IE WITH GRAVE", aliases: &[] },
        Codepoint { codepoint: 0x0401, name: "CYRILLIC CAPITAL LETTER IO", aliases: &[] },
        Codepoint { codepoint: 0x0402, name: "CYRILLIC CAPITAL LETTER DJE", aliases: &[] },
        Codepoint { codepoint: 0x0403, name: "CYRILLIC CAPITAL LETTER GJE", aliases: &[] },
        Codepoint { codepoint: 0x0404, name: "CYRILLIC CAPITAL LETTER UKRAINIAN IE", aliases: &["CYRILLIC CAPITAL LETTER E"] },
        Codepoint { codepoint: 0x0405, name: "CYRILLIC CAPITAL LETTER DZE", aliases: &[] },
        Codepoint { codepoint: 0x0406, name: "CYRILLIC CAPITAL LETTER BYELORUSSIAN-UKRAINIAN I", aliases: &["CYRILLIC CAPITAL LETTER I"] },
        Codepoint { codepoint: 0x0407, name: "CYRILLIC CAPITAL LETTER YI", aliases: &[] },
        Codepoint { codepoint: 0x0408, name: "CYRILLIC CAPITAL LETTER JE", aliases: &[] },
        Codepoint { codepoint: 0x0409, name: "CYRILLIC CAPITAL LETTER LJE", aliases: &[] },
        Codepoint { codepoint: 0x040A, name: "CYRILLIC CAPITAL LETTER NJE", aliases: &[] },
        Codepoint { codepoint: 0x040B, name: "CYRILLIC CAPITAL LETTER TSHE", aliases: &[] },
        Codepoint { codepoint: 0x040C, name: "CYRILLIC CAPITAL LETTER KJE", aliases: &[] },
        Codepoint { codepoint: 0x040D, name: "CYRILLIC CAPITAL LETTER I WITH GRAVE", aliases: &[] },
        Codepoint { codepoint: 0x040E, name: "CYRILLIC CAPITAL LETTER SHORT U", aliases: &[] },
        Codepoint { codepoint: 0x040F, name: "CYRILLIC CAPITAL LETTER DZHE", aliases: &[] },
        Codepoint { codepoint: 0x0410, name: "CYRILLIC CAPITAL LETTER A", aliases: &[] },
        Codepoint { codepoint: 0x0411, name: "CYRILLIC CAPITAL LETTER BE", aliases: &[] },
        Codepoint { codepoint: 0x0412, name: "CYRILLIC CAPITAL LETTER VE", aliases: &[] },
        Codepoint { codepoint: 0x0413, name: "CYRILLIC CAPITAL LETTER GHE", aliases: &["CYRILLIC CAPITAL LETTER GE"] },
        Codepoint { codepoint: 0x0414, name: "CYRILLIC CAPITAL LETTER DE", aliases: &[] },
        Codepoint { codepoint: 0x0415, name: "CYRILLIC CAPITAL LETTER IE", aliases: &[] },
        Codepoint { codepoint: 0x0416, name: "CYRILLIC CAPITAL LETTER ZHE", aliases: &[] },
        Codepoint { codepoint: 0x0417, name: "CYRILLIC CAPITAL LETTER ZE", aliases: &[] },
        Codepoint { codepoint: 0x0418, name: "CYRILLIC CAPITAL LETTER I", aliases: &["CYRILLIC CAPITAL LETTER II"] },
    ]
}

fn all_codepoints_25() -> (v: Vec<Codepoint>)
    ensures
        v@ == codepoint_table_25(),
{
    let v = vec![
        Codepoint { codepoint: 0x03F1, name: "GREEK RHO SYMBOL", aliases: &["GREEK SMALL LETTER TAILED RHO"] },
        Codepoint { codepoint: 0x03F2, name: "GREEK LUNATE SIGMA SYMBOL", aliases: &["GREEK SMALL LETTER LUNATE SIGMA"] },
        Codepoint { codepoint: 0x03F3, name: "GREEK LETTER YOT", aliases: &[] },
        Codepoint { codepoint: 0x03F4, name: "GREEK CAPITAL THETA SYMBOL", aliases: &[] },
        Codepoint { codepoint: 0x03F5, name: "GREEK LUNATE EPSILON SYMBOL", aliases: &[] },
        Codepoint { codepoint: 0x03F6, name: "GREEK REVERSED LUNATE EPSILON SYMBOL", aliases: &[] },
        Codepoint { codepoint: 0x03F7, name: "GREEK CAPITAL LETTER SHO", aliases: &[] },
        Codepoint { codepoint: 0x03F8, name: "GREEK SMALL LETTER SHO", aliases: &[] },
        Codepoint { codepoint: 0x03F9, name: "GREEK CAPITAL LUNATE SIGMA SYMBOL", aliases: &[] },
        Codepoint { codepoint: 0x03FA, name: "GREEK CAPITAL LETTER SAN", aliases: &[] },
        Codepoint { codepoint: 0x03FB, name: "GREEK SMALL LETTER SAN", aliases: &[] },
        Codepoint { codepoint: 0x03FC, name: "GREEK RHO WITH STROKE SYMBOL", aliases: &[] },
        Codepoint { codepoint: 0x03FD, name: "GREEK CAPITAL REVERSED LUNATE SIGMA SYMBOL", aliases: &[] },
        Codepoint { codepoint: 0x03FE, name: "GREEK CAPITAL DOTTED LUNATE SIGMA SYMBOL", aliases: &[] },
        Codepoint { codepoint: 0x03FF, name: "GREEK CAPITAL REVERSED DOTTED LUNATE SIGMA SYMBOL", aliases: &[] },
        Codepoint { codepoint: 0x0400, name: "CYRILLIC CAPITAL LETTER IE WITH GRAVE", aliases: &[] },
        Codepoint { codepoint: 0x0401, name: "CYRILLIC CAPITAL LETTER IO", aliases: &[] },
        Codepoint { codepoint: 0x0402, name: "CYRILLIC CAPITAL LETTER DJE", aliases: &[] },
        Codepoint { codepoint: 0x0403, name: "CYRILLIC CAPITAL LETTER GJE", aliases: &[] },
        Codepoint { codepoint: 0x0404, name: "CYRILLIC CAPITAL LETTER UKRAINIAN IE", aliases: &["CYRILLIC CAPITAL LETTER E"] },
        Codepoint { codepoint: 0x0405, name: "CYRILLIC CAPITAL LETTER DZE", aliases: &[] },
        Codepoint { codepoint: 0x0406, name: "CYRILLIC CAPITAL LETTER BYELORUSSIAN-UKRAINIAN I", aliases: &["CYRILLIC CAPITAL LETTER I"] },
        Codepoint { codepoint: 0x0407, name: "CYRILLIC CAPITAL LETTER YI", aliases: &[] },
        Codepoint { codepoint: 0x0408, name: "CYRILLIC CAPITAL LETTER JE", aliases: &[] },
        Codepoint { codepoint: 0x0409, name: "CYRILLIC CAPITAL LETTER LJE", aliases: &[] },
        Codepoint { codepoint: 0x040A, name: "CYRILLIC CAPITAL LETTER NJE", aliases: &[] },
        Codepoint { codepoint: 0x040B, name: "CYRILLIC CAPITAL LETTER TSHE", aliases: &[] },
        Codepoint { codepoint: 0x040C, name: "CYRILLIC CAPITAL LETTER KJE", aliases: &[] },
        Codepoint { codepoint: 0x040D, name: "CYRILLIC CAPITAL LETTER I WITH GRAVE", aliases: &[] },
        Codepoint { codepoint: 0x040E, name: "CYRILLIC CAPITAL LETTER SHORT U", aliases: &[] },
        Codepoint { codepoint: 0x040F, name: "CYRILLIC CAPITAL LETTER DZHE", aliases: &[] },
        Codepoint { codepoint: 0x0410, name: "CYRILLIC CAPITAL LETTER A", aliases: &[] },
        Codepoint { codepoint: 0x0411, name: "CYRILLIC CAPITAL LETTER BE", aliases: &[] },
        Codepoint { codepoint: 0x0412, name: "CYRILLIC CAPITAL LETTER VE", aliases: &[] },
        Codepoint { codepoint: 0x0413, name: "CYRILLIC CAPITAL LETTER GHE", aliases: &["CYRILLIC CAPITAL LETTER GE"] },
        Codepoint { codepoint: 0x0414, name: "CYRILLIC CAPITAL LETTER DE", aliases: &[] },
        Codepoint { codepoint: 0x0415, name: "CYRILLIC CAPITAL LETTER IE", aliases: &[] },
        Codepoint { codepoint: 0x0416, name: "CYRILLIC CAPITAL LETTER ZHE", aliases: &[] },
        Codepoint { codepoint: 0x0417, name: "CYRILLIC CAPITAL LETTER ZE", aliases: &[] },
        Codepoint { codepoint: 0x0418, name: "CYRILLIC CAPITAL LETTER I", aliases: &["CYRILLIC CAPITAL LETTER II"] },
    ];
    assert(v@ =~= codepoint_table_25());
    v
}

pub open spec fn codepoint_table_26() -> Seq<Codepoint> {
    seq![
        Codepoint { codepoint: 0x0419, name: "CYRILLIC CAPITAL LETTER SHORT I", aliases: &["CYRILLIC CAPITAL LETTER SHORT II"] },
        Codepoint { codepoint: 0x041A, name: "CYRILLIC CAPITAL LETTER KA", aliases: &[] },
        Codepoint { codepoint: 0x041B, name: "CYRILLIC CAPITAL LETTER EL", aliases: &[] },
        Codepoint { codepoint: 0x041C, name: "CYRILLIC CAPITAL LETTER EM", aliases: &[] },
        Codepoint { codepoint: 0x041D, name: "CYRILLIC CAPITAL LETTER EN", aliases: &[] },
        Codepoint { codepoint: 0x041E, name: "CYRILLIC CAPITAL LETTER O", aliases: &[] },
        Codepoint { codepoint: 0x041F, name: "CYRILLIC CAPITAL LETTER PE", aliases: &[] },
        Codepoint { codepoint: 0x0420, name: "CYRILLIC CAPITAL LETTER ER", aliases: &[] },
        Codepoint { codepoint: 0x0421, name: "CYRILLIC CAPITAL LETTER ES", aliases: &[] },
        Codepoint { codepoint: 0x0422, name: "CYRILLIC CAPITAL LETTER TE", aliases: &[] },
        Codepoint { codepoint: 0x0423, name: "CYRILLIC CAPITAL LETTER U", aliases: &[] },
        Codepoint { codepoint: 0x0424, name: "CYRILLIC CAPITAL LETTER EF", aliases: &[] },
        Codepoint { codepoint: 0x0425, name: "CYRILLIC CAPITAL LETTER HA", aliases: &["CYRILLIC CAPITAL LETTER KHA"] },
        Codepoint { codepoint: 0x0426, name: "CYRILLIC CAPITAL LETTER TSE", aliases: &[] },
        Codepoint { codepoint: 0x0427, name: "CYRILLIC CAPITAL LETTER CHE", aliases: &[] },
        Codepoint { codepoint: 0x0428, name: "CYRILLIC CAPITAL LETTER SHA", aliases: &[] },
        Codepoint { codepoint: 0x0429, name: "CYRILLIC CAPITAL LETTER SHCHA", aliases: &[] },
        Codepoint { codepoint: 0x042A, name: "CYRILLIC CAPITAL LETTER HARD SIGN", aliases: &[] },
        Codepoint { codepoint: 0x042B, name: "CYRILLIC CAPITAL LETTER YERU", aliases: &["CYRILLIC CAPITAL LETTER YERI"] },
        Codepoint { codepoint: 0x042C, name: "CYRILLIC CAPITAL LETTER SOFT SIGN", aliases: &[] },
        Codepoint { codepoint: 0x042D, name: "CYRILLIC CAPITAL LETTER E", aliases: &["CYRILLIC CAPITAL LETTER REVERSED E"] },
        Codepoint { codepoint: 0x042E, name: "CYRILLIC CAPITAL LETTER YU", aliases: &["CYRILLIC CAPITAL LETTER IU"] },
        Codepoint { codepoint: 0x042F, name: "CYRILLIC CAPITAL LETTER YA", aliases: &["CYRILLIC CAPITAL LETTER IA"] },
        Codepoint { codepoint: 0x0430, name: "CYRILLIC SMALL LETTER A", aliases: &[] },
        Codepoint { codepoint: 0x0431, name: "CYRILLIC SMALL LETTER BE", aliases: &[] },
        Codepoint { codepoint: 0x0432, name: "CYRILLIC SMALL LETTER VE", aliases: &[] },
        Codepoint { codepoint: 0x0433, name: "CYRILLIC SMALL LETTER GHE", aliases: &["CYRILLIC SMALL LETTER GE"] },
        Codepoint { codepoint: 0x0434, name: "CYRILLIC SMALL LETTER DE", aliases: &[] },
        Codepoint { codepoint: 0x0435, name: "CYRILLIC SMALL LETTER IE", aliases: &[] },
        Codepoint { codepoint: 0x0436, name: "CYRILLIC SMALL LETTER ZHE", aliases: &[] },
        Codepoint { codepoint: 0x0437, name: "CYRILLIC SMALL LETTER ZE", aliases: &[] },
        Codepoint { codepoint: 0x0438, name: "CYRILLIC SMALL LETTER I", aliases: &["CYRILLIC SMALL LETTER II"] },
        Codepoint { codepoint: 0x0439, name: "CYRILLIC SMALL LETTER SHORT I", aliases: &["CYRILLIC SMALL LETTER SHORT II"] },
        Codepoint { codepoint: 0x043A, name: "CYRILLIC SMALL LETTER KA", aliases: &[] },
        Codepoint { codepoint: 0x043B, name: "CYRILLIC SMALL LETTER EL", aliases: &[] },
        Codepoint { codepoint: 0x043C, name: "CYRILLIC SMALL LETTER EM", aliases: &[] },
        Codepoint { codepoint: 0x043D, name: "CYRILLIC SMALL LETTER EN", aliases: &[] },
        Codepoint { codepoint: 0x043E, name: "CYRILLIC SMALL LETTER O", aliases: &[] },
        Codepoint { codepoint: 0x043F, name: "CYRILLIC SMALL LETTER PE", aliases: &[] },
        Codepoint { codepoint: 0x0440, name: "CYRILLIC SMALL LETTER ER", aliases: &[] },
    ]
}

fn all_codepoints_26() -> (v: Vec<Codepoint>)
    ensures
        v@ == codepoint_table_26(),
{
    let v = vec![
        Codepoint { codepoint: 0x0419, name: "CYRILLIC CAPITAL LETTER SHORT I", aliases: &["CYRILLIC CAPITAL LETTER SHORT II"] },
        Codepoint { codepoint: 0x041A, name: "CYRILLIC CAPITAL LETTER KA", aliases: &[] },
        Codepoint { codepoint: 0x041B, name: "CYRILLIC CAPITAL LETTER EL", aliases: &[] },
        Codepoint { codepoint: 0x041C, name: "CYRILLIC CAPITAL LETTER EM", aliases: &[] },
        Codepoint { codepoint: 0x041D, name: "CYRILLIC CAPITAL LETTER EN", aliases: &[] },
        Codepoint { codepoint: 0x041E, name: "CYRILLIC CAPITAL LETTER O", aliases: &[] },
        Codepoint { codepoint: 0x041F, name: "CYRILLIC CAPITAL LETTER PE", aliases: &[] },
        Codepoint { codepoint: 0x0420, name: "CYRILLIC CAPITAL LETTER ER", aliases: &[] },
        Codepoint { codepoint: 0x0421, name: "CYRILLIC CAPITAL LETTER ES", aliases: &[] },
        Codepoint { codepoint: 0x0422, name: "CYRILLIC CAPITAL LETTER TE", aliases: &[] },
        Codepoint { codepoint: 0x0423, name: "CYRILLIC CAPITAL LETTER U", aliases: &[] },
        Codepoint { codepoint: 0x0424, name: "CYRILLIC CAPITAL LETTER EF", aliases: &[] },
        Codepoint { codepoint: 0x0425, name: "CYRILLIC CAPITAL LETTER HA", aliases: &["CYRILLIC CAPITAL LETTER KHA"] },
        Codepoint { codepoint: 0x0426, name: "CYRILLIC CAPITAL LETTER TSE", aliases: &[] },
        Codepoint { codepoint: 0x0427, name: "CYRILLIC CAPITAL LETTER CHE", aliases: &[] },
        Codepoint { codepoint: 0x0428, name: "CYRILLIC CAPITAL LETTER SHA", aliases: &[] },
        Codepoint { codepoint: 0x0429, name: "CYRILLIC CAPITAL LETTER SHCHA", aliases: &[] },
        Codepoint { codepoint: 0x042A, name: "CYRILLIC CAPITAL LETTER HARD SIGN", aliases: &[] },
        Codepoint { codepoint: 0x042B, name: "CYRILLIC CAPITAL LETTER YERU", aliases: &["CYRILLIC CAPITAL LETTER YERI"] },
        Codepoint { codepoint: 0x042C, name: "CYRILLIC CAPITAL LETTER SOFT SIGN", aliases: &[] },
        Codepoint { codepoint: 0x042D, name: "CYRILLIC CAPITAL LETTER E", aliases: &["CYRILLIC CAPITAL LETTER REVERSED E"] },
        Codepoint { codepoint: 0x042E, name: "CYRILLIC CAPITAL LETTER YU", aliases: &["CYRILLIC CAPITAL LETTER IU"] },
        Codepoint { codepoint: 0x042F, name: "CYRILLIC CAPITAL LETTER YA", aliases: &["CYRILLIC CAPITAL LETTER IA"] },
        Codepoint { codepoint: 0x0430, name: "CYRILLIC SMALL LETTER A", aliases: &[] },
        Codepoint { codepoint: 0x0431, name: "CYRILLIC SMALL LETTER BE", aliases: &[] },
        Codepoint { codepoint: 0x0432, name: "CYRILLIC SMALL LETTER VE", aliases: &[] },
        Codepoint { codepoint: 0x0433, name: "CYRILLIC SMALL LETTER GHE", aliases: &["CYRILLIC SMALL LETTER GE"] },
        Codepoint { codepoint: 0x0434, name: "CYRILLIC SMALL LETTER DE", aliases: &[] },
        Codepoint { codepoint: 0x0435, name: "CYRILLIC SMALL LETTER IE", aliases: &[] },
        Codepoint { codepoint: 0x0436, name: "CYRILLIC SMALL LETTER ZHE", aliases: &[] },
        Codepoint { codepoint: 0x0437, name: "CYRILLIC SMALL LETTER ZE", aliases: &[] },
        Codepoint { codepoint: 0x0438, name: "CYRILLIC SMALL LETTER I", aliases: &["CYRILLIC SMALL LETTER II"] },
        Codepoint { codepoint: 0x0439, name: "CYRILLIC SMALL LETTER SHORT I", aliases: &["CYRILLIC SMALL LETTER SHORT II"] },
        Codepoint { codepoint: 0x043A, name: "CYRILLIC SMALL LETTER KA", aliases: &[] },
        Codepoint { codepoint: 0x043B, name: "CYRILLIC SMALL LETTER EL", aliases: &[] },
        Codepoint { codepoint: 0x043C, name: "CYRILLIC SMALL LETTER EM", aliases: &[] },
        Codepoint { codepoint: 0x043D, name: "CYRILLIC SMALL LETTER EN", aliases: &[] },
        Codepoint { codepoint: 0x043E, name: "CYRILLIC SMALL LETTER O", aliases: &[] },
        Codepoint { codepoint: 0x043F, name: "CYRILLIC SMALL LETTER PE", aliases: &[] },
        Codepoint { codepoint: 0x0440, name: "CYRILLIC SMALL LETTER ER", aliases: &[] },
    ];
    assert(v@ =~= codepoint_table_26());
    v
}

pub open spec fn codepoint_table_27() -> Seq<Codepoint> {
    seq![
        Codepoint { codepoint: 0x0441, name: "CYRILLIC SMALL LETTER ES", aliases: &[] },
        Codepoint { codepoint: 0x0442, name: "CYRILLIC SMALL LETTER TE", aliases: &[] },
        Codepoint { codepoint: 0x0443, name: "CYRILLIC SMALL LETTER U", aliases: &[] },
        Codepoint { codepoint: 0x0444, name: "CYRILLIC SMALL LETTER EF", aliases: &[] },
        Codepoint { codepoint: 0x0445, name: "CYRILLIC SMALL LETTER HA", aliases: &["CYRILLIC SMALL LETTER KHA"] },
        Codepoint { codepoint: 0x0446, name: "CYRILLIC SMALL LETTER TSE", aliases: &[] },
        Codepoint { codepoint: 0x0447, name: "CYRILLIC SMALL LETTER CHE", aliases: &[] },
        Codepoint { codepoint: 0x0448, name: "CYRILLIC SMALL LETTER SHA", aliases: &[] },
        Codepoint { codepoint: 0x0449, name: "CYRILLIC SMALL LETTER SHCHA", aliases: &[] },
        Codepoint { codepoint: 0x044A, name: "CYRILLIC SMALL LETTER HARD SIGN", aliases: &[] },
        Codepoint { codepoint: 0x044B, name: "CYRILLIC SMALL LETTER YERU", aliases: &["CYRILLIC SMALL LETTER YERI"] },
        Codepoint { codepoint: 0x044C, name: "CYRILLIC SMALL LETTER SOFT SIGN", aliases: &[] },
        Codepoint { codepoint: 0x044D, name: "CYRILLIC SMALL LETTER E", aliases: &["CYRILLIC SMALL LETTER REVERSED E"] },
        Codepoint { codepoint: 0x044E, name: "CYRILLIC SMALL LETTER YU", aliases: &["CYRILLIC SMALL LETTER IU"] },
        Codepoint { codepoint: 0x044F, name: "CYRILLIC SMALL LETTER YA", aliases: &["CYRILLIC SMALL LETTER IA"] },
        Codepoint { codepoint: 0x0450, name: "CYRILLIC SMALL LETTER IE WITH GRAVE", aliases: &[] },
        Codepoint { codepoint: 0x0451, name: "CYRILLIC SMALL LETTER IO", aliases: &[] },
        Codepoint { codepoint: 0x0452, name: "CYRILLIC SMALL LETTER DJE", aliases: &[] },
        Codepoint { codepoint: 0x0453, name: "CYRILLIC SMALL LETTER GJE", aliases: &[] },
        Codepoint { codepoint: 0x0454, name: "CYRILLIC SMALL LETTER UKRAINIAN IE", aliases: &["CYRILLIC SMALL LETTER E"] },
        Codepoint { codepoint: 0x0455, name: "CYRILLIC SMALL LETTER DZE", aliases: &[] },
        Codepoint { codepoint: 0x0456, name: "CYRILLIC SMALL LETTER BYELORUSSIAN-UKRAINIAN I", aliases: &["CYRILLIC SMALL LETTER I"] },
        Codepoint { codepoint: 0x0457, name: "CYRILLIC SMALL LETTER YI", aliases: &[] },
        Codepoint { codepoint: 0x0458, name: "CYRILLIC SMALL LETTER JE", aliases: &[] },
        Codepoint { codepoint: 0x0459, name: "CYRILLIC SMALL LETTER LJE", aliases: &[] },
        Codepoint { codepoint: 0x045A, name: "CYRILLIC SMALL LETTER NJE", aliases: &[] },
        Codepoint { codepoint: 0x045B, name: "CYRILLIC SMALL LETTER TSHE", aliases: &[] },
        Codepoint { codepoint: 0x045C, name: "CYRILLIC SMALL LETTER KJE", aliases: &[] },
        Codepoint { codepoint: 0x045D, name: "CYRILLIC SMALL LETTER I WITH GRAVE", aliases: &[] },
        Codepoint { codepoint: 0x045E, name: "CYRILLIC SMALL LETTER SHORT U", aliases: &[] },
        Codepoint { codepoint: 0x045F, name: "CYRILLIC SMALL LETTER DZHE", aliases: &[] },
        Codepoint { codepoint: 0x0460, name: "CYRILLIC CAPITAL LETTER OMEGA", aliases: &[] },
        Codepoint { codepoint: 0x0461, name: "CYRILLIC SMALL LETTER OMEGA", aliases: &[] },
        Codepoint { codepoint: 0x0462, name: "CYRILLIC CAPITAL LETTER YAT", aliases: &[] },
        Codepoint { codepoint: 0x0463, name: "CYRILLIC SMALL LETTER YAT", aliases: &[] },
        Codepoint { codepoint: 0x0464, name: "CYRILLIC CAPITAL LETTER IOTIFIED E", aliases: &[] },
        Codepoint { codepoint: 0x0465, name: "CYRILLIC SMALL LETTER IOTIFIED E", aliases: &[] },
        Codepoint { codepoint: 0x0466, name: "CYRILLIC CAPITAL LETTER LITTLE YUS", aliases: &[] },
        Codepoint { codepoint: 0x0467, name: "CYRILLIC SMALL LETTER LITTLE YUS", aliases: &[] },
        Codepoint { codepoint: 0x0468, name: "CYRILLIC CAPITAL LETTER IOTIFIED LITTLE YUS", aliases: &[] },
    ]
}

fn all_codepoints_27() -> (v: Vec<Codepoint>)
    ensures
        v@ == codepoint_table_27(),
{
    let v = vec![
        Codepoint { codepoint: 0x0441, name: "CYRILLIC SMALL LETTER ES", aliases: &[] },
        Codepoint { codepoint: 0x0442, name: "CYRILLIC SMALL LETTER TE", aliases: &[] },
        Codepoint { codepoint: 0x0443, name: "CYRILLIC SMALL LETTER U", aliases: &[] },
        Codepoint { codepoint: 0x0444, name: "CYRILLIC SMALL LETTER EF", aliases: &[] },
        Codepoint { codepoint: 0x0445, name: "CYRILLIC SMALL LETTER HA", aliases: &["CYRILLIC SMALL LETTER KHA"] },
        Codepoint { codepoint: 0x0446, name: "CYRILLIC SMALL LETTER TSE", aliases: &[] },
        Codepoint { codepoint: 0x0447, name: "CYRILLIC SMALL LETTER CHE", aliases: &[] },
        Codepoint { codepoint: 0x0448, name: "CYRILLIC SMALL LETTER SHA", aliases: &[] },
        Codepoint { codepoint: 0x0449, name: "CYRILLIC SMALL LETTER SHCHA", aliases: &[] },
        Codepoint { codepoint: 0x044A, name: "CYRILLIC SMALL LETTER HARD SIGN", aliases: &[] },
        Codepoint { codepoint: 0x044B, name: "CYRILLIC SMALL LETTER YERU", aliases: &["CYRILLIC SMALL LETTER YERI"] },
        Codepoint { codepoint: 0x044C, name: "CYRILLIC SMALL LETTER SOFT SIGN", aliases: &[] },
        Codepoint { codepoint: 0x044D, name: "CYRILLIC SMALL LETTER E", aliases: &["CYRILLIC SMALL LETTER REVERSED E"] },
        Codepoint { codepoint: 0x044E, name: "CYRILLIC SMALL LETTER YU", aliases: &["CYRILLIC SMALL LETTER IU"] },
        Codepoint { codepoint: 0x044F, name: "CYRILLIC SMALL LETTER YA", aliases: &["CYRILLIC SMALL LETTER IA"] },
        Codepoint { codepoint: 0x0450, name: "CYRILLIC SMALL LETTER IE WITH GRAVE", aliases: &[] },
        Codepoint { codepoint: 0x0451, name: "CYRILLIC SMALL LETTER IO", aliases: &[] },
        Codepoint { codepoint: 0x0452, name: "CYRILLIC SMALL LETTER DJE", aliases: &[] },
        Codepoint { codepoint: 0x0453, name: "CYRILLIC SMALL LETTER GJE", aliases: &[] },
        Codepoint { codepoint: 0x0454, name: "CYRILLIC SMALL LETTER UKRAINIAN IE", aliases: &["CYRILLIC SMALL LETTER E"] },
        Codepoint { codepoint: 0x0455, name: "CYRILLIC SMALL LETTER DZE", aliases: &[] },
        Codepoint { codepoint: 0x0456, name: "CYRILLIC SMALL LETTER BYELORUSSIAN-UKRAINIAN I", aliases: &["CYRILLIC SMALL LETTER I"] },
        Codepoint { codepoint: 0x0457, name: "CYRILLIC SMALL LETTER YI", aliases: &[] },
        Codepoint { codepoint: 0x0458, name: "CYRILLIC SMALL LETTER JE", aliases: &[] },
        Codepoint { codepoint: 0x0459, name: "CYRILLIC SMALL LETTER LJE", aliases: &[] },
        Codepoint { codepoint: 0x045A, name: "CYRILLIC SMALL LETTER NJE", aliases: &[] },
        Codepoint { codepoint: 0x045B, name: "CYRILLIC SMALL LETTER TSHE", aliases: &[] },
        Codepoint { codepoint: 0x045C, name: "CYRILLIC SMALL LETTER KJE", aliases: &[] },
        Codepoint { codepoint: 0x045D, name: "CYRILLIC SMALL LETTER I WITH GRAVE", aliases: &[] },
        Codepoint { codepoint: 0x045E, name: "CYRILLIC SMALL LETTER SHORT U", aliases: &[] },
        Codepoint { codepoint: 0x045F, name: "CYRILLIC SMALL LETTER DZHE", aliases: &[] },
        Codepoint { codepoint: 0x0460, name: "CYRILLIC CAPITAL LETTER OMEGA", aliases: &[] },
        Codepoint { codepoint: 0x0461, name: "CYRILLIC SMALL LETTER OMEGA", aliases: &[] },
        Codepoint { codepoint: 0x0462, name: "CYRILLIC CAPITAL LETTER YAT", aliases: &[] },
        Codepoint { codepoint: 0x0463, name: "CYRILLIC SMALL LETTER YAT", aliases: &[] },
        Codepoint { codepoint: 0x0464, name: "CYRILLIC CAPITAL LETTER IOTIFIED E", aliases: &[] },
        Codepoint { codepoint: 0x0465, name: "CYRILLIC SMALL LETTER IOTIFIED E", aliases: &[] },
        Codepoint { codepoint: 0x0466, name: "CYRILLIC CAPITAL LETTER LITTLE YUS", aliases: &[] },
        Codepoint { codepoint: 0x0467, name: "CYRILLIC SMALL LETTER LITTLE YUS", aliases: &[] },
        Codepoint { codepoint: 0x0468, name: "CYRILLIC CAPITAL LETTER IOTIFIED LITTLE YUS", aliases: &[] },
    ];
    assert(v@ =~= codepoint_table_27());
    v
}

pub open spec fn codepoint_table_28() -> Seq<Codepoint> {
    seq![
        Codepoint { codepoint: 0x0469, name: "CYRILLIC SMALL LETTER IOTIFIED LITTLE YUS", aliases: &[] },
        Codepoint { codepoint: 0x046A, name: "CYRILLIC CAPITAL LETTER BIG YUS", aliases: &[] },
        Codepoint { codepoint: 0x046B, name: "CYRILLIC SMALL LETTER BIG YUS", aliases: &[] },
        Codepoint { codepoint: 0x046C, name: "CYRILLIC CAPITAL LETTER IOTIFIED BIG YUS", aliases: &[] },
        Codepoint { codepoint: 0x046D, name: "CYRILLIC SMALL LETTER IOTIFIED BIG YUS", aliases: &[] },
        Codepoint { codepoint: 0x046E, name: "CYRILLIC CAPITAL LETTER KSI", aliases: &[] },
        Codepoint { codepoint: 0x046F, name: "CYRILLIC SMALL LETTER KSI", aliases: &[] },
        Codepoint { codepoint: 0x0470, name: "CYRILLIC CAPITAL LETTER PSI", aliases: &[] },
        Codepoint { codepoint: 0x0471, name: "CYRILLIC SMALL LETTER PSI", aliases: &[] },
        Codepoint { codepoint: 0x0472, name: "CYRILLIC CAPITAL LETTER FITA", aliases: &[] },
        Codepoint { codepoint: 0x0473, name: "CYRILLIC SMALL LETTER FITA", aliases: &[] },
        Codepoint { codepoint: 0x0474, name: "CYRILLIC CAPITAL LETTER IZHITSA", aliases: &[] },
        Codepoint { codepoint: 0x0475, name: "CYRILLIC SMALL LETTER IZHITSA", aliases: &[] },
        Codepoint { codepoint: 0x0476, name: "CYRILLIC CAPITAL LETTER IZHITSA WITH DOUBLE GRAVE ACCENT", aliases: &["CYRILLIC CAPITAL LETTER IZHITSA DOUBLE GRAVE"] },
        Codepoint { codepoint: 0x0477, name: "CYRILLIC SMALL LETTER IZHITSA WITH DOUBLE GRAVE ACCENT", aliases: &["CYRILLIC SMALL LETTER IZHITSA DOUBLE GRAVE"] },
        Codepoint { codepoint: 0x0478, name: "CYRILLIC CAPITAL LETTER UK", aliases: &["CYRILLIC CAPITAL LETTER UK DIGRAPH"] },
        Codepoint { codepoint: 0x0479, name: "CYRILLIC SMALL LETTER UK", aliases: &["CYRILLIC SMALL LETTER UK DIGRAPH"] },
        Codepoint { codepoint: 0x047A, name: "CYRILLIC CAPITAL LETTER ROUND OMEGA", aliases: &[] },
        Codepoint { codepoint: 0x047B, name: "CYRILLIC SMALL LETTER ROUND OMEGA", aliases: &[] },
        Codepoint { codepoint: 0x047C, name: "CYRILLIC CAPITAL LETTER OMEGA WITH TITLO", aliases: &["CYRILLIC CAPITAL LETTER OMEGA TITLO"] },
        Codepoint { codepoint: 0x047D, name: "CYRILLIC SMALL LETTER OMEGA WITH TITLO", aliases: &["CYRILLIC SMALL LETTER OMEGA TITLO"] },
        Codepoint { codepoint: 0x047E, name: "CYRILLIC CAPITAL LETTER OT", aliases: &[] },
        Codepoint { codepoint: 0x047F, name: "CYRILLIC SMALL LETTER OT", aliases: &[] },
        Codepoint { codepoint: 0x0480, name: "CYRILLIC CAPITAL LETTER KOPPA", aliases: &[] },
        Codepoint { codepoint: 0x0481, name: "CYRILLIC SMALL LETTER KOPPA", aliases: &[] },
        Codepoint { codepoint: 0x0482, name: "CYRILLIC THOUSANDS SIGN", aliases: &[] },
        Codepoint { codepoint: 0x0483, name: "COMBINING CYRILLIC TITLO", aliases: &["CYRILLIC NON-SPACING TITLO"] },
        Codepoint { codepoint: 0x0484, name: "COMBINING CYRILLIC PALATALIZATION", aliases: &["CYRILLIC NON-SPACING PALATALIZATION"] },
        Codepoint { codepoint: 0x0485, name: "COMBINING CYRILLIC DASIA PNEUMATA", aliases: &["CYRILLIC NON-SPACING DASIA PNEUMATA"] },
        Codepoint { codepoint: 0x0486, name: "COMBINING CYRILLIC PSILI PNEUMATA", aliases: &["CYRILLIC NON-SPACING PSILI PNEUMATA"] },
        Codepoint { codepoint: 0x0487, name: "COMBINING CYRILLIC POKRYTIE", aliases: &[] },
        Codepoint { codepoint: 0x0488, name: "COMBINING CYRILLIC HUNDRED THOUSANDS SIGN", aliases: &[] },
        Codepoint { codepoint: 0x0489, name: "COMBINING CYRILLIC MILLIONS SIGN", aliases: &[] },
        Codepoint { codepoint: 0x048A, name: "CYRILLIC CAPITAL LETTER SHORT I WITH TAIL", aliases: &[] },
        Codepoint { codepoint: 0x048B, name: "CYRILLIC SMALL LETTER SHORT I WITH TAIL", aliases: &[] },
        Codepoint { codepoint: 0x048C, name: "CYRILLIC CAPITAL LETTER SEMISOFT SIGN", aliases: &[] },
        Codepoint { codepoint: 0x048D, name: "CYRILLIC SMALL LETTER SEMISOFT SIGN", aliases: &[] },
        Codepoint { codepoint: 0x048E, name: "CYRILLIC CAPITAL LETTER ER WITH TICK", aliases: &[] },
        Codepoint { codepoint: 0x048F, name: "CYRILLIC SMALL LETTER ER WITH TICK", aliases: &[] },
        Codepoint { codepoint: 0x0490, name: "CYRILLIC CAPITAL LETTER GHE WITH UPTURN", aliases: &["CYRILLIC CAPITAL LETTER GE WITH UPTURN"] },
    ]
}

fn all_codepoints_28() -> (v: Vec<Codepoint>)
    ensures
        v@ == codepoint_table_28(),
{
    let v = vec![
        Codepoint { codepoint: 0x0469, name: "CYRILLIC SMALL LETTER IOTIFIED LITTLE YUS", aliases: &[] },
        Codepoint { codepoint: 0x046A, name: "CYRILLIC CAPITAL LETTER BIG YUS", aliases: &[] },
        Codepoint { codepoint: 0x046B, name: "CYRILLIC SMALL LETTER BIG YUS", aliases: &[] },
        Codepoint { codepoint: 0x046C, name: "CYRILLIC CAPITAL LETTER IOTIFIED BIG YUS", aliases: &[] },
        Codepoint { codepoint: 0x046D, name: "CYRILLIC SMALL LETTER IOTIFIED BIG YUS", aliases: &[] },
        Codepoint { codepoint: 0x046E, name: "CYRILLIC CAPITAL LETTER KSI", aliases: &[] },
        Codepoint { codepoint: 0x046F, name: "CYRILLIC SMALL LETTER KSI", aliases: &[] },
        Codepoint { codepoint: 0x0470, name: "CYRILLIC CAPITAL LETTER PSI", aliases: &[] },
        Codepoint { codepoint: 0x0471, name: "CYRILLIC SMALL LETTER PSI", aliases: &[] },
        Codepoint { codepoint: 0x0472, name: "CYRILLIC CAPITAL LETTER FITA", aliases: &[] },
        Codepoint { codepoint: 0x0473, name: "CYRILLIC SMALL LETTER FITA", aliases: &[] },
        Codepoint { codepoint: 0x0474, name: "CYRILLIC CAPITAL LETTER IZHITSA", aliases: &[] },
        Codepoint { codepoint: 0x0475, name: "CYRILLIC SMALL LETTER IZHITSA", aliases: &[] },
        Codepoint { codepoint: 0x0476, name: "CYRILLIC CAPITAL LETTER IZHITSA WITH DOUBLE GRAVE ACCENT", aliases: &["CYRILLIC CAPITAL LETTER IZHITSA DOUBLE GRAVE"] },
        Codepoint { codepoint: 0x0477, name: "CYRILLIC SMALL LETTER IZHITSA WITH DOUBLE GRAVE ACCENT", aliases: &["CYRILLIC SMALL LETTER IZHITSA DOUBLE GRAVE"] },
        Codepoint { codepoint: 0x0478, name: "CYRILLIC CAPITAL LETTER UK", aliases: &["CYRILLIC CAPITAL LETTER UK DIGRAPH"] },
        Codepoint { codepoint: 0x0479, name: "CYRILLIC SMALL LETTER UK", aliases: &["CYRILLIC SMALL LETTER UK DIGRAPH"] },
        Codepoint { codepoint: 0x047A, name: "CYRILLIC CAPITAL LETTER ROUND OMEGA", aliases: &[] },
        Codepoint { codepoint: 0x047B, name: "CYRILLIC SMALL LETTER ROUND OMEGA", aliases: &[] },
        Codepoint { codepoint: 0x047C, name: "CYRILLIC CAPITAL LETTER OMEGA WITH TITLO", aliases: &["CYRILLIC CAPITAL LETTER OMEGA TITLO"] },
        Codepoint { codepoint: 0x047D, name: "CYRILLIC SMALL LETTER OMEGA WITH TITLO", aliases: &["CYRILLIC SMALL LETTER OMEGA TITLO"] },
        Codepoint { codepoint: 0x047E, name: "CYRILLIC CAPITAL LETTER OT", aliases: &[] },
        Codepoint { codepoint: 0x047F, name: "CYRILLIC SMALL LETTER OT", aliases: &[] },
        Codepoint { codepoint: 0x0480, name: "CYRILLIC CAPITAL LETTER KOPPA", aliases: &[] },
        Codepoint { codepoint: 0x0481, name: "CYRILLIC SMALL LETTER KOPPA", aliases: &[] },
        Codepoint { codepoint: 0x0482, name: "CYRILLIC THOUSANDS SIGN", aliases: &[] },
        Codepoint { codepoint: 0x0483, name: "COMBINING CYRILLIC TITLO", aliases: &["CYRILLIC NON-SPACING TITLO"] },
        Codepoint { codepoint: 0x0484, name: "COMBINING CYRILLIC PALATALIZATION", aliases: &["CYRILLIC NON-SPACING PALATALIZATION"] },
        Codepoint { codepoint: 0x0485, name: "COMBINING CYRILLIC DASIA PNEUMATA", aliases: &["CYRILLIC NON-SPACING DASIA PNEUMATA"] },
        Codepoint { codepoint: 0x0486, name: "COMBINING CYRILLIC PSILI PNEUMATA", aliases: &["CYRILLIC NON-SPACING PSILI PNEUMATA"] },
        Codepoint { codepoint: 0x0487, name: "COMBINING CYRILLIC POKRYTIE", aliases: &[] },
        Codepoint { codepoint: 0x0488, name: "COMBINING CYRILLIC HUNDRED THOUSANDS SIGN", aliases: &[] },
        Codepoint { codepoint: 0x0489, name: "COMBINING CYRILLIC MILLIONS SIGN", aliases: &[] },
        Codepoint { codepoint: 0x048A, name: "CYRILLIC CAPITAL LETTER SHORT I WITH TAIL", aliases: &[] },
        Codepoint { codepoint: 0x048B, name: "CYRILLIC SMALL LETTER SHORT I WITH TAIL", aliases: &[] },
        Codepoint { codepoint: 0x048C, name: "CYRILLIC CAPITAL LETTER SEMISOFT SIGN", aliases: &[] },
        Codepoint { codepoint: 0x048D, name: "CYRILLIC SMALL LETTER SEMISOFT SIGN", aliases: &[] },
        Codepoint { codepoint: 0x048E, name: "CYRILLIC CAPITAL LETTER ER WITH TICK", aliases: &[] },
        Codepoint { codepoint: 0x048F, name: "CYRILLIC SMALL LETTER ER WITH TICK", aliases: &[] },
        Codepoint { codepoint: 0x0490, name: "CYRILLIC CAPITAL LETTER GHE WITH UPTURN", aliases: &["CYRILLIC CAPITAL LETTER GE WITH UPTURN"] },
    ];
    assert(v@ =~= codepoint_table_28());
    v
}

pub open spec fn codepoint_table_29() -> Seq<Codepoint> {
    seq![
        Codepoint { codepoint: 0x0491, name: "CYRILLIC SMALL LETTER GHE WITH UPTURN", aliases: &["CYRILLIC SMALL LETTER GE WITH UPTURN"] },
        Codepoint { codepoint: 0x0492, name: "CYRILLIC CAPITAL LETTER GHE WITH STROKE", aliases: &["CYRILLIC CAPITAL LETTER GE BAR"] },
        Codepoint { codepoint: 0x0493, name: "CYRILLIC SMALL LETTER GHE WITH STROKE", aliases: &["CYRILLIC SMALL LETTER GE BAR"] },
        Codepoint { codepoint: 0x0494, name: "CYRILLIC CAPITAL LETTER GHE WITH MIDDLE HOOK", aliases: &["CYRILLIC CAPITAL LETTER GE HOOK"] },
        Codepoint { codepoint: 0x0495, name: "CYRILLIC SMALL LETTER GHE WITH MIDDLE HOOK", aliases: &["CYRILLIC SMALL LETTER GE HOOK"] },
        Codepoint { codepoint: 0x0496, name: "CYRILLIC CAPITAL LETTER ZHE WITH DESCENDER", aliases: &["CYRILLIC CAPITAL LETTER ZHE WITH RIGHT DESCENDER"] },
        Codepoint { codepoint: 0x0497, name: "CYRILLIC SMALL LETTER ZHE WITH DESCENDER", aliases: &["CYRILLIC SMALL LETTER ZHE WITH RIGHT DESCENDER"] },
        Codepoint { codepoint: 0x0498, name: "CYRILLIC CAPITAL LETTER ZE WITH DESCENDER", aliases: &["CYRILLIC CAPITAL LETTER ZE CEDILLA"] },
        Codepoint { codepoint: 0x0499, name: "CYRILLIC SMALL LETTER ZE WITH DESCENDER", aliases: &["CYRILLIC SMALL LETTER ZE CEDILLA"] },
        Codepoint { codepoint: 0x049A, name: "CYRILLIC CAPITAL LETTER KA WITH DESCENDER", aliases: &["CYRILLIC CAPITAL LETTER KA WITH RIGHT DESCENDER"] },
        Codepoint { codepoint: 0x049B, name: "CYRILLIC SMALL LETTER KA WITH DESCENDER", aliases: &["CYRILLIC SMALL LETTER KA WITH RIGHT DESCENDER"] },
        Codepoint { codepoint: 0x049C, name: "CYRILLIC CAPITAL LETTER KA WITH VERTICAL STROKE", aliases: &["CYRILLIC CAPITAL LETTER KA VERTICAL BAR"] },
        Codepoint { codepoint: 0x049D, name: "CYRILLIC SMALL LETTER KA WITH VERTICAL STROKE", aliases: &["CYRILLIC SMALL LETTER KA VERTICAL BAR"] },
        Codepoint { codepoint: 0x049E, name: "CYRILLIC CAPITAL LETTER KA WITH STROKE", aliases: &["CYRILLIC CAPITAL LETTER KA BAR"] },
        Codepoint { codepoint: 0x049F, name: "CYRILLIC SMALL LETTER KA WITH STROKE", aliases: &["CYRILLIC SMALL LETTER KA BAR"] },
        Codepoint { codepoint: 0x04A0, name: "CYRILLIC CAPITAL LETTER BASHKIR KA", aliases: &["CYRILLIC CAPITAL LETTER REVERSED GE KA"] },
        Codepoint { codepoint: 0x04A1, name: "CYRILLIC SMALL LETTER BASHKIR KA", aliases: &["CYRILLIC SMALL LETTER REVERSED GE KA"] },
        Codepoint { codepoint: 0x04A2, name: "CYRILLIC CAPITAL LETTER EN WITH DESCENDER", aliases: &["CYRILLIC CAPITAL LETTER EN WITH RIGHT DESCENDER"] },
        Codepoint { codepoint: 0x04A3, name: "CYRILLIC SMALL LETTER EN WITH DESCENDER", aliases: &["CYRILLIC SMALL LETTER EN WITH RIGHT DESCENDER"] },
        Codepoint { codepoint: 0x04A4, name: "CYRILLIC CAPITAL LIGATURE EN GHE", aliases: &["CYRILLIC CAPITAL LETTER EN GE"] },
        Codepoint { codepoint: 0x04A5, name: "CYRILLIC SMALL LIGATURE EN GHE", aliases: &["CYRILLIC SMALL LETTER EN GE"] },
        Codepoint { codepoint: 0x04A6, name: "CYRILLIC CAPITAL LETTER PE WITH MIDDLE HOOK", aliases: &["CYRILLIC CAPITAL LETTER PE HOOK"] },
        Codepoint { codepoint: 0x04A7, name: "CYRILLIC SMALL LETTER PE WITH MIDDLE HOOK", aliases: &["CYRILLIC SMALL LETTER PE HOOK"] },
        Codepoint { codepoint: 0x04A8, name: "CYRILLIC CAPITAL LETTER ABKHASIAN HA", aliases: &["CYRILLIC CAPITAL LETTER O HOOK"] },
        Codepoint { codepoint: 0x04A9, name: "CYRILLIC SMALL LETTER ABKHASIAN HA", aliases: &["CYRILLIC SMALL LETTER O HOOK"] },
        Codepoint { codepoint: 0x04AA, name: "CYRILLIC CAPITAL LETTER ES WITH DESCENDER", aliases: &["CYRILLIC CAPITAL LETTER ES CEDILLA"] },
        Codepoint { codepoint: 0x04AB, name: "CYRILLIC SMALL LETTER ES WITH DESCENDER", aliases: &["CYRILLIC SMALL LETTER ES CEDILLA"] },
        Codepoint { codepoint: 0x04AC, name: "CYRILLIC CAPITAL LETTER TE WITH DESCENDER", aliases: &["CYRILLIC CAPITAL LETTER TE WITH RIGHT DESCENDER"] },
        Codepoint { codepoint: 0x04AD, name: "CYRILLIC SMALL LETTER TE WITH DESCENDER", aliases: &["CYRILLIC SMALL LETTER TE WITH RIGHT DESCENDER"] },
        Codepoint { codepoint: 0x04AE, name: "CYRILLIC CAPITAL LETTER STRAIGHT U", aliases: &[] },
        Codepoint { codepoint: 0x04AF, name: "CYRILLIC SMALL LETTER STRAIGHT U", aliases: &[] },
        Codepoint { codepoint: 0x04B0, name: "CYRILLIC CAPITAL LETTER STRAIGHT U WITH STROKE", aliases: &["CYRILLIC CAPITAL LETTER STRAIGHT U BAR"] },
        Codepoint { codepoint: 0x04B1, name: "CYRILLIC SMALL LETTER STRAIGHT U WITH STROKE", aliases: &["CYRILLIC SMALL LETTER STRAIGHT U BAR"] },
        Codepoint { codepoint: 0x04B2, name: "CYRILLIC CAPITAL LETTER HA WITH DESCENDER", aliases: &["CYRILLIC CAPITAL LETTER KHA WITH RIGHT DESCENDER"] },
        Codepoint { codepoint: 0x04B3, name: "CYRILLIC SMALL LETTER HA WITH DESCENDER", aliases: &["CYRILLIC SMALL LETTER KHA WITH RIGHT DESCENDER"] },
        Codepoint { codepoint: 0x04B4, name: "CYRILLIC CAPITAL LIGATURE TE TSE", aliases: &["CYRILLIC CAPITAL LETTER TE TSE"] },
        Codepoint { codepoint: 0x04B5, name: "CYRILLIC SMALL LIGATURE TE TSE", aliases: &["CYRILLIC SMALL LETTER TE TSE"] },
        Codepoint { codepoint: 0x04B6, name: "CYRILLIC CAPITAL LETTER CHE WITH DESCENDER", aliases: &["CYRILLIC CAPITAL LETTER CHE WITH RIGHT DESCENDER"] },
        Codepoint { codepoint: 0x04B7, name: "CYRILLIC SMALL LETTER CHE WITH DESCENDER", aliases: &["CYRILLIC SMALL LETTER CHE WITH RIGHT DESCENDER"] },
        Codepoint { codepoint: 0x04B8, name: "CYRILLIC CAPITAL LETTER CHE WITH VERTICAL STROKE", aliases: &["CYRILLIC CAPITAL LETTER CHE VERTICAL BAR"] },
    ]
}

fn all_codepoints_29() -> (v: Vec<Codepoint>)
    ensures
        v@ == codepoint_table_29(),
{
    let v = vec![
        Codepoint { codepoint: 0x0491, name: "CYRILLIC SMALL LETTER GHE WITH UPTURN", aliases: &["CYRILLIC SMALL LETTER GE WITH UPTURN"] },
        Codepoint { codepoint: 0x0492, name: "CYRILLIC CAPITAL LETTER GHE WITH STROKE", aliases: &["CYRILLIC CAPITAL LETTER GE BAR"] },
        Codepoint { codepoint: 0x0493, name: "CYRILLIC SMALL LETTER GHE WITH STROKE", aliases: &["CYRILLIC SMALL LETTER GE BAR"] },
        Codepoint { codepoint: 0x0494, name: "CYRILLIC CAPITAL LETTER GHE WITH MIDDLE HOOK", aliases: &["CYRILLIC CAPITAL LETTER GE HOOK"] },
        Codepoint { codepoint: 0x0495, name: "CYRILLIC SMALL LETTER GHE WITH MIDDLE HOOK", aliases: &["CYRILLIC SMALL LETTER GE HOOK"] },
        Codepoint { codepoint: 0x0496, name: "CYRILLIC CAPITAL LETTER ZHE WITH DESCENDER", aliases: &["CYRILLIC CAPITAL LETTER ZHE WITH RIGHT DESCENDER"] },
        Codepoint { codepoint: 0x0497, name: "CYRILLIC SMALL LETTER ZHE WITH DESCENDER", aliases: &["CYRILLIC SMALL LETTER ZHE WITH RIGHT DESCENDER"] },
        Codepoint { codepoint: 0x0498, name: "CYRILLIC CAPITAL LETTER ZE WITH DESCENDER", aliases: &["CYRILLIC CAPITAL LETTER ZE CEDILLA"] },
        Codepoint { codepoint: 0x0499, name: "CYRILLIC SMALL LETTER ZE WITH DESCENDER", aliases: &["CYRILLIC SMALL LETTER ZE CEDILLA"] },
        Codepoint { codepoint: 0x049A, name: "CYRILLIC CAPITAL LETTER KA WITH DESCENDER", aliases: &["CYRILLIC CAPITAL LETTER KA WITH RIGHT DESCENDER"] },
        Codepoint { codepoint: 0x049B, name: "CYRILLIC SMALL LETTER KA WITH DESCENDER", aliases: &["CYRILLIC SMALL LETTER KA WITH RIGHT DESCENDER"] },
        Codepoint { codepoint: 0x049C, name: "CYRILLIC CAPITAL LETTER KA WITH VERTICAL STROKE", aliases: &["CYRILLIC CAPITAL LETTER KA VERTICAL BAR"] },
        Codepoint { codepoint: 0x049D, name: "CYRILLIC SMALL LETTER KA WITH VERTICAL STROKE", aliases: &["CYRILLIC SMALL LETTER KA VERTICAL BAR"] },
        Codepoint { codepoint: 0x049E, name: "CYRILLIC CAPITAL LETTER KA WITH STROKE", aliases: &["CYRILLIC CAPITAL LETTER KA BAR"] },
        Codepoint { codepoint: 0x049F, name: "CYRILLIC SMALL LETTER KA WITH STROKE", aliases: &["CYRILLIC SMALL LETTER KA BAR"] },
        Codepoint { codepoint: 0x04A0, name: "CYRILLIC CAPITAL LETTER BASHKIR KA", aliases: &["CYRILLIC CAPITAL LETTER REVERSED GE KA"] },
        Codepoint { codepoint: 0x04A1, name: "CYRILLIC SMALL LETTER BASHKIR KA", aliases: &["CYRILLIC SMALL LETTER REVERSED GE KA"] },
        Codepoint { codepoint: 0x04A2, name: "CYRILLIC CAPITAL LETTER EN WITH DESCENDER", aliases: &["CYRILLIC CAPITAL LETTER EN WITH RIGHT DESCENDER"] },
        Codepoint { codepoint: 0x04A3, name: "CYRILLIC SMALL LETTER EN WITH DESCENDER", aliases: &["CYRILLIC SMALL LETTER EN WITH RIGHT DESCENDER"] },
        Codepoint { codepoint: 0x04A4, name: "CYRILLIC CAPITAL LIGATURE EN GHE", aliases: &["CYRILLIC CAPITAL LETTER EN GE"] },
        Codepoint { codepoint: 0x04A5, name: "CYRILLIC SMALL LIGATURE EN GHE", aliases: &["CYRILLIC SMALL LETTER EN GE"] },
        Codepoint { codepoint: 0x04A6, name: "CYRILLIC CAPITAL LETTER PE WITH MIDDLE HOOK", aliases: &["CYRILLIC CAPITAL LETTER PE HOOK"] },
        Codepoint { codepoint: 0x04A7, name: "CYRILLIC SMALL LETTER PE WITH MIDDLE HOOK", aliases: &["CYRILLIC SMALL LETTER PE HOOK"] },
        Codepoint { codepoint: 0x04A8, name: "CYRILLIC CAPITAL LETTER ABKHASIAN HA", aliases: &["CYRILLIC CAPITAL LETTER O HOOK"] },
        Codepoint { codepoint: 0x04A9, name: "CYRILLIC SMALL LETTER ABKHASIAN HA", aliases: &["CYRILLIC SMALL LETTER O HOOK"] },
        Codepoint { codepoint: 0x04AA, name: "CYRILLIC CAPITAL LETTER ES WITH DESCENDER", aliases: &["CYRILLIC CAPITAL LETTER ES CEDILLA"] },
        Codepoint { codepoint: 0x04AB, name: "CYRILLIC SMALL LETTER ES WITH DESCENDER", aliases: &["CYRILLIC SMALL LETTER ES CEDILLA"] },
        Codepoint { codepoint: 0x04AC, name: "CYRILLIC CAPITAL LETTER TE WITH DESCENDER", aliases: &["CYRILLIC CAPITAL LETTER TE WITH RIGHT DESCENDER"] },
        Codepoint { codepoint: 0x04AD, name: "CYRILLIC SMALL LETTER TE WITH DESCENDER", aliases: &["CYRILLIC SMALL LETTER TE WITH RIGHT DESCENDER"] },
        Codepoint { codepoint: 0x04AE, name: "CYRILLIC CAPITAL LETTER STRAIGHT U", aliases: &[] },
        Codepoint { codepoint: 0x04AF, name: "CYRILLIC SMALL LETTER STRAIGHT U", aliases: &[] },
        Codepoint { codepoint: 0x04B0, name: "CYRILLIC CAPITAL LETTER STRAIGHT U WITH STROKE", aliases: &["CYRILLIC CAPITAL LETTER STRAIGHT U BAR"] },
        Codepoint { codepoint: 0x04B1, name: "CYRILLIC SMALL LETTER STRAIGHT U WITH STROKE", aliases: &["CYRILLIC SMALL LETTER STRAIGHT U BAR"] },
        Codepoint { codepoint: 0x04B2, name: "CYRILLIC CAPITAL LETTER HA WITH DESCENDER", aliases: &["CYRILLIC CAPITAL LETTER KHA WITH RIGHT DESCENDER"] },
        Codepoint { codepoint: 0x04B3, name: "CYRILLIC SMALL LETTER HA WITH DESCENDER", aliases: &["CYRILLIC SMALL LETTER KHA WITH RIGHT DESCENDER"] },
        Codepoint { codepoint: 0x04B4, name: "CYRILLIC CAPITAL LIGATURE TE TSE", aliases: &["CYRILLIC CAPITAL LETTER TE TSE"] },
        Codepoint { codepoint: 0x04B5, name: "CYRILLIC SMALL LIGATURE TE TSE", aliases: &["CYRILLIC SMALL LETTER TE TSE"] },
        Codepoint { codepoint: 0x04B6, name: "CYRILLIC CAPITAL LETTER CHE WITH DESCENDER", aliases: &["CYRILLIC CAPITAL LETTER CHE WITH RIGHT DESCENDER"] },
        Codepoint { codepoint: 0x04B7, name: "CYRILLIC SMALL LETTER CHE WITH DESCENDER", aliases: &["CYRILLIC SMALL LETTER CHE WITH RIGHT DESCENDER"] },
        Codepoint { codepoint: 0x04B8, name: "CYRILLIC CAPITAL LETTER CHE WITH VERTICAL STROKE", aliases: &["CYRILLIC CAPITAL LETTER CHE VERTICAL BAR"] },
    ];
    assert(v@ =~= codepoint_table_29());
    v
}

pub open spec fn codepoint_table_30() -> Seq<Codepoint> {
    seq![
        Codepoint { codepoint: 0x04B9, name: "CYRILLIC SMALL LETTER CHE WITH VERTICAL STROKE", aliases: &["CYRILLIC SMALL LETTER CHE VERTICAL BAR"] },
        Codepoint { codepoint: 0x04BA, name: "CYRILLIC CAPITAL LETTER SHHA", aliases: &["CYRILLIC CAPITAL LETTER H"] },
        Codepoint { codepoint: 0x04BB, name: "CYRILLIC SMALL LETTER SHHA", aliases: &["CYRILLIC SMALL LETTER H"] },
        Codepoint { codepoint: 0x04BC, name: "CYRILLIC CAPITAL LETTER ABKHASIAN CHE", aliases: &["CYRILLIC CAPITAL LETTER IE HOOK"] },
        Codepoint { codepoint: 0x04BD, name: "CYRILLIC SMALL LETTER ABKHASIAN CHE", aliases: &["CYRILLIC SMALL LETTER IE HOOK"] },
        Codepoint { codepoint: 0x04BE, name: "CYRILLIC CAPITAL LETTER ABKHASIAN CHE WITH DESCENDER", aliases: &["CYRILLIC CAPITAL LETTER IE HOOK OGONEK"] },
        Codepoint { codepoint: 0x04BF, name: "CYRILLIC SMALL LETTER ABKHASIAN CHE WITH DESCENDER", aliases: &["CYRILLIC SMALL LETTER IE HOOK OGONEK"] },
        Codepoint { codepoint: 0x04C0, name: "CYRILLIC LETTER PALOCHKA", aliases: &["CYRILLIC LETTER I"] },
        Codepoint { codepoint: 0x04C1, name: "CYRILLIC CAPITAL LETTER ZHE WITH BREVE", aliases: &["CYRILLIC CAPITAL LETTER SHORT ZHE"] },
        Codepoint { codepoint: 0x04C2, name: "CYRILLIC SMALL LETTER ZHE WITH BREVE", aliases: &["CYRILLIC SMALL LETTER SHORT ZHE"] },
        Codepoint { codepoint: 0x04C3, name: "CYRILLIC CAPITAL LETTER KA WITH HOOK", aliases: &["CYRILLIC CAPITAL LETTER KA HOOK"] },
        Codepoint { codepoint: 0x04C4, name: "CYRILLIC SMALL LETTER KA WITH HOOK", aliases: &["CYRILLIC SMALL LETTER KA HOOK"] },
        Codepoint { codepoint: 0x04C5, name: "CYRILLIC CAPITAL LETTER EL WITH TAIL", aliases: &[] },
        Codepoint { codepoint: 0x04C6, name: "CYRILLIC SMALL LETTER EL WITH TAIL", aliases: &[] },
        Codepoint { codepoint: 0x04C7, name: "CYRILLIC CAPITAL LETTER EN WITH HOOK", aliases: &["CYRILLIC CAPITAL LETTER EN HOOK"] },
        Codepoint { codepoint: 0x04C8, name: "CYRILLIC SMALL LETTER EN WITH HOOK", aliases: &["CYRILLIC SMALL LETTER EN HOOK"] },
        Codepoint { codepoint: 0x04C9, name: "CYRILLIC CAPITAL LETTER EN WITH TAIL", aliases: &[] },
        Codepoint { codepoint: 0x04CA, name: "CYRILLIC SMALL LETTER EN WITH TAIL", aliases: &[] },
        Codepoint { codepoint: 0x04CB, name: "CYRILLIC CAPITAL LETTER KHAKASSIAN CHE", aliases: &["CYRILLIC CAPITAL LETTER CHE WITH LEFT DESCENDER"] },
        Codepoint { codepoint: 0x04CC, name: "CYRILLIC SMALL LETTER KHAKASSIAN CHE", aliases: &["CYRILLIC SMALL LETTER CHE WITH LEFT DESCENDER"] },
        Codepoint { codepoint: 0x04CD, name: "CYRILLIC CAPITAL LETTER EM WITH TAIL", aliases: &[] },
        Codepoint { codepoint: 0x04CE, name: "CYRILLIC SMALL LETTER EM WITH TAIL", aliases: &[] },
        Codepoint { codepoint: 0x04CF, name: "CYRILLIC SMALL LETTER PALOCHKA", aliases: &[] },
        Codepoint { codepoint: 0x04D0, name: "CYRILLIC CAPITAL LETTER A WITH BREVE", aliases: &[] },
        Codepoint { codepoint: 0x04D1, name: "CYRILLIC SMALL LETTER A WITH BREVE", aliases: &[] },
        Codepoint { codepoint: 0x04D2, name: "CYRILLIC CAPITAL LETTER A WITH DIAERESIS", aliases: &[] },
        Codepoint { codepoint: 0x04D3, name: "CYRILLIC SMALL LETTER A WITH DIAERESIS", aliases: &[] },
        Codepoint { codepoint: 0x04D4, name: "CYRILLIC CAPITAL LIGATURE A IE", aliases: &[] },
        Codepoint { codepoint: 0x04D5, name: "CYRILLIC SMALL LIGATURE A IE", aliases: &[] },
        Codepoint { codepoint: 0x04D6, name: "CYRILLIC CAPITAL LETTER IE WITH BREVE", aliases: &[] },
        Codepoint { codepoint: 0x04D7, name: "CYRILLIC SMALL LETTER IE WITH BREVE", aliases: &[] },
        Codepoint { codepoint: 0x04D8, name: "CYRILLIC CAPITAL LETTER SCHWA", aliases: &[] },
        Codepoint { codepoint: 0x04D9, name: "CYRILLIC SMALL LETTER SCHWA", aliases: &[] },
        Codepoint { codepoint: 0x04DA, name: "CYRILLIC CAPITAL LETTER SCHWA WITH DIAERESIS", aliases: &[] },
        Codepoint { codepoint: 0x04DB, name: "CYRILLIC SMALL LETTER SCHWA WITH DIAERESIS", aliases: &[] },
        Codepoint { codepoint: 0x04DC, name: "CYRILLIC CAPITAL LETTER ZHE WITH DIAERESIS", aliases: &[] },
        Codepoint { codepoint: 0x04DD, name: "CYRILLIC SMALL LETTER ZHE WITH DIAERESIS", aliases: &[] },
        Codepoint { codepoint: 0x04DE, name: "CYRILLIC CAPITAL LETTER ZE WITH DIAERESIS", aliases: &[] },
        Codepoint { codepoint: 0x04DF, name: "CYRILLIC SMALL LETTER ZE WITH DIAERESIS", aliases: &[] },
        Codepoint { codepoint: 0x04E0, name: "CYRILLIC CAPITAL LETTER ABKHASIAN DZE", aliases: &[] },
    ]
}

fn all_codepoints_30() -> (v: Vec<Codepoint>)
    ensures
        v@ == codepoint_table_30(),
{
    let v = vec![
        Codepoint { codepoint: 0x04B9, name: "CYRILLIC SMALL LETTER CHE WITH VERTICAL STROKE", aliases: &["CYRILLIC SMALL LETTER CHE VERTICAL BAR"] },
        Codepoint { codepoint: 0x04BA, name: "CYRILLIC CAPITAL LETTER SHHA", aliases: &["CYRILLIC CAPITAL LETTER H"] },
        Codepoint { codepoint: 0x04BB, name: "CYRILLIC SMALL LETTER SHHA", aliases: &["CYRILLIC SMALL LETTER H"] },
        Codepoint { codepoint: 0x04BC, name: "CYRILLIC CAPITAL LETTER ABKHASIAN CHE", aliases: &["CYRILLIC CAPITAL LETTER IE HOOK"] },
        Codepoint { codepoint: 0x04BD, name: "CYRILLIC SMALL LETTER ABKHASIAN CHE", aliases: &["CYRILLIC SMALL LETTER IE HOOK"] },
        Codepoint { codepoint: 0x04BE, name: "CYRILLIC CAPITAL LETTER ABKHASIAN CHE WITH DESCENDER", aliases: &["CYRILLIC CAPITAL LETTER IE HOOK OGONEK"] },
        Codepoint { codepoint: 0x04BF, name: "CYRILLIC SMALL LETTER ABKHASIAN CHE WITH DESCENDER", aliases: &["CYRILLIC SMALL LETTER IE HOOK OGONEK"] },
        Codepoint { codepoint: 0x04C0, name: "CYRILLIC LETTER PALOCHKA", aliases: &["CYRILLIC LETTER I"] },
        Codepoint { codepoint: 0x04C1, name: "CYRILLIC CAPITAL LETTER ZHE WITH BREVE", aliases: &["CYRILLIC CAPITAL LETTER SHORT ZHE"] },
        Codepoint { codepoint: 0x04C2, name: "CYRILLIC SMALL LETTER ZHE WITH BREVE", aliases: &["CYRILLIC SMALL LETTER SHORT ZHE"] },
        Codepoint { codepoint: 0x04C3, name: "CYRILLIC CAPITAL LETTER KA WITH HOOK", aliases: &["CYRILLIC CAPITAL LETTER KA HOOK"] },
        Codepoint { codepoint: 0x04C4, name: "CYRILLIC SMALL LETTER KA WITH HOOK", aliases: &["CYRILLIC SMALL LETTER KA HOOK"] },
        Codepoint { codepoint: 0x04C5, name: "CYRILLIC CAPITAL LETTER EL WITH TAIL", aliases: &[] },
        Codepoint { codepoint: 0x04C6, name: "CYRILLIC SMALL LETTER EL WITH TAIL", aliases: &[] },
        Codepoint { codepoint: 0x04C7, name: "CYRILLIC CAPITAL LETTER EN WITH HOOK", aliases: &["CYRILLIC CAPITAL LETTER EN HOOK"] },
        Codepoint { codepoint: 0x04C8, name: "CYRILLIC SMALL LETTER EN WITH HOOK", aliases: &["CYRILLIC SMALL LETTER EN HOOK"] },
        Codepoint { codepoint: 0x04C9, name: "CYRILLIC CAPITAL LETTER EN WITH TAIL", aliases: &[] },
        Codepoint { codepoint: 0x04CA, name: "CYRILLIC SMALL LETTER EN WITH TAIL", aliases: &[] },
        Codepoint { codepoint: 0x04CB, name: "CYRILLIC CAPITAL LETTER KHAKASSIAN CHE", aliases: &["CYRILLIC CAPITAL LETTER CHE WITH LEFT DESCENDER"] },
        Codepoint { codepoint: 0x04CC, name: "CYRILLIC SMALL LETTER KHAKASSIAN CHE", aliases: &["CYRILLIC SMALL LETTER CHE WITH LEFT DESCENDER"] },
        Codepoint { codepoint: 0x04CD, name: "CYRILLIC CAPITAL LETTER EM WITH TAIL", aliases: &[] },
        Codepoint { codepoint: 0x04CE, name: "CYRILLIC SMALL LETTER EM WITH TAIL", aliases: &[] },
        Codepoint { codepoint: 0x04CF, name: "CYRILLIC SMALL LETTER PALOCHKA", aliases: &[] },
        Codepoint { codepoint: 0x04D0, name: "CYRILLIC CAPITAL LETTER A WITH BREVE", aliases: &[] },
        Codepoint { codepoint: 0x04D1, name: "CYRILLIC SMALL LETTER A WITH BREVE", aliases: &[] },
        Codepoint { codepoint: 0x04D2, name: "CYRILLIC CAPITAL LETTER A WITH DIAERESIS", aliases: &[] },
        Codepoint { codepoint: 0x04D3, name: "CYRILLIC SMALL LETTER A WITH DIAERESIS", aliases: &[] },
        Codepoint { codepoint: 0x04D4, name: "CYRILLIC CAPITAL LIGATURE A IE", aliases: &[] },
        Codepoint { codepoint: 0x04D5, name: "CYRILLIC SMALL LIGATURE A IE", aliases: &[] },
        Codepoint { codepoint: 0x04D6, name: "CYRILLIC CAPITAL LETTER IE WITH BREVE", aliases: &[] },
        Codepoint { codepoint: 0x04D7, name: "CYRILLIC SMALL LETTER IE WITH BREVE", aliases: &[] },
        Codepoint { codepoint: 0x04D8, name: "CYRILLIC CAPITAL LETTER SCHWA", aliases: &[] },
        Codepoint { codepoint: 0x04D9, name: "CYRILLIC SMALL LETTER SCHWA", aliases: &[] },
        Codepoint { codepoint: 0x04DA, name: "CYRILLIC CAPITAL LETTER SCHWA WITH DIAERESIS", aliases: &[] },
        Codepoint { codepoint: 0x04DB, name: "CYRILLIC SMALL LETTER SCHWA WITH DIAERESIS", aliases: &[] },
        Codepoint { codepoint: 0x04DC, name: "CYRILLIC CAPITAL LETTER ZHE WITH DIAERESIS", aliases: &[] },
        Codepoint { codepoint: 0x04DD, name: "CYRILLIC SMALL LETTER ZHE WITH DIAERESIS", aliases: &[] },
        Codepoint { codepoint: 0x04DE, name: "CYRILLIC CAPITAL LETTER ZE WITH DIAERESIS", aliases: &[] },
        Codepoint { codepoint: 0x04DF, name: "CYRILLIC SMALL LETTER ZE WITH DIAERESIS", aliases: &[] },
        Codepoint { codepoint: 0x04E0, name: "CYRILLIC CAPITAL LETTER ABKHASIAN DZE", aliases: &[] },
    ];
    assert(v@ =~= codepoint_table_30());
    v
}

pub open spec fn codepoint_table_31() -> Seq<Codepoint> {
    seq![
        Codepoint { codepoint: 0x04E1, name: "CYRILLIC SMALL LETTER ABKHASIAN DZE", aliases: &[] },
        Codepoint { codepoint: 0x04E2, name: "CYRILLIC CAPITAL LETTER I WITH MACRON", aliases: &[] },
        Codepoint { codepoint: 0x04E3, name: "CYRILLIC SMALL LETTER I WITH MACRON", aliases: &[] },
        Codepoint { codepoint: 0x04E4, name: "CYRILLIC CAPITAL LETTER I WITH DIAERESIS", aliases: &[] },
        Codepoint { codepoint: 0x04E5, name: "CYRILLIC SMALL LETTER I WITH DIAERESIS", aliases: &[] },
        Codepoint { codepoint: 0x04E6, name: "CYRILLIC CAPITAL LETTER O WITH DIAERESIS", aliases: &[] },
        Codepoint { codepoint: 0x04E7, name: "CYRILLIC SMALL LETTER O WITH DIAERESIS", aliases: &[] },
        Codepoint { codepoint: 0x04E8, name: "CYRILLIC CAPITAL LETTER BARRED O", aliases: &[] },
        Codepoint { codepoint: 0x04E9, name: "CYRILLIC SMALL LETTER BARRED O", aliases: &[] },
        Codepoint { codepoint: 0x04EA, name: "CYRILLIC CAPITAL LETTER BARRED O WITH DIAERESIS", aliases: &[] },
        Codepoint { codepoint: 0x04EB, name: "CYRILLIC SMALL LETTER BARRED O WITH DIAERESIS", aliases: &[] },
        Codepoint { codepoint: 0x04EC, name: "CYRILLIC CAPITAL LETTER E WITH DIAERESIS", aliases: &[] },
        Codepoint { codepoint: 0x04ED, name: "CYRILLIC SMALL LETTER E WITH DIAERESIS", aliases: &[] },
        Codepoint { codepoint: 0x04EE, name: "CYRILLIC CAPITAL LETTER U WITH MACRON", aliases: &[] },
        Codepoint { codepoint: 0x04EF, name: "CYRILLIC SMALL LETTER U WITH MACRON", aliases: &[] },
        Codepoint { codepoint: 0x04F0, name: "CYRILLIC CAPITAL LETTER U WITH DIAERESIS", aliases: &[] },
        Codepoint { codepoint: 0x04F1, name: "CYRILLIC SMALL LETTER U WITH DIAERESIS", aliases: &[] },
        Codepoint { codepoint: 0x04F2, name: "CYRILLIC CAPITAL LETTER U WITH DOUBLE ACUTE", aliases: &[] },
        Codepoint { codepoint: 0x04F3, name: "CYRILLIC SMALL LETTER U WITH DOUBLE ACUTE", aliases: &[] },
        Codepoint { codepoint: 0x04F4, name: "CYRILLIC CAPITAL LETTER CHE WITH DIAERESIS", aliases: &[] },
        Codepoint { codepoint: 0x04F5, name: "CYRILLIC SMALL LETTER CHE WITH DIAERESIS", aliases: &[] },
        Codepoint { codepoint: 0x04F6, name: "CYRILLIC CAPITAL LETTER GHE WITH DESCENDER", aliases: &[] },
        Codepoint { codepoint: 0x04F7, name: "CYRILLIC SMALL LETTER GHE WITH DESCENDER", aliases: &[] },
        Codepoint { codepoint: 0x04F8, name: "CYRILLIC CAPITAL LETTER YERU WITH DIAERESIS", aliases: &[] },
        Codepoint { codepoint: 0x04F9, name: "CYRILLIC SMALL LETTER YERU WITH DIAERESIS", aliases: &[] },
        Codepoint { codepoint: 0x04FA, name: "CYRILLIC CAPITAL LETTER GHE WITH STROKE AND HOOK", aliases: &[] },
        Codepoint { codepoint: 0x04FB, name: "CYRILLIC SMALL LETTER GHE WITH STROKE AND HOOK", aliases: &[] },
        Codepoint { codepoint: 0x04FC, name: "CYRILLIC CAPITAL LETTER HA WITH HOOK", aliases: &[] },
        Codepoint { codepoint: 0x04FD, name: "CYRILLIC SMALL LETTER HA WITH HOOK", aliases: &[] },
        Codepoint { codepoint: 0x04FE, name: "CYRILLIC CAPITAL LETTER HA WITH STROKE", aliases: &[] },
        Codepoint { codepoint: 0x04FF, name: "CYRILLIC SMALL LETTER HA WITH STROKE", aliases: &[] },
        Codepoint { codepoint: 0x0500, name: "CYRILLIC CAPITAL LETTER KOMI DE", aliases: &[] },
        Codepoint { codepoint: 0x0501, name: "CYRILLIC SMALL LETTER KOMI DE", aliases: &[] },
        Codepoint { codepoint: 0x0502, name: "CYRILLIC CAPITAL LETTER KOMI DJE", aliases: &[] },
        Codepoint { codepoint: 0x0503, name: "CYRILLIC SMALL LETTER KOMI DJE", aliases: &[] },
        Codepoint { codepoint: 0x0504, name: "CYRILLIC CAPITAL LETTER KOMI ZJE", aliases: &[] },
        Codepoint { codepoint: 0x0505, name: "CYRILLIC SMALL LETTER KOMI ZJE", aliases: &[] },
        Codepoint { codepoint: 0x0506, name: "CYRILLIC CAPITAL LETTER KOMI DZJE", aliases: &[] },
        Codepoint { codepoint: 0x0507, name: "CYRILLIC SMALL LETTER KOMI DZJE", aliases: &[] },
        Codepoint { codepoint: 0x0508, name: "CYRILLIC CAPITAL LETTER KOMI LJE", aliases: &[] },
    ]
}

fn all_codepoints_31() -> (v: Vec<Codepoint>)
    ensures
        v@ == codepoint_table_31(),
{
    let v = vec![
        Codepoint { codepoint: 0x04E1, name: "CYRILLIC SMALL LETTER ABKHASIAN DZE", aliases: &[] },
        Codepoint { codepoint: 0x04E2, name: "CYRILLIC CAPITAL LETTER I WITH MACRON", aliases: &[] },
        Codepoint { codepoint: 0x04E3, name: "CYRILLIC SMALL LETTER I WITH MACRON", aliases: &[] },
        Codepoint { codepoint: 0x04E4, name: "CYRILLIC CAPITAL LETTER I WITH DIAERESIS", aliases: &[] },
        Codepoint { codepoint: 0x04E5, name: "CYRILLIC SMALL LETTER I WITH DIAERESIS", aliases: &[] },
        Codepoint { codepoint: 0x04E6, name: "CYRILLIC CAPITAL LETTER O WITH DIAERESIS", aliases: &[] },
        Codepoint { codepoint: 0x04E7, name: "CYRILLIC SMALL LETTER O WITH DIAERESIS", aliases: &[] },
        Codepoint { codepoint: 0x04E8, name: "CYRILLIC CAPITAL LETTER BARRED O", aliases: &[] },
        Codepoint { codepoint: 0x04E9, name: "CYRILLIC SMALL LETTER BARRED O", aliases: &[] },
        Codepoint { codepoint: 0x04EA, name: "CYRILLIC CAPITAL LETTER BARRED O WITH DIAERESIS", aliases: &[] },
        Codepoint { codepoint: 0x04EB, name: "CYRILLIC SMALL LETTER BARRED O WITH DIAERESIS", aliases: &[] },
        Codepoint { codepoint: 0x04EC, name: "CYRILLIC CAPITAL LETTER E WITH DIAERESIS", aliases: &[] },
        Codepoint { codepoint: 0x04ED, name: "CYRILLIC SMALL LETTER E WITH DIAERESIS", aliases: &[] },
        Codepoint { codepoint: 0x04EE, name: "CYRILLIC CAPITAL LETTER U WITH MACRON", aliases: &[] },
        Codepoint { codepoint: 0x04EF, name: "CYRILLIC SMALL LETTER U WITH MACRON", aliases: &[] },
        Codepoint { codepoint: 0x04F0, name: "CYRILLIC CAPITAL LETTER U WITH DIAERESIS", aliases: &[] },
        Codepoint { codepoint: 0x04F1, name: "CYRILLIC SMALL LETTER U WITH DIAERESIS", aliases: &[] },
        Codepoint { codepoint: 0x04F2, name: "CYRILLIC CAPITAL LETTER U WITH DOUBLE ACUTE", aliases: &[] },
        Codepoint { codepoint: 0x04F3, name: "CYRILLIC SMALL LETTER U WITH DOUBLE ACUTE", aliases: &[] },
        Codepoint { codepoint: 0x04F4, name: "CYRILLIC CAPITAL LETTER CHE WITH DIAERESIS", aliases: &[] },
        Codepoint { codepoint: 0x04F5, name: "CYRILLIC SMALL LETTER CHE WITH DIAERESIS", aliases: &[] },
        Codepoint { codepoint: 0x04F6, name: "CYRILLIC CAPITAL LETTER GHE WITH DESCENDER", aliases: &[] },
        Codepoint { codepoint: 0x04F7, name: "CYRILLIC SMALL LETTER GHE WITH DESCENDER", aliases: &[] },
        Codepoint { codepoint: 0x04F8, name: "CYRILLIC CAPITAL LETTER YERU WITH DIAERESIS", aliases: &[] },
        Codepoint { codepoint: 0x04F9, name: "CYRILLIC SMALL LETTER YERU WITH DIAERESIS", aliases: &[] },
        Codepoint { codepoint: 0x04FA, name: "CYRILLIC CAPITAL LETTER GHE WITH STROKE AND HOOK", aliases: &[] },
        Codepoint { codepoint: 0x04FB, name: "CYRILLIC SMALL LETTER GHE WITH STROKE AND HOOK", aliases: &[] },
        Codepoint { codepoint: 0x04FC, name: "CYRILLIC CAPITAL LETTER HA WITH HOOK", aliases: &[] },
        Codepoint { codepoint: 0x04FD, name: "CYRILLIC SMALL LETTER HA WITH HOOK", aliases: &[] },
        Codepoint { codepoint: 0x04FE, name: "CYRILLIC CAPITAL LETTER HA WITH STROKE", aliases: &[] },
        Codepoint { codepoint: 0x04FF, name: "CYRILLIC SMALL LETTER HA WITH STROKE", aliases: &[] },
        Codepoint { codepoint: 0x0500, name: "CYRILLIC CAPITAL LETTER KOMI DE", aliases: &[] },
        Codepoint { codepoint: 0x0501, name: "CYRILLIC SMALL LETTER KOMI DE", aliases: &[] },
        Codepoint { codepoint: 0x0502, name: "CYRILLIC CAPITAL LETTER KOMI DJE", aliases: &[] },
        Codepoint { codepoint: 0x0503, name: "CYRILLIC SMALL LETTER KOMI DJE", aliases: &[] },
        Codepoint { codepoint: 0x0504, name: "CYRILLIC CAPITAL LETTER KOMI ZJE", aliases: &[] },
        Codepoint { codepoint: 0x0505, name: "CYRILLIC SMALL LETTER KOMI ZJE", aliases: &[] },
        Codepoint { codepoint: 0x0506, name: "CYRILLIC CAPITAL LETTER KOMI DZJE", aliases: &[] },
        Codepoint { codepoint: 0x0507, name: "CYRILLIC SMALL LETTER KOMI DZJE", aliases: &[] },
        Codepoint { codepoint: 0x0508, name: "CYRILLIC CAPITAL LETTER KOMI LJE", aliases: &[] },
    ];
    assert(v@ =~= codepoint_table_31());
    v
}

pub open spec fn codepoint_table_32() -> Seq<Codepoint> {
    seq![
        Codepoint { codepoint: 0x0509, name: "CYRILLIC SMALL LETTER KOMI LJE", aliases: &[] },
        Codepoint { codepoint: 0x050A, name: "CYRILLIC CAPITAL LETTER KOMI NJE", aliases: &[] },
        Codepoint { codepoint: 0x050B, name: "CYRILLIC SMALL LETTER KOMI NJE", aliases: &[] },
        Codepoint { codepoint: 0x050C, name: "CYRILLIC CAPITAL LETTER KOMI SJE", aliases: &[] },
        Codepoint { codepoint: 0x050D, name: "CYRILLIC SMALL LETTER KOMI SJE", aliases: &[] },
        Codepoint { codepoint: 0x050E, name: "CYRILLIC CAPITAL LETTER KOMI TJE", aliases: &[] },
        Codepoint { codepoint: 0x050F, name: "CYRILLIC SMALL LETTER KOMI TJE", aliases: &[] },
        Codepoint { codepoint: 0x0510, name: "CYRILLIC CAPITAL LETTER REVERSED ZE", aliases: &[] },
        Codepoint { codepoint: 0x0511, name: "CYRILLIC SMALL LETTER REVERSED ZE", aliases: &[] },
        Codepoint { codepoint: 0x0512, name: "CYRILLIC CAPITAL LETTER EL WITH HOOK", aliases: &[] },
        Codepoint { codepoint: 0x0513, name: "CYRILLIC SMALL LETTER EL WITH HOOK", aliases: &[] },
        Codepoint { codepoint: 0x0514, name: "CYRILLIC CAPITAL LETTER LHA", aliases: &[] },
        Codepoint { codepoint: 0x0515, name: "CYRILLIC SMALL LETTER LHA", aliases: &[] },
        Codepoint { codepoint: 0x0516, name: "CYRILLIC CAPITAL LETTER RHA", aliases: &[] },
        Codepoint { codepoint: 0x0517, name: "CYRILLIC SMALL LETTER RHA", aliases: &[] },
        Codepoint { codepoint: 0x0518, name: "CYRILLIC CAPITAL LETTER YAE", aliases: &[] },
        Codepoint { codepoint: 0x0519, name: "CYRILLIC SMALL LETTER YAE", aliases: &[] },
        Codepoint { codepoint: 0x051A, name: "CYRILLIC CAPITAL LETTER QA", aliases: &[] },
        Codepoint { codepoint: 0x051B, name: "CYRILLIC SMALL LETTER QA", aliases: &[] },
        Codepoint { codepoint: 0x051C, name: "CYRILLIC CAPITAL LETTER WE", aliases: &[] },
        Codepoint { codepoint: 0x051D, name: "CYRILLIC SMALL LETTER WE", aliases: &[] },
        Codepoint { codepoint: 0x051E, name: "CYRILLIC CAPITAL LETTER ALEUT KA", aliases: &[] },
        Codepoint { codepoint: 0x051F, name: "CYRILLIC SMALL LETTER ALEUT KA", aliases: &[] },
        Codepoint { codepoint: 0x0520, name: "CYRILLIC CAPITAL LETTER EL WITH MIDDLE HOOK", aliases: &[] },
        Codepoint { codepoint: 0x0521, name: "CYRILLIC SMALL LETTER EL WITH MIDDLE HOOK", aliases: &[] },
        Codepoint { codepoint: 0x0522, name: "CYRILLIC CAPITAL LETTER EN WITH MIDDLE HOOK", aliases: &[] },
        Codepoint { codepoint: 0x0523, name: "CYRILLIC SMALL LETTER EN WITH MIDDLE HOOK", aliases: &[] },
        Codepoint { codepoint: 0x0524, name: "CYRILLIC CAPITAL LETTER PE WITH DESCENDER", aliases: &[] },
        Codepoint { codepoint: 0x0525, name: "CYRILLIC SMALL LETTER PE WITH DESCENDER", aliases: &[] },
        Codepoint { codepoint: 0x0526, name: "CYRILLIC CAPITAL LETTER SHHA WITH DESCENDER", aliases: &[] },
        Codepoint { codepoint: 0x0527, name: "CYRILLIC SMALL LETTER SHHA WITH DESCENDER", aliases: &[] },
        Codepoint { codepoint: 0x0528, name: "CYRILLIC CAPITAL LETTER EN WITH LEFT HOOK", aliases: &[] },
        Codepoint { codepoint: 0x0529, name: "CYRILLIC SMALL LETTER EN WITH LEFT HOOK", aliases: &[] },
        Codepoint { codepoint: 0x052A, name: "CYRILLIC CAPITAL LETTER DZZHE", aliases: &[] },
        Codepoint { codepoint: 0x052B, name: "CYRILLIC SMALL LETTER DZZHE", aliases: &[] },
        Codepoint { codepoint: 0x052C, name: "CYRILLIC CAPITAL LETTER DCHE", aliases: &[] },
        Codepoint { codepoint: 0x052D, name: "CYRILLIC SMALL LETTER DCHE", aliases: &[] },
        Codepoint { codepoint: 0x052E, name: "CYRILLIC CAPITAL LETTER EL WITH DESCENDER", aliases: &[] },
        Codepoint { codepoint: 0x052F, name: "CYRILLIC SMALL LETTER EL WITH DESCENDER", aliases: &[] },
        Codepoint { codepoint: 0x0531, name: "ARMENIAN CAPITAL LETTER AYB", aliases: &[] },
    ]
}

fn all_codepoints_32() -> (v: Vec<Codepoint>)
    ensures
        v@ == codepoint_table_32(),
{
    let v = vec![
        Codepoint { codepoint: 0x0509, name: "CYRILLIC SMALL LETTER KOMI LJE", aliases: &[] },
        Codepoint { codepoint: 0x050A, name: "CYRILLIC CAPITAL LETTER KOMI NJE", aliases: &[] },
        Codepoint { codepoint: 0x050B, name: "CYRILLIC SMALL LETTER KOMI NJE", aliases: &[] },
        Codepoint { codepoint: 0x050C, name: "CYRILLIC CAPITAL LETTER KOMI SJE", aliases: &[] },
        Codepoint { codepoint: 0x050D, name: "CYRILLIC SMALL LETTER KOMI SJE", aliases: &[] },
        Codepoint { codepoint: 0x050E, name: "CYRILLIC CAPITAL LETTER KOMI TJE", aliases: &[] },
        Codepoint { codepoint: 0x050F, name: "CYRILLIC SMALL LETTER KOMI TJE", aliases: &[] },
        Codepoint { codepoint: 0x0510, name: "CYRILLIC CAPITAL LETTER REVERSED ZE", aliases: &[] },
        Codepoint { codepoint: 0x0511, name: "CYRILLIC SMALL LETTER REVERSED ZE", aliases: &[] },
        Codepoint { codepoint: 0x0512, name: "CYRILLIC CAPITAL LETTER EL WITH HOOK", aliases: &[] },
        Codepoint { codepoint: 0x0513, name: "CYRILLIC SMALL LETTER EL WITH HOOK", aliases: &[] },
        Codepoint { codepoint: 0x0514, name: "CYRILLIC CAPITAL LETTER LHA", aliases: &[] },
        Codepoint { codepoint: 0x0515, name: "CYRILLIC SMALL LETTER LHA", aliases: &[] },
        Codepoint { codepoint: 0x0516, name: "CYRILLIC CAPITAL LETTER RHA", aliases: &[] },
        Codepoint { codepoint: 0x0517, name: "CYRILLIC SMALL LETTER RHA", aliases: &[] },
        Codepoint { codepoint: 0x0518, name: "CYRILLIC CAPITAL LETTER YAE", aliases: &[] },
        Codepoint { codepoint: 0x0519, name: "CYRILLIC SMALL LETTER YAE", aliases: &[] },
        Codepoint { codepoint: 0x051A, name: "CYRILLIC CAPITAL LETTER QA", aliases: &[] },
        Codepoint { codepoint: 0x051B, name: "CYRILLIC SMALL LETTER QA", aliases: &[] },
        Codepoint { codepoint: 0x051C, name: "CYRILLIC CAPITAL LETTER WE", aliases: &[] },
        Codepoint { codepoint: 0x051D, name: "CYRILLIC SMALL LETTER WE", aliases: &[] },
        Codepoint { codepoint: 0x051E, name: "CYRILLIC CAPITAL LETTER ALEUT KA", aliases: &[] },
        Codepoint { codepoint: 0x051F, name: "CYRILLIC SMALL LETTER ALEUT KA", aliases: &[] },
        Codepoint { codepoint: 0x0520, name: "CYRILLIC CAPITAL LETTER EL WITH MIDDLE HOOK", aliases: &[] },
        Codepoint { codepoint: 0x0521, name: "CYRILLIC SMALL LETTER EL WITH MIDDLE HOOK", aliases: &[] },
        Codepoint { codepoint: 0x0522, name: "CYRILLIC CAPITAL LETTER EN WITH MIDDLE HOOK", aliases: &[] },
        Codepoint { codepoint: 0x0523, name: "CYRILLIC SMALL LETTER EN WITH MIDDLE HOOK", aliases: &[] },
        Codepoint { codepoint: 0x0524, name: "CYRILLIC CAPITAL LETTER PE WITH DESCENDER", aliases: &[] },
        Codepoint { codepoint: 0x0525, name: "CYRILLIC SMALL LETTER PE WITH DESCENDER", aliases: &[] },
        Codepoint { codepoint: 0x0526, name: "CYRILLIC CAPITAL LETTER SHHA WITH DESCENDER", aliases: &[] },
        Codepoint { codepoint: 0x0527, name: "CYRILLIC SMALL LETTER SHHA WITH DESCENDER", aliases: &[] },
        Codepoint { codepoint: 0x0528, name: "CYRILLIC CAPITAL LETTER EN WITH LEFT HOOK", aliases: &[] },
        Codepoint { codepoint: 0x0529, name: "CYRILLIC SMALL LETTER EN WITH LEFT HOOK", aliases: &[] },
        Codepoint { codepoint: 0x052A, name: "CYRILLIC CAPITAL LETTER DZZHE", aliases: &[] },
        Codepoint { codepoint: 0x052B, name: "CYRILLIC SMALL LETTER DZZHE", aliases: &[] },
        Codepoint { codepoint: 0x052C, name: "CYRILLIC CAPITAL LETTER DCHE", aliases: &[] },
        Codepoint { codepoint: 0x052D, name: "CYRILLIC SMALL LETTER DCHE", aliases: &[] },
        Codepoint { codepoint: 0x052E, name: "CYRILLIC CAPITAL LETTER EL WITH DESCENDER", aliases: &[] },
        Codepoint { codepoint: 0x052F, name: "CYRILLIC SMALL LETTER EL WITH DESCENDER", aliases: &[] },
        Codepoint { codepoint: 0x0531, name: "ARMENIAN CAPITAL LETTER AYB", aliases: &[] },
    ];
    assert(v@ =~= codepoint_table_32());
    v
}

pub open spec fn codepoint_table_33() -> Seq<Codepoint> {
    seq![
        Codepoint { codepoint: 0x0532, name: "ARMENIAN CAPITAL LETTER BEN", aliases: &[] },
        Codepoint { codepoint: 0x0533, name: "ARMENIAN CAPITAL LETTER GIM", aliases: &[] },
        Codepoint { codepoint: 0x0534, name: "ARMENIAN CAPITAL LETTER DA", aliases: &[] },
        Codepoint { codepoint: 0x0535, name: "ARMENIAN CAPITAL LETTER ECH", aliases: &[] },
        Codepoint { codepoint: 0x0536, name: "ARMENIAN CAPITAL LETTER ZA", aliases: &[] },
        Codepoint { codepoint: 0x0537, name: "ARMENIAN CAPITAL LETTER EH", aliases: &[] },
        Codepoint { codepoint: 0x0538, name: "ARMENIAN CAPITAL LETTER ET", aliases: &[] },
        Codepoint { codepoint: 0x0539, name: "ARMENIAN CAPITAL LETTER TO", aliases: &[] },
        Codepoint { codepoint: 0x053A, name: "ARMENIAN CAPITAL LETTER ZHE", aliases: &[] },
        Codepoint { codepoint: 0x053B, name: "ARMENIAN CAPITAL LETTER INI", aliases: &[] },
        Codepoint { codepoint: 0x053C, name: "ARMENIAN CAPITAL LETTER LIWN", aliases: &[] },
        Codepoint { codepoint: 0x053D, name: "ARMENIAN CAPITAL LETTER XEH", aliases: &[] },
        Codepoint { codepoint: 0x053E, name: "ARMENIAN CAPITAL LETTER CA", aliases: &[] },
        Codepoint { codepoint: 0x053F, name: "ARMENIAN CAPITAL LETTER KEN", aliases: &[] },
        Codepoint { codepoint: 0x0540, name: "ARMENIAN CAPITAL LETTER HO", aliases: &[] },
        Codepoint { codepoint: 0x0541, name: "ARMENIAN CAPITAL LETTER JA", aliases: &[] },
        Codepoint { codepoint: 0x0542, name: "ARMENIAN CAPITAL LETTER GHAD", aliases: &["ARMENIAN CAPITAL LETTER LAD"] },
        Codepoint { codepoint: 0x0543, name: "ARMENIAN CAPITAL LETTER CHEH", aliases: &[] },
        Codepoint { codepoint: 0x0544, name: "ARMENIAN CAPITAL LETTER MEN", aliases: &[] },
        Codepoint { codepoint: 0x0545, name: "ARMENIAN CAPITAL LETTER YI", aliases: &[] },
        Codepoint { codepoint: 0x0546, name: "ARMENIAN CAPITAL LETTER NOW", aliases: &[] },
        Codepoint { codepoint: 0x0547, name: "ARMENIAN CAPITAL LETTER SHA", aliases: &[] },
        Codepoint { codepoint: 0x0548, name: "ARMENIAN CAPITAL LETTER VO", aliases: &[] },
        Codepoint { codepoint: 0x0549, name: "ARMENIAN CAPITAL LETTER CHA", aliases: &[] },
        Codepoint { codepoint: 0x054A, name: "ARMENIAN CAPITAL LETTER PEH", aliases: &[] },
        Codepoint { codepoint: 0x054B, name: "ARMENIAN CAPITAL LETTER JHEH", aliases: &[] },
        Codepoint { codepoint: 0x054C, name: "ARMENIAN CAPITAL LETTER RA", aliases: &[] },
        Codepoint { codepoint: 0x054D, name: "ARMENIAN CAPITAL LETTER SEH", aliases: &[] },
        Codepoint { codepoint: 0x054E, name: "ARMENIAN CAPITAL LETTER VEW", aliases: &[] },
        Codepoint { codepoint: 0x054F, name: "ARMENIAN CAPITAL LETTER TIWN", aliases: &[] },
        Codepoint { codepoint: 0x0550, name: "ARMENIAN CAPITAL LETTER REH", aliases: &[] },
        Codepoint { codepoint: 0x0551, name: "ARMENIAN CAPITAL LETTER CO", aliases: &[] },
        Codepoint { codepoint: 0x0552, name: "ARMENIAN CAPITAL LETTER YIWN", aliases: &[] },
        Codepoint { codepoint: 0x0553, name: "ARMENIAN CAPITAL LETTER PIWR", aliases: &[] },
        Codepoint { codepoint: 0x0554, name: "ARMENIAN CAPITAL LETTER KEH", aliases: &[] },
        Codepoint { codepoint: 0x0555, name: "ARMENIAN CAPITAL LETTER OH", aliases: &[] },
        Codepoint { codepoint: 0x0556, name: "ARMENIAN CAPITAL LETTER FEH", aliases: &[] },
        Codepoint { codepoint: 0x0559, name: "ARMENIAN MODIFIER LETTER LEFT HALF RING", aliases: &[] },
        Codepoint { codepoint: 0x055A, name: "ARMENIAN APOSTROPHE", aliases: &["ARMENIAN MODIFIER LETTER RIGHT HALF RING"] },
        Codepoint { codepoint: 0x055B, name: "ARMENIAN EMPHASIS MARK", aliases: &[] },
    ]
}

fn all_codepoints_33() -> (v: Vec<Codepoint>)
    ensures
        v@ == codepoint_table_33(),
{
    let v = vec![
        Codepoint { codepoint: 0x0532, name: "ARMENIAN CAPITAL LETTER BEN", aliases: &[] },
        Codepoint { codepoint: 0x0533, name: "ARMENIAN CAPITAL LETTER GIM", aliases: &[] },
        Codepoint { codepoint: 0x0534, name: "ARMENIAN CAPITAL LETTER DA", aliases: &[] },
        Codepoint { codepoint: 0x0535, name: "ARMENIAN CAPITAL LETTER ECH", aliases: &[] },
        Codepoint { codepoint: 0x0536, name: "ARMENIAN CAPITAL LETTER ZA", aliases: &[] },
        Codepoint { codepoint: 0x0537, name: "ARMENIAN CAPITAL LETTER EH", aliases: &[] },
        Codepoint { codepoint: 0x0538, name: "ARMENIAN CAPITAL LETTER ET", aliases: &[] },
        Codepoint { codepoint: 0x0539, name: "ARMENIAN CAPITAL LETTER TO", aliases: &[] },
        Codepoint { codepoint: 0x053A, name: "ARMENIAN CAPITAL LETTER ZHE", aliases: &[] },
        Codepoint { codepoint: 0x053B, name: "ARMENIAN CAPITAL LETTER INI", aliases: &[] },
        Codepoint { codepoint: 0x053C, name: "ARMENIAN CAPITAL LETTER LIWN", aliases: &[] },
        Codepoint { codepoint: 0x053D, name: "ARMENIAN CAPITAL LETTER XEH", aliases: &[] },
        Codepoint { codepoint: 0x053E, name: "ARMENIAN CAPITAL LETTER CA", aliases: &[] },
        Codepoint { codepoint: 0x053F, name: "ARMENIAN CAPITAL LETTER KEN", aliases: &[] },
        Codepoint { codepoint: 0x0540, name: "ARMENIAN CAPITAL LETTER HO", aliases: &[] },
        Codepoint { codepoint: 0x0541, name: "ARMENIAN CAPITAL LETTER JA", aliases: &[] },
        Codepoint { codepoint: 0x0542, name: "ARMENIAN CAPITAL LETTER GHAD", aliases: &["ARMENIAN CAPITAL LETTER LAD"] },
        Codepoint { codepoint: 0x0543, name: "ARMENIAN CAPITAL LETTER CHEH", aliases: &[] },
        Codepoint { codepoint: 0x0544, name: "ARMENIAN CAPITAL LETTER MEN", aliases: &[] },
        Codepoint { codepoint: 0x0545, name: "ARMENIAN CAPITAL LETTER YI", aliases: &[] },
        Codepoint { codepoint: 0x0546, name: "ARMENIAN CAPITAL LETTER NOW", aliases: &[] },
        Codepoint { codepoint: 0x0547, name: "ARMENIAN CAPITAL LETTER SHA", aliases: &[] },
        Codepoint { codepoint: 0x0548, name: "ARMENIAN CAPITAL LETTER VO", aliases: &[] },
        Codepoint { codepoint: 0x0549, name: "ARMENIAN CAPITAL LETTER CHA", aliases: &[] },
        Codepoint { codepoint: 0x054A, name: "ARMENIAN CAPITAL LETTER PEH", aliases: &[] },
        Codepoint { codepoint: 0x054B, name: "ARMENIAN CAPITAL LETTER JHEH", aliases: &[] },
        Codepoint { codepoint: 0x054C, name: "ARMENIAN CAPITAL LETTER RA", aliases: &[] },
        Codepoint { codepoint: 0x054D, name: "ARMENIAN CAPITAL LETTER SEH", aliases: &[] },
        Codepoint { codepoint: 0x054E, name: "ARMENIAN CAPITAL LETTER VEW", aliases: &[] },
        Codepoint { codepoint: 0x054F, name: "ARMENIAN CAPITAL LETTER TIWN", aliases: &[] },
        Codepoint { codepoint: 0x0550, name: "ARMENIAN CAPITAL LETTER REH", aliases: &[] },
        Codepoint { codepoint: 0x0551, name: "ARMENIAN CAPITAL LETTER CO", aliases: &[] },
        Codepoint { codepoint: 0x0552, name: "ARMENIAN CAPITAL LETTER YIWN", aliases: &[] },
        Codepoint { codepoint: 0x0553, name: "ARMENIAN CAPITAL LETTER PIWR", aliases: &[] },
        Codepoint { codepoint: 0x0554, name: "ARMENIAN CAPITAL LETTER KEH", aliases: &[] },
        Codepoint { codepoint: 0x0555, name: "ARMENIAN CAPITAL LETTER OH", aliases: &[] },
        Codepoint { codepoint: 0x0556, name: "ARMENIAN CAPITAL LETTER FEH", aliases: &[] },
        Codepoint { codepoint: 0x0559, name: "ARMENIAN MODIFIER LETTER LEFT HALF RING", aliases: &[] },
        Codepoint { codepoint: 0x055A, name: "ARMENIAN APOSTROPHE", aliases: &["ARMENIAN MODIFIER LETTER RIGHT HALF RING"] },
        Codepoint { codepoint: 0x055B, name: "ARMENIAN EMPHASIS MARK", aliases: &[] },
    ];
    assert(v@ =~= codepoint_table_33());
    v
}

pub open spec fn codepoint_table_34() -> Seq<Codepoint> {
    seq![
        Codepoint { codepoint: 0x055C, name: "ARMENIAN EXCLAMATION MARK", aliases: &[] },
        Codepoint { codepoint: 0x055D, name: "ARMENIAN COMMA", aliases: &[] },
        Codepoint { codepoint: 0x055E, name: "ARMENIAN QUESTION MARK", aliases: &[] },
        Codepoint { codepoint: 0x055F, name: "ARMENIAN ABBREVIATION MARK", aliases: &[] },
        Codepoint { codepoint: 0x0560, name: "ARMENIAN SMALL LETTER TURNED AYB", aliases: &[] },
        Codepoint { codepoint: 0x0561, name: "ARMENIAN SMALL LETTER AYB", aliases: &[] },
        Codepoint { codepoint: 0x0562, name: "ARMENIAN SMALL LETTER BEN", aliases: &[] },
        Codepoint { codepoint: 0x0563, name: "ARMENIAN SMALL LETTER GIM", aliases: &[] },
        Codepoint { codepoint: 0x0564, name: "ARMENIAN SMALL LETTER DA", aliases: &[] },
        Codepoint { codepoint: 0x0565, name: "ARMENIAN SMALL LETTER ECH", aliases: &[] },
        Codepoint { codepoint: 0x0566, name: "ARMENIAN SMALL LETTER ZA", aliases: &[] },
        Codepoint { codepoint: 0x0567, name: "ARMENIAN SMALL LETTER EH", aliases: &[] },
        Codepoint { codepoint: 0x0568, name: "ARMENIAN SMALL LETTER ET", aliases: &[] },
        Codepoint { codepoint: 0x0569, name: "ARMENIAN SMALL LETTER TO", aliases: &[] },
        Codepoint { codepoint: 0x056A, name: "ARMENIAN SMALL LETTER ZHE", aliases: &[] },
        Codepoint { codepoint: 0x056B, name: "ARMENIAN SMALL LETTER INI", aliases: &[] },
        Codepoint { codepoint: 0x056C, name: "ARMENIAN SMALL LETTER LIWN", aliases: &[] },
        Codepoint { codepoint: 0x056D, name: "ARMENIAN SMALL LETTER XEH", aliases: &[] },
        Codepoint { codepoint: 0x056E, name: "ARMENIAN SMALL LETTER CA", aliases: &[] },
        Codepoint { codepoint: 0x056F, name: "ARMENIAN SMALL LETTER KEN", aliases: &[] },
        Codepoint { codepoint: 0x0570, name: "ARMENIAN SMALL LETTER HO", aliases: &[] },
        Codepoint { codepoint: 0x0571, name: "ARMENIAN SMALL LETTER JA", aliases: &[] },
        Codepoint { codepoint: 0x0572, name: "ARMENIAN SMALL LETTER GHAD", aliases: &["ARMENIAN SMALL LETTER LAD"] },
        Codepoint { codepoint: 0x0573, name: "ARMENIAN SMALL LETTER CHEH", aliases: &[] },
        Codepoint { codepoint: 0x0574, name: "ARMENIAN SMALL LETTER MEN", aliases: &[] },
        Codepoint { codepoint: 0x0575, name: "ARMENIAN SMALL LETTER YI", aliases: &[] },
        Codepoint { codepoint: 0x0576, name: "ARMENIAN SMALL LETTER NOW", aliases: &[] },
        Codepoint { codepoint: 0x0577, name: "ARMENIAN SMALL LETTER SHA", aliases: &[] },
        Codepoint { codepoint: 0x0578, name: "ARMENIAN SMALL LETTER VO", aliases: &[] },
        Codepoint { codepoint: 0x0579, name: "ARMENIAN SMALL LETTER CHA", aliases: &[] },
        Codepoint { codepoint: 0x057A, name: "ARMENIAN SMALL LETTER PEH", aliases: &[] },
        Codepoint { codepoint: 0x057B, name: "ARMENIAN SMALL LETTER JHEH", aliases: &[] },
        Codepoint { codepoint: 0x057C, name: "ARMENIAN SMALL LETTER RA", aliases: &[] },
        Codepoint { codepoint: 0x057D, name: "ARMENIAN SMALL LETTER SEH", aliases: &[] },
        Codepoint { codepoint: 0x057E, name: "ARMENIAN SMALL LETTER VEW", aliases: &[] },
        Codepoint { codepoint: 0x057F, name: "ARMENIAN SMALL LETTER TIWN", aliases: &[] },
        Codepoint { codepoint: 0x0580, name: "ARMENIAN SMALL LETTER REH", aliases: &[] },
        Codepoint { codepoint: 0x0581, name: "ARMENIAN SMALL LETTER CO", aliases: &[] },
        Codepoint { codepoint: 0x0582, name: "ARMENIAN SMALL LETTER YIWN", aliases: &[] },
        Codepoint { codepoint: 0x0583, name: "ARMENIAN SMALL LETTER PIWR", aliases: &[] },
    ]
}

fn all_codepoints_34() -> (v: Vec<Codepoint>)
    ensures
        v@ == codepoint_table_34(),
{
    let v = vec![
        Codepoint { codepoint: 0x055C, name: "ARMENIAN EXCLAMATION MARK", aliases: &[] },
        Codepoint { codepoint: 0x055D, name: "ARMENIAN COMMA", aliases: &[] },
        Codepoint { codepoint: 0x055E, name: "ARMENIAN QUESTION MARK", aliases: &[] },
        Codepoint { codepoint: 0x055F, name: "ARMENIAN ABBREVIATION MARK", aliases: &[] },
        Codepoint { codepoint: 0x0560, name: "ARMENIAN SMALL LETTER TURNED AYB", aliases: &[] },
        Codepoint { codepoint: 0x0561, name: "ARMENIAN SMALL LETTER AYB", aliases: &[] },
        Codepoint { codepoint: 0x0562, name: "ARMENIAN SMALL LETTER BEN", aliases: &[] },
        Codepoint { codepoint: 0x0563, name: "ARMENIAN SMALL LETTER GIM", aliases: &[] },
        Codepoint { codepoint: 0x0564, name: "ARMENIAN SMALL LETTER DA", aliases: &[] },
        Codepoint { codepoint: 0x0565, name: "ARMENIAN SMALL LETTER ECH", aliases: &[] },
        Codepoint { codepoint: 0x0566, name: "ARMENIAN SMALL LETTER ZA", aliases: &[] },
        Codepoint { codepoint: 0x0567, name: "ARMENIAN SMALL LETTER EH", aliases: &[] },
        Codepoint { codepoint: 0x0568, name: "ARMENIAN SMALL LETTER ET", aliases: &[] },
        Codepoint { codepoint: 0x0569, name: "ARMENIAN SMALL LETTER TO", aliases: &[] },
        Codepoint { codepoint: 0x056A, name: "ARMENIAN SMALL LETTER ZHE", aliases: &[] },
        Codepoint { codepoint: 0x056B, name: "ARMENIAN SMALL LETTER INI", aliases: &[] },
        Codepoint { codepoint: 0x056C, name: "ARMENIAN SMALL LETTER LIWN", aliases: &[] },
        Codepoint { codepoint: 0x056D, name: "ARMENIAN SMALL LETTER XEH", aliases: &[] },
        Codepoint { codepoint: 0x056E, name: "ARMENIAN SMALL LETTER CA", aliases: &[] },
        Codepoint { codepoint: 0x056F, name: "ARMENIAN SMALL LETTER KEN", aliases: &[] },
        Codepoint { codepoint: 0x0570, name: "ARMENIAN SMALL LETTER HO", aliases: &[] },
        Codepoint { codepoint: 0x0571, name: "ARMENIAN SMALL LETTER JA", aliases: &[] },
        Codepoint { codepoint: 0x0572, name: "ARMENIAN SMALL LETTER GHAD", aliases: &["ARMENIAN SMALL LETTER LAD"] },
        Codepoint { codepoint: 0x0573, name: "ARMENIAN SMALL LETTER CHEH", aliases: &[] },
        Codepoint { codepoint: 0x0574, name: "ARMENIAN SMALL LETTER MEN", aliases: &[] },
        Codepoint { codepoint: 0x0575, name: "ARMENIAN SMALL LETTER YI", aliases: &[] },
        Codepoint { codepoint: 0x0576, name: "ARMENIAN SMALL LETTER NOW", aliases: &[] },
        Codepoint { codepoint: 0x0577, name: "ARMENIAN SMALL LETTER SHA", aliases: &[] },
        Codepoint { codepoint: 0x0578, name: "ARMENIAN SMALL LETTER VO", aliases: &[] },
        Codepoint { codepoint: 0x0579, name: "ARMENIAN SMALL LETTER CHA", aliases: &[] },
        Codepoint { codepoint: 0x057A, name: "ARMENIAN SMALL LETTER PEH", aliases: &[] },
        Codepoint { codepoint: 0x057B, name: "ARMENIAN SMALL LETTER JHEH", aliases: &[] },
        Codepoint { codepoint: 0x057C, name: "ARMENIAN SMALL LETTER RA", aliases: &[] },
        Codepoint { codepoint: 0x057D, name: "ARMENIAN SMALL LETTER SEH", aliases: &[] },
        Codepoint { codepoint: 0x057E, name: "ARMENIAN SMALL LETTER VEW", aliases: &[] },
        Codepoint { codepoint: 0x057F, name: "ARMENIAN SMALL LETTER TIWN", aliases: &[] },
        Codepoint { codepoint: 0x0580, name: "ARMENIAN SMALL LETTER REH", aliases: &[] },
        Codepoint { codepoint: 0x0581, name: "ARMENIAN SMALL LETTER CO", aliases: &[] },
        Codepoint { codepoint: 0x0582, name: "ARMENIAN SMALL LETTER YIWN", aliases: &[] },
        Codepoint { codepoint: 0x0583, name: "ARMENIAN SMALL LETTER PIWR", aliases: &[] },
    ];
    assert(v@ =~= codepoint_table_34());
    v
}

pub open spec fn codepoint_table_35() -> Seq<Codepoint> {
    seq![
        Codepoint { codepoint: 0x0584, name: "ARMENIAN SMALL LETTER KEH", aliases: &[] },
        Codepoint { codepoint: 0x0585, name: "ARMENIAN SMALL LETTER OH", aliases: &[] },
        Codepoint { codepoint: 0x0586, name: "ARMENIAN SMALL LETTER FEH", aliases: &[] },
        Codepoint { codepoint: 0x0587, name: "ARMENIAN SMALL LIGATURE ECH YIWN", aliases: &[] },
        Codepoint { codepoint: 0x0588, name: "ARMENIAN SMALL LETTER YI WITH STROKE", aliases: &[] },
        Codepoint { codepoint: 0x0589, name: "ARMENIAN FULL STOP", aliases: &["ARMENIAN PERIOD"] },
        Codepoint { codepoint: 0x058A, name: "ARMENIAN HYPHEN", aliases: &[] },
        Codepoint { codepoint: 0x058D, name: "RIGHT-FACING ARMENIAN ETERNITY SIGN", aliases: &[] },
        Codepoint { codepoint: 0x058E, name: "LEFT-FACING ARMENIAN ETERNITY SIGN", aliases: &[] },
        Codepoint { codepoint: 0x058F, name: "ARMENIAN DRAM SIGN", aliases: &[] },
        Codepoint { codepoint: 0x0591, name: "HEBREW ACCENT ETNAHTA", aliases: &[] },
        Codepoint { codepoint: 0x0592, name: "HEBREW ACCENT SEGOL", aliases: &[] },
        Codepoint { codepoint: 0x0593, name: "HEBREW ACCENT SHALSHELET", aliases: &[] },
        Codepoint { codepoint: 0x0594, name: "HEBREW ACCENT ZAQEF QATAN", aliases: &[] },
        Codepoint { codepoint: 0x0595, name: "HEBREW ACCENT ZAQEF GADOL", aliases: &[] },
        Codepoint { codepoint: 0x0596, name: "HEBREW ACCENT TIPEHA", aliases: &[] },
        Codepoint { codepoint: 0x0597, name: "HEBREW ACCENT REVIA", aliases: &[] },
        Codepoint { codepoint: 0x0598, name: "HEBREW ACCENT ZARQA", aliases: &[] },
        Codepoint { codepoint: 0x0599, name: "HEBREW ACCENT PASHTA", aliases: &[] },
        Codepoint { codepoint: 0x059A, name: "HEBREW ACCENT YETIV", aliases: &[] },
        Codepoint { codepoint: 0x059B, name: "HEBREW ACCENT TEVIR", aliases: &[] },
        Codepoint { codepoint: 0x059C, name: "HEBREW ACCENT GERESH", aliases: &[] },
        Codepoint { codepoint: 0x059D, name: "HEBREW ACCENT GERESH MUQDAM", aliases: &[] },
        Codepoint { codepoint: 0x059E, name: "HEBREW ACCENT GERSHAYIM", aliases: &[] },
        Codepoint { codepoint: 0x059F, name: "HEBREW ACCENT QARNEY PARA", aliases: &[] },
        Codepoint { codepoint: 0x05A0, name: "HEBREW ACCENT TELISHA GEDOLA", aliases: &[] },
        Codepoint { codepoint: 0x05A1, name: "HEBREW ACCENT PAZER", aliases: &[] },
        Codepoint { codepoint: 0x05A2, name: "HEBREW ACCENT ATNAH HAFUKH", aliases: &[] },
        Codepoint { codepoint: 0x05A3, name: "HEBREW ACCENT MUNAH", aliases: &[] },
        Codepoint { codepoint: 0x05A4, name: "HEBREW ACCENT MAHAPAKH", aliases: &[] },
        Codepoint { codepoint: 0x05A5, name: "HEBREW ACCENT MERKHA", aliases: &[] },
        Codepoint { codepoint: 0x05A6, name: "HEBREW ACCENT MERKHA KEFULA", aliases: &[] },
        Codepoint { codepoint: 0x05A7, name: "HEBREW ACCENT DARGA", aliases: &[] },
        Codepoint { codepoint: 0x05A8, name: "HEBREW ACCENT QADMA", aliases: &[] },
        Codepoint { codepoint: 0x05A9, name: "HEBREW ACCENT TELISHA QETANA", aliases: &[] },
        Codepoint { codepoint: 0x05AA, name: "HEBREW ACCENT YERAH BEN YOMO", aliases: &[] },
        Codepoint { codepoint: 0x05AB, name: "HEBREW ACCENT OLE", aliases: &[] },
        Codepoint { codepoint: 0x05AC, name: "HEBREW ACCENT ILUY", aliases: &[] },
        Codepoint { codepoint: 0x05AD, name: "HEBREW ACCENT DEHI", aliases: &[] },
        Codepoint { codepoint: 0x05AE, name: "HEBREW ACCENT ZINOR", aliases: &[] },
    ]
}

fn all_codepoints_35() -> (v: Vec<Codepoint>)
    ensures
        v@ == codepoint_table_35(),
{
    let v = vec![
        Codepoint { codepoint: 0x0584, name: "ARMENIAN SMALL LETTER KEH", aliases: &[] },
        Codepoint { codepoint: 0x0585, name: "ARMENIAN SMALL LETTER OH", aliases: &[] },
        Codepoint { codepoint: 0x0586, name: "ARMENIAN SMALL LETTER FEH", aliases: &[] },
        Codepoint { codepoint: 0x0587, name: "ARMENIAN SMALL LIGATURE ECH YIWN", aliases: &[] },
        Codepoint { codepoint: 0x0588, name: "ARMENIAN SMALL LETTER YI WITH STROKE", aliases: &[] },
        Codepoint { codepoint: 0x0589, name: "ARMENIAN FULL STOP", aliases: &["ARMENIAN PERIOD"] },
        Codepoint { codepoint: 0x058A, name: "ARMENIAN HYPHEN", aliases: &[] },
        Codepoint { codepoint: 0x058D, name: "RIGHT-FACING ARMENIAN ETERNITY SIGN", aliases: &[] },
        Codepoint { codepoint: 0x058E, name: "LEFT-FACING ARMENIAN ETERNITY SIGN", aliases: &[] },
        Codepoint { codepoint: 0x058F, name: "ARMENIAN DRAM SIGN", aliases: &[] },
        Codepoint { codepoint: 0x0591, name: "HEBREW ACCENT ETNAHTA", aliases: &[] },
        Codepoint { codepoint: 0x0592, name: "HEBREW ACCENT SEGOL", aliases: &[] },
        Codepoint { codepoint: 0x0593, name: "HEBREW ACCENT SHALSHELET", aliases: &[] },
        Codepoint { codepoint: 0x0594, name: "HEBREW ACCENT ZAQEF QATAN", aliases: &[] },
        Codepoint { codepoint: 0x0595, name: "HEBREW ACCENT ZAQEF GADOL", aliases: &[] },
        Codepoint { codepoint: 0x0596, name: "HEBREW ACCENT TIPEHA", aliases: &[] },
        Codepoint { codepoint: 0x0597, name: "HEBREW ACCENT REVIA", aliases: &[] },
        Codepoint { codepoint: 0x0598, name: "HEBREW ACCENT ZARQA", aliases: &[] },
        Codepoint { codepoint: 0x0599, name: "HEBREW ACCENT PASHTA", aliases: &[] },
        Codepoint { codepoint: 0x059A, name: "HEBREW ACCENT YETIV", aliases: &[] },
        Codepoint { codepoint: 0x059B, name: "HEBREW ACCENT TEVIR", aliases: &[] },
        Codepoint { codepoint: 0x059C, name: "HEBREW ACCENT GERESH", aliases: &[] },
        Codepoint { codepoint: 0x059D, name: "HEBREW ACCENT GERESH MUQDAM", aliases: &[] },
        Codepoint { codepoint: 0x059E, name: "HEBREW ACCENT GERSHAYIM", aliases: &[] },
        Codepoint { codepoint: 0x059F, name: "HEBREW ACCENT QARNEY PARA", aliases: &[] },
        Codepoint { codepoint: 0x05A0, name: "HEBREW ACCENT TELISHA GEDOLA", aliases: &[] },
        Codepoint { codepoint: 0x05A1, name: "HEBREW ACCENT PAZER", aliases: &[] },
        Codepoint { codepoint: 0x05A2, name: "HEBREW ACCENT ATNAH HAFUKH", aliases: &[] },
        Codepoint { codepoint: 0x05A3, name: "HEBREW ACCENT MUNAH", aliases: &[] },
        Codepoint { codepoint: 0x05A4, name: "HEBREW ACCENT MAHAPAKH", aliases: &[] },
        Codepoint { codepoint: 0x05A5, name: "HEBREW ACCENT MERKHA", aliases: &[] },
        Codepoint { codepoint: 0x05A6, name: "HEBREW ACCENT MERKHA KEFULA", aliases: &[] },
        Codepoint { codepoint: 0x05A7, name: "HEBREW ACCENT DARGA", aliases: &[] },
        Codepoint { codepoint: 0x05A8, name: "HEBREW ACCENT QADMA", aliases: &[] },
        Codepoint { codepoint: 0x05A9, name: "HEBREW ACCENT TELISHA QETANA", aliases: &[] },
        Codepoint { codepoint: 0x05AA, name: "HEBREW ACCENT YERAH BEN YOMO", aliases: &[] },
        Codepoint { codepoint: 0x05AB, name: "HEBREW ACCENT OLE", aliases: &[] },
        Codepoint { codepoint: 0x05AC, name: "HEBREW ACCENT ILUY", aliases: &[] },
        Codepoint { codepoint: 0x05AD, name: "HEBREW ACCENT DEHI", aliases: &[] },
        Codepoint { codepoint: 0x05AE, name: "HEBREW ACCENT ZINOR", aliases: &[] },
    ];
    assert(v@ =~= codepoint_table_35());
    v
}

pub open spec fn codepoint_table_36() -> Seq<Codepoint> {
    seq![
        Codepoint { codepoint: 0x05AF, name: "HEBREW MARK MASORA CIRCLE", aliases: &[] },
        Codepoint { codepoint: 0x05B0, name: "HEBREW POINT SHEVA", aliases: &[] },
        Codepoint { codepoint: 0x05B1, name: "HEBREW POINT HATAF SEGOL", aliases: &[] },
        Codepoint { codepoint: 0x05B2, name: "HEBREW POINT HATAF PATAH", aliases: &[] },
        Codepoint { codepoint: 0x05B3, name: "HEBREW POINT HATAF QAMATS", aliases: &[] },
        Codepoint { codepoint: 0x05B4, name: "HEBREW POINT HIRIQ", aliases: &[] },
        Codepoint { codepoint: 0x05B5, name: "HEBREW POINT TSERE", aliases: &[] },
        Codepoint { codepoint: 0x05B6, name: "HEBREW POINT SEGOL", aliases: &[] },
        Codepoint { codepoint: 0x05B7, name: "HEBREW POINT PATAH", aliases: &[] },
        Codepoint { codepoint: 0x05B8, name: "HEBREW POINT QAMATS", aliases: &[] },
        Codepoint { codepoint: 0x05B9, name: "HEBREW POINT HOLAM", aliases: &[] },
        Codepoint { codepoint: 0x05BA, name: "HEBREW POINT HOLAM HASER FOR VAV", aliases: &[] },
        Codepoint { codepoint: 0x05BB, name: "HEBREW POINT QUBUTS", aliases: &[] },
        Codepoint { codepoint: 0x05BC, name: "HEBREW POINT DAGESH OR MAPIQ", aliases: &["HEBREW POINT DAGESH"] },
        Codepoint { codepoint: 0x05BD, name: "HEBREW POINT METEG", aliases: &[] },
        Codepoint { codepoint: 0x05BE, name: "HEBREW PUNCTUATION MAQAF", aliases: &[] },
        Codepoint { codepoint: 0x05BF, name: "HEBREW POINT RAFE", aliases: &[] },
        Codepoint { codepoint: 0x05C0, name: "HEBREW PUNCTUATION PASEQ", aliases: &["HEBREW POINT PASEQ"] },
        Codepoint { codepoint: 0x05C1, name: "HEBREW POINT SHIN DOT", aliases: &[] },
        Codepoint { codepoint: 0x05C2, name: "HEBREW POINT SIN DOT", aliases: &[] },
        Codepoint { codepoint: 0x05C3, name: "HEBREW PUNCTUATION SOF PASUQ", aliases: &[] },
        Codepoint { codepoint: 0x05C4, name: "HEBREW MARK UPPER DOT", aliases: &[] },
        Codepoint { codepoint: 0x05C5, name: "HEBREW MARK LOWER DOT", aliases: &[] },
        Codepoint { codepoint: 0x05C6, name: "HEBREW PUNCTUATION NUN HAFUKHA", aliases: &[] },
        Codepoint { codepoint: 0x05C7, name: "HEBREW POINT QAMATS QATAN", aliases: &[] },
        Codepoint { codepoint: 0x05D0, name: "HEBREW LETTER ALEF", aliases: &[] },
        Codepoint { codepoint: 0x05D1, name: "HEBREW LETTER BET", aliases: &[] },
        Codepoint { codepoint: 0x05D2, name: "HEBREW LETTER GIMEL", aliases: &[] },
        Codepoint { codepoint: 0x05D3, name: "HEBREW LETTER DALET", aliases: &[] },
        Codepoint { codepoint: 0x05D4, name: "HEBREW LETTER HE", aliases: &[] },
        Codepoint { codepoint: 0x05D5, name: "HEBREW LETTER VAV", aliases: &[] },
        Codepoint { codepoint: 0x05D6, name: "HEBREW LETTER ZAYIN", aliases: &[] },
        Codepoint { codepoint: 0x05D7, name: "HEBREW LETTER HET", aliases: &[] },
        Codepoint { codepoint: 0x05D8, name: "HEBREW LETTER TET", aliases: &[] },
        Codepoint { codepoint: 0x05D9, name: "HEBREW LETTER YOD", aliases: &[] },
        Codepoint { codepoint: 0x05DA, name: "HEBREW LETTER FINAL KAF", aliases: &[] },
        Codepoint { codepoint: 0x05DB, name: "HEBREW LETTER KAF", aliases: &[] },
        Codepoint { codepoint: 0x05DC, name: "HEBREW LETTER LAMED", aliases: &[] },
        Codepoint { codepoint: 0x05DD, name: "HEBREW LETTER FINAL MEM", aliases: &[] },
        Codepoint { codepoint: 0x05DE, name: "HEBREW LETTER MEM", aliases: &[] },
    ]
}

fn all_codepoints_36() -> (v: Vec<Codepoint>)
    ensures
        v@ == codepoint_table_36(),
{
    let v = vec![
        Codepoint { codepoint: 0x05AF, name: "HEBREW MARK MASORA CIRCLE", aliases: &[] },
        Codepoint { codepoint: 0x05B0, name: "HEBREW POINT SHEVA", aliases: &[] },
        Codepoint { codepoint: 0x05B1, name: "HEBREW POINT HATAF SEGOL", aliases: &[] },
        Codepoint { codepoint: 0x05B2, name: "HEBREW POINT HATAF PATAH", aliases: &[] },
        Codepoint { codepoint: 0x05B3, name: "HEBREW POINT HATAF QAMATS", aliases: &[] },
        Codepoint { codepoint: 0x05B4, name: "HEBREW POINT HIRIQ", aliases: &[] },
        Codepoint { codepoint: 0x05B5, name: "HEBREW POINT TSERE", aliases: &[] },
        Codepoint { codepoint: 0x05B6, name: "HEBREW POINT SEGOL", aliases: &[] },
        Codepoint { codepoint: 0x05B7, name: "HEBREW POINT PATAH", aliases: &[] },
        Codepoint { codepoint: 0x05B8, name: "HEBREW POINT QAMATS", aliases: &[] },
        Codepoint { codepoint: 0x05B9, name: "HEBREW POINT HOLAM", aliases: &[] },
        Codepoint { codepoint: 0x05BA, name: "HEBREW POINT HOLAM HASER FOR VAV", aliases: &[] },
        Codepoint { codepoint: 0x05BB, name: "HEBREW POINT QUBUTS", aliases: &[] },
        Codepoint { codepoint: 0x05BC, name: "HEBREW POINT DAGESH OR MAPIQ", aliases: &["HEBREW POINT DAGESH"] },
        Codepoint { codepoint: 0x05BD, name: "HEBREW POINT METEG", aliases: &[] },
        Codepoint { codepoint: 0x05BE, name: "HEBREW PUNCTUATION MAQAF", aliases: &[] },
        Codepoint { codepoint: 0x05BF, name: "HEBREW POINT RAFE", aliases: &[] },
        Codepoint { codepoint: 0x05C0, name: "HEBREW PUNCTUATION PASEQ", aliases: &["HEBREW POINT PASEQ"] },
        Codepoint { codepoint: 0x05C1, name: "HEBREW POINT SHIN DOT", aliases: &[] },
        Codepoint { codepoint: 0x05C2, name: "HEBREW POINT SIN DOT", aliases: &[] },
        Codepoint { codepoint: 0x05C3, name: "HEBREW PUNCTUATION SOF PASUQ", aliases: &[] },
        Codepoint { codepoint: 0x05C4, name: "HEBREW MARK UPPER DOT", aliases: &[] },
        Codepoint { codepoint: 0x05C5, name: "HEBREW MARK LOWER DOT", aliases: &[] },
        Codepoint { codepoint: 0x05C6, name: "HEBREW PUNCTUATION NUN HAFUKHA", aliases: &[] },
        Codepoint { codepoint: 0x05C7, name: "HEBREW POINT QAMATS QATAN", aliases: &[] },
        Codepoint { codepoint: 0x05D0, name: "HEBREW LETTER ALEF", aliases: &[] },
        Codepoint { codepoint: 0x05D1, name: "HEBREW LETTER BET", aliases: &[] },
        Codepoint { codepoint: 0x05D2, name: "HEBREW LETTER GIMEL", aliases: &[] },
        Codepoint { codepoint: 0x05D3, name: "HEBREW LETTER DALET", aliases: &[] },
        Codepoint { codepoint: 0x05D4, name: "HEBREW LETTER HE", aliases: &[] },
        Codepoint { codepoint: 0x05D5, name: "HEBREW LETTER VAV", aliases: &[] },
        Codepoint { codepoint: 0x05D6, name: "HEBREW LETTER ZAYIN", aliases: &[] },
        Codepoint { codepoint: 0x05D7, name: "HEBREW LETTER HET", aliases: &[] },
        Codepoint { codepoint: 0x05D8, name: "HEBREW LETTER TET", aliases: &[] },
        Codepoint { codepoint: 0x05D9, name: "HEBREW LETTER YOD", aliases: &[] },
        Codepoint { codepoint: 0x05DA, name: "HEBREW LETTER FINAL KAF", aliases: &[] },
        Codepoint { codepoint: 0x05DB, name: "HEBREW LETTER KAF", aliases: &[] },
        Codepoint { codepoint: 0x05DC, name: "HEBREW LETTER LAMED", aliases: &[] },
        Codepoint { codepoint: 0x05DD, name: "HEBREW LETTER FINAL MEM", aliases: &[] },
        Codepoint { codepoint: 0x05DE, name: "HEBREW LETTER MEM", aliases: &[] },
    ];
    assert(v@ =~= codepoint_table_36());
    v
}

pub open spec fn codepoint_table_37() -> Seq<Codepoint> {
    seq![
        Codepoint { codepoint: 0x05DF, name: "HEBREW LETTER FINAL NUN", aliases: &[] },
        Codepoint { codepoint: 0x05E0, name: "HEBREW LETTER NUN", aliases: &[] },
        Codepoint { codepoint: 0x05E1, name: "HEBREW LETTER SAMEKH", aliases: &[] },
        Codepoint { codepoint: 0x05E2, name: "HEBREW LETTER AYIN", aliases: &[] },
        Codepoint { codepoint: 0x05E3, name: "HEBREW LETTER FINAL PE", aliases: &[] },
        Codepoint { codepoint: 0x05E4, name: "HEBREW LETTER PE", aliases: &[] },
        Codepoint { codepoint: 0x05E5, name: "HEBREW LETTER FINAL TSADI", aliases: &[] },
        Codepoint { codepoint: 0x05E6, name: "HEBREW LETTER TSADI", aliases: &[] },
        Codepoint { codepoint: 0x05E7, name: "HEBREW LETTER QOF", aliases: &[] },
        Codepoint { codepoint: 0x05E8, name: "HEBREW LETTER RESH", aliases: &[] },
        Codepoint { codepoint: 0x05E9, name: "HEBREW LETTER SHIN", aliases: &[] },
        Codepoint { codepoint: 0x05EA, name: "HEBREW LETTER TAV", aliases: &[] },
        Codepoint { codepoint: 0x05EF, name: "HEBREW YOD TRIANGLE", aliases: &[] },
        Codepoint { codepoint: 0x05F0, name: "HEBREW LIGATURE YIDDISH DOUBLE VAV", aliases: &["HEBREW LETTER DOUBLE VAV"] },
        Codepoint { codepoint: 0x05F1, name: "HEBREW LIGATURE YIDDISH VAV YOD", aliases: &["HEBREW LETTER VAV YOD"] },
        Codepoint { codepoint: 0x05F2, name: "HEBREW LIGATURE YIDDISH DOUBLE YOD", aliases: &["HEBREW LETTER DOUBLE YOD"] },
        Codepoint { codepoint: 0x05F3, name: "HEBREW PUNCTUATION GERESH", aliases: &[] },
        Codepoint { codepoint: 0x05F4, name: "HEBREW PUNCTUATION GERSHAYIM", aliases: &[] },
        Codepoint { codepoint: 0x0600, name: "ARABIC NUMBER SIGN", aliases: &[] },
        Codepoint { codepoint: 0x0601, name: "ARABIC SIGN SANAH", aliases: &[] },
        Codepoint { codepoint: 0x0602, name: "ARABIC FOOTNOTE MARKER", aliases: &[] },
        Codepoint { codepoint: 0x0603, name: "ARABIC SIGN SAFHA", aliases: &[] },
        Codepoint { codepoint: 0x0604, name: "ARABIC SIGN SAMVAT", aliases: &[] },
        Codepoint { codepoint: 0x0605, name: "ARABIC NUMBER MARK ABOVE", aliases: &[] },
        Codepoint { codepoint: 0x0606, name: "ARABIC-INDIC CUBE ROOT", aliases: &[] },
        Codepoint { codepoint: 0x0607, name: "ARABIC-INDIC FOURTH ROOT", aliases: &[] },
        Codepoint { codepoint: 0x0608, name: "ARABIC RAY", aliases: &[] },
        Codepoint { codepoint: 0x0609, name: "ARABIC-INDIC PER MILLE SIGN", aliases: &[] },
        Codepoint { codepoint: 0x060A, name: "ARABIC-INDIC PER TEN THOUSAND SIGN", aliases: &[] },
        Codepoint { codepoint: 0x060B, name: "AFGHANI SIGN", aliases: &[] },
        Codepoint { codepoint: 0x060C, name: "ARABIC COMMA", aliases: &[] },
        Codepoint { codepoint: 0x060D, name: "ARABIC DATE SEPARATOR", aliases: &[] },
        Codepoint { codepoint: 0x060E, name: "ARABIC POETIC VERSE SIGN", aliases: &[] },
        Codepoint { codepoint: 0x060F, name: "ARABIC SIGN MISRA", aliases: &[] },
        Codepoint { codepoint: 0x0610, name: "ARABIC SIGN SALLALLAHOU ALAYHE WASSALLAM", aliases: &[] },
        Codepoint { codepoint: 0x0611, name: "ARABIC SIGN ALAYHE ASSALLAM", aliases: &[] },
        Codepoint { codepoint: 0x0612, name: "ARABIC SIGN RAHMATULLAH ALAYHE", aliases: &[] },
        Codepoint { codepoint: 0x0613, name: "ARABIC SIGN RADI ALLAHOU ANHU", aliases: &[] },
        Codepoint { codepoint: 0x0614, name: "ARABIC SIGN TAKHALLUS", aliases: &[] },
        Codepoint { codepoint: 0x0615, name: "ARABIC SMALL HIGH TAH", aliases: &[] },
    ]
}

fn all_codepoints_37() -> (v: Vec<Codepoint>)
    ensures
        v@ == codepoint_table_37(),
{
    let v = vec![
        Codepoint { codepoint: 0x05DF, name: "HEBREW LETTER FINAL NUN", aliases: &[] },
        Codepoint { codepoint: 0x05E0, name: "HEBREW LETTER NUN", aliases: &[] },
        Codepoint { codepoint: 0x05E1, name: "HEBREW LETTER SAMEKH", aliases: &[] },
        Codepoint { codepoint: 0x05E2, name: "HEBREW LETTER AYIN", aliases: &[] },
        Codepoint { codepoint: 0x05E3, name: "HEBREW LETTER FINAL PE", aliases: &[] },
        Codepoint { codepoint: 0x05E4, name: "HEBREW LETTER PE", aliases: &[] },
        Codepoint { codepoint: 0x05E5, name: "HEBREW LETTER FINAL TSADI", aliases: &[] },
        Codepoint { codepoint: 0x05E6, name: "HEBREW LETTER TSADI", aliases: &[] },
        Codepoint { codepoint: 0x05E7, name: "HEBREW LETTER QOF", aliases: &[] },
        Codepoint { codepoint: 0x05E8, name: "HEBREW LETTER RESH", aliases: &[] },
        Codepoint { codepoint: 0x05E9, name: "HEBREW LETTER SHIN", aliases: &[] },
        Codepoint { codepoint: 0x05EA, name: "HEBREW LETTER TAV", aliases: &[] },
        Codepoint { codepoint: 0x05EF, name: "HEBREW YOD TRIANGLE", aliases: &[] },
        Codepoint { codepoint: 0x05F0, name: "HEBREW LIGATURE YIDDISH DOUBLE VAV", aliases: &["HEBREW LETTER DOUBLE VAV"] },
        Codepoint { codepoint: 0x05F1, name: "HEBREW LIGATURE YIDDISH VAV YOD", aliases: &["HEBREW LETTER VAV YOD"] },
        Codepoint { codepoint: 0x05F2, name: "HEBREW LIGATURE YIDDISH DOUBLE YOD", aliases: &["HEBREW LETTER DOUBLE YOD"] },
        Codepoint { codepoint: 0x05F3, name: "HEBREW PUNCTUATION GERESH", aliases: &[] },
        Codepoint { codepoint: 0x05F4, name: "HEBREW PUNCTUATION GERSHAYIM", aliases: &[] },
        Codepoint { codepoint: 0x0600, name: "ARABIC NUMBER SIGN", aliases: &[] },
        Codepoint { codepoint: 0x0601, name: "ARABIC SIGN SANAH", aliases: &[] },
        Codepoint { codepoint: 0x0602, name: "ARABIC FOOTNOTE MARKER", aliases: &[] },
        Codepoint { codepoint: 0x0603, name: "ARABIC SIGN SAFHA", aliases: &[] },
        Codepoint { codepoint: 0x0604, name: "ARABIC SIGN SAMVAT", aliases: &[] },
        Codepoint { codepoint: 0x0605, name: "ARABIC NUMBER MARK ABOVE", aliases: &[] },
        Codepoint { codepoint: 0x0606, name: "ARABIC-INDIC CUBE ROOT", aliases: &[] },
        Codepoint { codepoint: 0x0607, name: "ARABIC-INDIC FOURTH ROOT", aliases: &[] },
        Codepoint { codepoint: 0x0608, name: "ARABIC RAY", aliases: &[] },
        Codepoint { codepoint: 0x0609, name: "ARABIC-INDIC PER MILLE SIGN", aliases: &[] },
        Codepoint { codepoint: 0x060A, name: "ARABIC-INDIC PER TEN THOUSAND SIGN", aliases: &[] },
        Codepoint { codepoint: 0x060B, name: "AFGHANI SIGN", aliases: &[] },
        Codepoint { codepoint: 0x060C, name: "ARABIC COMMA", aliases: &[] },
        Codepoint { codepoint: 0x060D, name: "ARABIC DATE SEPARATOR", aliases: &[] },
        Codepoint { codepoint: 0x060E, name: "ARABIC POETIC VERSE SIGN", aliases: &[] },
        Codepoint { codepoint: 0x060F, name: "ARABIC SIGN MISRA", aliases: &[] },
        Codepoint { codepoint: 0x0610, name: "ARABIC SIGN SALLALLAHOU ALAYHE WASSALLAM", aliases: &[] },
        Codepoint { codepoint: 0x0611, name: "ARABIC SIGN ALAYHE ASSALLAM", aliases: &[] },
        Codepoint { codepoint: 0x0612, name: "ARABIC SIGN RAHMATULLAH ALAYHE", aliases: &[] },
        Codepoint { codepoint: 0x0613, name: "ARABIC SIGN RADI ALLAHOU ANHU", aliases: &[] },
        Codepoint { codepoint: 0x0614, name: "ARABIC SIGN TAKHALLUS", aliases: &[] },
        Codepoint { codepoint: 0x0615, name: "ARABIC SMALL HIGH TAH", aliases: &[] },
    ];
    assert(v@ =~= codepoint_table_37());
    v
}

pub open spec fn codepoint_table_38() -> Seq<Codepoint> {
    seq![
        Codepoint { codepoint: 0x0616, name: "ARABIC SMALL HIGH LIGATURE ALEF WITH LAM WITH YEH", aliases: &[] },
        Codepoint { codepoint: 0x0617, name: "ARABIC SMALL HIGH ZAIN", aliases: &[] },
        Codepoint { codepoint: 0x0618, name: "ARABIC SMALL FATHA", aliases: &[] },
        Codepoint { codepoint: 0x0619, name: "ARABIC SMALL DAMMA", aliases: &[] },
        Codepoint { codepoint: 0x061A, name: "ARABIC SMALL KASRA", aliases: &[] },
        Codepoint { codepoint: 0x061B, name: "ARABIC SEMICOLON", aliases: &[] },
        Codepoint { codepoint: 0x061C, name: "ARABIC LETTER MARK", aliases: &[] },
        Codepoint { codepoint: 0x061D, name: "ARABIC END OF TEXT MARK", aliases: &[] },
        Codepoint { codepoint: 0x061E, name: "ARABIC TRIPLE DOT PUNCTUATION MARK", aliases: &[] },
        Codepoint { codepoint: 0x061F, name: "ARABIC QUESTION MARK", aliases: &[] },
        Codepoint { codepoint: 0x0620, name: "ARABIC LETTER KASHMIRI YEH", aliases: &[] },
        Codepoint { codepoint: 0x0621, name: "ARABIC LETTER HAMZA", aliases: &["ARABIC LETTER HAMZAH"] },
        Codepoint { codepoint: 0x0622, name: "ARABIC LETTER ALEF WITH MADDA ABOVE", aliases: &["ARABIC LETTER MADDAH ON ALEF"] },
        Codepoint { codepoint: 0x0623, name: "ARABIC LETTER ALEF WITH HAMZA ABOVE", aliases: &["ARABIC LETTER HAMZAH ON ALEF"] },
        Codepoint { codepoint: 0x0624, name: "ARABIC LETTER WAW WITH HAMZA ABOVE", aliases: &["ARABIC LETTER HAMZAH ON WAW"] },
        Codepoint { codepoint: 0x0625, name: "ARABIC LETTER ALEF WITH HAMZA BELOW", aliases: &["ARABIC LETTER HAMZAH UNDER ALEF"] },
        Codepoint { codepoint: 0x0626, name: "ARABIC LETTER YEH WITH HAMZA ABOVE", aliases: &["ARABIC LETTER HAMZAH ON YA"] },
        Codepoint { codepoint: 0x0627, name: "ARABIC LETTER ALEF", aliases: &[] },
        Codepoint { codepoint: 0x0628, name: "ARABIC LETTER BEH", aliases: &["ARABIC LETTER BAA"] },
        Codepoint { codepoint: 0x0629, name: "ARABIC LETTER TEH MARBUTA", aliases: &["ARABIC LETTER TAA MARBUTAH"] },
        Codepoint { codepoint: 0x062A, name: "ARABIC LETTER TEH", aliases: &["ARABIC LETTER TAA"] },
        Codepoint { codepoint: 0x062B, name: "ARABIC LETTER THEH", aliases: &["ARABIC LETTER THAA"] },
        Codepoint { codepoint: 0x062C, name: "ARABIC LETTER JEEM", aliases: &[] },
        Codepoint { codepoint: 0x062D, name: "ARABIC LETTER HAH", aliases: &["ARABIC LETTER HAA"] },
        Codepoint { codepoint: 0x062E, name: "ARABIC LETTER KHAH", aliases: &["ARABIC LETTER KHAA"] },
        Codepoint { codepoint: 0x062F, name: "ARABIC LETTER DAL", aliases: &[] },
        Codepoint { codepoint: 0x0630, name: "ARABIC LETTER THAL", aliases: &[] },
        Codepoint { codepoint: 0x0631, name: "ARABIC LETTER REH", aliases: &["ARABIC LETTER RA"] },
        Codepoint { codepoint: 0x0632, name: "ARABIC LETTER ZAIN", aliases: &[] },
        Codepoint { codepoint: 0x0633, name: "ARABIC LETTER SEEN", aliases: &[] },
        Codepoint { codepoint: 0x0634, name: "ARABIC LETTER SHEEN", aliases: &[] },
        Codepoint { codepoint: 0x0635, name: "ARABIC LETTER SAD", aliases: &[] },
        Codepoint { codepoint: 0x0636, name: "ARABIC LETTER DAD", aliases: &[] },
        Codepoint { codepoint: 0x0637, name: "ARABIC LETTER TAH", aliases: &[] },
        Codepoint { codepoint: 0x0638, name: "ARABIC LETTER ZAH", aliases: &["ARABIC LETTER DHAH"] },
        Codepoint { codepoint: 0x0639, name: "ARABIC LETTER AIN", aliases: &[] },
        Codepoint { codepoint: 0x063A, name: "ARABIC LETTER GHAIN", aliases: &[] },
        Codepoint { codepoint: 0x063B, name: "ARABIC LETTER KEHEH WITH TWO DOTS ABOVE", aliases: &[] },
        Codepoint { codepoint: 0x063C, name: "ARABIC LETTER KEHEH WITH THREE DOTS BELOW", aliases: &[] },
        Codepoint { codepoint: 0x063D, name: "ARABIC LETTER FARSI YEH WITH INVERTED V", aliases: &[] },
    ]
}

fn all_codepoints_38() -> (v: Vec<Codepoint>)
    ensures
        v@ == codepoint_table_38(),
{
    let v = vec![
        Codepoint { codepoint: 0x0616, name: "ARABIC SMALL HIGH LIGATURE ALEF WITH LAM WITH YEH", aliases: &[] },
        Codepoint { codepoint: 0x0617, name: "ARABIC SMALL HIGH ZAIN", aliases: &[] },
        Codepoint { codepoint: 0x0618, name: "ARABIC SMALL FATHA", aliases: &[] },
        Codepoint { codepoint: 0x0619, name: "ARABIC SMALL DAMMA", aliases: &[] },
        Codepoint { codepoint: 0x061A, name: "ARABIC SMALL KASRA", aliases: &[] },
        Codepoint { codepoint: 0x061B, name: "ARABIC SEMICOLON", aliases: &[] },
        Codepoint { codepoint: 0x061C, name: "ARABIC LETTER MARK", aliases: &[] },
        Codepoint { codepoint: 0x061D, name: "ARABIC END OF TEXT MARK", aliases: &[] },
        Codepoint { codepoint: 0x061E, name: "ARABIC TRIPLE DOT PUNCTUATION MARK", aliases: &[] },
        Codepoint { codepoint: 0x061F, name: "ARABIC QUESTION MARK", aliases: &[] },
        Codepoint { codepoint: 0x0620, name: "ARABIC LETTER KASHMIRI YEH", aliases: &[] },
        Codepoint { codepoint: 0x0621, name: "ARABIC LETTER HAMZA", aliases: &["ARABIC LETTER HAMZAH"] },
        Codepoint { codepoint: 0x0622, name: "ARABIC LETTER ALEF WITH MADDA ABOVE", aliases: &["ARABIC LETTER MADDAH ON ALEF"] },
        Codepoint { codepoint: 0x0623, name: "ARABIC LETTER ALEF WITH HAMZA ABOVE", aliases: &["ARABIC LETTER HAMZAH ON ALEF"] },
        Codepoint { codepoint: 0x0624, name: "ARABIC LETTER WAW WITH HAMZA ABOVE", aliases: &["ARABIC LETTER HAMZAH ON WAW"] },
        Codepoint { codepoint: 0x0625, name: "ARABIC LETTER ALEF WITH HAMZA BELOW", aliases: &["ARABIC LETTER HAMZAH UNDER ALEF"] },
        Codepoint { codepoint: 0x0626, name: "ARABIC LETTER YEH WITH HAMZA ABOVE", aliases: &["ARABIC LETTER HAMZAH ON YA"] },
        Codepoint { codepoint: 0x0627, name: "ARABIC LETTER ALEF", aliases: &[] },
        Codepoint { codepoint: 0x0628, name: "ARABIC LETTER BEH", aliases: &["ARABIC LETTER BAA"] },
        Codepoint { codepoint: 0x0629, name: "ARABIC LETTER TEH MARBUTA", aliases: &["ARABIC LETTER TAA MARBUTAH"] },
        Codepoint { codepoint: 0x062A, name: "ARABIC LETTER TEH", aliases: &["ARABIC LETTER TAA"] },
        Codepoint { codepoint: 0x062B, name: "ARABIC LETTER THEH", aliases: &["ARABIC LETTER THAA"] },
        Codepoint { codepoint: 0x062C, name: "ARABIC LETTER JEEM", aliases: &[] },
        Codepoint { codepoint: 0x062D, name: "ARABIC LETTER HAH", aliases: &["ARABIC LETTER HAA"] },
        Codepoint { codepoint: 0x062E, name: "ARABIC LETTER KHAH", aliases: &["ARABIC LETTER KHAA"] },
        Codepoint { codepoint: 0x062F, name: "ARABIC LETTER DAL", aliases: &[] },
        Codepoint { codepoint: 0x0630, name: "ARABIC LETTER THAL", aliases: &[] },
        Codepoint { codepoint: 0x0631, name: "ARABIC LETTER REH", aliases: &["ARABIC LETTER RA"] },
        Codepoint { codepoint: 0x0632, name: "ARABIC LETTER ZAIN", aliases: &[] },
        Codepoint { codepoint: 0x0633, name: "ARABIC LETTER SEEN", aliases: &[] },
        Codepoint { codepoint: 0x0634, name: "ARABIC LETTER SHEEN", aliases: &[] },
        Codepoint { codepoint: 0x0635, name: "ARABIC LETTER SAD", aliases: &[] },
        Codepoint { codepoint: 0x0636, name: "ARABIC LETTER DAD", aliases: &[] },
        Codepoint { codepoint: 0x0637, name: "ARABIC LETTER TAH", aliases: &[] },
        Codepoint { codepoint: 0x0638, name: "ARABIC LETTER ZAH", aliases: &["ARABIC LETTER DHAH"] },
        Codepoint { codepoint: 0x0639, name: "ARABIC LETTER AIN", aliases: &[] },
        Codepoint { codepoint: 0x063A, name: "ARABIC LETTER GHAIN", aliases: &[] },
        Codepoint { codepoint: 0x063B, name: "ARABIC LETTER KEHEH WITH TWO DOTS ABOVE", aliases: &[] },
        Codepoint { codepoint: 0x063C, name: "ARABIC LETTER KEHEH WITH THREE DOTS BELOW", aliases: &[] },
        Codepoint { codepoint: 0x063D, name: "ARABIC LETTER FARSI YEH WITH INVERTED V", aliases: &[] },
    ];
    assert(v@ =~= codepoint_table_38());
    v
}

pub open spec fn codepoint_table_39() -> Seq<Codepoint> {
    seq![
        Codepoint { codepoint: 0x063E, name: "ARABIC LETTER FARSI YEH WITH TWO DOTS ABOVE", aliases: &[] },
        Codepoint { codepoint: 0x063F, name: "ARABIC LETTER FARSI YEH WITH THREE DOTS ABOVE", aliases: &[] },
        Codepoint { codepoint: 0x0640, name: "ARABIC TATWEEL", aliases: &[] },
        Codepoint { codepoint: 0x0641, name: "ARABIC LETTER FEH", aliases: &["ARABIC LETTER FA"] },
        Codepoint { codepoint: 0x0642, name: "ARABIC LETTER QAF", aliases: &[] },
        Codepoint { codepoint: 0x0643, name: "ARABIC LETTER KAF", aliases: &["ARABIC LETTER CAF"] },
        Codepoint { codepoint: 0x0644, name: "ARABIC LETTER LAM", aliases: &[] },
        Codepoint { codepoint: 0x0645, name: "ARABIC LETTER MEEM", aliases: &[] },
        Codepoint { codepoint: 0x0646, name: "ARABIC LETTER NOON", aliases: &[] },
        Codepoint { codepoint: 0x0647, name: "ARABIC LETTER HEH", aliases: &["ARABIC LETTER HA"] },
        Codepoint { codepoint: 0x0648, name: "ARABIC LETTER WAW", aliases: &[] },
        Codepoint { codepoint: 0x0649, name: "ARABIC LETTER ALEF MAKSURA", aliases: &["ARABIC LETTER ALEF MAQSURAH"] },
        Codepoint { codepoint: 0x064A, name: "ARABIC LETTER YEH", aliases: &["ARABIC LETTER YA"] },
        Codepoint { codepoint: 0x064B, name: "ARABIC FATHATAN", aliases: &[] },
        Codepoint { codepoint: 0x064C, name: "ARABIC DAMMATAN", aliases: &[] },
        Codepoint { codepoint: 0x064D, name: "ARABIC KASRATAN", aliases: &[] },
        Codepoint { codepoint: 0x064E, name: "ARABIC FATHA", aliases: &["ARABIC FATHAH"] },
        Codepoint { codepoint: 0x064F, name: "ARABIC DAMMA", aliases: &["ARABIC DAMMAH"] },
        Codepoint { codepoint: 0x0650, name: "ARABIC KASRA", aliases: &["ARABIC KASRAH"] },
        Codepoint { codepoint: 0x0651, name: "ARABIC SHADDA", aliases: &["ARABIC SHADDAH"] },
        Codepoint { codepoint: 0x0652, name: "ARABIC SUKUN", aliases: &[] },
        Codepoint { codepoint: 0x0653, name: "ARABIC MADDAH ABOVE", aliases: &[] },
        Codepoint { codepoint: 0x0654, name: "ARABIC HAMZA ABOVE", aliases: &[] },
        Codepoint { codepoint: 0x0655, name: "ARABIC HAMZA BELOW", aliases: &[] },
        Codepoint { codepoint: 0x0656, name: "ARABIC SUBSCRIPT ALEF", aliases: &[] },
        Codepoint { codepoint: 0x0657, name: "ARABIC INVERTED DAMMA", aliases: &[] },
        Codepoint { codepoint: 0x0658, name: "ARABIC MARK NOON GHUNNA", aliases: &[] },
        Codepoint { codepoint: 0x0659, name: "ARABIC ZWARAKAY", aliases: &[] },
        Codepoint { codepoint: 0x065A, name: "ARABIC VOWEL SIGN SMALL V ABOVE", aliases: &[] },
        Codepoint { codepoint: 0x065B, name: "ARABIC VOWEL SIGN INVERTED SMALL V ABOVE", aliases: &[] },
        Codepoint { codepoint: 0x065C, name: "ARABIC VOWEL SIGN DOT BELOW", aliases: &[] },
        Codepoint { codepoint: 0x065D, name: "ARABIC REVERSED DAMMA", aliases: &[] },
        Codepoint { codepoint: 0x065E, name: "ARABIC FATHA WITH TWO DOTS", aliases: &[] },
        Codepoint { codepoint: 0x065F, name: "ARABIC WAVY HAMZA BELOW", aliases: &[] },
        Codepoint { codepoint: 0x0660, name: "ARABIC-INDIC DIGIT ZERO", aliases: &[] },
        Codepoint { codepoint: 0x0661, name: "ARABIC-INDIC DIGIT ONE", aliases: &[] },
        Codepoint { codepoint: 0x0662, name: "ARABIC-INDIC DIGIT TWO", aliases: &[] },
        Codepoint { codepoint: 0x0663, name: "ARABIC-INDIC DIGIT THREE", aliases: &[] },
        Codepoint { codepoint: 0x0664, name: "ARABIC-INDIC DIGIT FOUR", aliases: &[] },
        Codepoint { codepoint: 0x0665, name: "ARABIC-INDIC DIGIT FIVE", aliases: &[] },
    ]
}

fn all_codepoints_39() -> (v: Vec<Codepoint>)
    ensures
        v@ == codepoint_table_39(),
{
    let v = vec![
        Codepoint { codepoint: 0x063E, name: "ARABIC LETTER FARSI YEH WITH TWO DOTS ABOVE", aliases: &[] },
        Codepoint { codepoint: 0x063F, name: "ARABIC LETTER FARSI YEH WITH THREE DOTS ABOVE", aliases: &[] },
        Codepoint { codepoint: 0x0640, name: "ARABIC TATWEEL", aliases: &[] },
        Codepoint { codepoint: 0x0641, name: "ARABIC LETTER FEH", aliases: &["ARABIC LETTER FA"] },
        Codepoint { codepoint: 0x0642, name: "ARABIC LETTER QAF", aliases: &[] },
        Codepoint { codepoint: 0x0643, name: "ARABIC LETTER KAF", aliases: &["ARABIC LETTER CAF"] },
        Codepoint { codepoint: 0x0644, name: "ARABIC LETTER LAM", aliases: &[] },
        Codepoint { codepoint: 0x0645, name: "ARABIC LETTER MEEM", aliases: &[] },
        Codepoint { codepoint: 0x0646, name: "ARABIC LETTER NOON", aliases: &[] },
        Codepoint { codepoint: 0x0647, name: "ARABIC LETTER HEH", aliases: &["ARABIC LETTER HA"] },
        Codepoint { codepoint: 0x0648, name: "ARABIC LETTER WAW", aliases: &[] },
        Codepoint { codepoint: 0x0649, name: "ARABIC LETTER ALEF MAKSURA", aliases: &["ARABIC LETTER ALEF MAQSURAH"] },
        Codepoint { codepoint: 0x064A, name: "ARABIC LETTER YEH", aliases: &["ARABIC LETTER YA"] },
        Codepoint { codepoint: 0x064B, name: "ARABIC FATHATAN", aliases: &[] },
        Codepoint { codepoint: 0x064C, name: "ARABIC DAMMATAN", aliases: &[] },
        Codepoint { codepoint: 0x064D, name: "ARABIC KASRATAN", aliases: &[] },
        Codepoint { codepoint: 0x064E, name: "ARABIC FATHA", aliases: &["ARABIC FATHAH"] },
        Codepoint { codepoint: 0x064F, name: "ARABIC DAMMA", aliases: &["ARABIC DAMMAH"] },
        Codepoint { codepoint: 0x0650, name: "ARABIC KASRA", aliases: &["ARABIC KASRAH"] },
        Codepoint { codepoint: 0x0651, name: "ARABIC SHADDA", aliases: &["ARABIC SHADDAH"] },
        Codepoint { codepoint: 0x0652, name: "ARABIC SUKUN", aliases: &[] },
        Codepoint { codepoint: 0x0653, name: "ARABIC MADDAH ABOVE", aliases: &[] },
        Codepoint { codepoint: 0x0654, name: "ARABIC HAMZA ABOVE", aliases: &[] },
        Codepoint { codepoint: 0x0655, name: "ARABIC HAMZA BELOW", aliases: &[] },
        Codepoint { codepoint: 0x0656, name: "ARABIC SUBSCRIPT ALEF", aliases: &[] },
        Codepoint { codepoint: 0x0657, name: "ARABIC INVERTED DAMMA", aliases: &[] },
        Codepoint { codepoint: 0x0658, name: "ARABIC MARK NOON GHUNNA", aliases: &[] },
        Codepoint { codepoint: 0x0659, name: "ARABIC ZWARAKAY", aliases: &[] },
        Codepoint { codepoint: 0x065A, name: "ARABIC VOWEL SIGN SMALL V ABOVE", aliases: &[] },
        Codepoint { codepoint: 0x065B, name: "ARABIC VOWEL SIGN INVERTED SMALL V ABOVE", aliases: &[] },
        Codepoint { codepoint: 0x065C, name: "ARABIC VOWEL SIGN DOT BELOW", aliases: &[] },
        Codepoint { codepoint: 0x065D, name: "ARABIC REVERSED DAMMA", aliases: &[] },
        Codepoint { codepoint: 0x065E, name: "ARABIC FATHA WITH TWO DOTS", aliases: &[] },
        Codepoint { codepoint: 0x065F, name: "ARABIC WAVY HAMZA BELOW", aliases: &[] },
        Codepoint { codepoint: 0x0660, name: "ARABIC-INDIC DIGIT ZERO", aliases: &[] },
        Codepoint { codepoint: 0x0661, name: "ARABIC-INDIC DIGIT ONE", aliases: &[] },
        Codepoint { codepoint: 0x0662, name: "ARABIC-INDIC DIGIT TWO", aliases: &[] },
        Codepoint { codepoint: 0x0663, name: "ARABIC-INDIC DIGIT THREE", aliases: &[] },
        Codepoint { codepoint: 0x0664, name: "ARABIC-INDIC DIGIT FOUR", aliases: &[] },
        Codepoint { codepoint: 0x0665, name: "ARABIC-INDIC DIGIT FIVE", aliases: &[] },
    ];
    assert(v@ =~= codepoint_table_39());
    v
}

/// The entries from position 800 of the table, 800 at most.
pub open spec fn codepoint_group_1() -> Seq<Codepoint> {
    codepoint_table_20() + codepoint_table_21() + codepoint_table_22() + codepoint_table_23() + codepoint_table_24() + codepoint_table_25() + codepoint_table_26() + codepoint_table_27() + codepoint_table_28() + codepoint_table_29() + codepoint_table_30() + codepoint_table_31() + codepoint_table_32() + codepoint_table_33() + codepoint_table_34() + codepoint_table_35() + codepoint_table_36() + codepoint_table_37() + codepoint_table_38() + codepoint_table_39()
}

pub fn all_codepoints_group_1() -> (v: Vec<Codepoint>)
    ensures
        v@ == codepoint_group_1(),
{
    let mut v = all_codepoints_20();
    let mut part = all_codepoints_21();
    v.append(&mut part);
    let mut part = all_codepoints_22();
    v.append(&mut part);
    let mut part = all_codepoints_23();
    v.append(&mut part);
    let mut part = all_codepoints_24();
    v.append(&mut part);
    let mut part = all_codepoints_25();
    v.append(&mut part);
    let mut part = all_codepoints_26();
    v.append(&mut part);
    let mut part = all_codepoints_27();
    v.append(&mut part);
    let mut part = all_codepoints_28();
    v.append(&mut part);
    let mut part = all_codepoints_29();
    v.append(&mut part);
    let mut part = all_codepoints_30();
    v.append(&mut part);
    let mut part = all_codepoints_31();
    v.append(&mut part);
    let mut part = all_codepoints_32();
    v.append(&mut part);
    let mut part = all_codepoints_33();
    v.append(&mut part);
    let mut part = all_codepoints_34();
    v.append(&mut part);
    let mut part = all_codepoints_35();
    v.append(&mut part);
    let mut part = all_codepoints_36();
    v.append(&mut part);
    let mut part = all_codepoints_37();
    v.append(&mut part);
    let mut part = all_codepoints_38();
    v.append(&mut part);
    let mut part = all_codepoints_39();
    v.append(&mut part);
    v
}

pub open spec fn codepoint_table_40() -> Seq<Codepoint> {
    seq![
        Codepoint { codepoint: 0x0666, name: "ARABIC-INDIC DIGIT SIX", aliases: &[] },
        Codepoint { codepoint: 0x0667, name: "ARABIC-INDIC DIGIT SEVEN", aliases: &[] },
        Codepoint { codepoint: 0x0668, name: "ARABIC-INDIC DIGIT EIGHT", aliases: &[] },
        Codepoint { codepoint: 0x0669, name: "ARABIC-INDIC DIGIT NINE", aliases: &[] },
        Codepoint { codepoint: 0x066A, name: "ARABIC PERCENT SIGN", aliases: &[] },
        Codepoint { codepoint: 0x066B, name: "ARABIC DECIMAL SEPARATOR", aliases: &[] },
        Codepoint { codepoint: 0x066C, name: "ARABIC THOUSANDS SEPARATOR", aliases: &[] },
        Codepoint { codepoint: 0x066D, name: "ARABIC FIVE POINTED STAR", aliases: &[] },
        Codepoint { codepoint: 0x066E, name: "ARABIC LETTER DOTLESS BEH", aliases: &[] },
        Codepoint { codepoint: 0x066F, name: "ARABIC LETTER DOTLESS QAF", aliases: &[] },
        Codepoint { codepoint: 0x0670, name: "ARABIC LETTER SUPERSCRIPT ALEF", aliases: &["ARABIC ALEF ABOVE"] },
        Codepoint { codepoint: 0x0671, name: "ARABIC LETTER ALEF WASLA", aliases: &["ARABIC LETTER HAMZAT WASL ON ALEF"] },
        Codepoint { codepoint: 0x0672, name: "ARABIC LETTER ALEF WITH WAVY HAMZA ABOVE", aliases: &["ARABIC LETTER WAVY HAMZAH ON ALEF"] },
        Codepoint { codepoint: 0x0673, name: "ARABIC LETTER ALEF WITH WAVY HAMZA BELOW", aliases: &["ARABIC LETTER WAVY HAMZAH UNDER ALEF"] },
        Codepoint { codepoint: 0x0674, name: "ARABIC LETTER HIGH HAMZA", aliases: &["ARABIC LETTER HIGH HAMZAH"] },
        Codepoint { codepoint: 0x0675, name: "ARABIC LETTER HIGH HAMZA ALEF", aliases: &["ARABIC LETTER HIGH HAMZAH ALEF"] },
        Codepoint { codepoint: 0x0676, name: "ARABIC LETTER HIGH HAMZA WAW", aliases: &["ARABIC LETTER HIGH HAMZAH WAW"] },
        Codepoint { codepoint: 0x0677, name: "ARABIC LETTER U WITH HAMZA ABOVE", aliases: &["ARABIC LETTER HIGH HAMZAH WAW WITH DAMMAH"] },
        Codepoint { codepoint: 0x0678, name: "ARABIC LETTER HIGH HAMZA YEH", aliases: &["ARABIC LETTER HIGH HAMZAH YA"] },
        Codepoint { codepoint: 0x0679, name: "ARABIC LETTER TTEH", aliases: &["ARABIC LETTER TAA WITH SMALL TAH"] },
        Codepoint { codepoint: 0x067A, name: "ARABIC LETTER TTEHEH", aliases: &["ARABIC LETTER TAA WITH TWO DOTS VERTICAL ABOVE"] },
        Codepoint { codepoint: 0x067B, name: "ARABIC LETTER BEEH", aliases: &["ARABIC LETTER BAA WITH TWO DOTS VERTICAL BELOW"] },
        Codepoint { codepoint: 0x067C, name: "ARABIC LETTER TEH WITH RING", aliases: &["ARABIC LETTER TAA WITH RING"] },
        Codepoint { codepoint: 0x067D, name: "ARABIC LETTER TEH WITH THREE DOTS ABOVE DOWNWARDS", aliases: &["ARABIC LETTER TAA WITH THREE DOTS ABOVE DOWNWARD"] },
        Codepoint { codepoint: 0x067E, name: "ARABIC LETTER PEH", aliases: &["ARABIC LETTER TAA WITH THREE DOTS BELOW"] },
        Codepoint { codepoint: 0x067F, name: "ARABIC LETTER TEHEH", aliases: &["ARABIC LETTER TAA WITH FOUR DOTS ABOVE"] },
        Codepoint { codepoint: 0x0680, name: "ARABIC LETTER BEHEH", aliases: &["ARABIC LETTER BAA WITH FOUR DOTS BELOW"] },
        Codepoint { codepoint: 0x0681, name: "ARABIC LETTER HAH WITH HAMZA ABOVE", aliases: &["ARABIC LETTER HAMZAH ON HAA"] },
        Codepoint { codepoint: 0x0682, name: "ARABIC LETTER HAH WITH TWO DOTS VERTICAL ABOVE", aliases: &["ARABIC LETTER HAA WITH TWO DOTS VERTICAL ABOVE"] },
        Codepoint { codepoint: 0x0683, name: "ARABIC LETTER NYEH", aliases: &["ARABIC LETTER HAA WITH MIDDLE TWO DOTS"] },
        Codepoint { codepoint: 0x0684, name: "ARABIC LETTER DYEH", aliases: &["ARABIC LETTER HAA WITH MIDDLE TWO DOTS VERTICAL"] },
        Codepoint { codepoint: 0x0685, name: "ARABIC LETTER HAH WITH THREE DOTS ABOVE", aliases: &["ARABIC LETTER HAA WITH THREE DOTS ABOVE"] },
        Codepoint { codepoint: 0x0686, name: "ARABIC LETTER TCHEH", aliases: &["ARABIC LETTER HAA WITH MIDDLE THREE DOTS DOWNWARD"] },
        Codepoint { codepoint: 0x0687, name: "ARABIC LETTER TCHEHEH", aliases: &["ARABIC LETTER HAA WITH MIDDLE FOUR DOTS"] },
        Codepoint { codepoint: 0x0688, name: "ARABIC LETTER DDAL", aliases: &["ARABIC LETTER DAL WITH SMALL TAH"] },
        Codepoint { codepoint: 0x0689, name: "ARABIC LETTER DAL WITH RING", aliases: &[] },
        Codepoint { codepoint: 0x068A, name: "ARABIC LETTER DAL WITH DOT BELOW", aliases: &[] },
        Codepoint { codepoint: 0x068B, name: "ARABIC LETTER DAL WITH DOT BELOW AND SMALL TAH", aliases: &[] },
        Codepoint { codepoint: 0x068C, name: "ARABIC LETTER DAHAL", aliases: &["ARABIC LETTER DAL WITH TWO DOTS ABOVE"] },
        Codepoint { codepoint: 0x068D, name: "ARABIC LETTER DDAHAL", aliases: &["ARABIC LETTER DAL WITH TWO DOTS BELOW"] },
    ]
}

fn all_codepoints_40() -> (v: Vec<Codepoint>)
    ensures
        v@ == codepoint_table_40(),
{
    let v = vec![
        Codepoint { codepoint: 0x0666, name: "ARABIC-INDIC DIGIT SIX", aliases: &[] },
        Codepoint { codepoint: 0x0667, name: "ARABIC-INDIC DIGIT SEVEN", aliases: &[] },
        Codepoint { codepoint: 0x0668, name: "ARABIC-INDIC DIGIT EIGHT", aliases: &[] },
        Codepoint { codepoint: 0x0669, name: "ARABIC-INDIC DIGIT NINE", aliases: &[] },
        Codepoint { codepoint: 0x066A, name: "ARABIC PERCENT SIGN", aliases: &[] },
        Codepoint { codepoint: 0x066B, name: "ARABIC DECIMAL SEPARATOR", aliases: &[] },
        Codepoint { codepoint: 0x066C, name: "ARABIC THOUSANDS SEPARATOR", aliases: &[] },
        Codepoint { codepoint: 0x066D, name: "ARABIC FIVE POINTED STAR", aliases: &[] },
        Codepoint { codepoint: 0x066E, name: "ARABIC LETTER DOTLESS BEH", aliases: &[] },
        Codepoint { codepoint: 0x066F, name: "ARABIC LETTER DOTLESS QAF", aliases: &[] },
        Codepoint { codepoint: 0x0670, name: "ARABIC LETTER SUPERSCRIPT ALEF", aliases: &["ARABIC ALEF ABOVE"] },
        Codepoint { codepoint: 0x0671, name: "ARABIC LETTER ALEF WASLA", aliases: &["ARABIC LETTER HAMZAT WASL ON ALEF"] },
        Codepoint { codepoint: 0x0672, name: "ARABIC LETTER ALEF WITH WAVY HAMZA ABOVE", aliases: &["ARABIC LETTER WAVY HAMZAH ON ALEF"] },
        Codepoint { codepoint: 0x0673, name: "ARABIC LETTER ALEF WITH WAVY HAMZA BELOW", aliases: &["ARABIC LETTER WAVY HAMZAH UNDER ALEF"] },
        Codepoint { codepoint: 0x0674, name: "ARABIC LETTER HIGH HAMZA", aliases: &["ARABIC LETTER HIGH HAMZAH"] },
        Codepoint { codepoint: 0x0675, name: "ARABIC LETTER HIGH HAMZA ALEF", aliases: &["ARABIC LETTER HIGH HAMZAH ALEF"] },
        Codepoint { codepoint: 0x0676, name: "ARABIC LETTER HIGH HAMZA WAW", aliases: &["ARABIC LETTER HIGH HAMZAH WAW"] },
        Codepoint { codepoint: 0x0677, name: "ARABIC LETTER U WITH HAMZA ABOVE", aliases: &["ARABIC LETTER HIGH HAMZAH WAW WITH DAMMAH"] },
        Codepoint { codepoint: 0x0678, name: "ARABIC LETTER HIGH HAMZA YEH", aliases: &["ARABIC LETTER HIGH HAMZAH YA"] },
        Codepoint { codepoint: 0x0679, name: "ARABIC LETTER TTEH", aliases: &["ARABIC LETTER TAA WITH SMALL TAH"] },
        Codepoint { codepoint: 0x067A, name: "ARABIC LETTER TTEHEH", aliases: &["ARABIC LETTER TAA WITH TWO DOTS VERTICAL ABOVE"] },
        Codepoint { codepoint: 0x067B, name: "ARABIC LETTER BEEH", aliases: &["ARABIC LETTER BAA WITH TWO DOTS VERTICAL BELOW"] },
        Codepoint { codepoint: 0x067C, name: "ARABIC LETTER TEH WITH RING", aliases: &["ARABIC LETTER TAA WITH RING"] },
        Codepoint { codepoint: 0x067D, name: "ARABIC LETTER TEH WITH THREE DOTS ABOVE DOWNWARDS", aliases: &["ARABIC LETTER TAA WITH THREE DOTS ABOVE DOWNWARD"] },
        Codepoint { codepoint: 0x067E, name: "ARABIC LETTER PEH", aliases: &["ARABIC LETTER TAA WITH THREE DOTS BELOW"] },
        Codepoint { codepoint: 0x067F, name: "ARABIC LETTER TEHEH", aliases: &["ARABIC LETTER TAA WITH FOUR DOTS ABOVE"] },
        Codepoint { codepoint: 0x0680, name: "ARABIC LETTER BEHEH", aliases: &["ARABIC LETTER BAA WITH FOUR DOTS BELOW"] },
        Codepoint { codepoint: 0x0681, name: "ARABIC LETTER HAH WITH HAMZA ABOVE", aliases: &["ARABIC LETTER HAMZAH ON HAA"] },
        Codepoint { codepoint: 0x0682, name: "ARABIC LETTER HAH WITH TWO DOTS VERTICAL ABOVE", aliases: &["ARABIC LETTER HAA WITH TWO DOTS VERTICAL ABOVE"] },
        Codepoint { codepoint: 0x0683, name: "ARABIC LETTER NYEH", aliases: &["ARABIC LETTER HAA WITH MIDDLE TWO DOTS"] },
        Codepoint { codepoint: 0x0684, name: "ARABIC LETTER DYEH", aliases: &["ARABIC LETTER HAA WITH MIDDLE TWO DOTS VERTICAL"] },
        Codepoint { codepoint: 0x0685, name: "ARABIC LETTER HAH WITH THREE DOTS ABOVE", aliases: &["ARABIC LETTER HAA WITH THREE DOTS ABOVE"] },
        Codepoint { codepoint: 0x0686, name: "ARABIC LETTER TCHEH", aliases: &["ARABIC LETTER HAA WITH MIDDLE THREE DOTS DOWNWARD"] },
        Codepoint { codepoint: 0x0687, name: "ARABIC LETTER TCHEHEH", aliases: &["ARABIC LETTER HAA WITH MIDDLE FOUR DOTS"] },
        Codepoint { codepoint: 0x0688, name: "ARABIC LETTER DDAL", aliases: &["ARABIC LETTER DAL WITH SMALL TAH"] },
        Codepoint { codepoint: 0x0689, name: "ARABIC LETTER DAL WITH RING", aliases: &[] },
        Codepoint { codepoint: 0x068A, name: "ARABIC LETTER DAL WITH DOT BELOW", aliases: &[] },
        Codepoint { codepoint: 0x068B, name: "ARABIC LETTER DAL WITH DOT BELOW AND SMALL TAH", aliases: &[] },
        Codepoint { codepoint: 0x068C, name: "ARABIC LETTER DAHAL", aliases: &["ARABIC LETTER DAL WITH TWO DOTS ABOVE"] },
        Codepoint { codepoint: 0x068D, name: "ARABIC LETTER DDAHAL", aliases: &["ARABIC LETTER DAL WITH TWO DOTS BELOW"] },
    ];
    assert(v@ =~= codepoint_table_40());
    v
}

pub open spec fn codepoint_table_41() -> Seq<Codepoint> {
    seq![
        Codepoint { codepoint: 0x068E, name: "ARABIC LETTER DUL", aliases: &["ARABIC LETTER DAL WITH THREE DOTS ABOVE"] },
        Codepoint { codepoint: 0x068F, name: "ARABIC LETTER DAL WITH THREE DOTS ABOVE DOWNWARDS", aliases: &["ARABIC LETTER DAL WITH THREE DOTS ABOVE DOWNWARD"] },
        Codepoint { codepoint: 0x0690, name: "ARABIC LETTER DAL WITH FOUR DOTS ABOVE", aliases: &[] },
        Codepoint { codepoint: 0x0691, name: "ARABIC LETTER RREH", aliases: &["ARABIC LETTER RA WITH SMALL TAH"] },
        Codepoint { codepoint: 0x0692, name: "ARABIC LETTER REH WITH SMALL V", aliases: &["ARABIC LETTER RA WITH SMALL V"] },
        Codepoint { codepoint: 0x0693, name: "ARABIC LETTER REH WITH RING", aliases: &["ARABIC LETTER RA WITH RING"] },
        Codepoint { codepoint: 0x0694, name: "ARABIC LETTER REH WITH DOT BELOW", aliases: &["ARABIC LETTER RA WITH DOT BELOW"] },
        Codepoint { codepoint: 0x0695, name: "ARABIC LETTER REH WITH SMALL V BELOW", aliases: &["ARABIC LETTER RA WITH SMALL V BELOW"] },
        Codepoint { codepoint: 0x0696, name: "ARABIC LETTER REH WITH DOT BELOW AND DOT ABOVE", aliases: &["ARABIC LETTER RA WITH DOT BELOW AND DOT ABOVE"] },
        Codepoint { codepoint: 0x0697, name: "ARABIC LETTER REH WITH TWO DOTS ABOVE", aliases: &["ARABIC LETTER RA WITH TWO DOTS ABOVE"] },
        Codepoint { codepoint: 0x0698, name: "ARABIC LETTER JEH", aliases: &["ARABIC LETTER RA WITH THREE DOTS ABOVE"] },
        Codepoint { codepoint: 0x0699, name: "ARABIC LETTER REH WITH FOUR DOTS ABOVE", aliases: &["ARABIC LETTER RA WITH FOUR DOTS ABOVE"] },
        Codepoint { codepoint: 0x069A, name: "ARABIC LETTER SEEN WITH DOT BELOW AND DOT ABOVE", aliases: &[] },
        Codepoint { codepoint: 0x069B, name: "ARABIC LETTER SEEN WITH THREE DOTS BELOW", aliases: &[] },
        Codepoint { codepoint: 0x069C, name: "ARABIC LETTER SEEN WITH THREE DOTS BELOW AND THREE DOTS ABOVE", aliases: &[] },
        Codepoint { codepoint: 0x069D, name: "ARABIC LETTER SAD WITH TWO DOTS BELOW", aliases: &[] },
        Codepoint { codepoint: 0x069E, name: "ARABIC LETTER SAD WITH THREE DOTS ABOVE", aliases: &[] },
        Codepoint { codepoint: 0x069F, name: "ARABIC LETTER TAH WITH THREE DOTS ABOVE", aliases: &[] },
        Codepoint { codepoint: 0x06A0, name: "ARABIC LETTER AIN WITH THREE DOTS ABOVE", aliases: &[] },
        Codepoint { codepoint: 0x06A1, name: "ARABIC LETTER DOTLESS FEH", aliases: &["ARABIC LETTER DOTLESS FA"] },
        Codepoint { codepoint: 0x06A2, name: "ARABIC LETTER FEH WITH DOT MOVED BELOW", aliases: &["ARABIC LETTER FA WITH DOT MOVED BELOW"] },
        Codepoint { codepoint: 0x06A3, name: "ARABIC LETTER FEH WITH DOT BELOW", aliases: &["ARABIC LETTER FA WITH DOT BELOW"] },
        Codepoint { codepoint: 0x06A4, name: "ARABIC LETTER VEH", aliases: &["ARABIC LETTER FA WITH THREE DOTS ABOVE"] },
        Codepoint { codepoint: 0x06A5, name: "ARABIC LETTER FEH WITH THREE DOTS BELOW", aliases: &["ARABIC LETTER FA WITH THREE DOTS BELOW"] },
        Codepoint { codepoint: 0x06A6, name: "ARABIC LETTER PEHEH", aliases: &["ARABIC LETTER FA WITH FOUR DOTS ABOVE"] },
        Codepoint { codepoint: 0x06A7, name: "ARABIC LETTER QAF WITH DOT ABOVE", aliases: &[] },
        Codepoint { codepoint: 0x06A8, name: "ARABIC LETTER QAF WITH THREE DOTS ABOVE", aliases: &[] },
        Codepoint { codepoint: 0x06A9, name: "ARABIC LETTER KEHEH", aliases: &["ARABIC LETTER OPEN CAF"] },
        Codepoint { codepoint: 0x06AA, name: "ARABIC LETTER SWASH KAF", aliases: &["ARABIC LETTER SWASH CAF"] },
        Codepoint { codepoint: 0x06AB, name: "ARABIC LETTER KAF WITH RING", aliases: &["ARABIC LETTER CAF WITH RING"] },
        Codepoint { codepoint: 0x06AC, name: "ARABIC LETTER KAF WITH DOT ABOVE", aliases: &["ARABIC LETTER CAF WITH DOT ABOVE"] },
        Codepoint { codepoint: 0x06AD, name: "ARABIC LETTER NG", aliases: &["ARABIC LETTER CAF WITH THREE DOTS ABOVE"] },
        Codepoint { codepoint: 0x06AE, name: "ARABIC LETTER KAF WITH THREE DOTS BELOW", aliases: &["ARABIC LETTER CAF WITH THREE DOTS BELOW"] },
        Codepoint { codepoint: 0x06AF, name: "ARABIC LETTER GAF", aliases: &[] },
        Codepoint { codepoint: 0x06B0, name: "ARABIC LETTER GAF WITH RING", aliases: &[] },
        Codepoint { codepoint: 0x06B1, name: "ARABIC LETTER NGOEH", aliases: &["ARABIC LETTER GAF WITH TWO DOTS ABOVE"] },
        Codepoint { codepoint: 0x06B2, name: "ARABIC LETTER GAF WITH TWO DOTS BELOW", aliases: &[] },
        Codepoint { codepoint: 0x06B3, name: "ARABIC LETTER GUEH", aliases: &["ARABIC LETTER GAF WITH TWO DOTS VERTICAL BELOW"] },
        Codepoint { codepoint: 0x06B4, name: "ARABIC LETTER GAF WITH THREE DOTS ABOVE", aliases: &[] },
        Codepoint { codepoint: 0x06B5, name: "ARABIC LETTER LAM WITH SMALL V", aliases: &[] },
    ]
}

fn all_codepoints_41() -> (v: Vec<Codepoint>)
    ensures
        v@ == codepoint_table_41(),
{
    let v = vec![
        Codepoint { codepoint: 0x068E, name: "ARABIC LETTER DUL", aliases: &["ARABIC LETTER DAL WITH THREE DOTS ABOVE"] },
        Codepoint { codepoint: 0x068F, name: "ARABIC LETTER DAL WITH THREE DOTS ABOVE DOWNWARDS", aliases: &["ARABIC LETTER DAL WITH THREE DOTS ABOVE DOWNWARD"] },
        Codepoint { codepoint: 0x0690, name: "ARABIC LETTER DAL WITH FOUR DOTS ABOVE", aliases: &[] },
        Codepoint { codepoint: 0x0691, name: "ARABIC LETTER RREH", aliases: &["ARABIC LETTER RA WITH SMALL TAH"] },
        Codepoint { codepoint: 0x0692, name: "ARABIC LETTER REH WITH SMALL V", aliases: &["ARABIC LETTER RA WITH SMALL V"] },
        Codepoint { codepoint: 0x0693, name: "ARABIC LETTER REH WITH RING", aliases: &["ARABIC LETTER RA WITH RING"] },
        Codepoint { codepoint: 0x0694, name: "ARABIC LETTER REH WITH DOT BELOW", aliases: &["ARABIC LETTER RA WITH DOT BELOW"] },
        Codepoint { codepoint: 0x0695, name: "ARABIC LETTER REH WITH SMALL V BELOW", aliases: &["ARABIC LETTER RA WITH SMALL V BELOW"] },
        Codepoint { codepoint: 0x0696, name: "ARABIC LETTER REH WITH DOT BELOW AND DOT ABOVE", aliases: &["ARABIC LETTER RA WITH DOT BELOW AND DOT ABOVE"] },
        Codepoint { codepoint: 0x0697, name: "ARABIC LETTER REH WITH TWO DOTS ABOVE", aliases: &["ARABIC LETTER RA WITH TWO DOTS ABOVE"] },
        Codepoint { codepoint: 0x0698, name: "ARABIC LETTER JEH", aliases: &["ARABIC LETTER RA WITH THREE DOTS ABOVE"] },
        Codepoint { codepoint: 0x0699, name: "ARABIC LETTER REH WITH FOUR DOTS ABOVE", aliases: &["ARABIC LETTER RA WITH FOUR DOTS ABOVE"] },
        Codepoint { codepoint: 0x069A, name: "ARABIC LETTER SEEN WITH DOT BELOW AND DOT ABOVE", aliases: &[] },
        Codepoint { codepoint: 0x069B, name: "ARABIC LETTER SEEN WITH THREE DOTS BELOW", aliases: &[] },
        Codepoint { codepoint: 0x069C, name: "ARABIC LETTER SEEN WITH THREE DOTS BELOW AND THREE DOTS ABOVE", aliases: &[] },
        Codepoint { codepoint: 0x069D, name: "ARABIC LETTER SAD WITH TWO DOTS BELOW", aliases: &[] },
        Codepoint { codepoint: 0x069E, name: "ARABIC LETTER SAD WITH THREE DOTS ABOVE", aliases: &[] },
        Codepoint { codepoint: 0x069F, name: "ARABIC LETTER TAH WITH THREE DOTS ABOVE", aliases: &[] },
        Codepoint { codepoint: 0x06A0, name: "ARABIC LETTER AIN WITH THREE DOTS ABOVE", aliases: &[] },
        Codepoint { codepoint: 0x06A1, name: "ARABIC LETTER DOTLESS FEH", aliases: &["ARABIC LETTER DOTLESS FA"] },
        Codepoint { codepoint: 0x06A2, name: "ARABIC LETTER FEH WITH DOT MOVED BELOW", aliases: &["ARABIC LETTER FA WITH DOT MOVED BELOW"] },
        Codepoint { codepoint: 0x06A3, name: "ARABIC LETTER FEH WITH DOT BELOW", aliases: &["ARABIC LETTER FA WITH DOT BELOW"] },
        Codepoint { codepoint: 0x06A4, name: "ARABIC LETTER VEH", aliases: &["ARABIC LETTER FA WITH THREE DOTS ABOVE"] },
        Codepoint { codepoint: 0x06A5, name: "ARABIC LETTER FEH WITH THREE DOTS BELOW", aliases: &["ARABIC LETTER FA WITH THREE DOTS BELOW"] },
        Codepoint { codepoint: 0x06A6, name: "ARABIC LETTER PEHEH", aliases: &["ARABIC LETTER FA WITH FOUR DOTS ABOVE"] },
        Codepoint { codepoint: 0x06A7, name: "ARABIC LETTER QAF WITH DOT ABOVE", aliases: &[] },
        Codepoint { codepoint: 0x06A8, name: "ARABIC LETTER QAF WITH THREE DOTS ABOVE", aliases: &[] },
        Codepoint { codepoint: 0x06A9, name: "ARABIC LETTER KEHEH", aliases: &["ARABIC LETTER OPEN CAF"] },
        Codepoint { codepoint: 0x06AA, name: "ARABIC LETTER SWASH KAF", aliases: &["ARABIC LETTER SWASH CAF"] },
        Codepoint { codepoint: 0x06AB, name: "ARABIC LETTER KAF WITH RING", aliases: &["ARABIC LETTER CAF WITH RING"] },
        Codepoint { codepoint: 0x06AC, name: "ARABIC LETTER KAF WITH DOT ABOVE", aliases: &["ARABIC LETTER CAF WITH DOT ABOVE"] },
        Codepoint { codepoint: 0x06AD, name: "ARABIC LETTER NG", aliases: &["ARABIC LETTER CAF WITH THREE DOTS ABOVE"] },
        Codepoint { codepoint: 0x06AE, name: "ARABIC LETTER KAF WITH THREE DOTS BELOW", aliases: &["ARABIC LETTER CAF WITH THREE DOTS BELOW"] },
        Codepoint { codepoint: 0x06AF, name: "ARABIC LETTER GAF", aliases: &[] },
        Codepoint { codepoint: 0x06B0, name: "ARABIC LETTER GAF WITH RING", aliases: &[] },
        Codepoint { codepoint: 0x06B1, name: "ARABIC LETTER NGOEH", aliases: &["ARABIC LETTER GAF WITH TWO DOTS ABOVE"] },
        Codepoint { codepoint: 0x06B2, name: "ARABIC LETTER GAF WITH TWO DOTS BELOW", aliases: &[] },
        Codepoint { codepoint: 0x06B3, name: "ARABIC LETTER GUEH", aliases: &["ARABIC LETTER GAF WITH TWO DOTS VERTICAL BELOW"] },
        Codepoint { codepoint: 0x06B4, name: "ARABIC LETTER GAF WITH THREE DOTS ABOVE", aliases: &[] },
        Codepoint { codepoint: 0x06B5, name: "ARABIC LETTER LAM WITH SMALL V", aliases: &[] },
    ];
    assert(v@ =~= codepoint_table_41());
    v
}

pub open spec fn codepoint_table_42() -> Seq<Codepoint> {
    seq![
        Codepoint { codepoint: 0x06B6, name: "ARABIC LETTER LAM WITH DOT ABOVE", aliases: &[] },
        Codepoint { codepoint: 0x06B7, name: "ARABIC LETTER LAM WITH THREE DOTS ABOVE", aliases: &[] },
        Codepoint { codepoint: 0x06B8, name: "ARABIC LETTER LAM WITH THREE DOTS BELOW", aliases: &[] },
        Codepoint { codepoint: 0x06B9, name: "ARABIC LETTER NOON WITH DOT BELOW", aliases: &[] },
        Codepoint { codepoint: 0x06BA, name: "ARABIC LETTER NOON GHUNNA", aliases: &["ARABIC LETTER DOTLESS NOON"] },
        Codepoint { codepoint: 0x06BB, name: "ARABIC LETTER RNOON", aliases: &["ARABIC LETTER DOTLESS NOON WITH SMALL TAH"] },
        Codepoint { codepoint: 0x06BC, name: "ARABIC LETTER NOON WITH RING", aliases: &[] },
        Codepoint { codepoint: 0x06BD, name: "ARABIC LETTER NOON WITH THREE DOTS ABOVE", aliases: &[] },
        Codepoint { codepoint: 0x06BE, name: "ARABIC LETTER HEH DOACHASHMEE", aliases: &["ARABIC LETTER KNOTTED HA"] },
        Codepoint { codepoint: 0x06BF, name: "ARABIC LETTER TCHEH WITH DOT ABOVE", aliases: &[] },
        Codepoint { codepoint: 0x06C0, name: "ARABIC LETTER HEH WITH YEH ABOVE", aliases: &["ARABIC LETTER HAMZAH ON HA"] },
        Codepoint { codepoint: 0x06C1, name: "ARABIC LETTER HEH GOAL", aliases: &["ARABIC LETTER HA GOAL"] },
        Codepoint { codepoint: 0x06C2, name: "ARABIC LETTER HEH GOAL WITH HAMZA ABOVE", aliases: &["ARABIC LETTER HAMZAH ON HA GOAL"] },
        Codepoint { codepoint: 0x06C3, name: "ARABIC LETTER TEH MARBUTA GOAL", aliases: &["ARABIC LETTER TAA MARBUTAH GOAL"] },
        Codepoint { codepoint: 0x06C4, name: "ARABIC LETTER WAW WITH RING", aliases: &[] },
        Codepoint { codepoint: 0x06C5, name: "ARABIC LETTER KIRGHIZ OE", aliases: &["ARABIC LETTER WAW WITH BAR"] },
        Codepoint { codepoint: 0x06C6, name: "ARABIC LETTER OE", aliases: &["ARABIC LETTER WAW WITH SMALL V"] },
        Codepoint { codepoint: 0x06C7, name: "ARABIC LETTER U", aliases: &["ARABIC LETTER WAW WITH DAMMAH"] },
        Codepoint { codepoint: 0x06C8, name: "ARABIC LETTER YU", aliases: &["ARABIC LETTER WAW WITH ALEF ABOVE"] },
        Codepoint { codepoint: 0x06C9, name: "ARABIC LETTER KIRGHIZ YU", aliases: &["ARABIC LETTER WAW WITH INVERTED SMALL V"] },
        Codepoint { codepoint: 0x06CA, name: "ARABIC LETTER WAW WITH TWO DOTS ABOVE", aliases: &[] },
        Codepoint { codepoint: 0x06CB, name: "ARABIC LETTER VE", aliases: &["ARABIC LETTER WAW WITH THREE DOTS ABOVE"] },
        Codepoint { codepoint: 0x06CC, name: "ARABIC LETTER FARSI YEH", aliases: &["ARABIC LETTER DOTLESS YA"] },
        Codepoint { codepoint: 0x06CD, name: "ARABIC LETTER YEH WITH TAIL", aliases: &["ARABIC LETTER YA WITH TAIL"] },
        Codepoint { codepoint: 0x06CE, name: "ARABIC LETTER YEH WITH SMALL V", aliases: &["ARABIC LETTER YA WITH SMALL V"] },
        Codepoint { codepoint: 0x06CF, name: "ARABIC LETTER WAW WITH DOT ABOVE", aliases: &[] },
        Codepoint { codepoint: 0x06D0, name: "ARABIC LETTER E", aliases: &["ARABIC LETTER YA WITH TWO DOTS VERTICAL BELOW"] },
        Codepoint { codepoint: 0x06D1, name: "ARABIC LETTER YEH WITH THREE DOTS BELOW", aliases: &["ARABIC LETTER YA WITH THREE DOTS BELOW"] },
        Codepoint { codepoint: 0x06D2, name: "ARABIC LETTER YEH BARREE", aliases: &["ARABIC LETTER YA BARREE"] },
        Codepoint { codepoint: 0x06D3, name: "ARABIC LETTER YEH BARREE WITH HAMZA ABOVE", aliases: &["ARABIC LETTER HAMZAH ON YA BARREE"] },
        Codepoint { codepoint: 0x06D4, name: "ARABIC FULL STOP", aliases: &["ARABIC PERIOD"] },
        Codepoint { codepoint: 0x06D5, name: "ARABIC LETTER AE", aliases: &[] },
        Codepoint { codepoint: 0x06D6, name: "ARABIC SMALL HIGH LIGATURE SAD WITH LAM WITH ALEF MAKSURA", aliases: &[] },
        Codepoint { codepoint: 0x06D7, name: "ARABIC SMALL HIGH LIGATURE QAF WITH LAM WITH ALEF MAKSURA", aliases: &[] },
        Codepoint { codepoint: 0x06D8, name: "ARABIC SMALL HIGH MEEM INITIAL FORM", aliases: &[] },
        Codepoint { codepoint: 0x06D9, name: "ARABIC SMALL HIGH LAM ALEF", aliases: &[] },
        Codepoint { codepoint: 0x06DA, name: "ARABIC SMALL HIGH JEEM", aliases: &[] },
        Codepoint { codepoint: 0x06DB, name: "ARABIC SMALL HIGH THREE DOTS", aliases: &[] },
        Codepoint { codepoint: 0x06DC, name: "ARABIC SMALL HIGH SEEN", aliases: &[] },
        Codepoint { codepoint: 0x06DD, name: "ARABIC END OF AYAH", aliases: &[] },
    ]
}

fn all_codepoints_42() -> (v: Vec<Codepoint>)
    ensures
        v@ == codepoint_table_42(),
{
    let v = vec![
        Codepoint { codepoint: 0x06B6, name: "ARABIC LETTER LAM WITH DOT ABOVE", aliases: &[] },
        Codepoint { codepoint: 0x06B7, name: "ARABIC LETTER LAM WITH THREE DOTS ABOVE", aliases: &[] },
        Codepoint { codepoint: 0x06B8, name: "ARABIC LETTER LAM WITH THREE DOTS BELOW", aliases: &[] },
        Codepoint { codepoint: 0x06B9, name: "ARABIC LETTER NOON WITH DOT BELOW", aliases: &[] },
        Codepoint { codepoint: 0x06BA, name: "ARABIC LETTER NOON GHUNNA", aliases: &["ARABIC LETTER DOTLESS NOON"] },
        Codepoint { codepoint: 0x06BB, name: "ARABIC LETTER RNOON", aliases: &["ARABIC LETTER DOTLESS NOON WITH SMALL TAH"] },
        Codepoint { codepoint: 0x06BC, name: "ARABIC LETTER NOON WITH RING", aliases: &[] },
        Codepoint { codepoint: 0x06BD, name: "ARABIC LETTER NOON WITH THREE DOTS ABOVE", aliases: &[] },
        Codepoint { codepoint: 0x06BE, name: "ARABIC LETTER HEH DOACHASHMEE", aliases: &["ARABIC LETTER KNOTTED HA"] },
        Codepoint { codepoint: 0x06BF, name: "ARABIC LETTER TCHEH WITH DOT ABOVE", aliases: &[] },
        Codepoint { codepoint: 0x06C0, name: "ARABIC LETTER HEH WITH YEH ABOVE", aliases: &["ARABIC LETTER HAMZAH ON HA"] },
        Codepoint { codepoint: 0x06C1, name: "ARABIC LETTER HEH GOAL", aliases: &["ARABIC LETTER HA GOAL"] },
        Codepoint { codepoint: 0x06C2, name: "ARABIC LETTER HEH GOAL WITH HAMZA ABOVE", aliases: &["ARABIC LETTER HAMZAH ON HA GOAL"] },
        Codepoint { codepoint: 0x06C3, name: "ARABIC LETTER TEH MARBUTA GOAL", aliases: &["ARABIC LETTER TAA MARBUTAH GOAL"] },
        Codepoint { codepoint: 0x06C4, name: "ARABIC LETTER WAW WITH RING", aliases: &[] },
        Codepoint { codepoint: 0x06C5, name: "ARABIC LETTER KIRGHIZ OE", aliases: &["ARABIC LETTER WAW WITH BAR"] },
        Codepoint { codepoint: 0x06C6, name: "ARABIC LETTER OE", aliases: &["ARABIC LETTER WAW WITH SMALL V"] },
        Codepoint { codepoint: 0x06C7, name: "ARABIC LETTER U", aliases: &["ARABIC LETTER WAW WITH DAMMAH"] },
        Codepoint { codepoint: 0x06C8, name: "ARABIC LETTER YU", aliases: &["ARABIC LETTER WAW WITH ALEF ABOVE"] },
        Codepoint { codepoint: 0x06C9, name: "ARABIC LETTER KIRGHIZ YU", aliases: &["ARABIC LETTER WAW WITH INVERTED SMALL V"] },
        Codepoint { codepoint: 0x06CA, name: "ARABIC LETTER WAW WITH TWO DOTS ABOVE", aliases: &[] },
        Codepoint { codepoint: 0x06CB, name: "ARABIC LETTER VE", aliases: &["ARABIC LETTER WAW WITH THREE DOTS ABOVE"] },
        Codepoint { codepoint: 0x06CC, name: "ARABIC LETTER FARSI YEH", aliases: &["ARABIC LETTER DOTLESS YA"] },
        Codepoint { codepoint: 0x06CD, name: "ARABIC LETTER YEH WITH TAIL", aliases: &["ARABIC LETTER YA WITH TAIL"] },
        Codepoint { codepoint: 0x06CE, name: "ARABIC LETTER YEH WITH SMALL V", aliases: &["ARABIC LETTER YA WITH SMALL V"] },
        Codepoint { codepoint: 0x06CF, name: "ARABIC LETTER WAW WITH DOT ABOVE", aliases: &[] },
        Codepoint { codepoint: 0x06D0, name: "ARABIC LETTER E", aliases: &["ARABIC LETTER YA WITH TWO DOTS VERTICAL BELOW"] },
        Codepoint { codepoint: 0x06D1, name: "ARABIC LETTER YEH WITH THREE DOTS BELOW", aliases: &["ARABIC LETTER YA WITH THREE DOTS BELOW"] },
        Codepoint { codepoint: 0x06D2, name: "ARABIC LETTER YEH BARREE", aliases: &["ARABIC LETTER YA BARREE"] },
        Codepoint { codepoint: 0x06D3, name: "ARABIC LETTER YEH BARREE WITH HAMZA ABOVE", aliases: &["ARABIC LETTER HAMZAH ON YA BARREE"] },
        Codepoint { codepoint: 0x06D4, name: "ARABIC FULL STOP", aliases: &["ARABIC PERIOD"] },
        Codepoint { codepoint: 0x06D5, name: "ARABIC LETTER AE", aliases: &[] },
        Codepoint { codepoint: 0x06D6, name: "ARABIC SMALL HIGH LIGATURE SAD WITH LAM WITH ALEF MAKSURA", aliases: &[] },
        Codepoint { codepoint: 0x06D7, name: "ARABIC SMALL HIGH LIGATURE QAF WITH LAM WITH ALEF MAKSURA", aliases: &[] },
        Codepoint { codepoint: 0x06D8, name: "ARABIC SMALL HIGH MEEM INITIAL FORM", aliases: &[] },
        Codepoint { codepoint: 0x06D9, name: "ARABIC SMALL HIGH LAM ALEF", aliases: &[] },
        Codepoint { codepoint: 0x06DA, name: "ARABIC SMALL HIGH JEEM", aliases: &[] },
        Codepoint { codepoint: 0x06DB, name: "ARABIC SMALL HIGH THREE DOTS", aliases: &[] },
        Codepoint { codepoint: 0x06DC, name: "ARABIC SMALL HIGH SEEN", aliases: &[] },
        Codepoint { codepoint: 0x06DD, name: "ARABIC END OF AYAH", aliases: &[] },
    ];
    assert(v@ =~= codepoint_table_42());
    v
}

pub open spec fn codepoint_table_43() -> Seq<Codepoint> {
    seq![
        Codepoint { codepoint: 0x06DE, name: "ARABIC START OF RUB EL HIZB", aliases: &[] },
        Codepoint { codepoint: 0x06DF, name: "ARABIC SMALL HIGH ROUNDED ZERO", aliases: &[] },
        Codepoint { codepoint: 0x06E0, name: "ARABIC SMALL HIGH UPRIGHT RECTANGULAR ZERO", aliases: &[] },
        Codepoint { codepoint: 0x06E1, name: "ARABIC SMALL HIGH DOTLESS HEAD OF KHAH", aliases: &[] },
        Codepoint { codepoint: 0x06E2, name: "ARABIC SMALL HIGH MEEM ISOLATED FORM", aliases: &[] },
        Codepoint { codepoint: 0x06E3, name: "ARABIC SMALL LOW SEEN", aliases: &[] },
        Codepoint { codepoint: 0x06E4, name: "ARABIC SMALL HIGH MADDA", aliases: &[] },
        Codepoint { codepoint: 0x06E5, name: "ARABIC SMALL WAW", aliases: &[] },
        Codepoint { codepoint: 0x06E6, name: "ARABIC SMALL YEH", aliases: &[] },
        Codepoint { codepoint: 0x06E7, name: "ARABIC SMALL HIGH YEH", aliases: &[] },
        Codepoint { codepoint: 0x06E8, name: "ARABIC SMALL HIGH NOON", aliases: &[] },
        Codepoint { codepoint: 0x06E9, name: "ARABIC PLACE OF SAJDAH", aliases: &[] },
        Codepoint { codepoint: 0x06EA, name: "ARABIC EMPTY CENTRE LOW STOP", aliases: &[] },
        Codepoint { codepoint: 0x06EB, name: "ARABIC EMPTY CENTRE HIGH STOP", aliases: &[] },
        Codepoint { codepoint: 0x06EC, name: "ARABIC ROUNDED HIGH STOP WITH FILLED CENTRE", aliases: &[] },
        Codepoint { codepoint: 0x06ED, name: "ARABIC SMALL LOW MEEM", aliases: &[] },
        Codepoint { codepoint: 0x06EE, name: "ARABIC LETTER DAL WITH INVERTED V", aliases: &[] },
        Codepoint { codepoint: 0x06EF, name: "ARABIC LETTER REH WITH INVERTED V", aliases: &[] },
        Codepoint { codepoint: 0x06F0, name: "EXTENDED ARABIC-INDIC DIGIT ZERO", aliases: &["EASTERN ARABIC-INDIC DIGIT ZERO"] },
        Codepoint { codepoint: 0x06F1, name: "EXTENDED ARABIC-INDIC DIGIT ONE", aliases: &["EASTERN ARABIC-INDIC DIGIT ONE"] },
        Codepoint { codepoint: 0x06F2, name: "EXTENDED ARABIC-INDIC DIGIT TWO", aliases: &["EASTERN ARABIC-INDIC DIGIT TWO"] },
        Codepoint { codepoint: 0x06F3, name: "EXTENDED ARABIC-INDIC DIGIT THREE", aliases: &["EASTERN ARABIC-INDIC DIGIT THREE"] },
        Codepoint { codepoint: 0x06F4, name: "EXTENDED ARABIC-INDIC DIGIT FOUR", aliases: &["EASTERN ARABIC-INDIC DIGIT FOUR"] },
        Codepoint { codepoint: 0x06F5, name: "EXTENDED ARABIC-INDIC DIGIT FIVE", aliases: &["EASTERN ARABIC-INDIC DIGIT FIVE"] },
        Codepoint { codepoint: 0x06F6, name: "EXTENDED ARABIC-INDIC DIGIT SIX", aliases: &["EASTERN ARABIC-INDIC DIGIT SIX"] },
        Codepoint { codepoint: 0x06F7, name: "EXTENDED ARABIC-INDIC DIGIT SEVEN", aliases: &["EASTERN ARABIC-INDIC DIGIT SEVEN"] },
        Codepoint { codepoint: 0x06F8, name: "EXTENDED ARABIC-INDIC DIGIT EIGHT", aliases: &["EASTERN ARABIC-INDIC DIGIT EIGHT"] },
        Codepoint { codepoint: 0x06F9, name: "EXTENDED ARABIC-INDIC DIGIT NINE", aliases: &["EASTERN ARABIC-INDIC DIGIT NINE"] },
        Codepoint { codepoint: 0x06FA, name: "ARABIC LETTER SHEEN WITH DOT BELOW", aliases: &[] },
        Codepoint { codepoint: 0x06FB, name: "ARABIC LETTER DAD WITH DOT BELOW", aliases: &[] },
        Codepoint { codepoint: 0x06FC, name: "ARABIC LETTER GHAIN WITH DOT BELOW", aliases: &[] },
        Codepoint { codepoint: 0x06FD, name: "ARABIC SIGN SINDHI AMPERSAND", aliases: &[] },
        Codepoint { codepoint: 0x06FE, name: "ARABIC SIGN SINDHI POSTPOSITION MEN", aliases: &[] },
        Codepoint { codepoint: 0x06FF, name: "ARABIC LETTER HEH WITH INVERTED V", aliases: &[] },
        Codepoint { codepoint: 0x0700, name: "SYRIAC END OF PARAGRAPH", aliases: &[] },
        Codepoint { codepoint: 0x0701, name: "SYRIAC SUPRALINEAR FULL STOP", aliases: &[] },
        Codepoint { codepoint: 0x0702, name: "SYRIAC SUBLINEAR FULL STOP", aliases: &[] },
        Codepoint { codepoint: 0x0703, name: "SYRIAC SUPRALINEAR COLON", aliases: &[] },
        Codepoint { codepoint: 0x0704, name: "SYRIAC SUBLINEAR COLON", aliases: &[] },
        Codepoint { codepoint: 0x0705, name: "SYRIAC HORIZONTAL COLON", aliases: &[] },
    ]
}

fn all_codepoints_43() -> (v: Vec<Codepoint>)
    ensures
        v@ == codepoint_table_43(),
{
    let v = vec![
        Codepoint { codepoint: 0x06DE, name: "ARABIC START OF RUB EL HIZB", aliases: &[] },
        Codepoint { codepoint: 0x06DF, name: "ARABIC SMALL HIGH ROUNDED ZERO", aliases: &[] },
        Codepoint { codepoint: 0x06E0, name: "ARABIC SMALL HIGH UPRIGHT RECTANGULAR ZERO", aliases: &[] },
        Codepoint { codepoint: 0x06E1, name: "ARABIC SMALL HIGH DOTLESS HEAD OF KHAH", aliases: &[] },
        Codepoint { codepoint: 0x06E2, name: "ARABIC SMALL HIGH MEEM ISOLATED FORM", aliases: &[] },
        Codepoint { codepoint: 0x06E3, name: "ARABIC SMALL LOW SEEN", aliases: &[] },
        Codepoint { codepoint: 0x06E4, name: "ARABIC SMALL HIGH MADDA", aliases: &[] },
        Codepoint { codepoint: 0x06E5, name: "ARABIC SMALL WAW", aliases: &[] },
        Codepoint { codepoint: 0x06E6, name: "ARABIC SMALL YEH", aliases: &[] },
        Codepoint { codepoint: 0x06E7, name: "ARABIC SMALL HIGH YEH", aliases: &[] },
        Codepoint { codepoint: 0x06E8, name: "ARABIC SMALL HIGH NOON", aliases: &[] },
        Codepoint { codepoint: 0x06E9, name: "ARABIC PLACE OF SAJDAH", aliases: &[] },
        Codepoint { codepoint: 0x06EA, name: "ARABIC EMPTY CENTRE LOW STOP", aliases: &[] },
        Codepoint { codepoint: 0x06EB, name: "ARABIC EMPTY CENTRE HIGH STOP", aliases: &[] },
        Codepoint { codepoint: 0x06EC, name: "ARABIC ROUNDED HIGH STOP WITH FILLED CENTRE", aliases: &[] },
        Codepoint { codepoint: 0x06ED, name: "ARABIC SMALL LOW MEEM", aliases: &[] },
        Codepoint { codepoint: 0x06EE, name: "ARABIC LETTER DAL WITH INVERTED V", aliases: &[] },
        Codepoint { codepoint: 0x06EF, name: "ARABIC LETTER REH WITH INVERTED V", aliases: &[] },
        Codepoint { codepoint: 0x06F0, name: "EXTENDED ARABIC-INDIC DIGIT ZERO", aliases: &["EASTERN ARABIC-INDIC DIGIT ZERO"] },
        Codepoint { codepoint: 0x06F1, name: "EXTENDED ARABIC-INDIC DIGIT ONE", aliases: &["EASTERN ARABIC-INDIC DIGIT ONE"] },
        Codepoint { codepoint: 0x06F2, name: "EXTENDED ARABIC-INDIC DIGIT TWO", aliases: &["EASTERN ARABIC-INDIC DIGIT TWO"] },
        Codepoint { codepoint: 0x06F3, name: "EXTENDED ARABIC-INDIC DIGIT THREE", aliases: &["EASTERN ARABIC-INDIC DIGIT THREE"] },
        Codepoint { codepoint: 0x06F4, name: "EXTENDED ARABIC-INDIC DIGIT FOUR", aliases: &["EASTERN ARABIC-INDIC DIGIT FOUR"] },
        Codepoint { codepoint: 0x06F5, name: "EXTENDED ARABIC-INDIC DIGIT FIVE", aliases: &["EASTERN ARABIC-INDIC DIGIT FIVE"] },
        Codepoint { codepoint: 0x06F6, name: "EXTENDED ARABIC-INDIC DIGIT SIX", aliases: &["EASTERN ARABIC-INDIC DIGIT SIX"] },
        Codepoint { codepoint: 0x06F7, name: "EXTENDED ARABIC-INDIC DIGIT SEVEN", aliases: &["EASTERN ARABIC-INDIC DIGIT SEVEN"] },
        Codepoint { codepoint: 0x06F8, name: "EXTENDED ARABIC-INDIC DIGIT EIGHT", aliases: &["EASTERN ARABIC-INDIC DIGIT EIGHT"] },
        Codepoint { codepoint: 0x06F9, name: "EXTENDED ARABIC-INDIC DIGIT NINE", aliases: &["EASTERN ARABIC-INDIC DIGIT NINE"] },
        Codepoint { codepoint: 0x06FA, name: "ARABIC LETTER SHEEN WITH DOT BELOW", aliases: &[] },
        Codepoint { codepoint: 0x06FB, name: "ARABIC LETTER DAD WITH DOT BELOW", aliases: &[] },
        Codepoint { codepoint: 0x06FC, name: "ARABIC LETTER GHAIN WITH DOT BELOW", aliases: &[] },
        Codepoint { codepoint: 0x06FD, name: "ARABIC SIGN SINDHI AMPERSAND", aliases: &[] },
        Codepoint { codepoint: 0x06FE, name: "ARABIC SIGN SINDHI POSTPOSITION MEN", aliases: &[] },
        Codepoint { codepoint: 0x06FF, name: "ARABIC LETTER HEH WITH INVERTED V", aliases: &[] },
        Codepoint { codepoint: 0x0700, name: "SYRIAC END OF PARAGRAPH", aliases: &[] },
        Codepoint { codepoint: 0x0701, name: "SYRIAC SUPRALINEAR FULL STOP", aliases: &[] },
        Codepoint { codepoint: 0x0702, name: "SYRIAC SUBLINEAR FULL STOP", aliases: &[] },
        Codepoint { codepoint: 0x0703, name: "SYRIAC SUPRALINEAR COLON", aliases: &[] },
        Codepoint { codepoint: 0x0704, name: "SYRIAC SUBLINEAR COLON", aliases: &[] },
        Codepoint { codepoint: 0x0705, name: "SYRIAC HORIZONTAL COLON", aliases: &[] },
    ];
    assert(v@ =~= codepoint_table_43());
    v
}

pub open spec fn codepoint_table_44() -> Seq<Codepoint> {
    seq![
        Codepoint { codepoint: 0x0706, name: "SYRIAC COLON SKEWED LEFT", aliases: &[] },
        Codepoint { codepoint: 0x0707, name: "SYRIAC COLON SKEWED RIGHT", aliases: &[] },
        Codepoint { codepoint: 0x0708, name: "SYRIAC SUPRALINEAR COLON SKEWED LEFT", aliases: &[] },
        Codepoint { codepoint: 0x0709, name: "SYRIAC SUBLINEAR COLON SKEWED RIGHT", aliases: &[] },
        Codepoint { codepoint: 0x070A, name: "SYRIAC CONTRACTION", aliases: &[] },
        Codepoint { codepoint: 0x070B, name: "SYRIAC HARKLEAN OBELUS", aliases: &[] },
        Codepoint { codepoint: 0x070C, name: "SYRIAC HARKLEAN METOBELUS", aliases: &[] },
        Codepoint { codepoint: 0x070D, name: "SYRIAC HARKLEAN ASTERISCUS", aliases: &[] },
        Codepoint { codepoint: 0x070F, name: "SYRIAC ABBREVIATION MARK", aliases: &[] },
        Codepoint { codepoint: 0x0710, name: "SYRIAC LETTER ALAPH", aliases: &[] },
        Codepoint { codepoint: 0x0711, name: "SYRIAC LETTER SUPERSCRIPT ALAPH", aliases: &[] },
        Codepoint { codepoint: 0x0712, name: "SYRIAC LETTER BETH", aliases: &[] },
        Codepoint { codepoint: 0x0713, name: "SYRIAC LETTER GAMAL", aliases: &[] },
        Codepoint { codepoint: 0x0714, name: "SYRIAC LETTER GAMAL GARSHUNI", aliases: &[] },
        Codepoint { codepoint: 0x0715, name: "SYRIAC LETTER DALATH", aliases: &[] },
        Codepoint { codepoint: 0x0716, name: "SYRIAC LETTER DOTLESS DALATH RISH", aliases: &[] },
        Codepoint { codepoint: 0x0717, name: "SYRIAC LETTER HE", aliases: &[] },
        Codepoint { codepoint: 0x0718, name: "SYRIAC LETTER WAW", aliases: &[] },
        Codepoint { codepoint: 0x0719, name: "SYRIAC LETTER ZAIN", aliases: &[] },
        Codepoint { codepoint: 0x071A, name: "SYRIAC LETTER HETH", aliases: &[] },
        Codepoint { codepoint: 0x071B, name: "SYRIAC LETTER TETH", aliases: &[] },
        Codepoint { codepoint: 0x071C, name: "SYRIAC LETTER TETH GARSHUNI", aliases: &[] },
        Codepoint { codepoint: 0x071D, name: "SYRIAC LETTER YUDH", aliases: &[] },
        Codepoint { codepoint: 0x071E, name: "SYRIAC LETTER YUDH HE", aliases: &[] },
        Codepoint { codepoint: 0x071F, name: "SYRIAC LETTER KAPH", aliases: &[] },
        Codepoint { codepoint: 0x0720, name: "SYRIAC LETTER LAMADH", aliases: &[] },
        Codepoint { codepoint: 0x0721, name: "SYRIAC LETTER MIM", aliases: &[] },
        Codepoint { codepoint: 0x0722, name: "SYRIAC LETTER NUN", aliases: &[] },
        Codepoint { codepoint: 0x0723, name: "SYRIAC LETTER SEMKATH", aliases: &[] },
        Codepoint { codepoint: 0x0724, name: "SYRIAC LETTER FINAL SEMKATH", aliases: &[] },
        Codepoint { codepoint: 0x0725, name: "SYRIAC LETTER E", aliases: &[] },
        Codepoint { codepoint: 0x0726, name: "SYRIAC LETTER PE", aliases: &[] },
        Codepoint { codepoint: 0x0727, name: "SYRIAC LETTER REVERSED PE", aliases: &[] },
        Codepoint { codepoint: 0x0728, name: "SYRIAC LETTER SADHE", aliases: &[] },
        Codepoint { codepoint: 0x0729, name: "SYRIAC LETTER QAPH", aliases: &[] },
        Codepoint { codepoint: 0x072A, name: "SYRIAC LETTER RISH", aliases: &[] },
        Codepoint { codepoint: 0x072B, name: "SYRIAC LETTER SHIN", aliases: &[] },
        Codepoint { codepoint: 0x072C, name: "SYRIAC LETTER TAW", aliases: &[] },
        Codepoint { codepoint: 0x072D, name: "SYRIAC LETTER PERSIAN BHETH", aliases: &[] },
        Codepoint { codepoint: 0x072E, name: "SYRIAC LETTER PERSIAN GHAMAL", aliases: &[] },
    ]
}

fn all_codepoints_44() -> (v: Vec<Codepoint>)
    ensures
        v@ == codepoint_table_44(),
{
    let v = vec![
        Codepoint { codepoint: 0x0706, name: "SYRIAC COLON SKEWED LEFT", aliases: &[] },
        Codepoint { codepoint: 0x0707, name: "SYRIAC COLON SKEWED RIGHT", aliases: &[] },
        Codepoint { codepoint: 0x0708, name: "SYRIAC SUPRALINEAR COLON SKEWED LEFT", aliases: &[] },
        Codepoint { codepoint: 0x0709, name: "SYRIAC SUBLINEAR COLON SKEWED RIGHT", aliases: &[] },
        Codepoint { codepoint: 0x070A, name: "SYRIAC CONTRACTION", aliases: &[] },
        Codepoint { codepoint: 0x070B, name: "SYRIAC HARKLEAN OBELUS", aliases: &[] },
        Codepoint { codepoint: 0x070C, name: "SYRIAC HARKLEAN METOBELUS", aliases: &[] },
        Codepoint { codepoint: 0x070D, name: "SYRIAC HARKLEAN ASTERISCUS", aliases: &[] },
        Codepoint { codepoint: 0x070F, name: "SYRIAC ABBREVIATION MARK", aliases: &[] },
        Codepoint { codepoint: 0x0710, name: "SYRIAC LETTER ALAPH", aliases: &[] },
        Codepoint { codepoint: 0x0711, name: "SYRIAC LETTER SUPERSCRIPT ALAPH", aliases: &[] },
        Codepoint { codepoint: 0x0712, name: "SYRIAC LETTER BETH", aliases: &[] },
        Codepoint { codepoint: 0x0713, name: "SYRIAC LETTER GAMAL", aliases: &[] },
        Codepoint { codepoint: 0x0714, name: "SYRIAC LETTER GAMAL GARSHUNI", aliases: &[] },
        Codepoint { codepoint: 0x0715, name: "SYRIAC LETTER DALATH", aliases: &[] },
        Codepoint { codepoint: 0x0716, name: "SYRIAC LETTER DOTLESS DALATH RISH", aliases: &[] },
        Codepoint { codepoint: 0x0717, name: "SYRIAC LETTER HE", aliases: &[] },
        Codepoint { codepoint: 0x0718, name: "SYRIAC LETTER WAW", aliases: &[] },
        Codepoint { codepoint: 0x0719, name: "SYRIAC LETTER ZAIN", aliases: &[] },
        Codepoint { codepoint: 0x071A, name: "SYRIAC LETTER HETH", aliases: &[] },
        Codepoint { codepoint: 0x071B, name: "SYRIAC LETTER TETH", aliases: &[] },
        Codepoint { codepoint: 0x071C, name: "SYRIAC LETTER TETH GARSHUNI", aliases: &[] },
        Codepoint { codepoint: 0x071D, name: "SYRIAC LETTER YUDH", aliases: &[] },
        Codepoint { codepoint: 0x071E, name: "SYRIAC LETTER YUDH HE", aliases: &[] },
        Codepoint { codepoint: 0x071F, name: "SYRIAC LETTER KAPH", aliases: &[] },
        Codepoint { codepoint: 0x0720, name: "SYRIAC LETTER LAMADH", aliases: &[] },
        Codepoint { codepoint: 0x0721, name: "SYRIAC LETTER MIM", aliases: &[] },
        Codepoint { codepoint: 0x0722, name: "SYRIAC LETTER NUN", aliases: &[] },
        Codepoint { codepoint: 0x0723, name: "SYRIAC LETTER SEMKATH", aliases: &[] },
        Codepoint { codepoint: 0x0724, name: "SYRIAC LETTER FINAL SEMKATH", aliases: &[] },
        Codepoint { codepoint: 0x0725, name: "SYRIAC LETTER E", aliases: &[] },
        Codepoint { codepoint: 0x0726, name: "SYRIAC LETTER PE", aliases: &[] },
        Codepoint { codepoint: 0x0727, name: "SYRIAC LETTER REVERSED PE", aliases: &[] },
        Codepoint { codepoint: 0x0728, name: "SYRIAC LETTER SADHE", aliases: &[] },
        Codepoint { codepoint: 0x0729, name: "SYRIAC LETTER QAPH", aliases: &[] },
        Codepoint { codepoint: 0x072A, name: "SYRIAC LETTER RISH", aliases: &[] },
        Codepoint { codepoint: 0x072B, name: "SYRIAC LETTER SHIN", aliases: &[] },
        Codepoint { codepoint: 0x072C, name: "SYRIAC LETTER TAW", aliases: &[] },
        Codepoint { codepoint: 0x072D, name: "SYRIAC LETTER PERSIAN BHETH", aliases: &[] },
        Codepoint { codepoint: 0x072E, name: "SYRIAC LETTER PERSIAN GHAMAL", aliases: &[] },
    ];
    assert(v@ =~= codepoint_table_44());
    v
}

pub open spec fn codepoint_table_45() -> Seq<Codepoint> {
    seq![
        Codepoint { codepoint: 0x072F, name: "SYRIAC LETTER PERSIAN DHALATH", aliases: &[] },
        Codepoint { codepoint: 0x0730, name: "SYRIAC PTHAHA ABOVE", aliases: &[] },
        Codepoint { codepoint: 0x0731, name: "SYRIAC PTHAHA BELOW", aliases: &[] },
        Codepoint { codepoint: 0x0732, name: "SYRIAC PTHAHA DOTTED", aliases: &[] },
        Codepoint { codepoint: 0x0733, name: "SYRIAC ZQAPHA ABOVE", aliases: &[] },
        Codepoint { codepoint: 0x0734, name: "SYRIAC ZQAPHA BELOW", aliases: &[] },
        Codepoint { codepoint: 0x0735, name: "SYRIAC ZQAPHA DOTTED", aliases: &[] },
        Codepoint { codepoint: 0x0736, name: "SYRIAC RBASA ABOVE", aliases: &[] },
        Codepoint { codepoint: 0x0737, name: "SYRIAC RBASA BELOW", aliases: &[] },
        Codepoint { codepoint: 0x0738, name: "SYRIAC DOTTED ZLAMA HORIZONTAL", aliases: &[] },
        Codepoint { codepoint: 0x0739, name: "SYRIAC DOTTED ZLAMA ANGULAR", aliases: &[] },
        Codepoint { codepoint: 0x073A, name: "SYRIAC HBASA ABOVE", aliases: &[] },
        Codepoint { codepoint: 0x073B, name: "SYRIAC HBASA BELOW", aliases: &[] },
        Codepoint { codepoint: 0x073C, name: "SYRIAC HBASA-ESASA DOTTED", aliases: &[] },
        Codepoint { codepoint: 0x073D, name: "SYRIAC ESASA ABOVE", aliases: &[] },
        Codepoint { codepoint: 0x073E, name: "SYRIAC ESASA BELOW", aliases: &[] },
        Codepoint { codepoint: 0x073F, name: "SYRIAC RWAHA", aliases: &[] },
        Codepoint { codepoint: 0x0740, name: "SYRIAC FEMININE DOT", aliases: &[] },
        Codepoint { codepoint: 0x0741, name: "SYRIAC QUSHSHAYA", aliases: &[] },
        Codepoint { codepoint: 0x0742, name: "SYRIAC RUKKAKHA", aliases: &[] },
        Codepoint { codepoint: 0x0743, name: "SYRIAC TWO VERTICAL DOTS ABOVE", aliases: &[] },
        Codepoint { codepoint: 0x0744, name: "SYRIAC TWO VERTICAL DOTS BELOW", aliases: &[] },
        Codepoint { codepoint: 0x0745, name: "SYRIAC THREE DOTS ABOVE", aliases: &[] },
        Codepoint { codepoint: 0x0746, name: "SYRIAC THREE DOTS BELOW", aliases: &[] },
        Codepoint { codepoint: 0x0747, name: "SYRIAC OBLIQUE LINE ABOVE", aliases: &[] },
        Codepoint { codepoint: 0x0748, name: "SYRIAC OBLIQUE LINE BELOW", aliases: &[] },
        Codepoint { codepoint: 0x0749, name: "SYRIAC MUSIC", aliases: &[] },
        Codepoint { codepoint: 0x074A, name: "SYRIAC BARREKH", aliases: &[] },
        Codepoint { codepoint: 0x074D, name: "SYRIAC LETTER SOGDIAN ZHAIN", aliases: &[] },
        Codepoint { codepoint: 0x074E, name: "SYRIAC LETTER SOGDIAN KHAPH", aliases: &[] },
        Codepoint { codepoint: 0x074F, name: "SYRIAC LETTER SOGDIAN FE", aliases: &[] },
        Codepoint { codepoint: 0x0750, name: "ARABIC LETTER BEH WITH THREE DOTS HORIZONTALLY BELOW", aliases: &[] },
        Codepoint { codepoint: 0x0751, name: "ARABIC LETTER BEH WITH DOT BELOW AND THREE DOTS ABOVE", aliases: &[] },
        Codepoint { codepoint: 0x0752, name: "ARABIC LETTER BEH WITH THREE DOTS POINTING UPWARDS BELOW", aliases: &[] },
        Codepoint { codepoint: 0x0753, name: "ARABIC LETTER BEH WITH THREE DOTS POINTING UPWARDS BELOW AND TWO DOTS ABOVE", aliases: &[] },
        Codepoint { codepoint: 0x0754, name: "ARABIC LETTER BEH WITH TWO DOTS BELOW AND DOT ABOVE", aliases: &[] },
        Codepoint { codepoint: 0x0755, name: "ARABIC LETTER BEH WITH INVERTED SMALL V BELOW", aliases: &[] },
        Codepoint { codepoint: 0x0756, name: "ARABIC LETTER BEH WITH SMALL V", aliases: &[] },
        Codepoint { codepoint: 0x0757, name: "ARABIC LETTER HAH WITH TWO DOTS ABOVE", aliases: &[] },
        Codepoint { codepoint: 0x0758, name: "ARABIC LETTER HAH WITH THREE DOTS POINTING UPWARDS BELOW", aliases: &[] },
    ]
}

fn all_codepoints_45() -> (v: Vec<Codepoint>)
    ensures
        v@ == codepoint_table_45(),
{
    let v = vec![
        Codepoint { codepoint: 0x072F, name: "SYRIAC LETTER PERSIAN DHALATH", aliases: &[] },
        Codepoint { codepoint: 0x0730, name: "SYRIAC PTHAHA ABOVE", aliases: &[] },
        Codepoint { codepoint: 0x0731, name: "SYRIAC PTHAHA BELOW", aliases: &[] },
        Codepoint { codepoint: 0x0732, name: "SYRIAC PTHAHA DOTTED", aliases: &[] },
        Codepoint { codepoint: 0x0733, name: "SYRIAC ZQAPHA ABOVE", aliases: &[] },
        Codepoint { codepoint: 0x0734, name: "SYRIAC ZQAPHA BELOW", aliases: &[] },
        Codepoint { codepoint: 0x0735, name: "SYRIAC ZQAPHA DOTTED", aliases: &[] },
        Codepoint { codepoint: 0x0736, name: "SYRIAC RBASA ABOVE", aliases: &[] },
        Codepoint { codepoint: 0x0737, name: "SYRIAC RBASA BELOW", aliases: &[] },
        Codepoint { codepoint: 0x0738, name: "SYRIAC DOTTED ZLAMA HORIZONTAL", aliases: &[] },
        Codepoint { codepoint: 0x0739, name: "SYRIAC DOTTED ZLAMA ANGULAR", aliases: &[] },
        Codepoint { codepoint: 0x073A, name: "SYRIAC HBASA ABOVE", aliases: &[] },
        Codepoint { codepoint: 0x073B, name: "SYRIAC HBASA BELOW", aliases: &[] },
        Codepoint { codepoint: 0x073C, name: "SYRIAC HBASA-ESASA DOTTED", aliases: &[] },
        Codepoint { codepoint: 0x073D, name: "SYRIAC ESASA ABOVE", aliases: &[] },
        Codepoint { codepoint: 0x073E, name: "SYRIAC ESASA BELOW", aliases: &[] },
        Codepoint { codepoint: 0x073F, name: "SYRIAC RWAHA", aliases: &[] },
        Codepoint { codepoint: 0x0740, name: "SYRIAC FEMININE DOT", aliases: &[] },
        Codepoint { codepoint: 0x0741, name: "SYRIAC QUSHSHAYA", aliases: &[] },
        Codepoint { codepoint: 0x0742, name: "SYRIAC RUKKAKHA", aliases: &[] },
        Codepoint { codepoint: 0x0743, name: "SYRIAC TWO VERTICAL DOTS ABOVE", aliases: &[] },
        Codepoint { codepoint: 0x0744, name: "SYRIAC TWO VERTICAL DOTS BELOW", aliases: &[] },
        Codepoint { codepoint: 0x0745, name: "SYRIAC THREE DOTS ABOVE", aliases: &[] },
        Codepoint { codepoint: 0x0746, name: "SYRIAC THREE DOTS BELOW", aliases: &[] },
        Codepoint { codepoint: 0x0747, name: "SYRIAC OBLIQUE LINE ABOVE", aliases: &[] },
        Codepoint { codepoint: 0x0748, name: "SYRIAC OBLIQUE LINE BELOW", aliases: &[] },
        Codepoint { codepoint: 0x0749, name: "SYRIAC MUSIC", aliases: &[] },
        Codepoint { codepoint: 0x074A, name: "SYRIAC BARREKH", aliases: &[] },
        Codepoint { codepoint: 0x074D, name: "SYRIAC LETTER SOGDIAN ZHAIN", aliases: &[] },
        Codepoint { codepoint: 0x074E, name: "SYRIAC LETTER SOGDIAN KHAPH", aliases: &[] },
        Codepoint { codepoint: 0x074F, name: "SYRIAC LETTER SOGDIAN FE", aliases: &[] },
        Codepoint { codepoint: 0x0750, name: "ARABIC LETTER BEH WITH THREE DOTS HORIZONTALLY BELOW", aliases: &[] },
        Codepoint { codepoint: 0x0751, name: "ARABIC LETTER BEH WITH DOT BELOW AND THREE DOTS ABOVE", aliases: &[] },
        Codepoint { codepoint: 0x0752, name: "ARABIC LETTER BEH WITH THREE DOTS POINTING UPWARDS BELOW", aliases: &[] },
        Codepoint { codepoint: 0x0753, name: "ARABIC LETTER BEH WITH THREE DOTS POINTING UPWARDS BELOW AND TWO DOTS ABOVE", aliases: &[] },
        Codepoint { codepoint: 0x0754, name: "ARABIC LETTER BEH WITH TWO DOTS BELOW AND DOT ABOVE", aliases: &[] },
        Codepoint { codepoint: 0x0755, name: "ARABIC LETTER BEH WITH INVERTED SMALL V BELOW", aliases: &[] },
        Codepoint { codepoint: 0x0756, name: "ARABIC LETTER BEH WITH SMALL V", aliases: &[] },
        Codepoint { codepoint: 0x0757, name: "ARABIC LETTER HAH WITH TWO DOTS ABOVE", aliases: &[] },
        Codepoint { codepoint: 0x0758, name: "ARABIC LETTER HAH WITH THREE DOTS POINTING UPWARDS BELOW", aliases: &[] },
    ];
    assert(v@ =~= codepoint_table_45());
    v
}

pub open spec fn codepoint_table_46() -> Seq<Codepoint> {
    seq![
        Codepoint { codepoint: 0x0759, name: "ARABIC LETTER DAL WITH TWO DOTS VERTICALLY BELOW AND SMALL TAH", aliases: &[] },
        Codepoint { codepoint: 0x075A, name: "ARABIC LETTER DAL WITH INVERTED SMALL V BELOW", aliases: &[] },
        Codepoint { codepoint: 0x075B, name: "ARABIC LETTER REH WITH STROKE", aliases: &[] },
        Codepoint { codepoint: 0x075C, name: "ARABIC LETTER SEEN WITH FOUR DOTS ABOVE", aliases: &[] },
        Codepoint { codepoint: 0x075D, name: "ARABIC LETTER AIN WITH TWO DOTS ABOVE", aliases: &[] },
        Codepoint { codepoint: 0x075E, name: "ARABIC LETTER AIN WITH THREE DOTS POINTING DOWNWARDS ABOVE", aliases: &[] },
        Codepoint { codepoint: 0x075F, name: "ARABIC LETTER AIN WITH TWO DOTS VERTICALLY ABOVE", aliases: &[] },
        Codepoint { codepoint: 0x0760, name: "ARABIC LETTER FEH WITH TWO DOTS BELOW", aliases: &[] },
        Codepoint { codepoint: 0x0761, name: "ARABIC LETTER FEH WITH THREE DOTS POINTING UPWARDS BELOW", aliases: &[] },
        Codepoint { codepoint: 0x0762, name: "ARABIC LETTER KEHEH WITH DOT ABOVE", aliases: &[] },
        Codepoint { codepoint: 0x0763, name: "ARABIC LETTER KEHEH WITH THREE DOTS ABOVE", aliases: &[] },
        Codepoint { codepoint: 0x0764, name: "ARABIC LETTER KEHEH WITH THREE DOTS POINTING UPWARDS BELOW", aliases: &[] },
        Codepoint { codepoint: 0x0765, name: "ARABIC LETTER MEEM WITH DOT ABOVE", aliases: &[] },
        Codepoint { codepoint: 0x0766, name: "ARABIC LETTER MEEM WITH DOT BELOW", aliases: &[] },
        Codepoint { codepoint: 0x0767, name: "ARABIC LETTER NOON WITH TWO DOTS BELOW", aliases: &[] },
        Codepoint { codepoint: 0x0768, name: "ARABIC LETTER NOON WITH SMALL TAH", aliases: &[] },
        Codepoint { codepoint: 0x0769, name: "ARABIC LETTER NOON WITH SMALL V", aliases: &[] },
        Codepoint { codepoint: 0x076A, name: "ARABIC LETTER LAM WITH BAR", aliases: &[] },
        Codepoint { codepoint: 0x076B, name: "ARABIC LETTER REH WITH TWO DOTS VERTICALLY ABOVE", aliases: &[] },
        Codepoint { codepoint: 0x076C, name: "ARABIC LETTER REH WITH HAMZA ABOVE", aliases: &[] },
        Codepoint { codepoint: 0x076D, name: "ARABIC LETTER SEEN WITH TWO DOTS VERTICALLY ABOVE", aliases: &[] },
        Codepoint { codepoint: 0x076E, name: "ARABIC LETTER HAH WITH SMALL ARABIC LETTER TAH BELOW", aliases: &[] },
        Codepoint { codepoint: 0x076F, name: "ARABIC LETTER HAH WITH SMALL ARABIC LETTER TAH AND TWO DOTS", aliases: &[] },
        Codepoint { codepoint: 0x0770, name: "ARABIC LETTER SEEN WITH SMALL ARABIC LETTER TAH AND TWO DOTS", aliases: &[] },
        Codepoint { codepoint: 0x0771, name: "ARABIC LETTER REH WITH SMALL ARABIC LETTER TAH AND TWO DOTS", aliases: &[] },
        Codepoint { codepoint: 0x0772, name: "ARABIC LETTER HAH WITH SMALL ARABIC LETTER TAH ABOVE", aliases: &[] },
        Codepoint { codepoint: 0x0773, name: "ARABIC LETTER ALEF WITH EXTENDED ARABIC-INDIC DIGIT TWO ABOVE", aliases: &[] },
        Codepoint { codepoint: 0x0774, name: "ARABIC LETTER ALEF WITH EXTENDED ARABIC-INDIC DIGIT THREE ABOVE", aliases: &[] },
        Codepoint { codepoint: 0x0775, name: "ARABIC LETTER FARSI YEH WITH EXTENDED ARABIC-INDIC DIGIT TWO ABOVE", aliases: &[] },
        Codepoint { codepoint: 0x0776, name: "ARABIC LETTER FARSI YEH WITH EXTENDED ARABIC-INDIC DIGIT THREE ABOVE", aliases: &[] },
        Codepoint { codepoint: 0x0777, name: "ARABIC LETTER FARSI YEH WITH EXTENDED ARABIC-INDIC DIGIT FOUR BELOW", aliases: &[] },
        Codepoint { codepoint: 0x0778, name: "ARABIC LETTER WAW WITH EXTENDED ARABIC-INDIC DIGIT TWO ABOVE", aliases: &[] },
        Codepoint { codepoint: 0x0779, name: "ARABIC LETTER WAW WITH EXTENDED ARABIC-INDIC DIGIT THREE ABOVE", aliases: &[] },
        Codepoint { codepoint: 0x077A, name: "ARABIC LETTER YEH BARREE WITH EXTENDED ARABIC-INDIC DIGIT TWO ABOVE", aliases: &[] },
        Codepoint { codepoint: 0x077B, name: "ARABIC LETTER YEH BARREE WITH EXTENDED ARABIC-INDIC DIGIT THREE ABOVE", aliases: &[] },
        Codepoint { codepoint: 0x077C, name: "ARABIC LETTER HAH WITH EXTENDED ARABIC-INDIC DIGIT FOUR BELOW", aliases: &[] },
        Codepoint { codepoint: 0x077D, name: "ARABIC LETTER SEEN WITH EXTENDED ARABIC-INDIC DIGIT FOUR ABOVE", aliases: &[] },
        Codepoint { codepoint: 0x077E, name: "ARABIC LETTER SEEN WITH INVERTED V", aliases: &[] },
        Codepoint { codepoint: 0x077F, name: "ARABIC LETTER KAF WITH TWO DOTS ABOVE", aliases: &[] },
        Codepoint { codepoint: 0x0780, name: "THAANA LETTER HAA", aliases: &[] },
    ]
}

fn all_codepoints_46() -> (v: Vec<Codepoint>)
    ensures
        v@ == codepoint_table_46(),
{
    let v = vec![
        Codepoint { codepoint: 0x0759, name: "ARABIC LETTER DAL WITH TWO DOTS VERTICALLY BELOW AND SMALL TAH", aliases: &[] },
        Codepoint { codepoint: 0x075A, name: "ARABIC LETTER DAL WITH INVERTED SMALL V BELOW", aliases: &[] },
        Codepoint { codepoint: 0x075B, name: "ARABIC LETTER REH WITH STROKE", aliases: &[] },
        Codepoint { codepoint: 0x075C, name: "ARABIC LETTER SEEN WITH FOUR DOTS ABOVE", aliases: &[] },
        Codepoint { codepoint: 0x075D, name: "ARABIC LETTER AIN WITH TWO DOTS ABOVE", aliases: &[] },
        Codepoint { codepoint: 0x075E, name: "ARABIC LETTER AIN WITH THREE DOTS POINTING DOWNWARDS ABOVE", aliases: &[] },
        Codepoint { codepoint: 0x075F, name: "ARABIC LETTER AIN WITH TWO DOTS VERTICALLY ABOVE", aliases: &[] },
        Codepoint { codepoint: 0x0760, name: "ARABIC LETTER FEH WITH TWO DOTS BELOW", aliases: &[] },
        Codepoint { codepoint: 0x0761, name: "ARABIC LETTER FEH WITH THREE DOTS POINTING UPWARDS BELOW", aliases: &[] },
        Codepoint { codepoint: 0x0762, name: "ARABIC LETTER KEHEH WITH DOT ABOVE", aliases: &[] },
        Codepoint { codepoint: 0x0763, name: "ARABIC LETTER KEHEH WITH THREE DOTS ABOVE", aliases: &[] },
        Codepoint { codepoint: 0x0764, name: "ARABIC LETTER KEHEH WITH THREE DOTS POINTING UPWARDS BELOW", aliases: &[] },
        Codepoint { codepoint: 0x0765, name: "ARABIC LETTER MEEM WITH DOT ABOVE", aliases: &[] },
        Codepoint { codepoint: 0x0766, name: "ARABIC LETTER MEEM WITH DOT BELOW", aliases: &[] },
        Codepoint { codepoint: 0x0767, name: "ARABIC LETTER NOON WITH TWO DOTS BELOW", aliases: &[] },
        Codepoint { codepoint: 0x0768, name: "ARABIC LETTER NOON WITH SMALL TAH", aliases: &[] },
        Codepoint { codepoint: 0x0769, name: "ARABIC LETTER NOON WITH SMALL V", aliases: &[] },
        Codepoint { codepoint: 0x076A, name: "ARABIC LETTER LAM WITH BAR", aliases: &[] },
        Codepoint { codepoint: 0x076B, name: "ARABIC LETTER REH WITH TWO DOTS VERTICALLY ABOVE", aliases: &[] },
        Codepoint { codepoint: 0x076C, name: "ARABIC LETTER REH WITH HAMZA ABOVE", aliases: &[] },
        Codepoint { codepoint: 0x076D, name: "ARABIC LETTER SEEN WITH TWO DOTS VERTICALLY ABOVE", aliases: &[] },
        Codepoint { codepoint: 0x076E, name: "ARABIC LETTER HAH WITH SMALL ARABIC LETTER TAH BELOW", aliases: &[] },
        Codepoint { codepoint: 0x076F, name: "ARABIC LETTER HAH WITH SMALL ARABIC LETTER TAH AND TWO DOTS", aliases: &[] },
        Codepoint { codepoint: 0x0770, name: "ARABIC LETTER SEEN WITH SMALL ARABIC LETTER TAH AND TWO DOTS", aliases: &[] },
        Codepoint { codepoint: 0x0771, name: "ARABIC LETTER REH WITH SMALL ARABIC LETTER TAH AND TWO DOTS", aliases: &[] },
        Codepoint { codepoint: 0x0772, name: "ARABIC LETTER HAH WITH SMALL ARABIC LETTER TAH ABOVE", aliases: &[] },
        Codepoint { codepoint: 0x0773, name: "ARABIC LETTER ALEF WITH EXTENDED ARABIC-INDIC DIGIT TWO ABOVE", aliases: &[] },
        Codepoint { codepoint: 0x0774, name: "ARABIC LETTER ALEF WITH EXTENDED ARABIC-INDIC DIGIT THREE ABOVE", aliases: &[] },
        Codepoint { codepoint: 0x0775, name: "ARABIC LETTER FARSI YEH WITH EXTENDED ARABIC-INDIC DIGIT TWO ABOVE", aliases: &[] },
        Codepoint { codepoint: 0x0776, name: "ARABIC LETTER FARSI YEH WITH EXTENDED ARABIC-INDIC DIGIT THREE ABOVE", aliases: &[] },
        Codepoint { codepoint: 0x0777, name: "ARABIC LETTER FARSI YEH WITH EXTENDED ARABIC-INDIC DIGIT FOUR BELOW", aliases: &[] },
        Codepoint { codepoint: 0x0778, name: "ARABIC LETTER WAW WITH EXTENDED ARABIC-INDIC DIGIT TWO ABOVE", aliases: &[] },
        Codepoint { codepoint: 0x0779, name: "ARABIC LETTER WAW WITH EXTENDED ARABIC-INDIC DIGIT THREE ABOVE", aliases: &[] },
        Codepoint { codepoint: 0x077A, name: "ARABIC LETTER YEH BARREE WITH EXTENDED ARABIC-INDIC DIGIT TWO ABOVE", aliases: &[] },
        Codepoint { codepoint: 0x077B, name: "ARABIC LETTER YEH BARREE WITH EXTENDED ARABIC-INDIC DIGIT THREE ABOVE", aliases: &[] },
        Codepoint { codepoint: 0x077C, name: "ARABIC LETTER HAH WITH EXTENDED ARABIC-INDIC DIGIT FOUR BELOW", aliases: &[] },
        Codepoint { codepoint: 0x077D, name: "ARABIC LETTER SEEN WITH EXTENDED ARABIC-INDIC DIGIT FOUR ABOVE", aliases: &[] },
        Codepoint { codepoint: 0x077E, name: "ARABIC LETTER SEEN WITH INVERTED V", aliases: &[] },
        Codepoint { codepoint: 0x077F, name: "ARABIC LETTER KAF WITH TWO DOTS ABOVE", aliases: &[] },
        Codepoint { codepoint: 0x0780, name: "THAANA LETTER HAA", aliases: &[] },
    ];
    assert(v@ =~= codepoint_table_46());
    v
}

pub open spec fn codepoint_table_47() -> Seq<Codepoint> {
    seq![
        Codepoint { codepoint: 0x0781, name: "THAANA LETTER SHAVIYANI", aliases: &[] },
        Codepoint { codepoint: 0x0782, name: "THAANA LETTER NOONU", aliases: &[] },
        Codepoint { codepoint: 0x0783, name: "THAANA LETTER RAA", aliases: &[] },
        Codepoint { codepoint: 0x0784, name: "THAANA LETTER BAA", aliases: &[] },
        Codepoint { codepoint: 0x0785, name: "THAANA LETTER LHAVIYANI", aliases: &[] },
        Codepoint { codepoint: 0x0786, name: "THAANA LETTER KAAFU", aliases: &[] },
        Codepoint { codepoint: 0x0787, name: "THAANA LETTER ALIFU", aliases: &[] },
        Codepoint { codepoint: 0x0788, name: "THAANA LETTER VAAVU", aliases: &[] },
        Codepoint { codepoint: 0x0789, name: "THAANA LETTER MEEMU", aliases: &[] },
        Codepoint { codepoint: 0x078A, name: "THAANA LETTER FAAFU", aliases: &[] },
        Codepoint { codepoint: 0x078B, name: "THAANA LETTER DHAALU", aliases: &[] },
        Codepoint { codepoint: 0x078C, name: "THAANA LETTER THAA", aliases: &[] },
        Codepoint { codepoint: 0x078D, name: "THAANA LETTER LAAMU", aliases: &[] },
        Codepoint { codepoint: 0x078E, name: "THAANA LETTER GAAFU", aliases: &[] },
        Codepoint { codepoint: 0x078F, name: "THAANA LETTER GNAVIYANI", aliases: &[] },
        Codepoint { codepoint: 0x0790, name: "THAANA LETTER SEENU", aliases: &[] },
        Codepoint { codepoint: 0x0791, name: "THAANA LETTER DAVIYANI", aliases: &[] },
        Codepoint { codepoint: 0x0792, name: "THAANA LETTER ZAVIYANI", aliases: &[] },
        Codepoint { codepoint: 0x0793, name: "THAANA LETTER TAVIYANI", aliases: &[] },
        Codepoint { codepoint: 0x0794, name: "THAANA LETTER YAA", aliases: &[] },
        Codepoint { codepoint: 0x0795, name: "THAANA LETTER PAVIYANI", aliases: &[] },
        Codepoint { codepoint: 0x0796, name: "THAANA LETTER JAVIYANI", aliases: &[] },
        Codepoint { codepoint: 0x0797, name: "THAANA LETTER CHAVIYANI", aliases: &[] },
        Codepoint { codepoint: 0x0798, name: "THAANA LETTER TTAA", aliases: &[] },
        Codepoint { codepoint: 0x0799, name: "THAANA LETTER HHAA", aliases: &[] },
        Codepoint { codepoint: 0x079A, name: "THAANA LETTER KHAA", aliases: &[] },
        Codepoint { codepoint: 0x079B, name: "THAANA LETTER THAALU", aliases: &[] },
        Codepoint { codepoint: 0x079C, name: "THAANA LETTER ZAA", aliases: &[] },
        Codepoint { codepoint: 0x079D, name: "THAANA LETTER SHEENU", aliases: &[] },
        Codepoint { codepoint: 0x079E, name: "THAANA LETTER SAADHU", aliases: &[] },
        Codepoint { codepoint: 0x079F, name: "THAANA LETTER DAADHU", aliases: &[] },
        Codepoint { codepoint: 0x07A0, name: "THAANA LETTER TO", aliases: &[] },
        Codepoint { codepoint: 0x07A1, name: "THAANA LETTER ZO", aliases: &[] },
        Codepoint { codepoint: 0x07A2, name: "THAANA LETTER AINU", aliases: &[] },
        Codepoint { codepoint: 0x07A3, name: "THAANA LETTER GHAINU", aliases: &[] },
        Codepoint { codepoint: 0x07A4, name: "THAANA LETTER QAAFU", aliases: &[] },
        Codepoint { codepoint: 0x07A5, name: "THAANA LETTER WAAVU", aliases: &[] },
        Codepoint { codepoint: 0x07A6, name: "THAANA ABAFILI", aliases: &[] },
        Codepoint { codepoint: 0x07A7, name: "THAANA AABAAFILI", aliases: &[] },
        Codepoint { codepoint: 0x07A8, name: "THAANA IBIFILI", aliases: &[] },
    ]
}

fn all_codepoints_47() -> (v: Vec<Codepoint>)
    ensures
        v@ == codepoint_table_47(),
{
    let v = vec![
        Codepoint { codepoint: 0x0781, name: "THAANA LETTER SHAVIYANI", aliases: &[] },
        Codepoint { codepoint: 0x0782, name: "THAANA LETTER NOONU", aliases: &[] },
        Codepoint { codepoint: 0x0783, name: "THAANA LETTER RAA", aliases: &[] },
        Codepoint { codepoint: 0x0784, name: "THAANA LETTER BAA", aliases: &[] },
        Codepoint { codepoint: 0x0785, name: "THAANA LETTER LHAVIYANI", aliases: &[] },
        Codepoint { codepoint: 0x0786, name: "THAANA LETTER KAAFU", aliases: &[] },
        Codepoint { codepoint: 0x0787, name: "THAANA LETTER ALIFU", aliases: &[] },
        Codepoint { codepoint: 0x0788, name: "THAANA LETTER VAAVU", aliases: &[] },
        Codepoint { codepoint: 0x0789, name: "THAANA LETTER MEEMU", aliases: &[] },
        Codepoint { codepoint: 0x078A, name: "THAANA LETTER FAAFU", aliases: &[] },
        Codepoint { codepoint: 0x078B, name: "THAANA LETTER DHAALU", aliases: &[] },
        Codepoint { codepoint: 0x078C, name: "THAANA LETTER THAA", aliases: &[] },
        Codepoint { codepoint: 0x078D, name: "THAANA LETTER LAAMU", aliases: &[] },
        Codepoint { codepoint: 0x078E, name: "THAANA LETTER GAAFU", aliases: &[] },
        Codepoint { codepoint: 0x078F, name: "THAANA LETTER GNAVIYANI", aliases: &[] },
        Codepoint { codepoint: 0x0790, name: "THAANA LETTER SEENU", aliases: &[] },
        Codepoint { codepoint: 0x0791, name: "THAANA LETTER DAVIYANI", aliases: &[] },
        Codepoint { codepoint: 0x0792, name: "THAANA LETTER ZAVIYANI", aliases: &[] },
        Codepoint { codepoint: 0x0793, name: "THAANA LETTER TAVIYANI", aliases: &[] },
        Codepoint { codepoint: 0x0794, name: "THAANA LETTER YAA", aliases: &[] },
        Codepoint { codepoint: 0x0795, name: "THAANA LETTER PAVIYANI", aliases: &[] },
        Codepoint { codepoint: 0x0796, name: "THAANA LETTER JAVIYANI", aliases: &[] },
        Codepoint { codepoint: 0x0797, name: "THAANA LETTER CHAVIYANI", aliases: &[] },
        Codepoint { codepoint: 0x0798, name: "THAANA LETTER TTAA", aliases: &[] },
        Codepoint { codepoint: 0x0799, name: "THAANA LETTER HHAA", aliases: &[] },
        Codepoint { codepoint: 0x079A, name: "THAANA LETTER KHAA", aliases: &[] },
        Codepoint { codepoint: 0x079B, name: "THAANA LETTER THAALU", aliases: &[] },
        Codepoint { codepoint: 0x079C, name: "THAANA LETTER ZAA", aliases: &[] },
        Codepoint { codepoint: 0x079D, name: "THAANA LETTER SHEENU", aliases: &[] },
        Codepoint { codepoint: 0x079E, name: "THAANA LETTER SAADHU", aliases: &[] },
        Codepoint { codepoint: 0x079F, name: "THAANA LETTER DAADHU", aliases: &[] },
        Codepoint { codepoint: 0x07A0, name: "THAANA LETTER TO", aliases: &[] },
        Codepoint { codepoint: 0x07A1, name: "THAANA LETTER ZO", aliases: &[] },
        Codepoint { codepoint: 0x07A2, name: "THAANA LETTER AINU", aliases: &[] },
        Codepoint { codepoint: 0x07A3, name: "THAANA LETTER GHAINU", aliases: &[] },
        Codepoint { codepoint: 0x07A4, name: "THAANA LETTER QAAFU", aliases: &[] },
        Codepoint { codepoint: 0x07A5, name: "THAANA LETTER WAAVU", aliases: &[] },
        Codepoint { codepoint: 0x07A6, name: "THAANA ABAFILI", aliases: &[] },
        Codepoint { codepoint: 0x07A7, name: "THAANA AABAAFILI", aliases: &[] },
        Codepoint { codepoint: 0x07A8, name: "THAANA IBIFILI", aliases: &[] },
    ];
    assert(v@ =~= codepoint_table_47());
    v
}

pub open spec fn codepoint_table_48() -> Seq<Codepoint> {
    seq![
        Codepoint { codepoint: 0x07A9, name: "THAANA EEBEEFILI", aliases: &[] },
        Codepoint { codepoint: 0x07AA, name: "THAANA UBUFILI", aliases: &[] },
        Codepoint { codepoint: 0x07AB, name: "THAANA OOBOOFILI", aliases: &[] },
        Codepoint { codepoint: 0x07AC, name: "THAANA EBEFILI", aliases: &[] },
        Codepoint { codepoint: 0x07AD, name: "THAANA EYBEYFILI", aliases: &[] },
        Codepoint { codepoint: 0x07AE, name: "THAANA OBOFILI", aliases: &[] },
        Codepoint { codepoint: 0x07AF, name: "THAANA OABOAFILI", aliases: &[] },
        Codepoint { codepoint: 0x07B0, name: "THAANA SUKUN", aliases: &[] },
        Codepoint { codepoint: 0x07B1, name: "THAANA LETTER NAA", aliases: &[] },
        Codepoint { codepoint: 0x07C0, name: "NKO DIGIT ZERO", aliases: &[] },
        Codepoint { codepoint: 0x07C1, name: "NKO DIGIT ONE", aliases: &[] },
        Codepoint { codepoint: 0x07C2, name: "NKO DIGIT TWO", aliases: &[] },
        Codepoint { codepoint: 0x07C3, name: "NKO DIGIT THREE", aliases: &[] },
        Codepoint { codepoint: 0x07C4, name: "NKO DIGIT FOUR", aliases: &[] },
        Codepoint { codepoint: 0x07C5, name: "NKO DIGIT FIVE", aliases: &[] },
        Codepoint { codepoint: 0x07C6, name: "NKO DIGIT SIX", aliases: &[] },
        Codepoint { codepoint: 0x07C7, name: "NKO DIGIT SEVEN", aliases: &[] },
        Codepoint { codepoint: 0x07C8, name: "NKO DIGIT EIGHT", aliases: &[] },
        Codepoint { codepoint: 0x07C9, name: "NKO DIGIT NINE", aliases: &[] },
        Codepoint { codepoint: 0x07CA, name: "NKO LETTER A", aliases: &[] },
        Codepoint { codepoint: 0x07CB, name: "NKO LETTER EE", aliases: &[] },
        Codepoint { codepoint: 0x07CC, name: "NKO LETTER I", aliases: &[] },
        Codepoint { codepoint: 0x07CD, name: "NKO LETTER E", aliases: &[] },
        Codepoint { codepoint: 0x07CE, name: "NKO LETTER U", aliases: &[] },
        Codepoint { codepoint: 0x07CF, name: "NKO LETTER OO", aliases: &[] },
        Codepoint { codepoint: 0x07D0, name: "NKO LETTER O", aliases: &[] },
        Codepoint { codepoint: 0x07D1, name: "NKO LETTER DAGBASINNA", aliases: &[] },
        Codepoint { codepoint: 0x07D2, name: "NKO LETTER N", aliases: &[] },
        Codepoint { codepoint: 0x07D3, name: "NKO LETTER BA", aliases: &[] },
        Codepoint { codepoint: 0x07D4, name: "NKO LETTER PA", aliases: &[] },
        Codepoint { codepoint: 0x07D5, name: "NKO LETTER TA", aliases: &[] },
        Codepoint { codepoint: 0x07D6, name: "NKO LETTER JA", aliases: &[] },
        Codepoint { codepoint: 0x07D7, name: "NKO LETTER CHA", aliases: &[] },
        Codepoint { codepoint: 0x07D8, name: "NKO LETTER DA", aliases: &[] },
        Codepoint { codepoint: 0x07D9, name: "NKO LETTER RA", aliases: &[] },
        Codepoint { codepoint: 0x07DA, name: "NKO LETTER RRA", aliases: &[] },
        Codepoint { codepoint: 0x07DB, name: "NKO LETTER SA", aliases: &[] },
        Codepoint { codepoint: 0x07DC, name: "NKO LETTER GBA", aliases: &[] },
        Codepoint { codepoint: 0x07DD, name: "NKO LETTER FA", aliases: &[] },
        Codepoint { codepoint: 0x07DE, name: "NKO LETTER KA", aliases: &[] },
    ]
}

fn all_codepoints_48() -> (v: Vec<Codepoint>)
    ensures
        v@ == codepoint_table_48(),
{
    let v = vec![
        Codepoint { codepoint: 0x07A9, name: "THAANA EEBEEFILI", aliases: &[] },
        Codepoint { codepoint: 0x07AA, name: "THAANA UBUFILI", aliases: &[] },
        Codepoint { codepoint: 0x07AB, name: "THAANA OOBOOFILI", aliases: &[] },
        Codepoint { codepoint: 0x07AC, name: "THAANA EBEFILI", aliases: &[] },
        Codepoint { codepoint: 0x07AD, name: "THAANA EYBEYFILI", aliases: &[] },
        Codepoint { codepoint: 0x07AE, name: "THAANA OBOFILI", aliases: &[] },
        Codepoint { codepoint: 0x07AF, name: "THAANA OABOAFILI", aliases: &[] },
        Codepoint { codepoint: 0x07B0, name: "THAANA SUKUN", aliases: &[] },
        Codepoint { codepoint: 0x07B1, name: "THAANA LETTER NAA", aliases: &[] },
        Codepoint { codepoint: 0x07C0, name: "NKO DIGIT ZERO", aliases: &[] },
        Codepoint { codepoint: 0x07C1, name: "NKO DIGIT ONE", aliases: &[] },
        Codepoint { codepoint: 0x07C2, name: "NKO DIGIT TWO", aliases: &[] },
        Codepoint { codepoint: 0x07C3, name: "NKO DIGIT THREE", aliases: &[] },
        Codepoint { codepoint: 0x07C4, name: "NKO DIGIT FOUR", aliases: &[] },
        Codepoint { codepoint: 0x07C5, name: "NKO DIGIT FIVE", aliases: &[] },
        Codepoint { codepoint: 0x07C6, name: "NKO DIGIT SIX", aliases: &[] },
        Codepoint { codepoint: 0x07C7, name: "NKO DIGIT SEVEN", aliases: &[] },
        Codepoint { codepoint: 0x07C8, name: "NKO DIGIT EIGHT", aliases: &[] },
        Codepoint { codepoint: 0x07C9, name: "NKO DIGIT NINE", aliases: &[] },
        Codepoint { codepoint: 0x07CA, name: "NKO LETTER A", aliases: &[] },
        Codepoint { codepoint: 0x07CB, name: "NKO LETTER EE", aliases: &[] },
        Codepoint { codepoint: 0x07CC, name: "NKO LETTER I", aliases: &[] },
        Codepoint { codepoint: 0x07CD, name: "NKO LETTER E", aliases: &[] },
        Codepoint { codepoint: 0x07CE, name: "NKO LETTER U", aliases: &[] },
        Codepoint { codepoint: 0x07CF, name: "NKO LETTER OO", aliases: &[] },
        Codepoint { codepoint: 0x07D0, name: "NKO LETTER O", aliases: &[] },
        Codepoint { codepoint: 0x07D1, name: "NKO LETTER DAGBASINNA", aliases: &[] },
        Codepoint { codepoint: 0x07D2, name: "NKO LETTER N", aliases: &[] },
        Codepoint { codepoint: 0x07D3, name: "NKO LETTER BA", aliases: &[] },
        Codepoint { codepoint: 0x07D4, name: "NKO LETTER PA", aliases: &[] },
        Codepoint { codepoint: 0x07D5, name: "NKO LETTER TA", aliases: &[] },
        Codepoint { codepoint: 0x07D6, name: "NKO LETTER JA", aliases: &[] },
        Codepoint { codepoint: 0x07D7, name: "NKO LETTER CHA", aliases: &[] },
        Codepoint { codepoint: 0x07D8, name: "NKO LETTER DA", aliases: &[] },
        Codepoint { codepoint: 0x07D9, name: "NKO LETTER RA", aliases: &[] },
        Codepoint { codepoint: 0x07DA, name: "NKO LETTER RRA", aliases: &[] },
        Codepoint { codepoint: 0x07DB, name: "NKO LETTER SA", aliases: &[] },
        Codepoint { codepoint: 0x07DC, name: "NKO LETTER GBA", aliases: &[] },
        Codepoint { codepoint: 0x07DD, name: "NKO LETTER FA", aliases: &[] },
        Codepoint { codepoint: 0x07DE, name: "NKO LETTER KA", aliases: &[] },
    ];
    assert(v@ =~= codepoint_table_48());
    v
}

pub open spec fn codepoint_table_49() -> Seq<Codepoint> {
    seq![
        Codepoint { codepoint: 0x07DF, name: "NKO LETTER LA", aliases: &[] },
        Codepoint { codepoint: 0x07E0, name: "NKO LETTER NA WOLOSO", aliases: &[] },
        Codepoint { codepoint: 0x07E1, name: "NKO LETTER MA", aliases: &[] },
        Codepoint { codepoint: 0x07E2, name: "NKO LETTER NYA", aliases: &[] },
        Codepoint { codepoint: 0x07E3, name: "NKO LETTER NA", aliases: &[] },
        Codepoint { codepoint: 0x07E4, name: "NKO LETTER HA", aliases: &[] },
        Codepoint { codepoint: 0x07E5, name: "NKO LETTER WA", aliases: &[] },
        Codepoint { codepoint: 0x07E6, name: "NKO LETTER YA", aliases: &[] },
        Codepoint { codepoint: 0x07E7, name: "NKO LETTER NYA WOLOSO", aliases: &[] },
        Codepoint { codepoint: 0x07E8, name: "NKO LETTER JONA JA", aliases: &[] },
        Codepoint { codepoint: 0x07E9, name: "NKO LETTER JONA CHA", aliases: &[] },
        Codepoint { codepoint: 0x07EA, name: "NKO LETTER JONA RA", aliases: &[] },
        Codepoint { codepoint: 0x07EB, name: "NKO COMBINING SHORT HIGH TONE", aliases: &[] },
        Codepoint { codepoint: 0x07EC, name: "NKO COMBINING SHORT LOW TONE", aliases: &[] },
        Codepoint { codepoint: 0x07ED, name: "NKO COMBINING SHORT RISING TONE", aliases: &[] },
        Codepoint { codepoint: 0x07EE, name: "NKO COMBINING LONG DESCENDING TONE", aliases: &[] },
        Codepoint { codepoint: 0x07EF, name: "NKO COMBINING LONG HIGH TONE", aliases: &[] },
        Codepoint { codepoint: 0x07F0, name: "NKO COMBINING LONG LOW TONE", aliases: &[] },
        Codepoint { codepoint: 0x07F1, name: "NKO COMBINING LONG RISING TONE", aliases: &[] },
        Codepoint { codepoint: 0x07F2, name: "NKO COMBINING NASALIZATION MARK", aliases: &[] },
        Codepoint { codepoint: 0x07F3, name: "NKO COMBINING DOUBLE DOT ABOVE", aliases: &[] },
        Codepoint { codepoint: 0x07F4, name: "NKO HIGH TONE APOSTROPHE", aliases: &[] },
        Codepoint { codepoint: 0x07F5, name: "NKO LOW TONE APOSTROPHE", aliases: &[] },
        Codepoint { codepoint: 0x07F6, name: "NKO SYMBOL OO DENNEN", aliases: &[] },
        Codepoint { codepoint: 0x07F7, name: "NKO SYMBOL GBAKURUNEN", aliases: &[] },
        Codepoint { codepoint: 0x07F8, name: "NKO COMMA", aliases: &[] },
        Codepoint { codepoint: 0x07F9, name: "NKO EXCLAMATION MARK", aliases: &[] },
        Codepoint { codepoint: 0x07FA, name: "NKO LAJANYALAN", aliases: &[] },
        Codepoint { codepoint: 0x07FD, name: "NKO DANTAYALAN", aliases: &[] },
        Codepoint { codepoint: 0x07FE, name: "NKO DOROME SIGN", aliases: &[] },
        Codepoint { codepoint: 0x07FF, name: "NKO TAMAN SIGN", aliases: &[] },
        Codepoint { codepoint: 0x0800, name: "SAMARITAN LETTER ALAF", aliases: &[] },
        Codepoint { codepoint: 0x0801, name: "SAMARITAN LETTER BIT", aliases: &[] },
        Codepoint { codepoint: 0x0802, name: "SAMARITAN LETTER GAMAN", aliases: &[] },
        Codepoint { codepoint: 0x0803, name: "SAMARITAN LETTER DALAT", aliases: &[] },
        Codepoint { codepoint: 0x0804, name: "SAMARITAN LETTER IY", aliases: &[] },
        Codepoint { codepoint: 0x0805, name: "SAMARITAN LETTER BAA", aliases: &[] },
        Codepoint { codepoint: 0x0806, name: "SAMARITAN LETTER ZEN", aliases: &[] },
        Codepoint { codepoint: 0x0807, name: "SAMARITAN LETTER IT", aliases: &[] },
        Codepoint { codepoint: 0x0808, name: "SAMARITAN LETTER TIT", aliases: &[] },
    ]
}

fn all_codepoints_49() -> (v: Vec<Codepoint>)
    ensures
        v@ == codepoint_table_49(),
{
    let v = vec![
        Codepoint { codepoint: 0x07DF, name: "NKO LETTER LA", aliases: &[] },
        Codepoint { codepoint: 0x07E0, name: "NKO LETTER NA WOLOSO", aliases: &[] },
        Codepoint { codepoint: 0x07E1, name: "NKO LETTER MA", aliases: &[] },
        Codepoint { codepoint: 0x07E2, name: "NKO LETTER NYA", aliases: &[] },
        Codepoint { codepoint: 0x07E3, name: "NKO LETTER NA", aliases: &[] },
        Codepoint { codepoint: 0x07E4, name: "NKO LETTER HA", aliases: &[] },
        Codepoint { codepoint: 0x07E5, name: "NKO LETTER WA", aliases: &[] },
        Codepoint { codepoint: 0x07E6, name: "NKO LETTER YA", aliases: &[] },
        Codepoint { codepoint: 0x07E7, name: "NKO LETTER NYA WOLOSO", aliases: &[] },
        Codepoint { codepoint: 0x07E8, name: "NKO LETTER JONA JA", aliases: &[] },
        Codepoint { codepoint: 0x07E9, name: "NKO LETTER JONA CHA", aliases: &[] },
        Codepoint { codepoint: 0x07EA, name: "NKO LETTER JONA RA", aliases: &[] },
        Codepoint { codepoint: 0x07EB, name: "NKO COMBINING SHORT HIGH TONE", aliases: &[] },
        Codepoint { codepoint: 0x07EC, name: "NKO COMBINING SHORT LOW TONE", aliases: &[] },
        Codepoint { codepoint: 0x07ED, name: "NKO COMBINING SHORT RISING TONE", aliases: &[] },
        Codepoint { codepoint: 0x07EE, name: "NKO COMBINING LONG DESCENDING TONE", aliases: &[] },
        Codepoint { codepoint: 0x07EF, name: "NKO COMBINING LONG HIGH TONE", aliases: &[] },
        Codepoint { codepoint: 0x07F0, name: "NKO COMBINING LONG LOW TONE", aliases: &[] },
        Codepoint { codepoint: 0x07F1, name: "NKO COMBINING LONG RISING TONE", aliases: &[] },
        Codepoint { codepoint: 0x07F2, name: "NKO COMBINING NASALIZATION MARK", aliases: &[] },
        Codepoint { codepoint: 0x07F3, name: "NKO COMBINING DOUBLE DOT ABOVE", aliases: &[] },
        Codepoint { codepoint: 0x07F4, name: "NKO HIGH TONE APOSTROPHE", aliases: &[] },
        Codepoint { codepoint: 0x07F5, name: "NKO LOW TONE APOSTROPHE", aliases: &[] },
        Codepoint { codepoint: 0x07F6, name: "NKO SYMBOL OO DENNEN", aliases: &[] },
        Codepoint { codepoint: 0x07F7, name: "NKO SYMBOL GBAKURUNEN", aliases: &[] },
        Codepoint { codepoint: 0x07F8, name: "NKO COMMA", aliases: &[] },
        Codepoint { codepoint: 0x07F9, name: "NKO EXCLAMATION MARK", aliases: &[] },
        Codepoint { codepoint: 0x07FA, name: "NKO LAJANYALAN", aliases: &[] },
        Codepoint { codepoint: 0x07FD, name: "NKO DANTAYALAN", aliases: &[] },
        Codepoint { codepoint: 0x07FE, name: "NKO DOROME SIGN", aliases: &[] },
        Codepoint { codepoint: 0x07FF, name: "NKO TAMAN SIGN", aliases: &[] },
        Codepoint { codepoint: 0x0800, name: "SAMARITAN LETTER ALAF", aliases: &[] },
        Codepoint { codepoint: 0x0801, name: "SAMARITAN LETTER BIT", aliases: &[] },
        Codepoint { codepoint: 0x0802, name: "SAMARITAN LETTER GAMAN", aliases: &[] },
        Codepoint { codepoint: 0x0803, name: "SAMARITAN LETTER DALAT", aliases: &[] },
        Codepoint { codepoint: 0x0804, name: "SAMARITAN LETTER IY", aliases: &[] },
        Codepoint { codepoint: 0x0805, name: "SAMARITAN LETTER BAA", aliases: &[] },
        Codepoint { codepoint: 0x0806, name: "SAMARITAN LETTER ZEN", aliases: &[] },
        Codepoint { codepoint: 0x0807, name: "SAMARITAN LETTER IT", aliases: &[] },
        Codepoint { codepoint: 0x0808, name: "SAMARITAN LETTER TIT", aliases: &[] },
    ];
    assert(v@ =~= codepoint_table_49());
    v
}

pub open spec fn codepoint_table_50() -> Seq<Codepoint> {
    seq![
        Codepoint { codepoint: 0x0809, name: "SAMARITAN LETTER YUT", aliases: &[] },
        Codepoint { codepoint: 0x080A, name: "SAMARITAN LETTER KAAF", aliases: &[] },
        Codepoint { codepoint: 0x080B, name: "SAMARITAN LETTER LABAT", aliases: &[] },
        Codepoint { codepoint: 0x080C, name: "SAMARITAN LETTER MIM", aliases: &[] },
        Codepoint { codepoint: 0x080D, name: "SAMARITAN LETTER NUN", aliases: &[] },
        Codepoint { codepoint: 0x080E, name: "SAMARITAN LETTER SINGAAT", aliases: &[] },
        Codepoint { codepoint: 0x080F, name: "SAMARITAN LETTER IN", aliases: &[] },
        Codepoint { codepoint: 0x0810, name: "SAMARITAN LETTER FI", aliases: &[] },
        Codepoint { codepoint: 0x0811, name: "SAMARITAN LETTER TSAADIY", aliases: &[] },
        Codepoint { codepoint: 0x0812, name: "SAMARITAN LETTER QUF", aliases: &[] },
        Codepoint { codepoint: 0x0813, name: "SAMARITAN LETTER RISH", aliases: &[] },
        Codepoint { codepoint: 0x0814, name: "SAMARITAN LETTER SHAN", aliases: &[] },
        Codepoint { codepoint: 0x0815, name: "SAMARITAN LETTER TAAF", aliases: &[] },
        Codepoint { codepoint: 0x0816, name: "SAMARITAN MARK IN", aliases: &[] },
        Codepoint { codepoint: 0x0817, name: "SAMARITAN MARK IN-ALAF", aliases: &[] },
        Codepoint { codepoint: 0x0818, name: "SAMARITAN MARK OCCLUSION", aliases: &[] },
        Codepoint { codepoint: 0x0819, name: "SAMARITAN MARK DAGESH", aliases: &[] },
        Codepoint { codepoint: 0x081A, name: "SAMARITAN MODIFIER LETTER EPENTHETIC YUT", aliases: &[] },
        Codepoint { codepoint: 0x081B, name: "SAMARITAN MARK EPENTHETIC YUT", aliases: &[] },
        Codepoint { codepoint: 0x081C, name: "SAMARITAN VOWEL SIGN LONG E", aliases: &[] },
        Codepoint { codepoint: 0x081D, name: "SAMARITAN VOWEL SIGN E", aliases: &[] },
        Codepoint { codepoint: 0x081E, name: "SAMARITAN VOWEL SIGN OVERLONG AA", aliases: &[] },
        Codepoint { codepoint: 0x081F, name: "SAMARITAN VOWEL SIGN LONG AA", aliases: &[] },
        Codepoint { codepoint: 0x0820, name: "SAMARITAN VOWEL SIGN AA", aliases: &[] },
        Codepoint { codepoint: 0x0821, name: "SAMARITAN VOWEL SIGN OVERLONG A", aliases: &[] },
        Codepoint { codepoint: 0x0822, name: "SAMARITAN VOWEL SIGN LONG A", aliases: &[] },
        Codepoint { codepoint: 0x0823, name: "SAMARITAN VOWEL SIGN A", aliases: &[] },
        Codepoint { codepoint: 0x0824, name: "SAMARITAN MODIFIER LETTER SHORT A", aliases: &[] },
        Codepoint { codepoint: 0x0825, name: "SAMARITAN VOWEL SIGN SHORT A", aliases: &[] },
        Codepoint { codepoint: 0x0826, name: "SAMARITAN VOWEL SIGN LONG U", aliases: &[] },
        Codepoint { codepoint: 0x0827, name: "SAMARITAN VOWEL SIGN U", aliases: &[] },
        Codepoint { codepoint: 0x0828, name: "SAMARITAN MODIFIER LETTER I", aliases: &[] },
        Codepoint { codepoint: 0x0829, name: "SAMARITAN VOWEL SIGN LONG I", aliases: &[] },
        Codepoint { codepoint: 0x082A, name: "SAMARITAN VOWEL SIGN I", aliases: &[] },
        Codepoint { codepoint: 0x082B, name: "SAMARITAN VOWEL SIGN O", aliases: &[] },
        Codepoint { codepoint: 0x082C, name: "SAMARITAN VOWEL SIGN SUKUN", aliases: &[] },
        Codepoint { codepoint: 0x082D, name: "SAMARITAN MARK NEQUDAA", aliases: &[] },
        Codepoint { codepoint: 0x0830, name: "SAMARITAN PUNCTUATION NEQUDAA", aliases: &[] },
        Codepoint { codepoint: 0x0831, name: "SAMARITAN PUNCTUATION AFSAAQ", aliases: &[] },
        Codepoint { codepoint: 0x0832, name: "SAMARITAN PUNCTUATION ANGED", aliases: &[] },
    ]
}

fn all_codepoints_50() -> (v: Vec<Codepoint>)
    ensures
        v@ == codepoint_table_50(),
{
    let v = vec![
        Codepoint { codepoint: 0x0809, name: "SAMARITAN LETTER YUT", aliases: &[] },
        Codepoint { codepoint: 0x080A, name: "SAMARITAN LETTER KAAF", aliases: &[] },
        Codepoint { codepoint: 0x080B, name: "SAMARITAN LETTER LABAT", aliases: &[] },
        Codepoint { codepoint: 0x080C, name: "SAMARITAN LETTER MIM", aliases: &[] },
        Codepoint { codepoint: 0x080D, name: "SAMARITAN LETTER NUN", aliases: &[] },
        Codepoint { codepoint: 0x080E, name: "SAMARITAN LETTER SINGAAT", aliases: &[] },
        Codepoint { codepoint: 0x080F, name: "SAMARITAN LETTER IN", aliases: &[] },
        Codepoint { codepoint: 0x0810, name: "SAMARITAN LETTER FI", aliases: &[] },
        Codepoint { codepoint: 0x0811, name: "SAMARITAN LETTER TSAADIY", aliases: &[] },
        Codepoint { codepoint: 0x0812, name: "SAMARITAN LETTER QUF", aliases: &[] },
        Codepoint { codepoint: 0x0813, name: "SAMARITAN LETTER RISH", aliases: &[] },
        Codepoint { codepoint: 0x0814, name: "SAMARITAN LETTER SHAN", aliases: &[] },
        Codepoint { codepoint: 0x0815, name: "SAMARITAN LETTER TAAF", aliases: &[] },
        Codepoint { codepoint: 0x0816, name: "SAMARITAN MARK IN", aliases: &[] },
        Codepoint { codepoint: 0x0817, name: "SAMARITAN MARK IN-ALAF", aliases: &[] },
        Codepoint { codepoint: 0x0818, name: "SAMARITAN MARK OCCLUSION", aliases: &[] },
        Codepoint { codepoint: 0x0819, name: "SAMARITAN MARK DAGESH", aliases: &[] },
        Codepoint { codepoint: 0x081A, name: "SAMARITAN MODIFIER LETTER EPENTHETIC YUT", aliases: &[] },
        Codepoint { codepoint: 0x081B, name: "SAMARITAN MARK EPENTHETIC YUT", aliases: &[] },
        Codepoint { codepoint: 0x081C, name: "SAMARITAN VOWEL SIGN LONG E", aliases: &[] },
        Codepoint { codepoint: 0x081D, name: "SAMARITAN VOWEL SIGN E", aliases: &[] },
        Codepoint { codepoint: 0x081E, name: "SAMARITAN VOWEL SIGN OVERLONG AA", aliases: &[] },
        Codepoint { codepoint: 0x081F, name: "SAMARITAN VOWEL SIGN LONG AA", aliases: &[] },
        Codepoint { codepoint: 0x0820, name: "SAMARITAN VOWEL SIGN AA", aliases: &[] },
        Codepoint { codepoint: 0x0821, name: "SAMARITAN VOWEL SIGN OVERLONG A", aliases: &[] },
        Codepoint { codepoint: 0x0822, name: "SAMARITAN VOWEL SIGN LONG A", aliases: &[] },
        Codepoint { codepoint: 0x0823, name: "SAMARITAN VOWEL SIGN A", aliases: &[] },
        Codepoint { codepoint: 0x0824, name: "SAMARITAN MODIFIER LETTER SHORT A", aliases: &[] },
        Codepoint { codepoint: 0x0825, name: "SAMARITAN VOWEL SIGN SHORT A", aliases: &[] },
        Codepoint { codepoint: 0x0826, name: "SAMARITAN VOWEL SIGN LONG U", aliases: &[] },
        Codepoint { codepoint: 0x0827, name: "SAMARITAN VOWEL SIGN U", aliases: &[] },
        Codepoint { codepoint: 0x0828, name: "SAMARITAN MODIFIER LETTER I", aliases: &[] },
        Codepoint { codepoint: 0x0829, name: "SAMARITAN VOWEL SIGN LONG I", aliases: &[] },
        Codepoint { codepoint: 0x082A, name: "SAMARITAN VOWEL SIGN I", aliases: &[] },
        Codepoint { codepoint: 0x082B, name: "SAMARITAN VOWEL SIGN O", aliases: &[] },
        Codepoint { codepoint: 0x082C, name: "SAMARITAN VOWEL SIGN SUKUN", aliases: &[] },
        Codepoint { codepoint: 0x082D, name: "SAMARITAN MARK NEQUDAA", aliases: &[] },
        Codepoint { codepoint: 0x0830, name: "SAMARITAN PUNCTUATION NEQUDAA", aliases: &[] },
        Codepoint { codepoint: 0x0831, name: "SAMARITAN PUNCTUATION AFSAAQ", aliases: &[] },
        Codepoint { codepoint: 0x0832, name: "SAMARITAN PUNCTUATION ANGED", aliases: &[] },
    ];
    assert(v@ =~= codepoint_table_50());
    v
}

pub open spec fn codepoint_table_51() -> Seq<Codepoint> {
    seq![
        Codepoint { codepoint: 0x0833, name: "SAMARITAN PUNCTUATION BAU", aliases: &[] },
        Codepoint { codepoint: 0x0834, name: "SAMARITAN PUNCTUATION ATMAAU", aliases: &[] },
        Codepoint { codepoint: 0x0835, name: "SAMARITAN PUNCTUATION SHIYYAALAA", aliases: &[] },
        Codepoint { codepoint: 0x0836, name: "SAMARITAN ABBREVIATION MARK", aliases: &[] },
        Codepoint { codepoint: 0x0837, name: "SAMARITAN PUNCTUATION MELODIC QITSA", aliases: &[] },
        Codepoint { codepoint: 0x0838, name: "SAMARITAN PUNCTUATION ZIQAA", aliases: &[] },
        Codepoint { codepoint: 0x0839, name: "SAMARITAN PUNCTUATION QITSA", aliases: &[] },
        Codepoint { codepoint: 0x083A, name: "SAMARITAN PUNCTUATION ZAEF", aliases: &[] },
        Codepoint { codepoint: 0x083B, name: "SAMARITAN PUNCTUATION TURU", aliases: &[] },
        Codepoint { codepoint: 0x083C, name: "SAMARITAN PUNCTUATION ARKAANU", aliases: &[] },
        Codepoint { codepoint: 0x083D, name: "SAMARITAN PUNCTUATION SOF MASHFAAT", aliases: &[] },
        Codepoint { codepoint: 0x083E, name: "SAMARITAN PUNCTUATION ANNAAU", aliases: &[] },
        Codepoint { codepoint: 0x0840, name: "MANDAIC LETTER HALQA", aliases: &[] },
        Codepoint { codepoint: 0x0841, name: "MANDAIC LETTER AB", aliases: &[] },
        Codepoint { codepoint: 0x0842, name: "MANDAIC LETTER AG", aliases: &[] },
        Codepoint { codepoint: 0x0843, name: "MANDAIC LETTER AD", aliases: &[] },
        Codepoint { codepoint: 0x0844, name: "MANDAIC LETTER AH", aliases: &[] },
        Codepoint { codepoint: 0x0845, name: "MANDAIC LETTER USHENNA", aliases: &[] },
        Codepoint { codepoint: 0x0846, name: "MANDAIC LETTER AZ", aliases: &[] },
        Codepoint { codepoint: 0x0847, name: "MANDAIC LETTER IT", aliases: &[] },
        Codepoint { codepoint: 0x0848, name: "MANDAIC LETTER ATT", aliases: &[] },
        Codepoint { codepoint: 0x0849, name: "MANDAIC LETTER AKSA", aliases: &[] },
        Codepoint { codepoint: 0x084A, name: "MANDAIC LETTER AK", aliases: &[] },
        Codepoint { codepoint: 0x084B, name: "MANDAIC LETTER AL", aliases: &[] },
        Codepoint { codepoint: 0x084C, name: "MANDAIC LETTER AM", aliases: &[] },
        Codepoint { codepoint: 0x084D, name: "MANDAIC LETTER AN", aliases: &[] },
        Codepoint { codepoint: 0x084E, name: "MANDAIC LETTER AS", aliases: &[] },
        Codepoint { codepoint: 0x084F, name: "MANDAIC LETTER IN", aliases: &[] },
        Codepoint { codepoint: 0x0850, name: "MANDAIC LETTER AP", aliases: &[] },
        Codepoint { codepoint: 0x0851, name: "MANDAIC LETTER ASZ", aliases: &[] },
        Codepoint { codepoint: 0x0852, name: "MANDAIC LETTER AQ", aliases: &[] },
        Codepoint { codepoint: 0x0853, name: "MANDAIC LETTER AR", aliases: &[] },
        Codepoint { codepoint: 0x0854, name: "MANDAIC LETTER ASH", aliases: &[] },
        Codepoint { codepoint: 0x0855, name: "MANDAIC LETTER AT", aliases: &[] },
        Codepoint { codepoint: 0x0856, name: "MANDAIC LETTER DUSHENNA", aliases: &[] },
        Codepoint { codepoint: 0x0857, name: "MANDAIC LETTER KAD", aliases: &[] },
        Codepoint { codepoint: 0x0858, name: "MANDAIC LETTER AIN", aliases: &[] },
        Codepoint { codepoint: 0x0859, name: "MANDAIC AFFRICATION MARK", aliases: &[] },
        Codepoint { codepoint: 0x085A, name: "MANDAIC VOCALIZATION MARK", aliases: &[] },
        Codepoint { codepoint: 0x085B, name: "MANDAIC GEMINATION MARK", aliases: &[] },
    ]
}

fn all_codepoints_51() -> (v: Vec<Codepoint>)
    ensures
        v@ == codepoint_table_51(),
{
    let v = vec![
        Codepoint { codepoint: 0x0833, name: "SAMARITAN PUNCTUATION BAU", aliases: &[] },
        Codepoint { codepoint: 0x0834, name: "SAMARITAN PUNCTUATION ATMAAU", aliases: &[] },
        Codepoint { codepoint: 0x0835, name: "SAMARITAN PUNCTUATION SHIYYAALAA", aliases: &[] },
        Codepoint { codepoint: 0x0836, name: "SAMARITAN ABBREVIATION MARK", aliases: &[] },
        Codepoint { codepoint: 0x0837, name: "SAMARITAN PUNCTUATION MELODIC QITSA", aliases: &[] },
        Codepoint { codepoint: 0x0838, name: "SAMARITAN PUNCTUATION ZIQAA", aliases: &[] },
        Codepoint { codepoint: 0x0839, name: "SAMARITAN PUNCTUATION QITSA", aliases: &[] },
        Codepoint { codepoint: 0x083A, name: "SAMARITAN PUNCTUATION ZAEF", aliases: &[] },
        Codepoint { codepoint: 0x083B, name: "SAMARITAN PUNCTUATION TURU", aliases: &[] },
        Codepoint { codepoint: 0x083C, name: "SAMARITAN PUNCTUATION ARKAANU", aliases: &[] },
        Codepoint { codepoint: 0x083D, name: "SAMARITAN PUNCTUATION SOF MASHFAAT", aliases: &[] },
        Codepoint { codepoint: 0x083E, name: "SAMARITAN PUNCTUATION ANNAAU", aliases: &[] },
        Codepoint { codepoint: 0x0840, name: "MANDAIC LETTER HALQA", aliases: &[] },
        Codepoint { codepoint: 0x0841, name: "MANDAIC LETTER AB", aliases: &[] },
        Codepoint { codepoint: 0x0842, name: "MANDAIC LETTER AG", aliases: &[] },
        Codepoint { codepoint: 0x0843, name: "MANDAIC LETTER AD", aliases: &[] },
        Codepoint { codepoint: 0x0844, name: "MANDAIC LETTER AH", aliases: &[] },
        Codepoint { codepoint: 0x0845, name: "MANDAIC LETTER USHENNA", aliases: &[] },
        Codepoint { codepoint: 0x0846, name: "MANDAIC LETTER AZ", aliases: &[] },
        Codepoint { codepoint: 0x0847, name: "MANDAIC LETTER IT", aliases: &[] },
        Codepoint { codepoint: 0x0848, name: "MANDAIC LETTER ATT", aliases: &[] },
        Codepoint { codepoint: 0x0849, name: "MANDAIC LETTER AKSA", aliases: &[] },
        Codepoint { codepoint: 0x084A, name: "MANDAIC LETTER AK", aliases: &[] },
        Codepoint { codepoint: 0x084B, name: "MANDAIC LETTER AL", aliases: &[] },
        Codepoint { codepoint: 0x084C, name: "MANDAIC LETTER AM", aliases: &[] },
        Codepoint { codepoint: 0x084D, name: "MANDAIC LETTER AN", aliases: &[] },
        Codepoint { codepoint: 0x084E, name: "MANDAIC LETTER AS", aliases: &[] },
        Codepoint { codepoint: 0x084F, name: "MANDAIC LETTER IN", aliases: &[] },
        Codepoint { codepoint: 0x0850, name: "MANDAIC LETTER AP", aliases: &[] },
        Codepoint { codepoint: 0x0851, name: "MANDAIC LETTER ASZ", aliases: &[] },
        Codepoint { codepoint: 0x0852, name: "MANDAIC LETTER AQ", aliases: &[] },
        Codepoint { codepoint: 0x0853, name: "MANDAIC LETTER AR", aliases: &[] },
        Codepoint { codepoint: 0x0854, name: "MANDAIC LETTER ASH", aliases: &[] },
        Codepoint { codepoint: 0x0855, name: "MANDAIC LETTER AT", aliases: &[] },
        Codepoint { codepoint: 0x0856, name: "MANDAIC LETTER DUSHENNA", aliases: &[] },
        Codepoint { codepoint: 0x0857, name: "MANDAIC LETTER KAD", aliases: &[] },
        Codepoint { codepoint: 0x0858, name: "MANDAIC LETTER AIN", aliases: &[] },
        Codepoint { codepoint: 0x0859, name: "MANDAIC AFFRICATION MARK", aliases: &[] },
        Codepoint { codepoint: 0x085A, name: "MANDAIC VOCALIZATION MARK", aliases: &[] },
        Codepoint { codepoint: 0x085B, name: "MANDAIC GEMINATION MARK", aliases: &[] },
    ];
    assert(v@ =~= codepoint_table_51());
    v
}

pub open spec fn codepoint_table_52() -> Seq<Codepoint> {
    seq![
        Codepoint { codepoint: 0x085E, name: "MANDAIC PUNCTUATION", aliases: &[] },
        Codepoint { codepoint: 0x0860, name: "SYRIAC LETTER MALAYALAM NGA", aliases: &[] },
        Codepoint { codepoint: 0x0861, name: "SYRIAC LETTER MALAYALAM JA", aliases: &[] },
        Codepoint { codepoint: 0x0862, name: "SYRIAC LETTER MALAYALAM NYA", aliases: &[] },
        Codepoint { codepoint: 0x0863, name: "SYRIAC LETTER MALAYALAM TTA", aliases: &[] },
        Codepoint { codepoint: 0x0864, name: "SYRIAC LETTER MALAYALAM NNA", aliases: &[] },
        Codepoint { codepoint: 0x0865, name: "SYRIAC LETTER MALAYALAM NNNA", aliases: &[] },
        Codepoint { codepoint: 0x0866, name: "SYRIAC LETTER MALAYALAM BHA", aliases: &[] },
        Codepoint { codepoint: 0x0867, name: "SYRIAC LETTER MALAYALAM RA", aliases: &[] },
        Codepoint { codepoint: 0x0868, name: "SYRIAC LETTER MALAYALAM LLA", aliases: &[] },
        Codepoint { codepoint: 0x0869, name: "SYRIAC LETTER MALAYALAM LLLA", aliases: &[] },
        Codepoint { codepoint: 0x086A, name: "SYRIAC LETTER MALAYALAM SSA", aliases: &[] },
        Codepoint { codepoint: 0x0870, name: "ARABIC LETTER ALEF WITH ATTACHED FATHA", aliases: &[] },
        Codepoint { codepoint: 0x0871, name: "ARABIC LETTER ALEF WITH ATTACHED TOP RIGHT FATHA", aliases: &[] },
        Codepoint { codepoint: 0x0872, name: "ARABIC LETTER ALEF WITH RIGHT MIDDLE STROKE", aliases: &[] },
        Codepoint { codepoint: 0x0873, name: "ARABIC LETTER ALEF WITH LEFT MIDDLE STROKE", aliases: &[] },
        Codepoint { codepoint: 0x0874, name: "ARABIC LETTER ALEF WITH ATTACHED KASRA", aliases: &[] },
        Codepoint { codepoint: 0x0875, name: "ARABIC LETTER ALEF WITH ATTACHED BOTTOM RIGHT KASRA", aliases: &[] },
        Codepoint { codepoint: 0x0876, name: "ARABIC LETTER ALEF WITH ATTACHED ROUND DOT ABOVE", aliases: &[] },
        Codepoint { codepoint: 0x0877, name: "ARABIC LETTER ALEF WITH ATTACHED RIGHT ROUND DOT", aliases: &[] },
        Codepoint { codepoint: 0x0878, name: "ARABIC LETTER ALEF WITH ATTACHED LEFT ROUND DOT", aliases: &[] },
        Codepoint { codepoint: 0x0879, name: "ARABIC LETTER ALEF WITH ATTACHED ROUND DOT BELOW", aliases: &[] },
        Codepoint { codepoint: 0x087A, name: "ARABIC LETTER ALEF WITH DOT ABOVE", aliases: &[] },
        Codepoint { codepoint: 0x087B, name: "ARABIC LETTER ALEF WITH ATTACHED TOP RIGHT FATHA AND DOT ABOVE", aliases: &[] },
        Codepoint { codepoint: 0x087C, name: "ARABIC LETTER ALEF WITH RIGHT MIDDLE STROKE AND DOT ABOVE", aliases: &[] },
        Codepoint { codepoint: 0x087D, name: "ARABIC LETTER ALEF WITH ATTACHED BOTTOM RIGHT KASRA AND DOT ABOVE", aliases: &[] },
        Codepoint { codepoint: 0x087E, name: "ARABIC LETTER ALEF WITH ATTACHED TOP RIGHT FATHA AND LEFT RING", aliases: &[] },
        Codepoint { codepoint: 0x087F, name: "ARABIC LETTER ALEF WITH RIGHT MIDDLE STROKE AND LEFT RING", aliases: &[] },
        Codepoint { codepoint: 0x0880, name: "ARABIC LETTER ALEF WITH ATTACHED BOTTOM RIGHT KASRA AND LEFT RING", aliases: &[] },
        Codepoint { codepoint: 0x0881, name: "ARABIC LETTER ALEF WITH ATTACHED RIGHT HAMZA", aliases: &[] },
        Codepoint { codepoint: 0x0882, name: "ARABIC LETTER ALEF WITH ATTACHED LEFT HAMZA", aliases: &[] },
        Codepoint { codepoint: 0x0883, name: "ARABIC TATWEEL WITH OVERSTRUCK HAMZA", aliases: &[] },
        Codepoint { codepoint: 0x0884, name: "ARABIC TATWEEL WITH OVERSTRUCK WAW", aliases: &[] },
        Codepoint { codepoint: 0x0885, name: "ARABIC TATWEEL WITH TWO DOTS BELOW", aliases: &[] },
        Codepoint { codepoint: 0x0886, name: "ARABIC LETTER THIN YEH", aliases: &[] },
        Codepoint { codepoint: 0x0887, name: "ARABIC BASELINE ROUND DOT", aliases: &[] },
        Codepoint { codepoint: 0x0888, name: "ARABIC RAISED ROUND DOT", aliases: &[] },
        Codepoint { codepoint: 0x0889, name: "ARABIC LETTER NOON WITH INVERTED SMALL V", aliases: &[] },
        Codepoint { codepoint: 0x088A, name: "ARABIC LETTER HAH WITH INVERTED SMALL V BELOW", aliases: &[] },
        Codepoint { codepoint: 0x088B, name: "ARABIC LETTER TAH WITH DOT BELOW", aliases: &[] },
    ]
}

fn all_codepoints_52() -> (v: Vec<Codepoint>)
    ensures
        v@ == codepoint_table_52(),
{
    let v = vec![
        Codepoint { codepoint: 0x085E, name: "MANDAIC PUNCTUATION", aliases: &[] },
        Codepoint { codepoint: 0x0860, name: "SYRIAC LETTER MALAYALAM NGA", aliases: &[] },
        Codepoint { codepoint: 0x0861, name: "SYRIAC LETTER MALAYALAM JA", aliases: &[] },
        Codepoint { codepoint: 0x0862, name: "SYRIAC LETTER MALAYALAM NYA", aliases: &[] },
        Codepoint { codepoint: 0x0863, name: "SYRIAC LETTER MALAYALAM TTA", aliases: &[] },
        Codepoint { codepoint: 0x0864, name: "SYRIAC LETTER MALAYALAM NNA", aliases: &[] },
        Codepoint { codepoint: 0x0865, name: "SYRIAC LETTER MALAYALAM NNNA", aliases: &[] },
        Codepoint { codepoint: 0x0866, name: "SYRIAC LETTER MALAYALAM BHA", aliases: &[] },
        Codepoint { codepoint: 0x0867, name: "SYRIAC LETTER MALAYALAM RA", aliases: &[] },
        Codepoint { codepoint: 0x0868, name: "SYRIAC LETTER MALAYALAM LLA", aliases: &[] },
        Codepoint { codepoint: 0x0869, name: "SYRIAC LETTER MALAYALAM LLLA", aliases: &[] },
        Codepoint { codepoint: 0x086A, name: "SYRIAC LETTER MALAYALAM SSA", aliases: &[] },
        Codepoint { codepoint: 0x0870, name: "ARABIC LETTER ALEF WITH ATTACHED FATHA", aliases: &[] },
        Codepoint { codepoint: 0x0871, name: "ARABIC LETTER ALEF WITH ATTACHED TOP RIGHT FATHA", aliases: &[] },
        Codepoint { codepoint: 0x0872, name: "ARABIC LETTER ALEF WITH RIGHT MIDDLE STROKE", aliases: &[] },
        Codepoint { codepoint: 0x0873, name: "ARABIC LETTER ALEF WITH LEFT MIDDLE STROKE", aliases: &[] },
        Codepoint { codepoint: 0x0874, name: "ARABIC LETTER ALEF WITH ATTACHED KASRA", aliases: &[] },
        Codepoint { codepoint: 0x0875, name: "ARABIC LETTER ALEF WITH ATTACHED BOTTOM RIGHT KASRA", aliases: &[] },
        Codepoint { codepoint: 0x0876, name: "ARABIC LETTER ALEF WITH ATTACHED ROUND DOT ABOVE", aliases: &[] },
        Codepoint { codepoint: 0x0877, name: "ARABIC LETTER ALEF WITH ATTACHED RIGHT ROUND DOT", aliases: &[] },
        Codepoint { codepoint: 0x0878, name: "ARABIC LETTER ALEF WITH ATTACHED LEFT ROUND DOT", aliases: &[] },
        Codepoint { codepoint: 0x0879, name: "ARABIC LETTER ALEF WITH ATTACHED ROUND DOT BELOW", aliases: &[] },
        Codepoint { codepoint: 0x087A, name: "ARABIC LETTER ALEF WITH DOT ABOVE", aliases: &[] },
        Codepoint { codepoint: 0x087B, name: "ARABIC LETTER ALEF WITH ATTACHED TOP RIGHT FATHA AND DOT ABOVE", aliases: &[] },
        Codepoint { codepoint: 0x087C, name: "ARABIC LETTER ALEF WITH RIGHT MIDDLE STROKE AND DOT ABOVE", aliases: &[] },
        Codepoint { codepoint: 0x087D, name: "ARABIC LETTER ALEF WITH ATTACHED BOTTOM RIGHT KASRA AND DOT ABOVE", aliases: &[] },
        Codepoint { codepoint: 0x087E, name: "ARABIC LETTER ALEF WITH ATTACHED TOP RIGHT FATHA AND LEFT RING", aliases: &[] },
        Codepoint { codepoint: 0x087F, name: "ARABIC LETTER ALEF WITH RIGHT MIDDLE STROKE AND LEFT RING", aliases: &[] },
        Codepoint { codepoint: 0x0880, name: "ARABIC LETTER ALEF WITH ATTACHED BOTTOM RIGHT KASRA AND LEFT RING", aliases: &[] },
        Codepoint { codepoint: 0x0881, name: "ARABIC LETTER ALEF WITH ATTACHED RIGHT HAMZA", aliases: &[] },
        Codepoint { codepoint: 0x0882, name: "ARABIC LETTER ALEF WITH ATTACHED LEFT HAMZA", aliases: &[] },
        Codepoint { codepoint: 0x0883, name: "ARABIC TATWEEL WITH OVERSTRUCK HAMZA", aliases: &[] },
        Codepoint { codepoint: 0x0884, name: "ARABIC TATWEEL WITH OVERSTRUCK WAW", aliases: &[] },
        Codepoint { codepoint: 0x0885, name: "ARABIC TATWEEL WITH TWO DOTS BELOW", aliases: &[] },
        Codepoint { codepoint: 0x0886, name: "ARABIC LETTER THIN YEH", aliases: &[] },
        Codepoint { codepoint: 0x0887, name: "ARABIC BASELINE ROUND DOT", aliases: &[] },
        Codepoint { codepoint: 0x0888, name: "ARABIC RAISED ROUND DOT", aliases: &[] },
        Codepoint { codepoint: 0x0889, name: "ARABIC LETTER NOON WITH INVERTED SMALL V", aliases: &[] },
        Codepoint { codepoint: 0x088A, name: "ARABIC LETTER HAH WITH INVERTED SMALL V BELOW", aliases: &[] },
        Codepoint { codepoint: 0x088B, name: "ARABIC LETTER TAH WITH DOT BELOW", aliases: &[] },
    ];
    assert(v@ =~= codepoint_table_52());
    v
}

pub open spec fn codepoint_table_53() -> Seq<Codepoint> {
    seq![
        Codepoint { codepoint: 0x088C, name: "ARABIC LETTER TAH WITH THREE DOTS BELOW", aliases: &[] },
        Codepoint { codepoint: 0x088D, name: "ARABIC LETTER KEHEH WITH TWO DOTS VERTICALLY BELOW", aliases: &[] },
        Codepoint { codepoint: 0x088E, name: "ARABIC VERTICAL TAIL", aliases: &[] },
        Codepoint { codepoint: 0x0890, name: "ARABIC POUND MARK ABOVE", aliases: &[] },
        Codepoint { codepoint: 0x0891, name: "ARABIC PIASTRE MARK ABOVE", aliases: &[] },
        Codepoint { codepoint: 0x0898, name: "ARABIC SMALL HIGH WORD AL-JUZ", aliases: &[] },
        Codepoint { codepoint: 0x0899, name: "ARABIC SMALL LOW WORD ISHMAAM", aliases: &[] },
        Codepoint { codepoint: 0x089A, name: "ARABIC SMALL LOW WORD IMAALA", aliases: &[] },
        Codepoint { codepoint: 0x089B, name: "ARABIC SMALL LOW WORD TASHEEL", aliases: &[] },
        Codepoint { codepoint: 0x089C, name: "ARABIC MADDA WAAJIB", aliases: &[] },
        Codepoint { codepoint: 0x089D, name: "ARABIC SUPERSCRIPT ALEF MOKHASSAS", aliases: &[] },
        Codepoint { codepoint: 0x089E, name: "ARABIC DOUBLED MADDA", aliases: &[] },
        Codepoint { codepoint: 0x089F, name: "ARABIC HALF MADDA OVER MADDA", aliases: &[] },
        Codepoint { codepoint: 0x08A0, name: "ARABIC LETTER BEH WITH SMALL V BELOW", aliases: &[] },
        Codepoint { codepoint: 0x08A1, name: "ARABIC LETTER BEH WITH HAMZA ABOVE", aliases: &[] },
        Codepoint { codepoint: 0x08A2, name: "ARABIC LETTER JEEM WITH TWO DOTS ABOVE", aliases: &[] },
        Codepoint { codepoint: 0x08A3, name: "ARABIC LETTER TAH WITH TWO DOTS ABOVE", aliases: &[] },
        Codepoint { codepoint: 0x08A4, name: "ARABIC LETTER FEH WITH DOT BELOW AND THREE DOTS ABOVE", aliases: &[] },
        Codepoint { codepoint: 0x08A5, name: "ARABIC LETTER QAF WITH DOT BELOW", aliases: &[] },
        Codepoint { codepoint: 0x08A6, name: "ARABIC LETTER LAM WITH DOUBLE BAR", aliases: &[] },
        Codepoint { codepoint: 0x08A7, name: "ARABIC LETTER MEEM WITH THREE DOTS ABOVE", aliases: &[] },
        Codepoint { codepoint: 0x08A8, name: "ARABIC LETTER YEH WITH TWO DOTS BELOW AND HAMZA ABOVE", aliases: &[] },
        Codepoint { codepoint: 0x08A9, name: "ARABIC LETTER YEH WITH TWO DOTS BELOW AND DOT ABOVE", aliases: &[] },
        Codepoint { codepoint: 0x08AA, name: "ARABIC LETTER REH WITH LOOP", aliases: &[] },
        Codepoint { codepoint: 0x08AB, name: "ARABIC LETTER WAW WITH DOT WITHIN", aliases: &[] },
        Codepoint { codepoint: 0x08AC, name: "ARABIC LETTER ROHINGYA YEH", aliases: &[] },
        Codepoint { codepoint: 0x08AD, name: "ARABIC LETTER LOW ALEF", aliases: &[] },
        Codepoint { codepoint: 0x08AE, name: "ARABIC LETTER DAL WITH THREE DOTS BELOW", aliases: &[] },
        Codepoint { codepoint: 0x08AF, name: "ARABIC LETTER SAD WITH THREE DOTS BELOW", aliases: &[] },
        Codepoint { codepoint: 0x08B0, name: "ARABIC LETTER GAF WITH INVERTED STROKE", aliases: &[] },
        Codepoint { codepoint: 0x08B1, name: "ARABIC LETTER STRAIGHT WAW", aliases: &[] },
        Codepoint { codepoint: 0x08B2, name: "ARABIC LETTER ZAIN WITH INVERTED V ABOVE", aliases: &[] },
        Codepoint { codepoint: 0x08B3, name: "ARABIC LETTER AIN WITH THREE DOTS BELOW", aliases: &[] },
        Codepoint { codepoint: 0x08B4, name: "ARABIC LETTER KAF WITH DOT BELOW", aliases: &[] },
        Codepoint { codepoint: 0x08B5, name: "ARABIC LETTER QAF WITH DOT BELOW AND NO DOTS ABOVE", aliases: &[] },
        Codepoint { codepoint: 0x08B6, name: "ARABIC LETTER BEH WITH SMALL MEEM ABOVE", aliases: &[] },
        Codepoint { codepoint: 0x08B7, name: "ARABIC LETTER PEH WITH SMALL MEEM ABOVE", aliases: &[] },
        Codepoint { codepoint: 0x08B8, name: "ARABIC LETTER TEH WITH SMALL TEH ABOVE", aliases: &[] },
        Codepoint { codepoint: 0x08B9, name: "ARABIC LETTER REH WITH SMALL NOON ABOVE", aliases: &[] },
        Codepoint { codepoint: 0x08BA, name: "ARABIC LETTER YEH WITH TWO DOTS BELOW AND SMALL NOON ABOVE", aliases: &[] },
    ]
}

fn all_codepoints_53() -> (v: Vec<Codepoint>)
    ensures
        v@ == codepoint_table_53(),
{
    let v = vec![
        Codepoint { codepoint: 0x088C, name: "ARABIC LETTER TAH WITH THREE DOTS BELOW", aliases: &[] },
        Codepoint { codepoint: 0x088D, name: "ARABIC LETTER KEHEH WITH TWO DOTS VERTICALLY BELOW", aliases: &[] },
        Codepoint { codepoint: 0x088E, name: "ARABIC VERTICAL TAIL", aliases: &[] },
        Codepoint { codepoint: 0x0890, name: "ARABIC POUND MARK ABOVE", aliases: &[] },
        Codepoint { codepoint: 0x0891, name: "ARABIC PIASTRE MARK ABOVE", aliases: &[] },
        Codepoint { codepoint: 0x0898, name: "ARABIC SMALL HIGH WORD AL-JUZ", aliases: &[] },
        Codepoint { codepoint: 0x0899, name: "ARABIC SMALL LOW WORD ISHMAAM", aliases: &[] },
        Codepoint { codepoint: 0x089A, name: "ARABIC SMALL LOW WORD IMAALA", aliases: &[] },
        Codepoint { codepoint: 0x089B, name: "ARABIC SMALL LOW WORD TASHEEL", aliases: &[] },
        Codepoint { codepoint: 0x089C, name: "ARABIC MADDA WAAJIB", aliases: &[] },
        Codepoint { codepoint: 0x089D, name: "ARABIC SUPERSCRIPT ALEF MOKHASSAS", aliases: &[] },
        Codepoint { codepoint: 0x089E, name: "ARABIC DOUBLED MADDA", aliases: &[] },
        Codepoint { codepoint: 0x089F, name: "ARABIC HALF MADDA OVER MADDA", aliases: &[] },
        Codepoint { codepoint: 0x08A0, name: "ARABIC LETTER BEH WITH SMALL V BELOW", aliases: &[] },
        Codepoint { codepoint: 0x08A1, name: "ARABIC LETTER BEH WITH HAMZA ABOVE", aliases: &[] },
        Codepoint { codepoint: 0x08A2, name: "ARABIC LETTER JEEM WITH TWO DOTS ABOVE", aliases: &[] },
        Codepoint { codepoint: 0x08A3, name: "ARABIC LETTER TAH WITH TWO DOTS ABOVE", aliases: &[] },
        Codepoint { codepoint: 0x08A4, name: "ARABIC LETTER FEH WITH DOT BELOW AND THREE DOTS ABOVE", aliases: &[] },
        Codepoint { codepoint: 0x08A5, name: "ARABIC LETTER QAF WITH DOT BELOW", aliases: &[] },
        Codepoint { codepoint: 0x08A6, name: "ARABIC LETTER LAM WITH DOUBLE BAR", aliases: &[] },
        Codepoint { codepoint: 0x08A7, name: "ARABIC LETTER MEEM WITH THREE DOTS ABOVE", aliases: &[] },
        Codepoint { codepoint: 0x08A8, name: "ARABIC LETTER YEH WITH TWO DOTS BELOW AND HAMZA ABOVE", aliases: &[] },
        Codepoint { codepoint: 0x08A9, name: "ARABIC LETTER YEH WITH TWO DOTS BELOW AND DOT ABOVE", aliases: &[] },
        Codepoint { codepoint: 0x08AA, name: "ARABIC LETTER REH WITH LOOP", aliases: &[] },
        Codepoint { codepoint: 0x08AB, name: "ARABIC LETTER WAW WITH DOT WITHIN", aliases: &[] },
        Codepoint { codepoint: 0x08AC, name: "ARABIC LETTER ROHINGYA YEH", aliases: &[] },
        Codepoint { codepoint: 0x08AD, name: "ARABIC LETTER LOW ALEF", aliases: &[] },
        Codepoint { codepoint: 0x08AE, name: "ARABIC LETTER DAL WITH THREE DOTS BELOW", aliases: &[] },
        Codepoint { codepoint: 0x08AF, name: "ARABIC LETTER SAD WITH THREE DOTS BELOW", aliases: &[] },
        Codepoint { codepoint: 0x08B0, name: "ARABIC LETTER GAF WITH INVERTED STROKE", aliases: &[] },
        Codepoint { codepoint: 0x08B1, name: "ARABIC LETTER STRAIGHT WAW", aliases: &[] },
        Codepoint { codepoint: 0x08B2, name: "ARABIC LETTER ZAIN WITH INVERTED V ABOVE", aliases: &[] },
        Codepoint { codepoint: 0x08B3, name: "ARABIC LETTER AIN WITH THREE DOTS BELOW", aliases: &[] },
        Codepoint { codepoint: 0x08B4, name: "ARABIC LETTER KAF WITH DOT BELOW", aliases: &[] },
        Codepoint { codepoint: 0x08B5, name: "ARABIC LETTER QAF WITH DOT BELOW AND NO DOTS ABOVE", aliases: &[] },
        Codepoint { codepoint: 0x08B6, name: "ARABIC LETTER BEH WITH SMALL MEEM ABOVE", aliases: &[] },
        Codepoint { codepoint: 0x08B7, name: "ARABIC LETTER PEH WITH SMALL MEEM ABOVE", aliases: &[] },
        Codepoint { codepoint: 0x08B8, name: "ARABIC LETTER TEH WITH SMALL TEH ABOVE", aliases: &[] },
        Codepoint { codepoint: 0x08B9, name: "ARABIC LETTER REH WITH SMALL NOON ABOVE", aliases: &[] },
        Codepoint { codepoint: 0x08BA, name: "ARABIC LETTER YEH WITH TWO DOTS BELOW AND SMALL NOON ABOVE", aliases: &[] },
    ];
    assert(v@ =~= codepoint_table_53());
    v
}

pub open spec fn codepoint_table_54() -> Seq<Codepoint> {
    seq![
        Codepoint { codepoint: 0x08BB, name: "ARABIC LETTER AFRICAN FEH", aliases: &[] },
        Codepoint { codepoint: 0x08BC, name: "ARABIC LETTER AFRICAN QAF", aliases: &[] },
        Codepoint { codepoint: 0x08BD, name: "ARABIC LETTER AFRICAN NOON", aliases: &[] },
        Codepoint { codepoint: 0x08BE, name: "ARABIC LETTER PEH WITH SMALL V", aliases: &[] },
        Codepoint { codepoint: 0x08BF, name: "ARABIC LETTER TEH WITH SMALL V", aliases: &[] },
        Codepoint { codepoint: 0x08C0, name: "ARABIC LETTER TTEH WITH SMALL V", aliases: &[] },
        Codepoint { codepoint: 0x08C1, name: "ARABIC LETTER TCHEH WITH SMALL V", aliases: &[] },
        Codepoint { codepoint: 0x08C2, name: "ARABIC LETTER KEHEH WITH SMALL V", aliases: &[] },
        Codepoint { codepoint: 0x08C3, name: "ARABIC LETTER GHAIN WITH THREE DOTS ABOVE", aliases: &[] },
        Codepoint { codepoint: 0x08C4, name: "ARABIC LETTER AFRICAN QAF WITH THREE DOTS ABOVE", aliases: &[] },
        Codepoint { codepoint: 0x08C5, name: "ARABIC LETTER JEEM WITH THREE DOTS ABOVE", aliases: &[] },
        Codepoint { codepoint: 0x08C6, name: "ARABIC LETTER JEEM WITH THREE DOTS BELOW", aliases: &[] },
        Codepoint { codepoint: 0x08C7, name: "ARABIC LETTER LAM WITH SMALL ARABIC LETTER TAH ABOVE", aliases: &[] },
        Codepoint { codepoint: 0x08C8, name: "ARABIC LETTER GRAF", aliases: &[] },
        Codepoint { codepoint: 0x08C9, name: "ARABIC SMALL FARSI YEH", aliases: &[] },
        Codepoint { codepoint: 0x08CA, name: "ARABIC SMALL HIGH FARSI YEH", aliases: &[] },
        Codepoint { codepoint: 0x08CB, name: "ARABIC SMALL HIGH YEH BARREE WITH TWO DOTS BELOW", aliases: &[] },
        Codepoint { codepoint: 0x08CC, name: "ARABIC SMALL HIGH WORD SAH", aliases: &[] },
        Codepoint { codepoint: 0x08CD, name: "ARABIC SMALL HIGH ZAH", aliases: &[] },
        Codepoint { codepoint: 0x08CE, name: "ARABIC LARGE ROUND DOT ABOVE", aliases: &[] },
        Codepoint { codepoint: 0x08CF, name: "ARABIC LARGE ROUND DOT BELOW", aliases: &[] },
        Codepoint { codepoint: 0x08D0, name: "ARABIC SUKUN BELOW", aliases: &[] },
        Codepoint { codepoint: 0x08D1, name: "ARABIC LARGE CIRCLE BELOW", aliases: &[] },
        Codepoint { codepoint: 0x08D2, name: "ARABIC LARGE ROUND DOT INSIDE CIRCLE BELOW", aliases: &[] },
        Codepoint { codepoint: 0x08D3, name: "ARABIC SMALL LOW WAW", aliases: &[] },
        Codepoint { codepoint: 0x08D4, name: "ARABIC SMALL HIGH WORD AR-RUB", aliases: &[] },
        Codepoint { codepoint: 0x08D5, name: "ARABIC SMALL HIGH SAD", aliases: &[] },
        Codepoint { codepoint: 0x08D6, name: "ARABIC SMALL HIGH AIN", aliases: &[] },
        Codepoint { codepoint: 0x08D7, name: "ARABIC SMALL HIGH QAF", aliases: &[] },
        Codepoint { codepoint: 0x08D8, name: "ARABIC SMALL HIGH NOON WITH KASRA", aliases: &[] },
        Codepoint { codepoint: 0x08D9, name: "ARABIC SMALL LOW NOON WITH KASRA", aliases: &[] },
        Codepoint { codepoint: 0x08DA, name: "ARABIC SMALL HIGH WORD ATH-THALATHA", aliases: &[] },
        Codepoint { codepoint: 0x08DB, name: "ARABIC SMALL HIGH WORD AS-SAJDA", aliases: &[] },
        Codepoint { codepoint: 0x08DC, name: "ARABIC SMALL HIGH WORD AN-NISF", aliases: &[] },
        Codepoint { codepoint: 0x08DD, name: "ARABIC SMALL HIGH WORD SAKTA", aliases: &[] },
        Codepoint { codepoint: 0x08DE, name: "ARABIC SMALL HIGH WORD QIF", aliases: &[] },
        Codepoint { codepoint: 0x08DF, name: "ARABIC SMALL HIGH WORD WAQFA", aliases: &[] },
        Codepoint { codepoint: 0x08E0, name: "ARABIC SMALL HIGH FOOTNOTE MARKER", aliases: &[] },
        Codepoint { codepoint: 0x08E1, name: "ARABIC SMALL HIGH SIGN SAFHA", aliases: &[] },
        Codepoint { codepoint: 0x08E2, name: "ARABIC DISPUTED END OF AYAH", aliases: &[] },
    ]
}

fn all_codepoints_54() -> (v: Vec<Codepoint>)
    ensures
        v@ == codepoint_table_54(),
{
    let v = vec![
        Codepoint { codepoint: 0x08BB, name: "ARABIC LETTER AFRICAN FEH", aliases: &[] },
        Codepoint { codepoint: 0x08BC, name: "ARABIC LETTER AFRICAN QAF", aliases: &[] },
        Codepoint { codepoint: 0x08BD, name: "ARABIC LETTER AFRICAN NOON", aliases: &[] },
        Codepoint { codepoint: 0x08BE, name: "ARABIC LETTER PEH WITH SMALL V", aliases: &[] },
        Codepoint { codepoint: 0x08BF, name: "ARABIC LETTER TEH WITH SMALL V", aliases: &[] },
        Codepoint { codepoint: 0x08C0, name: "ARABIC LETTER TTEH WITH SMALL V", aliases: &[] },
        Codepoint { codepoint: 0x08C1, name: "ARABIC LETTER TCHEH WITH SMALL V", aliases: &[] },
        Codepoint { codepoint: 0x08C2, name: "ARABIC LETTER KEHEH WITH SMALL V", aliases: &[] },
        Codepoint { codepoint: 0x08C3, name: "ARABIC LETTER GHAIN WITH THREE DOTS ABOVE", aliases: &[] },
        Codepoint { codepoint: 0x08C4, name: "ARABIC LETTER AFRICAN QAF WITH THREE DOTS ABOVE", aliases: &[] },
        Codepoint { codepoint: 0x08C5, name: "ARABIC LETTER JEEM WITH THREE DOTS ABOVE", aliases: &[] },
        Codepoint { codepoint: 0x08C6, name: "ARABIC LETTER JEEM WITH THREE DOTS BELOW", aliases: &[] },
        Codepoint { codepoint: 0x08C7, name: "ARABIC LETTER LAM WITH SMALL ARABIC LETTER TAH ABOVE", aliases: &[] },
        Codepoint { codepoint: 0x08C8, name: "ARABIC LETTER GRAF", aliases: &[] },
        Codepoint { codepoint: 0x08C9, name: "ARABIC SMALL FARSI YEH", aliases: &[] },
        Codepoint { codepoint: 0x08CA, name: "ARABIC SMALL HIGH FARSI YEH", aliases: &[] },
        Codepoint { codepoint: 0x08CB, name: "ARABIC SMALL HIGH YEH BARREE WITH TWO DOTS BELOW", aliases: &[] },
        Codepoint { codepoint: 0x08CC, name: "ARABIC SMALL HIGH WORD SAH", aliases: &[] },
        Codepoint { codepoint: 0x08CD, name: "ARABIC SMALL HIGH ZAH", aliases: &[] },
        Codepoint { codepoint: 0x08CE, name: "ARABIC LARGE ROUND DOT ABOVE", aliases: &[] },
        Codepoint { codepoint: 0x08CF, name: "ARABIC LARGE ROUND DOT BELOW", aliases: &[] },
        Codepoint { codepoint: 0x08D0, name: "ARABIC SUKUN BELOW", aliases: &[] },
        Codepoint { codepoint: 0x08D1, name: "ARABIC LARGE CIRCLE BELOW", aliases: &[] },
        Codepoint { codepoint: 0x08D2, name: "ARABIC LARGE ROUND DOT INSIDE CIRCLE BELOW", aliases: &[] },
        Codepoint { codepoint: 0x08D3, name: "ARABIC SMALL LOW WAW", aliases: &[] },
        Codepoint { codepoint: 0x08D4, name: "ARABIC SMALL HIGH WORD AR-RUB", aliases: &[] },
        Codepoint { codepoint: 0x08D5, name: "ARABIC SMALL HIGH SAD", aliases: &[] },
        Codepoint { codepoint: 0x08D6, name: "ARABIC SMALL HIGH AIN", aliases: &[] },
        Codepoint { codepoint: 0x08D7, name: "ARABIC SMALL HIGH QAF", aliases: &[] },
        Codepoint { codepoint: 0x08D8, name: "ARABIC SMALL HIGH NOON WITH KASRA", aliases: &[] },
        Codepoint { codepoint: 0x08D9, name: "ARABIC SMALL LOW NOON WITH KASRA", aliases: &[] },
        Codepoint { codepoint: 0x08DA, name: "ARABIC SMALL HIGH WORD ATH-THALATHA", aliases: &[] },
        Codepoint { codepoint: 0x08DB, name: "ARABIC SMALL HIGH WORD AS-SAJDA", aliases: &[] },
        Codepoint { codepoint: 0x08DC, name: "ARABIC SMALL HIGH WORD AN-NISF", aliases: &[] },
        Codepoint { codepoint: 0x08DD, name: "ARABIC SMALL HIGH WORD SAKTA", aliases: &[] },
        Codepoint { codepoint: 0x08DE, name: "ARABIC SMALL HIGH WORD QIF", aliases: &[] },
        Codepoint { codepoint: 0x08DF, name: "ARABIC SMALL HIGH WORD WAQFA", aliases: &[] },
        Codepoint { codepoint: 0x08E0, name: "ARABIC SMALL HIGH FOOTNOTE MARKER", aliases: &[] },
        Codepoint { codepoint: 0x08E1, name: "ARABIC SMALL HIGH SIGN SAFHA", aliases: &[] },
        Codepoint { codepoint: 0x08E2, name: "ARABIC DISPUTED END OF AYAH", aliases: &[] },
    ];
    assert(v@ =~= codepoint_table_54());
    v
}

pub open spec fn codepoint_table_55() -> Seq<Codepoint> {
    seq![
        Codepoint { codepoint: 0x08E3, name: "ARABIC TURNED DAMMA BELOW", aliases: &[] },
        Codepoint { codepoint: 0x08E4, name: "ARABIC CURLY FATHA", aliases: &[] },
        Codepoint { codepoint: 0x08E5, name: "ARABIC CURLY DAMMA", aliases: &[] },
        Codepoint { codepoint: 0x08E6, name: "ARABIC CURLY KASRA", aliases: &[] },
        Codepoint { codepoint: 0x08E7, name: "ARABIC CURLY FATHATAN", aliases: &[] },
        Codepoint { codepoint: 0x08E8, name: "ARABIC CURLY DAMMATAN", aliases: &[] },
        Codepoint { codepoint: 0x08E9, name: "ARABIC CURLY KASRATAN", aliases: &[] },
        Codepoint { codepoint: 0x08EA, name: "ARABIC TONE ONE DOT ABOVE", aliases: &[] },
        Codepoint { codepoint: 0x08EB, name: "ARABIC TONE TWO DOTS ABOVE", aliases: &[] },
        Codepoint { codepoint: 0x08EC, name: "ARABIC TONE LOOP ABOVE", aliases: &[] },
        Codepoint { codepoint: 0x08ED, name: "ARABIC TONE ONE DOT BELOW", aliases: &[] },
        Codepoint { codepoint: 0x08EE, name: "ARABIC TONE TWO DOTS BELOW", aliases: &[] },
        Codepoint { codepoint: 0x08EF, name: "ARABIC TONE LOOP BELOW", aliases: &[] },
        Codepoint { codepoint: 0x08F0, name: "ARABIC OPEN FATHATAN", aliases: &[] },
        Codepoint { codepoint: 0x08F1, name: "ARABIC OPEN DAMMATAN", aliases: &[] },
        Codepoint { codepoint: 0x08F2, name: "ARABIC OPEN KASRATAN", aliases: &[] },
        Codepoint { codepoint: 0x08F3, name: "ARABIC SMALL HIGH WAW", aliases: &[] },
        Codepoint { codepoint: 0x08F4, name: "ARABIC FATHA WITH RING", aliases: &[] },
        Codepoint { codepoint: 0x08F5, name: "ARABIC FATHA WITH DOT ABOVE", aliases: &[] },
        Codepoint { codepoint: 0x08F6, name: "ARABIC KASRA WITH DOT BELOW", aliases: &[] },
        Codepoint { codepoint: 0x08F7, name: "ARABIC LEFT ARROWHEAD ABOVE", aliases: &[] },
        Codepoint { codepoint: 0x08F8, name: "ARABIC RIGHT ARROWHEAD ABOVE", aliases: &[] },
        Codepoint { codepoint: 0x08F9, name: "ARABIC LEFT ARROWHEAD BELOW", aliases: &[] },
        Codepoint { codepoint: 0x08FA, name: "ARABIC RIGHT ARROWHEAD BELOW", aliases: &[] },
        Codepoint { codepoint: 0x08FB, name: "ARABIC DOUBLE RIGHT ARROWHEAD ABOVE", aliases: &[] },
        Codepoint { codepoint: 0x08FC, name: "ARABIC DOUBLE RIGHT ARROWHEAD ABOVE WITH DOT", aliases: &[] },
        Codepoint { codepoint: 0x08FD, name: "ARABIC RIGHT ARROWHEAD ABOVE WITH DOT", aliases: &[] },
        Codepoint { codepoint: 0x08FE, name: "ARABIC DAMMA WITH DOT", aliases: &[] },
        Codepoint { codepoint: 0x08FF, name: "ARABIC MARK SIDEWAYS NOON GHUNNA", aliases: &[] },
        Codepoint { codepoint: 0x0900, name: "DEVANAGARI SIGN INVERTED CANDRABINDU", aliases: &[] },
        Codepoint { codepoint: 0x0901, name: "DEVANAGARI SIGN CANDRABINDU", aliases: &[] },
        Codepoint { codepoint: 0x0902, name: "DEVANAGARI SIGN ANUSVARA", aliases: &[] },
        Codepoint { codepoint: 0x0903, name: "DEVANAGARI SIGN VISARGA", aliases: &[] },
        Codepoint { codepoint: 0x0904, name: "DEVANAGARI LETTER SHORT A", aliases: &[] },
        Codepoint { codepoint: 0x0905, name: "DEVANAGARI LETTER A", aliases: &[] },
        Codepoint { codepoint: 0x0906, name: "DEVANAGARI LETTER AA", aliases: &[] },
        Codepoint { codepoint: 0x0907, name: "DEVANAGARI LETTER I", aliases: &[] },
        Codepoint { codepoint: 0x0908, name: "DEVANAGARI LETTER II", aliases: &[] },
        Codepoint { codepoint: 0x0909, name: "DEVANAGARI LETTER U", aliases: &[] },
        Codepoint { codepoint: 0x090A, name: "DEVANAGARI LETTER UU", aliases: &[] },
    ]
}

fn all_codepoints_55() -> (v: Vec<Codepoint>)
    ensures
        v@ == codepoint_table_55(),
{
    let v = vec![
        Codepoint { codepoint: 0x08E3, name: "ARABIC TURNED DAMMA BELOW", aliases: &[] },
        Codepoint { codepoint: 0x08E4, name: "ARABIC CURLY FATHA", aliases: &[] },
        Codepoint { codepoint: 0x08E5, name: "ARABIC CURLY DAMMA", aliases: &[] },
        Codepoint { codepoint: 0x08E6, name: "ARABIC CURLY KASRA", aliases: &[] },
        Codepoint { codepoint: 0x08E7, name: "ARABIC CURLY FATHATAN", aliases: &[] },
        Codepoint { codepoint: 0x08E8, name: "ARABIC CURLY DAMMATAN", aliases: &[] },
        Codepoint { codepoint: 0x08E9, name: "ARABIC CURLY KASRATAN", aliases: &[] },
        Codepoint { codepoint: 0x08EA, name: "ARABIC TONE ONE DOT ABOVE", aliases: &[] },
        Codepoint { codepoint: 0x08EB, name: "ARABIC TONE TWO DOTS ABOVE", aliases: &[] },
        Codepoint { codepoint: 0x08EC, name: "ARABIC TONE LOOP ABOVE", aliases: &[] },
        Codepoint { codepoint: 0x08ED, name: "ARABIC TONE ONE DOT BELOW", aliases: &[] },
        Codepoint { codepoint: 0x08EE, name: "ARABIC TONE TWO DOTS BELOW", aliases: &[] },
        Codepoint { codepoint: 0x08EF, name: "ARABIC TONE LOOP BELOW", aliases: &[] },
        Codepoint { codepoint: 0x08F0, name: "ARABIC OPEN FATHATAN", aliases: &[] },
        Codepoint { codepoint: 0x08F1, name: "ARABIC OPEN DAMMATAN", aliases: &[] },
        Codepoint { codepoint: 0x08F2, name: "ARABIC OPEN KASRATAN", aliases: &[] },
        Codepoint { codepoint: 0x08F3, name: "ARABIC SMALL HIGH WAW", aliases: &[] },
        Codepoint { codepoint: 0x08F4, name: "ARABIC FATHA WITH RING", aliases: &[] },
        Codepoint { codepoint: 0x08F5, name: "ARABIC FATHA WITH DOT ABOVE", aliases: &[] },
        Codepoint { codepoint: 0x08F6, name: "ARABIC KASRA WITH DOT BELOW", aliases: &[] },
        Codepoint { codepoint: 0x08F7, name: "ARABIC LEFT ARROWHEAD ABOVE", aliases: &[] },
        Codepoint { codepoint: 0x08F8, name: "ARABIC RIGHT ARROWHEAD ABOVE", aliases: &[] },
        Codepoint { codepoint: 0x08F9, name: "ARABIC LEFT ARROWHEAD BELOW", aliases: &[] },
        Codepoint { codepoint: 0x08FA, name: "ARABIC RIGHT ARROWHEAD BELOW", aliases: &[] },
        Codepoint { codepoint: 0x08FB, name: "ARABIC DOUBLE RIGHT ARROWHEAD ABOVE", aliases: &[] },
        Codepoint { codepoint: 0x08FC, name: "ARABIC DOUBLE RIGHT ARROWHEAD ABOVE WITH DOT", aliases: &[] },
        Codepoint { codepoint: 0x08FD, name: "ARABIC RIGHT ARROWHEAD ABOVE WITH DOT", aliases: &[] },
        Codepoint { codepoint: 0x08FE, name: "ARABIC DAMMA WITH DOT", aliases: &[] },
        Codepoint { codepoint: 0x08FF, name: "ARABIC MARK SIDEWAYS NOON GHUNNA", aliases: &[] },
        Codepoint { codepoint: 0x0900, name: "DEVANAGARI SIGN INVERTED CANDRABINDU", aliases: &[] },
        Codepoint { codepoint: 0x0901, name: "DEVANAGARI SIGN CANDRABINDU", aliases: &[] },
        Codepoint { codepoint: 0x0902, name: "DEVANAGARI SIGN ANUSVARA", aliases: &[] },
        Codepoint { codepoint: 0x0903, name: "DEVANAGARI SIGN VISARGA", aliases: &[] },
        Codepoint { codepoint: 0x0904, name: "DEVANAGARI LETTER SHORT A", aliases: &[] },
        Codepoint { codepoint: 0x0905, name: "DEVANAGARI LETTER A", aliases: &[] },
        Codepoint { codepoint: 0x0906, name: "DEVANAGARI LETTER AA", aliases: &[] },
        Codepoint { codepoint: 0x0907, name: "DEVANAGARI LETTER I", aliases: &[] },
        Codepoint { codepoint: 0x0908, name: "DEVANAGARI LETTER II", aliases: &[] },
        Codepoint { codepoint: 0x0909, name: "DEVANAGARI LETTER U", aliases: &[] },
        Codepoint { codepoint: 0x090A, name: "DEVANAGARI LETTER UU", aliases: &[] },
    ];
    assert(v@ =~= codepoint_table_55());
    v
}

pub open spec fn codepoint_table_56() -> Seq<Codepoint> {
    seq![
        Codepoint { codepoint: 0x090B, name: "DEVANAGARI LETTER VOCALIC R", aliases: &[] },
        Codepoint { codepoint: 0x090C, name: "DEVANAGARI LETTER VOCALIC L", aliases: &[] },
        Codepoint { codepoint: 0x090D, name: "DEVANAGARI LETTER CANDRA E", aliases: &[] },
        Codepoint { codepoint: 0x090E, name: "DEVANAGARI LETTER SHORT E", aliases: &[] },
        Codepoint { codepoint: 0x090F, name: "DEVANAGARI LETTER E", aliases: &[] },
        Codepoint { codepoint: 0x0910, name: "DEVANAGARI LETTER AI", aliases: &[] },
        Codepoint { codepoint: 0x0911, name: "DEVANAGARI LETTER CANDRA O", aliases: &[] },
        Codepoint { codepoint: 0x0912, name: "DEVANAGARI LETTER SHORT O", aliases: &[] },
        Codepoint { codepoint: 0x0913, name: "DEVANAGARI LETTER O", aliases: &[] },
        Codepoint { codepoint: 0x0914, name: "DEVANAGARI LETTER AU", aliases: &[] },
        Codepoint { codepoint: 0x0915, name: "DEVANAGARI LETTER KA", aliases: &[] },
        Codepoint { codepoint: 0x0916, name: "DEVANAGARI LETTER KHA", aliases: &[] },
        Codepoint { codepoint: 0x0917, name: "DEVANAGARI LETTER GA", aliases: &[] },
        Codepoint { codepoint: 0x0918, name: "DEVANAGARI LETTER GHA", aliases: &[] },
        Codepoint { codepoint: 0x0919, name: "DEVANAGARI LETTER NGA", aliases: &[] },
        Codepoint { codepoint: 0x091A, name: "DEVANAGARI LETTER CA", aliases: &[] },
        Codepoint { codepoint: 0x091B, name: "DEVANAGARI LETTER CHA", aliases: &[] },
        Codepoint { codepoint: 0x091C, name: "DEVANAGARI LETTER JA", aliases: &[] },
        Codepoint { codepoint: 0x091D, name: "DEVANAGARI LETTER JHA", aliases: &[] },
        Codepoint { codepoint: 0x091E, name: "DEVANAGARI LETTER NYA", aliases: &[] },
        Codepoint { codepoint: 0x091F, name: "DEVANAGARI LETTER TTA", aliases: &[] },
        Codepoint { codepoint: 0x0920, name: "DEVANAGARI LETTER TTHA", aliases: &[] },
        Codepoint { codepoint: 0x0921, name: "DEVANAGARI LETTER DDA", aliases: &[] },
        Codepoint { codepoint: 0x0922, name: "DEVANAGARI LETTER DDHA", aliases: &[] },
        Codepoint { codepoint: 0x0923, name: "DEVANAGARI LETTER NNA", aliases: &[] },
        Codepoint { codepoint: 0x0924, name: "DEVANAGARI LETTER TA", aliases: &[] },
        Codepoint { codepoint: 0x0925, name: "DEVANAGARI LETTER THA", aliases: &[] },
        Codepoint { codepoint: 0x0926, name: "DEVANAGARI LETTER DA", aliases: &[] },
        Codepoint { codepoint: 0x0927, name: "DEVANAGARI LETTER DHA", aliases: &[] },
        Codepoint { codepoint: 0x0928, name: "DEVANAGARI LETTER NA", aliases: &[] },
        Codepoint { codepoint: 0x0929, name: "DEVANAGARI LETTER NNNA", aliases: &[] },
        Codepoint { codepoint: 0x092A, name: "DEVANAGARI LETTER PA", aliases: &[] },
        Codepoint { codepoint: 0x092B, name: "DEVANAGARI LETTER PHA", aliases: &[] },
        Codepoint { codepoint: 0x092C, name: "DEVANAGARI LETTER BA", aliases: &[] },
        Codepoint { codepoint: 0x092D, name: "DEVANAGARI LETTER BHA", aliases: &[] },
        Codepoint { codepoint: 0x092E, name: "DEVANAGARI LETTER MA", aliases: &[] },
        Codepoint { codepoint: 0x092F, name: "DEVANAGARI LETTER YA", aliases: &[] },
        Codepoint { codepoint: 0x0930, name: "DEVANAGARI LETTER RA", aliases: &[] },
        Codepoint { codepoint: 0x0931, name: "DEVANAGARI LETTER RRA", aliases: &[] },
        Codepoint { codepoint: 0x0932, name: "DEVANAGARI LETTER LA", aliases: &[] },
    ]
}

fn all_codepoints_56() -> (v: Vec<Codepoint>)
    ensures
        v@ == codepoint_table_56(),
{
    let v = vec![
        Codepoint { codepoint: 0x090B, name: "DEVANAGARI LETTER VOCALIC R", aliases: &[] },
        Codepoint { codepoint: 0x090C, name: "DEVANAGARI LETTER VOCALIC L", aliases: &[] },
        Codepoint { codepoint: 0x090D, name: "DEVANAGARI LETTER CANDRA E", aliases: &[] },
        Codepoint { codepoint: 0x090E, name: "DEVANAGARI LETTER SHORT E", aliases: &[] },
        Codepoint { codepoint: 0x090F, name: "DEVANAGARI LETTER E", aliases: &[] },
        Codepoint { codepoint: 0x0910, name: "DEVANAGARI LETTER AI", aliases: &[] },
        Codepoint { codepoint: 0x0911, name: "DEVANAGARI LETTER CANDRA O", aliases: &[] },
        Codepoint { codepoint: 0x0912, name: "DEVANAGARI LETTER SHORT O", aliases: &[] },
        Codepoint { codepoint: 0x0913, name: "DEVANAGARI LETTER O", aliases: &[] },
        Codepoint { codepoint: 0x0914, name: "DEVANAGARI LETTER AU", aliases: &[] },
        Codepoint { codepoint: 0x0915, name: "DEVANAGARI LETTER KA", aliases: &[] },
        Codepoint { codepoint: 0x0916, name: "DEVANAGARI LETTER KHA", aliases: &[] },
        Codepoint { codepoint: 0x0917, name: "DEVANAGARI LETTER GA", aliases: &[] },
        Codepoint { codepoint: 0x0918, name: "DEVANAGARI LETTER GHA", aliases: &[] },
        Codepoint { codepoint: 0x0919, name: "DEVANAGARI LETTER NGA", aliases: &[] },
        Codepoint { codepoint: 0x091A, name: "DEVANAGARI LETTER CA", aliases: &[] },
        Codepoint { codepoint: 0x091B, name: "DEVANAGARI LETTER CHA", aliases: &[] },
        Codepoint { codepoint: 0x091C, name: "DEVANAGARI LETTER JA", aliases: &[] },
        Codepoint { codepoint: 0x091D, name: "DEVANAGARI LETTER JHA", aliases: &[] },
        Codepoint { codepoint: 0x091E, name: "DEVANAGARI LETTER NYA", aliases: &[] },
        Codepoint { codepoint: 0x091F, name: "DEVANAGARI LETTER TTA", aliases: &[] },
        Codepoint { codepoint: 0x0920, name: "DEVANAGARI LETTER TTHA", aliases: &[] },
        Codepoint { codepoint: 0x0921, name: "DEVANAGARI LETTER DDA", aliases: &[] },
        Codepoint { codepoint: 0x0922, name: "DEVANAGARI LETTER DDHA", aliases: &[] },
        Codepoint { codepoint: 0x0923, name: "DEVANAGARI LETTER NNA", aliases: &[] },
        Codepoint { codepoint: 0x0924, name: "DEVANAGARI LETTER TA", aliases: &[] },
        Codepoint { codepoint: 0x0925, name: "DEVANAGARI LETTER THA", aliases: &[] },
        Codepoint { codepoint: 0x0926, name: "DEVANAGARI LETTER DA", aliases: &[] },
        Codepoint { codepoint: 0x0927, name: "DEVANAGARI LETTER DHA", aliases: &[] },
        Codepoint { codepoint: 0x0928, name: "DEVANAGARI LETTER NA", aliases: &[] },
        Codepoint { codepoint: 0x0929, name: "DEVANAGARI LETTER NNNA", aliases: &[] },
        Codepoint { codepoint: 0x092A, name: "DEVANAGARI LETTER PA", aliases: &[] },
        Codepoint { codepoint: 0x092B, name: "DEVANAGARI LETTER PHA", aliases: &[] },
        Codepoint { codepoint: 0x092C, name: "DEVANAGARI LETTER BA", aliases: &[] },
        Codepoint { codepoint: 0x092D, name: "DEVANAGARI LETTER BHA", aliases: &[] },
        Codepoint { codepoint: 0x092E, name: "DEVANAGARI LETTER MA", aliases: &[] },
        Codepoint { codepoint: 0x092F, name: "DEVANAGARI LETTER YA", aliases: &[] },
        Codepoint { codepoint: 0x0930, name: "DEVANAGARI LETTER RA", aliases: &[] },
        Codepoint { codepoint: 0x0931, name: "DEVANAGARI LETTER RRA", aliases: &[] },
        Codepoint { codepoint: 0x0932, name: "DEVANAGARI LETTER LA", aliases: &[] },
    ];
    assert(v@ =~= codepoint_table_56());
    v
}

pub open spec fn codepoint_table_57() -> Seq<Codepoint> {
    seq![
        Codepoint { codepoint: 0x0933, name: "DEVANAGARI LETTER LLA", aliases: &[] },
        Codepoint { codepoint: 0x0934, name: "DEVANAGARI LETTER LLLA", aliases: &[] },
        Codepoint { codepoint: 0x0935, name: "DEVANAGARI LETTER VA", aliases: &[] },
        Codepoint { codepoint: 0x0936, name: "DEVANAGARI LETTER SHA", aliases: &[] },
        Codepoint { codepoint: 0x0937, name: "DEVANAGARI LETTER SSA", aliases: &[] },
        Codepoint { codepoint: 0x0938, name: "DEVANAGARI LETTER SA", aliases: &[] },
        Codepoint { codepoint: 0x0939, name: "DEVANAGARI LETTER HA", aliases: &[] },
        Codepoint { codepoint: 0x093A, name: "DEVANAGARI VOWEL SIGN OE", aliases: &[] },
        Codepoint { codepoint: 0x093B, name: "DEVANAGARI VOWEL SIGN OOE", aliases: &[] },
        Codepoint { codepoint: 0x093C, name: "DEVANAGARI SIGN NUKTA", aliases: &[] },
        Codepoint { codepoint: 0x093D, name: "DEVANAGARI SIGN AVAGRAHA", aliases: &[] },
        Codepoint { codepoint: 0x093E, name: "DEVANAGARI VOWEL SIGN AA", aliases: &[] },
        Codepoint { codepoint: 0x093F, name: "DEVANAGARI VOWEL SIGN I", aliases: &[] },
        Codepoint { codepoint: 0x0940, name: "DEVANAGARI VOWEL SIGN II", aliases: &[] },
        Codepoint { codepoint: 0x0941, name: "DEVANAGARI VOWEL SIGN U", aliases: &[] },
        Codepoint { codepoint: 0x0942, name: "DEVANAGARI VOWEL SIGN UU", aliases: &[] },
        Codepoint { codepoint: 0x0943, name: "DEVANAGARI VOWEL SIGN VOCALIC R", aliases: &[] },
        Codepoint { codepoint: 0x0944, name: "DEVANAGARI VOWEL SIGN VOCALIC RR", aliases: &[] },
        Codepoint { codepoint: 0x0945, name: "DEVANAGARI VOWEL SIGN CANDRA E", aliases: &[] },
        Codepoint { codepoint: 0x0946, name: "DEVANAGARI VOWEL SIGN SHORT E", aliases: &[] },
        Codepoint { codepoint: 0x0947, name: "DEVANAGARI VOWEL SIGN E", aliases: &[] },
        Codepoint { codepoint: 0x0948, name: "DEVANAGARI VOWEL SIGN AI", aliases: &[] },
        Codepoint { codepoint: 0x0949, name: "DEVANAGARI VOWEL SIGN CANDRA O", aliases: &[] },
        Codepoint { codepoint: 0x094A, name: "DEVANAGARI VOWEL SIGN SHORT O", aliases: &[] },
        Codepoint { codepoint: 0x094B, name: "DEVANAGARI VOWEL SIGN O", aliases: &[] },
        Codepoint { codepoint: 0x094C, name: "DEVANAGARI VOWEL SIGN AU", aliases: &[] },
        Codepoint { codepoint: 0x094D, name: "DEVANAGARI SIGN VIRAMA", aliases: &[] },
        Codepoint { codepoint: 0x094E, name: "DEVANAGARI VOWEL SIGN PRISHTHAMATRA E", aliases: &[] },
        Codepoint { codepoint: 0x094F, name: "DEVANAGARI VOWEL SIGN AW", aliases: &[] },
        Codepoint { codepoint: 0x0950, name: "DEVANAGARI OM", aliases: &[] },
        Codepoint { codepoint: 0x0951, name: "DEVANAGARI STRESS SIGN UDATTA", aliases: &[] },
        Codepoint { codepoint: 0x0952, name: "DEVANAGARI STRESS SIGN ANUDATTA", aliases: &[] },
        Codepoint { codepoint: 0x0953, name: "DEVANAGARI GRAVE ACCENT", aliases: &[] },
        Codepoint { codepoint: 0x0954, name: "DEVANAGARI ACUTE ACCENT", aliases: &[] },
        Codepoint { codepoint: 0x0955, name: "DEVANAGARI VOWEL SIGN CANDRA LONG E", aliases: &[] },
        Codepoint { codepoint: 0x0956, name: "DEVANAGARI VOWEL SIGN UE", aliases: &[] },
        Codepoint { codepoint: 0x0957, name: "DEVANAGARI VOWEL SIGN UUE", aliases: &[] },
        Codepoint { codepoint: 0x0958, name: "DEVANAGARI LETTER QA", aliases: &[] },
        Codepoint { codepoint: 0x0959, name: "DEVANAGARI LETTER KHHA", aliases: &[] },
        Codepoint { codepoint: 0x095A, name: "DEVANAGARI LETTER GHHA", aliases: &[] },
    ]
}

fn all_codepoints_57() -> (v: Vec<Codepoint>)
    ensures
        v@ == codepoint_table_57(),
{
    let v = vec![
        Codepoint { codepoint: 0x0933, name: "DEVANAGARI LETTER LLA", aliases: &[] },
        Codepoint { codepoint: 0x0934, name: "DEVANAGARI LETTER LLLA", aliases: &[] },
        Codepoint { codepoint: 0x0935, name: "DEVANAGARI LETTER VA", aliases: &[] },
        Codepoint { codepoint: 0x0936, name: "DEVANAGARI LETTER SHA", aliases: &[] },
        Codepoint { codepoint: 0x0937, name: "DEVANAGARI LETTER SSA", aliases: &[] },
        Codepoint { codepoint: 0x0938, name: "DEVANAGARI LETTER SA", aliases: &[] },
        Codepoint { codepoint: 0x0939, name: "DEVANAGARI LETTER HA", aliases: &[] },
        Codepoint { codepoint: 0x093A, name: "DEVANAGARI VOWEL SIGN OE", aliases: &[] },
        Codepoint { codepoint: 0x093B, name: "DEVANAGARI VOWEL SIGN OOE", aliases: &[] },
        Codepoint { codepoint: 0x093C, name: "DEVANAGARI SIGN NUKTA", aliases: &[] },
        Codepoint { codepoint: 0x093D, name: "DEVANAGARI SIGN AVAGRAHA", aliases: &[] },
        Codepoint { codepoint: 0x093E, name: "DEVANAGARI VOWEL SIGN AA", aliases: &[] },
        Codepoint { codepoint: 0x093F, name: "DEVANAGARI VOWEL SIGN I", aliases: &[] },
        Codepoint { codepoint: 0x0940, name: "DEVANAGARI VOWEL SIGN II", aliases: &[] },
        Codepoint { codepoint: 0x0941, name: "DEVANAGARI VOWEL SIGN U", aliases: &[] },
        Codepoint { codepoint: 0x0942, name: "DEVANAGARI VOWEL SIGN UU", aliases: &[] },
        Codepoint { codepoint: 0x0943, name: "DEVANAGARI VOWEL SIGN VOCALIC R", aliases: &[] },
        Codepoint { codepoint: 0x0944, name: "DEVANAGARI VOWEL SIGN VOCALIC RR", aliases: &[] },
        Codepoint { codepoint: 0x0945, name: "DEVANAGARI VOWEL SIGN CANDRA E", aliases: &[] },
        Codepoint { codepoint: 0x0946, name: "DEVANAGARI VOWEL SIGN SHORT E", aliases: &[] },
        Codepoint { codepoint: 0x0947, name: "DEVANAGARI VOWEL SIGN E", aliases: &[] },
        Codepoint { codepoint: 0x0948, name: "DEVANAGARI VOWEL SIGN AI", aliases: &[] },
        Codepoint { codepoint: 0x0949, name: "DEVANAGARI VOWEL SIGN CANDRA O", aliases: &[] },
        Codepoint { codepoint: 0x094A, name: "DEVANAGARI VOWEL SIGN SHORT O", aliases: &[] },
        Codepoint { codepoint: 0x094B, name: "DEVANAGARI VOWEL SIGN O", aliases: &[] },
        Codepoint { codepoint: 0x094C, name: "DEVANAGARI VOWEL SIGN AU", aliases: &[] },
        Codepoint { codepoint: 0x094D, name: "DEVANAGARI SIGN VIRAMA", aliases: &[] },
        Codepoint { codepoint: 0x094E, name: "DEVANAGARI VOWEL SIGN PRISHTHAMATRA E", aliases: &[] },
        Codepoint { codepoint: 0x094F, name: "DEVANAGARI VOWEL SIGN AW", aliases: &[] },
        Codepoint { codepoint: 0x0950, name: "DEVANAGARI OM", aliases: &[] },
        Codepoint { codepoint: 0x0951, name: "DEVANAGARI STRESS SIGN UDATTA", aliases: &[] },
        Codepoint { codepoint: 0x0952, name: "DEVANAGARI STRESS SIGN ANUDATTA", aliases: &[] },
        Codepoint { codepoint: 0x0953, name: "DEVANAGARI GRAVE ACCENT", aliases: &[] },
        Codepoint { codepoint: 0x0954, name: "DEVANAGARI ACUTE ACCENT", aliases: &[] },
        Codepoint { codepoint: 0x0955, name: "DEVANAGARI VOWEL SIGN CANDRA LONG E", aliases: &[] },
        Codepoint { codepoint: 0x0956, name: "DEVANAGARI VOWEL SIGN UE", aliases: &[] },
        Codepoint { codepoint: 0x0957, name: "DEVANAGARI VOWEL SIGN UUE", aliases: &[] },
        Codepoint { codepoint: 0x0958, name: "DEVANAGARI LETTER QA", aliases: &[] },
        Codepoint { codepoint: 0x0959, name: "DEVANAGARI LETTER KHHA", aliases: &[] },
        Codepoint { codepoint: 0x095A, name: "DEVANAGARI LETTER GHHA", aliases: &[] },
    ];
    assert(v@ =~= codepoint_table_57());
    v
}

pub open spec fn codepoint_table_58() -> Seq<Codepoint> {
    seq![
        Codepoint { codepoint: 0x095B, name: "DEVANAGARI LETTER ZA", aliases: &[] },
        Codepoint { codepoint: 0x095C, name: "DEVANAGARI LETTER DDDHA", aliases: &[] },
        Codepoint { codepoint: 0x095D, name: "DEVANAGARI LETTER RHA", aliases: &[] },
        Codepoint { codepoint: 0x095E, name: "DEVANAGARI LETTER FA", aliases: &[] },
        Codepoint { codepoint: 0x095F, name: "DEVANAGARI LETTER YYA", aliases: &[] },
        Codepoint { codepoint: 0x0960, name: "DEVANAGARI LETTER VOCALIC RR", aliases: &[] },
        Codepoint { codepoint: 0x0961, name: "DEVANAGARI LETTER VOCALIC LL", aliases: &[] },
        Codepoint { codepoint: 0x0962, name: "DEVANAGARI VOWEL SIGN VOCALIC L", aliases: &[] },
        Codepoint { codepoint: 0x0963, name: "DEVANAGARI VOWEL SIGN VOCALIC LL", aliases: &[] },
        Codepoint { codepoint: 0x0964, name: "DEVANAGARI DANDA", aliases: &[] },
        Codepoint { codepoint: 0x0965, name: "DEVANAGARI DOUBLE DANDA", aliases: &[] },
        Codepoint { codepoint: 0x0966, name: "DEVANAGARI DIGIT ZERO", aliases: &[] },
        Codepoint { codepoint: 0x0967, name: "DEVANAGARI DIGIT ONE", aliases: &[] },
        Codepoint { codepoint: 0x0968, name: "DEVANAGARI DIGIT TWO", aliases: &[] },
        Codepoint { codepoint: 0x0969, name: "DEVANAGARI DIGIT THREE", aliases: &[] },
        Codepoint { codepoint: 0x096A, name: "DEVANAGARI DIGIT FOUR", aliases: &[] },
        Codepoint { codepoint: 0x096B, name: "DEVANAGARI DIGIT FIVE", aliases: &[] },
        Codepoint { codepoint: 0x096C, name: "DEVANAGARI DIGIT SIX", aliases: &[] },
        Codepoint { codepoint: 0x096D, name: "DEVANAGARI DIGIT SEVEN", aliases: &[] },
        Codepoint { codepoint: 0x096E, name: "DEVANAGARI DIGIT EIGHT", aliases: &[] },
        Codepoint { codepoint: 0x096F, name: "DEVANAGARI DIGIT NINE", aliases: &[] },
        Codepoint { codepoint: 0x0970, name: "DEVANAGARI ABBREVIATION SIGN", aliases: &[] },
        Codepoint { codepoint: 0x0971, name: "DEVANAGARI SIGN HIGH SPACING DOT", aliases: &[] },
        Codepoint { codepoint: 0x0972, name: "DEVANAGARI LETTER CANDRA A", aliases: &[] },
        Codepoint { codepoint: 0x0973, name: "DEVANAGARI LETTER OE", aliases: &[] },
        Codepoint { codepoint: 0x0974, name: "DEVANAGARI LETTER OOE", aliases: &[] },
        Codepoint { codepoint: 0x0975, name: "DEVANAGARI LETTER AW", aliases: &[] },
        Codepoint { codepoint: 0x0976, name: "DEVANAGARI LETTER UE", aliases: &[] },
        Codepoint { codepoint: 0x0977, name: "DEVANAGARI LETTER UUE", aliases: &[] },
        Codepoint { codepoint: 0x0978, name: "DEVANAGARI LETTER MARWARI DDA", aliases: &[] },
        Codepoint { codepoint: 0x0979, name: "DEVANAGARI LETTER ZHA", aliases: &[] },
        Codepoint { codepoint: 0x097A, name: "DEVANAGARI LETTER HEAVY YA", aliases: &[] },
        Codepoint { codepoint: 0x097B, name: "DEVANAGARI LETTER GGA", aliases: &[] },
        Codepoint { codepoint: 0x097C, name: "DEVANAGARI LETTER JJA", aliases: &[] },
        Codepoint { codepoint: 0x097D, name: "DEVANAGARI LETTER GLOTTAL STOP", aliases: &[] },
        Codepoint { codepoint: 0x097E, name: "DEVANAGARI LETTER DDDA", aliases: &[] },
        Codepoint { codepoint: 0x097F, name: "DEVANAGARI LETTER BBA", aliases: &[] },
        Codepoint { codepoint: 0x0980, name: "BENGALI ANJI", aliases: &[] },
        Codepoint { codepoint: 0x0981, name: "BENGALI SIGN CANDRABINDU", aliases: &[] },
        Codepoint { codepoint: 0x0982, name: "BENGALI SIGN ANUSVARA", aliases: &[] },
    ]
}

fn all_codepoints_58() -> (v: Vec<Codepoint>)
    ensures
        v@ == codepoint_table_58(),
{
    let v = vec![
        Codepoint { codepoint: 0x095B, name: "DEVANAGARI LETTER ZA", aliases: &[] },
        Codepoint { codepoint: 0x095C, name: "DEVANAGARI LETTER DDDHA", aliases: &[] },
        Codepoint { codepoint: 0x095D, name: "DEVANAGARI LETTER RHA", aliases: &[] },
        Codepoint { codepoint: 0x095E, name: "DEVANAGARI LETTER FA", aliases: &[] },
        Codepoint { codepoint: 0x095F, name: "DEVANAGARI LETTER YYA", aliases: &[] },
        Codepoint { codepoint: 0x0960, name: "DEVANAGARI LETTER VOCALIC RR", aliases: &[] },
        Codepoint { codepoint: 0x0961, name: "DEVANAGARI LETTER VOCALIC LL", aliases: &[] },
        Codepoint { codepoint: 0x0962, name: "DEVANAGARI VOWEL SIGN VOCALIC L", aliases: &[] },
        Codepoint { codepoint: 0x0963, name: "DEVANAGARI VOWEL SIGN VOCALIC LL", aliases: &[] },
        Codepoint { codepoint: 0x0964, name: "DEVANAGARI DANDA", aliases: &[] },
        Codepoint { codepoint: 0x0965, name: "DEVANAGARI DOUBLE DANDA", aliases: &[] },
        Codepoint { codepoint: 0x0966, name: "DEVANAGARI DIGIT ZERO", aliases: &[] },
        Codepoint { codepoint: 0x0967, name: "DEVANAGARI DIGIT ONE", aliases: &[] },
        Codepoint { codepoint: 0x0968, name: "DEVANAGARI DIGIT TWO", aliases: &[] },
        Codepoint { codepoint: 0x0969, name: "DEVANAGARI DIGIT THREE", aliases: &[] },
        Codepoint { codepoint: 0x096A, name: "DEVANAGARI DIGIT FOUR", aliases: &[] },
        Codepoint { codepoint: 0x096B, name: "DEVANAGARI DIGIT FIVE", aliases: &[] },
        Codepoint { codepoint: 0x096C, name: "DEVANAGARI DIGIT SIX", aliases: &[] },
        Codepoint { codepoint: 0x096D, name: "DEVANAGARI DIGIT SEVEN", aliases: &[] },
        Codepoint { codepoint: 0x096E, name: "DEVANAGARI DIGIT EIGHT", aliases: &[] },
        Codepoint { codepoint: 0x096F, name: "DEVANAGARI DIGIT NINE", aliases: &[] },
        Codepoint { codepoint: 0x0970, name: "DEVANAGARI ABBREVIATION SIGN", aliases: &[] },
        Codepoint { codepoint: 0x0971, name: "DEVANAGARI SIGN HIGH SPACING DOT", aliases: &[] },
        Codepoint { codepoint: 0x0972, name: "DEVANAGARI LETTER CANDRA A", aliases: &[] },
        Codepoint { codepoint: 0x0973, name: "DEVANAGARI LETTER OE", aliases: &[] },
        Codepoint { codepoint: 0x0974, name: "DEVANAGARI LETTER OOE", aliases: &[] },
        Codepoint { codepoint: 0x0975, name: "DEVANAGARI LETTER AW", aliases: &[] },
        Codepoint { codepoint: 0x0976, name: "DEVANAGARI LETTER UE", aliases: &[] },
        Codepoint { codepoint: 0x0977, name: "DEVANAGARI LETTER UUE", aliases: &[] },
        Codepoint { codepoint: 0x0978, name: "DEVANAGARI LETTER MARWARI DDA", aliases: &[] },
        Codepoint { codepoint: 0x0979, name: "DEVANAGARI LETTER ZHA", aliases: &[] },
        Codepoint { codepoint: 0x097A, name: "DEVANAGARI LETTER HEAVY YA", aliases: &[] },
        Codepoint { codepoint: 0x097B, name: "DEVANAGARI LETTER GGA", aliases: &[] },
        Codepoint { codepoint: 0x097C, name: "DEVANAGARI LETTER JJA", aliases: &[] },
        Codepoint { codepoint: 0x097D, name: "DEVANAGARI LETTER GLOTTAL STOP", aliases: &[] },
        Codepoint { codepoint: 0x097E, name: "DEVANAGARI LETTER DDDA", aliases: &[] },
        Codepoint { codepoint: 0x097F, name: "DEVANAGARI LETTER BBA", aliases: &[] },
        Codepoint { codepoint: 0x0980, name: "BENGALI ANJI", aliases: &[] },
        Codepoint { codepoint: 0x0981, name: "BENGALI SIGN CANDRABINDU", aliases: &[] },
        Codepoint { codepoint: 0x0982, name: "BENGALI SIGN ANUSVARA", aliases: &[] },
    ];
    assert(v@ =~= codepoint_table_58());
    v
}

pub open spec fn codepoint_table_59() -> Seq<Codepoint> {
    seq![
        Codepoint { codepoint: 0x0983, name: "BENGALI SIGN VISARGA", aliases: &[] },
        Codepoint { codepoint: 0x0985, name: "BENGALI LETTER A", aliases: &[] },
        Codepoint { codepoint: 0x0986, name: "BENGALI LETTER AA", aliases: &[] },
        Codepoint { codepoint: 0x0987, name: "BENGALI LETTER I", aliases: &[] },
        Codepoint { codepoint: 0x0988, name: "BENGALI LETTER II", aliases: &[] },
        Codepoint { codepoint: 0x0989, name: "BENGALI LETTER U", aliases: &[] },
        Codepoint { codepoint: 0x098A, name: "BENGALI LETTER UU", aliases: &[] },
        Codepoint { codepoint: 0x098B, name: "BENGALI LETTER VOCALIC R", aliases: &[] },
        Codepoint { codepoint: 0x098C, name: "BENGALI LETTER VOCALIC L", aliases: &[] },
        Codepoint { codepoint: 0x098F, name: "BENGALI LETTER E", aliases: &[] },
        Codepoint { codepoint: 0x0990, name: "BENGALI LETTER AI", aliases: &[] },
        Codepoint { codepoint: 0x0993, name: "BENGALI LETTER O", aliases: &[] },
        Codepoint { codepoint: 0x0994, name: "BENGALI LETTER AU", aliases: &[] },
        Codepoint { codepoint: 0x0995, name: "BENGALI LETTER KA", aliases: &[] },
        Codepoint { codepoint: 0x0996, name: "BENGALI LETTER KHA", aliases: &[] },
        Codepoint { codepoint: 0x0997, name: "BENGALI LETTER GA", aliases: &[] },
        Codepoint { codepoint: 0x0998, name: "BENGALI LETTER GHA", aliases: &[] },
        Codepoint { codepoint: 0x0999, name: "BENGALI LETTER NGA", aliases: &[] },
        Codepoint { codepoint: 0x099A, name: "BENGALI LETTER CA", aliases: &[] },
        Codepoint { codepoint: 0x099B, name: "BENGALI LETTER CHA", aliases: &[] },
        Codepoint { codepoint: 0x099C, name: "BENGALI LETTER JA", aliases: &[] },
        Codepoint { codepoint: 0x099D, name: "BENGALI LETTER JHA", aliases: &[] },
        Codepoint { codepoint: 0x099E, name: "BENGALI LETTER NYA", aliases: &[] },
        Codepoint { codepoint: 0x099F, name: "BENGALI LETTER TTA", aliases: &[] },
        Codepoint { codepoint: 0x09A0, name: "BENGALI LETTER TTHA", aliases: &[] },
        Codepoint { codepoint: 0x09A1, name: "BENGALI LETTER DDA", aliases: &[] },
        Codepoint { codepoint: 0x09A2, name: "BENGALI LETTER DDHA", aliases: &[] },
        Codepoint { codepoint: 0x09A3, name: "BENGALI LETTER NNA", aliases: &[] },
        Codepoint { codepoint: 0x09A4, name: "BENGALI LETTER TA", aliases: &[] },
        Codepoint { codepoint: 0x09A5, name: "BENGALI LETTER THA", aliases: &[] },
        Codepoint { codepoint: 0x09A6, name: "BENGALI LETTER DA", aliases: &[] },
        Codepoint { codepoint: 0x09A7, name: "BENGALI LETTER DHA", aliases: &[] },
        Codepoint { codepoint: 0x09A8, name: "BENGALI LETTER NA", aliases: &[] },
        Codepoint { codepoint: 0x09AA, name: "BENGALI LETTER PA", aliases: &[] },
        Codepoint { codepoint: 0x09AB, name: "BENGALI LETTER PHA", aliases: &[] },
        Codepoint { codepoint: 0x09AC, name: "BENGALI LETTER BA", aliases: &[] },
        Codepoint { codepoint: 0x09AD, name: "BENGALI LETTER BHA", aliases: &[] },
        Codepoint { codepoint: 0x09AE, name: "BENGALI LETTER MA", aliases: &[] },
        Codepoint { codepoint: 0x09AF, name: "BENGALI LETTER YA", aliases: &[] },
        Codepoint { codepoint: 0x09B0, name: "BENGALI LETTER RA", aliases: &[] },
    ]
}

fn all_codepoints_59() -> (v: Vec<Codepoint>)
    ensures
        v@ == codepoint_table_59(),
{
    let v = vec![
        Codepoint { codepoint: 0x0983, name: "BENGALI SIGN VISARGA", aliases: &[] },
        Codepoint { codepoint: 0x0985, name: "BENGALI LETTER A", aliases: &[] },
        Codepoint { codepoint: 0x0986, name: "BENGALI LETTER AA", aliases: &[] },
        Codepoint { codepoint: 0x0987, name: "BENGALI LETTER I", aliases: &[] },
        Codepoint { codepoint: 0x0988, name: "BENGALI LETTER II", aliases: &[] },
        Codepoint { codepoint: 0x0989, name: "BENGALI LETTER U", aliases: &[] },
        Codepoint { codepoint: 0x098A, name: "BENGALI LETTER UU", aliases: &[] },
        Codepoint { codepoint: 0x098B, name: "BENGALI LETTER VOCALIC R", aliases: &[] },
        Codepoint { codepoint: 0x098C, name: "BENGALI LETTER VOCALIC L", aliases: &[] },
        Codepoint { codepoint: 0x098F, name: "BENGALI LETTER E", aliases: &[] },
        Codepoint { codepoint: 0x0990, name: "BENGALI LETTER AI", aliases: &[] },
        Codepoint { codepoint: 0x0993, name: "BENGALI LETTER O", aliases: &[] },
        Codepoint { codepoint: 0x0994, name: "BENGALI LETTER AU", aliases: &[] },
        Codepoint { codepoint: 0x0995, name: "BENGALI LETTER KA", aliases: &[] },
        Codepoint { codepoint: 0x0996, name: "BENGALI LETTER KHA", aliases: &[] },
        Codepoint { codepoint: 0x0997, name: "BENGALI LETTER GA", aliases: &[] },
        Codepoint { codepoint: 0x0998, name: "BENGALI LETTER GHA", aliases: &[] },
        Codepoint { codepoint: 0x0999, name: "BENGALI LETTER NGA", aliases: &[] },
        Codepoint { codepoint: 0x099A, name: "BENGALI LETTER CA", aliases: &[] },
        Codepoint { codepoint: 0x099B, name: "BENGALI LETTER CHA", aliases: &[] },
        Codepoint { codepoint: 0x099C, name: "BENGALI LETTER JA", aliases: &[] },
        Codepoint { codepoint: 0x099D, name: "BENGALI LETTER JHA", aliases: &[] },
        Codepoint { codepoint: 0x099E, name: "BENGALI LETTER NYA", aliases: &[] },
        Codepoint { codepoint: 0x099F, name: "BENGALI LETTER TTA", aliases: &[] },
        Codepoint { codepoint: 0x09A0, name: "BENGALI LETTER TTHA", aliases: &[] },
        Codepoint { codepoint: 0x09A1, name: "BENGALI LETTER DDA", aliases: &[] },
        Codepoint { codepoint: 0x09A2, name: "BENGALI LETTER DDHA", aliases: &[] },
        Codepoint { codepoint: 0x09A3, name: "BENGALI LETTER NNA", aliases: &[] },
        Codepoint { codepoint: 0x09A4, name: "BENGALI LETTER TA", aliases: &[] },
        Codepoint { codepoint: 0x09A5, name: "BENGALI LETTER THA", aliases: &[] },
        Codepoint { codepoint: 0x09A6, name: "BENGALI LETTER DA", aliases: &[] },
        Codepoint { codepoint: 0x09A7, name: "BENGALI LETTER DHA", aliases: &[] },
        Codepoint { codepoint: 0x09A8, name: "BENGALI LETTER NA", aliases: &[] },
        Codepoint { codepoint: 0x09AA, name: "BENGALI LETTER PA", aliases: &[] },
        Codepoint { codepoint: 0x09AB, name: "BENGALI LETTER PHA", aliases: &[] },
        Codepoint { codepoint: 0x09AC, name: "BENGALI LETTER BA", aliases: &[] },
        Codepoint { codepoint: 0x09AD, name: "BENGALI LETTER BHA", aliases: &[] },
        Codepoint { codepoint: 0x09AE, name: "BENGALI LETTER MA", aliases: &[] },
        Codepoint { codepoint: 0x09AF, name: "BENGALI LETTER YA", aliases: &[] },
        Codepoint { codepoint: 0x09B0, name: "BENGALI LETTER RA", aliases: &[] },
    ];
    assert(v@ =~= codepoint_table_59());
    v
}

/// The entries from position 1600 of the table, 800 at most.
pub open spec fn codepoint_group_2() -> Seq<Codepoint> {
    codepoint_table_40() + codepoint_table_41() + codepoint_table_42() + codepoint_table_43() + codepoint_table_44() + codepoint_table_45() + codepoint_table_46() + codepoint_table_47() + codepoint_table_48() + codepoint_table_49() + codepoint_table_50() + codepoint_table_51() + codepoint_table_52() + codepoint_table_53() + codepoint_table_54() + codepoint_table_55() + codepoint_table_56() + codepoint_table_57() + codepoint_table_58() + codepoint_table_59()
}

pub fn all_codepoints_group_2() -> (v: Vec<Codepoint>)
    ensures
        v@ == codepoint_group_2(),
{
    let mut v = all_codepoints_40();
    let mut part = all_codepoints_41();
    v.append(&mut part);
    let mut part = all_codepoints_42();
    v.append(&mut part);
    let mut part = all_codepoints_43();
    v.append(&mut part);
    let mut part = all_codepoints_44();
    v.append(&mut part);
    let mut part = all_codepoints_45();
    v.append(&mut part);
    let mut part = all_codepoints_46();
    v.append(&mut part);
    let mut part = all_codepoints_47();
    v.append(&mut part);
    let mut part = all_codepoints_48();
    v.append(&mut part);
    let mut part = all_codepoints_49();
    v.append(&mut part);
    let mut part = all_codepoints_50();
    v.append(&mut part);
    let mut part = all_codepoints_51();
    v.append(&mut part);
    let mut part = all_codepoints_52();
    v.append(&mut part);
    let mut part = all_codepoints_53();
    v.append(&mut part);
    let mut part = all_codepoints_54();
    v.append(&mut part);
    let mut part = all_codepoints_55();
    v.append(&mut part);
    let mut part = all_codepoints_56();
    v.append(&mut part);
    let mut part = all_codepoints_57();
    v.append(&mut part);
    let mut part = all_codepoints_58();
    v.append(&mut part);
    let mut part = all_codepoints_59();
    v.append(&mut part);
    v
}

pub open spec fn codepoint_table_60() -> Seq<Codepoint> {
    seq![
        Codepoint { codepoint: 0x09B2, name: "BENGALI LETTER LA", aliases: &[] },
        Codepoint { codepoint: 0x09B6, name: "BENGALI LETTER SHA", aliases: &[] },
        Codepoint { codepoint: 0x09B7, name: "BENGALI LETTER SSA", aliases: &[] },
        Codepoint { codepoint: 0x09B8, name: "BENGALI LETTER SA", aliases: &[] },
        Codepoint { codepoint: 0x09B9, name: "BENGALI LETTER HA", aliases: &[] },
        Codepoint { codepoint: 0x09BC, name: "BENGALI SIGN NUKTA", aliases: &[] },
        Codepoint { codepoint: 0x09BD, name: "BENGALI SIGN AVAGRAHA", aliases: &[] },
        Codepoint { codepoint: 0x09BE, name: "BENGALI VOWEL SIGN AA", aliases: &[] },
        Codepoint { codepoint: 0x09BF, name: "BENGALI VOWEL SIGN I", aliases: &[] },
        Codepoint { codepoint: 0x09C0, name: "BENGALI VOWEL SIGN II", aliases: &[] },
        Codepoint { codepoint: 0x09C1, name: "BENGALI VOWEL SIGN U", aliases: &[] },
        Codepoint { codepoint: 0x09C2, name: "BENGALI VOWEL SIGN UU", aliases: &[] },
        Codepoint { codepoint: 0x09C3, name: "BENGALI VOWEL SIGN VOCALIC R", aliases: &[] },
        Codepoint { codepoint: 0x09C4, name: "BENGALI VOWEL SIGN VOCALIC RR", aliases: &[] },
        Codepoint { codepoint: 0x09C7, name: "BENGALI VOWEL SIGN E", aliases: &[] },
        Codepoint { codepoint: 0x09C8, name: "BENGALI VOWEL SIGN AI", aliases: &[] },
        Codepoint { codepoint: 0x09CB, name: "BENGALI VOWEL SIGN O", aliases: &[] },
        Codepoint { codepoint: 0x09CC, name: "BENGALI VOWEL SIGN AU", aliases: &[] },
        Codepoint { codepoint: 0x09CD, name: "BENGALI SIGN VIRAMA", aliases: &[] },
        Codepoint { codepoint: 0x09CE, name: "BENGALI LETTER KHANDA TA", aliases: &[] },
        Codepoint { codepoint: 0x09D7, name: "BENGALI AU LENGTH MARK", aliases: &[] },
        Codepoint { codepoint: 0x09DC, name: "BENGALI LETTER RRA", aliases: &[] },
        Codepoint { codepoint: 0x09DD, name: "BENGALI LETTER RHA", aliases: &[] },
        Codepoint { codepoint: 0x09DF, name: "BENGALI LETTER YYA", aliases: &[] },
        Codepoint { codepoint: 0x09E0, name: "BENGALI LETTER VOCALIC RR", aliases: &[] },
        Codepoint { codepoint: 0x09E1, name: "BENGALI LETTER VOCALIC LL", aliases: &[] },
        Codepoint { codepoint: 0x09E2, name: "BENGALI VOWEL SIGN VOCALIC L", aliases: &[] },
        Codepoint { codepoint: 0x09E3, name: "BENGALI VOWEL SIGN VOCALIC LL", aliases: &[] },
        Codepoint { codepoint: 0x09E6, name: "BENGALI DIGIT ZERO", aliases: &[] },
        Codepoint { codepoint: 0x09E7, name: "BENGALI DIGIT ONE", aliases: &[] },
        Codepoint { codepoint: 0x09E8, name: "BENGALI DIGIT TWO", aliases: &[] },
        Codepoint { codepoint: 0x09E9, name: "BENGALI DIGIT THREE", aliases: &[] },
        Codepoint { codepoint: 0x09EA, name: "BENGALI DIGIT FOUR", aliases: &[] },
        Codepoint { codepoint: 0x09EB, name: "BENGALI DIGIT FIVE", aliases: &[] },
        Codepoint { codepoint: 0x09EC, name: "BENGALI DIGIT SIX", aliases: &[] },
        Codepoint { codepoint: 0x09ED, name: "BENGALI DIGIT SEVEN", aliases: &[] },
        Codepoint { codepoint: 0x09EE, name: "BENGALI DIGIT EIGHT", aliases: &[] },
        Codepoint { codepoint: 0x09EF, name: "BENGALI DIGIT NINE", aliases: &[] },
        Codepoint { codepoint: 0x09F0, name: "BENGALI LETTER RA WITH MIDDLE DIAGONAL", aliases: &[] },
        Codepoint { codepoint: 0x09F1, name: "BENGALI LETTER RA WITH LOWER DIAGONAL", aliases: &["BENGALI LETTER VA WITH LOWER DIAGONAL"] },
    ]
}

fn all_codepoints_60() -> (v: Vec<Codepoint>)
    ensures
        v@ == codepoint_table_60(),
{
    let v = vec![
        Codepoint { codepoint: 0x09B2, name: "BENGALI LETTER LA", aliases: &[] },
        Codepoint { codepoint: 0x09B6, name: "BENGALI LETTER SHA", aliases: &[] },
        Codepoint { codepoint: 0x09B7, name: "BENGALI LETTER SSA", aliases: &[] },
        Codepoint { codepoint: 0x09B8, name: "BENGALI LETTER SA", aliases: &[] },
        Codepoint { codepoint: 0x09B9, name: "BENGALI LETTER HA", aliases: &[] },
        Codepoint { codepoint: 0x09BC, name: "BENGALI SIGN NUKTA", aliases: &[] },
        Codepoint { codepoint: 0x09BD, name: "BENGALI SIGN AVAGRAHA", aliases: &[] },
        Codepoint { codepoint: 0x09BE, name: "BENGALI VOWEL SIGN AA", aliases: &[] },
        Codepoint { codepoint: 0x09BF, name: "BENGALI VOWEL SIGN I", aliases: &[] },
        Codepoint { codepoint: 0x09C0, name: "BENGALI VOWEL SIGN II", aliases: &[] },
        Codepoint { codepoint: 0x09C1, name: "BENGALI VOWEL SIGN U", aliases: &[] },
        Codepoint { codepoint: 0x09C2, name: "BENGALI VOWEL SIGN UU", aliases: &[] },
        Codepoint { codepoint: 0x09C3, name: "BENGALI VOWEL SIGN VOCALIC R", aliases: &[] },
        Codepoint { codepoint: 0x09C4, name: "BENGALI VOWEL SIGN VOCALIC RR", aliases: &[] },
        Codepoint { codepoint: 0x09C7, name: "BENGALI VOWEL SIGN E", aliases: &[] },
        Codepoint { codepoint: 0x09C8, name: "BENGALI VOWEL SIGN AI", aliases: &[] },
        Codepoint { codepoint: 0x09CB, name: "BENGALI VOWEL SIGN O", aliases: &[] },
        Codepoint { codepoint: 0x09CC, name: "BENGALI VOWEL SIGN AU", aliases: &[] },
        Codepoint { codepoint: 0x09CD, name: "BENGALI SIGN VIRAMA", aliases: &[] },
        Codepoint { codepoint: 0x09CE, name: "BENGALI LETTER KHANDA TA", aliases: &[] },
        Codepoint { codepoint: 0x09D7, name: "BENGALI AU LENGTH MARK", aliases: &[] },
        Codepoint { codepoint: 0x09DC, name: "BENGALI LETTER RRA", aliases: &[] },
        Codepoint { codepoint: 0x09DD, name: "BENGALI LETTER RHA", aliases: &[] },
        Codepoint { codepoint: 0x09DF, name: "BENGALI LETTER YYA", aliases: &[] },
        Codepoint { codepoint: 0x09E0, name: "BENGALI LETTER VOCALIC RR", aliases: &[] },
        Codepoint { codepoint: 0x09E1, name: "BENGALI LETTER VOCALIC LL", aliases: &[] },
        Codepoint { codepoint: 0x09E2, name: "BENGALI VOWEL SIGN VOCALIC L", aliases: &[] },
        Codepoint { codepoint: 0x09E3, name: "BENGALI VOWEL SIGN VOCALIC LL", aliases: &[] },
        Codepoint { codepoint: 0x09E6, name: "BENGALI DIGIT ZERO", aliases: &[] },
        Codepoint { codepoint: 0x09E7, name: "BENGALI DIGIT ONE", aliases: &[] },
        Codepoint { codepoint: 0x09E8, name: "BENGALI DIGIT TWO", aliases: &[] },
        Codepoint { codepoint: 0x09E9, name: "BENGALI DIGIT THREE", aliases: &[] },
        Codepoint { codepoint: 0x09EA, name: "BENGALI DIGIT FOUR", aliases: &[] },
        Codepoint { codepoint: 0x09EB, name: "BENGALI DIGIT FIVE", aliases: &[] },
        Codepoint { codepoint: 0x09EC, name: "BENGALI DIGIT SIX", aliases: &[] },
        Codepoint { codepoint: 0x09ED, name: "BENGALI DIGIT SEVEN", aliases: &[] },
        Codepoint { codepoint: 0x09EE, name: "BENGALI DIGIT EIGHT", aliases: &[] },
        Codepoint { codepoint: 0x09EF, name: "BENGALI DIGIT NINE", aliases: &[] },
        Codepoint { codepoint: 0x09F0, name: "BENGALI LETTER RA WITH MIDDLE DIAGONAL", aliases: &[] },
        Codepoint { codepoint: 0x09F1, name: "BENGALI LETTER RA WITH LOWER DIAGONAL", aliases: &["BENGALI LETTER VA WITH LOWER DIAGONAL"] },
    ];
    assert(v@ =~= codepoint_table_60());
    v
}

pub open spec fn codepoint_table_61() -> Seq<Codepoint> {
    seq![
        Codepoint { codepoint: 0x09F2, name: "BENGALI RUPEE MARK", aliases: &[] },
        Codepoint { codepoint: 0x09F3, name: "BENGALI RUPEE SIGN", aliases: &[] },
        Codepoint { codepoint: 0x09F4, name: "BENGALI CURRENCY NUMERATOR ONE", aliases: &[] },
        Codepoint { codepoint: 0x09F5, name: "BENGALI CURRENCY NUMERATOR TWO", aliases: &[] },
        Codepoint { codepoint: 0x09F6, name: "BENGALI CURRENCY NUMERATOR THREE", aliases: &[] },
        Codepoint { codepoint: 0x09F7, name: "BENGALI CURRENCY NUMERATOR FOUR", aliases: &[] },
        Codepoint { codepoint: 0x09F8, name: "BENGALI CURRENCY NUMERATOR ONE LESS THAN THE DENOMINATOR", aliases: &[] },
        Codepoint { codepoint: 0x09F9, name: "BENGALI CURRENCY DENOMINATOR SIXTEEN", aliases: &[] },
        Codepoint { codepoint: 0x09FA, name: "BENGALI ISSHAR", aliases: &[] },
        Codepoint { codepoint: 0x09FB, name: "BENGALI GANDA MARK", aliases: &[] },
        Codepoint { codepoint: 0x09FC, name: "BENGALI LETTER VEDIC ANUSVARA", aliases: &[] },
        Codepoint { codepoint: 0x09FD, name: "BENGALI ABBREVIATION SIGN", aliases: &[] },
        Codepoint { codepoint: 0x09FE, name: "BENGALI SANDHI MARK", aliases: &[] },
        Codepoint { codepoint: 0x0A01, name: "GURMUKHI SIGN ADAK BINDI", aliases: &[] },
        Codepoint { codepoint: 0x0A02, name: "GURMUKHI SIGN BINDI", aliases: &[] },
        Codepoint { codepoint: 0x0A03, name: "GURMUKHI SIGN VISARGA", aliases: &[] },
        Codepoint { codepoint: 0x0A05, name: "GURMUKHI LETTER A", aliases: &[] },
        Codepoint { codepoint: 0x0A06, name: "GURMUKHI LETTER AA", aliases: &[] },
        Codepoint { codepoint: 0x0A07, name: "GURMUKHI LETTER I", aliases: &[] },
        Codepoint { codepoint: 0x0A08, name: "GURMUKHI LETTER II", aliases: &[] },
        Codepoint { codepoint: 0x0A09, name: "GURMUKHI LETTER U", aliases: &[] },
        Codepoint { codepoint: 0x0A0A, name: "GURMUKHI LETTER UU", aliases: &[] },
        Codepoint { codepoint: 0x0A0F, name: "GURMUKHI LETTER EE", aliases: &[] },
        Codepoint { codepoint: 0x0A10, name: "GURMUKHI LETTER AI", aliases: &[] },
        Codepoint { codepoint: 0x0A13, name: "GURMUKHI LETTER OO", aliases: &[] },
        Codepoint { codepoint: 0x0A14, name: "GURMUKHI LETTER AU", aliases: &[] },
        Codepoint { codepoint: 0x0A15, name: "GURMUKHI LETTER KA", aliases: &[] },
        Codepoint { codepoint: 0x0A16, name: "GURMUKHI LETTER KHA", aliases: &[] },
        Codepoint { codepoint: 0x0A17, name: "GURMUKHI LETTER GA", aliases: &[] },
        Codepoint { codepoint: 0x0A18, name: "GURMUKHI LETTER GHA", aliases: &[] },
        Codepoint { codepoint: 0x0A19, name: "GURMUKHI LETTER NGA", aliases: &[] },
        Codepoint { codepoint: 0x0A1A, name: "GURMUKHI LETTER CA", aliases: &[] },
        Codepoint { codepoint: 0x0A1B, name: "GURMUKHI LETTER CHA", aliases: &[] },
        Codepoint { codepoint: 0x0A1C, name: "GURMUKHI LETTER JA", aliases: &[] },
        Codepoint { codepoint: 0x0A1D, name: "GURMUKHI LETTER JHA", aliases: &[] },
        Codepoint { codepoint: 0x0A1E, name: "GURMUKHI LETTER NYA", aliases: &[] },
        Codepoint { codepoint: 0x0A1F, name: "GURMUKHI LETTER TTA", aliases: &[] },
        Codepoint { codepoint: 0x0A20, name: "GURMUKHI LETTER TTHA", aliases: &[] },
        Codepoint { codepoint: 0x0A21, name: "GURMUKHI LETTER DDA", aliases: &[] },
        Codepoint { codepoint: 0x0A22, name: "GURMUKHI LETTER DDHA", aliases: &[] },
    ]
}

fn all_codepoints_61() -> (v: Vec<Codepoint>)
    ensures
        v@ == codepoint_table_61(),
{
    let v = vec![
        Codepoint { codepoint: 0x09F2, name: "BENGALI RUPEE MARK", aliases: &[] },
        Codepoint { codepoint: 0x09F3, name: "BENGALI RUPEE SIGN", aliases: &[] },
        Codepoint { codepoint: 0x09F4, name: "BENGALI CURRENCY NUMERATOR ONE", aliases: &[] },
        Codepoint { codepoint: 0x09F5, name: "BENGALI CURRENCY NUMERATOR TWO", aliases: &[] },
        Codepoint { codepoint: 0x09F6, name: "BENGALI CURRENCY NUMERATOR THREE", aliases: &[] },
        Codepoint { codepoint: 0x09F7, name: "BENGALI CURRENCY NUMERATOR FOUR", aliases: &[] },
        Codepoint { codepoint: 0x09F8, name: "BENGALI CURRENCY NUMERATOR ONE LESS THAN THE DENOMINATOR", aliases: &[] },
        Codepoint { codepoint: 0x09F9, name: "BENGALI CURRENCY DENOMINATOR SIXTEEN", aliases: &[] },
        Codepoint { codepoint: 0x09FA, name: "BENGALI ISSHAR", aliases: &[] },
        Codepoint { codepoint: 0x09FB, name: "BENGALI GANDA MARK", aliases: &[] },
        Codepoint { codepoint: 0x09FC, name: "BENGALI LETTER VEDIC ANUSVARA", aliases: &[] },
        Codepoint { codepoint: 0x09FD, name: "BENGALI ABBREVIATION SIGN", aliases: &[] },
        Codepoint { codepoint: 0x09FE, name: "BENGALI SANDHI MARK", aliases: &[] },
        Codepoint { codepoint: 0x0A01, name: "GURMUKHI SIGN ADAK BINDI", aliases: &[] },
        Codepoint { codepoint: 0x0A02, name: "GURMUKHI SIGN BINDI", aliases: &[] },
        Codepoint { codepoint: 0x0A03, name: "GURMUKHI SIGN VISARGA", aliases: &[] },
        Codepoint { codepoint: 0x0A05, name: "GURMUKHI LETTER A", aliases: &[] },
        Codepoint { codepoint: 0x0A06, name: "GURMUKHI LETTER AA", aliases: &[] },
        Codepoint { codepoint: 0x0A07, name: "GURMUKHI LETTER I", aliases: &[] },
        Codepoint { codepoint: 0x0A08, name: "GURMUKHI LETTER II", aliases: &[] },
        Codepoint { codepoint: 0x0A09, name: "GURMUKHI LETTER U", aliases: &[] },
        Codepoint { codepoint: 0x0A0A, name: "GURMUKHI LETTER UU", aliases: &[] },
        Codepoint { codepoint: 0x0A0F, name: "GURMUKHI LETTER EE", aliases: &[] },
        Codepoint { codepoint: 0x0A10, name: "GURMUKHI LETTER AI", aliases: &[] },
        Codepoint { codepoint: 0x0A13, name: "GURMUKHI LETTER OO", aliases: &[] },
        Codepoint { codepoint: 0x0A14, name: "GURMUKHI LETTER AU", aliases: &[] },
        Codepoint { codepoint: 0x0A15, name: "GURMUKHI LETTER KA", aliases: &[] },
        Codepoint { codepoint: 0x0A16, name: "GURMUKHI LETTER KHA", aliases: &[] },
        Codepoint { codepoint: 0x0A17, name: "GURMUKHI LETTER GA", aliases: &[] },
        Codepoint { codepoint: 0x0A18, name: "GURMUKHI LETTER GHA", aliases: &[] },
        Codepoint { codepoint: 0x0A19, name: "GURMUKHI LETTER NGA", aliases: &[] },
        Codepoint { codepoint: 0x0A1A, name: "GURMUKHI LETTER CA", aliases: &[] },
        Codepoint { codepoint: 0x0A1B, name: "GURMUKHI LETTER CHA", aliases: &[] },
        Codepoint { codepoint: 0x0A1C, name: "GURMUKHI LETTER JA", aliases: &[] },
        Codepoint { codepoint: 0x0A1D, name: "GURMUKHI LETTER JHA", aliases: &[] },
        Codepoint { codepoint: 0x0A1E, name: "GURMUKHI LETTER NYA", aliases: &[] },
        Codepoint { codepoint: 0x0A1F, name: "GURMUKHI LETTER TTA", aliases: &[] },
        Codepoint { codepoint: 0x0A20, name: "GURMUKHI LETTER TTHA", aliases: &[] },
        Codepoint { codepoint: 0x0A21, name: "GURMUKHI LETTER DDA", aliases: &[] },
        Codepoint { codepoint: 0x0A22, name: "GURMUKHI LETTER DDHA", aliases: &[] },
    ];
    assert(v@ =~= codepoint_table_61());
    v
}

pub open spec fn codepoint_table_62() -> Seq<Codepoint> {
    seq![
        Codepoint { codepoint: 0x0A23, name: "GURMUKHI LETTER NNA", aliases: &[] },
        Codepoint { codepoint: 0x0A24, name: "GURMUKHI LETTER TA", aliases: &[] },
        Codepoint { codepoint: 0x0A25, name: "GURMUKHI LETTER THA", aliases: &[] },
        Codepoint { codepoint: 0x0A26, name: "GURMUKHI LETTER DA", aliases: &[] },
        Codepoint { codepoint: 0x0A27, name: "GURMUKHI LETTER DHA", aliases: &[] },
        Codepoint { codepoint: 0x0A28, name: "GURMUKHI LETTER NA", aliases: &[] },
        Codepoint { codepoint: 0x0A2A, name: "GURMUKHI LETTER PA", aliases: &[] },
        Codepoint { codepoint: 0x0A2B, name: "GURMUKHI LETTER PHA", aliases: &[] },
        Codepoint { codepoint: 0x0A2C, name: "GURMUKHI LETTER BA", aliases: &[] },
        Codepoint { codepoint: 0x0A2D, name: "GURMUKHI LETTER BHA", aliases: &[] },
        Codepoint { codepoint: 0x0A2E, name: "GURMUKHI LETTER MA", aliases: &[] },
        Codepoint { codepoint: 0x0A2F, name: "GURMUKHI LETTER YA", aliases: &[] },
        Codepoint { codepoint: 0x0A30, name: "GURMUKHI LETTER RA", aliases: &[] },
        Codepoint { codepoint: 0x0A32, name: "GURMUKHI LETTER LA", aliases: &[] },
        Codepoint { codepoint: 0x0A33, name: "GURMUKHI LETTER LLA", aliases: &[] },
        Codepoint { codepoint: 0x0A35, name: "GURMUKHI LETTER VA", aliases: &[] },
        Codepoint { codepoint: 0x0A36, name: "GURMUKHI LETTER SHA", aliases: &[] },
        Codepoint { codepoint: 0x0A38, name: "GURMUKHI LETTER SA", aliases: &[] },
        Codepoint { codepoint: 0x0A39, name: "GURMUKHI LETTER HA", aliases: &[] },
        Codepoint { codepoint: 0x0A3C, name: "GURMUKHI SIGN NUKTA", aliases: &[] },
        Codepoint { codepoint: 0x0A3E, name: "GURMUKHI VOWEL SIGN AA", aliases: &[] },
        Codepoint { codepoint: 0x0A3F, name: "GURMUKHI VOWEL SIGN I", aliases: &[] },
        Codepoint { codepoint: 0x0A40, name: "GURMUKHI VOWEL SIGN II", aliases: &[] },
        Codepoint { codepoint: 0x0A41, name: "GURMUKHI VOWEL SIGN U", aliases: &[] },
        Codepoint { codepoint: 0x0A42, name: "GURMUKHI VOWEL SIGN UU", aliases: &[] },
        Codepoint { codepoint: 0x0A47, name: "GURMUKHI VOWEL SIGN EE", aliases: &[] },
        Codepoint { codepoint: 0x0A48, name: "GURMUKHI VOWEL SIGN AI", aliases: &[] },
        Codepoint { codepoint: 0x0A4B, name: "GURMUKHI VOWEL SIGN OO", aliases: &[] },
        Codepoint { codepoint: 0x0A4C, name: "GURMUKHI VOWEL SIGN AU", aliases: &[] },
        Codepoint { codepoint: 0x0A4D, name: "GURMUKHI SIGN VIRAMA", aliases: &[] },
        Codepoint { codepoint: 0x0A51, name: "GURMUKHI SIGN UDAAT", aliases: &[] },
        Codepoint { codepoint: 0x0A59, name: "GURMUKHI LETTER KHHA", aliases: &[] },
        Codepoint { codepoint: 0x0A5A, name: "GURMUKHI LETTER GHHA", aliases: &[] },
        Codepoint { codepoint: 0x0A5B, name: "GURMUKHI LETTER ZA", aliases: &[] },
        Codepoint { codepoint: 0x0A5C, name: "GURMUKHI LETTER RRA", aliases: &[] },
        Codepoint { codepoint: 0x0A5E, name: "GURMUKHI LETTER FA", aliases: &[] },
        Codepoint { codepoint: 0x0A66, name: "GURMUKHI DIGIT ZERO", aliases: &[] },
        Codepoint { codepoint: 0x0A67, name: "GURMUKHI DIGIT ONE", aliases: &[] },
        Codepoint { codepoint: 0x0A68, name: "GURMUKHI DIGIT TWO", aliases: &[] },
        Codepoint { codepoint: 0x0A69, name: "GURMUKHI DIGIT THREE", aliases: &[] },
    ]
}

fn all_codepoints_62() -> (v: Vec<Codepoint>)
    ensures
        v@ == codepoint_table_62(),
{
    let v = vec![
        Codepoint { codepoint: 0x0A23, name: "GURMUKHI LETTER NNA", aliases: &[] },
        Codepoint { codepoint: 0x0A24, name: "GURMUKHI LETTER TA", aliases: &[] },
        Codepoint { codepoint: 0x0A25, name: "GURMUKHI LETTER THA", aliases: &[] },
        Codepoint { codepoint: 0x0A26, name: "GURMUKHI LETTER DA", aliases: &[] },
        Codepoint { codepoint: 0x0A27, name: "GURMUKHI LETTER DHA", aliases: &[] },
        Codepoint { codepoint: 0x0A28, name: "GURMUKHI LETTER NA", aliases: &[] },
        Codepoint { codepoint: 0x0A2A, name: "GURMUKHI LETTER PA", aliases: &[] },
        Codepoint { codepoint: 0x0A2B, name: "GURMUKHI LETTER PHA", aliases: &[] },
        Codepoint { codepoint: 0x0A2C, name: "GURMUKHI LETTER BA", aliases: &[] },
        Codepoint { codepoint: 0x0A2D, name: "GURMUKHI LETTER BHA", aliases: &[] },
        Codepoint { codepoint: 0x0A2E, name: "GURMUKHI LETTER MA", aliases: &[] },
        Codepoint { codepoint: 0x0A2F, name: "GURMUKHI LETTER YA", aliases: &[] },
        Codepoint { codepoint: 0x0A30, name: "GURMUKHI LETTER RA", aliases: &[] },
        Codepoint { codepoint: 0x0A32, name: "GURMUKHI LETTER LA", aliases: &[] },
        Codepoint { codepoint: 0x0A33, name: "GURMUKHI LETTER LLA", aliases: &[] },
        Codepoint { codepoint: 0x0A35, name: "GURMUKHI LETTER VA", aliases: &[] },
        Codepoint { codepoint: 0x0A36, name: "GURMUKHI LETTER SHA", aliases: &[] },
        Codepoint { codepoint: 0x0A38, name: "GURMUKHI LETTER SA", aliases: &[] },
        Codepoint { codepoint: 0x0A39, name: "GURMUKHI LETTER HA", aliases: &[] },
        Codepoint { codepoint: 0x0A3C, name: "GURMUKHI SIGN NUKTA", aliases: &[] },
        Codepoint { codepoint: 0x0A3E, name: "GURMUKHI VOWEL SIGN AA", aliases: &[] },
        Codepoint { codepoint: 0x0A3F, name: "GURMUKHI VOWEL SIGN I", aliases: &[] },
        Codepoint { codepoint: 0x0A40, name: "GURMUKHI VOWEL SIGN II", aliases: &[] },
        Codepoint { codepoint: 0x0A41, name: "GURMUKHI VOWEL SIGN U", aliases: &[] },
        Codepoint { codepoint: 0x0A42, name: "GURMUKHI VOWEL SIGN UU", aliases: &[] },
        Codepoint { codepoint: 0x0A47, name: "GURMUKHI VOWEL SIGN EE", aliases: &[] },
        Codepoint { codepoint: 0x0A48, name: "GURMUKHI VOWEL SIGN AI", aliases: &[] },
        Codepoint { codepoint: 0x0A4B, name: "GURMUKHI VOWEL SIGN OO", aliases: &[] },
        Codepoint { codepoint: 0x0A4C, name: "GURMUKHI VOWEL SIGN AU", aliases: &[] },
        Codepoint { codepoint: 0x0A4D, name: "GURMUKHI SIGN VIRAMA", aliases: &[] },
        Codepoint { codepoint: 0x0A51, name: "GURMUKHI SIGN UDAAT", aliases: &[] },
        Codepoint { codepoint: 0x0A59, name: "GURMUKHI LETTER KHHA", aliases: &[] },
        Codepoint { codepoint: 0x0A5A, name: "GURMUKHI LETTER GHHA", aliases: &[] },
        Codepoint { codepoint: 0x0A5B, name: "GURMUKHI LETTER ZA", aliases: &[] },
        Codepoint { codepoint: 0x0A5C, name: "GURMUKHI LETTER RRA", aliases: &[] },
        Codepoint { codepoint: 0x0A5E, name: "GURMUKHI LETTER FA", aliases: &[] },
        Codepoint { codepoint: 0x0A66, name: "GURMUKHI DIGIT ZERO", aliases: &[] },
        Codepoint { codepoint: 0x0A67, name: "GURMUKHI DIGIT ONE", aliases: &[] },
        Codepoint { codepoint: 0x0A68, name: "GURMUKHI DIGIT TWO", aliases: &[] },
        Codepoint { codepoint: 0x0A69, name: "GURMUKHI DIGIT THREE", aliases: &[] },
    ];
    assert(v@ =~= codepoint_table_62());
    v
}

pub open spec fn codepoint_table_63() -> Seq<Codepoint> {
    seq![
        Codepoint { codepoint: 0x0A6A, name: "GURMUKHI DIGIT FOUR", aliases: &[] },
        Codepoint { codepoint: 0x0A6B, name: "GURMUKHI DIGIT FIVE", aliases: &[] },
        Codepoint { codepoint: 0x0A6C, name: "GURMUKHI DIGIT SIX", aliases: &[] },
        Codepoint { codepoint: 0x0A6D, name: "GURMUKHI DIGIT SEVEN", aliases: &[] },
        Codepoint { codepoint: 0x0A6E, name: "GURMUKHI DIGIT EIGHT", aliases: &[] },
        Codepoint { codepoint: 0x0A6F, name: "GURMUKHI DIGIT NINE", aliases: &[] },
        Codepoint { codepoint: 0x0A70, name: "GURMUKHI TIPPI", aliases: &[] },
        Codepoint { codepoint: 0x0A71, name: "GURMUKHI ADDAK", aliases: &[] },
        Codepoint { codepoint: 0x0A72, name: "GURMUKHI IRI", aliases: &[] },
        Codepoint { codepoint: 0x0A73, name: "GURMUKHI URA", aliases: &[] },
        Codepoint { codepoint: 0x0A74, name: "GURMUKHI EK ONKAR", aliases: &[] },
        Codepoint { codepoint: 0x0A75, name: "GURMUKHI SIGN YAKASH", aliases: &[] },
        Codepoint { codepoint: 0x0A76, name: "GURMUKHI ABBREVIATION SIGN", aliases: &[] },
        Codepoint { codepoint: 0x0A81, name: "GUJARATI SIGN CANDRABINDU", aliases: &[] },
        Codepoint { codepoint: 0x0A82, name: "GUJARATI SIGN ANUSVARA", aliases: &[] },
        Codepoint { codepoint: 0x0A83, name: "GUJARATI SIGN VISARGA", aliases: &[] },
        Codepoint { codepoint: 0x0A85, name: "GUJARATI LETTER A", aliases: &[] },
        Codepoint { codepoint: 0x0A86, name: "GUJARATI LETTER AA", aliases: &[] },
        Codepoint { codepoint: 0x0A87, name: "GUJARATI LETTER I", aliases: &[] },
        Codepoint { codepoint: 0x0A88, name: "GUJARATI LETTER II", aliases: &[] },
        Codepoint { codepoint: 0x0A89, name: "GUJARATI LETTER U", aliases: &[] },
        Codepoint { codepoint: 0x0A8A, name: "GUJARATI LETTER UU", aliases: &[] },
        Codepoint { codepoint: 0x0A8B, name: "GUJARATI LETTER VOCALIC R", aliases: &[] },
        Codepoint { codepoint: 0x0A8C, name: "GUJARATI LETTER VOCALIC L", aliases: &[] },
        Codepoint { codepoint: 0x0A8D, name: "GUJARATI VOWEL CANDRA E", aliases: &[] },
        Codepoint { codepoint: 0x0A8F, name: "GUJARATI LETTER E", aliases: &[] },
        Codepoint { codepoint: 0x0A90, name: "GUJARATI LETTER AI", aliases: &[] },
        Codepoint { codepoint: 0x0A91, name: "GUJARATI VOWEL CANDRA O", aliases: &[] },
        Codepoint { codepoint: 0x0A93, name: "GUJARATI LETTER O", aliases: &[] },
        Codepoint { codepoint: 0x0A94, name: "GUJARATI LETTER AU", aliases: &[] },
        Codepoint { codepoint: 0x0A95, name: "GUJARATI LETTER KA", aliases: &[] },
        Codepoint { codepoint: 0x0A96, name: "GUJARATI LETTER KHA", aliases: &[] },
        Codepoint { codepoint: 0x0A97, name: "GUJARATI LETTER GA", aliases: &[] },
        Codepoint { codepoint: 0x0A98, name: "GUJARATI LETTER GHA", aliases: &[] },
        Codepoint { codepoint: 0x0A99, name: "GUJARATI LETTER NGA", aliases: &[] },
        Codepoint { codepoint: 0x0A9A, name: "GUJARATI LETTER CA", aliases: &[] },
        Codepoint { codepoint: 0x0A9B, name: "GUJARATI LETTER CHA", aliases: &[] },
        Codepoint { codepoint: 0x0A9C, name: "GUJARATI LETTER JA", aliases: &[] },
        Codepoint { codepoint: 0x0A9D, name: "GUJARATI LETTER JHA", aliases: &[] },
        Codepoint { codepoint: 0x0A9E, name: "GUJARATI LETTER NYA", aliases: &[] },
    ]
}

fn all_codepoints_63() -> (v: Vec<Codepoint>)
    ensures
        v@ == codepoint_table_63(),
{
    let v = vec![
        Codepoint { codepoint: 0x0A6A, name: "GURMUKHI DIGIT FOUR", aliases: &[] },
        Codepoint { codepoint: 0x0A6B, name: "GURMUKHI DIGIT FIVE", aliases: &[] },
        Codepoint { codepoint: 0x0A6C, name: "GURMUKHI DIGIT SIX", aliases: &[] },
        Codepoint { codepoint: 0x0A6D, name: "GURMUKHI DIGIT SEVEN", aliases: &[] },
        Codepoint { codepoint: 0x0A6E, name: "GURMUKHI DIGIT EIGHT", aliases: &[] },
        Codepoint { codepoint: 0x0A6F, name: "GURMUKHI DIGIT NINE", aliases: &[] },
        Codepoint { codepoint: 0x0A70, name: "GURMUKHI TIPPI", aliases: &[] },
        Codepoint { codepoint: 0x0A71, name: "GURMUKHI ADDAK", aliases: &[] },
        Codepoint { codepoint: 0x0A72, name: "GURMUKHI IRI", aliases: &[] },
        Codepoint { codepoint: 0x0A73, name: "GURMUKHI URA", aliases: &[] },
        Codepoint { codepoint: 0x0A74, name: "GURMUKHI EK ONKAR", aliases: &[] },
        Codepoint { codepoint: 0x0A75, name: "GURMUKHI SIGN YAKASH", aliases: &[] },
        Codepoint { codepoint: 0x0A76, name: "GURMUKHI ABBREVIATION SIGN", aliases: &[] },
        Codepoint { codepoint: 0x0A81, name: "GUJARATI SIGN CANDRABINDU", aliases: &[] },
        Codepoint { codepoint: 0x0A82, name: "GUJARATI SIGN ANUSVARA", aliases: &[] },
        Codepoint { codepoint: 0x0A83, name: "GUJARATI SIGN VISARGA", aliases: &[] },
        Codepoint { codepoint: 0x0A85, name: "GUJARATI LETTER A", aliases: &[] },
        Codepoint { codepoint: 0x0A86, name: "GUJARATI LETTER AA", aliases: &[] },
        Codepoint { codepoint: 0x0A87, name: "GUJARATI LETTER I", aliases: &[] },
        Codepoint { codepoint: 0x0A88, name: "GUJARATI LETTER II", aliases: &[] },
        Codepoint { codepoint: 0x0A89, name: "GUJARATI LETTER U", aliases: &[] },
        Codepoint { codepoint: 0x0A8A, name: "GUJARATI LETTER UU", aliases: &[] },
        Codepoint { codepoint: 0x0A8B, name: "GUJARATI LETTER VOCALIC R", aliases: &[] },
        Codepoint { codepoint: 0x0A8C, name: "GUJARATI LETTER VOCALIC L", aliases: &[] },
        Codepoint { codepoint: 0x0A8D, name: "GUJARATI VOWEL CANDRA E", aliases: &[] },
        Codepoint { codepoint: 0x0A8F, name: "GUJARATI LETTER E", aliases: &[] },
        Codepoint { codepoint: 0x0A90, name: "GUJARATI LETTER AI", aliases: &[] },
        Codepoint { codepoint: 0x0A91, name: "GUJARATI VOWEL CANDRA O", aliases: &[] },
        Codepoint { codepoint: 0x0A93, name: "GUJARATI LETTER O", aliases: &[] },
        Codepoint { codepoint: 0x0A94, name: "GUJARATI LETTER AU", aliases: &[] },
        Codepoint { codepoint: 0x0A95, name: "GUJARATI LETTER KA", aliases: &[] },
        Codepoint { codepoint: 0x0A96, name: "GUJARATI LETTER KHA", aliases: &[] },
        Codepoint { codepoint: 0x0A97, name: "GUJARATI LETTER GA", aliases: &[] },
        Codepoint { codepoint: 0x0A98, name: "GUJARATI LETTER GHA", aliases: &[] },
        Codepoint { codepoint: 0x0A99, name: "GUJARATI LETTER NGA", aliases: &[] },
        Codepoint { codepoint: 0x0A9A, name: "GUJARATI LETTER CA", aliases: &[] },
        Codepoint { codepoint: 0x0A9B, name: "GUJARATI LETTER CHA", aliases: &[] },
        Codepoint { codepoint: 0x0A9C, name: "GUJARATI LETTER JA", aliases: &[] },
        Codepoint { codepoint: 0x0A9D, name: "GUJARATI LETTER JHA", aliases: &[] },
        Codepoint { codepoint: 0x0A9E, name: "GUJARATI LETTER NYA", aliases: &[] },
    ];
    assert(v@ =~= codepoint_table_63());
    v
}

pub open spec fn codepoint_table_64() -> Seq<Codepoint> {
    seq![
        Codepoint { codepoint: 0x0A9F, name: "GUJARATI LETTER TTA", aliases: &[] },
        Codepoint { codepoint: 0x0AA0, name: "GUJARATI LETTER TTHA", aliases: &[] },
        Codepoint { codepoint: 0x0AA1, name: "GUJARATI LETTER DDA", aliases: &[] },
        Codepoint { codepoint: 0x0AA2, name: "GUJARATI LETTER DDHA", aliases: &[] },
        Codepoint { codepoint: 0x0AA3, name: "GUJARATI LETTER NNA", aliases: &[] },
        Codepoint { codepoint: 0x0AA4, name: "GUJARATI LETTER TA", aliases: &[] },
        Codepoint { codepoint: 0x0AA5, name: "GUJARATI LETTER THA", aliases: &[] },
        Codepoint { codepoint: 0x0AA6, name: "GUJARATI LETTER DA", aliases: &[] },
        Codepoint { codepoint: 0x0AA7, name: "GUJARATI LETTER DHA", aliases: &[] },
        Codepoint { codepoint: 0x0AA8, name: "GUJARATI LETTER NA", aliases: &[] },
        Codepoint { codepoint: 0x0AAA, name: "GUJARATI LETTER PA", aliases: &[] },
        Codepoint { codepoint: 0x0AAB, name: "GUJARATI LETTER PHA", aliases: &[] },
        Codepoint { codepoint: 0x0AAC, name: "GUJARATI LETTER BA", aliases: &[] },
        Codepoint { codepoint: 0x0AAD, name: "GUJARATI LETTER BHA", aliases: &[] },
        Codepoint { codepoint: 0x0AAE, name: "GUJARATI LETTER MA", aliases: &[] },
        Codepoint { codepoint: 0x0AAF, name: "GUJARATI LETTER YA", aliases: &[] },
        Codepoint { codepoint: 0x0AB0, name: "GUJARATI LETTER RA", aliases: &[] },
        Codepoint { codepoint: 0x0AB2, name: "GUJARATI LETTER LA", aliases: &[] },
        Codepoint { codepoint: 0x0AB3, name: "GUJARATI LETTER LLA", aliases: &[] },
        Codepoint { codepoint: 0x0AB5, name: "GUJARATI LETTER VA", aliases: &[] },
        Codepoint { codepoint: 0x0AB6, name: "GUJARATI LETTER SHA", aliases: &[] },
        Codepoint { codepoint: 0x0AB7, name: "GUJARATI LETTER SSA", aliases: &[] },
        Codepoint { codepoint: 0x0AB8, name: "GUJARATI LETTER SA", aliases: &[] },
        Codepoint { codepoint: 0x0AB9, name: "GUJARATI LETTER HA", aliases: &[] },
        Codepoint { codepoint: 0x0ABC, name: "GUJARATI SIGN NUKTA", aliases: &[] },
        Codepoint { codepoint: 0x0ABD, name: "GUJARATI SIGN AVAGRAHA", aliases: &[] },
        Codepoint { codepoint: 0x0ABE, name: "GUJARATI VOWEL SIGN AA", aliases: &[] },
        Codepoint { codepoint: 0x0ABF, name: "GUJARATI VOWEL SIGN I", aliases: &[] },
        Codepoint { codepoint: 0x0AC0, name: "GUJARATI VOWEL SIGN II", aliases: &[] },
        Codepoint { codepoint: 0x0AC1, name: "GUJARATI VOWEL SIGN U", aliases: &[] },
        Codepoint { codepoint: 0x0AC2, name: "GUJARATI VOWEL SIGN UU", aliases: &[] },
        Codepoint { codepoint: 0x0AC3, name: "GUJARATI VOWEL SIGN VOCALIC R", aliases: &[] },
        Codepoint { codepoint: 0x0AC4, name: "GUJARATI VOWEL SIGN VOCALIC RR", aliases: &[] },
        Codepoint { codepoint: 0x0AC5, name: "GUJARATI VOWEL SIGN CANDRA E", aliases: &[] },
        Codepoint { codepoint: 0x0AC7, name: "GUJARATI VOWEL SIGN E", aliases: &[] },
        Codepoint { codepoint: 0x0AC8, name: "GUJARATI VOWEL SIGN AI", aliases: &[] },
        Codepoint { codepoint: 0x0AC9, name: "GUJARATI VOWEL SIGN CANDRA O", aliases: &[] },
        Codepoint { codepoint: 0x0ACB, name: "GUJARATI VOWEL SIGN O", aliases: &[] },
        Codepoint { codepoint: 0x0ACC, name: "GUJARATI VOWEL SIGN AU", aliases: &[] },
        Codepoint { codepoint: 0x0ACD, name: "GUJARATI SIGN VIRAMA", aliases: &[] },
    ]
}

fn all_codepoints_64() -> (v: Vec<Codepoint>)
    ensures
        v@ == codepoint_table_64(),
{
    let v = vec![
        Codepoint { codepoint: 0x0A9F, name: "GUJARATI LETTER TTA", aliases: &[] },
        Codepoint { codepoint: 0x0AA0, name: "GUJARATI LETTER TTHA", aliases: &[] },
        Codepoint { codepoint: 0x0AA1, name: "GUJARATI LETTER DDA", aliases: &[] },
        Codepoint { codepoint: 0x0AA2, name: "GUJARATI LETTER DDHA", aliases: &[] },
        Codepoint { codepoint: 0x0AA3, name: "GUJARATI LETTER NNA", aliases: &[] },
        Codepoint { codepoint: 0x0AA4, name: "GUJARATI LETTER TA", aliases: &[] },
        Codepoint { codepoint: 0x0AA5, name: "GUJARATI LETTER THA", aliases: &[] },
        Codepoint { codepoint: 0x0AA6, name: "GUJARATI LETTER DA", aliases: &[] },
        Codepoint { codepoint: 0x0AA7, name: "GUJARATI LETTER DHA", aliases: &[] },
        Codepoint { codepoint: 0x0AA8, name: "GUJARATI LETTER NA", aliases: &[] },
        Codepoint { codepoint: 0x0AAA, name: "GUJARATI LETTER PA", aliases: &[] },
        Codepoint { codepoint: 0x0AAB, name: "GUJARATI LETTER PHA", aliases: &[] },
        Codepoint { codepoint: 0x0AAC, name: "GUJARATI LETTER BA", aliases: &[] },
        Codepoint { codepoint: 0x0AAD, name: "GUJARATI LETTER BHA", aliases: &[] },
        Codepoint { codepoint: 0x0AAE, name: "GUJARATI LETTER MA", aliases: &[] },
        Codepoint { codepoint: 0x0AAF, name: "GUJARATI LETTER YA", aliases: &[] },
        Codepoint { codepoint: 0x0AB0, name: "GUJARATI LETTER RA", aliases: &[] },
        Codepoint { codepoint: 0x0AB2, name: "GUJARATI LETTER LA", aliases: &[] },
        Codepoint { codepoint: 0x0AB3, name: "GUJARATI LETTER LLA", aliases: &[] },
        Codepoint { codepoint: 0x0AB5, name: "GUJARATI LETTER VA", aliases: &[] },
        Codepoint { codepoint: 0x0AB6, name: "GUJARATI LETTER SHA", aliases: &[] },
        Codepoint { codepoint: 0x0AB7, name: "GUJARATI LETTER SSA", aliases: &[] },
        Codepoint { codepoint: 0x0AB8, name: "GUJARATI LETTER SA", aliases: &[] },
        Codepoint { codepoint: 0x0AB9, name: "GUJARATI LETTER HA", aliases: &[] },
        Codepoint { codepoint: 0x0ABC, name: "GUJARATI SIGN NUKTA", aliases: &[] },
        Codepoint { codepoint: 0x0ABD, name: "GUJARATI SIGN AVAGRAHA", aliases: &[] },
        Codepoint { codepoint: 0x0ABE, name: "GUJARATI VOWEL SIGN AA", aliases: &[] },
        Codepoint { codepoint: 0x0ABF, name: "GUJARATI VOWEL SIGN I", aliases: &[] },
        Codepoint { codepoint: 0x0AC0, name: "GUJARATI VOWEL SIGN II", aliases: &[] },
        Codepoint { codepoint: 0x0AC1, name: "GUJARATI VOWEL SIGN U", aliases: &[] },
        Codepoint { codepoint: 0x0AC2, name: "GUJARATI VOWEL SIGN UU", aliases: &[] },
        Codepoint { codepoint: 0x0AC3, name: "GUJARATI VOWEL SIGN VOCALIC R", aliases: &[] },
        Codepoint { codepoint: 0x0AC4, name: "GUJARATI VOWEL SIGN VOCALIC RR", aliases: &[] },
        Codepoint { codepoint: 0x0AC5, name: "GUJARATI VOWEL SIGN CANDRA E", aliases: &[] },
        Codepoint { codepoint: 0x0AC7, name: "GUJARATI VOWEL SIGN E", aliases: &[] },
        Codepoint { codepoint: 0x0AC8, name: "GUJARATI VOWEL SIGN AI", aliases: &[] },
        Codepoint { codepoint: 0x0AC9, name: "GUJARATI VOWEL SIGN CANDRA O", aliases: &[] },
        Codepoint { codepoint: 0x0ACB, name: "GUJARATI VOWEL SIGN O", aliases: &[] },
        Codepoint { codepoint: 0x0ACC, name: "GUJARATI VOWEL SIGN AU", aliases: &[] },
        Codepoint { codepoint: 0x0ACD, name: "GUJARATI SIGN VIRAMA", aliases: &[] },
    ];
    assert(v@ =~= codepoint_table_64());
    v
}

pub open spec fn codepoint_table_65() -> Seq<Codepoint> {
    seq![
        Codepoint { codepoint: 0x0AD0, name: "GUJARATI OM", aliases: &[] },
        Codepoint { codepoint: 0x0AE0, name: "GUJARATI LETTER VOCALIC RR", aliases: &[] },
        Codepoint { codepoint: 0x0AE1, name: "GUJARATI LETTER VOCALIC LL", aliases: &[] },
        Codepoint { codepoint: 0x0AE2, name: "GUJARATI VOWEL SIGN VOCALIC L", aliases: &[] },
        Codepoint { codepoint: 0x0AE3, name: "GUJARATI VOWEL SIGN VOCALIC LL", aliases: &[] },
        Codepoint { codepoint: 0x0AE6, name: "GUJARATI DIGIT ZERO", aliases: &[] },
        Codepoint { codepoint: 0x0AE7, name: "GUJARATI DIGIT ONE", aliases: &[] },
        Codepoint { codepoint: 0x0AE8, name: "GUJARATI DIGIT TWO", aliases: &[] },
        Codepoint { codepoint: 0x0AE9, name: "GUJARATI DIGIT THREE", aliases: &[] },
        Codepoint { codepoint: 0x0AEA, name: "GUJARATI DIGIT FOUR", aliases: &[] },
        Codepoint { codepoint: 0x0AEB, name: "GUJARATI DIGIT FIVE", aliases: &[] },
        Codepoint { codepoint: 0x0AEC, name: "GUJARATI DIGIT SIX", aliases: &[] },
        Codepoint { codepoint: 0x0AED, name: "GUJARATI DIGIT SEVEN", aliases: &[] },
        Codepoint { codepoint: 0x0AEE, name: "GUJARATI DIGIT EIGHT", aliases: &[] },
        Codepoint { codepoint: 0x0AEF, name: "GUJARATI DIGIT NINE", aliases: &[] },
        Codepoint { codepoint: 0x0AF0, name: "GUJARATI ABBREVIATION SIGN", aliases: &[] },
        Codepoint { codepoint: 0x0AF1, name: "GUJARATI RUPEE SIGN", aliases: &[] },
        Codepoint { codepoint: 0x0AF9, name: "GUJARATI LETTER ZHA", aliases: &[] },
        Codepoint { codepoint: 0x0AFA, name: "GUJARATI SIGN SUKUN", aliases: &[] },
        Codepoint { codepoint: 0x0AFB, name: "GUJARATI SIGN SHADDA", aliases: &[] },
        Codepoint { codepoint: 0x0AFC, name: "GUJARATI SIGN MADDAH", aliases: &[] },
        Codepoint { codepoint: 0x0AFD, name: "GUJARATI SIGN THREE-DOT NUKTA ABOVE", aliases: &[] },
        Codepoint { codepoint: 0x0AFE, name: "GUJARATI SIGN CIRCLE NUKTA ABOVE", aliases: &[] },
        Codepoint { codepoint: 0x0AFF, name: "GUJARATI SIGN TWO-CIRCLE NUKTA ABOVE", aliases: &[] },
        Codepoint { codepoint: 0x0B01, name: "ORIYA SIGN CANDRABINDU", aliases: &[] },
        Codepoint { codepoint: 0x0B02, name: "ORIYA SIGN ANUSVARA", aliases: &[] },
        Codepoint { codepoint: 0x0B03, name: "ORIYA SIGN VISARGA", aliases: &[] },
        Codepoint { codepoint: 0x0B05, name: "ORIYA LETTER A", aliases: &[] },
        Codepoint { codepoint: 0x0B06, name: "ORIYA LETTER AA", aliases: &[] },
        Codepoint { codepoint: 0x0B07, name: "ORIYA LETTER I", aliases: &[] },
        Codepoint { codepoint: 0x0B08, name: "ORIYA LETTER II", aliases: &[] },
        Codepoint { codepoint: 0x0B09, name: "ORIYA LETTER U", aliases: &[] },
        Codepoint { codepoint: 0x0B0A, name: "ORIYA LETTER UU", aliases: &[] },
        Codepoint { codepoint: 0x0B0B, name: "ORIYA LETTER VOCALIC R", aliases: &[] },
        Codepoint { codepoint: 0x0B0C, name: "ORIYA LETTER VOCALIC L", aliases: &[] },
        Codepoint { codepoint: 0x0B0F, name: "ORIYA LETTER E", aliases: &[] },
        Codepoint { codepoint: 0x0B10, name: "ORIYA LETTER AI", aliases: &[] },
        Codepoint { codepoint: 0x0B13, name: "ORIYA LETTER O", aliases: &[] },
        Codepoint { codepoint: 0x0B14, name: "ORIYA LETTER AU", aliases: &[] },
        Codepoint { codepoint: 0x0B15, name: "ORIYA LETTER KA", aliases: &[] },
    ]
}

fn all_codepoints_65() -> (v: Vec<Codepoint>)
    ensures
        v@ == codepoint_table_65(),
{
    let v = vec![
        Codepoint { codepoint: 0x0AD0, name: "GUJARATI OM", aliases: &[] },
        Codepoint { codepoint: 0x0AE0, name: "GUJARATI LETTER VOCALIC RR", aliases: &[] },
        Codepoint { codepoint: 0x0AE1, name: "GUJARATI LETTER VOCALIC LL", aliases: &[] },
        Codepoint { codepoint: 0x0AE2, name: "GUJARATI VOWEL SIGN VOCALIC L", aliases: &[] },
        Codepoint { codepoint: 0x0AE3, name: "GUJARATI VOWEL SIGN VOCALIC LL", aliases: &[] },
        Codepoint { codepoint: 0x0AE6, name: "GUJARATI DIGIT ZERO", aliases: &[] },
        Codepoint { codepoint: 0x0AE7, name: "GUJARATI DIGIT ONE", aliases: &[] },
        Codepoint { codepoint: 0x0AE8, name: "GUJARATI DIGIT TWO", aliases: &[] },
        Codepoint { codepoint: 0x0AE9, name: "GUJARATI DIGIT THREE", aliases: &[] },
        Codepoint { codepoint: 0x0AEA, name: "GUJARATI DIGIT FOUR", aliases: &[] },
        Codepoint { codepoint: 0x0AEB, name: "GUJARATI DIGIT FIVE", aliases: &[] },
        Codepoint { codepoint: 0x0AEC, name: "GUJARATI DIGIT SIX", aliases: &[] },
        Codepoint { codepoint: 0x0AED, name: "GUJARATI DIGIT SEVEN", aliases: &[] },
        Codepoint { codepoint: 0x0AEE, name: "GUJARATI DIGIT EIGHT", aliases: &[] },
        Codepoint { codepoint: 0x0AEF, name: "GUJARATI DIGIT NINE", aliases: &[] },
        Codepoint { codepoint: 0x0AF0, name: "GUJARATI ABBREVIATION SIGN", aliases: &[] },
        Codepoint { codepoint: 0x0AF1, name: "GUJARATI RUPEE SIGN", aliases: &[] },
        Codepoint { codepoint: 0x0AF9, name: "GUJARATI LETTER ZHA", aliases: &[] },
        Codepoint { codepoint: 0x0AFA, name: "GUJARATI SIGN SUKUN", aliases: &[] },
        Codepoint { codepoint: 0x0AFB, name: "GUJARATI SIGN SHADDA", aliases: &[] },
        Codepoint { codepoint: 0x0AFC, name: "GUJARATI SIGN MADDAH", aliases: &[] },
        Codepoint { codepoint: 0x0AFD, name: "GUJARATI SIGN THREE-DOT NUKTA ABOVE", aliases: &[] },
        Codepoint { codepoint: 0x0AFE, name: "GUJARATI SIGN CIRCLE NUKTA ABOVE", aliases: &[] },
        Codepoint { codepoint: 0x0AFF, name: "GUJARATI SIGN TWO-CIRCLE NUKTA ABOVE", aliases: &[] },
        Codepoint { codepoint: 0x0B01, name: "ORIYA SIGN CANDRABINDU", aliases: &[] },
        Codepoint { codepoint: 0x0B02, name: "ORIYA SIGN ANUSVARA", aliases: &[] },
        Codepoint { codepoint: 0x0B03, name: "ORIYA SIGN VISARGA", aliases: &[] },
        Codepoint { codepoint: 0x0B05, name: "ORIYA LETTER A", aliases: &[] },
        Codepoint { codepoint: 0x0B06, name: "ORIYA LETTER AA", aliases: &[] },
        Codepoint { codepoint: 0x0B07, name: "ORIYA LETTER I", aliases: &[] },
        Codepoint { codepoint: 0x0B08, name: "ORIYA LETTER II", aliases: &[] },
        Codepoint { codepoint: 0x0B09, name: "ORIYA LETTER U", aliases: &[] },
        Codepoint { codepoint: 0x0B0A, name: "ORIYA LETTER UU", aliases: &[] },
        Codepoint { codepoint: 0x0B0B, name: "ORIYA LETTER VOCALIC R", aliases: &[] },
        Codepoint { codepoint: 0x0B0C, name: "ORIYA LETTER VOCALIC L", aliases: &[] },
        Codepoint { codepoint: 0x0B0F, name: "ORIYA LETTER E", aliases: &[] },
        Codepoint { codepoint: 0x0B10, name: "ORIYA LETTER AI", aliases: &[] },
        Codepoint { codepoint: 0x0B13, name: "ORIYA LETTER O", aliases: &[] },
        Codepoint { codepoint: 0x0B14, name: "ORIYA LETTER AU", aliases: &[] },
        Codepoint { codepoint: 0x0B15, name: "ORIYA LETTER KA", aliases: &[] },
    ];
    assert(v@ =~= codepoint_table_65());
    v
}

pub open spec fn codepoint_table_66() -> Seq<Codepoint> {
    seq![
        Codepoint { codepoint: 0x0B16, name: "ORIYA LETTER KHA", aliases: &[] },
        Codepoint { codepoint: 0x0B17, name: "ORIYA LETTER GA", aliases: &[] },
        Codepoint { codepoint: 0x0B18, name: "ORIYA LETTER GHA", aliases: &[] },
        Codepoint { codepoint: 0x0B19, name: "ORIYA LETTER NGA", aliases: &[] },
        Codepoint { codepoint: 0x0B1A, name: "ORIYA LETTER CA", aliases: &[] },
        Codepoint { codepoint: 0x0B1B, name: "ORIYA LETTER CHA", aliases: &[] },
        Codepoint { codepoint: 0x0B1C, name: "ORIYA LETTER JA", aliases: &[] },
        Codepoint { codepoint: 0x0B1D, name: "ORIYA LETTER JHA", aliases: &[] },
        Codepoint { codepoint: 0x0B1E, name: "ORIYA LETTER NYA", aliases: &[] },
        Codepoint { codepoint: 0x0B1F, name: "ORIYA LETTER TTA", aliases: &[] },
        Codepoint { codepoint: 0x0B20, name: "ORIYA LETTER TTHA", aliases: &[] },
        Codepoint { codepoint: 0x0B21, name: "ORIYA LETTER DDA", aliases: &[] },
        Codepoint { codepoint: 0x0B22, name: "ORIYA LETTER DDHA", aliases: &[] },
        Codepoint { codepoint: 0x0B23, name: "ORIYA LETTER NNA", aliases: &[] },
        Codepoint { codepoint: 0x0B24, name: "ORIYA LETTER TA", aliases: &[] },
        Codepoint { codepoint: 0x0B25, name: "ORIYA LETTER THA", aliases: &[] },
        Codepoint { codepoint: 0x0B26, name: "ORIYA LETTER DA", aliases: &[] },
        Codepoint { codepoint: 0x0B27, name: "ORIYA LETTER DHA", aliases: &[] },
        Codepoint { codepoint: 0x0B28, name: "ORIYA LETTER NA", aliases: &[] },
        Codepoint { codepoint: 0x0B2A, name: "ORIYA LETTER PA", aliases: &[] },
        Codepoint { codepoint: 0x0B2B, name: "ORIYA LETTER PHA", aliases: &[] },
        Codepoint { codepoint: 0x0B2C, name: "ORIYA LETTER BA", aliases: &[] },
        Codepoint { codepoint: 0x0B2D, name: "ORIYA LETTER BHA", aliases: &[] },
        Codepoint { codepoint: 0x0B2E, name: "ORIYA LETTER MA", aliases: &[] },
        Codepoint { codepoint: 0x0B2F, name: "ORIYA LETTER YA", aliases: &[] },
        Codepoint { codepoint: 0x0B30, name: "ORIYA LETTER RA", aliases: &[] },
        Codepoint { codepoint: 0x0B32, name: "ORIYA LETTER LA", aliases: &[] },
        Codepoint { codepoint: 0x0B33, name: "ORIYA LETTER LLA", aliases: &[] },
        Codepoint { codepoint: 0x0B35, name: "ORIYA LETTER VA", aliases: &[] },
        Codepoint { codepoint: 0x0B36, name: "ORIYA LETTER SHA", aliases: &[] },
        Codepoint { codepoint: 0x0B37, name: "ORIYA LETTER SSA", aliases: &[] },
        Codepoint { codepoint: 0x0B38, name: "ORIYA LETTER SA", aliases: &[] },
        Codepoint { codepoint: 0x0B39, name: "ORIYA LETTER HA", aliases: &[] },
        Codepoint { codepoint: 0x0B3C, name: "ORIYA SIGN NUKTA", aliases: &[] },
        Codepoint { codepoint: 0x0B3D, name: "ORIYA SIGN AVAGRAHA", aliases: &[] },
        Codepoint { codepoint: 0x0B3E, name: "ORIYA VOWEL SIGN AA", aliases: &[] },
        Codepoint { codepoint: 0x0B3F, name: "ORIYA VOWEL SIGN I", aliases: &[] },
        Codepoint { codepoint: 0x0B40, name: "ORIYA VOWEL SIGN II", aliases: &[] },
        Codepoint { codepoint: 0x0B41, name: "ORIYA VOWEL SIGN U", aliases: &[] },
        Codepoint { codepoint: 0x0B42, name: "ORIYA VOWEL SIGN UU", aliases: &[] },
    ]
}

fn all_codepoints_66() -> (v: Vec<Codepoint>)
    ensures
        v@ == codepoint_table_66(),
{
    let v = vec![
        Codepoint { codepoint: 0x0B16, name: "ORIYA LETTER KHA", aliases: &[] },
        Codepoint { codepoint: 0x0B17, name: "ORIYA LETTER GA", aliases: &[] },
        Codepoint { codepoint: 0x0B18, name: "ORIYA LETTER GHA", aliases: &[] },
        Codepoint { codepoint: 0x0B19, name: "ORIYA LETTER NGA", aliases: &[] },
        Codepoint { codepoint: 0x0B1A, name: "ORIYA LETTER CA", aliases: &[] },
        Codepoint { codepoint: 0x0B1B, name: "ORIYA LETTER CHA", aliases: &[] },
        Codepoint { codepoint: 0x0B1C, name: "ORIYA LETTER JA", aliases: &[] },
        Codepoint { codepoint: 0x0B1D, name: "ORIYA LETTER JHA", aliases: &[] },
        Codepoint { codepoint: 0x0B1E, name: "ORIYA LETTER NYA", aliases: &[] },
        Codepoint { codepoint: 0x0B1F, name: "ORIYA LETTER TTA", aliases: &[] },
        Codepoint { codepoint: 0x0B20, name: "ORIYA LETTER TTHA", aliases: &[] },
        Codepoint { codepoint: 0x0B21, name: "ORIYA LETTER DDA", aliases: &[] },
        Codepoint { codepoint: 0x0B22, name: "ORIYA LETTER DDHA", aliases: &[] },
        Codepoint { codepoint: 0x0B23, name: "ORIYA LETTER NNA", aliases: &[] },
        Codepoint { codepoint: 0x0B24, name: "ORIYA LETTER TA", aliases: &[] },
        Codepoint { codepoint: 0x0B25, name: "ORIYA LETTER THA", aliases: &[] },
        Codepoint { codepoint: 0x0B26, name: "ORIYA LETTER DA", aliases: &[] },
        Codepoint { codepoint: 0x0B27, name: "ORIYA LETTER DHA", aliases: &[] },
        Codepoint { codepoint: 0x0B28, name: "ORIYA LETTER NA", aliases: &[] },
        Codepoint { codepoint: 0x0B2A, name: "ORIYA LETTER PA", aliases: &[] },
        Codepoint { codepoint: 0x0B2B, name: "ORIYA LETTER PHA", aliases: &[] },
        Codepoint { codepoint: 0x0B2C, name: "ORIYA LETTER BA", aliases: &[] },
        Codepoint { codepoint: 0x0B2D, name: "ORIYA LETTER BHA", aliases: &[] },
        Codepoint { codepoint: 0x0B2E, name: "ORIYA LETTER MA", aliases: &[] },
        Codepoint { codepoint: 0x0B2F, name: "ORIYA LETTER YA", aliases: &[] },
        Codepoint { codepoint: 0x0B30, name: "ORIYA LETTER RA", aliases: &[] },
        Codepoint { codepoint: 0x0B32, name: "ORIYA LETTER LA", aliases: &[] },
        Codepoint { codepoint: 0x0B33, name: "ORIYA LETTER LLA", aliases: &[] },
        Codepoint { codepoint: 0x0B35, name: "ORIYA LETTER VA", aliases: &[] },
        Codepoint { codepoint: 0x0B36, name: "ORIYA LETTER SHA", aliases: &[] },
        Codepoint { codepoint: 0x0B37, name: "ORIYA LETTER SSA", aliases: &[] },
        Codepoint { codepoint: 0x0B38, name: "ORIYA LETTER SA", aliases: &[] },
        Codepoint { codepoint: 0x0B39, name: "ORIYA LETTER HA", aliases: &[] },
        Codepoint { codepoint: 0x0B3C, name: "ORIYA SIGN NUKTA", aliases: &[] },
        Codepoint { codepoint: 0x0B3D, name: "ORIYA SIGN AVAGRAHA", aliases: &[] },
        Codepoint { codepoint: 0x0B3E, name: "ORIYA VOWEL SIGN AA", aliases: &[] },
        Codepoint { codepoint: 0x0B3F, name: "ORIYA VOWEL SIGN I", aliases: &[] },
        Codepoint { codepoint: 0x0B40, name: "ORIYA VOWEL SIGN II", aliases: &[] },
        Codepoint { codepoint: 0x0B41, name: "ORIYA VOWEL SIGN U", aliases: &[] },
        Codepoint { codepoint: 0x0B42, name: "ORIYA VOWEL SIGN UU", aliases: &[] },
    ];
    assert(v@ =~= codepoint_table_66());
    v
}

pub open spec fn codepoint_table_67() -> Seq<Codepoint> {
    seq![
        Codepoint { codepoint: 0x0B43, name: "ORIYA VOWEL SIGN VOCALIC R", aliases: &[] },
        Codepoint { codepoint: 0x0B44, name: "ORIYA VOWEL SIGN VOCALIC RR", aliases: &[] },
        Codepoint { codepoint: 0x0B47, name: "ORIYA VOWEL SIGN E", aliases: &[] },
        Codepoint { codepoint: 0x0B48, name: "ORIYA VOWEL SIGN AI", aliases: &[] },
        Codepoint { codepoint: 0x0B4B, name: "ORIYA VOWEL SIGN O", aliases: &[] },
        Codepoint { codepoint: 0x0B4C, name: "ORIYA VOWEL SIGN AU", aliases: &[] },
        Codepoint { codepoint: 0x0B4D, name: "ORIYA SIGN VIRAMA", aliases: &[] },
        Codepoint { codepoint: 0x0B55, name: "ORIYA SIGN OVERLINE", aliases: &[] },
        Codepoint { codepoint: 0x0B56, name: "ORIYA AI LENGTH MARK", aliases: &[] },
        Codepoint { codepoint: 0x0B57, name: "ORIYA AU LENGTH MARK", aliases: &[] },
        Codepoint { codepoint: 0x0B5C, name: "ORIYA LETTER RRA", aliases: &[] },
        Codepoint { codepoint: 0x0B5D, name: "ORIYA LETTER RHA", aliases: &[] },
        Codepoint { codepoint: 0x0B5F, name: "ORIYA LETTER YYA", aliases: &[] },
        Codepoint { codepoint: 0x0B60, name: "ORIYA LETTER VOCALIC RR", aliases: &[] },
        Codepoint { codepoint: 0x0B61, name: "ORIYA LETTER VOCALIC LL", aliases: &[] },
        Codepoint { codepoint: 0x0B62, name: "ORIYA VOWEL SIGN VOCALIC L", aliases: &[] },
        Codepoint { codepoint: 0x0B63, name: "ORIYA VOWEL SIGN VOCALIC LL", aliases: &[] },
        Codepoint { codepoint: 0x0B66, name: "ORIYA DIGIT ZERO", aliases: &[] },
        Codepoint { codepoint: 0x0B67, name: "ORIYA DIGIT ONE", aliases: &[] },
        Codepoint { codepoint: 0x0B68, name: "ORIYA DIGIT TWO", aliases: &[] },
        Codepoint { codepoint: 0x0B69, name: "ORIYA DIGIT THREE", aliases: &[] },
        Codepoint { codepoint: 0x0B6A, name: "ORIYA DIGIT FOUR", aliases: &[] },
        Codepoint { codepoint: 0x0B6B, name: "ORIYA DIGIT FIVE", aliases: &[] },
        Codepoint { codepoint: 0x0B6C, name: "ORIYA DIGIT SIX", aliases: &[] },
        Codepoint { codepoint: 0x0B6D, name: "ORIYA DIGIT SEVEN", aliases: &[] },
        Codepoint { codepoint: 0x0B6E, name: "ORIYA DIGIT EIGHT", aliases: &[] },
        Codepoint { codepoint: 0x0B6F, name: "ORIYA DIGIT NINE", aliases: &[] },
        Codepoint { codepoint: 0x0B70, name: "ORIYA ISSHAR", aliases: &[] },
        Codepoint { codepoint: 0x0B71, name: "ORIYA LETTER WA", aliases: &[] },
        Codepoint { codepoint: 0x0B72, name: "ORIYA FRACTION ONE QUARTER", aliases: &[] },
        Codepoint { codepoint: 0x0B73, name: "ORIYA FRACTION ONE HALF", aliases: &[] },
        Codepoint { codepoint: 0x0B74, name: "ORIYA FRACTION THREE QUARTERS", aliases: &[] },
        Codepoint { codepoint: 0x0B75, name: "ORIYA FRACTION ONE SIXTEENTH", aliases: &[] },
        Codepoint { codepoint: 0x0B76, name: "ORIYA FRACTION ONE EIGHTH", aliases: &[] },
        Codepoint { codepoint: 0x0B77, name: "ORIYA FRACTION THREE SIXTEENTHS", aliases: &[] },
        Codepoint { codepoint: 0x0B82, name: "TAMIL SIGN ANUSVARA", aliases: &[] },
        Codepoint { codepoint: 0x0B83, name: "TAMIL SIGN VISARGA", aliases: &[] },
        Codepoint { codepoint: 0x0B85, name: "TAMIL LETTER A", aliases: &[] },
        Codepoint { codepoint: 0x0B86, name: "TAMIL LETTER AA", aliases: &[] },
        Codepoint { codepoint: 0x0B87, name: "TAMIL LETTER I", aliases: &[] },
    ]
}

fn all_codepoints_67() -> (v: Vec<Codepoint>)
    ensures
        v@ == codepoint_table_67(),
{
    let v = vec![
        Codepoint { codepoint: 0x0B43, name: "ORIYA VOWEL SIGN VOCALIC R", aliases: &[] },
        Codepoint { codepoint: 0x0B44, name: "ORIYA VOWEL SIGN VOCALIC RR", aliases: &[] },
        Codepoint { codepoint: 0x0B47, name: "ORIYA VOWEL SIGN E", aliases: &[] },
        Codepoint { codepoint: 0x0B48, name: "ORIYA VOWEL SIGN AI", aliases: &[] },
        Codepoint { codepoint: 0x0B4B, name: "ORIYA VOWEL SIGN O", aliases: &[] },
        Codepoint { codepoint: 0x0B4C, name: "ORIYA VOWEL SIGN AU", aliases: &[] },
        Codepoint { codepoint: 0x0B4D, name: "ORIYA SIGN VIRAMA", aliases: &[] },
        Codepoint { codepoint: 0x0B55, name: "ORIYA SIGN OVERLINE", aliases: &[] },
        Codepoint { codepoint: 0x0B56, name: "ORIYA AI LENGTH MARK", aliases: &[] },
        Codepoint { codepoint: 0x0B57, name: "ORIYA AU LENGTH MARK", aliases: &[] },
        Codepoint { codepoint: 0x0B5C, name: "ORIYA LETTER RRA", aliases: &[] },
        Codepoint { codepoint: 0x0B5D, name: "ORIYA LETTER RHA", aliases: &[] },
        Codepoint { codepoint: 0x0B5F, name: "ORIYA LETTER YYA", aliases: &[] },
        Codepoint { codepoint: 0x0B60, name: "ORIYA LETTER VOCALIC RR", aliases: &[] },
        Codepoint { codepoint: 0x0B61, name: "ORIYA LETTER VOCALIC LL", aliases: &[] },
        Codepoint { codepoint: 0x0B62, name: "ORIYA VOWEL SIGN VOCALIC L", aliases: &[] },
        Codepoint { codepoint: 0x0B63, name: "ORIYA VOWEL SIGN VOCALIC LL", aliases: &[] },
        Codepoint { codepoint: 0x0B66, name: "ORIYA DIGIT ZERO", aliases: &[] },
        Codepoint { codepoint: 0x0B67, name: "ORIYA DIGIT ONE", aliases: &[] },
        Codepoint { codepoint: 0x0B68, name: "ORIYA DIGIT TWO", aliases: &[] },
        Codepoint { codepoint: 0x0B69, name: "ORIYA DIGIT THREE", aliases: &[] },
        Codepoint { codepoint: 0x0B6A, name: "ORIYA DIGIT FOUR", aliases: &[] },
        Codepoint { codepoint: 0x0B6B, name: "ORIYA DIGIT FIVE", aliases: &[] },
        Codepoint { codepoint: 0x0B6C, name: "ORIYA DIGIT SIX", aliases: &[] },
        Codepoint { codepoint: 0x0B6D, name: "ORIYA DIGIT SEVEN", aliases: &[] },
        Codepoint { codepoint: 0x0B6E, name: "ORIYA DIGIT EIGHT", aliases: &[] },
        Codepoint { codepoint: 0x0B6F, name: "ORIYA DIGIT NINE", aliases: &[] },
        Codepoint { codepoint: 0x0B70, name: "ORIYA ISSHAR", aliases: &[] },
        Codepoint { codepoint: 0x0B71, name: "ORIYA LETTER WA", aliases: &[] },
        Codepoint { codepoint: 0x0B72, name: "ORIYA FRACTION ONE QUARTER", aliases: &[] },
        Codepoint { codepoint: 0x0B73, name: "ORIYA FRACTION ONE HALF", aliases: &[] },
        Codepoint { codepoint: 0x0B74, name: "ORIYA FRACTION THREE QUARTERS", aliases: &[] },
        Codepoint { codepoint: 0x0B75, name: "ORIYA FRACTION ONE SIXTEENTH", aliases: &[] },
        Codepoint { codepoint: 0x0B76, name: "ORIYA FRACTION ONE EIGHTH", aliases: &[] },
        Codepoint { codepoint: 0x0B77, name: "ORIYA FRACTION THREE SIXTEENTHS", aliases: &[] },
        Codepoint { codepoint: 0x0B82, name: "TAMIL SIGN ANUSVARA", aliases: &[] },
        Codepoint { codepoint: 0x0B83, name: "TAMIL SIGN VISARGA", aliases: &[] },
        Codepoint { codepoint: 0x0B85, name: "TAMIL LETTER A", aliases: &[] },
        Codepoint { codepoint: 0x0B86, name: "TAMIL LETTER AA", aliases: &[] },
        Codepoint { codepoint: 0x0B87, name: "TAMIL LETTER I", aliases: &[] },
    ];
    assert(v@ =~= codepoint_table_67());
    v
}

pub open spec fn codepoint_table_68() -> Seq<Codepoint> {
    seq![
        Codepoint { codepoint: 0x0B88, name: "TAMIL LETTER II", aliases: &[] },
        Codepoint { codepoint: 0x0B89, name: "TAMIL LETTER U", aliases: &[] },
        Codepoint { codepoint: 0x0B8A, name: "TAMIL LETTER UU", aliases: &[] },
        Codepoint { codepoint: 0x0B8E, name: "TAMIL LETTER E", aliases: &[] },
        Codepoint { codepoint: 0x0B8F, name: "TAMIL LETTER EE", aliases: &[] },
        Codepoint { codepoint: 0x0B90, name: "TAMIL LETTER AI", aliases: &[] },
        Codepoint { codepoint: 0x0B92, name: "TAMIL LETTER O", aliases: &[] },
        Codepoint { codepoint: 0x0B93, name: "TAMIL LETTER OO", aliases: &[] },
        Codepoint { codepoint: 0x0B94, name: "TAMIL LETTER AU", aliases: &[] },
        Codepoint { codepoint: 0x0B95, name: "TAMIL LETTER KA", aliases: &[] },
        Codepoint { codepoint: 0x0B99, name: "TAMIL LETTER NGA", aliases: &[] },
        Codepoint { codepoint: 0x0B9A, name: "TAMIL LETTER CA", aliases: &[] },
        Codepoint { codepoint: 0x0B9C, name: "TAMIL LETTER JA", aliases: &[] },
        Codepoint { codepoint: 0x0B9E, name: "TAMIL LETTER NYA", aliases: &[] },
        Codepoint { codepoint: 0x0B9F, name: "TAMIL LETTER TTA", aliases: &[] },
        Codepoint { codepoint: 0x0BA3, name: "TAMIL LETTER NNA", aliases: &[] },
        Codepoint { codepoint: 0x0BA4, name: "TAMIL LETTER TA", aliases: &[] },
        Codepoint { codepoint: 0x0BA8, name: "TAMIL LETTER NA", aliases: &[] },
        Codepoint { codepoint: 0x0BA9, name: "TAMIL LETTER NNNA", aliases: &[] },
        Codepoint { codepoint: 0x0BAA, name: "TAMIL LETTER PA", aliases: &[] },
        Codepoint { codepoint: 0x0BAE, name: "TAMIL LETTER MA", aliases: &[] },
        Codepoint { codepoint: 0x0BAF, name: "TAMIL LETTER YA", aliases: &[] },
        Codepoint { codepoint: 0x0BB0, name: "TAMIL LETTER RA", aliases: &[] },
        Codepoint { codepoint: 0x0BB1, name: "TAMIL LETTER RRA", aliases: &[] },
        Codepoint { codepoint: 0x0BB2, name: "TAMIL LETTER LA", aliases: &[] },
        Codepoint { codepoint: 0x0BB3, name: "TAMIL LETTER LLA", aliases: &[] },
        Codepoint { codepoint: 0x0BB4, name: "TAMIL LETTER LLLA", aliases: &[] },
        Codepoint { codepoint: 0x0BB5, name: "TAMIL LETTER VA", aliases: &[] },
        Codepoint { codepoint: 0x0BB6, name: "TAMIL LETTER SHA", aliases: &[] },
        Codepoint { codepoint: 0x0BB7, name: "TAMIL LETTER SSA", aliases: &[] },
        Codepoint { codepoint: 0x0BB8, name: "TAMIL LETTER SA", aliases: &[] },
        Codepoint { codepoint: 0x0BB9, name: "TAMIL LETTER HA", aliases: &[] },
        Codepoint { codepoint: 0x0BBE, name: "TAMIL VOWEL SIGN AA", aliases: &[] },
        Codepoint { codepoint: 0x0BBF, name: "TAMIL VOWEL SIGN I", aliases: &[] },
        Codepoint { codepoint: 0x0BC0, name: "TAMIL VOWEL SIGN II", aliases: &[] },
        Codepoint { codepoint: 0x0BC1, name: "TAMIL VOWEL SIGN U", aliases: &[] },
        Codepoint { codepoint: 0x0BC2, name: "TAMIL VOWEL SIGN UU", aliases: &[] },
        Codepoint { codepoint: 0x0BC6, name: "TAMIL VOWEL SIGN E", aliases: &[] },
        Codepoint { codepoint: 0x0BC7, name: "TAMIL VOWEL SIGN EE", aliases: &[] },
        Codepoint { codepoint: 0x0BC8, name: "TAMIL VOWEL SIGN AI", aliases: &[] },
    ]
}

fn all_codepoints_68() -> (v: Vec<Codepoint>)
    ensures
        v@ == codepoint_table_68(),
{
    let v = vec![
        Codepoint { codepoint: 0x0B88, name: "TAMIL LETTER II", aliases: &[] },
        Codepoint { codepoint: 0x0B89, name: "TAMIL LETTER U", aliases: &[] },
        Codepoint { codepoint: 0x0B8A, name: "TAMIL LETTER UU", aliases: &[] },
        Codepoint { codepoint: 0x0B8E, name: "TAMIL LETTER E", aliases: &[] },
        Codepoint { codepoint: 0x0B8F, name: "TAMIL LETTER EE", aliases: &[] },
        Codepoint { codepoint: 0x0B90, name: "TAMIL LETTER AI", aliases: &[] },
        Codepoint { codepoint: 0x0B92, name: "TAMIL LETTER O", aliases: &[] },
        Codepoint { codepoint: 0x0B93, name: "TAMIL LETTER OO", aliases: &[] },
        Codepoint { codepoint: 0x0B94, name: "TAMIL LETTER AU", aliases: &[] },
        Codepoint { codepoint: 0x0B95, name: "TAMIL LETTER KA", aliases: &[] },
        Codepoint { codepoint: 0x0B99, name: "TAMIL LETTER NGA", aliases: &[] },
        Codepoint { codepoint: 0x0B9A, name: "TAMIL LETTER CA", aliases: &[] },
        Codepoint { codepoint: 0x0B9C, name: "TAMIL LETTER JA", aliases: &[] },
        Codepoint { codepoint: 0x0B9E, name: "TAMIL LETTER NYA", aliases: &[] },
        Codepoint { codepoint: 0x0B9F, name: "TAMIL LETTER TTA", aliases: &[] },
        Codepoint { codepoint: 0x0BA3, name: "TAMIL LETTER NNA", aliases: &[] },
        Codepoint { codepoint: 0x0BA4, name: "TAMIL LETTER TA", aliases: &[] },
        Codepoint { codepoint: 0x0BA8, name: "TAMIL LETTER NA", aliases: &[] },
        Codepoint { codepoint: 0x0BA9, name: "TAMIL LETTER NNNA", aliases: &[] },
        Codepoint { codepoint: 0x0BAA, name: "TAMIL LETTER PA", aliases: &[] },
        Codepoint { codepoint: 0x0BAE, name: "TAMIL LETTER MA", aliases: &[] },
        Codepoint { codepoint: 0x0BAF, name: "TAMIL LETTER YA", aliases: &[] },
        Codepoint { codepoint: 0x0BB0, name: "TAMIL LETTER RA", aliases: &[] },
        Codepoint { codepoint: 0x0BB1, name: "TAMIL LETTER RRA", aliases: &[] },
        Codepoint { codepoint: 0x0BB2, name: "TAMIL LETTER LA", aliases: &[] },
        Codepoint { codepoint: 0x0BB3, name: "TAMIL LETTER LLA", aliases: &[] },
        Codepoint { codepoint: 0x0BB4, name: "TAMIL LETTER LLLA", aliases: &[] },
        Codepoint { codepoint: 0x0BB5, name: "TAMIL LETTER VA", aliases: &[] },
        Codepoint { codepoint: 0x0BB6, name: "TAMIL LETTER SHA", aliases: &[] },
        Codepoint { codepoint: 0x0BB7, name: "TAMIL LETTER SSA", aliases: &[] },
        Codepoint { codepoint: 0x0BB8, name: "TAMIL LETTER SA", aliases: &[] },
        Codepoint { codepoint: 0x0BB9, name: "TAMIL LETTER HA", aliases: &[] },
        Codepoint { codepoint: 0x0BBE, name: "TAMIL VOWEL SIGN AA", aliases: &[] },
        Codepoint { codepoint: 0x0BBF, name: "TAMIL VOWEL SIGN I", aliases: &[] },
        Codepoint { codepoint: 0x0BC0, name: "TAMIL VOWEL SIGN II", aliases: &[] },
        Codepoint { codepoint: 0x0BC1, name: "TAMIL VOWEL SIGN U", aliases: &[] },
        Codepoint { codepoint: 0x0BC2, name: "TAMIL VOWEL SIGN UU", aliases: &[] },
        Codepoint { codepoint: 0x0BC6, name: "TAMIL VOWEL SIGN E", aliases: &[] },
        Codepoint { codepoint: 0x0BC7, name: "TAMIL VOWEL SIGN EE", aliases: &[] },
        Codepoint { codepoint: 0x0BC8, name: "TAMIL VOWEL SIGN AI", aliases: &[] },
    ];
    assert(v@ =~= codepoint_table_68());
    v
}

pub open spec fn codepoint_table_69() -> Seq<Codepoint> {
    seq![
        Codepoint { codepoint: 0x0BCA, name: "TAMIL VOWEL SIGN O", aliases: &[] },
        Codepoint { codepoint: 0x0BCB, name: "TAMIL VOWEL SIGN OO", aliases: &[] },
        Codepoint { codepoint: 0x0BCC, name: "TAMIL VOWEL SIGN AU", aliases: &[] },
        Codepoint { codepoint: 0x0BCD, name: "TAMIL SIGN VIRAMA", aliases: &[] },
        Codepoint { codepoint: 0x0BD0, name: "TAMIL OM", aliases: &[] },
        Codepoint { codepoint: 0x0BD7, name: "TAMIL AU LENGTH MARK", aliases: &[] },
        Codepoint { codepoint: 0x0BE6, name: "TAMIL DIGIT ZERO", aliases: &[] },
        Codepoint { codepoint: 0x0BE7, name: "TAMIL DIGIT ONE", aliases: &[] },
        Codepoint { codepoint: 0x0BE8, name: "TAMIL DIGIT TWO", aliases: &[] },
        Codepoint { codepoint: 0x0BE9, name: "TAMIL DIGIT THREE", aliases: &[] },
        Codepoint { codepoint: 0x0BEA, name: "TAMIL DIGIT FOUR", aliases: &[] },
        Codepoint { codepoint: 0x0BEB, name: "TAMIL DIGIT FIVE", aliases: &[] },
        Codepoint { codepoint: 0x0BEC, name: "TAMIL DIGIT SIX", aliases: &[] },
        Codepoint { codepoint: 0x0BED, name: "TAMIL DIGIT SEVEN", aliases: &[] },
        Codepoint { codepoint: 0x0BEE, name: "TAMIL DIGIT EIGHT", aliases: &[] },
        Codepoint { codepoint: 0x0BEF, name: "TAMIL DIGIT NINE", aliases: &[] },
        Codepoint { codepoint: 0x0BF0, name: "TAMIL NUMBER TEN", aliases: &[] },
        Codepoint { codepoint: 0x0BF1, name: "TAMIL NUMBER ONE HUNDRED", aliases: &[] },
        Codepoint { codepoint: 0x0BF2, name: "TAMIL NUMBER ONE THOUSAND", aliases: &[] },
        Codepoint { codepoint: 0x0BF3, name: "TAMIL DAY SIGN", aliases: &[] },
        Codepoint { codepoint: 0x0BF4, name: "TAMIL MONTH SIGN", aliases: &[] },
        Codepoint { codepoint: 0x0BF5, name: "TAMIL YEAR SIGN", aliases: &[] },
        Codepoint { codepoint: 0x0BF6, name: "TAMIL DEBIT SIGN", aliases: &[] },
        Codepoint { codepoint: 0x0BF7, name: "TAMIL CREDIT SIGN", aliases: &[] },
        Codepoint { codepoint: 0x0BF8, name: "TAMIL AS ABOVE SIGN", aliases: &[] },
        Codepoint { codepoint: 0x0BF9, name: "TAMIL RUPEE SIGN", aliases: &[] },
        Codepoint { codepoint: 0x0BFA, name: "TAMIL NUMBER SIGN", aliases: &[] },
        Codepoint { codepoint: 0x0C00, name: "TELUGU SIGN COMBINING CANDRABINDU ABOVE", aliases: &[] },
        Codepoint { codepoint: 0x0C01, name: "TELUGU SIGN CANDRABINDU", aliases: &[] },
        Codepoint { codepoint: 0x0C02, name: "TELUGU SIGN ANUSVARA", aliases: &[] },
        Codepoint { codepoint: 0x0C03, name: "TELUGU SIGN VISARGA", aliases: &[] },
        Codepoint { codepoint: 0x0C04, name: "TELUGU SIGN COMBINING ANUSVARA ABOVE", aliases: &[] },
        Codepoint { codepoint: 0x0C05, name: "TELUGU LETTER A", aliases: &[] },
        Codepoint { codepoint: 0x0C06, name: "TELUGU LETTER AA", aliases: &[] },
        Codepoint { codepoint: 0x0C07, name: "TELUGU LETTER I", aliases: &[] },
        Codepoint { codepoint: 0x0C08, name: "TELUGU LETTER II", aliases: &[] },
        Codepoint { codepoint: 0x0C09, name: "TELUGU LETTER U", aliases: &[] },
        Codepoint { codepoint: 0x0C0A, name: "TELUGU LETTER UU", aliases: &[] },
        Codepoint { codepoint: 0x0C0B, name: "TELUGU LETTER VOCALIC R", aliases: &[] },
        Codepoint { codepoint: 0x0C0C, name: "TELUGU LETTER VOCALIC L", aliases: &[] },
    ]
}

fn all_codepoints_69() -> (v: Vec<Codepoint>)
    ensures
        v@ == codepoint_table_69(),
{
    let v = vec![
        Codepoint { codepoint: 0x0BCA, name: "TAMIL VOWEL SIGN O", aliases: &[] },
        Codepoint { codepoint: 0x0BCB, name: "TAMIL VOWEL SIGN OO", aliases: &[] },
        Codepoint { codepoint: 0x0BCC, name: "TAMIL VOWEL SIGN AU", aliases: &[] },
        Codepoint { codepoint: 0x0BCD, name: "TAMIL SIGN VIRAMA", aliases: &[] },
        Codepoint { codepoint: 0x0BD0, name: "TAMIL OM", aliases: &[] },
        Codepoint { codepoint: 0x0BD7, name: "TAMIL AU LENGTH MARK", aliases: &[] },
        Codepoint { codepoint: 0x0BE6, name: "TAMIL DIGIT ZERO", aliases: &[] },
        Codepoint { codepoint: 0x0BE7, name: "TAMIL DIGIT ONE", aliases: &[] },
        Codepoint { codepoint: 0x0BE8, name: "TAMIL DIGIT TWO", aliases: &[] },
        Codepoint { codepoint: 0x0BE9, name: "TAMIL DIGIT THREE", aliases: &[] },
        Codepoint { codepoint: 0x0BEA, name: "TAMIL DIGIT FOUR", aliases: &[] },
        Codepoint { codepoint: 0x0BEB, name: "TAMIL DIGIT FIVE", aliases: &[] },
        Codepoint { codepoint: 0x0BEC, name: "TAMIL DIGIT SIX", aliases: &[] },
        Codepoint { codepoint: 0x0BED, name: "TAMIL DIGIT SEVEN", aliases: &[] },
        Codepoint { codepoint: 0x0BEE, name: "TAMIL DIGIT EIGHT", aliases: &[] },
        Codepoint { codepoint: 0x0BEF, name: "TAMIL DIGIT NINE", aliases: &[] },
        Codepoint { codepoint: 0x0BF0, name: "TAMIL NUMBER TEN", aliases: &[] },
        Codepoint { codepoint: 0x0BF1, name: "TAMIL NUMBER ONE HUNDRED", aliases: &[] },
        Codepoint { codepoint: 0x0BF2, name: "TAMIL NUMBER ONE THOUSAND", aliases: &[] },
        Codepoint { codepoint: 0x0BF3, name: "TAMIL DAY SIGN", aliases: &[] },
        Codepoint { codepoint: 0x0BF4, name: "TAMIL MONTH SIGN", aliases: &[] },
        Codepoint { codepoint: 0x0BF5, name: "TAMIL YEAR SIGN", aliases: &[] },
        Codepoint { codepoint: 0x0BF6, name: "TAMIL DEBIT SIGN", aliases: &[] },
        Codepoint { codepoint: 0x0BF7, name: "TAMIL CREDIT SIGN", aliases: &[] },
        Codepoint { codepoint: 0x0BF8, name: "TAMIL AS ABOVE SIGN", aliases: &[] },
        Codepoint { codepoint: 0x0BF9, name: "TAMIL RUPEE SIGN", aliases: &[] },
        Codepoint { codepoint: 0x0BFA, name: "TAMIL NUMBER SIGN", aliases: &[] },
        Codepoint { codepoint: 0x0C00, name: "TELUGU SIGN COMBINING CANDRABINDU ABOVE", aliases: &[] },
        Codepoint { codepoint: 0x0C01, name: "TELUGU SIGN CANDRABINDU", aliases: &[] },
        Codepoint { codepoint: 0x0C02, name: "TELUGU SIGN ANUSVARA", aliases: &[] },
        Codepoint { codepoint: 0x0C03, name: "TELUGU SIGN VISARGA", aliases: &[] },
        Codepoint { codepoint: 0x0C04, name: "TELUGU SIGN COMBINING ANUSVARA ABOVE", aliases: &[] },
        Codepoint { codepoint: 0x0C05, name: "TELUGU LETTER A", aliases: &[] },
        Codepoint { codepoint: 0x0C06, name: "TELUGU LETTER AA", aliases: &[] },
        Codepoint { codepoint: 0x0C07, name: "TELUGU LETTER I", aliases: &[] },
        Codepoint { codepoint: 0x0C08, name: "TELUGU LETTER II", aliases: &[] },
        Codepoint { codepoint: 0x0C09, name: "TELUGU LETTER U", aliases: &[] },
        Codepoint { codepoint: 0x0C0A, name: "TELUGU LETTER UU", aliases: &[] },
        Codepoint { codepoint: 0x0C0B, name: "TELUGU LETTER VOCALIC R", aliases: &[] },
        Codepoint { codepoint: 0x0C0C, name: "TELUGU LETTER VOCALIC L", aliases: &[] },
    ];
    assert(v@ =~= codepoint_table_69());
    v
}

pub open spec fn codepoint_table_70() -> Seq<Codepoint> {
    seq![
        Codepoint { codepoint: 0x0C0E, name: "TELUGU LETTER E", aliases: &[] },
        Codepoint { codepoint: 0x0C0F, name: "TELUGU LETTER EE", aliases: &[] },
        Codepoint { codepoint: 0x0C10, name: "TELUGU LETTER AI", aliases: &[] },
        Codepoint { codepoint: 0x0C12, name: "TELUGU LETTER O", aliases: &[] },
        Codepoint { codepoint: 0x0C13, name: "TELUGU LETTER OO", aliases: &[] },
        Codepoint { codepoint: 0x0C14, name: "TELUGU LETTER AU", aliases: &[] },
        Codepoint { codepoint: 0x0C15, name: "TELUGU LETTER KA", aliases: &[] },
        Codepoint { codepoint: 0x0C16, name: "TELUGU LETTER KHA", aliases: &[] },
        Codepoint { codepoint: 0x0C17, name: "TELUGU LETTER GA", aliases: &[] },
        Codepoint { codepoint: 0x0C18, name: "TELUGU LETTER GHA", aliases: &[] },
        Codepoint { codepoint: 0x0C19, name: "TELUGU LETTER NGA", aliases: &[] },
        Codepoint { codepoint: 0x0C1A, name: "TELUGU LETTER CA", aliases: &[] },
        Codepoint { codepoint: 0x0C1B, name: "TELUGU LETTER CHA", aliases: &[] },
        Codepoint { codepoint: 0x0C1C, name: "TELUGU LETTER JA", aliases: &[] },
        Codepoint { codepoint: 0x0C1D, name: "TELUGU LETTER JHA", aliases: &[] },
        Codepoint { codepoint: 0x0C1E, name: "TELUGU LETTER NYA", aliases: &[] },
        Codepoint { codepoint: 0x0C1F, name: "TELUGU LETTER TTA", aliases: &[] },
        Codepoint { codepoint: 0x0C20, name: "TELUGU LETTER TTHA", aliases: &[] },
        Codepoint { codepoint: 0x0C21, name: "TELUGU LETTER DDA", aliases: &[] },
        Codepoint { codepoint: 0x0C22, name: "TELUGU LETTER DDHA", aliases: &[] },
        Codepoint { codepoint: 0x0C23, name: "TELUGU LETTER NNA", aliases: &[] },
        Codepoint { codepoint: 0x0C24, name: "TELUGU LETTER TA", aliases: &[] },
        Codepoint { codepoint: 0x0C25, name: "TELUGU LETTER THA", aliases: &[] },
        Codepoint { codepoint: 0x0C26, name: "TELUGU LETTER DA", aliases: &[] },
        Codepoint { codepoint: 0x0C27, name: "TELUGU LETTER DHA", aliases: &[] },
        Codepoint { codepoint: 0x0C28, name: "TELUGU LETTER NA", aliases: &[] },
        Codepoint { codepoint: 0x0C2A, name: "TELUGU LETTER PA", aliases: &[] },
        Codepoint { codepoint: 0x0C2B, name: "TELUGU LETTER PHA", aliases: &[] },
        Codepoint { codepoint: 0x0C2C, name: "TELUGU LETTER BA", aliases: &[] },
        Codepoint { codepoint: 0x0C2D, name: "TELUGU LETTER BHA", aliases: &[] },
        Codepoint { codepoint: 0x0C2E, name: "TELUGU LETTER MA", aliases: &[] },
        Codepoint { codepoint: 0x0C2F, name: "TELUGU LETTER YA", aliases: &[] },
        Codepoint { codepoint: 0x0C30, name: "TELUGU LETTER RA", aliases: &[] },
        Codepoint { codepoint: 0x0C31, name: "TELUGU LETTER RRA", aliases: &[] },
        Codepoint { codepoint: 0x0C32, name: "TELUGU LETTER LA", aliases: &[] },
        Codepoint { codepoint: 0x0C33, name: "TELUGU LETTER LLA", aliases: &[] },
        Codepoint { codepoint: 0x0C34, name: "TELUGU LETTER LLLA", aliases: &[] },
        Codepoint { codepoint: 0x0C35, name: "TELUGU LETTER VA", aliases: &[] },
        Codepoint { codepoint: 0x0C36, name: "TELUGU LETTER SHA", aliases: &[] },
        Codepoint { codepoint: 0x0C37, name: "TELUGU LETTER SSA", aliases: &[] },
    ]
}

fn all_codepoints_70() -> (v: Vec<Codepoint>)
    ensures
        v@ == codepoint_table_70(),
{
    let v = vec![
        Codepoint { codepoint: 0x0C0E, name: "TELUGU LETTER E", aliases: &[] },
        Codepoint { codepoint: 0x0C0F, name: "TELUGU LETTER EE", aliases: &[] },
        Codepoint { codepoint: 0x0C10, name: "TELUGU LETTER AI", aliases: &[] },
        Codepoint { codepoint: 0x0C12, name: "TELUGU LETTER O", aliases: &[] },
        Codepoint { codepoint: 0x0C13, name: "TELUGU LETTER OO", aliases: &[] },
        Codepoint { codepoint: 0x0C14, name: "TELUGU LETTER AU", aliases: &[] },
        Codepoint { codepoint: 0x0C15, name: "TELUGU LETTER KA", aliases: &[] },
        Codepoint { codepoint: 0x0C16, name: "TELUGU LETTER KHA", aliases: &[] },
        Codepoint { codepoint: 0x0C17, name: "TELUGU LETTER GA", aliases: &[] },
        Codepoint { codepoint: 0x0C18, name: "TELUGU LETTER GHA", aliases: &[] },
        Codepoint { codepoint: 0x0C19, name: "TELUGU LETTER NGA", aliases: &[] },
        Codepoint { codepoint: 0x0C1A, name: "TELUGU LETTER CA", aliases: &[] },
        Codepoint { codepoint: 0x0C1B, name: "TELUGU LETTER CHA", aliases: &[] },
        Codepoint { codepoint: 0x0C1C, name: "TELUGU LETTER JA", aliases: &[] },
        Codepoint { codepoint: 0x0C1D, name: "TELUGU LETTER JHA", aliases: &[] },
        Codepoint { codepoint: 0x0C1E, name: "TELUGU LETTER NYA", aliases: &[] },
        Codepoint { codepoint: 0x0C1F, name: "TELUGU LETTER TTA", aliases: &[] },
        Codepoint { codepoint: 0x0C20, name: "TELUGU LETTER TTHA", aliases: &[] },
        Codepoint { codepoint: 0x0C21, name: "TELUGU LETTER DDA", aliases: &[] },
        Codepoint { codepoint: 0x0C22, name: "TELUGU LETTER DDHA", aliases: &[] },
        Codepoint { codepoint: 0x0C23, name: "TELUGU LETTER NNA", aliases: &[] },
        Codepoint { codepoint: 0x0C24, name: "TELUGU LETTER TA", aliases: &[] },
        Codepoint { codepoint: 0x0C25, name: "TELUGU LETTER THA", aliases: &[] },
        Codepoint { codepoint: 0x0C26, name: "TELUGU LETTER DA", aliases: &[] },
        Codepoint { codepoint: 0x0C27, name: "TELUGU LETTER DHA", aliases: &[] },
        Codepoint { codepoint: 0x0C28, name: "TELUGU LETTER NA", aliases: &[] },
        Codepoint { codepoint: 0x0C2A, name: "TELUGU LETTER PA", aliases: &[] },
        Codepoint { codepoint: 0x0C2B, name: "TELUGU LETTER PHA", aliases: &[] },
        Codepoint { codepoint: 0x0C2C, name: "TELUGU LETTER BA", aliases: &[] },
        Codepoint { codepoint: 0x0C2D, name: "TELUGU LETTER BHA", aliases: &[] },
        Codepoint { codepoint: 0x0C2E, name: "TELUGU LETTER MA", aliases: &[] },
        Codepoint { codepoint: 0x0C2F, name: "TELUGU LETTER YA", aliases: &[] },
        Codepoint { codepoint: 0x0C30, name: "TELUGU LETTER RA", aliases: &[] },
        Codepoint { codepoint: 0x0C31, name: "TELUGU LETTER RRA", aliases: &[] },
        Codepoint { codepoint: 0x0C32, name: "TELUGU LETTER LA", aliases: &[] },
        Codepoint { codepoint: 0x0C33, name: "TELUGU LETTER LLA", aliases: &[] },
        Codepoint { codepoint: 0x0C34, name: "TELUGU LETTER LLLA", aliases: &[] },
        Codepoint { codepoint: 0x0C35, name: "TELUGU LETTER VA", aliases: &[] },
        Codepoint { codepoint: 0x0C36, name: "TELUGU LETTER SHA", aliases: &[] },
        Codepoint { codepoint: 0x0C37, name: "TELUGU LETTER SSA", aliases: &[] },
    ];
    assert(v@ =~= codepoint_table_70());
    v
}

pub open spec fn codepoint_table_71() -> Seq<Codepoint> {
    seq![
        Codepoint { codepoint: 0x0C38, name: "TELUGU LETTER SA", aliases: &[] },
        Codepoint { codepoint: 0x0C39, name: "TELUGU LETTER HA", aliases: &[] },
        Codepoint { codepoint: 0x0C3C, name: "TELUGU SIGN NUKTA", aliases: &[] },
        Codepoint { codepoint: 0x0C3D, name: "TELUGU SIGN AVAGRAHA", aliases: &[] },
        Codepoint { codepoint: 0x0C3E, name: "TELUGU VOWEL SIGN AA", aliases: &[] },
        Codepoint { codepoint: 0x0C3F, name: "TELUGU VOWEL SIGN I", aliases: &[] },
        Codepoint { codepoint: 0x0C40, name: "TELUGU VOWEL SIGN II", aliases: &[] },
        Codepoint { codepoint: 0x0C41, name: "TELUGU VOWEL SIGN U", aliases: &[] },
        Codepoint { codepoint: 0x0C42, name: "TELUGU VOWEL SIGN UU", aliases: &[] },
        Codepoint { codepoint: 0x0C43, name: "TELUGU VOWEL SIGN VOCALIC R", aliases: &[] },
        Codepoint { codepoint: 0x0C44, name: "TELUGU VOWEL SIGN VOCALIC RR", aliases: &[] },
        Codepoint { codepoint: 0x0C46, name: "TELUGU VOWEL SIGN E", aliases: &[] },
        Codepoint { codepoint: 0x0C47, name: "TELUGU VOWEL SIGN EE", aliases: &[] },
        Codepoint { codepoint: 0x0C48, name: "TELUGU VOWEL SIGN AI", aliases: &[] },
        Codepoint { codepoint: 0x0C4A, name: "TELUGU VOWEL SIGN O", aliases: &[] },
        Codepoint { codepoint: 0x0C4B, name: "TELUGU VOWEL SIGN OO", aliases: &[] },
        Codepoint { codepoint: 0x0C4C, name: "TELUGU VOWEL SIGN AU", aliases: &[] },
        Codepoint { codepoint: 0x0C4D, name: "TELUGU SIGN VIRAMA", aliases: &[] },
        Codepoint { codepoint: 0x0C55, name: "TELUGU LENGTH MARK", aliases: &[] },
        Codepoint { codepoint: 0x0C56, name: "TELUGU AI LENGTH MARK", aliases: &[] },
        Codepoint { codepoint: 0x0C58, name: "TELUGU LETTER TSA", aliases: &[] },
        Codepoint { codepoint: 0x0C59, name: "TELUGU LETTER DZA", aliases: &[] },
        Codepoint { codepoint: 0x0C5A, name: "TELUGU LETTER RRRA", aliases: &[] },
        Codepoint { codepoint: 0x0C5D, name: "TELUGU LETTER NAKAARA POLLU", aliases: &[] },
        Codepoint { codepoint: 0x0C60, name: "TELUGU LETTER VOCALIC RR", aliases: &[] },
        Codepoint { codepoint: 0x0C61, name: "TELUGU LETTER VOCALIC LL", aliases: &[] },
        Codepoint { codepoint: 0x0C62, name: "TELUGU VOWEL SIGN VOCALIC L", aliases: &[] },
        Codepoint { codepoint: 0x0C63, name: "TELUGU VOWEL SIGN VOCALIC LL", aliases: &[] },
        Codepoint { codepoint: 0x0C66, name: "TELUGU DIGIT ZERO", aliases: &[] },
        Codepoint { codepoint: 0x0C67, name: "TELUGU DIGIT ONE", aliases: &[] },
        Codepoint { codepoint: 0x0C68, name: "TELUGU DIGIT TWO", aliases: &[] },
        Codepoint { codepoint: 0x0C69, name: "TELUGU DIGIT THREE", aliases: &[] },
        Codepoint { codepoint: 0x0C6A, name: "TELUGU DIGIT FOUR", aliases: &[] },
        Codepoint { codepoint: 0x0C6B, name: "TELUGU DIGIT FIVE", aliases: &[] },
        Codepoint { codepoint: 0x0C6C, name: "TELUGU DIGIT SIX", aliases: &[] },
        Codepoint { codepoint: 0x0C6D, name: "TELUGU DIGIT SEVEN", aliases: &[] },
        Codepoint { codepoint: 0x0C6E, name: "TELUGU DIGIT EIGHT", aliases: &[] },
        Codepoint { codepoint: 0x0C6F, name: "TELUGU DIGIT NINE", aliases: &[] },
        Codepoint { codepoint: 0x0C77, name: "TELUGU SIGN SIDDHAM", aliases: &[] },
        Codepoint { codepoint: 0x0C78, name: "TELUGU FRACTION DIGIT ZERO FOR ODD POWERS OF FOUR", aliases: &[] },
    ]
}

fn all_codepoints_71() -> (v: Vec<Codepoint>)
    ensures
        v@ == codepoint_table_71(),
{
    let v = vec![
        Codepoint { codepoint: 0x0C38, name: "TELUGU LETTER SA", aliases: &[] },
        Codepoint { codepoint: 0x0C39, name: "TELUGU LETTER HA", aliases: &[] },
        Codepoint { codepoint: 0x0C3C, name: "TELUGU SIGN NUKTA", aliases: &[] },
        Codepoint { codepoint: 0x0C3D, name: "TELUGU SIGN AVAGRAHA", aliases: &[] },
        Codepoint { codepoint: 0x0C3E, name: "TELUGU VOWEL SIGN AA", aliases: &[] },
        Codepoint { codepoint: 0x0C3F, name: "TELUGU VOWEL SIGN I", aliases: &[] },
        Codepoint { codepoint: 0x0C40, name: "TELUGU VOWEL SIGN II", aliases: &[] },
        Codepoint { codepoint: 0x0C41, name: "TELUGU VOWEL SIGN U", aliases: &[] },
        Codepoint { codepoint: 0x0C42, name: "TELUGU VOWEL SIGN UU", aliases: &[] },
        Codepoint { codepoint: 0x0C43, name: "TELUGU VOWEL SIGN VOCALIC R", aliases: &[] },
        Codepoint { codepoint: 0x0C44, name: "TELUGU VOWEL SIGN VOCALIC RR", aliases: &[] },
        Codepoint { codepoint: 0x0C46, name: "TELUGU VOWEL SIGN E", aliases: &[] },
        Codepoint { codepoint: 0x0C47, name: "TELUGU VOWEL SIGN EE", aliases: &[] },
        Codepoint { codepoint: 0x0C48, name: "TELUGU VOWEL SIGN AI", aliases: &[] },
        Codepoint { codepoint: 0x0C4A, name: "TELUGU VOWEL SIGN O", aliases: &[] },
        Codepoint { codepoint: 0x0C4B, name: "TELUGU VOWEL SIGN OO", aliases: &[] },
        Codepoint { codepoint: 0x0C4C, name: "TELUGU VOWEL SIGN AU", aliases: &[] },
        Codepoint { codepoint: 0x0C4D, name: "TELUGU SIGN VIRAMA", aliases: &[] },
        Codepoint { codepoint: 0x0C55, name: "TELUGU LENGTH MARK", aliases: &[] },
        Codepoint { codepoint: 0x0C56, name: "TELUGU AI LENGTH MARK", aliases: &[] },
        Codepoint { codepoint: 0x0C58, name: "TELUGU LETTER TSA", aliases: &[] },
        Codepoint { codepoint: 0x0C59, name: "TELUGU LETTER DZA", aliases: &[] },
        Codepoint { codepoint: 0x0C5A, name: "TELUGU LETTER RRRA", aliases: &[] },
        Codepoint { codepoint: 0x0C5D, name: "TELUGU LETTER NAKAARA POLLU", aliases: &[] },
        Codepoint { codepoint: 0x0C60, name: "TELUGU LETTER VOCALIC RR", aliases: &[] },
        Codepoint { codepoint: 0x0C61, name: "TELUGU LETTER VOCALIC LL", aliases: &[] },
        Codepoint { codepoint: 0x0C62, name: "TELUGU VOWEL SIGN VOCALIC L", aliases: &[] },
        Codepoint { codepoint: 0x0C63, name: "TELUGU VOWEL SIGN VOCALIC LL", aliases: &[] },
        Codepoint { codepoint: 0x0C66, name: "TELUGU DIGIT ZERO", aliases: &[] },
        Codepoint { codepoint: 0x0C67, name: "TELUGU DIGIT ONE", aliases: &[] },
        Codepoint { codepoint: 0x0C68, name: "TELUGU DIGIT TWO", aliases: &[] },
        Codepoint { codepoint: 0x0C69, name: "TELUGU DIGIT THREE", aliases: &[] },
        Codepoint { codepoint: 0x0C6A, name: "TELUGU DIGIT FOUR", aliases: &[] },
        Codepoint { codepoint: 0x0C6B, name: "TELUGU DIGIT FIVE", aliases: &[] },
        Codepoint { codepoint: 0x0C6C, name: "TELUGU DIGIT SIX", aliases: &[] },
        Codepoint { codepoint: 0x0C6D, name: "TELUGU DIGIT SEVEN", aliases: &[] },
        Codepoint { codepoint: 0x0C6E, name: "TELUGU DIGIT EIGHT", aliases: &[] },
        Codepoint { codepoint: 0x0C6F, name: "TELUGU DIGIT NINE", aliases: &[] },
        Codepoint { codepoint: 0x0C77, name: "TELUGU SIGN SIDDHAM", aliases: &[] },
        Codepoint { codepoint: 0x0C78, name: "TELUGU FRACTION DIGIT ZERO FOR ODD POWERS OF FOUR", aliases: &[] },
    ];
    assert(v@ =~= codepoint_table_71());
    v
}

pub open spec fn codepoint_table_72() -> Seq<Codepoint> {
    seq![
        Codepoint { codepoint: 0x0C79, name: "TELUGU FRACTION DIGIT ONE FOR ODD POWERS OF FOUR", aliases: &[] },
        Codepoint { codepoint: 0x0C7A, name: "TELUGU FRACTION DIGIT TWO FOR ODD POWERS OF FOUR", aliases: &[] },
        Codepoint { codepoint: 0x0C7B, name: "TELUGU FRACTION DIGIT THREE FOR ODD POWERS OF FOUR", aliases: &[] },
        Codepoint { codepoint: 0x0C7C, name: "TELUGU FRACTION DIGIT ONE FOR EVEN POWERS OF FOUR", aliases: &[] },
        Codepoint { codepoint: 0x0C7D, name: "TELUGU FRACTION DIGIT TWO FOR EVEN POWERS OF FOUR", aliases: &[] },
        Codepoint { codepoint: 0x0C7E, name: "TELUGU FRACTION DIGIT THREE FOR EVEN POWERS OF FOUR", aliases: &[] },
        Codepoint { codepoint: 0x0C7F, name: "TELUGU SIGN TUUMU", aliases: &[] },
        Codepoint { codepoint: 0x0C80, name: "KANNADA SIGN SPACING CANDRABINDU", aliases: &[] },
        Codepoint { codepoint: 0x0C81, name: "KANNADA SIGN CANDRABINDU", aliases: &[] },
        Codepoint { codepoint: 0x0C82, name: "KANNADA SIGN ANUSVARA", aliases: &[] },
        Codepoint { codepoint: 0x0C83, name: "KANNADA SIGN VISARGA", aliases: &[] },
        Codepoint { codepoint: 0x0C84, name: "KANNADA SIGN SIDDHAM", aliases: &[] },
        Codepoint { codepoint: 0x0C85, name: "KANNADA LETTER A", aliases: &[] },
        Codepoint { codepoint: 0x0C86, name: "KANNADA LETTER AA", aliases: &[] },
        Codepoint { codepoint: 0x0C87, name: "KANNADA LETTER I", aliases: &[] },
        Codepoint { codepoint: 0x0C88, name: "KANNADA LETTER II", aliases: &[] },
        Codepoint { codepoint: 0x0C89, name: "KANNADA LETTER U", aliases: &[] },
        Codepoint { codepoint: 0x0C8A, name: "KANNADA LETTER UU", aliases: &[] },
        Codepoint { codepoint: 0x0C8B, name: "KANNADA LETTER VOCALIC R", aliases: &[] },
        Codepoint { codepoint: 0x0C8C, name: "KANNADA LETTER VOCALIC L", aliases: &[] },
        Codepoint { codepoint: 0x0C8E, name: "KANNADA LETTER E", aliases: &[] },
        Codepoint { codepoint: 0x0C8F, name: "KANNADA LETTER EE", aliases: &[] },
        Codepoint { codepoint: 0x0C90, name: "KANNADA LETTER AI", aliases: &[] },
        Codepoint { codepoint: 0x0C92, name: "KANNADA LETTER O", aliases: &[] },
        Codepoint { codepoint: 0x0C93, name: "KANNADA LETTER OO", aliases: &[] },
        Codepoint { codepoint: 0x0C94, name: "KANNADA LETTER AU", aliases: &[] },
        Codepoint { codepoint: 0x0C95, name: "KANNADA LETTER KA", aliases: &[] },
        Codepoint { codepoint: 0x0C96, name: "KANNADA LETTER KHA", aliases: &[] },
        Codepoint { codepoint: 0x0C97, name: "KANNADA LETTER GA", aliases: &[] },
        Codepoint { codepoint: 0x0C98, name: "KANNADA LETTER GHA", aliases: &[] },
        Codepoint { codepoint: 0x0C99, name: "KANNADA LETTER NGA", aliases: &[] },
        Codepoint { codepoint: 0x0C9A, name: "KANNADA LETTER CA", aliases: &[] },
        Codepoint { codepoint: 0x0C9B, name: "KANNADA LETTER CHA", aliases: &[] },
        Codepoint { codepoint: 0x0C9C, name: "KANNADA LETTER JA", aliases: &[] },
        Codepoint { codepoint: 0x0C9D, name: "KANNADA LETTER JHA", aliases: &[] },
        Codepoint { codepoint: 0x0C9E, name: "KANNADA LETTER NYA", aliases: &[] },
        Codepoint { codepoint: 0x0C9F, name: "KANNADA LETTER TTA", aliases: &[] },
        Codepoint { codepoint: 0x0CA0, name: "KANNADA LETTER TTHA", aliases: &[] },
        Codepoint { codepoint: 0x0CA1, name: "KANNADA LETTER DDA", aliases: &[] },
        Codepoint { codepoint: 0x0CA2, name: "KANNADA LETTER DDHA", aliases: &[] },
    ]
}

fn all_codepoints_72() -> (v: Vec<Codepoint>)
    ensures
        v@ == codepoint_table_72(),
{
    let v = vec![
        Codepoint { codepoint: 0x0C79, name: "TELUGU FRACTION DIGIT ONE FOR ODD POWERS OF FOUR", aliases: &[] },
        Codepoint { codepoint: 0x0C7A, name: "TELUGU FRACTION DIGIT TWO FOR ODD POWERS OF FOUR", aliases: &[] },
        Codepoint { codepoint: 0x0C7B, name: "TELUGU FRACTION DIGIT THREE FOR ODD POWERS OF FOUR", aliases: &[] },
        Codepoint { codepoint: 0x0C7C, name: "TELUGU FRACTION DIGIT ONE FOR EVEN POWERS OF FOUR", aliases: &[] },
        Codepoint { codepoint: 0x0C7D, name: "TELUGU FRACTION DIGIT TWO FOR EVEN POWERS OF FOUR", aliases: &[] },
        Codepoint { codepoint: 0x0C7E, name: "TELUGU FRACTION DIGIT THREE FOR EVEN POWERS OF FOUR", aliases: &[] },
        Codepoint { codepoint: 0x0C7F, name: "TELUGU SIGN TUUMU", aliases: &[] },
        Codepoint { codepoint: 0x0C80, name: "KANNADA SIGN SPACING CANDRABINDU", aliases: &[] },
        Codepoint { codepoint: 0x0C81, name: "KANNADA SIGN CANDRABINDU", aliases: &[] },
        Codepoint { codepoint: 0x0C82, name: "KANNADA SIGN ANUSVARA", aliases: &[] },
        Codepoint { codepoint: 0x0C83, name: "KANNADA SIGN VISARGA", aliases: &[] },
        Codepoint { codepoint: 0x0C84, name: "KANNADA SIGN SIDDHAM", aliases: &[] },
        Codepoint { codepoint: 0x0C85, name: "KANNADA LETTER A", aliases: &[] },
        Codepoint { codepoint: 0x0C86, name: "KANNADA LETTER AA", aliases: &[] },
        Codepoint { codepoint: 0x0C87, name: "KANNADA LETTER I", aliases: &[] },
        Codepoint { codepoint: 0x0C88, name: "KANNADA LETTER II", aliases: &[] },
        Codepoint { codepoint: 0x0C89, name: "KANNADA LETTER U", aliases: &[] },
        Codepoint { codepoint: 0x0C8A, name: "KANNADA LETTER UU", aliases: &[] },
        Codepoint { codepoint: 0x0C8B, name: "KANNADA LETTER VOCALIC R", aliases: &[] },
        Codepoint { codepoint: 0x0C8C, name: "KANNADA LETTER VOCALIC L", aliases: &[] },
        Codepoint { codepoint: 0x0C8E, name: "KANNADA LETTER E", aliases: &[] },
        Codepoint { codepoint: 0x0C8F, name: "KANNADA LETTER EE", aliases: &[] },
        Codepoint { codepoint: 0x0C90, name: "KANNADA LETTER AI", aliases: &[] },
        Codepoint { codepoint: 0x0C92, name: "KANNADA LETTER O", aliases: &[] },
        Codepoint { codepoint: 0x0C93, name: "KANNADA LETTER OO", aliases: &[] },
        Codepoint { codepoint: 0x0C94, name: "KANNADA LETTER AU", aliases: &[] },
        Codepoint { codepoint: 0x0C95, name: "KANNADA LETTER KA", aliases: &[] },
        Codepoint { codepoint: 0x0C96, name: "KANNADA LETTER KHA", aliases: &[] },
        Codepoint { codepoint: 0x0C97, name: "KANNADA LETTER GA", aliases: &[] },
        Codepoint { codepoint: 0x0C98, name: "KANNADA LETTER GHA", aliases: &[] },
        Codepoint { codepoint: 0x0C99, name: "KANNADA LETTER NGA", aliases: &[] },
        Codepoint { codepoint: 0x0C9A, name: "KANNADA LETTER CA", aliases: &[] },
        Codepoint { codepoint: 0x0C9B, name: "KANNADA LETTER CHA", aliases: &[] },
        Codepoint { codepoint: 0x0C9C, name: "KANNADA LETTER JA", aliases: &[] },
        Codepoint { codepoint: 0x0C9D, name: "KANNADA LETTER JHA", aliases: &[] },
        Codepoint { codepoint: 0x0C9E, name: "KANNADA LETTER NYA", aliases: &[] },
        Codepoint { codepoint: 0x0C9F, name: "KANNADA LETTER TTA", aliases: &[] },
        Codepoint { codepoint: 0x0CA0, name: "KANNADA LETTER TTHA", aliases: &[] },
        Codepoint { codepoint: 0x0CA1, name: "KANNADA LETTER DDA", aliases: &[] },
        Codepoint { codepoint: 0x0CA2, name: "KANNADA LETTER DDHA", aliases: &[] },
    ];
    assert(v@ =~= codepoint_table_72());
    v
}

pub open spec fn codepoint_table_73() -> Seq<Codepoint> {
    seq![
        Codepoint { codepoint: 0x0CA3, name: "KANNADA LETTER NNA", aliases: &[] },
        Codepoint { codepoint: 0x0CA4, name: "KANNADA LETTER TA", aliases: &[] },
        Codepoint { codepoint: 0x0CA5, name: "KANNADA LETTER THA", aliases: &[] },
        Codepoint { codepoint: 0x0CA6, name: "KANNADA LETTER DA", aliases: &[] },
        Codepoint { codepoint: 0x0CA7, name: "KANNADA LETTER DHA", aliases: &[] },
        Codepoint { codepoint: 0x0CA8, name: "KANNADA LETTER NA", aliases: &[] },
        Codepoint { codepoint: 0x0CAA, name: "KANNADA LETTER PA", aliases: &[] },
        Codepoint { codepoint: 0x0CAB, name: "KANNADA LETTER PHA", aliases: &[] },
        Codepoint { codepoint: 0x0CAC, name: "KANNADA LETTER BA", aliases: &[] },
        Codepoint { codepoint: 0x0CAD, name: "KANNADA LETTER BHA", aliases: &[] },
        Codepoint { codepoint: 0x0CAE, name: "KANNADA LETTER MA", aliases: &[] },
        Codepoint { codepoint: 0x0CAF, name: "KANNADA LETTER YA", aliases: &[] },
        Codepoint { codepoint: 0x0CB0, name: "KANNADA LETTER RA", aliases: &[] },
        Codepoint { codepoint: 0x0CB1, name: "KANNADA LETTER RRA", aliases: &[] },
        Codepoint { codepoint: 0x0CB2, name: "KANNADA LETTER LA", aliases: &[] },
        Codepoint { codepoint: 0x0CB3, name: "KANNADA LETTER LLA", aliases: &[] },
        Codepoint { codepoint: 0x0CB5, name: "KANNADA LETTER VA", aliases: &[] },
        Codepoint { codepoint: 0x0CB6, name: "KANNADA LETTER SHA", aliases: &[] },
        Codepoint { codepoint: 0x0CB7, name: "KANNADA LETTER SSA", aliases: &[] },
        Codepoint { codepoint: 0x0CB8, name: "KANNADA LETTER SA", aliases: &[] },
        Codepoint { codepoint: 0x0CB9, name: "KANNADA LETTER HA", aliases: &[] },
        Codepoint { codepoint: 0x0CBC, name: "KANNADA SIGN NUKTA", aliases: &[] },
        Codepoint { codepoint: 0x0CBD, name: "KANNADA SIGN AVAGRAHA", aliases: &[] },
        Codepoint { codepoint: 0x0CBE, name: "KANNADA VOWEL SIGN AA", aliases: &[] },
        Codepoint { codepoint: 0x0CBF, name: "KANNADA VOWEL SIGN I", aliases: &[] },
        Codepoint { codepoint: 0x0CC0, name: "KANNADA VOWEL SIGN II", aliases: &[] },
        Codepoint { codepoint: 0x0CC1, name: "KANNADA VOWEL SIGN U", aliases: &[] },
        Codepoint { codepoint: 0x0CC2, name: "KANNADA VOWEL SIGN UU", aliases: &[] },
        Codepoint { codepoint: 0x0CC3, name: "KANNADA VOWEL SIGN VOCALIC R", aliases: &[] },
        Codepoint { codepoint: 0x0CC4, name: "KANNADA VOWEL SIGN VOCALIC RR", aliases: &[] },
        Codepoint { codepoint: 0x0CC6, name: "KANNADA VOWEL SIGN E", aliases: &[] },
        Codepoint { codepoint: 0x0CC7, name: "KANNADA VOWEL SIGN EE", aliases: &[] },
        Codepoint { codepoint: 0x0CC8, name: "KANNADA VOWEL SIGN AI", aliases: &[] },
        Codepoint { codepoint: 0x0CCA, name: "KANNADA VOWEL SIGN O", aliases: &[] },
        Codepoint { codepoint: 0x0CCB, name: "KANNADA VOWEL SIGN OO", aliases: &[] },
        Codepoint { codepoint: 0x0CCC, name: "KANNADA VOWEL SIGN AU", aliases: &[] },
        Codepoint { codepoint: 0x0CCD, name: "KANNADA SIGN VIRAMA", aliases: &[] },
        Codepoint { codepoint: 0x0CD5, name: "KANNADA LENGTH MARK", aliases: &[] },
        Codepoint { codepoint: 0x0CD6, name: "KANNADA AI LENGTH MARK", aliases: &[] },
        Codepoint { codepoint: 0x0CDD, name: "KANNADA LETTER NAKAARA POLLU", aliases: &[] },
    ]
}

fn all_codepoints_73() -> (v: Vec<Codepoint>)
    ensures
        v@ == codepoint_table_73(),
{
    let v = vec![
        Codepoint { codepoint: 0x0CA3, name: "KANNADA LETTER NNA", aliases: &[] },
        Codepoint { codepoint: 0x0CA4, name: "KANNADA LETTER TA", aliases: &[] },
        Codepoint { codepoint: 0x0CA5, name: "KANNADA LETTER THA", aliases: &[] },
        Codepoint { codepoint: 0x0CA6, name: "KANNADA LETTER DA", aliases: &[] },
        Codepoint { codepoint: 0x0CA7, name: "KANNADA LETTER DHA", aliases: &[] },
        Codepoint { codepoint: 0x0CA8, name: "KANNADA LETTER NA", aliases: &[] },
        Codepoint { codepoint: 0x0CAA, name: "KANNADA LETTER PA", aliases: &[] },
        Codepoint { codepoint: 0x0CAB, name: "KANNADA LETTER PHA", aliases: &[] },
        Codepoint { codepoint: 0x0CAC, name: "KANNADA LETTER BA", aliases: &[] },
        Codepoint { codepoint: 0x0CAD, name: "KANNADA LETTER BHA", aliases: &[] },
        Codepoint { codepoint: 0x0CAE, name: "KANNADA LETTER MA", aliases: &[] },
        Codepoint { codepoint: 0x0CAF, name: "KANNADA LETTER YA", aliases: &[] },
        Codepoint { codepoint: 0x0CB0, name: "KANNADA LETTER RA", aliases: &[] },
        Codepoint { codepoint: 0x0CB1, name: "KANNADA LETTER RRA", aliases: &[] },
        Codepoint { codepoint: 0x0CB2, name: "KANNADA LETTER LA", aliases: &[] },
        Codepoint { codepoint: 0x0CB3, name: "KANNADA LETTER LLA", aliases: &[] },
        Codepoint { codepoint: 0x0CB5, name: "KANNADA LETTER VA", aliases: &[] },
        Codepoint { codepoint: 0x0CB6, name: "KANNADA LETTER SHA", aliases: &[] },
        Codepoint { codepoint: 0x0CB7, name: "KANNADA LETTER SSA", aliases: &[] },
        Codepoint { codepoint: 0x0CB8, name: "KANNADA LETTER SA", aliases: &[] },
        Codepoint { codepoint: 0x0CB9, name: "KANNADA LETTER HA", aliases: &[] },
        Codepoint { codepoint: 0x0CBC, name: "KANNADA SIGN NUKTA", aliases: &[] },
        Codepoint { codepoint: 0x0CBD, name: "KANNADA SIGN AVAGRAHA", aliases: &[] },
        Codepoint { codepoint: 0x0CBE, name: "KANNADA VOWEL SIGN AA", aliases: &[] },
        Codepoint { codepoint: 0x0CBF, name: "KANNADA VOWEL SIGN I", aliases: &[] },
        Codepoint { codepoint: 0x0CC0, name: "KANNADA VOWEL SIGN II", aliases: &[] },
        Codepoint { codepoint: 0x0CC1, name: "KANNADA VOWEL SIGN U", aliases: &[] },
        Codepoint { codepoint: 0x0CC2, name: "KANNADA VOWEL SIGN UU", aliases: &[] },
        Codepoint { codepoint: 0x0CC3, name: "KANNADA VOWEL SIGN VOCALIC R", aliases: &[] },
        Codepoint { codepoint: 0x0CC4, name: "KANNADA VOWEL SIGN VOCALIC RR", aliases: &[] },
        Codepoint { codepoint: 0x0CC6, name: "KANNADA VOWEL SIGN E", aliases: &[] },
        Codepoint { codepoint: 0x0CC7, name: "KANNADA VOWEL SIGN EE", aliases: &[] },
        Codepoint { codepoint: 0x0CC8, name: "KANNADA VOWEL SIGN AI", aliases: &[] },
        Codepoint { codepoint: 0x0CCA, name: "KANNADA VOWEL SIGN O", aliases: &[] },
        Codepoint { codepoint: 0x0CCB, name: "KANNADA VOWEL SIGN OO", aliases: &[] },
        Codepoint { codepoint: 0x0CCC, name: "KANNADA VOWEL SIGN AU", aliases: &[] },
        Codepoint { codepoint: 0x0CCD, name: "KANNADA SIGN VIRAMA", aliases: &[] },
        Codepoint { codepoint: 0x0CD5, name: "KANNADA LENGTH MARK", aliases: &[] },
        Codepoint { codepoint: 0x0CD6, name: "KANNADA AI LENGTH MARK", aliases: &[] },
        Codepoint { codepoint: 0x0CDD, name: "KANNADA LETTER NAKAARA POLLU", aliases: &[] },
    ];
    assert(v@ =~= codepoint_table_73());
    v
}

pub open spec fn codepoint_table_74() -> Seq<Codepoint> {
    seq![
        Codepoint { codepoint: 0x0CDE, name: "KANNADA LETTER FA", aliases: &[] },
        Codepoint { codepoint: 0x0CE0, name: "KANNADA LETTER VOCALIC RR", aliases: &[] },
        Codepoint { codepoint: 0x0CE1, name: "KANNADA LETTER VOCALIC LL", aliases: &[] },
        Codepoint { codepoint: 0x0CE2, name: "KANNADA VOWEL SIGN VOCALIC L", aliases: &[] },
        Codepoint { codepoint: 0x0CE3, name: "KANNADA VOWEL SIGN VOCALIC LL", aliases: &[] },
        Codepoint { codepoint: 0x0CE6, name: "KANNADA DIGIT ZERO", aliases: &[] },
        Codepoint { codepoint: 0x0CE7, name: "KANNADA DIGIT ONE", aliases: &[] },
        Codepoint { codepoint: 0x0CE8, name: "KANNADA DIGIT TWO", aliases: &[] },
        Codepoint { codepoint: 0x0CE9, name: "KANNADA DIGIT THREE", aliases: &[] },
        Codepoint { codepoint: 0x0CEA, name: "KANNADA DIGIT FOUR", aliases: &[] },
        Codepoint { codepoint: 0x0CEB, name: "KANNADA DIGIT FIVE", aliases: &[] },
        Codepoint { codepoint: 0x0CEC, name: "KANNADA DIGIT SIX", aliases: &[] },
        Codepoint { codepoint: 0x0CED, name: "KANNADA DIGIT SEVEN", aliases: &[] },
        Codepoint { codepoint: 0x0CEE, name: "KANNADA DIGIT EIGHT", aliases: &[] },
        Codepoint { codepoint: 0x0CEF, name: "KANNADA DIGIT NINE", aliases: &[] },
        Codepoint { codepoint: 0x0CF1, name: "KANNADA SIGN JIHVAMULIYA", aliases: &[] },
        Codepoint { codepoint: 0x0CF2, name: "KANNADA SIGN UPADHMANIYA", aliases: &[] },
        Codepoint { codepoint: 0x0D00, name: "MALAYALAM SIGN COMBINING ANUSVARA ABOVE", aliases: &[] },
        Codepoint { codepoint: 0x0D01, name: "MALAYALAM SIGN CANDRABINDU", aliases: &[] },
        Codepoint { codepoint: 0x0D02, name: "MALAYALAM SIGN ANUSVARA", aliases: &[] },
        Codepoint { codepoint: 0x0D03, name: "MALAYALAM SIGN VISARGA", aliases: &[] },
        Codepoint { codepoint: 0x0D04, name: "MALAYALAM LETTER VEDIC ANUSVARA", aliases: &[] },
        Codepoint { codepoint: 0x0D05, name: "MALAYALAM LETTER A", aliases: &[] },
        Codepoint { codepoint: 0x0D06, name: "MALAYALAM LETTER AA", aliases: &[] },
        Codepoint { codepoint: 0x0D07, name: "MALAYALAM LETTER I", aliases: &[] },
        Codepoint { codepoint: 0x0D08, name: "MALAYALAM LETTER II", aliases: &[] },
        Codepoint { codepoint: 0x0D09, name: "MALAYALAM LETTER U", aliases: &[] },
        Codepoint { codepoint: 0x0D0A, name: "MALAYALAM LETTER UU", aliases: &[] },
        Codepoint { codepoint: 0x0D0B, name: "MALAYALAM LETTER VOCALIC R", aliases: &[] },
        Codepoint { codepoint: 0x0D0C, name: "MALAYALAM LETTER VOCALIC L", aliases: &[] },
        Codepoint { codepoint: 0x0D0E, name: "MALAYALAM LETTER E", aliases: &[] },
        Codepoint { codepoint: 0x0D0F, name: "MALAYALAM LETTER EE", aliases: &[] },
        Codepoint { codepoint: 0x0D10, name: "MALAYALAM LETTER AI", aliases: &[] },
        Codepoint { codepoint: 0x0D12, name: "MALAYALAM LETTER O", aliases: &[] },
        Codepoint { codepoint: 0x0D13, name: "MALAYALAM LETTER OO", aliases: &[] },
        Codepoint { codepoint: 0x0D14, name: "MALAYALAM LETTER AU", aliases: &[] },
        Codepoint { codepoint: 0x0D15, name: "MALAYALAM LETTER KA", aliases: &[] },
        Codepoint { codepoint: 0x0D16, name: "MALAYALAM LETTER KHA", aliases: &[] },
        Codepoint { codepoint: 0x0D17, name: "MALAYALAM LETTER GA", aliases: &[] },
        Codepoint { codepoint: 0x0D18, name: "MALAYALAM LETTER GHA", aliases: &[] },
    ]
}

fn all_codepoints_74() -> (v: Vec<Codepoint>)
    ensures
        v@ == codepoint_table_74(),
{
    let v = vec![
        Codepoint { codepoint: 0x0CDE, name: "KANNADA LETTER FA", aliases: &[] },
        Codepoint { codepoint: 0x0CE0, name: "KANNADA LETTER VOCALIC RR", aliases: &[] },
        Codepoint { codepoint: 0x0CE1, name: "KANNADA LETTER VOCALIC LL", aliases: &[] },
        Codepoint { codepoint: 0x0CE2, name: "KANNADA VOWEL SIGN VOCALIC L", aliases: &[] },
        Codepoint { codepoint: 0x0CE3, name: "KANNADA VOWEL SIGN VOCALIC LL", aliases: &[] },
        Codepoint { codepoint: 0x0CE6, name: "KANNADA DIGIT ZERO", aliases: &[] },
        Codepoint { codepoint: 0x0CE7, name: "KANNADA DIGIT ONE", aliases: &[] },
        Codepoint { codepoint: 0x0CE8, name: "KANNADA DIGIT TWO", aliases: &[] },
        Codepoint { codepoint: 0x0CE9, name: "KANNADA DIGIT THREE", aliases: &[] },
        Codepoint { codepoint: 0x0CEA, name: "KANNADA DIGIT FOUR", aliases: &[] },
        Codepoint { codepoint: 0x0CEB, name: "KANNADA DIGIT FIVE", aliases: &[] },
        Codepoint { codepoint: 0x0CEC, name: "KANNADA DIGIT SIX", aliases: &[] },
        Codepoint { codepoint: 0x0CED, name: "KANNADA DIGIT SEVEN", aliases: &[] },
        Codepoint { codepoint: 0x0CEE, name: "KANNADA DIGIT EIGHT", aliases: &[] },
        Codepoint { codepoint: 0x0CEF, name: "KANNADA DIGIT NINE", aliases: &[] },
        Codepoint { codepoint: 0x0CF1, name: "KANNADA SIGN JIHVAMULIYA", aliases: &[] },
        Codepoint { codepoint: 0x0CF2, name: "KANNADA SIGN UPADHMANIYA", aliases: &[] },
        Codepoint { codepoint: 0x0D00, name: "MALAYALAM SIGN COMBINING ANUSVARA ABOVE", aliases: &[] },
        Codepoint { codepoint: 0x0D01, name: "MALAYALAM SIGN CANDRABINDU", aliases: &[] },
        Codepoint { codepoint: 0x0D02, name: "MALAYALAM SIGN ANUSVARA", aliases: &[] },
        Codepoint { codepoint: 0x0D03, name: "MALAYALAM SIGN VISARGA", aliases: &[] },
        Codepoint { codepoint: 0x0D04, name: "MALAYALAM LETTER VEDIC ANUSVARA", aliases: &[] },
        Codepoint { codepoint: 0x0D05, name: "MALAYALAM LETTER A", aliases: &[] },
        Codepoint { codepoint: 0x0D06, name: "MALAYALAM LETTER AA", aliases: &[] },
        Codepoint { codepoint: 0x0D07, name: "MALAYALAM LETTER I", aliases: &[] },
        Codepoint { codepoint: 0x0D08, name: "MALAYALAM LETTER II", aliases: &[] },
        Codepoint { codepoint: 0x0D09, name: "MALAYALAM LETTER U", aliases: &[] },
        Codepoint { codepoint: 0x0D0A, name: "MALAYALAM LETTER UU", aliases: &[] },
        Codepoint { codepoint: 0x0D0B, name: "MALAYALAM LETTER VOCALIC R", aliases: &[] },
        Codepoint { codepoint: 0x0D0C, name: "MALAYALAM LETTER VOCALIC L", aliases: &[] },
        Codepoint { codepoint: 0x0D0E, name: "MALAYALAM LETTER E", aliases: &[] },
        Codepoint { codepoint: 0x0D0F, name: "MALAYALAM LETTER EE", aliases: &[] },
        Codepoint { codepoint: 0x0D10, name: "MALAYALAM LETTER AI", aliases: &[] },
        Codepoint { codepoint: 0x0D12, name: "MALAYALAM LETTER O", aliases: &[] },
        Codepoint { codepoint: 0x0D13, name: "MALAYALAM LETTER OO", aliases: &[] },
        Codepoint { codepoint: 0x0D14, name: "MALAYALAM LETTER AU", aliases: &[] },
        Codepoint { codepoint: 0x0D15, name: "MALAYALAM LETTER KA", aliases: &[] },
        Codepoint { codepoint: 0x0D16, name: "MALAYALAM LETTER KHA", aliases: &[] },
        Codepoint { codepoint: 0x0D17, name: "MALAYALAM LETTER GA", aliases: &[] },
        Codepoint { codepoint: 0x0D18, name: "MALAYALAM LETTER GHA", aliases: &[] },
    ];
    assert(v@ =~= codepoint_table_74());
    v
}

pub open spec fn codepoint_table_75() -> Seq<Codepoint> {
    seq![
        Codepoint { codepoint: 0x0D19, name: "MALAYALAM LETTER NGA", aliases: &[] },
        Codepoint { codepoint: 0x0D1A, name: "MALAYALAM LETTER CA", aliases: &[] },
        Codepoint { codepoint: 0x0D1B, name: "MALAYALAM LETTER CHA", aliases: &[] },
        Codepoint { codepoint: 0x0D1C, name: "MALAYALAM LETTER JA", aliases: &[] },
        Codepoint { codepoint: 0x0D1D, name: "MALAYALAM LETTER JHA", aliases: &[] },
        Codepoint { codepoint: 0x0D1E, name: "MALAYALAM LETTER NYA", aliases: &[] },
        Codepoint { codepoint: 0x0D1F, name: "MALAYALAM LETTER TTA", aliases: &[] },
        Codepoint { codepoint: 0x0D20, name: "MALAYALAM LETTER TTHA", aliases: &[] },
        Codepoint { codepoint: 0x0D21, name: "MALAYALAM LETTER DDA", aliases: &[] },
        Codepoint { codepoint: 0x0D22, name: "MALAYALAM LETTER DDHA", aliases: &[] },
        Codepoint { codepoint: 0x0D23, name: "MALAYALAM LETTER NNA", aliases: &[] },
        Codepoint { codepoint: 0x0D24, name: "MALAYALAM LETTER TA", aliases: &[] },
        Codepoint { codepoint: 0x0D25, name: "MALAYALAM LETTER THA", aliases: &[] },
        Codepoint { codepoint: 0x0D26, name: "MALAYALAM LETTER DA", aliases: &[] },
        Codepoint { codepoint: 0x0D27, name: "MALAYALAM LETTER DHA", aliases: &[] },
        Codepoint { codepoint: 0x0D28, name: "MALAYALAM LETTER NA", aliases: &[] },
        Codepoint { codepoint: 0x0D29, name: "MALAYALAM LETTER NNNA", aliases: &[] },
        Codepoint { codepoint: 0x0D2A, name: "MALAYALAM LETTER PA", aliases: &[] },
        Codepoint { codepoint: 0x0D2B, name: "MALAYALAM LETTER PHA", aliases: &[] },
        Codepoint { codepoint: 0x0D2C, name: "MALAYALAM LETTER BA", aliases: &[] },
        Codepoint { codepoint: 0x0D2D, name: "MALAYALAM LETTER BHA", aliases: &[] },
        Codepoint { codepoint: 0x0D2E, name: "MALAYALAM LETTER MA", aliases: &[] },
        Codepoint { codepoint: 0x0D2F, name: "MALAYALAM LETTER YA", aliases: &[] },
        Codepoint { codepoint: 0x0D30, name: "MALAYALAM LETTER RA", aliases: &[] },
        Codepoint { codepoint: 0x0D31, name: "MALAYALAM LETTER RRA", aliases: &[] },
        Codepoint { codepoint: 0x0D32, name: "MALAYALAM LETTER LA", aliases: &[] },
        Codepoint { codepoint: 0x0D33, name: "MALAYALAM LETTER LLA", aliases: &[] },
        Codepoint { codepoint: 0x0D34, name: "MALAYALAM LETTER LLLA", aliases: &[] },
        Codepoint { codepoint: 0x0D35, name: "MALAYALAM LETTER VA", aliases: &[] },
        Codepoint { codepoint: 0x0D36, name: "MALAYALAM LETTER SHA", aliases: &[] },
        Codepoint { codepoint: 0x0D37, name: "MALAYALAM LETTER SSA", aliases: &[] },
        Codepoint { codepoint: 0x0D38, name: "MALAYALAM LETTER SA", aliases: &[] },
        Codepoint { codepoint: 0x0D39, name: "MALAYALAM LETTER HA", aliases: &[] },
        Codepoint { codepoint: 0x0D3A, name: "MALAYALAM LETTER TTTA", aliases: &[] },
        Codepoint { codepoint: 0x0D3B, name: "MALAYALAM SIGN VERTICAL BAR VIRAMA", aliases: &[] },
        Codepoint { codepoint: 0x0D3C, name: "MALAYALAM SIGN CIRCULAR VIRAMA", aliases: &[] },
        Codepoint { codepoint: 0x0D3D, name: "MALAYALAM SIGN AVAGRAHA", aliases: &[] },
        Codepoint { codepoint: 0x0D3E, name: "MALAYALAM VOWEL SIGN AA", aliases: &[] },
        Codepoint { codepoint: 0x0D3F, name: "MALAYALAM VOWEL SIGN I", aliases: &[] },
        Codepoint { codepoint: 0x0D40, name: "MALAYALAM VOWEL SIGN II", aliases: &[] },
    ]
}

fn all_codepoints_75() -> (v: Vec<Codepoint>)
    ensures
        v@ == codepoint_table_75(),
{
    let v = vec![
        Codepoint { codepoint: 0x0D19, name: "MALAYALAM LETTER NGA", aliases: &[] },
        Codepoint { codepoint: 0x0D1A, name: "MALAYALAM LETTER CA", aliases: &[] },
        Codepoint { codepoint: 0x0D1B, name: "MALAYALAM LETTER CHA", aliases: &[] },
        Codepoint { codepoint: 0x0D1C, name: "MALAYALAM LETTER JA", aliases: &[] },
        Codepoint { codepoint: 0x0D1D, name: "MALAYALAM LETTER JHA", aliases: &[] },
        Codepoint { codepoint: 0x0D1E, name: "MALAYALAM LETTER NYA", aliases: &[] },
        Codepoint { codepoint: 0x0D1F, name: "MALAYALAM LETTER TTA", aliases: &[] },
        Codepoint { codepoint: 0x0D20, name: "MALAYALAM LETTER TTHA", aliases: &[] },
        Codepoint { codepoint: 0x0D21, name: "MALAYALAM LETTER DDA", aliases: &[] },
        Codepoint { codepoint: 0x0D22, name: "MALAYALAM LETTER DDHA", aliases: &[] },
        Codepoint { codepoint: 0x0D23, name: "MALAYALAM LETTER NNA", aliases: &[] },
        Codepoint { codepoint: 0x0D24, name: "MALAYALAM LETTER TA", aliases: &[] },
        Codepoint { codepoint: 0x0D25, name: "MALAYALAM LETTER THA", aliases: &[] },
        Codepoint { codepoint: 0x0D26, name: "MALAYALAM LETTER DA", aliases: &[] },
        Codepoint { codepoint: 0x0D27, name: "MALAYALAM LETTER DHA", aliases: &[] },
        Codepoint { codepoint: 0x0D28, name: "MALAYALAM LETTER NA", aliases: &[] },
        Codepoint { codepoint: 0x0D29, name: "MALAYALAM LETTER NNNA", aliases: &[] },
        Codepoint { codepoint: 0x0D2A, name: "MALAYALAM LETTER PA", aliases: &[] },
        Codepoint { codepoint: 0x0D2B, name: "MALAYALAM LETTER PHA", aliases: &[] },
        Codepoint { codepoint: 0x0D2C, name: "MALAYALAM LETTER BA", aliases: &[] },
        Codepoint { codepoint: 0x0D2D, name: "MALAYALAM LETTER BHA", aliases: &[] },
        Codepoint { codepoint: 0x0D2E, name: "MALAYALAM LETTER MA", aliases: &[] },
        Codepoint { codepoint: 0x0D2F, name: "MALAYALAM LETTER YA", aliases: &[] },
        Codepoint { codepoint: 0x0D30, name: "MALAYALAM LETTER RA", aliases: &[] },
        Codepoint { codepoint: 0x0D31, name: "MALAYALAM LETTER RRA", aliases: &[] },
        Codepoint { codepoint: 0x0D32, name: "MALAYALAM LETTER LA", aliases: &[] },
        Codepoint { codepoint: 0x0D33, name: "MALAYALAM LETTER LLA", aliases: &[] },
        Codepoint { codepoint: 0x0D34, name: "MALAYALAM LETTER LLLA", aliases: &[] },
        Codepoint { codepoint: 0x0D35, name: "MALAYALAM LETTER VA", aliases: &[] },
        Codepoint { codepoint: 0x0D36, name: "MALAYALAM LETTER SHA", aliases: &[] },
        Codepoint { codepoint: 0x0D37, name: "MALAYALAM LETTER SSA", aliases: &[] },
        Codepoint { codepoint: 0x0D38, name: "MALAYALAM LETTER SA", aliases: &[] },
        Codepoint { codepoint: 0x0D39, name: "MALAYALAM LETTER HA", aliases: &[] },
        Codepoint { codepoint: 0x0D3A, name: "MALAYALAM LETTER TTTA", aliases: &[] },
        Codepoint { codepoint: 0x0D3B, name: "MALAYALAM SIGN VERTICAL BAR VIRAMA", aliases: &[] },
        Codepoint { codepoint: 0x0D3C, name: "MALAYALAM SIGN CIRCULAR VIRAMA", aliases: &[] },
        Codepoint { codepoint: 0x0D3D, name: "MALAYALAM SIGN AVAGRAHA", aliases: &[] },
        Codepoint { codepoint: 0x0D3E, name: "MALAYALAM VOWEL SIGN AA", aliases: &[] },
        Codepoint { codepoint: 0x0D3F, name: "MALAYALAM VOWEL SIGN I", aliases: &[] },
        Codepoint { codepoint: 0x0D40, name: "MALAYALAM VOWEL SIGN II", aliases: &[] },
    ];
    assert(v@ =~= codepoint_table_75());
    v
}

pub open spec fn codepoint_table_76() -> Seq<Codepoint> {
    seq![
        Codepoint { codepoint: 0x0D41, name: "MALAYALAM VOWEL SIGN U", aliases: &[] },
        Codepoint { codepoint: 0x0D42, name: "MALAYALAM VOWEL SIGN UU", aliases: &[] },
        Codepoint { codepoint: 0x0D43, name: "MALAYALAM VOWEL SIGN VOCALIC R", aliases: &[] },
        Codepoint { codepoint: 0x0D44, name: "MALAYALAM VOWEL SIGN VOCALIC RR", aliases: &[] },
        Codepoint { codepoint: 0x0D46, name: "MALAYALAM VOWEL SIGN E", aliases: &[] },
        Codepoint { codepoint: 0x0D47, name: "MALAYALAM VOWEL SIGN EE", aliases: &[] },
        Codepoint { codepoint: 0x0D48, name: "MALAYALAM VOWEL SIGN AI", aliases: &[] },
        Codepoint { codepoint: 0x0D4A, name: "MALAYALAM VOWEL SIGN O", aliases: &[] },
        Codepoint { codepoint: 0x0D4B, name: "MALAYALAM VOWEL SIGN OO", aliases: &[] },
        Codepoint { codepoint: 0x0D4C, name: "MALAYALAM VOWEL SIGN AU", aliases: &[] },
        Codepoint { codepoint: 0x0D4D, name: "MALAYALAM SIGN VIRAMA", aliases: &[] },
        Codepoint { codepoint: 0x0D4E, name: "MALAYALAM LETTER DOT REPH", aliases: &[] },
        Codepoint { codepoint: 0x0D4F, name: "MALAYALAM SIGN PARA", aliases: &[] },
        Codepoint { codepoint: 0x0D54, name: "MALAYALAM LETTER CHILLU M", aliases: &[] },
        Codepoint { codepoint: 0x0D55, name: "MALAYALAM LETTER CHILLU Y", aliases: &[] },
        Codepoint { codepoint: 0x0D56, name: "MALAYALAM LETTER CHILLU LLL", aliases: &[] },
        Codepoint { codepoint: 0x0D57, name: "MALAYALAM AU LENGTH MARK", aliases: &[] },
        Codepoint { codepoint: 0x0D58, name: "MALAYALAM FRACTION ONE ONE-HUNDRED-AND-SIXTIETH", aliases: &[] },
        Codepoint { codepoint: 0x0D59, name: "MALAYALAM FRACTION ONE FORTIETH", aliases: &[] },
        Codepoint { codepoint: 0x0D5A, name: "MALAYALAM FRACTION THREE EIGHTIETHS", aliases: &[] },
        Codepoint { codepoint: 0x0D5B, name: "MALAYALAM FRACTION ONE TWENTIETH", aliases: &[] },
        Codepoint { codepoint: 0x0D5C, name: "MALAYALAM FRACTION ONE TENTH", aliases: &[] },
        Codepoint { codepoint: 0x0D5D, name: "MALAYALAM FRACTION THREE TWENTIETHS", aliases: &[] },
        Codepoint { codepoint: 0x0D5E, name: "MALAYALAM FRACTION ONE FIFTH", aliases: &[] },
        Codepoint { codepoint: 0x0D5F, name: "MALAYALAM LETTER ARCHAIC II", aliases: &[] },
        Codepoint { codepoint: 0x0D60, name: "MALAYALAM LETTER VOCALIC RR", aliases: &[] },
        Codepoint { codepoint: 0x0D61, name: "MALAYALAM LETTER VOCALIC LL", aliases: &[] },
        Codepoint { codepoint: 0x0D62, name: "MALAYALAM VOWEL SIGN VOCALIC L", aliases: &[] },
        Codepoint { codepoint: 0x0D63, name: "MALAYALAM VOWEL SIGN VOCALIC LL", aliases: &[] },
        Codepoint { codepoint: 0x0D66, name: "MALAYALAM DIGIT ZERO", aliases: &[] },
        Codepoint { codepoint: 0x0D67, name: "MALAYALAM DIGIT ONE", aliases: &[] },
        Codepoint { codepoint: 0x0D68, name: "MALAYALAM DIGIT TWO", aliases: &[] },
        Codepoint { codepoint: 0x0D69, name: "MALAYALAM DIGIT THREE", aliases: &[] },
        Codepoint { codepoint: 0x0D6A, name: "MALAYALAM DIGIT FOUR", aliases: &[] },
        Codepoint { codepoint: 0x0D6B, name: "MALAYALAM DIGIT FIVE", aliases: &[] },
        Codepoint { codepoint: 0x0D6C, name: "MALAYALAM DIGIT SIX", aliases: &[] },
        Codepoint { codepoint: 0x0D6D, name: "MALAYALAM DIGIT SEVEN", aliases: &[] },
        Codepoint { codepoint: 0x0D6E, name: "MALAYALAM DIGIT EIGHT", aliases: &[] },
        Codepoint { codepoint: 0x0D6F, name: "MALAYALAM DIGIT NINE", aliases: &[] },
        Codepoint { codepoint: 0x0D70, name: "MALAYALAM NUMBER TEN", aliases: &[] },
    ]
}

fn all_codepoints_76() -> (v: Vec<Codepoint>)
    ensures
        v@ == codepoint_table_76(),
{
    let v = vec![
        Codepoint { codepoint: 0x0D41, name: "MALAYALAM VOWEL SIGN U", aliases: &[] },
        Codepoint { codepoint: 0x0D42, name: "MALAYALAM VOWEL SIGN UU", aliases: &[] },
        Codepoint { codepoint: 0x0D43, name: "MALAYALAM VOWEL SIGN VOCALIC R", aliases: &[] },
        Codepoint { codepoint: 0x0D44, name: "MALAYALAM VOWEL SIGN VOCALIC RR", aliases: &[] },
        Codepoint { codepoint: 0x0D46, name: "MALAYALAM VOWEL SIGN E", aliases: &[] },
        Codepoint { codepoint: 0x0D47, name: "MALAYALAM VOWEL SIGN EE", aliases: &[] },
        Codepoint { codepoint: 0x0D48, name: "MALAYALAM VOWEL SIGN AI", aliases: &[] },
        Codepoint { codepoint: 0x0D4A, name: "MALAYALAM VOWEL SIGN O", aliases: &[] },
        Codepoint { codepoint: 0x0D4B, name: "MALAYALAM VOWEL SIGN OO", aliases: &[] },
        Codepoint { codepoint: 0x0D4C, name: "MALAYALAM VOWEL SIGN AU", aliases: &[] },
        Codepoint { codepoint: 0x0D4D, name: "MALAYALAM SIGN VIRAMA", aliases: &[] },
        Codepoint { codepoint: 0x0D4E, name: "MALAYALAM LETTER DOT REPH", aliases: &[] },
        Codepoint { codepoint: 0x0D4F, name: "MALAYALAM SIGN PARA", aliases: &[] },
        Codepoint { codepoint: 0x0D54, name: "MALAYALAM LETTER CHILLU M", aliases: &[] },
        Codepoint { codepoint: 0x0D55, name: "MALAYALAM LETTER CHILLU Y", aliases: &[] },
        Codepoint { codepoint: 0x0D56, name: "MALAYALAM LETTER CHILLU LLL", aliases: &[] },
        Codepoint { codepoint: 0x0D57, name: "MALAYALAM AU LENGTH MARK", aliases: &[] },
        Codepoint { codepoint: 0x0D58, name: "MALAYALAM FRACTION ONE ONE-HUNDRED-AND-SIXTIETH", aliases: &[] },
        Codepoint { codepoint: 0x0D59, name: "MALAYALAM FRACTION ONE FORTIETH", aliases: &[] },
        Codepoint { codepoint: 0x0D5A, name: "MALAYALAM FRACTION THREE EIGHTIETHS", aliases: &[] },
        Codepoint { codepoint: 0x0D5B, name: "MALAYALAM FRACTION ONE TWENTIETH", aliases: &[] },
        Codepoint { codepoint: 0x0D5C, name: "MALAYALAM FRACTION ONE TENTH", aliases: &[] },
        Codepoint { codepoint: 0x0D5D, name: "MALAYALAM FRACTION THREE TWENTIETHS", aliases: &[] },
        Codepoint { codepoint: 0x0D5E, name: "MALAYALAM FRACTION ONE FIFTH", aliases: &[] },
        Codepoint { codepoint: 0x0D5F, name: "MALAYALAM LETTER ARCHAIC II", aliases: &[] },
        Codepoint { codepoint: 0x0D60, name: "MALAYALAM LETTER VOCALIC RR", aliases: &[] },
        Codepoint { codepoint: 0x0D61, name: "MALAYALAM LETTER VOCALIC LL", aliases: &[] },
        Codepoint { codepoint: 0x0D62, name: "MALAYALAM VOWEL SIGN VOCALIC L", aliases: &[] },
        Codepoint { codepoint: 0x0D63, name: "MALAYALAM VOWEL SIGN VOCALIC LL", aliases: &[] },
        Codepoint { codepoint: 0x0D66, name: "MALAYALAM DIGIT ZERO", aliases: &[] },
        Codepoint { codepoint: 0x0D67, name: "MALAYALAM DIGIT ONE", aliases: &[] },
        Codepoint { codepoint: 0x0D68, name: "MALAYALAM DIGIT TWO", aliases: &[] },
        Codepoint { codepoint: 0x0D69, name: "MALAYALAM DIGIT THREE", aliases: &[] },
        Codepoint { codepoint: 0x0D6A, name: "MALAYALAM DIGIT FOUR", aliases: &[] },
        Codepoint { codepoint: 0x0D6B, name: "MALAYALAM DIGIT FIVE", aliases: &[] },
        Codepoint { codepoint: 0x0D6C, name: "MALAYALAM DIGIT SIX", aliases: &[] },
        Codepoint { codepoint: 0x0D6D, name: "MALAYALAM DIGIT SEVEN", aliases: &[] },
        Codepoint { codepoint: 0x0D6E, name: "MALAYALAM DIGIT EIGHT", aliases: &[] },
        Codepoint { codepoint: 0x0D6F, name: "MALAYALAM DIGIT NINE", aliases: &[] },
        Codepoint { codepoint: 0x0D70, name: "MALAYALAM NUMBER TEN", aliases: &[] },
    ];
    assert(v@ =~= codepoint_table_76());
    v
}

pub open spec fn codepoint_table_77() -> Seq<Codepoint> {
    seq![
        Codepoint { codepoint: 0x0D71, name: "MALAYALAM NUMBER ONE HUNDRED", aliases: &[] },
        Codepoint { codepoint: 0x0D72, name: "MALAYALAM NUMBER ONE THOUSAND", aliases: &[] },
        Codepoint { codepoint: 0x0D73, name: "MALAYALAM FRACTION ONE QUARTER", aliases: &[] },
        Codepoint { codepoint: 0x0D74, name: "MALAYALAM FRACTION ONE HALF", aliases: &[] },
        Codepoint { codepoint: 0x0D75, name: "MALAYALAM FRACTION THREE QUARTERS", aliases: &[] },
        Codepoint { codepoint: 0x0D76, name: "MALAYALAM FRACTION ONE SIXTEENTH", aliases: &[] },
        Codepoint { codepoint: 0x0D77, name: "MALAYALAM FRACTION ONE EIGHTH", aliases: &[] },
        Codepoint { codepoint: 0x0D78, name: "MALAYALAM FRACTION THREE SIXTEENTHS", aliases: &[] },
        Codepoint { codepoint: 0x0D79, name: "MALAYALAM DATE MARK", aliases: &[] },
        Codepoint { codepoint: 0x0D7A, name: "MALAYALAM LETTER CHILLU NN", aliases: &[] },
        Codepoint { codepoint: 0x0D7B, name: "MALAYALAM LETTER CHILLU N", aliases: &[] },
        Codepoint { codepoint: 0x0D7C, name: "MALAYALAM LETTER CHILLU RR", aliases: &[] },
        Codepoint { codepoint: 0x0D7D, name: "MALAYALAM LETTER CHILLU L", aliases: &[] },
        Codepoint { codepoint: 0x0D7E, name: "MALAYALAM LETTER CHILLU LL", aliases: &[] },
        Codepoint { codepoint: 0x0D7F, name: "MALAYALAM LETTER CHILLU K", aliases: &[] },
        Codepoint { codepoint: 0x0D81, name: "SINHALA SIGN CANDRABINDU", aliases: &[] },
        Codepoint { codepoint: 0x0D82, name: "SINHALA SIGN ANUSVARAYA", aliases: &[] },
        Codepoint { codepoint: 0x0D83, name: "SINHALA SIGN VISARGAYA", aliases: &[] },
        Codepoint { codepoint: 0x0D85, name: "SINHALA LETTER AYANNA", aliases: &[] },
        Codepoint { codepoint: 0x0D86, name: "SINHALA LETTER AAYANNA", aliases: &[] },
        Codepoint { codepoint: 0x0D87, name: "SINHALA LETTER AEYANNA", aliases: &[] },
        Codepoint { codepoint: 0x0D88, name: "SINHALA LETTER AEEYANNA", aliases: &[] },
        Codepoint { codepoint: 0x0D89, name: "SINHALA LETTER IYANNA", aliases: &[] },
        Codepoint { codepoint: 0x0D8A, name: "SINHALA LETTER IIYANNA", aliases: &[] },
        Codepoint { codepoint: 0x0D8B, name: "SINHALA LETTER UYANNA", aliases: &[] },
        Codepoint { codepoint: 0x0D8C, name: "SINHALA LETTER UUYANNA", aliases: &[] },
        Codepoint { codepoint: 0x0D8D, name: "SINHALA LETTER IRUYANNA", aliases: &[] },
        Codepoint { codepoint: 0x0D8E, name: "SINHALA LETTER IRUUYANNA", aliases: &[] },
        Codepoint { codepoint: 0x0D8F, name: "SINHALA LETTER ILUYANNA", aliases: &[] },
        Codepoint { codepoint: 0x0D90, name: "SINHALA LETTER ILUUYANNA", aliases: &[] },
        Codepoint { codepoint: 0x0D91, name: "SINHALA LETTER EYANNA", aliases: &[] },
        Codepoint { codepoint: 0x0D92, name: "SINHALA LETTER EEYANNA", aliases: &[] },
        Codepoint { codepoint: 0x0D93, name: "SINHALA LETTER AIYANNA", aliases: &[] },
        Codepoint { codepoint: 0x0D94, name: "SINHALA LETTER OYANNA", aliases: &[] },
        Codepoint { codepoint: 0x0D95, name: "SINHALA LETTER OOYANNA", aliases: &[] },
        Codepoint { codepoint: 0x0D96, name: "SINHALA LETTER AUYANNA", aliases: &[] },
        Codepoint { codepoint: 0x0D9A, name: "SINHALA LETTER ALPAPRAANA KAYANNA", aliases: &[] },
        Codepoint { codepoint: 0x0D9B, name: "SINHALA LETTER MAHAAPRAANA KAYANNA", aliases: &[] },
        Codepoint { codepoint: 0x0D9C, name: "SINHALA LETTER ALPAPRAANA GAYANNA", aliases: &[] },
        Codepoint { codepoint: 0x0D9D, name: "SINHALA LETTER MAHAAPRAANA GAYANNA", aliases: &[] },
    ]
}

fn all_codepoints_77() -> (v: Vec<Codepoint>)
    ensures
        v@ == codepoint_table_77(),
{
    let v = vec![
        Codepoint { codepoint: 0x0D71, name: "MALAYALAM NUMBER ONE HUNDRED", aliases: &[] },
        Codepoint { codepoint: 0x0D72, name: "MALAYALAM NUMBER ONE THOUSAND", aliases: &[] },
        Codepoint { codepoint: 0x0D73, name: "MALAYALAM FRACTION ONE QUARTER", aliases: &[] },
        Codepoint { codepoint: 0x0D74, name: "MALAYALAM FRACTION ONE HALF", aliases: &[] },
        Codepoint { codepoint: 0x0D75, name: "MALAYALAM FRACTION THREE QUARTERS", aliases: &[] },
        Codepoint { codepoint: 0x0D76, name: "MALAYALAM FRACTION ONE SIXTEENTH", aliases: &[] },
        Codepoint { codepoint: 0x0D77, name: "MALAYALAM FRACTION ONE EIGHTH", aliases: &[] },
        Codepoint { codepoint: 0x0D78, name: "MALAYALAM FRACTION THREE SIXTEENTHS", aliases: &[] },
        Codepoint { codepoint: 0x0D79, name: "MALAYALAM DATE MARK", aliases: &[] },
        Codepoint { codepoint: 0x0D7A, name: "MALAYALAM LETTER CHILLU NN", aliases: &[] },
        Codepoint { codepoint: 0x0D7B, name: "MALAYALAM LETTER CHILLU N", aliases: &[] },
        Codepoint { codepoint: 0x0D7C, name: "MALAYALAM LETTER CHILLU RR", aliases: &[] },
        Codepoint { codepoint: 0x0D7D, name: "MALAYALAM LETTER CHILLU L", aliases: &[] },
        Codepoint { codepoint: 0x0D7E, name: "MALAYALAM LETTER CHILLU LL", aliases: &[] },
        Codepoint { codepoint: 0x0D7F, name: "MALAYALAM LETTER CHILLU K", aliases: &[] },
        Codepoint { codepoint: 0x0D81, name: "SINHALA SIGN CANDRABINDU", aliases: &[] },
        Codepoint { codepoint: 0x0D82, name: "SINHALA SIGN ANUSVARAYA", aliases: &[] },
        Codepoint { codepoint: 0x0D83, name: "SINHALA SIGN VISARGAYA", aliases: &[] },
        Codepoint { codepoint: 0x0D85, name: "SINHALA LETTER AYANNA", aliases: &[] },
        Codepoint { codepoint: 0x0D86, name: "SINHALA LETTER AAYANNA", aliases: &[] },
        Codepoint { codepoint: 0x0D87, name: "SINHALA LETTER AEYANNA", aliases: &[] },
        Codepoint { codepoint: 0x0D88, name: "SINHALA LETTER AEEYANNA", aliases: &[] },
        Codepoint { codepoint: 0x0D89, name: "SINHALA LETTER IYANNA", aliases: &[] },
        Codepoint { codepoint: 0x0D8A, name: "SINHALA LETTER IIYANNA", aliases: &[] },
        Codepoint { codepoint: 0x0D8B, name: "SINHALA LETTER UYANNA", aliases: &[] },
        Codepoint { codepoint: 0x0D8C, name: "SINHALA LETTER UUYANNA", aliases: &[] },
        Codepoint { codepoint: 0x0D8D, name: "SINHALA LETTER IRUYANNA", aliases: &[] },
        Codepoint { codepoint: 0x0D8E, name: "SINHALA LETTER IRUUYANNA", aliases: &[] },
        Codepoint { codepoint: 0x0D8F, name: "SINHALA LETTER ILUYANNA", aliases: &[] },
        Codepoint { codepoint: 0x0D90, name: "SINHALA LETTER ILUUYANNA", aliases: &[] },
        Codepoint { codepoint: 0x0D91, name: "SINHALA LETTER EYANNA", aliases: &[] },
        Codepoint { codepoint: 0x0D92, name: "SINHALA LETTER EEYANNA", aliases: &[] },
        Codepoint { codepoint: 0x0D93, name: "SINHALA LETTER AIYANNA", aliases: &[] },
        Codepoint { codepoint: 0x0D94, name: "SINHALA LETTER OYANNA", aliases: &[] },
        Codepoint { codepoint: 0x0D95, name: "SINHALA LETTER OOYANNA", aliases: &[] },
        Codepoint { codepoint: 0x0D96, name: "SINHALA LETTER AUYANNA", aliases: &[] },
        Codepoint { codepoint: 0x0D9A, name: "SINHALA LETTER ALPAPRAANA KAYANNA", aliases: &[] },
        Codepoint { codepoint: 0x0D9B, name: "SINHALA LETTER MAHAAPRAANA KAYANNA", aliases: &[] },
        Codepoint { codepoint: 0x0D9C, name: "SINHALA LETTER ALPAPRAANA GAYANNA", aliases: &[] },
        Codepoint { codepoint: 0x0D9D, name: "SINHALA LETTER MAHAAPRAANA GAYANNA", aliases: &[] },
    ];
    assert(v@ =~= codepoint_table_77());
    v
}

pub open spec fn codepoint_table_78() -> Seq<Codepoint> {
    seq![
        Codepoint { codepoint: 0x0D9E, name: "SINHALA LETTER KANTAJA NAASIKYAYA", aliases: &[] },
        Codepoint { codepoint: 0x0D9F, name: "SINHALA LETTER SANYAKA GAYANNA", aliases: &[] },
        Codepoint { codepoint: 0x0DA0, name: "SINHALA LETTER ALPAPRAANA CAYANNA", aliases: &[] },
        Codepoint { codepoint: 0x0DA1, name: "SINHALA LETTER MAHAAPRAANA CAYANNA", aliases: &[] },
        Codepoint { codepoint: 0x0DA2, name: "SINHALA LETTER ALPAPRAANA JAYANNA", aliases: &[] },
        Codepoint { codepoint: 0x0DA3, name: "SINHALA LETTER MAHAAPRAANA JAYANNA", aliases: &[] },
        Codepoint { codepoint: 0x0DA4, name: "SINHALA LETTER TAALUJA NAASIKYAYA", aliases: &[] },
        Codepoint { codepoint: 0x0DA5, name: "SINHALA LETTER TAALUJA SANYOOGA NAAKSIKYAYA", aliases: &[] },
        Codepoint { codepoint: 0x0DA6, name: "SINHALA LETTER SANYAKA JAYANNA", aliases: &[] },
        Codepoint { codepoint: 0x0DA7, name: "SINHALA LETTER ALPAPRAANA TTAYANNA", aliases: &[] },
        Codepoint { codepoint: 0x0DA8, name: "SINHALA LETTER MAHAAPRAANA TTAYANNA", aliases: &[] },
        Codepoint { codepoint: 0x0DA9, name: "SINHALA LETTER ALPAPRAANA DDAYANNA", aliases: &[] },
        Codepoint { codepoint: 0x0DAA, name: "SINHALA LETTER MAHAAPRAANA DDAYANNA", aliases: &[] },
        Codepoint { codepoint: 0x0DAB, name: "SINHALA LETTER MUURDHAJA NAYANNA", aliases: &[] },
        Codepoint { codepoint: 0x0DAC, name: "SINHALA LETTER SANYAKA DDAYANNA", aliases: &[] },
        Codepoint { codepoint: 0x0DAD, name: "SINHALA LETTER ALPAPRAANA TAYANNA", aliases: &[] },
        Codepoint { codepoint: 0x0DAE, name: "SINHALA LETTER MAHAAPRAANA TAYANNA", aliases: &[] },
        Codepoint { codepoint: 0x0DAF, name: "SINHALA LETTER ALPAPRAANA DAYANNA", aliases: &[] },
        Codepoint { codepoint: 0x0DB0, name: "SINHALA LETTER MAHAAPRAANA DAYANNA", aliases: &[] },
        Codepoint { codepoint: 0x0DB1, name: "SINHALA LETTER DANTAJA NAYANNA", aliases: &[] },
        Codepoint { codepoint: 0x0DB3, name: "SINHALA LETTER SANYAKA DAYANNA", aliases: &[] },
        Codepoint { codepoint: 0x0DB4, name: "SINHALA LETTER ALPAPRAANA PAYANNA", aliases: &[] },
        Codepoint { codepoint: 0x0DB5, name: "SINHALA LETTER MAHAAPRAANA PAYANNA", aliases: &[] },
        Codepoint { codepoint: 0x0DB6, name: "SINHALA LETTER ALPAPRAANA BAYANNA", aliases: &[] },
        Codepoint { codepoint: 0x0DB7, name: "SINHALA LETTER MAHAAPRAANA BAYANNA", aliases: &[] },
        Codepoint { codepoint: 0x0DB8, name: "SINHALA LETTER MAYANNA", aliases: &[] },
        Codepoint { codepoint: 0x0DB9, name: "SINHALA LETTER AMBA BAYANNA", aliases: &[] },
        Codepoint { codepoint: 0x0DBA, name: "SINHALA LETTER YAYANNA", aliases: &[] },
        Codepoint { codepoint: 0x0DBB, name: "SINHALA LETTER RAYANNA", aliases: &[] },
        Codepoint { codepoint: 0x0DBD, name: "SINHALA LETTER DANTAJA LAYANNA", aliases: &[] },
        Codepoint { codepoint: 0x0DC0, name: "SINHALA LETTER VAYANNA", aliases: &[] },
        Codepoint { codepoint: 0x0DC1, name: "SINHALA LETTER TAALUJA SAYANNA", aliases: &[] },
        Codepoint { codepoint: 0x0DC2, name: "SINHALA LETTER MUURDHAJA SAYANNA", aliases: &[] },
        Codepoint { codepoint: 0x0DC3, name: "SINHALA LETTER DANTAJA SAYANNA", aliases: &[] },
        Codepoint { codepoint: 0x0DC4, name: "SINHALA LETTER HAYANNA", aliases: &[] },
        Codepoint { codepoint: 0x0DC5, name: "SINHALA LETTER MUURDHAJA LAYANNA", aliases: &[] },
        Codepoint { codepoint: 0x0DC6, name: "SINHALA LETTER FAYANNA", aliases: &[] },
        Codepoint { codepoint: 0x0DCA, name: "SINHALA SIGN AL-LAKUNA", aliases: &[] },
        Codepoint { codepoint: 0x0DCF, name: "SINHALA VOWEL SIGN AELA-PILLA", aliases: &[] },
        Codepoint { codepoint: 0x0DD0, name: "SINHALA VOWEL SIGN KETTI AEDA-PILLA", aliases: &[] },
    ]
}

fn all_codepoints_78() -> (v: Vec<Codepoint>)
    ensures
        v@ == codepoint_table_78(),
{
    let v = vec![
        Codepoint { codepoint: 0x0D9E, name: "SINHALA LETTER KANTAJA NAASIKYAYA", aliases: &[] },
        Codepoint { codepoint: 0x0D9F, name: "SINHALA LETTER SANYAKA GAYANNA", aliases: &[] },
        Codepoint { codepoint: 0x0DA0, name: "SINHALA LETTER ALPAPRAANA CAYANNA", aliases: &[] },
        Codepoint { codepoint: 0x0DA1, name: "SINHALA LETTER MAHAAPRAANA CAYANNA", aliases: &[] },
        Codepoint { codepoint: 0x0DA2, name: "SINHALA LETTER ALPAPRAANA JAYANNA", aliases: &[] },
        Codepoint { codepoint: 0x0DA3, name: "SINHALA LETTER MAHAAPRAANA JAYANNA", aliases: &[] },
        Codepoint { codepoint: 0x0DA4, name: "SINHALA LETTER TAALUJA NAASIKYAYA", aliases: &[] },
        Codepoint { codepoint: 0x0DA5, name: "SINHALA LETTER TAALUJA SANYOOGA NAAKSIKYAYA", aliases: &[] },
        Codepoint { codepoint: 0x0DA6, name: "SINHALA LETTER SANYAKA JAYANNA", aliases: &[] },
        Codepoint { codepoint: 0x0DA7, name: "SINHALA LETTER ALPAPRAANA TTAYANNA", aliases: &[] },
        Codepoint { codepoint: 0x0DA8, name: "SINHALA LETTER MAHAAPRAANA TTAYANNA", aliases: &[] },
        Codepoint { codepoint: 0x0DA9, name: "SINHALA LETTER ALPAPRAANA DDAYANNA", aliases: &[] },
        Codepoint { codepoint: 0x0DAA, name: "SINHALA LETTER MAHAAPRAANA DDAYANNA", aliases: &[] },
        Codepoint { codepoint: 0x0DAB, name: "SINHALA LETTER MUURDHAJA NAYANNA", aliases: &[] },
        Codepoint { codepoint: 0x0DAC, name: "SINHALA LETTER SANYAKA DDAYANNA", aliases: &[] },
        Codepoint { codepoint: 0x0DAD, name: "SINHALA LETTER ALPAPRAANA TAYANNA", aliases: &[] },
        Codepoint { codepoint: 0x0DAE, name: "SINHALA LETTER MAHAAPRAANA TAYANNA", aliases: &[] },
        Codepoint { codepoint: 0x0DAF, name: "SINHALA LETTER ALPAPRAANA DAYANNA", aliases: &[] },
        Codepoint { codepoint: 0x0DB0, name: "SINHALA LETTER MAHAAPRAANA DAYANNA", aliases: &[] },
        Codepoint { codepoint: 0x0DB1, name: "SINHALA LETTER DANTAJA NAYANNA", aliases: &[] },
        Codepoint { codepoint: 0x0DB3, name: "SINHALA LETTER SANYAKA DAYANNA", aliases: &[] },
        Codepoint { codepoint: 0x0DB4, name: "SINHALA LETTER ALPAPRAANA PAYANNA", aliases: &[] },
        Codepoint { codepoint: 0x0DB5, name: "SINHALA LETTER MAHAAPRAANA PAYANNA", aliases: &[] },
        Codepoint { codepoint: 0x0DB6, name: "SINHALA LETTER ALPAPRAANA BAYANNA", aliases: &[] },
        Codepoint { codepoint: 0x0DB7, name: "SINHALA LETTER MAHAAPRAANA BAYANNA", aliases: &[] },
        Codepoint { codepoint: 0x0DB8, name: "SINHALA LETTER MAYANNA", aliases: &[] },
        Codepoint { codepoint: 0x0DB9, name: "SINHALA LETTER AMBA BAYANNA", aliases: &[] },
        Codepoint { codepoint: 0x0DBA, name: "SINHALA LETTER YAYANNA", aliases: &[] },
        Codepoint { codepoint: 0x0DBB, name: "SINHALA LETTER RAYANNA", aliases: &[] },
        Codepoint { codepoint: 0x0DBD, name: "SINHALA LETTER DANTAJA LAYANNA", aliases: &[] },
        Codepoint { codepoint: 0x0DC0, name: "SINHALA LETTER VAYANNA", aliases: &[] },
        Codepoint { codepoint: 0x0DC1, name: "SINHALA LETTER TAALUJA SAYANNA", aliases: &[] },
        Codepoint { codepoint: 0x0DC2, name: "SINHALA LETTER MUURDHAJA SAYANNA", aliases: &[] },
        Codepoint { codepoint: 0x0DC3, name: "SINHALA LETTER DANTAJA SAYANNA", aliases: &[] },
        Codepoint { codepoint: 0x0DC4, name: "SINHALA LETTER HAYANNA", aliases: &[] },
        Codepoint { codepoint: 0x0DC5, name: "SINHALA LETTER MUURDHAJA LAYANNA", aliases: &[] },
        Codepoint { codepoint: 0x0DC6, name: "SINHALA LETTER FAYANNA", aliases: &[] },
        Codepoint { codepoint: 0x0DCA, name: "SINHALA SIGN AL-LAKUNA", aliases: &[] },
        Codepoint { codepoint: 0x0DCF, name: "SINHALA VOWEL SIGN AELA-PILLA", aliases: &[] },
        Codepoint { codepoint: 0x0DD0, name: "SINHALA VOWEL SIGN KETTI AEDA-PILLA", aliases: &[] },
    ];
    assert(v@ =~= codepoint_table_78());
    v
}

pub open spec fn codepoint_table_79() -> Seq<Codepoint> {
    seq![
        Codepoint { codepoint: 0x0DD1, name: "SINHALA VOWEL SIGN DIGA AEDA-PILLA", aliases: &[] },
        Codepoint { codepoint: 0x0DD2, name: "SINHALA VOWEL SIGN KETTI IS-PILLA", aliases: &[] },
        Codepoint { codepoint: 0x0DD3, name: "SINHALA VOWEL SIGN DIGA IS-PILLA", aliases: &[] },
        Codepoint { codepoint: 0x0DD4, name: "SINHALA VOWEL SIGN KETTI PAA-PILLA", aliases: &[] },
        Codepoint { codepoint: 0x0DD6, name: "SINHALA VOWEL SIGN DIGA PAA-PILLA", aliases: &[] },
        Codepoint { codepoint: 0x0DD8, name: "SINHALA VOWEL SIGN GAETTA-PILLA", aliases: &[] },
        Codepoint { codepoint: 0x0DD9, name: "SINHALA VOWEL SIGN KOMBUVA", aliases: &[] },
        Codepoint { codepoint: 0x0DDA, name: "SINHALA VOWEL SIGN DIGA KOMBUVA", aliases: &[] },
        Codepoint { codepoint: 0x0DDB, name: "SINHALA VOWEL SIGN KOMBU DEKA", aliases: &[] },
        Codepoint { codepoint: 0x0DDC, name: "SINHALA VOWEL SIGN KOMBUVA HAA AELA-PILLA", aliases: &[] },
        Codepoint { codepoint: 0x0DDD, name: "SINHALA VOWEL SIGN KOMBUVA HAA DIGA AELA-PILLA", aliases: &[] },
        Codepoint { codepoint: 0x0DDE, name: "SINHALA VOWEL SIGN KOMBUVA HAA GAYANUKITTA", aliases: &[] },
        Codepoint { codepoint: 0x0DDF, name: "SINHALA VOWEL SIGN GAYANUKITTA", aliases: &[] },
        Codepoint { codepoint: 0x0DE6, name: "SINHALA LITH DIGIT ZERO", aliases: &[] },
        Codepoint { codepoint: 0x0DE7, name: "SINHALA LITH DIGIT ONE", aliases: &[] },
        Codepoint { codepoint: 0x0DE8, name: "SINHALA LITH DIGIT TWO", aliases: &[] },
        Codepoint { codepoint: 0x0DE9, name: "SINHALA LITH DIGIT THREE", aliases: &[] },
        Codepoint { codepoint: 0x0DEA, name: "SINHALA LITH DIGIT FOUR", aliases: &[] },
        Codepoint { codepoint: 0x0DEB, name: "SINHALA LITH DIGIT FIVE", aliases: &[] },
        Codepoint { codepoint: 0x0DEC, name: "SINHALA LITH DIGIT SIX", aliases: &[] },
        Codepoint { codepoint: 0x0DED, name: "SINHALA LITH DIGIT SEVEN", aliases: &[] },
        Codepoint { codepoint: 0x0DEE, name: "SINHALA LITH DIGIT EIGHT", aliases: &[] },
        Codepoint { codepoint: 0x0DEF, name: "SINHALA LITH DIGIT NINE", aliases: &[] },
        Codepoint { codepoint: 0x0DF2, name: "SINHALA VOWEL SIGN DIGA GAETTA-PILLA", aliases: &[] },
        Codepoint { codepoint: 0x0DF3, name: "SINHALA VOWEL SIGN DIGA GAYANUKITTA", aliases: &[] },
        Codepoint { codepoint: 0x0DF4, name: "SINHALA PUNCTUATION KUNDDALIYA", aliases: &[] },
        Codepoint { codepoint: 0x0E01, name: "THAI CHARACTER KO KAI", aliases: &["THAI LETTER KO KAI"] },
        Codepoint { codepoint: 0x0E02, name: "THAI CHARACTER KHO KHAI", aliases: &["THAI LETTER KHO KHAI"] },
        Codepoint { codepoint: 0x0E03, name: "THAI CHARACTER KHO KHUAT", aliases: &["THAI LETTER KHO KHUAT"] },
        Codepoint { codepoint: 0x0E04, name: "THAI CHARACTER KHO KHWAI", aliases: &["THAI LETTER KHO KHWAI"] },
        Codepoint { codepoint: 0x0E05, name: "THAI CHARACTER KHO KHON", aliases: &["THAI LETTER KHO KHON"] },
        Codepoint { codepoint: 0x0E06, name: "THAI CHARACTER KHO RAKHANG", aliases: &["THAI LETTER KHO RAKHANG"] },
        Codepoint { codepoint: 0x0E07, name: "THAI CHARACTER NGO NGU", aliases: &["THAI LETTER NGO NGU"] },
        Codepoint { codepoint: 0x0E08, name: "THAI CHARACTER CHO CHAN", aliases: &["THAI LETTER CHO CHAN"] },
        Codepoint { codepoint: 0x0E09, name: "THAI CHARACTER CHO CHING", aliases: &["THAI LETTER CHO CHING"] },
        Codepoint { codepoint: 0x0E0A, name: "THAI CHARACTER CHO CHANG", aliases: &["THAI LETTER CHO CHANG"] },
        Codepoint { codepoint: 0x0E0B, name: "THAI CHARACTER SO SO", aliases: &["THAI LETTER SO SO"] },
        Codepoint { codepoint: 0x0E0C, name: "THAI CHARACTER CHO CHOE", aliases: &["THAI LETTER CHO CHOE"] },
        Codepoint { codepoint: 0x0E0D, name: "THAI CHARACTER YO YING", aliases: &["THAI LETTER YO YING"] },
        Codepoint { codepoint: 0x0E0E, name: "THAI CHARACTER DO CHADA", aliases: &["THAI LETTER DO CHADA"] },
    ]
}

fn all_codepoints_79() -> (v: Vec<Codepoint>)
    ensures
        v@ == codepoint_table_79(),
{
    let v = vec![
        Codepoint { codepoint: 0x0DD1, name: "SINHALA VOWEL SIGN DIGA AEDA-PILLA", aliases: &[] },
        Codepoint { codepoint: 0x0DD2, name: "SINHALA VOWEL SIGN KETTI IS-PILLA", aliases: &[] },
        Codepoint { codepoint: 0x0DD3, name: "SINHALA VOWEL SIGN DIGA IS-PILLA", aliases: &[] },
        Codepoint { codepoint: 0x0DD4, name: "SINHALA VOWEL SIGN KETTI PAA-PILLA", aliases: &[] },
        Codepoint { codepoint: 0x0DD6, name: "SINHALA VOWEL SIGN DIGA PAA-PILLA", aliases: &[] },
        Codepoint { codepoint: 0x0DD8, name: "SINHALA VOWEL SIGN GAETTA-PILLA", aliases: &[] },
        Codepoint { codepoint: 0x0DD9, name: "SINHALA VOWEL SIGN KOMBUVA", aliases: &[] },
        Codepoint { codepoint: 0x0DDA, name: "SINHALA VOWEL SIGN DIGA KOMBUVA", aliases: &[] },
        Codepoint { codepoint: 0x0DDB, name: "SINHALA VOWEL SIGN KOMBU DEKA", aliases: &[] },
        Codepoint { codepoint: 0x0DDC, name: "SINHALA VOWEL SIGN KOMBUVA HAA AELA-PILLA", aliases: &[] },
        Codepoint { codepoint: 0x0DDD, name: "SINHALA VOWEL SIGN KOMBUVA HAA DIGA AELA-PILLA", aliases: &[] },
        Codepoint { codepoint: 0x0DDE, name: "SINHALA VOWEL SIGN KOMBUVA HAA GAYANUKITTA", aliases: &[] },
        Codepoint { codepoint: 0x0DDF, name: "SINHALA VOWEL SIGN GAYANUKITTA", aliases: &[] },
        Codepoint { codepoint: 0x0DE6, name: "SINHALA LITH DIGIT ZERO", aliases: &[] },
        Codepoint { codepoint: 0x0DE7, name: "SINHALA LITH DIGIT ONE", aliases: &[] },
        Codepoint { codepoint: 0x0DE8, name: "SINHALA LITH DIGIT TWO", aliases: &[] },
        Codepoint { codepoint: 0x0DE9, name: "SINHALA LITH DIGIT THREE", aliases: &[] },
        Codepoint { codepoint: 0x0DEA, name: "SINHALA LITH DIGIT FOUR", aliases: &[] },
        Codepoint { codepoint: 0x0DEB, name: "SINHALA LITH DIGIT FIVE", aliases: &[] },
        Codepoint { codepoint: 0x0DEC, name: "SINHALA LITH DIGIT SIX", aliases: &[] },
        Codepoint { codepoint: 0x0DED, name: "SINHALA LITH DIGIT SEVEN", aliases: &[] },
        Codepoint { codepoint: 0x0DEE, name: "SINHALA LITH DIGIT EIGHT", aliases: &[] },
        Codepoint { codepoint: 0x0DEF, name: "SINHALA LITH DIGIT NINE", aliases: &[] },
        Codepoint { codepoint: 0x0DF2, name: "SINHALA VOWEL SIGN DIGA GAETTA-PILLA", aliases: &[] },
        Codepoint { codepoint: 0x0DF3, name: "SINHALA VOWEL SIGN DIGA GAYANUKITTA", aliases: &[] },
        Codepoint { codepoint: 0x0DF4, name: "SINHALA PUNCTUATION KUNDDALIYA", aliases: &[] },
        Codepoint { codepoint: 0x0E01, name: "THAI CHARACTER KO KAI", aliases: &["THAI LETTER KO KAI"] },
        Codepoint { codepoint: 0x0E02, name: "THAI CHARACTER KHO KHAI", aliases: &["THAI LETTER KHO KHAI"] },
        Codepoint { codepoint: 0x0E03, name: "THAI CHARACTER KHO KHUAT", aliases: &["THAI LETTER KHO KHUAT"] },
        Codepoint { codepoint: 0x0E04, name: "THAI CHARACTER KHO KHWAI", aliases: &["THAI LETTER KHO KHWAI"] },
        Codepoint { codepoint: 0x0E05, name: "THAI CHARACTER KHO KHON", aliases: &["THAI LETTER KHO KHON"] },
        Codepoint { codepoint: 0x0E06, name: "THAI CHARACTER KHO RAKHANG", aliases: &["THAI LETTER KHO RAKHANG"] },
        Codepoint { codepoint: 0x0E07, name: "THAI CHARACTER NGO NGU", aliases: &["THAI LETTER NGO NGU"] },
        Codepoint { codepoint: 0x0E08, name: "THAI CHARACTER CHO CHAN", aliases: &["THAI LETTER CHO CHAN"] },
        Codepoint { codepoint: 0x0E09, name: "THAI CHARACTER CHO CHING", aliases: &["THAI LETTER CHO CHING"] },
        Codepoint { codepoint: 0x0E0A, name: "THAI CHARACTER CHO CHANG", aliases: &["THAI LETTER CHO CHANG"] },
        Codepoint { codepoint: 0x0E0B, name: "THAI CHARACTER SO SO", aliases: &["THAI LETTER SO SO"] },
        Codepoint { codepoint: 0x0E0C, name: "THAI CHARACTER CHO CHOE", aliases: &["THAI LETTER CHO CHOE"] },
        Codepoint { codepoint: 0x0E0D, name: "THAI CHARACTER YO YING", aliases: &["THAI LETTER YO YING"] },
        Codepoint { codepoint: 0x0E0E, name: "THAI CHARACTER DO CHADA", aliases: &["THAI LETTER DO CHADA"] },
    ];
    assert(v@ =~= codepoint_table_79());
    v
}

/// The entries from position 2400 of the table, 800 at most.
pub open spec fn codepoint_group_3() -> Seq<Codepoint> {
    codepoint_table_60() + codepoint_table_61() + codepoint_table_62() + codepoint_table_63() + codepoint_table_64() + codepoint_table_65() + codepoint_table_66() + codepoint_table_67() + codepoint_table_68() + codepoint_table_69() + codepoint_table_70() + codepoint_table_71() + codepoint_table_72() + codepoint_table_73() + codepoint_table_74() + codepoint_table_75() + codepoint_table_76() + codepoint_table_77() + codepoint_table_78() + codepoint_table_79()
}

pub fn all_codepoints_group_3() -> (v: Vec<Codepoint>)
    ensures
        v@ == codepoint_group_3(),
{
    let mut v = all_codepoints_60();
    let mut part = all_codepoints_61();
    v.append(&mut part);
    let mut part = all_codepoints_62();
    v.append(&mut part);
    let mut part = all_codepoints_63();
    v.append(&mut part);
    let mut part = all_codepoints_64();
    v.append(&mut part);
    let mut part = all_codepoints_65();
    v.append(&mut part);
    let mut part = all_codepoints_66();
    v.append(&mut part);
    let mut part = all_codepoints_67();
    v.append(&mut part);
    let mut part = all_codepoints_68();
    v.append(&mut part);
    let mut part = all_codepoints_69();
    v.append(&mut part);
    let mut part = all_codepoints_70();
    v.append(&mut part);
    let mut part = all_codepoints_71();
    v.append(&mut part);
    let mut part = all_codepoints_72();
    v.append(&mut part);
    let mut part = all_codepoints_73();
    v.append(&mut part);
    let mut part = all_codepoints_74();
    v.append(&mut part);
    let mut part = all_codepoints_75();
    v.append(&mut part);
    let mut part = all_codepoints_76();
    v.append(&mut part);
    let mut part = all_codepoints_77();
    v.append(&mut part);
    let mut part = all_codepoints_78();
    v.append(&mut part);
    let mut part = all_codepoints_79();
    v.append(&mut part);
    v
}

pub open spec fn codepoint_table_80() -> Seq<Codepoint> {
    seq![
        Codepoint { codepoint: 0x0E0F, name: "THAI CHARACTER TO PATAK", aliases: &["THAI LETTER TO PATAK"] },
        Codepoint { codepoint: 0x0E10, name: "THAI CHARACTER THO THAN", aliases: &["THAI LETTER THO THAN"] },
        Codepoint { codepoint: 0x0E11, name: "THAI CHARACTER THO NANGMONTHO", aliases: &["THAI LETTER THO NANGMONTHO"] },
        Codepoint { codepoint: 0x0E12, name: "THAI CHARACTER THO PHUTHAO", aliases: &["THAI LETTER THO PHUTHAO"] },
        Codepoint { codepoint: 0x0E13, name: "THAI CHARACTER NO NEN", aliases: &["THAI LETTER NO NEN"] },
        Codepoint { codepoint: 0x0E14, name: "THAI CHARACTER DO DEK", aliases: &["THAI LETTER DO DEK"] },
        Codepoint { codepoint: 0x0E15, name: "THAI CHARACTER TO TAO", aliases: &["THAI LETTER TO TAO"] },
        Codepoint { codepoint: 0x0E16, name: "THAI CHARACTER THO THUNG", aliases: &["THAI LETTER THO THUNG"] },
        Codepoint { codepoint: 0x0E17, name: "THAI CHARACTER THO THAHAN", aliases: &["THAI LETTER THO THAHAN"] },
        Codepoint { codepoint: 0x0E18, name: "THAI CHARACTER THO THONG", aliases: &["THAI LETTER THO THONG"] },
        Codepoint { codepoint: 0x0E19, name: "THAI CHARACTER NO NU", aliases: &["THAI LETTER NO NU"] },
        Codepoint { codepoint: 0x0E1A, name: "THAI CHARACTER BO BAIMAI", aliases: &["THAI LETTER BO BAIMAI"] },
        Codepoint { codepoint: 0x0E1B, name: "THAI CHARACTER PO PLA", aliases: &["THAI LETTER PO PLA"] },
        Codepoint { codepoint: 0x0E1C, name: "THAI CHARACTER PHO PHUNG", aliases: &["THAI LETTER PHO PHUNG"] },
        Codepoint { codepoint: 0x0E1D, name: "THAI CHARACTER FO FA", aliases: &["THAI LETTER FO FA"] },
        Codepoint { codepoint: 0x0E1E, name: "THAI CHARACTER PHO PHAN", aliases: &["THAI LETTER PHO PHAN"] },
        Codepoint { codepoint: 0x0E1F, name: "THAI CHARACTER FO FAN", aliases: &["THAI LETTER FO FAN"] },
        Codepoint { codepoint: 0x0E20, name: "THAI CHARACTER PHO SAMPHAO", aliases: &["THAI LETTER PHO SAMPHAO"] },
        Codepoint { codepoint: 0x0E21, name: "THAI CHARACTER MO MA", aliases: &["THAI LETTER MO MA"] },
        Codepoint { codepoint: 0x0E22, name: "THAI CHARACTER YO YAK", aliases: &["THAI LETTER YO YAK"] },
        Codepoint { codepoint: 0x0E23, name: "THAI CHARACTER RO RUA", aliases: &["THAI LETTER RO RUA"] },
        Codepoint { codepoint: 0x0E24, name: "THAI CHARACTER RU", aliases: &["THAI LETTER RU"] },
        Codepoint { codepoint: 0x0E25, name: "THAI CHARACTER LO LING", aliases: &["THAI LETTER LO LING"] },
        Codepoint { codepoint: 0x0E26, name: "THAI CHARACTER LU", aliases: &["THAI LETTER LU"] },
        Codepoint { codepoint: 0x0E27, name: "THAI CHARACTER WO WAEN", aliases: &["THAI LETTER WO WAEN"] },
        Codepoint { codepoint: 0x0E28, name: "THAI CHARACTER SO SALA", aliases: &["THAI LETTER SO SALA"] },
        Codepoint { codepoint: 0x0E29, name: "THAI CHARACTER SO RUSI", aliases: &["THAI LETTER SO RUSI"] },
        Codepoint { codepoint: 0x0E2A, name: "THAI CHARACTER SO SUA", aliases: &["THAI LETTER SO SUA"] },
        Codepoint { codepoint: 0x0E2B, name: "THAI CHARACTER HO HIP", aliases: &["THAI LETTER HO HIP"] },
        Codepoint { codepoint: 0x0E2C, name: "THAI CHARACTER LO CHULA", aliases: &["THAI LETTER LO CHULA"] },
        Codepoint { codepoint: 0x0E2D, name: "THAI CHARACTER O ANG", aliases: &["THAI LETTER O ANG"] },
        Codepoint { codepoint: 0x0E2E, name: "THAI CHARACTER HO NOKHUK", aliases: &["THAI LETTER HO NOK HUK"] },
        Codepoint { codepoint: 0x0E2F, name: "THAI CHARACTER PAIYANNOI", aliases: &["THAI PAI YAN NOI"] },
        Codepoint { codepoint: 0x0E30, name: "THAI CHARACTER SARA A", aliases: &["THAI VOWEL SIGN SARA A"] },
        Codepoint { codepoint: 0x0E31, name: "THAI CHARACTER MAI HAN-AKAT", aliases: &["THAI VOWEL SIGN MAI HAN-AKAT"] },
        Codepoint { codepoint: 0x0E32, name: "THAI CHARACTER SARA AA", aliases: &["THAI VOWEL SIGN SARA AA"] },
        Codepoint { codepoint: 0x0E33, name: "THAI CHARACTER SARA AM", aliases: &["THAI VOWEL SIGN SARA AM"] },
        Codepoint { codepoint: 0x0E34, name: "THAI CHARACTER SARA I", aliases: &["THAI VOWEL SIGN SARA I"] },
        Codepoint { codepoint: 0x0E35, name: "THAI CHARACTER SARA II", aliases: &["THAI VOWEL SIGN SARA II"] },
        Codepoint { codepoint: 0x0E36, name: "THAI CHARACTER SARA UE", aliases: &["THAI VOWEL SIGN SARA UE"] },
    ]
}

fn all_codepoints_80() -> (v: Vec<Codepoint>)
    ensures
        v@ == codepoint_table_80(),
{
    let v = vec![
        Codepoint { codepoint: 0x0E0F, name: "THAI CHARACTER TO PATAK", aliases: &["THAI LETTER TO PATAK"] },
        Codepoint { codepoint: 0x0E10, name: "THAI CHARACTER THO THAN", aliases: &["THAI LETTER THO THAN"] },
        Codepoint { codepoint: 0x0E11, name: "THAI CHARACTER THO NANGMONTHO", aliases: &["THAI LETTER THO NANGMONTHO"] },
        Codepoint { codepoint: 0x0E12, name: "THAI CHARACTER THO PHUTHAO", aliases: &["THAI LETTER THO PHUTHAO"] },
        Codepoint { codepoint: 0x0E13, name: "THAI CHARACTER NO NEN", aliases: &["THAI LETTER NO NEN"] },
        Codepoint { codepoint: 0x0E14, name: "THAI CHARACTER DO DEK", aliases: &["THAI LETTER DO DEK"] },
        Codepoint { codepoint: 0x0E15, name: "THAI CHARACTER TO TAO", aliases: &["THAI LETTER TO TAO"] },
        Codepoint { codepoint: 0x0E16, name: "THAI CHARACTER THO THUNG", aliases: &["THAI LETTER THO THUNG"] },
        Codepoint { codepoint: 0x0E17, name: "THAI CHARACTER THO THAHAN", aliases: &["THAI LETTER THO THAHAN"] },
        Codepoint { codepoint: 0x0E18, name: "THAI CHARACTER THO THONG", aliases: &["THAI LETTER THO THONG"] },
        Codepoint { codepoint: 0x0E19, name: "THAI CHARACTER NO NU", aliases: &["THAI LETTER NO NU"] },
        Codepoint { codepoint: 0x0E1A, name: "THAI CHARACTER BO BAIMAI", aliases: &["THAI LETTER BO BAIMAI"] },
        Codepoint { codepoint: 0x0E1B, name: "THAI CHARACTER PO PLA", aliases: &["THAI LETTER PO PLA"] },
        Codepoint { codepoint: 0x0E1C, name: "THAI CHARACTER PHO PHUNG", aliases: &["THAI LETTER PHO PHUNG"] },
        Codepoint { codepoint: 0x0E1D, name: "THAI CHARACTER FO FA", aliases: &["THAI LETTER FO FA"] },
        Codepoint { codepoint: 0x0E1E, name: "THAI CHARACTER PHO PHAN", aliases: &["THAI LETTER PHO PHAN"] },
        Codepoint { codepoint: 0x0E1F, name: "THAI CHARACTER FO FAN", aliases: &["THAI LETTER FO FAN"] },
        Codepoint { codepoint: 0x0E20, name: "THAI CHARACTER PHO SAMPHAO", aliases: &["THAI LETTER PHO SAMPHAO"] },
        Codepoint { codepoint: 0x0E21, name: "THAI CHARACTER MO MA", aliases: &["THAI LETTER MO MA"] },
        Codepoint { codepoint: 0x0E22, name: "THAI CHARACTER YO YAK", aliases: &["THAI LETTER YO YAK"] },
        Codepoint { codepoint: 0x0E23, name: "THAI CHARACTER RO RUA", aliases: &["THAI LETTER RO RUA"] },
        Codepoint { codepoint: 0x0E24, name: "THAI CHARACTER RU", aliases: &["THAI LETTER RU"] },
        Codepoint { codepoint: 0x0E25, name: "THAI CHARACTER LO LING", aliases: &["THAI LETTER LO LING"] },
        Codepoint { codepoint: 0x0E26, name: "THAI CHARACTER LU", aliases: &["THAI LETTER LU"] },
        Codepoint { codepoint: 0x0E27, name: "THAI CHARACTER WO WAEN", aliases: &["THAI LETTER WO WAEN"] },
        Codepoint { codepoint: 0x0E28, name: "THAI CHARACTER SO SALA", aliases: &["THAI LETTER SO SALA"] },
        Codepoint { codepoint: 0x0E29, name: "THAI CHARACTER SO RUSI", aliases: &["THAI LETTER SO RUSI"] },
        Codepoint { codepoint: 0x0E2A, name: "THAI CHARACTER SO SUA", aliases: &["THAI LETTER SO SUA"] },
        Codepoint { codepoint: 0x0E2B, name: "THAI CHARACTER HO HIP", aliases: &["THAI LETTER HO HIP"] },
        Codepoint { codepoint: 0x0E2C, name: "THAI CHARACTER LO CHULA", aliases: &["THAI LETTER LO CHULA"] },
        Codepoint { codepoint: 0x0E2D, name: "THAI CHARACTER O ANG", aliases: &["THAI LETTER O ANG"] },
        Codepoint { codepoint: 0x0E2E, name: "THAI CHARACTER HO NOKHUK", aliases: &["THAI LETTER HO NOK HUK"] },
        Codepoint { codepoint: 0x0E2F, name: "THAI CHARACTER PAIYANNOI", aliases: &["THAI PAI YAN NOI"] },
        Codepoint { codepoint: 0x0E30, name: "THAI CHARACTER SARA A", aliases: &["THAI VOWEL SIGN SARA A"] },
        Codepoint { codepoint: 0x0E31, name: "THAI CHARACTER MAI HAN-AKAT", aliases: &["THAI VOWEL SIGN MAI HAN-AKAT"] },
        Codepoint { codepoint: 0x0E32, name: "THAI CHARACTER SARA AA", aliases: &["THAI VOWEL SIGN SARA AA"] },
        Codepoint { codepoint: 0x0E33, name: "THAI CHARACTER SARA AM", aliases: &["THAI VOWEL SIGN SARA AM"] },
        Codepoint { codepoint: 0x0E34, name: "THAI CHARACTER SARA I", aliases: &["THAI VOWEL SIGN SARA I"] },
        Codepoint { codepoint: 0x0E35, name: "THAI CHARACTER SARA II", aliases: &["THAI VOWEL SIGN SARA II"] },
        Codepoint { codepoint: 0x0E36, name: "THAI CHARACTER SARA UE", aliases: &["THAI VOWEL SIGN SARA UE"] },
    ];
    assert(v@ =~= codepoint_table_80());
    v
}

pub open spec fn codepoint_table_81() -> Seq<Codepoint> {
    seq![
        Codepoint { codepoint: 0x0E37, name: "THAI CHARACTER SARA UEE", aliases: &["THAI VOWEL SIGN SARA UEE"] },
        Codepoint { codepoint: 0x0E38, name: "THAI CHARACTER SARA U", aliases: &["THAI VOWEL SIGN SARA U"] },
        Codepoint { codepoint: 0x0E39, name: "THAI CHARACTER SARA UU", aliases: &["THAI VOWEL SIGN SARA UU"] },
        Codepoint { codepoint: 0x0E3A, name: "THAI CHARACTER PHINTHU", aliases: &["THAI VOWEL SIGN PHINTHU"] },
        Codepoint { codepoint: 0x0E3F, name: "THAI CURRENCY SYMBOL BAHT", aliases: &["THAI BAHT SIGN"] },
        Codepoint { codepoint: 0x0E40, name: "THAI CHARACTER SARA E", aliases: &["THAI VOWEL SIGN SARA E"] },
        Codepoint { codepoint: 0x0E41, name: "THAI CHARACTER SARA AE", aliases: &["THAI VOWEL SIGN SARA AE"] },
        Codepoint { codepoint: 0x0E42, name: "THAI CHARACTER SARA O", aliases: &["THAI VOWEL SIGN SARA O"] },
        Codepoint { codepoint: 0x0E43, name: "THAI CHARACTER SARA AI MAIMUAN", aliases: &["THAI VOWEL SIGN SARA MAI MUAN"] },
        Codepoint { codepoint: 0x0E44, name: "THAI CHARACTER SARA AI MAIMALAI", aliases: &["THAI VOWEL SIGN SARA MAI MALAI"] },
        Codepoint { codepoint: 0x0E45, name: "THAI CHARACTER LAKKHANGYAO", aliases: &["THAI LAK KHANG YAO"] },
        Codepoint { codepoint: 0x0E46, name: "THAI CHARACTER MAIYAMOK", aliases: &["THAI MAI YAMOK"] },
        Codepoint { codepoint: 0x0E47, name: "THAI CHARACTER MAITAIKHU", aliases: &["THAI VOWEL SIGN MAI TAI KHU"] },
        Codepoint { codepoint: 0x0E48, name: "THAI CHARACTER MAI EK", aliases: &["THAI TONE MAI EK"] },
        Codepoint { codepoint: 0x0E49, name: "THAI CHARACTER MAI THO", aliases: &["THAI TONE MAI THO"] },
        Codepoint { codepoint: 0x0E4A, name: "THAI CHARACTER MAI TRI", aliases: &["THAI TONE MAI TRI"] },
        Codepoint { codepoint: 0x0E4B, name: "THAI CHARACTER MAI CHATTAWA", aliases: &["THAI TONE MAI CHATTAWA"] },
        Codepoint { codepoint: 0x0E4C, name: "THAI CHARACTER THANTHAKHAT", aliases: &["THAI THANTHAKHAT"] },
        Codepoint { codepoint: 0x0E4D, name: "THAI CHARACTER NIKHAHIT", aliases: &["THAI NIKKHAHIT"] },
        Codepoint { codepoint: 0x0E4E, name: "THAI CHARACTER YAMAKKAN", aliases: &["THAI YAMAKKAN"] },
        Codepoint { codepoint: 0x0E4F, name: "THAI CHARACTER FONGMAN", aliases: &["THAI FONGMAN"] },
        Codepoint { codepoint: 0x0E50, name: "THAI DIGIT ZERO", aliases: &[] },
        Codepoint { codepoint: 0x0E51, name: "THAI DIGIT ONE", aliases: &[] },
        Codepoint { codepoint: 0x0E52, name: "THAI DIGIT TWO", aliases: &[] },
        Codepoint { codepoint: 0x0E53, name: "THAI DIGIT THREE", aliases: &[] },
        Codepoint { codepoint: 0x0E54, name: "THAI DIGIT FOUR", aliases: &[] },
        Codepoint { codepoint: 0x0E55, name: "THAI DIGIT FIVE", aliases: &[] },
        Codepoint { codepoint: 0x0E56, name: "THAI DIGIT SIX", aliases: &[] },
        Codepoint { codepoint: 0x0E57, name: "THAI DIGIT SEVEN", aliases: &[] },
        Codepoint { codepoint: 0x0E58, name: "THAI DIGIT EIGHT", aliases: &[] },
        Codepoint { codepoint: 0x0E59, name: "THAI DIGIT NINE", aliases: &[] },
        Codepoint { codepoint: 0x0E5A, name: "THAI CHARACTER ANGKHANKHU", aliases: &["THAI ANGKHANKHU"] },
        Codepoint { codepoint: 0x0E5B, name: "THAI CHARACTER KHOMUT", aliases: &["THAI KHOMUT"] },
        Codepoint { codepoint: 0x0E81, name: "LAO LETTER KO", aliases: &[] },
        Codepoint { codepoint: 0x0E82, name: "LAO LETTER KHO SUNG", aliases: &[] },
        Codepoint { codepoint: 0x0E84, name: "LAO LETTER KHO TAM", aliases: &[] },
        Codepoint { codepoint: 0x0E86, name: "LAO LETTER PALI GHA", aliases: &[] },
        Codepoint { codepoint: 0x0E87, name: "LAO LETTER NGO", aliases: &[] },
        Codepoint { codepoint: 0x0E88, name: "LAO LETTER CO", aliases: &[] },
        Codepoint { codepoint: 0x0E89, name: "LAO LETTER PALI CHA", aliases: &[] },
    ]
}

fn all_codepoints_81() -> (v: Vec<Codepoint>)
    ensures
        v@ == codepoint_table_81(),
{
    let v = vec![
        Codepoint { codepoint: 0x0E37, name: "THAI CHARACTER SARA UEE", aliases: &["THAI VOWEL SIGN SARA UEE"] },
        Codepoint { codepoint: 0x0E38, name: "THAI CHARACTER SARA U", aliases: &["THAI VOWEL SIGN SARA U"] },
        Codepoint { codepoint: 0x0E39, name: "THAI CHARACTER SARA UU", aliases: &["THAI VOWEL SIGN SARA UU"] },
        Codepoint { codepoint: 0x0E3A, name: "THAI CHARACTER PHINTHU", aliases: &["THAI VOWEL SIGN PHINTHU"] },
        Codepoint { codepoint: 0x0E3F, name: "THAI CURRENCY SYMBOL BAHT", aliases: &["THAI BAHT SIGN"] },
        Codepoint { codepoint: 0x0E40, name: "THAI CHARACTER SARA E", aliases: &["THAI VOWEL SIGN SARA E"] },
        Codepoint { codepoint: 0x0E41, name: "THAI CHARACTER SARA AE", aliases: &["THAI VOWEL SIGN SARA AE"] },
        Codepoint { codepoint: 0x0E42, name: "THAI CHARACTER SARA O", aliases: &["THAI VOWEL SIGN SARA O"] },
        Codepoint { codepoint: 0x0E43, name: "THAI CHARACTER SARA AI MAIMUAN", aliases: &["THAI VOWEL SIGN SARA MAI MUAN"] },
        Codepoint { codepoint: 0x0E44, name: "THAI CHARACTER SARA AI MAIMALAI", aliases: &["THAI VOWEL SIGN SARA MAI MALAI"] },
        Codepoint { codepoint: 0x0E45, name: "THAI CHARACTER LAKKHANGYAO", aliases: &["THAI LAK KHANG YAO"] },
        Codepoint { codepoint: 0x0E46, name: "THAI CHARACTER MAIYAMOK", aliases: &["THAI MAI YAMOK"] },
        Codepoint { codepoint: 0x0E47, name: "THAI CHARACTER MAITAIKHU", aliases: &["THAI VOWEL SIGN MAI TAI KHU"] },
        Codepoint { codepoint: 0x0E48, name: "THAI CHARACTER MAI EK", aliases: &["THAI TONE MAI EK"] },
        Codepoint { codepoint: 0x0E49, name: "THAI CHARACTER MAI THO", aliases: &["THAI TONE MAI THO"] },
        Codepoint { codepoint: 0x0E4A, name: "THAI CHARACTER MAI TRI", aliases: &["THAI TONE MAI TRI"] },
        Codepoint { codepoint: 0x0E4B, name: "THAI CHARACTER MAI CHATTAWA", aliases: &["THAI TONE MAI CHATTAWA"] },
        Codepoint { codepoint: 0x0E4C, name: "THAI CHARACTER THANTHAKHAT", aliases: &["THAI THANTHAKHAT"] },
        Codepoint { codepoint: 0x0E4D, name: "THAI CHARACTER NIKHAHIT", aliases: &["THAI NIKKHAHIT"] },
        Codepoint { codepoint: 0x0E4E, name: "THAI CHARACTER YAMAKKAN", aliases: &["THAI YAMAKKAN"] },
        Codepoint { codepoint: 0x0E4F, name: "THAI CHARACTER FONGMAN", aliases: &["THAI FONGMAN"] },
        Codepoint { codepoint: 0x0E50, name: "THAI DIGIT ZERO", aliases: &[] },
        Codepoint { codepoint: 0x0E51, name: "THAI DIGIT ONE", aliases: &[] },
        Codepoint { codepoint: 0x0E52, name: "THAI DIGIT TWO", aliases: &[] },
        Codepoint { codepoint: 0x0E53, name: "THAI DIGIT THREE", aliases: &[] },
        Codepoint { codepoint: 0x0E54, name: "THAI DIGIT FOUR", aliases: &[] },
        Codepoint { codepoint: 0x0E55, name: "THAI DIGIT FIVE", aliases: &[] },
        Codepoint { codepoint: 0x0E56, name: "THAI DIGIT SIX", aliases: &[] },
        Codepoint { codepoint: 0x0E57, name: "THAI DIGIT SEVEN", aliases: &[] },
        Codepoint { codepoint: 0x0E58, name: "THAI DIGIT EIGHT", aliases: &[] },
        Codepoint { codepoint: 0x0E59, name: "THAI DIGIT NINE", aliases: &[] },
        Codepoint { codepoint: 0x0E5A, name: "THAI CHARACTER ANGKHANKHU", aliases: &["THAI ANGKHANKHU"] },
        Codepoint { codepoint: 0x0E5B, name: "THAI CHARACTER KHOMUT", aliases: &["THAI KHOMUT"] },
        Codepoint { codepoint: 0x0E81, name: "LAO LETTER KO", aliases: &[] },
        Codepoint { codepoint: 0x0E82, name: "LAO LETTER KHO SUNG", aliases: &[] },
        Codepoint { codepoint: 0x0E84, name: "LAO LETTER KHO TAM", aliases: &[] },
        Codepoint { codepoint: 0x0E86, name: "LAO LETTER PALI GHA", aliases: &[] },
        Codepoint { codepoint: 0x0E87, name: "LAO LETTER NGO", aliases: &[] },
        Codepoint { codepoint: 0x0E88, name: "LAO LETTER CO", aliases: &[] },
        Codepoint { codepoint: 0x0E89, name: "LAO LETTER PALI CHA", aliases: &[] },
    ];
    assert(v@ =~= codepoint_table_81());
    v
}

pub open spec fn codepoint_table_82() -> Seq<Codepoint> {
    seq![
        Codepoint { codepoint: 0x0E8A, name: "LAO LETTER SO TAM", aliases: &[] },
        Codepoint { codepoint: 0x0E8C, name: "LAO LETTER PALI JHA", aliases: &[] },
        Codepoint { codepoint: 0x0E8D, name: "LAO LETTER NYO", aliases: &[] },
        Codepoint { codepoint: 0x0E8E, name: "LAO LETTER PALI NYA", aliases: &[] },
        Codepoint { codepoint: 0x0E8F, name: "LAO LETTER PALI TTA", aliases: &[] },
        Codepoint { codepoint: 0x0E90, name: "LAO LETTER PALI TTHA", aliases: &[] },
        Codepoint { codepoint: 0x0E91, name: "LAO LETTER PALI DDA", aliases: &[] },
        Codepoint { codepoint: 0x0E92, name: "LAO LETTER PALI DDHA", aliases: &[] },
        Codepoint { codepoint: 0x0E93, name: "LAO LETTER PALI NNA", aliases: &[] },
        Codepoint { codepoint: 0x0E94, name: "LAO LETTER DO", aliases: &[] },
        Codepoint { codepoint: 0x0E95, name: "LAO LETTER TO", aliases: &[] },
        Codepoint { codepoint: 0x0E96, name: "LAO LETTER THO SUNG", aliases: &[] },
        Codepoint { codepoint: 0x0E97, name: "LAO LETTER THO TAM", aliases: &[] },
        Codepoint { codepoint: 0x0E98, name: "LAO LETTER PALI DHA", aliases: &[] },
        Codepoint { codepoint: 0x0E99, name: "LAO LETTER NO", aliases: &[] },
        Codepoint { codepoint: 0x0E9A, name: "LAO LETTER BO", aliases: &[] },
        Codepoint { codepoint: 0x0E9B, name: "LAO LETTER PO", aliases: &[] },
        Codepoint { codepoint: 0x0E9C, name: "LAO LETTER PHO SUNG", aliases: &[] },
        Codepoint { codepoint: 0x0E9D, name: "LAO LETTER FO TAM", aliases: &[] },
        Codepoint { codepoint: 0x0E9E, name: "LAO LETTER PHO TAM", aliases: &[] },
        Codepoint { codepoint: 0x0E9F, name: "LAO LETTER FO SUNG", aliases: &[] },
        Codepoint { codepoint: 0x0EA0, name: "LAO LETTER PALI BHA", aliases: &[] },
        Codepoint { codepoint: 0x0EA1, name: "LAO LETTER MO", aliases: &[] },
        Codepoint { codepoint: 0x0EA2, name: "LAO LETTER YO", aliases: &[] },
        Codepoint { codepoint: 0x0EA3, name: "LAO LETTER LO LING", aliases: &[] },
        Codepoint { codepoint: 0x0EA5, name: "LAO LETTER LO LOOT", aliases: &[] },
        Codepoint { codepoint: 0x0EA7, name: "LAO LETTER WO", aliases: &[] },
        Codepoint { codepoint: 0x0EA8, name: "LAO LETTER SANSKRIT SHA", aliases: &[] },
        Codepoint { codepoint: 0x0EA9, name: "LAO LETTER SANSKRIT SSA", aliases: &[] },
        Codepoint { codepoint: 0x0EAA, name: "LAO LETTER SO SUNG", aliases: &[] },
        Codepoint { codepoint: 0x0EAB, name: "LAO LETTER HO SUNG", aliases: &[] },
        Codepoint { codepoint: 0x0EAC, name: "LAO LETTER PALI LLA", aliases: &[] },
        Codepoint { codepoint: 0x0EAD, name: "LAO LETTER O", aliases: &[] },
        Codepoint { codepoint: 0x0EAE, name: "LAO LETTER HO TAM", aliases: &[] },
        Codepoint { codepoint: 0x0EAF, name: "LAO ELLIPSIS", aliases: &[] },
        Codepoint { codepoint: 0x0EB0, name: "LAO VOWEL SIGN A", aliases: &[] },
        Codepoint { codepoint: 0x0EB1, name: "LAO VOWEL SIGN MAI KAN", aliases: &[] },
        Codepoint { codepoint: 0x0EB2, name: "LAO VOWEL SIGN AA", aliases: &[] },
        Codepoint { codepoint: 0x0EB3, name: "LAO VOWEL SIGN AM", aliases: &[] },
        Codepoint { codepoint: 0x0EB4, name: "LAO VOWEL SIGN I", aliases: &[] },
    ]
}

fn all_codepoints_82() -> (v: Vec<Codepoint>)
    ensures
        v@ == codepoint_table_82(),
{
    let v = vec![
        Codepoint { codepoint: 0x0E8A, name: "LAO LETTER SO TAM", aliases: &[] },
        Codepoint { codepoint: 0x0E8C, name: "LAO LETTER PALI JHA", aliases: &[] },
        Codepoint { codepoint: 0x0E8D, name: "LAO LETTER NYO", aliases: &[] },
        Codepoint { codepoint: 0x0E8E, name: "LAO LETTER PALI NYA", aliases: &[] },
        Codepoint { codepoint: 0x0E8F, name: "LAO LETTER PALI TTA", aliases: &[] },
        Codepoint { codepoint: 0x0E90, name: "LAO LETTER PALI TTHA", aliases: &[] },
        Codepoint { codepoint: 0x0E91, name: "LAO LETTER PALI DDA", aliases: &[] },
        Codepoint { codepoint: 0x0E92, name: "LAO LETTER PALI DDHA", aliases: &[] },
        Codepoint { codepoint: 0x0E93, name: "LAO LETTER PALI NNA", aliases: &[] },
        Codepoint { codepoint: 0x0E94, name: "LAO LETTER DO", aliases: &[] },
        Codepoint { codepoint: 0x0E95, name: "LAO LETTER TO", aliases: &[] },
        Codepoint { codepoint: 0x0E96, name: "LAO LETTER THO SUNG", aliases: &[] },
        Codepoint { codepoint: 0x0E97, name: "LAO LETTER THO TAM", aliases: &[] },
        Codepoint { codepoint: 0x0E98, name: "LAO LETTER PALI DHA", aliases: &[] },
        Codepoint { codepoint: 0x0E99, name: "LAO LETTER NO", aliases: &[] },
        Codepoint { codepoint: 0x0E9A, name: "LAO LETTER BO", aliases: &[] },
        Codepoint { codepoint: 0x0E9B, name: "LAO LETTER PO", aliases: &[] },
        Codepoint { codepoint: 0x0E9C, name: "LAO LETTER PHO SUNG", aliases: &[] },
        Codepoint { codepoint: 0x0E9D, name: "LAO LETTER FO TAM", aliases: &[] },
        Codepoint { codepoint: 0x0E9E, name: "LAO LETTER PHO TAM", aliases: &[] },
        Codepoint { codepoint: 0x0E9F, name: "LAO LETTER FO SUNG", aliases: &[] },
        Codepoint { codepoint: 0x0EA0, name: "LAO LETTER PALI BHA", aliases: &[] },
        Codepoint { codepoint: 0x0EA1, name: "LAO LETTER MO", aliases: &[] },
        Codepoint { codepoint: 0x0EA2, name: "LAO LETTER YO", aliases: &[] },
        Codepoint { codepoint: 0x0EA3, name: "LAO LETTER LO LING", aliases: &[] },
        Codepoint { codepoint: 0x0EA5, name: "LAO LETTER LO LOOT", aliases: &[] },
        Codepoint { codepoint: 0x0EA7, name: "LAO LETTER WO", aliases: &[] },
        Codepoint { codepoint: 0x0EA8, name: "LAO LETTER SANSKRIT SHA", aliases: &[] },
        Codepoint { codepoint: 0x0EA9, name: "LAO LETTER SANSKRIT SSA", aliases: &[] },
        Codepoint { codepoint: 0x0EAA, name: "LAO LETTER SO SUNG", aliases: &[] },
        Codepoint { codepoint: 0x0EAB, name: "LAO LETTER HO SUNG", aliases: &[] },
        Codepoint { codepoint: 0x0EAC, name: "LAO LETTER PALI LLA", aliases: &[] },
        Codepoint { codepoint: 0x0EAD, name: "LAO LETTER O", aliases: &[] },
        Codepoint { codepoint: 0x0EAE, name: "LAO LETTER HO TAM", aliases: &[] },
        Codepoint { codepoint: 0x0EAF, name: "LAO ELLIPSIS", aliases: &[] },
        Codepoint { codepoint: 0x0EB0, name: "LAO VOWEL SIGN A", aliases: &[] },
        Codepoint { codepoint: 0x0EB1, name: "LAO VOWEL SIGN MAI KAN", aliases: &[] },
        Codepoint { codepoint: 0x0EB2, name: "LAO VOWEL SIGN AA", aliases: &[] },
        Codepoint { codepoint: 0x0EB3, name: "LAO VOWEL SIGN AM", aliases: &[] },
        Codepoint { codepoint: 0x0EB4, name: "LAO VOWEL SIGN I", aliases: &[] },
    ];
    assert(v@ =~= codepoint_table_82());
    v
}

pub open spec fn codepoint_table_83() -> Seq<Codepoint> {
    seq![
        Codepoint { codepoint: 0x0EB5, name: "LAO VOWEL SIGN II", aliases: &[] },
        Codepoint { codepoint: 0x0EB6, name: "LAO VOWEL SIGN Y", aliases: &[] },
        Codepoint { codepoint: 0x0EB7, name: "LAO VOWEL SIGN YY", aliases: &[] },
        Codepoint { codepoint: 0x0EB8, name: "LAO VOWEL SIGN U", aliases: &[] },
        Codepoint { codepoint: 0x0EB9, name: "LAO VOWEL SIGN UU", aliases: &[] },
        Codepoint { codepoint: 0x0EBA, name: "LAO SIGN PALI VIRAMA", aliases: &[] },
        Codepoint { codepoint: 0x0EBB, name: "LAO VOWEL SIGN MAI KON", aliases: &[] },
        Codepoint { codepoint: 0x0EBC, name: "LAO SEMIVOWEL SIGN LO", aliases: &[] },
        Codepoint { codepoint: 0x0EBD, name: "LAO SEMIVOWEL SIGN NYO", aliases: &[] },
        Codepoint { codepoint: 0x0EC0, name: "LAO VOWEL SIGN E", aliases: &[] },
        Codepoint { codepoint: 0x0EC1, name: "LAO VOWEL SIGN EI", aliases: &[] },
        Codepoint { codepoint: 0x0EC2, name: "LAO VOWEL SIGN O", aliases: &[] },
        Codepoint { codepoint: 0x0EC3, name: "LAO VOWEL SIGN AY", aliases: &[] },
        Codepoint { codepoint: 0x0EC4, name: "LAO VOWEL SIGN AI", aliases: &[] },
        Codepoint { codepoint: 0x0EC6, name: "LAO KO LA", aliases: &[] },
        Codepoint { codepoint: 0x0EC8, name: "LAO TONE MAI EK", aliases: &[] },
        Codepoint { codepoint: 0x0EC9, name: "LAO TONE MAI THO", aliases: &[] },
        Codepoint { codepoint: 0x0ECA, name: "LAO TONE MAI TI", aliases: &[] },
        Codepoint { codepoint: 0x0ECB, name: "LAO TONE MAI CATAWA", aliases: &[] },
        Codepoint { codepoint: 0x0ECC, name: "LAO CANCELLATION MARK", aliases: &[] },
        Codepoint { codepoint: 0x0ECD, name: "LAO NIGGAHITA", aliases: &[] },
        Codepoint { codepoint: 0x0ED0, name: "LAO DIGIT ZERO", aliases: &[] },
        Codepoint { codepoint: 0x0ED1, name: "LAO DIGIT ONE", aliases: &[] },
        Codepoint { codepoint: 0x0ED2, name: "LAO DIGIT TWO", aliases: &[] },
        Codepoint { codepoint: 0x0ED3, name: "LAO DIGIT THREE", aliases: &[] },
        Codepoint { codepoint: 0x0ED4, name: "LAO DIGIT FOUR", aliases: &[] },
        Codepoint { codepoint: 0x0ED5, name: "LAO DIGIT FIVE", aliases: &[] },
        Codepoint { codepoint: 0x0ED6, name: "LAO DIGIT SIX", aliases: &[] },
        Codepoint { codepoint: 0x0ED7, name: "LAO DIGIT SEVEN", aliases: &[] },
        Codepoint { codepoint: 0x0ED8, name: "LAO DIGIT EIGHT", aliases: &[] },
        Codepoint { codepoint: 0x0ED9, name: "LAO DIGIT NINE", aliases: &[] },
        Codepoint { codepoint: 0x0EDC, name: "LAO HO NO", aliases: &[] },
        Codepoint { codepoint: 0x0EDD, name: "LAO HO MO", aliases: &[] },
        Codepoint { codepoint: 0x0EDE, name: "LAO LETTER KHMU GO", aliases: &[] },
        Codepoint { codepoint: 0x0EDF, name: "LAO LETTER KHMU NYO", aliases: &[] },
        Codepoint { codepoint: 0x0F00, name: "TIBETAN SYLLABLE OM", aliases: &[] },
        Codepoint { codepoint: 0x0F01, name: "TIBETAN MARK GTER YIG MGO TRUNCATED A", aliases: &[] },
        Codepoint { codepoint: 0x0F02, name: "TIBETAN MARK GTER YIG MGO -UM RNAM BCAD MA", aliases: &[] },
        Codepoint { codepoint: 0x0F03, name: "TIBETAN MARK GTER YIG MGO -UM GTER TSHEG MA", aliases: &[] },
        Codepoint { codepoint: 0x0F04, name: "TIBETAN MARK INITIAL YIG MGO MDUN MA", aliases: &["TIBETAN SINGLE ORNAMENT"] },
    ]
}

fn all_codepoints_83() -> (v: Vec<Codepoint>)
    ensures
        v@ == codepoint_table_83(),
{
    let v = vec![
        Codepoint { codepoint: 0x0EB5, name: "LAO VOWEL SIGN II", aliases: &[] },
        Codepoint { codepoint: 0x0EB6, name: "LAO VOWEL SIGN Y", aliases: &[] },
        Codepoint { codepoint: 0x0EB7, name: "LAO VOWEL SIGN YY", aliases: &[] },
        Codepoint { codepoint: 0x0EB8, name: "LAO VOWEL SIGN U", aliases: &[] },
        Codepoint { codepoint: 0x0EB9, name: "LAO VOWEL SIGN UU", aliases: &[] },
        Codepoint { codepoint: 0x0EBA, name: "LAO SIGN PALI VIRAMA", aliases: &[] },
        Codepoint { codepoint: 0x0EBB, name: "LAO VOWEL SIGN MAI KON", aliases: &[] },
        Codepoint { codepoint: 0x0EBC, name: "LAO SEMIVOWEL SIGN LO", aliases: &[] },
        Codepoint { codepoint: 0x0EBD, name: "LAO SEMIVOWEL SIGN NYO", aliases: &[] },
        Codepoint { codepoint: 0x0EC0, name: "LAO VOWEL SIGN E", aliases: &[] },
        Codepoint { codepoint: 0x0EC1, name: "LAO VOWEL SIGN EI", aliases: &[] },
        Codepoint { codepoint: 0x0EC2, name: "LAO VOWEL SIGN O", aliases: &[] },
        Codepoint { codepoint: 0x0EC3, name: "LAO VOWEL SIGN AY", aliases: &[] },
        Codepoint { codepoint: 0x0EC4, name: "LAO VOWEL SIGN AI", aliases: &[] },
        Codepoint { codepoint: 0x0EC6, name: "LAO KO LA", aliases: &[] },
        Codepoint { codepoint: 0x0EC8, name: "LAO TONE MAI EK", aliases: &[] },
        Codepoint { codepoint: 0x0EC9, name: "LAO TONE MAI THO", aliases: &[] },
        Codepoint { codepoint: 0x0ECA, name: "LAO TONE MAI TI", aliases: &[] },
        Codepoint { codepoint: 0x0ECB, name: "LAO TONE MAI CATAWA", aliases: &[] },
        Codepoint { codepoint: 0x0ECC, name: "LAO CANCELLATION MARK", aliases: &[] },
        Codepoint { codepoint: 0x0ECD, name: "LAO NIGGAHITA", aliases: &[] },
        Codepoint { codepoint: 0x0ED0, name: "LAO DIGIT ZERO", aliases: &[] },
        Codepoint { codepoint: 0x0ED1, name: "LAO DIGIT ONE", aliases: &[] },
        Codepoint { codepoint: 0x0ED2, name: "LAO DIGIT TWO", aliases: &[] },
        Codepoint { codepoint: 0x0ED3, name: "LAO DIGIT THREE", aliases: &[] },
        Codepoint { codepoint: 0x0ED4, name: "LAO DIGIT FOUR", aliases: &[] },
        Codepoint { codepoint: 0x0ED5, name: "LAO DIGIT FIVE", aliases: &[] },
        Codepoint { codepoint: 0x0ED6, name: "LAO DIGIT SIX", aliases: &[] },
        Codepoint { codepoint: 0x0ED7, name: "LAO DIGIT SEVEN", aliases: &[] },
        Codepoint { codepoint: 0x0ED8, name: "LAO DIGIT EIGHT", aliases: &[] },
        Codepoint { codepoint: 0x0ED9, name: "LAO DIGIT NINE", aliases: &[] },
        Codepoint { codepoint: 0x0EDC, name: "LAO HO NO", aliases: &[] },
        Codepoint { codepoint: 0x0EDD, name: "LAO HO MO", aliases: &[] },
        Codepoint { codepoint: 0x0EDE, name: "LAO LETTER KHMU GO", aliases: &[] },
        Codepoint { codepoint: 0x0EDF, name: "LAO LETTER KHMU NYO", aliases: &[] },
        Codepoint { codepoint: 0x0F00, name: "TIBETAN SYLLABLE OM", aliases: &[] },
        Codepoint { codepoint: 0x0F01, name: "TIBETAN MARK GTER YIG MGO TRUNCATED A", aliases: &[] },
        Codepoint { codepoint: 0x0F02, name: "TIBETAN MARK GTER YIG MGO -UM RNAM BCAD MA", aliases: &[] },
        Codepoint { codepoint: 0x0F03, name: "TIBETAN MARK GTER YIG MGO -UM GTER TSHEG MA", aliases: &[] },
        Codepoint { codepoint: 0x0F04, name: "TIBETAN MARK INITIAL YIG MGO MDUN MA", aliases: &["TIBETAN SINGLE ORNAMENT"] },
    ];
    assert(v@ =~= codepoint_table_83());
    v
}

pub open spec fn codepoint_table_84() -> Seq<Codepoint> {
    seq![
        Codepoint { codepoint: 0x0F05, name: "TIBETAN MARK CLOSING YIG MGO SGAB MA", aliases: &[] },
        Codepoint { codepoint: 0x0F06, name: "TIBETAN MARK CARET YIG MGO PHUR SHAD MA", aliases: &[] },
        Codepoint { codepoint: 0x0F07, name: "TIBETAN MARK YIG MGO TSHEG SHAD MA", aliases: &[] },
        Codepoint { codepoint: 0x0F08, name: "TIBETAN MARK SBRUL SHAD", aliases: &["TIBETAN RGYANSHAD"] },
        Codepoint { codepoint: 0x0F09, name: "TIBETAN MARK BSKUR YIG MGO", aliases: &[] },
        Codepoint { codepoint: 0x0F0A, name: "TIBETAN MARK BKA- SHOG YIG MGO", aliases: &[] },
        Codepoint { codepoint: 0x0F0B, name: "TIBETAN MARK INTERSYLLABIC TSHEG", aliases: &["TIBETAN TSEG"] },
        Codepoint { codepoint: 0x0F0C, name: "TIBETAN MARK DELIMITER TSHEG BSTAR", aliases: &[] },
        Codepoint { codepoint: 0x0F0D, name: "TIBETAN MARK SHAD", aliases: &["TIBETAN SHAD"] },
        Codepoint { codepoint: 0x0F0E, name: "TIBETAN MARK NYIS SHAD", aliases: &["TIBETAN DOUBLE SHAD"] },
        Codepoint { codepoint: 0x0F0F, name: "TIBETAN MARK TSHEG SHAD", aliases: &[] },
        Codepoint { codepoint: 0x0F10, name: "TIBETAN MARK NYIS TSHEG SHAD", aliases: &[] },
        Codepoint { codepoint: 0x0F11, name: "TIBETAN MARK RIN CHEN SPUNGS SHAD", aliases: &["TIBETAN RINCHANPHUNGSHAD"] },
        Codepoint { codepoint: 0x0F12, name: "TIBETAN MARK RGYA GRAM SHAD", aliases: &[] },
        Codepoint { codepoint: 0x0F13, name: "TIBETAN MARK CARET -DZUD RTAGS ME LONG CAN", aliases: &[] },
        Codepoint { codepoint: 0x0F14, name: "TIBETAN MARK GTER TSHEG", aliases: &["TIBETAN COMMA"] },
        Codepoint { codepoint: 0x0F15, name: "TIBETAN LOGOTYPE SIGN CHAD RTAGS", aliases: &[] },
        Codepoint { codepoint: 0x0F16, name: "TIBETAN LOGOTYPE SIGN LHAG RTAGS", aliases: &[] },
        Codepoint { codepoint: 0x0F17, name: "TIBETAN ASTROLOGICAL SIGN SGRA GCAN -CHAR RTAGS", aliases: &[] },
        Codepoint { codepoint: 0x0F18, name: "TIBETAN ASTROLOGICAL SIGN -KHYUD PA", aliases: &[] },
        Codepoint { codepoint: 0x0F19, name: "TIBETAN ASTROLOGICAL SIGN SDONG TSHUGS", aliases: &[] },
        Codepoint { codepoint: 0x0F1A, name: "TIBETAN SIGN RDEL DKAR GCIG", aliases: &[] },
        Codepoint { codepoint: 0x0F1B, name: "TIBETAN SIGN RDEL DKAR GNYIS", aliases: &[] },
        Codepoint { codepoint: 0x0F1C, name: "TIBETAN SIGN RDEL DKAR GSUM", aliases: &[] },
        Codepoint { codepoint: 0x0F1D, name: "TIBETAN SIGN RDEL NAG GCIG", aliases: &[] },
        Codepoint { codepoint: 0x0F1E, name: "TIBETAN SIGN RDEL NAG GNYIS", aliases: &[] },
        Codepoint { codepoint: 0x0F1F, name: "TIBETAN SIGN RDEL DKAR RDEL NAG", aliases: &[] },
        Codepoint { codepoint: 0x0F20, name: "TIBETAN DIGIT ZERO", aliases: &[] },
        Codepoint { codepoint: 0x0F21, name: "TIBETAN DIGIT ONE", aliases: &[] },
        Codepoint { codepoint: 0x0F22, name: "TIBETAN DIGIT TWO", aliases: &[] },
        Codepoint { codepoint: 0x0F23, name: "TIBETAN DIGIT THREE", aliases: &[] },
        Codepoint { codepoint: 0x0F24, name: "TIBETAN DIGIT FOUR", aliases: &[] },
        Codepoint { codepoint: 0x0F25, name: "TIBETAN DIGIT FIVE", aliases: &[] },
        Codepoint { codepoint: 0x0F26, name: "TIBETAN DIGIT SIX", aliases: &[] },
        Codepoint { codepoint: 0x0F27, name: "TIBETAN DIGIT SEVEN", aliases: &[] },
        Codepoint { codepoint: 0x0F28, name: "TIBETAN DIGIT EIGHT", aliases: &[] },
        Codepoint { codepoint: 0x0F29, name: "TIBETAN DIGIT NINE", aliases: &[] },
        Codepoint { codepoint: 0x0F2A, name: "TIBETAN DIGIT HALF ONE", aliases: &[] },
        Codepoint { codepoint: 0x0F2B, name: "TIBETAN DIGIT HALF TWO", aliases: &[] },
        Codepoint { codepoint: 0x0F2C, name: "TIBETAN DIGIT HALF THREE", aliases: &[] },
    ]
}

fn all_codepoints_84() -> (v: Vec<Codepoint>)
    ensures
        v@ == codepoint_table_84(),
{
    let v = vec![
        Codepoint { codepoint: 0x0F05, name: "TIBETAN MARK CLOSING YIG MGO SGAB MA", aliases: &[] },
        Codepoint { codepoint: 0x0F06, name: "TIBETAN MARK CARET YIG MGO PHUR SHAD MA", aliases: &[] },
        Codepoint { codepoint: 0x0F07, name: "TIBETAN MARK YIG MGO TSHEG SHAD MA", aliases: &[] },
        Codepoint { codepoint: 0x0F08, name: "TIBETAN MARK SBRUL SHAD", aliases: &["TIBETAN RGYANSHAD"] },
        Codepoint { codepoint: 0x0F09, name: "TIBETAN MARK BSKUR YIG MGO", aliases: &[] },
        Codepoint { codepoint: 0x0F0A, name: "TIBETAN MARK BKA- SHOG YIG MGO", aliases: &[] },
        Codepoint { codepoint: 0x0F0B, name: "TIBETAN MARK INTERSYLLABIC TSHEG", aliases: &["TIBETAN TSEG"] },
        Codepoint { codepoint: 0x0F0C, name: "TIBETAN MARK DELIMITER TSHEG BSTAR", aliases: &[] },
        Codepoint { codepoint: 0x0F0D, name: "TIBETAN MARK SHAD", aliases: &["TIBETAN SHAD"] },
        Codepoint { codepoint: 0x0F0E, name: "TIBETAN MARK NYIS SHAD", aliases: &["TIBETAN DOUBLE SHAD"] },
        Codepoint { codepoint: 0x0F0F, name: "TIBETAN MARK TSHEG SHAD", aliases: &[] },
        Codepoint { codepoint: 0x0F10, name: "TIBETAN MARK NYIS TSHEG SHAD", aliases: &[] },
        Codepoint { codepoint: 0x0F11, name: "TIBETAN MARK RIN CHEN SPUNGS SHAD", aliases: &["TIBETAN RINCHANPHUNGSHAD"] },
        Codepoint { codepoint: 0x0F12, name: "TIBETAN MARK RGYA GRAM SHAD", aliases: &[] },
        Codepoint { codepoint: 0x0F13, name: "TIBETAN MARK CARET -DZUD RTAGS ME LONG CAN", aliases: &[] },
        Codepoint { codepoint: 0x0F14, name: "TIBETAN MARK GTER TSHEG", aliases: &["TIBETAN COMMA"] },
        Codepoint { codepoint: 0x0F15, name: "TIBETAN LOGOTYPE SIGN CHAD RTAGS", aliases: &[] },
        Codepoint { codepoint: 0x0F16, name: "TIBETAN LOGOTYPE SIGN LHAG RTAGS", aliases: &[] },
        Codepoint { codepoint: 0x0F17, name: "TIBETAN ASTROLOGICAL SIGN SGRA GCAN -CHAR RTAGS", aliases: &[] },
        Codepoint { codepoint: 0x0F18, name: "TIBETAN ASTROLOGICAL SIGN -KHYUD PA", aliases: &[] },
        Codepoint { codepoint: 0x0F19, name: "TIBETAN ASTROLOGICAL SIGN SDONG TSHUGS", aliases: &[] },
        Codepoint { codepoint: 0x0F1A, name: "TIBETAN SIGN RDEL DKAR GCIG", aliases: &[] },
        Codepoint { codepoint: 0x0F1B, name: "TIBETAN SIGN RDEL DKAR GNYIS", aliases: &[] },
        Codepoint { codepoint: 0x0F1C, name: "TIBETAN SIGN RDEL DKAR GSUM", aliases: &[] },
        Codepoint { codepoint: 0x0F1D, name: "TIBETAN SIGN RDEL NAG GCIG", aliases: &[] },
        Codepoint { codepoint: 0x0F1E, name: "TIBETAN SIGN RDEL NAG GNYIS", aliases: &[] },
        Codepoint { codepoint: 0x0F1F, name: "TIBETAN SIGN RDEL DKAR RDEL NAG", aliases: &[] },
        Codepoint { codepoint: 0x0F20, name: "TIBETAN DIGIT ZERO", aliases: &[] },
        Codepoint { codepoint: 0x0F21, name: "TIBETAN DIGIT ONE", aliases: &[] },
        Codepoint { codepoint: 0x0F22, name: "TIBETAN DIGIT TWO", aliases: &[] },
        Codepoint { codepoint: 0x0F23, name: "TIBETAN DIGIT THREE", aliases: &[] },
        Codepoint { codepoint: 0x0F24, name: "TIBETAN DIGIT FOUR", aliases: &[] },
        Codepoint { codepoint: 0x0F25, name: "TIBETAN DIGIT FIVE", aliases: &[] },
        Codepoint { codepoint: 0x0F26, name: "TIBETAN DIGIT SIX", aliases: &[] },
        Codepoint { codepoint: 0x0F27, name: "TIBETAN DIGIT SEVEN", aliases: &[] },
        Codepoint { codepoint: 0x0F28, name: "TIBETAN DIGIT EIGHT", aliases: &[] },
        Codepoint { codepoint: 0x0F29, name: "TIBETAN DIGIT NINE", aliases: &[] },
        Codepoint { codepoint: 0x0F2A, name: "TIBETAN DIGIT HALF ONE", aliases: &[] },
        Codepoint { codepoint: 0x0F2B, name: "TIBETAN DIGIT HALF TWO", aliases: &[] },
        Codepoint { codepoint: 0x0F2C, name: "TIBETAN DIGIT HALF THREE", aliases: &[] },
    ];
    assert(v@ =~= codepoint_table_84());
    v
}

pub open spec fn codepoint_table_85() -> Seq<Codepoint> {
    seq![
        Codepoint { codepoint: 0x0F2D, name: "TIBETAN DIGIT HALF FOUR", aliases: &[] },
        Codepoint { codepoint: 0x0F2E, name: "TIBETAN DIGIT HALF FIVE", aliases: &[] },
        Codepoint { codepoint: 0x0F2F, name: "TIBETAN DIGIT HALF SIX", aliases: &[] },
        Codepoint { codepoint: 0x0F30, name: "TIBETAN DIGIT HALF SEVEN", aliases: &[] },
        Codepoint { codepoint: 0x0F31, name: "TIBETAN DIGIT HALF EIGHT", aliases: &[] },
        Codepoint { codepoint: 0x0F32, name: "TIBETAN DIGIT HALF NINE", aliases: &[] },
        Codepoint { codepoint: 0x0F33, name: "TIBETAN DIGIT HALF ZERO", aliases: &[] },
        Codepoint { codepoint: 0x0F34, name: "TIBETAN MARK BSDUS RTAGS", aliases: &[] },
        Codepoint { codepoint: 0x0F35, name: "TIBETAN MARK NGAS BZUNG NYI ZLA", aliases: &["TIBETAN HONORIFIC UNDER RING"] },
        Codepoint { codepoint: 0x0F36, name: "TIBETAN MARK CARET -DZUD RTAGS BZHI MIG CAN", aliases: &[] },
        Codepoint { codepoint: 0x0F37, name: "TIBETAN MARK NGAS BZUNG SGOR RTAGS", aliases: &["TIBETAN UNDER RING"] },
        Codepoint { codepoint: 0x0F38, name: "TIBETAN MARK CHE MGO", aliases: &[] },
        Codepoint { codepoint: 0x0F39, name: "TIBETAN MARK TSA -PHRU", aliases: &["TIBETAN LENITION MARK"] },
        Codepoint { codepoint: 0x0F3A, name: "TIBETAN MARK GUG RTAGS GYON", aliases: &[] },
        Codepoint { codepoint: 0x0F3B, name: "TIBETAN MARK GUG RTAGS GYAS", aliases: &[] },
        Codepoint { codepoint: 0x0F3C, name: "TIBETAN MARK ANG KHANG GYON", aliases: &["TIBETAN LEFT BRACE"] },
        Codepoint { codepoint: 0x0F3D, name: "TIBETAN MARK ANG KHANG GYAS", aliases: &["TIBETAN RIGHT BRACE"] },
        Codepoint { codepoint: 0x0F3E, name: "TIBETAN SIGN YAR TSHES", aliases: &[] },
        Codepoint { codepoint: 0x0F3F, name: "TIBETAN SIGN MAR TSHES", aliases: &[] },
        Codepoint { codepoint: 0x0F40, name: "TIBETAN LETTER KA", aliases: &[] },
        Codepoint { codepoint: 0x0F41, name: "TIBETAN LETTER KHA", aliases: &[] },
        Codepoint { codepoint: 0x0F42, name: "TIBETAN LETTER GA", aliases: &[] },
        Codepoint { codepoint: 0x0F43, name: "TIBETAN LETTER GHA", aliases: &[] },
        Codepoint { codepoint: 0x0F44, name: "TIBETAN LETTER NGA", aliases: &[] },
        Codepoint { codepoint: 0x0F45, name: "TIBETAN LETTER CA", aliases: &[] },
        Codepoint { codepoint: 0x0F46, name: "TIBETAN LETTER CHA", aliases: &[] },
        Codepoint { codepoint: 0x0F47, name: "TIBETAN LETTER JA", aliases: &[] },
        Codepoint { codepoint: 0x0F49, name: "TIBETAN LETTER NYA", aliases: &[] },
        Codepoint { codepoint: 0x0F4A, name: "TIBETAN LETTER TTA", aliases: &["TIBETAN LETTER REVERSED TA"] },
        Codepoint { codepoint: 0x0F4B, name: "TIBETAN LETTER TTHA", aliases: &["TIBETAN LETTER REVERSED THA"] },
        Codepoint { codepoint: 0x0F4C, name: "TIBETAN LETTER DDA", aliases: &["TIBETAN LETTER REVERSED DA"] },
        Codepoint { codepoint: 0x0F4D, name: "TIBETAN LETTER DDHA", aliases: &[] },
        Codepoint { codepoint: 0x0F4E, name: "TIBETAN LETTER NNA", aliases: &["TIBETAN LETTER REVERSED NA"] },
        Codepoint { codepoint: 0x0F4F, name: "TIBETAN LETTER TA", aliases: &[] },
        Codepoint { codepoint: 0x0F50, name: "TIBETAN LETTER THA", aliases: &[] },
        Codepoint { codepoint: 0x0F51, name: "TIBETAN LETTER DA", aliases: &[] },
        Codepoint { codepoint: 0x0F52, name: "TIBETAN LETTER DHA", aliases: &[] },
        Codepoint { codepoint: 0x0F53, name: "TIBETAN LETTER NA", aliases: &[] },
        Codepoint { codepoint: 0x0F54, name: "TIBETAN LETTER PA", aliases: &[] },
        Codepoint { codepoint: 0x0F55, name: "TIBETAN LETTER PHA", aliases: &[] },
    ]
}

fn all_codepoints_85() -> (v: Vec<Codepoint>)
    ensures
        v@ == codepoint_table_85(),
{
    let v = vec![
        Codepoint { codepoint: 0x0F2D, name: "TIBETAN DIGIT HALF FOUR", aliases: &[] },
        Codepoint { codepoint: 0x0F2E, name: "TIBETAN DIGIT HALF FIVE", aliases: &[] },
        Codepoint { codepoint: 0x0F2F, name: "TIBETAN DIGIT HALF SIX", aliases: &[] },
        Codepoint { codepoint: 0x0F30, name: "TIBETAN DIGIT HALF SEVEN", aliases: &[] },
        Codepoint { codepoint: 0x0F31, name: "TIBETAN DIGIT HALF EIGHT", aliases: &[] },
        Codepoint { codepoint: 0x0F32, name: "TIBETAN DIGIT HALF NINE", aliases: &[] },
        Codepoint { codepoint: 0x0F33, name: "TIBETAN DIGIT HALF ZERO", aliases: &[] },
        Codepoint { codepoint: 0x0F34, name: "TIBETAN MARK BSDUS RTAGS", aliases: &[] },
        Codepoint { codepoint: 0x0F35, name: "TIBETAN MARK NGAS BZUNG NYI ZLA", aliases: &["TIBETAN HONORIFIC UNDER RING"] },
        Codepoint { codepoint: 0x0F36, name: "TIBETAN MARK CARET -DZUD RTAGS BZHI MIG CAN", aliases: &[] },
        Codepoint { codepoint: 0x0F37, name: "TIBETAN MARK NGAS BZUNG SGOR RTAGS", aliases: &["TIBETAN UNDER RING"] },
        Codepoint { codepoint: 0x0F38, name: "TIBETAN MARK CHE MGO", aliases: &[] },
        Codepoint { codepoint: 0x0F39, name: "TIBETAN MARK TSA -PHRU", aliases: &["TIBETAN LENITION MARK"] },
        Codepoint { codepoint: 0x0F3A, name: "TIBETAN MARK GUG RTAGS GYON", aliases: &[] },
        Codepoint { codepoint: 0x0F3B, name: "TIBETAN MARK GUG RTAGS GYAS", aliases: &[] },
        Codepoint { codepoint: 0x0F3C, name: "TIBETAN MARK ANG KHANG GYON", aliases: &["TIBETAN LEFT BRACE"] },
        Codepoint { codepoint: 0x0F3D, name: "TIBETAN MARK ANG KHANG GYAS", aliases: &["TIBETAN RIGHT BRACE"] },
        Codepoint { codepoint: 0x0F3E, name: "TIBETAN SIGN YAR TSHES", aliases: &[] },
        Codepoint { codepoint: 0x0F3F, name: "TIBETAN SIGN MAR TSHES", aliases: &[] },
        Codepoint { codepoint: 0x0F40, name: "TIBETAN LETTER KA", aliases: &[] },
        Codepoint { codepoint: 0x0F41, name: "TIBETAN LETTER KHA", aliases: &[] },
        Codepoint { codepoint: 0x0F42, name: "TIBETAN LETTER GA", aliases: &[] },
        Codepoint { codepoint: 0x0F43, name: "TIBETAN LETTER GHA", aliases: &[] },
        Codepoint { codepoint: 0x0F44, name: "TIBETAN LETTER NGA", aliases: &[] },
        Codepoint { codepoint: 0x0F45, name: "TIBETAN LETTER CA", aliases: &[] },
        Codepoint { codepoint: 0x0F46, name: "TIBETAN LETTER CHA", aliases: &[] },
        Codepoint { codepoint: 0x0F47, name: "TIBETAN LETTER JA", aliases: &[] },
        Codepoint { codepoint: 0x0F49, name: "TIBETAN LETTER NYA", aliases: &[] },
        Codepoint { codepoint: 0x0F4A, name: "TIBETAN LETTER TTA", aliases: &["TIBETAN LETTER REVERSED TA"] },
        Codepoint { codepoint: 0x0F4B, name: "TIBETAN LETTER TTHA", aliases: &["TIBETAN LETTER REVERSED THA"] },
        Codepoint { codepoint: 0x0F4C, name: "TIBETAN LETTER DDA", aliases: &["TIBETAN LETTER REVERSED DA"] },
        Codepoint { codepoint: 0x0F4D, name: "TIBETAN LETTER DDHA", aliases: &[] },
        Codepoint { codepoint: 0x0F4E, name: "TIBETAN LETTER NNA", aliases: &["TIBETAN LETTER REVERSED NA"] },
        Codepoint { codepoint: 0x0F4F, name: "TIBETAN LETTER TA", aliases: &[] },
        Codepoint { codepoint: 0x0F50, name: "TIBETAN LETTER THA", aliases: &[] },
        Codepoint { codepoint: 0x0F51, name: "TIBETAN LETTER DA", aliases: &[] },
        Codepoint { codepoint: 0x0F52, name: "TIBETAN LETTER DHA", aliases: &[] },
        Codepoint { codepoint: 0x0F53, name: "TIBETAN LETTER NA", aliases: &[] },
        Codepoint { codepoint: 0x0F54, name: "TIBETAN LETTER PA", aliases: &[] },
        Codepoint { codepoint: 0x0F55, name: "TIBETAN LETTER PHA", aliases: &[] },
    ];
    assert(v@ =~= codepoint_table_85());
    v
}

pub open spec fn codepoint_table_86() -> Seq<Codepoint> {
    seq![
        Codepoint { codepoint: 0x0F56, name: "TIBETAN LETTER BA", aliases: &[] },
        Codepoint { codepoint: 0x0F57, name: "TIBETAN LETTER BHA", aliases: &[] },
        Codepoint { codepoint: 0x0F58, name: "TIBETAN LETTER MA", aliases: &[] },
        Codepoint { codepoint: 0x0F59, name: "TIBETAN LETTER TSA", aliases: &[] },
        Codepoint { codepoint: 0x0F5A, name: "TIBETAN LETTER TSHA", aliases: &[] },
        Codepoint { codepoint: 0x0F5B, name: "TIBETAN LETTER DZA", aliases: &[] },
        Codepoint { codepoint: 0x0F5C, name: "TIBETAN LETTER DZHA", aliases: &[] },
        Codepoint { codepoint: 0x0F5D, name: "TIBETAN LETTER WA", aliases: &[] },
        Codepoint { codepoint: 0x0F5E, name: "TIBETAN LETTER ZHA", aliases: &[] },
        Codepoint { codepoint: 0x0F5F, name: "TIBETAN LETTER ZA", aliases: &[] },
        Codepoint { codepoint: 0x0F60, name: "TIBETAN LETTER -A", aliases: &["TIBETAN LETTER AA"] },
        Codepoint { codepoint: 0x0F61, name: "TIBETAN LETTER YA", aliases: &[] },
        Codepoint { codepoint: 0x0F62, name: "TIBETAN LETTER RA", aliases: &[] },
        Codepoint { codepoint: 0x0F63, name: "TIBETAN LETTER LA", aliases: &[] },
        Codepoint { codepoint: 0x0F64, name: "TIBETAN LETTER SHA", aliases: &[] },
        Codepoint { codepoint: 0x0F65, name: "TIBETAN LETTER SSA", aliases: &["TIBETAN LETTER REVERSED SHA"] },
        Codepoint { codepoint: 0x0F66, name: "TIBETAN LETTER SA", aliases: &[] },
        Codepoint { codepoint: 0x0F67, name: "TIBETAN LETTER HA", aliases: &[] },
        Codepoint { codepoint: 0x0F68, name: "TIBETAN LETTER A", aliases: &[] },
        Codepoint { codepoint: 0x0F69, name: "TIBETAN LETTER KSSA", aliases: &[] },
        Codepoint { codepoint: 0x0F6A, name: "TIBETAN LETTER FIXED-FORM RA", aliases: &[] },
        Codepoint { codepoint: 0x0F6B, name: "TIBETAN LETTER KKA", aliases: &[] },
        Codepoint { codepoint: 0x0F6C, name: "TIBETAN LETTER RRA", aliases: &[] },
        Codepoint { codepoint: 0x0F71, name: "TIBETAN VOWEL SIGN AA", aliases: &[] },
        Codepoint { codepoint: 0x0F72, name: "TIBETAN VOWEL SIGN I", aliases: &[] },
        Codepoint { codepoint: 0x0F73, name: "TIBETAN VOWEL SIGN II", aliases: &[] },
        Codepoint { codepoint: 0x0F74, name: "TIBETAN VOWEL SIGN U", aliases: &[] },
        Codepoint { codepoint: 0x0F75, name: "TIBETAN VOWEL SIGN UU", aliases: &[] },
        Codepoint { codepoint: 0x0F76, name: "TIBETAN VOWEL SIGN VOCALIC R", aliases: &[] },
        Codepoint { codepoint: 0x0F77, name: "TIBETAN VOWEL SIGN VOCALIC RR", aliases: &[] },
        Codepoint { codepoint: 0x0F78, name: "TIBETAN VOWEL SIGN VOCALIC L", aliases: &[] },
        Codepoint { codepoint: 0x0F79, name: "TIBETAN VOWEL SIGN VOCALIC LL", aliases: &[] },
        Codepoint { codepoint: 0x0F7A, name: "TIBETAN VOWEL SIGN E", aliases: &[] },
        Codepoint { codepoint: 0x0F7B, name: "TIBETAN VOWEL SIGN EE", aliases: &["TIBETAN VOWEL SIGN AI"] },
        Codepoint { codepoint: 0x0F7C, name: "TIBETAN VOWEL SIGN O", aliases: &[] },
        Codepoint { codepoint: 0x0F7D, name: "TIBETAN VOWEL SIGN OO", aliases: &["TIBETAN VOWEL SIGN AU"] },
        Codepoint { codepoint: 0x0F7E, name: "TIBETAN SIGN RJES SU NGA RO", aliases: &["TIBETAN ANUSVARA"] },
        Codepoint { codepoint: 0x0F7F, name: "TIBETAN SIGN RNAM BCAD", aliases: &["TIBETAN VISARGA"] },
        Codepoint { codepoint: 0x0F80, name: "TIBETAN VOWEL SIGN REVERSED I", aliases: &["TIBETAN VOWEL SIGN SHORT I"] },
        Codepoint { codepoint: 0x0F81, name: "TIBETAN VOWEL SIGN REVERSED II", aliases: &[] },
    ]
}

fn all_codepoints_86() -> (v: Vec<Codepoint>)
    ensures
        v@ == codepoint_table_86(),
{
    let v = vec![
        Codepoint { codepoint: 0x0F56, name: "TIBETAN LETTER BA", aliases: &[] },
        Codepoint { codepoint: 0x0F57, name: "TIBETAN LETTER BHA", aliases: &[] },
        Codepoint { codepoint: 0x0F58, name: "TIBETAN LETTER MA", aliases: &[] },
        Codepoint { codepoint: 0x0F59, name: "TIBETAN LETTER TSA", aliases: &[] },
        Codepoint { codepoint: 0x0F5A, name: "TIBETAN LETTER TSHA", aliases: &[] },
        Codepoint { codepoint: 0x0F5B, name: "TIBETAN LETTER DZA", aliases: &[] },
        Codepoint { codepoint: 0x0F5C, name: "TIBETAN LETTER DZHA", aliases: &[] },
        Codepoint { codepoint: 0x0F5D, name: "TIBETAN LETTER WA", aliases: &[] },
        Codepoint { codepoint: 0x0F5E, name: "TIBETAN LETTER ZHA", aliases: &[] },
        Codepoint { codepoint: 0x0F5F, name: "TIBETAN LETTER ZA", aliases: &[] },
        Codepoint { codepoint: 0x0F60, name: "TIBETAN LETTER -A", aliases: &["TIBETAN LETTER AA"] },
        Codepoint { codepoint: 0x0F61, name: "TIBETAN LETTER YA", aliases: &[] },
        Codepoint { codepoint: 0x0F62, name: "TIBETAN LETTER RA", aliases: &[] },
        Codepoint { codepoint: 0x0F63, name: "TIBETAN LETTER LA", aliases: &[] },
        Codepoint { codepoint: 0x0F64, name: "TIBETAN LETTER SHA", aliases: &[] },
        Codepoint { codepoint: 0x0F65, name: "TIBETAN LETTER SSA", aliases: &["TIBETAN LETTER REVERSED SHA"] },
        Codepoint { codepoint: 0x0F66, name: "TIBETAN LETTER SA", aliases: &[] },
        Codepoint { codepoint: 0x0F67, name: "TIBETAN LETTER HA", aliases: &[] },
        Codepoint { codepoint: 0x0F68, name: "TIBETAN LETTER A", aliases: &[] },
        Codepoint { codepoint: 0x0F69, name: "TIBETAN LETTER KSSA", aliases: &[] },
        Codepoint { codepoint: 0x0F6A, name: "TIBETAN LETTER FIXED-FORM RA", aliases: &[] },
        Codepoint { codepoint: 0x0F6B, name: "TIBETAN LETTER KKA", aliases: &[] },
        Codepoint { codepoint: 0x0F6C, name: "TIBETAN LETTER RRA", aliases: &[] },
        Codepoint { codepoint: 0x0F71, name: "TIBETAN VOWEL SIGN AA", aliases: &[] },
        Codepoint { codepoint: 0x0F72, name: "TIBETAN VOWEL SIGN I", aliases: &[] },
        Codepoint { codepoint: 0x0F73, name: "TIBETAN VOWEL SIGN II", aliases: &[] },
        Codepoint { codepoint: 0x0F74, name: "TIBETAN VOWEL SIGN U", aliases: &[] },
        Codepoint { codepoint: 0x0F75, name: "TIBETAN VOWEL SIGN UU", aliases: &[] },
        Codepoint { codepoint: 0x0F76, name: "TIBETAN VOWEL SIGN VOCALIC R", aliases: &[] },
        Codepoint { codepoint: 0x0F77, name: "TIBETAN VOWEL SIGN VOCALIC RR", aliases: &[] },
        Codepoint { codepoint: 0x0F78, name: "TIBETAN VOWEL SIGN VOCALIC L", aliases: &[] },
        Codepoint { codepoint: 0x0F79, name: "TIBETAN VOWEL SIGN VOCALIC LL", aliases: &[] },
        Codepoint { codepoint: 0x0F7A, name: "TIBETAN VOWEL SIGN E", aliases: &[] },
        Codepoint { codepoint: 0x0F7B, name: "TIBETAN VOWEL SIGN EE", aliases: &["TIBETAN VOWEL SIGN AI"] },
        Codepoint { codepoint: 0x0F7C, name: "TIBETAN VOWEL SIGN O", aliases: &[] },
        Codepoint { codepoint: 0x0F7D, name: "TIBETAN VOWEL SIGN OO", aliases: &["TIBETAN VOWEL SIGN AU"] },
        Codepoint { codepoint: 0x0F7E, name: "TIBETAN SIGN RJES SU NGA RO", aliases: &["TIBETAN ANUSVARA"] },
        Codepoint { codepoint: 0x0F7F, name: "TIBETAN SIGN RNAM BCAD", aliases: &["TIBETAN VISARGA"] },
        Codepoint { codepoint: 0x0F80, name: "TIBETAN VOWEL SIGN REVERSED I", aliases: &["TIBETAN VOWEL SIGN SHORT I"] },
        Codepoint { codepoint: 0x0F81, name: "TIBETAN VOWEL SIGN REVERSED II", aliases: &[] },
    ];
    assert(v@ =~= codepoint_table_86());
    v
}

pub open spec fn codepoint_table_87() -> Seq<Codepoint> {
    seq![
        Codepoint { codepoint: 0x0F82, name: "TIBETAN SIGN NYI ZLA NAA DA", aliases: &["TIBETAN CANDRABINDU WITH ORNAMENT"] },
        Codepoint { codepoint: 0x0F83, name: "TIBETAN SIGN SNA LDAN", aliases: &["TIBETAN CANDRABINDU"] },
        Codepoint { codepoint: 0x0F84, name: "TIBETAN MARK HALANTA", aliases: &["TIBETAN VIRAMA"] },
        Codepoint { codepoint: 0x0F85, name: "TIBETAN MARK PALUTA", aliases: &["TIBETAN CHUCHENYIGE"] },
        Codepoint { codepoint: 0x0F86, name: "TIBETAN SIGN LCI RTAGS", aliases: &[] },
        Codepoint { codepoint: 0x0F87, name: "TIBETAN SIGN YANG RTAGS", aliases: &[] },
        Codepoint { codepoint: 0x0F88, name: "TIBETAN SIGN LCE TSA CAN", aliases: &[] },
        Codepoint { codepoint: 0x0F89, name: "TIBETAN SIGN MCHU CAN", aliases: &[] },
        Codepoint { codepoint: 0x0F8A, name: "TIBETAN SIGN GRU CAN RGYINGS", aliases: &[] },
        Codepoint { codepoint: 0x0F8B, name: "TIBETAN SIGN GRU MED RGYINGS", aliases: &[] },
        Codepoint { codepoint: 0x0F8C, name: "TIBETAN SIGN INVERTED MCHU CAN", aliases: &[] },
        Codepoint { codepoint: 0x0F8D, name: "TIBETAN SUBJOINED SIGN LCE TSA CAN", aliases: &[] },
        Codepoint { codepoint: 0x0F8E, name: "TIBETAN SUBJOINED SIGN MCHU CAN", aliases: &[] },
        Codepoint { codepoint: 0x0F8F, name: "TIBETAN SUBJOINED SIGN INVERTED MCHU CAN", aliases: &[] },
        Codepoint { codepoint: 0x0F90, name: "TIBETAN SUBJOINED LETTER KA", aliases: &[] },
        Codepoint { codepoint: 0x0F91, name: "TIBETAN SUBJOINED LETTER KHA", aliases: &[] },
        Codepoint { codepoint: 0x0F92, name: "TIBETAN SUBJOINED LETTER GA", aliases: &[] },
        Codepoint { codepoint: 0x0F93, name: "TIBETAN SUBJOINED LETTER GHA", aliases: &[] },
        Codepoint { codepoint: 0x0F94, name: "TIBETAN SUBJOINED LETTER NGA", aliases: &[] },
        Codepoint { codepoint: 0x0F95, name: "TIBETAN SUBJOINED LETTER CA", aliases: &[] },
        Codepoint { codepoint: 0x0F96, name: "TIBETAN SUBJOINED LETTER CHA", aliases: &[] },
        Codepoint { codepoint: 0x0F97, name: "TIBETAN SUBJOINED LETTER JA", aliases: &[] },
        Codepoint { codepoint: 0x0F99, name: "TIBETAN SUBJOINED LETTER NYA", aliases: &[] },
        Codepoint { codepoint: 0x0F9A, name: "TIBETAN SUBJOINED LETTER TTA", aliases: &[] },
        Codepoint { codepoint: 0x0F9B, name: "TIBETAN SUBJOINED LETTER TTHA", aliases: &[] },
        Codepoint { codepoint: 0x0F9C, name: "TIBETAN SUBJOINED LETTER DDA", aliases: &[] },
        Codepoint { codepoint: 0x0F9D, name: "TIBETAN SUBJOINED LETTER DDHA", aliases: &[] },
        Codepoint { codepoint: 0x0F9E, name: "TIBETAN SUBJOINED LETTER NNA", aliases: &[] },
        Codepoint { codepoint: 0x0F9F, name: "TIBETAN SUBJOINED LETTER TA", aliases: &[] },
        Codepoint { codepoint: 0x0FA0, name: "TIBETAN SUBJOINED LETTER THA", aliases: &[] },
        Codepoint { codepoint: 0x0FA1, name: "TIBETAN SUBJOINED LETTER DA", aliases: &[] },
        Codepoint { codepoint: 0x0FA2, name: "TIBETAN SUBJOINED LETTER DHA", aliases: &[] },
        Codepoint { codepoint: 0x0FA3, name: "TIBETAN SUBJOINED LETTER NA", aliases: &[] },
        Codepoint { codepoint: 0x0FA4, name: "TIBETAN SUBJOINED LETTER PA", aliases: &[] },
        Codepoint { codepoint: 0x0FA5, name: "TIBETAN SUBJOINED LETTER PHA", aliases: &[] },
        Codepoint { codepoint: 0x0FA6, name: "TIBETAN SUBJOINED LETTER BA", aliases: &[] },
        Codepoint { codepoint: 0x0FA7, name: "TIBETAN SUBJOINED LETTER BHA", aliases: &[] },
        Codepoint { codepoint: 0x0FA8, name: "TIBETAN SUBJOINED LETTER MA", aliases: &[] },
        Codepoint { codepoint: 0x0FA9, name: "TIBETAN SUBJOINED LETTER TSA", aliases: &[] },
        Codepoint { codepoint: 0x0FAA, name: "TIBETAN SUBJOINED LETTER TSHA", aliases: &[] },
    ]
}

fn all_codepoints_87() -> (v: Vec<Codepoint>)
    ensures
        v@ == codepoint_table_87(),
{
    let v = vec![
        Codepoint { codepoint: 0x0F82, name: "TIBETAN SIGN NYI ZLA NAA DA", aliases: &["TIBETAN CANDRABINDU WITH ORNAMENT"] },
        Codepoint { codepoint: 0x0F83, name: "TIBETAN SIGN SNA LDAN", aliases: &["TIBETAN CANDRABINDU"] },
        Codepoint { codepoint: 0x0F84, name: "TIBETAN MARK HALANTA", aliases: &["TIBETAN VIRAMA"] },
        Codepoint { codepoint: 0x0F85, name: "TIBETAN MARK PALUTA", aliases: &["TIBETAN CHUCHENYIGE"] },
        Codepoint { codepoint: 0x0F86, name: "TIBETAN SIGN LCI RTAGS", aliases: &[] },
        Codepoint { codepoint: 0x0F87, name: "TIBETAN SIGN YANG RTAGS", aliases: &[] },
        Codepoint { codepoint: 0x0F88, name: "TIBETAN SIGN LCE TSA CAN", aliases: &[] },
        Codepoint { codepoint: 0x0F89, name: "TIBETAN SIGN MCHU CAN", aliases: &[] },
        Codepoint { codepoint: 0x0F8A, name: "TIBETAN SIGN GRU CAN RGYINGS", aliases: &[] },
        Codepoint { codepoint: 0x0F8B, name: "TIBETAN SIGN GRU MED RGYINGS", aliases: &[] },
        Codepoint { codepoint: 0x0F8C, name: "TIBETAN SIGN INVERTED MCHU CAN", aliases: &[] },
        Codepoint { codepoint: 0x0F8D, name: "TIBETAN SUBJOINED SIGN LCE TSA CAN", aliases: &[] },
        Codepoint { codepoint: 0x0F8E, name: "TIBETAN SUBJOINED SIGN MCHU CAN", aliases: &[] },
        Codepoint { codepoint: 0x0F8F, name: "TIBETAN SUBJOINED SIGN INVERTED MCHU CAN", aliases: &[] },
        Codepoint { codepoint: 0x0F90, name: "TIBETAN SUBJOINED LETTER KA", aliases: &[] },
        Codepoint { codepoint: 0x0F91, name: "TIBETAN SUBJOINED LETTER KHA", aliases: &[] },
        Codepoint { codepoint: 0x0F92, name: "TIBETAN SUBJOINED LETTER GA", aliases: &[] },
        Codepoint { codepoint: 0x0F93, name: "TIBETAN SUBJOINED LETTER GHA", aliases: &[] },
        Codepoint { codepoint: 0x0F94, name: "TIBETAN SUBJOINED LETTER NGA", aliases: &[] },
        Codepoint { codepoint: 0x0F95, name: "TIBETAN SUBJOINED LETTER CA", aliases: &[] },
        Codepoint { codepoint: 0x0F96, name: "TIBETAN SUBJOINED LETTER CHA", aliases: &[] },
        Codepoint { codepoint: 0x0F97, name: "TIBETAN SUBJOINED LETTER JA", aliases: &[] },
        Codepoint { codepoint: 0x0F99, name: "TIBETAN SUBJOINED LETTER NYA", aliases: &[] },
        Codepoint { codepoint: 0x0F9A, name: "TIBETAN SUBJOINED LETTER TTA", aliases: &[] },
        Codepoint { codepoint: 0x0F9B, name: "TIBETAN SUBJOINED LETTER TTHA", aliases: &[] },
        Codepoint { codepoint: 0x0F9C, name: "TIBETAN SUBJOINED LETTER DDA", aliases: &[] },
        Codepoint { codepoint: 0x0F9D, name: "TIBETAN SUBJOINED LETTER DDHA", aliases: &[] },
        Codepoint { codepoint: 0x0F9E, name: "TIBETAN SUBJOINED LETTER NNA", aliases: &[] },
        Codepoint { codepoint: 0x0F9F, name: "TIBETAN SUBJOINED LETTER TA", aliases: &[] },
        Codepoint { codepoint: 0x0FA0, name: "TIBETAN SUBJOINED LETTER THA", aliases: &[] },
        Codepoint { codepoint: 0x0FA1, name: "TIBETAN SUBJOINED LETTER DA", aliases: &[] },
        Codepoint { codepoint: 0x0FA2, name: "TIBETAN SUBJOINED LETTER DHA", aliases: &[] },
        Codepoint { codepoint: 0x0FA3, name: "TIBETAN SUBJOINED LETTER NA", aliases: &[] },
        Codepoint { codepoint: 0x0FA4, name: "TIBETAN SUBJOINED LETTER PA", aliases: &[] },
        Codepoint { codepoint: 0x0FA5, name: "TIBETAN SUBJOINED LETTER PHA", aliases: &[] },
        Codepoint { codepoint: 0x0FA6, name: "TIBETAN SUBJOINED LETTER BA", aliases: &[] },
        Codepoint { codepoint: 0x0FA7, name: "TIBETAN SUBJOINED LETTER BHA", aliases: &[] },
        Codepoint { codepoint: 0x0FA8, name: "TIBETAN SUBJOINED LETTER MA", aliases: &[] },
        Codepoint { codepoint: 0x0FA9, name: "TIBETAN SUBJOINED LETTER TSA", aliases: &[] },
        Codepoint { codepoint: 0x0FAA, name: "TIBETAN SUBJOINED LETTER TSHA", aliases: &[] },
    ];
    assert(v@ =~= codepoint_table_87());
    v
}

pub open spec fn codepoint_table_88() -> Seq<Codepoint> {
    seq![
        Codepoint { codepoint: 0x0FAB, name: "TIBETAN SUBJOINED LETTER DZA", aliases: &[] },
        Codepoint { codepoint: 0x0FAC, name: "TIBETAN SUBJOINED LETTER DZHA", aliases: &[] },
        Codepoint { codepoint: 0x0FAD, name: "TIBETAN SUBJOINED LETTER WA", aliases: &[] },
        Codepoint { codepoint: 0x0FAE, name: "TIBETAN SUBJOINED LETTER ZHA", aliases: &[] },
        Codepoint { codepoint: 0x0FAF, name: "TIBETAN SUBJOINED LETTER ZA", aliases: &[] },
        Codepoint { codepoint: 0x0FB0, name: "TIBETAN SUBJOINED LETTER -A", aliases: &[] },
        Codepoint { codepoint: 0x0FB1, name: "TIBETAN SUBJOINED LETTER YA", aliases: &[] },
        Codepoint { codepoint: 0x0FB2, name: "TIBETAN SUBJOINED LETTER RA", aliases: &[] },
        Codepoint { codepoint: 0x0FB3, name: "TIBETAN SUBJOINED LETTER LA", aliases: &[] },
        Codepoint { codepoint: 0x0FB4, name: "TIBETAN SUBJOINED LETTER SHA", aliases: &[] },
        Codepoint { codepoint: 0x0FB5, name: "TIBETAN SUBJOINED LETTER SSA", aliases: &[] },
        Codepoint { codepoint: 0x0FB6, name: "TIBETAN SUBJOINED LETTER SA", aliases: &[] },
        Codepoint { codepoint: 0x0FB7, name: "TIBETAN SUBJOINED LETTER HA", aliases: &[] },
        Codepoint { codepoint: 0x0FB8, name: "TIBETAN SUBJOINED LETTER A", aliases: &[] },
        Codepoint { codepoint: 0x0FB9, name: "TIBETAN SUBJOINED LETTER KSSA", aliases: &[] },
        Codepoint { codepoint: 0x0FBA, name: "TIBETAN SUBJOINED LETTER FIXED-FORM WA", aliases: &[] },
        Codepoint { codepoint: 0x0FBB, name: "TIBETAN SUBJOINED LETTER FIXED-FORM YA", aliases: &[] },
        Codepoint { codepoint: 0x0FBC, name: "TIBETAN SUBJOINED LETTER FIXED-FORM RA", aliases: &[] },
        Codepoint { codepoint: 0x0FBE, name: "TIBETAN KU RU KHA", aliases: &[] },
        Codepoint { codepoint: 0x0FBF, name: "TIBETAN KU RU KHA BZHI MIG CAN", aliases: &[] },
        Codepoint { codepoint: 0x0FC0, name: "TIBETAN CANTILLATION SIGN HEAVY BEAT", aliases: &[] },
        Codepoint { codepoint: 0x0FC1, name: "TIBETAN CANTILLATION SIGN LIGHT BEAT", aliases: &[] },
        Codepoint { codepoint: 0x0FC2, name: "TIBETAN CANTILLATION SIGN CANG TE-U", aliases: &[] },
        Codepoint { codepoint: 0x0FC3, name: "TIBETAN CANTILLATION SIGN SBUB -CHAL", aliases: &[] },
        Codepoint { codepoint: 0x0FC4, name: "TIBETAN SYMBOL DRIL BU", aliases: &[] },
        Codepoint { codepoint: 0x0FC5, name: "TIBETAN SYMBOL RDO RJE", aliases: &[] },
        Codepoint { codepoint: 0x0FC6, name: "TIBETAN SYMBOL PADMA GDAN", aliases: &[] },
        Codepoint { codepoint: 0x0FC7, name: "TIBETAN SYMBOL RDO RJE RGYA GRAM", aliases: &[] },
        Codepoint { codepoint: 0x0FC8, name: "TIBETAN SYMBOL PHUR PA", aliases: &[] },
        Codepoint { codepoint: 0x0FC9, name: "TIBETAN SYMBOL NOR BU", aliases: &[] },
        Codepoint { codepoint: 0x0FCA, name: "TIBETAN SYMBOL NOR BU NYIS -KHYIL", aliases: &[] },
        Codepoint { codepoint: 0x0FCB, name: "TIBETAN SYMBOL NOR BU GSUM -KHYIL", aliases: &[] },
        Codepoint { codepoint: 0x0FCC, name: "TIBETAN SYMBOL NOR BU BZHI -KHYIL", aliases: &[] },
        Codepoint { codepoint: 0x0FCE, name: "TIBETAN SIGN RDEL NAG RDEL DKAR", aliases: &[] },
        Codepoint { codepoint: 0x0FCF, name: "TIBETAN SIGN RDEL NAG GSUM", aliases: &[] },
        Codepoint { codepoint: 0x0FD0, name: "TIBETAN MARK BSKA- SHOG GI MGO RGYAN", aliases: &[] },
        Codepoint { codepoint: 0x0FD1, name: "TIBETAN MARK MNYAM YIG GI MGO RGYAN", aliases: &[] },
        Codepoint { codepoint: 0x0FD2, name: "TIBETAN MARK NYIS TSHEG", aliases: &[] },
        Codepoint { codepoint: 0x0FD3, name: "TIBETAN MARK INITIAL BRDA RNYING YIG MGO MDUN MA", aliases: &[] },
        Codepoint { codepoint: 0x0FD4, name: "TIBETAN MARK CLOSING BRDA RNYING YIG MGO SGAB MA", aliases: &[] },
    ]
}

fn all_codepoints_88() -> (v: Vec<Codepoint>)
    ensures
        v@ == codepoint_table_88(),
{
    let v = vec![
        Codepoint { codepoint: 0x0FAB, name: "TIBETAN SUBJOINED LETTER DZA", aliases: &[] },
        Codepoint { codepoint: 0x0FAC, name: "TIBETAN SUBJOINED LETTER DZHA", aliases: &[] },
        Codepoint { codepoint: 0x0FAD, name: "TIBETAN SUBJOINED LETTER WA", aliases: &[] },
        Codepoint { codepoint: 0x0FAE, name: "TIBETAN SUBJOINED LETTER ZHA", aliases: &[] },
        Codepoint { codepoint: 0x0FAF, name: "TIBETAN SUBJOINED LETTER ZA", aliases: &[] },
        Codepoint { codepoint: 0x0FB0, name: "TIBETAN SUBJOINED LETTER -A", aliases: &[] },
        Codepoint { codepoint: 0x0FB1, name: "TIBETAN SUBJOINED LETTER YA", aliases: &[] },
        Codepoint { codepoint: 0x0FB2, name: "TIBETAN SUBJOINED LETTER RA", aliases: &[] },
        Codepoint { codepoint: 0x0FB3, name: "TIBETAN SUBJOINED LETTER LA", aliases: &[] },
        Codepoint { codepoint: 0x0FB4, name: "TIBETAN SUBJOINED LETTER SHA", aliases: &[] },
        Codepoint { codepoint: 0x0FB5, name: "TIBETAN SUBJOINED LETTER SSA", aliases: &[] },
        Codepoint { codepoint: 0x0FB6, name: "TIBETAN SUBJOINED LETTER SA", aliases: &[] },
        Codepoint { codepoint: 0x0FB7, name: "TIBETAN SUBJOINED LETTER HA", aliases: &[] },
        Codepoint { codepoint: 0x0FB8, name: "TIBETAN SUBJOINED LETTER A", aliases: &[] },
        Codepoint { codepoint: 0x0FB9, name: "TIBETAN SUBJOINED LETTER KSSA", aliases: &[] },
        Codepoint { codepoint: 0x0FBA, name: "TIBETAN SUBJOINED LETTER FIXED-FORM WA", aliases: &[] },
        Codepoint { codepoint: 0x0FBB, name: "TIBETAN SUBJOINED LETTER FIXED-FORM YA", aliases: &[] },
        Codepoint { codepoint: 0x0FBC, name: "TIBETAN SUBJOINED LETTER FIXED-FORM RA", aliases: &[] },
        Codepoint { codepoint: 0x0FBE, name: "TIBETAN KU RU KHA", aliases: &[] },
        Codepoint { codepoint: 0x0FBF, name: "TIBETAN KU RU KHA BZHI MIG CAN", aliases: &[] },
        Codepoint { codepoint: 0x0FC0, name: "TIBETAN CANTILLATION SIGN HEAVY BEAT", aliases: &[] },
        Codepoint { codepoint: 0x0FC1, name: "TIBETAN CANTILLATION SIGN LIGHT BEAT", aliases: &[] },
        Codepoint { codepoint: 0x0FC2, name: "TIBETAN CANTILLATION SIGN CANG TE-U", aliases: &[] },
        Codepoint { codepoint: 0x0FC3, name: "TIBETAN CANTILLATION SIGN SBUB -CHAL", aliases: &[] },
        Codepoint { codepoint: 0x0FC4, name: "TIBETAN SYMBOL DRIL BU", aliases: &[] },
        Codepoint { codepoint: 0x0FC5, name: "TIBETAN SYMBOL RDO RJE", aliases: &[] },
        Codepoint { codepoint: 0x0FC6, name: "TIBETAN SYMBOL PADMA GDAN", aliases: &[] },
        Codepoint { codepoint: 0x0FC7, name: "TIBETAN SYMBOL RDO RJE RGYA GRAM", aliases: &[] },
        Codepoint { codepoint: 0x0FC8, name: "TIBETAN SYMBOL PHUR PA", aliases: &[] },
        Codepoint { codepoint: 0x0FC9, name: "TIBETAN SYMBOL NOR BU", aliases: &[] },
        Codepoint { codepoint: 0x0FCA, name: "TIBETAN SYMBOL NOR BU NYIS -KHYIL", aliases: &[] },
        Codepoint { codepoint: 0x0FCB, name: "TIBETAN SYMBOL NOR BU GSUM -KHYIL", aliases: &[] },
        Codepoint { codepoint: 0x0FCC, name: "TIBETAN SYMBOL NOR BU BZHI -KHYIL", aliases: &[] },
        Codepoint { codepoint: 0x0FCE, name: "TIBETAN SIGN RDEL NAG RDEL DKAR", aliases: &[] },
        Codepoint { codepoint: 0x0FCF, name: "TIBETAN SIGN RDEL NAG GSUM", aliases: &[] },
        Codepoint { codepoint: 0x0FD0, name: "TIBETAN MARK BSKA- SHOG GI MGO RGYAN", aliases: &[] },
        Codepoint { codepoint: 0x0FD1, name: "TIBETAN MARK MNYAM YIG GI MGO RGYAN", aliases: &[] },
        Codepoint { codepoint: 0x0FD2, name: "TIBETAN MARK NYIS TSHEG", aliases: &[] },
        Codepoint { codepoint: 0x0FD3, name: "TIBETAN MARK INITIAL BRDA RNYING YIG MGO MDUN MA", aliases: &[] },
        Codepoint { codepoint: 0x0FD4, name: "TIBETAN MARK CLOSING BRDA RNYING YIG MGO SGAB MA", aliases: &[] },
    ];
    assert(v@ =~= codepoint_table_88());
    v
}

pub open spec fn codepoint_table_89() -> Seq<Codepoint> {
    seq![
        Codepoint { codepoint: 0x0FD5, name: "RIGHT-FACING SVASTI SIGN", aliases: &[] },
        Codepoint { codepoint: 0x0FD6, name: "LEFT-FACING SVASTI SIGN", aliases: &[] },
        Codepoint { codepoint: 0x0FD7, name: "RIGHT-FACING SVASTI SIGN WITH DOTS", aliases: &[] },
        Codepoint { codepoint: 0x0FD8, name: "LEFT-FACING SVASTI SIGN WITH DOTS", aliases: &[] },
        Codepoint { codepoint: 0x0FD9, name: "TIBETAN MARK LEADING MCHAN RTAGS", aliases: &[] },
        Codepoint { codepoint: 0x0FDA, name: "TIBETAN MARK TRAILING MCHAN RTAGS", aliases: &[] },
        Codepoint { codepoint: 0x1000, name: "MYANMAR LETTER KA", aliases: &[] },
        Codepoint { codepoint: 0x1001, name: "MYANMAR LETTER KHA", aliases: &[] },
        Codepoint { codepoint: 0x1002, name: "MYANMAR LETTER GA", aliases: &[] },
        Codepoint { codepoint: 0x1003, name: "MYANMAR LETTER GHA", aliases: &[] },
        Codepoint { codepoint: 0x1004, name: "MYANMAR LETTER NGA", aliases: &[] },
        Codepoint { codepoint: 0x1005, name: "MYANMAR LETTER CA", aliases: &[] },
        Codepoint { codepoint: 0x1006, name: "MYANMAR LETTER CHA", aliases: &[] },
        Codepoint { codepoint: 0x1007, name: "MYANMAR LETTER JA", aliases: &[] },
        Codepoint { codepoint: 0x1008, name: "MYANMAR LETTER JHA", aliases: &[] },
        Codepoint { codepoint: 0x1009, name: "MYANMAR LETTER NYA", aliases: &[] },
        Codepoint { codepoint: 0x100A, name: "MYANMAR LETTER NNYA", aliases: &[] },
        Codepoint { codepoint: 0x100B, name: "MYANMAR LETTER TTA", aliases: &[] },
        Codepoint { codepoint: 0x100C, name: "MYANMAR LETTER TTHA", aliases: &[] },
        Codepoint { codepoint: 0x100D, name: "MYANMAR LETTER DDA", aliases: &[] },
        Codepoint { codepoint: 0x100E, name: "MYANMAR LETTER DDHA", aliases: &[] },
        Codepoint { codepoint: 0x100F, name: "MYANMAR LETTER NNA", aliases: &[] },
        Codepoint { codepoint: 0x1010, name: "MYANMAR LETTER TA", aliases: &[] },
        Codepoint { codepoint: 0x1011, name: "MYANMAR LETTER THA", aliases: &[] },
        Codepoint { codepoint: 0x1012, name: "MYANMAR LETTER DA", aliases: &[] },
        Codepoint { codepoint: 0x1013, name: "MYANMAR LETTER DHA", aliases: &[] },
        Codepoint { codepoint: 0x1014, name: "MYANMAR LETTER NA", aliases: &[] },
        Codepoint { codepoint: 0x1015, name: "MYANMAR LETTER PA", aliases: &[] },
        Codepoint { codepoint: 0x1016, name: "MYANMAR LETTER PHA", aliases: &[] },
        Codepoint { codepoint: 0x1017, name: "MYANMAR LETTER BA", aliases: &[] },
        Codepoint { codepoint: 0x1018, name: "MYANMAR LETTER BHA", aliases: &[] },
        Codepoint { codepoint: 0x1019, name: "MYANMAR LETTER MA", aliases: &[] },
        Codepoint { codepoint: 0x101A, name: "MYANMAR LETTER YA", aliases: &[] },
        Codepoint { codepoint: 0x101B, name: "MYANMAR LETTER RA", aliases: &[] },
        Codepoint { codepoint: 0x101C, name: "MYANMAR LETTER LA", aliases: &[] },
        Codepoint { codepoint: 0x101D, name: "MYANMAR LETTER WA", aliases: &[] },
        Codepoint { codepoint: 0x101E, name: "MYANMAR LETTER SA", aliases: &[] },
        Codepoint { codepoint: 0x101F, name: "MYANMAR LETTER HA", aliases: &[] },
        Codepoint { codepoint: 0x1020, name: "MYANMAR LETTER LLA", aliases: &[] },
        Codepoint { codepoint: 0x1021, name: "MYANMAR LETTER A", aliases: &[] },
    ]
}

fn all_codepoints_89() -> (v: Vec<Codepoint>)
    ensures
        v@ == codepoint_table_89(),
{
    let v = vec![
        Codepoint { codepoint: 0x0FD5, name: "RIGHT-FACING SVASTI SIGN", aliases: &[] },
        Codepoint { codepoint: 0x0FD6, name: "LEFT-FACING SVASTI SIGN", aliases: &[] },
        Codepoint { codepoint: 0x0FD7, name: "RIGHT-FACING SVASTI SIGN WITH DOTS", aliases: &[] },
        Codepoint { codepoint: 0x0FD8, name: "LEFT-FACING SVASTI SIGN WITH DOTS", aliases: &[] },
        Codepoint { codepoint: 0x0FD9, name: "TIBETAN MARK LEADING MCHAN RTAGS", aliases: &[] },
        Codepoint { codepoint: 0x0FDA, name: "TIBETAN MARK TRAILING MCHAN RTAGS", aliases: &[] },
        Codepoint { codepoint: 0x1000, name: "MYANMAR LETTER KA", aliases: &[] },
        Codepoint { codepoint: 0x1001, name: "MYANMAR LETTER KHA", aliases: &[] },
        Codepoint { codepoint: 0x1002, name: "MYANMAR LETTER GA", aliases: &[] },
        Codepoint { codepoint: 0x1003, name: "MYANMAR LETTER GHA", aliases: &[] },
        Codepoint { codepoint: 0x1004, name: "MYANMAR LETTER NGA", aliases: &[] },
        Codepoint { codepoint: 0x1005, name: "MYANMAR LETTER CA", aliases: &[] },
        Codepoint { codepoint: 0x1006, name: "MYANMAR LETTER CHA", aliases: &[] },
        Codepoint { codepoint: 0x1007, name: "MYANMAR LETTER JA", aliases: &[] },
        Codepoint { codepoint: 0x1008, name: "MYANMAR LETTER JHA", aliases: &[] },
        Codepoint { codepoint: 0x1009, name: "MYANMAR LETTER NYA", aliases: &[] },
        Codepoint { codepoint: 0x100A, name: "MYANMAR LETTER NNYA", aliases: &[] },
        Codepoint { codepoint: 0x100B, name: "MYANMAR LETTER TTA", aliases: &[] },
        Codepoint { codepoint: 0x100C, name: "MYANMAR LETTER TTHA", aliases: &[] },
        Codepoint { codepoint: 0x100D, name: "MYANMAR LETTER DDA", aliases: &[] },
        Codepoint { codepoint: 0x100E, name: "MYANMAR LETTER DDHA", aliases: &[] },
        Codepoint { codepoint: 0x100F, name: "MYANMAR LETTER NNA", aliases: &[] },
        Codepoint { codepoint: 0x1010, name: "MYANMAR LETTER TA", aliases: &[] },
        Codepoint { codepoint: 0x1011, name: "MYANMAR LETTER THA", aliases: &[] },
        Codepoint { codepoint: 0x1012, name: "MYANMAR LETTER DA", aliases: &[] },
        Codepoint { codepoint: 0x1013, name: "MYANMAR LETTER DHA", aliases: &[] },
        Codepoint { codepoint: 0x1014, name: "MYANMAR LETTER NA", aliases: &[] },
        Codepoint { codepoint: 0x1015, name: "MYANMAR LETTER PA", aliases: &[] },
        Codepoint { codepoint: 0x1016, name: "MYANMAR LETTER PHA", aliases: &[] },
        Codepoint { codepoint: 0x1017, name: "MYANMAR LETTER BA", aliases: &[] },
        Codepoint { codepoint: 0x1018, name: "MYANMAR LETTER BHA", aliases: &[] },
        Codepoint { codepoint: 0x1019, name: "MYANMAR LETTER MA", aliases: &[] },
        Codepoint { codepoint: 0x101A, name: "MYANMAR LETTER YA", aliases: &[] },
        Codepoint { codepoint: 0x101B, name: "MYANMAR LETTER RA", aliases: &[] },
        Codepoint { codepoint: 0x101C, name: "MYANMAR LETTER LA", aliases: &[] },
        Codepoint { codepoint: 0x101D, name: "MYANMAR LETTER WA", aliases: &[] },
        Codepoint { codepoint: 0x101E, name: "MYANMAR LETTER SA", aliases: &[] },
        Codepoint { codepoint: 0x101F, name: "MYANMAR LETTER HA", aliases: &[] },
        Codepoint { codepoint: 0x1020, name: "MYANMAR LETTER LLA", aliases: &[] },
        Codepoint { codepoint: 0x1021, name: "MYANMAR LETTER A", aliases: &[] },
    ];
    assert(v@ =~= codepoint_table_89());
    v
}

pub open spec fn codepoint_table_90() -> Seq<Codepoint> {
    seq![
        Codepoint { codepoint: 0x1022, name: "MYANMAR LETTER SHAN A", aliases: &[] },
        Codepoint { codepoint: 0x1023, name: "MYANMAR LETTER I", aliases: &[] },
        Codepoint { codepoint: 0x1024, name: "MYANMAR LETTER II", aliases: &[] },
        Codepoint { codepoint: 0x1025, name: "MYANMAR LETTER U", aliases: &[] },
        Codepoint { codepoint: 0x1026, name: "MYANMAR LETTER UU", aliases: &[] },
        Codepoint { codepoint: 0x1027, name: "MYANMAR LETTER E", aliases: &[] },
        Codepoint { codepoint: 0x1028, name: "MYANMAR LETTER MON E", aliases: &[] },
        Codepoint { codepoint: 0x1029, name: "MYANMAR LETTER O", aliases: &[] },
        Codepoint { codepoint: 0x102A, name: "MYANMAR LETTER AU", aliases: &[] },
        Codepoint { codepoint: 0x102B, name: "MYANMAR VOWEL SIGN TALL AA", aliases: &[] },
        Codepoint { codepoint: 0x102C, name: "MYANMAR VOWEL SIGN AA", aliases: &[] },
        Codepoint { codepoint: 0x102D, name: "MYANMAR VOWEL SIGN I", aliases: &[] },
        Codepoint { codepoint: 0x102E, name: "MYANMAR VOWEL SIGN II", aliases: &[] },
        Codepoint { codepoint: 0x102F, name: "MYANMAR VOWEL SIGN U", aliases: &[] },
        Codepoint { codepoint: 0x1030, name: "MYANMAR VOWEL SIGN UU", aliases: &[] },
        Codepoint { codepoint: 0x1031, name: "MYANMAR VOWEL SIGN E", aliases: &[] },
        Codepoint { codepoint: 0x1032, name: "MYANMAR VOWEL SIGN AI", aliases: &[] },
        Codepoint { codepoint: 0x1033, name: "MYANMAR VOWEL SIGN MON II", aliases: &[] },
        Codepoint { codepoint: 0x1034, name: "MYANMAR VOWEL SIGN MON O", aliases: &[] },
        Codepoint { codepoint: 0x1035, name: "MYANMAR VOWEL SIGN E ABOVE", aliases: &[] },
        Codepoint { codepoint: 0x1036, name: "MYANMAR SIGN ANUSVARA", aliases: &[] },
        Codepoint { codepoint: 0x1037, name: "MYANMAR SIGN DOT BELOW", aliases: &[] },
        Codepoint { codepoint: 0x1038, name: "MYANMAR SIGN VISARGA", aliases: &[] },
        Codepoint { codepoint: 0x1039, name: "MYANMAR SIGN VIRAMA", aliases: &[] },
        Codepoint { codepoint: 0x103A, name: "MYANMAR SIGN ASAT", aliases: &[] },
        Codepoint { codepoint: 0x103B, name: "MYANMAR CONSONANT SIGN MEDIAL YA", aliases: &[] },
        Codepoint { codepoint: 0x103C, name: "MYANMAR CONSONANT SIGN MEDIAL RA", aliases: &[] },
        Codepoint { codepoint: 0x103D, name: "MYANMAR CONSONANT SIGN MEDIAL WA", aliases: &[] },
        Codepoint { codepoint: 0x103E, name: "MYANMAR CONSONANT SIGN MEDIAL HA", aliases: &[] },
        Codepoint { codepoint: 0x103F, name: "MYANMAR LETTER GREAT SA", aliases: &[] },
        Codepoint { codepoint: 0x1040, name: "MYANMAR DIGIT ZERO", aliases: &[] },
        Codepoint { codepoint: 0x1041, name: "MYANMAR DIGIT ONE", aliases: &[] },
        Codepoint { codepoint: 0x1042, name: "MYANMAR DIGIT TWO", aliases: &[] },
        Codepoint { codepoint: 0x1043, name: "MYANMAR DIGIT THREE", aliases: &[] },
        Codepoint { codepoint: 0x1044, name: "MYANMAR DIGIT FOUR", aliases: &[] },
        Codepoint { codepoint: 0x1045, name: "MYANMAR DIGIT FIVE", aliases: &[] },
        Codepoint { codepoint: 0x1046, name: "MYANMAR DIGIT SIX", aliases: &[] },
        Codepoint { codepoint: 0x1047, name: "MYANMAR DIGIT SEVEN", aliases: &[] },
        Codepoint { codepoint: 0x1048, name: "MYANMAR DIGIT EIGHT", aliases: &[] },
        Codepoint { codepoint: 0x1049, name: "MYANMAR DIGIT NINE", aliases: &[] },
    ]
}

fn all_codepoints_90() -> (v: Vec<Codepoint>)
    ensures
        v@ == codepoint_table_90(),
{
    let v = vec![
        Codepoint { codepoint: 0x1022, name: "MYANMAR LETTER SHAN A", aliases: &[] },
        Codepoint { codepoint: 0x1023, name: "MYANMAR LETTER I", aliases: &[] },
        Codepoint { codepoint: 0x1024, name: "MYANMAR LETTER II", aliases: &[] },
        Codepoint { codepoint: 0x1025, name: "MYANMAR LETTER U", aliases: &[] },
        Codepoint { codepoint: 0x1026, name: "MYANMAR LETTER UU", aliases: &[] },
        Codepoint { codepoint: 0x1027, name: "MYANMAR LETTER E", aliases: &[] },
        Codepoint { codepoint: 0x1028, name: "MYANMAR LETTER MON E", aliases: &[] },
        Codepoint { codepoint: 0x1029, name: "MYANMAR LETTER O", aliases: &[] },
        Codepoint { codepoint: 0x102A, name: "MYANMAR LETTER AU", aliases: &[] },
        Codepoint { codepoint: 0x102B, name: "MYANMAR VOWEL SIGN TALL AA", aliases: &[] },
        Codepoint { codepoint: 0x102C, name: "MYANMAR VOWEL SIGN AA", aliases: &[] },
        Codepoint { codepoint: 0x102D, name: "MYANMAR VOWEL SIGN I", aliases: &[] },
        Codepoint { codepoint: 0x102E, name: "MYANMAR VOWEL SIGN II", aliases: &[] },
        Codepoint { codepoint: 0x102F, name: "MYANMAR VOWEL SIGN U", aliases: &[] },
        Codepoint { codepoint: 0x1030, name: "MYANMAR VOWEL SIGN UU", aliases: &[] },
        Codepoint { codepoint: 0x1031, name: "MYANMAR VOWEL SIGN E", aliases: &[] },
        Codepoint { codepoint: 0x1032, name: "MYANMAR VOWEL SIGN AI", aliases: &[] },
        Codepoint { codepoint: 0x1033, name: "MYANMAR VOWEL SIGN MON II", aliases: &[] },
        Codepoint { codepoint: 0x1034, name: "MYANMAR VOWEL SIGN MON O", aliases: &[] },
        Codepoint { codepoint: 0x1035, name: "MYANMAR VOWEL SIGN E ABOVE", aliases: &[] },
        Codepoint { codepoint: 0x1036, name: "MYANMAR SIGN ANUSVARA", aliases: &[] },
        Codepoint { codepoint: 0x1037, name: "MYANMAR SIGN DOT BELOW", aliases: &[] },
        Codepoint { codepoint: 0x1038, name: "MYANMAR SIGN VISARGA", aliases: &[] },
        Codepoint { codepoint: 0x1039, name: "MYANMAR SIGN VIRAMA", aliases: &[] },
        Codepoint { codepoint: 0x103A, name: "MYANMAR SIGN ASAT", aliases: &[] },
        Codepoint { codepoint: 0x103B, name: "MYANMAR CONSONANT SIGN MEDIAL YA", aliases: &[] },
        Codepoint { codepoint: 0x103C, name: "MYANMAR CONSONANT SIGN MEDIAL RA", aliases: &[] },
        Codepoint { codepoint: 0x103D, name: "MYANMAR CONSONANT SIGN MEDIAL WA", aliases: &[] },
        Codepoint { codepoint: 0x103E, name: "MYANMAR CONSONANT SIGN MEDIAL HA", aliases: &[] },
        Codepoint { codepoint: 0x103F, name: "MYANMAR LETTER GREAT SA", aliases: &[] },
        Codepoint { codepoint: 0x1040, name: "MYANMAR DIGIT ZERO", aliases: &[] },
        Codepoint { codepoint: 0x1041, name: "MYANMAR DIGIT ONE", aliases: &[] },
        Codepoint { codepoint: 0x1042, name: "MYANMAR DIGIT TWO", aliases: &[] },
        Codepoint { codepoint: 0x1043, name: "MYANMAR DIGIT THREE", aliases: &[] },
        Codepoint { codepoint: 0x1044, name: "MYANMAR DIGIT FOUR", aliases: &[] },
        Codepoint { codepoint: 0x1045, name: "MYANMAR DIGIT FIVE", aliases: &[] },
        Codepoint { codepoint: 0x1046, name: "MYANMAR DIGIT SIX", aliases: &[] },
        Codepoint { codepoint: 0x1047, name: "MYANMAR DIGIT SEVEN", aliases: &[] },
        Codepoint { codepoint: 0x1048, name: "MYANMAR DIGIT EIGHT", aliases: &[] },
        Codepoint { codepoint: 0x1049, name: "MYANMAR DIGIT NINE", aliases: &[] },
    ];
    assert(v@ =~= codepoint_table_90());
    v
}

pub open spec fn codepoint_table_91() -> Seq<Codepoint> {
    seq![
        Codepoint { codepoint: 0x104A, name: "MYANMAR SIGN LITTLE SECTION", aliases: &[] },
        Codepoint { codepoint: 0x104B, name: "MYANMAR SIGN SECTION", aliases: &[] },
        Codepoint { codepoint: 0x104C, name: "MYANMAR SYMBOL LOCATIVE", aliases: &[] },
        Codepoint { codepoint: 0x104D, name: "MYANMAR SYMBOL COMPLETED", aliases: &[] },
        Codepoint { codepoint: 0x104E, name: "MYANMAR SYMBOL AFOREMENTIONED", aliases: &[] },
        Codepoint { codepoint: 0x104F, name: "MYANMAR SYMBOL GENITIVE", aliases: &[] },
        Codepoint { codepoint: 0x1050, name: "MYANMAR LETTER SHA", aliases: &[] },
        Codepoint { codepoint: 0x1051, name: "MYANMAR LETTER SSA", aliases: &[] },
        Codepoint { codepoint: 0x1052, name: "MYANMAR LETTER VOCALIC R", aliases: &[] },
        Codepoint { codepoint: 0x1053, name: "MYANMAR LETTER VOCALIC RR", aliases: &[] },
        Codepoint { codepoint: 0x1054, name: "MYANMAR LETTER VOCALIC L", aliases: &[] },
        Codepoint { codepoint: 0x1055, name: "MYANMAR LETTER VOCALIC LL", aliases: &[] },
        Codepoint { codepoint: 0x1056, name: "MYANMAR VOWEL SIGN VOCALIC R", aliases: &[] },
        Codepoint { codepoint: 0x1057, name: "MYANMAR VOWEL SIGN VOCALIC RR", aliases: &[] },
        Codepoint { codepoint: 0x1058, name: "MYANMAR VOWEL SIGN VOCALIC L", aliases: &[] },
        Codepoint { codepoint: 0x1059, name: "MYANMAR VOWEL SIGN VOCALIC LL", aliases: &[] },
        Codepoint { codepoint: 0x105A, name: "MYANMAR LETTER MON NGA", aliases: &[] },
        Codepoint { codepoint: 0x105B, name: "MYANMAR LETTER MON JHA", aliases: &[] },
        Codepoint { codepoint: 0x105C, name: "MYANMAR LETTER MON BBA", aliases: &[] },
        Codepoint { codepoint: 0x105D, name: "MYANMAR LETTER MON BBE", aliases: &[] },
        Codepoint { codepoint: 0x105E, name: "MYANMAR CONSONANT SIGN MON MEDIAL NA", aliases: &[] },
        Codepoint { codepoint: 0x105F, name: "MYANMAR CONSONANT SIGN MON MEDIAL MA", aliases: &[] },
        Codepoint { codepoint: 0x1060, name: "MYANMAR CONSONANT SIGN MON MEDIAL LA", aliases: &[] },
        Codepoint { codepoint: 0x1061, name: "MYANMAR LETTER SGAW KAREN SHA", aliases: &[] },
        Codepoint { codepoint: 0x1062, name: "MYANMAR VOWEL SIGN SGAW KAREN EU", aliases: &[] },
        Codepoint { codepoint: 0x1063, name: "MYANMAR TONE MARK SGAW KAREN HATHI", aliases: &[] },
        Codepoint { codepoint: 0x1064, name: "MYANMAR TONE MARK SGAW KAREN KE PHO", aliases: &[] },
        Codepoint { codepoint: 0x1065, name: "MYANMAR LETTER WESTERN PWO KAREN THA", aliases: &[] },
        Codepoint { codepoint: 0x1066, name: "MYANMAR LETTER WESTERN PWO KAREN PWA", aliases: &[] },
        Codepoint { codepoint: 0x1067, name: "MYANMAR VOWEL SIGN WESTERN PWO KAREN EU", aliases: &[] },
        Codepoint { codepoint: 0x1068, name: "MYANMAR VOWEL SIGN WESTERN PWO KAREN UE", aliases: &[] },
        Codepoint { codepoint: 0x1069, name: "MYANMAR SIGN WESTERN PWO KAREN TONE-1", aliases: &[] },
        Codepoint { codepoint: 0x106A, name: "MYANMAR SIGN WESTERN PWO KAREN TONE-2", aliases: &[] },
        Codepoint { codepoint: 0x106B, name: "MYANMAR SIGN WESTERN PWO KAREN TONE-3", aliases: &[] },
        Codepoint { codepoint: 0x106C, name: "MYANMAR SIGN WESTERN PWO KAREN TONE-4", aliases: &[] },
        Codepoint { codepoint: 0x106D, name: "MYANMAR SIGN WESTERN PWO KAREN TONE-5", aliases: &[] },
        Codepoint { codepoint: 0x106E, name: "MYANMAR LETTER EASTERN PWO KAREN NNA", aliases: &[] },
        Codepoint { codepoint: 0x106F, name: "MYANMAR LETTER EASTERN PWO KAREN YWA", aliases: &[] },
        Codepoint { codepoint: 0x1070, name: "MYANMAR LETTER EASTERN PWO KAREN GHWA", aliases: &[] },
        Codepoint { codepoint: 0x1071, name: "MYANMAR VOWEL SIGN GEBA KAREN I", aliases: &[] },
    ]
}

fn all_codepoints_91() -> (v: Vec<Codepoint>)
    ensures
        v@ == codepoint_table_91(),
{
    let v = vec![
        Codepoint { codepoint: 0x104A, name: "MYANMAR SIGN LITTLE SECTION", aliases: &[] },
        Codepoint { codepoint: 0x104B, name: "MYANMAR SIGN SECTION", aliases: &[] },
        Codepoint { codepoint: 0x104C, name: "MYANMAR SYMBOL LOCATIVE", aliases: &[] },
        Codepoint { codepoint: 0x104D, name: "MYANMAR SYMBOL COMPLETED", aliases: &[] },
        Codepoint { codepoint: 0x104E, name: "MYANMAR SYMBOL AFOREMENTIONED", aliases: &[] },
        Codepoint { codepoint: 0x104F, name: "MYANMAR SYMBOL GENITIVE", aliases: &[] },
        Codepoint { codepoint: 0x1050, name: "MYANMAR LETTER SHA", aliases: &[] },
        Codepoint { codepoint: 0x1051, name: "MYANMAR LETTER SSA", aliases: &[] },
        Codepoint { codepoint: 0x1052, name: "MYANMAR LETTER VOCALIC R", aliases: &[] },
        Codepoint { codepoint: 0x1053, name: "MYANMAR LETTER VOCALIC RR", aliases: &[] },
        Codepoint { codepoint: 0x1054, name: "MYANMAR LETTER VOCALIC L", aliases: &[] },
        Codepoint { codepoint: 0x1055, name: "MYANMAR LETTER VOCALIC LL", aliases: &[] },
        Codepoint { codepoint: 0x1056, name: "MYANMAR VOWEL SIGN VOCALIC R", aliases: &[] },
        Codepoint { codepoint: 0x1057, name: "MYANMAR VOWEL SIGN VOCALIC RR", aliases: &[] },
        Codepoint { codepoint: 0x1058, name: "MYANMAR VOWEL SIGN VOCALIC L", aliases: &[] },
        Codepoint { codepoint: 0x1059, name: "MYANMAR VOWEL SIGN VOCALIC LL", aliases: &[] },
        Codepoint { codepoint: 0x105A, name: "MYANMAR LETTER MON NGA", aliases: &[] },
        Codepoint { codepoint: 0x105B, name: "MYANMAR LETTER MON JHA", aliases: &[] },
        Codepoint { codepoint: 0x105C, name: "MYANMAR LETTER MON BBA", aliases: &[] },
        Codepoint { codepoint: 0x105D, name: "MYANMAR LETTER MON BBE", aliases: &[] },
        Codepoint { codepoint: 0x105E, name: "MYANMAR CONSONANT SIGN MON MEDIAL NA", aliases: &[] },
        Codepoint { codepoint: 0x105F, name: "MYANMAR CONSONANT SIGN MON MEDIAL MA", aliases: &[] },
        Codepoint { codepoint: 0x1060, name: "MYANMAR CONSONANT SIGN MON MEDIAL LA", aliases: &[] },
        Codepoint { codepoint: 0x1061, name: "MYANMAR LETTER SGAW KAREN SHA", aliases: &[] },
        Codepoint { codepoint: 0x1062, name: "MYANMAR VOWEL SIGN SGAW KAREN EU", aliases: &[] },
        Codepoint { codepoint: 0x1063, name: "MYANMAR TONE MARK SGAW KAREN HATHI", aliases: &[] },
        Codepoint { codepoint: 0x1064, name: "MYANMAR TONE MARK SGAW KAREN KE PHO", aliases: &[] },
        Codepoint { codepoint: 0x1065, name: "MYANMAR LETTER WESTERN PWO KAREN THA", aliases: &[] },
        Codepoint { codepoint: 0x1066, name: "MYANMAR LETTER WESTERN PWO KAREN PWA", aliases: &[] },
        Codepoint { codepoint: 0x1067, name: "MYANMAR VOWEL SIGN WESTERN PWO KAREN EU", aliases: &[] },
        Codepoint { codepoint: 0x1068, name: "MYANMAR VOWEL SIGN WESTERN PWO KAREN UE", aliases: &[] },
        Codepoint { codepoint: 0x1069, name: "MYANMAR SIGN WESTERN PWO KAREN TONE-1", aliases: &[] },
        Codepoint { codepoint: 0x106A, name: "MYANMAR SIGN WESTERN PWO KAREN TONE-2", aliases: &[] },
        Codepoint { codepoint: 0x106B, name: "MYANMAR SIGN WESTERN PWO KAREN TONE-3", aliases: &[] },
        Codepoint { codepoint: 0x106C, name: "MYANMAR SIGN WESTERN PWO KAREN TONE-4", aliases: &[] },
        Codepoint { codepoint: 0x106D, name: "MYANMAR SIGN WESTERN PWO KAREN TONE-5", aliases: &[] },
        Codepoint { codepoint: 0x106E, name: "MYANMAR LETTER EASTERN PWO KAREN NNA", aliases: &[] },
        Codepoint { codepoint: 0x106F, name: "MYANMAR LETTER EASTERN PWO KAREN YWA", aliases: &[] },
        Codepoint { codepoint: 0x1070, name: "MYANMAR LETTER EASTERN PWO KAREN GHWA", aliases: &[] },
        Codepoint { codepoint: 0x1071, name: "MYANMAR VOWEL SIGN GEBA KAREN I", aliases: &[] },
    ];
    assert(v@ =~= codepoint_table_91());
    v
}

pub open spec fn codepoint_table_92() -> Seq<Codepoint> {
    seq![
        Codepoint { codepoint: 0x1072, name: "MYANMAR VOWEL SIGN KAYAH OE", aliases: &[] },
        Codepoint { codepoint: 0x1073, name: "MYANMAR VOWEL SIGN KAYAH U", aliases: &[] },
        Codepoint { codepoint: 0x1074, name: "MYANMAR VOWEL SIGN KAYAH EE", aliases: &[] },
        Codepoint { codepoint: 0x1075, name: "MYANMAR LETTER SHAN KA", aliases: &[] },
        Codepoint { codepoint: 0x1076, name: "MYANMAR LETTER SHAN KHA", aliases: &[] },
        Codepoint { codepoint: 0x1077, name: "MYANMAR LETTER SHAN GA", aliases: &[] },
        Codepoint { codepoint: 0x1078, name: "MYANMAR LETTER SHAN CA", aliases: &[] },
        Codepoint { codepoint: 0x1079, name: "MYANMAR LETTER SHAN ZA", aliases: &[] },
        Codepoint { codepoint: 0x107A, name: "MYANMAR LETTER SHAN NYA", aliases: &[] },
        Codepoint { codepoint: 0x107B, name: "MYANMAR LETTER SHAN DA", aliases: &[] },
        Codepoint { codepoint: 0x107C, name: "MYANMAR LETTER SHAN NA", aliases: &[] },
        Codepoint { codepoint: 0x107D, name: "MYANMAR LETTER SHAN PHA", aliases: &[] },
        Codepoint { codepoint: 0x107E, name: "MYANMAR LETTER SHAN FA", aliases: &[] },
        Codepoint { codepoint: 0x107F, name: "MYANMAR LETTER SHAN BA", aliases: &[] },
        Codepoint { codepoint: 0x1080, name: "MYANMAR LETTER SHAN THA", aliases: &[] },
        Codepoint { codepoint: 0x1081, name: "MYANMAR LETTER SHAN HA", aliases: &[] },
        Codepoint { codepoint: 0x1082, name: "MYANMAR CONSONANT SIGN SHAN MEDIAL WA", aliases: &[] },
        Codepoint { codepoint: 0x1083, name: "MYANMAR VOWEL SIGN SHAN AA", aliases: &[] },
        Codepoint { codepoint: 0x1084, name: "MYANMAR VOWEL SIGN SHAN E", aliases: &[] },
        Codepoint { codepoint: 0x1085, name: "MYANMAR VOWEL SIGN SHAN E ABOVE", aliases: &[] },
        Codepoint { codepoint: 0x1086, name: "MYANMAR VOWEL SIGN SHAN FINAL Y", aliases: &[] },
        Codepoint { codepoint: 0x1087, name: "MYANMAR SIGN SHAN TONE-2", aliases: &[] },
        Codepoint { codepoint: 0x1088, name: "MYANMAR SIGN SHAN TONE-3", aliases: &[] },
        Codepoint { codepoint: 0x1089, name: "MYANMAR SIGN SHAN TONE-5", aliases: &[] },
        Codepoint { codepoint: 0x108A, name: "MYANMAR SIGN SHAN TONE-6", aliases: &[] },
        Codepoint { codepoint: 0x108B, name: "MYANMAR SIGN SHAN COUNCIL TONE-2", aliases: &[] },
        Codepoint { codepoint: 0x108C, name: "MYANMAR SIGN SHAN COUNCIL TONE-3", aliases: &[] },
        Codepoint { codepoint: 0x108D, name: "MYANMAR SIGN SHAN COUNCIL EMPHATIC TONE", aliases: &[] },
        Codepoint { codepoint: 0x108E, name: "MYANMAR LETTER RUMAI PALAUNG FA", aliases: &[] },
        Codepoint { codepoint: 0x108F, name: "MYANMAR SIGN RUMAI PALAUNG TONE-5", aliases: &[] },
        Codepoint { codepoint: 0x1090, name: "MYANMAR SHAN DIGIT ZERO", aliases: &[] },
        Codepoint { codepoint: 0x1091, name: "MYANMAR SHAN DIGIT ONE", aliases: &[] },
        Codepoint { codepoint: 0x1092, name: "MYANMAR SHAN DIGIT TWO", aliases: &[] },
        Codepoint { codepoint: 0x1093, name: "MYANMAR SHAN DIGIT THREE", aliases: &[] },
        Codepoint { codepoint: 0x1094, name: "MYANMAR SHAN DIGIT FOUR", aliases: &[] },
        Codepoint { codepoint: 0x1095, name: "MYANMAR SHAN DIGIT FIVE", aliases: &[] },
        Codepoint { codepoint: 0x1096, name: "MYANMAR SHAN DIGIT SIX", aliases: &[] },
        Codepoint { codepoint: 0x1097, name: "MYANMAR SHAN DIGIT SEVEN", aliases: &[] },
        Codepoint { codepoint: 0x1098, name: "MYANMAR SHAN DIGIT EIGHT", aliases: &[] },
        Codepoint { codepoint: 0x1099, name: "MYANMAR SHAN DIGIT NINE", aliases: &[] },
    ]
}

fn all_codepoints_92() -> (v: Vec<Codepoint>)
    ensures
        v@ == codepoint_table_92(),
{
    let v = vec![
        Codepoint { codepoint: 0x1072, name: "MYANMAR VOWEL SIGN KAYAH OE", aliases: &[] },
        Codepoint { codepoint: 0x1073, name: "MYANMAR VOWEL SIGN KAYAH U", aliases: &[] },
        Codepoint { codepoint: 0x1074, name: "MYANMAR VOWEL SIGN KAYAH EE", aliases: &[] },
        Codepoint { codepoint: 0x1075, name: "MYANMAR LETTER SHAN KA", aliases: &[] },
        Codepoint { codepoint: 0x1076, name: "MYANMAR LETTER SHAN KHA", aliases: &[] },
        Codepoint { codepoint: 0x1077, name: "MYANMAR LETTER SHAN GA", aliases: &[] },
        Codepoint { codepoint: 0x1078, name: "MYANMAR LETTER SHAN CA", aliases: &[] },
        Codepoint { codepoint: 0x1079, name: "MYANMAR LETTER SHAN ZA", aliases: &[] },
        Codepoint { codepoint: 0x107A, name: "MYANMAR LETTER SHAN NYA", aliases: &[] },
        Codepoint { codepoint: 0x107B, name: "MYANMAR LETTER SHAN DA", aliases: &[] },
        Codepoint { codepoint: 0x107C, name: "MYANMAR LETTER SHAN NA", aliases: &[] },
        Codepoint { codepoint: 0x107D, name: "MYANMAR LETTER SHAN PHA", aliases: &[] },
        Codepoint { codepoint: 0x107E, name: "MYANMAR LETTER SHAN FA", aliases: &[] },
        Codepoint { codepoint: 0x107F, name: "MYANMAR LETTER SHAN BA", aliases: &[] },
        Codepoint { codepoint: 0x1080, name: "MYANMAR LETTER SHAN THA", aliases: &[] },
        Codepoint { codepoint: 0x1081, name: "MYANMAR LETTER SHAN HA", aliases: &[] },
        Codepoint { codepoint: 0x1082, name: "MYANMAR CONSONANT SIGN SHAN MEDIAL WA", aliases: &[] },
        Codepoint { codepoint: 0x1083, name: "MYANMAR VOWEL SIGN SHAN AA", aliases: &[] },
        Codepoint { codepoint: 0x1084, name: "MYANMAR VOWEL SIGN SHAN E", aliases: &[] },
        Codepoint { codepoint: 0x1085, name: "MYANMAR VOWEL SIGN SHAN E ABOVE", aliases: &[] },
        Codepoint { codepoint: 0x1086, name: "MYANMAR VOWEL SIGN SHAN FINAL Y", aliases: &[] },
        Codepoint { codepoint: 0x1087, name: "MYANMAR SIGN SHAN TONE-2", aliases: &[] },
        Codepoint { codepoint: 0x1088, name: "MYANMAR SIGN SHAN TONE-3", aliases: &[] },
        Codepoint { codepoint: 0x1089, name: "MYANMAR SIGN SHAN TONE-5", aliases: &[] },
        Codepoint { codepoint: 0x108A, name: "MYANMAR SIGN SHAN TONE-6", aliases: &[] },
        Codepoint { codepoint: 0x108B, name: "MYANMAR SIGN SHAN COUNCIL TONE-2", aliases: &[] },
        Codepoint { codepoint: 0x108C, name: "MYANMAR SIGN SHAN COUNCIL TONE-3", aliases: &[] },
        Codepoint { codepoint: 0x108D, name: "MYANMAR SIGN SHAN COUNCIL EMPHATIC TONE", aliases: &[] },
        Codepoint { codepoint: 0x108E, name: "MYANMAR LETTER RUMAI PALAUNG FA", aliases: &[] },
        Codepoint { codepoint: 0x108F, name: "MYANMAR SIGN RUMAI PALAUNG TONE-5", aliases: &[] },
        Codepoint { codepoint: 0x1090, name: "MYANMAR SHAN DIGIT ZERO", aliases: &[] },
        Codepoint { codepoint: 0x1091, name: "MYANMAR SHAN DIGIT ONE", aliases: &[] },
        Codepoint { codepoint: 0x1092, name: "MYANMAR SHAN DIGIT TWO", aliases: &[] },
        Codepoint { codepoint: 0x1093, name: "MYANMAR SHAN DIGIT THREE", aliases: &[] },
        Codepoint { codepoint: 0x1094, name: "MYANMAR SHAN DIGIT FOUR", aliases: &[] },
        Codepoint { codepoint: 0x1095, name: "MYANMAR SHAN DIGIT FIVE", aliases: &[] },
        Codepoint { codepoint: 0x1096, name: "MYANMAR SHAN DIGIT SIX", aliases: &[] },
        Codepoint { codepoint: 0x1097, name: "MYANMAR SHAN DIGIT SEVEN", aliases: &[] },
        Codepoint { codepoint: 0x1098, name: "MYANMAR SHAN DIGIT EIGHT", aliases: &[] },
        Codepoint { codepoint: 0x1099, name: "MYANMAR SHAN DIGIT NINE", aliases: &[] },
    ];
    assert(v@ =~= codepoint_table_92());
    v
}

pub open spec fn codepoint_table_93() -> Seq<Codepoint> {
    seq![
        Codepoint { codepoint: 0x109A, name: "MYANMAR SIGN KHAMTI TONE-1", aliases: &[] },
        Codepoint { codepoint: 0x109B, name: "MYANMAR SIGN KHAMTI TONE-3", aliases: &[] },
        Codepoint { codepoint: 0x109C, name: "MYANMAR VOWEL SIGN AITON A", aliases: &[] },
        Codepoint { codepoint: 0x109D, name: "MYANMAR VOWEL SIGN AITON AI", aliases: &[] },
        Codepoint { codepoint: 0x109E, name: "MYANMAR SYMBOL SHAN ONE", aliases: &[] },
        Codepoint { codepoint: 0x109F, name: "MYANMAR SYMBOL SHAN EXCLAMATION", aliases: &[] },
        Codepoint { codepoint: 0x10A0, name: "GEORGIAN CAPITAL LETTER AN", aliases: &[] },
        Codepoint { codepoint: 0x10A1, name: "GEORGIAN CAPITAL LETTER BAN", aliases: &[] },
        Codepoint { codepoint: 0x10A2, name: "GEORGIAN CAPITAL LETTER GAN", aliases: &[] },
        Codepoint { codepoint: 0x10A3, name: "GEORGIAN CAPITAL LETTER DON", aliases: &[] },
        Codepoint { codepoint: 0x10A4, name: "GEORGIAN CAPITAL LETTER EN", aliases: &[] },
        Codepoint { codepoint: 0x10A5, name: "GEORGIAN CAPITAL LETTER VIN", aliases: &[] },
        Codepoint { codepoint: 0x10A6, name: "GEORGIAN CAPITAL LETTER ZEN", aliases: &[] },
        Codepoint { codepoint: 0x10A7, name: "GEORGIAN CAPITAL LETTER TAN", aliases: &[] },
        Codepoint { codepoint: 0x10A8, name: "GEORGIAN CAPITAL LETTER IN", aliases: &[] },
        Codepoint { codepoint: 0x10A9, name: "GEORGIAN CAPITAL LETTER KAN", aliases: &[] },
        Codepoint { codepoint: 0x10AA, name: "GEORGIAN CAPITAL LETTER LAS", aliases: &[] },
        Codepoint { codepoint: 0x10AB, name: "GEORGIAN CAPITAL LETTER MAN", aliases: &[] },
        Codepoint { codepoint: 0x10AC, name: "GEORGIAN CAPITAL LETTER NAR", aliases: &[] },
        Codepoint { codepoint: 0x10AD, name: "GEORGIAN CAPITAL LETTER ON", aliases: &[] },
        Codepoint { codepoint: 0x10AE, name: "GEORGIAN CAPITAL LETTER PAR", aliases: &[] },
        Codepoint { codepoint: 0x10AF, name: "GEORGIAN CAPITAL LETTER ZHAR", aliases: &[] },
        Codepoint { codepoint: 0x10B0, name: "GEORGIAN CAPITAL LETTER RAE", aliases: &[] },
        Codepoint { codepoint: 0x10B1, name: "GEORGIAN CAPITAL LETTER SAN", aliases: &[] },
        Codepoint { codepoint: 0x10B2, name: "GEORGIAN CAPITAL LETTER TAR", aliases: &[] },
        Codepoint { codepoint: 0x10B3, name: "GEORGIAN CAPITAL LETTER UN", aliases: &[] },
        Codepoint { codepoint: 0x10B4, name: "GEORGIAN CAPITAL LETTER PHAR", aliases: &[] },
        Codepoint { codepoint: 0x10B5, name: "GEORGIAN CAPITAL LETTER KHAR", aliases: &[] },
        Codepoint { codepoint: 0x10B6, name: "GEORGIAN CAPITAL LETTER GHAN", aliases: &[] },
        Codepoint { codepoint: 0x10B7, name: "GEORGIAN CAPITAL LETTER QAR", aliases: &[] },
        Codepoint { codepoint: 0x10B8, name: "GEORGIAN CAPITAL LETTER SHIN", aliases: &[] },
        Codepoint { codepoint: 0x10B9, name: "GEORGIAN CAPITAL LETTER CHIN", aliases: &[] },
        Codepoint { codepoint: 0x10BA, name: "GEORGIAN CAPITAL LETTER CAN", aliases: &[] },
        Codepoint { codepoint: 0x10BB, name: "GEORGIAN CAPITAL LETTER JIL", aliases: &[] },
        Codepoint { codepoint: 0x10BC, name: "GEORGIAN CAPITAL LETTER CIL", aliases: &[] },
        Codepoint { codepoint: 0x10BD, name: "GEORGIAN CAPITAL LETTER CHAR", aliases: &[] },
        Codepoint { codepoint: 0x10BE, name: "GEORGIAN CAPITAL LETTER XAN", aliases: &[] },
        Codepoint { codepoint: 0x10BF, name: "GEORGIAN CAPITAL LETTER JHAN", aliases: &[] },
        Codepoint { codepoint: 0x10C0, name: "GEORGIAN CAPITAL LETTER HAE", aliases: &[] },
        Codepoint { codepoint: 0x10C1, name: "GEORGIAN CAPITAL LETTER HE", aliases: &[] },
    ]
}

fn all_codepoints_93() -> (v: Vec<Codepoint>)
    ensures
        v@ == codepoint_table_93(),
{
    let v = vec![
        Codepoint { codepoint: 0x109A, name: "MYANMAR SIGN KHAMTI TONE-1", aliases: &[] },
        Codepoint { codepoint: 0x109B, name: "MYANMAR SIGN KHAMTI TONE-3", aliases: &[] },
        Codepoint { codepoint: 0x109C, name: "MYANMAR VOWEL SIGN AITON A", aliases: &[] },
        Codepoint { codepoint: 0x109D, name: "MYANMAR VOWEL SIGN AITON AI", aliases: &[] },
        Codepoint { codepoint: 0x109E, name: "MYANMAR SYMBOL SHAN ONE", aliases: &[] },
        Codepoint { codepoint: 0x109F, name: "MYANMAR SYMBOL SHAN EXCLAMATION", aliases: &[] },
        Codepoint { codepoint: 0x10A0, name: "GEORGIAN CAPITAL LETTER AN", aliases: &[] },
        Codepoint { codepoint: 0x10A1, name: "GEORGIAN CAPITAL LETTER BAN", aliases: &[] },
        Codepoint { codepoint: 0x10A2, name: "GEORGIAN CAPITAL LETTER GAN", aliases: &[] },
        Codepoint { codepoint: 0x10A3, name: "GEORGIAN CAPITAL LETTER DON", aliases: &[] },
        Codepoint { codepoint: 0x10A4, name: "GEORGIAN CAPITAL LETTER EN", aliases: &[] },
        Codepoint { codepoint: 0x10A5, name: "GEORGIAN CAPITAL LETTER VIN", aliases: &[] },
        Codepoint { codepoint: 0x10A6, name: "GEORGIAN CAPITAL LETTER ZEN", aliases: &[] },
        Codepoint { codepoint: 0x10A7, name: "GEORGIAN CAPITAL LETTER TAN", aliases: &[] },
        Codepoint { codepoint: 0x10A8, name: "GEORGIAN CAPITAL LETTER IN", aliases: &[] },
        Codepoint { codepoint: 0x10A9, name: "GEORGIAN CAPITAL LETTER KAN", aliases: &[] },
        Codepoint { codepoint: 0x10AA, name: "GEORGIAN CAPITAL LETTER LAS", aliases: &[] },
        Codepoint { codepoint: 0x10AB, name: "GEORGIAN CAPITAL LETTER MAN", aliases: &[] },
        Codepoint { codepoint: 0x10AC, name: "GEORGIAN CAPITAL LETTER NAR", aliases: &[] },
        Codepoint { codepoint: 0x10AD, name: "GEORGIAN CAPITAL LETTER ON", aliases: &[] },
        Codepoint { codepoint: 0x10AE, name: "GEORGIAN CAPITAL LETTER PAR", aliases: &[] },
        Codepoint { codepoint: 0x10AF, name: "GEORGIAN CAPITAL LETTER ZHAR", aliases: &[] },
        Codepoint { codepoint: 0x10B0, name: "GEORGIAN CAPITAL LETTER RAE", aliases: &[] },
        Codepoint { codepoint: 0x10B1, name: "GEORGIAN CAPITAL LETTER SAN", aliases: &[] },
        Codepoint { codepoint: 0x10B2, name: "GEORGIAN CAPITAL LETTER TAR", aliases: &[] },
        Codepoint { codepoint: 0x10B3, name: "GEORGIAN CAPITAL LETTER UN", aliases: &[] },
        Codepoint { codepoint: 0x10B4, name: "GEORGIAN CAPITAL LETTER PHAR", aliases: &[] },
        Codepoint { codepoint: 0x10B5, name: "GEORGIAN CAPITAL LETTER KHAR", aliases: &[] },
        Codepoint { codepoint: 0x10B6, name: "GEORGIAN CAPITAL LETTER GHAN", aliases: &[] },
        Codepoint { codepoint: 0x10B7, name: "GEORGIAN CAPITAL LETTER QAR", aliases: &[] },
        Codepoint { codepoint: 0x10B8, name: "GEORGIAN CAPITAL LETTER SHIN", aliases: &[] },
        Codepoint { codepoint: 0x10B9, name: "GEORGIAN CAPITAL LETTER CHIN", aliases: &[] },
        Codepoint { codepoint: 0x10BA, name: "GEORGIAN CAPITAL LETTER CAN", aliases: &[] },
        Codepoint { codepoint: 0x10BB, name: "GEORGIAN CAPITAL LETTER JIL", aliases: &[] },
        Codepoint { codepoint: 0x10BC, name: "GEORGIAN CAPITAL LETTER CIL", aliases: &[] },
        Codepoint { codepoint: 0x10BD, name: "GEORGIAN CAPITAL LETTER CHAR", aliases: &[] },
        Codepoint { codepoint: 0x10BE, name: "GEORGIAN CAPITAL LETTER XAN", aliases: &[] },
        Codepoint { codepoint: 0x10BF, name: "GEORGIAN CAPITAL LETTER JHAN", aliases: &[] },
        Codepoint { codepoint: 0x10C0, name: "GEORGIAN CAPITAL LETTER HAE", aliases: &[] },
        Codepoint { codepoint: 0x10C1, name: "GEORGIAN CAPITAL LETTER HE", aliases: &[] },
    ];
    assert(v@ =~= codepoint_table_93());
    v
}

pub open spec fn codepoint_table_94() -> Seq<Codepoint> {
    seq![
        Codepoint { codepoint: 0x10C2, name: "GEORGIAN CAPITAL LETTER HIE", aliases: &[] },
        Codepoint { codepoint: 0x10C3, name: "GEORGIAN CAPITAL LETTER WE", aliases: &[] },
        Codepoint { codepoint: 0x10C4, name: "GEORGIAN CAPITAL LETTER HAR", aliases: &[] },
        Codepoint { codepoint: 0x10C5, name: "GEORGIAN CAPITAL LETTER HOE", aliases: &[] },
        Codepoint { codepoint: 0x10C7, name: "GEORGIAN CAPITAL LETTER YN", aliases: &[] },
        Codepoint { codepoint: 0x10CD, name: "GEORGIAN CAPITAL LETTER AEN", aliases: &[] },
        Codepoint { codepoint: 0x10D0, name: "GEORGIAN LETTER AN", aliases: &["GEORGIAN SMALL LETTER AN"] },
        Codepoint { codepoint: 0x10D1, name: "GEORGIAN LETTER BAN", aliases: &["GEORGIAN SMALL LETTER BAN"] },
        Codepoint { codepoint: 0x10D2, name: "GEORGIAN LETTER GAN", aliases: &["GEORGIAN SMALL LETTER GAN"] },
        Codepoint { codepoint: 0x10D3, name: "GEORGIAN LETTER DON", aliases: &["GEORGIAN SMALL LETTER DON"] },
        Codepoint { codepoint: 0x10D4, name: "GEORGIAN LETTER EN", aliases: &["GEORGIAN SMALL LETTER EN"] },
        Codepoint { codepoint: 0x10D5, name: "GEORGIAN LETTER VIN", aliases: &["GEORGIAN SMALL LETTER VIN"] },
        Codepoint { codepoint: 0x10D6, name: "GEORGIAN LETTER ZEN", aliases: &["GEORGIAN SMALL LETTER ZEN"] },
        Codepoint { codepoint: 0x10D7, name: "GEORGIAN LETTER TAN", aliases: &["GEORGIAN SMALL LETTER TAN"] },
        Codepoint { codepoint: 0x10D8, name: "GEORGIAN LETTER IN", aliases: &["GEORGIAN SMALL LETTER IN"] },
        Codepoint { codepoint: 0x10D9, name: "GEORGIAN LETTER KAN", aliases: &["GEORGIAN SMALL LETTER KAN"] },
        Codepoint { codepoint: 0x10DA, name: "GEORGIAN LETTER LAS", aliases: &["GEORGIAN SMALL LETTER LAS"] },
        Codepoint { codepoint: 0x10DB, name: "GEORGIAN LETTER MAN", aliases: &["GEORGIAN SMALL LETTER MAN"] },
        Codepoint { codepoint: 0x10DC, name: "GEORGIAN LETTER NAR", aliases: &["GEORGIAN SMALL LETTER NAR"] },
        Codepoint { codepoint: 0x10DD, name: "GEORGIAN LETTER ON", aliases: &["GEORGIAN SMALL LETTER ON"] },
        Codepoint { codepoint: 0x10DE, name: "GEORGIAN LETTER PAR", aliases: &["GEORGIAN SMALL LETTER PAR"] },
        Codepoint { codepoint: 0x10DF, name: "GEORGIAN LETTER ZHAR", aliases: &["GEORGIAN SMALL LETTER ZHAR"] },
        Codepoint { codepoint: 0x10E0, name: "GEORGIAN LETTER RAE", aliases: &["GEORGIAN SMALL LETTER RAE"] },
        Codepoint { codepoint: 0x10E1, name: "GEORGIAN LETTER SAN", aliases: &["GEORGIAN SMALL LETTER SAN"] },
        Codepoint { codepoint: 0x10E2, name: "GEORGIAN LETTER TAR", aliases: &["GEORGIAN SMALL LETTER TAR"] },
        Codepoint { codepoint: 0x10E3, name: "GEORGIAN LETTER UN", aliases: &["GEORGIAN SMALL LETTER UN"] },
        Codepoint { codepoint: 0x10E4, name: "GEORGIAN LETTER PHAR", aliases: &["GEORGIAN SMALL LETTER PHAR"] },
        Codepoint { codepoint: 0x10E5, name: "GEORGIAN LETTER KHAR", aliases: &["GEORGIAN SMALL LETTER KHAR"] },
        Codepoint { codepoint: 0x10E6, name: "GEORGIAN LETTER GHAN", aliases: &["GEORGIAN SMALL LETTER GHAN"] },
        Codepoint { codepoint: 0x10E7, name: "GEORGIAN LETTER QAR", aliases: &["GEORGIAN SMALL LETTER QAR"] },
        Codepoint { codepoint: 0x10E8, name: "GEORGIAN LETTER SHIN", aliases: &["GEORGIAN SMALL LETTER SHIN"] },
        Codepoint { codepoint: 0x10E9, name: "GEORGIAN LETTER CHIN", aliases: &["GEORGIAN SMALL LETTER CHIN"] },
        Codepoint { codepoint: 0x10EA, name: "GEORGIAN LETTER CAN", aliases: &["GEORGIAN SMALL LETTER CAN"] },
        Codepoint { codepoint: 0x10EB, name: "GEORGIAN LETTER JIL", aliases: &["GEORGIAN SMALL LETTER JIL"] },
        Codepoint { codepoint: 0x10EC, name: "GEORGIAN LETTER CIL", aliases: &["GEORGIAN SMALL LETTER CIL"] },
        Codepoint { codepoint: 0x10ED, name: "GEORGIAN LETTER CHAR", aliases: &["GEORGIAN SMALL LETTER CHAR"] },
        Codepoint { codepoint: 0x10EE, name: "GEORGIAN LETTER XAN", aliases: &["GEORGIAN SMALL LETTER XAN"] },
        Codepoint { codepoint: 0x10EF, name: "GEORGIAN LETTER JHAN", aliases: &["GEORGIAN SMALL LETTER JHAN"] },
        Codepoint { codepoint: 0x10F0, name: "GEORGIAN LETTER HAE", aliases: &["GEORGIAN SMALL LETTER HAE"] },
        Codepoint { codepoint: 0x10F1, name: "GEORGIAN LETTER HE", aliases: &["GEORGIAN SMALL LETTER HE"] },
    ]
}

fn all_codepoints_94() -> (v: Vec<Codepoint>)
    ensures
        v@ == codepoint_table_94(),
{
    let v = vec![
        Codepoint { codepoint: 0x10C2, name: "GEORGIAN CAPITAL LETTER HIE", aliases: &[] },
        Codepoint { codepoint: 0x10C3, name: "GEORGIAN CAPITAL LETTER WE", aliases: &[] },
        Codepoint { codepoint: 0x10C4, name: "GEORGIAN CAPITAL LETTER HAR", aliases: &[] },
        Codepoint { codepoint: 0x10C5, name: "GEORGIAN CAPITAL LETTER HOE", aliases: &[] },
        Codepoint { codepoint: 0x10C7, name: "GEORGIAN CAPITAL LETTER YN", aliases: &[] },
        Codepoint { codepoint: 0x10CD, name: "GEORGIAN CAPITAL LETTER AEN", aliases: &[] },
        Codepoint { codepoint: 0x10D0, name: "GEORGIAN LETTER AN", aliases: &["GEORGIAN SMALL LETTER AN"] },
        Codepoint { codepoint: 0x10D1, name: "GEORGIAN LETTER BAN", aliases: &["GEORGIAN SMALL LETTER BAN"] },
        Codepoint { codepoint: 0x10D2, name: "GEORGIAN LETTER GAN", aliases: &["GEORGIAN SMALL LETTER GAN"] },
        Codepoint { codepoint: 0x10D3, name: "GEORGIAN LETTER DON", aliases: &["GEORGIAN SMALL LETTER DON"] },
        Codepoint { codepoint: 0x10D4, name: "GEORGIAN LETTER EN", aliases: &["GEORGIAN SMALL LETTER EN"] },
        Codepoint { codepoint: 0x10D5, name: "GEORGIAN LETTER VIN", aliases: &["GEORGIAN SMALL LETTER VIN"] },
        Codepoint { codepoint: 0x10D6, name: "GEORGIAN LETTER ZEN", aliases: &["GEORGIAN SMALL LETTER ZEN"] },
        Codepoint { codepoint: 0x10D7, name: "GEORGIAN LETTER TAN", aliases: &["GEORGIAN SMALL LETTER TAN"] },
        Codepoint { codepoint: 0x10D8, name: "GEORGIAN LETTER IN", aliases: &["GEORGIAN SMALL LETTER IN"] },
        Codepoint { codepoint: 0x10D9, name: "GEORGIAN LETTER KAN", aliases: &["GEORGIAN SMALL LETTER KAN"] },
        Codepoint { codepoint: 0x10DA, name: "GEORGIAN LETTER LAS", aliases: &["GEORGIAN SMALL LETTER LAS"] },
        Codepoint { codepoint: 0x10DB, name: "GEORGIAN LETTER MAN", aliases: &["GEORGIAN SMALL LETTER MAN"] },
        Codepoint { codepoint: 0x10DC, name: "GEORGIAN LETTER NAR", aliases: &["GEORGIAN SMALL LETTER NAR"] },
        Codepoint { codepoint: 0x10DD, name: "GEORGIAN LETTER ON", aliases: &["GEORGIAN SMALL LETTER ON"] },
        Codepoint { codepoint: 0x10DE, name: "GEORGIAN LETTER PAR", aliases: &["GEORGIAN SMALL LETTER PAR"] },
        Codepoint { codepoint: 0x10DF, name: "GEORGIAN LETTER ZHAR", aliases: &["GEORGIAN SMALL LETTER ZHAR"] },
        Codepoint { codepoint: 0x10E0, name: "GEORGIAN LETTER RAE", aliases: &["GEORGIAN SMALL LETTER RAE"] },
        Codepoint { codepoint: 0x10E1, name: "GEORGIAN LETTER SAN", aliases: &["GEORGIAN SMALL LETTER SAN"] },
        Codepoint { codepoint: 0x10E2, name: "GEORGIAN LETTER TAR", aliases: &["GEORGIAN SMALL LETTER TAR"] },
        Codepoint { codepoint: 0x10E3, name: "GEORGIAN LETTER UN", aliases: &["GEORGIAN SMALL LETTER UN"] },
        Codepoint { codepoint: 0x10E4, name: "GEORGIAN LETTER PHAR", aliases: &["GEORGIAN SMALL LETTER PHAR"] },
        Codepoint { codepoint: 0x10E5, name: "GEORGIAN LETTER KHAR", aliases: &["GEORGIAN SMALL LETTER KHAR"] },
        Codepoint { codepoint: 0x10E6, name: "GEORGIAN LETTER GHAN", aliases: &["GEORGIAN SMALL LETTER GHAN"] },
        Codepoint { codepoint: 0x10E7, name: "GEORGIAN LETTER QAR", aliases: &["GEORGIAN SMALL LETTER QAR"] },
        Codepoint { codepoint: 0x10E8, name: "GEORGIAN LETTER SHIN", aliases: &["GEORGIAN SMALL LETTER SHIN"] },
        Codepoint { codepoint: 0x10E9, name: "GEORGIAN LETTER CHIN", aliases: &["GEORGIAN SMALL LETTER CHIN"] },
        Codepoint { codepoint: 0x10EA, name: "GEORGIAN LETTER CAN", aliases: &["GEORGIAN SMALL LETTER CAN"] },
        Codepoint { codepoint: 0x10EB, name: "GEORGIAN LETTER JIL", aliases: &["GEORGIAN SMALL LETTER JIL"] },
        Codepoint { codepoint: 0x10EC, name: "GEORGIAN LETTER CIL", aliases: &["GEORGIAN SMALL LETTER CIL"] },
        Codepoint { codepoint: 0x10ED, name: "GEORGIAN LETTER CHAR", aliases: &["GEORGIAN SMALL LETTER CHAR"] },
        Codepoint { codepoint: 0x10EE, name: "GEORGIAN LETTER XAN", aliases: &["GEORGIAN SMALL LETTER XAN"] },
        Codepoint { codepoint: 0x10EF, name: "GEORGIAN LETTER JHAN", aliases: &["GEORGIAN SMALL LETTER JHAN"] },
        Codepoint { codepoint: 0x10F0, name: "GEORGIAN LETTER HAE", aliases: &["GEORGIAN SMALL LETTER HAE"] },
        Codepoint { codepoint: 0x10F1, name: "GEORGIAN LETTER HE", aliases: &["GEORGIAN SMALL LETTER HE"] },
    ];
    assert(v@ =~= codepoint_table_94());
    v
}

pub open spec fn codepoint_table_95() -> Seq<Codepoint> {
    seq![
        Codepoint { codepoint: 0x10F2, name: "GEORGIAN LETTER HIE", aliases: &["GEORGIAN SMALL LETTER HIE"] },
        Codepoint { codepoint: 0x10F3, name: "GEORGIAN LETTER WE", aliases: &["GEORGIAN SMALL LETTER WE"] },
        Codepoint { codepoint: 0x10F4, name: "GEORGIAN LETTER HAR", aliases: &["GEORGIAN SMALL LETTER HAR"] },
        Codepoint { codepoint: 0x10F5, name: "GEORGIAN LETTER HOE", aliases: &["GEORGIAN SMALL LETTER HOE"] },
        Codepoint { codepoint: 0x10F6, name: "GEORGIAN LETTER FI", aliases: &["GEORGIAN SMALL LETTER FI"] },
        Codepoint { codepoint: 0x10F7, name: "GEORGIAN LETTER YN", aliases: &[] },
        Codepoint { codepoint: 0x10F8, name: "GEORGIAN LETTER ELIFI", aliases: &[] },
        Codepoint { codepoint: 0x10F9, name: "GEORGIAN LETTER TURNED GAN", aliases: &[] },
        Codepoint { codepoint: 0x10FA, name: "GEORGIAN LETTER AIN", aliases: &[] },
        Codepoint { codepoint: 0x10FB, name: "GEORGIAN PARAGRAPH SEPARATOR", aliases: &[] },
        Codepoint { codepoint: 0x10FC, name: "MODIFIER LETTER GEORGIAN NAR", aliases: &[] },
        Codepoint { codepoint: 0x10FD, name: "GEORGIAN LETTER AEN", aliases: &[] },
        Codepoint { codepoint: 0x10FE, name: "GEORGIAN LETTER HARD SIGN", aliases: &[] },
        Codepoint { codepoint: 0x10FF, name: "GEORGIAN LETTER LABIAL SIGN", aliases: &[] },
        Codepoint { codepoint: 0x1100, name: "HANGUL CHOSEONG KIYEOK", aliases: &[] },
        Codepoint { codepoint: 0x1101, name: "HANGUL CHOSEONG SSANGKIYEOK", aliases: &[] },
        Codepoint { codepoint: 0x1102, name: "HANGUL CHOSEONG NIEUN", aliases: &[] },
        Codepoint { codepoint: 0x1103, name: "HANGUL CHOSEONG TIKEUT", aliases: &[] },
        Codepoint { codepoint: 0x1104, name: "HANGUL CHOSEONG SSANGTIKEUT", aliases: &[] },
        Codepoint { codepoint: 0x1105, name: "HANGUL CHOSEONG RIEUL", aliases: &[] },
        Codepoint { codepoint: 0x1106, name: "HANGUL CHOSEONG MIEUM", aliases: &[] },
        Codepoint { codepoint: 0x1107, name: "HANGUL CHOSEONG PIEUP", aliases: &[] },
        Codepoint { codepoint: 0x1108, name: "HANGUL CHOSEONG SSANGPIEUP", aliases: &[] },
        Codepoint { codepoint: 0x1109, name: "HANGUL CHOSEONG SIOS", aliases: &[] },
        Codepoint { codepoint: 0x110A, name: "HANGUL CHOSEONG SSANGSIOS", aliases: &[] },
        Codepoint { codepoint: 0x110B, name: "HANGUL CHOSEONG IEUNG", aliases: &[] },
        Codepoint { codepoint: 0x110C, name: "HANGUL CHOSEONG CIEUC", aliases: &[] },
        Codepoint { codepoint: 0x110D, name: "HANGUL CHOSEONG SSANGCIEUC", aliases: &[] },
        Codepoint { codepoint: 0x110E, name: "HANGUL CHOSEONG CHIEUCH", aliases: &[] },
        Codepoint { codepoint: 0x110F, name: "HANGUL CHOSEONG KHIEUKH", aliases: &[] },
        Codepoint { codepoint: 0x1110, name: "HANGUL CHOSEONG THIEUTH", aliases: &[] },
        Codepoint { codepoint: 0x1111, name: "HANGUL CHOSEONG PHIEUPH", aliases: &[] },
        Codepoint { codepoint: 0x1112, name: "HANGUL CHOSEONG HIEUH", aliases: &[] },
        Codepoint { codepoint: 0x1113, name: "HANGUL CHOSEONG NIEUN-KIYEOK", aliases: &[] },
        Codepoint { codepoint: 0x1114, name: "HANGUL CHOSEONG SSANGNIEUN", aliases: &[] },
        Codepoint { codepoint: 0x1115, name: "HANGUL CHOSEONG NIEUN-TIKEUT", aliases: &[] },
        Codepoint { codepoint: 0x1116, name: "HANGUL CHOSEONG NIEUN-PIEUP", aliases: &[] },
        Codepoint { codepoint: 0x1117, name: "HANGUL CHOSEONG TIKEUT-KIYEOK", aliases: &[] },
        Codepoint { codepoint: 0x1118, name: "HANGUL CHOSEONG RIEUL-NIEUN", aliases: &[] },
        Codepoint { codepoint: 0x1119, name: "HANGUL CHOSEONG SSANGRIEUL", aliases: &[] },
    ]
}

fn all_codepoints_95() -> (v: Vec<Codepoint>)
    ensures
        v@ == codepoint_table_95(),
{
    let v = vec![
        Codepoint { codepoint: 0x10F2, name: "GEORGIAN LETTER HIE", aliases: &["GEORGIAN SMALL LETTER HIE"] },
        Codepoint { codepoint: 0x10F3, name: "GEORGIAN LETTER WE", aliases: &["GEORGIAN SMALL LETTER WE"] },
        Codepoint { codepoint: 0x10F4, name: "GEORGIAN LETTER HAR", aliases: &["GEORGIAN SMALL LETTER HAR"] },
        Codepoint { codepoint: 0x10F5, name: "GEORGIAN LETTER HOE", aliases: &["GEORGIAN SMALL LETTER HOE"] },
        Codepoint { codepoint: 0x10F6, name: "GEORGIAN LETTER FI", aliases: &["GEORGIAN SMALL LETTER FI"] },
        Codepoint { codepoint: 0x10F7, name: "GEORGIAN LETTER YN", aliases: &[] },
        Codepoint { codepoint: 0x10F8, name: "GEORGIAN LETTER ELIFI", aliases: &[] },
        Codepoint { codepoint: 0x10F9, name: "GEORGIAN LETTER TURNED GAN", aliases: &[] },
        Codepoint { codepoint: 0x10FA, name: "GEORGIAN LETTER AIN", aliases: &[] },
        Codepoint { codepoint: 0x10FB, name: "GEORGIAN PARAGRAPH SEPARATOR", aliases: &[] },
        Codepoint { codepoint: 0x10FC, name: "MODIFIER LETTER GEORGIAN NAR", aliases: &[] },
        Codepoint { codepoint: 0x10FD, name: "GEORGIAN LETTER AEN", aliases: &[] },
        Codepoint { codepoint: 0x10FE, name: "GEORGIAN LETTER HARD SIGN", aliases: &[] },
        Codepoint { codepoint: 0x10FF, name: "GEORGIAN LETTER LABIAL SIGN", aliases: &[] },
        Codepoint { codepoint: 0x1100, name: "HANGUL CHOSEONG KIYEOK", aliases: &[] },
        Codepoint { codepoint: 0x1101, name: "HANGUL CHOSEONG SSANGKIYEOK", aliases: &[] },
        Codepoint { codepoint: 0x1102, name: "HANGUL CHOSEONG NIEUN", aliases: &[] },
        Codepoint { codepoint: 0x1103, name: "HANGUL CHOSEONG TIKEUT", aliases: &[] },
        Codepoint { codepoint: 0x1104, name: "HANGUL CHOSEONG SSANGTIKEUT", aliases: &[] },
        Codepoint { codepoint: 0x1105, name: "HANGUL CHOSEONG RIEUL", aliases: &[] },
        Codepoint { codepoint: 0x1106, name: "HANGUL CHOSEONG MIEUM", aliases: &[] },
        Codepoint { codepoint: 0x1107, name: "HANGUL CHOSEONG PIEUP", aliases: &[] },
        Codepoint { codepoint: 0x1108, name: "HANGUL CHOSEONG SSANGPIEUP", aliases: &[] },
        Codepoint { codepoint: 0x1109, name: "HANGUL CHOSEONG SIOS", aliases: &[] },
        Codepoint { codepoint: 0x110A, name: "HANGUL CHOSEONG SSANGSIOS", aliases: &[] },
        Codepoint { codepoint: 0x110B, name: "HANGUL CHOSEONG IEUNG", aliases: &[] },
        Codepoint { codepoint: 0x110C, name: "HANGUL CHOSEONG CIEUC", aliases: &[] },
        Codepoint { codepoint: 0x110D, name: "HANGUL CHOSEONG SSANGCIEUC", aliases: &[] },
        Codepoint { codepoint: 0x110E, name: "HANGUL CHOSEONG CHIEUCH", aliases: &[] },
        Codepoint { codepoint: 0x110F, name: "HANGUL CHOSEONG KHIEUKH", aliases: &[] },
        Codepoint { codepoint: 0x1110, name: "HANGUL CHOSEONG THIEUTH", aliases: &[] },
        Codepoint { codepoint: 0x1111, name: "HANGUL CHOSEONG PHIEUPH", aliases: &[] },
        Codepoint { codepoint: 0x1112, name: "HANGUL CHOSEONG HIEUH", aliases: &[] },
        Codepoint { codepoint: 0x1113, name: "HANGUL CHOSEONG NIEUN-KIYEOK", aliases: &[] },
        Codepoint { codepoint: 0x1114, name: "HANGUL CHOSEONG SSANGNIEUN", aliases: &[] },
        Codepoint { codepoint: 0x1115, name: "HANGUL CHOSEONG NIEUN-TIKEUT", aliases: &[] },
        Codepoint { codepoint: 0x1116, name: "HANGUL CHOSEONG NIEUN-PIEUP", aliases: &[] },
        Codepoint { codepoint: 0x1117, name: "HANGUL CHOSEONG TIKEUT-KIYEOK", aliases: &[] },
        Codepoint { codepoint: 0x1118, name: "HANGUL CHOSEONG RIEUL-NIEUN", aliases: &[] },
        Codepoint { codepoint: 0x1119, name: "HANGUL CHOSEONG SSANGRIEUL", aliases: &[] },
    ];
    assert(v@ =~= codepoint_table_95());
    v
}

pub open spec fn codepoint_table_96() -> Seq<Codepoint> {
    seq![
        Codepoint { codepoint: 0x111A, name: "HANGUL CHOSEONG RIEUL-HIEUH", aliases: &[] },
        Codepoint { codepoint: 0x111B, name: "HANGUL CHOSEONG KAPYEOUNRIEUL", aliases: &[] },
        Codepoint { codepoint: 0x111C, name: "HANGUL CHOSEONG MIEUM-PIEUP", aliases: &[] },
        Codepoint { codepoint: 0x111D, name: "HANGUL CHOSEONG KAPYEOUNMIEUM", aliases: &[] },
        Codepoint { codepoint: 0x111E, name: "HANGUL CHOSEONG PIEUP-KIYEOK", aliases: &[] },
        Codepoint { codepoint: 0x111F, name: "HANGUL CHOSEONG PIEUP-NIEUN", aliases: &[] },
        Codepoint { codepoint: 0x1120, name: "HANGUL CHOSEONG PIEUP-TIKEUT", aliases: &[] },
        Codepoint { codepoint: 0x1121, name: "HANGUL CHOSEONG PIEUP-SIOS", aliases: &[] },
        Codepoint { codepoint: 0x1122, name: "HANGUL CHOSEONG PIEUP-SIOS-KIYEOK", aliases: &[] },
        Codepoint { codepoint: 0x1123, name: "HANGUL CHOSEONG PIEUP-SIOS-TIKEUT", aliases: &[] },
        Codepoint { codepoint: 0x1124, name: "HANGUL CHOSEONG PIEUP-SIOS-PIEUP", aliases: &[] },
        Codepoint { codepoint: 0x1125, name: "HANGUL CHOSEONG PIEUP-SSANGSIOS", aliases: &[] },
        Codepoint { codepoint: 0x1126, name: "HANGUL CHOSEONG PIEUP-SIOS-CIEUC", aliases: &[] },
        Codepoint { codepoint: 0x1127, name: "HANGUL CHOSEONG PIEUP-CIEUC", aliases: &[] },
        Codepoint { codepoint: 0x1128, name: "HANGUL CHOSEONG PIEUP-CHIEUCH", aliases: &[] },
        Codepoint { codepoint: 0x1129, name: "HANGUL CHOSEONG PIEUP-THIEUTH", aliases: &[] },
        Codepoint { codepoint: 0x112A, name: "HANGUL CHOSEONG PIEUP-PHIEUPH", aliases: &[] },
        Codepoint { codepoint: 0x112B, name: "HANGUL CHOSEONG KAPYEOUNPIEUP", aliases: &[] },
        Codepoint { codepoint: 0x112C, name: "HANGUL CHOSEONG KAPYEOUNSSANGPIEUP", aliases: &[] },
        Codepoint { codepoint: 0x112D, name: "HANGUL CHOSEONG SIOS-KIYEOK", aliases: &[] },
        Codepoint { codepoint: 0x112E, name: "HANGUL CHOSEONG SIOS-NIEUN", aliases: &[] },
        Codepoint { codepoint: 0x112F, name: "HANGUL CHOSEONG SIOS-TIKEUT", aliases: &[] },
        Codepoint { codepoint: 0x1130, name: "HANGUL CHOSEONG SIOS-RIEUL", aliases: &[] },
        Codepoint { codepoint: 0x1131, name: "HANGUL CHOSEONG SIOS-MIEUM", aliases: &[] },
        Codepoint { codepoint: 0x1132, name: "HANGUL CHOSEONG SIOS-PIEUP", aliases: &[] },
        Codepoint { codepoint: 0x1133, name: "HANGUL CHOSEONG SIOS-PIEUP-KIYEOK", aliases: &[] },
        Codepoint { codepoint: 0x1134, name: "HANGUL CHOSEONG SIOS-SSANGSIOS", aliases: &[] },
        Codepoint { codepoint: 0x1135, name: "HANGUL CHOSEONG SIOS-IEUNG", aliases: &[] },
        Codepoint { codepoint: 0x1136, name: "HANGUL CHOSEONG SIOS-CIEUC", aliases: &[] },
        Codepoint { codepoint: 0x1137, name: "HANGUL CHOSEONG SIOS-CHIEUCH", aliases: &[] },
        Codepoint { codepoint: 0x1138, name: "HANGUL CHOSEONG SIOS-KHIEUKH", aliases: &[] },
        Codepoint { codepoint: 0x1139, name: "HANGUL CHOSEONG SIOS-THIEUTH", aliases: &[] },
        Codepoint { codepoint: 0x113A, name: "HANGUL CHOSEONG SIOS-PHIEUPH", aliases: &[] },
        Codepoint { codepoint: 0x113B, name: "HANGUL CHOSEONG SIOS-HIEUH", aliases: &[] },
        Codepoint { codepoint: 0x113C, name: "HANGUL CHOSEONG CHITUEUMSIOS", aliases: &[] },
        Codepoint { codepoint: 0x113D, name: "HANGUL CHOSEONG CHITUEUMSSANGSIOS", aliases: &[] },
        Codepoint { codepoint: 0x113E, name: "HANGUL CHOSEONG CEONGCHIEUMSIOS", aliases: &[] },
        Codepoint { codepoint: 0x113F, name: "HANGUL CHOSEONG CEONGCHIEUMSSANGSIOS", aliases: &[] },
        Codepoint { codepoint: 0x1140, name: "HANGUL CHOSEONG PANSIOS", aliases: &[] },
        Codepoint { codepoint: 0x1141, name: "HANGUL CHOSEONG IEUNG-KIYEOK", aliases: &[] },
    ]
}

fn all_codepoints_96() -> (v: Vec<Codepoint>)
    ensures
        v@ == codepoint_table_96(),
{
    let v = vec![
        Codepoint { codepoint: 0x111A, name: "HANGUL CHOSEONG RIEUL-HIEUH", aliases: &[] },
        Codepoint { codepoint: 0x111B, name: "HANGUL CHOSEONG KAPYEOUNRIEUL", aliases: &[] },
        Codepoint { codepoint: 0x111C, name: "HANGUL CHOSEONG MIEUM-PIEUP", aliases: &[] },
        Codepoint { codepoint: 0x111D, name: "HANGUL CHOSEONG KAPYEOUNMIEUM", aliases: &[] },
        Codepoint { codepoint: 0x111E, name: "HANGUL CHOSEONG PIEUP-KIYEOK", aliases: &[] },
        Codepoint { codepoint: 0x111F, name: "HANGUL CHOSEONG PIEUP-NIEUN", aliases: &[] },
        Codepoint { codepoint: 0x1120, name: "HANGUL CHOSEONG PIEUP-TIKEUT", aliases: &[] },
        Codepoint { codepoint: 0x1121, name: "HANGUL CHOSEONG PIEUP-SIOS", aliases: &[] },
        Codepoint { codepoint: 0x1122, name: "HANGUL CHOSEONG PIEUP-SIOS-KIYEOK", aliases: &[] },
        Codepoint { codepoint: 0x1123, name: "HANGUL CHOSEONG PIEUP-SIOS-TIKEUT", aliases: &[] },
        Codepoint { codepoint: 0x1124, name: "HANGUL CHOSEONG PIEUP-SIOS-PIEUP", aliases: &[] },
        Codepoint { codepoint: 0x1125, name: "HANGUL CHOSEONG PIEUP-SSANGSIOS", aliases: &[] },
        Codepoint { codepoint: 0x1126, name: "HANGUL CHOSEONG PIEUP-SIOS-CIEUC", aliases: &[] },
        Codepoint { codepoint: 0x1127, name: "HANGUL CHOSEONG PIEUP-CIEUC", aliases: &[] },
        Codepoint { codepoint: 0x1128, name: "HANGUL CHOSEONG PIEUP-CHIEUCH", aliases: &[] },
        Codepoint { codepoint: 0x1129, name: "HANGUL CHOSEONG PIEUP-THIEUTH", aliases: &[] },
        Codepoint { codepoint: 0x112A, name: "HANGUL CHOSEONG PIEUP-PHIEUPH", aliases: &[] },
        Codepoint { codepoint: 0x112B, name: "HANGUL CHOSEONG KAPYEOUNPIEUP", aliases: &[] },
        Codepoint { codepoint: 0x112C, name: "HANGUL CHOSEONG KAPYEOUNSSANGPIEUP", aliases: &[] },
        Codepoint { codepoint: 0x112D, name: "HANGUL CHOSEONG SIOS-KIYEOK", aliases: &[] },
        Codepoint { codepoint: 0x112E, name: "HANGUL CHOSEONG SIOS-NIEUN", aliases: &[] },
        Codepoint { codepoint: 0x112F, name: "HANGUL CHOSEONG SIOS-TIKEUT", aliases: &[] },
        Codepoint { codepoint: 0x1130, name: "HANGUL CHOSEONG SIOS-RIEUL", aliases: &[] },
        Codepoint { codepoint: 0x1131, name: "HANGUL CHOSEONG SIOS-MIEUM", aliases: &[] },
        Codepoint { codepoint: 0x1132, name: "HANGUL CHOSEONG SIOS-PIEUP", aliases: &[] },
        Codepoint { codepoint: 0x1133, name: "HANGUL CHOSEONG SIOS-PIEUP-KIYEOK", aliases: &[] },
        Codepoint { codepoint: 0x1134, name: "HANGUL CHOSEONG SIOS-SSANGSIOS", aliases: &[] },
        Codepoint { codepoint: 0x1135, name: "HANGUL CHOSEONG SIOS-IEUNG", aliases: &[] },
        Codepoint { codepoint: 0x1136, name: "HANGUL CHOSEONG SIOS-CIEUC", aliases: &[] },
        Codepoint { codepoint: 0x1137, name: "HANGUL CHOSEONG SIOS-CHIEUCH", aliases: &[] },
        Codepoint { codepoint: 0x1138, name: "HANGUL CHOSEONG SIOS-KHIEUKH", aliases: &[] },
        Codepoint { codepoint: 0x1139, name: "HANGUL CHOSEONG SIOS-THIEUTH", aliases: &[] },
        Codepoint { codepoint: 0x113A, name: "HANGUL CHOSEONG SIOS-PHIEUPH", aliases: &[] },
        Codepoint { codepoint: 0x113B, name: "HANGUL CHOSEONG SIOS-HIEUH", aliases: &[] },
        Codepoint { codepoint: 0x113C, name: "HANGUL CHOSEONG CHITUEUMSIOS", aliases: &[] },
        Codepoint { codepoint: 0x113D, name: "HANGUL CHOSEONG CHITUEUMSSANGSIOS", aliases: &[] },
        Codepoint { codepoint: 0x113E, name: "HANGUL CHOSEONG CEONGCHIEUMSIOS", aliases: &[] },
        Codepoint { codepoint: 0x113F, name: "HANGUL CHOSEONG CEONGCHIEUMSSANGSIOS", aliases: &[] },
        Codepoint { codepoint: 0x1140, name: "HANGUL CHOSEONG PANSIOS", aliases: &[] },
        Codepoint { codepoint: 0x1141, name: "HANGUL CHOSEONG IEUNG-KIYEOK", aliases: &[] },
    ];
    assert(v@ =~= codepoint_table_96());
    v
}

pub open spec fn codepoint_table_97() -> Seq<Codepoint> {
    seq![
        Codepoint { codepoint: 0x1142, name: "HANGUL CHOSEONG IEUNG-TIKEUT", aliases: &[] },
        Codepoint { codepoint: 0x1143, name: "HANGUL CHOSEONG IEUNG-MIEUM", aliases: &[] },
        Codepoint { codepoint: 0x1144, name: "HANGUL CHOSEONG IEUNG-PIEUP", aliases: &[] },
        Codepoint { codepoint: 0x1145, name: "HANGUL CHOSEONG IEUNG-SIOS", aliases: &[] },
        Codepoint { codepoint: 0x1146, name: "HANGUL CHOSEONG IEUNG-PANSIOS", aliases: &[] },
        Codepoint { codepoint: 0x1147, name: "HANGUL CHOSEONG SSANGIEUNG", aliases: &[] },
        Codepoint { codepoint: 0x1148, name: "HANGUL CHOSEONG IEUNG-CIEUC", aliases: &[] },
        Codepoint { codepoint: 0x1149, name: "HANGUL CHOSEONG IEUNG-CHIEUCH", aliases: &[] },
        Codepoint { codepoint: 0x114A, name: "HANGUL CHOSEONG IEUNG-THIEUTH", aliases: &[] },
        Codepoint { codepoint: 0x114B, name: "HANGUL CHOSEONG IEUNG-PHIEUPH", aliases: &[] },
        Codepoint { codepoint: 0x114C, name: "HANGUL CHOSEONG YESIEUNG", aliases: &[] },
        Codepoint { codepoint: 0x114D, name: "HANGUL CHOSEONG CIEUC-IEUNG", aliases: &[] },
        Codepoint { codepoint: 0x114E, name: "HANGUL CHOSEONG CHITUEUMCIEUC", aliases: &[] },
        Codepoint { codepoint: 0x114F, name: "HANGUL CHOSEONG CHITUEUMSSANGCIEUC", aliases: &[] },
        Codepoint { codepoint: 0x1150, name: "HANGUL CHOSEONG CEONGCHIEUMCIEUC", aliases: &[] },
        Codepoint { codepoint: 0x1151, name: "HANGUL CHOSEONG CEONGCHIEUMSSANGCIEUC", aliases: &[] },
        Codepoint { codepoint: 0x1152, name: "HANGUL CHOSEONG CHIEUCH-KHIEUKH", aliases: &[] },
        Codepoint { codepoint: 0x1153, name: "HANGUL CHOSEONG CHIEUCH-HIEUH", aliases: &[] },
        Codepoint { codepoint: 0x1154, name: "HANGUL CHOSEONG CHITUEUMCHIEUCH", aliases: &[] },
        Codepoint { codepoint: 0x1155, name: "HANGUL CHOSEONG CEONGCHIEUMCHIEUCH", aliases: &[] },
        Codepoint { codepoint: 0x1156, name: "HANGUL CHOSEONG PHIEUPH-PIEUP", aliases: &[] },
        Codepoint { codepoint: 0x1157, name: "HANGUL CHOSEONG KAPYEOUNPHIEUPH", aliases: &[] },
        Codepoint { codepoint: 0x1158, name: "HANGUL CHOSEONG SSANGHIEUH", aliases: &[] },
        Codepoint { codepoint: 0x1159, name: "HANGUL CHOSEONG YEORINHIEUH", aliases: &[] },
        Codepoint { codepoint: 0x115A, name: "HANGUL CHOSEONG KIYEOK-TIKEUT", aliases: &[] },
        Codepoint { codepoint: 0x115B, name: "HANGUL CHOSEONG NIEUN-SIOS", aliases: &[] },
        Codepoint { codepoint: 0x115C, name: "HANGUL CHOSEONG NIEUN-CIEUC", aliases: &[] },
        Codepoint { codepoint: 0x115D, name: "HANGUL CHOSEONG NIEUN-HIEUH", aliases: &[] },
        Codepoint { codepoint: 0x115E, name: "HANGUL CHOSEONG TIKEUT-RIEUL", aliases: &[] },
        Codepoint { codepoint: 0x115F, name: "HANGUL CHOSEONG FILLER", aliases: &[] },
        Codepoint { codepoint: 0x1160, name: "HANGUL JUNGSEONG FILLER", aliases: &[] },
        Codepoint { codepoint: 0x1161, name: "HANGUL JUNGSEONG A", aliases: &[] },
        Codepoint { codepoint: 0x1162, name: "HANGUL JUNGSEONG AE", aliases: &[] },
        Codepoint { codepoint: 0x1163, name: "HANGUL JUNGSEONG YA", aliases: &[] },
        Codepoint { codepoint: 0x1164, name: "HANGUL JUNGSEONG YAE", aliases: &[] },
        Codepoint { codepoint: 0x1165, name: "HANGUL JUNGSEONG EO", aliases: &[] },
        Codepoint { codepoint: 0x1166, name: "HANGUL JUNGSEONG E", aliases: &[] },
        Codepoint { codepoint: 0x1167, name: "HANGUL JUNGSEONG YEO", aliases: &[] },
        Codepoint { codepoint: 0x1168, name: "HANGUL JUNGSEONG YE", aliases: &[] },
        Codepoint { codepoint: 0x1169, name: "HANGUL JUNGSEONG O", aliases: &[] },
    ]
}

fn all_codepoints_97() -> (v: Vec<Codepoint>)
    ensures
        v@ == codepoint_table_97(),
{
    let v = vec![
        Codepoint { codepoint: 0x1142, name: "HANGUL CHOSEONG IEUNG-TIKEUT", aliases: &[] },
        Codepoint { codepoint: 0x1143, name: "HANGUL CHOSEONG IEUNG-MIEUM", aliases: &[] },
        Codepoint { codepoint: 0x1144, name: "HANGUL CHOSEONG IEUNG-PIEUP", aliases: &[] },
        Codepoint { codepoint: 0x1145, name: "HANGUL CHOSEONG IEUNG-SIOS", aliases: &[] },
        Codepoint { codepoint: 0x1146, name: "HANGUL CHOSEONG IEUNG-PANSIOS", aliases: &[] },
        Codepoint { codepoint: 0x1147, name: "HANGUL CHOSEONG SSANGIEUNG", aliases: &[] },
        Codepoint { codepoint: 0x1148, name: "HANGUL CHOSEONG IEUNG-CIEUC", aliases: &[] },
        Codepoint { codepoint: 0x1149, name: "HANGUL CHOSEONG IEUNG-CHIEUCH", aliases: &[] },
        Codepoint { codepoint: 0x114A, name: "HANGUL CHOSEONG IEUNG-THIEUTH", aliases: &[] },
        Codepoint { codepoint: 0x114B, name: "HANGUL CHOSEONG IEUNG-PHIEUPH", aliases: &[] },
        Codepoint { codepoint: 0x114C, name: "HANGUL CHOSEONG YESIEUNG", aliases: &[] },
        Codepoint { codepoint: 0x114D, name: "HANGUL CHOSEONG CIEUC-IEUNG", aliases: &[] },
        Codepoint { codepoint: 0x114E, name: "HANGUL CHOSEONG CHITUEUMCIEUC", aliases: &[] },
        Codepoint { codepoint: 0x114F, name: "HANGUL CHOSEONG CHITUEUMSSANGCIEUC", aliases: &[] },
        Codepoint { codepoint: 0x1150, name: "HANGUL CHOSEONG CEONGCHIEUMCIEUC", aliases: &[] },
        Codepoint { codepoint: 0x1151, name: "HANGUL CHOSEONG CEONGCHIEUMSSANGCIEUC", aliases: &[] },
        Codepoint { codepoint: 0x1152, name: "HANGUL CHOSEONG CHIEUCH-KHIEUKH", aliases: &[] },
        Codepoint { codepoint: 0x1153, name: "HANGUL CHOSEONG CHIEUCH-HIEUH", aliases: &[] },
        Codepoint { codepoint: 0x1154, name: "HANGUL CHOSEONG CHITUEUMCHIEUCH", aliases: &[] },
        Codepoint { codepoint: 0x1155, name: "HANGUL CHOSEONG CEONGCHIEUMCHIEUCH", aliases: &[] },
        Codepoint { codepoint: 0x1156, name: "HANGUL CHOSEONG PHIEUPH-PIEUP", aliases: &[] },
        Codepoint { codepoint: 0x1157, name: "HANGUL CHOSEONG KAPYEOUNPHIEUPH", aliases: &[] },
        Codepoint { codepoint: 0x1158, name: "HANGUL CHOSEONG SSANGHIEUH", aliases: &[] },
        Codepoint { codepoint: 0x1159, name: "HANGUL CHOSEONG YEORINHIEUH", aliases: &[] },
        Codepoint { codepoint: 0x115A, name: "HANGUL CHOSEONG KIYEOK-TIKEUT", aliases: &[] },
        Codepoint { codepoint: 0x115B, name: "HANGUL CHOSEONG NIEUN-SIOS", aliases: &[] },
        Codepoint { codepoint: 0x115C, name: "HANGUL CHOSEONG NIEUN-CIEUC", aliases: &[] },
        Codepoint { codepoint: 0x115D, name: "HANGUL CHOSEONG NIEUN-HIEUH", aliases: &[] },
        Codepoint { codepoint: 0x115E, name: "HANGUL CHOSEONG TIKEUT-RIEUL", aliases: &[] },
        Codepoint { codepoint: 0x115F, name: "HANGUL CHOSEONG FILLER", aliases: &[] },
        Codepoint { codepoint: 0x1160, name: "HANGUL JUNGSEONG FILLER", aliases: &[] },
        Codepoint { codepoint: 0x1161, name: "HANGUL JUNGSEONG A", aliases: &[] },
        Codepoint { codepoint: 0x1162, name: "HANGUL JUNGSEONG AE", aliases: &[] },
        Codepoint { codepoint: 0x1163, name: "HANGUL JUNGSEONG YA", aliases: &[] },
        Codepoint { codepoint: 0x1164, name: "HANGUL JUNGSEONG YAE", aliases: &[] },
        Codepoint { codepoint: 0x1165, name: "HANGUL JUNGSEONG EO", aliases: &[] },
        Codepoint { codepoint: 0x1166, name: "HANGUL JUNGSEONG E", aliases: &[] },
        Codepoint { codepoint: 0x1167, name: "HANGUL JUNGSEONG YEO", aliases: &[] },
        Codepoint { codepoint: 0x1168, name: "HANGUL JUNGSEONG YE", aliases: &[] },
        Codepoint { codepoint: 0x1169, name: "HANGUL JUNGSEONG O", aliases: &[] },
    ];
    assert(v@ =~= codepoint_table_97());
    v
}

pub open spec fn codepoint_table_98() -> Seq<Codepoint> {
    seq![
        Codepoint { codepoint: 0x116A, name: "HANGUL JUNGSEONG WA", aliases: &[] },
        Codepoint { codepoint: 0x116B, name: "HANGUL JUNGSEONG WAE", aliases: &[] },
        Codepoint { codepoint: 0x116C, name: "HANGUL JUNGSEONG OE", aliases: &[] },
        Codepoint { codepoint: 0x116D, name: "HANGUL JUNGSEONG YO", aliases: &[] },
        Codepoint { codepoint: 0x116E, name: "HANGUL JUNGSEONG U", aliases: &[] },
        Codepoint { codepoint: 0x116F, name: "HANGUL JUNGSEONG WEO", aliases: &[] },
        Codepoint { codepoint: 0x1170, name: "HANGUL JUNGSEONG WE", aliases: &[] },
        Codepoint { codepoint: 0x1171, name: "HANGUL JUNGSEONG WI", aliases: &[] },
        Codepoint { codepoint: 0x1172, name: "HANGUL JUNGSEONG YU", aliases: &[] },
        Codepoint { codepoint: 0x1173, name: "HANGUL JUNGSEONG EU", aliases: &[] },
        Codepoint { codepoint: 0x1174, name: "HANGUL JUNGSEONG YI", aliases: &[] },
        Codepoint { codepoint: 0x1175, name: "HANGUL JUNGSEONG I", aliases: &[] },
        Codepoint { codepoint: 0x1176, name: "HANGUL JUNGSEONG A-O", aliases: &[] },
        Codepoint { codepoint: 0x1177, name: "HANGUL JUNGSEONG A-U", aliases: &[] },
        Codepoint { codepoint: 0x1178, name: "HANGUL JUNGSEONG YA-O", aliases: &[] },
        Codepoint { codepoint: 0x1179, name: "HANGUL JUNGSEONG YA-YO", aliases: &[] },
        Codepoint { codepoint: 0x117A, name: "HANGUL JUNGSEONG EO-O", aliases: &[] },
        Codepoint { codepoint: 0x117B, name: "HANGUL JUNGSEONG EO-U", aliases: &[] },
        Codepoint { codepoint: 0x117C, name: "HANGUL JUNGSEONG EO-EU", aliases: &[] },
        Codepoint { codepoint: 0x117D, name: "HANGUL JUNGSEONG YEO-O", aliases: &[] },
        Codepoint { codepoint: 0x117E, name: "HANGUL JUNGSEONG YEO-U", aliases: &[] },
        Codepoint { codepoint: 0x117F, name: "HANGUL JUNGSEONG O-EO", aliases: &[] },
        Codepoint { codepoint: 0x1180, name: "HANGUL JUNGSEONG O-E", aliases: &[] },
        Codepoint { codepoint: 0x1181, name: "HANGUL JUNGSEONG O-YE", aliases: &[] },
        Codepoint { codepoint: 0x1182, name: "HANGUL JUNGSEONG O-O", aliases: &[] },
        Codepoint { codepoint: 0x1183, name: "HANGUL JUNGSEONG O-U", aliases: &[] },
        Codepoint { codepoint: 0x1184, name: "HANGUL JUNGSEONG YO-YA", aliases: &[] },
        Codepoint { codepoint: 0x1185, name: "HANGUL JUNGSEONG YO-YAE", aliases: &[] },
        Codepoint { codepoint: 0x1186, name: "HANGUL JUNGSEONG YO-YEO", aliases: &[] },
        Codepoint { codepoint: 0x1187, name: "HANGUL JUNGSEONG YO-O", aliases: &[] },
        Codepoint { codepoint: 0x1188, name: "HANGUL JUNGSEONG YO-I", aliases: &[] },
        Codepoint { codepoint: 0x1189, name: "HANGUL JUNGSEONG U-A", aliases: &[] },
        Codepoint { codepoint: 0x118A, name: "HANGUL JUNGSEONG U-AE", aliases: &[] },
        Codepoint { codepoint: 0x118B, name: "HANGUL JUNGSEONG U-EO-EU", aliases: &[] },
        Codepoint { codepoint: 0x118C, name: "HANGUL JUNGSEONG U-YE", aliases: &[] },
        Codepoint { codepoint: 0x118D, name: "HANGUL JUNGSEONG U-U", aliases: &[] },
        Codepoint { codepoint: 0x118E, name: "HANGUL JUNGSEONG YU-A", aliases: &[] },
        Codepoint { codepoint: 0x118F, name: "HANGUL JUNGSEONG YU-EO", aliases: &[] },
        Codepoint { codepoint: 0x1190, name: "HANGUL JUNGSEONG YU-E", aliases: &[] },
        Codepoint { codepoint: 0x1191, name: "HANGUL JUNGSEONG YU-YEO", aliases: &[] },
    ]
}

fn all_codepoints_98() -> (v: Vec<Codepoint>)
    ensures
        v@ == codepoint_table_98(),
{
    let v = vec![
        Codepoint { codepoint: 0x116A, name: "HANGUL JUNGSEONG WA", aliases: &[] },
        Codepoint { codepoint: 0x116B, name: "HANGUL JUNGSEONG WAE", aliases: &[] },
        Codepoint { codepoint: 0x116C, name: "HANGUL JUNGSEONG OE", aliases: &[] },
        Codepoint { codepoint: 0x116D, name: "HANGUL JUNGSEONG YO", aliases: &[] },
        Codepoint { codepoint: 0x116E, name: "HANGUL JUNGSEONG U", aliases: &[] },
        Codepoint { codepoint: 0x116F, name: "HANGUL JUNGSEONG WEO", aliases: &[] },
        Codepoint { codepoint: 0x1170, name: "HANGUL JUNGSEONG WE", aliases: &[] },
        Codepoint { codepoint: 0x1171, name: "HANGUL JUNGSEONG WI", aliases: &[] },
        Codepoint { codepoint: 0x1172, name: "HANGUL JUNGSEONG YU", aliases: &[] },
        Codepoint { codepoint: 0x1173, name: "HANGUL JUNGSEONG EU", aliases: &[] },
        Codepoint { codepoint: 0x1174, name: "HANGUL JUNGSEONG YI", aliases: &[] },
        Codepoint { codepoint: 0x1175, name: "HANGUL JUNGSEONG I", aliases: &[] },
        Codepoint { codepoint: 0x1176, name: "HANGUL JUNGSEONG A-O", aliases: &[] },
        Codepoint { codepoint: 0x1177, name: "HANGUL JUNGSEONG A-U", aliases: &[] },
        Codepoint { codepoint: 0x1178, name: "HANGUL JUNGSEONG YA-O", aliases: &[] },
        Codepoint { codepoint: 0x1179, name: "HANGUL JUNGSEONG YA-YO", aliases: &[] },
        Codepoint { codepoint: 0x117A, name: "HANGUL JUNGSEONG EO-O", aliases: &[] },
        Codepoint { codepoint: 0x117B, name: "HANGUL JUNGSEONG EO-U", aliases: &[] },
        Codepoint { codepoint: 0x117C, name: "HANGUL JUNGSEONG EO-EU", aliases: &[] },
        Codepoint { codepoint: 0x117D, name: "HANGUL JUNGSEONG YEO-O", aliases: &[] },
        Codepoint { codepoint: 0x117E, name: "HANGUL JUNGSEONG YEO-U", aliases: &[] },
        Codepoint { codepoint: 0x117F, name: "HANGUL JUNGSEONG O-EO", aliases: &[] },
        Codepoint { codepoint: 0x1180, name: "HANGUL JUNGSEONG O-E", aliases: &[] },
        Codepoint { codepoint: 0x1181, name: "HANGUL JUNGSEONG O-YE", aliases: &[] },
        Codepoint { codepoint: 0x1182, name: "HANGUL JUNGSEONG O-O", aliases: &[] },
        Codepoint { codepoint: 0x1183, name: "HANGUL JUNGSEONG O-U", aliases: &[] },
        Codepoint { codepoint: 0x1184, name: "HANGUL JUNGSEONG YO-YA", aliases: &[] },
        Codepoint { codepoint: 0x1185, name: "HANGUL JUNGSEONG YO-YAE", aliases: &[] },
        Codepoint { codepoint: 0x1186, name: "HANGUL JUNGSEONG YO-YEO", aliases: &[] },
        Codepoint { codepoint: 0x1187, name: "HANGUL JUNGSEONG YO-O", aliases: &[] },
        Codepoint { codepoint: 0x1188, name: "HANGUL JUNGSEONG YO-I", aliases: &[] },
        Codepoint { codepoint: 0x1189, name: "HANGUL JUNGSEONG U-A", aliases: &[] },
        Codepoint { codepoint: 0x118A, name: "HANGUL JUNGSEONG U-AE", aliases: &[] },
        Codepoint { codepoint: 0x118B, name: "HANGUL JUNGSEONG U-EO-EU", aliases: &[] },
        Codepoint { codepoint: 0x118C, name: "HANGUL JUNGSEONG U-YE", aliases: &[] },
        Codepoint { codepoint: 0x118D, name: "HANGUL JUNGSEONG U-U", aliases: &[] },
        Codepoint { codepoint: 0x118E, name: "HANGUL JUNGSEONG YU-A", aliases: &[] },
        Codepoint { codepoint: 0x118F, name: "HANGUL JUNGSEONG YU-EO", aliases: &[] },
        Codepoint { codepoint: 0x1190, name: "HANGUL JUNGSEONG YU-E", aliases: &[] },
        Codepoint { codepoint: 0x1191, name: "HANGUL JUNGSEONG YU-YEO", aliases: &[] },
    ];
    assert(v@ =~= codepoint_table_98());
    v
}

pub open spec fn codepoint_table_99() -> Seq<Codepoint> {
    seq![
        Codepoint { codepoint: 0x1192, name: "HANGUL JUNGSEONG YU-YE", aliases: &[] },
        Codepoint { codepoint: 0x1193, name: "HANGUL JUNGSEONG YU-U", aliases: &[] },
        Codepoint { codepoint: 0x1194, name: "HANGUL JUNGSEONG YU-I", aliases: &[] },
        Codepoint { codepoint: 0x1195, name: "HANGUL JUNGSEONG EU-U", aliases: &[] },
        Codepoint { codepoint: 0x1196, name: "HANGUL JUNGSEONG EU-EU", aliases: &[] },
        Codepoint { codepoint: 0x1197, name: "HANGUL JUNGSEONG YI-U", aliases: &[] },
        Codepoint { codepoint: 0x1198, name: "HANGUL JUNGSEONG I-A", aliases: &[] },
        Codepoint { codepoint: 0x1199, name: "HANGUL JUNGSEONG I-YA", aliases: &[] },
        Codepoint { codepoint: 0x119A, name: "HANGUL JUNGSEONG I-O", aliases: &[] },
        Codepoint { codepoint: 0x119B, name: "HANGUL JUNGSEONG I-U", aliases: &[] },
        Codepoint { codepoint: 0x119C, name: "HANGUL JUNGSEONG I-EU", aliases: &[] },
        Codepoint { codepoint: 0x119D, name: "HANGUL JUNGSEONG I-ARAEA", aliases: &[] },
        Codepoint { codepoint: 0x119E, name: "HANGUL JUNGSEONG ARAEA", aliases: &[] },
        Codepoint { codepoint: 0x119F, name: "HANGUL JUNGSEONG ARAEA-EO", aliases: &[] },
        Codepoint { codepoint: 0x11A0, name: "HANGUL JUNGSEONG ARAEA-U", aliases: &[] },
        Codepoint { codepoint: 0x11A1, name: "HANGUL JUNGSEONG ARAEA-I", aliases: &[] },
        Codepoint { codepoint: 0x11A2, name: "HANGUL JUNGSEONG SSANGARAEA", aliases: &[] },
        Codepoint { codepoint: 0x11A3, name: "HANGUL JUNGSEONG A-EU", aliases: &[] },
        Codepoint { codepoint: 0x11A4, name: "HANGUL JUNGSEONG YA-U", aliases: &[] },
        Codepoint { codepoint: 0x11A5, name: "HANGUL JUNGSEONG YEO-YA", aliases: &[] },
        Codepoint { codepoint: 0x11A6, name: "HANGUL JUNGSEONG O-YA", aliases: &[] },
        Codepoint { codepoint: 0x11A7, name: "HANGUL JUNGSEONG O-YAE", aliases: &[] },
        Codepoint { codepoint: 0x11A8, name: "HANGUL JONGSEONG KIYEOK", aliases: &[] },
        Codepoint { codepoint: 0x11A9, name: "HANGUL JONGSEONG SSANGKIYEOK", aliases: &[] },
        Codepoint { codepoint: 0x11AA, name: "HANGUL JONGSEONG KIYEOK-SIOS", aliases: &[] },
        Codepoint { codepoint: 0x11AB, name: "HANGUL JONGSEONG NIEUN", aliases: &[] },
        Codepoint { codepoint: 0x11AC, name: "HANGUL JONGSEONG NIEUN-CIEUC", aliases: &[] },
        Codepoint { codepoint: 0x11AD, name: "HANGUL JONGSEONG NIEUN-HIEUH", aliases: &[] },
        Codepoint { codepoint: 0x11AE, name: "HANGUL JONGSEONG TIKEUT", aliases: &[] },
        Codepoint { codepoint: 0x11AF, name: "HANGUL JONGSEONG RIEUL", aliases: &[] },
        Codepoint { codepoint: 0x11B0, name: "HANGUL JONGSEONG RIEUL-KIYEOK", aliases: &[] },
        Codepoint { codepoint: 0x11B1, name: "HANGUL JONGSEONG RIEUL-MIEUM", aliases: &[] },
        Codepoint { codepoint: 0x11B2, name: "HANGUL JONGSEONG RIEUL-PIEUP", aliases: &[] },
        Codepoint { codepoint: 0x11B3, name: "HANGUL JONGSEONG RIEUL-SIOS", aliases: &[] },
        Codepoint { codepoint: 0x11B4, name: "HANGUL JONGSEONG RIEUL-THIEUTH", aliases: &[] },
        Codepoint { codepoint: 0x11B5, name: "HANGUL JONGSEONG RIEUL-PHIEUPH", aliases: &[] },
        Codepoint { codepoint: 0x11B6, name: "HANGUL JONGSEONG RIEUL-HIEUH", aliases: &[] },
        Codepoint { codepoint: 0x11B7, name: "HANGUL JONGSEONG MIEUM", aliases: &[] },
        Codepoint { codepoint: 0x11B8, name: "HANGUL JONGSEONG PIEUP", aliases: &[] },
        Codepoint { codepoint: 0x11B9, name: "HANGUL JONGSEONG PIEUP-SIOS", aliases: &[] },
    ]
}

fn all_codepoints_99() -> (v: Vec<Codepoint>)
    ensures
        v@ == codepoint_table_99(),
{
    let v = vec![
        Codepoint { codepoint: 0x1192, name: "HANGUL JUNGSEONG YU-YE", aliases: &[] },
        Codepoint { codepoint: 0x1193, name: "HANGUL JUNGSEONG YU-U", aliases: &[] },
        Codepoint { codepoint: 0x1194, name: "HANGUL JUNGSEONG YU-I", aliases: &[] },
        Codepoint { codepoint: 0x1195, name: "HANGUL JUNGSEONG EU-U", aliases: &[] },
        Codepoint { codepoint: 0x1196, name: "HANGUL JUNGSEONG EU-EU", aliases: &[] },
        Codepoint { codepoint: 0x1197, name: "HANGUL JUNGSEONG YI-U", aliases: &[] },
        Codepoint { codepoint: 0x1198, name: "HANGUL JUNGSEONG I-A", aliases: &[] },
        Codepoint { codepoint: 0x1199, name: "HANGUL JUNGSEONG I-YA", aliases: &[] },
        Codepoint { codepoint: 0x119A, name: "HANGUL JUNGSEONG I-O", aliases: &[] },
        Codepoint { codepoint: 0x119B, name: "HANGUL JUNGSEONG I-U", aliases: &[] },
        Codepoint { codepoint: 0x119C, name: "HANGUL JUNGSEONG I-EU", aliases: &[] },
        Codepoint { codepoint: 0x119D, name: "HANGUL JUNGSEONG I-ARAEA", aliases: &[] },
        Codepoint { codepoint: 0x119E, name: "HANGUL JUNGSEONG ARAEA", aliases: &[] },
        Codepoint { codepoint: 0x119F, name: "HANGUL JUNGSEONG ARAEA-EO", aliases: &[] },
        Codepoint { codepoint: 0x11A0, name: "HANGUL JUNGSEONG ARAEA-U", aliases: &[] },
        Codepoint { codepoint: 0x11A1, name: "HANGUL JUNGSEONG ARAEA-I", aliases: &[] },
        Codepoint { codepoint: 0x11A2, name: "HANGUL JUNGSEONG SSANGARAEA", aliases: &[] },
        Codepoint { codepoint: 0x11A3, name: "HANGUL JUNGSEONG A-EU", aliases: &[] },
        Codepoint { codepoint: 0x11A4, name: "HANGUL JUNGSEONG YA-U", aliases: &[] },
        Codepoint { codepoint: 0x11A5, name: "HANGUL JUNGSEONG YEO-YA", aliases: &[] },
        Codepoint { codepoint: 0x11A6, name: "HANGUL JUNGSEONG O-YA", aliases: &[] },
        Codepoint { codepoint: 0x11A7, name: "HANGUL JUNGSEONG O-YAE", aliases: &[] },
        Codepoint { codepoint: 0x11A8, name: "HANGUL JONGSEONG KIYEOK", aliases: &[] },
        Codepoint { codepoint: 0x11A9, name: "HANGUL JONGSEONG SSANGKIYEOK", aliases: &[] },
        Codepoint { codepoint: 0x11AA, name: "HANGUL JONGSEONG KIYEOK-SIOS", aliases: &[] },
        Codepoint { codepoint: 0x11AB, name: "HANGUL JONGSEONG NIEUN", aliases: &[] },
        Codepoint { codepoint: 0x11AC, name: "HANGUL JONGSEONG NIEUN-CIEUC", aliases: &[] },
        Codepoint { codepoint: 0x11AD, name: "HANGUL JONGSEONG NIEUN-HIEUH", aliases: &[] },
        Codepoint { codepoint: 0x11AE, name: "HANGUL JONGSEONG TIKEUT", aliases: &[] },
        Codepoint { codepoint: 0x11AF, name: "HANGUL JONGSEONG RIEUL", aliases: &[] },
        Codepoint { codepoint: 0x11B0, name: "HANGUL JONGSEONG RIEUL-KIYEOK", aliases: &[] },
        Codepoint { codepoint: 0x11B1, name: "HANGUL JONGSEONG RIEUL-MIEUM", aliases: &[] },
        Codepoint { codepoint: 0x11B2, name: "HANGUL JONGSEONG RIEUL-PIEUP", aliases: &[] },
        Codepoint { codepoint: 0x11B3, name: "HANGUL JONGSEONG RIEUL-SIOS", aliases: &[] },
        Codepoint { codepoint: 0x11B4, name: "HANGUL JONGSEONG RIEUL-THIEUTH", aliases: &[] },
        Codepoint { codepoint: 0x11B5, name: "HANGUL JONGSEONG RIEUL-PHIEUPH", aliases: &[] },
        Codepoint { codepoint: 0x11B6, name: "HANGUL JONGSEONG RIEUL-HIEUH", aliases: &[] },
        Codepoint { codepoint: 0x11B7, name: "HANGUL JONGSEONG MIEUM", aliases: &[] },
        Codepoint { codepoint: 0x11B8, name: "HANGUL JONGSEONG PIEUP", aliases: &[] },
        Codepoint { codepoint: 0x11B9, name: "HANGUL JONGSEONG PIEUP-SIOS", aliases: &[] },
    ];
    assert(v@ =~= codepoint_table_99());
    v
}

/// The entries from position 3200 of the table, 800 at most.
pub open spec fn codepoint_group_4() -> Seq<Codepoint> {
    codepoint_table_80() + codepoint_table_81() + codepoint_table_82() + codepoint_table_83() + codepoint_table_84() + codepoint_table_85() + codepoint_table_86() + codepoint_table_87() + codepoint_table_88() + codepoint_table_89() + codepoint_table_90() + codepoint_table_91() + codepoint_table_92() + codepoint_table_93() + codepoint_table_94() + codepoint_table_95() + codepoint_table_96() + codepoint_table_97() + codepoint_table_98() + codepoint_table_99()
}

pub fn all_codepoints_group_4() -> (v: Vec<Codepoint>)
    ensures
        v@ == codepoint_group_4(),
{
    let mut v = all_codepoints_80();
    let mut part = all_codepoints_81();
    v.append(&mut part);
    let mut part = all_codepoints_82();
    v.append(&mut part);
    let mut part = all_codepoints_83();
    v.append(&mut part);
    let mut part = all_codepoints_84();
    v.append(&mut part);
    let mut part = all_codepoints_85();
    v.append(&mut part);
    let mut part = all_codepoints_86();
    v.append(&mut part);
    let mut part = all_codepoints_87();
    v.append(&mut part);
    let mut part = all_codepoints_88();
    v.append(&mut part);
    let mut part = all_codepoints_89();
    v.append(&mut part);
    let mut part = all_codepoints_90();
    v.append(&mut part);
    let mut part = all_codepoints_91();
    v.append(&mut part);
    let mut part = all_codepoints_92();
    v.append(&mut part);
    let mut part = all_codepoints_93();
    v.append(&mut part);
    let mut part = all_codepoints_94();
    v.append(&mut part);
    let mut part = all_codepoints_95();
    v.append(&mut part);
    let mut part = all_codepoints_96();
    v.append(&mut part);
    let mut part = all_codepoints_97();
    v.append(&mut part);
    let mut part = all_codepoints_98();
    v.append(&mut part);
    let mut part = all_codepoints_99();
    v.append(&mut part);
    v
}

pub open spec fn codepoint_table_100() -> Seq<Codepoint> {
    seq![
        Codepoint { codepoint: 0x11BA, name: "HANGUL JONGSEONG SIOS", aliases: &[] },
        Codepoint { codepoint: 0x11BB, name: "HANGUL JONGSEONG SSANGSIOS", aliases: &[] },
        Codepoint { codepoint: 0x11BC, name: "HANGUL JONGSEONG IEUNG", aliases: &[] },
        Codepoint { codepoint: 0x11BD, name: "HANGUL JONGSEONG CIEUC", aliases: &[] },
        Codepoint { codepoint: 0x11BE, name: "HANGUL JONGSEONG CHIEUCH", aliases: &[] },
        Codepoint { codepoint: 0x11BF, name: "HANGUL JONGSEONG KHIEUKH", aliases: &[] },
        Codepoint { codepoint: 0x11C0, name: "HANGUL JONGSEONG THIEUTH", aliases: &[] },
        Codepoint { codepoint: 0x11C1, name: "HANGUL JONGSEONG PHIEUPH", aliases: &[] },
        Codepoint { codepoint: 0x11C2, name: "HANGUL JONGSEONG HIEUH", aliases: &[] },
        Codepoint { codepoint: 0x11C3, name: "HANGUL JONGSEONG KIYEOK-RIEUL", aliases: &[] },
        Codepoint { codepoint: 0x11C4, name: "HANGUL JONGSEONG KIYEOK-SIOS-KIYEOK", aliases: &[] },
        Codepoint { codepoint: 0x11C5, name: "HANGUL JONGSEONG NIEUN-KIYEOK", aliases: &[] },
        Codepoint { codepoint: 0x11C6, name: "HANGUL JONGSEONG NIEUN-TIKEUT", aliases: &[] },
        Codepoint { codepoint: 0x11C7, name: "HANGUL JONGSEONG NIEUN-SIOS", aliases: &[] },
        Codepoint { codepoint: 0x11C8, name: "HANGUL JONGSEONG NIEUN-PANSIOS", aliases: &[] },
        Codepoint { codepoint: 0x11C9, name: "HANGUL JONGSEONG NIEUN-THIEUTH", aliases: &[] },
        Codepoint { codepoint: 0x11CA, name: "HANGUL JONGSEONG TIKEUT-KIYEOK", aliases: &[] },
        Codepoint { codepoint: 0x11CB, name: "HANGUL JONGSEONG TIKEUT-RIEUL", aliases: &[] },
        Codepoint { codepoint: 0x11CC, name: "HANGUL JONGSEONG RIEUL-KIYEOK-SIOS", aliases: &[] },
        Codepoint { codepoint: 0x11CD, name: "HANGUL JONGSEONG RIEUL-NIEUN", aliases: &[] },
        Codepoint { codepoint: 0x11CE, name: "HANGUL JONGSEONG RIEUL-TIKEUT", aliases: &[] },
        Codepoint { codepoint: 0x11CF, name: "HANGUL JONGSEONG RIEUL-TIKEUT-HIEUH", aliases: &[] },
        Codepoint { codepoint: 0x11D0, name: "HANGUL JONGSEONG SSANGRIEUL", aliases: &[] },
        Codepoint { codepoint: 0x11D1, name: "HANGUL JONGSEONG RIEUL-MIEUM-KIYEOK", aliases: &[] },
        Codepoint { codepoint: 0x11D2, name: "HANGUL JONGSEONG RIEUL-MIEUM-SIOS", aliases: &[] },
        Codepoint { codepoint: 0x11D3, name: "HANGUL JONGSEONG RIEUL-PIEUP-SIOS", aliases: &[] },
        Codepoint { codepoint: 0x11D4, name: "HANGUL JONGSEONG RIEUL-PIEUP-HIEUH", aliases: &[] },
        Codepoint { codepoint: 0x11D5, name: "HANGUL JONGSEONG RIEUL-KAPYEOUNPIEUP", aliases: &[] },
        Codepoint { codepoint: 0x11D6, name: "HANGUL JONGSEONG RIEUL-SSANGSIOS", aliases: &[] },
        Codepoint { codepoint: 0x11D7, name: "HANGUL JONGSEONG RIEUL-PANSIOS", aliases: &[] },
        Codepoint { codepoint: 0x11D8, name: "HANGUL JONGSEONG RIEUL-KHIEUKH", aliases: &[] },
        Codepoint { codepoint: 0x11D9, name: "HANGUL JONGSEONG RIEUL-YEORINHIEUH", aliases: &[] },
        Codepoint { codepoint: 0x11DA, name: "HANGUL JONGSEONG MIEUM-KIYEOK", aliases: &[] },
        Codepoint { codepoint: 0x11DB, name: "HANGUL JONGSEONG MIEUM-RIEUL", aliases: &[] },
        Codepoint { codepoint: 0x11DC, name: "HANGUL JONGSEONG MIEUM-PIEUP", aliases: &[] },
        Codepoint { codepoint: 0x11DD, name: "HANGUL JONGSEONG MIEUM-SIOS", aliases: &[] },
        Codepoint { codepoint: 0x11DE, name: "HANGUL JONGSEONG MIEUM-SSANGSIOS", aliases: &[] },
        Codepoint { codepoint: 0x11DF, name: "HANGUL JONGSEONG MIEUM-PANSIOS", aliases: &[] },
        Codepoint { codepoint: 0x11E0, name: "HANGUL JONGSEONG MIEUM-CHIEUCH", aliases: &[] },
        Codepoint { codepoint: 0x11E1, name: "HANGUL JONGSEONG MIEUM-HIEUH", aliases: &[] },
    ]
}

fn all_codepoints_100() -> (v: Vec<Codepoint>)
    ensures
        v@ == codepoint_table_100(),
{
    let v = vec![
        Codepoint { codepoint: 0x11BA, name: "HANGUL JONGSEONG SIOS", aliases: &[] },
        Codepoint { codepoint: 0x11BB, name: "HANGUL JONGSEONG SSANGSIOS", aliases: &[] },
        Codepoint { codepoint: 0x11BC, name: "HANGUL JONGSEONG IEUNG", aliases: &[] },
        Codepoint { codepoint: 0x11BD, name: "HANGUL JONGSEONG CIEUC", aliases: &[] },
        Codepoint { codepoint: 0x11BE, name: "HANGUL JONGSEONG CHIEUCH", aliases: &[] },
        Codepoint { codepoint: 0x11BF, name: "HANGUL JONGSEONG KHIEUKH", aliases: &[] },
        Codepoint { codepoint: 0x11C0, name: "HANGUL JONGSEONG THIEUTH", aliases: &[] },
        Codepoint { codepoint: 0x11C1, name: "HANGUL JONGSEONG PHIEUPH", aliases: &[] },
        Codepoint { codepoint: 0x11C2, name: "HANGUL JONGSEONG HIEUH", aliases: &[] },
        Codepoint { codepoint: 0x11C3, name: "HANGUL JONGSEONG KIYEOK-RIEUL", aliases: &[] },
        Codepoint { codepoint: 0x11C4, name: "HANGUL JONGSEONG KIYEOK-SIOS-KIYEOK", aliases: &[] },
        Codepoint { codepoint: 0x11C5, name: "HANGUL JONGSEONG NIEUN-KIYEOK", aliases: &[] },
        Codepoint { codepoint: 0x11C6, name: "HANGUL JONGSEONG NIEUN-TIKEUT", aliases: &[] },
        Codepoint { codepoint: 0x11C7, name: "HANGUL JONGSEONG NIEUN-SIOS", aliases: &[] },
        Codepoint { codepoint: 0x11C8, name: "HANGUL JONGSEONG NIEUN-PANSIOS", aliases: &[] },
        Codepoint { codepoint: 0x11C9, name: "HANGUL JONGSEONG NIEUN-THIEUTH", aliases: &[] },
        Codepoint { codepoint: 0x11CA, name: "HANGUL JONGSEONG TIKEUT-KIYEOK", aliases: &[] },
        Codepoint { codepoint: 0x11CB, name: "HANGUL JONGSEONG TIKEUT-RIEUL", aliases: &[] },
        Codepoint { codepoint: 0x11CC, name: "HANGUL JONGSEONG RIEUL-KIYEOK-SIOS", aliases: &[] },
        Codepoint { codepoint: 0x11CD, name: "HANGUL JONGSEONG RIEUL-NIEUN", aliases: &[] },
        Codepoint { codepoint: 0x11CE, name: "HANGUL JONGSEONG RIEUL-TIKEUT", aliases: &[] },
        Codepoint { codepoint: 0x11CF, name: "HANGUL JONGSEONG RIEUL-TIKEUT-HIEUH", aliases: &[] },
        Codepoint { codepoint: 0x11D0, name: "HANGUL JONGSEONG SSANGRIEUL", aliases: &[] },
        Codepoint { codepoint: 0x11D1, name: "HANGUL JONGSEONG RIEUL-MIEUM-KIYEOK", aliases: &[] },
        Codepoint { codepoint: 0x11D2, name: "HANGUL JONGSEONG RIEUL-MIEUM-SIOS", aliases: &[] },
        Codepoint { codepoint: 0x11D3, name: "HANGUL JONGSEONG RIEUL-PIEUP-SIOS", aliases: &[] },
        Codepoint { codepoint: 0x11D4, name: "HANGUL JONGSEONG RIEUL-PIEUP-HIEUH", aliases: &[] },
        Codepoint { codepoint: 0x11D5, name: "HANGUL JONGSEONG RIEUL-KAPYEOUNPIEUP", aliases: &[] },
        Codepoint { codepoint: 0x11D6, name: "HANGUL JONGSEONG RIEUL-SSANGSIOS", aliases: &[] },
        Codepoint { codepoint: 0x11D7, name: "HANGUL JONGSEONG RIEUL-PANSIOS", aliases: &[] },
        Codepoint { codepoint: 0x11D8, name: "HANGUL JONGSEONG RIEUL-KHIEUKH", aliases: &[] },
        Codepoint { codepoint: 0x11D9, name: "HANGUL JONGSEONG RIEUL-YEORINHIEUH", aliases: &[] },
        Codepoint { codepoint: 0x11DA, name: "HANGUL JONGSEONG MIEUM-KIYEOK", aliases: &[] },
        Codepoint { codepoint: 0x11DB, name: "HANGUL JONGSEONG MIEUM-RIEUL", aliases: &[] },
        Codepoint { codepoint: 0x11DC, name: "HANGUL JONGSEONG MIEUM-PIEUP", aliases: &[] },
        Codepoint { codepoint: 0x11DD, name: "HANGUL JONGSEONG MIEUM-SIOS", aliases: &[] },
        Codepoint { codepoint: 0x11DE, name: "HANGUL JONGSEONG MIEUM-SSANGSIOS", aliases: &[] },
        Codepoint { codepoint: 0x11DF, name: "HANGUL JONGSEONG MIEUM-PANSIOS", aliases: &[] },
        Codepoint { codepoint: 0x11E0, name: "HANGUL JONGSEONG MIEUM-CHIEUCH", aliases: &[] },
        Codepoint { codepoint: 0x11E1, name: "HANGUL JONGSEONG MIEUM-HIEUH", aliases: &[] },
    ];
    assert(v@ =~= codepoint_table_100());
    v
}

pub open spec fn codepoint_table_101() -> Seq<Codepoint> {
    seq![
        Codepoint { codepoint: 0x11E2, name: "HANGUL JONGSEONG KAPYEOUNMIEUM", aliases: &[] },
        Codepoint { codepoint: 0x11E3, name: "HANGUL JONGSEONG PIEUP-RIEUL", aliases: &[] },
        Codepoint { codepoint: 0x11E4, name: "HANGUL JONGSEONG PIEUP-PHIEUPH", aliases: &[] },
        Codepoint { codepoint: 0x11E5, name: "HANGUL JONGSEONG PIEUP-HIEUH", aliases: &[] },
        Codepoint { codepoint: 0x11E6, name: "HANGUL JONGSEONG KAPYEOUNPIEUP", aliases: &[] },
        Codepoint { codepoint: 0x11E7, name: "HANGUL JONGSEONG SIOS-KIYEOK", aliases: &[] },
        Codepoint { codepoint: 0x11E8, name: "HANGUL JONGSEONG SIOS-TIKEUT", aliases: &[] },
        Codepoint { codepoint: 0x11E9, name: "HANGUL JONGSEONG SIOS-RIEUL", aliases: &[] },
        Codepoint { codepoint: 0x11EA, name: "HANGUL JONGSEONG SIOS-PIEUP", aliases: &[] },
        Codepoint { codepoint: 0x11EB, name: "HANGUL JONGSEONG PANSIOS", aliases: &[] },
        Codepoint { codepoint: 0x11EC, name: "HANGUL JONGSEONG IEUNG-KIYEOK", aliases: &[] },
        Codepoint { codepoint: 0x11ED, name: "HANGUL JONGSEONG IEUNG-SSANGKIYEOK", aliases: &[] },
        Codepoint { codepoint: 0x11EE, name: "HANGUL JONGSEONG SSANGIEUNG", aliases: &[] },
        Codepoint { codepoint: 0x11EF, name: "HANGUL JONGSEONG IEUNG-KHIEUKH", aliases: &[] },
        Codepoint { codepoint: 0x11F0, name: "HANGUL JONGSEONG YESIEUNG", aliases: &[] },
        Codepoint { codepoint: 0x11F1, name: "HANGUL JONGSEONG YESIEUNG-SIOS", aliases: &[] },
        Codepoint { codepoint: 0x11F2, name: "HANGUL JONGSEONG YESIEUNG-PANSIOS", aliases: &[] },
        Codepoint { codepoint: 0x11F3, name: "HANGUL JONGSEONG PHIEUPH-PIEUP", aliases: &[] },
        Codepoint { codepoint: 0x11F4, name: "HANGUL JONGSEONG KAPYEOUNPHIEUPH", aliases: &[] },
        Codepoint { codepoint: 0x11F5, name: "HANGUL JONGSEONG HIEUH-NIEUN", aliases: &[] },
        Codepoint { codepoint: 0x11F6, name: "HANGUL JONGSEONG HIEUH-RIEUL", aliases: &[] },
        Codepoint { codepoint: 0x11F7, name: "HANGUL JONGSEONG HIEUH-MIEUM", aliases: &[] },
        Codepoint { codepoint: 0x11F8, name: "HANGUL JONGSEONG HIEUH-PIEUP", aliases: &[] },
        Codepoint { codepoint: 0x11F9, name: "HANGUL JONGSEONG YEORINHIEUH", aliases: &[] },
        Codepoint { codepoint: 0x11FA, name: "HANGUL JONGSEONG KIYEOK-NIEUN", aliases: &[] },
        Codepoint { codepoint: 0x11FB, name: "HANGUL JONGSEONG KIYEOK-PIEUP", aliases: &[] },
        Codepoint { codepoint: 0x11FC, name: "HANGUL JONGSEONG KIYEOK-CHIEUCH", aliases: &[] },
        Codepoint { codepoint: 0x11FD, name: "HANGUL JONGSEONG KIYEOK-KHIEUKH", aliases: &[] },
        Codepoint { codepoint: 0x11FE, name: "HANGUL JONGSEONG KIYEOK-HIEUH", aliases: &[] },
        Codepoint { codepoint: 0x11FF, name: "HANGUL JONGSEONG SSANGNIEUN", aliases: &[] },
        Codepoint { codepoint: 0x1200, name: "ETHIOPIC SYLLABLE HA", aliases: &[] },
        Codepoint { codepoint: 0x1201, name: "ETHIOPIC SYLLABLE HU", aliases: &[] },
        Codepoint { codepoint: 0x1202, name: "ETHIOPIC SYLLABLE HI", aliases: &[] },
        Codepoint { codepoint: 0x1203, name: "ETHIOPIC SYLLABLE HAA", aliases: &[] },
        Codepoint { codepoint: 0x1204, name: "ETHIOPIC SYLLABLE HEE", aliases: &[] },
        Codepoint { codepoint: 0x1205, name: "ETHIOPIC SYLLABLE HE", aliases: &[] },
        Codepoint { codepoint: 0x1206, name: "ETHIOPIC SYLLABLE HO", aliases: &[] },
        Codepoint { codepoint: 0x1207, name: "ETHIOPIC SYLLABLE HOA", aliases: &[] },
        Codepoint { codepoint: 0x1208, name: "ETHIOPIC SYLLABLE LA", aliases: &[] },
        Codepoint { codepoint: 0x1209, name: "ETHIOPIC SYLLABLE LU", aliases: &[] },
    ]
}

fn all_codepoints_101() -> (v: Vec<Codepoint>)
    ensures
        v@ == codepoint_table_101(),
{
    let v = vec![
        Codepoint { codepoint: 0x11E2, name: "HANGUL JONGSEONG KAPYEOUNMIEUM", aliases: &[] },
        Codepoint { codepoint: 0x11E3, name: "HANGUL JONGSEONG PIEUP-RIEUL", aliases: &[] },
        Codepoint { codepoint: 0x11E4, name: "HANGUL JONGSEONG PIEUP-PHIEUPH", aliases: &[] },
        Codepoint { codepoint: 0x11E5, name: "HANGUL JONGSEONG PIEUP-HIEUH", aliases: &[] },
        Codepoint { codepoint: 0x11E6, name: "HANGUL JONGSEONG KAPYEOUNPIEUP", aliases: &[] },
        Codepoint { codepoint: 0x11E7, name: "HANGUL JONGSEONG SIOS-KIYEOK", aliases: &[] },
        Codepoint { codepoint: 0x11E8, name: "HANGUL JONGSEONG SIOS-TIKEUT", aliases: &[] },
        Codepoint { codepoint: 0x11E9, name: "HANGUL JONGSEONG SIOS-RIEUL", aliases: &[] },
        Codepoint { codepoint: 0x11EA, name: "HANGUL JONGSEONG SIOS-PIEUP", aliases: &[] },
        Codepoint { codepoint: 0x11EB, name: "HANGUL JONGSEONG PANSIOS", aliases: &[] },
        Codepoint { codepoint: 0x11EC, name: "HANGUL JONGSEONG IEUNG-KIYEOK", aliases: &[] },
        Codepoint { codepoint: 0x11ED, name: "HANGUL JONGSEONG IEUNG-SSANGKIYEOK", aliases: &[] },
        Codepoint { codepoint: 0x11EE, name: "HANGUL JONGSEONG SSANGIEUNG", aliases: &[] },
        Codepoint { codepoint: 0x11EF, name: "HANGUL JONGSEONG IEUNG-KHIEUKH", aliases: &[] },
        Codepoint { codepoint: 0x11F0, name: "HANGUL JONGSEONG YESIEUNG", aliases: &[] },
        Codepoint { codepoint: 0x11F1, name: "HANGUL JONGSEONG YESIEUNG-SIOS", aliases: &[] },
        Codepoint { codepoint: 0x11F2, name: "HANGUL JONGSEONG YESIEUNG-PANSIOS", aliases: &[] },
        Codepoint { codepoint: 0x11F3, name: "HANGUL JONGSEONG PHIEUPH-PIEUP", aliases: &[] },
        Codepoint { codepoint: 0x11F4, name: "HANGUL JONGSEONG KAPYEOUNPHIEUPH", aliases: &[] },
        Codepoint { codepoint: 0x11F5, name: "HANGUL JONGSEONG HIEUH-NIEUN", aliases: &[] },
        Codepoint { codepoint: 0x11F6, name: "HANGUL JONGSEONG HIEUH-RIEUL", aliases: &[] },
        Codepoint { codepoint: 0x11F7, name: "HANGUL JONGSEONG HIEUH-MIEUM", aliases: &[] },
        Codepoint { codepoint: 0x11F8, name: "HANGUL JONGSEONG HIEUH-PIEUP", aliases: &[] },
        Codepoint { codepoint: 0x11F9, name: "HANGUL JONGSEONG YEORINHIEUH", aliases: &[] },
        Codepoint { codepoint: 0x11FA, name: "HANGUL JONGSEONG KIYEOK-NIEUN", aliases: &[] },
        Codepoint { codepoint: 0x11FB, name: "HANGUL JONGSEONG KIYEOK-PIEUP", aliases: &[] },
        Codepoint { codepoint: 0x11FC, name: "HANGUL JONGSEONG KIYEOK-CHIEUCH", aliases: &[] },
        Codepoint { codepoint: 0x11FD, name: "HANGUL JONGSEONG KIYEOK-KHIEUKH", aliases: &[] },
        Codepoint { codepoint: 0x11FE, name: "HANGUL JONGSEONG KIYEOK-HIEUH", aliases: &[] },
        Codepoint { codepoint: 0x11FF, name: "HANGUL JONGSEONG SSANGNIEUN", aliases: &[] },
        Codepoint { codepoint: 0x1200, name: "ETHIOPIC SYLLABLE HA", aliases: &[] },
        Codepoint { codepoint: 0x1201, name: "ETHIOPIC SYLLABLE HU", aliases: &[] },
        Codepoint { codepoint: 0x1202, name: "ETHIOPIC SYLLABLE HI", aliases: &[] },
        Codepoint { codepoint: 0x1203, name: "ETHIOPIC SYLLABLE HAA", aliases: &[] },
        Codepoint { codepoint: 0x1204, name: "ETHIOPIC SYLLABLE HEE", aliases: &[] },
        Codepoint { codepoint: 0x1205, name: "ETHIOPIC SYLLABLE HE", aliases: &[] },
        Codepoint { codepoint: 0x1206, name: "ETHIOPIC SYLLABLE HO", aliases: &[] },
        Codepoint { codepoint: 0x1207, name: "ETHIOPIC SYLLABLE HOA", aliases: &[] },
        Codepoint { codepoint: 0x1208, name: "ETHIOPIC SYLLABLE LA", aliases: &[] },
        Codepoint { codepoint: 0x1209, name: "ETHIOPIC SYLLABLE LU", aliases: &[] },
    ];
    assert(v@ =~= codepoint_table_101());
    v
}

pub open spec fn codepoint_table_102() -> Seq<Codepoint> {
    seq![
        Codepoint { codepoint: 0x120A, name: "ETHIOPIC SYLLABLE LI", aliases: &[] },
        Codepoint { codepoint: 0x120B, name: "ETHIOPIC SYLLABLE LAA", aliases: &[] },
        Codepoint { codepoint: 0x120C, name: "ETHIOPIC SYLLABLE LEE", aliases: &[] },
        Codepoint { codepoint: 0x120D, name: "ETHIOPIC SYLLABLE LE", aliases: &[] },
        Codepoint { codepoint: 0x120E, name: "ETHIOPIC SYLLABLE LO", aliases: &[] },
        Codepoint { codepoint: 0x120F, name: "ETHIOPIC SYLLABLE LWA", aliases: &[] },
        Codepoint { codepoint: 0x1210, name: "ETHIOPIC SYLLABLE HHA", aliases: &[] },
        Codepoint { codepoint: 0x1211, name: "ETHIOPIC SYLLABLE HHU", aliases: &[] },
        Codepoint { codepoint: 0x1212, name: "ETHIOPIC SYLLABLE HHI", aliases: &[] },
        Codepoint { codepoint: 0x1213, name: "ETHIOPIC SYLLABLE HHAA", aliases: &[] },
        Codepoint { codepoint: 0x1214, name: "ETHIOPIC SYLLABLE HHEE", aliases: &[] },
        Codepoint { codepoint: 0x1215, name: "ETHIOPIC SYLLABLE HHE", aliases: &[] },
        Codepoint { codepoint: 0x1216, name: "ETHIOPIC SYLLABLE HHO", aliases: &[] },
        Codepoint { codepoint: 0x1217, name: "ETHIOPIC SYLLABLE HHWA", aliases: &[] },
        Codepoint { codepoint: 0x1218, name: "ETHIOPIC SYLLABLE MA", aliases: &[] },
        Codepoint { codepoint: 0x1219, name: "ETHIOPIC SYLLABLE MU", aliases: &[] },
        Codepoint { codepoint: 0x121A, name: "ETHIOPIC SYLLABLE MI", aliases: &[] },
        Codepoint { codepoint: 0x121B, name: "ETHIOPIC SYLLABLE MAA", aliases: &[] },
        Codepoint { codepoint: 0x121C, name: "ETHIOPIC SYLLABLE MEE", aliases: &[] },
        Codepoint { codepoint: 0x121D, name: "ETHIOPIC SYLLABLE ME", aliases: &[] },
        Codepoint { codepoint: 0x121E, name: "ETHIOPIC SYLLABLE MO", aliases: &[] },
        Codepoint { codepoint: 0x121F, name: "ETHIOPIC SYLLABLE MWA", aliases: &[] },
        Codepoint { codepoint: 0x1220, name: "ETHIOPIC SYLLABLE SZA", aliases: &[] },
        Codepoint { codepoint: 0x1221, name: "ETHIOPIC SYLLABLE SZU", aliases: &[] },
        Codepoint { codepoint: 0x1222, name: "ETHIOPIC SYLLABLE SZI", aliases: &[] },
        Codepoint { codepoint: 0x1223, name: "ETHIOPIC SYLLABLE SZAA", aliases: &[] },
        Codepoint { codepoint: 0x1224, name: "ETHIOPIC SYLLABLE SZEE", aliases: &[] },
        Codepoint { codepoint: 0x1225, name: "ETHIOPIC SYLLABLE SZE", aliases: &[] },
        Codepoint { codepoint: 0x1226, name: "ETHIOPIC SYLLABLE SZO", aliases: &[] },
        Codepoint { codepoint: 0x1227, name: "ETHIOPIC SYLLABLE SZWA", aliases: &[] },
        Codepoint { codepoint: 0x1228, name: "ETHIOPIC SYLLABLE RA", aliases: &[] },
        Codepoint { codepoint: 0x1229, name: "ETHIOPIC SYLLABLE RU", aliases: &[] },
        Codepoint { codepoint: 0x122A, name: "ETHIOPIC SYLLABLE RI", aliases: &[] },
        Codepoint { codepoint: 0x122B, name: "ETHIOPIC SYLLABLE RAA", aliases: &[] },
        Codepoint { codepoint: 0x122C, name: "ETHIOPIC SYLLABLE REE", aliases: &[] },
        Codepoint { codepoint: 0x122D, name: "ETHIOPIC SYLLABLE RE", aliases: &[] },
        Codepoint { codepoint: 0x122E, name: "ETHIOPIC SYLLABLE RO", aliases: &[] },
        Codepoint { codepoint: 0x122F, name: "ETHIOPIC SYLLABLE RWA", aliases: &[] },
        Codepoint { codepoint: 0x1230, name: "ETHIOPIC SYLLABLE SA", aliases: &[] },
        Codepoint { codepoint: 0x1231, name: "ETHIOPIC SYLLABLE SU", aliases: &[] },
    ]
}

fn all_codepoints_102() -> (v: Vec<Codepoint>)
    ensures
        v@ == codepoint_table_102(),
{
    let v = vec![
        Codepoint { codepoint: 0x120A, name: "ETHIOPIC SYLLABLE LI", aliases: &[] },
        Codepoint { codepoint: 0x120B, name: "ETHIOPIC SYLLABLE LAA", aliases: &[] },
        Codepoint { codepoint: 0x120C, name: "ETHIOPIC SYLLABLE LEE", aliases: &[] },
        Codepoint { codepoint: 0x120D, name: "ETHIOPIC SYLLABLE LE", aliases: &[] },
        Codepoint { codepoint: 0x120E, name: "ETHIOPIC SYLLABLE LO", aliases: &[] },
        Codepoint { codepoint: 0x120F, name: "ETHIOPIC SYLLABLE LWA", aliases: &[] },
        Codepoint { codepoint: 0x1210, name: "ETHIOPIC SYLLABLE HHA", aliases: &[] },
        Codepoint { codepoint: 0x1211, name: "ETHIOPIC SYLLABLE HHU", aliases: &[] },
        Codepoint { codepoint: 0x1212, name: "ETHIOPIC SYLLABLE HHI", aliases: &[] },
        Codepoint { codepoint: 0x1213, name: "ETHIOPIC SYLLABLE HHAA", aliases: &[] },
        Codepoint { codepoint: 0x1214, name: "ETHIOPIC SYLLABLE HHEE", aliases: &[] },
        Codepoint { codepoint: 0x1215, name: "ETHIOPIC SYLLABLE HHE", aliases: &[] },
        Codepoint { codepoint: 0x1216, name: "ETHIOPIC SYLLABLE HHO", aliases: &[] },
        Codepoint { codepoint: 0x1217, name: "ETHIOPIC SYLLABLE HHWA", aliases: &[] },
        Codepoint { codepoint: 0x1218, name: "ETHIOPIC SYLLABLE MA", aliases: &[] },
        Codepoint { codepoint: 0x1219, name: "ETHIOPIC SYLLABLE MU", aliases: &[] },
        Codepoint { codepoint: 0x121A, name: "ETHIOPIC SYLLABLE MI", aliases: &[] },
        Codepoint { codepoint: 0x121B, name: "ETHIOPIC SYLLABLE MAA", aliases: &[] },
        Codepoint { codepoint: 0x121C, name: "ETHIOPIC SYLLABLE MEE", aliases: &[] },
        Codepoint { codepoint: 0x121D, name: "ETHIOPIC SYLLABLE ME", aliases: &[] },
        Codepoint { codepoint: 0x121E, name: "ETHIOPIC SYLLABLE MO", aliases: &[] },
        Codepoint { codepoint: 0x121F, name: "ETHIOPIC SYLLABLE MWA", aliases: &[] },
        Codepoint { codepoint: 0x1220, name: "ETHIOPIC SYLLABLE SZA", aliases: &[] },
        Codepoint { codepoint: 0x1221, name: "ETHIOPIC SYLLABLE SZU", aliases: &[] },
        Codepoint { codepoint: 0x1222, name: "ETHIOPIC SYLLABLE SZI", aliases: &[] },
        Codepoint { codepoint: 0x1223, name: "ETHIOPIC SYLLABLE SZAA", aliases: &[] },
        Codepoint { codepoint: 0x1224, name: "ETHIOPIC SYLLABLE SZEE", aliases: &[] },
        Codepoint { codepoint: 0x1225, name: "ETHIOPIC SYLLABLE SZE", aliases: &[] },
        Codepoint { codepoint: 0x1226, name: "ETHIOPIC SYLLABLE SZO", aliases: &[] },
        Codepoint { codepoint: 0x1227, name: "ETHIOPIC SYLLABLE SZWA", aliases: &[] },
        Codepoint { codepoint: 0x1228, name: "ETHIOPIC SYLLABLE RA", aliases: &[] },
        Codepoint { codepoint: 0x1229, name: "ETHIOPIC SYLLABLE RU", aliases: &[] },
        Codepoint { codepoint: 0x122A, name: "ETHIOPIC SYLLABLE RI", aliases: &[] },
        Codepoint { codepoint: 0x122B, name: "ETHIOPIC SYLLABLE RAA", aliases: &[] },
        Codepoint { codepoint: 0x122C, name: "ETHIOPIC SYLLABLE REE", aliases: &[] },
        Codepoint { codepoint: 0x122D, name: "ETHIOPIC SYLLABLE RE", aliases: &[] },
        Codepoint { codepoint: 0x122E, name: "ETHIOPIC SYLLABLE RO", aliases: &[] },
        Codepoint { codepoint: 0x122F, name: "ETHIOPIC SYLLABLE RWA", aliases: &[] },
        Codepoint { codepoint: 0x1230, name: "ETHIOPIC SYLLABLE SA", aliases: &[] },
        Codepoint { codepoint: 0x1231, name: "ETHIOPIC SYLLABLE SU", aliases: &[] },
    ];
    assert(v@ =~= codepoint_table_102());
    v
}

pub open spec fn codepoint_table_103() -> Seq<Codepoint> {
    seq![
        Codepoint { codepoint: 0x1232, name: "ETHIOPIC SYLLABLE SI", aliases: &[] },
        Codepoint { codepoint: 0x1233, name: "ETHIOPIC SYLLABLE SAA", aliases: &[] },
        Codepoint { codepoint: 0x1234, name: "ETHIOPIC SYLLABLE SEE", aliases: &[] },
        Codepoint { codepoint: 0x1235, name: "ETHIOPIC SYLLABLE SE", aliases: &[] },
        Codepoint { codepoint: 0x1236, name: "ETHIOPIC SYLLABLE SO", aliases: &[] },
        Codepoint { codepoint: 0x1237, name: "ETHIOPIC SYLLABLE SWA", aliases: &[] },
        Codepoint { codepoint: 0x1238, name: "ETHIOPIC SYLLABLE SHA", aliases: &[] },
        Codepoint { codepoint: 0x1239, name: "ETHIOPIC SYLLABLE SHU", aliases: &[] },
        Codepoint { codepoint: 0x123A, name: "ETHIOPIC SYLLABLE SHI", aliases: &[] },
        Codepoint { codepoint: 0x123B, name: "ETHIOPIC SYLLABLE SHAA", aliases: &[] },
        Codepoint { codepoint: 0x123C, name: "ETHIOPIC SYLLABLE SHEE", aliases: &[] },
        Codepoint { codepoint: 0x123D, name: "ETHIOPIC SYLLABLE SHE", aliases: &[] },
        Codepoint { codepoint: 0x123E, name: "ETHIOPIC SYLLABLE SHO", aliases: &[] },
        Codepoint { codepoint: 0x123F, name: "ETHIOPIC SYLLABLE SHWA", aliases: &[] },
        Codepoint { codepoint: 0x1240, name: "ETHIOPIC SYLLABLE QA", aliases: &[] },
        Codepoint { codepoint: 0x1241, name: "ETHIOPIC SYLLABLE QU", aliases: &[] },
        Codepoint { codepoint: 0x1242, name: "ETHIOPIC SYLLABLE QI", aliases: &[] },
        Codepoint { codepoint: 0x1243, name: "ETHIOPIC SYLLABLE QAA", aliases: &[] },
        Codepoint { codepoint: 0x1244, name: "ETHIOPIC SYLLABLE QEE", aliases: &[] },
        Codepoint { codepoint: 0x1245, name: "ETHIOPIC SYLLABLE QE", aliases: &[] },
        Codepoint { codepoint: 0x1246, name: "ETHIOPIC SYLLABLE QO", aliases: &[] },
        Codepoint { codepoint: 0x1247, name: "ETHIOPIC SYLLABLE QOA", aliases: &[] },
        Codepoint { codepoint: 0x1248, name: "ETHIOPIC SYLLABLE QWA", aliases: &[] },
        Codepoint { codepoint: 0x124A, name: "ETHIOPIC SYLLABLE QWI", aliases: &[] },
        Codepoint { codepoint: 0x124B, name: "ETHIOPIC SYLLABLE QWAA", aliases: &[] },
        Codepoint { codepoint: 0x124C, name: "ETHIOPIC SYLLABLE QWEE", aliases: &[] },
        Codepoint { codepoint: 0x124D, name: "ETHIOPIC SYLLABLE QWE", aliases: &[] },
        Codepoint { codepoint: 0x1250, name: "ETHIOPIC SYLLABLE QHA", aliases: &[] },
        Codepoint { codepoint: 0x1251, name: "ETHIOPIC SYLLABLE QHU", aliases: &[] },
        Codepoint { codepoint: 0x1252, name: "ETHIOPIC SYLLABLE QHI", aliases: &[] },
        Codepoint { codepoint: 0x1253, name: "ETHIOPIC SYLLABLE QHAA", aliases: &[] },
        Codepoint { codepoint: 0x1254, name: "ETHIOPIC SYLLABLE QHEE", aliases: &[] },
        Codepoint { codepoint: 0x1255, name: "ETHIOPIC SYLLABLE QHE", aliases: &[] },
        Codepoint { codepoint: 0x1256, name: "ETHIOPIC SYLLABLE QHO", aliases: &[] },
        Codepoint { codepoint: 0x1258, name: "ETHIOPIC SYLLABLE QHWA", aliases: &[] },
        Codepoint { codepoint: 0x125A, name: "ETHIOPIC SYLLABLE QHWI", aliases: &[] },
        Codepoint { codepoint: 0x125B, name: "ETHIOPIC SYLLABLE QHWAA", aliases: &[] },
        Codepoint { codepoint: 0x125C, name: "ETHIOPIC SYLLABLE QHWEE", aliases: &[] },
        Codepoint { codepoint: 0x125D, name: "ETHIOPIC SYLLABLE QHWE", aliases: &[] },
        Codepoint { codepoint: 0x1260, name: "ETHIOPIC SYLLABLE BA", aliases: &[] },
    ]
}

fn all_codepoints_103() -> (v: Vec<Codepoint>)
    ensures
        v@ == codepoint_table_103(),
{
    let v = vec![
        Codepoint { codepoint: 0x1232, name: "ETHIOPIC SYLLABLE SI", aliases: &[] },
        Codepoint { codepoint: 0x1233, name: "ETHIOPIC SYLLABLE SAA", aliases: &[] },
        Codepoint { codepoint: 0x1234, name: "ETHIOPIC SYLLABLE SEE", aliases: &[] },
        Codepoint { codepoint: 0x1235, name: "ETHIOPIC SYLLABLE SE", aliases: &[] },
        Codepoint { codepoint: 0x1236, name: "ETHIOPIC SYLLABLE SO", aliases: &[] },
        Codepoint { codepoint: 0x1237, name: "ETHIOPIC SYLLABLE SWA", aliases: &[] },
        Codepoint { codepoint: 0x1238, name: "ETHIOPIC SYLLABLE SHA", aliases: &[] },
        Codepoint { codepoint: 0x1239, name: "ETHIOPIC SYLLABLE SHU", aliases: &[] },
        Codepoint { codepoint: 0x123A, name: "ETHIOPIC SYLLABLE SHI", aliases: &[] },
        Codepoint { codepoint: 0x123B, name: "ETHIOPIC SYLLABLE SHAA", aliases: &[] },
        Codepoint { codepoint: 0x123C, name: "ETHIOPIC SYLLABLE SHEE", aliases: &[] },
        Codepoint { codepoint: 0x123D, name: "ETHIOPIC SYLLABLE SHE", aliases: &[] },
        Codepoint { codepoint: 0x123E, name: "ETHIOPIC SYLLABLE SHO", aliases: &[] },
        Codepoint { codepoint: 0x123F, name: "ETHIOPIC SYLLABLE SHWA", aliases: &[] },
        Codepoint { codepoint: 0x1240, name: "ETHIOPIC SYLLABLE QA", aliases: &[] },
        Codepoint { codepoint: 0x1241, name: "ETHIOPIC SYLLABLE QU", aliases: &[] },
        Codepoint { codepoint: 0x1242, name: "ETHIOPIC SYLLABLE QI", aliases: &[] },
        Codepoint { codepoint: 0x1243, name: "ETHIOPIC SYLLABLE QAA", aliases: &[] },
        Codepoint { codepoint: 0x1244, name: "ETHIOPIC SYLLABLE QEE", aliases: &[] },
        Codepoint { codepoint: 0x1245, name: "ETHIOPIC SYLLABLE QE", aliases: &[] },
        Codepoint { codepoint: 0x1246, name: "ETHIOPIC SYLLABLE QO", aliases: &[] },
        Codepoint { codepoint: 0x1247, name: "ETHIOPIC SYLLABLE QOA", aliases: &[] },
        Codepoint { codepoint: 0x1248, name: "ETHIOPIC SYLLABLE QWA", aliases: &[] },
        Codepoint { codepoint: 0x124A, name: "ETHIOPIC SYLLABLE QWI", aliases: &[] },
        Codepoint { codepoint: 0x124B, name: "ETHIOPIC SYLLABLE QWAA", aliases: &[] },
        Codepoint { codepoint: 0x124C, name: "ETHIOPIC SYLLABLE QWEE", aliases: &[] },
        Codepoint { codepoint: 0x124D, name: "ETHIOPIC SYLLABLE QWE", aliases: &[] },
        Codepoint { codepoint: 0x1250, name: "ETHIOPIC SYLLABLE QHA", aliases: &[] },
        Codepoint { codepoint: 0x1251, name: "ETHIOPIC SYLLABLE QHU", aliases: &[] },
        Codepoint { codepoint: 0x1252, name: "ETHIOPIC SYLLABLE QHI", aliases: &[] },
        Codepoint { codepoint: 0x1253, name: "ETHIOPIC SYLLABLE QHAA", aliases: &[] },
        Codepoint { codepoint: 0x1254, name: "ETHIOPIC SYLLABLE QHEE", aliases: &[] },
        Codepoint { codepoint: 0x1255, name: "ETHIOPIC SYLLABLE QHE", aliases: &[] },
        Codepoint { codepoint: 0x1256, name: "ETHIOPIC SYLLABLE QHO", aliases: &[] },
        Codepoint { codepoint: 0x1258, name: "ETHIOPIC SYLLABLE QHWA", aliases: &[] },
        Codepoint { codepoint: 0x125A, name: "ETHIOPIC SYLLABLE QHWI", aliases: &[] },
        Codepoint { codepoint: 0x125B, name: "ETHIOPIC SYLLABLE QHWAA", aliases: &[] },
        Codepoint { codepoint: 0x125C, name: "ETHIOPIC SYLLABLE QHWEE", aliases: &[] },
        Codepoint { codepoint: 0x125D, name: "ETHIOPIC SYLLABLE QHWE", aliases: &[] },
        Codepoint { codepoint: 0x1260, name: "ETHIOPIC SYLLABLE BA", aliases: &[] },
    ];
    assert(v@ =~= codepoint_table_103());
    v
}

pub open spec fn codepoint_table_104() -> Seq<Codepoint> {
    seq![
        Codepoint { codepoint: 0x1261, name: "ETHIOPIC SYLLABLE BU", aliases: &[] },
        Codepoint { codepoint: 0x1262, name: "ETHIOPIC SYLLABLE BI", aliases: &[] },
        Codepoint { codepoint: 0x1263, name: "ETHIOPIC SYLLABLE BAA", aliases: &[] },
        Codepoint { codepoint: 0x1264, name: "ETHIOPIC SYLLABLE BEE", aliases: &[] },
        Codepoint { codepoint: 0x1265, name: "ETHIOPIC SYLLABLE BE", aliases: &[] },
        Codepoint { codepoint: 0x1266, name: "ETHIOPIC SYLLABLE BO", aliases: &[] },
        Codepoint { codepoint: 0x1267, name: "ETHIOPIC SYLLABLE BWA", aliases: &[] },
        Codepoint { codepoint: 0x1268, name: "ETHIOPIC SYLLABLE VA", aliases: &[] },
        Codepoint { codepoint: 0x1269, name: "ETHIOPIC SYLLABLE VU", aliases: &[] },
        Codepoint { codepoint: 0x126A, name: "ETHIOPIC SYLLABLE VI", aliases: &[] },
        Codepoint { codepoint: 0x126B, name: "ETHIOPIC SYLLABLE VAA", aliases: &[] },
        Codepoint { codepoint: 0x126C, name: "ETHIOPIC SYLLABLE VEE", aliases: &[] },
        Codepoint { codepoint: 0x126D, name: "ETHIOPIC SYLLABLE VE", aliases: &[] },
        Codepoint { codepoint: 0x126E, name: "ETHIOPIC SYLLABLE VO", aliases: &[] },
        Codepoint { codepoint: 0x126F, name: "ETHIOPIC SYLLABLE VWA", aliases: &[] },
        Codepoint { codepoint: 0x1270, name: "ETHIOPIC SYLLABLE TA", aliases: &[] },
        Codepoint { codepoint: 0x1271, name: "ETHIOPIC SYLLABLE TU", aliases: &[] },
        Codepoint { codepoint: 0x1272, name: "ETHIOPIC SYLLABLE TI", aliases: &[] },
        Codepoint { codepoint: 0x1273, name: "ETHIOPIC SYLLABLE TAA", aliases: &[] },
        Codepoint { codepoint: 0x1274, name: "ETHIOPIC SYLLABLE TEE", aliases: &[] },
        Codepoint { codepoint: 0x1275, name: "ETHIOPIC SYLLABLE TE", aliases: &[] },
        Codepoint { codepoint: 0x1276, name: "ETHIOPIC SYLLABLE TO", aliases: &[] },
        Codepoint { codepoint: 0x1277, name: "ETHIOPIC SYLLABLE TWA", aliases: &[] },
        Codepoint { codepoint: 0x1278, name: "ETHIOPIC SYLLABLE CA", aliases: &[] },
        Codepoint { codepoint: 0x1279, name: "ETHIOPIC SYLLABLE CU", aliases: &[] },
        Codepoint { codepoint: 0x127A, name: "ETHIOPIC SYLLABLE CI", aliases: &[] },
        Codepoint { codepoint: 0x127B, name: "ETHIOPIC SYLLABLE CAA", aliases: &[] },
        Codepoint { codepoint: 0x127C, name: "ETHIOPIC SYLLABLE CEE", aliases: &[] },
        Codepoint { codepoint: 0x127D, name: "ETHIOPIC SYLLABLE CE", aliases: &[] },
        Codepoint { codepoint: 0x127E, name: "ETHIOPIC SYLLABLE CO", aliases: &[] },
        Codepoint { codepoint: 0x127F, name: "ETHIOPIC SYLLABLE CWA", aliases: &[] },
        Codepoint { codepoint: 0x1280, name: "ETHIOPIC SYLLABLE XA", aliases: &[] },
        Codepoint { codepoint: 0x1281, name: "ETHIOPIC SYLLABLE XU", aliases: &[] },
        Codepoint { codepoint: 0x1282, name: "ETHIOPIC SYLLABLE XI", aliases: &[] },
        Codepoint { codepoint: 0x1283, name: "ETHIOPIC SYLLABLE XAA", aliases: &[] },
        Codepoint { codepoint: 0x1284, name: "ETHIOPIC SYLLABLE XEE", aliases: &[] },
        Codepoint { codepoint: 0x1285, name: "ETHIOPIC SYLLABLE XE", aliases: &[] },
        Codepoint { codepoint: 0x1286, name: "ETHIOPIC SYLLABLE XO", aliases: &[] },
        Codepoint { codepoint: 0x1287, name: "ETHIOPIC SYLLABLE XOA", aliases: &[] },
        Codepoint { codepoint: 0x1288, name: "ETHIOPIC SYLLABLE XWA", aliases: &[] },
    ]
}

fn all_codepoints_104() -> (v: Vec<Codepoint>)
    ensures
        v@ == codepoint_table_104(),
{
    let v = vec![
        Codepoint { codepoint: 0x1261, name: "ETHIOPIC SYLLABLE BU", aliases: &[] },
        Codepoint { codepoint: 0x1262, name: "ETHIOPIC SYLLABLE BI", aliases: &[] },
        Codepoint { codepoint: 0x1263, name: "ETHIOPIC SYLLABLE BAA", aliases: &[] },
        Codepoint { codepoint: 0x1264, name: "ETHIOPIC SYLLABLE BEE", aliases: &[] },
        Codepoint { codepoint: 0x1265, name: "ETHIOPIC SYLLABLE BE", aliases: &[] },
        Codepoint { codepoint: 0x1266, name: "ETHIOPIC SYLLABLE BO", aliases: &[] },
        Codepoint { codepoint: 0x1267, name: "ETHIOPIC SYLLABLE BWA", aliases: &[] },
        Codepoint { codepoint: 0x1268, name: "ETHIOPIC SYLLABLE VA", aliases: &[] },
        Codepoint { codepoint: 0x1269, name: "ETHIOPIC SYLLABLE VU", aliases: &[] },
        Codepoint { codepoint: 0x126A, name: "ETHIOPIC SYLLABLE VI", aliases: &[] },
        Codepoint { codepoint: 0x126B, name: "ETHIOPIC SYLLABLE VAA", aliases: &[] },
        Codepoint { codepoint: 0x126C, name: "ETHIOPIC SYLLABLE VEE", aliases: &[] },
        Codepoint { codepoint: 0x126D, name: "ETHIOPIC SYLLABLE VE", aliases: &[] },
        Codepoint { codepoint: 0x126E, name: "ETHIOPIC SYLLABLE VO", aliases: &[] },
        Codepoint { codepoint: 0x126F, name: "ETHIOPIC SYLLABLE VWA", aliases: &[] },
        Codepoint { codepoint: 0x1270, name: "ETHIOPIC SYLLABLE TA", aliases: &[] },
        Codepoint { codepoint: 0x1271, name: "ETHIOPIC SYLLABLE TU", aliases: &[] },
        Codepoint { codepoint: 0x1272, name: "ETHIOPIC SYLLABLE TI", aliases: &[] },
        Codepoint { codepoint: 0x1273, name: "ETHIOPIC SYLLABLE TAA", aliases: &[] },
        Codepoint { codepoint: 0x1274, name: "ETHIOPIC SYLLABLE TEE", aliases: &[] },
        Codepoint { codepoint: 0x1275, name: "ETHIOPIC SYLLABLE TE", aliases: &[] },
        Codepoint { codepoint: 0x1276, name: "ETHIOPIC SYLLABLE TO", aliases: &[] },
        Codepoint { codepoint: 0x1277, name: "ETHIOPIC SYLLABLE TWA", aliases: &[] },
        Codepoint { codepoint: 0x1278, name: "ETHIOPIC SYLLABLE CA", aliases: &[] },
        Codepoint { codepoint: 0x1279, name: "ETHIOPIC SYLLABLE CU", aliases: &[] },
        Codepoint { codepoint: 0x127A, name: "ETHIOPIC SYLLABLE CI", aliases: &[] },
        Codepoint { codepoint: 0x127B, name: "ETHIOPIC SYLLABLE CAA", aliases: &[] },
        Codepoint { codepoint: 0x127C, name: "ETHIOPIC SYLLABLE CEE", aliases: &[] },
        Codepoint { codepoint: 0x127D, name: "ETHIOPIC SYLLABLE CE", aliases: &[] },
        Codepoint { codepoint: 0x127E, name: "ETHIOPIC SYLLABLE CO", aliases: &[] },
        Codepoint { codepoint: 0x127F, name: "ETHIOPIC SYLLABLE CWA", aliases: &[] },
        Codepoint { codepoint: 0x1280, name: "ETHIOPIC SYLLABLE XA", aliases: &[] },
        Codepoint { codepoint: 0x1281, name: "ETHIOPIC SYLLABLE XU", aliases: &[] },
        Codepoint { codepoint: 0x1282, name: "ETHIOPIC SYLLABLE XI", aliases: &[] },
        Codepoint { codepoint: 0x1283, name: "ETHIOPIC SYLLABLE XAA", aliases: &[] },
        Codepoint { codepoint: 0x1284, name: "ETHIOPIC SYLLABLE XEE", aliases: &[] },
        Codepoint { codepoint: 0x1285, name: "ETHIOPIC SYLLABLE XE", aliases: &[] },
        Codepoint { codepoint: 0x1286, name: "ETHIOPIC SYLLABLE XO", aliases: &[] },
        Codepoint { codepoint: 0x1287, name: "ETHIOPIC SYLLABLE XOA", aliases: &[] },
        Codepoint { codepoint: 0x1288, name: "ETHIOPIC SYLLABLE XWA", aliases: &[] },
    ];
    assert(v@ =~= codepoint_table_104());
    v
}

pub open spec fn codepoint_table_105() -> Seq<Codepoint> {
    seq![
        Codepoint { codepoint: 0x128A, name: "ETHIOPIC SYLLABLE XWI", aliases: &[] },
        Codepoint { codepoint: 0x128B, name: "ETHIOPIC SYLLABLE XWAA", aliases: &[] },
        Codepoint { codepoint: 0x128C, name: "ETHIOPIC SYLLABLE XWEE", aliases: &[] },
        Codepoint { codepoint: 0x128D, name: "ETHIOPIC SYLLABLE XWE", aliases: &[] },
        Codepoint { codepoint: 0x1290, name: "ETHIOPIC SYLLABLE NA", aliases: &[] },
        Codepoint { codepoint: 0x1291, name: "ETHIOPIC SYLLABLE NU", aliases: &[] },
        Codepoint { codepoint: 0x1292, name: "ETHIOPIC SYLLABLE NI", aliases: &[] },
        Codepoint { codepoint: 0x1293, name: "ETHIOPIC SYLLABLE NAA", aliases: &[] },
        Codepoint { codepoint: 0x1294, name: "ETHIOPIC SYLLABLE NEE", aliases: &[] },
        Codepoint { codepoint: 0x1295, name: "ETHIOPIC SYLLABLE NE", aliases: &[] },
        Codepoint { codepoint: 0x1296, name: "ETHIOPIC SYLLABLE NO", aliases: &[] },
        Codepoint { codepoint: 0x1297, name: "ETHIOPIC SYLLABLE NWA", aliases: &[] },
        Codepoint { codepoint: 0x1298, name: "ETHIOPIC SYLLABLE NYA", aliases: &[] },
        Codepoint { codepoint: 0x1299, name: "ETHIOPIC SYLLABLE NYU", aliases: &[] },
        Codepoint { codepoint: 0x129A, name: "ETHIOPIC SYLLABLE NYI", aliases: &[] },
        Codepoint { codepoint: 0x129B, name: "ETHIOPIC SYLLABLE NYAA", aliases: &[] },
        Codepoint { codepoint: 0x129C, name: "ETHIOPIC SYLLABLE NYEE", aliases: &[] },
        Codepoint { codepoint: 0x129D, name: "ETHIOPIC SYLLABLE NYE", aliases: &[] },
        Codepoint { codepoint: 0x129E, name: "ETHIOPIC SYLLABLE NYO", aliases: &[] },
        Codepoint { codepoint: 0x129F, name: "ETHIOPIC SYLLABLE NYWA", aliases: &[] },
        Codepoint { codepoint: 0x12A0, name: "ETHIOPIC SYLLABLE GLOTTAL A", aliases: &[] },
        Codepoint { codepoint: 0x12A1, name: "ETHIOPIC SYLLABLE GLOTTAL U", aliases: &[] },
        Codepoint { codepoint: 0x12A2, name: "ETHIOPIC SYLLABLE GLOTTAL I", aliases: &[] },
        Codepoint { codepoint: 0x12A3, name: "ETHIOPIC SYLLABLE GLOTTAL AA", aliases: &[] },
        Codepoint { codepoint: 0x12A4, name: "ETHIOPIC SYLLABLE GLOTTAL EE", aliases: &[] },
        Codepoint { codepoint: 0x12A5, name: "ETHIOPIC SYLLABLE GLOTTAL E", aliases: &[] },
        Codepoint { codepoint: 0x12A6, name: "ETHIOPIC SYLLABLE GLOTTAL O", aliases: &[] },
        Codepoint { codepoint: 0x12A7, name: "ETHIOPIC SYLLABLE GLOTTAL WA", aliases: &[] },
        Codepoint { codepoint: 0x12A8, name: "ETHIOPIC SYLLABLE KA", aliases: &[] },
        Codepoint { codepoint: 0x12A9, name: "ETHIOPIC SYLLABLE KU", aliases: &[] },
        Codepoint { codepoint: 0x12AA, name: "ETHIOPIC SYLLABLE KI", aliases: &[] },
        Codepoint { codepoint: 0x12AB, name: "ETHIOPIC SYLLABLE KAA", aliases: &[] },
        Codepoint { codepoint: 0x12AC, name: "ETHIOPIC SYLLABLE KEE", aliases: &[] },
        Codepoint { codepoint: 0x12AD, name: "ETHIOPIC SYLLABLE KE", aliases: &[] },
        Codepoint { codepoint: 0x12AE, name: "ETHIOPIC SYLLABLE KO", aliases: &[] },
        Codepoint { codepoint: 0x12AF, name: "ETHIOPIC SYLLABLE KOA", aliases: &[] },
        Codepoint { codepoint: 0x12B0, name: "ETHIOPIC SYLLABLE KWA", aliases: &[] },
        Codepoint { codepoint: 0x12B2, name: "ETHIOPIC SYLLABLE KWI", aliases: &[] },
        Codepoint { codepoint: 0x12B3, name: "ETHIOPIC SYLLABLE KWAA", aliases: &[] },
        Codepoint { codepoint: 0x12B4, name: "ETHIOPIC SYLLABLE KWEE", aliases: &[] },
    ]
}

fn all_codepoints_105() -> (v: Vec<Codepoint>)
    ensures
        v@ == codepoint_table_105(),
{
    let v = vec![
        Codepoint { codepoint: 0x128A, name: "ETHIOPIC SYLLABLE XWI", aliases: &[] },
        Codepoint { codepoint: 0x128B, name: "ETHIOPIC SYLLABLE XWAA", aliases: &[] },
        Codepoint { codepoint: 0x128C, name: "ETHIOPIC SYLLABLE XWEE", aliases: &[] },
        Codepoint { codepoint: 0x128D, name: "ETHIOPIC SYLLABLE XWE", aliases: &[] },
        Codepoint { codepoint: 0x1290, name: "ETHIOPIC SYLLABLE NA", aliases: &[] },
        Codepoint { codepoint: 0x1291, name: "ETHIOPIC SYLLABLE NU", aliases: &[] },
        Codepoint { codepoint: 0x1292, name: "ETHIOPIC SYLLABLE NI", aliases: &[] },
        Codepoint { codepoint: 0x1293, name: "ETHIOPIC SYLLABLE NAA", aliases: &[] },
        Codepoint { codepoint: 0x1294, name: "ETHIOPIC SYLLABLE NEE", aliases: &[] },
        Codepoint { codepoint: 0x1295, name: "ETHIOPIC SYLLABLE NE", aliases: &[] },
        Codepoint { codepoint: 0x1296, name: "ETHIOPIC SYLLABLE NO", aliases: &[] },
        Codepoint { codepoint: 0x1297, name: "ETHIOPIC SYLLABLE NWA", aliases: &[] },
        Codepoint { codepoint: 0x1298, name: "ETHIOPIC SYLLABLE NYA", aliases: &[] },
        Codepoint { codepoint: 0x1299, name: "ETHIOPIC SYLLABLE NYU", aliases: &[] },
        Codepoint { codepoint: 0x129A, name: "ETHIOPIC SYLLABLE NYI", aliases: &[] },
        Codepoint { codepoint: 0x129B, name: "ETHIOPIC SYLLABLE NYAA", aliases: &[] },
        Codepoint { codepoint: 0x129C, name: "ETHIOPIC SYLLABLE NYEE", aliases: &[] },
        Codepoint { codepoint: 0x129D, name: "ETHIOPIC SYLLABLE NYE", aliases: &[] },
        Codepoint { codepoint: 0x129E, name: "ETHIOPIC SYLLABLE NYO", aliases: &[] },
        Codepoint { codepoint: 0x129F, name: "ETHIOPIC SYLLABLE NYWA", aliases: &[] },
        Codepoint { codepoint: 0x12A0, name: "ETHIOPIC SYLLABLE GLOTTAL A", aliases: &[] },
        Codepoint { codepoint: 0x12A1, name: "ETHIOPIC SYLLABLE GLOTTAL U", aliases: &[] },
        Codepoint { codepoint: 0x12A2, name: "ETHIOPIC SYLLABLE GLOTTAL I", aliases: &[] },
        Codepoint { codepoint: 0x12A3, name: "ETHIOPIC SYLLABLE GLOTTAL AA", aliases: &[] },
        Codepoint { codepoint: 0x12A4, name: "ETHIOPIC SYLLABLE GLOTTAL EE", aliases: &[] },
        Codepoint { codepoint: 0x12A5, name: "ETHIOPIC SYLLABLE GLOTTAL E", aliases: &[] },
        Codepoint { codepoint: 0x12A6, name: "ETHIOPIC SYLLABLE GLOTTAL O", aliases: &[] },
        Codepoint { codepoint: 0x12A7, name: "ETHIOPIC SYLLABLE GLOTTAL WA", aliases: &[] },
        Codepoint { codepoint: 0x12A8, name: "ETHIOPIC SYLLABLE KA", aliases: &[] },
        Codepoint { codepoint: 0x12A9, name: "ETHIOPIC SYLLABLE KU", aliases: &[] },
        Codepoint { codepoint: 0x12AA, name: "ETHIOPIC SYLLABLE KI", aliases: &[] },
        Codepoint { codepoint: 0x12AB, name: "ETHIOPIC SYLLABLE KAA", aliases: &[] },
        Codepoint { codepoint: 0x12AC, name: "ETHIOPIC SYLLABLE KEE", aliases: &[] },
        Codepoint { codepoint: 0x12AD, name: "ETHIOPIC SYLLABLE KE", aliases: &[] },
        Codepoint { codepoint: 0x12AE, name: "ETHIOPIC SYLLABLE KO", aliases: &[] },
        Codepoint { codepoint: 0x12AF, name: "ETHIOPIC SYLLABLE KOA", aliases: &[] },
        Codepoint { codepoint: 0x12B0, name: "ETHIOPIC SYLLABLE KWA", aliases: &[] },
        Codepoint { codepoint: 0x12B2, name: "ETHIOPIC SYLLABLE KWI", aliases: &[] },
        Codepoint { codepoint: 0x12B3, name: "ETHIOPIC SYLLABLE KWAA", aliases: &[] },
        Codepoint { codepoint: 0x12B4, name: "ETHIOPIC SYLLABLE KWEE", aliases: &[] },
    ];
    assert(v@ =~= codepoint_table_105());
    v
}

pub open spec fn codepoint_table_106() -> Seq<Codepoint> {
    seq![
        Codepoint { codepoint: 0x12B5, name: "ETHIOPIC SYLLABLE KWE", aliases: &[] },
        Codepoint { codepoint: 0x12B8, name: "ETHIOPIC SYLLABLE KXA", aliases: &[] },
        Codepoint { codepoint: 0x12B9, name: "ETHIOPIC SYLLABLE KXU", aliases: &[] },
        Codepoint { codepoint: 0x12BA, name: "ETHIOPIC SYLLABLE KXI", aliases: &[] },
        Codepoint { codepoint: 0x12BB, name: "ETHIOPIC SYLLABLE KXAA", aliases: &[] },
        Codepoint { codepoint: 0x12BC, name: "ETHIOPIC SYLLABLE KXEE", aliases: &[] },
        Codepoint { codepoint: 0x12BD, name: "ETHIOPIC SYLLABLE KXE", aliases: &[] },
        Codepoint { codepoint: 0x12BE, name: "ETHIOPIC SYLLABLE KXO", aliases: &[] },
        Codepoint { codepoint: 0x12C0, name: "ETHIOPIC SYLLABLE KXWA", aliases: &[] },
        Codepoint { codepoint: 0x12C2, name: "ETHIOPIC SYLLABLE KXWI", aliases: &[] },
        Codepoint { codepoint: 0x12C3, name: "ETHIOPIC SYLLABLE KXWAA", aliases: &[] },
        Codepoint { codepoint: 0x12C4, name: "ETHIOPIC SYLLABLE KXWEE", aliases: &[] },
        Codepoint { codepoint: 0x12C5, name: "ETHIOPIC SYLLABLE KXWE", aliases: &[] },
        Codepoint { codepoint: 0x12C8, name: "ETHIOPIC SYLLABLE WA", aliases: &[] },
        Codepoint { codepoint: 0x12C9, name: "ETHIOPIC SYLLABLE WU", aliases: &[] },
        Codepoint { codepoint: 0x12CA, name: "ETHIOPIC SYLLABLE WI", aliases: &[] },
        Codepoint { codepoint: 0x12CB, name: "ETHIOPIC SYLLABLE WAA", aliases: &[] },
        Codepoint { codepoint: 0x12CC, name: "ETHIOPIC SYLLABLE WEE", aliases: &[] },
        Codepoint { codepoint: 0x12CD, name: "ETHIOPIC SYLLABLE WE", aliases: &[] },
        Codepoint { codepoint: 0x12CE, name: "ETHIOPIC SYLLABLE WO", aliases: &[] },
        Codepoint { codepoint: 0x12CF, name: "ETHIOPIC SYLLABLE WOA", aliases: &[] },
        Codepoint { codepoint: 0x12D0, name: "ETHIOPIC SYLLABLE PHARYNGEAL A", aliases: &[] },
        Codepoint { codepoint: 0x12D1, name: "ETHIOPIC SYLLABLE PHARYNGEAL U", aliases: &[] },
        Codepoint { codepoint: 0x12D2, name: "ETHIOPIC SYLLABLE PHARYNGEAL I", aliases: &[] },
        Codepoint { codepoint: 0x12D3, name: "ETHIOPIC SYLLABLE PHARYNGEAL AA", aliases: &[] },
        Codepoint { codepoint: 0x12D4, name: "ETHIOPIC SYLLABLE PHARYNGEAL EE", aliases: &[] },
        Codepoint { codepoint: 0x12D5, name: "ETHIOPIC SYLLABLE PHARYNGEAL E", aliases: &[] },
        Codepoint { codepoint: 0x12D6, name: "ETHIOPIC SYLLABLE PHARYNGEAL O", aliases: &[] },
        Codepoint { codepoint: 0x12D8, name: "ETHIOPIC SYLLABLE ZA", aliases: &[] },
        Codepoint { codepoint: 0x12D9, name: "ETHIOPIC SYLLABLE ZU", aliases: &[] },
        Codepoint { codepoint: 0x12DA, name: "ETHIOPIC SYLLABLE ZI", aliases: &[] },
        Codepoint { codepoint: 0x12DB, name: "ETHIOPIC SYLLABLE ZAA", aliases: &[] },
        Codepoint { codepoint: 0x12DC, name: "ETHIOPIC SYLLABLE ZEE", aliases: &[] },
        Codepoint { codepoint: 0x12DD, name: "ETHIOPIC SYLLABLE ZE", aliases: &[] },
        Codepoint { codepoint: 0x12DE, name: "ETHIOPIC SYLLABLE ZO", aliases: &[] },
        Codepoint { codepoint: 0x12DF, name: "ETHIOPIC SYLLABLE ZWA", aliases: &[] },
        Codepoint { codepoint: 0x12E0, name: "ETHIOPIC SYLLABLE ZHA", aliases: &[] },
        Codepoint { codepoint: 0x12E1, name: "ETHIOPIC SYLLABLE ZHU", aliases: &[] },
        Codepoint { codepoint: 0x12E2, name: "ETHIOPIC SYLLABLE ZHI", aliases: &[] },
        Codepoint { codepoint: 0x12E3, name: "ETHIOPIC SYLLABLE ZHAA", aliases: &[] },
    ]
}

fn all_codepoints_106() -> (v: Vec<Codepoint>)
    ensures
        v@ == codepoint_table_106(),
{
    let v = vec![
        Codepoint { codepoint: 0x12B5, name: "ETHIOPIC SYLLABLE KWE", aliases: &[] },
        Codepoint { codepoint: 0x12B8, name: "ETHIOPIC SYLLABLE KXA", aliases: &[] },
        Codepoint { codepoint: 0x12B9, name: "ETHIOPIC SYLLABLE KXU", aliases: &[] },
        Codepoint { codepoint: 0x12BA, name: "ETHIOPIC SYLLABLE KXI", aliases: &[] },
        Codepoint { codepoint: 0x12BB, name: "ETHIOPIC SYLLABLE KXAA", aliases: &[] },
        Codepoint { codepoint: 0x12BC, name: "ETHIOPIC SYLLABLE KXEE", aliases: &[] },
        Codepoint { codepoint: 0x12BD, name: "ETHIOPIC SYLLABLE KXE", aliases: &[] },
        Codepoint { codepoint: 0x12BE, name: "ETHIOPIC SYLLABLE KXO", aliases: &[] },
        Codepoint { codepoint: 0x12C0, name: "ETHIOPIC SYLLABLE KXWA", aliases: &[] },
        Codepoint { codepoint: 0x12C2, name: "ETHIOPIC SYLLABLE KXWI", aliases: &[] },
        Codepoint { codepoint: 0x12C3, name: "ETHIOPIC SYLLABLE KXWAA", aliases: &[] },
        Codepoint { codepoint: 0x12C4, name: "ETHIOPIC SYLLABLE KXWEE", aliases: &[] },
        Codepoint { codepoint: 0x12C5, name: "ETHIOPIC SYLLABLE KXWE", aliases: &[] },
        Codepoint { codepoint: 0x12C8, name: "ETHIOPIC SYLLABLE WA", aliases: &[] },
        Codepoint { codepoint: 0x12C9, name: "ETHIOPIC SYLLABLE WU", aliases: &[] },
        Codepoint { codepoint: 0x12CA, name: "ETHIOPIC SYLLABLE WI", aliases: &[] },
        Codepoint { codepoint: 0x12CB, name: "ETHIOPIC SYLLABLE WAA", aliases: &[] },
        Codepoint { codepoint: 0x12CC, name: "ETHIOPIC SYLLABLE WEE", aliases: &[] },
        Codepoint { codepoint: 0x12CD, name: "ETHIOPIC SYLLABLE WE", aliases: &[] },
        Codepoint { codepoint: 0x12CE, name: "ETHIOPIC SYLLABLE WO", aliases: &[] },
        Codepoint { codepoint: 0x12CF, name: "ETHIOPIC SYLLABLE WOA", aliases: &[] },
        Codepoint { codepoint: 0x12D0, name: "ETHIOPIC SYLLABLE PHARYNGEAL A", aliases: &[] },
        Codepoint { codepoint: 0x12D1, name: "ETHIOPIC SYLLABLE PHARYNGEAL U", aliases: &[] },
        Codepoint { codepoint: 0x12D2, name: "ETHIOPIC SYLLABLE PHARYNGEAL I", aliases: &[] },
        Codepoint { codepoint: 0x12D3, name: "ETHIOPIC SYLLABLE PHARYNGEAL AA", aliases: &[] },
        Codepoint { codepoint: 0x12D4, name: "ETHIOPIC SYLLABLE PHARYNGEAL EE", aliases: &[] },
        Codepoint { codepoint: 0x12D5, name: "ETHIOPIC SYLLABLE PHARYNGEAL E", aliases: &[] },
        Codepoint { codepoint: 0x12D6, name: "ETHIOPIC SYLLABLE PHARYNGEAL O", aliases: &[] },
        Codepoint { codepoint: 0x12D8, name: "ETHIOPIC SYLLABLE ZA", aliases: &[] },
        Codepoint { codepoint: 0x12D9, name: "ETHIOPIC SYLLABLE ZU", aliases: &[] },
        Codepoint { codepoint: 0x12DA, name: "ETHIOPIC SYLLABLE ZI", aliases: &[] },
        Codepoint { codepoint: 0x12DB, name: "ETHIOPIC SYLLABLE ZAA", aliases: &[] },
        Codepoint { codepoint: 0x12DC, name: "ETHIOPIC SYLLABLE ZEE", aliases: &[] },
        Codepoint { codepoint: 0x12DD, name: "ETHIOPIC SYLLABLE ZE", aliases: &[] },
        Codepoint { codepoint: 0x12DE, name: "ETHIOPIC SYLLABLE ZO", aliases: &[] },
        Codepoint { codepoint: 0x12DF, name: "ETHIOPIC SYLLABLE ZWA", aliases: &[] },
        Codepoint { codepoint: 0x12E0, name: "ETHIOPIC SYLLABLE ZHA", aliases: &[] },
        Codepoint { codepoint: 0x12E1, name: "ETHIOPIC SYLLABLE ZHU", aliases: &[] },
        Codepoint { codepoint: 0x12E2, name: "ETHIOPIC SYLLABLE ZHI", aliases: &[] },
        Codepoint { codepoint: 0x12E3, name: "ETHIOPIC SYLLABLE ZHAA", aliases: &[] },
    ];
    assert(v@ =~= codepoint_table_106());
    v
}

pub open spec fn codepoint_table_107() -> Seq<Codepoint> {
    seq![
        Codepoint { codepoint: 0x12E4, name: "ETHIOPIC SYLLABLE ZHEE", aliases: &[] },
        Codepoint { codepoint: 0x12E5, name: "ETHIOPIC SYLLABLE ZHE", aliases: &[] },
        Codepoint { codepoint: 0x12E6, name: "ETHIOPIC SYLLABLE ZHO", aliases: &[] },
        Codepoint { codepoint: 0x12E7, name: "ETHIOPIC SYLLABLE ZHWA", aliases: &[] },
        Codepoint { codepoint: 0x12E8, name: "ETHIOPIC SYLLABLE YA", aliases: &[] },
        Codepoint { codepoint: 0x12E9, name: "ETHIOPIC SYLLABLE YU", aliases: &[] },
        Codepoint { codepoint: 0x12EA, name: "ETHIOPIC SYLLABLE YI", aliases: &[] },
        Codepoint { codepoint: 0x12EB, name: "ETHIOPIC SYLLABLE YAA", aliases: &[] },
        Codepoint { codepoint: 0x12EC, name: "ETHIOPIC SYLLABLE YEE", aliases: &[] },
        Codepoint { codepoint: 0x12ED, name: "ETHIOPIC SYLLABLE YE", aliases: &[] },
        Codepoint { codepoint: 0x12EE, name: "ETHIOPIC SYLLABLE YO", aliases: &[] },
        Codepoint { codepoint: 0x12EF, name: "ETHIOPIC SYLLABLE YOA", aliases: &[] },
        Codepoint { codepoint: 0x12F0, name: "ETHIOPIC SYLLABLE DA", aliases: &[] },
        Codepoint { codepoint: 0x12F1, name: "ETHIOPIC SYLLABLE DU", aliases: &[] },
        Codepoint { codepoint: 0x12F2, name: "ETHIOPIC SYLLABLE DI", aliases: &[] },
        Codepoint { codepoint: 0x12F3, name: "ETHIOPIC SYLLABLE DAA", aliases: &[] },
        Codepoint { codepoint: 0x12F4, name: "ETHIOPIC SYLLABLE DEE", aliases: &[] },
        Codepoint { codepoint: 0x12F5, name: "ETHIOPIC SYLLABLE DE", aliases: &[] },
        Codepoint { codepoint: 0x12F6, name: "ETHIOPIC SYLLABLE DO", aliases: &[] },
        Codepoint { codepoint: 0x12F7, name: "ETHIOPIC SYLLABLE DWA", aliases: &[] },
        Codepoint { codepoint: 0x12F8, name: "ETHIOPIC SYLLABLE DDA", aliases: &[] },
        Codepoint { codepoint: 0x12F9, name: "ETHIOPIC SYLLABLE DDU", aliases: &[] },
        Codepoint { codepoint: 0x12FA, name: "ETHIOPIC SYLLABLE DDI", aliases: &[] },
        Codepoint { codepoint: 0x12FB, name: "ETHIOPIC SYLLABLE DDAA", aliases: &[] },
        Codepoint { codepoint: 0x12FC, name: "ETHIOPIC SYLLABLE DDEE", aliases: &[] },
        Codepoint { codepoint: 0x12FD, name: "ETHIOPIC SYLLABLE DDE", aliases: &[] },
        Codepoint { codepoint: 0x12FE, name: "ETHIOPIC SYLLABLE DDO", aliases: &[] },
        Codepoint { codepoint: 0x12FF, name: "ETHIOPIC SYLLABLE DDWA", aliases: &[] },
        Codepoint { codepoint: 0x1300, name: "ETHIOPIC SYLLABLE JA", aliases: &[] },
        Codepoint { codepoint: 0x1301, name: "ETHIOPIC SYLLABLE JU", aliases: &[] },
        Codepoint { codepoint: 0x1302, name: "ETHIOPIC SYLLABLE JI", aliases: &[] },
        Codepoint { codepoint: 0x1303, name: "ETHIOPIC SYLLABLE JAA", aliases: &[] },
        Codepoint { codepoint: 0x1304, name: "ETHIOPIC SYLLABLE JEE", aliases: &[] },
        Codepoint { codepoint: 0x1305, name: "ETHIOPIC SYLLABLE JE", aliases: &[] },
        Codepoint { codepoint: 0x1306, name: "ETHIOPIC SYLLABLE JO", aliases: &[] },
        Codepoint { codepoint: 0x1307, name: "ETHIOPIC SYLLABLE JWA", aliases: &[] },
        Codepoint { codepoint: 0x1308, name: "ETHIOPIC SYLLABLE GA", aliases: &[] },
        Codepoint { codepoint: 0x1309, name: "ETHIOPIC SYLLABLE GU", aliases: &[] },
        Codepoint { codepoint: 0x130A, name: "ETHIOPIC SYLLABLE GI", aliases: &[] },
        Codepoint { codepoint: 0x130B, name: "ETHIOPIC SYLLABLE GAA", aliases: &[] },
    ]
}

fn all_codepoints_107() -> (v: Vec<Codepoint>)
    ensures
        v@ == codepoint_table_107(),
{
    let v = vec![
        Codepoint { codepoint: 0x12E4, name: "ETHIOPIC SYLLABLE ZHEE", aliases: &[] },
        Codepoint { codepoint: 0x12E5, name: "ETHIOPIC SYLLABLE ZHE", aliases: &[] },
        Codepoint { codepoint: 0x12E6, name: "ETHIOPIC SYLLABLE ZHO", aliases: &[] },
        Codepoint { codepoint: 0x12E7, name: "ETHIOPIC SYLLABLE ZHWA", aliases: &[] },
        Codepoint { codepoint: 0x12E8, name: "ETHIOPIC SYLLABLE YA", aliases: &[] },
        Codepoint { codepoint: 0x12E9, name: "ETHIOPIC SYLLABLE YU", aliases: &[] },
        Codepoint { codepoint: 0x12EA, name: "ETHIOPIC SYLLABLE YI", aliases: &[] },
        Codepoint { codepoint: 0x12EB, name: "ETHIOPIC SYLLABLE YAA", aliases: &[] },
        Codepoint { codepoint: 0x12EC, name: "ETHIOPIC SYLLABLE YEE", aliases: &[] },
        Codepoint { codepoint: 0x12ED, name: "ETHIOPIC SYLLABLE YE", aliases: &[] },
        Codepoint { codepoint: 0x12EE, name: "ETHIOPIC SYLLABLE YO", aliases: &[] },
        Codepoint { codepoint: 0x12EF, name: "ETHIOPIC SYLLABLE YOA", aliases: &[] },
        Codepoint { codepoint: 0x12F0, name: "ETHIOPIC SYLLABLE DA", aliases: &[] },
        Codepoint { codepoint: 0x12F1, name: "ETHIOPIC SYLLABLE DU", aliases: &[] },
        Codepoint { codepoint: 0x12F2, name: "ETHIOPIC SYLLABLE DI", aliases: &[] },
        Codepoint { codepoint: 0x12F3, name: "ETHIOPIC SYLLABLE DAA", aliases: &[] },
        Codepoint { codepoint: 0x12F4, name: "ETHIOPIC SYLLABLE DEE", aliases: &[] },
        Codepoint { codepoint: 0x12F5, name: "ETHIOPIC SYLLABLE DE", aliases: &[] },
        Codepoint { codepoint: 0x12F6, name: "ETHIOPIC SYLLABLE DO", aliases: &[] },
        Codepoint { codepoint: 0x12F7, name: "ETHIOPIC SYLLABLE DWA", aliases: &[] },
        Codepoint { codepoint: 0x12F8, name: "ETHIOPIC SYLLABLE DDA", aliases: &[] },
        Codepoint { codepoint: 0x12F9, name: "ETHIOPIC SYLLABLE DDU", aliases: &[] },
        Codepoint { codepoint: 0x12FA, name: "ETHIOPIC SYLLABLE DDI", aliases: &[] },
        Codepoint { codepoint: 0x12FB, name: "ETHIOPIC SYLLABLE DDAA", aliases: &[] },
        Codepoint { codepoint: 0x12FC, name: "ETHIOPIC SYLLABLE DDEE", aliases: &[] },
        Codepoint { codepoint: 0x12FD, name: "ETHIOPIC SYLLABLE DDE", aliases: &[] },
        Codepoint { codepoint: 0x12FE, name: "ETHIOPIC SYLLABLE DDO", aliases: &[] },
        Codepoint { codepoint: 0x12FF, name: "ETHIOPIC SYLLABLE DDWA", aliases: &[] },
        Codepoint { codepoint: 0x1300, name: "ETHIOPIC SYLLABLE JA", aliases: &[] },
        Codepoint { codepoint: 0x1301, name: "ETHIOPIC SYLLABLE JU", aliases: &[] },
        Codepoint { codepoint: 0x1302, name: "ETHIOPIC SYLLABLE JI", aliases: &[] },
        Codepoint { codepoint: 0x1303, name: "ETHIOPIC SYLLABLE JAA", aliases: &[] },
        Codepoint { codepoint: 0x1304, name: "ETHIOPIC SYLLABLE JEE", aliases: &[] },
        Codepoint { codepoint: 0x1305, name: "ETHIOPIC SYLLABLE JE", aliases: &[] },
        Codepoint { codepoint: 0x1306, name: "ETHIOPIC SYLLABLE JO", aliases: &[] },
        Codepoint { codepoint: 0x1307, name: "ETHIOPIC SYLLABLE JWA", aliases: &[] },
        Codepoint { codepoint: 0x1308, name: "ETHIOPIC SYLLABLE GA", aliases: &[] },
        Codepoint { codepoint: 0x1309, name: "ETHIOPIC SYLLABLE GU", aliases: &[] },
        Codepoint { codepoint: 0x130A, name: "ETHIOPIC SYLLABLE GI", aliases: &[] },
        Codepoint { codepoint: 0x130B, name: "ETHIOPIC SYLLABLE GAA", aliases: &[] },
    ];
    assert(v@ =~= codepoint_table_107());
    v
}

pub open spec fn codepoint_table_108() -> Seq<Codepoint> {
    seq![
        Codepoint { codepoint: 0x130C, name: "ETHIOPIC SYLLABLE GEE", aliases: &[] },
        Codepoint { codepoint: 0x130D, name: "ETHIOPIC SYLLABLE GE", aliases: &[] },
        Codepoint { codepoint: 0x130E, name: "ETHIOPIC SYLLABLE GO", aliases: &[] },
        Codepoint { codepoint: 0x130F, name: "ETHIOPIC SYLLABLE GOA", aliases: &[] },
        Codepoint { codepoint: 0x1310, name: "ETHIOPIC SYLLABLE GWA", aliases: &[] },
        Codepoint { codepoint: 0x1312, name: "ETHIOPIC SYLLABLE GWI", aliases: &[] },
        Codepoint { codepoint: 0x1313, name: "ETHIOPIC SYLLABLE GWAA", aliases: &[] },
        Codepoint { codepoint: 0x1314, name: "ETHIOPIC SYLLABLE GWEE", aliases: &[] },
        Codepoint { codepoint: 0x1315, name: "ETHIOPIC SYLLABLE GWE", aliases: &[] },
        Codepoint { codepoint: 0x1318, name: "ETHIOPIC SYLLABLE GGA", aliases: &[] },
        Codepoint { codepoint: 0x1319, name: "ETHIOPIC SYLLABLE GGU", aliases: &[] },
        Codepoint { codepoint: 0x131A, name: "ETHIOPIC SYLLABLE GGI", aliases: &[] },
        Codepoint { codepoint: 0x131B, name: "ETHIOPIC SYLLABLE GGAA", aliases: &[] },
        Codepoint { codepoint: 0x131C, name: "ETHIOPIC SYLLABLE GGEE", aliases: &[] },
        Codepoint { codepoint: 0x131D, name: "ETHIOPIC SYLLABLE GGE", aliases: &[] },
        Codepoint { codepoint: 0x131E, name: "ETHIOPIC SYLLABLE GGO", aliases: &[] },
        Codepoint { codepoint: 0x131F, name: "ETHIOPIC SYLLABLE GGWAA", aliases: &[] },
        Codepoint { codepoint: 0x1320, name: "ETHIOPIC SYLLABLE THA", aliases: &[] },
        Codepoint { codepoint: 0x1321, name: "ETHIOPIC SYLLABLE THU", aliases: &[] },
        Codepoint { codepoint: 0x1322, name: "ETHIOPIC SYLLABLE THI", aliases: &[] },
        Codepoint { codepoint: 0x1323, name: "ETHIOPIC SYLLABLE THAA", aliases: &[] },
        Codepoint { codepoint: 0x1324, name: "ETHIOPIC SYLLABLE THEE", aliases: &[] },
        Codepoint { codepoint: 0x1325, name: "ETHIOPIC SYLLABLE THE", aliases: &[] },
        Codepoint { codepoint: 0x1326, name: "ETHIOPIC SYLLABLE THO", aliases: &[] },
        Codepoint { codepoint: 0x1327, name: "ETHIOPIC SYLLABLE THWA", aliases: &[] },
        Codepoint { codepoint: 0x1328, name: "ETHIOPIC SYLLABLE CHA", aliases: &[] },
        Codepoint { codepoint: 0x1329, name: "ETHIOPIC SYLLABLE CHU", aliases: &[] },
        Codepoint { codepoint: 0x132A, name: "ETHIOPIC SYLLABLE CHI", aliases: &[] },
        Codepoint { codepoint: 0x132B, name: "ETHIOPIC SYLLABLE CHAA", aliases: &[] },
        Codepoint { codepoint: 0x132C, name: "ETHIOPIC SYLLABLE CHEE", aliases: &[] },
        Codepoint { codepoint: 0x132D, name: "ETHIOPIC SYLLABLE CHE", aliases: &[] },
        Codepoint { codepoint: 0x132E, name: "ETHIOPIC SYLLABLE CHO", aliases: &[] },
        Codepoint { codepoint: 0x132F, name: "ETHIOPIC SYLLABLE CHWA", aliases: &[] },
        Codepoint { codepoint: 0x1330, name: "ETHIOPIC SYLLABLE PHA", aliases: &[] },
        Codepoint { codepoint: 0x1331, name: "ETHIOPIC SYLLABLE PHU", aliases: &[] },
        Codepoint { codepoint: 0x1332, name: "ETHIOPIC SYLLABLE PHI", aliases: &[] },
        Codepoint { codepoint: 0x1333, name: "ETHIOPIC SYLLABLE PHAA", aliases: &[] },
        Codepoint { codepoint: 0x1334, name: "ETHIOPIC SYLLABLE PHEE", aliases: &[] },
        Codepoint { codepoint: 0x1335, name: "ETHIOPIC SYLLABLE PHE", aliases: &[] },
        Codepoint { codepoint: 0x1336, name: "ETHIOPIC SYLLABLE PHO", aliases: &[] },
    ]
}

fn all_codepoints_108() -> (v: Vec<Codepoint>)
    ensures
        v@ == codepoint_table_108(),
{
    let v = vec![
        Codepoint { codepoint: 0x130C, name: "ETHIOPIC SYLLABLE GEE", aliases: &[] },
        Codepoint { codepoint: 0x130D, name: "ETHIOPIC SYLLABLE GE", aliases: &[] },
        Codepoint { codepoint: 0x130E, name: "ETHIOPIC SYLLABLE GO", aliases: &[] },
        Codepoint { codepoint: 0x130F, name: "ETHIOPIC SYLLABLE GOA", aliases: &[] },
        Codepoint { codepoint: 0x1310, name: "ETHIOPIC SYLLABLE GWA", aliases: &[] },
        Codepoint { codepoint: 0x1312, name: "ETHIOPIC SYLLABLE GWI", aliases: &[] },
        Codepoint { codepoint: 0x1313, name: "ETHIOPIC SYLLABLE GWAA", aliases: &[] },
        Codepoint { codepoint: 0x1314, name: "ETHIOPIC SYLLABLE GWEE", aliases: &[] },
        Codepoint { codepoint: 0x1315, name: "ETHIOPIC SYLLABLE GWE", aliases: &[] },
        Codepoint { codepoint: 0x1318, name: "ETHIOPIC SYLLABLE GGA", aliases: &[] },
        Codepoint { codepoint: 0x1319, name: "ETHIOPIC SYLLABLE GGU", aliases: &[] },
        Codepoint { codepoint: 0x131A, name: "ETHIOPIC SYLLABLE GGI", aliases: &[] },
        Codepoint { codepoint: 0x131B, name: "ETHIOPIC SYLLABLE GGAA", aliases: &[] },
        Codepoint { codepoint: 0x131C, name: "ETHIOPIC SYLLABLE GGEE", aliases: &[] },
        Codepoint { codepoint: 0x131D, name: "ETHIOPIC SYLLABLE GGE", aliases: &[] },
        Codepoint { codepoint: 0x131E, name: "ETHIOPIC SYLLABLE GGO", aliases: &[] },
        Codepoint { codepoint: 0x131F, name: "ETHIOPIC SYLLABLE GGWAA", aliases: &[] },
        Codepoint { codepoint: 0x1320, name: "ETHIOPIC SYLLABLE THA", aliases: &[] },
        Codepoint { codepoint: 0x1321, name: "ETHIOPIC SYLLABLE THU", aliases: &[] },
        Codepoint { codepoint: 0x1322, name: "ETHIOPIC SYLLABLE THI", aliases: &[] },
        Codepoint { codepoint: 0x1323, name: "ETHIOPIC SYLLABLE THAA", aliases: &[] },
        Codepoint { codepoint: 0x1324, name: "ETHIOPIC SYLLABLE THEE", aliases: &[] },
        Codepoint { codepoint: 0x1325, name: "ETHIOPIC SYLLABLE THE", aliases: &[] },
        Codepoint { codepoint: 0x1326, name: "ETHIOPIC SYLLABLE THO", aliases: &[] },
        Codepoint { codepoint: 0x1327, name: "ETHIOPIC SYLLABLE THWA", aliases: &[] },
        Codepoint { codepoint: 0x1328, name: "ETHIOPIC SYLLABLE CHA", aliases: &[] },
        Codepoint { codepoint: 0x1329, name: "ETHIOPIC SYLLABLE CHU", aliases: &[] },
        Codepoint { codepoint: 0x132A, name: "ETHIOPIC SYLLABLE CHI", aliases: &[] },
        Codepoint { codepoint: 0x132B, name: "ETHIOPIC SYLLABLE CHAA", aliases: &[] },
        Codepoint { codepoint: 0x132C, name: "ETHIOPIC SYLLABLE CHEE", aliases: &[] },
        Codepoint { codepoint: 0x132D, name: "ETHIOPIC SYLLABLE CHE", aliases: &[] },
        Codepoint { codepoint: 0x132E, name: "ETHIOPIC SYLLABLE CHO", aliases: &[] },
        Codepoint { codepoint: 0x132F, name: "ETHIOPIC SYLLABLE CHWA", aliases: &[] },
        Codepoint { codepoint: 0x1330, name: "ETHIOPIC SYLLABLE PHA", aliases: &[] },
        Codepoint { codepoint: 0x1331, name: "ETHIOPIC SYLLABLE PHU", aliases: &[] },
        Codepoint { codepoint: 0x1332, name: "ETHIOPIC SYLLABLE PHI", aliases: &[] },
        Codepoint { codepoint: 0x1333, name: "ETHIOPIC SYLLABLE PHAA", aliases: &[] },
        Codepoint { codepoint: 0x1334, name: "ETHIOPIC SYLLABLE PHEE", aliases: &[] },
        Codepoint { codepoint: 0x1335, name: "ETHIOPIC SYLLABLE PHE", aliases: &[] },
        Codepoint { codepoint: 0x1336, name: "ETHIOPIC SYLLABLE PHO", aliases: &[] },
    ];
    assert(v@ =~= codepoint_table_108());
    v
}

pub open spec fn codepoint_table_109() -> Seq<Codepoint> {
    seq![
        Codepoint { codepoint: 0x1337, name: "ETHIOPIC SYLLABLE PHWA", aliases: &[] },
        Codepoint { codepoint: 0x1338, name: "ETHIOPIC SYLLABLE TSA", aliases: &[] },
        Codepoint { codepoint: 0x1339, name: "ETHIOPIC SYLLABLE TSU", aliases: &[] },
        Codepoint { codepoint: 0x133A, name: "ETHIOPIC SYLLABLE TSI", aliases: &[] },
        Codepoint { codepoint: 0x133B, name: "ETHIOPIC SYLLABLE TSAA", aliases: &[] },
        Codepoint { codepoint: 0x133C, name: "ETHIOPIC SYLLABLE TSEE", aliases: &[] },
        Codepoint { codepoint: 0x133D, name: "ETHIOPIC SYLLABLE TSE", aliases: &[] },
        Codepoint { codepoint: 0x133E, name: "ETHIOPIC SYLLABLE TSO", aliases: &[] },
        Codepoint { codepoint: 0x133F, name: "ETHIOPIC SYLLABLE TSWA", aliases: &[] },
        Codepoint { codepoint: 0x1340, name: "ETHIOPIC SYLLABLE TZA", aliases: &[] },
        Codepoint { codepoint: 0x1341, name: "ETHIOPIC SYLLABLE TZU", aliases: &[] },
        Codepoint { codepoint: 0x1342, name: "ETHIOPIC SYLLABLE TZI", aliases: &[] },
        Codepoint { codepoint: 0x1343, name: "ETHIOPIC SYLLABLE TZAA", aliases: &[] },
        Codepoint { codepoint: 0x1344, name: "ETHIOPIC SYLLABLE TZEE", aliases: &[] },
        Codepoint { codepoint: 0x1345, name: "ETHIOPIC SYLLABLE TZE", aliases: &[] },
        Codepoint { codepoint: 0x1346, name: "ETHIOPIC SYLLABLE TZO", aliases: &[] },
        Codepoint { codepoint: 0x1347, name: "ETHIOPIC SYLLABLE TZOA", aliases: &[] },
        Codepoint { codepoint: 0x1348, name: "ETHIOPIC SYLLABLE FA", aliases: &[] },
        Codepoint { codepoint: 0x1349, name: "ETHIOPIC SYLLABLE FU", aliases: &[] },
        Codepoint { codepoint: 0x134A, name: "ETHIOPIC SYLLABLE FI", aliases: &[] },
        Codepoint { codepoint: 0x134B, name: "ETHIOPIC SYLLABLE FAA", aliases: &[] },
        Codepoint { codepoint: 0x134C, name: "ETHIOPIC SYLLABLE FEE", aliases: &[] },
        Codepoint { codepoint: 0x134D, name: "ETHIOPIC SYLLABLE FE", aliases: &[] },
        Codepoint { codepoint: 0x134E, name: "ETHIOPIC SYLLABLE FO", aliases: &[] },
        Codepoint { codepoint: 0x134F, name: "ETHIOPIC SYLLABLE FWA", aliases: &[] },
        Codepoint { codepoint: 0x1350, name: "ETHIOPIC SYLLABLE PA", aliases: &[] },
        Codepoint { codepoint: 0x1351, name: "ETHIOPIC SYLLABLE PU", aliases: &[] },
        Codepoint { codepoint: 0x1352, name: "ETHIOPIC SYLLABLE PI", aliases: &[] },
        Codepoint { codepoint: 0x1353, name: "ETHIOPIC SYLLABLE PAA", aliases: &[] },
        Codepoint { codepoint: 0x1354, name: "ETHIOPIC SYLLABLE PEE", aliases: &[] },
        Codepoint { codepoint: 0x1355, name: "ETHIOPIC SYLLABLE PE", aliases: &[] },
        Codepoint { codepoint: 0x1356, name: "ETHIOPIC SYLLABLE PO", aliases: &[] },
        Codepoint { codepoint: 0x1357, name: "ETHIOPIC SYLLABLE PWA", aliases: &[] },
        Codepoint { codepoint: 0x1358, name: "ETHIOPIC SYLLABLE RYA", aliases: &[] },
        Codepoint { codepoint: 0x1359, name: "ETHIOPIC SYLLABLE MYA", aliases: &[] },
        Codepoint { codepoint: 0x135A, name: "ETHIOPIC SYLLABLE FYA", aliases: &[] },
        Codepoint { codepoint: 0x135D, name: "ETHIOPIC COMBINING GEMINATION AND VOWEL LENGTH MARK", aliases: &[] },
        Codepoint { codepoint: 0x135E, name: "ETHIOPIC COMBINING VOWEL LENGTH MARK", aliases: &[] },
        Codepoint { codepoint: 0x135F, name: "ETHIOPIC COMBINING GEMINATION MARK", aliases: &[] },
        Codepoint { codepoint: 0x1360, name: "ETHIOPIC SECTION MARK", aliases: &[] },
    ]
}

fn all_codepoints_109() -> (v: Vec<Codepoint>)
    ensures
        v@ == codepoint_table_109(),
{
    let v = vec![
        Codepoint { codepoint: 0x1337, name: "ETHIOPIC SYLLABLE PHWA", aliases: &[] },
        Codepoint { codepoint: 0x1338, name: "ETHIOPIC SYLLABLE TSA", aliases: &[] },
        Codepoint { codepoint: 0x1339, name: "ETHIOPIC SYLLABLE TSU", aliases: &[] },
        Codepoint { codepoint: 0x133A, name: "ETHIOPIC SYLLABLE TSI", aliases: &[] },
        Codepoint { codepoint: 0x133B, name: "ETHIOPIC SYLLABLE TSAA", aliases: &[] },
        Codepoint { codepoint: 0x133C, name: "ETHIOPIC SYLLABLE TSEE", aliases: &[] },
        Codepoint { codepoint: 0x133D, name: "ETHIOPIC SYLLABLE TSE", aliases: &[] },
        Codepoint { codepoint: 0x133E, name: "ETHIOPIC SYLLABLE TSO", aliases: &[] },
        Codepoint { codepoint: 0x133F, name: "ETHIOPIC SYLLABLE TSWA", aliases: &[] },
        Codepoint { codepoint: 0x1340, name: "ETHIOPIC SYLLABLE TZA", aliases: &[] },
        Codepoint { codepoint: 0x1341, name: "ETHIOPIC SYLLABLE TZU", aliases: &[] },
        Codepoint { codepoint: 0x1342, name: "ETHIOPIC SYLLABLE TZI", aliases: &[] },
        Codepoint { codepoint: 0x1343, name: "ETHIOPIC SYLLABLE TZAA", aliases: &[] },
        Codepoint { codepoint: 0x1344, name: "ETHIOPIC SYLLABLE TZEE", aliases: &[] },
        Codepoint { codepoint: 0x1345, name: "ETHIOPIC SYLLABLE TZE", aliases: &[] },
        Codepoint { codepoint: 0x1346, name: "ETHIOPIC SYLLABLE TZO", aliases: &[] },
        Codepoint { codepoint: 0x1347, name: "ETHIOPIC SYLLABLE TZOA", aliases: &[] },
        Codepoint { codepoint: 0x1348, name: "ETHIOPIC SYLLABLE FA", aliases: &[] },
        Codepoint { codepoint: 0x1349, name: "ETHIOPIC SYLLABLE FU", aliases: &[] },
        Codepoint { codepoint: 0x134A, name: "ETHIOPIC SYLLABLE FI", aliases: &[] },
        Codepoint { codepoint: 0x134B, name: "ETHIOPIC SYLLABLE FAA", aliases: &[] },
        Codepoint { codepoint: 0x134C, name: "ETHIOPIC SYLLABLE FEE", aliases: &[] },
        Codepoint { codepoint: 0x134D, name: "ETHIOPIC SYLLABLE FE", aliases: &[] },
        Codepoint { codepoint: 0x134E, name: "ETHIOPIC SYLLABLE FO", aliases: &[] },
        Codepoint { codepoint: 0x134F, name: "ETHIOPIC SYLLABLE FWA", aliases: &[] },
        Codepoint { codepoint: 0x1350, name: "ETHIOPIC SYLLABLE PA", aliases: &[] },
        Codepoint { codepoint: 0x1351, name: "ETHIOPIC SYLLABLE PU", aliases: &[] },
        Codepoint { codepoint: 0x1352, name: "ETHIOPIC SYLLABLE PI", aliases: &[] },
        Codepoint { codepoint: 0x1353, name: "ETHIOPIC SYLLABLE PAA", aliases: &[] },
        Codepoint { codepoint: 0x1354, name: "ETHIOPIC SYLLABLE PEE", aliases: &[] },
        Codepoint { codepoint: 0x1355, name: "ETHIOPIC SYLLABLE PE", aliases: &[] },
        Codepoint { codepoint: 0x1356, name: "ETHIOPIC SYLLABLE PO", aliases: &[] },
        Codepoint { codepoint: 0x1357, name: "ETHIOPIC SYLLABLE PWA", aliases: &[] },
        Codepoint { codepoint: 0x1358, name: "ETHIOPIC SYLLABLE RYA", aliases: &[] },
        Codepoint { codepoint: 0x1359, name: "ETHIOPIC SYLLABLE MYA", aliases: &[] },
        Codepoint { codepoint: 0x135A, name: "ETHIOPIC SYLLABLE FYA", aliases: &[] },
        Codepoint { codepoint: 0x135D, name: "ETHIOPIC COMBINING GEMINATION AND VOWEL LENGTH MARK", aliases: &[] },
        Codepoint { codepoint: 0x135E, name: "ETHIOPIC COMBINING VOWEL LENGTH MARK", aliases: &[] },
        Codepoint { codepoint: 0x135F, name: "ETHIOPIC COMBINING GEMINATION MARK", aliases: &[] },
        Codepoint { codepoint: 0x1360, name: "ETHIOPIC SECTION MARK", aliases: &[] },
    ];
    assert(v@ =~= codepoint_table_109());
    v
}

pub open spec fn codepoint_table_110() -> Seq<Codepoint> {
    seq![
        Codepoint { codepoint: 0x1361, name: "ETHIOPIC WORDSPACE", aliases: &[] },
        Codepoint { codepoint: 0x1362, name: "ETHIOPIC FULL STOP", aliases: &[] },
        Codepoint { codepoint: 0x1363, name: "ETHIOPIC COMMA", aliases: &[] },
        Codepoint { codepoint: 0x1364, name: "ETHIOPIC SEMICOLON", aliases: &[] },
        Codepoint { codepoint: 0x1365, name: "ETHIOPIC COLON", aliases: &[] },
        Codepoint { codepoint: 0x1366, name: "ETHIOPIC PREFACE COLON", aliases: &[] },
        Codepoint { codepoint: 0x1367, name: "ETHIOPIC QUESTION MARK", aliases: &[] },
        Codepoint { codepoint: 0x1368, name: "ETHIOPIC PARAGRAPH SEPARATOR", aliases: &[] },
        Codepoint { codepoint: 0x1369, name: "ETHIOPIC DIGIT ONE", aliases: &[] },
        Codepoint { codepoint: 0x136A, name: "ETHIOPIC DIGIT TWO", aliases: &[] },
        Codepoint { codepoint: 0x136B, name: "ETHIOPIC DIGIT THREE", aliases: &[] },
        Codepoint { codepoint: 0x136C, name: "ETHIOPIC DIGIT FOUR", aliases: &[] },
        Codepoint { codepoint: 0x136D, name: "ETHIOPIC DIGIT FIVE", aliases: &[] },
        Codepoint { codepoint: 0x136E, name: "ETHIOPIC DIGIT SIX", aliases: &[] },
        Codepoint { codepoint: 0x136F, name: "ETHIOPIC DIGIT SEVEN", aliases: &[] },
        Codepoint { codepoint: 0x1370, name: "ETHIOPIC DIGIT EIGHT", aliases: &[] },
        Codepoint { codepoint: 0x1371, name: "ETHIOPIC DIGIT NINE", aliases: &[] },
        Codepoint { codepoint: 0x1372, name: "ETHIOPIC NUMBER TEN", aliases: &[] },
        Codepoint { codepoint: 0x1373, name: "ETHIOPIC NUMBER TWENTY", aliases: &[] },
        Codepoint { codepoint: 0x1374, name: "ETHIOPIC NUMBER THIRTY", aliases: &[] },
        Codepoint { codepoint: 0x1375, name: "ETHIOPIC NUMBER FORTY", aliases: &[] },
        Codepoint { codepoint: 0x1376, name: "ETHIOPIC NUMBER FIFTY", aliases: &[] },
        Codepoint { codepoint: 0x1377, name: "ETHIOPIC NUMBER SIXTY", aliases: &[] },
        Codepoint { codepoint: 0x1378, name: "ETHIOPIC NUMBER SEVENTY", aliases: &[] },
        Codepoint { codepoint: 0x1379, name: "ETHIOPIC NUMBER EIGHTY", aliases: &[] },
        Codepoint { codepoint: 0x137A, name: "ETHIOPIC NUMBER NINETY", aliases: &[] },
        Codepoint { codepoint: 0x137B, name: "ETHIOPIC NUMBER HUNDRED", aliases: &[] },
        Codepoint { codepoint: 0x137C, name: "ETHIOPIC NUMBER TEN THOUSAND", aliases: &[] },
        Codepoint { codepoint: 0x1380, name: "ETHIOPIC SYLLABLE SEBATBEIT MWA", aliases: &[] },
        Codepoint { codepoint: 0x1381, name: "ETHIOPIC SYLLABLE MWI", aliases: &[] },
        Codepoint { codepoint: 0x1382, name: "ETHIOPIC SYLLABLE MWEE", aliases: &[] },
        Codepoint { codepoint: 0x1383, name: "ETHIOPIC SYLLABLE MWE", aliases: &[] },
        Codepoint { codepoint: 0x1384, name: "ETHIOPIC SYLLABLE SEBATBEIT BWA", aliases: &[] },
        Codepoint { codepoint: 0x1385, name: "ETHIOPIC SYLLABLE BWI", aliases: &[] },
        Codepoint { codepoint: 0x1386, name: "ETHIOPIC SYLLABLE BWEE", aliases: &[] },
        Codepoint { codepoint: 0x1387, name: "ETHIOPIC SYLLABLE BWE", aliases: &[] },
        Codepoint { codepoint: 0x1388, name: "ETHIOPIC SYLLABLE SEBATBEIT FWA", aliases: &[] },
        Codepoint { codepoint: 0x1389, name: "ETHIOPIC SYLLABLE FWI", aliases: &[] },
        Codepoint { codepoint: 0x138A, name: "ETHIOPIC SYLLABLE FWEE", aliases: &[] },
        Codepoint { codepoint: 0x138B, name: "ETHIOPIC SYLLABLE FWE", aliases: &[] },
    ]
}

fn all_codepoints_110() -> (v: Vec<Codepoint>)
    ensures
        v@ == codepoint_table_110(),
{
    let v = vec![
        Codepoint { codepoint: 0x1361, name: "ETHIOPIC WORDSPACE", aliases: &[] },
        Codepoint { codepoint: 0x1362, name: "ETHIOPIC FULL STOP", aliases: &[] },
        Codepoint { codepoint: 0x1363, name: "ETHIOPIC COMMA", aliases: &[] },
        Codepoint { codepoint: 0x1364, name: "ETHIOPIC SEMICOLON", aliases: &[] },
        Codepoint { codepoint: 0x1365, name: "ETHIOPIC COLON", aliases: &[] },
        Codepoint { codepoint: 0x1366, name: "ETHIOPIC PREFACE COLON", aliases: &[] },
        Codepoint { codepoint: 0x1367, name: "ETHIOPIC QUESTION MARK", aliases: &[] },
        Codepoint { codepoint: 0x1368, name: "ETHIOPIC PARAGRAPH SEPARATOR", aliases: &[] },
        Codepoint { codepoint: 0x1369, name: "ETHIOPIC DIGIT ONE", aliases: &[] },
        Codepoint { codepoint: 0x136A, name: "ETHIOPIC DIGIT TWO", aliases: &[] },
        Codepoint { codepoint: 0x136B, name: "ETHIOPIC DIGIT THREE", aliases: &[] },
        Codepoint { codepoint: 0x136C, name: "ETHIOPIC DIGIT FOUR", aliases: &[] },
        Codepoint { codepoint: 0x136D, name: "ETHIOPIC DIGIT FIVE", aliases: &[] },
        Codepoint { codepoint: 0x136E, name: "ETHIOPIC DIGIT SIX", aliases: &[] },
        Codepoint { codepoint: 0x136F, name: "ETHIOPIC DIGIT SEVEN", aliases: &[] },
        Codepoint { codepoint: 0x1370, name: "ETHIOPIC DIGIT EIGHT", aliases: &[] },
        Codepoint { codepoint: 0x1371, name: "ETHIOPIC DIGIT NINE", aliases: &[] },
        Codepoint { codepoint: 0x1372, name: "ETHIOPIC NUMBER TEN", aliases: &[] },
        Codepoint { codepoint: 0x1373, name: "ETHIOPIC NUMBER TWENTY", aliases: &[] },
        Codepoint { codepoint: 0x1374, name: "ETHIOPIC NUMBER THIRTY", aliases: &[] },
        Codepoint { codepoint: 0x1375, name: "ETHIOPIC NUMBER FORTY", aliases: &[] },
        Codepoint { codepoint: 0x1376, name: "ETHIOPIC NUMBER FIFTY", aliases: &[] },
        Codepoint { codepoint: 0x1377, name: "ETHIOPIC NUMBER SIXTY", aliases: &[] },
        Codepoint { codepoint: 0x1378, name: "ETHIOPIC NUMBER SEVENTY", aliases: &[] },
        Codepoint { codepoint: 0x1379, name: "ETHIOPIC NUMBER EIGHTY", aliases: &[] },
        Codepoint { codepoint: 0x137A, name: "ETHIOPIC NUMBER NINETY", aliases: &[] },
        Codepoint { codepoint: 0x137B, name: "ETHIOPIC NUMBER HUNDRED", aliases: &[] },
        Codepoint { codepoint: 0x137C, name: "ETHIOPIC NUMBER TEN THOUSAND", aliases: &[] },
        Codepoint { codepoint: 0x1380, name: "ETHIOPIC SYLLABLE SEBATBEIT MWA", aliases: &[] },
        Codepoint { codepoint: 0x1381, name: "ETHIOPIC SYLLABLE MWI", aliases: &[] },
        Codepoint { codepoint: 0x1382, name: "ETHIOPIC SYLLABLE MWEE", aliases: &[] },
        Codepoint { codepoint: 0x1383, name: "ETHIOPIC SYLLABLE MWE", aliases: &[] },
        Codepoint { codepoint: 0x1384, name: "ETHIOPIC SYLLABLE SEBATBEIT BWA", aliases: &[] },
        Codepoint { codepoint: 0x1385, name: "ETHIOPIC SYLLABLE BWI", aliases: &[] },
        Codepoint { codepoint: 0x1386, name: "ETHIOPIC SYLLABLE BWEE", aliases: &[] },
        Codepoint { codepoint: 0x1387, name: "ETHIOPIC SYLLABLE BWE", aliases: &[] },
        Codepoint { codepoint: 0x1388, name: "ETHIOPIC SYLLABLE SEBATBEIT FWA", aliases: &[] },
        Codepoint { codepoint: 0x1389, name: "ETHIOPIC SYLLABLE FWI", aliases: &[] },
        Codepoint { codepoint: 0x138A, name: "ETHIOPIC SYLLABLE FWEE", aliases: &[] },
        Codepoint { codepoint: 0x138B, name: "ETHIOPIC SYLLABLE FWE", aliases: &[] },
    ];
    assert(v@ =~= codepoint_table_110());
    v
}

pub open spec fn codepoint_table_111() -> Seq<Codepoint> {
    seq![
        Codepoint { codepoint: 0x138C, name: "ETHIOPIC SYLLABLE SEBATBEIT PWA", aliases: &[] },
        Codepoint { codepoint: 0x138D, name: "ETHIOPIC SYLLABLE PWI", aliases: &[] },
        Codepoint { codepoint: 0x138E, name: "ETHIOPIC SYLLABLE PWEE", aliases: &[] },
        Codepoint { codepoint: 0x138F, name: "ETHIOPIC SYLLABLE PWE", aliases: &[] },
        Codepoint { codepoint: 0x1390, name: "ETHIOPIC TONAL MARK YIZET", aliases: &[] },
        Codepoint { codepoint: 0x1391, name: "ETHIOPIC TONAL MARK DERET", aliases: &[] },
        Codepoint { codepoint: 0x1392, name: "ETHIOPIC TONAL MARK RIKRIK", aliases: &[] },
        Codepoint { codepoint: 0x1393, name: "ETHIOPIC TONAL MARK SHORT RIKRIK", aliases: &[] },
        Codepoint { codepoint: 0x1394, name: "ETHIOPIC TONAL MARK DIFAT", aliases: &[] },
        Codepoint { codepoint: 0x1395, name: "ETHIOPIC TONAL MARK KENAT", aliases: &[] },
        Codepoint { codepoint: 0x1396, name: "ETHIOPIC TONAL MARK CHIRET", aliases: &[] },
        Codepoint { codepoint: 0x1397, name: "ETHIOPIC TONAL MARK HIDET", aliases: &[] },
        Codepoint { codepoint: 0x1398, name: "ETHIOPIC TONAL MARK DERET-HIDET", aliases: &[] },
        Codepoint { codepoint: 0x1399, name: "ETHIOPIC TONAL MARK KURT", aliases: &[] },
        Codepoint { codepoint: 0x13A0, name: "CHEROKEE LETTER A", aliases: &[] },
        Codepoint { codepoint: 0x13A1, name: "CHEROKEE LETTER E", aliases: &[] },
        Codepoint { codepoint: 0x13A2, name: "CHEROKEE LETTER I", aliases: &[] },
        Codepoint { codepoint: 0x13A3, name: "CHEROKEE LETTER O", aliases: &[] },
        Codepoint { codepoint: 0x13A4, name: "CHEROKEE LETTER U", aliases: &[] },
        Codepoint { codepoint: 0x13A5, name: "CHEROKEE LETTER V", aliases: &[] },
        Codepoint { codepoint: 0x13A6, name: "CHEROKEE LETTER GA", aliases: &[] },
        Codepoint { codepoint: 0x13A7, name: "CHEROKEE LETTER KA", aliases: &[] },
        Codepoint { codepoint: 0x13A8, name: "CHEROKEE LETTER GE", aliases: &[] },
        Codepoint { codepoint: 0x13A9, name: "CHEROKEE LETTER GI", aliases: &[] },
        Codepoint { codepoint: 0x13AA, name: "CHEROKEE LETTER GO", aliases: &[] },
        Codepoint { codepoint: 0x13AB, name: "CHEROKEE LETTER GU", aliases: &[] },
        Codepoint { codepoint: 0x13AC, name: "CHEROKEE LETTER GV", aliases: &[] },
        Codepoint { codepoint: 0x13AD, name: "CHEROKEE LETTER HA", aliases: &[] },
        Codepoint { codepoint: 0x13AE, name: "CHEROKEE LETTER HE", aliases: &[] },
        Codepoint { codepoint: 0x13AF, name: "CHEROKEE LETTER HI", aliases: &[] },
        Codepoint { codepoint: 0x13B0, name: "CHEROKEE LETTER HO", aliases: &[] },
        Codepoint { codepoint: 0x13B1, name: "CHEROKEE LETTER HU", aliases: &[] },
        Codepoint { codepoint: 0x13B2, name: "CHEROKEE LETTER HV", aliases: &[] },
        Codepoint { codepoint: 0x13B3, name: "CHEROKEE LETTER LA", aliases: &[] },
        Codepoint { codepoint: 0x13B4, name: "CHEROKEE LETTER LE", aliases: &[] },
        Codepoint { codepoint: 0x13B5, name: "CHEROKEE LETTER LI", aliases: &[] },
        Codepoint { codepoint: 0x13B6, name: "CHEROKEE LETTER LO", aliases: &[] },
        Codepoint { codepoint: 0x13B7, name: "CHEROKEE LETTER LU", aliases: &[] },
        Codepoint { codepoint: 0x13B8, name: "CHEROKEE LETTER LV", aliases: &[] },
        Codepoint { codepoint: 0x13B9, name: "CHEROKEE LETTER MA", aliases: &[] },
    ]
}

fn all_codepoints_111() -> (v: Vec<Codepoint>)
    ensures
        v@ == codepoint_table_111(),
{
    let v = vec![
        Codepoint { codepoint: 0x138C, name: "ETHIOPIC SYLLABLE SEBATBEIT PWA", aliases: &[] },
        Codepoint { codepoint: 0x138D, name: "ETHIOPIC SYLLABLE PWI", aliases: &[] },
        Codepoint { codepoint: 0x138E, name: "ETHIOPIC SYLLABLE PWEE", aliases: &[] },
        Codepoint { codepoint: 0x138F, name: "ETHIOPIC SYLLABLE PWE", aliases: &[] },
        Codepoint { codepoint: 0x1390, name: "ETHIOPIC TONAL MARK YIZET", aliases: &[] },
        Codepoint { codepoint: 0x1391, name: "ETHIOPIC TONAL MARK DERET", aliases: &[] },
        Codepoint { codepoint: 0x1392, name: "ETHIOPIC TONAL MARK RIKRIK", aliases: &[] },
        Codepoint { codepoint: 0x1393, name: "ETHIOPIC TONAL MARK SHORT RIKRIK", aliases: &[] },
        Codepoint { codepoint: 0x1394, name: "ETHIOPIC TONAL MARK DIFAT", aliases: &[] },
        Codepoint { codepoint: 0x1395, name: "ETHIOPIC TONAL MARK KENAT", aliases: &[] },
        Codepoint { codepoint: 0x1396, name: "ETHIOPIC TONAL MARK CHIRET", aliases: &[] },
        Codepoint { codepoint: 0x1397, name: "ETHIOPIC TONAL MARK HIDET", aliases: &[] },
        Codepoint { codepoint: 0x1398, name: "ETHIOPIC TONAL MARK DERET-HIDET", aliases: &[] },
        Codepoint { codepoint: 0x1399, name: "ETHIOPIC TONAL MARK KURT", aliases: &[] },
        Codepoint { codepoint: 0x13A0, name: "CHEROKEE LETTER A", aliases: &[] },
        Codepoint { codepoint: 0x13A1, name: "CHEROKEE LETTER E", aliases: &[] },
        Codepoint { codepoint: 0x13A2, name: "CHEROKEE LETTER I", aliases: &[] },
        Codepoint { codepoint: 0x13A3, name: "CHEROKEE LETTER O", aliases: &[] },
        Codepoint { codepoint: 0x13A4, name: "CHEROKEE LETTER U", aliases: &[] },
        Codepoint { codepoint: 0x13A5, name: "CHEROKEE LETTER V", aliases: &[] },
        Codepoint { codepoint: 0x13A6, name: "CHEROKEE LETTER GA", aliases: &[] },
        Codepoint { codepoint: 0x13A7, name: "CHEROKEE LETTER KA", aliases: &[] },
        Codepoint { codepoint: 0x13A8, name: "CHEROKEE LETTER GE", aliases: &[] },
        Codepoint { codepoint: 0x13A9, name: "CHEROKEE LETTER GI", aliases: &[] },
        Codepoint { codepoint: 0x13AA, name: "CHEROKEE LETTER GO", aliases: &[] },
        Codepoint { codepoint: 0x13AB, name: "CHEROKEE LETTER GU", aliases: &[] },
        Codepoint { codepoint: 0x13AC, name: "CHEROKEE LETTER GV", aliases: &[] },
        Codepoint { codepoint: 0x13AD, name: "CHEROKEE LETTER HA", aliases: &[] },
        Codepoint { codepoint: 0x13AE, name: "CHEROKEE LETTER HE", aliases: &[] },
        Codepoint { codepoint: 0x13AF, name: "CHEROKEE LETTER HI", aliases: &[] },
        Codepoint { codepoint: 0x13B0, name: "CHEROKEE LETTER HO", aliases: &[] },
        Codepoint { codepoint: 0x13B1, name: "CHEROKEE LETTER HU", aliases: &[] },
        Codepoint { codepoint: 0x13B2, name: "CHEROKEE LETTER HV", aliases: &[] },
        Codepoint { codepoint: 0x13B3, name: "CHEROKEE LETTER LA", aliases: &[] },
        Codepoint { codepoint: 0x13B4, name: "CHEROKEE LETTER LE", aliases: &[] },
        Codepoint { codepoint: 0x13B5, name: "CHEROKEE LETTER LI", aliases: &[] },
        Codepoint { codepoint: 0x13B6, name: "CHEROKEE LETTER LO", aliases: &[] },
        Codepoint { codepoint: 0x13B7, name: "CHEROKEE LETTER LU", aliases: &[] },
        Codepoint { codepoint: 0x13B8, name: "CHEROKEE LETTER LV", aliases: &[] },
        Codepoint { codepoint: 0x13B9, name: "CHEROKEE LETTER MA", aliases: &[] },
    ];
    assert(v@ =~= codepoint_table_111());
    v
}

pub open spec fn codepoint_table_112() -> Seq<Codepoint> {
    seq![
        Codepoint { codepoint: 0x13BA, name: "CHEROKEE LETTER ME", aliases: &[] },
        Codepoint { codepoint: 0x13BB, name: "CHEROKEE LETTER MI", aliases: &[] },
        Codepoint { codepoint: 0x13BC, name: "CHEROKEE LETTER MO", aliases: &[] },
        Codepoint { codepoint: 0x13BD, name: "CHEROKEE LETTER MU", aliases: &[] },
        Codepoint { codepoint: 0x13BE, name: "CHEROKEE LETTER NA", aliases: &[] },
        Codepoint { codepoint: 0x13BF, name: "CHEROKEE LETTER HNA", aliases: &[] },
        Codepoint { codepoint: 0x13C0, name: "CHEROKEE LETTER NAH", aliases: &[] },
        Codepoint { codepoint: 0x13C1, name: "CHEROKEE LETTER NE", aliases: &[] },
        Codepoint { codepoint: 0x13C2, name: "CHEROKEE LETTER NI", aliases: &[] },
        Codepoint { codepoint: 0x13C3, name: "CHEROKEE LETTER NO", aliases: &[] },
        Codepoint { codepoint: 0x13C4, name: "CHEROKEE LETTER NU", aliases: &[] },
        Codepoint { codepoint: 0x13C5, name: "CHEROKEE LETTER NV", aliases: &[] },
        Codepoint { codepoint: 0x13C6, name: "CHEROKEE LETTER QUA", aliases: &[] },
        Codepoint { codepoint: 0x13C7, name: "CHEROKEE LETTER QUE", aliases: &[] },
        Codepoint { codepoint: 0x13C8, name: "CHEROKEE LETTER QUI", aliases: &[] },
        Codepoint { codepoint: 0x13C9, name: "CHEROKEE LETTER QUO", aliases: &[] },
        Codepoint { codepoint: 0x13CA, name: "CHEROKEE LETTER QUU", aliases: &[] },
        Codepoint { codepoint: 0x13CB, name: "CHEROKEE LETTER QUV", aliases: &[] },
        Codepoint { codepoint: 0x13CC, name: "CHEROKEE LETTER SA", aliases: &[] },
        Codepoint { codepoint: 0x13CD, name: "CHEROKEE LETTER S", aliases: &[] },
        Codepoint { codepoint: 0x13CE, name: "CHEROKEE LETTER SE", aliases: &[] },
        Codepoint { codepoint: 0x13CF, name: "CHEROKEE LETTER SI", aliases: &[] },
        Codepoint { codepoint: 0x13D0, name: "CHEROKEE LETTER SO", aliases: &[] },
        Codepoint { codepoint: 0x13D1, name: "CHEROKEE LETTER SU", aliases: &[] },
        Codepoint { codepoint: 0x13D2, name: "CHEROKEE LETTER SV", aliases: &[] },
        Codepoint { codepoint: 0x13D3, name: "CHEROKEE LETTER DA", aliases: &[] },
        Codepoint { codepoint: 0x13D4, name: "CHEROKEE LETTER TA", aliases: &[] },
        Codepoint { codepoint: 0x13D5, name: "CHEROKEE LETTER DE", aliases: &[] },
        Codepoint { codepoint: 0x13D6, name: "CHEROKEE LETTER TE", aliases: &[] },
        Codepoint { codepoint: 0x13D7, name: "CHEROKEE LETTER DI", aliases: &[] },
        Codepoint { codepoint: 0x13D8, name: "CHEROKEE LETTER TI", aliases: &[] },
        Codepoint { codepoint: 0x13D9, name: "CHEROKEE LETTER DO", aliases: &[] },
        Codepoint { codepoint: 0x13DA, name: "CHEROKEE LETTER DU", aliases: &[] },
        Codepoint { codepoint: 0x13DB, name: "CHEROKEE LETTER DV", aliases: &[] },
        Codepoint { codepoint: 0x13DC, name: "CHEROKEE LETTER DLA", aliases: &[] },
        Codepoint { codepoint: 0x13DD, name: "CHEROKEE LETTER TLA", aliases: &[] },
        Codepoint { codepoint: 0x13DE, name: "CHEROKEE LETTER TLE", aliases: &[] },
        Codepoint { codepoint: 0x13DF, name: "CHEROKEE LETTER TLI", aliases: &[] },
        Codepoint { codepoint: 0x13E0, name: "CHEROKEE LETTER TLO", aliases: &[] },
        Codepoint { codepoint: 0x13E1, name: "CHEROKEE LETTER TLU", aliases: &[] },
    ]
}

fn all_codepoints_112() -> (v: Vec<Codepoint>)
    ensures
        v@ == codepoint_table_112(),
{
    let v = vec![
        Codepoint { codepoint: 0x13BA, name: "CHEROKEE LETTER ME", aliases: &[] },
        Codepoint { codepoint: 0x13BB, name: "CHEROKEE LETTER MI", aliases: &[] },
        Codepoint { codepoint: 0x13BC, name: "CHEROKEE LETTER MO", aliases: &[] },
        Codepoint { codepoint: 0x13BD, name: "CHEROKEE LETTER MU", aliases: &[] },
        Codepoint { codepoint: 0x13BE, name: "CHEROKEE LETTER NA", aliases: &[] },
        Codepoint { codepoint: 0x13BF, name: "CHEROKEE LETTER HNA", aliases: &[] },
        Codepoint { codepoint: 0x13C0, name: "CHEROKEE LETTER NAH", aliases: &[] },
        Codepoint { codepoint: 0x13C1, name: "CHEROKEE LETTER NE", aliases: &[] },
        Codepoint { codepoint: 0x13C2, name: "CHEROKEE LETTER NI", aliases: &[] },
        Codepoint { codepoint: 0x13C3, name: "CHEROKEE LETTER NO", aliases: &[] },
        Codepoint { codepoint: 0x13C4, name: "CHEROKEE LETTER NU", aliases: &[] },
        Codepoint { codepoint: 0x13C5, name: "CHEROKEE LETTER NV", aliases: &[] },
        Codepoint { codepoint: 0x13C6, name: "CHEROKEE LETTER QUA", aliases: &[] },
        Codepoint { codepoint: 0x13C7, name: "CHEROKEE LETTER QUE", aliases: &[] },
        Codepoint { codepoint: 0x13C8, name: "CHEROKEE LETTER QUI", aliases: &[] },
        Codepoint { codepoint: 0x13C9, name: "CHEROKEE LETTER QUO", aliases: &[] },
        Codepoint { codepoint: 0x13CA, name: "CHEROKEE LETTER QUU", aliases: &[] },
        Codepoint { codepoint: 0x13CB, name: "CHEROKEE LETTER QUV", aliases: &[] },
        Codepoint { codepoint: 0x13CC, name: "CHEROKEE LETTER SA", aliases: &[] },
        Codepoint { codepoint: 0x13CD, name: "CHEROKEE LETTER S", aliases: &[] },
        Codepoint { codepoint: 0x13CE, name: "CHEROKEE LETTER SE", aliases: &[] },
        Codepoint { codepoint: 0x13CF, name: "CHEROKEE LETTER SI", aliases: &[] },
        Codepoint { codepoint: 0x13D0, name: "CHEROKEE LETTER SO", aliases: &[] },
        Codepoint { codepoint: 0x13D1, name: "CHEROKEE LETTER SU", aliases: &[] },
        Codepoint { codepoint: 0x13D2, name: "CHEROKEE LETTER SV", aliases: &[] },
        Codepoint { codepoint: 0x13D3, name: "CHEROKEE LETTER DA", aliases: &[] },
        Codepoint { codepoint: 0x13D4, name: "CHEROKEE LETTER TA", aliases: &[] },
        Codepoint { codepoint: 0x13D5, name: "CHEROKEE LETTER DE", aliases: &[] },
        Codepoint { codepoint: 0x13D6, name: "CHEROKEE LETTER TE", aliases: &[] },
        Codepoint { codepoint: 0x13D7, name: "CHEROKEE LETTER DI", aliases: &[] },
        Codepoint { codepoint: 0x13D8, name: "CHEROKEE LETTER TI", aliases: &[] },
        Codepoint { codepoint: 0x13D9, name: "CHEROKEE LETTER DO", aliases: &[] },
        Codepoint { codepoint: 0x13DA, name: "CHEROKEE LETTER DU", aliases: &[] },
        Codepoint { codepoint: 0x13DB, name: "CHEROKEE LETTER DV", aliases: &[] },
        Codepoint { codepoint: 0x13DC, name: "CHEROKEE LETTER DLA", aliases: &[] },
        Codepoint { codepoint: 0x13DD, name: "CHEROKEE LETTER TLA", aliases: &[] },
        Codepoint { codepoint: 0x13DE, name: "CHEROKEE LETTER TLE", aliases: &[] },
        Codepoint { codepoint: 0x13DF, name: "CHEROKEE LETTER TLI", aliases: &[] },
        Codepoint { codepoint: 0x13E0, name: "CHEROKEE LETTER TLO", aliases: &[] },
        Codepoint { codepoint: 0x13E1, name: "CHEROKEE LETTER TLU", aliases: &[] },
    ];
    assert(v@ =~= codepoint_table_112());
    v
}

pub open spec fn codepoint_table_113() -> Seq<Codepoint> {
    seq![
        Codepoint { codepoint: 0x13E2, name: "CHEROKEE LETTER TLV", aliases: &[] },
        Codepoint { codepoint: 0x13E3, name: "CHEROKEE LETTER TSA", aliases: &[] },
        Codepoint { codepoint: 0x13E4, name: "CHEROKEE LETTER TSE", aliases: &[] },
        Codepoint { codepoint: 0x13E5, name: "CHEROKEE LETTER TSI", aliases: &[] },
        Codepoint { codepoint: 0x13E6, name: "CHEROKEE LETTER TSO", aliases: &[] },
        Codepoint { codepoint: 0x13E7, name: "CHEROKEE LETTER TSU", aliases: &[] },
        Codepoint { codepoint: 0x13E8, name: "CHEROKEE LETTER TSV", aliases: &[] },
        Codepoint { codepoint: 0x13E9, name: "CHEROKEE LETTER WA", aliases: &[] },
        Codepoint { codepoint: 0x13EA, name: "CHEROKEE LETTER WE", aliases: &[] },
        Codepoint { codepoint: 0x13EB, name: "CHEROKEE LETTER WI", aliases: &[] },
        Codepoint { codepoint: 0x13EC, name: "CHEROKEE LETTER WO", aliases: &[] },
        Codepoint { codepoint: 0x13ED, name: "CHEROKEE LETTER WU", aliases: &[] },
        Codepoint { codepoint: 0x13EE, name: "CHEROKEE LETTER WV", aliases: &[] },
        Codepoint { codepoint: 0x13EF, name: "CHEROKEE LETTER YA", aliases: &[] },
        Codepoint { codepoint: 0x13F0, name: "CHEROKEE LETTER YE", aliases: &[] },
        Codepoint { codepoint: 0x13F1, name: "CHEROKEE LETTER YI", aliases: &[] },
        Codepoint { codepoint: 0x13F2, name: "CHEROKEE LETTER YO", aliases: &[] },
        Codepoint { codepoint: 0x13F3, name: "CHEROKEE LETTER YU", aliases: &[] },
        Codepoint { codepoint: 0x13F4, name: "CHEROKEE LETTER YV", aliases: &[] },
        Codepoint { codepoint: 0x13F5, name: "CHEROKEE LETTER MV", aliases: &[] },
        Codepoint { codepoint: 0x13F8, name: "CHEROKEE SMALL LETTER YE", aliases: &[] },
        Codepoint { codepoint: 0x13F9, name: "CHEROKEE SMALL LETTER YI", aliases: &[] },
        Codepoint { codepoint: 0x13FA, name: "CHEROKEE SMALL LETTER YO", aliases: &[] },
        Codepoint { codepoint: 0x13FB, name: "CHEROKEE SMALL LETTER YU", aliases: &[] },
        Codepoint { codepoint: 0x13FC, name: "CHEROKEE SMALL LETTER YV", aliases: &[] },
        Codepoint { codepoint: 0x13FD, name: "CHEROKEE SMALL LETTER MV", aliases: &[] },
        Codepoint { codepoint: 0x1400, name: "CANADIAN SYLLABICS HYPHEN", aliases: &[] },
        Codepoint { codepoint: 0x1401, name: "CANADIAN SYLLABICS E", aliases: &[] },
        Codepoint { codepoint: 0x1402, name: "CANADIAN SYLLABICS AAI", aliases: &[] },
        Codepoint { codepoint: 0x1403, name: "CANADIAN SYLLABICS I", aliases: &[] },
        Codepoint { codepoint: 0x1404, name: "CANADIAN SYLLABICS II", aliases: &[] },
        Codepoint { codepoint: 0x1405, name: "CANADIAN SYLLABICS O", aliases: &[] },
        Codepoint { codepoint: 0x1406, name: "CANADIAN SYLLABICS OO", aliases: &[] },
        Codepoint { codepoint: 0x1407, name: "CANADIAN SYLLABICS Y-CREE OO", aliases: &[] },
        Codepoint { codepoint: 0x1408, name: "CANADIAN SYLLABICS CARRIER EE", aliases: &[] },
        Codepoint { codepoint: 0x1409, name: "CANADIAN SYLLABICS CARRIER I", aliases: &[] },
        Codepoint { codepoint: 0x140A, name: "CANADIAN SYLLABICS A", aliases: &[] },
        Codepoint { codepoint: 0x140B, name: "CANADIAN SYLLABICS AA", aliases: &[] },
        Codepoint { codepoint: 0x140C, name: "CANADIAN SYLLABICS WE", aliases: &[] },
        Codepoint { codepoint: 0x140D, name: "CANADIAN SYLLABICS WEST-CREE WE", aliases: &[] },
    ]
}

fn all_codepoints_113() -> (v: Vec<Codepoint>)
    ensures
        v@ == codepoint_table_113(),
{
    let v = vec![
        Codepoint { codepoint: 0x13E2, name: "CHEROKEE LETTER TLV", aliases: &[] },
        Codepoint { codepoint: 0x13E3, name: "CHEROKEE LETTER TSA", aliases: &[] },
        Codepoint { codepoint: 0x13E4, name: "CHEROKEE LETTER TSE", aliases: &[] },
        Codepoint { codepoint: 0x13E5, name: "CHEROKEE LETTER TSI", aliases: &[] },
        Codepoint { codepoint: 0x13E6, name: "CHEROKEE LETTER TSO", aliases: &[] },
        Codepoint { codepoint: 0x13E7, name: "CHEROKEE LETTER TSU", aliases: &[] },
        Codepoint { codepoint: 0x13E8, name: "CHEROKEE LETTER TSV", aliases: &[] },
        Codepoint { codepoint: 0x13E9, name: "CHEROKEE LETTER WA", aliases: &[] },
        Codepoint { codepoint: 0x13EA, name: "CHEROKEE LETTER WE", aliases: &[] },
        Codepoint { codepoint: 0x13EB, name: "CHEROKEE LETTER WI", aliases: &[] },
        Codepoint { codepoint: 0x13EC, name: "CHEROKEE LETTER WO", aliases: &[] },
        Codepoint { codepoint: 0x13ED, name: "CHEROKEE LETTER WU", aliases: &[] },
        Codepoint { codepoint: 0x13EE, name: "CHEROKEE LETTER WV", aliases: &[] },
        Codepoint { codepoint: 0x13EF, name: "CHEROKEE LETTER YA", aliases: &[] },
        Codepoint { codepoint: 0x13F0, name: "CHEROKEE LETTER YE", aliases: &[] },
        Codepoint { codepoint: 0x13F1, name: "CHEROKEE LETTER YI", aliases: &[] },
        Codepoint { codepoint: 0x13F2, name: "CHEROKEE LETTER YO", aliases: &[] },
        Codepoint { codepoint: 0x13F3, name: "CHEROKEE LETTER YU", aliases: &[] },
        Codepoint { codepoint: 0x13F4, name: "CHEROKEE LETTER YV", aliases: &[] },
        Codepoint { codepoint: 0x13F5, name: "CHEROKEE LETTER MV", aliases: &[] },
        Codepoint { codepoint: 0x13F8, name: "CHEROKEE SMALL LETTER YE", aliases: &[] },
        Codepoint { codepoint: 0x13F9, name: "CHEROKEE SMALL LETTER YI", aliases: &[] },
        Codepoint { codepoint: 0x13FA, name: "CHEROKEE SMALL LETTER YO", aliases: &[] },
        Codepoint { codepoint: 0x13FB, name: "CHEROKEE SMALL LETTER YU", aliases: &[] },
        Codepoint { codepoint: 0x13FC, name: "CHEROKEE SMALL LETTER YV", aliases: &[] },
        Codepoint { codepoint: 0x13FD, name: "CHEROKEE SMALL LETTER MV", aliases: &[] },
        Codepoint { codepoint: 0x1400, name: "CANADIAN SYLLABICS HYPHEN", aliases: &[] },
        Codepoint { codepoint: 0x1401, name: "CANADIAN SYLLABICS E", aliases: &[] },
        Codepoint { codepoint: 0x1402, name: "CANADIAN SYLLABICS AAI", aliases: &[] },
        Codepoint { codepoint: 0x1403, name: "CANADIAN SYLLABICS I", aliases: &[] },
        Codepoint { codepoint: 0x1404, name: "CANADIAN SYLLABICS II", aliases: &[] },
        Codepoint { codepoint: 0x1405, name: "CANADIAN SYLLABICS O", aliases: &[] },
        Codepoint { codepoint: 0x1406, name: "CANADIAN SYLLABICS OO", aliases: &[] },
        Codepoint { codepoint: 0x1407, name: "CANADIAN SYLLABICS Y-CREE OO", aliases: &[] },
        Codepoint { codepoint: 0x1408, name: "CANADIAN SYLLABICS CARRIER EE", aliases: &[] },
        Codepoint { codepoint: 0x1409, name: "CANADIAN SYLLABICS CARRIER I", aliases: &[] },
        Codepoint { codepoint: 0x140A, name: "CANADIAN SYLLABICS A", aliases: &[] },
        Codepoint { codepoint: 0x140B, name: "CANADIAN SYLLABICS AA", aliases: &[] },
        Codepoint { codepoint: 0x140C, name: "CANADIAN SYLLABICS WE", aliases: &[] },
        Codepoint { codepoint: 0x140D, name: "CANADIAN SYLLABICS WEST-CREE WE", aliases: &[] },
    ];
    assert(v@ =~= codepoint_table_113());
    v
}

pub open spec fn codepoint_table_114() -> Seq<Codepoint> {
    seq![
        Codepoint { codepoint: 0x140E, name: "CANADIAN SYLLABICS WI", aliases: &[] },
        Codepoint { codepoint: 0x140F, name: "CANADIAN SYLLABICS WEST-CREE WI", aliases: &[] },
        Codepoint { codepoint: 0x1410, name: "CANADIAN SYLLABICS WII", aliases: &[] },
        Codepoint { codepoint: 0x1411, name: "CANADIAN SYLLABICS WEST-CREE WII", aliases: &[] },
        Codepoint { codepoint: 0x1412, name: "CANADIAN SYLLABICS WO", aliases: &[] },
        Codepoint { codepoint: 0x1413, name: "CANADIAN SYLLABICS WEST-CREE WO", aliases: &[] },
        Codepoint { codepoint: 0x1414, name: "CANADIAN SYLLABICS WOO", aliases: &[] },
        Codepoint { codepoint: 0x1415, name: "CANADIAN SYLLABICS WEST-CREE WOO", aliases: &[] },
        Codepoint { codepoint: 0x1416, name: "CANADIAN SYLLABICS NASKAPI WOO", aliases: &[] },
        Codepoint { codepoint: 0x1417, name: "CANADIAN SYLLABICS WA", aliases: &[] },
        Codepoint { codepoint: 0x1418, name: "CANADIAN SYLLABICS WEST-CREE WA", aliases: &[] },
        Codepoint { codepoint: 0x1419, name: "CANADIAN SYLLABICS WAA", aliases: &[] },
        Codepoint { codepoint: 0x141A, name: "CANADIAN SYLLABICS WEST-CREE WAA", aliases: &[] },
        Codepoint { codepoint: 0x141B, name: "CANADIAN SYLLABICS NASKAPI WAA", aliases: &[] },
        Codepoint { codepoint: 0x141C, name: "CANADIAN SYLLABICS AI", aliases: &[] },
        Codepoint { codepoint: 0x141D, name: "CANADIAN SYLLABICS Y-CREE W", aliases: &[] },
        Codepoint { codepoint: 0x141E, name: "CANADIAN SYLLABICS GLOTTAL STOP", aliases: &[] },
        Codepoint { codepoint: 0x141F, name: "CANADIAN SYLLABICS FINAL ACUTE", aliases: &[] },
        Codepoint { codepoint: 0x1420, name: "CANADIAN SYLLABICS FINAL GRAVE", aliases: &[] },
        Codepoint { codepoint: 0x1421, name: "CANADIAN SYLLABICS FINAL BOTTOM HALF RING", aliases: &[] },
        Codepoint { codepoint: 0x1422, name: "CANADIAN SYLLABICS FINAL TOP HALF RING", aliases: &[] },
        Codepoint { codepoint: 0x1423, name: "CANADIAN SYLLABICS FINAL RIGHT HALF RING", aliases: &[] },
        Codepoint { codepoint: 0x1424, name: "CANADIAN SYLLABICS FINAL RING", aliases: &[] },
        Codepoint { codepoint: 0x1425, name: "CANADIAN SYLLABICS FINAL DOUBLE ACUTE", aliases: &[] },
        Codepoint { codepoint: 0x1426, name: "CANADIAN SYLLABICS FINAL DOUBLE SHORT VERTICAL STROKES", aliases: &[] },
        Codepoint { codepoint: 0x1427, name: "CANADIAN SYLLABICS FINAL MIDDLE DOT", aliases: &[] },
        Codepoint { codepoint: 0x1428, name: "CANADIAN SYLLABICS FINAL SHORT HORIZONTAL STROKE", aliases: &[] },
        Codepoint { codepoint: 0x1429, name: "CANADIAN SYLLABICS FINAL PLUS", aliases: &[] },
        Codepoint { codepoint: 0x142A, name: "CANADIAN SYLLABICS FINAL DOWN TACK", aliases: &[] },
        Codepoint { codepoint: 0x142B, name: "CANADIAN SYLLABICS EN", aliases: &[] },
        Codepoint { codepoint: 0x142C, name: "CANADIAN SYLLABICS IN", aliases: &[] },
        Codepoint { codepoint: 0x142D, name: "CANADIAN SYLLABICS ON", aliases: &[] },
        Codepoint { codepoint: 0x142E, name: "CANADIAN SYLLABICS AN", aliases: &[] },
        Codepoint { codepoint: 0x142F, name: "CANADIAN SYLLABICS PE", aliases: &[] },
        Codepoint { codepoint: 0x1430, name: "CANADIAN SYLLABICS PAAI", aliases: &[] },
        Codepoint { codepoint: 0x1431, name: "CANADIAN SYLLABICS PI", aliases: &[] },
        Codepoint { codepoint: 0x1432, name: "CANADIAN SYLLABICS PII", aliases: &[] },
        Codepoint { codepoint: 0x1433, name: "CANADIAN SYLLABICS PO", aliases: &[] },
        Codepoint { codepoint: 0x1434, name: "CANADIAN SYLLABICS POO", aliases: &[] },
        Codepoint { codepoint: 0x1435, name: "CANADIAN SYLLABICS Y-CREE POO", aliases: &[] },
    ]
}

fn all_codepoints_114() -> (v: Vec<Codepoint>)
    ensures
        v@ == codepoint_table_114(),
{
    let v = vec![
        Codepoint { codepoint: 0x140E, name: "CANADIAN SYLLABICS WI", aliases: &[] },
        Codepoint { codepoint: 0x140F, name: "CANADIAN SYLLABICS WEST-CREE WI", aliases: &[] },
        Codepoint { codepoint: 0x1410, name: "CANADIAN SYLLABICS WII", aliases: &[] },
        Codepoint { codepoint: 0x1411, name: "CANADIAN SYLLABICS WEST-CREE WII", aliases: &[] },
        Codepoint { codepoint: 0x1412, name: "CANADIAN SYLLABICS WO", aliases: &[] },
        Codepoint { codepoint: 0x1413, name: "CANADIAN SYLLABICS WEST-CREE WO", aliases: &[] },
        Codepoint { codepoint: 0x1414, name: "CANADIAN SYLLABICS WOO", aliases: &[] },
        Codepoint { codepoint: 0x1415, name: "CANADIAN SYLLABICS WEST-CREE WOO", aliases: &[] },
        Codepoint { codepoint: 0x1416, name: "CANADIAN SYLLABICS NASKAPI WOO", aliases: &[] },
        Codepoint { codepoint: 0x1417, name: "CANADIAN SYLLABICS WA", aliases: &[] },
        Codepoint { codepoint: 0x1418, name: "CANADIAN SYLLABICS WEST-CREE WA", aliases: &[] },
        Codepoint { codepoint: 0x1419, name: "CANADIAN SYLLABICS WAA", aliases: &[] },
        Codepoint { codepoint: 0x141A, name: "CANADIAN SYLLABICS WEST-CREE WAA", aliases: &[] },
        Codepoint { codepoint: 0x141B, name: "CANADIAN SYLLABICS NASKAPI WAA", aliases: &[] },
        Codepoint { codepoint: 0x141C, name: "CANADIAN SYLLABICS AI", aliases: &[] },
        Codepoint { codepoint: 0x141D, name: "CANADIAN SYLLABICS Y-CREE W", aliases: &[] },
        Codepoint { codepoint: 0x141E, name: "CANADIAN SYLLABICS GLOTTAL STOP", aliases: &[] },
        Codepoint { codepoint: 0x141F, name: "CANADIAN SYLLABICS FINAL ACUTE", aliases: &[] },
        Codepoint { codepoint: 0x1420, name: "CANADIAN SYLLABICS FINAL GRAVE", aliases: &[] },
        Codepoint { codepoint: 0x1421, name: "CANADIAN SYLLABICS FINAL BOTTOM HALF RING", aliases: &[] },
        Codepoint { codepoint: 0x1422, name: "CANADIAN SYLLABICS FINAL TOP HALF RING", aliases: &[] },
        Codepoint { codepoint: 0x1423, name: "CANADIAN SYLLABICS FINAL RIGHT HALF RING", aliases: &[] },
        Codepoint { codepoint: 0x1424, name: "CANADIAN SYLLABICS FINAL RING", aliases: &[] },
        Codepoint { codepoint: 0x1425, name: "CANADIAN SYLLABICS FINAL DOUBLE ACUTE", aliases: &[] },
        Codepoint { codepoint: 0x1426, name: "CANADIAN SYLLABICS FINAL DOUBLE SHORT VERTICAL STROKES", aliases: &[] },
        Codepoint { codepoint: 0x1427, name: "CANADIAN SYLLABICS FINAL MIDDLE DOT", aliases: &[] },
        Codepoint { codepoint: 0x1428, name: "CANADIAN SYLLABICS FINAL SHORT HORIZONTAL STROKE", aliases: &[] },
        Codepoint { codepoint: 0x1429, name: "CANADIAN SYLLABICS FINAL PLUS", aliases: &[] },
        Codepoint { codepoint: 0x142A, name: "CANADIAN SYLLABICS FINAL DOWN TACK", aliases: &[] },
        Codepoint { codepoint: 0x142B, name: "CANADIAN SYLLABICS EN", aliases: &[] },
        Codepoint { codepoint: 0x142C, name: "CANADIAN SYLLABICS IN", aliases: &[] },
        Codepoint { codepoint: 0x142D, name: "CANADIAN SYLLABICS ON", aliases: &[] },
        Codepoint { codepoint: 0x142E, name: "CANADIAN SYLLABICS AN", aliases: &[] },
        Codepoint { codepoint: 0x142F, name: "CANADIAN SYLLABICS PE", aliases: &[] },
        Codepoint { codepoint: 0x1430, name: "CANADIAN SYLLABICS PAAI", aliases: &[] },
        Codepoint { codepoint: 0x1431, name: "CANADIAN SYLLABICS PI", aliases: &[] },
        Codepoint { codepoint: 0x1432, name: "CANADIAN SYLLABICS PII", aliases: &[] },
        Codepoint { codepoint: 0x1433, name: "CANADIAN SYLLABICS PO", aliases: &[] },
        Codepoint { codepoint: 0x1434, name: "CANADIAN SYLLABICS POO", aliases: &[] },
        Codepoint { codepoint: 0x1435, name: "CANADIAN SYLLABICS Y-CREE POO", aliases: &[] },
    ];
    assert(v@ =~= codepoint_table_114());
    v
}

pub open spec fn codepoint_table_115() -> Seq<Codepoint> {
    seq![
        Codepoint { codepoint: 0x1436, name: "CANADIAN SYLLABICS CARRIER HEE", aliases: &[] },
        Codepoint { codepoint: 0x1437, name: "CANADIAN SYLLABICS CARRIER HI", aliases: &[] },
        Codepoint { codepoint: 0x1438, name: "CANADIAN SYLLABICS PA", aliases: &[] },
        Codepoint { codepoint: 0x1439, name: "CANADIAN SYLLABICS PAA", aliases: &[] },
        Codepoint { codepoint: 0x143A, name: "CANADIAN SYLLABICS PWE", aliases: &[] },
        Codepoint { codepoint: 0x143B, name: "CANADIAN SYLLABICS WEST-CREE PWE", aliases: &[] },
        Codepoint { codepoint: 0x143C, name: "CANADIAN SYLLABICS PWI", aliases: &[] },
        Codepoint { codepoint: 0x143D, name: "CANADIAN SYLLABICS WEST-CREE PWI", aliases: &[] },
        Codepoint { codepoint: 0x143E, name: "CANADIAN SYLLABICS PWII", aliases: &[] },
        Codepoint { codepoint: 0x143F, name: "CANADIAN SYLLABICS WEST-CREE PWII", aliases: &[] },
        Codepoint { codepoint: 0x1440, name: "CANADIAN SYLLABICS PWO", aliases: &[] },
        Codepoint { codepoint: 0x1441, name: "CANADIAN SYLLABICS WEST-CREE PWO", aliases: &[] },
        Codepoint { codepoint: 0x1442, name: "CANADIAN SYLLABICS PWOO", aliases: &[] },
        Codepoint { codepoint: 0x1443, name: "CANADIAN SYLLABICS WEST-CREE PWOO", aliases: &[] },
        Codepoint { codepoint: 0x1444, name: "CANADIAN SYLLABICS PWA", aliases: &[] },
        Codepoint { codepoint: 0x1445, name: "CANADIAN SYLLABICS WEST-CREE PWA", aliases: &[] },
        Codepoint { codepoint: 0x1446, name: "CANADIAN SYLLABICS PWAA", aliases: &[] },
        Codepoint { codepoint: 0x1447, name: "CANADIAN SYLLABICS WEST-CREE PWAA", aliases: &[] },
        Codepoint { codepoint: 0x1448, name: "CANADIAN SYLLABICS Y-CREE PWAA", aliases: &[] },
        Codepoint { codepoint: 0x1449, name: "CANADIAN SYLLABICS P", aliases: &[] },
        Codepoint { codepoint: 0x144A, name: "CANADIAN SYLLABICS WEST-CREE P", aliases: &[] },
        Codepoint { codepoint: 0x144B, name: "CANADIAN SYLLABICS CARRIER H", aliases: &[] },
        Codepoint { codepoint: 0x144C, name: "CANADIAN SYLLABICS TE", aliases: &[] },
        Codepoint { codepoint: 0x144D, name: "CANADIAN SYLLABICS TAAI", aliases: &[] },
        Codepoint { codepoint: 0x144E, name: "CANADIAN SYLLABICS TI", aliases: &[] },
        Codepoint { codepoint: 0x144F, name: "CANADIAN SYLLABICS TII", aliases: &[] },
        Codepoint { codepoint: 0x1450, name: "CANADIAN SYLLABICS TO", aliases: &[] },
        Codepoint { codepoint: 0x1451, name: "CANADIAN SYLLABICS TOO", aliases: &[] },
        Codepoint { codepoint: 0x1452, name: "CANADIAN SYLLABICS Y-CREE TOO", aliases: &[] },
        Codepoint { codepoint: 0x1453, name: "CANADIAN SYLLABICS CARRIER DEE", aliases: &[] },
        Codepoint { codepoint: 0x1454, name: "CANADIAN SYLLABICS CARRIER DI", aliases: &[] },
        Codepoint { codepoint: 0x1455, name: "CANADIAN SYLLABICS TA", aliases: &[] },
        Codepoint { codepoint: 0x1456, name: "CANADIAN SYLLABICS TAA", aliases: &[] },
        Codepoint { codepoint: 0x1457, name: "CANADIAN SYLLABICS TWE", aliases: &[] },
        Codepoint { codepoint: 0x1458, name: "CANADIAN SYLLABICS WEST-CREE TWE", aliases: &[] },
        Codepoint { codepoint: 0x1459, name: "CANADIAN SYLLABICS TWI", aliases: &[] },
        Codepoint { codepoint: 0x145A, name: "CANADIAN SYLLABICS WEST-CREE TWI", aliases: &[] },
        Codepoint { codepoint: 0x145B, name: "CANADIAN SYLLABICS TWII", aliases: &[] },
        Codepoint { codepoint: 0x145C, name: "CANADIAN SYLLABICS WEST-CREE TWII", aliases: &[] },
        Codepoint { codepoint: 0x145D, name: "CANADIAN SYLLABICS TWO", aliases: &[] },
    ]
}

fn all_codepoints_115() -> (v: Vec<Codepoint>)
    ensures
        v@ == codepoint_table_115(),
{
    let v = vec![
        Codepoint { codepoint: 0x1436, name: "CANADIAN SYLLABICS CARRIER HEE", aliases: &[] },
        Codepoint { codepoint: 0x1437, name: "CANADIAN SYLLABICS CARRIER HI", aliases: &[] },
        Codepoint { codepoint: 0x1438, name: "CANADIAN SYLLABICS PA", aliases: &[] },
        Codepoint { codepoint: 0x1439, name: "CANADIAN SYLLABICS PAA", aliases: &[] },
        Codepoint { codepoint: 0x143A, name: "CANADIAN SYLLABICS PWE", aliases: &[] },
        Codepoint { codepoint: 0x143B, name: "CANADIAN SYLLABICS WEST-CREE PWE", aliases: &[] },
        Codepoint { codepoint: 0x143C, name: "CANADIAN SYLLABICS PWI", aliases: &[] },
        Codepoint { codepoint: 0x143D, name: "CANADIAN SYLLABICS WEST-CREE PWI", aliases: &[] },
        Codepoint { codepoint: 0x143E, name: "CANADIAN SYLLABICS PWII", aliases: &[] },
        Codepoint { codepoint: 0x143F, name: "CANADIAN SYLLABICS WEST-CREE PWII", aliases: &[] },
        Codepoint { codepoint: 0x1440, name: "CANADIAN SYLLABICS PWO", aliases: &[] },
        Codepoint { codepoint: 0x1441, name: "CANADIAN SYLLABICS WEST-CREE PWO", aliases: &[] },
        Codepoint { codepoint: 0x1442, name: "CANADIAN SYLLABICS PWOO", aliases: &[] },
        Codepoint { codepoint: 0x1443, name: "CANADIAN SYLLABICS WEST-CREE PWOO", aliases: &[] },
        Codepoint { codepoint: 0x1444, name: "CANADIAN SYLLABICS PWA", aliases: &[] },
        Codepoint { codepoint: 0x1445, name: "CANADIAN SYLLABICS WEST-CREE PWA", aliases: &[] },
        Codepoint { codepoint: 0x1446, name: "CANADIAN SYLLABICS PWAA", aliases: &[] },
        Codepoint { codepoint: 0x1447, name: "CANADIAN SYLLABICS WEST-CREE PWAA", aliases: &[] },
        Codepoint { codepoint: 0x1448, name: "CANADIAN SYLLABICS Y-CREE PWAA", aliases: &[] },
        Codepoint { codepoint: 0x1449, name: "CANADIAN SYLLABICS P", aliases: &[] },
        Codepoint { codepoint: 0x144A, name: "CANADIAN SYLLABICS WEST-CREE P", aliases: &[] },
        Codepoint { codepoint: 0x144B, name: "CANADIAN SYLLABICS CARRIER H", aliases: &[] },
        Codepoint { codepoint: 0x144C, name: "CANADIAN SYLLABICS TE", aliases: &[] },
        Codepoint { codepoint: 0x144D, name: "CANADIAN SYLLABICS TAAI", aliases: &[] },
        Codepoint { codepoint: 0x144E, name: "CANADIAN SYLLABICS TI", aliases: &[] },
        Codepoint { codepoint: 0x144F, name: "CANADIAN SYLLABICS TII", aliases: &[] },
        Codepoint { codepoint: 0x1450, name: "CANADIAN SYLLABICS TO", aliases: &[] },
        Codepoint { codepoint: 0x1451, name: "CANADIAN SYLLABICS TOO", aliases: &[] },
        Codepoint { codepoint: 0x1452, name: "CANADIAN SYLLABICS Y-CREE TOO", aliases: &[] },
        Codepoint { codepoint: 0x1453, name: "CANADIAN SYLLABICS CARRIER DEE", aliases: &[] },
        Codepoint { codepoint: 0x1454, name: "CANADIAN SYLLABICS CARRIER DI", aliases: &[] },
        Codepoint { codepoint: 0x1455, name: "CANADIAN SYLLABICS TA", aliases: &[] },
        Codepoint { codepoint: 0x1456, name: "CANADIAN SYLLABICS TAA", aliases: &[] },
        Codepoint { codepoint: 0x1457, name: "CANADIAN SYLLABICS TWE", aliases: &[] },
        Codepoint { codepoint: 0x1458, name: "CANADIAN SYLLABICS WEST-CREE TWE", aliases: &[] },
        Codepoint { codepoint: 0x1459, name: "CANADIAN SYLLABICS TWI", aliases: &[] },
        Codepoint { codepoint: 0x145A, name: "CANADIAN SYLLABICS WEST-CREE TWI", aliases: &[] },
        Codepoint { codepoint: 0x145B, name: "CANADIAN SYLLABICS TWII", aliases: &[] },
        Codepoint { codepoint: 0x145C, name: "CANADIAN SYLLABICS WEST-CREE TWII", aliases: &[] },
        Codepoint { codepoint: 0x145D, name: "CANADIAN SYLLABICS TWO", aliases: &[] },
    ];
    assert(v@ =~= codepoint_table_115());
    v
}

pub open spec fn codepoint_table_116() -> Seq<Codepoint> {
    seq![
        Codepoint { codepoint: 0x145E, name: "CANADIAN SYLLABICS WEST-CREE TWO", aliases: &[] },
        Codepoint { codepoint: 0x145F, name: "CANADIAN SYLLABICS TWOO", aliases: &[] },
        Codepoint { codepoint: 0x1460, name: "CANADIAN SYLLABICS WEST-CREE TWOO", aliases: &[] },
        Codepoint { codepoint: 0x1461, name: "CANADIAN SYLLABICS TWA", aliases: &[] },
        Codepoint { codepoint: 0x1462, name: "CANADIAN SYLLABICS WEST-CREE TWA", aliases: &[] },
        Codepoint { codepoint: 0x1463, name: "CANADIAN SYLLABICS TWAA", aliases: &[] },
        Codepoint { codepoint: 0x1464, name: "CANADIAN SYLLABICS WEST-CREE TWAA", aliases: &[] },
        Codepoint { codepoint: 0x1465, name: "CANADIAN SYLLABICS NASKAPI TWAA", aliases: &[] },
        Codepoint { codepoint: 0x1466, name: "CANADIAN SYLLABICS T", aliases: &[] },
        Codepoint { codepoint: 0x1467, name: "CANADIAN SYLLABICS TTE", aliases: &[] },
        Codepoint { codepoint: 0x1468, name: "CANADIAN SYLLABICS TTI", aliases: &[] },
        Codepoint { codepoint: 0x1469, name: "CANADIAN SYLLABICS TTO", aliases: &[] },
        Codepoint { codepoint: 0x146A, name: "CANADIAN SYLLABICS TTA", aliases: &[] },
        Codepoint { codepoint: 0x146B, name: "CANADIAN SYLLABICS KE", aliases: &[] },
        Codepoint { codepoint: 0x146C, name: "CANADIAN SYLLABICS KAAI", aliases: &[] },
        Codepoint { codepoint: 0x146D, name: "CANADIAN SYLLABICS KI", aliases: &[] },
        Codepoint { codepoint: 0x146E, name: "CANADIAN SYLLABICS KII", aliases: &[] },
        Codepoint { codepoint: 0x146F, name: "CANADIAN SYLLABICS KO", aliases: &[] },
        Codepoint { codepoint: 0x1470, name: "CANADIAN SYLLABICS KOO", aliases: &[] },
        Codepoint { codepoint: 0x1471, name: "CANADIAN SYLLABICS Y-CREE KOO", aliases: &[] },
        Codepoint { codepoint: 0x1472, name: "CANADIAN SYLLABICS KA", aliases: &[] },
        Codepoint { codepoint: 0x1473, name: "CANADIAN SYLLABICS KAA", aliases: &[] },
        Codepoint { codepoint: 0x1474, name: "CANADIAN SYLLABICS KWE", aliases: &[] },
        Codepoint { codepoint: 0x1475, name: "CANADIAN SYLLABICS WEST-CREE KWE", aliases: &[] },
        Codepoint { codepoint: 0x1476, name: "CANADIAN SYLLABICS KWI", aliases: &[] },
        Codepoint { codepoint: 0x1477, name: "CANADIAN SYLLABICS WEST-CREE KWI", aliases: &[] },
        Codepoint { codepoint: 0x1478, name: "CANADIAN SYLLABICS KWII", aliases: &[] },
        Codepoint { codepoint: 0x1479, name: "CANADIAN SYLLABICS WEST-CREE KWII", aliases: &[] },
        Codepoint { codepoint: 0x147A, name: "CANADIAN SYLLABICS KWO", aliases: &[] },
        Codepoint { codepoint: 0x147B, name: "CANADIAN SYLLABICS WEST-CREE KWO", aliases: &[] },
        Codepoint { codepoint: 0x147C, name: "CANADIAN SYLLABICS KWOO", aliases: &[] },
        Codepoint { codepoint: 0x147D, name: "CANADIAN SYLLABICS WEST-CREE KWOO", aliases: &[] },
        Codepoint { codepoint: 0x147E, name: "CANADIAN SYLLABICS KWA", aliases: &[] },
        Codepoint { codepoint: 0x147F, name: "CANADIAN SYLLABICS WEST-CREE KWA", aliases: &[] },
        Codepoint { codepoint: 0x1480, name: "CANADIAN SYLLABICS KWAA", aliases: &[] },
        Codepoint { codepoint: 0x1481, name: "CANADIAN SYLLABICS WEST-CREE KWAA", aliases: &[] },
        Codepoint { codepoint: 0x1482, name: "CANADIAN SYLLABICS NASKAPI KWAA", aliases: &[] },
        Codepoint { codepoint: 0x1483, name: "CANADIAN SYLLABICS K", aliases: &[] },
        Codepoint { codepoint: 0x1484, name: "CANADIAN SYLLABICS KW", aliases: &[] },
        Codepoint { codepoint: 0x1485, name: "CANADIAN SYLLABICS SOUTH-SLAVEY KEH", aliases: &[] },
    ]
}

fn all_codepoints_116() -> (v: Vec<Codepoint>)
    ensures
        v@ == codepoint_table_116(),
{
    let v = vec![
        Codepoint { codepoint: 0x145E, name: "CANADIAN SYLLABICS WEST-CREE TWO", aliases: &[] },
        Codepoint { codepoint: 0x145F, name: "CANADIAN SYLLABICS TWOO", aliases: &[] },
        Codepoint { codepoint: 0x1460, name: "CANADIAN SYLLABICS WEST-CREE TWOO", aliases: &[] },
        Codepoint { codepoint: 0x1461, name: "CANADIAN SYLLABICS TWA", aliases: &[] },
        Codepoint { codepoint: 0x1462, name: "CANADIAN SYLLABICS WEST-CREE TWA", aliases: &[] },
        Codepoint { codepoint: 0x1463, name: "CANADIAN SYLLABICS TWAA", aliases: &[] },
        Codepoint { codepoint: 0x1464, name: "CANADIAN SYLLABICS WEST-CREE TWAA", aliases: &[] },
        Codepoint { codepoint: 0x1465, name: "CANADIAN SYLLABICS NASKAPI TWAA", aliases: &[] },
        Codepoint { codepoint: 0x1466, name: "CANADIAN SYLLABICS T", aliases: &[] },
        Codepoint { codepoint: 0x1467, name: "CANADIAN SYLLABICS TTE", aliases: &[] },
        Codepoint { codepoint: 0x1468, name: "CANADIAN SYLLABICS TTI", aliases: &[] },
        Codepoint { codepoint: 0x1469, name: "CANADIAN SYLLABICS TTO", aliases: &[] },
        Codepoint { codepoint: 0x146A, name: "CANADIAN SYLLABICS TTA", aliases: &[] },
        Codepoint { codepoint: 0x146B, name: "CANADIAN SYLLABICS KE", aliases: &[] },
        Codepoint { codepoint: 0x146C, name: "CANADIAN SYLLABICS KAAI", aliases: &[] },
        Codepoint { codepoint: 0x146D, name: "CANADIAN SYLLABICS KI", aliases: &[] },
        Codepoint { codepoint: 0x146E, name: "CANADIAN SYLLABICS KII", aliases: &[] },
        Codepoint { codepoint: 0x146F, name: "CANADIAN SYLLABICS KO", aliases: &[] },
        Codepoint { codepoint: 0x1470, name: "CANADIAN SYLLABICS KOO", aliases: &[] },
        Codepoint { codepoint: 0x1471, name: "CANADIAN SYLLABICS Y-CREE KOO", aliases: &[] },
        Codepoint { codepoint: 0x1472, name: "CANADIAN SYLLABICS KA", aliases: &[] },
        Codepoint { codepoint: 0x1473, name: "CANADIAN SYLLABICS KAA", aliases: &[] },
        Codepoint { codepoint: 0x1474, name: "CANADIAN SYLLABICS KWE", aliases: &[] },
        Codepoint { codepoint: 0x1475, name: "CANADIAN SYLLABICS WEST-CREE KWE", aliases: &[] },
        Codepoint { codepoint: 0x1476, name: "CANADIAN SYLLABICS KWI", aliases: &[] },
        Codepoint { codepoint: 0x1477, name: "CANADIAN SYLLABICS WEST-CREE KWI", aliases: &[] },
        Codepoint { codepoint: 0x1478, name: "CANADIAN SYLLABICS KWII", aliases: &[] },
        Codepoint { codepoint: 0x1479, name: "CANADIAN SYLLABICS WEST-CREE KWII", aliases: &[] },
        Codepoint { codepoint: 0x147A, name: "CANADIAN SYLLABICS KWO", aliases: &[] },
        Codepoint { codepoint: 0x147B, name: "CANADIAN SYLLABICS WEST-CREE KWO", aliases: &[] },
        Codepoint { codepoint: 0x147C, name: "CANADIAN SYLLABICS KWOO", aliases: &[] },
        Codepoint { codepoint: 0x147D, name: "CANADIAN SYLLABICS WEST-CREE KWOO", aliases: &[] },
        Codepoint { codepoint: 0x147E, name: "CANADIAN SYLLABICS KWA", aliases: &[] },
        Codepoint { codepoint: 0x147F, name: "CANADIAN SYLLABICS WEST-CREE KWA", aliases: &[] },
        Codepoint { codepoint: 0x1480, name: "CANADIAN SYLLABICS KWAA", aliases: &[] },
        Codepoint { codepoint: 0x1481, name: "CANADIAN SYLLABICS WEST-CREE KWAA", aliases: &[] },
        Codepoint { codepoint: 0x1482, name: "CANADIAN SYLLABICS NASKAPI KWAA", aliases: &[] },
        Codepoint { codepoint: 0x1483, name: "CANADIAN SYLLABICS K", aliases: &[] },
        Codepoint { codepoint: 0x1484, name: "CANADIAN SYLLABICS KW", aliases: &[] },
        Codepoint { codepoint: 0x1485, name: "CANADIAN SYLLABICS SOUTH-SLAVEY KEH", aliases: &[] },
    ];
    assert(v@ =~= codepoint_table_116());
    v
}

pub open spec fn codepoint_table_117() -> Seq<Codepoint> {
    seq![
        Codepoint { codepoint: 0x1486, name: "CANADIAN SYLLABICS SOUTH-SLAVEY KIH", aliases: &[] },
        Codepoint { codepoint: 0x1487, name: "CANADIAN SYLLABICS SOUTH-SLAVEY KOH", aliases: &[] },
        Codepoint { codepoint: 0x1488, name: "CANADIAN SYLLABICS SOUTH-SLAVEY KAH", aliases: &[] },
        Codepoint { codepoint: 0x1489, name: "CANADIAN SYLLABICS CE", aliases: &[] },
        Codepoint { codepoint: 0x148A, name: "CANADIAN SYLLABICS CAAI", aliases: &[] },
        Codepoint { codepoint: 0x148B, name: "CANADIAN SYLLABICS CI", aliases: &[] },
        Codepoint { codepoint: 0x148C, name: "CANADIAN SYLLABICS CII", aliases: &[] },
        Codepoint { codepoint: 0x148D, name: "CANADIAN SYLLABICS CO", aliases: &[] },
        Codepoint { codepoint: 0x148E, name: "CANADIAN SYLLABICS COO", aliases: &[] },
        Codepoint { codepoint: 0x148F, name: "CANADIAN SYLLABICS Y-CREE COO", aliases: &[] },
        Codepoint { codepoint: 0x1490, name: "CANADIAN SYLLABICS CA", aliases: &[] },
        Codepoint { codepoint: 0x1491, name: "CANADIAN SYLLABICS CAA", aliases: &[] },
        Codepoint { codepoint: 0x1492, name: "CANADIAN SYLLABICS CWE", aliases: &[] },
        Codepoint { codepoint: 0x1493, name: "CANADIAN SYLLABICS WEST-CREE CWE", aliases: &[] },
        Codepoint { codepoint: 0x1494, name: "CANADIAN SYLLABICS CWI", aliases: &[] },
        Codepoint { codepoint: 0x1495, name: "CANADIAN SYLLABICS WEST-CREE CWI", aliases: &[] },
        Codepoint { codepoint: 0x1496, name: "CANADIAN SYLLABICS CWII", aliases: &[] },
        Codepoint { codepoint: 0x1497, name: "CANADIAN SYLLABICS WEST-CREE CWII", aliases: &[] },
        Codepoint { codepoint: 0x1498, name: "CANADIAN SYLLABICS CWO", aliases: &[] },
        Codepoint { codepoint: 0x1499, name: "CANADIAN SYLLABICS WEST-CREE CWO", aliases: &[] },
        Codepoint { codepoint: 0x149A, name: "CANADIAN SYLLABICS CWOO", aliases: &[] },
        Codepoint { codepoint: 0x149B, name: "CANADIAN SYLLABICS WEST-CREE CWOO", aliases: &[] },
        Codepoint { codepoint: 0x149C, name: "CANADIAN SYLLABICS CWA", aliases: &[] },
        Codepoint { codepoint: 0x149D, name: "CANADIAN SYLLABICS WEST-CREE CWA", aliases: &[] },
        Codepoint { codepoint: 0x149E, name: "CANADIAN SYLLABICS CWAA", aliases: &[] },
        Codepoint { codepoint: 0x149F, name: "CANADIAN SYLLABICS WEST-CREE CWAA", aliases: &[] },
        Codepoint { codepoint: 0x14A0, name: "CANADIAN SYLLABICS NASKAPI CWAA", aliases: &[] },
        Codepoint { codepoint: 0x14A1, name: "CANADIAN SYLLABICS C", aliases: &[] },
        Codepoint { codepoint: 0x14A2, name: "CANADIAN SYLLABICS SAYISI TH", aliases: &[] },
        Codepoint { codepoint: 0x14A3, name: "CANADIAN SYLLABICS ME", aliases: &[] },
        Codepoint { codepoint: 0x14A4, name: "CANADIAN SYLLABICS MAAI", aliases: &[] },
        Codepoint { codepoint: 0x14A5, name: "CANADIAN SYLLABICS MI", aliases: &[] },
        Codepoint { codepoint: 0x14A6, name: "CANADIAN SYLLABICS MII", aliases: &[] },
        Codepoint { codepoint: 0x14A7, name: "CANADIAN SYLLABICS MO", aliases: &[] },
        Codepoint { codepoint: 0x14A8, name: "CANADIAN SYLLABICS MOO", aliases: &[] },
        Codepoint { codepoint: 0x14A9, name: "CANADIAN SYLLABICS Y-CREE MOO", aliases: &[] },
        Codepoint { codepoint: 0x14AA, name: "CANADIAN SYLLABICS MA", aliases: &[] },
        Codepoint { codepoint: 0x14AB, name: "CANADIAN SYLLABICS MAA", aliases: &[] },
        Codepoint { codepoint: 0x14AC, name: "CANADIAN SYLLABICS MWE", aliases: &[] },
        Codepoint { codepoint: 0x14AD, name: "CANADIAN SYLLABICS WEST-CREE MWE", aliases: &[] },
    ]
}

fn all_codepoints_117() -> (v: Vec<Codepoint>)
    ensures
        v@ == codepoint_table_117(),
{
    let v = vec![
        Codepoint { codepoint: 0x1486, name: "CANADIAN SYLLABICS SOUTH-SLAVEY KIH", aliases: &[] },
        Codepoint { codepoint: 0x1487, name: "CANADIAN SYLLABICS SOUTH-SLAVEY KOH", aliases: &[] },
        Codepoint { codepoint: 0x1488, name: "CANADIAN SYLLABICS SOUTH-SLAVEY KAH", aliases: &[] },
        Codepoint { codepoint: 0x1489, name: "CANADIAN SYLLABICS CE", aliases: &[] },
        Codepoint { codepoint: 0x148A, name: "CANADIAN SYLLABICS CAAI", aliases: &[] },
        Codepoint { codepoint: 0x148B, name: "CANADIAN SYLLABICS CI", aliases: &[] },
        Codepoint { codepoint: 0x148C, name: "CANADIAN SYLLABICS CII", aliases: &[] },
        Codepoint { codepoint: 0x148D, name: "CANADIAN SYLLABICS CO", aliases: &[] },
        Codepoint { codepoint: 0x148E, name: "CANADIAN SYLLABICS COO", aliases: &[] },
        Codepoint { codepoint: 0x148F, name: "CANADIAN SYLLABICS Y-CREE COO", aliases: &[] },
        Codepoint { codepoint: 0x1490, name: "CANADIAN SYLLABICS CA", aliases: &[] },
        Codepoint { codepoint: 0x1491, name: "CANADIAN SYLLABICS CAA", aliases: &[] },
        Codepoint { codepoint: 0x1492, name: "CANADIAN SYLLABICS CWE", aliases: &[] },
        Codepoint { codepoint: 0x1493, name: "CANADIAN SYLLABICS WEST-CREE CWE", aliases: &[] },
        Codepoint { codepoint: 0x1494, name: "CANADIAN SYLLABICS CWI", aliases: &[] },
        Codepoint { codepoint: 0x1495, name: "CANADIAN SYLLABICS WEST-CREE CWI", aliases: &[] },
        Codepoint { codepoint: 0x1496, name: "CANADIAN SYLLABICS CWII", aliases: &[] },
        Codepoint { codepoint: 0x1497, name: "CANADIAN SYLLABICS WEST-CREE CWII", aliases: &[] },
        Codepoint { codepoint: 0x1498, name: "CANADIAN SYLLABICS CWO", aliases: &[] },
        Codepoint { codepoint: 0x1499, name: "CANADIAN SYLLABICS WEST-CREE CWO", aliases: &[] },
        Codepoint { codepoint: 0x149A, name: "CANADIAN SYLLABICS CWOO", aliases: &[] },
        Codepoint { codepoint: 0x149B, name: "CANADIAN SYLLABICS WEST-CREE CWOO", aliases: &[] },
        Codepoint { codepoint: 0x149C, name: "CANADIAN SYLLABICS CWA", aliases: &[] },
        Codepoint { codepoint: 0x149D, name: "CANADIAN SYLLABICS WEST-CREE CWA", aliases: &[] },
        Codepoint { codepoint: 0x149E, name: "CANADIAN SYLLABICS CWAA", aliases: &[] },
        Codepoint { codepoint: 0x149F, name: "CANADIAN SYLLABICS WEST-CREE CWAA", aliases: &[] },
        Codepoint { codepoint: 0x14A0, name: "CANADIAN SYLLABICS NASKAPI CWAA", aliases: &[] },
        Codepoint { codepoint: 0x14A1, name: "CANADIAN SYLLABICS C", aliases: &[] },
        Codepoint { codepoint: 0x14A2, name: "CANADIAN SYLLABICS SAYISI TH", aliases: &[] },
        Codepoint { codepoint: 0x14A3, name: "CANADIAN SYLLABICS ME", aliases: &[] },
        Codepoint { codepoint: 0x14A4, name: "CANADIAN SYLLABICS MAAI", aliases: &[] },
        Codepoint { codepoint: 0x14A5, name: "CANADIAN SYLLABICS MI", aliases: &[] },
        Codepoint { codepoint: 0x14A6, name: "CANADIAN SYLLABICS MII", aliases: &[] },
        Codepoint { codepoint: 0x14A7, name: "CANADIAN SYLLABICS MO", aliases: &[] },
        Codepoint { codepoint: 0x14A8, name: "CANADIAN SYLLABICS MOO", aliases: &[] },
        Codepoint { codepoint: 0x14A9, name: "CANADIAN SYLLABICS Y-CREE MOO", aliases: &[] },
        Codepoint { codepoint: 0x14AA, name: "CANADIAN SYLLABICS MA", aliases: &[] },
        Codepoint { codepoint: 0x14AB, name: "CANADIAN SYLLABICS MAA", aliases: &[] },
        Codepoint { codepoint: 0x14AC, name: "CANADIAN SYLLABICS MWE", aliases: &[] },
        Codepoint { codepoint: 0x14AD, name: "CANADIAN SYLLABICS WEST-CREE MWE", aliases: &[] },
    ];
    assert(v@ =~= codepoint_table_117());
    v
}

pub open spec fn codepoint_table_118() -> Seq<Codepoint> {
    seq![
        Codepoint { codepoint: 0x14AE, name: "CANADIAN SYLLABICS MWI", aliases: &[] },
        Codepoint { codepoint: 0x14AF, name: "CANADIAN SYLLABICS WEST-CREE MWI", aliases: &[] },
        Codepoint { codepoint: 0x14B0, name: "CANADIAN SYLLABICS MWII", aliases: &[] },
        Codepoint { codepoint: 0x14B1, name: "CANADIAN SYLLABICS WEST-CREE MWII", aliases: &[] },
        Codepoint { codepoint: 0x14B2, name: "CANADIAN SYLLABICS MWO", aliases: &[] },
        Codepoint { codepoint: 0x14B3, name: "CANADIAN SYLLABICS WEST-CREE MWO", aliases: &[] },
        Codepoint { codepoint: 0x14B4, name: "CANADIAN SYLLABICS MWOO", aliases: &[] },
        Codepoint { codepoint: 0x14B5, name: "CANADIAN SYLLABICS WEST-CREE MWOO", aliases: &[] },
        Codepoint { codepoint: 0x14B6, name: "CANADIAN SYLLABICS MWA", aliases: &[] },
        Codepoint { codepoint: 0x14B7, name: "CANADIAN SYLLABICS WEST-CREE MWA", aliases: &[] },
        Codepoint { codepoint: 0x14B8, name: "CANADIAN SYLLABICS MWAA", aliases: &[] },
        Codepoint { codepoint: 0x14B9, name: "CANADIAN SYLLABICS WEST-CREE MWAA", aliases: &[] },
        Codepoint { codepoint: 0x14BA, name: "CANADIAN SYLLABICS NASKAPI MWAA", aliases: &[] },
        Codepoint { codepoint: 0x14BB, name: "CANADIAN SYLLABICS M", aliases: &[] },
        Codepoint { codepoint: 0x14BC, name: "CANADIAN SYLLABICS WEST-CREE M", aliases: &[] },
        Codepoint { codepoint: 0x14BD, name: "CANADIAN SYLLABICS MH", aliases: &[] },
        Codepoint { codepoint: 0x14BE, name: "CANADIAN SYLLABICS ATHAPASCAN M", aliases: &[] },
        Codepoint { codepoint: 0x14BF, name: "CANADIAN SYLLABICS SAYISI M", aliases: &[] },
        Codepoint { codepoint: 0x14C0, name: "CANADIAN SYLLABICS NE", aliases: &[] },
        Codepoint { codepoint: 0x14C1, name: "CANADIAN SYLLABICS NAAI", aliases: &[] },
        Codepoint { codepoint: 0x14C2, name: "CANADIAN SYLLABICS NI", aliases: &[] },
        Codepoint { codepoint: 0x14C3, name: "CANADIAN SYLLABICS NII", aliases: &[] },
        Codepoint { codepoint: 0x14C4, name: "CANADIAN SYLLABICS NO", aliases: &[] },
        Codepoint { codepoint: 0x14C5, name: "CANADIAN SYLLABICS NOO", aliases: &[] },
        Codepoint { codepoint: 0x14C6, name: "CANADIAN SYLLABICS Y-CREE NOO", aliases: &[] },
        Codepoint { codepoint: 0x14C7, name: "CANADIAN SYLLABICS NA", aliases: &[] },
        Codepoint { codepoint: 0x14C8, name: "CANADIAN SYLLABICS NAA", aliases: &[] },
        Codepoint { codepoint: 0x14C9, name: "CANADIAN SYLLABICS NWE", aliases: &[] },
        Codepoint { codepoint: 0x14CA, name: "CANADIAN SYLLABICS WEST-CREE NWE", aliases: &[] },
        Codepoint { codepoint: 0x14CB, name: "CANADIAN SYLLABICS NWA", aliases: &[] },
        Codepoint { codepoint: 0x14CC, name: "CANADIAN SYLLABICS WEST-CREE NWA", aliases: &[] },
        Codepoint { codepoint: 0x14CD, name: "CANADIAN SYLLABICS NWAA", aliases: &[] },
        Codepoint { codepoint: 0x14CE, name: "CANADIAN SYLLABICS WEST-CREE NWAA", aliases: &[] },
        Codepoint { codepoint: 0x14CF, name: "CANADIAN SYLLABICS NASKAPI NWAA", aliases: &[] },
        Codepoint { codepoint: 0x14D0, name: "CANADIAN SYLLABICS N", aliases: &[] },
        Codepoint { codepoint: 0x14D1, name: "CANADIAN SYLLABICS CARRIER NG", aliases: &[] },
        Codepoint { codepoint: 0x14D2, name: "CANADIAN SYLLABICS NH", aliases: &[] },
        Codepoint { codepoint: 0x14D3, name: "CANADIAN SYLLABICS LE", aliases: &[] },
        Codepoint { codepoint: 0x14D4, name: "CANADIAN SYLLABICS LAAI", aliases: &[] },
        Codepoint { codepoint: 0x14D5, name: "CANADIAN SYLLABICS LI", aliases: &[] },
    ]
}

fn all_codepoints_118() -> (v: Vec<Codepoint>)
    ensures
        v@ == codepoint_table_118(),
{
    let v = vec![
        Codepoint { codepoint: 0x14AE, name: "CANADIAN SYLLABICS MWI", aliases: &[] },
        Codepoint { codepoint: 0x14AF, name: "CANADIAN SYLLABICS WEST-CREE MWI", aliases: &[] },
        Codepoint { codepoint: 0x14B0, name: "CANADIAN SYLLABICS MWII", aliases: &[] },
        Codepoint { codepoint: 0x14B1, name: "CANADIAN SYLLABICS WEST-CREE MWII", aliases: &[] },
        Codepoint { codepoint: 0x14B2, name: "CANADIAN SYLLABICS MWO", aliases: &[] },
        Codepoint { codepoint: 0x14B3, name: "CANADIAN SYLLABICS WEST-CREE MWO", aliases: &[] },
        Codepoint { codepoint: 0x14B4, name: "CANADIAN SYLLABICS MWOO", aliases: &[] },
        Codepoint { codepoint: 0x14B5, name: "CANADIAN SYLLABICS WEST-CREE MWOO", aliases: &[] },
        Codepoint { codepoint: 0x14B6, name: "CANADIAN SYLLABICS MWA", aliases: &[] },
        Codepoint { codepoint: 0x14B7, name: "CANADIAN SYLLABICS WEST-CREE MWA", aliases: &[] },
        Codepoint { codepoint: 0x14B8, name: "CANADIAN SYLLABICS MWAA", aliases: &[] },
        Codepoint { codepoint: 0x14B9, name: "CANADIAN SYLLABICS WEST-CREE MWAA", aliases: &[] },
        Codepoint { codepoint: 0x14BA, name: "CANADIAN SYLLABICS NASKAPI MWAA", aliases: &[] },
        Codepoint { codepoint: 0x14BB, name: "CANADIAN SYLLABICS M", aliases: &[] },
        Codepoint { codepoint: 0x14BC, name: "CANADIAN SYLLABICS WEST-CREE M", aliases: &[] },
        Codepoint { codepoint: 0x14BD, name: "CANADIAN SYLLABICS MH", aliases: &[] },
        Codepoint { codepoint: 0x14BE, name: "CANADIAN SYLLABICS ATHAPASCAN M", aliases: &[] },
        Codepoint { codepoint: 0x14BF, name: "CANADIAN SYLLABICS SAYISI M", aliases: &[] },
        Codepoint { codepoint: 0x14C0, name: "CANADIAN SYLLABICS NE", aliases: &[] },
        Codepoint { codepoint: 0x14C1, name: "CANADIAN SYLLABICS NAAI", aliases: &[] },
        Codepoint { codepoint: 0x14C2, name: "CANADIAN SYLLABICS NI", aliases: &[] },
        Codepoint { codepoint: 0x14C3, name: "CANADIAN SYLLABICS NII", aliases: &[] },
        Codepoint { codepoint: 0x14C4, name: "CANADIAN SYLLABICS NO", aliases: &[] },
        Codepoint { codepoint: 0x14C5, name: "CANADIAN SYLLABICS NOO", aliases: &[] },
        Codepoint { codepoint: 0x14C6, name: "CANADIAN SYLLABICS Y-CREE NOO", aliases: &[] },
        Codepoint { codepoint: 0x14C7, name: "CANADIAN SYLLABICS NA", aliases: &[] },
        Codepoint { codepoint: 0x14C8, name: "CANADIAN SYLLABICS NAA", aliases: &[] },
        Codepoint { codepoint: 0x14C9, name: "CANADIAN SYLLABICS NWE", aliases: &[] },
        Codepoint { codepoint: 0x14CA, name: "CANADIAN SYLLABICS WEST-CREE NWE", aliases: &[] },
        Codepoint { codepoint: 0x14CB, name: "CANADIAN SYLLABICS NWA", aliases: &[] },
        Codepoint { codepoint: 0x14CC, name: "CANADIAN SYLLABICS WEST-CREE NWA", aliases: &[] },
        Codepoint { codepoint: 0x14CD, name: "CANADIAN SYLLABICS NWAA", aliases: &[] },
        Codepoint { codepoint: 0x14CE, name: "CANADIAN SYLLABICS WEST-CREE NWAA", aliases: &[] },
        Codepoint { codepoint: 0x14CF, name: "CANADIAN SYLLABICS NASKAPI NWAA", aliases: &[] },
        Codepoint { codepoint: 0x14D0, name: "CANADIAN SYLLABICS N", aliases: &[] },
        Codepoint { codepoint: 0x14D1, name: "CANADIAN SYLLABICS CARRIER NG", aliases: &[] },
        Codepoint { codepoint: 0x14D2, name: "CANADIAN SYLLABICS NH", aliases: &[] },
        Codepoint { codepoint: 0x14D3, name: "CANADIAN SYLLABICS LE", aliases: &[] },
        Codepoint { codepoint: 0x14D4, name: "CANADIAN SYLLABICS LAAI", aliases: &[] },
        Codepoint { codepoint: 0x14D5, name: "CANADIAN SYLLABICS LI", aliases: &[] },
    ];
    assert(v@ =~= codepoint_table_118());
    v
}

pub open spec fn codepoint_table_119() -> Seq<Codepoint> {
    seq![
        Codepoint { codepoint: 0x14D6, name: "CANADIAN SYLLABICS LII", aliases: &[] },
        Codepoint { codepoint: 0x14D7, name: "CANADIAN SYLLABICS LO", aliases: &[] },
        Codepoint { codepoint: 0x14D8, name: "CANADIAN SYLLABICS LOO", aliases: &[] },
        Codepoint { codepoint: 0x14D9, name: "CANADIAN SYLLABICS Y-CREE LOO", aliases: &[] },
        Codepoint { codepoint: 0x14DA, name: "CANADIAN SYLLABICS LA", aliases: &[] },
        Codepoint { codepoint: 0x14DB, name: "CANADIAN SYLLABICS LAA", aliases: &[] },
        Codepoint { codepoint: 0x14DC, name: "CANADIAN SYLLABICS LWE", aliases: &[] },
        Codepoint { codepoint: 0x14DD, name: "CANADIAN SYLLABICS WEST-CREE LWE", aliases: &[] },
        Codepoint { codepoint: 0x14DE, name: "CANADIAN SYLLABICS LWI", aliases: &[] },
        Codepoint { codepoint: 0x14DF, name: "CANADIAN SYLLABICS WEST-CREE LWI", aliases: &[] },
        Codepoint { codepoint: 0x14E0, name: "CANADIAN SYLLABICS LWII", aliases: &[] },
        Codepoint { codepoint: 0x14E1, name: "CANADIAN SYLLABICS WEST-CREE LWII", aliases: &[] },
        Codepoint { codepoint: 0x14E2, name: "CANADIAN SYLLABICS LWO", aliases: &[] },
        Codepoint { codepoint: 0x14E3, name: "CANADIAN SYLLABICS WEST-CREE LWO", aliases: &[] },
        Codepoint { codepoint: 0x14E4, name: "CANADIAN SYLLABICS LWOO", aliases: &[] },
        Codepoint { codepoint: 0x14E5, name: "CANADIAN SYLLABICS WEST-CREE LWOO", aliases: &[] },
        Codepoint { codepoint: 0x14E6, name: "CANADIAN SYLLABICS LWA", aliases: &[] },
        Codepoint { codepoint: 0x14E7, name: "CANADIAN SYLLABICS WEST-CREE LWA", aliases: &[] },
        Codepoint { codepoint: 0x14E8, name: "CANADIAN SYLLABICS LWAA", aliases: &[] },
        Codepoint { codepoint: 0x14E9, name: "CANADIAN SYLLABICS WEST-CREE LWAA", aliases: &[] },
        Codepoint { codepoint: 0x14EA, name: "CANADIAN SYLLABICS L", aliases: &[] },
        Codepoint { codepoint: 0x14EB, name: "CANADIAN SYLLABICS WEST-CREE L", aliases: &[] },
        Codepoint { codepoint: 0x14EC, name: "CANADIAN SYLLABICS MEDIAL L", aliases: &[] },
        Codepoint { codepoint: 0x14ED, name: "CANADIAN SYLLABICS SE", aliases: &[] },
        Codepoint { codepoint: 0x14EE, name: "CANADIAN SYLLABICS SAAI", aliases: &[] },
        Codepoint { codepoint: 0x14EF, name: "CANADIAN SYLLABICS SI", aliases: &[] },
        Codepoint { codepoint: 0x14F0, name: "CANADIAN SYLLABICS SII", aliases: &[] },
        Codepoint { codepoint: 0x14F1, name: "CANADIAN SYLLABICS SO", aliases: &[] },
        Codepoint { codepoint: 0x14F2, name: "CANADIAN SYLLABICS SOO", aliases: &[] },
        Codepoint { codepoint: 0x14F3, name: "CANADIAN SYLLABICS Y-CREE SOO", aliases: &[] },
        Codepoint { codepoint: 0x14F4, name: "CANADIAN SYLLABICS SA", aliases: &[] },
        Codepoint { codepoint: 0x14F5, name: "CANADIAN SYLLABICS SAA", aliases: &[] },
        Codepoint { codepoint: 0x14F6, name: "CANADIAN SYLLABICS SWE", aliases: &[] },
        Codepoint { codepoint: 0x14F7, name: "CANADIAN SYLLABICS WEST-CREE SWE", aliases: &[] },
        Codepoint { codepoint: 0x14F8, name: "CANADIAN SYLLABICS SWI", aliases: &[] },
        Codepoint { codepoint: 0x14F9, name: "CANADIAN SYLLABICS WEST-CREE SWI", aliases: &[] },
        Codepoint { codepoint: 0x14FA, name: "CANADIAN SYLLABICS SWII", aliases: &[] },
        Codepoint { codepoint: 0x14FB, name: "CANADIAN SYLLABICS WEST-CREE SWII", aliases: &[] },
        Codepoint { codepoint: 0x14FC, name: "CANADIAN SYLLABICS SWO", aliases: &[] },
        Codepoint { codepoint: 0x14FD, name: "CANADIAN SYLLABICS WEST-CREE SWO", aliases: &[] },
    ]
}

fn all_codepoints_119() -> (v: Vec<Codepoint>)
    ensures
        v@ == codepoint_table_119(),
{
    let v = vec![
        Codepoint { codepoint: 0x14D6, name: "CANADIAN SYLLABICS LII", aliases: &[] },
        Codepoint { codepoint: 0x14D7, name: "CANADIAN SYLLABICS LO", aliases: &[] },
        Codepoint { codepoint: 0x14D8, name: "CANADIAN SYLLABICS LOO", aliases: &[] },
        Codepoint { codepoint: 0x14D9, name: "CANADIAN SYLLABICS Y-CREE LOO", aliases: &[] },
        Codepoint { codepoint: 0x14DA, name: "CANADIAN SYLLABICS LA", aliases: &[] },
        Codepoint { codepoint: 0x14DB, name: "CANADIAN SYLLABICS LAA", aliases: &[] },
        Codepoint { codepoint: 0x14DC, name: "CANADIAN SYLLABICS LWE", aliases: &[] },
        Codepoint { codepoint: 0x14DD, name: "CANADIAN SYLLABICS WEST-CREE LWE", aliases: &[] },
        Codepoint { codepoint: 0x14DE, name: "CANADIAN SYLLABICS LWI", aliases: &[] },
        Codepoint { codepoint: 0x14DF, name: "CANADIAN SYLLABICS WEST-CREE LWI", aliases: &[] },
        Codepoint { codepoint: 0x14E0, name: "CANADIAN SYLLABICS LWII", aliases: &[] },
        Codepoint { codepoint: 0x14E1, name: "CANADIAN SYLLABICS WEST-CREE LWII", aliases: &[] },
        Codepoint { codepoint: 0x14E2, name: "CANADIAN SYLLABICS LWO", aliases: &[] },
        Codepoint { codepoint: 0x14E3, name: "CANADIAN SYLLABICS WEST-CREE LWO", aliases: &[] },
        Codepoint { codepoint: 0x14E4, name: "CANADIAN SYLLABICS LWOO", aliases: &[] },
        Codepoint { codepoint: 0x14E5, name: "CANADIAN SYLLABICS WEST-CREE LWOO", aliases: &[] },
        Codepoint { codepoint: 0x14E6, name: "CANADIAN SYLLABICS LWA", aliases: &[] },
        Codepoint { codepoint: 0x14E7, name: "CANADIAN SYLLABICS WEST-CREE LWA", aliases: &[] },
        Codepoint { codepoint: 0x14E8, name: "CANADIAN SYLLABICS LWAA", aliases: &[] },
        Codepoint { codepoint: 0x14E9, name: "CANADIAN SYLLABICS WEST-CREE LWAA", aliases: &[] },
        Codepoint { codepoint: 0x14EA, name: "CANADIAN SYLLABICS L", aliases: &[] },
        Codepoint { codepoint: 0x14EB, name: "CANADIAN SYLLABICS WEST-CREE L", aliases: &[] },
        Codepoint { codepoint: 0x14EC, name: "CANADIAN SYLLABICS MEDIAL L", aliases: &[] },
        Codepoint { codepoint: 0x14ED, name: "CANADIAN SYLLABICS SE", aliases: &[] },
        Codepoint { codepoint: 0x14EE, name: "CANADIAN SYLLABICS SAAI", aliases: &[] },
        Codepoint { codepoint: 0x14EF, name: "CANADIAN SYLLABICS SI", aliases: &[] },
        Codepoint { codepoint: 0x14F0, name: "CANADIAN SYLLABICS SII", aliases: &[] },
        Codepoint { codepoint: 0x14F1, name: "CANADIAN SYLLABICS SO", aliases: &[] },
        Codepoint { codepoint: 0x14F2, name: "CANADIAN SYLLABICS SOO", aliases: &[] },
        Codepoint { codepoint: 0x14F3, name: "CANADIAN SYLLABICS Y-CREE SOO", aliases: &[] },
        Codepoint { codepoint: 0x14F4, name: "CANADIAN SYLLABICS SA", aliases: &[] },
        Codepoint { codepoint: 0x14F5, name: "CANADIAN SYLLABICS SAA", aliases: &[] },
        Codepoint { codepoint: 0x14F6, name: "CANADIAN SYLLABICS SWE", aliases: &[] },
        Codepoint { codepoint: 0x14F7, name: "CANADIAN SYLLABICS WEST-CREE SWE", aliases: &[] },
        Codepoint { codepoint: 0x14F8, name: "CANADIAN SYLLABICS SWI", aliases: &[] },
        Codepoint { codepoint: 0x14F9, name: "CANADIAN SYLLABICS WEST-CREE SWI", aliases: &[] },
        Codepoint { codepoint: 0x14FA, name: "CANADIAN SYLLABICS SWII", aliases: &[] },
        Codepoint { codepoint: 0x14FB, name: "CANADIAN SYLLABICS WEST-CREE SWII", aliases: &[] },
        Codepoint { codepoint: 0x14FC, name: "CANADIAN SYLLABICS SWO", aliases: &[] },
        Codepoint { codepoint: 0x14FD, name: "CANADIAN SYLLABICS WEST-CREE SWO", aliases: &[] },
    ];
    assert(v@ =~= codepoint_table_119());
    v
}

/// The entries from position 4000 of the table, 800 at most.
pub open spec fn codepoint_group_5() -> Seq<Codepoint> {
    codepoint_table_100() + codepoint_table_101() + codepoint_table_102() + codepoint_table_103() + codepoint_table_104() + codepoint_table_105() + codepoint_table_106() + codepoint_table_107() + codepoint_table_108() + codepoint_table_109() + codepoint_table_110() + codepoint_table_111() + codepoint_table_112() + codepoint_table_113() + codepoint_table_114() + codepoint_table_115() + codepoint_table_116() + codepoint_table_117() + codepoint_table_118() + codepoint_table_119()
}

pub fn all_codepoints_group_5() -> (v: Vec<Codepoint>)
    ensures
        v@ == codepoint_group_5(),
{
    let mut v = all_codepoints_100();
    let mut part = all_codepoints_101();
    v.append(&mut part);
    let mut part = all_codepoints_102();
    v.append(&mut part);
    let mut part = all_codepoints_103();
    v.append(&mut part);
    let mut part = all_codepoints_104();
    v.append(&mut part);
    let mut part = all_codepoints_105();
    v.append(&mut part);
    let mut part = all_codepoints_106();
    v.append(&mut part);
    let mut part = all_codepoints_107();
    v.append(&mut part);
    let mut part = all_codepoints_108();
    v.append(&mut part);
    let mut part = all_codepoints_109();
    v.append(&mut part);
    let mut part = all_codepoints_110();
    v.append(&mut part);
    let mut part = all_codepoints_111();
    v.append(&mut part);
    let mut part = all_codepoints_112();
    v.append(&mut part);
    let mut part = all_codepoints_113();
    v.append(&mut part);
    let mut part = all_codepoints_114();
    v.append(&mut part);
    let mut part = all_codepoints_115();
    v.append(&mut part);
    let mut part = all_codepoints_116();
    v.append(&mut part);
    let mut part = all_codepoints_117();
    v.append(&mut part);
    let mut part = all_codepoints_118();
    v.append(&mut part);
    let mut part = all_codepoints_119();
    v.append(&mut part);
    v
}

pub open spec fn codepoint_table_120() -> Seq<Codepoint> {
    seq![
        Codepoint { codepoint: 0x14FE, name: "CANADIAN SYLLABICS SWOO", aliases: &[] },
        Codepoint { codepoint: 0x14FF, name: "CANADIAN SYLLABICS WEST-CREE SWOO", aliases: &[] },
        Codepoint { codepoint: 0x1500, name: "CANADIAN SYLLABICS SWA", aliases: &[] },
        Codepoint { codepoint: 0x1501, name: "CANADIAN SYLLABICS WEST-CREE SWA", aliases: &[] },
        Codepoint { codepoint: 0x1502, name: "CANADIAN SYLLABICS SWAA", aliases: &[] },
        Codepoint { codepoint: 0x1503, name: "CANADIAN SYLLABICS WEST-CREE SWAA", aliases: &[] },
        Codepoint { codepoint: 0x1504, name: "CANADIAN SYLLABICS NASKAPI SWAA", aliases: &[] },
        Codepoint { codepoint: 0x1505, name: "CANADIAN SYLLABICS S", aliases: &[] },
        Codepoint { codepoint: 0x1506, name: "CANADIAN SYLLABICS ATHAPASCAN S", aliases: &[] },
        Codepoint { codepoint: 0x1507, name: "CANADIAN SYLLABICS SW", aliases: &[] },
        Codepoint { codepoint: 0x1508, name: "CANADIAN SYLLABICS BLACKFOOT S", aliases: &[] },
        Codepoint { codepoint: 0x1509, name: "CANADIAN SYLLABICS MOOSE-CREE SK", aliases: &[] },
        Codepoint { codepoint: 0x150A, name: "CANADIAN SYLLABICS NASKAPI SKW", aliases: &[] },
        Codepoint { codepoint: 0x150B, name: "CANADIAN SYLLABICS NASKAPI S-W", aliases: &[] },
        Codepoint { codepoint: 0x150C, name: "CANADIAN SYLLABICS NASKAPI SPWA", aliases: &[] },
        Codepoint { codepoint: 0x150D, name: "CANADIAN SYLLABICS NASKAPI STWA", aliases: &[] },
        Codepoint { codepoint: 0x150E, name: "CANADIAN SYLLABICS NASKAPI SKWA", aliases: &[] },
        Codepoint { codepoint: 0x150F, name: "CANADIAN SYLLABICS NASKAPI SCWA", aliases: &[] },
        Codepoint { codepoint: 0x1510, name: "CANADIAN SYLLABICS SHE", aliases: &[] },
        Codepoint { codepoint: 0x1511, name: "CANADIAN SYLLABICS SHI", aliases: &[] },
        Codepoint { codepoint: 0x1512, name: "CANADIAN SYLLABICS SHII", aliases: &[] },
        Codepoint { codepoint: 0x1513, name: "CANADIAN SYLLABICS SHO", aliases: &[] },
        Codepoint { codepoint: 0x1514, name: "CANADIAN SYLLABICS SHOO", aliases: &[] },
        Codepoint { codepoint: 0x1515, name: "CANADIAN SYLLABICS SHA", aliases: &[] },
        Codepoint { codepoint: 0x1516, name: "CANADIAN SYLLABICS SHAA", aliases: &[] },
        Codepoint { codepoint: 0x1517, name: "CANADIAN SYLLABICS SHWE", aliases: &[] },
        Codepoint { codepoint: 0x1518, name: "CANADIAN SYLLABICS WEST-CREE SHWE", aliases: &[] },
        Codepoint { codepoint: 0x1519, name: "CANADIAN SYLLABICS SHWI", aliases: &[] },
        Codepoint { codepoint: 0x151A, name: "CANADIAN SYLLABICS WEST-CREE SHWI", aliases: &[] },
        Codepoint { codepoint: 0x151B, name: "CANADIAN SYLLABICS SHWII", aliases: &[] },
        Codepoint { codepoint: 0x151C, name: "CANADIAN SYLLABICS WEST-CREE SHWII", aliases: &[] },
        Codepoint { codepoint: 0x151D, name: "CANADIAN SYLLABICS SHWO", aliases: &[] },
        Codepoint { codepoint: 0x151E, name: "CANADIAN SYLLABICS WEST-CREE SHWO", aliases: &[] },
        Codepoint { codepoint: 0x151F, name: "CANADIAN SYLLABICS SHWOO", aliases: &[] },
        Codepoint { codepoint: 0x1520, name: "CANADIAN SYLLABICS WEST-CREE SHWOO", aliases: &[] },
        Codepoint { codepoint: 0x1521, name: "CANADIAN SYLLABICS SHWA", aliases: &[] },
        Codepoint { codepoint: 0x1522, name: "CANADIAN SYLLABICS WEST-CREE SHWA", aliases: &[] },
        Codepoint { codepoint: 0x1523, name: "CANADIAN SYLLABICS SHWAA", aliases: &[] },
        Codepoint { codepoint: 0x1524, name: "CANADIAN SYLLABICS WEST-CREE SHWAA", aliases: &[] },
        Codepoint { codepoint: 0x1525, name: "CANADIAN SYLLABICS SH", aliases: &[] },
    ]
}

fn all_codepoints_120() -> (v: Vec<Codepoint>)
    ensures
        v@ == codepoint_table_120(),
{
    let v = vec![
        Codepoint { codepoint: 0x14FE, name: "CANADIAN SYLLABICS SWOO", aliases: &[] },
        Codepoint { codepoint: 0x14FF, name: "CANADIAN SYLLABICS WEST-CREE SWOO", aliases: &[] },
        Codepoint { codepoint: 0x1500, name: "CANADIAN SYLLABICS SWA", aliases: &[] },
        Codepoint { codepoint: 0x1501, name: "CANADIAN SYLLABICS WEST-CREE SWA", aliases: &[] },
        Codepoint { codepoint: 0x1502, name: "CANADIAN SYLLABICS SWAA", aliases: &[] },
        Codepoint { codepoint: 0x1503, name: "CANADIAN SYLLABICS WEST-CREE SWAA", aliases: &[] },
        Codepoint { codepoint: 0x1504, name: "CANADIAN SYLLABICS NASKAPI SWAA", aliases: &[] },
        Codepoint { codepoint: 0x1505, name: "CANADIAN SYLLABICS S", aliases: &[] },
        Codepoint { codepoint: 0x1506, name: "CANADIAN SYLLABICS ATHAPASCAN S", aliases: &[] },
        Codepoint { codepoint: 0x1507, name: "CANADIAN SYLLABICS SW", aliases: &[] },
        Codepoint { codepoint: 0x1508, name: "CANADIAN SYLLABICS BLACKFOOT S", aliases: &[] },
        Codepoint { codepoint: 0x1509, name: "CANADIAN SYLLABICS MOOSE-CREE SK", aliases: &[] },
        Codepoint { codepoint: 0x150A, name: "CANADIAN SYLLABICS NASKAPI SKW", aliases: &[] },
        Codepoint { codepoint: 0x150B, name: "CANADIAN SYLLABICS NASKAPI S-W", aliases: &[] },
        Codepoint { codepoint: 0x150C, name: "CANADIAN SYLLABICS NASKAPI SPWA", aliases: &[] },
        Codepoint { codepoint: 0x150D, name: "CANADIAN SYLLABICS NASKAPI STWA", aliases: &[] },
        Codepoint { codepoint: 0x150E, name: "CANADIAN SYLLABICS NASKAPI SKWA", aliases: &[] },
        Codepoint { codepoint: 0x150F, name: "CANADIAN SYLLABICS NASKAPI SCWA", aliases: &[] },
        Codepoint { codepoint: 0x1510, name: "CANADIAN SYLLABICS SHE", aliases: &[] },
        Codepoint { codepoint: 0x1511, name: "CANADIAN SYLLABICS SHI", aliases: &[] },
        Codepoint { codepoint: 0x1512, name: "CANADIAN SYLLABICS SHII", aliases: &[] },
        Codepoint { codepoint: 0x1513, name: "CANADIAN SYLLABICS SHO", aliases: &[] },
        Codepoint { codepoint: 0x1514, name: "CANADIAN SYLLABICS SHOO", aliases: &[] },
        Codepoint { codepoint: 0x1515, name: "CANADIAN SYLLABICS SHA", aliases: &[] },
        Codepoint { codepoint: 0x1516, name: "CANADIAN SYLLABICS SHAA", aliases: &[] },
        Codepoint { codepoint: 0x1517, name: "CANADIAN SYLLABICS SHWE", aliases: &[] },
        Codepoint { codepoint: 0x1518, name: "CANADIAN SYLLABICS WEST-CREE SHWE", aliases: &[] },
        Codepoint { codepoint: 0x1519, name: "CANADIAN SYLLABICS SHWI", aliases: &[] },
        Codepoint { codepoint: 0x151A, name: "CANADIAN SYLLABICS WEST-CREE SHWI", aliases: &[] },
        Codepoint { codepoint: 0x151B, name: "CANADIAN SYLLABICS SHWII", aliases: &[] },
        Codepoint { codepoint: 0x151C, name: "CANADIAN SYLLABICS WEST-CREE SHWII", aliases: &[] },
        Codepoint { codepoint: 0x151D, name: "CANADIAN SYLLABICS SHWO", aliases: &[] },
        Codepoint { codepoint: 0x151E, name: "CANADIAN SYLLABICS WEST-CREE SHWO", aliases: &[] },
        Codepoint { codepoint: 0x151F, name: "CANADIAN SYLLABICS SHWOO", aliases: &[] },
        Codepoint { codepoint: 0x1520, name: "CANADIAN SYLLABICS WEST-CREE SHWOO", aliases: &[] },
        Codepoint { codepoint: 0x1521, name: "CANADIAN SYLLABICS SHWA", aliases: &[] },
        Codepoint { codepoint: 0x1522, name: "CANADIAN SYLLABICS WEST-CREE SHWA", aliases: &[] },
        Codepoint { codepoint: 0x1523, name: "CANADIAN SYLLABICS SHWAA", aliases: &[] },
        Codepoint { codepoint: 0x1524, name: "CANADIAN SYLLABICS WEST-CREE SHWAA", aliases: &[] },
        Codepoint { codepoint: 0x1525, name: "CANADIAN SYLLABICS SH", aliases: &[] },
    ];
    assert(v@ =~= codepoint_table_120());
    v
}

pub open spec fn codepoint_table_121() -> Seq<Codepoint> {
    seq![
        Codepoint { codepoint: 0x1526, name: "CANADIAN SYLLABICS YE", aliases: &[] },
        Codepoint { codepoint: 0x1527, name: "CANADIAN SYLLABICS YAAI", aliases: &[] },
        Codepoint { codepoint: 0x1528, name: "CANADIAN SYLLABICS YI", aliases: &[] },
        Codepoint { codepoint: 0x1529, name: "CANADIAN SYLLABICS YII", aliases: &[] },
        Codepoint { codepoint: 0x152A, name: "CANADIAN SYLLABICS YO", aliases: &[] },
        Codepoint { codepoint: 0x152B, name: "CANADIAN SYLLABICS YOO", aliases: &[] },
        Codepoint { codepoint: 0x152C, name: "CANADIAN SYLLABICS Y-CREE YOO", aliases: &[] },
        Codepoint { codepoint: 0x152D, name: "CANADIAN SYLLABICS YA", aliases: &[] },
        Codepoint { codepoint: 0x152E, name: "CANADIAN SYLLABICS YAA", aliases: &[] },
        Codepoint { codepoint: 0x152F, name: "CANADIAN SYLLABICS YWE", aliases: &[] },
        Codepoint { codepoint: 0x1530, name: "CANADIAN SYLLABICS WEST-CREE YWE", aliases: &[] },
        Codepoint { codepoint: 0x1531, name: "CANADIAN SYLLABICS YWI", aliases: &[] },
        Codepoint { codepoint: 0x1532, name: "CANADIAN SYLLABICS WEST-CREE YWI", aliases: &[] },
        Codepoint { codepoint: 0x1533, name: "CANADIAN SYLLABICS YWII", aliases: &[] },
        Codepoint { codepoint: 0x1534, name: "CANADIAN SYLLABICS WEST-CREE YWII", aliases: &[] },
        Codepoint { codepoint: 0x1535, name: "CANADIAN SYLLABICS YWO", aliases: &[] },
        Codepoint { codepoint: 0x1536, name: "CANADIAN SYLLABICS WEST-CREE YWO", aliases: &[] },
        Codepoint { codepoint: 0x1537, name: "CANADIAN SYLLABICS YWOO", aliases: &[] },
        Codepoint { codepoint: 0x1538, name: "CANADIAN SYLLABICS WEST-CREE YWOO", aliases: &[] },
        Codepoint { codepoint: 0x1539, name: "CANADIAN SYLLABICS YWA", aliases: &[] },
        Codepoint { codepoint: 0x153A, name: "CANADIAN SYLLABICS WEST-CREE YWA", aliases: &[] },
        Codepoint { codepoint: 0x153B, name: "CANADIAN SYLLABICS YWAA", aliases: &[] },
        Codepoint { codepoint: 0x153C, name: "CANADIAN SYLLABICS WEST-CREE YWAA", aliases: &[] },
        Codepoint { codepoint: 0x153D, name: "CANADIAN SYLLABICS NASKAPI YWAA", aliases: &[] },
        Codepoint { codepoint: 0x153E, name: "CANADIAN SYLLABICS Y", aliases: &[] },
        Codepoint { codepoint: 0x153F, name: "CANADIAN SYLLABICS BIBLE-CREE Y", aliases: &[] },
        Codepoint { codepoint: 0x1540, name: "CANADIAN SYLLABICS WEST-CREE Y", aliases: &[] },
        Codepoint { codepoint: 0x1541, name: "CANADIAN SYLLABICS SAYISI YI", aliases: &[] },
        Codepoint { codepoint: 0x1542, name: "CANADIAN SYLLABICS RE", aliases: &[] },
        Codepoint { codepoint: 0x1543, name: "CANADIAN SYLLABICS R-CREE RE", aliases: &[] },
        Codepoint { codepoint: 0x1544, name: "CANADIAN SYLLABICS WEST-CREE LE", aliases: &[] },
        Codepoint { codepoint: 0x1545, name: "CANADIAN SYLLABICS RAAI", aliases: &[] },
        Codepoint { codepoint: 0x1546, name: "CANADIAN SYLLABICS RI", aliases: &[] },
        Codepoint { codepoint: 0x1547, name: "CANADIAN SYLLABICS RII", aliases: &[] },
        Codepoint { codepoint: 0x1548, name: "CANADIAN SYLLABICS RO", aliases: &[] },
        Codepoint { codepoint: 0x1549, name: "CANADIAN SYLLABICS ROO", aliases: &[] },
        Codepoint { codepoint: 0x154A, name: "CANADIAN SYLLABICS WEST-CREE LO", aliases: &[] },
        Codepoint { codepoint: 0x154B, name: "CANADIAN SYLLABICS RA", aliases: &[] },
        Codepoint { codepoint: 0x154C, name: "CANADIAN SYLLABICS RAA", aliases: &[] },
        Codepoint { codepoint: 0x154D, name: "CANADIAN SYLLABICS WEST-CREE LA", aliases: &[] },
    ]
}

fn all_codepoints_121() -> (v: Vec<Codepoint>)
    ensures
        v@ == codepoint_table_121(),
{
    let v = vec![
        Codepoint { codepoint: 0x1526, name: "CANADIAN SYLLABICS YE", aliases: &[] },
        Codepoint { codepoint: 0x1527, name: "CANADIAN SYLLABICS YAAI", aliases: &[] },
        Codepoint { codepoint: 0x1528, name: "CANADIAN SYLLABICS YI", aliases: &[] },
        Codepoint { codepoint: 0x1529, name: "CANADIAN SYLLABICS YII", aliases: &[] },
        Codepoint { codepoint: 0x152A, name: "CANADIAN SYLLABICS YO", aliases: &[] },
        Codepoint { codepoint: 0x152B, name: "CANADIAN SYLLABICS YOO", aliases: &[] },
        Codepoint { codepoint: 0x152C, name: "CANADIAN SYLLABICS Y-CREE YOO", aliases: &[] },
        Codepoint { codepoint: 0x152D, name: "CANADIAN SYLLABICS YA", aliases: &[] },
        Codepoint { codepoint: 0x152E, name: "CANADIAN SYLLABICS YAA", aliases: &[] },
        Codepoint { codepoint: 0x152F, name: "CANADIAN SYLLABICS YWE", aliases: &[] },
        Codepoint { codepoint: 0x1530, name: "CANADIAN SYLLABICS WEST-CREE YWE", aliases: &[] },
        Codepoint { codepoint: 0x1531, name: "CANADIAN SYLLABICS YWI", aliases: &[] },
        Codepoint { codepoint: 0x1532, name: "CANADIAN SYLLABICS WEST-CREE YWI", aliases: &[] },
        Codepoint { codepoint: 0x1533, name: "CANADIAN SYLLABICS YWII", aliases: &[] },
        Codepoint { codepoint: 0x1534, name: "CANADIAN SYLLABICS WEST-CREE YWII", aliases: &[] },
        Codepoint { codepoint: 0x1535, name: "CANADIAN SYLLABICS YWO", aliases: &[] },
        Codepoint { codepoint: 0x1536, name: "CANADIAN SYLLABICS WEST-CREE YWO", aliases: &[] },
        Codepoint { codepoint: 0x1537, name: "CANADIAN SYLLABICS YWOO", aliases: &[] },
        Codepoint { codepoint: 0x1538, name: "CANADIAN SYLLABICS WEST-CREE YWOO", aliases: &[] },
        Codepoint { codepoint: 0x1539, name: "CANADIAN SYLLABICS YWA", aliases: &[] },
        Codepoint { codepoint: 0x153A, name: "CANADIAN SYLLABICS WEST-CREE YWA", aliases: &[] },
        Codepoint { codepoint: 0x153B, name: "CANADIAN SYLLABICS YWAA", aliases: &[] },
        Codepoint { codepoint: 0x153C, name: "CANADIAN SYLLABICS WEST-CREE YWAA", aliases: &[] },
        Codepoint { codepoint: 0x153D, name: "CANADIAN SYLLABICS NASKAPI YWAA", aliases: &[] },
        Codepoint { codepoint: 0x153E, name: "CANADIAN SYLLABICS Y", aliases: &[] },
        Codepoint { codepoint: 0x153F, name: "CANADIAN SYLLABICS BIBLE-CREE Y", aliases: &[] },
        Codepoint { codepoint: 0x1540, name: "CANADIAN SYLLABICS WEST-CREE Y", aliases: &[] },
        Codepoint { codepoint: 0x1541, name: "CANADIAN SYLLABICS SAYISI YI", aliases: &[] },
        Codepoint { codepoint: 0x1542, name: "CANADIAN SYLLABICS RE", aliases: &[] },
        Codepoint { codepoint: 0x1543, name: "CANADIAN SYLLABICS R-CREE RE", aliases: &[] },
        Codepoint { codepoint: 0x1544, name: "CANADIAN SYLLABICS WEST-CREE LE", aliases: &[] },
        Codepoint { codepoint: 0x1545, name: "CANADIAN SYLLABICS RAAI", aliases: &[] },
        Codepoint { codepoint: 0x1546, name: "CANADIAN SYLLABICS RI", aliases: &[] },
        Codepoint { codepoint: 0x1547, name: "CANADIAN SYLLABICS RII", aliases: &[] },
        Codepoint { codepoint: 0x1548, name: "CANADIAN SYLLABICS RO", aliases: &[] },
        Codepoint { codepoint: 0x1549, name: "CANADIAN SYLLABICS ROO", aliases: &[] },
        Codepoint { codepoint: 0x154A, name: "CANADIAN SYLLABICS WEST-CREE LO", aliases: &[] },
        Codepoint { codepoint: 0x154B, name: "CANADIAN SYLLABICS RA", aliases: &[] },
        Codepoint { codepoint: 0x154C, name: "CANADIAN SYLLABICS RAA", aliases: &[] },
        Codepoint { codepoint: 0x154D, name: "CANADIAN SYLLABICS WEST-CREE LA", aliases: &[] },
    ];
    assert(v@ =~= codepoint_table_121());
    v
}

pub open spec fn codepoint_table_122() -> Seq<Codepoint> {
    seq![
        Codepoint { codepoint: 0x154E, name: "CANADIAN SYLLABICS RWAA", aliases: &[] },
        Codepoint { codepoint: 0x154F, name: "CANADIAN SYLLABICS WEST-CREE RWAA", aliases: &[] },
        Codepoint { codepoint: 0x1550, name: "CANADIAN SYLLABICS R", aliases: &[] },
        Codepoint { codepoint: 0x1551, name: "CANADIAN SYLLABICS WEST-CREE R", aliases: &[] },
        Codepoint { codepoint: 0x1552, name: "CANADIAN SYLLABICS MEDIAL R", aliases: &[] },
        Codepoint { codepoint: 0x1553, name: "CANADIAN SYLLABICS FE", aliases: &[] },
        Codepoint { codepoint: 0x1554, name: "CANADIAN SYLLABICS FAAI", aliases: &[] },
        Codepoint { codepoint: 0x1555, name: "CANADIAN SYLLABICS FI", aliases: &[] },
        Codepoint { codepoint: 0x1556, name: "CANADIAN SYLLABICS FII", aliases: &[] },
        Codepoint { codepoint: 0x1557, name: "CANADIAN SYLLABICS FO", aliases: &[] },
        Codepoint { codepoint: 0x1558, name: "CANADIAN SYLLABICS FOO", aliases: &[] },
        Codepoint { codepoint: 0x1559, name: "CANADIAN SYLLABICS FA", aliases: &[] },
        Codepoint { codepoint: 0x155A, name: "CANADIAN SYLLABICS FAA", aliases: &[] },
        Codepoint { codepoint: 0x155B, name: "CANADIAN SYLLABICS FWAA", aliases: &[] },
        Codepoint { codepoint: 0x155C, name: "CANADIAN SYLLABICS WEST-CREE FWAA", aliases: &[] },
        Codepoint { codepoint: 0x155D, name: "CANADIAN SYLLABICS F", aliases: &[] },
        Codepoint { codepoint: 0x155E, name: "CANADIAN SYLLABICS THE", aliases: &[] },
        Codepoint { codepoint: 0x155F, name: "CANADIAN SYLLABICS N-CREE THE", aliases: &[] },
        Codepoint { codepoint: 0x1560, name: "CANADIAN SYLLABICS THI", aliases: &[] },
        Codepoint { codepoint: 0x1561, name: "CANADIAN SYLLABICS N-CREE THI", aliases: &[] },
        Codepoint { codepoint: 0x1562, name: "CANADIAN SYLLABICS THII", aliases: &[] },
        Codepoint { codepoint: 0x1563, name: "CANADIAN SYLLABICS N-CREE THII", aliases: &[] },
        Codepoint { codepoint: 0x1564, name: "CANADIAN SYLLABICS THO", aliases: &[] },
        Codepoint { codepoint: 0x1565, name: "CANADIAN SYLLABICS THOO", aliases: &[] },
        Codepoint { codepoint: 0x1566, name: "CANADIAN SYLLABICS THA", aliases: &[] },
        Codepoint { codepoint: 0x1567, name: "CANADIAN SYLLABICS THAA", aliases: &[] },
        Codepoint { codepoint: 0x1568, name: "CANADIAN SYLLABICS THWAA", aliases: &[] },
        Codepoint { codepoint: 0x1569, name: "CANADIAN SYLLABICS WEST-CREE THWAA", aliases: &[] },
        Codepoint { codepoint: 0x156A, name: "CANADIAN SYLLABICS TH", aliases: &[] },
        Codepoint { codepoint: 0x156B, name: "CANADIAN SYLLABICS TTHE", aliases: &[] },
        Codepoint { codepoint: 0x156C, name: "CANADIAN SYLLABICS TTHI", aliases: &[] },
        Codepoint { codepoint: 0x156D, name: "CANADIAN SYLLABICS TTHO", aliases: &[] },
        Codepoint { codepoint: 0x156E, name: "CANADIAN SYLLABICS TTHA", aliases: &[] },
        Codepoint { codepoint: 0x156F, name: "CANADIAN SYLLABICS TTH", aliases: &[] },
        Codepoint { codepoint: 0x1570, name: "CANADIAN SYLLABICS TYE", aliases: &[] },
        Codepoint { codepoint: 0x1571, name: "CANADIAN SYLLABICS TYI", aliases: &[] },
        Codepoint { codepoint: 0x1572, name: "CANADIAN SYLLABICS TYO", aliases: &[] },
        Codepoint { codepoint: 0x1573, name: "CANADIAN SYLLABICS TYA", aliases: &[] },
        Codepoint { codepoint: 0x1574, name: "CANADIAN SYLLABICS NUNAVIK HE", aliases: &[] },
        Codepoint { codepoint: 0x1575, name: "CANADIAN SYLLABICS NUNAVIK HI", aliases: &[] },
    ]
}

fn all_codepoints_122() -> (v: Vec<Codepoint>)
    ensures
        v@ == codepoint_table_122(),
{
    let v = vec![
        Codepoint { codepoint: 0x154E, name: "CANADIAN SYLLABICS RWAA", aliases: &[] },
        Codepoint { codepoint: 0x154F, name: "CANADIAN SYLLABICS WEST-CREE RWAA", aliases: &[] },
        Codepoint { codepoint: 0x1550, name: "CANADIAN SYLLABICS R", aliases: &[] },
        Codepoint { codepoint: 0x1551, name: "CANADIAN SYLLABICS WEST-CREE R", aliases: &[] },
        Codepoint { codepoint: 0x1552, name: "CANADIAN SYLLABICS MEDIAL R", aliases: &[] },
        Codepoint { codepoint: 0x1553, name: "CANADIAN SYLLABICS FE", aliases: &[] },
        Codepoint { codepoint: 0x1554, name: "CANADIAN SYLLABICS FAAI", aliases: &[] },
        Codepoint { codepoint: 0x1555, name: "CANADIAN SYLLABICS FI", aliases: &[] },
        Codepoint { codepoint: 0x1556, name: "CANADIAN SYLLABICS FII", aliases: &[] },
        Codepoint { codepoint: 0x1557, name: "CANADIAN SYLLABICS FO", aliases: &[] },
        Codepoint { codepoint: 0x1558, name: "CANADIAN SYLLABICS FOO", aliases: &[] },
        Codepoint { codepoint: 0x1559, name: "CANADIAN SYLLABICS FA", aliases: &[] },
        Codepoint { codepoint: 0x155A, name: "CANADIAN SYLLABICS FAA", aliases: &[] },
        Codepoint { codepoint: 0x155B, name: "CANADIAN SYLLABICS FWAA", aliases: &[] },
        Codepoint { codepoint: 0x155C, name: "CANADIAN SYLLABICS WEST-CREE FWAA", aliases: &[] },
        Codepoint { codepoint: 0x155D, name: "CANADIAN SYLLABICS F", aliases: &[] },
        Codepoint { codepoint: 0x155E, name: "CANADIAN SYLLABICS THE", aliases: &[] },
        Codepoint { codepoint: 0x155F, name: "CANADIAN SYLLABICS N-CREE THE", aliases: &[] },
        Codepoint { codepoint: 0x1560, name: "CANADIAN SYLLABICS THI", aliases: &[] },
        Codepoint { codepoint: 0x1561, name: "CANADIAN SYLLABICS N-CREE THI", aliases: &[] },
        Codepoint { codepoint: 0x1562, name: "CANADIAN SYLLABICS THII", aliases: &[] },
        Codepoint { codepoint: 0x1563, name: "CANADIAN SYLLABICS N-CREE THII", aliases: &[] },
        Codepoint { codepoint: 0x1564, name: "CANADIAN SYLLABICS THO", aliases: &[] },
        Codepoint { codepoint: 0x1565, name: "CANADIAN SYLLABICS THOO", aliases: &[] },
        Codepoint { codepoint: 0x1566, name: "CANADIAN SYLLABICS THA", aliases: &[] },
        Codepoint { codepoint: 0x1567, name: "CANADIAN SYLLABICS THAA", aliases: &[] },
        Codepoint { codepoint: 0x1568, name: "CANADIAN SYLLABICS THWAA", aliases: &[] },
        Codepoint { codepoint: 0x1569, name: "CANADIAN SYLLABICS WEST-CREE THWAA", aliases: &[] },
        Codepoint { codepoint: 0x156A, name: "CANADIAN SYLLABICS TH", aliases: &[] },
        Codepoint { codepoint: 0x156B, name: "CANADIAN SYLLABICS TTHE", aliases: &[] },
        Codepoint { codepoint: 0x156C, name: "CANADIAN SYLLABICS TTHI", aliases: &[] },
        Codepoint { codepoint: 0x156D, name: "CANADIAN SYLLABICS TTHO", aliases: &[] },
        Codepoint { codepoint: 0x156E, name: "CANADIAN SYLLABICS TTHA", aliases: &[] },
        Codepoint { codepoint: 0x156F, name: "CANADIAN SYLLABICS TTH", aliases: &[] },
        Codepoint { codepoint: 0x1570, name: "CANADIAN SYLLABICS TYE", aliases: &[] },
        Codepoint { codepoint: 0x1571, name: "CANADIAN SYLLABICS TYI", aliases: &[] },
        Codepoint { codepoint: 0x1572, name: "CANADIAN SYLLABICS TYO", aliases: &[] },
        Codepoint { codepoint: 0x1573, name: "CANADIAN SYLLABICS TYA", aliases: &[] },
        Codepoint { codepoint: 0x1574, name: "CANADIAN SYLLABICS NUNAVIK HE", aliases: &[] },
        Codepoint { codepoint: 0x1575, name: "CANADIAN SYLLABICS NUNAVIK HI", aliases: &[] },
    ];
    assert(v@ =~= codepoint_table_122());
    v
}

pub open spec fn codepoint_table_123() -> Seq<Codepoint> {
    seq![
        Codepoint { codepoint: 0x1576, name: "CANADIAN SYLLABICS NUNAVIK HII", aliases: &[] },
        Codepoint { codepoint: 0x1577, name: "CANADIAN SYLLABICS NUNAVIK HO", aliases: &[] },
        Codepoint { codepoint: 0x1578, name: "CANADIAN SYLLABICS NUNAVIK HOO", aliases: &[] },
        Codepoint { codepoint: 0x1579, name: "CANADIAN SYLLABICS NUNAVIK HA", aliases: &[] },
        Codepoint { codepoint: 0x157A, name: "CANADIAN SYLLABICS NUNAVIK HAA", aliases: &[] },
        Codepoint { codepoint: 0x157B, name: "CANADIAN SYLLABICS NUNAVIK H", aliases: &[] },
        Codepoint { codepoint: 0x157C, name: "CANADIAN SYLLABICS NUNAVUT H", aliases: &[] },
        Codepoint { codepoint: 0x157D, name: "CANADIAN SYLLABICS HK", aliases: &[] },
        Codepoint { codepoint: 0x157E, name: "CANADIAN SYLLABICS QAAI", aliases: &[] },
        Codepoint { codepoint: 0x157F, name: "CANADIAN SYLLABICS QI", aliases: &[] },
        Codepoint { codepoint: 0x1580, name: "CANADIAN SYLLABICS QII", aliases: &[] },
        Codepoint { codepoint: 0x1581, name: "CANADIAN SYLLABICS QO", aliases: &[] },
        Codepoint { codepoint: 0x1582, name: "CANADIAN SYLLABICS QOO", aliases: &[] },
        Codepoint { codepoint: 0x1583, name: "CANADIAN SYLLABICS QA", aliases: &[] },
        Codepoint { codepoint: 0x1584, name: "CANADIAN SYLLABICS QAA", aliases: &[] },
        Codepoint { codepoint: 0x1585, name: "CANADIAN SYLLABICS Q", aliases: &[] },
        Codepoint { codepoint: 0x1586, name: "CANADIAN SYLLABICS TLHE", aliases: &[] },
        Codepoint { codepoint: 0x1587, name: "CANADIAN SYLLABICS TLHI", aliases: &[] },
        Codepoint { codepoint: 0x1588, name: "CANADIAN SYLLABICS TLHO", aliases: &[] },
        Codepoint { codepoint: 0x1589, name: "CANADIAN SYLLABICS TLHA", aliases: &[] },
        Codepoint { codepoint: 0x158A, name: "CANADIAN SYLLABICS WEST-CREE RE", aliases: &[] },
        Codepoint { codepoint: 0x158B, name: "CANADIAN SYLLABICS WEST-CREE RI", aliases: &[] },
        Codepoint { codepoint: 0x158C, name: "CANADIAN SYLLABICS WEST-CREE RO", aliases: &[] },
        Codepoint { codepoint: 0x158D, name: "CANADIAN SYLLABICS WEST-CREE RA", aliases: &[] },
        Codepoint { codepoint: 0x158E, name: "CANADIAN SYLLABICS NGAAI", aliases: &[] },
        Codepoint { codepoint: 0x158F, name: "CANADIAN SYLLABICS NGI", aliases: &[] },
        Codepoint { codepoint: 0x1590, name: "CANADIAN SYLLABICS NGII", aliases: &[] },
        Codepoint { codepoint: 0x1591, name: "CANADIAN SYLLABICS NGO", aliases: &[] },
        Codepoint { codepoint: 0x1592, name: "CANADIAN SYLLABICS NGOO", aliases: &[] },
        Codepoint { codepoint: 0x1593, name: "CANADIAN SYLLABICS NGA", aliases: &[] },
        Codepoint { codepoint: 0x1594, name: "CANADIAN SYLLABICS NGAA", aliases: &[] },
        Codepoint { codepoint: 0x1595, name: "CANADIAN SYLLABICS NG", aliases: &[] },
        Codepoint { codepoint: 0x1596, name: "CANADIAN SYLLABICS NNG", aliases: &[] },
        Codepoint { codepoint: 0x1597, name: "CANADIAN SYLLABICS SAYISI SHE", aliases: &[] },
        Codepoint { codepoint: 0x1598, name: "CANADIAN SYLLABICS SAYISI SHI", aliases: &[] },
        Codepoint { codepoint: 0x1599, name: "CANADIAN SYLLABICS SAYISI SHO", aliases: &[] },
        Codepoint { codepoint: 0x159A, name: "CANADIAN SYLLABICS SAYISI SHA", aliases: &[] },
        Codepoint { codepoint: 0x159B, name: "CANADIAN SYLLABICS WOODS-CREE THE", aliases: &[] },
        Codepoint { codepoint: 0x159C, name: "CANADIAN SYLLABICS WOODS-CREE THI", aliases: &[] },
        Codepoint { codepoint: 0x159D, name: "CANADIAN SYLLABICS WOODS-CREE THO", aliases: &[] },
    ]
}

fn all_codepoints_123() -> (v: Vec<Codepoint>)
    ensures
        v@ == codepoint_table_123(),
{
    let v = vec![
        Codepoint { codepoint: 0x1576, name: "CANADIAN SYLLABICS NUNAVIK HII", aliases: &[] },
        Codepoint { codepoint: 0x1577, name: "CANADIAN SYLLABICS NUNAVIK HO", aliases: &[] },
        Codepoint { codepoint: 0x1578, name: "CANADIAN SYLLABICS NUNAVIK HOO", aliases: &[] },
        Codepoint { codepoint: 0x1579, name: "CANADIAN SYLLABICS NUNAVIK HA", aliases: &[] },
        Codepoint { codepoint: 0x157A, name: "CANADIAN SYLLABICS NUNAVIK HAA", aliases: &[] },
        Codepoint { codepoint: 0x157B, name: "CANADIAN SYLLABICS NUNAVIK H", aliases: &[] },
        Codepoint { codepoint: 0x157C, name: "CANADIAN SYLLABICS NUNAVUT H", aliases: &[] },
        Codepoint { codepoint: 0x157D, name: "CANADIAN SYLLABICS HK", aliases: &[] },
        Codepoint { codepoint: 0x157E, name: "CANADIAN SYLLABICS QAAI", aliases: &[] },
        Codepoint { codepoint: 0x157F, name: "CANADIAN SYLLABICS QI", aliases: &[] },
        Codepoint { codepoint: 0x1580, name: "CANADIAN SYLLABICS QII", aliases: &[] },
        Codepoint { codepoint: 0x1581, name: "CANADIAN SYLLABICS QO", aliases: &[] },
        Codepoint { codepoint: 0x1582, name: "CANADIAN SYLLABICS QOO", aliases: &[] },
        Codepoint { codepoint: 0x1583, name: "CANADIAN SYLLABICS QA", aliases: &[] },
        Codepoint { codepoint: 0x1584, name: "CANADIAN SYLLABICS QAA", aliases: &[] },
        Codepoint { codepoint: 0x1585, name: "CANADIAN SYLLABICS Q", aliases: &[] },
        Codepoint { codepoint: 0x1586, name: "CANADIAN SYLLABICS TLHE", aliases: &[] },
        Codepoint { codepoint: 0x1587, name: "CANADIAN SYLLABICS TLHI", aliases: &[] },
        Codepoint { codepoint: 0x1588, name: "CANADIAN SYLLABICS TLHO", aliases: &[] },
        Codepoint { codepoint: 0x1589, name: "CANADIAN SYLLABICS TLHA", aliases: &[] },
        Codepoint { codepoint: 0x158A, name: "CANADIAN SYLLABICS WEST-CREE RE", aliases: &[] },
        Codepoint { codepoint: 0x158B, name: "CANADIAN SYLLABICS WEST-CREE RI", aliases: &[] },
        Codepoint { codepoint: 0x158C, name: "CANADIAN SYLLABICS WEST-CREE RO", aliases: &[] },
        Codepoint { codepoint: 0x158D, name: "CANADIAN SYLLABICS WEST-CREE RA", aliases: &[] },
        Codepoint { codepoint: 0x158E, name: "CANADIAN SYLLABICS NGAAI", aliases: &[] },
        Codepoint { codepoint: 0x158F, name: "CANADIAN SYLLABICS NGI", aliases: &[] },
        Codepoint { codepoint: 0x1590, name: "CANADIAN SYLLABICS NGII", aliases: &[] },
        Codepoint { codepoint: 0x1591, name: "CANADIAN SYLLABICS NGO", aliases: &[] },
        Codepoint { codepoint: 0x1592, name: "CANADIAN SYLLABICS NGOO", aliases: &[] },
        Codepoint { codepoint: 0x1593, name: "CANADIAN SYLLABICS NGA", aliases: &[] },
        Codepoint { codepoint: 0x1594, name: "CANADIAN SYLLABICS NGAA", aliases: &[] },
        Codepoint { codepoint: 0x1595, name: "CANADIAN SYLLABICS NG", aliases: &[] },
        Codepoint { codepoint: 0x1596, name: "CANADIAN SYLLABICS NNG", aliases: &[] },
        Codepoint { codepoint: 0x1597, name: "CANADIAN SYLLABICS SAYISI SHE", aliases: &[] },
        Codepoint { codepoint: 0x1598, name: "CANADIAN SYLLABICS SAYISI SHI", aliases: &[] },
        Codepoint { codepoint: 0x1599, name: "CANADIAN SYLLABICS SAYISI SHO", aliases: &[] },
        Codepoint { codepoint: 0x159A, name: "CANADIAN SYLLABICS SAYISI SHA", aliases: &[] },
        Codepoint { codepoint: 0x159B, name: "CANADIAN SYLLABICS WOODS-CREE THE", aliases: &[] },
        Codepoint { codepoint: 0x159C, name: "CANADIAN SYLLABICS WOODS-CREE THI", aliases: &[] },
        Codepoint { codepoint: 0x159D, name: "CANADIAN SYLLABICS WOODS-CREE THO", aliases: &[] },
    ];
    assert(v@ =~= codepoint_table_123());
    v
}

pub open spec fn codepoint_table_124() -> Seq<Codepoint> {
    seq![
        Codepoint { codepoint: 0x159E, name: "CANADIAN SYLLABICS WOODS-CREE THA", aliases: &[] },
        Codepoint { codepoint: 0x159F, name: "CANADIAN SYLLABICS WOODS-CREE TH", aliases: &[] },
        Codepoint { codepoint: 0x15A0, name: "CANADIAN SYLLABICS LHI", aliases: &[] },
        Codepoint { codepoint: 0x15A1, name: "CANADIAN SYLLABICS LHII", aliases: &[] },
        Codepoint { codepoint: 0x15A2, name: "CANADIAN SYLLABICS LHO", aliases: &[] },
        Codepoint { codepoint: 0x15A3, name: "CANADIAN SYLLABICS LHOO", aliases: &[] },
        Codepoint { codepoint: 0x15A4, name: "CANADIAN SYLLABICS LHA", aliases: &[] },
        Codepoint { codepoint: 0x15A5, name: "CANADIAN SYLLABICS LHAA", aliases: &[] },
        Codepoint { codepoint: 0x15A6, name: "CANADIAN SYLLABICS LH", aliases: &[] },
        Codepoint { codepoint: 0x15A7, name: "CANADIAN SYLLABICS TH-CREE THE", aliases: &[] },
        Codepoint { codepoint: 0x15A8, name: "CANADIAN SYLLABICS TH-CREE THI", aliases: &[] },
        Codepoint { codepoint: 0x15A9, name: "CANADIAN SYLLABICS TH-CREE THII", aliases: &[] },
        Codepoint { codepoint: 0x15AA, name: "CANADIAN SYLLABICS TH-CREE THO", aliases: &[] },
        Codepoint { codepoint: 0x15AB, name: "CANADIAN SYLLABICS TH-CREE THOO", aliases: &[] },
        Codepoint { codepoint: 0x15AC, name: "CANADIAN SYLLABICS TH-CREE THA", aliases: &[] },
        Codepoint { codepoint: 0x15AD, name: "CANADIAN SYLLABICS TH-CREE THAA", aliases: &[] },
        Codepoint { codepoint: 0x15AE, name: "CANADIAN SYLLABICS TH-CREE TH", aliases: &[] },
        Codepoint { codepoint: 0x15AF, name: "CANADIAN SYLLABICS AIVILIK B", aliases: &[] },
        Codepoint { codepoint: 0x15B0, name: "CANADIAN SYLLABICS BLACKFOOT E", aliases: &[] },
        Codepoint { codepoint: 0x15B1, name: "CANADIAN SYLLABICS BLACKFOOT I", aliases: &[] },
        Codepoint { codepoint: 0x15B2, name: "CANADIAN SYLLABICS BLACKFOOT O", aliases: &[] },
        Codepoint { codepoint: 0x15B3, name: "CANADIAN SYLLABICS BLACKFOOT A", aliases: &[] },
        Codepoint { codepoint: 0x15B4, name: "CANADIAN SYLLABICS BLACKFOOT WE", aliases: &[] },
        Codepoint { codepoint: 0x15B5, name: "CANADIAN SYLLABICS BLACKFOOT WI", aliases: &[] },
        Codepoint { codepoint: 0x15B6, name: "CANADIAN SYLLABICS BLACKFOOT WO", aliases: &[] },
        Codepoint { codepoint: 0x15B7, name: "CANADIAN SYLLABICS BLACKFOOT WA", aliases: &[] },
        Codepoint { codepoint: 0x15B8, name: "CANADIAN SYLLABICS BLACKFOOT NE", aliases: &[] },
        Codepoint { codepoint: 0x15B9, name: "CANADIAN SYLLABICS BLACKFOOT NI", aliases: &[] },
        Codepoint { codepoint: 0x15BA, name: "CANADIAN SYLLABICS BLACKFOOT NO", aliases: &[] },
        Codepoint { codepoint: 0x15BB, name: "CANADIAN SYLLABICS BLACKFOOT NA", aliases: &[] },
        Codepoint { codepoint: 0x15BC, name: "CANADIAN SYLLABICS BLACKFOOT KE", aliases: &[] },
        Codepoint { codepoint: 0x15BD, name: "CANADIAN SYLLABICS BLACKFOOT KI", aliases: &[] },
        Codepoint { codepoint: 0x15BE, name: "CANADIAN SYLLABICS BLACKFOOT KO", aliases: &[] },
        Codepoint { codepoint: 0x15BF, name: "CANADIAN SYLLABICS BLACKFOOT KA", aliases: &[] },
        Codepoint { codepoint: 0x15C0, name: "CANADIAN SYLLABICS SAYISI HE", aliases: &[] },
        Codepoint { codepoint: 0x15C1, name: "CANADIAN SYLLABICS SAYISI HI", aliases: &[] },
        Codepoint { codepoint: 0x15C2, name: "CANADIAN SYLLABICS SAYISI HO", aliases: &[] },
        Codepoint { codepoint: 0x15C3, name: "CANADIAN SYLLABICS SAYISI HA", aliases: &[] },
        Codepoint { codepoint: 0x15C4, name: "CANADIAN SYLLABICS CARRIER GHU", aliases: &[] },
        Codepoint { codepoint: 0x15C5, name: "CANADIAN SYLLABICS CARRIER GHO", aliases: &[] },
    ]
}

fn all_codepoints_124() -> (v: Vec<Codepoint>)
    ensures
        v@ == codepoint_table_124(),
{
    let v = vec![
        Codepoint { codepoint: 0x159E, name: "CANADIAN SYLLABICS WOODS-CREE THA", aliases: &[] },
        Codepoint { codepoint: 0x159F, name: "CANADIAN SYLLABICS WOODS-CREE TH", aliases: &[] },
        Codepoint { codepoint: 0x15A0, name: "CANADIAN SYLLABICS LHI", aliases: &[] },
        Codepoint { codepoint: 0x15A1, name: "CANADIAN SYLLABICS LHII", aliases: &[] },
        Codepoint { codepoint: 0x15A2, name: "CANADIAN SYLLABICS LHO", aliases: &[] },
        Codepoint { codepoint: 0x15A3, name: "CANADIAN SYLLABICS LHOO", aliases: &[] },
        Codepoint { codepoint: 0x15A4, name: "CANADIAN SYLLABICS LHA", aliases: &[] },
        Codepoint { codepoint: 0x15A5, name: "CANADIAN SYLLABICS LHAA", aliases: &[] },
        Codepoint { codepoint: 0x15A6, name: "CANADIAN SYLLABICS LH", aliases: &[] },
        Codepoint { codepoint: 0x15A7, name: "CANADIAN SYLLABICS TH-CREE THE", aliases: &[] },
        Codepoint { codepoint: 0x15A8, name: "CANADIAN SYLLABICS TH-CREE THI", aliases: &[] },
        Codepoint { codepoint: 0x15A9, name: "CANADIAN SYLLABICS TH-CREE THII", aliases: &[] },
        Codepoint { codepoint: 0x15AA, name: "CANADIAN SYLLABICS TH-CREE THO", aliases: &[] },
        Codepoint { codepoint: 0x15AB, name: "CANADIAN SYLLABICS TH-CREE THOO", aliases: &[] },
        Codepoint { codepoint: 0x15AC, name: "CANADIAN SYLLABICS TH-CREE THA", aliases: &[] },
        Codepoint { codepoint: 0x15AD, name: "CANADIAN SYLLABICS TH-CREE THAA", aliases: &[] },
        Codepoint { codepoint: 0x15AE, name: "CANADIAN SYLLABICS TH-CREE TH", aliases: &[] },
        Codepoint { codepoint: 0x15AF, name: "CANADIAN SYLLABICS AIVILIK B", aliases: &[] },
        Codepoint { codepoint: 0x15B0, name: "CANADIAN SYLLABICS BLACKFOOT E", aliases: &[] },
        Codepoint { codepoint: 0x15B1, name: "CANADIAN SYLLABICS BLACKFOOT I", aliases: &[] },
        Codepoint { codepoint: 0x15B2, name: "CANADIAN SYLLABICS BLACKFOOT O", aliases: &[] },
        Codepoint { codepoint: 0x15B3, name: "CANADIAN SYLLABICS BLACKFOOT A", aliases: &[] },
        Codepoint { codepoint: 0x15B4, name: "CANADIAN SYLLABICS BLACKFOOT WE", aliases: &[] },
        Codepoint { codepoint: 0x15B5, name: "CANADIAN SYLLABICS BLACKFOOT WI", aliases: &[] },
        Codepoint { codepoint: 0x15B6, name: "CANADIAN SYLLABICS BLACKFOOT WO", aliases: &[] },
        Codepoint { codepoint: 0x15B7, name: "CANADIAN SYLLABICS BLACKFOOT WA", aliases: &[] },
        Codepoint { codepoint: 0x15B8, name: "CANADIAN SYLLABICS BLACKFOOT NE", aliases: &[] },
        Codepoint { codepoint: 0x15B9, name: "CANADIAN SYLLABICS BLACKFOOT NI", aliases: &[] },
        Codepoint { codepoint: 0x15BA, name: "CANADIAN SYLLABICS BLACKFOOT NO", aliases: &[] },
        Codepoint { codepoint: 0x15BB, name: "CANADIAN SYLLABICS BLACKFOOT NA", aliases: &[] },
        Codepoint { codepoint: 0x15BC, name: "CANADIAN SYLLABICS BLACKFOOT KE", aliases: &[] },
        Codepoint { codepoint: 0x15BD, name: "CANADIAN SYLLABICS BLACKFOOT KI", aliases: &[] },
        Codepoint { codepoint: 0x15BE, name: "CANADIAN SYLLABICS BLACKFOOT KO", aliases: &[] },
        Codepoint { codepoint: 0x15BF, name: "CANADIAN SYLLABICS BLACKFOOT KA", aliases: &[] },
        Codepoint { codepoint: 0x15C0, name: "CANADIAN SYLLABICS SAYISI HE", aliases: &[] },
        Codepoint { codepoint: 0x15C1, name: "CANADIAN SYLLABICS SAYISI HI", aliases: &[] },
        Codepoint { codepoint: 0x15C2, name: "CANADIAN SYLLABICS SAYISI HO", aliases: &[] },
        Codepoint { codepoint: 0x15C3, name: "CANADIAN SYLLABICS SAYISI HA", aliases: &[] },
        Codepoint { codepoint: 0x15C4, name: "CANADIAN SYLLABICS CARRIER GHU", aliases: &[] },
        Codepoint { codepoint: 0x15C5, name: "CANADIAN SYLLABICS CARRIER GHO", aliases: &[] },
    ];
    assert(v@ =~= codepoint_table_124());
    v
}

pub open spec fn codepoint_table_125() -> Seq<Codepoint> {
    seq![
        Codepoint { codepoint: 0x15C6, name: "CANADIAN SYLLABICS CARRIER GHE", aliases: &[] },
        Codepoint { codepoint: 0x15C7, name: "CANADIAN SYLLABICS CARRIER GHEE", aliases: &[] },
        Codepoint { codepoint: 0x15C8, name: "CANADIAN SYLLABICS CARRIER GHI", aliases: &[] },
        Codepoint { codepoint: 0x15C9, name: "CANADIAN SYLLABICS CARRIER GHA", aliases: &[] },
        Codepoint { codepoint: 0x15CA, name: "CANADIAN SYLLABICS CARRIER RU", aliases: &[] },
        Codepoint { codepoint: 0x15CB, name: "CANADIAN SYLLABICS CARRIER RO", aliases: &[] },
        Codepoint { codepoint: 0x15CC, name: "CANADIAN SYLLABICS CARRIER RE", aliases: &[] },
        Codepoint { codepoint: 0x15CD, name: "CANADIAN SYLLABICS CARRIER REE", aliases: &[] },
        Codepoint { codepoint: 0x15CE, name: "CANADIAN SYLLABICS CARRIER RI", aliases: &[] },
        Codepoint { codepoint: 0x15CF, name: "CANADIAN SYLLABICS CARRIER RA", aliases: &[] },
        Codepoint { codepoint: 0x15D0, name: "CANADIAN SYLLABICS CARRIER WU", aliases: &[] },
        Codepoint { codepoint: 0x15D1, name: "CANADIAN SYLLABICS CARRIER WO", aliases: &[] },
        Codepoint { codepoint: 0x15D2, name: "CANADIAN SYLLABICS CARRIER WE", aliases: &[] },
        Codepoint { codepoint: 0x15D3, name: "CANADIAN SYLLABICS CARRIER WEE", aliases: &[] },
        Codepoint { codepoint: 0x15D4, name: "CANADIAN SYLLABICS CARRIER WI", aliases: &[] },
        Codepoint { codepoint: 0x15D5, name: "CANADIAN SYLLABICS CARRIER WA", aliases: &[] },
        Codepoint { codepoint: 0x15D6, name: "CANADIAN SYLLABICS CARRIER HWU", aliases: &[] },
        Codepoint { codepoint: 0x15D7, name: "CANADIAN SYLLABICS CARRIER HWO", aliases: &[] },
        Codepoint { codepoint: 0x15D8, name: "CANADIAN SYLLABICS CARRIER HWE", aliases: &[] },
        Codepoint { codepoint: 0x15D9, name: "CANADIAN SYLLABICS CARRIER HWEE", aliases: &[] },
        Codepoint { codepoint: 0x15DA, name: "CANADIAN SYLLABICS CARRIER HWI", aliases: &[] },
        Codepoint { codepoint: 0x15DB, name: "CANADIAN SYLLABICS CARRIER HWA", aliases: &[] },
        Codepoint { codepoint: 0x15DC, name: "CANADIAN SYLLABICS CARRIER THU", aliases: &[] },
        Codepoint { codepoint: 0x15DD, name: "CANADIAN SYLLABICS CARRIER THO", aliases: &[] },
        Codepoint { codepoint: 0x15DE, name: "CANADIAN SYLLABICS CARRIER THE", aliases: &[] },
        Codepoint { codepoint: 0x15DF, name: "CANADIAN SYLLABICS CARRIER THEE", aliases: &[] },
        Codepoint { codepoint: 0x15E0, name: "CANADIAN SYLLABICS CARRIER THI", aliases: &[] },
        Codepoint { codepoint: 0x15E1, name: "CANADIAN SYLLABICS CARRIER THA", aliases: &[] },
        Codepoint { codepoint: 0x15E2, name: "CANADIAN SYLLABICS CARRIER TTU", aliases: &[] },
        Codepoint { codepoint: 0x15E3, name: "CANADIAN SYLLABICS CARRIER TTO", aliases: &[] },
        Codepoint { codepoint: 0x15E4, name: "CANADIAN SYLLABICS CARRIER TTE", aliases: &[] },
        Codepoint { codepoint: 0x15E5, name: "CANADIAN SYLLABICS CARRIER TTEE", aliases: &[] },
        Codepoint { codepoint: 0x15E6, name: "CANADIAN SYLLABICS CARRIER TTI", aliases: &[] },
        Codepoint { codepoint: 0x15E7, name: "CANADIAN SYLLABICS CARRIER TTA", aliases: &[] },
        Codepoint { codepoint: 0x15E8, name: "CANADIAN SYLLABICS CARRIER PU", aliases: &[] },
        Codepoint { codepoint: 0x15E9, name: "CANADIAN SYLLABICS CARRIER PO", aliases: &[] },
        Codepoint { codepoint: 0x15EA, name: "CANADIAN SYLLABICS CARRIER PE", aliases: &[] },
        Codepoint { codepoint: 0x15EB, name: "CANADIAN SYLLABICS CARRIER PEE", aliases: &[] },
        Codepoint { codepoint: 0x15EC, name: "CANADIAN SYLLABICS CARRIER PI", aliases: &[] },
        Codepoint { codepoint: 0x15ED, name: "CANADIAN SYLLABICS CARRIER PA", aliases: &[] },
    ]
}

fn all_codepoints_125() -> (v: Vec<Codepoint>)
    ensures
        v@ == codepoint_table_125(),
{
    let v = vec![
        Codepoint { codepoint: 0x15C6, name: "CANADIAN SYLLABICS CARRIER GHE", aliases: &[] },
        Codepoint { codepoint: 0x15C7, name: "CANADIAN SYLLABICS CARRIER GHEE", aliases: &[] },
        Codepoint { codepoint: 0x15C8, name: "CANADIAN SYLLABICS CARRIER GHI", aliases: &[] },
        Codepoint { codepoint: 0x15C9, name: "CANADIAN SYLLABICS CARRIER GHA", aliases: &[] },
        Codepoint { codepoint: 0x15CA, name: "CANADIAN SYLLABICS CARRIER RU", aliases: &[] },
        Codepoint { codepoint: 0x15CB, name: "CANADIAN SYLLABICS CARRIER RO", aliases: &[] },
        Codepoint { codepoint: 0x15CC, name: "CANADIAN SYLLABICS CARRIER RE", aliases: &[] },
        Codepoint { codepoint: 0x15CD, name: "CANADIAN SYLLABICS CARRIER REE", aliases: &[] },
        Codepoint { codepoint: 0x15CE, name: "CANADIAN SYLLABICS CARRIER RI", aliases: &[] },
        Codepoint { codepoint: 0x15CF, name: "CANADIAN SYLLABICS CARRIER RA", aliases: &[] },
        Codepoint { codepoint: 0x15D0, name: "CANADIAN SYLLABICS CARRIER WU", aliases: &[] },
        Codepoint { codepoint: 0x15D1, name: "CANADIAN SYLLABICS CARRIER WO", aliases: &[] },
        Codepoint { codepoint: 0x15D2, name: "CANADIAN SYLLABICS CARRIER WE", aliases: &[] },
        Codepoint { codepoint: 0x15D3, name: "CANADIAN SYLLABICS CARRIER WEE", aliases: &[] },
        Codepoint { codepoint: 0x15D4, name: "CANADIAN SYLLABICS CARRIER WI", aliases: &[] },
        Codepoint { codepoint: 0x15D5, name: "CANADIAN SYLLABICS CARRIER WA", aliases: &[] },
        Codepoint { codepoint: 0x15D6, name: "CANADIAN SYLLABICS CARRIER HWU", aliases: &[] },
        Codepoint { codepoint: 0x15D7, name: "CANADIAN SYLLABICS CARRIER HWO", aliases: &[] },
        Codepoint { codepoint: 0x15D8, name: "CANADIAN SYLLABICS CARRIER HWE", aliases: &[] },
        Codepoint { codepoint: 0x15D9, name: "CANADIAN SYLLABICS CARRIER HWEE", aliases: &[] },
        Codepoint { codepoint: 0x15DA, name: "CANADIAN SYLLABICS CARRIER HWI", aliases: &[] },
        Codepoint { codepoint: 0x15DB, name: "CANADIAN SYLLABICS CARRIER HWA", aliases: &[] },
        Codepoint { codepoint: 0x15DC, name: "CANADIAN SYLLABICS CARRIER THU", aliases: &[] },
        Codepoint { codepoint: 0x15DD, name: "CANADIAN SYLLABICS CARRIER THO", aliases: &[] },
        Codepoint { codepoint: 0x15DE, name: "CANADIAN SYLLABICS CARRIER THE", aliases: &[] },
        Codepoint { codepoint: 0x15DF, name: "CANADIAN SYLLABICS CARRIER THEE", aliases: &[] },
        Codepoint { codepoint: 0x15E0, name: "CANADIAN SYLLABICS CARRIER THI", aliases: &[] },
        Codepoint { codepoint: 0x15E1, name: "CANADIAN SYLLABICS CARRIER THA", aliases: &[] },
        Codepoint { codepoint: 0x15E2, name: "CANADIAN SYLLABICS CARRIER TTU", aliases: &[] },
        Codepoint { codepoint: 0x15E3, name: "CANADIAN SYLLABICS CARRIER TTO", aliases: &[] },
        Codepoint { codepoint: 0x15E4, name: "CANADIAN SYLLABICS CARRIER TTE", aliases: &[] },
        Codepoint { codepoint: 0x15E5, name: "CANADIAN SYLLABICS CARRIER TTEE", aliases: &[] },
        Codepoint { codepoint: 0x15E6, name: "CANADIAN SYLLABICS CARRIER TTI", aliases: &[] },
        Codepoint { codepoint: 0x15E7, name: "CANADIAN SYLLABICS CARRIER TTA", aliases: &[] },
        Codepoint { codepoint: 0x15E8, name: "CANADIAN SYLLABICS CARRIER PU", aliases: &[] },
        Codepoint { codepoint: 0x15E9, name: "CANADIAN SYLLABICS CARRIER PO", aliases: &[] },
        Codepoint { codepoint: 0x15EA, name: "CANADIAN SYLLABICS CARRIER PE", aliases: &[] },
        Codepoint { codepoint: 0x15EB, name: "CANADIAN SYLLABICS CARRIER PEE", aliases: &[] },
        Codepoint { codepoint: 0x15EC, name: "CANADIAN SYLLABICS CARRIER PI", aliases: &[] },
        Codepoint { codepoint: 0x15ED, name: "CANADIAN SYLLABICS CARRIER PA", aliases: &[] },
    ];
    assert(v@ =~= codepoint_table_125());
    v
}

pub open spec fn codepoint_table_126() -> Seq<Codepoint> {
    seq![
        Codepoint { codepoint: 0x15EE, name: "CANADIAN SYLLABICS CARRIER P", aliases: &[] },
        Codepoint { codepoint: 0x15EF, name: "CANADIAN SYLLABICS CARRIER GU", aliases: &[] },
        Codepoint { codepoint: 0x15F0, name: "CANADIAN SYLLABICS CARRIER GO", aliases: &[] },
        Codepoint { codepoint: 0x15F1, name: "CANADIAN SYLLABICS CARRIER GE", aliases: &[] },
        Codepoint { codepoint: 0x15F2, name: "CANADIAN SYLLABICS CARRIER GEE", aliases: &[] },
        Codepoint { codepoint: 0x15F3, name: "CANADIAN SYLLABICS CARRIER GI", aliases: &[] },
        Codepoint { codepoint: 0x15F4, name: "CANADIAN SYLLABICS CARRIER GA", aliases: &[] },
        Codepoint { codepoint: 0x15F5, name: "CANADIAN SYLLABICS CARRIER KHU", aliases: &[] },
        Codepoint { codepoint: 0x15F6, name: "CANADIAN SYLLABICS CARRIER KHO", aliases: &[] },
        Codepoint { codepoint: 0x15F7, name: "CANADIAN SYLLABICS CARRIER KHE", aliases: &[] },
        Codepoint { codepoint: 0x15F8, name: "CANADIAN SYLLABICS CARRIER KHEE", aliases: &[] },
        Codepoint { codepoint: 0x15F9, name: "CANADIAN SYLLABICS CARRIER KHI", aliases: &[] },
        Codepoint { codepoint: 0x15FA, name: "CANADIAN SYLLABICS CARRIER KHA", aliases: &[] },
        Codepoint { codepoint: 0x15FB, name: "CANADIAN SYLLABICS CARRIER KKU", aliases: &[] },
        Codepoint { codepoint: 0x15FC, name: "CANADIAN SYLLABICS CARRIER KKO", aliases: &[] },
        Codepoint { codepoint: 0x15FD, name: "CANADIAN SYLLABICS CARRIER KKE", aliases: &[] },
        Codepoint { codepoint: 0x15FE, name: "CANADIAN SYLLABICS CARRIER KKEE", aliases: &[] },
        Codepoint { codepoint: 0x15FF, name: "CANADIAN SYLLABICS CARRIER KKI", aliases: &[] },
        Codepoint { codepoint: 0x1600, name: "CANADIAN SYLLABICS CARRIER KKA", aliases: &[] },
        Codepoint { codepoint: 0x1601, name: "CANADIAN SYLLABICS CARRIER KK", aliases: &[] },
        Codepoint { codepoint: 0x1602, name: "CANADIAN SYLLABICS CARRIER NU", aliases: &[] },
        Codepoint { codepoint: 0x1603, name: "CANADIAN SYLLABICS CARRIER NO", aliases: &[] },
        Codepoint { codepoint: 0x1604, name: "CANADIAN SYLLABICS CARRIER NE", aliases: &[] },
        Codepoint { codepoint: 0x1605, name: "CANADIAN SYLLABICS CARRIER NEE", aliases: &[] },
        Codepoint { codepoint: 0x1606, name: "CANADIAN SYLLABICS CARRIER NI", aliases: &[] },
        Codepoint { codepoint: 0x1607, name: "CANADIAN SYLLABICS CARRIER NA", aliases: &[] },
        Codepoint { codepoint: 0x1608, name: "CANADIAN SYLLABICS CARRIER MU", aliases: &[] },
        Codepoint { codepoint: 0x1609, name: "CANADIAN SYLLABICS CARRIER MO", aliases: &[] },
        Codepoint { codepoint: 0x160A, name: "CANADIAN SYLLABICS CARRIER ME", aliases: &[] },
        Codepoint { codepoint: 0x160B, name: "CANADIAN SYLLABICS CARRIER MEE", aliases: &[] },
        Codepoint { codepoint: 0x160C, name: "CANADIAN SYLLABICS CARRIER MI", aliases: &[] },
        Codepoint { codepoint: 0x160D, name: "CANADIAN SYLLABICS CARRIER MA", aliases: &[] },
        Codepoint { codepoint: 0x160E, name: "CANADIAN SYLLABICS CARRIER YU", aliases: &[] },
        Codepoint { codepoint: 0x160F, name: "CANADIAN SYLLABICS CARRIER YO", aliases: &[] },
        Codepoint { codepoint: 0x1610, name: "CANADIAN SYLLABICS CARRIER YE", aliases: &[] },
        Codepoint { codepoint: 0x1611, name: "CANADIAN SYLLABICS CARRIER YEE", aliases: &[] },
        Codepoint { codepoint: 0x1612, name: "CANADIAN SYLLABICS CARRIER YI", aliases: &[] },
        Codepoint { codepoint: 0x1613, name: "CANADIAN SYLLABICS CARRIER YA", aliases: &[] },
        Codepoint { codepoint: 0x1614, name: "CANADIAN SYLLABICS CARRIER JU", aliases: &[] },
        Codepoint { codepoint: 0x1615, name: "CANADIAN SYLLABICS SAYISI JU", aliases: &[] },
    ]
}

fn all_codepoints_126() -> (v: Vec<Codepoint>)
    ensures
        v@ == codepoint_table_126(),
{
    let v = vec![
        Codepoint { codepoint: 0x15EE, name: "CANADIAN SYLLABICS CARRIER P", aliases: &[] },
        Codepoint { codepoint: 0x15EF, name: "CANADIAN SYLLABICS CARRIER GU", aliases: &[] },
        Codepoint { codepoint: 0x15F0, name: "CANADIAN SYLLABICS CARRIER GO", aliases: &[] },
        Codepoint { codepoint: 0x15F1, name: "CANADIAN SYLLABICS CARRIER GE", aliases: &[] },
        Codepoint { codepoint: 0x15F2, name: "CANADIAN SYLLABICS CARRIER GEE", aliases: &[] },
        Codepoint { codepoint: 0x15F3, name: "CANADIAN SYLLABICS CARRIER GI", aliases: &[] },
        Codepoint { codepoint: 0x15F4, name: "CANADIAN SYLLABICS CARRIER GA", aliases: &[] },
        Codepoint { codepoint: 0x15F5, name: "CANADIAN SYLLABICS CARRIER KHU", aliases: &[] },
        Codepoint { codepoint: 0x15F6, name: "CANADIAN SYLLABICS CARRIER KHO", aliases: &[] },
        Codepoint { codepoint: 0x15F7, name: "CANADIAN SYLLABICS CARRIER KHE", aliases: &[] },
        Codepoint { codepoint: 0x15F8, name: "CANADIAN SYLLABICS CARRIER KHEE", aliases: &[] },
        Codepoint { codepoint: 0x15F9, name: "CANADIAN SYLLABICS CARRIER KHI", aliases: &[] },
        Codepoint { codepoint: 0x15FA, name: "CANADIAN SYLLABICS CARRIER KHA", aliases: &[] },
        Codepoint { codepoint: 0x15FB, name: "CANADIAN SYLLABICS CARRIER KKU", aliases: &[] },
        Codepoint { codepoint: 0x15FC, name: "CANADIAN SYLLABICS CARRIER KKO", aliases: &[] },
        Codepoint { codepoint: 0x15FD, name: "CANADIAN SYLLABICS CARRIER KKE", aliases: &[] },
        Codepoint { codepoint: 0x15FE, name: "CANADIAN SYLLABICS CARRIER KKEE", aliases: &[] },
        Codepoint { codepoint: 0x15FF, name: "CANADIAN SYLLABICS CARRIER KKI", aliases: &[] },
        Codepoint { codepoint: 0x1600, name: "CANADIAN SYLLABICS CARRIER KKA", aliases: &[] },
        Codepoint { codepoint: 0x1601, name: "CANADIAN SYLLABICS CARRIER KK", aliases: &[] },
        Codepoint { codepoint: 0x1602, name: "CANADIAN SYLLABICS CARRIER NU", aliases: &[] },
        Codepoint { codepoint: 0x1603, name: "CANADIAN SYLLABICS CARRIER NO", aliases: &[] },
        Codepoint { codepoint: 0x1604, name: "CANADIAN SYLLABICS CARRIER NE", aliases: &[] },
        Codepoint { codepoint: 0x1605, name: "CANADIAN SYLLABICS CARRIER NEE", aliases: &[] },
        Codepoint { codepoint: 0x1606, name: "CANADIAN SYLLABICS CARRIER NI", aliases: &[] },
        Codepoint { codepoint: 0x1607, name: "CANADIAN SYLLABICS CARRIER NA", aliases: &[] },
        Codepoint { codepoint: 0x1608, name: "CANADIAN SYLLABICS CARRIER MU", aliases: &[] },
        Codepoint { codepoint: 0x1609, name: "CANADIAN SYLLABICS CARRIER MO", aliases: &[] },
        Codepoint { codepoint: 0x160A, name: "CANADIAN SYLLABICS CARRIER ME", aliases: &[] },
        Codepoint { codepoint: 0x160B, name: "CANADIAN SYLLABICS CARRIER MEE", aliases: &[] },
        Codepoint { codepoint: 0x160C, name: "CANADIAN SYLLABICS CARRIER MI", aliases: &[] },
        Codepoint { codepoint: 0x160D, name: "CANADIAN SYLLABICS CARRIER MA", aliases: &[] },
        Codepoint { codepoint: 0x160E, name: "CANADIAN SYLLABICS CARRIER YU", aliases: &[] },
        Codepoint { codepoint: 0x160F, name: "CANADIAN SYLLABICS CARRIER YO", aliases: &[] },
        Codepoint { codepoint: 0x1610, name: "CANADIAN SYLLABICS CARRIER YE", aliases: &[] },
        Codepoint { codepoint: 0x1611, name: "CANADIAN SYLLABICS CARRIER YEE", aliases: &[] },
        Codepoint { codepoint: 0x1612, name: "CANADIAN SYLLABICS CARRIER YI", aliases: &[] },
        Codepoint { codepoint: 0x1613, name: "CANADIAN SYLLABICS CARRIER YA", aliases: &[] },
        Codepoint { codepoint: 0x1614, name: "CANADIAN SYLLABICS CARRIER JU", aliases: &[] },
        Codepoint { codepoint: 0x1615, name: "CANADIAN SYLLABICS SAYISI JU", aliases: &[] },
    ];
    assert(v@ =~= codepoint_table_126());
    v
}

pub open spec fn codepoint_table_127() -> Seq<Codepoint> {
    seq![
        Codepoint { codepoint: 0x1616, name: "CANADIAN SYLLABICS CARRIER JO", aliases: &[] },
        Codepoint { codepoint: 0x1617, name: "CANADIAN SYLLABICS CARRIER JE", aliases: &[] },
        Codepoint { codepoint: 0x1618, name: "CANADIAN SYLLABICS CARRIER JEE", aliases: &[] },
        Codepoint { codepoint: 0x1619, name: "CANADIAN SYLLABICS CARRIER JI", aliases: &[] },
        Codepoint { codepoint: 0x161A, name: "CANADIAN SYLLABICS SAYISI JI", aliases: &[] },
        Codepoint { codepoint: 0x161B, name: "CANADIAN SYLLABICS CARRIER JA", aliases: &[] },
        Codepoint { codepoint: 0x161C, name: "CANADIAN SYLLABICS CARRIER JJU", aliases: &[] },
        Codepoint { codepoint: 0x161D, name: "CANADIAN SYLLABICS CARRIER JJO", aliases: &[] },
        Codepoint { codepoint: 0x161E, name: "CANADIAN SYLLABICS CARRIER JJE", aliases: &[] },
        Codepoint { codepoint: 0x161F, name: "CANADIAN SYLLABICS CARRIER JJEE", aliases: &[] },
        Codepoint { codepoint: 0x1620, name: "CANADIAN SYLLABICS CARRIER JJI", aliases: &[] },
        Codepoint { codepoint: 0x1621, name: "CANADIAN SYLLABICS CARRIER JJA", aliases: &[] },
        Codepoint { codepoint: 0x1622, name: "CANADIAN SYLLABICS CARRIER LU", aliases: &[] },
        Codepoint { codepoint: 0x1623, name: "CANADIAN SYLLABICS CARRIER LO", aliases: &[] },
        Codepoint { codepoint: 0x1624, name: "CANADIAN SYLLABICS CARRIER LE", aliases: &[] },
        Codepoint { codepoint: 0x1625, name: "CANADIAN SYLLABICS CARRIER LEE", aliases: &[] },
        Codepoint { codepoint: 0x1626, name: "CANADIAN SYLLABICS CARRIER LI", aliases: &[] },
        Codepoint { codepoint: 0x1627, name: "CANADIAN SYLLABICS CARRIER LA", aliases: &[] },
        Codepoint { codepoint: 0x1628, name: "CANADIAN SYLLABICS CARRIER DLU", aliases: &[] },
        Codepoint { codepoint: 0x1629, name: "CANADIAN SYLLABICS CARRIER DLO", aliases: &[] },
        Codepoint { codepoint: 0x162A, name: "CANADIAN SYLLABICS CARRIER DLE", aliases: &[] },
        Codepoint { codepoint: 0x162B, name: "CANADIAN SYLLABICS CARRIER DLEE", aliases: &[] },
        Codepoint { codepoint: 0x162C, name: "CANADIAN SYLLABICS CARRIER DLI", aliases: &[] },
        Codepoint { codepoint: 0x162D, name: "CANADIAN SYLLABICS CARRIER DLA", aliases: &[] },
        Codepoint { codepoint: 0x162E, name: "CANADIAN SYLLABICS CARRIER LHU", aliases: &[] },
        Codepoint { codepoint: 0x162F, name: "CANADIAN SYLLABICS CARRIER LHO", aliases: &[] },
        Codepoint { codepoint: 0x1630, name: "CANADIAN SYLLABICS CARRIER LHE", aliases: &[] },
        Codepoint { codepoint: 0x1631, name: "CANADIAN SYLLABICS CARRIER LHEE", aliases: &[] },
        Codepoint { codepoint: 0x1632, name: "CANADIAN SYLLABICS CARRIER LHI", aliases: &[] },
        Codepoint { codepoint: 0x1633, name: "CANADIAN SYLLABICS CARRIER LHA", aliases: &[] },
        Codepoint { codepoint: 0x1634, name: "CANADIAN SYLLABICS CARRIER TLHU", aliases: &[] },
        Codepoint { codepoint: 0x1635, name: "CANADIAN SYLLABICS CARRIER TLHO", aliases: &[] },
        Codepoint { codepoint: 0x1636, name: "CANADIAN SYLLABICS CARRIER TLHE", aliases: &[] },
        Codepoint { codepoint: 0x1637, name: "CANADIAN SYLLABICS CARRIER TLHEE", aliases: &[] },
        Codepoint { codepoint: 0x1638, name: "CANADIAN SYLLABICS CARRIER TLHI", aliases: &[] },
        Codepoint { codepoint: 0x1639, name: "CANADIAN SYLLABICS CARRIER TLHA", aliases: &[] },
        Codepoint { codepoint: 0x163A, name: "CANADIAN SYLLABICS CARRIER TLU", aliases: &[] },
        Codepoint { codepoint: 0x163B, name: "CANADIAN SYLLABICS CARRIER TLO", aliases: &[] },
        Codepoint { codepoint: 0x163C, name: "CANADIAN SYLLABICS CARRIER TLE", aliases: &[] },
        Codepoint { codepoint: 0x163D, name: "CANADIAN SYLLABICS CARRIER TLEE", aliases: &[] },
    ]
}

fn all_codepoints_127() -> (v: Vec<Codepoint>)
    ensures
        v@ == codepoint_table_127(),
{
    let v = vec![
        Codepoint { codepoint: 0x1616, name: "CANADIAN SYLLABICS CARRIER JO", aliases: &[] },
        Codepoint { codepoint: 0x1617, name: "CANADIAN SYLLABICS CARRIER JE", aliases: &[] },
        Codepoint { codepoint: 0x1618, name: "CANADIAN SYLLABICS CARRIER JEE", aliases: &[] },
        Codepoint { codepoint: 0x1619, name: "CANADIAN SYLLABICS CARRIER JI", aliases: &[] },
        Codepoint { codepoint: 0x161A, name: "CANADIAN SYLLABICS SAYISI JI", aliases: &[] },
        Codepoint { codepoint: 0x161B, name: "CANADIAN SYLLABICS CARRIER JA", aliases: &[] },
        Codepoint { codepoint: 0x161C, name: "CANADIAN SYLLABICS CARRIER JJU", aliases: &[] },
        Codepoint { codepoint: 0x161D, name: "CANADIAN SYLLABICS CARRIER JJO", aliases: &[] },
        Codepoint { codepoint: 0x161E, name: "CANADIAN SYLLABICS CARRIER JJE", aliases: &[] },
        Codepoint { codepoint: 0x161F, name: "CANADIAN SYLLABICS CARRIER JJEE", aliases: &[] },
        Codepoint { codepoint: 0x1620, name: "CANADIAN SYLLABICS CARRIER JJI", aliases: &[] },
        Codepoint { codepoint: 0x1621, name: "CANADIAN SYLLABICS CARRIER JJA", aliases: &[] },
        Codepoint { codepoint: 0x1622, name: "CANADIAN SYLLABICS CARRIER LU", aliases: &[] },
        Codepoint { codepoint: 0x1623, name: "CANADIAN SYLLABICS CARRIER LO", aliases: &[] },
        Codepoint { codepoint: 0x1624, name: "CANADIAN SYLLABICS CARRIER LE", aliases: &[] },
        Codepoint { codepoint: 0x1625, name: "CANADIAN SYLLABICS CARRIER LEE", aliases: &[] },
        Codepoint { codepoint: 0x1626, name: "CANADIAN SYLLABICS CARRIER LI", aliases: &[] },
        Codepoint { codepoint: 0x1627, name: "CANADIAN SYLLABICS CARRIER LA", aliases: &[] },
        Codepoint { codepoint: 0x1628, name: "CANADIAN SYLLABICS CARRIER DLU", aliases: &[] },
        Codepoint { codepoint: 0x1629, name: "CANADIAN SYLLABICS CARRIER DLO", aliases: &[] },
        Codepoint { codepoint: 0x162A, name: "CANADIAN SYLLABICS CARRIER DLE", aliases: &[] },
        Codepoint { codepoint: 0x162B, name: "CANADIAN SYLLABICS CARRIER DLEE", aliases: &[] },
        Codepoint { codepoint: 0x162C, name: "CANADIAN SYLLABICS CARRIER DLI", aliases: &[] },
        Codepoint { codepoint: 0x162D, name: "CANADIAN SYLLABICS CARRIER DLA", aliases: &[] },
        Codepoint { codepoint: 0x162E, name: "CANADIAN SYLLABICS CARRIER LHU", aliases: &[] },
        Codepoint { codepoint: 0x162F, name: "CANADIAN SYLLABICS CARRIER LHO", aliases: &[] },
        Codepoint { codepoint: 0x1630, name: "CANADIAN SYLLABICS CARRIER LHE", aliases: &[] },
        Codepoint { codepoint: 0x1631, name: "CANADIAN SYLLABICS CARRIER LHEE", aliases: &[] },
        Codepoint { codepoint: 0x1632, name: "CANADIAN SYLLABICS CARRIER LHI", aliases: &[] },
        Codepoint { codepoint: 0x1633, name: "CANADIAN SYLLABICS CARRIER LHA", aliases: &[] },
        Codepoint { codepoint: 0x1634, name: "CANADIAN SYLLABICS CARRIER TLHU", aliases: &[] },
        Codepoint { codepoint: 0x1635, name: "CANADIAN SYLLABICS CARRIER TLHO", aliases: &[] },
        Codepoint { codepoint: 0x1636, name: "CANADIAN SYLLABICS CARRIER TLHE", aliases: &[] },
        Codepoint { codepoint: 0x1637, name: "CANADIAN SYLLABICS CARRIER TLHEE", aliases: &[] },
        Codepoint { codepoint: 0x1638, name: "CANADIAN SYLLABICS CARRIER TLHI", aliases: &[] },
        Codepoint { codepoint: 0x1639, name: "CANADIAN SYLLABICS CARRIER TLHA", aliases: &[] },
        Codepoint { codepoint: 0x163A, name: "CANADIAN SYLLABICS CARRIER TLU", aliases: &[] },
        Codepoint { codepoint: 0x163B, name: "CANADIAN SYLLABICS CARRIER TLO", aliases: &[] },
        Codepoint { codepoint: 0x163C, name: "CANADIAN SYLLABICS CARRIER TLE", aliases: &[] },
        Codepoint { codepoint: 0x163D, name: "CANADIAN SYLLABICS CARRIER TLEE", aliases: &[] },
    ];
    assert(v@ =~= codepoint_table_127());
    v
}

pub open spec fn codepoint_table_128() -> Seq<Codepoint> {
    seq![
        Codepoint { codepoint: 0x163E, name: "CANADIAN SYLLABICS CARRIER TLI", aliases: &[] },
        Codepoint { codepoint: 0x163F, name: "CANADIAN SYLLABICS CARRIER TLA", aliases: &[] },
        Codepoint { codepoint: 0x1640, name: "CANADIAN SYLLABICS CARRIER ZU", aliases: &[] },
        Codepoint { codepoint: 0x1641, name: "CANADIAN SYLLABICS CARRIER ZO", aliases: &[] },
        Codepoint { codepoint: 0x1642, name: "CANADIAN SYLLABICS CARRIER ZE", aliases: &[] },
        Codepoint { codepoint: 0x1643, name: "CANADIAN SYLLABICS CARRIER ZEE", aliases: &[] },
        Codepoint { codepoint: 0x1644, name: "CANADIAN SYLLABICS CARRIER ZI", aliases: &[] },
        Codepoint { codepoint: 0x1645, name: "CANADIAN SYLLABICS CARRIER ZA", aliases: &[] },
        Codepoint { codepoint: 0x1646, name: "CANADIAN SYLLABICS CARRIER Z", aliases: &[] },
        Codepoint { codepoint: 0x1647, name: "CANADIAN SYLLABICS CARRIER INITIAL Z", aliases: &[] },
        Codepoint { codepoint: 0x1648, name: "CANADIAN SYLLABICS CARRIER DZU", aliases: &[] },
        Codepoint { codepoint: 0x1649, name: "CANADIAN SYLLABICS CARRIER DZO", aliases: &[] },
        Codepoint { codepoint: 0x164A, name: "CANADIAN SYLLABICS CARRIER DZE", aliases: &[] },
        Codepoint { codepoint: 0x164B, name: "CANADIAN SYLLABICS CARRIER DZEE", aliases: &[] },
        Codepoint { codepoint: 0x164C, name: "CANADIAN SYLLABICS CARRIER DZI", aliases: &[] },
        Codepoint { codepoint: 0x164D, name: "CANADIAN SYLLABICS CARRIER DZA", aliases: &[] },
        Codepoint { codepoint: 0x164E, name: "CANADIAN SYLLABICS CARRIER SU", aliases: &[] },
        Codepoint { codepoint: 0x164F, name: "CANADIAN SYLLABICS CARRIER SO", aliases: &[] },
        Codepoint { codepoint: 0x1650, name: "CANADIAN SYLLABICS CARRIER SE", aliases: &[] },
        Codepoint { codepoint: 0x1651, name: "CANADIAN SYLLABICS CARRIER SEE", aliases: &[] },
        Codepoint { codepoint: 0x1652, name: "CANADIAN SYLLABICS CARRIER SI", aliases: &[] },
        Codepoint { codepoint: 0x1653, name: "CANADIAN SYLLABICS CARRIER SA", aliases: &[] },
        Codepoint { codepoint: 0x1654, name: "CANADIAN SYLLABICS CARRIER SHU", aliases: &[] },
        Codepoint { codepoint: 0x1655, name: "CANADIAN SYLLABICS CARRIER SHO", aliases: &[] },
        Codepoint { codepoint: 0x1656, name: "CANADIAN SYLLABICS CARRIER SHE", aliases: &[] },
        Codepoint { codepoint: 0x1657, name: "CANADIAN SYLLABICS CARRIER SHEE", aliases: &[] },
        Codepoint { codepoint: 0x1658, name: "CANADIAN SYLLABICS CARRIER SHI", aliases: &[] },
        Codepoint { codepoint: 0x1659, name: "CANADIAN SYLLABICS CARRIER SHA", aliases: &[] },
        Codepoint { codepoint: 0x165A, name: "CANADIAN SYLLABICS CARRIER SH", aliases: &[] },
        Codepoint { codepoint: 0x165B, name: "CANADIAN SYLLABICS CARRIER TSU", aliases: &[] },
        Codepoint { codepoint: 0x165C, name: "CANADIAN SYLLABICS CARRIER TSO", aliases: &[] },
        Codepoint { codepoint: 0x165D, name: "CANADIAN SYLLABICS CARRIER TSE", aliases: &[] },
        Codepoint { codepoint: 0x165E, name: "CANADIAN SYLLABICS CARRIER TSEE", aliases: &[] },
        Codepoint { codepoint: 0x165F, name: "CANADIAN SYLLABICS CARRIER TSI", aliases: &[] },
        Codepoint { codepoint: 0x1660, name: "CANADIAN SYLLABICS CARRIER TSA", aliases: &[] },
        Codepoint { codepoint: 0x1661, name: "CANADIAN SYLLABICS CARRIER CHU", aliases: &[] },
        Codepoint { codepoint: 0x1662, name: "CANADIAN SYLLABICS CARRIER CHO", aliases: &[] },
        Codepoint { codepoint: 0x1663, name: "CANADIAN SYLLABICS CARRIER CHE", aliases: &[] },
        Codepoint { codepoint: 0x1664, name: "CANADIAN SYLLABICS CARRIER CHEE", aliases: &[] },
        Codepoint { codepoint: 0x1665, name: "CANADIAN SYLLABICS CARRIER CHI", aliases: &[] },
    ]
}

fn all_codepoints_128() -> (v: Vec<Codepoint>)
    ensures
        v@ == codepoint_table_128(),
{
    let v = vec![
        Codepoint { codepoint: 0x163E, name: "CANADIAN SYLLABICS CARRIER TLI", aliases: &[] },
        Codepoint { codepoint: 0x163F, name: "CANADIAN SYLLABICS CARRIER TLA", aliases: &[] },
        Codepoint { codepoint: 0x1640, name: "CANADIAN SYLLABICS CARRIER ZU", aliases: &[] },
        Codepoint { codepoint: 0x1641, name: "CANADIAN SYLLABICS CARRIER ZO", aliases: &[] },
        Codepoint { codepoint: 0x1642, name: "CANADIAN SYLLABICS CARRIER ZE", aliases: &[] },
        Codepoint { codepoint: 0x1643, name: "CANADIAN SYLLABICS CARRIER ZEE", aliases: &[] },
        Codepoint { codepoint: 0x1644, name: "CANADIAN SYLLABICS CARRIER ZI", aliases: &[] },
        Codepoint { codepoint: 0x1645, name: "CANADIAN SYLLABICS CARRIER ZA", aliases: &[] },
        Codepoint { codepoint: 0x1646, name: "CANADIAN SYLLABICS CARRIER Z", aliases: &[] },
        Codepoint { codepoint: 0x1647, name: "CANADIAN SYLLABICS CARRIER INITIAL Z", aliases: &[] },
        Codepoint { codepoint: 0x1648, name: "CANADIAN SYLLABICS CARRIER DZU", aliases: &[] },
        Codepoint { codepoint: 0x1649, name: "CANADIAN SYLLABICS CARRIER DZO", aliases: &[] },
        Codepoint { codepoint: 0x164A, name: "CANADIAN SYLLABICS CARRIER DZE", aliases: &[] },
        Codepoint { codepoint: 0x164B, name: "CANADIAN SYLLABICS CARRIER DZEE", aliases: &[] },
        Codepoint { codepoint: 0x164C, name: "CANADIAN SYLLABICS CARRIER DZI", aliases: &[] },
        Codepoint { codepoint: 0x164D, name: "CANADIAN SYLLABICS CARRIER DZA", aliases: &[] },
        Codepoint { codepoint: 0x164E, name: "CANADIAN SYLLABICS CARRIER SU", aliases: &[] },
        Codepoint { codepoint: 0x164F, name: "CANADIAN SYLLABICS CARRIER SO", aliases: &[] },
        Codepoint { codepoint: 0x1650, name: "CANADIAN SYLLABICS CARRIER SE", aliases: &[] },
        Codepoint { codepoint: 0x1651, name: "CANADIAN SYLLABICS CARRIER SEE", aliases: &[] },
        Codepoint { codepoint: 0x1652, name: "CANADIAN SYLLABICS CARRIER SI", aliases: &[] },
        Codepoint { codepoint: 0x1653, name: "CANADIAN SYLLABICS CARRIER SA", aliases: &[] },
        Codepoint { codepoint: 0x1654, name: "CANADIAN SYLLABICS CARRIER SHU", aliases: &[] },
        Codepoint { codepoint: 0x1655, name: "CANADIAN SYLLABICS CARRIER SHO", aliases: &[] },
        Codepoint { codepoint: 0x1656, name: "CANADIAN SYLLABICS CARRIER SHE", aliases: &[] },
        Codepoint { codepoint: 0x1657, name: "CANADIAN SYLLABICS CARRIER SHEE", aliases: &[] },
        Codepoint { codepoint: 0x1658, name: "CANADIAN SYLLABICS CARRIER SHI", aliases: &[] },
        Codepoint { codepoint: 0x1659, name: "CANADIAN SYLLABICS CARRIER SHA", aliases: &[] },
        Codepoint { codepoint: 0x165A, name: "CANADIAN SYLLABICS CARRIER SH", aliases: &[] },
        Codepoint { codepoint: 0x165B, name: "CANADIAN SYLLABICS CARRIER TSU", aliases: &[] },
        Codepoint { codepoint: 0x165C, name: "CANADIAN SYLLABICS CARRIER TSO", aliases: &[] },
        Codepoint { codepoint: 0x165D, name: "CANADIAN SYLLABICS CARRIER TSE", aliases: &[] },
        Codepoint { codepoint: 0x165E, name: "CANADIAN SYLLABICS CARRIER TSEE", aliases: &[] },
        Codepoint { codepoint: 0x165F, name: "CANADIAN SYLLABICS CARRIER TSI", aliases: &[] },
        Codepoint { codepoint: 0x1660, name: "CANADIAN SYLLABICS CARRIER TSA", aliases: &[] },
        Codepoint { codepoint: 0x1661, name: "CANADIAN SYLLABICS CARRIER CHU", aliases: &[] },
        Codepoint { codepoint: 0x1662, name: "CANADIAN SYLLABICS CARRIER CHO", aliases: &[] },
        Codepoint { codepoint: 0x1663, name: "CANADIAN SYLLABICS CARRIER CHE", aliases: &[] },
        Codepoint { codepoint: 0x1664, name: "CANADIAN SYLLABICS CARRIER CHEE", aliases: &[] },
        Codepoint { codepoint: 0x1665, name: "CANADIAN SYLLABICS CARRIER CHI", aliases: &[] },
    ];
    assert(v@ =~= codepoint_table_128());
    v
}

pub open spec fn codepoint_table_129() -> Seq<Codepoint> {
    seq![
        Codepoint { codepoint: 0x1666, name: "CANADIAN SYLLABICS CARRIER CHA", aliases: &[] },
        Codepoint { codepoint: 0x1667, name: "CANADIAN SYLLABICS CARRIER TTSU", aliases: &[] },
        Codepoint { codepoint: 0x1668, name: "CANADIAN SYLLABICS CARRIER TTSO", aliases: &[] },
        Codepoint { codepoint: 0x1669, name: "CANADIAN SYLLABICS CARRIER TTSE", aliases: &[] },
        Codepoint { codepoint: 0x166A, name: "CANADIAN SYLLABICS CARRIER TTSEE", aliases: &[] },
        Codepoint { codepoint: 0x166B, name: "CANADIAN SYLLABICS CARRIER TTSI", aliases: &[] },
        Codepoint { codepoint: 0x166C, name: "CANADIAN SYLLABICS CARRIER TTSA", aliases: &[] },
        Codepoint { codepoint: 0x166D, name: "CANADIAN SYLLABICS CHI SIGN", aliases: &[] },
        Codepoint { codepoint: 0x166E, name: "CANADIAN SYLLABICS FULL STOP", aliases: &[] },
        Codepoint { codepoint: 0x166F, name: "CANADIAN SYLLABICS QAI", aliases: &[] },
        Codepoint { codepoint: 0x1670, name: "CANADIAN SYLLABICS NGAI", aliases: &[] },
        Codepoint { codepoint: 0x1671, name: "CANADIAN SYLLABICS NNGI", aliases: &[] },
        Codepoint { codepoint: 0x1672, name: "CANADIAN SYLLABICS NNGII", aliases: &[] },
        Codepoint { codepoint: 0x1673, name: "CANADIAN SYLLABICS NNGO", aliases: &[] },
        Codepoint { codepoint: 0x1674, name: "CANADIAN SYLLABICS NNGOO", aliases: &[] },
        Codepoint { codepoint: 0x1675, name: "CANADIAN SYLLABICS NNGA", aliases: &[] },
        Codepoint { codepoint: 0x1676, name: "CANADIAN SYLLABICS NNGAA", aliases: &[] },
        Codepoint { codepoint: 0x1677, name: "CANADIAN SYLLABICS WOODS-CREE THWEE", aliases: &[] },
        Codepoint { codepoint: 0x1678, name: "CANADIAN SYLLABICS WOODS-CREE THWI", aliases: &[] },
        Codepoint { codepoint: 0x1679, name: "CANADIAN SYLLABICS WOODS-CREE THWII", aliases: &[] },
        Codepoint { codepoint: 0x167A, name: "CANADIAN SYLLABICS WOODS-CREE THWO", aliases: &[] },
        Codepoint { codepoint: 0x167B, name: "CANADIAN SYLLABICS WOODS-CREE THWOO", aliases: &[] },
        Codepoint { codepoint: 0x167C, name: "CANADIAN SYLLABICS WOODS-CREE THWA", aliases: &[] },
        Codepoint { codepoint: 0x167D, name: "CANADIAN SYLLABICS WOODS-CREE THWAA", aliases: &[] },
        Codepoint { codepoint: 0x167E, name: "CANADIAN SYLLABICS WOODS-CREE FINAL TH", aliases: &[] },
        Codepoint { codepoint: 0x167F, name: "CANADIAN SYLLABICS BLACKFOOT W", aliases: &[] },
        Codepoint { codepoint: 0x1680, name: "OGHAM SPACE MARK", aliases: &[] },
        Codepoint { codepoint: 0x1681, name: "OGHAM LETTER BEITH", aliases: &[] },
        Codepoint { codepoint: 0x1682, name: "OGHAM LETTER LUIS", aliases: &[] },
        Codepoint { codepoint: 0x1683, name: "OGHAM LETTER FEARN", aliases: &[] },
        Codepoint { codepoint: 0x1684, name: "OGHAM LETTER SAIL", aliases: &[] },
        Codepoint { codepoint: 0x1685, name: "OGHAM LETTER NION", aliases: &[] },
        Codepoint { codepoint: 0x1686, name: "OGHAM LETTER UATH", aliases: &[] },
        Codepoint { codepoint: 0x1687, name: "OGHAM LETTER DAIR", aliases: &[] },
        Codepoint { codepoint: 0x1688, name: "OGHAM LETTER TINNE", aliases: &[] },
        Codepoint { codepoint: 0x1689, name: "OGHAM LETTER COLL", aliases: &[] },
        Codepoint { codepoint: 0x168A, name: "OGHAM LETTER CEIRT", aliases: &[] },
        Codepoint { codepoint: 0x168B, name: "OGHAM LETTER MUIN", aliases: &[] },
        Codepoint { codepoint: 0x168C, name: "OGHAM LETTER GORT", aliases: &[] },
        Codepoint { codepoint: 0x168D, name: "OGHAM LETTER NGEADAL", aliases: &[] },
    ]
}

fn all_codepoints_129() -> (v: Vec<Codepoint>)
    ensures
        v@ == codepoint_table_129(),
{
    let v = vec![
        Codepoint { codepoint: 0x1666, name: "CANADIAN SYLLABICS CARRIER CHA", aliases: &[] },
        Codepoint { codepoint: 0x1667, name: "CANADIAN SYLLABICS CARRIER TTSU", aliases: &[] },
        Codepoint { codepoint: 0x1668, name: "CANADIAN SYLLABICS CARRIER TTSO", aliases: &[] },
        Codepoint { codepoint: 0x1669, name: "CANADIAN SYLLABICS CARRIER TTSE", aliases: &[] },
        Codepoint { codepoint: 0x166A, name: "CANADIAN SYLLABICS CARRIER TTSEE", aliases: &[] },
        Codepoint { codepoint: 0x166B, name: "CANADIAN SYLLABICS CARRIER TTSI", aliases: &[] },
        Codepoint { codepoint: 0x166C, name: "CANADIAN SYLLABICS CARRIER TTSA", aliases: &[] },
        Codepoint { codepoint: 0x166D, name: "CANADIAN SYLLABICS CHI SIGN", aliases: &[] },
        Codepoint { codepoint: 0x166E, name: "CANADIAN SYLLABICS FULL STOP", aliases: &[] },
        Codepoint { codepoint: 0x166F, name: "CANADIAN SYLLABICS QAI", aliases: &[] },
        Codepoint { codepoint: 0x1670, name: "CANADIAN SYLLABICS NGAI", aliases: &[] },
        Codepoint { codepoint: 0x1671, name: "CANADIAN SYLLABICS NNGI", aliases: &[] },
        Codepoint { codepoint: 0x1672, name: "CANADIAN SYLLABICS NNGII", aliases: &[] },
        Codepoint { codepoint: 0x1673, name: "CANADIAN SYLLABICS NNGO", aliases: &[] },
        Codepoint { codepoint: 0x1674, name: "CANADIAN SYLLABICS NNGOO", aliases: &[] },
        Codepoint { codepoint: 0x1675, name: "CANADIAN SYLLABICS NNGA", aliases: &[] },
        Codepoint { codepoint: 0x1676, name: "CANADIAN SYLLABICS NNGAA", aliases: &[] },
        Codepoint { codepoint: 0x1677, name: "CANADIAN SYLLABICS WOODS-CREE THWEE", aliases: &[] },
        Codepoint { codepoint: 0x1678, name: "CANADIAN SYLLABICS WOODS-CREE THWI", aliases: &[] },
        Codepoint { codepoint: 0x1679, name: "CANADIAN SYLLABICS WOODS-CREE THWII", aliases: &[] },
        Codepoint { codepoint: 0x167A, name: "CANADIAN SYLLABICS WOODS-CREE THWO", aliases: &[] },
        Codepoint { codepoint: 0x167B, name: "CANADIAN SYLLABICS WOODS-CREE THWOO", aliases: &[] },
        Codepoint { codepoint: 0x167C, name: "CANADIAN SYLLABICS WOODS-CREE THWA", aliases: &[] },
        Codepoint { codepoint: 0x167D, name: "CANADIAN SYLLABICS WOODS-CREE THWAA", aliases: &[] },
        Codepoint { codepoint: 0x167E, name: "CANADIAN SYLLABICS WOODS-CREE FINAL TH", aliases: &[] },
        Codepoint { codepoint: 0x167F, name: "CANADIAN SYLLABICS BLACKFOOT W", aliases: &[] },
        Codepoint { codepoint: 0x1680, name: "OGHAM SPACE MARK", aliases: &[] },
        Codepoint { codepoint: 0x1681, name: "OGHAM LETTER BEITH", aliases: &[] },
        Codepoint { codepoint: 0x1682, name: "OGHAM LETTER LUIS", aliases: &[] },
        Codepoint { codepoint: 0x1683, name: "OGHAM LETTER FEARN", aliases: &[] },
        Codepoint { codepoint: 0x1684, name: "OGHAM LETTER SAIL", aliases: &[] },
        Codepoint { codepoint: 0x1685, name: "OGHAM LETTER NION", aliases: &[] },
        Codepoint { codepoint: 0x1686, name: "OGHAM LETTER UATH", aliases: &[] },
        Codepoint { codepoint: 0x1687, name: "OGHAM LETTER DAIR", aliases: &[] },
        Codepoint { codepoint: 0x1688, name: "OGHAM LETTER TINNE", aliases: &[] },
        Codepoint { codepoint: 0x1689, name: "OGHAM LETTER COLL", aliases: &[] },
        Codepoint { codepoint: 0x168A, name: "OGHAM LETTER CEIRT", aliases: &[] },
        Codepoint { codepoint: 0x168B, name: "OGHAM LETTER MUIN", aliases: &[] },
        Codepoint { codepoint: 0x168C, name: "OGHAM LETTER GORT", aliases: &[] },
        Codepoint { codepoint: 0x168D, name: "OGHAM LETTER NGEADAL", aliases: &[] },
    ];
    assert(v@ =~= codepoint_table_129());
    v
}

pub open spec fn codepoint_table_130() -> Seq<Codepoint> {
    seq![
        Codepoint { codepoint: 0x168E, name: "OGHAM LETTER STRAIF", aliases: &[] },
        Codepoint { codepoint: 0x168F, name: "OGHAM LETTER RUIS", aliases: &[] },
        Codepoint { codepoint: 0x1690, name: "OGHAM LETTER AILM", aliases: &[] },
        Codepoint { codepoint: 0x1691, name: "OGHAM LETTER ONN", aliases: &[] },
        Codepoint { codepoint: 0x1692, name: "OGHAM LETTER UR", aliases: &[] },
        Codepoint { codepoint: 0x1693, name: "OGHAM LETTER EADHADH", aliases: &[] },
        Codepoint { codepoint: 0x1694, name: "OGHAM LETTER IODHADH", aliases: &[] },
        Codepoint { codepoint: 0x1695, name: "OGHAM LETTER EABHADH", aliases: &[] },
        Codepoint { codepoint: 0x1696, name: "OGHAM LETTER OR", aliases: &[] },
        Codepoint { codepoint: 0x1697, name: "OGHAM LETTER UILLEANN", aliases: &[] },
        Codepoint { codepoint: 0x1698, name: "OGHAM LETTER IFIN", aliases: &[] },
        Codepoint { codepoint: 0x1699, name: "OGHAM LETTER EAMHANCHOLL", aliases: &[] },
        Codepoint { codepoint: 0x169A, name: "OGHAM LETTER PEITH", aliases: &[] },
        Codepoint { codepoint: 0x169B, name: "OGHAM FEATHER MARK", aliases: &[] },
        Codepoint { codepoint: 0x169C, name: "OGHAM REVERSED FEATHER MARK", aliases: &[] },
        Codepoint { codepoint: 0x16A0, name: "RUNIC LETTER FEHU FEOH FE F", aliases: &[] },
        Codepoint { codepoint: 0x16A1, name: "RUNIC LETTER V", aliases: &[] },
        Codepoint { codepoint: 0x16A2, name: "RUNIC LETTER URUZ UR U", aliases: &[] },
        Codepoint { codepoint: 0x16A3, name: "RUNIC LETTER YR", aliases: &[] },
        Codepoint { codepoint: 0x16A4, name: "RUNIC LETTER Y", aliases: &[] },
        Codepoint { codepoint: 0x16A5, name: "RUNIC LETTER W", aliases: &[] },
        Codepoint { codepoint: 0x16A6, name: "RUNIC LETTER THURISAZ THURS THORN", aliases: &[] },
        Codepoint { codepoint: 0x16A7, name: "RUNIC LETTER ETH", aliases: &[] },
        Codepoint { codepoint: 0x16A8, name: "RUNIC LETTER ANSUZ A", aliases: &[] },
        Codepoint { codepoint: 0x16A9, name: "RUNIC LETTER OS O", aliases: &[] },
        Codepoint { codepoint: 0x16AA, name: "RUNIC LETTER AC A", aliases: &[] },
        Codepoint { codepoint: 0x16AB, name: "RUNIC LETTER AESC", aliases: &[] },
        Codepoint { codepoint: 0x16AC, name: "RUNIC LETTER LONG-BRANCH-OSS O", aliases: &[] },
        Codepoint { codepoint: 0x16AD, name: "RUNIC LETTER SHORT-TWIG-OSS O", aliases: &[] },
        Codepoint { codepoint: 0x16AE, name: "RUNIC LETTER O", aliases: &[] },
        Codepoint { codepoint: 0x16AF, name: "RUNIC LETTER OE", aliases: &[] },
        Codepoint { codepoint: 0x16B0, name: "RUNIC LETTER ON", aliases: &[] },
        Codepoint { codepoint: 0x16B1, name: "RUNIC LETTER RAIDO RAD REID R", aliases: &[] },
        Codepoint { codepoint: 0x16B2, name: "RUNIC LETTER KAUNA", aliases: &[] },
        Codepoint { codepoint: 0x16B3, name: "RUNIC LETTER CEN", aliases: &[] },
        Codepoint { codepoint: 0x16B4, name: "RUNIC LETTER KAUN K", aliases: &[] },
        Codepoint { codepoint: 0x16B5, name: "RUNIC LETTER G", aliases: &[] },
        Codepoint { codepoint: 0x16B6, name: "RUNIC LETTER ENG", aliases: &[] },
        Codepoint { codepoint: 0x16B7, name: "RUNIC LETTER GEBO GYFU G", aliases: &[] },
        Codepoint { codepoint: 0x16B8, name: "RUNIC LETTER GAR", aliases: &[] },
    ]
}

fn all_codepoints_130() -> (v: Vec<Codepoint>)
    ensures
        v@ == codepoint_table_130(),
{
    let v = vec![
        Codepoint { codepoint: 0x168E, name: "OGHAM LETTER STRAIF", aliases: &[] },
        Codepoint { codepoint: 0x168F, name: "OGHAM LETTER RUIS", aliases: &[] },
        Codepoint { codepoint: 0x1690, name: "OGHAM LETTER AILM", aliases: &[] },
        Codepoint { codepoint: 0x1691, name: "OGHAM LETTER ONN", aliases: &[] },
        Codepoint { codepoint: 0x1692, name: "OGHAM LETTER UR", aliases: &[] },
        Codepoint { codepoint: 0x1693, name: "OGHAM LETTER EADHADH", aliases: &[] },
        Codepoint { codepoint: 0x1694, name: "OGHAM LETTER IODHADH", aliases: &[] },
        Codepoint { codepoint: 0x1695, name: "OGHAM LETTER EABHADH", aliases: &[] },
        Codepoint { codepoint: 0x1696, name: "OGHAM LETTER OR", aliases: &[] },
        Codepoint { codepoint: 0x1697, name: "OGHAM LETTER UILLEANN", aliases: &[] },
        Codepoint { codepoint: 0x1698, name: "OGHAM LETTER IFIN", aliases: &[] },
        Codepoint { codepoint: 0x1699, name: "OGHAM LETTER EAMHANCHOLL", aliases: &[] },
        Codepoint { codepoint: 0x169A, name: "OGHAM LETTER PEITH", aliases: &[] },
        Codepoint { codepoint: 0x169B, name: "OGHAM FEATHER MARK", aliases: &[] },
        Codepoint { codepoint: 0x169C, name: "OGHAM REVERSED FEATHER MARK", aliases: &[] },
        Codepoint { codepoint: 0x16A0, name: "RUNIC LETTER FEHU FEOH FE F", aliases: &[] },
        Codepoint { codepoint: 0x16A1, name: "RUNIC LETTER V", aliases: &[] },
        Codepoint { codepoint: 0x16A2, name: "RUNIC LETTER URUZ UR U", aliases: &[] },
        Codepoint { codepoint: 0x16A3, name: "RUNIC LETTER YR", aliases: &[] },
        Codepoint { codepoint: 0x16A4, name: "RUNIC LETTER Y", aliases: &[] },
        Codepoint { codepoint: 0x16A5, name: "RUNIC LETTER W", aliases: &[] },
        Codepoint { codepoint: 0x16A6, name: "RUNIC LETTER THURISAZ THURS THORN", aliases: &[] },
        Codepoint { codepoint: 0x16A7, name: "RUNIC LETTER ETH", aliases: &[] },
        Codepoint { codepoint: 0x16A8, name: "RUNIC LETTER ANSUZ A", aliases: &[] },
        Codepoint { codepoint: 0x16A9, name: "RUNIC LETTER OS O", aliases: &[] },
        Codepoint { codepoint: 0x16AA, name: "RUNIC LETTER AC A", aliases: &[] },
        Codepoint { codepoint: 0x16AB, name: "RUNIC LETTER AESC", aliases: &[] },
        Codepoint { codepoint: 0x16AC, name: "RUNIC LETTER LONG-BRANCH-OSS O", aliases: &[] },
        Codepoint { codepoint: 0x16AD, name: "RUNIC LETTER SHORT-TWIG-OSS O", aliases: &[] },
        Codepoint { codepoint: 0x16AE, name: "RUNIC LETTER O", aliases: &[] },
        Codepoint { codepoint: 0x16AF, name: "RUNIC LETTER OE", aliases: &[] },
        Codepoint { codepoint: 0x16B0, name: "RUNIC LETTER ON", aliases: &[] },
        Codepoint { codepoint: 0x16B1, name: "RUNIC LETTER RAIDO RAD REID R", aliases: &[] },
        Codepoint { codepoint: 0x16B2, name: "RUNIC LETTER KAUNA", aliases: &[] },
        Codepoint { codepoint: 0x16B3, name: "RUNIC LETTER CEN", aliases: &[] },
        Codepoint { codepoint: 0x16B4, name: "RUNIC LETTER KAUN K", aliases: &[] },
        Codepoint { codepoint: 0x16B5, name: "RUNIC LETTER G", aliases: &[] },
        Codepoint { codepoint: 0x16B6, name: "RUNIC LETTER ENG", aliases: &[] },
        Codepoint { codepoint: 0x16B7, name: "RUNIC LETTER GEBO GYFU G", aliases: &[] },
        Codepoint { codepoint: 0x16B8, name: "RUNIC LETTER GAR", aliases: &[] },
    ];
    assert(v@ =~= codepoint_table_130());
    v
}

pub open spec fn codepoint_table_131() -> Seq<Codepoint> {
    seq![
        Codepoint { codepoint: 0x16B9, name: "RUNIC LETTER WUNJO WYNN W", aliases: &[] },
        Codepoint { codepoint: 0x16BA, name: "RUNIC LETTER HAGLAZ H", aliases: &[] },
        Codepoint { codepoint: 0x16BB, name: "RUNIC LETTER HAEGL H", aliases: &[] },
        Codepoint { codepoint: 0x16BC, name: "RUNIC LETTER LONG-BRANCH-HAGALL H", aliases: &[] },
        Codepoint { codepoint: 0x16BD, name: "RUNIC LETTER SHORT-TWIG-HAGALL H", aliases: &[] },
        Codepoint { codepoint: 0x16BE, name: "RUNIC LETTER NAUDIZ NYD NAUD N", aliases: &[] },
        Codepoint { codepoint: 0x16BF, name: "RUNIC LETTER SHORT-TWIG-NAUD N", aliases: &[] },
        Codepoint { codepoint: 0x16C0, name: "RUNIC LETTER DOTTED-N", aliases: &[] },
        Codepoint { codepoint: 0x16C1, name: "RUNIC LETTER ISAZ IS ISS I", aliases: &[] },
        Codepoint { codepoint: 0x16C2, name: "RUNIC LETTER E", aliases: &[] },
        Codepoint { codepoint: 0x16C3, name: "RUNIC LETTER JERAN J", aliases: &[] },
        Codepoint { codepoint: 0x16C4, name: "RUNIC LETTER GER", aliases: &[] },
        Codepoint { codepoint: 0x16C5, name: "RUNIC LETTER LONG-BRANCH-AR AE", aliases: &[] },
        Codepoint { codepoint: 0x16C6, name: "RUNIC LETTER SHORT-TWIG-AR A", aliases: &[] },
        Codepoint { codepoint: 0x16C7, name: "RUNIC LETTER IWAZ EOH", aliases: &[] },
        Codepoint { codepoint: 0x16C8, name: "RUNIC LETTER PERTHO PEORTH P", aliases: &[] },
        Codepoint { codepoint: 0x16C9, name: "RUNIC LETTER ALGIZ EOLHX", aliases: &[] },
        Codepoint { codepoint: 0x16CA, name: "RUNIC LETTER SOWILO S", aliases: &[] },
        Codepoint { codepoint: 0x16CB, name: "RUNIC LETTER SIGEL LONG-BRANCH-SOL S", aliases: &[] },
        Codepoint { codepoint: 0x16CC, name: "RUNIC LETTER SHORT-TWIG-SOL S", aliases: &[] },
        Codepoint { codepoint: 0x16CD, name: "RUNIC LETTER C", aliases: &[] },
        Codepoint { codepoint: 0x16CE, name: "RUNIC LETTER Z", aliases: &[] },
        Codepoint { codepoint: 0x16CF, name: "RUNIC LETTER TIWAZ TIR TYR T", aliases: &[] },
        Codepoint { codepoint: 0x16D0, name: "RUNIC LETTER SHORT-TWIG-TYR T", aliases: &[] },
        Codepoint { codepoint: 0x16D1, name: "RUNIC LETTER D", aliases: &[] },
        Codepoint { codepoint: 0x16D2, name: "RUNIC LETTER BERKANAN BEORC BJARKAN B", aliases: &[] },
        Codepoint { codepoint: 0x16D3, name: "RUNIC LETTER SHORT-TWIG-BJARKAN B", aliases: &[] },
        Codepoint { codepoint: 0x16D4, name: "RUNIC LETTER DOTTED-P", aliases: &[] },
        Codepoint { codepoint: 0x16D5, name: "RUNIC LETTER OPEN-P", aliases: &[] },
        Codepoint { codepoint: 0x16D6, name: "RUNIC LETTER EHWAZ EH E", aliases: &[] },
        Codepoint { codepoint: 0x16D7, name: "RUNIC LETTER MANNAZ MAN M", aliases: &[] },
        Codepoint { codepoint: 0x16D8, name: "RUNIC LETTER LONG-BRANCH-MADR M", aliases: &[] },
        Codepoint { codepoint: 0x16D9, name: "RUNIC LETTER SHORT-TWIG-MADR M", aliases: &[] },
        Codepoint { codepoint: 0x16DA, name: "RUNIC LETTER LAUKAZ LAGU LOGR L", aliases: &[] },
        Codepoint { codepoint: 0x16DB, name: "RUNIC LETTER DOTTED-L", aliases: &[] },
        Codepoint { codepoint: 0x16DC, name: "RUNIC LETTER INGWAZ", aliases: &[] },
        Codepoint { codepoint: 0x16DD, name: "RUNIC LETTER ING", aliases: &[] },
        Codepoint { codepoint: 0x16DE, name: "RUNIC LETTER DAGAZ DAEG D", aliases: &[] },
        Codepoint { codepoint: 0x16DF, name: "RUNIC LETTER OTHALAN ETHEL O", aliases: &[] },
        Codepoint { codepoint: 0x16E0, name: "RUNIC LETTER EAR", aliases: &[] },
    ]
}

fn all_codepoints_131() -> (v: Vec<Codepoint>)
    ensures
        v@ == codepoint_table_131(),
{
    let v = vec![
        Codepoint { codepoint: 0x16B9, name: "RUNIC LETTER WUNJO WYNN W", aliases: &[] },
        Codepoint { codepoint: 0x16BA, name: "RUNIC LETTER HAGLAZ H", aliases: &[] },
        Codepoint { codepoint: 0x16BB, name: "RUNIC LETTER HAEGL H", aliases: &[] },
        Codepoint { codepoint: 0x16BC, name: "RUNIC LETTER LONG-BRANCH-HAGALL H", aliases: &[] },
        Codepoint { codepoint: 0x16BD, name: "RUNIC LETTER SHORT-TWIG-HAGALL H", aliases: &[] },
        Codepoint { codepoint: 0x16BE, name: "RUNIC LETTER NAUDIZ NYD NAUD N", aliases: &[] },
        Codepoint { codepoint: 0x16BF, name: "RUNIC LETTER SHORT-TWIG-NAUD N", aliases: &[] },
        Codepoint { codepoint: 0x16C0, name: "RUNIC LETTER DOTTED-N", aliases: &[] },
        Codepoint { codepoint: 0x16C1, name: "RUNIC LETTER ISAZ IS ISS I", aliases: &[] },
        Codepoint { codepoint: 0x16C2, name: "RUNIC LETTER E", aliases: &[] },
        Codepoint { codepoint: 0x16C3, name: "RUNIC LETTER JERAN J", aliases: &[] },
        Codepoint { codepoint: 0x16C4, name: "RUNIC LETTER GER", aliases: &[] },
        Codepoint { codepoint: 0x16C5, name: "RUNIC LETTER LONG-BRANCH-AR AE", aliases: &[] },
        Codepoint { codepoint: 0x16C6, name: "RUNIC LETTER SHORT-TWIG-AR A", aliases: &[] },
        Codepoint { codepoint: 0x16C7, name: "RUNIC LETTER IWAZ EOH", aliases: &[] },
        Codepoint { codepoint: 0x16C8, name: "RUNIC LETTER PERTHO PEORTH P", aliases: &[] },
        Codepoint { codepoint: 0x16C9, name: "RUNIC LETTER ALGIZ EOLHX", aliases: &[] },
        Codepoint { codepoint: 0x16CA, name: "RUNIC LETTER SOWILO S", aliases: &[] },
        Codepoint { codepoint: 0x16CB, name: "RUNIC LETTER SIGEL LONG-BRANCH-SOL S", aliases: &[] },
        Codepoint { codepoint: 0x16CC, name: "RUNIC LETTER SHORT-TWIG-SOL S", aliases: &[] },
        Codepoint { codepoint: 0x16CD, name: "RUNIC LETTER C", aliases: &[] },
        Codepoint { codepoint: 0x16CE, name: "RUNIC LETTER Z", aliases: &[] },
        Codepoint { codepoint: 0x16CF, name: "RUNIC LETTER TIWAZ TIR TYR T", aliases: &[] },
        Codepoint { codepoint: 0x16D0, name: "RUNIC LETTER SHORT-TWIG-TYR T", aliases: &[] },
        Codepoint { codepoint: 0x16D1, name: "RUNIC LETTER D", aliases: &[] },
        Codepoint { codepoint: 0x16D2, name: "RUNIC LETTER BERKANAN BEORC BJARKAN B", aliases: &[] },
        Codepoint { codepoint: 0x16D3, name: "RUNIC LETTER SHORT-TWIG-BJARKAN B", aliases: &[] },
        Codepoint { codepoint: 0x16D4, name: "RUNIC LETTER DOTTED-P", aliases: &[] },
        Codepoint { codepoint: 0x16D5, name: "RUNIC LETTER OPEN-P", aliases: &[] },
        Codepoint { codepoint: 0x16D6, name: "RUNIC LETTER EHWAZ EH E", aliases: &[] },
        Codepoint { codepoint: 0x16D7, name: "RUNIC LETTER MANNAZ MAN M", aliases: &[] },
        Codepoint { codepoint: 0x16D8, name: "RUNIC LETTER LONG-BRANCH-MADR M", aliases: &[] },
        Codepoint { codepoint: 0x16D9, name: "RUNIC LETTER SHORT-TWIG-MADR M", aliases: &[] },
        Codepoint { codepoint: 0x16DA, name: "RUNIC LETTER LAUKAZ LAGU LOGR L", aliases: &[] },
        Codepoint { codepoint: 0x16DB, name: "RUNIC LETTER DOTTED-L", aliases: &[] },
        Codepoint { codepoint: 0x16DC, name: "RUNIC LETTER INGWAZ", aliases: &[] },
        Codepoint { codepoint: 0x16DD, name: "RUNIC LETTER ING", aliases: &[] },
        Codepoint { codepoint: 0x16DE, name: "RUNIC LETTER DAGAZ DAEG D", aliases: &[] },
        Codepoint { codepoint: 0x16DF, name: "RUNIC LETTER OTHALAN ETHEL O", aliases: &[] },
        Codepoint { codepoint: 0x16E0, name: "RUNIC LETTER EAR", aliases: &[] },
    ];
    assert(v@ =~= codepoint_table_131());
    v
}

pub open spec fn codepoint_table_132() -> Seq<Codepoint> {
    seq![
        Codepoint { codepoint: 0x16E1, name: "RUNIC LETTER IOR", aliases: &[] },
        Codepoint { codepoint: 0x16E2, name: "RUNIC LETTER CWEORTH", aliases: &[] },
        Codepoint { codepoint: 0x16E3, name: "RUNIC LETTER CALC", aliases: &[] },
        Codepoint { codepoint: 0x16E4, name: "RUNIC LETTER CEALC", aliases: &[] },
        Codepoint { codepoint: 0x16E5, name: "RUNIC LETTER STAN", aliases: &[] },
        Codepoint { codepoint: 0x16E6, name: "RUNIC LETTER LONG-BRANCH-YR", aliases: &[] },
        Codepoint { codepoint: 0x16E7, name: "RUNIC LETTER SHORT-TWIG-YR", aliases: &[] },
        Codepoint { codepoint: 0x16E8, name: "RUNIC LETTER ICELANDIC-YR", aliases: &[] },
        Codepoint { codepoint: 0x16E9, name: "RUNIC LETTER Q", aliases: &[] },
        Codepoint { codepoint: 0x16EA, name: "RUNIC LETTER X", aliases: &[] },
        Codepoint { codepoint: 0x16EB, name: "RUNIC SINGLE PUNCTUATION", aliases: &[] },
        Codepoint { codepoint: 0x16EC, name: "RUNIC MULTIPLE PUNCTUATION", aliases: &[] },
        Codepoint { codepoint: 0x16ED, name: "RUNIC CROSS PUNCTUATION", aliases: &[] },
        Codepoint { codepoint: 0x16EE, name: "RUNIC ARLAUG SYMBOL", aliases: &[] },
        Codepoint { codepoint: 0x16EF, name: "RUNIC TVIMADUR SYMBOL", aliases: &[] },
        Codepoint { codepoint: 0x16F0, name: "RUNIC BELGTHOR SYMBOL", aliases: &[] },
        Codepoint { codepoint: 0x16F1, name: "RUNIC LETTER K", aliases: &[] },
        Codepoint { codepoint: 0x16F2, name: "RUNIC LETTER SH", aliases: &[] },
        Codepoint { codepoint: 0x16F3, name: "RUNIC LETTER OO", aliases: &[] },
        Codepoint { codepoint: 0x16F4, name: "RUNIC LETTER FRANKS CASKET OS", aliases: &[] },
        Codepoint { codepoint: 0x16F5, name: "RUNIC LETTER FRANKS CASKET IS", aliases: &[] },
        Codepoint { codepoint: 0x16F6, name: "RUNIC LETTER FRANKS CASKET EH", aliases: &[] },
        Codepoint { codepoint: 0x16F7, name: "RUNIC LETTER FRANKS CASKET AC", aliases: &[] },
        Codepoint { codepoint: 0x16F8, name: "RUNIC LETTER FRANKS CASKET AESC", aliases: &[] },
        Codepoint { codepoint: 0x1700, name: "TAGALOG LETTER A", aliases: &[] },
        Codepoint { codepoint: 0x1701, name: "TAGALOG LETTER I", aliases: &[] },
        Codepoint { codepoint: 0x1702, name: "TAGALOG LETTER U", aliases: &[] },
        Codepoint { codepoint: 0x1703, name: "TAGALOG LETTER KA", aliases: &[] },
        Codepoint { codepoint: 0x1704, name: "TAGALOG LETTER GA", aliases: &[] },
        Codepoint { codepoint: 0x1705, name: "TAGALOG LETTER NGA", aliases: &[] },
        Codepoint { codepoint: 0x1706, name: "TAGALOG LETTER TA", aliases: &[] },
        Codepoint { codepoint: 0x1707, name: "TAGALOG LETTER DA", aliases: &[] },
        Codepoint { codepoint: 0x1708, name: "TAGALOG LETTER NA", aliases: &[] },
        Codepoint { codepoint: 0x1709, name: "TAGALOG LETTER PA", aliases: &[] },
        Codepoint { codepoint: 0x170A, name: "TAGALOG LETTER BA", aliases: &[] },
        Codepoint { codepoint: 0x170B, name: "TAGALOG LETTER MA", aliases: &[] },
        Codepoint { codepoint: 0x170C, name: "TAGALOG LETTER YA", aliases: &[] },
        Codepoint { codepoint: 0x170D, name: "TAGALOG LETTER RA", aliases: &[] },
        Codepoint { codepoint: 0x170E, name: "TAGALOG LETTER LA", aliases: &[] },
        Codepoint { codepoint: 0x170F, name: "TAGALOG LETTER WA", aliases: &[] },
    ]
}

fn all_codepoints_132() -> (v: Vec<Codepoint>)
    ensures
        v@ == codepoint_table_132(),
{
    let v = vec![
        Codepoint { codepoint: 0x16E1, name: "RUNIC LETTER IOR", aliases: &[] },
        Codepoint { codepoint: 0x16E2, name: "RUNIC LETTER CWEORTH", aliases: &[] },
        Codepoint { codepoint: 0x16E3, name: "RUNIC LETTER CALC", aliases: &[] },
        Codepoint { codepoint: 0x16E4, name: "RUNIC LETTER CEALC", aliases: &[] },
        Codepoint { codepoint: 0x16E5, name: "RUNIC LETTER STAN", aliases: &[] },
        Codepoint { codepoint: 0x16E6, name: "RUNIC LETTER LONG-BRANCH-YR", aliases: &[] },
        Codepoint { codepoint: 0x16E7, name: "RUNIC LETTER SHORT-TWIG-YR", aliases: &[] },
        Codepoint { codepoint: 0x16E8, name: "RUNIC LETTER ICELANDIC-YR", aliases: &[] },
        Codepoint { codepoint: 0x16E9, name: "RUNIC LETTER Q", aliases: &[] },
        Codepoint { codepoint: 0x16EA, name: "RUNIC LETTER X", aliases: &[] },
        Codepoint { codepoint: 0x16EB, name: "RUNIC SINGLE PUNCTUATION", aliases: &[] },
        Codepoint { codepoint: 0x16EC, name: "RUNIC MULTIPLE PUNCTUATION", aliases: &[] },
        Codepoint { codepoint: 0x16ED, name: "RUNIC CROSS PUNCTUATION", aliases: &[] },
        Codepoint { codepoint: 0x16EE, name: "RUNIC ARLAUG SYMBOL", aliases: &[] },
        Codepoint { codepoint: 0x16EF, name: "RUNIC TVIMADUR SYMBOL", aliases: &[] },
        Codepoint { codepoint: 0x16F0, name: "RUNIC BELGTHOR SYMBOL", aliases: &[] },
        Codepoint { codepoint: 0x16F1, name: "RUNIC LETTER K", aliases: &[] },
        Codepoint { codepoint: 0x16F2, name: "RUNIC LETTER SH", aliases: &[] },
        Codepoint { codepoint: 0x16F3, name: "RUNIC LETTER OO", aliases: &[] },
        Codepoint { codepoint: 0x16F4, name: "RUNIC LETTER FRANKS CASKET OS", aliases: &[] },
        Codepoint { codepoint: 0x16F5, name: "RUNIC LETTER FRANKS CASKET IS", aliases: &[] },
        Codepoint { codepoint: 0x16F6, name: "RUNIC LETTER FRANKS CASKET EH", aliases: &[] },
        Codepoint { codepoint: 0x16F7, name: "RUNIC LETTER FRANKS CASKET AC", aliases: &[] },
        Codepoint { codepoint: 0x16F8, name: "RUNIC LETTER FRANKS CASKET AESC", aliases: &[] },
        Codepoint { codepoint: 0x1700, name: "TAGALOG LETTER A", aliases: &[] },
        Codepoint { codepoint: 0x1701, name: "TAGALOG LETTER I", aliases: &[] },
        Codepoint { codepoint: 0x1702, name: "TAGALOG LETTER U", aliases: &[] },
        Codepoint { codepoint: 0x1703, name: "TAGALOG LETTER KA", aliases: &[] },
        Codepoint { codepoint: 0x1704, name: "TAGALOG LETTER GA", aliases: &[] },
        Codepoint { codepoint: 0x1705, name: "TAGALOG LETTER NGA", aliases: &[] },
        Codepoint { codepoint: 0x1706, name: "TAGALOG LETTER TA", aliases: &[] },
        Codepoint { codepoint: 0x1707, name: "TAGALOG LETTER DA", aliases: &[] },
        Codepoint { codepoint: 0x1708, name: "TAGALOG LETTER NA", aliases: &[] },
        Codepoint { codepoint: 0x1709, name: "TAGALOG LETTER PA", aliases: &[] },
        Codepoint { codepoint: 0x170A, name: "TAGALOG LETTER BA", aliases: &[] },
        Codepoint { codepoint: 0x170B, name: "TAGALOG LETTER MA", aliases: &[] },
        Codepoint { codepoint: 0x170C, name: "TAGALOG LETTER YA", aliases: &[] },
        Codepoint { codepoint: 0x170D, name: "TAGALOG LETTER RA", aliases: &[] },
        Codepoint { codepoint: 0x170E, name: "TAGALOG LETTER LA", aliases: &[] },
        Codepoint { codepoint: 0x170F, name: "TAGALOG LETTER WA", aliases: &[] },
    ];
    assert(v@ =~= codepoint_table_132());
    v
}

pub open spec fn codepoint_table_133() -> Seq<Codepoint> {
    seq![
        Codepoint { codepoint: 0x1710, name: "TAGALOG LETTER SA", aliases: &[] },
        Codepoint { codepoint: 0x1711, name: "TAGALOG LETTER HA", aliases: &[] },
        Codepoint { codepoint: 0x1712, name: "TAGALOG VOWEL SIGN I", aliases: &[] },
        Codepoint { codepoint: 0x1713, name: "TAGALOG VOWEL SIGN U", aliases: &[] },
        Codepoint { codepoint: 0x1714, name: "TAGALOG SIGN VIRAMA", aliases: &[] },
        Codepoint { codepoint: 0x1715, name: "TAGALOG SIGN PAMUDPOD", aliases: &[] },
        Codepoint { codepoint: 0x171F, name: "TAGALOG LETTER ARCHAIC RA", aliases: &[] },
        Codepoint { codepoint: 0x1720, name: "HANUNOO LETTER A", aliases: &[] },
        Codepoint { codepoint: 0x1721, name: "HANUNOO LETTER I", aliases: &[] },
        Codepoint { codepoint: 0x1722, name: "HANUNOO LETTER U", aliases: &[] },
        Codepoint { codepoint: 0x1723, name: "HANUNOO LETTER KA", aliases: &[] },
        Codepoint { codepoint: 0x1724, name: "HANUNOO LETTER GA", aliases: &[] },
        Codepoint { codepoint: 0x1725, name: "HANUNOO LETTER NGA", aliases: &[] },
        Codepoint { codepoint: 0x1726, name: "HANUNOO LETTER TA", aliases: &[] },
        Codepoint { codepoint: 0x1727, name: "HANUNOO LETTER DA", aliases: &[] },
        Codepoint { codepoint: 0x1728, name: "HANUNOO LETTER NA", aliases: &[] },
        Codepoint { codepoint: 0x1729, name: "HANUNOO LETTER PA", aliases: &[] },
        Codepoint { codepoint: 0x172A, name: "HANUNOO LETTER BA", aliases: &[] },
        Codepoint { codepoint: 0x172B, name: "HANUNOO LETTER MA", aliases: &[] },
        Codepoint { codepoint: 0x172C, name: "HANUNOO LETTER YA", aliases: &[] },
        Codepoint { codepoint: 0x172D, name: "HANUNOO LETTER RA", aliases: &[] },
        Codepoint { codepoint: 0x172E, name: "HANUNOO LETTER LA", aliases: &[] },
        Codepoint { codepoint: 0x172F, name: "HANUNOO LETTER WA", aliases: &[] },
        Codepoint { codepoint: 0x1730, name: "HANUNOO LETTER SA", aliases: &[] },
        Codepoint { codepoint: 0x1731, name: "HANUNOO LETTER HA", aliases: &[] },
        Codepoint { codepoint: 0x1732, name: "HANUNOO VOWEL SIGN I", aliases: &[] },
        Codepoint { codepoint: 0x1733, name: "HANUNOO VOWEL SIGN U", aliases: &[] },
        Codepoint { codepoint: 0x1734, name: "HANUNOO SIGN PAMUDPOD", aliases: &[] },
        Codepoint { codepoint: 0x1735, name: "PHILIPPINE SINGLE PUNCTUATION", aliases: &[] },
        Codepoint { codepoint: 0x1736, name: "PHILIPPINE DOUBLE PUNCTUATION", aliases: &[] },
        Codepoint { codepoint: 0x1740, name: "BUHID LETTER A", aliases: &[] },
        Codepoint { codepoint: 0x1741, name: "BUHID LETTER I", aliases: &[] },
        Codepoint { codepoint: 0x1742, name: "BUHID LETTER U", aliases: &[] },
        Codepoint { codepoint: 0x1743, name: "BUHID LETTER KA", aliases: &[] },
        Codepoint { codepoint: 0x1744, name: "BUHID LETTER GA", aliases: &[] },
        Codepoint { codepoint: 0x1745, name: "BUHID LETTER NGA", aliases: &[] },
        Codepoint { codepoint: 0x1746, name: "BUHID LETTER TA", aliases: &[] },
        Codepoint { codepoint: 0x1747, name: "BUHID LETTER DA", aliases: &[] },
        Codepoint { codepoint: 0x1748, name: "BUHID LETTER NA", aliases: &[] },
        Codepoint { codepoint: 0x1749, name: "BUHID LETTER PA", aliases: &[] },
    ]
}

fn all_codepoints_133() -> (v: Vec<Codepoint>)
    ensures
        v@ == codepoint_table_133(),
{
    let v = vec![
        Codepoint { codepoint: 0x1710, name: "TAGALOG LETTER SA", aliases: &[] },
        Codepoint { codepoint: 0x1711, name: "TAGALOG LETTER HA", aliases: &[] },
        Codepoint { codepoint: 0x1712, name: "TAGALOG VOWEL SIGN I", aliases: &[] },
        Codepoint { codepoint: 0x1713, name: "TAGALOG VOWEL SIGN U", aliases: &[] },
        Codepoint { codepoint: 0x1714, name: "TAGALOG SIGN VIRAMA", aliases: &[] },
        Codepoint { codepoint: 0x1715, name: "TAGALOG SIGN PAMUDPOD", aliases: &[] },
        Codepoint { codepoint: 0x171F, name: "TAGALOG LETTER ARCHAIC RA", aliases: &[] },
        Codepoint { codepoint: 0x1720, name: "HANUNOO LETTER A", aliases: &[] },
        Codepoint { codepoint: 0x1721, name: "HANUNOO LETTER I", aliases: &[] },
        Codepoint { codepoint: 0x1722, name: "HANUNOO LETTER U", aliases: &[] },
        Codepoint { codepoint: 0x1723, name: "HANUNOO LETTER KA", aliases: &[] },
        Codepoint { codepoint: 0x1724, name: "HANUNOO LETTER GA", aliases: &[] },
        Codepoint { codepoint: 0x1725, name: "HANUNOO LETTER NGA", aliases: &[] },
        Codepoint { codepoint: 0x1726, name: "HANUNOO LETTER TA", aliases: &[] },
        Codepoint { codepoint: 0x1727, name: "HANUNOO LETTER DA", aliases: &[] },
        Codepoint { codepoint: 0x1728, name: "HANUNOO LETTER NA", aliases: &[] },
        Codepoint { codepoint: 0x1729, name: "HANUNOO LETTER PA", aliases: &[] },
        Codepoint { codepoint: 0x172A, name: "HANUNOO LETTER BA", aliases: &[] },
        Codepoint { codepoint: 0x172B, name: "HANUNOO LETTER MA", aliases: &[] },
        Codepoint { codepoint: 0x172C, name: "HANUNOO LETTER YA", aliases: &[] },
        Codepoint { codepoint: 0x172D, name: "HANUNOO LETTER RA", aliases: &[] },
        Codepoint { codepoint: 0x172E, name: "HANUNOO LETTER LA", aliases: &[] },
        Codepoint { codepoint: 0x172F, name: "HANUNOO LETTER WA", aliases: &[] },
        Codepoint { codepoint: 0x1730, name: "HANUNOO LETTER SA", aliases: &[] },
        Codepoint { codepoint: 0x1731, name: "HANUNOO LETTER HA", aliases: &[] },
        Codepoint { codepoint: 0x1732, name: "HANUNOO VOWEL SIGN I", aliases: &[] },
        Codepoint { codepoint: 0x1733, name: "HANUNOO VOWEL SIGN U", aliases: &[] },
        Codepoint { codepoint: 0x1734, name: "HANUNOO SIGN PAMUDPOD", aliases: &[] },
        Codepoint { codepoint: 0x1735, name: "PHILIPPINE SINGLE PUNCTUATION", aliases: &[] },
        Codepoint { codepoint: 0x1736, name: "PHILIPPINE DOUBLE PUNCTUATION", aliases: &[] },
        Codepoint { codepoint: 0x1740, name: "BUHID LETTER A", aliases: &[] },
        Codepoint { codepoint: 0x1741, name: "BUHID LETTER I", aliases: &[] },
        Codepoint { codepoint: 0x1742, name: "BUHID LETTER U", aliases: &[] },
        Codepoint { codepoint: 0x1743, name: "BUHID LETTER KA", aliases: &[] },
        Codepoint { codepoint: 0x1744, name: "BUHID LETTER GA", aliases: &[] },
        Codepoint { codepoint: 0x1745, name: "BUHID LETTER NGA", aliases: &[] },
        Codepoint { codepoint: 0x1746, name: "BUHID LETTER TA", aliases: &[] },
        Codepoint { codepoint: 0x1747, name: "BUHID LETTER DA", aliases: &[] },
        Codepoint { codepoint: 0x1748, name: "BUHID LETTER NA", aliases: &[] },
        Codepoint { codepoint: 0x1749, name: "BUHID LETTER PA", aliases: &[] },
    ];
    assert(v@ =~= codepoint_table_133());
    v
}

pub open spec fn codepoint_table_134() -> Seq<Codepoint> {
    seq![
        Codepoint { codepoint: 0x174A, name: "BUHID LETTER BA", aliases: &[] },
        Codepoint { codepoint: 0x174B, name: "BUHID LETTER MA", aliases: &[] },
        Codepoint { codepoint: 0x174C, name: "BUHID LETTER YA", aliases: &[] },
        Codepoint { codepoint: 0x174D, name: "BUHID LETTER RA", aliases: &[] },
        Codepoint { codepoint: 0x174E, name: "BUHID LETTER LA", aliases: &[] },
        Codepoint { codepoint: 0x174F, name: "BUHID LETTER WA", aliases: &[] },
        Codepoint { codepoint: 0x1750, name: "BUHID LETTER SA", aliases: &[] },
        Codepoint { codepoint: 0x1751, name: "BUHID LETTER HA", aliases: &[] },
        Codepoint { codepoint: 0x1752, name: "BUHID VOWEL SIGN I", aliases: &[] },
        Codepoint { codepoint: 0x1753, name: "BUHID VOWEL SIGN U", aliases: &[] },
        Codepoint { codepoint: 0x1760, name: "TAGBANWA LETTER A", aliases: &[] },
        Codepoint { codepoint: 0x1761, name: "TAGBANWA LETTER I", aliases: &[] },
        Codepoint { codepoint: 0x1762, name: "TAGBANWA LETTER U", aliases: &[] },
        Codepoint { codepoint: 0x1763, name: "TAGBANWA LETTER KA", aliases: &[] },
        Codepoint { codepoint: 0x1764, name: "TAGBANWA LETTER GA", aliases: &[] },
        Codepoint { codepoint: 0x1765, name: "TAGBANWA LETTER NGA", aliases: &[] },
        Codepoint { codepoint: 0x1766, name: "TAGBANWA LETTER TA", aliases: &[] },
        Codepoint { codepoint: 0x1767, name: "TAGBANWA LETTER DA", aliases: &[] },
        Codepoint { codepoint: 0x1768, name: "TAGBANWA LETTER NA", aliases: &[] },
        Codepoint { codepoint: 0x1769, name: "TAGBANWA LETTER PA", aliases: &[] },
        Codepoint { codepoint: 0x176A, name: "TAGBANWA LETTER BA", aliases: &[] },
        Codepoint { codepoint: 0x176B, name: "TAGBANWA LETTER MA", aliases: &[] },
        Codepoint { codepoint: 0x176C, name: "TAGBANWA LETTER YA", aliases: &[] },
        Codepoint { codepoint: 0x176E, name: "TAGBANWA LETTER LA", aliases: &[] },
        Codepoint { codepoint: 0x176F, name: "TAGBANWA LETTER WA", aliases: &[] },
        Codepoint { codepoint: 0x1770, name: "TAGBANWA LETTER SA", aliases: &[] },
        Codepoint { codepoint: 0x1772, name: "TAGBANWA VOWEL SIGN I", aliases: &[] },
        Codepoint { codepoint: 0x1773, name: "TAGBANWA VOWEL SIGN U", aliases: &[] },
        Codepoint { codepoint: 0x1780, name: "KHMER LETTER KA", aliases: &[] },
        Codepoint { codepoint: 0x1781, name: "KHMER LETTER KHA", aliases: &[] },
        Codepoint { codepoint: 0x1782, name: "KHMER LETTER KO", aliases: &[] },
        Codepoint { codepoint: 0x1783, name: "KHMER LETTER KHO", aliases: &[] },
        Codepoint { codepoint: 0x1784, name: "KHMER LETTER NGO", aliases: &[] },
        Codepoint { codepoint: 0x1785, name: "KHMER LETTER CA", aliases: &[] },
        Codepoint { codepoint: 0x1786, name: "KHMER LETTER CHA", aliases: &[] },
        Codepoint { codepoint: 0x1787, name: "KHMER LETTER CO", aliases: &[] },
        Codepoint { codepoint: 0x1788, name: "KHMER LETTER CHO", aliases: &[] },
        Codepoint { codepoint: 0x1789, name: "KHMER LETTER NYO", aliases: &[] },
        Codepoint { codepoint: 0x178A, name: "KHMER LETTER DA", aliases: &[] },
        Codepoint { codepoint: 0x178B, name: "KHMER LETTER TTHA", aliases: &[] },
    ]
}

fn all_codepoints_134() -> (v: Vec<Codepoint>)
    ensures
        v@ == codepoint_table_134(),
{
    let v = vec![
        Codepoint { codepoint: 0x174A, name: "BUHID LETTER BA", aliases: &[] },
        Codepoint { codepoint: 0x174B, name: "BUHID LETTER MA", aliases: &[] },
        Codepoint { codepoint: 0x174C, name: "BUHID LETTER YA", aliases: &[] },
        Codepoint { codepoint: 0x174D, name: "BUHID LETTER RA", aliases: &[] },
        Codepoint { codepoint: 0x174E, name: "BUHID LETTER LA", aliases: &[] },
        Codepoint { codepoint: 0x174F, name: "BUHID LETTER WA", aliases: &[] },
        Codepoint { codepoint: 0x1750, name: "BUHID LETTER SA", aliases: &[] },
        Codepoint { codepoint: 0x1751, name: "BUHID LETTER HA", aliases: &[] },
        Codepoint { codepoint: 0x1752, name: "BUHID VOWEL SIGN I", aliases: &[] },
        Codepoint { codepoint: 0x1753, name: "BUHID VOWEL SIGN U", aliases: &[] },
        Codepoint { codepoint: 0x1760, name: "TAGBANWA LETTER A", aliases: &[] },
        Codepoint { codepoint: 0x1761, name: "TAGBANWA LETTER I", aliases: &[] },
        Codepoint { codepoint: 0x1762, name: "TAGBANWA LETTER U", aliases: &[] },
        Codepoint { codepoint: 0x1763, name: "TAGBANWA LETTER KA", aliases: &[] },
        Codepoint { codepoint: 0x1764, name: "TAGBANWA LETTER GA", aliases: &[] },
        Codepoint { codepoint: 0x1765, name: "TAGBANWA LETTER NGA", aliases: &[] },
        Codepoint { codepoint: 0x1766, name: "TAGBANWA LETTER TA", aliases: &[] },
        Codepoint { codepoint: 0x1767, name: "TAGBANWA LETTER DA", aliases: &[] },
        Codepoint { codepoint: 0x1768, name: "TAGBANWA LETTER NA", aliases: &[] },
        Codepoint { codepoint: 0x1769, name: "TAGBANWA LETTER PA", aliases: &[] },
        Codepoint { codepoint: 0x176A, name: "TAGBANWA LETTER BA", aliases: &[] },
        Codepoint { codepoint: 0x176B, name: "TAGBANWA LETTER MA", aliases: &[] },
        Codepoint { codepoint: 0x176C, name: "TAGBANWA LETTER YA", aliases: &[] },
        Codepoint { codepoint: 0x176E, name: "TAGBANWA LETTER LA", aliases: &[] },
        Codepoint { codepoint: 0x176F, name: "TAGBANWA LETTER WA", aliases: &[] },
        Codepoint { codepoint: 0x1770, name: "TAGBANWA LETTER SA", aliases: &[] },
        Codepoint { codepoint: 0x1772, name: "TAGBANWA VOWEL SIGN I", aliases: &[] },
        Codepoint { codepoint: 0x1773, name: "TAGBANWA VOWEL SIGN U", aliases: &[] },
        Codepoint { codepoint: 0x1780, name: "KHMER LETTER KA", aliases: &[] },
        Codepoint { codepoint: 0x1781, name: "KHMER LETTER KHA", aliases: &[] },
        Codepoint { codepoint: 0x1782, name: "KHMER LETTER KO", aliases: &[] },
        Codepoint { codepoint: 0x1783, name: "KHMER LETTER KHO", aliases: &[] },
        Codepoint { codepoint: 0x1784, name: "KHMER LETTER NGO", aliases: &[] },
        Codepoint { codepoint: 0x1785, name: "KHMER LETTER CA", aliases: &[] },
        Codepoint { codepoint: 0x1786, name: "KHMER LETTER CHA", aliases: &[] },
        Codepoint { codepoint: 0x1787, name: "KHMER LETTER CO", aliases: &[] },
        Codepoint { codepoint: 0x1788, name: "KHMER LETTER CHO", aliases: &[] },
        Codepoint { codepoint: 0x1789, name: "KHMER LETTER NYO", aliases: &[] },
        Codepoint { codepoint: 0x178A, name: "KHMER LETTER DA", aliases: &[] },
        Codepoint { codepoint: 0x178B, name: "KHMER LETTER TTHA", aliases: &[] },
    ];
    assert(v@ =~= codepoint_table_134());
    v
}

pub open spec fn codepoint_table_135() -> Seq<Codepoint> {
    seq![
        Codepoint { codepoint: 0x178C, name: "KHMER LETTER DO", aliases: &[] },
        Codepoint { codepoint: 0x178D, name: "KHMER LETTER TTHO", aliases: &[] },
        Codepoint { codepoint: 0x178E, name: "KHMER LETTER NNO", aliases: &[] },
        Codepoint { codepoint: 0x178F, name: "KHMER LETTER TA", aliases: &[] },
        Codepoint { codepoint: 0x1790, name: "KHMER LETTER THA", aliases: &[] },
        Codepoint { codepoint: 0x1791, name: "KHMER LETTER TO", aliases: &[] },
        Codepoint { codepoint: 0x1792, name: "KHMER LETTER THO", aliases: &[] },
        Codepoint { codepoint: 0x1793, name: "KHMER LETTER NO", aliases: &[] },
        Codepoint { codepoint: 0x1794, name: "KHMER LETTER BA", aliases: &[] },
        Codepoint { codepoint: 0x1795, name: "KHMER LETTER PHA", aliases: &[] },
        Codepoint { codepoint: 0x1796, name: "KHMER LETTER PO", aliases: &[] },
        Codepoint { codepoint: 0x1797, name: "KHMER LETTER PHO", aliases: &[] },
        Codepoint { codepoint: 0x1798, name: "KHMER LETTER MO", aliases: &[] },
        Codepoint { codepoint: 0x1799, name: "KHMER LETTER YO", aliases: &[] },
        Codepoint { codepoint: 0x179A, name: "KHMER LETTER RO", aliases: &[] },
        Codepoint { codepoint: 0x179B, name: "KHMER LETTER LO", aliases: &[] },
        Codepoint { codepoint: 0x179C, name: "KHMER LETTER VO", aliases: &[] },
        Codepoint { codepoint: 0x179D, name: "KHMER LETTER SHA", aliases: &[] },
        Codepoint { codepoint: 0x179E, name: "KHMER LETTER SSO", aliases: &[] },
        Codepoint { codepoint: 0x179F, name: "KHMER LETTER SA", aliases: &[] },
        Codepoint { codepoint: 0x17A0, name: "KHMER LETTER HA", aliases: &[] },
        Codepoint { codepoint: 0x17A1, name: "KHMER LETTER LA", aliases: &[] },
        Codepoint { codepoint: 0x17A2, name: "KHMER LETTER QA", aliases: &[] },
        Codepoint { codepoint: 0x17A3, name: "KHMER INDEPENDENT VOWEL QAQ", aliases: &[] },
        Codepoint { codepoint: 0x17A4, name: "KHMER INDEPENDENT VOWEL QAA", aliases: &[] },
        Codepoint { codepoint: 0x17A5, name: "KHMER INDEPENDENT VOWEL QI", aliases: &[] },
        Codepoint { codepoint: 0x17A6, name: "KHMER INDEPENDENT VOWEL QII", aliases: &[] },
        Codepoint { codepoint: 0x17A7, name: "KHMER INDEPENDENT VOWEL QU", aliases: &[] },
        Codepoint { codepoint: 0x17A8, name: "KHMER INDEPENDENT VOWEL QUK", aliases: &[] },
        Codepoint { codepoint: 0x17A9, name: "KHMER INDEPENDENT VOWEL QUU", aliases: &[] },
        Codepoint { codepoint: 0x17AA, name: "KHMER INDEPENDENT VOWEL QUUV", aliases: &[] },
        Codepoint { codepoint: 0x17AB, name: "KHMER INDEPENDENT VOWEL RY", aliases: &[] },
        Codepoint { codepoint: 0x17AC, name: "KHMER INDEPENDENT VOWEL RYY", aliases: &[] },
        Codepoint { codepoint: 0x17AD, name: "KHMER INDEPENDENT VOWEL LY", aliases: &[] },
        Codepoint { codepoint: 0x17AE, name: "KHMER INDEPENDENT VOWEL LYY", aliases: &[] },
        Codepoint { codepoint: 0x17AF, name: "KHMER INDEPENDENT VOWEL QE", aliases: &[] },
        Codepoint { codepoint: 0x17B0, name: "KHMER INDEPENDENT VOWEL QAI", aliases: &[] },
        Codepoint { codepoint: 0x17B1, name: "KHMER INDEPENDENT VOWEL QOO TYPE ONE", aliases: &[] },
        Codepoint { codepoint: 0x17B2, name: "KHMER INDEPENDENT VOWEL QOO TYPE TWO", aliases: &[] },
        Codepoint { codepoint: 0x17B3, name: "KHMER INDEPENDENT VOWEL QAU", aliases: &[] },
    ]
}

fn all_codepoints_135() -> (v: Vec<Codepoint>)
    ensures
        v@ == codepoint_table_135(),
{
    let v = vec![
        Codepoint { codepoint: 0x178C, name: "KHMER LETTER DO", aliases: &[] },
        Codepoint { codepoint: 0x178D, name: "KHMER LETTER TTHO", aliases: &[] },
        Codepoint { codepoint: 0x178E, name: "KHMER LETTER NNO", aliases: &[] },
        Codepoint { codepoint: 0x178F, name: "KHMER LETTER TA", aliases: &[] },
        Codepoint { codepoint: 0x1790, name: "KHMER LETTER THA", aliases: &[] },
        Codepoint { codepoint: 0x1791, name: "KHMER LETTER TO", aliases: &[] },
        Codepoint { codepoint: 0x1792, name: "KHMER LETTER THO", aliases: &[] },
        Codepoint { codepoint: 0x1793, name: "KHMER LETTER NO", aliases: &[] },
        Codepoint { codepoint: 0x1794, name: "KHMER LETTER BA", aliases: &[] },
        Codepoint { codepoint: 0x1795, name: "KHMER LETTER PHA", aliases: &[] },
        Codepoint { codepoint: 0x1796, name: "KHMER LETTER PO", aliases: &[] },
        Codepoint { codepoint: 0x1797, name: "KHMER LETTER PHO", aliases: &[] },
        Codepoint { codepoint: 0x1798, name: "KHMER LETTER MO", aliases: &[] },
        Codepoint { codepoint: 0x1799, name: "KHMER LETTER YO", aliases: &[] },
        Codepoint { codepoint: 0x179A, name: "KHMER LETTER RO", aliases: &[] },
        Codepoint { codepoint: 0x179B, name: "KHMER LETTER LO", aliases: &[] },
        Codepoint { codepoint: 0x179C, name: "KHMER LETTER VO", aliases: &[] },
        Codepoint { codepoint: 0x179D, name: "KHMER LETTER SHA", aliases: &[] },
        Codepoint { codepoint: 0x179E, name: "KHMER LETTER SSO", aliases: &[] },
        Codepoint { codepoint: 0x179F, name: "KHMER LETTER SA", aliases: &[] },
        Codepoint { codepoint: 0x17A0, name: "KHMER LETTER HA", aliases: &[] },
        Codepoint { codepoint: 0x17A1, name: "KHMER LETTER LA", aliases: &[] },
        Codepoint { codepoint: 0x17A2, name: "KHMER LETTER QA", aliases: &[] },
        Codepoint { codepoint: 0x17A3, name: "KHMER INDEPENDENT VOWEL QAQ", aliases: &[] },
        Codepoint { codepoint: 0x17A4, name: "KHMER INDEPENDENT VOWEL QAA", aliases: &[] },
        Codepoint { codepoint: 0x17A5, name: "KHMER INDEPENDENT VOWEL QI", aliases: &[] },
        Codepoint { codepoint: 0x17A6, name: "KHMER INDEPENDENT VOWEL QII", aliases: &[] },
        Codepoint { codepoint: 0x17A7, name: "KHMER INDEPENDENT VOWEL QU", aliases: &[] },
        Codepoint { codepoint: 0x17A8, name: "KHMER INDEPENDENT VOWEL QUK", aliases: &[] },
        Codepoint { codepoint: 0x17A9, name: "KHMER INDEPENDENT VOWEL QUU", aliases: &[] },
        Codepoint { codepoint: 0x17AA, name: "KHMER INDEPENDENT VOWEL QUUV", aliases: &[] },
        Codepoint { codepoint: 0x17AB, name: "KHMER INDEPENDENT VOWEL RY", aliases: &[] },
        Codepoint { codepoint: 0x17AC, name: "KHMER INDEPENDENT VOWEL RYY", aliases: &[] },
        Codepoint { codepoint: 0x17AD, name: "KHMER INDEPENDENT VOWEL LY", aliases: &[] },
        Codepoint { codepoint: 0x17AE, name: "KHMER INDEPENDENT VOWEL LYY", aliases: &[] },
        Codepoint { codepoint: 0x17AF, name: "KHMER INDEPENDENT VOWEL QE", aliases: &[] },
        Codepoint { codepoint: 0x17B0, name: "KHMER INDEPENDENT VOWEL QAI", aliases: &[] },
        Codepoint { codepoint: 0x17B1, name: "KHMER INDEPENDENT VOWEL QOO TYPE ONE", aliases: &[] },
        Codepoint { codepoint: 0x17B2, name: "KHMER INDEPENDENT VOWEL QOO TYPE TWO", aliases: &[] },
        Codepoint { codepoint: 0x17B3, name: "KHMER INDEPENDENT VOWEL QAU", aliases: &[] },
    ];
    assert(v@ =~= codepoint_table_135());
    v
}

pub open spec fn codepoint_table_136() -> Seq<Codepoint> {
    seq![
        Codepoint { codepoint: 0x17B4, name: "KHMER VOWEL INHERENT AQ", aliases: &[] },
        Codepoint { codepoint: 0x17B5, name: "KHMER VOWEL INHERENT AA", aliases: &[] },
        Codepoint { codepoint: 0x17B6, name: "KHMER VOWEL SIGN AA", aliases: &[] },
        Codepoint { codepoint: 0x17B7, name: "KHMER VOWEL SIGN I", aliases: &[] },
        Codepoint { codepoint: 0x17B8, name: "KHMER VOWEL SIGN II", aliases: &[] },
        Codepoint { codepoint: 0x17B9, name: "KHMER VOWEL SIGN Y", aliases: &[] },
        Codepoint { codepoint: 0x17BA, name: "KHMER VOWEL SIGN YY", aliases: &[] },
        Codepoint { codepoint: 0x17BB, name: "KHMER VOWEL SIGN U", aliases: &[] },
        Codepoint { codepoint: 0x17BC, name: "KHMER VOWEL SIGN UU", aliases: &[] },
        Codepoint { codepoint: 0x17BD, name: "KHMER VOWEL SIGN UA", aliases: &[] },
        Codepoint { codepoint: 0x17BE, name: "KHMER VOWEL SIGN OE", aliases: &[] },
        Codepoint { codepoint: 0x17BF, name: "KHMER VOWEL SIGN YA", aliases: &[] },
        Codepoint { codepoint: 0x17C0, name: "KHMER VOWEL SIGN IE", aliases: &[] },
        Codepoint { codepoint: 0x17C1, name: "KHMER VOWEL SIGN E", aliases: &[] },
        Codepoint { codepoint: 0x17C2, name: "KHMER VOWEL SIGN AE", aliases: &[] },
        Codepoint { codepoint: 0x17C3, name: "KHMER VOWEL SIGN AI", aliases: &[] },
        Codepoint { codepoint: 0x17C4, name: "KHMER VOWEL SIGN OO", aliases: &[] },
        Codepoint { codepoint: 0x17C5, name: "KHMER VOWEL SIGN AU", aliases: &[] },
        Codepoint { codepoint: 0x17C6, name: "KHMER SIGN NIKAHIT", aliases: &[] },
        Codepoint { codepoint: 0x17C7, name: "KHMER SIGN REAHMUK", aliases: &[] },
        Codepoint { codepoint: 0x17C8, name: "KHMER SIGN YUUKALEAPINTU", aliases: &[] },
        Codepoint { codepoint: 0x17C9, name: "KHMER SIGN MUUSIKATOAN", aliases: &[] },
        Codepoint { codepoint: 0x17CA, name: "KHMER SIGN TRIISAP", aliases: &[] },
        Codepoint { codepoint: 0x17CB, name: "KHMER SIGN BANTOC", aliases: &[] },
        Codepoint { codepoint: 0x17CC, name: "KHMER SIGN ROBAT", aliases: &[] },
        Codepoint { codepoint: 0x17CD, name: "KHMER SIGN TOANDAKHIAT", aliases: &[] },
        Codepoint { codepoint: 0x17CE, name: "KHMER SIGN KAKABAT", aliases: &[] },
        Codepoint { codepoint: 0x17CF, name: "KHMER SIGN AHSDA", aliases: &[] },
        Codepoint { codepoint: 0x17D0, name: "KHMER SIGN SAMYOK SANNYA", aliases: &[] },
        Codepoint { codepoint: 0x17D1, name: "KHMER SIGN VIRIAM", aliases: &[] },
        Codepoint { codepoint: 0x17D2, name: "KHMER SIGN COENG", aliases: &[] },
        Codepoint { codepoint: 0x17D3, name: "KHMER SIGN BATHAMASAT", aliases: &[] },
        Codepoint { codepoint: 0x17D4, name: "KHMER SIGN KHAN", aliases: &[] },
        Codepoint { codepoint: 0x17D5, name: "KHMER SIGN BARIYOOSAN", aliases: &[] },
        Codepoint { codepoint: 0x17D6, name: "KHMER SIGN CAMNUC PII KUUH", aliases: &[] },
        Codepoint { codepoint: 0x17D7, name: "KHMER SIGN LEK TOO", aliases: &[] },
        Codepoint { codepoint: 0x17D8, name: "KHMER SIGN BEYYAL", aliases: &[] },
        Codepoint { codepoint: 0x17D9, name: "KHMER SIGN PHNAEK MUAN", aliases: &[] },
        Codepoint { codepoint: 0x17DA, name: "KHMER SIGN KOOMUUT", aliases: &[] },
        Codepoint { codepoint: 0x17DB, name: "KHMER CURRENCY SYMBOL RIEL", aliases: &[] },
    ]
}

fn all_codepoints_136() -> (v: Vec<Codepoint>)
    ensures
        v@ == codepoint_table_136(),
{
    let v = vec![
        Codepoint { codepoint: 0x17B4, name: "KHMER VOWEL INHERENT AQ", aliases: &[] },
        Codepoint { codepoint: 0x17B5, name: "KHMER VOWEL INHERENT AA", aliases: &[] },
        Codepoint { codepoint: 0x17B6, name: "KHMER VOWEL SIGN AA", aliases: &[] },
        Codepoint { codepoint: 0x17B7, name: "KHMER VOWEL SIGN I", aliases: &[] },
        Codepoint { codepoint: 0x17B8, name: "KHMER VOWEL SIGN II", aliases: &[] },
        Codepoint { codepoint: 0x17B9, name: "KHMER VOWEL SIGN Y", aliases: &[] },
        Codepoint { codepoint: 0x17BA, name: "KHMER VOWEL SIGN YY", aliases: &[] },
        Codepoint { codepoint: 0x17BB, name: "KHMER VOWEL SIGN U", aliases: &[] },
        Codepoint { codepoint: 0x17BC, name: "KHMER VOWEL SIGN UU", aliases: &[] },
        Codepoint { codepoint: 0x17BD, name: "KHMER VOWEL SIGN UA", aliases: &[] },
        Codepoint { codepoint: 0x17BE, name: "KHMER VOWEL SIGN OE", aliases: &[] },
        Codepoint { codepoint: 0x17BF, name: "KHMER VOWEL SIGN YA", aliases: &[] },
        Codepoint { codepoint: 0x17C0, name: "KHMER VOWEL SIGN IE", aliases: &[] },
        Codepoint { codepoint: 0x17C1, name: "KHMER VOWEL SIGN E", aliases: &[] },
        Codepoint { codepoint: 0x17C2, name: "KHMER VOWEL SIGN AE", aliases: &[] },
        Codepoint { codepoint: 0x17C3, name: "KHMER VOWEL SIGN AI", aliases: &[] },
        Codepoint { codepoint: 0x17C4, name: "KHMER VOWEL SIGN OO", aliases: &[] },
        Codepoint { codepoint: 0x17C5, name: "KHMER VOWEL SIGN AU", aliases: &[] },
        Codepoint { codepoint: 0x17C6, name: "KHMER SIGN NIKAHIT", aliases: &[] },
        Codepoint { codepoint: 0x17C7, name: "KHMER SIGN REAHMUK", aliases: &[] },
        Codepoint { codepoint: 0x17C8, name: "KHMER SIGN YUUKALEAPINTU", aliases: &[] },
        Codepoint { codepoint: 0x17C9, name: "KHMER SIGN MUUSIKATOAN", aliases: &[] },
        Codepoint { codepoint: 0x17CA, name: "KHMER SIGN TRIISAP", aliases: &[] },
        Codepoint { codepoint: 0x17CB, name: "KHMER SIGN BANTOC", aliases: &[] },
        Codepoint { codepoint: 0x17CC, name: "KHMER SIGN ROBAT", aliases: &[] },
        Codepoint { codepoint: 0x17CD, name: "KHMER SIGN TOANDAKHIAT", aliases: &[] },
        Codepoint { codepoint: 0x17CE, name: "KHMER SIGN KAKABAT", aliases: &[] },
        Codepoint { codepoint: 0x17CF, name: "KHMER SIGN AHSDA", aliases: &[] },
        Codepoint { codepoint: 0x17D0, name: "KHMER SIGN SAMYOK SANNYA", aliases: &[] },
        Codepoint { codepoint: 0x17D1, name: "KHMER SIGN VIRIAM", aliases: &[] },
        Codepoint { codepoint: 0x17D2, name: "KHMER SIGN COENG", aliases: &[] },
        Codepoint { codepoint: 0x17D3, name: "KHMER SIGN BATHAMASAT", aliases: &[] },
        Codepoint { codepoint: 0x17D4, name: "KHMER SIGN KHAN", aliases: &[] },
        Codepoint { codepoint: 0x17D5, name: "KHMER SIGN BARIYOOSAN", aliases: &[] },
        Codepoint { codepoint: 0x17D6, name: "KHMER SIGN CAMNUC PII KUUH", aliases: &[] },
        Codepoint { codepoint: 0x17D7, name: "KHMER SIGN LEK TOO", aliases: &[] },
        Codepoint { codepoint: 0x17D8, name: "KHMER SIGN BEYYAL", aliases: &[] },
        Codepoint { codepoint: 0x17D9, name: "KHMER SIGN PHNAEK MUAN", aliases: &[] },
        Codepoint { codepoint: 0x17DA, name: "KHMER SIGN KOOMUUT", aliases: &[] },
        Codepoint { codepoint: 0x17DB, name: "KHMER CURRENCY SYMBOL RIEL", aliases: &[] },
    ];
    assert(v@ =~= codepoint_table_136());
    v
}

pub open spec fn codepoint_table_137() -> Seq<Codepoint> {
    seq![
        Codepoint { codepoint: 0x17DC, name: "KHMER SIGN AVAKRAHASANYA", aliases: &[] },
        Codepoint { codepoint: 0x17DD, name: "KHMER SIGN ATTHACAN", aliases: &[] },
        Codepoint { codepoint: 0x17E0, name: "KHMER DIGIT ZERO", aliases: &[] },
        Codepoint { codepoint: 0x17E1, name: "KHMER DIGIT ONE", aliases: &[] },
        Codepoint { codepoint: 0x17E2, name: "KHMER DIGIT TWO", aliases: &[] },
        Codepoint { codepoint: 0x17E3, name: "KHMER DIGIT THREE", aliases: &[] },
        Codepoint { codepoint: 0x17E4, name: "KHMER DIGIT FOUR", aliases: &[] },
        Codepoint { codepoint: 0x17E5, name: "KHMER DIGIT FIVE", aliases: &[] },
        Codepoint { codepoint: 0x17E6, name: "KHMER DIGIT SIX", aliases: &[] },
        Codepoint { codepoint: 0x17E7, name: "KHMER DIGIT SEVEN", aliases: &[] },
        Codepoint { codepoint: 0x17E8, name: "KHMER DIGIT EIGHT", aliases: &[] },
        Codepoint { codepoint: 0x17E9, name: "KHMER DIGIT NINE", aliases: &[] },
        Codepoint { codepoint: 0x17F0, name: "KHMER SYMBOL LEK ATTAK SON", aliases: &[] },
        Codepoint { codepoint: 0x17F1, name: "KHMER SYMBOL LEK ATTAK MUOY", aliases: &[] },
        Codepoint { codepoint: 0x17F2, name: "KHMER SYMBOL LEK ATTAK PII", aliases: &[] },
        Codepoint { codepoint: 0x17F3, name: "KHMER SYMBOL LEK ATTAK BEI", aliases: &[] },
        Codepoint { codepoint: 0x17F4, name: "KHMER SYMBOL LEK ATTAK BUON", aliases: &[] },
        Codepoint { codepoint: 0x17F5, name: "KHMER SYMBOL LEK ATTAK PRAM", aliases: &[] },
        Codepoint { codepoint: 0x17F6, name: "KHMER SYMBOL LEK ATTAK PRAM-MUOY", aliases: &[] },
        Codepoint { codepoint: 0x17F7, name: "KHMER SYMBOL LEK ATTAK PRAM-PII", aliases: &[] },
        Codepoint { codepoint: 0x17F8, name: "KHMER SYMBOL LEK ATTAK PRAM-BEI", aliases: &[] },
        Codepoint { codepoint: 0x17F9, name: "KHMER SYMBOL LEK ATTAK PRAM-BUON", aliases: &[] },
        Codepoint { codepoint: 0x1800, name: "MONGOLIAN BIRGA", aliases: &[] },
        Codepoint { codepoint: 0x1801, name: "MONGOLIAN ELLIPSIS", aliases: &[] },
        Codepoint { codepoint: 0x1802, name: "MONGOLIAN COMMA", aliases: &[] },
        Codepoint { codepoint: 0x1803, name: "MONGOLIAN FULL STOP", aliases: &[] },
        Codepoint { codepoint: 0x1804, name: "MONGOLIAN COLON", aliases: &[] },
        Codepoint { codepoint: 0x1805, name: "MONGOLIAN FOUR DOTS", aliases: &[] },
        Codepoint { codepoint: 0x1806, name: "MONGOLIAN TODO SOFT HYPHEN", aliases: &[] },
        Codepoint { codepoint: 0x1807, name: "MONGOLIAN SIBE SYLLABLE BOUNDARY MARKER", aliases: &[] },
        Codepoint { codepoint: 0x1808, name: "MONGOLIAN MANCHU COMMA", aliases: &[] },
        Codepoint { codepoint: 0x1809, name: "MONGOLIAN MANCHU FULL STOP", aliases: &[] },
        Codepoint { codepoint: 0x180A, name: "MONGOLIAN NIRUGU", aliases: &[] },
        Codepoint { codepoint: 0x180B, name: "MONGOLIAN FREE VARIATION SELECTOR ONE", aliases: &[] },
        Codepoint { codepoint: 0x180C, name: "MONGOLIAN FREE VARIATION SELECTOR TWO", aliases: &[] },
        Codepoint { codepoint: 0x180D, name: "MONGOLIAN FREE VARIATION SELECTOR THREE", aliases: &[] },
        Codepoint { codepoint: 0x180E, name: "MONGOLIAN VOWEL SEPARATOR", aliases: &[] },
        Codepoint { codepoint: 0x180F, name: "MONGOLIAN FREE VARIATION SELECTOR FOUR", aliases: &[] },
        Codepoint { codepoint: 0x1810, name: "MONGOLIAN DIGIT ZERO", aliases: &[] },
        Codepoint { codepoint: 0x1811, name: "MONGOLIAN DIGIT ONE", aliases: &[] },
    ]
}

fn all_codepoints_137() -> (v: Vec<Codepoint>)
    ensures
        v@ == codepoint_table_137(),
{
    let v = vec![
        Codepoint { codepoint: 0x17DC, name: "KHMER SIGN AVAKRAHASANYA", aliases: &[] },
        Codepoint { codepoint: 0x17DD, name: "KHMER SIGN ATTHACAN", aliases: &[] },
        Codepoint { codepoint: 0x17E0, name: "KHMER DIGIT ZERO", aliases: &[] },
        Codepoint { codepoint: 0x17E1, name: "KHMER DIGIT ONE", aliases: &[] },
        Codepoint { codepoint: 0x17E2, name: "KHMER DIGIT TWO", aliases: &[] },
        Codepoint { codepoint: 0x17E3, name: "KHMER DIGIT THREE", aliases: &[] },
        Codepoint { codepoint: 0x17E4, name: "KHMER DIGIT FOUR", aliases: &[] },
        Codepoint { codepoint: 0x17E5, name: "KHMER DIGIT FIVE", aliases: &[] },
        Codepoint { codepoint: 0x17E6, name: "KHMER DIGIT SIX", aliases: &[] },
        Codepoint { codepoint: 0x17E7, name: "KHMER DIGIT SEVEN", aliases: &[] },
        Codepoint { codepoint: 0x17E8, name: "KHMER DIGIT EIGHT", aliases: &[] },
        Codepoint { codepoint: 0x17E9, name: "KHMER DIGIT NINE", aliases: &[] },
        Codepoint { codepoint: 0x17F0, name: "KHMER SYMBOL LEK ATTAK SON", aliases: &[] },
        Codepoint { codepoint: 0x17F1, name: "KHMER SYMBOL LEK ATTAK MUOY", aliases: &[] },
        Codepoint { codepoint: 0x17F2, name: "KHMER SYMBOL LEK ATTAK PII", aliases: &[] },
        Codepoint { codepoint: 0x17F3, name: "KHMER SYMBOL LEK ATTAK BEI", aliases: &[] },
        Codepoint { codepoint: 0x17F4, name: "KHMER SYMBOL LEK ATTAK BUON", aliases: &[] },
        Codepoint { codepoint: 0x17F5, name: "KHMER SYMBOL LEK ATTAK PRAM", aliases: &[] },
        Codepoint { codepoint: 0x17F6, name: "KHMER SYMBOL LEK ATTAK PRAM-MUOY", aliases: &[] },
        Codepoint { codepoint: 0x17F7, name: "KHMER SYMBOL LEK ATTAK PRAM-PII", aliases: &[] },
        Codepoint { codepoint: 0x17F8, name: "KHMER SYMBOL LEK ATTAK PRAM-BEI", aliases: &[] },
        Codepoint { codepoint: 0x17F9, name: "KHMER SYMBOL LEK ATTAK PRAM-BUON", aliases: &[] },
        Codepoint { codepoint: 0x1800, name: "MONGOLIAN BIRGA", aliases: &[] },
        Codepoint { codepoint: 0x1801, name: "MONGOLIAN ELLIPSIS", aliases: &[] },
        Codepoint { codepoint: 0x1802, name: "MONGOLIAN COMMA", aliases: &[] },
        Codepoint { codepoint: 0x1803, name: "MONGOLIAN FULL STOP", aliases: &[] },
        Codepoint { codepoint: 0x1804, name: "MONGOLIAN COLON", aliases: &[] },
        Codepoint { codepoint: 0x1805, name: "MONGOLIAN FOUR DOTS", aliases: &[] },
        Codepoint { codepoint: 0x1806, name: "MONGOLIAN TODO SOFT HYPHEN", aliases: &[] },
        Codepoint { codepoint: 0x1807, name: "MONGOLIAN SIBE SYLLABLE BOUNDARY MARKER", aliases: &[] },
        Codepoint { codepoint: 0x1808, name: "MONGOLIAN MANCHU COMMA", aliases: &[] },
        Codepoint { codepoint: 0x1809, name: "MONGOLIAN MANCHU FULL STOP", aliases: &[] },
        Codepoint { codepoint: 0x180A, name: "MONGOLIAN NIRUGU", aliases: &[] },
        Codepoint { codepoint: 0x180B, name: "MONGOLIAN FREE VARIATION SELECTOR ONE", aliases: &[] },
        Codepoint { codepoint: 0x180C, name: "MONGOLIAN FREE VARIATION SELECTOR TWO", aliases: &[] },
        Codepoint { codepoint: 0x180D, name: "MONGOLIAN FREE VARIATION SELECTOR THREE", aliases: &[] },
        Codepoint { codepoint: 0x180E, name: "MONGOLIAN VOWEL SEPARATOR", aliases: &[] },
        Codepoint { codepoint: 0x180F, name: "MONGOLIAN FREE VARIATION SELECTOR FOUR", aliases: &[] },
        Codepoint { codepoint: 0x1810, name: "MONGOLIAN DIGIT ZERO", aliases: &[] },
        Codepoint { codepoint: 0x1811, name: "MONGOLIAN DIGIT ONE", aliases: &[] },
    ];
    assert(v@ =~= codepoint_table_137());
    v
}

pub open spec fn codepoint_table_138() -> Seq<Codepoint> {
    seq![
        Codepoint { codepoint: 0x1812, name: "MONGOLIAN DIGIT TWO", aliases: &[] },
        Codepoint { codepoint: 0x1813, name: "MONGOLIAN DIGIT THREE", aliases: &[] },
        Codepoint { codepoint: 0x1814, name: "MONGOLIAN DIGIT FOUR", aliases: &[] },
        Codepoint { codepoint: 0x1815, name: "MONGOLIAN DIGIT FIVE", aliases: &[] },
        Codepoint { codepoint: 0x1816, name: "MONGOLIAN DIGIT SIX", aliases: &[] },
        Codepoint { codepoint: 0x1817, name: "MONGOLIAN DIGIT SEVEN", aliases: &[] },
        Codepoint { codepoint: 0x1818, name: "MONGOLIAN DIGIT EIGHT", aliases: &[] },
        Codepoint { codepoint: 0x1819, name: "MONGOLIAN DIGIT NINE", aliases: &[] },
        Codepoint { codepoint: 0x1820, name: "MONGOLIAN LETTER A", aliases: &[] },
        Codepoint { codepoint: 0x1821, name: "MONGOLIAN LETTER E", aliases: &[] },
        Codepoint { codepoint: 0x1822, name: "MONGOLIAN LETTER I", aliases: &[] },
        Codepoint { codepoint: 0x1823, name: "MONGOLIAN LETTER O", aliases: &[] },
        Codepoint { codepoint: 0x1824, name: "MONGOLIAN LETTER U", aliases: &[] },
        Codepoint { codepoint: 0x1825, name: "MONGOLIAN LETTER OE", aliases: &[] },
        Codepoint { codepoint: 0x1826, name: "MONGOLIAN LETTER UE", aliases: &[] },
        Codepoint { codepoint: 0x1827, name: "MONGOLIAN LETTER EE", aliases: &[] },
        Codepoint { codepoint: 0x1828, name: "MONGOLIAN LETTER NA", aliases: &[] },
        Codepoint { codepoint: 0x1829, name: "MONGOLIAN LETTER ANG", aliases: &[] },
        Codepoint { codepoint: 0x182A, name: "MONGOLIAN LETTER BA", aliases: &[] },
        Codepoint { codepoint: 0x182B, name: "MONGOLIAN LETTER PA", aliases: &[] },
        Codepoint { codepoint: 0x182C, name: "MONGOLIAN LETTER QA", aliases: &[] },
        Codepoint { codepoint: 0x182D, name: "MONGOLIAN LETTER GA", aliases: &[] },
        Codepoint { codepoint: 0x182E, name: "MONGOLIAN LETTER MA", aliases: &[] },
        Codepoint { codepoint: 0x182F, name: "MONGOLIAN LETTER LA", aliases: &[] },
        Codepoint { codepoint: 0x1830, name: "MONGOLIAN LETTER SA", aliases: &[] },
        Codepoint { codepoint: 0x1831, name: "MONGOLIAN LETTER SHA", aliases: &[] },
        Codepoint { codepoint: 0x1832, name: "MONGOLIAN LETTER TA", aliases: &[] },
        Codepoint { codepoint: 0x1833, name: "MONGOLIAN LETTER DA", aliases: &[] },
        Codepoint { codepoint: 0x1834, name: "MONGOLIAN LETTER CHA", aliases: &[] },
        Codepoint { codepoint: 0x1835, name: "MONGOLIAN LETTER JA", aliases: &[] },
        Codepoint { codepoint: 0x1836, name: "MONGOLIAN LETTER YA", aliases: &[] },
        Codepoint { codepoint: 0x1837, name: "MONGOLIAN LETTER RA", aliases: &[] },
        Codepoint { codepoint: 0x1838, name: "MONGOLIAN LETTER WA", aliases: &[] },
        Codepoint { codepoint: 0x1839, name: "MONGOLIAN LETTER FA", aliases: &[] },
        Codepoint { codepoint: 0x183A, name: "MONGOLIAN LETTER KA", aliases: &[] },
        Codepoint { codepoint: 0x183B, name: "MONGOLIAN LETTER KHA", aliases: &[] },
        Codepoint { codepoint: 0x183C, name: "MONGOLIAN LETTER TSA", aliases: &[] },
        Codepoint { codepoint: 0x183D, name: "MONGOLIAN LETTER ZA", aliases: &[] },
        Codepoint { codepoint: 0x183E, name: "MONGOLIAN LETTER HAA", aliases: &[] },
        Codepoint { codepoint: 0x183F, name: "MONGOLIAN LETTER ZRA", aliases: &[] },
    ]
}

fn all_codepoints_138() -> (v: Vec<Codepoint>)
    ensures
        v@ == codepoint_table_138(),
{
    let v = vec![
        Codepoint { codepoint: 0x1812, name: "MONGOLIAN DIGIT TWO", aliases: &[] },
        Codepoint { codepoint: 0x1813, name: "MONGOLIAN DIGIT THREE", aliases: &[] },
        Codepoint { codepoint: 0x1814, name: "MONGOLIAN DIGIT FOUR", aliases: &[] },
        Codepoint { codepoint: 0x1815, name: "MONGOLIAN DIGIT FIVE", aliases: &[] },
        Codepoint { codepoint: 0x1816, name: "MONGOLIAN DIGIT SIX", aliases: &[] },
        Codepoint { codepoint: 0x1817, name: "MONGOLIAN DIGIT SEVEN", aliases: &[] },
        Codepoint { codepoint: 0x1818, name: "MONGOLIAN DIGIT EIGHT", aliases: &[] },
        Codepoint { codepoint: 0x1819, name: "MONGOLIAN DIGIT NINE", aliases: &[] },
        Codepoint { codepoint: 0x1820, name: "MONGOLIAN LETTER A", aliases: &[] },
        Codepoint { codepoint: 0x1821, name: "MONGOLIAN LETTER E", aliases: &[] },
        Codepoint { codepoint: 0x1822, name: "MONGOLIAN LETTER I", aliases: &[] },
        Codepoint { codepoint: 0x1823, name: "MONGOLIAN LETTER O", aliases: &[] },
        Codepoint { codepoint: 0x1824, name: "MONGOLIAN LETTER U", aliases: &[] },
        Codepoint { codepoint: 0x1825, name: "MONGOLIAN LETTER OE", aliases: &[] },
        Codepoint { codepoint: 0x1826, name: "MONGOLIAN LETTER UE", aliases: &[] },
        Codepoint { codepoint: 0x1827, name: "MONGOLIAN LETTER EE", aliases: &[] },
        Codepoint { codepoint: 0x1828, name: "MONGOLIAN LETTER NA", aliases: &[] },
        Codepoint { codepoint: 0x1829, name: "MONGOLIAN LETTER ANG", aliases: &[] },
        Codepoint { codepoint: 0x182A, name: "MONGOLIAN LETTER BA", aliases: &[] },
        Codepoint { codepoint: 0x182B, name: "MONGOLIAN LETTER PA", aliases: &[] },
        Codepoint { codepoint: 0x182C, name: "MONGOLIAN LETTER QA", aliases: &[] },
        Codepoint { codepoint: 0x182D, name: "MONGOLIAN LETTER GA", aliases: &[] },
        Codepoint { codepoint: 0x182E, name: "MONGOLIAN LETTER MA", aliases: &[] },
        Codepoint { codepoint: 0x182F, name: "MONGOLIAN LETTER LA", aliases: &[] },
        Codepoint { codepoint: 0x1830, name: "MONGOLIAN LETTER SA", aliases: &[] },
        Codepoint { codepoint: 0x1831, name: "MONGOLIAN LETTER SHA", aliases: &[] },
        Codepoint { codepoint: 0x1832, name: "MONGOLIAN LETTER TA", aliases: &[] },
        Codepoint { codepoint: 0x1833, name: "MONGOLIAN LETTER DA", aliases: &[] },
        Codepoint { codepoint: 0x1834, name: "MONGOLIAN LETTER CHA", aliases: &[] },
        Codepoint { codepoint: 0x1835, name: "MONGOLIAN LETTER JA", aliases: &[] },
        Codepoint { codepoint: 0x1836, name: "MONGOLIAN LETTER YA", aliases: &[] },
        Codepoint { codepoint: 0x1837, name: "MONGOLIAN LETTER RA", aliases: &[] },
        Codepoint { codepoint: 0x1838, name: "MONGOLIAN LETTER WA", aliases: &[] },
        Codepoint { codepoint: 0x1839, name: "MONGOLIAN LETTER FA", aliases: &[] },
        Codepoint { codepoint: 0x183A, name: "MONGOLIAN LETTER KA", aliases: &[] },
        Codepoint { codepoint: 0x183B, name: "MONGOLIAN LETTER KHA", aliases: &[] },
        Codepoint { codepoint: 0x183C, name: "MONGOLIAN LETTER TSA", aliases: &[] },
        Codepoint { codepoint: 0x183D, name: "MONGOLIAN LETTER ZA", aliases: &[] },
        Codepoint { codepoint: 0x183E, name: "MONGOLIAN LETTER HAA", aliases: &[] },
        Codepoint { codepoint: 0x183F, name: "MONGOLIAN LETTER ZRA", aliases: &[] },
    ];
    assert(v@ =~= codepoint_table_138());
    v
}

pub open spec fn codepoint_table_139() -> Seq<Codepoint> {
    seq![
        Codepoint { codepoint: 0x1840, name: "MONGOLIAN LETTER LHA", aliases: &[] },
        Codepoint { codepoint: 0x1841, name: "MONGOLIAN LETTER ZHI", aliases: &[] },
        Codepoint { codepoint: 0x1842, name: "MONGOLIAN LETTER CHI", aliases: &[] },
        Codepoint { codepoint: 0x1843, name: "MONGOLIAN LETTER TODO LONG VOWEL SIGN", aliases: &[] },
        Codepoint { codepoint: 0x1844, name: "MONGOLIAN LETTER TODO E", aliases: &[] },
        Codepoint { codepoint: 0x1845, name: "MONGOLIAN LETTER TODO I", aliases: &[] },
        Codepoint { codepoint: 0x1846, name: "MONGOLIAN LETTER TODO O", aliases: &[] },
        Codepoint { codepoint: 0x1847, name: "MONGOLIAN LETTER TODO U", aliases: &[] },
        Codepoint { codepoint: 0x1848, name: "MONGOLIAN LETTER TODO OE", aliases: &[] },
        Codepoint { codepoint: 0x1849, name: "MONGOLIAN LETTER TODO UE", aliases: &[] },
        Codepoint { codepoint: 0x184A, name: "MONGOLIAN LETTER TODO ANG", aliases: &[] },
        Codepoint { codepoint: 0x184B, name: "MONGOLIAN LETTER TODO BA", aliases: &[] },
        Codepoint { codepoint: 0x184C, name: "MONGOLIAN LETTER TODO PA", aliases: &[] },
        Codepoint { codepoint: 0x184D, name: "MONGOLIAN LETTER TODO QA", aliases: &[] },
        Codepoint { codepoint: 0x184E, name: "MONGOLIAN LETTER TODO GA", aliases: &[] },
        Codepoint { codepoint: 0x184F, name: "MONGOLIAN LETTER TODO MA", aliases: &[] },
        Codepoint { codepoint: 0x1850, name: "MONGOLIAN LETTER TODO TA", aliases: &[] },
        Codepoint { codepoint: 0x1851, name: "MONGOLIAN LETTER TODO DA", aliases: &[] },
        Codepoint { codepoint: 0x1852, name: "MONGOLIAN LETTER TODO CHA", aliases: &[] },
        Codepoint { codepoint: 0x1853, name: "MONGOLIAN LETTER TODO JA", aliases: &[] },
        Codepoint { codepoint: 0x1854, name: "MONGOLIAN LETTER TODO TSA", aliases: &[] },
        Codepoint { codepoint: 0x1855, name: "MONGOLIAN LETTER TODO YA", aliases: &[] },
        Codepoint { codepoint: 0x1856, name: "MONGOLIAN LETTER TODO WA", aliases: &[] },
        Codepoint { codepoint: 0x1857, name: "MONGOLIAN LETTER TODO KA", aliases: &[] },
        Codepoint { codepoint: 0x1858, name: "MONGOLIAN LETTER TODO GAA", aliases: &[] },
        Codepoint { codepoint: 0x1859, name: "MONGOLIAN LETTER TODO HAA", aliases: &[] },
        Codepoint { codepoint: 0x185A, name: "MONGOLIAN LETTER TODO JIA", aliases: &[] },
        Codepoint { codepoint: 0x185B, name: "MONGOLIAN LETTER TODO NIA", aliases: &[] },
        Codepoint { codepoint: 0x185C, name: "MONGOLIAN LETTER TODO DZA", aliases: &[] },
        Codepoint { codepoint: 0x185D, name: "MONGOLIAN LETTER SIBE E", aliases: &[] },
        Codepoint { codepoint: 0x185E, name: "MONGOLIAN LETTER SIBE I", aliases: &[] },
        Codepoint { codepoint: 0x185F, name: "MONGOLIAN LETTER SIBE IY", aliases: &[] },
        Codepoint { codepoint: 0x1860, name: "MONGOLIAN LETTER SIBE UE", aliases: &[] },
        Codepoint { codepoint: 0x1861, name: "MONGOLIAN LETTER SIBE U", aliases: &[] },
        Codepoint { codepoint: 0x1862, name: "MONGOLIAN LETTER SIBE ANG", aliases: &[] },
        Codepoint { codepoint: 0x1863, name: "MONGOLIAN LETTER SIBE KA", aliases: &[] },
        Codepoint { codepoint: 0x1864, name: "MONGOLIAN LETTER SIBE GA", aliases: &[] },
        Codepoint { codepoint: 0x1865, name: "MONGOLIAN LETTER SIBE HA", aliases: &[] },
        Codepoint { codepoint: 0x1866, name: "MONGOLIAN LETTER SIBE PA", aliases: &[] },
        Codepoint { codepoint: 0x1867, name: "MONGOLIAN LETTER SIBE SHA", aliases: &[] },
    ]
}

fn all_codepoints_139() -> (v: Vec<Codepoint>)
    ensures
        v@ == codepoint_table_139(),
{
    let v = vec![
        Codepoint { codepoint: 0x1840, name: "MONGOLIAN LETTER LHA", aliases: &[] },
        Codepoint { codepoint: 0x1841, name: "MONGOLIAN LETTER ZHI", aliases: &[] },
        Codepoint { codepoint: 0x1842, name: "MONGOLIAN LETTER CHI", aliases: &[] },
        Codepoint { codepoint: 0x1843, name: "MONGOLIAN LETTER TODO LONG VOWEL SIGN", aliases: &[] },
        Codepoint { codepoint: 0x1844, name: "MONGOLIAN LETTER TODO E", aliases: &[] },
        Codepoint { codepoint: 0x1845, name: "MONGOLIAN LETTER TODO I", aliases: &[] },
        Codepoint { codepoint: 0x1846, name: "MONGOLIAN LETTER TODO O", aliases: &[] },
        Codepoint { codepoint: 0x1847, name: "MONGOLIAN LETTER TODO U", aliases: &[] },
        Codepoint { codepoint: 0x1848, name: "MONGOLIAN LETTER TODO OE", aliases: &[] },
        Codepoint { codepoint: 0x1849, name: "MONGOLIAN LETTER TODO UE", aliases: &[] },
        Codepoint { codepoint: 0x184A, name: "MONGOLIAN LETTER TODO ANG", aliases: &[] },
        Codepoint { codepoint: 0x184B, name: "MONGOLIAN LETTER TODO BA", aliases: &[] },
        Codepoint { codepoint: 0x184C, name: "MONGOLIAN LETTER TODO PA", aliases: &[] },
        Codepoint { codepoint: 0x184D, name: "MONGOLIAN LETTER TODO QA", aliases: &[] },
        Codepoint { codepoint: 0x184E, name: "MONGOLIAN LETTER TODO GA", aliases: &[] },
        Codepoint { codepoint: 0x184F, name: "MONGOLIAN LETTER TODO MA", aliases: &[] },
        Codepoint { codepoint: 0x1850, name: "MONGOLIAN LETTER TODO TA", aliases: &[] },
        Codepoint { codepoint: 0x1851, name: "MONGOLIAN LETTER TODO DA", aliases: &[] },
        Codepoint { codepoint: 0x1852, name: "MONGOLIAN LETTER TODO CHA", aliases: &[] },
        Codepoint { codepoint: 0x1853, name: "MONGOLIAN LETTER TODO JA", aliases: &[] },
        Codepoint { codepoint: 0x1854, name: "MONGOLIAN LETTER TODO TSA", aliases: &[] },
        Codepoint { codepoint: 0x1855, name: "MONGOLIAN LETTER TODO YA", aliases: &[] },
        Codepoint { codepoint: 0x1856, name: "MONGOLIAN LETTER TODO WA", aliases: &[] },
        Codepoint { codepoint: 0x1857, name: "MONGOLIAN LETTER TODO KA", aliases: &[] },
        Codepoint { codepoint: 0x1858, name: "MONGOLIAN LETTER TODO GAA", aliases: &[] },
        Codepoint { codepoint: 0x1859, name: "MONGOLIAN LETTER TODO HAA", aliases: &[] },
        Codepoint { codepoint: 0x185A, name: "MONGOLIAN LETTER TODO JIA", aliases: &[] },
        Codepoint { codepoint: 0x185B, name: "MONGOLIAN LETTER TODO NIA", aliases: &[] },
        Codepoint { codepoint: 0x185C, name: "MONGOLIAN LETTER TODO DZA", aliases: &[] },
        Codepoint { codepoint: 0x185D, name: "MONGOLIAN LETTER SIBE E", aliases: &[] },
        Codepoint { codepoint: 0x185E, name: "MONGOLIAN LETTER SIBE I", aliases: &[] },
        Codepoint { codepoint: 0x185F, name: "MONGOLIAN LETTER SIBE IY", aliases: &[] },
        Codepoint { codepoint: 0x1860, name: "MONGOLIAN LETTER SIBE UE", aliases: &[] },
        Codepoint { codepoint: 0x1861, name: "MONGOLIAN LETTER SIBE U", aliases: &[] },
        Codepoint { codepoint: 0x1862, name: "MONGOLIAN LETTER SIBE ANG", aliases: &[] },
        Codepoint { codepoint: 0x1863, name: "MONGOLIAN LETTER SIBE KA", aliases: &[] },
        Codepoint { codepoint: 0x1864, name: "MONGOLIAN LETTER SIBE GA", aliases: &[] },
        Codepoint { codepoint: 0x1865, name: "MONGOLIAN LETTER SIBE HA", aliases: &[] },
        Codepoint { codepoint: 0x1866, name: "MONGOLIAN LETTER SIBE PA", aliases: &[] },
        Codepoint { codepoint: 0x1867, name: "MONGOLIAN LETTER SIBE SHA", aliases: &[] },
    ];
    assert(v@ =~= codepoint_table_139());
    v
}

/// The entries from position 4800 of the table, 800 at most.
pub open spec fn codepoint_group_6() -> Seq<Codepoint> {
    codepoint_table_120() + codepoint_table_121() + codepoint_table_122() + codepoint_table_123() + codepoint_table_124() + codepoint_table_125() + codepoint_table_126() + codepoint_table_127() + codepoint_table_128() + codepoint_table_129() + codepoint_table_130() + codepoint_table_131() + codepoint_table_132() + codepoint_table_133() + codepoint_table_134() + codepoint_table_135() + codepoint_table_136() + codepoint_table_137() + codepoint_table_138() + codepoint_table_139()
}

pub fn all_codepoints_group_6() -> (v: Vec<Codepoint>)
    ensures
        v@ == codepoint_group_6(),
{
    let mut v = all_codepoints_120();
    let mut part = all_codepoints_121();
    v.append(&mut part);
    let mut part = all_codepoints_122();
    v.append(&mut part);
    let mut part = all_codepoints_123();
    v.append(&mut part);
    let mut part = all_codepoints_124();
    v.append(&mut part);
    let mut part = all_codepoints_125();
    v.append(&mut part);
    let mut part = all_codepoints_126();
    v.append(&mut part);
    let mut part = all_codepoints_127();
    v.append(&mut part);
    let mut part = all_codepoints_128();
    v.append(&mut part);
    let mut part = all_codepoints_129();
    v.append(&mut part);
    let mut part = all_codepoints_130();
    v.append(&mut part);
    let mut part = all_codepoints_131();
    v.append(&mut part);
    let mut part = all_codepoints_132();
    v.append(&mut part);
    let mut part = all_codepoints_133();
    v.append(&mut part);
    let mut part = all_codepoints_134();
    v.append(&mut part);
    let mut part = all_codepoints_135();
    v.append(&mut part);
    let mut part = all_codepoints_136();
    v.append(&mut part);
    let mut part = all_codepoints_137();
    v.append(&mut part);
    let mut part = all_codepoints_138();
    v.append(&mut part);
    let mut part = all_codepoints_139();
    v.append(&mut part);
    v
}

pub open spec fn codepoint_table_140() -> Seq<Codepoint> {
    seq![
        Codepoint { codepoint: 0x1868, name: "MONGOLIAN LETTER SIBE TA", aliases: &[] },
        Codepoint { codepoint: 0x1869, name: "MONGOLIAN LETTER SIBE DA", aliases: &[] },
        Codepoint { codepoint: 0x186A, name: "MONGOLIAN LETTER SIBE JA", aliases: &[] },
        Codepoint { codepoint: 0x186B, name: "MONGOLIAN LETTER SIBE FA", aliases: &[] },
        Codepoint { codepoint: 0x186C, name: "MONGOLIAN LETTER SIBE GAA", aliases: &[] },
        Codepoint { codepoint: 0x186D, name: "MONGOLIAN LETTER SIBE HAA", aliases: &[] },
        Codepoint { codepoint: 0x186E, name: "MONGOLIAN LETTER SIBE TSA", aliases: &[] },
        Codepoint { codepoint: 0x186F, name: "MONGOLIAN LETTER SIBE ZA", aliases: &[] },
        Codepoint { codepoint: 0x1870, name: "MONGOLIAN LETTER SIBE RAA", aliases: &[] },
        Codepoint { codepoint: 0x1871, name: "MONGOLIAN LETTER SIBE CHA", aliases: &[] },
        Codepoint { codepoint: 0x1872, name: "MONGOLIAN LETTER SIBE ZHA", aliases: &[] },
        Codepoint { codepoint: 0x1873, name: "MONGOLIAN LETTER MANCHU I", aliases: &[] },
        Codepoint { codepoint: 0x1874, name: "MONGOLIAN LETTER MANCHU KA", aliases: &[] },
        Codepoint { codepoint: 0x1875, name: "MONGOLIAN LETTER MANCHU RA", aliases: &[] },
        Codepoint { codepoint: 0x1876, name: "MONGOLIAN LETTER MANCHU FA", aliases: &[] },
        Codepoint { codepoint: 0x1877, name: "MONGOLIAN LETTER MANCHU ZHA", aliases: &[] },
        Codepoint { codepoint: 0x1878, name: "MONGOLIAN LETTER CHA WITH TWO DOTS", aliases: &[] },
        Codepoint { codepoint: 0x1880, name: "MONGOLIAN LETTER ALI GALI ANUSVARA ONE", aliases: &[] },
        Codepoint { codepoint: 0x1881, name: "MONGOLIAN LETTER ALI GALI VISARGA ONE", aliases: &[] },
        Codepoint { codepoint: 0x1882, name: "MONGOLIAN LETTER ALI GALI DAMARU", aliases: &[] },
        Codepoint { codepoint: 0x1883, name: "MONGOLIAN LETTER ALI GALI UBADAMA", aliases: &[] },
        Codepoint { codepoint: 0x1884, name: "MONGOLIAN LETTER ALI GALI INVERTED UBADAMA", aliases: &[] },
        Codepoint { codepoint: 0x1885, name: "MONGOLIAN LETTER ALI GALI BALUDA", aliases: &[] },
        Codepoint { codepoint: 0x1886, name: "MONGOLIAN LETTER ALI GALI THREE BALUDA", aliases: &[] },
        Codepoint { codepoint: 0x1887, name: "MONGOLIAN LETTER ALI GALI A", aliases: &[] },
        Codepoint { codepoint: 0x1888, name: "MONGOLIAN LETTER ALI GALI I", aliases: &[] },
        Codepoint { codepoint: 0x1889, name: "MONGOLIAN LETTER ALI GALI KA", aliases: &[] },
        Codepoint { codepoint: 0x188A, name: "MONGOLIAN LETTER ALI GALI NGA", aliases: &[] },
        Codepoint { codepoint: 0x188B, name: "MONGOLIAN LETTER ALI GALI CA", aliases: &[] },
        Codepoint { codepoint: 0x188C, name: "MONGOLIAN LETTER ALI GALI TTA", aliases: &[] },
        Codepoint { codepoint: 0x188D, name: "MONGOLIAN LETTER ALI GALI TTHA", aliases: &[] },
        Codepoint { codepoint: 0x188E, name: "MONGOLIAN LETTER ALI GALI DDA", aliases: &[] },
        Codepoint { codepoint: 0x188F, name: "MONGOLIAN LETTER ALI GALI NNA", aliases: &[] },
        Codepoint { codepoint: 0x1890, name: "MONGOLIAN LETTER ALI GALI TA", aliases: &[] },
        Codepoint { codepoint: 0x1891, name: "MONGOLIAN LETTER ALI GALI DA", aliases: &[] },
        Codepoint { codepoint: 0x1892, name: "MONGOLIAN LETTER ALI GALI PA", aliases: &[] },
        Codepoint { codepoint: 0x1893, name: "MONGOLIAN LETTER ALI GALI PHA", aliases: &[] },
        Codepoint { codepoint: 0x1894, name: "MONGOLIAN LETTER ALI GALI SSA", aliases: &[] },
        Codepoint { codepoint: 0x1895, name: "MONGOLIAN LETTER ALI GALI ZHA", aliases: &[] },
        Codepoint { codepoint: 0x1896, name: "MONGOLIAN LETTER ALI GALI ZA", aliases: &[] },
    ]
}

fn all_codepoints_140() -> (v: Vec<Codepoint>)
    ensures
        v@ == codepoint_table_140(),
{
    let v = vec![
        Codepoint { codepoint: 0x1868, name: "MONGOLIAN LETTER SIBE TA", aliases: &[] },
        Codepoint { codepoint: 0x1869, name: "MONGOLIAN LETTER SIBE DA", aliases: &[] },
        Codepoint { codepoint: 0x186A, name: "MONGOLIAN LETTER SIBE JA", aliases: &[] },
        Codepoint { codepoint: 0x186B, name: "MONGOLIAN LETTER SIBE FA", aliases: &[] },
        Codepoint { codepoint: 0x186C, name: "MONGOLIAN LETTER SIBE GAA", aliases: &[] },
        Codepoint { codepoint: 0x186D, name: "MONGOLIAN LETTER SIBE HAA", aliases: &[] },
        Codepoint { codepoint: 0x186E, name: "MONGOLIAN LETTER SIBE TSA", aliases: &[] },
        Codepoint { codepoint: 0x186F, name: "MONGOLIAN LETTER SIBE ZA", aliases: &[] },
        Codepoint { codepoint: 0x1870, name: "MONGOLIAN LETTER SIBE RAA", aliases: &[] },
        Codepoint { codepoint: 0x1871, name: "MONGOLIAN LETTER SIBE CHA", aliases: &[] },
        Codepoint { codepoint: 0x1872, name: "MONGOLIAN LETTER SIBE ZHA", aliases: &[] },
        Codepoint { codepoint: 0x1873, name: "MONGOLIAN LETTER MANCHU I", aliases: &[] },
        Codepoint { codepoint: 0x1874, name: "MONGOLIAN LETTER MANCHU KA", aliases: &[] },
        Codepoint { codepoint: 0x1875, name: "MONGOLIAN LETTER MANCHU RA", aliases: &[] },
        Codepoint { codepoint: 0x1876, name: "MONGOLIAN LETTER MANCHU FA", aliases: &[] },
        Codepoint { codepoint: 0x1877, name: "MONGOLIAN LETTER MANCHU ZHA", aliases: &[] },
        Codepoint { codepoint: 0x1878, name: "MONGOLIAN LETTER CHA WITH TWO DOTS", aliases: &[] },
        Codepoint { codepoint: 0x1880, name: "MONGOLIAN LETTER ALI GALI ANUSVARA ONE", aliases: &[] },
        Codepoint { codepoint: 0x1881, name: "MONGOLIAN LETTER ALI GALI VISARGA ONE", aliases: &[] },
        Codepoint { codepoint: 0x1882, name: "MONGOLIAN LETTER ALI GALI DAMARU", aliases: &[] },
        Codepoint { codepoint: 0x1883, name: "MONGOLIAN LETTER ALI GALI UBADAMA", aliases: &[] },
        Codepoint { codepoint: 0x1884, name: "MONGOLIAN LETTER ALI GALI INVERTED UBADAMA", aliases: &[] },
        Codepoint { codepoint: 0x1885, name: "MONGOLIAN LETTER ALI GALI BALUDA", aliases: &[] },
        Codepoint { codepoint: 0x1886, name: "MONGOLIAN LETTER ALI GALI THREE BALUDA", aliases: &[] },
        Codepoint { codepoint: 0x1887, name: "MONGOLIAN LETTER ALI GALI A", aliases: &[] },
        Codepoint { codepoint: 0x1888, name: "MONGOLIAN LETTER ALI GALI I", aliases: &[] },
        Codepoint { codepoint: 0x1889, name: "MONGOLIAN LETTER ALI GALI KA", aliases: &[] },
        Codepoint { codepoint: 0x188A, name: "MONGOLIAN LETTER ALI GALI NGA", aliases: &[] },
        Codepoint { codepoint: 0x188B, name: "MONGOLIAN LETTER ALI GALI CA", aliases: &[] },
        Codepoint { codepoint: 0x188C, name: "MONGOLIAN LETTER ALI GALI TTA", aliases: &[] },
        Codepoint { codepoint: 0x188D, name: "MONGOLIAN LETTER ALI GALI TTHA", aliases: &[] },
        Codepoint { codepoint: 0x188E, name: "MONGOLIAN LETTER ALI GALI DDA", aliases: &[] },
        Codepoint { codepoint: 0x188F, name: "MONGOLIAN LETTER ALI GALI NNA", aliases: &[] },
        Codepoint { codepoint: 0x1890, name: "MONGOLIAN LETTER ALI GALI TA", aliases: &[] },
        Codepoint { codepoint: 0x1891, name: "MONGOLIAN LETTER ALI GALI DA", aliases: &[] },
        Codepoint { codepoint: 0x1892, name: "MONGOLIAN LETTER ALI GALI PA", aliases: &[] },
        Codepoint { codepoint: 0x1893, name: "MONGOLIAN LETTER ALI GALI PHA", aliases: &[] },
        Codepoint { codepoint: 0x1894, name: "MONGOLIAN LETTER ALI GALI SSA", aliases: &[] },
        Codepoint { codepoint: 0x1895, name: "MONGOLIAN LETTER ALI GALI ZHA", aliases: &[] },
        Codepoint { codepoint: 0x1896, name: "MONGOLIAN LETTER ALI GALI ZA", aliases: &[] },
    ];
    assert(v@ =~= codepoint_table_140());
    v
}

pub open spec fn codepoint_table_141() -> Seq<Codepoint> {
    seq![
        Codepoint { codepoint: 0x1897, name: "MONGOLIAN LETTER ALI GALI AH", aliases: &[] },
        Codepoint { codepoint: 0x1898, name: "MONGOLIAN LETTER TODO ALI GALI TA", aliases: &[] },
        Codepoint { codepoint: 0x1899, name: "MONGOLIAN LETTER TODO ALI GALI ZHA", aliases: &[] },
        Codepoint { codepoint: 0x189A, name: "MONGOLIAN LETTER MANCHU ALI GALI GHA", aliases: &[] },
        Codepoint { codepoint: 0x189B, name: "MONGOLIAN LETTER MANCHU ALI GALI NGA", aliases: &[] },
        Codepoint { codepoint: 0x189C, name: "MONGOLIAN LETTER MANCHU ALI GALI CA", aliases: &[] },
        Codepoint { codepoint: 0x189D, name: "MONGOLIAN LETTER MANCHU ALI GALI JHA", aliases: &[] },
        Codepoint { codepoint: 0x189E, name: "MONGOLIAN LETTER MANCHU ALI GALI TTA", aliases: &[] },
        Codepoint { codepoint: 0x189F, name: "MONGOLIAN LETTER MANCHU ALI GALI DDHA", aliases: &[] },
        Codepoint { codepoint: 0x18A0, name: "MONGOLIAN LETTER MANCHU ALI GALI TA", aliases: &[] },
        Codepoint { codepoint: 0x18A1, name: "MONGOLIAN LETTER MANCHU ALI GALI DHA", aliases: &[] },
        Codepoint { codepoint: 0x18A2, name: "MONGOLIAN LETTER MANCHU ALI GALI SSA", aliases: &[] },
        Codepoint { codepoint: 0x18A3, name: "MONGOLIAN LETTER MANCHU ALI GALI CYA", aliases: &[] },
        Codepoint { codepoint: 0x18A4, name: "MONGOLIAN LETTER MANCHU ALI GALI ZHA", aliases: &[] },
        Codepoint { codepoint: 0x18A5, name: "MONGOLIAN LETTER MANCHU ALI GALI ZA", aliases: &[] },
        Codepoint { codepoint: 0x18A6, name: "MONGOLIAN LETTER ALI GALI HALF U", aliases: &[] },
        Codepoint { codepoint: 0x18A7, name: "MONGOLIAN LETTER ALI GALI HALF YA", aliases: &[] },
        Codepoint { codepoint: 0x18A8, name: "MONGOLIAN LETTER MANCHU ALI GALI BHA", aliases: &[] },
        Codepoint { codepoint: 0x18A9, name: "MONGOLIAN LETTER ALI GALI DAGALGA", aliases: &[] },
        Codepoint { codepoint: 0x18AA, name: "MONGOLIAN LETTER MANCHU ALI GALI LHA", aliases: &[] },
        Codepoint { codepoint: 0x18B0, name: "CANADIAN SYLLABICS OY", aliases: &[] },
        Codepoint { codepoint: 0x18B1, name: "CANADIAN SYLLABICS AY", aliases: &[] },
        Codepoint { codepoint: 0x18B2, name: "CANADIAN SYLLABICS AAY", aliases: &[] },
        Codepoint { codepoint: 0x18B3, name: "CANADIAN SYLLABICS WAY", aliases: &[] },
        Codepoint { codepoint: 0x18B4, name: "CANADIAN SYLLABICS POY", aliases: &[] },
        Codepoint { codepoint: 0x18B5, name: "CANADIAN SYLLABICS PAY", aliases: &[] },
        Codepoint { codepoint: 0x18B6, name: "CANADIAN SYLLABICS PWOY", aliases: &[] },
        Codepoint { codepoint: 0x18B7, name: "CANADIAN SYLLABICS TAY", aliases: &[] },
        Codepoint { codepoint: 0x18B8, name: "CANADIAN SYLLABICS KAY", aliases: &[] },
        Codepoint { codepoint: 0x18B9, name: "CANADIAN SYLLABICS KWAY", aliases: &[] },
        Codepoint { codepoint: 0x18BA, name: "CANADIAN SYLLABICS MAY", aliases: &[] },
        Codepoint { codepoint: 0x18BB, name: "CANADIAN SYLLABICS NOY", aliases: &[] },
        Codepoint { codepoint: 0x18BC, name: "CANADIAN SYLLABICS NAY", aliases: &[] },
        Codepoint { codepoint: 0x18BD, name: "CANADIAN SYLLABICS LAY", aliases: &[] },
        Codepoint { codepoint: 0x18BE, name: "CANADIAN SYLLABICS SOY", aliases: &[] },
        Codepoint { codepoint: 0x18BF, name: "CANADIAN SYLLABICS SAY", aliases: &[] },
        Codepoint { codepoint: 0x18C0, name: "CANADIAN SYLLABICS SHOY", aliases: &[] },
        Codepoint { codepoint: 0x18C1, name: "CANADIAN SYLLABICS SHAY", aliases: &[] },
        Codepoint { codepoint: 0x18C2, name: "CANADIAN SYLLABICS SHWOY", aliases: &[] },
        Codepoint { codepoint: 0x18C3, name: "CANADIAN SYLLABICS YOY", aliases: &[] },
    ]
}

fn all_codepoints_141() -> (v: Vec<Codepoint>)
    ensures
        v@ == codepoint_table_141(),
{
    let v = vec![
        Codepoint { codepoint: 0x1897, name: "MONGOLIAN LETTER ALI GALI AH", aliases: &[] },
        Codepoint { codepoint: 0x1898, name: "MONGOLIAN LETTER TODO ALI GALI TA", aliases: &[] },
        Codepoint { codepoint: 0x1899, name: "MONGOLIAN LETTER TODO ALI GALI ZHA", aliases: &[] },
        Codepoint { codepoint: 0x189A, name: "MONGOLIAN LETTER MANCHU ALI GALI GHA", aliases: &[] },
        Codepoint { codepoint: 0x189B, name: "MONGOLIAN LETTER MANCHU ALI GALI NGA", aliases: &[] },
        Codepoint { codepoint: 0x189C, name: "MONGOLIAN LETTER MANCHU ALI GALI CA", aliases: &[] },
        Codepoint { codepoint: 0x189D, name: "MONGOLIAN LETTER MANCHU ALI GALI JHA", aliases: &[] },
        Codepoint { codepoint: 0x189E, name: "MONGOLIAN LETTER MANCHU ALI GALI TTA", aliases: &[] },
        Codepoint { codepoint: 0x189F, name: "MONGOLIAN LETTER MANCHU ALI GALI DDHA", aliases: &[] },
        Codepoint { codepoint: 0x18A0, name: "MONGOLIAN LETTER MANCHU ALI GALI TA", aliases: &[] },
        Codepoint { codepoint: 0x18A1, name: "MONGOLIAN LETTER MANCHU ALI GALI DHA", aliases: &[] },
        Codepoint { codepoint: 0x18A2, name: "MONGOLIAN LETTER MANCHU ALI GALI SSA", aliases: &[] },
        Codepoint { codepoint: 0x18A3, name: "MONGOLIAN LETTER MANCHU ALI GALI CYA", aliases: &[] },
        Codepoint { codepoint: 0x18A4, name: "MONGOLIAN LETTER MANCHU ALI GALI ZHA", aliases: &[] },
        Codepoint { codepoint: 0x18A5, name: "MONGOLIAN LETTER MANCHU ALI GALI ZA", aliases: &[] },
        Codepoint { codepoint: 0x18A6, name: "MONGOLIAN LETTER ALI GALI HALF U", aliases: &[] },
        Codepoint { codepoint: 0x18A7, name: "MONGOLIAN LETTER ALI GALI HALF YA", aliases: &[] },
        Codepoint { codepoint: 0x18A8, name: "MONGOLIAN LETTER MANCHU ALI GALI BHA", aliases: &[] },
        Codepoint { codepoint: 0x18A9, name: "MONGOLIAN LETTER ALI GALI DAGALGA", aliases: &[] },
        Codepoint { codepoint: 0x18AA, name: "MONGOLIAN LETTER MANCHU ALI GALI LHA", aliases: &[] },
        Codepoint { codepoint: 0x18B0, name: "CANADIAN SYLLABICS OY", aliases: &[] },
        Codepoint { codepoint: 0x18B1, name: "CANADIAN SYLLABICS AY", aliases: &[] },
        Codepoint { codepoint: 0x18B2, name: "CANADIAN SYLLABICS AAY", aliases: &[] },
        Codepoint { codepoint: 0x18B3, name: "CANADIAN SYLLABICS WAY", aliases: &[] },
        Codepoint { codepoint: 0x18B4, name: "CANADIAN SYLLABICS POY", aliases: &[] },
        Codepoint { codepoint: 0x18B5, name: "CANADIAN SYLLABICS PAY", aliases: &[] },
        Codepoint { codepoint: 0x18B6, name: "CANADIAN SYLLABICS PWOY", aliases: &[] },
        Codepoint { codepoint: 0x18B7, name: "CANADIAN SYLLABICS TAY", aliases: &[] },
        Codepoint { codepoint: 0x18B8, name: "CANADIAN SYLLABICS KAY", aliases: &[] },
        Codepoint { codepoint: 0x18B9, name: "CANADIAN SYLLABICS KWAY", aliases: &[] },
        Codepoint { codepoint: 0x18BA, name: "CANADIAN SYLLABICS MAY", aliases: &[] },
        Codepoint { codepoint: 0x18BB, name: "CANADIAN SYLLABICS NOY", aliases: &[] },
        Codepoint { codepoint: 0x18BC, name: "CANADIAN SYLLABICS NAY", aliases: &[] },
        Codepoint { codepoint: 0x18BD, name: "CANADIAN SYLLABICS LAY", aliases: &[] },
        Codepoint { codepoint: 0x18BE, name: "CANADIAN SYLLABICS SOY", aliases: &[] },
        Codepoint { codepoint: 0x18BF, name: "CANADIAN SYLLABICS SAY", aliases: &[] },
        Codepoint { codepoint: 0x18C0, name: "CANADIAN SYLLABICS SHOY", aliases: &[] },
        Codepoint { codepoint: 0x18C1, name: "CANADIAN SYLLABICS SHAY", aliases: &[] },
        Codepoint { codepoint: 0x18C2, name: "CANADIAN SYLLABICS SHWOY", aliases: &[] },
        Codepoint { codepoint: 0x18C3, name: "CANADIAN SYLLABICS YOY", aliases: &[] },
    ];
    assert(v@ =~= codepoint_table_141());
    v
}

pub open spec fn codepoint_table_142() -> Seq<Codepoint> {
    seq![
        Codepoint { codepoint: 0x18C4, name: "CANADIAN SYLLABICS YAY", aliases: &[] },
        Codepoint { codepoint: 0x18C5, name: "CANADIAN SYLLABICS RAY", aliases: &[] },
        Codepoint { codepoint: 0x18C6, name: "CANADIAN SYLLABICS NWI", aliases: &[] },
        Codepoint { codepoint: 0x18C7, name: "CANADIAN SYLLABICS OJIBWAY NWI", aliases: &[] },
        Codepoint { codepoint: 0x18C8, name: "CANADIAN SYLLABICS NWII", aliases: &[] },
        Codepoint { codepoint: 0x18C9, name: "CANADIAN SYLLABICS OJIBWAY NWII", aliases: &[] },
        Codepoint { codepoint: 0x18CA, name: "CANADIAN SYLLABICS NWO", aliases: &[] },
        Codepoint { codepoint: 0x18CB, name: "CANADIAN SYLLABICS OJIBWAY NWO", aliases: &[] },
        Codepoint { codepoint: 0x18CC, name: "CANADIAN SYLLABICS NWOO", aliases: &[] },
        Codepoint { codepoint: 0x18CD, name: "CANADIAN SYLLABICS OJIBWAY NWOO", aliases: &[] },
        Codepoint { codepoint: 0x18CE, name: "CANADIAN SYLLABICS RWEE", aliases: &[] },
        Codepoint { codepoint: 0x18CF, name: "CANADIAN SYLLABICS RWI", aliases: &[] },
        Codepoint { codepoint: 0x18D0, name: "CANADIAN SYLLABICS RWII", aliases: &[] },
        Codepoint { codepoint: 0x18D1, name: "CANADIAN SYLLABICS RWO", aliases: &[] },
        Codepoint { codepoint: 0x18D2, name: "CANADIAN SYLLABICS RWOO", aliases: &[] },
        Codepoint { codepoint: 0x18D3, name: "CANADIAN SYLLABICS RWA", aliases: &[] },
        Codepoint { codepoint: 0x18D4, name: "CANADIAN SYLLABICS OJIBWAY P", aliases: &[] },
        Codepoint { codepoint: 0x18D5, name: "CANADIAN SYLLABICS OJIBWAY T", aliases: &[] },
        Codepoint { codepoint: 0x18D6, name: "CANADIAN SYLLABICS OJIBWAY K", aliases: &[] },
        Codepoint { codepoint: 0x18D7, name: "CANADIAN SYLLABICS OJIBWAY C", aliases: &[] },
        Codepoint { codepoint: 0x18D8, name: "CANADIAN SYLLABICS OJIBWAY M", aliases: &[] },
        Codepoint { codepoint: 0x18D9, name: "CANADIAN SYLLABICS OJIBWAY N", aliases: &[] },
        Codepoint { codepoint: 0x18DA, name: "CANADIAN SYLLABICS OJIBWAY S", aliases: &[] },
        Codepoint { codepoint: 0x18DB, name: "CANADIAN SYLLABICS OJIBWAY SH", aliases: &[] },
        Codepoint { codepoint: 0x18DC, name: "CANADIAN SYLLABICS EASTERN W", aliases: &[] },
        Codepoint { codepoint: 0x18DD, name: "CANADIAN SYLLABICS WESTERN W", aliases: &[] },
        Codepoint { codepoint: 0x18DE, name: "CANADIAN SYLLABICS FINAL SMALL RING", aliases: &[] },
        Codepoint { codepoint: 0x18DF, name: "CANADIAN SYLLABICS FINAL RAISED DOT", aliases: &[] },
        Codepoint { codepoint: 0x18E0, name: "CANADIAN SYLLABICS R-CREE RWE", aliases: &[] },
        Codepoint { codepoint: 0x18E1, name: "CANADIAN SYLLABICS WEST-CREE LOO", aliases: &[] },
        Codepoint { codepoint: 0x18E2, name: "CANADIAN SYLLABICS WEST-CREE LAA", aliases: &[] },
        Codepoint { codepoint: 0x18E3, name: "CANADIAN SYLLABICS THWE", aliases: &[] },
        Codepoint { codepoint: 0x18E4, name: "CANADIAN SYLLABICS THWA", aliases: &[] },
        Codepoint { codepoint: 0x18E5, name: "CANADIAN SYLLABICS TTHWE", aliases: &[] },
        Codepoint { codepoint: 0x18E6, name: "CANADIAN SYLLABICS TTHOO", aliases: &[] },
        Codepoint { codepoint: 0x18E7, name: "CANADIAN SYLLABICS TTHAA", aliases: &[] },
        Codepoint { codepoint: 0x18E8, name: "CANADIAN SYLLABICS TLHWE", aliases: &[] },
        Codepoint { codepoint: 0x18E9, name: "CANADIAN SYLLABICS TLHOO", aliases: &[] },
        Codepoint { codepoint: 0x18EA, name: "CANADIAN SYLLABICS SAYISI SHWE", aliases: &[] },
        Codepoint { codepoint: 0x18EB, name: "CANADIAN SYLLABICS SAYISI SHOO", aliases: &[] },
    ]
}

fn all_codepoints_142() -> (v: Vec<Codepoint>)
    ensures
        v@ == codepoint_table_142(),
{
    let v = vec![
        Codepoint { codepoint: 0x18C4, name: "CANADIAN SYLLABICS YAY", aliases: &[] },
        Codepoint { codepoint: 0x18C5, name: "CANADIAN SYLLABICS RAY", aliases: &[] },
        Codepoint { codepoint: 0x18C6, name: "CANADIAN SYLLABICS NWI", aliases: &[] },
        Codepoint { codepoint: 0x18C7, name: "CANADIAN SYLLABICS OJIBWAY NWI", aliases: &[] },
        Codepoint { codepoint: 0x18C8, name: "CANADIAN SYLLABICS NWII", aliases: &[] },
        Codepoint { codepoint: 0x18C9, name: "CANADIAN SYLLABICS OJIBWAY NWII", aliases: &[] },
        Codepoint { codepoint: 0x18CA, name: "CANADIAN SYLLABICS NWO", aliases: &[] },
        Codepoint { codepoint: 0x18CB, name: "CANADIAN SYLLABICS OJIBWAY NWO", aliases: &[] },
        Codepoint { codepoint: 0x18CC, name: "CANADIAN SYLLABICS NWOO", aliases: &[] },
        Codepoint { codepoint: 0x18CD, name: "CANADIAN SYLLABICS OJIBWAY NWOO", aliases: &[] },
        Codepoint { codepoint: 0x18CE, name: "CANADIAN SYLLABICS RWEE", aliases: &[] },
        Codepoint { codepoint: 0x18CF, name: "CANADIAN SYLLABICS RWI", aliases: &[] },
        Codepoint { codepoint: 0x18D0, name: "CANADIAN SYLLABICS RWII", aliases: &[] },
        Codepoint { codepoint: 0x18D1, name: "CANADIAN SYLLABICS RWO", aliases: &[] },
        Codepoint { codepoint: 0x18D2, name: "CANADIAN SYLLABICS RWOO", aliases: &[] },
        Codepoint { codepoint: 0x18D3, name: "CANADIAN SYLLABICS RWA", aliases: &[] },
        Codepoint { codepoint: 0x18D4, name: "CANADIAN SYLLABICS OJIBWAY P", aliases: &[] },
        Codepoint { codepoint: 0x18D5, name: "CANADIAN SYLLABICS OJIBWAY T", aliases: &[] },
        Codepoint { codepoint: 0x18D6, name: "CANADIAN SYLLABICS OJIBWAY K", aliases: &[] },
        Codepoint { codepoint: 0x18D7, name: "CANADIAN SYLLABICS OJIBWAY C", aliases: &[] },
        Codepoint { codepoint: 0x18D8, name: "CANADIAN SYLLABICS OJIBWAY M", aliases: &[] },
        Codepoint { codepoint: 0x18D9, name: "CANADIAN SYLLABICS OJIBWAY N", aliases: &[] },
        Codepoint { codepoint: 0x18DA, name: "CANADIAN SYLLABICS OJIBWAY S", aliases: &[] },
        Codepoint { codepoint: 0x18DB, name: "CANADIAN SYLLABICS OJIBWAY SH", aliases: &[] },
        Codepoint { codepoint: 0x18DC, name: "CANADIAN SYLLABICS EASTERN W", aliases: &[] },
        Codepoint { codepoint: 0x18DD, name: "CANADIAN SYLLABICS WESTERN W", aliases: &[] },
        Codepoint { codepoint: 0x18DE, name: "CANADIAN SYLLABICS FINAL SMALL RING", aliases: &[] },
        Codepoint { codepoint: 0x18DF, name: "CANADIAN SYLLABICS FINAL RAISED DOT", aliases: &[] },
        Codepoint { codepoint: 0x18E0, name: "CANADIAN SYLLABICS R-CREE RWE", aliases: &[] },
        Codepoint { codepoint: 0x18E1, name: "CANADIAN SYLLABICS WEST-CREE LOO", aliases: &[] },
        Codepoint { codepoint: 0x18E2, name: "CANADIAN SYLLABICS WEST-CREE LAA", aliases: &[] },
        Codepoint { codepoint: 0x18E3, name: "CANADIAN SYLLABICS THWE", aliases: &[] },
        Codepoint { codepoint: 0x18E4, name: "CANADIAN SYLLABICS THWA", aliases: &[] },
        Codepoint { codepoint: 0x18E5, name: "CANADIAN SYLLABICS TTHWE", aliases: &[] },
        Codepoint { codepoint: 0x18E6, name: "CANADIAN SYLLABICS TTHOO", aliases: &[] },
        Codepoint { codepoint: 0x18E7, name: "CANADIAN SYLLABICS TTHAA", aliases: &[] },
        Codepoint { codepoint: 0x18E8, name: "CANADIAN SYLLABICS TLHWE", aliases: &[] },
        Codepoint { codepoint: 0x18E9, name: "CANADIAN SYLLABICS TLHOO", aliases: &[] },
        Codepoint { codepoint: 0x18EA, name: "CANADIAN SYLLABICS SAYISI SHWE", aliases: &[] },
        Codepoint { codepoint: 0x18EB, name: "CANADIAN SYLLABICS SAYISI SHOO", aliases: &[] },
    ];
    assert(v@ =~= codepoint_table_142());
    v
}

pub open spec fn codepoint_table_143() -> Seq<Codepoint> {
    seq![
        Codepoint { codepoint: 0x18EC, name: "CANADIAN SYLLABICS SAYISI HOO", aliases: &[] },
        Codepoint { codepoint: 0x18ED, name: "CANADIAN SYLLABICS CARRIER GWU", aliases: &[] },
        Codepoint { codepoint: 0x18EE, name: "CANADIAN SYLLABICS CARRIER DENE GEE", aliases: &[] },
        Codepoint { codepoint: 0x18EF, name: "CANADIAN SYLLABICS CARRIER GAA", aliases: &[] },
        Codepoint { codepoint: 0x18F0, name: "CANADIAN SYLLABICS CARRIER GWA", aliases: &[] },
        Codepoint { codepoint: 0x18F1, name: "CANADIAN SYLLABICS SAYISI JUU", aliases: &[] },
        Codepoint { codepoint: 0x18F2, name: "CANADIAN SYLLABICS CARRIER JWA", aliases: &[] },
        Codepoint { codepoint: 0x18F3, name: "CANADIAN SYLLABICS BEAVER DENE L", aliases: &[] },
        Codepoint { codepoint: 0x18F4, name: "CANADIAN SYLLABICS BEAVER DENE R", aliases: &[] },
        Codepoint { codepoint: 0x18F5, name: "CANADIAN SYLLABICS CARRIER DENTAL S", aliases: &[] },
        Codepoint { codepoint: 0x1900, name: "LIMBU VOWEL-CARRIER LETTER", aliases: &[] },
        Codepoint { codepoint: 0x1901, name: "LIMBU LETTER KA", aliases: &[] },
        Codepoint { codepoint: 0x1902, name: "LIMBU LETTER KHA", aliases: &[] },
        Codepoint { codepoint: 0x1903, name: "LIMBU LETTER GA", aliases: &[] },
        Codepoint { codepoint: 0x1904, name: "LIMBU LETTER GHA", aliases: &[] },
        Codepoint { codepoint: 0x1905, name: "LIMBU LETTER NGA", aliases: &[] },
        Codepoint { codepoint: 0x1906, name: "LIMBU LETTER CA", aliases: &[] },
        Codepoint { codepoint: 0x1907, name: "LIMBU LETTER CHA", aliases: &[] },
        Codepoint { codepoint: 0x1908, name: "LIMBU LETTER JA", aliases: &[] },
        Codepoint { codepoint: 0x1909, name: "LIMBU LETTER JHA", aliases: &[] },
        Codepoint { codepoint: 0x190A, name: "LIMBU LETTER YAN", aliases: &[] },
        Codepoint { codepoint: 0x190B, name: "LIMBU LETTER TA", aliases: &[] },
        Codepoint { codepoint: 0x190C, name: "LIMBU LETTER THA", aliases: &[] },
        Codepoint { codepoint: 0x190D, name: "LIMBU LETTER DA", aliases: &[] },
        Codepoint { codepoint: 0x190E, name: "LIMBU LETTER DHA", aliases: &[] },
        Codepoint { codepoint: 0x190F, name: "LIMBU LETTER NA", aliases: &[] },
        Codepoint { codepoint: 0x1910, name: "LIMBU LETTER PA", aliases: &[] },
        Codepoint { codepoint: 0x1911, name: "LIMBU LETTER PHA", aliases: &[] },
        Codepoint { codepoint: 0x1912, name: "LIMBU LETTER BA", aliases: &[] },
        Codepoint { codepoint: 0x1913, name: "LIMBU LETTER BHA", aliases: &[] },
        Codepoint { codepoint: 0x1914, name: "LIMBU LETTER MA", aliases: &[] },
        Codepoint { codepoint: 0x1915, name: "LIMBU LETTER YA", aliases: &[] },
        Codepoint { codepoint: 0x1916, name: "LIMBU LETTER RA", aliases: &[] },
        Codepoint { codepoint: 0x1917, name: "LIMBU LETTER LA", aliases: &[] },
        Codepoint { codepoint: 0x1918, name: "LIMBU LETTER WA", aliases: &[] },
        Codepoint { codepoint: 0x1919, name: "LIMBU LETTER SHA", aliases: &[] },
        Codepoint { codepoint: 0x191A, name: "LIMBU LETTER SSA", aliases: &[] },
        Codepoint { codepoint: 0x191B, name: "LIMBU LETTER SA", aliases: &[] },
        Codepoint { codepoint: 0x191C, name: "LIMBU LETTER HA", aliases: &[] },
        Codepoint { codepoint: 0x191D, name: "LIMBU LETTER GYAN", aliases: &[] },
    ]
}

fn all_codepoints_143() -> (v: Vec<Codepoint>)
    ensures
        v@ == codepoint_table_143(),
{
    let v = vec![
        Codepoint { codepoint: 0x18EC, name: "CANADIAN SYLLABICS SAYISI HOO", aliases: &[] },
        Codepoint { codepoint: 0x18ED, name: "CANADIAN SYLLABICS CARRIER GWU", aliases: &[] },
        Codepoint { codepoint: 0x18EE, name: "CANADIAN SYLLABICS CARRIER DENE GEE", aliases: &[] },
        Codepoint { codepoint: 0x18EF, name: "CANADIAN SYLLABICS CARRIER GAA", aliases: &[] },
        Codepoint { codepoint: 0x18F0, name: "CANADIAN SYLLABICS CARRIER GWA", aliases: &[] },
        Codepoint { codepoint: 0x18F1, name: "CANADIAN SYLLABICS SAYISI JUU", aliases: &[] },
        Codepoint { codepoint: 0x18F2, name: "CANADIAN SYLLABICS CARRIER JWA", aliases: &[] },
        Codepoint { codepoint: 0x18F3, name: "CANADIAN SYLLABICS BEAVER DENE L", aliases: &[] },
        Codepoint { codepoint: 0x18F4, name: "CANADIAN SYLLABICS BEAVER DENE R", aliases: &[] },
        Codepoint { codepoint: 0x18F5, name: "CANADIAN SYLLABICS CARRIER DENTAL S", aliases: &[] },
        Codepoint { codepoint: 0x1900, name: "LIMBU VOWEL-CARRIER LETTER", aliases: &[] },
        Codepoint { codepoint: 0x1901, name: "LIMBU LETTER KA", aliases: &[] },
        Codepoint { codepoint: 0x1902, name: "LIMBU LETTER KHA", aliases: &[] },
        Codepoint { codepoint: 0x1903, name: "LIMBU LETTER GA", aliases: &[] },
        Codepoint { codepoint: 0x1904, name: "LIMBU LETTER GHA", aliases: &[] },
        Codepoint { codepoint: 0x1905, name: "LIMBU LETTER NGA", aliases: &[] },
        Codepoint { codepoint: 0x1906, name: "LIMBU LETTER CA", aliases: &[] },
        Codepoint { codepoint: 0x1907, name: "LIMBU LETTER CHA", aliases: &[] },
        Codepoint { codepoint: 0x1908, name: "LIMBU LETTER JA", aliases: &[] },
        Codepoint { codepoint: 0x1909, name: "LIMBU LETTER JHA", aliases: &[] },
        Codepoint { codepoint: 0x190A, name: "LIMBU LETTER YAN", aliases: &[] },
        Codepoint { codepoint: 0x190B, name: "LIMBU LETTER TA", aliases: &[] },
        Codepoint { codepoint: 0x190C, name: "LIMBU LETTER THA", aliases: &[] },
        Codepoint { codepoint: 0x190D, name: "LIMBU LETTER DA", aliases: &[] },
        Codepoint { codepoint: 0x190E, name: "LIMBU LETTER DHA", aliases: &[] },
        Codepoint { codepoint: 0x190F, name: "LIMBU LETTER NA", aliases: &[] },
        Codepoint { codepoint: 0x1910, name: "LIMBU LETTER PA", aliases: &[] },
        Codepoint { codepoint: 0x1911, name: "LIMBU LETTER PHA", aliases: &[] },
        Codepoint { codepoint: 0x1912, name: "LIMBU LETTER BA", aliases: &[] },
        Codepoint { codepoint: 0x1913, name: "LIMBU LETTER BHA", aliases: &[] },
        Codepoint { codepoint: 0x1914, name: "LIMBU LETTER MA", aliases: &[] },
        Codepoint { codepoint: 0x1915, name: "LIMBU LETTER YA", aliases: &[] },
        Codepoint { codepoint: 0x1916, name: "LIMBU LETTER RA", aliases: &[] },
        Codepoint { codepoint: 0x1917, name: "LIMBU LETTER LA", aliases: &[] },
        Codepoint { codepoint: 0x1918, name: "LIMBU LETTER WA", aliases: &[] },
        Codepoint { codepoint: 0x1919, name: "LIMBU LETTER SHA", aliases: &[] },
        Codepoint { codepoint: 0x191A, name: "LIMBU LETTER SSA", aliases: &[] },
        Codepoint { codepoint: 0x191B, name: "LIMBU LETTER SA", aliases: &[] },
        Codepoint { codepoint: 0x191C, name: "LIMBU LETTER HA", aliases: &[] },
        Codepoint { codepoint: 0x191D, name: "LIMBU LETTER GYAN", aliases: &[] },
    ];
    assert(v@ =~= codepoint_table_143());
    v
}

pub open spec fn codepoint_table_144() -> Seq<Codepoint> {
    seq![
        Codepoint { codepoint: 0x191E, name: "LIMBU LETTER TRA", aliases: &[] },
        Codepoint { codepoint: 0x1920, name: "LIMBU VOWEL SIGN A", aliases: &[] },
        Codepoint { codepoint: 0x1921, name: "LIMBU VOWEL SIGN I", aliases: &[] },
        Codepoint { codepoint: 0x1922, name: "LIMBU VOWEL SIGN U", aliases: &[] },
        Codepoint { codepoint: 0x1923, name: "LIMBU VOWEL SIGN EE", aliases: &[] },
        Codepoint { codepoint: 0x1924, name: "LIMBU VOWEL SIGN AI", aliases: &[] },
        Codepoint { codepoint: 0x1925, name: "LIMBU VOWEL SIGN OO", aliases: &[] },
        Codepoint { codepoint: 0x1926, name: "LIMBU VOWEL SIGN AU", aliases: &[] },
        Codepoint { codepoint: 0x1927, name: "LIMBU VOWEL SIGN E", aliases: &[] },
        Codepoint { codepoint: 0x1928, name: "LIMBU VOWEL SIGN O", aliases: &[] },
        Codepoint { codepoint: 0x1929, name: "LIMBU SUBJOINED LETTER YA", aliases: &[] },
        Codepoint { codepoint: 0x192A, name: "LIMBU SUBJOINED LETTER RA", aliases: &[] },
        Codepoint { codepoint: 0x192B, name: "LIMBU SUBJOINED LETTER WA", aliases: &[] },
        Codepoint { codepoint: 0x1930, name: "LIMBU SMALL LETTER KA", aliases: &[] },
        Codepoint { codepoint: 0x1931, name: "LIMBU SMALL LETTER NGA", aliases: &[] },
        Codepoint { codepoint: 0x1932, name: "LIMBU SMALL LETTER ANUSVARA", aliases: &[] },
        Codepoint { codepoint: 0x1933, name: "LIMBU SMALL LETTER TA", aliases: &[] },
        Codepoint { codepoint: 0x1934, name: "LIMBU SMALL LETTER NA", aliases: &[] },
        Codepoint { codepoint: 0x1935, name: "LIMBU SMALL LETTER PA", aliases: &[] },
        Codepoint { codepoint: 0x1936, name: "LIMBU SMALL LETTER MA", aliases: &[] },
        Codepoint { codepoint: 0x1937, name: "LIMBU SMALL LETTER RA", aliases: &[] },
        Codepoint { codepoint: 0x1938, name: "LIMBU SMALL LETTER LA", aliases: &[] },
        Codepoint { codepoint: 0x1939, name: "LIMBU SIGN MUKPHRENG", aliases: &[] },
        Codepoint { codepoint: 0x193A, name: "LIMBU SIGN KEMPHRENG", aliases: &[] },
        Codepoint { codepoint: 0x193B, name: "LIMBU SIGN SA-I", aliases: &[] },
        Codepoint { codepoint: 0x1940, name: "LIMBU SIGN LOO", aliases: &[] },
        Codepoint { codepoint: 0x1944, name: "LIMBU EXCLAMATION MARK", aliases: &[] },
        Codepoint { codepoint: 0x1945, name: "LIMBU QUESTION MARK", aliases: &[] },
        Codepoint { codepoint: 0x1946, name: "LIMBU DIGIT ZERO", aliases: &[] },
        Codepoint { codepoint: 0x1947, name: "LIMBU DIGIT ONE", aliases: &[] },
        Codepoint { codepoint: 0x1948, name: "LIMBU DIGIT TWO", aliases: &[] },
        Codepoint { codepoint: 0x1949, name: "LIMBU DIGIT THREE", aliases: &[] },
        Codepoint { codepoint: 0x194A, name: "LIMBU DIGIT FOUR", aliases: &[] },
        Codepoint { codepoint: 0x194B, name: "LIMBU DIGIT FIVE", aliases: &[] },
        Codepoint { codepoint: 0x194C, name: "LIMBU DIGIT SIX", aliases: &[] },
        Codepoint { codepoint: 0x194D, name: "LIMBU DIGIT SEVEN", aliases: &[] },
        Codepoint { codepoint: 0x194E, name: "LIMBU DIGIT EIGHT", aliases: &[] },
        Codepoint { codepoint: 0x194F, name: "LIMBU DIGIT NINE", aliases: &[] },
        Codepoint { codepoint: 0x1950, name: "TAI LE LETTER KA", aliases: &[] },
        Codepoint { codepoint: 0x1951, name: "TAI LE LETTER XA", aliases: &[] },
    ]
}

fn all_codepoints_144() -> (v: Vec<Codepoint>)
    ensures
        v@ == codepoint_table_144(),
{
    let v = vec![
        Codepoint { codepoint: 0x191E, name: "LIMBU LETTER TRA", aliases: &[] },
        Codepoint { codepoint: 0x1920, name: "LIMBU VOWEL SIGN A", aliases: &[] },
        Codepoint { codepoint: 0x1921, name: "LIMBU VOWEL SIGN I", aliases: &[] },
        Codepoint { codepoint: 0x1922, name: "LIMBU VOWEL SIGN U", aliases: &[] },
        Codepoint { codepoint: 0x1923, name: "LIMBU VOWEL SIGN EE", aliases: &[] },
        Codepoint { codepoint: 0x1924, name: "LIMBU VOWEL SIGN AI", aliases: &[] },
        Codepoint { codepoint: 0x1925, name: "LIMBU VOWEL SIGN OO", aliases: &[] },
        Codepoint { codepoint: 0x1926, name: "LIMBU VOWEL SIGN AU", aliases: &[] },
        Codepoint { codepoint: 0x1927, name: "LIMBU VOWEL SIGN E", aliases: &[] },
        Codepoint { codepoint: 0x1928, name: "LIMBU VOWEL SIGN O", aliases: &[] },
        Codepoint { codepoint: 0x1929, name: "LIMBU SUBJOINED LETTER YA", aliases: &[] },
        Codepoint { codepoint: 0x192A, name: "LIMBU SUBJOINED LETTER RA", aliases: &[] },
        Codepoint { codepoint: 0x192B, name: "LIMBU SUBJOINED LETTER WA", aliases: &[] },
        Codepoint { codepoint: 0x1930, name: "LIMBU SMALL LETTER KA", aliases: &[] },
        Codepoint { codepoint: 0x1931, name: "LIMBU SMALL LETTER NGA", aliases: &[] },
        Codepoint { codepoint: 0x1932, name: "LIMBU SMALL LETTER ANUSVARA", aliases: &[] },
        Codepoint { codepoint: 0x1933, name: "LIMBU SMALL LETTER TA", aliases: &[] },
        Codepoint { codepoint: 0x1934, name: "LIMBU SMALL LETTER NA", aliases: &[] },
        Codepoint { codepoint: 0x1935, name: "LIMBU SMALL LETTER PA", aliases: &[] },
        Codepoint { codepoint: 0x1936, name: "LIMBU SMALL LETTER MA", aliases: &[] },
        Codepoint { codepoint: 0x1937, name: "LIMBU SMALL LETTER RA", aliases: &[] },
        Codepoint { codepoint: 0x1938, name: "LIMBU SMALL LETTER LA", aliases: &[] },
        Codepoint { codepoint: 0x1939, name: "LIMBU SIGN MUKPHRENG", aliases: &[] },
        Codepoint { codepoint: 0x193A, name: "LIMBU SIGN KEMPHRENG", aliases: &[] },
        Codepoint { codepoint: 0x193B, name: "LIMBU SIGN SA-I", aliases: &[] },
        Codepoint { codepoint: 0x1940, name: "LIMBU SIGN LOO", aliases: &[] },
        Codepoint { codepoint: 0x1944, name: "LIMBU EXCLAMATION MARK", aliases: &[] },
        Codepoint { codepoint: 0x1945, name: "LIMBU QUESTION MARK", aliases: &[] },
        Codepoint { codepoint: 0x1946, name: "LIMBU DIGIT ZERO", aliases: &[] },
        Codepoint { codepoint: 0x1947, name: "LIMBU DIGIT ONE", aliases: &[] },
        Codepoint { codepoint: 0x1948, name: "LIMBU DIGIT TWO", aliases: &[] },
        Codepoint { codepoint: 0x1949, name: "LIMBU DIGIT THREE", aliases: &[] },
        Codepoint { codepoint: 0x194A, name: "LIMBU DIGIT FOUR", aliases: &[] },
        Codepoint { codepoint: 0x194B, name: "LIMBU DIGIT FIVE", aliases: &[] },
        Codepoint { codepoint: 0x194C, name: "LIMBU DIGIT SIX", aliases: &[] },
        Codepoint { codepoint: 0x194D, name: "LIMBU DIGIT SEVEN", aliases: &[] },
        Codepoint { codepoint: 0x194E, name: "LIMBU DIGIT EIGHT", aliases: &[] },
        Codepoint { codepoint: 0x194F, name: "LIMBU DIGIT NINE", aliases: &[] },
        Codepoint { codepoint: 0x1950, name: "TAI LE LETTER KA", aliases: &[] },
        Codepoint { codepoint: 0x1951, name: "TAI LE LETTER XA", aliases: &[] },
    ];
    assert(v@ =~= codepoint_table_144());
    v
}

pub open spec fn codepoint_table_145() -> Seq<Codepoint> {
    seq![
        Codepoint { codepoint: 0x1952, name: "TAI LE LETTER NGA", aliases: &[] },
        Codepoint { codepoint: 0x1953, name: "TAI LE LETTER TSA", aliases: &[] },
        Codepoint { codepoint: 0x1954, name: "TAI LE LETTER SA", aliases: &[] },
        Codepoint { codepoint: 0x1955, name: "TAI LE LETTER YA", aliases: &[] },
        Codepoint { codepoint: 0x1956, name: "TAI LE LETTER TA", aliases: &[] },
        Codepoint { codepoint: 0x1957, name: "TAI LE LETTER THA", aliases: &[] },
        Codepoint { codepoint: 0x1958, name: "TAI LE LETTER LA", aliases: &[] },
        Codepoint { codepoint: 0x1959, name: "TAI LE LETTER PA", aliases: &[] },
        Codepoint { codepoint: 0x195A, name: "TAI LE LETTER PHA", aliases: &[] },
        Codepoint { codepoint: 0x195B, name: "TAI LE LETTER MA", aliases: &[] },
        Codepoint { codepoint: 0x195C, name: "TAI LE LETTER FA", aliases: &[] },
        Codepoint { codepoint: 0x195D, name: "TAI LE LETTER VA", aliases: &[] },
        Codepoint { codepoint: 0x195E, name: "TAI LE LETTER HA", aliases: &[] },
        Codepoint { codepoint: 0x195F, name: "TAI LE LETTER QA", aliases: &[] },
        Codepoint { codepoint: 0x1960, name: "TAI LE LETTER KHA", aliases: &[] },
        Codepoint { codepoint: 0x1961, name: "TAI LE LETTER TSHA", aliases: &[] },
        Codepoint { codepoint: 0x1962, name: "TAI LE LETTER NA", aliases: &[] },
        Codepoint { codepoint: 0x1963, name: "TAI LE LETTER A", aliases: &[] },
        Codepoint { codepoint: 0x1964, name: "TAI LE LETTER I", aliases: &[] },
        Codepoint { codepoint: 0x1965, name: "TAI LE LETTER EE", aliases: &[] },
        Codepoint { codepoint: 0x1966, name: "TAI LE LETTER EH", aliases: &[] },
        Codepoint { codepoint: 0x1967, name: "TAI LE LETTER U", aliases: &[] },
        Codepoint { codepoint: 0x1968, name: "TAI LE LETTER OO", aliases: &[] },
        Codepoint { codepoint: 0x1969, name: "TAI LE LETTER O", aliases: &[] },
        Codepoint { codepoint: 0x196A, name: "TAI LE LETTER UE", aliases: &[] },
        Codepoint { codepoint: 0x196B, name: "TAI LE LETTER E", aliases: &[] },
        Codepoint { codepoint: 0x196C, name: "TAI LE LETTER AUE", aliases: &[] },
        Codepoint { codepoint: 0x196D, name: "TAI LE LETTER AI", aliases: &[] },
        Codepoint { codepoint: 0x1970, name: "TAI LE LETTER TONE-2", aliases: &[] },
        Codepoint { codepoint: 0x1971, name: "TAI LE LETTER TONE-3", aliases: &[] },
        Codepoint { codepoint: 0x1972, name: "TAI LE LETTER TONE-4", aliases: &[] },
        Codepoint { codepoint: 0x1973, name: "TAI LE LETTER TONE-5", aliases: &[] },
        Codepoint { codepoint: 0x1974, name: "TAI LE LETTER TONE-6", aliases: &[] },
        Codepoint { codepoint: 0x1980, name: "NEW TAI LUE LETTER HIGH QA", aliases: &[] },
        Codepoint { codepoint: 0x1981, name: "NEW TAI LUE LETTER LOW QA", aliases: &[] },
        Codepoint { codepoint: 0x1982, name: "NEW TAI LUE LETTER HIGH KA", aliases: &[] },
        Codepoint { codepoint: 0x1983, name: "NEW TAI LUE LETTER HIGH XA", aliases: &[] },
        Codepoint { codepoint: 0x1984, name: "NEW TAI LUE LETTER HIGH NGA", aliases: &[] },
        Codepoint { codepoint: 0x1985, name: "NEW TAI LUE LETTER LOW KA", aliases: &[] },
        Codepoint { codepoint: 0x1986, name: "NEW TAI LUE LETTER LOW XA", aliases: &[] },
    ]
}

fn all_codepoints_145() -> (v: Vec<Codepoint>)
    ensures
        v@ == codepoint_table_145(),
{
    let v = vec![
        Codepoint { codepoint: 0x1952, name: "TAI LE LETTER NGA", aliases: &[] },
        Codepoint { codepoint: 0x1953, name: "TAI LE LETTER TSA", aliases: &[] },
        Codepoint { codepoint: 0x1954, name: "TAI LE LETTER SA", aliases: &[] },
        Codepoint { codepoint: 0x1955, name: "TAI LE LETTER YA", aliases: &[] },
        Codepoint { codepoint: 0x1956, name: "TAI LE LETTER TA", aliases: &[] },
        Codepoint { codepoint: 0x1957, name: "TAI LE LETTER THA", aliases: &[] },
        Codepoint { codepoint: 0x1958, name: "TAI LE LETTER LA", aliases: &[] },
        Codepoint { codepoint: 0x1959, name: "TAI LE LETTER PA", aliases: &[] },
        Codepoint { codepoint: 0x195A, name: "TAI LE LETTER PHA", aliases: &[] },
        Codepoint { codepoint: 0x195B, name: "TAI LE LETTER MA", aliases: &[] },
        Codepoint { codepoint: 0x195C, name: "TAI LE LETTER FA", aliases: &[] },
        Codepoint { codepoint: 0x195D, name: "TAI LE LETTER VA", aliases: &[] },
        Codepoint { codepoint: 0x195E, name: "TAI LE LETTER HA", aliases: &[] },
        Codepoint { codepoint: 0x195F, name: "TAI LE LETTER QA", aliases: &[] },
        Codepoint { codepoint: 0x1960, name: "TAI LE LETTER KHA", aliases: &[] },
        Codepoint { codepoint: 0x1961, name: "TAI LE LETTER TSHA", aliases: &[] },
        Codepoint { codepoint: 0x1962, name: "TAI LE LETTER NA", aliases: &[] },
        Codepoint { codepoint: 0x1963, name: "TAI LE LETTER A", aliases: &[] },
        Codepoint { codepoint: 0x1964, name: "TAI LE LETTER I", aliases: &[] },
        Codepoint { codepoint: 0x1965, name: "TAI LE LETTER EE", aliases: &[] },
        Codepoint { codepoint: 0x1966, name: "TAI LE LETTER EH", aliases: &[] },
        Codepoint { codepoint: 0x1967, name: "TAI LE LETTER U", aliases: &[] },
        Codepoint { codepoint: 0x1968, name: "TAI LE LETTER OO", aliases: &[] },
        Codepoint { codepoint: 0x1969, name: "TAI LE LETTER O", aliases: &[] },
        Codepoint { codepoint: 0x196A, name: "TAI LE LETTER UE", aliases: &[] },
        Codepoint { codepoint: 0x196B, name: "TAI LE LETTER E", aliases: &[] },
        Codepoint { codepoint: 0x196C, name: "TAI LE LETTER AUE", aliases: &[] },
        Codepoint { codepoint: 0x196D, name: "TAI LE LETTER AI", aliases: &[] },
        Codepoint { codepoint: 0x1970, name: "TAI LE LETTER TONE-2", aliases: &[] },
        Codepoint { codepoint: 0x1971, name: "TAI LE LETTER TONE-3", aliases: &[] },
        Codepoint { codepoint: 0x1972, name: "TAI LE LETTER TONE-4", aliases: &[] },
        Codepoint { codepoint: 0x1973, name: "TAI LE LETTER TONE-5", aliases: &[] },
        Codepoint { codepoint: 0x1974, name: "TAI LE LETTER TONE-6", aliases: &[] },
        Codepoint { codepoint: 0x1980, name: "NEW TAI LUE LETTER HIGH QA", aliases: &[] },
        Codepoint { codepoint: 0x1981, name: "NEW TAI LUE LETTER LOW QA", aliases: &[] },
        Codepoint { codepoint: 0x1982, name: "NEW TAI LUE LETTER HIGH KA", aliases: &[] },
        Codepoint { codepoint: 0x1983, name: "NEW TAI LUE LETTER HIGH XA", aliases: &[] },
        Codepoint { codepoint: 0x1984, name: "NEW TAI LUE LETTER HIGH NGA", aliases: &[] },
        Codepoint { codepoint: 0x1985, name: "NEW TAI LUE LETTER LOW KA", aliases: &[] },
        Codepoint { codepoint: 0x1986, name: "NEW TAI LUE LETTER LOW XA", aliases: &[] },
    ];
    assert(v@ =~= codepoint_table_145());
    v
}

pub open spec fn codepoint_table_146() -> Seq<Codepoint> {
    seq![
        Codepoint { codepoint: 0x1987, name: "NEW TAI LUE LETTER LOW NGA", aliases: &[] },
        Codepoint { codepoint: 0x1988, name: "NEW TAI LUE LETTER HIGH TSA", aliases: &[] },
        Codepoint { codepoint: 0x1989, name: "NEW TAI LUE LETTER HIGH SA", aliases: &[] },
        Codepoint { codepoint: 0x198A, name: "NEW TAI LUE LETTER HIGH YA", aliases: &[] },
        Codepoint { codepoint: 0x198B, name: "NEW TAI LUE LETTER LOW TSA", aliases: &[] },
        Codepoint { codepoint: 0x198C, name: "NEW TAI LUE LETTER LOW SA", aliases: &[] },
        Codepoint { codepoint: 0x198D, name: "NEW TAI LUE LETTER LOW YA", aliases: &[] },
        Codepoint { codepoint: 0x198E, name: "NEW TAI LUE LETTER HIGH TA", aliases: &[] },
        Codepoint { codepoint: 0x198F, name: "NEW TAI LUE LETTER HIGH THA", aliases: &[] },
        Codepoint { codepoint: 0x1990, name: "NEW TAI LUE LETTER HIGH NA", aliases: &[] },
        Codepoint { codepoint: 0x1991, name: "NEW TAI LUE LETTER LOW TA", aliases: &[] },
        Codepoint { codepoint: 0x1992, name: "NEW TAI LUE LETTER LOW THA", aliases: &[] },
        Codepoint { codepoint: 0x1993, name: "NEW TAI LUE LETTER LOW NA", aliases: &[] },
        Codepoint { codepoint: 0x1994, name: "NEW TAI LUE LETTER HIGH PA", aliases: &[] },
        Codepoint { codepoint: 0x1995, name: "NEW TAI LUE LETTER HIGH PHA", aliases: &[] },
        Codepoint { codepoint: 0x1996, name: "NEW TAI LUE LETTER HIGH MA", aliases: &[] },
        Codepoint { codepoint: 0x1997, name: "NEW TAI LUE LETTER LOW PA", aliases: &[] },
        Codepoint { codepoint: 0x1998, name: "NEW TAI LUE LETTER LOW PHA", aliases: &[] },
        Codepoint { codepoint: 0x1999, name: "NEW TAI LUE LETTER LOW MA", aliases: &[] },
        Codepoint { codepoint: 0x199A, name: "NEW TAI LUE LETTER HIGH FA", aliases: &[] },
        Codepoint { codepoint: 0x199B, name: "NEW TAI LUE LETTER HIGH VA", aliases: &[] },
        Codepoint { codepoint: 0x199C, name: "NEW TAI LUE LETTER HIGH LA", aliases: &[] },
        Codepoint { codepoint: 0x199D, name: "NEW TAI LUE LETTER LOW FA", aliases: &[] },
        Codepoint { codepoint: 0x199E, name: "NEW TAI LUE LETTER LOW VA", aliases: &[] },
        Codepoint { codepoint: 0x199F, name: "NEW TAI LUE LETTER LOW LA", aliases: &[] },
        Codepoint { codepoint: 0x19A0, name: "NEW TAI LUE LETTER HIGH HA", aliases: &[] },
        Codepoint { codepoint: 0x19A1, name: "NEW TAI LUE LETTER HIGH DA", aliases: &[] },
        Codepoint { codepoint: 0x19A2, name: "NEW TAI LUE LETTER HIGH BA", aliases: &[] },
        Codepoint { codepoint: 0x19A3, name: "NEW TAI LUE LETTER LOW HA", aliases: &[] },
        Codepoint { codepoint: 0x19A4, name: "NEW TAI LUE LETTER LOW DA", aliases: &[] },
        Codepoint { codepoint: 0x19A5, name: "NEW TAI LUE LETTER LOW BA", aliases: &[] },
        Codepoint { codepoint: 0x19A6, name: "NEW TAI LUE LETTER HIGH KVA", aliases: &[] },
        Codepoint { codepoint: 0x19A7, name: "NEW TAI LUE LETTER HIGH XVA", aliases: &[] },
        Codepoint { codepoint: 0x19A8, name: "NEW TAI LUE LETTER LOW KVA", aliases: &[] },
        Codepoint { codepoint: 0x19A9, name: "NEW TAI LUE LETTER LOW XVA", aliases: &[] },
        Codepoint { codepoint: 0x19AA, name: "NEW TAI LUE LETTER HIGH SUA", aliases: &[] },
        Codepoint { codepoint: 0x19AB, name: "NEW TAI LUE LETTER LOW SUA", aliases: &[] },
        Codepoint { codepoint: 0x19B0, name: "NEW TAI LUE VOWEL SIGN VOWEL SHORTENER", aliases: &[] },
        Codepoint { codepoint: 0x19B1, name: "NEW TAI LUE VOWEL SIGN AA", aliases: &[] },
        Codepoint { codepoint: 0x19B2, name: "NEW TAI LUE VOWEL SIGN II", aliases: &[] },
    ]
}

fn all_codepoints_146() -> (v: Vec<Codepoint>)
    ensures
        v@ == codepoint_table_146(),
{
    let v = vec![
        Codepoint { codepoint: 0x1987, name: "NEW TAI LUE LETTER LOW NGA", aliases: &[] },
        Codepoint { codepoint: 0x1988, name: "NEW TAI LUE LETTER HIGH TSA", aliases: &[] },
        Codepoint { codepoint: 0x1989, name: "NEW TAI LUE LETTER HIGH SA", aliases: &[] },
        Codepoint { codepoint: 0x198A, name: "NEW TAI LUE LETTER HIGH YA", aliases: &[] },
        Codepoint { codepoint: 0x198B, name: "NEW TAI LUE LETTER LOW TSA", aliases: &[] },
        Codepoint { codepoint: 0x198C, name: "NEW TAI LUE LETTER LOW SA", aliases: &[] },
        Codepoint { codepoint: 0x198D, name: "NEW TAI LUE LETTER LOW YA", aliases: &[] },
        Codepoint { codepoint: 0x198E, name: "NEW TAI LUE LETTER HIGH TA", aliases: &[] },
        Codepoint { codepoint: 0x198F, name: "NEW TAI LUE LETTER HIGH THA", aliases: &[] },
        Codepoint { codepoint: 0x1990, name: "NEW TAI LUE LETTER HIGH NA", aliases: &[] },
        Codepoint { codepoint: 0x1991, name: "NEW TAI LUE LETTER LOW TA", aliases: &[] },
        Codepoint { codepoint: 0x1992, name: "NEW TAI LUE LETTER LOW THA", aliases: &[] },
        Codepoint { codepoint: 0x1993, name: "NEW TAI LUE LETTER LOW NA", aliases: &[] },
        Codepoint { codepoint: 0x1994, name: "NEW TAI LUE LETTER HIGH PA", aliases: &[] },
        Codepoint { codepoint: 0x1995, name: "NEW TAI LUE LETTER HIGH PHA", aliases: &[] },
        Codepoint { codepoint: 0x1996, name: "NEW TAI LUE LETTER HIGH MA", aliases: &[] },
        Codepoint { codepoint: 0x1997, name: "NEW TAI LUE LETTER LOW PA", aliases: &[] },
        Codepoint { codepoint: 0x1998, name: "NEW TAI LUE LETTER LOW PHA", aliases: &[] },
        Codepoint { codepoint: 0x1999, name: "NEW TAI LUE LETTER LOW MA", aliases: &[] },
        Codepoint { codepoint: 0x199A, name: "NEW TAI LUE LETTER HIGH FA", aliases: &[] },
        Codepoint { codepoint: 0x199B, name: "NEW TAI LUE LETTER HIGH VA", aliases: &[] },
        Codepoint { codepoint: 0x199C, name: "NEW TAI LUE LETTER HIGH LA", aliases: &[] },
        Codepoint { codepoint: 0x199D, name: "NEW TAI LUE LETTER LOW FA", aliases: &[] },
        Codepoint { codepoint: 0x199E, name: "NEW TAI LUE LETTER LOW VA", aliases: &[] },
        Codepoint { codepoint: 0x199F, name: "NEW TAI LUE LETTER LOW LA", aliases: &[] },
        Codepoint { codepoint: 0x19A0, name: "NEW TAI LUE LETTER HIGH HA", aliases: &[] },
        Codepoint { codepoint: 0x19A1, name: "NEW TAI LUE LETTER HIGH DA", aliases: &[] },
        Codepoint { codepoint: 0x19A2, name: "NEW TAI LUE LETTER HIGH BA", aliases: &[] },
        Codepoint { codepoint: 0x19A3, name: "NEW TAI LUE LETTER LOW HA", aliases: &[] },
        Codepoint { codepoint: 0x19A4, name: "NEW TAI LUE LETTER LOW DA", aliases: &[] },
        Codepoint { codepoint: 0x19A5, name: "NEW TAI LUE LETTER LOW BA", aliases: &[] },
        Codepoint { codepoint: 0x19A6, name: "NEW TAI LUE LETTER HIGH KVA", aliases: &[] },
        Codepoint { codepoint: 0x19A7, name: "NEW TAI LUE LETTER HIGH XVA", aliases: &[] },
        Codepoint { codepoint: 0x19A8, name: "NEW TAI LUE LETTER LOW KVA", aliases: &[] },
        Codepoint { codepoint: 0x19A9, name: "NEW TAI LUE LETTER LOW XVA", aliases: &[] },
        Codepoint { codepoint: 0x19AA, name: "NEW TAI LUE LETTER HIGH SUA", aliases: &[] },
        Codepoint { codepoint: 0x19AB, name: "NEW TAI LUE LETTER LOW SUA", aliases: &[] },
        Codepoint { codepoint: 0x19B0, name: "NEW TAI LUE VOWEL SIGN VOWEL SHORTENER", aliases: &[] },
        Codepoint { codepoint: 0x19B1, name: "NEW TAI LUE VOWEL SIGN AA", aliases: &[] },
        Codepoint { codepoint: 0x19B2, name: "NEW TAI LUE VOWEL SIGN II", aliases: &[] },
    ];
    assert(v@ =~= codepoint_table_146());
    v
}

pub open spec fn codepoint_table_147() -> Seq<Codepoint> {
    seq![
        Codepoint { codepoint: 0x19B3, name: "NEW TAI LUE VOWEL SIGN U", aliases: &[] },
        Codepoint { codepoint: 0x19B4, name: "NEW TAI LUE VOWEL SIGN UU", aliases: &[] },
        Codepoint { codepoint: 0x19B5, name: "NEW TAI LUE VOWEL SIGN E", aliases: &[] },
        Codepoint { codepoint: 0x19B6, name: "NEW TAI LUE VOWEL SIGN AE", aliases: &[] },
        Codepoint { codepoint: 0x19B7, name: "NEW TAI LUE VOWEL SIGN O", aliases: &[] },
        Codepoint { codepoint: 0x19B8, name: "NEW TAI LUE VOWEL SIGN OA", aliases: &[] },
        Codepoint { codepoint: 0x19B9, name: "NEW TAI LUE VOWEL SIGN UE", aliases: &[] },
        Codepoint { codepoint: 0x19BA, name: "NEW TAI LUE VOWEL SIGN AY", aliases: &[] },
        Codepoint { codepoint: 0x19BB, name: "NEW TAI LUE VOWEL SIGN AAY", aliases: &[] },
        Codepoint { codepoint: 0x19BC, name: "NEW TAI LUE VOWEL SIGN UY", aliases: &[] },
        Codepoint { codepoint: 0x19BD, name: "NEW TAI LUE VOWEL SIGN OY", aliases: &[] },
        Codepoint { codepoint: 0x19BE, name: "NEW TAI LUE VOWEL SIGN OAY", aliases: &[] },
        Codepoint { codepoint: 0x19BF, name: "NEW TAI LUE VOWEL SIGN UEY", aliases: &[] },
        Codepoint { codepoint: 0x19C0, name: "NEW TAI LUE VOWEL SIGN IY", aliases: &[] },
        Codepoint { codepoint: 0x19C1, name: "NEW TAI LUE LETTER FINAL V", aliases: &[] },
        Codepoint { codepoint: 0x19C2, name: "NEW TAI LUE LETTER FINAL NG", aliases: &[] },
        Codepoint { codepoint: 0x19C3, name: "NEW TAI LUE LETTER FINAL N", aliases: &[] },
        Codepoint { codepoint: 0x19C4, name: "NEW TAI LUE LETTER FINAL M", aliases: &[] },
        Codepoint { codepoint: 0x19C5, name: "NEW TAI LUE LETTER FINAL K", aliases: &[] },
        Codepoint { codepoint: 0x19C6, name: "NEW TAI LUE LETTER FINAL D", aliases: &[] },
        Codepoint { codepoint: 0x19C7, name: "NEW TAI LUE LETTER FINAL B", aliases: &[] },
        Codepoint { codepoint: 0x19C8, name: "NEW TAI LUE TONE MARK-1", aliases: &[] },
        Codepoint { codepoint: 0x19C9, name: "NEW TAI LUE TONE MARK-2", aliases: &[] },
        Codepoint { codepoint: 0x19D0, name: "NEW TAI LUE DIGIT ZERO", aliases: &[] },
        Codepoint { codepoint: 0x19D1, name: "NEW TAI LUE DIGIT ONE", aliases: &[] },
        Codepoint { codepoint: 0x19D2, name: "NEW TAI LUE DIGIT TWO", aliases: &[] },
        Codepoint { codepoint: 0x19D3, name: "NEW TAI LUE DIGIT THREE", aliases: &[] },
        Codepoint { codepoint: 0x19D4, name: "NEW TAI LUE DIGIT FOUR", aliases: &[] },
        Codepoint { codepoint: 0x19D5, name: "NEW TAI LUE DIGIT FIVE", aliases: &[] },
        Codepoint { codepoint: 0x19D6, name: "NEW TAI LUE DIGIT SIX", aliases: &[] },
        Codepoint { codepoint: 0x19D7, name: "NEW TAI LUE DIGIT SEVEN", aliases: &[] },
        Codepoint { codepoint: 0x19D8, name: "NEW TAI LUE DIGIT EIGHT", aliases: &[] },
        Codepoint { codepoint: 0x19D9, name: "NEW TAI LUE DIGIT NINE", aliases: &[] },
        Codepoint { codepoint: 0x19DA, name: "NEW TAI LUE THAM DIGIT ONE", aliases: &[] },
        Codepoint { codepoint: 0x19DE, name: "NEW TAI LUE SIGN LAE", aliases: &[] },
        Codepoint { codepoint: 0x19DF, name: "NEW TAI LUE SIGN LAEV", aliases: &[] },
        Codepoint { codepoint: 0x19E0, name: "KHMER SYMBOL PATHAMASAT", aliases: &[] },
        Codepoint { codepoint: 0x19E1, name: "KHMER SYMBOL MUOY KOET", aliases: &[] },
        Codepoint { codepoint: 0x19E2, name: "KHMER SYMBOL PII KOET", aliases: &[] },
        Codepoint { codepoint: 0x19E3, name: "KHMER SYMBOL BEI KOET", aliases: &[] },
    ]
}

fn all_codepoints_147() -> (v: Vec<Codepoint>)
    ensures
        v@ == codepoint_table_147(),
{
    let v = vec![
        Codepoint { codepoint: 0x19B3, name: "NEW TAI LUE VOWEL SIGN U", aliases: &[] },
        Codepoint { codepoint: 0x19B4, name: "NEW TAI LUE VOWEL SIGN UU", aliases: &[] },
        Codepoint { codepoint: 0x19B5, name: "NEW TAI LUE VOWEL SIGN E", aliases: &[] },
        Codepoint { codepoint: 0x19B6, name: "NEW TAI LUE VOWEL SIGN AE", aliases: &[] },
        Codepoint { codepoint: 0x19B7, name: "NEW TAI LUE VOWEL SIGN O", aliases: &[] },
        Codepoint { codepoint: 0x19B8, name: "NEW TAI LUE VOWEL SIGN OA", aliases: &[] },
        Codepoint { codepoint: 0x19B9, name: "NEW TAI LUE VOWEL SIGN UE", aliases: &[] },
        Codepoint { codepoint: 0x19BA, name: "NEW TAI LUE VOWEL SIGN AY", aliases: &[] },
        Codepoint { codepoint: 0x19BB, name: "NEW TAI LUE VOWEL SIGN AAY", aliases: &[] },
        Codepoint { codepoint: 0x19BC, name: "NEW TAI LUE VOWEL SIGN UY", aliases: &[] },
        Codepoint { codepoint: 0x19BD, name: "NEW TAI LUE VOWEL SIGN OY", aliases: &[] },
        Codepoint { codepoint: 0x19BE, name: "NEW TAI LUE VOWEL SIGN OAY", aliases: &[] },
        Codepoint { codepoint: 0x19BF, name: "NEW TAI LUE VOWEL SIGN UEY", aliases: &[] },
        Codepoint { codepoint: 0x19C0, name: "NEW TAI LUE VOWEL SIGN IY", aliases: &[] },
        Codepoint { codepoint: 0x19C1, name: "NEW TAI LUE LETTER FINAL V", aliases: &[] },
        Codepoint { codepoint: 0x19C2, name: "NEW TAI LUE LETTER FINAL NG", aliases: &[] },
        Codepoint { codepoint: 0x19C3, name: "NEW TAI LUE LETTER FINAL N", aliases: &[] },
        Codepoint { codepoint: 0x19C4, name: "NEW TAI LUE LETTER FINAL M", aliases: &[] },
        Codepoint { codepoint: 0x19C5, name: "NEW TAI LUE LETTER FINAL K", aliases: &[] },
        Codepoint { codepoint: 0x19C6, name: "NEW TAI LUE LETTER FINAL D", aliases: &[] },
        Codepoint { codepoint: 0x19C7, name: "NEW TAI LUE LETTER FINAL B", aliases: &[] },
        Codepoint { codepoint: 0x19C8, name: "NEW TAI LUE TONE MARK-1", aliases: &[] },
        Codepoint { codepoint: 0x19C9, name: "NEW TAI LUE TONE MARK-2", aliases: &[] },
        Codepoint { codepoint: 0x19D0, name: "NEW TAI LUE DIGIT ZERO", aliases: &[] },
        Codepoint { codepoint: 0x19D1, name: "NEW TAI LUE DIGIT ONE", aliases: &[] },
        Codepoint { codepoint: 0x19D2, name: "NEW TAI LUE DIGIT TWO", aliases: &[] },
        Codepoint { codepoint: 0x19D3, name: "NEW TAI LUE DIGIT THREE", aliases: &[] },
        Codepoint { codepoint: 0x19D4, name: "NEW TAI LUE DIGIT FOUR", aliases: &[] },
        Codepoint { codepoint: 0x19D5, name: "NEW TAI LUE DIGIT FIVE", aliases: &[] },
        Codepoint { codepoint: 0x19D6, name: "NEW TAI LUE DIGIT SIX", aliases: &[] },
        Codepoint { codepoint: 0x19D7, name: "NEW TAI LUE DIGIT SEVEN", aliases: &[] },
        Codepoint { codepoint: 0x19D8, name: "NEW TAI LUE DIGIT EIGHT", aliases: &[] },
        Codepoint { codepoint: 0x19D9, name: "NEW TAI LUE DIGIT NINE", aliases: &[] },
        Codepoint { codepoint: 0x19DA, name: "NEW TAI LUE THAM DIGIT ONE", aliases: &[] },
        Codepoint { codepoint: 0x19DE, name: "NEW TAI LUE SIGN LAE", aliases: &[] },
        Codepoint { codepoint: 0x19DF, name: "NEW TAI LUE SIGN LAEV", aliases: &[] },
        Codepoint { codepoint: 0x19E0, name: "KHMER SYMBOL PATHAMASAT", aliases: &[] },
        Codepoint { codepoint: 0x19E1, name: "KHMER SYMBOL MUOY KOET", aliases: &[] },
        Codepoint { codepoint: 0x19E2, name: "KHMER SYMBOL PII KOET", aliases: &[] },
        Codepoint { codepoint: 0x19E3, name: "KHMER SYMBOL BEI KOET", aliases: &[] },
    ];
    assert(v@ =~= codepoint_table_147());
    v
}

pub open spec fn codepoint_table_148() -> Seq<Codepoint> {
    seq![
        Codepoint { codepoint: 0x19E4, name: "KHMER SYMBOL BUON KOET", aliases: &[] },
        Codepoint { codepoint: 0x19E5, name: "KHMER SYMBOL PRAM KOET", aliases: &[] },
        Codepoint { codepoint: 0x19E6, name: "KHMER SYMBOL PRAM-MUOY KOET", aliases: &[] },
        Codepoint { codepoint: 0x19E7, name: "KHMER SYMBOL PRAM-PII KOET", aliases: &[] },
        Codepoint { codepoint: 0x19E8, name: "KHMER SYMBOL PRAM-BEI KOET", aliases: &[] },
        Codepoint { codepoint: 0x19E9, name: "KHMER SYMBOL PRAM-BUON KOET", aliases: &[] },
        Codepoint { codepoint: 0x19EA, name: "KHMER SYMBOL DAP KOET", aliases: &[] },
        Codepoint { codepoint: 0x19EB, name: "KHMER SYMBOL DAP-MUOY KOET", aliases: &[] },
        Codepoint { codepoint: 0x19EC, name: "KHMER SYMBOL DAP-PII KOET", aliases: &[] },
        Codepoint { codepoint: 0x19ED, name: "KHMER SYMBOL DAP-BEI KOET", aliases: &[] },
        Codepoint { codepoint: 0x19EE, name: "KHMER SYMBOL DAP-BUON KOET", aliases: &[] },
        Codepoint { codepoint: 0x19EF, name: "KHMER SYMBOL DAP-PRAM KOET", aliases: &[] },
        Codepoint { codepoint: 0x19F0, name: "KHMER SYMBOL TUTEYASAT", aliases: &[] },
        Codepoint { codepoint: 0x19F1, name: "KHMER SYMBOL MUOY ROC", aliases: &[] },
        Codepoint { codepoint: 0x19F2, name: "KHMER SYMBOL PII ROC", aliases: &[] },
        Codepoint { codepoint: 0x19F3, name: "KHMER SYMBOL BEI ROC", aliases: &[] },
        Codepoint { codepoint: 0x19F4, name: "KHMER SYMBOL BUON ROC", aliases: &[] },
        Codepoint { codepoint: 0x19F5, name: "KHMER SYMBOL PRAM ROC", aliases: &[] },
        Codepoint { codepoint: 0x19F6, name: "KHMER SYMBOL PRAM-MUOY ROC", aliases: &[] },
        Codepoint { codepoint: 0x19F7, name: "KHMER SYMBOL PRAM-PII ROC", aliases: &[] },
        Codepoint { codepoint: 0x19F8, name: "KHMER SYMBOL PRAM-BEI ROC", aliases: &[] },
        Codepoint { codepoint: 0x19F9, name: "KHMER SYMBOL PRAM-BUON ROC", aliases: &[] },
        Codepoint { codepoint: 0x19FA, name: "KHMER SYMBOL DAP ROC", aliases: &[] },
        Codepoint { codepoint: 0x19FB, name: "KHMER SYMBOL DAP-MUOY ROC", aliases: &[] },
        Codepoint { codepoint: 0x19FC, name: "KHMER SYMBOL DAP-PII ROC", aliases: &[] },
        Codepoint { codepoint: 0x19FD, name: "KHMER SYMBOL DAP-BEI ROC", aliases: &[] },
        Codepoint { codepoint: 0x19FE, name: "KHMER SYMBOL DAP-BUON ROC", aliases: &[] },
        Codepoint { codepoint: 0x19FF, name: "KHMER SYMBOL DAP-PRAM ROC", aliases: &[] },
        Codepoint { codepoint: 0x1A00, name: "BUGINESE LETTER KA", aliases: &[] },
        Codepoint { codepoint: 0x1A01, name: "BUGINESE LETTER GA", aliases: &[] },
        Codepoint { codepoint: 0x1A02, name: "BUGINESE LETTER NGA", aliases: &[] },
        Codepoint { codepoint: 0x1A03, name: "BUGINESE LETTER NGKA", aliases: &[] },
        Codepoint { codepoint: 0x1A04, name: "BUGINESE LETTER PA", aliases: &[] },
        Codepoint { codepoint: 0x1A05, name: "BUGINESE LETTER BA", aliases: &[] },
        Codepoint { codepoint: 0x1A06, name: "BUGINESE LETTER MA", aliases: &[] },
        Codepoint { codepoint: 0x1A07, name: "BUGINESE LETTER MPA", aliases: &[] },
        Codepoint { codepoint: 0x1A08, name: "BUGINESE LETTER TA", aliases: &[] },
        Codepoint { codepoint: 0x1A09, name: "BUGINESE LETTER DA", aliases: &[] },
        Codepoint { codepoint: 0x1A0A, name: "BUGINESE LETTER NA", aliases: &[] },
        Codepoint { codepoint: 0x1A0B, name: "BUGINESE LETTER NRA", aliases: &[] },
    ]
}

fn all_codepoints_148() -> (v: Vec<Codepoint>)
    ensures
        v@ == codepoint_table_148(),
{
    let v = vec![
        Codepoint { codepoint: 0x19E4, name: "KHMER SYMBOL BUON KOET", aliases: &[] },
        Codepoint { codepoint: 0x19E5, name: "KHMER SYMBOL PRAM KOET", aliases: &[] },
        Codepoint { codepoint: 0x19E6, name: "KHMER SYMBOL PRAM-MUOY KOET", aliases: &[] },
        Codepoint { codepoint: 0x19E7, name: "KHMER SYMBOL PRAM-PII KOET", aliases: &[] },
        Codepoint { codepoint: 0x19E8, name: "KHMER SYMBOL PRAM-BEI KOET", aliases: &[] },
        Codepoint { codepoint: 0x19E9, name: "KHMER SYMBOL PRAM-BUON KOET", aliases: &[] },
        Codepoint { codepoint: 0x19EA, name: "KHMER SYMBOL DAP KOET", aliases: &[] },
        Codepoint { codepoint: 0x19EB, name: "KHMER SYMBOL DAP-MUOY KOET", aliases: &[] },
        Codepoint { codepoint: 0x19EC, name: "KHMER SYMBOL DAP-PII KOET", aliases: &[] },
        Codepoint { codepoint: 0x19ED, name: "KHMER SYMBOL DAP-BEI KOET", aliases: &[] },
        Codepoint { codepoint: 0x19EE, name: "KHMER SYMBOL DAP-BUON KOET", aliases: &[] },
        Codepoint { codepoint: 0x19EF, name: "KHMER SYMBOL DAP-PRAM KOET", aliases: &[] },
        Codepoint { codepoint: 0x19F0, name: "KHMER SYMBOL TUTEYASAT", aliases: &[] },
        Codepoint { codepoint: 0x19F1, name: "KHMER SYMBOL MUOY ROC", aliases: &[] },
        Codepoint { codepoint: 0x19F2, name: "KHMER SYMBOL PII ROC", aliases: &[] },
        Codepoint { codepoint: 0x19F3, name: "KHMER SYMBOL BEI ROC", aliases: &[] },
        Codepoint { codepoint: 0x19F4, name: "KHMER SYMBOL BUON ROC", aliases: &[] },
        Codepoint { codepoint: 0x19F5, name: "KHMER SYMBOL PRAM ROC", aliases: &[] },
        Codepoint { codepoint: 0x19F6, name: "KHMER SYMBOL PRAM-MUOY ROC", aliases: &[] },
        Codepoint { codepoint: 0x19F7, name: "KHMER SYMBOL PRAM-PII ROC", aliases: &[] },
        Codepoint { codepoint: 0x19F8, name: "KHMER SYMBOL PRAM-BEI ROC", aliases: &[] },
        Codepoint { codepoint: 0x19F9, name: "KHMER SYMBOL PRAM-BUON ROC", aliases: &[] },
        Codepoint { codepoint: 0x19FA, name: "KHMER SYMBOL DAP ROC", aliases: &[] },
        Codepoint { codepoint: 0x19FB, name: "KHMER SYMBOL DAP-MUOY ROC", aliases: &[] },
        Codepoint { codepoint: 0x19FC, name: "KHMER SYMBOL DAP-PII ROC", aliases: &[] },
        Codepoint { codepoint: 0x19FD, name: "KHMER SYMBOL DAP-BEI ROC", aliases: &[] },
        Codepoint { codepoint: 0x19FE, name: "KHMER SYMBOL DAP-BUON ROC", aliases: &[] },
        Codepoint { codepoint: 0x19FF, name: "KHMER SYMBOL DAP-PRAM ROC", aliases: &[] },
        Codepoint { codepoint: 0x1A00, name: "BUGINESE LETTER KA", aliases: &[] },
        Codepoint { codepoint: 0x1A01, name: "BUGINESE LETTER GA", aliases: &[] },
        Codepoint { codepoint: 0x1A02, name: "BUGINESE LETTER NGA", aliases: &[] },
        Codepoint { codepoint: 0x1A03, name: "BUGINESE LETTER NGKA", aliases: &[] },
        Codepoint { codepoint: 0x1A04, name: "BUGINESE LETTER PA", aliases: &[] },
        Codepoint { codepoint: 0x1A05, name: "BUGINESE LETTER BA", aliases: &[] },
        Codepoint { codepoint: 0x1A06, name: "BUGINESE LETTER MA", aliases: &[] },
        Codepoint { codepoint: 0x1A07, name: "BUGINESE LETTER MPA", aliases: &[] },
        Codepoint { codepoint: 0x1A08, name: "BUGINESE LETTER TA", aliases: &[] },
        Codepoint { codepoint: 0x1A09, name: "BUGINESE LETTER DA", aliases: &[] },
        Codepoint { codepoint: 0x1A0A, name: "BUGINESE LETTER NA", aliases: &[] },
        Codepoint { codepoint: 0x1A0B, name: "BUGINESE LETTER NRA", aliases: &[] },
    ];
    assert(v@ =~= codepoint_table_148());
    v
}

pub open spec fn codepoint_table_149() -> Seq<Codepoint> {
    seq![
        Codepoint { codepoint: 0x1A0C, name: "BUGINESE LETTER CA", aliases: &[] },
        Codepoint { codepoint: 0x1A0D, name: "BUGINESE LETTER JA", aliases: &[] },
        Codepoint { codepoint: 0x1A0E, name: "BUGINESE LETTER NYA", aliases: &[] },
        Codepoint { codepoint: 0x1A0F, name: "BUGINESE LETTER NYCA", aliases: &[] },
        Codepoint { codepoint: 0x1A10, name: "BUGINESE LETTER YA", aliases: &[] },
        Codepoint { codepoint: 0x1A11, name: "BUGINESE LETTER RA", aliases: &[] },
        Codepoint { codepoint: 0x1A12, name: "BUGINESE LETTER LA", aliases: &[] },
        Codepoint { codepoint: 0x1A13, name: "BUGINESE LETTER VA", aliases: &[] },
        Codepoint { codepoint: 0x1A14, name: "BUGINESE LETTER SA", aliases: &[] },
        Codepoint { codepoint: 0x1A15, name: "BUGINESE LETTER A", aliases: &[] },
        Codepoint { codepoint: 0x1A16, name: "BUGINESE LETTER HA", aliases: &[] },
        Codepoint { codepoint: 0x1A17, name: "BUGINESE VOWEL SIGN I", aliases: &[] },
        Codepoint { codepoint: 0x1A18, name: "BUGINESE VOWEL SIGN U", aliases: &[] },
        Codepoint { codepoint: 0x1A19, name: "BUGINESE VOWEL SIGN E", aliases: &[] },
        Codepoint { codepoint: 0x1A1A, name: "BUGINESE VOWEL SIGN O", aliases: &[] },
        Codepoint { codepoint: 0x1A1B, name: "BUGINESE VOWEL SIGN AE", aliases: &[] },
        Codepoint { codepoint: 0x1A1E, name: "BUGINESE PALLAWA", aliases: &[] },
        Codepoint { codepoint: 0x1A1F, name: "BUGINESE END OF SECTION", aliases: &[] },
        Codepoint { codepoint: 0x1A20, name: "TAI THAM LETTER HIGH KA", aliases: &[] },
        Codepoint { codepoint: 0x1A21, name: "TAI THAM LETTER HIGH KHA", aliases: &[] },
        Codepoint { codepoint: 0x1A22, name: "TAI THAM LETTER HIGH KXA", aliases: &[] },
        Codepoint { codepoint: 0x1A23, name: "TAI THAM LETTER LOW KA", aliases: &[] },
        Codepoint { codepoint: 0x1A24, name: "TAI THAM LETTER LOW KXA", aliases: &[] },
        Codepoint { codepoint: 0x1A25, name: "TAI THAM LETTER LOW KHA", aliases: &[] },
        Codepoint { codepoint: 0x1A26, name: "TAI THAM LETTER NGA", aliases: &[] },
        Codepoint { codepoint: 0x1A27, name: "TAI THAM LETTER HIGH CA", aliases: &[] },
        Codepoint { codepoint: 0x1A28, name: "TAI THAM LETTER HIGH CHA", aliases: &[] },
        Codepoint { codepoint: 0x1A29, name: "TAI THAM LETTER LOW CA", aliases: &[] },
        Codepoint { codepoint: 0x1A2A, name: "TAI THAM LETTER LOW SA", aliases: &[] },
        Codepoint { codepoint: 0x1A2B, name: "TAI THAM LETTER LOW CHA", aliases: &[] },
        Codepoint { codepoint: 0x1A2C, name: "TAI THAM LETTER NYA", aliases: &[] },
        Codepoint { codepoint: 0x1A2D, name: "TAI THAM LETTER RATA", aliases: &[] },
        Codepoint { codepoint: 0x1A2E, name: "TAI THAM LETTER HIGH RATHA", aliases: &[] },
        Codepoint { codepoint: 0x1A2F, name: "TAI THAM LETTER DA", aliases: &[] },
        Codepoint { codepoint: 0x1A30, name: "TAI THAM LETTER LOW RATHA", aliases: &[] },
        Codepoint { codepoint: 0x1A31, name: "TAI THAM LETTER RANA", aliases: &[] },
        Codepoint { codepoint: 0x1A32, name: "TAI THAM LETTER HIGH TA", aliases: &[] },
        Codepoint { codepoint: 0x1A33, name: "TAI THAM LETTER HIGH THA", aliases: &[] },
        Codepoint { codepoint: 0x1A34, name: "TAI THAM LETTER LOW TA", aliases: &[] },
        Codepoint { codepoint: 0x1A35, name: "TAI THAM LETTER LOW THA", aliases: &[] },
    ]
}

fn all_codepoints_149() -> (v: Vec<Codepoint>)
    ensures
        v@ == codepoint_table_149(),
{
    let v = vec![
        Codepoint { codepoint: 0x1A0C, name: "BUGINESE LETTER CA", aliases: &[] },
        Codepoint { codepoint: 0x1A0D, name: "BUGINESE LETTER JA", aliases: &[] },
        Codepoint { codepoint: 0x1A0E, name: "BUGINESE LETTER NYA", aliases: &[] },
        Codepoint { codepoint: 0x1A0F, name: "BUGINESE LETTER NYCA", aliases: &[] },
        Codepoint { codepoint: 0x1A10, name: "BUGINESE LETTER YA", aliases: &[] },
        Codepoint { codepoint: 0x1A11, name: "BUGINESE LETTER RA", aliases: &[] },
        Codepoint { codepoint: 0x1A12, name: "BUGINESE LETTER LA", aliases: &[] },
        Codepoint { codepoint: 0x1A13, name: "BUGINESE LETTER VA", aliases: &[] },
        Codepoint { codepoint: 0x1A14, name: "BUGINESE LETTER SA", aliases: &[] },
        Codepoint { codepoint: 0x1A15, name: "BUGINESE LETTER A", aliases: &[] },
        Codepoint { codepoint: 0x1A16, name: "BUGINESE LETTER HA", aliases: &[] },
        Codepoint { codepoint: 0x1A17, name: "BUGINESE VOWEL SIGN I", aliases: &[] },
        Codepoint { codepoint: 0x1A18, name: "BUGINESE VOWEL SIGN U", aliases: &[] },
        Codepoint { codepoint: 0x1A19, name: "BUGINESE VOWEL SIGN E", aliases: &[] },
        Codepoint { codepoint: 0x1A1A, name: "BUGINESE VOWEL SIGN O", aliases: &[] },
        Codepoint { codepoint: 0x1A1B, name: "BUGINESE VOWEL SIGN AE", aliases: &[] },
        Codepoint { codepoint: 0x1A1E, name: "BUGINESE PALLAWA", aliases: &[] },
        Codepoint { codepoint: 0x1A1F, name: "BUGINESE END OF SECTION", aliases: &[] },
        Codepoint { codepoint: 0x1A20, name: "TAI THAM LETTER HIGH KA", aliases: &[] },
        Codepoint { codepoint: 0x1A21, name: "TAI THAM LETTER HIGH KHA", aliases: &[] },
        Codepoint { codepoint: 0x1A22, name: "TAI THAM LETTER HIGH KXA", aliases: &[] },
        Codepoint { codepoint: 0x1A23, name: "TAI THAM LETTER LOW KA", aliases: &[] },
        Codepoint { codepoint: 0x1A24, name: "TAI THAM LETTER LOW KXA", aliases: &[] },
        Codepoint { codepoint: 0x1A25, name: "TAI THAM LETTER LOW KHA", aliases: &[] },
        Codepoint { codepoint: 0x1A26, name: "TAI THAM LETTER NGA", aliases: &[] },
        Codepoint { codepoint: 0x1A27, name: "TAI THAM LETTER HIGH CA", aliases: &[] },
        Codepoint { codepoint: 0x1A28, name: "TAI THAM LETTER HIGH CHA", aliases: &[] },
        Codepoint { codepoint: 0x1A29, name: "TAI THAM LETTER LOW CA", aliases: &[] },
        Codepoint { codepoint: 0x1A2A, name: "TAI THAM LETTER LOW SA", aliases: &[] },
        Codepoint { codepoint: 0x1A2B, name: "TAI THAM LETTER LOW CHA", aliases: &[] },
        Codepoint { codepoint: 0x1A2C, name: "TAI THAM LETTER NYA", aliases: &[] },
        Codepoint { codepoint: 0x1A2D, name: "TAI THAM LETTER RATA", aliases: &[] },
        Codepoint { codepoint: 0x1A2E, name: "TAI THAM LETTER HIGH RATHA", aliases: &[] },
        Codepoint { codepoint: 0x1A2F, name: "TAI THAM LETTER DA", aliases: &[] },
        Codepoint { codepoint: 0x1A30, name: "TAI THAM LETTER LOW RATHA", aliases: &[] },
        Codepoint { codepoint: 0x1A31, name: "TAI THAM LETTER RANA", aliases: &[] },
        Codepoint { codepoint: 0x1A32, name: "TAI THAM LETTER HIGH TA", aliases: &[] },
        Codepoint { codepoint: 0x1A33, name: "TAI THAM LETTER HIGH THA", aliases: &[] },
        Codepoint { codepoint: 0x1A34, name: "TAI THAM LETTER LOW TA", aliases: &[] },
        Codepoint { codepoint: 0x1A35, name: "TAI THAM LETTER LOW THA", aliases: &[] },
    ];
    assert(v@ =~= codepoint_table_149());
    v
}

pub open spec fn codepoint_table_150() -> Seq<Codepoint> {
    seq![
        Codepoint { codepoint: 0x1A36, name: "TAI THAM LETTER NA", aliases: &[] },
        Codepoint { codepoint: 0x1A37, name: "TAI THAM LETTER BA", aliases: &[] },
        Codepoint { codepoint: 0x1A38, name: "TAI THAM LETTER HIGH PA", aliases: &[] },
        Codepoint { codepoint: 0x1A39, name: "TAI THAM LETTER HIGH PHA", aliases: &[] },
        Codepoint { codepoint: 0x1A3A, name: "TAI THAM LETTER HIGH FA", aliases: &[] },
        Codepoint { codepoint: 0x1A3B, name: "TAI THAM LETTER LOW PA", aliases: &[] },
        Codepoint { codepoint: 0x1A3C, name: "TAI THAM LETTER LOW FA", aliases: &[] },
        Codepoint { codepoint: 0x1A3D, name: "TAI THAM LETTER LOW PHA", aliases: &[] },
        Codepoint { codepoint: 0x1A3E, name: "TAI THAM LETTER MA", aliases: &[] },
        Codepoint { codepoint: 0x1A3F, name: "TAI THAM LETTER LOW YA", aliases: &[] },
        Codepoint { codepoint: 0x1A40, name: "TAI THAM LETTER HIGH YA", aliases: &[] },
        Codepoint { codepoint: 0x1A41, name: "TAI THAM LETTER RA", aliases: &[] },
        Codepoint { codepoint: 0x1A42, name: "TAI THAM LETTER RUE", aliases: &[] },
        Codepoint { codepoint: 0x1A43, name: "TAI THAM LETTER LA", aliases: &[] },
        Codepoint { codepoint: 0x1A44, name: "TAI THAM LETTER LUE", aliases: &[] },
        Codepoint { codepoint: 0x1A45, name: "TAI THAM LETTER WA", aliases: &[] },
        Codepoint { codepoint: 0x1A46, name: "TAI THAM LETTER HIGH SHA", aliases: &[] },
        Codepoint { codepoint: 0x1A47, name: "TAI THAM LETTER HIGH SSA", aliases: &[] },
        Codepoint { codepoint: 0x1A48, name: "TAI THAM LETTER HIGH SA", aliases: &[] },
        Codepoint { codepoint: 0x1A49, name: "TAI THAM LETTER HIGH HA", aliases: &[] },
        Codepoint { codepoint: 0x1A4A, name: "TAI THAM LETTER LLA", aliases: &[] },
        Codepoint { codepoint: 0x1A4B, name: "TAI THAM LETTER A", aliases: &[] },
        Codepoint { codepoint: 0x1A4C, name: "TAI THAM LETTER LOW HA", aliases: &[] },
        Codepoint { codepoint: 0x1A4D, name: "TAI THAM LETTER I", aliases: &[] },
        Codepoint { codepoint: 0x1A4E, name: "TAI THAM LETTER II", aliases: &[] },
        Codepoint { codepoint: 0x1A4F, name: "TAI THAM LETTER U", aliases: &[] },
        Codepoint { codepoint: 0x1A50, name: "TAI THAM LETTER UU", aliases: &[] },
        Codepoint { codepoint: 0x1A51, name: "TAI THAM LETTER EE", aliases: &[] },
        Codepoint { codepoint: 0x1A52, name: "TAI THAM LETTER OO", aliases: &[] },
        Codepoint { codepoint: 0x1A53, name: "TAI THAM LETTER LAE", aliases: &[] },
        Codepoint { codepoint: 0x1A54, name: "TAI THAM LETTER GREAT SA", aliases: &[] },
        Codepoint { codepoint: 0x1A55, name: "TAI THAM CONSONANT SIGN MEDIAL RA", aliases: &[] },
        Codepoint { codepoint: 0x1A56, name: "TAI THAM CONSONANT SIGN MEDIAL LA", aliases: &[] },
        Codepoint { codepoint: 0x1A57, name: "TAI THAM CONSONANT SIGN LA TANG LAI", aliases: &[] },
        Codepoint { codepoint: 0x1A58, name: "TAI THAM SIGN MAI KANG LAI", aliases: &[] },
        Codepoint { codepoint: 0x1A59, name: "TAI THAM CONSONANT SIGN FINAL NGA", aliases: &[] },
        Codepoint { codepoint: 0x1A5A, name: "TAI THAM CONSONANT SIGN LOW PA", aliases: &[] },
        Codepoint { codepoint: 0x1A5B, name: "TAI THAM CONSONANT SIGN HIGH RATHA OR LOW PA", aliases: &[] },
        Codepoint { codepoint: 0x1A5C, name: "TAI THAM CONSONANT SIGN MA", aliases: &[] },
        Codepoint { codepoint: 0x1A5D, name: "TAI THAM CONSONANT SIGN BA", aliases: &[] },
    ]
}

fn all_codepoints_150() -> (v: Vec<Codepoint>)
    ensures
        v@ == codepoint_table_150(),
{
    let v = vec![
        Codepoint { codepoint: 0x1A36, name: "TAI THAM LETTER NA", aliases: &[] },
        Codepoint { codepoint: 0x1A37, name: "TAI THAM LETTER BA", aliases: &[] },
        Codepoint { codepoint: 0x1A38, name: "TAI THAM LETTER HIGH PA", aliases: &[] },
        Codepoint { codepoint: 0x1A39, name: "TAI THAM LETTER HIGH PHA", aliases: &[] },
        Codepoint { codepoint: 0x1A3A, name: "TAI THAM LETTER HIGH FA", aliases: &[] },
        Codepoint { codepoint: 0x1A3B, name: "TAI THAM LETTER LOW PA", aliases: &[] },
        Codepoint { codepoint: 0x1A3C, name: "TAI THAM LETTER LOW FA", aliases: &[] },
        Codepoint { codepoint: 0x1A3D, name: "TAI THAM LETTER LOW PHA", aliases: &[] },
        Codepoint { codepoint: 0x1A3E, name: "TAI THAM LETTER MA", aliases: &[] },
        Codepoint { codepoint: 0x1A3F, name: "TAI THAM LETTER LOW YA", aliases: &[] },
        Codepoint { codepoint: 0x1A40, name: "TAI THAM LETTER HIGH YA", aliases: &[] },
        Codepoint { codepoint: 0x1A41, name: "TAI THAM LETTER RA", aliases: &[] },
        Codepoint { codepoint: 0x1A42, name: "TAI THAM LETTER RUE", aliases: &[] },
        Codepoint { codepoint: 0x1A43, name: "TAI THAM LETTER LA", aliases: &[] },
        Codepoint { codepoint: 0x1A44, name: "TAI THAM LETTER LUE", aliases: &[] },
        Codepoint { codepoint: 0x1A45, name: "TAI THAM LETTER WA", aliases: &[] },
        Codepoint { codepoint: 0x1A46, name: "TAI THAM LETTER HIGH SHA", aliases: &[] },
        Codepoint { codepoint: 0x1A47, name: "TAI THAM LETTER HIGH SSA", aliases: &[] },
        Codepoint { codepoint: 0x1A48, name: "TAI THAM LETTER HIGH SA", aliases: &[] },
        Codepoint { codepoint: 0x1A49, name: "TAI THAM LETTER HIGH HA", aliases: &[] },
        Codepoint { codepoint: 0x1A4A, name: "TAI THAM LETTER LLA", aliases: &[] },
        Codepoint { codepoint: 0x1A4B, name: "TAI THAM LETTER A", aliases: &[] },
        Codepoint { codepoint: 0x1A4C, name: "TAI THAM LETTER LOW HA", aliases: &[] },
        Codepoint { codepoint: 0x1A4D, name: "TAI THAM LETTER I", aliases: &[] },
        Codepoint { codepoint: 0x1A4E, name: "TAI THAM LETTER II", aliases: &[] },
        Codepoint { codepoint: 0x1A4F, name: "TAI THAM LETTER U", aliases: &[] },
        Codepoint { codepoint: 0x1A50, name: "TAI THAM LETTER UU", aliases: &[] },
        Codepoint { codepoint: 0x1A51, name: "TAI THAM LETTER EE", aliases: &[] },
        Codepoint { codepoint: 0x1A52, name: "TAI THAM LETTER OO", aliases: &[] },
        Codepoint { codepoint: 0x1A53, name: "TAI THAM LETTER LAE", aliases: &[] },
        Codepoint { codepoint: 0x1A54, name: "TAI THAM LETTER GREAT SA", aliases: &[] },
        Codepoint { codepoint: 0x1A55, name: "TAI THAM CONSONANT SIGN MEDIAL RA", aliases: &[] },
        Codepoint { codepoint: 0x1A56, name: "TAI THAM CONSONANT SIGN MEDIAL LA", aliases: &[] },
        Codepoint { codepoint: 0x1A57, name: "TAI THAM CONSONANT SIGN LA TANG LAI", aliases: &[] },
        Codepoint { codepoint: 0x1A58, name: "TAI THAM SIGN MAI KANG LAI", aliases: &[] },
        Codepoint { codepoint: 0x1A59, name: "TAI THAM CONSONANT SIGN FINAL NGA", aliases: &[] },
        Codepoint { codepoint: 0x1A5A, name: "TAI THAM CONSONANT SIGN LOW PA", aliases: &[] },
        Codepoint { codepoint: 0x1A5B, name: "TAI THAM CONSONANT SIGN HIGH RATHA OR LOW PA", aliases: &[] },
        Codepoint { codepoint: 0x1A5C, name: "TAI THAM CONSONANT SIGN MA", aliases: &[] },
        Codepoint { codepoint: 0x1A5D, name: "TAI THAM CONSONANT SIGN BA", aliases: &[] },
    ];
    assert(v@ =~= codepoint_table_150());
    v
}

pub open spec fn codepoint_table_151() -> Seq<Codepoint> {
    seq![
        Codepoint { codepoint: 0x1A5E, name: "TAI THAM CONSONANT SIGN SA", aliases: &[] },
        Codepoint { codepoint: 0x1A60, name: "TAI THAM SIGN SAKOT", aliases: &[] },
        Codepoint { codepoint: 0x1A61, name: "TAI THAM VOWEL SIGN A", aliases: &[] },
        Codepoint { codepoint: 0x1A62, name: "TAI THAM VOWEL SIGN MAI SAT", aliases: &[] },
        Codepoint { codepoint: 0x1A63, name: "TAI THAM VOWEL SIGN AA", aliases: &[] },
        Codepoint { codepoint: 0x1A64, name: "TAI THAM VOWEL SIGN TALL AA", aliases: &[] },
        Codepoint { codepoint: 0x1A65, name: "TAI THAM VOWEL SIGN I", aliases: &[] },
        Codepoint { codepoint: 0x1A66, name: "TAI THAM VOWEL SIGN II", aliases: &[] },
        Codepoint { codepoint: 0x1A67, name: "TAI THAM VOWEL SIGN UE", aliases: &[] },
        Codepoint { codepoint: 0x1A68, name: "TAI THAM VOWEL SIGN UUE", aliases: &[] },
        Codepoint { codepoint: 0x1A69, name: "TAI THAM VOWEL SIGN U", aliases: &[] },
        Codepoint { codepoint: 0x1A6A, name: "TAI THAM VOWEL SIGN UU", aliases: &[] },
        Codepoint { codepoint: 0x1A6B, name: "TAI THAM VOWEL SIGN O", aliases: &[] },
        Codepoint { codepoint: 0x1A6C, name: "TAI THAM VOWEL SIGN OA BELOW", aliases: &[] },
        Codepoint { codepoint: 0x1A6D, name: "TAI THAM VOWEL SIGN OY", aliases: &[] },
        Codepoint { codepoint: 0x1A6E, name: "TAI THAM VOWEL SIGN E", aliases: &[] },
        Codepoint { codepoint: 0x1A6F, name: "TAI THAM VOWEL SIGN AE", aliases: &[] },
        Codepoint { codepoint: 0x1A70, name: "TAI THAM VOWEL SIGN OO", aliases: &[] },
        Codepoint { codepoint: 0x1A71, name: "TAI THAM VOWEL SIGN AI", aliases: &[] },
        Codepoint { codepoint: 0x1A72, name: "TAI THAM VOWEL SIGN THAM AI", aliases: &[] },
        Codepoint { codepoint: 0x1A73, name: "TAI THAM VOWEL SIGN OA ABOVE", aliases: &[] },
        Codepoint { codepoint: 0x1A74, name: "TAI THAM SIGN MAI KANG", aliases: &[] },
        Codepoint { codepoint: 0x1A75, name: "TAI THAM SIGN TONE-1", aliases: &[] },
        Codepoint { codepoint: 0x1A76, name: "TAI THAM SIGN TONE-2", aliases: &[] },
        Codepoint { codepoint: 0x1A77, name: "TAI THAM SIGN KHUEN TONE-3", aliases: &[] },
        Codepoint { codepoint: 0x1A78, name: "TAI THAM SIGN KHUEN TONE-4", aliases: &[] },
        Codepoint { codepoint: 0x1A79, name: "TAI THAM SIGN KHUEN TONE-5", aliases: &[] },
        Codepoint { codepoint: 0x1A7A, name: "TAI THAM SIGN RA HAAM", aliases: &[] },
        Codepoint { codepoint: 0x1A7B, name: "TAI THAM SIGN MAI SAM", aliases: &[] },
        Codepoint { codepoint: 0x1A7C, name: "TAI THAM SIGN KHUEN-LUE KARAN", aliases: &[] },
        Codepoint { codepoint: 0x1A7F, name: "TAI THAM COMBINING CRYPTOGRAMMIC DOT", aliases: &[] },
        Codepoint { codepoint: 0x1A80, name: "TAI THAM HORA DIGIT ZERO", aliases: &[] },
        Codepoint { codepoint: 0x1A81, name: "TAI THAM HORA DIGIT ONE", aliases: &[] },
        Codepoint { codepoint: 0x1A82, name: "TAI THAM HORA DIGIT TWO", aliases: &[] },
        Codepoint { codepoint: 0x1A83, name: "TAI THAM HORA DIGIT THREE", aliases: &[] },
        Codepoint { codepoint: 0x1A84, name: "TAI THAM HORA DIGIT FOUR", aliases: &[] },
        Codepoint { codepoint: 0x1A85, name: "TAI THAM HORA DIGIT FIVE", aliases: &[] },
        Codepoint { codepoint: 0x1A86, name: "TAI THAM HORA DIGIT SIX", aliases: &[] },
        Codepoint { codepoint: 0x1A87, name: "TAI THAM HORA DIGIT SEVEN", aliases: &[] },
        Codepoint { codepoint: 0x1A88, name: "TAI THAM HORA DIGIT EIGHT", aliases: &[] },
    ]
}

fn all_codepoints_151() -> (v: Vec<Codepoint>)
    ensures
        v@ == codepoint_table_151(),
{
    let v = vec![
        Codepoint { codepoint: 0x1A5E, name: "TAI THAM CONSONANT SIGN SA", aliases: &[] },
        Codepoint { codepoint: 0x1A60, name: "TAI THAM SIGN SAKOT", aliases: &[] },
        Codepoint { codepoint: 0x1A61, name: "TAI THAM VOWEL SIGN A", aliases: &[] },
        Codepoint { codepoint: 0x1A62, name: "TAI THAM VOWEL SIGN MAI SAT", aliases: &[] },
        Codepoint { codepoint: 0x1A63, name: "TAI THAM VOWEL SIGN AA", aliases: &[] },
        Codepoint { codepoint: 0x1A64, name: "TAI THAM VOWEL SIGN TALL AA", aliases: &[] },
        Codepoint { codepoint: 0x1A65, name: "TAI THAM VOWEL SIGN I", aliases: &[] },
        Codepoint { codepoint: 0x1A66, name: "TAI THAM VOWEL SIGN II", aliases: &[] },
        Codepoint { codepoint: 0x1A67, name: "TAI THAM VOWEL SIGN UE", aliases: &[] },
        Codepoint { codepoint: 0x1A68, name: "TAI THAM VOWEL SIGN UUE", aliases: &[] },
        Codepoint { codepoint: 0x1A69, name: "TAI THAM VOWEL SIGN U", aliases: &[] },
        Codepoint { codepoint: 0x1A6A, name: "TAI THAM VOWEL SIGN UU", aliases: &[] },
        Codepoint { codepoint: 0x1A6B, name: "TAI THAM VOWEL SIGN O", aliases: &[] },
        Codepoint { codepoint: 0x1A6C, name: "TAI THAM VOWEL SIGN OA BELOW", aliases: &[] },
        Codepoint { codepoint: 0x1A6D, name: "TAI THAM VOWEL SIGN OY", aliases: &[] },
        Codepoint { codepoint: 0x1A6E, name: "TAI THAM VOWEL SIGN E", aliases: &[] },
        Codepoint { codepoint: 0x1A6F, name: "TAI THAM VOWEL SIGN AE", aliases: &[] },
        Codepoint { codepoint: 0x1A70, name: "TAI THAM VOWEL SIGN OO", aliases: &[] },
        Codepoint { codepoint: 0x1A71, name: "TAI THAM VOWEL SIGN AI", aliases: &[] },
        Codepoint { codepoint: 0x1A72, name: "TAI THAM VOWEL SIGN THAM AI", aliases: &[] },
        Codepoint { codepoint: 0x1A73, name: "TAI THAM VOWEL SIGN OA ABOVE", aliases: &[] },
        Codepoint { codepoint: 0x1A74, name: "TAI THAM SIGN MAI KANG", aliases: &[] },
        Codepoint { codepoint: 0x1A75, name: "TAI THAM SIGN TONE-1", aliases: &[] },
        Codepoint { codepoint: 0x1A76, name: "TAI THAM SIGN TONE-2", aliases: &[] },
        Codepoint { codepoint: 0x1A77, name: "TAI THAM SIGN KHUEN TONE-3", aliases: &[] },
        Codepoint { codepoint: 0x1A78, name: "TAI THAM SIGN KHUEN TONE-4", aliases: &[] },
        Codepoint { codepoint: 0x1A79, name: "TAI THAM SIGN KHUEN TONE-5", aliases: &[] },
        Codepoint { codepoint: 0x1A7A, name: "TAI THAM SIGN RA HAAM", aliases: &[] },
        Codepoint { codepoint: 0x1A7B, name: "TAI THAM SIGN MAI SAM", aliases: &[] },
        Codepoint { codepoint: 0x1A7C, name: "TAI THAM SIGN KHUEN-LUE KARAN", aliases: &[] },
        Codepoint { codepoint: 0x1A7F, name: "TAI THAM COMBINING CRYPTOGRAMMIC DOT", aliases: &[] },
        Codepoint { codepoint: 0x1A80, name: "TAI THAM HORA DIGIT ZERO", aliases: &[] },
        Codepoint { codepoint: 0x1A81, name: "TAI THAM HORA DIGIT ONE", aliases: &[] },
        Codepoint { codepoint: 0x1A82, name: "TAI THAM HORA DIGIT TWO", aliases: &[] },
        Codepoint { codepoint: 0x1A83, name: "TAI THAM HORA DIGIT THREE", aliases: &[] },
        Codepoint { codepoint: 0x1A84, name: "TAI THAM HORA DIGIT FOUR", aliases: &[] },
        Codepoint { codepoint: 0x1A85, name: "TAI THAM HORA DIGIT FIVE", aliases: &[] },
        Codepoint { codepoint: 0x1A86, name: "TAI THAM HORA DIGIT SIX", aliases: &[] },
        Codepoint { codepoint: 0x1A87, name: "TAI THAM HORA DIGIT SEVEN", aliases: &[] },
        Codepoint { codepoint: 0x1A88, name: "TAI THAM HORA DIGIT EIGHT", aliases: &[] },
    ];
    assert(v@ =~= codepoint_table_151());
    v
}

pub open spec fn codepoint_table_152() -> Seq<Codepoint> {
    seq![
        Codepoint { codepoint: 0x1A89, name: "TAI THAM HORA DIGIT NINE", aliases: &[] },
        Codepoint { codepoint: 0x1A90, name: "TAI THAM THAM DIGIT ZERO", aliases: &[] },
        Codepoint { codepoint: 0x1A91, name: "TAI THAM THAM DIGIT ONE", aliases: &[] },
        Codepoint { codepoint: 0x1A92, name: "TAI THAM THAM DIGIT TWO", aliases: &[] },
        Codepoint { codepoint: 0x1A93, name: "TAI THAM THAM DIGIT THREE", aliases: &[] },
        Codepoint { codepoint: 0x1A94, name: "TAI THAM THAM DIGIT FOUR", aliases: &[] },
        Codepoint { codepoint: 0x1A95, name: "TAI THAM THAM DIGIT FIVE", aliases: &[] },
        Codepoint { codepoint: 0x1A96, name: "TAI THAM THAM DIGIT SIX", aliases: &[] },
        Codepoint { codepoint: 0x1A97, name: "TAI THAM THAM DIGIT SEVEN", aliases: &[] },
        Codepoint { codepoint: 0x1A98, name: "TAI THAM THAM DIGIT EIGHT", aliases: &[] },
        Codepoint { codepoint: 0x1A99, name: "TAI THAM THAM DIGIT NINE", aliases: &[] },
        Codepoint { codepoint: 0x1AA0, name: "TAI THAM SIGN WIANG", aliases: &[] },
        Codepoint { codepoint: 0x1AA1, name: "TAI THAM SIGN WIANGWAAK", aliases: &[] },
        Codepoint { codepoint: 0x1AA2, name: "TAI THAM SIGN SAWAN", aliases: &[] },
        Codepoint { codepoint: 0x1AA3, name: "TAI THAM SIGN KEOW", aliases: &[] },
        Codepoint { codepoint: 0x1AA4, name: "TAI THAM SIGN HOY", aliases: &[] },
        Codepoint { codepoint: 0x1AA5, name: "TAI THAM SIGN DOKMAI", aliases: &[] },
        Codepoint { codepoint: 0x1AA6, name: "TAI THAM SIGN REVERSED ROTATED RANA", aliases: &[] },
        Codepoint { codepoint: 0x1AA7, name: "TAI THAM SIGN MAI YAMOK", aliases: &[] },
        Codepoint { codepoint: 0x1AA8, name: "TAI THAM SIGN KAAN", aliases: &[] },
        Codepoint { codepoint: 0x1AA9, name: "TAI THAM SIGN KAANKUU", aliases: &[] },
        Codepoint { codepoint: 0x1AAA, name: "TAI THAM SIGN SATKAAN", aliases: &[] },
        Codepoint { codepoint: 0x1AAB, name: "TAI THAM SIGN SATKAANKUU", aliases: &[] },
        Codepoint { codepoint: 0x1AAC, name: "TAI THAM SIGN HANG", aliases: &[] },
        Codepoint { codepoint: 0x1AAD, name: "TAI THAM SIGN CAANG", aliases: &[] },
        Codepoint { codepoint: 0x1AB0, name: "COMBINING DOUBLED CIRCUMFLEX ACCENT", aliases: &[] },
        Codepoint { codepoint: 0x1AB1, name: "COMBINING DIAERESIS-RING", aliases: &[] },
        Codepoint { codepoint: 0x1AB2, name: "COMBINING INFINITY", aliases: &[] },
        Codepoint { codepoint: 0x1AB3, name: "COMBINING DOWNWARDS ARROW", aliases: &[] },
        Codepoint { codepoint: 0x1AB4, name: "COMBINING TRIPLE DOT", aliases: &[] },
        Codepoint { codepoint: 0x1AB5, name: "COMBINING X-X BELOW", aliases: &[] },
        Codepoint { codepoint: 0x1AB6, name: "COMBINING WIGGLY LINE BELOW", aliases: &[] },
        Codepoint { codepoint: 0x1AB7, name: "COMBINING OPEN MARK BELOW", aliases: &[] },
        Codepoint { codepoint: 0x1AB8, name: "COMBINING DOUBLE OPEN MARK BELOW", aliases: &[] },
        Codepoint { codepoint: 0x1AB9, name: "COMBINING LIGHT CENTRALIZATION STROKE BELOW", aliases: &[] },
        Codepoint { codepoint: 0x1ABA, name: "COMBINING STRONG CENTRALIZATION STROKE BELOW", aliases: &[] },
        Codepoint { codepoint: 0x1ABB, name: "COMBINING PARENTHESES ABOVE", aliases: &[] },
        Codepoint { codepoint: 0x1ABC, name: "COMBINING DOUBLE PARENTHESES ABOVE", aliases: &[] },
        Codepoint { codepoint: 0x1ABD, name: "COMBINING PARENTHESES BELOW", aliases: &[] },
        Codepoint { codepoint: 0x1ABE, name: "COMBINING PARENTHESES OVERLAY", aliases: &[] },
    ]
}

fn all_codepoints_152() -> (v: Vec<Codepoint>)
    ensures
        v@ == codepoint_table_152(),
{
    let v = vec![
        Codepoint { codepoint: 0x1A89, name: "TAI THAM HORA DIGIT NINE", aliases: &[] },
        Codepoint { codepoint: 0x1A90, name: "TAI THAM THAM DIGIT ZERO", aliases: &[] },
        Codepoint { codepoint: 0x1A91, name: "TAI THAM THAM DIGIT ONE", aliases: &[] },
        Codepoint { codepoint: 0x1A92, name: "TAI THAM THAM DIGIT TWO", aliases: &[] },
        Codepoint { codepoint: 0x1A93, name: "TAI THAM THAM DIGIT THREE", aliases: &[] },
        Codepoint { codepoint: 0x1A94, name: "TAI THAM THAM DIGIT FOUR", aliases: &[] },
        Codepoint { codepoint: 0x1A95, name: "TAI THAM THAM DIGIT FIVE", aliases: &[] },
        Codepoint { codepoint: 0x1A96, name: "TAI THAM THAM DIGIT SIX", aliases: &[] },
        Codepoint { codepoint: 0x1A97, name: "TAI THAM THAM DIGIT SEVEN", aliases: &[] },
        Codepoint { codepoint: 0x1A98, name: "TAI THAM THAM DIGIT EIGHT", aliases: &[] },
        Codepoint { codepoint: 0x1A99, name: "TAI THAM THAM DIGIT NINE", aliases: &[] },
        Codepoint { codepoint: 0x1AA0, name: "TAI THAM SIGN WIANG", aliases: &[] },
        Codepoint { codepoint: 0x1AA1, name: "TAI THAM SIGN WIANGWAAK", aliases: &[] },
        Codepoint { codepoint: 0x1AA2, name: "TAI THAM SIGN SAWAN", aliases: &[] },
        Codepoint { codepoint: 0x1AA3, name: "TAI THAM SIGN KEOW", aliases: &[] },
        Codepoint { codepoint: 0x1AA4, name: "TAI THAM SIGN HOY", aliases: &[] },
        Codepoint { codepoint: 0x1AA5, name: "TAI THAM SIGN DOKMAI", aliases: &[] },
        Codepoint { codepoint: 0x1AA6, name: "TAI THAM SIGN REVERSED ROTATED RANA", aliases: &[] },
        Codepoint { codepoint: 0x1AA7, name: "TAI THAM SIGN MAI YAMOK", aliases: &[] },
        Codepoint { codepoint: 0x1AA8, name: "TAI THAM SIGN KAAN", aliases: &[] },
        Codepoint { codepoint: 0x1AA9, name: "TAI THAM SIGN KAANKUU", aliases: &[] },
        Codepoint { codepoint: 0x1AAA, name: "TAI THAM SIGN SATKAAN", aliases: &[] },
        Codepoint { codepoint: 0x1AAB, name: "TAI THAM SIGN SATKAANKUU", aliases: &[] },
        Codepoint { codepoint: 0x1AAC, name: "TAI THAM SIGN HANG", aliases: &[] },
        Codepoint { codepoint: 0x1AAD, name: "TAI THAM SIGN CAANG", aliases: &[] },
        Codepoint { codepoint: 0x1AB0, name: "COMBINING DOUBLED CIRCUMFLEX ACCENT", aliases: &[] },
        Codepoint { codepoint: 0x1AB1, name: "COMBINING DIAERESIS-RING", aliases: &[] },
        Codepoint { codepoint: 0x1AB2, name: "COMBINING INFINITY", aliases: &[] },
        Codepoint { codepoint: 0x1AB3, name: "COMBINING DOWNWARDS ARROW", aliases: &[] },
        Codepoint { codepoint: 0x1AB4, name: "COMBINING TRIPLE DOT", aliases: &[] },
        Codepoint { codepoint: 0x1AB5, name: "COMBINING X-X BELOW", aliases: &[] },
        Codepoint { codepoint: 0x1AB6, name: "COMBINING WIGGLY LINE BELOW", aliases: &[] },
        Codepoint { codepoint: 0x1AB7, name: "COMBINING OPEN MARK BELOW", aliases: &[] },
        Codepoint { codepoint: 0x1AB8, name: "COMBINING DOUBLE OPEN MARK BELOW", aliases: &[] },
        Codepoint { codepoint: 0x1AB9, name: "COMBINING LIGHT CENTRALIZATION STROKE BELOW", aliases: &[] },
        Codepoint { codepoint: 0x1ABA, name: "COMBINING STRONG CENTRALIZATION STROKE BELOW", aliases: &[] },
        Codepoint { codepoint: 0x1ABB, name: "COMBINING PARENTHESES ABOVE", aliases: &[] },
        Codepoint { codepoint: 0x1ABC, name: "COMBINING DOUBLE PARENTHESES ABOVE", aliases: &[] },
        Codepoint { codepoint: 0x1ABD, name: "COMBINING PARENTHESES BELOW", aliases: &[] },
        Codepoint { codepoint: 0x1ABE, name: "COMBINING PARENTHESES OVERLAY", aliases: &[] },
    ];
    assert(v@ =~= codepoint_table_152());
    v
}

pub open spec fn codepoint_table_153() -> Seq<Codepoint> {
    seq![
        Codepoint { codepoint: 0x1ABF, name: "COMBINING LATIN SMALL LETTER W BELOW", aliases: &[] },
        Codepoint { codepoint: 0x1AC0, name: "COMBINING LATIN SMALL LETTER TURNED W BELOW", aliases: &[] },
        Codepoint { codepoint: 0x1AC1, name: "COMBINING LEFT PARENTHESIS ABOVE LEFT", aliases: &[] },
        Codepoint { codepoint: 0x1AC2, name: "COMBINING RIGHT PARENTHESIS ABOVE RIGHT", aliases: &[] },
        Codepoint { codepoint: 0x1AC3, name: "COMBINING LEFT PARENTHESIS BELOW LEFT", aliases: &[] },
        Codepoint { codepoint: 0x1AC4, name: "COMBINING RIGHT PARENTHESIS BELOW RIGHT", aliases: &[] },
        Codepoint { codepoint: 0x1AC5, name: "COMBINING SQUARE BRACKETS ABOVE", aliases: &[] },
        Codepoint { codepoint: 0x1AC6, name: "COMBINING NUMBER SIGN ABOVE", aliases: &[] },
        Codepoint { codepoint: 0x1AC7, name: "COMBINING INVERTED DOUBLE ARCH ABOVE", aliases: &[] },
        Codepoint { codepoint: 0x1AC8, name: "COMBINING PLUS SIGN ABOVE", aliases: &[] },
        Codepoint { codepoint: 0x1AC9, name: "COMBINING DOUBLE PLUS SIGN ABOVE", aliases: &[] },
        Codepoint { codepoint: 0x1ACA, name: "COMBINING DOUBLE PLUS SIGN BELOW", aliases: &[] },
        Codepoint { codepoint: 0x1ACB, name: "COMBINING TRIPLE ACUTE ACCENT", aliases: &[] },
        Codepoint { codepoint: 0x1ACC, name: "COMBINING LATIN SMALL LETTER INSULAR G", aliases: &[] },
        Codepoint { codepoint: 0x1ACD, name: "COMBINING LATIN SMALL LETTER INSULAR R", aliases: &[] },
        Codepoint { codepoint: 0x1ACE, name: "COMBINING LATIN SMALL LETTER INSULAR T", aliases: &[] },
        Codepoint { codepoint: 0x1B00, name: "BALINESE SIGN ULU RICEM", aliases: &[] },
        Codepoint { codepoint: 0x1B01, name: "BALINESE SIGN ULU CANDRA", aliases: &[] },
        Codepoint { codepoint: 0x1B02, name: "BALINESE SIGN CECEK", aliases: &[] },
        Codepoint { codepoint: 0x1B03, name: "BALINESE SIGN SURANG", aliases: &[] },
        Codepoint { codepoint: 0x1B04, name: "BALINESE SIGN BISAH", aliases: &[] },
        Codepoint { codepoint: 0x1B05, name: "BALINESE LETTER AKARA", aliases: &[] },
        Codepoint { codepoint: 0x1B06, name: "BALINESE LETTER AKARA TEDUNG", aliases: &[] },
        Codepoint { codepoint: 0x1B07, name: "BALINESE LETTER IKARA", aliases: &[] },
        Codepoint { codepoint: 0x1B08, name: "BALINESE LETTER IKARA TEDUNG", aliases: &[] },
        Codepoint { codepoint: 0x1B09, name: "BALINESE LETTER UKARA", aliases: &[] },
        Codepoint { codepoint: 0x1B0A, name: "BALINESE LETTER UKARA TEDUNG", aliases: &[] },
        Codepoint { codepoint: 0x1B0B, name: "BALINESE LETTER RA REPA", aliases: &[] },
        Codepoint { codepoint: 0x1B0C, name: "BALINESE LETTER RA REPA TEDUNG", aliases: &[] },
        Codepoint { codepoint: 0x1B0D, name: "BALINESE LETTER LA LENGA", aliases: &[] },
        Codepoint { codepoint: 0x1B0E, name: "BALINESE LETTER LA LENGA TEDUNG", aliases: &[] },
        Codepoint { codepoint: 0x1B0F, name: "BALINESE LETTER EKARA", aliases: &[] },
        Codepoint { codepoint: 0x1B10, name: "BALINESE LETTER AIKARA", aliases: &[] },
        Codepoint { codepoint: 0x1B11, name: "BALINESE LETTER OKARA", aliases: &[] },
        Codepoint { codepoint: 0x1B12, name: "BALINESE LETTER OKARA TEDUNG", aliases: &[] },
        Codepoint { codepoint: 0x1B13, name: "BALINESE LETTER KA", aliases: &[] },
        Codepoint { codepoint: 0x1B14, name: "BALINESE LETTER KA MAHAPRANA", aliases: &[] },
        Codepoint { codepoint: 0x1B15, name: "BALINESE LETTER GA", aliases: &[] },
        Codepoint { codepoint: 0x1B16, name: "BALINESE LETTER GA GORA", aliases: &[] },
        Codepoint { codepoint: 0x1B17, name: "BALINESE LETTER NGA", aliases: &[] },
    ]
}

fn all_codepoints_153() -> (v: Vec<Codepoint>)
    ensures
        v@ == codepoint_table_153(),
{
    let v = vec![
        Codepoint { codepoint: 0x1ABF, name: "COMBINING LATIN SMALL LETTER W BELOW", aliases: &[] },
        Codepoint { codepoint: 0x1AC0, name: "COMBINING LATIN SMALL LETTER TURNED W BELOW", aliases: &[] },
        Codepoint { codepoint: 0x1AC1, name: "COMBINING LEFT PARENTHESIS ABOVE LEFT", aliases: &[] },
        Codepoint { codepoint: 0x1AC2, name: "COMBINING RIGHT PARENTHESIS ABOVE RIGHT", aliases: &[] },
        Codepoint { codepoint: 0x1AC3, name: "COMBINING LEFT PARENTHESIS BELOW LEFT", aliases: &[] },
        Codepoint { codepoint: 0x1AC4, name: "COMBINING RIGHT PARENTHESIS BELOW RIGHT", aliases: &[] },
        Codepoint { codepoint: 0x1AC5, name: "COMBINING SQUARE BRACKETS ABOVE", aliases: &[] },
        Codepoint { codepoint: 0x1AC6, name: "COMBINING NUMBER SIGN ABOVE", aliases: &[] },
        Codepoint { codepoint: 0x1AC7, name: "COMBINING INVERTED DOUBLE ARCH ABOVE", aliases: &[] },
        Codepoint { codepoint: 0x1AC8, name: "COMBINING PLUS SIGN ABOVE", aliases: &[] },
        Codepoint { codepoint: 0x1AC9, name: "COMBINING DOUBLE PLUS SIGN ABOVE", aliases: &[] },
        Codepoint { codepoint: 0x1ACA, name: "COMBINING DOUBLE PLUS SIGN BELOW", aliases: &[] },
        Codepoint { codepoint: 0x1ACB, name: "COMBINING TRIPLE ACUTE ACCENT", aliases: &[] },
        Codepoint { codepoint: 0x1ACC, name: "COMBINING LATIN SMALL LETTER INSULAR G", aliases: &[] },
        Codepoint { codepoint: 0x1ACD, name: "COMBINING LATIN SMALL LETTER INSULAR R", aliases: &[] },
        Codepoint { codepoint: 0x1ACE, name: "COMBINING LATIN SMALL LETTER INSULAR T", aliases: &[] },
        Codepoint { codepoint: 0x1B00, name: "BALINESE SIGN ULU RICEM", aliases: &[] },
        Codepoint { codepoint: 0x1B01, name: "BALINESE SIGN ULU CANDRA", aliases: &[] },
        Codepoint { codepoint: 0x1B02, name: "BALINESE SIGN CECEK", aliases: &[] },
        Codepoint { codepoint: 0x1B03, name: "BALINESE SIGN SURANG", aliases: &[] },
        Codepoint { codepoint: 0x1B04, name: "BALINESE SIGN BISAH", aliases: &[] },
        Codepoint { codepoint: 0x1B05, name: "BALINESE LETTER AKARA", aliases: &[] },
        Codepoint { codepoint: 0x1B06, name: "BALINESE LETTER AKARA TEDUNG", aliases: &[] },
        Codepoint { codepoint: 0x1B07, name: "BALINESE LETTER IKARA", aliases: &[] },
        Codepoint { codepoint: 0x1B08, name: "BALINESE LETTER IKARA TEDUNG", aliases: &[] },
        Codepoint { codepoint: 0x1B09, name: "BALINESE LETTER UKARA", aliases: &[] },
        Codepoint { codepoint: 0x1B0A, name: "BALINESE LETTER UKARA TEDUNG", aliases: &[] },
        Codepoint { codepoint: 0x1B0B, name: "BALINESE LETTER RA REPA", aliases: &[] },
        Codepoint { codepoint: 0x1B0C, name: "BALINESE LETTER RA REPA TEDUNG", aliases: &[] },
        Codepoint { codepoint: 0x1B0D, name: "BALINESE LETTER LA LENGA", aliases: &[] },
        Codepoint { codepoint: 0x1B0E, name: "BALINESE LETTER LA LENGA TEDUNG", aliases: &[] },
        Codepoint { codepoint: 0x1B0F, name: "BALINESE LETTER EKARA", aliases: &[] },
        Codepoint { codepoint: 0x1B10, name: "BALINESE LETTER AIKARA", aliases: &[] },
        Codepoint { codepoint: 0x1B11, name: "BALINESE LETTER OKARA", aliases: &[] },
        Codepoint { codepoint: 0x1B12, name: "BALINESE LETTER OKARA TEDUNG", aliases: &[] },
        Codepoint { codepoint: 0x1B13, name: "BALINESE LETTER KA", aliases: &[] },
        Codepoint { codepoint: 0x1B14, name: "BALINESE LETTER KA MAHAPRANA", aliases: &[] },
        Codepoint { codepoint: 0x1B15, name: "BALINESE LETTER GA", aliases: &[] },
        Codepoint { codepoint: 0x1B16, name: "BALINESE LETTER GA GORA", aliases: &[] },
        Codepoint { codepoint: 0x1B17, name: "BALINESE LETTER NGA", aliases: &[] },
    ];
    assert(v@ =~= codepoint_table_153());
    v
}

pub open spec fn codepoint_table_154() -> Seq<Codepoint> {
    seq![
        Codepoint { codepoint: 0x1B18, name: "BALINESE LETTER CA", aliases: &[] },
        Codepoint { codepoint: 0x1B19, name: "BALINESE LETTER CA LACA", aliases: &[] },
        Codepoint { codepoint: 0x1B1A, name: "BALINESE LETTER JA", aliases: &[] },
        Codepoint { codepoint: 0x1B1B, name: "BALINESE LETTER JA JERA", aliases: &[] },
        Codepoint { codepoint: 0x1B1C, name: "BALINESE LETTER NYA", aliases: &[] },
        Codepoint { codepoint: 0x1B1D, name: "BALINESE LETTER TA LATIK", aliases: &[] },
        Codepoint { codepoint: 0x1B1E, name: "BALINESE LETTER TA MURDA MAHAPRANA", aliases: &[] },
        Codepoint { codepoint: 0x1B1F, name: "BALINESE LETTER DA MURDA ALPAPRANA", aliases: &[] },
        Codepoint { codepoint: 0x1B20, name: "BALINESE LETTER DA MURDA MAHAPRANA", aliases: &[] },
        Codepoint { codepoint: 0x1B21, name: "BALINESE LETTER NA RAMBAT", aliases: &[] },
        Codepoint { codepoint: 0x1B22, name: "BALINESE LETTER TA", aliases: &[] },
        Codepoint { codepoint: 0x1B23, name: "BALINESE LETTER TA TAWA", aliases: &[] },
        Codepoint { codepoint: 0x1B24, name: "BALINESE LETTER DA", aliases: &[] },
        Codepoint { codepoint: 0x1B25, name: "BALINESE LETTER DA MADU", aliases: &[] },
        Codepoint { codepoint: 0x1B26, name: "BALINESE LETTER NA", aliases: &[] },
        Codepoint { codepoint: 0x1B27, name: "BALINESE LETTER PA", aliases: &[] },
        Codepoint { codepoint: 0x1B28, name: "BALINESE LETTER PA KAPAL", aliases: &[] },
        Codepoint { codepoint: 0x1B29, name: "BALINESE LETTER BA", aliases: &[] },
        Codepoint { codepoint: 0x1B2A, name: "BALINESE LETTER BA KEMBANG", aliases: &[] },
        Codepoint { codepoint: 0x1B2B, name: "BALINESE LETTER MA", aliases: &[] },
        Codepoint { codepoint: 0x1B2C, name: "BALINESE LETTER YA", aliases: &[] },
        Codepoint { codepoint: 0x1B2D, name: "BALINESE LETTER RA", aliases: &[] },
        Codepoint { codepoint: 0x1B2E, name: "BALINESE LETTER LA", aliases: &[] },
        Codepoint { codepoint: 0x1B2F, name: "BALINESE LETTER WA", aliases: &[] },
        Codepoint { codepoint: 0x1B30, name: "BALINESE LETTER SA SAGA", aliases: &[] },
        Codepoint { codepoint: 0x1B31, name: "BALINESE LETTER SA SAPA", aliases: &[] },
        Codepoint { codepoint: 0x1B32, name: "BALINESE LETTER SA", aliases: &[] },
        Codepoint { codepoint: 0x1B33, name: "BALINESE LETTER HA", aliases: &[] },
        Codepoint { codepoint: 0x1B34, name: "BALINESE SIGN REREKAN", aliases: &[] },
        Codepoint { codepoint: 0x1B35, name: "BALINESE VOWEL SIGN TEDUNG", aliases: &[] },
        Codepoint { codepoint: 0x1B36, name: "BALINESE VOWEL SIGN ULU", aliases: &[] },
        Codepoint { codepoint: 0x1B37, name: "BALINESE VOWEL SIGN ULU SARI", aliases: &[] },
        Codepoint { codepoint: 0x1B38, name: "BALINESE VOWEL SIGN SUKU", aliases: &[] },
        Codepoint { codepoint: 0x1B39, name: "BALINESE VOWEL SIGN SUKU ILUT", aliases: &[] },
        Codepoint { codepoint: 0x1B3A, name: "BALINESE VOWEL SIGN RA REPA", aliases: &[] },
        Codepoint { codepoint: 0x1B3B, name: "BALINESE VOWEL SIGN RA REPA TEDUNG", aliases: &[] },
        Codepoint { codepoint: 0x1B3C, name: "BALINESE VOWEL SIGN LA LENGA", aliases: &[] },
        Codepoint { codepoint: 0x1B3D, name: "BALINESE VOWEL SIGN LA LENGA TEDUNG", aliases: &[] },
        Codepoint { codepoint: 0x1B3E, name: "BALINESE VOWEL SIGN TALING", aliases: &[] },
        Codepoint { codepoint: 0x1B3F, name: "BALINESE VOWEL SIGN TALING REPA", aliases: &[] },
    ]
}

fn all_codepoints_154() -> (v: Vec<Codepoint>)
    ensures
        v@ == codepoint_table_154(),
{
    let v = vec![
        Codepoint { codepoint: 0x1B18, name: "BALINESE LETTER CA", aliases: &[] },
        Codepoint { codepoint: 0x1B19, name: "BALINESE LETTER CA LACA", aliases: &[] },
        Codepoint { codepoint: 0x1B1A, name: "BALINESE LETTER JA", aliases: &[] },
        Codepoint { codepoint: 0x1B1B, name: "BALINESE LETTER JA JERA", aliases: &[] },
        Codepoint { codepoint: 0x1B1C, name: "BALINESE LETTER NYA", aliases: &[] },
        Codepoint { codepoint: 0x1B1D, name: "BALINESE LETTER TA LATIK", aliases: &[] },
        Codepoint { codepoint: 0x1B1E, name: "BALINESE LETTER TA MURDA MAHAPRANA", aliases: &[] },
        Codepoint { codepoint: 0x1B1F, name: "BALINESE LETTER DA MURDA ALPAPRANA", aliases: &[] },
        Codepoint { codepoint: 0x1B20, name: "BALINESE LETTER DA MURDA MAHAPRANA", aliases: &[] },
        Codepoint { codepoint: 0x1B21, name: "BALINESE LETTER NA RAMBAT", aliases: &[] },
        Codepoint { codepoint: 0x1B22, name: "BALINESE LETTER TA", aliases: &[] },
        Codepoint { codepoint: 0x1B23, name: "BALINESE LETTER TA TAWA", aliases: &[] },
        Codepoint { codepoint: 0x1B24, name: "BALINESE LETTER DA", aliases: &[] },
        Codepoint { codepoint: 0x1B25, name: "BALINESE LETTER DA MADU", aliases: &[] },
        Codepoint { codepoint: 0x1B26, name: "BALINESE LETTER NA", aliases: &[] },
        Codepoint { codepoint: 0x1B27, name: "BALINESE LETTER PA", aliases: &[] },
        Codepoint { codepoint: 0x1B28, name: "BALINESE LETTER PA KAPAL", aliases: &[] },
        Codepoint { codepoint: 0x1B29, name: "BALINESE LETTER BA", aliases: &[] },
        Codepoint { codepoint: 0x1B2A, name: "BALINESE LETTER BA KEMBANG", aliases: &[] },
        Codepoint { codepoint: 0x1B2B, name: "BALINESE LETTER MA", aliases: &[] },
        Codepoint { codepoint: 0x1B2C, name: "BALINESE LETTER YA", aliases: &[] },
        Codepoint { codepoint: 0x1B2D, name: "BALINESE LETTER RA", aliases: &[] },
        Codepoint { codepoint: 0x1B2E, name: "BALINESE LETTER LA", aliases: &[] },
        Codepoint { codepoint: 0x1B2F, name: "BALINESE LETTER WA", aliases: &[] },
        Codepoint { codepoint: 0x1B30, name: "BALINESE LETTER SA SAGA", aliases: &[] },
        Codepoint { codepoint: 0x1B31, name: "BALINESE LETTER SA SAPA", aliases: &[] },
        Codepoint { codepoint: 0x1B32, name: "BALINESE LETTER SA", aliases: &[] },
        Codepoint { codepoint: 0x1B33, name: "BALINESE LETTER HA", aliases: &[] },
        Codepoint { codepoint: 0x1B34, name: "BALINESE SIGN REREKAN", aliases: &[] },
        Codepoint { codepoint: 0x1B35, name: "BALINESE VOWEL SIGN TEDUNG", aliases: &[] },
        Codepoint { codepoint: 0x1B36, name: "BALINESE VOWEL SIGN ULU", aliases: &[] },
        Codepoint { codepoint: 0x1B37, name: "BALINESE VOWEL SIGN ULU SARI", aliases: &[] },
        Codepoint { codepoint: 0x1B38, name: "BALINESE VOWEL SIGN SUKU", aliases: &[] },
        Codepoint { codepoint: 0x1B39, name: "BALINESE VOWEL SIGN SUKU ILUT", aliases: &[] },
        Codepoint { codepoint: 0x1B3A, name: "BALINESE VOWEL SIGN RA REPA", aliases: &[] },
        Codepoint { codepoint: 0x1B3B, name: "BALINESE VOWEL SIGN RA REPA TEDUNG", aliases: &[] },
        Codepoint { codepoint: 0x1B3C, name: "BALINESE VOWEL SIGN LA LENGA", aliases: &[] },
        Codepoint { codepoint: 0x1B3D, name: "BALINESE VOWEL SIGN LA LENGA TEDUNG", aliases: &[] },
        Codepoint { codepoint: 0x1B3E, name: "BALINESE VOWEL SIGN TALING", aliases: &[] },
        Codepoint { codepoint: 0x1B3F, name: "BALINESE VOWEL SIGN TALING REPA", aliases: &[] },
    ];
    assert(v@ =~= codepoint_table_154());
    v
}

pub open spec fn codepoint_table_155() -> Seq<Codepoint> {
    seq![
        Codepoint { codepoint: 0x1B40, name: "BALINESE VOWEL SIGN TALING TEDUNG", aliases: &[] },
        Codepoint { codepoint: 0x1B41, name: "BALINESE VOWEL SIGN TALING REPA TEDUNG", aliases: &[] },
        Codepoint { codepoint: 0x1B42, name: "BALINESE VOWEL SIGN PEPET", aliases: &[] },
        Codepoint { codepoint: 0x1B43, name: "BALINESE VOWEL SIGN PEPET TEDUNG", aliases: &[] },
        Codepoint { codepoint: 0x1B44, name: "BALINESE ADEG ADEG", aliases: &[] },
        Codepoint { codepoint: 0x1B45, name: "BALINESE LETTER KAF SASAK", aliases: &[] },
        Codepoint { codepoint: 0x1B46, name: "BALINESE LETTER KHOT SASAK", aliases: &[] },
        Codepoint { codepoint: 0x1B47, name: "BALINESE LETTER TZIR SASAK", aliases: &[] },
        Codepoint { codepoint: 0x1B48, name: "BALINESE LETTER EF SASAK", aliases: &[] },
        Codepoint { codepoint: 0x1B49, name: "BALINESE LETTER VE SASAK", aliases: &[] },
        Codepoint { codepoint: 0x1B4A, name: "BALINESE LETTER ZAL SASAK", aliases: &[] },
        Codepoint { codepoint: 0x1B4B, name: "BALINESE LETTER ASYURA SASAK", aliases: &[] },
        Codepoint { codepoint: 0x1B4C, name: "BALINESE LETTER ARCHAIC JNYA", aliases: &[] },
        Codepoint { codepoint: 0x1B50, name: "BALINESE DIGIT ZERO", aliases: &[] },
        Codepoint { codepoint: 0x1B51, name: "BALINESE DIGIT ONE", aliases: &[] },
        Codepoint { codepoint: 0x1B52, name: "BALINESE DIGIT TWO", aliases: &[] },
        Codepoint { codepoint: 0x1B53, name: "BALINESE DIGIT THREE", aliases: &[] },
        Codepoint { codepoint: 0x1B54, name: "BALINESE DIGIT FOUR", aliases: &[] },
        Codepoint { codepoint: 0x1B55, name: "BALINESE DIGIT FIVE", aliases: &[] },
        Codepoint { codepoint: 0x1B56, name: "BALINESE DIGIT SIX", aliases: &[] },
        Codepoint { codepoint: 0x1B57, name: "BALINESE DIGIT SEVEN", aliases: &[] },
        Codepoint { codepoint: 0x1B58, name: "BALINESE DIGIT EIGHT", aliases: &[] },
        Codepoint { codepoint: 0x1B59, name: "BALINESE DIGIT NINE", aliases: &[] },
        Codepoint { codepoint: 0x1B5A, name: "BALINESE PANTI", aliases: &[] },
        Codepoint { codepoint: 0x1B5B, name: "BALINESE PAMADA", aliases: &[] },
        Codepoint { codepoint: 0x1B5C, name: "BALINESE WINDU", aliases: &[] },
        Codepoint { codepoint: 0x1B5D, name: "BALINESE CARIK PAMUNGKAH", aliases: &[] },
        Codepoint { codepoint: 0x1B5E, name: "BALINESE CARIK SIKI", aliases: &[] },
        Codepoint { codepoint: 0x1B5F, name: "BALINESE CARIK PAREREN", aliases: &[] },
        Codepoint { codepoint: 0x1B60, name: "BALINESE PAMENENG", aliases: &[] },
        Codepoint { codepoint: 0x1B61, name: "BALINESE MUSICAL SYMBOL DONG", aliases: &[] },
        Codepoint { codepoint: 0x1B62, name: "BALINESE MUSICAL SYMBOL DENG", aliases: &[] },
        Codepoint { codepoint: 0x1B63, name: "BALINESE MUSICAL SYMBOL DUNG", aliases: &[] },
        Codepoint { codepoint: 0x1B64, name: "BALINESE MUSICAL SYMBOL DANG", aliases: &[] },
        Codepoint { codepoint: 0x1B65, name: "BALINESE MUSICAL SYMBOL DANG SURANG", aliases: &[] },
        Codepoint { codepoint: 0x1B66, name: "BALINESE MUSICAL SYMBOL DING", aliases: &[] },
        Codepoint { codepoint: 0x1B67, name: "BALINESE MUSICAL SYMBOL DAENG", aliases: &[] },
        Codepoint { codepoint: 0x1B68, name: "BALINESE MUSICAL SYMBOL DEUNG", aliases: &[] },
        Codepoint { codepoint: 0x1B69, name: "BALINESE MUSICAL SYMBOL DAING", aliases: &[] },
        Codepoint { codepoint: 0x1B6A, name: "BALINESE MUSICAL SYMBOL DANG GEDE", aliases: &[] },
    ]
}

fn all_codepoints_155() -> (v: Vec<Codepoint>)
    ensures
        v@ == codepoint_table_155(),
{
    let v = vec![
        Codepoint { codepoint: 0x1B40, name: "BALINESE VOWEL SIGN TALING TEDUNG", aliases: &[] },
        Codepoint { codepoint: 0x1B41, name: "BALINESE VOWEL SIGN TALING REPA TEDUNG", aliases: &[] },
        Codepoint { codepoint: 0x1B42, name: "BALINESE VOWEL SIGN PEPET", aliases: &[] },
        Codepoint { codepoint: 0x1B43, name: "BALINESE VOWEL SIGN PEPET TEDUNG", aliases: &[] },
        Codepoint { codepoint: 0x1B44, name: "BALINESE ADEG ADEG", aliases: &[] },
        Codepoint { codepoint: 0x1B45, name: "BALINESE LETTER KAF SASAK", aliases: &[] },
        Codepoint { codepoint: 0x1B46, name: "BALINESE LETTER KHOT SASAK", aliases: &[] },
        Codepoint { codepoint: 0x1B47, name: "BALINESE LETTER TZIR SASAK", aliases: &[] },
        Codepoint { codepoint: 0x1B48, name: "BALINESE LETTER EF SASAK", aliases: &[] },
        Codepoint { codepoint: 0x1B49, name: "BALINESE LETTER VE SASAK", aliases: &[] },
        Codepoint { codepoint: 0x1B4A, name: "BALINESE LETTER ZAL SASAK", aliases: &[] },
        Codepoint { codepoint: 0x1B4B, name: "BALINESE LETTER ASYURA SASAK", aliases: &[] },
        Codepoint { codepoint: 0x1B4C, name: "BALINESE LETTER ARCHAIC JNYA", aliases: &[] },
        Codepoint { codepoint: 0x1B50, name: "BALINESE DIGIT ZERO", aliases: &[] },
        Codepoint { codepoint: 0x1B51, name: "BALINESE DIGIT ONE", aliases: &[] },
        Codepoint { codepoint: 0x1B52, name: "BALINESE DIGIT TWO", aliases: &[] },
        Codepoint { codepoint: 0x1B53, name: "BALINESE DIGIT THREE", aliases: &[] },
        Codepoint { codepoint: 0x1B54, name: "BALINESE DIGIT FOUR", aliases: &[] },
        Codepoint { codepoint: 0x1B55, name: "BALINESE DIGIT FIVE", aliases: &[] },
        Codepoint { codepoint: 0x1B56, name: "BALINESE DIGIT SIX", aliases: &[] },
        Codepoint { codepoint: 0x1B57, name: "BALINESE DIGIT SEVEN", aliases: &[] },
        Codepoint { codepoint: 0x1B58, name: "BALINESE DIGIT EIGHT", aliases: &[] },
        Codepoint { codepoint: 0x1B59, name: "BALINESE DIGIT NINE", aliases: &[] },
        Codepoint { codepoint: 0x1B5A, name: "BALINESE PANTI", aliases: &[] },
        Codepoint { codepoint: 0x1B5B, name: "BALINESE PAMADA", aliases: &[] },
        Codepoint { codepoint: 0x1B5C, name: "BALINESE WINDU", aliases: &[] },
        Codepoint { codepoint: 0x1B5D, name: "BALINESE CARIK PAMUNGKAH", aliases: &[] },
        Codepoint { codepoint: 0x1B5E, name: "BALINESE CARIK SIKI", aliases: &[] },
        Codepoint { codepoint: 0x1B5F, name: "BALINESE CARIK PAREREN", aliases: &[] },
        Codepoint { codepoint: 0x1B60, name: "BALINESE PAMENENG", aliases: &[] },
        Codepoint { codepoint: 0x1B61, name: "BALINESE MUSICAL SYMBOL DONG", aliases: &[] },
        Codepoint { codepoint: 0x1B62, name: "BALINESE MUSICAL SYMBOL DENG", aliases: &[] },
        Codepoint { codepoint: 0x1B63, name: "BALINESE MUSICAL SYMBOL DUNG", aliases: &[] },
        Codepoint { codepoint: 0x1B64, name: "BALINESE MUSICAL SYMBOL DANG", aliases: &[] },
        Codepoint { codepoint: 0x1B65, name: "BALINESE MUSICAL SYMBOL DANG SURANG", aliases: &[] },
        Codepoint { codepoint: 0x1B66, name: "BALINESE MUSICAL SYMBOL DING", aliases: &[] },
        Codepoint { codepoint: 0x1B67, name: "BALINESE MUSICAL SYMBOL DAENG", aliases: &[] },
        Codepoint { codepoint: 0x1B68, name: "BALINESE MUSICAL SYMBOL DEUNG", aliases: &[] },
        Codepoint { codepoint: 0x1B69, name: "BALINESE MUSICAL SYMBOL DAING", aliases: &[] },
        Codepoint { codepoint: 0x1B6A, name: "BALINESE MUSICAL SYMBOL DANG GEDE", aliases: &[] },
    ];
    assert(v@ =~= codepoint_table_155());
    v
}

pub open spec fn codepoint_table_156() -> Seq<Codepoint> {
    seq![
        Codepoint { codepoint: 0x1B6B, name: "BALINESE MUSICAL SYMBOL COMBINING TEGEH", aliases: &[] },
        Codepoint { codepoint: 0x1B6C, name: "BALINESE MUSICAL SYMBOL COMBINING ENDEP", aliases: &[] },
        Codepoint { codepoint: 0x1B6D, name: "BALINESE MUSICAL SYMBOL COMBINING KEMPUL", aliases: &[] },
        Codepoint { codepoint: 0x1B6E, name: "BALINESE MUSICAL SYMBOL COMBINING KEMPLI", aliases: &[] },
        Codepoint { codepoint: 0x1B6F, name: "BALINESE MUSICAL SYMBOL COMBINING JEGOGAN", aliases: &[] },
        Codepoint { codepoint: 0x1B70, name: "BALINESE MUSICAL SYMBOL COMBINING KEMPUL WITH JEGOGAN", aliases: &[] },
        Codepoint { codepoint: 0x1B71, name: "BALINESE MUSICAL SYMBOL COMBINING KEMPLI WITH JEGOGAN", aliases: &[] },
        Codepoint { codepoint: 0x1B72, name: "BALINESE MUSICAL SYMBOL COMBINING BENDE", aliases: &[] },
        Codepoint { codepoint: 0x1B73, name: "BALINESE MUSICAL SYMBOL COMBINING GONG", aliases: &[] },
        Codepoint { codepoint: 0x1B74, name: "BALINESE MUSICAL SYMBOL RIGHT-HAND OPEN DUG", aliases: &[] },
        Codepoint { codepoint: 0x1B75, name: "BALINESE MUSICAL SYMBOL RIGHT-HAND OPEN DAG", aliases: &[] },
        Codepoint { codepoint: 0x1B76, name: "BALINESE MUSICAL SYMBOL RIGHT-HAND CLOSED TUK", aliases: &[] },
        Codepoint { codepoint: 0x1B77, name: "BALINESE MUSICAL SYMBOL RIGHT-HAND CLOSED TAK", aliases: &[] },
        Codepoint { codepoint: 0x1B78, name: "BALINESE MUSICAL SYMBOL LEFT-HAND OPEN PANG", aliases: &[] },
        Codepoint { codepoint: 0x1B79, name: "BALINESE MUSICAL SYMBOL LEFT-HAND OPEN PUNG", aliases: &[] },
        Codepoint { codepoint: 0x1B7A, name: "BALINESE MUSICAL SYMBOL LEFT-HAND CLOSED PLAK", aliases: &[] },
        Codepoint { codepoint: 0x1B7B, name: "BALINESE MUSICAL SYMBOL LEFT-HAND CLOSED PLUK", aliases: &[] },
        Codepoint { codepoint: 0x1B7C, name: "BALINESE MUSICAL SYMBOL LEFT-HAND OPEN PING", aliases: &[] },
        Codepoint { codepoint: 0x1B7D, name: "BALINESE PANTI LANTANG", aliases: &[] },
        Codepoint { codepoint: 0x1B7E, name: "BALINESE PAMADA LANTANG", aliases: &[] },
        Codepoint { codepoint: 0x1B80, name: "SUNDANESE SIGN PANYECEK", aliases: &[] },
        Codepoint { codepoint: 0x1B81, name: "SUNDANESE SIGN PANGLAYAR", aliases: &[] },
        Codepoint { codepoint: 0x1B82, name: "SUNDANESE SIGN PANGWISAD", aliases: &[] },
        Codepoint { codepoint: 0x1B83, name: "SUNDANESE LETTER A", aliases: &[] },
        Codepoint { codepoint: 0x1B84, name: "SUNDANESE LETTER I", aliases: &[] },
        Codepoint { codepoint: 0x1B85, name: "SUNDANESE LETTER U", aliases: &[] },
        Codepoint { codepoint: 0x1B86, name: "SUNDANESE LETTER AE", aliases: &[] },
        Codepoint { codepoint: 0x1B87, name: "SUNDANESE LETTER O", aliases: &[] },
        Codepoint { codepoint: 0x1B88, name: "SUNDANESE LETTER E", aliases: &[] },
        Codepoint { codepoint: 0x1B89, name: "SUNDANESE LETTER EU", aliases: &[] },
        Codepoint { codepoint: 0x1B8A, name: "SUNDANESE LETTER KA", aliases: &[] },
        Codepoint { codepoint: 0x1B8B, name: "SUNDANESE LETTER QA", aliases: &[] },
        Codepoint { codepoint: 0x1B8C, name: "SUNDANESE LETTER GA", aliases: &[] },
        Codepoint { codepoint: 0x1B8D, name: "SUNDANESE LETTER NGA", aliases: &[] },
        Codepoint { codepoint: 0x1B8E, name: "SUNDANESE LETTER CA", aliases: &[] },
        Codepoint { codepoint: 0x1B8F, name: "SUNDANESE LETTER JA", aliases: &[] },
        Codepoint { codepoint: 0x1B90, name: "SUNDANESE LETTER ZA", aliases: &[] },
        Codepoint { codepoint: 0x1B91, name: "SUNDANESE LETTER NYA", aliases: &[] },
        Codepoint { codepoint: 0x1B92, name: "SUNDANESE LETTER TA", aliases: &[] },
        Codepoint { codepoint: 0x1B93, name: "SUNDANESE LETTER DA", aliases: &[] },
    ]
}

fn all_codepoints_156() -> (v: Vec<Codepoint>)
    ensures
        v@ == codepoint_table_156(),
{
    let v = vec![
        Codepoint { codepoint: 0x1B6B, name: "BALINESE MUSICAL SYMBOL COMBINING TEGEH", aliases: &[] },
        Codepoint { codepoint: 0x1B6C, name: "BALINESE MUSICAL SYMBOL COMBINING ENDEP", aliases: &[] },
        Codepoint { codepoint: 0x1B6D, name: "BALINESE MUSICAL SYMBOL COMBINING KEMPUL", aliases: &[] },
        Codepoint { codepoint: 0x1B6E, name: "BALINESE MUSICAL SYMBOL COMBINING KEMPLI", aliases: &[] },
        Codepoint { codepoint: 0x1B6F, name: "BALINESE MUSICAL SYMBOL COMBINING JEGOGAN", aliases: &[] },
        Codepoint { codepoint: 0x1B70, name: "BALINESE MUSICAL SYMBOL COMBINING KEMPUL WITH JEGOGAN", aliases: &[] },
        Codepoint { codepoint: 0x1B71, name: "BALINESE MUSICAL SYMBOL COMBINING KEMPLI WITH JEGOGAN", aliases: &[] },
        Codepoint { codepoint: 0x1B72, name: "BALINESE MUSICAL SYMBOL COMBINING BENDE", aliases: &[] },
        Codepoint { codepoint: 0x1B73, name: "BALINESE MUSICAL SYMBOL COMBINING GONG", aliases: &[] },
        Codepoint { codepoint: 0x1B74, name: "BALINESE MUSICAL SYMBOL RIGHT-HAND OPEN DUG", aliases: &[] },
        Codepoint { codepoint: 0x1B75, name: "BALINESE MUSICAL SYMBOL RIGHT-HAND OPEN DAG", aliases: &[] },
        Codepoint { codepoint: 0x1B76, name: "BALINESE MUSICAL SYMBOL RIGHT-HAND CLOSED TUK", aliases: &[] },
        Codepoint { codepoint: 0x1B77, name: "BALINESE MUSICAL SYMBOL RIGHT-HAND CLOSED TAK", aliases: &[] },
        Codepoint { codepoint: 0x1B78, name: "BALINESE MUSICAL SYMBOL LEFT-HAND OPEN PANG", aliases: &[] },
        Codepoint { codepoint: 0x1B79, name: "BALINESE MUSICAL SYMBOL LEFT-HAND OPEN PUNG", aliases: &[] },
        Codepoint { codepoint: 0x1B7A, name: "BALINESE MUSICAL SYMBOL LEFT-HAND CLOSED PLAK", aliases: &[] },
        Codepoint { codepoint: 0x1B7B, name: "BALINESE MUSICAL SYMBOL LEFT-HAND CLOSED PLUK", aliases: &[] },
        Codepoint { codepoint: 0x1B7C, name: "BALINESE MUSICAL SYMBOL LEFT-HAND OPEN PING", aliases: &[] },
        Codepoint { codepoint: 0x1B7D, name: "BALINESE PANTI LANTANG", aliases: &[] },
        Codepoint { codepoint: 0x1B7E, name: "BALINESE PAMADA LANTANG", aliases: &[] },
        Codepoint { codepoint: 0x1B80, name: "SUNDANESE SIGN PANYECEK", aliases: &[] },
        Codepoint { codepoint: 0x1B81, name: "SUNDANESE SIGN PANGLAYAR", aliases: &[] },
        Codepoint { codepoint: 0x1B82, name: "SUNDANESE SIGN PANGWISAD", aliases: &[] },
        Codepoint { codepoint: 0x1B83, name: "SUNDANESE LETTER A", aliases: &[] },
        Codepoint { codepoint: 0x1B84, name: "SUNDANESE LETTER I", aliases: &[] },
        Codepoint { codepoint: 0x1B85, name: "SUNDANESE LETTER U", aliases: &[] },
        Codepoint { codepoint: 0x1B86, name: "SUNDANESE LETTER AE", aliases: &[] },
        Codepoint { codepoint: 0x1B87, name: "SUNDANESE LETTER O", aliases: &[] },
        Codepoint { codepoint: 0x1B88, name: "SUNDANESE LETTER E", aliases: &[] },
        Codepoint { codepoint: 0x1B89, name: "SUNDANESE LETTER EU", aliases: &[] },
        Codepoint { codepoint: 0x1B8A, name: "SUNDANESE LETTER KA", aliases: &[] },
        Codepoint { codepoint: 0x1B8B, name: "SUNDANESE LETTER QA", aliases: &[] },
        Codepoint { codepoint: 0x1B8C, name: "SUNDANESE LETTER GA", aliases: &[] },
        Codepoint { codepoint: 0x1B8D, name: "SUNDANESE LETTER NGA", aliases: &[] },
        Codepoint { codepoint: 0x1B8E, name: "SUNDANESE LETTER CA", aliases: &[] },
        Codepoint { codepoint: 0x1B8F, name: "SUNDANESE LETTER JA", aliases: &[] },
        Codepoint { codepoint: 0x1B90, name: "SUNDANESE LETTER ZA", aliases: &[] },
        Codepoint { codepoint: 0x1B91, name: "SUNDANESE LETTER NYA", aliases: &[] },
        Codepoint { codepoint: 0x1B92, name: "SUNDANESE LETTER TA", aliases: &[] },
        Codepoint { codepoint: 0x1B93, name: "SUNDANESE LETTER DA", aliases: &[] },
    ];
    assert(v@ =~= codepoint_table_156());
    v
}

pub open spec fn codepoint_table_157() -> Seq<Codepoint> {
    seq![
        Codepoint { codepoint: 0x1B94, name: "SUNDANESE LETTER NA", aliases: &[] },
        Codepoint { codepoint: 0x1B95, name: "SUNDANESE LETTER PA", aliases: &[] },
        Codepoint { codepoint: 0x1B96, name: "SUNDANESE LETTER FA", aliases: &[] },
        Codepoint { codepoint: 0x1B97, name: "SUNDANESE LETTER VA", aliases: &[] },
        Codepoint { codepoint: 0x1B98, name: "SUNDANESE LETTER BA", aliases: &[] },
        Codepoint { codepoint: 0x1B99, name: "SUNDANESE LETTER MA", aliases: &[] },
        Codepoint { codepoint: 0x1B9A, name: "SUNDANESE LETTER YA", aliases: &[] },
        Codepoint { codepoint: 0x1B9B, name: "SUNDANESE LETTER RA", aliases: &[] },
        Codepoint { codepoint: 0x1B9C, name: "SUNDANESE LETTER LA", aliases: &[] },
        Codepoint { codepoint: 0x1B9D, name: "SUNDANESE LETTER WA", aliases: &[] },
        Codepoint { codepoint: 0x1B9E, name: "SUNDANESE LETTER SA", aliases: &[] },
        Codepoint { codepoint: 0x1B9F, name: "SUNDANESE LETTER XA", aliases: &[] },
        Codepoint { codepoint: 0x1BA0, name: "SUNDANESE LETTER HA", aliases: &[] },
        Codepoint { codepoint: 0x1BA1, name: "SUNDANESE CONSONANT SIGN PAMINGKAL", aliases: &[] },
        Codepoint { codepoint: 0x1BA2, name: "SUNDANESE CONSONANT SIGN PANYAKRA", aliases: &[] },
        Codepoint { codepoint: 0x1BA3, name: "SUNDANESE CONSONANT SIGN PANYIKU", aliases: &[] },
        Codepoint { codepoint: 0x1BA4, name: "SUNDANESE VOWEL SIGN PANGHULU", aliases: &[] },
        Codepoint { codepoint: 0x1BA5, name: "SUNDANESE VOWEL SIGN PANYUKU", aliases: &[] },
        Codepoint { codepoint: 0x1BA6, name: "SUNDANESE VOWEL SIGN PANAELAENG", aliases: &[] },
        Codepoint { codepoint: 0x1BA7, name: "SUNDANESE VOWEL SIGN PANOLONG", aliases: &[] },
        Codepoint { codepoint: 0x1BA8, name: "SUNDANESE VOWEL SIGN PAMEPET", aliases: &[] },
        Codepoint { codepoint: 0x1BA9, name: "SUNDANESE VOWEL SIGN PANEULEUNG", aliases: &[] },
        Codepoint { codepoint: 0x1BAA, name: "SUNDANESE SIGN PAMAAEH", aliases: &[] },
        Codepoint { codepoint: 0x1BAB, name: "SUNDANESE SIGN VIRAMA", aliases: &[] },
        Codepoint { codepoint: 0x1BAC, name: "SUNDANESE CONSONANT SIGN PASANGAN MA", aliases: &[] },
        Codepoint { codepoint: 0x1BAD, name: "SUNDANESE CONSONANT SIGN PASANGAN WA", aliases: &[] },
        Codepoint { codepoint: 0x1BAE, name: "SUNDANESE LETTER KHA", aliases: &[] },
        Codepoint { codepoint: 0x1BAF, name: "SUNDANESE LETTER SYA", aliases: &[] },
        Codepoint { codepoint: 0x1BB0, name: "SUNDANESE DIGIT ZERO", aliases: &[] },
        Codepoint { codepoint: 0x1BB1, name: "SUNDANESE DIGIT ONE", aliases: &[] },
        Codepoint { codepoint: 0x1BB2, name: "SUNDANESE DIGIT TWO", aliases: &[] },
        Codepoint { codepoint: 0x1BB3, name: "SUNDANESE DIGIT THREE", aliases: &[] },
        Codepoint { codepoint: 0x1BB4, name: "SUNDANESE DIGIT FOUR", aliases: &[] },
        Codepoint { codepoint: 0x1BB5, name: "SUNDANESE DIGIT FIVE", aliases: &[] },
        Codepoint { codepoint: 0x1BB6, name: "SUNDANESE DIGIT SIX", aliases: &[] },
        Codepoint { codepoint: 0x1BB7, name: "SUNDANESE DIGIT SEVEN", aliases: &[] },
        Codepoint { codepoint: 0x1BB8, name: "SUNDANESE DIGIT EIGHT", aliases: &[] },
        Codepoint { codepoint: 0x1BB9, name: "SUNDANESE DIGIT NINE", aliases: &[] },
        Codepoint { codepoint: 0x1BBA, name: "SUNDANESE AVAGRAHA", aliases: &[] },
        Codepoint { codepoint: 0x1BBB, name: "SUNDANESE LETTER REU", aliases: &[] },
    ]
}

fn all_codepoints_157() -> (v: Vec<Codepoint>)
    ensures
        v@ == codepoint_table_157(),
{
    let v = vec![
        Codepoint { codepoint: 0x1B94, name: "SUNDANESE LETTER NA", aliases: &[] },
        Codepoint { codepoint: 0x1B95, name: "SUNDANESE LETTER PA", aliases: &[] },
        Codepoint { codepoint: 0x1B96, name: "SUNDANESE LETTER FA", aliases: &[] },
        Codepoint { codepoint: 0x1B97, name: "SUNDANESE LETTER VA", aliases: &[] },
        Codepoint { codepoint: 0x1B98, name: "SUNDANESE LETTER BA", aliases: &[] },
        Codepoint { codepoint: 0x1B99, name: "SUNDANESE LETTER MA", aliases: &[] },
        Codepoint { codepoint: 0x1B9A, name: "SUNDANESE LETTER YA", aliases: &[] },
        Codepoint { codepoint: 0x1B9B, name: "SUNDANESE LETTER RA", aliases: &[] },
        Codepoint { codepoint: 0x1B9C, name: "SUNDANESE LETTER LA", aliases: &[] },
        Codepoint { codepoint: 0x1B9D, name: "SUNDANESE LETTER WA", aliases: &[] },
        Codepoint { codepoint: 0x1B9E, name: "SUNDANESE LETTER SA", aliases: &[] },
        Codepoint { codepoint: 0x1B9F, name: "SUNDANESE LETTER XA", aliases: &[] },
        Codepoint { codepoint: 0x1BA0, name: "SUNDANESE LETTER HA", aliases: &[] },
        Codepoint { codepoint: 0x1BA1, name: "SUNDANESE CONSONANT SIGN PAMINGKAL", aliases: &[] },
        Codepoint { codepoint: 0x1BA2, name: "SUNDANESE CONSONANT SIGN PANYAKRA", aliases: &[] },
        Codepoint { codepoint: 0x1BA3, name: "SUNDANESE CONSONANT SIGN PANYIKU", aliases: &[] },
        Codepoint { codepoint: 0x1BA4, name: "SUNDANESE VOWEL SIGN PANGHULU", aliases: &[] },
        Codepoint { codepoint: 0x1BA5, name: "SUNDANESE VOWEL SIGN PANYUKU", aliases: &[] },
        Codepoint { codepoint: 0x1BA6, name: "SUNDANESE VOWEL SIGN PANAELAENG", aliases: &[] },
        Codepoint { codepoint: 0x1BA7, name: "SUNDANESE VOWEL SIGN PANOLONG", aliases: &[] },
        Codepoint { codepoint: 0x1BA8, name: "SUNDANESE VOWEL SIGN PAMEPET", aliases: &[] },
        Codepoint { codepoint: 0x1BA9, name: "SUNDANESE VOWEL SIGN PANEULEUNG", aliases: &[] },
        Codepoint { codepoint: 0x1BAA, name: "SUNDANESE SIGN PAMAAEH", aliases: &[] },
        Codepoint { codepoint: 0x1BAB, name: "SUNDANESE SIGN VIRAMA", aliases: &[] },
        Codepoint { codepoint: 0x1BAC, name: "SUNDANESE CONSONANT SIGN PASANGAN MA", aliases: &[] },
        Codepoint { codepoint: 0x1BAD, name: "SUNDANESE CONSONANT SIGN PASANGAN WA", aliases: &[] },
        Codepoint { codepoint: 0x1BAE, name: "SUNDANESE LETTER KHA", aliases: &[] },
        Codepoint { codepoint: 0x1BAF, name: "SUNDANESE LETTER SYA", aliases: &[] },
        Codepoint { codepoint: 0x1BB0, name: "SUNDANESE DIGIT ZERO", aliases: &[] },
        Codepoint { codepoint: 0x1BB1, name: "SUNDANESE DIGIT ONE", aliases: &[] },
        Codepoint { codepoint: 0x1BB2, name: "SUNDANESE DIGIT TWO", aliases: &[] },
        Codepoint { codepoint: 0x1BB3, name: "SUNDANESE DIGIT THREE", aliases: &[] },
        Codepoint { codepoint: 0x1BB4, name: "SUNDANESE DIGIT FOUR", aliases: &[] },
        Codepoint { codepoint: 0x1BB5, name: "SUNDANESE DIGIT FIVE", aliases: &[] },
        Codepoint { codepoint: 0x1BB6, name: "SUNDANESE DIGIT SIX", aliases: &[] },
        Codepoint { codepoint: 0x1BB7, name: "SUNDANESE DIGIT SEVEN", aliases: &[] },
        Codepoint { codepoint: 0x1BB8, name: "SUNDANESE DIGIT EIGHT", aliases: &[] },
        Codepoint { codepoint: 0x1BB9, name: "SUNDANESE DIGIT NINE", aliases: &[] },
        Codepoint { codepoint: 0x1BBA, name: "SUNDANESE AVAGRAHA", aliases: &[] },
        Codepoint { codepoint: 0x1BBB, name: "SUNDANESE LETTER REU", aliases: &[] },
    ];
    assert(v@ =~= codepoint_table_157());
    v
}

pub open spec fn codepoint_table_158() -> Seq<Codepoint> {
    seq![
        Codepoint { codepoint: 0x1BBC, name: "SUNDANESE LETTER LEU", aliases: &[] },
        Codepoint { codepoint: 0x1BBD, name: "SUNDANESE LETTER BHA", aliases: &[] },
        Codepoint { codepoint: 0x1BBE, name: "SUNDANESE LETTER FINAL K", aliases: &[] },
        Codepoint { codepoint: 0x1BBF, name: "SUNDANESE LETTER FINAL M", aliases: &[] },
        Codepoint { codepoint: 0x1BC0, name: "BATAK LETTER A", aliases: &[] },
        Codepoint { codepoint: 0x1BC1, name: "BATAK LETTER SIMALUNGUN A", aliases: &[] },
        Codepoint { codepoint: 0x1BC2, name: "BATAK LETTER HA", aliases: &[] },
        Codepoint { codepoint: 0x1BC3, name: "BATAK LETTER SIMALUNGUN HA", aliases: &[] },
        Codepoint { codepoint: 0x1BC4, name: "BATAK LETTER MANDAILING HA", aliases: &[] },
        Codepoint { codepoint: 0x1BC5, name: "BATAK LETTER BA", aliases: &[] },
        Codepoint { codepoint: 0x1BC6, name: "BATAK LETTER KARO BA", aliases: &[] },
        Codepoint { codepoint: 0x1BC7, name: "BATAK LETTER PA", aliases: &[] },
        Codepoint { codepoint: 0x1BC8, name: "BATAK LETTER SIMALUNGUN PA", aliases: &[] },
        Codepoint { codepoint: 0x1BC9, name: "BATAK LETTER NA", aliases: &[] },
        Codepoint { codepoint: 0x1BCA, name: "BATAK LETTER MANDAILING NA", aliases: &[] },
        Codepoint { codepoint: 0x1BCB, name: "BATAK LETTER WA", aliases: &[] },
        Codepoint { codepoint: 0x1BCC, name: "BATAK LETTER SIMALUNGUN WA", aliases: &[] },
        Codepoint { codepoint: 0x1BCD, name: "BATAK LETTER PAKPAK WA", aliases: &[] },
        Codepoint { codepoint: 0x1BCE, name: "BATAK LETTER GA", aliases: &[] },
        Codepoint { codepoint: 0x1BCF, name: "BATAK LETTER SIMALUNGUN GA", aliases: &[] },
        Codepoint { codepoint: 0x1BD0, name: "BATAK LETTER JA", aliases: &[] },
        Codepoint { codepoint: 0x1BD1, name: "BATAK LETTER DA", aliases: &[] },
        Codepoint { codepoint: 0x1BD2, name: "BATAK LETTER RA", aliases: &[] },
        Codepoint { codepoint: 0x1BD3, name: "BATAK LETTER SIMALUNGUN RA", aliases: &[] },
        Codepoint { codepoint: 0x1BD4, name: "BATAK LETTER MA", aliases: &[] },
        Codepoint { codepoint: 0x1BD5, name: "BATAK LETTER SIMALUNGUN MA", aliases: &[] },
        Codepoint { codepoint: 0x1BD6, name: "BATAK LETTER SOUTHERN TA", aliases: &[] },
        Codepoint { codepoint: 0x1BD7, name: "BATAK LETTER NORTHERN TA", aliases: &[] },
        Codepoint { codepoint: 0x1BD8, name: "BATAK LETTER SA", aliases: &[] },
        Codepoint { codepoint: 0x1BD9, name: "BATAK LETTER SIMALUNGUN SA", aliases: &[] },
        Codepoint { codepoint: 0x1BDA, name: "BATAK LETTER MANDAILING SA", aliases: &[] },
        Codepoint { codepoint: 0x1BDB, name: "BATAK LETTER YA", aliases: &[] },
        Codepoint { codepoint: 0x1BDC, name: "BATAK LETTER SIMALUNGUN YA", aliases: &[] },
        Codepoint { codepoint: 0x1BDD, name: "BATAK LETTER NGA", aliases: &[] },
        Codepoint { codepoint: 0x1BDE, name: "BATAK LETTER LA", aliases: &[] },
        Codepoint { codepoint: 0x1BDF, name: "BATAK LETTER SIMALUNGUN LA", aliases: &[] },
        Codepoint { codepoint: 0x1BE0, name: "BATAK LETTER NYA", aliases: &[] },
        Codepoint { codepoint: 0x1BE1, name: "BATAK LETTER CA", aliases: &[] },
        Codepoint { codepoint: 0x1BE2, name: "BATAK LETTER NDA", aliases: &[] },
        Codepoint { codepoint: 0x1BE3, name: "BATAK LETTER MBA", aliases: &[] },
    ]
}

fn all_codepoints_158() -> (v: Vec<Codepoint>)
    ensures
        v@ == codepoint_table_158(),
{
    let v = vec![
        Codepoint { codepoint: 0x1BBC, name: "SUNDANESE LETTER LEU", aliases: &[] },
        Codepoint { codepoint: 0x1BBD, name: "SUNDANESE LETTER BHA", aliases: &[] },
        Codepoint { codepoint: 0x1BBE, name: "SUNDANESE LETTER FINAL K", aliases: &[] },
        Codepoint { codepoint: 0x1BBF, name: "SUNDANESE LETTER FINAL M", aliases: &[] },
        Codepoint { codepoint: 0x1BC0, name: "BATAK LETTER A", aliases: &[] },
        Codepoint { codepoint: 0x1BC1, name: "BATAK LETTER SIMALUNGUN A", aliases: &[] },
        Codepoint { codepoint: 0x1BC2, name: "BATAK LETTER HA", aliases: &[] },
        Codepoint { codepoint: 0x1BC3, name: "BATAK LETTER SIMALUNGUN HA", aliases: &[] },
        Codepoint { codepoint: 0x1BC4, name: "BATAK LETTER MANDAILING HA", aliases: &[] },
        Codepoint { codepoint: 0x1BC5, name: "BATAK LETTER BA", aliases: &[] },
        Codepoint { codepoint: 0x1BC6, name: "BATAK LETTER KARO BA", aliases: &[] },
        Codepoint { codepoint: 0x1BC7, name: "BATAK LETTER PA", aliases: &[] },
        Codepoint { codepoint: 0x1BC8, name: "BATAK LETTER SIMALUNGUN PA", aliases: &[] },
        Codepoint { codepoint: 0x1BC9, name: "BATAK LETTER NA", aliases: &[] },
        Codepoint { codepoint: 0x1BCA, name: "BATAK LETTER MANDAILING NA", aliases: &[] },
        Codepoint { codepoint: 0x1BCB, name: "BATAK LETTER WA", aliases: &[] },
        Codepoint { codepoint: 0x1BCC, name: "BATAK LETTER SIMALUNGUN WA", aliases: &[] },
        Codepoint { codepoint: 0x1BCD, name: "BATAK LETTER PAKPAK WA", aliases: &[] },
        Codepoint { codepoint: 0x1BCE, name: "BATAK LETTER GA", aliases: &[] },
        Codepoint { codepoint: 0x1BCF, name: "BATAK LETTER SIMALUNGUN GA", aliases: &[] },
        Codepoint { codepoint: 0x1BD0, name: "BATAK LETTER JA", aliases: &[] },
        Codepoint { codepoint: 0x1BD1, name: "BATAK LETTER DA", aliases: &[] },
        Codepoint { codepoint: 0x1BD2, name: "BATAK LETTER RA", aliases: &[] },
        Codepoint { codepoint: 0x1BD3, name: "BATAK LETTER SIMALUNGUN RA", aliases: &[] },
        Codepoint { codepoint: 0x1BD4, name: "BATAK LETTER MA", aliases: &[] },
        Codepoint { codepoint: 0x1BD5, name: "BATAK LETTER SIMALUNGUN MA", aliases: &[] },
        Codepoint { codepoint: 0x1BD6, name: "BATAK LETTER SOUTHERN TA", aliases: &[] },
        Codepoint { codepoint: 0x1BD7, name: "BATAK LETTER NORTHERN TA", aliases: &[] },
        Codepoint { codepoint: 0x1BD8, name: "BATAK LETTER SA", aliases: &[] },
        Codepoint { codepoint: 0x1BD9, name: "BATAK LETTER SIMALUNGUN SA", aliases: &[] },
        Codepoint { codepoint: 0x1BDA, name: "BATAK LETTER MANDAILING SA", aliases: &[] },
        Codepoint { codepoint: 0x1BDB, name: "BATAK LETTER YA", aliases: &[] },
        Codepoint { codepoint: 0x1BDC, name: "BATAK LETTER SIMALUNGUN YA", aliases: &[] },
        Codepoint { codepoint: 0x1BDD, name: "BATAK LETTER NGA", aliases: &[] },
        Codepoint { codepoint: 0x1BDE, name: "BATAK LETTER LA", aliases: &[] },
        Codepoint { codepoint: 0x1BDF, name: "BATAK LETTER SIMALUNGUN LA", aliases: &[] },
        Codepoint { codepoint: 0x1BE0, name: "BATAK LETTER NYA", aliases: &[] },
        Codepoint { codepoint: 0x1BE1, name: "BATAK LETTER CA", aliases: &[] },
        Codepoint { codepoint: 0x1BE2, name: "BATAK LETTER NDA", aliases: &[] },
        Codepoint { codepoint: 0x1BE3, name: "BATAK LETTER MBA", aliases: &[] },
    ];
    assert(v@ =~= codepoint_table_158());
    v
}

pub open spec fn codepoint_table_159() -> Seq<Codepoint> {
    seq![
        Codepoint { codepoint: 0x1BE4, name: "BATAK LETTER I", aliases: &[] },
        Codepoint { codepoint: 0x1BE5, name: "BATAK LETTER U", aliases: &[] },
        Codepoint { codepoint: 0x1BE6, name: "BATAK SIGN TOMPI", aliases: &[] },
        Codepoint { codepoint: 0x1BE7, name: "BATAK VOWEL SIGN E", aliases: &[] },
        Codepoint { codepoint: 0x1BE8, name: "BATAK VOWEL SIGN PAKPAK E", aliases: &[] },
        Codepoint { codepoint: 0x1BE9, name: "BATAK VOWEL SIGN EE", aliases: &[] },
        Codepoint { codepoint: 0x1BEA, name: "BATAK VOWEL SIGN I", aliases: &[] },
        Codepoint { codepoint: 0x1BEB, name: "BATAK VOWEL SIGN KARO I", aliases: &[] },
        Codepoint { codepoint: 0x1BEC, name: "BATAK VOWEL SIGN O", aliases: &[] },
        Codepoint { codepoint: 0x1BED, name: "BATAK VOWEL SIGN KARO O", aliases: &[] },
        Codepoint { codepoint: 0x1BEE, name: "BATAK VOWEL SIGN U", aliases: &[] },
        Codepoint { codepoint: 0x1BEF, name: "BATAK VOWEL SIGN U FOR SIMALUNGUN SA", aliases: &[] },
        Codepoint { codepoint: 0x1BF0, name: "BATAK CONSONANT SIGN NG", aliases: &[] },
        Codepoint { codepoint: 0x1BF1, name: "BATAK CONSONANT SIGN H", aliases: &[] },
        Codepoint { codepoint: 0x1BF2, name: "BATAK PANGOLAT", aliases: &[] },
        Codepoint { codepoint: 0x1BF3, name: "BATAK PANONGONAN", aliases: &[] },
        Codepoint { codepoint: 0x1BFC, name: "BATAK SYMBOL BINDU NA METEK", aliases: &[] },
        Codepoint { codepoint: 0x1BFD, name: "BATAK SYMBOL BINDU PINARBORAS", aliases: &[] },
        Codepoint { codepoint: 0x1BFE, name: "BATAK SYMBOL BINDU JUDUL", aliases: &[] },
        Codepoint { codepoint: 0x1BFF, name: "BATAK SYMBOL BINDU PANGOLAT", aliases: &[] },
        Codepoint { codepoint: 0x1C00, name: "LEPCHA LETTER KA", aliases: &[] },
        Codepoint { codepoint: 0x1C01, name: "LEPCHA LETTER KLA", aliases: &[] },
        Codepoint { codepoint: 0x1C02, name: "LEPCHA LETTER KHA", aliases: &[] },
        Codepoint { codepoint: 0x1C03, name: "LEPCHA LETTER GA", aliases: &[] },
        Codepoint { codepoint: 0x1C04, name: "LEPCHA LETTER GLA", aliases: &[] },
        Codepoint { codepoint: 0x1C05, name: "LEPCHA LETTER NGA", aliases: &[] },
        Codepoint { codepoint: 0x1C06, name: "LEPCHA LETTER CA", aliases: &[] },
        Codepoint { codepoint: 0x1C07, name: "LEPCHA LETTER CHA", aliases: &[] },
        Codepoint { codepoint: 0x1C08, name: "LEPCHA LETTER JA", aliases: &[] },
        Codepoint { codepoint: 0x1C09, name: "LEPCHA LETTER NYA", aliases: &[] },
        Codepoint { codepoint: 0x1C0A, name: "LEPCHA LETTER TA", aliases: &[] },
        Codepoint { codepoint: 0x1C0B, name: "LEPCHA LETTER THA", aliases: &[] },
        Codepoint { codepoint: 0x1C0C, name: "LEPCHA LETTER DA", aliases: &[] },
        Codepoint { codepoint: 0x1C0D, name: "LEPCHA LETTER NA", aliases: &[] },
        Codepoint { codepoint: 0x1C0E, name: "LEPCHA LETTER PA", aliases: &[] },
        Codepoint { codepoint: 0x1C0F, name: "LEPCHA LETTER PLA", aliases: &[] },
        Codepoint { codepoint: 0x1C10, name: "LEPCHA LETTER PHA", aliases: &[] },
        Codepoint { codepoint: 0x1C11, name: "LEPCHA LETTER FA", aliases: &[] },
        Codepoint { codepoint: 0x1C12, name: "LEPCHA LETTER FLA", aliases: &[] },
        Codepoint { codepoint: 0x1C13, name: "LEPCHA LETTER BA", aliases: &[] },
    ]
}

fn all_codepoints_159() -> (v: Vec<Codepoint>)
    ensures
        v@ == codepoint_table_159(),
{
    let v = vec![
        Codepoint { codepoint: 0x1BE4, name: "BATAK LETTER I", aliases: &[] },
        Codepoint { codepoint: 0x1BE5, name: "BATAK LETTER U", aliases: &[] },
        Codepoint { codepoint: 0x1BE6, name: "BATAK SIGN TOMPI", aliases: &[] },
        Codepoint { codepoint: 0x1BE7, name: "BATAK VOWEL SIGN E", aliases: &[] },
        Codepoint { codepoint: 0x1BE8, name: "BATAK VOWEL SIGN PAKPAK E", aliases: &[] },
        Codepoint { codepoint: 0x1BE9, name: "BATAK VOWEL SIGN EE", aliases: &[] },
        Codepoint { codepoint: 0x1BEA, name: "BATAK VOWEL SIGN I", aliases: &[] },
        Codepoint { codepoint: 0x1BEB, name: "BATAK VOWEL SIGN KARO I", aliases: &[] },
        Codepoint { codepoint: 0x1BEC, name: "BATAK VOWEL SIGN O", aliases: &[] },
        Codepoint { codepoint: 0x1BED, name: "BATAK VOWEL SIGN KARO O", aliases: &[] },
        Codepoint { codepoint: 0x1BEE, name: "BATAK VOWEL SIGN U", aliases: &[] },
        Codepoint { codepoint: 0x1BEF, name: "BATAK VOWEL SIGN U FOR SIMALUNGUN SA", aliases: &[] },
        Codepoint { codepoint: 0x1BF0, name: "BATAK CONSONANT SIGN NG", aliases: &[] },
        Codepoint { codepoint: 0x1BF1, name: "BATAK CONSONANT SIGN H", aliases: &[] },
        Codepoint { codepoint: 0x1BF2, name: "BATAK PANGOLAT", aliases: &[] },
        Codepoint { codepoint: 0x1BF3, name: "BATAK PANONGONAN", aliases: &[] },
        Codepoint { codepoint: 0x1BFC, name: "BATAK SYMBOL BINDU NA METEK", aliases: &[] },
        Codepoint { codepoint: 0x1BFD, name: "BATAK SYMBOL BINDU PINARBORAS", aliases: &[] },
        Codepoint { codepoint: 0x1BFE, name: "BATAK SYMBOL BINDU JUDUL", aliases: &[] },
        Codepoint { codepoint: 0x1BFF, name: "BATAK SYMBOL BINDU PANGOLAT", aliases: &[] },
        Codepoint { codepoint: 0x1C00, name: "LEPCHA LETTER KA", aliases: &[] },
        Codepoint { codepoint: 0x1C01, name: "LEPCHA LETTER KLA", aliases: &[] },
        Codepoint { codepoint: 0x1C02, name: "LEPCHA LETTER KHA", aliases: &[] },
        Codepoint { codepoint: 0x1C03, name: "LEPCHA LETTER GA", aliases: &[] },
        Codepoint { codepoint: 0x1C04, name: "LEPCHA LETTER GLA", aliases: &[] },
        Codepoint { codepoint: 0x1C05, name: "LEPCHA LETTER NGA", aliases: &[] },
        Codepoint { codepoint: 0x1C06, name: "LEPCHA LETTER CA", aliases: &[] },
        Codepoint { codepoint: 0x1C07, name: "LEPCHA LETTER CHA", aliases: &[] },
        Codepoint { codepoint: 0x1C08, name: "LEPCHA LETTER JA", aliases: &[] },
        Codepoint { codepoint: 0x1C09, name: "LEPCHA LETTER NYA", aliases: &[] },
        Codepoint { codepoint: 0x1C0A, name: "LEPCHA LETTER TA", aliases: &[] },
        Codepoint { codepoint: 0x1C0B, name: "LEPCHA LETTER THA", aliases: &[] },
        Codepoint { codepoint: 0x1C0C, name: "LEPCHA LETTER DA", aliases: &[] },
        Codepoint { codepoint: 0x1C0D, name: "LEPCHA LETTER NA", aliases: &[] },
        Codepoint { codepoint: 0x1C0E, name: "LEPCHA LETTER PA", aliases: &[] },
        Codepoint { codepoint: 0x1C0F, name: "LEPCHA LETTER PLA", aliases: &[] },
        Codepoint { codepoint: 0x1C10, name: "LEPCHA LETTER PHA", aliases: &[] },
        Codepoint { codepoint: 0x1C11, name: "LEPCHA LETTER FA", aliases: &[] },
        Codepoint { codepoint: 0x1C12, name: "LEPCHA LETTER FLA", aliases: &[] },
        Codepoint { codepoint: 0x1C13, name: "LEPCHA LETTER BA", aliases: &[] },
    ];
    assert(v@ =~= codepoint_table_159());
    v
}

/// The entries from position 5600 of the table, 800 at most.
pub open spec fn codepoint_group_7() -> Seq<Codepoint> {
    codepoint_table_140() + codepoint_table_141() + codepoint_table_142() + codepoint_table_143() + codepoint_table_144() + codepoint_table_145() + codepoint_table_146() + codepoint_table_147() + codepoint_table_148() + codepoint_table_149() + codepoint_table_150() + codepoint_table_151() + codepoint_table_152() + codepoint_table_153() + codepoint_table_154() + codepoint_table_155() + codepoint_table_156() + codepoint_table_157() + codepoint_table_158() + codepoint_table_159()
}

pub fn all_codepoints_group_7() -> (v: Vec<Codepoint>)
    ensures
        v@ == codepoint_group_7(),
{
    let mut v = all_codepoints_140();
    let mut part = all_codepoints_141();
    v.append(&mut part);
    let mut part = all_codepoints_142();
    v.append(&mut part);
    let mut part = all_codepoints_143();
    v.append(&mut part);
    let mut part = all_codepoints_144();
    v.append(&mut part);
    let mut part = all_codepoints_145();
    v.append(&mut part);
    let mut part = all_codepoints_146();
    v.append(&mut part);
    let mut part = all_codepoints_147();
    v.append(&mut part);
    let mut part = all_codepoints_148();
    v.append(&mut part);
    let mut part = all_codepoints_149();
    v.append(&mut part);
    let mut part = all_codepoints_150();
    v.append(&mut part);
    let mut part = all_codepoints_151();
    v.append(&mut part);
    let mut part = all_codepoints_152();
    v.append(&mut part);
    let mut part = all_codepoints_153();
    v.append(&mut part);
    let mut part = all_codepoints_154();
    v.append(&mut part);
    let mut part = all_codepoints_155();
    v.append(&mut part);
    let mut part = all_codepoints_156();
    v.append(&mut part);
    let mut part = all_codepoints_157();
    v.append(&mut part);
    let mut part = all_codepoints_158();
    v.append(&mut part);
    let mut part = all_codepoints_159();
    v.append(&mut part);
    v
}

pub open spec fn codepoint_table_160() -> Seq<Codepoint> {
    seq![
        Codepoint { codepoint: 0x1C14, name: "LEPCHA LETTER BLA", aliases: &[] },
        Codepoint { codepoint: 0x1C15, name: "LEPCHA LETTER MA", aliases: &[] },
        Codepoint { codepoint: 0x1C16, name: "LEPCHA LETTER MLA", aliases: &[] },
        Codepoint { codepoint: 0x1C17, name: "LEPCHA LETTER TSA", aliases: &[] },
        Codepoint { codepoint: 0x1C18, name: "LEPCHA LETTER TSHA", aliases: &[] },
        Codepoint { codepoint: 0x1C19, name: "LEPCHA LETTER DZA", aliases: &[] },
        Codepoint { codepoint: 0x1C1A, name: "LEPCHA LETTER YA", aliases: &[] },
        Codepoint { codepoint: 0x1C1B, name: "LEPCHA LETTER RA", aliases: &[] },
        Codepoint { codepoint: 0x1C1C, name: "LEPCHA LETTER LA", aliases: &[] },
        Codepoint { codepoint: 0x1C1D, name: "LEPCHA LETTER HA", aliases: &[] },
        Codepoint { codepoint: 0x1C1E, name: "LEPCHA LETTER HLA", aliases: &[] },
        Codepoint { codepoint: 0x1C1F, name: "LEPCHA LETTER VA", aliases: &[] },
        Codepoint { codepoint: 0x1C20, name: "LEPCHA LETTER SA", aliases: &[] },
        Codepoint { codepoint: 0x1C21, name: "LEPCHA LETTER SHA", aliases: &[] },
        Codepoint { codepoint: 0x1C22, name: "LEPCHA LETTER WA", aliases: &[] },
        Codepoint { codepoint: 0x1C23, name: "LEPCHA LETTER A", aliases: &[] },
        Codepoint { codepoint: 0x1C24, name: "LEPCHA SUBJOINED LETTER YA", aliases: &[] },
        Codepoint { codepoint: 0x1C25, name: "LEPCHA SUBJOINED LETTER RA", aliases: &[] },
        Codepoint { codepoint: 0x1C26, name: "LEPCHA VOWEL SIGN AA", aliases: &[] },
        Codepoint { codepoint: 0x1C27, name: "LEPCHA VOWEL SIGN I", aliases: &[] },
        Codepoint { codepoint: 0x1C28, name: "LEPCHA VOWEL SIGN O", aliases: &[] },
        Codepoint { codepoint: 0x1C29, name: "LEPCHA VOWEL SIGN OO", aliases: &[] },
        Codepoint { codepoint: 0x1C2A, name: "LEPCHA VOWEL SIGN U", aliases: &[] },
        Codepoint { codepoint: 0x1C2B, name: "LEPCHA VOWEL SIGN UU", aliases: &[] },
        Codepoint { codepoint: 0x1C2C, name: "LEPCHA VOWEL SIGN E", aliases: &[] },
        Codepoint { codepoint: 0x1C2D, name: "LEPCHA CONSONANT SIGN K", aliases: &[] },
        Codepoint { codepoint: 0x1C2E, name: "LEPCHA CONSONANT SIGN M", aliases: &[] },
        Codepoint { codepoint: 0x1C2F, name: "LEPCHA CONSONANT SIGN L", aliases: &[] },
        Codepoint { codepoint: 0x1C30, name: "LEPCHA CONSONANT SIGN N", aliases: &[] },
        Codepoint { codepoint: 0x1C31, name: "LEPCHA CONSONANT SIGN P", aliases: &[] },
        Codepoint { codepoint: 0x1C32, name: "LEPCHA CONSONANT SIGN R", aliases: &[] },
        Codepoint { codepoint: 0x1C33, name: "LEPCHA CONSONANT SIGN T", aliases: &[] },
        Codepoint { codepoint: 0x1C34, name: "LEPCHA CONSONANT SIGN NYIN-DO", aliases: &[] },
        Codepoint { codepoint: 0x1C35, name: "LEPCHA CONSONANT SIGN KANG", aliases: &[] },
        Codepoint { codepoint: 0x1C36, name: "LEPCHA SIGN RAN", aliases: &[] },
        Codepoint { codepoint: 0x1C37, name: "LEPCHA SIGN NUKTA", aliases: &[] },
        Codepoint { codepoint: 0x1C3B, name: "LEPCHA PUNCTUATION TA-ROL", aliases: &[] },
        Codepoint { codepoint: 0x1C3C, name: "LEPCHA PUNCTUATION NYET THYOOM TA-ROL", aliases: &[] },
        Codepoint { codepoint: 0x1C3D, name: "LEPCHA PUNCTUATION CER-WA", aliases: &[] },
        Codepoint { codepoint: 0x1C3E, name: "LEPCHA PUNCTUATION TSHOOK CER-WA", aliases: &[] },
    ]
}

fn all_codepoints_160() -> (v: Vec<Codepoint>)
    ensures
        v@ == codepoint_table_160(),
{
    let v = vec![
        Codepoint { codepoint: 0x1C14, name: "LEPCHA LETTER BLA", aliases: &[] },
        Codepoint { codepoint: 0x1C15, name: "LEPCHA LETTER MA", aliases: &[] },
        Codepoint { codepoint: 0x1C16, name: "LEPCHA LETTER MLA", aliases: &[] },
        Codepoint { codepoint: 0x1C17, name: "LEPCHA LETTER TSA", aliases: &[] },
        Codepoint { codepoint: 0x1C18, name: "LEPCHA LETTER TSHA", aliases: &[] },
        Codepoint { codepoint: 0x1C19, name: "LEPCHA LETTER DZA", aliases: &[] },
        Codepoint { codepoint: 0x1C1A, name: "LEPCHA LETTER YA", aliases: &[] },
        Codepoint { codepoint: 0x1C1B, name: "LEPCHA LETTER RA", aliases: &[] },
        Codepoint { codepoint: 0x1C1C, name: "LEPCHA LETTER LA", aliases: &[] },
        Codepoint { codepoint: 0x1C1D, name: "LEPCHA LETTER HA", aliases: &[] },
        Codepoint { codepoint: 0x1C1E, name: "LEPCHA LETTER HLA", aliases: &[] },
        Codepoint { codepoint: 0x1C1F, name: "LEPCHA LETTER VA", aliases: &[] },
        Codepoint { codepoint: 0x1C20, name: "LEPCHA LETTER SA", aliases: &[] },
        Codepoint { codepoint: 0x1C21, name: "LEPCHA LETTER SHA", aliases: &[] },
        Codepoint { codepoint: 0x1C22, name: "LEPCHA LETTER WA", aliases: &[] },
        Codepoint { codepoint: 0x1C23, name: "LEPCHA LETTER A", aliases: &[] },
        Codepoint { codepoint: 0x1C24, name: "LEPCHA SUBJOINED LETTER YA", aliases: &[] },
        Codepoint { codepoint: 0x1C25, name: "LEPCHA SUBJOINED LETTER RA", aliases: &[] },
        Codepoint { codepoint: 0x1C26, name: "LEPCHA VOWEL SIGN AA", aliases: &[] },
        Codepoint { codepoint: 0x1C27, name: "LEPCHA VOWEL SIGN I", aliases: &[] },
        Codepoint { codepoint: 0x1C28, name: "LEPCHA VOWEL SIGN O", aliases: &[] },
        Codepoint { codepoint: 0x1C29, name: "LEPCHA VOWEL SIGN OO", aliases: &[] },
        Codepoint { codepoint: 0x1C2A, name: "LEPCHA VOWEL SIGN U", aliases: &[] },
        Codepoint { codepoint: 0x1C2B, name: "LEPCHA VOWEL SIGN UU", aliases: &[] },
        Codepoint { codepoint: 0x1C2C, name: "LEPCHA VOWEL SIGN E", aliases: &[] },
        Codepoint { codepoint: 0x1C2D, name: "LEPCHA CONSONANT SIGN K", aliases: &[] },
        Codepoint { codepoint: 0x1C2E, name: "LEPCHA CONSONANT SIGN M", aliases: &[] },
        Codepoint { codepoint: 0x1C2F, name: "LEPCHA CONSONANT SIGN L", aliases: &[] },
        Codepoint { codepoint: 0x1C30, name: "LEPCHA CONSONANT SIGN N", aliases: &[] },
        Codepoint { codepoint: 0x1C31, name: "LEPCHA CONSONANT SIGN P", aliases: &[] },
        Codepoint { codepoint: 0x1C32, name: "LEPCHA CONSONANT SIGN R", aliases: &[] },
        Codepoint { codepoint: 0x1C33, name: "LEPCHA CONSONANT SIGN T", aliases: &[] },
        Codepoint { codepoint: 0x1C34, name: "LEPCHA CONSONANT SIGN NYIN-DO", aliases: &[] },
        Codepoint { codepoint: 0x1C35, name: "LEPCHA CONSONANT SIGN KANG", aliases: &[] },
        Codepoint { codepoint: 0x1C36, name: "LEPCHA SIGN RAN", aliases: &[] },
        Codepoint { codepoint: 0x1C37, name: "LEPCHA SIGN NUKTA", aliases: &[] },
        Codepoint { codepoint: 0x1C3B, name: "LEPCHA PUNCTUATION TA-ROL", aliases: &[] },
        Codepoint { codepoint: 0x1C3C, name: "LEPCHA PUNCTUATION NYET THYOOM TA-ROL", aliases: &[] },
        Codepoint { codepoint: 0x1C3D, name: "LEPCHA PUNCTUATION CER-WA", aliases: &[] },
        Codepoint { codepoint: 0x1C3E, name: "LEPCHA PUNCTUATION TSHOOK CER-WA", aliases: &[] },
    ];
    assert(v@ =~= codepoint_table_160());
    v
}

pub open spec fn codepoint_table_161() -> Seq<Codepoint> {
    seq![
        Codepoint { codepoint: 0x1C3F, name: "LEPCHA PUNCTUATION TSHOOK", aliases: &[] },
        Codepoint { codepoint: 0x1C40, name: "LEPCHA DIGIT ZERO", aliases: &[] },
        Codepoint { codepoint: 0x1C41, name: "LEPCHA DIGIT ONE", aliases: &[] },
        Codepoint { codepoint: 0x1C42, name: "LEPCHA DIGIT TWO", aliases: &[] },
        Codepoint { codepoint: 0x1C43, name: "LEPCHA DIGIT THREE", aliases: &[] },
        Codepoint { codepoint: 0x1C44, name: "LEPCHA DIGIT FOUR", aliases: &[] },
        Codepoint { codepoint: 0x1C45, name: "LEPCHA DIGIT FIVE", aliases: &[] },
        Codepoint { codepoint: 0x1C46, name: "LEPCHA DIGIT SIX", aliases: &[] },
        Codepoint { codepoint: 0x1C47, name: "LEPCHA DIGIT SEVEN", aliases: &[] },
        Codepoint { codepoint: 0x1C48, name: "LEPCHA DIGIT EIGHT", aliases: &[] },
        Codepoint { codepoint: 0x1C49, name: "LEPCHA DIGIT NINE", aliases: &[] },
        Codepoint { codepoint: 0x1C4D, name: "LEPCHA LETTER TTA", aliases: &[] },
        Codepoint { codepoint: 0x1C4E, name: "LEPCHA LETTER TTHA", aliases: &[] },
        Codepoint { codepoint: 0x1C4F, name: "LEPCHA LETTER DDA", aliases: &[] },
        Codepoint { codepoint: 0x1C50, name: "OL CHIKI DIGIT ZERO", aliases: &[] },
        Codepoint { codepoint: 0x1C51, name: "OL CHIKI DIGIT ONE", aliases: &[] },
        Codepoint { codepoint: 0x1C52, name: "OL CHIKI DIGIT TWO", aliases: &[] },
        Codepoint { codepoint: 0x1C53, name: "OL CHIKI DIGIT THREE", aliases: &[] },
        Codepoint { codepoint: 0x1C54, name: "OL CHIKI DIGIT FOUR", aliases: &[] },
        Codepoint { codepoint: 0x1C55, name: "OL CHIKI DIGIT FIVE", aliases: &[] },
        Codepoint { codepoint: 0x1C56, name: "OL CHIKI DIGIT SIX", aliases: &[] },
        Codepoint { codepoint: 0x1C57, name: "OL CHIKI DIGIT SEVEN", aliases: &[] },
        Codepoint { codepoint: 0x1C58, name: "OL CHIKI DIGIT EIGHT", aliases: &[] },
        Codepoint { codepoint: 0x1C59, name: "OL CHIKI DIGIT NINE", aliases: &[] },
        Codepoint { codepoint: 0x1C5A, name: "OL CHIKI LETTER LA", aliases: &[] },
        Codepoint { codepoint: 0x1C5B, name: "OL CHIKI LETTER AT", aliases: &[] },
        Codepoint { codepoint: 0x1C5C, name: "OL CHIKI LETTER AG", aliases: &[] },
        Codepoint { codepoint: 0x1C5D, name: "OL CHIKI LETTER ANG", aliases: &[] },
        Codepoint { codepoint: 0x1C5E, name: "OL CHIKI LETTER AL", aliases: &[] },
        Codepoint { codepoint: 0x1C5F, name: "OL CHIKI LETTER LAA", aliases: &[] },
        Codepoint { codepoint: 0x1C60, name: "OL CHIKI LETTER AAK", aliases: &[] },
        Codepoint { codepoint: 0x1C61, name: "OL CHIKI LETTER AAJ", aliases: &[] },
        Codepoint { codepoint: 0x1C62, name: "OL CHIKI LETTER AAM", aliases: &[] },
        Codepoint { codepoint: 0x1C63, name: "OL CHIKI LETTER AAW", aliases: &[] },
        Codepoint { codepoint: 0x1C64, name: "OL CHIKI LETTER LI", aliases: &[] },
        Codepoint { codepoint: 0x1C65, name: "OL CHIKI LETTER IS", aliases: &[] },
        Codepoint { codepoint: 0x1C66, name: "OL CHIKI LETTER IH", aliases: &[] },
        Codepoint { codepoint: 0x1C67, name: "OL CHIKI LETTER INY", aliases: &[] },
        Codepoint { codepoint: 0x1C68, name: "OL CHIKI LETTER IR", aliases: &[] },
        Codepoint { codepoint: 0x1C69, name: "OL CHIKI LETTER LU", aliases: &[] },
    ]
}

fn all_codepoints_161() -> (v: Vec<Codepoint>)
    ensures
        v@ == codepoint_table_161(),
{
    let v = vec![
        Codepoint { codepoint: 0x1C3F, name: "LEPCHA PUNCTUATION TSHOOK", aliases: &[] },
        Codepoint { codepoint: 0x1C40, name: "LEPCHA DIGIT ZERO", aliases: &[] },
        Codepoint { codepoint: 0x1C41, name: "LEPCHA DIGIT ONE", aliases: &[] },
        Codepoint { codepoint: 0x1C42, name: "LEPCHA DIGIT TWO", aliases: &[] },
        Codepoint { codepoint: 0x1C43, name: "LEPCHA DIGIT THREE", aliases: &[] },
        Codepoint { codepoint: 0x1C44, name: "LEPCHA DIGIT FOUR", aliases: &[] },
        Codepoint { codepoint: 0x1C45, name: "LEPCHA DIGIT FIVE", aliases: &[] },
        Codepoint { codepoint: 0x1C46, name: "LEPCHA DIGIT SIX", aliases: &[] },
        Codepoint { codepoint: 0x1C47, name: "LEPCHA DIGIT SEVEN", aliases: &[] },
        Codepoint { codepoint: 0x1C48, name: "LEPCHA DIGIT EIGHT", aliases: &[] },
        Codepoint { codepoint: 0x1C49, name: "LEPCHA DIGIT NINE", aliases: &[] },
        Codepoint { codepoint: 0x1C4D, name: "LEPCHA LETTER TTA", aliases: &[] },
        Codepoint { codepoint: 0x1C4E, name: "LEPCHA LETTER TTHA", aliases: &[] },
        Codepoint { codepoint: 0x1C4F, name: "LEPCHA LETTER DDA", aliases: &[] },
        Codepoint { codepoint: 0x1C50, name: "OL CHIKI DIGIT ZERO", aliases: &[] },
        Codepoint { codepoint: 0x1C51, name: "OL CHIKI DIGIT ONE", aliases: &[] },
        Codepoint { codepoint: 0x1C52, name: "OL CHIKI DIGIT TWO", aliases: &[] },
        Codepoint { codepoint: 0x1C53, name: "OL CHIKI DIGIT THREE", aliases: &[] },
        Codepoint { codepoint: 0x1C54, name: "OL CHIKI DIGIT FOUR", aliases: &[] },
        Codepoint { codepoint: 0x1C55, name: "OL CHIKI DIGIT FIVE", aliases: &[] },
        Codepoint { codepoint: 0x1C56, name: "OL CHIKI DIGIT SIX", aliases: &[] },
        Codepoint { codepoint: 0x1C57, name: "OL CHIKI DIGIT SEVEN", aliases: &[] },
        Codepoint { codepoint: 0x1C58, name: "OL CHIKI DIGIT EIGHT", aliases: &[] },
        Codepoint { codepoint: 0x1C59, name: "OL CHIKI DIGIT NINE", aliases: &[] },
        Codepoint { codepoint: 0x1C5A, name: "OL CHIKI LETTER LA", aliases: &[] },
        Codepoint { codepoint: 0x1C5B, name: "OL CHIKI LETTER AT", aliases: &[] },
        Codepoint { codepoint: 0x1C5C, name: "OL CHIKI LETTER AG", aliases: &[] },
        Codepoint { codepoint: 0x1C5D, name: "OL CHIKI LETTER ANG", aliases: &[] },
        Codepoint { codepoint: 0x1C5E, name: "OL CHIKI LETTER AL", aliases: &[] },
        Codepoint { codepoint: 0x1C5F, name: "OL CHIKI LETTER LAA", aliases: &[] },
        Codepoint { codepoint: 0x1C60, name: "OL CHIKI LETTER AAK", aliases: &[] },
        Codepoint { codepoint: 0x1C61, name: "OL CHIKI LETTER AAJ", aliases: &[] },
        Codepoint { codepoint: 0x1C62, name: "OL CHIKI LETTER AAM", aliases: &[] },
        Codepoint { codepoint: 0x1C63, name: "OL CHIKI LETTER AAW", aliases: &[] },
        Codepoint { codepoint: 0x1C64, name: "OL CHIKI LETTER LI", aliases: &[] },
        Codepoint { codepoint: 0x1C65, name: "OL CHIKI LETTER IS", aliases: &[] },
        Codepoint { codepoint: 0x1C66, name: "OL CHIKI LETTER IH", aliases: &[] },
        Codepoint { codepoint: 0x1C67, name: "OL CHIKI LETTER INY", aliases: &[] },
        Codepoint { codepoint: 0x1C68, name: "OL CHIKI LETTER IR", aliases: &[] },
        Codepoint { codepoint: 0x1C69, name: "OL CHIKI LETTER LU", aliases: &[] },
    ];
    assert(v@ =~= codepoint_table_161());
    v
}

pub open spec fn codepoint_table_162() -> Seq<Codepoint> {
    seq![
        Codepoint { codepoint: 0x1C6A, name: "OL CHIKI LETTER UC", aliases: &[] },
        Codepoint { codepoint: 0x1C6B, name: "OL CHIKI LETTER UD", aliases: &[] },
        Codepoint { codepoint: 0x1C6C, name: "OL CHIKI LETTER UNN", aliases: &[] },
        Codepoint { codepoint: 0x1C6D, name: "OL CHIKI LETTER UY", aliases: &[] },
        Codepoint { codepoint: 0x1C6E, name: "OL CHIKI LETTER LE", aliases: &[] },
        Codepoint { codepoint: 0x1C6F, name: "OL CHIKI LETTER EP", aliases: &[] },
        Codepoint { codepoint: 0x1C70, name: "OL CHIKI LETTER EDD", aliases: &[] },
        Codepoint { codepoint: 0x1C71, name: "OL CHIKI LETTER EN", aliases: &[] },
        Codepoint { codepoint: 0x1C72, name: "OL CHIKI LETTER ERR", aliases: &[] },
        Codepoint { codepoint: 0x1C73, name: "OL CHIKI LETTER LO", aliases: &[] },
        Codepoint { codepoint: 0x1C74, name: "OL CHIKI LETTER OTT", aliases: &[] },
        Codepoint { codepoint: 0x1C75, name: "OL CHIKI LETTER OB", aliases: &[] },
        Codepoint { codepoint: 0x1C76, name: "OL CHIKI LETTER OV", aliases: &[] },
        Codepoint { codepoint: 0x1C77, name: "OL CHIKI LETTER OH", aliases: &[] },
        Codepoint { codepoint: 0x1C78, name: "OL CHIKI MU TTUDDAG", aliases: &[] },
        Codepoint { codepoint: 0x1C79, name: "OL CHIKI GAAHLAA TTUDDAAG", aliases: &[] },
        Codepoint { codepoint: 0x1C7A, name: "OL CHIKI MU-GAAHLAA TTUDDAAG", aliases: &[] },
        Codepoint { codepoint: 0x1C7B, name: "OL CHIKI RELAA", aliases: &[] },
        Codepoint { codepoint: 0x1C7C, name: "OL CHIKI PHAARKAA", aliases: &[] },
        Codepoint { codepoint: 0x1C7D, name: "OL CHIKI AHAD", aliases: &[] },
        Codepoint { codepoint: 0x1C7E, name: "OL CHIKI PUNCTUATION MUCAAD", aliases: &[] },
        Codepoint { codepoint: 0x1C7F, name: "OL CHIKI PUNCTUATION DOUBLE MUCAAD", aliases: &[] },
        Codepoint { codepoint: 0x1C80, name: "CYRILLIC SMALL LETTER ROUNDED VE", aliases: &[] },
        Codepoint { codepoint: 0x1C81, name: "CYRILLIC SMALL LETTER LONG-LEGGED DE", aliases: &[] },
        Codepoint { codepoint: 0x1C82, name: "CYRILLIC SMALL LETTER NARROW O", aliases: &[] },
        Codepoint { codepoint: 0x1C83, name: "CYRILLIC SMALL LETTER WIDE ES", aliases: &[] },
        Codepoint { codepoint: 0x1C84, name: "CYRILLIC SMALL LETTER TALL TE", aliases: &[] },
        Codepoint { codepoint: 0x1C85, name: "CYRILLIC SMALL LETTER THREE-LEGGED TE", aliases: &[] },
        Codepoint { codepoint: 0x1C86, name: "CYRILLIC SMALL LETTER TALL HARD SIGN", aliases: &[] },
        Codepoint { codepoint: 0x1C87, name: "CYRILLIC SMALL LETTER TALL YAT", aliases: &[] },
        Codepoint { codepoint: 0x1C88, name: "CYRILLIC SMALL LETTER UNBLENDED UK", aliases: &[] },
        Codepoint { codepoint: 0x1C90, name: "GEORGIAN MTAVRULI CAPITAL LETTER AN", aliases: &[] },
        Codepoint { codepoint: 0x1C91, name: "GEORGIAN MTAVRULI CAPITAL LETTER BAN", aliases: &[] },
        Codepoint { codepoint: 0x1C92, name: "GEORGIAN MTAVRULI CAPITAL LETTER GAN", aliases: &[] },
        Codepoint { codepoint: 0x1C93, name: "GEORGIAN MTAVRULI CAPITAL LETTER DON", aliases: &[] },
        Codepoint { codepoint: 0x1C94, name: "GEORGIAN MTAVRULI CAPITAL LETTER EN", aliases: &[] },
        Codepoint { codepoint: 0x1C95, name: "GEORGIAN MTAVRULI CAPITAL LETTER VIN", aliases: &[] },
        Codepoint { codepoint: 0x1C96, name: "GEORGIAN MTAVRULI CAPITAL LETTER ZEN", aliases: &[] },
        Codepoint { codepoint: 0x1C97, name: "GEORGIAN MTAVRULI CAPITAL LETTER TAN", aliases: &[] },
        Codepoint { codepoint: 0x1C98, name: "GEORGIAN MTAVRULI CAPITAL LETTER IN", aliases: &[] },
    ]
}

fn all_codepoints_162() -> (v: Vec<Codepoint>)
    ensures
        v@ == codepoint_table_162(),
{
    let v = vec![
        Codepoint { codepoint: 0x1C6A, name: "OL CHIKI LETTER UC", aliases: &[] },
        Codepoint { codepoint: 0x1C6B, name: "OL CHIKI LETTER UD", aliases: &[] },
        Codepoint { codepoint: 0x1C6C, name: "OL CHIKI LETTER UNN", aliases: &[] },
        Codepoint { codepoint: 0x1C6D, name: "OL CHIKI LETTER UY", aliases: &[] },
        Codepoint { codepoint: 0x1C6E, name: "OL CHIKI LETTER LE", aliases: &[] },
        Codepoint { codepoint: 0x1C6F, name: "OL CHIKI LETTER EP", aliases: &[] },
        Codepoint { codepoint: 0x1C70, name: "OL CHIKI LETTER EDD", aliases: &[] },
        Codepoint { codepoint: 0x1C71, name: "OL CHIKI LETTER EN", aliases: &[] },
        Codepoint { codepoint: 0x1C72, name: "OL CHIKI LETTER ERR", aliases: &[] },
        Codepoint { codepoint: 0x1C73, name: "OL CHIKI LETTER LO", aliases: &[] },
        Codepoint { codepoint: 0x1C74, name: "OL CHIKI LETTER OTT", aliases: &[] },
        Codepoint { codepoint: 0x1C75, name: "OL CHIKI LETTER OB", aliases: &[] },
        Codepoint { codepoint: 0x1C76, name: "OL CHIKI LETTER OV", aliases: &[] },
        Codepoint { codepoint: 0x1C77, name: "OL CHIKI LETTER OH", aliases: &[] },
        Codepoint { codepoint: 0x1C78, name: "OL CHIKI MU TTUDDAG", aliases: &[] },
        Codepoint { codepoint: 0x1C79, name: "OL CHIKI GAAHLAA TTUDDAAG", aliases: &[] },
        Codepoint { codepoint: 0x1C7A, name: "OL CHIKI MU-GAAHLAA TTUDDAAG", aliases: &[] },
        Codepoint { codepoint: 0x1C7B, name: "OL CHIKI RELAA", aliases: &[] },
        Codepoint { codepoint: 0x1C7C, name: "OL CHIKI PHAARKAA", aliases: &[] },
        Codepoint { codepoint: 0x1C7D, name: "OL CHIKI AHAD", aliases: &[] },
        Codepoint { codepoint: 0x1C7E, name: "OL CHIKI PUNCTUATION MUCAAD", aliases: &[] },
        Codepoint { codepoint: 0x1C7F, name: "OL CHIKI PUNCTUATION DOUBLE MUCAAD", aliases: &[] },
        Codepoint { codepoint: 0x1C80, name: "CYRILLIC SMALL LETTER ROUNDED VE", aliases: &[] },
        Codepoint { codepoint: 0x1C81, name: "CYRILLIC SMALL LETTER LONG-LEGGED DE", aliases: &[] },
        Codepoint { codepoint: 0x1C82, name: "CYRILLIC SMALL LETTER NARROW O", aliases: &[] },
        Codepoint { codepoint: 0x1C83, name: "CYRILLIC SMALL LETTER WIDE ES", aliases: &[] },
        Codepoint { codepoint: 0x1C84, name: "CYRILLIC SMALL LETTER TALL TE", aliases: &[] },
        Codepoint { codepoint: 0x1C85, name: "CYRILLIC SMALL LETTER THREE-LEGGED TE", aliases: &[] },
        Codepoint { codepoint: 0x1C86, name: "CYRILLIC SMALL LETTER TALL HARD SIGN", aliases: &[] },
        Codepoint { codepoint: 0x1C87, name: "CYRILLIC SMALL LETTER TALL YAT", aliases: &[] },
        Codepoint { codepoint: 0x1C88, name: "CYRILLIC SMALL LETTER UNBLENDED UK", aliases: &[] },
        Codepoint { codepoint: 0x1C90, name: "GEORGIAN MTAVRULI CAPITAL LETTER AN", aliases: &[] },
        Codepoint { codepoint: 0x1C91, name: "GEORGIAN MTAVRULI CAPITAL LETTER BAN", aliases: &[] },
        Codepoint { codepoint: 0x1C92, name: "GEORGIAN MTAVRULI CAPITAL LETTER GAN", aliases: &[] },
        Codepoint { codepoint: 0x1C93, name: "GEORGIAN MTAVRULI CAPITAL LETTER DON", aliases: &[] },
        Codepoint { codepoint: 0x1C94, name: "GEORGIAN MTAVRULI CAPITAL LETTER EN", aliases: &[] },
        Codepoint { codepoint: 0x1C95, name: "GEORGIAN MTAVRULI CAPITAL LETTER VIN", aliases: &[] },
        Codepoint { codepoint: 0x1C96, name: "GEORGIAN MTAVRULI CAPITAL LETTER ZEN", aliases: &[] },
        Codepoint { codepoint: 0x1C97, name: "GEORGIAN MTAVRULI CAPITAL LETTER TAN", aliases: &[] },
        Codepoint { codepoint: 0x1C98, name: "GEORGIAN MTAVRULI CAPITAL LETTER IN", aliases: &[] },
    ];
    assert(v@ =~= codepoint_table_162());
    v
}

pub open spec fn codepoint_table_163() -> Seq<Codepoint> {
    seq![
        Codepoint { codepoint: 0x1C99, name: "GEORGIAN MTAVRULI CAPITAL LETTER KAN", aliases: &[] },
        Codepoint { codepoint: 0x1C9A, name: "GEORGIAN MTAVRULI CAPITAL LETTER LAS", aliases: &[] },
        Codepoint { codepoint: 0x1C9B, name: "GEORGIAN MTAVRULI CAPITAL LETTER MAN", aliases: &[] },
        Codepoint { codepoint: 0x1C9C, name: "GEORGIAN MTAVRULI CAPITAL LETTER NAR", aliases: &[] },
        Codepoint { codepoint: 0x1C9D, name: "GEORGIAN MTAVRULI CAPITAL LETTER ON", aliases: &[] },
        Codepoint { codepoint: 0x1C9E, name: "GEORGIAN MTAVRULI CAPITAL LETTER PAR", aliases: &[] },
        Codepoint { codepoint: 0x1C9F, name: "GEORGIAN MTAVRULI CAPITAL LETTER ZHAR", aliases: &[] },
        Codepoint { codepoint: 0x1CA0, name: "GEORGIAN MTAVRULI CAPITAL LETTER RAE", aliases: &[] },
        Codepoint { codepoint: 0x1CA1, name: "GEORGIAN MTAVRULI CAPITAL LETTER SAN", aliases: &[] },
        Codepoint { codepoint: 0x1CA2, name: "GEORGIAN MTAVRULI CAPITAL LETTER TAR", aliases: &[] },
        Codepoint { codepoint: 0x1CA3, name: "GEORGIAN MTAVRULI CAPITAL LETTER UN", aliases: &[] },
        Codepoint { codepoint: 0x1CA4, name: "GEORGIAN MTAVRULI CAPITAL LETTER PHAR", aliases: &[] },
        Codepoint { codepoint: 0x1CA5, name: "GEORGIAN MTAVRULI CAPITAL LETTER KHAR", aliases: &[] },
        Codepoint { codepoint: 0x1CA6, name: "GEORGIAN MTAVRULI CAPITAL LETTER GHAN", aliases: &[] },
        Codepoint { codepoint: 0x1CA7, name: "GEORGIAN MTAVRULI CAPITAL LETTER QAR", aliases: &[] },
        Codepoint { codepoint: 0x1CA8, name: "GEORGIAN MTAVRULI CAPITAL LETTER SHIN", aliases: &[] },
        Codepoint { codepoint: 0x1CA9, name: "GEORGIAN MTAVRULI CAPITAL LETTER CHIN", aliases: &[] },
        Codepoint { codepoint: 0x1CAA, name: "GEORGIAN MTAVRULI CAPITAL LETTER CAN", aliases: &[] },
        Codepoint { codepoint: 0x1CAB, name: "GEORGIAN MTAVRULI CAPITAL LETTER JIL", aliases: &[] },
        Codepoint { codepoint: 0x1CAC, name: "GEORGIAN MTAVRULI CAPITAL LETTER CIL", aliases: &[] },
        Codepoint { codepoint: 0x1CAD, name: "GEORGIAN MTAVRULI CAPITAL LETTER CHAR", aliases: &[] },
        Codepoint { codepoint: 0x1CAE, name: "GEORGIAN MTAVRULI CAPITAL LETTER XAN", aliases: &[] },
        Codepoint { codepoint: 0x1CAF, name: "GEORGIAN MTAVRULI CAPITAL LETTER JHAN", aliases: &[] },
        Codepoint { codepoint: 0x1CB0, name: "GEORGIAN MTAVRULI CAPITAL LETTER HAE", aliases: &[] },
        Codepoint { codepoint: 0x1CB1, name: "GEORGIAN MTAVRULI CAPITAL LETTER HE", aliases: &[] },
        Codepoint { codepoint: 0x1CB2, name: "GEORGIAN MTAVRULI CAPITAL LETTER HIE", aliases: &[] },
        Codepoint { codepoint: 0x1CB3, name: "GEORGIAN MTAVRULI CAPITAL LETTER WE", aliases: &[] },
        Codepoint { codepoint: 0x1CB4, name: "GEORGIAN MTAVRULI CAPITAL LETTER HAR", aliases: &[] },
        Codepoint { codepoint: 0x1CB5, name: "GEORGIAN MTAVRULI CAPITAL LETTER HOE", aliases: &[] },
        Codepoint { codepoint: 0x1CB6, name: "GEORGIAN MTAVRULI CAPITAL LETTER FI", aliases: &[] },
        Codepoint { codepoint: 0x1CB7, name: "GEORGIAN MTAVRULI CAPITAL LETTER YN", aliases: &[] },
        Codepoint { codepoint: 0x1CB8, name: "GEORGIAN MTAVRULI CAPITAL LETTER ELIFI", aliases: &[] },
        Codepoint { codepoint: 0x1CB9, name: "GEORGIAN MTAVRULI CAPITAL LETTER TURNED GAN", aliases: &[] },
        Codepoint { codepoint: 0x1CBA, name: "GEORGIAN MTAVRULI CAPITAL LETTER AIN", aliases: &[] },
        Codepoint { codepoint: 0x1CBD, name: "GEORGIAN MTAVRULI CAPITAL LETTER AEN", aliases: &[] },
        Codepoint { codepoint: 0x1CBE, name: "GEORGIAN MTAVRULI CAPITAL LETTER HARD SIGN", aliases: &[] },
        Codepoint { codepoint: 0x1CBF, name: "GEORGIAN MTAVRULI CAPITAL LETTER LABIAL SIGN", aliases: &[] },
        Codepoint { codepoint: 0x1CC0, name: "SUNDANESE PUNCTUATION BINDU SURYA", aliases: &[] },
        Codepoint { codepoint: 0x1CC1, name: "SUNDANESE PUNCTUATION BINDU PANGLONG", aliases: &[] },
        Codepoint { codepoint: 0x1CC2, name: "SUNDANESE PUNCTUATION BINDU PURNAMA", aliases: &[] },
    ]
}

fn all_codepoints_163() -> (v: Vec<Codepoint>)
    ensures
        v@ == codepoint_table_163(),
{
    let v = vec![
        Codepoint { codepoint: 0x1C99, name: "GEORGIAN MTAVRULI CAPITAL LETTER KAN", aliases: &[] },
        Codepoint { codepoint: 0x1C9A, name: "GEORGIAN MTAVRULI CAPITAL LETTER LAS", aliases: &[] },
        Codepoint { codepoint: 0x1C9B, name: "GEORGIAN MTAVRULI CAPITAL LETTER MAN", aliases: &[] },
        Codepoint { codepoint: 0x1C9C, name: "GEORGIAN MTAVRULI CAPITAL LETTER NAR", aliases: &[] },
        Codepoint { codepoint: 0x1C9D, name: "GEORGIAN MTAVRULI CAPITAL LETTER ON", aliases: &[] },
        Codepoint { codepoint: 0x1C9E, name: "GEORGIAN MTAVRULI CAPITAL LETTER PAR", aliases: &[] },
        Codepoint { codepoint: 0x1C9F, name: "GEORGIAN MTAVRULI CAPITAL LETTER ZHAR", aliases: &[] },
        Codepoint { codepoint: 0x1CA0, name: "GEORGIAN MTAVRULI CAPITAL LETTER RAE", aliases: &[] },
        Codepoint { codepoint: 0x1CA1, name: "GEORGIAN MTAVRULI CAPITAL LETTER SAN", aliases: &[] },
        Codepoint { codepoint: 0x1CA2, name: "GEORGIAN MTAVRULI CAPITAL LETTER TAR", aliases: &[] },
        Codepoint { codepoint: 0x1CA3, name: "GEORGIAN MTAVRULI CAPITAL LETTER UN", aliases: &[] },
        Codepoint { codepoint: 0x1CA4, name: "GEORGIAN MTAVRULI CAPITAL LETTER PHAR", aliases: &[] },
        Codepoint { codepoint: 0x1CA5, name: "GEORGIAN MTAVRULI CAPITAL LETTER KHAR", aliases: &[] },
        Codepoint { codepoint: 0x1CA6, name: "GEORGIAN MTAVRULI CAPITAL LETTER GHAN", aliases: &[] },
        Codepoint { codepoint: 0x1CA7, name: "GEORGIAN MTAVRULI CAPITAL LETTER QAR", aliases: &[] },
        Codepoint { codepoint: 0x1CA8, name: "GEORGIAN MTAVRULI CAPITAL LETTER SHIN", aliases: &[] },
        Codepoint { codepoint: 0x1CA9, name: "GEORGIAN MTAVRULI CAPITAL LETTER CHIN", aliases: &[] },
        Codepoint { codepoint: 0x1CAA, name: "GEORGIAN MTAVRULI CAPITAL LETTER CAN", aliases: &[] },
        Codepoint { codepoint: 0x1CAB, name: "GEORGIAN MTAVRULI CAPITAL LETTER JIL", aliases: &[] },
        Codepoint { codepoint: 0x1CAC, name: "GEORGIAN MTAVRULI CAPITAL LETTER CIL", aliases: &[] },
        Codepoint { codepoint: 0x1CAD, name: "GEORGIAN MTAVRULI CAPITAL LETTER CHAR", aliases: &[] },
        Codepoint { codepoint: 0x1CAE, name: "GEORGIAN MTAVRULI CAPITAL LETTER XAN", aliases: &[] },
        Codepoint { codepoint: 0x1CAF, name: "GEORGIAN MTAVRULI CAPITAL LETTER JHAN", aliases: &[] },
        Codepoint { codepoint: 0x1CB0, name: "GEORGIAN MTAVRULI CAPITAL LETTER HAE", aliases: &[] },
        Codepoint { codepoint: 0x1CB1, name: "GEORGIAN MTAVRULI CAPITAL LETTER HE", aliases: &[] },
        Codepoint { codepoint: 0x1CB2, name: "GEORGIAN MTAVRULI CAPITAL LETTER HIE", aliases: &[] },
        Codepoint { codepoint: 0x1CB3, name: "GEORGIAN MTAVRULI CAPITAL LETTER WE", aliases: &[] },
        Codepoint { codepoint: 0x1CB4, name: "GEORGIAN MTAVRULI CAPITAL LETTER HAR", aliases: &[] },
        Codepoint { codepoint: 0x1CB5, name: "GEORGIAN MTAVRULI CAPITAL LETTER HOE", aliases: &[] },
        Codepoint { codepoint: 0x1CB6, name: "GEORGIAN MTAVRULI CAPITAL LETTER FI", aliases: &[] },
        Codepoint { codepoint: 0x1CB7, name: "GEORGIAN MTAVRULI CAPITAL LETTER YN", aliases: &[] },
        Codepoint { codepoint: 0x1CB8, name: "GEORGIAN MTAVRULI CAPITAL LETTER ELIFI", aliases: &[] },
        Codepoint { codepoint: 0x1CB9, name: "GEORGIAN MTAVRULI CAPITAL LETTER TURNED GAN", aliases: &[] },
        Codepoint { codepoint: 0x1CBA, name: "GEORGIAN MTAVRULI CAPITAL LETTER AIN", aliases: &[] },
        Codepoint { codepoint: 0x1CBD, name: "GEORGIAN MTAVRULI CAPITAL LETTER AEN", aliases: &[] },
        Codepoint { codepoint: 0x1CBE, name: "GEORGIAN MTAVRULI CAPITAL LETTER HARD SIGN", aliases: &[] },
        Codepoint { codepoint: 0x1CBF, name: "GEORGIAN MTAVRULI CAPITAL LETTER LABIAL SIGN", aliases: &[] },
        Codepoint { codepoint: 0x1CC0, name: "SUNDANESE PUNCTUATION BINDU SURYA", aliases: &[] },
        Codepoint { codepoint: 0x1CC1, name: "SUNDANESE PUNCTUATION BINDU PANGLONG", aliases: &[] },
        Codepoint { codepoint: 0x1CC2, name: "SUNDANESE PUNCTUATION BINDU PURNAMA", aliases: &[] },
    ];
    assert(v@ =~= codepoint_table_163());
    v
}

pub open spec fn codepoint_table_164() -> Seq<Codepoint> {
    seq![
        Codepoint { codepoint: 0x1CC3, name: "SUNDANESE PUNCTUATION BINDU CAKRA", aliases: &[] },
        Codepoint { codepoint: 0x1CC4, name: "SUNDANESE PUNCTUATION BINDU LEU SATANGA", aliases: &[] },
        Codepoint { codepoint: 0x1CC5, name: "SUNDANESE PUNCTUATION BINDU KA SATANGA", aliases: &[] },
        Codepoint { codepoint: 0x1CC6, name: "SUNDANESE PUNCTUATION BINDU DA SATANGA", aliases: &[] },
        Codepoint { codepoint: 0x1CC7, name: "SUNDANESE PUNCTUATION BINDU BA SATANGA", aliases: &[] },
        Codepoint { codepoint: 0x1CD0, name: "VEDIC TONE KARSHANA", aliases: &[] },
        Codepoint { codepoint: 0x1CD1, name: "VEDIC TONE SHARA", aliases: &[] },
        Codepoint { codepoint: 0x1CD2, name: "VEDIC TONE PRENKHA", aliases: &[] },
        Codepoint { codepoint: 0x1CD3, name: "VEDIC SIGN NIHSHVASA", aliases: &[] },
        Codepoint { codepoint: 0x1CD4, name: "VEDIC SIGN YAJURVEDIC MIDLINE SVARITA", aliases: &[] },
        Codepoint { codepoint: 0x1CD5, name: "VEDIC TONE YAJURVEDIC AGGRAVATED INDEPENDENT SVARITA", aliases: &[] },
        Codepoint { codepoint: 0x1CD6, name: "VEDIC TONE YAJURVEDIC INDEPENDENT SVARITA", aliases: &[] },
        Codepoint { codepoint: 0x1CD7, name: "VEDIC TONE YAJURVEDIC KATHAKA INDEPENDENT SVARITA", aliases: &[] },
        Codepoint { codepoint: 0x1CD8, name: "VEDIC TONE CANDRA BELOW", aliases: &[] },
        Codepoint { codepoint: 0x1CD9, name: "VEDIC TONE YAJURVEDIC KATHAKA INDEPENDENT SVARITA SCHROEDER", aliases: &[] },
        Codepoint { codepoint: 0x1CDA, name: "VEDIC TONE DOUBLE SVARITA", aliases: &[] },
        Codepoint { codepoint: 0x1CDB, name: "VEDIC TONE TRIPLE SVARITA", aliases: &[] },
        Codepoint { codepoint: 0x1CDC, name: "VEDIC TONE KATHAKA ANUDATTA", aliases: &[] },
        Codepoint { codepoint: 0x1CDD, name: "VEDIC TONE DOT BELOW", aliases: &[] },
        Codepoint { codepoint: 0x1CDE, name: "VEDIC TONE TWO DOTS BELOW", aliases: &[] },
        Codepoint { codepoint: 0x1CDF, name: "VEDIC TONE THREE DOTS BELOW", aliases: &[] },
        Codepoint { codepoint: 0x1CE0, name: "VEDIC TONE RIGVEDIC KASHMIRI INDEPENDENT SVARITA", aliases: &[] },
        Codepoint { codepoint: 0x1CE1, name: "VEDIC TONE ATHARVAVEDIC INDEPENDENT SVARITA", aliases: &[] },
        Codepoint { codepoint: 0x1CE2, name: "VEDIC SIGN VISARGA SVARITA", aliases: &[] },
        Codepoint { codepoint: 0x1CE3, name: "VEDIC SIGN VISARGA UDATTA", aliases: &[] },
        Codepoint { codepoint: 0x1CE4, name: "VEDIC SIGN REVERSED VISARGA UDATTA", aliases: &[] },
        Codepoint { codepoint: 0x1CE5, name: "VEDIC SIGN VISARGA ANUDATTA", aliases: &[] },
        Codepoint { codepoint: 0x1CE6, name: "VEDIC SIGN REVERSED VISARGA ANUDATTA", aliases: &[] },
        Codepoint { codepoint: 0x1CE7, name: "VEDIC SIGN VISARGA UDATTA WITH TAIL", aliases: &[] },
        Codepoint { codepoint: 0x1CE8, name: "VEDIC SIGN VISARGA ANUDATTA WITH TAIL", aliases: &[] },
        Codepoint { codepoint: 0x1CE9, name: "VEDIC SIGN ANUSVARA ANTARGOMUKHA", aliases: &[] },
        Codepoint { codepoint: 0x1CEA, name: "VEDIC SIGN ANUSVARA BAHIRGOMUKHA", aliases: &[] },
        Codepoint { codepoint: 0x1CEB, name: "VEDIC SIGN ANUSVARA VAMAGOMUKHA", aliases: &[] },
        Codepoint { codepoint: 0x1CEC, name: "VEDIC SIGN ANUSVARA VAMAGOMUKHA WITH TAIL", aliases: &[] },
        Codepoint { codepoint: 0x1CED, name: "VEDIC SIGN TIRYAK", aliases: &[] },
        Codepoint { codepoint: 0x1CEE, name: "VEDIC SIGN HEXIFORM LONG ANUSVARA", aliases: &[] },
        Codepoint { codepoint: 0x1CEF, name: "VEDIC SIGN LONG ANUSVARA", aliases: &[] },
        Codepoint { codepoint: 0x1CF0, name: "VEDIC SIGN RTHANG LONG ANUSVARA", aliases: &[] },
        Codepoint { codepoint: 0x1CF1, name: "VEDIC SIGN ANUSVARA UBHAYATO MUKHA", aliases: &[] },
        Codepoint { codepoint: 0x1CF2, name: "VEDIC SIGN ARDHAVISARGA", aliases: &[] },
    ]
}

fn all_codepoints_164() -> (v: Vec<Codepoint>)
    ensures
        v@ == codepoint_table_164(),
{
    let v = vec![
        Codepoint { codepoint: 0x1CC3, name: "SUNDANESE PUNCTUATION BINDU CAKRA", aliases: &[] },
        Codepoint { codepoint: 0x1CC4, name: "SUNDANESE PUNCTUATION BINDU LEU SATANGA", aliases: &[] },
        Codepoint { codepoint: 0x1CC5, name: "SUNDANESE PUNCTUATION BINDU KA SATANGA", aliases: &[] },
        Codepoint { codepoint: 0x1CC6, name: "SUNDANESE PUNCTUATION BINDU DA SATANGA", aliases: &[] },
        Codepoint { codepoint: 0x1CC7, name: "SUNDANESE PUNCTUATION BINDU BA SATANGA", aliases: &[] },
        Codepoint { codepoint: 0x1CD0, name: "VEDIC TONE KARSHANA", aliases: &[] },
        Codepoint { codepoint: 0x1CD1, name: "VEDIC TONE SHARA", aliases: &[] },
        Codepoint { codepoint: 0x1CD2, name: "VEDIC TONE PRENKHA", aliases: &[] },
        Codepoint { codepoint: 0x1CD3, name: "VEDIC SIGN NIHSHVASA", aliases: &[] },
        Codepoint { codepoint: 0x1CD4, name: "VEDIC SIGN YAJURVEDIC MIDLINE SVARITA", aliases: &[] },
        Codepoint { codepoint: 0x1CD5, name: "VEDIC TONE YAJURVEDIC AGGRAVATED INDEPENDENT SVARITA", aliases: &[] },
        Codepoint { codepoint: 0x1CD6, name: "VEDIC TONE YAJURVEDIC INDEPENDENT SVARITA", aliases: &[] },
        Codepoint { codepoint: 0x1CD7, name: "VEDIC TONE YAJURVEDIC KATHAKA INDEPENDENT SVARITA", aliases: &[] },
        Codepoint { codepoint: 0x1CD8, name: "VEDIC TONE CANDRA BELOW", aliases: &[] },
        Codepoint { codepoint: 0x1CD9, name: "VEDIC TONE YAJURVEDIC KATHAKA INDEPENDENT SVARITA SCHROEDER", aliases: &[] },
        Codepoint { codepoint: 0x1CDA, name: "VEDIC TONE DOUBLE SVARITA", aliases: &[] },
        Codepoint { codepoint: 0x1CDB, name: "VEDIC TONE TRIPLE SVARITA", aliases: &[] },
        Codepoint { codepoint: 0x1CDC, name: "VEDIC TONE KATHAKA ANUDATTA", aliases: &[] },
        Codepoint { codepoint: 0x1CDD, name: "VEDIC TONE DOT BELOW", aliases: &[] },
        Codepoint { codepoint: 0x1CDE, name: "VEDIC TONE TWO DOTS BELOW", aliases: &[] },
        Codepoint { codepoint: 0x1CDF, name: "VEDIC TONE THREE DOTS BELOW", aliases: &[] },
        Codepoint { codepoint: 0x1CE0, name: "VEDIC TONE RIGVEDIC KASHMIRI INDEPENDENT SVARITA", aliases: &[] },
        Codepoint { codepoint: 0x1CE1, name: "VEDIC TONE ATHARVAVEDIC INDEPENDENT SVARITA", aliases: &[] },
        Codepoint { codepoint: 0x1CE2, name: "VEDIC SIGN VISARGA SVARITA", aliases: &[] },
        Codepoint { codepoint: 0x1CE3, name: "VEDIC SIGN VISARGA UDATTA", aliases: &[] },
        Codepoint { codepoint: 0x1CE4, name: "VEDIC SIGN REVERSED VISARGA UDATTA", aliases: &[] },
        Codepoint { codepoint: 0x1CE5, name: "VEDIC SIGN VISARGA ANUDATTA", aliases: &[] },
        Codepoint { codepoint: 0x1CE6, name: "VEDIC SIGN REVERSED VISARGA ANUDATTA", aliases: &[] },
        Codepoint { codepoint: 0x1CE7, name: "VEDIC SIGN VISARGA UDATTA WITH TAIL", aliases: &[] },
        Codepoint { codepoint: 0x1CE8, name: "VEDIC SIGN VISARGA ANUDATTA WITH TAIL", aliases: &[] },
        Codepoint { codepoint: 0x1CE9, name: "VEDIC SIGN ANUSVARA ANTARGOMUKHA", aliases: &[] },
        Codepoint { codepoint: 0x1CEA, name: "VEDIC SIGN ANUSVARA BAHIRGOMUKHA", aliases: &[] },
        Codepoint { codepoint: 0x1CEB, name: "VEDIC SIGN ANUSVARA VAMAGOMUKHA", aliases: &[] },
        Codepoint { codepoint: 0x1CEC, name: "VEDIC SIGN ANUSVARA VAMAGOMUKHA WITH TAIL", aliases: &[] },
        Codepoint { codepoint: 0x1CED, name: "VEDIC SIGN TIRYAK", aliases: &[] },
        Codepoint { codepoint: 0x1CEE, name: "VEDIC SIGN HEXIFORM LONG ANUSVARA", aliases: &[] },
        Codepoint { codepoint: 0x1CEF, name: "VEDIC SIGN LONG ANUSVARA", aliases: &[] },
        Codepoint { codepoint: 0x1CF0, name: "VEDIC SIGN RTHANG LONG ANUSVARA", aliases: &[] },
        Codepoint { codepoint: 0x1CF1, name: "VEDIC SIGN ANUSVARA UBHAYATO MUKHA", aliases: &[] },
        Codepoint { codepoint: 0x1CF2, name: "VEDIC SIGN ARDHAVISARGA", aliases: &[] },
    ];
    assert(v@ =~= codepoint_table_164());
    v
}

pub open spec fn codepoint_table_165() -> Seq<Codepoint> {
    seq![
        Codepoint { codepoint: 0x1CF3, name: "VEDIC SIGN ROTATED ARDHAVISARGA", aliases: &[] },
        Codepoint { codepoint: 0x1CF4, name: "VEDIC TONE CANDRA ABOVE", aliases: &[] },
        Codepoint { codepoint: 0x1CF5, name: "VEDIC SIGN JIHVAMULIYA", aliases: &[] },
        Codepoint { codepoint: 0x1CF6, name: "VEDIC SIGN UPADHMANIYA", aliases: &[] },
        Codepoint { codepoint: 0x1CF7, name: "VEDIC SIGN ATIKRAMA", aliases: &[] },
        Codepoint { codepoint: 0x1CF8, name: "VEDIC TONE RING ABOVE", aliases: &[] },
        Codepoint { codepoint: 0x1CF9, name: "VEDIC TONE DOUBLE RING ABOVE", aliases: &[] },
        Codepoint { codepoint: 0x1CFA, name: "VEDIC SIGN DOUBLE ANUSVARA ANTARGOMUKHA", aliases: &[] },
        Codepoint { codepoint: 0x1D00, name: "LATIN LETTER SMALL CAPITAL A", aliases: &[] },
        Codepoint { codepoint: 0x1D01, name: "LATIN LETTER SMALL CAPITAL AE", aliases: &[] },
        Codepoint { codepoint: 0x1D02, name: "LATIN SMALL LETTER TURNED AE", aliases: &[] },
        Codepoint { codepoint: 0x1D03, name: "LATIN LETTER SMALL CAPITAL BARRED B", aliases: &[] },
        Codepoint { codepoint: 0x1D04, name: "LATIN LETTER SMALL CAPITAL C", aliases: &[] },
        Codepoint { codepoint: 0x1D05, name: "LATIN LETTER SMALL CAPITAL D", aliases: &[] },
        Codepoint { codepoint: 0x1D06, name: "LATIN LETTER SMALL CAPITAL ETH", aliases: &[] },
        Codepoint { codepoint: 0x1D07, name: "LATIN LETTER SMALL CAPITAL E", aliases: &[] },
        Codepoint { codepoint: 0x1D08, name: "LATIN SMALL LETTER TURNED OPEN E", aliases: &[] },
        Codepoint { codepoint: 0x1D09, name: "LATIN SMALL LETTER TURNED I", aliases: &[] },
        Codepoint { codepoint: 0x1D0A, name: "LATIN LETTER SMALL CAPITAL J", aliases: &[] },
        Codepoint { codepoint: 0x1D0B, name: "LATIN LETTER SMALL CAPITAL K", aliases: &[] },
        Codepoint { codepoint: 0x1D0C, name: "LATIN LETTER SMALL CAPITAL L WITH STROKE", aliases: &[] },
        Codepoint { codepoint: 0x1D0D, name: "LATIN LETTER SMALL CAPITAL M", aliases: &[] },
        Codepoint { codepoint: 0x1D0E, name: "LATIN LETTER SMALL CAPITAL REVERSED N", aliases: &[] },
        Codepoint { codepoint: 0x1D0F, name: "LATIN LETTER SMALL CAPITAL O", aliases: &[] },
        Codepoint { codepoint: 0x1D10, name: "LATIN LETTER SMALL CAPITAL OPEN O", aliases: &[] },
        Codepoint { codepoint: 0x1D11, name: "LATIN SMALL LETTER SIDEWAYS O", aliases: &[] },
        Codepoint { codepoint: 0x1D12, name: "LATIN SMALL LETTER SIDEWAYS OPEN O", aliases: &[] },
        Codepoint { codepoint: 0x1D13, name: "LATIN SMALL LETTER SIDEWAYS O WITH STROKE", aliases: &[] },
        Codepoint { codepoint: 0x1D14, name: "LATIN SMALL LETTER TURNED OE", aliases: &[] },
        Codepoint { codepoint: 0x1D15, name: "LATIN LETTER SMALL CAPITAL OU", aliases: &[] },
        Codepoint { codepoint: 0x1D16, name: "LATIN SMALL LETTER TOP HALF O", aliases: &[] },
        Codepoint { codepoint: 0x1D17, name: "LATIN SMALL LETTER BOTTOM HALF O", aliases: &[] },
        Codepoint { codepoint: 0x1D18, name: "LATIN LETTER SMALL CAPITAL P", aliases: &[] },
        Codepoint { codepoint: 0x1D19, name: "LATIN LETTER SMALL CAPITAL REVERSED R", aliases: &[] },
        Codepoint { codepoint: 0x1D1A, name: "LATIN LETTER SMALL CAPITAL TURNED R", aliases: &[] },
        Codepoint { codepoint: 0x1D1B, name: "LATIN LETTER SMALL CAPITAL T", aliases: &[] },
        Codepoint { codepoint: 0x1D1C, name: "LATIN LETTER SMALL CAPITAL U", aliases: &[] },
        Codepoint { codepoint: 0x1D1D, name: "LATIN SMALL LETTER SIDEWAYS U", aliases: &[] },
        Codepoint { codepoint: 0x1D1E, name: "LATIN SMALL LETTER SIDEWAYS DIAERESIZED U", aliases: &[] },
        Codepoint { codepoint: 0x1D1F, name: "LATIN SMALL LETTER SIDEWAYS TURNED M", aliases: &[] },
    ]
}

fn all_codepoints_165() -> (v: Vec<Codepoint>)
    ensures
        v@ == codepoint_table_165(),
{
    let v = vec![
        Codepoint { codepoint: 0x1CF3, name: "VEDIC SIGN ROTATED ARDHAVISARGA", aliases: &[] },
        Codepoint { codepoint: 0x1CF4, name: "VEDIC TONE CANDRA ABOVE", aliases: &[] },
        Codepoint { codepoint: 0x1CF5, name: "VEDIC SIGN JIHVAMULIYA", aliases: &[] },
        Codepoint { codepoint: 0x1CF6, name: "VEDIC SIGN UPADHMANIYA", aliases: &[] },
        Codepoint { codepoint: 0x1CF7, name: "VEDIC SIGN ATIKRAMA", aliases: &[] },
        Codepoint { codepoint: 0x1CF8, name: "VEDIC TONE RING ABOVE", aliases: &[] },
        Codepoint { codepoint: 0x1CF9, name: "VEDIC TONE DOUBLE RING ABOVE", aliases: &[] },
        Codepoint { codepoint: 0x1CFA, name: "VEDIC SIGN DOUBLE ANUSVARA ANTARGOMUKHA", aliases: &[] },
        Codepoint { codepoint: 0x1D00, name: "LATIN LETTER SMALL CAPITAL A", aliases: &[] },
        Codepoint { codepoint: 0x1D01, name: "LATIN LETTER SMALL CAPITAL AE", aliases: &[] },
        Codepoint { codepoint: 0x1D02, name: "LATIN SMALL LETTER TURNED AE", aliases: &[] },
        Codepoint { codepoint: 0x1D03, name: "LATIN LETTER SMALL CAPITAL BARRED B", aliases: &[] },
        Codepoint { codepoint: 0x1D04, name: "LATIN LETTER SMALL CAPITAL C", aliases: &[] },
        Codepoint { codepoint: 0x1D05, name: "LATIN LETTER SMALL CAPITAL D", aliases: &[] },
        Codepoint { codepoint: 0x1D06, name: "LATIN LETTER SMALL CAPITAL ETH", aliases: &[] },
        Codepoint { codepoint: 0x1D07, name: "LATIN LETTER SMALL CAPITAL E", aliases: &[] },
        Codepoint { codepoint: 0x1D08, name: "LATIN SMALL LETTER TURNED OPEN E", aliases: &[] },
        Codepoint { codepoint: 0x1D09, name: "LATIN SMALL LETTER TURNED I", aliases: &[] },
        Codepoint { codepoint: 0x1D0A, name: "LATIN LETTER SMALL CAPITAL J", aliases: &[] },
        Codepoint { codepoint: 0x1D0B, name: "LATIN LETTER SMALL CAPITAL K", aliases: &[] },
        Codepoint { codepoint: 0x1D0C, name: "LATIN LETTER SMALL CAPITAL L WITH STROKE", aliases: &[] },
        Codepoint { codepoint: 0x1D0D, name: "LATIN LETTER SMALL CAPITAL M", aliases: &[] },
        Codepoint { codepoint: 0x1D0E, name: "LATIN LETTER SMALL CAPITAL REVERSED N", aliases: &[] },
        Codepoint { codepoint: 0x1D0F, name: "LATIN LETTER SMALL CAPITAL O", aliases: &[] },
        Codepoint { codepoint: 0x1D10, name: "LATIN LETTER SMALL CAPITAL OPEN O", aliases: &[] },
        Codepoint { codepoint: 0x1D11, name: "LATIN SMALL LETTER SIDEWAYS O", aliases: &[] },
        Codepoint { codepoint: 0x1D12, name: "LATIN SMALL LETTER SIDEWAYS OPEN O", aliases: &[] },
        Codepoint { codepoint: 0x1D13, name: "LATIN SMALL LETTER SIDEWAYS O WITH STROKE", aliases: &[] },
        Codepoint { codepoint: 0x1D14, name: "LATIN SMALL LETTER TURNED OE", aliases: &[] },
        Codepoint { codepoint: 0x1D15, name: "LATIN LETTER SMALL CAPITAL OU", aliases: &[] },
        Codepoint { codepoint: 0x1D16, name: "LATIN SMALL LETTER TOP HALF O", aliases: &[] },
        Codepoint { codepoint: 0x1D17, name: "LATIN SMALL LETTER BOTTOM HALF O", aliases: &[] },
        Codepoint { codepoint: 0x1D18, name: "LATIN LETTER SMALL CAPITAL P", aliases: &[] },
        Codepoint { codepoint: 0x1D19, name: "LATIN LETTER SMALL CAPITAL REVERSED R", aliases: &[] },
        Codepoint { codepoint: 0x1D1A, name: "LATIN LETTER SMALL CAPITAL TURNED R", aliases: &[] },
        Codepoint { codepoint: 0x1D1B, name: "LATIN LETTER SMALL CAPITAL T", aliases: &[] },
        Codepoint { codepoint: 0x1D1C, name: "LATIN LETTER SMALL CAPITAL U", aliases: &[] },
        Codepoint { codepoint: 0x1D1D, name: "LATIN SMALL LETTER SIDEWAYS U", aliases: &[] },
        Codepoint { codepoint: 0x1D1E, name: "LATIN SMALL LETTER SIDEWAYS DIAERESIZED U", aliases: &[] },
        Codepoint { codepoint: 0x1D1F, name: "LATIN SMALL LETTER SIDEWAYS TURNED M", aliases: &[] },
    ];
    assert(v@ =~= codepoint_table_165());
    v
}

pub open spec fn codepoint_table_166() -> Seq<Codepoint> {
    seq![
        Codepoint { codepoint: 0x1D20, name: "LATIN LETTER SMALL CAPITAL V", aliases: &[] },
        Codepoint { codepoint: 0x1D21, name: "LATIN LETTER SMALL CAPITAL W", aliases: &[] },
        Codepoint { codepoint: 0x1D22, name: "LATIN LETTER SMALL CAPITAL Z", aliases: &[] },
        Codepoint { codepoint: 0x1D23, name: "LATIN LETTER SMALL CAPITAL EZH", aliases: &[] },
        Codepoint { codepoint: 0x1D24, name: "LATIN LETTER VOICED LARYNGEAL SPIRANT", aliases: &[] },
        Codepoint { codepoint: 0x1D25, name: "LATIN LETTER AIN", aliases: &[] },
        Codepoint { codepoint: 0x1D26, name: "GREEK LETTER SMALL CAPITAL GAMMA", aliases: &[] },
        Codepoint { codepoint: 0x1D27, name: "GREEK LETTER SMALL CAPITAL LAMDA", aliases: &[] },
        Codepoint { codepoint: 0x1D28, name: "GREEK LETTER SMALL CAPITAL PI", aliases: &[] },
        Codepoint { codepoint: 0x1D29, name: "GREEK LETTER SMALL CAPITAL RHO", aliases: &[] },
        Codepoint { codepoint: 0x1D2A, name: "GREEK LETTER SMALL CAPITAL PSI", aliases: &[] },
        Codepoint { codepoint: 0x1D2B, name: "CYRILLIC LETTER SMALL CAPITAL EL", aliases: &[] },
        Codepoint { codepoint: 0x1D2C, name: "MODIFIER LETTER CAPITAL A", aliases: &[] },
        Codepoint { codepoint: 0x1D2D, name: "MODIFIER LETTER CAPITAL AE", aliases: &[] },
        Codepoint { codepoint: 0x1D2E, name: "MODIFIER LETTER CAPITAL B", aliases: &[] },
        Codepoint { codepoint: 0x1D2F, name: "MODIFIER LETTER CAPITAL BARRED B", aliases: &[] },
        Codepoint { codepoint: 0x1D30, name: "MODIFIER LETTER CAPITAL D", aliases: &[] },
        Codepoint { codepoint: 0x1D31, name: "MODIFIER LETTER CAPITAL E", aliases: &[] },
        Codepoint { codepoint: 0x1D32, name: "MODIFIER LETTER CAPITAL REVERSED E", aliases: &[] },
        Codepoint { codepoint: 0x1D33, name: "MODIFIER LETTER CAPITAL G", aliases: &[] },
        Codepoint { codepoint: 0x1D34, name: "MODIFIER LETTER CAPITAL H", aliases: &[] },
        Codepoint { codepoint: 0x1D35, name: "MODIFIER LETTER CAPITAL I", aliases: &[] },
        Codepoint { codepoint: 0x1D36, name: "MODIFIER LETTER CAPITAL J", aliases: &[] },
        Codepoint { codepoint: 0x1D37, name: "MODIFIER LETTER CAPITAL K", aliases: &[] },
        Codepoint { codepoint: 0x1D38, name: "MODIFIER LETTER CAPITAL L", aliases: &[] },
        Codepoint { codepoint: 0x1D39, name: "MODIFIER LETTER CAPITAL M", aliases: &[] },
        Codepoint { codepoint: 0x1D3A, name: "MODIFIER LETTER CAPITAL N", aliases: &[] },
        Codepoint { codepoint: 0x1D3B, name: "MODIFIER LETTER CAPITAL REVERSED N", aliases: &[] },
        Codepoint { codepoint: 0x1D3C, name: "MODIFIER LETTER CAPITAL O", aliases: &[] },
        Codepoint { codepoint: 0x1D3D, name: "MODIFIER LETTER CAPITAL OU", aliases: &[] },
        Codepoint { codepoint: 0x1D3E, name: "MODIFIER LETTER CAPITAL P", aliases: &[] },
        Codepoint { codepoint: 0x1D3F, name: "MODIFIER LETTER CAPITAL R", aliases: &[] },
        Codepoint { codepoint: 0x1D40, name: "MODIFIER LETTER CAPITAL T", aliases: &[] },
        Codepoint { codepoint: 0x1D41, name: "MODIFIER LETTER CAPITAL U", aliases: &[] },
        Codepoint { codepoint: 0x1D42, name: "MODIFIER LETTER CAPITAL W", aliases: &[] },
        Codepoint { codepoint: 0x1D43, name: "MODIFIER LETTER SMALL A", aliases: &[] },
        Codepoint { codepoint: 0x1D44, name: "MODIFIER LETTER SMALL TURNED A", aliases: &[] },
        Codepoint { codepoint: 0x1D45, name: "MODIFIER LETTER SMALL ALPHA", aliases: &[] },
        Codepoint { codepoint: 0x1D46, name: "MODIFIER LETTER SMALL TURNED AE", aliases: &[] },
        Codepoint { codepoint: 0x1D47, name: "MODIFIER LETTER SMALL B", aliases: &[] },
    ]
}

fn all_codepoints_166() -> (v: Vec<Codepoint>)
    ensures
        v@ == codepoint_table_166(),
{
    let v = vec![
        Codepoint { codepoint: 0x1D20, name: "LATIN LETTER SMALL CAPITAL V", aliases: &[] },
        Codepoint { codepoint: 0x1D21, name: "LATIN LETTER SMALL CAPITAL W", aliases: &[] },
        Codepoint { codepoint: 0x1D22, name: "LATIN LETTER SMALL CAPITAL Z", aliases: &[] },
        Codepoint { codepoint: 0x1D23, name: "LATIN LETTER SMALL CAPITAL EZH", aliases: &[] },
        Codepoint { codepoint: 0x1D24, name: "LATIN LETTER VOICED LARYNGEAL SPIRANT", aliases: &[] },
        Codepoint { codepoint: 0x1D25, name: "LATIN LETTER AIN", aliases: &[] },
        Codepoint { codepoint: 0x1D26, name: "GREEK LETTER SMALL CAPITAL GAMMA", aliases: &[] },
        Codepoint { codepoint: 0x1D27, name: "GREEK LETTER SMALL CAPITAL LAMDA", aliases: &[] },
        Codepoint { codepoint: 0x1D28, name: "GREEK LETTER SMALL CAPITAL PI", aliases: &[] },
        Codepoint { codepoint: 0x1D29, name: "GREEK LETTER SMALL CAPITAL RHO", aliases: &[] },
        Codepoint { codepoint: 0x1D2A, name: "GREEK LETTER SMALL CAPITAL PSI", aliases: &[] },
        Codepoint { codepoint: 0x1D2B, name: "CYRILLIC LETTER SMALL CAPITAL EL", aliases: &[] },
        Codepoint { codepoint: 0x1D2C, name: "MODIFIER LETTER CAPITAL A", aliases: &[] },
        Codepoint { codepoint: 0x1D2D, name: "MODIFIER LETTER CAPITAL AE", aliases: &[] },
        Codepoint { codepoint: 0x1D2E, name: "MODIFIER LETTER CAPITAL B", aliases: &[] },
        Codepoint { codepoint: 0x1D2F, name: "MODIFIER LETTER CAPITAL BARRED B", aliases: &[] },
        Codepoint { codepoint: 0x1D30, name: "MODIFIER LETTER CAPITAL D", aliases: &[] },
        Codepoint { codepoint: 0x1D31, name: "MODIFIER LETTER CAPITAL E", aliases: &[] },
        Codepoint { codepoint: 0x1D32, name: "MODIFIER LETTER CAPITAL REVERSED E", aliases: &[] },
        Codepoint { codepoint: 0x1D33, name: "MODIFIER LETTER CAPITAL G", aliases: &[] },
        Codepoint { codepoint: 0x1D34, name: "MODIFIER LETTER CAPITAL H", aliases: &[] },
        Codepoint { codepoint: 0x1D35, name: "MODIFIER LETTER CAPITAL I", aliases: &[] },
        Codepoint { codepoint: 0x1D36, name: "MODIFIER LETTER CAPITAL J", aliases: &[] },
        Codepoint { codepoint: 0x1D37, name: "MODIFIER LETTER CAPITAL K", aliases: &[] },
        Codepoint { codepoint: 0x1D38, name: "MODIFIER LETTER CAPITAL L", aliases: &[] },
        Codepoint { codepoint: 0x1D39, name: "MODIFIER LETTER CAPITAL M", aliases: &[] },
        Codepoint { codepoint: 0x1D3A, name: "MODIFIER LETTER CAPITAL N", aliases: &[] },
        Codepoint { codepoint: 0x1D3B, name: "MODIFIER LETTER CAPITAL REVERSED N", aliases: &[] },
        Codepoint { codepoint: 0x1D3C, name: "MODIFIER LETTER CAPITAL O", aliases: &[] },
        Codepoint { codepoint: 0x1D3D, name: "MODIFIER LETTER CAPITAL OU", aliases: &[] },
        Codepoint { codepoint: 0x1D3E, name: "MODIFIER LETTER CAPITAL P", aliases: &[] },
        Codepoint { codepoint: 0x1D3F, name: "MODIFIER LETTER CAPITAL R", aliases: &[] },
        Codepoint { codepoint: 0x1D40, name: "MODIFIER LETTER CAPITAL T", aliases: &[] },
        Codepoint { codepoint: 0x1D41, name: "MODIFIER LETTER CAPITAL U", aliases: &[] },
        Codepoint { codepoint: 0x1D42, name: "MODIFIER LETTER CAPITAL W", aliases: &[] },
        Codepoint { codepoint: 0x1D43, name: "MODIFIER LETTER SMALL A", aliases: &[] },
        Codepoint { codepoint: 0x1D44, name: "MODIFIER LETTER SMALL TURNED A", aliases: &[] },
        Codepoint { codepoint: 0x1D45, name: "MODIFIER LETTER SMALL ALPHA", aliases: &[] },
        Codepoint { codepoint: 0x1D46, name: "MODIFIER LETTER SMALL TURNED AE", aliases: &[] },
        Codepoint { codepoint: 0x1D47, name: "MODIFIER LETTER SMALL B", aliases: &[] },
    ];
    assert(v@ =~= codepoint_table_166());
    v
}

pub open spec fn codepoint_table_167() -> Seq<Codepoint> {
    seq![
        Codepoint { codepoint: 0x1D48, name: "MODIFIER LETTER SMALL D", aliases: &[] },
        Codepoint { codepoint: 0x1D49, name: "MODIFIER LETTER SMALL E", aliases: &[] },
        Codepoint { codepoint: 0x1D4A, name: "MODIFIER LETTER SMALL SCHWA", aliases: &[] },
        Codepoint { codepoint: 0x1D4B, name: "MODIFIER LETTER SMALL OPEN E", aliases: &[] },
        Codepoint { codepoint: 0x1D4C, name: "MODIFIER LETTER SMALL TURNED OPEN E", aliases: &[] },
        Codepoint { codepoint: 0x1D4D, name: "MODIFIER LETTER SMALL G", aliases: &[] },
        Codepoint { codepoint: 0x1D4E, name: "MODIFIER LETTER SMALL TURNED I", aliases: &[] },
        Codepoint { codepoint: 0x1D4F, name: "MODIFIER LETTER SMALL K", aliases: &[] },
        Codepoint { codepoint: 0x1D50, name: "MODIFIER LETTER SMALL M", aliases: &[] },
        Codepoint { codepoint: 0x1D51, name: "MODIFIER LETTER SMALL ENG", aliases: &[] },
        Codepoint { codepoint: 0x1D52, name: "MODIFIER LETTER SMALL O", aliases: &[] },
        Codepoint { codepoint: 0x1D53, name: "MODIFIER LETTER SMALL OPEN O", aliases: &[] },
        Codepoint { codepoint: 0x1D54, name: "MODIFIER LETTER SMALL TOP HALF O", aliases: &[] },
        Codepoint { codepoint: 0x1D55, name: "MODIFIER LETTER SMALL BOTTOM HALF O", aliases: &[] },
        Codepoint { codepoint: 0x1D56, name: "MODIFIER LETTER SMALL P", aliases: &[] },
        Codepoint { codepoint: 0x1D57, name: "MODIFIER LETTER SMALL T", aliases: &[] },
        Codepoint { codepoint: 0x1D58, name: "MODIFIER LETTER SMALL U", aliases: &[] },
        Codepoint { codepoint: 0x1D59, name: "MODIFIER LETTER SMALL SIDEWAYS U", aliases: &[] },
        Codepoint { codepoint: 0x1D5A, name: "MODIFIER LETTER SMALL TURNED M", aliases: &[] },
        Codepoint { codepoint: 0x1D5B, name: "MODIFIER LETTER SMALL V", aliases: &[] },
        Codepoint { codepoint: 0x1D5C, name: "MODIFIER LETTER SMALL AIN", aliases: &[] },
        Codepoint { codepoint: 0x1D5D, name: "MODIFIER LETTER SMALL BETA", aliases: &[] },
        Codepoint { codepoint: 0x1D5E, name: "MODIFIER LETTER SMALL GREEK GAMMA", aliases: &[] },
        Codepoint { codepoint: 0x1D5F, name: "MODIFIER LETTER SMALL DELTA", aliases: &[] },
        Codepoint { codepoint: 0x1D60, name: "MODIFIER LETTER SMALL GREEK PHI", aliases: &[] },
        Codepoint { codepoint: 0x1D61, name: "MODIFIER LETTER SMALL CHI", aliases: &[] },
        Codepoint { codepoint: 0x1D62, name: "LATIN SUBSCRIPT SMALL LETTER I", aliases: &[] },
        Codepoint { codepoint: 0x1D63, name: "LATIN SUBSCRIPT SMALL LETTER R", aliases: &[] },
        Codepoint { codepoint: 0x1D64, name: "LATIN SUBSCRIPT SMALL LETTER U", aliases: &[] },
        Codepoint { codepoint: 0x1D65, name: "LATIN SUBSCRIPT SMALL LETTER V", aliases: &[] },
        Codepoint { codepoint: 0x1D66, name: "GREEK SUBSCRIPT SMALL LETTER BETA", aliases: &[] },
        Codepoint { codepoint: 0x1D67, name: "GREEK SUBSCRIPT SMALL LETTER GAMMA", aliases: &[] },
        Codepoint { codepoint: 0x1D68, name: "GREEK SUBSCRIPT SMALL LETTER RHO", aliases: &[] },
        Codepoint { codepoint: 0x1D69, name: "GREEK SUBSCRIPT SMALL LETTER PHI", aliases: &[] },
        Codepoint { codepoint: 0x1D6A, name: "GREEK SUBSCRIPT SMALL LETTER CHI", aliases: &[] },
        Codepoint { codepoint: 0x1D6B, name: "LATIN SMALL LETTER UE", aliases: &[] },
        Codepoint { codepoint: 0x1D6C, name: "LATIN SMALL LETTER B WITH MIDDLE TILDE", aliases: &[] },
        Codepoint { codepoint: 0x1D6D, name: "LATIN SMALL LETTER D WITH MIDDLE TILDE", aliases: &[] },
        Codepoint { codepoint: 0x1D6E, name: "LATIN SMALL LETTER F WITH MIDDLE TILDE", aliases: &[] },
        Codepoint { codepoint: 0x1D6F, name: "LATIN SMALL LETTER M WITH MIDDLE TILDE", aliases: &[] },
    ]
}

fn all_codepoints_167() -> (v: Vec<Codepoint>)
    ensures
        v@ == codepoint_table_167(),
{
    let v = vec![
        Codepoint { codepoint: 0x1D48, name: "MODIFIER LETTER SMALL D", aliases: &[] },
        Codepoint { codepoint: 0x1D49, name: "MODIFIER LETTER SMALL E", aliases: &[] },
        Codepoint { codepoint: 0x1D4A, name: "MODIFIER LETTER SMALL SCHWA", aliases: &[] },
        Codepoint { codepoint: 0x1D4B, name: "MODIFIER LETTER SMALL OPEN E", aliases: &[] },
        Codepoint { codepoint: 0x1D4C, name: "MODIFIER LETTER SMALL TURNED OPEN E", aliases: &[] },
        Codepoint { codepoint: 0x1D4D, name: "MODIFIER LETTER SMALL G", aliases: &[] },
        Codepoint { codepoint: 0x1D4E, name: "MODIFIER LETTER SMALL TURNED I", aliases: &[] },
        Codepoint { codepoint: 0x1D4F, name: "MODIFIER LETTER SMALL K", aliases: &[] },
        Codepoint { codepoint: 0x1D50, name: "MODIFIER LETTER SMALL M", aliases: &[] },
        Codepoint { codepoint: 0x1D51, name: "MODIFIER LETTER SMALL ENG", aliases: &[] },
        Codepoint { codepoint: 0x1D52, name: "MODIFIER LETTER SMALL O", aliases: &[] },
        Codepoint { codepoint: 0x1D53, name: "MODIFIER LETTER SMALL OPEN O", aliases: &[] },
        Codepoint { codepoint: 0x1D54, name: "MODIFIER LETTER SMALL TOP HALF O", aliases: &[] },
        Codepoint { codepoint: 0x1D55, name: "MODIFIER LETTER SMALL BOTTOM HALF O", aliases: &[] },
        Codepoint { codepoint: 0x1D56, name: "MODIFIER LETTER SMALL P", aliases: &[] },
        Codepoint { codepoint: 0x1D57, name: "MODIFIER LETTER SMALL T", aliases: &[] },
        Codepoint { codepoint: 0x1D58, name: "MODIFIER LETTER SMALL U", aliases: &[] },
        Codepoint { codepoint: 0x1D59, name: "MODIFIER LETTER SMALL SIDEWAYS U", aliases: &[] },
        Codepoint { codepoint: 0x1D5A, name: "MODIFIER LETTER SMALL TURNED M", aliases: &[] },
        Codepoint { codepoint: 0x1D5B, name: "MODIFIER LETTER SMALL V", aliases: &[] },
        Codepoint { codepoint: 0x1D5C, name: "MODIFIER LETTER SMALL AIN", aliases: &[] },
        Codepoint { codepoint: 0x1D5D, name: "MODIFIER LETTER SMALL BETA", aliases: &[] },
        Codepoint { codepoint: 0x1D5E, name: "MODIFIER LETTER SMALL GREEK GAMMA", aliases: &[] },
        Codepoint { codepoint: 0x1D5F, name: "MODIFIER LETTER SMALL DELTA", aliases: &[] },
        Codepoint { codepoint: 0x1D60, name: "MODIFIER LETTER SMALL GREEK PHI", aliases: &[] },
        Codepoint { codepoint: 0x1D61, name: "MODIFIER LETTER SMALL CHI", aliases: &[] },
        Codepoint { codepoint: 0x1D62, name: "LATIN SUBSCRIPT SMALL LETTER I", aliases: &[] },
        Codepoint { codepoint: 0x1D63, name: "LATIN SUBSCRIPT SMALL LETTER R", aliases: &[] },
        Codepoint { codepoint: 0x1D64, name: "LATIN SUBSCRIPT SMALL LETTER U", aliases: &[] },
        Codepoint { codepoint: 0x1D65, name: "LATIN SUBSCRIPT SMALL LETTER V", aliases: &[] },
        Codepoint { codepoint: 0x1D66, name: "GREEK SUBSCRIPT SMALL LETTER BETA", aliases: &[] },
        Codepoint { codepoint: 0x1D67, name: "GREEK SUBSCRIPT SMALL LETTER GAMMA", aliases: &[] },
        Codepoint { codepoint: 0x1D68, name: "GREEK SUBSCRIPT SMALL LETTER RHO", aliases: &[] },
        Codepoint { codepoint: 0x1D69, name: "GREEK SUBSCRIPT SMALL LETTER PHI", aliases: &[] },
        Codepoint { codepoint: 0x1D6A, name: "GREEK SUBSCRIPT SMALL LETTER CHI", aliases: &[] },
        Codepoint { codepoint: 0x1D6B, name: "LATIN SMALL LETTER UE", aliases: &[] },
        Codepoint { codepoint: 0x1D6C, name: "LATIN SMALL LETTER B WITH MIDDLE TILDE", aliases: &[] },
        Codepoint { codepoint: 0x1D6D, name: "LATIN SMALL LETTER D WITH MIDDLE TILDE", aliases: &[] },
        Codepoint { codepoint: 0x1D6E, name: "LATIN SMALL LETTER F WITH MIDDLE TILDE", aliases: &[] },
        Codepoint { codepoint: 0x1D6F, name: "LATIN SMALL LETTER M WITH MIDDLE TILDE", aliases: &[] },
    ];
    assert(v@ =~= codepoint_table_167());
    v
}

pub open spec fn codepoint_table_168() -> Seq<Codepoint> {
    seq![
        Codepoint { codepoint: 0x1D70, name: "LATIN SMALL LETTER N WITH MIDDLE TILDE", aliases: &[] },
        Codepoint { codepoint: 0x1D71, name: "LATIN SMALL LETTER P WITH MIDDLE TILDE", aliases: &[] },
        Codepoint { codepoint: 0x1D72, name: "LATIN SMALL LETTER R WITH MIDDLE TILDE", aliases: &[] },
        Codepoint { codepoint: 0x1D73, name: "LATIN SMALL LETTER R WITH FISHHOOK AND MIDDLE TILDE", aliases: &[] },
        Codepoint { codepoint: 0x1D74, name: "LATIN SMALL LETTER S WITH MIDDLE TILDE", aliases: &[] },
        Codepoint { codepoint: 0x1D75, name: "LATIN SMALL LETTER T WITH MIDDLE TILDE", aliases: &[] },
        Codepoint { codepoint: 0x1D76, name: "LATIN SMALL LETTER Z WITH MIDDLE TILDE", aliases: &[] },
        Codepoint { codepoint: 0x1D77, name: "LATIN SMALL LETTER TURNED G", aliases: &[] },
        Codepoint { codepoint: 0x1D78, name: "MODIFIER LETTER CYRILLIC EN", aliases: &[] },
        Codepoint { codepoint: 0x1D79, name: "LATIN SMALL LETTER INSULAR G", aliases: &[] },
        Codepoint { codepoint: 0x1D7A, name: "LATIN SMALL LETTER TH WITH STRIKETHROUGH", aliases: &[] },
        Codepoint { codepoint: 0x1D7B, name: "LATIN SMALL CAPITAL LETTER I WITH STROKE", aliases: &[] },
        Codepoint { codepoint: 0x1D7C, name: "LATIN SMALL LETTER IOTA WITH STROKE", aliases: &[] },
        Codepoint { codepoint: 0x1D7D, name: "LATIN SMALL LETTER P WITH STROKE", aliases: &[] },
        Codepoint { codepoint: 0x1D7E, name: "LATIN SMALL CAPITAL LETTER U WITH STROKE", aliases: &[] },
        Codepoint { codepoint: 0x1D7F, name: "LATIN SMALL LETTER UPSILON WITH STROKE", aliases: &[] },
        Codepoint { codepoint: 0x1D80, name: "LATIN SMALL LETTER B WITH PALATAL HOOK", aliases: &[] },
        Codepoint { codepoint: 0x1D81, name: "LATIN SMALL LETTER D WITH PALATAL HOOK", aliases: &[] },
        Codepoint { codepoint: 0x1D82, name: "LATIN SMALL LETTER F WITH PALATAL HOOK", aliases: &[] },
        Codepoint { codepoint: 0x1D83, name: "LATIN SMALL LETTER G WITH PALATAL HOOK", aliases: &[] },
        Codepoint { codepoint: 0x1D84, name: "LATIN SMALL LETTER K WITH PALATAL HOOK", aliases: &[] },
        Codepoint { codepoint: 0x1D85, name: "LATIN SMALL LETTER L WITH PALATAL HOOK", aliases: &[] },
        Codepoint { codepoint: 0x1D86, name: "LATIN SMALL LETTER M WITH PALATAL HOOK", aliases: &[] },
        Codepoint { codepoint: 0x1D87, name: "LATIN SMALL LETTER N WITH PALATAL HOOK", aliases: &[] },
        Codepoint { codepoint: 0x1D88, name: "LATIN SMALL LETTER P WITH PALATAL HOOK", aliases: &[] },
        Codepoint { codepoint: 0x1D89, name: "LATIN SMALL LETTER R WITH PALATAL HOOK", aliases: &[] },
        Codepoint { codepoint: 0x1D8A, name: "LATIN SMALL LETTER S WITH PALATAL HOOK", aliases: &[] },
        Codepoint { codepoint: 0x1D8B, name: "LATIN SMALL LETTER ESH WITH PALATAL HOOK", aliases: &[] },
        Codepoint { codepoint: 0x1D8C, name: "LATIN SMALL LETTER V WITH PALATAL HOOK", aliases: &[] },
        Codepoint { codepoint: 0x1D8D, name: "LATIN SMALL LETTER X WITH PALATAL HOOK", aliases: &[] },
        Codepoint { codepoint: 0x1D8E, name: "LATIN SMALL LETTER Z WITH PALATAL HOOK", aliases: &[] },
        Codepoint { codepoint: 0x1D8F, name: "LATIN SMALL LETTER A WITH RETROFLEX HOOK", aliases: &[] },
        Codepoint { codepoint: 0x1D90, name: "LATIN SMALL LETTER ALPHA WITH RETROFLEX HOOK", aliases: &[] },
        Codepoint { codepoint: 0x1D91, name: "LATIN SMALL LETTER D WITH HOOK AND TAIL", aliases: &[] },
        Codepoint { codepoint: 0x1D92, name: "LATIN SMALL LETTER E WITH RETROFLEX HOOK", aliases: &[] },
        Codepoint { codepoint: 0x1D93, name: "LATIN SMALL LETTER OPEN E WITH RETROFLEX HOOK", aliases: &[] },
        Codepoint { codepoint: 0x1D94, name: "LATIN SMALL LETTER REVERSED OPEN E WITH RETROFLEX HOOK", aliases: &[] },
        Codepoint { codepoint: 0x1D95, name: "LATIN SMALL LETTER SCHWA WITH RETROFLEX HOOK", aliases: &[] },
        Codepoint { codepoint: 0x1D96, name: "LATIN SMALL LETTER I WITH RETROFLEX HOOK", aliases: &[] },
        Codepoint { codepoint: 0x1D97, name: "LATIN SMALL LETTER OPEN O WITH RETROFLEX HOOK", aliases: &[] },
    ]
}

fn all_codepoints_168() -> (v: Vec<Codepoint>)
    ensures
        v@ == codepoint_table_168(),
{
    let v = vec![
        Codepoint { codepoint: 0x1D70, name: "LATIN SMALL LETTER N WITH MIDDLE TILDE", aliases: &[] },
        Codepoint { codepoint: 0x1D71, name: "LATIN SMALL LETTER P WITH MIDDLE TILDE", aliases: &[] },
        Codepoint { codepoint: 0x1D72, name: "LATIN SMALL LETTER R WITH MIDDLE TILDE", aliases: &[] },
        Codepoint { codepoint: 0x1D73, name: "LATIN SMALL LETTER R WITH FISHHOOK AND MIDDLE TILDE", aliases: &[] },
        Codepoint { codepoint: 0x1D74, name: "LATIN SMALL LETTER S WITH MIDDLE TILDE", aliases: &[] },
        Codepoint { codepoint: 0x1D75, name: "LATIN SMALL LETTER T WITH MIDDLE TILDE", aliases: &[] },
        Codepoint { codepoint: 0x1D76, name: "LATIN SMALL LETTER Z WITH MIDDLE TILDE", aliases: &[] },
        Codepoint { codepoint: 0x1D77, name: "LATIN SMALL LETTER TURNED G", aliases: &[] },
        Codepoint { codepoint: 0x1D78, name: "MODIFIER LETTER CYRILLIC EN", aliases: &[] },
        Codepoint { codepoint: 0x1D79, name: "LATIN SMALL LETTER INSULAR G", aliases: &[] },
        Codepoint { codepoint: 0x1D7A, name: "LATIN SMALL LETTER TH WITH STRIKETHROUGH", aliases: &[] },
        Codepoint { codepoint: 0x1D7B, name: "LATIN SMALL CAPITAL LETTER I WITH STROKE", aliases: &[] },
        Codepoint { codepoint: 0x1D7C, name: "LATIN SMALL LETTER IOTA WITH STROKE", aliases: &[] },
        Codepoint { codepoint: 0x1D7D, name: "LATIN SMALL LETTER P WITH STROKE", aliases: &[] },
        Codepoint { codepoint: 0x1D7E, name: "LATIN SMALL CAPITAL LETTER U WITH STROKE", aliases: &[] },
        Codepoint { codepoint: 0x1D7F, name: "LATIN SMALL LETTER UPSILON WITH STROKE", aliases: &[] },
        Codepoint { codepoint: 0x1D80, name: "LATIN SMALL LETTER B WITH PALATAL HOOK", aliases: &[] },
        Codepoint { codepoint: 0x1D81, name: "LATIN SMALL LETTER D WITH PALATAL HOOK", aliases: &[] },
        Codepoint { codepoint: 0x1D82, name: "LATIN SMALL LETTER F WITH PALATAL HOOK", aliases: &[] },
        Codepoint { codepoint: 0x1D83, name: "LATIN SMALL LETTER G WITH PALATAL HOOK", aliases: &[] },
        Codepoint { codepoint: 0x1D84, name: "LATIN SMALL LETTER K WITH PALATAL HOOK", aliases: &[] },
        Codepoint { codepoint: 0x1D85, name: "LATIN SMALL LETTER L WITH PALATAL HOOK", aliases: &[] },
        Codepoint { codepoint: 0x1D86, name: "LATIN SMALL LETTER M WITH PALATAL HOOK", aliases: &[] },
        Codepoint { codepoint: 0x1D87, name: "LATIN SMALL LETTER N WITH PALATAL HOOK", aliases: &[] },
        Codepoint { codepoint: 0x1D88, name: "LATIN SMALL LETTER P WITH PALATAL HOOK", aliases: &[] },
        Codepoint { codepoint: 0x1D89, name: "LATIN SMALL LETTER R WITH PALATAL HOOK", aliases: &[] },
        Codepoint { codepoint: 0x1D8A, name: "LATIN SMALL LETTER S WITH PALATAL HOOK", aliases: &[] },
        Codepoint { codepoint: 0x1D8B, name: "LATIN SMALL LETTER ESH WITH PALATAL HOOK", aliases: &[] },
        Codepoint { codepoint: 0x1D8C, name: "LATIN SMALL LETTER V WITH PALATAL HOOK", aliases: &[] },
        Codepoint { codepoint: 0x1D8D, name: "LATIN SMALL LETTER X WITH PALATAL HOOK", aliases: &[] },
        Codepoint { codepoint: 0x1D8E, name: "LATIN SMALL LETTER Z WITH PALATAL HOOK", aliases: &[] },
        Codepoint { codepoint: 0x1D8F, name: "LATIN SMALL LETTER A WITH RETROFLEX HOOK", aliases: &[] },
        Codepoint { codepoint: 0x1D90, name: "LATIN SMALL LETTER ALPHA WITH RETROFLEX HOOK", aliases: &[] },
        Codepoint { codepoint: 0x1D91, name: "LATIN SMALL LETTER D WITH HOOK AND TAIL", aliases: &[] },
        Codepoint { codepoint: 0x1D92, name: "LATIN SMALL LETTER E WITH RETROFLEX HOOK", aliases: &[] },
        Codepoint { codepoint: 0x1D93, name: "LATIN SMALL LETTER OPEN E WITH RETROFLEX HOOK", aliases: &[] },
        Codepoint { codepoint: 0x1D94, name: "LATIN SMALL LETTER REVERSED OPEN E WITH RETROFLEX HOOK", aliases: &[] },
        Codepoint { codepoint: 0x1D95, name: "LATIN SMALL LETTER SCHWA WITH RETROFLEX HOOK", aliases: &[] },
        Codepoint { codepoint: 0x1D96, name: "LATIN SMALL LETTER I WITH RETROFLEX HOOK", aliases: &[] },
        Codepoint { codepoint: 0x1D97, name: "LATIN SMALL LETTER OPEN O WITH RETROFLEX HOOK", aliases: &[] },
    ];
    assert(v@ =~= codepoint_table_168());
    v
}

pub open spec fn codepoint_table_169() -> Seq<Codepoint> {
    seq![
        Codepoint { codepoint: 0x1D98, name: "LATIN SMALL LETTER ESH WITH RETROFLEX HOOK", aliases: &[] },
        Codepoint { codepoint: 0x1D99, name: "LATIN SMALL LETTER U WITH RETROFLEX HOOK", aliases: &[] },
        Codepoint { codepoint: 0x1D9A, name: "LATIN SMALL LETTER EZH WITH RETROFLEX HOOK", aliases: &[] },
        Codepoint { codepoint: 0x1D9B, name: "MODIFIER LETTER SMALL TURNED ALPHA", aliases: &[] },
        Codepoint { codepoint: 0x1D9C, name: "MODIFIER LETTER SMALL C", aliases: &[] },
        Codepoint { codepoint: 0x1D9D, name: "MODIFIER LETTER SMALL C WITH CURL", aliases: &[] },
        Codepoint { codepoint: 0x1D9E, name: "MODIFIER LETTER SMALL ETH", aliases: &[] },
        Codepoint { codepoint: 0x1D9F, name: "MODIFIER LETTER SMALL REVERSED OPEN E", aliases: &[] },
        Codepoint { codepoint: 0x1DA0, name: "MODIFIER LETTER SMALL F", aliases: &[] },
        Codepoint { codepoint: 0x1DA1, name: "MODIFIER LETTER SMALL DOTLESS J WITH STROKE", aliases: &[] },
        Codepoint { codepoint: 0x1DA2, name: "MODIFIER LETTER SMALL SCRIPT G", aliases: &[] },
        Codepoint { codepoint: 0x1DA3, name: "MODIFIER LETTER SMALL TURNED H", aliases: &[] },
        Codepoint { codepoint: 0x1DA4, name: "MODIFIER LETTER SMALL I WITH STROKE", aliases: &[] },
        Codepoint { codepoint: 0x1DA5, name: "MODIFIER LETTER SMALL IOTA", aliases: &[] },
        Codepoint { codepoint: 0x1DA6, name: "MODIFIER LETTER SMALL CAPITAL I", aliases: &[] },
        Codepoint { codepoint: 0x1DA7, name: "MODIFIER LETTER SMALL CAPITAL I WITH STROKE", aliases: &[] },
        Codepoint { codepoint: 0x1DA8, name: "MODIFIER LETTER SMALL J WITH CROSSED-TAIL", aliases: &[] },
        Codepoint { codepoint: 0x1DA9, name: "MODIFIER LETTER SMALL L WITH RETROFLEX HOOK", aliases: &[] },
        Codepoint { codepoint: 0x1DAA, name: "MODIFIER LETTER SMALL L WITH PALATAL HOOK", aliases: &[] },
        Codepoint { codepoint: 0x1DAB, name: "MODIFIER LETTER SMALL CAPITAL L", aliases: &[] },
        Codepoint { codepoint: 0x1DAC, name: "MODIFIER LETTER SMALL M WITH HOOK", aliases: &[] },
        Codepoint { codepoint: 0x1DAD, name: "MODIFIER LETTER SMALL TURNED M WITH LONG LEG", aliases: &[] },
        Codepoint { codepoint: 0x1DAE, name: "MODIFIER LETTER SMALL N WITH LEFT HOOK", aliases: &[] },
        Codepoint { codepoint: 0x1DAF, name: "MODIFIER LETTER SMALL N WITH RETROFLEX HOOK", aliases: &[] },
        Codepoint { codepoint: 0x1DB0, name: "MODIFIER LETTER SMALL CAPITAL N", aliases: &[] },
        Codepoint { codepoint: 0x1DB1, name: "MODIFIER LETTER SMALL BARRED O", aliases: &[] },
        Codepoint { codepoint: 0x1DB2, name: "MODIFIER LETTER SMALL PHI", aliases: &[] },
        Codepoint { codepoint: 0x1DB3, name: "MODIFIER LETTER SMALL S WITH HOOK", aliases: &[] },
        Codepoint { codepoint: 0x1DB4, name: "MODIFIER LETTER SMALL ESH", aliases: &[] },
        Codepoint { codepoint: 0x1DB5, name: "MODIFIER LETTER SMALL T WITH PALATAL HOOK", aliases: &[] },
        Codepoint { codepoint: 0x1DB6, name: "MODIFIER LETTER SMALL U BAR", aliases: &[] },
        Codepoint { codepoint: 0x1DB7, name: "MODIFIER LETTER SMALL UPSILON", aliases: &[] },
        Codepoint { codepoint: 0x1DB8, name: "MODIFIER LETTER SMALL CAPITAL U", aliases: &[] },
        Codepoint { codepoint: 0x1DB9, name: "MODIFIER LETTER SMALL V WITH HOOK", aliases: &[] },
        Codepoint { codepoint: 0x1DBA, name: "MODIFIER LETTER SMALL TURNED V", aliases: &[] },
        Codepoint { codepoint: 0x1DBB, name: "MODIFIER LETTER SMALL Z", aliases: &[] },
        Codepoint { codepoint: 0x1DBC, name: "MODIFIER LETTER SMALL Z WITH RETROFLEX HOOK", aliases: &[] },
        Codepoint { codepoint: 0x1DBD, name: "MODIFIER LETTER SMALL Z WITH CURL", aliases: &[] },
        Codepoint { codepoint: 0x1DBE, name: "MODIFIER LETTER SMALL EZH", aliases: &[] },
        Codepoint { codepoint: 0x1DBF, name: "MODIFIER LETTER SMALL THETA", aliases: &[] },
    ]
}

fn all_codepoints_169() -> (v: Vec<Codepoint>)
    ensures
        v@ == codepoint_table_169(),
{
    let v = vec![
        Codepoint { codepoint: 0x1D98, name: "LATIN SMALL LETTER ESH WITH RETROFLEX HOOK", aliases: &[] },
        Codepoint { codepoint: 0x1D99, name: "LATIN SMALL LETTER U WITH RETROFLEX HOOK", aliases: &[] },
        Codepoint { codepoint: 0x1D9A, name: "LATIN SMALL LETTER EZH WITH RETROFLEX HOOK", aliases: &[] },
        Codepoint { codepoint: 0x1D9B, name: "MODIFIER LETTER SMALL TURNED ALPHA", aliases: &[] },
        Codepoint { codepoint: 0x1D9C, name: "MODIFIER LETTER SMALL C", aliases: &[] },
        Codepoint { codepoint: 0x1D9D, name: "MODIFIER LETTER SMALL C WITH CURL", aliases: &[] },
        Codepoint { codepoint: 0x1D9E, name: "MODIFIER LETTER SMALL ETH", aliases: &[] },
        Codepoint { codepoint: 0x1D9F, name: "MODIFIER LETTER SMALL REVERSED OPEN E", aliases: &[] },
        Codepoint { codepoint: 0x1DA0, name: "MODIFIER LETTER SMALL F", aliases: &[] },
        Codepoint { codepoint: 0x1DA1, name: "MODIFIER LETTER SMALL DOTLESS J WITH STROKE", aliases: &[] },
        Codepoint { codepoint: 0x1DA2, name: "MODIFIER LETTER SMALL SCRIPT G", aliases: &[] },
        Codepoint { codepoint: 0x1DA3, name: "MODIFIER LETTER SMALL TURNED H", aliases: &[] },
        Codepoint { codepoint: 0x1DA4, name: "MODIFIER LETTER SMALL I WITH STROKE", aliases: &[] },
        Codepoint { codepoint: 0x1DA5, name: "MODIFIER LETTER SMALL IOTA", aliases: &[] },
        Codepoint { codepoint: 0x1DA6, name: "MODIFIER LETTER SMALL CAPITAL I", aliases: &[] },
        Codepoint { codepoint: 0x1DA7, name: "MODIFIER LETTER SMALL CAPITAL I WITH STROKE", aliases: &[] },
        Codepoint { codepoint: 0x1DA8, name: "MODIFIER LETTER SMALL J WITH CROSSED-TAIL", aliases: &[] },
        Codepoint { codepoint: 0x1DA9, name: "MODIFIER LETTER SMALL L WITH RETROFLEX HOOK", aliases: &[] },
        Codepoint { codepoint: 0x1DAA, name: "MODIFIER LETTER SMALL L WITH PALATAL HOOK", aliases: &[] },
        Codepoint { codepoint: 0x1DAB, name: "MODIFIER LETTER SMALL CAPITAL L", aliases: &[] },
        Codepoint { codepoint: 0x1DAC, name: "MODIFIER LETTER SMALL M WITH HOOK", aliases: &[] },
        Codepoint { codepoint: 0x1DAD, name: "MODIFIER LETTER SMALL TURNED M WITH LONG LEG", aliases: &[] },
        Codepoint { codepoint: 0x1DAE, name: "MODIFIER LETTER SMALL N WITH LEFT HOOK", aliases: &[] },
        Codepoint { codepoint: 0x1DAF, name: "MODIFIER LETTER SMALL N WITH RETROFLEX HOOK", aliases: &[] },
        Codepoint { codepoint: 0x1DB0, name: "MODIFIER LETTER SMALL CAPITAL N", aliases: &[] },
        Codepoint { codepoint: 0x1DB1, name: "MODIFIER LETTER SMALL BARRED O", aliases: &[] },
        Codepoint { codepoint: 0x1DB2, name: "MODIFIER LETTER SMALL PHI", aliases: &[] },
        Codepoint { codepoint: 0x1DB3, name: "MODIFIER LETTER SMALL S WITH HOOK", aliases: &[] },
        Codepoint { codepoint: 0x1DB4, name: "MODIFIER LETTER SMALL ESH", aliases: &[] },
        Codepoint { codepoint: 0x1DB5, name: "MODIFIER LETTER SMALL T WITH PALATAL HOOK", aliases: &[] },
        Codepoint { codepoint: 0x1DB6, name: "MODIFIER LETTER SMALL U BAR", aliases: &[] },
        Codepoint { codepoint: 0x1DB7, name: "MODIFIER LETTER SMALL UPSILON", aliases: &[] },
        Codepoint { codepoint: 0x1DB8, name: "MODIFIER LETTER SMALL CAPITAL U", aliases: &[] },
        Codepoint { codepoint: 0x1DB9, name: "MODIFIER LETTER SMALL V WITH HOOK", aliases: &[] },
        Codepoint { codepoint: 0x1DBA, name: "MODIFIER LETTER SMALL TURNED V", aliases: &[] },
        Codepoint { codepoint: 0x1DBB, name: "MODIFIER LETTER SMALL Z", aliases: &[] },
        Codepoint { codepoint: 0x1DBC, name: "MODIFIER LETTER SMALL Z WITH RETROFLEX HOOK", aliases: &[] },
        Codepoint { codepoint: 0x1DBD, name: "MODIFIER LETTER SMALL Z WITH CURL", aliases: &[] },
        Codepoint { codepoint: 0x1DBE, name: "MODIFIER LETTER SMALL EZH", aliases: &[] },
        Codepoint { codepoint: 0x1DBF, name: "MODIFIER LETTER SMALL THETA", aliases: &[] },
    ];
    assert(v@ =~= codepoint_table_169());
    v
}

pub open spec fn codepoint_table_170() -> Seq<Codepoint> {
    seq![
        Codepoint { codepoint: 0x1DC0, name: "COMBINING DOTTED GRAVE ACCENT", aliases: &[] },
        Codepoint { codepoint: 0x1DC1, name: "COMBINING DOTTED ACUTE ACCENT", aliases: &[] },
        Codepoint { codepoint: 0x1DC2, name: "COMBINING SNAKE BELOW", aliases: &[] },
        Codepoint { codepoint: 0x1DC3, name: "COMBINING SUSPENSION MARK", aliases: &[] },
        Codepoint { codepoint: 0x1DC4, name: "COMBINING MACRON-ACUTE", aliases: &[] },
        Codepoint { codepoint: 0x1DC5, name: "COMBINING GRAVE-MACRON", aliases: &[] },
        Codepoint { codepoint: 0x1DC6, name: "COMBINING MACRON-GRAVE", aliases: &[] },
        Codepoint { codepoint: 0x1DC7, name: "COMBINING ACUTE-MACRON", aliases: &[] },
        Codepoint { codepoint: 0x1DC8, name: "COMBINING GRAVE-ACUTE-GRAVE", aliases: &[] },
        Codepoint { codepoint: 0x1DC9, name: "COMBINING ACUTE-GRAVE-ACUTE", aliases: &[] },
        Codepoint { codepoint: 0x1DCA, name: "COMBINING LATIN SMALL LETTER R BELOW", aliases: &[] },
        Codepoint { codepoint: 0x1DCB, name: "COMBINING BREVE-MACRON", aliases: &[] },
        Codepoint { codepoint: 0x1DCC, name: "COMBINING MACRON-BREVE", aliases: &[] },
        Codepoint { codepoint: 0x1DCD, name: "COMBINING DOUBLE CIRCUMFLEX ABOVE", aliases: &[] },
        Codepoint { codepoint: 0x1DCE, name: "COMBINING OGONEK ABOVE", aliases: &[] },
        Codepoint { codepoint: 0x1DCF, name: "COMBINING ZIGZAG BELOW", aliases: &[] },
        Codepoint { codepoint: 0x1DD0, name: "COMBINING IS BELOW", aliases: &[] },
        Codepoint { codepoint: 0x1DD1, name: "COMBINING UR ABOVE", aliases: &[] },
        Codepoint { codepoint: 0x1DD2, name: "COMBINING US ABOVE", aliases: &[] },
        Codepoint { codepoint: 0x1DD3, name: "COMBINING LATIN SMALL LETTER FLATTENED OPEN A ABOVE", aliases: &[] },
        Codepoint { codepoint: 0x1DD4, name: "COMBINING LATIN SMALL LETTER AE", aliases: &[] },
        Codepoint { codepoint: 0x1DD5, name: "COMBINING LATIN SMALL LETTER AO", aliases: &[] },
        Codepoint { codepoint: 0x1DD6, name: "COMBINING LATIN SMALL LETTER AV", aliases: &[] },
        Codepoint { codepoint: 0x1DD7, name: "COMBINING LATIN SMALL LETTER C CEDILLA", aliases: &[] },
        Codepoint { codepoint: 0x1DD8, name: "COMBINING LATIN SMALL LETTER INSULAR D", aliases: &[] },
        Codepoint { codepoint: 0x1DD9, name: "COMBINING LATIN SMALL LETTER ETH", aliases: &[] },
        Codepoint { codepoint: 0x1DDA, name: "COMBINING LATIN SMALL LETTER G", aliases: &[] },
        Codepoint { codepoint: 0x1DDB, name: "COMBINING LATIN LETTER SMALL CAPITAL G", aliases: &[] },
        Codepoint { codepoint: 0x1DDC, name: "COMBINING LATIN SMALL LETTER K", aliases: &[] },
        Codepoint { codepoint: 0x1DDD, name: "COMBINING LATIN SMALL LETTER L", aliases: &[] },
        Codepoint { codepoint: 0x1DDE, name: "COMBINING LATIN LETTER SMALL CAPITAL L", aliases: &[] },
        Codepoint { codepoint: 0x1DDF, name: "COMBINING LATIN LETTER SMALL CAPITAL M", aliases: &[] },
        Codepoint { codepoint: 0x1DE0, name: "COMBINING LATIN SMALL LETTER N", aliases: &[] },
        Codepoint { codepoint: 0x1DE1, name: "COMBINING LATIN LETTER SMALL CAPITAL N", aliases: &[] },
        Codepoint { codepoint: 0x1DE2, name: "COMBINING LATIN LETTER SMALL CAPITAL R", aliases: &[] },
        Codepoint { codepoint: 0x1DE3, name: "COMBINING LATIN SMALL LETTER R ROTUNDA", aliases: &[] },
        Codepoint { codepoint: 0x1DE4, name: "COMBINING LATIN SMALL LETTER S", aliases: &[] },
        Codepoint { codepoint: 0x1DE5, name: "COMBINING LATIN SMALL LETTER LONG S", aliases: &[] },
        Codepoint { codepoint: 0x1DE6, name: "COMBINING LATIN SMALL LETTER Z", aliases: &[] },
        Codepoint { codepoint: 0x1DE7, name: "COMBINING LATIN SMALL LETTER ALPHA", aliases: &[] },
    ]
}

fn all_codepoints_170() -> (v: Vec<Codepoint>)
    ensures
        v@ == codepoint_table_170(),
{
    let v = vec![
        Codepoint { codepoint: 0x1DC0, name: "COMBINING DOTTED GRAVE ACCENT", aliases: &[] },
        Codepoint { codepoint: 0x1DC1, name: "COMBINING DOTTED ACUTE ACCENT", aliases: &[] },
        Codepoint { codepoint: 0x1DC2, name: "COMBINING SNAKE BELOW", aliases: &[] },
        Codepoint { codepoint: 0x1DC3, name: "COMBINING SUSPENSION MARK", aliases: &[] },
        Codepoint { codepoint: 0x1DC4, name: "COMBINING MACRON-ACUTE", aliases: &[] },
        Codepoint { codepoint: 0x1DC5, name: "COMBINING GRAVE-MACRON", aliases: &[] },
        Codepoint { codepoint: 0x1DC6, name: "COMBINING MACRON-GRAVE", aliases: &[] },
        Codepoint { codepoint: 0x1DC7, name: "COMBINING ACUTE-MACRON", aliases: &[] },
        Codepoint { codepoint: 0x1DC8, name: "COMBINING GRAVE-ACUTE-GRAVE", aliases: &[] },
        Codepoint { codepoint: 0x1DC9, name: "COMBINING ACUTE-GRAVE-ACUTE", aliases: &[] },
        Codepoint { codepoint: 0x1DCA, name: "COMBINING LATIN SMALL LETTER R BELOW", aliases: &[] },
        Codepoint { codepoint: 0x1DCB, name: "COMBINING BREVE-MACRON", aliases: &[] },
        Codepoint { codepoint: 0x1DCC, name: "COMBINING MACRON-BREVE", aliases: &[] },
        Codepoint { codepoint: 0x1DCD, name: "COMBINING DOUBLE CIRCUMFLEX ABOVE", aliases: &[] },
        Codepoint { codepoint: 0x1DCE, name: "COMBINING OGONEK ABOVE", aliases: &[] },
        Codepoint { codepoint: 0x1DCF, name: "COMBINING ZIGZAG BELOW", aliases: &[] },
        Codepoint { codepoint: 0x1DD0, name: "COMBINING IS BELOW", aliases: &[] },
        Codepoint { codepoint: 0x1DD1, name: "COMBINING UR ABOVE", aliases: &[] },
        Codepoint { codepoint: 0x1DD2, name: "COMBINING US ABOVE", aliases: &[] },
        Codepoint { codepoint: 0x1DD3, name: "COMBINING LATIN SMALL LETTER FLATTENED OPEN A ABOVE", aliases: &[] },
        Codepoint { codepoint: 0x1DD4, name: "COMBINING LATIN SMALL LETTER AE", aliases: &[] },
        Codepoint { codepoint: 0x1DD5, name: "COMBINING LATIN SMALL LETTER AO", aliases: &[] },
        Codepoint { codepoint: 0x1DD6, name: "COMBINING LATIN SMALL LETTER AV", aliases: &[] },
        Codepoint { codepoint: 0x1DD7, name: "COMBINING LATIN SMALL LETTER C CEDILLA", aliases: &[] },
        Codepoint { codepoint: 0x1DD8, name: "COMBINING LATIN SMALL LETTER INSULAR D", aliases: &[] },
        Codepoint { codepoint: 0x1DD9, name: "COMBINING LATIN SMALL LETTER ETH", aliases: &[] },
        Codepoint { codepoint: 0x1DDA, name: "COMBINING LATIN SMALL LETTER G", aliases: &[] },
        Codepoint { codepoint: 0x1DDB, name: "COMBINING LATIN LETTER SMALL CAPITAL G", aliases: &[] },
        Codepoint { codepoint: 0x1DDC, name: "COMBINING LATIN SMALL LETTER K", aliases: &[] },
        Codepoint { codepoint: 0x1DDD, name: "COMBINING LATIN SMALL LETTER L", aliases: &[] },
        Codepoint { codepoint: 0x1DDE, name: "COMBINING LATIN LETTER SMALL CAPITAL L", aliases: &[] },
        Codepoint { codepoint: 0x1DDF, name: "COMBINING LATIN LETTER SMALL CAPITAL M", aliases: &[] },
        Codepoint { codepoint: 0x1DE0, name: "COMBINING LATIN SMALL LETTER N", aliases: &[] },
        Codepoint { codepoint: 0x1DE1, name: "COMBINING LATIN LETTER SMALL CAPITAL N", aliases: &[] },
        Codepoint { codepoint: 0x1DE2, name: "COMBINING LATIN LETTER SMALL CAPITAL R", aliases: &[] },
        Codepoint { codepoint: 0x1DE3, name: "COMBINING LATIN SMALL LETTER R ROTUNDA", aliases: &[] },
        Codepoint { codepoint: 0x1DE4, name: "COMBINING LATIN SMALL LETTER S", aliases: &[] },
        Codepoint { codepoint: 0x1DE5, name: "COMBINING LATIN SMALL LETTER LONG S", aliases: &[] },
        Codepoint { codepoint: 0x1DE6, name: "COMBINING LATIN SMALL LETTER Z", aliases: &[] },
        Codepoint { codepoint: 0x1DE7, name: "COMBINING LATIN SMALL LETTER ALPHA", aliases: &[] },
    ];
    assert(v@ =~= codepoint_table_170());
    v
}

pub open spec fn codepoint_table_171() -> Seq<Codepoint> {
    seq![
        Codepoint { codepoint: 0x1DE8, name: "COMBINING LATIN SMALL LETTER B", aliases: &[] },
        Codepoint { codepoint: 0x1DE9, name: "COMBINING LATIN SMALL LETTER BETA", aliases: &[] },
        Codepoint { codepoint: 0x1DEA, name: "COMBINING LATIN SMALL LETTER SCHWA", aliases: &[] },
        Codepoint { codepoint: 0x1DEB, name: "COMBINING LATIN SMALL LETTER F", aliases: &[] },
        Codepoint { codepoint: 0x1DEC, name: "COMBINING LATIN SMALL LETTER L WITH DOUBLE MIDDLE TILDE", aliases: &[] },
        Codepoint { codepoint: 0x1DED, name: "COMBINING LATIN SMALL LETTER O WITH LIGHT CENTRALIZATION STROKE", aliases: &[] },
        Codepoint { codepoint: 0x1DEE, name: "COMBINING LATIN SMALL LETTER P", aliases: &[] },
        Codepoint { codepoint: 0x1DEF, name: "COMBINING LATIN SMALL LETTER ESH", aliases: &[] },
        Codepoint { codepoint: 0x1DF0, name: "COMBINING LATIN SMALL LETTER U WITH LIGHT CENTRALIZATION STROKE", aliases: &[] },
        Codepoint { codepoint: 0x1DF1, name: "COMBINING LATIN SMALL LETTER W", aliases: &[] },
        Codepoint { codepoint: 0x1DF2, name: "COMBINING LATIN SMALL LETTER A WITH DIAERESIS", aliases: &[] },
        Codepoint { codepoint: 0x1DF3, name: "COMBINING LATIN SMALL LETTER O WITH DIAERESIS", aliases: &[] },
        Codepoint { codepoint: 0x1DF4, name: "COMBINING LATIN SMALL LETTER U WITH DIAERESIS", aliases: &[] },
        Codepoint { codepoint: 0x1DF5, name: "COMBINING UP TACK ABOVE", aliases: &[] },
        Codepoint { codepoint: 0x1DF6, name: "COMBINING KAVYKA ABOVE RIGHT", aliases: &[] },
        Codepoint { codepoint: 0x1DF7, name: "COMBINING KAVYKA ABOVE LEFT", aliases: &[] },
        Codepoint { codepoint: 0x1DF8, name: "COMBINING DOT ABOVE LEFT", aliases: &[] },
        Codepoint { codepoint: 0x1DF9, name: "COMBINING WIDE INVERTED BRIDGE BELOW", aliases: &[] },
        Codepoint { codepoint: 0x1DFA, name: "COMBINING DOT BELOW LEFT", aliases: &[] },
        Codepoint { codepoint: 0x1DFB, name: "COMBINING DELETION MARK", aliases: &[] },
        Codepoint { codepoint: 0x1DFC, name: "COMBINING DOUBLE INVERTED BREVE BELOW", aliases: &[] },
        Codepoint { codepoint: 0x1DFD, name: "COMBINING ALMOST EQUAL TO BELOW", aliases: &[] },
        Codepoint { codepoint: 0x1DFE, name: "COMBINING LEFT ARROWHEAD ABOVE", aliases: &[] },
        Codepoint { codepoint: 0x1DFF, name: "COMBINING RIGHT ARROWHEAD AND DOWN ARROWHEAD BELOW", aliases: &[] },
        Codepoint { codepoint: 0x1E00, name: "LATIN CAPITAL LETTER A WITH RING BELOW", aliases: &[] },
        Codepoint { codepoint: 0x1E01, name: "LATIN SMALL LETTER A WITH RING BELOW", aliases: &[] },
        Codepoint { codepoint: 0x1E02, name: "LATIN CAPITAL LETTER B WITH DOT ABOVE", aliases: &[] },
        Codepoint { codepoint: 0x1E03, name: "LATIN SMALL LETTER B WITH DOT ABOVE", aliases: &[] },
        Codepoint { codepoint: 0x1E04, name: "LATIN CAPITAL LETTER B WITH DOT BELOW", aliases: &[] },
        Codepoint { codepoint: 0x1E05, name: "LATIN SMALL LETTER B WITH DOT BELOW", aliases: &[] },
        Codepoint { codepoint: 0x1E06, name: "LATIN CAPITAL LETTER B WITH LINE BELOW", aliases: &[] },
        Codepoint { codepoint: 0x1E07, name: "LATIN SMALL LETTER B WITH LINE BELOW", aliases: &[] },
        Codepoint { codepoint: 0x1E08, name: "LATIN CAPITAL LETTER C WITH CEDILLA AND ACUTE", aliases: &[] },
        Codepoint { codepoint: 0x1E09, name: "LATIN SMALL LETTER C WITH CEDILLA AND ACUTE", aliases: &[] },
        Codepoint { codepoint: 0x1E0A, name: "LATIN CAPITAL LETTER D WITH DOT ABOVE", aliases: &[] },
        Codepoint { codepoint: 0x1E0B, name: "LATIN SMALL LETTER D WITH DOT ABOVE", aliases: &[] },
        Codepoint { codepoint: 0x1E0C, name: "LATIN CAPITAL LETTER D WITH DOT BELOW", aliases: &[] },
        Codepoint { codepoint: 0x1E0D, name: "LATIN SMALL LETTER D WITH DOT BELOW", aliases: &[] },
        Codepoint { codepoint: 0x1E0E, name: "LATIN CAPITAL LETTER D WITH LINE BELOW", aliases: &[] },
        Codepoint { codepoint: 0x1E0F, name: "LATIN SMALL LETTER D WITH LINE BELOW", aliases: &[] },
    ]
}

fn all_codepoints_171() -> (v: Vec<Codepoint>)
    ensures
        v@ == codepoint_table_171(),
{
    let v = vec![
        Codepoint { codepoint: 0x1DE8, name: "COMBINING LATIN SMALL LETTER B", aliases: &[] },
        Codepoint { codepoint: 0x1DE9, name: "COMBINING LATIN SMALL LETTER BETA", aliases: &[] },
        Codepoint { codepoint: 0x1DEA, name: "COMBINING LATIN SMALL LETTER SCHWA", aliases: &[] },
        Codepoint { codepoint: 0x1DEB, name: "COMBINING LATIN SMALL LETTER F", aliases: &[] },
        Codepoint { codepoint: 0x1DEC, name: "COMBINING LATIN SMALL LETTER L WITH DOUBLE MIDDLE TILDE", aliases: &[] },
        Codepoint { codepoint: 0x1DED, name: "COMBINING LATIN SMALL LETTER O WITH LIGHT CENTRALIZATION STROKE", aliases: &[] },
        Codepoint { codepoint: 0x1DEE, name: "COMBINING LATIN SMALL LETTER P", aliases: &[] },
        Codepoint { codepoint: 0x1DEF, name: "COMBINING LATIN SMALL LETTER ESH", aliases: &[] },
        Codepoint { codepoint: 0x1DF0, name: "COMBINING LATIN SMALL LETTER U WITH LIGHT CENTRALIZATION STROKE", aliases: &[] },
        Codepoint { codepoint: 0x1DF1, name: "COMBINING LATIN SMALL LETTER W", aliases: &[] },
        Codepoint { codepoint: 0x1DF2, name: "COMBINING LATIN SMALL LETTER A WITH DIAERESIS", aliases: &[] },
        Codepoint { codepoint: 0x1DF3, name: "COMBINING LATIN SMALL LETTER O WITH DIAERESIS", aliases: &[] },
        Codepoint { codepoint: 0x1DF4, name: "COMBINING LATIN SMALL LETTER U WITH DIAERESIS", aliases: &[] },
        Codepoint { codepoint: 0x1DF5, name: "COMBINING UP TACK ABOVE", aliases: &[] },
        Codepoint { codepoint: 0x1DF6, name: "COMBINING KAVYKA ABOVE RIGHT", aliases: &[] },
        Codepoint { codepoint: 0x1DF7, name: "COMBINING KAVYKA ABOVE LEFT", aliases: &[] },
        Codepoint { codepoint: 0x1DF8, name: "COMBINING DOT ABOVE LEFT", aliases: &[] },
        Codepoint { codepoint: 0x1DF9, name: "COMBINING WIDE INVERTED BRIDGE BELOW", aliases: &[] },
        Codepoint { codepoint: 0x1DFA, name: "COMBINING DOT BELOW LEFT", aliases: &[] },
        Codepoint { codepoint: 0x1DFB, name: "COMBINING DELETION MARK", aliases: &[] },
        Codepoint { codepoint: 0x1DFC, name: "COMBINING DOUBLE INVERTED BREVE BELOW", aliases: &[] },
        Codepoint { codepoint: 0x1DFD, name: "COMBINING ALMOST EQUAL TO BELOW", aliases: &[] },
        Codepoint { codepoint: 0x1DFE, name: "COMBINING LEFT ARROWHEAD ABOVE", aliases: &[] },
        Codepoint { codepoint: 0x1DFF, name: "COMBINING RIGHT ARROWHEAD AND DOWN ARROWHEAD BELOW", aliases: &[] },
        Codepoint { codepoint: 0x1E00, name: "LATIN CAPITAL LETTER A WITH RING BELOW", aliases: &[] },
        Codepoint { codepoint: 0x1E01, name: "LATIN SMALL LETTER A WITH RING BELOW", aliases: &[] },
        Codepoint { codepoint: 0x1E02, name: "LATIN CAPITAL LETTER B WITH DOT ABOVE", aliases: &[] },
        Codepoint { codepoint: 0x1E03, name: "LATIN SMALL LETTER B WITH DOT ABOVE", aliases: &[] },
        Codepoint { codepoint: 0x1E04, name: "LATIN CAPITAL LETTER B WITH DOT BELOW", aliases: &[] },
        Codepoint { codepoint: 0x1E05, name: "LATIN SMALL LETTER B WITH DOT BELOW", aliases: &[] },
        Codepoint { codepoint: 0x1E06, name: "LATIN CAPITAL LETTER B WITH LINE BELOW", aliases: &[] },
        Codepoint { codepoint: 0x1E07, name: "LATIN SMALL LETTER B WITH LINE BELOW", aliases: &[] },
        Codepoint { codepoint: 0x1E08, name: "LATIN CAPITAL LETTER C WITH CEDILLA AND ACUTE", aliases: &[] },
        Codepoint { codepoint: 0x1E09, name: "LATIN SMALL LETTER C WITH CEDILLA AND ACUTE", aliases: &[] },
        Codepoint { codepoint: 0x1E0A, name: "LATIN CAPITAL LETTER D WITH DOT ABOVE", aliases: &[] },
        Codepoint { codepoint: 0x1E0B, name: "LATIN SMALL LETTER D WITH DOT ABOVE", aliases: &[] },
        Codepoint { codepoint: 0x1E0C, name: "LATIN CAPITAL LETTER D WITH DOT BELOW", aliases: &[] },
        Codepoint { codepoint: 0x1E0D, name: "LATIN SMALL LETTER D WITH DOT BELOW", aliases: &[] },
        Codepoint { codepoint: 0x1E0E, name: "LATIN CAPITAL LETTER D WITH LINE BELOW", aliases: &[] },
        Codepoint { codepoint: 0x1E0F, name: "LATIN SMALL LETTER D WITH LINE BELOW", aliases: &[] },
    ];
    assert(v@ =~= codepoint_table_171());
    v
}

pub open spec fn codepoint_table_172() -> Seq<Codepoint> {
    seq![
        Codepoint { codepoint: 0x1E10, name: "LATIN CAPITAL LETTER D WITH CEDILLA", aliases: &[] },
        Codepoint { codepoint: 0x1E11, name: "LATIN SMALL LETTER D WITH CEDILLA", aliases: &[] },
        Codepoint { codepoint: 0x1E12, name: "LATIN CAPITAL LETTER D WITH CIRCUMFLEX BELOW", aliases: &[] },
        Codepoint { codepoint: 0x1E13, name: "LATIN SMALL LETTER D WITH CIRCUMFLEX BELOW", aliases: &[] },
        Codepoint { codepoint: 0x1E14, name: "LATIN CAPITAL LETTER E WITH MACRON AND GRAVE", aliases: &[] },
        Codepoint { codepoint: 0x1E15, name: "LATIN SMALL LETTER E WITH MACRON AND GRAVE", aliases: &[] },
        Codepoint { codepoint: 0x1E16, name: "LATIN CAPITAL LETTER E WITH MACRON AND ACUTE", aliases: &[] },
        Codepoint { codepoint: 0x1E17, name: "LATIN SMALL LETTER E WITH MACRON AND ACUTE", aliases: &[] },
        Codepoint { codepoint: 0x1E18, name: "LATIN CAPITAL LETTER E WITH CIRCUMFLEX BELOW", aliases: &[] },
        Codepoint { codepoint: 0x1E19, name: "LATIN SMALL LETTER E WITH CIRCUMFLEX BELOW", aliases: &[] },
        Codepoint { codepoint: 0x1E1A, name: "LATIN CAPITAL LETTER E WITH TILDE BELOW", aliases: &[] },
        Codepoint { codepoint: 0x1E1B, name: "LATIN SMALL LETTER E WITH TILDE BELOW", aliases: &[] },
        Codepoint { codepoint: 0x1E1C, name: "LATIN CAPITAL LETTER E WITH CEDILLA AND BREVE", aliases: &[] },
        Codepoint { codepoint: 0x1E1D, name: "LATIN SMALL LETTER E WITH CEDILLA AND BREVE", aliases: &[] },
        Codepoint { codepoint: 0x1E1E, name: "LATIN CAPITAL LETTER F WITH DOT ABOVE", aliases: &[] },
        Codepoint { codepoint: 0x1E1F, name: "LATIN SMALL LETTER F WITH DOT ABOVE", aliases: &[] },
        Codepoint { codepoint: 0x1E20, name: "LATIN CAPITAL LETTER G WITH MACRON", aliases: &[] },
        Codepoint { codepoint: 0x1E21, name: "LATIN SMALL LETTER G WITH MACRON", aliases: &[] },
        Codepoint { codepoint: 0x1E22, name: "LATIN CAPITAL LETTER H WITH DOT ABOVE", aliases: &[] },
        Codepoint { codepoint: 0x1E23, name: "LATIN SMALL LETTER H WITH DOT ABOVE", aliases: &[] },
        Codepoint { codepoint: 0x1E24, name: "LATIN CAPITAL LETTER H WITH DOT BELOW", aliases: &[] },
        Codepoint { codepoint: 0x1E25, name: "LATIN SMALL LETTER H WITH DOT BELOW", aliases: &[] },
        Codepoint { codepoint: 0x1E26, name: "LATIN CAPITAL LETTER H WITH DIAERESIS", aliases: &[] },
        Codepoint { codepoint: 0x1E27, name: "LATIN SMALL LETTER H WITH DIAERESIS", aliases: &[] },
        Codepoint { codepoint: 0x1E28, name: "LATIN CAPITAL LETTER H WITH CEDILLA", aliases: &[] },
        Codepoint { codepoint: 0x1E29, name: "LATIN SMALL LETTER H WITH CEDILLA", aliases: &[] },
        Codepoint { codepoint: 0x1E2A, name: "LATIN CAPITAL LETTER H WITH BREVE BELOW", aliases: &[] },
        Codepoint { codepoint: 0x1E2B, name: "LATIN SMALL LETTER H WITH BREVE BELOW", aliases: &[] },
        Codepoint { codepoint: 0x1E2C, name: "LATIN CAPITAL LETTER I WITH TILDE BELOW", aliases: &[] },
        Codepoint { codepoint: 0x1E2D, name: "LATIN SMALL LETTER I WITH TILDE BELOW", aliases: &[] },
        Codepoint { codepoint: 0x1E2E, name: "LATIN CAPITAL LETTER I WITH DIAERESIS AND ACUTE", aliases: &[] },
        Codepoint { codepoint: 0x1E2F, name: "LATIN SMALL LETTER I WITH DIAERESIS AND ACUTE", aliases: &[] },
        Codepoint { codepoint: 0x1E30, name: "LATIN CAPITAL LETTER K WITH ACUTE", aliases: &[] },
        Codepoint { codepoint: 0x1E31, name: "LATIN SMALL LETTER K WITH ACUTE", aliases: &[] },
        Codepoint { codepoint: 0x1E32, name: "LATIN CAPITAL LETTER K WITH DOT BELOW", aliases: &[] },
        Codepoint { codepoint: 0x1E33, name: "LATIN SMALL LETTER K WITH DOT BELOW", aliases: &[] },
        Codepoint { codepoint: 0x1E34, name: "LATIN CAPITAL LETTER K WITH LINE BELOW", aliases: &[] },
        Codepoint { codepoint: 0x1E35, name: "LATIN SMALL LETTER K WITH LINE BELOW", aliases: &[] },
        Codepoint { codepoint: 0x1E36, name: "LATIN CAPITAL LETTER L WITH DOT BELOW", aliases: &[] },
        Codepoint { codepoint: 0x1E37, name: "LATIN SMALL LETTER L WITH DOT BELOW", aliases: &[] },
    ]
}

fn all_codepoints_172() -> (v: Vec<Codepoint>)
    ensures
        v@ == codepoint_table_172(),
{
    let v = vec![
        Codepoint { codepoint: 0x1E10, name: "LATIN CAPITAL LETTER D WITH CEDILLA", aliases: &[] },
        Codepoint { codepoint: 0x1E11, name: "LATIN SMALL LETTER D WITH CEDILLA", aliases: &[] },
        Codepoint { codepoint: 0x1E12, name: "LATIN CAPITAL LETTER D WITH CIRCUMFLEX BELOW", aliases: &[] },
        Codepoint { codepoint: 0x1E13, name: "LATIN SMALL LETTER D WITH CIRCUMFLEX BELOW", aliases: &[] },
        Codepoint { codepoint: 0x1E14, name: "LATIN CAPITAL LETTER E WITH MACRON AND GRAVE", aliases: &[] },
        Codepoint { codepoint: 0x1E15, name: "LATIN SMALL LETTER E WITH MACRON AND GRAVE", aliases: &[] },
        Codepoint { codepoint: 0x1E16, name: "LATIN CAPITAL LETTER E WITH MACRON AND ACUTE", aliases: &[] },
        Codepoint { codepoint: 0x1E17, name: "LATIN SMALL LETTER E WITH MACRON AND ACUTE", aliases: &[] },
        Codepoint { codepoint: 0x1E18, name: "LATIN CAPITAL LETTER E WITH CIRCUMFLEX BELOW", aliases: &[] },
        Codepoint { codepoint: 0x1E19, name: "LATIN SMALL LETTER E WITH CIRCUMFLEX BELOW", aliases: &[] },
        Codepoint { codepoint: 0x1E1A, name: "LATIN CAPITAL LETTER E WITH TILDE BELOW", aliases: &[] },
        Codepoint { codepoint: 0x1E1B, name: "LATIN SMALL LETTER E WITH TILDE BELOW", aliases: &[] },
        Codepoint { codepoint: 0x1E1C, name: "LATIN CAPITAL LETTER E WITH CEDILLA AND BREVE", aliases: &[] },
        Codepoint { codepoint: 0x1E1D, name: "LATIN SMALL LETTER E WITH CEDILLA AND BREVE", aliases: &[] },
        Codepoint { codepoint: 0x1E1E, name: "LATIN CAPITAL LETTER F WITH DOT ABOVE", aliases: &[] },
        Codepoint { codepoint: 0x1E1F, name: "LATIN SMALL LETTER F WITH DOT ABOVE", aliases: &[] },
        Codepoint { codepoint: 0x1E20, name: "LATIN CAPITAL LETTER G WITH MACRON", aliases: &[] },
        Codepoint { codepoint: 0x1E21, name: "LATIN SMALL LETTER G WITH MACRON", aliases: &[] },
        Codepoint { codepoint: 0x1E22, name: "LATIN CAPITAL LETTER H WITH DOT ABOVE", aliases: &[] },
        Codepoint { codepoint: 0x1E23, name: "LATIN SMALL LETTER H WITH DOT ABOVE", aliases: &[] },
        Codepoint { codepoint: 0x1E24, name: "LATIN CAPITAL LETTER H WITH DOT BELOW", aliases: &[] },
        Codepoint { codepoint: 0x1E25, name: "LATIN SMALL LETTER H WITH DOT BELOW", aliases: &[] },
        Codepoint { codepoint: 0x1E26, name: "LATIN CAPITAL LETTER H WITH DIAERESIS", aliases: &[] },
        Codepoint { codepoint: 0x1E27, name: "LATIN SMALL LETTER H WITH DIAERESIS", aliases: &[] },
        Codepoint { codepoint: 0x1E28, name: "LATIN CAPITAL LETTER H WITH CEDILLA", aliases: &[] },
        Codepoint { codepoint: 0x1E29, name: "LATIN SMALL LETTER H WITH CEDILLA", aliases: &[] },
        Codepoint { codepoint: 0x1E2A, name: "LATIN CAPITAL LETTER H WITH BREVE BELOW", aliases: &[] },
        Codepoint { codepoint: 0x1E2B, name: "LATIN SMALL LETTER H WITH BREVE BELOW", aliases: &[] },
        Codepoint { codepoint: 0x1E2C, name: "LATIN CAPITAL LETTER I WITH TILDE BELOW", aliases: &[] },
        Codepoint { codepoint: 0x1E2D, name: "LATIN SMALL LETTER I WITH TILDE BELOW", aliases: &[] },
        Codepoint { codepoint: 0x1E2E, name: "LATIN CAPITAL LETTER I WITH DIAERESIS AND ACUTE", aliases: &[] },
        Codepoint { codepoint: 0x1E2F, name: "LATIN SMALL LETTER I WITH DIAERESIS AND ACUTE", aliases: &[] },
        Codepoint { codepoint: 0x1E30, name: "LATIN CAPITAL LETTER K WITH ACUTE", aliases: &[] },
        Codepoint { codepoint: 0x1E31, name: "LATIN SMALL LETTER K WITH ACUTE", aliases: &[] },
        Codepoint { codepoint: 0x1E32, name: "LATIN CAPITAL LETTER K WITH DOT BELOW", aliases: &[] },
        Codepoint { codepoint: 0x1E33, name: "LATIN SMALL LETTER K WITH DOT BELOW", aliases: &[] },
        Codepoint { codepoint: 0x1E34, name: "LATIN CAPITAL LETTER K WITH LINE BELOW", aliases: &[] },
        Codepoint { codepoint: 0x1E35, name: "LATIN SMALL LETTER K WITH LINE BELOW", aliases: &[] },
        Codepoint { codepoint: 0x1E36, name: "LATIN CAPITAL LETTER L WITH DOT BELOW", aliases: &[] },
        Codepoint { codepoint: 0x1E37, name: "LATIN SMALL LETTER L WITH DOT BELOW", aliases: &[] },
    ];
    assert(v@ =~= codepoint_table_172());
    v
}

pub open spec fn codepoint_table_173() -> Seq<Codepoint> {
    seq![
        Codepoint { codepoint: 0x1E38, name: "LATIN CAPITAL LETTER L WITH DOT BELOW AND MACRON", aliases: &[] },
        Codepoint { codepoint: 0x1E39, name: "LATIN SMALL LETTER L WITH DOT BELOW AND MACRON", aliases: &[] },
        Codepoint { codepoint: 0x1E3A, name: "LATIN CAPITAL LETTER L WITH LINE BELOW", aliases: &[] },
        Codepoint { codepoint: 0x1E3B, name: "LATIN SMALL LETTER L WITH LINE BELOW", aliases: &[] },
        Codepoint { codepoint: 0x1E3C, name: "LATIN CAPITAL LETTER L WITH CIRCUMFLEX BELOW", aliases: &[] },
        Codepoint { codepoint: 0x1E3D, name: "LATIN SMALL LETTER L WITH CIRCUMFLEX BELOW", aliases: &[] },
        Codepoint { codepoint: 0x1E3E, name: "LATIN CAPITAL LETTER M WITH ACUTE", aliases: &[] },
        Codepoint { codepoint: 0x1E3F, name: "LATIN SMALL LETTER M WITH ACUTE", aliases: &[] },
        Codepoint { codepoint: 0x1E40, name: "LATIN CAPITAL LETTER M WITH DOT ABOVE", aliases: &[] },
        Codepoint { codepoint: 0x1E41, name: "LATIN SMALL LETTER M WITH DOT ABOVE", aliases: &[] },
        Codepoint { codepoint: 0x1E42, name: "LATIN CAPITAL LETTER M WITH DOT BELOW", aliases: &[] },
        Codepoint { codepoint: 0x1E43, name: "LATIN SMALL LETTER M WITH DOT BELOW", aliases: &[] },
        Codepoint { codepoint: 0x1E44, name: "LATIN CAPITAL LETTER N WITH DOT ABOVE", aliases: &[] },
        Codepoint { codepoint: 0x1E45, name: "LATIN SMALL LETTER N WITH DOT ABOVE", aliases: &[] },
        Codepoint { codepoint: 0x1E46, name: "LATIN CAPITAL LETTER N WITH DOT BELOW", aliases: &[] },
        Codepoint { codepoint: 0x1E47, name: "LATIN SMALL LETTER N WITH DOT BELOW", aliases: &[] },
        Codepoint { codepoint: 0x1E48, name: "LATIN CAPITAL LETTER N WITH LINE BELOW", aliases: &[] },
        Codepoint { codepoint: 0x1E49, name: "LATIN SMALL LETTER N WITH LINE BELOW", aliases: &[] },
        Codepoint { codepoint: 0x1E4A, name: "LATIN CAPITAL LETTER N WITH CIRCUMFLEX BELOW", aliases: &[] },
        Codepoint { codepoint: 0x1E4B, name: "LATIN SMALL LETTER N WITH CIRCUMFLEX BELOW", aliases: &[] },
        Codepoint { codepoint: 0x1E4C, name: "LATIN CAPITAL LETTER O WITH TILDE AND ACUTE", aliases: &[] },
        Codepoint { codepoint: 0x1E4D, name: "LATIN SMALL LETTER O WITH TILDE AND ACUTE", aliases: &[] },
        Codepoint { codepoint: 0x1E4E, name: "LATIN CAPITAL LETTER O WITH TILDE AND DIAERESIS", aliases: &[] },
        Codepoint { codepoint: 0x1E4F, name: "LATIN SMALL LETTER O WITH TILDE AND DIAERESIS", aliases: &[] },
        Codepoint { codepoint: 0x1E50, name: "LATIN CAPITAL LETTER O WITH MACRON AND GRAVE", aliases: &[] },
        Codepoint { codepoint: 0x1E51, name: "LATIN SMALL LETTER O WITH MACRON AND GRAVE", aliases: &[] },
        Codepoint { codepoint: 0x1E52, name: "LATIN CAPITAL LETTER O WITH MACRON AND ACUTE", aliases: &[] },
        Codepoint { codepoint: 0x1E53, name: "LATIN SMALL LETTER O WITH MACRON AND ACUTE", aliases: &[] },
        Codepoint { codepoint: 0x1E54, name: "LATIN CAPITAL LETTER P WITH ACUTE", aliases: &[] },
        Codepoint { codepoint: 0x1E55, name: "LATIN SMALL LETTER P WITH ACUTE", aliases: &[] },
        Codepoint { codepoint: 0x1E56, name: "LATIN CAPITAL LETTER P WITH DOT ABOVE", aliases: &[] },
        Codepoint { codepoint: 0x1E57, name: "LATIN SMALL LETTER P WITH DOT ABOVE", aliases: &[] },
        Codepoint { codepoint: 0x1E58, name: "LATIN CAPITAL LETTER R WITH DOT ABOVE", aliases: &[] },
        Codepoint { codepoint: 0x1E59, name: "LATIN SMALL LETTER R WITH DOT ABOVE", aliases: &[] },
        Codepoint { codepoint: 0x1E5A, name: "LATIN CAPITAL LETTER R WITH DOT BELOW", aliases: &[] },
        Codepoint { codepoint: 0x1E5B, name: "LATIN SMALL LETTER R WITH DOT BELOW", aliases: &[] },
        Codepoint { codepoint: 0x1E5C, name: "LATIN CAPITAL LETTER R WITH DOT BELOW AND MACRON", aliases: &[] },
        Codepoint { codepoint: 0x1E5D, name: "LATIN SMALL LETTER R WITH DOT BELOW AND MACRON", aliases: &[] },
        Codepoint { codepoint: 0x1E5E, name: "LATIN CAPITAL LETTER R WITH LINE BELOW", aliases: &[] },
        Codepoint { codepoint: 0x1E5F, name: "LATIN SMALL LETTER R WITH LINE BELOW", aliases: &[] },
    ]
}

fn all_codepoints_173() -> (v: Vec<Codepoint>)
    ensures
        v@ == codepoint_table_173(),
{
    let v = vec![
        Codepoint { codepoint: 0x1E38, name: "LATIN CAPITAL LETTER L WITH DOT BELOW AND MACRON", aliases: &[] },
        Codepoint { codepoint: 0x1E39, name: "LATIN SMALL LETTER L WITH DOT BELOW AND MACRON", aliases: &[] },
        Codepoint { codepoint: 0x1E3A, name: "LATIN CAPITAL LETTER L WITH LINE BELOW", aliases: &[] },
        Codepoint { codepoint: 0x1E3B, name: "LATIN SMALL LETTER L WITH LINE BELOW", aliases: &[] },
        Codepoint { codepoint: 0x1E3C, name: "LATIN CAPITAL LETTER L WITH CIRCUMFLEX BELOW", aliases: &[] },
        Codepoint { codepoint: 0x1E3D, name: "LATIN SMALL LETTER L WITH CIRCUMFLEX BELOW", aliases: &[] },
        Codepoint { codepoint: 0x1E3E, name: "LATIN CAPITAL LETTER M WITH ACUTE", aliases: &[] },
        Codepoint { codepoint: 0x1E3F, name: "LATIN SMALL LETTER M WITH ACUTE", aliases: &[] },
        Codepoint { codepoint: 0x1E40, name: "LATIN CAPITAL LETTER M WITH DOT ABOVE", aliases: &[] },
        Codepoint { codepoint: 0x1E41, name: "LATIN SMALL LETTER M WITH DOT ABOVE", aliases: &[] },
        Codepoint { codepoint: 0x1E42, name: "LATIN CAPITAL LETTER M WITH DOT BELOW", aliases: &[] },
        Codepoint { codepoint: 0x1E43, name: "LATIN SMALL LETTER M WITH DOT BELOW", aliases: &[] },
        Codepoint { codepoint: 0x1E44, name: "LATIN CAPITAL LETTER N WITH DOT ABOVE", aliases: &[] },
        Codepoint { codepoint: 0x1E45, name: "LATIN SMALL LETTER N WITH DOT ABOVE", aliases: &[] },
        Codepoint { codepoint: 0x1E46, name: "LATIN CAPITAL LETTER N WITH DOT BELOW", aliases: &[] },
        Codepoint { codepoint: 0x1E47, name: "LATIN SMALL LETTER N WITH DOT BELOW", aliases: &[] },
        Codepoint { codepoint: 0x1E48, name: "LATIN CAPITAL LETTER N WITH LINE BELOW", aliases: &[] },
        Codepoint { codepoint: 0x1E49, name: "LATIN SMALL LETTER N WITH LINE BELOW", aliases: &[] },
        Codepoint { codepoint: 0x1E4A, name: "LATIN CAPITAL LETTER N WITH CIRCUMFLEX BELOW", aliases: &[] },
        Codepoint { codepoint: 0x1E4B, name: "LATIN SMALL LETTER N WITH CIRCUMFLEX BELOW", aliases: &[] },
        Codepoint { codepoint: 0x1E4C, name: "LATIN CAPITAL LETTER O WITH TILDE AND ACUTE", aliases: &[] },
        Codepoint { codepoint: 0x1E4D, name: "LATIN SMALL LETTER O WITH TILDE AND ACUTE", aliases: &[] },
        Codepoint { codepoint: 0x1E4E, name: "LATIN CAPITAL LETTER O WITH TILDE AND DIAERESIS", aliases: &[] },
        Codepoint { codepoint: 0x1E4F, name: "LATIN SMALL LETTER O WITH TILDE AND DIAERESIS", aliases: &[] },
        Codepoint { codepoint: 0x1E50, name: "LATIN CAPITAL LETTER O WITH MACRON AND GRAVE", aliases: &[] },
        Codepoint { codepoint: 0x1E51, name: "LATIN SMALL LETTER O WITH MACRON AND GRAVE", aliases: &[] },
        Codepoint { codepoint: 0x1E52, name: "LATIN CAPITAL LETTER O WITH MACRON AND ACUTE", aliases: &[] },
        Codepoint { codepoint: 0x1E53, name: "LATIN SMALL LETTER O WITH MACRON AND ACUTE", aliases: &[] },
        Codepoint { codepoint: 0x1E54, name: "LATIN CAPITAL LETTER P WITH ACUTE", aliases: &[] },
        Codepoint { codepoint: 0x1E55, name: "LATIN SMALL LETTER P WITH ACUTE", aliases: &[] },
        Codepoint { codepoint: 0x1E56, name: "LATIN CAPITAL LETTER P WITH DOT ABOVE", aliases: &[] },
        Codepoint { codepoint: 0x1E57, name: "LATIN SMALL LETTER P WITH DOT ABOVE", aliases: &[] },
        Codepoint { codepoint: 0x1E58, name: "LATIN CAPITAL LETTER R WITH DOT ABOVE", aliases: &[] },
        Codepoint { codepoint: 0x1E59, name: "LATIN SMALL LETTER R WITH DOT ABOVE", aliases: &[] },
        Codepoint { codepoint: 0x1E5A, name: "LATIN CAPITAL LETTER R WITH DOT BELOW", aliases: &[] },
        Codepoint { codepoint: 0x1E5B, name: "LATIN SMALL LETTER R WITH DOT BELOW", aliases: &[] },
        Codepoint { codepoint: 0x1E5C, name: "LATIN CAPITAL LETTER R WITH DOT BELOW AND MACRON", aliases: &[] },
        Codepoint { codepoint: 0x1E5D, name: "LATIN SMALL LETTER R WITH DOT BELOW AND MACRON", aliases: &[] },
        Codepoint { codepoint: 0x1E5E, name: "LATIN CAPITAL LETTER R WITH LINE BELOW", aliases: &[] },
        Codepoint { codepoint: 0x1E5F, name: "LATIN SMALL LETTER R WITH LINE BELOW", aliases: &[] },
    ];
    assert(v@ =~= codepoint_table_173());
    v
}

pub open spec fn codepoint_table_174() -> Seq<Codepoint> {
    seq![
        Codepoint { codepoint: 0x1E60, name: "LATIN CAPITAL LETTER S WITH DOT ABOVE", aliases: &[] },
        Codepoint { codepoint: 0x1E61, name: "LATIN SMALL LETTER S WITH DOT ABOVE", aliases: &[] },
        Codepoint { codepoint: 0x1E62, name: "LATIN CAPITAL LETTER S WITH DOT BELOW", aliases: &[] },
        Codepoint { codepoint: 0x1E63, name: "LATIN SMALL LETTER S WITH DOT BELOW", aliases: &[] },
        Codepoint { codepoint: 0x1E64, name: "LATIN CAPITAL LETTER S WITH ACUTE AND DOT ABOVE", aliases: &[] },
        Codepoint { codepoint: 0x1E65, name: "LATIN SMALL LETTER S WITH ACUTE AND DOT ABOVE", aliases: &[] },
        Codepoint { codepoint: 0x1E66, name: "LATIN CAPITAL LETTER S WITH CARON AND DOT ABOVE", aliases: &[] },
        Codepoint { codepoint: 0x1E67, name: "LATIN SMALL LETTER S WITH CARON AND DOT ABOVE", aliases: &[] },
        Codepoint { codepoint: 0x1E68, name: "LATIN CAPITAL LETTER S WITH DOT BELOW AND DOT ABOVE", aliases: &[] },
        Codepoint { codepoint: 0x1E69, name: "LATIN SMALL LETTER S WITH DOT BELOW AND DOT ABOVE", aliases: &[] },
        Codepoint { codepoint: 0x1E6A, name: "LATIN CAPITAL LETTER T WITH DOT ABOVE", aliases: &[] },
        Codepoint { codepoint: 0x1E6B, name: "LATIN SMALL LETTER T WITH DOT ABOVE", aliases: &[] },
        Codepoint { codepoint: 0x1E6C, name: "LATIN CAPITAL LETTER T WITH DOT BELOW", aliases: &[] },
        Codepoint { codepoint: 0x1E6D, name: "LATIN SMALL LETTER T WITH DOT BELOW", aliases: &[] },
        Codepoint { codepoint: 0x1E6E, name: "LATIN CAPITAL LETTER T WITH LINE BELOW", aliases: &[] },
        Codepoint { codepoint: 0x1E6F, name: "LATIN SMALL LETTER T WITH LINE BELOW", aliases: &[] },
        Codepoint { codepoint: 0x1E70, name: "LATIN CAPITAL LETTER T WITH CIRCUMFLEX BELOW", aliases: &[] },
        Codepoint { codepoint: 0x1E71, name: "LATIN SMALL LETTER T WITH CIRCUMFLEX BELOW", aliases: &[] },
        Codepoint { codepoint: 0x1E72, name: "LATIN CAPITAL LETTER U WITH DIAERESIS BELOW", aliases: &[] },
        Codepoint { codepoint: 0x1E73, name: "LATIN SMALL LETTER U WITH DIAERESIS BELOW", aliases: &[] },
        Codepoint { codepoint: 0x1E74, name: "LATIN CAPITAL LETTER U WITH TILDE BELOW", aliases: &[] },
        Codepoint { codepoint: 0x1E75, name: "LATIN SMALL LETTER U WITH TILDE BELOW", aliases: &[] },
        Codepoint { codepoint: 0x1E76, name: "LATIN CAPITAL LETTER U WITH CIRCUMFLEX BELOW", aliases: &[] },
        Codepoint { codepoint: 0x1E77, name: "LATIN SMALL LETTER U WITH CIRCUMFLEX BELOW", aliases: &[] },
        Codepoint { codepoint: 0x1E78, name: "LATIN CAPITAL LETTER U WITH TILDE AND ACUTE", aliases: &[] },
        Codepoint { codepoint: 0x1E79, name: "LATIN SMALL LETTER U WITH TILDE AND ACUTE", aliases: &[] },
        Codepoint { codepoint: 0x1E7A, name: "LATIN CAPITAL LETTER U WITH MACRON AND DIAERESIS", aliases: &[] },
        Codepoint { codepoint: 0x1E7B, name: "LATIN SMALL LETTER U WITH MACRON AND DIAERESIS", aliases: &[] },
        Codepoint { codepoint: 0x1E7C, name: "LATIN CAPITAL LETTER V WITH TILDE", aliases: &[] },
        Codepoint { codepoint: 0x1E7D, name: "LATIN SMALL LETTER V WITH TILDE", aliases: &[] },
        Codepoint { codepoint: 0x1E7E, name: "LATIN CAPITAL LETTER V WITH DOT BELOW", aliases: &[] },
        Codepoint { codepoint: 0x1E7F, name: "LATIN SMALL LETTER V WITH DOT BELOW", aliases: &[] },
        Codepoint { codepoint: 0x1E80, name: "LATIN CAPITAL LETTER W WITH GRAVE", aliases: &[] },
        Codepoint { codepoint: 0x1E81, name: "LATIN SMALL LETTER W WITH GRAVE", aliases: &[] },
        Codepoint { codepoint: 0x1E82, name: "LATIN CAPITAL LETTER W WITH ACUTE", aliases: &[] },
        Codepoint { codepoint: 0x1E83, name: "LATIN SMALL LETTER W WITH ACUTE", aliases: &[] },
        Codepoint { codepoint: 0x1E84, name: "LATIN CAPITAL LETTER W WITH DIAERESIS", aliases: &[] },
        Codepoint { codepoint: 0x1E85, name: "LATIN SMALL LETTER W WITH DIAERESIS", aliases: &[] },
        Codepoint { codepoint: 0x1E86, name: "LATIN CAPITAL LETTER W WITH DOT ABOVE", aliases: &[] },
        Codepoint { codepoint: 0x1E87, name: "LATIN SMALL LETTER W WITH DOT ABOVE", aliases: &[] },
    ]
}

fn all_codepoints_174() -> (v: Vec<Codepoint>)
    ensures
        v@ == codepoint_table_174(),
{
    let v = vec![
        Codepoint { codepoint: 0x1E60, name: "LATIN CAPITAL LETTER S WITH DOT ABOVE", aliases: &[] },
        Codepoint { codepoint: 0x1E61, name: "LATIN SMALL LETTER S WITH DOT ABOVE", aliases: &[] },
        Codepoint { codepoint: 0x1E62, name: "LATIN CAPITAL LETTER S WITH DOT BELOW", aliases: &[] },
        Codepoint { codepoint: 0x1E63, name: "LATIN SMALL LETTER S WITH DOT BELOW", aliases: &[] },
        Codepoint { codepoint: 0x1E64, name: "LATIN CAPITAL LETTER S WITH ACUTE AND DOT ABOVE", aliases: &[] },
        Codepoint { codepoint: 0x1E65, name: "LATIN SMALL LETTER S WITH ACUTE AND DOT ABOVE", aliases: &[] },
        Codepoint { codepoint: 0x1E66, name: "LATIN CAPITAL LETTER S WITH CARON AND DOT ABOVE", aliases: &[] },
        Codepoint { codepoint: 0x1E67, name: "LATIN SMALL LETTER S WITH CARON AND DOT ABOVE", aliases: &[] },
        Codepoint { codepoint: 0x1E68, name: "LATIN CAPITAL LETTER S WITH DOT BELOW AND DOT ABOVE", aliases: &[] },
        Codepoint { codepoint: 0x1E69, name: "LATIN SMALL LETTER S WITH DOT BELOW AND DOT ABOVE", aliases: &[] },
        Codepoint { codepoint: 0x1E6A, name: "LATIN CAPITAL LETTER T WITH DOT ABOVE", aliases: &[] },
        Codepoint { codepoint: 0x1E6B, name: "LATIN SMALL LETTER T WITH DOT ABOVE", aliases: &[] },
        Codepoint { codepoint: 0x1E6C, name: "LATIN CAPITAL LETTER T WITH DOT BELOW", aliases: &[] },
        Codepoint { codepoint: 0x1E6D, name: "LATIN SMALL LETTER T WITH DOT BELOW", aliases: &[] },
        Codepoint { codepoint: 0x1E6E, name: "LATIN CAPITAL LETTER T WITH LINE BELOW", aliases: &[] },
        Codepoint { codepoint: 0x1E6F, name: "LATIN SMALL LETTER T WITH LINE BELOW", aliases: &[] },
        Codepoint { codepoint: 0x1E70, name: "LATIN CAPITAL LETTER T WITH CIRCUMFLEX BELOW", aliases: &[] },
        Codepoint { codepoint: 0x1E71, name: "LATIN SMALL LETTER T WITH CIRCUMFLEX BELOW", aliases: &[] },
        Codepoint { codepoint: 0x1E72, name: "LATIN CAPITAL LETTER U WITH DIAERESIS BELOW", aliases: &[] },
        Codepoint { codepoint: 0x1E73, name: "LATIN SMALL LETTER U WITH DIAERESIS BELOW", aliases: &[] },
        Codepoint { codepoint: 0x1E74, name: "LATIN CAPITAL LETTER U WITH TILDE BELOW", aliases: &[] },
        Codepoint { codepoint: 0x1E75, name: "LATIN SMALL LETTER U WITH TILDE BELOW", aliases: &[] },
        Codepoint { codepoint: 0x1E76, name: "LATIN CAPITAL LETTER U WITH CIRCUMFLEX BELOW", aliases: &[] },
        Codepoint { codepoint: 0x1E77, name: "LATIN SMALL LETTER U WITH CIRCUMFLEX BELOW", aliases: &[] },
        Codepoint { codepoint: 0x1E78, name: "LATIN CAPITAL LETTER U WITH TILDE AND ACUTE", aliases: &[] },
        Codepoint { codepoint: 0x1E79, name: "LATIN SMALL LETTER U WITH TILDE AND ACUTE", aliases: &[] },
        Codepoint { codepoint: 0x1E7A, name: "LATIN CAPITAL LETTER U WITH MACRON AND DIAERESIS", aliases: &[] },
        Codepoint { codepoint: 0x1E7B, name: "LATIN SMALL LETTER U WITH MACRON AND DIAERESIS", aliases: &[] },
        Codepoint { codepoint: 0x1E7C, name: "LATIN CAPITAL LETTER V WITH TILDE", aliases: &[] },
        Codepoint { codepoint: 0x1E7D, name: "LATIN SMALL LETTER V WITH TILDE", aliases: &[] },
        Codepoint { codepoint: 0x1E7E, name: "LATIN CAPITAL LETTER V WITH DOT BELOW", aliases: &[] },
        Codepoint { codepoint: 0x1E7F, name: "LATIN SMALL LETTER V WITH DOT BELOW", aliases: &[] },
        Codepoint { codepoint: 0x1E80, name: "LATIN CAPITAL LETTER W WITH GRAVE", aliases: &[] },
        Codepoint { codepoint: 0x1E81, name: "LATIN SMALL LETTER W WITH GRAVE", aliases: &[] },
        Codepoint { codepoint: 0x1E82, name: "LATIN CAPITAL LETTER W WITH ACUTE", aliases: &[] },
        Codepoint { codepoint: 0x1E83, name: "LATIN SMALL LETTER W WITH ACUTE", aliases: &[] },
        Codepoint { codepoint: 0x1E84, name: "LATIN CAPITAL LETTER W WITH DIAERESIS", aliases: &[] },
        Codepoint { codepoint: 0x1E85, name: "LATIN SMALL LETTER W WITH DIAERESIS", aliases: &[] },
        Codepoint { codepoint: 0x1E86, name: "LATIN CAPITAL LETTER W WITH DOT ABOVE", aliases: &[] },
        Codepoint { codepoint: 0x1E87, name: "LATIN SMALL LETTER W WITH DOT ABOVE", aliases: &[] },
    ];
    assert(v@ =~= codepoint_table_174());
    v
}

pub open spec fn codepoint_table_175() -> Seq<Codepoint> {
    seq![
        Codepoint { codepoint: 0x1E88, name: "LATIN CAPITAL LETTER W WITH DOT BELOW", aliases: &[] },
        Codepoint { codepoint: 0x1E89, name: "LATIN SMALL LETTER W WITH DOT BELOW", aliases: &[] },
        Codepoint { codepoint: 0x1E8A, name: "LATIN CAPITAL LETTER X WITH DOT ABOVE", aliases: &[] },
        Codepoint { codepoint: 0x1E8B, name: "LATIN SMALL LETTER X WITH DOT ABOVE", aliases: &[] },
        Codepoint { codepoint: 0x1E8C, name: "LATIN CAPITAL LETTER X WITH DIAERESIS", aliases: &[] },
        Codepoint { codepoint: 0x1E8D, name: "LATIN SMALL LETTER X WITH DIAERESIS", aliases: &[] },
        Codepoint { codepoint: 0x1E8E, name: "LATIN CAPITAL LETTER Y WITH DOT ABOVE", aliases: &[] },
        Codepoint { codepoint: 0x1E8F, name: "LATIN SMALL LETTER Y WITH DOT ABOVE", aliases: &[] },
        Codepoint { codepoint: 0x1E90, name: "LATIN CAPITAL LETTER Z WITH CIRCUMFLEX", aliases: &[] },
        Codepoint { codepoint: 0x1E91, name: "LATIN SMALL LETTER Z WITH CIRCUMFLEX", aliases: &[] },
        Codepoint { codepoint: 0x1E92, name: "LATIN CAPITAL LETTER Z WITH DOT BELOW", aliases: &[] },
        Codepoint { codepoint: 0x1E93, name: "LATIN SMALL LETTER Z WITH DOT BELOW", aliases: &[] },
        Codepoint { codepoint: 0x1E94, name: "LATIN CAPITAL LETTER Z WITH LINE BELOW", aliases: &[] },
        Codepoint { codepoint: 0x1E95, name: "LATIN SMALL LETTER Z WITH LINE BELOW", aliases: &[] },
        Codepoint { codepoint: 0x1E96, name: "LATIN SMALL LETTER H WITH LINE BELOW", aliases: &[] },
        Codepoint { codepoint: 0x1E97, name: "LATIN SMALL LETTER T WITH DIAERESIS", aliases: &[] },
        Codepoint { codepoint: 0x1E98, name: "LATIN SMALL LETTER W WITH RING ABOVE", aliases: &[] },
        Codepoint { codepoint: 0x1E99, name: "LATIN SMALL LETTER Y WITH RING ABOVE", aliases: &[] },
        Codepoint { codepoint: 0x1E9A, name: "LATIN SMALL LETTER A WITH RIGHT HALF RING", aliases: &[] },
        Codepoint { codepoint: 0x1E9B, name: "LATIN SMALL LETTER LONG S WITH DOT ABOVE", aliases: &[] },
        Codepoint { codepoint: 0x1E9C, name: "LATIN SMALL LETTER LONG S WITH DIAGONAL STROKE", aliases: &[] },
        Codepoint { codepoint: 0x1E9D, name: "LATIN SMALL LETTER LONG S WITH HIGH STROKE", aliases: &[] },
        Codepoint { codepoint: 0x1E9E, name: "LATIN CAPITAL LETTER SHARP S", aliases: &[] },
        Codepoint { codepoint: 0x1E9F, name: "LATIN SMALL LETTER DELTA", aliases: &[] },
        Codepoint { codepoint: 0x1EA0, name: "LATIN CAPITAL LETTER A WITH DOT BELOW", aliases: &[] },
        Codepoint { codepoint: 0x1EA1, name: "LATIN SMALL LETTER A WITH DOT BELOW", aliases: &[] },
        Codepoint { codepoint: 0x1EA2, name: "LATIN CAPITAL LETTER A WITH HOOK ABOVE", aliases: &[] },
        Codepoint { codepoint: 0x1EA3, name: "LATIN SMALL LETTER A WITH HOOK ABOVE", aliases: &[] },
        Codepoint { codepoint: 0x1EA4, name: "LATIN CAPITAL LETTER A WITH CIRCUMFLEX AND ACUTE", aliases: &[] },
        Codepoint { codepoint: 0x1EA5, name: "LATIN SMALL LETTER A WITH CIRCUMFLEX AND ACUTE", aliases: &[] },
        Codepoint { codepoint: 0x1EA6, name: "LATIN CAPITAL LETTER A WITH CIRCUMFLEX AND GRAVE", aliases: &[] },
        Codepoint { codepoint: 0x1EA7, name: "LATIN SMALL LETTER A WITH CIRCUMFLEX AND GRAVE", aliases: &[] },
        Codepoint { codepoint: 0x1EA8, name: "LATIN CAPITAL LETTER A WITH CIRCUMFLEX AND HOOK ABOVE", aliases: &[] },
        Codepoint { codepoint: 0x1EA9, name: "LATIN SMALL LETTER A WITH CIRCUMFLEX AND HOOK ABOVE", aliases: &[] },
        Codepoint { codepoint: 0x1EAA, name: "LATIN CAPITAL LETTER A WITH CIRCUMFLEX AND TILDE", aliases: &[] },
        Codepoint { codepoint: 0x1EAB, name: "LATIN SMALL LETTER A WITH CIRCUMFLEX AND TILDE", aliases: &[] },
        Codepoint { codepoint: 0x1EAC, name: "LATIN CAPITAL LETTER A WITH CIRCUMFLEX AND DOT BELOW", aliases: &[] },
        Codepoint { codepoint: 0x1EAD, name: "LATIN SMALL LETTER A WITH CIRCUMFLEX AND DOT BELOW", aliases: &[] },
        Codepoint { codepoint: 0x1EAE, name: "LATIN CAPITAL LETTER A WITH BREVE AND ACUTE", aliases: &[] },
        Codepoint { codepoint: 0x1EAF, name: "LATIN SMALL LETTER A WITH BREVE AND ACUTE", aliases: &[] },
    ]
}

fn all_codepoints_175() -> (v: Vec<Codepoint>)
    ensures
        v@ == codepoint_table_175(),
{
    let v = vec![
        Codepoint { codepoint: 0x1E88, name: "LATIN CAPITAL LETTER W WITH DOT BELOW", aliases: &[] },
        Codepoint { codepoint: 0x1E89, name: "LATIN SMALL LETTER W WITH DOT BELOW", aliases: &[] },
        Codepoint { codepoint: 0x1E8A, name: "LATIN CAPITAL LETTER X WITH DOT ABOVE", aliases: &[] },
        Codepoint { codepoint: 0x1E8B, name: "LATIN SMALL LETTER X WITH DOT ABOVE", aliases: &[] },
        Codepoint { codepoint: 0x1E8C, name: "LATIN CAPITAL LETTER X WITH DIAERESIS", aliases: &[] },
        Codepoint { codepoint: 0x1E8D, name: "LATIN SMALL LETTER X WITH DIAERESIS", aliases: &[] },
        Codepoint { codepoint: 0x1E8E, name: "LATIN CAPITAL LETTER Y WITH DOT ABOVE", aliases: &[] },
        Codepoint { codepoint: 0x1E8F, name: "LATIN SMALL LETTER Y WITH DOT ABOVE", aliases: &[] },
        Codepoint { codepoint: 0x1E90, name: "LATIN CAPITAL LETTER Z WITH CIRCUMFLEX", aliases: &[] },
        Codepoint { codepoint: 0x1E91, name: "LATIN SMALL LETTER Z WITH CIRCUMFLEX", aliases: &[] },
        Codepoint { codepoint: 0x1E92, name: "LATIN CAPITAL LETTER Z WITH DOT BELOW", aliases: &[] },
        Codepoint { codepoint: 0x1E93, name: "LATIN SMALL LETTER Z WITH DOT BELOW", aliases: &[] },
        Codepoint { codepoint: 0x1E94, name: "LATIN CAPITAL LETTER Z WITH LINE BELOW", aliases: &[] },
        Codepoint { codepoint: 0x1E95, name: "LATIN SMALL LETTER Z WITH LINE BELOW", aliases: &[] },
        Codepoint { codepoint: 0x1E96, name: "LATIN SMALL LETTER H WITH LINE BELOW", aliases: &[] },
        Codepoint { codepoint: 0x1E97, name: "LATIN SMALL LETTER T WITH DIAERESIS", aliases: &[] },
        Codepoint { codepoint: 0x1E98, name: "LATIN SMALL LETTER W WITH RING ABOVE", aliases: &[] },
        Codepoint { codepoint: 0x1E99, name: "LATIN SMALL LETTER Y WITH RING ABOVE", aliases: &[] },
        Codepoint { codepoint: 0x1E9A, name: "LATIN SMALL LETTER A WITH RIGHT HALF RING", aliases: &[] },
        Codepoint { codepoint: 0x1E9B, name: "LATIN SMALL LETTER LONG S WITH DOT ABOVE", aliases: &[] },
        Codepoint { codepoint: 0x1E9C, name: "LATIN SMALL LETTER LONG S WITH DIAGONAL STROKE", aliases: &[] },
        Codepoint { codepoint: 0x1E9D, name: "LATIN SMALL LETTER LONG S WITH HIGH STROKE", aliases: &[] },
        Codepoint { codepoint: 0x1E9E, name: "LATIN CAPITAL LETTER SHARP S", aliases: &[] },
        Codepoint { codepoint: 0x1E9F, name: "LATIN SMALL LETTER DELTA", aliases: &[] },
        Codepoint { codepoint: 0x1EA0, name: "LATIN CAPITAL LETTER A WITH DOT BELOW", aliases: &[] },
        Codepoint { codepoint: 0x1EA1, name: "LATIN SMALL LETTER A WITH DOT BELOW", aliases: &[] },
        Codepoint { codepoint: 0x1EA2, name: "LATIN CAPITAL LETTER A WITH HOOK ABOVE", aliases: &[] },
        Codepoint { codepoint: 0x1EA3, name: "LATIN SMALL LETTER A WITH HOOK ABOVE", aliases: &[] },
        Codepoint { codepoint: 0x1EA4, name: "LATIN CAPITAL LETTER A WITH CIRCUMFLEX AND ACUTE", aliases: &[] },
        Codepoint { codepoint: 0x1EA5, name: "LATIN SMALL LETTER A WITH CIRCUMFLEX AND ACUTE", aliases: &[] },
        Codepoint { codepoint: 0x1EA6, name: "LATIN CAPITAL LETTER A WITH CIRCUMFLEX AND GRAVE", aliases: &[] },
        Codepoint { codepoint: 0x1EA7, name: "LATIN SMALL LETTER A WITH CIRCUMFLEX AND GRAVE", aliases: &[] },
        Codepoint { codepoint: 0x1EA8, name: "LATIN CAPITAL LETTER A WITH CIRCUMFLEX AND HOOK ABOVE", aliases: &[] },
        Codepoint { codepoint: 0x1EA9, name: "LATIN SMALL LETTER A WITH CIRCUMFLEX AND HOOK ABOVE", aliases: &[] },
        Codepoint { codepoint: 0x1EAA, name: "LATIN CAPITAL LETTER A WITH CIRCUMFLEX AND TILDE", aliases: &[] },
        Codepoint { codepoint: 0x1EAB, name: "LATIN SMALL LETTER A WITH CIRCUMFLEX AND TILDE", aliases: &[] },
        Codepoint { codepoint: 0x1EAC, name: "LATIN CAPITAL LETTER A WITH CIRCUMFLEX AND DOT BELOW", aliases: &[] },
        Codepoint { codepoint: 0x1EAD, name: "LATIN SMALL LETTER A WITH CIRCUMFLEX AND DOT BELOW", aliases: &[] },
        Codepoint { codepoint: 0x1EAE, name: "LATIN CAPITAL LETTER A WITH BREVE AND ACUTE", aliases: &[] },
        Codepoint { codepoint: 0x1EAF, name: "LATIN SMALL LETTER A WITH BREVE AND ACUTE", aliases: &[] },
    ];
    assert(v@ =~= codepoint_table_175());
    v
}

pub open spec fn codepoint_table_176() -> Seq<Codepoint> {
    seq![
        Codepoint { codepoint: 0x1EB0, name: "LATIN CAPITAL LETTER A WITH BREVE AND GRAVE", aliases: &[] },
        Codepoint { codepoint: 0x1EB1, name: "LATIN SMALL LETTER A WITH BREVE AND GRAVE", aliases: &[] },
        Codepoint { codepoint: 0x1EB2, name: "LATIN CAPITAL LETTER A WITH BREVE AND HOOK ABOVE", aliases: &[] },
        Codepoint { codepoint: 0x1EB3, name: "LATIN SMALL LETTER A WITH BREVE AND HOOK ABOVE", aliases: &[] },
        Codepoint { codepoint: 0x1EB4, name: "LATIN CAPITAL LETTER A WITH BREVE AND TILDE", aliases: &[] },
        Codepoint { codepoint: 0x1EB5, name: "LATIN SMALL LETTER A WITH BREVE AND TILDE", aliases: &[] },
        Codepoint { codepoint: 0x1EB6, name: "LATIN CAPITAL LETTER A WITH BREVE AND DOT BELOW", aliases: &[] },
        Codepoint { codepoint: 0x1EB7, name: "LATIN SMALL LETTER A WITH BREVE AND DOT BELOW", aliases: &[] },
        Codepoint { codepoint: 0x1EB8, name: "LATIN CAPITAL LETTER E WITH DOT BELOW", aliases: &[] },
        Codepoint { codepoint: 0x1EB9, name: "LATIN SMALL LETTER E WITH DOT BELOW", aliases: &[] },
        Codepoint { codepoint: 0x1EBA, name: "LATIN CAPITAL LETTER E WITH HOOK ABOVE", aliases: &[] },
        Codepoint { codepoint: 0x1EBB, name: "LATIN SMALL LETTER E WITH HOOK ABOVE", aliases: &[] },
        Codepoint { codepoint: 0x1EBC, name: "LATIN CAPITAL LETTER E WITH TILDE", aliases: &[] },
        Codepoint { codepoint: 0x1EBD, name: "LATIN SMALL LETTER E WITH TILDE", aliases: &[] },
        Codepoint { codepoint: 0x1EBE, name: "LATIN CAPITAL LETTER E WITH CIRCUMFLEX AND ACUTE", aliases: &[] },
        Codepoint { codepoint: 0x1EBF, name: "LATIN SMALL LETTER E WITH CIRCUMFLEX AND ACUTE", aliases: &[] },
        Codepoint { codepoint: 0x1EC0, name: "LATIN CAPITAL LETTER E WITH CIRCUMFLEX AND GRAVE", aliases: &[] },
        Codepoint { codepoint: 0x1EC1, name: "LATIN SMALL LETTER E WITH CIRCUMFLEX AND GRAVE", aliases: &[] },
        Codepoint { codepoint: 0x1EC2, name: "LATIN CAPITAL LETTER E WITH CIRCUMFLEX AND HOOK ABOVE", aliases: &[] },
        Codepoint { codepoint: 0x1EC3, name: "LATIN SMALL LETTER E WITH CIRCUMFLEX AND HOOK ABOVE", aliases: &[] },
        Codepoint { codepoint: 0x1EC4, name: "LATIN CAPITAL LETTER E WITH CIRCUMFLEX AND TILDE", aliases: &[] },
        Codepoint { codepoint: 0x1EC5, name: "LATIN SMALL LETTER E WITH CIRCUMFLEX AND TILDE", aliases: &[] },
        Codepoint { codepoint: 0x1EC6, name: "LATIN CAPITAL LETTER E WITH CIRCUMFLEX AND DOT BELOW", aliases: &[] },
        Codepoint { codepoint: 0x1EC7, name: "LATIN SMALL LETTER E WITH CIRCUMFLEX AND DOT BELOW", aliases: &[] },
        Codepoint { codepoint: 0x1EC8, name: "LATIN CAPITAL LETTER I WITH HOOK ABOVE", aliases: &[] },
        Codepoint { codepoint: 0x1EC9, name: "LATIN SMALL LETTER I WITH HOOK ABOVE", aliases: &[] },
        Codepoint { codepoint: 0x1ECA, name: "LATIN CAPITAL LETTER I WITH DOT BELOW", aliases: &[] },
        Codepoint { codepoint: 0x1ECB, name: "LATIN SMALL LETTER I WITH DOT BELOW", aliases: &[] },
        Codepoint { codepoint: 0x1ECC, name: "LATIN CAPITAL LETTER O WITH DOT BELOW", aliases: &[] },
        Codepoint { codepoint: 0x1ECD, name: "LATIN SMALL LETTER O WITH DOT BELOW", aliases: &[] },
        Codepoint { codepoint: 0x1ECE, name: "LATIN CAPITAL LETTER O WITH HOOK ABOVE", aliases: &[] },
        Codepoint { codepoint: 0x1ECF, name: "LATIN SMALL LETTER O WITH HOOK ABOVE", aliases: &[] },
        Codepoint { codepoint: 0x1ED0, name: "LATIN CAPITAL LETTER O WITH CIRCUMFLEX AND ACUTE", aliases: &[] },
        Codepoint { codepoint: 0x1ED1, name: "LATIN SMALL LETTER O WITH CIRCUMFLEX AND ACUTE", aliases: &[] },
        Codepoint { codepoint: 0x1ED2, name: "LATIN CAPITAL LETTER O WITH CIRCUMFLEX AND GRAVE", aliases: &[] },
        Codepoint { codepoint: 0x1ED3, name: "LATIN SMALL LETTER O WITH CIRCUMFLEX AND GRAVE", aliases: &[] },
        Codepoint { codepoint: 0x1ED4, name: "LATIN CAPITAL LETTER O WITH CIRCUMFLEX AND HOOK ABOVE", aliases: &[] },
        Codepoint { codepoint: 0x1ED5, name: "LATIN SMALL LETTER O WITH CIRCUMFLEX AND HOOK ABOVE", aliases: &[] },
        Codepoint { codepoint: 0x1ED6, name: "LATIN CAPITAL LETTER O WITH CIRCUMFLEX AND TILDE", aliases: &[] },
        Codepoint { codepoint: 0x1ED7, name: "LATIN SMALL LETTER O WITH CIRCUMFLEX AND TILDE", aliases: &[] },
    ]
}

fn all_codepoints_176() -> (v: Vec<Codepoint>)
    ensures
        v@ == codepoint_table_176(),
{
    let v = vec![
        Codepoint { codepoint: 0x1EB0, name: "LATIN CAPITAL LETTER A WITH BREVE AND GRAVE", aliases: &[] },
        Codepoint { codepoint: 0x1EB1, name: "LATIN SMALL LETTER A WITH BREVE AND GRAVE", aliases: &[] },
        Codepoint { codepoint: 0x1EB2, name: "LATIN CAPITAL LETTER A WITH BREVE AND HOOK ABOVE", aliases: &[] },
        Codepoint { codepoint: 0x1EB3, name: "LATIN SMALL LETTER A WITH BREVE AND HOOK ABOVE", aliases: &[] },
        Codepoint { codepoint: 0x1EB4, name: "LATIN CAPITAL LETTER A WITH BREVE AND TILDE", aliases: &[] },
        Codepoint { codepoint: 0x1EB5, name: "LATIN SMALL LETTER A WITH BREVE AND TILDE", aliases: &[] },
        Codepoint { codepoint: 0x1EB6, name: "LATIN CAPITAL LETTER A WITH BREVE AND DOT BELOW", aliases: &[] },
        Codepoint { codepoint: 0x1EB7, name: "LATIN SMALL LETTER A WITH BREVE AND DOT BELOW", aliases: &[] },
        Codepoint { codepoint: 0x1EB8, name: "LATIN CAPITAL LETTER E WITH DOT BELOW", aliases: &[] },
        Codepoint { codepoint: 0x1EB9, name: "LATIN SMALL LETTER E WITH DOT BELOW", aliases: &[] },
        Codepoint { codepoint: 0x1EBA, name: "LATIN CAPITAL LETTER E WITH HOOK ABOVE", aliases: &[] },
        Codepoint { codepoint: 0x1EBB, name: "LATIN SMALL LETTER E WITH HOOK ABOVE", aliases: &[] },
        Codepoint { codepoint: 0x1EBC, name: "LATIN CAPITAL LETTER E WITH TILDE", aliases: &[] },
        Codepoint { codepoint: 0x1EBD, name: "LATIN SMALL LETTER E WITH TILDE", aliases: &[] },
        Codepoint { codepoint: 0x1EBE, name: "LATIN CAPITAL LETTER E WITH CIRCUMFLEX AND ACUTE", aliases: &[] },
        Codepoint { codepoint: 0x1EBF, name: "LATIN SMALL LETTER E WITH CIRCUMFLEX AND ACUTE", aliases: &[] },
        Codepoint { codepoint: 0x1EC0, name: "LATIN CAPITAL LETTER E WITH CIRCUMFLEX AND GRAVE", aliases: &[] },
        Codepoint { codepoint: 0x1EC1, name: "LATIN SMALL LETTER E WITH CIRCUMFLEX AND GRAVE", aliases: &[] },
        Codepoint { codepoint: 0x1EC2, name: "LATIN CAPITAL LETTER E WITH CIRCUMFLEX AND HOOK ABOVE", aliases: &[] },
        Codepoint { codepoint: 0x1EC3, name: "LATIN SMALL LETTER E WITH CIRCUMFLEX AND HOOK ABOVE", aliases: &[] },
        Codepoint { codepoint: 0x1EC4, name: "LATIN CAPITAL LETTER E WITH CIRCUMFLEX AND TILDE", aliases: &[] },
        Codepoint { codepoint: 0x1EC5, name: "LATIN SMALL LETTER E WITH CIRCUMFLEX AND TILDE", aliases: &[] },
        Codepoint { codepoint: 0x1EC6, name: "LATIN CAPITAL LETTER E WITH CIRCUMFLEX AND DOT BELOW", aliases: &[] },
        Codepoint { codepoint: 0x1EC7, name: "LATIN SMALL LETTER E WITH CIRCUMFLEX AND DOT BELOW", aliases: &[] },
        Codepoint { codepoint: 0x1EC8, name: "LATIN CAPITAL LETTER I WITH HOOK ABOVE", aliases: &[] },
        Codepoint { codepoint: 0x1EC9, name: "LATIN SMALL LETTER I WITH HOOK ABOVE", aliases: &[] },
        Codepoint { codepoint: 0x1ECA, name: "LATIN CAPITAL LETTER I WITH DOT BELOW", aliases: &[] },
        Codepoint { codepoint: 0x1ECB, name: "LATIN SMALL LETTER I WITH DOT BELOW", aliases: &[] },
        Codepoint { codepoint: 0x1ECC, name: "LATIN CAPITAL LETTER O WITH DOT BELOW", aliases: &[] },
        Codepoint { codepoint: 0x1ECD, name: "LATIN SMALL LETTER O WITH DOT BELOW", aliases: &[] },
        Codepoint { codepoint: 0x1ECE, name: "LATIN CAPITAL LETTER O WITH HOOK ABOVE", aliases: &[] },
        Codepoint { codepoint: 0x1ECF, name: "LATIN SMALL LETTER O WITH HOOK ABOVE", aliases: &[] },
        Codepoint { codepoint: 0x1ED0, name: "LATIN CAPITAL LETTER O WITH CIRCUMFLEX AND ACUTE", aliases: &[] },
        Codepoint { codepoint: 0x1ED1, name: "LATIN SMALL LETTER O WITH CIRCUMFLEX AND ACUTE", aliases: &[] },
        Codepoint { codepoint: 0x1ED2, name: "LATIN CAPITAL LETTER O WITH CIRCUMFLEX AND GRAVE", aliases: &[] },
        Codepoint { codepoint: 0x1ED3, name: "LATIN SMALL LETTER O WITH CIRCUMFLEX AND GRAVE", aliases: &[] },
        Codepoint { codepoint: 0x1ED4, name: "LATIN CAPITAL LETTER O WITH CIRCUMFLEX AND HOOK ABOVE", aliases: &[] },
        Codepoint { codepoint: 0x1ED5, name: "LATIN SMALL LETTER O WITH CIRCUMFLEX AND HOOK ABOVE", aliases: &[] },
        Codepoint { codepoint: 0x1ED6, name: "LATIN CAPITAL LETTER O WITH CIRCUMFLEX AND TILDE", aliases: &[] },
        Codepoint { codepoint: 0x1ED7, name: "LATIN SMALL LETTER O WITH CIRCUMFLEX AND TILDE", aliases: &[] },
    ];
    assert(v@ =~= codepoint_table_176());
    v
}

pub open spec fn codepoint_table_177() -> Seq<Codepoint> {
    seq![
        Codepoint { codepoint: 0x1ED8, name: "LATIN CAPITAL LETTER O WITH CIRCUMFLEX AND DOT BELOW", aliases: &[] },
        Codepoint { codepoint: 0x1ED9, name: "LATIN SMALL LETTER O WITH CIRCUMFLEX AND DOT BELOW", aliases: &[] },
        Codepoint { codepoint: 0x1EDA, name: "LATIN CAPITAL LETTER O WITH HORN AND ACUTE", aliases: &[] },
        Codepoint { codepoint: 0x1EDB, name: "LATIN SMALL LETTER O WITH HORN AND ACUTE", aliases: &[] },
        Codepoint { codepoint: 0x1EDC, name: "LATIN CAPITAL LETTER O WITH HORN AND GRAVE", aliases: &[] },
        Codepoint { codepoint: 0x1EDD, name: "LATIN SMALL LETTER O WITH HORN AND GRAVE", aliases: &[] },
        Codepoint { codepoint: 0x1EDE, name: "LATIN CAPITAL LETTER O WITH HORN AND HOOK ABOVE", aliases: &[] },
        Codepoint { codepoint: 0x1EDF, name: "LATIN SMALL LETTER O WITH HORN AND HOOK ABOVE", aliases: &[] },
        Codepoint { codepoint: 0x1EE0, name: "LATIN CAPITAL LETTER O WITH HORN AND TILDE", aliases: &[] },
        Codepoint { codepoint: 0x1EE1, name: "LATIN SMALL LETTER O WITH HORN AND TILDE", aliases: &[] },
        Codepoint { codepoint: 0x1EE2, name: "LATIN CAPITAL LETTER O WITH HORN AND DOT BELOW", aliases: &[] },
        Codepoint { codepoint: 0x1EE3, name: "LATIN SMALL LETTER O WITH HORN AND DOT BELOW", aliases: &[] },
        Codepoint { codepoint: 0x1EE4, name: "LATIN CAPITAL LETTER U WITH DOT BELOW", aliases: &[] },
        Codepoint { codepoint: 0x1EE5, name: "LATIN SMALL LETTER U WITH DOT BELOW", aliases: &[] },
        Codepoint { codepoint: 0x1EE6, name: "LATIN CAPITAL LETTER U WITH HOOK ABOVE", aliases: &[] },
        Codepoint { codepoint: 0x1EE7, name: "LATIN SMALL LETTER U WITH HOOK ABOVE", aliases: &[] },
        Codepoint { codepoint: 0x1EE8, name: "LATIN CAPITAL LETTER U WITH HORN AND ACUTE", aliases: &[] },
        Codepoint { codepoint: 0x1EE9, name: "LATIN SMALL LETTER U WITH HORN AND ACUTE", aliases: &[] },
        Codepoint { codepoint: 0x1EEA, name: "LATIN CAPITAL LETTER U WITH HORN AND GRAVE", aliases: &[] },
        Codepoint { codepoint: 0x1EEB, name: "LATIN SMALL LETTER U WITH HORN AND GRAVE", aliases: &[] },
        Codepoint { codepoint: 0x1EEC, name: "LATIN CAPITAL LETTER U WITH HORN AND HOOK ABOVE", aliases: &[] },
        Codepoint { codepoint: 0x1EED, name: "LATIN SMALL LETTER U WITH HORN AND HOOK ABOVE", aliases: &[] },
        Codepoint { codepoint: 0x1EEE, name: "LATIN CAPITAL LETTER U WITH HORN AND TILDE", aliases: &[] },
        Codepoint { codepoint: 0x1EEF, name: "LATIN SMALL LETTER U WITH HORN AND TILDE", aliases: &[] },
        Codepoint { codepoint: 0x1EF0, name: "LATIN CAPITAL LETTER U WITH HORN AND DOT BELOW", aliases: &[] },
        Codepoint { codepoint: 0x1EF1, name: "LATIN SMALL LETTER U WITH HORN AND DOT BELOW", aliases: &[] },
        Codepoint { codepoint: 0x1EF2, name: "LATIN CAPITAL LETTER Y WITH GRAVE", aliases: &[] },
        Codepoint { codepoint: 0x1EF3, name: "LATIN SMALL LETTER Y WITH GRAVE", aliases: &[] },
        Codepoint { codepoint: 0x1EF4, name: "LATIN CAPITAL LETTER Y WITH DOT BELOW", aliases: &[] },
        Codepoint { codepoint: 0x1EF5, name: "LATIN SMALL LETTER Y WITH DOT BELOW", aliases: &[] },
        Codepoint { codepoint: 0x1EF6, name: "LATIN CAPITAL LETTER Y WITH HOOK ABOVE", aliases: &[] },
        Codepoint { codepoint: 0x1EF7, name: "LATIN SMALL LETTER Y WITH HOOK ABOVE", aliases: &[] },
        Codepoint { codepoint: 0x1EF8, name: "LATIN CAPITAL LETTER Y WITH TILDE", aliases: &[] },
        Codepoint { codepoint: 0x1EF9, name: "LATIN SMALL LETTER Y WITH TILDE", aliases: &[] },
        Codepoint { codepoint: 0x1EFA, name: "LATIN CAPITAL LETTER MIDDLE-WELSH LL", aliases: &[] },
        Codepoint { codepoint: 0x1EFB, name: "LATIN SMALL LETTER MIDDLE-WELSH LL", aliases: &[] },
        Codepoint { codepoint: 0x1EFC, name: "LATIN CAPITAL LETTER MIDDLE-WELSH V", aliases: &[] },
        Codepoint { codepoint: 0x1EFD, name: "LATIN SMALL LETTER MIDDLE-WELSH V", aliases: &[] },
        Codepoint { codepoint: 0x1EFE, name: "LATIN CAPITAL LETTER Y WITH LOOP", aliases: &[] },
        Codepoint { codepoint: 0x1EFF, name: "LATIN SMALL LETTER Y WITH LOOP", aliases: &[] },
    ]
}

fn all_codepoints_177() -> (v: Vec<Codepoint>)
    ensures
        v@ == codepoint_table_177(),
{
    let v = vec![
        Codepoint { codepoint: 0x1ED8, name: "LATIN CAPITAL LETTER O WITH CIRCUMFLEX AND DOT BELOW", aliases: &[] },
        Codepoint { codepoint: 0x1ED9, name: "LATIN SMALL LETTER O WITH CIRCUMFLEX AND DOT BELOW", aliases: &[] },
        Codepoint { codepoint: 0x1EDA, name: "LATIN CAPITAL LETTER O WITH HORN AND ACUTE", aliases: &[] },
        Codepoint { codepoint: 0x1EDB, name: "LATIN SMALL LETTER O WITH HORN AND ACUTE", aliases: &[] },
        Codepoint { codepoint: 0x1EDC, name: "LATIN CAPITAL LETTER O WITH HORN AND GRAVE", aliases: &[] },
        Codepoint { codepoint: 0x1EDD, name: "LATIN SMALL LETTER O WITH HORN AND GRAVE", aliases: &[] },
        Codepoint { codepoint: 0x1EDE, name: "LATIN CAPITAL LETTER O WITH HORN AND HOOK ABOVE", aliases: &[] },
        Codepoint { codepoint: 0x1EDF, name: "LATIN SMALL LETTER O WITH HORN AND HOOK ABOVE", aliases: &[] },
        Codepoint { codepoint: 0x1EE0, name: "LATIN CAPITAL LETTER O WITH HORN AND TILDE", aliases: &[] },
        Codepoint { codepoint: 0x1EE1, name: "LATIN SMALL LETTER O WITH HORN AND TILDE", aliases: &[] },
        Codepoint { codepoint: 0x1EE2, name: "LATIN CAPITAL LETTER O WITH HORN AND DOT BELOW", aliases: &[] },
        Codepoint { codepoint: 0x1EE3, name: "LATIN SMALL LETTER O WITH HORN AND DOT BELOW", aliases: &[] },
        Codepoint { codepoint: 0x1EE4, name: "LATIN CAPITAL LETTER U WITH DOT BELOW", aliases: &[] },
        Codepoint { codepoint: 0x1EE5, name: "LATIN SMALL LETTER U WITH DOT BELOW", aliases: &[] },
        Codepoint { codepoint: 0x1EE6, name: "LATIN CAPITAL LETTER U WITH HOOK ABOVE", aliases: &[] },
        Codepoint { codepoint: 0x1EE7, name: "LATIN SMALL LETTER U WITH HOOK ABOVE", aliases: &[] },
        Codepoint { codepoint: 0x1EE8, name: "LATIN CAPITAL LETTER U WITH HORN AND ACUTE", aliases: &[] },
        Codepoint { codepoint: 0x1EE9, name: "LATIN SMALL LETTER U WITH HORN AND ACUTE", aliases: &[] },
        Codepoint { codepoint: 0x1EEA, name: "LATIN CAPITAL LETTER U WITH HORN AND GRAVE", aliases: &[] },
        Codepoint { codepoint: 0x1EEB, name: "LATIN SMALL LETTER U WITH HORN AND GRAVE", aliases: &[] },
        Codepoint { codepoint: 0x1EEC, name: "LATIN CAPITAL LETTER U WITH HORN AND HOOK ABOVE", aliases: &[] },
        Codepoint { codepoint: 0x1EED, name: "LATIN SMALL LETTER U WITH HORN AND HOOK ABOVE", aliases: &[] },
        Codepoint { codepoint: 0x1EEE, name: "LATIN CAPITAL LETTER U WITH HORN AND TILDE", aliases: &[] },
        Codepoint { codepoint: 0x1EEF, name: "LATIN SMALL LETTER U WITH HORN AND TILDE", aliases: &[] },
        Codepoint { codepoint: 0x1EF0, name: "LATIN CAPITAL LETTER U WITH HORN AND DOT BELOW", aliases: &[] },
        Codepoint { codepoint: 0x1EF1, name: "LATIN SMALL LETTER U WITH HORN AND DOT BELOW", aliases: &[] },
        Codepoint { codepoint: 0x1EF2, name: "LATIN CAPITAL LETTER Y WITH GRAVE", aliases: &[] },
        Codepoint { codepoint: 0x1EF3, name: "LATIN SMALL LETTER Y WITH GRAVE", aliases: &[] },
        Codepoint { codepoint: 0x1EF4, name: "LATIN CAPITAL LETTER Y WITH DOT BELOW", aliases: &[] },
        Codepoint { codepoint: 0x1EF5, name: "LATIN SMALL LETTER Y WITH DOT BELOW", aliases: &[] },
        Codepoint { codepoint: 0x1EF6, name: "LATIN CAPITAL LETTER Y WITH HOOK ABOVE", aliases: &[] },
        Codepoint { codepoint: 0x1EF7, name: "LATIN SMALL LETTER Y WITH HOOK ABOVE", aliases: &[] },
        Codepoint { codepoint: 0x1EF8, name: "LATIN CAPITAL LETTER Y WITH TILDE", aliases: &[] },
        Codepoint { codepoint: 0x1EF9, name: "LATIN SMALL LETTER Y WITH TILDE", aliases: &[] },
        Codepoint { codepoint: 0x1EFA, name: "LATIN CAPITAL LETTER MIDDLE-WELSH LL", aliases: &[] },
        Codepoint { codepoint: 0x1EFB, name: "LATIN SMALL LETTER MIDDLE-WELSH LL", aliases: &[] },
        Codepoint { codepoint: 0x1EFC, name: "LATIN CAPITAL LETTER MIDDLE-WELSH V", aliases: &[] },
        Codepoint { codepoint: 0x1EFD, name: "LATIN SMALL LETTER MIDDLE-WELSH V", aliases: &[] },
        Codepoint { codepoint: 0x1EFE, name: "LATIN CAPITAL LETTER Y WITH LOOP", aliases: &[] },
        Codepoint { codepoint: 0x1EFF, name: "LATIN SMALL LETTER Y WITH LOOP", aliases: &[] },
    ];
    assert(v@ =~= codepoint_table_177());
    v
}

pub open spec fn codepoint_table_178() -> Seq<Codepoint> {
    seq![
        Codepoint { codepoint: 0x1F00, name: "GREEK SMALL LETTER ALPHA WITH PSILI", aliases: &[] },
        Codepoint { codepoint: 0x1F01, name: "GREEK SMALL LETTER ALPHA WITH DASIA", aliases: &[] },
        Codepoint { codepoint: 0x1F02, name: "GREEK SMALL LETTER ALPHA WITH PSILI AND VARIA", aliases: &[] },
        Codepoint { codepoint: 0x1F03, name: "GREEK SMALL LETTER ALPHA WITH DASIA AND VARIA", aliases: &[] },
        Codepoint { codepoint: 0x1F04, name: "GREEK SMALL LETTER ALPHA WITH PSILI AND OXIA", aliases: &[] },
        Codepoint { codepoint: 0x1F05, name: "GREEK SMALL LETTER ALPHA WITH DASIA AND OXIA", aliases: &[] },
        Codepoint { codepoint: 0x1F06, name: "GREEK SMALL LETTER ALPHA WITH PSILI AND PERISPOMENI", aliases: &[] },
        Codepoint { codepoint: 0x1F07, name: "GREEK SMALL LETTER ALPHA WITH DASIA AND PERISPOMENI", aliases: &[] },
        Codepoint { codepoint: 0x1F08, name: "GREEK CAPITAL LETTER ALPHA WITH PSILI", aliases: &[] },
        Codepoint { codepoint: 0x1F09, name: "GREEK CAPITAL LETTER ALPHA WITH DASIA", aliases: &[] },
        Codepoint { codepoint: 0x1F0A, name: "GREEK CAPITAL LETTER ALPHA WITH PSILI AND VARIA", aliases: &[] },
        Codepoint { codepoint: 0x1F0B, name: "GREEK CAPITAL LETTER ALPHA WITH DASIA AND VARIA", aliases: &[] },
        Codepoint { codepoint: 0x1F0C, name: "GREEK CAPITAL LETTER ALPHA WITH PSILI AND OXIA", aliases: &[] },
        Codepoint { codepoint: 0x1F0D, name: "GREEK CAPITAL LETTER ALPHA WITH DASIA AND OXIA", aliases: &[] },
        Codepoint { codepoint: 0x1F0E, name: "GREEK CAPITAL LETTER ALPHA WITH PSILI AND PERISPOMENI", aliases: &[] },
        Codepoint { codepoint: 0x1F0F, name: "GREEK CAPITAL LETTER ALPHA WITH DASIA AND PERISPOMENI", aliases: &[] },
        Codepoint { codepoint: 0x1F10, name: "GREEK SMALL LETTER EPSILON WITH PSILI", aliases: &[] },
        Codepoint { codepoint: 0x1F11, name: "GREEK SMALL LETTER EPSILON WITH DASIA", aliases: &[] },
        Codepoint { codepoint: 0x1F12, name: "GREEK SMALL LETTER EPSILON WITH PSILI AND VARIA", aliases: &[] },
        Codepoint { codepoint: 0x1F13, name: "GREEK SMALL LETTER EPSILON WITH DASIA AND VARIA", aliases: &[] },
        Codepoint { codepoint: 0x1F14, name: "GREEK SMALL LETTER EPSILON WITH PSILI AND OXIA", aliases: &[] },
        Codepoint { codepoint: 0x1F15, name: "GREEK SMALL LETTER EPSILON WITH DASIA AND OXIA", aliases: &[] },
        Codepoint { codepoint: 0x1F18, name: "GREEK CAPITAL LETTER EPSILON WITH PSILI", aliases: &[] },
        Codepoint { codepoint: 0x1F19, name: "GREEK CAPITAL LETTER EPSILON WITH DASIA", aliases: &[] },
        Codepoint { codepoint: 0x1F1A, name: "GREEK CAPITAL LETTER EPSILON WITH PSILI AND VARIA", aliases: &[] },
        Codepoint { codepoint: 0x1F1B, name: "GREEK CAPITAL LETTER EPSILON WITH DASIA AND VARIA", aliases: &[] },
        Codepoint { codepoint: 0x1F1C, name: "GREEK CAPITAL LETTER EPSILON WITH PSILI AND OXIA", aliases: &[] },
        Codepoint { codepoint: 0x1F1D, name: "GREEK CAPITAL LETTER EPSILON WITH DASIA AND OXIA", aliases: &[] },
        Codepoint { codepoint: 0x1F20, name: "GREEK SMALL LETTER ETA WITH PSILI", aliases: &[] },
        Codepoint { codepoint: 0x1F21, name: "GREEK SMALL LETTER ETA WITH DASIA", aliases: &[] },
        Codepoint { codepoint: 0x1F22, name: "GREEK SMALL LETTER ETA WITH PSILI AND VARIA", aliases: &[] },
        Codepoint { codepoint: 0x1F23, name: "GREEK SMALL LETTER ETA WITH DASIA AND VARIA", aliases: &[] },
        Codepoint { codepoint: 0x1F24, name: "GREEK SMALL LETTER ETA WITH PSILI AND OXIA", aliases: &[] },
        Codepoint { codepoint: 0x1F25, name: "GREEK SMALL LETTER ETA WITH DASIA AND OXIA", aliases: &[] },
        Codepoint { codepoint: 0x1F26, name: "GREEK SMALL LETTER ETA WITH PSILI AND PERISPOMENI", aliases: &[] },
        Codepoint { codepoint: 0x1F27, name: "GREEK SMALL LETTER ETA WITH DASIA AND PERISPOMENI", aliases: &[] },
        Codepoint { codepoint: 0x1F28, name: "GREEK CAPITAL LETTER ETA WITH PSILI", aliases: &[] },
        Codepoint { codepoint: 0x1F29, name: "GREEK CAPITAL LETTER ETA WITH DASIA", aliases: &[] },
        Codepoint { codepoint: 0x1F2A, name: "GREEK CAPITAL LETTER ETA WITH PSILI AND VARIA", aliases: &[] },
        Codepoint { codepoint: 0x1F2B, name: "GREEK CAPITAL LETTER ETA WITH DASIA AND VARIA", aliases: &[] },
    ]
}

fn all_codepoints_178() -> (v: Vec<Codepoint>)
    ensures
        v@ == codepoint_table_178(),
{
    let v = vec![
        Codepoint { codepoint: 0x1F00, name: "GREEK SMALL LETTER ALPHA WITH PSILI", aliases: &[] },
        Codepoint { codepoint: 0x1F01, name: "GREEK SMALL LETTER ALPHA WITH DASIA", aliases: &[] },
        Codepoint { codepoint: 0x1F02, name: "GREEK SMALL LETTER ALPHA WITH PSILI AND VARIA", aliases: &[] },
        Codepoint { codepoint: 0x1F03, name: "GREEK SMALL LETTER ALPHA WITH DASIA AND VARIA", aliases: &[] },
        Codepoint { codepoint: 0x1F04, name: "GREEK SMALL LETTER ALPHA WITH PSILI AND OXIA", aliases: &[] },
        Codepoint { codepoint: 0x1F05, name: "GREEK SMALL LETTER ALPHA WITH DASIA AND OXIA", aliases: &[] },
        Codepoint { codepoint: 0x1F06, name: "GREEK SMALL LETTER ALPHA WITH PSILI AND PERISPOMENI", aliases: &[] },
        Codepoint { codepoint: 0x1F07, name: "GREEK SMALL LETTER ALPHA WITH DASIA AND PERISPOMENI", aliases: &[] },
        Codepoint { codepoint: 0x1F08, name: "GREEK CAPITAL LETTER ALPHA WITH PSILI", aliases: &[] },
        Codepoint { codepoint: 0x1F09, name: "GREEK CAPITAL LETTER ALPHA WITH DASIA", aliases: &[] },
        Codepoint { codepoint: 0x1F0A, name: "GREEK CAPITAL LETTER ALPHA WITH PSILI AND VARIA", aliases: &[] },
        Codepoint { codepoint: 0x1F0B, name: "GREEK CAPITAL LETTER ALPHA WITH DASIA AND VARIA", aliases: &[] },
        Codepoint { codepoint: 0x1F0C, name: "GREEK CAPITAL LETTER ALPHA WITH PSILI AND OXIA", aliases: &[] },
        Codepoint { codepoint: 0x1F0D, name: "GREEK CAPITAL LETTER ALPHA WITH DASIA AND OXIA", aliases: &[] },
        Codepoint { codepoint: 0x1F0E, name: "GREEK CAPITAL LETTER ALPHA WITH PSILI AND PERISPOMENI", aliases: &[] },
        Codepoint { codepoint: 0x1F0F, name: "GREEK CAPITAL LETTER ALPHA WITH DASIA AND PERISPOMENI", aliases: &[] },
        Codepoint { codepoint: 0x1F10, name: "GREEK SMALL LETTER EPSILON WITH PSILI", aliases: &[] },
        Codepoint { codepoint: 0x1F11, name: "GREEK SMALL LETTER EPSILON WITH DASIA", aliases: &[] },
        Codepoint { codepoint: 0x1F12, name: "GREEK SMALL LETTER EPSILON WITH PSILI AND VARIA", aliases: &[] },
        Codepoint { codepoint: 0x1F13, name: "GREEK SMALL LETTER EPSILON WITH DASIA AND VARIA", aliases: &[] },
        Codepoint { codepoint: 0x1F14, name: "GREEK SMALL LETTER EPSILON WITH PSILI AND OXIA", aliases: &[] },
        Codepoint { codepoint: 0x1F15, name: "GREEK SMALL LETTER EPSILON WITH DASIA AND OXIA", aliases: &[] },
        Codepoint { codepoint: 0x1F18, name: "GREEK CAPITAL LETTER EPSILON WITH PSILI", aliases: &[] },
        Codepoint { codepoint: 0x1F19, name: "GREEK CAPITAL LETTER EPSILON WITH DASIA", aliases: &[] },
        Codepoint { codepoint: 0x1F1A, name: "GREEK CAPITAL LETTER EPSILON WITH PSILI AND VARIA", aliases: &[] },
        Codepoint { codepoint: 0x1F1B, name: "GREEK CAPITAL LETTER EPSILON WITH DASIA AND VARIA", aliases: &[] },
        Codepoint { codepoint: 0x1F1C, name: "GREEK CAPITAL LETTER EPSILON WITH PSILI AND OXIA", aliases: &[] },
        Codepoint { codepoint: 0x1F1D, name: "GREEK CAPITAL LETTER EPSILON WITH DASIA AND OXIA", aliases: &[] },
        Codepoint { codepoint: 0x1F20, name: "GREEK SMALL LETTER ETA WITH PSILI", aliases: &[] },
        Codepoint { codepoint: 0x1F21, name: "GREEK SMALL LETTER ETA WITH DASIA", aliases: &[] },
        Codepoint { codepoint: 0x1F22, name: "GREEK SMALL LETTER ETA WITH PSILI AND VARIA", aliases: &[] },
        Codepoint { codepoint: 0x1F23, name: "GREEK SMALL LETTER ETA WITH DASIA AND VARIA", aliases: &[] },
        Codepoint { codepoint: 0x1F24, name: "GREEK SMALL LETTER ETA WITH PSILI AND OXIA", aliases: &[] },
        Codepoint { codepoint: 0x1F25, name: "GREEK SMALL LETTER ETA WITH DASIA AND OXIA", aliases: &[] },
        Codepoint { codepoint: 0x1F26, name: "GREEK SMALL LETTER ETA WITH PSILI AND PERISPOMENI", aliases: &[] },
        Codepoint { codepoint: 0x1F27, name: "GREEK SMALL LETTER ETA WITH DASIA AND PERISPOMENI", aliases: &[] },
        Codepoint { codepoint: 0x1F28, name: "GREEK CAPITAL LETTER ETA WITH PSILI", aliases: &[] },
        Codepoint { codepoint: 0x1F29, name: "GREEK CAPITAL LETTER ETA WITH DASIA", aliases: &[] },
        Codepoint { codepoint: 0x1F2A, name: "GREEK CAPITAL LETTER ETA WITH PSILI AND VARIA", aliases: &[] },
        Codepoint { codepoint: 0x1F2B, name: "GREEK CAPITAL LETTER ETA WITH DASIA AND VARIA", aliases: &[] },
    ];
    assert(v@ =~= codepoint_table_178());
    v
}

pub open spec fn codepoint_table_179() -> Seq<Codepoint> {
    seq![
        Codepoint { codepoint: 0x1F2C, name: "GREEK CAPITAL LETTER ETA WITH PSILI AND OXIA", aliases: &[] },
        Codepoint { codepoint: 0x1F2D, name: "GREEK CAPITAL LETTER ETA WITH DASIA AND OXIA", aliases: &[] },
        Codepoint { codepoint: 0x1F2E, name: "GREEK CAPITAL LETTER ETA WITH PSILI AND PERISPOMENI", aliases: &[] },
        Codepoint { codepoint: 0x1F2F, name: "GREEK CAPITAL LETTER ETA WITH DASIA AND PERISPOMENI", aliases: &[] },
        Codepoint { codepoint: 0x1F30, name: "GREEK SMALL LETTER IOTA WITH PSILI", aliases: &[] },
        Codepoint { codepoint: 0x1F31, name: "GREEK SMALL LETTER IOTA WITH DASIA", aliases: &[] },
        Codepoint { codepoint: 0x1F32, name: "GREEK SMALL LETTER IOTA WITH PSILI AND VARIA", aliases: &[] },
        Codepoint { codepoint: 0x1F33, name: "GREEK SMALL LETTER IOTA WITH DASIA AND VARIA", aliases: &[] },
        Codepoint { codepoint: 0x1F34, name: "GREEK SMALL LETTER IOTA WITH PSILI AND OXIA", aliases: &[] },
        Codepoint { codepoint: 0x1F35, name: "GREEK SMALL LETTER IOTA WITH DASIA AND OXIA", aliases: &[] },
        Codepoint { codepoint: 0x1F36, name: "GREEK SMALL LETTER IOTA WITH PSILI AND PERISPOMENI", aliases: &[] },
        Codepoint { codepoint: 0x1F37, name: "GREEK SMALL LETTER IOTA WITH DASIA AND PERISPOMENI", aliases: &[] },
        Codepoint { codepoint: 0x1F38, name: "GREEK CAPITAL LETTER IOTA WITH PSILI", aliases: &[] },
        Codepoint { codepoint: 0x1F39, name: "GREEK CAPITAL LETTER IOTA WITH DASIA", aliases: &[] },
        Codepoint { codepoint: 0x1F3A, name: "GREEK CAPITAL LETTER IOTA WITH PSILI AND VARIA", aliases: &[] },
        Codepoint { codepoint: 0x1F3B, name: "GREEK CAPITAL LETTER IOTA WITH DASIA AND VARIA", aliases: &[] },
        Codepoint { codepoint: 0x1F3C, name: "GREEK CAPITAL LETTER IOTA WITH PSILI AND OXIA", aliases: &[] },
        Codepoint { codepoint: 0x1F3D, name: "GREEK CAPITAL LETTER IOTA WITH DASIA AND OXIA", aliases: &[] },
        Codepoint { codepoint: 0x1F3E, name: "GREEK CAPITAL LETTER IOTA WITH PSILI AND PERISPOMENI", aliases: &[] },
        Codepoint { codepoint: 0x1F3F, name: "GREEK CAPITAL LETTER IOTA WITH DASIA AND PERISPOMENI", aliases: &[] },
        Codepoint { codepoint: 0x1F40, name: "GREEK SMALL LETTER OMICRON WITH PSILI", aliases: &[] },
        Codepoint { codepoint: 0x1F41, name: "GREEK SMALL LETTER OMICRON WITH DASIA", aliases: &[] },
        Codepoint { codepoint: 0x1F42, name: "GREEK SMALL LETTER OMICRON WITH PSILI AND VARIA", aliases: &[] },
        Codepoint { codepoint: 0x1F43, name: "GREEK SMALL LETTER OMICRON WITH DASIA AND VARIA", aliases: &[] },
        Codepoint { codepoint: 0x1F44, name: "GREEK SMALL LETTER OMICRON WITH PSILI AND OXIA", aliases: &[] },
        Codepoint { codepoint: 0x1F45, name: "GREEK SMALL LETTER OMICRON WITH DASIA AND OXIA", aliases: &[] },
        Codepoint { codepoint: 0x1F48, name: "GREEK CAPITAL LETTER OMICRON WITH PSILI", aliases: &[] },
        Codepoint { codepoint: 0x1F49, name: "GREEK CAPITAL LETTER OMICRON WITH DASIA", aliases: &[] },
        Codepoint { codepoint: 0x1F4A, name: "GREEK CAPITAL LETTER OMICRON WITH PSILI AND VARIA", aliases: &[] },
        Codepoint { codepoint: 0x1F4B, name: "GREEK CAPITAL LETTER OMICRON WITH DASIA AND VARIA", aliases: &[] },
        Codepoint { codepoint: 0x1F4C, name: "GREEK CAPITAL LETTER OMICRON WITH PSILI AND OXIA", aliases: &[] },
        Codepoint { codepoint: 0x1F4D, name: "GREEK CAPITAL LETTER OMICRON WITH DASIA AND OXIA", aliases: &[] },
        Codepoint { codepoint: 0x1F50, name: "GREEK SMALL LETTER UPSILON WITH PSILI", aliases: &[] },
        Codepoint { codepoint: 0x1F51, name: "GREEK SMALL LETTER UPSILON WITH DASIA", aliases: &[] },
        Codepoint { codepoint: 0x1F52, name: "GREEK SMALL LETTER UPSILON WITH PSILI AND VARIA", aliases: &[] },
        Codepoint { codepoint: 0x1F53, name: "GREEK SMALL LETTER UPSILON WITH DASIA AND VARIA", aliases: &[] },
        Codepoint { codepoint: 0x1F54, name: "GREEK SMALL LETTER UPSILON WITH PSILI AND OXIA", aliases: &[] },
        Codepoint { codepoint: 0x1F55, name: "GREEK SMALL LETTER UPSILON WITH DASIA AND OXIA", aliases: &[] },
        Codepoint { codepoint: 0x1F56, name: "GREEK SMALL LETTER UPSILON WITH PSILI AND PERISPOMENI", aliases: &[] },
        Codepoint { codepoint: 0x1F57, name: "GREEK SMALL LETTER UPSILON WITH DASIA AND PERISPOMENI", aliases: &[] },
    ]
}

fn all_codepoints_179() -> (v: Vec<Codepoint>)
    ensures
        v@ == codepoint_table_179(),
{
    let v = vec![
        Codepoint { codepoint: 0x1F2C, name: "GREEK CAPITAL LETTER ETA WITH PSILI AND OXIA", aliases: &[] },
        Codepoint { codepoint: 0x1F2D, name: "GREEK CAPITAL LETTER ETA WITH DASIA AND OXIA", aliases: &[] },
        Codepoint { codepoint: 0x1F2E, name: "GREEK CAPITAL LETTER ETA WITH PSILI AND PERISPOMENI", aliases: &[] },
        Codepoint { codepoint: 0x1F2F, name: "GREEK CAPITAL LETTER ETA WITH DASIA AND PERISPOMENI", aliases: &[] },
        Codepoint { codepoint: 0x1F30, name: "GREEK SMALL LETTER IOTA WITH PSILI", aliases: &[] },
        Codepoint { codepoint: 0x1F31, name: "GREEK SMALL LETTER IOTA WITH DASIA", aliases: &[] },
        Codepoint { codepoint: 0x1F32, name: "GREEK SMALL LETTER IOTA WITH PSILI AND VARIA", aliases: &[] },
        Codepoint { codepoint: 0x1F33, name: "GREEK SMALL LETTER IOTA WITH DASIA AND VARIA", aliases: &[] },
        Codepoint { codepoint: 0x1F34, name: "GREEK SMALL LETTER IOTA WITH PSILI AND OXIA", aliases: &[] },
        Codepoint { codepoint: 0x1F35, name: "GREEK SMALL LETTER IOTA WITH DASIA AND OXIA", aliases: &[] },
        Codepoint { codepoint: 0x1F36, name: "GREEK SMALL LETTER IOTA WITH PSILI AND PERISPOMENI", aliases: &[] },
        Codepoint { codepoint: 0x1F37, name: "GREEK SMALL LETTER IOTA WITH DASIA AND PERISPOMENI", aliases: &[] },
        Codepoint { codepoint: 0x1F38, name: "GREEK CAPITAL LETTER IOTA WITH PSILI", aliases: &[] },
        Codepoint { codepoint: 0x1F39, name: "GREEK CAPITAL LETTER IOTA WITH DASIA", aliases: &[] },
        Codepoint { codepoint: 0x1F3A, name: "GREEK CAPITAL LETTER IOTA WITH PSILI AND VARIA", aliases: &[] },
        Codepoint { codepoint: 0x1F3B, name: "GREEK CAPITAL LETTER IOTA WITH DASIA AND VARIA", aliases: &[] },
        Codepoint { codepoint: 0x1F3C, name: "GREEK CAPITAL LETTER IOTA WITH PSILI AND OXIA", aliases: &[] },
        Codepoint { codepoint: 0x1F3D, name: "GREEK CAPITAL LETTER IOTA WITH DASIA AND OXIA", aliases: &[] },
        Codepoint { codepoint: 0x1F3E, name: "GREEK CAPITAL LETTER IOTA WITH PSILI AND PERISPOMENI", aliases: &[] },
        Codepoint { codepoint: 0x1F3F, name: "GREEK CAPITAL LETTER IOTA WITH DASIA AND PERISPOMENI", aliases: &[] },
        Codepoint { codepoint: 0x1F40, name: "GREEK SMALL LETTER OMICRON WITH PSILI", aliases: &[] },
        Codepoint { codepoint: 0x1F41, name: "GREEK SMALL LETTER OMICRON WITH DASIA", aliases: &[] },
        Codepoint { codepoint: 0x1F42, name: "GREEK SMALL LETTER OMICRON WITH PSILI AND VARIA", aliases: &[] },
        Codepoint { codepoint: 0x1F43, name: "GREEK SMALL LETTER OMICRON WITH DASIA AND VARIA", aliases: &[] },
        Codepoint { codepoint: 0x1F44, name: "GREEK SMALL LETTER OMICRON WITH PSILI AND OXIA", aliases: &[] },
        Codepoint { codepoint: 0x1F45, name: "GREEK SMALL LETTER OMICRON WITH DASIA AND OXIA", aliases: &[] },
        Codepoint { codepoint: 0x1F48, name: "GREEK CAPITAL LETTER OMICRON WITH PSILI", aliases: &[] },
        Codepoint { codepoint: 0x1F49, name: "GREEK CAPITAL LETTER OMICRON WITH DASIA", aliases: &[] },
        Codepoint { codepoint: 0x1F4A, name: "GREEK CAPITAL LETTER OMICRON WITH PSILI AND VARIA", aliases: &[] },
        Codepoint { codepoint: 0x1F4B, name: "GREEK CAPITAL LETTER OMICRON WITH DASIA AND VARIA", aliases: &[] },
        Codepoint { codepoint: 0x1F4C, name: "GREEK CAPITAL LETTER OMICRON WITH PSILI AND OXIA", aliases: &[] },
        Codepoint { codepoint: 0x1F4D, name: "GREEK CAPITAL LETTER OMICRON WITH DASIA AND OXIA", aliases: &[] },
        Codepoint { codepoint: 0x1F50, name: "GREEK SMALL LETTER UPSILON WITH PSILI", aliases: &[] },
        Codepoint { codepoint: 0x1F51, name: "GREEK SMALL LETTER UPSILON WITH DASIA", aliases: &[] },
        Codepoint { codepoint: 0x1F52, name: "GREEK SMALL LETTER UPSILON WITH PSILI AND VARIA", aliases: &[] },
        Codepoint { codepoint: 0x1F53, name: "GREEK SMALL LETTER UPSILON WITH DASIA AND VARIA", aliases: &[] },
        Codepoint { codepoint: 0x1F54, name: "GREEK SMALL LETTER UPSILON WITH PSILI AND OXIA", aliases: &[] },
        Codepoint { codepoint: 0x1F55, name: "GREEK SMALL LETTER UPSILON WITH DASIA AND OXIA", aliases: &[] },
        Codepoint { codepoint: 0x1F56, name: "GREEK SMALL LETTER UPSILON WITH PSILI AND PERISPOMENI", aliases: &[] },
        Codepoint { codepoint: 0x1F57, name: "GREEK SMALL LETTER UPSILON WITH DASIA AND PERISPOMENI", aliases: &[] },
    ];
    assert(v@ =~= codepoint_table_179());
    v
}

/// The entries from position 6400 of the table, 800 at most.
pub open spec fn codepoint_group_8() -> Seq<Codepoint> {
    codepoint_table_160() + codepoint_table_161() + codepoint_table_162() + codepoint_table_163() + codepoint_table_164() + codepoint_table_165() + codepoint_table_166() + codepoint_table_167() + codepoint_table_168() + codepoint_table_169() + codepoint_table_170() + codepoint_table_171() + codepoint_table_172() + codepoint_table_173() + codepoint_table_174() + codepoint_table_175() + codepoint_table_176() + codepoint_table_177() + codepoint_table_178() + codepoint_table_179()
}

pub fn all_codepoints_group_8() -> (v: Vec<Codepoint>)
    ensures
        v@ == codepoint_group_8(),
{
    let mut v = all_codepoints_160();
    let mut part = all_codepoints_161();
    v.append(&mut part);
    let mut part = all_codepoints_162();
    v.append(&mut part);
    let mut part = all_codepoints_163();
    v.append(&mut part);
    let mut part = all_codepoints_164();
    v.append(&mut part);
    let mut part = all_codepoints_165();
    v.append(&mut part);
    let mut part = all_codepoints_166();
    v.append(&mut part);
    let mut part = all_codepoints_167();
    v.append(&mut part);
    let mut part = all_codepoints_168();
    v.append(&mut part);
    let mut part = all_codepoints_169();
    v.append(&mut part);
    let mut part = all_codepoints_170();
    v.append(&mut part);
    let mut part = all_codepoints_171();
    v.append(&mut part);
    let mut part = all_codepoints_172();
    v.append(&mut part);
    let mut part = all_codepoints_173();
    v.append(&mut part);
    let mut part = all_codepoints_174();
    v.append(&mut part);
    let mut part = all_codepoints_175();
    v.append(&mut part);
    let mut part = all_codepoints_176();
    v.append(&mut part);
    let mut part = all_codepoints_177();
    v.append(&mut part);
    let mut part = all_codepoints_178();
    v.append(&mut part);
    let mut part = all_codepoints_179();
    v.append(&mut part);
    v
}

pub open spec fn codepoint_table_180() -> Seq<Codepoint> {
    seq![
        Codepoint { codepoint: 0x1F59, name: "GREEK CAPITAL LETTER UPSILON WITH DASIA", aliases: &[] },
        Codepoint { codepoint: 0x1F5B, name: "GREEK CAPITAL LETTER UPSILON WITH DASIA AND VARIA", aliases: &[] },
        Codepoint { codepoint: 0x1F5D, name: "GREEK CAPITAL LETTER UPSILON WITH DASIA AND OXIA", aliases: &[] },
        Codepoint { codepoint: 0x1F5F, name: "GREEK CAPITAL LETTER UPSILON WITH DASIA AND PERISPOMENI", aliases: &[] },
        Codepoint { codepoint: 0x1F60, name: "GREEK SMALL LETTER OMEGA WITH PSILI", aliases: &[] },
        Codepoint { codepoint: 0x1F61, name: "GREEK SMALL LETTER OMEGA WITH DASIA", aliases: &[] },
        Codepoint { codepoint: 0x1F62, name: "GREEK SMALL LETTER OMEGA WITH PSILI AND VARIA", aliases: &[] },
        Codepoint { codepoint: 0x1F63, name: "GREEK SMALL LETTER OMEGA WITH DASIA AND VARIA", aliases: &[] },
        Codepoint { codepoint: 0x1F64, name: "GREEK SMALL LETTER OMEGA WITH PSILI AND OXIA", aliases: &[] },
        Codepoint { codepoint: 0x1F65, name: "GREEK SMALL LETTER OMEGA WITH DASIA AND OXIA", aliases: &[] },
        Codepoint { codepoint: 0x1F66, name: "GREEK SMALL LETTER OMEGA WITH PSILI AND PERISPOMENI", aliases: &[] },
        Codepoint { codepoint: 0x1F67, name: "GREEK SMALL LETTER OMEGA WITH DASIA AND PERISPOMENI", aliases: &[] },
        Codepoint { codepoint: 0x1F68, name: "GREEK CAPITAL LETTER OMEGA WITH PSILI", aliases: &[] },
        Codepoint { codepoint: 0x1F69, name: "GREEK CAPITAL LETTER OMEGA WITH DASIA", aliases: &[] },
        Codepoint { codepoint: 0x1F6A, name: "GREEK CAPITAL LETTER OMEGA WITH PSILI AND VARIA", aliases: &[] },
        Codepoint { codepoint: 0x1F6B, name: "GREEK CAPITAL LETTER OMEGA WITH DASIA AND VARIA", aliases: &[] },
        Codepoint { codepoint: 0x1F6C, name: "GREEK CAPITAL LETTER OMEGA WITH PSILI AND OXIA", aliases: &[] },
        Codepoint { codepoint: 0x1F6D, name: "GREEK CAPITAL LETTER OMEGA WITH DASIA AND OXIA", aliases: &[] },
        Codepoint { codepoint: 0x1F6E, name: "GREEK CAPITAL LETTER OMEGA WITH PSILI AND PERISPOMENI", aliases: &[] },
        Codepoint { codepoint: 0x1F6F, name: "GREEK CAPITAL LETTER OMEGA WITH DASIA AND PERISPOMENI", aliases: &[] },
        Codepoint { codepoint: 0x1F70, name: "GREEK SMALL LETTER ALPHA WITH VARIA", aliases: &[] },
        Codepoint { codepoint: 0x1F71, name: "GREEK SMALL LETTER ALPHA WITH OXIA", aliases: &[] },
        Codepoint { codepoint: 0x1F72, name: "GREEK SMALL LETTER EPSILON WITH VARIA", aliases: &[] },
        Codepoint { codepoint: 0x1F73, name: "GREEK SMALL LETTER EPSILON WITH OXIA", aliases: &[] },
        Codepoint { codepoint: 0x1F74, name: "GREEK SMALL LETTER ETA WITH VARIA", aliases: &[] },
        Codepoint { codepoint: 0x1F75, name: "GREEK SMALL LETTER ETA WITH OXIA", aliases: &[] },
        Codepoint { codepoint: 0x1F76, name: "GREEK SMALL LETTER IOTA WITH VARIA", aliases: &[] },
        Codepoint { codepoint: 0x1F77, name: "GREEK SMALL LETTER IOTA WITH OXIA", aliases: &[] },
        Codepoint { codepoint: 0x1F78, name: "GREEK SMALL LETTER OMICRON WITH VARIA", aliases: &[] },
        Codepoint { codepoint: 0x1F79, name: "GREEK SMALL LETTER OMICRON WITH OXIA", aliases: &[] },
        Codepoint { codepoint: 0x1F7A, name: "GREEK SMALL LETTER UPSILON WITH VARIA", aliases: &[] },
        Codepoint { codepoint: 0x1F7B, name: "GREEK SMALL LETTER UPSILON WITH OXIA", aliases: &[] },
        Codepoint { codepoint: 0x1F7C, name: "GREEK SMALL LETTER OMEGA WITH VARIA", aliases: &[] },
        Codepoint { codepoint: 0x1F7D, name: "GREEK SMALL LETTER OMEGA WITH OXIA", aliases: &[] },
        Codepoint { codepoint: 0x1F80, name: "GREEK SMALL LETTER ALPHA WITH PSILI AND YPOGEGRAMMENI", aliases: &[] },
        Codepoint { codepoint: 0x1F81, name: "GREEK SMALL LETTER ALPHA WITH DASIA AND YPOGEGRAMMENI", aliases: &[] },
        Codepoint { codepoint: 0x1F82, name: "GREEK SMALL LETTER ALPHA WITH PSILI AND VARIA AND YPOGEGRAMMENI", aliases: &[] },
        Codepoint { codepoint: 0x1F83, name: "GREEK SMALL LETTER ALPHA WITH DASIA AND VARIA AND YPOGEGRAMMENI", aliases: &[] },
        Codepoint { codepoint: 0x1F84, name: "GREEK SMALL LETTER ALPHA WITH PSILI AND OXIA AND YPOGEGRAMMENI", aliases: &[] },
        Codepoint { codepoint: 0x1F85, name: "GREEK SMALL LETTER ALPHA WITH DASIA AND OXIA AND YPOGEGRAMMENI", aliases: &[] },
    ]
}

fn all_codepoints_180() -> (v: Vec<Codepoint>)
    ensures
        v@ == codepoint_table_180(),
{
    let v = vec![
        Codepoint { codepoint: 0x1F59, name: "GREEK CAPITAL LETTER UPSILON WITH DASIA", aliases: &[] },
        Codepoint { codepoint: 0x1F5B, name: "GREEK CAPITAL LETTER UPSILON WITH DASIA AND VARIA", aliases: &[] },
        Codepoint { codepoint: 0x1F5D, name: "GREEK CAPITAL LETTER UPSILON WITH DASIA AND OXIA", aliases: &[] },
        Codepoint { codepoint: 0x1F5F, name: "GREEK CAPITAL LETTER UPSILON WITH DASIA AND PERISPOMENI", aliases: &[] },
        Codepoint { codepoint: 0x1F60, name: "GREEK SMALL LETTER OMEGA WITH PSILI", aliases: &[] },
        Codepoint { codepoint: 0x1F61, name: "GREEK SMALL LETTER OMEGA WITH DASIA", aliases: &[] },
        Codepoint { codepoint: 0x1F62, name: "GREEK SMALL LETTER OMEGA WITH PSILI AND VARIA", aliases: &[] },
        Codepoint { codepoint: 0x1F63, name: "GREEK SMALL LETTER OMEGA WITH DASIA AND VARIA", aliases: &[] },
        Codepoint { codepoint: 0x1F64, name: "GREEK SMALL LETTER OMEGA WITH PSILI AND OXIA", aliases: &[] },
        Codepoint { codepoint: 0x1F65, name: "GREEK SMALL LETTER OMEGA WITH DASIA AND OXIA", aliases: &[] },
        Codepoint { codepoint: 0x1F66, name: "GREEK SMALL LETTER OMEGA WITH PSILI AND PERISPOMENI", aliases: &[] },
        Codepoint { codepoint: 0x1F67, name: "GREEK SMALL LETTER OMEGA WITH DASIA AND PERISPOMENI", aliases: &[] },
        Codepoint { codepoint: 0x1F68, name: "GREEK CAPITAL LETTER OMEGA WITH PSILI", aliases: &[] },
        Codepoint { codepoint: 0x1F69, name: "GREEK CAPITAL LETTER OMEGA WITH DASIA", aliases: &[] },
        Codepoint { codepoint: 0x1F6A, name: "GREEK CAPITAL LETTER OMEGA WITH PSILI AND VARIA", aliases: &[] },
        Codepoint { codepoint: 0x1F6B, name: "GREEK CAPITAL LETTER OMEGA WITH DASIA AND VARIA", aliases: &[] },
        Codepoint { codepoint: 0x1F6C, name: "GREEK CAPITAL LETTER OMEGA WITH PSILI AND OXIA", aliases: &[] },
        Codepoint { codepoint: 0x1F6D, name: "GREEK CAPITAL LETTER OMEGA WITH DASIA AND OXIA", aliases: &[] },
        Codepoint { codepoint: 0x1F6E, name: "GREEK CAPITAL LETTER OMEGA WITH PSILI AND PERISPOMENI", aliases: &[] },
        Codepoint { codepoint: 0x1F6F, name: "GREEK CAPITAL LETTER OMEGA WITH DASIA AND PERISPOMENI", aliases: &[] },
        Codepoint { codepoint: 0x1F70, name: "GREEK SMALL LETTER ALPHA WITH VARIA", aliases: &[] },
        Codepoint { codepoint: 0x1F71, name: "GREEK SMALL LETTER ALPHA WITH OXIA", aliases: &[] },
        Codepoint { codepoint: 0x1F72, name: "GREEK SMALL LETTER EPSILON WITH VARIA", aliases: &[] },
        Codepoint { codepoint: 0x1F73, name: "GREEK SMALL LETTER EPSILON WITH OXIA", aliases: &[] },
        Codepoint { codepoint: 0x1F74, name: "GREEK SMALL LETTER ETA WITH VARIA", aliases: &[] },
        Codepoint { codepoint: 0x1F75, name: "GREEK SMALL LETTER ETA WITH OXIA", aliases: &[] },
        Codepoint { codepoint: 0x1F76, name: "GREEK SMALL LETTER IOTA WITH VARIA", aliases: &[] },
        Codepoint { codepoint: 0x1F77, name: "GREEK SMALL LETTER IOTA WITH OXIA", aliases: &[] },
        Codepoint { codepoint: 0x1F78, name: "GREEK SMALL LETTER OMICRON WITH VARIA", aliases: &[] },
        Codepoint { codepoint: 0x1F79, name: "GREEK SMALL LETTER OMICRON WITH OXIA", aliases: &[] },
        Codepoint { codepoint: 0x1F7A, name: "GREEK SMALL LETTER UPSILON WITH VARIA", aliases: &[] },
        Codepoint { codepoint: 0x1F7B, name: "GREEK SMALL LETTER UPSILON WITH OXIA", aliases: &[] },
        Codepoint { codepoint: 0x1F7C, name: "GREEK SMALL LETTER OMEGA WITH VARIA", aliases: &[] },
        Codepoint { codepoint: 0x1F7D, name: "GREEK SMALL LETTER OMEGA WITH OXIA", aliases: &[] },
        Codepoint { codepoint: 0x1F80, name: "GREEK SMALL LETTER ALPHA WITH PSILI AND YPOGEGRAMMENI", aliases: &[] },
        Codepoint { codepoint: 0x1F81, name: "GREEK SMALL LETTER ALPHA WITH DASIA AND YPOGEGRAMMENI", aliases: &[] },
        Codepoint { codepoint: 0x1F82, name: "GREEK SMALL LETTER ALPHA WITH PSILI AND VARIA AND YPOGEGRAMMENI", aliases: &[] },
        Codepoint { codepoint: 0x1F83, name: "GREEK SMALL LETTER ALPHA WITH DASIA AND VARIA AND YPOGEGRAMMENI", aliases: &[] },
        Codepoint { codepoint: 0x1F84, name: "GREEK SMALL LETTER ALPHA WITH PSILI AND OXIA AND YPOGEGRAMMENI", aliases: &[] },
        Codepoint { codepoint: 0x1F85, name: "GREEK SMALL LETTER ALPHA WITH DASIA AND OXIA AND YPOGEGRAMMENI", aliases: &[] },
    ];
    assert(v@ =~= codepoint_table_180());
    v
}

pub open spec fn codepoint_table_181() -> Seq<Codepoint> {
    seq![
        Codepoint { codepoint: 0x1F86, name: "GREEK SMALL LETTER ALPHA WITH PSILI AND PERISPOMENI AND YPOGEGRAMMENI", aliases: &[] },
        Codepoint { codepoint: 0x1F87, name: "GREEK SMALL LETTER ALPHA WITH DASIA AND PERISPOMENI AND YPOGEGRAMMENI", aliases: &[] },
        Codepoint { codepoint: 0x1F88, name: "GREEK CAPITAL LETTER ALPHA WITH PSILI AND PROSGEGRAMMENI", aliases: &[] },
        Codepoint { codepoint: 0x1F89, name: "GREEK CAPITAL LETTER ALPHA WITH DASIA AND PROSGEGRAMMENI", aliases: &[] },
        Codepoint { codepoint: 0x1F8A, name: "GREEK CAPITAL LETTER ALPHA WITH PSILI AND VARIA AND PROSGEGRAMMENI", aliases: &[] },
        Codepoint { codepoint: 0x1F8B, name: "GREEK CAPITAL LETTER ALPHA WITH DASIA AND VARIA AND PROSGEGRAMMENI", aliases: &[] },
        Codepoint { codepoint: 0x1F8C, name: "GREEK CAPITAL LETTER ALPHA WITH PSILI AND OXIA AND PROSGEGRAMMENI", aliases: &[] },
        Codepoint { codepoint: 0x1F8D, name: "GREEK CAPITAL LETTER ALPHA WITH DASIA AND OXIA AND PROSGEGRAMMENI", aliases: &[] },
        Codepoint { codepoint: 0x1F8E, name: "GREEK CAPITAL LETTER ALPHA WITH PSILI AND PERISPOMENI AND PROSGEGRAMMENI", aliases: &[] },
        Codepoint { codepoint: 0x1F8F, name: "GREEK CAPITAL LETTER ALPHA WITH DASIA AND PERISPOMENI AND PROSGEGRAMMENI", aliases: &[] },
        Codepoint { codepoint: 0x1F90, name: "GREEK SMALL LETTER ETA WITH PSILI AND YPOGEGRAMMENI", aliases: &[] },
        Codepoint { codepoint: 0x1F91, name: "GREEK SMALL LETTER ETA WITH DASIA AND YPOGEGRAMMENI", aliases: &[] },
        Codepoint { codepoint: 0x1F92, name: "GREEK SMALL LETTER ETA WITH PSILI AND VARIA AND YPOGEGRAMMENI", aliases: &[] },
        Codepoint { codepoint: 0x1F93, name: "GREEK SMALL LETTER ETA WITH DASIA AND VARIA AND YPOGEGRAMMENI", aliases: &[] },
        Codepoint { codepoint: 0x1F94, name: "GREEK SMALL LETTER ETA WITH PSILI AND OXIA AND YPOGEGRAMMENI", aliases: &[] },
        Codepoint { codepoint: 0x1F95, name: "GREEK SMALL LETTER ETA WITH DASIA AND OXIA AND YPOGEGRAMMENI", aliases: &[] },
        Codepoint { codepoint: 0x1F96, name: "GREEK SMALL LETTER ETA WITH PSILI AND PERISPOMENI AND YPOGEGRAMMENI", aliases: &[] },
        Codepoint { codepoint: 0x1F97, name: "GREEK SMALL LETTER ETA WITH DASIA AND PERISPOMENI AND YPOGEGRAMMENI", aliases: &[] },
        Codepoint { codepoint: 0x1F98, name: "GREEK CAPITAL LETTER ETA WITH PSILI AND PROSGEGRAMMENI", aliases: &[] },
        Codepoint { codepoint: 0x1F99, name: "GREEK CAPITAL LETTER ETA WITH DASIA AND PROSGEGRAMMENI", aliases: &[] },
        Codepoint { codepoint: 0x1F9A, name: "GREEK CAPITAL LETTER ETA WITH PSILI AND VARIA AND PROSGEGRAMMENI", aliases: &[] },
        Codepoint { codepoint: 0x1F9B, name: "GREEK CAPITAL LETTER ETA WITH DASIA AND VARIA AND PROSGEGRAMMENI", aliases: &[] },
        Codepoint { codepoint: 0x1F9C, name: "GREEK CAPITAL LETTER ETA WITH PSILI AND OXIA AND PROSGEGRAMMENI", aliases: &[] },
        Codepoint { codepoint: 0x1F9D, name: "GREEK CAPITAL LETTER ETA WITH DASIA AND OXIA AND PROSGEGRAMMENI", aliases: &[] },
        Codepoint { codepoint: 0x1F9E, name: "GREEK CAPITAL LETTER ETA WITH PSILI AND PERISPOMENI AND PROSGEGRAMMENI", aliases: &[] },
        Codepoint { codepoint: 0x1F9F, name: "GREEK CAPITAL LETTER ETA WITH DASIA AND PERISPOMENI AND PROSGEGRAMMENI", aliases: &[] },
        Codepoint { codepoint: 0x1FA0, name: "GREEK SMALL LETTER OMEGA WITH PSILI AND YPOGEGRAMMENI", aliases: &[] },
        Codepoint { codepoint: 0x1FA1, name: "GREEK SMALL LETTER OMEGA WITH DASIA AND YPOGEGRAMMENI", aliases: &[] },
        Codepoint { codepoint: 0x1FA2, name: "GREEK SMALL LETTER OMEGA WITH PSILI AND VARIA AND YPOGEGRAMMENI", aliases: &[] },
        Codepoint { codepoint: 0x1FA3, name: "GREEK SMALL LETTER OMEGA WITH DASIA AND VARIA AND YPOGEGRAMMENI", aliases: &[] },
        Codepoint { codepoint: 0x1FA4, name: "GREEK SMALL LETTER OMEGA WITH PSILI AND OXIA AND YPOGEGRAMMENI", aliases: &[] },
        Codepoint { codepoint: 0x1FA5, name: "GREEK SMALL LETTER OMEGA WITH DASIA AND OXIA AND YPOGEGRAMMENI", aliases: &[] },
        Codepoint { codepoint: 0x1FA6, name: "GREEK SMALL LETTER OMEGA WITH PSILI AND PERISPOMENI AND YPOGEGRAMMENI", aliases: &[] },
        Codepoint { codepoint: 0x1FA7, name: "GREEK SMALL LETTER OMEGA WITH DASIA AND PERISPOMENI AND YPOGEGRAMMENI", aliases: &[] },
        Codepoint { codepoint: 0x1FA8, name: "GREEK CAPITAL LETTER OMEGA WITH PSILI AND PROSGEGRAMMENI", aliases: &[] },
        Codepoint { codepoint: 0x1FA9, name: "GREEK CAPITAL LETTER OMEGA WITH DASIA AND PROSGEGRAMMENI", aliases: &[] },
        Codepoint { codepoint: 0x1FAA, name: "GREEK CAPITAL LETTER OMEGA WITH PSILI AND VARIA AND PROSGEGRAMMENI", aliases: &[] },
        Codepoint { codepoint: 0x1FAB, name: "GREEK CAPITAL LETTER OMEGA WITH DASIA AND VARIA AND PROSGEGRAMMENI", aliases: &[] },
        Codepoint { codepoint: 0x1FAC, name: "GREEK CAPITAL LETTER OMEGA WITH PSILI AND OXIA AND PROSGEGRAMMENI", aliases: &[] },
        Codepoint { codepoint: 0x1FAD, name: "GREEK CAPITAL LETTER OMEGA WITH DASIA AND OXIA AND PROSGEGRAMMENI", aliases: &[] },
    ]
}

fn all_codepoints_181() -> (v: Vec<Codepoint>)
    ensures
        v@ == codepoint_table_181(),
{
    let v = vec![
        Codepoint { codepoint: 0x1F86, name: "GREEK SMALL LETTER ALPHA WITH PSILI AND PERISPOMENI AND YPOGEGRAMMENI", aliases: &[] },
        Codepoint { codepoint: 0x1F87, name: "GREEK SMALL LETTER ALPHA WITH DASIA AND PERISPOMENI AND YPOGEGRAMMENI", aliases: &[] },
        Codepoint { codepoint: 0x1F88, name: "GREEK CAPITAL LETTER ALPHA WITH PSILI AND PROSGEGRAMMENI", aliases: &[] },
        Codepoint { codepoint: 0x1F89, name: "GREEK CAPITAL LETTER ALPHA WITH DASIA AND PROSGEGRAMMENI", aliases: &[] },
        Codepoint { codepoint: 0x1F8A, name: "GREEK CAPITAL LETTER ALPHA WITH PSILI AND VARIA AND PROSGEGRAMMENI", aliases: &[] },
        Codepoint { codepoint: 0x1F8B, name: "GREEK CAPITAL LETTER ALPHA WITH DASIA AND VARIA AND PROSGEGRAMMENI", aliases: &[] },
        Codepoint { codepoint: 0x1F8C, name: "GREEK CAPITAL LETTER ALPHA WITH PSILI AND OXIA AND PROSGEGRAMMENI", aliases: &[] },
        Codepoint { codepoint: 0x1F8D, name: "GREEK CAPITAL LETTER ALPHA WITH DASIA AND OXIA AND PROSGEGRAMMENI", aliases: &[] },
        Codepoint { codepoint: 0x1F8E, name: "GREEK CAPITAL LETTER ALPHA WITH PSILI AND PERISPOMENI AND PROSGEGRAMMENI", aliases: &[] },
        Codepoint { codepoint: 0x1F8F, name: "GREEK CAPITAL LETTER ALPHA WITH DASIA AND PERISPOMENI AND PROSGEGRAMMENI", aliases: &[] },
        Codepoint { codepoint: 0x1F90, name: "GREEK SMALL LETTER ETA WITH PSILI AND YPOGEGRAMMENI", aliases: &[] },
        Codepoint { codepoint: 0x1F91, name: "GREEK SMALL LETTER ETA WITH DASIA AND YPOGEGRAMMENI", aliases: &[] },
        Codepoint { codepoint: 0x1F92, name: "GREEK SMALL LETTER ETA WITH PSILI AND VARIA AND YPOGEGRAMMENI", aliases: &[] },
        Codepoint { codepoint: 0x1F93, name: "GREEK SMALL LETTER ETA WITH DASIA AND VARIA AND YPOGEGRAMMENI", aliases: &[] },
        Codepoint { codepoint: 0x1F94, name: "GREEK SMALL LETTER ETA WITH PSILI AND OXIA AND YPOGEGRAMMENI", aliases: &[] },
        Codepoint { codepoint: 0x1F95, name: "GREEK SMALL LETTER ETA WITH DASIA AND OXIA AND YPOGEGRAMMENI", aliases: &[] },
        Codepoint { codepoint: 0x1F96, name: "GREEK SMALL LETTER ETA WITH PSILI AND PERISPOMENI AND YPOGEGRAMMENI", aliases: &[] },
        Codepoint { codepoint: 0x1F97, name: "GREEK SMALL LETTER ETA WITH DASIA AND PERISPOMENI AND YPOGEGRAMMENI", aliases: &[] },
        Codepoint { codepoint: 0x1F98, name: "GREEK CAPITAL LETTER ETA WITH PSILI AND PROSGEGRAMMENI", aliases: &[] },
        Codepoint { codepoint: 0x1F99, name: "GREEK CAPITAL LETTER ETA WITH DASIA AND PROSGEGRAMMENI", aliases: &[] },
        Codepoint { codepoint: 0x1F9A, name: "GREEK CAPITAL LETTER ETA WITH PSILI AND VARIA AND PROSGEGRAMMENI", aliases: &[] },
        Codepoint { codepoint: 0x1F9B, name: "GREEK CAPITAL LETTER ETA WITH DASIA AND VARIA AND PROSGEGRAMMENI", aliases: &[] },
        Codepoint { codepoint: 0x1F9C, name: "GREEK CAPITAL LETTER ETA WITH PSILI AND OXIA AND PROSGEGRAMMENI", aliases: &[] },
        Codepoint { codepoint: 0x1F9D, name: "GREEK CAPITAL LETTER ETA WITH DASIA AND OXIA AND PROSGEGRAMMENI", aliases: &[] },
        Codepoint { codepoint: 0x1F9E, name: "GREEK CAPITAL LETTER ETA WITH PSILI AND PERISPOMENI AND PROSGEGRAMMENI", aliases: &[] },
        Codepoint { codepoint: 0x1F9F, name: "GREEK CAPITAL LETTER ETA WITH DASIA AND PERISPOMENI AND PROSGEGRAMMENI", aliases: &[] },
        Codepoint { codepoint: 0x1FA0, name: "GREEK SMALL LETTER OMEGA WITH PSILI AND YPOGEGRAMMENI", aliases: &[] },
        Codepoint { codepoint: 0x1FA1, name: "GREEK SMALL LETTER OMEGA WITH DASIA AND YPOGEGRAMMENI", aliases: &[] },
        Codepoint { codepoint: 0x1FA2, name: "GREEK SMALL LETTER OMEGA WITH PSILI AND VARIA AND YPOGEGRAMMENI", aliases: &[] },
        Codepoint { codepoint: 0x1FA3, name: "GREEK SMALL LETTER OMEGA WITH DASIA AND VARIA AND YPOGEGRAMMENI", aliases: &[] },
        Codepoint { codepoint: 0x1FA4, name: "GREEK SMALL LETTER OMEGA WITH PSILI AND OXIA AND YPOGEGRAMMENI", aliases: &[] },
        Codepoint { codepoint: 0x1FA5, name: "GREEK SMALL LETTER OMEGA WITH DASIA AND OXIA AND YPOGEGRAMMENI", aliases: &[] },
        Codepoint { codepoint: 0x1FA6, name: "GREEK SMALL LETTER OMEGA WITH PSILI AND PERISPOMENI AND YPOGEGRAMMENI", aliases: &[] },
        Codepoint { codepoint: 0x1FA7, name: "GREEK SMALL LETTER OMEGA WITH DASIA AND PERISPOMENI AND YPOGEGRAMMENI", aliases: &[] },
        Codepoint { codepoint: 0x1FA8, name: "GREEK CAPITAL LETTER OMEGA WITH PSILI AND PROSGEGRAMMENI", aliases: &[] },
        Codepoint { codepoint: 0x1FA9, name: "GREEK CAPITAL LETTER OMEGA WITH DASIA AND PROSGEGRAMMENI", aliases: &[] },
        Codepoint { codepoint: 0x1FAA, name: "GREEK CAPITAL LETTER OMEGA WITH PSILI AND VARIA AND PROSGEGRAMMENI", aliases: &[] },
        Codepoint { codepoint: 0x1FAB, name: "GREEK CAPITAL LETTER OMEGA WITH DASIA AND VARIA AND PROSGEGRAMMENI", aliases: &[] },
        Codepoint { codepoint: 0x1FAC, name: "GREEK CAPITAL LETTER OMEGA WITH PSILI AND OXIA AND PROSGEGRAMMENI", aliases: &[] },
        Codepoint { codepoint: 0x1FAD, name: "GREEK CAPITAL LETTER OMEGA WITH DASIA AND OXIA AND PROSGEGRAMMENI", aliases: &[] },
    ];
    assert(v@ =~= codepoint_table_181());
    v
}

pub open spec fn codepoint_table_182() -> Seq<Codepoint> {
    seq![
        Codepoint { codepoint: 0x1FAE, name: "GREEK CAPITAL LETTER OMEGA WITH PSILI AND PERISPOMENI AND PROSGEGRAMMENI", aliases: &[] },
        Codepoint { codepoint: 0x1FAF, name: "GREEK CAPITAL LETTER OMEGA WITH DASIA AND PERISPOMENI AND PROSGEGRAMMENI", aliases: &[] },
        Codepoint { codepoint: 0x1FB0, name: "GREEK SMALL LETTER ALPHA WITH VRACHY", aliases: &[] },
        Codepoint { codepoint: 0x1FB1, name: "GREEK SMALL LETTER ALPHA WITH MACRON", aliases: &[] },
        Codepoint { codepoint: 0x1FB2, name: "GREEK SMALL LETTER ALPHA WITH VARIA AND YPOGEGRAMMENI", aliases: &[] },
        Codepoint { codepoint: 0x1FB3, name: "GREEK SMALL LETTER ALPHA WITH YPOGEGRAMMENI", aliases: &[] },
        Codepoint { codepoint: 0x1FB4, name: "GREEK SMALL LETTER ALPHA WITH OXIA AND YPOGEGRAMMENI", aliases: &[] },
        Codepoint { codepoint: 0x1FB6, name: "GREEK SMALL LETTER ALPHA WITH PERISPOMENI", aliases: &[] },
        Codepoint { codepoint: 0x1FB7, name: "GREEK SMALL LETTER ALPHA WITH PERISPOMENI AND YPOGEGRAMMENI", aliases: &[] },
        Codepoint { codepoint: 0x1FB8, name: "GREEK CAPITAL LETTER ALPHA WITH VRACHY", aliases: &[] },
        Codepoint { codepoint: 0x1FB9, name: "GREEK CAPITAL LETTER ALPHA WITH MACRON", aliases: &[] },
        Codepoint { codepoint: 0x1FBA, name: "GREEK CAPITAL LETTER ALPHA WITH VARIA", aliases: &[] },
        Codepoint { codepoint: 0x1FBB, name: "GREEK CAPITAL LETTER ALPHA WITH OXIA", aliases: &[] },
        Codepoint { codepoint: 0x1FBC, name: "GREEK CAPITAL LETTER ALPHA WITH PROSGEGRAMMENI", aliases: &[] },
        Codepoint { codepoint: 0x1FBD, name: "GREEK KORONIS", aliases: &[] },
        Codepoint { codepoint: 0x1FBE, name: "GREEK PROSGEGRAMMENI", aliases: &[] },
        Codepoint { codepoint: 0x1FBF, name: "GREEK PSILI", aliases: &[] },
        Codepoint { codepoint: 0x1FC0, name: "GREEK PERISPOMENI", aliases: &[] },
        Codepoint { codepoint: 0x1FC1, name: "GREEK DIALYTIKA AND PERISPOMENI", aliases: &[] },
        Codepoint { codepoint: 0x1FC2, name: "GREEK SMALL LETTER ETA WITH VARIA AND YPOGEGRAMMENI", aliases: &[] },
        Codepoint { codepoint: 0x1FC3, name: "GREEK SMALL LETTER ETA WITH YPOGEGRAMMENI", aliases: &[] },
        Codepoint { codepoint: 0x1FC4, name: "GREEK SMALL LETTER ETA WITH OXIA AND YPOGEGRAMMENI", aliases: &[] },
        Codepoint { codepoint: 0x1FC6, name: "GREEK SMALL LETTER ETA WITH PERISPOMENI", aliases: &[] },
        Codepoint { codepoint: 0x1FC7, name: "GREEK SMALL LETTER ETA WITH PERISPOMENI AND YPOGEGRAMMENI", aliases: &[] },
        Codepoint { codepoint: 0x1FC8, name: "GREEK CAPITAL LETTER EPSILON WITH VARIA", aliases: &[] },
        Codepoint { codepoint: 0x1FC9, name: "GREEK CAPITAL LETTER EPSILON WITH OXIA", aliases: &[] },
        Codepoint { codepoint: 0x1FCA, name: "GREEK CAPITAL LETTER ETA WITH VARIA", aliases: &[] },
        Codepoint { codepoint: 0x1FCB, name: "GREEK CAPITAL LETTER ETA WITH OXIA", aliases: &[] },
        Codepoint { codepoint: 0x1FCC, name: "GREEK CAPITAL LETTER ETA WITH PROSGEGRAMMENI", aliases: &[] },
        Codepoint { codepoint: 0x1FCD, name: "GREEK PSILI AND VARIA", aliases: &[] },
        Codepoint { codepoint: 0x1FCE, name: "GREEK PSILI AND OXIA", aliases: &[] },
        Codepoint { codepoint: 0x1FCF, name: "GREEK PSILI AND PERISPOMENI", aliases: &[] },
        Codepoint { codepoint: 0x1FD0, name: "GREEK SMALL LETTER IOTA WITH VRACHY", aliases: &[] },
        Codepoint { codepoint: 0x1FD1, name: "GREEK SMALL LETTER IOTA WITH MACRON", aliases: &[] },
        Codepoint { codepoint: 0x1FD2, name: "GREEK SMALL LETTER IOTA WITH DIALYTIKA AND VARIA", aliases: &[] },
        Codepoint { codepoint: 0x1FD3, name: "GREEK SMALL LETTER IOTA WITH DIALYTIKA AND OXIA", aliases: &[] },
        Codepoint { codepoint: 0x1FD6, name: "GREEK SMALL LETTER IOTA WITH PERISPOMENI", aliases: &[] },
        Codepoint { codepoint: 0x1FD7, name: "GREEK SMALL LETTER IOTA WITH DIALYTIKA AND PERISPOMENI", aliases: &[] },
        Codepoint { codepoint: 0x1FD8, name: "GREEK CAPITAL LETTER IOTA WITH VRACHY", aliases: &[] },
        Codepoint { codepoint: 0x1FD9, name: "GREEK CAPITAL LETTER IOTA WITH MACRON", aliases: &[] },
    ]
}

fn all_codepoints_182() -> (v: Vec<Codepoint>)
    ensures
        v@ == codepoint_table_182(),
{
    let v = vec![
        Codepoint { codepoint: 0x1FAE, name: "GREEK CAPITAL LETTER OMEGA WITH PSILI AND PERISPOMENI AND PROSGEGRAMMENI", aliases: &[] },
        Codepoint { codepoint: 0x1FAF, name: "GREEK CAPITAL LETTER OMEGA WITH DASIA AND PERISPOMENI AND PROSGEGRAMMENI", aliases: &[] },
        Codepoint { codepoint: 0x1FB0, name: "GREEK SMALL LETTER ALPHA WITH VRACHY", aliases: &[] },
        Codepoint { codepoint: 0x1FB1, name: "GREEK SMALL LETTER ALPHA WITH MACRON", aliases: &[] },
        Codepoint { codepoint: 0x1FB2, name: "GREEK SMALL LETTER ALPHA WITH VARIA AND YPOGEGRAMMENI", aliases: &[] },
        Codepoint { codepoint: 0x1FB3, name: "GREEK SMALL LETTER ALPHA WITH YPOGEGRAMMENI", aliases: &[] },
        Codepoint { codepoint: 0x1FB4, name: "GREEK SMALL LETTER ALPHA WITH OXIA AND YPOGEGRAMMENI", aliases: &[] },
        Codepoint { codepoint: 0x1FB6, name: "GREEK SMALL LETTER ALPHA WITH PERISPOMENI", aliases: &[] },
        Codepoint { codepoint: 0x1FB7, name: "GREEK SMALL LETTER ALPHA WITH PERISPOMENI AND YPOGEGRAMMENI", aliases: &[] },
        Codepoint { codepoint: 0x1FB8, name: "GREEK CAPITAL LETTER ALPHA WITH VRACHY", aliases: &[] },
        Codepoint { codepoint: 0x1FB9, name: "GREEK CAPITAL LETTER ALPHA WITH MACRON", aliases: &[] },
        Codepoint { codepoint: 0x1FBA, name: "GREEK CAPITAL LETTER ALPHA WITH VARIA", aliases: &[] },
        Codepoint { codepoint: 0x1FBB, name: "GREEK CAPITAL LETTER ALPHA WITH OXIA", aliases: &[] },
        Codepoint { codepoint: 0x1FBC, name: "GREEK CAPITAL LETTER ALPHA WITH PROSGEGRAMMENI", aliases: &[] },
        Codepoint { codepoint: 0x1FBD, name: "GREEK KORONIS", aliases: &[] },
        Codepoint { codepoint: 0x1FBE, name: "GREEK PROSGEGRAMMENI", aliases: &[] },
        Codepoint { codepoint: 0x1FBF, name: "GREEK PSILI", aliases: &[] },
        Codepoint { codepoint: 0x1FC0, name: "GREEK PERISPOMENI", aliases: &[] },
        Codepoint { codepoint: 0x1FC1, name: "GREEK DIALYTIKA AND PERISPOMENI", aliases: &[] },
        Codepoint { codepoint: 0x1FC2, name: "GREEK SMALL LETTER ETA WITH VARIA AND YPOGEGRAMMENI", aliases: &[] },
        Codepoint { codepoint: 0x1FC3, name: "GREEK SMALL LETTER ETA WITH YPOGEGRAMMENI", aliases: &[] },
        Codepoint { codepoint: 0x1FC4, name: "GREEK SMALL LETTER ETA WITH OXIA AND YPOGEGRAMMENI", aliases: &[] },
        Codepoint { codepoint: 0x1FC6, name: "GREEK SMALL LETTER ETA WITH PERISPOMENI", aliases: &[] },
        Codepoint { codepoint: 0x1FC7, name: "GREEK SMALL LETTER ETA WITH PERISPOMENI AND YPOGEGRAMMENI", aliases: &[] },
        Codepoint { codepoint: 0x1FC8, name: "GREEK CAPITAL LETTER EPSILON WITH VARIA", aliases: &[] },
        Codepoint { codepoint: 0x1FC9, name: "GREEK CAPITAL LETTER EPSILON WITH OXIA", aliases: &[] },
        Codepoint { codepoint: 0x1FCA, name: "GREEK CAPITAL LETTER ETA WITH VARIA", aliases: &[] },
        Codepoint { codepoint: 0x1FCB, name: "GREEK CAPITAL LETTER ETA WITH OXIA", aliases: &[] },
        Codepoint { codepoint: 0x1FCC, name: "GREEK CAPITAL LETTER ETA WITH PROSGEGRAMMENI", aliases: &[] },
        Codepoint { codepoint: 0x1FCD, name: "GREEK PSILI AND VARIA", aliases: &[] },
        Codepoint { codepoint: 0x1FCE, name: "GREEK PSILI AND OXIA", aliases: &[] },
        Codepoint { codepoint: 0x1FCF, name: "GREEK PSILI AND PERISPOMENI", aliases: &[] },
        Codepoint { codepoint: 0x1FD0, name: "GREEK SMALL LETTER IOTA WITH VRACHY", aliases: &[] },
        Codepoint { codepoint: 0x1FD1, name: "GREEK SMALL LETTER IOTA WITH MACRON", aliases: &[] },
        Codepoint { codepoint: 0x1FD2, name: "GREEK SMALL LETTER IOTA WITH DIALYTIKA AND VARIA", aliases: &[] },
        Codepoint { codepoint: 0x1FD3, name: "GREEK SMALL LETTER IOTA WITH DIALYTIKA AND OXIA", aliases: &[] },
        Codepoint { codepoint: 0x1FD6, name: "GREEK SMALL LETTER IOTA WITH PERISPOMENI", aliases: &[] },
        Codepoint { codepoint: 0x1FD7, name: "GREEK SMALL LETTER IOTA WITH DIALYTIKA AND PERISPOMENI", aliases: &[] },
        Codepoint { codepoint: 0x1FD8, name: "GREEK CAPITAL LETTER IOTA WITH VRACHY", aliases: &[] },
        Codepoint { codepoint: 0x1FD9, name: "GREEK CAPITAL LETTER IOTA WITH MACRON", aliases: &[] },
    ];
    assert(v@ =~= codepoint_table_182());
    v
}

pub open spec fn codepoint_table_183() -> Seq<Codepoint> {
    seq![
        Codepoint { codepoint: 0x1FDA, name: "GREEK CAPITAL LETTER IOTA WITH VARIA", aliases: &[] },
        Codepoint { codepoint: 0x1FDB, name: "GREEK CAPITAL LETTER IOTA WITH OXIA", aliases: &[] },
        Codepoint { codepoint: 0x1FDD, name: "GREEK DASIA AND VARIA", aliases: &[] },
        Codepoint { codepoint: 0x1FDE, name: "GREEK DASIA AND OXIA", aliases: &[] },
        Codepoint { codepoint: 0x1FDF, name: "GREEK DASIA AND PERISPOMENI", aliases: &[] },
        Codepoint { codepoint: 0x1FE0, name: "GREEK SMALL LETTER UPSILON WITH VRACHY", aliases: &[] },
        Codepoint { codepoint: 0x1FE1, name: "GREEK SMALL LETTER UPSILON WITH MACRON", aliases: &[] },
        Codepoint { codepoint: 0x1FE2, name: "GREEK SMALL LETTER UPSILON WITH DIALYTIKA AND VARIA", aliases: &[] },
        Codepoint { codepoint: 0x1FE3, name: "GREEK SMALL LETTER UPSILON WITH DIALYTIKA AND OXIA", aliases: &[] },
        Codepoint { codepoint: 0x1FE4, name: "GREEK SMALL LETTER RHO WITH PSILI", aliases: &[] },
        Codepoint { codepoint: 0x1FE5, name: "GREEK SMALL LETTER RHO WITH DASIA", aliases: &[] },
        Codepoint { codepoint: 0x1FE6, name: "GREEK SMALL LETTER UPSILON WITH PERISPOMENI", aliases: &[] },
        Codepoint { codepoint: 0x1FE7, name: "GREEK SMALL LETTER UPSILON WITH DIALYTIKA AND PERISPOMENI", aliases: &[] },
        Codepoint { codepoint: 0x1FE8, name: "GREEK CAPITAL LETTER UPSILON WITH VRACHY", aliases: &[] },
        Codepoint { codepoint: 0x1FE9, name: "GREEK CAPITAL LETTER UPSILON WITH MACRON", aliases: &[] },
        Codepoint { codepoint: 0x1FEA, name: "GREEK CAPITAL LETTER UPSILON WITH VARIA", aliases: &[] },
        Codepoint { codepoint: 0x1FEB, name: "GREEK CAPITAL LETTER UPSILON WITH OXIA", aliases: &[] },
        Codepoint { codepoint: 0x1FEC, name: "GREEK CAPITAL LETTER RHO WITH DASIA", aliases: &[] },
        Codepoint { codepoint: 0x1FED, name: "GREEK DIALYTIKA AND VARIA", aliases: &[] },
        Codepoint { codepoint: 0x1FEE, name: "GREEK DIALYTIKA AND OXIA", aliases: &[] },
        Codepoint { codepoint: 0x1FEF, name: "GREEK VARIA", aliases: &[] },
        Codepoint { codepoint: 0x1FF2, name: "GREEK SMALL LETTER OMEGA WITH VARIA AND YPOGEGRAMMENI", aliases: &[] },
        Codepoint { codepoint: 0x1FF3, name: "GREEK SMALL LETTER OMEGA WITH YPOGEGRAMMENI", aliases: &[] },
        Codepoint { codepoint: 0x1FF4, name: "GREEK SMALL LETTER OMEGA WITH OXIA AND YPOGEGRAMMENI", aliases: &[] },
        Codepoint { codepoint: 0x1FF6, name: "GREEK SMALL LETTER OMEGA WITH PERISPOMENI", aliases: &[] },
        Codepoint { codepoint: 0x1FF7, name: "GREEK SMALL LETTER OMEGA WITH PERISPOMENI AND YPOGEGRAMMENI", aliases: &[] },
        Codepoint { codepoint: 0x1FF8, name: "GREEK CAPITAL LETTER OMICRON WITH VARIA", aliases: &[] },
        Codepoint { codepoint: 0x1FF9, name: "GREEK CAPITAL LETTER OMICRON WITH OXIA", aliases: &[] },
        Codepoint { codepoint: 0x1FFA, name: "GREEK CAPITAL LETTER OMEGA WITH VARIA", aliases: &[] },
        Codepoint { codepoint: 0x1FFB, name: "GREEK CAPITAL LETTER OMEGA WITH OXIA", aliases: &[] },
        Codepoint { codepoint: 0x1FFC, name: "GREEK CAPITAL LETTER OMEGA WITH PROSGEGRAMMENI", aliases: &[] },
        Codepoint { codepoint: 0x1FFD, name: "GREEK OXIA", aliases: &[] },
        Codepoint { codepoint: 0x1FFE, name: "GREEK DASIA", aliases: &[] },
        Codepoint { codepoint: 0x2000, name: "EN QUAD", aliases: &[] },
        Codepoint { codepoint: 0x2001, name: "EM QUAD", aliases: &[] },
        Codepoint { codepoint: 0x2002, name: "EN SPACE", aliases: &[] },
        Codepoint { codepoint: 0x2003, name: "EM SPACE", aliases: &[] },
        Codepoint { codepoint: 0x2004, name: "THREE-PER-EM SPACE", aliases: &[] },
        Codepoint { codepoint: 0x2005, name: "FOUR-PER-EM SPACE", aliases: &[] },
        Codepoint { codepoint: 0x2006, name: "SIX-PER-EM SPACE", aliases: &[] },
    ]
}

fn all_codepoints_183() -> (v: Vec<Codepoint>)
    ensures
        v@ == codepoint_table_183(),
{
    let v = vec![
        Codepoint { codepoint: 0x1FDA, name: "GREEK CAPITAL LETTER IOTA WITH VARIA", aliases: &[] },
        Codepoint { codepoint: 0x1FDB, name: "GREEK CAPITAL LETTER IOTA WITH OXIA", aliases: &[] },
        Codepoint { codepoint: 0x1FDD, name: "GREEK DASIA AND VARIA", aliases: &[] },
        Codepoint { codepoint: 0x1FDE, name: "GREEK DASIA AND OXIA", aliases: &[] },
        Codepoint { codepoint: 0x1FDF, name: "GREEK DASIA AND PERISPOMENI", aliases: &[] },
        Codepoint { codepoint: 0x1FE0, name: "GREEK SMALL LETTER UPSILON WITH VRACHY", aliases: &[] },
        Codepoint { codepoint: 0x1FE1, name: "GREEK SMALL LETTER UPSILON WITH MACRON", aliases: &[] },
        Codepoint { codepoint: 0x1FE2, name: "GREEK SMALL LETTER UPSILON WITH DIALYTIKA AND VARIA", aliases: &[] },
        Codepoint { codepoint: 0x1FE3, name: "GREEK SMALL LETTER UPSILON WITH DIALYTIKA AND OXIA", aliases: &[] },
        Codepoint { codepoint: 0x1FE4, name: "GREEK SMALL LETTER RHO WITH PSILI", aliases: &[] },
        Codepoint { codepoint: 0x1FE5, name: "GREEK SMALL LETTER RHO WITH DASIA", aliases: &[] },
        Codepoint { codepoint: 0x1FE6, name: "GREEK SMALL LETTER UPSILON WITH PERISPOMENI", aliases: &[] },
        Codepoint { codepoint: 0x1FE7, name: "GREEK SMALL LETTER UPSILON WITH DIALYTIKA AND PERISPOMENI", aliases: &[] },
        Codepoint { codepoint: 0x1FE8, name: "GREEK CAPITAL LETTER UPSILON WITH VRACHY", aliases: &[] },
        Codepoint { codepoint: 0x1FE9, name: "GREEK CAPITAL LETTER UPSILON WITH MACRON", aliases: &[] },
        Codepoint { codepoint: 0x1FEA, name: "GREEK CAPITAL LETTER UPSILON WITH VARIA", aliases: &[] },
        Codepoint { codepoint: 0x1FEB, name: "GREEK CAPITAL LETTER UPSILON WITH OXIA", aliases: &[] },
        Codepoint { codepoint: 0x1FEC, name: "GREEK CAPITAL LETTER RHO WITH DASIA", aliases: &[] },
        Codepoint { codepoint: 0x1FED, name: "GREEK DIALYTIKA AND VARIA", aliases: &[] },
        Codepoint { codepoint: 0x1FEE, name: "GREEK DIALYTIKA AND OXIA", aliases: &[] },
        Codepoint { codepoint: 0x1FEF, name: "GREEK VARIA", aliases: &[] },
        Codepoint { codepoint: 0x1FF2, name: "GREEK SMALL LETTER OMEGA WITH VARIA AND YPOGEGRAMMENI", aliases: &[] },
        Codepoint { codepoint: 0x1FF3, name: "GREEK SMALL LETTER OMEGA WITH YPOGEGRAMMENI", aliases: &[] },
        Codepoint { codepoint: 0x1FF4, name: "GREEK SMALL LETTER OMEGA WITH OXIA AND YPOGEGRAMMENI", aliases: &[] },
        Codepoint { codepoint: 0x1FF6, name: "GREEK SMALL LETTER OMEGA WITH PERISPOMENI", aliases: &[] },
        Codepoint { codepoint: 0x1FF7, name: "GREEK SMALL LETTER OMEGA WITH PERISPOMENI AND YPOGEGRAMMENI", aliases: &[] },
        Codepoint { codepoint: 0x1FF8, name: "GREEK CAPITAL LETTER OMICRON WITH VARIA", aliases: &[] },
        Codepoint { codepoint: 0x1FF9, name: "GREEK CAPITAL LETTER OMICRON WITH OXIA", aliases: &[] },
        Codepoint { codepoint: 0x1FFA, name: "GREEK CAPITAL LETTER OMEGA WITH VARIA", aliases: &[] },
        Codepoint { codepoint: 0x1FFB, name: "GREEK CAPITAL LETTER OMEGA WITH OXIA", aliases: &[] },
        Codepoint { codepoint: 0x1FFC, name: "GREEK CAPITAL LETTER OMEGA WITH PROSGEGRAMMENI", aliases: &[] },
        Codepoint { codepoint: 0x1FFD, name: "GREEK OXIA", aliases: &[] },
        Codepoint { codepoint: 0x1FFE, name: "GREEK DASIA", aliases: &[] },
        Codepoint { codepoint: 0x2000, name: "EN QUAD", aliases: &[] },
        Codepoint { codepoint: 0x2001, name: "EM QUAD", aliases: &[] },
        Codepoint { codepoint: 0x2002, name: "EN SPACE", aliases: &[] },
        Codepoint { codepoint: 0x2003, name: "EM SPACE", aliases: &[] },
        Codepoint { codepoint: 0x2004, name: "THREE-PER-EM SPACE", aliases: &[] },
        Codepoint { codepoint: 0x2005, name: "FOUR-PER-EM SPACE", aliases: &[] },
        Codepoint { codepoint: 0x2006, name: "SIX-PER-EM SPACE", aliases: &[] },
    ];
    assert(v@ =~= codepoint_table_183());
    v
}

pub open spec fn codepoint_table_184() -> Seq<Codepoint> {
    seq![
        Codepoint { codepoint: 0x2007, name: "FIGURE SPACE", aliases: &[] },
        Codepoint { codepoint: 0x2008, name: "PUNCTUATION SPACE", aliases: &[] },
        Codepoint { codepoint: 0x2009, name: "THIN SPACE", aliases: &[] },
        Codepoint { codepoint: 0x200A, name: "HAIR SPACE", aliases: &[] },
        Codepoint { codepoint: 0x200B, name: "ZERO WIDTH SPACE", aliases: &[] },
        Codepoint { codepoint: 0x200C, name: "ZERO WIDTH NON-JOINER", aliases: &[] },
        Codepoint { codepoint: 0x200D, name: "ZERO WIDTH JOINER", aliases: &[] },
        Codepoint { codepoint: 0x200E, name: "LEFT-TO-RIGHT MARK", aliases: &[] },
        Codepoint { codepoint: 0x200F, name: "RIGHT-TO-LEFT MARK", aliases: &[] },
        Codepoint { codepoint: 0x2010, name: "HYPHEN", aliases: &[] },
        Codepoint { codepoint: 0x2011, name: "NON-BREAKING HYPHEN", aliases: &[] },
        Codepoint { codepoint: 0x2012, name: "FIGURE DASH", aliases: &[] },
        Codepoint { codepoint: 0x2013, name: "EN DASH", aliases: &[] },
        Codepoint { codepoint: 0x2014, name: "EM DASH", aliases: &[] },
        Codepoint { codepoint: 0x2015, name: "HORIZONTAL BAR", aliases: &["QUOTATION DASH"] },
        Codepoint { codepoint: 0x2016, name: "DOUBLE VERTICAL LINE", aliases: &["DOUBLE VERTICAL BAR"] },
        Codepoint { codepoint: 0x2017, name: "DOUBLE LOW LINE", aliases: &["SPACING DOUBLE UNDERSCORE"] },
        Codepoint { codepoint: 0x2018, name: "LEFT SINGLE QUOTATION MARK", aliases: &["SINGLE TURNED COMMA QUOTATION MARK"] },
        Codepoint { codepoint: 0x2019, name: "RIGHT SINGLE QUOTATION MARK", aliases: &["SINGLE COMMA QUOTATION MARK"] },
        Codepoint { codepoint: 0x201A, name: "SINGLE LOW-9 QUOTATION MARK", aliases: &["LOW SINGLE COMMA QUOTATION MARK"] },
        Codepoint { codepoint: 0x201B, name: "SINGLE HIGH-REVERSED-9 QUOTATION MARK", aliases: &["SINGLE REVERSED COMMA QUOTATION MARK"] },
        Codepoint { codepoint: 0x201C, name: "LEFT DOUBLE QUOTATION MARK", aliases: &["DOUBLE TURNED COMMA QUOTATION MARK"] },
        Codepoint { codepoint: 0x201D, name: "RIGHT DOUBLE QUOTATION MARK", aliases: &["DOUBLE COMMA QUOTATION MARK"] },
        Codepoint { codepoint: 0x201E, name: "DOUBLE LOW-9 QUOTATION MARK", aliases: &["LOW DOUBLE COMMA QUOTATION MARK"] },
        Codepoint { codepoint: 0x201F, name: "DOUBLE HIGH-REVERSED-9 QUOTATION MARK", aliases: &["DOUBLE REVERSED COMMA QUOTATION MARK"] },
        Codepoint { codepoint: 0x2020, name: "DAGGER", aliases: &[] },
        Codepoint { codepoint: 0x2021, name: "DOUBLE DAGGER", aliases: &[] },
        Codepoint { codepoint: 0x2022, name: "BULLET", aliases: &[] },
        Codepoint { codepoint: 0x2023, name: "TRIANGULAR BULLET", aliases: &[] },
        Codepoint { codepoint: 0x2024, name: "ONE DOT LEADER", aliases: &[] },
        Codepoint { codepoint: 0x2025, name: "TWO DOT LEADER", aliases: &[] },
        Codepoint { codepoint: 0x2026, name: "HORIZONTAL ELLIPSIS", aliases: &[] },
        Codepoint { codepoint: 0x2027, name: "HYPHENATION POINT", aliases: &[] },
        Codepoint { codepoint: 0x2028, name: "LINE SEPARATOR", aliases: &[] },
        Codepoint { codepoint: 0x2029, name: "PARAGRAPH SEPARATOR", aliases: &[] },
        Codepoint { codepoint: 0x202A, name: "LEFT-TO-RIGHT EMBEDDING", aliases: &[] },
        Codepoint { codepoint: 0x202B, name: "RIGHT-TO-LEFT EMBEDDING", aliases: &[] },
        Codepoint { codepoint: 0x202C, name: "POP DIRECTIONAL FORMATTING", aliases: &[] },
        Codepoint { codepoint: 0x202D, name: "LEFT-TO-RIGHT OVERRIDE", aliases: &[] },
        Codepoint { codepoint: 0x202E, name: "RIGHT-TO-LEFT OVERRIDE", aliases: &[] },
    ]
}

fn all_codepoints_184() -> (v: Vec<Codepoint>)
    ensures
        v@ == codepoint_table_184(),
{
    let v = vec![
        Codepoint { codepoint: 0x2007, name: "FIGURE SPACE", aliases: &[] },
        Codepoint { codepoint: 0x2008, name: "PUNCTUATION SPACE", aliases: &[] },
        Codepoint { codepoint: 0x2009, name: "THIN SPACE", aliases: &[] },
        Codepoint { codepoint: 0x200A, name: "HAIR SPACE", aliases: &[] },
        Codepoint { codepoint: 0x200B, name: "ZERO WIDTH SPACE", aliases: &[] },
        Codepoint { codepoint: 0x200C, name: "ZERO WIDTH NON-JOINER", aliases: &[] },
        Codepoint { codepoint: 0x200D, name: "ZERO WIDTH JOINER", aliases: &[] },
        Codepoint { codepoint: 0x200E, name: "LEFT-TO-RIGHT MARK", aliases: &[] },
        Codepoint { codepoint: 0x200F, name: "RIGHT-TO-LEFT MARK", aliases: &[] },
        Codepoint { codepoint: 0x2010, name: "HYPHEN", aliases: &[] },
        Codepoint { codepoint: 0x2011, name: "NON-BREAKING HYPHEN", aliases: &[] },
        Codepoint { codepoint: 0x2012, name: "FIGURE DASH", aliases: &[] },
        Codepoint { codepoint: 0x2013, name: "EN DASH", aliases: &[] },
        Codepoint { codepoint: 0x2014, name: "EM DASH", aliases: &[] },
        Codepoint { codepoint: 0x2015, name: "HORIZONTAL BAR", aliases: &["QUOTATION DASH"] },
        Codepoint { codepoint: 0x2016, name: "DOUBLE VERTICAL LINE", aliases: &["DOUBLE VERTICAL BAR"] },
        Codepoint { codepoint: 0x2017, name: "DOUBLE LOW LINE", aliases: &["SPACING DOUBLE UNDERSCORE"] },
        Codepoint { codepoint: 0x2018, name: "LEFT SINGLE QUOTATION MARK", aliases: &["SINGLE TURNED COMMA QUOTATION MARK"] },
        Codepoint { codepoint: 0x2019, name: "RIGHT SINGLE QUOTATION MARK", aliases: &["SINGLE COMMA QUOTATION MARK"] },
        Codepoint { codepoint: 0x201A, name: "SINGLE LOW-9 QUOTATION MARK", aliases: &["LOW SINGLE COMMA QUOTATION MARK"] },
        Codepoint { codepoint: 0x201B, name: "SINGLE HIGH-REVERSED-9 QUOTATION MARK", aliases: &["SINGLE REVERSED COMMA QUOTATION MARK"] },
        Codepoint { codepoint: 0x201C, name: "LEFT DOUBLE QUOTATION MARK", aliases: &["DOUBLE TURNED COMMA QUOTATION MARK"] },
        Codepoint { codepoint: 0x201D, name: "RIGHT DOUBLE QUOTATION MARK", aliases: &["DOUBLE COMMA QUOTATION MARK"] },
        Codepoint { codepoint: 0x201E, name: "DOUBLE LOW-9 QUOTATION MARK", aliases: &["LOW DOUBLE COMMA QUOTATION MARK"] },
        Codepoint { codepoint: 0x201F, name: "DOUBLE HIGH-REVERSED-9 QUOTATION MARK", aliases: &["DOUBLE REVERSED COMMA QUOTATION MARK"] },
        Codepoint { codepoint: 0x2020, name: "DAGGER", aliases: &[] },
        Codepoint { codepoint: 0x2021, name: "DOUBLE DAGGER", aliases: &[] },
        Codepoint { codepoint: 0x2022, name: "BULLET", aliases: &[] },
        Codepoint { codepoint: 0x2023, name: "TRIANGULAR BULLET", aliases: &[] },
        Codepoint { codepoint: 0x2024, name: "ONE DOT LEADER", aliases: &[] },
        Codepoint { codepoint: 0x2025, name: "TWO DOT LEADER", aliases: &[] },
        Codepoint { codepoint: 0x2026, name: "HORIZONTAL ELLIPSIS", aliases: &[] },
        Codepoint { codepoint: 0x2027, name: "HYPHENATION POINT", aliases: &[] },
        Codepoint { codepoint: 0x2028, name: "LINE SEPARATOR", aliases: &[] },
        Codepoint { codepoint: 0x2029, name: "PARAGRAPH SEPARATOR", aliases: &[] },
        Codepoint { codepoint: 0x202A, name: "LEFT-TO-RIGHT EMBEDDING", aliases: &[] },
        Codepoint { codepoint: 0x202B, name: "RIGHT-TO-LEFT EMBEDDING", aliases: &[] },
        Codepoint { codepoint: 0x202C, name: "POP DIRECTIONAL FORMATTING", aliases: &[] },
        Codepoint { codepoint: 0x202D, name: "LEFT-TO-RIGHT OVERRIDE", aliases: &[] },
        Codepoint { codepoint: 0x202E, name: "RIGHT-TO-LEFT OVERRIDE", aliases: &[] },
    ];
    assert(v@ =~= codepoint_table_184());
    v
}

pub open spec fn codepoint_table_185() -> Seq<Codepoint> {
    seq![
        Codepoint { codepoint: 0x202F, name: "NARROW NO-BREAK SPACE", aliases: &[] },
        Codepoint { codepoint: 0x2030, name: "PER MILLE SIGN", aliases: &[] },
        Codepoint { codepoint: 0x2031, name: "PER TEN THOUSAND SIGN", aliases: &[] },
        Codepoint { codepoint: 0x2032, name: "PRIME", aliases: &[] },
        Codepoint { codepoint: 0x2033, name: "DOUBLE PRIME", aliases: &[] },
        Codepoint { codepoint: 0x2034, name: "TRIPLE PRIME", aliases: &[] },
        Codepoint { codepoint: 0x2035, name: "REVERSED PRIME", aliases: &[] },
        Codepoint { codepoint: 0x2036, name: "REVERSED DOUBLE PRIME", aliases: &[] },
        Codepoint { codepoint: 0x2037, name: "REVERSED TRIPLE PRIME", aliases: &[] },
        Codepoint { codepoint: 0x2038, name: "CARET", aliases: &[] },
        Codepoint { codepoint: 0x2039, name: "SINGLE LEFT-POINTING ANGLE QUOTATION MARK", aliases: &["LEFT POINTING SINGLE GUILLEMET"] },
        Codepoint { codepoint: 0x203A, name: "SINGLE RIGHT-POINTING ANGLE QUOTATION MARK", aliases: &["RIGHT POINTING SINGLE GUILLEMET"] },
        Codepoint { codepoint: 0x203B, name: "REFERENCE MARK", aliases: &[] },
        Codepoint { codepoint: 0x203C, name: "DOUBLE EXCLAMATION MARK", aliases: &[] },
        Codepoint { codepoint: 0x203D, name: "INTERROBANG", aliases: &[] },
        Codepoint { codepoint: 0x203E, name: "OVERLINE", aliases: &["SPACING OVERSCORE"] },
        Codepoint { codepoint: 0x203F, name: "UNDERTIE", aliases: &[] },
        Codepoint { codepoint: 0x2040, name: "CHARACTER TIE", aliases: &[] },
        Codepoint { codepoint: 0x2041, name: "CARET INSERTION POINT", aliases: &[] },
        Codepoint { codepoint: 0x2042, name: "ASTERISM", aliases: &[] },
        Codepoint { codepoint: 0x2043, name: "HYPHEN BULLET", aliases: &[] },
        Codepoint { codepoint: 0x2044, name: "FRACTION SLASH", aliases: &[] },
        Codepoint { codepoint: 0x2045, name: "LEFT SQUARE BRACKET WITH QUILL", aliases: &[] },
        Codepoint { codepoint: 0x2046, name: "RIGHT SQUARE BRACKET WITH QUILL", aliases: &[] },
        Codepoint { codepoint: 0x2047, name: "DOUBLE QUESTION MARK", aliases: &[] },
        Codepoint { codepoint: 0x2048, name: "QUESTION EXCLAMATION MARK", aliases: &[] },
        Codepoint { codepoint: 0x2049, name: "EXCLAMATION QUESTION MARK", aliases: &[] },
        Codepoint { codepoint: 0x204A, name: "TIRONIAN SIGN ET", aliases: &[] },
        Codepoint { codepoint: 0x204B, name: "REVERSED PILCROW SIGN", aliases: &[] },
        Codepoint { codepoint: 0x204C, name: "BLACK LEFTWARDS BULLET", aliases: &[] },
        Codepoint { codepoint: 0x204D, name: "BLACK RIGHTWARDS BULLET", aliases: &[] },
        Codepoint { codepoint: 0x204E, name: "LOW ASTERISK", aliases: &[] },
        Codepoint { codepoint: 0x204F, name: "REVERSED SEMICOLON", aliases: &[] },
        Codepoint { codepoint: 0x2050, name: "CLOSE UP", aliases: &[] },
        Codepoint { codepoint: 0x2051, name: "TWO ASTERISKS ALIGNED VERTICALLY", aliases: &[] },
        Codepoint { codepoint: 0x2052, name: "COMMERCIAL MINUS SIGN", aliases: &[] },
        Codepoint { codepoint: 0x2053, name: "SWUNG DASH", aliases: &[] },
        Codepoint { codepoint: 0x2054, name: "INVERTED UNDERTIE", aliases: &[] },
        Codepoint { codepoint: 0x2055, name: "FLOWER PUNCTUATION MARK", aliases: &[] },
        Codepoint { codepoint: 0x2056, name: "THREE DOT PUNCTUATION", aliases: &[] },
    ]
}

fn all_codepoints_185() -> (v: Vec<Codepoint>)
    ensures
        v@ == codepoint_table_185(),
{
    let v = vec![
        Codepoint { codepoint: 0x202F, name: "NARROW NO-BREAK SPACE", aliases: &[] },
        Codepoint { codepoint: 0x2030, name: "PER MILLE SIGN", aliases: &[] },
        Codepoint { codepoint: 0x2031, name: "PER TEN THOUSAND SIGN", aliases: &[] },
        Codepoint { codepoint: 0x2032, name: "PRIME", aliases: &[] },
        Codepoint { codepoint: 0x2033, name: "DOUBLE PRIME", aliases: &[] },
        Codepoint { codepoint: 0x2034, name: "TRIPLE PRIME", aliases: &[] },
        Codepoint { codepoint: 0x2035, name: "REVERSED PRIME", aliases: &[] },
        Codepoint { codepoint: 0x2036, name: "REVERSED DOUBLE PRIME", aliases: &[] },
        Codepoint { codepoint: 0x2037, name: "REVERSED TRIPLE PRIME", aliases: &[] },
        Codepoint { codepoint: 0x2038, name: "CARET", aliases: &[] },
        Codepoint { codepoint: 0x2039, name: "SINGLE LEFT-POINTING ANGLE QUOTATION MARK", aliases: &["LEFT POINTING SINGLE GUILLEMET"] },
        Codepoint { codepoint: 0x203A, name: "SINGLE RIGHT-POINTING ANGLE QUOTATION MARK", aliases: &["RIGHT POINTING SINGLE GUILLEMET"] },
        Codepoint { codepoint: 0x203B, name: "REFERENCE MARK", aliases: &[] },
        Codepoint { codepoint: 0x203C, name: "DOUBLE EXCLAMATION MARK", aliases: &[] },
        Codepoint { codepoint: 0x203D, name: "INTERROBANG", aliases: &[] },
        Codepoint { codepoint: 0x203E, name: "OVERLINE", aliases: &["SPACING OVERSCORE"] },
        Codepoint { codepoint: 0x203F, name: "UNDERTIE", aliases: &[] },
        Codepoint { codepoint: 0x2040, name: "CHARACTER TIE", aliases: &[] },
        Codepoint { codepoint: 0x2041, name: "CARET INSERTION POINT", aliases: &[] },
        Codepoint { codepoint: 0x2042, name: "ASTERISM", aliases: &[] },
        Codepoint { codepoint: 0x2043, name: "HYPHEN BULLET", aliases: &[] },
        Codepoint { codepoint: 0x2044, name: "FRACTION SLASH", aliases: &[] },
        Codepoint { codepoint: 0x2045, name: "LEFT SQUARE BRACKET WITH QUILL", aliases: &[] },
        Codepoint { codepoint: 0x2046, name: "RIGHT SQUARE BRACKET WITH QUILL", aliases: &[] },
        Codepoint { codepoint: 0x2047, name: "DOUBLE QUESTION MARK", aliases: &[] },
        Codepoint { codepoint: 0x2048, name: "QUESTION EXCLAMATION MARK", aliases: &[] },
        Codepoint { codepoint: 0x2049, name: "EXCLAMATION QUESTION MARK", aliases: &[] },
        Codepoint { codepoint: 0x204A, name: "TIRONIAN SIGN ET", aliases: &[] },
        Codepoint { codepoint: 0x204B, name: "REVERSED PILCROW SIGN", aliases: &[] },
        Codepoint { codepoint: 0x204C, name: "BLACK LEFTWARDS BULLET", aliases: &[] },
        Codepoint { codepoint: 0x204D, name: "BLACK RIGHTWARDS BULLET", aliases: &[] },
        Codepoint { codepoint: 0x204E, name: "LOW ASTERISK", aliases: &[] },
        Codepoint { codepoint: 0x204F, name: "REVERSED SEMICOLON", aliases: &[] },
        Codepoint { codepoint: 0x2050, name: "CLOSE UP", aliases: &[] },
        Codepoint { codepoint: 0x2051, name: "TWO ASTERISKS ALIGNED VERTICALLY", aliases: &[] },
        Codepoint { codepoint: 0x2052, name: "COMMERCIAL MINUS SIGN", aliases: &[] },
        Codepoint { codepoint: 0x2053, name: "SWUNG DASH", aliases: &[] },
        Codepoint { codepoint: 0x2054, name: "INVERTED UNDERTIE", aliases: &[] },
        Codepoint { codepoint: 0x2055, name: "FLOWER PUNCTUATION MARK", aliases: &[] },
        Codepoint { codepoint: 0x2056, name: "THREE DOT PUNCTUATION", aliases: &[] },
    ];
    assert(v@ =~= codepoint_table_185());
    v
}

pub open spec fn codepoint_table_186() -> Seq<Codepoint> {
    seq![
        Codepoint { codepoint: 0x2057, name: "QUADRUPLE PRIME", aliases: &[] },
        Codepoint { codepoint: 0x2058, name: "FOUR DOT PUNCTUATION", aliases: &[] },
        Codepoint { codepoint: 0x2059, name: "FIVE DOT PUNCTUATION", aliases: &[] },
        Codepoint { codepoint: 0x205A, name: "TWO DOT PUNCTUATION", aliases: &[] },
        Codepoint { codepoint: 0x205B, name: "FOUR DOT MARK", aliases: &[] },
        Codepoint { codepoint: 0x205C, name: "DOTTED CROSS", aliases: &[] },
        Codepoint { codepoint: 0x205D, name: "TRICOLON", aliases: &[] },
        Codepoint { codepoint: 0x205E, name: "VERTICAL FOUR DOTS", aliases: &[] },
        Codepoint { codepoint: 0x205F, name: "MEDIUM MATHEMATICAL SPACE", aliases: &[] },
        Codepoint { codepoint: 0x2060, name: "WORD JOINER", aliases: &[] },
        Codepoint { codepoint: 0x2061, name: "FUNCTION APPLICATION", aliases: &[] },
        Codepoint { codepoint: 0x2062, name: "INVISIBLE TIMES", aliases: &[] },
        Codepoint { codepoint: 0x2063, name: "INVISIBLE SEPARATOR", aliases: &[] },
        Codepoint { codepoint: 0x2064, name: "INVISIBLE PLUS", aliases: &[] },
        Codepoint { codepoint: 0x2066, name: "LEFT-TO-RIGHT ISOLATE", aliases: &[] },
        Codepoint { codepoint: 0x2067, name: "RIGHT-TO-LEFT ISOLATE", aliases: &[] },
        Codepoint { codepoint: 0x2068, name: "FIRST STRONG ISOLATE", aliases: &[] },
        Codepoint { codepoint: 0x2069, name: "POP DIRECTIONAL ISOLATE", aliases: &[] },
        Codepoint { codepoint: 0x206A, name: "INHIBIT SYMMETRIC SWAPPING", aliases: &[] },
        Codepoint { codepoint: 0x206B, name: "ACTIVATE SYMMETRIC SWAPPING", aliases: &[] },
        Codepoint { codepoint: 0x206C, name: "INHIBIT ARABIC FORM SHAPING", aliases: &[] },
        Codepoint { codepoint: 0x206D, name: "ACTIVATE ARABIC FORM SHAPING", aliases: &[] },
        Codepoint { codepoint: 0x206E, name: "NATIONAL DIGIT SHAPES", aliases: &[] },
        Codepoint { codepoint: 0x206F, name: "NOMINAL DIGIT SHAPES", aliases: &[] },
        Codepoint { codepoint: 0x2070, name: "SUPERSCRIPT ZERO", aliases: &["SUPERSCRIPT DIGIT ZERO"] },
        Codepoint { codepoint: 0x2071, name: "SUPERSCRIPT LATIN SMALL LETTER I", aliases: &[] },
        Codepoint { codepoint: 0x2074, name: "SUPERSCRIPT FOUR", aliases: &["SUPERSCRIPT DIGIT FOUR"] },
        Codepoint { codepoint: 0x2075, name: "SUPERSCRIPT FIVE", aliases: &["SUPERSCRIPT DIGIT FIVE"] },
        Codepoint { codepoint: 0x2076, name: "SUPERSCRIPT SIX", aliases: &["SUPERSCRIPT DIGIT SIX"] },
        Codepoint { codepoint: 0x2077, name: "SUPERSCRIPT SEVEN", aliases: &["SUPERSCRIPT DIGIT SEVEN"] },
        Codepoint { codepoint: 0x2078, name: "SUPERSCRIPT EIGHT", aliases: &["SUPERSCRIPT DIGIT EIGHT"] },
        Codepoint { codepoint: 0x2079, name: "SUPERSCRIPT NINE", aliases: &["SUPERSCRIPT DIGIT NINE"] },
        Codepoint { codepoint: 0x207A, name: "SUPERSCRIPT PLUS SIGN", aliases: &[] },
        Codepoint { codepoint: 0x207B, name: "SUPERSCRIPT MINUS", aliases: &["SUPERSCRIPT HYPHEN-MINUS"] },
        Codepoint { codepoint: 0x207C, name: "SUPERSCRIPT EQUALS SIGN", aliases: &[] },
        Codepoint { codepoint: 0x207D, name: "SUPERSCRIPT LEFT PARENTHESIS", aliases: &["SUPERSCRIPT OPENING PARENTHESIS"] },
        Codepoint { codepoint: 0x207E, name: "SUPERSCRIPT RIGHT PARENTHESIS", aliases: &["SUPERSCRIPT CLOSING PARENTHESIS"] },
        Codepoint { codepoint: 0x207F, name: "SUPERSCRIPT LATIN SMALL LETTER N", aliases: &[] },
        Codepoint { codepoint: 0x2080, name: "SUBSCRIPT ZERO", aliases: &["SUBSCRIPT DIGIT ZERO"] },
        Codepoint { codepoint: 0x2081, name: "SUBSCRIPT ONE", aliases: &["SUBSCRIPT DIGIT ONE"] },
    ]
}

fn all_codepoints_186() -> (v: Vec<Codepoint>)
    ensures
        v@ == codepoint_table_186(),
{
    let v = vec![
        Codepoint { codepoint: 0x2057, name: "QUADRUPLE PRIME", aliases: &[] },
        Codepoint { codepoint: 0x2058, name: "FOUR DOT PUNCTUATION", aliases: &[] },
        Codepoint { codepoint: 0x2059, name: "FIVE DOT PUNCTUATION", aliases: &[] },
        Codepoint { codepoint: 0x205A, name: "TWO DOT PUNCTUATION", aliases: &[] },
        Codepoint { codepoint: 0x205B, name: "FOUR DOT MARK", aliases: &[] },
        Codepoint { codepoint: 0x205C, name: "DOTTED CROSS", aliases: &[] },
        Codepoint { codepoint: 0x205D, name: "TRICOLON", aliases: &[] },
        Codepoint { codepoint: 0x205E, name: "VERTICAL FOUR DOTS", aliases: &[] },
        Codepoint { codepoint: 0x205F, name: "MEDIUM MATHEMATICAL SPACE", aliases: &[] },
        Codepoint { codepoint: 0x2060, name: "WORD JOINER", aliases: &[] },
        Codepoint { codepoint: 0x2061, name: "FUNCTION APPLICATION", aliases: &[] },
        Codepoint { codepoint: 0x2062, name: "INVISIBLE TIMES", aliases: &[] },
        Codepoint { codepoint: 0x2063, name: "INVISIBLE SEPARATOR", aliases: &[] },
        Codepoint { codepoint: 0x2064, name: "INVISIBLE PLUS", aliases: &[] },
        Codepoint { codepoint: 0x2066, name: "LEFT-TO-RIGHT ISOLATE", aliases: &[] },
        Codepoint { codepoint: 0x2067, name: "RIGHT-TO-LEFT ISOLATE", aliases: &[] },
        Codepoint { codepoint: 0x2068, name: "FIRST STRONG ISOLATE", aliases: &[] },
        Codepoint { codepoint: 0x2069, name: "POP DIRECTIONAL ISOLATE", aliases: &[] },
        Codepoint { codepoint: 0x206A, name: "INHIBIT SYMMETRIC SWAPPING", aliases: &[] },
        Codepoint { codepoint: 0x206B, name: "ACTIVATE SYMMETRIC SWAPPING", aliases: &[] },
        Codepoint { codepoint: 0x206C, name: "INHIBIT ARABIC FORM SHAPING", aliases: &[] },
        Codepoint { codepoint: 0x206D, name: "ACTIVATE ARABIC FORM SHAPING", aliases: &[] },
        Codepoint { codepoint: 0x206E, name: "NATIONAL DIGIT SHAPES", aliases: &[] },
        Codepoint { codepoint: 0x206F, name: "NOMINAL DIGIT SHAPES", aliases: &[] },
        Codepoint { codepoint: 0x2070, name: "SUPERSCRIPT ZERO", aliases: &["SUPERSCRIPT DIGIT ZERO"] },
        Codepoint { codepoint: 0x2071, name: "SUPERSCRIPT LATIN SMALL LETTER I", aliases: &[] },
        Codepoint { codepoint: 0x2074, name: "SUPERSCRIPT FOUR", aliases: &["SUPERSCRIPT DIGIT FOUR"] },
        Codepoint { codepoint: 0x2075, name: "SUPERSCRIPT FIVE", aliases: &["SUPERSCRIPT DIGIT FIVE"] },
        Codepoint { codepoint: 0x2076, name: "SUPERSCRIPT SIX", aliases: &["SUPERSCRIPT DIGIT SIX"] },
        Codepoint { codepoint: 0x2077, name: "SUPERSCRIPT SEVEN", aliases: &["SUPERSCRIPT DIGIT SEVEN"] },
        Codepoint { codepoint: 0x2078, name: "SUPERSCRIPT EIGHT", aliases: &["SUPERSCRIPT DIGIT EIGHT"] },
        Codepoint { codepoint: 0x2079, name: "SUPERSCRIPT NINE", aliases: &["SUPERSCRIPT DIGIT NINE"] },
        Codepoint { codepoint: 0x207A, name: "SUPERSCRIPT PLUS SIGN", aliases: &[] },
        Codepoint { codepoint: 0x207B, name: "SUPERSCRIPT MINUS", aliases: &["SUPERSCRIPT HYPHEN-MINUS"] },
        Codepoint { codepoint: 0x207C, name: "SUPERSCRIPT EQUALS SIGN", aliases: &[] },
        Codepoint { codepoint: 0x207D, name: "SUPERSCRIPT LEFT PARENTHESIS", aliases: &["SUPERSCRIPT OPENING PARENTHESIS"] },
        Codepoint { codepoint: 0x207E, name: "SUPERSCRIPT RIGHT PARENTHESIS", aliases: &["SUPERSCRIPT CLOSING PARENTHESIS"] },
        Codepoint { codepoint: 0x207F, name: "SUPERSCRIPT LATIN SMALL LETTER N", aliases: &[] },
        Codepoint { codepoint: 0x2080, name: "SUBSCRIPT ZERO", aliases: &["SUBSCRIPT DIGIT ZERO"] },
        Codepoint { codepoint: 0x2081, name: "SUBSCRIPT ONE", aliases: &["SUBSCRIPT DIGIT ONE"] },
    ];
    assert(v@ =~= codepoint_table_186());
    v
}

pub open spec fn codepoint_table_187() -> Seq<Codepoint> {
    seq![
        Codepoint { codepoint: 0x2082, name: "SUBSCRIPT TWO", aliases: &["SUBSCRIPT DIGIT TWO"] },
        Codepoint { codepoint: 0x2083, name: "SUBSCRIPT THREE", aliases: &["SUBSCRIPT DIGIT THREE"] },
        Codepoint { codepoint: 0x2084, name: "SUBSCRIPT FOUR", aliases: &["SUBSCRIPT DIGIT FOUR"] },
        Codepoint { codepoint: 0x2085, name: "SUBSCRIPT FIVE", aliases: &["SUBSCRIPT DIGIT FIVE"] },
        Codepoint { codepoint: 0x2086, name: "SUBSCRIPT SIX", aliases: &["SUBSCRIPT DIGIT SIX"] },
        Codepoint { codepoint: 0x2087, name: "SUBSCRIPT SEVEN", aliases: &["SUBSCRIPT DIGIT SEVEN"] },
        Codepoint { codepoint: 0x2088, name: "SUBSCRIPT EIGHT", aliases: &["SUBSCRIPT DIGIT EIGHT"] },
        Codepoint { codepoint: 0x2089, name: "SUBSCRIPT NINE", aliases: &["SUBSCRIPT DIGIT NINE"] },
        Codepoint { codepoint: 0x208A, name: "SUBSCRIPT PLUS SIGN", aliases: &[] },
        Codepoint { codepoint: 0x208B, name: "SUBSCRIPT MINUS", aliases: &["SUBSCRIPT HYPHEN-MINUS"] },
        Codepoint { codepoint: 0x208C, name: "SUBSCRIPT EQUALS SIGN", aliases: &[] },
        Codepoint { codepoint: 0x208D, name: "SUBSCRIPT LEFT PARENTHESIS", aliases: &["SUBSCRIPT OPENING PARENTHESIS"] },
        Codepoint { codepoint: 0x208E, name: "SUBSCRIPT RIGHT PARENTHESIS", aliases: &["SUBSCRIPT CLOSING PARENTHESIS"] },
        Codepoint { codepoint: 0x2090, name: "LATIN SUBSCRIPT SMALL LETTER A", aliases: &[] },
        Codepoint { codepoint: 0x2091, name: "LATIN SUBSCRIPT SMALL LETTER E", aliases: &[] },
        Codepoint { codepoint: 0x2092, name: "LATIN SUBSCRIPT SMALL LETTER O", aliases: &[] },
        Codepoint { codepoint: 0x2093, name: "LATIN SUBSCRIPT SMALL LETTER X", aliases: &[] },
        Codepoint { codepoint: 0x2094, name: "LATIN SUBSCRIPT SMALL LETTER SCHWA", aliases: &[] },
        Codepoint { codepoint: 0x2095, name: "LATIN SUBSCRIPT SMALL LETTER H", aliases: &[] },
        Codepoint { codepoint: 0x2096, name: "LATIN SUBSCRIPT SMALL LETTER K", aliases: &[] },
        Codepoint { codepoint: 0x2097, name: "LATIN SUBSCRIPT SMALL LETTER L", aliases: &[] },
        Codepoint { codepoint: 0x2098, name: "LATIN SUBSCRIPT SMALL LETTER M", aliases: &[] },
        Codepoint { codepoint: 0x2099, name: "LATIN SUBSCRIPT SMALL LETTER N", aliases: &[] },
        Codepoint { codepoint: 0x209A, name: "LATIN SUBSCRIPT SMALL LETTER P", aliases: &[] },
        Codepoint { codepoint: 0x209B, name: "LATIN SUBSCRIPT SMALL LETTER S", aliases: &[] },
        Codepoint { codepoint: 0x209C, name: "LATIN SUBSCRIPT SMALL LETTER T", aliases: &[] },
        Codepoint { codepoint: 0x20A0, name: "EURO-CURRENCY SIGN", aliases: &[] },
        Codepoint { codepoint: 0x20A1, name: "COLON SIGN", aliases: &[] },
        Codepoint { codepoint: 0x20A2, name: "CRUZEIRO SIGN", aliases: &[] },
        Codepoint { codepoint: 0x20A3, name: "FRENCH FRANC SIGN", aliases: &[] },
        Codepoint { codepoint: 0x20A4, name: "LIRA SIGN", aliases: &[] },
        Codepoint { codepoint: 0x20A5, name: "MILL SIGN", aliases: &[] },
        Codepoint { codepoint: 0x20A6, name: "NAIRA SIGN", aliases: &[] },
        Codepoint { codepoint: 0x20A7, name: "PESETA SIGN", aliases: &[] },
        Codepoint { codepoint: 0x20A8, name: "RUPEE SIGN", aliases: &[] },
        Codepoint { codepoint: 0x20A9, name: "WON SIGN", aliases: &[] },
        Codepoint { codepoint: 0x20AA, name: "NEW SHEQEL SIGN", aliases: &[] },
        Codepoint { codepoint: 0x20AB, name: "DONG SIGN", aliases: &[] },
        Codepoint { codepoint: 0x20AC, name: "EURO SIGN", aliases: &[] },
        Codepoint { codepoint: 0x20AD, name: "KIP SIGN", aliases: &[] },
    ]
}

fn all_codepoints_187() -> (v: Vec<Codepoint>)
    ensures
        v@ == codepoint_table_187(),
{
    let v = vec![
        Codepoint { codepoint: 0x2082, name: "SUBSCRIPT TWO", aliases: &["SUBSCRIPT DIGIT TWO"] },
        Codepoint { codepoint: 0x2083, name: "SUBSCRIPT THREE", aliases: &["SUBSCRIPT DIGIT THREE"] },
        Codepoint { codepoint: 0x2084, name: "SUBSCRIPT FOUR", aliases: &["SUBSCRIPT DIGIT FOUR"] },
        Codepoint { codepoint: 0x2085, name: "SUBSCRIPT FIVE", aliases: &["SUBSCRIPT DIGIT FIVE"] },
        Codepoint { codepoint: 0x2086, name: "SUBSCRIPT SIX", aliases: &["SUBSCRIPT DIGIT SIX"] },
        Codepoint { codepoint: 0x2087, name: "SUBSCRIPT SEVEN", aliases: &["SUBSCRIPT DIGIT SEVEN"] },
        Codepoint { codepoint: 0x2088, name: "SUBSCRIPT EIGHT", aliases: &["SUBSCRIPT DIGIT EIGHT"] },
        Codepoint { codepoint: 0x2089, name: "SUBSCRIPT NINE", aliases: &["SUBSCRIPT DIGIT NINE"] },
        Codepoint { codepoint: 0x208A, name: "SUBSCRIPT PLUS SIGN", aliases: &[] },
        Codepoint { codepoint: 0x208B, name: "SUBSCRIPT MINUS", aliases: &["SUBSCRIPT HYPHEN-MINUS"] },
        Codepoint { codepoint: 0x208C, name: "SUBSCRIPT EQUALS SIGN", aliases: &[] },
        Codepoint { codepoint: 0x208D, name: "SUBSCRIPT LEFT PARENTHESIS", aliases: &["SUBSCRIPT OPENING PARENTHESIS"] },
        Codepoint { codepoint: 0x208E, name: "SUBSCRIPT RIGHT PARENTHESIS", aliases: &["SUBSCRIPT CLOSING PARENTHESIS"] },
        Codepoint { codepoint: 0x2090, name: "LATIN SUBSCRIPT SMALL LETTER A", aliases: &[] },
        Codepoint { codepoint: 0x2091, name: "LATIN SUBSCRIPT SMALL LETTER E", aliases: &[] },
        Codepoint { codepoint: 0x2092, name: "LATIN SUBSCRIPT SMALL LETTER O", aliases: &[] },
        Codepoint { codepoint: 0x2093, name: "LATIN SUBSCRIPT SMALL LETTER X", aliases: &[] },
        Codepoint { codepoint: 0x2094, name: "LATIN SUBSCRIPT SMALL LETTER SCHWA", aliases: &[] },
        Codepoint { codepoint: 0x2095, name: "LATIN SUBSCRIPT SMALL LETTER H", aliases: &[] },
        Codepoint { codepoint: 0x2096, name: "LATIN SUBSCRIPT SMALL LETTER K", aliases: &[] },
        Codepoint { codepoint: 0x2097, name: "LATIN SUBSCRIPT SMALL LETTER L", aliases: &[] },
        Codepoint { codepoint: 0x2098, name: "LATIN SUBSCRIPT SMALL LETTER M", aliases: &[] },
        Codepoint { codepoint: 0x2099, name: "LATIN SUBSCRIPT SMALL LETTER N", aliases: &[] },
        Codepoint { codepoint: 0x209A, name: "LATIN SUBSCRIPT SMALL LETTER P", aliases: &[] },
        Codepoint { codepoint: 0x209B, name: "LATIN SUBSCRIPT SMALL LETTER S", aliases: &[] },
        Codepoint { codepoint: 0x209C, name: "LATIN SUBSCRIPT SMALL LETTER T", aliases: &[] },
        Codepoint { codepoint: 0x20A0, name: "EURO-CURRENCY SIGN", aliases: &[] },
        Codepoint { codepoint: 0x20A1, name: "COLON SIGN", aliases: &[] },
        Codepoint { codepoint: 0x20A2, name: "CRUZEIRO SIGN", aliases: &[] },
        Codepoint { codepoint: 0x20A3, name: "FRENCH FRANC SIGN", aliases: &[] },
        Codepoint { codepoint: 0x20A4, name: "LIRA SIGN", aliases: &[] },
        Codepoint { codepoint: 0x20A5, name: "MILL SIGN", aliases: &[] },
        Codepoint { codepoint: 0x20A6, name: "NAIRA SIGN", aliases: &[] },
        Codepoint { codepoint: 0x20A7, name: "PESETA SIGN", aliases: &[] },
        Codepoint { codepoint: 0x20A8, name: "RUPEE SIGN", aliases: &[] },
        Codepoint { codepoint: 0x20A9, name: "WON SIGN", aliases: &[] },
        Codepoint { codepoint: 0x20AA, name: "NEW SHEQEL SIGN", aliases: &[] },
        Codepoint { codepoint: 0x20AB, name: "DONG SIGN", aliases: &[] },
        Codepoint { codepoint: 0x20AC, name: "EURO SIGN", aliases: &[] },
        Codepoint { codepoint: 0x20AD, name: "KIP SIGN", aliases: &[] },
    ];
    assert(v@ =~= codepoint_table_187());
    v
}

pub open spec fn codepoint_table_188() -> Seq<Codepoint> {
    seq![
        Codepoint { codepoint: 0x20AE, name: "TUGRIK SIGN", aliases: &[] },
        Codepoint { codepoint: 0x20AF, name: "DRACHMA SIGN", aliases: &[] },
        Codepoint { codepoint: 0x20B0, name: "GERMAN PENNY SIGN", aliases: &[] },
        Codepoint { codepoint: 0x20B1, name: "PESO SIGN", aliases: &[] },
        Codepoint { codepoint: 0x20B2, name: "GUARANI SIGN", aliases: &[] },
        Codepoint { codepoint: 0x20B3, name: "AUSTRAL SIGN", aliases: &[] },
        Codepoint { codepoint: 0x20B4, name: "HRYVNIA SIGN", aliases: &[] },
        Codepoint { codepoint: 0x20B5, name: "CEDI SIGN", aliases: &[] },
        Codepoint { codepoint: 0x20B6, name: "LIVRE TOURNOIS SIGN", aliases: &[] },
        Codepoint { codepoint: 0x20B7, name: "SPESMILO SIGN", aliases: &[] },
        Codepoint { codepoint: 0x20B8, name: "TENGE SIGN", aliases: &[] },
        Codepoint { codepoint: 0x20B9, name: "INDIAN RUPEE SIGN", aliases: &[] },
        Codepoint { codepoint: 0x20BA, name: "TURKISH LIRA SIGN", aliases: &[] },
        Codepoint { codepoint: 0x20BB, name: "NORDIC MARK SIGN", aliases: &[] },
        Codepoint { codepoint: 0x20BC, name: "MANAT SIGN", aliases: &[] },
        Codepoint { codepoint: 0x20BD, name: "RUBLE SIGN", aliases: &[] },
        Codepoint { codepoint: 0x20BE, name: "LARI SIGN", aliases: &[] },
        Codepoint { codepoint: 0x20BF, name: "BITCOIN SIGN", aliases: &[] },
        Codepoint { codepoint: 0x20C0, name: "SOM SIGN", aliases: &[] },
        Codepoint { codepoint: 0x20D0, name: "COMBINING LEFT HARPOON ABOVE", aliases: &["NON-SPACING LEFT HARPOON ABOVE"] },
        Codepoint { codepoint: 0x20D1, name: "COMBINING RIGHT HARPOON ABOVE", aliases: &["NON-SPACING RIGHT HARPOON ABOVE"] },
        Codepoint { codepoint: 0x20D2, name: "COMBINING LONG VERTICAL LINE OVERLAY", aliases: &["NON-SPACING LONG VERTICAL BAR OVERLAY"] },
        Codepoint { codepoint: 0x20D3, name: "COMBINING SHORT VERTICAL LINE OVERLAY", aliases: &["NON-SPACING SHORT VERTICAL BAR OVERLAY"] },
        Codepoint { codepoint: 0x20D4, name: "COMBINING ANTICLOCKWISE ARROW ABOVE", aliases: &["NON-SPACING ANTICLOCKWISE ARROW ABOVE"] },
        Codepoint { codepoint: 0x20D5, name: "COMBINING CLOCKWISE ARROW ABOVE", aliases: &["NON-SPACING CLOCKWISE ARROW ABOVE"] },
        Codepoint { codepoint: 0x20D6, name: "COMBINING LEFT ARROW ABOVE", aliases: &["NON-SPACING LEFT ARROW ABOVE"] },
        Codepoint { codepoint: 0x20D7, name: "COMBINING RIGHT ARROW ABOVE", aliases: &["NON-SPACING RIGHT ARROW ABOVE"] },
        Codepoint { codepoint: 0x20D8, name: "COMBINING RING OVERLAY", aliases: &["NON-SPACING RING OVERLAY"] },
        Codepoint { codepoint: 0x20D9, name: "COMBINING CLOCKWISE RING OVERLAY", aliases: &["NON-SPACING CLOCKWISE RING OVERLAY"] },
        Codepoint { codepoint: 0x20DA, name: "COMBINING ANTICLOCKWISE RING OVERLAY", aliases: &["NON-SPACING ANTICLOCKWISE RING OVERLAY"] },
        Codepoint { codepoint: 0x20DB, name: "COMBINING THREE DOTS ABOVE", aliases: &["NON-SPACING THREE DOTS ABOVE"] },
        Codepoint { codepoint: 0x20DC, name: "COMBINING FOUR DOTS ABOVE", aliases: &["NON-SPACING FOUR DOTS ABOVE"] },
        Codepoint { codepoint: 0x20DD, name: "COMBINING ENCLOSING CIRCLE", aliases: &["ENCLOSING CIRCLE"] },
        Codepoint { codepoint: 0x20DE, name: "COMBINING ENCLOSING SQUARE", aliases: &["ENCLOSING SQUARE"] },
        Codepoint { codepoint: 0x20DF, name: "COMBINING ENCLOSING DIAMOND", aliases: &["ENCLOSING DIAMOND"] },
        Codepoint { codepoint: 0x20E0, name: "COMBINING ENCLOSING CIRCLE BACKSLASH", aliases: &["ENCLOSING CIRCLE SLASH"] },
        Codepoint { codepoint: 0x20E1, name: "COMBINING LEFT RIGHT ARROW ABOVE", aliases: &["NON-SPACING LEFT RIGHT ARROW ABOVE"] },
        Codepoint { codepoint: 0x20E2, name: "COMBINING ENCLOSING SCREEN", aliases: &[] },
        Codepoint { codepoint: 0x20E3, name: "COMBINING ENCLOSING KEYCAP", aliases: &[] },
        Codepoint { codepoint: 0x20E4, name: "COMBINING ENCLOSING UPWARD POINTING TRIANGLE", aliases: &[] },
    ]
}

fn all_codepoints_188() -> (v: Vec<Codepoint>)
    ensures
        v@ == codepoint_table_188(),
{
    let v = vec![
        Codepoint { codepoint: 0x20AE, name: "TUGRIK SIGN", aliases: &[] },
        Codepoint { codepoint: 0x20AF, name: "DRACHMA SIGN", aliases: &[] },
        Codepoint { codepoint: 0x20B0, name: "GERMAN PENNY SIGN", aliases: &[] },
        Codepoint { codepoint: 0x20B1, name: "PESO SIGN", aliases: &[] },
        Codepoint { codepoint: 0x20B2, name: "GUARANI SIGN", aliases: &[] },
        Codepoint { codepoint: 0x20B3, name: "AUSTRAL SIGN", aliases: &[] },
        Codepoint { codepoint: 0x20B4, name: "HRYVNIA SIGN", aliases: &[] },
        Codepoint { codepoint: 0x20B5, name: "CEDI SIGN", aliases: &[] },
        Codepoint { codepoint: 0x20B6, name: "LIVRE TOURNOIS SIGN", aliases: &[] },
        Codepoint { codepoint: 0x20B7, name: "SPESMILO SIGN", aliases: &[] },
        Codepoint { codepoint: 0x20B8, name: "TENGE SIGN", aliases: &[] },
        Codepoint { codepoint: 0x20B9, name: "INDIAN RUPEE SIGN", aliases: &[] },
        Codepoint { codepoint: 0x20BA, name: "TURKISH LIRA SIGN", aliases: &[] },
        Codepoint { codepoint: 0x20BB, name: "NORDIC MARK SIGN", aliases: &[] },
        Codepoint { codepoint: 0x20BC, name: "MANAT SIGN", aliases: &[] },
        Codepoint { codepoint: 0x20BD, name: "RUBLE SIGN", aliases: &[] },
        Codepoint { codepoint: 0x20BE, name: "LARI SIGN", aliases: &[] },
        Codepoint { codepoint: 0x20BF, name: "BITCOIN SIGN", aliases: &[] },
        Codepoint { codepoint: 0x20C0, name: "SOM SIGN", aliases: &[] },
        Codepoint { codepoint: 0x20D0, name: "COMBINING LEFT HARPOON ABOVE", aliases: &["NON-SPACING LEFT HARPOON ABOVE"] },
        Codepoint { codepoint: 0x20D1, name: "COMBINING RIGHT HARPOON ABOVE", aliases: &["NON-SPACING RIGHT HARPOON ABOVE"] },
        Codepoint { codepoint: 0x20D2, name: "COMBINING LONG VERTICAL LINE OVERLAY", aliases: &["NON-SPACING LONG VERTICAL BAR OVERLAY"] },
        Codepoint { codepoint: 0x20D3, name: "COMBINING SHORT VERTICAL LINE OVERLAY", aliases: &["NON-SPACING SHORT VERTICAL BAR OVERLAY"] },
        Codepoint { codepoint: 0x20D4, name: "COMBINING ANTICLOCKWISE ARROW ABOVE", aliases: &["NON-SPACING ANTICLOCKWISE ARROW ABOVE"] },
        Codepoint { codepoint: 0x20D5, name: "COMBINING CLOCKWISE ARROW ABOVE", aliases: &["NON-SPACING CLOCKWISE ARROW ABOVE"] },
        Codepoint { codepoint: 0x20D6, name: "COMBINING LEFT ARROW ABOVE", aliases: &["NON-SPACING LEFT ARROW ABOVE"] },
        Codepoint { codepoint: 0x20D7, name: "COMBINING RIGHT ARROW ABOVE", aliases: &["NON-SPACING RIGHT ARROW ABOVE"] },
        Codepoint { codepoint: 0x20D8, name: "COMBINING RING OVERLAY", aliases: &["NON-SPACING RING OVERLAY"] },
        Codepoint { codepoint: 0x20D9, name: "COMBINING CLOCKWISE RING OVERLAY", aliases: &["NON-SPACING CLOCKWISE RING OVERLAY"] },
        Codepoint { codepoint: 0x20DA, name: "COMBINING ANTICLOCKWISE RING OVERLAY", aliases: &["NON-SPACING ANTICLOCKWISE RING OVERLAY"] },
        Codepoint { codepoint: 0x20DB, name: "COMBINING THREE DOTS ABOVE", aliases: &["NON-SPACING THREE DOTS ABOVE"] },
        Codepoint { codepoint: 0x20DC, name: "COMBINING FOUR DOTS ABOVE", aliases: &["NON-SPACING FOUR DOTS ABOVE"] },
        Codepoint { codepoint: 0x20DD, name: "COMBINING ENCLOSING CIRCLE", aliases: &["ENCLOSING CIRCLE"] },
        Codepoint { codepoint: 0x20DE, name: "COMBINING ENCLOSING SQUARE", aliases: &["ENCLOSING SQUARE"] },
        Codepoint { codepoint: 0x20DF, name: "COMBINING ENCLOSING DIAMOND", aliases: &["ENCLOSING DIAMOND"] },
        Codepoint { codepoint: 0x20E0, name: "COMBINING ENCLOSING CIRCLE BACKSLASH", aliases: &["ENCLOSING CIRCLE SLASH"] },
        Codepoint { codepoint: 0x20E1, name: "COMBINING LEFT RIGHT ARROW ABOVE", aliases: &["NON-SPACING LEFT RIGHT ARROW ABOVE"] },
        Codepoint { codepoint: 0x20E2, name: "COMBINING ENCLOSING SCREEN", aliases: &[] },
        Codepoint { codepoint: 0x20E3, name: "COMBINING ENCLOSING KEYCAP", aliases: &[] },
        Codepoint { codepoint: 0x20E4, name: "COMBINING ENCLOSING UPWARD POINTING TRIANGLE", aliases: &[] },
    ];
    assert(v@ =~= codepoint_table_188());
    v
}

pub open spec fn codepoint_table_189() -> Seq<Codepoint> {
    seq![
        Codepoint { codepoint: 0x20E5, name: "COMBINING REVERSE SOLIDUS OVERLAY", aliases: &[] },
        Codepoint { codepoint: 0x20E6, name: "COMBINING DOUBLE VERTICAL STROKE OVERLAY", aliases: &[] },
        Codepoint { codepoint: 0x20E7, name: "COMBINING ANNUITY SYMBOL", aliases: &[] },
        Codepoint { codepoint: 0x20E8, name: "COMBINING TRIPLE UNDERDOT", aliases: &[] },
        Codepoint { codepoint: 0x20E9, name: "COMBINING WIDE BRIDGE ABOVE", aliases: &[] },
        Codepoint { codepoint: 0x20EA, name: "COMBINING LEFTWARDS ARROW OVERLAY", aliases: &[] },
        Codepoint { codepoint: 0x20EB, name: "COMBINING LONG DOUBLE SOLIDUS OVERLAY", aliases: &[] },
        Codepoint { codepoint: 0x20EC, name: "COMBINING RIGHTWARDS HARPOON WITH BARB DOWNWARDS", aliases: &[] },
        Codepoint { codepoint: 0x20ED, name: "COMBINING LEFTWARDS HARPOON WITH BARB DOWNWARDS", aliases: &[] },
        Codepoint { codepoint: 0x20EE, name: "COMBINING LEFT ARROW BELOW", aliases: &[] },
        Codepoint { codepoint: 0x20EF, name: "COMBINING RIGHT ARROW BELOW", aliases: &[] },
        Codepoint { codepoint: 0x20F0, name: "COMBINING ASTERISK ABOVE", aliases: &[] },
        Codepoint { codepoint: 0x2100, name: "ACCOUNT OF", aliases: &[] },
        Codepoint { codepoint: 0x2101, name: "ADDRESSED TO THE SUBJECT", aliases: &[] },
        Codepoint { codepoint: 0x2102, name: "DOUBLE-STRUCK CAPITAL C", aliases: &["DOUBLE-STRUCK C"] },
        Codepoint { codepoint: 0x2103, name: "DEGREE CELSIUS", aliases: &["DEGREES CENTIGRADE"] },
        Codepoint { codepoint: 0x2104, name: "CENTRE LINE SYMBOL", aliases: &["C L SYMBOL"] },
        Codepoint { codepoint: 0x2105, name: "CARE OF", aliases: &[] },
        Codepoint { codepoint: 0x2106, name: "CADA UNA", aliases: &[] },
        Codepoint { codepoint: 0x2107, name: "EULER CONSTANT", aliases: &["EULERS"] },
        Codepoint { codepoint: 0x2108, name: "SCRUPLE", aliases: &[] },
        Codepoint { codepoint: 0x2109, name: "DEGREE FAHRENHEIT", aliases: &["DEGREES FAHRENHEIT"] },
        Codepoint { codepoint: 0x210A, name: "SCRIPT SMALL G", aliases: &[] },
        Codepoint { codepoint: 0x210B, name: "SCRIPT CAPITAL H", aliases: &["SCRIPT H"] },
        Codepoint { codepoint: 0x210C, name: "BLACK-LETTER CAPITAL H", aliases: &["BLACK-LETTER H"] },
        Codepoint { codepoint: 0x210D, name: "DOUBLE-STRUCK CAPITAL H", aliases: &["DOUBLE-STRUCK H"] },
        Codepoint { codepoint: 0x210E, name: "PLANCK CONSTANT", aliases: &[] },
        Codepoint { codepoint: 0x210F, name: "PLANCK CONSTANT OVER TWO PI", aliases: &["PLANCK CONSTANT OVER 2 PI"] },
        Codepoint { codepoint: 0x2110, name: "SCRIPT CAPITAL I", aliases: &["SCRIPT I"] },
        Codepoint { codepoint: 0x2111, name: "BLACK-LETTER CAPITAL I", aliases: &["BLACK-LETTER I"] },
        Codepoint { codepoint: 0x2112, name: "SCRIPT CAPITAL L", aliases: &["SCRIPT L"] },
        Codepoint { codepoint: 0x2113, name: "SCRIPT SMALL L", aliases: &[] },
        Codepoint { codepoint: 0x2114, name: "L B BAR SYMBOL", aliases: &[] },
        Codepoint { codepoint: 0x2115, name: "DOUBLE-STRUCK CAPITAL N", aliases: &["DOUBLE-STRUCK N"] },
        Codepoint { codepoint: 0x2116, name: "NUMERO SIGN", aliases: &["NUMERO"] },
        Codepoint { codepoint: 0x2117, name: "SOUND RECORDING COPYRIGHT", aliases: &[] },
        Codepoint { codepoint: 0x2118, name: "SCRIPT CAPITAL P", aliases: &["SCRIPT P"] },
        Codepoint { codepoint: 0x2119, name: "DOUBLE-STRUCK CAPITAL P", aliases: &["DOUBLE-STRUCK P"] },
        Codepoint { codepoint: 0x211A, name: "DOUBLE-STRUCK CAPITAL Q", aliases: &["DOUBLE-STRUCK Q"] },
        Codepoint { codepoint: 0x211B, name: "SCRIPT CAPITAL R", aliases: &["SCRIPT R"] },
    ]
}

fn all_codepoints_189() -> (v: Vec<Codepoint>)
    ensures
        v@ == codepoint_table_189(),
{
    let v = vec![
        Codepoint { codepoint: 0x20E5, name: "COMBINING REVERSE SOLIDUS OVERLAY", aliases: &[] },
        Codepoint { codepoint: 0x20E6, name: "COMBINING DOUBLE VERTICAL STROKE OVERLAY", aliases: &[] },
        Codepoint { codepoint: 0x20E7, name: "COMBINING ANNUITY SYMBOL", aliases: &[] },
        Codepoint { codepoint: 0x20E8, name: "COMBINING TRIPLE UNDERDOT", aliases: &[] },
        Codepoint { codepoint: 0x20E9, name: "COMBINING WIDE BRIDGE ABOVE", aliases: &[] },
        Codepoint { codepoint: 0x20EA, name: "COMBINING LEFTWARDS ARROW OVERLAY", aliases: &[] },
        Codepoint { codepoint: 0x20EB, name: "COMBINING LONG DOUBLE SOLIDUS OVERLAY", aliases: &[] },
        Codepoint { codepoint: 0x20EC, name: "COMBINING RIGHTWARDS HARPOON WITH BARB DOWNWARDS", aliases: &[] },
        Codepoint { codepoint: 0x20ED, name: "COMBINING LEFTWARDS HARPOON WITH BARB DOWNWARDS", aliases: &[] },
        Codepoint { codepoint: 0x20EE, name: "COMBINING LEFT ARROW BELOW", aliases: &[] },
        Codepoint { codepoint: 0x20EF, name: "COMBINING RIGHT ARROW BELOW", aliases: &[] },
        Codepoint { codepoint: 0x20F0, name: "COMBINING ASTERISK ABOVE", aliases: &[] },
        Codepoint { codepoint: 0x2100, name: "ACCOUNT OF", aliases: &[] },
        Codepoint { codepoint: 0x2101, name: "ADDRESSED TO THE SUBJECT", aliases: &[] },
        Codepoint { codepoint: 0x2102, name: "DOUBLE-STRUCK CAPITAL C", aliases: &["DOUBLE-STRUCK C"] },
        Codepoint { codepoint: 0x2103, name: "DEGREE CELSIUS", aliases: &["DEGREES CENTIGRADE"] },
        Codepoint { codepoint: 0x2104, name: "CENTRE LINE SYMBOL", aliases: &["C L SYMBOL"] },
        Codepoint { codepoint: 0x2105, name: "CARE OF", aliases: &[] },
        Codepoint { codepoint: 0x2106, name: "CADA UNA", aliases: &[] },
        Codepoint { codepoint: 0x2107, name: "EULER CONSTANT", aliases: &["EULERS"] },
        Codepoint { codepoint: 0x2108, name: "SCRUPLE", aliases: &[] },
        Codepoint { codepoint: 0x2109, name: "DEGREE FAHRENHEIT", aliases: &["DEGREES FAHRENHEIT"] },
        Codepoint { codepoint: 0x210A, name: "SCRIPT SMALL G", aliases: &[] },
        Codepoint { codepoint: 0x210B, name: "SCRIPT CAPITAL H", aliases: &["SCRIPT H"] },
        Codepoint { codepoint: 0x210C, name: "BLACK-LETTER CAPITAL H", aliases: &["BLACK-LETTER H"] },
        Codepoint { codepoint: 0x210D, name: "DOUBLE-STRUCK CAPITAL H", aliases: &["DOUBLE-STRUCK H"] },
        Codepoint { codepoint: 0x210E, name: "PLANCK CONSTANT", aliases: &[] },
        Codepoint { codepoint: 0x210F, name: "PLANCK CONSTANT OVER TWO PI", aliases: &["PLANCK CONSTANT OVER 2 PI"] },
        Codepoint { codepoint: 0x2110, name: "SCRIPT CAPITAL I", aliases: &["SCRIPT I"] },
        Codepoint { codepoint: 0x2111, name: "BLACK-LETTER CAPITAL I", aliases: &["BLACK-LETTER I"] },
        Codepoint { codepoint: 0x2112, name: "SCRIPT CAPITAL L", aliases: &["SCRIPT L"] },
        Codepoint { codepoint: 0x2113, name: "SCRIPT SMALL L", aliases: &[] },
        Codepoint { codepoint: 0x2114, name: "L B BAR SYMBOL", aliases: &[] },
        Codepoint { codepoint: 0x2115, name: "DOUBLE-STRUCK CAPITAL N", aliases: &["DOUBLE-STRUCK N"] },
        Codepoint { codepoint: 0x2116, name: "NUMERO SIGN", aliases: &["NUMERO"] },
        Codepoint { codepoint: 0x2117, name: "SOUND RECORDING COPYRIGHT", aliases: &[] },
        Codepoint { codepoint: 0x2118, name: "SCRIPT CAPITAL P", aliases: &["SCRIPT P"] },
        Codepoint { codepoint: 0x2119, name: "DOUBLE-STRUCK CAPITAL P", aliases: &["DOUBLE-STRUCK P"] },
        Codepoint { codepoint: 0x211A, name: "DOUBLE-STRUCK CAPITAL Q", aliases: &["DOUBLE-STRUCK Q"] },
        Codepoint { codepoint: 0x211B, name: "SCRIPT CAPITAL R", aliases: &["SCRIPT R"] },
    ];
    assert(v@ =~= codepoint_table_189());
    v
}

pub open spec fn codepoint_table_190() -> Seq<Codepoint> {
    seq![
        Codepoint { codepoint: 0x211C, name: "BLACK-LETTER CAPITAL R", aliases: &["BLACK-LETTER R"] },
        Codepoint { codepoint: 0x211D, name: "DOUBLE-STRUCK CAPITAL R", aliases: &["DOUBLE-STRUCK R"] },
        Codepoint { codepoint: 0x211E, name: "PRESCRIPTION TAKE", aliases: &[] },
        Codepoint { codepoint: 0x211F, name: "RESPONSE", aliases: &[] },
        Codepoint { codepoint: 0x2120, name: "SERVICE MARK", aliases: &[] },
        Codepoint { codepoint: 0x2121, name: "TELEPHONE SIGN", aliases: &["T E L SYMBOL"] },
        Codepoint { codepoint: 0x2122, name: "TRADE MARK SIGN", aliases: &["TRADEMARK"] },
        Codepoint { codepoint: 0x2123, name: "VERSICLE", aliases: &[] },
        Codepoint { codepoint: 0x2124, name: "DOUBLE-STRUCK CAPITAL Z", aliases: &["DOUBLE-STRUCK Z"] },
        Codepoint { codepoint: 0x2125, name: "OUNCE SIGN", aliases: &["OUNCE"] },
        Codepoint { codepoint: 0x2126, name: "OHM SIGN", aliases: &["OHM"] },
        Codepoint { codepoint: 0x2127, name: "INVERTED OHM SIGN", aliases: &["MHO"] },
        Codepoint { codepoint: 0x2128, name: "BLACK-LETTER CAPITAL Z", aliases: &["BLACK-LETTER Z"] },
        Codepoint { codepoint: 0x2129, name: "TURNED GREEK SMALL LETTER IOTA", aliases: &[] },
        Codepoint { codepoint: 0x212A, name: "KELVIN SIGN", aliases: &["DEGREES KELVIN"] },
        Codepoint { codepoint: 0x212B, name: "ANGSTROM SIGN", aliases: &["ANGSTROM UNIT"] },
        Codepoint { codepoint: 0x212C, name: "SCRIPT CAPITAL B", aliases: &["SCRIPT B"] },
        Codepoint { codepoint: 0x212D, name: "BLACK-LETTER CAPITAL C", aliases: &["BLACK-LETTER C"] },
        Codepoint { codepoint: 0x212E, name: "ESTIMATED SYMBOL", aliases: &[] },
        Codepoint { codepoint: 0x212F, name: "SCRIPT SMALL E", aliases: &[] },
        Codepoint { codepoint: 0x2130, name: "SCRIPT CAPITAL E", aliases: &["SCRIPT E"] },
        Codepoint { codepoint: 0x2131, name: "SCRIPT CAPITAL F", aliases: &["SCRIPT F"] },
        Codepoint { codepoint: 0x2132, name: "TURNED CAPITAL F", aliases: &["TURNED F"] },
        Codepoint { codepoint: 0x2133, name: "SCRIPT CAPITAL M", aliases: &["SCRIPT M"] },
        Codepoint { codepoint: 0x2134, name: "SCRIPT SMALL O", aliases: &[] },
        Codepoint { codepoint: 0x2135, name: "ALEF SYMBOL", aliases: &["FIRST TRANSFINITE CARDINAL"] },
        Codepoint { codepoint: 0x2136, name: "BET SYMBOL", aliases: &["SECOND TRANSFINITE CARDINAL"] },
        Codepoint { codepoint: 0x2137, name: "GIMEL SYMBOL", aliases: &["THIRD TRANSFINITE CARDINAL"] },
        Codepoint { codepoint: 0x2138, name: "DALET SYMBOL", aliases: &["FOURTH TRANSFINITE CARDINAL"] },
        Codepoint { codepoint: 0x2139, name: "INFORMATION SOURCE", aliases: &[] },
        Codepoint { codepoint: 0x213A, name: "ROTATED CAPITAL Q", aliases: &[] },
        Codepoint { codepoint: 0x213B, name: "FACSIMILE SIGN", aliases: &[] },
        Codepoint { codepoint: 0x213C, name: "DOUBLE-STRUCK SMALL PI", aliases: &[] },
        Codepoint { codepoint: 0x213D, name: "DOUBLE-STRUCK SMALL GAMMA", aliases: &[] },
        Codepoint { codepoint: 0x213E, name: "DOUBLE-STRUCK CAPITAL GAMMA", aliases: &[] },
        Codepoint { codepoint: 0x213F, name: "DOUBLE-STRUCK CAPITAL PI", aliases: &[] },
        Codepoint { codepoint: 0x2140, name: "DOUBLE-STRUCK N-ARY SUMMATION", aliases: &[] },
        Codepoint { codepoint: 0x2141, name: "TURNED SANS-SERIF CAPITAL G", aliases: &[] },
        Codepoint { codepoint: 0x2142, name: "TURNED SANS-SERIF CAPITAL L", aliases: &[] },
        Codepoint { codepoint: 0x2143, name: "REVERSED SANS-SERIF CAPITAL L", aliases: &[] },
    ]
}

fn all_codepoints_190() -> (v: Vec<Codepoint>)
    ensures
        v@ == codepoint_table_190(),
{
    let v = vec![
        Codepoint { codepoint: 0x211C, name: "BLACK-LETTER CAPITAL R", aliases: &["BLACK-LETTER R"] },
        Codepoint { codepoint: 0x211D, name: "DOUBLE-STRUCK CAPITAL R", aliases: &["DOUBLE-STRUCK R"] },
        Codepoint { codepoint: 0x211E, name: "PRESCRIPTION TAKE", aliases: &[] },
        Codepoint { codepoint: 0x211F, name: "RESPONSE", aliases: &[] },
        Codepoint { codepoint: 0x2120, name: "SERVICE MARK", aliases: &[] },
        Codepoint { codepoint: 0x2121, name: "TELEPHONE SIGN", aliases: &["T E L SYMBOL"] },
        Codepoint { codepoint: 0x2122, name: "TRADE MARK SIGN", aliases: &["TRADEMARK"] },
        Codepoint { codepoint: 0x2123, name: "VERSICLE", aliases: &[] },
        Codepoint { codepoint: 0x2124, name: "DOUBLE-STRUCK CAPITAL Z", aliases: &["DOUBLE-STRUCK Z"] },
        Codepoint { codepoint: 0x2125, name: "OUNCE SIGN", aliases: &["OUNCE"] },
        Codepoint { codepoint: 0x2126, name: "OHM SIGN", aliases: &["OHM"] },
        Codepoint { codepoint: 0x2127, name: "INVERTED OHM SIGN", aliases: &["MHO"] },
        Codepoint { codepoint: 0x2128, name: "BLACK-LETTER CAPITAL Z", aliases: &["BLACK-LETTER Z"] },
        Codepoint { codepoint: 0x2129, name: "TURNED GREEK SMALL LETTER IOTA", aliases: &[] },
        Codepoint { codepoint: 0x212A, name: "KELVIN SIGN", aliases: &["DEGREES KELVIN"] },
        Codepoint { codepoint: 0x212B, name: "ANGSTROM SIGN", aliases: &["ANGSTROM UNIT"] },
        Codepoint { codepoint: 0x212C, name: "SCRIPT CAPITAL B", aliases: &["SCRIPT B"] },
        Codepoint { codepoint: 0x212D, name: "BLACK-LETTER CAPITAL C", aliases: &["BLACK-LETTER C"] },
        Codepoint { codepoint: 0x212E, name: "ESTIMATED SYMBOL", aliases: &[] },
        Codepoint { codepoint: 0x212F, name: "SCRIPT SMALL E", aliases: &[] },
        Codepoint { codepoint: 0x2130, name: "SCRIPT CAPITAL E", aliases: &["SCRIPT E"] },
        Codepoint { codepoint: 0x2131, name: "SCRIPT CAPITAL F", aliases: &["SCRIPT F"] },
        Codepoint { codepoint: 0x2132, name: "TURNED CAPITAL F", aliases: &["TURNED F"] },
        Codepoint { codepoint: 0x2133, name: "SCRIPT CAPITAL M", aliases: &["SCRIPT M"] },
        Codepoint { codepoint: 0x2134, name: "SCRIPT SMALL O", aliases: &[] },
        Codepoint { codepoint: 0x2135, name: "ALEF SYMBOL", aliases: &["FIRST TRANSFINITE CARDINAL"] },
        Codepoint { codepoint: 0x2136, name: "BET SYMBOL", aliases: &["SECOND TRANSFINITE CARDINAL"] },
        Codepoint { codepoint: 0x2137, name: "GIMEL SYMBOL", aliases: &["THIRD TRANSFINITE CARDINAL"] },
        Codepoint { codepoint: 0x2138, name: "DALET SYMBOL", aliases: &["FOURTH TRANSFINITE CARDINAL"] },
        Codepoint { codepoint: 0x2139, name: "INFORMATION SOURCE", aliases: &[] },
        Codepoint { codepoint: 0x213A, name: "ROTATED CAPITAL Q", aliases: &[] },
        Codepoint { codepoint: 0x213B, name: "FACSIMILE SIGN", aliases: &[] },
        Codepoint { codepoint: 0x213C, name: "DOUBLE-STRUCK SMALL PI", aliases: &[] },
        Codepoint { codepoint: 0x213D, name: "DOUBLE-STRUCK SMALL GAMMA", aliases: &[] },
        Codepoint { codepoint: 0x213E, name: "DOUBLE-STRUCK CAPITAL GAMMA", aliases: &[] },
        Codepoint { codepoint: 0x213F, name: "DOUBLE-STRUCK CAPITAL PI", aliases: &[] },
        Codepoint { codepoint: 0x2140, name: "DOUBLE-STRUCK N-ARY SUMMATION", aliases: &[] },
        Codepoint { codepoint: 0x2141, name: "TURNED SANS-SERIF CAPITAL G", aliases: &[] },
        Codepoint { codepoint: 0x2142, name: "TURNED SANS-SERIF CAPITAL L", aliases: &[] },
        Codepoint { codepoint: 0x2143, name: "REVERSED SANS-SERIF CAPITAL L", aliases: &[] },
    ];
    assert(v@ =~= codepoint_table_190());
    v
}

pub open spec fn codepoint_table_191() -> Seq<Codepoint> {
    seq![
        Codepoint { codepoint: 0x2144, name: "TURNED SANS-SERIF CAPITAL Y", aliases: &[] },
        Codepoint { codepoint: 0x2145, name: "DOUBLE-STRUCK ITALIC CAPITAL D", aliases: &[] },
        Codepoint { codepoint: 0x2146, name: "DOUBLE-STRUCK ITALIC SMALL D", aliases: &[] },
        Codepoint { codepoint: 0x2147, name: "DOUBLE-STRUCK ITALIC SMALL E", aliases: &[] },
        Codepoint { codepoint: 0x2148, name: "DOUBLE-STRUCK ITALIC SMALL I", aliases: &[] },
        Codepoint { codepoint: 0x2149, name: "DOUBLE-STRUCK ITALIC SMALL J", aliases: &[] },
        Codepoint { codepoint: 0x214A, name: "PROPERTY LINE", aliases: &[] },
        Codepoint { codepoint: 0x214B, name: "TURNED AMPERSAND", aliases: &[] },
        Codepoint { codepoint: 0x214C, name: "PER SIGN", aliases: &[] },
        Codepoint { codepoint: 0x214D, name: "AKTIESELSKAB", aliases: &[] },
        Codepoint { codepoint: 0x214E, name: "TURNED SMALL F", aliases: &[] },
        Codepoint { codepoint: 0x214F, name: "SYMBOL FOR SAMARITAN SOURCE", aliases: &[] },
        Codepoint { codepoint: 0x2150, name: "VULGAR FRACTION ONE SEVENTH", aliases: &[] },
        Codepoint { codepoint: 0x2151, name: "VULGAR FRACTION ONE NINTH", aliases: &[] },
        Codepoint { codepoint: 0x2152, name: "VULGAR FRACTION ONE TENTH", aliases: &[] },
        Codepoint { codepoint: 0x2153, name: "VULGAR FRACTION ONE THIRD", aliases: &["FRACTION ONE THIRD"] },
        Codepoint { codepoint: 0x2154, name: "VULGAR FRACTION TWO THIRDS", aliases: &["FRACTION TWO THIRDS"] },
        Codepoint { codepoint: 0x2155, name: "VULGAR FRACTION ONE FIFTH", aliases: &["FRACTION ONE FIFTH"] },
        Codepoint { codepoint: 0x2156, name: "VULGAR FRACTION TWO FIFTHS", aliases: &["FRACTION TWO FIFTHS"] },
        Codepoint { codepoint: 0x2157, name: "VULGAR FRACTION THREE FIFTHS", aliases: &["FRACTION THREE FIFTHS"] },
        Codepoint { codepoint: 0x2158, name: "VULGAR FRACTION FOUR FIFTHS", aliases: &["FRACTION FOUR FIFTHS"] },
        Codepoint { codepoint: 0x2159, name: "VULGAR FRACTION ONE SIXTH", aliases: &["FRACTION ONE SIXTH"] },
        Codepoint { codepoint: 0x215A, name: "VULGAR FRACTION FIVE SIXTHS", aliases: &["FRACTION FIVE SIXTHS"] },
        Codepoint { codepoint: 0x215B, name: "VULGAR FRACTION ONE EIGHTH", aliases: &["FRACTION ONE EIGHTH"] },
        Codepoint { codepoint: 0x215C, name: "VULGAR FRACTION THREE EIGHTHS", aliases: &["FRACTION THREE EIGHTHS"] },
        Codepoint { codepoint: 0x215D, name: "VULGAR FRACTION FIVE EIGHTHS", aliases: &["FRACTION FIVE EIGHTHS"] },
        Codepoint { codepoint: 0x215E, name: "VULGAR FRACTION SEVEN EIGHTHS", aliases: &["FRACTION SEVEN EIGHTHS"] },
        Codepoint { codepoint: 0x215F, name: "FRACTION NUMERATOR ONE", aliases: &[] },
        Codepoint { codepoint: 0x2160, name: "ROMAN NUMERAL ONE", aliases: &[] },
        Codepoint { codepoint: 0x2161, name: "ROMAN NUMERAL TWO", aliases: &[] },
        Codepoint { codepoint: 0x2162, name: "ROMAN NUMERAL THREE", aliases: &[] },
        Codepoint { codepoint: 0x2163, name: "ROMAN NUMERAL FOUR", aliases: &[] },
        Codepoint { codepoint: 0x2164, name: "ROMAN NUMERAL FIVE", aliases: &[] },
        Codepoint { codepoint: 0x2165, name: "ROMAN NUMERAL SIX", aliases: &[] },
        Codepoint { codepoint: 0x2166, name: "ROMAN NUMERAL SEVEN", aliases: &[] },
        Codepoint { codepoint: 0x2167, name: "ROMAN NUMERAL EIGHT", aliases: &[] },
        Codepoint { codepoint: 0x2168, name: "ROMAN NUMERAL NINE", aliases: &[] },
        Codepoint { codepoint: 0x2169, name: "ROMAN NUMERAL TEN", aliases: &[] },
        Codepoint { codepoint: 0x216A, name: "ROMAN NUMERAL ELEVEN", aliases: &[] },
        Codepoint { codepoint: 0x216B, name: "ROMAN NUMERAL TWELVE", aliases: &[] },
    ]
}

fn all_codepoints_191() -> (v: Vec<Codepoint>)
    ensures
        v@ == codepoint_table_191(),
{
    let v = vec![
        Codepoint { codepoint: 0x2144, name: "TURNED SANS-SERIF CAPITAL Y", aliases: &[] },
        Codepoint { codepoint: 0x2145, name: "DOUBLE-STRUCK ITALIC CAPITAL D", aliases: &[] },
        Codepoint { codepoint: 0x2146, name: "DOUBLE-STRUCK ITALIC SMALL D", aliases: &[] },
        Codepoint { codepoint: 0x2147, name: "DOUBLE-STRUCK ITALIC SMALL E", aliases: &[] },
        Codepoint { codepoint: 0x2148, name: "DOUBLE-STRUCK ITALIC SMALL I", aliases: &[] },
        Codepoint { codepoint: 0x2149, name: "DOUBLE-STRUCK ITALIC SMALL J", aliases: &[] },
        Codepoint { codepoint: 0x214A, name: "PROPERTY LINE", aliases: &[] },
        Codepoint { codepoint: 0x214B, name: "TURNED AMPERSAND", aliases: &[] },
        Codepoint { codepoint: 0x214C, name: "PER SIGN", aliases: &[] },
        Codepoint { codepoint: 0x214D, name: "AKTIESELSKAB", aliases: &[] },
        Codepoint { codepoint: 0x214E, name: "TURNED SMALL F", aliases: &[] },
        Codepoint { codepoint: 0x214F, name: "SYMBOL FOR SAMARITAN SOURCE", aliases: &[] },
        Codepoint { codepoint: 0x2150, name: "VULGAR FRACTION ONE SEVENTH", aliases: &[] },
        Codepoint { codepoint: 0x2151, name: "VULGAR FRACTION ONE NINTH", aliases: &[] },
        Codepoint { codepoint: 0x2152, name: "VULGAR FRACTION ONE TENTH", aliases: &[] },
        Codepoint { codepoint: 0x2153, name: "VULGAR FRACTION ONE THIRD", aliases: &["FRACTION ONE THIRD"] },
        Codepoint { codepoint: 0x2154, name: "VULGAR FRACTION TWO THIRDS", aliases: &["FRACTION TWO THIRDS"] },
        Codepoint { codepoint: 0x2155, name: "VULGAR FRACTION ONE FIFTH", aliases: &["FRACTION ONE FIFTH"] },
        Codepoint { codepoint: 0x2156, name: "VULGAR FRACTION TWO FIFTHS", aliases: &["FRACTION TWO FIFTHS"] },
        Codepoint { codepoint: 0x2157, name: "VULGAR FRACTION THREE FIFTHS", aliases: &["FRACTION THREE FIFTHS"] },
        Codepoint { codepoint: 0x2158, name: "VULGAR FRACTION FOUR FIFTHS", aliases: &["FRACTION FOUR FIFTHS"] },
        Codepoint { codepoint: 0x2159, name: "VULGAR FRACTION ONE SIXTH", aliases: &["FRACTION ONE SIXTH"] },
        Codepoint { codepoint: 0x215A, name: "VULGAR FRACTION FIVE SIXTHS", aliases: &["FRACTION FIVE SIXTHS"] },
        Codepoint { codepoint: 0x215B, name: "VULGAR FRACTION ONE EIGHTH", aliases: &["FRACTION ONE EIGHTH"] },
        Codepoint { codepoint: 0x215C, name: "VULGAR FRACTION THREE EIGHTHS", aliases: &["FRACTION THREE EIGHTHS"] },
        Codepoint { codepoint: 0x215D, name: "VULGAR FRACTION FIVE EIGHTHS", aliases: &["FRACTION FIVE EIGHTHS"] },
        Codepoint { codepoint: 0x215E, name: "VULGAR FRACTION SEVEN EIGHTHS", aliases: &["FRACTION SEVEN EIGHTHS"] },
        Codepoint { codepoint: 0x215F, name: "FRACTION NUMERATOR ONE", aliases: &[] },
        Codepoint { codepoint: 0x2160, name: "ROMAN NUMERAL ONE", aliases: &[] },
        Codepoint { codepoint: 0x2161, name: "ROMAN NUMERAL TWO", aliases: &[] },
        Codepoint { codepoint: 0x2162, name: "ROMAN NUMERAL THREE", aliases: &[] },
        Codepoint { codepoint: 0x2163, name: "ROMAN NUMERAL FOUR", aliases: &[] },
        Codepoint { codepoint: 0x2164, name: "ROMAN NUMERAL FIVE", aliases: &[] },
        Codepoint { codepoint: 0x2165, name: "ROMAN NUMERAL SIX", aliases: &[] },
        Codepoint { codepoint: 0x2166, name: "ROMAN NUMERAL SEVEN", aliases: &[] },
        Codepoint { codepoint: 0x2167, name: "ROMAN NUMERAL EIGHT", aliases: &[] },
        Codepoint { codepoint: 0x2168, name: "ROMAN NUMERAL NINE", aliases: &[] },
        Codepoint { codepoint: 0x2169, name: "ROMAN NUMERAL TEN", aliases: &[] },
        Codepoint { codepoint: 0x216A, name: "ROMAN NUMERAL ELEVEN", aliases: &[] },
        Codepoint { codepoint: 0x216B, name: "ROMAN NUMERAL TWELVE", aliases: &[] },
    ];
    assert(v@ =~= codepoint_table_191());
    v
}

pub open spec fn codepoint_table_192() -> Seq<Codepoint> {
    seq![
        Codepoint { codepoint: 0x216C, name: "ROMAN NUMERAL FIFTY", aliases: &[] },
        Codepoint { codepoint: 0x216D, name: "ROMAN NUMERAL ONE HUNDRED", aliases: &[] },
        Codepoint { codepoint: 0x216E, name: "ROMAN NUMERAL FIVE HUNDRED", aliases: &[] },
        Codepoint { codepoint: 0x216F, name: "ROMAN NUMERAL ONE THOUSAND", aliases: &[] },
        Codepoint { codepoint: 0x2170, name: "SMALL ROMAN NUMERAL ONE", aliases: &[] },
        Codepoint { codepoint: 0x2171, name: "SMALL ROMAN NUMERAL TWO", aliases: &[] },
        Codepoint { codepoint: 0x2172, name: "SMALL ROMAN NUMERAL THREE", aliases: &[] },
        Codepoint { codepoint: 0x2173, name: "SMALL ROMAN NUMERAL FOUR", aliases: &[] },
        Codepoint { codepoint: 0x2174, name: "SMALL ROMAN NUMERAL FIVE", aliases: &[] },
        Codepoint { codepoint: 0x2175, name: "SMALL ROMAN NUMERAL SIX", aliases: &[] },
        Codepoint { codepoint: 0x2176, name: "SMALL ROMAN NUMERAL SEVEN", aliases: &[] },
        Codepoint { codepoint: 0x2177, name: "SMALL ROMAN NUMERAL EIGHT", aliases: &[] },
        Codepoint { codepoint: 0x2178, name: "SMALL ROMAN NUMERAL NINE", aliases: &[] },
        Codepoint { codepoint: 0x2179, name: "SMALL ROMAN NUMERAL TEN", aliases: &[] },
        Codepoint { codepoint: 0x217A, name: "SMALL ROMAN NUMERAL ELEVEN", aliases: &[] },
        Codepoint { codepoint: 0x217B, name: "SMALL ROMAN NUMERAL TWELVE", aliases: &[] },
        Codepoint { codepoint: 0x217C, name: "SMALL ROMAN NUMERAL FIFTY", aliases: &[] },
        Codepoint { codepoint: 0x217D, name: "SMALL ROMAN NUMERAL ONE HUNDRED", aliases: &[] },
        Codepoint { codepoint: 0x217E, name: "SMALL ROMAN NUMERAL FIVE HUNDRED", aliases: &[] },
        Codepoint { codepoint: 0x217F, name: "SMALL ROMAN NUMERAL ONE THOUSAND", aliases: &[] },
        Codepoint { codepoint: 0x2180, name: "ROMAN NUMERAL ONE THOUSAND C D", aliases: &[] },
        Codepoint { codepoint: 0x2181, name: "ROMAN NUMERAL FIVE THOUSAND", aliases: &[] },
        Codepoint { codepoint: 0x2182, name: "ROMAN NUMERAL TEN THOUSAND", aliases: &[] },
        Codepoint { codepoint: 0x2183, name: "ROMAN NUMERAL REVERSED ONE HUNDRED", aliases: &[] },
        Codepoint { codepoint: 0x2184, name: "LATIN SMALL LETTER REVERSED C", aliases: &[] },
        Codepoint { codepoint: 0x2185, name: "ROMAN NUMERAL SIX LATE FORM", aliases: &[] },
        Codepoint { codepoint: 0x2186, name: "ROMAN NUMERAL FIFTY EARLY FORM", aliases: &[] },
        Codepoint { codepoint: 0x2187, name: "ROMAN NUMERAL FIFTY THOUSAND", aliases: &[] },
        Codepoint { codepoint: 0x2188, name: "ROMAN NUMERAL ONE HUNDRED THOUSAND", aliases: &[] },
        Codepoint { codepoint: 0x2189, name: "VULGAR FRACTION ZERO THIRDS", aliases: &[] },
        Codepoint { codepoint: 0x218A, name: "TURNED DIGIT TWO", aliases: &[] },
        Codepoint { codepoint: 0x218B, name: "TURNED DIGIT THREE", aliases: &[] },
        Codepoint { codepoint: 0x2190, name: "LEFTWARDS ARROW", aliases: &["LEFT ARROW"] },
        Codepoint { codepoint: 0x2191, name: "UPWARDS ARROW", aliases: &["UP ARROW"] },
        Codepoint { codepoint: 0x2192, name: "RIGHTWARDS ARROW", aliases: &["RIGHT ARROW"] },
        Codepoint { codepoint: 0x2193, name: "DOWNWARDS ARROW", aliases: &["DOWN ARROW"] },
        Codepoint { codepoint: 0x2194, name: "LEFT RIGHT ARROW", aliases: &[] },
        Codepoint { codepoint: 0x2195, name: "UP DOWN ARROW", aliases: &[] },
        Codepoint { codepoint: 0x2196, name: "NORTH WEST ARROW", aliases: &["UPPER LEFT ARROW"] },
        Codepoint { codepoint: 0x2197, name: "NORTH EAST ARROW", aliases: &["UPPER RIGHT ARROW"] },
    ]
}

fn all_codepoints_192() -> (v: Vec<Codepoint>)
    ensures
        v@ == codepoint_table_192(),
{
    let v = vec![
        Codepoint { codepoint: 0x216C, name: "ROMAN NUMERAL FIFTY", aliases: &[] },
        Codepoint { codepoint: 0x216D, name: "ROMAN NUMERAL ONE HUNDRED", aliases: &[] },
        Codepoint { codepoint: 0x216E, name: "ROMAN NUMERAL FIVE HUNDRED", aliases: &[] },
        Codepoint { codepoint: 0x216F, name: "ROMAN NUMERAL ONE THOUSAND", aliases: &[] },
        Codepoint { codepoint: 0x2170, name: "SMALL ROMAN NUMERAL ONE", aliases: &[] },
        Codepoint { codepoint: 0x2171, name: "SMALL ROMAN NUMERAL TWO", aliases: &[] },
        Codepoint { codepoint: 0x2172, name: "SMALL ROMAN NUMERAL THREE", aliases: &[] },
        Codepoint { codepoint: 0x2173, name: "SMALL ROMAN NUMERAL FOUR", aliases: &[] },
        Codepoint { codepoint: 0x2174, name: "SMALL ROMAN NUMERAL FIVE", aliases: &[] },
        Codepoint { codepoint: 0x2175, name: "SMALL ROMAN NUMERAL SIX", aliases: &[] },
        Codepoint { codepoint: 0x2176, name: "SMALL ROMAN NUMERAL SEVEN", aliases: &[] },
        Codepoint { codepoint: 0x2177, name: "SMALL ROMAN NUMERAL EIGHT", aliases: &[] },
        Codepoint { codepoint: 0x2178, name: "SMALL ROMAN NUMERAL NINE", aliases: &[] },
        Codepoint { codepoint: 0x2179, name: "SMALL ROMAN NUMERAL TEN", aliases: &[] },
        Codepoint { codepoint: 0x217A, name: "SMALL ROMAN NUMERAL ELEVEN", aliases: &[] },
        Codepoint { codepoint: 0x217B, name: "SMALL ROMAN NUMERAL TWELVE", aliases: &[] },
        Codepoint { codepoint: 0x217C, name: "SMALL ROMAN NUMERAL FIFTY", aliases: &[] },
        Codepoint { codepoint: 0x217D, name: "SMALL ROMAN NUMERAL ONE HUNDRED", aliases: &[] },
        Codepoint { codepoint: 0x217E, name: "SMALL ROMAN NUMERAL FIVE HUNDRED", aliases: &[] },
        Codepoint { codepoint: 0x217F, name: "SMALL ROMAN NUMERAL ONE THOUSAND", aliases: &[] },
        Codepoint { codepoint: 0x2180, name: "ROMAN NUMERAL ONE THOUSAND C D", aliases: &[] },
        Codepoint { codepoint: 0x2181, name: "ROMAN NUMERAL FIVE THOUSAND", aliases: &[] },
        Codepoint { codepoint: 0x2182, name: "ROMAN NUMERAL TEN THOUSAND", aliases: &[] },
        Codepoint { codepoint: 0x2183, name: "ROMAN NUMERAL REVERSED ONE HUNDRED", aliases: &[] },
        Codepoint { codepoint: 0x2184, name: "LATIN SMALL LETTER REVERSED C", aliases: &[] },
        Codepoint { codepoint: 0x2185, name: "ROMAN NUMERAL SIX LATE FORM", aliases: &[] },
        Codepoint { codepoint: 0x2186, name: "ROMAN NUMERAL FIFTY EARLY FORM", aliases: &[] },
        Codepoint { codepoint: 0x2187, name: "ROMAN NUMERAL FIFTY THOUSAND", aliases: &[] },
        Codepoint { codepoint: 0x2188, name: "ROMAN NUMERAL ONE HUNDRED THOUSAND", aliases: &[] },
        Codepoint { codepoint: 0x2189, name: "VULGAR FRACTION ZERO THIRDS", aliases: &[] },
        Codepoint { codepoint: 0x218A, name: "TURNED DIGIT TWO", aliases: &[] },
        Codepoint { codepoint: 0x218B, name: "TURNED DIGIT THREE", aliases: &[] },
        Codepoint { codepoint: 0x2190, name: "LEFTWARDS ARROW", aliases: &["LEFT ARROW"] },
        Codepoint { codepoint: 0x2191, name: "UPWARDS ARROW", aliases: &["UP ARROW"] },
        Codepoint { codepoint: 0x2192, name: "RIGHTWARDS ARROW", aliases: &["RIGHT ARROW"] },
        Codepoint { codepoint: 0x2193, name: "DOWNWARDS ARROW", aliases: &["DOWN ARROW"] },
        Codepoint { codepoint: 0x2194, name: "LEFT RIGHT ARROW", aliases: &[] },
        Codepoint { codepoint: 0x2195, name: "UP DOWN ARROW", aliases: &[] },
        Codepoint { codepoint: 0x2196, name: "NORTH WEST ARROW", aliases: &["UPPER LEFT ARROW"] },
        Codepoint { codepoint: 0x2197, name: "NORTH EAST ARROW", aliases: &["UPPER RIGHT ARROW"] },
    ];
    assert(v@ =~= codepoint_table_192());
    v
}

pub open spec fn codepoint_table_193() -> Seq<Codepoint> {
    seq![
        Codepoint { codepoint: 0x2198, name: "SOUTH EAST ARROW", aliases: &["LOWER RIGHT ARROW"] },
        Codepoint { codepoint: 0x2199, name: "SOUTH WEST ARROW", aliases: &["LOWER LEFT ARROW"] },
        Codepoint { codepoint: 0x219A, name: "LEFTWARDS ARROW WITH STROKE", aliases: &["LEFT ARROW WITH STROKE"] },
        Codepoint { codepoint: 0x219B, name: "RIGHTWARDS ARROW WITH STROKE", aliases: &["RIGHT ARROW WITH STROKE"] },
        Codepoint { codepoint: 0x219C, name: "LEFTWARDS WAVE ARROW", aliases: &["LEFT WAVE ARROW"] },
        Codepoint { codepoint: 0x219D, name: "RIGHTWARDS WAVE ARROW", aliases: &["RIGHT WAVE ARROW"] },
        Codepoint { codepoint: 0x219E, name: "LEFTWARDS TWO HEADED ARROW", aliases: &["LEFT TWO HEADED ARROW"] },
        Codepoint { codepoint: 0x219F, name: "UPWARDS TWO HEADED ARROW", aliases: &["UP TWO HEADED ARROW"] },
        Codepoint { codepoint: 0x21A0, name: "RIGHTWARDS TWO HEADED ARROW", aliases: &["RIGHT TWO HEADED ARROW"] },
        Codepoint { codepoint: 0x21A1, name: "DOWNWARDS TWO HEADED ARROW", aliases: &["DOWN TWO HEADED ARROW"] },
        Codepoint { codepoint: 0x21A2, name: "LEFTWARDS ARROW WITH TAIL", aliases: &["LEFT ARROW WITH TAIL"] },
        Codepoint { codepoint: 0x21A3, name: "RIGHTWARDS ARROW WITH TAIL", aliases: &["RIGHT ARROW WITH TAIL"] },
        Codepoint { codepoint: 0x21A4, name: "LEFTWARDS ARROW FROM BAR", aliases: &["LEFT ARROW FROM BAR"] },
        Codepoint { codepoint: 0x21A5, name: "UPWARDS ARROW FROM BAR", aliases: &["UP ARROW FROM BAR"] },
        Codepoint { codepoint: 0x21A6, name: "RIGHTWARDS ARROW FROM BAR", aliases: &["RIGHT ARROW FROM BAR"] },
        Codepoint { codepoint: 0x21A7, name: "DOWNWARDS ARROW FROM BAR", aliases: &["DOWN ARROW FROM BAR"] },
        Codepoint { codepoint: 0x21A8, name: "UP DOWN ARROW WITH BASE", aliases: &[] },
        Codepoint { codepoint: 0x21A9, name: "LEFTWARDS ARROW WITH HOOK", aliases: &["LEFT ARROW WITH HOOK"] },
        Codepoint { codepoint: 0x21AA, name: "RIGHTWARDS ARROW WITH HOOK", aliases: &["RIGHT ARROW WITH HOOK"] },
        Codepoint { codepoint: 0x21AB, name: "LEFTWARDS ARROW WITH LOOP", aliases: &["LEFT ARROW WITH LOOP"] },
        Codepoint { codepoint: 0x21AC, name: "RIGHTWARDS ARROW WITH LOOP", aliases: &["RIGHT ARROW WITH LOOP"] },
        Codepoint { codepoint: 0x21AD, name: "LEFT RIGHT WAVE ARROW", aliases: &[] },
        Codepoint { codepoint: 0x21AE, name: "LEFT RIGHT ARROW WITH STROKE", aliases: &[] },
        Codepoint { codepoint: 0x21AF, name: "DOWNWARDS ZIGZAG ARROW", aliases: &["DOWN ZIGZAG ARROW"] },
        Codepoint { codepoint: 0x21B0, name: "UPWARDS ARROW WITH TIP LEFTWARDS", aliases: &["UP ARROW WITH TIP LEFT"] },
        Codepoint { codepoint: 0x21B1, name: "UPWARDS ARROW WITH TIP RIGHTWARDS", aliases: &["UP ARROW WITH TIP RIGHT"] },
        Codepoint { codepoint: 0x21B2, name: "DOWNWARDS ARROW WITH TIP LEFTWARDS", aliases: &["DOWN ARROW WITH TIP LEFT"] },
        Codepoint { codepoint: 0x21B3, name: "DOWNWARDS ARROW WITH TIP RIGHTWARDS", aliases: &["DOWN ARROW WITH TIP RIGHT"] },
        Codepoint { codepoint: 0x21B4, name: "RIGHTWARDS ARROW WITH CORNER DOWNWARDS", aliases: &["RIGHT ARROW WITH CORNER DOWN"] },
        Codepoint { codepoint: 0x21B5, name: "DOWNWARDS ARROW WITH CORNER LEFTWARDS", aliases: &["DOWN ARROW WITH CORNER LEFT"] },
        Codepoint { codepoint: 0x21B6, name: "ANTICLOCKWISE TOP SEMICIRCLE ARROW", aliases: &[] },
        Codepoint { codepoint: 0x21B7, name: "CLOCKWISE TOP SEMICIRCLE ARROW", aliases: &[] },
        Codepoint { codepoint: 0x21B8, name: "NORTH WEST ARROW TO LONG BAR", aliases: &["UPPER LEFT ARROW TO LONG BAR"] },
        Codepoint { codepoint: 0x21B9, name: "LEFTWARDS ARROW TO BAR OVER RIGHTWARDS ARROW TO BAR", aliases: &["LEFT ARROW TO BAR OVER RIGHT ARROW TO BAR"] },
        Codepoint { codepoint: 0x21BA, name: "ANTICLOCKWISE OPEN CIRCLE ARROW", aliases: &[] },
        Codepoint { codepoint: 0x21BB, name: "CLOCKWISE OPEN CIRCLE ARROW", aliases: &[] },
        Codepoint { codepoint: 0x21BC, name: "LEFTWARDS HARPOON WITH BARB UPWARDS", aliases: &["LEFT HARPOON WITH BARB UP"] },
        Codepoint { codepoint: 0x21BD, name: "LEFTWARDS HARPOON WITH BARB DOWNWARDS", aliases: &["LEFT HARPOON WITH BARB DOWN"] },
        Codepoint { codepoint: 0x21BE, name: "UPWARDS HARPOON WITH BARB RIGHTWARDS", aliases: &["UP HARPOON WITH BARB RIGHT"] },
        Codepoint { codepoint: 0x21BF, name: "UPWARDS HARPOON WITH BARB LEFTWARDS", aliases: &["UP HARPOON WITH BARB LEFT"] },
    ]
}

fn all_codepoints_193() -> (v: Vec<Codepoint>)
    ensures
        v@ == codepoint_table_193(),
{
    let v = vec![
        Codepoint { codepoint: 0x2198, name: "SOUTH EAST ARROW", aliases: &["LOWER RIGHT ARROW"] },
        Codepoint { codepoint: 0x2199, name: "SOUTH WEST ARROW", aliases: &["LOWER LEFT ARROW"] },
        Codepoint { codepoint: 0x219A, name: "LEFTWARDS ARROW WITH STROKE", aliases: &["LEFT ARROW WITH STROKE"] },
        Codepoint { codepoint: 0x219B, name: "RIGHTWARDS ARROW WITH STROKE", aliases: &["RIGHT ARROW WITH STROKE"] },
        Codepoint { codepoint: 0x219C, name: "LEFTWARDS WAVE ARROW", aliases: &["LEFT WAVE ARROW"] },
        Codepoint { codepoint: 0x219D, name: "RIGHTWARDS WAVE ARROW", aliases: &["RIGHT WAVE ARROW"] },
        Codepoint { codepoint: 0x219E, name: "LEFTWARDS TWO HEADED ARROW", aliases: &["LEFT TWO HEADED ARROW"] },
        Codepoint { codepoint: 0x219F, name: "UPWARDS TWO HEADED ARROW", aliases: &["UP TWO HEADED ARROW"] },
        Codepoint { codepoint: 0x21A0, name: "RIGHTWARDS TWO HEADED ARROW", aliases: &["RIGHT TWO HEADED ARROW"] },
        Codepoint { codepoint: 0x21A1, name: "DOWNWARDS TWO HEADED ARROW", aliases: &["DOWN TWO HEADED ARROW"] },
        Codepoint { codepoint: 0x21A2, name: "LEFTWARDS ARROW WITH TAIL", aliases: &["LEFT ARROW WITH TAIL"] },
        Codepoint { codepoint: 0x21A3, name: "RIGHTWARDS ARROW WITH TAIL", aliases: &["RIGHT ARROW WITH TAIL"] },
        Codepoint { codepoint: 0x21A4, name: "LEFTWARDS ARROW FROM BAR", aliases: &["LEFT ARROW FROM BAR"] },
        Codepoint { codepoint: 0x21A5, name: "UPWARDS ARROW FROM BAR", aliases: &["UP ARROW FROM BAR"] },
        Codepoint { codepoint: 0x21A6, name: "RIGHTWARDS ARROW FROM BAR", aliases: &["RIGHT ARROW FROM BAR"] },
        Codepoint { codepoint: 0x21A7, name: "DOWNWARDS ARROW FROM BAR", aliases: &["DOWN ARROW FROM BAR"] },
        Codepoint { codepoint: 0x21A8, name: "UP DOWN ARROW WITH BASE", aliases: &[] },
        Codepoint { codepoint: 0x21A9, name: "LEFTWARDS ARROW WITH HOOK", aliases: &["LEFT ARROW WITH HOOK"] },
        Codepoint { codepoint: 0x21AA, name: "RIGHTWARDS ARROW WITH HOOK", aliases: &["RIGHT ARROW WITH HOOK"] },
        Codepoint { codepoint: 0x21AB, name: "LEFTWARDS ARROW WITH LOOP", aliases: &["LEFT ARROW WITH LOOP"] },
        Codepoint { codepoint: 0x21AC, name: "RIGHTWARDS ARROW WITH LOOP", aliases: &["RIGHT ARROW WITH LOOP"] },
        Codepoint { codepoint: 0x21AD, name: "LEFT RIGHT WAVE ARROW", aliases: &[] },
        Codepoint { codepoint: 0x21AE, name: "LEFT RIGHT ARROW WITH STROKE", aliases: &[] },
        Codepoint { codepoint: 0x21AF, name: "DOWNWARDS ZIGZAG ARROW", aliases: &["DOWN ZIGZAG ARROW"] },
        Codepoint { codepoint: 0x21B0, name: "UPWARDS ARROW WITH TIP LEFTWARDS", aliases: &["UP ARROW WITH TIP LEFT"] },
        Codepoint { codepoint: 0x21B1, name: "UPWARDS ARROW WITH TIP RIGHTWARDS", aliases: &["UP ARROW WITH TIP RIGHT"] },
        Codepoint { codepoint: 0x21B2, name: "DOWNWARDS ARROW WITH TIP LEFTWARDS", aliases: &["DOWN ARROW WITH TIP LEFT"] },
        Codepoint { codepoint: 0x21B3, name: "DOWNWARDS ARROW WITH TIP RIGHTWARDS", aliases: &["DOWN ARROW WITH TIP RIGHT"] },
        Codepoint { codepoint: 0x21B4, name: "RIGHTWARDS ARROW WITH CORNER DOWNWARDS", aliases: &["RIGHT ARROW WITH CORNER DOWN"] },
        Codepoint { codepoint: 0x21B5, name: "DOWNWARDS ARROW WITH CORNER LEFTWARDS", aliases: &["DOWN ARROW WITH CORNER LEFT"] },
        Codepoint { codepoint: 0x21B6, name: "ANTICLOCKWISE TOP SEMICIRCLE ARROW", aliases: &[] },
        Codepoint { codepoint: 0x21B7, name: "CLOCKWISE TOP SEMICIRCLE ARROW", aliases: &[] },
        Codepoint { codepoint: 0x21B8, name: "NORTH WEST ARROW TO LONG BAR", aliases: &["UPPER LEFT ARROW TO LONG BAR"] },
        Codepoint { codepoint: 0x21B9, name: "LEFTWARDS ARROW TO BAR OVER RIGHTWARDS ARROW TO BAR", aliases: &["LEFT ARROW TO BAR OVER RIGHT ARROW TO BAR"] },
        Codepoint { codepoint: 0x21BA, name: "ANTICLOCKWISE OPEN CIRCLE ARROW", aliases: &[] },
        Codepoint { codepoint: 0x21BB, name: "CLOCKWISE OPEN CIRCLE ARROW", aliases: &[] },
        Codepoint { codepoint: 0x21BC, name: "LEFTWARDS HARPOON WITH BARB UPWARDS", aliases: &["LEFT HARPOON WITH BARB UP"] },
        Codepoint { codepoint: 0x21BD, name: "LEFTWARDS HARPOON WITH BARB DOWNWARDS", aliases: &["LEFT HARPOON WITH BARB DOWN"] },
        Codepoint { codepoint: 0x21BE, name: "UPWARDS HARPOON WITH BARB RIGHTWARDS", aliases: &["UP HARPOON WITH BARB RIGHT"] },
        Codepoint { codepoint: 0x21BF, name: "UPWARDS HARPOON WITH BARB LEFTWARDS", aliases: &["UP HARPOON WITH BARB LEFT"] },
    ];
    assert(v@ =~= codepoint_table_193());
    v
}

pub open spec fn codepoint_table_194() -> Seq<Codepoint> {
    seq![
        Codepoint { codepoint: 0x21C0, name: "RIGHTWARDS HARPOON WITH BARB UPWARDS", aliases: &["RIGHT HARPOON WITH BARB UP"] },
        Codepoint { codepoint: 0x21C1, name: "RIGHTWARDS HARPOON WITH BARB DOWNWARDS", aliases: &["RIGHT HARPOON WITH BARB DOWN"] },
        Codepoint { codepoint: 0x21C2, name: "DOWNWARDS HARPOON WITH BARB RIGHTWARDS", aliases: &["DOWN HARPOON WITH BARB RIGHT"] },
        Codepoint { codepoint: 0x21C3, name: "DOWNWARDS HARPOON WITH BARB LEFTWARDS", aliases: &["DOWN HARPOON WITH BARB LEFT"] },
        Codepoint { codepoint: 0x21C4, name: "RIGHTWARDS ARROW OVER LEFTWARDS ARROW", aliases: &["RIGHT ARROW OVER LEFT ARROW"] },
        Codepoint { codepoint: 0x21C5, name: "UPWARDS ARROW LEFTWARDS OF DOWNWARDS ARROW", aliases: &["UP ARROW LEFT OF DOWN ARROW"] },
        Codepoint { codepoint: 0x21C6, name: "LEFTWARDS ARROW OVER RIGHTWARDS ARROW", aliases: &["LEFT ARROW OVER RIGHT ARROW"] },
        Codepoint { codepoint: 0x21C7, name: "LEFTWARDS PAIRED ARROWS", aliases: &["LEFT PAIRED ARROWS"] },
        Codepoint { codepoint: 0x21C8, name: "UPWARDS PAIRED ARROWS", aliases: &["UP PAIRED ARROWS"] },
        Codepoint { codepoint: 0x21C9, name: "RIGHTWARDS PAIRED ARROWS", aliases: &["RIGHT PAIRED ARROWS"] },
        Codepoint { codepoint: 0x21CA, name: "DOWNWARDS PAIRED ARROWS", aliases: &["DOWN PAIRED ARROWS"] },
        Codepoint { codepoint: 0x21CB, name: "LEFTWARDS HARPOON OVER RIGHTWARDS HARPOON", aliases: &["LEFT HARPOON OVER RIGHT HARPOON"] },
        Codepoint { codepoint: 0x21CC, name: "RIGHTWARDS HARPOON OVER LEFTWARDS HARPOON", aliases: &["RIGHT HARPOON OVER LEFT HARPOON"] },
        Codepoint { codepoint: 0x21CD, name: "LEFTWARDS DOUBLE ARROW WITH STROKE", aliases: &["LEFT DOUBLE ARROW WITH STROKE"] },
        Codepoint { codepoint: 0x21CE, name: "LEFT RIGHT DOUBLE ARROW WITH STROKE", aliases: &[] },
        Codepoint { codepoint: 0x21CF, name: "RIGHTWARDS DOUBLE ARROW WITH STROKE", aliases: &["RIGHT DOUBLE ARROW WITH STROKE"] },
        Codepoint { codepoint: 0x21D0, name: "LEFTWARDS DOUBLE ARROW", aliases: &["LEFT DOUBLE ARROW"] },
        Codepoint { codepoint: 0x21D1, name: "UPWARDS DOUBLE ARROW", aliases: &["UP DOUBLE ARROW"] },
        Codepoint { codepoint: 0x21D2, name: "RIGHTWARDS DOUBLE ARROW", aliases: &["RIGHT DOUBLE ARROW"] },
        Codepoint { codepoint: 0x21D3, name: "DOWNWARDS DOUBLE ARROW", aliases: &["DOWN DOUBLE ARROW"] },
        Codepoint { codepoint: 0x21D4, name: "LEFT RIGHT DOUBLE ARROW", aliases: &[] },
        Codepoint { codepoint: 0x21D5, name: "UP DOWN DOUBLE ARROW", aliases: &[] },
        Codepoint { codepoint: 0x21D6, name: "NORTH WEST DOUBLE ARROW", aliases: &["UPPER LEFT DOUBLE ARROW"] },
        Codepoint { codepoint: 0x21D7, name: "NORTH EAST DOUBLE ARROW", aliases: &["UPPER RIGHT DOUBLE ARROW"] },
        Codepoint { codepoint: 0x21D8, name: "SOUTH EAST DOUBLE ARROW", aliases: &["LOWER RIGHT DOUBLE ARROW"] },
        Codepoint { codepoint: 0x21D9, name: "SOUTH WEST DOUBLE ARROW", aliases: &["LOWER LEFT DOUBLE ARROW"] },
        Codepoint { codepoint: 0x21DA, name: "LEFTWARDS TRIPLE ARROW", aliases: &["LEFT TRIPLE ARROW"] },
        Codepoint { codepoint: 0x21DB, name: "RIGHTWARDS TRIPLE ARROW", aliases: &["RIGHT TRIPLE ARROW"] },
        Codepoint { codepoint: 0x21DC, name: "LEFTWARDS SQUIGGLE ARROW", aliases: &["LEFT SQUIGGLE ARROW"] },
        Codepoint { codepoint: 0x21DD, name: "RIGHTWARDS SQUIGGLE ARROW", aliases: &["RIGHT SQUIGGLE ARROW"] },
        Codepoint { codepoint: 0x21DE, name: "UPWARDS ARROW WITH DOUBLE STROKE", aliases: &["UP ARROW WITH DOUBLE STROKE"] },
        Codepoint { codepoint: 0x21DF, name: "DOWNWARDS ARROW WITH DOUBLE STROKE", aliases: &["DOWN ARROW WITH DOUBLE STROKE"] },
        Codepoint { codepoint: 0x21E0, name: "LEFTWARDS DASHED ARROW", aliases: &["LEFT DASHED ARROW"] },
        Codepoint { codepoint: 0x21E1, name: "UPWARDS DASHED ARROW", aliases: &["UP DASHED ARROW"] },
        Codepoint { codepoint: 0x21E2, name: "RIGHTWARDS DASHED ARROW", aliases: &["RIGHT DASHED ARROW"] },
        Codepoint { codepoint: 0x21E3, name: "DOWNWARDS DASHED ARROW", aliases: &["DOWN DASHED ARROW"] },
        Codepoint { codepoint: 0x21E4, name: "LEFTWARDS ARROW TO BAR", aliases: &["LEFT ARROW TO BAR"] },
        Codepoint { codepoint: 0x21E5, name: "RIGHTWARDS ARROW TO BAR", aliases: &["RIGHT ARROW TO BAR"] },
        Codepoint { codepoint: 0x21E6, name: "LEFTWARDS WHITE ARROW", aliases: &["WHITE LEFT ARROW"] },
        Codepoint { codepoint: 0x21E7, name: "UPWARDS WHITE ARROW", aliases: &["WHITE UP ARROW"] },
    ]
}

fn all_codepoints_194() -> (v: Vec<Codepoint>)
    ensures
        v@ == codepoint_table_194(),
{
    let v = vec![
        Codepoint { codepoint: 0x21C0, name: "RIGHTWARDS HARPOON WITH BARB UPWARDS", aliases: &["RIGHT HARPOON WITH BARB UP"] },
        Codepoint { codepoint: 0x21C1, name: "RIGHTWARDS HARPOON WITH BARB DOWNWARDS", aliases: &["RIGHT HARPOON WITH BARB DOWN"] },
        Codepoint { codepoint: 0x21C2, name: "DOWNWARDS HARPOON WITH BARB RIGHTWARDS", aliases: &["DOWN HARPOON WITH BARB RIGHT"] },
        Codepoint { codepoint: 0x21C3, name: "DOWNWARDS HARPOON WITH BARB LEFTWARDS", aliases: &["DOWN HARPOON WITH BARB LEFT"] },
        Codepoint { codepoint: 0x21C4, name: "RIGHTWARDS ARROW OVER LEFTWARDS ARROW", aliases: &["RIGHT ARROW OVER LEFT ARROW"] },
        Codepoint { codepoint: 0x21C5, name: "UPWARDS ARROW LEFTWARDS OF DOWNWARDS ARROW", aliases: &["UP ARROW LEFT OF DOWN ARROW"] },
        Codepoint { codepoint: 0x21C6, name: "LEFTWARDS ARROW OVER RIGHTWARDS ARROW", aliases: &["LEFT ARROW OVER RIGHT ARROW"] },
        Codepoint { codepoint: 0x21C7, name: "LEFTWARDS PAIRED ARROWS", aliases: &["LEFT PAIRED ARROWS"] },
        Codepoint { codepoint: 0x21C8, name: "UPWARDS PAIRED ARROWS", aliases: &["UP PAIRED ARROWS"] },
        Codepoint { codepoint: 0x21C9, name: "RIGHTWARDS PAIRED ARROWS", aliases: &["RIGHT PAIRED ARROWS"] },
        Codepoint { codepoint: 0x21CA, name: "DOWNWARDS PAIRED ARROWS", aliases: &["DOWN PAIRED ARROWS"] },
        Codepoint { codepoint: 0x21CB, name: "LEFTWARDS HARPOON OVER RIGHTWARDS HARPOON", aliases: &["LEFT HARPOON OVER RIGHT HARPOON"] },
        Codepoint { codepoint: 0x21CC, name: "RIGHTWARDS HARPOON OVER LEFTWARDS HARPOON", aliases: &["RIGHT HARPOON OVER LEFT HARPOON"] },
        Codepoint { codepoint: 0x21CD, name: "LEFTWARDS DOUBLE ARROW WITH STROKE", aliases: &["LEFT DOUBLE ARROW WITH STROKE"] },
        Codepoint { codepoint: 0x21CE, name: "LEFT RIGHT DOUBLE ARROW WITH STROKE", aliases: &[] },
        Codepoint { codepoint: 0x21CF, name: "RIGHTWARDS DOUBLE ARROW WITH STROKE", aliases: &["RIGHT DOUBLE ARROW WITH STROKE"] },
        Codepoint { codepoint: 0x21D0, name: "LEFTWARDS DOUBLE ARROW", aliases: &["LEFT DOUBLE ARROW"] },
        Codepoint { codepoint: 0x21D1, name: "UPWARDS DOUBLE ARROW", aliases: &["UP DOUBLE ARROW"] },
        Codepoint { codepoint: 0x21D2, name: "RIGHTWARDS DOUBLE ARROW", aliases: &["RIGHT DOUBLE ARROW"] },
        Codepoint { codepoint: 0x21D3, name: "DOWNWARDS DOUBLE ARROW", aliases: &["DOWN DOUBLE ARROW"] },
        Codepoint { codepoint: 0x21D4, name: "LEFT RIGHT DOUBLE ARROW", aliases: &[] },
        Codepoint { codepoint: 0x21D5, name: "UP DOWN DOUBLE ARROW", aliases: &[] },
        Codepoint { codepoint: 0x21D6, name: "NORTH WEST DOUBLE ARROW", aliases: &["UPPER LEFT DOUBLE ARROW"] },
        Codepoint { codepoint: 0x21D7, name: "NORTH EAST DOUBLE ARROW", aliases: &["UPPER RIGHT DOUBLE ARROW"] },
        Codepoint { codepoint: 0x21D8, name: "SOUTH EAST DOUBLE ARROW", aliases: &["LOWER RIGHT DOUBLE ARROW"] },
        Codepoint { codepoint: 0x21D9, name: "SOUTH WEST DOUBLE ARROW", aliases: &["LOWER LEFT DOUBLE ARROW"] },
        Codepoint { codepoint: 0x21DA, name: "LEFTWARDS TRIPLE ARROW", aliases: &["LEFT TRIPLE ARROW"] },
        Codepoint { codepoint: 0x21DB, name: "RIGHTWARDS TRIPLE ARROW", aliases: &["RIGHT TRIPLE ARROW"] },
        Codepoint { codepoint: 0x21DC, name: "LEFTWARDS SQUIGGLE ARROW", aliases: &["LEFT SQUIGGLE ARROW"] },
        Codepoint { codepoint: 0x21DD, name: "RIGHTWARDS SQUIGGLE ARROW", aliases: &["RIGHT SQUIGGLE ARROW"] },
        Codepoint { codepoint: 0x21DE, name: "UPWARDS ARROW WITH DOUBLE STROKE", aliases: &["UP ARROW WITH DOUBLE STROKE"] },
        Codepoint { codepoint: 0x21DF, name: "DOWNWARDS ARROW WITH DOUBLE STROKE", aliases: &["DOWN ARROW WITH DOUBLE STROKE"] },
        Codepoint { codepoint: 0x21E0, name: "LEFTWARDS DASHED ARROW", aliases: &["LEFT DASHED ARROW"] },
        Codepoint { codepoint: 0x21E1, name: "UPWARDS DASHED ARROW", aliases: &["UP DASHED ARROW"] },
        Codepoint { codepoint: 0x21E2, name: "RIGHTWARDS DASHED ARROW", aliases: &["RIGHT DASHED ARROW"] },
        Codepoint { codepoint: 0x21E3, name: "DOWNWARDS DASHED ARROW", aliases: &["DOWN DASHED ARROW"] },
        Codepoint { codepoint: 0x21E4, name: "LEFTWARDS ARROW TO BAR", aliases: &["LEFT ARROW TO BAR"] },
        Codepoint { codepoint: 0x21E5, name: "RIGHTWARDS ARROW TO BAR", aliases: &["RIGHT ARROW TO BAR"] },
        Codepoint { codepoint: 0x21E6, name: "LEFTWARDS WHITE ARROW", aliases: &["WHITE LEFT ARROW"] },
        Codepoint { codepoint: 0x21E7, name: "UPWARDS WHITE ARROW", aliases: &["WHITE UP ARROW"] },
    ];
    assert(v@ =~= codepoint_table_194());
    v
}

pub open spec fn codepoint_table_195() -> Seq<Codepoint> {
    seq![
        Codepoint { codepoint: 0x21E8, name: "RIGHTWARDS WHITE ARROW", aliases: &["WHITE RIGHT ARROW"] },
        Codepoint { codepoint: 0x21E9, name: "DOWNWARDS WHITE ARROW", aliases: &["WHITE DOWN ARROW"] },
        Codepoint { codepoint: 0x21EA, name: "UPWARDS WHITE ARROW FROM BAR", aliases: &["WHITE UP ARROW FROM BAR"] },
        Codepoint { codepoint: 0x21EB, name: "UPWARDS WHITE ARROW ON PEDESTAL", aliases: &[] },
        Codepoint { codepoint: 0x21EC, name: "UPWARDS WHITE ARROW ON PEDESTAL WITH HORIZONTAL BAR", aliases: &[] },
        Codepoint { codepoint: 0x21ED, name: "UPWARDS WHITE ARROW ON PEDESTAL WITH VERTICAL BAR", aliases: &[] },
        Codepoint { codepoint: 0x21EE, name: "UPWARDS WHITE DOUBLE ARROW", aliases: &[] },
        Codepoint { codepoint: 0x21EF, name: "UPWARDS WHITE DOUBLE ARROW ON PEDESTAL", aliases: &[] },
        Codepoint { codepoint: 0x21F0, name: "RIGHTWARDS WHITE ARROW FROM WALL", aliases: &[] },
        Codepoint { codepoint: 0x21F1, name: "NORTH WEST ARROW TO CORNER", aliases: &[] },
        Codepoint { codepoint: 0x21F2, name: "SOUTH EAST ARROW TO CORNER", aliases: &[] },
        Codepoint { codepoint: 0x21F3, name: "UP DOWN WHITE ARROW", aliases: &[] },
        Codepoint { codepoint: 0x21F4, name: "RIGHT ARROW WITH SMALL CIRCLE", aliases: &[] },
        Codepoint { codepoint: 0x21F5, name: "DOWNWARDS ARROW LEFTWARDS OF UPWARDS ARROW", aliases: &[] },
        Codepoint { codepoint: 0x21F6, name: "THREE RIGHTWARDS ARROWS", aliases: &[] },
        Codepoint { codepoint: 0x21F7, name: "LEFTWARDS ARROW WITH VERTICAL STROKE", aliases: &[] },
        Codepoint { codepoint: 0x21F8, name: "RIGHTWARDS ARROW WITH VERTICAL STROKE", aliases: &[] },
        Codepoint { codepoint: 0x21F9, name: "LEFT RIGHT ARROW WITH VERTICAL STROKE", aliases: &[] },
        Codepoint { codepoint: 0x21FA, name: "LEFTWARDS ARROW WITH DOUBLE VERTICAL STROKE", aliases: &[] },
        Codepoint { codepoint: 0x21FB, name: "RIGHTWARDS ARROW WITH DOUBLE VERTICAL STROKE", aliases: &[] },
        Codepoint { codepoint: 0x21FC, name: "LEFT RIGHT ARROW WITH DOUBLE VERTICAL STROKE", aliases: &[] },
        Codepoint { codepoint: 0x21FD, name: "LEFTWARDS OPEN-HEADED ARROW", aliases: &[] },
        Codepoint { codepoint: 0x21FE, name: "RIGHTWARDS OPEN-HEADED ARROW", aliases: &[] },
        Codepoint { codepoint: 0x21FF, name: "LEFT RIGHT OPEN-HEADED ARROW", aliases: &[] },
        Codepoint { codepoint: 0x2200, name: "FOR ALL", aliases: &[] },
        Codepoint { codepoint: 0x2201, name: "COMPLEMENT", aliases: &[] },
        Codepoint { codepoint: 0x2202, name: "PARTIAL DIFFERENTIAL", aliases: &[] },
        Codepoint { codepoint: 0x2203, name: "THERE EXISTS", aliases: &[] },
        Codepoint { codepoint: 0x2204, name: "THERE DOES NOT EXIST", aliases: &[] },
        Codepoint { codepoint: 0x2205, name: "EMPTY SET", aliases: &[] },
        Codepoint { codepoint: 0x2206, name: "INCREMENT", aliases: &[] },
        Codepoint { codepoint: 0x2207, name: "NABLA", aliases: &[] },
        Codepoint { codepoint: 0x2208, name: "ELEMENT OF", aliases: &[] },
        Codepoint { codepoint: 0x2209, name: "NOT AN ELEMENT OF", aliases: &[] },
        Codepoint { codepoint: 0x220A, name: "SMALL ELEMENT OF", aliases: &[] },
        Codepoint { codepoint: 0x220B, name: "CONTAINS AS MEMBER", aliases: &[] },
        Codepoint { codepoint: 0x220C, name: "DOES NOT CONTAIN AS MEMBER", aliases: &[] },
        Codepoint { codepoint: 0x220D, name: "SMALL CONTAINS AS MEMBER", aliases: &[] },
        Codepoint { codepoint: 0x220E, name: "END OF PROOF", aliases: &[] },
        Codepoint { codepoint: 0x220F, name: "N-ARY PRODUCT", aliases: &[] },
    ]
}

fn all_codepoints_195() -> (v: Vec<Codepoint>)
    ensures
        v@ == codepoint_table_195(),
{
    let v = vec![
        Codepoint { codepoint: 0x21E8, name: "RIGHTWARDS WHITE ARROW", aliases: &["WHITE RIGHT ARROW"] },
        Codepoint { codepoint: 0x21E9, name: "DOWNWARDS WHITE ARROW", aliases: &["WHITE DOWN ARROW"] },
        Codepoint { codepoint: 0x21EA, name: "UPWARDS WHITE ARROW FROM BAR", aliases: &["WHITE UP ARROW FROM BAR"] },
        Codepoint { codepoint: 0x21EB, name: "UPWARDS WHITE ARROW ON PEDESTAL", aliases: &[] },
        Codepoint { codepoint: 0x21EC, name: "UPWARDS WHITE ARROW ON PEDESTAL WITH HORIZONTAL BAR", aliases: &[] },
        Codepoint { codepoint: 0x21ED, name: "UPWARDS WHITE ARROW ON PEDESTAL WITH VERTICAL BAR", aliases: &[] },
        Codepoint { codepoint: 0x21EE, name: "UPWARDS WHITE DOUBLE ARROW", aliases: &[] },
        Codepoint { codepoint: 0x21EF, name: "UPWARDS WHITE DOUBLE ARROW ON PEDESTAL", aliases: &[] },
        Codepoint { codepoint: 0x21F0, name: "RIGHTWARDS WHITE ARROW FROM WALL", aliases: &[] },
        Codepoint { codepoint: 0x21F1, name: "NORTH WEST ARROW TO CORNER", aliases: &[] },
        Codepoint { codepoint: 0x21F2, name: "SOUTH EAST ARROW TO CORNER", aliases: &[] },
        Codepoint { codepoint: 0x21F3, name: "UP DOWN WHITE ARROW", aliases: &[] },
        Codepoint { codepoint: 0x21F4, name: "RIGHT ARROW WITH SMALL CIRCLE", aliases: &[] },
        Codepoint { codepoint: 0x21F5, name: "DOWNWARDS ARROW LEFTWARDS OF UPWARDS ARROW", aliases: &[] },
        Codepoint { codepoint: 0x21F6, name: "THREE RIGHTWARDS ARROWS", aliases: &[] },
        Codepoint { codepoint: 0x21F7, name: "LEFTWARDS ARROW WITH VERTICAL STROKE", aliases: &[] },
        Codepoint { codepoint: 0x21F8, name: "RIGHTWARDS ARROW WITH VERTICAL STROKE", aliases: &[] },
        Codepoint { codepoint: 0x21F9, name: "LEFT RIGHT ARROW WITH VERTICAL STROKE", aliases: &[] },
        Codepoint { codepoint: 0x21FA, name: "LEFTWARDS ARROW WITH DOUBLE VERTICAL STROKE", aliases: &[] },
        Codepoint { codepoint: 0x21FB, name: "RIGHTWARDS ARROW WITH DOUBLE VERTICAL STROKE", aliases: &[] },
        Codepoint { codepoint: 0x21FC, name: "LEFT RIGHT ARROW WITH DOUBLE VERTICAL STROKE", aliases: &[] },
        Codepoint { codepoint: 0x21FD, name: "LEFTWARDS OPEN-HEADED ARROW", aliases: &[] },
        Codepoint { codepoint: 0x21FE, name: "RIGHTWARDS OPEN-HEADED ARROW", aliases: &[] },
        Codepoint { codepoint: 0x21FF, name: "LEFT RIGHT OPEN-HEADED ARROW", aliases: &[] },
        Codepoint { codepoint: 0x2200, name: "FOR ALL", aliases: &[] },
        Codepoint { codepoint: 0x2201, name: "COMPLEMENT", aliases: &[] },
        Codepoint { codepoint: 0x2202, name: "PARTIAL DIFFERENTIAL", aliases: &[] },
        Codepoint { codepoint: 0x2203, name: "THERE EXISTS", aliases: &[] },
        Codepoint { codepoint: 0x2204, name: "THERE DOES NOT EXIST", aliases: &[] },
        Codepoint { codepoint: 0x2205, name: "EMPTY SET", aliases: &[] },
        Codepoint { codepoint: 0x2206, name: "INCREMENT", aliases: &[] },
        Codepoint { codepoint: 0x2207, name: "NABLA", aliases: &[] },
        Codepoint { codepoint: 0x2208, name: "ELEMENT OF", aliases: &[] },
        Codepoint { codepoint: 0x2209, name: "NOT AN ELEMENT OF", aliases: &[] },
        Codepoint { codepoint: 0x220A, name: "SMALL ELEMENT OF", aliases: &[] },
        Codepoint { codepoint: 0x220B, name: "CONTAINS AS MEMBER", aliases: &[] },
        Codepoint { codepoint: 0x220C, name: "DOES NOT CONTAIN AS MEMBER", aliases: &[] },
        Codepoint { codepoint: 0x220D, name: "SMALL CONTAINS AS MEMBER", aliases: &[] },
        Codepoint { codepoint: 0x220E, name: "END OF PROOF", aliases: &[] },
        Codepoint { codepoint: 0x220F, name: "N-ARY PRODUCT", aliases: &[] },
    ];
    assert(v@ =~= codepoint_table_195());
    v
}

pub open spec fn codepoint_table_196() -> Seq<Codepoint> {
    seq![
        Codepoint { codepoint: 0x2210, name: "N-ARY COPRODUCT", aliases: &[] },
        Codepoint { codepoint: 0x2211, name: "N-ARY SUMMATION", aliases: &[] },
        Codepoint { codepoint: 0x2212, name: "MINUS SIGN", aliases: &[] },
        Codepoint { codepoint: 0x2213, name: "MINUS-OR-PLUS SIGN", aliases: &[] },
        Codepoint { codepoint: 0x2214, name: "DOT PLUS", aliases: &[] },
        Codepoint { codepoint: 0x2215, name: "DIVISION SLASH", aliases: &[] },
        Codepoint { codepoint: 0x2216, name: "SET MINUS", aliases: &[] },
        Codepoint { codepoint: 0x2217, name: "ASTERISK OPERATOR", aliases: &[] },
        Codepoint { codepoint: 0x2218, name: "RING OPERATOR", aliases: &[] },
        Codepoint { codepoint: 0x2219, name: "BULLET OPERATOR", aliases: &[] },
        Codepoint { codepoint: 0x221A, name: "SQUARE ROOT", aliases: &[] },
        Codepoint { codepoint: 0x221B, name: "CUBE ROOT", aliases: &[] },
        Codepoint { codepoint: 0x221C, name: "FOURTH ROOT", aliases: &[] },
        Codepoint { codepoint: 0x221D, name: "PROPORTIONAL TO", aliases: &[] },
        Codepoint { codepoint: 0x221E, name: "INFINITY", aliases: &[] },
        Codepoint { codepoint: 0x221F, name: "RIGHT ANGLE", aliases: &[] },
        Codepoint { codepoint: 0x2220, name: "ANGLE", aliases: &[] },
        Codepoint { codepoint: 0x2221, name: "MEASURED ANGLE", aliases: &[] },
        Codepoint { codepoint: 0x2222, name: "SPHERICAL ANGLE", aliases: &[] },
        Codepoint { codepoint: 0x2223, name: "DIVIDES", aliases: &[] },
        Codepoint { codepoint: 0x2224, name: "DOES NOT DIVIDE", aliases: &[] },
        Codepoint { codepoint: 0x2225, name: "PARALLEL TO", aliases: &[] },
        Codepoint { codepoint: 0x2226, name: "NOT PARALLEL TO", aliases: &[] },
        Codepoint { codepoint: 0x2227, name: "LOGICAL AND", aliases: &[] },
        Codepoint { codepoint: 0x2228, name: "LOGICAL OR", aliases: &[] },
        Codepoint { codepoint: 0x2229, name: "INTERSECTION", aliases: &[] },
        Codepoint { codepoint: 0x222A, name: "UNION", aliases: &[] },
        Codepoint { codepoint: 0x222B, name: "INTEGRAL", aliases: &[] },
        Codepoint { codepoint: 0x222C, name: "DOUBLE INTEGRAL", aliases: &[] },
        Codepoint { codepoint: 0x222D, name: "TRIPLE INTEGRAL", aliases: &[] },
        Codepoint { codepoint: 0x222E, name: "CONTOUR INTEGRAL", aliases: &[] },
        Codepoint { codepoint: 0x222F, name: "SURFACE INTEGRAL", aliases: &[] },
        Codepoint { codepoint: 0x2230, name: "VOLUME INTEGRAL", aliases: &[] },
        Codepoint { codepoint: 0x2231, name: "CLOCKWISE INTEGRAL", aliases: &[] },
        Codepoint { codepoint: 0x2232, name: "CLOCKWISE CONTOUR INTEGRAL", aliases: &[] },
        Codepoint { codepoint: 0x2233, name: "ANTICLOCKWISE CONTOUR INTEGRAL", aliases: &[] },
        Codepoint { codepoint: 0x2234, name: "THEREFORE", aliases: &[] },
        Codepoint { codepoint: 0x2235, name: "BECAUSE", aliases: &[] },
        Codepoint { codepoint: 0x2236, name: "RATIO", aliases: &[] },
        Codepoint { codepoint: 0x2237, name: "PROPORTION", aliases: &[] },
    ]
}

fn all_codepoints_196() -> (v: Vec<Codepoint>)
    ensures
        v@ == codepoint_table_196(),
{
    let v = vec![
        Codepoint { codepoint: 0x2210, name: "N-ARY COPRODUCT", aliases: &[] },
        Codepoint { codepoint: 0x2211, name: "N-ARY SUMMATION", aliases: &[] },
        Codepoint { codepoint: 0x2212, name: "MINUS SIGN", aliases: &[] },
        Codepoint { codepoint: 0x2213, name: "MINUS-OR-PLUS SIGN", aliases: &[] },
        Codepoint { codepoint: 0x2214, name: "DOT PLUS", aliases: &[] },
        Codepoint { codepoint: 0x2215, name: "DIVISION SLASH", aliases: &[] },
        Codepoint { codepoint: 0x2216, name: "SET MINUS", aliases: &[] },
        Codepoint { codepoint: 0x2217, name: "ASTERISK OPERATOR", aliases: &[] },
        Codepoint { codepoint: 0x2218, name: "RING OPERATOR", aliases: &[] },
        Codepoint { codepoint: 0x2219, name: "BULLET OPERATOR", aliases: &[] },
        Codepoint { codepoint: 0x221A, name: "SQUARE ROOT", aliases: &[] },
        Codepoint { codepoint: 0x221B, name: "CUBE ROOT", aliases: &[] },
        Codepoint { codepoint: 0x221C, name: "FOURTH ROOT", aliases: &[] },
        Codepoint { codepoint: 0x221D, name: "PROPORTIONAL TO", aliases: &[] },
        Codepoint { codepoint: 0x221E, name: "INFINITY", aliases: &[] },
        Codepoint { codepoint: 0x221F, name: "RIGHT ANGLE", aliases: &[] },
        Codepoint { codepoint: 0x2220, name: "ANGLE", aliases: &[] },
        Codepoint { codepoint: 0x2221, name: "MEASURED ANGLE", aliases: &[] },
        Codepoint { codepoint: 0x2222, name: "SPHERICAL ANGLE", aliases: &[] },
        Codepoint { codepoint: 0x2223, name: "DIVIDES", aliases: &[] },
        Codepoint { codepoint: 0x2224, name: "DOES NOT DIVIDE", aliases: &[] },
        Codepoint { codepoint: 0x2225, name: "PARALLEL TO", aliases: &[] },
        Codepoint { codepoint: 0x2226, name: "NOT PARALLEL TO", aliases: &[] },
        Codepoint { codepoint: 0x2227, name: "LOGICAL AND", aliases: &[] },
        Codepoint { codepoint: 0x2228, name: "LOGICAL OR", aliases: &[] },
        Codepoint { codepoint: 0x2229, name: "INTERSECTION", aliases: &[] },
        Codepoint { codepoint: 0x222A, name: "UNION", aliases: &[] },
        Codepoint { codepoint: 0x222B, name: "INTEGRAL", aliases: &[] },
        Codepoint { codepoint: 0x222C, name: "DOUBLE INTEGRAL", aliases: &[] },
        Codepoint { codepoint: 0x222D, name: "TRIPLE INTEGRAL", aliases: &[] },
        Codepoint { codepoint: 0x222E, name: "CONTOUR INTEGRAL", aliases: &[] },
        Codepoint { codepoint: 0x222F, name: "SURFACE INTEGRAL", aliases: &[] },
        Codepoint { codepoint: 0x2230, name: "VOLUME INTEGRAL", aliases: &[] },
        Codepoint { codepoint: 0x2231, name: "CLOCKWISE INTEGRAL", aliases: &[] },
        Codepoint { codepoint: 0x2232, name: "CLOCKWISE CONTOUR INTEGRAL", aliases: &[] },
        Codepoint { codepoint: 0x2233, name: "ANTICLOCKWISE CONTOUR INTEGRAL", aliases: &[] },
        Codepoint { codepoint: 0x2234, name: "THEREFORE", aliases: &[] },
        Codepoint { codepoint: 0x2235, name: "BECAUSE", aliases: &[] },
        Codepoint { codepoint: 0x2236, name: "RATIO", aliases: &[] },
        Codepoint { codepoint: 0x2237, name: "PROPORTION", aliases: &[] },
    ];
    assert(v@ =~= codepoint_table_196());
    v
}

pub open spec fn codepoint_table_197() -> Seq<Codepoint> {
    seq![
        Codepoint { codepoint: 0x2238, name: "DOT MINUS", aliases: &[] },
        Codepoint { codepoint: 0x2239, name: "EXCESS", aliases: &[] },
        Codepoint { codepoint: 0x223A, name: "GEOMETRIC PROPORTION", aliases: &[] },
        Codepoint { codepoint: 0x223B, name: "HOMOTHETIC", aliases: &[] },
        Codepoint { codepoint: 0x223C, name: "TILDE OPERATOR", aliases: &[] },
        Codepoint { codepoint: 0x223D, name: "REVERSED TILDE", aliases: &[] },
        Codepoint { codepoint: 0x223E, name: "INVERTED LAZY S", aliases: &[] },
        Codepoint { codepoint: 0x223F, name: "SINE WAVE", aliases: &[] },
        Codepoint { codepoint: 0x2240, name: "WREATH PRODUCT", aliases: &[] },
        Codepoint { codepoint: 0x2241, name: "NOT TILDE", aliases: &[] },
        Codepoint { codepoint: 0x2242, name: "MINUS TILDE", aliases: &[] },
        Codepoint { codepoint: 0x2243, name: "ASYMPTOTICALLY EQUAL TO", aliases: &[] },
        Codepoint { codepoint: 0x2244, name: "NOT ASYMPTOTICALLY EQUAL TO", aliases: &[] },
        Codepoint { codepoint: 0x2245, name: "APPROXIMATELY EQUAL TO", aliases: &[] },
        Codepoint { codepoint: 0x2246, name: "APPROXIMATELY BUT NOT ACTUALLY EQUAL TO", aliases: &[] },
        Codepoint { codepoint: 0x2247, name: "NEITHER APPROXIMATELY NOR ACTUALLY EQUAL TO", aliases: &[] },
        Codepoint { codepoint: 0x2248, name: "ALMOST EQUAL TO", aliases: &[] },
        Codepoint { codepoint: 0x2249, name: "NOT ALMOST EQUAL TO", aliases: &[] },
        Codepoint { codepoint: 0x224A, name: "ALMOST EQUAL OR EQUAL TO", aliases: &[] },
        Codepoint { codepoint: 0x224B, name: "TRIPLE TILDE", aliases: &[] },
        Codepoint { codepoint: 0x224C, name: "ALL EQUAL TO", aliases: &[] },
        Codepoint { codepoint: 0x224D, name: "EQUIVALENT TO", aliases: &[] },
        Codepoint { codepoint: 0x224E, name: "GEOMETRICALLY EQUIVALENT TO", aliases: &[] },
        Codepoint { codepoint: 0x224F, name: "DIFFERENCE BETWEEN", aliases: &[] },
        Codepoint { codepoint: 0x2250, name: "APPROACHES THE LIMIT", aliases: &[] },
        Codepoint { codepoint: 0x2251, name: "GEOMETRICALLY EQUAL TO", aliases: &[] },
        Codepoint { codepoint: 0x2252, name: "APPROXIMATELY EQUAL TO OR THE IMAGE OF", aliases: &[] },
        Codepoint { codepoint: 0x2253, name: "IMAGE OF OR APPROXIMATELY EQUAL TO", aliases: &[] },
        Codepoint { codepoint: 0x2254, name: "COLON EQUALS", aliases: &["COLON EQUAL"] },
        Codepoint { codepoint: 0x2255, name: "EQUALS COLON", aliases: &["EQUAL COLON"] },
        Codepoint { codepoint: 0x2256, name: "RING IN EQUAL TO", aliases: &[] },
        Codepoint { codepoint: 0x2257, name: "RING EQUAL TO", aliases: &[] },
        Codepoint { codepoint: 0x2258, name: "CORRESPONDS TO", aliases: &[] },
        Codepoint { codepoint: 0x2259, name: "ESTIMATES", aliases: &[] },
        Codepoint { codepoint: 0x225A, name: "EQUIANGULAR TO", aliases: &[] },
        Codepoint { codepoint: 0x225B, name: "STAR EQUALS", aliases: &[] },
        Codepoint { codepoint: 0x225C, name: "DELTA EQUAL TO", aliases: &[] },
        Codepoint { codepoint: 0x225D, name: "EQUAL TO BY DEFINITION", aliases: &[] },
        Codepoint { codepoint: 0x225E, name: "MEASURED BY", aliases: &[] },
        Codepoint { codepoint: 0x225F, name: "QUESTIONED EQUAL TO", aliases: &[] },
    ]
}

fn all_codepoints_197() -> (v: Vec<Codepoint>)
    ensures
        v@ == codepoint_table_197(),
{
    let v = vec![
        Codepoint { codepoint: 0x2238, name: "DOT MINUS", aliases: &[] },
        Codepoint { codepoint: 0x2239, name: "EXCESS", aliases: &[] },
        Codepoint { codepoint: 0x223A, name: "GEOMETRIC PROPORTION", aliases: &[] },
        Codepoint { codepoint: 0x223B, name: "HOMOTHETIC", aliases: &[] },
        Codepoint { codepoint: 0x223C, name: "TILDE OPERATOR", aliases: &[] },
        Codepoint { codepoint: 0x223D, name: "REVERSED TILDE", aliases: &[] },
        Codepoint { codepoint: 0x223E, name: "INVERTED LAZY S", aliases: &[] },
        Codepoint { codepoint: 0x223F, name: "SINE WAVE", aliases: &[] },
        Codepoint { codepoint: 0x2240, name: "WREATH PRODUCT", aliases: &[] },
        Codepoint { codepoint: 0x2241, name: "NOT TILDE", aliases: &[] },
        Codepoint { codepoint: 0x2242, name: "MINUS TILDE", aliases: &[] },
        Codepoint { codepoint: 0x2243, name: "ASYMPTOTICALLY EQUAL TO", aliases: &[] },
        Codepoint { codepoint: 0x2244, name: "NOT ASYMPTOTICALLY EQUAL TO", aliases: &[] },
        Codepoint { codepoint: 0x2245, name: "APPROXIMATELY EQUAL TO", aliases: &[] },
        Codepoint { codepoint: 0x2246, name: "APPROXIMATELY BUT NOT ACTUALLY EQUAL TO", aliases: &[] },
        Codepoint { codepoint: 0x2247, name: "NEITHER APPROXIMATELY NOR ACTUALLY EQUAL TO", aliases: &[] },
        Codepoint { codepoint: 0x2248, name: "ALMOST EQUAL TO", aliases: &[] },
        Codepoint { codepoint: 0x2249, name: "NOT ALMOST EQUAL TO", aliases: &[] },
        Codepoint { codepoint: 0x224A, name: "ALMOST EQUAL OR EQUAL TO", aliases: &[] },
        Codepoint { codepoint: 0x224B, name: "TRIPLE TILDE", aliases: &[] },
        Codepoint { codepoint: 0x224C, name: "ALL EQUAL TO", aliases: &[] },
        Codepoint { codepoint: 0x224D, name: "EQUIVALENT TO", aliases: &[] },
        Codepoint { codepoint: 0x224E, name: "GEOMETRICALLY EQUIVALENT TO", aliases: &[] },
        Codepoint { codepoint: 0x224F, name: "DIFFERENCE BETWEEN", aliases: &[] },
        Codepoint { codepoint: 0x2250, name: "APPROACHES THE LIMIT", aliases: &[] },
        Codepoint { codepoint: 0x2251, name: "GEOMETRICALLY EQUAL TO", aliases: &[] },
        Codepoint { codepoint: 0x2252, name: "APPROXIMATELY EQUAL TO OR THE IMAGE OF", aliases: &[] },
        Codepoint { codepoint: 0x2253, name: "IMAGE OF OR APPROXIMATELY EQUAL TO", aliases: &[] },
        Codepoint { codepoint: 0x2254, name: "COLON EQUALS", aliases: &["COLON EQUAL"] },
        Codepoint { codepoint: 0x2255, name: "EQUALS COLON", aliases: &["EQUAL COLON"] },
        Codepoint { codepoint: 0x2256, name: "RING IN EQUAL TO", aliases: &[] },
        Codepoint { codepoint: 0x2257, name: "RING EQUAL TO", aliases: &[] },
        Codepoint { codepoint: 0x2258, name: "CORRESPONDS TO", aliases: &[] },
        Codepoint { codepoint: 0x2259, name: "ESTIMATES", aliases: &[] },
        Codepoint { codepoint: 0x225A, name: "EQUIANGULAR TO", aliases: &[] },
        Codepoint { codepoint: 0x225B, name: "STAR EQUALS", aliases: &[] },
        Codepoint { codepoint: 0x225C, name: "DELTA EQUAL TO", aliases: &[] },
        Codepoint { codepoint: 0x225D, name: "EQUAL TO BY DEFINITION", aliases: &[] },
        Codepoint { codepoint: 0x225E, name: "MEASURED BY", aliases: &[] },
        Codepoint { codepoint: 0x225F, name: "QUESTIONED EQUAL TO", aliases: &[] },
    ];
    assert(v@ =~= codepoint_table_197());
    v
}

pub open spec fn codepoint_table_198() -> Seq<Codepoint> {
    seq![
        Codepoint { codepoint: 0x2260, name: "NOT EQUAL TO", aliases: &[] },
        Codepoint { codepoint: 0x2261, name: "IDENTICAL TO", aliases: &[] },
        Codepoint { codepoint: 0x2262, name: "NOT IDENTICAL TO", aliases: &[] },
        Codepoint { codepoint: 0x2263, name: "STRICTLY EQUIVALENT TO", aliases: &[] },
        Codepoint { codepoint: 0x2264, name: "LESS-THAN OR EQUAL TO", aliases: &["LESS THAN OR EQUAL TO"] },
        Codepoint { codepoint: 0x2265, name: "GREATER-THAN OR EQUAL TO", aliases: &["GREATER THAN OR EQUAL TO"] },
        Codepoint { codepoint: 0x2266, name: "LESS-THAN OVER EQUAL TO", aliases: &["LESS THAN OVER EQUAL TO"] },
        Codepoint { codepoint: 0x2267, name: "GREATER-THAN OVER EQUAL TO", aliases: &["GREATER THAN OVER EQUAL TO"] },
        Codepoint { codepoint: 0x2268, name: "LESS-THAN BUT NOT EQUAL TO", aliases: &["LESS THAN BUT NOT EQUAL TO"] },
        Codepoint { codepoint: 0x2269, name: "GREATER-THAN BUT NOT EQUAL TO", aliases: &["GREATER THAN BUT NOT EQUAL TO"] },
        Codepoint { codepoint: 0x226A, name: "MUCH LESS-THAN", aliases: &["MUCH LESS THAN"] },
        Codepoint { codepoint: 0x226B, name: "MUCH GREATER-THAN", aliases: &["MUCH GREATER THAN"] },
        Codepoint { codepoint: 0x226C, name: "BETWEEN", aliases: &[] },
        Codepoint { codepoint: 0x226D, name: "NOT EQUIVALENT TO", aliases: &[] },
        Codepoint { codepoint: 0x226E, name: "NOT LESS-THAN", aliases: &["NOT LESS THAN"] },
        Codepoint { codepoint: 0x226F, name: "NOT GREATER-THAN", aliases: &["NOT GREATER THAN"] },
        Codepoint { codepoint: 0x2270, name: "NEITHER LESS-THAN NOR EQUAL TO", aliases: &["NEITHER LESS THAN NOR EQUAL TO"] },
        Codepoint { codepoint: 0x2271, name: "NEITHER GREATER-THAN NOR EQUAL TO", aliases: &["NEITHER GREATER THAN NOR EQUAL TO"] },
        Codepoint { codepoint: 0x2272, name: "LESS-THAN OR EQUIVALENT TO", aliases: &["LESS THAN OR EQUIVALENT TO"] },
        Codepoint { codepoint: 0x2273, name: "GREATER-THAN OR EQUIVALENT TO", aliases: &["GREATER THAN OR EQUIVALENT TO"] },
        Codepoint { codepoint: 0x2274, name: "NEITHER LESS-THAN NOR EQUIVALENT TO", aliases: &["NEITHER LESS THAN NOR EQUIVALENT TO"] },
        Codepoint { codepoint: 0x2275, name: "NEITHER GREATER-THAN NOR EQUIVALENT TO", aliases: &["NEITHER GREATER THAN NOR EQUIVALENT TO"] },
        Codepoint { codepoint: 0x2276, name: "LESS-THAN OR GREATER-THAN", aliases: &["LESS THAN OR GREATER THAN"] },
        Codepoint { codepoint: 0x2277, name: "GREATER-THAN OR LESS-THAN", aliases: &["GREATER THAN OR LESS THAN"] },
        Codepoint { codepoint: 0x2278, name: "NEITHER LESS-THAN NOR GREATER-THAN", aliases: &["NEITHER LESS THAN NOR GREATER THAN"] },
        Codepoint { codepoint: 0x2279, name: "NEITHER GREATER-THAN NOR LESS-THAN", aliases: &["NEITHER GREATER THAN NOR LESS THAN"] },
        Codepoint { codepoint: 0x227A, name: "PRECEDES", aliases: &[] },
        Codepoint { codepoint: 0x227B, name: "SUCCEEDS", aliases: &[] },
        Codepoint { codepoint: 0x227C, name: "PRECEDES OR EQUAL TO", aliases: &[] },
        Codepoint { codepoint: 0x227D, name: "SUCCEEDS OR EQUAL TO", aliases: &[] },
        Codepoint { codepoint: 0x227E, name: "PRECEDES OR EQUIVALENT TO", aliases: &[] },
        Codepoint { codepoint: 0x227F, name: "SUCCEEDS OR EQUIVALENT TO", aliases: &[] },
        Codepoint { codepoint: 0x2280, name: "DOES NOT PRECEDE", aliases: &[] },
        Codepoint { codepoint: 0x2281, name: "DOES NOT SUCCEED", aliases: &[] },
        Codepoint { codepoint: 0x2282, name: "SUBSET OF", aliases: &[] },
        Codepoint { codepoint: 0x2283, name: "SUPERSET OF", aliases: &[] },
        Codepoint { codepoint: 0x2284, name: "NOT A SUBSET OF", aliases: &[] },
        Codepoint { codepoint: 0x2285, name: "NOT A SUPERSET OF", aliases: &[] },
        Codepoint { codepoint: 0x2286, name: "SUBSET OF OR EQUAL TO", aliases: &[] },
        Codepoint { codepoint: 0x2287, name: "SUPERSET OF OR EQUAL TO", aliases: &[] },
    ]
}

fn all_codepoints_198() -> (v: Vec<Codepoint>)
    ensures
        v@ == codepoint_table_198(),
{
    let v = vec![
        Codepoint { codepoint: 0x2260, name: "NOT EQUAL TO", aliases: &[] },
        Codepoint { codepoint: 0x2261, name: "IDENTICAL TO", aliases: &[] },
        Codepoint { codepoint: 0x2262, name: "NOT IDENTICAL TO", aliases: &[] },
        Codepoint { codepoint: 0x2263, name: "STRICTLY EQUIVALENT TO", aliases: &[] },
        Codepoint { codepoint: 0x2264, name: "LESS-THAN OR EQUAL TO", aliases: &["LESS THAN OR EQUAL TO"] },
        Codepoint { codepoint: 0x2265, name: "GREATER-THAN OR EQUAL TO", aliases: &["GREATER THAN OR EQUAL TO"] },
        Codepoint { codepoint: 0x2266, name: "LESS-THAN OVER EQUAL TO", aliases: &["LESS THAN OVER EQUAL TO"] },
        Codepoint { codepoint: 0x2267, name: "GREATER-THAN OVER EQUAL TO", aliases: &["GREATER THAN OVER EQUAL TO"] },
        Codepoint { codepoint: 0x2268, name: "LESS-THAN BUT NOT EQUAL TO", aliases: &["LESS THAN BUT NOT EQUAL TO"] },
        Codepoint { codepoint: 0x2269, name: "GREATER-THAN BUT NOT EQUAL TO", aliases: &["GREATER THAN BUT NOT EQUAL TO"] },
        Codepoint { codepoint: 0x226A, name: "MUCH LESS-THAN", aliases: &["MUCH LESS THAN"] },
        Codepoint { codepoint: 0x226B, name: "MUCH GREATER-THAN", aliases: &["MUCH GREATER THAN"] },
        Codepoint { codepoint: 0x226C, name: "BETWEEN", aliases: &[] },
        Codepoint { codepoint: 0x226D, name: "NOT EQUIVALENT TO", aliases: &[] },
        Codepoint { codepoint: 0x226E, name: "NOT LESS-THAN", aliases: &["NOT LESS THAN"] },
        Codepoint { codepoint: 0x226F, name: "NOT GREATER-THAN", aliases: &["NOT GREATER THAN"] },
        Codepoint { codepoint: 0x2270, name: "NEITHER LESS-THAN NOR EQUAL TO", aliases: &["NEITHER LESS THAN NOR EQUAL TO"] },
        Codepoint { codepoint: 0x2271, name: "NEITHER GREATER-THAN NOR EQUAL TO", aliases: &["NEITHER GREATER THAN NOR EQUAL TO"] },
        Codepoint { codepoint: 0x2272, name: "LESS-THAN OR EQUIVALENT TO", aliases: &["LESS THAN OR EQUIVALENT TO"] },
        Codepoint { codepoint: 0x2273, name: "GREATER-THAN OR EQUIVALENT TO", aliases: &["GREATER THAN OR EQUIVALENT TO"] },
        Codepoint { codepoint: 0x2274, name: "NEITHER LESS-THAN NOR EQUIVALENT TO", aliases: &["NEITHER LESS THAN NOR EQUIVALENT TO"] },
        Codepoint { codepoint: 0x2275, name: "NEITHER GREATER-THAN NOR EQUIVALENT TO", aliases: &["NEITHER GREATER THAN NOR EQUIVALENT TO"] },
        Codepoint { codepoint: 0x2276, name: "LESS-THAN OR GREATER-THAN", aliases: &["LESS THAN OR GREATER THAN"] },
        Codepoint { codepoint: 0x2277, name: "GREATER-THAN OR LESS-THAN", aliases: &["GREATER THAN OR LESS THAN"] },
        Codepoint { codepoint: 0x2278, name: "NEITHER LESS-THAN NOR GREATER-THAN", aliases: &["NEITHER LESS THAN NOR GREATER THAN"] },
        Codepoint { codepoint: 0x2279, name: "NEITHER GREATER-THAN NOR LESS-THAN", aliases: &["NEITHER GREATER THAN NOR LESS THAN"] },
        Codepoint { codepoint: 0x227A, name: "PRECEDES", aliases: &[] },
        Codepoint { codepoint: 0x227B, name: "SUCCEEDS", aliases: &[] },
        Codepoint { codepoint: 0x227C, name: "PRECEDES OR EQUAL TO", aliases: &[] },
        Codepoint { codepoint: 0x227D, name: "SUCCEEDS OR EQUAL TO", aliases: &[] },
        Codepoint { codepoint: 0x227E, name: "PRECEDES OR EQUIVALENT TO", aliases: &[] },
        Codepoint { codepoint: 0x227F, name: "SUCCEEDS OR EQUIVALENT TO", aliases: &[] },
        Codepoint { codepoint: 0x2280, name: "DOES NOT PRECEDE", aliases: &[] },
        Codepoint { codepoint: 0x2281, name: "DOES NOT SUCCEED", aliases: &[] },
        Codepoint { codepoint: 0x2282, name: "SUBSET OF", aliases: &[] },
        Codepoint { codepoint: 0x2283, name: "SUPERSET OF", aliases: &[] },
        Codepoint { codepoint: 0x2284, name: "NOT A SUBSET OF", aliases: &[] },
        Codepoint { codepoint: 0x2285, name: "NOT A SUPERSET OF", aliases: &[] },
        Codepoint { codepoint: 0x2286, name: "SUBSET OF OR EQUAL TO", aliases: &[] },
        Codepoint { codepoint: 0x2287, name: "SUPERSET OF OR EQUAL TO", aliases: &[] },
    ];
    assert(v@ =~= codepoint_table_198());
    v
}

pub open spec fn codepoint_table_199() -> Seq<Codepoint> {
    seq![
        Codepoint { codepoint: 0x2288, name: "NEITHER A SUBSET OF NOR EQUAL TO", aliases: &[] },
        Codepoint { codepoint: 0x2289, name: "NEITHER A SUPERSET OF NOR EQUAL TO", aliases: &[] },
        Codepoint { codepoint: 0x228A, name: "SUBSET OF WITH NOT EQUAL TO", aliases: &["SUBSET OF OR NOT EQUAL TO"] },
        Codepoint { codepoint: 0x228B, name: "SUPERSET OF WITH NOT EQUAL TO", aliases: &["SUPERSET OF OR NOT EQUAL TO"] },
        Codepoint { codepoint: 0x228C, name: "MULTISET", aliases: &[] },
        Codepoint { codepoint: 0x228D, name: "MULTISET MULTIPLICATION", aliases: &[] },
        Codepoint { codepoint: 0x228E, name: "MULTISET UNION", aliases: &[] },
        Codepoint { codepoint: 0x228F, name: "SQUARE IMAGE OF", aliases: &[] },
        Codepoint { codepoint: 0x2290, name: "SQUARE ORIGINAL OF", aliases: &[] },
        Codepoint { codepoint: 0x2291, name: "SQUARE IMAGE OF OR EQUAL TO", aliases: &[] },
        Codepoint { codepoint: 0x2292, name: "SQUARE ORIGINAL OF OR EQUAL TO", aliases: &[] },
        Codepoint { codepoint: 0x2293, name: "SQUARE CAP", aliases: &[] },
        Codepoint { codepoint: 0x2294, name: "SQUARE CUP", aliases: &[] },
        Codepoint { codepoint: 0x2295, name: "CIRCLED PLUS", aliases: &[] },
        Codepoint { codepoint: 0x2296, name: "CIRCLED MINUS", aliases: &[] },
        Codepoint { codepoint: 0x2297, name: "CIRCLED TIMES", aliases: &[] },
        Codepoint { codepoint: 0x2298, name: "CIRCLED DIVISION SLASH", aliases: &[] },
        Codepoint { codepoint: 0x2299, name: "CIRCLED DOT OPERATOR", aliases: &[] },
        Codepoint { codepoint: 0x229A, name: "CIRCLED RING OPERATOR", aliases: &[] },
        Codepoint { codepoint: 0x229B, name: "CIRCLED ASTERISK OPERATOR", aliases: &[] },
        Codepoint { codepoint: 0x229C, name: "CIRCLED EQUALS", aliases: &[] },
        Codepoint { codepoint: 0x229D, name: "CIRCLED DASH", aliases: &[] },
        Codepoint { codepoint: 0x229E, name: "SQUARED PLUS", aliases: &[] },
        Codepoint { codepoint: 0x229F, name: "SQUARED MINUS", aliases: &[] },
        Codepoint { codepoint: 0x22A0, name: "SQUARED TIMES", aliases: &[] },
        Codepoint { codepoint: 0x22A1, name: "SQUARED DOT OPERATOR", aliases: &[] },
        Codepoint { codepoint: 0x22A2, name: "RIGHT TACK", aliases: &[] },
        Codepoint { codepoint: 0x22A3, name: "LEFT TACK", aliases: &[] },
        Codepoint { codepoint: 0x22A4, name: "DOWN TACK", aliases: &[] },
        Codepoint { codepoint: 0x22A5, name: "UP TACK", aliases: &[] },
        Codepoint { codepoint: 0x22A6, name: "ASSERTION", aliases: &[] },
        Codepoint { codepoint: 0x22A7, name: "MODELS", aliases: &[] },
        Codepoint { codepoint: 0x22A8, name: "TRUE", aliases: &[] },
        Codepoint { codepoint: 0x22A9, name: "FORCES", aliases: &[] },
        Codepoint { codepoint: 0x22AA, name: "TRIPLE VERTICAL BAR RIGHT TURNSTILE", aliases: &[] },
        Codepoint { codepoint: 0x22AB, name: "DOUBLE VERTICAL BAR DOUBLE RIGHT TURNSTILE", aliases: &[] },
        Codepoint { codepoint: 0x22AC, name: "DOES NOT PROVE", aliases: &[] },
        Codepoint { codepoint: 0x22AD, name: "NOT TRUE", aliases: &[] },
        Codepoint { codepoint: 0x22AE, name: "DOES NOT FORCE", aliases: &[] },
        Codepoint { codepoint: 0x22AF, name: "NEGATED DOUBLE VERTICAL BAR DOUBLE RIGHT TURNSTILE", aliases: &[] },
    ]
}

fn all_codepoints_199() -> (v: Vec<Codepoint>)
    ensures
        v@ == codepoint_table_199(),
{
    let v = vec![
        Codepoint { codepoint: 0x2288, name: "NEITHER A SUBSET OF NOR EQUAL TO", aliases: &[] },
        Codepoint { codepoint: 0x2289, name: "NEITHER A SUPERSET OF NOR EQUAL TO", aliases: &[] },
        Codepoint { codepoint: 0x228A, name: "SUBSET OF WITH NOT EQUAL TO", aliases: &["SUBSET OF OR NOT EQUAL TO"] },
        Codepoint { codepoint: 0x228B, name: "SUPERSET OF WITH NOT EQUAL TO", aliases: &["SUPERSET OF OR NOT EQUAL TO"] },
        Codepoint { codepoint: 0x228C, name: "MULTISET", aliases: &[] },
        Codepoint { codepoint: 0x228D, name: "MULTISET MULTIPLICATION", aliases: &[] },
        Codepoint { codepoint: 0x228E, name: "MULTISET UNION", aliases: &[] },
        Codepoint { codepoint: 0x228F, name: "SQUARE IMAGE OF", aliases: &[] },
        Codepoint { codepoint: 0x2290, name: "SQUARE ORIGINAL OF", aliases: &[] },
        Codepoint { codepoint: 0x2291, name: "SQUARE IMAGE OF OR EQUAL TO", aliases: &[] },
        Codepoint { codepoint: 0x2292, name: "SQUARE ORIGINAL OF OR EQUAL TO", aliases: &[] },
        Codepoint { codepoint: 0x2293, name: "SQUARE CAP", aliases: &[] },
        Codepoint { codepoint: 0x2294, name: "SQUARE CUP", aliases: &[] },
        Codepoint { codepoint: 0x2295, name: "CIRCLED PLUS", aliases: &[] },
        Codepoint { codepoint: 0x2296, name: "CIRCLED MINUS", aliases: &[] },
        Codepoint { codepoint: 0x2297, name: "CIRCLED TIMES", aliases: &[] },
        Codepoint { codepoint: 0x2298, name: "CIRCLED DIVISION SLASH", aliases: &[] },
        Codepoint { codepoint: 0x2299, name: "CIRCLED DOT OPERATOR", aliases: &[] },
        Codepoint { codepoint: 0x229A, name: "CIRCLED RING OPERATOR", aliases: &[] },
        Codepoint { codepoint: 0x229B, name: "CIRCLED ASTERISK OPERATOR", aliases: &[] },
        Codepoint { codepoint: 0x229C, name: "CIRCLED EQUALS", aliases: &[] },
        Codepoint { codepoint: 0x229D, name: "CIRCLED DASH", aliases: &[] },
        Codepoint { codepoint: 0x229E, name: "SQUARED PLUS", aliases: &[] },
        Codepoint { codepoint: 0x229F, name: "SQUARED MINUS", aliases: &[] },
        Codepoint { codepoint: 0x22A0, name: "SQUARED TIMES", aliases: &[] },
        Codepoint { codepoint: 0x22A1, name: "SQUARED DOT OPERATOR", aliases: &[] },
        Codepoint { codepoint: 0x22A2, name: "RIGHT TACK", aliases: &[] },
        Codepoint { codepoint: 0x22A3, name: "LEFT TACK", aliases: &[] },
        Codepoint { codepoint: 0x22A4, name: "DOWN TACK", aliases: &[] },
        Codepoint { codepoint: 0x22A5, name: "UP TACK", aliases: &[] },
        Codepoint { codepoint: 0x22A6, name: "ASSERTION", aliases: &[] },
        Codepoint { codepoint: 0x22A7, name: "MODELS", aliases: &[] },
        Codepoint { codepoint: 0x22A8, name: "TRUE", aliases: &[] },
        Codepoint { codepoint: 0x22A9, name: "FORCES", aliases: &[] },
        Codepoint { codepoint: 0x22AA, name: "TRIPLE VERTICAL BAR RIGHT TURNSTILE", aliases: &[] },
        Codepoint { codepoint: 0x22AB, name: "DOUBLE VERTICAL BAR DOUBLE RIGHT TURNSTILE", aliases: &[] },
        Codepoint { codepoint: 0x22AC, name: "DOES NOT PROVE", aliases: &[] },
        Codepoint { codepoint: 0x22AD, name: "NOT TRUE", aliases: &[] },
        Codepoint { codepoint: 0x22AE, name: "DOES NOT FORCE", aliases: &[] },
        Codepoint { codepoint: 0x22AF, name: "NEGATED DOUBLE VERTICAL BAR DOUBLE RIGHT TURNSTILE", aliases: &[] },
    ];
    assert(v@ =~= codepoint_table_199());
    v
}

/// The entries from position 7200 of the table, 800 at most.
pub open spec fn codepoint_group_9() -> Seq<Codepoint> {
    codepoint_table_180() + codepoint_table_181() + codepoint_table_182() + codepoint_table_183() + codepoint_table_184() + codepoint_table_185() + codepoint_table_186() + codepoint_table_187() + codepoint_table_188() + codepoint_table_189() + codepoint_table_190() + codepoint_table_191() + codepoint_table_192() + codepoint_table_193() + codepoint_table_194() + codepoint_table_195() + codepoint_table_196() + codepoint_table_197() + codepoint_table_198() + codepoint_table_199()
}

pub fn all_codepoints_group_9() -> (v: Vec<Codepoint>)
    ensures
        v@ == codepoint_group_9(),
{
    let mut v = all_codepoints_180();
    let mut part = all_codepoints_181();
    v.append(&mut part);
    let mut part = all_codepoints_182();
    v.append(&mut part);
    let mut part = all_codepoints_183();
    v.append(&mut part);
    let mut part = all_codepoints_184();
    v.append(&mut part);
    let mut part = all_codepoints_185();
    v.append(&mut part);
    let mut part = all_codepoints_186();
    v.append(&mut part);
    let mut part = all_codepoints_187();
    v.append(&mut part);
    let mut part = all_codepoints_188();
    v.append(&mut part);
    let mut part = all_codepoints_189();
    v.append(&mut part);
    let mut part = all_codepoints_190();
    v.append(&mut part);
    let mut part = all_codepoints_191();
    v.append(&mut part);
    let mut part = all_codepoints_192();
    v.append(&mut part);
    let mut part = all_codepoints_193();
    v.append(&mut part);
    let mut part = all_codepoints_194();
    v.append(&mut part);
    let mut part = all_codepoints_195();
    v.append(&mut part);
    let mut part = all_codepoints_196();
    v.append(&mut part);
    let mut part = all_codepoints_197();
    v.append(&mut part);
    let mut part = all_codepoints_198();
    v.append(&mut part);
    let mut part = all_codepoints_199();
    v.append(&mut part);
    v
}

proof fn lemma_dense_0()
    ensures
        codepoint_table_0().len() == 40,
        forall|k: int| 0 <= k < 40 ==> #[trigger] codepoint_table_0()[k].codepoint == 0 + k,
{
    let t = codepoint_table_0();
    assert forall|k: int| 0 <= k < 40 implies #[trigger] t[k].codepoint == 0 + k by {}
}

proof fn lemma_dense_1()
    ensures
        codepoint_table_1().len() == 40,
        forall|k: int| 0 <= k < 40 ==> #[trigger] codepoint_table_1()[k].codepoint == 40 + k,
{
    let t = codepoint_table_1();
    assert forall|k: int| 0 <= k < 40 implies #[trigger] t[k].codepoint == 40 + k by {}
}

proof fn lemma_dense_2()
    ensures
        codepoint_table_2().len() == 40,
        forall|k: int| 0 <= k < 40 ==> #[trigger] codepoint_table_2()[k].codepoint == 80 + k,
{
    let t = codepoint_table_2();
    assert forall|k: int| 0 <= k < 40 implies #[trigger] t[k].codepoint == 80 + k by {}
}

proof fn lemma_dense_3()
    ensures
        codepoint_table_3().len() == 40,
        forall|k: int| 0 <= k < 40 ==> #[trigger] codepoint_table_3()[k].codepoint == 120 + k,
{
    let t = codepoint_table_3();
    assert forall|k: int| 0 <= k < 40 implies #[trigger] t[k].codepoint == 120 + k by {}
}

proof fn lemma_dense_4()
    ensures
        codepoint_table_4().len() == 40,
        forall|k: int| 0 <= k < 40 ==> #[trigger] codepoint_table_4()[k].codepoint == 160 + k,
{
    let t = codepoint_table_4();
    assert forall|k: int| 0 <= k < 40 implies #[trigger] t[k].codepoint == 160 + k by {}
}

proof fn lemma_dense_5()
    ensures
        codepoint_table_5().len() == 40,
        forall|k: int| 0 <= k < 40 ==> #[trigger] codepoint_table_5()[k].codepoint == 200 + k,
{
    let t = codepoint_table_5();
    assert forall|k: int| 0 <= k < 40 implies #[trigger] t[k].codepoint == 200 + k by {}
}

proof fn lemma_dense_6()
    ensures
        codepoint_table_6().len() == 40,
        forall|k: int| 0 <= k < 40 ==> #[trigger] codepoint_table_6()[k].codepoint == 240 + k,
{
    let t = codepoint_table_6();
    assert forall|k: int| 0 <= k < 40 implies #[trigger] t[k].codepoint == 240 + k by {}
}

proof fn lemma_dense_7()
    ensures
        codepoint_table_7().len() == 40,
        forall|k: int| 0 <= k < 40 ==> #[trigger] codepoint_table_7()[k].codepoint == 280 + k,
{
    let t = codepoint_table_7();
    assert forall|k: int| 0 <= k < 40 implies #[trigger] t[k].codepoint == 280 + k by {}
}

proof fn lemma_dense_8()
    ensures
        codepoint_table_8().len() == 40,
        forall|k: int| 0 <= k < 40 ==> #[trigger] codepoint_table_8()[k].codepoint == 320 + k,
{
    let t = codepoint_table_8();
    assert forall|k: int| 0 <= k < 40 implies #[trigger] t[k].codepoint == 320 + k by {}
}

proof fn lemma_dense_9()
    ensures
        codepoint_table_9().len() == 40,
        forall|k: int| 0 <= k < 40 ==> #[trigger] codepoint_table_9()[k].codepoint == 360 + k,
{
    let t = codepoint_table_9();
    assert forall|k: int| 0 <= k < 40 implies #[trigger] t[k].codepoint == 360 + k by {}
}

proof fn lemma_dense_10()
    ensures
        codepoint_table_10().len() == 40,
        forall|k: int| 0 <= k < 40 ==> #[trigger] codepoint_table_10()[k].codepoint == 400 + k,
{
    let t = codepoint_table_10();
    assert forall|k: int| 0 <= k < 40 implies #[trigger] t[k].codepoint == 400 + k by {}
}

proof fn lemma_dense_11()
    ensures
        codepoint_table_11().len() == 40,
        forall|k: int| 0 <= k < 40 ==> #[trigger] codepoint_table_11()[k].codepoint == 440 + k,
{
    let t = codepoint_table_11();
    assert forall|k: int| 0 <= k < 40 implies #[trigger] t[k].codepoint == 440 + k by {}
}

proof fn lemma_dense_12()
    ensures
        codepoint_table_12().len() == 40,
        forall|k: int| 0 <= k < 40 ==> #[trigger] codepoint_table_12()[k].codepoint == 480 + k,
{
    let t = codepoint_table_12();
    assert forall|k: int| 0 <= k < 40 implies #[trigger] t[k].codepoint == 480 + k by {}
}

proof fn lemma_dense_13()
    ensures
        codepoint_table_13().len() == 40,
        forall|k: int| 0 <= k < 40 ==> #[trigger] codepoint_table_13()[k].codepoint == 520 + k,
{
    let t = codepoint_table_13();
    assert forall|k: int| 0 <= k < 40 implies #[trigger] t[k].codepoint == 520 + k by {}
}

proof fn lemma_dense_14()
    ensures
        codepoint_table_14().len() == 40,
        forall|k: int| 0 <= k < 32 ==> #[trigger] codepoint_table_14()[k].codepoint == 560 + k,
{
    let t = codepoint_table_14();
    assert forall|k: int| 0 <= k < 32 implies #[trigger] t[k].codepoint == 560 + k by {}
}

/// The first group names each codepoint from U+0000 to U+024F, in order,
/// each at the position of its own number.
pub proof fn lemma_group_0_dense()
    ensures
        codepoint_group_0().len() >= 0x250,
        forall|k: int| 0 <= k < 0x250 ==> #[trigger] codepoint_group_0()[k].codepoint == k,
{
    lemma_dense_0();
    let p0 = codepoint_table_0();
    lemma_dense_1();
    let p1 = p0 + codepoint_table_1();
    assert forall|k: int| 0 <= k < 80 implies #[trigger] p1[k].codepoint == k by {
        if k >= 40 {
            assert(p1[k] == codepoint_table_1()[k - 40]);
        }
    }
    lemma_dense_2();
    let p2 = p1 + codepoint_table_2();
    assert forall|k: int| 0 <= k < 120 implies #[trigger] p2[k].codepoint == k by {
        if k >= 80 {
            assert(p2[k] == codepoint_table_2()[k - 80]);
        }
    }
    lemma_dense_3();
    let p3 = p2 + codepoint_table_3();
    assert forall|k: int| 0 <= k < 160 implies #[trigger] p3[k].codepoint == k by {
        if k >= 120 {
            assert(p3[k] == codepoint_table_3()[k - 120]);
        }
    }
    lemma_dense_4();
    let p4 = p3 + codepoint_table_4();
    assert forall|k: int| 0 <= k < 200 implies #[trigger] p4[k].codepoint == k by {
        if k >= 160 {
            assert(p4[k] == codepoint_table_4()[k - 160]);
        }
    }
    lemma_dense_5();
    let p5 = p4 + codepoint_table_5();
    assert forall|k: int| 0 <= k < 240 implies #[trigger] p5[k].codepoint == k by {
        if k >= 200 {
            assert(p5[k] == codepoint_table_5()[k - 200]);
        }
    }
    lemma_dense_6();
    let p6 = p5 + codepoint_table_6();
    assert forall|k: int| 0 <= k < 280 implies #[trigger] p6[k].codepoint == k by {
        if k >= 240 {
            assert(p6[k] == codepoint_table_6()[k - 240]);
        }
    }
    lemma_dense_7();
    let p7 = p6 + codepoint_table_7();
    assert forall|k: int| 0 <= k < 320 implies #[trigger] p7[k].codepoint == k by {
        if k >= 280 {
            assert(p7[k] == codepoint_table_7()[k - 280]);
        }
    }
    lemma_dense_8();
    let p8 = p7 + codepoint_table_8();
    assert forall|k: int| 0 <= k < 360 implies #[trigger] p8[k].codepoint == k by {
        if k >= 320 {
            assert(p8[k] == codepoint_table_8()[k - 320]);
        }
    }
    lemma_dense_9();
    let p9 = p8 + codepoint_table_9();
    assert forall|k: int| 0 <= k < 400 implies #[trigger] p9[k].codepoint == k by {
        if k >= 360 {
            assert(p9[k] == codepoint_table_9()[k - 360]);
        }
    }
    lemma_dense_10();
    let p10 = p9 + codepoint_table_10();
    assert forall|k: int| 0 <= k < 440 implies #[trigger] p10[k].codepoint == k by {
        if k >= 400 {
            assert(p10[k] == codepoint_table_10()[k - 400]);
        }
    }
    lemma_dense_11();
    let p11 = p10 + codepoint_table_11();
    assert forall|k: int| 0 <= k < 480 implies #[trigger] p11[k].codepoint == k by {
        if k >= 440 {
            assert(p11[k] == codepoint_table_11()[k - 440]);
        }
    }
    lemma_dense_12();
    let p12 = p11 + codepoint_table_12();
    assert forall|k: int| 0 <= k < 520 implies #[trigger] p12[k].codepoint == k by {
        if k >= 480 {
            assert(p12[k] == codepoint_table_12()[k - 480]);
        }
    }
    lemma_dense_13();
    let p13 = p12 + codepoint_table_13();
    assert forall|k: int| 0 <= k < 560 implies #[trigger] p13[k].codepoint == k by {
        if k >= 520 {
            assert(p13[k] == codepoint_table_13()[k - 520]);
        }
    }
    lemma_dense_14();
    let p14 = p13 + codepoint_table_14();
    assert forall|k: int| 0 <= k < 592 implies #[trigger] p14[k].codepoint == k by {
        if k >= 560 {
            assert(p14[k] == codepoint_table_14()[k - 560]);
        }
    }
    let g = p14 + codepoint_table_15() + codepoint_table_16() + codepoint_table_17() + codepoint_table_18() + codepoint_table_19();
    assert(g == codepoint_group_0());
    assert forall|k: int| 0 <= k < 0x250 implies #[trigger] g[k].codepoint == k by {
        assert(g[k] == p14[k]);
    }
}

} // verus!
