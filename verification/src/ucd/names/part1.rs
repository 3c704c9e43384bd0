//! Part 1 of the character names: groups 10 to 19 of the table.
use vstd::prelude::*;

use crate::ucd::Codepoint;

verus! {

pub open spec fn codepoint_table_200() -> Seq<Codepoint> {
    seq![
        Codepoint { codepoint: 0x22B0, name: "PRECEDES UNDER RELATION", aliases: &[] },
        Codepoint { codepoint: 0x22B1, name: "SUCCEEDS UNDER RELATION", aliases: &[] },
        Codepoint { codepoint: 0x22B2, name: "NORMAL SUBGROUP OF", aliases: &[] },
        Codepoint { codepoint: 0x22B3, name: "CONTAINS AS NORMAL SUBGROUP", aliases: &[] },
        Codepoint { codepoint: 0x22B4, name: "NORMAL SUBGROUP OF OR EQUAL TO", aliases: &[] },
        Codepoint { codepoint: 0x22B5, name: "CONTAINS AS NORMAL SUBGROUP OR EQUAL TO", aliases: &[] },
        Codepoint { codepoint: 0x22B6, name: "ORIGINAL OF", aliases: &[] },
        Codepoint { codepoint: 0x22B7, name: "IMAGE OF", aliases: &[] },
        Codepoint { codepoint: 0x22B8, name: "MULTIMAP", aliases: &[] },
        Codepoint { codepoint: 0x22B9, name: "HERMITIAN CONJUGATE MATRIX", aliases: &[] },
        Codepoint { codepoint: 0x22BA, name: "INTERCALATE", aliases: &[] },
        Codepoint { codepoint: 0x22BB, name: "XOR", aliases: &[] },
        Codepoint { codepoint: 0x22BC, name: "NAND", aliases: &[] },
        Codepoint { codepoint: 0x22BD, name: "NOR", aliases: &[] },
        Codepoint { codepoint: 0x22BE, name: "RIGHT ANGLE WITH ARC", aliases: &[] },
        Codepoint { codepoint: 0x22BF, name: "RIGHT TRIANGLE", aliases: &[] },
        Codepoint { codepoint: 0x22C0, name: "N-ARY LOGICAL AND", aliases: &[] },
        Codepoint { codepoint: 0x22C1, name: "N-ARY LOGICAL OR", aliases: &[] },
        Codepoint { codepoint: 0x22C2, name: "N-ARY INTERSECTION", aliases: &[] },
        Codepoint { codepoint: 0x22C3, name: "N-ARY UNION", aliases: &[] },
        Codepoint { codepoint: 0x22C4, name: "DIAMOND OPERATOR", aliases: &[] },
        Codepoint { codepoint: 0x22C5, name: "DOT OPERATOR", aliases: &[] },
        Codepoint { codepoint: 0x22C6, name: "STAR OPERATOR", aliases: &[] },
        Codepoint { codepoint: 0x22C7, name: "DIVISION TIMES", aliases: &[] },
        Codepoint { codepoint: 0x22C8, name: "BOWTIE", aliases: &[] },
        Codepoint { codepoint: 0x22C9, name: "LEFT NORMAL FACTOR SEMIDIRECT PRODUCT", aliases: &[] },
        Codepoint { codepoint: 0x22CA, name: "RIGHT NORMAL FACTOR SEMIDIRECT PRODUCT", aliases: &[] },
        Codepoint { codepoint: 0x22CB, name: "LEFT SEMIDIRECT PRODUCT", aliases: &[] },
        Codepoint { codepoint: 0x22CC, name: "RIGHT SEMIDIRECT PRODUCT", aliases: &[] },
        Codepoint { codepoint: 0x22CD, name: "REVERSED TILDE EQUALS", aliases: &[] },
        Codepoint { codepoint: 0x22CE, name: "CURLY LOGICAL OR", aliases: &[] },
        Codepoint { codepoint: 0x22CF, name: "CURLY LOGICAL AND", aliases: &[] },
        Codepoint { codepoint: 0x22D0, name: "DOUBLE SUBSET", aliases: &[] },
        Codepoint { codepoint: 0x22D1, name: "DOUBLE SUPERSET", aliases: &[] },
        Codepoint { codepoint: 0x22D2, name: "DOUBLE INTERSECTION", aliases: &[] },
        Codepoint { codepoint: 0x22D3, name: "DOUBLE UNION", aliases: &[] },
        Codepoint { codepoint: 0x22D4, name: "PITCHFORK", aliases: &[] },
        Codepoint { codepoint: 0x22D5, name: "EQUAL AND PARALLEL TO", aliases: &[] },
        Codepoint { codepoint: 0x22D6, name: "LESS-THAN WITH DOT", aliases: &["LESS THAN WITH DOT"] },
        Codepoint { codepoint: 0x22D7, name: "GREATER-THAN WITH DOT", aliases: &["GREATER THAN WITH DOT"] },
    ]
}

fn all_codepoints_200() -> (v: Vec<Codepoint>)
    ensures
        v@ == codepoint_table_200(),
{
    let v = vec![
        Codepoint { codepoint: 0x22B0, name: "PRECEDES UNDER RELATION", aliases: &[] },
        Codepoint { codepoint: 0x22B1, name: "SUCCEEDS UNDER RELATION", aliases: &[] },
        Codepoint { codepoint: 0x22B2, name: "NORMAL SUBGROUP OF", aliases: &[] },
        Codepoint { codepoint: 0x22B3, name: "CONTAINS AS NORMAL SUBGROUP", aliases: &[] },
        Codepoint { codepoint: 0x22B4, name: "NORMAL SUBGROUP OF OR EQUAL TO", aliases: &[] },
        Codepoint { codepoint: 0x22B5, name: "CONTAINS AS NORMAL SUBGROUP OR EQUAL TO", aliases: &[] },
        Codepoint { codepoint: 0x22B6, name: "ORIGINAL OF", aliases: &[] },
        Codepoint { codepoint: 0x22B7, name: "IMAGE OF", aliases: &[] },
        Codepoint { codepoint: 0x22B8, name: "MULTIMAP", aliases: &[] },
        Codepoint { codepoint: 0x22B9, name: "HERMITIAN CONJUGATE MATRIX", aliases: &[] },
        Codepoint { codepoint: 0x22BA, name: "INTERCALATE", aliases: &[] },
        Codepoint { codepoint: 0x22BB, name: "XOR", aliases: &[] },
        Codepoint { codepoint: 0x22BC, name: "NAND", aliases: &[] },
        Codepoint { codepoint: 0x22BD, name: "NOR", aliases: &[] },
        Codepoint { codepoint: 0x22BE, name: "RIGHT ANGLE WITH ARC", aliases: &[] },
        Codepoint { codepoint: 0x22BF, name: "RIGHT TRIANGLE", aliases: &[] },
        Codepoint { codepoint: 0x22C0, name: "N-ARY LOGICAL AND", aliases: &[] },
        Codepoint { codepoint: 0x22C1, name: "N-ARY LOGICAL OR", aliases: &[] },
        Codepoint { codepoint: 0x22C2, name: "N-ARY INTERSECTION", aliases: &[] },
        Codepoint { codepoint: 0x22C3, name: "N-ARY UNION", aliases: &[] },
        Codepoint { codepoint: 0x22C4, name: "DIAMOND OPERATOR", aliases: &[] },
        Codepoint { codepoint: 0x22C5, name: "DOT OPERATOR", aliases: &[] },
        Codepoint { codepoint: 0x22C6, name: "STAR OPERATOR", aliases: &[] },
        Codepoint { codepoint: 0x22C7, name: "DIVISION TIMES", aliases: &[] },
        Codepoint { codepoint: 0x22C8, name: "BOWTIE", aliases: &[] },
        Codepoint { codepoint: 0x22C9, name: "LEFT NORMAL FACTOR SEMIDIRECT PRODUCT", aliases: &[] },
        Codepoint { codepoint: 0x22CA, name: "RIGHT NORMAL FACTOR SEMIDIRECT PRODUCT", aliases: &[] },
        Codepoint { codepoint: 0x22CB, name: "LEFT SEMIDIRECT PRODUCT", aliases: &[] },
        Codepoint { codepoint: 0x22CC, name: "RIGHT SEMIDIRECT PRODUCT", aliases: &[] },
        Codepoint { codepoint: 0x22CD, name: "REVERSED TILDE EQUALS", aliases: &[] },
        Codepoint { codepoint: 0x22CE, name: "CURLY LOGICAL OR", aliases: &[] },
        Codepoint { codepoint: 0x22CF, name: "CURLY LOGICAL AND", aliases: &[] },
        Codepoint { codepoint: 0x22D0, name: "DOUBLE SUBSET", aliases: &[] },
        Codepoint { codepoint: 0x22D1, name: "DOUBLE SUPERSET", aliases: &[] },
        Codepoint { codepoint: 0x22D2, name: "DOUBLE INTERSECTION", aliases: &[] },
        Codepoint { codepoint: 0x22D3, name: "DOUBLE UNION", aliases: &[] },
        Codepoint { codepoint: 0x22D4, name: "PITCHFORK", aliases: &[] },
        Codepoint { codepoint: 0x22D5, name: "EQUAL AND PARALLEL TO", aliases: &[] },
        Codepoint { codepoint: 0x22D6, name: "LESS-THAN WITH DOT", aliases: &["LESS THAN WITH DOT"] },
        Codepoint { codepoint: 0x22D7, name: "GREATER-THAN WITH DOT", aliases: &["GREATER THAN WITH DOT"] },
    ];
    assert(v@ =~= codepoint_table_200());
    v
}

pub open spec fn codepoint_table_201() -> Seq<Codepoint> {
    seq![
        Codepoint { codepoint: 0x22D8, name: "VERY MUCH LESS-THAN", aliases: &["VERY MUCH LESS THAN"] },
        Codepoint { codepoint: 0x22D9, name: "VERY MUCH GREATER-THAN", aliases: &["VERY MUCH GREATER THAN"] },
        Codepoint { codepoint: 0x22DA, name: "LESS-THAN EQUAL TO OR GREATER-THAN", aliases: &["LESS THAN EQUAL TO OR GREATER THAN"] },
        Codepoint { codepoint: 0x22DB, name: "GREATER-THAN EQUAL TO OR LESS-THAN", aliases: &["GREATER THAN EQUAL TO OR LESS THAN"] },
        Codepoint { codepoint: 0x22DC, name: "EQUAL TO OR LESS-THAN", aliases: &["EQUAL TO OR LESS THAN"] },
        Codepoint { codepoint: 0x22DD, name: "EQUAL TO OR GREATER-THAN", aliases: &["EQUAL TO OR GREATER THAN"] },
        Codepoint { codepoint: 0x22DE, name: "EQUAL TO OR PRECEDES", aliases: &[] },
        Codepoint { codepoint: 0x22DF, name: "EQUAL TO OR SUCCEEDS", aliases: &[] },
        Codepoint { codepoint: 0x22E0, name: "DOES NOT PRECEDE OR EQUAL", aliases: &[] },
        Codepoint { codepoint: 0x22E1, name: "DOES NOT SUCCEED OR EQUAL", aliases: &[] },
        Codepoint { codepoint: 0x22E2, name: "NOT SQUARE IMAGE OF OR EQUAL TO", aliases: &[] },
        Codepoint { codepoint: 0x22E3, name: "NOT SQUARE ORIGINAL OF OR EQUAL TO", aliases: &[] },
        Codepoint { codepoint: 0x22E4, name: "SQUARE IMAGE OF OR NOT EQUAL TO", aliases: &[] },
        Codepoint { codepoint: 0x22E5, name: "SQUARE ORIGINAL OF OR NOT EQUAL TO", aliases: &[] },
        Codepoint { codepoint: 0x22E6, name: "LESS-THAN BUT NOT EQUIVALENT TO", aliases: &["LESS THAN BUT NOT EQUIVALENT TO"] },
        Codepoint { codepoint: 0x22E7, name: "GREATER-THAN BUT NOT EQUIVALENT TO", aliases: &["GREATER THAN BUT NOT EQUIVALENT TO"] },
        Codepoint { codepoint: 0x22E8, name: "PRECEDES BUT NOT EQUIVALENT TO", aliases: &[] },
        Codepoint { codepoint: 0x22E9, name: "SUCCEEDS BUT NOT EQUIVALENT TO", aliases: &[] },
        Codepoint { codepoint: 0x22EA, name: "NOT NORMAL SUBGROUP OF", aliases: &[] },
        Codepoint { codepoint: 0x22EB, name: "DOES NOT CONTAIN AS NORMAL SUBGROUP", aliases: &[] },
        Codepoint { codepoint: 0x22EC, name: "NOT NORMAL SUBGROUP OF OR EQUAL TO", aliases: &[] },
        Codepoint { codepoint: 0x22ED, name: "DOES NOT CONTAIN AS NORMAL SUBGROUP OR EQUAL", aliases: &[] },
        Codepoint { codepoint: 0x22EE, name: "VERTICAL ELLIPSIS", aliases: &[] },
        Codepoint { codepoint: 0x22EF, name: "MIDLINE HORIZONTAL ELLIPSIS", aliases: &[] },
        Codepoint { codepoint: 0x22F0, name: "UP RIGHT DIAGONAL ELLIPSIS", aliases: &[] },
        Codepoint { codepoint: 0x22F1, name: "DOWN RIGHT DIAGONAL ELLIPSIS", aliases: &[] },
        Codepoint { codepoint: 0x22F2, name: "ELEMENT OF WITH LONG HORIZONTAL STROKE", aliases: &[] },
        Codepoint { codepoint: 0x22F3, name: "ELEMENT OF WITH VERTICAL BAR AT END OF HORIZONTAL STROKE", aliases: &[] },
        Codepoint { codepoint: 0x22F4, name: "SMALL ELEMENT OF WITH VERTICAL BAR AT END OF HORIZONTAL STROKE", aliases: &[] },
        Codepoint { codepoint: 0x22F5, name: "ELEMENT OF WITH DOT ABOVE", aliases: &[] },
        Codepoint { codepoint: 0x22F6, name: "ELEMENT OF WITH OVERBAR", aliases: &[] },
        Codepoint { codepoint: 0x22F7, name: "SMALL ELEMENT OF WITH OVERBAR", aliases: &[] },
        Codepoint { codepoint: 0x22F8, name: "ELEMENT OF WITH UNDERBAR", aliases: &[] },
        Codepoint { codepoint: 0x22F9, name: "ELEMENT OF WITH TWO HORIZONTAL STROKES", aliases: &[] },
        Codepoint { codepoint: 0x22FA, name: "CONTAINS WITH LONG HORIZONTAL STROKE", aliases: &[] },
        Codepoint { codepoint: 0x22FB, name: "CONTAINS WITH VERTICAL BAR AT END OF HORIZONTAL STROKE", aliases: &[] },
        Codepoint { codepoint: 0x22FC, name: "SMALL CONTAINS WITH VERTICAL BAR AT END OF HORIZONTAL STROKE", aliases: &[] },
        Codepoint { codepoint: 0x22FD, name: "CONTAINS WITH OVERBAR", aliases: &[] },
        Codepoint { codepoint: 0x22FE, name: "SMALL CONTAINS WITH OVERBAR", aliases: &[] },
        Codepoint { codepoint: 0x22FF, name: "Z NOTATION BAG MEMBERSHIP", aliases: &[] },
    ]
}

fn all_codepoints_201() -> (v: Vec<Codepoint>)
    ensures
        v@ == codepoint_table_201(),
{
    let v = vec![
        Codepoint { codepoint: 0x22D8, name: "VERY MUCH LESS-THAN", aliases: &["VERY MUCH LESS THAN"] },
        Codepoint { codepoint: 0x22D9, name: "VERY MUCH GREATER-THAN", aliases: &["VERY MUCH GREATER THAN"] },
        Codepoint { codepoint: 0x22DA, name: "LESS-THAN EQUAL TO OR GREATER-THAN", aliases: &["LESS THAN EQUAL TO OR GREATER THAN"] },
        Codepoint { codepoint: 0x22DB, name: "GREATER-THAN EQUAL TO OR LESS-THAN", aliases: &["GREATER THAN EQUAL TO OR LESS THAN"] },
        Codepoint { codepoint: 0x22DC, name: "EQUAL TO OR LESS-THAN", aliases: &["EQUAL TO OR LESS THAN"] },
        Codepoint { codepoint: 0x22DD, name: "EQUAL TO OR GREATER-THAN", aliases: &["EQUAL TO OR GREATER THAN"] },
        Codepoint { codepoint: 0x22DE, name: "EQUAL TO OR PRECEDES", aliases: &[] },
        Codepoint { codepoint: 0x22DF, name: "EQUAL TO OR SUCCEEDS", aliases: &[] },
        Codepoint { codepoint: 0x22E0, name: "DOES NOT PRECEDE OR EQUAL", aliases: &[] },
        Codepoint { codepoint: 0x22E1, name: "DOES NOT SUCCEED OR EQUAL", aliases: &[] },
        Codepoint { codepoint: 0x22E2, name: "NOT SQUARE IMAGE OF OR EQUAL TO", aliases: &[] },
        Codepoint { codepoint: 0x22E3, name: "NOT SQUARE ORIGINAL OF OR EQUAL TO", aliases: &[] },
        Codepoint { codepoint: 0x22E4, name: "SQUARE IMAGE OF OR NOT EQUAL TO", aliases: &[] },
        Codepoint { codepoint: 0x22E5, name: "SQUARE ORIGINAL OF OR NOT EQUAL TO", aliases: &[] },
        Codepoint { codepoint: 0x22E6, name: "LESS-THAN BUT NOT EQUIVALENT TO", aliases: &["LESS THAN BUT NOT EQUIVALENT TO"] },
        Codepoint { codepoint: 0x22E7, name: "GREATER-THAN BUT NOT EQUIVALENT TO", aliases: &["GREATER THAN BUT NOT EQUIVALENT TO"] },
        Codepoint { codepoint: 0x22E8, name: "PRECEDES BUT NOT EQUIVALENT TO", aliases: &[] },
        Codepoint { codepoint: 0x22E9, name: "SUCCEEDS BUT NOT EQUIVALENT TO", aliases: &[] },
        Codepoint { codepoint: 0x22EA, name: "NOT NORMAL SUBGROUP OF", aliases: &[] },
        Codepoint { codepoint: 0x22EB, name: "DOES NOT CONTAIN AS NORMAL SUBGROUP", aliases: &[] },
        Codepoint { codepoint: 0x22EC, name: "NOT NORMAL SUBGROUP OF OR EQUAL TO", aliases: &[] },
        Codepoint { codepoint: 0x22ED, name: "DOES NOT CONTAIN AS NORMAL SUBGROUP OR EQUAL", aliases: &[] },
        Codepoint { codepoint: 0x22EE, name: "VERTICAL ELLIPSIS", aliases: &[] },
        Codepoint { codepoint: 0x22EF, name: "MIDLINE HORIZONTAL ELLIPSIS", aliases: &[] },
        Codepoint { codepoint: 0x22F0, name: "UP RIGHT DIAGONAL ELLIPSIS", aliases: &[] },
        Codepoint { codepoint: 0x22F1, name: "DOWN RIGHT DIAGONAL ELLIPSIS", aliases: &[] },
        Codepoint { codepoint: 0x22F2, name: "ELEMENT OF WITH LONG HORIZONTAL STROKE", aliases: &[] },
        Codepoint { codepoint: 0x22F3, name: "ELEMENT OF WITH VERTICAL BAR AT END OF HORIZONTAL STROKE", aliases: &[] },
        Codepoint { codepoint: 0x22F4, name: "SMALL ELEMENT OF WITH VERTICAL BAR AT END OF HORIZONTAL STROKE", aliases: &[] },
        Codepoint { codepoint: 0x22F5, name: "ELEMENT OF WITH DOT ABOVE", aliases: &[] },
        Codepoint { codepoint: 0x22F6, name: "ELEMENT OF WITH OVERBAR", aliases: &[] },
        Codepoint { codepoint: 0x22F7, name: "SMALL ELEMENT OF WITH OVERBAR", aliases: &[] },
        Codepoint { codepoint: 0x22F8, name: "ELEMENT OF WITH UNDERBAR", aliases: &[] },
        Codepoint { codepoint: 0x22F9, name: "ELEMENT OF WITH TWO HORIZONTAL STROKES", aliases: &[] },
        Codepoint { codepoint: 0x22FA, name: "CONTAINS WITH LONG HORIZONTAL STROKE", aliases: &[] },
        Codepoint { codepoint: 0x22FB, name: "CONTAINS WITH VERTICAL BAR AT END OF HORIZONTAL STROKE", aliases: &[] },
        Codepoint { codepoint: 0x22FC, name: "SMALL CONTAINS WITH VERTICAL BAR AT END OF HORIZONTAL STROKE", aliases: &[] },
        Codepoint { codepoint: 0x22FD, name: "CONTAINS WITH OVERBAR", aliases: &[] },
        Codepoint { codepoint: 0x22FE, name: "SMALL CONTAINS WITH OVERBAR", aliases: &[] },
        Codepoint { codepoint: 0x22FF, name: "Z NOTATION BAG MEMBERSHIP", aliases: &[] },
    ];
    assert(v@ =~= codepoint_table_201());
    v
}

pub open spec fn codepoint_table_202() -> Seq<Codepoint> {
    seq![
        Codepoint { codepoint: 0x2300, name: "DIAMETER SIGN", aliases: &[] },
        Codepoint { codepoint: 0x2301, name: "ELECTRIC ARROW", aliases: &[] },
        Codepoint { codepoint: 0x2302, name: "HOUSE", aliases: &[] },
        Codepoint { codepoint: 0x2303, name: "UP ARROWHEAD", aliases: &[] },
        Codepoint { codepoint: 0x2304, name: "DOWN ARROWHEAD", aliases: &[] },
        Codepoint { codepoint: 0x2305, name: "PROJECTIVE", aliases: &[] },
        Codepoint { codepoint: 0x2306, name: "PERSPECTIVE", aliases: &[] },
        Codepoint { codepoint: 0x2307, name: "WAVY LINE", aliases: &[] },
        Codepoint { codepoint: 0x2308, name: "LEFT CEILING", aliases: &[] },
        Codepoint { codepoint: 0x2309, name: "RIGHT CEILING", aliases: &[] },
        Codepoint { codepoint: 0x230A, name: "LEFT FLOOR", aliases: &[] },
        Codepoint { codepoint: 0x230B, name: "RIGHT FLOOR", aliases: &[] },
        Codepoint { codepoint: 0x230C, name: "BOTTOM RIGHT CROP", aliases: &[] },
        Codepoint { codepoint: 0x230D, name: "BOTTOM LEFT CROP", aliases: &[] },
        Codepoint { codepoint: 0x230E, name: "TOP RIGHT CROP", aliases: &[] },
        Codepoint { codepoint: 0x230F, name: "TOP LEFT CROP", aliases: &[] },
        Codepoint { codepoint: 0x2310, name: "REVERSED NOT SIGN", aliases: &[] },
        Codepoint { codepoint: 0x2311, name: "SQUARE LOZENGE", aliases: &[] },
        Codepoint { codepoint: 0x2312, name: "ARC", aliases: &[] },
        Codepoint { codepoint: 0x2313, name: "SEGMENT", aliases: &[] },
        Codepoint { codepoint: 0x2314, name: "SECTOR", aliases: &[] },
        Codepoint { codepoint: 0x2315, name: "TELEPHONE RECORDER", aliases: &[] },
        Codepoint { codepoint: 0x2316, name: "POSITION INDICATOR", aliases: &[] },
        Codepoint { codepoint: 0x2317, name: "VIEWDATA SQUARE", aliases: &[] },
        Codepoint { codepoint: 0x2318, name: "PLACE OF INTEREST SIGN", aliases: &["COMMAND KEY"] },
        Codepoint { codepoint: 0x2319, name: "TURNED NOT SIGN", aliases: &[] },
        Codepoint { codepoint: 0x231A, name: "WATCH", aliases: &[] },
        Codepoint { codepoint: 0x231B, name: "HOURGLASS", aliases: &[] },
        Codepoint { codepoint: 0x231C, name: "TOP LEFT CORNER", aliases: &[] },
        Codepoint { codepoint: 0x231D, name: "TOP RIGHT CORNER", aliases: &[] },
        Codepoint { codepoint: 0x231E, name: "BOTTOM LEFT CORNER", aliases: &[] },
        Codepoint { codepoint: 0x231F, name: "BOTTOM RIGHT CORNER", aliases: &[] },
        Codepoint { codepoint: 0x2320, name: "TOP HALF INTEGRAL", aliases: &[] },
        Codepoint { codepoint: 0x2321, name: "BOTTOM HALF INTEGRAL", aliases: &[] },
        Codepoint { codepoint: 0x2322, name: "FROWN", aliases: &[] },
        Codepoint { codepoint: 0x2323, name: "SMILE", aliases: &[] },
        Codepoint { codepoint: 0x2324, name: "UP ARROWHEAD BETWEEN TWO HORIZONTAL BARS", aliases: &["ENTER KEY"] },
        Codepoint { codepoint: 0x2325, name: "OPTION KEY", aliases: &[] },
        Codepoint { codepoint: 0x2326, name: "ERASE TO THE RIGHT", aliases: &["DELETE TO THE RIGHT KEY"] },
        Codepoint { codepoint: 0x2327, name: "X IN A RECTANGLE BOX", aliases: &["CLEAR KEY"] },
    ]
}

fn all_codepoints_202() -> (v: Vec<Codepoint>)
    ensures
        v@ == codepoint_table_202(),
{
    let v = vec![
        Codepoint { codepoint: 0x2300, name: "DIAMETER SIGN", aliases: &[] },
        Codepoint { codepoint: 0x2301, name: "ELECTRIC ARROW", aliases: &[] },
        Codepoint { codepoint: 0x2302, name: "HOUSE", aliases: &[] },
        Codepoint { codepoint: 0x2303, name: "UP ARROWHEAD", aliases: &[] },
        Codepoint { codepoint: 0x2304, name: "DOWN ARROWHEAD", aliases: &[] },
        Codepoint { codepoint: 0x2305, name: "PROJECTIVE", aliases: &[] },
        Codepoint { codepoint: 0x2306, name: "PERSPECTIVE", aliases: &[] },
        Codepoint { codepoint: 0x2307, name: "WAVY LINE", aliases: &[] },
        Codepoint { codepoint: 0x2308, name: "LEFT CEILING", aliases: &[] },
        Codepoint { codepoint: 0x2309, name: "RIGHT CEILING", aliases: &[] },
        Codepoint { codepoint: 0x230A, name: "LEFT FLOOR", aliases: &[] },
        Codepoint { codepoint: 0x230B, name: "RIGHT FLOOR", aliases: &[] },
        Codepoint { codepoint: 0x230C, name: "BOTTOM RIGHT CROP", aliases: &[] },
        Codepoint { codepoint: 0x230D, name: "BOTTOM LEFT CROP", aliases: &[] },
        Codepoint { codepoint: 0x230E, name: "TOP RIGHT CROP", aliases: &[] },
        Codepoint { codepoint: 0x230F, name: "TOP LEFT CROP", aliases: &[] },
        Codepoint { codepoint: 0x2310, name: "REVERSED NOT SIGN", aliases: &[] },
        Codepoint { codepoint: 0x2311, name: "SQUARE LOZENGE", aliases: &[] },
        Codepoint { codepoint: 0x2312, name: "ARC", aliases: &[] },
        Codepoint { codepoint: 0x2313, name: "SEGMENT", aliases: &[] },
        Codepoint { codepoint: 0x2314, name: "SECTOR", aliases: &[] },
        Codepoint { codepoint: 0x2315, name: "TELEPHONE RECORDER", aliases: &[] },
        Codepoint { codepoint: 0x2316, name: "POSITION INDICATOR", aliases: &[] },
        Codepoint { codepoint: 0x2317, name: "VIEWDATA SQUARE", aliases: &[] },
        Codepoint { codepoint: 0x2318, name: "PLACE OF INTEREST SIGN", aliases: &["COMMAND KEY"] },
        Codepoint { codepoint: 0x2319, name: "TURNED NOT SIGN", aliases: &[] },
        Codepoint { codepoint: 0x231A, name: "WATCH", aliases: &[] },
        Codepoint { codepoint: 0x231B, name: "HOURGLASS", aliases: &[] },
        Codepoint { codepoint: 0x231C, name: "TOP LEFT CORNER", aliases: &[] },
        Codepoint { codepoint: 0x231D, name: "TOP RIGHT CORNER", aliases: &[] },
        Codepoint { codepoint: 0x231E, name: "BOTTOM LEFT CORNER", aliases: &[] },
        Codepoint { codepoint: 0x231F, name: "BOTTOM RIGHT CORNER", aliases: &[] },
        Codepoint { codepoint: 0x2320, name: "TOP HALF INTEGRAL", aliases: &[] },
        Codepoint { codepoint: 0x2321, name: "BOTTOM HALF INTEGRAL", aliases: &[] },
        Codepoint { codepoint: 0x2322, name: "FROWN", aliases: &[] },
        Codepoint { codepoint: 0x2323, name: "SMILE", aliases: &[] },
        Codepoint { codepoint: 0x2324, name: "UP ARROWHEAD BETWEEN TWO HORIZONTAL BARS", aliases: &["ENTER KEY"] },
        Codepoint { codepoint: 0x2325, name: "OPTION KEY", aliases: &[] },
        Codepoint { codepoint: 0x2326, name: "ERASE TO THE RIGHT", aliases: &["DELETE TO THE RIGHT KEY"] },
        Codepoint { codepoint: 0x2327, name: "X IN A RECTANGLE BOX", aliases: &["CLEAR KEY"] },
    ];
    assert(v@ =~= codepoint_table_202());
    v
}

pub open spec fn codepoint_table_203() -> Seq<Codepoint> {
    seq![
        Codepoint { codepoint: 0x2328, name: "KEYBOARD", aliases: &[] },
        Codepoint { codepoint: 0x2329, name: "LEFT-POINTING ANGLE BRACKET", aliases: &["BRA"] },
        Codepoint { codepoint: 0x232A, name: "RIGHT-POINTING ANGLE BRACKET", aliases: &["KET"] },
        Codepoint { codepoint: 0x232B, name: "ERASE TO THE LEFT", aliases: &["DELETE TO THE LEFT KEY"] },
        Codepoint { codepoint: 0x232C, name: "BENZENE RING", aliases: &[] },
        Codepoint { codepoint: 0x232D, name: "CYLINDRICITY", aliases: &[] },
        Codepoint { codepoint: 0x232E, name: "ALL AROUND-PROFILE", aliases: &[] },
        Codepoint { codepoint: 0x232F, name: "SYMMETRY", aliases: &[] },
        Codepoint { codepoint: 0x2330, name: "TOTAL RUNOUT", aliases: &[] },
        Codepoint { codepoint: 0x2331, name: "DIMENSION ORIGIN", aliases: &[] },
        Codepoint { codepoint: 0x2332, name: "CONICAL TAPER", aliases: &[] },
        Codepoint { codepoint: 0x2333, name: "SLOPE", aliases: &[] },
        Codepoint { codepoint: 0x2334, name: "COUNTERBORE", aliases: &[] },
        Codepoint { codepoint: 0x2335, name: "COUNTERSINK", aliases: &[] },
        Codepoint { codepoint: 0x2336, name: "APL FUNCTIONAL SYMBOL I-BEAM", aliases: &[] },
        Codepoint { codepoint: 0x2337, name: "APL FUNCTIONAL SYMBOL SQUISH QUAD", aliases: &[] },
        Codepoint { codepoint: 0x2338, name: "APL FUNCTIONAL SYMBOL QUAD EQUAL", aliases: &[] },
        Codepoint { codepoint: 0x2339, name: "APL FUNCTIONAL SYMBOL QUAD DIVIDE", aliases: &[] },
        Codepoint { codepoint: 0x233A, name: "APL FUNCTIONAL SYMBOL QUAD DIAMOND", aliases: &[] },
        Codepoint { codepoint: 0x233B, name: "APL FUNCTIONAL SYMBOL QUAD JOT", aliases: &[] },
        Codepoint { codepoint: 0x233C, name: "APL FUNCTIONAL SYMBOL QUAD CIRCLE", aliases: &[] },
        Codepoint { codepoint: 0x233D, name: "APL FUNCTIONAL SYMBOL CIRCLE STILE", aliases: &[] },
        Codepoint { codepoint: 0x233E, name: "APL FUNCTIONAL SYMBOL CIRCLE JOT", aliases: &[] },
        Codepoint { codepoint: 0x233F, name: "APL FUNCTIONAL SYMBOL SLASH BAR", aliases: &[] },
        Codepoint { codepoint: 0x2340, name: "APL FUNCTIONAL SYMBOL BACKSLASH BAR", aliases: &[] },
        Codepoint { codepoint: 0x2341, name: "APL FUNCTIONAL SYMBOL QUAD SLASH", aliases: &[] },
        Codepoint { codepoint: 0x2342, name: "APL FUNCTIONAL SYMBOL QUAD BACKSLASH", aliases: &[] },
        Codepoint { codepoint: 0x2343, name: "APL FUNCTIONAL SYMBOL QUAD LESS-THAN", aliases: &[] },
        Codepoint { codepoint: 0x2344, name: "APL FUNCTIONAL SYMBOL QUAD GREATER-THAN", aliases: &[] },
        Codepoint { codepoint: 0x2345, name: "APL FUNCTIONAL SYMBOL LEFTWARDS VANE", aliases: &[] },
        Codepoint { codepoint: 0x2346, name: "APL FUNCTIONAL SYMBOL RIGHTWARDS VANE", aliases: &[] },
        Codepoint { codepoint: 0x2347, name: "APL FUNCTIONAL SYMBOL QUAD LEFTWARDS ARROW", aliases: &[] },
        Codepoint { codepoint: 0x2348, name: "APL FUNCTIONAL SYMBOL QUAD RIGHTWARDS ARROW", aliases: &[] },
        Codepoint { codepoint: 0x2349, name: "APL FUNCTIONAL SYMBOL CIRCLE BACKSLASH", aliases: &[] },
        Codepoint { codepoint: 0x234A, name: "APL FUNCTIONAL SYMBOL DOWN TACK UNDERBAR", aliases: &[] },
        Codepoint { codepoint: 0x234B, name: "APL FUNCTIONAL SYMBOL DELTA STILE", aliases: &[] },
        Codepoint { codepoint: 0x234C, name: "APL FUNCTIONAL SYMBOL QUAD DOWN CARET", aliases: &[] },
        Codepoint { codepoint: 0x234D, name: "APL FUNCTIONAL SYMBOL QUAD DELTA", aliases: &[] },
        Codepoint { codepoint: 0x234E, name: "APL FUNCTIONAL SYMBOL DOWN TACK JOT", aliases: &[] },
        Codepoint { codepoint: 0x234F, name: "APL FUNCTIONAL SYMBOL UPWARDS VANE", aliases: &[] },
    ]
}

fn all_codepoints_203() -> (v: Vec<Codepoint>)
    ensures
        v@ == codepoint_table_203(),
{
    let v = vec![
        Codepoint { codepoint: 0x2328, name: "KEYBOARD", aliases: &[] },
        Codepoint { codepoint: 0x2329, name: "LEFT-POINTING ANGLE BRACKET", aliases: &["BRA"] },
        Codepoint { codepoint: 0x232A, name: "RIGHT-POINTING ANGLE BRACKET", aliases: &["KET"] },
        Codepoint { codepoint: 0x232B, name: "ERASE TO THE LEFT", aliases: &["DELETE TO THE LEFT KEY"] },
        Codepoint { codepoint: 0x232C, name: "BENZENE RING", aliases: &[] },
        Codepoint { codepoint: 0x232D, name: "CYLINDRICITY", aliases: &[] },
        Codepoint { codepoint: 0x232E, name: "ALL AROUND-PROFILE", aliases: &[] },
        Codepoint { codepoint: 0x232F, name: "SYMMETRY", aliases: &[] },
        Codepoint { codepoint: 0x2330, name: "TOTAL RUNOUT", aliases: &[] },
        Codepoint { codepoint: 0x2331, name: "DIMENSION ORIGIN", aliases: &[] },
        Codepoint { codepoint: 0x2332, name: "CONICAL TAPER", aliases: &[] },
        Codepoint { codepoint: 0x2333, name: "SLOPE", aliases: &[] },
        Codepoint { codepoint: 0x2334, name: "COUNTERBORE", aliases: &[] },
        Codepoint { codepoint: 0x2335, name: "COUNTERSINK", aliases: &[] },
        Codepoint { codepoint: 0x2336, name: "APL FUNCTIONAL SYMBOL I-BEAM", aliases: &[] },
        Codepoint { codepoint: 0x2337, name: "APL FUNCTIONAL SYMBOL SQUISH QUAD", aliases: &[] },
        Codepoint { codepoint: 0x2338, name: "APL FUNCTIONAL SYMBOL QUAD EQUAL", aliases: &[] },
        Codepoint { codepoint: 0x2339, name: "APL FUNCTIONAL SYMBOL QUAD DIVIDE", aliases: &[] },
        Codepoint { codepoint: 0x233A, name: "APL FUNCTIONAL SYMBOL QUAD DIAMOND", aliases: &[] },
        Codepoint { codepoint: 0x233B, name: "APL FUNCTIONAL SYMBOL QUAD JOT", aliases: &[] },
        Codepoint { codepoint: 0x233C, name: "APL FUNCTIONAL SYMBOL QUAD CIRCLE", aliases: &[] },
        Codepoint { codepoint: 0x233D, name: "APL FUNCTIONAL SYMBOL CIRCLE STILE", aliases: &[] },
        Codepoint { codepoint: 0x233E, name: "APL FUNCTIONAL SYMBOL CIRCLE JOT", aliases: &[] },
        Codepoint { codepoint: 0x233F, name: "APL FUNCTIONAL SYMBOL SLASH BAR", aliases: &[] },
        Codepoint { codepoint: 0x2340, name: "APL FUNCTIONAL SYMBOL BACKSLASH BAR", aliases: &[] },
        Codepoint { codepoint: 0x2341, name: "APL FUNCTIONAL SYMBOL QUAD SLASH", aliases: &[] },
        Codepoint { codepoint: 0x2342, name: "APL FUNCTIONAL SYMBOL QUAD BACKSLASH", aliases: &[] },
        Codepoint { codepoint: 0x2343, name: "APL FUNCTIONAL SYMBOL QUAD LESS-THAN", aliases: &[] },
        Codepoint { codepoint: 0x2344, name: "APL FUNCTIONAL SYMBOL QUAD GREATER-THAN", aliases: &[] },
        Codepoint { codepoint: 0x2345, name: "APL FUNCTIONAL SYMBOL LEFTWARDS VANE", aliases: &[] },
        Codepoint { codepoint: 0x2346, name: "APL FUNCTIONAL SYMBOL RIGHTWARDS VANE", aliases: &[] },
        Codepoint { codepoint: 0x2347, name: "APL FUNCTIONAL SYMBOL QUAD LEFTWARDS ARROW", aliases: &[] },
        Codepoint { codepoint: 0x2348, name: "APL FUNCTIONAL SYMBOL QUAD RIGHTWARDS ARROW", aliases: &[] },
        Codepoint { codepoint: 0x2349, name: "APL FUNCTIONAL SYMBOL CIRCLE BACKSLASH", aliases: &[] },
        Codepoint { codepoint: 0x234A, name: "APL FUNCTIONAL SYMBOL DOWN TACK UNDERBAR", aliases: &[] },
        Codepoint { codepoint: 0x234B, name: "APL FUNCTIONAL SYMBOL DELTA STILE", aliases: &[] },
        Codepoint { codepoint: 0x234C, name: "APL FUNCTIONAL SYMBOL QUAD DOWN CARET", aliases: &[] },
        Codepoint { codepoint: 0x234D, name: "APL FUNCTIONAL SYMBOL QUAD DELTA", aliases: &[] },
        Codepoint { codepoint: 0x234E, name: "APL FUNCTIONAL SYMBOL DOWN TACK JOT", aliases: &[] },
        Codepoint { codepoint: 0x234F, name: "APL FUNCTIONAL SYMBOL UPWARDS VANE", aliases: &[] },
    ];
    assert(v@ =~= codepoint_table_203());
    v
}

pub open spec fn codepoint_table_204() -> Seq<Codepoint> {
    seq![
        Codepoint { codepoint: 0x2350, name: "APL FUNCTIONAL SYMBOL QUAD UPWARDS ARROW", aliases: &[] },
        Codepoint { codepoint: 0x2351, name: "APL FUNCTIONAL SYMBOL UP TACK OVERBAR", aliases: &[] },
        Codepoint { codepoint: 0x2352, name: "APL FUNCTIONAL SYMBOL DEL STILE", aliases: &[] },
        Codepoint { codepoint: 0x2353, name: "APL FUNCTIONAL SYMBOL QUAD UP CARET", aliases: &[] },
        Codepoint { codepoint: 0x2354, name: "APL FUNCTIONAL SYMBOL QUAD DEL", aliases: &[] },
        Codepoint { codepoint: 0x2355, name: "APL FUNCTIONAL SYMBOL UP TACK JOT", aliases: &[] },
        Codepoint { codepoint: 0x2356, name: "APL FUNCTIONAL SYMBOL DOWNWARDS VANE", aliases: &[] },
        Codepoint { codepoint: 0x2357, name: "APL FUNCTIONAL SYMBOL QUAD DOWNWARDS ARROW", aliases: &[] },
        Codepoint { codepoint: 0x2358, name: "APL FUNCTIONAL SYMBOL QUOTE UNDERBAR", aliases: &[] },
        Codepoint { codepoint: 0x2359, name: "APL FUNCTIONAL SYMBOL DELTA UNDERBAR", aliases: &[] },
        Codepoint { codepoint: 0x235A, name: "APL FUNCTIONAL SYMBOL DIAMOND UNDERBAR", aliases: &[] },
        Codepoint { codepoint: 0x235B, name: "APL FUNCTIONAL SYMBOL JOT UNDERBAR", aliases: &[] },
        Codepoint { codepoint: 0x235C, name: "APL FUNCTIONAL SYMBOL CIRCLE UNDERBAR", aliases: &[] },
        Codepoint { codepoint: 0x235D, name: "APL FUNCTIONAL SYMBOL UP SHOE JOT", aliases: &[] },
        Codepoint { codepoint: 0x235E, name: "APL FUNCTIONAL SYMBOL QUOTE QUAD", aliases: &[] },
        Codepoint { codepoint: 0x235F, name: "APL FUNCTIONAL SYMBOL CIRCLE STAR", aliases: &[] },
        Codepoint { codepoint: 0x2360, name: "APL FUNCTIONAL SYMBOL QUAD COLON", aliases: &[] },
        Codepoint { codepoint: 0x2361, name: "APL FUNCTIONAL SYMBOL UP TACK DIAERESIS", aliases: &[] },
        Codepoint { codepoint: 0x2362, name: "APL FUNCTIONAL SYMBOL DEL DIAERESIS", aliases: &[] },
        Codepoint { codepoint: 0x2363, name: "APL FUNCTIONAL SYMBOL STAR DIAERESIS", aliases: &[] },
        Codepoint { codepoint: 0x2364, name: "APL FUNCTIONAL SYMBOL JOT DIAERESIS", aliases: &[] },
        Codepoint { codepoint: 0x2365, name: "APL FUNCTIONAL SYMBOL CIRCLE DIAERESIS", aliases: &[] },
        Codepoint { codepoint: 0x2366, name: "APL FUNCTIONAL SYMBOL DOWN SHOE STILE", aliases: &[] },
        Codepoint { codepoint: 0x2367, name: "APL FUNCTIONAL SYMBOL LEFT SHOE STILE", aliases: &[] },
        Codepoint { codepoint: 0x2368, name: "APL FUNCTIONAL SYMBOL TILDE DIAERESIS", aliases: &[] },
        Codepoint { codepoint: 0x2369, name: "APL FUNCTIONAL SYMBOL GREATER-THAN DIAERESIS", aliases: &[] },
        Codepoint { codepoint: 0x236A, name: "APL FUNCTIONAL SYMBOL COMMA BAR", aliases: &[] },
        Codepoint { codepoint: 0x236B, name: "APL FUNCTIONAL SYMBOL DEL TILDE", aliases: &[] },
        Codepoint { codepoint: 0x236C, name: "APL FUNCTIONAL SYMBOL ZILDE", aliases: &[] },
        Codepoint { codepoint: 0x236D, name: "APL FUNCTIONAL SYMBOL STILE TILDE", aliases: &[] },
        Codepoint { codepoint: 0x236E, name: "APL FUNCTIONAL SYMBOL SEMICOLON UNDERBAR", aliases: &[] },
        Codepoint { codepoint: 0x236F, name: "APL FUNCTIONAL SYMBOL QUAD NOT EQUAL", aliases: &[] },
        Codepoint { codepoint: 0x2370, name: "APL FUNCTIONAL SYMBOL QUAD QUESTION", aliases: &[] },
        Codepoint { codepoint: 0x2371, name: "APL FUNCTIONAL SYMBOL DOWN CARET TILDE", aliases: &[] },
        Codepoint { codepoint: 0x2372, name: "APL FUNCTIONAL SYMBOL UP CARET TILDE", aliases: &[] },
        Codepoint { codepoint: 0x2373, name: "APL FUNCTIONAL SYMBOL IOTA", aliases: &[] },
        Codepoint { codepoint: 0x2374, name: "APL FUNCTIONAL SYMBOL RHO", aliases: &[] },
        Codepoint { codepoint: 0x2375, name: "APL FUNCTIONAL SYMBOL OMEGA", aliases: &[] },
        Codepoint { codepoint: 0x2376, name: "APL FUNCTIONAL SYMBOL ALPHA UNDERBAR", aliases: &[] },
        Codepoint { codepoint: 0x2377, name: "APL FUNCTIONAL SYMBOL EPSILON UNDERBAR", aliases: &[] },
    ]
}

fn all_codepoints_204() -> (v: Vec<Codepoint>)
    ensures
        v@ == codepoint_table_204(),
{
    let v = vec![
        Codepoint { codepoint: 0x2350, name: "APL FUNCTIONAL SYMBOL QUAD UPWARDS ARROW", aliases: &[] },
        Codepoint { codepoint: 0x2351, name: "APL FUNCTIONAL SYMBOL UP TACK OVERBAR", aliases: &[] },
        Codepoint { codepoint: 0x2352, name: "APL FUNCTIONAL SYMBOL DEL STILE", aliases: &[] },
        Codepoint { codepoint: 0x2353, name: "APL FUNCTIONAL SYMBOL QUAD UP CARET", aliases: &[] },
        Codepoint { codepoint: 0x2354, name: "APL FUNCTIONAL SYMBOL QUAD DEL", aliases: &[] },
        Codepoint { codepoint: 0x2355, name: "APL FUNCTIONAL SYMBOL UP TACK JOT", aliases: &[] },
        Codepoint { codepoint: 0x2356, name: "APL FUNCTIONAL SYMBOL DOWNWARDS VANE", aliases: &[] },
        Codepoint { codepoint: 0x2357, name: "APL FUNCTIONAL SYMBOL QUAD DOWNWARDS ARROW", aliases: &[] },
        Codepoint { codepoint: 0x2358, name: "APL FUNCTIONAL SYMBOL QUOTE UNDERBAR", aliases: &[] },
        Codepoint { codepoint: 0x2359, name: "APL FUNCTIONAL SYMBOL DELTA UNDERBAR", aliases: &[] },
        Codepoint { codepoint: 0x235A, name: "APL FUNCTIONAL SYMBOL DIAMOND UNDERBAR", aliases: &[] },
        Codepoint { codepoint: 0x235B, name: "APL FUNCTIONAL SYMBOL JOT UNDERBAR", aliases: &[] },
        Codepoint { codepoint: 0x235C, name: "APL FUNCTIONAL SYMBOL CIRCLE UNDERBAR", aliases: &[] },
        Codepoint { codepoint: 0x235D, name: "APL FUNCTIONAL SYMBOL UP SHOE JOT", aliases: &[] },
        Codepoint { codepoint: 0x235E, name: "APL FUNCTIONAL SYMBOL QUOTE QUAD", aliases: &[] },
        Codepoint { codepoint: 0x235F, name: "APL FUNCTIONAL SYMBOL CIRCLE STAR", aliases: &[] },
        Codepoint { codepoint: 0x2360, name: "APL FUNCTIONAL SYMBOL QUAD COLON", aliases: &[] },
        Codepoint { codepoint: 0x2361, name: "APL FUNCTIONAL SYMBOL UP TACK DIAERESIS", aliases: &[] },
        Codepoint { codepoint: 0x2362, name: "APL FUNCTIONAL SYMBOL DEL DIAERESIS", aliases: &[] },
        Codepoint { codepoint: 0x2363, name: "APL FUNCTIONAL SYMBOL STAR DIAERESIS", aliases: &[] },
        Codepoint { codepoint: 0x2364, name: "APL FUNCTIONAL SYMBOL JOT DIAERESIS", aliases: &[] },
        Codepoint { codepoint: 0x2365, name: "APL FUNCTIONAL SYMBOL CIRCLE DIAERESIS", aliases: &[] },
        Codepoint { codepoint: 0x2366, name: "APL FUNCTIONAL SYMBOL DOWN SHOE STILE", aliases: &[] },
        Codepoint { codepoint: 0x2367, name: "APL FUNCTIONAL SYMBOL LEFT SHOE STILE", aliases: &[] },
        Codepoint { codepoint: 0x2368, name: "APL FUNCTIONAL SYMBOL TILDE DIAERESIS", aliases: &[] },
        Codepoint { codepoint: 0x2369, name: "APL FUNCTIONAL SYMBOL GREATER-THAN DIAERESIS", aliases: &[] },
        Codepoint { codepoint: 0x236A, name: "APL FUNCTIONAL SYMBOL COMMA BAR", aliases: &[] },
        Codepoint { codepoint: 0x236B, name: "APL FUNCTIONAL SYMBOL DEL TILDE", aliases: &[] },
        Codepoint { codepoint: 0x236C, name: "APL FUNCTIONAL SYMBOL ZILDE", aliases: &[] },
        Codepoint { codepoint: 0x236D, name: "APL FUNCTIONAL SYMBOL STILE TILDE", aliases: &[] },
        Codepoint { codepoint: 0x236E, name: "APL FUNCTIONAL SYMBOL SEMICOLON UNDERBAR", aliases: &[] },
        Codepoint { codepoint: 0x236F, name: "APL FUNCTIONAL SYMBOL QUAD NOT EQUAL", aliases: &[] },
        Codepoint { codepoint: 0x2370, name: "APL FUNCTIONAL SYMBOL QUAD QUESTION", aliases: &[] },
        Codepoint { codepoint: 0x2371, name: "APL FUNCTIONAL SYMBOL DOWN CARET TILDE", aliases: &[] },
        Codepoint { codepoint: 0x2372, name: "APL FUNCTIONAL SYMBOL UP CARET TILDE", aliases: &[] },
        Codepoint { codepoint: 0x2373, name: "APL FUNCTIONAL SYMBOL IOTA", aliases: &[] },
        Codepoint { codepoint: 0x2374, name: "APL FUNCTIONAL SYMBOL RHO", aliases: &[] },
        Codepoint { codepoint: 0x2375, name: "APL FUNCTIONAL SYMBOL OMEGA", aliases: &[] },
        Codepoint { codepoint: 0x2376, name: "APL FUNCTIONAL SYMBOL ALPHA UNDERBAR", aliases: &[] },
        Codepoint { codepoint: 0x2377, name: "APL FUNCTIONAL SYMBOL EPSILON UNDERBAR", aliases: &[] },
    ];
    assert(v@ =~= codepoint_table_204());
    v
}

pub open spec fn codepoint_table_205() -> Seq<Codepoint> {
    seq![
        Codepoint { codepoint: 0x2378, name: "APL FUNCTIONAL SYMBOL IOTA UNDERBAR", aliases: &[] },
        Codepoint { codepoint: 0x2379, name: "APL FUNCTIONAL SYMBOL OMEGA UNDERBAR", aliases: &[] },
        Codepoint { codepoint: 0x237A, name: "APL FUNCTIONAL SYMBOL ALPHA", aliases: &[] },
        Codepoint { codepoint: 0x237B, name: "NOT CHECK MARK", aliases: &[] },
        Codepoint { codepoint: 0x237C, name: "RIGHT ANGLE WITH DOWNWARDS ZIGZAG ARROW", aliases: &[] },
        Codepoint { codepoint: 0x237D, name: "SHOULDERED OPEN BOX", aliases: &[] },
        Codepoint { codepoint: 0x237E, name: "BELL SYMBOL", aliases: &[] },
        Codepoint { codepoint: 0x237F, name: "VERTICAL LINE WITH MIDDLE DOT", aliases: &[] },
        Codepoint { codepoint: 0x2380, name: "INSERTION SYMBOL", aliases: &[] },
        Codepoint { codepoint: 0x2381, name: "CONTINUOUS UNDERLINE SYMBOL", aliases: &[] },
        Codepoint { codepoint: 0x2382, name: "DISCONTINUOUS UNDERLINE SYMBOL", aliases: &[] },
        Codepoint { codepoint: 0x2383, name: "EMPHASIS SYMBOL", aliases: &[] },
        Codepoint { codepoint: 0x2384, name: "COMPOSITION SYMBOL", aliases: &[] },
        Codepoint { codepoint: 0x2385, name: "WHITE SQUARE WITH CENTRE VERTICAL LINE", aliases: &[] },
        Codepoint { codepoint: 0x2386, name: "ENTER SYMBOL", aliases: &[] },
        Codepoint { codepoint: 0x2387, name: "ALTERNATIVE KEY SYMBOL", aliases: &[] },
        Codepoint { codepoint: 0x2388, name: "HELM SYMBOL", aliases: &[] },
        Codepoint { codepoint: 0x2389, name: "CIRCLED HORIZONTAL BAR WITH NOTCH", aliases: &[] },
        Codepoint { codepoint: 0x238A, name: "CIRCLED TRIANGLE DOWN", aliases: &[] },
        Codepoint { codepoint: 0x238B, name: "BROKEN CIRCLE WITH NORTHWEST ARROW", aliases: &[] },
        Codepoint { codepoint: 0x238C, name: "UNDO SYMBOL", aliases: &[] },
        Codepoint { codepoint: 0x238D, name: "MONOSTABLE SYMBOL", aliases: &[] },
        Codepoint { codepoint: 0x238E, name: "HYSTERESIS SYMBOL", aliases: &[] },
        Codepoint { codepoint: 0x238F, name: "OPEN-CIRCUIT-OUTPUT H-TYPE SYMBOL", aliases: &[] },
        Codepoint { codepoint: 0x2390, name: "OPEN-CIRCUIT-OUTPUT L-TYPE SYMBOL", aliases: &[] },
        Codepoint { codepoint: 0x2391, name: "PASSIVE-PULL-DOWN-OUTPUT SYMBOL", aliases: &[] },
        Codepoint { codepoint: 0x2392, name: "PASSIVE-PULL-UP-OUTPUT SYMBOL", aliases: &[] },
        Codepoint { codepoint: 0x2393, name: "DIRECT CURRENT SYMBOL FORM TWO", aliases: &[] },
        Codepoint { codepoint: 0x2394, name: "SOFTWARE-FUNCTION SYMBOL", aliases: &[] },
        Codepoint { codepoint: 0x2395, name: "APL FUNCTIONAL SYMBOL QUAD", aliases: &[] },
        Codepoint { codepoint: 0x2396, name: "DECIMAL SEPARATOR KEY SYMBOL", aliases: &[] },
        Codepoint { codepoint: 0x2397, name: "PREVIOUS PAGE", aliases: &[] },
        Codepoint { codepoint: 0x2398, name: "NEXT PAGE", aliases: &[] },
        Codepoint { codepoint: 0x2399, name: "PRINT SCREEN SYMBOL", aliases: &[] },
        Codepoint { codepoint: 0x239A, name: "CLEAR SCREEN SYMBOL", aliases: &[] },
        Codepoint { codepoint: 0x239B, name: "LEFT PARENTHESIS UPPER HOOK", aliases: &[] },
        Codepoint { codepoint: 0x239C, name: "LEFT PARENTHESIS EXTENSION", aliases: &[] },
        Codepoint { codepoint: 0x239D, name: "LEFT PARENTHESIS LOWER HOOK", aliases: &[] },
        Codepoint { codepoint: 0x239E, name: "RIGHT PARENTHESIS UPPER HOOK", aliases: &[] },
        Codepoint { codepoint: 0x239F, name: "RIGHT PARENTHESIS EXTENSION", aliases: &[] },
    ]
}

fn all_codepoints_205() -> (v: Vec<Codepoint>)
    ensures
        v@ == codepoint_table_205(),
{
    let v = vec![
        Codepoint { codepoint: 0x2378, name: "APL FUNCTIONAL SYMBOL IOTA UNDERBAR", aliases: &[] },
        Codepoint { codepoint: 0x2379, name: "APL FUNCTIONAL SYMBOL OMEGA UNDERBAR", aliases: &[] },
        Codepoint { codepoint: 0x237A, name: "APL FUNCTIONAL SYMBOL ALPHA", aliases: &[] },
        Codepoint { codepoint: 0x237B, name: "NOT CHECK MARK", aliases: &[] },
        Codepoint { codepoint: 0x237C, name: "RIGHT ANGLE WITH DOWNWARDS ZIGZAG ARROW", aliases: &[] },
        Codepoint { codepoint: 0x237D, name: "SHOULDERED OPEN BOX", aliases: &[] },
        Codepoint { codepoint: 0x237E, name: "BELL SYMBOL", aliases: &[] },
        Codepoint { codepoint: 0x237F, name: "VERTICAL LINE WITH MIDDLE DOT", aliases: &[] },
        Codepoint { codepoint: 0x2380, name: "INSERTION SYMBOL", aliases: &[] },
        Codepoint { codepoint: 0x2381, name: "CONTINUOUS UNDERLINE SYMBOL", aliases: &[] },
        Codepoint { codepoint: 0x2382, name: "DISCONTINUOUS UNDERLINE SYMBOL", aliases: &[] },
        Codepoint { codepoint: 0x2383, name: "EMPHASIS SYMBOL", aliases: &[] },
        Codepoint { codepoint: 0x2384, name: "COMPOSITION SYMBOL", aliases: &[] },
        Codepoint { codepoint: 0x2385, name: "WHITE SQUARE WITH CENTRE VERTICAL LINE", aliases: &[] },
        Codepoint { codepoint: 0x2386, name: "ENTER SYMBOL", aliases: &[] },
        Codepoint { codepoint: 0x2387, name: "ALTERNATIVE KEY SYMBOL", aliases: &[] },
        Codepoint { codepoint: 0x2388, name: "HELM SYMBOL", aliases: &[] },
        Codepoint { codepoint: 0x2389, name: "CIRCLED HORIZONTAL BAR WITH NOTCH", aliases: &[] },
        Codepoint { codepoint: 0x238A, name: "CIRCLED TRIANGLE DOWN", aliases: &[] },
        Codepoint { codepoint: 0x238B, name: "BROKEN CIRCLE WITH NORTHWEST ARROW", aliases: &[] },
        Codepoint { codepoint: 0x238C, name: "UNDO SYMBOL", aliases: &[] },
        Codepoint { codepoint: 0x238D, name: "MONOSTABLE SYMBOL", aliases: &[] },
        Codepoint { codepoint: 0x238E, name: "HYSTERESIS SYMBOL", aliases: &[] },
        Codepoint { codepoint: 0x238F, name: "OPEN-CIRCUIT-OUTPUT H-TYPE SYMBOL", aliases: &[] },
        Codepoint { codepoint: 0x2390, name: "OPEN-CIRCUIT-OUTPUT L-TYPE SYMBOL", aliases: &[] },
        Codepoint { codepoint: 0x2391, name: "PASSIVE-PULL-DOWN-OUTPUT SYMBOL", aliases: &[] },
        Codepoint { codepoint: 0x2392, name: "PASSIVE-PULL-UP-OUTPUT SYMBOL", aliases: &[] },
        Codepoint { codepoint: 0x2393, name: "DIRECT CURRENT SYMBOL FORM TWO", aliases: &[] },
        Codepoint { codepoint: 0x2394, name: "SOFTWARE-FUNCTION SYMBOL", aliases: &[] },
        Codepoint { codepoint: 0x2395, name: "APL FUNCTIONAL SYMBOL QUAD", aliases: &[] },
        Codepoint { codepoint: 0x2396, name: "DECIMAL SEPARATOR KEY SYMBOL", aliases: &[] },
        Codepoint { codepoint: 0x2397, name: "PREVIOUS PAGE", aliases: &[] },
        Codepoint { codepoint: 0x2398, name: "NEXT PAGE", aliases: &[] },
        Codepoint { codepoint: 0x2399, name: "PRINT SCREEN SYMBOL", aliases: &[] },
        Codepoint { codepoint: 0x239A, name: "CLEAR SCREEN SYMBOL", aliases: &[] },
        Codepoint { codepoint: 0x239B, name: "LEFT PARENTHESIS UPPER HOOK", aliases: &[] },
        Codepoint { codepoint: 0x239C, name: "LEFT PARENTHESIS EXTENSION", aliases: &[] },
        Codepoint { codepoint: 0x239D, name: "LEFT PARENTHESIS LOWER HOOK", aliases: &[] },
        Codepoint { codepoint: 0x239E, name: "RIGHT PARENTHESIS UPPER HOOK", aliases: &[] },
        Codepoint { codepoint: 0x239F, name: "RIGHT PARENTHESIS EXTENSION", aliases: &[] },
    ];
    assert(v@ =~= codepoint_table_205());
    v
}

pub open spec fn codepoint_table_206() -> Seq<Codepoint> {
    seq![
        Codepoint { codepoint: 0x23A0, name: "RIGHT PARENTHESIS LOWER HOOK", aliases: &[] },
        Codepoint { codepoint: 0x23A1, name: "LEFT SQUARE BRACKET UPPER CORNER", aliases: &[] },
        Codepoint { codepoint: 0x23A2, name: "LEFT SQUARE BRACKET EXTENSION", aliases: &[] },
        Codepoint { codepoint: 0x23A3, name: "LEFT SQUARE BRACKET LOWER CORNER", aliases: &[] },
        Codepoint { codepoint: 0x23A4, name: "RIGHT SQUARE BRACKET UPPER CORNER", aliases: &[] },
        Codepoint { codepoint: 0x23A5, name: "RIGHT SQUARE BRACKET EXTENSION", aliases: &[] },
        Codepoint { codepoint: 0x23A6, name: "RIGHT SQUARE BRACKET LOWER CORNER", aliases: &[] },
        Codepoint { codepoint: 0x23A7, name: "LEFT CURLY BRACKET UPPER HOOK", aliases: &[] },
        Codepoint { codepoint: 0x23A8, name: "LEFT CURLY BRACKET MIDDLE PIECE", aliases: &[] },
        Codepoint { codepoint: 0x23A9, name: "LEFT CURLY BRACKET LOWER HOOK", aliases: &[] },
        Codepoint { codepoint: 0x23AA, name: "CURLY BRACKET EXTENSION", aliases: &[] },
        Codepoint { codepoint: 0x23AB, name: "RIGHT CURLY BRACKET UPPER HOOK", aliases: &[] },
        Codepoint { codepoint: 0x23AC, name: "RIGHT CURLY BRACKET MIDDLE PIECE", aliases: &[] },
        Codepoint { codepoint: 0x23AD, name: "RIGHT CURLY BRACKET LOWER HOOK", aliases: &[] },
        Codepoint { codepoint: 0x23AE, name: "INTEGRAL EXTENSION", aliases: &[] },
        Codepoint { codepoint: 0x23AF, name: "HORIZONTAL LINE EXTENSION", aliases: &[] },
        Codepoint { codepoint: 0x23B0, name: "UPPER LEFT OR LOWER RIGHT CURLY BRACKET SECTION", aliases: &[] },
        Codepoint { codepoint: 0x23B1, name: "UPPER RIGHT OR LOWER LEFT CURLY BRACKET SECTION", aliases: &[] },
        Codepoint { codepoint: 0x23B2, name: "SUMMATION TOP", aliases: &[] },
        Codepoint { codepoint: 0x23B3, name: "SUMMATION BOTTOM", aliases: &[] },
        Codepoint { codepoint: 0x23B4, name: "TOP SQUARE BRACKET", aliases: &[] },
        Codepoint { codepoint: 0x23B5, name: "BOTTOM SQUARE BRACKET", aliases: &[] },
        Codepoint { codepoint: 0x23B6, name: "BOTTOM SQUARE BRACKET OVER TOP SQUARE BRACKET", aliases: &[] },
        Codepoint { codepoint: 0x23B7, name: "RADICAL SYMBOL BOTTOM", aliases: &[] },
        Codepoint { codepoint: 0x23B8, name: "LEFT VERTICAL BOX LINE", aliases: &[] },
        Codepoint { codepoint: 0x23B9, name: "RIGHT VERTICAL BOX LINE", aliases: &[] },
        Codepoint { codepoint: 0x23BA, name: "HORIZONTAL SCAN LINE-1", aliases: &[] },
        Codepoint { codepoint: 0x23BB, name: "HORIZONTAL SCAN LINE-3", aliases: &[] },
        Codepoint { codepoint: 0x23BC, name: "HORIZONTAL SCAN LINE-7", aliases: &[] },
        Codepoint { codepoint: 0x23BD, name: "HORIZONTAL SCAN LINE-9", aliases: &[] },
        Codepoint { codepoint: 0x23BE, name: "DENTISTRY SYMBOL LIGHT VERTICAL AND TOP RIGHT", aliases: &[] },
        Codepoint { codepoint: 0x23BF, name: "DENTISTRY SYMBOL LIGHT VERTICAL AND BOTTOM RIGHT", aliases: &[] },
        Codepoint { codepoint: 0x23C0, name: "DENTISTRY SYMBOL LIGHT VERTICAL WITH CIRCLE", aliases: &[] },
        Codepoint { codepoint: 0x23C1, name: "DENTISTRY SYMBOL LIGHT DOWN AND HORIZONTAL WITH CIRCLE", aliases: &[] },
        Codepoint { codepoint: 0x23C2, name: "DENTISTRY SYMBOL LIGHT UP AND HORIZONTAL WITH CIRCLE", aliases: &[] },
        Codepoint { codepoint: 0x23C3, name: "DENTISTRY SYMBOL LIGHT VERTICAL WITH TRIANGLE", aliases: &[] },
        Codepoint { codepoint: 0x23C4, name: "DENTISTRY SYMBOL LIGHT DOWN AND HORIZONTAL WITH TRIANGLE", aliases: &[] },
        Codepoint { codepoint: 0x23C5, name: "DENTISTRY SYMBOL LIGHT UP AND HORIZONTAL WITH TRIANGLE", aliases: &[] },
        Codepoint { codepoint: 0x23C6, name: "DENTISTRY SYMBOL LIGHT VERTICAL AND WAVE", aliases: &[] },
        Codepoint { codepoint: 0x23C7, name: "DENTISTRY SYMBOL LIGHT DOWN AND HORIZONTAL WITH WAVE", aliases: &[] },
    ]
}

fn all_codepoints_206() -> (v: Vec<Codepoint>)
    ensures
        v@ == codepoint_table_206(),
{
    let v = vec![
        Codepoint { codepoint: 0x23A0, name: "RIGHT PARENTHESIS LOWER HOOK", aliases: &[] },
        Codepoint { codepoint: 0x23A1, name: "LEFT SQUARE BRACKET UPPER CORNER", aliases: &[] },
        Codepoint { codepoint: 0x23A2, name: "LEFT SQUARE BRACKET EXTENSION", aliases: &[] },
        Codepoint { codepoint: 0x23A3, name: "LEFT SQUARE BRACKET LOWER CORNER", aliases: &[] },
        Codepoint { codepoint: 0x23A4, name: "RIGHT SQUARE BRACKET UPPER CORNER", aliases: &[] },
        Codepoint { codepoint: 0x23A5, name: "RIGHT SQUARE BRACKET EXTENSION", aliases: &[] },
        Codepoint { codepoint: 0x23A6, name: "RIGHT SQUARE BRACKET LOWER CORNER", aliases: &[] },
        Codepoint { codepoint: 0x23A7, name: "LEFT CURLY BRACKET UPPER HOOK", aliases: &[] },
        Codepoint { codepoint: 0x23A8, name: "LEFT CURLY BRACKET MIDDLE PIECE", aliases: &[] },
        Codepoint { codepoint: 0x23A9, name: "LEFT CURLY BRACKET LOWER HOOK", aliases: &[] },
        Codepoint { codepoint: 0x23AA, name: "CURLY BRACKET EXTENSION", aliases: &[] },
        Codepoint { codepoint: 0x23AB, name: "RIGHT CURLY BRACKET UPPER HOOK", aliases: &[] },
        Codepoint { codepoint: 0x23AC, name: "RIGHT CURLY BRACKET MIDDLE PIECE", aliases: &[] },
        Codepoint { codepoint: 0x23AD, name: "RIGHT CURLY BRACKET LOWER HOOK", aliases: &[] },
        Codepoint { codepoint: 0x23AE, name: "INTEGRAL EXTENSION", aliases: &[] },
        Codepoint { codepoint: 0x23AF, name: "HORIZONTAL LINE EXTENSION", aliases: &[] },
        Codepoint { codepoint: 0x23B0, name: "UPPER LEFT OR LOWER RIGHT CURLY BRACKET SECTION", aliases: &[] },
        Codepoint { codepoint: 0x23B1, name: "UPPER RIGHT OR LOWER LEFT CURLY BRACKET SECTION", aliases: &[] },
        Codepoint { codepoint: 0x23B2, name: "SUMMATION TOP", aliases: &[] },
        Codepoint { codepoint: 0x23B3, name: "SUMMATION BOTTOM", aliases: &[] },
        Codepoint { codepoint: 0x23B4, name: "TOP SQUARE BRACKET", aliases: &[] },
        Codepoint { codepoint: 0x23B5, name: "BOTTOM SQUARE BRACKET", aliases: &[] },
        Codepoint { codepoint: 0x23B6, name: "BOTTOM SQUARE BRACKET OVER TOP SQUARE BRACKET", aliases: &[] },
        Codepoint { codepoint: 0x23B7, name: "RADICAL SYMBOL BOTTOM", aliases: &[] },
        Codepoint { codepoint: 0x23B8, name: "LEFT VERTICAL BOX LINE", aliases: &[] },
        Codepoint { codepoint: 0x23B9, name: "RIGHT VERTICAL BOX LINE", aliases: &[] },
        Codepoint { codepoint: 0x23BA, name: "HORIZONTAL SCAN LINE-1", aliases: &[] },
        Codepoint { codepoint: 0x23BB, name: "HORIZONTAL SCAN LINE-3", aliases: &[] },
        Codepoint { codepoint: 0x23BC, name: "HORIZONTAL SCAN LINE-7", aliases: &[] },
        Codepoint { codepoint: 0x23BD, name: "HORIZONTAL SCAN LINE-9", aliases: &[] },
        Codepoint { codepoint: 0x23BE, name: "DENTISTRY SYMBOL LIGHT VERTICAL AND TOP RIGHT", aliases: &[] },
        Codepoint { codepoint: 0x23BF, name: "DENTISTRY SYMBOL LIGHT VERTICAL AND BOTTOM RIGHT", aliases: &[] },
        Codepoint { codepoint: 0x23C0, name: "DENTISTRY SYMBOL LIGHT VERTICAL WITH CIRCLE", aliases: &[] },
        Codepoint { codepoint: 0x23C1, name: "DENTISTRY SYMBOL LIGHT DOWN AND HORIZONTAL WITH CIRCLE", aliases: &[] },
        Codepoint { codepoint: 0x23C2, name: "DENTISTRY SYMBOL LIGHT UP AND HORIZONTAL WITH CIRCLE", aliases: &[] },
        Codepoint { codepoint: 0x23C3, name: "DENTISTRY SYMBOL LIGHT VERTICAL WITH TRIANGLE", aliases: &[] },
        Codepoint { codepoint: 0x23C4, name: "DENTISTRY SYMBOL LIGHT DOWN AND HORIZONTAL WITH TRIANGLE", aliases: &[] },
        Codepoint { codepoint: 0x23C5, name: "DENTISTRY SYMBOL LIGHT UP AND HORIZONTAL WITH TRIANGLE", aliases: &[] },
        Codepoint { codepoint: 0x23C6, name: "DENTISTRY SYMBOL LIGHT VERTICAL AND WAVE", aliases: &[] },
        Codepoint { codepoint: 0x23C7, name: "DENTISTRY SYMBOL LIGHT DOWN AND HORIZONTAL WITH WAVE", aliases: &[] },
    ];
    assert(v@ =~= codepoint_table_206());
    v
}

pub open spec fn codepoint_table_207() -> Seq<Codepoint> {
    seq![
        Codepoint { codepoint: 0x23C8, name: "DENTISTRY SYMBOL LIGHT UP AND HORIZONTAL WITH WAVE", aliases: &[] },
        Codepoint { codepoint: 0x23C9, name: "DENTISTRY SYMBOL LIGHT DOWN AND HORIZONTAL", aliases: &[] },
        Codepoint { codepoint: 0x23CA, name: "DENTISTRY SYMBOL LIGHT UP AND HORIZONTAL", aliases: &[] },
        Codepoint { codepoint: 0x23CB, name: "DENTISTRY SYMBOL LIGHT VERTICAL AND TOP LEFT", aliases: &[] },
        Codepoint { codepoint: 0x23CC, name: "DENTISTRY SYMBOL LIGHT VERTICAL AND BOTTOM LEFT", aliases: &[] },
        Codepoint { codepoint: 0x23CD, name: "SQUARE FOOT", aliases: &[] },
        Codepoint { codepoint: 0x23CE, name: "RETURN SYMBOL", aliases: &[] },
        Codepoint { codepoint: 0x23CF, name: "EJECT SYMBOL", aliases: &[] },
        Codepoint { codepoint: 0x23D0, name: "VERTICAL LINE EXTENSION", aliases: &[] },
        Codepoint { codepoint: 0x23D1, name: "METRICAL BREVE", aliases: &[] },
        Codepoint { codepoint: 0x23D2, name: "METRICAL LONG OVER SHORT", aliases: &[] },
        Codepoint { codepoint: 0x23D3, name: "METRICAL SHORT OVER LONG", aliases: &[] },
        Codepoint { codepoint: 0x23D4, name: "METRICAL LONG OVER TWO SHORTS", aliases: &[] },
        Codepoint { codepoint: 0x23D5, name: "METRICAL TWO SHORTS OVER LONG", aliases: &[] },
        Codepoint { codepoint: 0x23D6, name: "METRICAL TWO SHORTS JOINED", aliases: &[] },
        Codepoint { codepoint: 0x23D7, name: "METRICAL TRISEME", aliases: &[] },
        Codepoint { codepoint: 0x23D8, name: "METRICAL TETRASEME", aliases: &[] },
        Codepoint { codepoint: 0x23D9, name: "METRICAL PENTASEME", aliases: &[] },
        Codepoint { codepoint: 0x23DA, name: "EARTH GROUND", aliases: &[] },
        Codepoint { codepoint: 0x23DB, name: "FUSE", aliases: &[] },
        Codepoint { codepoint: 0x23DC, name: "TOP PARENTHESIS", aliases: &[] },
        Codepoint { codepoint: 0x23DD, name: "BOTTOM PARENTHESIS", aliases: &[] },
        Codepoint { codepoint: 0x23DE, name: "TOP CURLY BRACKET", aliases: &[] },
        Codepoint { codepoint: 0x23DF, name: "BOTTOM CURLY BRACKET", aliases: &[] },
        Codepoint { codepoint: 0x23E0, name: "TOP TORTOISE SHELL BRACKET", aliases: &[] },
        Codepoint { codepoint: 0x23E1, name: "BOTTOM TORTOISE SHELL BRACKET", aliases: &[] },
        Codepoint { codepoint: 0x23E2, name: "WHITE TRAPEZIUM", aliases: &[] },
        Codepoint { codepoint: 0x23E3, name: "BENZENE RING WITH CIRCLE", aliases: &[] },
        Codepoint { codepoint: 0x23E4, name: "STRAIGHTNESS", aliases: &[] },
        Codepoint { codepoint: 0x23E5, name: "FLATNESS", aliases: &[] },
        Codepoint { codepoint: 0x23E6, name: "AC CURRENT", aliases: &[] },
        Codepoint { codepoint: 0x23E7, name: "ELECTRICAL INTERSECTION", aliases: &[] },
        Codepoint { codepoint: 0x23E8, name: "DECIMAL EXPONENT SYMBOL", aliases: &[] },
        Codepoint { codepoint: 0x23E9, name: "BLACK RIGHT-POINTING DOUBLE TRIANGLE", aliases: &[] },
        Codepoint { codepoint: 0x23EA, name: "BLACK LEFT-POINTING DOUBLE TRIANGLE", aliases: &[] },
        Codepoint { codepoint: 0x23EB, name: "BLACK UP-POINTING DOUBLE TRIANGLE", aliases: &[] },
        Codepoint { codepoint: 0x23EC, name: "BLACK DOWN-POINTING DOUBLE TRIANGLE", aliases: &[] },
        Codepoint { codepoint: 0x23ED, name: "BLACK RIGHT-POINTING DOUBLE TRIANGLE WITH VERTICAL BAR", aliases: &[] },
        Codepoint { codepoint: 0x23EE, name: "BLACK LEFT-POINTING DOUBLE TRIANGLE WITH VERTICAL BAR", aliases: &[] },
        Codepoint { codepoint: 0x23EF, name: "BLACK RIGHT-POINTING TRIANGLE WITH DOUBLE VERTICAL BAR", aliases: &[] },
    ]
}

fn all_codepoints_207() -> (v: Vec<Codepoint>)
    ensures
        v@ == codepoint_table_207(),
{
    let v = vec![
        Codepoint { codepoint: 0x23C8, name: "DENTISTRY SYMBOL LIGHT UP AND HORIZONTAL WITH WAVE", aliases: &[] },
        Codepoint { codepoint: 0x23C9, name: "DENTISTRY SYMBOL LIGHT DOWN AND HORIZONTAL", aliases: &[] },
        Codepoint { codepoint: 0x23CA, name: "DENTISTRY SYMBOL LIGHT UP AND HORIZONTAL", aliases: &[] },
        Codepoint { codepoint: 0x23CB, name: "DENTISTRY SYMBOL LIGHT VERTICAL AND TOP LEFT", aliases: &[] },
        Codepoint { codepoint: 0x23CC, name: "DENTISTRY SYMBOL LIGHT VERTICAL AND BOTTOM LEFT", aliases: &[] },
        Codepoint { codepoint: 0x23CD, name: "SQUARE FOOT", aliases: &[] },
        Codepoint { codepoint: 0x23CE, name: "RETURN SYMBOL", aliases: &[] },
        Codepoint { codepoint: 0x23CF, name: "EJECT SYMBOL", aliases: &[] },
        Codepoint { codepoint: 0x23D0, name: "VERTICAL LINE EXTENSION", aliases: &[] },
        Codepoint { codepoint: 0x23D1, name: "METRICAL BREVE", aliases: &[] },
        Codepoint { codepoint: 0x23D2, name: "METRICAL LONG OVER SHORT", aliases: &[] },
        Codepoint { codepoint: 0x23D3, name: "METRICAL SHORT OVER LONG", aliases: &[] },
        Codepoint { codepoint: 0x23D4, name: "METRICAL LONG OVER TWO SHORTS", aliases: &[] },
        Codepoint { codepoint: 0x23D5, name: "METRICAL TWO SHORTS OVER LONG", aliases: &[] },
        Codepoint { codepoint: 0x23D6, name: "METRICAL TWO SHORTS JOINED", aliases: &[] },
        Codepoint { codepoint: 0x23D7, name: "METRICAL TRISEME", aliases: &[] },
        Codepoint { codepoint: 0x23D8, name: "METRICAL TETRASEME", aliases: &[] },
        Codepoint { codepoint: 0x23D9, name: "METRICAL PENTASEME", aliases: &[] },
        Codepoint { codepoint: 0x23DA, name: "EARTH GROUND", aliases: &[] },
        Codepoint { codepoint: 0x23DB, name: "FUSE", aliases: &[] },
        Codepoint { codepoint: 0x23DC, name: "TOP PARENTHESIS", aliases: &[] },
        Codepoint { codepoint: 0x23DD, name: "BOTTOM PARENTHESIS", aliases: &[] },
        Codepoint { codepoint: 0x23DE, name: "TOP CURLY BRACKET", aliases: &[] },
        Codepoint { codepoint: 0x23DF, name: "BOTTOM CURLY BRACKET", aliases: &[] },
        Codepoint { codepoint: 0x23E0, name: "TOP TORTOISE SHELL BRACKET", aliases: &[] },
        Codepoint { codepoint: 0x23E1, name: "BOTTOM TORTOISE SHELL BRACKET", aliases: &[] },
        Codepoint { codepoint: 0x23E2, name: "WHITE TRAPEZIUM", aliases: &[] },
        Codepoint { codepoint: 0x23E3, name: "BENZENE RING WITH CIRCLE", aliases: &[] },
        Codepoint { codepoint: 0x23E4, name: "STRAIGHTNESS", aliases: &[] },
        Codepoint { codepoint: 0x23E5, name: "FLATNESS", aliases: &[] },
        Codepoint { codepoint: 0x23E6, name: "AC CURRENT", aliases: &[] },
        Codepoint { codepoint: 0x23E7, name: "ELECTRICAL INTERSECTION", aliases: &[] },
        Codepoint { codepoint: 0x23E8, name: "DECIMAL EXPONENT SYMBOL", aliases: &[] },
        Codepoint { codepoint: 0x23E9, name: "BLACK RIGHT-POINTING DOUBLE TRIANGLE", aliases: &[] },
        Codepoint { codepoint: 0x23EA, name: "BLACK LEFT-POINTING DOUBLE TRIANGLE", aliases: &[] },
        Codepoint { codepoint: 0x23EB, name: "BLACK UP-POINTING DOUBLE TRIANGLE", aliases: &[] },
        Codepoint { codepoint: 0x23EC, name: "BLACK DOWN-POINTING DOUBLE TRIANGLE", aliases: &[] },
        Codepoint { codepoint: 0x23ED, name: "BLACK RIGHT-POINTING DOUBLE TRIANGLE WITH VERTICAL BAR", aliases: &[] },
        Codepoint { codepoint: 0x23EE, name: "BLACK LEFT-POINTING DOUBLE TRIANGLE WITH VERTICAL BAR", aliases: &[] },
        Codepoint { codepoint: 0x23EF, name: "BLACK RIGHT-POINTING TRIANGLE WITH DOUBLE VERTICAL BAR", aliases: &[] },
    ];
    assert(v@ =~= codepoint_table_207());
    v
}

pub open spec fn codepoint_table_208() -> Seq<Codepoint> {
    seq![
        Codepoint { codepoint: 0x23F0, name: "ALARM CLOCK", aliases: &[] },
        Codepoint { codepoint: 0x23F1, name: "STOPWATCH", aliases: &[] },
        Codepoint { codepoint: 0x23F2, name: "TIMER CLOCK", aliases: &[] },
        Codepoint { codepoint: 0x23F3, name: "HOURGLASS WITH FLOWING SAND", aliases: &[] },
        Codepoint { codepoint: 0x23F4, name: "BLACK MEDIUM LEFT-POINTING TRIANGLE", aliases: &[] },
        Codepoint { codepoint: 0x23F5, name: "BLACK MEDIUM RIGHT-POINTING TRIANGLE", aliases: &[] },
        Codepoint { codepoint: 0x23F6, name: "BLACK MEDIUM UP-POINTING TRIANGLE", aliases: &[] },
        Codepoint { codepoint: 0x23F7, name: "BLACK MEDIUM DOWN-POINTING TRIANGLE", aliases: &[] },
        Codepoint { codepoint: 0x23F8, name: "DOUBLE VERTICAL BAR", aliases: &[] },
        Codepoint { codepoint: 0x23F9, name: "BLACK SQUARE FOR STOP", aliases: &[] },
        Codepoint { codepoint: 0x23FA, name: "BLACK CIRCLE FOR RECORD", aliases: &[] },
        Codepoint { codepoint: 0x23FB, name: "POWER SYMBOL", aliases: &[] },
        Codepoint { codepoint: 0x23FC, name: "POWER ON-OFF SYMBOL", aliases: &[] },
        Codepoint { codepoint: 0x23FD, name: "POWER ON SYMBOL", aliases: &[] },
        Codepoint { codepoint: 0x23FE, name: "POWER SLEEP SYMBOL", aliases: &[] },
        Codepoint { codepoint: 0x23FF, name: "OBSERVER EYE SYMBOL", aliases: &[] },
        Codepoint { codepoint: 0x2400, name: "SYMBOL FOR NULL", aliases: &["GRAPHIC FOR NULL"] },
        Codepoint { codepoint: 0x2401, name: "SYMBOL FOR START OF HEADING", aliases: &["GRAPHIC FOR START OF HEADING"] },
        Codepoint { codepoint: 0x2402, name: "SYMBOL FOR START OF TEXT", aliases: &["GRAPHIC FOR START OF TEXT"] },
        Codepoint { codepoint: 0x2403, name: "SYMBOL FOR END OF TEXT", aliases: &["GRAPHIC FOR END OF TEXT"] },
        Codepoint { codepoint: 0x2404, name: "SYMBOL FOR END OF TRANSMISSION", aliases: &["GRAPHIC FOR END OF TRANSMISSION"] },
        Codepoint { codepoint: 0x2405, name: "SYMBOL FOR ENQUIRY", aliases: &["GRAPHIC FOR ENQUIRY"] },
        Codepoint { codepoint: 0x2406, name: "SYMBOL FOR ACKNOWLEDGE", aliases: &["GRAPHIC FOR ACKNOWLEDGE"] },
        Codepoint { codepoint: 0x2407, name: "SYMBOL FOR BELL", aliases: &["GRAPHIC FOR BELL"] },
        Codepoint { codepoint: 0x2408, name: "SYMBOL FOR BACKSPACE", aliases: &["GRAPHIC FOR BACKSPACE"] },
        Codepoint { codepoint: 0x2409, name: "SYMBOL FOR HORIZONTAL TABULATION", aliases: &["GRAPHIC FOR HORIZONTAL TABULATION"] },
        Codepoint { codepoint: 0x240A, name: "SYMBOL FOR LINE FEED", aliases: &["GRAPHIC FOR LINE FEED"] },
        Codepoint { codepoint: 0x240B, name: "SYMBOL FOR VERTICAL TABULATION", aliases: &["GRAPHIC FOR VERTICAL TABULATION"] },
        Codepoint { codepoint: 0x240C, name: "SYMBOL FOR FORM FEED", aliases: &["GRAPHIC FOR FORM FEED"] },
        Codepoint { codepoint: 0x240D, name: "SYMBOL FOR CARRIAGE RETURN", aliases: &["GRAPHIC FOR CARRIAGE RETURN"] },
        Codepoint { codepoint: 0x240E, name: "SYMBOL FOR SHIFT OUT", aliases: &["GRAPHIC FOR SHIFT OUT"] },
        Codepoint { codepoint: 0x240F, name: "SYMBOL FOR SHIFT IN", aliases: &["GRAPHIC FOR SHIFT IN"] },
        Codepoint { codepoint: 0x2410, name: "SYMBOL FOR DATA LINK ESCAPE", aliases: &["GRAPHIC FOR DATA LINK ESCAPE"] },
        Codepoint { codepoint: 0x2411, name: "SYMBOL FOR DEVICE CONTROL ONE", aliases: &["GRAPHIC FOR DEVICE CONTROL ONE"] },
        Codepoint { codepoint: 0x2412, name: "SYMBOL FOR DEVICE CONTROL TWO", aliases: &["GRAPHIC FOR DEVICE CONTROL TWO"] },
        Codepoint { codepoint: 0x2413, name: "SYMBOL FOR DEVICE CONTROL THREE", aliases: &["GRAPHIC FOR DEVICE CONTROL THREE"] },
        Codepoint { codepoint: 0x2414, name: "SYMBOL FOR DEVICE CONTROL FOUR", aliases: &["GRAPHIC FOR DEVICE CONTROL FOUR"] },
        Codepoint { codepoint: 0x2415, name: "SYMBOL FOR NEGATIVE ACKNOWLEDGE", aliases: &["GRAPHIC FOR NEGATIVE ACKNOWLEDGE"] },
        Codepoint { codepoint: 0x2416, name: "SYMBOL FOR SYNCHRONOUS IDLE", aliases: &["GRAPHIC FOR SYNCHRONOUS IDLE"] },
        Codepoint { codepoint: 0x2417, name: "SYMBOL FOR END OF TRANSMISSION BLOCK", aliases: &["GRAPHIC FOR END OF TRANSMISSION BLOCK"] },
    ]
}

fn all_codepoints_208() -> (v: Vec<Codepoint>)
    ensures
        v@ == codepoint_table_208(),
{
    let v = vec![
        Codepoint { codepoint: 0x23F0, name: "ALARM CLOCK", aliases: &[] },
        Codepoint { codepoint: 0x23F1, name: "STOPWATCH", aliases: &[] },
        Codepoint { codepoint: 0x23F2, name: "TIMER CLOCK", aliases: &[] },
        Codepoint { codepoint: 0x23F3, name: "HOURGLASS WITH FLOWING SAND", aliases: &[] },
        Codepoint { codepoint: 0x23F4, name: "BLACK MEDIUM LEFT-POINTING TRIANGLE", aliases: &[] },
        Codepoint { codepoint: 0x23F5, name: "BLACK MEDIUM RIGHT-POINTING TRIANGLE", aliases: &[] },
        Codepoint { codepoint: 0x23F6, name: "BLACK MEDIUM UP-POINTING TRIANGLE", aliases: &[] },
        Codepoint { codepoint: 0x23F7, name: "BLACK MEDIUM DOWN-POINTING TRIANGLE", aliases: &[] },
        Codepoint { codepoint: 0x23F8, name: "DOUBLE VERTICAL BAR", aliases: &[] },
        Codepoint { codepoint: 0x23F9, name: "BLACK SQUARE FOR STOP", aliases: &[] },
        Codepoint { codepoint: 0x23FA, name: "BLACK CIRCLE FOR RECORD", aliases: &[] },
        Codepoint { codepoint: 0x23FB, name: "POWER SYMBOL", aliases: &[] },
        Codepoint { codepoint: 0x23FC, name: "POWER ON-OFF SYMBOL", aliases: &[] },
        Codepoint { codepoint: 0x23FD, name: "POWER ON SYMBOL", aliases: &[] },
        Codepoint { codepoint: 0x23FE, name: "POWER SLEEP SYMBOL", aliases: &[] },
        Codepoint { codepoint: 0x23FF, name: "OBSERVER EYE SYMBOL", aliases: &[] },
        Codepoint { codepoint: 0x2400, name: "SYMBOL FOR NULL", aliases: &["GRAPHIC FOR NULL"] },
        Codepoint { codepoint: 0x2401, name: "SYMBOL FOR START OF HEADING", aliases: &["GRAPHIC FOR START OF HEADING"] },
        Codepoint { codepoint: 0x2402, name: "SYMBOL FOR START OF TEXT", aliases: &["GRAPHIC FOR START OF TEXT"] },
        Codepoint { codepoint: 0x2403, name: "SYMBOL FOR END OF TEXT", aliases: &["GRAPHIC FOR END OF TEXT"] },
        Codepoint { codepoint: 0x2404, name: "SYMBOL FOR END OF TRANSMISSION", aliases: &["GRAPHIC FOR END OF TRANSMISSION"] },
        Codepoint { codepoint: 0x2405, name: "SYMBOL FOR ENQUIRY", aliases: &["GRAPHIC FOR ENQUIRY"] },
        Codepoint { codepoint: 0x2406, name: "SYMBOL FOR ACKNOWLEDGE", aliases: &["GRAPHIC FOR ACKNOWLEDGE"] },
        Codepoint { codepoint: 0x2407, name: "SYMBOL FOR BELL", aliases: &["GRAPHIC FOR BELL"] },
        Codepoint { codepoint: 0x2408, name: "SYMBOL FOR BACKSPACE", aliases: &["GRAPHIC FOR BACKSPACE"] },
        Codepoint { codepoint: 0x2409, name: "SYMBOL FOR HORIZONTAL TABULATION", aliases: &["GRAPHIC FOR HORIZONTAL TABULATION"] },
        Codepoint { codepoint: 0x240A, name: "SYMBOL FOR LINE FEED", aliases: &["GRAPHIC FOR LINE FEED"] },
        Codepoint { codepoint: 0x240B, name: "SYMBOL FOR VERTICAL TABULATION", aliases: &["GRAPHIC FOR VERTICAL TABULATION"] },
        Codepoint { codepoint: 0x240C, name: "SYMBOL FOR FORM FEED", aliases: &["GRAPHIC FOR FORM FEED"] },
        Codepoint { codepoint: 0x240D, name: "SYMBOL FOR CARRIAGE RETURN", aliases: &["GRAPHIC FOR CARRIAGE RETURN"] },
        Codepoint { codepoint: 0x240E, name: "SYMBOL FOR SHIFT OUT", aliases: &["GRAPHIC FOR SHIFT OUT"] },
        Codepoint { codepoint: 0x240F, name: "SYMBOL FOR SHIFT IN", aliases: &["GRAPHIC FOR SHIFT IN"] },
        Codepoint { codepoint: 0x2410, name: "SYMBOL FOR DATA LINK ESCAPE", aliases: &["GRAPHIC FOR DATA LINK ESCAPE"] },
        Codepoint { codepoint: 0x2411, name: "SYMBOL FOR DEVICE CONTROL ONE", aliases: &["GRAPHIC FOR DEVICE CONTROL ONE"] },
        Codepoint { codepoint: 0x2412, name: "SYMBOL FOR DEVICE CONTROL TWO", aliases: &["GRAPHIC FOR DEVICE CONTROL TWO"] },
        Codepoint { codepoint: 0x2413, name: "SYMBOL FOR DEVICE CONTROL THREE", aliases: &["GRAPHIC FOR DEVICE CONTROL THREE"] },
        Codepoint { codepoint: 0x2414, name: "SYMBOL FOR DEVICE CONTROL FOUR", aliases: &["GRAPHIC FOR DEVICE CONTROL FOUR"] },
        Codepoint { codepoint: 0x2415, name: "SYMBOL FOR NEGATIVE ACKNOWLEDGE", aliases: &["GRAPHIC FOR NEGATIVE ACKNOWLEDGE"] },
        Codepoint { codepoint: 0x2416, name: "SYMBOL FOR SYNCHRONOUS IDLE", aliases: &["GRAPHIC FOR SYNCHRONOUS IDLE"] },
        Codepoint { codepoint: 0x2417, name: "SYMBOL FOR END OF TRANSMISSION BLOCK", aliases: &["GRAPHIC FOR END OF TRANSMISSION BLOCK"] },
    ];
    assert(v@ =~= codepoint_table_208());
    v
}

pub open spec fn codepoint_table_209() -> Seq<Codepoint> {
    seq![
        Codepoint { codepoint: 0x2418, name: "SYMBOL FOR CANCEL", aliases: &["GRAPHIC FOR CANCEL"] },
        Codepoint { codepoint: 0x2419, name: "SYMBOL FOR END OF MEDIUM", aliases: &["GRAPHIC FOR END OF MEDIUM"] },
        Codepoint { codepoint: 0x241A, name: "SYMBOL FOR SUBSTITUTE", aliases: &["GRAPHIC FOR SUBSTITUTE"] },
        Codepoint { codepoint: 0x241B, name: "SYMBOL FOR ESCAPE", aliases: &["GRAPHIC FOR ESCAPE"] },
        Codepoint { codepoint: 0x241C, name: "SYMBOL FOR FILE SEPARATOR", aliases: &["GRAPHIC FOR FILE SEPARATOR"] },
        Codepoint { codepoint: 0x241D, name: "SYMBOL FOR GROUP SEPARATOR", aliases: &["GRAPHIC FOR GROUP SEPARATOR"] },
        Codepoint { codepoint: 0x241E, name: "SYMBOL FOR RECORD SEPARATOR", aliases: &["GRAPHIC FOR RECORD SEPARATOR"] },
        Codepoint { codepoint: 0x241F, name: "SYMBOL FOR UNIT SEPARATOR", aliases: &["GRAPHIC FOR UNIT SEPARATOR"] },
        Codepoint { codepoint: 0x2420, name: "SYMBOL FOR SPACE", aliases: &["GRAPHIC FOR SPACE"] },
        Codepoint { codepoint: 0x2421, name: "SYMBOL FOR DELETE", aliases: &["GRAPHIC FOR DELETE"] },
        Codepoint { codepoint: 0x2422, name: "BLANK SYMBOL", aliases: &["BLANK"] },
        Codepoint { codepoint: 0x2423, name: "OPEN BOX", aliases: &[] },
        Codepoint { codepoint: 0x2424, name: "SYMBOL FOR NEWLINE", aliases: &["GRAPHIC FOR NEWLINE"] },
        Codepoint { codepoint: 0x2425, name: "SYMBOL FOR DELETE FORM TWO", aliases: &[] },
        Codepoint { codepoint: 0x2426, name: "SYMBOL FOR SUBSTITUTE FORM TWO", aliases: &[] },
        Codepoint { codepoint: 0x2440, name: "OCR HOOK", aliases: &[] },
        Codepoint { codepoint: 0x2441, name: "OCR CHAIR", aliases: &[] },
        Codepoint { codepoint: 0x2442, name: "OCR FORK", aliases: &[] },
        Codepoint { codepoint: 0x2443, name: "OCR INVERTED FORK", aliases: &[] },
        Codepoint { codepoint: 0x2444, name: "OCR BELT BUCKLE", aliases: &[] },
        Codepoint { codepoint: 0x2445, name: "OCR BOW TIE", aliases: &[] },
        Codepoint { codepoint: 0x2446, name: "OCR BRANCH BANK IDENTIFICATION", aliases: &[] },
        Codepoint { codepoint: 0x2447, name: "OCR AMOUNT OF CHECK", aliases: &[] },
        Codepoint { codepoint: 0x2448, name: "OCR DASH", aliases: &[] },
        Codepoint { codepoint: 0x2449, name: "OCR CUSTOMER ACCOUNT NUMBER", aliases: &[] },
        Codepoint { codepoint: 0x244A, name: "OCR DOUBLE BACKSLASH", aliases: &[] },
        Codepoint { codepoint: 0x2460, name: "CIRCLED DIGIT ONE", aliases: &[] },
        Codepoint { codepoint: 0x2461, name: "CIRCLED DIGIT TWO", aliases: &[] },
        Codepoint { codepoint: 0x2462, name: "CIRCLED DIGIT THREE", aliases: &[] },
        Codepoint { codepoint: 0x2463, name: "CIRCLED DIGIT FOUR", aliases: &[] },
        Codepoint { codepoint: 0x2464, name: "CIRCLED DIGIT FIVE", aliases: &[] },
        Codepoint { codepoint: 0x2465, name: "CIRCLED DIGIT SIX", aliases: &[] },
        Codepoint { codepoint: 0x2466, name: "CIRCLED DIGIT SEVEN", aliases: &[] },
        Codepoint { codepoint: 0x2467, name: "CIRCLED DIGIT EIGHT", aliases: &[] },
        Codepoint { codepoint: 0x2468, name: "CIRCLED DIGIT NINE", aliases: &[] },
        Codepoint { codepoint: 0x2469, name: "CIRCLED NUMBER TEN", aliases: &[] },
        Codepoint { codepoint: 0x246A, name: "CIRCLED NUMBER ELEVEN", aliases: &[] },
        Codepoint { codepoint: 0x246B, name: "CIRCLED NUMBER TWELVE", aliases: &[] },
        Codepoint { codepoint: 0x246C, name: "CIRCLED NUMBER THIRTEEN", aliases: &[] },
        Codepoint { codepoint: 0x246D, name: "CIRCLED NUMBER FOURTEEN", aliases: &[] },
    ]
}

fn all_codepoints_209() -> (v: Vec<Codepoint>)
    ensures
        v@ == codepoint_table_209(),
{
    let v = vec![
        Codepoint { codepoint: 0x2418, name: "SYMBOL FOR CANCEL", aliases: &["GRAPHIC FOR CANCEL"] },
        Codepoint { codepoint: 0x2419, name: "SYMBOL FOR END OF MEDIUM", aliases: &["GRAPHIC FOR END OF MEDIUM"] },
        Codepoint { codepoint: 0x241A, name: "SYMBOL FOR SUBSTITUTE", aliases: &["GRAPHIC FOR SUBSTITUTE"] },
        Codepoint { codepoint: 0x241B, name: "SYMBOL FOR ESCAPE", aliases: &["GRAPHIC FOR ESCAPE"] },
        Codepoint { codepoint: 0x241C, name: "SYMBOL FOR FILE SEPARATOR", aliases: &["GRAPHIC FOR FILE SEPARATOR"] },
        Codepoint { codepoint: 0x241D, name: "SYMBOL FOR GROUP SEPARATOR", aliases: &["GRAPHIC FOR GROUP SEPARATOR"] },
        Codepoint { codepoint: 0x241E, name: "SYMBOL FOR RECORD SEPARATOR", aliases: &["GRAPHIC FOR RECORD SEPARATOR"] },
        Codepoint { codepoint: 0x241F, name: "SYMBOL FOR UNIT SEPARATOR", aliases: &["GRAPHIC FOR UNIT SEPARATOR"] },
        Codepoint { codepoint: 0x2420, name: "SYMBOL FOR SPACE", aliases: &["GRAPHIC FOR SPACE"] },
        Codepoint { codepoint: 0x2421, name: "SYMBOL FOR DELETE", aliases: &["GRAPHIC FOR DELETE"] },
        Codepoint { codepoint: 0x2422, name: "BLANK SYMBOL", aliases: &["BLANK"] },
        Codepoint { codepoint: 0x2423, name: "OPEN BOX", aliases: &[] },
        Codepoint { codepoint: 0x2424, name: "SYMBOL FOR NEWLINE", aliases: &["GRAPHIC FOR NEWLINE"] },
        Codepoint { codepoint: 0x2425, name: "SYMBOL FOR DELETE FORM TWO", aliases: &[] },
        Codepoint { codepoint: 0x2426, name: "SYMBOL FOR SUBSTITUTE FORM TWO", aliases: &[] },
        Codepoint { codepoint: 0x2440, name: "OCR HOOK", aliases: &[] },
        Codepoint { codepoint: 0x2441, name: "OCR CHAIR", aliases: &[] },
        Codepoint { codepoint: 0x2442, name: "OCR FORK", aliases: &[] },
        Codepoint { codepoint: 0x2443, name: "OCR INVERTED FORK", aliases: &[] },
        Codepoint { codepoint: 0x2444, name: "OCR BELT BUCKLE", aliases: &[] },
        Codepoint { codepoint: 0x2445, name: "OCR BOW TIE", aliases: &[] },
        Codepoint { codepoint: 0x2446, name: "OCR BRANCH BANK IDENTIFICATION", aliases: &[] },
        Codepoint { codepoint: 0x2447, name: "OCR AMOUNT OF CHECK", aliases: &[] },
        Codepoint { codepoint: 0x2448, name: "OCR DASH", aliases: &[] },
        Codepoint { codepoint: 0x2449, name: "OCR CUSTOMER ACCOUNT NUMBER", aliases: &[] },
        Codepoint { codepoint: 0x244A, name: "OCR DOUBLE BACKSLASH", aliases: &[] },
        Codepoint { codepoint: 0x2460, name: "CIRCLED DIGIT ONE", aliases: &[] },
        Codepoint { codepoint: 0x2461, name: "CIRCLED DIGIT TWO", aliases: &[] },
        Codepoint { codepoint: 0x2462, name: "CIRCLED DIGIT THREE", aliases: &[] },
        Codepoint { codepoint: 0x2463, name: "CIRCLED DIGIT FOUR", aliases: &[] },
        Codepoint { codepoint: 0x2464, name: "CIRCLED DIGIT FIVE", aliases: &[] },
        Codepoint { codepoint: 0x2465, name: "CIRCLED DIGIT SIX", aliases: &[] },
        Codepoint { codepoint: 0x2466, name: "CIRCLED DIGIT SEVEN", aliases: &[] },
        Codepoint { codepoint: 0x2467, name: "CIRCLED DIGIT EIGHT", aliases: &[] },
        Codepoint { codepoint: 0x2468, name: "CIRCLED DIGIT NINE", aliases: &[] },
        Codepoint { codepoint: 0x2469, name: "CIRCLED NUMBER TEN", aliases: &[] },
        Codepoint { codepoint: 0x246A, name: "CIRCLED NUMBER ELEVEN", aliases: &[] },
        Codepoint { codepoint: 0x246B, name: "CIRCLED NUMBER TWELVE", aliases: &[] },
        Codepoint { codepoint: 0x246C, name: "CIRCLED NUMBER THIRTEEN", aliases: &[] },
        Codepoint { codepoint: 0x246D, name: "CIRCLED NUMBER FOURTEEN", aliases: &[] },
    ];
    assert(v@ =~= codepoint_table_209());
    v
}

pub open spec fn codepoint_table_210() -> Seq<Codepoint> {
    seq![
        Codepoint { codepoint: 0x246E, name: "CIRCLED NUMBER FIFTEEN", aliases: &[] },
        Codepoint { codepoint: 0x246F, name: "CIRCLED NUMBER SIXTEEN", aliases: &[] },
        Codepoint { codepoint: 0x2470, name: "CIRCLED NUMBER SEVENTEEN", aliases: &[] },
        Codepoint { codepoint: 0x2471, name: "CIRCLED NUMBER EIGHTEEN", aliases: &[] },
        Codepoint { codepoint: 0x2472, name: "CIRCLED NUMBER NINETEEN", aliases: &[] },
        Codepoint { codepoint: 0x2473, name: "CIRCLED NUMBER TWENTY", aliases: &[] },
        Codepoint { codepoint: 0x2474, name: "PARENTHESIZED DIGIT ONE", aliases: &[] },
        Codepoint { codepoint: 0x2475, name: "PARENTHESIZED DIGIT TWO", aliases: &[] },
        Codepoint { codepoint: 0x2476, name: "PARENTHESIZED DIGIT THREE", aliases: &[] },
        Codepoint { codepoint: 0x2477, name: "PARENTHESIZED DIGIT FOUR", aliases: &[] },
        Codepoint { codepoint: 0x2478, name: "PARENTHESIZED DIGIT FIVE", aliases: &[] },
        Codepoint { codepoint: 0x2479, name: "PARENTHESIZED DIGIT SIX", aliases: &[] },
        Codepoint { codepoint: 0x247A, name: "PARENTHESIZED DIGIT SEVEN", aliases: &[] },
        Codepoint { codepoint: 0x247B, name: "PARENTHESIZED DIGIT EIGHT", aliases: &[] },
        Codepoint { codepoint: 0x247C, name: "PARENTHESIZED DIGIT NINE", aliases: &[] },
        Codepoint { codepoint: 0x247D, name: "PARENTHESIZED NUMBER TEN", aliases: &[] },
        Codepoint { codepoint: 0x247E, name: "PARENTHESIZED NUMBER ELEVEN", aliases: &[] },
        Codepoint { codepoint: 0x247F, name: "PARENTHESIZED NUMBER TWELVE", aliases: &[] },
        Codepoint { codepoint: 0x2480, name: "PARENTHESIZED NUMBER THIRTEEN", aliases: &[] },
        Codepoint { codepoint: 0x2481, name: "PARENTHESIZED NUMBER FOURTEEN", aliases: &[] },
        Codepoint { codepoint: 0x2482, name: "PARENTHESIZED NUMBER FIFTEEN", aliases: &[] },
        Codepoint { codepoint: 0x2483, name: "PARENTHESIZED NUMBER SIXTEEN", aliases: &[] },
        Codepoint { codepoint: 0x2484, name: "PARENTHESIZED NUMBER SEVENTEEN", aliases: &[] },
        Codepoint { codepoint: 0x2485, name: "PARENTHESIZED NUMBER EIGHTEEN", aliases: &[] },
        Codepoint { codepoint: 0x2486, name: "PARENTHESIZED NUMBER NINETEEN", aliases: &[] },
        Codepoint { codepoint: 0x2487, name: "PARENTHESIZED NUMBER TWENTY", aliases: &[] },
        Codepoint { codepoint: 0x2488, name: "DIGIT ONE FULL STOP", aliases: &["DIGIT ONE PERIOD"] },
        Codepoint { codepoint: 0x2489, name: "DIGIT TWO FULL STOP", aliases: &["DIGIT TWO PERIOD"] },
        Codepoint { codepoint: 0x248A, name: "DIGIT THREE FULL STOP", aliases: &["DIGIT THREE PERIOD"] },
        Codepoint { codepoint: 0x248B, name: "DIGIT FOUR FULL STOP", aliases: &["DIGIT FOUR PERIOD"] },
        Codepoint { codepoint: 0x248C, name: "DIGIT FIVE FULL STOP", aliases: &["DIGIT FIVE PERIOD"] },
        Codepoint { codepoint: 0x248D, name: "DIGIT SIX FULL STOP", aliases: &["DIGIT SIX PERIOD"] },
        Codepoint { codepoint: 0x248E, name: "DIGIT SEVEN FULL STOP", aliases: &["DIGIT SEVEN PERIOD"] },
        Codepoint { codepoint: 0x248F, name: "DIGIT EIGHT FULL STOP", aliases: &["DIGIT EIGHT PERIOD"] },
        Codepoint { codepoint: 0x2490, name: "DIGIT NINE FULL STOP", aliases: &["DIGIT NINE PERIOD"] },
        Codepoint { codepoint: 0x2491, name: "NUMBER TEN FULL STOP", aliases: &["NUMBER TEN PERIOD"] },
        Codepoint { codepoint: 0x2492, name: "NUMBER ELEVEN FULL STOP", aliases: &["NUMBER ELEVEN PERIOD"] },
        Codepoint { codepoint: 0x2493, name: "NUMBER TWELVE FULL STOP", aliases: &["NUMBER TWELVE PERIOD"] },
        Codepoint { codepoint: 0x2494, name: "NUMBER THIRTEEN FULL STOP", aliases: &["NUMBER THIRTEEN PERIOD"] },
        Codepoint { codepoint: 0x2495, name: "NUMBER FOURTEEN FULL STOP", aliases: &["NUMBER FOURTEEN PERIOD"] },
    ]
}

fn all_codepoints_210() -> (v: Vec<Codepoint>)
    ensures
        v@ == codepoint_table_210(),
{
    let v = vec![
        Codepoint { codepoint: 0x246E, name: "CIRCLED NUMBER FIFTEEN", aliases: &[] },
        Codepoint { codepoint: 0x246F, name: "CIRCLED NUMBER SIXTEEN", aliases: &[] },
        Codepoint { codepoint: 0x2470, name: "CIRCLED NUMBER SEVENTEEN", aliases: &[] },
        Codepoint { codepoint: 0x2471, name: "CIRCLED NUMBER EIGHTEEN", aliases: &[] },
        Codepoint { codepoint: 0x2472, name: "CIRCLED NUMBER NINETEEN", aliases: &[] },
        Codepoint { codepoint: 0x2473, name: "CIRCLED NUMBER TWENTY", aliases: &[] },
        Codepoint { codepoint: 0x2474, name: "PARENTHESIZED DIGIT ONE", aliases: &[] },
        Codepoint { codepoint: 0x2475, name: "PARENTHESIZED DIGIT TWO", aliases: &[] },
        Codepoint { codepoint: 0x2476, name: "PARENTHESIZED DIGIT THREE", aliases: &[] },
        Codepoint { codepoint: 0x2477, name: "PARENTHESIZED DIGIT FOUR", aliases: &[] },
        Codepoint { codepoint: 0x2478, name: "PARENTHESIZED DIGIT FIVE", aliases: &[] },
        Codepoint { codepoint: 0x2479, name: "PARENTHESIZED DIGIT SIX", aliases: &[] },
        Codepoint { codepoint: 0x247A, name: "PARENTHESIZED DIGIT SEVEN", aliases: &[] },
        Codepoint { codepoint: 0x247B, name: "PARENTHESIZED DIGIT EIGHT", aliases: &[] },
        Codepoint { codepoint: 0x247C, name: "PARENTHESIZED DIGIT NINE", aliases: &[] },
        Codepoint { codepoint: 0x247D, name: "PARENTHESIZED NUMBER TEN", aliases: &[] },
        Codepoint { codepoint: 0x247E, name: "PARENTHESIZED NUMBER ELEVEN", aliases: &[] },
        Codepoint { codepoint: 0x247F, name: "PARENTHESIZED NUMBER TWELVE", aliases: &[] },
        Codepoint { codepoint: 0x2480, name: "PARENTHESIZED NUMBER THIRTEEN", aliases: &[] },
        Codepoint { codepoint: 0x2481, name: "PARENTHESIZED NUMBER FOURTEEN", aliases: &[] },
        Codepoint { codepoint: 0x2482, name: "PARENTHESIZED NUMBER FIFTEEN", aliases: &[] },
        Codepoint { codepoint: 0x2483, name: "PARENTHESIZED NUMBER SIXTEEN", aliases: &[] },
        Codepoint { codepoint: 0x2484, name: "PARENTHESIZED NUMBER SEVENTEEN", aliases: &[] },
        Codepoint { codepoint: 0x2485, name: "PARENTHESIZED NUMBER EIGHTEEN", aliases: &[] },
        Codepoint { codepoint: 0x2486, name: "PARENTHESIZED NUMBER NINETEEN", aliases: &[] },
        Codepoint { codepoint: 0x2487, name: "PARENTHESIZED NUMBER TWENTY", aliases: &[] },
        Codepoint { codepoint: 0x2488, name: "DIGIT ONE FULL STOP", aliases: &["DIGIT ONE PERIOD"] },
        Codepoint { codepoint: 0x2489, name: "DIGIT TWO FULL STOP", aliases: &["DIGIT TWO PERIOD"] },
        Codepoint { codepoint: 0x248A, name: "DIGIT THREE FULL STOP", aliases: &["DIGIT THREE PERIOD"] },
        Codepoint { codepoint: 0x248B, name: "DIGIT FOUR FULL STOP", aliases: &["DIGIT FOUR PERIOD"] },
        Codepoint { codepoint: 0x248C, name: "DIGIT FIVE FULL STOP", aliases: &["DIGIT FIVE PERIOD"] },
        Codepoint { codepoint: 0x248D, name: "DIGIT SIX FULL STOP", aliases: &["DIGIT SIX PERIOD"] },
        Codepoint { codepoint: 0x248E, name: "DIGIT SEVEN FULL STOP", aliases: &["DIGIT SEVEN PERIOD"] },
        Codepoint { codepoint: 0x248F, name: "DIGIT EIGHT FULL STOP", aliases: &["DIGIT EIGHT PERIOD"] },
        Codepoint { codepoint: 0x2490, name: "DIGIT NINE FULL STOP", aliases: &["DIGIT NINE PERIOD"] },
        Codepoint { codepoint: 0x2491, name: "NUMBER TEN FULL STOP", aliases: &["NUMBER TEN PERIOD"] },
        Codepoint { codepoint: 0x2492, name: "NUMBER ELEVEN FULL STOP", aliases: &["NUMBER ELEVEN PERIOD"] },
        Codepoint { codepoint: 0x2493, name: "NUMBER TWELVE FULL STOP", aliases: &["NUMBER TWELVE PERIOD"] },
        Codepoint { codepoint: 0x2494, name: "NUMBER THIRTEEN FULL STOP", aliases: &["NUMBER THIRTEEN PERIOD"] },
        Codepoint { codepoint: 0x2495, name: "NUMBER FOURTEEN FULL STOP", aliases: &["NUMBER FOURTEEN PERIOD"] },
    ];
    assert(v@ =~= codepoint_table_210());
    v
}

pub open spec fn codepoint_table_211() -> Seq<Codepoint> {
    seq![
        Codepoint { codepoint: 0x2496, name: "NUMBER FIFTEEN FULL STOP", aliases: &["NUMBER FIFTEEN PERIOD"] },
        Codepoint { codepoint: 0x2497, name: "NUMBER SIXTEEN FULL STOP", aliases: &["NUMBER SIXTEEN PERIOD"] },
        Codepoint { codepoint: 0x2498, name: "NUMBER SEVENTEEN FULL STOP", aliases: &["NUMBER SEVENTEEN PERIOD"] },
        Codepoint { codepoint: 0x2499, name: "NUMBER EIGHTEEN FULL STOP", aliases: &["NUMBER EIGHTEEN PERIOD"] },
        Codepoint { codepoint: 0x249A, name: "NUMBER NINETEEN FULL STOP", aliases: &["NUMBER NINETEEN PERIOD"] },
        Codepoint { codepoint: 0x249B, name: "NUMBER TWENTY FULL STOP", aliases: &["NUMBER TWENTY PERIOD"] },
        Codepoint { codepoint: 0x249C, name: "PARENTHESIZED LATIN SMALL LETTER A", aliases: &[] },
        Codepoint { codepoint: 0x249D, name: "PARENTHESIZED LATIN SMALL LETTER B", aliases: &[] },
        Codepoint { codepoint: 0x249E, name: "PARENTHESIZED LATIN SMALL LETTER C", aliases: &[] },
        Codepoint { codepoint: 0x249F, name: "PARENTHESIZED LATIN SMALL LETTER D", aliases: &[] },
        Codepoint { codepoint: 0x24A0, name: "PARENTHESIZED LATIN SMALL LETTER E", aliases: &[] },
        Codepoint { codepoint: 0x24A1, name: "PARENTHESIZED LATIN SMALL LETTER F", aliases: &[] },
        Codepoint { codepoint: 0x24A2, name: "PARENTHESIZED LATIN SMALL LETTER G", aliases: &[] },
        Codepoint { codepoint: 0x24A3, name: "PARENTHESIZED LATIN SMALL LETTER H", aliases: &[] },
        Codepoint { codepoint: 0x24A4, name: "PARENTHESIZED LATIN SMALL LETTER I", aliases: &[] },
        Codepoint { codepoint: 0x24A5, name: "PARENTHESIZED LATIN SMALL LETTER J", aliases: &[] },
        Codepoint { codepoint: 0x24A6, name: "PARENTHESIZED LATIN SMALL LETTER K", aliases: &[] },
        Codepoint { codepoint: 0x24A7, name: "PARENTHESIZED LATIN SMALL LETTER L", aliases: &[] },
        Codepoint { codepoint: 0x24A8, name: "PARENTHESIZED LATIN SMALL LETTER M", aliases: &[] },
        Codepoint { codepoint: 0x24A9, name: "PARENTHESIZED LATIN SMALL LETTER N", aliases: &[] },
        Codepoint { codepoint: 0x24AA, name: "PARENTHESIZED LATIN SMALL LETTER O", aliases: &[] },
        Codepoint { codepoint: 0x24AB, name: "PARENTHESIZED LATIN SMALL LETTER P", aliases: &[] },
        Codepoint { codepoint: 0x24AC, name: "PARENTHESIZED LATIN SMALL LETTER Q", aliases: &[] },
        Codepoint { codepoint: 0x24AD, name: "PARENTHESIZED LATIN SMALL LETTER R", aliases: &[] },
        Codepoint { codepoint: 0x24AE, name: "PARENTHESIZED LATIN SMALL LETTER S", aliases: &[] },
        Codepoint { codepoint: 0x24AF, name: "PARENTHESIZED LATIN SMALL LETTER T", aliases: &[] },
        Codepoint { codepoint: 0x24B0, name: "PARENTHESIZED LATIN SMALL LETTER U", aliases: &[] },
        Codepoint { codepoint: 0x24B1, name: "PARENTHESIZED LATIN SMALL LETTER V", aliases: &[] },
        Codepoint { codepoint: 0x24B2, name: "PARENTHESIZED LATIN SMALL LETTER W", aliases: &[] },
        Codepoint { codepoint: 0x24B3, name: "PARENTHESIZED LATIN SMALL LETTER X", aliases: &[] },
        Codepoint { codepoint: 0x24B4, name: "PARENTHESIZED LATIN SMALL LETTER Y", aliases: &[] },
        Codepoint { codepoint: 0x24B5, name: "PARENTHESIZED LATIN SMALL LETTER Z", aliases: &[] },
        Codepoint { codepoint: 0x24B6, name: "CIRCLED LATIN CAPITAL LETTER A", aliases: &[] },
        Codepoint { codepoint: 0x24B7, name: "CIRCLED LATIN CAPITAL LETTER B", aliases: &[] },
        Codepoint { codepoint: 0x24B8, name: "CIRCLED LATIN CAPITAL LETTER C", aliases: &[] },
        Codepoint { codepoint: 0x24B9, name: "CIRCLED LATIN CAPITAL LETTER D", aliases: &[] },
        Codepoint { codepoint: 0x24BA, name: "CIRCLED LATIN CAPITAL LETTER E", aliases: &[] },
        Codepoint { codepoint: 0x24BB, name: "CIRCLED LATIN CAPITAL LETTER F", aliases: &[] },
        Codepoint { codepoint: 0x24BC, name: "CIRCLED LATIN CAPITAL LETTER G", aliases: &[] },
        Codepoint { codepoint: 0x24BD, name: "CIRCLED LATIN CAPITAL LETTER H", aliases: &[] },
    ]
}

fn all_codepoints_211() -> (v: Vec<Codepoint>)
    ensures
        v@ == codepoint_table_211(),
{
    let v = vec![
        Codepoint { codepoint: 0x2496, name: "NUMBER FIFTEEN FULL STOP", aliases: &["NUMBER FIFTEEN PERIOD"] },
        Codepoint { codepoint: 0x2497, name: "NUMBER SIXTEEN FULL STOP", aliases: &["NUMBER SIXTEEN PERIOD"] },
        Codepoint { codepoint: 0x2498, name: "NUMBER SEVENTEEN FULL STOP", aliases: &["NUMBER SEVENTEEN PERIOD"] },
        Codepoint { codepoint: 0x2499, name: "NUMBER EIGHTEEN FULL STOP", aliases: &["NUMBER EIGHTEEN PERIOD"] },
        Codepoint { codepoint: 0x249A, name: "NUMBER NINETEEN FULL STOP", aliases: &["NUMBER NINETEEN PERIOD"] },
        Codepoint { codepoint: 0x249B, name: "NUMBER TWENTY FULL STOP", aliases: &["NUMBER TWENTY PERIOD"] },
        Codepoint { codepoint: 0x249C, name: "PARENTHESIZED LATIN SMALL LETTER A", aliases: &[] },
        Codepoint { codepoint: 0x249D, name: "PARENTHESIZED LATIN SMALL LETTER B", aliases: &[] },
        Codepoint { codepoint: 0x249E, name: "PARENTHESIZED LATIN SMALL LETTER C", aliases: &[] },
        Codepoint { codepoint: 0x249F, name: "PARENTHESIZED LATIN SMALL LETTER D", aliases: &[] },
        Codepoint { codepoint: 0x24A0, name: "PARENTHESIZED LATIN SMALL LETTER E", aliases: &[] },
        Codepoint { codepoint: 0x24A1, name: "PARENTHESIZED LATIN SMALL LETTER F", aliases: &[] },
        Codepoint { codepoint: 0x24A2, name: "PARENTHESIZED LATIN SMALL LETTER G", aliases: &[] },
        Codepoint { codepoint: 0x24A3, name: "PARENTHESIZED LATIN SMALL LETTER H", aliases: &[] },
        Codepoint { codepoint: 0x24A4, name: "PARENTHESIZED LATIN SMALL LETTER I", aliases: &[] },
        Codepoint { codepoint: 0x24A5, name: "PARENTHESIZED LATIN SMALL LETTER J", aliases: &[] },
        Codepoint { codepoint: 0x24A6, name: "PARENTHESIZED LATIN SMALL LETTER K", aliases: &[] },
        Codepoint { codepoint: 0x24A7, name: "PARENTHESIZED LATIN SMALL LETTER L", aliases: &[] },
        Codepoint { codepoint: 0x24A8, name: "PARENTHESIZED LATIN SMALL LETTER M", aliases: &[] },
        Codepoint { codepoint: 0x24A9, name: "PARENTHESIZED LATIN SMALL LETTER N", aliases: &[] },
        Codepoint { codepoint: 0x24AA, name: "PARENTHESIZED LATIN SMALL LETTER O", aliases: &[] },
        Codepoint { codepoint: 0x24AB, name: "PARENTHESIZED LATIN SMALL LETTER P", aliases: &[] },
        Codepoint { codepoint: 0x24AC, name: "PARENTHESIZED LATIN SMALL LETTER Q", aliases: &[] },
        Codepoint { codepoint: 0x24AD, name: "PARENTHESIZED LATIN SMALL LETTER R", aliases: &[] },
        Codepoint { codepoint: 0x24AE, name: "PARENTHESIZED LATIN SMALL LETTER S", aliases: &[] },
        Codepoint { codepoint: 0x24AF, name: "PARENTHESIZED LATIN SMALL LETTER T", aliases: &[] },
        Codepoint { codepoint: 0x24B0, name: "PARENTHESIZED LATIN SMALL LETTER U", aliases: &[] },
        Codepoint { codepoint: 0x24B1, name: "PARENTHESIZED LATIN SMALL LETTER V", aliases: &[] },
        Codepoint { codepoint: 0x24B2, name: "PARENTHESIZED LATIN SMALL LETTER W", aliases: &[] },
        Codepoint { codepoint: 0x24B3, name: "PARENTHESIZED LATIN SMALL LETTER X", aliases: &[] },
        Codepoint { codepoint: 0x24B4, name: "PARENTHESIZED LATIN SMALL LETTER Y", aliases: &[] },
        Codepoint { codepoint: 0x24B5, name: "PARENTHESIZED LATIN SMALL LETTER Z", aliases: &[] },
        Codepoint { codepoint: 0x24B6, name: "CIRCLED LATIN CAPITAL LETTER A", aliases: &[] },
        Codepoint { codepoint: 0x24B7, name: "CIRCLED LATIN CAPITAL LETTER B", aliases: &[] },
        Codepoint { codepoint: 0x24B8, name: "CIRCLED LATIN CAPITAL LETTER C", aliases: &[] },
        Codepoint { codepoint: 0x24B9, name: "CIRCLED LATIN CAPITAL LETTER D", aliases: &[] },
        Codepoint { codepoint: 0x24BA, name: "CIRCLED LATIN CAPITAL LETTER E", aliases: &[] },
        Codepoint { codepoint: 0x24BB, name: "CIRCLED LATIN CAPITAL LETTER F", aliases: &[] },
        Codepoint { codepoint: 0x24BC, name: "CIRCLED LATIN CAPITAL LETTER G", aliases: &[] },
        Codepoint { codepoint: 0x24BD, name: "CIRCLED LATIN CAPITAL LETTER H", aliases: &[] },
    ];
    assert(v@ =~= codepoint_table_211());
    v
}

pub open spec fn codepoint_table_212() -> Seq<Codepoint> {
    seq![
        Codepoint { codepoint: 0x24BE, name: "CIRCLED LATIN CAPITAL LETTER I", aliases: &[] },
        Codepoint { codepoint: 0x24BF, name: "CIRCLED LATIN CAPITAL LETTER J", aliases: &[] },
        Codepoint { codepoint: 0x24C0, name: "CIRCLED LATIN CAPITAL LETTER K", aliases: &[] },
        Codepoint { codepoint: 0x24C1, name: "CIRCLED LATIN CAPITAL LETTER L", aliases: &[] },
        Codepoint { codepoint: 0x24C2, name: "CIRCLED LATIN CAPITAL LETTER M", aliases: &[] },
        Codepoint { codepoint: 0x24C3, name: "CIRCLED LATIN CAPITAL LETTER N", aliases: &[] },
        Codepoint { codepoint: 0x24C4, name: "CIRCLED LATIN CAPITAL LETTER O", aliases: &[] },
        Codepoint { codepoint: 0x24C5, name: "CIRCLED LATIN CAPITAL LETTER P", aliases: &[] },
        Codepoint { codepoint: 0x24C6, name: "CIRCLED LATIN CAPITAL LETTER Q", aliases: &[] },
        Codepoint { codepoint: 0x24C7, name: "CIRCLED LATIN CAPITAL LETTER R", aliases: &[] },
        Codepoint { codepoint: 0x24C8, name: "CIRCLED LATIN CAPITAL LETTER S", aliases: &[] },
        Codepoint { codepoint: 0x24C9, name: "CIRCLED LATIN CAPITAL LETTER T", aliases: &[] },
        Codepoint { codepoint: 0x24CA, name: "CIRCLED LATIN CAPITAL LETTER U", aliases: &[] },
        Codepoint { codepoint: 0x24CB, name: "CIRCLED LATIN CAPITAL LETTER V", aliases: &[] },
        Codepoint { codepoint: 0x24CC, name: "CIRCLED LATIN CAPITAL LETTER W", aliases: &[] },
        Codepoint { codepoint: 0x24CD, name: "CIRCLED LATIN CAPITAL LETTER X", aliases: &[] },
        Codepoint { codepoint: 0x24CE, name: "CIRCLED LATIN CAPITAL LETTER Y", aliases: &[] },
        Codepoint { codepoint: 0x24CF, name: "CIRCLED LATIN CAPITAL LETTER Z", aliases: &[] },
        Codepoint { codepoint: 0x24D0, name: "CIRCLED LATIN SMALL LETTER A", aliases: &[] },
        Codepoint { codepoint: 0x24D1, name: "CIRCLED LATIN SMALL LETTER B", aliases: &[] },
        Codepoint { codepoint: 0x24D2, name: "CIRCLED LATIN SMALL LETTER C", aliases: &[] },
        Codepoint { codepoint: 0x24D3, name: "CIRCLED LATIN SMALL LETTER D", aliases: &[] },
        Codepoint { codepoint: 0x24D4, name: "CIRCLED LATIN SMALL LETTER E", aliases: &[] },
        Codepoint { codepoint: 0x24D5, name: "CIRCLED LATIN SMALL LETTER F", aliases: &[] },
        Codepoint { codepoint: 0x24D6, name: "CIRCLED LATIN SMALL LETTER G", aliases: &[] },
        Codepoint { codepoint: 0x24D7, name: "CIRCLED LATIN SMALL LETTER H", aliases: &[] },
        Codepoint { codepoint: 0x24D8, name: "CIRCLED LATIN SMALL LETTER I", aliases: &[] },
        Codepoint { codepoint: 0x24D9, name: "CIRCLED LATIN SMALL LETTER J", aliases: &[] },
        Codepoint { codepoint: 0x24DA, name: "CIRCLED LATIN SMALL LETTER K", aliases: &[] },
        Codepoint { codepoint: 0x24DB, name: "CIRCLED LATIN SMALL LETTER L", aliases: &[] },
        Codepoint { codepoint: 0x24DC, name: "CIRCLED LATIN SMALL LETTER M", aliases: &[] },
        Codepoint { codepoint: 0x24DD, name: "CIRCLED LATIN SMALL LETTER N", aliases: &[] },
        Codepoint { codepoint: 0x24DE, name: "CIRCLED LATIN SMALL LETTER O", aliases: &[] },
        Codepoint { codepoint: 0x24DF, name: "CIRCLED LATIN SMALL LETTER P", aliases: &[] },
        Codepoint { codepoint: 0x24E0, name: "CIRCLED LATIN SMALL LETTER Q", aliases: &[] },
        Codepoint { codepoint: 0x24E1, name: "CIRCLED LATIN SMALL LETTER R", aliases: &[] },
        Codepoint { codepoint: 0x24E2, name: "CIRCLED LATIN SMALL LETTER S", aliases: &[] },
        Codepoint { codepoint: 0x24E3, name: "CIRCLED LATIN SMALL LETTER T", aliases: &[] },
        Codepoint { codepoint: 0x24E4, name: "CIRCLED LATIN SMALL LETTER U", aliases: &[] },
        Codepoint { codepoint: 0x24E5, name: "CIRCLED LATIN SMALL LETTER V", aliases: &[] },
    ]
}

fn all_codepoints_212() -> (v: Vec<Codepoint>)
    ensures
        v@ == codepoint_table_212(),
{
    let v = vec![
        Codepoint { codepoint: 0x24BE, name: "CIRCLED LATIN CAPITAL LETTER I", aliases: &[] },
        Codepoint { codepoint: 0x24BF, name: "CIRCLED LATIN CAPITAL LETTER J", aliases: &[] },
        Codepoint { codepoint: 0x24C0, name: "CIRCLED LATIN CAPITAL LETTER K", aliases: &[] },
        Codepoint { codepoint: 0x24C1, name: "CIRCLED LATIN CAPITAL LETTER L", aliases: &[] },
        Codepoint { codepoint: 0x24C2, name: "CIRCLED LATIN CAPITAL LETTER M", aliases: &[] },
        Codepoint { codepoint: 0x24C3, name: "CIRCLED LATIN CAPITAL LETTER N", aliases: &[] },
        Codepoint { codepoint: 0x24C4, name: "CIRCLED LATIN CAPITAL LETTER O", aliases: &[] },
        Codepoint { codepoint: 0x24C5, name: "CIRCLED LATIN CAPITAL LETTER P", aliases: &[] },
        Codepoint { codepoint: 0x24C6, name: "CIRCLED LATIN CAPITAL LETTER Q", aliases: &[] },
        Codepoint { codepoint: 0x24C7, name: "CIRCLED LATIN CAPITAL LETTER R", aliases: &[] },
        Codepoint { codepoint: 0x24C8, name: "CIRCLED LATIN CAPITAL LETTER S", aliases: &[] },
        Codepoint { codepoint: 0x24C9, name: "CIRCLED LATIN CAPITAL LETTER T", aliases: &[] },
        Codepoint { codepoint: 0x24CA, name: "CIRCLED LATIN CAPITAL LETTER U", aliases: &[] },
        Codepoint { codepoint: 0x24CB, name: "CIRCLED LATIN CAPITAL LETTER V", aliases: &[] },
        Codepoint { codepoint: 0x24CC, name: "CIRCLED LATIN CAPITAL LETTER W", aliases: &[] },
        Codepoint { codepoint: 0x24CD, name: "CIRCLED LATIN CAPITAL LETTER X", aliases: &[] },
        Codepoint { codepoint: 0x24CE, name: "CIRCLED LATIN CAPITAL LETTER Y", aliases: &[] },
        Codepoint { codepoint: 0x24CF, name: "CIRCLED LATIN CAPITAL LETTER Z", aliases: &[] },
        Codepoint { codepoint: 0x24D0, name: "CIRCLED LATIN SMALL LETTER A", aliases: &[] },
        Codepoint { codepoint: 0x24D1, name: "CIRCLED LATIN SMALL LETTER B", aliases: &[] },
        Codepoint { codepoint: 0x24D2, name: "CIRCLED LATIN SMALL LETTER C", aliases: &[] },
        Codepoint { codepoint: 0x24D3, name: "CIRCLED LATIN SMALL LETTER D", aliases: &[] },
        Codepoint { codepoint: 0x24D4, name: "CIRCLED LATIN SMALL LETTER E", aliases: &[] },
        Codepoint { codepoint: 0x24D5, name: "CIRCLED LATIN SMALL LETTER F", aliases: &[] },
        Codepoint { codepoint: 0x24D6, name: "CIRCLED LATIN SMALL LETTER G", aliases: &[] },
        Codepoint { codepoint: 0x24D7, name: "CIRCLED LATIN SMALL LETTER H", aliases: &[] },
        Codepoint { codepoint: 0x24D8, name: "CIRCLED LATIN SMALL LETTER I", aliases: &[] },
        Codepoint { codepoint: 0x24D9, name: "CIRCLED LATIN SMALL LETTER J", aliases: &[] },
        Codepoint { codepoint: 0x24DA, name: "CIRCLED LATIN SMALL LETTER K", aliases: &[] },
        Codepoint { codepoint: 0x24DB, name: "CIRCLED LATIN SMALL LETTER L", aliases: &[] },
        Codepoint { codepoint: 0x24DC, name: "CIRCLED LATIN SMALL LETTER M", aliases: &[] },
        Codepoint { codepoint: 0x24DD, name: "CIRCLED LATIN SMALL LETTER N", aliases: &[] },
        Codepoint { codepoint: 0x24DE, name: "CIRCLED LATIN SMALL LETTER O", aliases: &[] },
        Codepoint { codepoint: 0x24DF, name: "CIRCLED LATIN SMALL LETTER P", aliases: &[] },
        Codepoint { codepoint: 0x24E0, name: "CIRCLED LATIN SMALL LETTER Q", aliases: &[] },
        Codepoint { codepoint: 0x24E1, name: "CIRCLED LATIN SMALL LETTER R", aliases: &[] },
        Codepoint { codepoint: 0x24E2, name: "CIRCLED LATIN SMALL LETTER S", aliases: &[] },
        Codepoint { codepoint: 0x24E3, name: "CIRCLED LATIN SMALL LETTER T", aliases: &[] },
        Codepoint { codepoint: 0x24E4, name: "CIRCLED LATIN SMALL LETTER U", aliases: &[] },
        Codepoint { codepoint: 0x24E5, name: "CIRCLED LATIN SMALL LETTER V", aliases: &[] },
    ];
    assert(v@ =~= codepoint_table_212());
    v
}

pub open spec fn codepoint_table_213() -> Seq<Codepoint> {
    seq![
        Codepoint { codepoint: 0x24E6, name: "CIRCLED LATIN SMALL LETTER W", aliases: &[] },
        Codepoint { codepoint: 0x24E7, name: "CIRCLED LATIN SMALL LETTER X", aliases: &[] },
        Codepoint { codepoint: 0x24E8, name: "CIRCLED LATIN SMALL LETTER Y", aliases: &[] },
        Codepoint { codepoint: 0x24E9, name: "CIRCLED LATIN SMALL LETTER Z", aliases: &[] },
        Codepoint { codepoint: 0x24EA, name: "CIRCLED DIGIT ZERO", aliases: &[] },
        Codepoint { codepoint: 0x24EB, name: "NEGATIVE CIRCLED NUMBER ELEVEN", aliases: &[] },
        Codepoint { codepoint: 0x24EC, name: "NEGATIVE CIRCLED NUMBER TWELVE", aliases: &[] },
        Codepoint { codepoint: 0x24ED, name: "NEGATIVE CIRCLED NUMBER THIRTEEN", aliases: &[] },
        Codepoint { codepoint: 0x24EE, name: "NEGATIVE CIRCLED NUMBER FOURTEEN", aliases: &[] },
        Codepoint { codepoint: 0x24EF, name: "NEGATIVE CIRCLED NUMBER FIFTEEN", aliases: &[] },
        Codepoint { codepoint: 0x24F0, name: "NEGATIVE CIRCLED NUMBER SIXTEEN", aliases: &[] },
        Codepoint { codepoint: 0x24F1, name: "NEGATIVE CIRCLED NUMBER SEVENTEEN", aliases: &[] },
        Codepoint { codepoint: 0x24F2, name: "NEGATIVE CIRCLED NUMBER EIGHTEEN", aliases: &[] },
        Codepoint { codepoint: 0x24F3, name: "NEGATIVE CIRCLED NUMBER NINETEEN", aliases: &[] },
        Codepoint { codepoint: 0x24F4, name: "NEGATIVE CIRCLED NUMBER TWENTY", aliases: &[] },
        Codepoint { codepoint: 0x24F5, name: "DOUBLE CIRCLED DIGIT ONE", aliases: &[] },
        Codepoint { codepoint: 0x24F6, name: "DOUBLE CIRCLED DIGIT TWO", aliases: &[] },
        Codepoint { codepoint: 0x24F7, name: "DOUBLE CIRCLED DIGIT THREE", aliases: &[] },
        Codepoint { codepoint: 0x24F8, name: "DOUBLE CIRCLED DIGIT FOUR", aliases: &[] },
        Codepoint { codepoint: 0x24F9, name: "DOUBLE CIRCLED DIGIT FIVE", aliases: &[] },
        Codepoint { codepoint: 0x24FA, name: "DOUBLE CIRCLED DIGIT SIX", aliases: &[] },
        Codepoint { codepoint: 0x24FB, name: "DOUBLE CIRCLED DIGIT SEVEN", aliases: &[] },
        Codepoint { codepoint: 0x24FC, name: "DOUBLE CIRCLED DIGIT EIGHT", aliases: &[] },
        Codepoint { codepoint: 0x24FD, name: "DOUBLE CIRCLED DIGIT NINE", aliases: &[] },
        Codepoint { codepoint: 0x24FE, name: "DOUBLE CIRCLED NUMBER TEN", aliases: &[] },
        Codepoint { codepoint: 0x24FF, name: "NEGATIVE CIRCLED DIGIT ZERO", aliases: &[] },
        Codepoint { codepoint: 0x2500, name: "BOX DRAWINGS LIGHT HORIZONTAL", aliases: &["FORMS LIGHT HORIZONTAL"] },
        Codepoint { codepoint: 0x2501, name: "BOX DRAWINGS HEAVY HORIZONTAL", aliases: &["FORMS HEAVY HORIZONTAL"] },
        Codepoint { codepoint: 0x2502, name: "BOX DRAWINGS LIGHT VERTICAL", aliases: &["FORMS LIGHT VERTICAL"] },
        Codepoint { codepoint: 0x2503, name: "BOX DRAWINGS HEAVY VERTICAL", aliases: &["FORMS HEAVY VERTICAL"] },
        Codepoint { codepoint: 0x2504, name: "BOX DRAWINGS LIGHT TRIPLE DASH HORIZONTAL", aliases: &["FORMS LIGHT TRIPLE DASH HORIZONTAL"] },
        Codepoint { codepoint: 0x2505, name: "BOX DRAWINGS HEAVY TRIPLE DASH HORIZONTAL", aliases: &["FORMS HEAVY TRIPLE DASH HORIZONTAL"] },
        Codepoint { codepoint: 0x2506, name: "BOX DRAWINGS LIGHT TRIPLE DASH VERTICAL", aliases: &["FORMS LIGHT TRIPLE DASH VERTICAL"] },
        Codepoint { codepoint: 0x2507, name: "BOX DRAWINGS HEAVY TRIPLE DASH VERTICAL", aliases: &["FORMS HEAVY TRIPLE DASH VERTICAL"] },
        Codepoint { codepoint: 0x2508, name: "BOX DRAWINGS LIGHT QUADRUPLE DASH HORIZONTAL", aliases: &["FORMS LIGHT QUADRUPLE DASH HORIZONTAL"] },
        Codepoint { codepoint: 0x2509, name: "BOX DRAWINGS HEAVY QUADRUPLE DASH HORIZONTAL", aliases: &["FORMS HEAVY QUADRUPLE DASH HORIZONTAL"] },
        Codepoint { codepoint: 0x250A, name: "BOX DRAWINGS LIGHT QUADRUPLE DASH VERTICAL", aliases: &["FORMS LIGHT QUADRUPLE DASH VERTICAL"] },
        Codepoint { codepoint: 0x250B, name: "BOX DRAWINGS HEAVY QUADRUPLE DASH VERTICAL", aliases: &["FORMS HEAVY QUADRUPLE DASH VERTICAL"] },
        Codepoint { codepoint: 0x250C, name: "BOX DRAWINGS LIGHT DOWN AND RIGHT", aliases: &["FORMS LIGHT DOWN AND RIGHT"] },
        Codepoint { codepoint: 0x250D, name: "BOX DRAWINGS DOWN LIGHT AND RIGHT HEAVY", aliases: &["FORMS DOWN LIGHT AND RIGHT HEAVY"] },
    ]
}

fn all_codepoints_213() -> (v: Vec<Codepoint>)
    ensures
        v@ == codepoint_table_213(),
{
    let v = vec![
        Codepoint { codepoint: 0x24E6, name: "CIRCLED LATIN SMALL LETTER W", aliases: &[] },
        Codepoint { codepoint: 0x24E7, name: "CIRCLED LATIN SMALL LETTER X", aliases: &[] },
        Codepoint { codepoint: 0x24E8, name: "CIRCLED LATIN SMALL LETTER Y", aliases: &[] },
        Codepoint { codepoint: 0x24E9, name: "CIRCLED LATIN SMALL LETTER Z", aliases: &[] },
        Codepoint { codepoint: 0x24EA, name: "CIRCLED DIGIT ZERO", aliases: &[] },
        Codepoint { codepoint: 0x24EB, name: "NEGATIVE CIRCLED NUMBER ELEVEN", aliases: &[] },
        Codepoint { codepoint: 0x24EC, name: "NEGATIVE CIRCLED NUMBER TWELVE", aliases: &[] },
        Codepoint { codepoint: 0x24ED, name: "NEGATIVE CIRCLED NUMBER THIRTEEN", aliases: &[] },
        Codepoint { codepoint: 0x24EE, name: "NEGATIVE CIRCLED NUMBER FOURTEEN", aliases: &[] },
        Codepoint { codepoint: 0x24EF, name: "NEGATIVE CIRCLED NUMBER FIFTEEN", aliases: &[] },
        Codepoint { codepoint: 0x24F0, name: "NEGATIVE CIRCLED NUMBER SIXTEEN", aliases: &[] },
        Codepoint { codepoint: 0x24F1, name: "NEGATIVE CIRCLED NUMBER SEVENTEEN", aliases: &[] },
        Codepoint { codepoint: 0x24F2, name: "NEGATIVE CIRCLED NUMBER EIGHTEEN", aliases: &[] },
        Codepoint { codepoint: 0x24F3, name: "NEGATIVE CIRCLED NUMBER NINETEEN", aliases: &[] },
        Codepoint { codepoint: 0x24F4, name: "NEGATIVE CIRCLED NUMBER TWENTY", aliases: &[] },
        Codepoint { codepoint: 0x24F5, name: "DOUBLE CIRCLED DIGIT ONE", aliases: &[] },
        Codepoint { codepoint: 0x24F6, name: "DOUBLE CIRCLED DIGIT TWO", aliases: &[] },
        Codepoint { codepoint: 0x24F7, name: "DOUBLE CIRCLED DIGIT THREE", aliases: &[] },
        Codepoint { codepoint: 0x24F8, name: "DOUBLE CIRCLED DIGIT FOUR", aliases: &[] },
        Codepoint { codepoint: 0x24F9, name: "DOUBLE CIRCLED DIGIT FIVE", aliases: &[] },
        Codepoint { codepoint: 0x24FA, name: "DOUBLE CIRCLED DIGIT SIX", aliases: &[] },
        Codepoint { codepoint: 0x24FB, name: "DOUBLE CIRCLED DIGIT SEVEN", aliases: &[] },
        Codepoint { codepoint: 0x24FC, name: "DOUBLE CIRCLED DIGIT EIGHT", aliases: &[] },
        Codepoint { codepoint: 0x24FD, name: "DOUBLE CIRCLED DIGIT NINE", aliases: &[] },
        Codepoint { codepoint: 0x24FE, name: "DOUBLE CIRCLED NUMBER TEN", aliases: &[] },
        Codepoint { codepoint: 0x24FF, name: "NEGATIVE CIRCLED DIGIT ZERO", aliases: &[] },
        Codepoint { codepoint: 0x2500, name: "BOX DRAWINGS LIGHT HORIZONTAL", aliases: &["FORMS LIGHT HORIZONTAL"] },
        Codepoint { codepoint: 0x2501, name: "BOX DRAWINGS HEAVY HORIZONTAL", aliases: &["FORMS HEAVY HORIZONTAL"] },
        Codepoint { codepoint: 0x2502, name: "BOX DRAWINGS LIGHT VERTICAL", aliases: &["FORMS LIGHT VERTICAL"] },
        Codepoint { codepoint: 0x2503, name: "BOX DRAWINGS HEAVY VERTICAL", aliases: &["FORMS HEAVY VERTICAL"] },
        Codepoint { codepoint: 0x2504, name: "BOX DRAWINGS LIGHT TRIPLE DASH HORIZONTAL", aliases: &["FORMS LIGHT TRIPLE DASH HORIZONTAL"] },
        Codepoint { codepoint: 0x2505, name: "BOX DRAWINGS HEAVY TRIPLE DASH HORIZONTAL", aliases: &["FORMS HEAVY TRIPLE DASH HORIZONTAL"] },
        Codepoint { codepoint: 0x2506, name: "BOX DRAWINGS LIGHT TRIPLE DASH VERTICAL", aliases: &["FORMS LIGHT TRIPLE DASH VERTICAL"] },
        Codepoint { codepoint: 0x2507, name: "BOX DRAWINGS HEAVY TRIPLE DASH VERTICAL", aliases: &["FORMS HEAVY TRIPLE DASH VERTICAL"] },
        Codepoint { codepoint: 0x2508, name: "BOX DRAWINGS LIGHT QUADRUPLE DASH HORIZONTAL", aliases: &["FORMS LIGHT QUADRUPLE DASH HORIZONTAL"] },
        Codepoint { codepoint: 0x2509, name: "BOX DRAWINGS HEAVY QUADRUPLE DASH HORIZONTAL", aliases: &["FORMS HEAVY QUADRUPLE DASH HORIZONTAL"] },
        Codepoint { codepoint: 0x250A, name: "BOX DRAWINGS LIGHT QUADRUPLE DASH VERTICAL", aliases: &["FORMS LIGHT QUADRUPLE DASH VERTICAL"] },
        Codepoint { codepoint: 0x250B, name: "BOX DRAWINGS HEAVY QUADRUPLE DASH VERTICAL", aliases: &["FORMS HEAVY QUADRUPLE DASH VERTICAL"] },
        Codepoint { codepoint: 0x250C, name: "BOX DRAWINGS LIGHT DOWN AND RIGHT", aliases: &["FORMS LIGHT DOWN AND RIGHT"] },
        Codepoint { codepoint: 0x250D, name: "BOX DRAWINGS DOWN LIGHT AND RIGHT HEAVY", aliases: &["FORMS DOWN LIGHT AND RIGHT HEAVY"] },
    ];
    assert(v@ =~= codepoint_table_213());
    v
}

pub open spec fn codepoint_table_214() -> Seq<Codepoint> {
    seq![
        Codepoint { codepoint: 0x250E, name: "BOX DRAWINGS DOWN HEAVY AND RIGHT LIGHT", aliases: &["FORMS DOWN HEAVY AND RIGHT LIGHT"] },
        Codepoint { codepoint: 0x250F, name: "BOX DRAWINGS HEAVY DOWN AND RIGHT", aliases: &["FORMS HEAVY DOWN AND RIGHT"] },
        Codepoint { codepoint: 0x2510, name: "BOX DRAWINGS LIGHT DOWN AND LEFT", aliases: &["FORMS LIGHT DOWN AND LEFT"] },
        Codepoint { codepoint: 0x2511, name: "BOX DRAWINGS DOWN LIGHT AND LEFT HEAVY", aliases: &["FORMS DOWN LIGHT AND LEFT HEAVY"] },
        Codepoint { codepoint: 0x2512, name: "BOX DRAWINGS DOWN HEAVY AND LEFT LIGHT", aliases: &["FORMS DOWN HEAVY AND LEFT LIGHT"] },
        Codepoint { codepoint: 0x2513, name: "BOX DRAWINGS HEAVY DOWN AND LEFT", aliases: &["FORMS HEAVY DOWN AND LEFT"] },
        Codepoint { codepoint: 0x2514, name: "BOX DRAWINGS LIGHT UP AND RIGHT", aliases: &["FORMS LIGHT UP AND RIGHT"] },
        Codepoint { codepoint: 0x2515, name: "BOX DRAWINGS UP LIGHT AND RIGHT HEAVY", aliases: &["FORMS UP LIGHT AND RIGHT HEAVY"] },
        Codepoint { codepoint: 0x2516, name: "BOX DRAWINGS UP HEAVY AND RIGHT LIGHT", aliases: &["FORMS UP HEAVY AND RIGHT LIGHT"] },
        Codepoint { codepoint: 0x2517, name: "BOX DRAWINGS HEAVY UP AND RIGHT", aliases: &["FORMS HEAVY UP AND RIGHT"] },
        Codepoint { codepoint: 0x2518, name: "BOX DRAWINGS LIGHT UP AND LEFT", aliases: &["FORMS LIGHT UP AND LEFT"] },
        Codepoint { codepoint: 0x2519, name: "BOX DRAWINGS UP LIGHT AND LEFT HEAVY", aliases: &["FORMS UP LIGHT AND LEFT HEAVY"] },
        Codepoint { codepoint: 0x251A, name: "BOX DRAWINGS UP HEAVY AND LEFT LIGHT", aliases: &["FORMS UP HEAVY AND LEFT LIGHT"] },
        Codepoint { codepoint: 0x251B, name: "BOX DRAWINGS HEAVY UP AND LEFT", aliases: &["FORMS HEAVY UP AND LEFT"] },
        Codepoint { codepoint: 0x251C, name: "BOX DRAWINGS LIGHT VERTICAL AND RIGHT", aliases: &["FORMS LIGHT VERTICAL AND RIGHT"] },
        Codepoint { codepoint: 0x251D, name: "BOX DRAWINGS VERTICAL LIGHT AND RIGHT HEAVY", aliases: &["FORMS VERTICAL LIGHT AND RIGHT HEAVY"] },
        Codepoint { codepoint: 0x251E, name: "BOX DRAWINGS UP HEAVY AND RIGHT DOWN LIGHT", aliases: &["FORMS UP HEAVY AND RIGHT DOWN LIGHT"] },
        Codepoint { codepoint: 0x251F, name: "BOX DRAWINGS DOWN HEAVY AND RIGHT UP LIGHT", aliases: &["FORMS DOWN HEAVY AND RIGHT UP LIGHT"] },
        Codepoint { codepoint: 0x2520, name: "BOX DRAWINGS VERTICAL HEAVY AND RIGHT LIGHT", aliases: &["FORMS VERTICAL HEAVY AND RIGHT LIGHT"] },
        Codepoint { codepoint: 0x2521, name: "BOX DRAWINGS DOWN LIGHT AND RIGHT UP HEAVY", aliases: &["FORMS DOWN LIGHT AND RIGHT UP HEAVY"] },
        Codepoint { codepoint: 0x2522, name: "BOX DRAWINGS UP LIGHT AND RIGHT DOWN HEAVY", aliases: &["FORMS UP LIGHT AND RIGHT DOWN HEAVY"] },
        Codepoint { codepoint: 0x2523, name: "BOX DRAWINGS HEAVY VERTICAL AND RIGHT", aliases: &["FORMS HEAVY VERTICAL AND RIGHT"] },
        Codepoint { codepoint: 0x2524, name: "BOX DRAWINGS LIGHT VERTICAL AND LEFT", aliases: &["FORMS LIGHT VERTICAL AND LEFT"] },
        Codepoint { codepoint: 0x2525, name: "BOX DRAWINGS VERTICAL LIGHT AND LEFT HEAVY", aliases: &["FORMS VERTICAL LIGHT AND LEFT HEAVY"] },
        Codepoint { codepoint: 0x2526, name: "BOX DRAWINGS UP HEAVY AND LEFT DOWN LIGHT", aliases: &["FORMS UP HEAVY AND LEFT DOWN LIGHT"] },
        Codepoint { codepoint: 0x2527, name: "BOX DRAWINGS DOWN HEAVY AND LEFT UP LIGHT", aliases: &["FORMS DOWN HEAVY AND LEFT UP LIGHT"] },
        Codepoint { codepoint: 0x2528, name: "BOX DRAWINGS VERTICAL HEAVY AND LEFT LIGHT", aliases: &["FORMS VERTICAL HEAVY AND LEFT LIGHT"] },
        Codepoint { codepoint: 0x2529, name: "BOX DRAWINGS DOWN LIGHT AND LEFT UP HEAVY", aliases: &["FORMS DOWN LIGHT AND LEFT UP HEAVY"] },
        Codepoint { codepoint: 0x252A, name: "BOX DRAWINGS UP LIGHT AND LEFT DOWN HEAVY", aliases: &["FORMS UP LIGHT AND LEFT DOWN HEAVY"] },
        Codepoint { codepoint: 0x252B, name: "BOX DRAWINGS HEAVY VERTICAL AND LEFT", aliases: &["FORMS HEAVY VERTICAL AND LEFT"] },
        Codepoint { codepoint: 0x252C, name: "BOX DRAWINGS LIGHT DOWN AND HORIZONTAL", aliases: &["FORMS LIGHT DOWN AND HORIZONTAL"] },
        Codepoint { codepoint: 0x252D, name: "BOX DRAWINGS LEFT HEAVY AND RIGHT DOWN LIGHT", aliases: &["FORMS LEFT HEAVY AND RIGHT DOWN LIGHT"] },
        Codepoint { codepoint: 0x252E, name: "BOX DRAWINGS RIGHT HEAVY AND LEFT DOWN LIGHT", aliases: &["FORMS RIGHT HEAVY AND LEFT DOWN LIGHT"] },
        Codepoint { codepoint: 0x252F, name: "BOX DRAWINGS DOWN LIGHT AND HORIZONTAL HEAVY", aliases: &["FORMS DOWN LIGHT AND HORIZONTAL HEAVY"] },
        Codepoint { codepoint: 0x2530, name: "BOX DRAWINGS DOWN HEAVY AND HORIZONTAL LIGHT", aliases: &["FORMS DOWN HEAVY AND HORIZONTAL LIGHT"] },
        Codepoint { codepoint: 0x2531, name: "BOX DRAWINGS RIGHT LIGHT AND LEFT DOWN HEAVY", aliases: &["FORMS RIGHT LIGHT AND LEFT DOWN HEAVY"] },
        Codepoint { codepoint: 0x2532, name: "BOX DRAWINGS LEFT LIGHT AND RIGHT DOWN HEAVY", aliases: &["FORMS LEFT LIGHT AND RIGHT DOWN HEAVY"] },
        Codepoint { codepoint: 0x2533, name: "BOX DRAWINGS HEAVY DOWN AND HORIZONTAL", aliases: &["FORMS HEAVY DOWN AND HORIZONTAL"] },
        Codepoint { codepoint: 0x2534, name: "BOX DRAWINGS LIGHT UP AND HORIZONTAL", aliases: &["FORMS LIGHT UP AND HORIZONTAL"] },
        Codepoint { codepoint: 0x2535, name: "BOX DRAWINGS LEFT HEAVY AND RIGHT UP LIGHT", aliases: &["FORMS LEFT HEAVY AND RIGHT UP LIGHT"] },
    ]
}

fn all_codepoints_214() -> (v: Vec<Codepoint>)
    ensures
        v@ == codepoint_table_214(),
{
    let v = vec![
        Codepoint { codepoint: 0x250E, name: "BOX DRAWINGS DOWN HEAVY AND RIGHT LIGHT", aliases: &["FORMS DOWN HEAVY AND RIGHT LIGHT"] },
        Codepoint { codepoint: 0x250F, name: "BOX DRAWINGS HEAVY DOWN AND RIGHT", aliases: &["FORMS HEAVY DOWN AND RIGHT"] },
        Codepoint { codepoint: 0x2510, name: "BOX DRAWINGS LIGHT DOWN AND LEFT", aliases: &["FORMS LIGHT DOWN AND LEFT"] },
        Codepoint { codepoint: 0x2511, name: "BOX DRAWINGS DOWN LIGHT AND LEFT HEAVY", aliases: &["FORMS DOWN LIGHT AND LEFT HEAVY"] },
        Codepoint { codepoint: 0x2512, name: "BOX DRAWINGS DOWN HEAVY AND LEFT LIGHT", aliases: &["FORMS DOWN HEAVY AND LEFT LIGHT"] },
        Codepoint { codepoint: 0x2513, name: "BOX DRAWINGS HEAVY DOWN AND LEFT", aliases: &["FORMS HEAVY DOWN AND LEFT"] },
        Codepoint { codepoint: 0x2514, name: "BOX DRAWINGS LIGHT UP AND RIGHT", aliases: &["FORMS LIGHT UP AND RIGHT"] },
        Codepoint { codepoint: 0x2515, name: "BOX DRAWINGS UP LIGHT AND RIGHT HEAVY", aliases: &["FORMS UP LIGHT AND RIGHT HEAVY"] },
        Codepoint { codepoint: 0x2516, name: "BOX DRAWINGS UP HEAVY AND RIGHT LIGHT", aliases: &["FORMS UP HEAVY AND RIGHT LIGHT"] },
        Codepoint { codepoint: 0x2517, name: "BOX DRAWINGS HEAVY UP AND RIGHT", aliases: &["FORMS HEAVY UP AND RIGHT"] },
        Codepoint { codepoint: 0x2518, name: "BOX DRAWINGS LIGHT UP AND LEFT", aliases: &["FORMS LIGHT UP AND LEFT"] },
        Codepoint { codepoint: 0x2519, name: "BOX DRAWINGS UP LIGHT AND LEFT HEAVY", aliases: &["FORMS UP LIGHT AND LEFT HEAVY"] },
        Codepoint { codepoint: 0x251A, name: "BOX DRAWINGS UP HEAVY AND LEFT LIGHT", aliases: &["FORMS UP HEAVY AND LEFT LIGHT"] },
        Codepoint { codepoint: 0x251B, name: "BOX DRAWINGS HEAVY UP AND LEFT", aliases: &["FORMS HEAVY UP AND LEFT"] },
        Codepoint { codepoint: 0x251C, name: "BOX DRAWINGS LIGHT VERTICAL AND RIGHT", aliases: &["FORMS LIGHT VERTICAL AND RIGHT"] },
        Codepoint { codepoint: 0x251D, name: "BOX DRAWINGS VERTICAL LIGHT AND RIGHT HEAVY", aliases: &["FORMS VERTICAL LIGHT AND RIGHT HEAVY"] },
        Codepoint { codepoint: 0x251E, name: "BOX DRAWINGS UP HEAVY AND RIGHT DOWN LIGHT", aliases: &["FORMS UP HEAVY AND RIGHT DOWN LIGHT"] },
        Codepoint { codepoint: 0x251F, name: "BOX DRAWINGS DOWN HEAVY AND RIGHT UP LIGHT", aliases: &["FORMS DOWN HEAVY AND RIGHT UP LIGHT"] },
        Codepoint { codepoint: 0x2520, name: "BOX DRAWINGS VERTICAL HEAVY AND RIGHT LIGHT", aliases: &["FORMS VERTICAL HEAVY AND RIGHT LIGHT"] },
        Codepoint { codepoint: 0x2521, name: "BOX DRAWINGS DOWN LIGHT AND RIGHT UP HEAVY", aliases: &["FORMS DOWN LIGHT AND RIGHT UP HEAVY"] },
        Codepoint { codepoint: 0x2522, name: "BOX DRAWINGS UP LIGHT AND RIGHT DOWN HEAVY", aliases: &["FORMS UP LIGHT AND RIGHT DOWN HEAVY"] },
        Codepoint { codepoint: 0x2523, name: "BOX DRAWINGS HEAVY VERTICAL AND RIGHT", aliases: &["FORMS HEAVY VERTICAL AND RIGHT"] },
        Codepoint { codepoint: 0x2524, name: "BOX DRAWINGS LIGHT VERTICAL AND LEFT", aliases: &["FORMS LIGHT VERTICAL AND LEFT"] },
        Codepoint { codepoint: 0x2525, name: "BOX DRAWINGS VERTICAL LIGHT AND LEFT HEAVY", aliases: &["FORMS VERTICAL LIGHT AND LEFT HEAVY"] },
        Codepoint { codepoint: 0x2526, name: "BOX DRAWINGS UP HEAVY AND LEFT DOWN LIGHT", aliases: &["FORMS UP HEAVY AND LEFT DOWN LIGHT"] },
        Codepoint { codepoint: 0x2527, name: "BOX DRAWINGS DOWN HEAVY AND LEFT UP LIGHT", aliases: &["FORMS DOWN HEAVY AND LEFT UP LIGHT"] },
        Codepoint { codepoint: 0x2528, name: "BOX DRAWINGS VERTICAL HEAVY AND LEFT LIGHT", aliases: &["FORMS VERTICAL HEAVY AND LEFT LIGHT"] },
        Codepoint { codepoint: 0x2529, name: "BOX DRAWINGS DOWN LIGHT AND LEFT UP HEAVY", aliases: &["FORMS DOWN LIGHT AND LEFT UP HEAVY"] },
        Codepoint { codepoint: 0x252A, name: "BOX DRAWINGS UP LIGHT AND LEFT DOWN HEAVY", aliases: &["FORMS UP LIGHT AND LEFT DOWN HEAVY"] },
        Codepoint { codepoint: 0x252B, name: "BOX DRAWINGS HEAVY VERTICAL AND LEFT", aliases: &["FORMS HEAVY VERTICAL AND LEFT"] },
        Codepoint { codepoint: 0x252C, name: "BOX DRAWINGS LIGHT DOWN AND HORIZONTAL", aliases: &["FORMS LIGHT DOWN AND HORIZONTAL"] },
        Codepoint { codepoint: 0x252D, name: "BOX DRAWINGS LEFT HEAVY AND RIGHT DOWN LIGHT", aliases: &["FORMS LEFT HEAVY AND RIGHT DOWN LIGHT"] },
        Codepoint { codepoint: 0x252E, name: "BOX DRAWINGS RIGHT HEAVY AND LEFT DOWN LIGHT", aliases: &["FORMS RIGHT HEAVY AND LEFT DOWN LIGHT"] },
        Codepoint { codepoint: 0x252F, name: "BOX DRAWINGS DOWN LIGHT AND HORIZONTAL HEAVY", aliases: &["FORMS DOWN LIGHT AND HORIZONTAL HEAVY"] },
        Codepoint { codepoint: 0x2530, name: "BOX DRAWINGS DOWN HEAVY AND HORIZONTAL LIGHT", aliases: &["FORMS DOWN HEAVY AND HORIZONTAL LIGHT"] },
        Codepoint { codepoint: 0x2531, name: "BOX DRAWINGS RIGHT LIGHT AND LEFT DOWN HEAVY", aliases: &["FORMS RIGHT LIGHT AND LEFT DOWN HEAVY"] },
        Codepoint { codepoint: 0x2532, name: "BOX DRAWINGS LEFT LIGHT AND RIGHT DOWN HEAVY", aliases: &["FORMS LEFT LIGHT AND RIGHT DOWN HEAVY"] },
        Codepoint { codepoint: 0x2533, name: "BOX DRAWINGS HEAVY DOWN AND HORIZONTAL", aliases: &["FORMS HEAVY DOWN AND HORIZONTAL"] },
        Codepoint { codepoint: 0x2534, name: "BOX DRAWINGS LIGHT UP AND HORIZONTAL", aliases: &["FORMS LIGHT UP AND HORIZONTAL"] },
        Codepoint { codepoint: 0x2535, name: "BOX DRAWINGS LEFT HEAVY AND RIGHT UP LIGHT", aliases: &["FORMS LEFT HEAVY AND RIGHT UP LIGHT"] },
    ];
    assert(v@ =~= codepoint_table_214());
    v
}

pub open spec fn codepoint_table_215() -> Seq<Codepoint> {
    seq![
        Codepoint { codepoint: 0x2536, name: "BOX DRAWINGS RIGHT HEAVY AND LEFT UP LIGHT", aliases: &["FORMS RIGHT HEAVY AND LEFT UP LIGHT"] },
        Codepoint { codepoint: 0x2537, name: "BOX DRAWINGS UP LIGHT AND HORIZONTAL HEAVY", aliases: &["FORMS UP LIGHT AND HORIZONTAL HEAVY"] },
        Codepoint { codepoint: 0x2538, name: "BOX DRAWINGS UP HEAVY AND HORIZONTAL LIGHT", aliases: &["FORMS UP HEAVY AND HORIZONTAL LIGHT"] },
        Codepoint { codepoint: 0x2539, name: "BOX DRAWINGS RIGHT LIGHT AND LEFT UP HEAVY", aliases: &["FORMS RIGHT LIGHT AND LEFT UP HEAVY"] },
        Codepoint { codepoint: 0x253A, name: "BOX DRAWINGS LEFT LIGHT AND RIGHT UP HEAVY", aliases: &["FORMS LEFT LIGHT AND RIGHT UP HEAVY"] },
        Codepoint { codepoint: 0x253B, name: "BOX DRAWINGS HEAVY UP AND HORIZONTAL", aliases: &["FORMS HEAVY UP AND HORIZONTAL"] },
        Codepoint { codepoint: 0x253C, name: "BOX DRAWINGS LIGHT VERTICAL AND HORIZONTAL", aliases: &["FORMS LIGHT VERTICAL AND HORIZONTAL"] },
        Codepoint { codepoint: 0x253D, name: "BOX DRAWINGS LEFT HEAVY AND RIGHT VERTICAL LIGHT", aliases: &["FORMS LEFT HEAVY AND RIGHT VERTICAL LIGHT"] },
        Codepoint { codepoint: 0x253E, name: "BOX DRAWINGS RIGHT HEAVY AND LEFT VERTICAL LIGHT", aliases: &["FORMS RIGHT HEAVY AND LEFT VERTICAL LIGHT"] },
        Codepoint { codepoint: 0x253F, name: "BOX DRAWINGS VERTICAL LIGHT AND HORIZONTAL HEAVY", aliases: &["FORMS VERTICAL LIGHT AND HORIZONTAL HEAVY"] },
        Codepoint { codepoint: 0x2540, name: "BOX DRAWINGS UP HEAVY AND DOWN HORIZONTAL LIGHT", aliases: &["FORMS UP HEAVY AND DOWN HORIZONTAL LIGHT"] },
        Codepoint { codepoint: 0x2541, name: "BOX DRAWINGS DOWN HEAVY AND UP HORIZONTAL LIGHT", aliases: &["FORMS DOWN HEAVY AND UP HORIZONTAL LIGHT"] },
        Codepoint { codepoint: 0x2542, name: "BOX DRAWINGS VERTICAL HEAVY AND HORIZONTAL LIGHT", aliases: &["FORMS VERTICAL HEAVY AND HORIZONTAL LIGHT"] },
        Codepoint { codepoint: 0x2543, name: "BOX DRAWINGS LEFT UP HEAVY AND RIGHT DOWN LIGHT", aliases: &["FORMS LEFT UP HEAVY AND RIGHT DOWN LIGHT"] },
        Codepoint { codepoint: 0x2544, name: "BOX DRAWINGS RIGHT UP HEAVY AND LEFT DOWN LIGHT", aliases: &["FORMS RIGHT UP HEAVY AND LEFT DOWN LIGHT"] },
        Codepoint { codepoint: 0x2545, name: "BOX DRAWINGS LEFT DOWN HEAVY AND RIGHT UP LIGHT", aliases: &["FORMS LEFT DOWN HEAVY AND RIGHT UP LIGHT"] },
        Codepoint { codepoint: 0x2546, name: "BOX DRAWINGS RIGHT DOWN HEAVY AND LEFT UP LIGHT", aliases: &["FORMS RIGHT DOWN HEAVY AND LEFT UP LIGHT"] },
        Codepoint { codepoint: 0x2547, name: "BOX DRAWINGS DOWN LIGHT AND UP HORIZONTAL HEAVY", aliases: &["FORMS DOWN LIGHT AND UP HORIZONTAL HEAVY"] },
        Codepoint { codepoint: 0x2548, name: "BOX DRAWINGS UP LIGHT AND DOWN HORIZONTAL HEAVY", aliases: &["FORMS UP LIGHT AND DOWN HORIZONTAL HEAVY"] },
        Codepoint { codepoint: 0x2549, name: "BOX DRAWINGS RIGHT LIGHT AND LEFT VERTICAL HEAVY", aliases: &["FORMS RIGHT LIGHT AND LEFT VERTICAL HEAVY"] },
        Codepoint { codepoint: 0x254A, name: "BOX DRAWINGS LEFT LIGHT AND RIGHT VERTICAL HEAVY", aliases: &["FORMS LEFT LIGHT AND RIGHT VERTICAL HEAVY"] },
        Codepoint { codepoint: 0x254B, name: "BOX DRAWINGS HEAVY VERTICAL AND HORIZONTAL", aliases: &["FORMS HEAVY VERTICAL AND HORIZONTAL"] },
        Codepoint { codepoint: 0x254C, name: "BOX DRAWINGS LIGHT DOUBLE DASH HORIZONTAL", aliases: &["FORMS LIGHT DOUBLE DASH HORIZONTAL"] },
        Codepoint { codepoint: 0x254D, name: "BOX DRAWINGS HEAVY DOUBLE DASH HORIZONTAL", aliases: &["FORMS HEAVY DOUBLE DASH HORIZONTAL"] },
        Codepoint { codepoint: 0x254E, name: "BOX DRAWINGS LIGHT DOUBLE DASH VERTICAL", aliases: &["FORMS LIGHT DOUBLE DASH VERTICAL"] },
        Codepoint { codepoint: 0x254F, name: "BOX DRAWINGS HEAVY DOUBLE DASH VERTICAL", aliases: &["FORMS HEAVY DOUBLE DASH VERTICAL"] },
        Codepoint { codepoint: 0x2550, name: "BOX DRAWINGS DOUBLE HORIZONTAL", aliases: &["FORMS DOUBLE HORIZONTAL"] },
        Codepoint { codepoint: 0x2551, name: "BOX DRAWINGS DOUBLE VERTICAL", aliases: &["FORMS DOUBLE VERTICAL"] },
        Codepoint { codepoint: 0x2552, name: "BOX DRAWINGS DOWN SINGLE AND RIGHT DOUBLE", aliases: &["FORMS DOWN SINGLE AND RIGHT DOUBLE"] },
        Codepoint { codepoint: 0x2553, name: "BOX DRAWINGS DOWN DOUBLE AND RIGHT SINGLE", aliases: &["FORMS DOWN DOUBLE AND RIGHT SINGLE"] },
        Codepoint { codepoint: 0x2554, name: "BOX DRAWINGS DOUBLE DOWN AND RIGHT", aliases: &["FORMS DOUBLE DOWN AND RIGHT"] },
        Codepoint { codepoint: 0x2555, name: "BOX DRAWINGS DOWN SINGLE AND LEFT DOUBLE", aliases: &["FORMS DOWN SINGLE AND LEFT DOUBLE"] },
        Codepoint { codepoint: 0x2556, name: "BOX DRAWINGS DOWN DOUBLE AND LEFT SINGLE", aliases: &["FORMS DOWN DOUBLE AND LEFT SINGLE"] },
        Codepoint { codepoint: 0x2557, name: "BOX DRAWINGS DOUBLE DOWN AND LEFT", aliases: &["FORMS DOUBLE DOWN AND LEFT"] },
        Codepoint { codepoint: 0x2558, name: "BOX DRAWINGS UP SINGLE AND RIGHT DOUBLE", aliases: &["FORMS UP SINGLE AND RIGHT DOUBLE"] },
        Codepoint { codepoint: 0x2559, name: "BOX DRAWINGS UP DOUBLE AND RIGHT SINGLE", aliases: &["FORMS UP DOUBLE AND RIGHT SINGLE"] },
        Codepoint { codepoint: 0x255A, name: "BOX DRAWINGS DOUBLE UP AND RIGHT", aliases: &["FORMS DOUBLE UP AND RIGHT"] },
        Codepoint { codepoint: 0x255B, name: "BOX DRAWINGS UP SINGLE AND LEFT DOUBLE", aliases: &["FORMS UP SINGLE AND LEFT DOUBLE"] },
        Codepoint { codepoint: 0x255C, name: "BOX DRAWINGS UP DOUBLE AND LEFT SINGLE", aliases: &["FORMS UP DOUBLE AND LEFT SINGLE"] },
        Codepoint { codepoint: 0x255D, name: "BOX DRAWINGS DOUBLE UP AND LEFT", aliases: &["FORMS DOUBLE UP AND LEFT"] },
    ]
}

fn all_codepoints_215() -> (v: Vec<Codepoint>)
    ensures
        v@ == codepoint_table_215(),
{
    let v = vec![
        Codepoint { codepoint: 0x2536, name: "BOX DRAWINGS RIGHT HEAVY AND LEFT UP LIGHT", aliases: &["FORMS RIGHT HEAVY AND LEFT UP LIGHT"] },
        Codepoint { codepoint: 0x2537, name: "BOX DRAWINGS UP LIGHT AND HORIZONTAL HEAVY", aliases: &["FORMS UP LIGHT AND HORIZONTAL HEAVY"] },
        Codepoint { codepoint: 0x2538, name: "BOX DRAWINGS UP HEAVY AND HORIZONTAL LIGHT", aliases: &["FORMS UP HEAVY AND HORIZONTAL LIGHT"] },
        Codepoint { codepoint: 0x2539, name: "BOX DRAWINGS RIGHT LIGHT AND LEFT UP HEAVY", aliases: &["FORMS RIGHT LIGHT AND LEFT UP HEAVY"] },
        Codepoint { codepoint: 0x253A, name: "BOX DRAWINGS LEFT LIGHT AND RIGHT UP HEAVY", aliases: &["FORMS LEFT LIGHT AND RIGHT UP HEAVY"] },
        Codepoint { codepoint: 0x253B, name: "BOX DRAWINGS HEAVY UP AND HORIZONTAL", aliases: &["FORMS HEAVY UP AND HORIZONTAL"] },
        Codepoint { codepoint: 0x253C, name: "BOX DRAWINGS LIGHT VERTICAL AND HORIZONTAL", aliases: &["FORMS LIGHT VERTICAL AND HORIZONTAL"] },
        Codepoint { codepoint: 0x253D, name: "BOX DRAWINGS LEFT HEAVY AND RIGHT VERTICAL LIGHT", aliases: &["FORMS LEFT HEAVY AND RIGHT VERTICAL LIGHT"] },
        Codepoint { codepoint: 0x253E, name: "BOX DRAWINGS RIGHT HEAVY AND LEFT VERTICAL LIGHT", aliases: &["FORMS RIGHT HEAVY AND LEFT VERTICAL LIGHT"] },
        Codepoint { codepoint: 0x253F, name: "BOX DRAWINGS VERTICAL LIGHT AND HORIZONTAL HEAVY", aliases: &["FORMS VERTICAL LIGHT AND HORIZONTAL HEAVY"] },
        Codepoint { codepoint: 0x2540, name: "BOX DRAWINGS UP HEAVY AND DOWN HORIZONTAL LIGHT", aliases: &["FORMS UP HEAVY AND DOWN HORIZONTAL LIGHT"] },
        Codepoint { codepoint: 0x2541, name: "BOX DRAWINGS DOWN HEAVY AND UP HORIZONTAL LIGHT", aliases: &["FORMS DOWN HEAVY AND UP HORIZONTAL LIGHT"] },
        Codepoint { codepoint: 0x2542, name: "BOX DRAWINGS VERTICAL HEAVY AND HORIZONTAL LIGHT", aliases: &["FORMS VERTICAL HEAVY AND HORIZONTAL LIGHT"] },
        Codepoint { codepoint: 0x2543, name: "BOX DRAWINGS LEFT UP HEAVY AND RIGHT DOWN LIGHT", aliases: &["FORMS LEFT UP HEAVY AND RIGHT DOWN LIGHT"] },
        Codepoint { codepoint: 0x2544, name: "BOX DRAWINGS RIGHT UP HEAVY AND LEFT DOWN LIGHT", aliases: &["FORMS RIGHT UP HEAVY AND LEFT DOWN LIGHT"] },
        Codepoint { codepoint: 0x2545, name: "BOX DRAWINGS LEFT DOWN HEAVY AND RIGHT UP LIGHT", aliases: &["FORMS LEFT DOWN HEAVY AND RIGHT UP LIGHT"] },
        Codepoint { codepoint: 0x2546, name: "BOX DRAWINGS RIGHT DOWN HEAVY AND LEFT UP LIGHT", aliases: &["FORMS RIGHT DOWN HEAVY AND LEFT UP LIGHT"] },
        Codepoint { codepoint: 0x2547, name: "BOX DRAWINGS DOWN LIGHT AND UP HORIZONTAL HEAVY", aliases: &["FORMS DOWN LIGHT AND UP HORIZONTAL HEAVY"] },
        Codepoint { codepoint: 0x2548, name: "BOX DRAWINGS UP LIGHT AND DOWN HORIZONTAL HEAVY", aliases: &["FORMS UP LIGHT AND DOWN HORIZONTAL HEAVY"] },
        Codepoint { codepoint: 0x2549, name: "BOX DRAWINGS RIGHT LIGHT AND LEFT VERTICAL HEAVY", aliases: &["FORMS RIGHT LIGHT AND LEFT VERTICAL HEAVY"] },
        Codepoint { codepoint: 0x254A, name: "BOX DRAWINGS LEFT LIGHT AND RIGHT VERTICAL HEAVY", aliases: &["FORMS LEFT LIGHT AND RIGHT VERTICAL HEAVY"] },
        Codepoint { codepoint: 0x254B, name: "BOX DRAWINGS HEAVY VERTICAL AND HORIZONTAL", aliases: &["FORMS HEAVY VERTICAL AND HORIZONTAL"] },
        Codepoint { codepoint: 0x254C, name: "BOX DRAWINGS LIGHT DOUBLE DASH HORIZONTAL", aliases: &["FORMS LIGHT DOUBLE DASH HORIZONTAL"] },
        Codepoint { codepoint: 0x254D, name: "BOX DRAWINGS HEAVY DOUBLE DASH HORIZONTAL", aliases: &["FORMS HEAVY DOUBLE DASH HORIZONTAL"] },
        Codepoint { codepoint: 0x254E, name: "BOX DRAWINGS LIGHT DOUBLE DASH VERTICAL", aliases: &["FORMS LIGHT DOUBLE DASH VERTICAL"] },
        Codepoint { codepoint: 0x254F, name: "BOX DRAWINGS HEAVY DOUBLE DASH VERTICAL", aliases: &["FORMS HEAVY DOUBLE DASH VERTICAL"] },
        Codepoint { codepoint: 0x2550, name: "BOX DRAWINGS DOUBLE HORIZONTAL", aliases: &["FORMS DOUBLE HORIZONTAL"] },
        Codepoint { codepoint: 0x2551, name: "BOX DRAWINGS DOUBLE VERTICAL", aliases: &["FORMS DOUBLE VERTICAL"] },
        Codepoint { codepoint: 0x2552, name: "BOX DRAWINGS DOWN SINGLE AND RIGHT DOUBLE", aliases: &["FORMS DOWN SINGLE AND RIGHT DOUBLE"] },
        Codepoint { codepoint: 0x2553, name: "BOX DRAWINGS DOWN DOUBLE AND RIGHT SINGLE", aliases: &["FORMS DOWN DOUBLE AND RIGHT SINGLE"] },
        Codepoint { codepoint: 0x2554, name: "BOX DRAWINGS DOUBLE DOWN AND RIGHT", aliases: &["FORMS DOUBLE DOWN AND RIGHT"] },
        Codepoint { codepoint: 0x2555, name: "BOX DRAWINGS DOWN SINGLE AND LEFT DOUBLE", aliases: &["FORMS DOWN SINGLE AND LEFT DOUBLE"] },
        Codepoint { codepoint: 0x2556, name: "BOX DRAWINGS DOWN DOUBLE AND LEFT SINGLE", aliases: &["FORMS DOWN DOUBLE AND LEFT SINGLE"] },
        Codepoint { codepoint: 0x2557, name: "BOX DRAWINGS DOUBLE DOWN AND LEFT", aliases: &["FORMS DOUBLE DOWN AND LEFT"] },
        Codepoint { codepoint: 0x2558, name: "BOX DRAWINGS UP SINGLE AND RIGHT DOUBLE", aliases: &["FORMS UP SINGLE AND RIGHT DOUBLE"] },
        Codepoint { codepoint: 0x2559, name: "BOX DRAWINGS UP DOUBLE AND RIGHT SINGLE", aliases: &["FORMS UP DOUBLE AND RIGHT SINGLE"] },
        Codepoint { codepoint: 0x255A, name: "BOX DRAWINGS DOUBLE UP AND RIGHT", aliases: &["FORMS DOUBLE UP AND RIGHT"] },
        Codepoint { codepoint: 0x255B, name: "BOX DRAWINGS UP SINGLE AND LEFT DOUBLE", aliases: &["FORMS UP SINGLE AND LEFT DOUBLE"] },
        Codepoint { codepoint: 0x255C, name: "BOX DRAWINGS UP DOUBLE AND LEFT SINGLE", aliases: &["FORMS UP DOUBLE AND LEFT SINGLE"] },
        Codepoint { codepoint: 0x255D, name: "BOX DRAWINGS DOUBLE UP AND LEFT", aliases: &["FORMS DOUBLE UP AND LEFT"] },
    ];
    assert(v@ =~= codepoint_table_215());
    v
}

pub open spec fn codepoint_table_216() -> Seq<Codepoint> {
    seq![
        Codepoint { codepoint: 0x255E, name: "BOX DRAWINGS VERTICAL SINGLE AND RIGHT DOUBLE", aliases: &["FORMS VERTICAL SINGLE AND RIGHT DOUBLE"] },
        Codepoint { codepoint: 0x255F, name: "BOX DRAWINGS VERTICAL DOUBLE AND RIGHT SINGLE", aliases: &["FORMS VERTICAL DOUBLE AND RIGHT SINGLE"] },
        Codepoint { codepoint: 0x2560, name: "BOX DRAWINGS DOUBLE VERTICAL AND RIGHT", aliases: &["FORMS DOUBLE VERTICAL AND RIGHT"] },
        Codepoint { codepoint: 0x2561, name: "BOX DRAWINGS VERTICAL SINGLE AND LEFT DOUBLE", aliases: &["FORMS VERTICAL SINGLE AND LEFT DOUBLE"] },
        Codepoint { codepoint: 0x2562, name: "BOX DRAWINGS VERTICAL DOUBLE AND LEFT SINGLE", aliases: &["FORMS VERTICAL DOUBLE AND LEFT SINGLE"] },
        Codepoint { codepoint: 0x2563, name: "BOX DRAWINGS DOUBLE VERTICAL AND LEFT", aliases: &["FORMS DOUBLE VERTICAL AND LEFT"] },
        Codepoint { codepoint: 0x2564, name: "BOX DRAWINGS DOWN SINGLE AND HORIZONTAL DOUBLE", aliases: &["FORMS DOWN SINGLE AND HORIZONTAL DOUBLE"] },
        Codepoint { codepoint: 0x2565, name: "BOX DRAWINGS DOWN DOUBLE AND HORIZONTAL SINGLE", aliases: &["FORMS DOWN DOUBLE AND HORIZONTAL SINGLE"] },
        Codepoint { codepoint: 0x2566, name: "BOX DRAWINGS DOUBLE DOWN AND HORIZONTAL", aliases: &["FORMS DOUBLE DOWN AND HORIZONTAL"] },
        Codepoint { codepoint: 0x2567, name: "BOX DRAWINGS UP SINGLE AND HORIZONTAL DOUBLE", aliases: &["FORMS UP SINGLE AND HORIZONTAL DOUBLE"] },
        Codepoint { codepoint: 0x2568, name: "BOX DRAWINGS UP DOUBLE AND HORIZONTAL SINGLE", aliases: &["FORMS UP DOUBLE AND HORIZONTAL SINGLE"] },
        Codepoint { codepoint: 0x2569, name: "BOX DRAWINGS DOUBLE UP AND HORIZONTAL", aliases: &["FORMS DOUBLE UP AND HORIZONTAL"] },
        Codepoint { codepoint: 0x256A, name: "BOX DRAWINGS VERTICAL SINGLE AND HORIZONTAL DOUBLE", aliases: &["FORMS VERTICAL SINGLE AND HORIZONTAL DOUBLE"] },
        Codepoint { codepoint: 0x256B, name: "BOX DRAWINGS VERTICAL DOUBLE AND HORIZONTAL SINGLE", aliases: &["FORMS VERTICAL DOUBLE AND HORIZONTAL SINGLE"] },
        Codepoint { codepoint: 0x256C, name: "BOX DRAWINGS DOUBLE VERTICAL AND HORIZONTAL", aliases: &["FORMS DOUBLE VERTICAL AND HORIZONTAL"] },
        Codepoint { codepoint: 0x256D, name: "BOX DRAWINGS LIGHT ARC DOWN AND RIGHT", aliases: &["FORMS LIGHT ARC DOWN AND RIGHT"] },
        Codepoint { codepoint: 0x256E, name: "BOX DRAWINGS LIGHT ARC DOWN AND LEFT", aliases: &["FORMS LIGHT ARC DOWN AND LEFT"] },
        Codepoint { codepoint: 0x256F, name: "BOX DRAWINGS LIGHT ARC UP AND LEFT", aliases: &["FORMS LIGHT ARC UP AND LEFT"] },
        Codepoint { codepoint: 0x2570, name: "BOX DRAWINGS LIGHT ARC UP AND RIGHT", aliases: &["FORMS LIGHT ARC UP AND RIGHT"] },
        Codepoint { codepoint: 0x2571, name: "BOX DRAWINGS LIGHT DIAGONAL UPPER RIGHT TO LOWER LEFT", aliases: &["FORMS LIGHT DIAGONAL UPPER RIGHT TO LOWER LEFT"] },
        Codepoint { codepoint: 0x2572, name: "BOX DRAWINGS LIGHT DIAGONAL UPPER LEFT TO LOWER RIGHT", aliases: &["FORMS LIGHT DIAGONAL UPPER LEFT TO LOWER RIGHT"] },
        Codepoint { codepoint: 0x2573, name: "BOX DRAWINGS LIGHT DIAGONAL CROSS", aliases: &["FORMS LIGHT DIAGONAL CROSS"] },
        Codepoint { codepoint: 0x2574, name: "BOX DRAWINGS LIGHT LEFT", aliases: &["FORMS LIGHT LEFT"] },
        Codepoint { codepoint: 0x2575, name: "BOX DRAWINGS LIGHT UP", aliases: &["FORMS LIGHT UP"] },
        Codepoint { codepoint: 0x2576, name: "BOX DRAWINGS LIGHT RIGHT", aliases: &["FORMS LIGHT RIGHT"] },
        Codepoint { codepoint: 0x2577, name: "BOX DRAWINGS LIGHT DOWN", aliases: &["FORMS LIGHT DOWN"] },
        Codepoint { codepoint: 0x2578, name: "BOX DRAWINGS HEAVY LEFT", aliases: &["FORMS HEAVY LEFT"] },
        Codepoint { codepoint: 0x2579, name: "BOX DRAWINGS HEAVY UP", aliases: &["FORMS HEAVY UP"] },
        Codepoint { codepoint: 0x257A, name: "BOX DRAWINGS HEAVY RIGHT", aliases: &["FORMS HEAVY RIGHT"] },
        Codepoint { codepoint: 0x257B, name: "BOX DRAWINGS HEAVY DOWN", aliases: &["FORMS HEAVY DOWN"] },
        Codepoint { codepoint: 0x257C, name: "BOX DRAWINGS LIGHT LEFT AND HEAVY RIGHT", aliases: &["FORMS LIGHT LEFT AND HEAVY RIGHT"] },
        Codepoint { codepoint: 0x257D, name: "BOX DRAWINGS LIGHT UP AND HEAVY DOWN", aliases: &["FORMS LIGHT UP AND HEAVY DOWN"] },
        Codepoint { codepoint: 0x257E, name: "BOX DRAWINGS HEAVY LEFT AND LIGHT RIGHT", aliases: &["FORMS HEAVY LEFT AND LIGHT RIGHT"] },
        Codepoint { codepoint: 0x257F, name: "BOX DRAWINGS HEAVY UP AND LIGHT DOWN", aliases: &["FORMS HEAVY UP AND LIGHT DOWN"] },
        Codepoint { codepoint: 0x2580, name: "UPPER HALF BLOCK", aliases: &[] },
        Codepoint { codepoint: 0x2581, name: "LOWER ONE EIGHTH BLOCK", aliases: &[] },
        Codepoint { codepoint: 0x2582, name: "LOWER ONE QUARTER BLOCK", aliases: &[] },
        Codepoint { codepoint: 0x2583, name: "LOWER THREE EIGHTHS BLOCK", aliases: &[] },
        Codepoint { codepoint: 0x2584, name: "LOWER HALF BLOCK", aliases: &[] },
        Codepoint { codepoint: 0x2585, name: "LOWER FIVE EIGHTHS BLOCK", aliases: &[] },
    ]
}

fn all_codepoints_216() -> (v: Vec<Codepoint>)
    ensures
        v@ == codepoint_table_216(),
{
    let v = vec![
        Codepoint { codepoint: 0x255E, name: "BOX DRAWINGS VERTICAL SINGLE AND RIGHT DOUBLE", aliases: &["FORMS VERTICAL SINGLE AND RIGHT DOUBLE"] },
        Codepoint { codepoint: 0x255F, name: "BOX DRAWINGS VERTICAL DOUBLE AND RIGHT SINGLE", aliases: &["FORMS VERTICAL DOUBLE AND RIGHT SINGLE"] },
        Codepoint { codepoint: 0x2560, name: "BOX DRAWINGS DOUBLE VERTICAL AND RIGHT", aliases: &["FORMS DOUBLE VERTICAL AND RIGHT"] },
        Codepoint { codepoint: 0x2561, name: "BOX DRAWINGS VERTICAL SINGLE AND LEFT DOUBLE", aliases: &["FORMS VERTICAL SINGLE AND LEFT DOUBLE"] },
        Codepoint { codepoint: 0x2562, name: "BOX DRAWINGS VERTICAL DOUBLE AND LEFT SINGLE", aliases: &["FORMS VERTICAL DOUBLE AND LEFT SINGLE"] },
        Codepoint { codepoint: 0x2563, name: "BOX DRAWINGS DOUBLE VERTICAL AND LEFT", aliases: &["FORMS DOUBLE VERTICAL AND LEFT"] },
        Codepoint { codepoint: 0x2564, name: "BOX DRAWINGS DOWN SINGLE AND HORIZONTAL DOUBLE", aliases: &["FORMS DOWN SINGLE AND HORIZONTAL DOUBLE"] },
        Codepoint { codepoint: 0x2565, name: "BOX DRAWINGS DOWN DOUBLE AND HORIZONTAL SINGLE", aliases: &["FORMS DOWN DOUBLE AND HORIZONTAL SINGLE"] },
        Codepoint { codepoint: 0x2566, name: "BOX DRAWINGS DOUBLE DOWN AND HORIZONTAL", aliases: &["FORMS DOUBLE DOWN AND HORIZONTAL"] },
        Codepoint { codepoint: 0x2567, name: "BOX DRAWINGS UP SINGLE AND HORIZONTAL DOUBLE", aliases: &["FORMS UP SINGLE AND HORIZONTAL DOUBLE"] },
        Codepoint { codepoint: 0x2568, name: "BOX DRAWINGS UP DOUBLE AND HORIZONTAL SINGLE", aliases: &["FORMS UP DOUBLE AND HORIZONTAL SINGLE"] },
        Codepoint { codepoint: 0x2569, name: "BOX DRAWINGS DOUBLE UP AND HORIZONTAL", aliases: &["FORMS DOUBLE UP AND HORIZONTAL"] },
        Codepoint { codepoint: 0x256A, name: "BOX DRAWINGS VERTICAL SINGLE AND HORIZONTAL DOUBLE", aliases: &["FORMS VERTICAL SINGLE AND HORIZONTAL DOUBLE"] },
        Codepoint { codepoint: 0x256B, name: "BOX DRAWINGS VERTICAL DOUBLE AND HORIZONTAL SINGLE", aliases: &["FORMS VERTICAL DOUBLE AND HORIZONTAL SINGLE"] },
        Codepoint { codepoint: 0x256C, name: "BOX DRAWINGS DOUBLE VERTICAL AND HORIZONTAL", aliases: &["FORMS DOUBLE VERTICAL AND HORIZONTAL"] },
        Codepoint { codepoint: 0x256D, name: "BOX DRAWINGS LIGHT ARC DOWN AND RIGHT", aliases: &["FORMS LIGHT ARC DOWN AND RIGHT"] },
        Codepoint { codepoint: 0x256E, name: "BOX DRAWINGS LIGHT ARC DOWN AND LEFT", aliases: &["FORMS LIGHT ARC DOWN AND LEFT"] },
        Codepoint { codepoint: 0x256F, name: "BOX DRAWINGS LIGHT ARC UP AND LEFT", aliases: &["FORMS LIGHT ARC UP AND LEFT"] },
        Codepoint { codepoint: 0x2570, name: "BOX DRAWINGS LIGHT ARC UP AND RIGHT", aliases: &["FORMS LIGHT ARC UP AND RIGHT"] },
        Codepoint { codepoint: 0x2571, name: "BOX DRAWINGS LIGHT DIAGONAL UPPER RIGHT TO LOWER LEFT", aliases: &["FORMS LIGHT DIAGONAL UPPER RIGHT TO LOWER LEFT"] },
        Codepoint { codepoint: 0x2572, name: "BOX DRAWINGS LIGHT DIAGONAL UPPER LEFT TO LOWER RIGHT", aliases: &["FORMS LIGHT DIAGONAL UPPER LEFT TO LOWER RIGHT"] },
        Codepoint { codepoint: 0x2573, name: "BOX DRAWINGS LIGHT DIAGONAL CROSS", aliases: &["FORMS LIGHT DIAGONAL CROSS"] },
        Codepoint { codepoint: 0x2574, name: "BOX DRAWINGS LIGHT LEFT", aliases: &["FORMS LIGHT LEFT"] },
        Codepoint { codepoint: 0x2575, name: "BOX DRAWINGS LIGHT UP", aliases: &["FORMS LIGHT UP"] },
        Codepoint { codepoint: 0x2576, name: "BOX DRAWINGS LIGHT RIGHT", aliases: &["FORMS LIGHT RIGHT"] },
        Codepoint { codepoint: 0x2577, name: "BOX DRAWINGS LIGHT DOWN", aliases: &["FORMS LIGHT DOWN"] },
        Codepoint { codepoint: 0x2578, name: "BOX DRAWINGS HEAVY LEFT", aliases: &["FORMS HEAVY LEFT"] },
        Codepoint { codepoint: 0x2579, name: "BOX DRAWINGS HEAVY UP", aliases: &["FORMS HEAVY UP"] },
        Codepoint { codepoint: 0x257A, name: "BOX DRAWINGS HEAVY RIGHT", aliases: &["FORMS HEAVY RIGHT"] },
        Codepoint { codepoint: 0x257B, name: "BOX DRAWINGS HEAVY DOWN", aliases: &["FORMS HEAVY DOWN"] },
        Codepoint { codepoint: 0x257C, name: "BOX DRAWINGS LIGHT LEFT AND HEAVY RIGHT", aliases: &["FORMS LIGHT LEFT AND HEAVY RIGHT"] },
        Codepoint { codepoint: 0x257D, name: "BOX DRAWINGS LIGHT UP AND HEAVY DOWN", aliases: &["FORMS LIGHT UP AND HEAVY DOWN"] },
        Codepoint { codepoint: 0x257E, name: "BOX DRAWINGS HEAVY LEFT AND LIGHT RIGHT", aliases: &["FORMS HEAVY LEFT AND LIGHT RIGHT"] },
        Codepoint { codepoint: 0x257F, name: "BOX DRAWINGS HEAVY UP AND LIGHT DOWN", aliases: &["FORMS HEAVY UP AND LIGHT DOWN"] },
        Codepoint { codepoint: 0x2580, name: "UPPER HALF BLOCK", aliases: &[] },
        Codepoint { codepoint: 0x2581, name: "LOWER ONE EIGHTH BLOCK", aliases: &[] },
        Codepoint { codepoint: 0x2582, name: "LOWER ONE QUARTER BLOCK", aliases: &[] },
        Codepoint { codepoint: 0x2583, name: "LOWER THREE EIGHTHS BLOCK", aliases: &[] },
        Codepoint { codepoint: 0x2584, name: "LOWER HALF BLOCK", aliases: &[] },
        Codepoint { codepoint: 0x2585, name: "LOWER FIVE EIGHTHS BLOCK", aliases: &[] },
    ];
    assert(v@ =~= codepoint_table_216());
    v
}

pub open spec fn codepoint_table_217() -> Seq<Codepoint> {
    seq![
        Codepoint { codepoint: 0x2586, name: "LOWER THREE QUARTERS BLOCK", aliases: &["LOWER THREE QUARTER BLOCK"] },
        Codepoint { codepoint: 0x2587, name: "LOWER SEVEN EIGHTHS BLOCK", aliases: &[] },
        Codepoint { codepoint: 0x2588, name: "FULL BLOCK", aliases: &[] },
        Codepoint { codepoint: 0x2589, name: "LEFT SEVEN EIGHTHS BLOCK", aliases: &[] },
        Codepoint { codepoint: 0x258A, name: "LEFT THREE QUARTERS BLOCK", aliases: &["LEFT THREE QUARTER BLOCK"] },
        Codepoint { codepoint: 0x258B, name: "LEFT FIVE EIGHTHS BLOCK", aliases: &[] },
        Codepoint { codepoint: 0x258C, name: "LEFT HALF BLOCK", aliases: &[] },
        Codepoint { codepoint: 0x258D, name: "LEFT THREE EIGHTHS BLOCK", aliases: &[] },
        Codepoint { codepoint: 0x258E, name: "LEFT ONE QUARTER BLOCK", aliases: &[] },
        Codepoint { codepoint: 0x258F, name: "LEFT ONE EIGHTH BLOCK", aliases: &[] },
        Codepoint { codepoint: 0x2590, name: "RIGHT HALF BLOCK", aliases: &[] },
        Codepoint { codepoint: 0x2591, name: "LIGHT SHADE", aliases: &[] },
        Codepoint { codepoint: 0x2592, name: "MEDIUM SHADE", aliases: &[] },
        Codepoint { codepoint: 0x2593, name: "DARK SHADE", aliases: &[] },
        Codepoint { codepoint: 0x2594, name: "UPPER ONE EIGHTH BLOCK", aliases: &[] },
        Codepoint { codepoint: 0x2595, name: "RIGHT ONE EIGHTH BLOCK", aliases: &[] },
        Codepoint { codepoint: 0x2596, name: "QUADRANT LOWER LEFT", aliases: &[] },
        Codepoint { codepoint: 0x2597, name: "QUADRANT LOWER RIGHT", aliases: &[] },
        Codepoint { codepoint: 0x2598, name: "QUADRANT UPPER LEFT", aliases: &[] },
        Codepoint { codepoint: 0x2599, name: "QUADRANT UPPER LEFT AND LOWER LEFT AND LOWER RIGHT", aliases: &[] },
        Codepoint { codepoint: 0x259A, name: "QUADRANT UPPER LEFT AND LOWER RIGHT", aliases: &[] },
        Codepoint { codepoint: 0x259B, name: "QUADRANT UPPER LEFT AND UPPER RIGHT AND LOWER LEFT", aliases: &[] },
        Codepoint { codepoint: 0x259C, name: "QUADRANT UPPER LEFT AND UPPER RIGHT AND LOWER RIGHT", aliases: &[] },
        Codepoint { codepoint: 0x259D, name: "QUADRANT UPPER RIGHT", aliases: &[] },
        Codepoint { codepoint: 0x259E, name: "QUADRANT UPPER RIGHT AND LOWER LEFT", aliases: &[] },
        Codepoint { codepoint: 0x259F, name: "QUADRANT UPPER RIGHT AND LOWER LEFT AND LOWER RIGHT", aliases: &[] },
        Codepoint { codepoint: 0x25A0, name: "BLACK SQUARE", aliases: &[] },
        Codepoint { codepoint: 0x25A1, name: "WHITE SQUARE", aliases: &[] },
        Codepoint { codepoint: 0x25A2, name: "WHITE SQUARE WITH ROUNDED CORNERS", aliases: &[] },
        Codepoint { codepoint: 0x25A3, name: "WHITE SQUARE CONTAINING BLACK SMALL SQUARE", aliases: &[] },
        Codepoint { codepoint: 0x25A4, name: "SQUARE WITH HORIZONTAL FILL", aliases: &[] },
        Codepoint { codepoint: 0x25A5, name: "SQUARE WITH VERTICAL FILL", aliases: &[] },
        Codepoint { codepoint: 0x25A6, name: "SQUARE WITH ORTHOGONAL CROSSHATCH FILL", aliases: &[] },
        Codepoint { codepoint: 0x25A7, name: "SQUARE WITH UPPER LEFT TO LOWER RIGHT FILL", aliases: &[] },
        Codepoint { codepoint: 0x25A8, name: "SQUARE WITH UPPER RIGHT TO LOWER LEFT FILL", aliases: &[] },
        Codepoint { codepoint: 0x25A9, name: "SQUARE WITH DIAGONAL CROSSHATCH FILL", aliases: &[] },
        Codepoint { codepoint: 0x25AA, name: "BLACK SMALL SQUARE", aliases: &[] },
        Codepoint { codepoint: 0x25AB, name: "WHITE SMALL SQUARE", aliases: &[] },
        Codepoint { codepoint: 0x25AC, name: "BLACK RECTANGLE", aliases: &[] },
        Codepoint { codepoint: 0x25AD, name: "WHITE RECTANGLE", aliases: &[] },
    ]
}

fn all_codepoints_217() -> (v: Vec<Codepoint>)
    ensures
        v@ == codepoint_table_217(),
{
    let v = vec![
        Codepoint { codepoint: 0x2586, name: "LOWER THREE QUARTERS BLOCK", aliases: &["LOWER THREE QUARTER BLOCK"] },
        Codepoint { codepoint: 0x2587, name: "LOWER SEVEN EIGHTHS BLOCK", aliases: &[] },
        Codepoint { codepoint: 0x2588, name: "FULL BLOCK", aliases: &[] },
        Codepoint { codepoint: 0x2589, name: "LEFT SEVEN EIGHTHS BLOCK", aliases: &[] },
        Codepoint { codepoint: 0x258A, name: "LEFT THREE QUARTERS BLOCK", aliases: &["LEFT THREE QUARTER BLOCK"] },
        Codepoint { codepoint: 0x258B, name: "LEFT FIVE EIGHTHS BLOCK", aliases: &[] },
        Codepoint { codepoint: 0x258C, name: "LEFT HALF BLOCK", aliases: &[] },
        Codepoint { codepoint: 0x258D, name: "LEFT THREE EIGHTHS BLOCK", aliases: &[] },
        Codepoint { codepoint: 0x258E, name: "LEFT ONE QUARTER BLOCK", aliases: &[] },
        Codepoint { codepoint: 0x258F, name: "LEFT ONE EIGHTH BLOCK", aliases: &[] },
        Codepoint { codepoint: 0x2590, name: "RIGHT HALF BLOCK", aliases: &[] },
        Codepoint { codepoint: 0x2591, name: "LIGHT SHADE", aliases: &[] },
        Codepoint { codepoint: 0x2592, name: "MEDIUM SHADE", aliases: &[] },
        Codepoint { codepoint: 0x2593, name: "DARK SHADE", aliases: &[] },
        Codepoint { codepoint: 0x2594, name: "UPPER ONE EIGHTH BLOCK", aliases: &[] },
        Codepoint { codepoint: 0x2595, name: "RIGHT ONE EIGHTH BLOCK", aliases: &[] },
        Codepoint { codepoint: 0x2596, name: "QUADRANT LOWER LEFT", aliases: &[] },
        Codepoint { codepoint: 0x2597, name: "QUADRANT LOWER RIGHT", aliases: &[] },
        Codepoint { codepoint: 0x2598, name: "QUADRANT UPPER LEFT", aliases: &[] },
        Codepoint { codepoint: 0x2599, name: "QUADRANT UPPER LEFT AND LOWER LEFT AND LOWER RIGHT", aliases: &[] },
        Codepoint { codepoint: 0x259A, name: "QUADRANT UPPER LEFT AND LOWER RIGHT", aliases: &[] },
        Codepoint { codepoint: 0x259B, name: "QUADRANT UPPER LEFT AND UPPER RIGHT AND LOWER LEFT", aliases: &[] },
        Codepoint { codepoint: 0x259C, name: "QUADRANT UPPER LEFT AND UPPER RIGHT AND LOWER RIGHT", aliases: &[] },
        Codepoint { codepoint: 0x259D, name: "QUADRANT UPPER RIGHT", aliases: &[] },
        Codepoint { codepoint: 0x259E, name: "QUADRANT UPPER RIGHT AND LOWER LEFT", aliases: &[] },
        Codepoint { codepoint: 0x259F, name: "QUADRANT UPPER RIGHT AND LOWER LEFT AND LOWER RIGHT", aliases: &[] },
        Codepoint { codepoint: 0x25A0, name: "BLACK SQUARE", aliases: &[] },
        Codepoint { codepoint: 0x25A1, name: "WHITE SQUARE", aliases: &[] },
        Codepoint { codepoint: 0x25A2, name: "WHITE SQUARE WITH ROUNDED CORNERS", aliases: &[] },
        Codepoint { codepoint: 0x25A3, name: "WHITE SQUARE CONTAINING BLACK SMALL SQUARE", aliases: &[] },
        Codepoint { codepoint: 0x25A4, name: "SQUARE WITH HORIZONTAL FILL", aliases: &[] },
        Codepoint { codepoint: 0x25A5, name: "SQUARE WITH VERTICAL FILL", aliases: &[] },
        Codepoint { codepoint: 0x25A6, name: "SQUARE WITH ORTHOGONAL CROSSHATCH FILL", aliases: &[] },
        Codepoint { codepoint: 0x25A7, name: "SQUARE WITH UPPER LEFT TO LOWER RIGHT FILL", aliases: &[] },
        Codepoint { codepoint: 0x25A8, name: "SQUARE WITH UPPER RIGHT TO LOWER LEFT FILL", aliases: &[] },
        Codepoint { codepoint: 0x25A9, name: "SQUARE WITH DIAGONAL CROSSHATCH FILL", aliases: &[] },
        Codepoint { codepoint: 0x25AA, name: "BLACK SMALL SQUARE", aliases: &[] },
        Codepoint { codepoint: 0x25AB, name: "WHITE SMALL SQUARE", aliases: &[] },
        Codepoint { codepoint: 0x25AC, name: "BLACK RECTANGLE", aliases: &[] },
        Codepoint { codepoint: 0x25AD, name: "WHITE RECTANGLE", aliases: &[] },
    ];
    assert(v@ =~= codepoint_table_217());
    v
}

pub open spec fn codepoint_table_218() -> Seq<Codepoint> {
    seq![
        Codepoint { codepoint: 0x25AE, name: "BLACK VERTICAL RECTANGLE", aliases: &[] },
        Codepoint { codepoint: 0x25AF, name: "WHITE VERTICAL RECTANGLE", aliases: &[] },
        Codepoint { codepoint: 0x25B0, name: "BLACK PARALLELOGRAM", aliases: &[] },
        Codepoint { codepoint: 0x25B1, name: "WHITE PARALLELOGRAM", aliases: &[] },
        Codepoint { codepoint: 0x25B2, name: "BLACK UP-POINTING TRIANGLE", aliases: &["BLACK UP POINTING TRIANGLE"] },
        Codepoint { codepoint: 0x25B3, name: "WHITE UP-POINTING TRIANGLE", aliases: &["WHITE UP POINTING TRIANGLE"] },
        Codepoint { codepoint: 0x25B4, name: "BLACK UP-POINTING SMALL TRIANGLE", aliases: &["BLACK UP POINTING SMALL TRIANGLE"] },
        Codepoint { codepoint: 0x25B5, name: "WHITE UP-POINTING SMALL TRIANGLE", aliases: &["WHITE UP POINTING SMALL TRIANGLE"] },
        Codepoint { codepoint: 0x25B6, name: "BLACK RIGHT-POINTING TRIANGLE", aliases: &["BLACK RIGHT POINTING TRIANGLE"] },
        Codepoint { codepoint: 0x25B7, name: "WHITE RIGHT-POINTING TRIANGLE", aliases: &["WHITE RIGHT POINTING TRIANGLE"] },
        Codepoint { codepoint: 0x25B8, name: "BLACK RIGHT-POINTING SMALL TRIANGLE", aliases: &["BLACK RIGHT POINTING SMALL TRIANGLE"] },
        Codepoint { codepoint: 0x25B9, name: "WHITE RIGHT-POINTING SMALL TRIANGLE", aliases: &["WHITE RIGHT POINTING SMALL TRIANGLE"] },
        Codepoint { codepoint: 0x25BA, name: "BLACK RIGHT-POINTING POINTER", aliases: &["BLACK RIGHT POINTING POINTER"] },
        Codepoint { codepoint: 0x25BB, name: "WHITE RIGHT-POINTING POINTER", aliases: &["WHITE RIGHT POINTING POINTER"] },
        Codepoint { codepoint: 0x25BC, name: "BLACK DOWN-POINTING TRIANGLE", aliases: &["BLACK DOWN POINTING TRIANGLE"] },
        Codepoint { codepoint: 0x25BD, name: "WHITE DOWN-POINTING TRIANGLE", aliases: &["WHITE DOWN POINTING TRIANGLE"] },
        Codepoint { codepoint: 0x25BE, name: "BLACK DOWN-POINTING SMALL TRIANGLE", aliases: &["BLACK DOWN POINTING SMALL TRIANGLE"] },
        Codepoint { codepoint: 0x25BF, name: "WHITE DOWN-POINTING SMALL TRIANGLE", aliases: &["WHITE DOWN POINTING SMALL TRIANGLE"] },
        Codepoint { codepoint: 0x25C0, name: "BLACK LEFT-POINTING TRIANGLE", aliases: &["BLACK LEFT POINTING TRIANGLE"] },
        Codepoint { codepoint: 0x25C1, name: "WHITE LEFT-POINTING TRIANGLE", aliases: &["WHITE LEFT POINTING TRIANGLE"] },
        Codepoint { codepoint: 0x25C2, name: "BLACK LEFT-POINTING SMALL TRIANGLE", aliases: &["BLACK LEFT POINTING SMALL TRIANGLE"] },
        Codepoint { codepoint: 0x25C3, name: "WHITE LEFT-POINTING SMALL TRIANGLE", aliases: &["WHITE LEFT POINTING SMALL TRIANGLE"] },
        Codepoint { codepoint: 0x25C4, name: "BLACK LEFT-POINTING POINTER", aliases: &["BLACK LEFT POINTING POINTER"] },
        Codepoint { codepoint: 0x25C5, name: "WHITE LEFT-POINTING POINTER", aliases: &["WHITE LEFT POINTING POINTER"] },
        Codepoint { codepoint: 0x25C6, name: "BLACK DIAMOND", aliases: &[] },
        Codepoint { codepoint: 0x25C7, name: "WHITE DIAMOND", aliases: &[] },
        Codepoint { codepoint: 0x25C8, name: "WHITE DIAMOND CONTAINING BLACK SMALL DIAMOND", aliases: &[] },
        Codepoint { codepoint: 0x25C9, name: "FISHEYE", aliases: &[] },
        Codepoint { codepoint: 0x25CA, name: "LOZENGE", aliases: &[] },
        Codepoint { codepoint: 0x25CB, name: "WHITE CIRCLE", aliases: &[] },
        Codepoint { codepoint: 0x25CC, name: "DOTTED CIRCLE", aliases: &[] },
        Codepoint { codepoint: 0x25CD, name: "CIRCLE WITH VERTICAL FILL", aliases: &[] },
        Codepoint { codepoint: 0x25CE, name: "BULLSEYE", aliases: &[] },
        Codepoint { codepoint: 0x25CF, name: "BLACK CIRCLE", aliases: &[] },
        Codepoint { codepoint: 0x25D0, name: "CIRCLE WITH LEFT HALF BLACK", aliases: &[] },
        Codepoint { codepoint: 0x25D1, name: "CIRCLE WITH RIGHT HALF BLACK", aliases: &[] },
        Codepoint { codepoint: 0x25D2, name: "CIRCLE WITH LOWER HALF BLACK", aliases: &[] },
        Codepoint { codepoint: 0x25D3, name: "CIRCLE WITH UPPER HALF BLACK", aliases: &[] },
        Codepoint { codepoint: 0x25D4, name: "CIRCLE WITH UPPER RIGHT QUADRANT BLACK", aliases: &[] },
        Codepoint { codepoint: 0x25D5, name: "CIRCLE WITH ALL BUT UPPER LEFT QUADRANT BLACK", aliases: &[] },
    ]
}

fn all_codepoints_218() -> (v: Vec<Codepoint>)
    ensures
        v@ == codepoint_table_218(),
{
    let v = vec![
        Codepoint { codepoint: 0x25AE, name: "BLACK VERTICAL RECTANGLE", aliases: &[] },
        Codepoint { codepoint: 0x25AF, name: "WHITE VERTICAL RECTANGLE", aliases: &[] },
        Codepoint { codepoint: 0x25B0, name: "BLACK PARALLELOGRAM", aliases: &[] },
        Codepoint { codepoint: 0x25B1, name: "WHITE PARALLELOGRAM", aliases: &[] },
        Codepoint { codepoint: 0x25B2, name: "BLACK UP-POINTING TRIANGLE", aliases: &["BLACK UP POINTING TRIANGLE"] },
        Codepoint { codepoint: 0x25B3, name: "WHITE UP-POINTING TRIANGLE", aliases: &["WHITE UP POINTING TRIANGLE"] },
        Codepoint { codepoint: 0x25B4, name: "BLACK UP-POINTING SMALL TRIANGLE", aliases: &["BLACK UP POINTING SMALL TRIANGLE"] },
        Codepoint { codepoint: 0x25B5, name: "WHITE UP-POINTING SMALL TRIANGLE", aliases: &["WHITE UP POINTING SMALL TRIANGLE"] },
        Codepoint { codepoint: 0x25B6, name: "BLACK RIGHT-POINTING TRIANGLE", aliases: &["BLACK RIGHT POINTING TRIANGLE"] },
        Codepoint { codepoint: 0x25B7, name: "WHITE RIGHT-POINTING TRIANGLE", aliases: &["WHITE RIGHT POINTING TRIANGLE"] },
        Codepoint { codepoint: 0x25B8, name: "BLACK RIGHT-POINTING SMALL TRIANGLE", aliases: &["BLACK RIGHT POINTING SMALL TRIANGLE"] },
        Codepoint { codepoint: 0x25B9, name: "WHITE RIGHT-POINTING SMALL TRIANGLE", aliases: &["WHITE RIGHT POINTING SMALL TRIANGLE"] },
        Codepoint { codepoint: 0x25BA, name: "BLACK RIGHT-POINTING POINTER", aliases: &["BLACK RIGHT POINTING POINTER"] },
        Codepoint { codepoint: 0x25BB, name: "WHITE RIGHT-POINTING POINTER", aliases: &["WHITE RIGHT POINTING POINTER"] },
        Codepoint { codepoint: 0x25BC, name: "BLACK DOWN-POINTING TRIANGLE", aliases: &["BLACK DOWN POINTING TRIANGLE"] },
        Codepoint { codepoint: 0x25BD, name: "WHITE DOWN-POINTING TRIANGLE", aliases: &["WHITE DOWN POINTING TRIANGLE"] },
        Codepoint { codepoint: 0x25BE, name: "BLACK DOWN-POINTING SMALL TRIANGLE", aliases: &["BLACK DOWN POINTING SMALL TRIANGLE"] },
        Codepoint { codepoint: 0x25BF, name: "WHITE DOWN-POINTING SMALL TRIANGLE", aliases: &["WHITE DOWN POINTING SMALL TRIANGLE"] },
        Codepoint { codepoint: 0x25C0, name: "BLACK LEFT-POINTING TRIANGLE", aliases: &["BLACK LEFT POINTING TRIANGLE"] },
        Codepoint { codepoint: 0x25C1, name: "WHITE LEFT-POINTING TRIANGLE", aliases: &["WHITE LEFT POINTING TRIANGLE"] },
        Codepoint { codepoint: 0x25C2, name: "BLACK LEFT-POINTING SMALL TRIANGLE", aliases: &["BLACK LEFT POINTING SMALL TRIANGLE"] },
        Codepoint { codepoint: 0x25C3, name: "WHITE LEFT-POINTING SMALL TRIANGLE", aliases: &["WHITE LEFT POINTING SMALL TRIANGLE"] },
        Codepoint { codepoint: 0x25C4, name: "BLACK LEFT-POINTING POINTER", aliases: &["BLACK LEFT POINTING POINTER"] },
        Codepoint { codepoint: 0x25C5, name: "WHITE LEFT-POINTING POINTER", aliases: &["WHITE LEFT POINTING POINTER"] },
        Codepoint { codepoint: 0x25C6, name: "BLACK DIAMOND", aliases: &[] },
        Codepoint { codepoint: 0x25C7, name: "WHITE DIAMOND", aliases: &[] },
        Codepoint { codepoint: 0x25C8, name: "WHITE DIAMOND CONTAINING BLACK SMALL DIAMOND", aliases: &[] },
        Codepoint { codepoint: 0x25C9, name: "FISHEYE", aliases: &[] },
        Codepoint { codepoint: 0x25CA, name: "LOZENGE", aliases: &[] },
        Codepoint { codepoint: 0x25CB, name: "WHITE CIRCLE", aliases: &[] },
        Codepoint { codepoint: 0x25CC, name: "DOTTED CIRCLE", aliases: &[] },
        Codepoint { codepoint: 0x25CD, name: "CIRCLE WITH VERTICAL FILL", aliases: &[] },
        Codepoint { codepoint: 0x25CE, name: "BULLSEYE", aliases: &[] },
        Codepoint { codepoint: 0x25CF, name: "BLACK CIRCLE", aliases: &[] },
        Codepoint { codepoint: 0x25D0, name: "CIRCLE WITH LEFT HALF BLACK", aliases: &[] },
        Codepoint { codepoint: 0x25D1, name: "CIRCLE WITH RIGHT HALF BLACK", aliases: &[] },
        Codepoint { codepoint: 0x25D2, name: "CIRCLE WITH LOWER HALF BLACK", aliases: &[] },
        Codepoint { codepoint: 0x25D3, name: "CIRCLE WITH UPPER HALF BLACK", aliases: &[] },
        Codepoint { codepoint: 0x25D4, name: "CIRCLE WITH UPPER RIGHT QUADRANT BLACK", aliases: &[] },
        Codepoint { codepoint: 0x25D5, name: "CIRCLE WITH ALL BUT UPPER LEFT QUADRANT BLACK", aliases: &[] },
    ];
    assert(v@ =~= codepoint_table_218());
    v
}

pub open spec fn codepoint_table_219() -> Seq<Codepoint> {
    seq![
        Codepoint { codepoint: 0x25D6, name: "LEFT HALF BLACK CIRCLE", aliases: &[] },
        Codepoint { codepoint: 0x25D7, name: "RIGHT HALF BLACK CIRCLE", aliases: &[] },
        Codepoint { codepoint: 0x25D8, name: "INVERSE BULLET", aliases: &[] },
        Codepoint { codepoint: 0x25D9, name: "INVERSE WHITE CIRCLE", aliases: &[] },
        Codepoint { codepoint: 0x25DA, name: "UPPER HALF INVERSE WHITE CIRCLE", aliases: &[] },
        Codepoint { codepoint: 0x25DB, name: "LOWER HALF INVERSE WHITE CIRCLE", aliases: &[] },
        Codepoint { codepoint: 0x25DC, name: "UPPER LEFT QUADRANT CIRCULAR ARC", aliases: &[] },
        Codepoint { codepoint: 0x25DD, name: "UPPER RIGHT QUADRANT CIRCULAR ARC", aliases: &[] },
        Codepoint { codepoint: 0x25DE, name: "LOWER RIGHT QUADRANT CIRCULAR ARC", aliases: &[] },
        Codepoint { codepoint: 0x25DF, name: "LOWER LEFT QUADRANT CIRCULAR ARC", aliases: &[] },
        Codepoint { codepoint: 0x25E0, name: "UPPER HALF CIRCLE", aliases: &[] },
        Codepoint { codepoint: 0x25E1, name: "LOWER HALF CIRCLE", aliases: &[] },
        Codepoint { codepoint: 0x25E2, name: "BLACK LOWER RIGHT TRIANGLE", aliases: &[] },
        Codepoint { codepoint: 0x25E3, name: "BLACK LOWER LEFT TRIANGLE", aliases: &[] },
        Codepoint { codepoint: 0x25E4, name: "BLACK UPPER LEFT TRIANGLE", aliases: &[] },
        Codepoint { codepoint: 0x25E5, name: "BLACK UPPER RIGHT TRIANGLE", aliases: &[] },
        Codepoint { codepoint: 0x25E6, name: "WHITE BULLET", aliases: &[] },
        Codepoint { codepoint: 0x25E7, name: "SQUARE WITH LEFT HALF BLACK", aliases: &[] },
        Codepoint { codepoint: 0x25E8, name: "SQUARE WITH RIGHT HALF BLACK", aliases: &[] },
        Codepoint { codepoint: 0x25E9, name: "SQUARE WITH UPPER LEFT DIAGONAL HALF BLACK", aliases: &[] },
        Codepoint { codepoint: 0x25EA, name: "SQUARE WITH LOWER RIGHT DIAGONAL HALF BLACK", aliases: &[] },
        Codepoint { codepoint: 0x25EB, name: "WHITE SQUARE WITH VERTICAL BISECTING LINE", aliases: &[] },
        Codepoint { codepoint: 0x25EC, name: "WHITE UP-POINTING TRIANGLE WITH DOT", aliases: &["WHITE UP POINTING TRIANGLE WITH DOT"] },
        Codepoint { codepoint: 0x25ED, name: "UP-POINTING TRIANGLE WITH LEFT HALF BLACK", aliases: &["UP POINTING TRIANGLE WITH LEFT HALF BLACK"] },
        Codepoint { codepoint: 0x25EE, name: "UP-POINTING TRIANGLE WITH RIGHT HALF BLACK", aliases: &["UP POINTING TRIANGLE WITH RIGHT HALF BLACK"] },
        Codepoint { codepoint: 0x25EF, name: "LARGE CIRCLE", aliases: &[] },
        Codepoint { codepoint: 0x25F0, name: "WHITE SQUARE WITH UPPER LEFT QUADRANT", aliases: &[] },
        Codepoint { codepoint: 0x25F1, name: "WHITE SQUARE WITH LOWER LEFT QUADRANT", aliases: &[] },
        Codepoint { codepoint: 0x25F2, name: "WHITE SQUARE WITH LOWER RIGHT QUADRANT", aliases: &[] },
        Codepoint { codepoint: 0x25F3, name: "WHITE SQUARE WITH UPPER RIGHT QUADRANT", aliases: &[] },
        Codepoint { codepoint: 0x25F4, name: "WHITE CIRCLE WITH UPPER LEFT QUADRANT", aliases: &[] },
        Codepoint { codepoint: 0x25F5, name: "WHITE CIRCLE WITH LOWER LEFT QUADRANT", aliases: &[] },
        Codepoint { codepoint: 0x25F6, name: "WHITE CIRCLE WITH LOWER RIGHT QUADRANT", aliases: &[] },
        Codepoint { codepoint: 0x25F7, name: "WHITE CIRCLE WITH UPPER RIGHT QUADRANT", aliases: &[] },
        Codepoint { codepoint: 0x25F8, name: "UPPER LEFT TRIANGLE", aliases: &[] },
        Codepoint { codepoint: 0x25F9, name: "UPPER RIGHT TRIANGLE", aliases: &[] },
        Codepoint { codepoint: 0x25FA, name: "LOWER LEFT TRIANGLE", aliases: &[] },
        Codepoint { codepoint: 0x25FB, name: "WHITE MEDIUM SQUARE", aliases: &[] },
        Codepoint { codepoint: 0x25FC, name: "BLACK MEDIUM SQUARE", aliases: &[] },
        Codepoint { codepoint: 0x25FD, name: "WHITE MEDIUM SMALL SQUARE", aliases: &[] },
    ]
}

fn all_codepoints_219() -> (v: Vec<Codepoint>)
    ensures
        v@ == codepoint_table_219(),
{
    let v = vec![
        Codepoint { codepoint: 0x25D6, name: "LEFT HALF BLACK CIRCLE", aliases: &[] },
        Codepoint { codepoint: 0x25D7, name: "RIGHT HALF BLACK CIRCLE", aliases: &[] },
        Codepoint { codepoint: 0x25D8, name: "INVERSE BULLET", aliases: &[] },
        Codepoint { codepoint: 0x25D9, name: "INVERSE WHITE CIRCLE", aliases: &[] },
        Codepoint { codepoint: 0x25DA, name: "UPPER HALF INVERSE WHITE CIRCLE", aliases: &[] },
        Codepoint { codepoint: 0x25DB, name: "LOWER HALF INVERSE WHITE CIRCLE", aliases: &[] },
        Codepoint { codepoint: 0x25DC, name: "UPPER LEFT QUADRANT CIRCULAR ARC", aliases: &[] },
        Codepoint { codepoint: 0x25DD, name: "UPPER RIGHT QUADRANT CIRCULAR ARC", aliases: &[] },
        Codepoint { codepoint: 0x25DE, name: "LOWER RIGHT QUADRANT CIRCULAR ARC", aliases: &[] },
        Codepoint { codepoint: 0x25DF, name: "LOWER LEFT QUADRANT CIRCULAR ARC", aliases: &[] },
        Codepoint { codepoint: 0x25E0, name: "UPPER HALF CIRCLE", aliases: &[] },
        Codepoint { codepoint: 0x25E1, name: "LOWER HALF CIRCLE", aliases: &[] },
        Codepoint { codepoint: 0x25E2, name: "BLACK LOWER RIGHT TRIANGLE", aliases: &[] },
        Codepoint { codepoint: 0x25E3, name: "BLACK LOWER LEFT TRIANGLE", aliases: &[] },
        Codepoint { codepoint: 0x25E4, name: "BLACK UPPER LEFT TRIANGLE", aliases: &[] },
        Codepoint { codepoint: 0x25E5, name: "BLACK UPPER RIGHT TRIANGLE", aliases: &[] },
        Codepoint { codepoint: 0x25E6, name: "WHITE BULLET", aliases: &[] },
        Codepoint { codepoint: 0x25E7, name: "SQUARE WITH LEFT HALF BLACK", aliases: &[] },
        Codepoint { codepoint: 0x25E8, name: "SQUARE WITH RIGHT HALF BLACK", aliases: &[] },
        Codepoint { codepoint: 0x25E9, name: "SQUARE WITH UPPER LEFT DIAGONAL HALF BLACK", aliases: &[] },
        Codepoint { codepoint: 0x25EA, name: "SQUARE WITH LOWER RIGHT DIAGONAL HALF BLACK", aliases: &[] },
        Codepoint { codepoint: 0x25EB, name: "WHITE SQUARE WITH VERTICAL BISECTING LINE", aliases: &[] },
        Codepoint { codepoint: 0x25EC, name: "WHITE UP-POINTING TRIANGLE WITH DOT", aliases: &["WHITE UP POINTING TRIANGLE WITH DOT"] },
        Codepoint { codepoint: 0x25ED, name: "UP-POINTING TRIANGLE WITH LEFT HALF BLACK", aliases: &["UP POINTING TRIANGLE WITH LEFT HALF BLACK"] },
        Codepoint { codepoint: 0x25EE, name: "UP-POINTING TRIANGLE WITH RIGHT HALF BLACK", aliases: &["UP POINTING TRIANGLE WITH RIGHT HALF BLACK"] },
        Codepoint { codepoint: 0x25EF, name: "LARGE CIRCLE", aliases: &[] },
        Codepoint { codepoint: 0x25F0, name: "WHITE SQUARE WITH UPPER LEFT QUADRANT", aliases: &[] },
        Codepoint { codepoint: 0x25F1, name: "WHITE SQUARE WITH LOWER LEFT QUADRANT", aliases: &[] },
        Codepoint { codepoint: 0x25F2, name: "WHITE SQUARE WITH LOWER RIGHT QUADRANT", aliases: &[] },
        Codepoint { codepoint: 0x25F3, name: "WHITE SQUARE WITH UPPER RIGHT QUADRANT", aliases: &[] },
        Codepoint { codepoint: 0x25F4, name: "WHITE CIRCLE WITH UPPER LEFT QUADRANT", aliases: &[] },
        Codepoint { codepoint: 0x25F5, name: "WHITE CIRCLE WITH LOWER LEFT QUADRANT", aliases: &[] },
        Codepoint { codepoint: 0x25F6, name: "WHITE CIRCLE WITH LOWER RIGHT QUADRANT", aliases: &[] },
        Codepoint { codepoint: 0x25F7, name: "WHITE CIRCLE WITH UPPER RIGHT QUADRANT", aliases: &[] },
        Codepoint { codepoint: 0x25F8, name: "UPPER LEFT TRIANGLE", aliases: &[] },
        Codepoint { codepoint: 0x25F9, name: "UPPER RIGHT TRIANGLE", aliases: &[] },
        Codepoint { codepoint: 0x25FA, name: "LOWER LEFT TRIANGLE", aliases: &[] },
        Codepoint { codepoint: 0x25FB, name: "WHITE MEDIUM SQUARE", aliases: &[] },
        Codepoint { codepoint: 0x25FC, name: "BLACK MEDIUM SQUARE", aliases: &[] },
        Codepoint { codepoint: 0x25FD, name: "WHITE MEDIUM SMALL SQUARE", aliases: &[] },
    ];
    assert(v@ =~= codepoint_table_219());
    v
}

/// The entries from position 8000 of the table, 800 at most.
pub open spec fn codepoint_group_10() -> Seq<Codepoint> {
    codepoint_table_200() + codepoint_table_201() + codepoint_table_202() + codepoint_table_203() + codepoint_table_204() + codepoint_table_205() + codepoint_table_206() + codepoint_table_207() + codepoint_table_208() + codepoint_table_209() + codepoint_table_210() + codepoint_table_211() + codepoint_table_212() + codepoint_table_213() + codepoint_table_214() + codepoint_table_215() + codepoint_table_216() + codepoint_table_217() + codepoint_table_218() + codepoint_table_219()
}

pub fn all_codepoints_group_10() -> (v: Vec<Codepoint>)
    ensures
        v@ == codepoint_group_10(),
{
    let mut v = all_codepoints_200();
    let mut part = all_codepoints_201();
    v.append(&mut part);
    let mut part = all_codepoints_202();
    v.append(&mut part);
    let mut part = all_codepoints_203();
    v.append(&mut part);
    let mut part = all_codepoints_204();
    v.append(&mut part);
    let mut part = all_codepoints_205();
    v.append(&mut part);
    let mut part = all_codepoints_206();
    v.append(&mut part);
    let mut part = all_codepoints_207();
    v.append(&mut part);
    let mut part = all_codepoints_208();
    v.append(&mut part);
    let mut part = all_codepoints_209();
    v.append(&mut part);
    let mut part = all_codepoints_210();
    v.append(&mut part);
    let mut part = all_codepoints_211();
    v.append(&mut part);
    let mut part = all_codepoints_212();
    v.append(&mut part);
    let mut part = all_codepoints_213();
    v.append(&mut part);
    let mut part = all_codepoints_214();
    v.append(&mut part);
    let mut part = all_codepoints_215();
    v.append(&mut part);
    let mut part = all_codepoints_216();
    v.append(&mut part);
    let mut part = all_codepoints_217();
    v.append(&mut part);
    let mut part = all_codepoints_218();
    v.append(&mut part);
    let mut part = all_codepoints_219();
    v.append(&mut part);
    v
}

pub open spec fn codepoint_table_220() -> Seq<Codepoint> {
    seq![
        Codepoint { codepoint: 0x25FE, name: "BLACK MEDIUM SMALL SQUARE", aliases: &[] },
        Codepoint { codepoint: 0x25FF, name: "LOWER RIGHT TRIANGLE", aliases: &[] },
        Codepoint { codepoint: 0x2600, name: "BLACK SUN WITH RAYS", aliases: &[] },
        Codepoint { codepoint: 0x2601, name: "CLOUD", aliases: &[] },
        Codepoint { codepoint: 0x2602, name: "UMBRELLA", aliases: &[] },
        Codepoint { codepoint: 0x2603, name: "SNOWMAN", aliases: &[] },
        Codepoint { codepoint: 0x2604, name: "COMET", aliases: &[] },
        Codepoint { codepoint: 0x2605, name: "BLACK STAR", aliases: &[] },
        Codepoint { codepoint: 0x2606, name: "WHITE STAR", aliases: &[] },
        Codepoint { codepoint: 0x2607, name: "LIGHTNING", aliases: &[] },
        Codepoint { codepoint: 0x2608, name: "THUNDERSTORM", aliases: &[] },
        Codepoint { codepoint: 0x2609, name: "SUN", aliases: &[] },
        Codepoint { codepoint: 0x260A, name: "ASCENDING NODE", aliases: &[] },
        Codepoint { codepoint: 0x260B, name: "DESCENDING NODE", aliases: &[] },
        Codepoint { codepoint: 0x260C, name: "CONJUNCTION", aliases: &[] },
        Codepoint { codepoint: 0x260D, name: "OPPOSITION", aliases: &[] },
        Codepoint { codepoint: 0x260E, name: "BLACK TELEPHONE", aliases: &[] },
        Codepoint { codepoint: 0x260F, name: "WHITE TELEPHONE", aliases: &[] },
        Codepoint { codepoint: 0x2610, name: "BALLOT BOX", aliases: &[] },
        Codepoint { codepoint: 0x2611, name: "BALLOT BOX WITH CHECK", aliases: &[] },
        Codepoint { codepoint: 0x2612, name: "BALLOT BOX WITH X", aliases: &[] },
        Codepoint { codepoint: 0x2613, name: "SALTIRE", aliases: &[] },
        Codepoint { codepoint: 0x2614, name: "UMBRELLA WITH RAIN DROPS", aliases: &[] },
        Codepoint { codepoint: 0x2615, name: "HOT BEVERAGE", aliases: &[] },
        Codepoint { codepoint: 0x2616, name: "WHITE SHOGI PIECE", aliases: &[] },
        Codepoint { codepoint: 0x2617, name: "BLACK SHOGI PIECE", aliases: &[] },
        Codepoint { codepoint: 0x2618, name: "SHAMROCK", aliases: &[] },
        Codepoint { codepoint: 0x2619, name: "REVERSED ROTATED FLORAL HEART BULLET", aliases: &[] },
        Codepoint { codepoint: 0x261A, name: "BLACK LEFT POINTING INDEX", aliases: &[] },
        Codepoint { codepoint: 0x261B, name: "BLACK RIGHT POINTING INDEX", aliases: &[] },
        Codepoint { codepoint: 0x261C, name: "WHITE LEFT POINTING INDEX", aliases: &[] },
        Codepoint { codepoint: 0x261D, name: "WHITE UP POINTING INDEX", aliases: &[] },
        Codepoint { codepoint: 0x261E, name: "WHITE RIGHT POINTING INDEX", aliases: &[] },
        Codepoint { codepoint: 0x261F, name: "WHITE DOWN POINTING INDEX", aliases: &[] },
        Codepoint { codepoint: 0x2620, name: "SKULL AND CROSSBONES", aliases: &[] },
        Codepoint { codepoint: 0x2621, name: "CAUTION SIGN", aliases: &[] },
        Codepoint { codepoint: 0x2622, name: "RADIOACTIVE SIGN", aliases: &[] },
        Codepoint { codepoint: 0x2623, name: "BIOHAZARD SIGN", aliases: &[] },
        Codepoint { codepoint: 0x2624, name: "CADUCEUS", aliases: &[] },
        Codepoint { codepoint: 0x2625, name: "ANKH", aliases: &[] },
    ]
}

fn all_codepoints_220() -> (v: Vec<Codepoint>)
    ensures
        v@ == codepoint_table_220(),
{
    let v = vec![
        Codepoint { codepoint: 0x25FE, name: "BLACK MEDIUM SMALL SQUARE", aliases: &[] },
        Codepoint { codepoint: 0x25FF, name: "LOWER RIGHT TRIANGLE", aliases: &[] },
        Codepoint { codepoint: 0x2600, name: "BLACK SUN WITH RAYS", aliases: &[] },
        Codepoint { codepoint: 0x2601, name: "CLOUD", aliases: &[] },
        Codepoint { codepoint: 0x2602, name: "UMBRELLA", aliases: &[] },
        Codepoint { codepoint: 0x2603, name: "SNOWMAN", aliases: &[] },
        Codepoint { codepoint: 0x2604, name: "COMET", aliases: &[] },
        Codepoint { codepoint: 0x2605, name: "BLACK STAR", aliases: &[] },
        Codepoint { codepoint: 0x2606, name: "WHITE STAR", aliases: &[] },
        Codepoint { codepoint: 0x2607, name: "LIGHTNING", aliases: &[] },
        Codepoint { codepoint: 0x2608, name: "THUNDERSTORM", aliases: &[] },
        Codepoint { codepoint: 0x2609, name: "SUN", aliases: &[] },
        Codepoint { codepoint: 0x260A, name: "ASCENDING NODE", aliases: &[] },
        Codepoint { codepoint: 0x260B, name: "DESCENDING NODE", aliases: &[] },
        Codepoint { codepoint: 0x260C, name: "CONJUNCTION", aliases: &[] },
        Codepoint { codepoint: 0x260D, name: "OPPOSITION", aliases: &[] },
        Codepoint { codepoint: 0x260E, name: "BLACK TELEPHONE", aliases: &[] },
        Codepoint { codepoint: 0x260F, name: "WHITE TELEPHONE", aliases: &[] },
        Codepoint { codepoint: 0x2610, name: "BALLOT BOX", aliases: &[] },
        Codepoint { codepoint: 0x2611, name: "BALLOT BOX WITH CHECK", aliases: &[] },
        Codepoint { codepoint: 0x2612, name: "BALLOT BOX WITH X", aliases: &[] },
        Codepoint { codepoint: 0x2613, name: "SALTIRE", aliases: &[] },
        Codepoint { codepoint: 0x2614, name: "UMBRELLA WITH RAIN DROPS", aliases: &[] },
        Codepoint { codepoint: 0x2615, name: "HOT BEVERAGE", aliases: &[] },
        Codepoint { codepoint: 0x2616, name: "WHITE SHOGI PIECE", aliases: &[] },
        Codepoint { codepoint: 0x2617, name: "BLACK SHOGI PIECE", aliases: &[] },
        Codepoint { codepoint: 0x2618, name: "SHAMROCK", aliases: &[] },
        Codepoint { codepoint: 0x2619, name: "REVERSED ROTATED FLORAL HEART BULLET", aliases: &[] },
        Codepoint { codepoint: 0x261A, name: "BLACK LEFT POINTING INDEX", aliases: &[] },
        Codepoint { codepoint: 0x261B, name: "BLACK RIGHT POINTING INDEX", aliases: &[] },
        Codepoint { codepoint: 0x261C, name: "WHITE LEFT POINTING INDEX", aliases: &[] },
        Codepoint { codepoint: 0x261D, name: "WHITE UP POINTING INDEX", aliases: &[] },
        Codepoint { codepoint: 0x261E, name: "WHITE RIGHT POINTING INDEX", aliases: &[] },
        Codepoint { codepoint: 0x261F, name: "WHITE DOWN POINTING INDEX", aliases: &[] },
        Codepoint { codepoint: 0x2620, name: "SKULL AND CROSSBONES", aliases: &[] },
        Codepoint { codepoint: 0x2621, name: "CAUTION SIGN", aliases: &[] },
        Codepoint { codepoint: 0x2622, name: "RADIOACTIVE SIGN", aliases: &[] },
        Codepoint { codepoint: 0x2623, name: "BIOHAZARD SIGN", aliases: &[] },
        Codepoint { codepoint: 0x2624, name: "CADUCEUS", aliases: &[] },
        Codepoint { codepoint: 0x2625, name: "ANKH", aliases: &[] },
    ];
    assert(v@ =~= codepoint_table_220());
    v
}

pub open spec fn codepoint_table_221() -> Seq<Codepoint> {
    seq![
        Codepoint { codepoint: 0x2626, name: "ORTHODOX CROSS", aliases: &[] },
        Codepoint { codepoint: 0x2627, name: "CHI RHO", aliases: &[] },
        Codepoint { codepoint: 0x2628, name: "CROSS OF LORRAINE", aliases: &[] },
        Codepoint { codepoint: 0x2629, name: "CROSS OF JERUSALEM", aliases: &[] },
        Codepoint { codepoint: 0x262A, name: "STAR AND CRESCENT", aliases: &[] },
        Codepoint { codepoint: 0x262B, name: "FARSI SYMBOL", aliases: &["SYMBOL OF IRAN"] },
        Codepoint { codepoint: 0x262C, name: "ADI SHAKTI", aliases: &[] },
        Codepoint { codepoint: 0x262D, name: "HAMMER AND SICKLE", aliases: &[] },
        Codepoint { codepoint: 0x262E, name: "PEACE SYMBOL", aliases: &[] },
        Codepoint { codepoint: 0x262F, name: "YIN YANG", aliases: &[] },
        Codepoint { codepoint: 0x2630, name: "TRIGRAM FOR HEAVEN", aliases: &[] },
        Codepoint { codepoint: 0x2631, name: "TRIGRAM FOR LAKE", aliases: &[] },
        Codepoint { codepoint: 0x2632, name: "TRIGRAM FOR FIRE", aliases: &[] },
        Codepoint { codepoint: 0x2633, name: "TRIGRAM FOR THUNDER", aliases: &[] },
        Codepoint { codepoint: 0x2634, name: "TRIGRAM FOR WIND", aliases: &[] },
        Codepoint { codepoint: 0x2635, name: "TRIGRAM FOR WATER", aliases: &[] },
        Codepoint { codepoint: 0x2636, name: "TRIGRAM FOR MOUNTAIN", aliases: &[] },
        Codepoint { codepoint: 0x2637, name: "TRIGRAM FOR EARTH", aliases: &[] },
        Codepoint { codepoint: 0x2638, name: "WHEEL OF DHARMA", aliases: &[] },
        Codepoint { codepoint: 0x2639, name: "WHITE FROWNING FACE", aliases: &[] },
        Codepoint { codepoint: 0x263A, name: "WHITE SMILING FACE", aliases: &[] },
        Codepoint { codepoint: 0x263B, name: "BLACK SMILING FACE", aliases: &[] },
        Codepoint { codepoint: 0x263C, name: "WHITE SUN WITH RAYS", aliases: &[] },
        Codepoint { codepoint: 0x263D, name: "FIRST QUARTER MOON", aliases: &[] },
        Codepoint { codepoint: 0x263E, name: "LAST QUARTER MOON", aliases: &[] },
        Codepoint { codepoint: 0x263F, name: "MERCURY", aliases: &[] },
        Codepoint { codepoint: 0x2640, name: "FEMALE SIGN", aliases: &[] },
        Codepoint { codepoint: 0x2641, name: "EARTH", aliases: &[] },
        Codepoint { codepoint: 0x2642, name: "MALE SIGN", aliases: &[] },
        Codepoint { codepoint: 0x2643, name: "JUPITER", aliases: &[] },
        Codepoint { codepoint: 0x2644, name: "SATURN", aliases: &[] },
        Codepoint { codepoint: 0x2645, name: "URANUS", aliases: &[] },
        Codepoint { codepoint: 0x2646, name: "NEPTUNE", aliases: &[] },
        Codepoint { codepoint: 0x2647, name: "PLUTO", aliases: &[] },
        Codepoint { codepoint: 0x2648, name: "ARIES", aliases: &[] },
        Codepoint { codepoint: 0x2649, name: "TAURUS", aliases: &[] },
        Codepoint { codepoint: 0x264A, name: "GEMINI", aliases: &[] },
        Codepoint { codepoint: 0x264B, name: "CANCER", aliases: &[] },
        Codepoint { codepoint: 0x264C, name: "LEO", aliases: &[] },
        Codepoint { codepoint: 0x264D, name: "VIRGO", aliases: &[] },
    ]
}

fn all_codepoints_221() -> (v: Vec<Codepoint>)
    ensures
        v@ == codepoint_table_221(),
{
    let v = vec![
        Codepoint { codepoint: 0x2626, name: "ORTHODOX CROSS", aliases: &[] },
        Codepoint { codepoint: 0x2627, name: "CHI RHO", aliases: &[] },
        Codepoint { codepoint: 0x2628, name: "CROSS OF LORRAINE", aliases: &[] },
        Codepoint { codepoint: 0x2629, name: "CROSS OF JERUSALEM", aliases: &[] },
        Codepoint { codepoint: 0x262A, name: "STAR AND CRESCENT", aliases: &[] },
        Codepoint { codepoint: 0x262B, name: "FARSI SYMBOL", aliases: &["SYMBOL OF IRAN"] },
        Codepoint { codepoint: 0x262C, name: "ADI SHAKTI", aliases: &[] },
        Codepoint { codepoint: 0x262D, name: "HAMMER AND SICKLE", aliases: &[] },
        Codepoint { codepoint: 0x262E, name: "PEACE SYMBOL", aliases: &[] },
        Codepoint { codepoint: 0x262F, name: "YIN YANG", aliases: &[] },
        Codepoint { codepoint: 0x2630, name: "TRIGRAM FOR HEAVEN", aliases: &[] },
        Codepoint { codepoint: 0x2631, name: "TRIGRAM FOR LAKE", aliases: &[] },
        Codepoint { codepoint: 0x2632, name: "TRIGRAM FOR FIRE", aliases: &[] },
        Codepoint { codepoint: 0x2633, name: "TRIGRAM FOR THUNDER", aliases: &[] },
        Codepoint { codepoint: 0x2634, name: "TRIGRAM FOR WIND", aliases: &[] },
        Codepoint { codepoint: 0x2635, name: "TRIGRAM FOR WATER", aliases: &[] },
        Codepoint { codepoint: 0x2636, name: "TRIGRAM FOR MOUNTAIN", aliases: &[] },
        Codepoint { codepoint: 0x2637, name: "TRIGRAM FOR EARTH", aliases: &[] },
        Codepoint { codepoint: 0x2638, name: "WHEEL OF DHARMA", aliases: &[] },
        Codepoint { codepoint: 0x2639, name: "WHITE FROWNING FACE", aliases: &[] },
        Codepoint { codepoint: 0x263A, name: "WHITE SMILING FACE", aliases: &[] },
        Codepoint { codepoint: 0x263B, name: "BLACK SMILING FACE", aliases: &[] },
        Codepoint { codepoint: 0x263C, name: "WHITE SUN WITH RAYS", aliases: &[] },
        Codepoint { codepoint: 0x263D, name: "FIRST QUARTER MOON", aliases: &[] },
        Codepoint { codepoint: 0x263E, name: "LAST QUARTER MOON", aliases: &[] },
        Codepoint { codepoint: 0x263F, name: "MERCURY", aliases: &[] },
        Codepoint { codepoint: 0x2640, name: "FEMALE SIGN", aliases: &[] },
        Codepoint { codepoint: 0x2641, name: "EARTH", aliases: &[] },
        Codepoint { codepoint: 0x2642, name: "MALE SIGN", aliases: &[] },
        Codepoint { codepoint: 0x2643, name: "JUPITER", aliases: &[] },
        Codepoint { codepoint: 0x2644, name: "SATURN", aliases: &[] },
        Codepoint { codepoint: 0x2645, name: "URANUS", aliases: &[] },
        Codepoint { codepoint: 0x2646, name: "NEPTUNE", aliases: &[] },
        Codepoint { codepoint: 0x2647, name: "PLUTO", aliases: &[] },
        Codepoint { codepoint: 0x2648, name: "ARIES", aliases: &[] },
        Codepoint { codepoint: 0x2649, name: "TAURUS", aliases: &[] },
        Codepoint { codepoint: 0x264A, name: "GEMINI", aliases: &[] },
        Codepoint { codepoint: 0x264B, name: "CANCER", aliases: &[] },
        Codepoint { codepoint: 0x264C, name: "LEO", aliases: &[] },
        Codepoint { codepoint: 0x264D, name: "VIRGO", aliases: &[] },
    ];
    assert(v@ =~= codepoint_table_221());
    v
}

pub open spec fn codepoint_table_222() -> Seq<Codepoint> {
    seq![
        Codepoint { codepoint: 0x264E, name: "LIBRA", aliases: &[] },
        Codepoint { codepoint: 0x264F, name: "SCORPIUS", aliases: &[] },
        Codepoint { codepoint: 0x2650, name: "SAGITTARIUS", aliases: &[] },
        Codepoint { codepoint: 0x2651, name: "CAPRICORN", aliases: &[] },
        Codepoint { codepoint: 0x2652, name: "AQUARIUS", aliases: &[] },
        Codepoint { codepoint: 0x2653, name: "PISCES", aliases: &[] },
        Codepoint { codepoint: 0x2654, name: "WHITE CHESS KING", aliases: &[] },
        Codepoint { codepoint: 0x2655, name: "WHITE CHESS QUEEN", aliases: &[] },
        Codepoint { codepoint: 0x2656, name: "WHITE CHESS ROOK", aliases: &[] },
        Codepoint { codepoint: 0x2657, name: "WHITE CHESS BISHOP", aliases: &[] },
        Codepoint { codepoint: 0x2658, name: "WHITE CHESS KNIGHT", aliases: &[] },
        Codepoint { codepoint: 0x2659, name: "WHITE CHESS PAWN", aliases: &[] },
        Codepoint { codepoint: 0x265A, name: "BLACK CHESS KING", aliases: &[] },
        Codepoint { codepoint: 0x265B, name: "BLACK CHESS QUEEN", aliases: &[] },
        Codepoint { codepoint: 0x265C, name: "BLACK CHESS ROOK", aliases: &[] },
        Codepoint { codepoint: 0x265D, name: "BLACK CHESS BISHOP", aliases: &[] },
        Codepoint { codepoint: 0x265E, name: "BLACK CHESS KNIGHT", aliases: &[] },
        Codepoint { codepoint: 0x265F, name: "BLACK CHESS PAWN", aliases: &[] },
        Codepoint { codepoint: 0x2660, name: "BLACK SPADE SUIT", aliases: &[] },
        Codepoint { codepoint: 0x2661, name: "WHITE HEART SUIT", aliases: &[] },
        Codepoint { codepoint: 0x2662, name: "WHITE DIAMOND SUIT", aliases: &[] },
        Codepoint { codepoint: 0x2663, name: "BLACK CLUB SUIT", aliases: &[] },
        Codepoint { codepoint: 0x2664, name: "WHITE SPADE SUIT", aliases: &[] },
        Codepoint { codepoint: 0x2665, name: "BLACK HEART SUIT", aliases: &[] },
        Codepoint { codepoint: 0x2666, name: "BLACK DIAMOND SUIT", aliases: &[] },
        Codepoint { codepoint: 0x2667, name: "WHITE CLUB SUIT", aliases: &[] },
        Codepoint { codepoint: 0x2668, name: "HOT SPRINGS", aliases: &[] },
        Codepoint { codepoint: 0x2669, name: "QUARTER NOTE", aliases: &[] },
        Codepoint { codepoint: 0x266A, name: "EIGHTH NOTE", aliases: &[] },
        Codepoint { codepoint: 0x266B, name: "BEAMED EIGHTH NOTES", aliases: &["BARRED EIGHTH NOTES"] },
        Codepoint { codepoint: 0x266C, name: "BEAMED SIXTEENTH NOTES", aliases: &["BARRED SIXTEENTH NOTES"] },
        Codepoint { codepoint: 0x266D, name: "MUSIC FLAT SIGN", aliases: &["FLAT"] },
        Codepoint { codepoint: 0x266E, name: "MUSIC NATURAL SIGN", aliases: &["NATURAL"] },
        Codepoint { codepoint: 0x266F, name: "MUSIC SHARP SIGN", aliases: &["SHARP"] },
        Codepoint { codepoint: 0x2670, name: "WEST SYRIAC CROSS", aliases: &[] },
        Codepoint { codepoint: 0x2671, name: "EAST SYRIAC CROSS", aliases: &[] },
        Codepoint { codepoint: 0x2672, name: "UNIVERSAL RECYCLING SYMBOL", aliases: &[] },
        Codepoint { codepoint: 0x2673, name: "RECYCLING SYMBOL FOR TYPE-1 PLASTICS", aliases: &[] },
        Codepoint { codepoint: 0x2674, name: "RECYCLING SYMBOL FOR TYPE-2 PLASTICS", aliases: &[] },
        Codepoint { codepoint: 0x2675, name: "RECYCLING SYMBOL FOR TYPE-3 PLASTICS", aliases: &[] },
    ]
}

fn all_codepoints_222() -> (v: Vec<Codepoint>)
    ensures
        v@ == codepoint_table_222(),
{
    let v = vec![
        Codepoint { codepoint: 0x264E, name: "LIBRA", aliases: &[] },
        Codepoint { codepoint: 0x264F, name: "SCORPIUS", aliases: &[] },
        Codepoint { codepoint: 0x2650, name: "SAGITTARIUS", aliases: &[] },
        Codepoint { codepoint: 0x2651, name: "CAPRICORN", aliases: &[] },
        Codepoint { codepoint: 0x2652, name: "AQUARIUS", aliases: &[] },
        Codepoint { codepoint: 0x2653, name: "PISCES", aliases: &[] },
        Codepoint { codepoint: 0x2654, name: "WHITE CHESS KING", aliases: &[] },
        Codepoint { codepoint: 0x2655, name: "WHITE CHESS QUEEN", aliases: &[] },
        Codepoint { codepoint: 0x2656, name: "WHITE CHESS ROOK", aliases: &[] },
        Codepoint { codepoint: 0x2657, name: "WHITE CHESS BISHOP", aliases: &[] },
        Codepoint { codepoint: 0x2658, name: "WHITE CHESS KNIGHT", aliases: &[] },
        Codepoint { codepoint: 0x2659, name: "WHITE CHESS PAWN", aliases: &[] },
        Codepoint { codepoint: 0x265A, name: "BLACK CHESS KING", aliases: &[] },
        Codepoint { codepoint: 0x265B, name: "BLACK CHESS QUEEN", aliases: &[] },
        Codepoint { codepoint: 0x265C, name: "BLACK CHESS ROOK", aliases: &[] },
        Codepoint { codepoint: 0x265D, name: "BLACK CHESS BISHOP", aliases: &[] },
        Codepoint { codepoint: 0x265E, name: "BLACK CHESS KNIGHT", aliases: &[] },
        Codepoint { codepoint: 0x265F, name: "BLACK CHESS PAWN", aliases: &[] },
        Codepoint { codepoint: 0x2660, name: "BLACK SPADE SUIT", aliases: &[] },
        Codepoint { codepoint: 0x2661, name: "WHITE HEART SUIT", aliases: &[] },
        Codepoint { codepoint: 0x2662, name: "WHITE DIAMOND SUIT", aliases: &[] },
        Codepoint { codepoint: 0x2663, name: "BLACK CLUB SUIT", aliases: &[] },
        Codepoint { codepoint: 0x2664, name: "WHITE SPADE SUIT", aliases: &[] },
        Codepoint { codepoint: 0x2665, name: "BLACK HEART SUIT", aliases: &[] },
        Codepoint { codepoint: 0x2666, name: "BLACK DIAMOND SUIT", aliases: &[] },
        Codepoint { codepoint: 0x2667, name: "WHITE CLUB SUIT", aliases: &[] },
        Codepoint { codepoint: 0x2668, name: "HOT SPRINGS", aliases: &[] },
        Codepoint { codepoint: 0x2669, name: "QUARTER NOTE", aliases: &[] },
        Codepoint { codepoint: 0x266A, name: "EIGHTH NOTE", aliases: &[] },
        Codepoint { codepoint: 0x266B, name: "BEAMED EIGHTH NOTES", aliases: &["BARRED EIGHTH NOTES"] },
        Codepoint { codepoint: 0x266C, name: "BEAMED SIXTEENTH NOTES", aliases: &["BARRED SIXTEENTH NOTES"] },
        Codepoint { codepoint: 0x266D, name: "MUSIC FLAT SIGN", aliases: &["FLAT"] },
        Codepoint { codepoint: 0x266E, name: "MUSIC NATURAL SIGN", aliases: &["NATURAL"] },
        Codepoint { codepoint: 0x266F, name: "MUSIC SHARP SIGN", aliases: &["SHARP"] },
        Codepoint { codepoint: 0x2670, name: "WEST SYRIAC CROSS", aliases: &[] },
        Codepoint { codepoint: 0x2671, name: "EAST SYRIAC CROSS", aliases: &[] },
        Codepoint { codepoint: 0x2672, name: "UNIVERSAL RECYCLING SYMBOL", aliases: &[] },
        Codepoint { codepoint: 0x2673, name: "RECYCLING SYMBOL FOR TYPE-1 PLASTICS", aliases: &[] },
        Codepoint { codepoint: 0x2674, name: "RECYCLING SYMBOL FOR TYPE-2 PLASTICS", aliases: &[] },
        Codepoint { codepoint: 0x2675, name: "RECYCLING SYMBOL FOR TYPE-3 PLASTICS", aliases: &[] },
    ];
    assert(v@ =~= codepoint_table_222());
    v
}

pub open spec fn codepoint_table_223() -> Seq<Codepoint> {
    seq![
        Codepoint { codepoint: 0x2676, name: "RECYCLING SYMBOL FOR TYPE-4 PLASTICS", aliases: &[] },
        Codepoint { codepoint: 0x2677, name: "RECYCLING SYMBOL FOR TYPE-5 PLASTICS", aliases: &[] },
        Codepoint { codepoint: 0x2678, name: "RECYCLING SYMBOL FOR TYPE-6 PLASTICS", aliases: &[] },
        Codepoint { codepoint: 0x2679, name: "RECYCLING SYMBOL FOR TYPE-7 PLASTICS", aliases: &[] },
        Codepoint { codepoint: 0x267A, name: "RECYCLING SYMBOL FOR GENERIC MATERIALS", aliases: &[] },
        Codepoint { codepoint: 0x267B, name: "BLACK UNIVERSAL RECYCLING SYMBOL", aliases: &[] },
        Codepoint { codepoint: 0x267C, name: "RECYCLED PAPER SYMBOL", aliases: &[] },
        Codepoint { codepoint: 0x267D, name: "PARTIALLY-RECYCLED PAPER SYMBOL", aliases: &[] },
        Codepoint { codepoint: 0x267E, name: "PERMANENT PAPER SIGN", aliases: &[] },
        Codepoint { codepoint: 0x267F, name: "WHEELCHAIR SYMBOL", aliases: &[] },
        Codepoint { codepoint: 0x2680, name: "DIE FACE-1", aliases: &[] },
        Codepoint { codepoint: 0x2681, name: "DIE FACE-2", aliases: &[] },
        Codepoint { codepoint: 0x2682, name: "DIE FACE-3", aliases: &[] },
        Codepoint { codepoint: 0x2683, name: "DIE FACE-4", aliases: &[] },
        Codepoint { codepoint: 0x2684, name: "DIE FACE-5", aliases: &[] },
        Codepoint { codepoint: 0x2685, name: "DIE FACE-6", aliases: &[] },
        Codepoint { codepoint: 0x2686, name: "WHITE CIRCLE WITH DOT RIGHT", aliases: &[] },
        Codepoint { codepoint: 0x2687, name: "WHITE CIRCLE WITH TWO DOTS", aliases: &[] },
        Codepoint { codepoint: 0x2688, name: "BLACK CIRCLE WITH WHITE DOT RIGHT", aliases: &[] },
        Codepoint { codepoint: 0x2689, name: "BLACK CIRCLE WITH TWO WHITE DOTS", aliases: &[] },
        Codepoint { codepoint: 0x268A, name: "MONOGRAM FOR YANG", aliases: &[] },
        Codepoint { codepoint: 0x268B, name: "MONOGRAM FOR YIN", aliases: &[] },
        Codepoint { codepoint: 0x268C, name: "DIGRAM FOR GREATER YANG", aliases: &[] },
        Codepoint { codepoint: 0x268D, name: "DIGRAM FOR LESSER YIN", aliases: &[] },
        Codepoint { codepoint: 0x268E, name: "DIGRAM FOR LESSER YANG", aliases: &[] },
        Codepoint { codepoint: 0x268F, name: "DIGRAM FOR GREATER YIN", aliases: &[] },
        Codepoint { codepoint: 0x2690, name: "WHITE FLAG", aliases: &[] },
        Codepoint { codepoint: 0x2691, name: "BLACK FLAG", aliases: &[] },
        Codepoint { codepoint: 0x2692, name: "HAMMER AND PICK", aliases: &[] },
        Codepoint { codepoint: 0x2693, name: "ANCHOR", aliases: &[] },
        Codepoint { codepoint: 0x2694, name: "CROSSED SWORDS", aliases: &[] },
        Codepoint { codepoint: 0x2695, name: "STAFF OF AESCULAPIUS", aliases: &[] },
        Codepoint { codepoint: 0x2696, name: "SCALES", aliases: &[] },
        Codepoint { codepoint: 0x2697, name: "ALEMBIC", aliases: &[] },
        Codepoint { codepoint: 0x2698, name: "FLOWER", aliases: &[] },
        Codepoint { codepoint: 0x2699, name: "GEAR", aliases: &[] },
        Codepoint { codepoint: 0x269A, name: "STAFF OF HERMES", aliases: &[] },
        Codepoint { codepoint: 0x269B, name: "ATOM SYMBOL", aliases: &[] },
        Codepoint { codepoint: 0x269C, name: "FLEUR-DE-LIS", aliases: &[] },
        Codepoint { codepoint: 0x269D, name: "OUTLINED WHITE STAR", aliases: &[] },
    ]
}

fn all_codepoints_223() -> (v: Vec<Codepoint>)
    ensures
        v@ == codepoint_table_223(),
{
    let v = vec![
        Codepoint { codepoint: 0x2676, name: "RECYCLING SYMBOL FOR TYPE-4 PLASTICS", aliases: &[] },
        Codepoint { codepoint: 0x2677, name: "RECYCLING SYMBOL FOR TYPE-5 PLASTICS", aliases: &[] },
        Codepoint { codepoint: 0x2678, name: "RECYCLING SYMBOL FOR TYPE-6 PLASTICS", aliases: &[] },
        Codepoint { codepoint: 0x2679, name: "RECYCLING SYMBOL FOR TYPE-7 PLASTICS", aliases: &[] },
        Codepoint { codepoint: 0x267A, name: "RECYCLING SYMBOL FOR GENERIC MATERIALS", aliases: &[] },
        Codepoint { codepoint: 0x267B, name: "BLACK UNIVERSAL RECYCLING SYMBOL", aliases: &[] },
        Codepoint { codepoint: 0x267C, name: "RECYCLED PAPER SYMBOL", aliases: &[] },
        Codepoint { codepoint: 0x267D, name: "PARTIALLY-RECYCLED PAPER SYMBOL", aliases: &[] },
        Codepoint { codepoint: 0x267E, name: "PERMANENT PAPER SIGN", aliases: &[] },
        Codepoint { codepoint: 0x267F, name: "WHEELCHAIR SYMBOL", aliases: &[] },
        Codepoint { codepoint: 0x2680, name: "DIE FACE-1", aliases: &[] },
        Codepoint { codepoint: 0x2681, name: "DIE FACE-2", aliases: &[] },
        Codepoint { codepoint: 0x2682, name: "DIE FACE-3", aliases: &[] },
        Codepoint { codepoint: 0x2683, name: "DIE FACE-4", aliases: &[] },
        Codepoint { codepoint: 0x2684, name: "DIE FACE-5", aliases: &[] },
        Codepoint { codepoint: 0x2685, name: "DIE FACE-6", aliases: &[] },
        Codepoint { codepoint: 0x2686, name: "WHITE CIRCLE WITH DOT RIGHT", aliases: &[] },
        Codepoint { codepoint: 0x2687, name: "WHITE CIRCLE WITH TWO DOTS", aliases: &[] },
        Codepoint { codepoint: 0x2688, name: "BLACK CIRCLE WITH WHITE DOT RIGHT", aliases: &[] },
        Codepoint { codepoint: 0x2689, name: "BLACK CIRCLE WITH TWO WHITE DOTS", aliases: &[] },
        Codepoint { codepoint: 0x268A, name: "MONOGRAM FOR YANG", aliases: &[] },
        Codepoint { codepoint: 0x268B, name: "MONOGRAM FOR YIN", aliases: &[] },
        Codepoint { codepoint: 0x268C, name: "DIGRAM FOR GREATER YANG", aliases: &[] },
        Codepoint { codepoint: 0x268D, name: "DIGRAM FOR LESSER YIN", aliases: &[] },
        Codepoint { codepoint: 0x268E, name: "DIGRAM FOR LESSER YANG", aliases: &[] },
        Codepoint { codepoint: 0x268F, name: "DIGRAM FOR GREATER YIN", aliases: &[] },
        Codepoint { codepoint: 0x2690, name: "WHITE FLAG", aliases: &[] },
        Codepoint { codepoint: 0x2691, name: "BLACK FLAG", aliases: &[] },
        Codepoint { codepoint: 0x2692, name: "HAMMER AND PICK", aliases: &[] },
        Codepoint { codepoint: 0x2693, name: "ANCHOR", aliases: &[] },
        Codepoint { codepoint: 0x2694, name: "CROSSED SWORDS", aliases: &[] },
        Codepoint { codepoint: 0x2695, name: "STAFF OF AESCULAPIUS", aliases: &[] },
        Codepoint { codepoint: 0x2696, name: "SCALES", aliases: &[] },
        Codepoint { codepoint: 0x2697, name: "ALEMBIC", aliases: &[] },
        Codepoint { codepoint: 0x2698, name: "FLOWER", aliases: &[] },
        Codepoint { codepoint: 0x2699, name: "GEAR", aliases: &[] },
        Codepoint { codepoint: 0x269A, name: "STAFF OF HERMES", aliases: &[] },
        Codepoint { codepoint: 0x269B, name: "ATOM SYMBOL", aliases: &[] },
        Codepoint { codepoint: 0x269C, name: "FLEUR-DE-LIS", aliases: &[] },
        Codepoint { codepoint: 0x269D, name: "OUTLINED WHITE STAR", aliases: &[] },
    ];
    assert(v@ =~= codepoint_table_223());
    v
}

pub open spec fn codepoint_table_224() -> Seq<Codepoint> {
    seq![
        Codepoint { codepoint: 0x269E, name: "THREE LINES CONVERGING RIGHT", aliases: &[] },
        Codepoint { codepoint: 0x269F, name: "THREE LINES CONVERGING LEFT", aliases: &[] },
        Codepoint { codepoint: 0x26A0, name: "WARNING SIGN", aliases: &[] },
        Codepoint { codepoint: 0x26A1, name: "HIGH VOLTAGE SIGN", aliases: &[] },
        Codepoint { codepoint: 0x26A2, name: "DOUBLED FEMALE SIGN", aliases: &[] },
        Codepoint { codepoint: 0x26A3, name: "DOUBLED MALE SIGN", aliases: &[] },
        Codepoint { codepoint: 0x26A4, name: "INTERLOCKED FEMALE AND MALE SIGN", aliases: &[] },
        Codepoint { codepoint: 0x26A5, name: "MALE AND FEMALE SIGN", aliases: &[] },
        Codepoint { codepoint: 0x26A6, name: "MALE WITH STROKE SIGN", aliases: &[] },
        Codepoint { codepoint: 0x26A7, name: "MALE WITH STROKE AND MALE AND FEMALE SIGN", aliases: &[] },
        Codepoint { codepoint: 0x26A8, name: "VERTICAL MALE WITH STROKE SIGN", aliases: &[] },
        Codepoint { codepoint: 0x26A9, name: "HORIZONTAL MALE WITH STROKE SIGN", aliases: &[] },
        Codepoint { codepoint: 0x26AA, name: "MEDIUM WHITE CIRCLE", aliases: &[] },
        Codepoint { codepoint: 0x26AB, name: "MEDIUM BLACK CIRCLE", aliases: &[] },
        Codepoint { codepoint: 0x26AC, name: "MEDIUM SMALL WHITE CIRCLE", aliases: &[] },
        Codepoint { codepoint: 0x26AD, name: "MARRIAGE SYMBOL", aliases: &[] },
        Codepoint { codepoint: 0x26AE, name: "DIVORCE SYMBOL", aliases: &[] },
        Codepoint { codepoint: 0x26AF, name: "UNMARRIED PARTNERSHIP SYMBOL", aliases: &[] },
        Codepoint { codepoint: 0x26B0, name: "COFFIN", aliases: &[] },
        Codepoint { codepoint: 0x26B1, name: "FUNERAL URN", aliases: &[] },
        Codepoint { codepoint: 0x26B2, name: "NEUTER", aliases: &[] },
        Codepoint { codepoint: 0x26B3, name: "CERES", aliases: &[] },
        Codepoint { codepoint: 0x26B4, name: "PALLAS", aliases: &[] },
        Codepoint { codepoint: 0x26B5, name: "JUNO", aliases: &[] },
        Codepoint { codepoint: 0x26B6, name: "VESTA", aliases: &[] },
        Codepoint { codepoint: 0x26B7, name: "CHIRON", aliases: &[] },
        Codepoint { codepoint: 0x26B8, name: "BLACK MOON LILITH", aliases: &[] },
        Codepoint { codepoint: 0x26B9, name: "SEXTILE", aliases: &[] },
        Codepoint { codepoint: 0x26BA, name: "SEMISEXTILE", aliases: &[] },
        Codepoint { codepoint: 0x26BB, name: "QUINCUNX", aliases: &[] },
        Codepoint { codepoint: 0x26BC, name: "SESQUIQUADRATE", aliases: &[] },
        Codepoint { codepoint: 0x26BD, name: "SOCCER BALL", aliases: &[] },
        Codepoint { codepoint: 0x26BE, name: "BASEBALL", aliases: &[] },
        Codepoint { codepoint: 0x26BF, name: "SQUARED KEY", aliases: &[] },
        Codepoint { codepoint: 0x26C0, name: "WHITE DRAUGHTS MAN", aliases: &[] },
        Codepoint { codepoint: 0x26C1, name: "WHITE DRAUGHTS KING", aliases: &[] },
        Codepoint { codepoint: 0x26C2, name: "BLACK DRAUGHTS MAN", aliases: &[] },
        Codepoint { codepoint: 0x26C3, name: "BLACK DRAUGHTS KING", aliases: &[] },
        Codepoint { codepoint: 0x26C4, name: "SNOWMAN WITHOUT SNOW", aliases: &[] },
        Codepoint { codepoint: 0x26C5, name: "SUN BEHIND CLOUD", aliases: &[] },
    ]
}

fn all_codepoints_224() -> (v: Vec<Codepoint>)
    ensures
        v@ == codepoint_table_224(),
{
    let v = vec![
        Codepoint { codepoint: 0x269E, name: "THREE LINES CONVERGING RIGHT", aliases: &[] },
        Codepoint { codepoint: 0x269F, name: "THREE LINES CONVERGING LEFT", aliases: &[] },
        Codepoint { codepoint: 0x26A0, name: "WARNING SIGN", aliases: &[] },
        Codepoint { codepoint: 0x26A1, name: "HIGH VOLTAGE SIGN", aliases: &[] },
        Codepoint { codepoint: 0x26A2, name: "DOUBLED FEMALE SIGN", aliases: &[] },
        Codepoint { codepoint: 0x26A3, name: "DOUBLED MALE SIGN", aliases: &[] },
        Codepoint { codepoint: 0x26A4, name: "INTERLOCKED FEMALE AND MALE SIGN", aliases: &[] },
        Codepoint { codepoint: 0x26A5, name: "MALE AND FEMALE SIGN", aliases: &[] },
        Codepoint { codepoint: 0x26A6, name: "MALE WITH STROKE SIGN", aliases: &[] },
        Codepoint { codepoint: 0x26A7, name: "MALE WITH STROKE AND MALE AND FEMALE SIGN", aliases: &[] },
        Codepoint { codepoint: 0x26A8, name: "VERTICAL MALE WITH STROKE SIGN", aliases: &[] },
        Codepoint { codepoint: 0x26A9, name: "HORIZONTAL MALE WITH STROKE SIGN", aliases: &[] },
        Codepoint { codepoint: 0x26AA, name: "MEDIUM WHITE CIRCLE", aliases: &[] },
        Codepoint { codepoint: 0x26AB, name: "MEDIUM BLACK CIRCLE", aliases: &[] },
        Codepoint { codepoint: 0x26AC, name: "MEDIUM SMALL WHITE CIRCLE", aliases: &[] },
        Codepoint { codepoint: 0x26AD, name: "MARRIAGE SYMBOL", aliases: &[] },
        Codepoint { codepoint: 0x26AE, name: "DIVORCE SYMBOL", aliases: &[] },
        Codepoint { codepoint: 0x26AF, name: "UNMARRIED PARTNERSHIP SYMBOL", aliases: &[] },
        Codepoint { codepoint: 0x26B0, name: "COFFIN", aliases: &[] },
        Codepoint { codepoint: 0x26B1, name: "FUNERAL URN", aliases: &[] },
        Codepoint { codepoint: 0x26B2, name: "NEUTER", aliases: &[] },
        Codepoint { codepoint: 0x26B3, name: "CERES", aliases: &[] },
        Codepoint { codepoint: 0x26B4, name: "PALLAS", aliases: &[] },
        Codepoint { codepoint: 0x26B5, name: "JUNO", aliases: &[] },
        Codepoint { codepoint: 0x26B6, name: "VESTA", aliases: &[] },
        Codepoint { codepoint: 0x26B7, name: "CHIRON", aliases: &[] },
        Codepoint { codepoint: 0x26B8, name: "BLACK MOON LILITH", aliases: &[] },
        Codepoint { codepoint: 0x26B9, name: "SEXTILE", aliases: &[] },
        Codepoint { codepoint: 0x26BA, name: "SEMISEXTILE", aliases: &[] },
        Codepoint { codepoint: 0x26BB, name: "QUINCUNX", aliases: &[] },
        Codepoint { codepoint: 0x26BC, name: "SESQUIQUADRATE", aliases: &[] },
        Codepoint { codepoint: 0x26BD, name: "SOCCER BALL", aliases: &[] },
        Codepoint { codepoint: 0x26BE, name: "BASEBALL", aliases: &[] },
        Codepoint { codepoint: 0x26BF, name: "SQUARED KEY", aliases: &[] },
        Codepoint { codepoint: 0x26C0, name: "WHITE DRAUGHTS MAN", aliases: &[] },
        Codepoint { codepoint: 0x26C1, name: "WHITE DRAUGHTS KING", aliases: &[] },
        Codepoint { codepoint: 0x26C2, name: "BLACK DRAUGHTS MAN", aliases: &[] },
        Codepoint { codepoint: 0x26C3, name: "BLACK DRAUGHTS KING", aliases: &[] },
        Codepoint { codepoint: 0x26C4, name: "SNOWMAN WITHOUT SNOW", aliases: &[] },
        Codepoint { codepoint: 0x26C5, name: "SUN BEHIND CLOUD", aliases: &[] },
    ];
    assert(v@ =~= codepoint_table_224());
    v
}

pub open spec fn codepoint_table_225() -> Seq<Codepoint> {
    seq![
        Codepoint { codepoint: 0x26C6, name: "RAIN", aliases: &[] },
        Codepoint { codepoint: 0x26C7, name: "BLACK SNOWMAN", aliases: &[] },
        Codepoint { codepoint: 0x26C8, name: "THUNDER CLOUD AND RAIN", aliases: &[] },
        Codepoint { codepoint: 0x26C9, name: "TURNED WHITE SHOGI PIECE", aliases: &[] },
        Codepoint { codepoint: 0x26CA, name: "TURNED BLACK SHOGI PIECE", aliases: &[] },
        Codepoint { codepoint: 0x26CB, name: "WHITE DIAMOND IN SQUARE", aliases: &[] },
        Codepoint { codepoint: 0x26CC, name: "CROSSING LANES", aliases: &[] },
        Codepoint { codepoint: 0x26CD, name: "DISABLED CAR", aliases: &[] },
        Codepoint { codepoint: 0x26CE, name: "OPHIUCHUS", aliases: &[] },
        Codepoint { codepoint: 0x26CF, name: "PICK", aliases: &[] },
        Codepoint { codepoint: 0x26D0, name: "CAR SLIDING", aliases: &[] },
        Codepoint { codepoint: 0x26D1, name: "HELMET WITH WHITE CROSS", aliases: &[] },
        Codepoint { codepoint: 0x26D2, name: "CIRCLED CROSSING LANES", aliases: &[] },
        Codepoint { codepoint: 0x26D3, name: "CHAINS", aliases: &[] },
        Codepoint { codepoint: 0x26D4, name: "NO ENTRY", aliases: &[] },
        Codepoint { codepoint: 0x26D5, name: "ALTERNATE ONE-WAY LEFT WAY TRAFFIC", aliases: &[] },
        Codepoint { codepoint: 0x26D6, name: "BLACK TWO-WAY LEFT WAY TRAFFIC", aliases: &[] },
        Codepoint { codepoint: 0x26D7, name: "WHITE TWO-WAY LEFT WAY TRAFFIC", aliases: &[] },
        Codepoint { codepoint: 0x26D8, name: "BLACK LEFT LANE MERGE", aliases: &[] },
        Codepoint { codepoint: 0x26D9, name: "WHITE LEFT LANE MERGE", aliases: &[] },
        Codepoint { codepoint: 0x26DA, name: "DRIVE SLOW SIGN", aliases: &[] },
        Codepoint { codepoint: 0x26DB, name: "HEAVY WHITE DOWN-POINTING TRIANGLE", aliases: &[] },
        Codepoint { codepoint: 0x26DC, name: "LEFT CLOSED ENTRY", aliases: &[] },
        Codepoint { codepoint: 0x26DD, name: "SQUARED SALTIRE", aliases: &[] },
        Codepoint { codepoint: 0x26DE, name: "FALLING DIAGONAL IN WHITE CIRCLE IN BLACK SQUARE", aliases: &[] },
        Codepoint { codepoint: 0x26DF, name: "BLACK TRUCK", aliases: &[] },
        Codepoint { codepoint: 0x26E0, name: "RESTRICTED LEFT ENTRY-1", aliases: &[] },
        Codepoint { codepoint: 0x26E1, name: "RESTRICTED LEFT ENTRY-2", aliases: &[] },
        Codepoint { codepoint: 0x26E2, name: "ASTRONOMICAL SYMBOL FOR URANUS", aliases: &[] },
        Codepoint { codepoint: 0x26E3, name: "HEAVY CIRCLE WITH STROKE AND TWO DOTS ABOVE", aliases: &[] },
        Codepoint { codepoint: 0x26E4, name: "PENTAGRAM", aliases: &[] },
        Codepoint { codepoint: 0x26E5, name: "RIGHT-HANDED INTERLACED PENTAGRAM", aliases: &[] },
        Codepoint { codepoint: 0x26E6, name: "LEFT-HANDED INTERLACED PENTAGRAM", aliases: &[] },
        Codepoint { codepoint: 0x26E7, name: "INVERTED PENTAGRAM", aliases: &[] },
        Codepoint { codepoint: 0x26E8, name: "BLACK CROSS ON SHIELD", aliases: &[] },
        Codepoint { codepoint: 0x26E9, name: "SHINTO SHRINE", aliases: &[] },
        Codepoint { codepoint: 0x26EA, name: "CHURCH", aliases: &[] },
        Codepoint { codepoint: 0x26EB, name: "CASTLE", aliases: &[] },
        Codepoint { codepoint: 0x26EC, name: "HISTORIC SITE", aliases: &[] },
        Codepoint { codepoint: 0x26ED, name: "GEAR WITHOUT HUB", aliases: &[] },
    ]
}

fn all_codepoints_225() -> (v: Vec<Codepoint>)
    ensures
        v@ == codepoint_table_225(),
{
    let v = vec![
        Codepoint { codepoint: 0x26C6, name: "RAIN", aliases: &[] },
        Codepoint { codepoint: 0x26C7, name: "BLACK SNOWMAN", aliases: &[] },
        Codepoint { codepoint: 0x26C8, name: "THUNDER CLOUD AND RAIN", aliases: &[] },
        Codepoint { codepoint: 0x26C9, name: "TURNED WHITE SHOGI PIECE", aliases: &[] },
        Codepoint { codepoint: 0x26CA, name: "TURNED BLACK SHOGI PIECE", aliases: &[] },
        Codepoint { codepoint: 0x26CB, name: "WHITE DIAMOND IN SQUARE", aliases: &[] },
        Codepoint { codepoint: 0x26CC, name: "CROSSING LANES", aliases: &[] },
        Codepoint { codepoint: 0x26CD, name: "DISABLED CAR", aliases: &[] },
        Codepoint { codepoint: 0x26CE, name: "OPHIUCHUS", aliases: &[] },
        Codepoint { codepoint: 0x26CF, name: "PICK", aliases: &[] },
        Codepoint { codepoint: 0x26D0, name: "CAR SLIDING", aliases: &[] },
        Codepoint { codepoint: 0x26D1, name: "HELMET WITH WHITE CROSS", aliases: &[] },
        Codepoint { codepoint: 0x26D2, name: "CIRCLED CROSSING LANES", aliases: &[] },
        Codepoint { codepoint: 0x26D3, name: "CHAINS", aliases: &[] },
        Codepoint { codepoint: 0x26D4, name: "NO ENTRY", aliases: &[] },
        Codepoint { codepoint: 0x26D5, name: "ALTERNATE ONE-WAY LEFT WAY TRAFFIC", aliases: &[] },
        Codepoint { codepoint: 0x26D6, name: "BLACK TWO-WAY LEFT WAY TRAFFIC", aliases: &[] },
        Codepoint { codepoint: 0x26D7, name: "WHITE TWO-WAY LEFT WAY TRAFFIC", aliases: &[] },
        Codepoint { codepoint: 0x26D8, name: "BLACK LEFT LANE MERGE", aliases: &[] },
        Codepoint { codepoint: 0x26D9, name: "WHITE LEFT LANE MERGE", aliases: &[] },
        Codepoint { codepoint: 0x26DA, name: "DRIVE SLOW SIGN", aliases: &[] },
        Codepoint { codepoint: 0x26DB, name: "HEAVY WHITE DOWN-POINTING TRIANGLE", aliases: &[] },
        Codepoint { codepoint: 0x26DC, name: "LEFT CLOSED ENTRY", aliases: &[] },
        Codepoint { codepoint: 0x26DD, name: "SQUARED SALTIRE", aliases: &[] },
        Codepoint { codepoint: 0x26DE, name: "FALLING DIAGONAL IN WHITE CIRCLE IN BLACK SQUARE", aliases: &[] },
        Codepoint { codepoint: 0x26DF, name: "BLACK TRUCK", aliases: &[] },
        Codepoint { codepoint: 0x26E0, name: "RESTRICTED LEFT ENTRY-1", aliases: &[] },
        Codepoint { codepoint: 0x26E1, name: "RESTRICTED LEFT ENTRY-2", aliases: &[] },
        Codepoint { codepoint: 0x26E2, name: "ASTRONOMICAL SYMBOL FOR URANUS", aliases: &[] },
        Codepoint { codepoint: 0x26E3, name: "HEAVY CIRCLE WITH STROKE AND TWO DOTS ABOVE", aliases: &[] },
        Codepoint { codepoint: 0x26E4, name: "PENTAGRAM", aliases: &[] },
        Codepoint { codepoint: 0x26E5, name: "RIGHT-HANDED INTERLACED PENTAGRAM", aliases: &[] },
        Codepoint { codepoint: 0x26E6, name: "LEFT-HANDED INTERLACED PENTAGRAM", aliases: &[] },
        Codepoint { codepoint: 0x26E7, name: "INVERTED PENTAGRAM", aliases: &[] },
        Codepoint { codepoint: 0x26E8, name: "BLACK CROSS ON SHIELD", aliases: &[] },
        Codepoint { codepoint: 0x26E9, name: "SHINTO SHRINE", aliases: &[] },
        Codepoint { codepoint: 0x26EA, name: "CHURCH", aliases: &[] },
        Codepoint { codepoint: 0x26EB, name: "CASTLE", aliases: &[] },
        Codepoint { codepoint: 0x26EC, name: "HISTORIC SITE", aliases: &[] },
        Codepoint { codepoint: 0x26ED, name: "GEAR WITHOUT HUB", aliases: &[] },
    ];
    assert(v@ =~= codepoint_table_225());
    v
}

pub open spec fn codepoint_table_226() -> Seq<Codepoint> {
    seq![
        Codepoint { codepoint: 0x26EE, name: "GEAR WITH HANDLES", aliases: &[] },
        Codepoint { codepoint: 0x26EF, name: "MAP SYMBOL FOR LIGHTHOUSE", aliases: &[] },
        Codepoint { codepoint: 0x26F0, name: "MOUNTAIN", aliases: &[] },
        Codepoint { codepoint: 0x26F1, name: "UMBRELLA ON GROUND", aliases: &[] },
        Codepoint { codepoint: 0x26F2, name: "FOUNTAIN", aliases: &[] },
        Codepoint { codepoint: 0x26F3, name: "FLAG IN HOLE", aliases: &[] },
        Codepoint { codepoint: 0x26F4, name: "FERRY", aliases: &[] },
        Codepoint { codepoint: 0x26F5, name: "SAILBOAT", aliases: &[] },
        Codepoint { codepoint: 0x26F6, name: "SQUARE FOUR CORNERS", aliases: &[] },
        Codepoint { codepoint: 0x26F7, name: "SKIER", aliases: &[] },
        Codepoint { codepoint: 0x26F8, name: "ICE SKATE", aliases: &[] },
        Codepoint { codepoint: 0x26F9, name: "PERSON WITH BALL", aliases: &[] },
        Codepoint { codepoint: 0x26FA, name: "TENT", aliases: &[] },
        Codepoint { codepoint: 0x26FB, name: "JAPANESE BANK SYMBOL", aliases: &[] },
        Codepoint { codepoint: 0x26FC, name: "HEADSTONE GRAVEYARD SYMBOL", aliases: &[] },
        Codepoint { codepoint: 0x26FD, name: "FUEL PUMP", aliases: &[] },
        Codepoint { codepoint: 0x26FE, name: "CUP ON BLACK SQUARE", aliases: &[] },
        Codepoint { codepoint: 0x26FF, name: "WHITE FLAG WITH HORIZONTAL MIDDLE BLACK STRIPE", aliases: &[] },
        Codepoint { codepoint: 0x2700, name: "BLACK SAFETY SCISSORS", aliases: &[] },
        Codepoint { codepoint: 0x2701, name: "UPPER BLADE SCISSORS", aliases: &[] },
        Codepoint { codepoint: 0x2702, name: "BLACK SCISSORS", aliases: &[] },
        Codepoint { codepoint: 0x2703, name: "LOWER BLADE SCISSORS", aliases: &[] },
        Codepoint { codepoint: 0x2704, name: "WHITE SCISSORS", aliases: &[] },
        Codepoint { codepoint: 0x2705, name: "WHITE HEAVY CHECK MARK", aliases: &[] },
        Codepoint { codepoint: 0x2706, name: "TELEPHONE LOCATION SIGN", aliases: &[] },
        Codepoint { codepoint: 0x2707, name: "TAPE DRIVE", aliases: &[] },
        Codepoint { codepoint: 0x2708, name: "AIRPLANE", aliases: &[] },
        Codepoint { codepoint: 0x2709, name: "ENVELOPE", aliases: &[] },
        Codepoint { codepoint: 0x270A, name: "RAISED FIST", aliases: &[] },
        Codepoint { codepoint: 0x270B, name: "RAISED HAND", aliases: &[] },
        Codepoint { codepoint: 0x270C, name: "VICTORY HAND", aliases: &[] },
        Codepoint { codepoint: 0x270D, name: "WRITING HAND", aliases: &[] },
        Codepoint { codepoint: 0x270E, name: "LOWER RIGHT PENCIL", aliases: &[] },
        Codepoint { codepoint: 0x270F, name: "PENCIL", aliases: &[] },
        Codepoint { codepoint: 0x2710, name: "UPPER RIGHT PENCIL", aliases: &[] },
        Codepoint { codepoint: 0x2711, name: "WHITE NIB", aliases: &[] },
        Codepoint { codepoint: 0x2712, name: "BLACK NIB", aliases: &[] },
        Codepoint { codepoint: 0x2713, name: "CHECK MARK", aliases: &[] },
        Codepoint { codepoint: 0x2714, name: "HEAVY CHECK MARK", aliases: &[] },
        Codepoint { codepoint: 0x2715, name: "MULTIPLICATION X", aliases: &[] },
    ]
}

fn all_codepoints_226() -> (v: Vec<Codepoint>)
    ensures
        v@ == codepoint_table_226(),
{
    let v = vec![
        Codepoint { codepoint: 0x26EE, name: "GEAR WITH HANDLES", aliases: &[] },
        Codepoint { codepoint: 0x26EF, name: "MAP SYMBOL FOR LIGHTHOUSE", aliases: &[] },
        Codepoint { codepoint: 0x26F0, name: "MOUNTAIN", aliases: &[] },
        Codepoint { codepoint: 0x26F1, name: "UMBRELLA ON GROUND", aliases: &[] },
        Codepoint { codepoint: 0x26F2, name: "FOUNTAIN", aliases: &[] },
        Codepoint { codepoint: 0x26F3, name: "FLAG IN HOLE", aliases: &[] },
        Codepoint { codepoint: 0x26F4, name: "FERRY", aliases: &[] },
        Codepoint { codepoint: 0x26F5, name: "SAILBOAT", aliases: &[] },
        Codepoint { codepoint: 0x26F6, name: "SQUARE FOUR CORNERS", aliases: &[] },
        Codepoint { codepoint: 0x26F7, name: "SKIER", aliases: &[] },
        Codepoint { codepoint: 0x26F8, name: "ICE SKATE", aliases: &[] },
        Codepoint { codepoint: 0x26F9, name: "PERSON WITH BALL", aliases: &[] },
        Codepoint { codepoint: 0x26FA, name: "TENT", aliases: &[] },
        Codepoint { codepoint: 0x26FB, name: "JAPANESE BANK SYMBOL", aliases: &[] },
        Codepoint { codepoint: 0x26FC, name: "HEADSTONE GRAVEYARD SYMBOL", aliases: &[] },
        Codepoint { codepoint: 0x26FD, name: "FUEL PUMP", aliases: &[] },
        Codepoint { codepoint: 0x26FE, name: "CUP ON BLACK SQUARE", aliases: &[] },
        Codepoint { codepoint: 0x26FF, name: "WHITE FLAG WITH HORIZONTAL MIDDLE BLACK STRIPE", aliases: &[] },
        Codepoint { codepoint: 0x2700, name: "BLACK SAFETY SCISSORS", aliases: &[] },
        Codepoint { codepoint: 0x2701, name: "UPPER BLADE SCISSORS", aliases: &[] },
        Codepoint { codepoint: 0x2702, name: "BLACK SCISSORS", aliases: &[] },
        Codepoint { codepoint: 0x2703, name: "LOWER BLADE SCISSORS", aliases: &[] },
        Codepoint { codepoint: 0x2704, name: "WHITE SCISSORS", aliases: &[] },
        Codepoint { codepoint: 0x2705, name: "WHITE HEAVY CHECK MARK", aliases: &[] },
        Codepoint { codepoint: 0x2706, name: "TELEPHONE LOCATION SIGN", aliases: &[] },
        Codepoint { codepoint: 0x2707, name: "TAPE DRIVE", aliases: &[] },
        Codepoint { codepoint: 0x2708, name: "AIRPLANE", aliases: &[] },
        Codepoint { codepoint: 0x2709, name: "ENVELOPE", aliases: &[] },
        Codepoint { codepoint: 0x270A, name: "RAISED FIST", aliases: &[] },
        Codepoint { codepoint: 0x270B, name: "RAISED HAND", aliases: &[] },
        Codepoint { codepoint: 0x270C, name: "VICTORY HAND", aliases: &[] },
        Codepoint { codepoint: 0x270D, name: "WRITING HAND", aliases: &[] },
        Codepoint { codepoint: 0x270E, name: "LOWER RIGHT PENCIL", aliases: &[] },
        Codepoint { codepoint: 0x270F, name: "PENCIL", aliases: &[] },
        Codepoint { codepoint: 0x2710, name: "UPPER RIGHT PENCIL", aliases: &[] },
        Codepoint { codepoint: 0x2711, name: "WHITE NIB", aliases: &[] },
        Codepoint { codepoint: 0x2712, name: "BLACK NIB", aliases: &[] },
        Codepoint { codepoint: 0x2713, name: "CHECK MARK", aliases: &[] },
        Codepoint { codepoint: 0x2714, name: "HEAVY CHECK MARK", aliases: &[] },
        Codepoint { codepoint: 0x2715, name: "MULTIPLICATION X", aliases: &[] },
    ];
    assert(v@ =~= codepoint_table_226());
    v
}

pub open spec fn codepoint_table_227() -> Seq<Codepoint> {
    seq![
        Codepoint { codepoint: 0x2716, name: "HEAVY MULTIPLICATION X", aliases: &[] },
        Codepoint { codepoint: 0x2717, name: "BALLOT X", aliases: &[] },
        Codepoint { codepoint: 0x2718, name: "HEAVY BALLOT X", aliases: &[] },
        Codepoint { codepoint: 0x2719, name: "OUTLINED GREEK CROSS", aliases: &[] },
        Codepoint { codepoint: 0x271A, name: "HEAVY GREEK CROSS", aliases: &[] },
        Codepoint { codepoint: 0x271B, name: "OPEN CENTRE CROSS", aliases: &["OPEN CENTER CROSS"] },
        Codepoint { codepoint: 0x271C, name: "HEAVY OPEN CENTRE CROSS", aliases: &["HEAVY OPEN CENTER CROSS"] },
        Codepoint { codepoint: 0x271D, name: "LATIN CROSS", aliases: &[] },
        Codepoint { codepoint: 0x271E, name: "SHADOWED WHITE LATIN CROSS", aliases: &[] },
        Codepoint { codepoint: 0x271F, name: "OUTLINED LATIN CROSS", aliases: &[] },
        Codepoint { codepoint: 0x2720, name: "MALTESE CROSS", aliases: &[] },
        Codepoint { codepoint: 0x2721, name: "STAR OF DAVID", aliases: &[] },
        Codepoint { codepoint: 0x2722, name: "FOUR TEARDROP-SPOKED ASTERISK", aliases: &[] },
        Codepoint { codepoint: 0x2723, name: "FOUR BALLOON-SPOKED ASTERISK", aliases: &[] },
        Codepoint { codepoint: 0x2724, name: "HEAVY FOUR BALLOON-SPOKED ASTERISK", aliases: &[] },
        Codepoint { codepoint: 0x2725, name: "FOUR CLUB-SPOKED ASTERISK", aliases: &[] },
        Codepoint { codepoint: 0x2726, name: "BLACK FOUR POINTED STAR", aliases: &[] },
        Codepoint { codepoint: 0x2727, name: "WHITE FOUR POINTED STAR", aliases: &[] },
        Codepoint { codepoint: 0x2728, name: "SPARKLES", aliases: &[] },
        Codepoint { codepoint: 0x2729, name: "STRESS OUTLINED WHITE STAR", aliases: &[] },
        Codepoint { codepoint: 0x272A, name: "CIRCLED WHITE STAR", aliases: &[] },
        Codepoint { codepoint: 0x272B, name: "OPEN CENTRE BLACK STAR", aliases: &["OPEN CENTER BLACK STAR"] },
        Codepoint { codepoint: 0x272C, name: "BLACK CENTRE WHITE STAR", aliases: &["BLACK CENTER WHITE STAR"] },
        Codepoint { codepoint: 0x272D, name: "OUTLINED BLACK STAR", aliases: &[] },
        Codepoint { codepoint: 0x272E, name: "HEAVY OUTLINED BLACK STAR", aliases: &[] },
        Codepoint { codepoint: 0x272F, name: "PINWHEEL STAR", aliases: &[] },
        Codepoint { codepoint: 0x2730, name: "SHADOWED WHITE STAR", aliases: &[] },
        Codepoint { codepoint: 0x2731, name: "HEAVY ASTERISK", aliases: &[] },
        Codepoint { codepoint: 0x2732, name: "OPEN CENTRE ASTERISK", aliases: &["OPEN CENTER ASTERISK"] },
        Codepoint { codepoint: 0x2733, name: "EIGHT SPOKED ASTERISK", aliases: &[] },
        Codepoint { codepoint: 0x2734, name: "EIGHT POINTED BLACK STAR", aliases: &[] },
        Codepoint { codepoint: 0x2735, name: "EIGHT POINTED PINWHEEL STAR", aliases: &[] },
        Codepoint { codepoint: 0x2736, name: "SIX POINTED BLACK STAR", aliases: &[] },
        Codepoint { codepoint: 0x2737, name: "EIGHT POINTED RECTILINEAR BLACK STAR", aliases: &[] },
        Codepoint { codepoint: 0x2738, name: "HEAVY EIGHT POINTED RECTILINEAR BLACK STAR", aliases: &[] },
        Codepoint { codepoint: 0x2739, name: "TWELVE POINTED BLACK STAR", aliases: &[] },
        Codepoint { codepoint: 0x273A, name: "SIXTEEN POINTED ASTERISK", aliases: &[] },
        Codepoint { codepoint: 0x273B, name: "TEARDROP-SPOKED ASTERISK", aliases: &[] },
        Codepoint { codepoint: 0x273C, name: "OPEN CENTRE TEARDROP-SPOKED ASTERISK", aliases: &["OPEN CENTER TEARDROP-SPOKED ASTERISK"] },
        Codepoint { codepoint: 0x273D, name: "HEAVY TEARDROP-SPOKED ASTERISK", aliases: &[] },
    ]
}

fn all_codepoints_227() -> (v: Vec<Codepoint>)
    ensures
        v@ == codepoint_table_227(),
{
    let v = vec![
        Codepoint { codepoint: 0x2716, name: "HEAVY MULTIPLICATION X", aliases: &[] },
        Codepoint { codepoint: 0x2717, name: "BALLOT X", aliases: &[] },
        Codepoint { codepoint: 0x2718, name: "HEAVY BALLOT X", aliases: &[] },
        Codepoint { codepoint: 0x2719, name: "OUTLINED GREEK CROSS", aliases: &[] },
        Codepoint { codepoint: 0x271A, name: "HEAVY GREEK CROSS", aliases: &[] },
        Codepoint { codepoint: 0x271B, name: "OPEN CENTRE CROSS", aliases: &["OPEN CENTER CROSS"] },
        Codepoint { codepoint: 0x271C, name: "HEAVY OPEN CENTRE CROSS", aliases: &["HEAVY OPEN CENTER CROSS"] },
        Codepoint { codepoint: 0x271D, name: "LATIN CROSS", aliases: &[] },
        Codepoint { codepoint: 0x271E, name: "SHADOWED WHITE LATIN CROSS", aliases: &[] },
        Codepoint { codepoint: 0x271F, name: "OUTLINED LATIN CROSS", aliases: &[] },
        Codepoint { codepoint: 0x2720, name: "MALTESE CROSS", aliases: &[] },
        Codepoint { codepoint: 0x2721, name: "STAR OF DAVID", aliases: &[] },
        Codepoint { codepoint: 0x2722, name: "FOUR TEARDROP-SPOKED ASTERISK", aliases: &[] },
        Codepoint { codepoint: 0x2723, name: "FOUR BALLOON-SPOKED ASTERISK", aliases: &[] },
        Codepoint { codepoint: 0x2724, name: "HEAVY FOUR BALLOON-SPOKED ASTERISK", aliases: &[] },
        Codepoint { codepoint: 0x2725, name: "FOUR CLUB-SPOKED ASTERISK", aliases: &[] },
        Codepoint { codepoint: 0x2726, name: "BLACK FOUR POINTED STAR", aliases: &[] },
        Codepoint { codepoint: 0x2727, name: "WHITE FOUR POINTED STAR", aliases: &[] },
        Codepoint { codepoint: 0x2728, name: "SPARKLES", aliases: &[] },
        Codepoint { codepoint: 0x2729, name: "STRESS OUTLINED WHITE STAR", aliases: &[] },
        Codepoint { codepoint: 0x272A, name: "CIRCLED WHITE STAR", aliases: &[] },
        Codepoint { codepoint: 0x272B, name: "OPEN CENTRE BLACK STAR", aliases: &["OPEN CENTER BLACK STAR"] },
        Codepoint { codepoint: 0x272C, name: "BLACK CENTRE WHITE STAR", aliases: &["BLACK CENTER WHITE STAR"] },
        Codepoint { codepoint: 0x272D, name: "OUTLINED BLACK STAR", aliases: &[] },
        Codepoint { codepoint: 0x272E, name: "HEAVY OUTLINED BLACK STAR", aliases: &[] },
        Codepoint { codepoint: 0x272F, name: "PINWHEEL STAR", aliases: &[] },
        Codepoint { codepoint: 0x2730, name: "SHADOWED WHITE STAR", aliases: &[] },
        Codepoint { codepoint: 0x2731, name: "HEAVY ASTERISK", aliases: &[] },
        Codepoint { codepoint: 0x2732, name: "OPEN CENTRE ASTERISK", aliases: &["OPEN CENTER ASTERISK"] },
        Codepoint { codepoint: 0x2733, name: "EIGHT SPOKED ASTERISK", aliases: &[] },
        Codepoint { codepoint: 0x2734, name: "EIGHT POINTED BLACK STAR", aliases: &[] },
        Codepoint { codepoint: 0x2735, name: "EIGHT POINTED PINWHEEL STAR", aliases: &[] },
        Codepoint { codepoint: 0x2736, name: "SIX POINTED BLACK STAR", aliases: &[] },
        Codepoint { codepoint: 0x2737, name: "EIGHT POINTED RECTILINEAR BLACK STAR", aliases: &[] },
        Codepoint { codepoint: 0x2738, name: "HEAVY EIGHT POINTED RECTILINEAR BLACK STAR", aliases: &[] },
        Codepoint { codepoint: 0x2739, name: "TWELVE POINTED BLACK STAR", aliases: &[] },
        Codepoint { codepoint: 0x273A, name: "SIXTEEN POINTED ASTERISK", aliases: &[] },
        Codepoint { codepoint: 0x273B, name: "TEARDROP-SPOKED ASTERISK", aliases: &[] },
        Codepoint { codepoint: 0x273C, name: "OPEN CENTRE TEARDROP-SPOKED ASTERISK", aliases: &["OPEN CENTER TEARDROP-SPOKED ASTERISK"] },
        Codepoint { codepoint: 0x273D, name: "HEAVY TEARDROP-SPOKED ASTERISK", aliases: &[] },
    ];
    assert(v@ =~= codepoint_table_227());
    v
}

pub open spec fn codepoint_table_228() -> Seq<Codepoint> {
    seq![
        Codepoint { codepoint: 0x273E, name: "SIX PETALLED BLACK AND WHITE FLORETTE", aliases: &[] },
        Codepoint { codepoint: 0x273F, name: "BLACK FLORETTE", aliases: &[] },
        Codepoint { codepoint: 0x2740, name: "WHITE FLORETTE", aliases: &[] },
        Codepoint { codepoint: 0x2741, name: "EIGHT PETALLED OUTLINED BLACK FLORETTE", aliases: &[] },
        Codepoint { codepoint: 0x2742, name: "CIRCLED OPEN CENTRE EIGHT POINTED STAR", aliases: &["CIRCLED OPEN CENTER EIGHT POINTED STAR"] },
        Codepoint { codepoint: 0x2743, name: "HEAVY TEARDROP-SPOKED PINWHEEL ASTERISK", aliases: &[] },
        Codepoint { codepoint: 0x2744, name: "SNOWFLAKE", aliases: &[] },
        Codepoint { codepoint: 0x2745, name: "TIGHT TRIFOLIATE SNOWFLAKE", aliases: &[] },
        Codepoint { codepoint: 0x2746, name: "HEAVY CHEVRON SNOWFLAKE", aliases: &[] },
        Codepoint { codepoint: 0x2747, name: "SPARKLE", aliases: &[] },
        Codepoint { codepoint: 0x2748, name: "HEAVY SPARKLE", aliases: &[] },
        Codepoint { codepoint: 0x2749, name: "BALLOON-SPOKED ASTERISK", aliases: &[] },
        Codepoint { codepoint: 0x274A, name: "EIGHT TEARDROP-SPOKED PROPELLER ASTERISK", aliases: &[] },
        Codepoint { codepoint: 0x274B, name: "HEAVY EIGHT TEARDROP-SPOKED PROPELLER ASTERISK", aliases: &[] },
        Codepoint { codepoint: 0x274C, name: "CROSS MARK", aliases: &[] },
        Codepoint { codepoint: 0x274D, name: "SHADOWED WHITE CIRCLE", aliases: &[] },
        Codepoint { codepoint: 0x274E, name: "NEGATIVE SQUARED CROSS MARK", aliases: &[] },
        Codepoint { codepoint: 0x274F, name: "LOWER RIGHT DROP-SHADOWED WHITE SQUARE", aliases: &[] },
        Codepoint { codepoint: 0x2750, name: "UPPER RIGHT DROP-SHADOWED WHITE SQUARE", aliases: &[] },
        Codepoint { codepoint: 0x2751, name: "LOWER RIGHT SHADOWED WHITE SQUARE", aliases: &[] },
        Codepoint { codepoint: 0x2752, name: "UPPER RIGHT SHADOWED WHITE SQUARE", aliases: &[] },
        Codepoint { codepoint: 0x2753, name: "BLACK QUESTION MARK ORNAMENT", aliases: &[] },
        Codepoint { codepoint: 0x2754, name: "WHITE QUESTION MARK ORNAMENT", aliases: &[] },
        Codepoint { codepoint: 0x2755, name: "WHITE EXCLAMATION MARK ORNAMENT", aliases: &[] },
        Codepoint { codepoint: 0x2756, name: "BLACK DIAMOND MINUS WHITE X", aliases: &[] },
        Codepoint { codepoint: 0x2757, name: "HEAVY EXCLAMATION MARK SYMBOL", aliases: &[] },
        Codepoint { codepoint: 0x2758, name: "LIGHT VERTICAL BAR", aliases: &[] },
        Codepoint { codepoint: 0x2759, name: "MEDIUM VERTICAL BAR", aliases: &[] },
        Codepoint { codepoint: 0x275A, name: "HEAVY VERTICAL BAR", aliases: &[] },
        Codepoint { codepoint: 0x275B, name: "HEAVY SINGLE TURNED COMMA QUOTATION MARK ORNAMENT", aliases: &[] },
        Codepoint { codepoint: 0x275C, name: "HEAVY SINGLE COMMA QUOTATION MARK ORNAMENT", aliases: &[] },
        Codepoint { codepoint: 0x275D, name: "HEAVY DOUBLE TURNED COMMA QUOTATION MARK ORNAMENT", aliases: &[] },
        Codepoint { codepoint: 0x275E, name: "HEAVY DOUBLE COMMA QUOTATION MARK ORNAMENT", aliases: &[] },
        Codepoint { codepoint: 0x275F, name: "HEAVY LOW SINGLE COMMA QUOTATION MARK ORNAMENT", aliases: &[] },
        Codepoint { codepoint: 0x2760, name: "HEAVY LOW DOUBLE COMMA QUOTATION MARK ORNAMENT", aliases: &[] },
        Codepoint { codepoint: 0x2761, name: "CURVED STEM PARAGRAPH SIGN ORNAMENT", aliases: &[] },
        Codepoint { codepoint: 0x2762, name: "HEAVY EXCLAMATION MARK ORNAMENT", aliases: &[] },
        Codepoint { codepoint: 0x2763, name: "HEAVY HEART EXCLAMATION MARK ORNAMENT", aliases: &[] },
        Codepoint { codepoint: 0x2764, name: "HEAVY BLACK HEART", aliases: &[] },
        Codepoint { codepoint: 0x2765, name: "ROTATED HEAVY BLACK HEART BULLET", aliases: &[] },
    ]
}

fn all_codepoints_228() -> (v: Vec<Codepoint>)
    ensures
        v@ == codepoint_table_228(),
{
    let v = vec![
        Codepoint { codepoint: 0x273E, name: "SIX PETALLED BLACK AND WHITE FLORETTE", aliases: &[] },
        Codepoint { codepoint: 0x273F, name: "BLACK FLORETTE", aliases: &[] },
        Codepoint { codepoint: 0x2740, name: "WHITE FLORETTE", aliases: &[] },
        Codepoint { codepoint: 0x2741, name: "EIGHT PETALLED OUTLINED BLACK FLORETTE", aliases: &[] },
        Codepoint { codepoint: 0x2742, name: "CIRCLED OPEN CENTRE EIGHT POINTED STAR", aliases: &["CIRCLED OPEN CENTER EIGHT POINTED STAR"] },
        Codepoint { codepoint: 0x2743, name: "HEAVY TEARDROP-SPOKED PINWHEEL ASTERISK", aliases: &[] },
        Codepoint { codepoint: 0x2744, name: "SNOWFLAKE", aliases: &[] },
        Codepoint { codepoint: 0x2745, name: "TIGHT TRIFOLIATE SNOWFLAKE", aliases: &[] },
        Codepoint { codepoint: 0x2746, name: "HEAVY CHEVRON SNOWFLAKE", aliases: &[] },
        Codepoint { codepoint: 0x2747, name: "SPARKLE", aliases: &[] },
        Codepoint { codepoint: 0x2748, name: "HEAVY SPARKLE", aliases: &[] },
        Codepoint { codepoint: 0x2749, name: "BALLOON-SPOKED ASTERISK", aliases: &[] },
        Codepoint { codepoint: 0x274A, name: "EIGHT TEARDROP-SPOKED PROPELLER ASTERISK", aliases: &[] },
        Codepoint { codepoint: 0x274B, name: "HEAVY EIGHT TEARDROP-SPOKED PROPELLER ASTERISK", aliases: &[] },
        Codepoint { codepoint: 0x274C, name: "CROSS MARK", aliases: &[] },
        Codepoint { codepoint: 0x274D, name: "SHADOWED WHITE CIRCLE", aliases: &[] },
        Codepoint { codepoint: 0x274E, name: "NEGATIVE SQUARED CROSS MARK", aliases: &[] },
        Codepoint { codepoint: 0x274F, name: "LOWER RIGHT DROP-SHADOWED WHITE SQUARE", aliases: &[] },
        Codepoint { codepoint: 0x2750, name: "UPPER RIGHT DROP-SHADOWED WHITE SQUARE", aliases: &[] },
        Codepoint { codepoint: 0x2751, name: "LOWER RIGHT SHADOWED WHITE SQUARE", aliases: &[] },
        Codepoint { codepoint: 0x2752, name: "UPPER RIGHT SHADOWED WHITE SQUARE", aliases: &[] },
        Codepoint { codepoint: 0x2753, name: "BLACK QUESTION MARK ORNAMENT", aliases: &[] },
        Codepoint { codepoint: 0x2754, name: "WHITE QUESTION MARK ORNAMENT", aliases: &[] },
        Codepoint { codepoint: 0x2755, name: "WHITE EXCLAMATION MARK ORNAMENT", aliases: &[] },
        Codepoint { codepoint: 0x2756, name: "BLACK DIAMOND MINUS WHITE X", aliases: &[] },
        Codepoint { codepoint: 0x2757, name: "HEAVY EXCLAMATION MARK SYMBOL", aliases: &[] },
        Codepoint { codepoint: 0x2758, name: "LIGHT VERTICAL BAR", aliases: &[] },
        Codepoint { codepoint: 0x2759, name: "MEDIUM VERTICAL BAR", aliases: &[] },
        Codepoint { codepoint: 0x275A, name: "HEAVY VERTICAL BAR", aliases: &[] },
        Codepoint { codepoint: 0x275B, name: "HEAVY SINGLE TURNED COMMA QUOTATION MARK ORNAMENT", aliases: &[] },
        Codepoint { codepoint: 0x275C, name: "HEAVY SINGLE COMMA QUOTATION MARK ORNAMENT", aliases: &[] },
        Codepoint { codepoint: 0x275D, name: "HEAVY DOUBLE TURNED COMMA QUOTATION MARK ORNAMENT", aliases: &[] },
        Codepoint { codepoint: 0x275E, name: "HEAVY DOUBLE COMMA QUOTATION MARK ORNAMENT", aliases: &[] },
        Codepoint { codepoint: 0x275F, name: "HEAVY LOW SINGLE COMMA QUOTATION MARK ORNAMENT", aliases: &[] },
        Codepoint { codepoint: 0x2760, name: "HEAVY LOW DOUBLE COMMA QUOTATION MARK ORNAMENT", aliases: &[] },
        Codepoint { codepoint: 0x2761, name: "CURVED STEM PARAGRAPH SIGN ORNAMENT", aliases: &[] },
        Codepoint { codepoint: 0x2762, name: "HEAVY EXCLAMATION MARK ORNAMENT", aliases: &[] },
        Codepoint { codepoint: 0x2763, name: "HEAVY HEART EXCLAMATION MARK ORNAMENT", aliases: &[] },
        Codepoint { codepoint: 0x2764, name: "HEAVY BLACK HEART", aliases: &[] },
        Codepoint { codepoint: 0x2765, name: "ROTATED HEAVY BLACK HEART BULLET", aliases: &[] },
    ];
    assert(v@ =~= codepoint_table_228());
    v
}

pub open spec fn codepoint_table_229() -> Seq<Codepoint> {
    seq![
        Codepoint { codepoint: 0x2766, name: "FLORAL HEART", aliases: &[] },
        Codepoint { codepoint: 0x2767, name: "ROTATED FLORAL HEART BULLET", aliases: &[] },
        Codepoint { codepoint: 0x2768, name: "MEDIUM LEFT PARENTHESIS ORNAMENT", aliases: &[] },
        Codepoint { codepoint: 0x2769, name: "MEDIUM RIGHT PARENTHESIS ORNAMENT", aliases: &[] },
        Codepoint { codepoint: 0x276A, name: "MEDIUM FLATTENED LEFT PARENTHESIS ORNAMENT", aliases: &[] },
        Codepoint { codepoint: 0x276B, name: "MEDIUM FLATTENED RIGHT PARENTHESIS ORNAMENT", aliases: &[] },
        Codepoint { codepoint: 0x276C, name: "MEDIUM LEFT-POINTING ANGLE BRACKET ORNAMENT", aliases: &[] },
        Codepoint { codepoint: 0x276D, name: "MEDIUM RIGHT-POINTING ANGLE BRACKET ORNAMENT", aliases: &[] },
        Codepoint { codepoint: 0x276E, name: "HEAVY LEFT-POINTING ANGLE QUOTATION MARK ORNAMENT", aliases: &[] },
        Codepoint { codepoint: 0x276F, name: "HEAVY RIGHT-POINTING ANGLE QUOTATION MARK ORNAMENT", aliases: &[] },
        Codepoint { codepoint: 0x2770, name: "HEAVY LEFT-POINTING ANGLE BRACKET ORNAMENT", aliases: &[] },
        Codepoint { codepoint: 0x2771, name: "HEAVY RIGHT-POINTING ANGLE BRACKET ORNAMENT", aliases: &[] },
        Codepoint { codepoint: 0x2772, name: "LIGHT LEFT TORTOISE SHELL BRACKET ORNAMENT", aliases: &[] },
        Codepoint { codepoint: 0x2773, name: "LIGHT RIGHT TORTOISE SHELL BRACKET ORNAMENT", aliases: &[] },
        Codepoint { codepoint: 0x2774, name: "MEDIUM LEFT CURLY BRACKET ORNAMENT", aliases: &[] },
        Codepoint { codepoint: 0x2775, name: "MEDIUM RIGHT CURLY BRACKET ORNAMENT", aliases: &[] },
        Codepoint { codepoint: 0x2776, name: "DINGBAT NEGATIVE CIRCLED DIGIT ONE", aliases: &["INVERSE CIRCLED DIGIT ONE"] },
        Codepoint { codepoint: 0x2777, name: "DINGBAT NEGATIVE CIRCLED DIGIT TWO", aliases: &["INVERSE CIRCLED DIGIT TWO"] },
        Codepoint { codepoint: 0x2778, name: "DINGBAT NEGATIVE CIRCLED DIGIT THREE", aliases: &["INVERSE CIRCLED DIGIT THREE"] },
        Codepoint { codepoint: 0x2779, name: "DINGBAT NEGATIVE CIRCLED DIGIT FOUR", aliases: &["INVERSE CIRCLED DIGIT FOUR"] },
        Codepoint { codepoint: 0x277A, name: "DINGBAT NEGATIVE CIRCLED DIGIT FIVE", aliases: &["INVERSE CIRCLED DIGIT FIVE"] },
        Codepoint { codepoint: 0x277B, name: "DINGBAT NEGATIVE CIRCLED DIGIT SIX", aliases: &["INVERSE CIRCLED DIGIT SIX"] },
        Codepoint { codepoint: 0x277C, name: "DINGBAT NEGATIVE CIRCLED DIGIT SEVEN", aliases: &["INVERSE CIRCLED DIGIT SEVEN"] },
        Codepoint { codepoint: 0x277D, name: "DINGBAT NEGATIVE CIRCLED DIGIT EIGHT", aliases: &["INVERSE CIRCLED DIGIT EIGHT"] },
        Codepoint { codepoint: 0x277E, name: "DINGBAT NEGATIVE CIRCLED DIGIT NINE", aliases: &["INVERSE CIRCLED DIGIT NINE"] },
        Codepoint { codepoint: 0x277F, name: "DINGBAT NEGATIVE CIRCLED NUMBER TEN", aliases: &["INVERSE CIRCLED NUMBER TEN"] },
        Codepoint { codepoint: 0x2780, name: "DINGBAT CIRCLED SANS-SERIF DIGIT ONE", aliases: &["CIRCLED SANS-SERIF DIGIT ONE"] },
        Codepoint { codepoint: 0x2781, name: "DINGBAT CIRCLED SANS-SERIF DIGIT TWO", aliases: &["CIRCLED SANS-SERIF DIGIT TWO"] },
        Codepoint { codepoint: 0x2782, name: "DINGBAT CIRCLED SANS-SERIF DIGIT THREE", aliases: &["CIRCLED SANS-SERIF DIGIT THREE"] },
        Codepoint { codepoint: 0x2783, name: "DINGBAT CIRCLED SANS-SERIF DIGIT FOUR", aliases: &["CIRCLED SANS-SERIF DIGIT FOUR"] },
        Codepoint { codepoint: 0x2784, name: "DINGBAT CIRCLED SANS-SERIF DIGIT FIVE", aliases: &["CIRCLED SANS-SERIF DIGIT FIVE"] },
        Codepoint { codepoint: 0x2785, name: "DINGBAT CIRCLED SANS-SERIF DIGIT SIX", aliases: &["CIRCLED SANS-SERIF DIGIT SIX"] },
        Codepoint { codepoint: 0x2786, name: "DINGBAT CIRCLED SANS-SERIF DIGIT SEVEN", aliases: &["CIRCLED SANS-SERIF DIGIT SEVEN"] },
        Codepoint { codepoint: 0x2787, name: "DINGBAT CIRCLED SANS-SERIF DIGIT EIGHT", aliases: &["CIRCLED SANS-SERIF DIGIT EIGHT"] },
        Codepoint { codepoint: 0x2788, name: "DINGBAT CIRCLED SANS-SERIF DIGIT NINE", aliases: &["CIRCLED SANS-SERIF DIGIT NINE"] },
        Codepoint { codepoint: 0x2789, name: "DINGBAT CIRCLED SANS-SERIF NUMBER TEN", aliases: &["CIRCLED SANS-SERIF NUMBER TEN"] },
        Codepoint { codepoint: 0x278A, name: "DINGBAT NEGATIVE CIRCLED SANS-SERIF DIGIT ONE", aliases: &["INVERSE CIRCLED SANS-SERIF DIGIT ONE"] },
        Codepoint { codepoint: 0x278B, name: "DINGBAT NEGATIVE CIRCLED SANS-SERIF DIGIT TWO", aliases: &["INVERSE CIRCLED SANS-SERIF DIGIT TWO"] },
        Codepoint { codepoint: 0x278C, name: "DINGBAT NEGATIVE CIRCLED SANS-SERIF DIGIT THREE", aliases: &["INVERSE CIRCLED SANS-SERIF DIGIT THREE"] },
        Codepoint { codepoint: 0x278D, name: "DINGBAT NEGATIVE CIRCLED SANS-SERIF DIGIT FOUR", aliases: &["INVERSE CIRCLED SANS-SERIF DIGIT FOUR"] },
    ]
}

fn all_codepoints_229() -> (v: Vec<Codepoint>)
    ensures
        v@ == codepoint_table_229(),
{
    let v = vec![
        Codepoint { codepoint: 0x2766, name: "FLORAL HEART", aliases: &[] },
        Codepoint { codepoint: 0x2767, name: "ROTATED FLORAL HEART BULLET", aliases: &[] },
        Codepoint { codepoint: 0x2768, name: "MEDIUM LEFT PARENTHESIS ORNAMENT", aliases: &[] },
        Codepoint { codepoint: 0x2769, name: "MEDIUM RIGHT PARENTHESIS ORNAMENT", aliases: &[] },
        Codepoint { codepoint: 0x276A, name: "MEDIUM FLATTENED LEFT PARENTHESIS ORNAMENT", aliases: &[] },
        Codepoint { codepoint: 0x276B, name: "MEDIUM FLATTENED RIGHT PARENTHESIS ORNAMENT", aliases: &[] },
        Codepoint { codepoint: 0x276C, name: "MEDIUM LEFT-POINTING ANGLE BRACKET ORNAMENT", aliases: &[] },
        Codepoint { codepoint: 0x276D, name: "MEDIUM RIGHT-POINTING ANGLE BRACKET ORNAMENT", aliases: &[] },
        Codepoint { codepoint: 0x276E, name: "HEAVY LEFT-POINTING ANGLE QUOTATION MARK ORNAMENT", aliases: &[] },
        Codepoint { codepoint: 0x276F, name: "HEAVY RIGHT-POINTING ANGLE QUOTATION MARK ORNAMENT", aliases: &[] },
        Codepoint { codepoint: 0x2770, name: "HEAVY LEFT-POINTING ANGLE BRACKET ORNAMENT", aliases: &[] },
        Codepoint { codepoint: 0x2771, name: "HEAVY RIGHT-POINTING ANGLE BRACKET ORNAMENT", aliases: &[] },
        Codepoint { codepoint: 0x2772, name: "LIGHT LEFT TORTOISE SHELL BRACKET ORNAMENT", aliases: &[] },
        Codepoint { codepoint: 0x2773, name: "LIGHT RIGHT TORTOISE SHELL BRACKET ORNAMENT", aliases: &[] },
        Codepoint { codepoint: 0x2774, name: "MEDIUM LEFT CURLY BRACKET ORNAMENT", aliases: &[] },
        Codepoint { codepoint: 0x2775, name: "MEDIUM RIGHT CURLY BRACKET ORNAMENT", aliases: &[] },
        Codepoint { codepoint: 0x2776, name: "DINGBAT NEGATIVE CIRCLED DIGIT ONE", aliases: &["INVERSE CIRCLED DIGIT ONE"] },
        Codepoint { codepoint: 0x2777, name: "DINGBAT NEGATIVE CIRCLED DIGIT TWO", aliases: &["INVERSE CIRCLED DIGIT TWO"] },
        Codepoint { codepoint: 0x2778, name: "DINGBAT NEGATIVE CIRCLED DIGIT THREE", aliases: &["INVERSE CIRCLED DIGIT THREE"] },
        Codepoint { codepoint: 0x2779, name: "DINGBAT NEGATIVE CIRCLED DIGIT FOUR", aliases: &["INVERSE CIRCLED DIGIT FOUR"] },
        Codepoint { codepoint: 0x277A, name: "DINGBAT NEGATIVE CIRCLED DIGIT FIVE", aliases: &["INVERSE CIRCLED DIGIT FIVE"] },
        Codepoint { codepoint: 0x277B, name: "DINGBAT NEGATIVE CIRCLED DIGIT SIX", aliases: &["INVERSE CIRCLED DIGIT SIX"] },
        Codepoint { codepoint: 0x277C, name: "DINGBAT NEGATIVE CIRCLED DIGIT SEVEN", aliases: &["INVERSE CIRCLED DIGIT SEVEN"] },
        Codepoint { codepoint: 0x277D, name: "DINGBAT NEGATIVE CIRCLED DIGIT EIGHT", aliases: &["INVERSE CIRCLED DIGIT EIGHT"] },
        Codepoint { codepoint: 0x277E, name: "DINGBAT NEGATIVE CIRCLED DIGIT NINE", aliases: &["INVERSE CIRCLED DIGIT NINE"] },
        Codepoint { codepoint: 0x277F, name: "DINGBAT NEGATIVE CIRCLED NUMBER TEN", aliases: &["INVERSE CIRCLED NUMBER TEN"] },
        Codepoint { codepoint: 0x2780, name: "DINGBAT CIRCLED SANS-SERIF DIGIT ONE", aliases: &["CIRCLED SANS-SERIF DIGIT ONE"] },
        Codepoint { codepoint: 0x2781, name: "DINGBAT CIRCLED SANS-SERIF DIGIT TWO", aliases: &["CIRCLED SANS-SERIF DIGIT TWO"] },
        Codepoint { codepoint: 0x2782, name: "DINGBAT CIRCLED SANS-SERIF DIGIT THREE", aliases: &["CIRCLED SANS-SERIF DIGIT THREE"] },
        Codepoint { codepoint: 0x2783, name: "DINGBAT CIRCLED SANS-SERIF DIGIT FOUR", aliases: &["CIRCLED SANS-SERIF DIGIT FOUR"] },
        Codepoint { codepoint: 0x2784, name: "DINGBAT CIRCLED SANS-SERIF DIGIT FIVE", aliases: &["CIRCLED SANS-SERIF DIGIT FIVE"] },
        Codepoint { codepoint: 0x2785, name: "DINGBAT CIRCLED SANS-SERIF DIGIT SIX", aliases: &["CIRCLED SANS-SERIF DIGIT SIX"] },
        Codepoint { codepoint: 0x2786, name: "DINGBAT CIRCLED SANS-SERIF DIGIT SEVEN", aliases: &["CIRCLED SANS-SERIF DIGIT SEVEN"] },
        Codepoint { codepoint: 0x2787, name: "DINGBAT CIRCLED SANS-SERIF DIGIT EIGHT", aliases: &["CIRCLED SANS-SERIF DIGIT EIGHT"] },
        Codepoint { codepoint: 0x2788, name: "DINGBAT CIRCLED SANS-SERIF DIGIT NINE", aliases: &["CIRCLED SANS-SERIF DIGIT NINE"] },
        Codepoint { codepoint: 0x2789, name: "DINGBAT CIRCLED SANS-SERIF NUMBER TEN", aliases: &["CIRCLED SANS-SERIF NUMBER TEN"] },
        Codepoint { codepoint: 0x278A, name: "DINGBAT NEGATIVE CIRCLED SANS-SERIF DIGIT ONE", aliases: &["INVERSE CIRCLED SANS-SERIF DIGIT ONE"] },
        Codepoint { codepoint: 0x278B, name: "DINGBAT NEGATIVE CIRCLED SANS-SERIF DIGIT TWO", aliases: &["INVERSE CIRCLED SANS-SERIF DIGIT TWO"] },
        Codepoint { codepoint: 0x278C, name: "DINGBAT NEGATIVE CIRCLED SANS-SERIF DIGIT THREE", aliases: &["INVERSE CIRCLED SANS-SERIF DIGIT THREE"] },
        Codepoint { codepoint: 0x278D, name: "DINGBAT NEGATIVE CIRCLED SANS-SERIF DIGIT FOUR", aliases: &["INVERSE CIRCLED SANS-SERIF DIGIT FOUR"] },
    ];
    assert(v@ =~= codepoint_table_229());
    v
}

pub open spec fn codepoint_table_230() -> Seq<Codepoint> {
    seq![
        Codepoint { codepoint: 0x278E, name: "DINGBAT NEGATIVE CIRCLED SANS-SERIF DIGIT FIVE", aliases: &["INVERSE CIRCLED SANS-SERIF DIGIT FIVE"] },
        Codepoint { codepoint: 0x278F, name: "DINGBAT NEGATIVE CIRCLED SANS-SERIF DIGIT SIX", aliases: &["INVERSE CIRCLED SANS-SERIF DIGIT SIX"] },
        Codepoint { codepoint: 0x2790, name: "DINGBAT NEGATIVE CIRCLED SANS-SERIF DIGIT SEVEN", aliases: &["INVERSE CIRCLED SANS-SERIF DIGIT SEVEN"] },
        Codepoint { codepoint: 0x2791, name: "DINGBAT NEGATIVE CIRCLED SANS-SERIF DIGIT EIGHT", aliases: &["INVERSE CIRCLED SANS-SERIF DIGIT EIGHT"] },
        Codepoint { codepoint: 0x2792, name: "DINGBAT NEGATIVE CIRCLED SANS-SERIF DIGIT NINE", aliases: &["INVERSE CIRCLED SANS-SERIF DIGIT NINE"] },
        Codepoint { codepoint: 0x2793, name: "DINGBAT NEGATIVE CIRCLED SANS-SERIF NUMBER TEN", aliases: &["INVERSE CIRCLED SANS-SERIF NUMBER TEN"] },
        Codepoint { codepoint: 0x2794, name: "HEAVY WIDE-HEADED RIGHTWARDS ARROW", aliases: &["HEAVY WIDE-HEADED RIGHT ARROW"] },
        Codepoint { codepoint: 0x2795, name: "HEAVY PLUS SIGN", aliases: &[] },
        Codepoint { codepoint: 0x2796, name: "HEAVY MINUS SIGN", aliases: &[] },
        Codepoint { codepoint: 0x2797, name: "HEAVY DIVISION SIGN", aliases: &[] },
        Codepoint { codepoint: 0x2798, name: "HEAVY SOUTH EAST ARROW", aliases: &["HEAVY LOWER RIGHT ARROW"] },
        Codepoint { codepoint: 0x2799, name: "HEAVY RIGHTWARDS ARROW", aliases: &["HEAVY RIGHT ARROW"] },
        Codepoint { codepoint: 0x279A, name: "HEAVY NORTH EAST ARROW", aliases: &["HEAVY UPPER RIGHT ARROW"] },
        Codepoint { codepoint: 0x279B, name: "DRAFTING POINT RIGHTWARDS ARROW", aliases: &["DRAFTING POINT RIGHT ARROW"] },
        Codepoint { codepoint: 0x279C, name: "HEAVY ROUND-TIPPED RIGHTWARDS ARROW", aliases: &["HEAVY ROUND-TIPPED RIGHT ARROW"] },
        Codepoint { codepoint: 0x279D, name: "TRIANGLE-HEADED RIGHTWARDS ARROW", aliases: &["TRIANGLE-HEADED RIGHT ARROW"] },
        Codepoint { codepoint: 0x279E, name: "HEAVY TRIANGLE-HEADED RIGHTWARDS ARROW", aliases: &["HEAVY TRIANGLE-HEADED RIGHT ARROW"] },
        Codepoint { codepoint: 0x279F, name: "DASHED TRIANGLE-HEADED RIGHTWARDS ARROW", aliases: &["DASHED TRIANGLE-HEADED RIGHT ARROW"] },
        Codepoint { codepoint: 0x27A0, name: "HEAVY DASHED TRIANGLE-HEADED RIGHTWARDS ARROW", aliases: &["HEAVY DASHED TRIANGLE-HEADED RIGHT ARROW"] },
        Codepoint { codepoint: 0x27A1, name: "BLACK RIGHTWARDS ARROW", aliases: &["BLACK RIGHT ARROW"] },
        Codepoint { codepoint: 0x27A2, name: "THREE-D TOP-LIGHTED RIGHTWARDS ARROWHEAD", aliases: &["THREE-D TOP-LIGHTED RIGHT ARROWHEAD"] },
        Codepoint { codepoint: 0x27A3, name: "THREE-D BOTTOM-LIGHTED RIGHTWARDS ARROWHEAD", aliases: &["THREE-D BOTTOM-LIGHTED RIGHT ARROWHEAD"] },
        Codepoint { codepoint: 0x27A4, name: "BLACK RIGHTWARDS ARROWHEAD", aliases: &["BLACK RIGHT ARROWHEAD"] },
        Codepoint { codepoint: 0x27A5, name: "HEAVY BLACK CURVED DOWNWARDS AND RIGHTWARDS ARROW", aliases: &["HEAVY BLACK CURVED DOWN AND RIGHT ARROW"] },
        Codepoint { codepoint: 0x27A6, name: "HEAVY BLACK CURVED UPWARDS AND RIGHTWARDS ARROW", aliases: &["HEAVY BLACK CURVED UP AND RIGHT ARROW"] },
        Codepoint { codepoint: 0x27A7, name: "SQUAT BLACK RIGHTWARDS ARROW", aliases: &["SQUAT BLACK RIGHT ARROW"] },
        Codepoint { codepoint: 0x27A8, name: "HEAVY CONCAVE-POINTED BLACK RIGHTWARDS ARROW", aliases: &["HEAVY CONCAVE-POINTED BLACK RIGHT ARROW"] },
        Codepoint { codepoint: 0x27A9, name: "RIGHT-SHADED WHITE RIGHTWARDS ARROW", aliases: &["RIGHT-SHADED WHITE RIGHT ARROW"] },
        Codepoint { codepoint: 0x27AA, name: "LEFT-SHADED WHITE RIGHTWARDS ARROW", aliases: &["LEFT-SHADED WHITE RIGHT ARROW"] },
        Codepoint { codepoint: 0x27AB, name: "BACK-TILTED SHADOWED WHITE RIGHTWARDS ARROW", aliases: &["BACK-TILTED SHADOWED WHITE RIGHT ARROW"] },
        Codepoint { codepoint: 0x27AC, name: "FRONT-TILTED SHADOWED WHITE RIGHTWARDS ARROW", aliases: &["FRONT-TILTED SHADOWED WHITE RIGHT ARROW"] },
        Codepoint { codepoint: 0x27AD, name: "HEAVY LOWER RIGHT-SHADOWED WHITE RIGHTWARDS ARROW", aliases: &["HEAVY LOWER RIGHT-SHADOWED WHITE RIGHT ARROW"] },
        Codepoint { codepoint: 0x27AE, name: "HEAVY UPPER RIGHT-SHADOWED WHITE RIGHTWARDS ARROW", aliases: &["HEAVY UPPER RIGHT-SHADOWED WHITE RIGHT ARROW"] },
        Codepoint { codepoint: 0x27AF, name: "NOTCHED LOWER RIGHT-SHADOWED WHITE RIGHTWARDS ARROW", aliases: &["NOTCHED LOWER RIGHT-SHADOWED WHITE RIGHT ARROW"] },
        Codepoint { codepoint: 0x27B0, name: "CURLY LOOP", aliases: &[] },
        Codepoint { codepoint: 0x27B1, name: "NOTCHED UPPER RIGHT-SHADOWED WHITE RIGHTWARDS ARROW", aliases: &["NOTCHED UPPER RIGHT-SHADOWED WHITE RIGHT ARROW"] },
        Codepoint { codepoint: 0x27B2, name: "CIRCLED HEAVY WHITE RIGHTWARDS ARROW", aliases: &["CIRCLED HEAVY WHITE RIGHT ARROW"] },
        Codepoint { codepoint: 0x27B3, name: "WHITE-FEATHERED RIGHTWARDS ARROW", aliases: &["WHITE-FEATHERED RIGHT ARROW"] },
        Codepoint { codepoint: 0x27B4, name: "BLACK-FEATHERED SOUTH EAST ARROW", aliases: &["BLACK-FEATHERED LOWER RIGHT ARROW"] },
        Codepoint { codepoint: 0x27B5, name: "BLACK-FEATHERED RIGHTWARDS ARROW", aliases: &["BLACK-FEATHERED RIGHT ARROW"] },
    ]
}

fn all_codepoints_230() -> (v: Vec<Codepoint>)
    ensures
        v@ == codepoint_table_230(),
{
    let v = vec![
        Codepoint { codepoint: 0x278E, name: "DINGBAT NEGATIVE CIRCLED SANS-SERIF DIGIT FIVE", aliases: &["INVERSE CIRCLED SANS-SERIF DIGIT FIVE"] },
        Codepoint { codepoint: 0x278F, name: "DINGBAT NEGATIVE CIRCLED SANS-SERIF DIGIT SIX", aliases: &["INVERSE CIRCLED SANS-SERIF DIGIT SIX"] },
        Codepoint { codepoint: 0x2790, name: "DINGBAT NEGATIVE CIRCLED SANS-SERIF DIGIT SEVEN", aliases: &["INVERSE CIRCLED SANS-SERIF DIGIT SEVEN"] },
        Codepoint { codepoint: 0x2791, name: "DINGBAT NEGATIVE CIRCLED SANS-SERIF DIGIT EIGHT", aliases: &["INVERSE CIRCLED SANS-SERIF DIGIT EIGHT"] },
        Codepoint { codepoint: 0x2792, name: "DINGBAT NEGATIVE CIRCLED SANS-SERIF DIGIT NINE", aliases: &["INVERSE CIRCLED SANS-SERIF DIGIT NINE"] },
        Codepoint { codepoint: 0x2793, name: "DINGBAT NEGATIVE CIRCLED SANS-SERIF NUMBER TEN", aliases: &["INVERSE CIRCLED SANS-SERIF NUMBER TEN"] },
        Codepoint { codepoint: 0x2794, name: "HEAVY WIDE-HEADED RIGHTWARDS ARROW", aliases: &["HEAVY WIDE-HEADED RIGHT ARROW"] },
        Codepoint { codepoint: 0x2795, name: "HEAVY PLUS SIGN", aliases: &[] },
        Codepoint { codepoint: 0x2796, name: "HEAVY MINUS SIGN", aliases: &[] },
        Codepoint { codepoint: 0x2797, name: "HEAVY DIVISION SIGN", aliases: &[] },
        Codepoint { codepoint: 0x2798, name: "HEAVY SOUTH EAST ARROW", aliases: &["HEAVY LOWER RIGHT ARROW"] },
        Codepoint { codepoint: 0x2799, name: "HEAVY RIGHTWARDS ARROW", aliases: &["HEAVY RIGHT ARROW"] },
        Codepoint { codepoint: 0x279A, name: "HEAVY NORTH EAST ARROW", aliases: &["HEAVY UPPER RIGHT ARROW"] },
        Codepoint { codepoint: 0x279B, name: "DRAFTING POINT RIGHTWARDS ARROW", aliases: &["DRAFTING POINT RIGHT ARROW"] },
        Codepoint { codepoint: 0x279C, name: "HEAVY ROUND-TIPPED RIGHTWARDS ARROW", aliases: &["HEAVY ROUND-TIPPED RIGHT ARROW"] },
        Codepoint { codepoint: 0x279D, name: "TRIANGLE-HEADED RIGHTWARDS ARROW", aliases: &["TRIANGLE-HEADED RIGHT ARROW"] },
        Codepoint { codepoint: 0x279E, name: "HEAVY TRIANGLE-HEADED RIGHTWARDS ARROW", aliases: &["HEAVY TRIANGLE-HEADED RIGHT ARROW"] },
        Codepoint { codepoint: 0x279F, name: "DASHED TRIANGLE-HEADED RIGHTWARDS ARROW", aliases: &["DASHED TRIANGLE-HEADED RIGHT ARROW"] },
        Codepoint { codepoint: 0x27A0, name: "HEAVY DASHED TRIANGLE-HEADED RIGHTWARDS ARROW", aliases: &["HEAVY DASHED TRIANGLE-HEADED RIGHT ARROW"] },
        Codepoint { codepoint: 0x27A1, name: "BLACK RIGHTWARDS ARROW", aliases: &["BLACK RIGHT ARROW"] },
        Codepoint { codepoint: 0x27A2, name: "THREE-D TOP-LIGHTED RIGHTWARDS ARROWHEAD", aliases: &["THREE-D TOP-LIGHTED RIGHT ARROWHEAD"] },
        Codepoint { codepoint: 0x27A3, name: "THREE-D BOTTOM-LIGHTED RIGHTWARDS ARROWHEAD", aliases: &["THREE-D BOTTOM-LIGHTED RIGHT ARROWHEAD"] },
        Codepoint { codepoint: 0x27A4, name: "BLACK RIGHTWARDS ARROWHEAD", aliases: &["BLACK RIGHT ARROWHEAD"] },
        Codepoint { codepoint: 0x27A5, name: "HEAVY BLACK CURVED DOWNWARDS AND RIGHTWARDS ARROW", aliases: &["HEAVY BLACK CURVED DOWN AND RIGHT ARROW"] },
        Codepoint { codepoint: 0x27A6, name: "HEAVY BLACK CURVED UPWARDS AND RIGHTWARDS ARROW", aliases: &["HEAVY BLACK CURVED UP AND RIGHT ARROW"] },
        Codepoint { codepoint: 0x27A7, name: "SQUAT BLACK RIGHTWARDS ARROW", aliases: &["SQUAT BLACK RIGHT ARROW"] },
        Codepoint { codepoint: 0x27A8, name: "HEAVY CONCAVE-POINTED BLACK RIGHTWARDS ARROW", aliases: &["HEAVY CONCAVE-POINTED BLACK RIGHT ARROW"] },
        Codepoint { codepoint: 0x27A9, name: "RIGHT-SHADED WHITE RIGHTWARDS ARROW", aliases: &["RIGHT-SHADED WHITE RIGHT ARROW"] },
        Codepoint { codepoint: 0x27AA, name: "LEFT-SHADED WHITE RIGHTWARDS ARROW", aliases: &["LEFT-SHADED WHITE RIGHT ARROW"] },
        Codepoint { codepoint: 0x27AB, name: "BACK-TILTED SHADOWED WHITE RIGHTWARDS ARROW", aliases: &["BACK-TILTED SHADOWED WHITE RIGHT ARROW"] },
        Codepoint { codepoint: 0x27AC, name: "FRONT-TILTED SHADOWED WHITE RIGHTWARDS ARROW", aliases: &["FRONT-TILTED SHADOWED WHITE RIGHT ARROW"] },
        Codepoint { codepoint: 0x27AD, name: "HEAVY LOWER RIGHT-SHADOWED WHITE RIGHTWARDS ARROW", aliases: &["HEAVY LOWER RIGHT-SHADOWED WHITE RIGHT ARROW"] },
        Codepoint { codepoint: 0x27AE, name: "HEAVY UPPER RIGHT-SHADOWED WHITE RIGHTWARDS ARROW", aliases: &["HEAVY UPPER RIGHT-SHADOWED WHITE RIGHT ARROW"] },
        Codepoint { codepoint: 0x27AF, name: "NOTCHED LOWER RIGHT-SHADOWED WHITE RIGHTWARDS ARROW", aliases: &["NOTCHED LOWER RIGHT-SHADOWED WHITE RIGHT ARROW"] },
        Codepoint { codepoint: 0x27B0, name: "CURLY LOOP", aliases: &[] },
        Codepoint { codepoint: 0x27B1, name: "NOTCHED UPPER RIGHT-SHADOWED WHITE RIGHTWARDS ARROW", aliases: &["NOTCHED UPPER RIGHT-SHADOWED WHITE RIGHT ARROW"] },
        Codepoint { codepoint: 0x27B2, name: "CIRCLED HEAVY WHITE RIGHTWARDS ARROW", aliases: &["CIRCLED HEAVY WHITE RIGHT ARROW"] },
        Codepoint { codepoint: 0x27B3, name: "WHITE-FEATHERED RIGHTWARDS ARROW", aliases: &["WHITE-FEATHERED RIGHT ARROW"] },
        Codepoint { codepoint: 0x27B4, name: "BLACK-FEATHERED SOUTH EAST ARROW", aliases: &["BLACK-FEATHERED LOWER RIGHT ARROW"] },
        Codepoint { codepoint: 0x27B5, name: "BLACK-FEATHERED RIGHTWARDS ARROW", aliases: &["BLACK-FEATHERED RIGHT ARROW"] },
    ];
    assert(v@ =~= codepoint_table_230());
    v
}

pub open spec fn codepoint_table_231() -> Seq<Codepoint> {
    seq![
        Codepoint { codepoint: 0x27B6, name: "BLACK-FEATHERED NORTH EAST ARROW", aliases: &["BLACK-FEATHERED UPPER RIGHT ARROW"] },
        Codepoint { codepoint: 0x27B7, name: "HEAVY BLACK-FEATHERED SOUTH EAST ARROW", aliases: &["HEAVY BLACK-FEATHERED LOWER RIGHT ARROW"] },
        Codepoint { codepoint: 0x27B8, name: "HEAVY BLACK-FEATHERED RIGHTWARDS ARROW", aliases: &["HEAVY BLACK-FEATHERED RIGHT ARROW"] },
        Codepoint { codepoint: 0x27B9, name: "HEAVY BLACK-FEATHERED NORTH EAST ARROW", aliases: &["HEAVY BLACK-FEATHERED UPPER RIGHT ARROW"] },
        Codepoint { codepoint: 0x27BA, name: "TEARDROP-BARBED RIGHTWARDS ARROW", aliases: &["TEARDROP-BARBED RIGHT ARROW"] },
        Codepoint { codepoint: 0x27BB, name: "HEAVY TEARDROP-SHANKED RIGHTWARDS ARROW", aliases: &["HEAVY TEARDROP-SHANKED RIGHT ARROW"] },
        Codepoint { codepoint: 0x27BC, name: "WEDGE-TAILED RIGHTWARDS ARROW", aliases: &["WEDGE-TAILED RIGHT ARROW"] },
        Codepoint { codepoint: 0x27BD, name: "HEAVY WEDGE-TAILED RIGHTWARDS ARROW", aliases: &["HEAVY WEDGE-TAILED RIGHT ARROW"] },
        Codepoint { codepoint: 0x27BE, name: "OPEN-OUTLINED RIGHTWARDS ARROW", aliases: &["OPEN-OUTLINED RIGHT ARROW"] },
        Codepoint { codepoint: 0x27BF, name: "DOUBLE CURLY LOOP", aliases: &[] },
        Codepoint { codepoint: 0x27C0, name: "THREE DIMENSIONAL ANGLE", aliases: &[] },
        Codepoint { codepoint: 0x27C1, name: "WHITE TRIANGLE CONTAINING SMALL WHITE TRIANGLE", aliases: &[] },
        Codepoint { codepoint: 0x27C2, name: "PERPENDICULAR", aliases: &[] },
        Codepoint { codepoint: 0x27C3, name: "OPEN SUBSET", aliases: &[] },
        Codepoint { codepoint: 0x27C4, name: "OPEN SUPERSET", aliases: &[] },
        Codepoint { codepoint: 0x27C5, name: "LEFT S-SHAPED BAG DELIMITER", aliases: &[] },
        Codepoint { codepoint: 0x27C6, name: "RIGHT S-SHAPED BAG DELIMITER", aliases: &[] },
        Codepoint { codepoint: 0x27C7, name: "OR WITH DOT INSIDE", aliases: &[] },
        Codepoint { codepoint: 0x27C8, name: "REVERSE SOLIDUS PRECEDING SUBSET", aliases: &[] },
        Codepoint { codepoint: 0x27C9, name: "SUPERSET PRECEDING SOLIDUS", aliases: &[] },
        Codepoint { codepoint: 0x27CA, name: "VERTICAL BAR WITH HORIZONTAL STROKE", aliases: &[] },
        Codepoint { codepoint: 0x27CB, name: "MATHEMATICAL RISING DIAGONAL", aliases: &[] },
        Codepoint { codepoint: 0x27CC, name: "LONG DIVISION", aliases: &[] },
        Codepoint { codepoint: 0x27CD, name: "MATHEMATICAL FALLING DIAGONAL", aliases: &[] },
        Codepoint { codepoint: 0x27CE, name: "SQUARED LOGICAL AND", aliases: &[] },
        Codepoint { codepoint: 0x27CF, name: "SQUARED LOGICAL OR", aliases: &[] },
        Codepoint { codepoint: 0x27D0, name: "WHITE DIAMOND WITH CENTRED DOT", aliases: &[] },
        Codepoint { codepoint: 0x27D1, name: "AND WITH DOT", aliases: &[] },
        Codepoint { codepoint: 0x27D2, name: "ELEMENT OF OPENING UPWARDS", aliases: &[] },
        Codepoint { codepoint: 0x27D3, name: "LOWER RIGHT CORNER WITH DOT", aliases: &[] },
        Codepoint { codepoint: 0x27D4, name: "UPPER LEFT CORNER WITH DOT", aliases: &[] },
        Codepoint { codepoint: 0x27D5, name: "LEFT OUTER JOIN", aliases: &[] },
        Codepoint { codepoint: 0x27D6, name: "RIGHT OUTER JOIN", aliases: &[] },
        Codepoint { codepoint: 0x27D7, name: "FULL OUTER JOIN", aliases: &[] },
        Codepoint { codepoint: 0x27D8, name: "LARGE UP TACK", aliases: &[] },
        Codepoint { codepoint: 0x27D9, name: "LARGE DOWN TACK", aliases: &[] },
        Codepoint { codepoint: 0x27DA, name: "LEFT AND RIGHT DOUBLE TURNSTILE", aliases: &[] },
        Codepoint { codepoint: 0x27DB, name: "LEFT AND RIGHT TACK", aliases: &[] },
        Codepoint { codepoint: 0x27DC, name: "LEFT MULTIMAP", aliases: &[] },
        Codepoint { codepoint: 0x27DD, name: "LONG RIGHT TACK", aliases: &[] },
    ]
}

fn all_codepoints_231() -> (v: Vec<Codepoint>)
    ensures
        v@ == codepoint_table_231(),
{
    let v = vec![
        Codepoint { codepoint: 0x27B6, name: "BLACK-FEATHERED NORTH EAST ARROW", aliases: &["BLACK-FEATHERED UPPER RIGHT ARROW"] },
        Codepoint { codepoint: 0x27B7, name: "HEAVY BLACK-FEATHERED SOUTH EAST ARROW", aliases: &["HEAVY BLACK-FEATHERED LOWER RIGHT ARROW"] },
        Codepoint { codepoint: 0x27B8, name: "HEAVY BLACK-FEATHERED RIGHTWARDS ARROW", aliases: &["HEAVY BLACK-FEATHERED RIGHT ARROW"] },
        Codepoint { codepoint: 0x27B9, name: "HEAVY BLACK-FEATHERED NORTH EAST ARROW", aliases: &["HEAVY BLACK-FEATHERED UPPER RIGHT ARROW"] },
        Codepoint { codepoint: 0x27BA, name: "TEARDROP-BARBED RIGHTWARDS ARROW", aliases: &["TEARDROP-BARBED RIGHT ARROW"] },
        Codepoint { codepoint: 0x27BB, name: "HEAVY TEARDROP-SHANKED RIGHTWARDS ARROW", aliases: &["HEAVY TEARDROP-SHANKED RIGHT ARROW"] },
        Codepoint { codepoint: 0x27BC, name: "WEDGE-TAILED RIGHTWARDS ARROW", aliases: &["WEDGE-TAILED RIGHT ARROW"] },
        Codepoint { codepoint: 0x27BD, name: "HEAVY WEDGE-TAILED RIGHTWARDS ARROW", aliases: &["HEAVY WEDGE-TAILED RIGHT ARROW"] },
        Codepoint { codepoint: 0x27BE, name: "OPEN-OUTLINED RIGHTWARDS ARROW", aliases: &["OPEN-OUTLINED RIGHT ARROW"] },
        Codepoint { codepoint: 0x27BF, name: "DOUBLE CURLY LOOP", aliases: &[] },
        Codepoint { codepoint: 0x27C0, name: "THREE DIMENSIONAL ANGLE", aliases: &[] },
        Codepoint { codepoint: 0x27C1, name: "WHITE TRIANGLE CONTAINING SMALL WHITE TRIANGLE", aliases: &[] },
        Codepoint { codepoint: 0x27C2, name: "PERPENDICULAR", aliases: &[] },
        Codepoint { codepoint: 0x27C3, name: "OPEN SUBSET", aliases: &[] },
        Codepoint { codepoint: 0x27C4, name: "OPEN SUPERSET", aliases: &[] },
        Codepoint { codepoint: 0x27C5, name: "LEFT S-SHAPED BAG DELIMITER", aliases: &[] },
        Codepoint { codepoint: 0x27C6, name: "RIGHT S-SHAPED BAG DELIMITER", aliases: &[] },
        Codepoint { codepoint: 0x27C7, name: "OR WITH DOT INSIDE", aliases: &[] },
        Codepoint { codepoint: 0x27C8, name: "REVERSE SOLIDUS PRECEDING SUBSET", aliases: &[] },
        Codepoint { codepoint: 0x27C9, name: "SUPERSET PRECEDING SOLIDUS", aliases: &[] },
        Codepoint { codepoint: 0x27CA, name: "VERTICAL BAR WITH HORIZONTAL STROKE", aliases: &[] },
        Codepoint { codepoint: 0x27CB, name: "MATHEMATICAL RISING DIAGONAL", aliases: &[] },
        Codepoint { codepoint: 0x27CC, name: "LONG DIVISION", aliases: &[] },
        Codepoint { codepoint: 0x27CD, name: "MATHEMATICAL FALLING DIAGONAL", aliases: &[] },
        Codepoint { codepoint: 0x27CE, name: "SQUARED LOGICAL AND", aliases: &[] },
        Codepoint { codepoint: 0x27CF, name: "SQUARED LOGICAL OR", aliases: &[] },
        Codepoint { codepoint: 0x27D0, name: "WHITE DIAMOND WITH CENTRED DOT", aliases: &[] },
        Codepoint { codepoint: 0x27D1, name: "AND WITH DOT", aliases: &[] },
        Codepoint { codepoint: 0x27D2, name: "ELEMENT OF OPENING UPWARDS", aliases: &[] },
        Codepoint { codepoint: 0x27D3, name: "LOWER RIGHT CORNER WITH DOT", aliases: &[] },
        Codepoint { codepoint: 0x27D4, name: "UPPER LEFT CORNER WITH DOT", aliases: &[] },
        Codepoint { codepoint: 0x27D5, name: "LEFT OUTER JOIN", aliases: &[] },
        Codepoint { codepoint: 0x27D6, name: "RIGHT OUTER JOIN", aliases: &[] },
        Codepoint { codepoint: 0x27D7, name: "FULL OUTER JOIN", aliases: &[] },
        Codepoint { codepoint: 0x27D8, name: "LARGE UP TACK", aliases: &[] },
        Codepoint { codepoint: 0x27D9, name: "LARGE DOWN TACK", aliases: &[] },
        Codepoint { codepoint: 0x27DA, name: "LEFT AND RIGHT DOUBLE TURNSTILE", aliases: &[] },
        Codepoint { codepoint: 0x27DB, name: "LEFT AND RIGHT TACK", aliases: &[] },
        Codepoint { codepoint: 0x27DC, name: "LEFT MULTIMAP", aliases: &[] },
        Codepoint { codepoint: 0x27DD, name: "LONG RIGHT TACK", aliases: &[] },
    ];
    assert(v@ =~= codepoint_table_231());
    v
}

pub open spec fn codepoint_table_232() -> Seq<Codepoint> {
    seq![
        Codepoint { codepoint: 0x27DE, name: "LONG LEFT TACK", aliases: &[] },
        Codepoint { codepoint: 0x27DF, name: "UP TACK WITH CIRCLE ABOVE", aliases: &[] },
        Codepoint { codepoint: 0x27E0, name: "LOZENGE DIVIDED BY HORIZONTAL RULE", aliases: &[] },
        Codepoint { codepoint: 0x27E1, name: "WHITE CONCAVE-SIDED DIAMOND", aliases: &[] },
        Codepoint { codepoint: 0x27E2, name: "WHITE CONCAVE-SIDED DIAMOND WITH LEFTWARDS TICK", aliases: &[] },
        Codepoint { codepoint: 0x27E3, name: "WHITE CONCAVE-SIDED DIAMOND WITH RIGHTWARDS TICK", aliases: &[] },
        Codepoint { codepoint: 0x27E4, name: "WHITE SQUARE WITH LEFTWARDS TICK", aliases: &[] },
        Codepoint { codepoint: 0x27E5, name: "WHITE SQUARE WITH RIGHTWARDS TICK", aliases: &[] },
        Codepoint { codepoint: 0x27E6, name: "MATHEMATICAL LEFT WHITE SQUARE BRACKET", aliases: &[] },
        Codepoint { codepoint: 0x27E7, name: "MATHEMATICAL RIGHT WHITE SQUARE BRACKET", aliases: &[] },
        Codepoint { codepoint: 0x27E8, name: "MATHEMATICAL LEFT ANGLE BRACKET", aliases: &[] },
        Codepoint { codepoint: 0x27E9, name: "MATHEMATICAL RIGHT ANGLE BRACKET", aliases: &[] },
        Codepoint { codepoint: 0x27EA, name: "MATHEMATICAL LEFT DOUBLE ANGLE BRACKET", aliases: &[] },
        Codepoint { codepoint: 0x27EB, name: "MATHEMATICAL RIGHT DOUBLE ANGLE BRACKET", aliases: &[] },
        Codepoint { codepoint: 0x27EC, name: "MATHEMATICAL LEFT WHITE TORTOISE SHELL BRACKET", aliases: &[] },
        Codepoint { codepoint: 0x27ED, name: "MATHEMATICAL RIGHT WHITE TORTOISE SHELL BRACKET", aliases: &[] },
        Codepoint { codepoint: 0x27EE, name: "MATHEMATICAL LEFT FLATTENED PARENTHESIS", aliases: &[] },
        Codepoint { codepoint: 0x27EF, name: "MATHEMATICAL RIGHT FLATTENED PARENTHESIS", aliases: &[] },
        Codepoint { codepoint: 0x27F0, name: "UPWARDS QUADRUPLE ARROW", aliases: &[] },
        Codepoint { codepoint: 0x27F1, name: "DOWNWARDS QUADRUPLE ARROW", aliases: &[] },
        Codepoint { codepoint: 0x27F2, name: "ANTICLOCKWISE GAPPED CIRCLE ARROW", aliases: &[] },
        Codepoint { codepoint: 0x27F3, name: "CLOCKWISE GAPPED CIRCLE ARROW", aliases: &[] },
        Codepoint { codepoint: 0x27F4, name: "RIGHT ARROW WITH CIRCLED PLUS", aliases: &[] },
        Codepoint { codepoint: 0x27F5, name: "LONG LEFTWARDS ARROW", aliases: &[] },
        Codepoint { codepoint: 0x27F6, name: "LONG RIGHTWARDS ARROW", aliases: &[] },
        Codepoint { codepoint: 0x27F7, name: "LONG LEFT RIGHT ARROW", aliases: &[] },
        Codepoint { codepoint: 0x27F8, name: "LONG LEFTWARDS DOUBLE ARROW", aliases: &[] },
        Codepoint { codepoint: 0x27F9, name: "LONG RIGHTWARDS DOUBLE ARROW", aliases: &[] },
        Codepoint { codepoint: 0x27FA, name: "LONG LEFT RIGHT DOUBLE ARROW", aliases: &[] },
        Codepoint { codepoint: 0x27FB, name: "LONG LEFTWARDS ARROW FROM BAR", aliases: &[] },
        Codepoint { codepoint: 0x27FC, name: "LONG RIGHTWARDS ARROW FROM BAR", aliases: &[] },
        Codepoint { codepoint: 0x27FD, name: "LONG LEFTWARDS DOUBLE ARROW FROM BAR", aliases: &[] },
        Codepoint { codepoint: 0x27FE, name: "LONG RIGHTWARDS DOUBLE ARROW FROM BAR", aliases: &[] },
        Codepoint { codepoint: 0x27FF, name: "LONG RIGHTWARDS SQUIGGLE ARROW", aliases: &[] },
        Codepoint { codepoint: 0x2800, name: "BRAILLE PATTERN BLANK", aliases: &[] },
        Codepoint { codepoint: 0x2801, name: "BRAILLE PATTERN DOTS-1", aliases: &[] },
        Codepoint { codepoint: 0x2802, name: "BRAILLE PATTERN DOTS-2", aliases: &[] },
        Codepoint { codepoint: 0x2803, name: "BRAILLE PATTERN DOTS-12", aliases: &[] },
        Codepoint { codepoint: 0x2804, name: "BRAILLE PATTERN DOTS-3", aliases: &[] },
        Codepoint { codepoint: 0x2805, name: "BRAILLE PATTERN DOTS-13", aliases: &[] },
    ]
}

fn all_codepoints_232() -> (v: Vec<Codepoint>)
    ensures
        v@ == codepoint_table_232(),
{
    let v = vec![
        Codepoint { codepoint: 0x27DE, name: "LONG LEFT TACK", aliases: &[] },
        Codepoint { codepoint: 0x27DF, name: "UP TACK WITH CIRCLE ABOVE", aliases: &[] },
        Codepoint { codepoint: 0x27E0, name: "LOZENGE DIVIDED BY HORIZONTAL RULE", aliases: &[] },
        Codepoint { codepoint: 0x27E1, name: "WHITE CONCAVE-SIDED DIAMOND", aliases: &[] },
        Codepoint { codepoint: 0x27E2, name: "WHITE CONCAVE-SIDED DIAMOND WITH LEFTWARDS TICK", aliases: &[] },
        Codepoint { codepoint: 0x27E3, name: "WHITE CONCAVE-SIDED DIAMOND WITH RIGHTWARDS TICK", aliases: &[] },
        Codepoint { codepoint: 0x27E4, name: "WHITE SQUARE WITH LEFTWARDS TICK", aliases: &[] },
        Codepoint { codepoint: 0x27E5, name: "WHITE SQUARE WITH RIGHTWARDS TICK", aliases: &[] },
        Codepoint { codepoint: 0x27E6, name: "MATHEMATICAL LEFT WHITE SQUARE BRACKET", aliases: &[] },
        Codepoint { codepoint: 0x27E7, name: "MATHEMATICAL RIGHT WHITE SQUARE BRACKET", aliases: &[] },
        Codepoint { codepoint: 0x27E8, name: "MATHEMATICAL LEFT ANGLE BRACKET", aliases: &[] },
        Codepoint { codepoint: 0x27E9, name: "MATHEMATICAL RIGHT ANGLE BRACKET", aliases: &[] },
        Codepoint { codepoint: 0x27EA, name: "MATHEMATICAL LEFT DOUBLE ANGLE BRACKET", aliases: &[] },
        Codepoint { codepoint: 0x27EB, name: "MATHEMATICAL RIGHT DOUBLE ANGLE BRACKET", aliases: &[] },
        Codepoint { codepoint: 0x27EC, name: "MATHEMATICAL LEFT WHITE TORTOISE SHELL BRACKET", aliases: &[] },
        Codepoint { codepoint: 0x27ED, name: "MATHEMATICAL RIGHT WHITE TORTOISE SHELL BRACKET", aliases: &[] },
        Codepoint { codepoint: 0x27EE, name: "MATHEMATICAL LEFT FLATTENED PARENTHESIS", aliases: &[] },
        Codepoint { codepoint: 0x27EF, name: "MATHEMATICAL RIGHT FLATTENED PARENTHESIS", aliases: &[] },
        Codepoint { codepoint: 0x27F0, name: "UPWARDS QUADRUPLE ARROW", aliases: &[] },
        Codepoint { codepoint: 0x27F1, name: "DOWNWARDS QUADRUPLE ARROW", aliases: &[] },
        Codepoint { codepoint: 0x27F2, name: "ANTICLOCKWISE GAPPED CIRCLE ARROW", aliases: &[] },
        Codepoint { codepoint: 0x27F3, name: "CLOCKWISE GAPPED CIRCLE ARROW", aliases: &[] },
        Codepoint { codepoint: 0x27F4, name: "RIGHT ARROW WITH CIRCLED PLUS", aliases: &[] },
        Codepoint { codepoint: 0x27F5, name: "LONG LEFTWARDS ARROW", aliases: &[] },
        Codepoint { codepoint: 0x27F6, name: "LONG RIGHTWARDS ARROW", aliases: &[] },
        Codepoint { codepoint: 0x27F7, name: "LONG LEFT RIGHT ARROW", aliases: &[] },
        Codepoint { codepoint: 0x27F8, name: "LONG LEFTWARDS DOUBLE ARROW", aliases: &[] },
        Codepoint { codepoint: 0x27F9, name: "LONG RIGHTWARDS DOUBLE ARROW", aliases: &[] },
        Codepoint { codepoint: 0x27FA, name: "LONG LEFT RIGHT DOUBLE ARROW", aliases: &[] },
        Codepoint { codepoint: 0x27FB, name: "LONG LEFTWARDS ARROW FROM BAR", aliases: &[] },
        Codepoint { codepoint: 0x27FC, name: "LONG RIGHTWARDS ARROW FROM BAR", aliases: &[] },
        Codepoint { codepoint: 0x27FD, name: "LONG LEFTWARDS DOUBLE ARROW FROM BAR", aliases: &[] },
        Codepoint { codepoint: 0x27FE, name: "LONG RIGHTWARDS DOUBLE ARROW FROM BAR", aliases: &[] },
        Codepoint { codepoint: 0x27FF, name: "LONG RIGHTWARDS SQUIGGLE ARROW", aliases: &[] },
        Codepoint { codepoint: 0x2800, name: "BRAILLE PATTERN BLANK", aliases: &[] },
        Codepoint { codepoint: 0x2801, name: "BRAILLE PATTERN DOTS-1", aliases: &[] },
        Codepoint { codepoint: 0x2802, name: "BRAILLE PATTERN DOTS-2", aliases: &[] },
        Codepoint { codepoint: 0x2803, name: "BRAILLE PATTERN DOTS-12", aliases: &[] },
        Codepoint { codepoint: 0x2804, name: "BRAILLE PATTERN DOTS-3", aliases: &[] },
        Codepoint { codepoint: 0x2805, name: "BRAILLE PATTERN DOTS-13", aliases: &[] },
    ];
    assert(v@ =~= codepoint_table_232());
    v
}

pub open spec fn codepoint_table_233() -> Seq<Codepoint> {
    seq![
        Codepoint { codepoint: 0x2806, name: "BRAILLE PATTERN DOTS-23", aliases: &[] },
        Codepoint { codepoint: 0x2807, name: "BRAILLE PATTERN DOTS-123", aliases: &[] },
        Codepoint { codepoint: 0x2808, name: "BRAILLE PATTERN DOTS-4", aliases: &[] },
        Codepoint { codepoint: 0x2809, name: "BRAILLE PATTERN DOTS-14", aliases: &[] },
        Codepoint { codepoint: 0x280A, name: "BRAILLE PATTERN DOTS-24", aliases: &[] },
        Codepoint { codepoint: 0x280B, name: "BRAILLE PATTERN DOTS-124", aliases: &[] },
        Codepoint { codepoint: 0x280C, name: "BRAILLE PATTERN DOTS-34", aliases: &[] },
        Codepoint { codepoint: 0x280D, name: "BRAILLE PATTERN DOTS-134", aliases: &[] },
        Codepoint { codepoint: 0x280E, name: "BRAILLE PATTERN DOTS-234", aliases: &[] },
        Codepoint { codepoint: 0x280F, name: "BRAILLE PATTERN DOTS-1234", aliases: &[] },
        Codepoint { codepoint: 0x2810, name: "BRAILLE PATTERN DOTS-5", aliases: &[] },
        Codepoint { codepoint: 0x2811, name: "BRAILLE PATTERN DOTS-15", aliases: &[] },
        Codepoint { codepoint: 0x2812, name: "BRAILLE PATTERN DOTS-25", aliases: &[] },
        Codepoint { codepoint: 0x2813, name: "BRAILLE PATTERN DOTS-125", aliases: &[] },
        Codepoint { codepoint: 0x2814, name: "BRAILLE PATTERN DOTS-35", aliases: &[] },
        Codepoint { codepoint: 0x2815, name: "BRAILLE PATTERN DOTS-135", aliases: &[] },
        Codepoint { codepoint: 0x2816, name: "BRAILLE PATTERN DOTS-235", aliases: &[] },
        Codepoint { codepoint: 0x2817, name: "BRAILLE PATTERN DOTS-1235", aliases: &[] },
        Codepoint { codepoint: 0x2818, name: "BRAILLE PATTERN DOTS-45", aliases: &[] },
        Codepoint { codepoint: 0x2819, name: "BRAILLE PATTERN DOTS-145", aliases: &[] },
        Codepoint { codepoint: 0x281A, name: "BRAILLE PATTERN DOTS-245", aliases: &[] },
        Codepoint { codepoint: 0x281B, name: "BRAILLE PATTERN DOTS-1245", aliases: &[] },
        Codepoint { codepoint: 0x281C, name: "BRAILLE PATTERN DOTS-345", aliases: &[] },
        Codepoint { codepoint: 0x281D, name: "BRAILLE PATTERN DOTS-1345", aliases: &[] },
        Codepoint { codepoint: 0x281E, name: "BRAILLE PATTERN DOTS-2345", aliases: &[] },
        Codepoint { codepoint: 0x281F, name: "BRAILLE PATTERN DOTS-12345", aliases: &[] },
        Codepoint { codepoint: 0x2820, name: "BRAILLE PATTERN DOTS-6", aliases: &[] },
        Codepoint { codepoint: 0x2821, name: "BRAILLE PATTERN DOTS-16", aliases: &[] },
        Codepoint { codepoint: 0x2822, name: "BRAILLE PATTERN DOTS-26", aliases: &[] },
        Codepoint { codepoint: 0x2823, name: "BRAILLE PATTERN DOTS-126", aliases: &[] },
        Codepoint { codepoint: 0x2824, name: "BRAILLE PATTERN DOTS-36", aliases: &[] },
        Codepoint { codepoint: 0x2825, name: "BRAILLE PATTERN DOTS-136", aliases: &[] },
        Codepoint { codepoint: 0x2826, name: "BRAILLE PATTERN DOTS-236", aliases: &[] },
        Codepoint { codepoint: 0x2827, name: "BRAILLE PATTERN DOTS-1236", aliases: &[] },
        Codepoint { codepoint: 0x2828, name: "BRAILLE PATTERN DOTS-46", aliases: &[] },
        Codepoint { codepoint: 0x2829, name: "BRAILLE PATTERN DOTS-146", aliases: &[] },
        Codepoint { codepoint: 0x282A, name: "BRAILLE PATTERN DOTS-246", aliases: &[] },
        Codepoint { codepoint: 0x282B, name: "BRAILLE PATTERN DOTS-1246", aliases: &[] },
        Codepoint { codepoint: 0x282C, name: "BRAILLE PATTERN DOTS-346", aliases: &[] },
        Codepoint { codepoint: 0x282D, name: "BRAILLE PATTERN DOTS-1346", aliases: &[] },
    ]
}

fn all_codepoints_233() -> (v: Vec<Codepoint>)
    ensures
        v@ == codepoint_table_233(),
{
    let v = vec![
        Codepoint { codepoint: 0x2806, name: "BRAILLE PATTERN DOTS-23", aliases: &[] },
        Codepoint { codepoint: 0x2807, name: "BRAILLE PATTERN DOTS-123", aliases: &[] },
        Codepoint { codepoint: 0x2808, name: "BRAILLE PATTERN DOTS-4", aliases: &[] },
        Codepoint { codepoint: 0x2809, name: "BRAILLE PATTERN DOTS-14", aliases: &[] },
        Codepoint { codepoint: 0x280A, name: "BRAILLE PATTERN DOTS-24", aliases: &[] },
        Codepoint { codepoint: 0x280B, name: "BRAILLE PATTERN DOTS-124", aliases: &[] },
        Codepoint { codepoint: 0x280C, name: "BRAILLE PATTERN DOTS-34", aliases: &[] },
        Codepoint { codepoint: 0x280D, name: "BRAILLE PATTERN DOTS-134", aliases: &[] },
        Codepoint { codepoint: 0x280E, name: "BRAILLE PATTERN DOTS-234", aliases: &[] },
        Codepoint { codepoint: 0x280F, name: "BRAILLE PATTERN DOTS-1234", aliases: &[] },
        Codepoint { codepoint: 0x2810, name: "BRAILLE PATTERN DOTS-5", aliases: &[] },
        Codepoint { codepoint: 0x2811, name: "BRAILLE PATTERN DOTS-15", aliases: &[] },
        Codepoint { codepoint: 0x2812, name: "BRAILLE PATTERN DOTS-25", aliases: &[] },
        Codepoint { codepoint: 0x2813, name: "BRAILLE PATTERN DOTS-125", aliases: &[] },
        Codepoint { codepoint: 0x2814, name: "BRAILLE PATTERN DOTS-35", aliases: &[] },
        Codepoint { codepoint: 0x2815, name: "BRAILLE PATTERN DOTS-135", aliases: &[] },
        Codepoint { codepoint: 0x2816, name: "BRAILLE PATTERN DOTS-235", aliases: &[] },
        Codepoint { codepoint: 0x2817, name: "BRAILLE PATTERN DOTS-1235", aliases: &[] },
        Codepoint { codepoint: 0x2818, name: "BRAILLE PATTERN DOTS-45", aliases: &[] },
        Codepoint { codepoint: 0x2819, name: "BRAILLE PATTERN DOTS-145", aliases: &[] },
        Codepoint { codepoint: 0x281A, name: "BRAILLE PATTERN DOTS-245", aliases: &[] },
        Codepoint { codepoint: 0x281B, name: "BRAILLE PATTERN DOTS-1245", aliases: &[] },
        Codepoint { codepoint: 0x281C, name: "BRAILLE PATTERN DOTS-345", aliases: &[] },
        Codepoint { codepoint: 0x281D, name: "BRAILLE PATTERN DOTS-1345", aliases: &[] },
        Codepoint { codepoint: 0x281E, name: "BRAILLE PATTERN DOTS-2345", aliases: &[] },
        Codepoint { codepoint: 0x281F, name: "BRAILLE PATTERN DOTS-12345", aliases: &[] },
        Codepoint { codepoint: 0x2820, name: "BRAILLE PATTERN DOTS-6", aliases: &[] },
        Codepoint { codepoint: 0x2821, name: "BRAILLE PATTERN DOTS-16", aliases: &[] },
        Codepoint { codepoint: 0x2822, name: "BRAILLE PATTERN DOTS-26", aliases: &[] },
        Codepoint { codepoint: 0x2823, name: "BRAILLE PATTERN DOTS-126", aliases: &[] },
        Codepoint { codepoint: 0x2824, name: "BRAILLE PATTERN DOTS-36", aliases: &[] },
        Codepoint { codepoint: 0x2825, name: "BRAILLE PATTERN DOTS-136", aliases: &[] },
        Codepoint { codepoint: 0x2826, name: "BRAILLE PATTERN DOTS-236", aliases: &[] },
        Codepoint { codepoint: 0x2827, name: "BRAILLE PATTERN DOTS-1236", aliases: &[] },
        Codepoint { codepoint: 0x2828, name: "BRAILLE PATTERN DOTS-46", aliases: &[] },
        Codepoint { codepoint: 0x2829, name: "BRAILLE PATTERN DOTS-146", aliases: &[] },
        Codepoint { codepoint: 0x282A, name: "BRAILLE PATTERN DOTS-246", aliases: &[] },
        Codepoint { codepoint: 0x282B, name: "BRAILLE PATTERN DOTS-1246", aliases: &[] },
        Codepoint { codepoint: 0x282C, name: "BRAILLE PATTERN DOTS-346", aliases: &[] },
        Codepoint { codepoint: 0x282D, name: "BRAILLE PATTERN DOTS-1346", aliases: &[] },
    ];
    assert(v@ =~= codepoint_table_233());
    v
}

pub open spec fn codepoint_table_234() -> Seq<Codepoint> {
    seq![
        Codepoint { codepoint: 0x282E, name: "BRAILLE PATTERN DOTS-2346", aliases: &[] },
        Codepoint { codepoint: 0x282F, name: "BRAILLE PATTERN DOTS-12346", aliases: &[] },
        Codepoint { codepoint: 0x2830, name: "BRAILLE PATTERN DOTS-56", aliases: &[] },
        Codepoint { codepoint: 0x2831, name: "BRAILLE PATTERN DOTS-156", aliases: &[] },
        Codepoint { codepoint: 0x2832, name: "BRAILLE PATTERN DOTS-256", aliases: &[] },
        Codepoint { codepoint: 0x2833, name: "BRAILLE PATTERN DOTS-1256", aliases: &[] },
        Codepoint { codepoint: 0x2834, name: "BRAILLE PATTERN DOTS-356", aliases: &[] },
        Codepoint { codepoint: 0x2835, name: "BRAILLE PATTERN DOTS-1356", aliases: &[] },
        Codepoint { codepoint: 0x2836, name: "BRAILLE PATTERN DOTS-2356", aliases: &[] },
        Codepoint { codepoint: 0x2837, name: "BRAILLE PATTERN DOTS-12356", aliases: &[] },
        Codepoint { codepoint: 0x2838, name: "BRAILLE PATTERN DOTS-456", aliases: &[] },
        Codepoint { codepoint: 0x2839, name: "BRAILLE PATTERN DOTS-1456", aliases: &[] },
        Codepoint { codepoint: 0x283A, name: "BRAILLE PATTERN DOTS-2456", aliases: &[] },
        Codepoint { codepoint: 0x283B, name: "BRAILLE PATTERN DOTS-12456", aliases: &[] },
        Codepoint { codepoint: 0x283C, name: "BRAILLE PATTERN DOTS-3456", aliases: &[] },
        Codepoint { codepoint: 0x283D, name: "BRAILLE PATTERN DOTS-13456", aliases: &[] },
        Codepoint { codepoint: 0x283E, name: "BRAILLE PATTERN DOTS-23456", aliases: &[] },
        Codepoint { codepoint: 0x283F, name: "BRAILLE PATTERN DOTS-123456", aliases: &[] },
        Codepoint { codepoint: 0x2840, name: "BRAILLE PATTERN DOTS-7", aliases: &[] },
        Codepoint { codepoint: 0x2841, name: "BRAILLE PATTERN DOTS-17", aliases: &[] },
        Codepoint { codepoint: 0x2842, name: "BRAILLE PATTERN DOTS-27", aliases: &[] },
        Codepoint { codepoint: 0x2843, name: "BRAILLE PATTERN DOTS-127", aliases: &[] },
        Codepoint { codepoint: 0x2844, name: "BRAILLE PATTERN DOTS-37", aliases: &[] },
        Codepoint { codepoint: 0x2845, name: "BRAILLE PATTERN DOTS-137", aliases: &[] },
        Codepoint { codepoint: 0x2846, name: "BRAILLE PATTERN DOTS-237", aliases: &[] },
        Codepoint { codepoint: 0x2847, name: "BRAILLE PATTERN DOTS-1237", aliases: &[] },
        Codepoint { codepoint: 0x2848, name: "BRAILLE PATTERN DOTS-47", aliases: &[] },
        Codepoint { codepoint: 0x2849, name: "BRAILLE PATTERN DOTS-147", aliases: &[] },
        Codepoint { codepoint: 0x284A, name: "BRAILLE PATTERN DOTS-247", aliases: &[] },
        Codepoint { codepoint: 0x284B, name: "BRAILLE PATTERN DOTS-1247", aliases: &[] },
        Codepoint { codepoint: 0x284C, name: "BRAILLE PATTERN DOTS-347", aliases: &[] },
        Codepoint { codepoint: 0x284D, name: "BRAILLE PATTERN DOTS-1347", aliases: &[] },
        Codepoint { codepoint: 0x284E, name: "BRAILLE PATTERN DOTS-2347", aliases: &[] },
        Codepoint { codepoint: 0x284F, name: "BRAILLE PATTERN DOTS-12347", aliases: &[] },
        Codepoint { codepoint: 0x2850, name: "BRAILLE PATTERN DOTS-57", aliases: &[] },
        Codepoint { codepoint: 0x2851, name: "BRAILLE PATTERN DOTS-157", aliases: &[] },
        Codepoint { codepoint: 0x2852, name: "BRAILLE PATTERN DOTS-257", aliases: &[] },
        Codepoint { codepoint: 0x2853, name: "BRAILLE PATTERN DOTS-1257", aliases: &[] },
        Codepoint { codepoint: 0x2854, name: "BRAILLE PATTERN DOTS-357", aliases: &[] },
        Codepoint { codepoint: 0x2855, name: "BRAILLE PATTERN DOTS-1357", aliases: &[] },
    ]
}

fn all_codepoints_234() -> (v: Vec<Codepoint>)
    ensures
        v@ == codepoint_table_234(),
{
    let v = vec![
        Codepoint { codepoint: 0x282E, name: "BRAILLE PATTERN DOTS-2346", aliases: &[] },
        Codepoint { codepoint: 0x282F, name: "BRAILLE PATTERN DOTS-12346", aliases: &[] },
        Codepoint { codepoint: 0x2830, name: "BRAILLE PATTERN DOTS-56", aliases: &[] },
        Codepoint { codepoint: 0x2831, name: "BRAILLE PATTERN DOTS-156", aliases: &[] },
        Codepoint { codepoint: 0x2832, name: "BRAILLE PATTERN DOTS-256", aliases: &[] },
        Codepoint { codepoint: 0x2833, name: "BRAILLE PATTERN DOTS-1256", aliases: &[] },
        Codepoint { codepoint: 0x2834, name: "BRAILLE PATTERN DOTS-356", aliases: &[] },
        Codepoint { codepoint: 0x2835, name: "BRAILLE PATTERN DOTS-1356", aliases: &[] },
        Codepoint { codepoint: 0x2836, name: "BRAILLE PATTERN DOTS-2356", aliases: &[] },
        Codepoint { codepoint: 0x2837, name: "BRAILLE PATTERN DOTS-12356", aliases: &[] },
        Codepoint { codepoint: 0x2838, name: "BRAILLE PATTERN DOTS-456", aliases: &[] },
        Codepoint { codepoint: 0x2839, name: "BRAILLE PATTERN DOTS-1456", aliases: &[] },
        Codepoint { codepoint: 0x283A, name: "BRAILLE PATTERN DOTS-2456", aliases: &[] },
        Codepoint { codepoint: 0x283B, name: "BRAILLE PATTERN DOTS-12456", aliases: &[] },
        Codepoint { codepoint: 0x283C, name: "BRAILLE PATTERN DOTS-3456", aliases: &[] },
        Codepoint { codepoint: 0x283D, name: "BRAILLE PATTERN DOTS-13456", aliases: &[] },
        Codepoint { codepoint: 0x283E, name: "BRAILLE PATTERN DOTS-23456", aliases: &[] },
        Codepoint { codepoint: 0x283F, name: "BRAILLE PATTERN DOTS-123456", aliases: &[] },
        Codepoint { codepoint: 0x2840, name: "BRAILLE PATTERN DOTS-7", aliases: &[] },
        Codepoint { codepoint: 0x2841, name: "BRAILLE PATTERN DOTS-17", aliases: &[] },
        Codepoint { codepoint: 0x2842, name: "BRAILLE PATTERN DOTS-27", aliases: &[] },
        Codepoint { codepoint: 0x2843, name: "BRAILLE PATTERN DOTS-127", aliases: &[] },
        Codepoint { codepoint: 0x2844, name: "BRAILLE PATTERN DOTS-37", aliases: &[] },
        Codepoint { codepoint: 0x2845, name: "BRAILLE PATTERN DOTS-137", aliases: &[] },
        Codepoint { codepoint: 0x2846, name: "BRAILLE PATTERN DOTS-237", aliases: &[] },
        Codepoint { codepoint: 0x2847, name: "BRAILLE PATTERN DOTS-1237", aliases: &[] },
        Codepoint { codepoint: 0x2848, name: "BRAILLE PATTERN DOTS-47", aliases: &[] },
        Codepoint { codepoint: 0x2849, name: "BRAILLE PATTERN DOTS-147", aliases: &[] },
        Codepoint { codepoint: 0x284A, name: "BRAILLE PATTERN DOTS-247", aliases: &[] },
        Codepoint { codepoint: 0x284B, name: "BRAILLE PATTERN DOTS-1247", aliases: &[] },
        Codepoint { codepoint: 0x284C, name: "BRAILLE PATTERN DOTS-347", aliases: &[] },
        Codepoint { codepoint: 0x284D, name: "BRAILLE PATTERN DOTS-1347", aliases: &[] },
        Codepoint { codepoint: 0x284E, name: "BRAILLE PATTERN DOTS-2347", aliases: &[] },
        Codepoint { codepoint: 0x284F, name: "BRAILLE PATTERN DOTS-12347", aliases: &[] },
        Codepoint { codepoint: 0x2850, name: "BRAILLE PATTERN DOTS-57", aliases: &[] },
        Codepoint { codepoint: 0x2851, name: "BRAILLE PATTERN DOTS-157", aliases: &[] },
        Codepoint { codepoint: 0x2852, name: "BRAILLE PATTERN DOTS-257", aliases: &[] },
        Codepoint { codepoint: 0x2853, name: "BRAILLE PATTERN DOTS-1257", aliases: &[] },
        Codepoint { codepoint: 0x2854, name: "BRAILLE PATTERN DOTS-357", aliases: &[] },
        Codepoint { codepoint: 0x2855, name: "BRAILLE PATTERN DOTS-1357", aliases: &[] },
    ];
    assert(v@ =~= codepoint_table_234());
    v
}

pub open spec fn codepoint_table_235() -> Seq<Codepoint> {
    seq![
        Codepoint { codepoint: 0x2856, name: "BRAILLE PATTERN DOTS-2357", aliases: &[] },
        Codepoint { codepoint: 0x2857, name: "BRAILLE PATTERN DOTS-12357", aliases: &[] },
        Codepoint { codepoint: 0x2858, name: "BRAILLE PATTERN DOTS-457", aliases: &[] },
        Codepoint { codepoint: 0x2859, name: "BRAILLE PATTERN DOTS-1457", aliases: &[] },
        Codepoint { codepoint: 0x285A, name: "BRAILLE PATTERN DOTS-2457", aliases: &[] },
        Codepoint { codepoint: 0x285B, name: "BRAILLE PATTERN DOTS-12457", aliases: &[] },
        Codepoint { codepoint: 0x285C, name: "BRAILLE PATTERN DOTS-3457", aliases: &[] },
        Codepoint { codepoint: 0x285D, name: "BRAILLE PATTERN DOTS-13457", aliases: &[] },
        Codepoint { codepoint: 0x285E, name: "BRAILLE PATTERN DOTS-23457", aliases: &[] },
        Codepoint { codepoint: 0x285F, name: "BRAILLE PATTERN DOTS-123457", aliases: &[] },
        Codepoint { codepoint: 0x2860, name: "BRAILLE PATTERN DOTS-67", aliases: &[] },
        Codepoint { codepoint: 0x2861, name: "BRAILLE PATTERN DOTS-167", aliases: &[] },
        Codepoint { codepoint: 0x2862, name: "BRAILLE PATTERN DOTS-267", aliases: &[] },
        Codepoint { codepoint: 0x2863, name: "BRAILLE PATTERN DOTS-1267", aliases: &[] },
        Codepoint { codepoint: 0x2864, name: "BRAILLE PATTERN DOTS-367", aliases: &[] },
        Codepoint { codepoint: 0x2865, name: "BRAILLE PATTERN DOTS-1367", aliases: &[] },
        Codepoint { codepoint: 0x2866, name: "BRAILLE PATTERN DOTS-2367", aliases: &[] },
        Codepoint { codepoint: 0x2867, name: "BRAILLE PATTERN DOTS-12367", aliases: &[] },
        Codepoint { codepoint: 0x2868, name: "BRAILLE PATTERN DOTS-467", aliases: &[] },
        Codepoint { codepoint: 0x2869, name: "BRAILLE PATTERN DOTS-1467", aliases: &[] },
        Codepoint { codepoint: 0x286A, name: "BRAILLE PATTERN DOTS-2467", aliases: &[] },
        Codepoint { codepoint: 0x286B, name: "BRAILLE PATTERN DOTS-12467", aliases: &[] },
        Codepoint { codepoint: 0x286C, name: "BRAILLE PATTERN DOTS-3467", aliases: &[] },
        Codepoint { codepoint: 0x286D, name: "BRAILLE PATTERN DOTS-13467", aliases: &[] },
        Codepoint { codepoint: 0x286E, name: "BRAILLE PATTERN DOTS-23467", aliases: &[] },
        Codepoint { codepoint: 0x286F, name: "BRAILLE PATTERN DOTS-123467", aliases: &[] },
        Codepoint { codepoint: 0x2870, name: "BRAILLE PATTERN DOTS-567", aliases: &[] },
        Codepoint { codepoint: 0x2871, name: "BRAILLE PATTERN DOTS-1567", aliases: &[] },
        Codepoint { codepoint: 0x2872, name: "BRAILLE PATTERN DOTS-2567", aliases: &[] },
        Codepoint { codepoint: 0x2873, name: "BRAILLE PATTERN DOTS-12567", aliases: &[] },
        Codepoint { codepoint: 0x2874, name: "BRAILLE PATTERN DOTS-3567", aliases: &[] },
        Codepoint { codepoint: 0x2875, name: "BRAILLE PATTERN DOTS-13567", aliases: &[] },
        Codepoint { codepoint: 0x2876, name: "BRAILLE PATTERN DOTS-23567", aliases: &[] },
        Codepoint { codepoint: 0x2877, name: "BRAILLE PATTERN DOTS-123567", aliases: &[] },
        Codepoint { codepoint: 0x2878, name: "BRAILLE PATTERN DOTS-4567", aliases: &[] },
        Codepoint { codepoint: 0x2879, name: "BRAILLE PATTERN DOTS-14567", aliases: &[] },
        Codepoint { codepoint: 0x287A, name: "BRAILLE PATTERN DOTS-24567", aliases: &[] },
        Codepoint { codepoint: 0x287B, name: "BRAILLE PATTERN DOTS-124567", aliases: &[] },
        Codepoint { codepoint: 0x287C, name: "BRAILLE PATTERN DOTS-34567", aliases: &[] },
        Codepoint { codepoint: 0x287D, name: "BRAILLE PATTERN DOTS-134567", aliases: &[] },
    ]
}

fn all_codepoints_235() -> (v: Vec<Codepoint>)
    ensures
        v@ == codepoint_table_235(),
{
    let v = vec![
        Codepoint { codepoint: 0x2856, name: "BRAILLE PATTERN DOTS-2357", aliases: &[] },
        Codepoint { codepoint: 0x2857, name: "BRAILLE PATTERN DOTS-12357", aliases: &[] },
        Codepoint { codepoint: 0x2858, name: "BRAILLE PATTERN DOTS-457", aliases: &[] },
        Codepoint { codepoint: 0x2859, name: "BRAILLE PATTERN DOTS-1457", aliases: &[] },
        Codepoint { codepoint: 0x285A, name: "BRAILLE PATTERN DOTS-2457", aliases: &[] },
        Codepoint { codepoint: 0x285B, name: "BRAILLE PATTERN DOTS-12457", aliases: &[] },
        Codepoint { codepoint: 0x285C, name: "BRAILLE PATTERN DOTS-3457", aliases: &[] },
        Codepoint { codepoint: 0x285D, name: "BRAILLE PATTERN DOTS-13457", aliases: &[] },
        Codepoint { codepoint: 0x285E, name: "BRAILLE PATTERN DOTS-23457", aliases: &[] },
        Codepoint { codepoint: 0x285F, name: "BRAILLE PATTERN DOTS-123457", aliases: &[] },
        Codepoint { codepoint: 0x2860, name: "BRAILLE PATTERN DOTS-67", aliases: &[] },
        Codepoint { codepoint: 0x2861, name: "BRAILLE PATTERN DOTS-167", aliases: &[] },
        Codepoint { codepoint: 0x2862, name: "BRAILLE PATTERN DOTS-267", aliases: &[] },
        Codepoint { codepoint: 0x2863, name: "BRAILLE PATTERN DOTS-1267", aliases: &[] },
        Codepoint { codepoint: 0x2864, name: "BRAILLE PATTERN DOTS-367", aliases: &[] },
        Codepoint { codepoint: 0x2865, name: "BRAILLE PATTERN DOTS-1367", aliases: &[] },
        Codepoint { codepoint: 0x2866, name: "BRAILLE PATTERN DOTS-2367", aliases: &[] },
        Codepoint { codepoint: 0x2867, name: "BRAILLE PATTERN DOTS-12367", aliases: &[] },
        Codepoint { codepoint: 0x2868, name: "BRAILLE PATTERN DOTS-467", aliases: &[] },
        Codepoint { codepoint: 0x2869, name: "BRAILLE PATTERN DOTS-1467", aliases: &[] },
        Codepoint { codepoint: 0x286A, name: "BRAILLE PATTERN DOTS-2467", aliases: &[] },
        Codepoint { codepoint: 0x286B, name: "BRAILLE PATTERN DOTS-12467", aliases: &[] },
        Codepoint { codepoint: 0x286C, name: "BRAILLE PATTERN DOTS-3467", aliases: &[] },
        Codepoint { codepoint: 0x286D, name: "BRAILLE PATTERN DOTS-13467", aliases: &[] },
        Codepoint { codepoint: 0x286E, name: "BRAILLE PATTERN DOTS-23467", aliases: &[] },
        Codepoint { codepoint: 0x286F, name: "BRAILLE PATTERN DOTS-123467", aliases: &[] },
        Codepoint { codepoint: 0x2870, name: "BRAILLE PATTERN DOTS-567", aliases: &[] },
        Codepoint { codepoint: 0x2871, name: "BRAILLE PATTERN DOTS-1567", aliases: &[] },
        Codepoint { codepoint: 0x2872, name: "BRAILLE PATTERN DOTS-2567", aliases: &[] },
        Codepoint { codepoint: 0x2873, name: "BRAILLE PATTERN DOTS-12567", aliases: &[] },
        Codepoint { codepoint: 0x2874, name: "BRAILLE PATTERN DOTS-3567", aliases: &[] },
        Codepoint { codepoint: 0x2875, name: "BRAILLE PATTERN DOTS-13567", aliases: &[] },
        Codepoint { codepoint: 0x2876, name: "BRAILLE PATTERN DOTS-23567", aliases: &[] },
        Codepoint { codepoint: 0x2877, name: "BRAILLE PATTERN DOTS-123567", aliases: &[] },
        Codepoint { codepoint: 0x2878, name: "BRAILLE PATTERN DOTS-4567", aliases: &[] },
        Codepoint { codepoint: 0x2879, name: "BRAILLE PATTERN DOTS-14567", aliases: &[] },
        Codepoint { codepoint: 0x287A, name: "BRAILLE PATTERN DOTS-24567", aliases: &[] },
        Codepoint { codepoint: 0x287B, name: "BRAILLE PATTERN DOTS-124567", aliases: &[] },
        Codepoint { codepoint: 0x287C, name: "BRAILLE PATTERN DOTS-34567", aliases: &[] },
        Codepoint { codepoint: 0x287D, name: "BRAILLE PATTERN DOTS-134567", aliases: &[] },
    ];
    assert(v@ =~= codepoint_table_235());
    v
}

pub open spec fn codepoint_table_236() -> Seq<Codepoint> {
    seq![
        Codepoint { codepoint: 0x287E, name: "BRAILLE PATTERN DOTS-234567", aliases: &[] },
        Codepoint { codepoint: 0x287F, name: "BRAILLE PATTERN DOTS-1234567", aliases: &[] },
        Codepoint { codepoint: 0x2880, name: "BRAILLE PATTERN DOTS-8", aliases: &[] },
        Codepoint { codepoint: 0x2881, name: "BRAILLE PATTERN DOTS-18", aliases: &[] },
        Codepoint { codepoint: 0x2882, name: "BRAILLE PATTERN DOTS-28", aliases: &[] },
        Codepoint { codepoint: 0x2883, name: "BRAILLE PATTERN DOTS-128", aliases: &[] },
        Codepoint { codepoint: 0x2884, name: "BRAILLE PATTERN DOTS-38", aliases: &[] },
        Codepoint { codepoint: 0x2885, name: "BRAILLE PATTERN DOTS-138", aliases: &[] },
        Codepoint { codepoint: 0x2886, name: "BRAILLE PATTERN DOTS-238", aliases: &[] },
        Codepoint { codepoint: 0x2887, name: "BRAILLE PATTERN DOTS-1238", aliases: &[] },
        Codepoint { codepoint: 0x2888, name: "BRAILLE PATTERN DOTS-48", aliases: &[] },
        Codepoint { codepoint: 0x2889, name: "BRAILLE PATTERN DOTS-148", aliases: &[] },
        Codepoint { codepoint: 0x288A, name: "BRAILLE PATTERN DOTS-248", aliases: &[] },
        Codepoint { codepoint: 0x288B, name: "BRAILLE PATTERN DOTS-1248", aliases: &[] },
        Codepoint { codepoint: 0x288C, name: "BRAILLE PATTERN DOTS-348", aliases: &[] },
        Codepoint { codepoint: 0x288D, name: "BRAILLE PATTERN DOTS-1348", aliases: &[] },
        Codepoint { codepoint: 0x288E, name: "BRAILLE PATTERN DOTS-2348", aliases: &[] },
        Codepoint { codepoint: 0x288F, name: "BRAILLE PATTERN DOTS-12348", aliases: &[] },
        Codepoint { codepoint: 0x2890, name: "BRAILLE PATTERN DOTS-58", aliases: &[] },
        Codepoint { codepoint: 0x2891, name: "BRAILLE PATTERN DOTS-158", aliases: &[] },
        Codepoint { codepoint: 0x2892, name: "BRAILLE PATTERN DOTS-258", aliases: &[] },
        Codepoint { codepoint: 0x2893, name: "BRAILLE PATTERN DOTS-1258", aliases: &[] },
        Codepoint { codepoint: 0x2894, name: "BRAILLE PATTERN DOTS-358", aliases: &[] },
        Codepoint { codepoint: 0x2895, name: "BRAILLE PATTERN DOTS-1358", aliases: &[] },
        Codepoint { codepoint: 0x2896, name: "BRAILLE PATTERN DOTS-2358", aliases: &[] },
        Codepoint { codepoint: 0x2897, name: "BRAILLE PATTERN DOTS-12358", aliases: &[] },
        Codepoint { codepoint: 0x2898, name: "BRAILLE PATTERN DOTS-458", aliases: &[] },
        Codepoint { codepoint: 0x2899, name: "BRAILLE PATTERN DOTS-1458", aliases: &[] },
        Codepoint { codepoint: 0x289A, name: "BRAILLE PATTERN DOTS-2458", aliases: &[] },
        Codepoint { codepoint: 0x289B, name: "BRAILLE PATTERN DOTS-12458", aliases: &[] },
        Codepoint { codepoint: 0x289C, name: "BRAILLE PATTERN DOTS-3458", aliases: &[] },
        Codepoint { codepoint: 0x289D, name: "BRAILLE PATTERN DOTS-13458", aliases: &[] },
        Codepoint { codepoint: 0x289E, name: "BRAILLE PATTERN DOTS-23458", aliases: &[] },
        Codepoint { codepoint: 0x289F, name: "BRAILLE PATTERN DOTS-123458", aliases: &[] },
        Codepoint { codepoint: 0x28A0, name: "BRAILLE PATTERN DOTS-68", aliases: &[] },
        Codepoint { codepoint: 0x28A1, name: "BRAILLE PATTERN DOTS-168", aliases: &[] },
        Codepoint { codepoint: 0x28A2, name: "BRAILLE PATTERN DOTS-268", aliases: &[] },
        Codepoint { codepoint: 0x28A3, name: "BRAILLE PATTERN DOTS-1268", aliases: &[] },
        Codepoint { codepoint: 0x28A4, name: "BRAILLE PATTERN DOTS-368", aliases: &[] },
        Codepoint { codepoint: 0x28A5, name: "BRAILLE PATTERN DOTS-1368", aliases: &[] },
    ]
}

fn all_codepoints_236() -> (v: Vec<Codepoint>)
    ensures
        v@ == codepoint_table_236(),
{
    let v = vec![
        Codepoint { codepoint: 0x287E, name: "BRAILLE PATTERN DOTS-234567", aliases: &[] },
        Codepoint { codepoint: 0x287F, name: "BRAILLE PATTERN DOTS-1234567", aliases: &[] },
        Codepoint { codepoint: 0x2880, name: "BRAILLE PATTERN DOTS-8", aliases: &[] },
        Codepoint { codepoint: 0x2881, name: "BRAILLE PATTERN DOTS-18", aliases: &[] },
        Codepoint { codepoint: 0x2882, name: "BRAILLE PATTERN DOTS-28", aliases: &[] },
        Codepoint { codepoint: 0x2883, name: "BRAILLE PATTERN DOTS-128", aliases: &[] },
        Codepoint { codepoint: 0x2884, name: "BRAILLE PATTERN DOTS-38", aliases: &[] },
        Codepoint { codepoint: 0x2885, name: "BRAILLE PATTERN DOTS-138", aliases: &[] },
        Codepoint { codepoint: 0x2886, name: "BRAILLE PATTERN DOTS-238", aliases: &[] },
        Codepoint { codepoint: 0x2887, name: "BRAILLE PATTERN DOTS-1238", aliases: &[] },
        Codepoint { codepoint: 0x2888, name: "BRAILLE PATTERN DOTS-48", aliases: &[] },
        Codepoint { codepoint: 0x2889, name: "BRAILLE PATTERN DOTS-148", aliases: &[] },
        Codepoint { codepoint: 0x288A, name: "BRAILLE PATTERN DOTS-248", aliases: &[] },
        Codepoint { codepoint: 0x288B, name: "BRAILLE PATTERN DOTS-1248", aliases: &[] },
        Codepoint { codepoint: 0x288C, name: "BRAILLE PATTERN DOTS-348", aliases: &[] },
        Codepoint { codepoint: 0x288D, name: "BRAILLE PATTERN DOTS-1348", aliases: &[] },
        Codepoint { codepoint: 0x288E, name: "BRAILLE PATTERN DOTS-2348", aliases: &[] },
        Codepoint { codepoint: 0x288F, name: "BRAILLE PATTERN DOTS-12348", aliases: &[] },
        Codepoint { codepoint: 0x2890, name: "BRAILLE PATTERN DOTS-58", aliases: &[] },
        Codepoint { codepoint: 0x2891, name: "BRAILLE PATTERN DOTS-158", aliases: &[] },
        Codepoint { codepoint: 0x2892, name: "BRAILLE PATTERN DOTS-258", aliases: &[] },
        Codepoint { codepoint: 0x2893, name: "BRAILLE PATTERN DOTS-1258", aliases: &[] },
        Codepoint { codepoint: 0x2894, name: "BRAILLE PATTERN DOTS-358", aliases: &[] },
        Codepoint { codepoint: 0x2895, name: "BRAILLE PATTERN DOTS-1358", aliases: &[] },
        Codepoint { codepoint: 0x2896, name: "BRAILLE PATTERN DOTS-2358", aliases: &[] },
        Codepoint { codepoint: 0x2897, name: "BRAILLE PATTERN DOTS-12358", aliases: &[] },
        Codepoint { codepoint: 0x2898, name: "BRAILLE PATTERN DOTS-458", aliases: &[] },
        Codepoint { codepoint: 0x2899, name: "BRAILLE PATTERN DOTS-1458", aliases: &[] },
        Codepoint { codepoint: 0x289A, name: "BRAILLE PATTERN DOTS-2458", aliases: &[] },
        Codepoint { codepoint: 0x289B, name: "BRAILLE PATTERN DOTS-12458", aliases: &[] },
        Codepoint { codepoint: 0x289C, name: "BRAILLE PATTERN DOTS-3458", aliases: &[] },
        Codepoint { codepoint: 0x289D, name: "BRAILLE PATTERN DOTS-13458", aliases: &[] },
        Codepoint { codepoint: 0x289E, name: "BRAILLE PATTERN DOTS-23458", aliases: &[] },
        Codepoint { codepoint: 0x289F, name: "BRAILLE PATTERN DOTS-123458", aliases: &[] },
        Codepoint { codepoint: 0x28A0, name: "BRAILLE PATTERN DOTS-68", aliases: &[] },
        Codepoint { codepoint: 0x28A1, name: "BRAILLE PATTERN DOTS-168", aliases: &[] },
        Codepoint { codepoint: 0x28A2, name: "BRAILLE PATTERN DOTS-268", aliases: &[] },
        Codepoint { codepoint: 0x28A3, name: "BRAILLE PATTERN DOTS-1268", aliases: &[] },
        Codepoint { codepoint: 0x28A4, name: "BRAILLE PATTERN DOTS-368", aliases: &[] },
        Codepoint { codepoint: 0x28A5, name: "BRAILLE PATTERN DOTS-1368", aliases: &[] },
    ];
    assert(v@ =~= codepoint_table_236());
    v
}

pub open spec fn codepoint_table_237() -> Seq<Codepoint> {
    seq![
        Codepoint { codepoint: 0x28A6, name: "BRAILLE PATTERN DOTS-2368", aliases: &[] },
        Codepoint { codepoint: 0x28A7, name: "BRAILLE PATTERN DOTS-12368", aliases: &[] },
        Codepoint { codepoint: 0x28A8, name: "BRAILLE PATTERN DOTS-468", aliases: &[] },
        Codepoint { codepoint: 0x28A9, name: "BRAILLE PATTERN DOTS-1468", aliases: &[] },
        Codepoint { codepoint: 0x28AA, name: "BRAILLE PATTERN DOTS-2468", aliases: &[] },
        Codepoint { codepoint: 0x28AB, name: "BRAILLE PATTERN DOTS-12468", aliases: &[] },
        Codepoint { codepoint: 0x28AC, name: "BRAILLE PATTERN DOTS-3468", aliases: &[] },
        Codepoint { codepoint: 0x28AD, name: "BRAILLE PATTERN DOTS-13468", aliases: &[] },
        Codepoint { codepoint: 0x28AE, name: "BRAILLE PATTERN DOTS-23468", aliases: &[] },
        Codepoint { codepoint: 0x28AF, name: "BRAILLE PATTERN DOTS-123468", aliases: &[] },
        Codepoint { codepoint: 0x28B0, name: "BRAILLE PATTERN DOTS-568", aliases: &[] },
        Codepoint { codepoint: 0x28B1, name: "BRAILLE PATTERN DOTS-1568", aliases: &[] },
        Codepoint { codepoint: 0x28B2, name: "BRAILLE PATTERN DOTS-2568", aliases: &[] },
        Codepoint { codepoint: 0x28B3, name: "BRAILLE PATTERN DOTS-12568", aliases: &[] },
        Codepoint { codepoint: 0x28B4, name: "BRAILLE PATTERN DOTS-3568", aliases: &[] },
        Codepoint { codepoint: 0x28B5, name: "BRAILLE PATTERN DOTS-13568", aliases: &[] },
        Codepoint { codepoint: 0x28B6, name: "BRAILLE PATTERN DOTS-23568", aliases: &[] },
        Codepoint { codepoint: 0x28B7, name: "BRAILLE PATTERN DOTS-123568", aliases: &[] },
        Codepoint { codepoint: 0x28B8, name: "BRAILLE PATTERN DOTS-4568", aliases: &[] },
        Codepoint { codepoint: 0x28B9, name: "BRAILLE PATTERN DOTS-14568", aliases: &[] },
        Codepoint { codepoint: 0x28BA, name: "BRAILLE PATTERN DOTS-24568", aliases: &[] },
        Codepoint { codepoint: 0x28BB, name: "BRAILLE PATTERN DOTS-124568", aliases: &[] },
        Codepoint { codepoint: 0x28BC, name: "BRAILLE PATTERN DOTS-34568", aliases: &[] },
        Codepoint { codepoint: 0x28BD, name: "BRAILLE PATTERN DOTS-134568", aliases: &[] },
        Codepoint { codepoint: 0x28BE, name: "BRAILLE PATTERN DOTS-234568", aliases: &[] },
        Codepoint { codepoint: 0x28BF, name: "BRAILLE PATTERN DOTS-1234568", aliases: &[] },
        Codepoint { codepoint: 0x28C0, name: "BRAILLE PATTERN DOTS-78", aliases: &[] },
        Codepoint { codepoint: 0x28C1, name: "BRAILLE PATTERN DOTS-178", aliases: &[] },
        Codepoint { codepoint: 0x28C2, name: "BRAILLE PATTERN DOTS-278", aliases: &[] },
        Codepoint { codepoint: 0x28C3, name: "BRAILLE PATTERN DOTS-1278", aliases: &[] },
        Codepoint { codepoint: 0x28C4, name: "BRAILLE PATTERN DOTS-378", aliases: &[] },
        Codepoint { codepoint: 0x28C5, name: "BRAILLE PATTERN DOTS-1378", aliases: &[] },
        Codepoint { codepoint: 0x28C6, name: "BRAILLE PATTERN DOTS-2378", aliases: &[] },
        Codepoint { codepoint: 0x28C7, name: "BRAILLE PATTERN DOTS-12378", aliases: &[] },
        Codepoint { codepoint: 0x28C8, name: "BRAILLE PATTERN DOTS-478", aliases: &[] },
        Codepoint { codepoint: 0x28C9, name: "BRAILLE PATTERN DOTS-1478", aliases: &[] },
        Codepoint { codepoint: 0x28CA, name: "BRAILLE PATTERN DOTS-2478", aliases: &[] },
        Codepoint { codepoint: 0x28CB, name: "BRAILLE PATTERN DOTS-12478", aliases: &[] },
        Codepoint { codepoint: 0x28CC, name: "BRAILLE PATTERN DOTS-3478", aliases: &[] },
        Codepoint { codepoint: 0x28CD, name: "BRAILLE PATTERN DOTS-13478", aliases: &[] },
    ]
}

fn all_codepoints_237() -> (v: Vec<Codepoint>)
    ensures
        v@ == codepoint_table_237(),
{
    let v = vec![
        Codepoint { codepoint: 0x28A6, name: "BRAILLE PATTERN DOTS-2368", aliases: &[] },
        Codepoint { codepoint: 0x28A7, name: "BRAILLE PATTERN DOTS-12368", aliases: &[] },
        Codepoint { codepoint: 0x28A8, name: "BRAILLE PATTERN DOTS-468", aliases: &[] },
        Codepoint { codepoint: 0x28A9, name: "BRAILLE PATTERN DOTS-1468", aliases: &[] },
        Codepoint { codepoint: 0x28AA, name: "BRAILLE PATTERN DOTS-2468", aliases: &[] },
        Codepoint { codepoint: 0x28AB, name: "BRAILLE PATTERN DOTS-12468", aliases: &[] },
        Codepoint { codepoint: 0x28AC, name: "BRAILLE PATTERN DOTS-3468", aliases: &[] },
        Codepoint { codepoint: 0x28AD, name: "BRAILLE PATTERN DOTS-13468", aliases: &[] },
        Codepoint { codepoint: 0x28AE, name: "BRAILLE PATTERN DOTS-23468", aliases: &[] },
        Codepoint { codepoint: 0x28AF, name: "BRAILLE PATTERN DOTS-123468", aliases: &[] },
        Codepoint { codepoint: 0x28B0, name: "BRAILLE PATTERN DOTS-568", aliases: &[] },
        Codepoint { codepoint: 0x28B1, name: "BRAILLE PATTERN DOTS-1568", aliases: &[] },
        Codepoint { codepoint: 0x28B2, name: "BRAILLE PATTERN DOTS-2568", aliases: &[] },
        Codepoint { codepoint: 0x28B3, name: "BRAILLE PATTERN DOTS-12568", aliases: &[] },
        Codepoint { codepoint: 0x28B4, name: "BRAILLE PATTERN DOTS-3568", aliases: &[] },
        Codepoint { codepoint: 0x28B5, name: "BRAILLE PATTERN DOTS-13568", aliases: &[] },
        Codepoint { codepoint: 0x28B6, name: "BRAILLE PATTERN DOTS-23568", aliases: &[] },
        Codepoint { codepoint: 0x28B7, name: "BRAILLE PATTERN DOTS-123568", aliases: &[] },
        Codepoint { codepoint: 0x28B8, name: "BRAILLE PATTERN DOTS-4568", aliases: &[] },
        Codepoint { codepoint: 0x28B9, name: "BRAILLE PATTERN DOTS-14568", aliases: &[] },
        Codepoint { codepoint: 0x28BA, name: "BRAILLE PATTERN DOTS-24568", aliases: &[] },
        Codepoint { codepoint: 0x28BB, name: "BRAILLE PATTERN DOTS-124568", aliases: &[] },
        Codepoint { codepoint: 0x28BC, name: "BRAILLE PATTERN DOTS-34568", aliases: &[] },
        Codepoint { codepoint: 0x28BD, name: "BRAILLE PATTERN DOTS-134568", aliases: &[] },
        Codepoint { codepoint: 0x28BE, name: "BRAILLE PATTERN DOTS-234568", aliases: &[] },
        Codepoint { codepoint: 0x28BF, name: "BRAILLE PATTERN DOTS-1234568", aliases: &[] },
        Codepoint { codepoint: 0x28C0, name: "BRAILLE PATTERN DOTS-78", aliases: &[] },
        Codepoint { codepoint: 0x28C1, name: "BRAILLE PATTERN DOTS-178", aliases: &[] },
        Codepoint { codepoint: 0x28C2, name: "BRAILLE PATTERN DOTS-278", aliases: &[] },
        Codepoint { codepoint: 0x28C3, name: "BRAILLE PATTERN DOTS-1278", aliases: &[] },
        Codepoint { codepoint: 0x28C4, name: "BRAILLE PATTERN DOTS-378", aliases: &[] },
        Codepoint { codepoint: 0x28C5, name: "BRAILLE PATTERN DOTS-1378", aliases: &[] },
        Codepoint { codepoint: 0x28C6, name: "BRAILLE PATTERN DOTS-2378", aliases: &[] },
        Codepoint { codepoint: 0x28C7, name: "BRAILLE PATTERN DOTS-12378", aliases: &[] },
        Codepoint { codepoint: 0x28C8, name: "BRAILLE PATTERN DOTS-478", aliases: &[] },
        Codepoint { codepoint: 0x28C9, name: "BRAILLE PATTERN DOTS-1478", aliases: &[] },
        Codepoint { codepoint: 0x28CA, name: "BRAILLE PATTERN DOTS-2478", aliases: &[] },
        Codepoint { codepoint: 0x28CB, name: "BRAILLE PATTERN DOTS-12478", aliases: &[] },
        Codepoint { codepoint: 0x28CC, name: "BRAILLE PATTERN DOTS-3478", aliases: &[] },
        Codepoint { codepoint: 0x28CD, name: "BRAILLE PATTERN DOTS-13478", aliases: &[] },
    ];
    assert(v@ =~= codepoint_table_237());
    v
}

pub open spec fn codepoint_table_238() -> Seq<Codepoint> {
    seq![
        Codepoint { codepoint: 0x28CE, name: "BRAILLE PATTERN DOTS-23478", aliases: &[] },
        Codepoint { codepoint: 0x28CF, name: "BRAILLE PATTERN DOTS-123478", aliases: &[] },
        Codepoint { codepoint: 0x28D0, name: "BRAILLE PATTERN DOTS-578", aliases: &[] },
        Codepoint { codepoint: 0x28D1, name: "BRAILLE PATTERN DOTS-1578", aliases: &[] },
        Codepoint { codepoint: 0x28D2, name: "BRAILLE PATTERN DOTS-2578", aliases: &[] },
        Codepoint { codepoint: 0x28D3, name: "BRAILLE PATTERN DOTS-12578", aliases: &[] },
        Codepoint { codepoint: 0x28D4, name: "BRAILLE PATTERN DOTS-3578", aliases: &[] },
        Codepoint { codepoint: 0x28D5, name: "BRAILLE PATTERN DOTS-13578", aliases: &[] },
        Codepoint { codepoint: 0x28D6, name: "BRAILLE PATTERN DOTS-23578", aliases: &[] },
        Codepoint { codepoint: 0x28D7, name: "BRAILLE PATTERN DOTS-123578", aliases: &[] },
        Codepoint { codepoint: 0x28D8, name: "BRAILLE PATTERN DOTS-4578", aliases: &[] },
        Codepoint { codepoint: 0x28D9, name: "BRAILLE PATTERN DOTS-14578", aliases: &[] },
        Codepoint { codepoint: 0x28DA, name: "BRAILLE PATTERN DOTS-24578", aliases: &[] },
        Codepoint { codepoint: 0x28DB, name: "BRAILLE PATTERN DOTS-124578", aliases: &[] },
        Codepoint { codepoint: 0x28DC, name: "BRAILLE PATTERN DOTS-34578", aliases: &[] },
        Codepoint { codepoint: 0x28DD, name: "BRAILLE PATTERN DOTS-134578", aliases: &[] },
        Codepoint { codepoint: 0x28DE, name: "BRAILLE PATTERN DOTS-234578", aliases: &[] },
        Codepoint { codepoint: 0x28DF, name: "BRAILLE PATTERN DOTS-1234578", aliases: &[] },
        Codepoint { codepoint: 0x28E0, name: "BRAILLE PATTERN DOTS-678", aliases: &[] },
        Codepoint { codepoint: 0x28E1, name: "BRAILLE PATTERN DOTS-1678", aliases: &[] },
        Codepoint { codepoint: 0x28E2, name: "BRAILLE PATTERN DOTS-2678", aliases: &[] },
        Codepoint { codepoint: 0x28E3, name: "BRAILLE PATTERN DOTS-12678", aliases: &[] },
        Codepoint { codepoint: 0x28E4, name: "BRAILLE PATTERN DOTS-3678", aliases: &[] },
        Codepoint { codepoint: 0x28E5, name: "BRAILLE PATTERN DOTS-13678", aliases: &[] },
        Codepoint { codepoint: 0x28E6, name: "BRAILLE PATTERN DOTS-23678", aliases: &[] },
        Codepoint { codepoint: 0x28E7, name: "BRAILLE PATTERN DOTS-123678", aliases: &[] },
        Codepoint { codepoint: 0x28E8, name: "BRAILLE PATTERN DOTS-4678", aliases: &[] },
        Codepoint { codepoint: 0x28E9, name: "BRAILLE PATTERN DOTS-14678", aliases: &[] },
        Codepoint { codepoint: 0x28EA, name: "BRAILLE PATTERN DOTS-24678", aliases: &[] },
        Codepoint { codepoint: 0x28EB, name: "BRAILLE PATTERN DOTS-124678", aliases: &[] },
        Codepoint { codepoint: 0x28EC, name: "BRAILLE PATTERN DOTS-34678", aliases: &[] },
        Codepoint { codepoint: 0x28ED, name: "BRAILLE PATTERN DOTS-134678", aliases: &[] },
        Codepoint { codepoint: 0x28EE, name: "BRAILLE PATTERN DOTS-234678", aliases: &[] },
        Codepoint { codepoint: 0x28EF, name: "BRAILLE PATTERN DOTS-1234678", aliases: &[] },
        Codepoint { codepoint: 0x28F0, name: "BRAILLE PATTERN DOTS-5678", aliases: &[] },
        Codepoint { codepoint: 0x28F1, name: "BRAILLE PATTERN DOTS-15678", aliases: &[] },
        Codepoint { codepoint: 0x28F2, name: "BRAILLE PATTERN DOTS-25678", aliases: &[] },
        Codepoint { codepoint: 0x28F3, name: "BRAILLE PATTERN DOTS-125678", aliases: &[] },
        Codepoint { codepoint: 0x28F4, name: "BRAILLE PATTERN DOTS-35678", aliases: &[] },
        Codepoint { codepoint: 0x28F5, name: "BRAILLE PATTERN DOTS-135678", aliases: &[] },
    ]
}

fn all_codepoints_238() -> (v: Vec<Codepoint>)
    ensures
        v@ == codepoint_table_238(),
{
    let v = vec![
        Codepoint { codepoint: 0x28CE, name: "BRAILLE PATTERN DOTS-23478", aliases: &[] },
        Codepoint { codepoint: 0x28CF, name: "BRAILLE PATTERN DOTS-123478", aliases: &[] },
        Codepoint { codepoint: 0x28D0, name: "BRAILLE PATTERN DOTS-578", aliases: &[] },
        Codepoint { codepoint: 0x28D1, name: "BRAILLE PATTERN DOTS-1578", aliases: &[] },
        Codepoint { codepoint: 0x28D2, name: "BRAILLE PATTERN DOTS-2578", aliases: &[] },
        Codepoint { codepoint: 0x28D3, name: "BRAILLE PATTERN DOTS-12578", aliases: &[] },
        Codepoint { codepoint: 0x28D4, name: "BRAILLE PATTERN DOTS-3578", aliases: &[] },
        Codepoint { codepoint: 0x28D5, name: "BRAILLE PATTERN DOTS-13578", aliases: &[] },
        Codepoint { codepoint: 0x28D6, name: "BRAILLE PATTERN DOTS-23578", aliases: &[] },
        Codepoint { codepoint: 0x28D7, name: "BRAILLE PATTERN DOTS-123578", aliases: &[] },
        Codepoint { codepoint: 0x28D8, name: "BRAILLE PATTERN DOTS-4578", aliases: &[] },
        Codepoint { codepoint: 0x28D9, name: "BRAILLE PATTERN DOTS-14578", aliases: &[] },
        Codepoint { codepoint: 0x28DA, name: "BRAILLE PATTERN DOTS-24578", aliases: &[] },
        Codepoint { codepoint: 0x28DB, name: "BRAILLE PATTERN DOTS-124578", aliases: &[] },
        Codepoint { codepoint: 0x28DC, name: "BRAILLE PATTERN DOTS-34578", aliases: &[] },
        Codepoint { codepoint: 0x28DD, name: "BRAILLE PATTERN DOTS-134578", aliases: &[] },
        Codepoint { codepoint: 0x28DE, name: "BRAILLE PATTERN DOTS-234578", aliases: &[] },
        Codepoint { codepoint: 0x28DF, name: "BRAILLE PATTERN DOTS-1234578", aliases: &[] },
        Codepoint { codepoint: 0x28E0, name: "BRAILLE PATTERN DOTS-678", aliases: &[] },
        Codepoint { codepoint: 0x28E1, name: "BRAILLE PATTERN DOTS-1678", aliases: &[] },
        Codepoint { codepoint: 0x28E2, name: "BRAILLE PATTERN DOTS-2678", aliases: &[] },
        Codepoint { codepoint: 0x28E3, name: "BRAILLE PATTERN DOTS-12678", aliases: &[] },
        Codepoint { codepoint: 0x28E4, name: "BRAILLE PATTERN DOTS-3678", aliases: &[] },
        Codepoint { codepoint: 0x28E5, name: "BRAILLE PATTERN DOTS-13678", aliases: &[] },
        Codepoint { codepoint: 0x28E6, name: "BRAILLE PATTERN DOTS-23678", aliases: &[] },
        Codepoint { codepoint: 0x28E7, name: "BRAILLE PATTERN DOTS-123678", aliases: &[] },
        Codepoint { codepoint: 0x28E8, name: "BRAILLE PATTERN DOTS-4678", aliases: &[] },
        Codepoint { codepoint: 0x28E9, name: "BRAILLE PATTERN DOTS-14678", aliases: &[] },
        Codepoint { codepoint: 0x28EA, name: "BRAILLE PATTERN DOTS-24678", aliases: &[] },
        Codepoint { codepoint: 0x28EB, name: "BRAILLE PATTERN DOTS-124678", aliases: &[] },
        Codepoint { codepoint: 0x28EC, name: "BRAILLE PATTERN DOTS-34678", aliases: &[] },
        Codepoint { codepoint: 0x28ED, name: "BRAILLE PATTERN DOTS-134678", aliases: &[] },
        Codepoint { codepoint: 0x28EE, name: "BRAILLE PATTERN DOTS-234678", aliases: &[] },
        Codepoint { codepoint: 0x28EF, name: "BRAILLE PATTERN DOTS-1234678", aliases: &[] },
        Codepoint { codepoint: 0x28F0, name: "BRAILLE PATTERN DOTS-5678", aliases: &[] },
        Codepoint { codepoint: 0x28F1, name: "BRAILLE PATTERN DOTS-15678", aliases: &[] },
        Codepoint { codepoint: 0x28F2, name: "BRAILLE PATTERN DOTS-25678", aliases: &[] },
        Codepoint { codepoint: 0x28F3, name: "BRAILLE PATTERN DOTS-125678", aliases: &[] },
        Codepoint { codepoint: 0x28F4, name: "BRAILLE PATTERN DOTS-35678", aliases: &[] },
        Codepoint { codepoint: 0x28F5, name: "BRAILLE PATTERN DOTS-135678", aliases: &[] },
    ];
    assert(v@ =~= codepoint_table_238());
    v
}

pub open spec fn codepoint_table_239() -> Seq<Codepoint> {
    seq![
        Codepoint { codepoint: 0x28F6, name: "BRAILLE PATTERN DOTS-235678", aliases: &[] },
        Codepoint { codepoint: 0x28F7, name: "BRAILLE PATTERN DOTS-1235678", aliases: &[] },
        Codepoint { codepoint: 0x28F8, name: "BRAILLE PATTERN DOTS-45678", aliases: &[] },
        Codepoint { codepoint: 0x28F9, name: "BRAILLE PATTERN DOTS-145678", aliases: &[] },
        Codepoint { codepoint: 0x28FA, name: "BRAILLE PATTERN DOTS-245678", aliases: &[] },
        Codepoint { codepoint: 0x28FB, name: "BRAILLE PATTERN DOTS-1245678", aliases: &[] },
        Codepoint { codepoint: 0x28FC, name: "BRAILLE PATTERN DOTS-345678", aliases: &[] },
        Codepoint { codepoint: 0x28FD, name: "BRAILLE PATTERN DOTS-1345678", aliases: &[] },
        Codepoint { codepoint: 0x28FE, name: "BRAILLE PATTERN DOTS-2345678", aliases: &[] },
        Codepoint { codepoint: 0x28FF, name: "BRAILLE PATTERN DOTS-12345678", aliases: &[] },
        Codepoint { codepoint: 0x2900, name: "RIGHTWARDS TWO-HEADED ARROW WITH VERTICAL STROKE", aliases: &[] },
        Codepoint { codepoint: 0x2901, name: "RIGHTWARDS TWO-HEADED ARROW WITH DOUBLE VERTICAL STROKE", aliases: &[] },
        Codepoint { codepoint: 0x2902, name: "LEFTWARDS DOUBLE ARROW WITH VERTICAL STROKE", aliases: &[] },
        Codepoint { codepoint: 0x2903, name: "RIGHTWARDS DOUBLE ARROW WITH VERTICAL STROKE", aliases: &[] },
        Codepoint { codepoint: 0x2904, name: "LEFT RIGHT DOUBLE ARROW WITH VERTICAL STROKE", aliases: &[] },
        Codepoint { codepoint: 0x2905, name: "RIGHTWARDS TWO-HEADED ARROW FROM BAR", aliases: &[] },
        Codepoint { codepoint: 0x2906, name: "LEFTWARDS DOUBLE ARROW FROM BAR", aliases: &[] },
        Codepoint { codepoint: 0x2907, name: "RIGHTWARDS DOUBLE ARROW FROM BAR", aliases: &[] },
        Codepoint { codepoint: 0x2908, name: "DOWNWARDS ARROW WITH HORIZONTAL STROKE", aliases: &[] },
        Codepoint { codepoint: 0x2909, name: "UPWARDS ARROW WITH HORIZONTAL STROKE", aliases: &[] },
        Codepoint { codepoint: 0x290A, name: "UPWARDS TRIPLE ARROW", aliases: &[] },
        Codepoint { codepoint: 0x290B, name: "DOWNWARDS TRIPLE ARROW", aliases: &[] },
        Codepoint { codepoint: 0x290C, name: "LEFTWARDS DOUBLE DASH ARROW", aliases: &[] },
        Codepoint { codepoint: 0x290D, name: "RIGHTWARDS DOUBLE DASH ARROW", aliases: &[] },
        Codepoint { codepoint: 0x290E, name: "LEFTWARDS TRIPLE DASH ARROW", aliases: &[] },
        Codepoint { codepoint: 0x290F, name: "RIGHTWARDS TRIPLE DASH ARROW", aliases: &[] },
        Codepoint { codepoint: 0x2910, name: "RIGHTWARDS TWO-HEADED TRIPLE DASH ARROW", aliases: &[] },
        Codepoint { codepoint: 0x2911, name: "RIGHTWARDS ARROW WITH DOTTED STEM", aliases: &[] },
        Codepoint { codepoint: 0x2912, name: "UPWARDS ARROW TO BAR", aliases: &[] },
        Codepoint { codepoint: 0x2913, name: "DOWNWARDS ARROW TO BAR", aliases: &[] },
        Codepoint { codepoint: 0x2914, name: "RIGHTWARDS ARROW WITH TAIL WITH VERTICAL STROKE", aliases: &[] },
        Codepoint { codepoint: 0x2915, name: "RIGHTWARDS ARROW WITH TAIL WITH DOUBLE VERTICAL STROKE", aliases: &[] },
        Codepoint { codepoint: 0x2916, name: "RIGHTWARDS TWO-HEADED ARROW WITH TAIL", aliases: &[] },
        Codepoint { codepoint: 0x2917, name: "RIGHTWARDS TWO-HEADED ARROW WITH TAIL WITH VERTICAL STROKE", aliases: &[] },
        Codepoint { codepoint: 0x2918, name: "RIGHTWARDS TWO-HEADED ARROW WITH TAIL WITH DOUBLE VERTICAL STROKE", aliases: &[] },
        Codepoint { codepoint: 0x2919, name: "LEFTWARDS ARROW-TAIL", aliases: &[] },
        Codepoint { codepoint: 0x291A, name: "RIGHTWARDS ARROW-TAIL", aliases: &[] },
        Codepoint { codepoint: 0x291B, name: "LEFTWARDS DOUBLE ARROW-TAIL", aliases: &[] },
        Codepoint { codepoint: 0x291C, name: "RIGHTWARDS DOUBLE ARROW-TAIL", aliases: &[] },
        Codepoint { codepoint: 0x291D, name: "LEFTWARDS ARROW TO BLACK DIAMOND", aliases: &[] },
    ]
}

fn all_codepoints_239() -> (v: Vec<Codepoint>)
    ensures
        v@ == codepoint_table_239(),
{
    let v = vec![
        Codepoint { codepoint: 0x28F6, name: "BRAILLE PATTERN DOTS-235678", aliases: &[] },
        Codepoint { codepoint: 0x28F7, name: "BRAILLE PATTERN DOTS-1235678", aliases: &[] },
        Codepoint { codepoint: 0x28F8, name: "BRAILLE PATTERN DOTS-45678", aliases: &[] },
        Codepoint { codepoint: 0x28F9, name: "BRAILLE PATTERN DOTS-145678", aliases: &[] },
        Codepoint { codepoint: 0x28FA, name: "BRAILLE PATTERN DOTS-245678", aliases: &[] },
        Codepoint { codepoint: 0x28FB, name: "BRAILLE PATTERN DOTS-1245678", aliases: &[] },
        Codepoint { codepoint: 0x28FC, name: "BRAILLE PATTERN DOTS-345678", aliases: &[] },
        Codepoint { codepoint: 0x28FD, name: "BRAILLE PATTERN DOTS-1345678", aliases: &[] },
        Codepoint { codepoint: 0x28FE, name: "BRAILLE PATTERN DOTS-2345678", aliases: &[] },
        Codepoint { codepoint: 0x28FF, name: "BRAILLE PATTERN DOTS-12345678", aliases: &[] },
        Codepoint { codepoint: 0x2900, name: "RIGHTWARDS TWO-HEADED ARROW WITH VERTICAL STROKE", aliases: &[] },
        Codepoint { codepoint: 0x2901, name: "RIGHTWARDS TWO-HEADED ARROW WITH DOUBLE VERTICAL STROKE", aliases: &[] },
        Codepoint { codepoint: 0x2902, name: "LEFTWARDS DOUBLE ARROW WITH VERTICAL STROKE", aliases: &[] },
        Codepoint { codepoint: 0x2903, name: "RIGHTWARDS DOUBLE ARROW WITH VERTICAL STROKE", aliases: &[] },
        Codepoint { codepoint: 0x2904, name: "LEFT RIGHT DOUBLE ARROW WITH VERTICAL STROKE", aliases: &[] },
        Codepoint { codepoint: 0x2905, name: "RIGHTWARDS TWO-HEADED ARROW FROM BAR", aliases: &[] },
        Codepoint { codepoint: 0x2906, name: "LEFTWARDS DOUBLE ARROW FROM BAR", aliases: &[] },
        Codepoint { codepoint: 0x2907, name: "RIGHTWARDS DOUBLE ARROW FROM BAR", aliases: &[] },
        Codepoint { codepoint: 0x2908, name: "DOWNWARDS ARROW WITH HORIZONTAL STROKE", aliases: &[] },
        Codepoint { codepoint: 0x2909, name: "UPWARDS ARROW WITH HORIZONTAL STROKE", aliases: &[] },
        Codepoint { codepoint: 0x290A, name: "UPWARDS TRIPLE ARROW", aliases: &[] },
        Codepoint { codepoint: 0x290B, name: "DOWNWARDS TRIPLE ARROW", aliases: &[] },
        Codepoint { codepoint: 0x290C, name: "LEFTWARDS DOUBLE DASH ARROW", aliases: &[] },
        Codepoint { codepoint: 0x290D, name: "RIGHTWARDS DOUBLE DASH ARROW", aliases: &[] },
        Codepoint { codepoint: 0x290E, name: "LEFTWARDS TRIPLE DASH ARROW", aliases: &[] },
        Codepoint { codepoint: 0x290F, name: "RIGHTWARDS TRIPLE DASH ARROW", aliases: &[] },
        Codepoint { codepoint: 0x2910, name: "RIGHTWARDS TWO-HEADED TRIPLE DASH ARROW", aliases: &[] },
        Codepoint { codepoint: 0x2911, name: "RIGHTWARDS ARROW WITH DOTTED STEM", aliases: &[] },
        Codepoint { codepoint: 0x2912, name: "UPWARDS ARROW TO BAR", aliases: &[] },
        Codepoint { codepoint: 0x2913, name: "DOWNWARDS ARROW TO BAR", aliases: &[] },
        Codepoint { codepoint: 0x2914, name: "RIGHTWARDS ARROW WITH TAIL WITH VERTICAL STROKE", aliases: &[] },
        Codepoint { codepoint: 0x2915, name: "RIGHTWARDS ARROW WITH TAIL WITH DOUBLE VERTICAL STROKE", aliases: &[] },
        Codepoint { codepoint: 0x2916, name: "RIGHTWARDS TWO-HEADED ARROW WITH TAIL", aliases: &[] },
        Codepoint { codepoint: 0x2917, name: "RIGHTWARDS TWO-HEADED ARROW WITH TAIL WITH VERTICAL STROKE", aliases: &[] },
        Codepoint { codepoint: 0x2918, name: "RIGHTWARDS TWO-HEADED ARROW WITH TAIL WITH DOUBLE VERTICAL STROKE", aliases: &[] },
        Codepoint { codepoint: 0x2919, name: "LEFTWARDS ARROW-TAIL", aliases: &[] },
        Codepoint { codepoint: 0x291A, name: "RIGHTWARDS ARROW-TAIL", aliases: &[] },
        Codepoint { codepoint: 0x291B, name: "LEFTWARDS DOUBLE ARROW-TAIL", aliases: &[] },
        Codepoint { codepoint: 0x291C, name: "RIGHTWARDS DOUBLE ARROW-TAIL", aliases: &[] },
        Codepoint { codepoint: 0x291D, name: "LEFTWARDS ARROW TO BLACK DIAMOND", aliases: &[] },
    ];
    assert(v@ =~= codepoint_table_239());
    v
}

/// The entries from position 8800 of the table, 800 at most.
pub open spec fn codepoint_group_11() -> Seq<Codepoint> {
    codepoint_table_220() + codepoint_table_221() + codepoint_table_222() + codepoint_table_223() + codepoint_table_224() + codepoint_table_225() + codepoint_table_226() + codepoint_table_227() + codepoint_table_228() + codepoint_table_229() + codepoint_table_230() + codepoint_table_231() + codepoint_table_232() + codepoint_table_233() + codepoint_table_234() + codepoint_table_235() + codepoint_table_236() + codepoint_table_237() + codepoint_table_238() + codepoint_table_239()
}

pub fn all_codepoints_group_11() -> (v: Vec<Codepoint>)
    ensures
        v@ == codepoint_group_11(),
{
    let mut v = all_codepoints_220();
    let mut part = all_codepoints_221();
    v.append(&mut part);
    let mut part = all_codepoints_222();
    v.append(&mut part);
    let mut part = all_codepoints_223();
    v.append(&mut part);
    let mut part = all_codepoints_224();
    v.append(&mut part);
    let mut part = all_codepoints_225();
    v.append(&mut part);
    let mut part = all_codepoints_226();
    v.append(&mut part);
    let mut part = all_codepoints_227();
    v.append(&mut part);
    let mut part = all_codepoints_228();
    v.append(&mut part);
    let mut part = all_codepoints_229();
    v.append(&mut part);
    let mut part = all_codepoints_230();
    v.append(&mut part);
    let mut part = all_codepoints_231();
    v.append(&mut part);
    let mut part = all_codepoints_232();
    v.append(&mut part);
    let mut part = all_codepoints_233();
    v.append(&mut part);
    let mut part = all_codepoints_234();
    v.append(&mut part);
    let mut part = all_codepoints_235();
    v.append(&mut part);
    let mut part = all_codepoints_236();
    v.append(&mut part);
    let mut part = all_codepoints_237();
    v.append(&mut part);
    let mut part = all_codepoints_238();
    v.append(&mut part);
    let mut part = all_codepoints_239();
    v.append(&mut part);
    v
}

pub open spec fn codepoint_table_240() -> Seq<Codepoint> {
    seq![
        Codepoint { codepoint: 0x291E, name: "RIGHTWARDS ARROW TO BLACK DIAMOND", aliases: &[] },
        Codepoint { codepoint: 0x291F, name: "LEFTWARDS ARROW FROM BAR TO BLACK DIAMOND", aliases: &[] },
        Codepoint { codepoint: 0x2920, name: "RIGHTWARDS ARROW FROM BAR TO BLACK DIAMOND", aliases: &[] },
        Codepoint { codepoint: 0x2921, name: "NORTH WEST AND SOUTH EAST ARROW", aliases: &[] },
        Codepoint { codepoint: 0x2922, name: "NORTH EAST AND SOUTH WEST ARROW", aliases: &[] },
        Codepoint { codepoint: 0x2923, name: "NORTH WEST ARROW WITH HOOK", aliases: &[] },
        Codepoint { codepoint: 0x2924, name: "NORTH EAST ARROW WITH HOOK", aliases: &[] },
        Codepoint { codepoint: 0x2925, name: "SOUTH EAST ARROW WITH HOOK", aliases: &[] },
        Codepoint { codepoint: 0x2926, name: "SOUTH WEST ARROW WITH HOOK", aliases: &[] },
        Codepoint { codepoint: 0x2927, name: "NORTH WEST ARROW AND NORTH EAST ARROW", aliases: &[] },
        Codepoint { codepoint: 0x2928, name: "NORTH EAST ARROW AND SOUTH EAST ARROW", aliases: &[] },
        Codepoint { codepoint: 0x2929, name: "SOUTH EAST ARROW AND SOUTH WEST ARROW", aliases: &[] },
        Codepoint { codepoint: 0x292A, name: "SOUTH WEST ARROW AND NORTH WEST ARROW", aliases: &[] },
        Codepoint { codepoint: 0x292B, name: "RISING DIAGONAL CROSSING FALLING DIAGONAL", aliases: &[] },
        Codepoint { codepoint: 0x292C, name: "FALLING DIAGONAL CROSSING RISING DIAGONAL", aliases: &[] },
        Codepoint { codepoint: 0x292D, name: "SOUTH EAST ARROW CROSSING NORTH EAST ARROW", aliases: &[] },
        Codepoint { codepoint: 0x292E, name: "NORTH EAST ARROW CROSSING SOUTH EAST ARROW", aliases: &[] },
        Codepoint { codepoint: 0x292F, name: "FALLING DIAGONAL CROSSING NORTH EAST ARROW", aliases: &[] },
        Codepoint { codepoint: 0x2930, name: "RISING DIAGONAL CROSSING SOUTH EAST ARROW", aliases: &[] },
        Codepoint { codepoint: 0x2931, name: "NORTH EAST ARROW CROSSING NORTH WEST ARROW", aliases: &[] },
        Codepoint { codepoint: 0x2932, name: "NORTH WEST ARROW CROSSING NORTH EAST ARROW", aliases: &[] },
        Codepoint { codepoint: 0x2933, name: "WAVE ARROW POINTING DIRECTLY RIGHT", aliases: &[] },
        Codepoint { codepoint: 0x2934, name: "ARROW POINTING RIGHTWARDS THEN CURVING UPWARDS", aliases: &[] },
        Codepoint { codepoint: 0x2935, name: "ARROW POINTING RIGHTWARDS THEN CURVING DOWNWARDS", aliases: &[] },
        Codepoint { codepoint: 0x2936, name: "ARROW POINTING DOWNWARDS THEN CURVING LEFTWARDS", aliases: &[] },
        Codepoint { codepoint: 0x2937, name: "ARROW POINTING DOWNWARDS THEN CURVING RIGHTWARDS", aliases: &[] },
        Codepoint { codepoint: 0x2938, name: "RIGHT-SIDE ARC CLOCKWISE ARROW", aliases: &[] },
        Codepoint { codepoint: 0x2939, name: "LEFT-SIDE ARC ANTICLOCKWISE ARROW", aliases: &[] },
        Codepoint { codepoint: 0x293A, name: "TOP ARC ANTICLOCKWISE ARROW", aliases: &[] },
        Codepoint { codepoint: 0x293B, name: "BOTTOM ARC ANTICLOCKWISE ARROW", aliases: &[] },
        Codepoint { codepoint: 0x293C, name: "TOP ARC CLOCKWISE ARROW WITH MINUS", aliases: &[] },
        Codepoint { codepoint: 0x293D, name: "TOP ARC ANTICLOCKWISE ARROW WITH PLUS", aliases: &[] },
        Codepoint { codepoint: 0x293E, name: "LOWER RIGHT SEMICIRCULAR CLOCKWISE ARROW", aliases: &[] },
        Codepoint { codepoint: 0x293F, name: "LOWER LEFT SEMICIRCULAR ANTICLOCKWISE ARROW", aliases: &[] },
        Codepoint { codepoint: 0x2940, name: "ANTICLOCKWISE CLOSED CIRCLE ARROW", aliases: &[] },
        Codepoint { codepoint: 0x2941, name: "CLOCKWISE CLOSED CIRCLE ARROW", aliases: &[] },
        Codepoint { codepoint: 0x2942, name: "RIGHTWARDS ARROW ABOVE SHORT LEFTWARDS ARROW", aliases: &[] },
        Codepoint { codepoint: 0x2943, name: "LEFTWARDS ARROW ABOVE SHORT RIGHTWARDS ARROW", aliases: &[] },
        Codepoint { codepoint: 0x2944, name: "SHORT RIGHTWARDS ARROW ABOVE LEFTWARDS ARROW", aliases: &[] },
        Codepoint { codepoint: 0x2945, name: "RIGHTWARDS ARROW WITH PLUS BELOW", aliases: &[] },
    ]
}

fn all_codepoints_240() -> (v: Vec<Codepoint>)
    ensures
        v@ == codepoint_table_240(),
{
    let v = vec![
        Codepoint { codepoint: 0x291E, name: "RIGHTWARDS ARROW TO BLACK DIAMOND", aliases: &[] },
        Codepoint { codepoint: 0x291F, name: "LEFTWARDS ARROW FROM BAR TO BLACK DIAMOND", aliases: &[] },
        Codepoint { codepoint: 0x2920, name: "RIGHTWARDS ARROW FROM BAR TO BLACK DIAMOND", aliases: &[] },
        Codepoint { codepoint: 0x2921, name: "NORTH WEST AND SOUTH EAST ARROW", aliases: &[] },
        Codepoint { codepoint: 0x2922, name: "NORTH EAST AND SOUTH WEST ARROW", aliases: &[] },
        Codepoint { codepoint: 0x2923, name: "NORTH WEST ARROW WITH HOOK", aliases: &[] },
        Codepoint { codepoint: 0x2924, name: "NORTH EAST ARROW WITH HOOK", aliases: &[] },
        Codepoint { codepoint: 0x2925, name: "SOUTH EAST ARROW WITH HOOK", aliases: &[] },
        Codepoint { codepoint: 0x2926, name: "SOUTH WEST ARROW WITH HOOK", aliases: &[] },
        Codepoint { codepoint: 0x2927, name: "NORTH WEST ARROW AND NORTH EAST ARROW", aliases: &[] },
        Codepoint { codepoint: 0x2928, name: "NORTH EAST ARROW AND SOUTH EAST ARROW", aliases: &[] },
        Codepoint { codepoint: 0x2929, name: "SOUTH EAST ARROW AND SOUTH WEST ARROW", aliases: &[] },
        Codepoint { codepoint: 0x292A, name: "SOUTH WEST ARROW AND NORTH WEST ARROW", aliases: &[] },
        Codepoint { codepoint: 0x292B, name: "RISING DIAGONAL CROSSING FALLING DIAGONAL", aliases: &[] },
        Codepoint { codepoint: 0x292C, name: "FALLING DIAGONAL CROSSING RISING DIAGONAL", aliases: &[] },
        Codepoint { codepoint: 0x292D, name: "SOUTH EAST ARROW CROSSING NORTH EAST ARROW", aliases: &[] },
        Codepoint { codepoint: 0x292E, name: "NORTH EAST ARROW CROSSING SOUTH EAST ARROW", aliases: &[] },
        Codepoint { codepoint: 0x292F, name: "FALLING DIAGONAL CROSSING NORTH EAST ARROW", aliases: &[] },
        Codepoint { codepoint: 0x2930, name: "RISING DIAGONAL CROSSING SOUTH EAST ARROW", aliases: &[] },
        Codepoint { codepoint: 0x2931, name: "NORTH EAST ARROW CROSSING NORTH WEST ARROW", aliases: &[] },
        Codepoint { codepoint: 0x2932, name: "NORTH WEST ARROW CROSSING NORTH EAST ARROW", aliases: &[] },
        Codepoint { codepoint: 0x2933, name: "WAVE ARROW POINTING DIRECTLY RIGHT", aliases: &[] },
        Codepoint { codepoint: 0x2934, name: "ARROW POINTING RIGHTWARDS THEN CURVING UPWARDS", aliases: &[] },
        Codepoint { codepoint: 0x2935, name: "ARROW POINTING RIGHTWARDS THEN CURVING DOWNWARDS", aliases: &[] },
        Codepoint { codepoint: 0x2936, name: "ARROW POINTING DOWNWARDS THEN CURVING LEFTWARDS", aliases: &[] },
        Codepoint { codepoint: 0x2937, name: "ARROW POINTING DOWNWARDS THEN CURVING RIGHTWARDS", aliases: &[] },
        Codepoint { codepoint: 0x2938, name: "RIGHT-SIDE ARC CLOCKWISE ARROW", aliases: &[] },
        Codepoint { codepoint: 0x2939, name: "LEFT-SIDE ARC ANTICLOCKWISE ARROW", aliases: &[] },
        Codepoint { codepoint: 0x293A, name: "TOP ARC ANTICLOCKWISE ARROW", aliases: &[] },
        Codepoint { codepoint: 0x293B, name: "BOTTOM ARC ANTICLOCKWISE ARROW", aliases: &[] },
        Codepoint { codepoint: 0x293C, name: "TOP ARC CLOCKWISE ARROW WITH MINUS", aliases: &[] },
        Codepoint { codepoint: 0x293D, name: "TOP ARC ANTICLOCKWISE ARROW WITH PLUS", aliases: &[] },
        Codepoint { codepoint: 0x293E, name: "LOWER RIGHT SEMICIRCULAR CLOCKWISE ARROW", aliases: &[] },
        Codepoint { codepoint: 0x293F, name: "LOWER LEFT SEMICIRCULAR ANTICLOCKWISE ARROW", aliases: &[] },
        Codepoint { codepoint: 0x2940, name: "ANTICLOCKWISE CLOSED CIRCLE ARROW", aliases: &[] },
        Codepoint { codepoint: 0x2941, name: "CLOCKWISE CLOSED CIRCLE ARROW", aliases: &[] },
        Codepoint { codepoint: 0x2942, name: "RIGHTWARDS ARROW ABOVE SHORT LEFTWARDS ARROW", aliases: &[] },
        Codepoint { codepoint: 0x2943, name: "LEFTWARDS ARROW ABOVE SHORT RIGHTWARDS ARROW", aliases: &[] },
        Codepoint { codepoint: 0x2944, name: "SHORT RIGHTWARDS ARROW ABOVE LEFTWARDS ARROW", aliases: &[] },
        Codepoint { codepoint: 0x2945, name: "RIGHTWARDS ARROW WITH PLUS BELOW", aliases: &[] },
    ];
    assert(v@ =~= codepoint_table_240());
    v
}

pub open spec fn codepoint_table_241() -> Seq<Codepoint> {
    seq![
        Codepoint { codepoint: 0x2946, name: "LEFTWARDS ARROW WITH PLUS BELOW", aliases: &[] },
        Codepoint { codepoint: 0x2947, name: "RIGHTWARDS ARROW THROUGH X", aliases: &[] },
        Codepoint { codepoint: 0x2948, name: "LEFT RIGHT ARROW THROUGH SMALL CIRCLE", aliases: &[] },
        Codepoint { codepoint: 0x2949, name: "UPWARDS TWO-HEADED ARROW FROM SMALL CIRCLE", aliases: &[] },
        Codepoint { codepoint: 0x294A, name: "LEFT BARB UP RIGHT BARB DOWN HARPOON", aliases: &[] },
        Codepoint { codepoint: 0x294B, name: "LEFT BARB DOWN RIGHT BARB UP HARPOON", aliases: &[] },
        Codepoint { codepoint: 0x294C, name: "UP BARB RIGHT DOWN BARB LEFT HARPOON", aliases: &[] },
        Codepoint { codepoint: 0x294D, name: "UP BARB LEFT DOWN BARB RIGHT HARPOON", aliases: &[] },
        Codepoint { codepoint: 0x294E, name: "LEFT BARB UP RIGHT BARB UP HARPOON", aliases: &[] },
        Codepoint { codepoint: 0x294F, name: "UP BARB RIGHT DOWN BARB RIGHT HARPOON", aliases: &[] },
        Codepoint { codepoint: 0x2950, name: "LEFT BARB DOWN RIGHT BARB DOWN HARPOON", aliases: &[] },
        Codepoint { codepoint: 0x2951, name: "UP BARB LEFT DOWN BARB LEFT HARPOON", aliases: &[] },
        Codepoint { codepoint: 0x2952, name: "LEFTWARDS HARPOON WITH BARB UP TO BAR", aliases: &[] },
        Codepoint { codepoint: 0x2953, name: "RIGHTWARDS HARPOON WITH BARB UP TO BAR", aliases: &[] },
        Codepoint { codepoint: 0x2954, name: "UPWARDS HARPOON WITH BARB RIGHT TO BAR", aliases: &[] },
        Codepoint { codepoint: 0x2955, name: "DOWNWARDS HARPOON WITH BARB RIGHT TO BAR", aliases: &[] },
        Codepoint { codepoint: 0x2956, name: "LEFTWARDS HARPOON WITH BARB DOWN TO BAR", aliases: &[] },
        Codepoint { codepoint: 0x2957, name: "RIGHTWARDS HARPOON WITH BARB DOWN TO BAR", aliases: &[] },
        Codepoint { codepoint: 0x2958, name: "UPWARDS HARPOON WITH BARB LEFT TO BAR", aliases: &[] },
        Codepoint { codepoint: 0x2959, name: "DOWNWARDS HARPOON WITH BARB LEFT TO BAR", aliases: &[] },
        Codepoint { codepoint: 0x295A, name: "LEFTWARDS HARPOON WITH BARB UP FROM BAR", aliases: &[] },
        Codepoint { codepoint: 0x295B, name: "RIGHTWARDS HARPOON WITH BARB UP FROM BAR", aliases: &[] },
        Codepoint { codepoint: 0x295C, name: "UPWARDS HARPOON WITH BARB RIGHT FROM BAR", aliases: &[] },
        Codepoint { codepoint: 0x295D, name: "DOWNWARDS HARPOON WITH BARB RIGHT FROM BAR", aliases: &[] },
        Codepoint { codepoint: 0x295E, name: "LEFTWARDS HARPOON WITH BARB DOWN FROM BAR", aliases: &[] },
        Codepoint { codepoint: 0x295F, name: "RIGHTWARDS HARPOON WITH BARB DOWN FROM BAR", aliases: &[] },
        Codepoint { codepoint: 0x2960, name: "UPWARDS HARPOON WITH BARB LEFT FROM BAR", aliases: &[] },
        Codepoint { codepoint: 0x2961, name: "DOWNWARDS HARPOON WITH BARB LEFT FROM BAR", aliases: &[] },
        Codepoint { codepoint: 0x2962, name: "LEFTWARDS HARPOON WITH BARB UP ABOVE LEFTWARDS HARPOON WITH BARB DOWN", aliases: &[] },
        Codepoint { codepoint: 0x2963, name: "UPWARDS HARPOON WITH BARB LEFT BESIDE UPWARDS HARPOON WITH BARB RIGHT", aliases: &[] },
        Codepoint { codepoint: 0x2964, name: "RIGHTWARDS HARPOON WITH BARB UP ABOVE RIGHTWARDS HARPOON WITH BARB DOWN", aliases: &[] },
        Codepoint { codepoint: 0x2965, name: "DOWNWARDS HARPOON WITH BARB LEFT BESIDE DOWNWARDS HARPOON WITH BARB RIGHT", aliases: &[] },
        Codepoint { codepoint: 0x2966, name: "LEFTWARDS HARPOON WITH BARB UP ABOVE RIGHTWARDS HARPOON WITH BARB UP", aliases: &[] },
        Codepoint { codepoint: 0x2967, name: "LEFTWARDS HARPOON WITH BARB DOWN ABOVE RIGHTWARDS HARPOON WITH BARB DOWN", aliases: &[] },
        Codepoint { codepoint: 0x2968, name: "RIGHTWARDS HARPOON WITH BARB UP ABOVE LEFTWARDS HARPOON WITH BARB UP", aliases: &[] },
        Codepoint { codepoint: 0x2969, name: "RIGHTWARDS HARPOON WITH BARB DOWN ABOVE LEFTWARDS HARPOON WITH BARB DOWN", aliases: &[] },
        Codepoint { codepoint: 0x296A, name: "LEFTWARDS HARPOON WITH BARB UP ABOVE LONG DASH", aliases: &[] },
        Codepoint { codepoint: 0x296B, name: "LEFTWARDS HARPOON WITH BARB DOWN BELOW LONG DASH", aliases: &[] },
        Codepoint { codepoint: 0x296C, name: "RIGHTWARDS HARPOON WITH BARB UP ABOVE LONG DASH", aliases: &[] },
        Codepoint { codepoint: 0x296D, name: "RIGHTWARDS HARPOON WITH BARB DOWN BELOW LONG DASH", aliases: &[] },
    ]
}

fn all_codepoints_241() -> (v: Vec<Codepoint>)
    ensures
        v@ == codepoint_table_241(),
{
    let v = vec![
        Codepoint { codepoint: 0x2946, name: "LEFTWARDS ARROW WITH PLUS BELOW", aliases: &[] },
        Codepoint { codepoint: 0x2947, name: "RIGHTWARDS ARROW THROUGH X", aliases: &[] },
        Codepoint { codepoint: 0x2948, name: "LEFT RIGHT ARROW THROUGH SMALL CIRCLE", aliases: &[] },
        Codepoint { codepoint: 0x2949, name: "UPWARDS TWO-HEADED ARROW FROM SMALL CIRCLE", aliases: &[] },
        Codepoint { codepoint: 0x294A, name: "LEFT BARB UP RIGHT BARB DOWN HARPOON", aliases: &[] },
        Codepoint { codepoint: 0x294B, name: "LEFT BARB DOWN RIGHT BARB UP HARPOON", aliases: &[] },
        Codepoint { codepoint: 0x294C, name: "UP BARB RIGHT DOWN BARB LEFT HARPOON", aliases: &[] },
        Codepoint { codepoint: 0x294D, name: "UP BARB LEFT DOWN BARB RIGHT HARPOON", aliases: &[] },
        Codepoint { codepoint: 0x294E, name: "LEFT BARB UP RIGHT BARB UP HARPOON", aliases: &[] },
        Codepoint { codepoint: 0x294F, name: "UP BARB RIGHT DOWN BARB RIGHT HARPOON", aliases: &[] },
        Codepoint { codepoint: 0x2950, name: "LEFT BARB DOWN RIGHT BARB DOWN HARPOON", aliases: &[] },
        Codepoint { codepoint: 0x2951, name: "UP BARB LEFT DOWN BARB LEFT HARPOON", aliases: &[] },
        Codepoint { codepoint: 0x2952, name: "LEFTWARDS HARPOON WITH BARB UP TO BAR", aliases: &[] },
        Codepoint { codepoint: 0x2953, name: "RIGHTWARDS HARPOON WITH BARB UP TO BAR", aliases: &[] },
        Codepoint { codepoint: 0x2954, name: "UPWARDS HARPOON WITH BARB RIGHT TO BAR", aliases: &[] },
        Codepoint { codepoint: 0x2955, name: "DOWNWARDS HARPOON WITH BARB RIGHT TO BAR", aliases: &[] },
        Codepoint { codepoint: 0x2956, name: "LEFTWARDS HARPOON WITH BARB DOWN TO BAR", aliases: &[] },
        Codepoint { codepoint: 0x2957, name: "RIGHTWARDS HARPOON WITH BARB DOWN TO BAR", aliases: &[] },
        Codepoint { codepoint: 0x2958, name: "UPWARDS HARPOON WITH BARB LEFT TO BAR", aliases: &[] },
        Codepoint { codepoint: 0x2959, name: "DOWNWARDS HARPOON WITH BARB LEFT TO BAR", aliases: &[] },
        Codepoint { codepoint: 0x295A, name: "LEFTWARDS HARPOON WITH BARB UP FROM BAR", aliases: &[] },
        Codepoint { codepoint: 0x295B, name: "RIGHTWARDS HARPOON WITH BARB UP FROM BAR", aliases: &[] },
        Codepoint { codepoint: 0x295C, name: "UPWARDS HARPOON WITH BARB RIGHT FROM BAR", aliases: &[] },
        Codepoint { codepoint: 0x295D, name: "DOWNWARDS HARPOON WITH BARB RIGHT FROM BAR", aliases: &[] },
        Codepoint { codepoint: 0x295E, name: "LEFTWARDS HARPOON WITH BARB DOWN FROM BAR", aliases: &[] },
        Codepoint { codepoint: 0x295F, name: "RIGHTWARDS HARPOON WITH BARB DOWN FROM BAR", aliases: &[] },
        Codepoint { codepoint: 0x2960, name: "UPWARDS HARPOON WITH BARB LEFT FROM BAR", aliases: &[] },
        Codepoint { codepoint: 0x2961, name: "DOWNWARDS HARPOON WITH BARB LEFT FROM BAR", aliases: &[] },
        Codepoint { codepoint: 0x2962, name: "LEFTWARDS HARPOON WITH BARB UP ABOVE LEFTWARDS HARPOON WITH BARB DOWN", aliases: &[] },
        Codepoint { codepoint: 0x2963, name: "UPWARDS HARPOON WITH BARB LEFT BESIDE UPWARDS HARPOON WITH BARB RIGHT", aliases: &[] },
        Codepoint { codepoint: 0x2964, name: "RIGHTWARDS HARPOON WITH BARB UP ABOVE RIGHTWARDS HARPOON WITH BARB DOWN", aliases: &[] },
        Codepoint { codepoint: 0x2965, name: "DOWNWARDS HARPOON WITH BARB LEFT BESIDE DOWNWARDS HARPOON WITH BARB RIGHT", aliases: &[] },
        Codepoint { codepoint: 0x2966, name: "LEFTWARDS HARPOON WITH BARB UP ABOVE RIGHTWARDS HARPOON WITH BARB UP", aliases: &[] },
        Codepoint { codepoint: 0x2967, name: "LEFTWARDS HARPOON WITH BARB DOWN ABOVE RIGHTWARDS HARPOON WITH BARB DOWN", aliases: &[] },
        Codepoint { codepoint: 0x2968, name: "RIGHTWARDS HARPOON WITH BARB UP ABOVE LEFTWARDS HARPOON WITH BARB UP", aliases: &[] },
        Codepoint { codepoint: 0x2969, name: "RIGHTWARDS HARPOON WITH BARB DOWN ABOVE LEFTWARDS HARPOON WITH BARB DOWN", aliases: &[] },
        Codepoint { codepoint: 0x296A, name: "LEFTWARDS HARPOON WITH BARB UP ABOVE LONG DASH", aliases: &[] },
        Codepoint { codepoint: 0x296B, name: "LEFTWARDS HARPOON WITH BARB DOWN BELOW LONG DASH", aliases: &[] },
        Codepoint { codepoint: 0x296C, name: "RIGHTWARDS HARPOON WITH BARB UP ABOVE LONG DASH", aliases: &[] },
        Codepoint { codepoint: 0x296D, name: "RIGHTWARDS HARPOON WITH BARB DOWN BELOW LONG DASH", aliases: &[] },
    ];
    assert(v@ =~= codepoint_table_241());
    v
}

pub open spec fn codepoint_table_242() -> Seq<Codepoint> {
    seq![
        Codepoint { codepoint: 0x296E, name: "UPWARDS HARPOON WITH BARB LEFT BESIDE DOWNWARDS HARPOON WITH BARB RIGHT", aliases: &[] },
        Codepoint { codepoint: 0x296F, name: "DOWNWARDS HARPOON WITH BARB LEFT BESIDE UPWARDS HARPOON WITH BARB RIGHT", aliases: &[] },
        Codepoint { codepoint: 0x2970, name: "RIGHT DOUBLE ARROW WITH ROUNDED HEAD", aliases: &[] },
        Codepoint { codepoint: 0x2971, name: "EQUALS SIGN ABOVE RIGHTWARDS ARROW", aliases: &[] },
        Codepoint { codepoint: 0x2972, name: "TILDE OPERATOR ABOVE RIGHTWARDS ARROW", aliases: &[] },
        Codepoint { codepoint: 0x2973, name: "LEFTWARDS ARROW ABOVE TILDE OPERATOR", aliases: &[] },
        Codepoint { codepoint: 0x2974, name: "RIGHTWARDS ARROW ABOVE TILDE OPERATOR", aliases: &[] },
        Codepoint { codepoint: 0x2975, name: "RIGHTWARDS ARROW ABOVE ALMOST EQUAL TO", aliases: &[] },
        Codepoint { codepoint: 0x2976, name: "LESS-THAN ABOVE LEFTWARDS ARROW", aliases: &[] },
        Codepoint { codepoint: 0x2977, name: "LEFTWARDS ARROW THROUGH LESS-THAN", aliases: &[] },
        Codepoint { codepoint: 0x2978, name: "GREATER-THAN ABOVE RIGHTWARDS ARROW", aliases: &[] },
        Codepoint { codepoint: 0x2979, name: "SUBSET ABOVE RIGHTWARDS ARROW", aliases: &[] },
        Codepoint { codepoint: 0x297A, name: "LEFTWARDS ARROW THROUGH SUBSET", aliases: &[] },
        Codepoint { codepoint: 0x297B, name: "SUPERSET ABOVE LEFTWARDS ARROW", aliases: &[] },
        Codepoint { codepoint: 0x297C, name: "LEFT FISH TAIL", aliases: &[] },
        Codepoint { codepoint: 0x297D, name: "RIGHT FISH TAIL", aliases: &[] },
        Codepoint { codepoint: 0x297E, name: "UP FISH TAIL", aliases: &[] },
        Codepoint { codepoint: 0x297F, name: "DOWN FISH TAIL", aliases: &[] },
        Codepoint { codepoint: 0x2980, name: "TRIPLE VERTICAL BAR DELIMITER", aliases: &[] },
        Codepoint { codepoint: 0x2981, name: "Z NOTATION SPOT", aliases: &[] },
        Codepoint { codepoint: 0x2982, name: "Z NOTATION TYPE COLON", aliases: &[] },
        Codepoint { codepoint: 0x2983, name: "LEFT WHITE CURLY BRACKET", aliases: &[] },
        Codepoint { codepoint: 0x2984, name: "RIGHT WHITE CURLY BRACKET", aliases: &[] },
        Codepoint { codepoint: 0x2985, name: "LEFT WHITE PARENTHESIS", aliases: &[] },
        Codepoint { codepoint: 0x2986, name: "RIGHT WHITE PARENTHESIS", aliases: &[] },
        Codepoint { codepoint: 0x2987, name: "Z NOTATION LEFT IMAGE BRACKET", aliases: &[] },
        Codepoint { codepoint: 0x2988, name: "Z NOTATION RIGHT IMAGE BRACKET", aliases: &[] },
        Codepoint { codepoint: 0x2989, name: "Z NOTATION LEFT BINDING BRACKET", aliases: &[] },
        Codepoint { codepoint: 0x298A, name: "Z NOTATION RIGHT BINDING BRACKET", aliases: &[] },
        Codepoint { codepoint: 0x298B, name: "LEFT SQUARE BRACKET WITH UNDERBAR", aliases: &[] },
        Codepoint { codepoint: 0x298C, name: "RIGHT SQUARE BRACKET WITH UNDERBAR", aliases: &[] },
        Codepoint { codepoint: 0x298D, name: "LEFT SQUARE BRACKET WITH TICK IN TOP CORNER", aliases: &[] },
        Codepoint { codepoint: 0x298E, name: "RIGHT SQUARE BRACKET WITH TICK IN BOTTOM CORNER", aliases: &[] },
        Codepoint { codepoint: 0x298F, name: "LEFT SQUARE BRACKET WITH TICK IN BOTTOM CORNER", aliases: &[] },
        Codepoint { codepoint: 0x2990, name: "RIGHT SQUARE BRACKET WITH TICK IN TOP CORNER", aliases: &[] },
        Codepoint { codepoint: 0x2991, name: "LEFT ANGLE BRACKET WITH DOT", aliases: &[] },
        Codepoint { codepoint: 0x2992, name: "RIGHT ANGLE BRACKET WITH DOT", aliases: &[] },
        Codepoint { codepoint: 0x2993, name: "LEFT ARC LESS-THAN BRACKET", aliases: &[] },
        Codepoint { codepoint: 0x2994, name: "RIGHT ARC GREATER-THAN BRACKET", aliases: &[] },
        Codepoint { codepoint: 0x2995, name: "DOUBLE LEFT ARC GREATER-THAN BRACKET", aliases: &[] },
    ]
}

fn all_codepoints_242() -> (v: Vec<Codepoint>)
    ensures
        v@ == codepoint_table_242(),
{
    let v = vec![
        Codepoint { codepoint: 0x296E, name: "UPWARDS HARPOON WITH BARB LEFT BESIDE DOWNWARDS HARPOON WITH BARB RIGHT", aliases: &[] },
        Codepoint { codepoint: 0x296F, name: "DOWNWARDS HARPOON WITH BARB LEFT BESIDE UPWARDS HARPOON WITH BARB RIGHT", aliases: &[] },
        Codepoint { codepoint: 0x2970, name: "RIGHT DOUBLE ARROW WITH ROUNDED HEAD", aliases: &[] },
        Codepoint { codepoint: 0x2971, name: "EQUALS SIGN ABOVE RIGHTWARDS ARROW", aliases: &[] },
        Codepoint { codepoint: 0x2972, name: "TILDE OPERATOR ABOVE RIGHTWARDS ARROW", aliases: &[] },
        Codepoint { codepoint: 0x2973, name: "LEFTWARDS ARROW ABOVE TILDE OPERATOR", aliases: &[] },
        Codepoint { codepoint: 0x2974, name: "RIGHTWARDS ARROW ABOVE TILDE OPERATOR", aliases: &[] },
        Codepoint { codepoint: 0x2975, name: "RIGHTWARDS ARROW ABOVE ALMOST EQUAL TO", aliases: &[] },
        Codepoint { codepoint: 0x2976, name: "LESS-THAN ABOVE LEFTWARDS ARROW", aliases: &[] },
        Codepoint { codepoint: 0x2977, name: "LEFTWARDS ARROW THROUGH LESS-THAN", aliases: &[] },
        Codepoint { codepoint: 0x2978, name: "GREATER-THAN ABOVE RIGHTWARDS ARROW", aliases: &[] },
        Codepoint { codepoint: 0x2979, name: "SUBSET ABOVE RIGHTWARDS ARROW", aliases: &[] },
        Codepoint { codepoint: 0x297A, name: "LEFTWARDS ARROW THROUGH SUBSET", aliases: &[] },
        Codepoint { codepoint: 0x297B, name: "SUPERSET ABOVE LEFTWARDS ARROW", aliases: &[] },
        Codepoint { codepoint: 0x297C, name: "LEFT FISH TAIL", aliases: &[] },
        Codepoint { codepoint: 0x297D, name: "RIGHT FISH TAIL", aliases: &[] },
        Codepoint { codepoint: 0x297E, name: "UP FISH TAIL", aliases: &[] },
        Codepoint { codepoint: 0x297F, name: "DOWN FISH TAIL", aliases: &[] },
        Codepoint { codepoint: 0x2980, name: "TRIPLE VERTICAL BAR DELIMITER", aliases: &[] },
        Codepoint { codepoint: 0x2981, name: "Z NOTATION SPOT", aliases: &[] },
        Codepoint { codepoint: 0x2982, name: "Z NOTATION TYPE COLON", aliases: &[] },
        Codepoint { codepoint: 0x2983, name: "LEFT WHITE CURLY BRACKET", aliases: &[] },
        Codepoint { codepoint: 0x2984, name: "RIGHT WHITE CURLY BRACKET", aliases: &[] },
        Codepoint { codepoint: 0x2985, name: "LEFT WHITE PARENTHESIS", aliases: &[] },
        Codepoint { codepoint: 0x2986, name: "RIGHT WHITE PARENTHESIS", aliases: &[] },
        Codepoint { codepoint: 0x2987, name: "Z NOTATION LEFT IMAGE BRACKET", aliases: &[] },
        Codepoint { codepoint: 0x2988, name: "Z NOTATION RIGHT IMAGE BRACKET", aliases: &[] },
        Codepoint { codepoint: 0x2989, name: "Z NOTATION LEFT BINDING BRACKET", aliases: &[] },
        Codepoint { codepoint: 0x298A, name: "Z NOTATION RIGHT BINDING BRACKET", aliases: &[] },
        Codepoint { codepoint: 0x298B, name: "LEFT SQUARE BRACKET WITH UNDERBAR", aliases: &[] },
        Codepoint { codepoint: 0x298C, name: "RIGHT SQUARE BRACKET WITH UNDERBAR", aliases: &[] },
        Codepoint { codepoint: 0x298D, name: "LEFT SQUARE BRACKET WITH TICK IN TOP CORNER", aliases: &[] },
        Codepoint { codepoint: 0x298E, name: "RIGHT SQUARE BRACKET WITH TICK IN BOTTOM CORNER", aliases: &[] },
        Codepoint { codepoint: 0x298F, name: "LEFT SQUARE BRACKET WITH TICK IN BOTTOM CORNER", aliases: &[] },
        Codepoint { codepoint: 0x2990, name: "RIGHT SQUARE BRACKET WITH TICK IN TOP CORNER", aliases: &[] },
        Codepoint { codepoint: 0x2991, name: "LEFT ANGLE BRACKET WITH DOT", aliases: &[] },
        Codepoint { codepoint: 0x2992, name: "RIGHT ANGLE BRACKET WITH DOT", aliases: &[] },
        Codepoint { codepoint: 0x2993, name: "LEFT ARC LESS-THAN BRACKET", aliases: &[] },
        Codepoint { codepoint: 0x2994, name: "RIGHT ARC GREATER-THAN BRACKET", aliases: &[] },
        Codepoint { codepoint: 0x2995, name: "DOUBLE LEFT ARC GREATER-THAN BRACKET", aliases: &[] },
    ];
    assert(v@ =~= codepoint_table_242());
    v
}

pub open spec fn codepoint_table_243() -> Seq<Codepoint> {
    seq![
        Codepoint { codepoint: 0x2996, name: "DOUBLE RIGHT ARC LESS-THAN BRACKET", aliases: &[] },
        Codepoint { codepoint: 0x2997, name: "LEFT BLACK TORTOISE SHELL BRACKET", aliases: &[] },
        Codepoint { codepoint: 0x2998, name: "RIGHT BLACK TORTOISE SHELL BRACKET", aliases: &[] },
        Codepoint { codepoint: 0x2999, name: "DOTTED FENCE", aliases: &[] },
        Codepoint { codepoint: 0x299A, name: "VERTICAL ZIGZAG LINE", aliases: &[] },
        Codepoint { codepoint: 0x299B, name: "MEASURED ANGLE OPENING LEFT", aliases: &[] },
        Codepoint { codepoint: 0x299C, name: "RIGHT ANGLE VARIANT WITH SQUARE", aliases: &[] },
        Codepoint { codepoint: 0x299D, name: "MEASURED RIGHT ANGLE WITH DOT", aliases: &[] },
        Codepoint { codepoint: 0x299E, name: "ANGLE WITH S INSIDE", aliases: &[] },
        Codepoint { codepoint: 0x299F, name: "ACUTE ANGLE", aliases: &[] },
        Codepoint { codepoint: 0x29A0, name: "SPHERICAL ANGLE OPENING LEFT", aliases: &[] },
        Codepoint { codepoint: 0x29A1, name: "SPHERICAL ANGLE OPENING UP", aliases: &[] },
        Codepoint { codepoint: 0x29A2, name: "TURNED ANGLE", aliases: &[] },
        Codepoint { codepoint: 0x29A3, name: "REVERSED ANGLE", aliases: &[] },
        Codepoint { codepoint: 0x29A4, name: "ANGLE WITH UNDERBAR", aliases: &[] },
        Codepoint { codepoint: 0x29A5, name: "REVERSED ANGLE WITH UNDERBAR", aliases: &[] },
        Codepoint { codepoint: 0x29A6, name: "OBLIQUE ANGLE OPENING UP", aliases: &[] },
        Codepoint { codepoint: 0x29A7, name: "OBLIQUE ANGLE OPENING DOWN", aliases: &[] },
        Codepoint { codepoint: 0x29A8, name: "MEASURED ANGLE WITH OPEN ARM ENDING IN ARROW POINTING UP AND RIGHT", aliases: &[] },
        Codepoint { codepoint: 0x29A9, name: "MEASURED ANGLE WITH OPEN ARM ENDING IN ARROW POINTING UP AND LEFT", aliases: &[] },
        Codepoint { codepoint: 0x29AA, name: "MEASURED ANGLE WITH OPEN ARM ENDING IN ARROW POINTING DOWN AND RIGHT", aliases: &[] },
        Codepoint { codepoint: 0x29AB, name: "MEASURED ANGLE WITH OPEN ARM ENDING IN ARROW POINTING DOWN AND LEFT", aliases: &[] },
        Codepoint { codepoint: 0x29AC, name: "MEASURED ANGLE WITH OPEN ARM ENDING IN ARROW POINTING RIGHT AND UP", aliases: &[] },
        Codepoint { codepoint: 0x29AD, name: "MEASURED ANGLE WITH OPEN ARM ENDING IN ARROW POINTING LEFT AND UP", aliases: &[] },
        Codepoint { codepoint: 0x29AE, name: "MEASURED ANGLE WITH OPEN ARM ENDING IN ARROW POINTING RIGHT AND DOWN", aliases: &[] },
        Codepoint { codepoint: 0x29AF, name: "MEASURED ANGLE WITH OPEN ARM ENDING IN ARROW POINTING LEFT AND DOWN", aliases: &[] },
        Codepoint { codepoint: 0x29B0, name: "REVERSED EMPTY SET", aliases: &[] },
        Codepoint { codepoint: 0x29B1, name: "EMPTY SET WITH OVERBAR", aliases: &[] },
        Codepoint { codepoint: 0x29B2, name: "EMPTY SET WITH SMALL CIRCLE ABOVE", aliases: &[] },
        Codepoint { codepoint: 0x29B3, name: "EMPTY SET WITH RIGHT ARROW ABOVE", aliases: &[] },
        Codepoint { codepoint: 0x29B4, name: "EMPTY SET WITH LEFT ARROW ABOVE", aliases: &[] },
        Codepoint { codepoint: 0x29B5, name: "CIRCLE WITH HORIZONTAL BAR", aliases: &[] },
        Codepoint { codepoint: 0x29B6, name: "CIRCLED VERTICAL BAR", aliases: &[] },
        Codepoint { codepoint: 0x29B7, name: "CIRCLED PARALLEL", aliases: &[] },
        Codepoint { codepoint: 0x29B8, name: "CIRCLED REVERSE SOLIDUS", aliases: &[] },
        Codepoint { codepoint: 0x29B9, name: "CIRCLED PERPENDICULAR", aliases: &[] },
        Codepoint { codepoint: 0x29BA, name: "CIRCLE DIVIDED BY HORIZONTAL BAR AND TOP HALF DIVIDED BY VERTICAL BAR", aliases: &[] },
        Codepoint { codepoint: 0x29BB, name: "CIRCLE WITH SUPERIMPOSED X", aliases: &[] },
        Codepoint { codepoint: 0x29BC, name: "CIRCLED ANTICLOCKWISE-ROTATED DIVISION SIGN", aliases: &[] },
        Codepoint { codepoint: 0x29BD, name: "UP ARROW THROUGH CIRCLE", aliases: &[] },
    ]
}

fn all_codepoints_243() -> (v: Vec<Codepoint>)
    ensures
        v@ == codepoint_table_243(),
{
    let v = vec![
        Codepoint { codepoint: 0x2996, name: "DOUBLE RIGHT ARC LESS-THAN BRACKET", aliases: &[] },
        Codepoint { codepoint: 0x2997, name: "LEFT BLACK TORTOISE SHELL BRACKET", aliases: &[] },
        Codepoint { codepoint: 0x2998, name: "RIGHT BLACK TORTOISE SHELL BRACKET", aliases: &[] },
        Codepoint { codepoint: 0x2999, name: "DOTTED FENCE", aliases: &[] },
        Codepoint { codepoint: 0x299A, name: "VERTICAL ZIGZAG LINE", aliases: &[] },
        Codepoint { codepoint: 0x299B, name: "MEASURED ANGLE OPENING LEFT", aliases: &[] },
        Codepoint { codepoint: 0x299C, name: "RIGHT ANGLE VARIANT WITH SQUARE", aliases: &[] },
        Codepoint { codepoint: 0x299D, name: "MEASURED RIGHT ANGLE WITH DOT", aliases: &[] },
        Codepoint { codepoint: 0x299E, name: "ANGLE WITH S INSIDE", aliases: &[] },
        Codepoint { codepoint: 0x299F, name: "ACUTE ANGLE", aliases: &[] },
        Codepoint { codepoint: 0x29A0, name: "SPHERICAL ANGLE OPENING LEFT", aliases: &[] },
        Codepoint { codepoint: 0x29A1, name: "SPHERICAL ANGLE OPENING UP", aliases: &[] },
        Codepoint { codepoint: 0x29A2, name: "TURNED ANGLE", aliases: &[] },
        Codepoint { codepoint: 0x29A3, name: "REVERSED ANGLE", aliases: &[] },
        Codepoint { codepoint: 0x29A4, name: "ANGLE WITH UNDERBAR", aliases: &[] },
        Codepoint { codepoint: 0x29A5, name: "REVERSED ANGLE WITH UNDERBAR", aliases: &[] },
        Codepoint { codepoint: 0x29A6, name: "OBLIQUE ANGLE OPENING UP", aliases: &[] },
        Codepoint { codepoint: 0x29A7, name: "OBLIQUE ANGLE OPENING DOWN", aliases: &[] },
        Codepoint { codepoint: 0x29A8, name: "MEASURED ANGLE WITH OPEN ARM ENDING IN ARROW POINTING UP AND RIGHT", aliases: &[] },
        Codepoint { codepoint: 0x29A9, name: "MEASURED ANGLE WITH OPEN ARM ENDING IN ARROW POINTING UP AND LEFT", aliases: &[] },
        Codepoint { codepoint: 0x29AA, name: "MEASURED ANGLE WITH OPEN ARM ENDING IN ARROW POINTING DOWN AND RIGHT", aliases: &[] },
        Codepoint { codepoint: 0x29AB, name: "MEASURED ANGLE WITH OPEN ARM ENDING IN ARROW POINTING DOWN AND LEFT", aliases: &[] },
        Codepoint { codepoint: 0x29AC, name: "MEASURED ANGLE WITH OPEN ARM ENDING IN ARROW POINTING RIGHT AND UP", aliases: &[] },
        Codepoint { codepoint: 0x29AD, name: "MEASURED ANGLE WITH OPEN ARM ENDING IN ARROW POINTING LEFT AND UP", aliases: &[] },
        Codepoint { codepoint: 0x29AE, name: "MEASURED ANGLE WITH OPEN ARM ENDING IN ARROW POINTING RIGHT AND DOWN", aliases: &[] },
        Codepoint { codepoint: 0x29AF, name: "MEASURED ANGLE WITH OPEN ARM ENDING IN ARROW POINTING LEFT AND DOWN", aliases: &[] },
        Codepoint { codepoint: 0x29B0, name: "REVERSED EMPTY SET", aliases: &[] },
        Codepoint { codepoint: 0x29B1, name: "EMPTY SET WITH OVERBAR", aliases: &[] },
        Codepoint { codepoint: 0x29B2, name: "EMPTY SET WITH SMALL CIRCLE ABOVE", aliases: &[] },
        Codepoint { codepoint: 0x29B3, name: "EMPTY SET WITH RIGHT ARROW ABOVE", aliases: &[] },
        Codepoint { codepoint: 0x29B4, name: "EMPTY SET WITH LEFT ARROW ABOVE", aliases: &[] },
        Codepoint { codepoint: 0x29B5, name: "CIRCLE WITH HORIZONTAL BAR", aliases: &[] },
        Codepoint { codepoint: 0x29B6, name: "CIRCLED VERTICAL BAR", aliases: &[] },
        Codepoint { codepoint: 0x29B7, name: "CIRCLED PARALLEL", aliases: &[] },
        Codepoint { codepoint: 0x29B8, name: "CIRCLED REVERSE SOLIDUS", aliases: &[] },
        Codepoint { codepoint: 0x29B9, name: "CIRCLED PERPENDICULAR", aliases: &[] },
        Codepoint { codepoint: 0x29BA, name: "CIRCLE DIVIDED BY HORIZONTAL BAR AND TOP HALF DIVIDED BY VERTICAL BAR", aliases: &[] },
        Codepoint { codepoint: 0x29BB, name: "CIRCLE WITH SUPERIMPOSED X", aliases: &[] },
        Codepoint { codepoint: 0x29BC, name: "CIRCLED ANTICLOCKWISE-ROTATED DIVISION SIGN", aliases: &[] },
        Codepoint { codepoint: 0x29BD, name: "UP ARROW THROUGH CIRCLE", aliases: &[] },
    ];
    assert(v@ =~= codepoint_table_243());
    v
}

pub open spec fn codepoint_table_244() -> Seq<Codepoint> {
    seq![
        Codepoint { codepoint: 0x29BE, name: "CIRCLED WHITE BULLET", aliases: &[] },
        Codepoint { codepoint: 0x29BF, name: "CIRCLED BULLET", aliases: &[] },
        Codepoint { codepoint: 0x29C0, name: "CIRCLED LESS-THAN", aliases: &[] },
        Codepoint { codepoint: 0x29C1, name: "CIRCLED GREATER-THAN", aliases: &[] },
        Codepoint { codepoint: 0x29C2, name: "CIRCLE WITH SMALL CIRCLE TO THE RIGHT", aliases: &[] },
        Codepoint { codepoint: 0x29C3, name: "CIRCLE WITH TWO HORIZONTAL STROKES TO THE RIGHT", aliases: &[] },
        Codepoint { codepoint: 0x29C4, name: "SQUARED RISING DIAGONAL SLASH", aliases: &[] },
        Codepoint { codepoint: 0x29C5, name: "SQUARED FALLING DIAGONAL SLASH", aliases: &[] },
        Codepoint { codepoint: 0x29C6, name: "SQUARED ASTERISK", aliases: &[] },
        Codepoint { codepoint: 0x29C7, name: "SQUARED SMALL CIRCLE", aliases: &[] },
        Codepoint { codepoint: 0x29C8, name: "SQUARED SQUARE", aliases: &[] },
        Codepoint { codepoint: 0x29C9, name: "TWO JOINED SQUARES", aliases: &[] },
        Codepoint { codepoint: 0x29CA, name: "TRIANGLE WITH DOT ABOVE", aliases: &[] },
        Codepoint { codepoint: 0x29CB, name: "TRIANGLE WITH UNDERBAR", aliases: &[] },
        Codepoint { codepoint: 0x29CC, name: "S IN TRIANGLE", aliases: &[] },
        Codepoint { codepoint: 0x29CD, name: "TRIANGLE WITH SERIFS AT BOTTOM", aliases: &[] },
        Codepoint { codepoint: 0x29CE, name: "RIGHT TRIANGLE ABOVE LEFT TRIANGLE", aliases: &[] },
        Codepoint { codepoint: 0x29CF, name: "LEFT TRIANGLE BESIDE VERTICAL BAR", aliases: &[] },
        Codepoint { codepoint: 0x29D0, name: "VERTICAL BAR BESIDE RIGHT TRIANGLE", aliases: &[] },
        Codepoint { codepoint: 0x29D1, name: "BOWTIE WITH LEFT HALF BLACK", aliases: &[] },
        Codepoint { codepoint: 0x29D2, name: "BOWTIE WITH RIGHT HALF BLACK", aliases: &[] },
        Codepoint { codepoint: 0x29D3, name: "BLACK BOWTIE", aliases: &[] },
        Codepoint { codepoint: 0x29D4, name: "TIMES WITH LEFT HALF BLACK", aliases: &[] },
        Codepoint { codepoint: 0x29D5, name: "TIMES WITH RIGHT HALF BLACK", aliases: &[] },
        Codepoint { codepoint: 0x29D6, name: "WHITE HOURGLASS", aliases: &[] },
        Codepoint { codepoint: 0x29D7, name: "BLACK HOURGLASS", aliases: &[] },
        Codepoint { codepoint: 0x29D8, name: "LEFT WIGGLY FENCE", aliases: &[] },
        Codepoint { codepoint: 0x29D9, name: "RIGHT WIGGLY FENCE", aliases: &[] },
        Codepoint { codepoint: 0x29DA, name: "LEFT DOUBLE WIGGLY FENCE", aliases: &[] },
        Codepoint { codepoint: 0x29DB, name: "RIGHT DOUBLE WIGGLY FENCE", aliases: &[] },
        Codepoint { codepoint: 0x29DC, name: "INCOMPLETE INFINITY", aliases: &[] },
        Codepoint { codepoint: 0x29DD, name: "TIE OVER INFINITY", aliases: &[] },
        Codepoint { codepoint: 0x29DE, name: "INFINITY NEGATED WITH VERTICAL BAR", aliases: &[] },
        Codepoint { codepoint: 0x29DF, name: "DOUBLE-ENDED MULTIMAP", aliases: &[] },
        Codepoint { codepoint: 0x29E0, name: "SQUARE WITH CONTOURED OUTLINE", aliases: &[] },
        Codepoint { codepoint: 0x29E1, name: "INCREASES AS", aliases: &[] },
        Codepoint { codepoint: 0x29E2, name: "SHUFFLE PRODUCT", aliases: &[] },
        Codepoint { codepoint: 0x29E3, name: "EQUALS SIGN AND SLANTED PARALLEL", aliases: &[] },
        Codepoint { codepoint: 0x29E4, name: "EQUALS SIGN AND SLANTED PARALLEL WITH TILDE ABOVE", aliases: &[] },
        Codepoint { codepoint: 0x29E5, name: "IDENTICAL TO AND SLANTED PARALLEL", aliases: &[] },
    ]
}

fn all_codepoints_244() -> (v: Vec<Codepoint>)
    ensures
        v@ == codepoint_table_244(),
{
    let v = vec![
        Codepoint { codepoint: 0x29BE, name: "CIRCLED WHITE BULLET", aliases: &[] },
        Codepoint { codepoint: 0x29BF, name: "CIRCLED BULLET", aliases: &[] },
        Codepoint { codepoint: 0x29C0, name: "CIRCLED LESS-THAN", aliases: &[] },
        Codepoint { codepoint: 0x29C1, name: "CIRCLED GREATER-THAN", aliases: &[] },
        Codepoint { codepoint: 0x29C2, name: "CIRCLE WITH SMALL CIRCLE TO THE RIGHT", aliases: &[] },
        Codepoint { codepoint: 0x29C3, name: "CIRCLE WITH TWO HORIZONTAL STROKES TO THE RIGHT", aliases: &[] },
        Codepoint { codepoint: 0x29C4, name: "SQUARED RISING DIAGONAL SLASH", aliases: &[] },
        Codepoint { codepoint: 0x29C5, name: "SQUARED FALLING DIAGONAL SLASH", aliases: &[] },
        Codepoint { codepoint: 0x29C6, name: "SQUARED ASTERISK", aliases: &[] },
        Codepoint { codepoint: 0x29C7, name: "SQUARED SMALL CIRCLE", aliases: &[] },
        Codepoint { codepoint: 0x29C8, name: "SQUARED SQUARE", aliases: &[] },
        Codepoint { codepoint: 0x29C9, name: "TWO JOINED SQUARES", aliases: &[] },
        Codepoint { codepoint: 0x29CA, name: "TRIANGLE WITH DOT ABOVE", aliases: &[] },
        Codepoint { codepoint: 0x29CB, name: "TRIANGLE WITH UNDERBAR", aliases: &[] },
        Codepoint { codepoint: 0x29CC, name: "S IN TRIANGLE", aliases: &[] },
        Codepoint { codepoint: 0x29CD, name: "TRIANGLE WITH SERIFS AT BOTTOM", aliases: &[] },
        Codepoint { codepoint: 0x29CE, name: "RIGHT TRIANGLE ABOVE LEFT TRIANGLE", aliases: &[] },
        Codepoint { codepoint: 0x29CF, name: "LEFT TRIANGLE BESIDE VERTICAL BAR", aliases: &[] },
        Codepoint { codepoint: 0x29D0, name: "VERTICAL BAR BESIDE RIGHT TRIANGLE", aliases: &[] },
        Codepoint { codepoint: 0x29D1, name: "BOWTIE WITH LEFT HALF BLACK", aliases: &[] },
        Codepoint { codepoint: 0x29D2, name: "BOWTIE WITH RIGHT HALF BLACK", aliases: &[] },
        Codepoint { codepoint: 0x29D3, name: "BLACK BOWTIE", aliases: &[] },
        Codepoint { codepoint: 0x29D4, name: "TIMES WITH LEFT HALF BLACK", aliases: &[] },
        Codepoint { codepoint: 0x29D5, name: "TIMES WITH RIGHT HALF BLACK", aliases: &[] },
        Codepoint { codepoint: 0x29D6, name: "WHITE HOURGLASS", aliases: &[] },
        Codepoint { codepoint: 0x29D7, name: "BLACK HOURGLASS", aliases: &[] },
        Codepoint { codepoint: 0x29D8, name: "LEFT WIGGLY FENCE", aliases: &[] },
        Codepoint { codepoint: 0x29D9, name: "RIGHT WIGGLY FENCE", aliases: &[] },
        Codepoint { codepoint: 0x29DA, name: "LEFT DOUBLE WIGGLY FENCE", aliases: &[] },
        Codepoint { codepoint: 0x29DB, name: "RIGHT DOUBLE WIGGLY FENCE", aliases: &[] },
        Codepoint { codepoint: 0x29DC, name: "INCOMPLETE INFINITY", aliases: &[] },
        Codepoint { codepoint: 0x29DD, name: "TIE OVER INFINITY", aliases: &[] },
        Codepoint { codepoint: 0x29DE, name: "INFINITY NEGATED WITH VERTICAL BAR", aliases: &[] },
        Codepoint { codepoint: 0x29DF, name: "DOUBLE-ENDED MULTIMAP", aliases: &[] },
        Codepoint { codepoint: 0x29E0, name: "SQUARE WITH CONTOURED OUTLINE", aliases: &[] },
        Codepoint { codepoint: 0x29E1, name: "INCREASES AS", aliases: &[] },
        Codepoint { codepoint: 0x29E2, name: "SHUFFLE PRODUCT", aliases: &[] },
        Codepoint { codepoint: 0x29E3, name: "EQUALS SIGN AND SLANTED PARALLEL", aliases: &[] },
        Codepoint { codepoint: 0x29E4, name: "EQUALS SIGN AND SLANTED PARALLEL WITH TILDE ABOVE", aliases: &[] },
        Codepoint { codepoint: 0x29E5, name: "IDENTICAL TO AND SLANTED PARALLEL", aliases: &[] },
    ];
    assert(v@ =~= codepoint_table_244());
    v
}

pub open spec fn codepoint_table_245() -> Seq<Codepoint> {
    seq![
        Codepoint { codepoint: 0x29E6, name: "GLEICH STARK", aliases: &[] },
        Codepoint { codepoint: 0x29E7, name: "THERMODYNAMIC", aliases: &[] },
        Codepoint { codepoint: 0x29E8, name: "DOWN-POINTING TRIANGLE WITH LEFT HALF BLACK", aliases: &[] },
        Codepoint { codepoint: 0x29E9, name: "DOWN-POINTING TRIANGLE WITH RIGHT HALF BLACK", aliases: &[] },
        Codepoint { codepoint: 0x29EA, name: "BLACK DIAMOND WITH DOWN ARROW", aliases: &[] },
        Codepoint { codepoint: 0x29EB, name: "BLACK LOZENGE", aliases: &[] },
        Codepoint { codepoint: 0x29EC, name: "WHITE CIRCLE WITH DOWN ARROW", aliases: &[] },
        Codepoint { codepoint: 0x29ED, name: "BLACK CIRCLE WITH DOWN ARROW", aliases: &[] },
        Codepoint { codepoint: 0x29EE, name: "ERROR-BARRED WHITE SQUARE", aliases: &[] },
        Codepoint { codepoint: 0x29EF, name: "ERROR-BARRED BLACK SQUARE", aliases: &[] },
        Codepoint { codepoint: 0x29F0, name: "ERROR-BARRED WHITE DIAMOND", aliases: &[] },
        Codepoint { codepoint: 0x29F1, name: "ERROR-BARRED BLACK DIAMOND", aliases: &[] },
        Codepoint { codepoint: 0x29F2, name: "ERROR-BARRED WHITE CIRCLE", aliases: &[] },
        Codepoint { codepoint: 0x29F3, name: "ERROR-BARRED BLACK CIRCLE", aliases: &[] },
        Codepoint { codepoint: 0x29F4, name: "RULE-DELAYED", aliases: &[] },
        Codepoint { codepoint: 0x29F5, name: "REVERSE SOLIDUS OPERATOR", aliases: &[] },
        Codepoint { codepoint: 0x29F6, name: "SOLIDUS WITH OVERBAR", aliases: &[] },
        Codepoint { codepoint: 0x29F7, name: "REVERSE SOLIDUS WITH HORIZONTAL STROKE", aliases: &[] },
        Codepoint { codepoint: 0x29F8, name: "BIG SOLIDUS", aliases: &[] },
        Codepoint { codepoint: 0x29F9, name: "BIG REVERSE SOLIDUS", aliases: &[] },
        Codepoint { codepoint: 0x29FA, name: "DOUBLE PLUS", aliases: &[] },
        Codepoint { codepoint: 0x29FB, name: "TRIPLE PLUS", aliases: &[] },
        Codepoint { codepoint: 0x29FC, name: "LEFT-POINTING CURVED ANGLE BRACKET", aliases: &[] },
        Codepoint { codepoint: 0x29FD, name: "RIGHT-POINTING CURVED ANGLE BRACKET", aliases: &[] },
        Codepoint { codepoint: 0x29FE, name: "TINY", aliases: &[] },
        Codepoint { codepoint: 0x29FF, name: "MINY", aliases: &[] },
        Codepoint { codepoint: 0x2A00, name: "N-ARY CIRCLED DOT OPERATOR", aliases: &[] },
        Codepoint { codepoint: 0x2A01, name: "N-ARY CIRCLED PLUS OPERATOR", aliases: &[] },
        Codepoint { codepoint: 0x2A02, name: "N-ARY CIRCLED TIMES OPERATOR", aliases: &[] },
        Codepoint { codepoint: 0x2A03, name: "N-ARY UNION OPERATOR WITH DOT", aliases: &[] },
        Codepoint { codepoint: 0x2A04, name: "N-ARY UNION OPERATOR WITH PLUS", aliases: &[] },
        Codepoint { codepoint: 0x2A05, name: "N-ARY SQUARE INTERSECTION OPERATOR", aliases: &[] },
        Codepoint { codepoint: 0x2A06, name: "N-ARY SQUARE UNION OPERATOR", aliases: &[] },
        Codepoint { codepoint: 0x2A07, name: "TWO LOGICAL AND OPERATOR", aliases: &[] },
        Codepoint { codepoint: 0x2A08, name: "TWO LOGICAL OR OPERATOR", aliases: &[] },
        Codepoint { codepoint: 0x2A09, name: "N-ARY TIMES OPERATOR", aliases: &[] },
        Codepoint { codepoint: 0x2A0A, name: "MODULO TWO SUM", aliases: &[] },
        Codepoint { codepoint: 0x2A0B, name: "SUMMATION WITH INTEGRAL", aliases: &[] },
        Codepoint { codepoint: 0x2A0C, name: "QUADRUPLE INTEGRAL OPERATOR", aliases: &[] },
        Codepoint { codepoint: 0x2A0D, name: "FINITE PART INTEGRAL", aliases: &[] },
    ]
}

fn all_codepoints_245() -> (v: Vec<Codepoint>)
    ensures
        v@ == codepoint_table_245(),
{
    let v = vec![
        Codepoint { codepoint: 0x29E6, name: "GLEICH STARK", aliases: &[] },
        Codepoint { codepoint: 0x29E7, name: "THERMODYNAMIC", aliases: &[] },
        Codepoint { codepoint: 0x29E8, name: "DOWN-POINTING TRIANGLE WITH LEFT HALF BLACK", aliases: &[] },
        Codepoint { codepoint: 0x29E9, name: "DOWN-POINTING TRIANGLE WITH RIGHT HALF BLACK", aliases: &[] },
        Codepoint { codepoint: 0x29EA, name: "BLACK DIAMOND WITH DOWN ARROW", aliases: &[] },
        Codepoint { codepoint: 0x29EB, name: "BLACK LOZENGE", aliases: &[] },
        Codepoint { codepoint: 0x29EC, name: "WHITE CIRCLE WITH DOWN ARROW", aliases: &[] },
        Codepoint { codepoint: 0x29ED, name: "BLACK CIRCLE WITH DOWN ARROW", aliases: &[] },
        Codepoint { codepoint: 0x29EE, name: "ERROR-BARRED WHITE SQUARE", aliases: &[] },
        Codepoint { codepoint: 0x29EF, name: "ERROR-BARRED BLACK SQUARE", aliases: &[] },
        Codepoint { codepoint: 0x29F0, name: "ERROR-BARRED WHITE DIAMOND", aliases: &[] },
        Codepoint { codepoint: 0x29F1, name: "ERROR-BARRED BLACK DIAMOND", aliases: &[] },
        Codepoint { codepoint: 0x29F2, name: "ERROR-BARRED WHITE CIRCLE", aliases: &[] },
        Codepoint { codepoint: 0x29F3, name: "ERROR-BARRED BLACK CIRCLE", aliases: &[] },
        Codepoint { codepoint: 0x29F4, name: "RULE-DELAYED", aliases: &[] },
        Codepoint { codepoint: 0x29F5, name: "REVERSE SOLIDUS OPERATOR", aliases: &[] },
        Codepoint { codepoint: 0x29F6, name: "SOLIDUS WITH OVERBAR", aliases: &[] },
        Codepoint { codepoint: 0x29F7, name: "REVERSE SOLIDUS WITH HORIZONTAL STROKE", aliases: &[] },
        Codepoint { codepoint: 0x29F8, name: "BIG SOLIDUS", aliases: &[] },
        Codepoint { codepoint: 0x29F9, name: "BIG REVERSE SOLIDUS", aliases: &[] },
        Codepoint { codepoint: 0x29FA, name: "DOUBLE PLUS", aliases: &[] },
        Codepoint { codepoint: 0x29FB, name: "TRIPLE PLUS", aliases: &[] },
        Codepoint { codepoint: 0x29FC, name: "LEFT-POINTING CURVED ANGLE BRACKET", aliases: &[] },
        Codepoint { codepoint: 0x29FD, name: "RIGHT-POINTING CURVED ANGLE BRACKET", aliases: &[] },
        Codepoint { codepoint: 0x29FE, name: "TINY", aliases: &[] },
        Codepoint { codepoint: 0x29FF, name: "MINY", aliases: &[] },
        Codepoint { codepoint: 0x2A00, name: "N-ARY CIRCLED DOT OPERATOR", aliases: &[] },
        Codepoint { codepoint: 0x2A01, name: "N-ARY CIRCLED PLUS OPERATOR", aliases: &[] },
        Codepoint { codepoint: 0x2A02, name: "N-ARY CIRCLED TIMES OPERATOR", aliases: &[] },
        Codepoint { codepoint: 0x2A03, name: "N-ARY UNION OPERATOR WITH DOT", aliases: &[] },
        Codepoint { codepoint: 0x2A04, name: "N-ARY UNION OPERATOR WITH PLUS", aliases: &[] },
        Codepoint { codepoint: 0x2A05, name: "N-ARY SQUARE INTERSECTION OPERATOR", aliases: &[] },
        Codepoint { codepoint: 0x2A06, name: "N-ARY SQUARE UNION OPERATOR", aliases: &[] },
        Codepoint { codepoint: 0x2A07, name: "TWO LOGICAL AND OPERATOR", aliases: &[] },
        Codepoint { codepoint: 0x2A08, name: "TWO LOGICAL OR OPERATOR", aliases: &[] },
        Codepoint { codepoint: 0x2A09, name: "N-ARY TIMES OPERATOR", aliases: &[] },
        Codepoint { codepoint: 0x2A0A, name: "MODULO TWO SUM", aliases: &[] },
        Codepoint { codepoint: 0x2A0B, name: "SUMMATION WITH INTEGRAL", aliases: &[] },
        Codepoint { codepoint: 0x2A0C, name: "QUADRUPLE INTEGRAL OPERATOR", aliases: &[] },
        Codepoint { codepoint: 0x2A0D, name: "FINITE PART INTEGRAL", aliases: &[] },
    ];
    assert(v@ =~= codepoint_table_245());
    v
}

pub open spec fn codepoint_table_246() -> Seq<Codepoint> {
    seq![
        Codepoint { codepoint: 0x2A0E, name: "INTEGRAL WITH DOUBLE STROKE", aliases: &[] },
        Codepoint { codepoint: 0x2A0F, name: "INTEGRAL AVERAGE WITH SLASH", aliases: &[] },
        Codepoint { codepoint: 0x2A10, name: "CIRCULATION FUNCTION", aliases: &[] },
        Codepoint { codepoint: 0x2A11, name: "ANTICLOCKWISE INTEGRATION", aliases: &[] },
        Codepoint { codepoint: 0x2A12, name: "LINE INTEGRATION WITH RECTANGULAR PATH AROUND POLE", aliases: &[] },
        Codepoint { codepoint: 0x2A13, name: "LINE INTEGRATION WITH SEMICIRCULAR PATH AROUND POLE", aliases: &[] },
        Codepoint { codepoint: 0x2A14, name: "LINE INTEGRATION NOT INCLUDING THE POLE", aliases: &[] },
        Codepoint { codepoint: 0x2A15, name: "INTEGRAL AROUND A POINT OPERATOR", aliases: &[] },
        Codepoint { codepoint: 0x2A16, name: "QUATERNION INTEGRAL OPERATOR", aliases: &[] },
        Codepoint { codepoint: 0x2A17, name: "INTEGRAL WITH LEFTWARDS ARROW WITH HOOK", aliases: &[] },
        Codepoint { codepoint: 0x2A18, name: "INTEGRAL WITH TIMES SIGN", aliases: &[] },
        Codepoint { codepoint: 0x2A19, name: "INTEGRAL WITH INTERSECTION", aliases: &[] },
        Codepoint { codepoint: 0x2A1A, name: "INTEGRAL WITH UNION", aliases: &[] },
        Codepoint { codepoint: 0x2A1B, name: "INTEGRAL WITH OVERBAR", aliases: &[] },
        Codepoint { codepoint: 0x2A1C, name: "INTEGRAL WITH UNDERBAR", aliases: &[] },
        Codepoint { codepoint: 0x2A1D, name: "JOIN", aliases: &[] },
        Codepoint { codepoint: 0x2A1E, name: "LARGE LEFT TRIANGLE OPERATOR", aliases: &[] },
        Codepoint { codepoint: 0x2A1F, name: "Z NOTATION SCHEMA COMPOSITION", aliases: &[] },
        Codepoint { codepoint: 0x2A20, name: "Z NOTATION SCHEMA PIPING", aliases: &[] },
        Codepoint { codepoint: 0x2A21, name: "Z NOTATION SCHEMA PROJECTION", aliases: &[] },
        Codepoint { codepoint: 0x2A22, name: "PLUS SIGN WITH SMALL CIRCLE ABOVE", aliases: &[] },
        Codepoint { codepoint: 0x2A23, name: "PLUS SIGN WITH CIRCUMFLEX ACCENT ABOVE", aliases: &[] },
        Codepoint { codepoint: 0x2A24, name: "PLUS SIGN WITH TILDE ABOVE", aliases: &[] },
        Codepoint { codepoint: 0x2A25, name: "PLUS SIGN WITH DOT BELOW", aliases: &[] },
        Codepoint { codepoint: 0x2A26, name: "PLUS SIGN WITH TILDE BELOW", aliases: &[] },
        Codepoint { codepoint: 0x2A27, name: "PLUS SIGN WITH SUBSCRIPT TWO", aliases: &[] },
        Codepoint { codepoint: 0x2A28, name: "PLUS SIGN WITH BLACK TRIANGLE", aliases: &[] },
        Codepoint { codepoint: 0x2A29, name: "MINUS SIGN WITH COMMA ABOVE", aliases: &[] },
        Codepoint { codepoint: 0x2A2A, name: "MINUS SIGN WITH DOT BELOW", aliases: &[] },
        Codepoint { codepoint: 0x2A2B, name: "MINUS SIGN WITH FALLING DOTS", aliases: &[] },
        Codepoint { codepoint: 0x2A2C, name: "MINUS SIGN WITH RISING DOTS", aliases: &[] },
        Codepoint { codepoint: 0x2A2D, name: "PLUS SIGN IN LEFT HALF CIRCLE", aliases: &[] },
        Codepoint { codepoint: 0x2A2E, name: "PLUS SIGN IN RIGHT HALF CIRCLE", aliases: &[] },
        Codepoint { codepoint: 0x2A2F, name: "VECTOR OR CROSS PRODUCT", aliases: &[] },
        Codepoint { codepoint: 0x2A30, name: "MULTIPLICATION SIGN WITH DOT ABOVE", aliases: &[] },
        Codepoint { codepoint: 0x2A31, name: "MULTIPLICATION SIGN WITH UNDERBAR", aliases: &[] },
        Codepoint { codepoint: 0x2A32, name: "SEMIDIRECT PRODUCT WITH BOTTOM CLOSED", aliases: &[] },
        Codepoint { codepoint: 0x2A33, name: "SMASH PRODUCT", aliases: &[] },
        Codepoint { codepoint: 0x2A34, name: "MULTIPLICATION SIGN IN LEFT HALF CIRCLE", aliases: &[] },
        Codepoint { codepoint: 0x2A35, name: "MULTIPLICATION SIGN IN RIGHT HALF CIRCLE", aliases: &[] },
    ]
}

fn all_codepoints_246() -> (v: Vec<Codepoint>)
    ensures
        v@ == codepoint_table_246(),
{
    let v = vec![
        Codepoint { codepoint: 0x2A0E, name: "INTEGRAL WITH DOUBLE STROKE", aliases: &[] },
        Codepoint { codepoint: 0x2A0F, name: "INTEGRAL AVERAGE WITH SLASH", aliases: &[] },
        Codepoint { codepoint: 0x2A10, name: "CIRCULATION FUNCTION", aliases: &[] },
        Codepoint { codepoint: 0x2A11, name: "ANTICLOCKWISE INTEGRATION", aliases: &[] },
        Codepoint { codepoint: 0x2A12, name: "LINE INTEGRATION WITH RECTANGULAR PATH AROUND POLE", aliases: &[] },
        Codepoint { codepoint: 0x2A13, name: "LINE INTEGRATION WITH SEMICIRCULAR PATH AROUND POLE", aliases: &[] },
        Codepoint { codepoint: 0x2A14, name: "LINE INTEGRATION NOT INCLUDING THE POLE", aliases: &[] },
        Codepoint { codepoint: 0x2A15, name: "INTEGRAL AROUND A POINT OPERATOR", aliases: &[] },
        Codepoint { codepoint: 0x2A16, name: "QUATERNION INTEGRAL OPERATOR", aliases: &[] },
        Codepoint { codepoint: 0x2A17, name: "INTEGRAL WITH LEFTWARDS ARROW WITH HOOK", aliases: &[] },
        Codepoint { codepoint: 0x2A18, name: "INTEGRAL WITH TIMES SIGN", aliases: &[] },
        Codepoint { codepoint: 0x2A19, name: "INTEGRAL WITH INTERSECTION", aliases: &[] },
        Codepoint { codepoint: 0x2A1A, name: "INTEGRAL WITH UNION", aliases: &[] },
        Codepoint { codepoint: 0x2A1B, name: "INTEGRAL WITH OVERBAR", aliases: &[] },
        Codepoint { codepoint: 0x2A1C, name: "INTEGRAL WITH UNDERBAR", aliases: &[] },
        Codepoint { codepoint: 0x2A1D, name: "JOIN", aliases: &[] },
        Codepoint { codepoint: 0x2A1E, name: "LARGE LEFT TRIANGLE OPERATOR", aliases: &[] },
        Codepoint { codepoint: 0x2A1F, name: "Z NOTATION SCHEMA COMPOSITION", aliases: &[] },
        Codepoint { codepoint: 0x2A20, name: "Z NOTATION SCHEMA PIPING", aliases: &[] },
        Codepoint { codepoint: 0x2A21, name: "Z NOTATION SCHEMA PROJECTION", aliases: &[] },
        Codepoint { codepoint: 0x2A22, name: "PLUS SIGN WITH SMALL CIRCLE ABOVE", aliases: &[] },
        Codepoint { codepoint: 0x2A23, name: "PLUS SIGN WITH CIRCUMFLEX ACCENT ABOVE", aliases: &[] },
        Codepoint { codepoint: 0x2A24, name: "PLUS SIGN WITH TILDE ABOVE", aliases: &[] },
        Codepoint { codepoint: 0x2A25, name: "PLUS SIGN WITH DOT BELOW", aliases: &[] },
        Codepoint { codepoint: 0x2A26, name: "PLUS SIGN WITH TILDE BELOW", aliases: &[] },
        Codepoint { codepoint: 0x2A27, name: "PLUS SIGN WITH SUBSCRIPT TWO", aliases: &[] },
        Codepoint { codepoint: 0x2A28, name: "PLUS SIGN WITH BLACK TRIANGLE", aliases: &[] },
        Codepoint { codepoint: 0x2A29, name: "MINUS SIGN WITH COMMA ABOVE", aliases: &[] },
        Codepoint { codepoint: 0x2A2A, name: "MINUS SIGN WITH DOT BELOW", aliases: &[] },
        Codepoint { codepoint: 0x2A2B, name: "MINUS SIGN WITH FALLING DOTS", aliases: &[] },
        Codepoint { codepoint: 0x2A2C, name: "MINUS SIGN WITH RISING DOTS", aliases: &[] },
        Codepoint { codepoint: 0x2A2D, name: "PLUS SIGN IN LEFT HALF CIRCLE", aliases: &[] },
        Codepoint { codepoint: 0x2A2E, name: "PLUS SIGN IN RIGHT HALF CIRCLE", aliases: &[] },
        Codepoint { codepoint: 0x2A2F, name: "VECTOR OR CROSS PRODUCT", aliases: &[] },
        Codepoint { codepoint: 0x2A30, name: "MULTIPLICATION SIGN WITH DOT ABOVE", aliases: &[] },
        Codepoint { codepoint: 0x2A31, name: "MULTIPLICATION SIGN WITH UNDERBAR", aliases: &[] },
        Codepoint { codepoint: 0x2A32, name: "SEMIDIRECT PRODUCT WITH BOTTOM CLOSED", aliases: &[] },
        Codepoint { codepoint: 0x2A33, name: "SMASH PRODUCT", aliases: &[] },
        Codepoint { codepoint: 0x2A34, name: "MULTIPLICATION SIGN IN LEFT HALF CIRCLE", aliases: &[] },
        Codepoint { codepoint: 0x2A35, name: "MULTIPLICATION SIGN IN RIGHT HALF CIRCLE", aliases: &[] },
    ];
    assert(v@ =~= codepoint_table_246());
    v
}

pub open spec fn codepoint_table_247() -> Seq<Codepoint> {
    seq![
        Codepoint { codepoint: 0x2A36, name: "CIRCLED MULTIPLICATION SIGN WITH CIRCUMFLEX ACCENT", aliases: &[] },
        Codepoint { codepoint: 0x2A37, name: "MULTIPLICATION SIGN IN DOUBLE CIRCLE", aliases: &[] },
        Codepoint { codepoint: 0x2A38, name: "CIRCLED DIVISION SIGN", aliases: &[] },
        Codepoint { codepoint: 0x2A39, name: "PLUS SIGN IN TRIANGLE", aliases: &[] },
        Codepoint { codepoint: 0x2A3A, name: "MINUS SIGN IN TRIANGLE", aliases: &[] },
        Codepoint { codepoint: 0x2A3B, name: "MULTIPLICATION SIGN IN TRIANGLE", aliases: &[] },
        Codepoint { codepoint: 0x2A3C, name: "INTERIOR PRODUCT", aliases: &[] },
        Codepoint { codepoint: 0x2A3D, name: "RIGHTHAND INTERIOR PRODUCT", aliases: &[] },
        Codepoint { codepoint: 0x2A3E, name: "Z NOTATION RELATIONAL COMPOSITION", aliases: &[] },
        Codepoint { codepoint: 0x2A3F, name: "AMALGAMATION OR COPRODUCT", aliases: &[] },
        Codepoint { codepoint: 0x2A40, name: "INTERSECTION WITH DOT", aliases: &[] },
        Codepoint { codepoint: 0x2A41, name: "UNION WITH MINUS SIGN", aliases: &[] },
        Codepoint { codepoint: 0x2A42, name: "UNION WITH OVERBAR", aliases: &[] },
        Codepoint { codepoint: 0x2A43, name: "INTERSECTION WITH OVERBAR", aliases: &[] },
        Codepoint { codepoint: 0x2A44, name: "INTERSECTION WITH LOGICAL AND", aliases: &[] },
        Codepoint { codepoint: 0x2A45, name: "UNION WITH LOGICAL OR", aliases: &[] },
        Codepoint { codepoint: 0x2A46, name: "UNION ABOVE INTERSECTION", aliases: &[] },
        Codepoint { codepoint: 0x2A47, name: "INTERSECTION ABOVE UNION", aliases: &[] },
        Codepoint { codepoint: 0x2A48, name: "UNION ABOVE BAR ABOVE INTERSECTION", aliases: &[] },
        Codepoint { codepoint: 0x2A49, name: "INTERSECTION ABOVE BAR ABOVE UNION", aliases: &[] },
        Codepoint { codepoint: 0x2A4A, name: "UNION BESIDE AND JOINED WITH UNION", aliases: &[] },
        Codepoint { codepoint: 0x2A4B, name: "INTERSECTION BESIDE AND JOINED WITH INTERSECTION", aliases: &[] },
        Codepoint { codepoint: 0x2A4C, name: "CLOSED UNION WITH SERIFS", aliases: &[] },
        Codepoint { codepoint: 0x2A4D, name: "CLOSED INTERSECTION WITH SERIFS", aliases: &[] },
        Codepoint { codepoint: 0x2A4E, name: "DOUBLE SQUARE INTERSECTION", aliases: &[] },
        Codepoint { codepoint: 0x2A4F, name: "DOUBLE SQUARE UNION", aliases: &[] },
        Codepoint { codepoint: 0x2A50, name: "CLOSED UNION WITH SERIFS AND SMASH PRODUCT", aliases: &[] },
        Codepoint { codepoint: 0x2A51, name: "LOGICAL AND WITH DOT ABOVE", aliases: &[] },
        Codepoint { codepoint: 0x2A52, name: "LOGICAL OR WITH DOT ABOVE", aliases: &[] },
        Codepoint { codepoint: 0x2A53, name: "DOUBLE LOGICAL AND", aliases: &[] },
        Codepoint { codepoint: 0x2A54, name: "DOUBLE LOGICAL OR", aliases: &[] },
        Codepoint { codepoint: 0x2A55, name: "TWO INTERSECTING LOGICAL AND", aliases: &[] },
        Codepoint { codepoint: 0x2A56, name: "TWO INTERSECTING LOGICAL OR", aliases: &[] },
        Codepoint { codepoint: 0x2A57, name: "SLOPING LARGE OR", aliases: &[] },
        Codepoint { codepoint: 0x2A58, name: "SLOPING LARGE AND", aliases: &[] },
        Codepoint { codepoint: 0x2A59, name: "LOGICAL OR OVERLAPPING LOGICAL AND", aliases: &[] },
        Codepoint { codepoint: 0x2A5A, name: "LOGICAL AND WITH MIDDLE STEM", aliases: &[] },
        Codepoint { codepoint: 0x2A5B, name: "LOGICAL OR WITH MIDDLE STEM", aliases: &[] },
        Codepoint { codepoint: 0x2A5C, name: "LOGICAL AND WITH HORIZONTAL DASH", aliases: &[] },
        Codepoint { codepoint: 0x2A5D, name: "LOGICAL OR WITH HORIZONTAL DASH", aliases: &[] },
    ]
}

fn all_codepoints_247() -> (v: Vec<Codepoint>)
    ensures
        v@ == codepoint_table_247(),
{
    let v = vec![
        Codepoint { codepoint: 0x2A36, name: "CIRCLED MULTIPLICATION SIGN WITH CIRCUMFLEX ACCENT", aliases: &[] },
        Codepoint { codepoint: 0x2A37, name: "MULTIPLICATION SIGN IN DOUBLE CIRCLE", aliases: &[] },
        Codepoint { codepoint: 0x2A38, name: "CIRCLED DIVISION SIGN", aliases: &[] },
        Codepoint { codepoint: 0x2A39, name: "PLUS SIGN IN TRIANGLE", aliases: &[] },
        Codepoint { codepoint: 0x2A3A, name: "MINUS SIGN IN TRIANGLE", aliases: &[] },
        Codepoint { codepoint: 0x2A3B, name: "MULTIPLICATION SIGN IN TRIANGLE", aliases: &[] },
        Codepoint { codepoint: 0x2A3C, name: "INTERIOR PRODUCT", aliases: &[] },
        Codepoint { codepoint: 0x2A3D, name: "RIGHTHAND INTERIOR PRODUCT", aliases: &[] },
        Codepoint { codepoint: 0x2A3E, name: "Z NOTATION RELATIONAL COMPOSITION", aliases: &[] },
        Codepoint { codepoint: 0x2A3F, name: "AMALGAMATION OR COPRODUCT", aliases: &[] },
        Codepoint { codepoint: 0x2A40, name: "INTERSECTION WITH DOT", aliases: &[] },
        Codepoint { codepoint: 0x2A41, name: "UNION WITH MINUS SIGN", aliases: &[] },
        Codepoint { codepoint: 0x2A42, name: "UNION WITH OVERBAR", aliases: &[] },
        Codepoint { codepoint: 0x2A43, name: "INTERSECTION WITH OVERBAR", aliases: &[] },
        Codepoint { codepoint: 0x2A44, name: "INTERSECTION WITH LOGICAL AND", aliases: &[] },
        Codepoint { codepoint: 0x2A45, name: "UNION WITH LOGICAL OR", aliases: &[] },
        Codepoint { codepoint: 0x2A46, name: "UNION ABOVE INTERSECTION", aliases: &[] },
        Codepoint { codepoint: 0x2A47, name: "INTERSECTION ABOVE UNION", aliases: &[] },
        Codepoint { codepoint: 0x2A48, name: "UNION ABOVE BAR ABOVE INTERSECTION", aliases: &[] },
        Codepoint { codepoint: 0x2A49, name: "INTERSECTION ABOVE BAR ABOVE UNION", aliases: &[] },
        Codepoint { codepoint: 0x2A4A, name: "UNION BESIDE AND JOINED WITH UNION", aliases: &[] },
        Codepoint { codepoint: 0x2A4B, name: "INTERSECTION BESIDE AND JOINED WITH INTERSECTION", aliases: &[] },
        Codepoint { codepoint: 0x2A4C, name: "CLOSED UNION WITH SERIFS", aliases: &[] },
        Codepoint { codepoint: 0x2A4D, name: "CLOSED INTERSECTION WITH SERIFS", aliases: &[] },
        Codepoint { codepoint: 0x2A4E, name: "DOUBLE SQUARE INTERSECTION", aliases: &[] },
        Codepoint { codepoint: 0x2A4F, name: "DOUBLE SQUARE UNION", aliases: &[] },
        Codepoint { codepoint: 0x2A50, name: "CLOSED UNION WITH SERIFS AND SMASH PRODUCT", aliases: &[] },
        Codepoint { codepoint: 0x2A51, name: "LOGICAL AND WITH DOT ABOVE", aliases: &[] },
        Codepoint { codepoint: 0x2A52, name: "LOGICAL OR WITH DOT ABOVE", aliases: &[] },
        Codepoint { codepoint: 0x2A53, name: "DOUBLE LOGICAL AND", aliases: &[] },
        Codepoint { codepoint: 0x2A54, name: "DOUBLE LOGICAL OR", aliases: &[] },
        Codepoint { codepoint: 0x2A55, name: "TWO INTERSECTING LOGICAL AND", aliases: &[] },
        Codepoint { codepoint: 0x2A56, name: "TWO INTERSECTING LOGICAL OR", aliases: &[] },
        Codepoint { codepoint: 0x2A57, name: "SLOPING LARGE OR", aliases: &[] },
        Codepoint { codepoint: 0x2A58, name: "SLOPING LARGE AND", aliases: &[] },
        Codepoint { codepoint: 0x2A59, name: "LOGICAL OR OVERLAPPING LOGICAL AND", aliases: &[] },
        Codepoint { codepoint: 0x2A5A, name: "LOGICAL AND WITH MIDDLE STEM", aliases: &[] },
        Codepoint { codepoint: 0x2A5B, name: "LOGICAL OR WITH MIDDLE STEM", aliases: &[] },
        Codepoint { codepoint: 0x2A5C, name: "LOGICAL AND WITH HORIZONTAL DASH", aliases: &[] },
        Codepoint { codepoint: 0x2A5D, name: "LOGICAL OR WITH HORIZONTAL DASH", aliases: &[] },
    ];
    assert(v@ =~= codepoint_table_247());
    v
}

pub open spec fn codepoint_table_248() -> Seq<Codepoint> {
    seq![
        Codepoint { codepoint: 0x2A5E, name: "LOGICAL AND WITH DOUBLE OVERBAR", aliases: &[] },
        Codepoint { codepoint: 0x2A5F, name: "LOGICAL AND WITH UNDERBAR", aliases: &[] },
        Codepoint { codepoint: 0x2A60, name: "LOGICAL AND WITH DOUBLE UNDERBAR", aliases: &[] },
        Codepoint { codepoint: 0x2A61, name: "SMALL VEE WITH UNDERBAR", aliases: &[] },
        Codepoint { codepoint: 0x2A62, name: "LOGICAL OR WITH DOUBLE OVERBAR", aliases: &[] },
        Codepoint { codepoint: 0x2A63, name: "LOGICAL OR WITH DOUBLE UNDERBAR", aliases: &[] },
        Codepoint { codepoint: 0x2A64, name: "Z NOTATION DOMAIN ANTIRESTRICTION", aliases: &[] },
        Codepoint { codepoint: 0x2A65, name: "Z NOTATION RANGE ANTIRESTRICTION", aliases: &[] },
        Codepoint { codepoint: 0x2A66, name: "EQUALS SIGN WITH DOT BELOW", aliases: &[] },
        Codepoint { codepoint: 0x2A67, name: "IDENTICAL WITH DOT ABOVE", aliases: &[] },
        Codepoint { codepoint: 0x2A68, name: "TRIPLE HORIZONTAL BAR WITH DOUBLE VERTICAL STROKE", aliases: &[] },
        Codepoint { codepoint: 0x2A69, name: "TRIPLE HORIZONTAL BAR WITH TRIPLE VERTICAL STROKE", aliases: &[] },
        Codepoint { codepoint: 0x2A6A, name: "TILDE OPERATOR WITH DOT ABOVE", aliases: &[] },
        Codepoint { codepoint: 0x2A6B, name: "TILDE OPERATOR WITH RISING DOTS", aliases: &[] },
        Codepoint { codepoint: 0x2A6C, name: "SIMILAR MINUS SIMILAR", aliases: &[] },
        Codepoint { codepoint: 0x2A6D, name: "CONGRUENT WITH DOT ABOVE", aliases: &[] },
        Codepoint { codepoint: 0x2A6E, name: "EQUALS WITH ASTERISK", aliases: &[] },
        Codepoint { codepoint: 0x2A6F, name: "ALMOST EQUAL TO WITH CIRCUMFLEX ACCENT", aliases: &[] },
        Codepoint { codepoint: 0x2A70, name: "APPROXIMATELY EQUAL OR EQUAL TO", aliases: &[] },
        Codepoint { codepoint: 0x2A71, name: "EQUALS SIGN ABOVE PLUS SIGN", aliases: &[] },
        Codepoint { codepoint: 0x2A72, name: "PLUS SIGN ABOVE EQUALS SIGN", aliases: &[] },
        Codepoint { codepoint: 0x2A73, name: "EQUALS SIGN ABOVE TILDE OPERATOR", aliases: &[] },
        Codepoint { codepoint: 0x2A74, name: "DOUBLE COLON EQUAL", aliases: &[] },
        Codepoint { codepoint: 0x2A75, name: "TWO CONSECUTIVE EQUALS SIGNS", aliases: &[] },
        Codepoint { codepoint: 0x2A76, name: "THREE CONSECUTIVE EQUALS SIGNS", aliases: &[] },
        Codepoint { codepoint: 0x2A77, name: "EQUALS SIGN WITH TWO DOTS ABOVE AND TWO DOTS BELOW", aliases: &[] },
        Codepoint { codepoint: 0x2A78, name: "EQUIVALENT WITH FOUR DOTS ABOVE", aliases: &[] },
        Codepoint { codepoint: 0x2A79, name: "LESS-THAN WITH CIRCLE INSIDE", aliases: &[] },
        Codepoint { codepoint: 0x2A7A, name: "GREATER-THAN WITH CIRCLE INSIDE", aliases: &[] },
        Codepoint { codepoint: 0x2A7B, name: "LESS-THAN WITH QUESTION MARK ABOVE", aliases: &[] },
        Codepoint { codepoint: 0x2A7C, name: "GREATER-THAN WITH QUESTION MARK ABOVE", aliases: &[] },
        Codepoint { codepoint: 0x2A7D, name: "LESS-THAN OR SLANTED EQUAL TO", aliases: &[] },
        Codepoint { codepoint: 0x2A7E, name: "GREATER-THAN OR SLANTED EQUAL TO", aliases: &[] },
        Codepoint { codepoint: 0x2A7F, name: "LESS-THAN OR SLANTED EQUAL TO WITH DOT INSIDE", aliases: &[] },
        Codepoint { codepoint: 0x2A80, name: "GREATER-THAN OR SLANTED EQUAL TO WITH DOT INSIDE", aliases: &[] },
        Codepoint { codepoint: 0x2A81, name: "LESS-THAN OR SLANTED EQUAL TO WITH DOT ABOVE", aliases: &[] },
        Codepoint { codepoint: 0x2A82, name: "GREATER-THAN OR SLANTED EQUAL TO WITH DOT ABOVE", aliases: &[] },
        Codepoint { codepoint: 0x2A83, name: "LESS-THAN OR SLANTED EQUAL TO WITH DOT ABOVE RIGHT", aliases: &[] },
        Codepoint { codepoint: 0x2A84, name: "GREATER-THAN OR SLANTED EQUAL TO WITH DOT ABOVE LEFT", aliases: &[] },
        Codepoint { codepoint: 0x2A85, name: "LESS-THAN OR APPROXIMATE", aliases: &[] },
    ]
}

fn all_codepoints_248() -> (v: Vec<Codepoint>)
    ensures
        v@ == codepoint_table_248(),
{
    let v = vec![
        Codepoint { codepoint: 0x2A5E, name: "LOGICAL AND WITH DOUBLE OVERBAR", aliases: &[] },
        Codepoint { codepoint: 0x2A5F, name: "LOGICAL AND WITH UNDERBAR", aliases: &[] },
        Codepoint { codepoint: 0x2A60, name: "LOGICAL AND WITH DOUBLE UNDERBAR", aliases: &[] },
        Codepoint { codepoint: 0x2A61, name: "SMALL VEE WITH UNDERBAR", aliases: &[] },
        Codepoint { codepoint: 0x2A62, name: "LOGICAL OR WITH DOUBLE OVERBAR", aliases: &[] },
        Codepoint { codepoint: 0x2A63, name: "LOGICAL OR WITH DOUBLE UNDERBAR", aliases: &[] },
        Codepoint { codepoint: 0x2A64, name: "Z NOTATION DOMAIN ANTIRESTRICTION", aliases: &[] },
        Codepoint { codepoint: 0x2A65, name: "Z NOTATION RANGE ANTIRESTRICTION", aliases: &[] },
        Codepoint { codepoint: 0x2A66, name: "EQUALS SIGN WITH DOT BELOW", aliases: &[] },
        Codepoint { codepoint: 0x2A67, name: "IDENTICAL WITH DOT ABOVE", aliases: &[] },
        Codepoint { codepoint: 0x2A68, name: "TRIPLE HORIZONTAL BAR WITH DOUBLE VERTICAL STROKE", aliases: &[] },
        Codepoint { codepoint: 0x2A69, name: "TRIPLE HORIZONTAL BAR WITH TRIPLE VERTICAL STROKE", aliases: &[] },
        Codepoint { codepoint: 0x2A6A, name: "TILDE OPERATOR WITH DOT ABOVE", aliases: &[] },
        Codepoint { codepoint: 0x2A6B, name: "TILDE OPERATOR WITH RISING DOTS", aliases: &[] },
        Codepoint { codepoint: 0x2A6C, name: "SIMILAR MINUS SIMILAR", aliases: &[] },
        Codepoint { codepoint: 0x2A6D, name: "CONGRUENT WITH DOT ABOVE", aliases: &[] },
        Codepoint { codepoint: 0x2A6E, name: "EQUALS WITH ASTERISK", aliases: &[] },
        Codepoint { codepoint: 0x2A6F, name: "ALMOST EQUAL TO WITH CIRCUMFLEX ACCENT", aliases: &[] },
        Codepoint { codepoint: 0x2A70, name: "APPROXIMATELY EQUAL OR EQUAL TO", aliases: &[] },
        Codepoint { codepoint: 0x2A71, name: "EQUALS SIGN ABOVE PLUS SIGN", aliases: &[] },
        Codepoint { codepoint: 0x2A72, name: "PLUS SIGN ABOVE EQUALS SIGN", aliases: &[] },
        Codepoint { codepoint: 0x2A73, name: "EQUALS SIGN ABOVE TILDE OPERATOR", aliases: &[] },
        Codepoint { codepoint: 0x2A74, name: "DOUBLE COLON EQUAL", aliases: &[] },
        Codepoint { codepoint: 0x2A75, name: "TWO CONSECUTIVE EQUALS SIGNS", aliases: &[] },
        Codepoint { codepoint: 0x2A76, name: "THREE CONSECUTIVE EQUALS SIGNS", aliases: &[] },
        Codepoint { codepoint: 0x2A77, name: "EQUALS SIGN WITH TWO DOTS ABOVE AND TWO DOTS BELOW", aliases: &[] },
        Codepoint { codepoint: 0x2A78, name: "EQUIVALENT WITH FOUR DOTS ABOVE", aliases: &[] },
        Codepoint { codepoint: 0x2A79, name: "LESS-THAN WITH CIRCLE INSIDE", aliases: &[] },
        Codepoint { codepoint: 0x2A7A, name: "GREATER-THAN WITH CIRCLE INSIDE", aliases: &[] },
        Codepoint { codepoint: 0x2A7B, name: "LESS-THAN WITH QUESTION MARK ABOVE", aliases: &[] },
        Codepoint { codepoint: 0x2A7C, name: "GREATER-THAN WITH QUESTION MARK ABOVE", aliases: &[] },
        Codepoint { codepoint: 0x2A7D, name: "LESS-THAN OR SLANTED EQUAL TO", aliases: &[] },
        Codepoint { codepoint: 0x2A7E, name: "GREATER-THAN OR SLANTED EQUAL TO", aliases: &[] },
        Codepoint { codepoint: 0x2A7F, name: "LESS-THAN OR SLANTED EQUAL TO WITH DOT INSIDE", aliases: &[] },
        Codepoint { codepoint: 0x2A80, name: "GREATER-THAN OR SLANTED EQUAL TO WITH DOT INSIDE", aliases: &[] },
        Codepoint { codepoint: 0x2A81, name: "LESS-THAN OR SLANTED EQUAL TO WITH DOT ABOVE", aliases: &[] },
        Codepoint { codepoint: 0x2A82, name: "GREATER-THAN OR SLANTED EQUAL TO WITH DOT ABOVE", aliases: &[] },
        Codepoint { codepoint: 0x2A83, name: "LESS-THAN OR SLANTED EQUAL TO WITH DOT ABOVE RIGHT", aliases: &[] },
        Codepoint { codepoint: 0x2A84, name: "GREATER-THAN OR SLANTED EQUAL TO WITH DOT ABOVE LEFT", aliases: &[] },
        Codepoint { codepoint: 0x2A85, name: "LESS-THAN OR APPROXIMATE", aliases: &[] },
    ];
    assert(v@ =~= codepoint_table_248());
    v
}

pub open spec fn codepoint_table_249() -> Seq<Codepoint> {
    seq![
        Codepoint { codepoint: 0x2A86, name: "GREATER-THAN OR APPROXIMATE", aliases: &[] },
        Codepoint { codepoint: 0x2A87, name: "LESS-THAN AND SINGLE-LINE NOT EQUAL TO", aliases: &[] },
        Codepoint { codepoint: 0x2A88, name: "GREATER-THAN AND SINGLE-LINE NOT EQUAL TO", aliases: &[] },
        Codepoint { codepoint: 0x2A89, name: "LESS-THAN AND NOT APPROXIMATE", aliases: &[] },
        Codepoint { codepoint: 0x2A8A, name: "GREATER-THAN AND NOT APPROXIMATE", aliases: &[] },
        Codepoint { codepoint: 0x2A8B, name: "LESS-THAN ABOVE DOUBLE-LINE EQUAL ABOVE GREATER-THAN", aliases: &[] },
        Codepoint { codepoint: 0x2A8C, name: "GREATER-THAN ABOVE DOUBLE-LINE EQUAL ABOVE LESS-THAN", aliases: &[] },
        Codepoint { codepoint: 0x2A8D, name: "LESS-THAN ABOVE SIMILAR OR EQUAL", aliases: &[] },
        Codepoint { codepoint: 0x2A8E, name: "GREATER-THAN ABOVE SIMILAR OR EQUAL", aliases: &[] },
        Codepoint { codepoint: 0x2A8F, name: "LESS-THAN ABOVE SIMILAR ABOVE GREATER-THAN", aliases: &[] },
        Codepoint { codepoint: 0x2A90, name: "GREATER-THAN ABOVE SIMILAR ABOVE LESS-THAN", aliases: &[] },
        Codepoint { codepoint: 0x2A91, name: "LESS-THAN ABOVE GREATER-THAN ABOVE DOUBLE-LINE EQUAL", aliases: &[] },
        Codepoint { codepoint: 0x2A92, name: "GREATER-THAN ABOVE LESS-THAN ABOVE DOUBLE-LINE EQUAL", aliases: &[] },
        Codepoint { codepoint: 0x2A93, name: "LESS-THAN ABOVE SLANTED EQUAL ABOVE GREATER-THAN ABOVE SLANTED EQUAL", aliases: &[] },
        Codepoint { codepoint: 0x2A94, name: "GREATER-THAN ABOVE SLANTED EQUAL ABOVE LESS-THAN ABOVE SLANTED EQUAL", aliases: &[] },
        Codepoint { codepoint: 0x2A95, name: "SLANTED EQUAL TO OR LESS-THAN", aliases: &[] },
        Codepoint { codepoint: 0x2A96, name: "SLANTED EQUAL TO OR GREATER-THAN", aliases: &[] },
        Codepoint { codepoint: 0x2A97, name: "SLANTED EQUAL TO OR LESS-THAN WITH DOT INSIDE", aliases: &[] },
        Codepoint { codepoint: 0x2A98, name: "SLANTED EQUAL TO OR GREATER-THAN WITH DOT INSIDE", aliases: &[] },
        Codepoint { codepoint: 0x2A99, name: "DOUBLE-LINE EQUAL TO OR LESS-THAN", aliases: &[] },
        Codepoint { codepoint: 0x2A9A, name: "DOUBLE-LINE EQUAL TO OR GREATER-THAN", aliases: &[] },
        Codepoint { codepoint: 0x2A9B, name: "DOUBLE-LINE SLANTED EQUAL TO OR LESS-THAN", aliases: &[] },
        Codepoint { codepoint: 0x2A9C, name: "DOUBLE-LINE SLANTED EQUAL TO OR GREATER-THAN", aliases: &[] },
        Codepoint { codepoint: 0x2A9D, name: "SIMILAR OR LESS-THAN", aliases: &[] },
        Codepoint { codepoint: 0x2A9E, name: "SIMILAR OR GREATER-THAN", aliases: &[] },
        Codepoint { codepoint: 0x2A9F, name: "SIMILAR ABOVE LESS-THAN ABOVE EQUALS SIGN", aliases: &[] },
        Codepoint { codepoint: 0x2AA0, name: "SIMILAR ABOVE GREATER-THAN ABOVE EQUALS SIGN", aliases: &[] },
        Codepoint { codepoint: 0x2AA1, name: "DOUBLE NESTED LESS-THAN", aliases: &[] },
        Codepoint { codepoint: 0x2AA2, name: "DOUBLE NESTED GREATER-THAN", aliases: &[] },
        Codepoint { codepoint: 0x2AA3, name: "DOUBLE NESTED LESS-THAN WITH UNDERBAR", aliases: &[] },
        Codepoint { codepoint: 0x2AA4, name: "GREATER-THAN OVERLAPPING LESS-THAN", aliases: &[] },
        Codepoint { codepoint: 0x2AA5, name: "GREATER-THAN BESIDE LESS-THAN", aliases: &[] },
        Codepoint { codepoint: 0x2AA6, name: "LESS-THAN CLOSED BY CURVE", aliases: &[] },
        Codepoint { codepoint: 0x2AA7, name: "GREATER-THAN CLOSED BY CURVE", aliases: &[] },
        Codepoint { codepoint: 0x2AA8, name: "LESS-THAN CLOSED BY CURVE ABOVE SLANTED EQUAL", aliases: &[] },
        Codepoint { codepoint: 0x2AA9, name: "GREATER-THAN CLOSED BY CURVE ABOVE SLANTED EQUAL", aliases: &[] },
        Codepoint { codepoint: 0x2AAA, name: "SMALLER THAN", aliases: &[] },
        Codepoint { codepoint: 0x2AAB, name: "LARGER THAN", aliases: &[] },
        Codepoint { codepoint: 0x2AAC, name: "SMALLER THAN OR EQUAL TO", aliases: &[] },
        Codepoint { codepoint: 0x2AAD, name: "LARGER THAN OR EQUAL TO", aliases: &[] },
    ]
}

fn all_codepoints_249() -> (v: Vec<Codepoint>)
    ensures
        v@ == codepoint_table_249(),
{
    let v = vec![
        Codepoint { codepoint: 0x2A86, name: "GREATER-THAN OR APPROXIMATE", aliases: &[] },
        Codepoint { codepoint: 0x2A87, name: "LESS-THAN AND SINGLE-LINE NOT EQUAL TO", aliases: &[] },
        Codepoint { codepoint: 0x2A88, name: "GREATER-THAN AND SINGLE-LINE NOT EQUAL TO", aliases: &[] },
        Codepoint { codepoint: 0x2A89, name: "LESS-THAN AND NOT APPROXIMATE", aliases: &[] },
        Codepoint { codepoint: 0x2A8A, name: "GREATER-THAN AND NOT APPROXIMATE", aliases: &[] },
        Codepoint { codepoint: 0x2A8B, name: "LESS-THAN ABOVE DOUBLE-LINE EQUAL ABOVE GREATER-THAN", aliases: &[] },
        Codepoint { codepoint: 0x2A8C, name: "GREATER-THAN ABOVE DOUBLE-LINE EQUAL ABOVE LESS-THAN", aliases: &[] },
        Codepoint { codepoint: 0x2A8D, name: "LESS-THAN ABOVE SIMILAR OR EQUAL", aliases: &[] },
        Codepoint { codepoint: 0x2A8E, name: "GREATER-THAN ABOVE SIMILAR OR EQUAL", aliases: &[] },
        Codepoint { codepoint: 0x2A8F, name: "LESS-THAN ABOVE SIMILAR ABOVE GREATER-THAN", aliases: &[] },
        Codepoint { codepoint: 0x2A90, name: "GREATER-THAN ABOVE SIMILAR ABOVE LESS-THAN", aliases: &[] },
        Codepoint { codepoint: 0x2A91, name: "LESS-THAN ABOVE GREATER-THAN ABOVE DOUBLE-LINE EQUAL", aliases: &[] },
        Codepoint { codepoint: 0x2A92, name: "GREATER-THAN ABOVE LESS-THAN ABOVE DOUBLE-LINE EQUAL", aliases: &[] },
        Codepoint { codepoint: 0x2A93, name: "LESS-THAN ABOVE SLANTED EQUAL ABOVE GREATER-THAN ABOVE SLANTED EQUAL", aliases: &[] },
        Codepoint { codepoint: 0x2A94, name: "GREATER-THAN ABOVE SLANTED EQUAL ABOVE LESS-THAN ABOVE SLANTED EQUAL", aliases: &[] },
        Codepoint { codepoint: 0x2A95, name: "SLANTED EQUAL TO OR LESS-THAN", aliases: &[] },
        Codepoint { codepoint: 0x2A96, name: "SLANTED EQUAL TO OR GREATER-THAN", aliases: &[] },
        Codepoint { codepoint: 0x2A97, name: "SLANTED EQUAL TO OR LESS-THAN WITH DOT INSIDE", aliases: &[] },
        Codepoint { codepoint: 0x2A98, name: "SLANTED EQUAL TO OR GREATER-THAN WITH DOT INSIDE", aliases: &[] },
        Codepoint { codepoint: 0x2A99, name: "DOUBLE-LINE EQUAL TO OR LESS-THAN", aliases: &[] },
        Codepoint { codepoint: 0x2A9A, name: "DOUBLE-LINE EQUAL TO OR GREATER-THAN", aliases: &[] },
        Codepoint { codepoint: 0x2A9B, name: "DOUBLE-LINE SLANTED EQUAL TO OR LESS-THAN", aliases: &[] },
        Codepoint { codepoint: 0x2A9C, name: "DOUBLE-LINE SLANTED EQUAL TO OR GREATER-THAN", aliases: &[] },
        Codepoint { codepoint: 0x2A9D, name: "SIMILAR OR LESS-THAN", aliases: &[] },
        Codepoint { codepoint: 0x2A9E, name: "SIMILAR OR GREATER-THAN", aliases: &[] },
        Codepoint { codepoint: 0x2A9F, name: "SIMILAR ABOVE LESS-THAN ABOVE EQUALS SIGN", aliases: &[] },
        Codepoint { codepoint: 0x2AA0, name: "SIMILAR ABOVE GREATER-THAN ABOVE EQUALS SIGN", aliases: &[] },
        Codepoint { codepoint: 0x2AA1, name: "DOUBLE NESTED LESS-THAN", aliases: &[] },
        Codepoint { codepoint: 0x2AA2, name: "DOUBLE NESTED GREATER-THAN", aliases: &[] },
        Codepoint { codepoint: 0x2AA3, name: "DOUBLE NESTED LESS-THAN WITH UNDERBAR", aliases: &[] },
        Codepoint { codepoint: 0x2AA4, name: "GREATER-THAN OVERLAPPING LESS-THAN", aliases: &[] },
        Codepoint { codepoint: 0x2AA5, name: "GREATER-THAN BESIDE LESS-THAN", aliases: &[] },
        Codepoint { codepoint: 0x2AA6, name: "LESS-THAN CLOSED BY CURVE", aliases: &[] },
        Codepoint { codepoint: 0x2AA7, name: "GREATER-THAN CLOSED BY CURVE", aliases: &[] },
        Codepoint { codepoint: 0x2AA8, name: "LESS-THAN CLOSED BY CURVE ABOVE SLANTED EQUAL", aliases: &[] },
        Codepoint { codepoint: 0x2AA9, name: "GREATER-THAN CLOSED BY CURVE ABOVE SLANTED EQUAL", aliases: &[] },
        Codepoint { codepoint: 0x2AAA, name: "SMALLER THAN", aliases: &[] },
        Codepoint { codepoint: 0x2AAB, name: "LARGER THAN", aliases: &[] },
        Codepoint { codepoint: 0x2AAC, name: "SMALLER THAN OR EQUAL TO", aliases: &[] },
        Codepoint { codepoint: 0x2AAD, name: "LARGER THAN OR EQUAL TO", aliases: &[] },
    ];
    assert(v@ =~= codepoint_table_249());
    v
}

pub open spec fn codepoint_table_250() -> Seq<Codepoint> {
    seq![
        Codepoint { codepoint: 0x2AAE, name: "EQUALS SIGN WITH BUMPY ABOVE", aliases: &[] },
        Codepoint { codepoint: 0x2AAF, name: "PRECEDES ABOVE SINGLE-LINE EQUALS SIGN", aliases: &[] },
        Codepoint { codepoint: 0x2AB0, name: "SUCCEEDS ABOVE SINGLE-LINE EQUALS SIGN", aliases: &[] },
        Codepoint { codepoint: 0x2AB1, name: "PRECEDES ABOVE SINGLE-LINE NOT EQUAL TO", aliases: &[] },
        Codepoint { codepoint: 0x2AB2, name: "SUCCEEDS ABOVE SINGLE-LINE NOT EQUAL TO", aliases: &[] },
        Codepoint { codepoint: 0x2AB3, name: "PRECEDES ABOVE EQUALS SIGN", aliases: &[] },
        Codepoint { codepoint: 0x2AB4, name: "SUCCEEDS ABOVE EQUALS SIGN", aliases: &[] },
        Codepoint { codepoint: 0x2AB5, name: "PRECEDES ABOVE NOT EQUAL TO", aliases: &[] },
        Codepoint { codepoint: 0x2AB6, name: "SUCCEEDS ABOVE NOT EQUAL TO", aliases: &[] },
        Codepoint { codepoint: 0x2AB7, name: "PRECEDES ABOVE ALMOST EQUAL TO", aliases: &[] },
        Codepoint { codepoint: 0x2AB8, name: "SUCCEEDS ABOVE ALMOST EQUAL TO", aliases: &[] },
        Codepoint { codepoint: 0x2AB9, name: "PRECEDES ABOVE NOT ALMOST EQUAL TO", aliases: &[] },
        Codepoint { codepoint: 0x2ABA, name: "SUCCEEDS ABOVE NOT ALMOST EQUAL TO", aliases: &[] },
        Codepoint { codepoint: 0x2ABB, name: "DOUBLE PRECEDES", aliases: &[] },
        Codepoint { codepoint: 0x2ABC, name: "DOUBLE SUCCEEDS", aliases: &[] },
        Codepoint { codepoint: 0x2ABD, name: "SUBSET WITH DOT", aliases: &[] },
        Codepoint { codepoint: 0x2ABE, name: "SUPERSET WITH DOT", aliases: &[] },
        Codepoint { codepoint: 0x2ABF, name: "SUBSET WITH PLUS SIGN BELOW", aliases: &[] },
        Codepoint { codepoint: 0x2AC0, name: "SUPERSET WITH PLUS SIGN BELOW", aliases: &[] },
        Codepoint { codepoint: 0x2AC1, name: "SUBSET WITH MULTIPLICATION SIGN BELOW", aliases: &[] },
        Codepoint { codepoint: 0x2AC2, name: "SUPERSET WITH MULTIPLICATION SIGN BELOW", aliases: &[] },
        Codepoint { codepoint: 0x2AC3, name: "SUBSET OF OR EQUAL TO WITH DOT ABOVE", aliases: &[] },
        Codepoint { codepoint: 0x2AC4, name: "SUPERSET OF OR EQUAL TO WITH DOT ABOVE", aliases: &[] },
        Codepoint { codepoint: 0x2AC5, name: "SUBSET OF ABOVE EQUALS SIGN", aliases: &[] },
        Codepoint { codepoint: 0x2AC6, name: "SUPERSET OF ABOVE EQUALS SIGN", aliases: &[] },
        Codepoint { codepoint: 0x2AC7, name: "SUBSET OF ABOVE TILDE OPERATOR", aliases: &[] },
        Codepoint { codepoint: 0x2AC8, name: "SUPERSET OF ABOVE TILDE OPERATOR", aliases: &[] },
        Codepoint { codepoint: 0x2AC9, name: "SUBSET OF ABOVE ALMOST EQUAL TO", aliases: &[] },
        Codepoint { codepoint: 0x2ACA, name: "SUPERSET OF ABOVE ALMOST EQUAL TO", aliases: &[] },
        Codepoint { codepoint: 0x2ACB, name: "SUBSET OF ABOVE NOT EQUAL TO", aliases: &[] },
        Codepoint { codepoint: 0x2ACC, name: "SUPERSET OF ABOVE NOT EQUAL TO", aliases: &[] },
        Codepoint { codepoint: 0x2ACD, name: "SQUARE LEFT OPEN BOX OPERATOR", aliases: &[] },
        Codepoint { codepoint: 0x2ACE, name: "SQUARE RIGHT OPEN BOX OPERATOR", aliases: &[] },
        Codepoint { codepoint: 0x2ACF, name: "CLOSED SUBSET", aliases: &[] },
        Codepoint { codepoint: 0x2AD0, name: "CLOSED SUPERSET", aliases: &[] },
        Codepoint { codepoint: 0x2AD1, name: "CLOSED SUBSET OR EQUAL TO", aliases: &[] },
        Codepoint { codepoint: 0x2AD2, name: "CLOSED SUPERSET OR EQUAL TO", aliases: &[] },
        Codepoint { codepoint: 0x2AD3, name: "SUBSET ABOVE SUPERSET", aliases: &[] },
        Codepoint { codepoint: 0x2AD4, name: "SUPERSET ABOVE SUBSET", aliases: &[] },
        Codepoint { codepoint: 0x2AD5, name: "SUBSET ABOVE SUBSET", aliases: &[] },
    ]
}

fn all_codepoints_250() -> (v: Vec<Codepoint>)
    ensures
        v@ == codepoint_table_250(),
{
    let v = vec![
        Codepoint { codepoint: 0x2AAE, name: "EQUALS SIGN WITH BUMPY ABOVE", aliases: &[] },
        Codepoint { codepoint: 0x2AAF, name: "PRECEDES ABOVE SINGLE-LINE EQUALS SIGN", aliases: &[] },
        Codepoint { codepoint: 0x2AB0, name: "SUCCEEDS ABOVE SINGLE-LINE EQUALS SIGN", aliases: &[] },
        Codepoint { codepoint: 0x2AB1, name: "PRECEDES ABOVE SINGLE-LINE NOT EQUAL TO", aliases: &[] },
        Codepoint { codepoint: 0x2AB2, name: "SUCCEEDS ABOVE SINGLE-LINE NOT EQUAL TO", aliases: &[] },
        Codepoint { codepoint: 0x2AB3, name: "PRECEDES ABOVE EQUALS SIGN", aliases: &[] },
        Codepoint { codepoint: 0x2AB4, name: "SUCCEEDS ABOVE EQUALS SIGN", aliases: &[] },
        Codepoint { codepoint: 0x2AB5, name: "PRECEDES ABOVE NOT EQUAL TO", aliases: &[] },
        Codepoint { codepoint: 0x2AB6, name: "SUCCEEDS ABOVE NOT EQUAL TO", aliases: &[] },
        Codepoint { codepoint: 0x2AB7, name: "PRECEDES ABOVE ALMOST EQUAL TO", aliases: &[] },
        Codepoint { codepoint: 0x2AB8, name: "SUCCEEDS ABOVE ALMOST EQUAL TO", aliases: &[] },
        Codepoint { codepoint: 0x2AB9, name: "PRECEDES ABOVE NOT ALMOST EQUAL TO", aliases: &[] },
        Codepoint { codepoint: 0x2ABA, name: "SUCCEEDS ABOVE NOT ALMOST EQUAL TO", aliases: &[] },
        Codepoint { codepoint: 0x2ABB, name: "DOUBLE PRECEDES", aliases: &[] },
        Codepoint { codepoint: 0x2ABC, name: "DOUBLE SUCCEEDS", aliases: &[] },
        Codepoint { codepoint: 0x2ABD, name: "SUBSET WITH DOT", aliases: &[] },
        Codepoint { codepoint: 0x2ABE, name: "SUPERSET WITH DOT", aliases: &[] },
        Codepoint { codepoint: 0x2ABF, name: "SUBSET WITH PLUS SIGN BELOW", aliases: &[] },
        Codepoint { codepoint: 0x2AC0, name: "SUPERSET WITH PLUS SIGN BELOW", aliases: &[] },
        Codepoint { codepoint: 0x2AC1, name: "SUBSET WITH MULTIPLICATION SIGN BELOW", aliases: &[] },
        Codepoint { codepoint: 0x2AC2, name: "SUPERSET WITH MULTIPLICATION SIGN BELOW", aliases: &[] },
        Codepoint { codepoint: 0x2AC3, name: "SUBSET OF OR EQUAL TO WITH DOT ABOVE", aliases: &[] },
        Codepoint { codepoint: 0x2AC4, name: "SUPERSET OF OR EQUAL TO WITH DOT ABOVE", aliases: &[] },
        Codepoint { codepoint: 0x2AC5, name: "SUBSET OF ABOVE EQUALS SIGN", aliases: &[] },
        Codepoint { codepoint: 0x2AC6, name: "SUPERSET OF ABOVE EQUALS SIGN", aliases: &[] },
        Codepoint { codepoint: 0x2AC7, name: "SUBSET OF ABOVE TILDE OPERATOR", aliases: &[] },
        Codepoint { codepoint: 0x2AC8, name: "SUPERSET OF ABOVE TILDE OPERATOR", aliases: &[] },
        Codepoint { codepoint: 0x2AC9, name: "SUBSET OF ABOVE ALMOST EQUAL TO", aliases: &[] },
        Codepoint { codepoint: 0x2ACA, name: "SUPERSET OF ABOVE ALMOST EQUAL TO", aliases: &[] },
        Codepoint { codepoint: 0x2ACB, name: "SUBSET OF ABOVE NOT EQUAL TO", aliases: &[] },
        Codepoint { codepoint: 0x2ACC, name: "SUPERSET OF ABOVE NOT EQUAL TO", aliases: &[] },
        Codepoint { codepoint: 0x2ACD, name: "SQUARE LEFT OPEN BOX OPERATOR", aliases: &[] },
        Codepoint { codepoint: 0x2ACE, name: "SQUARE RIGHT OPEN BOX OPERATOR", aliases: &[] },
        Codepoint { codepoint: 0x2ACF, name: "CLOSED SUBSET", aliases: &[] },
        Codepoint { codepoint: 0x2AD0, name: "CLOSED SUPERSET", aliases: &[] },
        Codepoint { codepoint: 0x2AD1, name: "CLOSED SUBSET OR EQUAL TO", aliases: &[] },
        Codepoint { codepoint: 0x2AD2, name: "CLOSED SUPERSET OR EQUAL TO", aliases: &[] },
        Codepoint { codepoint: 0x2AD3, name: "SUBSET ABOVE SUPERSET", aliases: &[] },
        Codepoint { codepoint: 0x2AD4, name: "SUPERSET ABOVE SUBSET", aliases: &[] },
        Codepoint { codepoint: 0x2AD5, name: "SUBSET ABOVE SUBSET", aliases: &[] },
    ];
    assert(v@ =~= codepoint_table_250());
    v
}

pub open spec fn codepoint_table_251() -> Seq<Codepoint> {
    seq![
        Codepoint { codepoint: 0x2AD6, name: "SUPERSET ABOVE SUPERSET", aliases: &[] },
        Codepoint { codepoint: 0x2AD7, name: "SUPERSET BESIDE SUBSET", aliases: &[] },
        Codepoint { codepoint: 0x2AD8, name: "SUPERSET BESIDE AND JOINED BY DASH WITH SUBSET", aliases: &[] },
        Codepoint { codepoint: 0x2AD9, name: "ELEMENT OF OPENING DOWNWARDS", aliases: &[] },
        Codepoint { codepoint: 0x2ADA, name: "PITCHFORK WITH TEE TOP", aliases: &[] },
        Codepoint { codepoint: 0x2ADB, name: "TRANSVERSAL INTERSECTION", aliases: &[] },
        Codepoint { codepoint: 0x2ADC, name: "FORKING", aliases: &[] },
        Codepoint { codepoint: 0x2ADD, name: "NONFORKING", aliases: &[] },
        Codepoint { codepoint: 0x2ADE, name: "SHORT LEFT TACK", aliases: &[] },
        Codepoint { codepoint: 0x2ADF, name: "SHORT DOWN TACK", aliases: &[] },
        Codepoint { codepoint: 0x2AE0, name: "SHORT UP TACK", aliases: &[] },
        Codepoint { codepoint: 0x2AE1, name: "PERPENDICULAR WITH S", aliases: &[] },
        Codepoint { codepoint: 0x2AE2, name: "VERTICAL BAR TRIPLE RIGHT TURNSTILE", aliases: &[] },
        Codepoint { codepoint: 0x2AE3, name: "DOUBLE VERTICAL BAR LEFT TURNSTILE", aliases: &[] },
        Codepoint { codepoint: 0x2AE4, name: "VERTICAL BAR DOUBLE LEFT TURNSTILE", aliases: &[] },
        Codepoint { codepoint: 0x2AE5, name: "DOUBLE VERTICAL BAR DOUBLE LEFT TURNSTILE", aliases: &[] },
        Codepoint { codepoint: 0x2AE6, name: "LONG DASH FROM LEFT MEMBER OF DOUBLE VERTICAL", aliases: &[] },
        Codepoint { codepoint: 0x2AE7, name: "SHORT DOWN TACK WITH OVERBAR", aliases: &[] },
        Codepoint { codepoint: 0x2AE8, name: "SHORT UP TACK WITH UNDERBAR", aliases: &[] },
        Codepoint { codepoint: 0x2AE9, name: "SHORT UP TACK ABOVE SHORT DOWN TACK", aliases: &[] },
        Codepoint { codepoint: 0x2AEA, name: "DOUBLE DOWN TACK", aliases: &[] },
        Codepoint { codepoint: 0x2AEB, name: "DOUBLE UP TACK", aliases: &[] },
        Codepoint { codepoint: 0x2AEC, name: "DOUBLE STROKE NOT SIGN", aliases: &[] },
        Codepoint { codepoint: 0x2AED, name: "REVERSED DOUBLE STROKE NOT SIGN", aliases: &[] },
        Codepoint { codepoint: 0x2AEE, name: "DOES NOT DIVIDE WITH REVERSED NEGATION SLASH", aliases: &[] },
        Codepoint { codepoint: 0x2AEF, name: "VERTICAL LINE WITH CIRCLE ABOVE", aliases: &[] },
        Codepoint { codepoint: 0x2AF0, name: "VERTICAL LINE WITH CIRCLE BELOW", aliases: &[] },
        Codepoint { codepoint: 0x2AF1, name: "DOWN TACK WITH CIRCLE BELOW", aliases: &[] },
        Codepoint { codepoint: 0x2AF2, name: "PARALLEL WITH HORIZONTAL STROKE", aliases: &[] },
        Codepoint { codepoint: 0x2AF3, name: "PARALLEL WITH TILDE OPERATOR", aliases: &[] },
        Codepoint { codepoint: 0x2AF4, name: "TRIPLE VERTICAL BAR BINARY RELATION", aliases: &[] },
        Codepoint { codepoint: 0x2AF5, name: "TRIPLE VERTICAL BAR WITH HORIZONTAL STROKE", aliases: &[] },
        Codepoint { codepoint: 0x2AF6, name: "TRIPLE COLON OPERATOR", aliases: &[] },
        Codepoint { codepoint: 0x2AF7, name: "TRIPLE NESTED LESS-THAN", aliases: &[] },
        Codepoint { codepoint: 0x2AF8, name: "TRIPLE NESTED GREATER-THAN", aliases: &[] },
        Codepoint { codepoint: 0x2AF9, name: "DOUBLE-LINE SLANTED LESS-THAN OR EQUAL TO", aliases: &[] },
        Codepoint { codepoint: 0x2AFA, name: "DOUBLE-LINE SLANTED GREATER-THAN OR EQUAL TO", aliases: &[] },
        Codepoint { codepoint: 0x2AFB, name: "TRIPLE SOLIDUS BINARY RELATION", aliases: &[] },
        Codepoint { codepoint: 0x2AFC, name: "LARGE TRIPLE VERTICAL BAR OPERATOR", aliases: &[] },
        Codepoint { codepoint: 0x2AFD, name: "DOUBLE SOLIDUS OPERATOR", aliases: &[] },
    ]
}

fn all_codepoints_251() -> (v: Vec<Codepoint>)
    ensures
        v@ == codepoint_table_251(),
{
    let v = vec![
        Codepoint { codepoint: 0x2AD6, name: "SUPERSET ABOVE SUPERSET", aliases: &[] },
        Codepoint { codepoint: 0x2AD7, name: "SUPERSET BESIDE SUBSET", aliases: &[] },
        Codepoint { codepoint: 0x2AD8, name: "SUPERSET BESIDE AND JOINED BY DASH WITH SUBSET", aliases: &[] },
        Codepoint { codepoint: 0x2AD9, name: "ELEMENT OF OPENING DOWNWARDS", aliases: &[] },
        Codepoint { codepoint: 0x2ADA, name: "PITCHFORK WITH TEE TOP", aliases: &[] },
        Codepoint { codepoint: 0x2ADB, name: "TRANSVERSAL INTERSECTION", aliases: &[] },
        Codepoint { codepoint: 0x2ADC, name: "FORKING", aliases: &[] },
        Codepoint { codepoint: 0x2ADD, name: "NONFORKING", aliases: &[] },
        Codepoint { codepoint: 0x2ADE, name: "SHORT LEFT TACK", aliases: &[] },
        Codepoint { codepoint: 0x2ADF, name: "SHORT DOWN TACK", aliases: &[] },
        Codepoint { codepoint: 0x2AE0, name: "SHORT UP TACK", aliases: &[] },
        Codepoint { codepoint: 0x2AE1, name: "PERPENDICULAR WITH S", aliases: &[] },
        Codepoint { codepoint: 0x2AE2, name: "VERTICAL BAR TRIPLE RIGHT TURNSTILE", aliases: &[] },
        Codepoint { codepoint: 0x2AE3, name: "DOUBLE VERTICAL BAR LEFT TURNSTILE", aliases: &[] },
        Codepoint { codepoint: 0x2AE4, name: "VERTICAL BAR DOUBLE LEFT TURNSTILE", aliases: &[] },
        Codepoint { codepoint: 0x2AE5, name: "DOUBLE VERTICAL BAR DOUBLE LEFT TURNSTILE", aliases: &[] },
        Codepoint { codepoint: 0x2AE6, name: "LONG DASH FROM LEFT MEMBER OF DOUBLE VERTICAL", aliases: &[] },
        Codepoint { codepoint: 0x2AE7, name: "SHORT DOWN TACK WITH OVERBAR", aliases: &[] },
        Codepoint { codepoint: 0x2AE8, name: "SHORT UP TACK WITH UNDERBAR", aliases: &[] },
        Codepoint { codepoint: 0x2AE9, name: "SHORT UP TACK ABOVE SHORT DOWN TACK", aliases: &[] },
        Codepoint { codepoint: 0x2AEA, name: "DOUBLE DOWN TACK", aliases: &[] },
        Codepoint { codepoint: 0x2AEB, name: "DOUBLE UP TACK", aliases: &[] },
        Codepoint { codepoint: 0x2AEC, name: "DOUBLE STROKE NOT SIGN", aliases: &[] },
        Codepoint { codepoint: 0x2AED, name: "REVERSED DOUBLE STROKE NOT SIGN", aliases: &[] },
        Codepoint { codepoint: 0x2AEE, name: "DOES NOT DIVIDE WITH REVERSED NEGATION SLASH", aliases: &[] },
        Codepoint { codepoint: 0x2AEF, name: "VERTICAL LINE WITH CIRCLE ABOVE", aliases: &[] },
        Codepoint { codepoint: 0x2AF0, name: "VERTICAL LINE WITH CIRCLE BELOW", aliases: &[] },
        Codepoint { codepoint: 0x2AF1, name: "DOWN TACK WITH CIRCLE BELOW", aliases: &[] },
        Codepoint { codepoint: 0x2AF2, name: "PARALLEL WITH HORIZONTAL STROKE", aliases: &[] },
        Codepoint { codepoint: 0x2AF3, name: "PARALLEL WITH TILDE OPERATOR", aliases: &[] },
        Codepoint { codepoint: 0x2AF4, name: "TRIPLE VERTICAL BAR BINARY RELATION", aliases: &[] },
        Codepoint { codepoint: 0x2AF5, name: "TRIPLE VERTICAL BAR WITH HORIZONTAL STROKE", aliases: &[] },
        Codepoint { codepoint: 0x2AF6, name: "TRIPLE COLON OPERATOR", aliases: &[] },
        Codepoint { codepoint: 0x2AF7, name: "TRIPLE NESTED LESS-THAN", aliases: &[] },
        Codepoint { codepoint: 0x2AF8, name: "TRIPLE NESTED GREATER-THAN", aliases: &[] },
        Codepoint { codepoint: 0x2AF9, name: "DOUBLE-LINE SLANTED LESS-THAN OR EQUAL TO", aliases: &[] },
        Codepoint { codepoint: 0x2AFA, name: "DOUBLE-LINE SLANTED GREATER-THAN OR EQUAL TO", aliases: &[] },
        Codepoint { codepoint: 0x2AFB, name: "TRIPLE SOLIDUS BINARY RELATION", aliases: &[] },
        Codepoint { codepoint: 0x2AFC, name: "LARGE TRIPLE VERTICAL BAR OPERATOR", aliases: &[] },
        Codepoint { codepoint: 0x2AFD, name: "DOUBLE SOLIDUS OPERATOR", aliases: &[] },
    ];
    assert(v@ =~= codepoint_table_251());
    v
}

pub open spec fn codepoint_table_252() -> Seq<Codepoint> {
    seq![
        Codepoint { codepoint: 0x2AFE, name: "WHITE VERTICAL BAR", aliases: &[] },
        Codepoint { codepoint: 0x2AFF, name: "N-ARY WHITE VERTICAL BAR", aliases: &[] },
        Codepoint { codepoint: 0x2B00, name: "NORTH EAST WHITE ARROW", aliases: &[] },
        Codepoint { codepoint: 0x2B01, name: "NORTH WEST WHITE ARROW", aliases: &[] },
        Codepoint { codepoint: 0x2B02, name: "SOUTH EAST WHITE ARROW", aliases: &[] },
        Codepoint { codepoint: 0x2B03, name: "SOUTH WEST WHITE ARROW", aliases: &[] },
        Codepoint { codepoint: 0x2B04, name: "LEFT RIGHT WHITE ARROW", aliases: &[] },
        Codepoint { codepoint: 0x2B05, name: "LEFTWARDS BLACK ARROW", aliases: &[] },
        Codepoint { codepoint: 0x2B06, name: "UPWARDS BLACK ARROW", aliases: &[] },
        Codepoint { codepoint: 0x2B07, name: "DOWNWARDS BLACK ARROW", aliases: &[] },
        Codepoint { codepoint: 0x2B08, name: "NORTH EAST BLACK ARROW", aliases: &[] },
        Codepoint { codepoint: 0x2B09, name: "NORTH WEST BLACK ARROW", aliases: &[] },
        Codepoint { codepoint: 0x2B0A, name: "SOUTH EAST BLACK ARROW", aliases: &[] },
        Codepoint { codepoint: 0x2B0B, name: "SOUTH WEST BLACK ARROW", aliases: &[] },
        Codepoint { codepoint: 0x2B0C, name: "LEFT RIGHT BLACK ARROW", aliases: &[] },
        Codepoint { codepoint: 0x2B0D, name: "UP DOWN BLACK ARROW", aliases: &[] },
        Codepoint { codepoint: 0x2B0E, name: "RIGHTWARDS ARROW WITH TIP DOWNWARDS", aliases: &[] },
        Codepoint { codepoint: 0x2B0F, name: "RIGHTWARDS ARROW WITH TIP UPWARDS", aliases: &[] },
        Codepoint { codepoint: 0x2B10, name: "LEFTWARDS ARROW WITH TIP DOWNWARDS", aliases: &[] },
        Codepoint { codepoint: 0x2B11, name: "LEFTWARDS ARROW WITH TIP UPWARDS", aliases: &[] },
        Codepoint { codepoint: 0x2B12, name: "SQUARE WITH TOP HALF BLACK", aliases: &[] },
        Codepoint { codepoint: 0x2B13, name: "SQUARE WITH BOTTOM HALF BLACK", aliases: &[] },
        Codepoint { codepoint: 0x2B14, name: "SQUARE WITH UPPER RIGHT DIAGONAL HALF BLACK", aliases: &[] },
        Codepoint { codepoint: 0x2B15, name: "SQUARE WITH LOWER LEFT DIAGONAL HALF BLACK", aliases: &[] },
        Codepoint { codepoint: 0x2B16, name: "DIAMOND WITH LEFT HALF BLACK", aliases: &[] },
        Codepoint { codepoint: 0x2B17, name: "DIAMOND WITH RIGHT HALF BLACK", aliases: &[] },
        Codepoint { codepoint: 0x2B18, name: "DIAMOND WITH TOP HALF BLACK", aliases: &[] },
        Codepoint { codepoint: 0x2B19, name: "DIAMOND WITH BOTTOM HALF BLACK", aliases: &[] },
        Codepoint { codepoint: 0x2B1A, name: "DOTTED SQUARE", aliases: &[] },
        Codepoint { codepoint: 0x2B1B, name: "BLACK LARGE SQUARE", aliases: &[] },
        Codepoint { codepoint: 0x2B1C, name: "WHITE LARGE SQUARE", aliases: &[] },
        Codepoint { codepoint: 0x2B1D, name: "BLACK VERY SMALL SQUARE", aliases: &[] },
        Codepoint { codepoint: 0x2B1E, name: "WHITE VERY SMALL SQUARE", aliases: &[] },
        Codepoint { codepoint: 0x2B1F, name: "BLACK PENTAGON", aliases: &[] },
        Codepoint { codepoint: 0x2B20, name: "WHITE PENTAGON", aliases: &[] },
        Codepoint { codepoint: 0x2B21, name: "WHITE HEXAGON", aliases: &[] },
        Codepoint { codepoint: 0x2B22, name: "BLACK HEXAGON", aliases: &[] },
        Codepoint { codepoint: 0x2B23, name: "HORIZONTAL BLACK HEXAGON", aliases: &[] },
        Codepoint { codepoint: 0x2B24, name: "BLACK LARGE CIRCLE", aliases: &[] },
        Codepoint { codepoint: 0x2B25, name: "BLACK MEDIUM DIAMOND", aliases: &[] },
    ]
}

fn all_codepoints_252() -> (v: Vec<Codepoint>)
    ensures
        v@ == codepoint_table_252(),
{
    let v = vec![
        Codepoint { codepoint: 0x2AFE, name: "WHITE VERTICAL BAR", aliases: &[] },
        Codepoint { codepoint: 0x2AFF, name: "N-ARY WHITE VERTICAL BAR", aliases: &[] },
        Codepoint { codepoint: 0x2B00, name: "NORTH EAST WHITE ARROW", aliases: &[] },
        Codepoint { codepoint: 0x2B01, name: "NORTH WEST WHITE ARROW", aliases: &[] },
        Codepoint { codepoint: 0x2B02, name: "SOUTH EAST WHITE ARROW", aliases: &[] },
        Codepoint { codepoint: 0x2B03, name: "SOUTH WEST WHITE ARROW", aliases: &[] },
        Codepoint { codepoint: 0x2B04, name: "LEFT RIGHT WHITE ARROW", aliases: &[] },
        Codepoint { codepoint: 0x2B05, name: "LEFTWARDS BLACK ARROW", aliases: &[] },
        Codepoint { codepoint: 0x2B06, name: "UPWARDS BLACK ARROW", aliases: &[] },
        Codepoint { codepoint: 0x2B07, name: "DOWNWARDS BLACK ARROW", aliases: &[] },
        Codepoint { codepoint: 0x2B08, name: "NORTH EAST BLACK ARROW", aliases: &[] },
        Codepoint { codepoint: 0x2B09, name: "NORTH WEST BLACK ARROW", aliases: &[] },
        Codepoint { codepoint: 0x2B0A, name: "SOUTH EAST BLACK ARROW", aliases: &[] },
        Codepoint { codepoint: 0x2B0B, name: "SOUTH WEST BLACK ARROW", aliases: &[] },
        Codepoint { codepoint: 0x2B0C, name: "LEFT RIGHT BLACK ARROW", aliases: &[] },
        Codepoint { codepoint: 0x2B0D, name: "UP DOWN BLACK ARROW", aliases: &[] },
        Codepoint { codepoint: 0x2B0E, name: "RIGHTWARDS ARROW WITH TIP DOWNWARDS", aliases: &[] },
        Codepoint { codepoint: 0x2B0F, name: "RIGHTWARDS ARROW WITH TIP UPWARDS", aliases: &[] },
        Codepoint { codepoint: 0x2B10, name: "LEFTWARDS ARROW WITH TIP DOWNWARDS", aliases: &[] },
        Codepoint { codepoint: 0x2B11, name: "LEFTWARDS ARROW WITH TIP UPWARDS", aliases: &[] },
        Codepoint { codepoint: 0x2B12, name: "SQUARE WITH TOP HALF BLACK", aliases: &[] },
        Codepoint { codepoint: 0x2B13, name: "SQUARE WITH BOTTOM HALF BLACK", aliases: &[] },
        Codepoint { codepoint: 0x2B14, name: "SQUARE WITH UPPER RIGHT DIAGONAL HALF BLACK", aliases: &[] },
        Codepoint { codepoint: 0x2B15, name: "SQUARE WITH LOWER LEFT DIAGONAL HALF BLACK", aliases: &[] },
        Codepoint { codepoint: 0x2B16, name: "DIAMOND WITH LEFT HALF BLACK", aliases: &[] },
        Codepoint { codepoint: 0x2B17, name: "DIAMOND WITH RIGHT HALF BLACK", aliases: &[] },
        Codepoint { codepoint: 0x2B18, name: "DIAMOND WITH TOP HALF BLACK", aliases: &[] },
        Codepoint { codepoint: 0x2B19, name: "DIAMOND WITH BOTTOM HALF BLACK", aliases: &[] },
        Codepoint { codepoint: 0x2B1A, name: "DOTTED SQUARE", aliases: &[] },
        Codepoint { codepoint: 0x2B1B, name: "BLACK LARGE SQUARE", aliases: &[] },
        Codepoint { codepoint: 0x2B1C, name: "WHITE LARGE SQUARE", aliases: &[] },
        Codepoint { codepoint: 0x2B1D, name: "BLACK VERY SMALL SQUARE", aliases: &[] },
        Codepoint { codepoint: 0x2B1E, name: "WHITE VERY SMALL SQUARE", aliases: &[] },
        Codepoint { codepoint: 0x2B1F, name: "BLACK PENTAGON", aliases: &[] },
        Codepoint { codepoint: 0x2B20, name: "WHITE PENTAGON", aliases: &[] },
        Codepoint { codepoint: 0x2B21, name: "WHITE HEXAGON", aliases: &[] },
        Codepoint { codepoint: 0x2B22, name: "BLACK HEXAGON", aliases: &[] },
        Codepoint { codepoint: 0x2B23, name: "HORIZONTAL BLACK HEXAGON", aliases: &[] },
        Codepoint { codepoint: 0x2B24, name: "BLACK LARGE CIRCLE", aliases: &[] },
        Codepoint { codepoint: 0x2B25, name: "BLACK MEDIUM DIAMOND", aliases: &[] },
    ];
    assert(v@ =~= codepoint_table_252());
    v
}

pub open spec fn codepoint_table_253() -> Seq<Codepoint> {
    seq![
        Codepoint { codepoint: 0x2B26, name: "WHITE MEDIUM DIAMOND", aliases: &[] },
        Codepoint { codepoint: 0x2B27, name: "BLACK MEDIUM LOZENGE", aliases: &[] },
        Codepoint { codepoint: 0x2B28, name: "WHITE MEDIUM LOZENGE", aliases: &[] },
        Codepoint { codepoint: 0x2B29, name: "BLACK SMALL DIAMOND", aliases: &[] },
        Codepoint { codepoint: 0x2B2A, name: "BLACK SMALL LOZENGE", aliases: &[] },
        Codepoint { codepoint: 0x2B2B, name: "WHITE SMALL LOZENGE", aliases: &[] },
        Codepoint { codepoint: 0x2B2C, name: "BLACK HORIZONTAL ELLIPSE", aliases: &[] },
        Codepoint { codepoint: 0x2B2D, name: "WHITE HORIZONTAL ELLIPSE", aliases: &[] },
        Codepoint { codepoint: 0x2B2E, name: "BLACK VERTICAL ELLIPSE", aliases: &[] },
        Codepoint { codepoint: 0x2B2F, name: "WHITE VERTICAL ELLIPSE", aliases: &[] },
        Codepoint { codepoint: 0x2B30, name: "LEFT ARROW WITH SMALL CIRCLE", aliases: &[] },
        Codepoint { codepoint: 0x2B31, name: "THREE LEFTWARDS ARROWS", aliases: &[] },
        Codepoint { codepoint: 0x2B32, name: "LEFT ARROW WITH CIRCLED PLUS", aliases: &[] },
        Codepoint { codepoint: 0x2B33, name: "LONG LEFTWARDS SQUIGGLE ARROW", aliases: &[] },
        Codepoint { codepoint: 0x2B34, name: "LEFTWARDS TWO-HEADED ARROW WITH VERTICAL STROKE", aliases: &[] },
        Codepoint { codepoint: 0x2B35, name: "LEFTWARDS TWO-HEADED ARROW WITH DOUBLE VERTICAL STROKE", aliases: &[] },
        Codepoint { codepoint: 0x2B36, name: "LEFTWARDS TWO-HEADED ARROW FROM BAR", aliases: &[] },
        Codepoint { codepoint: 0x2B37, name: "LEFTWARDS TWO-HEADED TRIPLE DASH ARROW", aliases: &[] },
        Codepoint { codepoint: 0x2B38, name: "LEFTWARDS ARROW WITH DOTTED STEM", aliases: &[] },
        Codepoint { codepoint: 0x2B39, name: "LEFTWARDS ARROW WITH TAIL WITH VERTICAL STROKE", aliases: &[] },
        Codepoint { codepoint: 0x2B3A, name: "LEFTWARDS ARROW WITH TAIL WITH DOUBLE VERTICAL STROKE", aliases: &[] },
        Codepoint { codepoint: 0x2B3B, name: "LEFTWARDS TWO-HEADED ARROW WITH TAIL", aliases: &[] },
        Codepoint { codepoint: 0x2B3C, name: "LEFTWARDS TWO-HEADED ARROW WITH TAIL WITH VERTICAL STROKE", aliases: &[] },
        Codepoint { codepoint: 0x2B3D, name: "LEFTWARDS TWO-HEADED ARROW WITH TAIL WITH DOUBLE VERTICAL STROKE", aliases: &[] },
        Codepoint { codepoint: 0x2B3E, name: "LEFTWARDS ARROW THROUGH X", aliases: &[] },
        Codepoint { codepoint: 0x2B3F, name: "WAVE ARROW POINTING DIRECTLY LEFT", aliases: &[] },
        Codepoint { codepoint: 0x2B40, name: "EQUALS SIGN ABOVE LEFTWARDS ARROW", aliases: &[] },
        Codepoint { codepoint: 0x2B41, name: "REVERSE TILDE OPERATOR ABOVE LEFTWARDS ARROW", aliases: &[] },
        Codepoint { codepoint: 0x2B42, name: "LEFTWARDS ARROW ABOVE REVERSE ALMOST EQUAL TO", aliases: &[] },
        Codepoint { codepoint: 0x2B43, name: "RIGHTWARDS ARROW THROUGH GREATER-THAN", aliases: &[] },
        Codepoint { codepoint: 0x2B44, name: "RIGHTWARDS ARROW THROUGH SUPERSET", aliases: &[] },
        Codepoint { codepoint: 0x2B45, name: "LEFTWARDS QUADRUPLE ARROW", aliases: &[] },
        Codepoint { codepoint: 0x2B46, name: "RIGHTWARDS QUADRUPLE ARROW", aliases: &[] },
        Codepoint { codepoint: 0x2B47, name: "REVERSE TILDE OPERATOR ABOVE RIGHTWARDS ARROW", aliases: &[] },
        Codepoint { codepoint: 0x2B48, name: "RIGHTWARDS ARROW ABOVE REVERSE ALMOST EQUAL TO", aliases: &[] },
        Codepoint { codepoint: 0x2B49, name: "TILDE OPERATOR ABOVE LEFTWARDS ARROW", aliases: &[] },
        Codepoint { codepoint: 0x2B4A, name: "LEFTWARDS ARROW ABOVE ALMOST EQUAL TO", aliases: &[] },
        Codepoint { codepoint: 0x2B4B, name: "LEFTWARDS ARROW ABOVE REVERSE TILDE OPERATOR", aliases: &[] },
        Codepoint { codepoint: 0x2B4C, name: "RIGHTWARDS ARROW ABOVE REVERSE TILDE OPERATOR", aliases: &[] },
        Codepoint { codepoint: 0x2B4D, name: "DOWNWARDS TRIANGLE-HEADED ZIGZAG ARROW", aliases: &[] },
    ]
}

fn all_codepoints_253() -> (v: Vec<Codepoint>)
    ensures
        v@ == codepoint_table_253(),
{
    let v = vec![
        Codepoint { codepoint: 0x2B26, name: "WHITE MEDIUM DIAMOND", aliases: &[] },
        Codepoint { codepoint: 0x2B27, name: "BLACK MEDIUM LOZENGE", aliases: &[] },
        Codepoint { codepoint: 0x2B28, name: "WHITE MEDIUM LOZENGE", aliases: &[] },
        Codepoint { codepoint: 0x2B29, name: "BLACK SMALL DIAMOND", aliases: &[] },
        Codepoint { codepoint: 0x2B2A, name: "BLACK SMALL LOZENGE", aliases: &[] },
        Codepoint { codepoint: 0x2B2B, name: "WHITE SMALL LOZENGE", aliases: &[] },
        Codepoint { codepoint: 0x2B2C, name: "BLACK HORIZONTAL ELLIPSE", aliases: &[] },
        Codepoint { codepoint: 0x2B2D, name: "WHITE HORIZONTAL ELLIPSE", aliases: &[] },
        Codepoint { codepoint: 0x2B2E, name: "BLACK VERTICAL ELLIPSE", aliases: &[] },
        Codepoint { codepoint: 0x2B2F, name: "WHITE VERTICAL ELLIPSE", aliases: &[] },
        Codepoint { codepoint: 0x2B30, name: "LEFT ARROW WITH SMALL CIRCLE", aliases: &[] },
        Codepoint { codepoint: 0x2B31, name: "THREE LEFTWARDS ARROWS", aliases: &[] },
        Codepoint { codepoint: 0x2B32, name: "LEFT ARROW WITH CIRCLED PLUS", aliases: &[] },
        Codepoint { codepoint: 0x2B33, name: "LONG LEFTWARDS SQUIGGLE ARROW", aliases: &[] },
        Codepoint { codepoint: 0x2B34, name: "LEFTWARDS TWO-HEADED ARROW WITH VERTICAL STROKE", aliases: &[] },
        Codepoint { codepoint: 0x2B35, name: "LEFTWARDS TWO-HEADED ARROW WITH DOUBLE VERTICAL STROKE", aliases: &[] },
        Codepoint { codepoint: 0x2B36, name: "LEFTWARDS TWO-HEADED ARROW FROM BAR", aliases: &[] },
        Codepoint { codepoint: 0x2B37, name: "LEFTWARDS TWO-HEADED TRIPLE DASH ARROW", aliases: &[] },
        Codepoint { codepoint: 0x2B38, name: "LEFTWARDS ARROW WITH DOTTED STEM", aliases: &[] },
        Codepoint { codepoint: 0x2B39, name: "LEFTWARDS ARROW WITH TAIL WITH VERTICAL STROKE", aliases: &[] },
        Codepoint { codepoint: 0x2B3A, name: "LEFTWARDS ARROW WITH TAIL WITH DOUBLE VERTICAL STROKE", aliases: &[] },
        Codepoint { codepoint: 0x2B3B, name: "LEFTWARDS TWO-HEADED ARROW WITH TAIL", aliases: &[] },
        Codepoint { codepoint: 0x2B3C, name: "LEFTWARDS TWO-HEADED ARROW WITH TAIL WITH VERTICAL STROKE", aliases: &[] },
        Codepoint { codepoint: 0x2B3D, name: "LEFTWARDS TWO-HEADED ARROW WITH TAIL WITH DOUBLE VERTICAL STROKE", aliases: &[] },
        Codepoint { codepoint: 0x2B3E, name: "LEFTWARDS ARROW THROUGH X", aliases: &[] },
        Codepoint { codepoint: 0x2B3F, name: "WAVE ARROW POINTING DIRECTLY LEFT", aliases: &[] },
        Codepoint { codepoint: 0x2B40, name: "EQUALS SIGN ABOVE LEFTWARDS ARROW", aliases: &[] },
        Codepoint { codepoint: 0x2B41, name: "REVERSE TILDE OPERATOR ABOVE LEFTWARDS ARROW", aliases: &[] },
        Codepoint { codepoint: 0x2B42, name: "LEFTWARDS ARROW ABOVE REVERSE ALMOST EQUAL TO", aliases: &[] },
        Codepoint { codepoint: 0x2B43, name: "RIGHTWARDS ARROW THROUGH GREATER-THAN", aliases: &[] },
        Codepoint { codepoint: 0x2B44, name: "RIGHTWARDS ARROW THROUGH SUPERSET", aliases: &[] },
        Codepoint { codepoint: 0x2B45, name: "LEFTWARDS QUADRUPLE ARROW", aliases: &[] },
        Codepoint { codepoint: 0x2B46, name: "RIGHTWARDS QUADRUPLE ARROW", aliases: &[] },
        Codepoint { codepoint: 0x2B47, name: "REVERSE TILDE OPERATOR ABOVE RIGHTWARDS ARROW", aliases: &[] },
        Codepoint { codepoint: 0x2B48, name: "RIGHTWARDS ARROW ABOVE REVERSE ALMOST EQUAL TO", aliases: &[] },
        Codepoint { codepoint: 0x2B49, name: "TILDE OPERATOR ABOVE LEFTWARDS ARROW", aliases: &[] },
        Codepoint { codepoint: 0x2B4A, name: "LEFTWARDS ARROW ABOVE ALMOST EQUAL TO", aliases: &[] },
        Codepoint { codepoint: 0x2B4B, name: "LEFTWARDS ARROW ABOVE REVERSE TILDE OPERATOR", aliases: &[] },
        Codepoint { codepoint: 0x2B4C, name: "RIGHTWARDS ARROW ABOVE REVERSE TILDE OPERATOR", aliases: &[] },
        Codepoint { codepoint: 0x2B4D, name: "DOWNWARDS TRIANGLE-HEADED ZIGZAG ARROW", aliases: &[] },
    ];
    assert(v@ =~= codepoint_table_253());
    v
}

pub open spec fn codepoint_table_254() -> Seq<Codepoint> {
    seq![
        Codepoint { codepoint: 0x2B4E, name: "SHORT SLANTED NORTH ARROW", aliases: &[] },
        Codepoint { codepoint: 0x2B4F, name: "SHORT BACKSLANTED SOUTH ARROW", aliases: &[] },
        Codepoint { codepoint: 0x2B50, name: "WHITE MEDIUM STAR", aliases: &[] },
        Codepoint { codepoint: 0x2B51, name: "BLACK SMALL STAR", aliases: &[] },
        Codepoint { codepoint: 0x2B52, name: "WHITE SMALL STAR", aliases: &[] },
        Codepoint { codepoint: 0x2B53, name: "BLACK RIGHT-POINTING PENTAGON", aliases: &[] },
        Codepoint { codepoint: 0x2B54, name: "WHITE RIGHT-POINTING PENTAGON", aliases: &[] },
        Codepoint { codepoint: 0x2B55, name: "HEAVY LARGE CIRCLE", aliases: &[] },
        Codepoint { codepoint: 0x2B56, name: "HEAVY OVAL WITH OVAL INSIDE", aliases: &[] },
        Codepoint { codepoint: 0x2B57, name: "HEAVY CIRCLE WITH CIRCLE INSIDE", aliases: &[] },
        Codepoint { codepoint: 0x2B58, name: "HEAVY CIRCLE", aliases: &[] },
        Codepoint { codepoint: 0x2B59, name: "HEAVY CIRCLED SALTIRE", aliases: &[] },
        Codepoint { codepoint: 0x2B5A, name: "SLANTED NORTH ARROW WITH HOOKED HEAD", aliases: &[] },
        Codepoint { codepoint: 0x2B5B, name: "BACKSLANTED SOUTH ARROW WITH HOOKED TAIL", aliases: &[] },
        Codepoint { codepoint: 0x2B5C, name: "SLANTED NORTH ARROW WITH HORIZONTAL TAIL", aliases: &[] },
        Codepoint { codepoint: 0x2B5D, name: "BACKSLANTED SOUTH ARROW WITH HORIZONTAL TAIL", aliases: &[] },
        Codepoint { codepoint: 0x2B5E, name: "BENT ARROW POINTING DOWNWARDS THEN NORTH EAST", aliases: &[] },
        Codepoint { codepoint: 0x2B5F, name: "SHORT BENT ARROW POINTING DOWNWARDS THEN NORTH EAST", aliases: &[] },
        Codepoint { codepoint: 0x2B60, name: "LEFTWARDS TRIANGLE-HEADED ARROW", aliases: &[] },
        Codepoint { codepoint: 0x2B61, name: "UPWARDS TRIANGLE-HEADED ARROW", aliases: &[] },
        Codepoint { codepoint: 0x2B62, name: "RIGHTWARDS TRIANGLE-HEADED ARROW", aliases: &[] },
        Codepoint { codepoint: 0x2B63, name: "DOWNWARDS TRIANGLE-HEADED ARROW", aliases: &[] },
        Codepoint { codepoint: 0x2B64, name: "LEFT RIGHT TRIANGLE-HEADED ARROW", aliases: &[] },
        Codepoint { codepoint: 0x2B65, name: "UP DOWN TRIANGLE-HEADED ARROW", aliases: &[] },
        Codepoint { codepoint: 0x2B66, name: "NORTH WEST TRIANGLE-HEADED ARROW", aliases: &[] },
        Codepoint { codepoint: 0x2B67, name: "NORTH EAST TRIANGLE-HEADED ARROW", aliases: &[] },
        Codepoint { codepoint: 0x2B68, name: "SOUTH EAST TRIANGLE-HEADED ARROW", aliases: &[] },
        Codepoint { codepoint: 0x2B69, name: "SOUTH WEST TRIANGLE-HEADED ARROW", aliases: &[] },
        Codepoint { codepoint: 0x2B6A, name: "LEFTWARDS TRIANGLE-HEADED DASHED ARROW", aliases: &[] },
        Codepoint { codepoint: 0x2B6B, name: "UPWARDS TRIANGLE-HEADED DASHED ARROW", aliases: &[] },
        Codepoint { codepoint: 0x2B6C, name: "RIGHTWARDS TRIANGLE-HEADED DASHED ARROW", aliases: &[] },
        Codepoint { codepoint: 0x2B6D, name: "DOWNWARDS TRIANGLE-HEADED DASHED ARROW", aliases: &[] },
        Codepoint { codepoint: 0x2B6E, name: "CLOCKWISE TRIANGLE-HEADED OPEN CIRCLE ARROW", aliases: &[] },
        Codepoint { codepoint: 0x2B6F, name: "ANTICLOCKWISE TRIANGLE-HEADED OPEN CIRCLE ARROW", aliases: &[] },
        Codepoint { codepoint: 0x2B70, name: "LEFTWARDS TRIANGLE-HEADED ARROW TO BAR", aliases: &[] },
        Codepoint { codepoint: 0x2B71, name: "UPWARDS TRIANGLE-HEADED ARROW TO BAR", aliases: &[] },
        Codepoint { codepoint: 0x2B72, name: "RIGHTWARDS TRIANGLE-HEADED ARROW TO BAR", aliases: &[] },
        Codepoint { codepoint: 0x2B73, name: "DOWNWARDS TRIANGLE-HEADED ARROW TO BAR", aliases: &[] },
        Codepoint { codepoint: 0x2B76, name: "NORTH WEST TRIANGLE-HEADED ARROW TO BAR", aliases: &[] },
        Codepoint { codepoint: 0x2B77, name: "NORTH EAST TRIANGLE-HEADED ARROW TO BAR", aliases: &[] },
    ]
}

fn all_codepoints_254() -> (v: Vec<Codepoint>)
    ensures
        v@ == codepoint_table_254(),
{
    let v = vec![
        Codepoint { codepoint: 0x2B4E, name: "SHORT SLANTED NORTH ARROW", aliases: &[] },
        Codepoint { codepoint: 0x2B4F, name: "SHORT BACKSLANTED SOUTH ARROW", aliases: &[] },
        Codepoint { codepoint: 0x2B50, name: "WHITE MEDIUM STAR", aliases: &[] },
        Codepoint { codepoint: 0x2B51, name: "BLACK SMALL STAR", aliases: &[] },
        Codepoint { codepoint: 0x2B52, name: "WHITE SMALL STAR", aliases: &[] },
        Codepoint { codepoint: 0x2B53, name: "BLACK RIGHT-POINTING PENTAGON", aliases: &[] },
        Codepoint { codepoint: 0x2B54, name: "WHITE RIGHT-POINTING PENTAGON", aliases: &[] },
        Codepoint { codepoint: 0x2B55, name: "HEAVY LARGE CIRCLE", aliases: &[] },
        Codepoint { codepoint: 0x2B56, name: "HEAVY OVAL WITH OVAL INSIDE", aliases: &[] },
        Codepoint { codepoint: 0x2B57, name: "HEAVY CIRCLE WITH CIRCLE INSIDE", aliases: &[] },
        Codepoint { codepoint: 0x2B58, name: "HEAVY CIRCLE", aliases: &[] },
        Codepoint { codepoint: 0x2B59, name: "HEAVY CIRCLED SALTIRE", aliases: &[] },
        Codepoint { codepoint: 0x2B5A, name: "SLANTED NORTH ARROW WITH HOOKED HEAD", aliases: &[] },
        Codepoint { codepoint: 0x2B5B, name: "BACKSLANTED SOUTH ARROW WITH HOOKED TAIL", aliases: &[] },
        Codepoint { codepoint: 0x2B5C, name: "SLANTED NORTH ARROW WITH HORIZONTAL TAIL", aliases: &[] },
        Codepoint { codepoint: 0x2B5D, name: "BACKSLANTED SOUTH ARROW WITH HORIZONTAL TAIL", aliases: &[] },
        Codepoint { codepoint: 0x2B5E, name: "BENT ARROW POINTING DOWNWARDS THEN NORTH EAST", aliases: &[] },
        Codepoint { codepoint: 0x2B5F, name: "SHORT BENT ARROW POINTING DOWNWARDS THEN NORTH EAST", aliases: &[] },
        Codepoint { codepoint: 0x2B60, name: "LEFTWARDS TRIANGLE-HEADED ARROW", aliases: &[] },
        Codepoint { codepoint: 0x2B61, name: "UPWARDS TRIANGLE-HEADED ARROW", aliases: &[] },
        Codepoint { codepoint: 0x2B62, name: "RIGHTWARDS TRIANGLE-HEADED ARROW", aliases: &[] },
        Codepoint { codepoint: 0x2B63, name: "DOWNWARDS TRIANGLE-HEADED ARROW", aliases: &[] },
        Codepoint { codepoint: 0x2B64, name: "LEFT RIGHT TRIANGLE-HEADED ARROW", aliases: &[] },
        Codepoint { codepoint: 0x2B65, name: "UP DOWN TRIANGLE-HEADED ARROW", aliases: &[] },
        Codepoint { codepoint: 0x2B66, name: "NORTH WEST TRIANGLE-HEADED ARROW", aliases: &[] },
        Codepoint { codepoint: 0x2B67, name: "NORTH EAST TRIANGLE-HEADED ARROW", aliases: &[] },
        Codepoint { codepoint: 0x2B68, name: "SOUTH EAST TRIANGLE-HEADED ARROW", aliases: &[] },
        Codepoint { codepoint: 0x2B69, name: "SOUTH WEST TRIANGLE-HEADED ARROW", aliases: &[] },
        Codepoint { codepoint: 0x2B6A, name: "LEFTWARDS TRIANGLE-HEADED DASHED ARROW", aliases: &[] },
        Codepoint { codepoint: 0x2B6B, name: "UPWARDS TRIANGLE-HEADED DASHED ARROW", aliases: &[] },
        Codepoint { codepoint: 0x2B6C, name: "RIGHTWARDS TRIANGLE-HEADED DASHED ARROW", aliases: &[] },
        Codepoint { codepoint: 0x2B6D, name: "DOWNWARDS TRIANGLE-HEADED DASHED ARROW", aliases: &[] },
        Codepoint { codepoint: 0x2B6E, name: "CLOCKWISE TRIANGLE-HEADED OPEN CIRCLE ARROW", aliases: &[] },
        Codepoint { codepoint: 0x2B6F, name: "ANTICLOCKWISE TRIANGLE-HEADED OPEN CIRCLE ARROW", aliases: &[] },
        Codepoint { codepoint: 0x2B70, name: "LEFTWARDS TRIANGLE-HEADED ARROW TO BAR", aliases: &[] },
        Codepoint { codepoint: 0x2B71, name: "UPWARDS TRIANGLE-HEADED ARROW TO BAR", aliases: &[] },
        Codepoint { codepoint: 0x2B72, name: "RIGHTWARDS TRIANGLE-HEADED ARROW TO BAR", aliases: &[] },
        Codepoint { codepoint: 0x2B73, name: "DOWNWARDS TRIANGLE-HEADED ARROW TO BAR", aliases: &[] },
        Codepoint { codepoint: 0x2B76, name: "NORTH WEST TRIANGLE-HEADED ARROW TO BAR", aliases: &[] },
        Codepoint { codepoint: 0x2B77, name: "NORTH EAST TRIANGLE-HEADED ARROW TO BAR", aliases: &[] },
    ];
    assert(v@ =~= codepoint_table_254());
    v
}

pub open spec fn codepoint_table_255() -> Seq<Codepoint> {
    seq![
        Codepoint { codepoint: 0x2B78, name: "SOUTH EAST TRIANGLE-HEADED ARROW TO BAR", aliases: &[] },
        Codepoint { codepoint: 0x2B79, name: "SOUTH WEST TRIANGLE-HEADED ARROW TO BAR", aliases: &[] },
        Codepoint { codepoint: 0x2B7A, name: "LEFTWARDS TRIANGLE-HEADED ARROW WITH DOUBLE HORIZONTAL STROKE", aliases: &[] },
        Codepoint { codepoint: 0x2B7B, name: "UPWARDS TRIANGLE-HEADED ARROW WITH DOUBLE HORIZONTAL STROKE", aliases: &[] },
        Codepoint { codepoint: 0x2B7C, name: "RIGHTWARDS TRIANGLE-HEADED ARROW WITH DOUBLE HORIZONTAL STROKE", aliases: &[] },
        Codepoint { codepoint: 0x2B7D, name: "DOWNWARDS TRIANGLE-HEADED ARROW WITH DOUBLE HORIZONTAL STROKE", aliases: &[] },
        Codepoint { codepoint: 0x2B7E, name: "HORIZONTAL TAB KEY", aliases: &[] },
        Codepoint { codepoint: 0x2B7F, name: "VERTICAL TAB KEY", aliases: &[] },
        Codepoint { codepoint: 0x2B80, name: "LEFTWARDS TRIANGLE-HEADED ARROW OVER RIGHTWARDS TRIANGLE-HEADED ARROW", aliases: &[] },
        Codepoint { codepoint: 0x2B81, name: "UPWARDS TRIANGLE-HEADED ARROW LEFTWARDS OF DOWNWARDS TRIANGLE-HEADED ARROW", aliases: &[] },
        Codepoint { codepoint: 0x2B82, name: "RIGHTWARDS TRIANGLE-HEADED ARROW OVER LEFTWARDS TRIANGLE-HEADED ARROW", aliases: &[] },
        Codepoint { codepoint: 0x2B83, name: "DOWNWARDS TRIANGLE-HEADED ARROW LEFTWARDS OF UPWARDS TRIANGLE-HEADED ARROW", aliases: &[] },
        Codepoint { codepoint: 0x2B84, name: "LEFTWARDS TRIANGLE-HEADED PAIRED ARROWS", aliases: &[] },
        Codepoint { codepoint: 0x2B85, name: "UPWARDS TRIANGLE-HEADED PAIRED ARROWS", aliases: &[] },
        Codepoint { codepoint: 0x2B86, name: "RIGHTWARDS TRIANGLE-HEADED PAIRED ARROWS", aliases: &[] },
        Codepoint { codepoint: 0x2B87, name: "DOWNWARDS TRIANGLE-HEADED PAIRED ARROWS", aliases: &[] },
        Codepoint { codepoint: 0x2B88, name: "LEFTWARDS BLACK CIRCLED WHITE ARROW", aliases: &[] },
        Codepoint { codepoint: 0x2B89, name: "UPWARDS BLACK CIRCLED WHITE ARROW", aliases: &[] },
        Codepoint { codepoint: 0x2B8A, name: "RIGHTWARDS BLACK CIRCLED WHITE ARROW", aliases: &[] },
        Codepoint { codepoint: 0x2B8B, name: "DOWNWARDS BLACK CIRCLED WHITE ARROW", aliases: &[] },
        Codepoint { codepoint: 0x2B8C, name: "ANTICLOCKWISE TRIANGLE-HEADED RIGHT U-SHAPED ARROW", aliases: &[] },
        Codepoint { codepoint: 0x2B8D, name: "ANTICLOCKWISE TRIANGLE-HEADED BOTTOM U-SHAPED ARROW", aliases: &[] },
        Codepoint { codepoint: 0x2B8E, name: "ANTICLOCKWISE TRIANGLE-HEADED LEFT U-SHAPED ARROW", aliases: &[] },
        Codepoint { codepoint: 0x2B8F, name: "ANTICLOCKWISE TRIANGLE-HEADED TOP U-SHAPED ARROW", aliases: &[] },
        Codepoint { codepoint: 0x2B90, name: "RETURN LEFT", aliases: &[] },
        Codepoint { codepoint: 0x2B91, name: "RETURN RIGHT", aliases: &[] },
        Codepoint { codepoint: 0x2B92, name: "NEWLINE LEFT", aliases: &[] },
        Codepoint { codepoint: 0x2B93, name: "NEWLINE RIGHT", aliases: &[] },
        Codepoint { codepoint: 0x2B94, name: "FOUR CORNER ARROWS CIRCLING ANTICLOCKWISE", aliases: &[] },
        Codepoint { codepoint: 0x2B95, name: "RIGHTWARDS BLACK ARROW", aliases: &[] },
        Codepoint { codepoint: 0x2B97, name: "SYMBOL FOR TYPE A ELECTRONICS", aliases: &[] },
        Codepoint { codepoint: 0x2B98, name: "THREE-D TOP-LIGHTED LEFTWARDS EQUILATERAL ARROWHEAD", aliases: &[] },
        Codepoint { codepoint: 0x2B99, name: "THREE-D RIGHT-LIGHTED UPWARDS EQUILATERAL ARROWHEAD", aliases: &[] },
        Codepoint { codepoint: 0x2B9A, name: "THREE-D TOP-LIGHTED RIGHTWARDS EQUILATERAL ARROWHEAD", aliases: &[] },
        Codepoint { codepoint: 0x2B9B, name: "THREE-D LEFT-LIGHTED DOWNWARDS EQUILATERAL ARROWHEAD", aliases: &[] },
        Codepoint { codepoint: 0x2B9C, name: "BLACK LEFTWARDS EQUILATERAL ARROWHEAD", aliases: &[] },
        Codepoint { codepoint: 0x2B9D, name: "BLACK UPWARDS EQUILATERAL ARROWHEAD", aliases: &[] },
        Codepoint { codepoint: 0x2B9E, name: "BLACK RIGHTWARDS EQUILATERAL ARROWHEAD", aliases: &[] },
        Codepoint { codepoint: 0x2B9F, name: "BLACK DOWNWARDS EQUILATERAL ARROWHEAD", aliases: &[] },
        Codepoint { codepoint: 0x2BA0, name: "DOWNWARDS TRIANGLE-HEADED ARROW WITH LONG TIP LEFTWARDS", aliases: &[] },
    ]
}

fn all_codepoints_255() -> (v: Vec<Codepoint>)
    ensures
        v@ == codepoint_table_255(),
{
    let v = vec![
        Codepoint { codepoint: 0x2B78, name: "SOUTH EAST TRIANGLE-HEADED ARROW TO BAR", aliases: &[] },
        Codepoint { codepoint: 0x2B79, name: "SOUTH WEST TRIANGLE-HEADED ARROW TO BAR", aliases: &[] },
        Codepoint { codepoint: 0x2B7A, name: "LEFTWARDS TRIANGLE-HEADED ARROW WITH DOUBLE HORIZONTAL STROKE", aliases: &[] },
        Codepoint { codepoint: 0x2B7B, name: "UPWARDS TRIANGLE-HEADED ARROW WITH DOUBLE HORIZONTAL STROKE", aliases: &[] },
        Codepoint { codepoint: 0x2B7C, name: "RIGHTWARDS TRIANGLE-HEADED ARROW WITH DOUBLE HORIZONTAL STROKE", aliases: &[] },
        Codepoint { codepoint: 0x2B7D, name: "DOWNWARDS TRIANGLE-HEADED ARROW WITH DOUBLE HORIZONTAL STROKE", aliases: &[] },
        Codepoint { codepoint: 0x2B7E, name: "HORIZONTAL TAB KEY", aliases: &[] },
        Codepoint { codepoint: 0x2B7F, name: "VERTICAL TAB KEY", aliases: &[] },
        Codepoint { codepoint: 0x2B80, name: "LEFTWARDS TRIANGLE-HEADED ARROW OVER RIGHTWARDS TRIANGLE-HEADED ARROW", aliases: &[] },
        Codepoint { codepoint: 0x2B81, name: "UPWARDS TRIANGLE-HEADED ARROW LEFTWARDS OF DOWNWARDS TRIANGLE-HEADED ARROW", aliases: &[] },
        Codepoint { codepoint: 0x2B82, name: "RIGHTWARDS TRIANGLE-HEADED ARROW OVER LEFTWARDS TRIANGLE-HEADED ARROW", aliases: &[] },
        Codepoint { codepoint: 0x2B83, name: "DOWNWARDS TRIANGLE-HEADED ARROW LEFTWARDS OF UPWARDS TRIANGLE-HEADED ARROW", aliases: &[] },
        Codepoint { codepoint: 0x2B84, name: "LEFTWARDS TRIANGLE-HEADED PAIRED ARROWS", aliases: &[] },
        Codepoint { codepoint: 0x2B85, name: "UPWARDS TRIANGLE-HEADED PAIRED ARROWS", aliases: &[] },
        Codepoint { codepoint: 0x2B86, name: "RIGHTWARDS TRIANGLE-HEADED PAIRED ARROWS", aliases: &[] },
        Codepoint { codepoint: 0x2B87, name: "DOWNWARDS TRIANGLE-HEADED PAIRED ARROWS", aliases: &[] },
        Codepoint { codepoint: 0x2B88, name: "LEFTWARDS BLACK CIRCLED WHITE ARROW", aliases: &[] },
        Codepoint { codepoint: 0x2B89, name: "UPWARDS BLACK CIRCLED WHITE ARROW", aliases: &[] },
        Codepoint { codepoint: 0x2B8A, name: "RIGHTWARDS BLACK CIRCLED WHITE ARROW", aliases: &[] },
        Codepoint { codepoint: 0x2B8B, name: "DOWNWARDS BLACK CIRCLED WHITE ARROW", aliases: &[] },
        Codepoint { codepoint: 0x2B8C, name: "ANTICLOCKWISE TRIANGLE-HEADED RIGHT U-SHAPED ARROW", aliases: &[] },
        Codepoint { codepoint: 0x2B8D, name: "ANTICLOCKWISE TRIANGLE-HEADED BOTTOM U-SHAPED ARROW", aliases: &[] },
        Codepoint { codepoint: 0x2B8E, name: "ANTICLOCKWISE TRIANGLE-HEADED LEFT U-SHAPED ARROW", aliases: &[] },
        Codepoint { codepoint: 0x2B8F, name: "ANTICLOCKWISE TRIANGLE-HEADED TOP U-SHAPED ARROW", aliases: &[] },
        Codepoint { codepoint: 0x2B90, name: "RETURN LEFT", aliases: &[] },
        Codepoint { codepoint: 0x2B91, name: "RETURN RIGHT", aliases: &[] },
        Codepoint { codepoint: 0x2B92, name: "NEWLINE LEFT", aliases: &[] },
        Codepoint { codepoint: 0x2B93, name: "NEWLINE RIGHT", aliases: &[] },
        Codepoint { codepoint: 0x2B94, name: "FOUR CORNER ARROWS CIRCLING ANTICLOCKWISE", aliases: &[] },
        Codepoint { codepoint: 0x2B95, name: "RIGHTWARDS BLACK ARROW", aliases: &[] },
        Codepoint { codepoint: 0x2B97, name: "SYMBOL FOR TYPE A ELECTRONICS", aliases: &[] },
        Codepoint { codepoint: 0x2B98, name: "THREE-D TOP-LIGHTED LEFTWARDS EQUILATERAL ARROWHEAD", aliases: &[] },
        Codepoint { codepoint: 0x2B99, name: "THREE-D RIGHT-LIGHTED UPWARDS EQUILATERAL ARROWHEAD", aliases: &[] },
        Codepoint { codepoint: 0x2B9A, name: "THREE-D TOP-LIGHTED RIGHTWARDS EQUILATERAL ARROWHEAD", aliases: &[] },
        Codepoint { codepoint: 0x2B9B, name: "THREE-D LEFT-LIGHTED DOWNWARDS EQUILATERAL ARROWHEAD", aliases: &[] },
        Codepoint { codepoint: 0x2B9C, name: "BLACK LEFTWARDS EQUILATERAL ARROWHEAD", aliases: &[] },
        Codepoint { codepoint: 0x2B9D, name: "BLACK UPWARDS EQUILATERAL ARROWHEAD", aliases: &[] },
        Codepoint { codepoint: 0x2B9E, name: "BLACK RIGHTWARDS EQUILATERAL ARROWHEAD", aliases: &[] },
        Codepoint { codepoint: 0x2B9F, name: "BLACK DOWNWARDS EQUILATERAL ARROWHEAD", aliases: &[] },
        Codepoint { codepoint: 0x2BA0, name: "DOWNWARDS TRIANGLE-HEADED ARROW WITH LONG TIP LEFTWARDS", aliases: &[] },
    ];
    assert(v@ =~= codepoint_table_255());
    v
}

pub open spec fn codepoint_table_256() -> Seq<Codepoint> {
    seq![
        Codepoint { codepoint: 0x2BA1, name: "DOWNWARDS TRIANGLE-HEADED ARROW WITH LONG TIP RIGHTWARDS", aliases: &[] },
        Codepoint { codepoint: 0x2BA2, name: "UPWARDS TRIANGLE-HEADED ARROW WITH LONG TIP LEFTWARDS", aliases: &[] },
        Codepoint { codepoint: 0x2BA3, name: "UPWARDS TRIANGLE-HEADED ARROW WITH LONG TIP RIGHTWARDS", aliases: &[] },
        Codepoint { codepoint: 0x2BA4, name: "LEFTWARDS TRIANGLE-HEADED ARROW WITH LONG TIP UPWARDS", aliases: &[] },
        Codepoint { codepoint: 0x2BA5, name: "RIGHTWARDS TRIANGLE-HEADED ARROW WITH LONG TIP UPWARDS", aliases: &[] },
        Codepoint { codepoint: 0x2BA6, name: "LEFTWARDS TRIANGLE-HEADED ARROW WITH LONG TIP DOWNWARDS", aliases: &[] },
        Codepoint { codepoint: 0x2BA7, name: "RIGHTWARDS TRIANGLE-HEADED ARROW WITH LONG TIP DOWNWARDS", aliases: &[] },
        Codepoint { codepoint: 0x2BA8, name: "BLACK CURVED DOWNWARDS AND LEFTWARDS ARROW", aliases: &[] },
        Codepoint { codepoint: 0x2BA9, name: "BLACK CURVED DOWNWARDS AND RIGHTWARDS ARROW", aliases: &[] },
        Codepoint { codepoint: 0x2BAA, name: "BLACK CURVED UPWARDS AND LEFTWARDS ARROW", aliases: &[] },
        Codepoint { codepoint: 0x2BAB, name: "BLACK CURVED UPWARDS AND RIGHTWARDS ARROW", aliases: &[] },
        Codepoint { codepoint: 0x2BAC, name: "BLACK CURVED LEFTWARDS AND UPWARDS ARROW", aliases: &[] },
        Codepoint { codepoint: 0x2BAD, name: "BLACK CURVED RIGHTWARDS AND UPWARDS ARROW", aliases: &[] },
        Codepoint { codepoint: 0x2BAE, name: "BLACK CURVED LEFTWARDS AND DOWNWARDS ARROW", aliases: &[] },
        Codepoint { codepoint: 0x2BAF, name: "BLACK CURVED RIGHTWARDS AND DOWNWARDS ARROW", aliases: &[] },
        Codepoint { codepoint: 0x2BB0, name: "RIBBON ARROW DOWN LEFT", aliases: &[] },
        Codepoint { codepoint: 0x2BB1, name: "RIBBON ARROW DOWN RIGHT", aliases: &[] },
        Codepoint { codepoint: 0x2BB2, name: "RIBBON ARROW UP LEFT", aliases: &[] },
        Codepoint { codepoint: 0x2BB3, name: "RIBBON ARROW UP RIGHT", aliases: &[] },
        Codepoint { codepoint: 0x2BB4, name: "RIBBON ARROW LEFT UP", aliases: &[] },
        Codepoint { codepoint: 0x2BB5, name: "RIBBON ARROW RIGHT UP", aliases: &[] },
        Codepoint { codepoint: 0x2BB6, name: "RIBBON ARROW LEFT DOWN", aliases: &[] },
        Codepoint { codepoint: 0x2BB7, name: "RIBBON ARROW RIGHT DOWN", aliases: &[] },
        Codepoint { codepoint: 0x2BB8, name: "UPWARDS WHITE ARROW FROM BAR WITH HORIZONTAL BAR", aliases: &[] },
        Codepoint { codepoint: 0x2BB9, name: "UP ARROWHEAD IN A RECTANGLE BOX", aliases: &[] },
        Codepoint { codepoint: 0x2BBA, name: "OVERLAPPING WHITE SQUARES", aliases: &[] },
        Codepoint { codepoint: 0x2BBB, name: "OVERLAPPING WHITE AND BLACK SQUARES", aliases: &[] },
        Codepoint { codepoint: 0x2BBC, name: "OVERLAPPING BLACK SQUARES", aliases: &[] },
        Codepoint { codepoint: 0x2BBD, name: "BALLOT BOX WITH LIGHT X", aliases: &[] },
        Codepoint { codepoint: 0x2BBE, name: "CIRCLED X", aliases: &[] },
        Codepoint { codepoint: 0x2BBF, name: "CIRCLED BOLD X", aliases: &[] },
        Codepoint { codepoint: 0x2BC0, name: "BLACK SQUARE CENTRED", aliases: &[] },
        Codepoint { codepoint: 0x2BC1, name: "BLACK DIAMOND CENTRED", aliases: &[] },
        Codepoint { codepoint: 0x2BC2, name: "TURNED BLACK PENTAGON", aliases: &[] },
        Codepoint { codepoint: 0x2BC3, name: "HORIZONTAL BLACK OCTAGON", aliases: &[] },
        Codepoint { codepoint: 0x2BC4, name: "BLACK OCTAGON", aliases: &[] },
        Codepoint { codepoint: 0x2BC5, name: "BLACK MEDIUM UP-POINTING TRIANGLE CENTRED", aliases: &[] },
        Codepoint { codepoint: 0x2BC6, name: "BLACK MEDIUM DOWN-POINTING TRIANGLE CENTRED", aliases: &[] },
        Codepoint { codepoint: 0x2BC7, name: "BLACK MEDIUM LEFT-POINTING TRIANGLE CENTRED", aliases: &[] },
        Codepoint { codepoint: 0x2BC8, name: "BLACK MEDIUM RIGHT-POINTING TRIANGLE CENTRED", aliases: &[] },
    ]
}

fn all_codepoints_256() -> (v: Vec<Codepoint>)
    ensures
        v@ == codepoint_table_256(),
{
    let v = vec![
        Codepoint { codepoint: 0x2BA1, name: "DOWNWARDS TRIANGLE-HEADED ARROW WITH LONG TIP RIGHTWARDS", aliases: &[] },
        Codepoint { codepoint: 0x2BA2, name: "UPWARDS TRIANGLE-HEADED ARROW WITH LONG TIP LEFTWARDS", aliases: &[] },
        Codepoint { codepoint: 0x2BA3, name: "UPWARDS TRIANGLE-HEADED ARROW WITH LONG TIP RIGHTWARDS", aliases: &[] },
        Codepoint { codepoint: 0x2BA4, name: "LEFTWARDS TRIANGLE-HEADED ARROW WITH LONG TIP UPWARDS", aliases: &[] },
        Codepoint { codepoint: 0x2BA5, name: "RIGHTWARDS TRIANGLE-HEADED ARROW WITH LONG TIP UPWARDS", aliases: &[] },
        Codepoint { codepoint: 0x2BA6, name: "LEFTWARDS TRIANGLE-HEADED ARROW WITH LONG TIP DOWNWARDS", aliases: &[] },
        Codepoint { codepoint: 0x2BA7, name: "RIGHTWARDS TRIANGLE-HEADED ARROW WITH LONG TIP DOWNWARDS", aliases: &[] },
        Codepoint { codepoint: 0x2BA8, name: "BLACK CURVED DOWNWARDS AND LEFTWARDS ARROW", aliases: &[] },
        Codepoint { codepoint: 0x2BA9, name: "BLACK CURVED DOWNWARDS AND RIGHTWARDS ARROW", aliases: &[] },
        Codepoint { codepoint: 0x2BAA, name: "BLACK CURVED UPWARDS AND LEFTWARDS ARROW", aliases: &[] },
        Codepoint { codepoint: 0x2BAB, name: "BLACK CURVED UPWARDS AND RIGHTWARDS ARROW", aliases: &[] },
        Codepoint { codepoint: 0x2BAC, name: "BLACK CURVED LEFTWARDS AND UPWARDS ARROW", aliases: &[] },
        Codepoint { codepoint: 0x2BAD, name: "BLACK CURVED RIGHTWARDS AND UPWARDS ARROW", aliases: &[] },
        Codepoint { codepoint: 0x2BAE, name: "BLACK CURVED LEFTWARDS AND DOWNWARDS ARROW", aliases: &[] },
        Codepoint { codepoint: 0x2BAF, name: "BLACK CURVED RIGHTWARDS AND DOWNWARDS ARROW", aliases: &[] },
        Codepoint { codepoint: 0x2BB0, name: "RIBBON ARROW DOWN LEFT", aliases: &[] },
        Codepoint { codepoint: 0x2BB1, name: "RIBBON ARROW DOWN RIGHT", aliases: &[] },
        Codepoint { codepoint: 0x2BB2, name: "RIBBON ARROW UP LEFT", aliases: &[] },
        Codepoint { codepoint: 0x2BB3, name: "RIBBON ARROW UP RIGHT", aliases: &[] },
        Codepoint { codepoint: 0x2BB4, name: "RIBBON ARROW LEFT UP", aliases: &[] },
        Codepoint { codepoint: 0x2BB5, name: "RIBBON ARROW RIGHT UP", aliases: &[] },
        Codepoint { codepoint: 0x2BB6, name: "RIBBON ARROW LEFT DOWN", aliases: &[] },
        Codepoint { codepoint: 0x2BB7, name: "RIBBON ARROW RIGHT DOWN", aliases: &[] },
        Codepoint { codepoint: 0x2BB8, name: "UPWARDS WHITE ARROW FROM BAR WITH HORIZONTAL BAR", aliases: &[] },
        Codepoint { codepoint: 0x2BB9, name: "UP ARROWHEAD IN A RECTANGLE BOX", aliases: &[] },
        Codepoint { codepoint: 0x2BBA, name: "OVERLAPPING WHITE SQUARES", aliases: &[] },
        Codepoint { codepoint: 0x2BBB, name: "OVERLAPPING WHITE AND BLACK SQUARES", aliases: &[] },
        Codepoint { codepoint: 0x2BBC, name: "OVERLAPPING BLACK SQUARES", aliases: &[] },
        Codepoint { codepoint: 0x2BBD, name: "BALLOT BOX WITH LIGHT X", aliases: &[] },
        Codepoint { codepoint: 0x2BBE, name: "CIRCLED X", aliases: &[] },
        Codepoint { codepoint: 0x2BBF, name: "CIRCLED BOLD X", aliases: &[] },
        Codepoint { codepoint: 0x2BC0, name: "BLACK SQUARE CENTRED", aliases: &[] },
        Codepoint { codepoint: 0x2BC1, name: "BLACK DIAMOND CENTRED", aliases: &[] },
        Codepoint { codepoint: 0x2BC2, name: "TURNED BLACK PENTAGON", aliases: &[] },
        Codepoint { codepoint: 0x2BC3, name: "HORIZONTAL BLACK OCTAGON", aliases: &[] },
        Codepoint { codepoint: 0x2BC4, name: "BLACK OCTAGON", aliases: &[] },
        Codepoint { codepoint: 0x2BC5, name: "BLACK MEDIUM UP-POINTING TRIANGLE CENTRED", aliases: &[] },
        Codepoint { codepoint: 0x2BC6, name: "BLACK MEDIUM DOWN-POINTING TRIANGLE CENTRED", aliases: &[] },
        Codepoint { codepoint: 0x2BC7, name: "BLACK MEDIUM LEFT-POINTING TRIANGLE CENTRED", aliases: &[] },
        Codepoint { codepoint: 0x2BC8, name: "BLACK MEDIUM RIGHT-POINTING TRIANGLE CENTRED", aliases: &[] },
    ];
    assert(v@ =~= codepoint_table_256());
    v
}

pub open spec fn codepoint_table_257() -> Seq<Codepoint> {
    seq![
        Codepoint { codepoint: 0x2BC9, name: "NEPTUNE FORM TWO", aliases: &[] },
        Codepoint { codepoint: 0x2BCA, name: "TOP HALF BLACK CIRCLE", aliases: &[] },
        Codepoint { codepoint: 0x2BCB, name: "BOTTOM HALF BLACK CIRCLE", aliases: &[] },
        Codepoint { codepoint: 0x2BCC, name: "LIGHT FOUR POINTED BLACK CUSP", aliases: &[] },
        Codepoint { codepoint: 0x2BCD, name: "ROTATED LIGHT FOUR POINTED BLACK CUSP", aliases: &[] },
        Codepoint { codepoint: 0x2BCE, name: "WHITE FOUR POINTED CUSP", aliases: &[] },
        Codepoint { codepoint: 0x2BCF, name: "ROTATED WHITE FOUR POINTED CUSP", aliases: &[] },
        Codepoint { codepoint: 0x2BD0, name: "SQUARE POSITION INDICATOR", aliases: &[] },
        Codepoint { codepoint: 0x2BD1, name: "UNCERTAINTY SIGN", aliases: &[] },
        Codepoint { codepoint: 0x2BD2, name: "GROUP MARK", aliases: &[] },
        Codepoint { codepoint: 0x2BD3, name: "PLUTO FORM TWO", aliases: &[] },
        Codepoint { codepoint: 0x2BD4, name: "PLUTO FORM THREE", aliases: &[] },
        Codepoint { codepoint: 0x2BD5, name: "PLUTO FORM FOUR", aliases: &[] },
        Codepoint { codepoint: 0x2BD6, name: "PLUTO FORM FIVE", aliases: &[] },
        Codepoint { codepoint: 0x2BD7, name: "TRANSPLUTO", aliases: &[] },
        Codepoint { codepoint: 0x2BD8, name: "PROSERPINA", aliases: &[] },
        Codepoint { codepoint: 0x2BD9, name: "ASTRAEA", aliases: &[] },
        Codepoint { codepoint: 0x2BDA, name: "HYGIEA", aliases: &[] },
        Codepoint { codepoint: 0x2BDB, name: "PHOLUS", aliases: &[] },
        Codepoint { codepoint: 0x2BDC, name: "NESSUS", aliases: &[] },
        Codepoint { codepoint: 0x2BDD, name: "WHITE MOON SELENA", aliases: &[] },
        Codepoint { codepoint: 0x2BDE, name: "BLACK DIAMOND ON CROSS", aliases: &[] },
        Codepoint { codepoint: 0x2BDF, name: "TRUE LIGHT MOON ARTA", aliases: &[] },
        Codepoint { codepoint: 0x2BE0, name: "CUPIDO", aliases: &[] },
        Codepoint { codepoint: 0x2BE1, name: "HADES", aliases: &[] },
        Codepoint { codepoint: 0x2BE2, name: "ZEUS", aliases: &[] },
        Codepoint { codepoint: 0x2BE3, name: "KRONOS", aliases: &[] },
        Codepoint { codepoint: 0x2BE4, name: "APOLLON", aliases: &[] },
        Codepoint { codepoint: 0x2BE5, name: "ADMETOS", aliases: &[] },
        Codepoint { codepoint: 0x2BE6, name: "VULCANUS", aliases: &[] },
        Codepoint { codepoint: 0x2BE7, name: "POSEIDON", aliases: &[] },
        Codepoint { codepoint: 0x2BE8, name: "LEFT HALF BLACK STAR", aliases: &[] },
        Codepoint { codepoint: 0x2BE9, name: "RIGHT HALF BLACK STAR", aliases: &[] },
        Codepoint { codepoint: 0x2BEA, name: "STAR WITH LEFT HALF BLACK", aliases: &[] },
        Codepoint { codepoint: 0x2BEB, name: "STAR WITH RIGHT HALF BLACK", aliases: &[] },
        Codepoint { codepoint: 0x2BEC, name: "LEFTWARDS TWO-HEADED ARROW WITH TRIANGLE ARROWHEADS", aliases: &[] },
        Codepoint { codepoint: 0x2BED, name: "UPWARDS TWO-HEADED ARROW WITH TRIANGLE ARROWHEADS", aliases: &[] },
        Codepoint { codepoint: 0x2BEE, name: "RIGHTWARDS TWO-HEADED ARROW WITH TRIANGLE ARROWHEADS", aliases: &[] },
        Codepoint { codepoint: 0x2BEF, name: "DOWNWARDS TWO-HEADED ARROW WITH TRIANGLE ARROWHEADS", aliases: &[] },
        Codepoint { codepoint: 0x2BF0, name: "ERIS FORM ONE", aliases: &[] },
    ]
}

fn all_codepoints_257() -> (v: Vec<Codepoint>)
    ensures
        v@ == codepoint_table_257(),
{
    let v = vec![
        Codepoint { codepoint: 0x2BC9, name: "NEPTUNE FORM TWO", aliases: &[] },
        Codepoint { codepoint: 0x2BCA, name: "TOP HALF BLACK CIRCLE", aliases: &[] },
        Codepoint { codepoint: 0x2BCB, name: "BOTTOM HALF BLACK CIRCLE", aliases: &[] },
        Codepoint { codepoint: 0x2BCC, name: "LIGHT FOUR POINTED BLACK CUSP", aliases: &[] },
        Codepoint { codepoint: 0x2BCD, name: "ROTATED LIGHT FOUR POINTED BLACK CUSP", aliases: &[] },
        Codepoint { codepoint: 0x2BCE, name: "WHITE FOUR POINTED CUSP", aliases: &[] },
        Codepoint { codepoint: 0x2BCF, name: "ROTATED WHITE FOUR POINTED CUSP", aliases: &[] },
        Codepoint { codepoint: 0x2BD0, name: "SQUARE POSITION INDICATOR", aliases: &[] },
        Codepoint { codepoint: 0x2BD1, name: "UNCERTAINTY SIGN", aliases: &[] },
        Codepoint { codepoint: 0x2BD2, name: "GROUP MARK", aliases: &[] },
        Codepoint { codepoint: 0x2BD3, name: "PLUTO FORM TWO", aliases: &[] },
        Codepoint { codepoint: 0x2BD4, name: "PLUTO FORM THREE", aliases: &[] },
        Codepoint { codepoint: 0x2BD5, name: "PLUTO FORM FOUR", aliases: &[] },
        Codepoint { codepoint: 0x2BD6, name: "PLUTO FORM FIVE", aliases: &[] },
        Codepoint { codepoint: 0x2BD7, name: "TRANSPLUTO", aliases: &[] },
        Codepoint { codepoint: 0x2BD8, name: "PROSERPINA", aliases: &[] },
        Codepoint { codepoint: 0x2BD9, name: "ASTRAEA", aliases: &[] },
        Codepoint { codepoint: 0x2BDA, name: "HYGIEA", aliases: &[] },
        Codepoint { codepoint: 0x2BDB, name: "PHOLUS", aliases: &[] },
        Codepoint { codepoint: 0x2BDC, name: "NESSUS", aliases: &[] },
        Codepoint { codepoint: 0x2BDD, name: "WHITE MOON SELENA", aliases: &[] },
        Codepoint { codepoint: 0x2BDE, name: "BLACK DIAMOND ON CROSS", aliases: &[] },
        Codepoint { codepoint: 0x2BDF, name: "TRUE LIGHT MOON ARTA", aliases: &[] },
        Codepoint { codepoint: 0x2BE0, name: "CUPIDO", aliases: &[] },
        Codepoint { codepoint: 0x2BE1, name: "HADES", aliases: &[] },
        Codepoint { codepoint: 0x2BE2, name: "ZEUS", aliases: &[] },
        Codepoint { codepoint: 0x2BE3, name: "KRONOS", aliases: &[] },
        Codepoint { codepoint: 0x2BE4, name: "APOLLON", aliases: &[] },
        Codepoint { codepoint: 0x2BE5, name: "ADMETOS", aliases: &[] },
        Codepoint { codepoint: 0x2BE6, name: "VULCANUS", aliases: &[] },
        Codepoint { codepoint: 0x2BE7, name: "POSEIDON", aliases: &[] },
        Codepoint { codepoint: 0x2BE8, name: "LEFT HALF BLACK STAR", aliases: &[] },
        Codepoint { codepoint: 0x2BE9, name: "RIGHT HALF BLACK STAR", aliases: &[] },
        Codepoint { codepoint: 0x2BEA, name: "STAR WITH LEFT HALF BLACK", aliases: &[] },
        Codepoint { codepoint: 0x2BEB, name: "STAR WITH RIGHT HALF BLACK", aliases: &[] },
        Codepoint { codepoint: 0x2BEC, name: "LEFTWARDS TWO-HEADED ARROW WITH TRIANGLE ARROWHEADS", aliases: &[] },
        Codepoint { codepoint: 0x2BED, name: "UPWARDS TWO-HEADED ARROW WITH TRIANGLE ARROWHEADS", aliases: &[] },
        Codepoint { codepoint: 0x2BEE, name: "RIGHTWARDS TWO-HEADED ARROW WITH TRIANGLE ARROWHEADS", aliases: &[] },
        Codepoint { codepoint: 0x2BEF, name: "DOWNWARDS TWO-HEADED ARROW WITH TRIANGLE ARROWHEADS", aliases: &[] },
        Codepoint { codepoint: 0x2BF0, name: "ERIS FORM ONE", aliases: &[] },
    ];
    assert(v@ =~= codepoint_table_257());
    v
}

pub open spec fn codepoint_table_258() -> Seq<Codepoint> {
    seq![
        Codepoint { codepoint: 0x2BF1, name: "ERIS FORM TWO", aliases: &[] },
        Codepoint { codepoint: 0x2BF2, name: "SEDNA", aliases: &[] },
        Codepoint { codepoint: 0x2BF3, name: "RUSSIAN ASTROLOGICAL SYMBOL VIGINTILE", aliases: &[] },
        Codepoint { codepoint: 0x2BF4, name: "RUSSIAN ASTROLOGICAL SYMBOL NOVILE", aliases: &[] },
        Codepoint { codepoint: 0x2BF5, name: "RUSSIAN ASTROLOGICAL SYMBOL QUINTILE", aliases: &[] },
        Codepoint { codepoint: 0x2BF6, name: "RUSSIAN ASTROLOGICAL SYMBOL BINOVILE", aliases: &[] },
        Codepoint { codepoint: 0x2BF7, name: "RUSSIAN ASTROLOGICAL SYMBOL SENTAGON", aliases: &[] },
        Codepoint { codepoint: 0x2BF8, name: "RUSSIAN ASTROLOGICAL SYMBOL TREDECILE", aliases: &[] },
        Codepoint { codepoint: 0x2BF9, name: "EQUALS SIGN WITH INFINITY BELOW", aliases: &[] },
        Codepoint { codepoint: 0x2BFA, name: "UNITED SYMBOL", aliases: &[] },
        Codepoint { codepoint: 0x2BFB, name: "SEPARATED SYMBOL", aliases: &[] },
        Codepoint { codepoint: 0x2BFC, name: "DOUBLED SYMBOL", aliases: &[] },
        Codepoint { codepoint: 0x2BFD, name: "PASSED SYMBOL", aliases: &[] },
        Codepoint { codepoint: 0x2BFE, name: "REVERSED RIGHT ANGLE", aliases: &[] },
        Codepoint { codepoint: 0x2BFF, name: "HELLSCHREIBER PAUSE SYMBOL", aliases: &[] },
        Codepoint { codepoint: 0x2C00, name: "GLAGOLITIC CAPITAL LETTER AZU", aliases: &[] },
        Codepoint { codepoint: 0x2C01, name: "GLAGOLITIC CAPITAL LETTER BUKY", aliases: &[] },
        Codepoint { codepoint: 0x2C02, name: "GLAGOLITIC CAPITAL LETTER VEDE", aliases: &[] },
        Codepoint { codepoint: 0x2C03, name: "GLAGOLITIC CAPITAL LETTER GLAGOLI", aliases: &[] },
        Codepoint { codepoint: 0x2C04, name: "GLAGOLITIC CAPITAL LETTER DOBRO", aliases: &[] },
        Codepoint { codepoint: 0x2C05, name: "GLAGOLITIC CAPITAL LETTER YESTU", aliases: &[] },
        Codepoint { codepoint: 0x2C06, name: "GLAGOLITIC CAPITAL LETTER ZHIVETE", aliases: &[] },
        Codepoint { codepoint: 0x2C07, name: "GLAGOLITIC CAPITAL LETTER DZELO", aliases: &[] },
        Codepoint { codepoint: 0x2C08, name: "GLAGOLITIC CAPITAL LETTER ZEMLJA", aliases: &[] },
        Codepoint { codepoint: 0x2C09, name: "GLAGOLITIC CAPITAL LETTER IZHE", aliases: &[] },
        Codepoint { codepoint: 0x2C0A, name: "GLAGOLITIC CAPITAL LETTER INITIAL IZHE", aliases: &[] },
        Codepoint { codepoint: 0x2C0B, name: "GLAGOLITIC CAPITAL LETTER I", aliases: &[] },
        Codepoint { codepoint: 0x2C0C, name: "GLAGOLITIC CAPITAL LETTER DJERVI", aliases: &[] },
        Codepoint { codepoint: 0x2C0D, name: "GLAGOLITIC CAPITAL LETTER KAKO", aliases: &[] },
        Codepoint { codepoint: 0x2C0E, name: "GLAGOLITIC CAPITAL LETTER LJUDIJE", aliases: &[] },
        Codepoint { codepoint: 0x2C0F, name: "GLAGOLITIC CAPITAL LETTER MYSLITE", aliases: &[] },
        Codepoint { codepoint: 0x2C10, name: "GLAGOLITIC CAPITAL LETTER NASHI", aliases: &[] },
        Codepoint { codepoint: 0x2C11, name: "GLAGOLITIC CAPITAL LETTER ONU", aliases: &[] },
        Codepoint { codepoint: 0x2C12, name: "GLAGOLITIC CAPITAL LETTER POKOJI", aliases: &[] },
        Codepoint { codepoint: 0x2C13, name: "GLAGOLITIC CAPITAL LETTER RITSI", aliases: &[] },
        Codepoint { codepoint: 0x2C14, name: "GLAGOLITIC CAPITAL LETTER SLOVO", aliases: &[] },
        Codepoint { codepoint: 0x2C15, name: "GLAGOLITIC CAPITAL LETTER TVRIDO", aliases: &[] },
        Codepoint { codepoint: 0x2C16, name: "GLAGOLITIC CAPITAL LETTER UKU", aliases: &[] },
        Codepoint { codepoint: 0x2C17, name: "GLAGOLITIC CAPITAL LETTER FRITU", aliases: &[] },
        Codepoint { codepoint: 0x2C18, name: "GLAGOLITIC CAPITAL LETTER HERU", aliases: &[] },
    ]
}

fn all_codepoints_258() -> (v: Vec<Codepoint>)
    ensures
        v@ == codepoint_table_258(),
{
    let v = vec![
        Codepoint { codepoint: 0x2BF1, name: "ERIS FORM TWO", aliases: &[] },
        Codepoint { codepoint: 0x2BF2, name: "SEDNA", aliases: &[] },
        Codepoint { codepoint: 0x2BF3, name: "RUSSIAN ASTROLOGICAL SYMBOL VIGINTILE", aliases: &[] },
        Codepoint { codepoint: 0x2BF4, name: "RUSSIAN ASTROLOGICAL SYMBOL NOVILE", aliases: &[] },
        Codepoint { codepoint: 0x2BF5, name: "RUSSIAN ASTROLOGICAL SYMBOL QUINTILE", aliases: &[] },
        Codepoint { codepoint: 0x2BF6, name: "RUSSIAN ASTROLOGICAL SYMBOL BINOVILE", aliases: &[] },
        Codepoint { codepoint: 0x2BF7, name: "RUSSIAN ASTROLOGICAL SYMBOL SENTAGON", aliases: &[] },
        Codepoint { codepoint: 0x2BF8, name: "RUSSIAN ASTROLOGICAL SYMBOL TREDECILE", aliases: &[] },
        Codepoint { codepoint: 0x2BF9, name: "EQUALS SIGN WITH INFINITY BELOW", aliases: &[] },
        Codepoint { codepoint: 0x2BFA, name: "UNITED SYMBOL", aliases: &[] },
        Codepoint { codepoint: 0x2BFB, name: "SEPARATED SYMBOL", aliases: &[] },
        Codepoint { codepoint: 0x2BFC, name: "DOUBLED SYMBOL", aliases: &[] },
        Codepoint { codepoint: 0x2BFD, name: "PASSED SYMBOL", aliases: &[] },
        Codepoint { codepoint: 0x2BFE, name: "REVERSED RIGHT ANGLE", aliases: &[] },
        Codepoint { codepoint: 0x2BFF, name: "HELLSCHREIBER PAUSE SYMBOL", aliases: &[] },
        Codepoint { codepoint: 0x2C00, name: "GLAGOLITIC CAPITAL LETTER AZU", aliases: &[] },
        Codepoint { codepoint: 0x2C01, name: "GLAGOLITIC CAPITAL LETTER BUKY", aliases: &[] },
        Codepoint { codepoint: 0x2C02, name: "GLAGOLITIC CAPITAL LETTER VEDE", aliases: &[] },
        Codepoint { codepoint: 0x2C03, name: "GLAGOLITIC CAPITAL LETTER GLAGOLI", aliases: &[] },
        Codepoint { codepoint: 0x2C04, name: "GLAGOLITIC CAPITAL LETTER DOBRO", aliases: &[] },
        Codepoint { codepoint: 0x2C05, name: "GLAGOLITIC CAPITAL LETTER YESTU", aliases: &[] },
        Codepoint { codepoint: 0x2C06, name: "GLAGOLITIC CAPITAL LETTER ZHIVETE", aliases: &[] },
        Codepoint { codepoint: 0x2C07, name: "GLAGOLITIC CAPITAL LETTER DZELO", aliases: &[] },
        Codepoint { codepoint: 0x2C08, name: "GLAGOLITIC CAPITAL LETTER ZEMLJA", aliases: &[] },
        Codepoint { codepoint: 0x2C09, name: "GLAGOLITIC CAPITAL LETTER IZHE", aliases: &[] },
        Codepoint { codepoint: 0x2C0A, name: "GLAGOLITIC CAPITAL LETTER INITIAL IZHE", aliases: &[] },
        Codepoint { codepoint: 0x2C0B, name: "GLAGOLITIC CAPITAL LETTER I", aliases: &[] },
        Codepoint { codepoint: 0x2C0C, name: "GLAGOLITIC CAPITAL LETTER DJERVI", aliases: &[] },
        Codepoint { codepoint: 0x2C0D, name: "GLAGOLITIC CAPITAL LETTER KAKO", aliases: &[] },
        Codepoint { codepoint: 0x2C0E, name: "GLAGOLITIC CAPITAL LETTER LJUDIJE", aliases: &[] },
        Codepoint { codepoint: 0x2C0F, name: "GLAGOLITIC CAPITAL LETTER MYSLITE", aliases: &[] },
        Codepoint { codepoint: 0x2C10, name: "GLAGOLITIC CAPITAL LETTER NASHI", aliases: &[] },
        Codepoint { codepoint: 0x2C11, name: "GLAGOLITIC CAPITAL LETTER ONU", aliases: &[] },
        Codepoint { codepoint: 0x2C12, name: "GLAGOLITIC CAPITAL LETTER POKOJI", aliases: &[] },
        Codepoint { codepoint: 0x2C13, name: "GLAGOLITIC CAPITAL LETTER RITSI", aliases: &[] },
        Codepoint { codepoint: 0x2C14, name: "GLAGOLITIC CAPITAL LETTER SLOVO", aliases: &[] },
        Codepoint { codepoint: 0x2C15, name: "GLAGOLITIC CAPITAL LETTER TVRIDO", aliases: &[] },
        Codepoint { codepoint: 0x2C16, name: "GLAGOLITIC CAPITAL LETTER UKU", aliases: &[] },
        Codepoint { codepoint: 0x2C17, name: "GLAGOLITIC CAPITAL LETTER FRITU", aliases: &[] },
        Codepoint { codepoint: 0x2C18, name: "GLAGOLITIC CAPITAL LETTER HERU", aliases: &[] },
    ];
    assert(v@ =~= codepoint_table_258());
    v
}

pub open spec fn codepoint_table_259() -> Seq<Codepoint> {
    seq![
        Codepoint { codepoint: 0x2C19, name: "GLAGOLITIC CAPITAL LETTER OTU", aliases: &[] },
        Codepoint { codepoint: 0x2C1A, name: "GLAGOLITIC CAPITAL LETTER PE", aliases: &[] },
        Codepoint { codepoint: 0x2C1B, name: "GLAGOLITIC CAPITAL LETTER SHTA", aliases: &[] },
        Codepoint { codepoint: 0x2C1C, name: "GLAGOLITIC CAPITAL LETTER TSI", aliases: &[] },
        Codepoint { codepoint: 0x2C1D, name: "GLAGOLITIC CAPITAL LETTER CHRIVI", aliases: &[] },
        Codepoint { codepoint: 0x2C1E, name: "GLAGOLITIC CAPITAL LETTER SHA", aliases: &[] },
        Codepoint { codepoint: 0x2C1F, name: "GLAGOLITIC CAPITAL LETTER YERU", aliases: &[] },
        Codepoint { codepoint: 0x2C20, name: "GLAGOLITIC CAPITAL LETTER YERI", aliases: &[] },
        Codepoint { codepoint: 0x2C21, name: "GLAGOLITIC CAPITAL LETTER YATI", aliases: &[] },
        Codepoint { codepoint: 0x2C22, name: "GLAGOLITIC CAPITAL LETTER SPIDERY HA", aliases: &[] },
        Codepoint { codepoint: 0x2C23, name: "GLAGOLITIC CAPITAL LETTER YU", aliases: &[] },
        Codepoint { codepoint: 0x2C24, name: "GLAGOLITIC CAPITAL LETTER SMALL YUS", aliases: &[] },
        Codepoint { codepoint: 0x2C25, name: "GLAGOLITIC CAPITAL LETTER SMALL YUS WITH TAIL", aliases: &[] },
        Codepoint { codepoint: 0x2C26, name: "GLAGOLITIC CAPITAL LETTER YO", aliases: &[] },
        Codepoint { codepoint: 0x2C27, name: "GLAGOLITIC CAPITAL LETTER IOTATED SMALL YUS", aliases: &[] },
        Codepoint { codepoint: 0x2C28, name: "GLAGOLITIC CAPITAL LETTER BIG YUS", aliases: &[] },
        Codepoint { codepoint: 0x2C29, name: "GLAGOLITIC CAPITAL LETTER IOTATED BIG YUS", aliases: &[] },
        Codepoint { codepoint: 0x2C2A, name: "GLAGOLITIC CAPITAL LETTER FITA", aliases: &[] },
        Codepoint { codepoint: 0x2C2B, name: "GLAGOLITIC CAPITAL LETTER IZHITSA", aliases: &[] },
        Codepoint { codepoint: 0x2C2C, name: "GLAGOLITIC CAPITAL LETTER SHTAPIC", aliases: &[] },
        Codepoint { codepoint: 0x2C2D, name: "GLAGOLITIC CAPITAL LETTER TROKUTASTI A", aliases: &[] },
        Codepoint { codepoint: 0x2C2E, name: "GLAGOLITIC CAPITAL LETTER LATINATE MYSLITE", aliases: &[] },
        Codepoint { codepoint: 0x2C2F, name: "GLAGOLITIC CAPITAL LETTER CAUDATE CHRIVI", aliases: &[] },
        Codepoint { codepoint: 0x2C30, name: "GLAGOLITIC SMALL LETTER AZU", aliases: &[] },
        Codepoint { codepoint: 0x2C31, name: "GLAGOLITIC SMALL LETTER BUKY", aliases: &[] },
        Codepoint { codepoint: 0x2C32, name: "GLAGOLITIC SMALL LETTER VEDE", aliases: &[] },
        Codepoint { codepoint: 0x2C33, name: "GLAGOLITIC SMALL LETTER GLAGOLI", aliases: &[] },
        Codepoint { codepoint: 0x2C34, name: "GLAGOLITIC SMALL LETTER DOBRO", aliases: &[] },
        Codepoint { codepoint: 0x2C35, name: "GLAGOLITIC SMALL LETTER YESTU", aliases: &[] },
        Codepoint { codepoint: 0x2C36, name: "GLAGOLITIC SMALL LETTER ZHIVETE", aliases: &[] },
        Codepoint { codepoint: 0x2C37, name: "GLAGOLITIC SMALL LETTER DZELO", aliases: &[] },
        Codepoint { codepoint: 0x2C38, name: "GLAGOLITIC SMALL LETTER ZEMLJA", aliases: &[] },
        Codepoint { codepoint: 0x2C39, name: "GLAGOLITIC SMALL LETTER IZHE", aliases: &[] },
        Codepoint { codepoint: 0x2C3A, name: "GLAGOLITIC SMALL LETTER INITIAL IZHE", aliases: &[] },
        Codepoint { codepoint: 0x2C3B, name: "GLAGOLITIC SMALL LETTER I", aliases: &[] },
        Codepoint { codepoint: 0x2C3C, name: "GLAGOLITIC SMALL LETTER DJERVI", aliases: &[] },
        Codepoint { codepoint: 0x2C3D, name: "GLAGOLITIC SMALL LETTER KAKO", aliases: &[] },
        Codepoint { codepoint: 0x2C3E, name: "GLAGOLITIC SMALL LETTER LJUDIJE", aliases: &[] },
        Codepoint { codepoint: 0x2C3F, name: "GLAGOLITIC SMALL LETTER MYSLITE", aliases: &[] },
        Codepoint { codepoint: 0x2C40, name: "GLAGOLITIC SMALL LETTER NASHI", aliases: &[] },
    ]
}

fn all_codepoints_259() -> (v: Vec<Codepoint>)
    ensures
        v@ == codepoint_table_259(),
{
    let v = vec![
        Codepoint { codepoint: 0x2C19, name: "GLAGOLITIC CAPITAL LETTER OTU", aliases: &[] },
        Codepoint { codepoint: 0x2C1A, name: "GLAGOLITIC CAPITAL LETTER PE", aliases: &[] },
        Codepoint { codepoint: 0x2C1B, name: "GLAGOLITIC CAPITAL LETTER SHTA", aliases: &[] },
        Codepoint { codepoint: 0x2C1C, name: "GLAGOLITIC CAPITAL LETTER TSI", aliases: &[] },
        Codepoint { codepoint: 0x2C1D, name: "GLAGOLITIC CAPITAL LETTER CHRIVI", aliases: &[] },
        Codepoint { codepoint: 0x2C1E, name: "GLAGOLITIC CAPITAL LETTER SHA", aliases: &[] },
        Codepoint { codepoint: 0x2C1F, name: "GLAGOLITIC CAPITAL LETTER YERU", aliases: &[] },
        Codepoint { codepoint: 0x2C20, name: "GLAGOLITIC CAPITAL LETTER YERI", aliases: &[] },
        Codepoint { codepoint: 0x2C21, name: "GLAGOLITIC CAPITAL LETTER YATI", aliases: &[] },
        Codepoint { codepoint: 0x2C22, name: "GLAGOLITIC CAPITAL LETTER SPIDERY HA", aliases: &[] },
        Codepoint { codepoint: 0x2C23, name: "GLAGOLITIC CAPITAL LETTER YU", aliases: &[] },
        Codepoint { codepoint: 0x2C24, name: "GLAGOLITIC CAPITAL LETTER SMALL YUS", aliases: &[] },
        Codepoint { codepoint: 0x2C25, name: "GLAGOLITIC CAPITAL LETTER SMALL YUS WITH TAIL", aliases: &[] },
        Codepoint { codepoint: 0x2C26, name: "GLAGOLITIC CAPITAL LETTER YO", aliases: &[] },
        Codepoint { codepoint: 0x2C27, name: "GLAGOLITIC CAPITAL LETTER IOTATED SMALL YUS", aliases: &[] },
        Codepoint { codepoint: 0x2C28, name: "GLAGOLITIC CAPITAL LETTER BIG YUS", aliases: &[] },
        Codepoint { codepoint: 0x2C29, name: "GLAGOLITIC CAPITAL LETTER IOTATED BIG YUS", aliases: &[] },
        Codepoint { codepoint: 0x2C2A, name: "GLAGOLITIC CAPITAL LETTER FITA", aliases: &[] },
        Codepoint { codepoint: 0x2C2B, name: "GLAGOLITIC CAPITAL LETTER IZHITSA", aliases: &[] },
        Codepoint { codepoint: 0x2C2C, name: "GLAGOLITIC CAPITAL LETTER SHTAPIC", aliases: &[] },
        Codepoint { codepoint: 0x2C2D, name: "GLAGOLITIC CAPITAL LETTER TROKUTASTI A", aliases: &[] },
        Codepoint { codepoint: 0x2C2E, name: "GLAGOLITIC CAPITAL LETTER LATINATE MYSLITE", aliases: &[] },
        Codepoint { codepoint: 0x2C2F, name: "GLAGOLITIC CAPITAL LETTER CAUDATE CHRIVI", aliases: &[] },
        Codepoint { codepoint: 0x2C30, name: "GLAGOLITIC SMALL LETTER AZU", aliases: &[] },
        Codepoint { codepoint: 0x2C31, name: "GLAGOLITIC SMALL LETTER BUKY", aliases: &[] },
        Codepoint { codepoint: 0x2C32, name: "GLAGOLITIC SMALL LETTER VEDE", aliases: &[] },
        Codepoint { codepoint: 0x2C33, name: "GLAGOLITIC SMALL LETTER GLAGOLI", aliases: &[] },
        Codepoint { codepoint: 0x2C34, name: "GLAGOLITIC SMALL LETTER DOBRO", aliases: &[] },
        Codepoint { codepoint: 0x2C35, name: "GLAGOLITIC SMALL LETTER YESTU", aliases: &[] },
        Codepoint { codepoint: 0x2C36, name: "GLAGOLITIC SMALL LETTER ZHIVETE", aliases: &[] },
        Codepoint { codepoint: 0x2C37, name: "GLAGOLITIC SMALL LETTER DZELO", aliases: &[] },
        Codepoint { codepoint: 0x2C38, name: "GLAGOLITIC SMALL LETTER ZEMLJA", aliases: &[] },
        Codepoint { codepoint: 0x2C39, name: "GLAGOLITIC SMALL LETTER IZHE", aliases: &[] },
        Codepoint { codepoint: 0x2C3A, name: "GLAGOLITIC SMALL LETTER INITIAL IZHE", aliases: &[] },
        Codepoint { codepoint: 0x2C3B, name: "GLAGOLITIC SMALL LETTER I", aliases: &[] },
        Codepoint { codepoint: 0x2C3C, name: "GLAGOLITIC SMALL LETTER DJERVI", aliases: &[] },
        Codepoint { codepoint: 0x2C3D, name: "GLAGOLITIC SMALL LETTER KAKO", aliases: &[] },
        Codepoint { codepoint: 0x2C3E, name: "GLAGOLITIC SMALL LETTER LJUDIJE", aliases: &[] },
        Codepoint { codepoint: 0x2C3F, name: "GLAGOLITIC SMALL LETTER MYSLITE", aliases: &[] },
        Codepoint { codepoint: 0x2C40, name: "GLAGOLITIC SMALL LETTER NASHI", aliases: &[] },
    ];
    assert(v@ =~= codepoint_table_259());
    v
}

/// The entries from position 9600 of the table, 800 at most.
pub open spec fn codepoint_group_12() -> Seq<Codepoint> {
    codepoint_table_240() + codepoint_table_241() + codepoint_table_242() + codepoint_table_243() + codepoint_table_244() + codepoint_table_245() + codepoint_table_246() + codepoint_table_247() + codepoint_table_248() + codepoint_table_249() + codepoint_table_250() + codepoint_table_251() + codepoint_table_252() + codepoint_table_253() + codepoint_table_254() + codepoint_table_255() + codepoint_table_256() + codepoint_table_257() + codepoint_table_258() + codepoint_table_259()
}

pub fn all_codepoints_group_12() -> (v: Vec<Codepoint>)
    ensures
        v@ == codepoint_group_12(),
{
    let mut v = all_codepoints_240();
    let mut part = all_codepoints_241();
    v.append(&mut part);
    let mut part = all_codepoints_242();
    v.append(&mut part);
    let mut part = all_codepoints_243();
    v.append(&mut part);
    let mut part = all_codepoints_244();
    v.append(&mut part);
    let mut part = all_codepoints_245();
    v.append(&mut part);
    let mut part = all_codepoints_246();
    v.append(&mut part);
    let mut part = all_codepoints_247();
    v.append(&mut part);
    let mut part = all_codepoints_248();
    v.append(&mut part);
    let mut part = all_codepoints_249();
    v.append(&mut part);
    let mut part = all_codepoints_250();
    v.append(&mut part);
    let mut part = all_codepoints_251();
    v.append(&mut part);
    let mut part = all_codepoints_252();
    v.append(&mut part);
    let mut part = all_codepoints_253();
    v.append(&mut part);
    let mut part = all_codepoints_254();
    v.append(&mut part);
    let mut part = all_codepoints_255();
    v.append(&mut part);
    let mut part = all_codepoints_256();
    v.append(&mut part);
    let mut part = all_codepoints_257();
    v.append(&mut part);
    let mut part = all_codepoints_258();
    v.append(&mut part);
    let mut part = all_codepoints_259();
    v.append(&mut part);
    v
}

pub open spec fn codepoint_table_260() -> Seq<Codepoint> {
    seq![
        Codepoint { codepoint: 0x2C41, name: "GLAGOLITIC SMALL LETTER ONU", aliases: &[] },
        Codepoint { codepoint: 0x2C42, name: "GLAGOLITIC SMALL LETTER POKOJI", aliases: &[] },
        Codepoint { codepoint: 0x2C43, name: "GLAGOLITIC SMALL LETTER RITSI", aliases: &[] },
        Codepoint { codepoint: 0x2C44, name: "GLAGOLITIC SMALL LETTER SLOVO", aliases: &[] },
        Codepoint { codepoint: 0x2C45, name: "GLAGOLITIC SMALL LETTER TVRIDO", aliases: &[] },
        Codepoint { codepoint: 0x2C46, name: "GLAGOLITIC SMALL LETTER UKU", aliases: &[] },
        Codepoint { codepoint: 0x2C47, name: "GLAGOLITIC SMALL LETTER FRITU", aliases: &[] },
        Codepoint { codepoint: 0x2C48, name: "GLAGOLITIC SMALL LETTER HERU", aliases: &[] },
        Codepoint { codepoint: 0x2C49, name: "GLAGOLITIC SMALL LETTER OTU", aliases: &[] },
        Codepoint { codepoint: 0x2C4A, name: "GLAGOLITIC SMALL LETTER PE", aliases: &[] },
        Codepoint { codepoint: 0x2C4B, name: "GLAGOLITIC SMALL LETTER SHTA", aliases: &[] },
        Codepoint { codepoint: 0x2C4C, name: "GLAGOLITIC SMALL LETTER TSI", aliases: &[] },
        Codepoint { codepoint: 0x2C4D, name: "GLAGOLITIC SMALL LETTER CHRIVI", aliases: &[] },
        Codepoint { codepoint: 0x2C4E, name: "GLAGOLITIC SMALL LETTER SHA", aliases: &[] },
        Codepoint { codepoint: 0x2C4F, name: "GLAGOLITIC SMALL LETTER YERU", aliases: &[] },
        Codepoint { codepoint: 0x2C50, name: "GLAGOLITIC SMALL LETTER YERI", aliases: &[] },
        Codepoint { codepoint: 0x2C51, name: "GLAGOLITIC SMALL LETTER YATI", aliases: &[] },
        Codepoint { codepoint: 0x2C52, name: "GLAGOLITIC SMALL LETTER SPIDERY HA", aliases: &[] },
        Codepoint { codepoint: 0x2C53, name: "GLAGOLITIC SMALL LETTER YU", aliases: &[] },
        Codepoint { codepoint: 0x2C54, name: "GLAGOLITIC SMALL LETTER SMALL YUS", aliases: &[] },
        Codepoint { codepoint: 0x2C55, name: "GLAGOLITIC SMALL LETTER SMALL YUS WITH TAIL", aliases: &[] },
        Codepoint { codepoint: 0x2C56, name: "GLAGOLITIC SMALL LETTER YO", aliases: &[] },
        Codepoint { codepoint: 0x2C57, name: "GLAGOLITIC SMALL LETTER IOTATED SMALL YUS", aliases: &[] },
        Codepoint { codepoint: 0x2C58, name: "GLAGOLITIC SMALL LETTER BIG YUS", aliases: &[] },
        Codepoint { codepoint: 0x2C59, name: "GLAGOLITIC SMALL LETTER IOTATED BIG YUS", aliases: &[] },
        Codepoint { codepoint: 0x2C5A, name: "GLAGOLITIC SMALL LETTER FITA", aliases: &[] },
        Codepoint { codepoint: 0x2C5B, name: "GLAGOLITIC SMALL LETTER IZHITSA", aliases: &[] },
        Codepoint { codepoint: 0x2C5C, name: "GLAGOLITIC SMALL LETTER SHTAPIC", aliases: &[] },
        Codepoint { codepoint: 0x2C5D, name: "GLAGOLITIC SMALL LETTER TROKUTASTI A", aliases: &[] },
        Codepoint { codepoint: 0x2C5E, name: "GLAGOLITIC SMALL LETTER LATINATE MYSLITE", aliases: &[] },
        Codepoint { codepoint: 0x2C5F, name: "GLAGOLITIC SMALL LETTER CAUDATE CHRIVI", aliases: &[] },
        Codepoint { codepoint: 0x2C60, name: "LATIN CAPITAL LETTER L WITH DOUBLE BAR", aliases: &[] },
        Codepoint { codepoint: 0x2C61, name: "LATIN SMALL LETTER L WITH DOUBLE BAR", aliases: &[] },
        Codepoint { codepoint: 0x2C62, name: "LATIN CAPITAL LETTER L WITH MIDDLE TILDE", aliases: &[] },
        Codepoint { codepoint: 0x2C63, name: "LATIN CAPITAL LETTER P WITH STROKE", aliases: &[] },
        Codepoint { codepoint: 0x2C64, name: "LATIN CAPITAL LETTER R WITH TAIL", aliases: &[] },
        Codepoint { codepoint: 0x2C65, name: "LATIN SMALL LETTER A WITH STROKE", aliases: &[] },
        Codepoint { codepoint: 0x2C66, name: "LATIN SMALL LETTER T WITH DIAGONAL STROKE", aliases: &[] },
        Codepoint { codepoint: 0x2C67, name: "LATIN CAPITAL LETTER H WITH DESCENDER", aliases: &[] },
        Codepoint { codepoint: 0x2C68, name: "LATIN SMALL LETTER H WITH DESCENDER", aliases: &[] },
    ]
}

fn all_codepoints_260() -> (v: Vec<Codepoint>)
    ensures
        v@ == codepoint_table_260(),
{
    let v = vec![
        Codepoint { codepoint: 0x2C41, name: "GLAGOLITIC SMALL LETTER ONU", aliases: &[] },
        Codepoint { codepoint: 0x2C42, name: "GLAGOLITIC SMALL LETTER POKOJI", aliases: &[] },
        Codepoint { codepoint: 0x2C43, name: "GLAGOLITIC SMALL LETTER RITSI", aliases: &[] },
        Codepoint { codepoint: 0x2C44, name: "GLAGOLITIC SMALL LETTER SLOVO", aliases: &[] },
        Codepoint { codepoint: 0x2C45, name: "GLAGOLITIC SMALL LETTER TVRIDO", aliases: &[] },
        Codepoint { codepoint: 0x2C46, name: "GLAGOLITIC SMALL LETTER UKU", aliases: &[] },
        Codepoint { codepoint: 0x2C47, name: "GLAGOLITIC SMALL LETTER FRITU", aliases: &[] },
        Codepoint { codepoint: 0x2C48, name: "GLAGOLITIC SMALL LETTER HERU", aliases: &[] },
        Codepoint { codepoint: 0x2C49, name: "GLAGOLITIC SMALL LETTER OTU", aliases: &[] },
        Codepoint { codepoint: 0x2C4A, name: "GLAGOLITIC SMALL LETTER PE", aliases: &[] },
        Codepoint { codepoint: 0x2C4B, name: "GLAGOLITIC SMALL LETTER SHTA", aliases: &[] },
        Codepoint { codepoint: 0x2C4C, name: "GLAGOLITIC SMALL LETTER TSI", aliases: &[] },
        Codepoint { codepoint: 0x2C4D, name: "GLAGOLITIC SMALL LETTER CHRIVI", aliases: &[] },
        Codepoint { codepoint: 0x2C4E, name: "GLAGOLITIC SMALL LETTER SHA", aliases: &[] },
        Codepoint { codepoint: 0x2C4F, name: "GLAGOLITIC SMALL LETTER YERU", aliases: &[] },
        Codepoint { codepoint: 0x2C50, name: "GLAGOLITIC SMALL LETTER YERI", aliases: &[] },
        Codepoint { codepoint: 0x2C51, name: "GLAGOLITIC SMALL LETTER YATI", aliases: &[] },
        Codepoint { codepoint: 0x2C52, name: "GLAGOLITIC SMALL LETTER SPIDERY HA", aliases: &[] },
        Codepoint { codepoint: 0x2C53, name: "GLAGOLITIC SMALL LETTER YU", aliases: &[] },
        Codepoint { codepoint: 0x2C54, name: "GLAGOLITIC SMALL LETTER SMALL YUS", aliases: &[] },
        Codepoint { codepoint: 0x2C55, name: "GLAGOLITIC SMALL LETTER SMALL YUS WITH TAIL", aliases: &[] },
        Codepoint { codepoint: 0x2C56, name: "GLAGOLITIC SMALL LETTER YO", aliases: &[] },
        Codepoint { codepoint: 0x2C57, name: "GLAGOLITIC SMALL LETTER IOTATED SMALL YUS", aliases: &[] },
        Codepoint { codepoint: 0x2C58, name: "GLAGOLITIC SMALL LETTER BIG YUS", aliases: &[] },
        Codepoint { codepoint: 0x2C59, name: "GLAGOLITIC SMALL LETTER IOTATED BIG YUS", aliases: &[] },
        Codepoint { codepoint: 0x2C5A, name: "GLAGOLITIC SMALL LETTER FITA", aliases: &[] },
        Codepoint { codepoint: 0x2C5B, name: "GLAGOLITIC SMALL LETTER IZHITSA", aliases: &[] },
        Codepoint { codepoint: 0x2C5C, name: "GLAGOLITIC SMALL LETTER SHTAPIC", aliases: &[] },
        Codepoint { codepoint: 0x2C5D, name: "GLAGOLITIC SMALL LETTER TROKUTASTI A", aliases: &[] },
        Codepoint { codepoint: 0x2C5E, name: "GLAGOLITIC SMALL LETTER LATINATE MYSLITE", aliases: &[] },
        Codepoint { codepoint: 0x2C5F, name: "GLAGOLITIC SMALL LETTER CAUDATE CHRIVI", aliases: &[] },
        Codepoint { codepoint: 0x2C60, name: "LATIN CAPITAL LETTER L WITH DOUBLE BAR", aliases: &[] },
        Codepoint { codepoint: 0x2C61, name: "LATIN SMALL LETTER L WITH DOUBLE BAR", aliases: &[] },
        Codepoint { codepoint: 0x2C62, name: "LATIN CAPITAL LETTER L WITH MIDDLE TILDE", aliases: &[] },
        Codepoint { codepoint: 0x2C63, name: "LATIN CAPITAL LETTER P WITH STROKE", aliases: &[] },
        Codepoint { codepoint: 0x2C64, name: "LATIN CAPITAL LETTER R WITH TAIL", aliases: &[] },
        Codepoint { codepoint: 0x2C65, name: "LATIN SMALL LETTER A WITH STROKE", aliases: &[] },
        Codepoint { codepoint: 0x2C66, name: "LATIN SMALL LETTER T WITH DIAGONAL STROKE", aliases: &[] },
        Codepoint { codepoint: 0x2C67, name: "LATIN CAPITAL LETTER H WITH DESCENDER", aliases: &[] },
        Codepoint { codepoint: 0x2C68, name: "LATIN SMALL LETTER H WITH DESCENDER", aliases: &[] },
    ];
    assert(v@ =~= codepoint_table_260());
    v
}

pub open spec fn codepoint_table_261() -> Seq<Codepoint> {
    seq![
        Codepoint { codepoint: 0x2C69, name: "LATIN CAPITAL LETTER K WITH DESCENDER", aliases: &[] },
        Codepoint { codepoint: 0x2C6A, name: "LATIN SMALL LETTER K WITH DESCENDER", aliases: &[] },
        Codepoint { codepoint: 0x2C6B, name: "LATIN CAPITAL LETTER Z WITH DESCENDER", aliases: &[] },
        Codepoint { codepoint: 0x2C6C, name: "LATIN SMALL LETTER Z WITH DESCENDER", aliases: &[] },
        Codepoint { codepoint: 0x2C6D, name: "LATIN CAPITAL LETTER ALPHA", aliases: &[] },
        Codepoint { codepoint: 0x2C6E, name: "LATIN CAPITAL LETTER M WITH HOOK", aliases: &[] },
        Codepoint { codepoint: 0x2C6F, name: "LATIN CAPITAL LETTER TURNED A", aliases: &[] },
        Codepoint { codepoint: 0x2C70, name: "LATIN CAPITAL LETTER TURNED ALPHA", aliases: &[] },
        Codepoint { codepoint: 0x2C71, name: "LATIN SMALL LETTER V WITH RIGHT HOOK", aliases: &[] },
        Codepoint { codepoint: 0x2C72, name: "LATIN CAPITAL LETTER W WITH HOOK", aliases: &[] },
        Codepoint { codepoint: 0x2C73, name: "LATIN SMALL LETTER W WITH HOOK", aliases: &[] },
        Codepoint { codepoint: 0x2C74, name: "LATIN SMALL LETTER V WITH CURL", aliases: &[] },
        Codepoint { codepoint: 0x2C75, name: "LATIN CAPITAL LETTER HALF H", aliases: &[] },
        Codepoint { codepoint: 0x2C76, name: "LATIN SMALL LETTER HALF H", aliases: &[] },
        Codepoint { codepoint: 0x2C77, name: "LATIN SMALL LETTER TAILLESS PHI", aliases: &[] },
        Codepoint { codepoint: 0x2C78, name: "LATIN SMALL LETTER E WITH NOTCH", aliases: &[] },
        Codepoint { codepoint: 0x2C79, name: "LATIN SMALL LETTER TURNED R WITH TAIL", aliases: &[] },
        Codepoint { codepoint: 0x2C7A, name: "LATIN SMALL LETTER O WITH LOW RING INSIDE", aliases: &[] },
        Codepoint { codepoint: 0x2C7B, name: "LATIN LETTER SMALL CAPITAL TURNED E", aliases: &[] },
        Codepoint { codepoint: 0x2C7C, name: "LATIN SUBSCRIPT SMALL LETTER J", aliases: &[] },
        Codepoint { codepoint: 0x2C7D, name: "MODIFIER LETTER CAPITAL V", aliases: &[] },
        Codepoint { codepoint: 0x2C7E, name: "LATIN CAPITAL LETTER S WITH SWASH TAIL", aliases: &[] },
        Codepoint { codepoint: 0x2C7F, name: "LATIN CAPITAL LETTER Z WITH SWASH TAIL", aliases: &[] },
        Codepoint { codepoint: 0x2C80, name: "COPTIC CAPITAL LETTER ALFA", aliases: &[] },
        Codepoint { codepoint: 0x2C81, name: "COPTIC SMALL LETTER ALFA", aliases: &[] },
        Codepoint { codepoint: 0x2C82, name: "COPTIC CAPITAL LETTER VIDA", aliases: &[] },
        Codepoint { codepoint: 0x2C83, name: "COPTIC SMALL LETTER VIDA", aliases: &[] },
        Codepoint { codepoint: 0x2C84, name: "COPTIC CAPITAL LETTER GAMMA", aliases: &[] },
        Codepoint { codepoint: 0x2C85, name: "COPTIC SMALL LETTER GAMMA", aliases: &[] },
        Codepoint { codepoint: 0x2C86, name: "COPTIC CAPITAL LETTER DALDA", aliases: &[] },
        Codepoint { codepoint: 0x2C87, name: "COPTIC SMALL LETTER DALDA", aliases: &[] },
        Codepoint { codepoint: 0x2C88, name: "COPTIC CAPITAL LETTER EIE", aliases: &[] },
        Codepoint { codepoint: 0x2C89, name: "COPTIC SMALL LETTER EIE", aliases: &[] },
        Codepoint { codepoint: 0x2C8A, name: "COPTIC CAPITAL LETTER SOU", aliases: &[] },
        Codepoint { codepoint: 0x2C8B, name: "COPTIC SMALL LETTER SOU", aliases: &[] },
        Codepoint { codepoint: 0x2C8C, name: "COPTIC CAPITAL LETTER ZATA", aliases: &[] },
        Codepoint { codepoint: 0x2C8D, name: "COPTIC SMALL LETTER ZATA", aliases: &[] },
        Codepoint { codepoint: 0x2C8E, name: "COPTIC CAPITAL LETTER HATE", aliases: &[] },
        Codepoint { codepoint: 0x2C8F, name: "COPTIC SMALL LETTER HATE", aliases: &[] },
        Codepoint { codepoint: 0x2C90, name: "COPTIC CAPITAL LETTER THETHE", aliases: &[] },
    ]
}

fn all_codepoints_261() -> (v: Vec<Codepoint>)
    ensures
        v@ == codepoint_table_261(),
{
    let v = vec![
        Codepoint { codepoint: 0x2C69, name: "LATIN CAPITAL LETTER K WITH DESCENDER", aliases: &[] },
        Codepoint { codepoint: 0x2C6A, name: "LATIN SMALL LETTER K WITH DESCENDER", aliases: &[] },
        Codepoint { codepoint: 0x2C6B, name: "LATIN CAPITAL LETTER Z WITH DESCENDER", aliases: &[] },
        Codepoint { codepoint: 0x2C6C, name: "LATIN SMALL LETTER Z WITH DESCENDER", aliases: &[] },
        Codepoint { codepoint: 0x2C6D, name: "LATIN CAPITAL LETTER ALPHA", aliases: &[] },
        Codepoint { codepoint: 0x2C6E, name: "LATIN CAPITAL LETTER M WITH HOOK", aliases: &[] },
        Codepoint { codepoint: 0x2C6F, name: "LATIN CAPITAL LETTER TURNED A", aliases: &[] },
        Codepoint { codepoint: 0x2C70, name: "LATIN CAPITAL LETTER TURNED ALPHA", aliases: &[] },
        Codepoint { codepoint: 0x2C71, name: "LATIN SMALL LETTER V WITH RIGHT HOOK", aliases: &[] },
        Codepoint { codepoint: 0x2C72, name: "LATIN CAPITAL LETTER W WITH HOOK", aliases: &[] },
        Codepoint { codepoint: 0x2C73, name: "LATIN SMALL LETTER W WITH HOOK", aliases: &[] },
        Codepoint { codepoint: 0x2C74, name: "LATIN SMALL LETTER V WITH CURL", aliases: &[] },
        Codepoint { codepoint: 0x2C75, name: "LATIN CAPITAL LETTER HALF H", aliases: &[] },
        Codepoint { codepoint: 0x2C76, name: "LATIN SMALL LETTER HALF H", aliases: &[] },
        Codepoint { codepoint: 0x2C77, name: "LATIN SMALL LETTER TAILLESS PHI", aliases: &[] },
        Codepoint { codepoint: 0x2C78, name: "LATIN SMALL LETTER E WITH NOTCH", aliases: &[] },
        Codepoint { codepoint: 0x2C79, name: "LATIN SMALL LETTER TURNED R WITH TAIL", aliases: &[] },
        Codepoint { codepoint: 0x2C7A, name: "LATIN SMALL LETTER O WITH LOW RING INSIDE", aliases: &[] },
        Codepoint { codepoint: 0x2C7B, name: "LATIN LETTER SMALL CAPITAL TURNED E", aliases: &[] },
        Codepoint { codepoint: 0x2C7C, name: "LATIN SUBSCRIPT SMALL LETTER J", aliases: &[] },
        Codepoint { codepoint: 0x2C7D, name: "MODIFIER LETTER CAPITAL V", aliases: &[] },
        Codepoint { codepoint: 0x2C7E, name: "LATIN CAPITAL LETTER S WITH SWASH TAIL", aliases: &[] },
        Codepoint { codepoint: 0x2C7F, name: "LATIN CAPITAL LETTER Z WITH SWASH TAIL", aliases: &[] },
        Codepoint { codepoint: 0x2C80, name: "COPTIC CAPITAL LETTER ALFA", aliases: &[] },
        Codepoint { codepoint: 0x2C81, name: "COPTIC SMALL LETTER ALFA", aliases: &[] },
        Codepoint { codepoint: 0x2C82, name: "COPTIC CAPITAL LETTER VIDA", aliases: &[] },
        Codepoint { codepoint: 0x2C83, name: "COPTIC SMALL LETTER VIDA", aliases: &[] },
        Codepoint { codepoint: 0x2C84, name: "COPTIC CAPITAL LETTER GAMMA", aliases: &[] },
        Codepoint { codepoint: 0x2C85, name: "COPTIC SMALL LETTER GAMMA", aliases: &[] },
        Codepoint { codepoint: 0x2C86, name: "COPTIC CAPITAL LETTER DALDA", aliases: &[] },
        Codepoint { codepoint: 0x2C87, name: "COPTIC SMALL LETTER DALDA", aliases: &[] },
        Codepoint { codepoint: 0x2C88, name: "COPTIC CAPITAL LETTER EIE", aliases: &[] },
        Codepoint { codepoint: 0x2C89, name: "COPTIC SMALL LETTER EIE", aliases: &[] },
        Codepoint { codepoint: 0x2C8A, name: "COPTIC CAPITAL LETTER SOU", aliases: &[] },
        Codepoint { codepoint: 0x2C8B, name: "COPTIC SMALL LETTER SOU", aliases: &[] },
        Codepoint { codepoint: 0x2C8C, name: "COPTIC CAPITAL LETTER ZATA", aliases: &[] },
        Codepoint { codepoint: 0x2C8D, name: "COPTIC SMALL LETTER ZATA", aliases: &[] },
        Codepoint { codepoint: 0x2C8E, name: "COPTIC CAPITAL LETTER HATE", aliases: &[] },
        Codepoint { codepoint: 0x2C8F, name: "COPTIC SMALL LETTER HATE", aliases: &[] },
        Codepoint { codepoint: 0x2C90, name: "COPTIC CAPITAL LETTER THETHE", aliases: &[] },
    ];
    assert(v@ =~= codepoint_table_261());
    v
}

pub open spec fn codepoint_table_262() -> Seq<Codepoint> {
    seq![
        Codepoint { codepoint: 0x2C91, name: "COPTIC SMALL LETTER THETHE", aliases: &[] },
        Codepoint { codepoint: 0x2C92, name: "COPTIC CAPITAL LETTER IAUDA", aliases: &[] },
        Codepoint { codepoint: 0x2C93, name: "COPTIC SMALL LETTER IAUDA", aliases: &[] },
        Codepoint { codepoint: 0x2C94, name: "COPTIC CAPITAL LETTER KAPA", aliases: &[] },
        Codepoint { codepoint: 0x2C95, name: "COPTIC SMALL LETTER KAPA", aliases: &[] },
        Codepoint { codepoint: 0x2C96, name: "COPTIC CAPITAL LETTER LAULA", aliases: &[] },
        Codepoint { codepoint: 0x2C97, name: "COPTIC SMALL LETTER LAULA", aliases: &[] },
        Codepoint { codepoint: 0x2C98, name: "COPTIC CAPITAL LETTER MI", aliases: &[] },
        Codepoint { codepoint: 0x2C99, name: "COPTIC SMALL LETTER MI", aliases: &[] },
        Codepoint { codepoint: 0x2C9A, name: "COPTIC CAPITAL LETTER NI", aliases: &[] },
        Codepoint { codepoint: 0x2C9B, name: "COPTIC SMALL LETTER NI", aliases: &[] },
        Codepoint { codepoint: 0x2C9C, name: "COPTIC CAPITAL LETTER KSI", aliases: &[] },
        Codepoint { codepoint: 0x2C9D, name: "COPTIC SMALL LETTER KSI", aliases: &[] },
        Codepoint { codepoint: 0x2C9E, name: "COPTIC CAPITAL LETTER O", aliases: &[] },
        Codepoint { codepoint: 0x2C9F, name: "COPTIC SMALL LETTER O", aliases: &[] },
        Codepoint { codepoint: 0x2CA0, name: "COPTIC CAPITAL LETTER PI", aliases: &[] },
        Codepoint { codepoint: 0x2CA1, name: "COPTIC SMALL LETTER PI", aliases: &[] },
        Codepoint { codepoint: 0x2CA2, name: "COPTIC CAPITAL LETTER RO", aliases: &[] },
        Codepoint { codepoint: 0x2CA3, name: "COPTIC SMALL LETTER RO", aliases: &[] },
        Codepoint { codepoint: 0x2CA4, name: "COPTIC CAPITAL LETTER SIMA", aliases: &[] },
        Codepoint { codepoint: 0x2CA5, name: "COPTIC SMALL LETTER SIMA", aliases: &[] },
        Codepoint { codepoint: 0x2CA6, name: "COPTIC CAPITAL LETTER TAU", aliases: &[] },
        Codepoint { codepoint: 0x2CA7, name: "COPTIC SMALL LETTER TAU", aliases: &[] },
        Codepoint { codepoint: 0x2CA8, name: "COPTIC CAPITAL LETTER UA", aliases: &[] },
        Codepoint { codepoint: 0x2CA9, name: "COPTIC SMALL LETTER UA", aliases: &[] },
        Codepoint { codepoint: 0x2CAA, name: "COPTIC CAPITAL LETTER FI", aliases: &[] },
        Codepoint { codepoint: 0x2CAB, name: "COPTIC SMALL LETTER FI", aliases: &[] },
        Codepoint { codepoint: 0x2CAC, name: "COPTIC CAPITAL LETTER KHI", aliases: &[] },
        Codepoint { codepoint: 0x2CAD, name: "COPTIC SMALL LETTER KHI", aliases: &[] },
        Codepoint { codepoint: 0x2CAE, name: "COPTIC CAPITAL LETTER PSI", aliases: &[] },
        Codepoint { codepoint: 0x2CAF, name: "COPTIC SMALL LETTER PSI", aliases: &[] },
        Codepoint { codepoint: 0x2CB0, name: "COPTIC CAPITAL LETTER OOU", aliases: &[] },
        Codepoint { codepoint: 0x2CB1, name: "COPTIC SMALL LETTER OOU", aliases: &[] },
        Codepoint { codepoint: 0x2CB2, name: "COPTIC CAPITAL LETTER DIALECT-P ALEF", aliases: &[] },
        Codepoint { codepoint: 0x2CB3, name: "COPTIC SMALL LETTER DIALECT-P ALEF", aliases: &[] },
        Codepoint { codepoint: 0x2CB4, name: "COPTIC CAPITAL LETTER OLD COPTIC AIN", aliases: &[] },
        Codepoint { codepoint: 0x2CB5, name: "COPTIC SMALL LETTER OLD COPTIC AIN", aliases: &[] },
        Codepoint { codepoint: 0x2CB6, name: "COPTIC CAPITAL LETTER CRYPTOGRAMMIC EIE", aliases: &[] },
        Codepoint { codepoint: 0x2CB7, name: "COPTIC SMALL LETTER CRYPTOGRAMMIC EIE", aliases: &[] },
        Codepoint { codepoint: 0x2CB8, name: "COPTIC CAPITAL LETTER DIALECT-P KAPA", aliases: &[] },
    ]
}

fn all_codepoints_262() -> (v: Vec<Codepoint>)
    ensures
        v@ == codepoint_table_262(),
{
    let v = vec![
        Codepoint { codepoint: 0x2C91, name: "COPTIC SMALL LETTER THETHE", aliases: &[] },
        Codepoint { codepoint: 0x2C92, name: "COPTIC CAPITAL LETTER IAUDA", aliases: &[] },
        Codepoint { codepoint: 0x2C93, name: "COPTIC SMALL LETTER IAUDA", aliases: &[] },
        Codepoint { codepoint: 0x2C94, name: "COPTIC CAPITAL LETTER KAPA", aliases: &[] },
        Codepoint { codepoint: 0x2C95, name: "COPTIC SMALL LETTER KAPA", aliases: &[] },
        Codepoint { codepoint: 0x2C96, name: "COPTIC CAPITAL LETTER LAULA", aliases: &[] },
        Codepoint { codepoint: 0x2C97, name: "COPTIC SMALL LETTER LAULA", aliases: &[] },
        Codepoint { codepoint: 0x2C98, name: "COPTIC CAPITAL LETTER MI", aliases: &[] },
        Codepoint { codepoint: 0x2C99, name: "COPTIC SMALL LETTER MI", aliases: &[] },
        Codepoint { codepoint: 0x2C9A, name: "COPTIC CAPITAL LETTER NI", aliases: &[] },
        Codepoint { codepoint: 0x2C9B, name: "COPTIC SMALL LETTER NI", aliases: &[] },
        Codepoint { codepoint: 0x2C9C, name: "COPTIC CAPITAL LETTER KSI", aliases: &[] },
        Codepoint { codepoint: 0x2C9D, name: "COPTIC SMALL LETTER KSI", aliases: &[] },
        Codepoint { codepoint: 0x2C9E, name: "COPTIC CAPITAL LETTER O", aliases: &[] },
        Codepoint { codepoint: 0x2C9F, name: "COPTIC SMALL LETTER O", aliases: &[] },
        Codepoint { codepoint: 0x2CA0, name: "COPTIC CAPITAL LETTER PI", aliases: &[] },
        Codepoint { codepoint: 0x2CA1, name: "COPTIC SMALL LETTER PI", aliases: &[] },
        Codepoint { codepoint: 0x2CA2, name: "COPTIC CAPITAL LETTER RO", aliases: &[] },
        Codepoint { codepoint: 0x2CA3, name: "COPTIC SMALL LETTER RO", aliases: &[] },
        Codepoint { codepoint: 0x2CA4, name: "COPTIC CAPITAL LETTER SIMA", aliases: &[] },
        Codepoint { codepoint: 0x2CA5, name: "COPTIC SMALL LETTER SIMA", aliases: &[] },
        Codepoint { codepoint: 0x2CA6, name: "COPTIC CAPITAL LETTER TAU", aliases: &[] },
        Codepoint { codepoint: 0x2CA7, name: "COPTIC SMALL LETTER TAU", aliases: &[] },
        Codepoint { codepoint: 0x2CA8, name: "COPTIC CAPITAL LETTER UA", aliases: &[] },
        Codepoint { codepoint: 0x2CA9, name: "COPTIC SMALL LETTER UA", aliases: &[] },
        Codepoint { codepoint: 0x2CAA, name: "COPTIC CAPITAL LETTER FI", aliases: &[] },
        Codepoint { codepoint: 0x2CAB, name: "COPTIC SMALL LETTER FI", aliases: &[] },
        Codepoint { codepoint: 0x2CAC, name: "COPTIC CAPITAL LETTER KHI", aliases: &[] },
        Codepoint { codepoint: 0x2CAD, name: "COPTIC SMALL LETTER KHI", aliases: &[] },
        Codepoint { codepoint: 0x2CAE, name: "COPTIC CAPITAL LETTER PSI", aliases: &[] },
        Codepoint { codepoint: 0x2CAF, name: "COPTIC SMALL LETTER PSI", aliases: &[] },
        Codepoint { codepoint: 0x2CB0, name: "COPTIC CAPITAL LETTER OOU", aliases: &[] },
        Codepoint { codepoint: 0x2CB1, name: "COPTIC SMALL LETTER OOU", aliases: &[] },
        Codepoint { codepoint: 0x2CB2, name: "COPTIC CAPITAL LETTER DIALECT-P ALEF", aliases: &[] },
        Codepoint { codepoint: 0x2CB3, name: "COPTIC SMALL LETTER DIALECT-P ALEF", aliases: &[] },
        Codepoint { codepoint: 0x2CB4, name: "COPTIC CAPITAL LETTER OLD COPTIC AIN", aliases: &[] },
        Codepoint { codepoint: 0x2CB5, name: "COPTIC SMALL LETTER OLD COPTIC AIN", aliases: &[] },
        Codepoint { codepoint: 0x2CB6, name: "COPTIC CAPITAL LETTER CRYPTOGRAMMIC EIE", aliases: &[] },
        Codepoint { codepoint: 0x2CB7, name: "COPTIC SMALL LETTER CRYPTOGRAMMIC EIE", aliases: &[] },
        Codepoint { codepoint: 0x2CB8, name: "COPTIC CAPITAL LETTER DIALECT-P KAPA", aliases: &[] },
    ];
    assert(v@ =~= codepoint_table_262());
    v
}

pub open spec fn codepoint_table_263() -> Seq<Codepoint> {
    seq![
        Codepoint { codepoint: 0x2CB9, name: "COPTIC SMALL LETTER DIALECT-P KAPA", aliases: &[] },
        Codepoint { codepoint: 0x2CBA, name: "COPTIC CAPITAL LETTER DIALECT-P NI", aliases: &[] },
        Codepoint { codepoint: 0x2CBB, name: "COPTIC SMALL LETTER DIALECT-P NI", aliases: &[] },
        Codepoint { codepoint: 0x2CBC, name: "COPTIC CAPITAL LETTER CRYPTOGRAMMIC NI", aliases: &[] },
        Codepoint { codepoint: 0x2CBD, name: "COPTIC SMALL LETTER CRYPTOGRAMMIC NI", aliases: &[] },
        Codepoint { codepoint: 0x2CBE, name: "COPTIC CAPITAL LETTER OLD COPTIC OOU", aliases: &[] },
        Codepoint { codepoint: 0x2CBF, name: "COPTIC SMALL LETTER OLD COPTIC OOU", aliases: &[] },
        Codepoint { codepoint: 0x2CC0, name: "COPTIC CAPITAL LETTER SAMPI", aliases: &[] },
        Codepoint { codepoint: 0x2CC1, name: "COPTIC SMALL LETTER SAMPI", aliases: &[] },
        Codepoint { codepoint: 0x2CC2, name: "COPTIC CAPITAL LETTER CROSSED SHEI", aliases: &[] },
        Codepoint { codepoint: 0x2CC3, name: "COPTIC SMALL LETTER CROSSED SHEI", aliases: &[] },
        Codepoint { codepoint: 0x2CC4, name: "COPTIC CAPITAL LETTER OLD COPTIC SHEI", aliases: &[] },
        Codepoint { codepoint: 0x2CC5, name: "COPTIC SMALL LETTER OLD COPTIC SHEI", aliases: &[] },
        Codepoint { codepoint: 0x2CC6, name: "COPTIC CAPITAL LETTER OLD COPTIC ESH", aliases: &[] },
        Codepoint { codepoint: 0x2CC7, name: "COPTIC SMALL LETTER OLD COPTIC ESH", aliases: &[] },
        Codepoint { codepoint: 0x2CC8, name: "COPTIC CAPITAL LETTER AKHMIMIC KHEI", aliases: &[] },
        Codepoint { codepoint: 0x2CC9, name: "COPTIC SMALL LETTER AKHMIMIC KHEI", aliases: &[] },
        Codepoint { codepoint: 0x2CCA, name: "COPTIC CAPITAL LETTER DIALECT-P HORI", aliases: &[] },
        Codepoint { codepoint: 0x2CCB, name: "COPTIC SMALL LETTER DIALECT-P HORI", aliases: &[] },
        Codepoint { codepoint: 0x2CCC, name: "COPTIC CAPITAL LETTER OLD COPTIC HORI", aliases: &[] },
        Codepoint { codepoint: 0x2CCD, name: "COPTIC SMALL LETTER OLD COPTIC HORI", aliases: &[] },
        Codepoint { codepoint: 0x2CCE, name: "COPTIC CAPITAL LETTER OLD COPTIC HA", aliases: &[] },
        Codepoint { codepoint: 0x2CCF, name: "COPTIC SMALL LETTER OLD COPTIC HA", aliases: &[] },
        Codepoint { codepoint: 0x2CD0, name: "COPTIC CAPITAL LETTER L-SHAPED HA", aliases: &[] },
        Codepoint { codepoint: 0x2CD1, name: "COPTIC SMALL LETTER L-SHAPED HA", aliases: &[] },
        Codepoint { codepoint: 0x2CD2, name: "COPTIC CAPITAL LETTER OLD COPTIC HEI", aliases: &[] },
        Codepoint { codepoint: 0x2CD3, name: "COPTIC SMALL LETTER OLD COPTIC HEI", aliases: &[] },
        Codepoint { codepoint: 0x2CD4, name: "COPTIC CAPITAL LETTER OLD COPTIC HAT", aliases: &[] },
        Codepoint { codepoint: 0x2CD5, name: "COPTIC SMALL LETTER OLD COPTIC HAT", aliases: &[] },
        Codepoint { codepoint: 0x2CD6, name: "COPTIC CAPITAL LETTER OLD COPTIC GANGIA", aliases: &[] },
        Codepoint { codepoint: 0x2CD7, name: "COPTIC SMALL LETTER OLD COPTIC GANGIA", aliases: &[] },
        Codepoint { codepoint: 0x2CD8, name: "COPTIC CAPITAL LETTER OLD COPTIC DJA", aliases: &[] },
        Codepoint { codepoint: 0x2CD9, name: "COPTIC SMALL LETTER OLD COPTIC DJA", aliases: &[] },
        Codepoint { codepoint: 0x2CDA, name: "COPTIC CAPITAL LETTER OLD COPTIC SHIMA", aliases: &[] },
        Codepoint { codepoint: 0x2CDB, name: "COPTIC SMALL LETTER OLD COPTIC SHIMA", aliases: &[] },
        Codepoint { codepoint: 0x2CDC, name: "COPTIC CAPITAL LETTER OLD NUBIAN SHIMA", aliases: &[] },
        Codepoint { codepoint: 0x2CDD, name: "COPTIC SMALL LETTER OLD NUBIAN SHIMA", aliases: &[] },
        Codepoint { codepoint: 0x2CDE, name: "COPTIC CAPITAL LETTER OLD NUBIAN NGI", aliases: &[] },
        Codepoint { codepoint: 0x2CDF, name: "COPTIC SMALL LETTER OLD NUBIAN NGI", aliases: &[] },
        Codepoint { codepoint: 0x2CE0, name: "COPTIC CAPITAL LETTER OLD NUBIAN NYI", aliases: &[] },
    ]
}

fn all_codepoints_263() -> (v: Vec<Codepoint>)
    ensures
        v@ == codepoint_table_263(),
{
    let v = vec![
        Codepoint { codepoint: 0x2CB9, name: "COPTIC SMALL LETTER DIALECT-P KAPA", aliases: &[] },
        Codepoint { codepoint: 0x2CBA, name: "COPTIC CAPITAL LETTER DIALECT-P NI", aliases: &[] },
        Codepoint { codepoint: 0x2CBB, name: "COPTIC SMALL LETTER DIALECT-P NI", aliases: &[] },
        Codepoint { codepoint: 0x2CBC, name: "COPTIC CAPITAL LETTER CRYPTOGRAMMIC NI", aliases: &[] },
        Codepoint { codepoint: 0x2CBD, name: "COPTIC SMALL LETTER CRYPTOGRAMMIC NI", aliases: &[] },
        Codepoint { codepoint: 0x2CBE, name: "COPTIC CAPITAL LETTER OLD COPTIC OOU", aliases: &[] },
        Codepoint { codepoint: 0x2CBF, name: "COPTIC SMALL LETTER OLD COPTIC OOU", aliases: &[] },
        Codepoint { codepoint: 0x2CC0, name: "COPTIC CAPITAL LETTER SAMPI", aliases: &[] },
        Codepoint { codepoint: 0x2CC1, name: "COPTIC SMALL LETTER SAMPI", aliases: &[] },
        Codepoint { codepoint: 0x2CC2, name: "COPTIC CAPITAL LETTER CROSSED SHEI", aliases: &[] },
        Codepoint { codepoint: 0x2CC3, name: "COPTIC SMALL LETTER CROSSED SHEI", aliases: &[] },
        Codepoint { codepoint: 0x2CC4, name: "COPTIC CAPITAL LETTER OLD COPTIC SHEI", aliases: &[] },
        Codepoint { codepoint: 0x2CC5, name: "COPTIC SMALL LETTER OLD COPTIC SHEI", aliases: &[] },
        Codepoint { codepoint: 0x2CC6, name: "COPTIC CAPITAL LETTER OLD COPTIC ESH", aliases: &[] },
        Codepoint { codepoint: 0x2CC7, name: "COPTIC SMALL LETTER OLD COPTIC ESH", aliases: &[] },
        Codepoint { codepoint: 0x2CC8, name: "COPTIC CAPITAL LETTER AKHMIMIC KHEI", aliases: &[] },
        Codepoint { codepoint: 0x2CC9, name: "COPTIC SMALL LETTER AKHMIMIC KHEI", aliases: &[] },
        Codepoint { codepoint: 0x2CCA, name: "COPTIC CAPITAL LETTER DIALECT-P HORI", aliases: &[] },
        Codepoint { codepoint: 0x2CCB, name: "COPTIC SMALL LETTER DIALECT-P HORI", aliases: &[] },
        Codepoint { codepoint: 0x2CCC, name: "COPTIC CAPITAL LETTER OLD COPTIC HORI", aliases: &[] },
        Codepoint { codepoint: 0x2CCD, name: "COPTIC SMALL LETTER OLD COPTIC HORI", aliases: &[] },
        Codepoint { codepoint: 0x2CCE, name: "COPTIC CAPITAL LETTER OLD COPTIC HA", aliases: &[] },
        Codepoint { codepoint: 0x2CCF, name: "COPTIC SMALL LETTER OLD COPTIC HA", aliases: &[] },
        Codepoint { codepoint: 0x2CD0, name: "COPTIC CAPITAL LETTER L-SHAPED HA", aliases: &[] },
        Codepoint { codepoint: 0x2CD1, name: "COPTIC SMALL LETTER L-SHAPED HA", aliases: &[] },
        Codepoint { codepoint: 0x2CD2, name: "COPTIC CAPITAL LETTER OLD COPTIC HEI", aliases: &[] },
        Codepoint { codepoint: 0x2CD3, name: "COPTIC SMALL LETTER OLD COPTIC HEI", aliases: &[] },
        Codepoint { codepoint: 0x2CD4, name: "COPTIC CAPITAL LETTER OLD COPTIC HAT", aliases: &[] },
        Codepoint { codepoint: 0x2CD5, name: "COPTIC SMALL LETTER OLD COPTIC HAT", aliases: &[] },
        Codepoint { codepoint: 0x2CD6, name: "COPTIC CAPITAL LETTER OLD COPTIC GANGIA", aliases: &[] },
        Codepoint { codepoint: 0x2CD7, name: "COPTIC SMALL LETTER OLD COPTIC GANGIA", aliases: &[] },
        Codepoint { codepoint: 0x2CD8, name: "COPTIC CAPITAL LETTER OLD COPTIC DJA", aliases: &[] },
        Codepoint { codepoint: 0x2CD9, name: "COPTIC SMALL LETTER OLD COPTIC DJA", aliases: &[] },
        Codepoint { codepoint: 0x2CDA, name: "COPTIC CAPITAL LETTER OLD COPTIC SHIMA", aliases: &[] },
        Codepoint { codepoint: 0x2CDB, name: "COPTIC SMALL LETTER OLD COPTIC SHIMA", aliases: &[] },
        Codepoint { codepoint: 0x2CDC, name: "COPTIC CAPITAL LETTER OLD NUBIAN SHIMA", aliases: &[] },
        Codepoint { codepoint: 0x2CDD, name: "COPTIC SMALL LETTER OLD NUBIAN SHIMA", aliases: &[] },
        Codepoint { codepoint: 0x2CDE, name: "COPTIC CAPITAL LETTER OLD NUBIAN NGI", aliases: &[] },
        Codepoint { codepoint: 0x2CDF, name: "COPTIC SMALL LETTER OLD NUBIAN NGI", aliases: &[] },
        Codepoint { codepoint: 0x2CE0, name: "COPTIC CAPITAL LETTER OLD NUBIAN NYI", aliases: &[] },
    ];
    assert(v@ =~= codepoint_table_263());
    v
}

pub open spec fn codepoint_table_264() -> Seq<Codepoint> {
    seq![
        Codepoint { codepoint: 0x2CE1, name: "COPTIC SMALL LETTER OLD NUBIAN NYI", aliases: &[] },
        Codepoint { codepoint: 0x2CE2, name: "COPTIC CAPITAL LETTER OLD NUBIAN WAU", aliases: &[] },
        Codepoint { codepoint: 0x2CE3, name: "COPTIC SMALL LETTER OLD NUBIAN WAU", aliases: &[] },
        Codepoint { codepoint: 0x2CE4, name: "COPTIC SYMBOL KAI", aliases: &[] },
        Codepoint { codepoint: 0x2CE5, name: "COPTIC SYMBOL MI RO", aliases: &[] },
        Codepoint { codepoint: 0x2CE6, name: "COPTIC SYMBOL PI RO", aliases: &[] },
        Codepoint { codepoint: 0x2CE7, name: "COPTIC SYMBOL STAUROS", aliases: &[] },
        Codepoint { codepoint: 0x2CE8, name: "COPTIC SYMBOL TAU RO", aliases: &[] },
        Codepoint { codepoint: 0x2CE9, name: "COPTIC SYMBOL KHI RO", aliases: &[] },
        Codepoint { codepoint: 0x2CEA, name: "COPTIC SYMBOL SHIMA SIMA", aliases: &[] },
        Codepoint { codepoint: 0x2CEB, name: "COPTIC CAPITAL LETTER CRYPTOGRAMMIC SHEI", aliases: &[] },
        Codepoint { codepoint: 0x2CEC, name: "COPTIC SMALL LETTER CRYPTOGRAMMIC SHEI", aliases: &[] },
        Codepoint { codepoint: 0x2CED, name: "COPTIC CAPITAL LETTER CRYPTOGRAMMIC GANGIA", aliases: &[] },
        Codepoint { codepoint: 0x2CEE, name: "COPTIC SMALL LETTER CRYPTOGRAMMIC GANGIA", aliases: &[] },
        Codepoint { codepoint: 0x2CEF, name: "COPTIC COMBINING NI ABOVE", aliases: &[] },
        Codepoint { codepoint: 0x2CF0, name: "COPTIC COMBINING SPIRITUS ASPER", aliases: &[] },
        Codepoint { codepoint: 0x2CF1, name: "COPTIC COMBINING SPIRITUS LENIS", aliases: &[] },
        Codepoint { codepoint: 0x2CF2, name: "COPTIC CAPITAL LETTER BOHAIRIC KHEI", aliases: &[] },
        Codepoint { codepoint: 0x2CF3, name: "COPTIC SMALL LETTER BOHAIRIC KHEI", aliases: &[] },
        Codepoint { codepoint: 0x2CF9, name: "COPTIC OLD NUBIAN FULL STOP", aliases: &[] },
        Codepoint { codepoint: 0x2CFA, name: "COPTIC OLD NUBIAN DIRECT QUESTION MARK", aliases: &[] },
        Codepoint { codepoint: 0x2CFB, name: "COPTIC OLD NUBIAN INDIRECT QUESTION MARK", aliases: &[] },
        Codepoint { codepoint: 0x2CFC, name: "COPTIC OLD NUBIAN VERSE DIVIDER", aliases: &[] },
        Codepoint { codepoint: 0x2CFD, name: "COPTIC FRACTION ONE HALF", aliases: &[] },
        Codepoint { codepoint: 0x2CFE, name: "COPTIC FULL STOP", aliases: &[] },
        Codepoint { codepoint: 0x2CFF, name: "COPTIC MORPHOLOGICAL DIVIDER", aliases: &[] },
        Codepoint { codepoint: 0x2D00, name: "GEORGIAN SMALL LETTER AN", aliases: &[] },
        Codepoint { codepoint: 0x2D01, name: "GEORGIAN SMALL LETTER BAN", aliases: &[] },
        Codepoint { codepoint: 0x2D02, name: "GEORGIAN SMALL LETTER GAN", aliases: &[] },
        Codepoint { codepoint: 0x2D03, name: "GEORGIAN SMALL LETTER DON", aliases: &[] },
        Codepoint { codepoint: 0x2D04, name: "GEORGIAN SMALL LETTER EN", aliases: &[] },
        Codepoint { codepoint: 0x2D05, name: "GEORGIAN SMALL LETTER VIN", aliases: &[] },
        Codepoint { codepoint: 0x2D06, name: "GEORGIAN SMALL LETTER ZEN", aliases: &[] },
        Codepoint { codepoint: 0x2D07, name: "GEORGIAN SMALL LETTER TAN", aliases: &[] },
        Codepoint { codepoint: 0x2D08, name: "GEORGIAN SMALL LETTER IN", aliases: &[] },
        Codepoint { codepoint: 0x2D09, name: "GEORGIAN SMALL LETTER KAN", aliases: &[] },
        Codepoint { codepoint: 0x2D0A, name: "GEORGIAN SMALL LETTER LAS", aliases: &[] },
        Codepoint { codepoint: 0x2D0B, name: "GEORGIAN SMALL LETTER MAN", aliases: &[] },
        Codepoint { codepoint: 0x2D0C, name: "GEORGIAN SMALL LETTER NAR", aliases: &[] },
        Codepoint { codepoint: 0x2D0D, name: "GEORGIAN SMALL LETTER ON", aliases: &[] },
    ]
}

fn all_codepoints_264() -> (v: Vec<Codepoint>)
    ensures
        v@ == codepoint_table_264(),
{
    let v = vec![
        Codepoint { codepoint: 0x2CE1, name: "COPTIC SMALL LETTER OLD NUBIAN NYI", aliases: &[] },
        Codepoint { codepoint: 0x2CE2, name: "COPTIC CAPITAL LETTER OLD NUBIAN WAU", aliases: &[] },
        Codepoint { codepoint: 0x2CE3, name: "COPTIC SMALL LETTER OLD NUBIAN WAU", aliases: &[] },
        Codepoint { codepoint: 0x2CE4, name: "COPTIC SYMBOL KAI", aliases: &[] },
        Codepoint { codepoint: 0x2CE5, name: "COPTIC SYMBOL MI RO", aliases: &[] },
        Codepoint { codepoint: 0x2CE6, name: "COPTIC SYMBOL PI RO", aliases: &[] },
        Codepoint { codepoint: 0x2CE7, name: "COPTIC SYMBOL STAUROS", aliases: &[] },
        Codepoint { codepoint: 0x2CE8, name: "COPTIC SYMBOL TAU RO", aliases: &[] },
        Codepoint { codepoint: 0x2CE9, name: "COPTIC SYMBOL KHI RO", aliases: &[] },
        Codepoint { codepoint: 0x2CEA, name: "COPTIC SYMBOL SHIMA SIMA", aliases: &[] },
        Codepoint { codepoint: 0x2CEB, name: "COPTIC CAPITAL LETTER CRYPTOGRAMMIC SHEI", aliases: &[] },
        Codepoint { codepoint: 0x2CEC, name: "COPTIC SMALL LETTER CRYPTOGRAMMIC SHEI", aliases: &[] },
        Codepoint { codepoint: 0x2CED, name: "COPTIC CAPITAL LETTER CRYPTOGRAMMIC GANGIA", aliases: &[] },
        Codepoint { codepoint: 0x2CEE, name: "COPTIC SMALL LETTER CRYPTOGRAMMIC GANGIA", aliases: &[] },
        Codepoint { codepoint: 0x2CEF, name: "COPTIC COMBINING NI ABOVE", aliases: &[] },
        Codepoint { codepoint: 0x2CF0, name: "COPTIC COMBINING SPIRITUS ASPER", aliases: &[] },
        Codepoint { codepoint: 0x2CF1, name: "COPTIC COMBINING SPIRITUS LENIS", aliases: &[] },
        Codepoint { codepoint: 0x2CF2, name: "COPTIC CAPITAL LETTER BOHAIRIC KHEI", aliases: &[] },
        Codepoint { codepoint: 0x2CF3, name: "COPTIC SMALL LETTER BOHAIRIC KHEI", aliases: &[] },
        Codepoint { codepoint: 0x2CF9, name: "COPTIC OLD NUBIAN FULL STOP", aliases: &[] },
        Codepoint { codepoint: 0x2CFA, name: "COPTIC OLD NUBIAN DIRECT QUESTION MARK", aliases: &[] },
        Codepoint { codepoint: 0x2CFB, name: "COPTIC OLD NUBIAN INDIRECT QUESTION MARK", aliases: &[] },
        Codepoint { codepoint: 0x2CFC, name: "COPTIC OLD NUBIAN VERSE DIVIDER", aliases: &[] },
        Codepoint { codepoint: 0x2CFD, name: "COPTIC FRACTION ONE HALF", aliases: &[] },
        Codepoint { codepoint: 0x2CFE, name: "COPTIC FULL STOP", aliases: &[] },
        Codepoint { codepoint: 0x2CFF, name: "COPTIC MORPHOLOGICAL DIVIDER", aliases: &[] },
        Codepoint { codepoint: 0x2D00, name: "GEORGIAN SMALL LETTER AN", aliases: &[] },
        Codepoint { codepoint: 0x2D01, name: "GEORGIAN SMALL LETTER BAN", aliases: &[] },
        Codepoint { codepoint: 0x2D02, name: "GEORGIAN SMALL LETTER GAN", aliases: &[] },
        Codepoint { codepoint: 0x2D03, name: "GEORGIAN SMALL LETTER DON", aliases: &[] },
        Codepoint { codepoint: 0x2D04, name: "GEORGIAN SMALL LETTER EN", aliases: &[] },
        Codepoint { codepoint: 0x2D05, name: "GEORGIAN SMALL LETTER VIN", aliases: &[] },
        Codepoint { codepoint: 0x2D06, name: "GEORGIAN SMALL LETTER ZEN", aliases: &[] },
        Codepoint { codepoint: 0x2D07, name: "GEORGIAN SMALL LETTER TAN", aliases: &[] },
        Codepoint { codepoint: 0x2D08, name: "GEORGIAN SMALL LETTER IN", aliases: &[] },
        Codepoint { codepoint: 0x2D09, name: "GEORGIAN SMALL LETTER KAN", aliases: &[] },
        Codepoint { codepoint: 0x2D0A, name: "GEORGIAN SMALL LETTER LAS", aliases: &[] },
        Codepoint { codepoint: 0x2D0B, name: "GEORGIAN SMALL LETTER MAN", aliases: &[] },
        Codepoint { codepoint: 0x2D0C, name: "GEORGIAN SMALL LETTER NAR", aliases: &[] },
        Codepoint { codepoint: 0x2D0D, name: "GEORGIAN SMALL LETTER ON", aliases: &[] },
    ];
    assert(v@ =~= codepoint_table_264());
    v
}

pub open spec fn codepoint_table_265() -> Seq<Codepoint> {
    seq![
        Codepoint { codepoint: 0x2D0E, name: "GEORGIAN SMALL LETTER PAR", aliases: &[] },
        Codepoint { codepoint: 0x2D0F, name: "GEORGIAN SMALL LETTER ZHAR", aliases: &[] },
        Codepoint { codepoint: 0x2D10, name: "GEORGIAN SMALL LETTER RAE", aliases: &[] },
        Codepoint { codepoint: 0x2D11, name: "GEORGIAN SMALL LETTER SAN", aliases: &[] },
        Codepoint { codepoint: 0x2D12, name: "GEORGIAN SMALL LETTER TAR", aliases: &[] },
        Codepoint { codepoint: 0x2D13, name: "GEORGIAN SMALL LETTER UN", aliases: &[] },
        Codepoint { codepoint: 0x2D14, name: "GEORGIAN SMALL LETTER PHAR", aliases: &[] },
        Codepoint { codepoint: 0x2D15, name: "GEORGIAN SMALL LETTER KHAR", aliases: &[] },
        Codepoint { codepoint: 0x2D16, name: "GEORGIAN SMALL LETTER GHAN", aliases: &[] },
        Codepoint { codepoint: 0x2D17, name: "GEORGIAN SMALL LETTER QAR", aliases: &[] },
        Codepoint { codepoint: 0x2D18, name: "GEORGIAN SMALL LETTER SHIN", aliases: &[] },
        Codepoint { codepoint: 0x2D19, name: "GEORGIAN SMALL LETTER CHIN", aliases: &[] },
        Codepoint { codepoint: 0x2D1A, name: "GEORGIAN SMALL LETTER CAN", aliases: &[] },
        Codepoint { codepoint: 0x2D1B, name: "GEORGIAN SMALL LETTER JIL", aliases: &[] },
        Codepoint { codepoint: 0x2D1C, name: "GEORGIAN SMALL LETTER CIL", aliases: &[] },
        Codepoint { codepoint: 0x2D1D, name: "GEORGIAN SMALL LETTER CHAR", aliases: &[] },
        Codepoint { codepoint: 0x2D1E, name: "GEORGIAN SMALL LETTER XAN", aliases: &[] },
        Codepoint { codepoint: 0x2D1F, name: "GEORGIAN SMALL LETTER JHAN", aliases: &[] },
        Codepoint { codepoint: 0x2D20, name: "GEORGIAN SMALL LETTER HAE", aliases: &[] },
        Codepoint { codepoint: 0x2D21, name: "GEORGIAN SMALL LETTER HE", aliases: &[] },
        Codepoint { codepoint: 0x2D22, name: "GEORGIAN SMALL LETTER HIE", aliases: &[] },
        Codepoint { codepoint: 0x2D23, name: "GEORGIAN SMALL LETTER WE", aliases: &[] },
        Codepoint { codepoint: 0x2D24, name: "GEORGIAN SMALL LETTER HAR", aliases: &[] },
        Codepoint { codepoint: 0x2D25, name: "GEORGIAN SMALL LETTER HOE", aliases: &[] },
        Codepoint { codepoint: 0x2D27, name: "GEORGIAN SMALL LETTER YN", aliases: &[] },
        Codepoint { codepoint: 0x2D2D, name: "GEORGIAN SMALL LETTER AEN", aliases: &[] },
        Codepoint { codepoint: 0x2D30, name: "TIFINAGH LETTER YA", aliases: &[] },
        Codepoint { codepoint: 0x2D31, name: "TIFINAGH LETTER YAB", aliases: &[] },
        Codepoint { codepoint: 0x2D32, name: "TIFINAGH LETTER YABH", aliases: &[] },
        Codepoint { codepoint: 0x2D33, name: "TIFINAGH LETTER YAG", aliases: &[] },
        Codepoint { codepoint: 0x2D34, name: "TIFINAGH LETTER YAGHH", aliases: &[] },
        Codepoint { codepoint: 0x2D35, name: "TIFINAGH LETTER BERBER ACADEMY YAJ", aliases: &[] },
        Codepoint { codepoint: 0x2D36, name: "TIFINAGH LETTER YAJ", aliases: &[] },
        Codepoint { codepoint: 0x2D37, name: "TIFINAGH LETTER YAD", aliases: &[] },
        Codepoint { codepoint: 0x2D38, name: "TIFINAGH LETTER YADH", aliases: &[] },
        Codepoint { codepoint: 0x2D39, name: "TIFINAGH LETTER YADD", aliases: &[] },
        Codepoint { codepoint: 0x2D3A, name: "TIFINAGH LETTER YADDH", aliases: &[] },
        Codepoint { codepoint: 0x2D3B, name: "TIFINAGH LETTER YEY", aliases: &[] },
        Codepoint { codepoint: 0x2D3C, name: "TIFINAGH LETTER YAF", aliases: &[] },
        Codepoint { codepoint: 0x2D3D, name: "TIFINAGH LETTER YAK", aliases: &[] },
    ]
}

fn all_codepoints_265() -> (v: Vec<Codepoint>)
    ensures
        v@ == codepoint_table_265(),
{
    let v = vec![
        Codepoint { codepoint: 0x2D0E, name: "GEORGIAN SMALL LETTER PAR", aliases: &[] },
        Codepoint { codepoint: 0x2D0F, name: "GEORGIAN SMALL LETTER ZHAR", aliases: &[] },
        Codepoint { codepoint: 0x2D10, name: "GEORGIAN SMALL LETTER RAE", aliases: &[] },
        Codepoint { codepoint: 0x2D11, name: "GEORGIAN SMALL LETTER SAN", aliases: &[] },
        Codepoint { codepoint: 0x2D12, name: "GEORGIAN SMALL LETTER TAR", aliases: &[] },
        Codepoint { codepoint: 0x2D13, name: "GEORGIAN SMALL LETTER UN", aliases: &[] },
        Codepoint { codepoint: 0x2D14, name: "GEORGIAN SMALL LETTER PHAR", aliases: &[] },
        Codepoint { codepoint: 0x2D15, name: "GEORGIAN SMALL LETTER KHAR", aliases: &[] },
        Codepoint { codepoint: 0x2D16, name: "GEORGIAN SMALL LETTER GHAN", aliases: &[] },
        Codepoint { codepoint: 0x2D17, name: "GEORGIAN SMALL LETTER QAR", aliases: &[] },
        Codepoint { codepoint: 0x2D18, name: "GEORGIAN SMALL LETTER SHIN", aliases: &[] },
        Codepoint { codepoint: 0x2D19, name: "GEORGIAN SMALL LETTER CHIN", aliases: &[] },
        Codepoint { codepoint: 0x2D1A, name: "GEORGIAN SMALL LETTER CAN", aliases: &[] },
        Codepoint { codepoint: 0x2D1B, name: "GEORGIAN SMALL LETTER JIL", aliases: &[] },
        Codepoint { codepoint: 0x2D1C, name: "GEORGIAN SMALL LETTER CIL", aliases: &[] },
        Codepoint { codepoint: 0x2D1D, name: "GEORGIAN SMALL LETTER CHAR", aliases: &[] },
        Codepoint { codepoint: 0x2D1E, name: "GEORGIAN SMALL LETTER XAN", aliases: &[] },
        Codepoint { codepoint: 0x2D1F, name: "GEORGIAN SMALL LETTER JHAN", aliases: &[] },
        Codepoint { codepoint: 0x2D20, name: "GEORGIAN SMALL LETTER HAE", aliases: &[] },
        Codepoint { codepoint: 0x2D21, name: "GEORGIAN SMALL LETTER HE", aliases: &[] },
        Codepoint { codepoint: 0x2D22, name: "GEORGIAN SMALL LETTER HIE", aliases: &[] },
        Codepoint { codepoint: 0x2D23, name: "GEORGIAN SMALL LETTER WE", aliases: &[] },
        Codepoint { codepoint: 0x2D24, name: "GEORGIAN SMALL LETTER HAR", aliases: &[] },
        Codepoint { codepoint: 0x2D25, name: "GEORGIAN SMALL LETTER HOE", aliases: &[] },
        Codepoint { codepoint: 0x2D27, name: "GEORGIAN SMALL LETTER YN", aliases: &[] },
        Codepoint { codepoint: 0x2D2D, name: "GEORGIAN SMALL LETTER AEN", aliases: &[] },
        Codepoint { codepoint: 0x2D30, name: "TIFINAGH LETTER YA", aliases: &[] },
        Codepoint { codepoint: 0x2D31, name: "TIFINAGH LETTER YAB", aliases: &[] },
        Codepoint { codepoint: 0x2D32, name: "TIFINAGH LETTER YABH", aliases: &[] },
        Codepoint { codepoint: 0x2D33, name: "TIFINAGH LETTER YAG", aliases: &[] },
        Codepoint { codepoint: 0x2D34, name: "TIFINAGH LETTER YAGHH", aliases: &[] },
        Codepoint { codepoint: 0x2D35, name: "TIFINAGH LETTER BERBER ACADEMY YAJ", aliases: &[] },
        Codepoint { codepoint: 0x2D36, name: "TIFINAGH LETTER YAJ", aliases: &[] },
        Codepoint { codepoint: 0x2D37, name: "TIFINAGH LETTER YAD", aliases: &[] },
        Codepoint { codepoint: 0x2D38, name: "TIFINAGH LETTER YADH", aliases: &[] },
        Codepoint { codepoint: 0x2D39, name: "TIFINAGH LETTER YADD", aliases: &[] },
        Codepoint { codepoint: 0x2D3A, name: "TIFINAGH LETTER YADDH", aliases: &[] },
        Codepoint { codepoint: 0x2D3B, name: "TIFINAGH LETTER YEY", aliases: &[] },
        Codepoint { codepoint: 0x2D3C, name: "TIFINAGH LETTER YAF", aliases: &[] },
        Codepoint { codepoint: 0x2D3D, name: "TIFINAGH LETTER YAK", aliases: &[] },
    ];
    assert(v@ =~= codepoint_table_265());
    v
}

pub open spec fn codepoint_table_266() -> Seq<Codepoint> {
    seq![
        Codepoint { codepoint: 0x2D3E, name: "TIFINAGH LETTER TUAREG YAK", aliases: &[] },
        Codepoint { codepoint: 0x2D3F, name: "TIFINAGH LETTER YAKHH", aliases: &[] },
        Codepoint { codepoint: 0x2D40, name: "TIFINAGH LETTER YAH", aliases: &[] },
        Codepoint { codepoint: 0x2D41, name: "TIFINAGH LETTER BERBER ACADEMY YAH", aliases: &[] },
        Codepoint { codepoint: 0x2D42, name: "TIFINAGH LETTER TUAREG YAH", aliases: &[] },
        Codepoint { codepoint: 0x2D43, name: "TIFINAGH LETTER YAHH", aliases: &[] },
        Codepoint { codepoint: 0x2D44, name: "TIFINAGH LETTER YAA", aliases: &[] },
        Codepoint { codepoint: 0x2D45, name: "TIFINAGH LETTER YAKH", aliases: &[] },
        Codepoint { codepoint: 0x2D46, name: "TIFINAGH LETTER TUAREG YAKH", aliases: &[] },
        Codepoint { codepoint: 0x2D47, name: "TIFINAGH LETTER YAQ", aliases: &[] },
        Codepoint { codepoint: 0x2D48, name: "TIFINAGH LETTER TUAREG YAQ", aliases: &[] },
        Codepoint { codepoint: 0x2D49, name: "TIFINAGH LETTER YI", aliases: &[] },
        Codepoint { codepoint: 0x2D4A, name: "TIFINAGH LETTER YAZH", aliases: &[] },
        Codepoint { codepoint: 0x2D4B, name: "TIFINAGH LETTER AHAGGAR YAZH", aliases: &[] },
        Codepoint { codepoint: 0x2D4C, name: "TIFINAGH LETTER TUAREG YAZH", aliases: &[] },
        Codepoint { codepoint: 0x2D4D, name: "TIFINAGH LETTER YAL", aliases: &[] },
        Codepoint { codepoint: 0x2D4E, name: "TIFINAGH LETTER YAM", aliases: &[] },
        Codepoint { codepoint: 0x2D4F, name: "TIFINAGH LETTER YAN", aliases: &[] },
        Codepoint { codepoint: 0x2D50, name: "TIFINAGH LETTER TUAREG YAGN", aliases: &[] },
        Codepoint { codepoint: 0x2D51, name: "TIFINAGH LETTER TUAREG YANG", aliases: &[] },
        Codepoint { codepoint: 0x2D52, name: "TIFINAGH LETTER YAP", aliases: &[] },
        Codepoint { codepoint: 0x2D53, name: "TIFINAGH LETTER YU", aliases: &[] },
        Codepoint { codepoint: 0x2D54, name: "TIFINAGH LETTER YAR", aliases: &[] },
        Codepoint { codepoint: 0x2D55, name: "TIFINAGH LETTER YARR", aliases: &[] },
        Codepoint { codepoint: 0x2D56, name: "TIFINAGH LETTER YAGH", aliases: &[] },
        Codepoint { codepoint: 0x2D57, name: "TIFINAGH LETTER TUAREG YAGH", aliases: &[] },
        Codepoint { codepoint: 0x2D58, name: "TIFINAGH LETTER AYER YAGH", aliases: &[] },
        Codepoint { codepoint: 0x2D59, name: "TIFINAGH LETTER YAS", aliases: &[] },
        Codepoint { codepoint: 0x2D5A, name: "TIFINAGH LETTER YASS", aliases: &[] },
        Codepoint { codepoint: 0x2D5B, name: "TIFINAGH LETTER YASH", aliases: &[] },
        Codepoint { codepoint: 0x2D5C, name: "TIFINAGH LETTER YAT", aliases: &[] },
        Codepoint { codepoint: 0x2D5D, name: "TIFINAGH LETTER YATH", aliases: &[] },
        Codepoint { codepoint: 0x2D5E, name: "TIFINAGH LETTER YACH", aliases: &[] },
        Codepoint { codepoint: 0x2D5F, name: "TIFINAGH LETTER YATT", aliases: &[] },
        Codepoint { codepoint: 0x2D60, name: "TIFINAGH LETTER YAV", aliases: &[] },
        Codepoint { codepoint: 0x2D61, name: "TIFINAGH LETTER YAW", aliases: &[] },
        Codepoint { codepoint: 0x2D62, name: "TIFINAGH LETTER YAY", aliases: &[] },
        Codepoint { codepoint: 0x2D63, name: "TIFINAGH LETTER YAZ", aliases: &[] },
        Codepoint { codepoint: 0x2D64, name: "TIFINAGH LETTER TAWELLEMET YAZ", aliases: &[] },
        Codepoint { codepoint: 0x2D65, name: "TIFINAGH LETTER YAZZ", aliases: &[] },
    ]
}

fn all_codepoints_266() -> (v: Vec<Codepoint>)
    ensures
        v@ == codepoint_table_266(),
{
    let v = vec![
        Codepoint { codepoint: 0x2D3E, name: "TIFINAGH LETTER TUAREG YAK", aliases: &[] },
        Codepoint { codepoint: 0x2D3F, name: "TIFINAGH LETTER YAKHH", aliases: &[] },
        Codepoint { codepoint: 0x2D40, name: "TIFINAGH LETTER YAH", aliases: &[] },
        Codepoint { codepoint: 0x2D41, name: "TIFINAGH LETTER BERBER ACADEMY YAH", aliases: &[] },
        Codepoint { codepoint: 0x2D42, name: "TIFINAGH LETTER TUAREG YAH", aliases: &[] },
        Codepoint { codepoint: 0x2D43, name: "TIFINAGH LETTER YAHH", aliases: &[] },
        Codepoint { codepoint: 0x2D44, name: "TIFINAGH LETTER YAA", aliases: &[] },
        Codepoint { codepoint: 0x2D45, name: "TIFINAGH LETTER YAKH", aliases: &[] },
        Codepoint { codepoint: 0x2D46, name: "TIFINAGH LETTER TUAREG YAKH", aliases: &[] },
        Codepoint { codepoint: 0x2D47, name: "TIFINAGH LETTER YAQ", aliases: &[] },
        Codepoint { codepoint: 0x2D48, name: "TIFINAGH LETTER TUAREG YAQ", aliases: &[] },
        Codepoint { codepoint: 0x2D49, name: "TIFINAGH LETTER YI", aliases: &[] },
        Codepoint { codepoint: 0x2D4A, name: "TIFINAGH LETTER YAZH", aliases: &[] },
        Codepoint { codepoint: 0x2D4B, name: "TIFINAGH LETTER AHAGGAR YAZH", aliases: &[] },
        Codepoint { codepoint: 0x2D4C, name: "TIFINAGH LETTER TUAREG YAZH", aliases: &[] },
        Codepoint { codepoint: 0x2D4D, name: "TIFINAGH LETTER YAL", aliases: &[] },
        Codepoint { codepoint: 0x2D4E, name: "TIFINAGH LETTER YAM", aliases: &[] },
        Codepoint { codepoint: 0x2D4F, name: "TIFINAGH LETTER YAN", aliases: &[] },
        Codepoint { codepoint: 0x2D50, name: "TIFINAGH LETTER TUAREG YAGN", aliases: &[] },
        Codepoint { codepoint: 0x2D51, name: "TIFINAGH LETTER TUAREG YANG", aliases: &[] },
        Codepoint { codepoint: 0x2D52, name: "TIFINAGH LETTER YAP", aliases: &[] },
        Codepoint { codepoint: 0x2D53, name: "TIFINAGH LETTER YU", aliases: &[] },
        Codepoint { codepoint: 0x2D54, name: "TIFINAGH LETTER YAR", aliases: &[] },
        Codepoint { codepoint: 0x2D55, name: "TIFINAGH LETTER YARR", aliases: &[] },
        Codepoint { codepoint: 0x2D56, name: "TIFINAGH LETTER YAGH", aliases: &[] },
        Codepoint { codepoint: 0x2D57, name: "TIFINAGH LETTER TUAREG YAGH", aliases: &[] },
        Codepoint { codepoint: 0x2D58, name: "TIFINAGH LETTER AYER YAGH", aliases: &[] },
        Codepoint { codepoint: 0x2D59, name: "TIFINAGH LETTER YAS", aliases: &[] },
        Codepoint { codepoint: 0x2D5A, name: "TIFINAGH LETTER YASS", aliases: &[] },
        Codepoint { codepoint: 0x2D5B, name: "TIFINAGH LETTER YASH", aliases: &[] },
        Codepoint { codepoint: 0x2D5C, name: "TIFINAGH LETTER YAT", aliases: &[] },
        Codepoint { codepoint: 0x2D5D, name: "TIFINAGH LETTER YATH", aliases: &[] },
        Codepoint { codepoint: 0x2D5E, name: "TIFINAGH LETTER YACH", aliases: &[] },
        Codepoint { codepoint: 0x2D5F, name: "TIFINAGH LETTER YATT", aliases: &[] },
        Codepoint { codepoint: 0x2D60, name: "TIFINAGH LETTER YAV", aliases: &[] },
        Codepoint { codepoint: 0x2D61, name: "TIFINAGH LETTER YAW", aliases: &[] },
        Codepoint { codepoint: 0x2D62, name: "TIFINAGH LETTER YAY", aliases: &[] },
        Codepoint { codepoint: 0x2D63, name: "TIFINAGH LETTER YAZ", aliases: &[] },
        Codepoint { codepoint: 0x2D64, name: "TIFINAGH LETTER TAWELLEMET YAZ", aliases: &[] },
        Codepoint { codepoint: 0x2D65, name: "TIFINAGH LETTER YAZZ", aliases: &[] },
    ];
    assert(v@ =~= codepoint_table_266());
    v
}

pub open spec fn codepoint_table_267() -> Seq<Codepoint> {
    seq![
        Codepoint { codepoint: 0x2D66, name: "TIFINAGH LETTER YE", aliases: &[] },
        Codepoint { codepoint: 0x2D67, name: "TIFINAGH LETTER YO", aliases: &[] },
        Codepoint { codepoint: 0x2D6F, name: "TIFINAGH MODIFIER LETTER LABIALIZATION MARK", aliases: &[] },
        Codepoint { codepoint: 0x2D70, name: "TIFINAGH SEPARATOR MARK", aliases: &[] },
        Codepoint { codepoint: 0x2D7F, name: "TIFINAGH CONSONANT JOINER", aliases: &[] },
        Codepoint { codepoint: 0x2D80, name: "ETHIOPIC SYLLABLE LOA", aliases: &[] },
        Codepoint { codepoint: 0x2D81, name: "ETHIOPIC SYLLABLE MOA", aliases: &[] },
        Codepoint { codepoint: 0x2D82, name: "ETHIOPIC SYLLABLE ROA", aliases: &[] },
        Codepoint { codepoint: 0x2D83, name: "ETHIOPIC SYLLABLE SOA", aliases: &[] },
        Codepoint { codepoint: 0x2D84, name: "ETHIOPIC SYLLABLE SHOA", aliases: &[] },
        Codepoint { codepoint: 0x2D85, name: "ETHIOPIC SYLLABLE BOA", aliases: &[] },
        Codepoint { codepoint: 0x2D86, name: "ETHIOPIC SYLLABLE TOA", aliases: &[] },
        Codepoint { codepoint: 0x2D87, name: "ETHIOPIC SYLLABLE COA", aliases: &[] },
        Codepoint { codepoint: 0x2D88, name: "ETHIOPIC SYLLABLE NOA", aliases: &[] },
        Codepoint { codepoint: 0x2D89, name: "ETHIOPIC SYLLABLE NYOA", aliases: &[] },
        Codepoint { codepoint: 0x2D8A, name: "ETHIOPIC SYLLABLE GLOTTAL OA", aliases: &[] },
        Codepoint { codepoint: 0x2D8B, name: "ETHIOPIC SYLLABLE ZOA", aliases: &[] },
        Codepoint { codepoint: 0x2D8C, name: "ETHIOPIC SYLLABLE DOA", aliases: &[] },
        Codepoint { codepoint: 0x2D8D, name: "ETHIOPIC SYLLABLE DDOA", aliases: &[] },
        Codepoint { codepoint: 0x2D8E, name: "ETHIOPIC SYLLABLE JOA", aliases: &[] },
        Codepoint { codepoint: 0x2D8F, name: "ETHIOPIC SYLLABLE THOA", aliases: &[] },
        Codepoint { codepoint: 0x2D90, name: "ETHIOPIC SYLLABLE CHOA", aliases: &[] },
        Codepoint { codepoint: 0x2D91, name: "ETHIOPIC SYLLABLE PHOA", aliases: &[] },
        Codepoint { codepoint: 0x2D92, name: "ETHIOPIC SYLLABLE POA", aliases: &[] },
        Codepoint { codepoint: 0x2D93, name: "ETHIOPIC SYLLABLE GGWA", aliases: &[] },
        Codepoint { codepoint: 0x2D94, name: "ETHIOPIC SYLLABLE GGWI", aliases: &[] },
        Codepoint { codepoint: 0x2D95, name: "ETHIOPIC SYLLABLE GGWEE", aliases: &[] },
        Codepoint { codepoint: 0x2D96, name: "ETHIOPIC SYLLABLE GGWE", aliases: &[] },
        Codepoint { codepoint: 0x2DA0, name: "ETHIOPIC SYLLABLE SSA", aliases: &[] },
        Codepoint { codepoint: 0x2DA1, name: "ETHIOPIC SYLLABLE SSU", aliases: &[] },
        Codepoint { codepoint: 0x2DA2, name: "ETHIOPIC SYLLABLE SSI", aliases: &[] },
        Codepoint { codepoint: 0x2DA3, name: "ETHIOPIC SYLLABLE SSAA", aliases: &[] },
        Codepoint { codepoint: 0x2DA4, name: "ETHIOPIC SYLLABLE SSEE", aliases: &[] },
        Codepoint { codepoint: 0x2DA5, name: "ETHIOPIC SYLLABLE SSE", aliases: &[] },
        Codepoint { codepoint: 0x2DA6, name: "ETHIOPIC SYLLABLE SSO", aliases: &[] },
        Codepoint { codepoint: 0x2DA8, name: "ETHIOPIC SYLLABLE CCA", aliases: &[] },
        Codepoint { codepoint: 0x2DA9, name: "ETHIOPIC SYLLABLE CCU", aliases: &[] },
        Codepoint { codepoint: 0x2DAA, name: "ETHIOPIC SYLLABLE CCI", aliases: &[] },
        Codepoint { codepoint: 0x2DAB, name: "ETHIOPIC SYLLABLE CCAA", aliases: &[] },
        Codepoint { codepoint: 0x2DAC, name: "ETHIOPIC SYLLABLE CCEE", aliases: &[] },
    ]
}

fn all_codepoints_267() -> (v: Vec<Codepoint>)
    ensures
        v@ == codepoint_table_267(),
{
    let v = vec![
        Codepoint { codepoint: 0x2D66, name: "TIFINAGH LETTER YE", aliases: &[] },
        Codepoint { codepoint: 0x2D67, name: "TIFINAGH LETTER YO", aliases: &[] },
        Codepoint { codepoint: 0x2D6F, name: "TIFINAGH MODIFIER LETTER LABIALIZATION MARK", aliases: &[] },
        Codepoint { codepoint: 0x2D70, name: "TIFINAGH SEPARATOR MARK", aliases: &[] },
        Codepoint { codepoint: 0x2D7F, name: "TIFINAGH CONSONANT JOINER", aliases: &[] },
        Codepoint { codepoint: 0x2D80, name: "ETHIOPIC SYLLABLE LOA", aliases: &[] },
        Codepoint { codepoint: 0x2D81, name: "ETHIOPIC SYLLABLE MOA", aliases: &[] },
        Codepoint { codepoint: 0x2D82, name: "ETHIOPIC SYLLABLE ROA", aliases: &[] },
        Codepoint { codepoint: 0x2D83, name: "ETHIOPIC SYLLABLE SOA", aliases: &[] },
        Codepoint { codepoint: 0x2D84, name: "ETHIOPIC SYLLABLE SHOA", aliases: &[] },
        Codepoint { codepoint: 0x2D85, name: "ETHIOPIC SYLLABLE BOA", aliases: &[] },
        Codepoint { codepoint: 0x2D86, name: "ETHIOPIC SYLLABLE TOA", aliases: &[] },
        Codepoint { codepoint: 0x2D87, name: "ETHIOPIC SYLLABLE COA", aliases: &[] },
        Codepoint { codepoint: 0x2D88, name: "ETHIOPIC SYLLABLE NOA", aliases: &[] },
        Codepoint { codepoint: 0x2D89, name: "ETHIOPIC SYLLABLE NYOA", aliases: &[] },
        Codepoint { codepoint: 0x2D8A, name: "ETHIOPIC SYLLABLE GLOTTAL OA", aliases: &[] },
        Codepoint { codepoint: 0x2D8B, name: "ETHIOPIC SYLLABLE ZOA", aliases: &[] },
        Codepoint { codepoint: 0x2D8C, name: "ETHIOPIC SYLLABLE DOA", aliases: &[] },
        Codepoint { codepoint: 0x2D8D, name: "ETHIOPIC SYLLABLE DDOA", aliases: &[] },
        Codepoint { codepoint: 0x2D8E, name: "ETHIOPIC SYLLABLE JOA", aliases: &[] },
        Codepoint { codepoint: 0x2D8F, name: "ETHIOPIC SYLLABLE THOA", aliases: &[] },
        Codepoint { codepoint: 0x2D90, name: "ETHIOPIC SYLLABLE CHOA", aliases: &[] },
        Codepoint { codepoint: 0x2D91, name: "ETHIOPIC SYLLABLE PHOA", aliases: &[] },
        Codepoint { codepoint: 0x2D92, name: "ETHIOPIC SYLLABLE POA", aliases: &[] },
        Codepoint { codepoint: 0x2D93, name: "ETHIOPIC SYLLABLE GGWA", aliases: &[] },
        Codepoint { codepoint: 0x2D94, name: "ETHIOPIC SYLLABLE GGWI", aliases: &[] },
        Codepoint { codepoint: 0x2D95, name: "ETHIOPIC SYLLABLE GGWEE", aliases: &[] },
        Codepoint { codepoint: 0x2D96, name: "ETHIOPIC SYLLABLE GGWE", aliases: &[] },
        Codepoint { codepoint: 0x2DA0, name: "ETHIOPIC SYLLABLE SSA", aliases: &[] },
        Codepoint { codepoint: 0x2DA1, name: "ETHIOPIC SYLLABLE SSU", aliases: &[] },
        Codepoint { codepoint: 0x2DA2, name: "ETHIOPIC SYLLABLE SSI", aliases: &[] },
        Codepoint { codepoint: 0x2DA3, name: "ETHIOPIC SYLLABLE SSAA", aliases: &[] },
        Codepoint { codepoint: 0x2DA4, name: "ETHIOPIC SYLLABLE SSEE", aliases: &[] },
        Codepoint { codepoint: 0x2DA5, name: "ETHIOPIC SYLLABLE SSE", aliases: &[] },
        Codepoint { codepoint: 0x2DA6, name: "ETHIOPIC SYLLABLE SSO", aliases: &[] },
        Codepoint { codepoint: 0x2DA8, name: "ETHIOPIC SYLLABLE CCA", aliases: &[] },
        Codepoint { codepoint: 0x2DA9, name: "ETHIOPIC SYLLABLE CCU", aliases: &[] },
        Codepoint { codepoint: 0x2DAA, name: "ETHIOPIC SYLLABLE CCI", aliases: &[] },
        Codepoint { codepoint: 0x2DAB, name: "ETHIOPIC SYLLABLE CCAA", aliases: &[] },
        Codepoint { codepoint: 0x2DAC, name: "ETHIOPIC SYLLABLE CCEE", aliases: &[] },
    ];
    assert(v@ =~= codepoint_table_267());
    v
}

pub open spec fn codepoint_table_268() -> Seq<Codepoint> {
    seq![
        Codepoint { codepoint: 0x2DAD, name: "ETHIOPIC SYLLABLE CCE", aliases: &[] },
        Codepoint { codepoint: 0x2DAE, name: "ETHIOPIC SYLLABLE CCO", aliases: &[] },
        Codepoint { codepoint: 0x2DB0, name: "ETHIOPIC SYLLABLE ZZA", aliases: &[] },
        Codepoint { codepoint: 0x2DB1, name: "ETHIOPIC SYLLABLE ZZU", aliases: &[] },
        Codepoint { codepoint: 0x2DB2, name: "ETHIOPIC SYLLABLE ZZI", aliases: &[] },
        Codepoint { codepoint: 0x2DB3, name: "ETHIOPIC SYLLABLE ZZAA", aliases: &[] },
        Codepoint { codepoint: 0x2DB4, name: "ETHIOPIC SYLLABLE ZZEE", aliases: &[] },
        Codepoint { codepoint: 0x2DB5, name: "ETHIOPIC SYLLABLE ZZE", aliases: &[] },
        Codepoint { codepoint: 0x2DB6, name: "ETHIOPIC SYLLABLE ZZO", aliases: &[] },
        Codepoint { codepoint: 0x2DB8, name: "ETHIOPIC SYLLABLE CCHA", aliases: &[] },
        Codepoint { codepoint: 0x2DB9, name: "ETHIOPIC SYLLABLE CCHU", aliases: &[] },
        Codepoint { codepoint: 0x2DBA, name: "ETHIOPIC SYLLABLE CCHI", aliases: &[] },
        Codepoint { codepoint: 0x2DBB, name: "ETHIOPIC SYLLABLE CCHAA", aliases: &[] },
        Codepoint { codepoint: 0x2DBC, name: "ETHIOPIC SYLLABLE CCHEE", aliases: &[] },
        Codepoint { codepoint: 0x2DBD, name: "ETHIOPIC SYLLABLE CCHE", aliases: &[] },
        Codepoint { codepoint: 0x2DBE, name: "ETHIOPIC SYLLABLE CCHO", aliases: &[] },
        Codepoint { codepoint: 0x2DC0, name: "ETHIOPIC SYLLABLE QYA", aliases: &[] },
        Codepoint { codepoint: 0x2DC1, name: "ETHIOPIC SYLLABLE QYU", aliases: &[] },
        Codepoint { codepoint: 0x2DC2, name: "ETHIOPIC SYLLABLE QYI", aliases: &[] },
        Codepoint { codepoint: 0x2DC3, name: "ETHIOPIC SYLLABLE QYAA", aliases: &[] },
        Codepoint { codepoint: 0x2DC4, name: "ETHIOPIC SYLLABLE QYEE", aliases: &[] },
        Codepoint { codepoint: 0x2DC5, name: "ETHIOPIC SYLLABLE QYE", aliases: &[] },
        Codepoint { codepoint: 0x2DC6, name: "ETHIOPIC SYLLABLE QYO", aliases: &[] },
        Codepoint { codepoint: 0x2DC8, name: "ETHIOPIC SYLLABLE KYA", aliases: &[] },
        Codepoint { codepoint: 0x2DC9, name: "ETHIOPIC SYLLABLE KYU", aliases: &[] },
        Codepoint { codepoint: 0x2DCA, name: "ETHIOPIC SYLLABLE KYI", aliases: &[] },
        Codepoint { codepoint: 0x2DCB, name: "ETHIOPIC SYLLABLE KYAA", aliases: &[] },
        Codepoint { codepoint: 0x2DCC, name: "ETHIOPIC SYLLABLE KYEE", aliases: &[] },
        Codepoint { codepoint: 0x2DCD, name: "ETHIOPIC SYLLABLE KYE", aliases: &[] },
        Codepoint { codepoint: 0x2DCE, name: "ETHIOPIC SYLLABLE KYO", aliases: &[] },
        Codepoint { codepoint: 0x2DD0, name: "ETHIOPIC SYLLABLE XYA", aliases: &[] },
        Codepoint { codepoint: 0x2DD1, name: "ETHIOPIC SYLLABLE XYU", aliases: &[] },
        Codepoint { codepoint: 0x2DD2, name: "ETHIOPIC SYLLABLE XYI", aliases: &[] },
        Codepoint { codepoint: 0x2DD3, name: "ETHIOPIC SYLLABLE XYAA", aliases: &[] },
        Codepoint { codepoint: 0x2DD4, name: "ETHIOPIC SYLLABLE XYEE", aliases: &[] },
        Codepoint { codepoint: 0x2DD5, name: "ETHIOPIC SYLLABLE XYE", aliases: &[] },
        Codepoint { codepoint: 0x2DD6, name: "ETHIOPIC SYLLABLE XYO", aliases: &[] },
        Codepoint { codepoint: 0x2DD8, name: "ETHIOPIC SYLLABLE GYA", aliases: &[] },
        Codepoint { codepoint: 0x2DD9, name: "ETHIOPIC SYLLABLE GYU", aliases: &[] },
        Codepoint { codepoint: 0x2DDA, name: "ETHIOPIC SYLLABLE GYI", aliases: &[] },
    ]
}

fn all_codepoints_268() -> (v: Vec<Codepoint>)
    ensures
        v@ == codepoint_table_268(),
{
    let v = vec![
        Codepoint { codepoint: 0x2DAD, name: "ETHIOPIC SYLLABLE CCE", aliases: &[] },
        Codepoint { codepoint: 0x2DAE, name: "ETHIOPIC SYLLABLE CCO", aliases: &[] },
        Codepoint { codepoint: 0x2DB0, name: "ETHIOPIC SYLLABLE ZZA", aliases: &[] },
        Codepoint { codepoint: 0x2DB1, name: "ETHIOPIC SYLLABLE ZZU", aliases: &[] },
        Codepoint { codepoint: 0x2DB2, name: "ETHIOPIC SYLLABLE ZZI", aliases: &[] },
        Codepoint { codepoint: 0x2DB3, name: "ETHIOPIC SYLLABLE ZZAA", aliases: &[] },
        Codepoint { codepoint: 0x2DB4, name: "ETHIOPIC SYLLABLE ZZEE", aliases: &[] },
        Codepoint { codepoint: 0x2DB5, name: "ETHIOPIC SYLLABLE ZZE", aliases: &[] },
        Codepoint { codepoint: 0x2DB6, name: "ETHIOPIC SYLLABLE ZZO", aliases: &[] },
        Codepoint { codepoint: 0x2DB8, name: "ETHIOPIC SYLLABLE CCHA", aliases: &[] },
        Codepoint { codepoint: 0x2DB9, name: "ETHIOPIC SYLLABLE CCHU", aliases: &[] },
        Codepoint { codepoint: 0x2DBA, name: "ETHIOPIC SYLLABLE CCHI", aliases: &[] },
        Codepoint { codepoint: 0x2DBB, name: "ETHIOPIC SYLLABLE CCHAA", aliases: &[] },
        Codepoint { codepoint: 0x2DBC, name: "ETHIOPIC SYLLABLE CCHEE", aliases: &[] },
        Codepoint { codepoint: 0x2DBD, name: "ETHIOPIC SYLLABLE CCHE", aliases: &[] },
        Codepoint { codepoint: 0x2DBE, name: "ETHIOPIC SYLLABLE CCHO", aliases: &[] },
        Codepoint { codepoint: 0x2DC0, name: "ETHIOPIC SYLLABLE QYA", aliases: &[] },
        Codepoint { codepoint: 0x2DC1, name: "ETHIOPIC SYLLABLE QYU", aliases: &[] },
        Codepoint { codepoint: 0x2DC2, name: "ETHIOPIC SYLLABLE QYI", aliases: &[] },
        Codepoint { codepoint: 0x2DC3, name: "ETHIOPIC SYLLABLE QYAA", aliases: &[] },
        Codepoint { codepoint: 0x2DC4, name: "ETHIOPIC SYLLABLE QYEE", aliases: &[] },
        Codepoint { codepoint: 0x2DC5, name: "ETHIOPIC SYLLABLE QYE", aliases: &[] },
        Codepoint { codepoint: 0x2DC6, name: "ETHIOPIC SYLLABLE QYO", aliases: &[] },
        Codepoint { codepoint: 0x2DC8, name: "ETHIOPIC SYLLABLE KYA", aliases: &[] },
        Codepoint { codepoint: 0x2DC9, name: "ETHIOPIC SYLLABLE KYU", aliases: &[] },
        Codepoint { codepoint: 0x2DCA, name: "ETHIOPIC SYLLABLE KYI", aliases: &[] },
        Codepoint { codepoint: 0x2DCB, name: "ETHIOPIC SYLLABLE KYAA", aliases: &[] },
        Codepoint { codepoint: 0x2DCC, name: "ETHIOPIC SYLLABLE KYEE", aliases: &[] },
        Codepoint { codepoint: 0x2DCD, name: "ETHIOPIC SYLLABLE KYE", aliases: &[] },
        Codepoint { codepoint: 0x2DCE, name: "ETHIOPIC SYLLABLE KYO", aliases: &[] },
        Codepoint { codepoint: 0x2DD0, name: "ETHIOPIC SYLLABLE XYA", aliases: &[] },
        Codepoint { codepoint: 0x2DD1, name: "ETHIOPIC SYLLABLE XYU", aliases: &[] },
        Codepoint { codepoint: 0x2DD2, name: "ETHIOPIC SYLLABLE XYI", aliases: &[] },
        Codepoint { codepoint: 0x2DD3, name: "ETHIOPIC SYLLABLE XYAA", aliases: &[] },
        Codepoint { codepoint: 0x2DD4, name: "ETHIOPIC SYLLABLE XYEE", aliases: &[] },
        Codepoint { codepoint: 0x2DD5, name: "ETHIOPIC SYLLABLE XYE", aliases: &[] },
        Codepoint { codepoint: 0x2DD6, name: "ETHIOPIC SYLLABLE XYO", aliases: &[] },
        Codepoint { codepoint: 0x2DD8, name: "ETHIOPIC SYLLABLE GYA", aliases: &[] },
        Codepoint { codepoint: 0x2DD9, name: "ETHIOPIC SYLLABLE GYU", aliases: &[] },
        Codepoint { codepoint: 0x2DDA, name: "ETHIOPIC SYLLABLE GYI", aliases: &[] },
    ];
    assert(v@ =~= codepoint_table_268());
    v
}

pub open spec fn codepoint_table_269() -> Seq<Codepoint> {
    seq![
        Codepoint { codepoint: 0x2DDB, name: "ETHIOPIC SYLLABLE GYAA", aliases: &[] },
        Codepoint { codepoint: 0x2DDC, name: "ETHIOPIC SYLLABLE GYEE", aliases: &[] },
        Codepoint { codepoint: 0x2DDD, name: "ETHIOPIC SYLLABLE GYE", aliases: &[] },
        Codepoint { codepoint: 0x2DDE, name: "ETHIOPIC SYLLABLE GYO", aliases: &[] },
        Codepoint { codepoint: 0x2DE0, name: "COMBINING CYRILLIC LETTER BE", aliases: &[] },
        Codepoint { codepoint: 0x2DE1, name: "COMBINING CYRILLIC LETTER VE", aliases: &[] },
        Codepoint { codepoint: 0x2DE2, name: "COMBINING CYRILLIC LETTER GHE", aliases: &[] },
        Codepoint { codepoint: 0x2DE3, name: "COMBINING CYRILLIC LETTER DE", aliases: &[] },
        Codepoint { codepoint: 0x2DE4, name: "COMBINING CYRILLIC LETTER ZHE", aliases: &[] },
        Codepoint { codepoint: 0x2DE5, name: "COMBINING CYRILLIC LETTER ZE", aliases: &[] },
        Codepoint { codepoint: 0x2DE6, name: "COMBINING CYRILLIC LETTER KA", aliases: &[] },
        Codepoint { codepoint: 0x2DE7, name: "COMBINING CYRILLIC LETTER EL", aliases: &[] },
        Codepoint { codepoint: 0x2DE8, name: "COMBINING CYRILLIC LETTER EM", aliases: &[] },
        Codepoint { codepoint: 0x2DE9, name: "COMBINING CYRILLIC LETTER EN", aliases: &[] },
        Codepoint { codepoint: 0x2DEA, name: "COMBINING CYRILLIC LETTER O", aliases: &[] },
        Codepoint { codepoint: 0x2DEB, name: "COMBINING CYRILLIC LETTER PE", aliases: &[] },
        Codepoint { codepoint: 0x2DEC, name: "COMBINING CYRILLIC LETTER ER", aliases: &[] },
        Codepoint { codepoint: 0x2DED, name: "COMBINING CYRILLIC LETTER ES", aliases: &[] },
        Codepoint { codepoint: 0x2DEE, name: "COMBINING CYRILLIC LETTER TE", aliases: &[] },
        Codepoint { codepoint: 0x2DEF, name: "COMBINING CYRILLIC LETTER HA", aliases: &[] },
        Codepoint { codepoint: 0x2DF0, name: "COMBINING CYRILLIC LETTER TSE", aliases: &[] },
        Codepoint { codepoint: 0x2DF1, name: "COMBINING CYRILLIC LETTER CHE", aliases: &[] },
        Codepoint { codepoint: 0x2DF2, name: "COMBINING CYRILLIC LETTER SHA", aliases: &[] },
        Codepoint { codepoint: 0x2DF3, name: "COMBINING CYRILLIC LETTER SHCHA", aliases: &[] },
        Codepoint { codepoint: 0x2DF4, name: "COMBINING CYRILLIC LETTER FITA", aliases: &[] },
        Codepoint { codepoint: 0x2DF5, name: "COMBINING CYRILLIC LETTER ES-TE", aliases: &[] },
        Codepoint { codepoint: 0x2DF6, name: "COMBINING CYRILLIC LETTER A", aliases: &[] },
        Codepoint { codepoint: 0x2DF7, name: "COMBINING CYRILLIC LETTER IE", aliases: &[] },
        Codepoint { codepoint: 0x2DF8, name: "COMBINING CYRILLIC LETTER DJERV", aliases: &[] },
        Codepoint { codepoint: 0x2DF9, name: "COMBINING CYRILLIC LETTER MONOGRAPH UK", aliases: &[] },
        Codepoint { codepoint: 0x2DFA, name: "COMBINING CYRILLIC LETTER YAT", aliases: &[] },
        Codepoint { codepoint: 0x2DFB, name: "COMBINING CYRILLIC LETTER YU", aliases: &[] },
        Codepoint { codepoint: 0x2DFC, name: "COMBINING CYRILLIC LETTER IOTIFIED A", aliases: &[] },
        Codepoint { codepoint: 0x2DFD, name: "COMBINING CYRILLIC LETTER LITTLE YUS", aliases: &[] },
        Codepoint { codepoint: 0x2DFE, name: "COMBINING CYRILLIC LETTER BIG YUS", aliases: &[] },
        Codepoint { codepoint: 0x2DFF, name: "COMBINING CYRILLIC LETTER IOTIFIED BIG YUS", aliases: &[] },
        Codepoint { codepoint: 0x2E00, name: "RIGHT ANGLE SUBSTITUTION MARKER", aliases: &[] },
        Codepoint { codepoint: 0x2E01, name: "RIGHT ANGLE DOTTED SUBSTITUTION MARKER", aliases: &[] },
        Codepoint { codepoint: 0x2E02, name: "LEFT SUBSTITUTION BRACKET", aliases: &[] },
        Codepoint { codepoint: 0x2E03, name: "RIGHT SUBSTITUTION BRACKET", aliases: &[] },
    ]
}

fn all_codepoints_269() -> (v: Vec<Codepoint>)
    ensures
        v@ == codepoint_table_269(),
{
    let v = vec![
        Codepoint { codepoint: 0x2DDB, name: "ETHIOPIC SYLLABLE GYAA", aliases: &[] },
        Codepoint { codepoint: 0x2DDC, name: "ETHIOPIC SYLLABLE GYEE", aliases: &[] },
        Codepoint { codepoint: 0x2DDD, name: "ETHIOPIC SYLLABLE GYE", aliases: &[] },
        Codepoint { codepoint: 0x2DDE, name: "ETHIOPIC SYLLABLE GYO", aliases: &[] },
        Codepoint { codepoint: 0x2DE0, name: "COMBINING CYRILLIC LETTER BE", aliases: &[] },
        Codepoint { codepoint: 0x2DE1, name: "COMBINING CYRILLIC LETTER VE", aliases: &[] },
        Codepoint { codepoint: 0x2DE2, name: "COMBINING CYRILLIC LETTER GHE", aliases: &[] },
        Codepoint { codepoint: 0x2DE3, name: "COMBINING CYRILLIC LETTER DE", aliases: &[] },
        Codepoint { codepoint: 0x2DE4, name: "COMBINING CYRILLIC LETTER ZHE", aliases: &[] },
        Codepoint { codepoint: 0x2DE5, name: "COMBINING CYRILLIC LETTER ZE", aliases: &[] },
        Codepoint { codepoint: 0x2DE6, name: "COMBINING CYRILLIC LETTER KA", aliases: &[] },
        Codepoint { codepoint: 0x2DE7, name: "COMBINING CYRILLIC LETTER EL", aliases: &[] },
        Codepoint { codepoint: 0x2DE8, name: "COMBINING CYRILLIC LETTER EM", aliases: &[] },
        Codepoint { codepoint: 0x2DE9, name: "COMBINING CYRILLIC LETTER EN", aliases: &[] },
        Codepoint { codepoint: 0x2DEA, name: "COMBINING CYRILLIC LETTER O", aliases: &[] },
        Codepoint { codepoint: 0x2DEB, name: "COMBINING CYRILLIC LETTER PE", aliases: &[] },
        Codepoint { codepoint: 0x2DEC, name: "COMBINING CYRILLIC LETTER ER", aliases: &[] },
        Codepoint { codepoint: 0x2DED, name: "COMBINING CYRILLIC LETTER ES", aliases: &[] },
        Codepoint { codepoint: 0x2DEE, name: "COMBINING CYRILLIC LETTER TE", aliases: &[] },
        Codepoint { codepoint: 0x2DEF, name: "COMBINING CYRILLIC LETTER HA", aliases: &[] },
        Codepoint { codepoint: 0x2DF0, name: "COMBINING CYRILLIC LETTER TSE", aliases: &[] },
        Codepoint { codepoint: 0x2DF1, name: "COMBINING CYRILLIC LETTER CHE", aliases: &[] },
        Codepoint { codepoint: 0x2DF2, name: "COMBINING CYRILLIC LETTER SHA", aliases: &[] },
        Codepoint { codepoint: 0x2DF3, name: "COMBINING CYRILLIC LETTER SHCHA", aliases: &[] },
        Codepoint { codepoint: 0x2DF4, name: "COMBINING CYRILLIC LETTER FITA", aliases: &[] },
        Codepoint { codepoint: 0x2DF5, name: "COMBINING CYRILLIC LETTER ES-TE", aliases: &[] },
        Codepoint { codepoint: 0x2DF6, name: "COMBINING CYRILLIC LETTER A", aliases: &[] },
        Codepoint { codepoint: 0x2DF7, name: "COMBINING CYRILLIC LETTER IE", aliases: &[] },
        Codepoint { codepoint: 0x2DF8, name: "COMBINING CYRILLIC LETTER DJERV", aliases: &[] },
        Codepoint { codepoint: 0x2DF9, name: "COMBINING CYRILLIC LETTER MONOGRAPH UK", aliases: &[] },
        Codepoint { codepoint: 0x2DFA, name: "COMBINING CYRILLIC LETTER YAT", aliases: &[] },
        Codepoint { codepoint: 0x2DFB, name: "COMBINING CYRILLIC LETTER YU", aliases: &[] },
        Codepoint { codepoint: 0x2DFC, name: "COMBINING CYRILLIC LETTER IOTIFIED A", aliases: &[] },
        Codepoint { codepoint: 0x2DFD, name: "COMBINING CYRILLIC LETTER LITTLE YUS", aliases: &[] },
        Codepoint { codepoint: 0x2DFE, name: "COMBINING CYRILLIC LETTER BIG YUS", aliases: &[] },
        Codepoint { codepoint: 0x2DFF, name: "COMBINING CYRILLIC LETTER IOTIFIED BIG YUS", aliases: &[] },
        Codepoint { codepoint: 0x2E00, name: "RIGHT ANGLE SUBSTITUTION MARKER", aliases: &[] },
        Codepoint { codepoint: 0x2E01, name: "RIGHT ANGLE DOTTED SUBSTITUTION MARKER", aliases: &[] },
        Codepoint { codepoint: 0x2E02, name: "LEFT SUBSTITUTION BRACKET", aliases: &[] },
        Codepoint { codepoint: 0x2E03, name: "RIGHT SUBSTITUTION BRACKET", aliases: &[] },
    ];
    assert(v@ =~= codepoint_table_269());
    v
}

pub open spec fn codepoint_table_270() -> Seq<Codepoint> {
    seq![
        Codepoint { codepoint: 0x2E04, name: "LEFT DOTTED SUBSTITUTION BRACKET", aliases: &[] },
        Codepoint { codepoint: 0x2E05, name: "RIGHT DOTTED SUBSTITUTION BRACKET", aliases: &[] },
        Codepoint { codepoint: 0x2E06, name: "RAISED INTERPOLATION MARKER", aliases: &[] },
        Codepoint { codepoint: 0x2E07, name: "RAISED DOTTED INTERPOLATION MARKER", aliases: &[] },
        Codepoint { codepoint: 0x2E08, name: "DOTTED TRANSPOSITION MARKER", aliases: &[] },
        Codepoint { codepoint: 0x2E09, name: "LEFT TRANSPOSITION BRACKET", aliases: &[] },
        Codepoint { codepoint: 0x2E0A, name: "RIGHT TRANSPOSITION BRACKET", aliases: &[] },
        Codepoint { codepoint: 0x2E0B, name: "RAISED SQUARE", aliases: &[] },
        Codepoint { codepoint: 0x2E0C, name: "LEFT RAISED OMISSION BRACKET", aliases: &[] },
        Codepoint { codepoint: 0x2E0D, name: "RIGHT RAISED OMISSION BRACKET", aliases: &[] },
        Codepoint { codepoint: 0x2E0E, name: "EDITORIAL CORONIS", aliases: &[] },
        Codepoint { codepoint: 0x2E0F, name: "PARAGRAPHOS", aliases: &[] },
        Codepoint { codepoint: 0x2E10, name: "FORKED PARAGRAPHOS", aliases: &[] },
        Codepoint { codepoint: 0x2E11, name: "REVERSED FORKED PARAGRAPHOS", aliases: &[] },
        Codepoint { codepoint: 0x2E12, name: "HYPODIASTOLE", aliases: &[] },
        Codepoint { codepoint: 0x2E13, name: "DOTTED OBELOS", aliases: &[] },
        Codepoint { codepoint: 0x2E14, name: "DOWNWARDS ANCORA", aliases: &[] },
        Codepoint { codepoint: 0x2E15, name: "UPWARDS ANCORA", aliases: &[] },
        Codepoint { codepoint: 0x2E16, name: "DOTTED RIGHT-POINTING ANGLE", aliases: &[] },
        Codepoint { codepoint: 0x2E17, name: "DOUBLE OBLIQUE HYPHEN", aliases: &[] },
        Codepoint { codepoint: 0x2E18, name: "INVERTED INTERROBANG", aliases: &[] },
        Codepoint { codepoint: 0x2E19, name: "PALM BRANCH", aliases: &[] },
        Codepoint { codepoint: 0x2E1A, name: "HYPHEN WITH DIAERESIS", aliases: &[] },
        Codepoint { codepoint: 0x2E1B, name: "TILDE WITH RING ABOVE", aliases: &[] },
        Codepoint { codepoint: 0x2E1C, name: "LEFT LOW PARAPHRASE BRACKET", aliases: &[] },
        Codepoint { codepoint: 0x2E1D, name: "RIGHT LOW PARAPHRASE BRACKET", aliases: &[] },
        Codepoint { codepoint: 0x2E1E, name: "TILDE WITH DOT ABOVE", aliases: &[] },
        Codepoint { codepoint: 0x2E1F, name: "TILDE WITH DOT BELOW", aliases: &[] },
        Codepoint { codepoint: 0x2E20, name: "LEFT VERTICAL BAR WITH QUILL", aliases: &[] },
        Codepoint { codepoint: 0x2E21, name: "RIGHT VERTICAL BAR WITH QUILL", aliases: &[] },
        Codepoint { codepoint: 0x2E22, name: "TOP LEFT HALF BRACKET", aliases: &[] },
        Codepoint { codepoint: 0x2E23, name: "TOP RIGHT HALF BRACKET", aliases: &[] },
        Codepoint { codepoint: 0x2E24, name: "BOTTOM LEFT HALF BRACKET", aliases: &[] },
        Codepoint { codepoint: 0x2E25, name: "BOTTOM RIGHT HALF BRACKET", aliases: &[] },
        Codepoint { codepoint: 0x2E26, name: "LEFT SIDEWAYS U BRACKET", aliases: &[] },
        Codepoint { codepoint: 0x2E27, name: "RIGHT SIDEWAYS U BRACKET", aliases: &[] },
        Codepoint { codepoint: 0x2E28, name: "LEFT DOUBLE PARENTHESIS", aliases: &[] },
        Codepoint { codepoint: 0x2E29, name: "RIGHT DOUBLE PARENTHESIS", aliases: &[] },
        Codepoint { codepoint: 0x2E2A, name: "TWO DOTS OVER ONE DOT PUNCTUATION", aliases: &[] },
        Codepoint { codepoint: 0x2E2B, name: "ONE DOT OVER TWO DOTS PUNCTUATION", aliases: &[] },
    ]
}

fn all_codepoints_270() -> (v: Vec<Codepoint>)
    ensures
        v@ == codepoint_table_270(),
{
    let v = vec![
        Codepoint { codepoint: 0x2E04, name: "LEFT DOTTED SUBSTITUTION BRACKET", aliases: &[] },
        Codepoint { codepoint: 0x2E05, name: "RIGHT DOTTED SUBSTITUTION BRACKET", aliases: &[] },
        Codepoint { codepoint: 0x2E06, name: "RAISED INTERPOLATION MARKER", aliases: &[] },
        Codepoint { codepoint: 0x2E07, name: "RAISED DOTTED INTERPOLATION MARKER", aliases: &[] },
        Codepoint { codepoint: 0x2E08, name: "DOTTED TRANSPOSITION MARKER", aliases: &[] },
        Codepoint { codepoint: 0x2E09, name: "LEFT TRANSPOSITION BRACKET", aliases: &[] },
        Codepoint { codepoint: 0x2E0A, name: "RIGHT TRANSPOSITION BRACKET", aliases: &[] },
        Codepoint { codepoint: 0x2E0B, name: "RAISED SQUARE", aliases: &[] },
        Codepoint { codepoint: 0x2E0C, name: "LEFT RAISED OMISSION BRACKET", aliases: &[] },
        Codepoint { codepoint: 0x2E0D, name: "RIGHT RAISED OMISSION BRACKET", aliases: &[] },
        Codepoint { codepoint: 0x2E0E, name: "EDITORIAL CORONIS", aliases: &[] },
        Codepoint { codepoint: 0x2E0F, name: "PARAGRAPHOS", aliases: &[] },
        Codepoint { codepoint: 0x2E10, name: "FORKED PARAGRAPHOS", aliases: &[] },
        Codepoint { codepoint: 0x2E11, name: "REVERSED FORKED PARAGRAPHOS", aliases: &[] },
        Codepoint { codepoint: 0x2E12, name: "HYPODIASTOLE", aliases: &[] },
        Codepoint { codepoint: 0x2E13, name: "DOTTED OBELOS", aliases: &[] },
        Codepoint { codepoint: 0x2E14, name: "DOWNWARDS ANCORA", aliases: &[] },
        Codepoint { codepoint: 0x2E15, name: "UPWARDS ANCORA", aliases: &[] },
        Codepoint { codepoint: 0x2E16, name: "DOTTED RIGHT-POINTING ANGLE", aliases: &[] },
        Codepoint { codepoint: 0x2E17, name: "DOUBLE OBLIQUE HYPHEN", aliases: &[] },
        Codepoint { codepoint: 0x2E18, name: "INVERTED INTERROBANG", aliases: &[] },
        Codepoint { codepoint: 0x2E19, name: "PALM BRANCH", aliases: &[] },
        Codepoint { codepoint: 0x2E1A, name: "HYPHEN WITH DIAERESIS", aliases: &[] },
        Codepoint { codepoint: 0x2E1B, name: "TILDE WITH RING ABOVE", aliases: &[] },
        Codepoint { codepoint: 0x2E1C, name: "LEFT LOW PARAPHRASE BRACKET", aliases: &[] },
        Codepoint { codepoint: 0x2E1D, name: "RIGHT LOW PARAPHRASE BRACKET", aliases: &[] },
        Codepoint { codepoint: 0x2E1E, name: "TILDE WITH DOT ABOVE", aliases: &[] },
        Codepoint { codepoint: 0x2E1F, name: "TILDE WITH DOT BELOW", aliases: &[] },
        Codepoint { codepoint: 0x2E20, name: "LEFT VERTICAL BAR WITH QUILL", aliases: &[] },
        Codepoint { codepoint: 0x2E21, name: "RIGHT VERTICAL BAR WITH QUILL", aliases: &[] },
        Codepoint { codepoint: 0x2E22, name: "TOP LEFT HALF BRACKET", aliases: &[] },
        Codepoint { codepoint: 0x2E23, name: "TOP RIGHT HALF BRACKET", aliases: &[] },
        Codepoint { codepoint: 0x2E24, name: "BOTTOM LEFT HALF BRACKET", aliases: &[] },
        Codepoint { codepoint: 0x2E25, name: "BOTTOM RIGHT HALF BRACKET", aliases: &[] },
        Codepoint { codepoint: 0x2E26, name: "LEFT SIDEWAYS U BRACKET", aliases: &[] },
        Codepoint { codepoint: 0x2E27, name: "RIGHT SIDEWAYS U BRACKET", aliases: &[] },
        Codepoint { codepoint: 0x2E28, name: "LEFT DOUBLE PARENTHESIS", aliases: &[] },
        Codepoint { codepoint: 0x2E29, name: "RIGHT DOUBLE PARENTHESIS", aliases: &[] },
        Codepoint { codepoint: 0x2E2A, name: "TWO DOTS OVER ONE DOT PUNCTUATION", aliases: &[] },
        Codepoint { codepoint: 0x2E2B, name: "ONE DOT OVER TWO DOTS PUNCTUATION", aliases: &[] },
    ];
    assert(v@ =~= codepoint_table_270());
    v
}

pub open spec fn codepoint_table_271() -> Seq<Codepoint> {
    seq![
        Codepoint { codepoint: 0x2E2C, name: "SQUARED FOUR DOT PUNCTUATION", aliases: &[] },
        Codepoint { codepoint: 0x2E2D, name: "FIVE DOT MARK", aliases: &[] },
        Codepoint { codepoint: 0x2E2E, name: "REVERSED QUESTION MARK", aliases: &[] },
        Codepoint { codepoint: 0x2E2F, name: "VERTICAL TILDE", aliases: &[] },
        Codepoint { codepoint: 0x2E30, name: "RING POINT", aliases: &[] },
        Codepoint { codepoint: 0x2E31, name: "WORD SEPARATOR MIDDLE DOT", aliases: &[] },
        Codepoint { codepoint: 0x2E32, name: "TURNED COMMA", aliases: &[] },
        Codepoint { codepoint: 0x2E33, name: "RAISED DOT", aliases: &[] },
        Codepoint { codepoint: 0x2E34, name: "RAISED COMMA", aliases: &[] },
        Codepoint { codepoint: 0x2E35, name: "TURNED SEMICOLON", aliases: &[] },
        Codepoint { codepoint: 0x2E36, name: "DAGGER WITH LEFT GUARD", aliases: &[] },
        Codepoint { codepoint: 0x2E37, name: "DAGGER WITH RIGHT GUARD", aliases: &[] },
        Codepoint { codepoint: 0x2E38, name: "TURNED DAGGER", aliases: &[] },
        Codepoint { codepoint: 0x2E39, name: "TOP HALF SECTION SIGN", aliases: &[] },
        Codepoint { codepoint: 0x2E3A, name: "TWO-EM DASH", aliases: &[] },
        Codepoint { codepoint: 0x2E3B, name: "THREE-EM DASH", aliases: &[] },
        Codepoint { codepoint: 0x2E3C, name: "STENOGRAPHIC FULL STOP", aliases: &[] },
        Codepoint { codepoint: 0x2E3D, name: "VERTICAL SIX DOTS", aliases: &[] },
        Codepoint { codepoint: 0x2E3E, name: "WIGGLY VERTICAL LINE", aliases: &[] },
        Codepoint { codepoint: 0x2E3F, name: "CAPITULUM", aliases: &[] },
        Codepoint { codepoint: 0x2E40, name: "DOUBLE HYPHEN", aliases: &[] },
        Codepoint { codepoint: 0x2E41, name: "REVERSED COMMA", aliases: &[] },
        Codepoint { codepoint: 0x2E42, name: "DOUBLE LOW-REVERSED-9 QUOTATION MARK", aliases: &[] },
        Codepoint { codepoint: 0x2E43, name: "DASH WITH LEFT UPTURN", aliases: &[] },
        Codepoint { codepoint: 0x2E44, name: "DOUBLE SUSPENSION MARK", aliases: &[] },
        Codepoint { codepoint: 0x2E45, name: "INVERTED LOW KAVYKA", aliases: &[] },
        Codepoint { codepoint: 0x2E46, name: "INVERTED LOW KAVYKA WITH KAVYKA ABOVE", aliases: &[] },
        Codepoint { codepoint: 0x2E47, name: "LOW KAVYKA", aliases: &[] },
        Codepoint { codepoint: 0x2E48, name: "LOW KAVYKA WITH DOT", aliases: &[] },
        Codepoint { codepoint: 0x2E49, name: "DOUBLE STACKED COMMA", aliases: &[] },
        Codepoint { codepoint: 0x2E4A, name: "DOTTED SOLIDUS", aliases: &[] },
        Codepoint { codepoint: 0x2E4B, name: "TRIPLE DAGGER", aliases: &[] },
        Codepoint { codepoint: 0x2E4C, name: "MEDIEVAL COMMA", aliases: &[] },
        Codepoint { codepoint: 0x2E4D, name: "PARAGRAPHUS MARK", aliases: &[] },
        Codepoint { codepoint: 0x2E4E, name: "PUNCTUS ELEVATUS MARK", aliases: &[] },
        Codepoint { codepoint: 0x2E4F, name: "CORNISH VERSE DIVIDER", aliases: &[] },
        Codepoint { codepoint: 0x2E50, name: "CROSS PATTY WITH RIGHT CROSSBAR", aliases: &[] },
        Codepoint { codepoint: 0x2E51, name: "CROSS PATTY WITH LEFT CROSSBAR", aliases: &[] },
        Codepoint { codepoint: 0x2E52, name: "TIRONIAN SIGN CAPITAL ET", aliases: &[] },
        Codepoint { codepoint: 0x2E53, name: "MEDIEVAL EXCLAMATION MARK", aliases: &[] },
    ]
}

fn all_codepoints_271() -> (v: Vec<Codepoint>)
    ensures
        v@ == codepoint_table_271(),
{
    let v = vec![
        Codepoint { codepoint: 0x2E2C, name: "SQUARED FOUR DOT PUNCTUATION", aliases: &[] },
        Codepoint { codepoint: 0x2E2D, name: "FIVE DOT MARK", aliases: &[] },
        Codepoint { codepoint: 0x2E2E, name: "REVERSED QUESTION MARK", aliases: &[] },
        Codepoint { codepoint: 0x2E2F, name: "VERTICAL TILDE", aliases: &[] },
        Codepoint { codepoint: 0x2E30, name: "RING POINT", aliases: &[] },
        Codepoint { codepoint: 0x2E31, name: "WORD SEPARATOR MIDDLE DOT", aliases: &[] },
        Codepoint { codepoint: 0x2E32, name: "TURNED COMMA", aliases: &[] },
        Codepoint { codepoint: 0x2E33, name: "RAISED DOT", aliases: &[] },
        Codepoint { codepoint: 0x2E34, name: "RAISED COMMA", aliases: &[] },
        Codepoint { codepoint: 0x2E35, name: "TURNED SEMICOLON", aliases: &[] },
        Codepoint { codepoint: 0x2E36, name: "DAGGER WITH LEFT GUARD", aliases: &[] },
        Codepoint { codepoint: 0x2E37, name: "DAGGER WITH RIGHT GUARD", aliases: &[] },
        Codepoint { codepoint: 0x2E38, name: "TURNED DAGGER", aliases: &[] },
        Codepoint { codepoint: 0x2E39, name: "TOP HALF SECTION SIGN", aliases: &[] },
        Codepoint { codepoint: 0x2E3A, name: "TWO-EM DASH", aliases: &[] },
        Codepoint { codepoint: 0x2E3B, name: "THREE-EM DASH", aliases: &[] },
        Codepoint { codepoint: 0x2E3C, name: "STENOGRAPHIC FULL STOP", aliases: &[] },
        Codepoint { codepoint: 0x2E3D, name: "VERTICAL SIX DOTS", aliases: &[] },
        Codepoint { codepoint: 0x2E3E, name: "WIGGLY VERTICAL LINE", aliases: &[] },
        Codepoint { codepoint: 0x2E3F, name: "CAPITULUM", aliases: &[] },
        Codepoint { codepoint: 0x2E40, name: "DOUBLE HYPHEN", aliases: &[] },
        Codepoint { codepoint: 0x2E41, name: "REVERSED COMMA", aliases: &[] },
        Codepoint { codepoint: 0x2E42, name: "DOUBLE LOW-REVERSED-9 QUOTATION MARK", aliases: &[] },
        Codepoint { codepoint: 0x2E43, name: "DASH WITH LEFT UPTURN", aliases: &[] },
        Codepoint { codepoint: 0x2E44, name: "DOUBLE SUSPENSION MARK", aliases: &[] },
        Codepoint { codepoint: 0x2E45, name: "INVERTED LOW KAVYKA", aliases: &[] },
        Codepoint { codepoint: 0x2E46, name: "INVERTED LOW KAVYKA WITH KAVYKA ABOVE", aliases: &[] },
        Codepoint { codepoint: 0x2E47, name: "LOW KAVYKA", aliases: &[] },
        Codepoint { codepoint: 0x2E48, name: "LOW KAVYKA WITH DOT", aliases: &[] },
        Codepoint { codepoint: 0x2E49, name: "DOUBLE STACKED COMMA", aliases: &[] },
        Codepoint { codepoint: 0x2E4A, name: "DOTTED SOLIDUS", aliases: &[] },
        Codepoint { codepoint: 0x2E4B, name: "TRIPLE DAGGER", aliases: &[] },
        Codepoint { codepoint: 0x2E4C, name: "MEDIEVAL COMMA", aliases: &[] },
        Codepoint { codepoint: 0x2E4D, name: "PARAGRAPHUS MARK", aliases: &[] },
        Codepoint { codepoint: 0x2E4E, name: "PUNCTUS ELEVATUS MARK", aliases: &[] },
        Codepoint { codepoint: 0x2E4F, name: "CORNISH VERSE DIVIDER", aliases: &[] },
        Codepoint { codepoint: 0x2E50, name: "CROSS PATTY WITH RIGHT CROSSBAR", aliases: &[] },
        Codepoint { codepoint: 0x2E51, name: "CROSS PATTY WITH LEFT CROSSBAR", aliases: &[] },
        Codepoint { codepoint: 0x2E52, name: "TIRONIAN SIGN CAPITAL ET", aliases: &[] },
        Codepoint { codepoint: 0x2E53, name: "MEDIEVAL EXCLAMATION MARK", aliases: &[] },
    ];
    assert(v@ =~= codepoint_table_271());
    v
}

pub open spec fn codepoint_table_272() -> Seq<Codepoint> {
    seq![
        Codepoint { codepoint: 0x2E54, name: "MEDIEVAL QUESTION MARK", aliases: &[] },
        Codepoint { codepoint: 0x2E55, name: "LEFT SQUARE BRACKET WITH STROKE", aliases: &[] },
        Codepoint { codepoint: 0x2E56, name: "RIGHT SQUARE BRACKET WITH STROKE", aliases: &[] },
        Codepoint { codepoint: 0x2E57, name: "LEFT SQUARE BRACKET WITH DOUBLE STROKE", aliases: &[] },
        Codepoint { codepoint: 0x2E58, name: "RIGHT SQUARE BRACKET WITH DOUBLE STROKE", aliases: &[] },
        Codepoint { codepoint: 0x2E59, name: "TOP HALF LEFT PARENTHESIS", aliases: &[] },
        Codepoint { codepoint: 0x2E5A, name: "TOP HALF RIGHT PARENTHESIS", aliases: &[] },
        Codepoint { codepoint: 0x2E5B, name: "BOTTOM HALF LEFT PARENTHESIS", aliases: &[] },
        Codepoint { codepoint: 0x2E5C, name: "BOTTOM HALF RIGHT PARENTHESIS", aliases: &[] },
        Codepoint { codepoint: 0x2E5D, name: "OBLIQUE HYPHEN", aliases: &[] },
        Codepoint { codepoint: 0x2E80, name: "CJK RADICAL REPEAT", aliases: &[] },
        Codepoint { codepoint: 0x2E81, name: "CJK RADICAL CLIFF", aliases: &[] },
        Codepoint { codepoint: 0x2E82, name: "CJK RADICAL SECOND ONE", aliases: &[] },
        Codepoint { codepoint: 0x2E83, name: "CJK RADICAL SECOND TWO", aliases: &[] },
        Codepoint { codepoint: 0x2E84, name: "CJK RADICAL SECOND THREE", aliases: &[] },
        Codepoint { codepoint: 0x2E85, name: "CJK RADICAL PERSON", aliases: &[] },
        Codepoint { codepoint: 0x2E86, name: "CJK RADICAL BOX", aliases: &[] },
        Codepoint { codepoint: 0x2E87, name: "CJK RADICAL TABLE", aliases: &[] },
        Codepoint { codepoint: 0x2E88, name: "CJK RADICAL KNIFE ONE", aliases: &[] },
        Codepoint { codepoint: 0x2E89, name: "CJK RADICAL KNIFE TWO", aliases: &[] },
        Codepoint { codepoint: 0x2E8A, name: "CJK RADICAL DIVINATION", aliases: &[] },
        Codepoint { codepoint: 0x2E8B, name: "CJK RADICAL SEAL", aliases: &[] },
        Codepoint { codepoint: 0x2E8C, name: "CJK RADICAL SMALL ONE", aliases: &[] },
        Codepoint { codepoint: 0x2E8D, name: "CJK RADICAL SMALL TWO", aliases: &[] },
        Codepoint { codepoint: 0x2E8E, name: "CJK RADICAL LAME ONE", aliases: &[] },
        Codepoint { codepoint: 0x2E8F, name: "CJK RADICAL LAME TWO", aliases: &[] },
        Codepoint { codepoint: 0x2E90, name: "CJK RADICAL LAME THREE", aliases: &[] },
        Codepoint { codepoint: 0x2E91, name: "CJK RADICAL LAME FOUR", aliases: &[] },
        Codepoint { codepoint: 0x2E92, name: "CJK RADICAL SNAKE", aliases: &[] },
        Codepoint { codepoint: 0x2E93, name: "CJK RADICAL THREAD", aliases: &[] },
        Codepoint { codepoint: 0x2E94, name: "CJK RADICAL SNOUT ONE", aliases: &[] },
        Codepoint { codepoint: 0x2E95, name: "CJK RADICAL SNOUT TWO", aliases: &[] },
        Codepoint { codepoint: 0x2E96, name: "CJK RADICAL HEART ONE", aliases: &[] },
        Codepoint { codepoint: 0x2E97, name: "CJK RADICAL HEART TWO", aliases: &[] },
        Codepoint { codepoint: 0x2E98, name: "CJK RADICAL HAND", aliases: &[] },
        Codepoint { codepoint: 0x2E99, name: "CJK RADICAL RAP", aliases: &[] },
        Codepoint { codepoint: 0x2E9B, name: "CJK RADICAL CHOKE", aliases: &[] },
        Codepoint { codepoint: 0x2E9C, name: "CJK RADICAL SUN", aliases: &[] },
        Codepoint { codepoint: 0x2E9D, name: "CJK RADICAL MOON", aliases: &[] },
        Codepoint { codepoint: 0x2E9E, name: "CJK RADICAL DEATH", aliases: &[] },
    ]
}

fn all_codepoints_272() -> (v: Vec<Codepoint>)
    ensures
        v@ == codepoint_table_272(),
{
    let v = vec![
        Codepoint { codepoint: 0x2E54, name: "MEDIEVAL QUESTION MARK", aliases: &[] },
        Codepoint { codepoint: 0x2E55, name: "LEFT SQUARE BRACKET WITH STROKE", aliases: &[] },
        Codepoint { codepoint: 0x2E56, name: "RIGHT SQUARE BRACKET WITH STROKE", aliases: &[] },
        Codepoint { codepoint: 0x2E57, name: "LEFT SQUARE BRACKET WITH DOUBLE STROKE", aliases: &[] },
        Codepoint { codepoint: 0x2E58, name: "RIGHT SQUARE BRACKET WITH DOUBLE STROKE", aliases: &[] },
        Codepoint { codepoint: 0x2E59, name: "TOP HALF LEFT PARENTHESIS", aliases: &[] },
        Codepoint { codepoint: 0x2E5A, name: "TOP HALF RIGHT PARENTHESIS", aliases: &[] },
        Codepoint { codepoint: 0x2E5B, name: "BOTTOM HALF LEFT PARENTHESIS", aliases: &[] },
        Codepoint { codepoint: 0x2E5C, name: "BOTTOM HALF RIGHT PARENTHESIS", aliases: &[] },
        Codepoint { codepoint: 0x2E5D, name: "OBLIQUE HYPHEN", aliases: &[] },
        Codepoint { codepoint: 0x2E80, name: "CJK RADICAL REPEAT", aliases: &[] },
        Codepoint { codepoint: 0x2E81, name: "CJK RADICAL CLIFF", aliases: &[] },
        Codepoint { codepoint: 0x2E82, name: "CJK RADICAL SECOND ONE", aliases: &[] },
        Codepoint { codepoint: 0x2E83, name: "CJK RADICAL SECOND TWO", aliases: &[] },
        Codepoint { codepoint: 0x2E84, name: "CJK RADICAL SECOND THREE", aliases: &[] },
        Codepoint { codepoint: 0x2E85, name: "CJK RADICAL PERSON", aliases: &[] },
        Codepoint { codepoint: 0x2E86, name: "CJK RADICAL BOX", aliases: &[] },
        Codepoint { codepoint: 0x2E87, name: "CJK RADICAL TABLE", aliases: &[] },
        Codepoint { codepoint: 0x2E88, name: "CJK RADICAL KNIFE ONE", aliases: &[] },
        Codepoint { codepoint: 0x2E89, name: "CJK RADICAL KNIFE TWO", aliases: &[] },
        Codepoint { codepoint: 0x2E8A, name: "CJK RADICAL DIVINATION", aliases: &[] },
        Codepoint { codepoint: 0x2E8B, name: "CJK RADICAL SEAL", aliases: &[] },
        Codepoint { codepoint: 0x2E8C, name: "CJK RADICAL SMALL ONE", aliases: &[] },
        Codepoint { codepoint: 0x2E8D, name: "CJK RADICAL SMALL TWO", aliases: &[] },
        Codepoint { codepoint: 0x2E8E, name: "CJK RADICAL LAME ONE", aliases: &[] },
        Codepoint { codepoint: 0x2E8F, name: "CJK RADICAL LAME TWO", aliases: &[] },
        Codepoint { codepoint: 0x2E90, name: "CJK RADICAL LAME THREE", aliases: &[] },
        Codepoint { codepoint: 0x2E91, name: "CJK RADICAL LAME FOUR", aliases: &[] },
        Codepoint { codepoint: 0x2E92, name: "CJK RADICAL SNAKE", aliases: &[] },
        Codepoint { codepoint: 0x2E93, name: "CJK RADICAL THREAD", aliases: &[] },
        Codepoint { codepoint: 0x2E94, name: "CJK RADICAL SNOUT ONE", aliases: &[] },
        Codepoint { codepoint: 0x2E95, name: "CJK RADICAL SNOUT TWO", aliases: &[] },
        Codepoint { codepoint: 0x2E96, name: "CJK RADICAL HEART ONE", aliases: &[] },
        Codepoint { codepoint: 0x2E97, name: "CJK RADICAL HEART TWO", aliases: &[] },
        Codepoint { codepoint: 0x2E98, name: "CJK RADICAL HAND", aliases: &[] },
        Codepoint { codepoint: 0x2E99, name: "CJK RADICAL RAP", aliases: &[] },
        Codepoint { codepoint: 0x2E9B, name: "CJK RADICAL CHOKE", aliases: &[] },
        Codepoint { codepoint: 0x2E9C, name: "CJK RADICAL SUN", aliases: &[] },
        Codepoint { codepoint: 0x2E9D, name: "CJK RADICAL MOON", aliases: &[] },
        Codepoint { codepoint: 0x2E9E, name: "CJK RADICAL DEATH", aliases: &[] },
    ];
    assert(v@ =~= codepoint_table_272());
    v
}

pub open spec fn codepoint_table_273() -> Seq<Codepoint> {
    seq![
        Codepoint { codepoint: 0x2E9F, name: "CJK RADICAL MOTHER", aliases: &[] },
        Codepoint { codepoint: 0x2EA0, name: "CJK RADICAL CIVILIAN", aliases: &[] },
        Codepoint { codepoint: 0x2EA1, name: "CJK RADICAL WATER ONE", aliases: &[] },
        Codepoint { codepoint: 0x2EA2, name: "CJK RADICAL WATER TWO", aliases: &[] },
        Codepoint { codepoint: 0x2EA3, name: "CJK RADICAL FIRE", aliases: &[] },
        Codepoint { codepoint: 0x2EA4, name: "CJK RADICAL PAW ONE", aliases: &[] },
        Codepoint { codepoint: 0x2EA5, name: "CJK RADICAL PAW TWO", aliases: &[] },
        Codepoint { codepoint: 0x2EA6, name: "CJK RADICAL SIMPLIFIED HALF TREE TRUNK", aliases: &[] },
        Codepoint { codepoint: 0x2EA7, name: "CJK RADICAL COW", aliases: &[] },
        Codepoint { codepoint: 0x2EA8, name: "CJK RADICAL DOG", aliases: &[] },
        Codepoint { codepoint: 0x2EA9, name: "CJK RADICAL JADE", aliases: &[] },
        Codepoint { codepoint: 0x2EAA, name: "CJK RADICAL BOLT OF CLOTH", aliases: &[] },
        Codepoint { codepoint: 0x2EAB, name: "CJK RADICAL EYE", aliases: &[] },
        Codepoint { codepoint: 0x2EAC, name: "CJK RADICAL SPIRIT ONE", aliases: &[] },
        Codepoint { codepoint: 0x2EAD, name: "CJK RADICAL SPIRIT TWO", aliases: &[] },
        Codepoint { codepoint: 0x2EAE, name: "CJK RADICAL BAMBOO", aliases: &[] },
        Codepoint { codepoint: 0x2EAF, name: "CJK RADICAL SILK", aliases: &[] },
        Codepoint { codepoint: 0x2EB0, name: "CJK RADICAL C-SIMPLIFIED SILK", aliases: &[] },
        Codepoint { codepoint: 0x2EB1, name: "CJK RADICAL NET ONE", aliases: &[] },
        Codepoint { codepoint: 0x2EB2, name: "CJK RADICAL NET TWO", aliases: &[] },
        Codepoint { codepoint: 0x2EB3, name: "CJK RADICAL NET THREE", aliases: &[] },
        Codepoint { codepoint: 0x2EB4, name: "CJK RADICAL NET FOUR", aliases: &[] },
        Codepoint { codepoint: 0x2EB5, name: "CJK RADICAL MESH", aliases: &[] },
        Codepoint { codepoint: 0x2EB6, name: "CJK RADICAL SHEEP", aliases: &[] },
        Codepoint { codepoint: 0x2EB7, name: "CJK RADICAL RAM", aliases: &[] },
        Codepoint { codepoint: 0x2EB8, name: "CJK RADICAL EWE", aliases: &[] },
        Codepoint { codepoint: 0x2EB9, name: "CJK RADICAL OLD", aliases: &[] },
        Codepoint { codepoint: 0x2EBA, name: "CJK RADICAL BRUSH ONE", aliases: &[] },
        Codepoint { codepoint: 0x2EBB, name: "CJK RADICAL BRUSH TWO", aliases: &[] },
        Codepoint { codepoint: 0x2EBC, name: "CJK RADICAL MEAT", aliases: &[] },
        Codepoint { codepoint: 0x2EBD, name: "CJK RADICAL MORTAR", aliases: &[] },
        Codepoint { codepoint: 0x2EBE, name: "CJK RADICAL GRASS ONE", aliases: &[] },
        Codepoint { codepoint: 0x2EBF, name: "CJK RADICAL GRASS TWO", aliases: &[] },
        Codepoint { codepoint: 0x2EC0, name: "CJK RADICAL GRASS THREE", aliases: &[] },
        Codepoint { codepoint: 0x2EC1, name: "CJK RADICAL TIGER", aliases: &[] },
        Codepoint { codepoint: 0x2EC2, name: "CJK RADICAL CLOTHES", aliases: &[] },
        Codepoint { codepoint: 0x2EC3, name: "CJK RADICAL WEST ONE", aliases: &[] },
        Codepoint { codepoint: 0x2EC4, name: "CJK RADICAL WEST TWO", aliases: &[] },
        Codepoint { codepoint: 0x2EC5, name: "CJK RADICAL C-SIMPLIFIED SEE", aliases: &[] },
        Codepoint { codepoint: 0x2EC6, name: "CJK RADICAL SIMPLIFIED HORN", aliases: &[] },
    ]
}

fn all_codepoints_273() -> (v: Vec<Codepoint>)
    ensures
        v@ == codepoint_table_273(),
{
    let v = vec![
        Codepoint { codepoint: 0x2E9F, name: "CJK RADICAL MOTHER", aliases: &[] },
        Codepoint { codepoint: 0x2EA0, name: "CJK RADICAL CIVILIAN", aliases: &[] },
        Codepoint { codepoint: 0x2EA1, name: "CJK RADICAL WATER ONE", aliases: &[] },
        Codepoint { codepoint: 0x2EA2, name: "CJK RADICAL WATER TWO", aliases: &[] },
        Codepoint { codepoint: 0x2EA3, name: "CJK RADICAL FIRE", aliases: &[] },
        Codepoint { codepoint: 0x2EA4, name: "CJK RADICAL PAW ONE", aliases: &[] },
        Codepoint { codepoint: 0x2EA5, name: "CJK RADICAL PAW TWO", aliases: &[] },
        Codepoint { codepoint: 0x2EA6, name: "CJK RADICAL SIMPLIFIED HALF TREE TRUNK", aliases: &[] },
        Codepoint { codepoint: 0x2EA7, name: "CJK RADICAL COW", aliases: &[] },
        Codepoint { codepoint: 0x2EA8, name: "CJK RADICAL DOG", aliases: &[] },
        Codepoint { codepoint: 0x2EA9, name: "CJK RADICAL JADE", aliases: &[] },
        Codepoint { codepoint: 0x2EAA, name: "CJK RADICAL BOLT OF CLOTH", aliases: &[] },
        Codepoint { codepoint: 0x2EAB, name: "CJK RADICAL EYE", aliases: &[] },
        Codepoint { codepoint: 0x2EAC, name: "CJK RADICAL SPIRIT ONE", aliases: &[] },
        Codepoint { codepoint: 0x2EAD, name: "CJK RADICAL SPIRIT TWO", aliases: &[] },
        Codepoint { codepoint: 0x2EAE, name: "CJK RADICAL BAMBOO", aliases: &[] },
        Codepoint { codepoint: 0x2EAF, name: "CJK RADICAL SILK", aliases: &[] },
        Codepoint { codepoint: 0x2EB0, name: "CJK RADICAL C-SIMPLIFIED SILK", aliases: &[] },
        Codepoint { codepoint: 0x2EB1, name: "CJK RADICAL NET ONE", aliases: &[] },
        Codepoint { codepoint: 0x2EB2, name: "CJK RADICAL NET TWO", aliases: &[] },
        Codepoint { codepoint: 0x2EB3, name: "CJK RADICAL NET THREE", aliases: &[] },
        Codepoint { codepoint: 0x2EB4, name: "CJK RADICAL NET FOUR", aliases: &[] },
        Codepoint { codepoint: 0x2EB5, name: "CJK RADICAL MESH", aliases: &[] },
        Codepoint { codepoint: 0x2EB6, name: "CJK RADICAL SHEEP", aliases: &[] },
        Codepoint { codepoint: 0x2EB7, name: "CJK RADICAL RAM", aliases: &[] },
        Codepoint { codepoint: 0x2EB8, name: "CJK RADICAL EWE", aliases: &[] },
        Codepoint { codepoint: 0x2EB9, name: "CJK RADICAL OLD", aliases: &[] },
        Codepoint { codepoint: 0x2EBA, name: "CJK RADICAL BRUSH ONE", aliases: &[] },
        Codepoint { codepoint: 0x2EBB, name: "CJK RADICAL BRUSH TWO", aliases: &[] },
        Codepoint { codepoint: 0x2EBC, name: "CJK RADICAL MEAT", aliases: &[] },
        Codepoint { codepoint: 0x2EBD, name: "CJK RADICAL MORTAR", aliases: &[] },
        Codepoint { codepoint: 0x2EBE, name: "CJK RADICAL GRASS ONE", aliases: &[] },
        Codepoint { codepoint: 0x2EBF, name: "CJK RADICAL GRASS TWO", aliases: &[] },
        Codepoint { codepoint: 0x2EC0, name: "CJK RADICAL GRASS THREE", aliases: &[] },
        Codepoint { codepoint: 0x2EC1, name: "CJK RADICAL TIGER", aliases: &[] },
        Codepoint { codepoint: 0x2EC2, name: "CJK RADICAL CLOTHES", aliases: &[] },
        Codepoint { codepoint: 0x2EC3, name: "CJK RADICAL WEST ONE", aliases: &[] },
        Codepoint { codepoint: 0x2EC4, name: "CJK RADICAL WEST TWO", aliases: &[] },
        Codepoint { codepoint: 0x2EC5, name: "CJK RADICAL C-SIMPLIFIED SEE", aliases: &[] },
        Codepoint { codepoint: 0x2EC6, name: "CJK RADICAL SIMPLIFIED HORN", aliases: &[] },
    ];
    assert(v@ =~= codepoint_table_273());
    v
}

pub open spec fn codepoint_table_274() -> Seq<Codepoint> {
    seq![
        Codepoint { codepoint: 0x2EC7, name: "CJK RADICAL HORN", aliases: &[] },
        Codepoint { codepoint: 0x2EC8, name: "CJK RADICAL C-SIMPLIFIED SPEECH", aliases: &[] },
        Codepoint { codepoint: 0x2EC9, name: "CJK RADICAL C-SIMPLIFIED SHELL", aliases: &[] },
        Codepoint { codepoint: 0x2ECA, name: "CJK RADICAL FOOT", aliases: &[] },
        Codepoint { codepoint: 0x2ECB, name: "CJK RADICAL C-SIMPLIFIED CART", aliases: &[] },
        Codepoint { codepoint: 0x2ECC, name: "CJK RADICAL SIMPLIFIED WALK", aliases: &[] },
        Codepoint { codepoint: 0x2ECD, name: "CJK RADICAL WALK ONE", aliases: &[] },
        Codepoint { codepoint: 0x2ECE, name: "CJK RADICAL WALK TWO", aliases: &[] },
        Codepoint { codepoint: 0x2ECF, name: "CJK RADICAL CITY", aliases: &[] },
        Codepoint { codepoint: 0x2ED0, name: "CJK RADICAL C-SIMPLIFIED GOLD", aliases: &[] },
        Codepoint { codepoint: 0x2ED1, name: "CJK RADICAL LONG ONE", aliases: &[] },
        Codepoint { codepoint: 0x2ED2, name: "CJK RADICAL LONG TWO", aliases: &[] },
        Codepoint { codepoint: 0x2ED3, name: "CJK RADICAL C-SIMPLIFIED LONG", aliases: &[] },
        Codepoint { codepoint: 0x2ED4, name: "CJK RADICAL C-SIMPLIFIED GATE", aliases: &[] },
        Codepoint { codepoint: 0x2ED5, name: "CJK RADICAL MOUND ONE", aliases: &[] },
        Codepoint { codepoint: 0x2ED6, name: "CJK RADICAL MOUND TWO", aliases: &[] },
        Codepoint { codepoint: 0x2ED7, name: "CJK RADICAL RAIN", aliases: &[] },
        Codepoint { codepoint: 0x2ED8, name: "CJK RADICAL BLUE", aliases: &[] },
        Codepoint { codepoint: 0x2ED9, name: "CJK RADICAL C-SIMPLIFIED TANNED LEATHER", aliases: &[] },
        Codepoint { codepoint: 0x2EDA, name: "CJK RADICAL C-SIMPLIFIED LEAF", aliases: &[] },
        Codepoint { codepoint: 0x2EDB, name: "CJK RADICAL C-SIMPLIFIED WIND", aliases: &[] },
        Codepoint { codepoint: 0x2EDC, name: "CJK RADICAL C-SIMPLIFIED FLY", aliases: &[] },
        Codepoint { codepoint: 0x2EDD, name: "CJK RADICAL EAT ONE", aliases: &[] },
        Codepoint { codepoint: 0x2EDE, name: "CJK RADICAL EAT TWO", aliases: &[] },
        Codepoint { codepoint: 0x2EDF, name: "CJK RADICAL EAT THREE", aliases: &[] },
        Codepoint { codepoint: 0x2EE0, name: "CJK RADICAL C-SIMPLIFIED EAT", aliases: &[] },
        Codepoint { codepoint: 0x2EE1, name: "CJK RADICAL HEAD", aliases: &[] },
        Codepoint { codepoint: 0x2EE2, name: "CJK RADICAL C-SIMPLIFIED HORSE", aliases: &[] },
        Codepoint { codepoint: 0x2EE3, name: "CJK RADICAL BONE", aliases: &[] },
        Codepoint { codepoint: 0x2EE4, name: "CJK RADICAL GHOST", aliases: &[] },
        Codepoint { codepoint: 0x2EE5, name: "CJK RADICAL C-SIMPLIFIED FISH", aliases: &[] },
        Codepoint { codepoint: 0x2EE6, name: "CJK RADICAL C-SIMPLIFIED BIRD", aliases: &[] },
        Codepoint { codepoint: 0x2EE7, name: "CJK RADICAL C-SIMPLIFIED SALT", aliases: &[] },
        Codepoint { codepoint: 0x2EE8, name: "CJK RADICAL SIMPLIFIED WHEAT", aliases: &[] },
        Codepoint { codepoint: 0x2EE9, name: "CJK RADICAL SIMPLIFIED YELLOW", aliases: &[] },
        Codepoint { codepoint: 0x2EEA, name: "CJK RADICAL C-SIMPLIFIED FROG", aliases: &[] },
        Codepoint { codepoint: 0x2EEB, name: "CJK RADICAL J-SIMPLIFIED EVEN", aliases: &[] },
        Codepoint { codepoint: 0x2EEC, name: "CJK RADICAL C-SIMPLIFIED EVEN", aliases: &[] },
        Codepoint { codepoint: 0x2EED, name: "CJK RADICAL J-SIMPLIFIED TOOTH", aliases: &[] },
        Codepoint { codepoint: 0x2EEE, name: "CJK RADICAL C-SIMPLIFIED TOOTH", aliases: &[] },
    ]
}

fn all_codepoints_274() -> (v: Vec<Codepoint>)
    ensures
        v@ == codepoint_table_274(),
{
    let v = vec![
        Codepoint { codepoint: 0x2EC7, name: "CJK RADICAL HORN", aliases: &[] },
        Codepoint { codepoint: 0x2EC8, name: "CJK RADICAL C-SIMPLIFIED SPEECH", aliases: &[] },
        Codepoint { codepoint: 0x2EC9, name: "CJK RADICAL C-SIMPLIFIED SHELL", aliases: &[] },
        Codepoint { codepoint: 0x2ECA, name: "CJK RADICAL FOOT", aliases: &[] },
        Codepoint { codepoint: 0x2ECB, name: "CJK RADICAL C-SIMPLIFIED CART", aliases: &[] },
        Codepoint { codepoint: 0x2ECC, name: "CJK RADICAL SIMPLIFIED WALK", aliases: &[] },
        Codepoint { codepoint: 0x2ECD, name: "CJK RADICAL WALK ONE", aliases: &[] },
        Codepoint { codepoint: 0x2ECE, name: "CJK RADICAL WALK TWO", aliases: &[] },
        Codepoint { codepoint: 0x2ECF, name: "CJK RADICAL CITY", aliases: &[] },
        Codepoint { codepoint: 0x2ED0, name: "CJK RADICAL C-SIMPLIFIED GOLD", aliases: &[] },
        Codepoint { codepoint: 0x2ED1, name: "CJK RADICAL LONG ONE", aliases: &[] },
        Codepoint { codepoint: 0x2ED2, name: "CJK RADICAL LONG TWO", aliases: &[] },
        Codepoint { codepoint: 0x2ED3, name: "CJK RADICAL C-SIMPLIFIED LONG", aliases: &[] },
        Codepoint { codepoint: 0x2ED4, name: "CJK RADICAL C-SIMPLIFIED GATE", aliases: &[] },
        Codepoint { codepoint: 0x2ED5, name: "CJK RADICAL MOUND ONE", aliases: &[] },
        Codepoint { codepoint: 0x2ED6, name: "CJK RADICAL MOUND TWO", aliases: &[] },
        Codepoint { codepoint: 0x2ED7, name: "CJK RADICAL RAIN", aliases: &[] },
        Codepoint { codepoint: 0x2ED8, name: "CJK RADICAL BLUE", aliases: &[] },
        Codepoint { codepoint: 0x2ED9, name: "CJK RADICAL C-SIMPLIFIED TANNED LEATHER", aliases: &[] },
        Codepoint { codepoint: 0x2EDA, name: "CJK RADICAL C-SIMPLIFIED LEAF", aliases: &[] },
        Codepoint { codepoint: 0x2EDB, name: "CJK RADICAL C-SIMPLIFIED WIND", aliases: &[] },
        Codepoint { codepoint: 0x2EDC, name: "CJK RADICAL C-SIMPLIFIED FLY", aliases: &[] },
        Codepoint { codepoint: 0x2EDD, name: "CJK RADICAL EAT ONE", aliases: &[] },
        Codepoint { codepoint: 0x2EDE, name: "CJK RADICAL EAT TWO", aliases: &[] },
        Codepoint { codepoint: 0x2EDF, name: "CJK RADICAL EAT THREE", aliases: &[] },
        Codepoint { codepoint: 0x2EE0, name: "CJK RADICAL C-SIMPLIFIED EAT", aliases: &[] },
        Codepoint { codepoint: 0x2EE1, name: "CJK RADICAL HEAD", aliases: &[] },
        Codepoint { codepoint: 0x2EE2, name: "CJK RADICAL C-SIMPLIFIED HORSE", aliases: &[] },
        Codepoint { codepoint: 0x2EE3, name: "CJK RADICAL BONE", aliases: &[] },
        Codepoint { codepoint: 0x2EE4, name: "CJK RADICAL GHOST", aliases: &[] },
        Codepoint { codepoint: 0x2EE5, name: "CJK RADICAL C-SIMPLIFIED FISH", aliases: &[] },
        Codepoint { codepoint: 0x2EE6, name: "CJK RADICAL C-SIMPLIFIED BIRD", aliases: &[] },
        Codepoint { codepoint: 0x2EE7, name: "CJK RADICAL C-SIMPLIFIED SALT", aliases: &[] },
        Codepoint { codepoint: 0x2EE8, name: "CJK RADICAL SIMPLIFIED WHEAT", aliases: &[] },
        Codepoint { codepoint: 0x2EE9, name: "CJK RADICAL SIMPLIFIED YELLOW", aliases: &[] },
        Codepoint { codepoint: 0x2EEA, name: "CJK RADICAL C-SIMPLIFIED FROG", aliases: &[] },
        Codepoint { codepoint: 0x2EEB, name: "CJK RADICAL J-SIMPLIFIED EVEN", aliases: &[] },
        Codepoint { codepoint: 0x2EEC, name: "CJK RADICAL C-SIMPLIFIED EVEN", aliases: &[] },
        Codepoint { codepoint: 0x2EED, name: "CJK RADICAL J-SIMPLIFIED TOOTH", aliases: &[] },
        Codepoint { codepoint: 0x2EEE, name: "CJK RADICAL C-SIMPLIFIED TOOTH", aliases: &[] },
    ];
    assert(v@ =~= codepoint_table_274());
    v
}

pub open spec fn codepoint_table_275() -> Seq<Codepoint> {
    seq![
        Codepoint { codepoint: 0x2EEF, name: "CJK RADICAL J-SIMPLIFIED DRAGON", aliases: &[] },
        Codepoint { codepoint: 0x2EF0, name: "CJK RADICAL C-SIMPLIFIED DRAGON", aliases: &[] },
        Codepoint { codepoint: 0x2EF1, name: "CJK RADICAL TURTLE", aliases: &[] },
        Codepoint { codepoint: 0x2EF2, name: "CJK RADICAL J-SIMPLIFIED TURTLE", aliases: &[] },
        Codepoint { codepoint: 0x2EF3, name: "CJK RADICAL C-SIMPLIFIED TURTLE", aliases: &[] },
        Codepoint { codepoint: 0x2F00, name: "KANGXI RADICAL ONE", aliases: &[] },
        Codepoint { codepoint: 0x2F01, name: "KANGXI RADICAL LINE", aliases: &[] },
        Codepoint { codepoint: 0x2F02, name: "KANGXI RADICAL DOT", aliases: &[] },
        Codepoint { codepoint: 0x2F03, name: "KANGXI RADICAL SLASH", aliases: &[] },
        Codepoint { codepoint: 0x2F04, name: "KANGXI RADICAL SECOND", aliases: &[] },
        Codepoint { codepoint: 0x2F05, name: "KANGXI RADICAL HOOK", aliases: &[] },
        Codepoint { codepoint: 0x2F06, name: "KANGXI RADICAL TWO", aliases: &[] },
        Codepoint { codepoint: 0x2F07, name: "KANGXI RADICAL LID", aliases: &[] },
        Codepoint { codepoint: 0x2F08, name: "KANGXI RADICAL MAN", aliases: &[] },
        Codepoint { codepoint: 0x2F09, name: "KANGXI RADICAL LEGS", aliases: &[] },
        Codepoint { codepoint: 0x2F0A, name: "KANGXI RADICAL ENTER", aliases: &[] },
        Codepoint { codepoint: 0x2F0B, name: "KANGXI RADICAL EIGHT", aliases: &[] },
        Codepoint { codepoint: 0x2F0C, name: "KANGXI RADICAL DOWN BOX", aliases: &[] },
        Codepoint { codepoint: 0x2F0D, name: "KANGXI RADICAL COVER", aliases: &[] },
        Codepoint { codepoint: 0x2F0E, name: "KANGXI RADICAL ICE", aliases: &[] },
        Codepoint { codepoint: 0x2F0F, name: "KANGXI RADICAL TABLE", aliases: &[] },
        Codepoint { codepoint: 0x2F10, name: "KANGXI RADICAL OPEN BOX", aliases: &[] },
        Codepoint { codepoint: 0x2F11, name: "KANGXI RADICAL KNIFE", aliases: &[] },
        Codepoint { codepoint: 0x2F12, name: "KANGXI RADICAL POWER", aliases: &[] },
        Codepoint { codepoint: 0x2F13, name: "KANGXI RADICAL WRAP", aliases: &[] },
        Codepoint { codepoint: 0x2F14, name: "KANGXI RADICAL SPOON", aliases: &[] },
        Codepoint { codepoint: 0x2F15, name: "KANGXI RADICAL RIGHT OPEN BOX", aliases: &[] },
        Codepoint { codepoint: 0x2F16, name: "KANGXI RADICAL HIDING ENCLOSURE", aliases: &[] },
        Codepoint { codepoint: 0x2F17, name: "KANGXI RADICAL TEN", aliases: &[] },
        Codepoint { codepoint: 0x2F18, name: "KANGXI RADICAL DIVINATION", aliases: &[] },
        Codepoint { codepoint: 0x2F19, name: "KANGXI RADICAL SEAL", aliases: &[] },
        Codepoint { codepoint: 0x2F1A, name: "KANGXI RADICAL CLIFF", aliases: &[] },
        Codepoint { codepoint: 0x2F1B, name: "KANGXI RADICAL PRIVATE", aliases: &[] },
        Codepoint { codepoint: 0x2F1C, name: "KANGXI RADICAL AGAIN", aliases: &[] },
        Codepoint { codepoint: 0x2F1D, name: "KANGXI RADICAL MOUTH", aliases: &[] },
        Codepoint { codepoint: 0x2F1E, name: "KANGXI RADICAL ENCLOSURE", aliases: &[] },
        Codepoint { codepoint: 0x2F1F, name: "KANGXI RADICAL EARTH", aliases: &[] },
        Codepoint { codepoint: 0x2F20, name: "KANGXI RADICAL SCHOLAR", aliases: &[] },
        Codepoint { codepoint: 0x2F21, name: "KANGXI RADICAL GO", aliases: &[] },
        Codepoint { codepoint: 0x2F22, name: "KANGXI RADICAL GO SLOWLY", aliases: &[] },
    ]
}

fn all_codepoints_275() -> (v: Vec<Codepoint>)
    ensures
        v@ == codepoint_table_275(),
{
    let v = vec![
        Codepoint { codepoint: 0x2EEF, name: "CJK RADICAL J-SIMPLIFIED DRAGON", aliases: &[] },
        Codepoint { codepoint: 0x2EF0, name: "CJK RADICAL C-SIMPLIFIED DRAGON", aliases: &[] },
        Codepoint { codepoint: 0x2EF1, name: "CJK RADICAL TURTLE", aliases: &[] },
        Codepoint { codepoint: 0x2EF2, name: "CJK RADICAL J-SIMPLIFIED TURTLE", aliases: &[] },
        Codepoint { codepoint: 0x2EF3, name: "CJK RADICAL C-SIMPLIFIED TURTLE", aliases: &[] },
        Codepoint { codepoint: 0x2F00, name: "KANGXI RADICAL ONE", aliases: &[] },
        Codepoint { codepoint: 0x2F01, name: "KANGXI RADICAL LINE", aliases: &[] },
        Codepoint { codepoint: 0x2F02, name: "KANGXI RADICAL DOT", aliases: &[] },
        Codepoint { codepoint: 0x2F03, name: "KANGXI RADICAL SLASH", aliases: &[] },
        Codepoint { codepoint: 0x2F04, name: "KANGXI RADICAL SECOND", aliases: &[] },
        Codepoint { codepoint: 0x2F05, name: "KANGXI RADICAL HOOK", aliases: &[] },
        Codepoint { codepoint: 0x2F06, name: "KANGXI RADICAL TWO", aliases: &[] },
        Codepoint { codepoint: 0x2F07, name: "KANGXI RADICAL LID", aliases: &[] },
        Codepoint { codepoint: 0x2F08, name: "KANGXI RADICAL MAN", aliases: &[] },
        Codepoint { codepoint: 0x2F09, name: "KANGXI RADICAL LEGS", aliases: &[] },
        Codepoint { codepoint: 0x2F0A, name: "KANGXI RADICAL ENTER", aliases: &[] },
        Codepoint { codepoint: 0x2F0B, name: "KANGXI RADICAL EIGHT", aliases: &[] },
        Codepoint { codepoint: 0x2F0C, name: "KANGXI RADICAL DOWN BOX", aliases: &[] },
        Codepoint { codepoint: 0x2F0D, name: "KANGXI RADICAL COVER", aliases: &[] },
        Codepoint { codepoint: 0x2F0E, name: "KANGXI RADICAL ICE", aliases: &[] },
        Codepoint { codepoint: 0x2F0F, name: "KANGXI RADICAL TABLE", aliases: &[] },
        Codepoint { codepoint: 0x2F10, name: "KANGXI RADICAL OPEN BOX", aliases: &[] },
        Codepoint { codepoint: 0x2F11, name: "KANGXI RADICAL KNIFE", aliases: &[] },
        Codepoint { codepoint: 0x2F12, name: "KANGXI RADICAL POWER", aliases: &[] },
        Codepoint { codepoint: 0x2F13, name: "KANGXI RADICAL WRAP", aliases: &[] },
        Codepoint { codepoint: 0x2F14, name: "KANGXI RADICAL SPOON", aliases: &[] },
        Codepoint { codepoint: 0x2F15, name: "KANGXI RADICAL RIGHT OPEN BOX", aliases: &[] },
        Codepoint { codepoint: 0x2F16, name: "KANGXI RADICAL HIDING ENCLOSURE", aliases: &[] },
        Codepoint { codepoint: 0x2F17, name: "KANGXI RADICAL TEN", aliases: &[] },
        Codepoint { codepoint: 0x2F18, name: "KANGXI RADICAL DIVINATION", aliases: &[] },
        Codepoint { codepoint: 0x2F19, name: "KANGXI RADICAL SEAL", aliases: &[] },
        Codepoint { codepoint: 0x2F1A, name: "KANGXI RADICAL CLIFF", aliases: &[] },
        Codepoint { codepoint: 0x2F1B, name: "KANGXI RADICAL PRIVATE", aliases: &[] },
        Codepoint { codepoint: 0x2F1C, name: "KANGXI RADICAL AGAIN", aliases: &[] },
        Codepoint { codepoint: 0x2F1D, name: "KANGXI RADICAL MOUTH", aliases: &[] },
        Codepoint { codepoint: 0x2F1E, name: "KANGXI RADICAL ENCLOSURE", aliases: &[] },
        Codepoint { codepoint: 0x2F1F, name: "KANGXI RADICAL EARTH", aliases: &[] },
        Codepoint { codepoint: 0x2F20, name: "KANGXI RADICAL SCHOLAR", aliases: &[] },
        Codepoint { codepoint: 0x2F21, name: "KANGXI RADICAL GO", aliases: &[] },
        Codepoint { codepoint: 0x2F22, name: "KANGXI RADICAL GO SLOWLY", aliases: &[] },
    ];
    assert(v@ =~= codepoint_table_275());
    v
}

pub open spec fn codepoint_table_276() -> Seq<Codepoint> {
    seq![
        Codepoint { codepoint: 0x2F23, name: "KANGXI RADICAL EVENING", aliases: &[] },
        Codepoint { codepoint: 0x2F24, name: "KANGXI RADICAL BIG", aliases: &[] },
        Codepoint { codepoint: 0x2F25, name: "KANGXI RADICAL WOMAN", aliases: &[] },
        Codepoint { codepoint: 0x2F26, name: "KANGXI RADICAL CHILD", aliases: &[] },
        Codepoint { codepoint: 0x2F27, name: "KANGXI RADICAL ROOF", aliases: &[] },
        Codepoint { codepoint: 0x2F28, name: "KANGXI RADICAL INCH", aliases: &[] },
        Codepoint { codepoint: 0x2F29, name: "KANGXI RADICAL SMALL", aliases: &[] },
        Codepoint { codepoint: 0x2F2A, name: "KANGXI RADICAL LAME", aliases: &[] },
        Codepoint { codepoint: 0x2F2B, name: "KANGXI RADICAL CORPSE", aliases: &[] },
        Codepoint { codepoint: 0x2F2C, name: "KANGXI RADICAL SPROUT", aliases: &[] },
        Codepoint { codepoint: 0x2F2D, name: "KANGXI RADICAL MOUNTAIN", aliases: &[] },
        Codepoint { codepoint: 0x2F2E, name: "KANGXI RADICAL RIVER", aliases: &[] },
        Codepoint { codepoint: 0x2F2F, name: "KANGXI RADICAL WORK", aliases: &[] },
        Codepoint { codepoint: 0x2F30, name: "KANGXI RADICAL ONESELF", aliases: &[] },
        Codepoint { codepoint: 0x2F31, name: "KANGXI RADICAL TURBAN", aliases: &[] },
        Codepoint { codepoint: 0x2F32, name: "KANGXI RADICAL DRY", aliases: &[] },
        Codepoint { codepoint: 0x2F33, name: "KANGXI RADICAL SHORT THREAD", aliases: &[] },
        Codepoint { codepoint: 0x2F34, name: "KANGXI RADICAL DOTTED CLIFF", aliases: &[] },
        Codepoint { codepoint: 0x2F35, name: "KANGXI RADICAL LONG STRIDE", aliases: &[] },
        Codepoint { codepoint: 0x2F36, name: "KANGXI RADICAL TWO HANDS", aliases: &[] },
        Codepoint { codepoint: 0x2F37, name: "KANGXI RADICAL SHOOT", aliases: &[] },
        Codepoint { codepoint: 0x2F38, name: "KANGXI RADICAL BOW", aliases: &[] },
        Codepoint { codepoint: 0x2F39, name: "KANGXI RADICAL SNOUT", aliases: &[] },
        Codepoint { codepoint: 0x2F3A, name: "KANGXI RADICAL BRISTLE", aliases: &[] },
        Codepoint { codepoint: 0x2F3B, name: "KANGXI RADICAL STEP", aliases: &[] },
        Codepoint { codepoint: 0x2F3C, name: "KANGXI RADICAL HEART", aliases: &[] },
        Codepoint { codepoint: 0x2F3D, name: "KANGXI RADICAL HALBERD", aliases: &[] },
        Codepoint { codepoint: 0x2F3E, name: "KANGXI RADICAL DOOR", aliases: &[] },
        Codepoint { codepoint: 0x2F3F, name: "KANGXI RADICAL HAND", aliases: &[] },
        Codepoint { codepoint: 0x2F40, name: "KANGXI RADICAL BRANCH", aliases: &[] },
        Codepoint { codepoint: 0x2F41, name: "KANGXI RADICAL RAP", aliases: &[] },
        Codepoint { codepoint: 0x2F42, name: "KANGXI RADICAL SCRIPT", aliases: &[] },
        Codepoint { codepoint: 0x2F43, name: "KANGXI RADICAL DIPPER", aliases: &[] },
        Codepoint { codepoint: 0x2F44, name: "KANGXI RADICAL AXE", aliases: &[] },
        Codepoint { codepoint: 0x2F45, name: "KANGXI RADICAL SQUARE", aliases: &[] },
        Codepoint { codepoint: 0x2F46, name: "KANGXI RADICAL NOT", aliases: &[] },
        Codepoint { codepoint: 0x2F47, name: "KANGXI RADICAL SUN", aliases: &[] },
        Codepoint { codepoint: 0x2F48, name: "KANGXI RADICAL SAY", aliases: &[] },
        Codepoint { codepoint: 0x2F49, name: "KANGXI RADICAL MOON", aliases: &[] },
        Codepoint { codepoint: 0x2F4A, name: "KANGXI RADICAL TREE", aliases: &[] },
    ]
}

fn all_codepoints_276() -> (v: Vec<Codepoint>)
    ensures
        v@ == codepoint_table_276(),
{
    let v = vec![
        Codepoint { codepoint: 0x2F23, name: "KANGXI RADICAL EVENING", aliases: &[] },
        Codepoint { codepoint: 0x2F24, name: "KANGXI RADICAL BIG", aliases: &[] },
        Codepoint { codepoint: 0x2F25, name: "KANGXI RADICAL WOMAN", aliases: &[] },
        Codepoint { codepoint: 0x2F26, name: "KANGXI RADICAL CHILD", aliases: &[] },
        Codepoint { codepoint: 0x2F27, name: "KANGXI RADICAL ROOF", aliases: &[] },
        Codepoint { codepoint: 0x2F28, name: "KANGXI RADICAL INCH", aliases: &[] },
        Codepoint { codepoint: 0x2F29, name: "KANGXI RADICAL SMALL", aliases: &[] },
        Codepoint { codepoint: 0x2F2A, name: "KANGXI RADICAL LAME", aliases: &[] },
        Codepoint { codepoint: 0x2F2B, name: "KANGXI RADICAL CORPSE", aliases: &[] },
        Codepoint { codepoint: 0x2F2C, name: "KANGXI RADICAL SPROUT", aliases: &[] },
        Codepoint { codepoint: 0x2F2D, name: "KANGXI RADICAL MOUNTAIN", aliases: &[] },
        Codepoint { codepoint: 0x2F2E, name: "KANGXI RADICAL RIVER", aliases: &[] },
        Codepoint { codepoint: 0x2F2F, name: "KANGXI RADICAL WORK", aliases: &[] },
        Codepoint { codepoint: 0x2F30, name: "KANGXI RADICAL ONESELF", aliases: &[] },
        Codepoint { codepoint: 0x2F31, name: "KANGXI RADICAL TURBAN", aliases: &[] },
        Codepoint { codepoint: 0x2F32, name: "KANGXI RADICAL DRY", aliases: &[] },
        Codepoint { codepoint: 0x2F33, name: "KANGXI RADICAL SHORT THREAD", aliases: &[] },
        Codepoint { codepoint: 0x2F34, name: "KANGXI RADICAL DOTTED CLIFF", aliases: &[] },
        Codepoint { codepoint: 0x2F35, name: "KANGXI RADICAL LONG STRIDE", aliases: &[] },
        Codepoint { codepoint: 0x2F36, name: "KANGXI RADICAL TWO HANDS", aliases: &[] },
        Codepoint { codepoint: 0x2F37, name: "KANGXI RADICAL SHOOT", aliases: &[] },
        Codepoint { codepoint: 0x2F38, name: "KANGXI RADICAL BOW", aliases: &[] },
        Codepoint { codepoint: 0x2F39, name: "KANGXI RADICAL SNOUT", aliases: &[] },
        Codepoint { codepoint: 0x2F3A, name: "KANGXI RADICAL BRISTLE", aliases: &[] },
        Codepoint { codepoint: 0x2F3B, name: "KANGXI RADICAL STEP", aliases: &[] },
        Codepoint { codepoint: 0x2F3C, name: "KANGXI RADICAL HEART", aliases: &[] },
        Codepoint { codepoint: 0x2F3D, name: "KANGXI RADICAL HALBERD", aliases: &[] },
        Codepoint { codepoint: 0x2F3E, name: "KANGXI RADICAL DOOR", aliases: &[] },
        Codepoint { codepoint: 0x2F3F, name: "KANGXI RADICAL HAND", aliases: &[] },
        Codepoint { codepoint: 0x2F40, name: "KANGXI RADICAL BRANCH", aliases: &[] },
        Codepoint { codepoint: 0x2F41, name: "KANGXI RADICAL RAP", aliases: &[] },
        Codepoint { codepoint: 0x2F42, name: "KANGXI RADICAL SCRIPT", aliases: &[] },
        Codepoint { codepoint: 0x2F43, name: "KANGXI RADICAL DIPPER", aliases: &[] },
        Codepoint { codepoint: 0x2F44, name: "KANGXI RADICAL AXE", aliases: &[] },
        Codepoint { codepoint: 0x2F45, name: "KANGXI RADICAL SQUARE", aliases: &[] },
        Codepoint { codepoint: 0x2F46, name: "KANGXI RADICAL NOT", aliases: &[] },
        Codepoint { codepoint: 0x2F47, name: "KANGXI RADICAL SUN", aliases: &[] },
        Codepoint { codepoint: 0x2F48, name: "KANGXI RADICAL SAY", aliases: &[] },
        Codepoint { codepoint: 0x2F49, name: "KANGXI RADICAL MOON", aliases: &[] },
        Codepoint { codepoint: 0x2F4A, name: "KANGXI RADICAL TREE", aliases: &[] },
    ];
    assert(v@ =~= codepoint_table_276());
    v
}

pub open spec fn codepoint_table_277() -> Seq<Codepoint> {
    seq![
        Codepoint { codepoint: 0x2F4B, name: "KANGXI RADICAL LACK", aliases: &[] },
        Codepoint { codepoint: 0x2F4C, name: "KANGXI RADICAL STOP", aliases: &[] },
        Codepoint { codepoint: 0x2F4D, name: "KANGXI RADICAL DEATH", aliases: &[] },
        Codepoint { codepoint: 0x2F4E, name: "KANGXI RADICAL WEAPON", aliases: &[] },
        Codepoint { codepoint: 0x2F4F, name: "KANGXI RADICAL DO NOT", aliases: &[] },
        Codepoint { codepoint: 0x2F50, name: "KANGXI RADICAL COMPARE", aliases: &[] },
        Codepoint { codepoint: 0x2F51, name: "KANGXI RADICAL FUR", aliases: &[] },
        Codepoint { codepoint: 0x2F52, name: "KANGXI RADICAL CLAN", aliases: &[] },
        Codepoint { codepoint: 0x2F53, name: "KANGXI RADICAL STEAM", aliases: &[] },
        Codepoint { codepoint: 0x2F54, name: "KANGXI RADICAL WATER", aliases: &[] },
        Codepoint { codepoint: 0x2F55, name: "KANGXI RADICAL FIRE", aliases: &[] },
        Codepoint { codepoint: 0x2F56, name: "KANGXI RADICAL CLAW", aliases: &[] },
        Codepoint { codepoint: 0x2F57, name: "KANGXI RADICAL FATHER", aliases: &[] },
        Codepoint { codepoint: 0x2F58, name: "KANGXI RADICAL DOUBLE X", aliases: &[] },
        Codepoint { codepoint: 0x2F59, name: "KANGXI RADICAL HALF TREE TRUNK", aliases: &[] },
        Codepoint { codepoint: 0x2F5A, name: "KANGXI RADICAL SLICE", aliases: &[] },
        Codepoint { codepoint: 0x2F5B, name: "KANGXI RADICAL FANG", aliases: &[] },
        Codepoint { codepoint: 0x2F5C, name: "KANGXI RADICAL COW", aliases: &[] },
        Codepoint { codepoint: 0x2F5D, name: "KANGXI RADICAL DOG", aliases: &[] },
        Codepoint { codepoint: 0x2F5E, name: "KANGXI RADICAL PROFOUND", aliases: &[] },
        Codepoint { codepoint: 0x2F5F, name: "KANGXI RADICAL JADE", aliases: &[] },
        Codepoint { codepoint: 0x2F60, name: "KANGXI RADICAL MELON", aliases: &[] },
        Codepoint { codepoint: 0x2F61, name: "KANGXI RADICAL TILE", aliases: &[] },
        Codepoint { codepoint: 0x2F62, name: "KANGXI RADICAL SWEET", aliases: &[] },
        Codepoint { codepoint: 0x2F63, name: "KANGXI RADICAL LIFE", aliases: &[] },
        Codepoint { codepoint: 0x2F64, name: "KANGXI RADICAL USE", aliases: &[] },
        Codepoint { codepoint: 0x2F65, name: "KANGXI RADICAL FIELD", aliases: &[] },
        Codepoint { codepoint: 0x2F66, name: "KANGXI RADICAL BOLT OF CLOTH", aliases: &[] },
        Codepoint { codepoint: 0x2F67, name: "KANGXI RADICAL SICKNESS", aliases: &[] },
        Codepoint { codepoint: 0x2F68, name: "KANGXI RADICAL DOTTED TENT", aliases: &[] },
        Codepoint { codepoint: 0x2F69, name: "KANGXI RADICAL WHITE", aliases: &[] },
        Codepoint { codepoint: 0x2F6A, name: "KANGXI RADICAL SKIN", aliases: &[] },
        Codepoint { codepoint: 0x2F6B, name: "KANGXI RADICAL DISH", aliases: &[] },
        Codepoint { codepoint: 0x2F6C, name: "KANGXI RADICAL EYE", aliases: &[] },
        Codepoint { codepoint: 0x2F6D, name: "KANGXI RADICAL SPEAR", aliases: &[] },
        Codepoint { codepoint: 0x2F6E, name: "KANGXI RADICAL ARROW", aliases: &[] },
        Codepoint { codepoint: 0x2F6F, name: "KANGXI RADICAL STONE", aliases: &[] },
        Codepoint { codepoint: 0x2F70, name: "KANGXI RADICAL SPIRIT", aliases: &[] },
        Codepoint { codepoint: 0x2F71, name: "KANGXI RADICAL TRACK", aliases: &[] },
        Codepoint { codepoint: 0x2F72, name: "KANGXI RADICAL GRAIN", aliases: &[] },
    ]
}

fn all_codepoints_277() -> (v: Vec<Codepoint>)
    ensures
        v@ == codepoint_table_277(),
{
    let v = vec![
        Codepoint { codepoint: 0x2F4B, name: "KANGXI RADICAL LACK", aliases: &[] },
        Codepoint { codepoint: 0x2F4C, name: "KANGXI RADICAL STOP", aliases: &[] },
        Codepoint { codepoint: 0x2F4D, name: "KANGXI RADICAL DEATH", aliases: &[] },
        Codepoint { codepoint: 0x2F4E, name: "KANGXI RADICAL WEAPON", aliases: &[] },
        Codepoint { codepoint: 0x2F4F, name: "KANGXI RADICAL DO NOT", aliases: &[] },
        Codepoint { codepoint: 0x2F50, name: "KANGXI RADICAL COMPARE", aliases: &[] },
        Codepoint { codepoint: 0x2F51, name: "KANGXI RADICAL FUR", aliases: &[] },
        Codepoint { codepoint: 0x2F52, name: "KANGXI RADICAL CLAN", aliases: &[] },
        Codepoint { codepoint: 0x2F53, name: "KANGXI RADICAL STEAM", aliases: &[] },
        Codepoint { codepoint: 0x2F54, name: "KANGXI RADICAL WATER", aliases: &[] },
        Codepoint { codepoint: 0x2F55, name: "KANGXI RADICAL FIRE", aliases: &[] },
        Codepoint { codepoint: 0x2F56, name: "KANGXI RADICAL CLAW", aliases: &[] },
        Codepoint { codepoint: 0x2F57, name: "KANGXI RADICAL FATHER", aliases: &[] },
        Codepoint { codepoint: 0x2F58, name: "KANGXI RADICAL DOUBLE X", aliases: &[] },
        Codepoint { codepoint: 0x2F59, name: "KANGXI RADICAL HALF TREE TRUNK", aliases: &[] },
        Codepoint { codepoint: 0x2F5A, name: "KANGXI RADICAL SLICE", aliases: &[] },
        Codepoint { codepoint: 0x2F5B, name: "KANGXI RADICAL FANG", aliases: &[] },
        Codepoint { codepoint: 0x2F5C, name: "KANGXI RADICAL COW", aliases: &[] },
        Codepoint { codepoint: 0x2F5D, name: "KANGXI RADICAL DOG", aliases: &[] },
        Codepoint { codepoint: 0x2F5E, name: "KANGXI RADICAL PROFOUND", aliases: &[] },
        Codepoint { codepoint: 0x2F5F, name: "KANGXI RADICAL JADE", aliases: &[] },
        Codepoint { codepoint: 0x2F60, name: "KANGXI RADICAL MELON", aliases: &[] },
        Codepoint { codepoint: 0x2F61, name: "KANGXI RADICAL TILE", aliases: &[] },
        Codepoint { codepoint: 0x2F62, name: "KANGXI RADICAL SWEET", aliases: &[] },
        Codepoint { codepoint: 0x2F63, name: "KANGXI RADICAL LIFE", aliases: &[] },
        Codepoint { codepoint: 0x2F64, name: "KANGXI RADICAL USE", aliases: &[] },
        Codepoint { codepoint: 0x2F65, name: "KANGXI RADICAL FIELD", aliases: &[] },
        Codepoint { codepoint: 0x2F66, name: "KANGXI RADICAL BOLT OF CLOTH", aliases: &[] },
        Codepoint { codepoint: 0x2F67, name: "KANGXI RADICAL SICKNESS", aliases: &[] },
        Codepoint { codepoint: 0x2F68, name: "KANGXI RADICAL DOTTED TENT", aliases: &[] },
        Codepoint { codepoint: 0x2F69, name: "KANGXI RADICAL WHITE", aliases: &[] },
        Codepoint { codepoint: 0x2F6A, name: "KANGXI RADICAL SKIN", aliases: &[] },
        Codepoint { codepoint: 0x2F6B, name: "KANGXI RADICAL DISH", aliases: &[] },
        Codepoint { codepoint: 0x2F6C, name: "KANGXI RADICAL EYE", aliases: &[] },
        Codepoint { codepoint: 0x2F6D, name: "KANGXI RADICAL SPEAR", aliases: &[] },
        Codepoint { codepoint: 0x2F6E, name: "KANGXI RADICAL ARROW", aliases: &[] },
        Codepoint { codepoint: 0x2F6F, name: "KANGXI RADICAL STONE", aliases: &[] },
        Codepoint { codepoint: 0x2F70, name: "KANGXI RADICAL SPIRIT", aliases: &[] },
        Codepoint { codepoint: 0x2F71, name: "KANGXI RADICAL TRACK", aliases: &[] },
        Codepoint { codepoint: 0x2F72, name: "KANGXI RADICAL GRAIN", aliases: &[] },
    ];
    assert(v@ =~= codepoint_table_277());
    v
}

pub open spec fn codepoint_table_278() -> Seq<Codepoint> {
    seq![
        Codepoint { codepoint: 0x2F73, name: "KANGXI RADICAL CAVE", aliases: &[] },
        Codepoint { codepoint: 0x2F74, name: "KANGXI RADICAL STAND", aliases: &[] },
        Codepoint { codepoint: 0x2F75, name: "KANGXI RADICAL BAMBOO", aliases: &[] },
        Codepoint { codepoint: 0x2F76, name: "KANGXI RADICAL RICE", aliases: &[] },
        Codepoint { codepoint: 0x2F77, name: "KANGXI RADICAL SILK", aliases: &[] },
        Codepoint { codepoint: 0x2F78, name: "KANGXI RADICAL JAR", aliases: &[] },
        Codepoint { codepoint: 0x2F79, name: "KANGXI RADICAL NET", aliases: &[] },
        Codepoint { codepoint: 0x2F7A, name: "KANGXI RADICAL SHEEP", aliases: &[] },
        Codepoint { codepoint: 0x2F7B, name: "KANGXI RADICAL FEATHER", aliases: &[] },
        Codepoint { codepoint: 0x2F7C, name: "KANGXI RADICAL OLD", aliases: &[] },
        Codepoint { codepoint: 0x2F7D, name: "KANGXI RADICAL AND", aliases: &[] },
        Codepoint { codepoint: 0x2F7E, name: "KANGXI RADICAL PLOW", aliases: &[] },
        Codepoint { codepoint: 0x2F7F, name: "KANGXI RADICAL EAR", aliases: &[] },
        Codepoint { codepoint: 0x2F80, name: "KANGXI RADICAL BRUSH", aliases: &[] },
        Codepoint { codepoint: 0x2F81, name: "KANGXI RADICAL MEAT", aliases: &[] },
        Codepoint { codepoint: 0x2F82, name: "KANGXI RADICAL MINISTER", aliases: &[] },
        Codepoint { codepoint: 0x2F83, name: "KANGXI RADICAL SELF", aliases: &[] },
        Codepoint { codepoint: 0x2F84, name: "KANGXI RADICAL ARRIVE", aliases: &[] },
        Codepoint { codepoint: 0x2F85, name: "KANGXI RADICAL MORTAR", aliases: &[] },
        Codepoint { codepoint: 0x2F86, name: "KANGXI RADICAL TONGUE", aliases: &[] },
        Codepoint { codepoint: 0x2F87, name: "KANGXI RADICAL OPPOSE", aliases: &[] },
        Codepoint { codepoint: 0x2F88, name: "KANGXI RADICAL BOAT", aliases: &[] },
        Codepoint { codepoint: 0x2F89, name: "KANGXI RADICAL STOPPING", aliases: &[] },
        Codepoint { codepoint: 0x2F8A, name: "KANGXI RADICAL COLOR", aliases: &[] },
        Codepoint { codepoint: 0x2F8B, name: "KANGXI RADICAL GRASS", aliases: &[] },
        Codepoint { codepoint: 0x2F8C, name: "KANGXI RADICAL TIGER", aliases: &[] },
        Codepoint { codepoint: 0x2F8D, name: "KANGXI RADICAL INSECT", aliases: &[] },
        Codepoint { codepoint: 0x2F8E, name: "KANGXI RADICAL BLOOD", aliases: &[] },
        Codepoint { codepoint: 0x2F8F, name: "KANGXI RADICAL WALK ENCLOSURE", aliases: &[] },
        Codepoint { codepoint: 0x2F90, name: "KANGXI RADICAL CLOTHES", aliases: &[] },
        Codepoint { codepoint: 0x2F91, name: "KANGXI RADICAL WEST", aliases: &[] },
        Codepoint { codepoint: 0x2F92, name: "KANGXI RADICAL SEE", aliases: &[] },
        Codepoint { codepoint: 0x2F93, name: "KANGXI RADICAL HORN", aliases: &[] },
        Codepoint { codepoint: 0x2F94, name: "KANGXI RADICAL SPEECH", aliases: &[] },
        Codepoint { codepoint: 0x2F95, name: "KANGXI RADICAL VALLEY", aliases: &[] },
        Codepoint { codepoint: 0x2F96, name: "KANGXI RADICAL BEAN", aliases: &[] },
        Codepoint { codepoint: 0x2F97, name: "KANGXI RADICAL PIG", aliases: &[] },
        Codepoint { codepoint: 0x2F98, name: "KANGXI RADICAL BADGER", aliases: &[] },
        Codepoint { codepoint: 0x2F99, name: "KANGXI RADICAL SHELL", aliases: &[] },
        Codepoint { codepoint: 0x2F9A, name: "KANGXI RADICAL RED", aliases: &[] },
    ]
}

fn all_codepoints_278() -> (v: Vec<Codepoint>)
    ensures
        v@ == codepoint_table_278(),
{
    let v = vec![
        Codepoint { codepoint: 0x2F73, name: "KANGXI RADICAL CAVE", aliases: &[] },
        Codepoint { codepoint: 0x2F74, name: "KANGXI RADICAL STAND", aliases: &[] },
        Codepoint { codepoint: 0x2F75, name: "KANGXI RADICAL BAMBOO", aliases: &[] },
        Codepoint { codepoint: 0x2F76, name: "KANGXI RADICAL RICE", aliases: &[] },
        Codepoint { codepoint: 0x2F77, name: "KANGXI RADICAL SILK", aliases: &[] },
        Codepoint { codepoint: 0x2F78, name: "KANGXI RADICAL JAR", aliases: &[] },
        Codepoint { codepoint: 0x2F79, name: "KANGXI RADICAL NET", aliases: &[] },
        Codepoint { codepoint: 0x2F7A, name: "KANGXI RADICAL SHEEP", aliases: &[] },
        Codepoint { codepoint: 0x2F7B, name: "KANGXI RADICAL FEATHER", aliases: &[] },
        Codepoint { codepoint: 0x2F7C, name: "KANGXI RADICAL OLD", aliases: &[] },
        Codepoint { codepoint: 0x2F7D, name: "KANGXI RADICAL AND", aliases: &[] },
        Codepoint { codepoint: 0x2F7E, name: "KANGXI RADICAL PLOW", aliases: &[] },
        Codepoint { codepoint: 0x2F7F, name: "KANGXI RADICAL EAR", aliases: &[] },
        Codepoint { codepoint: 0x2F80, name: "KANGXI RADICAL BRUSH", aliases: &[] },
        Codepoint { codepoint: 0x2F81, name: "KANGXI RADICAL MEAT", aliases: &[] },
        Codepoint { codepoint: 0x2F82, name: "KANGXI RADICAL MINISTER", aliases: &[] },
        Codepoint { codepoint: 0x2F83, name: "KANGXI RADICAL SELF", aliases: &[] },
        Codepoint { codepoint: 0x2F84, name: "KANGXI RADICAL ARRIVE", aliases: &[] },
        Codepoint { codepoint: 0x2F85, name: "KANGXI RADICAL MORTAR", aliases: &[] },
        Codepoint { codepoint: 0x2F86, name: "KANGXI RADICAL TONGUE", aliases: &[] },
        Codepoint { codepoint: 0x2F87, name: "KANGXI RADICAL OPPOSE", aliases: &[] },
        Codepoint { codepoint: 0x2F88, name: "KANGXI RADICAL BOAT", aliases: &[] },
        Codepoint { codepoint: 0x2F89, name: "KANGXI RADICAL STOPPING", aliases: &[] },
        Codepoint { codepoint: 0x2F8A, name: "KANGXI RADICAL COLOR", aliases: &[] },
        Codepoint { codepoint: 0x2F8B, name: "KANGXI RADICAL GRASS", aliases: &[] },
        Codepoint { codepoint: 0x2F8C, name: "KANGXI RADICAL TIGER", aliases: &[] },
        Codepoint { codepoint: 0x2F8D, name: "KANGXI RADICAL INSECT", aliases: &[] },
        Codepoint { codepoint: 0x2F8E, name: "KANGXI RADICAL BLOOD", aliases: &[] },
        Codepoint { codepoint: 0x2F8F, name: "KANGXI RADICAL WALK ENCLOSURE", aliases: &[] },
        Codepoint { codepoint: 0x2F90, name: "KANGXI RADICAL CLOTHES", aliases: &[] },
        Codepoint { codepoint: 0x2F91, name: "KANGXI RADICAL WEST", aliases: &[] },
        Codepoint { codepoint: 0x2F92, name: "KANGXI RADICAL SEE", aliases: &[] },
        Codepoint { codepoint: 0x2F93, name: "KANGXI RADICAL HORN", aliases: &[] },
        Codepoint { codepoint: 0x2F94, name: "KANGXI RADICAL SPEECH", aliases: &[] },
        Codepoint { codepoint: 0x2F95, name: "KANGXI RADICAL VALLEY", aliases: &[] },
        Codepoint { codepoint: 0x2F96, name: "KANGXI RADICAL BEAN", aliases: &[] },
        Codepoint { codepoint: 0x2F97, name: "KANGXI RADICAL PIG", aliases: &[] },
        Codepoint { codepoint: 0x2F98, name: "KANGXI RADICAL BADGER", aliases: &[] },
        Codepoint { codepoint: 0x2F99, name: "KANGXI RADICAL SHELL", aliases: &[] },
        Codepoint { codepoint: 0x2F9A, name: "KANGXI RADICAL RED", aliases: &[] },
    ];
    assert(v@ =~= codepoint_table_278());
    v
}

pub open spec fn codepoint_table_279() -> Seq<Codepoint> {
    seq![
        Codepoint { codepoint: 0x2F9B, name: "KANGXI RADICAL RUN", aliases: &[] },
        Codepoint { codepoint: 0x2F9C, name: "KANGXI RADICAL FOOT", aliases: &[] },
        Codepoint { codepoint: 0x2F9D, name: "KANGXI RADICAL BODY", aliases: &[] },
        Codepoint { codepoint: 0x2F9E, name: "KANGXI RADICAL CART", aliases: &[] },
        Codepoint { codepoint: 0x2F9F, name: "KANGXI RADICAL BITTER", aliases: &[] },
        Codepoint { codepoint: 0x2FA0, name: "KANGXI RADICAL MORNING", aliases: &[] },
        Codepoint { codepoint: 0x2FA1, name: "KANGXI RADICAL WALK", aliases: &[] },
        Codepoint { codepoint: 0x2FA2, name: "KANGXI RADICAL CITY", aliases: &[] },
        Codepoint { codepoint: 0x2FA3, name: "KANGXI RADICAL WINE", aliases: &[] },
        Codepoint { codepoint: 0x2FA4, name: "KANGXI RADICAL DISTINGUISH", aliases: &[] },
        Codepoint { codepoint: 0x2FA5, name: "KANGXI RADICAL VILLAGE", aliases: &[] },
        Codepoint { codepoint: 0x2FA6, name: "KANGXI RADICAL GOLD", aliases: &[] },
        Codepoint { codepoint: 0x2FA7, name: "KANGXI RADICAL LONG", aliases: &[] },
        Codepoint { codepoint: 0x2FA8, name: "KANGXI RADICAL GATE", aliases: &[] },
        Codepoint { codepoint: 0x2FA9, name: "KANGXI RADICAL MOUND", aliases: &[] },
        Codepoint { codepoint: 0x2FAA, name: "KANGXI RADICAL SLAVE", aliases: &[] },
        Codepoint { codepoint: 0x2FAB, name: "KANGXI RADICAL SHORT TAILED BIRD", aliases: &[] },
        Codepoint { codepoint: 0x2FAC, name: "KANGXI RADICAL RAIN", aliases: &[] },
        Codepoint { codepoint: 0x2FAD, name: "KANGXI RADICAL BLUE", aliases: &[] },
        Codepoint { codepoint: 0x2FAE, name: "KANGXI RADICAL WRONG", aliases: &[] },
        Codepoint { codepoint: 0x2FAF, name: "KANGXI RADICAL FACE", aliases: &[] },
        Codepoint { codepoint: 0x2FB0, name: "KANGXI RADICAL LEATHER", aliases: &[] },
        Codepoint { codepoint: 0x2FB1, name: "KANGXI RADICAL TANNED LEATHER", aliases: &[] },
        Codepoint { codepoint: 0x2FB2, name: "KANGXI RADICAL LEEK", aliases: &[] },
        Codepoint { codepoint: 0x2FB3, name: "KANGXI RADICAL SOUND", aliases: &[] },
        Codepoint { codepoint: 0x2FB4, name: "KANGXI RADICAL LEAF", aliases: &[] },
        Codepoint { codepoint: 0x2FB5, name: "KANGXI RADICAL WIND", aliases: &[] },
        Codepoint { codepoint: 0x2FB6, name: "KANGXI RADICAL FLY", aliases: &[] },
        Codepoint { codepoint: 0x2FB7, name: "KANGXI RADICAL EAT", aliases: &[] },
        Codepoint { codepoint: 0x2FB8, name: "KANGXI RADICAL HEAD", aliases: &[] },
        Codepoint { codepoint: 0x2FB9, name: "KANGXI RADICAL FRAGRANT", aliases: &[] },
        Codepoint { codepoint: 0x2FBA, name: "KANGXI RADICAL HORSE", aliases: &[] },
        Codepoint { codepoint: 0x2FBB, name: "KANGXI RADICAL BONE", aliases: &[] },
        Codepoint { codepoint: 0x2FBC, name: "KANGXI RADICAL TALL", aliases: &[] },
        Codepoint { codepoint: 0x2FBD, name: "KANGXI RADICAL HAIR", aliases: &[] },
        Codepoint { codepoint: 0x2FBE, name: "KANGXI RADICAL FIGHT", aliases: &[] },
        Codepoint { codepoint: 0x2FBF, name: "KANGXI RADICAL SACRIFICIAL WINE", aliases: &[] },
        Codepoint { codepoint: 0x2FC0, name: "KANGXI RADICAL CAULDRON", aliases: &[] },
        Codepoint { codepoint: 0x2FC1, name: "KANGXI RADICAL GHOST", aliases: &[] },
        Codepoint { codepoint: 0x2FC2, name: "KANGXI RADICAL FISH", aliases: &[] },
    ]
}

fn all_codepoints_279() -> (v: Vec<Codepoint>)
    ensures
        v@ == codepoint_table_279(),
{
    let v = vec![
        Codepoint { codepoint: 0x2F9B, name: "KANGXI RADICAL RUN", aliases: &[] },
        Codepoint { codepoint: 0x2F9C, name: "KANGXI RADICAL FOOT", aliases: &[] },
        Codepoint { codepoint: 0x2F9D, name: "KANGXI RADICAL BODY", aliases: &[] },
        Codepoint { codepoint: 0x2F9E, name: "KANGXI RADICAL CART", aliases: &[] },
        Codepoint { codepoint: 0x2F9F, name: "KANGXI RADICAL BITTER", aliases: &[] },
        Codepoint { codepoint: 0x2FA0, name: "KANGXI RADICAL MORNING", aliases: &[] },
        Codepoint { codepoint: 0x2FA1, name: "KANGXI RADICAL WALK", aliases: &[] },
        Codepoint { codepoint: 0x2FA2, name: "KANGXI RADICAL CITY", aliases: &[] },
        Codepoint { codepoint: 0x2FA3, name: "KANGXI RADICAL WINE", aliases: &[] },
        Codepoint { codepoint: 0x2FA4, name: "KANGXI RADICAL DISTINGUISH", aliases: &[] },
        Codepoint { codepoint: 0x2FA5, name: "KANGXI RADICAL VILLAGE", aliases: &[] },
        Codepoint { codepoint: 0x2FA6, name: "KANGXI RADICAL GOLD", aliases: &[] },
        Codepoint { codepoint: 0x2FA7, name: "KANGXI RADICAL LONG", aliases: &[] },
        Codepoint { codepoint: 0x2FA8, name: "KANGXI RADICAL GATE", aliases: &[] },
        Codepoint { codepoint: 0x2FA9, name: "KANGXI RADICAL MOUND", aliases: &[] },
        Codepoint { codepoint: 0x2FAA, name: "KANGXI RADICAL SLAVE", aliases: &[] },
        Codepoint { codepoint: 0x2FAB, name: "KANGXI RADICAL SHORT TAILED BIRD", aliases: &[] },
        Codepoint { codepoint: 0x2FAC, name: "KANGXI RADICAL RAIN", aliases: &[] },
        Codepoint { codepoint: 0x2FAD, name: "KANGXI RADICAL BLUE", aliases: &[] },
        Codepoint { codepoint: 0x2FAE, name: "KANGXI RADICAL WRONG", aliases: &[] },
        Codepoint { codepoint: 0x2FAF, name: "KANGXI RADICAL FACE", aliases: &[] },
        Codepoint { codepoint: 0x2FB0, name: "KANGXI RADICAL LEATHER", aliases: &[] },
        Codepoint { codepoint: 0x2FB1, name: "KANGXI RADICAL TANNED LEATHER", aliases: &[] },
        Codepoint { codepoint: 0x2FB2, name: "KANGXI RADICAL LEEK", aliases: &[] },
        Codepoint { codepoint: 0x2FB3, name: "KANGXI RADICAL SOUND", aliases: &[] },
        Codepoint { codepoint: 0x2FB4, name: "KANGXI RADICAL LEAF", aliases: &[] },
        Codepoint { codepoint: 0x2FB5, name: "KANGXI RADICAL WIND", aliases: &[] },
        Codepoint { codepoint: 0x2FB6, name: "KANGXI RADICAL FLY", aliases: &[] },
        Codepoint { codepoint: 0x2FB7, name: "KANGXI RADICAL EAT", aliases: &[] },
        Codepoint { codepoint: 0x2FB8, name: "KANGXI RADICAL HEAD", aliases: &[] },
        Codepoint { codepoint: 0x2FB9, name: "KANGXI RADICAL FRAGRANT", aliases: &[] },
        Codepoint { codepoint: 0x2FBA, name: "KANGXI RADICAL HORSE", aliases: &[] },
        Codepoint { codepoint: 0x2FBB, name: "KANGXI RADICAL BONE", aliases: &[] },
        Codepoint { codepoint: 0x2FBC, name: "KANGXI RADICAL TALL", aliases: &[] },
        Codepoint { codepoint: 0x2FBD, name: "KANGXI RADICAL HAIR", aliases: &[] },
        Codepoint { codepoint: 0x2FBE, name: "KANGXI RADICAL FIGHT", aliases: &[] },
        Codepoint { codepoint: 0x2FBF, name: "KANGXI RADICAL SACRIFICIAL WINE", aliases: &[] },
        Codepoint { codepoint: 0x2FC0, name: "KANGXI RADICAL CAULDRON", aliases: &[] },
        Codepoint { codepoint: 0x2FC1, name: "KANGXI RADICAL GHOST", aliases: &[] },
        Codepoint { codepoint: 0x2FC2, name: "KANGXI RADICAL FISH", aliases: &[] },
    ];
    assert(v@ =~= codepoint_table_279());
    v
}

/// The entries from position 10400 of the table, 800 at most.
pub open spec fn codepoint_group_13() -> Seq<Codepoint> {
    codepoint_table_260() + codepoint_table_261() + codepoint_table_262() + codepoint_table_263() + codepoint_table_264() + codepoint_table_265() + codepoint_table_266() + codepoint_table_267() + codepoint_table_268() + codepoint_table_269() + codepoint_table_270() + codepoint_table_271() + codepoint_table_272() + codepoint_table_273() + codepoint_table_274() + codepoint_table_275() + codepoint_table_276() + codepoint_table_277() + codepoint_table_278() + codepoint_table_279()
}

pub fn all_codepoints_group_13() -> (v: Vec<Codepoint>)
    ensures
        v@ == codepoint_group_13(),
{
    let mut v = all_codepoints_260();
    let mut part = all_codepoints_261();
    v.append(&mut part);
    let mut part = all_codepoints_262();
    v.append(&mut part);
    let mut part = all_codepoints_263();
    v.append(&mut part);
    let mut part = all_codepoints_264();
    v.append(&mut part);
    let mut part = all_codepoints_265();
    v.append(&mut part);
    let mut part = all_codepoints_266();
    v.append(&mut part);
    let mut part = all_codepoints_267();
    v.append(&mut part);
    let mut part = all_codepoints_268();
    v.append(&mut part);
    let mut part = all_codepoints_269();
    v.append(&mut part);
    let mut part = all_codepoints_270();
    v.append(&mut part);
    let mut part = all_codepoints_271();
    v.append(&mut part);
    let mut part = all_codepoints_272();
    v.append(&mut part);
    let mut part = all_codepoints_273();
    v.append(&mut part);
    let mut part = all_codepoints_274();
    v.append(&mut part);
    let mut part = all_codepoints_275();
    v.append(&mut part);
    let mut part = all_codepoints_276();
    v.append(&mut part);
    let mut part = all_codepoints_277();
    v.append(&mut part);
    let mut part = all_codepoints_278();
    v.append(&mut part);
    let mut part = all_codepoints_279();
    v.append(&mut part);
    v
}

pub open spec fn codepoint_table_280() -> Seq<Codepoint> {
    seq![
        Codepoint { codepoint: 0x2FC3, name: "KANGXI RADICAL BIRD", aliases: &[] },
        Codepoint { codepoint: 0x2FC4, name: "KANGXI RADICAL SALT", aliases: &[] },
        Codepoint { codepoint: 0x2FC5, name: "KANGXI RADICAL DEER", aliases: &[] },
        Codepoint { codepoint: 0x2FC6, name: "KANGXI RADICAL WHEAT", aliases: &[] },
        Codepoint { codepoint: 0x2FC7, name: "KANGXI RADICAL HEMP", aliases: &[] },
        Codepoint { codepoint: 0x2FC8, name: "KANGXI RADICAL YELLOW", aliases: &[] },
        Codepoint { codepoint: 0x2FC9, name: "KANGXI RADICAL MILLET", aliases: &[] },
        Codepoint { codepoint: 0x2FCA, name: "KANGXI RADICAL BLACK", aliases: &[] },
        Codepoint { codepoint: 0x2FCB, name: "KANGXI RADICAL EMBROIDERY", aliases: &[] },
        Codepoint { codepoint: 0x2FCC, name: "KANGXI RADICAL FROG", aliases: &[] },
        Codepoint { codepoint: 0x2FCD, name: "KANGXI RADICAL TRIPOD", aliases: &[] },
        Codepoint { codepoint: 0x2FCE, name: "KANGXI RADICAL DRUM", aliases: &[] },
        Codepoint { codepoint: 0x2FCF, name: "KANGXI RADICAL RAT", aliases: &[] },
        Codepoint { codepoint: 0x2FD0, name: "KANGXI RADICAL NOSE", aliases: &[] },
        Codepoint { codepoint: 0x2FD1, name: "KANGXI RADICAL EVEN", aliases: &[] },
        Codepoint { codepoint: 0x2FD2, name: "KANGXI RADICAL TOOTH", aliases: &[] },
        Codepoint { codepoint: 0x2FD3, name: "KANGXI RADICAL DRAGON", aliases: &[] },
        Codepoint { codepoint: 0x2FD4, name: "KANGXI RADICAL TURTLE", aliases: &[] },
        Codepoint { codepoint: 0x2FD5, name: "KANGXI RADICAL FLUTE", aliases: &[] },
        Codepoint { codepoint: 0x2FF0, name: "IDEOGRAPHIC DESCRIPTION CHARACTER LEFT TO RIGHT", aliases: &[] },
        Codepoint { codepoint: 0x2FF1, name: "IDEOGRAPHIC DESCRIPTION CHARACTER ABOVE TO BELOW", aliases: &[] },
        Codepoint { codepoint: 0x2FF2, name: "IDEOGRAPHIC DESCRIPTION CHARACTER LEFT TO MIDDLE AND RIGHT", aliases: &[] },
        Codepoint { codepoint: 0x2FF3, name: "IDEOGRAPHIC DESCRIPTION CHARACTER ABOVE TO MIDDLE AND BELOW", aliases: &[] },
        Codepoint { codepoint: 0x2FF4, name: "IDEOGRAPHIC DESCRIPTION CHARACTER FULL SURROUND", aliases: &[] },
        Codepoint { codepoint: 0x2FF5, name: "IDEOGRAPHIC DESCRIPTION CHARACTER SURROUND FROM ABOVE", aliases: &[] },
        Codepoint { codepoint: 0x2FF6, name: "IDEOGRAPHIC DESCRIPTION CHARACTER SURROUND FROM BELOW", aliases: &[] },
        Codepoint { codepoint: 0x2FF7, name: "IDEOGRAPHIC DESCRIPTION CHARACTER SURROUND FROM LEFT", aliases: &[] },
        Codepoint { codepoint: 0x2FF8, name: "IDEOGRAPHIC DESCRIPTION CHARACTER SURROUND FROM UPPER LEFT", aliases: &[] },
        Codepoint { codepoint: 0x2FF9, name: "IDEOGRAPHIC DESCRIPTION CHARACTER SURROUND FROM UPPER RIGHT", aliases: &[] },
        Codepoint { codepoint: 0x2FFA, name: "IDEOGRAPHIC DESCRIPTION CHARACTER SURROUND FROM LOWER LEFT", aliases: &[] },
        Codepoint { codepoint: 0x2FFB, name: "IDEOGRAPHIC DESCRIPTION CHARACTER OVERLAID", aliases: &[] },
        Codepoint { codepoint: 0x3000, name: "IDEOGRAPHIC SPACE", aliases: &[] },
        Codepoint { codepoint: 0x3001, name: "IDEOGRAPHIC COMMA", aliases: &[] },
        Codepoint { codepoint: 0x3002, name: "IDEOGRAPHIC FULL STOP", aliases: &["IDEOGRAPHIC PERIOD"] },
        Codepoint { codepoint: 0x3003, name: "DITTO MARK", aliases: &[] },
        Codepoint { codepoint: 0x3004, name: "JAPANESE INDUSTRIAL STANDARD SYMBOL", aliases: &[] },
        Codepoint { codepoint: 0x3005, name: "IDEOGRAPHIC ITERATION MARK", aliases: &[] },
        Codepoint { codepoint: 0x3006, name: "IDEOGRAPHIC CLOSING MARK", aliases: &[] },
        Codepoint { codepoint: 0x3007, name: "IDEOGRAPHIC NUMBER ZERO", aliases: &[] },
        Codepoint { codepoint: 0x3008, name: "LEFT ANGLE BRACKET", aliases: &["OPENING ANGLE BRACKET"] },
    ]
}

fn all_codepoints_280() -> (v: Vec<Codepoint>)
    ensures
        v@ == codepoint_table_280(),
{
    let v = vec![
        Codepoint { codepoint: 0x2FC3, name: "KANGXI RADICAL BIRD", aliases: &[] },
        Codepoint { codepoint: 0x2FC4, name: "KANGXI RADICAL SALT", aliases: &[] },
        Codepoint { codepoint: 0x2FC5, name: "KANGXI RADICAL DEER", aliases: &[] },
        Codepoint { codepoint: 0x2FC6, name: "KANGXI RADICAL WHEAT", aliases: &[] },
        Codepoint { codepoint: 0x2FC7, name: "KANGXI RADICAL HEMP", aliases: &[] },
        Codepoint { codepoint: 0x2FC8, name: "KANGXI RADICAL YELLOW", aliases: &[] },
        Codepoint { codepoint: 0x2FC9, name: "KANGXI RADICAL MILLET", aliases: &[] },
        Codepoint { codepoint: 0x2FCA, name: "KANGXI RADICAL BLACK", aliases: &[] },
        Codepoint { codepoint: 0x2FCB, name: "KANGXI RADICAL EMBROIDERY", aliases: &[] },
        Codepoint { codepoint: 0x2FCC, name: "KANGXI RADICAL FROG", aliases: &[] },
        Codepoint { codepoint: 0x2FCD, name: "KANGXI RADICAL TRIPOD", aliases: &[] },
        Codepoint { codepoint: 0x2FCE, name: "KANGXI RADICAL DRUM", aliases: &[] },
        Codepoint { codepoint: 0x2FCF, name: "KANGXI RADICAL RAT", aliases: &[] },
        Codepoint { codepoint: 0x2FD0, name: "KANGXI RADICAL NOSE", aliases: &[] },
        Codepoint { codepoint: 0x2FD1, name: "KANGXI RADICAL EVEN", aliases: &[] },
        Codepoint { codepoint: 0x2FD2, name: "KANGXI RADICAL TOOTH", aliases: &[] },
        Codepoint { codepoint: 0x2FD3, name: "KANGXI RADICAL DRAGON", aliases: &[] },
        Codepoint { codepoint: 0x2FD4, name: "KANGXI RADICAL TURTLE", aliases: &[] },
        Codepoint { codepoint: 0x2FD5, name: "KANGXI RADICAL FLUTE", aliases: &[] },
        Codepoint { codepoint: 0x2FF0, name: "IDEOGRAPHIC DESCRIPTION CHARACTER LEFT TO RIGHT", aliases: &[] },
        Codepoint { codepoint: 0x2FF1, name: "IDEOGRAPHIC DESCRIPTION CHARACTER ABOVE TO BELOW", aliases: &[] },
        Codepoint { codepoint: 0x2FF2, name: "IDEOGRAPHIC DESCRIPTION CHARACTER LEFT TO MIDDLE AND RIGHT", aliases: &[] },
        Codepoint { codepoint: 0x2FF3, name: "IDEOGRAPHIC DESCRIPTION CHARACTER ABOVE TO MIDDLE AND BELOW", aliases: &[] },
        Codepoint { codepoint: 0x2FF4, name: "IDEOGRAPHIC DESCRIPTION CHARACTER FULL SURROUND", aliases: &[] },
        Codepoint { codepoint: 0x2FF5, name: "IDEOGRAPHIC DESCRIPTION CHARACTER SURROUND FROM ABOVE", aliases: &[] },
        Codepoint { codepoint: 0x2FF6, name: "IDEOGRAPHIC DESCRIPTION CHARACTER SURROUND FROM BELOW", aliases: &[] },
        Codepoint { codepoint: 0x2FF7, name: "IDEOGRAPHIC DESCRIPTION CHARACTER SURROUND FROM LEFT", aliases: &[] },
        Codepoint { codepoint: 0x2FF8, name: "IDEOGRAPHIC DESCRIPTION CHARACTER SURROUND FROM UPPER LEFT", aliases: &[] },
        Codepoint { codepoint: 0x2FF9, name: "IDEOGRAPHIC DESCRIPTION CHARACTER SURROUND FROM UPPER RIGHT", aliases: &[] },
        Codepoint { codepoint: 0x2FFA, name: "IDEOGRAPHIC DESCRIPTION CHARACTER SURROUND FROM LOWER LEFT", aliases: &[] },
        Codepoint { codepoint: 0x2FFB, name: "IDEOGRAPHIC DESCRIPTION CHARACTER OVERLAID", aliases: &[] },
        Codepoint { codepoint: 0x3000, name: "IDEOGRAPHIC SPACE", aliases: &[] },
        Codepoint { codepoint: 0x3001, name: "IDEOGRAPHIC COMMA", aliases: &[] },
        Codepoint { codepoint: 0x3002, name: "IDEOGRAPHIC FULL STOP", aliases: &["IDEOGRAPHIC PERIOD"] },
        Codepoint { codepoint: 0x3003, name: "DITTO MARK", aliases: &[] },
        Codepoint { codepoint: 0x3004, name: "JAPANESE INDUSTRIAL STANDARD SYMBOL", aliases: &[] },
        Codepoint { codepoint: 0x3005, name: "IDEOGRAPHIC ITERATION MARK", aliases: &[] },
        Codepoint { codepoint: 0x3006, name: "IDEOGRAPHIC CLOSING MARK", aliases: &[] },
        Codepoint { codepoint: 0x3007, name: "IDEOGRAPHIC NUMBER ZERO", aliases: &[] },
        Codepoint { codepoint: 0x3008, name: "LEFT ANGLE BRACKET", aliases: &["OPENING ANGLE BRACKET"] },
    ];
    assert(v@ =~= codepoint_table_280());
    v
}

pub open spec fn codepoint_table_281() -> Seq<Codepoint> {
    seq![
        Codepoint { codepoint: 0x3009, name: "RIGHT ANGLE BRACKET", aliases: &["CLOSING ANGLE BRACKET"] },
        Codepoint { codepoint: 0x300A, name: "LEFT DOUBLE ANGLE BRACKET", aliases: &["OPENING DOUBLE ANGLE BRACKET"] },
        Codepoint { codepoint: 0x300B, name: "RIGHT DOUBLE ANGLE BRACKET", aliases: &["CLOSING DOUBLE ANGLE BRACKET"] },
        Codepoint { codepoint: 0x300C, name: "LEFT CORNER BRACKET", aliases: &["OPENING CORNER BRACKET"] },
        Codepoint { codepoint: 0x300D, name: "RIGHT CORNER BRACKET", aliases: &["CLOSING CORNER BRACKET"] },
        Codepoint { codepoint: 0x300E, name: "LEFT WHITE CORNER BRACKET", aliases: &["OPENING WHITE CORNER BRACKET"] },
        Codepoint { codepoint: 0x300F, name: "RIGHT WHITE CORNER BRACKET", aliases: &["CLOSING WHITE CORNER BRACKET"] },
        Codepoint { codepoint: 0x3010, name: "LEFT BLACK LENTICULAR BRACKET", aliases: &["OPENING BLACK LENTICULAR BRACKET"] },
        Codepoint { codepoint: 0x3011, name: "RIGHT BLACK LENTICULAR BRACKET", aliases: &["CLOSING BLACK LENTICULAR BRACKET"] },
        Codepoint { codepoint: 0x3012, name: "POSTAL MARK", aliases: &[] },
        Codepoint { codepoint: 0x3013, name: "GETA MARK", aliases: &[] },
        Codepoint { codepoint: 0x3014, name: "LEFT TORTOISE SHELL BRACKET", aliases: &["OPENING TORTOISE SHELL BRACKET"] },
        Codepoint { codepoint: 0x3015, name: "RIGHT TORTOISE SHELL BRACKET", aliases: &["CLOSING TORTOISE SHELL BRACKET"] },
        Codepoint { codepoint: 0x3016, name: "LEFT WHITE LENTICULAR BRACKET", aliases: &["OPENING WHITE LENTICULAR BRACKET"] },
        Codepoint { codepoint: 0x3017, name: "RIGHT WHITE LENTICULAR BRACKET", aliases: &["CLOSING WHITE LENTICULAR BRACKET"] },
        Codepoint { codepoint: 0x3018, name: "LEFT WHITE TORTOISE SHELL BRACKET", aliases: &["OPENING WHITE TORTOISE SHELL BRACKET"] },
        Codepoint { codepoint: 0x3019, name: "RIGHT WHITE TORTOISE SHELL BRACKET", aliases: &["CLOSING WHITE TORTOISE SHELL BRACKET"] },
        Codepoint { codepoint: 0x301A, name: "LEFT WHITE SQUARE BRACKET", aliases: &["OPENING WHITE SQUARE BRACKET"] },
        Codepoint { codepoint: 0x301B, name: "RIGHT WHITE SQUARE BRACKET", aliases: &["CLOSING WHITE SQUARE BRACKET"] },
        Codepoint { codepoint: 0x301C, name: "WAVE DASH", aliases: &[] },
        Codepoint { codepoint: 0x301D, name: "REVERSED DOUBLE PRIME QUOTATION MARK", aliases: &[] },
        Codepoint { codepoint: 0x301E, name: "DOUBLE PRIME QUOTATION MARK", aliases: &[] },
        Codepoint { codepoint: 0x301F, name: "LOW DOUBLE PRIME QUOTATION MARK", aliases: &[] },
        Codepoint { codepoint: 0x3020, name: "POSTAL MARK FACE", aliases: &[] },
        Codepoint { codepoint: 0x3021, name: "HANGZHOU NUMERAL ONE", aliases: &[] },
        Codepoint { codepoint: 0x3022, name: "HANGZHOU NUMERAL TWO", aliases: &[] },
        Codepoint { codepoint: 0x3023, name: "HANGZHOU NUMERAL THREE", aliases: &[] },
        Codepoint { codepoint: 0x3024, name: "HANGZHOU NUMERAL FOUR", aliases: &[] },
        Codepoint { codepoint: 0x3025, name: "HANGZHOU NUMERAL FIVE", aliases: &[] },
        Codepoint { codepoint: 0x3026, name: "HANGZHOU NUMERAL SIX", aliases: &[] },
        Codepoint { codepoint: 0x3027, name: "HANGZHOU NUMERAL SEVEN", aliases: &[] },
        Codepoint { codepoint: 0x3028, name: "HANGZHOU NUMERAL EIGHT", aliases: &[] },
        Codepoint { codepoint: 0x3029, name: "HANGZHOU NUMERAL NINE", aliases: &[] },
        Codepoint { codepoint: 0x302A, name: "IDEOGRAPHIC LEVEL TONE MARK", aliases: &[] },
        Codepoint { codepoint: 0x302B, name: "IDEOGRAPHIC RISING TONE MARK", aliases: &[] },
        Codepoint { codepoint: 0x302C, name: "IDEOGRAPHIC DEPARTING TONE MARK", aliases: &[] },
        Codepoint { codepoint: 0x302D, name: "IDEOGRAPHIC ENTERING TONE MARK", aliases: &[] },
        Codepoint { codepoint: 0x302E, name: "HANGUL SINGLE DOT TONE MARK", aliases: &[] },
        Codepoint { codepoint: 0x302F, name: "HANGUL DOUBLE DOT TONE MARK", aliases: &[] },
        Codepoint { codepoint: 0x3030, name: "WAVY DASH", aliases: &[] },
    ]
}

fn all_codepoints_281() -> (v: Vec<Codepoint>)
    ensures
        v@ == codepoint_table_281(),
{
    let v = vec![
        Codepoint { codepoint: 0x3009, name: "RIGHT ANGLE BRACKET", aliases: &["CLOSING ANGLE BRACKET"] },
        Codepoint { codepoint: 0x300A, name: "LEFT DOUBLE ANGLE BRACKET", aliases: &["OPENING DOUBLE ANGLE BRACKET"] },
        Codepoint { codepoint: 0x300B, name: "RIGHT DOUBLE ANGLE BRACKET", aliases: &["CLOSING DOUBLE ANGLE BRACKET"] },
        Codepoint { codepoint: 0x300C, name: "LEFT CORNER BRACKET", aliases: &["OPENING CORNER BRACKET"] },
        Codepoint { codepoint: 0x300D, name: "RIGHT CORNER BRACKET", aliases: &["CLOSING CORNER BRACKET"] },
        Codepoint { codepoint: 0x300E, name: "LEFT WHITE CORNER BRACKET", aliases: &["OPENING WHITE CORNER BRACKET"] },
        Codepoint { codepoint: 0x300F, name: "RIGHT WHITE CORNER BRACKET", aliases: &["CLOSING WHITE CORNER BRACKET"] },
        Codepoint { codepoint: 0x3010, name: "LEFT BLACK LENTICULAR BRACKET", aliases: &["OPENING BLACK LENTICULAR BRACKET"] },
        Codepoint { codepoint: 0x3011, name: "RIGHT BLACK LENTICULAR BRACKET", aliases: &["CLOSING BLACK LENTICULAR BRACKET"] },
        Codepoint { codepoint: 0x3012, name: "POSTAL MARK", aliases: &[] },
        Codepoint { codepoint: 0x3013, name: "GETA MARK", aliases: &[] },
        Codepoint { codepoint: 0x3014, name: "LEFT TORTOISE SHELL BRACKET", aliases: &["OPENING TORTOISE SHELL BRACKET"] },
        Codepoint { codepoint: 0x3015, name: "RIGHT TORTOISE SHELL BRACKET", aliases: &["CLOSING TORTOISE SHELL BRACKET"] },
        Codepoint { codepoint: 0x3016, name: "LEFT WHITE LENTICULAR BRACKET", aliases: &["OPENING WHITE LENTICULAR BRACKET"] },
        Codepoint { codepoint: 0x3017, name: "RIGHT WHITE LENTICULAR BRACKET", aliases: &["CLOSING WHITE LENTICULAR BRACKET"] },
        Codepoint { codepoint: 0x3018, name: "LEFT WHITE TORTOISE SHELL BRACKET", aliases: &["OPENING WHITE TORTOISE SHELL BRACKET"] },
        Codepoint { codepoint: 0x3019, name: "RIGHT WHITE TORTOISE SHELL BRACKET", aliases: &["CLOSING WHITE TORTOISE SHELL BRACKET"] },
        Codepoint { codepoint: 0x301A, name: "LEFT WHITE SQUARE BRACKET", aliases: &["OPENING WHITE SQUARE BRACKET"] },
        Codepoint { codepoint: 0x301B, name: "RIGHT WHITE SQUARE BRACKET", aliases: &["CLOSING WHITE SQUARE BRACKET"] },
        Codepoint { codepoint: 0x301C, name: "WAVE DASH", aliases: &[] },
        Codepoint { codepoint: 0x301D, name: "REVERSED DOUBLE PRIME QUOTATION MARK", aliases: &[] },
        Codepoint { codepoint: 0x301E, name: "DOUBLE PRIME QUOTATION MARK", aliases: &[] },
        Codepoint { codepoint: 0x301F, name: "LOW DOUBLE PRIME QUOTATION MARK", aliases: &[] },
        Codepoint { codepoint: 0x3020, name: "POSTAL MARK FACE", aliases: &[] },
        Codepoint { codepoint: 0x3021, name: "HANGZHOU NUMERAL ONE", aliases: &[] },
        Codepoint { codepoint: 0x3022, name: "HANGZHOU NUMERAL TWO", aliases: &[] },
        Codepoint { codepoint: 0x3023, name: "HANGZHOU NUMERAL THREE", aliases: &[] },
        Codepoint { codepoint: 0x3024, name: "HANGZHOU NUMERAL FOUR", aliases: &[] },
        Codepoint { codepoint: 0x3025, name: "HANGZHOU NUMERAL FIVE", aliases: &[] },
        Codepoint { codepoint: 0x3026, name: "HANGZHOU NUMERAL SIX", aliases: &[] },
        Codepoint { codepoint: 0x3027, name: "HANGZHOU NUMERAL SEVEN", aliases: &[] },
        Codepoint { codepoint: 0x3028, name: "HANGZHOU NUMERAL EIGHT", aliases: &[] },
        Codepoint { codepoint: 0x3029, name: "HANGZHOU NUMERAL NINE", aliases: &[] },
        Codepoint { codepoint: 0x302A, name: "IDEOGRAPHIC LEVEL TONE MARK", aliases: &[] },
        Codepoint { codepoint: 0x302B, name: "IDEOGRAPHIC RISING TONE MARK", aliases: &[] },
        Codepoint { codepoint: 0x302C, name: "IDEOGRAPHIC DEPARTING TONE MARK", aliases: &[] },
        Codepoint { codepoint: 0x302D, name: "IDEOGRAPHIC ENTERING TONE MARK", aliases: &[] },
        Codepoint { codepoint: 0x302E, name: "HANGUL SINGLE DOT TONE MARK", aliases: &[] },
        Codepoint { codepoint: 0x302F, name: "HANGUL DOUBLE DOT TONE MARK", aliases: &[] },
        Codepoint { codepoint: 0x3030, name: "WAVY DASH", aliases: &[] },
    ];
    assert(v@ =~= codepoint_table_281());
    v
}

pub open spec fn codepoint_table_282() -> Seq<Codepoint> {
    seq![
        Codepoint { codepoint: 0x3031, name: "VERTICAL KANA REPEAT MARK", aliases: &[] },
        Codepoint { codepoint: 0x3032, name: "VERTICAL KANA REPEAT WITH VOICED SOUND MARK", aliases: &[] },
        Codepoint { codepoint: 0x3033, name: "VERTICAL KANA REPEAT MARK UPPER HALF", aliases: &[] },
        Codepoint { codepoint: 0x3034, name: "VERTICAL KANA REPEAT WITH VOICED SOUND MARK UPPER HALF", aliases: &[] },
        Codepoint { codepoint: 0x3035, name: "VERTICAL KANA REPEAT MARK LOWER HALF", aliases: &[] },
        Codepoint { codepoint: 0x3036, name: "CIRCLED POSTAL MARK", aliases: &[] },
        Codepoint { codepoint: 0x3037, name: "IDEOGRAPHIC TELEGRAPH LINE FEED SEPARATOR SYMBOL", aliases: &[] },
        Codepoint { codepoint: 0x3038, name: "HANGZHOU NUMERAL TEN", aliases: &[] },
        Codepoint { codepoint: 0x3039, name: "HANGZHOU NUMERAL TWENTY", aliases: &[] },
        Codepoint { codepoint: 0x303A, name: "HANGZHOU NUMERAL THIRTY", aliases: &[] },
        Codepoint { codepoint: 0x303B, name: "VERTICAL IDEOGRAPHIC ITERATION MARK", aliases: &[] },
        Codepoint { codepoint: 0x303C, name: "MASU MARK", aliases: &[] },
        Codepoint { codepoint: 0x303D, name: "PART ALTERNATION MARK", aliases: &[] },
        Codepoint { codepoint: 0x303E, name: "IDEOGRAPHIC VARIATION INDICATOR", aliases: &[] },
        Codepoint { codepoint: 0x303F, name: "IDEOGRAPHIC HALF FILL SPACE", aliases: &[] },
        Codepoint { codepoint: 0x3041, name: "HIRAGANA LETTER SMALL A", aliases: &[] },
        Codepoint { codepoint: 0x3042, name: "HIRAGANA LETTER A", aliases: &[] },
        Codepoint { codepoint: 0x3043, name: "HIRAGANA LETTER SMALL I", aliases: &[] },
        Codepoint { codepoint: 0x3044, name: "HIRAGANA LETTER I", aliases: &[] },
        Codepoint { codepoint: 0x3045, name: "HIRAGANA LETTER SMALL U", aliases: &[] },
        Codepoint { codepoint: 0x3046, name: "HIRAGANA LETTER U", aliases: &[] },
        Codepoint { codepoint: 0x3047, name: "HIRAGANA LETTER SMALL E", aliases: &[] },
        Codepoint { codepoint: 0x3048, name: "HIRAGANA LETTER E", aliases: &[] },
        Codepoint { codepoint: 0x3049, name: "HIRAGANA LETTER SMALL O", aliases: &[] },
        Codepoint { codepoint: 0x304A, name: "HIRAGANA LETTER O", aliases: &[] },
        Codepoint { codepoint: 0x304B, name: "HIRAGANA LETTER KA", aliases: &[] },
        Codepoint { codepoint: 0x304C, name: "HIRAGANA LETTER GA", aliases: &[] },
        Codepoint { codepoint: 0x304D, name: "HIRAGANA LETTER KI", aliases: &[] },
        Codepoint { codepoint: 0x304E, name: "HIRAGANA LETTER GI", aliases: &[] },
        Codepoint { codepoint: 0x304F, name: "HIRAGANA LETTER KU", aliases: &[] },
        Codepoint { codepoint: 0x3050, name: "HIRAGANA LETTER GU", aliases: &[] },
        Codepoint { codepoint: 0x3051, name: "HIRAGANA LETTER KE", aliases: &[] },
        Codepoint { codepoint: 0x3052, name: "HIRAGANA LETTER GE", aliases: &[] },
        Codepoint { codepoint: 0x3053, name: "HIRAGANA LETTER KO", aliases: &[] },
        Codepoint { codepoint: 0x3054, name: "HIRAGANA LETTER GO", aliases: &[] },
        Codepoint { codepoint: 0x3055, name: "HIRAGANA LETTER SA", aliases: &[] },
        Codepoint { codepoint: 0x3056, name: "HIRAGANA LETTER ZA", aliases: &[] },
        Codepoint { codepoint: 0x3057, name: "HIRAGANA LETTER SI", aliases: &[] },
        Codepoint { codepoint: 0x3058, name: "HIRAGANA LETTER ZI", aliases: &[] },
        Codepoint { codepoint: 0x3059, name: "HIRAGANA LETTER SU", aliases: &[] },
    ]
}

fn all_codepoints_282() -> (v: Vec<Codepoint>)
    ensures
        v@ == codepoint_table_282(),
{
    let v = vec![
        Codepoint { codepoint: 0x3031, name: "VERTICAL KANA REPEAT MARK", aliases: &[] },
        Codepoint { codepoint: 0x3032, name: "VERTICAL KANA REPEAT WITH VOICED SOUND MARK", aliases: &[] },
        Codepoint { codepoint: 0x3033, name: "VERTICAL KANA REPEAT MARK UPPER HALF", aliases: &[] },
        Codepoint { codepoint: 0x3034, name: "VERTICAL KANA REPEAT WITH VOICED SOUND MARK UPPER HALF", aliases: &[] },
        Codepoint { codepoint: 0x3035, name: "VERTICAL KANA REPEAT MARK LOWER HALF", aliases: &[] },
        Codepoint { codepoint: 0x3036, name: "CIRCLED POSTAL MARK", aliases: &[] },
        Codepoint { codepoint: 0x3037, name: "IDEOGRAPHIC TELEGRAPH LINE FEED SEPARATOR SYMBOL", aliases: &[] },
        Codepoint { codepoint: 0x3038, name: "HANGZHOU NUMERAL TEN", aliases: &[] },
        Codepoint { codepoint: 0x3039, name: "HANGZHOU NUMERAL TWENTY", aliases: &[] },
        Codepoint { codepoint: 0x303A, name: "HANGZHOU NUMERAL THIRTY", aliases: &[] },
        Codepoint { codepoint: 0x303B, name: "VERTICAL IDEOGRAPHIC ITERATION MARK", aliases: &[] },
        Codepoint { codepoint: 0x303C, name: "MASU MARK", aliases: &[] },
        Codepoint { codepoint: 0x303D, name: "PART ALTERNATION MARK", aliases: &[] },
        Codepoint { codepoint: 0x303E, name: "IDEOGRAPHIC VARIATION INDICATOR", aliases: &[] },
        Codepoint { codepoint: 0x303F, name: "IDEOGRAPHIC HALF FILL SPACE", aliases: &[] },
        Codepoint { codepoint: 0x3041, name: "HIRAGANA LETTER SMALL A", aliases: &[] },
        Codepoint { codepoint: 0x3042, name: "HIRAGANA LETTER A", aliases: &[] },
        Codepoint { codepoint: 0x3043, name: "HIRAGANA LETTER SMALL I", aliases: &[] },
        Codepoint { codepoint: 0x3044, name: "HIRAGANA LETTER I", aliases: &[] },
        Codepoint { codepoint: 0x3045, name: "HIRAGANA LETTER SMALL U", aliases: &[] },
        Codepoint { codepoint: 0x3046, name: "HIRAGANA LETTER U", aliases: &[] },
        Codepoint { codepoint: 0x3047, name: "HIRAGANA LETTER SMALL E", aliases: &[] },
        Codepoint { codepoint: 0x3048, name: "HIRAGANA LETTER E", aliases: &[] },
        Codepoint { codepoint: 0x3049, name: "HIRAGANA LETTER SMALL O", aliases: &[] },
        Codepoint { codepoint: 0x304A, name: "HIRAGANA LETTER O", aliases: &[] },
        Codepoint { codepoint: 0x304B, name: "HIRAGANA LETTER KA", aliases: &[] },
        Codepoint { codepoint: 0x304C, name: "HIRAGANA LETTER GA", aliases: &[] },
        Codepoint { codepoint: 0x304D, name: "HIRAGANA LETTER KI", aliases: &[] },
        Codepoint { codepoint: 0x304E, name: "HIRAGANA LETTER GI", aliases: &[] },
        Codepoint { codepoint: 0x304F, name: "HIRAGANA LETTER KU", aliases: &[] },
        Codepoint { codepoint: 0x3050, name: "HIRAGANA LETTER GU", aliases: &[] },
        Codepoint { codepoint: 0x3051, name: "HIRAGANA LETTER KE", aliases: &[] },
        Codepoint { codepoint: 0x3052, name: "HIRAGANA LETTER GE", aliases: &[] },
        Codepoint { codepoint: 0x3053, name: "HIRAGANA LETTER KO", aliases: &[] },
        Codepoint { codepoint: 0x3054, name: "HIRAGANA LETTER GO", aliases: &[] },
        Codepoint { codepoint: 0x3055, name: "HIRAGANA LETTER SA", aliases: &[] },
        Codepoint { codepoint: 0x3056, name: "HIRAGANA LETTER ZA", aliases: &[] },
        Codepoint { codepoint: 0x3057, name: "HIRAGANA LETTER SI", aliases: &[] },
        Codepoint { codepoint: 0x3058, name: "HIRAGANA LETTER ZI", aliases: &[] },
        Codepoint { codepoint: 0x3059, name: "HIRAGANA LETTER SU", aliases: &[] },
    ];
    assert(v@ =~= codepoint_table_282());
    v
}

pub open spec fn codepoint_table_283() -> Seq<Codepoint> {
    seq![
        Codepoint { codepoint: 0x305A, name: "HIRAGANA LETTER ZU", aliases: &[] },
        Codepoint { codepoint: 0x305B, name: "HIRAGANA LETTER SE", aliases: &[] },
        Codepoint { codepoint: 0x305C, name: "HIRAGANA LETTER ZE", aliases: &[] },
        Codepoint { codepoint: 0x305D, name: "HIRAGANA LETTER SO", aliases: &[] },
        Codepoint { codepoint: 0x305E, name: "HIRAGANA LETTER ZO", aliases: &[] },
        Codepoint { codepoint: 0x305F, name: "HIRAGANA LETTER TA", aliases: &[] },
        Codepoint { codepoint: 0x3060, name: "HIRAGANA LETTER DA", aliases: &[] },
        Codepoint { codepoint: 0x3061, name: "HIRAGANA LETTER TI", aliases: &[] },
        Codepoint { codepoint: 0x3062, name: "HIRAGANA LETTER DI", aliases: &[] },
        Codepoint { codepoint: 0x3063, name: "HIRAGANA LETTER SMALL TU", aliases: &[] },
        Codepoint { codepoint: 0x3064, name: "HIRAGANA LETTER TU", aliases: &[] },
        Codepoint { codepoint: 0x3065, name: "HIRAGANA LETTER DU", aliases: &[] },
        Codepoint { codepoint: 0x3066, name: "HIRAGANA LETTER TE", aliases: &[] },
        Codepoint { codepoint: 0x3067, name: "HIRAGANA LETTER DE", aliases: &[] },
        Codepoint { codepoint: 0x3068, name: "HIRAGANA LETTER TO", aliases: &[] },
        Codepoint { codepoint: 0x3069, name: "HIRAGANA LETTER DO", aliases: &[] },
        Codepoint { codepoint: 0x306A, name: "HIRAGANA LETTER NA", aliases: &[] },
        Codepoint { codepoint: 0x306B, name: "HIRAGANA LETTER NI", aliases: &[] },
        Codepoint { codepoint: 0x306C, name: "HIRAGANA LETTER NU", aliases: &[] },
        Codepoint { codepoint: 0x306D, name: "HIRAGANA LETTER NE", aliases: &[] },
        Codepoint { codepoint: 0x306E, name: "HIRAGANA LETTER NO", aliases: &[] },
        Codepoint { codepoint: 0x306F, name: "HIRAGANA LETTER HA", aliases: &[] },
        Codepoint { codepoint: 0x3070, name: "HIRAGANA LETTER BA", aliases: &[] },
        Codepoint { codepoint: 0x3071, name: "HIRAGANA LETTER PA", aliases: &[] },
        Codepoint { codepoint: 0x3072, name: "HIRAGANA LETTER HI", aliases: &[] },
        Codepoint { codepoint: 0x3073, name: "HIRAGANA LETTER BI", aliases: &[] },
        Codepoint { codepoint: 0x3074, name: "HIRAGANA LETTER PI", aliases: &[] },
        Codepoint { codepoint: 0x3075, name: "HIRAGANA LETTER HU", aliases: &[] },
        Codepoint { codepoint: 0x3076, name: "HIRAGANA LETTER BU", aliases: &[] },
        Codepoint { codepoint: 0x3077, name: "HIRAGANA LETTER PU", aliases: &[] },
        Codepoint { codepoint: 0x3078, name: "HIRAGANA LETTER HE", aliases: &[] },
        Codepoint { codepoint: 0x3079, name: "HIRAGANA LETTER BE", aliases: &[] },
        Codepoint { codepoint: 0x307A, name: "HIRAGANA LETTER PE", aliases: &[] },
        Codepoint { codepoint: 0x307B, name: "HIRAGANA LETTER HO", aliases: &[] },
        Codepoint { codepoint: 0x307C, name: "HIRAGANA LETTER BO", aliases: &[] },
        Codepoint { codepoint: 0x307D, name: "HIRAGANA LETTER PO", aliases: &[] },
        Codepoint { codepoint: 0x307E, name: "HIRAGANA LETTER MA", aliases: &[] },
        Codepoint { codepoint: 0x307F, name: "HIRAGANA LETTER MI", aliases: &[] },
        Codepoint { codepoint: 0x3080, name: "HIRAGANA LETTER MU", aliases: &[] },
        Codepoint { codepoint: 0x3081, name: "HIRAGANA LETTER ME", aliases: &[] },
    ]
}

fn all_codepoints_283() -> (v: Vec<Codepoint>)
    ensures
        v@ == codepoint_table_283(),
{
    let v = vec![
        Codepoint { codepoint: 0x305A, name: "HIRAGANA LETTER ZU", aliases: &[] },
        Codepoint { codepoint: 0x305B, name: "HIRAGANA LETTER SE", aliases: &[] },
        Codepoint { codepoint: 0x305C, name: "HIRAGANA LETTER ZE", aliases: &[] },
        Codepoint { codepoint: 0x305D, name: "HIRAGANA LETTER SO", aliases: &[] },
        Codepoint { codepoint: 0x305E, name: "HIRAGANA LETTER ZO", aliases: &[] },
        Codepoint { codepoint: 0x305F, name: "HIRAGANA LETTER TA", aliases: &[] },
        Codepoint { codepoint: 0x3060, name: "HIRAGANA LETTER DA", aliases: &[] },
        Codepoint { codepoint: 0x3061, name: "HIRAGANA LETTER TI", aliases: &[] },
        Codepoint { codepoint: 0x3062, name: "HIRAGANA LETTER DI", aliases: &[] },
        Codepoint { codepoint: 0x3063, name: "HIRAGANA LETTER SMALL TU", aliases: &[] },
        Codepoint { codepoint: 0x3064, name: "HIRAGANA LETTER TU", aliases: &[] },
        Codepoint { codepoint: 0x3065, name: "HIRAGANA LETTER DU", aliases: &[] },
        Codepoint { codepoint: 0x3066, name: "HIRAGANA LETTER TE", aliases: &[] },
        Codepoint { codepoint: 0x3067, name: "HIRAGANA LETTER DE", aliases: &[] },
        Codepoint { codepoint: 0x3068, name: "HIRAGANA LETTER TO", aliases: &[] },
        Codepoint { codepoint: 0x3069, name: "HIRAGANA LETTER DO", aliases: &[] },
        Codepoint { codepoint: 0x306A, name: "HIRAGANA LETTER NA", aliases: &[] },
        Codepoint { codepoint: 0x306B, name: "HIRAGANA LETTER NI", aliases: &[] },
        Codepoint { codepoint: 0x306C, name: "HIRAGANA LETTER NU", aliases: &[] },
        Codepoint { codepoint: 0x306D, name: "HIRAGANA LETTER NE", aliases: &[] },
        Codepoint { codepoint: 0x306E, name: "HIRAGANA LETTER NO", aliases: &[] },
        Codepoint { codepoint: 0x306F, name: "HIRAGANA LETTER HA", aliases: &[] },
        Codepoint { codepoint: 0x3070, name: "HIRAGANA LETTER BA", aliases: &[] },
        Codepoint { codepoint: 0x3071, name: "HIRAGANA LETTER PA", aliases: &[] },
        Codepoint { codepoint: 0x3072, name: "HIRAGANA LETTER HI", aliases: &[] },
        Codepoint { codepoint: 0x3073, name: "HIRAGANA LETTER BI", aliases: &[] },
        Codepoint { codepoint: 0x3074, name: "HIRAGANA LETTER PI", aliases: &[] },
        Codepoint { codepoint: 0x3075, name: "HIRAGANA LETTER HU", aliases: &[] },
        Codepoint { codepoint: 0x3076, name: "HIRAGANA LETTER BU", aliases: &[] },
        Codepoint { codepoint: 0x3077, name: "HIRAGANA LETTER PU", aliases: &[] },
        Codepoint { codepoint: 0x3078, name: "HIRAGANA LETTER HE", aliases: &[] },
        Codepoint { codepoint: 0x3079, name: "HIRAGANA LETTER BE", aliases: &[] },
        Codepoint { codepoint: 0x307A, name: "HIRAGANA LETTER PE", aliases: &[] },
        Codepoint { codepoint: 0x307B, name: "HIRAGANA LETTER HO", aliases: &[] },
        Codepoint { codepoint: 0x307C, name: "HIRAGANA LETTER BO", aliases: &[] },
        Codepoint { codepoint: 0x307D, name: "HIRAGANA LETTER PO", aliases: &[] },
        Codepoint { codepoint: 0x307E, name: "HIRAGANA LETTER MA", aliases: &[] },
        Codepoint { codepoint: 0x307F, name: "HIRAGANA LETTER MI", aliases: &[] },
        Codepoint { codepoint: 0x3080, name: "HIRAGANA LETTER MU", aliases: &[] },
        Codepoint { codepoint: 0x3081, name: "HIRAGANA LETTER ME", aliases: &[] },
    ];
    assert(v@ =~= codepoint_table_283());
    v
}

pub open spec fn codepoint_table_284() -> Seq<Codepoint> {
    seq![
        Codepoint { codepoint: 0x3082, name: "HIRAGANA LETTER MO", aliases: &[] },
        Codepoint { codepoint: 0x3083, name: "HIRAGANA LETTER SMALL YA", aliases: &[] },
        Codepoint { codepoint: 0x3084, name: "HIRAGANA LETTER YA", aliases: &[] },
        Codepoint { codepoint: 0x3085, name: "HIRAGANA LETTER SMALL YU", aliases: &[] },
        Codepoint { codepoint: 0x3086, name: "HIRAGANA LETTER YU", aliases: &[] },
        Codepoint { codepoint: 0x3087, name: "HIRAGANA LETTER SMALL YO", aliases: &[] },
        Codepoint { codepoint: 0x3088, name: "HIRAGANA LETTER YO", aliases: &[] },
        Codepoint { codepoint: 0x3089, name: "HIRAGANA LETTER RA", aliases: &[] },
        Codepoint { codepoint: 0x308A, name: "HIRAGANA LETTER RI", aliases: &[] },
        Codepoint { codepoint: 0x308B, name: "HIRAGANA LETTER RU", aliases: &[] },
        Codepoint { codepoint: 0x308C, name: "HIRAGANA LETTER RE", aliases: &[] },
        Codepoint { codepoint: 0x308D, name: "HIRAGANA LETTER RO", aliases: &[] },
        Codepoint { codepoint: 0x308E, name: "HIRAGANA LETTER SMALL WA", aliases: &[] },
        Codepoint { codepoint: 0x308F, name: "HIRAGANA LETTER WA", aliases: &[] },
        Codepoint { codepoint: 0x3090, name: "HIRAGANA LETTER WI", aliases: &[] },
        Codepoint { codepoint: 0x3091, name: "HIRAGANA LETTER WE", aliases: &[] },
        Codepoint { codepoint: 0x3092, name: "HIRAGANA LETTER WO", aliases: &[] },
        Codepoint { codepoint: 0x3093, name: "HIRAGANA LETTER N", aliases: &[] },
        Codepoint { codepoint: 0x3094, name: "HIRAGANA LETTER VU", aliases: &[] },
        Codepoint { codepoint: 0x3095, name: "HIRAGANA LETTER SMALL KA", aliases: &[] },
        Codepoint { codepoint: 0x3096, name: "HIRAGANA LETTER SMALL KE", aliases: &[] },
        Codepoint { codepoint: 0x3099, name: "COMBINING KATAKANA-HIRAGANA VOICED SOUND MARK", aliases: &["NON-SPACING KATAKANA-HIRAGANA VOICED SOUND MARK"] },
        Codepoint { codepoint: 0x309A, name: "COMBINING KATAKANA-HIRAGANA SEMI-VOICED SOUND MARK", aliases: &["NON-SPACING KATAKANA-HIRAGANA SEMI-VOICED SOUND MARK"] },
        Codepoint { codepoint: 0x309B, name: "KATAKANA-HIRAGANA VOICED SOUND MARK", aliases: &[] },
        Codepoint { codepoint: 0x309C, name: "KATAKANA-HIRAGANA SEMI-VOICED SOUND MARK", aliases: &[] },
        Codepoint { codepoint: 0x309D, name: "HIRAGANA ITERATION MARK", aliases: &[] },
        Codepoint { codepoint: 0x309E, name: "HIRAGANA VOICED ITERATION MARK", aliases: &[] },
        Codepoint { codepoint: 0x309F, name: "HIRAGANA DIGRAPH YORI", aliases: &[] },
        Codepoint { codepoint: 0x30A0, name: "KATAKANA-HIRAGANA DOUBLE HYPHEN", aliases: &[] },
        Codepoint { codepoint: 0x30A1, name: "KATAKANA LETTER SMALL A", aliases: &[] },
        Codepoint { codepoint: 0x30A2, name: "KATAKANA LETTER A", aliases: &[] },
        Codepoint { codepoint: 0x30A3, name: "KATAKANA LETTER SMALL I", aliases: &[] },
        Codepoint { codepoint: 0x30A4, name: "KATAKANA LETTER I", aliases: &[] },
        Codepoint { codepoint: 0x30A5, name: "KATAKANA LETTER SMALL U", aliases: &[] },
        Codepoint { codepoint: 0x30A6, name: "KATAKANA LETTER U", aliases: &[] },
        Codepoint { codepoint: 0x30A7, name: "KATAKANA LETTER SMALL E", aliases: &[] },
        Codepoint { codepoint: 0x30A8, name: "KATAKANA LETTER E", aliases: &[] },
        Codepoint { codepoint: 0x30A9, name: "KATAKANA LETTER SMALL O", aliases: &[] },
        Codepoint { codepoint: 0x30AA, name: "KATAKANA LETTER O", aliases: &[] },
        Codepoint { codepoint: 0x30AB, name: "KATAKANA LETTER KA", aliases: &[] },
    ]
}

fn all_codepoints_284() -> (v: Vec<Codepoint>)
    ensures
        v@ == codepoint_table_284(),
{
    let v = vec![
        Codepoint { codepoint: 0x3082, name: "HIRAGANA LETTER MO", aliases: &[] },
        Codepoint { codepoint: 0x3083, name: "HIRAGANA LETTER SMALL YA", aliases: &[] },
        Codepoint { codepoint: 0x3084, name: "HIRAGANA LETTER YA", aliases: &[] },
        Codepoint { codepoint: 0x3085, name: "HIRAGANA LETTER SMALL YU", aliases: &[] },
        Codepoint { codepoint: 0x3086, name: "HIRAGANA LETTER YU", aliases: &[] },
        Codepoint { codepoint: 0x3087, name: "HIRAGANA LETTER SMALL YO", aliases: &[] },
        Codepoint { codepoint: 0x3088, name: "HIRAGANA LETTER YO", aliases: &[] },
        Codepoint { codepoint: 0x3089, name: "HIRAGANA LETTER RA", aliases: &[] },
        Codepoint { codepoint: 0x308A, name: "HIRAGANA LETTER RI", aliases: &[] },
        Codepoint { codepoint: 0x308B, name: "HIRAGANA LETTER RU", aliases: &[] },
        Codepoint { codepoint: 0x308C, name: "HIRAGANA LETTER RE", aliases: &[] },
        Codepoint { codepoint: 0x308D, name: "HIRAGANA LETTER RO", aliases: &[] },
        Codepoint { codepoint: 0x308E, name: "HIRAGANA LETTER SMALL WA", aliases: &[] },
        Codepoint { codepoint: 0x308F, name: "HIRAGANA LETTER WA", aliases: &[] },
        Codepoint { codepoint: 0x3090, name: "HIRAGANA LETTER WI", aliases: &[] },
        Codepoint { codepoint: 0x3091, name: "HIRAGANA LETTER WE", aliases: &[] },
        Codepoint { codepoint: 0x3092, name: "HIRAGANA LETTER WO", aliases: &[] },
        Codepoint { codepoint: 0x3093, name: "HIRAGANA LETTER N", aliases: &[] },
        Codepoint { codepoint: 0x3094, name: "HIRAGANA LETTER VU", aliases: &[] },
        Codepoint { codepoint: 0x3095, name: "HIRAGANA LETTER SMALL KA", aliases: &[] },
        Codepoint { codepoint: 0x3096, name: "HIRAGANA LETTER SMALL KE", aliases: &[] },
        Codepoint { codepoint: 0x3099, name: "COMBINING KATAKANA-HIRAGANA VOICED SOUND MARK", aliases: &["NON-SPACING KATAKANA-HIRAGANA VOICED SOUND MARK"] },
        Codepoint { codepoint: 0x309A, name: "COMBINING KATAKANA-HIRAGANA SEMI-VOICED SOUND MARK", aliases: &["NON-SPACING KATAKANA-HIRAGANA SEMI-VOICED SOUND MARK"] },
        Codepoint { codepoint: 0x309B, name: "KATAKANA-HIRAGANA VOICED SOUND MARK", aliases: &[] },
        Codepoint { codepoint: 0x309C, name: "KATAKANA-HIRAGANA SEMI-VOICED SOUND MARK", aliases: &[] },
        Codepoint { codepoint: 0x309D, name: "HIRAGANA ITERATION MARK", aliases: &[] },
        Codepoint { codepoint: 0x309E, name: "HIRAGANA VOICED ITERATION MARK", aliases: &[] },
        Codepoint { codepoint: 0x309F, name: "HIRAGANA DIGRAPH YORI", aliases: &[] },
        Codepoint { codepoint: 0x30A0, name: "KATAKANA-HIRAGANA DOUBLE HYPHEN", aliases: &[] },
        Codepoint { codepoint: 0x30A1, name: "KATAKANA LETTER SMALL A", aliases: &[] },
        Codepoint { codepoint: 0x30A2, name: "KATAKANA LETTER A", aliases: &[] },
        Codepoint { codepoint: 0x30A3, name: "KATAKANA LETTER SMALL I", aliases: &[] },
        Codepoint { codepoint: 0x30A4, name: "KATAKANA LETTER I", aliases: &[] },
        Codepoint { codepoint: 0x30A5, name: "KATAKANA LETTER SMALL U", aliases: &[] },
        Codepoint { codepoint: 0x30A6, name: "KATAKANA LETTER U", aliases: &[] },
        Codepoint { codepoint: 0x30A7, name: "KATAKANA LETTER SMALL E", aliases: &[] },
        Codepoint { codepoint: 0x30A8, name: "KATAKANA LETTER E", aliases: &[] },
        Codepoint { codepoint: 0x30A9, name: "KATAKANA LETTER SMALL O", aliases: &[] },
        Codepoint { codepoint: 0x30AA, name: "KATAKANA LETTER O", aliases: &[] },
        Codepoint { codepoint: 0x30AB, name: "KATAKANA LETTER KA", aliases: &[] },
    ];
    assert(v@ =~= codepoint_table_284());
    v
}

pub open spec fn codepoint_table_285() -> Seq<Codepoint> {
    seq![
        Codepoint { codepoint: 0x30AC, name: "KATAKANA LETTER GA", aliases: &[] },
        Codepoint { codepoint: 0x30AD, name: "KATAKANA LETTER KI", aliases: &[] },
        Codepoint { codepoint: 0x30AE, name: "KATAKANA LETTER GI", aliases: &[] },
        Codepoint { codepoint: 0x30AF, name: "KATAKANA LETTER KU", aliases: &[] },
        Codepoint { codepoint: 0x30B0, name: "KATAKANA LETTER GU", aliases: &[] },
        Codepoint { codepoint: 0x30B1, name: "KATAKANA LETTER KE", aliases: &[] },
        Codepoint { codepoint: 0x30B2, name: "KATAKANA LETTER GE", aliases: &[] },
        Codepoint { codepoint: 0x30B3, name: "KATAKANA LETTER KO", aliases: &[] },
        Codepoint { codepoint: 0x30B4, name: "KATAKANA LETTER GO", aliases: &[] },
        Codepoint { codepoint: 0x30B5, name: "KATAKANA LETTER SA", aliases: &[] },
        Codepoint { codepoint: 0x30B6, name: "KATAKANA LETTER ZA", aliases: &[] },
        Codepoint { codepoint: 0x30B7, name: "KATAKANA LETTER SI", aliases: &[] },
        Codepoint { codepoint: 0x30B8, name: "KATAKANA LETTER ZI", aliases: &[] },
        Codepoint { codepoint: 0x30B9, name: "KATAKANA LETTER SU", aliases: &[] },
        Codepoint { codepoint: 0x30BA, name: "KATAKANA LETTER ZU", aliases: &[] },
        Codepoint { codepoint: 0x30BB, name: "KATAKANA LETTER SE", aliases: &[] },
        Codepoint { codepoint: 0x30BC, name: "KATAKANA LETTER ZE", aliases: &[] },
        Codepoint { codepoint: 0x30BD, name: "KATAKANA LETTER SO", aliases: &[] },
        Codepoint { codepoint: 0x30BE, name: "KATAKANA LETTER ZO", aliases: &[] },
        Codepoint { codepoint: 0x30BF, name: "KATAKANA LETTER TA", aliases: &[] },
        Codepoint { codepoint: 0x30C0, name: "KATAKANA LETTER DA", aliases: &[] },
        Codepoint { codepoint: 0x30C1, name: "KATAKANA LETTER TI", aliases: &[] },
        Codepoint { codepoint: 0x30C2, name: "KATAKANA LETTER DI", aliases: &[] },
        Codepoint { codepoint: 0x30C3, name: "KATAKANA LETTER SMALL TU", aliases: &[] },
        Codepoint { codepoint: 0x30C4, name: "KATAKANA LETTER TU", aliases: &[] },
        Codepoint { codepoint: 0x30C5, name: "KATAKANA LETTER DU", aliases: &[] },
        Codepoint { codepoint: 0x30C6, name: "KATAKANA LETTER TE", aliases: &[] },
        Codepoint { codepoint: 0x30C7, name: "KATAKANA LETTER DE", aliases: &[] },
        Codepoint { codepoint: 0x30C8, name: "KATAKANA LETTER TO", aliases: &[] },
        Codepoint { codepoint: 0x30C9, name: "KATAKANA LETTER DO", aliases: &[] },
        Codepoint { codepoint: 0x30CA, name: "KATAKANA LETTER NA", aliases: &[] },
        Codepoint { codepoint: 0x30CB, name: "KATAKANA LETTER NI", aliases: &[] },
        Codepoint { codepoint: 0x30CC, name: "KATAKANA LETTER NU", aliases: &[] },
        Codepoint { codepoint: 0x30CD, name: "KATAKANA LETTER NE", aliases: &[] },
        Codepoint { codepoint: 0x30CE, name: "KATAKANA LETTER NO", aliases: &[] },
        Codepoint { codepoint: 0x30CF, name: "KATAKANA LETTER HA", aliases: &[] },
        Codepoint { codepoint: 0x30D0, name: "KATAKANA LETTER BA", aliases: &[] },
        Codepoint { codepoint: 0x30D1, name: "KATAKANA LETTER PA", aliases: &[] },
        Codepoint { codepoint: 0x30D2, name: "KATAKANA LETTER HI", aliases: &[] },
        Codepoint { codepoint: 0x30D3, name: "KATAKANA LETTER BI", aliases: &[] },
    ]
}

fn all_codepoints_285() -> (v: Vec<Codepoint>)
    ensures
        v@ == codepoint_table_285(),
{
    let v = vec![
        Codepoint { codepoint: 0x30AC, name: "KATAKANA LETTER GA", aliases: &[] },
        Codepoint { codepoint: 0x30AD, name: "KATAKANA LETTER KI", aliases: &[] },
        Codepoint { codepoint: 0x30AE, name: "KATAKANA LETTER GI", aliases: &[] },
        Codepoint { codepoint: 0x30AF, name: "KATAKANA LETTER KU", aliases: &[] },
        Codepoint { codepoint: 0x30B0, name: "KATAKANA LETTER GU", aliases: &[] },
        Codepoint { codepoint: 0x30B1, name: "KATAKANA LETTER KE", aliases: &[] },
        Codepoint { codepoint: 0x30B2, name: "KATAKANA LETTER GE", aliases: &[] },
        Codepoint { codepoint: 0x30B3, name: "KATAKANA LETTER KO", aliases: &[] },
        Codepoint { codepoint: 0x30B4, name: "KATAKANA LETTER GO", aliases: &[] },
        Codepoint { codepoint: 0x30B5, name: "KATAKANA LETTER SA", aliases: &[] },
        Codepoint { codepoint: 0x30B6, name: "KATAKANA LETTER ZA", aliases: &[] },
        Codepoint { codepoint: 0x30B7, name: "KATAKANA LETTER SI", aliases: &[] },
        Codepoint { codepoint: 0x30B8, name: "KATAKANA LETTER ZI", aliases: &[] },
        Codepoint { codepoint: 0x30B9, name: "KATAKANA LETTER SU", aliases: &[] },
        Codepoint { codepoint: 0x30BA, name: "KATAKANA LETTER ZU", aliases: &[] },
        Codepoint { codepoint: 0x30BB, name: "KATAKANA LETTER SE", aliases: &[] },
        Codepoint { codepoint: 0x30BC, name: "KATAKANA LETTER ZE", aliases: &[] },
        Codepoint { codepoint: 0x30BD, name: "KATAKANA LETTER SO", aliases: &[] },
        Codepoint { codepoint: 0x30BE, name: "KATAKANA LETTER ZO", aliases: &[] },
        Codepoint { codepoint: 0x30BF, name: "KATAKANA LETTER TA", aliases: &[] },
        Codepoint { codepoint: 0x30C0, name: "KATAKANA LETTER DA", aliases: &[] },
        Codepoint { codepoint: 0x30C1, name: "KATAKANA LETTER TI", aliases: &[] },
        Codepoint { codepoint: 0x30C2, name: "KATAKANA LETTER DI", aliases: &[] },
        Codepoint { codepoint: 0x30C3, name: "KATAKANA LETTER SMALL TU", aliases: &[] },
        Codepoint { codepoint: 0x30C4, name: "KATAKANA LETTER TU", aliases: &[] },
        Codepoint { codepoint: 0x30C5, name: "KATAKANA LETTER DU", aliases: &[] },
        Codepoint { codepoint: 0x30C6, name: "KATAKANA LETTER TE", aliases: &[] },
        Codepoint { codepoint: 0x30C7, name: "KATAKANA LETTER DE", aliases: &[] },
        Codepoint { codepoint: 0x30C8, name: "KATAKANA LETTER TO", aliases: &[] },
        Codepoint { codepoint: 0x30C9, name: "KATAKANA LETTER DO", aliases: &[] },
        Codepoint { codepoint: 0x30CA, name: "KATAKANA LETTER NA", aliases: &[] },
        Codepoint { codepoint: 0x30CB, name: "KATAKANA LETTER NI", aliases: &[] },
        Codepoint { codepoint: 0x30CC, name: "KATAKANA LETTER NU", aliases: &[] },
        Codepoint { codepoint: 0x30CD, name: "KATAKANA LETTER NE", aliases: &[] },
        Codepoint { codepoint: 0x30CE, name: "KATAKANA LETTER NO", aliases: &[] },
        Codepoint { codepoint: 0x30CF, name: "KATAKANA LETTER HA", aliases: &[] },
        Codepoint { codepoint: 0x30D0, name: "KATAKANA LETTER BA", aliases: &[] },
        Codepoint { codepoint: 0x30D1, name: "KATAKANA LETTER PA", aliases: &[] },
        Codepoint { codepoint: 0x30D2, name: "KATAKANA LETTER HI", aliases: &[] },
        Codepoint { codepoint: 0x30D3, name: "KATAKANA LETTER BI", aliases: &[] },
    ];
    assert(v@ =~= codepoint_table_285());
    v
}

pub open spec fn codepoint_table_286() -> Seq<Codepoint> {
    seq![
        Codepoint { codepoint: 0x30D4, name: "KATAKANA LETTER PI", aliases: &[] },
        Codepoint { codepoint: 0x30D5, name: "KATAKANA LETTER HU", aliases: &[] },
        Codepoint { codepoint: 0x30D6, name: "KATAKANA LETTER BU", aliases: &[] },
        Codepoint { codepoint: 0x30D7, name: "KATAKANA LETTER PU", aliases: &[] },
        Codepoint { codepoint: 0x30D8, name: "KATAKANA LETTER HE", aliases: &[] },
        Codepoint { codepoint: 0x30D9, name: "KATAKANA LETTER BE", aliases: &[] },
        Codepoint { codepoint: 0x30DA, name: "KATAKANA LETTER PE", aliases: &[] },
        Codepoint { codepoint: 0x30DB, name: "KATAKANA LETTER HO", aliases: &[] },
        Codepoint { codepoint: 0x30DC, name: "KATAKANA LETTER BO", aliases: &[] },
        Codepoint { codepoint: 0x30DD, name: "KATAKANA LETTER PO", aliases: &[] },
        Codepoint { codepoint: 0x30DE, name: "KATAKANA LETTER MA", aliases: &[] },
        Codepoint { codepoint: 0x30DF, name: "KATAKANA LETTER MI", aliases: &[] },
        Codepoint { codepoint: 0x30E0, name: "KATAKANA LETTER MU", aliases: &[] },
        Codepoint { codepoint: 0x30E1, name: "KATAKANA LETTER ME", aliases: &[] },
        Codepoint { codepoint: 0x30E2, name: "KATAKANA LETTER MO", aliases: &[] },
        Codepoint { codepoint: 0x30E3, name: "KATAKANA LETTER SMALL YA", aliases: &[] },
        Codepoint { codepoint: 0x30E4, name: "KATAKANA LETTER YA", aliases: &[] },
        Codepoint { codepoint: 0x30E5, name: "KATAKANA LETTER SMALL YU", aliases: &[] },
        Codepoint { codepoint: 0x30E6, name: "KATAKANA LETTER YU", aliases: &[] },
        Codepoint { codepoint: 0x30E7, name: "KATAKANA LETTER SMALL YO", aliases: &[] },
        Codepoint { codepoint: 0x30E8, name: "KATAKANA LETTER YO", aliases: &[] },
        Codepoint { codepoint: 0x30E9, name: "KATAKANA LETTER RA", aliases: &[] },
        Codepoint { codepoint: 0x30EA, name: "KATAKANA LETTER RI", aliases: &[] },
        Codepoint { codepoint: 0x30EB, name: "KATAKANA LETTER RU", aliases: &[] },
        Codepoint { codepoint: 0x30EC, name: "KATAKANA LETTER RE", aliases: &[] },
        Codepoint { codepoint: 0x30ED, name: "KATAKANA LETTER RO", aliases: &[] },
        Codepoint { codepoint: 0x30EE, name: "KATAKANA LETTER SMALL WA", aliases: &[] },
        Codepoint { codepoint: 0x30EF, name: "KATAKANA LETTER WA", aliases: &[] },
        Codepoint { codepoint: 0x30F0, name: "KATAKANA LETTER WI", aliases: &[] },
        Codepoint { codepoint: 0x30F1, name: "KATAKANA LETTER WE", aliases: &[] },
        Codepoint { codepoint: 0x30F2, name: "KATAKANA LETTER WO", aliases: &[] },
        Codepoint { codepoint: 0x30F3, name: "KATAKANA LETTER N", aliases: &[] },
        Codepoint { codepoint: 0x30F4, name: "KATAKANA LETTER VU", aliases: &[] },
        Codepoint { codepoint: 0x30F5, name: "KATAKANA LETTER SMALL KA", aliases: &[] },
        Codepoint { codepoint: 0x30F6, name: "KATAKANA LETTER SMALL KE", aliases: &[] },
        Codepoint { codepoint: 0x30F7, name: "KATAKANA LETTER VA", aliases: &[] },
        Codepoint { codepoint: 0x30F8, name: "KATAKANA LETTER VI", aliases: &[] },
        Codepoint { codepoint: 0x30F9, name: "KATAKANA LETTER VE", aliases: &[] },
        Codepoint { codepoint: 0x30FA, name: "KATAKANA LETTER VO", aliases: &[] },
        Codepoint { codepoint: 0x30FB, name: "KATAKANA MIDDLE DOT", aliases: &[] },
    ]
}

fn all_codepoints_286() -> (v: Vec<Codepoint>)
    ensures
        v@ == codepoint_table_286(),
{
    let v = vec![
        Codepoint { codepoint: 0x30D4, name: "KATAKANA LETTER PI", aliases: &[] },
        Codepoint { codepoint: 0x30D5, name: "KATAKANA LETTER HU", aliases: &[] },
        Codepoint { codepoint: 0x30D6, name: "KATAKANA LETTER BU", aliases: &[] },
        Codepoint { codepoint: 0x30D7, name: "KATAKANA LETTER PU", aliases: &[] },
        Codepoint { codepoint: 0x30D8, name: "KATAKANA LETTER HE", aliases: &[] },
        Codepoint { codepoint: 0x30D9, name: "KATAKANA LETTER BE", aliases: &[] },
        Codepoint { codepoint: 0x30DA, name: "KATAKANA LETTER PE", aliases: &[] },
        Codepoint { codepoint: 0x30DB, name: "KATAKANA LETTER HO", aliases: &[] },
        Codepoint { codepoint: 0x30DC, name: "KATAKANA LETTER BO", aliases: &[] },
        Codepoint { codepoint: 0x30DD, name: "KATAKANA LETTER PO", aliases: &[] },
        Codepoint { codepoint: 0x30DE, name: "KATAKANA LETTER MA", aliases: &[] },
        Codepoint { codepoint: 0x30DF, name: "KATAKANA LETTER MI", aliases: &[] },
        Codepoint { codepoint: 0x30E0, name: "KATAKANA LETTER MU", aliases: &[] },
        Codepoint { codepoint: 0x30E1, name: "KATAKANA LETTER ME", aliases: &[] },
        Codepoint { codepoint: 0x30E2, name: "KATAKANA LETTER MO", aliases: &[] },
        Codepoint { codepoint: 0x30E3, name: "KATAKANA LETTER SMALL YA", aliases: &[] },
        Codepoint { codepoint: 0x30E4, name: "KATAKANA LETTER YA", aliases: &[] },
        Codepoint { codepoint: 0x30E5, name: "KATAKANA LETTER SMALL YU", aliases: &[] },
        Codepoint { codepoint: 0x30E6, name: "KATAKANA LETTER YU", aliases: &[] },
        Codepoint { codepoint: 0x30E7, name: "KATAKANA LETTER SMALL YO", aliases: &[] },
        Codepoint { codepoint: 0x30E8, name: "KATAKANA LETTER YO", aliases: &[] },
        Codepoint { codepoint: 0x30E9, name: "KATAKANA LETTER RA", aliases: &[] },
        Codepoint { codepoint: 0x30EA, name: "KATAKANA LETTER RI", aliases: &[] },
        Codepoint { codepoint: 0x30EB, name: "KATAKANA LETTER RU", aliases: &[] },
        Codepoint { codepoint: 0x30EC, name: "KATAKANA LETTER RE", aliases: &[] },
        Codepoint { codepoint: 0x30ED, name: "KATAKANA LETTER RO", aliases: &[] },
        Codepoint { codepoint: 0x30EE, name: "KATAKANA LETTER SMALL WA", aliases: &[] },
        Codepoint { codepoint: 0x30EF, name: "KATAKANA LETTER WA", aliases: &[] },
        Codepoint { codepoint: 0x30F0, name: "KATAKANA LETTER WI", aliases: &[] },
        Codepoint { codepoint: 0x30F1, name: "KATAKANA LETTER WE", aliases: &[] },
        Codepoint { codepoint: 0x30F2, name: "KATAKANA LETTER WO", aliases: &[] },
        Codepoint { codepoint: 0x30F3, name: "KATAKANA LETTER N", aliases: &[] },
        Codepoint { codepoint: 0x30F4, name: "KATAKANA LETTER VU", aliases: &[] },
        Codepoint { codepoint: 0x30F5, name: "KATAKANA LETTER SMALL KA", aliases: &[] },
        Codepoint { codepoint: 0x30F6, name: "KATAKANA LETTER SMALL KE", aliases: &[] },
        Codepoint { codepoint: 0x30F7, name: "KATAKANA LETTER VA", aliases: &[] },
        Codepoint { codepoint: 0x30F8, name: "KATAKANA LETTER VI", aliases: &[] },
        Codepoint { codepoint: 0x30F9, name: "KATAKANA LETTER VE", aliases: &[] },
        Codepoint { codepoint: 0x30FA, name: "KATAKANA LETTER VO", aliases: &[] },
        Codepoint { codepoint: 0x30FB, name: "KATAKANA MIDDLE DOT", aliases: &[] },
    ];
    assert(v@ =~= codepoint_table_286());
    v
}

pub open spec fn codepoint_table_287() -> Seq<Codepoint> {
    seq![
        Codepoint { codepoint: 0x30FC, name: "KATAKANA-HIRAGANA PROLONGED SOUND MARK", aliases: &[] },
        Codepoint { codepoint: 0x30FD, name: "KATAKANA ITERATION MARK", aliases: &[] },
        Codepoint { codepoint: 0x30FE, name: "KATAKANA VOICED ITERATION MARK", aliases: &[] },
        Codepoint { codepoint: 0x30FF, name: "KATAKANA DIGRAPH KOTO", aliases: &[] },
        Codepoint { codepoint: 0x3105, name: "BOPOMOFO LETTER B", aliases: &[] },
        Codepoint { codepoint: 0x3106, name: "BOPOMOFO LETTER P", aliases: &[] },
        Codepoint { codepoint: 0x3107, name: "BOPOMOFO LETTER M", aliases: &[] },
        Codepoint { codepoint: 0x3108, name: "BOPOMOFO LETTER F", aliases: &[] },
        Codepoint { codepoint: 0x3109, name: "BOPOMOFO LETTER D", aliases: &[] },
        Codepoint { codepoint: 0x310A, name: "BOPOMOFO LETTER T", aliases: &[] },
        Codepoint { codepoint: 0x310B, name: "BOPOMOFO LETTER N", aliases: &[] },
        Codepoint { codepoint: 0x310C, name: "BOPOMOFO LETTER L", aliases: &[] },
        Codepoint { codepoint: 0x310D, name: "BOPOMOFO LETTER G", aliases: &[] },
        Codepoint { codepoint: 0x310E, name: "BOPOMOFO LETTER K", aliases: &[] },
        Codepoint { codepoint: 0x310F, name: "BOPOMOFO LETTER H", aliases: &[] },
        Codepoint { codepoint: 0x3110, name: "BOPOMOFO LETTER J", aliases: &[] },
        Codepoint { codepoint: 0x3111, name: "BOPOMOFO LETTER Q", aliases: &[] },
        Codepoint { codepoint: 0x3112, name: "BOPOMOFO LETTER X", aliases: &[] },
        Codepoint { codepoint: 0x3113, name: "BOPOMOFO LETTER ZH", aliases: &[] },
        Codepoint { codepoint: 0x3114, name: "BOPOMOFO LETTER CH", aliases: &[] },
        Codepoint { codepoint: 0x3115, name: "BOPOMOFO LETTER SH", aliases: &[] },
        Codepoint { codepoint: 0x3116, name: "BOPOMOFO LETTER R", aliases: &[] },
        Codepoint { codepoint: 0x3117, name: "BOPOMOFO LETTER Z", aliases: &[] },
        Codepoint { codepoint: 0x3118, name: "BOPOMOFO LETTER C", aliases: &[] },
        Codepoint { codepoint: 0x3119, name: "BOPOMOFO LETTER S", aliases: &[] },
        Codepoint { codepoint: 0x311A, name: "BOPOMOFO LETTER A", aliases: &[] },
        Codepoint { codepoint: 0x311B, name: "BOPOMOFO LETTER O", aliases: &[] },
        Codepoint { codepoint: 0x311C, name: "BOPOMOFO LETTER E", aliases: &[] },
        Codepoint { codepoint: 0x311D, name: "BOPOMOFO LETTER EH", aliases: &[] },
        Codepoint { codepoint: 0x311E, name: "BOPOMOFO LETTER AI", aliases: &[] },
        Codepoint { codepoint: 0x311F, name: "BOPOMOFO LETTER EI", aliases: &[] },
        Codepoint { codepoint: 0x3120, name: "BOPOMOFO LETTER AU", aliases: &[] },
        Codepoint { codepoint: 0x3121, name: "BOPOMOFO LETTER OU", aliases: &[] },
        Codepoint { codepoint: 0x3122, name: "BOPOMOFO LETTER AN", aliases: &[] },
        Codepoint { codepoint: 0x3123, name: "BOPOMOFO LETTER EN", aliases: &[] },
        Codepoint { codepoint: 0x3124, name: "BOPOMOFO LETTER ANG", aliases: &[] },
        Codepoint { codepoint: 0x3125, name: "BOPOMOFO LETTER ENG", aliases: &[] },
        Codepoint { codepoint: 0x3126, name: "BOPOMOFO LETTER ER", aliases: &[] },
        Codepoint { codepoint: 0x3127, name: "BOPOMOFO LETTER I", aliases: &[] },
        Codepoint { codepoint: 0x3128, name: "BOPOMOFO LETTER U", aliases: &[] },
    ]
}

fn all_codepoints_287() -> (v: Vec<Codepoint>)
    ensures
        v@ == codepoint_table_287(),
{
    let v = vec![
        Codepoint { codepoint: 0x30FC, name: "KATAKANA-HIRAGANA PROLONGED SOUND MARK", aliases: &[] },
        Codepoint { codepoint: 0x30FD, name: "KATAKANA ITERATION MARK", aliases: &[] },
        Codepoint { codepoint: 0x30FE, name: "KATAKANA VOICED ITERATION MARK", aliases: &[] },
        Codepoint { codepoint: 0x30FF, name: "KATAKANA DIGRAPH KOTO", aliases: &[] },
        Codepoint { codepoint: 0x3105, name: "BOPOMOFO LETTER B", aliases: &[] },
        Codepoint { codepoint: 0x3106, name: "BOPOMOFO LETTER P", aliases: &[] },
        Codepoint { codepoint: 0x3107, name: "BOPOMOFO LETTER M", aliases: &[] },
        Codepoint { codepoint: 0x3108, name: "BOPOMOFO LETTER F", aliases: &[] },
        Codepoint { codepoint: 0x3109, name: "BOPOMOFO LETTER D", aliases: &[] },
        Codepoint { codepoint: 0x310A, name: "BOPOMOFO LETTER T", aliases: &[] },
        Codepoint { codepoint: 0x310B, name: "BOPOMOFO LETTER N", aliases: &[] },
        Codepoint { codepoint: 0x310C, name: "BOPOMOFO LETTER L", aliases: &[] },
        Codepoint { codepoint: 0x310D, name: "BOPOMOFO LETTER G", aliases: &[] },
        Codepoint { codepoint: 0x310E, name: "BOPOMOFO LETTER K", aliases: &[] },
        Codepoint { codepoint: 0x310F, name: "BOPOMOFO LETTER H", aliases: &[] },
        Codepoint { codepoint: 0x3110, name: "BOPOMOFO LETTER J", aliases: &[] },
        Codepoint { codepoint: 0x3111, name: "BOPOMOFO LETTER Q", aliases: &[] },
        Codepoint { codepoint: 0x3112, name: "BOPOMOFO LETTER X", aliases: &[] },
        Codepoint { codepoint: 0x3113, name: "BOPOMOFO LETTER ZH", aliases: &[] },
        Codepoint { codepoint: 0x3114, name: "BOPOMOFO LETTER CH", aliases: &[] },
        Codepoint { codepoint: 0x3115, name: "BOPOMOFO LETTER SH", aliases: &[] },
        Codepoint { codepoint: 0x3116, name: "BOPOMOFO LETTER R", aliases: &[] },
        Codepoint { codepoint: 0x3117, name: "BOPOMOFO LETTER Z", aliases: &[] },
        Codepoint { codepoint: 0x3118, name: "BOPOMOFO LETTER C", aliases: &[] },
        Codepoint { codepoint: 0x3119, name: "BOPOMOFO LETTER S", aliases: &[] },
        Codepoint { codepoint: 0x311A, name: "BOPOMOFO LETTER A", aliases: &[] },
        Codepoint { codepoint: 0x311B, name: "BOPOMOFO LETTER O", aliases: &[] },
        Codepoint { codepoint: 0x311C, name: "BOPOMOFO LETTER E", aliases: &[] },
        Codepoint { codepoint: 0x311D, name: "BOPOMOFO LETTER EH", aliases: &[] },
        Codepoint { codepoint: 0x311E, name: "BOPOMOFO LETTER AI", aliases: &[] },
        Codepoint { codepoint: 0x311F, name: "BOPOMOFO LETTER EI", aliases: &[] },
        Codepoint { codepoint: 0x3120, name: "BOPOMOFO LETTER AU", aliases: &[] },
        Codepoint { codepoint: 0x3121, name: "BOPOMOFO LETTER OU", aliases: &[] },
        Codepoint { codepoint: 0x3122, name: "BOPOMOFO LETTER AN", aliases: &[] },
        Codepoint { codepoint: 0x3123, name: "BOPOMOFO LETTER EN", aliases: &[] },
        Codepoint { codepoint: 0x3124, name: "BOPOMOFO LETTER ANG", aliases: &[] },
        Codepoint { codepoint: 0x3125, name: "BOPOMOFO LETTER ENG", aliases: &[] },
        Codepoint { codepoint: 0x3126, name: "BOPOMOFO LETTER ER", aliases: &[] },
        Codepoint { codepoint: 0x3127, name: "BOPOMOFO LETTER I", aliases: &[] },
        Codepoint { codepoint: 0x3128, name: "BOPOMOFO LETTER U", aliases: &[] },
    ];
    assert(v@ =~= codepoint_table_287());
    v
}

pub open spec fn codepoint_table_288() -> Seq<Codepoint> {
    seq![
        Codepoint { codepoint: 0x3129, name: "BOPOMOFO LETTER IU", aliases: &[] },
        Codepoint { codepoint: 0x312A, name: "BOPOMOFO LETTER V", aliases: &[] },
        Codepoint { codepoint: 0x312B, name: "BOPOMOFO LETTER NG", aliases: &[] },
        Codepoint { codepoint: 0x312C, name: "BOPOMOFO LETTER GN", aliases: &[] },
        Codepoint { codepoint: 0x312D, name: "BOPOMOFO LETTER IH", aliases: &[] },
        Codepoint { codepoint: 0x312E, name: "BOPOMOFO LETTER O WITH DOT ABOVE", aliases: &[] },
        Codepoint { codepoint: 0x312F, name: "BOPOMOFO LETTER NN", aliases: &[] },
        Codepoint { codepoint: 0x3131, name: "HANGUL LETTER KIYEOK", aliases: &["HANGUL LETTER GIYEOG"] },
        Codepoint { codepoint: 0x3132, name: "HANGUL LETTER SSANGKIYEOK", aliases: &["HANGUL LETTER SSANG GIYEOG"] },
        Codepoint { codepoint: 0x3133, name: "HANGUL LETTER KIYEOK-SIOS", aliases: &["HANGUL LETTER GIYEOG SIOS"] },
        Codepoint { codepoint: 0x3134, name: "HANGUL LETTER NIEUN", aliases: &[] },
        Codepoint { codepoint: 0x3135, name: "HANGUL LETTER NIEUN-CIEUC", aliases: &["HANGUL LETTER NIEUN JIEUJ"] },
        Codepoint { codepoint: 0x3136, name: "HANGUL LETTER NIEUN-HIEUH", aliases: &["HANGUL LETTER NIEUN HIEUH"] },
        Codepoint { codepoint: 0x3137, name: "HANGUL LETTER TIKEUT", aliases: &["HANGUL LETTER DIGEUD"] },
        Codepoint { codepoint: 0x3138, name: "HANGUL LETTER SSANGTIKEUT", aliases: &["HANGUL LETTER SSANG DIGEUD"] },
        Codepoint { codepoint: 0x3139, name: "HANGUL LETTER RIEUL", aliases: &["HANGUL LETTER LIEUL"] },
        Codepoint { codepoint: 0x313A, name: "HANGUL LETTER RIEUL-KIYEOK", aliases: &["HANGUL LETTER LIEUL GIYEOG"] },
        Codepoint { codepoint: 0x313B, name: "HANGUL LETTER RIEUL-MIEUM", aliases: &["HANGUL LETTER LIEUL MIEUM"] },
        Codepoint { codepoint: 0x313C, name: "HANGUL LETTER RIEUL-PIEUP", aliases: &["HANGUL LETTER LIEUL BIEUB"] },
        Codepoint { codepoint: 0x313D, name: "HANGUL LETTER RIEUL-SIOS", aliases: &["HANGUL LETTER LIEUL SIOS"] },
        Codepoint { codepoint: 0x313E, name: "HANGUL LETTER RIEUL-THIEUTH", aliases: &["HANGUL LETTER LIEUL TIEUT"] },
        Codepoint { codepoint: 0x313F, name: "HANGUL LETTER RIEUL-PHIEUPH", aliases: &["HANGUL LETTER LIEUL PIEUP"] },
        Codepoint { codepoint: 0x3140, name: "HANGUL LETTER RIEUL-HIEUH", aliases: &["HANGUL LETTER LIEUL HIEUH"] },
        Codepoint { codepoint: 0x3141, name: "HANGUL LETTER MIEUM", aliases: &[] },
        Codepoint { codepoint: 0x3142, name: "HANGUL LETTER PIEUP", aliases: &["HANGUL LETTER BIEUB"] },
        Codepoint { codepoint: 0x3143, name: "HANGUL LETTER SSANGPIEUP", aliases: &["HANGUL LETTER SSANG BIEUB"] },
        Codepoint { codepoint: 0x3144, name: "HANGUL LETTER PIEUP-SIOS", aliases: &["HANGUL LETTER BIEUB SIOS"] },
        Codepoint { codepoint: 0x3145, name: "HANGUL LETTER SIOS", aliases: &[] },
        Codepoint { codepoint: 0x3146, name: "HANGUL LETTER SSANGSIOS", aliases: &["HANGUL LETTER SSANG SIOS"] },
        Codepoint { codepoint: 0x3147, name: "HANGUL LETTER IEUNG", aliases: &[] },
        Codepoint { codepoint: 0x3148, name: "HANGUL LETTER CIEUC", aliases: &["HANGUL LETTER JIEUJ"] },
        Codepoint { codepoint: 0x3149, name: "HANGUL LETTER SSANGCIEUC", aliases: &["HANGUL LETTER SSANG JIEUJ"] },
        Codepoint { codepoint: 0x314A, name: "HANGUL LETTER CHIEUCH", aliases: &["HANGUL LETTER CIEUC"] },
        Codepoint { codepoint: 0x314B, name: "HANGUL LETTER KHIEUKH", aliases: &["HANGUL LETTER KIYEOK"] },
        Codepoint { codepoint: 0x314C, name: "HANGUL LETTER THIEUTH", aliases: &["HANGUL LETTER TIEUT"] },
        Codepoint { codepoint: 0x314D, name: "HANGUL LETTER PHIEUPH", aliases: &["HANGUL LETTER PIEUP"] },
        Codepoint { codepoint: 0x314E, name: "HANGUL LETTER HIEUH", aliases: &[] },
        Codepoint { codepoint: 0x314F, name: "HANGUL LETTER A", aliases: &[] },
        Codepoint { codepoint: 0x3150, name: "HANGUL LETTER AE", aliases: &[] },
        Codepoint { codepoint: 0x3151, name: "HANGUL LETTER YA", aliases: &[] },
    ]
}

fn all_codepoints_288() -> (v: Vec<Codepoint>)
    ensures
        v@ == codepoint_table_288(),
{
    let v = vec![
        Codepoint { codepoint: 0x3129, name: "BOPOMOFO LETTER IU", aliases: &[] },
        Codepoint { codepoint: 0x312A, name: "BOPOMOFO LETTER V", aliases: &[] },
        Codepoint { codepoint: 0x312B, name: "BOPOMOFO LETTER NG", aliases: &[] },
        Codepoint { codepoint: 0x312C, name: "BOPOMOFO LETTER GN", aliases: &[] },
        Codepoint { codepoint: 0x312D, name: "BOPOMOFO LETTER IH", aliases: &[] },
        Codepoint { codepoint: 0x312E, name: "BOPOMOFO LETTER O WITH DOT ABOVE", aliases: &[] },
        Codepoint { codepoint: 0x312F, name: "BOPOMOFO LETTER NN", aliases: &[] },
        Codepoint { codepoint: 0x3131, name: "HANGUL LETTER KIYEOK", aliases: &["HANGUL LETTER GIYEOG"] },
        Codepoint { codepoint: 0x3132, name: "HANGUL LETTER SSANGKIYEOK", aliases: &["HANGUL LETTER SSANG GIYEOG"] },
        Codepoint { codepoint: 0x3133, name: "HANGUL LETTER KIYEOK-SIOS", aliases: &["HANGUL LETTER GIYEOG SIOS"] },
        Codepoint { codepoint: 0x3134, name: "HANGUL LETTER NIEUN", aliases: &[] },
        Codepoint { codepoint: 0x3135, name: "HANGUL LETTER NIEUN-CIEUC", aliases: &["HANGUL LETTER NIEUN JIEUJ"] },
        Codepoint { codepoint: 0x3136, name: "HANGUL LETTER NIEUN-HIEUH", aliases: &["HANGUL LETTER NIEUN HIEUH"] },
        Codepoint { codepoint: 0x3137, name: "HANGUL LETTER TIKEUT", aliases: &["HANGUL LETTER DIGEUD"] },
        Codepoint { codepoint: 0x3138, name: "HANGUL LETTER SSANGTIKEUT", aliases: &["HANGUL LETTER SSANG DIGEUD"] },
        Codepoint { codepoint: 0x3139, name: "HANGUL LETTER RIEUL", aliases: &["HANGUL LETTER LIEUL"] },
        Codepoint { codepoint: 0x313A, name: "HANGUL LETTER RIEUL-KIYEOK", aliases: &["HANGUL LETTER LIEUL GIYEOG"] },
        Codepoint { codepoint: 0x313B, name: "HANGUL LETTER RIEUL-MIEUM", aliases: &["HANGUL LETTER LIEUL MIEUM"] },
        Codepoint { codepoint: 0x313C, name: "HANGUL LETTER RIEUL-PIEUP", aliases: &["HANGUL LETTER LIEUL BIEUB"] },
        Codepoint { codepoint: 0x313D, name: "HANGUL LETTER RIEUL-SIOS", aliases: &["HANGUL LETTER LIEUL SIOS"] },
        Codepoint { codepoint: 0x313E, name: "HANGUL LETTER RIEUL-THIEUTH", aliases: &["HANGUL LETTER LIEUL TIEUT"] },
        Codepoint { codepoint: 0x313F, name: "HANGUL LETTER RIEUL-PHIEUPH", aliases: &["HANGUL LETTER LIEUL PIEUP"] },
        Codepoint { codepoint: 0x3140, name: "HANGUL LETTER RIEUL-HIEUH", aliases: &["HANGUL LETTER LIEUL HIEUH"] },
        Codepoint { codepoint: 0x3141, name: "HANGUL LETTER MIEUM", aliases: &[] },
        Codepoint { codepoint: 0x3142, name: "HANGUL LETTER PIEUP", aliases: &["HANGUL LETTER BIEUB"] },
        Codepoint { codepoint: 0x3143, name: "HANGUL LETTER SSANGPIEUP", aliases: &["HANGUL LETTER SSANG BIEUB"] },
        Codepoint { codepoint: 0x3144, name: "HANGUL LETTER PIEUP-SIOS", aliases: &["HANGUL LETTER BIEUB SIOS"] },
        Codepoint { codepoint: 0x3145, name: "HANGUL LETTER SIOS", aliases: &[] },
        Codepoint { codepoint: 0x3146, name: "HANGUL LETTER SSANGSIOS", aliases: &["HANGUL LETTER SSANG SIOS"] },
        Codepoint { codepoint: 0x3147, name: "HANGUL LETTER IEUNG", aliases: &[] },
        Codepoint { codepoint: 0x3148, name: "HANGUL LETTER CIEUC", aliases: &["HANGUL LETTER JIEUJ"] },
        Codepoint { codepoint: 0x3149, name: "HANGUL LETTER SSANGCIEUC", aliases: &["HANGUL LETTER SSANG JIEUJ"] },
        Codepoint { codepoint: 0x314A, name: "HANGUL LETTER CHIEUCH", aliases: &["HANGUL LETTER CIEUC"] },
        Codepoint { codepoint: 0x314B, name: "HANGUL LETTER KHIEUKH", aliases: &["HANGUL LETTER KIYEOK"] },
        Codepoint { codepoint: 0x314C, name: "HANGUL LETTER THIEUTH", aliases: &["HANGUL LETTER TIEUT"] },
        Codepoint { codepoint: 0x314D, name: "HANGUL LETTER PHIEUPH", aliases: &["HANGUL LETTER PIEUP"] },
        Codepoint { codepoint: 0x314E, name: "HANGUL LETTER HIEUH", aliases: &[] },
        Codepoint { codepoint: 0x314F, name: "HANGUL LETTER A", aliases: &[] },
        Codepoint { codepoint: 0x3150, name: "HANGUL LETTER AE", aliases: &[] },
        Codepoint { codepoint: 0x3151, name: "HANGUL LETTER YA", aliases: &[] },
    ];
    assert(v@ =~= codepoint_table_288());
    v
}

pub open spec fn codepoint_table_289() -> Seq<Codepoint> {
    seq![
        Codepoint { codepoint: 0x3152, name: "HANGUL LETTER YAE", aliases: &[] },
        Codepoint { codepoint: 0x3153, name: "HANGUL LETTER EO", aliases: &[] },
        Codepoint { codepoint: 0x3154, name: "HANGUL LETTER E", aliases: &[] },
        Codepoint { codepoint: 0x3155, name: "HANGUL LETTER YEO", aliases: &[] },
        Codepoint { codepoint: 0x3156, name: "HANGUL LETTER YE", aliases: &[] },
        Codepoint { codepoint: 0x3157, name: "HANGUL LETTER O", aliases: &[] },
        Codepoint { codepoint: 0x3158, name: "HANGUL LETTER WA", aliases: &[] },
        Codepoint { codepoint: 0x3159, name: "HANGUL LETTER WAE", aliases: &[] },
        Codepoint { codepoint: 0x315A, name: "HANGUL LETTER OE", aliases: &[] },
        Codepoint { codepoint: 0x315B, name: "HANGUL LETTER YO", aliases: &[] },
        Codepoint { codepoint: 0x315C, name: "HANGUL LETTER U", aliases: &[] },
        Codepoint { codepoint: 0x315D, name: "HANGUL LETTER WEO", aliases: &[] },
        Codepoint { codepoint: 0x315E, name: "HANGUL LETTER WE", aliases: &[] },
        Codepoint { codepoint: 0x315F, name: "HANGUL LETTER WI", aliases: &[] },
        Codepoint { codepoint: 0x3160, name: "HANGUL LETTER YU", aliases: &[] },
        Codepoint { codepoint: 0x3161, name: "HANGUL LETTER EU", aliases: &[] },
        Codepoint { codepoint: 0x3162, name: "HANGUL LETTER YI", aliases: &[] },
        Codepoint { codepoint: 0x3163, name: "HANGUL LETTER I", aliases: &[] },
        Codepoint { codepoint: 0x3164, name: "HANGUL FILLER", aliases: &["HANGUL CAE OM"] },
        Codepoint { codepoint: 0x3165, name: "HANGUL LETTER SSANGNIEUN", aliases: &["HANGUL LETTER SSANG NIEUN"] },
        Codepoint { codepoint: 0x3166, name: "HANGUL LETTER NIEUN-TIKEUT", aliases: &["HANGUL LETTER NIEUN DIGEUD"] },
        Codepoint { codepoint: 0x3167, name: "HANGUL LETTER NIEUN-SIOS", aliases: &["HANGUL LETTER NIEUN SIOS"] },
        Codepoint { codepoint: 0x3168, name: "HANGUL LETTER NIEUN-PANSIOS", aliases: &["HANGUL LETTER NIEUN BAN CHI EUM"] },
        Codepoint { codepoint: 0x3169, name: "HANGUL LETTER RIEUL-KIYEOK-SIOS", aliases: &["HANGUL LETTER LIEUL GIYEOG SIOS"] },
        Codepoint { codepoint: 0x316A, name: "HANGUL LETTER RIEUL-TIKEUT", aliases: &["HANGUL LETTER LIEUL DIGEUD"] },
        Codepoint { codepoint: 0x316B, name: "HANGUL LETTER RIEUL-PIEUP-SIOS", aliases: &["HANGUL LETTER LIEUL BIEUB SIOS"] },
        Codepoint { codepoint: 0x316C, name: "HANGUL LETTER RIEUL-PANSIOS", aliases: &["HANGUL LETTER LIEUL BAN CHI EUM"] },
        Codepoint { codepoint: 0x316D, name: "HANGUL LETTER RIEUL-YEORINHIEUH", aliases: &["HANGUL LETTER LIEUL YEOLIN HIEUH"] },
        Codepoint { codepoint: 0x316E, name: "HANGUL LETTER MIEUM-PIEUP", aliases: &["HANGUL LETTER MIEUM BIEUB"] },
        Codepoint { codepoint: 0x316F, name: "HANGUL LETTER MIEUM-SIOS", aliases: &["HANGUL LETTER MIEUM SIOS"] },
        Codepoint { codepoint: 0x3170, name: "HANGUL LETTER MIEUM-PANSIOS", aliases: &["HANGUL LETTER BIEUB BAN CHI EUM"] },
        Codepoint { codepoint: 0x3171, name: "HANGUL LETTER KAPYEOUNMIEUM", aliases: &["HANGUL LETTER MIEUM SUN GYEONG EUM"] },
        Codepoint { codepoint: 0x3172, name: "HANGUL LETTER PIEUP-KIYEOK", aliases: &["HANGUL LETTER BIEUB GIYEOG"] },
        Codepoint { codepoint: 0x3173, name: "HANGUL LETTER PIEUP-TIKEUT", aliases: &["HANGUL LETTER BIEUB DIGEUD"] },
        Codepoint { codepoint: 0x3174, name: "HANGUL LETTER PIEUP-SIOS-KIYEOK", aliases: &["HANGUL LETTER BIEUB SIOS GIYEOG"] },
        Codepoint { codepoint: 0x3175, name: "HANGUL LETTER PIEUP-SIOS-TIKEUT", aliases: &["HANGUL LETTER BIEUB SIOS DIGEUD"] },
        Codepoint { codepoint: 0x3176, name: "HANGUL LETTER PIEUP-CIEUC", aliases: &["HANGUL LETTER BIEUB JIEUJ"] },
        Codepoint { codepoint: 0x3177, name: "HANGUL LETTER PIEUP-THIEUTH", aliases: &["HANGUL LETTER BIEUB TIEUT"] },
        Codepoint { codepoint: 0x3178, name: "HANGUL LETTER KAPYEOUNPIEUP", aliases: &["HANGUL LETTER BIEUB SUN GYEONG EUM"] },
        Codepoint { codepoint: 0x3179, name: "HANGUL LETTER KAPYEOUNSSANGPIEUP", aliases: &["HANGUL LETTER SSANG BIEUB SUN GYEONG EUM"] },
    ]
}

fn all_codepoints_289() -> (v: Vec<Codepoint>)
    ensures
        v@ == codepoint_table_289(),
{
    let v = vec![
        Codepoint { codepoint: 0x3152, name: "HANGUL LETTER YAE", aliases: &[] },
        Codepoint { codepoint: 0x3153, name: "HANGUL LETTER EO", aliases: &[] },
        Codepoint { codepoint: 0x3154, name: "HANGUL LETTER E", aliases: &[] },
        Codepoint { codepoint: 0x3155, name: "HANGUL LETTER YEO", aliases: &[] },
        Codepoint { codepoint: 0x3156, name: "HANGUL LETTER YE", aliases: &[] },
        Codepoint { codepoint: 0x3157, name: "HANGUL LETTER O", aliases: &[] },
        Codepoint { codepoint: 0x3158, name: "HANGUL LETTER WA", aliases: &[] },
        Codepoint { codepoint: 0x3159, name: "HANGUL LETTER WAE", aliases: &[] },
        Codepoint { codepoint: 0x315A, name: "HANGUL LETTER OE", aliases: &[] },
        Codepoint { codepoint: 0x315B, name: "HANGUL LETTER YO", aliases: &[] },
        Codepoint { codepoint: 0x315C, name: "HANGUL LETTER U", aliases: &[] },
        Codepoint { codepoint: 0x315D, name: "HANGUL LETTER WEO", aliases: &[] },
        Codepoint { codepoint: 0x315E, name: "HANGUL LETTER WE", aliases: &[] },
        Codepoint { codepoint: 0x315F, name: "HANGUL LETTER WI", aliases: &[] },
        Codepoint { codepoint: 0x3160, name: "HANGUL LETTER YU", aliases: &[] },
        Codepoint { codepoint: 0x3161, name: "HANGUL LETTER EU", aliases: &[] },
        Codepoint { codepoint: 0x3162, name: "HANGUL LETTER YI", aliases: &[] },
        Codepoint { codepoint: 0x3163, name: "HANGUL LETTER I", aliases: &[] },
        Codepoint { codepoint: 0x3164, name: "HANGUL FILLER", aliases: &["HANGUL CAE OM"] },
        Codepoint { codepoint: 0x3165, name: "HANGUL LETTER SSANGNIEUN", aliases: &["HANGUL LETTER SSANG NIEUN"] },
        Codepoint { codepoint: 0x3166, name: "HANGUL LETTER NIEUN-TIKEUT", aliases: &["HANGUL LETTER NIEUN DIGEUD"] },
        Codepoint { codepoint: 0x3167, name: "HANGUL LETTER NIEUN-SIOS", aliases: &["HANGUL LETTER NIEUN SIOS"] },
        Codepoint { codepoint: 0x3168, name: "HANGUL LETTER NIEUN-PANSIOS", aliases: &["HANGUL LETTER NIEUN BAN CHI EUM"] },
        Codepoint { codepoint: 0x3169, name: "HANGUL LETTER RIEUL-KIYEOK-SIOS", aliases: &["HANGUL LETTER LIEUL GIYEOG SIOS"] },
        Codepoint { codepoint: 0x316A, name: "HANGUL LETTER RIEUL-TIKEUT", aliases: &["HANGUL LETTER LIEUL DIGEUD"] },
        Codepoint { codepoint: 0x316B, name: "HANGUL LETTER RIEUL-PIEUP-SIOS", aliases: &["HANGUL LETTER LIEUL BIEUB SIOS"] },
        Codepoint { codepoint: 0x316C, name: "HANGUL LETTER RIEUL-PANSIOS", aliases: &["HANGUL LETTER LIEUL BAN CHI EUM"] },
        Codepoint { codepoint: 0x316D, name: "HANGUL LETTER RIEUL-YEORINHIEUH", aliases: &["HANGUL LETTER LIEUL YEOLIN HIEUH"] },
        Codepoint { codepoint: 0x316E, name: "HANGUL LETTER MIEUM-PIEUP", aliases: &["HANGUL LETTER MIEUM BIEUB"] },
        Codepoint { codepoint: 0x316F, name: "HANGUL LETTER MIEUM-SIOS", aliases: &["HANGUL LETTER MIEUM SIOS"] },
        Codepoint { codepoint: 0x3170, name: "HANGUL LETTER MIEUM-PANSIOS", aliases: &["HANGUL LETTER BIEUB BAN CHI EUM"] },
        Codepoint { codepoint: 0x3171, name: "HANGUL LETTER KAPYEOUNMIEUM", aliases: &["HANGUL LETTER MIEUM SUN GYEONG EUM"] },
        Codepoint { codepoint: 0x3172, name: "HANGUL LETTER PIEUP-KIYEOK", aliases: &["HANGUL LETTER BIEUB GIYEOG"] },
        Codepoint { codepoint: 0x3173, name: "HANGUL LETTER PIEUP-TIKEUT", aliases: &["HANGUL LETTER BIEUB DIGEUD"] },
        Codepoint { codepoint: 0x3174, name: "HANGUL LETTER PIEUP-SIOS-KIYEOK", aliases: &["HANGUL LETTER BIEUB SIOS GIYEOG"] },
        Codepoint { codepoint: 0x3175, name: "HANGUL LETTER PIEUP-SIOS-TIKEUT", aliases: &["HANGUL LETTER BIEUB SIOS DIGEUD"] },
        Codepoint { codepoint: 0x3176, name: "HANGUL LETTER PIEUP-CIEUC", aliases: &["HANGUL LETTER BIEUB JIEUJ"] },
        Codepoint { codepoint: 0x3177, name: "HANGUL LETTER PIEUP-THIEUTH", aliases: &["HANGUL LETTER BIEUB TIEUT"] },
        Codepoint { codepoint: 0x3178, name: "HANGUL LETTER KAPYEOUNPIEUP", aliases: &["HANGUL LETTER BIEUB SUN GYEONG EUM"] },
        Codepoint { codepoint: 0x3179, name: "HANGUL LETTER KAPYEOUNSSANGPIEUP", aliases: &["HANGUL LETTER SSANG BIEUB SUN GYEONG EUM"] },
    ];
    assert(v@ =~= codepoint_table_289());
    v
}

pub open spec fn codepoint_table_290() -> Seq<Codepoint> {
    seq![
        Codepoint { codepoint: 0x317A, name: "HANGUL LETTER SIOS-KIYEOK", aliases: &["HANGUL LETTER SIOS GIYEOG"] },
        Codepoint { codepoint: 0x317B, name: "HANGUL LETTER SIOS-NIEUN", aliases: &["HANGUL LETTER SIOS NIEUN"] },
        Codepoint { codepoint: 0x317C, name: "HANGUL LETTER SIOS-TIKEUT", aliases: &["HANGUL LETTER SIOS DIGEUD"] },
        Codepoint { codepoint: 0x317D, name: "HANGUL LETTER SIOS-PIEUP", aliases: &["HANGUL LETTER SIOS BIEUB"] },
        Codepoint { codepoint: 0x317E, name: "HANGUL LETTER SIOS-CIEUC", aliases: &["HANGUL LETTER SIOS JIEUJ"] },
        Codepoint { codepoint: 0x317F, name: "HANGUL LETTER PANSIOS", aliases: &["HANGUL LETTER BAN CHI EUM"] },
        Codepoint { codepoint: 0x3180, name: "HANGUL LETTER SSANGIEUNG", aliases: &["HANGUL LETTER SSANG IEUNG"] },
        Codepoint { codepoint: 0x3181, name: "HANGUL LETTER YESIEUNG", aliases: &["HANGUL LETTER NGIEUNG"] },
        Codepoint { codepoint: 0x3182, name: "HANGUL LETTER YESIEUNG-SIOS", aliases: &["HANGUL LETTER NGIEUNG SIOS"] },
        Codepoint { codepoint: 0x3183, name: "HANGUL LETTER YESIEUNG-PANSIOS", aliases: &["HANGUL LETTER NGIEUNG BAN CHI EUM"] },
        Codepoint { codepoint: 0x3184, name: "HANGUL LETTER KAPYEOUNPHIEUPH", aliases: &["HANGUL LETTER PIEUP SUN GYEONG EUM"] },
        Codepoint { codepoint: 0x3185, name: "HANGUL LETTER SSANGHIEUH", aliases: &["HANGUL LETTER SSANG HIEUH"] },
        Codepoint { codepoint: 0x3186, name: "HANGUL LETTER YEORINHIEUH", aliases: &["HANGUL LETTER YEOLIN HIEUH"] },
        Codepoint { codepoint: 0x3187, name: "HANGUL LETTER YO-YA", aliases: &["HANGUL LETTER YOYA"] },
        Codepoint { codepoint: 0x3188, name: "HANGUL LETTER YO-YAE", aliases: &["HANGUL LETTER YOYAE"] },
        Codepoint { codepoint: 0x3189, name: "HANGUL LETTER YO-I", aliases: &["HANGUL LETTER YOI"] },
        Codepoint { codepoint: 0x318A, name: "HANGUL LETTER YU-YEO", aliases: &["HANGUL LETTER YUYEO"] },
        Codepoint { codepoint: 0x318B, name: "HANGUL LETTER YU-YE", aliases: &["HANGUL LETTER YUYE"] },
        Codepoint { codepoint: 0x318C, name: "HANGUL LETTER YU-I", aliases: &["HANGUL LETTER YUI"] },
        Codepoint { codepoint: 0x318D, name: "HANGUL LETTER ARAEA", aliases: &["HANGUL LETTER ALAE A"] },
        Codepoint { codepoint: 0x318E, name: "HANGUL LETTER ARAEAE", aliases: &["HANGUL LETTER ALAE AE"] },
        Codepoint { codepoint: 0x3190, name: "IDEOGRAPHIC ANNOTATION LINKING MARK", aliases: &["KANBUN TATETEN"] },
        Codepoint { codepoint: 0x3191, name: "IDEOGRAPHIC ANNOTATION REVERSE MARK", aliases: &["KAERITEN RE"] },
        Codepoint { codepoint: 0x3192, name: "IDEOGRAPHIC ANNOTATION ONE MARK", aliases: &["KAERITEN ITI"] },
        Codepoint { codepoint: 0x3193, name: "IDEOGRAPHIC ANNOTATION TWO MARK", aliases: &["KAERITEN NI"] },
        Codepoint { codepoint: 0x3194, name: "IDEOGRAPHIC ANNOTATION THREE MARK", aliases: &["KAERITEN SAN"] },
        Codepoint { codepoint: 0x3195, name: "IDEOGRAPHIC ANNOTATION FOUR MARK", aliases: &["KAERITEN SI"] },
        Codepoint { codepoint: 0x3196, name: "IDEOGRAPHIC ANNOTATION TOP MARK", aliases: &["KAERITEN ZYOU"] },
        Codepoint { codepoint: 0x3197, name: "IDEOGRAPHIC ANNOTATION MIDDLE MARK", aliases: &["KAERITEN TYUU"] },
        Codepoint { codepoint: 0x3198, name: "IDEOGRAPHIC ANNOTATION BOTTOM MARK", aliases: &["KAERITEN GE"] },
        Codepoint { codepoint: 0x3199, name: "IDEOGRAPHIC ANNOTATION FIRST MARK", aliases: &["KAERITEN KOU"] },
        Codepoint { codepoint: 0x319A, name: "IDEOGRAPHIC ANNOTATION SECOND MARK", aliases: &["KAERITEN OTU"] },
        Codepoint { codepoint: 0x319B, name: "IDEOGRAPHIC ANNOTATION THIRD MARK", aliases: &["KAERITEN HEI"] },
        Codepoint { codepoint: 0x319C, name: "IDEOGRAPHIC ANNOTATION FOURTH MARK", aliases: &["KAERITEN TEI"] },
        Codepoint { codepoint: 0x319D, name: "IDEOGRAPHIC ANNOTATION HEAVEN MARK", aliases: &["KAERITEN TEN"] },
        Codepoint { codepoint: 0x319E, name: "IDEOGRAPHIC ANNOTATION EARTH MARK", aliases: &["KAERITEN TI"] },
        Codepoint { codepoint: 0x319F, name: "IDEOGRAPHIC ANNOTATION MAN MARK", aliases: &["KAERITEN ZIN"] },
        Codepoint { codepoint: 0x31A0, name: "BOPOMOFO LETTER BU", aliases: &[] },
        Codepoint { codepoint: 0x31A1, name: "BOPOMOFO LETTER ZI", aliases: &[] },
        Codepoint { codepoint: 0x31A2, name: "BOPOMOFO LETTER JI", aliases: &[] },
    ]
}

fn all_codepoints_290() -> (v: Vec<Codepoint>)
    ensures
        v@ == codepoint_table_290(),
{
    let v = vec![
        Codepoint { codepoint: 0x317A, name: "HANGUL LETTER SIOS-KIYEOK", aliases: &["HANGUL LETTER SIOS GIYEOG"] },
        Codepoint { codepoint: 0x317B, name: "HANGUL LETTER SIOS-NIEUN", aliases: &["HANGUL LETTER SIOS NIEUN"] },
        Codepoint { codepoint: 0x317C, name: "HANGUL LETTER SIOS-TIKEUT", aliases: &["HANGUL LETTER SIOS DIGEUD"] },
        Codepoint { codepoint: 0x317D, name: "HANGUL LETTER SIOS-PIEUP", aliases: &["HANGUL LETTER SIOS BIEUB"] },
        Codepoint { codepoint: 0x317E, name: "HANGUL LETTER SIOS-CIEUC", aliases: &["HANGUL LETTER SIOS JIEUJ"] },
        Codepoint { codepoint: 0x317F, name: "HANGUL LETTER PANSIOS", aliases: &["HANGUL LETTER BAN CHI EUM"] },
        Codepoint { codepoint: 0x3180, name: "HANGUL LETTER SSANGIEUNG", aliases: &["HANGUL LETTER SSANG IEUNG"] },
        Codepoint { codepoint: 0x3181, name: "HANGUL LETTER YESIEUNG", aliases: &["HANGUL LETTER NGIEUNG"] },
        Codepoint { codepoint: 0x3182, name: "HANGUL LETTER YESIEUNG-SIOS", aliases: &["HANGUL LETTER NGIEUNG SIOS"] },
        Codepoint { codepoint: 0x3183, name: "HANGUL LETTER YESIEUNG-PANSIOS", aliases: &["HANGUL LETTER NGIEUNG BAN CHI EUM"] },
        Codepoint { codepoint: 0x3184, name: "HANGUL LETTER KAPYEOUNPHIEUPH", aliases: &["HANGUL LETTER PIEUP SUN GYEONG EUM"] },
        Codepoint { codepoint: 0x3185, name: "HANGUL LETTER SSANGHIEUH", aliases: &["HANGUL LETTER SSANG HIEUH"] },
        Codepoint { codepoint: 0x3186, name: "HANGUL LETTER YEORINHIEUH", aliases: &["HANGUL LETTER YEOLIN HIEUH"] },
        Codepoint { codepoint: 0x3187, name: "HANGUL LETTER YO-YA", aliases: &["HANGUL LETTER YOYA"] },
        Codepoint { codepoint: 0x3188, name: "HANGUL LETTER YO-YAE", aliases: &["HANGUL LETTER YOYAE"] },
        Codepoint { codepoint: 0x3189, name: "HANGUL LETTER YO-I", aliases: &["HANGUL LETTER YOI"] },
        Codepoint { codepoint: 0x318A, name: "HANGUL LETTER YU-YEO", aliases: &["HANGUL LETTER YUYEO"] },
        Codepoint { codepoint: 0x318B, name: "HANGUL LETTER YU-YE", aliases: &["HANGUL LETTER YUYE"] },
        Codepoint { codepoint: 0x318C, name: "HANGUL LETTER YU-I", aliases: &["HANGUL LETTER YUI"] },
        Codepoint { codepoint: 0x318D, name: "HANGUL LETTER ARAEA", aliases: &["HANGUL LETTER ALAE A"] },
        Codepoint { codepoint: 0x318E, name: "HANGUL LETTER ARAEAE", aliases: &["HANGUL LETTER ALAE AE"] },
        Codepoint { codepoint: 0x3190, name: "IDEOGRAPHIC ANNOTATION LINKING MARK", aliases: &["KANBUN TATETEN"] },
        Codepoint { codepoint: 0x3191, name: "IDEOGRAPHIC ANNOTATION REVERSE MARK", aliases: &["KAERITEN RE"] },
        Codepoint { codepoint: 0x3192, name: "IDEOGRAPHIC ANNOTATION ONE MARK", aliases: &["KAERITEN ITI"] },
        Codepoint { codepoint: 0x3193, name: "IDEOGRAPHIC ANNOTATION TWO MARK", aliases: &["KAERITEN NI"] },
        Codepoint { codepoint: 0x3194, name: "IDEOGRAPHIC ANNOTATION THREE MARK", aliases: &["KAERITEN SAN"] },
        Codepoint { codepoint: 0x3195, name: "IDEOGRAPHIC ANNOTATION FOUR MARK", aliases: &["KAERITEN SI"] },
        Codepoint { codepoint: 0x3196, name: "IDEOGRAPHIC ANNOTATION TOP MARK", aliases: &["KAERITEN ZYOU"] },
        Codepoint { codepoint: 0x3197, name: "IDEOGRAPHIC ANNOTATION MIDDLE MARK", aliases: &["KAERITEN TYUU"] },
        Codepoint { codepoint: 0x3198, name: "IDEOGRAPHIC ANNOTATION BOTTOM MARK", aliases: &["KAERITEN GE"] },
        Codepoint { codepoint: 0x3199, name: "IDEOGRAPHIC ANNOTATION FIRST MARK", aliases: &["KAERITEN KOU"] },
        Codepoint { codepoint: 0x319A, name: "IDEOGRAPHIC ANNOTATION SECOND MARK", aliases: &["KAERITEN OTU"] },
        Codepoint { codepoint: 0x319B, name: "IDEOGRAPHIC ANNOTATION THIRD MARK", aliases: &["KAERITEN HEI"] },
        Codepoint { codepoint: 0x319C, name: "IDEOGRAPHIC ANNOTATION FOURTH MARK", aliases: &["KAERITEN TEI"] },
        Codepoint { codepoint: 0x319D, name: "IDEOGRAPHIC ANNOTATION HEAVEN MARK", aliases: &["KAERITEN TEN"] },
        Codepoint { codepoint: 0x319E, name: "IDEOGRAPHIC ANNOTATION EARTH MARK", aliases: &["KAERITEN TI"] },
        Codepoint { codepoint: 0x319F, name: "IDEOGRAPHIC ANNOTATION MAN MARK", aliases: &["KAERITEN ZIN"] },
        Codepoint { codepoint: 0x31A0, name: "BOPOMOFO LETTER BU", aliases: &[] },
        Codepoint { codepoint: 0x31A1, name: "BOPOMOFO LETTER ZI", aliases: &[] },
        Codepoint { codepoint: 0x31A2, name: "BOPOMOFO LETTER JI", aliases: &[] },
    ];
    assert(v@ =~= codepoint_table_290());
    v
}

pub open spec fn codepoint_table_291() -> Seq<Codepoint> {
    seq![
        Codepoint { codepoint: 0x31A3, name: "BOPOMOFO LETTER GU", aliases: &[] },
        Codepoint { codepoint: 0x31A4, name: "BOPOMOFO LETTER EE", aliases: &[] },
        Codepoint { codepoint: 0x31A5, name: "BOPOMOFO LETTER ENN", aliases: &[] },
        Codepoint { codepoint: 0x31A6, name: "BOPOMOFO LETTER OO", aliases: &[] },
        Codepoint { codepoint: 0x31A7, name: "BOPOMOFO LETTER ONN", aliases: &[] },
        Codepoint { codepoint: 0x31A8, name: "BOPOMOFO LETTER IR", aliases: &[] },
        Codepoint { codepoint: 0x31A9, name: "BOPOMOFO LETTER ANN", aliases: &[] },
        Codepoint { codepoint: 0x31AA, name: "BOPOMOFO LETTER INN", aliases: &[] },
        Codepoint { codepoint: 0x31AB, name: "BOPOMOFO LETTER UNN", aliases: &[] },
        Codepoint { codepoint: 0x31AC, name: "BOPOMOFO LETTER IM", aliases: &[] },
        Codepoint { codepoint: 0x31AD, name: "BOPOMOFO LETTER NGG", aliases: &[] },
        Codepoint { codepoint: 0x31AE, name: "BOPOMOFO LETTER AINN", aliases: &[] },
        Codepoint { codepoint: 0x31AF, name: "BOPOMOFO LETTER AUNN", aliases: &[] },
        Codepoint { codepoint: 0x31B0, name: "BOPOMOFO LETTER AM", aliases: &[] },
        Codepoint { codepoint: 0x31B1, name: "BOPOMOFO LETTER OM", aliases: &[] },
        Codepoint { codepoint: 0x31B2, name: "BOPOMOFO LETTER ONG", aliases: &[] },
        Codepoint { codepoint: 0x31B3, name: "BOPOMOFO LETTER INNN", aliases: &[] },
        Codepoint { codepoint: 0x31B4, name: "BOPOMOFO FINAL LETTER P", aliases: &[] },
        Codepoint { codepoint: 0x31B5, name: "BOPOMOFO FINAL LETTER T", aliases: &[] },
        Codepoint { codepoint: 0x31B6, name: "BOPOMOFO FINAL LETTER K", aliases: &[] },
        Codepoint { codepoint: 0x31B7, name: "BOPOMOFO FINAL LETTER H", aliases: &[] },
        Codepoint { codepoint: 0x31B8, name: "BOPOMOFO LETTER GH", aliases: &[] },
        Codepoint { codepoint: 0x31B9, name: "BOPOMOFO LETTER LH", aliases: &[] },
        Codepoint { codepoint: 0x31BA, name: "BOPOMOFO LETTER ZY", aliases: &[] },
        Codepoint { codepoint: 0x31BB, name: "BOPOMOFO FINAL LETTER G", aliases: &[] },
        Codepoint { codepoint: 0x31BC, name: "BOPOMOFO LETTER GW", aliases: &[] },
        Codepoint { codepoint: 0x31BD, name: "BOPOMOFO LETTER KW", aliases: &[] },
        Codepoint { codepoint: 0x31BE, name: "BOPOMOFO LETTER OE", aliases: &[] },
        Codepoint { codepoint: 0x31BF, name: "BOPOMOFO LETTER AH", aliases: &[] },
        Codepoint { codepoint: 0x31C0, name: "CJK STROKE T", aliases: &[] },
        Codepoint { codepoint: 0x31C1, name: "CJK STROKE WG", aliases: &[] },
        Codepoint { codepoint: 0x31C2, name: "CJK STROKE XG", aliases: &[] },
        Codepoint { codepoint: 0x31C3, name: "CJK STROKE BXG", aliases: &[] },
        Codepoint { codepoint: 0x31C4, name: "CJK STROKE SW", aliases: &[] },
        Codepoint { codepoint: 0x31C5, name: "CJK STROKE HZZ", aliases: &[] },
        Codepoint { codepoint: 0x31C6, name: "CJK STROKE HZG", aliases: &[] },
        Codepoint { codepoint: 0x31C7, name: "CJK STROKE HP", aliases: &[] },
        Codepoint { codepoint: 0x31C8, name: "CJK STROKE HZWG", aliases: &[] },
        Codepoint { codepoint: 0x31C9, name: "CJK STROKE SZWG", aliases: &[] },
        Codepoint { codepoint: 0x31CA, name: "CJK STROKE HZT", aliases: &[] },
    ]
}

fn all_codepoints_291() -> (v: Vec<Codepoint>)
    ensures
        v@ == codepoint_table_291(),
{
    let v = vec![
        Codepoint { codepoint: 0x31A3, name: "BOPOMOFO LETTER GU", aliases: &[] },
        Codepoint { codepoint: 0x31A4, name: "BOPOMOFO LETTER EE", aliases: &[] },
        Codepoint { codepoint: 0x31A5, name: "BOPOMOFO LETTER ENN", aliases: &[] },
        Codepoint { codepoint: 0x31A6, name: "BOPOMOFO LETTER OO", aliases: &[] },
        Codepoint { codepoint: 0x31A7, name: "BOPOMOFO LETTER ONN", aliases: &[] },
        Codepoint { codepoint: 0x31A8, name: "BOPOMOFO LETTER IR", aliases: &[] },
        Codepoint { codepoint: 0x31A9, name: "BOPOMOFO LETTER ANN", aliases: &[] },
        Codepoint { codepoint: 0x31AA, name: "BOPOMOFO LETTER INN", aliases: &[] },
        Codepoint { codepoint: 0x31AB, name: "BOPOMOFO LETTER UNN", aliases: &[] },
        Codepoint { codepoint: 0x31AC, name: "BOPOMOFO LETTER IM", aliases: &[] },
        Codepoint { codepoint: 0x31AD, name: "BOPOMOFO LETTER NGG", aliases: &[] },
        Codepoint { codepoint: 0x31AE, name: "BOPOMOFO LETTER AINN", aliases: &[] },
        Codepoint { codepoint: 0x31AF, name: "BOPOMOFO LETTER AUNN", aliases: &[] },
        Codepoint { codepoint: 0x31B0, name: "BOPOMOFO LETTER AM", aliases: &[] },
        Codepoint { codepoint: 0x31B1, name: "BOPOMOFO LETTER OM", aliases: &[] },
        Codepoint { codepoint: 0x31B2, name: "BOPOMOFO LETTER ONG", aliases: &[] },
        Codepoint { codepoint: 0x31B3, name: "BOPOMOFO LETTER INNN", aliases: &[] },
        Codepoint { codepoint: 0x31B4, name: "BOPOMOFO FINAL LETTER P", aliases: &[] },
        Codepoint { codepoint: 0x31B5, name: "BOPOMOFO FINAL LETTER T", aliases: &[] },
        Codepoint { codepoint: 0x31B6, name: "BOPOMOFO FINAL LETTER K", aliases: &[] },
        Codepoint { codepoint: 0x31B7, name: "BOPOMOFO FINAL LETTER H", aliases: &[] },
        Codepoint { codepoint: 0x31B8, name: "BOPOMOFO LETTER GH", aliases: &[] },
        Codepoint { codepoint: 0x31B9, name: "BOPOMOFO LETTER LH", aliases: &[] },
        Codepoint { codepoint: 0x31BA, name: "BOPOMOFO LETTER ZY", aliases: &[] },
        Codepoint { codepoint: 0x31BB, name: "BOPOMOFO FINAL LETTER G", aliases: &[] },
        Codepoint { codepoint: 0x31BC, name: "BOPOMOFO LETTER GW", aliases: &[] },
        Codepoint { codepoint: 0x31BD, name: "BOPOMOFO LETTER KW", aliases: &[] },
        Codepoint { codepoint: 0x31BE, name: "BOPOMOFO LETTER OE", aliases: &[] },
        Codepoint { codepoint: 0x31BF, name: "BOPOMOFO LETTER AH", aliases: &[] },
        Codepoint { codepoint: 0x31C0, name: "CJK STROKE T", aliases: &[] },
        Codepoint { codepoint: 0x31C1, name: "CJK STROKE WG", aliases: &[] },
        Codepoint { codepoint: 0x31C2, name: "CJK STROKE XG", aliases: &[] },
        Codepoint { codepoint: 0x31C3, name: "CJK STROKE BXG", aliases: &[] },
        Codepoint { codepoint: 0x31C4, name: "CJK STROKE SW", aliases: &[] },
        Codepoint { codepoint: 0x31C5, name: "CJK STROKE HZZ", aliases: &[] },
        Codepoint { codepoint: 0x31C6, name: "CJK STROKE HZG", aliases: &[] },
        Codepoint { codepoint: 0x31C7, name: "CJK STROKE HP", aliases: &[] },
        Codepoint { codepoint: 0x31C8, name: "CJK STROKE HZWG", aliases: &[] },
        Codepoint { codepoint: 0x31C9, name: "CJK STROKE SZWG", aliases: &[] },
        Codepoint { codepoint: 0x31CA, name: "CJK STROKE HZT", aliases: &[] },
    ];
    assert(v@ =~= codepoint_table_291());
    v
}

pub open spec fn codepoint_table_292() -> Seq<Codepoint> {
    seq![
        Codepoint { codepoint: 0x31CB, name: "CJK STROKE HZZP", aliases: &[] },
        Codepoint { codepoint: 0x31CC, name: "CJK STROKE HPWG", aliases: &[] },
        Codepoint { codepoint: 0x31CD, name: "CJK STROKE HZW", aliases: &[] },
        Codepoint { codepoint: 0x31CE, name: "CJK STROKE HZZZ", aliases: &[] },
        Codepoint { codepoint: 0x31CF, name: "CJK STROKE N", aliases: &[] },
        Codepoint { codepoint: 0x31D0, name: "CJK STROKE H", aliases: &[] },
        Codepoint { codepoint: 0x31D1, name: "CJK STROKE S", aliases: &[] },
        Codepoint { codepoint: 0x31D2, name: "CJK STROKE P", aliases: &[] },
        Codepoint { codepoint: 0x31D3, name: "CJK STROKE SP", aliases: &[] },
        Codepoint { codepoint: 0x31D4, name: "CJK STROKE D", aliases: &[] },
        Codepoint { codepoint: 0x31D5, name: "CJK STROKE HZ", aliases: &[] },
        Codepoint { codepoint: 0x31D6, name: "CJK STROKE HG", aliases: &[] },
        Codepoint { codepoint: 0x31D7, name: "CJK STROKE SZ", aliases: &[] },
        Codepoint { codepoint: 0x31D8, name: "CJK STROKE SWZ", aliases: &[] },
        Codepoint { codepoint: 0x31D9, name: "CJK STROKE ST", aliases: &[] },
        Codepoint { codepoint: 0x31DA, name: "CJK STROKE SG", aliases: &[] },
        Codepoint { codepoint: 0x31DB, name: "CJK STROKE PD", aliases: &[] },
        Codepoint { codepoint: 0x31DC, name: "CJK STROKE PZ", aliases: &[] },
        Codepoint { codepoint: 0x31DD, name: "CJK STROKE TN", aliases: &[] },
        Codepoint { codepoint: 0x31DE, name: "CJK STROKE SZZ", aliases: &[] },
        Codepoint { codepoint: 0x31DF, name: "CJK STROKE SWG", aliases: &[] },
        Codepoint { codepoint: 0x31E0, name: "CJK STROKE HXWG", aliases: &[] },
        Codepoint { codepoint: 0x31E1, name: "CJK STROKE HZZZG", aliases: &[] },
        Codepoint { codepoint: 0x31E2, name: "CJK STROKE PG", aliases: &[] },
        Codepoint { codepoint: 0x31E3, name: "CJK STROKE Q", aliases: &[] },
        Codepoint { codepoint: 0x31F0, name: "KATAKANA LETTER SMALL KU", aliases: &[] },
        Codepoint { codepoint: 0x31F1, name: "KATAKANA LETTER SMALL SI", aliases: &[] },
        Codepoint { codepoint: 0x31F2, name: "KATAKANA LETTER SMALL SU", aliases: &[] },
        Codepoint { codepoint: 0x31F3, name: "KATAKANA LETTER SMALL TO", aliases: &[] },
        Codepoint { codepoint: 0x31F4, name: "KATAKANA LETTER SMALL NU", aliases: &[] },
        Codepoint { codepoint: 0x31F5, name: "KATAKANA LETTER SMALL HA", aliases: &[] },
        Codepoint { codepoint: 0x31F6, name: "KATAKANA LETTER SMALL HI", aliases: &[] },
        Codepoint { codepoint: 0x31F7, name: "KATAKANA LETTER SMALL HU", aliases: &[] },
        Codepoint { codepoint: 0x31F8, name: "KATAKANA LETTER SMALL HE", aliases: &[] },
        Codepoint { codepoint: 0x31F9, name: "KATAKANA LETTER SMALL HO", aliases: &[] },
        Codepoint { codepoint: 0x31FA, name: "KATAKANA LETTER SMALL MU", aliases: &[] },
        Codepoint { codepoint: 0x31FB, name: "KATAKANA LETTER SMALL RA", aliases: &[] },
        Codepoint { codepoint: 0x31FC, name: "KATAKANA LETTER SMALL RI", aliases: &[] },
        Codepoint { codepoint: 0x31FD, name: "KATAKANA LETTER SMALL RU", aliases: &[] },
        Codepoint { codepoint: 0x31FE, name: "KATAKANA LETTER SMALL RE", aliases: &[] },
    ]
}

fn all_codepoints_292() -> (v: Vec<Codepoint>)
    ensures
        v@ == codepoint_table_292(),
{
    let v = vec![
        Codepoint { codepoint: 0x31CB, name: "CJK STROKE HZZP", aliases: &[] },
        Codepoint { codepoint: 0x31CC, name: "CJK STROKE HPWG", aliases: &[] },
        Codepoint { codepoint: 0x31CD, name: "CJK STROKE HZW", aliases: &[] },
        Codepoint { codepoint: 0x31CE, name: "CJK STROKE HZZZ", aliases: &[] },
        Codepoint { codepoint: 0x31CF, name: "CJK STROKE N", aliases: &[] },
        Codepoint { codepoint: 0x31D0, name: "CJK STROKE H", aliases: &[] },
        Codepoint { codepoint: 0x31D1, name: "CJK STROKE S", aliases: &[] },
        Codepoint { codepoint: 0x31D2, name: "CJK STROKE P", aliases: &[] },
        Codepoint { codepoint: 0x31D3, name: "CJK STROKE SP", aliases: &[] },
        Codepoint { codepoint: 0x31D4, name: "CJK STROKE D", aliases: &[] },
        Codepoint { codepoint: 0x31D5, name: "CJK STROKE HZ", aliases: &[] },
        Codepoint { codepoint: 0x31D6, name: "CJK STROKE HG", aliases: &[] },
        Codepoint { codepoint: 0x31D7, name: "CJK STROKE SZ", aliases: &[] },
        Codepoint { codepoint: 0x31D8, name: "CJK STROKE SWZ", aliases: &[] },
        Codepoint { codepoint: 0x31D9, name: "CJK STROKE ST", aliases: &[] },
        Codepoint { codepoint: 0x31DA, name: "CJK STROKE SG", aliases: &[] },
        Codepoint { codepoint: 0x31DB, name: "CJK STROKE PD", aliases: &[] },
        Codepoint { codepoint: 0x31DC, name: "CJK STROKE PZ", aliases: &[] },
        Codepoint { codepoint: 0x31DD, name: "CJK STROKE TN", aliases: &[] },
        Codepoint { codepoint: 0x31DE, name: "CJK STROKE SZZ", aliases: &[] },
        Codepoint { codepoint: 0x31DF, name: "CJK STROKE SWG", aliases: &[] },
        Codepoint { codepoint: 0x31E0, name: "CJK STROKE HXWG", aliases: &[] },
        Codepoint { codepoint: 0x31E1, name: "CJK STROKE HZZZG", aliases: &[] },
        Codepoint { codepoint: 0x31E2, name: "CJK STROKE PG", aliases: &[] },
        Codepoint { codepoint: 0x31E3, name: "CJK STROKE Q", aliases: &[] },
        Codepoint { codepoint: 0x31F0, name: "KATAKANA LETTER SMALL KU", aliases: &[] },
        Codepoint { codepoint: 0x31F1, name: "KATAKANA LETTER SMALL SI", aliases: &[] },
        Codepoint { codepoint: 0x31F2, name: "KATAKANA LETTER SMALL SU", aliases: &[] },
        Codepoint { codepoint: 0x31F3, name: "KATAKANA LETTER SMALL TO", aliases: &[] },
        Codepoint { codepoint: 0x31F4, name: "KATAKANA LETTER SMALL NU", aliases: &[] },
        Codepoint { codepoint: 0x31F5, name: "KATAKANA LETTER SMALL HA", aliases: &[] },
        Codepoint { codepoint: 0x31F6, name: "KATAKANA LETTER SMALL HI", aliases: &[] },
        Codepoint { codepoint: 0x31F7, name: "KATAKANA LETTER SMALL HU", aliases: &[] },
        Codepoint { codepoint: 0x31F8, name: "KATAKANA LETTER SMALL HE", aliases: &[] },
        Codepoint { codepoint: 0x31F9, name: "KATAKANA LETTER SMALL HO", aliases: &[] },
        Codepoint { codepoint: 0x31FA, name: "KATAKANA LETTER SMALL MU", aliases: &[] },
        Codepoint { codepoint: 0x31FB, name: "KATAKANA LETTER SMALL RA", aliases: &[] },
        Codepoint { codepoint: 0x31FC, name: "KATAKANA LETTER SMALL RI", aliases: &[] },
        Codepoint { codepoint: 0x31FD, name: "KATAKANA LETTER SMALL RU", aliases: &[] },
        Codepoint { codepoint: 0x31FE, name: "KATAKANA LETTER SMALL RE", aliases: &[] },
    ];
    assert(v@ =~= codepoint_table_292());
    v
}

pub open spec fn codepoint_table_293() -> Seq<Codepoint> {
    seq![
        Codepoint { codepoint: 0x31FF, name: "KATAKANA LETTER SMALL RO", aliases: &[] },
        Codepoint { codepoint: 0x3200, name: "PARENTHESIZED HANGUL KIYEOK", aliases: &["PARENTHESIZED HANGUL GIYEOG"] },
        Codepoint { codepoint: 0x3201, name: "PARENTHESIZED HANGUL NIEUN", aliases: &[] },
        Codepoint { codepoint: 0x3202, name: "PARENTHESIZED HANGUL TIKEUT", aliases: &["PARENTHESIZED HANGUL DIGEUD"] },
        Codepoint { codepoint: 0x3203, name: "PARENTHESIZED HANGUL RIEUL", aliases: &["PARENTHESIZED HANGUL LIEUL"] },
        Codepoint { codepoint: 0x3204, name: "PARENTHESIZED HANGUL MIEUM", aliases: &[] },
        Codepoint { codepoint: 0x3205, name: "PARENTHESIZED HANGUL PIEUP", aliases: &["PARENTHESIZED HANGUL BIEUB"] },
        Codepoint { codepoint: 0x3206, name: "PARENTHESIZED HANGUL SIOS", aliases: &[] },
        Codepoint { codepoint: 0x3207, name: "PARENTHESIZED HANGUL IEUNG", aliases: &[] },
        Codepoint { codepoint: 0x3208, name: "PARENTHESIZED HANGUL CIEUC", aliases: &["PARENTHESIZED HANGUL JIEUJ"] },
        Codepoint { codepoint: 0x3209, name: "PARENTHESIZED HANGUL CHIEUCH", aliases: &["PARENTHESIZED HANGUL CIEUC"] },
        Codepoint { codepoint: 0x320A, name: "PARENTHESIZED HANGUL KHIEUKH", aliases: &["PARENTHESIZED HANGUL KIYEOK"] },
        Codepoint { codepoint: 0x320B, name: "PARENTHESIZED HANGUL THIEUTH", aliases: &["PARENTHESIZED HANGUL TIEUT"] },
        Codepoint { codepoint: 0x320C, name: "PARENTHESIZED HANGUL PHIEUPH", aliases: &["PARENTHESIZED HANGUL PIEUP"] },
        Codepoint { codepoint: 0x320D, name: "PARENTHESIZED HANGUL HIEUH", aliases: &[] },
        Codepoint { codepoint: 0x320E, name: "PARENTHESIZED HANGUL KIYEOK A", aliases: &["PARENTHESIZED HANGUL GA"] },
        Codepoint { codepoint: 0x320F, name: "PARENTHESIZED HANGUL NIEUN A", aliases: &["PARENTHESIZED HANGUL NA"] },
        Codepoint { codepoint: 0x3210, name: "PARENTHESIZED HANGUL TIKEUT A", aliases: &["PARENTHESIZED HANGUL DA"] },
        Codepoint { codepoint: 0x3211, name: "PARENTHESIZED HANGUL RIEUL A", aliases: &["PARENTHESIZED HANGUL LA"] },
        Codepoint { codepoint: 0x3212, name: "PARENTHESIZED HANGUL MIEUM A", aliases: &["PARENTHESIZED HANGUL MA"] },
        Codepoint { codepoint: 0x3213, name: "PARENTHESIZED HANGUL PIEUP A", aliases: &["PARENTHESIZED HANGUL BA"] },
        Codepoint { codepoint: 0x3214, name: "PARENTHESIZED HANGUL SIOS A", aliases: &["PARENTHESIZED HANGUL SA"] },
        Codepoint { codepoint: 0x3215, name: "PARENTHESIZED HANGUL IEUNG A", aliases: &["PARENTHESIZED HANGUL A"] },
        Codepoint { codepoint: 0x3216, name: "PARENTHESIZED HANGUL CIEUC A", aliases: &["PARENTHESIZED HANGUL JA"] },
        Codepoint { codepoint: 0x3217, name: "PARENTHESIZED HANGUL CHIEUCH A", aliases: &["PARENTHESIZED HANGUL CA"] },
        Codepoint { codepoint: 0x3218, name: "PARENTHESIZED HANGUL KHIEUKH A", aliases: &["PARENTHESIZED HANGUL KA"] },
        Codepoint { codepoint: 0x3219, name: "PARENTHESIZED HANGUL THIEUTH A", aliases: &["PARENTHESIZED HANGUL TA"] },
        Codepoint { codepoint: 0x321A, name: "PARENTHESIZED HANGUL PHIEUPH A", aliases: &["PARENTHESIZED HANGUL PA"] },
        Codepoint { codepoint: 0x321B, name: "PARENTHESIZED HANGUL HIEUH A", aliases: &["PARENTHESIZED HANGUL HA"] },
        Codepoint { codepoint: 0x321C, name: "PARENTHESIZED HANGUL CIEUC U", aliases: &["PARENTHESIZED HANGUL JU"] },
        Codepoint { codepoint: 0x321D, name: "PARENTHESIZED KOREAN CHARACTER OJEON", aliases: &[] },
        Codepoint { codepoint: 0x321E, name: "PARENTHESIZED KOREAN CHARACTER O HU", aliases: &[] },
        Codepoint { codepoint: 0x3220, name: "PARENTHESIZED IDEOGRAPH ONE", aliases: &[] },
        Codepoint { codepoint: 0x3221, name: "PARENTHESIZED IDEOGRAPH TWO", aliases: &[] },
        Codepoint { codepoint: 0x3222, name: "PARENTHESIZED IDEOGRAPH THREE", aliases: &[] },
        Codepoint { codepoint: 0x3223, name: "PARENTHESIZED IDEOGRAPH FOUR", aliases: &[] },
        Codepoint { codepoint: 0x3224, name: "PARENTHESIZED IDEOGRAPH FIVE", aliases: &[] },
        Codepoint { codepoint: 0x3225, name: "PARENTHESIZED IDEOGRAPH SIX", aliases: &[] },
        Codepoint { codepoint: 0x3226, name: "PARENTHESIZED IDEOGRAPH SEVEN", aliases: &[] },
        Codepoint { codepoint: 0x3227, name: "PARENTHESIZED IDEOGRAPH EIGHT", aliases: &[] },
    ]
}

fn all_codepoints_293() -> (v: Vec<Codepoint>)
    ensures
        v@ == codepoint_table_293(),
{
    let v = vec![
        Codepoint { codepoint: 0x31FF, name: "KATAKANA LETTER SMALL RO", aliases: &[] },
        Codepoint { codepoint: 0x3200, name: "PARENTHESIZED HANGUL KIYEOK", aliases: &["PARENTHESIZED HANGUL GIYEOG"] },
        Codepoint { codepoint: 0x3201, name: "PARENTHESIZED HANGUL NIEUN", aliases: &[] },
        Codepoint { codepoint: 0x3202, name: "PARENTHESIZED HANGUL TIKEUT", aliases: &["PARENTHESIZED HANGUL DIGEUD"] },
        Codepoint { codepoint: 0x3203, name: "PARENTHESIZED HANGUL RIEUL", aliases: &["PARENTHESIZED HANGUL LIEUL"] },
        Codepoint { codepoint: 0x3204, name: "PARENTHESIZED HANGUL MIEUM", aliases: &[] },
        Codepoint { codepoint: 0x3205, name: "PARENTHESIZED HANGUL PIEUP", aliases: &["PARENTHESIZED HANGUL BIEUB"] },
        Codepoint { codepoint: 0x3206, name: "PARENTHESIZED HANGUL SIOS", aliases: &[] },
        Codepoint { codepoint: 0x3207, name: "PARENTHESIZED HANGUL IEUNG", aliases: &[] },
        Codepoint { codepoint: 0x3208, name: "PARENTHESIZED HANGUL CIEUC", aliases: &["PARENTHESIZED HANGUL JIEUJ"] },
        Codepoint { codepoint: 0x3209, name: "PARENTHESIZED HANGUL CHIEUCH", aliases: &["PARENTHESIZED HANGUL CIEUC"] },
        Codepoint { codepoint: 0x320A, name: "PARENTHESIZED HANGUL KHIEUKH", aliases: &["PARENTHESIZED HANGUL KIYEOK"] },
        Codepoint { codepoint: 0x320B, name: "PARENTHESIZED HANGUL THIEUTH", aliases: &["PARENTHESIZED HANGUL TIEUT"] },
        Codepoint { codepoint: 0x320C, name: "PARENTHESIZED HANGUL PHIEUPH", aliases: &["PARENTHESIZED HANGUL PIEUP"] },
        Codepoint { codepoint: 0x320D, name: "PARENTHESIZED HANGUL HIEUH", aliases: &[] },
        Codepoint { codepoint: 0x320E, name: "PARENTHESIZED HANGUL KIYEOK A", aliases: &["PARENTHESIZED HANGUL GA"] },
        Codepoint { codepoint: 0x320F, name: "PARENTHESIZED HANGUL NIEUN A", aliases: &["PARENTHESIZED HANGUL NA"] },
        Codepoint { codepoint: 0x3210, name: "PARENTHESIZED HANGUL TIKEUT A", aliases: &["PARENTHESIZED HANGUL DA"] },
        Codepoint { codepoint: 0x3211, name: "PARENTHESIZED HANGUL RIEUL A", aliases: &["PARENTHESIZED HANGUL LA"] },
        Codepoint { codepoint: 0x3212, name: "PARENTHESIZED HANGUL MIEUM A", aliases: &["PARENTHESIZED HANGUL MA"] },
        Codepoint { codepoint: 0x3213, name: "PARENTHESIZED HANGUL PIEUP A", aliases: &["PARENTHESIZED HANGUL BA"] },
        Codepoint { codepoint: 0x3214, name: "PARENTHESIZED HANGUL SIOS A", aliases: &["PARENTHESIZED HANGUL SA"] },
        Codepoint { codepoint: 0x3215, name: "PARENTHESIZED HANGUL IEUNG A", aliases: &["PARENTHESIZED HANGUL A"] },
        Codepoint { codepoint: 0x3216, name: "PARENTHESIZED HANGUL CIEUC A", aliases: &["PARENTHESIZED HANGUL JA"] },
        Codepoint { codepoint: 0x3217, name: "PARENTHESIZED HANGUL CHIEUCH A", aliases: &["PARENTHESIZED HANGUL CA"] },
        Codepoint { codepoint: 0x3218, name: "PARENTHESIZED HANGUL KHIEUKH A", aliases: &["PARENTHESIZED HANGUL KA"] },
        Codepoint { codepoint: 0x3219, name: "PARENTHESIZED HANGUL THIEUTH A", aliases: &["PARENTHESIZED HANGUL TA"] },
        Codepoint { codepoint: 0x321A, name: "PARENTHESIZED HANGUL PHIEUPH A", aliases: &["PARENTHESIZED HANGUL PA"] },
        Codepoint { codepoint: 0x321B, name: "PARENTHESIZED HANGUL HIEUH A", aliases: &["PARENTHESIZED HANGUL HA"] },
        Codepoint { codepoint: 0x321C, name: "PARENTHESIZED HANGUL CIEUC U", aliases: &["PARENTHESIZED HANGUL JU"] },
        Codepoint { codepoint: 0x321D, name: "PARENTHESIZED KOREAN CHARACTER OJEON", aliases: &[] },
        Codepoint { codepoint: 0x321E, name: "PARENTHESIZED KOREAN CHARACTER O HU", aliases: &[] },
        Codepoint { codepoint: 0x3220, name: "PARENTHESIZED IDEOGRAPH ONE", aliases: &[] },
        Codepoint { codepoint: 0x3221, name: "PARENTHESIZED IDEOGRAPH TWO", aliases: &[] },
        Codepoint { codepoint: 0x3222, name: "PARENTHESIZED IDEOGRAPH THREE", aliases: &[] },
        Codepoint { codepoint: 0x3223, name: "PARENTHESIZED IDEOGRAPH FOUR", aliases: &[] },
        Codepoint { codepoint: 0x3224, name: "PARENTHESIZED IDEOGRAPH FIVE", aliases: &[] },
        Codepoint { codepoint: 0x3225, name: "PARENTHESIZED IDEOGRAPH SIX", aliases: &[] },
        Codepoint { codepoint: 0x3226, name: "PARENTHESIZED IDEOGRAPH SEVEN", aliases: &[] },
        Codepoint { codepoint: 0x3227, name: "PARENTHESIZED IDEOGRAPH EIGHT", aliases: &[] },
    ];
    assert(v@ =~= codepoint_table_293());
    v
}

pub open spec fn codepoint_table_294() -> Seq<Codepoint> {
    seq![
        Codepoint { codepoint: 0x3228, name: "PARENTHESIZED IDEOGRAPH NINE", aliases: &[] },
        Codepoint { codepoint: 0x3229, name: "PARENTHESIZED IDEOGRAPH TEN", aliases: &[] },
        Codepoint { codepoint: 0x322A, name: "PARENTHESIZED IDEOGRAPH MOON", aliases: &[] },
        Codepoint { codepoint: 0x322B, name: "PARENTHESIZED IDEOGRAPH FIRE", aliases: &[] },
        Codepoint { codepoint: 0x322C, name: "PARENTHESIZED IDEOGRAPH WATER", aliases: &[] },
        Codepoint { codepoint: 0x322D, name: "PARENTHESIZED IDEOGRAPH WOOD", aliases: &[] },
        Codepoint { codepoint: 0x322E, name: "PARENTHESIZED IDEOGRAPH METAL", aliases: &[] },
        Codepoint { codepoint: 0x322F, name: "PARENTHESIZED IDEOGRAPH EARTH", aliases: &[] },
        Codepoint { codepoint: 0x3230, name: "PARENTHESIZED IDEOGRAPH SUN", aliases: &[] },
        Codepoint { codepoint: 0x3231, name: "PARENTHESIZED IDEOGRAPH STOCK", aliases: &[] },
        Codepoint { codepoint: 0x3232, name: "PARENTHESIZED IDEOGRAPH HAVE", aliases: &[] },
        Codepoint { codepoint: 0x3233, name: "PARENTHESIZED IDEOGRAPH SOCIETY", aliases: &[] },
        Codepoint { codepoint: 0x3234, name: "PARENTHESIZED IDEOGRAPH NAME", aliases: &[] },
        Codepoint { codepoint: 0x3235, name: "PARENTHESIZED IDEOGRAPH SPECIAL", aliases: &[] },
        Codepoint { codepoint: 0x3236, name: "PARENTHESIZED IDEOGRAPH FINANCIAL", aliases: &[] },
        Codepoint { codepoint: 0x3237, name: "PARENTHESIZED IDEOGRAPH CONGRATULATION", aliases: &[] },
        Codepoint { codepoint: 0x3238, name: "PARENTHESIZED IDEOGRAPH LABOR", aliases: &[] },
        Codepoint { codepoint: 0x3239, name: "PARENTHESIZED IDEOGRAPH REPRESENT", aliases: &[] },
        Codepoint { codepoint: 0x323A, name: "PARENTHESIZED IDEOGRAPH CALL", aliases: &[] },
        Codepoint { codepoint: 0x323B, name: "PARENTHESIZED IDEOGRAPH STUDY", aliases: &[] },
        Codepoint { codepoint: 0x323C, name: "PARENTHESIZED IDEOGRAPH SUPERVISE", aliases: &[] },
        Codepoint { codepoint: 0x323D, name: "PARENTHESIZED IDEOGRAPH ENTERPRISE", aliases: &[] },
        Codepoint { codepoint: 0x323E, name: "PARENTHESIZED IDEOGRAPH RESOURCE", aliases: &[] },
        Codepoint { codepoint: 0x323F, name: "PARENTHESIZED IDEOGRAPH ALLIANCE", aliases: &[] },
        Codepoint { codepoint: 0x3240, name: "PARENTHESIZED IDEOGRAPH FESTIVAL", aliases: &[] },
        Codepoint { codepoint: 0x3241, name: "PARENTHESIZED IDEOGRAPH REST", aliases: &[] },
        Codepoint { codepoint: 0x3242, name: "PARENTHESIZED IDEOGRAPH SELF", aliases: &[] },
        Codepoint { codepoint: 0x3243, name: "PARENTHESIZED IDEOGRAPH REACH", aliases: &[] },
        Codepoint { codepoint: 0x3244, name: "CIRCLED IDEOGRAPH QUESTION", aliases: &[] },
        Codepoint { codepoint: 0x3245, name: "CIRCLED IDEOGRAPH KINDERGARTEN", aliases: &[] },
        Codepoint { codepoint: 0x3246, name: "CIRCLED IDEOGRAPH SCHOOL", aliases: &[] },
        Codepoint { codepoint: 0x3247, name: "CIRCLED IDEOGRAPH KOTO", aliases: &[] },
        Codepoint { codepoint: 0x3248, name: "CIRCLED NUMBER TEN ON BLACK SQUARE", aliases: &[] },
        Codepoint { codepoint: 0x3249, name: "CIRCLED NUMBER TWENTY ON BLACK SQUARE", aliases: &[] },
        Codepoint { codepoint: 0x324A, name: "CIRCLED NUMBER THIRTY ON BLACK SQUARE", aliases: &[] },
        Codepoint { codepoint: 0x324B, name: "CIRCLED NUMBER FORTY ON BLACK SQUARE", aliases: &[] },
        Codepoint { codepoint: 0x324C, name: "CIRCLED NUMBER FIFTY ON BLACK SQUARE", aliases: &[] },
        Codepoint { codepoint: 0x324D, name: "CIRCLED NUMBER SIXTY ON BLACK SQUARE", aliases: &[] },
        Codepoint { codepoint: 0x324E, name: "CIRCLED NUMBER SEVENTY ON BLACK SQUARE", aliases: &[] },
        Codepoint { codepoint: 0x324F, name: "CIRCLED NUMBER EIGHTY ON BLACK SQUARE", aliases: &[] },
    ]
}

fn all_codepoints_294() -> (v: Vec<Codepoint>)
    ensures
        v@ == codepoint_table_294(),
{
    let v = vec![
        Codepoint { codepoint: 0x3228, name: "PARENTHESIZED IDEOGRAPH NINE", aliases: &[] },
        Codepoint { codepoint: 0x3229, name: "PARENTHESIZED IDEOGRAPH TEN", aliases: &[] },
        Codepoint { codepoint: 0x322A, name: "PARENTHESIZED IDEOGRAPH MOON", aliases: &[] },
        Codepoint { codepoint: 0x322B, name: "PARENTHESIZED IDEOGRAPH FIRE", aliases: &[] },
        Codepoint { codepoint: 0x322C, name: "PARENTHESIZED IDEOGRAPH WATER", aliases: &[] },
        Codepoint { codepoint: 0x322D, name: "PARENTHESIZED IDEOGRAPH WOOD", aliases: &[] },
        Codepoint { codepoint: 0x322E, name: "PARENTHESIZED IDEOGRAPH METAL", aliases: &[] },
        Codepoint { codepoint: 0x322F, name: "PARENTHESIZED IDEOGRAPH EARTH", aliases: &[] },
        Codepoint { codepoint: 0x3230, name: "PARENTHESIZED IDEOGRAPH SUN", aliases: &[] },
        Codepoint { codepoint: 0x3231, name: "PARENTHESIZED IDEOGRAPH STOCK", aliases: &[] },
        Codepoint { codepoint: 0x3232, name: "PARENTHESIZED IDEOGRAPH HAVE", aliases: &[] },
        Codepoint { codepoint: 0x3233, name: "PARENTHESIZED IDEOGRAPH SOCIETY", aliases: &[] },
        Codepoint { codepoint: 0x3234, name: "PARENTHESIZED IDEOGRAPH NAME", aliases: &[] },
        Codepoint { codepoint: 0x3235, name: "PARENTHESIZED IDEOGRAPH SPECIAL", aliases: &[] },
        Codepoint { codepoint: 0x3236, name: "PARENTHESIZED IDEOGRAPH FINANCIAL", aliases: &[] },
        Codepoint { codepoint: 0x3237, name: "PARENTHESIZED IDEOGRAPH CONGRATULATION", aliases: &[] },
        Codepoint { codepoint: 0x3238, name: "PARENTHESIZED IDEOGRAPH LABOR", aliases: &[] },
        Codepoint { codepoint: 0x3239, name: "PARENTHESIZED IDEOGRAPH REPRESENT", aliases: &[] },
        Codepoint { codepoint: 0x323A, name: "PARENTHESIZED IDEOGRAPH CALL", aliases: &[] },
        Codepoint { codepoint: 0x323B, name: "PARENTHESIZED IDEOGRAPH STUDY", aliases: &[] },
        Codepoint { codepoint: 0x323C, name: "PARENTHESIZED IDEOGRAPH SUPERVISE", aliases: &[] },
        Codepoint { codepoint: 0x323D, name: "PARENTHESIZED IDEOGRAPH ENTERPRISE", aliases: &[] },
        Codepoint { codepoint: 0x323E, name: "PARENTHESIZED IDEOGRAPH RESOURCE", aliases: &[] },
        Codepoint { codepoint: 0x323F, name: "PARENTHESIZED IDEOGRAPH ALLIANCE", aliases: &[] },
        Codepoint { codepoint: 0x3240, name: "PARENTHESIZED IDEOGRAPH FESTIVAL", aliases: &[] },
        Codepoint { codepoint: 0x3241, name: "PARENTHESIZED IDEOGRAPH REST", aliases: &[] },
        Codepoint { codepoint: 0x3242, name: "PARENTHESIZED IDEOGRAPH SELF", aliases: &[] },
        Codepoint { codepoint: 0x3243, name: "PARENTHESIZED IDEOGRAPH REACH", aliases: &[] },
        Codepoint { codepoint: 0x3244, name: "CIRCLED IDEOGRAPH QUESTION", aliases: &[] },
        Codepoint { codepoint: 0x3245, name: "CIRCLED IDEOGRAPH KINDERGARTEN", aliases: &[] },
        Codepoint { codepoint: 0x3246, name: "CIRCLED IDEOGRAPH SCHOOL", aliases: &[] },
        Codepoint { codepoint: 0x3247, name: "CIRCLED IDEOGRAPH KOTO", aliases: &[] },
        Codepoint { codepoint: 0x3248, name: "CIRCLED NUMBER TEN ON BLACK SQUARE", aliases: &[] },
        Codepoint { codepoint: 0x3249, name: "CIRCLED NUMBER TWENTY ON BLACK SQUARE", aliases: &[] },
        Codepoint { codepoint: 0x324A, name: "CIRCLED NUMBER THIRTY ON BLACK SQUARE", aliases: &[] },
        Codepoint { codepoint: 0x324B, name: "CIRCLED NUMBER FORTY ON BLACK SQUARE", aliases: &[] },
        Codepoint { codepoint: 0x324C, name: "CIRCLED NUMBER FIFTY ON BLACK SQUARE", aliases: &[] },
        Codepoint { codepoint: 0x324D, name: "CIRCLED NUMBER SIXTY ON BLACK SQUARE", aliases: &[] },
        Codepoint { codepoint: 0x324E, name: "CIRCLED NUMBER SEVENTY ON BLACK SQUARE", aliases: &[] },
        Codepoint { codepoint: 0x324F, name: "CIRCLED NUMBER EIGHTY ON BLACK SQUARE", aliases: &[] },
    ];
    assert(v@ =~= codepoint_table_294());
    v
}

pub open spec fn codepoint_table_295() -> Seq<Codepoint> {
    seq![
        Codepoint { codepoint: 0x3250, name: "PARTNERSHIP SIGN", aliases: &[] },
        Codepoint { codepoint: 0x3251, name: "CIRCLED NUMBER TWENTY ONE", aliases: &[] },
        Codepoint { codepoint: 0x3252, name: "CIRCLED NUMBER TWENTY TWO", aliases: &[] },
        Codepoint { codepoint: 0x3253, name: "CIRCLED NUMBER TWENTY THREE", aliases: &[] },
        Codepoint { codepoint: 0x3254, name: "CIRCLED NUMBER TWENTY FOUR", aliases: &[] },
        Codepoint { codepoint: 0x3255, name: "CIRCLED NUMBER TWENTY FIVE", aliases: &[] },
        Codepoint { codepoint: 0x3256, name: "CIRCLED NUMBER TWENTY SIX", aliases: &[] },
        Codepoint { codepoint: 0x3257, name: "CIRCLED NUMBER TWENTY SEVEN", aliases: &[] },
        Codepoint { codepoint: 0x3258, name: "CIRCLED NUMBER TWENTY EIGHT", aliases: &[] },
        Codepoint { codepoint: 0x3259, name: "CIRCLED NUMBER TWENTY NINE", aliases: &[] },
        Codepoint { codepoint: 0x325A, name: "CIRCLED NUMBER THIRTY", aliases: &[] },
        Codepoint { codepoint: 0x325B, name: "CIRCLED NUMBER THIRTY ONE", aliases: &[] },
        Codepoint { codepoint: 0x325C, name: "CIRCLED NUMBER THIRTY TWO", aliases: &[] },
        Codepoint { codepoint: 0x325D, name: "CIRCLED NUMBER THIRTY THREE", aliases: &[] },
        Codepoint { codepoint: 0x325E, name: "CIRCLED NUMBER THIRTY FOUR", aliases: &[] },
        Codepoint { codepoint: 0x325F, name: "CIRCLED NUMBER THIRTY FIVE", aliases: &[] },
        Codepoint { codepoint: 0x3260, name: "CIRCLED HANGUL KIYEOK", aliases: &["CIRCLED HANGUL GIYEOG"] },
        Codepoint { codepoint: 0x3261, name: "CIRCLED HANGUL NIEUN", aliases: &[] },
        Codepoint { codepoint: 0x3262, name: "CIRCLED HANGUL TIKEUT", aliases: &["CIRCLED HANGUL DIGEUD"] },
        Codepoint { codepoint: 0x3263, name: "CIRCLED HANGUL RIEUL", aliases: &["CIRCLED HANGUL LIEUL"] },
        Codepoint { codepoint: 0x3264, name: "CIRCLED HANGUL MIEUM", aliases: &[] },
        Codepoint { codepoint: 0x3265, name: "CIRCLED HANGUL PIEUP", aliases: &["CIRCLED HANGUL BIEUB"] },
        Codepoint { codepoint: 0x3266, name: "CIRCLED HANGUL SIOS", aliases: &[] },
        Codepoint { codepoint: 0x3267, name: "CIRCLED HANGUL IEUNG", aliases: &[] },
        Codepoint { codepoint: 0x3268, name: "CIRCLED HANGUL CIEUC", aliases: &["CIRCLED HANGUL JIEUJ"] },
        Codepoint { codepoint: 0x3269, name: "CIRCLED HANGUL CHIEUCH", aliases: &["CIRCLED HANGUL CIEUC"] },
        Codepoint { codepoint: 0x326A, name: "CIRCLED HANGUL KHIEUKH", aliases: &["CIRCLED HANGUL KIYEOK"] },
        Codepoint { codepoint: 0x326B, name: "CIRCLED HANGUL THIEUTH", aliases: &["CIRCLED HANGUL TIEUT"] },
        Codepoint { codepoint: 0x326C, name: "CIRCLED HANGUL PHIEUPH", aliases: &["CIRCLED HANGUL PIEUP"] },
        Codepoint { codepoint: 0x326D, name: "CIRCLED HANGUL HIEUH", aliases: &[] },
        Codepoint { codepoint: 0x326E, name: "CIRCLED HANGUL KIYEOK A", aliases: &["CIRCLED HANGUL GA"] },
        Codepoint { codepoint: 0x326F, name: "CIRCLED HANGUL NIEUN A", aliases: &["CIRCLED HANGUL NA"] },
        Codepoint { codepoint: 0x3270, name: "CIRCLED HANGUL TIKEUT A", aliases: &["CIRCLED HANGUL DA"] },
        Codepoint { codepoint: 0x3271, name: "CIRCLED HANGUL RIEUL A", aliases: &["CIRCLED HANGUL LA"] },
        Codepoint { codepoint: 0x3272, name: "CIRCLED HANGUL MIEUM A", aliases: &["CIRCLED HANGUL MA"] },
        Codepoint { codepoint: 0x3273, name: "CIRCLED HANGUL PIEUP A", aliases: &["CIRCLED HANGUL BA"] },
        Codepoint { codepoint: 0x3274, name: "CIRCLED HANGUL SIOS A", aliases: &["CIRCLED HANGUL SA"] },
        Codepoint { codepoint: 0x3275, name: "CIRCLED HANGUL IEUNG A", aliases: &["CIRCLED HANGUL A"] },
        Codepoint { codepoint: 0x3276, name: "CIRCLED HANGUL CIEUC A", aliases: &["CIRCLED HANGUL JA"] },
        Codepoint { codepoint: 0x3277, name: "CIRCLED HANGUL CHIEUCH A", aliases: &["CIRCLED HANGUL CA"] },
    ]
}

fn all_codepoints_295() -> (v: Vec<Codepoint>)
    ensures
        v@ == codepoint_table_295(),
{
    let v = vec![
        Codepoint { codepoint: 0x3250, name: "PARTNERSHIP SIGN", aliases: &[] },
        Codepoint { codepoint: 0x3251, name: "CIRCLED NUMBER TWENTY ONE", aliases: &[] },
        Codepoint { codepoint: 0x3252, name: "CIRCLED NUMBER TWENTY TWO", aliases: &[] },
        Codepoint { codepoint: 0x3253, name: "CIRCLED NUMBER TWENTY THREE", aliases: &[] },
        Codepoint { codepoint: 0x3254, name: "CIRCLED NUMBER TWENTY FOUR", aliases: &[] },
        Codepoint { codepoint: 0x3255, name: "CIRCLED NUMBER TWENTY FIVE", aliases: &[] },
        Codepoint { codepoint: 0x3256, name: "CIRCLED NUMBER TWENTY SIX", aliases: &[] },
        Codepoint { codepoint: 0x3257, name: "CIRCLED NUMBER TWENTY SEVEN", aliases: &[] },
        Codepoint { codepoint: 0x3258, name: "CIRCLED NUMBER TWENTY EIGHT", aliases: &[] },
        Codepoint { codepoint: 0x3259, name: "CIRCLED NUMBER TWENTY NINE", aliases: &[] },
        Codepoint { codepoint: 0x325A, name: "CIRCLED NUMBER THIRTY", aliases: &[] },
        Codepoint { codepoint: 0x325B, name: "CIRCLED NUMBER THIRTY ONE", aliases: &[] },
        Codepoint { codepoint: 0x325C, name: "CIRCLED NUMBER THIRTY TWO", aliases: &[] },
        Codepoint { codepoint: 0x325D, name: "CIRCLED NUMBER THIRTY THREE", aliases: &[] },
        Codepoint { codepoint: 0x325E, name: "CIRCLED NUMBER THIRTY FOUR", aliases: &[] },
        Codepoint { codepoint: 0x325F, name: "CIRCLED NUMBER THIRTY FIVE", aliases: &[] },
        Codepoint { codepoint: 0x3260, name: "CIRCLED HANGUL KIYEOK", aliases: &["CIRCLED HANGUL GIYEOG"] },
        Codepoint { codepoint: 0x3261, name: "CIRCLED HANGUL NIEUN", aliases: &[] },
        Codepoint { codepoint: 0x3262, name: "CIRCLED HANGUL TIKEUT", aliases: &["CIRCLED HANGUL DIGEUD"] },
        Codepoint { codepoint: 0x3263, name: "CIRCLED HANGUL RIEUL", aliases: &["CIRCLED HANGUL LIEUL"] },
        Codepoint { codepoint: 0x3264, name: "CIRCLED HANGUL MIEUM", aliases: &[] },
        Codepoint { codepoint: 0x3265, name: "CIRCLED HANGUL PIEUP", aliases: &["CIRCLED HANGUL BIEUB"] },
        Codepoint { codepoint: 0x3266, name: "CIRCLED HANGUL SIOS", aliases: &[] },
        Codepoint { codepoint: 0x3267, name: "CIRCLED HANGUL IEUNG", aliases: &[] },
        Codepoint { codepoint: 0x3268, name: "CIRCLED HANGUL CIEUC", aliases: &["CIRCLED HANGUL JIEUJ"] },
        Codepoint { codepoint: 0x3269, name: "CIRCLED HANGUL CHIEUCH", aliases: &["CIRCLED HANGUL CIEUC"] },
        Codepoint { codepoint: 0x326A, name: "CIRCLED HANGUL KHIEUKH", aliases: &["CIRCLED HANGUL KIYEOK"] },
        Codepoint { codepoint: 0x326B, name: "CIRCLED HANGUL THIEUTH", aliases: &["CIRCLED HANGUL TIEUT"] },
        Codepoint { codepoint: 0x326C, name: "CIRCLED HANGUL PHIEUPH", aliases: &["CIRCLED HANGUL PIEUP"] },
        Codepoint { codepoint: 0x326D, name: "CIRCLED HANGUL HIEUH", aliases: &[] },
        Codepoint { codepoint: 0x326E, name: "CIRCLED HANGUL KIYEOK A", aliases: &["CIRCLED HANGUL GA"] },
        Codepoint { codepoint: 0x326F, name: "CIRCLED HANGUL NIEUN A", aliases: &["CIRCLED HANGUL NA"] },
        Codepoint { codepoint: 0x3270, name: "CIRCLED HANGUL TIKEUT A", aliases: &["CIRCLED HANGUL DA"] },
        Codepoint { codepoint: 0x3271, name: "CIRCLED HANGUL RIEUL A", aliases: &["CIRCLED HANGUL LA"] },
        Codepoint { codepoint: 0x3272, name: "CIRCLED HANGUL MIEUM A", aliases: &["CIRCLED HANGUL MA"] },
        Codepoint { codepoint: 0x3273, name: "CIRCLED HANGUL PIEUP A", aliases: &["CIRCLED HANGUL BA"] },
        Codepoint { codepoint: 0x3274, name: "CIRCLED HANGUL SIOS A", aliases: &["CIRCLED HANGUL SA"] },
        Codepoint { codepoint: 0x3275, name: "CIRCLED HANGUL IEUNG A", aliases: &["CIRCLED HANGUL A"] },
        Codepoint { codepoint: 0x3276, name: "CIRCLED HANGUL CIEUC A", aliases: &["CIRCLED HANGUL JA"] },
        Codepoint { codepoint: 0x3277, name: "CIRCLED HANGUL CHIEUCH A", aliases: &["CIRCLED HANGUL CA"] },
    ];
    assert(v@ =~= codepoint_table_295());
    v
}

pub open spec fn codepoint_table_296() -> Seq<Codepoint> {
    seq![
        Codepoint { codepoint: 0x3278, name: "CIRCLED HANGUL KHIEUKH A", aliases: &["CIRCLED HANGUL KA"] },
        Codepoint { codepoint: 0x3279, name: "CIRCLED HANGUL THIEUTH A", aliases: &["CIRCLED HANGUL TA"] },
        Codepoint { codepoint: 0x327A, name: "CIRCLED HANGUL PHIEUPH A", aliases: &["CIRCLED HANGUL PA"] },
        Codepoint { codepoint: 0x327B, name: "CIRCLED HANGUL HIEUH A", aliases: &["CIRCLED HANGUL HA"] },
        Codepoint { codepoint: 0x327C, name: "CIRCLED KOREAN CHARACTER CHAMKO", aliases: &[] },
        Codepoint { codepoint: 0x327D, name: "CIRCLED KOREAN CHARACTER JUEUI", aliases: &[] },
        Codepoint { codepoint: 0x327E, name: "CIRCLED HANGUL IEUNG U", aliases: &[] },
        Codepoint { codepoint: 0x327F, name: "KOREAN STANDARD SYMBOL", aliases: &[] },
        Codepoint { codepoint: 0x3280, name: "CIRCLED IDEOGRAPH ONE", aliases: &[] },
        Codepoint { codepoint: 0x3281, name: "CIRCLED IDEOGRAPH TWO", aliases: &[] },
        Codepoint { codepoint: 0x3282, name: "CIRCLED IDEOGRAPH THREE", aliases: &[] },
        Codepoint { codepoint: 0x3283, name: "CIRCLED IDEOGRAPH FOUR", aliases: &[] },
        Codepoint { codepoint: 0x3284, name: "CIRCLED IDEOGRAPH FIVE", aliases: &[] },
        Codepoint { codepoint: 0x3285, name: "CIRCLED IDEOGRAPH SIX", aliases: &[] },
        Codepoint { codepoint: 0x3286, name: "CIRCLED IDEOGRAPH SEVEN", aliases: &[] },
        Codepoint { codepoint: 0x3287, name: "CIRCLED IDEOGRAPH EIGHT", aliases: &[] },
        Codepoint { codepoint: 0x3288, name: "CIRCLED IDEOGRAPH NINE", aliases: &[] },
        Codepoint { codepoint: 0x3289, name: "CIRCLED IDEOGRAPH TEN", aliases: &[] },
        Codepoint { codepoint: 0x328A, name: "CIRCLED IDEOGRAPH MOON", aliases: &[] },
        Codepoint { codepoint: 0x328B, name: "CIRCLED IDEOGRAPH FIRE", aliases: &[] },
        Codepoint { codepoint: 0x328C, name: "CIRCLED IDEOGRAPH WATER", aliases: &[] },
        Codepoint { codepoint: 0x328D, name: "CIRCLED IDEOGRAPH WOOD", aliases: &[] },
        Codepoint { codepoint: 0x328E, name: "CIRCLED IDEOGRAPH METAL", aliases: &[] },
        Codepoint { codepoint: 0x328F, name: "CIRCLED IDEOGRAPH EARTH", aliases: &[] },
        Codepoint { codepoint: 0x3290, name: "CIRCLED IDEOGRAPH SUN", aliases: &[] },
        Codepoint { codepoint: 0x3291, name: "CIRCLED IDEOGRAPH STOCK", aliases: &[] },
        Codepoint { codepoint: 0x3292, name: "CIRCLED IDEOGRAPH HAVE", aliases: &[] },
        Codepoint { codepoint: 0x3293, name: "CIRCLED IDEOGRAPH SOCIETY", aliases: &[] },
        Codepoint { codepoint: 0x3294, name: "CIRCLED IDEOGRAPH NAME", aliases: &[] },
        Codepoint { codepoint: 0x3295, name: "CIRCLED IDEOGRAPH SPECIAL", aliases: &[] },
        Codepoint { codepoint: 0x3296, name: "CIRCLED IDEOGRAPH FINANCIAL", aliases: &[] },
        Codepoint { codepoint: 0x3297, name: "CIRCLED IDEOGRAPH CONGRATULATION", aliases: &[] },
        Codepoint { codepoint: 0x3298, name: "CIRCLED IDEOGRAPH LABOR", aliases: &[] },
        Codepoint { codepoint: 0x3299, name: "CIRCLED IDEOGRAPH SECRET", aliases: &[] },
        Codepoint { codepoint: 0x329A, name: "CIRCLED IDEOGRAPH MALE", aliases: &[] },
        Codepoint { codepoint: 0x329B, name: "CIRCLED IDEOGRAPH FEMALE", aliases: &[] },
        Codepoint { codepoint: 0x329C, name: "CIRCLED IDEOGRAPH SUITABLE", aliases: &[] },
        Codepoint { codepoint: 0x329D, name: "CIRCLED IDEOGRAPH EXCELLENT", aliases: &[] },
        Codepoint { codepoint: 0x329E, name: "CIRCLED IDEOGRAPH PRINT", aliases: &[] },
        Codepoint { codepoint: 0x329F, name: "CIRCLED IDEOGRAPH ATTENTION", aliases: &[] },
    ]
}

fn all_codepoints_296() -> (v: Vec<Codepoint>)
    ensures
        v@ == codepoint_table_296(),
{
    let v = vec![
        Codepoint { codepoint: 0x3278, name: "CIRCLED HANGUL KHIEUKH A", aliases: &["CIRCLED HANGUL KA"] },
        Codepoint { codepoint: 0x3279, name: "CIRCLED HANGUL THIEUTH A", aliases: &["CIRCLED HANGUL TA"] },
        Codepoint { codepoint: 0x327A, name: "CIRCLED HANGUL PHIEUPH A", aliases: &["CIRCLED HANGUL PA"] },
        Codepoint { codepoint: 0x327B, name: "CIRCLED HANGUL HIEUH A", aliases: &["CIRCLED HANGUL HA"] },
        Codepoint { codepoint: 0x327C, name: "CIRCLED KOREAN CHARACTER CHAMKO", aliases: &[] },
        Codepoint { codepoint: 0x327D, name: "CIRCLED KOREAN CHARACTER JUEUI", aliases: &[] },
        Codepoint { codepoint: 0x327E, name: "CIRCLED HANGUL IEUNG U", aliases: &[] },
        Codepoint { codepoint: 0x327F, name: "KOREAN STANDARD SYMBOL", aliases: &[] },
        Codepoint { codepoint: 0x3280, name: "CIRCLED IDEOGRAPH ONE", aliases: &[] },
        Codepoint { codepoint: 0x3281, name: "CIRCLED IDEOGRAPH TWO", aliases: &[] },
        Codepoint { codepoint: 0x3282, name: "CIRCLED IDEOGRAPH THREE", aliases: &[] },
        Codepoint { codepoint: 0x3283, name: "CIRCLED IDEOGRAPH FOUR", aliases: &[] },
        Codepoint { codepoint: 0x3284, name: "CIRCLED IDEOGRAPH FIVE", aliases: &[] },
        Codepoint { codepoint: 0x3285, name: "CIRCLED IDEOGRAPH SIX", aliases: &[] },
        Codepoint { codepoint: 0x3286, name: "CIRCLED IDEOGRAPH SEVEN", aliases: &[] },
        Codepoint { codepoint: 0x3287, name: "CIRCLED IDEOGRAPH EIGHT", aliases: &[] },
        Codepoint { codepoint: 0x3288, name: "CIRCLED IDEOGRAPH NINE", aliases: &[] },
        Codepoint { codepoint: 0x3289, name: "CIRCLED IDEOGRAPH TEN", aliases: &[] },
        Codepoint { codepoint: 0x328A, name: "CIRCLED IDEOGRAPH MOON", aliases: &[] },
        Codepoint { codepoint: 0x328B, name: "CIRCLED IDEOGRAPH FIRE", aliases: &[] },
        Codepoint { codepoint: 0x328C, name: "CIRCLED IDEOGRAPH WATER", aliases: &[] },
        Codepoint { codepoint: 0x328D, name: "CIRCLED IDEOGRAPH WOOD", aliases: &[] },
        Codepoint { codepoint: 0x328E, name: "CIRCLED IDEOGRAPH METAL", aliases: &[] },
        Codepoint { codepoint: 0x328F, name: "CIRCLED IDEOGRAPH EARTH", aliases: &[] },
        Codepoint { codepoint: 0x3290, name: "CIRCLED IDEOGRAPH SUN", aliases: &[] },
        Codepoint { codepoint: 0x3291, name: "CIRCLED IDEOGRAPH STOCK", aliases: &[] },
        Codepoint { codepoint: 0x3292, name: "CIRCLED IDEOGRAPH HAVE", aliases: &[] },
        Codepoint { codepoint: 0x3293, name: "CIRCLED IDEOGRAPH SOCIETY", aliases: &[] },
        Codepoint { codepoint: 0x3294, name: "CIRCLED IDEOGRAPH NAME", aliases: &[] },
        Codepoint { codepoint: 0x3295, name: "CIRCLED IDEOGRAPH SPECIAL", aliases: &[] },
        Codepoint { codepoint: 0x3296, name: "CIRCLED IDEOGRAPH FINANCIAL", aliases: &[] },
        Codepoint { codepoint: 0x3297, name: "CIRCLED IDEOGRAPH CONGRATULATION", aliases: &[] },
        Codepoint { codepoint: 0x3298, name: "CIRCLED IDEOGRAPH LABOR", aliases: &[] },
        Codepoint { codepoint: 0x3299, name: "CIRCLED IDEOGRAPH SECRET", aliases: &[] },
        Codepoint { codepoint: 0x329A, name: "CIRCLED IDEOGRAPH MALE", aliases: &[] },
        Codepoint { codepoint: 0x329B, name: "CIRCLED IDEOGRAPH FEMALE", aliases: &[] },
        Codepoint { codepoint: 0x329C, name: "CIRCLED IDEOGRAPH SUITABLE", aliases: &[] },
        Codepoint { codepoint: 0x329D, name: "CIRCLED IDEOGRAPH EXCELLENT", aliases: &[] },
        Codepoint { codepoint: 0x329E, name: "CIRCLED IDEOGRAPH PRINT", aliases: &[] },
        Codepoint { codepoint: 0x329F, name: "CIRCLED IDEOGRAPH ATTENTION", aliases: &[] },
    ];
    assert(v@ =~= codepoint_table_296());
    v
}

pub open spec fn codepoint_table_297() -> Seq<Codepoint> {
    seq![
        Codepoint { codepoint: 0x32A0, name: "CIRCLED IDEOGRAPH ITEM", aliases: &[] },
        Codepoint { codepoint: 0x32A1, name: "CIRCLED IDEOGRAPH REST", aliases: &[] },
        Codepoint { codepoint: 0x32A2, name: "CIRCLED IDEOGRAPH COPY", aliases: &[] },
        Codepoint { codepoint: 0x32A3, name: "CIRCLED IDEOGRAPH CORRECT", aliases: &[] },
        Codepoint { codepoint: 0x32A4, name: "CIRCLED IDEOGRAPH HIGH", aliases: &[] },
        Codepoint { codepoint: 0x32A5, name: "CIRCLED IDEOGRAPH CENTRE", aliases: &["CIRCLED IDEOGRAPH CENTER"] },
        Codepoint { codepoint: 0x32A6, name: "CIRCLED IDEOGRAPH LOW", aliases: &[] },
        Codepoint { codepoint: 0x32A7, name: "CIRCLED IDEOGRAPH LEFT", aliases: &[] },
        Codepoint { codepoint: 0x32A8, name: "CIRCLED IDEOGRAPH RIGHT", aliases: &[] },
        Codepoint { codepoint: 0x32A9, name: "CIRCLED IDEOGRAPH MEDICINE", aliases: &[] },
        Codepoint { codepoint: 0x32AA, name: "CIRCLED IDEOGRAPH RELIGION", aliases: &[] },
        Codepoint { codepoint: 0x32AB, name: "CIRCLED IDEOGRAPH STUDY", aliases: &[] },
        Codepoint { codepoint: 0x32AC, name: "CIRCLED IDEOGRAPH SUPERVISE", aliases: &[] },
        Codepoint { codepoint: 0x32AD, name: "CIRCLED IDEOGRAPH ENTERPRISE", aliases: &[] },
        Codepoint { codepoint: 0x32AE, name: "CIRCLED IDEOGRAPH RESOURCE", aliases: &[] },
        Codepoint { codepoint: 0x32AF, name: "CIRCLED IDEOGRAPH ALLIANCE", aliases: &[] },
        Codepoint { codepoint: 0x32B0, name: "CIRCLED IDEOGRAPH NIGHT", aliases: &[] },
        Codepoint { codepoint: 0x32B1, name: "CIRCLED NUMBER THIRTY SIX", aliases: &[] },
        Codepoint { codepoint: 0x32B2, name: "CIRCLED NUMBER THIRTY SEVEN", aliases: &[] },
        Codepoint { codepoint: 0x32B3, name: "CIRCLED NUMBER THIRTY EIGHT", aliases: &[] },
        Codepoint { codepoint: 0x32B4, name: "CIRCLED NUMBER THIRTY NINE", aliases: &[] },
        Codepoint { codepoint: 0x32B5, name: "CIRCLED NUMBER FORTY", aliases: &[] },
        Codepoint { codepoint: 0x32B6, name: "CIRCLED NUMBER FORTY ONE", aliases: &[] },
        Codepoint { codepoint: 0x32B7, name: "CIRCLED NUMBER FORTY TWO", aliases: &[] },
        Codepoint { codepoint: 0x32B8, name: "CIRCLED NUMBER FORTY THREE", aliases: &[] },
        Codepoint { codepoint: 0x32B9, name: "CIRCLED NUMBER FORTY FOUR", aliases: &[] },
        Codepoint { codepoint: 0x32BA, name: "CIRCLED NUMBER FORTY FIVE", aliases: &[] },
        Codepoint { codepoint: 0x32BB, name: "CIRCLED NUMBER FORTY SIX", aliases: &[] },
        Codepoint { codepoint: 0x32BC, name: "CIRCLED NUMBER FORTY SEVEN", aliases: &[] },
        Codepoint { codepoint: 0x32BD, name: "CIRCLED NUMBER FORTY EIGHT", aliases: &[] },
        Codepoint { codepoint: 0x32BE, name: "CIRCLED NUMBER FORTY NINE", aliases: &[] },
        Codepoint { codepoint: 0x32BF, name: "CIRCLED NUMBER FIFTY", aliases: &[] },
        Codepoint { codepoint: 0x32C0, name: "IDEOGRAPHIC TELEGRAPH SYMBOL FOR JANUARY", aliases: &[] },
        Codepoint { codepoint: 0x32C1, name: "IDEOGRAPHIC TELEGRAPH SYMBOL FOR FEBRUARY", aliases: &[] },
        Codepoint { codepoint: 0x32C2, name: "IDEOGRAPHIC TELEGRAPH SYMBOL FOR MARCH", aliases: &[] },
        Codepoint { codepoint: 0x32C3, name: "IDEOGRAPHIC TELEGRAPH SYMBOL FOR APRIL", aliases: &[] },
        Codepoint { codepoint: 0x32C4, name: "IDEOGRAPHIC TELEGRAPH SYMBOL FOR MAY", aliases: &[] },
        Codepoint { codepoint: 0x32C5, name: "IDEOGRAPHIC TELEGRAPH SYMBOL FOR JUNE", aliases: &[] },
        Codepoint { codepoint: 0x32C6, name: "IDEOGRAPHIC TELEGRAPH SYMBOL FOR JULY", aliases: &[] },
        Codepoint { codepoint: 0x32C7, name: "IDEOGRAPHIC TELEGRAPH SYMBOL FOR AUGUST", aliases: &[] },
    ]
}

fn all_codepoints_297() -> (v: Vec<Codepoint>)
    ensures
        v@ == codepoint_table_297(),
{
    let v = vec![
        Codepoint { codepoint: 0x32A0, name: "CIRCLED IDEOGRAPH ITEM", aliases: &[] },
        Codepoint { codepoint: 0x32A1, name: "CIRCLED IDEOGRAPH REST", aliases: &[] },
        Codepoint { codepoint: 0x32A2, name: "CIRCLED IDEOGRAPH COPY", aliases: &[] },
        Codepoint { codepoint: 0x32A3, name: "CIRCLED IDEOGRAPH CORRECT", aliases: &[] },
        Codepoint { codepoint: 0x32A4, name: "CIRCLED IDEOGRAPH HIGH", aliases: &[] },
        Codepoint { codepoint: 0x32A5, name: "CIRCLED IDEOGRAPH CENTRE", aliases: &["CIRCLED IDEOGRAPH CENTER"] },
        Codepoint { codepoint: 0x32A6, name: "CIRCLED IDEOGRAPH LOW", aliases: &[] },
        Codepoint { codepoint: 0x32A7, name: "CIRCLED IDEOGRAPH LEFT", aliases: &[] },
        Codepoint { codepoint: 0x32A8, name: "CIRCLED IDEOGRAPH RIGHT", aliases: &[] },
        Codepoint { codepoint: 0x32A9, name: "CIRCLED IDEOGRAPH MEDICINE", aliases: &[] },
        Codepoint { codepoint: 0x32AA, name: "CIRCLED IDEOGRAPH RELIGION", aliases: &[] },
        Codepoint { codepoint: 0x32AB, name: "CIRCLED IDEOGRAPH STUDY", aliases: &[] },
        Codepoint { codepoint: 0x32AC, name: "CIRCLED IDEOGRAPH SUPERVISE", aliases: &[] },
        Codepoint { codepoint: 0x32AD, name: "CIRCLED IDEOGRAPH ENTERPRISE", aliases: &[] },
        Codepoint { codepoint: 0x32AE, name: "CIRCLED IDEOGRAPH RESOURCE", aliases: &[] },
        Codepoint { codepoint: 0x32AF, name: "CIRCLED IDEOGRAPH ALLIANCE", aliases: &[] },
        Codepoint { codepoint: 0x32B0, name: "CIRCLED IDEOGRAPH NIGHT", aliases: &[] },
        Codepoint { codepoint: 0x32B1, name: "CIRCLED NUMBER THIRTY SIX", aliases: &[] },
        Codepoint { codepoint: 0x32B2, name: "CIRCLED NUMBER THIRTY SEVEN", aliases: &[] },
        Codepoint { codepoint: 0x32B3, name: "CIRCLED NUMBER THIRTY EIGHT", aliases: &[] },
        Codepoint { codepoint: 0x32B4, name: "CIRCLED NUMBER THIRTY NINE", aliases: &[] },
        Codepoint { codepoint: 0x32B5, name: "CIRCLED NUMBER FORTY", aliases: &[] },
        Codepoint { codepoint: 0x32B6, name: "CIRCLED NUMBER FORTY ONE", aliases: &[] },
        Codepoint { codepoint: 0x32B7, name: "CIRCLED NUMBER FORTY TWO", aliases: &[] },
        Codepoint { codepoint: 0x32B8, name: "CIRCLED NUMBER FORTY THREE", aliases: &[] },
        Codepoint { codepoint: 0x32B9, name: "CIRCLED NUMBER FORTY FOUR", aliases: &[] },
        Codepoint { codepoint: 0x32BA, name: "CIRCLED NUMBER FORTY FIVE", aliases: &[] },
        Codepoint { codepoint: 0x32BB, name: "CIRCLED NUMBER FORTY SIX", aliases: &[] },
        Codepoint { codepoint: 0x32BC, name: "CIRCLED NUMBER FORTY SEVEN", aliases: &[] },
        Codepoint { codepoint: 0x32BD, name: "CIRCLED NUMBER FORTY EIGHT", aliases: &[] },
        Codepoint { codepoint: 0x32BE, name: "CIRCLED NUMBER FORTY NINE", aliases: &[] },
        Codepoint { codepoint: 0x32BF, name: "CIRCLED NUMBER FIFTY", aliases: &[] },
        Codepoint { codepoint: 0x32C0, name: "IDEOGRAPHIC TELEGRAPH SYMBOL FOR JANUARY", aliases: &[] },
        Codepoint { codepoint: 0x32C1, name: "IDEOGRAPHIC TELEGRAPH SYMBOL FOR FEBRUARY", aliases: &[] },
        Codepoint { codepoint: 0x32C2, name: "IDEOGRAPHIC TELEGRAPH SYMBOL FOR MARCH", aliases: &[] },
        Codepoint { codepoint: 0x32C3, name: "IDEOGRAPHIC TELEGRAPH SYMBOL FOR APRIL", aliases: &[] },
        Codepoint { codepoint: 0x32C4, name: "IDEOGRAPHIC TELEGRAPH SYMBOL FOR MAY", aliases: &[] },
        Codepoint { codepoint: 0x32C5, name: "IDEOGRAPHIC TELEGRAPH SYMBOL FOR JUNE", aliases: &[] },
        Codepoint { codepoint: 0x32C6, name: "IDEOGRAPHIC TELEGRAPH SYMBOL FOR JULY", aliases: &[] },
        Codepoint { codepoint: 0x32C7, name: "IDEOGRAPHIC TELEGRAPH SYMBOL FOR AUGUST", aliases: &[] },
    ];
    assert(v@ =~= codepoint_table_297());
    v
}

pub open spec fn codepoint_table_298() -> Seq<Codepoint> {
    seq![
        Codepoint { codepoint: 0x32C8, name: "IDEOGRAPHIC TELEGRAPH SYMBOL FOR SEPTEMBER", aliases: &[] },
        Codepoint { codepoint: 0x32C9, name: "IDEOGRAPHIC TELEGRAPH SYMBOL FOR OCTOBER", aliases: &[] },
        Codepoint { codepoint: 0x32CA, name: "IDEOGRAPHIC TELEGRAPH SYMBOL FOR NOVEMBER", aliases: &[] },
        Codepoint { codepoint: 0x32CB, name: "IDEOGRAPHIC TELEGRAPH SYMBOL FOR DECEMBER", aliases: &[] },
        Codepoint { codepoint: 0x32CC, name: "SQUARE HG", aliases: &[] },
        Codepoint { codepoint: 0x32CD, name: "SQUARE ERG", aliases: &[] },
        Codepoint { codepoint: 0x32CE, name: "SQUARE EV", aliases: &[] },
        Codepoint { codepoint: 0x32CF, name: "LIMITED LIABILITY SIGN", aliases: &[] },
        Codepoint { codepoint: 0x32D0, name: "CIRCLED KATAKANA A", aliases: &[] },
        Codepoint { codepoint: 0x32D1, name: "CIRCLED KATAKANA I", aliases: &[] },
        Codepoint { codepoint: 0x32D2, name: "CIRCLED KATAKANA U", aliases: &[] },
        Codepoint { codepoint: 0x32D3, name: "CIRCLED KATAKANA E", aliases: &[] },
        Codepoint { codepoint: 0x32D4, name: "CIRCLED KATAKANA O", aliases: &[] },
        Codepoint { codepoint: 0x32D5, name: "CIRCLED KATAKANA KA", aliases: &[] },
        Codepoint { codepoint: 0x32D6, name: "CIRCLED KATAKANA KI", aliases: &[] },
        Codepoint { codepoint: 0x32D7, name: "CIRCLED KATAKANA KU", aliases: &[] },
        Codepoint { codepoint: 0x32D8, name: "CIRCLED KATAKANA KE", aliases: &[] },
        Codepoint { codepoint: 0x32D9, name: "CIRCLED KATAKANA KO", aliases: &[] },
        Codepoint { codepoint: 0x32DA, name: "CIRCLED KATAKANA SA", aliases: &[] },
        Codepoint { codepoint: 0x32DB, name: "CIRCLED KATAKANA SI", aliases: &[] },
        Codepoint { codepoint: 0x32DC, name: "CIRCLED KATAKANA SU", aliases: &[] },
        Codepoint { codepoint: 0x32DD, name: "CIRCLED KATAKANA SE", aliases: &[] },
        Codepoint { codepoint: 0x32DE, name: "CIRCLED KATAKANA SO", aliases: &[] },
        Codepoint { codepoint: 0x32DF, name: "CIRCLED KATAKANA TA", aliases: &[] },
        Codepoint { codepoint: 0x32E0, name: "CIRCLED KATAKANA TI", aliases: &[] },
        Codepoint { codepoint: 0x32E1, name: "CIRCLED KATAKANA TU", aliases: &[] },
        Codepoint { codepoint: 0x32E2, name: "CIRCLED KATAKANA TE", aliases: &[] },
        Codepoint { codepoint: 0x32E3, name: "CIRCLED KATAKANA TO", aliases: &[] },
        Codepoint { codepoint: 0x32E4, name: "CIRCLED KATAKANA NA", aliases: &[] },
        Codepoint { codepoint: 0x32E5, name: "CIRCLED KATAKANA NI", aliases: &[] },
        Codepoint { codepoint: 0x32E6, name: "CIRCLED KATAKANA NU", aliases: &[] },
        Codepoint { codepoint: 0x32E7, name: "CIRCLED KATAKANA NE", aliases: &[] },
        Codepoint { codepoint: 0x32E8, name: "CIRCLED KATAKANA NO", aliases: &[] },
        Codepoint { codepoint: 0x32E9, name: "CIRCLED KATAKANA HA", aliases: &[] },
        Codepoint { codepoint: 0x32EA, name: "CIRCLED KATAKANA HI", aliases: &[] },
        Codepoint { codepoint: 0x32EB, name: "CIRCLED KATAKANA HU", aliases: &[] },
        Codepoint { codepoint: 0x32EC, name: "CIRCLED KATAKANA HE", aliases: &[] },
        Codepoint { codepoint: 0x32ED, name: "CIRCLED KATAKANA HO", aliases: &[] },
        Codepoint { codepoint: 0x32EE, name: "CIRCLED KATAKANA MA", aliases: &[] },
        Codepoint { codepoint: 0x32EF, name: "CIRCLED KATAKANA MI", aliases: &[] },
    ]
}

fn all_codepoints_298() -> (v: Vec<Codepoint>)
    ensures
        v@ == codepoint_table_298(),
{
    let v = vec![
        Codepoint { codepoint: 0x32C8, name: "IDEOGRAPHIC TELEGRAPH SYMBOL FOR SEPTEMBER", aliases: &[] },
        Codepoint { codepoint: 0x32C9, name: "IDEOGRAPHIC TELEGRAPH SYMBOL FOR OCTOBER", aliases: &[] },
        Codepoint { codepoint: 0x32CA, name: "IDEOGRAPHIC TELEGRAPH SYMBOL FOR NOVEMBER", aliases: &[] },
        Codepoint { codepoint: 0x32CB, name: "IDEOGRAPHIC TELEGRAPH SYMBOL FOR DECEMBER", aliases: &[] },
        Codepoint { codepoint: 0x32CC, name: "SQUARE HG", aliases: &[] },
        Codepoint { codepoint: 0x32CD, name: "SQUARE ERG", aliases: &[] },
        Codepoint { codepoint: 0x32CE, name: "SQUARE EV", aliases: &[] },
        Codepoint { codepoint: 0x32CF, name: "LIMITED LIABILITY SIGN", aliases: &[] },
        Codepoint { codepoint: 0x32D0, name: "CIRCLED KATAKANA A", aliases: &[] },
        Codepoint { codepoint: 0x32D1, name: "CIRCLED KATAKANA I", aliases: &[] },
        Codepoint { codepoint: 0x32D2, name: "CIRCLED KATAKANA U", aliases: &[] },
        Codepoint { codepoint: 0x32D3, name: "CIRCLED KATAKANA E", aliases: &[] },
        Codepoint { codepoint: 0x32D4, name: "CIRCLED KATAKANA O", aliases: &[] },
        Codepoint { codepoint: 0x32D5, name: "CIRCLED KATAKANA KA", aliases: &[] },
        Codepoint { codepoint: 0x32D6, name: "CIRCLED KATAKANA KI", aliases: &[] },
        Codepoint { codepoint: 0x32D7, name: "CIRCLED KATAKANA KU", aliases: &[] },
        Codepoint { codepoint: 0x32D8, name: "CIRCLED KATAKANA KE", aliases: &[] },
        Codepoint { codepoint: 0x32D9, name: "CIRCLED KATAKANA KO", aliases: &[] },
        Codepoint { codepoint: 0x32DA, name: "CIRCLED KATAKANA SA", aliases: &[] },
        Codepoint { codepoint: 0x32DB, name: "CIRCLED KATAKANA SI", aliases: &[] },
        Codepoint { codepoint: 0x32DC, name: "CIRCLED KATAKANA SU", aliases: &[] },
        Codepoint { codepoint: 0x32DD, name: "CIRCLED KATAKANA SE", aliases: &[] },
        Codepoint { codepoint: 0x32DE, name: "CIRCLED KATAKANA SO", aliases: &[] },
        Codepoint { codepoint: 0x32DF, name: "CIRCLED KATAKANA TA", aliases: &[] },
        Codepoint { codepoint: 0x32E0, name: "CIRCLED KATAKANA TI", aliases: &[] },
        Codepoint { codepoint: 0x32E1, name: "CIRCLED KATAKANA TU", aliases: &[] },
        Codepoint { codepoint: 0x32E2, name: "CIRCLED KATAKANA TE", aliases: &[] },
        Codepoint { codepoint: 0x32E3, name: "CIRCLED KATAKANA TO", aliases: &[] },
        Codepoint { codepoint: 0x32E4, name: "CIRCLED KATAKANA NA", aliases: &[] },
        Codepoint { codepoint: 0x32E5, name: "CIRCLED KATAKANA NI", aliases: &[] },
        Codepoint { codepoint: 0x32E6, name: "CIRCLED KATAKANA NU", aliases: &[] },
        Codepoint { codepoint: 0x32E7, name: "CIRCLED KATAKANA NE", aliases: &[] },
        Codepoint { codepoint: 0x32E8, name: "CIRCLED KATAKANA NO", aliases: &[] },
        Codepoint { codepoint: 0x32E9, name: "CIRCLED KATAKANA HA", aliases: &[] },
        Codepoint { codepoint: 0x32EA, name: "CIRCLED KATAKANA HI", aliases: &[] },
        Codepoint { codepoint: 0x32EB, name: "CIRCLED KATAKANA HU", aliases: &[] },
        Codepoint { codepoint: 0x32EC, name: "CIRCLED KATAKANA HE", aliases: &[] },
        Codepoint { codepoint: 0x32ED, name: "CIRCLED KATAKANA HO", aliases: &[] },
        Codepoint { codepoint: 0x32EE, name: "CIRCLED KATAKANA MA", aliases: &[] },
        Codepoint { codepoint: 0x32EF, name: "CIRCLED KATAKANA MI", aliases: &[] },
    ];
    assert(v@ =~= codepoint_table_298());
    v
}

pub open spec fn codepoint_table_299() -> Seq<Codepoint> {
    seq![
        Codepoint { codepoint: 0x32F0, name: "CIRCLED KATAKANA MU", aliases: &[] },
        Codepoint { codepoint: 0x32F1, name: "CIRCLED KATAKANA ME", aliases: &[] },
        Codepoint { codepoint: 0x32F2, name: "CIRCLED KATAKANA MO", aliases: &[] },
        Codepoint { codepoint: 0x32F3, name: "CIRCLED KATAKANA YA", aliases: &[] },
        Codepoint { codepoint: 0x32F4, name: "CIRCLED KATAKANA YU", aliases: &[] },
        Codepoint { codepoint: 0x32F5, name: "CIRCLED KATAKANA YO", aliases: &[] },
        Codepoint { codepoint: 0x32F6, name: "CIRCLED KATAKANA RA", aliases: &[] },
        Codepoint { codepoint: 0x32F7, name: "CIRCLED KATAKANA RI", aliases: &[] },
        Codepoint { codepoint: 0x32F8, name: "CIRCLED KATAKANA RU", aliases: &[] },
        Codepoint { codepoint: 0x32F9, name: "CIRCLED KATAKANA RE", aliases: &[] },
        Codepoint { codepoint: 0x32FA, name: "CIRCLED KATAKANA RO", aliases: &[] },
        Codepoint { codepoint: 0x32FB, name: "CIRCLED KATAKANA WA", aliases: &[] },
        Codepoint { codepoint: 0x32FC, name: "CIRCLED KATAKANA WI", aliases: &[] },
        Codepoint { codepoint: 0x32FD, name: "CIRCLED KATAKANA WE", aliases: &[] },
        Codepoint { codepoint: 0x32FE, name: "CIRCLED KATAKANA WO", aliases: &[] },
        Codepoint { codepoint: 0x32FF, name: "SQUARE ERA NAME REIWA", aliases: &[] },
        Codepoint { codepoint: 0x3300, name: "SQUARE APAATO", aliases: &["SQUARED APAATO"] },
        Codepoint { codepoint: 0x3301, name: "SQUARE ARUHUA", aliases: &["SQUARED ARUHUA"] },
        Codepoint { codepoint: 0x3302, name: "SQUARE ANPEA", aliases: &["SQUARED ANPEA"] },
        Codepoint { codepoint: 0x3303, name: "SQUARE AARU", aliases: &["SQUARED AARU"] },
        Codepoint { codepoint: 0x3304, name: "SQUARE ININGU", aliases: &["SQUARED ININGU"] },
        Codepoint { codepoint: 0x3305, name: "SQUARE INTI", aliases: &["SQUARED INTI"] },
        Codepoint { codepoint: 0x3306, name: "SQUARE UON", aliases: &["SQUARED UON"] },
        Codepoint { codepoint: 0x3307, name: "SQUARE ESUKUUDO", aliases: &["SQUARED ESUKUUDO"] },
        Codepoint { codepoint: 0x3308, name: "SQUARE EEKAA", aliases: &["SQUARED EEKAA"] },
        Codepoint { codepoint: 0x3309, name: "SQUARE ONSU", aliases: &["SQUARED ONSU"] },
        Codepoint { codepoint: 0x330A, name: "SQUARE OOMU", aliases: &["SQUARED OOMU"] },
        Codepoint { codepoint: 0x330B, name: "SQUARE KAIRI", aliases: &["SQUARED KAIRI"] },
        Codepoint { codepoint: 0x330C, name: "SQUARE KARATTO", aliases: &["SQUARED KARATTO"] },
        Codepoint { codepoint: 0x330D, name: "SQUARE KARORII", aliases: &["SQUARED KARORII"] },
        Codepoint { codepoint: 0x330E, name: "SQUARE GARON", aliases: &["SQUARED GARON"] },
        Codepoint { codepoint: 0x330F, name: "SQUARE GANMA", aliases: &["SQUARED GANMA"] },
        Codepoint { codepoint: 0x3310, name: "SQUARE GIGA", aliases: &["SQUARED GIGA"] },
        Codepoint { codepoint: 0x3311, name: "SQUARE GINII", aliases: &["SQUARED GINII"] },
        Codepoint { codepoint: 0x3312, name: "SQUARE KYURII", aliases: &["SQUARED KYURII"] },
        Codepoint { codepoint: 0x3313, name: "SQUARE GIRUDAA", aliases: &["SQUARED GIRUDAA"] },
        Codepoint { codepoint: 0x3314, name: "SQUARE KIRO", aliases: &["SQUARED KIRO"] },
        Codepoint { codepoint: 0x3315, name: "SQUARE KIROGURAMU", aliases: &["SQUARED KIROGURAMU"] },
        Codepoint { codepoint: 0x3316, name: "SQUARE KIROMEETORU", aliases: &["SQUARED KIROMEETORU"] },
        Codepoint { codepoint: 0x3317, name: "SQUARE KIROWATTO", aliases: &["SQUARED KIROWATTO"] },
    ]
}

fn all_codepoints_299() -> (v: Vec<Codepoint>)
    ensures
        v@ == codepoint_table_299(),
{
    let v = vec![
        Codepoint { codepoint: 0x32F0, name: "CIRCLED KATAKANA MU", aliases: &[] },
        Codepoint { codepoint: 0x32F1, name: "CIRCLED KATAKANA ME", aliases: &[] },
        Codepoint { codepoint: 0x32F2, name: "CIRCLED KATAKANA MO", aliases: &[] },
        Codepoint { codepoint: 0x32F3, name: "CIRCLED KATAKANA YA", aliases: &[] },
        Codepoint { codepoint: 0x32F4, name: "CIRCLED KATAKANA YU", aliases: &[] },
        Codepoint { codepoint: 0x32F5, name: "CIRCLED KATAKANA YO", aliases: &[] },
        Codepoint { codepoint: 0x32F6, name: "CIRCLED KATAKANA RA", aliases: &[] },
        Codepoint { codepoint: 0x32F7, name: "CIRCLED KATAKANA RI", aliases: &[] },
        Codepoint { codepoint: 0x32F8, name: "CIRCLED KATAKANA RU", aliases: &[] },
        Codepoint { codepoint: 0x32F9, name: "CIRCLED KATAKANA RE", aliases: &[] },
        Codepoint { codepoint: 0x32FA, name: "CIRCLED KATAKANA RO", aliases: &[] },
        Codepoint { codepoint: 0x32FB, name: "CIRCLED KATAKANA WA", aliases: &[] },
        Codepoint { codepoint: 0x32FC, name: "CIRCLED KATAKANA WI", aliases: &[] },
        Codepoint { codepoint: 0x32FD, name: "CIRCLED KATAKANA WE", aliases: &[] },
        Codepoint { codepoint: 0x32FE, name: "CIRCLED KATAKANA WO", aliases: &[] },
        Codepoint { codepoint: 0x32FF, name: "SQUARE ERA NAME REIWA", aliases: &[] },
        Codepoint { codepoint: 0x3300, name: "SQUARE APAATO", aliases: &["SQUARED APAATO"] },
        Codepoint { codepoint: 0x3301, name: "SQUARE ARUHUA", aliases: &["SQUARED ARUHUA"] },
        Codepoint { codepoint: 0x3302, name: "SQUARE ANPEA", aliases: &["SQUARED ANPEA"] },
        Codepoint { codepoint: 0x3303, name: "SQUARE AARU", aliases: &["SQUARED AARU"] },
        Codepoint { codepoint: 0x3304, name: "SQUARE ININGU", aliases: &["SQUARED ININGU"] },
        Codepoint { codepoint: 0x3305, name: "SQUARE INTI", aliases: &["SQUARED INTI"] },
        Codepoint { codepoint: 0x3306, name: "SQUARE UON", aliases: &["SQUARED UON"] },
        Codepoint { codepoint: 0x3307, name: "SQUARE ESUKUUDO", aliases: &["SQUARED ESUKUUDO"] },
        Codepoint { codepoint: 0x3308, name: "SQUARE EEKAA", aliases: &["SQUARED EEKAA"] },
        Codepoint { codepoint: 0x3309, name: "SQUARE ONSU", aliases: &["SQUARED ONSU"] },
        Codepoint { codepoint: 0x330A, name: "SQUARE OOMU", aliases: &["SQUARED OOMU"] },
        Codepoint { codepoint: 0x330B, name: "SQUARE KAIRI", aliases: &["SQUARED KAIRI"] },
        Codepoint { codepoint: 0x330C, name: "SQUARE KARATTO", aliases: &["SQUARED KARATTO"] },
        Codepoint { codepoint: 0x330D, name: "SQUARE KARORII", aliases: &["SQUARED KARORII"] },
        Codepoint { codepoint: 0x330E, name: "SQUARE GARON", aliases: &["SQUARED GARON"] },
        Codepoint { codepoint: 0x330F, name: "SQUARE GANMA", aliases: &["SQUARED GANMA"] },
        Codepoint { codepoint: 0x3310, name: "SQUARE GIGA", aliases: &["SQUARED GIGA"] },
        Codepoint { codepoint: 0x3311, name: "SQUARE GINII", aliases: &["SQUARED GINII"] },
        Codepoint { codepoint: 0x3312, name: "SQUARE KYURII", aliases: &["SQUARED KYURII"] },
        Codepoint { codepoint: 0x3313, name: "SQUARE GIRUDAA", aliases: &["SQUARED GIRUDAA"] },
        Codepoint { codepoint: 0x3314, name: "SQUARE KIRO", aliases: &["SQUARED KIRO"] },
        Codepoint { codepoint: 0x3315, name: "SQUARE KIROGURAMU", aliases: &["SQUARED KIROGURAMU"] },
        Codepoint { codepoint: 0x3316, name: "SQUARE KIROMEETORU", aliases: &["SQUARED KIROMEETORU"] },
        Codepoint { codepoint: 0x3317, name: "SQUARE KIROWATTO", aliases: &["SQUARED KIROWATTO"] },
    ];
    assert(v@ =~= codepoint_table_299());
    v
}

/// The entries from position 11200 of the table, 800 at most.
pub open spec fn codepoint_group_14() -> Seq<Codepoint> {
    codepoint_table_280() + codepoint_table_281() + codepoint_table_282() + codepoint_table_283() + codepoint_table_284() + codepoint_table_285() + codepoint_table_286() + codepoint_table_287() + codepoint_table_288() + codepoint_table_289() + codepoint_table_290() + codepoint_table_291() + codepoint_table_292() + codepoint_table_293() + codepoint_table_294() + codepoint_table_295() + codepoint_table_296() + codepoint_table_297() + codepoint_table_298() + codepoint_table_299()
}

pub fn all_codepoints_group_14() -> (v: Vec<Codepoint>)
    ensures
        v@ == codepoint_group_14(),
{
    let mut v = all_codepoints_280();
    let mut part = all_codepoints_281();
    v.append(&mut part);
    let mut part = all_codepoints_282();
    v.append(&mut part);
    let mut part = all_codepoints_283();
    v.append(&mut part);
    let mut part = all_codepoints_284();
    v.append(&mut part);
    let mut part = all_codepoints_285();
    v.append(&mut part);
    let mut part = all_codepoints_286();
    v.append(&mut part);
    let mut part = all_codepoints_287();
    v.append(&mut part);
    let mut part = all_codepoints_288();
    v.append(&mut part);
    let mut part = all_codepoints_289();
    v.append(&mut part);
    let mut part = all_codepoints_290();
    v.append(&mut part);
    let mut part = all_codepoints_291();
    v.append(&mut part);
    let mut part = all_codepoints_292();
    v.append(&mut part);
    let mut part = all_codepoints_293();
    v.append(&mut part);
    let mut part = all_codepoints_294();
    v.append(&mut part);
    let mut part = all_codepoints_295();
    v.append(&mut part);
    let mut part = all_codepoints_296();
    v.append(&mut part);
    let mut part = all_codepoints_297();
    v.append(&mut part);
    let mut part = all_codepoints_298();
    v.append(&mut part);
    let mut part = all_codepoints_299();
    v.append(&mut part);
    v
}

pub open spec fn codepoint_table_300() -> Seq<Codepoint> {
    seq![
        Codepoint { codepoint: 0x3318, name: "SQUARE GURAMU", aliases: &["SQUARED GURAMU"] },
        Codepoint { codepoint: 0x3319, name: "SQUARE GURAMUTON", aliases: &["SQUARED GURAMUTON"] },
        Codepoint { codepoint: 0x331A, name: "SQUARE KURUZEIRO", aliases: &["SQUARED KURUZEIRO"] },
        Codepoint { codepoint: 0x331B, name: "SQUARE KUROONE", aliases: &["SQUARED KUROONE"] },
        Codepoint { codepoint: 0x331C, name: "SQUARE KEESU", aliases: &["SQUARED KEESU"] },
        Codepoint { codepoint: 0x331D, name: "SQUARE KORUNA", aliases: &["SQUARED KORUNA"] },
        Codepoint { codepoint: 0x331E, name: "SQUARE KOOPO", aliases: &["SQUARED KOOPO"] },
        Codepoint { codepoint: 0x331F, name: "SQUARE SAIKURU", aliases: &["SQUARED SAIKURU"] },
        Codepoint { codepoint: 0x3320, name: "SQUARE SANTIIMU", aliases: &["SQUARED SANTIIMU"] },
        Codepoint { codepoint: 0x3321, name: "SQUARE SIRINGU", aliases: &["SQUARED SIRINGU"] },
        Codepoint { codepoint: 0x3322, name: "SQUARE SENTI", aliases: &["SQUARED SENTI"] },
        Codepoint { codepoint: 0x3323, name: "SQUARE SENTO", aliases: &["SQUARED SENTO"] },
        Codepoint { codepoint: 0x3324, name: "SQUARE DAASU", aliases: &["SQUARED DAASU"] },
        Codepoint { codepoint: 0x3325, name: "SQUARE DESI", aliases: &["SQUARED DESI"] },
        Codepoint { codepoint: 0x3326, name: "SQUARE DORU", aliases: &["SQUARED DORU"] },
        Codepoint { codepoint: 0x3327, name: "SQUARE TON", aliases: &["SQUARED TON"] },
        Codepoint { codepoint: 0x3328, name: "SQUARE NANO", aliases: &["SQUARED NANO"] },
        Codepoint { codepoint: 0x3329, name: "SQUARE NOTTO", aliases: &["SQUARED NOTTO"] },
        Codepoint { codepoint: 0x332A, name: "SQUARE HAITU", aliases: &["SQUARED HAITU"] },
        Codepoint { codepoint: 0x332B, name: "SQUARE PAASENTO", aliases: &["SQUARED PAASENTO"] },
        Codepoint { codepoint: 0x332C, name: "SQUARE PAATU", aliases: &["SQUARED PAATU"] },
        Codepoint { codepoint: 0x332D, name: "SQUARE BAARERU", aliases: &["SQUARED BAARERU"] },
        Codepoint { codepoint: 0x332E, name: "SQUARE PIASUTORU", aliases: &["SQUARED PIASUTORU"] },
        Codepoint { codepoint: 0x332F, name: "SQUARE PIKURU", aliases: &["SQUARED PIKURU"] },
        Codepoint { codepoint: 0x3330, name: "SQUARE PIKO", aliases: &["SQUARED PIKO"] },
        Codepoint { codepoint: 0x3331, name: "SQUARE BIRU", aliases: &["SQUARED BIRU"] },
        Codepoint { codepoint: 0x3332, name: "SQUARE HUARADDO", aliases: &["SQUARED HUARADDO"] },
        Codepoint { codepoint: 0x3333, name: "SQUARE HUIITO", aliases: &["SQUARED HUIITO"] },
        Codepoint { codepoint: 0x3334, name: "SQUARE BUSSYERU", aliases: &["SQUARED BUSSYERU"] },
        Codepoint { codepoint: 0x3335, name: "SQUARE HURAN", aliases: &["SQUARED HURAN"] },
        Codepoint { codepoint: 0x3336, name: "SQUARE HEKUTAARU", aliases: &["SQUARED HEKUTAARU"] },
        Codepoint { codepoint: 0x3337, name: "SQUARE PESO", aliases: &["SQUARED PESO"] },
        Codepoint { codepoint: 0x3338, name: "SQUARE PENIHI", aliases: &["SQUARED PENIHI"] },
        Codepoint { codepoint: 0x3339, name: "SQUARE HERUTU", aliases: &["SQUARED HERUTU"] },
        Codepoint { codepoint: 0x333A, name: "SQUARE PENSU", aliases: &["SQUARED PENSU"] },
        Codepoint { codepoint: 0x333B, name: "SQUARE PEEZI", aliases: &["SQUARED PEEZI"] },
        Codepoint { codepoint: 0x333C, name: "SQUARE BEETA", aliases: &["SQUARED BEETA"] },
        Codepoint { codepoint: 0x333D, name: "SQUARE POINTO", aliases: &["SQUARED POINTO"] },
        Codepoint { codepoint: 0x333E, name: "SQUARE BORUTO", aliases: &["SQUARED BORUTO"] },
        Codepoint { codepoint: 0x333F, name: "SQUARE HON", aliases: &["SQUARED HON"] },
    ]
}

fn all_codepoints_300() -> (v: Vec<Codepoint>)
    ensures
        v@ == codepoint_table_300(),
{
    let v = vec![
        Codepoint { codepoint: 0x3318, name: "SQUARE GURAMU", aliases: &["SQUARED GURAMU"] },
        Codepoint { codepoint: 0x3319, name: "SQUARE GURAMUTON", aliases: &["SQUARED GURAMUTON"] },
        Codepoint { codepoint: 0x331A, name: "SQUARE KURUZEIRO", aliases: &["SQUARED KURUZEIRO"] },
        Codepoint { codepoint: 0x331B, name: "SQUARE KUROONE", aliases: &["SQUARED KUROONE"] },
        Codepoint { codepoint: 0x331C, name: "SQUARE KEESU", aliases: &["SQUARED KEESU"] },
        Codepoint { codepoint: 0x331D, name: "SQUARE KORUNA", aliases: &["SQUARED KORUNA"] },
        Codepoint { codepoint: 0x331E, name: "SQUARE KOOPO", aliases: &["SQUARED KOOPO"] },
        Codepoint { codepoint: 0x331F, name: "SQUARE SAIKURU", aliases: &["SQUARED SAIKURU"] },
        Codepoint { codepoint: 0x3320, name: "SQUARE SANTIIMU", aliases: &["SQUARED SANTIIMU"] },
        Codepoint { codepoint: 0x3321, name: "SQUARE SIRINGU", aliases: &["SQUARED SIRINGU"] },
        Codepoint { codepoint: 0x3322, name: "SQUARE SENTI", aliases: &["SQUARED SENTI"] },
        Codepoint { codepoint: 0x3323, name: "SQUARE SENTO", aliases: &["SQUARED SENTO"] },
        Codepoint { codepoint: 0x3324, name: "SQUARE DAASU", aliases: &["SQUARED DAASU"] },
        Codepoint { codepoint: 0x3325, name: "SQUARE DESI", aliases: &["SQUARED DESI"] },
        Codepoint { codepoint: 0x3326, name: "SQUARE DORU", aliases: &["SQUARED DORU"] },
        Codepoint { codepoint: 0x3327, name: "SQUARE TON", aliases: &["SQUARED TON"] },
        Codepoint { codepoint: 0x3328, name: "SQUARE NANO", aliases: &["SQUARED NANO"] },
        Codepoint { codepoint: 0x3329, name: "SQUARE NOTTO", aliases: &["SQUARED NOTTO"] },
        Codepoint { codepoint: 0x332A, name: "SQUARE HAITU", aliases: &["SQUARED HAITU"] },
        Codepoint { codepoint: 0x332B, name: "SQUARE PAASENTO", aliases: &["SQUARED PAASENTO"] },
        Codepoint { codepoint: 0x332C, name: "SQUARE PAATU", aliases: &["SQUARED PAATU"] },
        Codepoint { codepoint: 0x332D, name: "SQUARE BAARERU", aliases: &["SQUARED BAARERU"] },
        Codepoint { codepoint: 0x332E, name: "SQUARE PIASUTORU", aliases: &["SQUARED PIASUTORU"] },
        Codepoint { codepoint: 0x332F, name: "SQUARE PIKURU", aliases: &["SQUARED PIKURU"] },
        Codepoint { codepoint: 0x3330, name: "SQUARE PIKO", aliases: &["SQUARED PIKO"] },
        Codepoint { codepoint: 0x3331, name: "SQUARE BIRU", aliases: &["SQUARED BIRU"] },
        Codepoint { codepoint: 0x3332, name: "SQUARE HUARADDO", aliases: &["SQUARED HUARADDO"] },
        Codepoint { codepoint: 0x3333, name: "SQUARE HUIITO", aliases: &["SQUARED HUIITO"] },
        Codepoint { codepoint: 0x3334, name: "SQUARE BUSSYERU", aliases: &["SQUARED BUSSYERU"] },
        Codepoint { codepoint: 0x3335, name: "SQUARE HURAN", aliases: &["SQUARED HURAN"] },
        Codepoint { codepoint: 0x3336, name: "SQUARE HEKUTAARU", aliases: &["SQUARED HEKUTAARU"] },
        Codepoint { codepoint: 0x3337, name: "SQUARE PESO", aliases: &["SQUARED PESO"] },
        Codepoint { codepoint: 0x3338, name: "SQUARE PENIHI", aliases: &["SQUARED PENIHI"] },
        Codepoint { codepoint: 0x3339, name: "SQUARE HERUTU", aliases: &["SQUARED HERUTU"] },
        Codepoint { codepoint: 0x333A, name: "SQUARE PENSU", aliases: &["SQUARED PENSU"] },
        Codepoint { codepoint: 0x333B, name: "SQUARE PEEZI", aliases: &["SQUARED PEEZI"] },
        Codepoint { codepoint: 0x333C, name: "SQUARE BEETA", aliases: &["SQUARED BEETA"] },
        Codepoint { codepoint: 0x333D, name: "SQUARE POINTO", aliases: &["SQUARED POINTO"] },
        Codepoint { codepoint: 0x333E, name: "SQUARE BORUTO", aliases: &["SQUARED BORUTO"] },
        Codepoint { codepoint: 0x333F, name: "SQUARE HON", aliases: &["SQUARED HON"] },
    ];
    assert(v@ =~= codepoint_table_300());
    v
}

pub open spec fn codepoint_table_301() -> Seq<Codepoint> {
    seq![
        Codepoint { codepoint: 0x3340, name: "SQUARE PONDO", aliases: &["SQUARED PONDO"] },
        Codepoint { codepoint: 0x3341, name: "SQUARE HOORU", aliases: &["SQUARED HOORU"] },
        Codepoint { codepoint: 0x3342, name: "SQUARE HOON", aliases: &["SQUARED HOON"] },
        Codepoint { codepoint: 0x3343, name: "SQUARE MAIKURO", aliases: &["SQUARED MAIKURO"] },
        Codepoint { codepoint: 0x3344, name: "SQUARE MAIRU", aliases: &["SQUARED MAIRU"] },
        Codepoint { codepoint: 0x3345, name: "SQUARE MAHHA", aliases: &["SQUARED MAHHA"] },
        Codepoint { codepoint: 0x3346, name: "SQUARE MARUKU", aliases: &["SQUARED MARUKU"] },
        Codepoint { codepoint: 0x3347, name: "SQUARE MANSYON", aliases: &["SQUARED MANSYON"] },
        Codepoint { codepoint: 0x3348, name: "SQUARE MIKURON", aliases: &["SQUARED MIKURON"] },
        Codepoint { codepoint: 0x3349, name: "SQUARE MIRI", aliases: &["SQUARED MIRI"] },
        Codepoint { codepoint: 0x334A, name: "SQUARE MIRIBAARU", aliases: &["SQUARED MIRIBAARU"] },
        Codepoint { codepoint: 0x334B, name: "SQUARE MEGA", aliases: &["SQUARED MEGA"] },
        Codepoint { codepoint: 0x334C, name: "SQUARE MEGATON", aliases: &["SQUARED MEGATON"] },
        Codepoint { codepoint: 0x334D, name: "SQUARE MEETORU", aliases: &["SQUARED MEETORU"] },
        Codepoint { codepoint: 0x334E, name: "SQUARE YAADO", aliases: &["SQUARED YAADO"] },
        Codepoint { codepoint: 0x334F, name: "SQUARE YAARU", aliases: &["SQUARED YAARU"] },
        Codepoint { codepoint: 0x3350, name: "SQUARE YUAN", aliases: &["SQUARED YUAN"] },
        Codepoint { codepoint: 0x3351, name: "SQUARE RITTORU", aliases: &["SQUARED RITTORU"] },
        Codepoint { codepoint: 0x3352, name: "SQUARE RIRA", aliases: &["SQUARED RIRA"] },
        Codepoint { codepoint: 0x3353, name: "SQUARE RUPII", aliases: &["SQUARED RUPII"] },
        Codepoint { codepoint: 0x3354, name: "SQUARE RUUBURU", aliases: &["SQUARED RUUBURU"] },
        Codepoint { codepoint: 0x3355, name: "SQUARE REMU", aliases: &["SQUARED REMU"] },
        Codepoint { codepoint: 0x3356, name: "SQUARE RENTOGEN", aliases: &["SQUARED RENTOGEN"] },
        Codepoint { codepoint: 0x3357, name: "SQUARE WATTO", aliases: &["SQUARED WATTO"] },
        Codepoint { codepoint: 0x3358, name: "IDEOGRAPHIC TELEGRAPH SYMBOL FOR HOUR ZERO", aliases: &[] },
        Codepoint { codepoint: 0x3359, name: "IDEOGRAPHIC TELEGRAPH SYMBOL FOR HOUR ONE", aliases: &[] },
        Codepoint { codepoint: 0x335A, name: "IDEOGRAPHIC TELEGRAPH SYMBOL FOR HOUR TWO", aliases: &[] },
        Codepoint { codepoint: 0x335B, name: "IDEOGRAPHIC TELEGRAPH SYMBOL FOR HOUR THREE", aliases: &[] },
        Codepoint { codepoint: 0x335C, name: "IDEOGRAPHIC TELEGRAPH SYMBOL FOR HOUR FOUR", aliases: &[] },
        Codepoint { codepoint: 0x335D, name: "IDEOGRAPHIC TELEGRAPH SYMBOL FOR HOUR FIVE", aliases: &[] },
        Codepoint { codepoint: 0x335E, name: "IDEOGRAPHIC TELEGRAPH SYMBOL FOR HOUR SIX", aliases: &[] },
        Codepoint { codepoint: 0x335F, name: "IDEOGRAPHIC TELEGRAPH SYMBOL FOR HOUR SEVEN", aliases: &[] },
        Codepoint { codepoint: 0x3360, name: "IDEOGRAPHIC TELEGRAPH SYMBOL FOR HOUR EIGHT", aliases: &[] },
        Codepoint { codepoint: 0x3361, name: "IDEOGRAPHIC TELEGRAPH SYMBOL FOR HOUR NINE", aliases: &[] },
        Codepoint { codepoint: 0x3362, name: "IDEOGRAPHIC TELEGRAPH SYMBOL FOR HOUR TEN", aliases: &[] },
        Codepoint { codepoint: 0x3363, name: "IDEOGRAPHIC TELEGRAPH SYMBOL FOR HOUR ELEVEN", aliases: &[] },
        Codepoint { codepoint: 0x3364, name: "IDEOGRAPHIC TELEGRAPH SYMBOL FOR HOUR TWELVE", aliases: &[] },
        Codepoint { codepoint: 0x3365, name: "IDEOGRAPHIC TELEGRAPH SYMBOL FOR HOUR THIRTEEN", aliases: &[] },
        Codepoint { codepoint: 0x3366, name: "IDEOGRAPHIC TELEGRAPH SYMBOL FOR HOUR FOURTEEN", aliases: &[] },
        Codepoint { codepoint: 0x3367, name: "IDEOGRAPHIC TELEGRAPH SYMBOL FOR HOUR FIFTEEN", aliases: &[] },
    ]
}

fn all_codepoints_301() -> (v: Vec<Codepoint>)
    ensures
        v@ == codepoint_table_301(),
{
    let v = vec![
        Codepoint { codepoint: 0x3340, name: "SQUARE PONDO", aliases: &["SQUARED PONDO"] },
        Codepoint { codepoint: 0x3341, name: "SQUARE HOORU", aliases: &["SQUARED HOORU"] },
        Codepoint { codepoint: 0x3342, name: "SQUARE HOON", aliases: &["SQUARED HOON"] },
        Codepoint { codepoint: 0x3343, name: "SQUARE MAIKURO", aliases: &["SQUARED MAIKURO"] },
        Codepoint { codepoint: 0x3344, name: "SQUARE MAIRU", aliases: &["SQUARED MAIRU"] },
        Codepoint { codepoint: 0x3345, name: "SQUARE MAHHA", aliases: &["SQUARED MAHHA"] },
        Codepoint { codepoint: 0x3346, name: "SQUARE MARUKU", aliases: &["SQUARED MARUKU"] },
        Codepoint { codepoint: 0x3347, name: "SQUARE MANSYON", aliases: &["SQUARED MANSYON"] },
        Codepoint { codepoint: 0x3348, name: "SQUARE MIKURON", aliases: &["SQUARED MIKURON"] },
        Codepoint { codepoint: 0x3349, name: "SQUARE MIRI", aliases: &["SQUARED MIRI"] },
        Codepoint { codepoint: 0x334A, name: "SQUARE MIRIBAARU", aliases: &["SQUARED MIRIBAARU"] },
        Codepoint { codepoint: 0x334B, name: "SQUARE MEGA", aliases: &["SQUARED MEGA"] },
        Codepoint { codepoint: 0x334C, name: "SQUARE MEGATON", aliases: &["SQUARED MEGATON"] },
        Codepoint { codepoint: 0x334D, name: "SQUARE MEETORU", aliases: &["SQUARED MEETORU"] },
        Codepoint { codepoint: 0x334E, name: "SQUARE YAADO", aliases: &["SQUARED YAADO"] },
        Codepoint { codepoint: 0x334F, name: "SQUARE YAARU", aliases: &["SQUARED YAARU"] },
        Codepoint { codepoint: 0x3350, name: "SQUARE YUAN", aliases: &["SQUARED YUAN"] },
        Codepoint { codepoint: 0x3351, name: "SQUARE RITTORU", aliases: &["SQUARED RITTORU"] },
        Codepoint { codepoint: 0x3352, name: "SQUARE RIRA", aliases: &["SQUARED RIRA"] },
        Codepoint { codepoint: 0x3353, name: "SQUARE RUPII", aliases: &["SQUARED RUPII"] },
        Codepoint { codepoint: 0x3354, name: "SQUARE RUUBURU", aliases: &["SQUARED RUUBURU"] },
        Codepoint { codepoint: 0x3355, name: "SQUARE REMU", aliases: &["SQUARED REMU"] },
        Codepoint { codepoint: 0x3356, name: "SQUARE RENTOGEN", aliases: &["SQUARED RENTOGEN"] },
        Codepoint { codepoint: 0x3357, name: "SQUARE WATTO", aliases: &["SQUARED WATTO"] },
        Codepoint { codepoint: 0x3358, name: "IDEOGRAPHIC TELEGRAPH SYMBOL FOR HOUR ZERO", aliases: &[] },
        Codepoint { codepoint: 0x3359, name: "IDEOGRAPHIC TELEGRAPH SYMBOL FOR HOUR ONE", aliases: &[] },
        Codepoint { codepoint: 0x335A, name: "IDEOGRAPHIC TELEGRAPH SYMBOL FOR HOUR TWO", aliases: &[] },
        Codepoint { codepoint: 0x335B, name: "IDEOGRAPHIC TELEGRAPH SYMBOL FOR HOUR THREE", aliases: &[] },
        Codepoint { codepoint: 0x335C, name: "IDEOGRAPHIC TELEGRAPH SYMBOL FOR HOUR FOUR", aliases: &[] },
        Codepoint { codepoint: 0x335D, name: "IDEOGRAPHIC TELEGRAPH SYMBOL FOR HOUR FIVE", aliases: &[] },
        Codepoint { codepoint: 0x335E, name: "IDEOGRAPHIC TELEGRAPH SYMBOL FOR HOUR SIX", aliases: &[] },
        Codepoint { codepoint: 0x335F, name: "IDEOGRAPHIC TELEGRAPH SYMBOL FOR HOUR SEVEN", aliases: &[] },
        Codepoint { codepoint: 0x3360, name: "IDEOGRAPHIC TELEGRAPH SYMBOL FOR HOUR EIGHT", aliases: &[] },
        Codepoint { codepoint: 0x3361, name: "IDEOGRAPHIC TELEGRAPH SYMBOL FOR HOUR NINE", aliases: &[] },
        Codepoint { codepoint: 0x3362, name: "IDEOGRAPHIC TELEGRAPH SYMBOL FOR HOUR TEN", aliases: &[] },
        Codepoint { codepoint: 0x3363, name: "IDEOGRAPHIC TELEGRAPH SYMBOL FOR HOUR ELEVEN", aliases: &[] },
        Codepoint { codepoint: 0x3364, name: "IDEOGRAPHIC TELEGRAPH SYMBOL FOR HOUR TWELVE", aliases: &[] },
        Codepoint { codepoint: 0x3365, name: "IDEOGRAPHIC TELEGRAPH SYMBOL FOR HOUR THIRTEEN", aliases: &[] },
        Codepoint { codepoint: 0x3366, name: "IDEOGRAPHIC TELEGRAPH SYMBOL FOR HOUR FOURTEEN", aliases: &[] },
        Codepoint { codepoint: 0x3367, name: "IDEOGRAPHIC TELEGRAPH SYMBOL FOR HOUR FIFTEEN", aliases: &[] },
    ];
    assert(v@ =~= codepoint_table_301());
    v
}

pub open spec fn codepoint_table_302() -> Seq<Codepoint> {
    seq![
        Codepoint { codepoint: 0x3368, name: "IDEOGRAPHIC TELEGRAPH SYMBOL FOR HOUR SIXTEEN", aliases: &[] },
        Codepoint { codepoint: 0x3369, name: "IDEOGRAPHIC TELEGRAPH SYMBOL FOR HOUR SEVENTEEN", aliases: &[] },
        Codepoint { codepoint: 0x336A, name: "IDEOGRAPHIC TELEGRAPH SYMBOL FOR HOUR EIGHTEEN", aliases: &[] },
        Codepoint { codepoint: 0x336B, name: "IDEOGRAPHIC TELEGRAPH SYMBOL FOR HOUR NINETEEN", aliases: &[] },
        Codepoint { codepoint: 0x336C, name: "IDEOGRAPHIC TELEGRAPH SYMBOL FOR HOUR TWENTY", aliases: &[] },
        Codepoint { codepoint: 0x336D, name: "IDEOGRAPHIC TELEGRAPH SYMBOL FOR HOUR TWENTY-ONE", aliases: &[] },
        Codepoint { codepoint: 0x336E, name: "IDEOGRAPHIC TELEGRAPH SYMBOL FOR HOUR TWENTY-TWO", aliases: &[] },
        Codepoint { codepoint: 0x336F, name: "IDEOGRAPHIC TELEGRAPH SYMBOL FOR HOUR TWENTY-THREE", aliases: &[] },
        Codepoint { codepoint: 0x3370, name: "IDEOGRAPHIC TELEGRAPH SYMBOL FOR HOUR TWENTY-FOUR", aliases: &[] },
        Codepoint { codepoint: 0x3371, name: "SQUARE HPA", aliases: &[] },
        Codepoint { codepoint: 0x3372, name: "SQUARE DA", aliases: &[] },
        Codepoint { codepoint: 0x3373, name: "SQUARE AU", aliases: &[] },
        Codepoint { codepoint: 0x3374, name: "SQUARE BAR", aliases: &[] },
        Codepoint { codepoint: 0x3375, name: "SQUARE OV", aliases: &[] },
        Codepoint { codepoint: 0x3376, name: "SQUARE PC", aliases: &[] },
        Codepoint { codepoint: 0x3377, name: "SQUARE DM", aliases: &[] },
        Codepoint { codepoint: 0x3378, name: "SQUARE DM SQUARED", aliases: &[] },
        Codepoint { codepoint: 0x3379, name: "SQUARE DM CUBED", aliases: &[] },
        Codepoint { codepoint: 0x337A, name: "SQUARE IU", aliases: &[] },
        Codepoint { codepoint: 0x337B, name: "SQUARE ERA NAME HEISEI", aliases: &["SQUARED TWO IDEOGRAPHS ERA NAME HEISEI"] },
        Codepoint { codepoint: 0x337C, name: "SQUARE ERA NAME SYOUWA", aliases: &["SQUARED TWO IDEOGRAPHS ERA NAME SYOUWA"] },
        Codepoint { codepoint: 0x337D, name: "SQUARE ERA NAME TAISYOU", aliases: &["SQUARED TWO IDEOGRAPHS ERA NAME TAISYOU"] },
        Codepoint { codepoint: 0x337E, name: "SQUARE ERA NAME MEIZI", aliases: &["SQUARED TWO IDEOGRAPHS ERA NAME MEIZI"] },
        Codepoint { codepoint: 0x337F, name: "SQUARE CORPORATION", aliases: &["SQUARED FOUR IDEOGRAPHS CORPORATION"] },
        Codepoint { codepoint: 0x3380, name: "SQUARE PA AMPS", aliases: &["SQUARED PA AMPS"] },
        Codepoint { codepoint: 0x3381, name: "SQUARE NA", aliases: &["SQUARED NA"] },
        Codepoint { codepoint: 0x3382, name: "SQUARE MU A", aliases: &["SQUARED MU A"] },
        Codepoint { codepoint: 0x3383, name: "SQUARE MA", aliases: &["SQUARED MA"] },
        Codepoint { codepoint: 0x3384, name: "SQUARE KA", aliases: &["SQUARED KA"] },
        Codepoint { codepoint: 0x3385, name: "SQUARE KB", aliases: &["SQUARED KB"] },
        Codepoint { codepoint: 0x3386, name: "SQUARE MB", aliases: &["SQUARED MB"] },
        Codepoint { codepoint: 0x3387, name: "SQUARE GB", aliases: &["SQUARED GB"] },
        Codepoint { codepoint: 0x3388, name: "SQUARE CAL", aliases: &["SQUARED CAL"] },
        Codepoint { codepoint: 0x3389, name: "SQUARE KCAL", aliases: &["SQUARED KCAL"] },
        Codepoint { codepoint: 0x338A, name: "SQUARE PF", aliases: &["SQUARED PF"] },
        Codepoint { codepoint: 0x338B, name: "SQUARE NF", aliases: &["SQUARED NF"] },
        Codepoint { codepoint: 0x338C, name: "SQUARE MU F", aliases: &["SQUARED MU F"] },
        Codepoint { codepoint: 0x338D, name: "SQUARE MU G", aliases: &["SQUARED MU G"] },
        Codepoint { codepoint: 0x338E, name: "SQUARE MG", aliases: &["SQUARED MG"] },
        Codepoint { codepoint: 0x338F, name: "SQUARE KG", aliases: &["SQUARED KG"] },
    ]
}

fn all_codepoints_302() -> (v: Vec<Codepoint>)
    ensures
        v@ == codepoint_table_302(),
{
    let v = vec![
        Codepoint { codepoint: 0x3368, name: "IDEOGRAPHIC TELEGRAPH SYMBOL FOR HOUR SIXTEEN", aliases: &[] },
        Codepoint { codepoint: 0x3369, name: "IDEOGRAPHIC TELEGRAPH SYMBOL FOR HOUR SEVENTEEN", aliases: &[] },
        Codepoint { codepoint: 0x336A, name: "IDEOGRAPHIC TELEGRAPH SYMBOL FOR HOUR EIGHTEEN", aliases: &[] },
        Codepoint { codepoint: 0x336B, name: "IDEOGRAPHIC TELEGRAPH SYMBOL FOR HOUR NINETEEN", aliases: &[] },
        Codepoint { codepoint: 0x336C, name: "IDEOGRAPHIC TELEGRAPH SYMBOL FOR HOUR TWENTY", aliases: &[] },
        Codepoint { codepoint: 0x336D, name: "IDEOGRAPHIC TELEGRAPH SYMBOL FOR HOUR TWENTY-ONE", aliases: &[] },
        Codepoint { codepoint: 0x336E, name: "IDEOGRAPHIC TELEGRAPH SYMBOL FOR HOUR TWENTY-TWO", aliases: &[] },
        Codepoint { codepoint: 0x336F, name: "IDEOGRAPHIC TELEGRAPH SYMBOL FOR HOUR TWENTY-THREE", aliases: &[] },
        Codepoint { codepoint: 0x3370, name: "IDEOGRAPHIC TELEGRAPH SYMBOL FOR HOUR TWENTY-FOUR", aliases: &[] },
        Codepoint { codepoint: 0x3371, name: "SQUARE HPA", aliases: &[] },
        Codepoint { codepoint: 0x3372, name: "SQUARE DA", aliases: &[] },
        Codepoint { codepoint: 0x3373, name: "SQUARE AU", aliases: &[] },
        Codepoint { codepoint: 0x3374, name: "SQUARE BAR", aliases: &[] },
        Codepoint { codepoint: 0x3375, name: "SQUARE OV", aliases: &[] },
        Codepoint { codepoint: 0x3376, name: "SQUARE PC", aliases: &[] },
        Codepoint { codepoint: 0x3377, name: "SQUARE DM", aliases: &[] },
        Codepoint { codepoint: 0x3378, name: "SQUARE DM SQUARED", aliases: &[] },
        Codepoint { codepoint: 0x3379, name: "SQUARE DM CUBED", aliases: &[] },
        Codepoint { codepoint: 0x337A, name: "SQUARE IU", aliases: &[] },
        Codepoint { codepoint: 0x337B, name: "SQUARE ERA NAME HEISEI", aliases: &["SQUARED TWO IDEOGRAPHS ERA NAME HEISEI"] },
        Codepoint { codepoint: 0x337C, name: "SQUARE ERA NAME SYOUWA", aliases: &["SQUARED TWO IDEOGRAPHS ERA NAME SYOUWA"] },
        Codepoint { codepoint: 0x337D, name: "SQUARE ERA NAME TAISYOU", aliases: &["SQUARED TWO IDEOGRAPHS ERA NAME TAISYOU"] },
        Codepoint { codepoint: 0x337E, name: "SQUARE ERA NAME MEIZI", aliases: &["SQUARED TWO IDEOGRAPHS ERA NAME MEIZI"] },
        Codepoint { codepoint: 0x337F, name: "SQUARE CORPORATION", aliases: &["SQUARED FOUR IDEOGRAPHS CORPORATION"] },
        Codepoint { codepoint: 0x3380, name: "SQUARE PA AMPS", aliases: &["SQUARED PA AMPS"] },
        Codepoint { codepoint: 0x3381, name: "SQUARE NA", aliases: &["SQUARED NA"] },
        Codepoint { codepoint: 0x3382, name: "SQUARE MU A", aliases: &["SQUARED MU A"] },
        Codepoint { codepoint: 0x3383, name: "SQUARE MA", aliases: &["SQUARED MA"] },
        Codepoint { codepoint: 0x3384, name: "SQUARE KA", aliases: &["SQUARED KA"] },
        Codepoint { codepoint: 0x3385, name: "SQUARE KB", aliases: &["SQUARED KB"] },
        Codepoint { codepoint: 0x3386, name: "SQUARE MB", aliases: &["SQUARED MB"] },
        Codepoint { codepoint: 0x3387, name: "SQUARE GB", aliases: &["SQUARED GB"] },
        Codepoint { codepoint: 0x3388, name: "SQUARE CAL", aliases: &["SQUARED CAL"] },
        Codepoint { codepoint: 0x3389, name: "SQUARE KCAL", aliases: &["SQUARED KCAL"] },
        Codepoint { codepoint: 0x338A, name: "SQUARE PF", aliases: &["SQUARED PF"] },
        Codepoint { codepoint: 0x338B, name: "SQUARE NF", aliases: &["SQUARED NF"] },
        Codepoint { codepoint: 0x338C, name: "SQUARE MU F", aliases: &["SQUARED MU F"] },
        Codepoint { codepoint: 0x338D, name: "SQUARE MU G", aliases: &["SQUARED MU G"] },
        Codepoint { codepoint: 0x338E, name: "SQUARE MG", aliases: &["SQUARED MG"] },
        Codepoint { codepoint: 0x338F, name: "SQUARE KG", aliases: &["SQUARED KG"] },
    ];
    assert(v@ =~= codepoint_table_302());
    v
}

pub open spec fn codepoint_table_303() -> Seq<Codepoint> {
    seq![
        Codepoint { codepoint: 0x3390, name: "SQUARE HZ", aliases: &["SQUARED HZ"] },
        Codepoint { codepoint: 0x3391, name: "SQUARE KHZ", aliases: &["SQUARED KHZ"] },
        Codepoint { codepoint: 0x3392, name: "SQUARE MHZ", aliases: &["SQUARED MHZ"] },
        Codepoint { codepoint: 0x3393, name: "SQUARE GHZ", aliases: &["SQUARED GHZ"] },
        Codepoint { codepoint: 0x3394, name: "SQUARE THZ", aliases: &["SQUARED THZ"] },
        Codepoint { codepoint: 0x3395, name: "SQUARE MU L", aliases: &["SQUARED MU L"] },
        Codepoint { codepoint: 0x3396, name: "SQUARE ML", aliases: &["SQUARED ML"] },
        Codepoint { codepoint: 0x3397, name: "SQUARE DL", aliases: &["SQUARED DL"] },
        Codepoint { codepoint: 0x3398, name: "SQUARE KL", aliases: &["SQUARED KL"] },
        Codepoint { codepoint: 0x3399, name: "SQUARE FM", aliases: &["SQUARED FM"] },
        Codepoint { codepoint: 0x339A, name: "SQUARE NM", aliases: &["SQUARED NM"] },
        Codepoint { codepoint: 0x339B, name: "SQUARE MU M", aliases: &["SQUARED MU M"] },
        Codepoint { codepoint: 0x339C, name: "SQUARE MM", aliases: &["SQUARED MM"] },
        Codepoint { codepoint: 0x339D, name: "SQUARE CM", aliases: &["SQUARED CM"] },
        Codepoint { codepoint: 0x339E, name: "SQUARE KM", aliases: &["SQUARED KM"] },
        Codepoint { codepoint: 0x339F, name: "SQUARE MM SQUARED", aliases: &["SQUARED MM SQUARED"] },
        Codepoint { codepoint: 0x33A0, name: "SQUARE CM SQUARED", aliases: &["SQUARED CM SQUARED"] },
        Codepoint { codepoint: 0x33A1, name: "SQUARE M SQUARED", aliases: &["SQUARED M SQUARED"] },
        Codepoint { codepoint: 0x33A2, name: "SQUARE KM SQUARED", aliases: &["SQUARED KM SQUARED"] },
        Codepoint { codepoint: 0x33A3, name: "SQUARE MM CUBED", aliases: &["SQUARED MM CUBED"] },
        Codepoint { codepoint: 0x33A4, name: "SQUARE CM CUBED", aliases: &["SQUARED CM CUBED"] },
        Codepoint { codepoint: 0x33A5, name: "SQUARE M CUBED", aliases: &["SQUARED M CUBED"] },
        Codepoint { codepoint: 0x33A6, name: "SQUARE KM CUBED", aliases: &["SQUARED KM CUBED"] },
        Codepoint { codepoint: 0x33A7, name: "SQUARE M OVER S", aliases: &["SQUARED M OVER S"] },
        Codepoint { codepoint: 0x33A8, name: "SQUARE M OVER S SQUARED", aliases: &["SQUARED M OVER S SQUARED"] },
        Codepoint { codepoint: 0x33A9, name: "SQUARE PA", aliases: &["SQUARED PA"] },
        Codepoint { codepoint: 0x33AA, name: "SQUARE KPA", aliases: &["SQUARED KPA"] },
        Codepoint { codepoint: 0x33AB, name: "SQUARE MPA", aliases: &["SQUARED MPA"] },
        Codepoint { codepoint: 0x33AC, name: "SQUARE GPA", aliases: &["SQUARED GPA"] },
        Codepoint { codepoint: 0x33AD, name: "SQUARE RAD", aliases: &["SQUARED RAD"] },
        Codepoint { codepoint: 0x33AE, name: "SQUARE RAD OVER S", aliases: &["SQUARED RAD OVER S"] },
        Codepoint { codepoint: 0x33AF, name: "SQUARE RAD OVER S SQUARED", aliases: &["SQUARED RAD OVER S SQUARED"] },
        Codepoint { codepoint: 0x33B0, name: "SQUARE PS", aliases: &["SQUARED PS"] },
        Codepoint { codepoint: 0x33B1, name: "SQUARE NS", aliases: &["SQUARED NS"] },
        Codepoint { codepoint: 0x33B2, name: "SQUARE MU S", aliases: &["SQUARED MU S"] },
        Codepoint { codepoint: 0x33B3, name: "SQUARE MS", aliases: &["SQUARED MS"] },
        Codepoint { codepoint: 0x33B4, name: "SQUARE PV", aliases: &["SQUARED PV"] },
        Codepoint { codepoint: 0x33B5, name: "SQUARE NV", aliases: &["SQUARED NV"] },
        Codepoint { codepoint: 0x33B6, name: "SQUARE MU V", aliases: &["SQUARED MU V"] },
        Codepoint { codepoint: 0x33B7, name: "SQUARE MV", aliases: &["SQUARED MV"] },
    ]
}

fn all_codepoints_303() -> (v: Vec<Codepoint>)
    ensures
        v@ == codepoint_table_303(),
{
    let v = vec![
        Codepoint { codepoint: 0x3390, name: "SQUARE HZ", aliases: &["SQUARED HZ"] },
        Codepoint { codepoint: 0x3391, name: "SQUARE KHZ", aliases: &["SQUARED KHZ"] },
        Codepoint { codepoint: 0x3392, name: "SQUARE MHZ", aliases: &["SQUARED MHZ"] },
        Codepoint { codepoint: 0x3393, name: "SQUARE GHZ", aliases: &["SQUARED GHZ"] },
        Codepoint { codepoint: 0x3394, name: "SQUARE THZ", aliases: &["SQUARED THZ"] },
        Codepoint { codepoint: 0x3395, name: "SQUARE MU L", aliases: &["SQUARED MU L"] },
        Codepoint { codepoint: 0x3396, name: "SQUARE ML", aliases: &["SQUARED ML"] },
        Codepoint { codepoint: 0x3397, name: "SQUARE DL", aliases: &["SQUARED DL"] },
        Codepoint { codepoint: 0x3398, name: "SQUARE KL", aliases: &["SQUARED KL"] },
        Codepoint { codepoint: 0x3399, name: "SQUARE FM", aliases: &["SQUARED FM"] },
        Codepoint { codepoint: 0x339A, name: "SQUARE NM", aliases: &["SQUARED NM"] },
        Codepoint { codepoint: 0x339B, name: "SQUARE MU M", aliases: &["SQUARED MU M"] },
        Codepoint { codepoint: 0x339C, name: "SQUARE MM", aliases: &["SQUARED MM"] },
        Codepoint { codepoint: 0x339D, name: "SQUARE CM", aliases: &["SQUARED CM"] },
        Codepoint { codepoint: 0x339E, name: "SQUARE KM", aliases: &["SQUARED KM"] },
        Codepoint { codepoint: 0x339F, name: "SQUARE MM SQUARED", aliases: &["SQUARED MM SQUARED"] },
        Codepoint { codepoint: 0x33A0, name: "SQUARE CM SQUARED", aliases: &["SQUARED CM SQUARED"] },
        Codepoint { codepoint: 0x33A1, name: "SQUARE M SQUARED", aliases: &["SQUARED M SQUARED"] },
        Codepoint { codepoint: 0x33A2, name: "SQUARE KM SQUARED", aliases: &["SQUARED KM SQUARED"] },
        Codepoint { codepoint: 0x33A3, name: "SQUARE MM CUBED", aliases: &["SQUARED MM CUBED"] },
        Codepoint { codepoint: 0x33A4, name: "SQUARE CM CUBED", aliases: &["SQUARED CM CUBED"] },
        Codepoint { codepoint: 0x33A5, name: "SQUARE M CUBED", aliases: &["SQUARED M CUBED"] },
        Codepoint { codepoint: 0x33A6, name: "SQUARE KM CUBED", aliases: &["SQUARED KM CUBED"] },
        Codepoint { codepoint: 0x33A7, name: "SQUARE M OVER S", aliases: &["SQUARED M OVER S"] },
        Codepoint { codepoint: 0x33A8, name: "SQUARE M OVER S SQUARED", aliases: &["SQUARED M OVER S SQUARED"] },
        Codepoint { codepoint: 0x33A9, name: "SQUARE PA", aliases: &["SQUARED PA"] },
        Codepoint { codepoint: 0x33AA, name: "SQUARE KPA", aliases: &["SQUARED KPA"] },
        Codepoint { codepoint: 0x33AB, name: "SQUARE MPA", aliases: &["SQUARED MPA"] },
        Codepoint { codepoint: 0x33AC, name: "SQUARE GPA", aliases: &["SQUARED GPA"] },
        Codepoint { codepoint: 0x33AD, name: "SQUARE RAD", aliases: &["SQUARED RAD"] },
        Codepoint { codepoint: 0x33AE, name: "SQUARE RAD OVER S", aliases: &["SQUARED RAD OVER S"] },
        Codepoint { codepoint: 0x33AF, name: "SQUARE RAD OVER S SQUARED", aliases: &["SQUARED RAD OVER S SQUARED"] },
        Codepoint { codepoint: 0x33B0, name: "SQUARE PS", aliases: &["SQUARED PS"] },
        Codepoint { codepoint: 0x33B1, name: "SQUARE NS", aliases: &["SQUARED NS"] },
        Codepoint { codepoint: 0x33B2, name: "SQUARE MU S", aliases: &["SQUARED MU S"] },
        Codepoint { codepoint: 0x33B3, name: "SQUARE MS", aliases: &["SQUARED MS"] },
        Codepoint { codepoint: 0x33B4, name: "SQUARE PV", aliases: &["SQUARED PV"] },
        Codepoint { codepoint: 0x33B5, name: "SQUARE NV", aliases: &["SQUARED NV"] },
        Codepoint { codepoint: 0x33B6, name: "SQUARE MU V", aliases: &["SQUARED MU V"] },
        Codepoint { codepoint: 0x33B7, name: "SQUARE MV", aliases: &["SQUARED MV"] },
    ];
    assert(v@ =~= codepoint_table_303());
    v
}

pub open spec fn codepoint_table_304() -> Seq<Codepoint> {
    seq![
        Codepoint { codepoint: 0x33B8, name: "SQUARE KV", aliases: &["SQUARED KV"] },
        Codepoint { codepoint: 0x33B9, name: "SQUARE MV MEGA", aliases: &["SQUARED MV MEGA"] },
        Codepoint { codepoint: 0x33BA, name: "SQUARE PW", aliases: &["SQUARED PW"] },
        Codepoint { codepoint: 0x33BB, name: "SQUARE NW", aliases: &["SQUARED NW"] },
        Codepoint { codepoint: 0x33BC, name: "SQUARE MU W", aliases: &["SQUARED MU W"] },
        Codepoint { codepoint: 0x33BD, name: "SQUARE MW", aliases: &["SQUARED MW"] },
        Codepoint { codepoint: 0x33BE, name: "SQUARE KW", aliases: &["SQUARED KW"] },
        Codepoint { codepoint: 0x33BF, name: "SQUARE MW MEGA", aliases: &["SQUARED MW MEGA"] },
        Codepoint { codepoint: 0x33C0, name: "SQUARE K OHM", aliases: &["SQUARED K OHM"] },
        Codepoint { codepoint: 0x33C1, name: "SQUARE M OHM", aliases: &["SQUARED M OHM"] },
        Codepoint { codepoint: 0x33C2, name: "SQUARE AM", aliases: &["SQUARED AM"] },
        Codepoint { codepoint: 0x33C3, name: "SQUARE BQ", aliases: &["SQUARED BQ"] },
        Codepoint { codepoint: 0x33C4, name: "SQUARE CC", aliases: &["SQUARED CC"] },
        Codepoint { codepoint: 0x33C5, name: "SQUARE CD", aliases: &["SQUARED CD"] },
        Codepoint { codepoint: 0x33C6, name: "SQUARE C OVER KG", aliases: &["SQUARED C OVER KG"] },
        Codepoint { codepoint: 0x33C7, name: "SQUARE CO", aliases: &["SQUARED CO"] },
        Codepoint { codepoint: 0x33C8, name: "SQUARE DB", aliases: &["SQUARED DB"] },
        Codepoint { codepoint: 0x33C9, name: "SQUARE GY", aliases: &["SQUARED GY"] },
        Codepoint { codepoint: 0x33CA, name: "SQUARE HA", aliases: &["SQUARED HA"] },
        Codepoint { codepoint: 0x33CB, name: "SQUARE HP", aliases: &["SQUARED HP"] },
        Codepoint { codepoint: 0x33CC, name: "SQUARE IN", aliases: &["SQUARED IN"] },
        Codepoint { codepoint: 0x33CD, name: "SQUARE KK", aliases: &["SQUARED KK"] },
        Codepoint { codepoint: 0x33CE, name: "SQUARE KM CAPITAL", aliases: &["SQUARED KM CAPITAL"] },
        Codepoint { codepoint: 0x33CF, name: "SQUARE KT", aliases: &["SQUARED KT"] },
        Codepoint { codepoint: 0x33D0, name: "SQUARE LM", aliases: &["SQUARED LM"] },
        Codepoint { codepoint: 0x33D1, name: "SQUARE LN", aliases: &["SQUARED LN"] },
        Codepoint { codepoint: 0x33D2, name: "SQUARE LOG", aliases: &["SQUARED LOG"] },
        Codepoint { codepoint: 0x33D3, name: "SQUARE LX", aliases: &["SQUARED LX"] },
        Codepoint { codepoint: 0x33D4, name: "SQUARE MB SMALL", aliases: &["SQUARED MB SMALL"] },
        Codepoint { codepoint: 0x33D5, name: "SQUARE MIL", aliases: &["SQUARED MIL"] },
        Codepoint { codepoint: 0x33D6, name: "SQUARE MOL", aliases: &["SQUARED MOL"] },
        Codepoint { codepoint: 0x33D7, name: "SQUARE PH", aliases: &["SQUARED PH"] },
        Codepoint { codepoint: 0x33D8, name: "SQUARE PM", aliases: &["SQUARED PM"] },
        Codepoint { codepoint: 0x33D9, name: "SQUARE PPM", aliases: &["SQUARED PPM"] },
        Codepoint { codepoint: 0x33DA, name: "SQUARE PR", aliases: &["SQUARED PR"] },
        Codepoint { codepoint: 0x33DB, name: "SQUARE SR", aliases: &["SQUARED SR"] },
        Codepoint { codepoint: 0x33DC, name: "SQUARE SV", aliases: &["SQUARED SV"] },
        Codepoint { codepoint: 0x33DD, name: "SQUARE WB", aliases: &["SQUARED WB"] },
        Codepoint { codepoint: 0x33DE, name: "SQUARE V OVER M", aliases: &[] },
        Codepoint { codepoint: 0x33DF, name: "SQUARE A OVER M", aliases: &[] },
    ]
}

fn all_codepoints_304() -> (v: Vec<Codepoint>)
    ensures
        v@ == codepoint_table_304(),
{
    let v = vec![
        Codepoint { codepoint: 0x33B8, name: "SQUARE KV", aliases: &["SQUARED KV"] },
        Codepoint { codepoint: 0x33B9, name: "SQUARE MV MEGA", aliases: &["SQUARED MV MEGA"] },
        Codepoint { codepoint: 0x33BA, name: "SQUARE PW", aliases: &["SQUARED PW"] },
        Codepoint { codepoint: 0x33BB, name: "SQUARE NW", aliases: &["SQUARED NW"] },
        Codepoint { codepoint: 0x33BC, name: "SQUARE MU W", aliases: &["SQUARED MU W"] },
        Codepoint { codepoint: 0x33BD, name: "SQUARE MW", aliases: &["SQUARED MW"] },
        Codepoint { codepoint: 0x33BE, name: "SQUARE KW", aliases: &["SQUARED KW"] },
        Codepoint { codepoint: 0x33BF, name: "SQUARE MW MEGA", aliases: &["SQUARED MW MEGA"] },
        Codepoint { codepoint: 0x33C0, name: "SQUARE K OHM", aliases: &["SQUARED K OHM"] },
        Codepoint { codepoint: 0x33C1, name: "SQUARE M OHM", aliases: &["SQUARED M OHM"] },
        Codepoint { codepoint: 0x33C2, name: "SQUARE AM", aliases: &["SQUARED AM"] },
        Codepoint { codepoint: 0x33C3, name: "SQUARE BQ", aliases: &["SQUARED BQ"] },
        Codepoint { codepoint: 0x33C4, name: "SQUARE CC", aliases: &["SQUARED CC"] },
        Codepoint { codepoint: 0x33C5, name: "SQUARE CD", aliases: &["SQUARED CD"] },
        Codepoint { codepoint: 0x33C6, name: "SQUARE C OVER KG", aliases: &["SQUARED C OVER KG"] },
        Codepoint { codepoint: 0x33C7, name: "SQUARE CO", aliases: &["SQUARED CO"] },
        Codepoint { codepoint: 0x33C8, name: "SQUARE DB", aliases: &["SQUARED DB"] },
        Codepoint { codepoint: 0x33C9, name: "SQUARE GY", aliases: &["SQUARED GY"] },
        Codepoint { codepoint: 0x33CA, name: "SQUARE HA", aliases: &["SQUARED HA"] },
        Codepoint { codepoint: 0x33CB, name: "SQUARE HP", aliases: &["SQUARED HP"] },
        Codepoint { codepoint: 0x33CC, name: "SQUARE IN", aliases: &["SQUARED IN"] },
        Codepoint { codepoint: 0x33CD, name: "SQUARE KK", aliases: &["SQUARED KK"] },
        Codepoint { codepoint: 0x33CE, name: "SQUARE KM CAPITAL", aliases: &["SQUARED KM CAPITAL"] },
        Codepoint { codepoint: 0x33CF, name: "SQUARE KT", aliases: &["SQUARED KT"] },
        Codepoint { codepoint: 0x33D0, name: "SQUARE LM", aliases: &["SQUARED LM"] },
        Codepoint { codepoint: 0x33D1, name: "SQUARE LN", aliases: &["SQUARED LN"] },
        Codepoint { codepoint: 0x33D2, name: "SQUARE LOG", aliases: &["SQUARED LOG"] },
        Codepoint { codepoint: 0x33D3, name: "SQUARE LX", aliases: &["SQUARED LX"] },
        Codepoint { codepoint: 0x33D4, name: "SQUARE MB SMALL", aliases: &["SQUARED MB SMALL"] },
        Codepoint { codepoint: 0x33D5, name: "SQUARE MIL", aliases: &["SQUARED MIL"] },
        Codepoint { codepoint: 0x33D6, name: "SQUARE MOL", aliases: &["SQUARED MOL"] },
        Codepoint { codepoint: 0x33D7, name: "SQUARE PH", aliases: &["SQUARED PH"] },
        Codepoint { codepoint: 0x33D8, name: "SQUARE PM", aliases: &["SQUARED PM"] },
        Codepoint { codepoint: 0x33D9, name: "SQUARE PPM", aliases: &["SQUARED PPM"] },
        Codepoint { codepoint: 0x33DA, name: "SQUARE PR", aliases: &["SQUARED PR"] },
        Codepoint { codepoint: 0x33DB, name: "SQUARE SR", aliases: &["SQUARED SR"] },
        Codepoint { codepoint: 0x33DC, name: "SQUARE SV", aliases: &["SQUARED SV"] },
        Codepoint { codepoint: 0x33DD, name: "SQUARE WB", aliases: &["SQUARED WB"] },
        Codepoint { codepoint: 0x33DE, name: "SQUARE V OVER M", aliases: &[] },
        Codepoint { codepoint: 0x33DF, name: "SQUARE A OVER M", aliases: &[] },
    ];
    assert(v@ =~= codepoint_table_304());
    v
}

pub open spec fn codepoint_table_305() -> Seq<Codepoint> {
    seq![
        Codepoint { codepoint: 0x33E0, name: "IDEOGRAPHIC TELEGRAPH SYMBOL FOR DAY ONE", aliases: &[] },
        Codepoint { codepoint: 0x33E1, name: "IDEOGRAPHIC TELEGRAPH SYMBOL FOR DAY TWO", aliases: &[] },
        Codepoint { codepoint: 0x33E2, name: "IDEOGRAPHIC TELEGRAPH SYMBOL FOR DAY THREE", aliases: &[] },
        Codepoint { codepoint: 0x33E3, name: "IDEOGRAPHIC TELEGRAPH SYMBOL FOR DAY FOUR", aliases: &[] },
        Codepoint { codepoint: 0x33E4, name: "IDEOGRAPHIC TELEGRAPH SYMBOL FOR DAY FIVE", aliases: &[] },
        Codepoint { codepoint: 0x33E5, name: "IDEOGRAPHIC TELEGRAPH SYMBOL FOR DAY SIX", aliases: &[] },
        Codepoint { codepoint: 0x33E6, name: "IDEOGRAPHIC TELEGRAPH SYMBOL FOR DAY SEVEN", aliases: &[] },
        Codepoint { codepoint: 0x33E7, name: "IDEOGRAPHIC TELEGRAPH SYMBOL FOR DAY EIGHT", aliases: &[] },
        Codepoint { codepoint: 0x33E8, name: "IDEOGRAPHIC TELEGRAPH SYMBOL FOR DAY NINE", aliases: &[] },
        Codepoint { codepoint: 0x33E9, name: "IDEOGRAPHIC TELEGRAPH SYMBOL FOR DAY TEN", aliases: &[] },
        Codepoint { codepoint: 0x33EA, name: "IDEOGRAPHIC TELEGRAPH SYMBOL FOR DAY ELEVEN", aliases: &[] },
        Codepoint { codepoint: 0x33EB, name: "IDEOGRAPHIC TELEGRAPH SYMBOL FOR DAY TWELVE", aliases: &[] },
        Codepoint { codepoint: 0x33EC, name: "IDEOGRAPHIC TELEGRAPH SYMBOL FOR DAY THIRTEEN", aliases: &[] },
        Codepoint { codepoint: 0x33ED, name: "IDEOGRAPHIC TELEGRAPH SYMBOL FOR DAY FOURTEEN", aliases: &[] },
        Codepoint { codepoint: 0x33EE, name: "IDEOGRAPHIC TELEGRAPH SYMBOL FOR DAY FIFTEEN", aliases: &[] },
        Codepoint { codepoint: 0x33EF, name: "IDEOGRAPHIC TELEGRAPH SYMBOL FOR DAY SIXTEEN", aliases: &[] },
        Codepoint { codepoint: 0x33F0, name: "IDEOGRAPHIC TELEGRAPH SYMBOL FOR DAY SEVENTEEN", aliases: &[] },
        Codepoint { codepoint: 0x33F1, name: "IDEOGRAPHIC TELEGRAPH SYMBOL FOR DAY EIGHTEEN", aliases: &[] },
        Codepoint { codepoint: 0x33F2, name: "IDEOGRAPHIC TELEGRAPH SYMBOL FOR DAY NINETEEN", aliases: &[] },
        Codepoint { codepoint: 0x33F3, name: "IDEOGRAPHIC TELEGRAPH SYMBOL FOR DAY TWENTY", aliases: &[] },
        Codepoint { codepoint: 0x33F4, name: "IDEOGRAPHIC TELEGRAPH SYMBOL FOR DAY TWENTY-ONE", aliases: &[] },
        Codepoint { codepoint: 0x33F5, name: "IDEOGRAPHIC TELEGRAPH SYMBOL FOR DAY TWENTY-TWO", aliases: &[] },
        Codepoint { codepoint: 0x33F6, name: "IDEOGRAPHIC TELEGRAPH SYMBOL FOR DAY TWENTY-THREE", aliases: &[] },
        Codepoint { codepoint: 0x33F7, name: "IDEOGRAPHIC TELEGRAPH SYMBOL FOR DAY TWENTY-FOUR", aliases: &[] },
        Codepoint { codepoint: 0x33F8, name: "IDEOGRAPHIC TELEGRAPH SYMBOL FOR DAY TWENTY-FIVE", aliases: &[] },
        Codepoint { codepoint: 0x33F9, name: "IDEOGRAPHIC TELEGRAPH SYMBOL FOR DAY TWENTY-SIX", aliases: &[] },
        Codepoint { codepoint: 0x33FA, name: "IDEOGRAPHIC TELEGRAPH SYMBOL FOR DAY TWENTY-SEVEN", aliases: &[] },
        Codepoint { codepoint: 0x33FB, name: "IDEOGRAPHIC TELEGRAPH SYMBOL FOR DAY TWENTY-EIGHT", aliases: &[] },
        Codepoint { codepoint: 0x33FC, name: "IDEOGRAPHIC TELEGRAPH SYMBOL FOR DAY TWENTY-NINE", aliases: &[] },
        Codepoint { codepoint: 0x33FD, name: "IDEOGRAPHIC TELEGRAPH SYMBOL FOR DAY THIRTY", aliases: &[] },
        Codepoint { codepoint: 0x33FE, name: "IDEOGRAPHIC TELEGRAPH SYMBOL FOR DAY THIRTY-ONE", aliases: &[] },
        Codepoint { codepoint: 0x33FF, name: "SQUARE GAL", aliases: &[] },
        Codepoint { codepoint: 0x3400, name: "<CJK Ideograph Extension A, First>", aliases: &[] },
        Codepoint { codepoint: 0x4DBF, name: "<CJK Ideograph Extension A, Last>", aliases: &[] },
        Codepoint { codepoint: 0x4DC0, name: "HEXAGRAM FOR THE CREATIVE HEAVEN", aliases: &[] },
        Codepoint { codepoint: 0x4DC1, name: "HEXAGRAM FOR THE RECEPTIVE EARTH", aliases: &[] },
        Codepoint { codepoint: 0x4DC2, name: "HEXAGRAM FOR DIFFICULTY AT THE BEGINNING", aliases: &[] },
        Codepoint { codepoint: 0x4DC3, name: "HEXAGRAM FOR YOUTHFUL FOLLY", aliases: &[] },
        Codepoint { codepoint: 0x4DC4, name: "HEXAGRAM FOR WAITING", aliases: &[] },
        Codepoint { codepoint: 0x4DC5, name: "HEXAGRAM FOR CONFLICT", aliases: &[] },
    ]
}

fn all_codepoints_305() -> (v: Vec<Codepoint>)
    ensures
        v@ == codepoint_table_305(),
{
    let v = vec![
        Codepoint { codepoint: 0x33E0, name: "IDEOGRAPHIC TELEGRAPH SYMBOL FOR DAY ONE", aliases: &[] },
        Codepoint { codepoint: 0x33E1, name: "IDEOGRAPHIC TELEGRAPH SYMBOL FOR DAY TWO", aliases: &[] },
        Codepoint { codepoint: 0x33E2, name: "IDEOGRAPHIC TELEGRAPH SYMBOL FOR DAY THREE", aliases: &[] },
        Codepoint { codepoint: 0x33E3, name: "IDEOGRAPHIC TELEGRAPH SYMBOL FOR DAY FOUR", aliases: &[] },
        Codepoint { codepoint: 0x33E4, name: "IDEOGRAPHIC TELEGRAPH SYMBOL FOR DAY FIVE", aliases: &[] },
        Codepoint { codepoint: 0x33E5, name: "IDEOGRAPHIC TELEGRAPH SYMBOL FOR DAY SIX", aliases: &[] },
        Codepoint { codepoint: 0x33E6, name: "IDEOGRAPHIC TELEGRAPH SYMBOL FOR DAY SEVEN", aliases: &[] },
        Codepoint { codepoint: 0x33E7, name: "IDEOGRAPHIC TELEGRAPH SYMBOL FOR DAY EIGHT", aliases: &[] },
        Codepoint { codepoint: 0x33E8, name: "IDEOGRAPHIC TELEGRAPH SYMBOL FOR DAY NINE", aliases: &[] },
        Codepoint { codepoint: 0x33E9, name: "IDEOGRAPHIC TELEGRAPH SYMBOL FOR DAY TEN", aliases: &[] },
        Codepoint { codepoint: 0x33EA, name: "IDEOGRAPHIC TELEGRAPH SYMBOL FOR DAY ELEVEN", aliases: &[] },
        Codepoint { codepoint: 0x33EB, name: "IDEOGRAPHIC TELEGRAPH SYMBOL FOR DAY TWELVE", aliases: &[] },
        Codepoint { codepoint: 0x33EC, name: "IDEOGRAPHIC TELEGRAPH SYMBOL FOR DAY THIRTEEN", aliases: &[] },
        Codepoint { codepoint: 0x33ED, name: "IDEOGRAPHIC TELEGRAPH SYMBOL FOR DAY FOURTEEN", aliases: &[] },
        Codepoint { codepoint: 0x33EE, name: "IDEOGRAPHIC TELEGRAPH SYMBOL FOR DAY FIFTEEN", aliases: &[] },
        Codepoint { codepoint: 0x33EF, name: "IDEOGRAPHIC TELEGRAPH SYMBOL FOR DAY SIXTEEN", aliases: &[] },
        Codepoint { codepoint: 0x33F0, name: "IDEOGRAPHIC TELEGRAPH SYMBOL FOR DAY SEVENTEEN", aliases: &[] },
        Codepoint { codepoint: 0x33F1, name: "IDEOGRAPHIC TELEGRAPH SYMBOL FOR DAY EIGHTEEN", aliases: &[] },
        Codepoint { codepoint: 0x33F2, name: "IDEOGRAPHIC TELEGRAPH SYMBOL FOR DAY NINETEEN", aliases: &[] },
        Codepoint { codepoint: 0x33F3, name: "IDEOGRAPHIC TELEGRAPH SYMBOL FOR DAY TWENTY", aliases: &[] },
        Codepoint { codepoint: 0x33F4, name: "IDEOGRAPHIC TELEGRAPH SYMBOL FOR DAY TWENTY-ONE", aliases: &[] },
        Codepoint { codepoint: 0x33F5, name: "IDEOGRAPHIC TELEGRAPH SYMBOL FOR DAY TWENTY-TWO", aliases: &[] },
        Codepoint { codepoint: 0x33F6, name: "IDEOGRAPHIC TELEGRAPH SYMBOL FOR DAY TWENTY-THREE", aliases: &[] },
        Codepoint { codepoint: 0x33F7, name: "IDEOGRAPHIC TELEGRAPH SYMBOL FOR DAY TWENTY-FOUR", aliases: &[] },
        Codepoint { codepoint: 0x33F8, name: "IDEOGRAPHIC TELEGRAPH SYMBOL FOR DAY TWENTY-FIVE", aliases: &[] },
        Codepoint { codepoint: 0x33F9, name: "IDEOGRAPHIC TELEGRAPH SYMBOL FOR DAY TWENTY-SIX", aliases: &[] },
        Codepoint { codepoint: 0x33FA, name: "IDEOGRAPHIC TELEGRAPH SYMBOL FOR DAY TWENTY-SEVEN", aliases: &[] },
        Codepoint { codepoint: 0x33FB, name: "IDEOGRAPHIC TELEGRAPH SYMBOL FOR DAY TWENTY-EIGHT", aliases: &[] },
        Codepoint { codepoint: 0x33FC, name: "IDEOGRAPHIC TELEGRAPH SYMBOL FOR DAY TWENTY-NINE", aliases: &[] },
        Codepoint { codepoint: 0x33FD, name: "IDEOGRAPHIC TELEGRAPH SYMBOL FOR DAY THIRTY", aliases: &[] },
        Codepoint { codepoint: 0x33FE, name: "IDEOGRAPHIC TELEGRAPH SYMBOL FOR DAY THIRTY-ONE", aliases: &[] },
        Codepoint { codepoint: 0x33FF, name: "SQUARE GAL", aliases: &[] },
        Codepoint { codepoint: 0x3400, name: "<CJK Ideograph Extension A, First>", aliases: &[] },
        Codepoint { codepoint: 0x4DBF, name: "<CJK Ideograph Extension A, Last>", aliases: &[] },
        Codepoint { codepoint: 0x4DC0, name: "HEXAGRAM FOR THE CREATIVE HEAVEN", aliases: &[] },
        Codepoint { codepoint: 0x4DC1, name: "HEXAGRAM FOR THE RECEPTIVE EARTH", aliases: &[] },
        Codepoint { codepoint: 0x4DC2, name: "HEXAGRAM FOR DIFFICULTY AT THE BEGINNING", aliases: &[] },
        Codepoint { codepoint: 0x4DC3, name: "HEXAGRAM FOR YOUTHFUL FOLLY", aliases: &[] },
        Codepoint { codepoint: 0x4DC4, name: "HEXAGRAM FOR WAITING", aliases: &[] },
        Codepoint { codepoint: 0x4DC5, name: "HEXAGRAM FOR CONFLICT", aliases: &[] },
    ];
    assert(v@ =~= codepoint_table_305());
    v
}

pub open spec fn codepoint_table_306() -> Seq<Codepoint> {
    seq![
        Codepoint { codepoint: 0x4DC6, name: "HEXAGRAM FOR THE ARMY", aliases: &[] },
        Codepoint { codepoint: 0x4DC7, name: "HEXAGRAM FOR HOLDING TOGETHER", aliases: &[] },
        Codepoint { codepoint: 0x4DC8, name: "HEXAGRAM FOR SMALL TAMING", aliases: &[] },
        Codepoint { codepoint: 0x4DC9, name: "HEXAGRAM FOR TREADING", aliases: &[] },
        Codepoint { codepoint: 0x4DCA, name: "HEXAGRAM FOR PEACE", aliases: &[] },
        Codepoint { codepoint: 0x4DCB, name: "HEXAGRAM FOR STANDSTILL", aliases: &[] },
        Codepoint { codepoint: 0x4DCC, name: "HEXAGRAM FOR FELLOWSHIP", aliases: &[] },
        Codepoint { codepoint: 0x4DCD, name: "HEXAGRAM FOR GREAT POSSESSION", aliases: &[] },
        Codepoint { codepoint: 0x4DCE, name: "HEXAGRAM FOR MODESTY", aliases: &[] },
        Codepoint { codepoint: 0x4DCF, name: "HEXAGRAM FOR ENTHUSIASM", aliases: &[] },
        Codepoint { codepoint: 0x4DD0, name: "HEXAGRAM FOR FOLLOWING", aliases: &[] },
        Codepoint { codepoint: 0x4DD1, name: "HEXAGRAM FOR WORK ON THE DECAYED", aliases: &[] },
        Codepoint { codepoint: 0x4DD2, name: "HEXAGRAM FOR APPROACH", aliases: &[] },
        Codepoint { codepoint: 0x4DD3, name: "HEXAGRAM FOR CONTEMPLATION", aliases: &[] },
        Codepoint { codepoint: 0x4DD4, name: "HEXAGRAM FOR BITING THROUGH", aliases: &[] },
        Codepoint { codepoint: 0x4DD5, name: "HEXAGRAM FOR GRACE", aliases: &[] },
        Codepoint { codepoint: 0x4DD6, name: "HEXAGRAM FOR SPLITTING APART", aliases: &[] },
        Codepoint { codepoint: 0x4DD7, name: "HEXAGRAM FOR RETURN", aliases: &[] },
        Codepoint { codepoint: 0x4DD8, name: "HEXAGRAM FOR INNOCENCE", aliases: &[] },
        Codepoint { codepoint: 0x4DD9, name: "HEXAGRAM FOR GREAT TAMING", aliases: &[] },
        Codepoint { codepoint: 0x4DDA, name: "HEXAGRAM FOR MOUTH CORNERS", aliases: &[] },
        Codepoint { codepoint: 0x4DDB, name: "HEXAGRAM FOR GREAT PREPONDERANCE", aliases: &[] },
        Codepoint { codepoint: 0x4DDC, name: "HEXAGRAM FOR THE ABYSMAL WATER", aliases: &[] },
        Codepoint { codepoint: 0x4DDD, name: "HEXAGRAM FOR THE CLINGING FIRE", aliases: &[] },
        Codepoint { codepoint: 0x4DDE, name: "HEXAGRAM FOR INFLUENCE", aliases: &[] },
        Codepoint { codepoint: 0x4DDF, name: "HEXAGRAM FOR DURATION", aliases: &[] },
        Codepoint { codepoint: 0x4DE0, name: "HEXAGRAM FOR RETREAT", aliases: &[] },
        Codepoint { codepoint: 0x4DE1, name: "HEXAGRAM FOR GREAT POWER", aliases: &[] },
        Codepoint { codepoint: 0x4DE2, name: "HEXAGRAM FOR PROGRESS", aliases: &[] },
        Codepoint { codepoint: 0x4DE3, name: "HEXAGRAM FOR DARKENING OF THE LIGHT", aliases: &[] },
        Codepoint { codepoint: 0x4DE4, name: "HEXAGRAM FOR THE FAMILY", aliases: &[] },
        Codepoint { codepoint: 0x4DE5, name: "HEXAGRAM FOR OPPOSITION", aliases: &[] },
        Codepoint { codepoint: 0x4DE6, name: "HEXAGRAM FOR OBSTRUCTION", aliases: &[] },
        Codepoint { codepoint: 0x4DE7, name: "HEXAGRAM FOR DELIVERANCE", aliases: &[] },
        Codepoint { codepoint: 0x4DE8, name: "HEXAGRAM FOR DECREASE", aliases: &[] },
        Codepoint { codepoint: 0x4DE9, name: "HEXAGRAM FOR INCREASE", aliases: &[] },
        Codepoint { codepoint: 0x4DEA, name: "HEXAGRAM FOR BREAKTHROUGH", aliases: &[] },
        Codepoint { codepoint: 0x4DEB, name: "HEXAGRAM FOR COMING TO MEET", aliases: &[] },
        Codepoint { codepoint: 0x4DEC, name: "HEXAGRAM FOR GATHERING TOGETHER", aliases: &[] },
        Codepoint { codepoint: 0x4DED, name: "HEXAGRAM FOR PUSHING UPWARD", aliases: &[] },
    ]
}

fn all_codepoints_306() -> (v: Vec<Codepoint>)
    ensures
        v@ == codepoint_table_306(),
{
    let v = vec![
        Codepoint { codepoint: 0x4DC6, name: "HEXAGRAM FOR THE ARMY", aliases: &[] },
        Codepoint { codepoint: 0x4DC7, name: "HEXAGRAM FOR HOLDING TOGETHER", aliases: &[] },
        Codepoint { codepoint: 0x4DC8, name: "HEXAGRAM FOR SMALL TAMING", aliases: &[] },
        Codepoint { codepoint: 0x4DC9, name: "HEXAGRAM FOR TREADING", aliases: &[] },
        Codepoint { codepoint: 0x4DCA, name: "HEXAGRAM FOR PEACE", aliases: &[] },
        Codepoint { codepoint: 0x4DCB, name: "HEXAGRAM FOR STANDSTILL", aliases: &[] },
        Codepoint { codepoint: 0x4DCC, name: "HEXAGRAM FOR FELLOWSHIP", aliases: &[] },
        Codepoint { codepoint: 0x4DCD, name: "HEXAGRAM FOR GREAT POSSESSION", aliases: &[] },
        Codepoint { codepoint: 0x4DCE, name: "HEXAGRAM FOR MODESTY", aliases: &[] },
        Codepoint { codepoint: 0x4DCF, name: "HEXAGRAM FOR ENTHUSIASM", aliases: &[] },
        Codepoint { codepoint: 0x4DD0, name: "HEXAGRAM FOR FOLLOWING", aliases: &[] },
        Codepoint { codepoint: 0x4DD1, name: "HEXAGRAM FOR WORK ON THE DECAYED", aliases: &[] },
        Codepoint { codepoint: 0x4DD2, name: "HEXAGRAM FOR APPROACH", aliases: &[] },
        Codepoint { codepoint: 0x4DD3, name: "HEXAGRAM FOR CONTEMPLATION", aliases: &[] },
        Codepoint { codepoint: 0x4DD4, name: "HEXAGRAM FOR BITING THROUGH", aliases: &[] },
        Codepoint { codepoint: 0x4DD5, name: "HEXAGRAM FOR GRACE", aliases: &[] },
        Codepoint { codepoint: 0x4DD6, name: "HEXAGRAM FOR SPLITTING APART", aliases: &[] },
        Codepoint { codepoint: 0x4DD7, name: "HEXAGRAM FOR RETURN", aliases: &[] },
        Codepoint { codepoint: 0x4DD8, name: "HEXAGRAM FOR INNOCENCE", aliases: &[] },
        Codepoint { codepoint: 0x4DD9, name: "HEXAGRAM FOR GREAT TAMING", aliases: &[] },
        Codepoint { codepoint: 0x4DDA, name: "HEXAGRAM FOR MOUTH CORNERS", aliases: &[] },
        Codepoint { codepoint: 0x4DDB, name: "HEXAGRAM FOR GREAT PREPONDERANCE", aliases: &[] },
        Codepoint { codepoint: 0x4DDC, name: "HEXAGRAM FOR THE ABYSMAL WATER", aliases: &[] },
        Codepoint { codepoint: 0x4DDD, name: "HEXAGRAM FOR THE CLINGING FIRE", aliases: &[] },
        Codepoint { codepoint: 0x4DDE, name: "HEXAGRAM FOR INFLUENCE", aliases: &[] },
        Codepoint { codepoint: 0x4DDF, name: "HEXAGRAM FOR DURATION", aliases: &[] },
        Codepoint { codepoint: 0x4DE0, name: "HEXAGRAM FOR RETREAT", aliases: &[] },
        Codepoint { codepoint: 0x4DE1, name: "HEXAGRAM FOR GREAT POWER", aliases: &[] },
        Codepoint { codepoint: 0x4DE2, name: "HEXAGRAM FOR PROGRESS", aliases: &[] },
        Codepoint { codepoint: 0x4DE3, name: "HEXAGRAM FOR DARKENING OF THE LIGHT", aliases: &[] },
        Codepoint { codepoint: 0x4DE4, name: "HEXAGRAM FOR THE FAMILY", aliases: &[] },
        Codepoint { codepoint: 0x4DE5, name: "HEXAGRAM FOR OPPOSITION", aliases: &[] },
        Codepoint { codepoint: 0x4DE6, name: "HEXAGRAM FOR OBSTRUCTION", aliases: &[] },
        Codepoint { codepoint: 0x4DE7, name: "HEXAGRAM FOR DELIVERANCE", aliases: &[] },
        Codepoint { codepoint: 0x4DE8, name: "HEXAGRAM FOR DECREASE", aliases: &[] },
        Codepoint { codepoint: 0x4DE9, name: "HEXAGRAM FOR INCREASE", aliases: &[] },
        Codepoint { codepoint: 0x4DEA, name: "HEXAGRAM FOR BREAKTHROUGH", aliases: &[] },
        Codepoint { codepoint: 0x4DEB, name: "HEXAGRAM FOR COMING TO MEET", aliases: &[] },
        Codepoint { codepoint: 0x4DEC, name: "HEXAGRAM FOR GATHERING TOGETHER", aliases: &[] },
        Codepoint { codepoint: 0x4DED, name: "HEXAGRAM FOR PUSHING UPWARD", aliases: &[] },
    ];
    assert(v@ =~= codepoint_table_306());
    v
}

pub open spec fn codepoint_table_307() -> Seq<Codepoint> {
    seq![
        Codepoint { codepoint: 0x4DEE, name: "HEXAGRAM FOR OPPRESSION", aliases: &[] },
        Codepoint { codepoint: 0x4DEF, name: "HEXAGRAM FOR THE WELL", aliases: &[] },
        Codepoint { codepoint: 0x4DF0, name: "HEXAGRAM FOR REVOLUTION", aliases: &[] },
        Codepoint { codepoint: 0x4DF1, name: "HEXAGRAM FOR THE CAULDRON", aliases: &[] },
        Codepoint { codepoint: 0x4DF2, name: "HEXAGRAM FOR THE AROUSING THUNDER", aliases: &[] },
        Codepoint { codepoint: 0x4DF3, name: "HEXAGRAM FOR THE KEEPING STILL MOUNTAIN", aliases: &[] },
        Codepoint { codepoint: 0x4DF4, name: "HEXAGRAM FOR DEVELOPMENT", aliases: &[] },
        Codepoint { codepoint: 0x4DF5, name: "HEXAGRAM FOR THE MARRYING MAIDEN", aliases: &[] },
        Codepoint { codepoint: 0x4DF6, name: "HEXAGRAM FOR ABUNDANCE", aliases: &[] },
        Codepoint { codepoint: 0x4DF7, name: "HEXAGRAM FOR THE WANDERER", aliases: &[] },
        Codepoint { codepoint: 0x4DF8, name: "HEXAGRAM FOR THE GENTLE WIND", aliases: &[] },
        Codepoint { codepoint: 0x4DF9, name: "HEXAGRAM FOR THE JOYOUS LAKE", aliases: &[] },
        Codepoint { codepoint: 0x4DFA, name: "HEXAGRAM FOR DISPERSION", aliases: &[] },
        Codepoint { codepoint: 0x4DFB, name: "HEXAGRAM FOR LIMITATION", aliases: &[] },
        Codepoint { codepoint: 0x4DFC, name: "HEXAGRAM FOR INNER TRUTH", aliases: &[] },
        Codepoint { codepoint: 0x4DFD, name: "HEXAGRAM FOR SMALL PREPONDERANCE", aliases: &[] },
        Codepoint { codepoint: 0x4DFE, name: "HEXAGRAM FOR AFTER COMPLETION", aliases: &[] },
        Codepoint { codepoint: 0x4DFF, name: "HEXAGRAM FOR BEFORE COMPLETION", aliases: &[] },
        Codepoint { codepoint: 0x4E00, name: "<CJK Ideograph, First>", aliases: &[] },
        Codepoint { codepoint: 0x9FFF, name: "<CJK Ideograph, Last>", aliases: &[] },
        Codepoint { codepoint: 0xA000, name: "YI SYLLABLE IT", aliases: &[] },
        Codepoint { codepoint: 0xA001, name: "YI SYLLABLE IX", aliases: &[] },
        Codepoint { codepoint: 0xA002, name: "YI SYLLABLE I", aliases: &[] },
        Codepoint { codepoint: 0xA003, name: "YI SYLLABLE IP", aliases: &[] },
        Codepoint { codepoint: 0xA004, name: "YI SYLLABLE IET", aliases: &[] },
        Codepoint { codepoint: 0xA005, name: "YI SYLLABLE IEX", aliases: &[] },
        Codepoint { codepoint: 0xA006, name: "YI SYLLABLE IE", aliases: &[] },
        Codepoint { codepoint: 0xA007, name: "YI SYLLABLE IEP", aliases: &[] },
        Codepoint { codepoint: 0xA008, name: "YI SYLLABLE AT", aliases: &[] },
        Codepoint { codepoint: 0xA009, name: "YI SYLLABLE AX", aliases: &[] },
        Codepoint { codepoint: 0xA00A, name: "YI SYLLABLE A", aliases: &[] },
        Codepoint { codepoint: 0xA00B, name: "YI SYLLABLE AP", aliases: &[] },
        Codepoint { codepoint: 0xA00C, name: "YI SYLLABLE UOX", aliases: &[] },
        Codepoint { codepoint: 0xA00D, name: "YI SYLLABLE UO", aliases: &[] },
        Codepoint { codepoint: 0xA00E, name: "YI SYLLABLE UOP", aliases: &[] },
        Codepoint { codepoint: 0xA00F, name: "YI SYLLABLE OT", aliases: &[] },
        Codepoint { codepoint: 0xA010, name: "YI SYLLABLE OX", aliases: &[] },
        Codepoint { codepoint: 0xA011, name: "YI SYLLABLE O", aliases: &[] },
        Codepoint { codepoint: 0xA012, name: "YI SYLLABLE OP", aliases: &[] },
        Codepoint { codepoint: 0xA013, name: "YI SYLLABLE EX", aliases: &[] },
    ]
}

fn all_codepoints_307() -> (v: Vec<Codepoint>)
    ensures
        v@ == codepoint_table_307(),
{
    let v = vec![
        Codepoint { codepoint: 0x4DEE, name: "HEXAGRAM FOR OPPRESSION", aliases: &[] },
        Codepoint { codepoint: 0x4DEF, name: "HEXAGRAM FOR THE WELL", aliases: &[] },
        Codepoint { codepoint: 0x4DF0, name: "HEXAGRAM FOR REVOLUTION", aliases: &[] },
        Codepoint { codepoint: 0x4DF1, name: "HEXAGRAM FOR THE CAULDRON", aliases: &[] },
        Codepoint { codepoint: 0x4DF2, name: "HEXAGRAM FOR THE AROUSING THUNDER", aliases: &[] },
        Codepoint { codepoint: 0x4DF3, name: "HEXAGRAM FOR THE KEEPING STILL MOUNTAIN", aliases: &[] },
        Codepoint { codepoint: 0x4DF4, name: "HEXAGRAM FOR DEVELOPMENT", aliases: &[] },
        Codepoint { codepoint: 0x4DF5, name: "HEXAGRAM FOR THE MARRYING MAIDEN", aliases: &[] },
        Codepoint { codepoint: 0x4DF6, name: "HEXAGRAM FOR ABUNDANCE", aliases: &[] },
        Codepoint { codepoint: 0x4DF7, name: "HEXAGRAM FOR THE WANDERER", aliases: &[] },
        Codepoint { codepoint: 0x4DF8, name: "HEXAGRAM FOR THE GENTLE WIND", aliases: &[] },
        Codepoint { codepoint: 0x4DF9, name: "HEXAGRAM FOR THE JOYOUS LAKE", aliases: &[] },
        Codepoint { codepoint: 0x4DFA, name: "HEXAGRAM FOR DISPERSION", aliases: &[] },
        Codepoint { codepoint: 0x4DFB, name: "HEXAGRAM FOR LIMITATION", aliases: &[] },
        Codepoint { codepoint: 0x4DFC, name: "HEXAGRAM FOR INNER TRUTH", aliases: &[] },
        Codepoint { codepoint: 0x4DFD, name: "HEXAGRAM FOR SMALL PREPONDERANCE", aliases: &[] },
        Codepoint { codepoint: 0x4DFE, name: "HEXAGRAM FOR AFTER COMPLETION", aliases: &[] },
        Codepoint { codepoint: 0x4DFF, name: "HEXAGRAM FOR BEFORE COMPLETION", aliases: &[] },
        Codepoint { codepoint: 0x4E00, name: "<CJK Ideograph, First>", aliases: &[] },
        Codepoint { codepoint: 0x9FFF, name: "<CJK Ideograph, Last>", aliases: &[] },
        Codepoint { codepoint: 0xA000, name: "YI SYLLABLE IT", aliases: &[] },
        Codepoint { codepoint: 0xA001, name: "YI SYLLABLE IX", aliases: &[] },
        Codepoint { codepoint: 0xA002, name: "YI SYLLABLE I", aliases: &[] },
        Codepoint { codepoint: 0xA003, name: "YI SYLLABLE IP", aliases: &[] },
        Codepoint { codepoint: 0xA004, name: "YI SYLLABLE IET", aliases: &[] },
        Codepoint { codepoint: 0xA005, name: "YI SYLLABLE IEX", aliases: &[] },
        Codepoint { codepoint: 0xA006, name: "YI SYLLABLE IE", aliases: &[] },
        Codepoint { codepoint: 0xA007, name: "YI SYLLABLE IEP", aliases: &[] },
        Codepoint { codepoint: 0xA008, name: "YI SYLLABLE AT", aliases: &[] },
        Codepoint { codepoint: 0xA009, name: "YI SYLLABLE AX", aliases: &[] },
        Codepoint { codepoint: 0xA00A, name: "YI SYLLABLE A", aliases: &[] },
        Codepoint { codepoint: 0xA00B, name: "YI SYLLABLE AP", aliases: &[] },
        Codepoint { codepoint: 0xA00C, name: "YI SYLLABLE UOX", aliases: &[] },
        Codepoint { codepoint: 0xA00D, name: "YI SYLLABLE UO", aliases: &[] },
        Codepoint { codepoint: 0xA00E, name: "YI SYLLABLE UOP", aliases: &[] },
        Codepoint { codepoint: 0xA00F, name: "YI SYLLABLE OT", aliases: &[] },
        Codepoint { codepoint: 0xA010, name: "YI SYLLABLE OX", aliases: &[] },
        Codepoint { codepoint: 0xA011, name: "YI SYLLABLE O", aliases: &[] },
        Codepoint { codepoint: 0xA012, name: "YI SYLLABLE OP", aliases: &[] },
        Codepoint { codepoint: 0xA013, name: "YI SYLLABLE EX", aliases: &[] },
    ];
    assert(v@ =~= codepoint_table_307());
    v
}

pub open spec fn codepoint_table_308() -> Seq<Codepoint> {
    seq![
        Codepoint { codepoint: 0xA014, name: "YI SYLLABLE E", aliases: &[] },
        Codepoint { codepoint: 0xA015, name: "YI SYLLABLE WU", aliases: &[] },
        Codepoint { codepoint: 0xA016, name: "YI SYLLABLE BIT", aliases: &[] },
        Codepoint { codepoint: 0xA017, name: "YI SYLLABLE BIX", aliases: &[] },
        Codepoint { codepoint: 0xA018, name: "YI SYLLABLE BI", aliases: &[] },
        Codepoint { codepoint: 0xA019, name: "YI SYLLABLE BIP", aliases: &[] },
        Codepoint { codepoint: 0xA01A, name: "YI SYLLABLE BIET", aliases: &[] },
        Codepoint { codepoint: 0xA01B, name: "YI SYLLABLE BIEX", aliases: &[] },
        Codepoint { codepoint: 0xA01C, name: "YI SYLLABLE BIE", aliases: &[] },
        Codepoint { codepoint: 0xA01D, name: "YI SYLLABLE BIEP", aliases: &[] },
        Codepoint { codepoint: 0xA01E, name: "YI SYLLABLE BAT", aliases: &[] },
        Codepoint { codepoint: 0xA01F, name: "YI SYLLABLE BAX", aliases: &[] },
        Codepoint { codepoint: 0xA020, name: "YI SYLLABLE BA", aliases: &[] },
        Codepoint { codepoint: 0xA021, name: "YI SYLLABLE BAP", aliases: &[] },
        Codepoint { codepoint: 0xA022, name: "YI SYLLABLE BUOX", aliases: &[] },
        Codepoint { codepoint: 0xA023, name: "YI SYLLABLE BUO", aliases: &[] },
        Codepoint { codepoint: 0xA024, name: "YI SYLLABLE BUOP", aliases: &[] },
        Codepoint { codepoint: 0xA025, name: "YI SYLLABLE BOT", aliases: &[] },
        Codepoint { codepoint: 0xA026, name: "YI SYLLABLE BOX", aliases: &[] },
        Codepoint { codepoint: 0xA027, name: "YI SYLLABLE BO", aliases: &[] },
        Codepoint { codepoint: 0xA028, name: "YI SYLLABLE BOP", aliases: &[] },
        Codepoint { codepoint: 0xA029, name: "YI SYLLABLE BEX", aliases: &[] },
        Codepoint { codepoint: 0xA02A, name: "YI SYLLABLE BE", aliases: &[] },
        Codepoint { codepoint: 0xA02B, name: "YI SYLLABLE BEP", aliases: &[] },
        Codepoint { codepoint: 0xA02C, name: "YI SYLLABLE BUT", aliases: &[] },
        Codepoint { codepoint: 0xA02D, name: "YI SYLLABLE BUX", aliases: &[] },
        Codepoint { codepoint: 0xA02E, name: "YI SYLLABLE BU", aliases: &[] },
        Codepoint { codepoint: 0xA02F, name: "YI SYLLABLE BUP", aliases: &[] },
        Codepoint { codepoint: 0xA030, name: "YI SYLLABLE BURX", aliases: &[] },
        Codepoint { codepoint: 0xA031, name: "YI SYLLABLE BUR", aliases: &[] },
        Codepoint { codepoint: 0xA032, name: "YI SYLLABLE BYT", aliases: &[] },
        Codepoint { codepoint: 0xA033, name: "YI SYLLABLE BYX", aliases: &[] },
        Codepoint { codepoint: 0xA034, name: "YI SYLLABLE BY", aliases: &[] },
        Codepoint { codepoint: 0xA035, name: "YI SYLLABLE BYP", aliases: &[] },
        Codepoint { codepoint: 0xA036, name: "YI SYLLABLE BYRX", aliases: &[] },
        Codepoint { codepoint: 0xA037, name: "YI SYLLABLE BYR", aliases: &[] },
        Codepoint { codepoint: 0xA038, name: "YI SYLLABLE PIT", aliases: &[] },
        Codepoint { codepoint: 0xA039, name: "YI SYLLABLE PIX", aliases: &[] },
        Codepoint { codepoint: 0xA03A, name: "YI SYLLABLE PI", aliases: &[] },
        Codepoint { codepoint: 0xA03B, name: "YI SYLLABLE PIP", aliases: &[] },
    ]
}

fn all_codepoints_308() -> (v: Vec<Codepoint>)
    ensures
        v@ == codepoint_table_308(),
{
    let v = vec![
        Codepoint { codepoint: 0xA014, name: "YI SYLLABLE E", aliases: &[] },
        Codepoint { codepoint: 0xA015, name: "YI SYLLABLE WU", aliases: &[] },
        Codepoint { codepoint: 0xA016, name: "YI SYLLABLE BIT", aliases: &[] },
        Codepoint { codepoint: 0xA017, name: "YI SYLLABLE BIX", aliases: &[] },
        Codepoint { codepoint: 0xA018, name: "YI SYLLABLE BI", aliases: &[] },
        Codepoint { codepoint: 0xA019, name: "YI SYLLABLE BIP", aliases: &[] },
        Codepoint { codepoint: 0xA01A, name: "YI SYLLABLE BIET", aliases: &[] },
        Codepoint { codepoint: 0xA01B, name: "YI SYLLABLE BIEX", aliases: &[] },
        Codepoint { codepoint: 0xA01C, name: "YI SYLLABLE BIE", aliases: &[] },
        Codepoint { codepoint: 0xA01D, name: "YI SYLLABLE BIEP", aliases: &[] },
        Codepoint { codepoint: 0xA01E, name: "YI SYLLABLE BAT", aliases: &[] },
        Codepoint { codepoint: 0xA01F, name: "YI SYLLABLE BAX", aliases: &[] },
        Codepoint { codepoint: 0xA020, name: "YI SYLLABLE BA", aliases: &[] },
        Codepoint { codepoint: 0xA021, name: "YI SYLLABLE BAP", aliases: &[] },
        Codepoint { codepoint: 0xA022, name: "YI SYLLABLE BUOX", aliases: &[] },
        Codepoint { codepoint: 0xA023, name: "YI SYLLABLE BUO", aliases: &[] },
        Codepoint { codepoint: 0xA024, name: "YI SYLLABLE BUOP", aliases: &[] },
        Codepoint { codepoint: 0xA025, name: "YI SYLLABLE BOT", aliases: &[] },
        Codepoint { codepoint: 0xA026, name: "YI SYLLABLE BOX", aliases: &[] },
        Codepoint { codepoint: 0xA027, name: "YI SYLLABLE BO", aliases: &[] },
        Codepoint { codepoint: 0xA028, name: "YI SYLLABLE BOP", aliases: &[] },
        Codepoint { codepoint: 0xA029, name: "YI SYLLABLE BEX", aliases: &[] },
        Codepoint { codepoint: 0xA02A, name: "YI SYLLABLE BE", aliases: &[] },
        Codepoint { codepoint: 0xA02B, name: "YI SYLLABLE BEP", aliases: &[] },
        Codepoint { codepoint: 0xA02C, name: "YI SYLLABLE BUT", aliases: &[] },
        Codepoint { codepoint: 0xA02D, name: "YI SYLLABLE BUX", aliases: &[] },
        Codepoint { codepoint: 0xA02E, name: "YI SYLLABLE BU", aliases: &[] },
        Codepoint { codepoint: 0xA02F, name: "YI SYLLABLE BUP", aliases: &[] },
        Codepoint { codepoint: 0xA030, name: "YI SYLLABLE BURX", aliases: &[] },
        Codepoint { codepoint: 0xA031, name: "YI SYLLABLE BUR", aliases: &[] },
        Codepoint { codepoint: 0xA032, name: "YI SYLLABLE BYT", aliases: &[] },
        Codepoint { codepoint: 0xA033, name: "YI SYLLABLE BYX", aliases: &[] },
        Codepoint { codepoint: 0xA034, name: "YI SYLLABLE BY", aliases: &[] },
        Codepoint { codepoint: 0xA035, name: "YI SYLLABLE BYP", aliases: &[] },
        Codepoint { codepoint: 0xA036, name: "YI SYLLABLE BYRX", aliases: &[] },
        Codepoint { codepoint: 0xA037, name: "YI SYLLABLE BYR", aliases: &[] },
        Codepoint { codepoint: 0xA038, name: "YI SYLLABLE PIT", aliases: &[] },
        Codepoint { codepoint: 0xA039, name: "YI SYLLABLE PIX", aliases: &[] },
        Codepoint { codepoint: 0xA03A, name: "YI SYLLABLE PI", aliases: &[] },
        Codepoint { codepoint: 0xA03B, name: "YI SYLLABLE PIP", aliases: &[] },
    ];
    assert(v@ =~= codepoint_table_308());
    v
}

pub open spec fn codepoint_table_309() -> Seq<Codepoint> {
    seq![
        Codepoint { codepoint: 0xA03C, name: "YI SYLLABLE PIEX", aliases: &[] },
        Codepoint { codepoint: 0xA03D, name: "YI SYLLABLE PIE", aliases: &[] },
        Codepoint { codepoint: 0xA03E, name: "YI SYLLABLE PIEP", aliases: &[] },
        Codepoint { codepoint: 0xA03F, name: "YI SYLLABLE PAT", aliases: &[] },
        Codepoint { codepoint: 0xA040, name: "YI SYLLABLE PAX", aliases: &[] },
        Codepoint { codepoint: 0xA041, name: "YI SYLLABLE PA", aliases: &[] },
        Codepoint { codepoint: 0xA042, name: "YI SYLLABLE PAP", aliases: &[] },
        Codepoint { codepoint: 0xA043, name: "YI SYLLABLE PUOX", aliases: &[] },
        Codepoint { codepoint: 0xA044, name: "YI SYLLABLE PUO", aliases: &[] },
        Codepoint { codepoint: 0xA045, name: "YI SYLLABLE PUOP", aliases: &[] },
        Codepoint { codepoint: 0xA046, name: "YI SYLLABLE POT", aliases: &[] },
        Codepoint { codepoint: 0xA047, name: "YI SYLLABLE POX", aliases: &[] },
        Codepoint { codepoint: 0xA048, name: "YI SYLLABLE PO", aliases: &[] },
        Codepoint { codepoint: 0xA049, name: "YI SYLLABLE POP", aliases: &[] },
        Codepoint { codepoint: 0xA04A, name: "YI SYLLABLE PUT", aliases: &[] },
        Codepoint { codepoint: 0xA04B, name: "YI SYLLABLE PUX", aliases: &[] },
        Codepoint { codepoint: 0xA04C, name: "YI SYLLABLE PU", aliases: &[] },
        Codepoint { codepoint: 0xA04D, name: "YI SYLLABLE PUP", aliases: &[] },
        Codepoint { codepoint: 0xA04E, name: "YI SYLLABLE PURX", aliases: &[] },
        Codepoint { codepoint: 0xA04F, name: "YI SYLLABLE PUR", aliases: &[] },
        Codepoint { codepoint: 0xA050, name: "YI SYLLABLE PYT", aliases: &[] },
        Codepoint { codepoint: 0xA051, name: "YI SYLLABLE PYX", aliases: &[] },
        Codepoint { codepoint: 0xA052, name: "YI SYLLABLE PY", aliases: &[] },
        Codepoint { codepoint: 0xA053, name: "YI SYLLABLE PYP", aliases: &[] },
        Codepoint { codepoint: 0xA054, name: "YI SYLLABLE PYRX", aliases: &[] },
        Codepoint { codepoint: 0xA055, name: "YI SYLLABLE PYR", aliases: &[] },
        Codepoint { codepoint: 0xA056, name: "YI SYLLABLE BBIT", aliases: &[] },
        Codepoint { codepoint: 0xA057, name: "YI SYLLABLE BBIX", aliases: &[] },
        Codepoint { codepoint: 0xA058, name: "YI SYLLABLE BBI", aliases: &[] },
        Codepoint { codepoint: 0xA059, name: "YI SYLLABLE BBIP", aliases: &[] },
        Codepoint { codepoint: 0xA05A, name: "YI SYLLABLE BBIET", aliases: &[] },
        Codepoint { codepoint: 0xA05B, name: "YI SYLLABLE BBIEX", aliases: &[] },
        Codepoint { codepoint: 0xA05C, name: "YI SYLLABLE BBIE", aliases: &[] },
        Codepoint { codepoint: 0xA05D, name: "YI SYLLABLE BBIEP", aliases: &[] },
        Codepoint { codepoint: 0xA05E, name: "YI SYLLABLE BBAT", aliases: &[] },
        Codepoint { codepoint: 0xA05F, name: "YI SYLLABLE BBAX", aliases: &[] },
        Codepoint { codepoint: 0xA060, name: "YI SYLLABLE BBA", aliases: &[] },
        Codepoint { codepoint: 0xA061, name: "YI SYLLABLE BBAP", aliases: &[] },
        Codepoint { codepoint: 0xA062, name: "YI SYLLABLE BBUOX", aliases: &[] },
        Codepoint { codepoint: 0xA063, name: "YI SYLLABLE BBUO", aliases: &[] },
    ]
}

fn all_codepoints_309() -> (v: Vec<Codepoint>)
    ensures
        v@ == codepoint_table_309(),
{
    let v = vec![
        Codepoint { codepoint: 0xA03C, name: "YI SYLLABLE PIEX", aliases: &[] },
        Codepoint { codepoint: 0xA03D, name: "YI SYLLABLE PIE", aliases: &[] },
        Codepoint { codepoint: 0xA03E, name: "YI SYLLABLE PIEP", aliases: &[] },
        Codepoint { codepoint: 0xA03F, name: "YI SYLLABLE PAT", aliases: &[] },
        Codepoint { codepoint: 0xA040, name: "YI SYLLABLE PAX", aliases: &[] },
        Codepoint { codepoint: 0xA041, name: "YI SYLLABLE PA", aliases: &[] },
        Codepoint { codepoint: 0xA042, name: "YI SYLLABLE PAP", aliases: &[] },
        Codepoint { codepoint: 0xA043, name: "YI SYLLABLE PUOX", aliases: &[] },
        Codepoint { codepoint: 0xA044, name: "YI SYLLABLE PUO", aliases: &[] },
        Codepoint { codepoint: 0xA045, name: "YI SYLLABLE PUOP", aliases: &[] },
        Codepoint { codepoint: 0xA046, name: "YI SYLLABLE POT", aliases: &[] },
        Codepoint { codepoint: 0xA047, name: "YI SYLLABLE POX", aliases: &[] },
        Codepoint { codepoint: 0xA048, name: "YI SYLLABLE PO", aliases: &[] },
        Codepoint { codepoint: 0xA049, name: "YI SYLLABLE POP", aliases: &[] },
        Codepoint { codepoint: 0xA04A, name: "YI SYLLABLE PUT", aliases: &[] },
        Codepoint { codepoint: 0xA04B, name: "YI SYLLABLE PUX", aliases: &[] },
        Codepoint { codepoint: 0xA04C, name: "YI SYLLABLE PU", aliases: &[] },
        Codepoint { codepoint: 0xA04D, name: "YI SYLLABLE PUP", aliases: &[] },
        Codepoint { codepoint: 0xA04E, name: "YI SYLLABLE PURX", aliases: &[] },
        Codepoint { codepoint: 0xA04F, name: "YI SYLLABLE PUR", aliases: &[] },
        Codepoint { codepoint: 0xA050, name: "YI SYLLABLE PYT", aliases: &[] },
        Codepoint { codepoint: 0xA051, name: "YI SYLLABLE PYX", aliases: &[] },
        Codepoint { codepoint: 0xA052, name: "YI SYLLABLE PY", aliases: &[] },
        Codepoint { codepoint: 0xA053, name: "YI SYLLABLE PYP", aliases: &[] },
        Codepoint { codepoint: 0xA054, name: "YI SYLLABLE PYRX", aliases: &[] },
        Codepoint { codepoint: 0xA055, name: "YI SYLLABLE PYR", aliases: &[] },
        Codepoint { codepoint: 0xA056, name: "YI SYLLABLE BBIT", aliases: &[] },
        Codepoint { codepoint: 0xA057, name: "YI SYLLABLE BBIX", aliases: &[] },
        Codepoint { codepoint: 0xA058, name: "YI SYLLABLE BBI", aliases: &[] },
        Codepoint { codepoint: 0xA059, name: "YI SYLLABLE BBIP", aliases: &[] },
        Codepoint { codepoint: 0xA05A, name: "YI SYLLABLE BBIET", aliases: &[] },
        Codepoint { codepoint: 0xA05B, name: "YI SYLLABLE BBIEX", aliases: &[] },
        Codepoint { codepoint: 0xA05C, name: "YI SYLLABLE BBIE", aliases: &[] },
        Codepoint { codepoint: 0xA05D, name: "YI SYLLABLE BBIEP", aliases: &[] },
        Codepoint { codepoint: 0xA05E, name: "YI SYLLABLE BBAT", aliases: &[] },
        Codepoint { codepoint: 0xA05F, name: "YI SYLLABLE BBAX", aliases: &[] },
        Codepoint { codepoint: 0xA060, name: "YI SYLLABLE BBA", aliases: &[] },
        Codepoint { codepoint: 0xA061, name: "YI SYLLABLE BBAP", aliases: &[] },
        Codepoint { codepoint: 0xA062, name: "YI SYLLABLE BBUOX", aliases: &[] },
        Codepoint { codepoint: 0xA063, name: "YI SYLLABLE BBUO", aliases: &[] },
    ];
    assert(v@ =~= codepoint_table_309());
    v
}

pub open spec fn codepoint_table_310() -> Seq<Codepoint> {
    seq![
        Codepoint { codepoint: 0xA064, name: "YI SYLLABLE BBUOP", aliases: &[] },
        Codepoint { codepoint: 0xA065, name: "YI SYLLABLE BBOT", aliases: &[] },
        Codepoint { codepoint: 0xA066, name: "YI SYLLABLE BBOX", aliases: &[] },
        Codepoint { codepoint: 0xA067, name: "YI SYLLABLE BBO", aliases: &[] },
        Codepoint { codepoint: 0xA068, name: "YI SYLLABLE BBOP", aliases: &[] },
        Codepoint { codepoint: 0xA069, name: "YI SYLLABLE BBEX", aliases: &[] },
        Codepoint { codepoint: 0xA06A, name: "YI SYLLABLE BBE", aliases: &[] },
        Codepoint { codepoint: 0xA06B, name: "YI SYLLABLE BBEP", aliases: &[] },
        Codepoint { codepoint: 0xA06C, name: "YI SYLLABLE BBUT", aliases: &[] },
        Codepoint { codepoint: 0xA06D, name: "YI SYLLABLE BBUX", aliases: &[] },
        Codepoint { codepoint: 0xA06E, name: "YI SYLLABLE BBU", aliases: &[] },
        Codepoint { codepoint: 0xA06F, name: "YI SYLLABLE BBUP", aliases: &[] },
        Codepoint { codepoint: 0xA070, name: "YI SYLLABLE BBURX", aliases: &[] },
        Codepoint { codepoint: 0xA071, name: "YI SYLLABLE BBUR", aliases: &[] },
        Codepoint { codepoint: 0xA072, name: "YI SYLLABLE BBYT", aliases: &[] },
        Codepoint { codepoint: 0xA073, name: "YI SYLLABLE BBYX", aliases: &[] },
        Codepoint { codepoint: 0xA074, name: "YI SYLLABLE BBY", aliases: &[] },
        Codepoint { codepoint: 0xA075, name: "YI SYLLABLE BBYP", aliases: &[] },
        Codepoint { codepoint: 0xA076, name: "YI SYLLABLE NBIT", aliases: &[] },
        Codepoint { codepoint: 0xA077, name: "YI SYLLABLE NBIX", aliases: &[] },
        Codepoint { codepoint: 0xA078, name: "YI SYLLABLE NBI", aliases: &[] },
        Codepoint { codepoint: 0xA079, name: "YI SYLLABLE NBIP", aliases: &[] },
        Codepoint { codepoint: 0xA07A, name: "YI SYLLABLE NBIEX", aliases: &[] },
        Codepoint { codepoint: 0xA07B, name: "YI SYLLABLE NBIE", aliases: &[] },
        Codepoint { codepoint: 0xA07C, name: "YI SYLLABLE NBIEP", aliases: &[] },
        Codepoint { codepoint: 0xA07D, name: "YI SYLLABLE NBAT", aliases: &[] },
        Codepoint { codepoint: 0xA07E, name: "YI SYLLABLE NBAX", aliases: &[] },
        Codepoint { codepoint: 0xA07F, name: "YI SYLLABLE NBA", aliases: &[] },
        Codepoint { codepoint: 0xA080, name: "YI SYLLABLE NBAP", aliases: &[] },
        Codepoint { codepoint: 0xA081, name: "YI SYLLABLE NBOT", aliases: &[] },
        Codepoint { codepoint: 0xA082, name: "YI SYLLABLE NBOX", aliases: &[] },
        Codepoint { codepoint: 0xA083, name: "YI SYLLABLE NBO", aliases: &[] },
        Codepoint { codepoint: 0xA084, name: "YI SYLLABLE NBOP", aliases: &[] },
        Codepoint { codepoint: 0xA085, name: "YI SYLLABLE NBUT", aliases: &[] },
        Codepoint { codepoint: 0xA086, name: "YI SYLLABLE NBUX", aliases: &[] },
        Codepoint { codepoint: 0xA087, name: "YI SYLLABLE NBU", aliases: &[] },
        Codepoint { codepoint: 0xA088, name: "YI SYLLABLE NBUP", aliases: &[] },
        Codepoint { codepoint: 0xA089, name: "YI SYLLABLE NBURX", aliases: &[] },
        Codepoint { codepoint: 0xA08A, name: "YI SYLLABLE NBUR", aliases: &[] },
        Codepoint { codepoint: 0xA08B, name: "YI SYLLABLE NBYT", aliases: &[] },
    ]
}

fn all_codepoints_310() -> (v: Vec<Codepoint>)
    ensures
        v@ == codepoint_table_310(),
{
    let v = vec![
        Codepoint { codepoint: 0xA064, name: "YI SYLLABLE BBUOP", aliases: &[] },
        Codepoint { codepoint: 0xA065, name: "YI SYLLABLE BBOT", aliases: &[] },
        Codepoint { codepoint: 0xA066, name: "YI SYLLABLE BBOX", aliases: &[] },
        Codepoint { codepoint: 0xA067, name: "YI SYLLABLE BBO", aliases: &[] },
        Codepoint { codepoint: 0xA068, name: "YI SYLLABLE BBOP", aliases: &[] },
        Codepoint { codepoint: 0xA069, name: "YI SYLLABLE BBEX", aliases: &[] },
        Codepoint { codepoint: 0xA06A, name: "YI SYLLABLE BBE", aliases: &[] },
        Codepoint { codepoint: 0xA06B, name: "YI SYLLABLE BBEP", aliases: &[] },
        Codepoint { codepoint: 0xA06C, name: "YI SYLLABLE BBUT", aliases: &[] },
        Codepoint { codepoint: 0xA06D, name: "YI SYLLABLE BBUX", aliases: &[] },
        Codepoint { codepoint: 0xA06E, name: "YI SYLLABLE BBU", aliases: &[] },
        Codepoint { codepoint: 0xA06F, name: "YI SYLLABLE BBUP", aliases: &[] },
        Codepoint { codepoint: 0xA070, name: "YI SYLLABLE BBURX", aliases: &[] },
        Codepoint { codepoint: 0xA071, name: "YI SYLLABLE BBUR", aliases: &[] },
        Codepoint { codepoint: 0xA072, name: "YI SYLLABLE BBYT", aliases: &[] },
        Codepoint { codepoint: 0xA073, name: "YI SYLLABLE BBYX", aliases: &[] },
        Codepoint { codepoint: 0xA074, name: "YI SYLLABLE BBY", aliases: &[] },
        Codepoint { codepoint: 0xA075, name: "YI SYLLABLE BBYP", aliases: &[] },
        Codepoint { codepoint: 0xA076, name: "YI SYLLABLE NBIT", aliases: &[] },
        Codepoint { codepoint: 0xA077, name: "YI SYLLABLE NBIX", aliases: &[] },
        Codepoint { codepoint: 0xA078, name: "YI SYLLABLE NBI", aliases: &[] },
        Codepoint { codepoint: 0xA079, name: "YI SYLLABLE NBIP", aliases: &[] },
        Codepoint { codepoint: 0xA07A, name: "YI SYLLABLE NBIEX", aliases: &[] },
        Codepoint { codepoint: 0xA07B, name: "YI SYLLABLE NBIE", aliases: &[] },
        Codepoint { codepoint: 0xA07C, name: "YI SYLLABLE NBIEP", aliases: &[] },
        Codepoint { codepoint: 0xA07D, name: "YI SYLLABLE NBAT", aliases: &[] },
        Codepoint { codepoint: 0xA07E, name: "YI SYLLABLE NBAX", aliases: &[] },
        Codepoint { codepoint: 0xA07F, name: "YI SYLLABLE NBA", aliases: &[] },
        Codepoint { codepoint: 0xA080, name: "YI SYLLABLE NBAP", aliases: &[] },
        Codepoint { codepoint: 0xA081, name: "YI SYLLABLE NBOT", aliases: &[] },
        Codepoint { codepoint: 0xA082, name: "YI SYLLABLE NBOX", aliases: &[] },
        Codepoint { codepoint: 0xA083, name: "YI SYLLABLE NBO", aliases: &[] },
        Codepoint { codepoint: 0xA084, name: "YI SYLLABLE NBOP", aliases: &[] },
        Codepoint { codepoint: 0xA085, name: "YI SYLLABLE NBUT", aliases: &[] },
        Codepoint { codepoint: 0xA086, name: "YI SYLLABLE NBUX", aliases: &[] },
        Codepoint { codepoint: 0xA087, name: "YI SYLLABLE NBU", aliases: &[] },
        Codepoint { codepoint: 0xA088, name: "YI SYLLABLE NBUP", aliases: &[] },
        Codepoint { codepoint: 0xA089, name: "YI SYLLABLE NBURX", aliases: &[] },
        Codepoint { codepoint: 0xA08A, name: "YI SYLLABLE NBUR", aliases: &[] },
        Codepoint { codepoint: 0xA08B, name: "YI SYLLABLE NBYT", aliases: &[] },
    ];
    assert(v@ =~= codepoint_table_310());
    v
}

pub open spec fn codepoint_table_311() -> Seq<Codepoint> {
    seq![
        Codepoint { codepoint: 0xA08C, name: "YI SYLLABLE NBYX", aliases: &[] },
        Codepoint { codepoint: 0xA08D, name: "YI SYLLABLE NBY", aliases: &[] },
        Codepoint { codepoint: 0xA08E, name: "YI SYLLABLE NBYP", aliases: &[] },
        Codepoint { codepoint: 0xA08F, name: "YI SYLLABLE NBYRX", aliases: &[] },
        Codepoint { codepoint: 0xA090, name: "YI SYLLABLE NBYR", aliases: &[] },
        Codepoint { codepoint: 0xA091, name: "YI SYLLABLE HMIT", aliases: &[] },
        Codepoint { codepoint: 0xA092, name: "YI SYLLABLE HMIX", aliases: &[] },
        Codepoint { codepoint: 0xA093, name: "YI SYLLABLE HMI", aliases: &[] },
        Codepoint { codepoint: 0xA094, name: "YI SYLLABLE HMIP", aliases: &[] },
        Codepoint { codepoint: 0xA095, name: "YI SYLLABLE HMIEX", aliases: &[] },
        Codepoint { codepoint: 0xA096, name: "YI SYLLABLE HMIE", aliases: &[] },
        Codepoint { codepoint: 0xA097, name: "YI SYLLABLE HMIEP", aliases: &[] },
        Codepoint { codepoint: 0xA098, name: "YI SYLLABLE HMAT", aliases: &[] },
        Codepoint { codepoint: 0xA099, name: "YI SYLLABLE HMAX", aliases: &[] },
        Codepoint { codepoint: 0xA09A, name: "YI SYLLABLE HMA", aliases: &[] },
        Codepoint { codepoint: 0xA09B, name: "YI SYLLABLE HMAP", aliases: &[] },
        Codepoint { codepoint: 0xA09C, name: "YI SYLLABLE HMUOX", aliases: &[] },
        Codepoint { codepoint: 0xA09D, name: "YI SYLLABLE HMUO", aliases: &[] },
        Codepoint { codepoint: 0xA09E, name: "YI SYLLABLE HMUOP", aliases: &[] },
        Codepoint { codepoint: 0xA09F, name: "YI SYLLABLE HMOT", aliases: &[] },
        Codepoint { codepoint: 0xA0A0, name: "YI SYLLABLE HMOX", aliases: &[] },
        Codepoint { codepoint: 0xA0A1, name: "YI SYLLABLE HMO", aliases: &[] },
        Codepoint { codepoint: 0xA0A2, name: "YI SYLLABLE HMOP", aliases: &[] },
        Codepoint { codepoint: 0xA0A3, name: "YI SYLLABLE HMUT", aliases: &[] },
        Codepoint { codepoint: 0xA0A4, name: "YI SYLLABLE HMUX", aliases: &[] },
        Codepoint { codepoint: 0xA0A5, name: "YI SYLLABLE HMU", aliases: &[] },
        Codepoint { codepoint: 0xA0A6, name: "YI SYLLABLE HMUP", aliases: &[] },
        Codepoint { codepoint: 0xA0A7, name: "YI SYLLABLE HMURX", aliases: &[] },
        Codepoint { codepoint: 0xA0A8, name: "YI SYLLABLE HMUR", aliases: &[] },
        Codepoint { codepoint: 0xA0A9, name: "YI SYLLABLE HMYX", aliases: &[] },
        Codepoint { codepoint: 0xA0AA, name: "YI SYLLABLE HMY", aliases: &[] },
        Codepoint { codepoint: 0xA0AB, name: "YI SYLLABLE HMYP", aliases: &[] },
        Codepoint { codepoint: 0xA0AC, name: "YI SYLLABLE HMYRX", aliases: &[] },
        Codepoint { codepoint: 0xA0AD, name: "YI SYLLABLE HMYR", aliases: &[] },
        Codepoint { codepoint: 0xA0AE, name: "YI SYLLABLE MIT", aliases: &[] },
        Codepoint { codepoint: 0xA0AF, name: "YI SYLLABLE MIX", aliases: &[] },
        Codepoint { codepoint: 0xA0B0, name: "YI SYLLABLE MI", aliases: &[] },
        Codepoint { codepoint: 0xA0B1, name: "YI SYLLABLE MIP", aliases: &[] },
        Codepoint { codepoint: 0xA0B2, name: "YI SYLLABLE MIEX", aliases: &[] },
        Codepoint { codepoint: 0xA0B3, name: "YI SYLLABLE MIE", aliases: &[] },
    ]
}

fn all_codepoints_311() -> (v: Vec<Codepoint>)
    ensures
        v@ == codepoint_table_311(),
{
    let v = vec![
        Codepoint { codepoint: 0xA08C, name: "YI SYLLABLE NBYX", aliases: &[] },
        Codepoint { codepoint: 0xA08D, name: "YI SYLLABLE NBY", aliases: &[] },
        Codepoint { codepoint: 0xA08E, name: "YI SYLLABLE NBYP", aliases: &[] },
        Codepoint { codepoint: 0xA08F, name: "YI SYLLABLE NBYRX", aliases: &[] },
        Codepoint { codepoint: 0xA090, name: "YI SYLLABLE NBYR", aliases: &[] },
        Codepoint { codepoint: 0xA091, name: "YI SYLLABLE HMIT", aliases: &[] },
        Codepoint { codepoint: 0xA092, name: "YI SYLLABLE HMIX", aliases: &[] },
        Codepoint { codepoint: 0xA093, name: "YI SYLLABLE HMI", aliases: &[] },
        Codepoint { codepoint: 0xA094, name: "YI SYLLABLE HMIP", aliases: &[] },
        Codepoint { codepoint: 0xA095, name: "YI SYLLABLE HMIEX", aliases: &[] },
        Codepoint { codepoint: 0xA096, name: "YI SYLLABLE HMIE", aliases: &[] },
        Codepoint { codepoint: 0xA097, name: "YI SYLLABLE HMIEP", aliases: &[] },
        Codepoint { codepoint: 0xA098, name: "YI SYLLABLE HMAT", aliases: &[] },
        Codepoint { codepoint: 0xA099, name: "YI SYLLABLE HMAX", aliases: &[] },
        Codepoint { codepoint: 0xA09A, name: "YI SYLLABLE HMA", aliases: &[] },
        Codepoint { codepoint: 0xA09B, name: "YI SYLLABLE HMAP", aliases: &[] },
        Codepoint { codepoint: 0xA09C, name: "YI SYLLABLE HMUOX", aliases: &[] },
        Codepoint { codepoint: 0xA09D, name: "YI SYLLABLE HMUO", aliases: &[] },
        Codepoint { codepoint: 0xA09E, name: "YI SYLLABLE HMUOP", aliases: &[] },
        Codepoint { codepoint: 0xA09F, name: "YI SYLLABLE HMOT", aliases: &[] },
        Codepoint { codepoint: 0xA0A0, name: "YI SYLLABLE HMOX", aliases: &[] },
        Codepoint { codepoint: 0xA0A1, name: "YI SYLLABLE HMO", aliases: &[] },
        Codepoint { codepoint: 0xA0A2, name: "YI SYLLABLE HMOP", aliases: &[] },
        Codepoint { codepoint: 0xA0A3, name: "YI SYLLABLE HMUT", aliases: &[] },
        Codepoint { codepoint: 0xA0A4, name: "YI SYLLABLE HMUX", aliases: &[] },
        Codepoint { codepoint: 0xA0A5, name: "YI SYLLABLE HMU", aliases: &[] },
        Codepoint { codepoint: 0xA0A6, name: "YI SYLLABLE HMUP", aliases: &[] },
        Codepoint { codepoint: 0xA0A7, name: "YI SYLLABLE HMURX", aliases: &[] },
        Codepoint { codepoint: 0xA0A8, name: "YI SYLLABLE HMUR", aliases: &[] },
        Codepoint { codepoint: 0xA0A9, name: "YI SYLLABLE HMYX", aliases: &[] },
        Codepoint { codepoint: 0xA0AA, name: "YI SYLLABLE HMY", aliases: &[] },
        Codepoint { codepoint: 0xA0AB, name: "YI SYLLABLE HMYP", aliases: &[] },
        Codepoint { codepoint: 0xA0AC, name: "YI SYLLABLE HMYRX", aliases: &[] },
        Codepoint { codepoint: 0xA0AD, name: "YI SYLLABLE HMYR", aliases: &[] },
        Codepoint { codepoint: 0xA0AE, name: "YI SYLLABLE MIT", aliases: &[] },
        Codepoint { codepoint: 0xA0AF, name: "YI SYLLABLE MIX", aliases: &[] },
        Codepoint { codepoint: 0xA0B0, name: "YI SYLLABLE MI", aliases: &[] },
        Codepoint { codepoint: 0xA0B1, name: "YI SYLLABLE MIP", aliases: &[] },
        Codepoint { codepoint: 0xA0B2, name: "YI SYLLABLE MIEX", aliases: &[] },
        Codepoint { codepoint: 0xA0B3, name: "YI SYLLABLE MIE", aliases: &[] },
    ];
    assert(v@ =~= codepoint_table_311());
    v
}

pub open spec fn codepoint_table_312() -> Seq<Codepoint> {
    seq![
        Codepoint { codepoint: 0xA0B4, name: "YI SYLLABLE MIEP", aliases: &[] },
        Codepoint { codepoint: 0xA0B5, name: "YI SYLLABLE MAT", aliases: &[] },
        Codepoint { codepoint: 0xA0B6, name: "YI SYLLABLE MAX", aliases: &[] },
        Codepoint { codepoint: 0xA0B7, name: "YI SYLLABLE MA", aliases: &[] },
        Codepoint { codepoint: 0xA0B8, name: "YI SYLLABLE MAP", aliases: &[] },
        Codepoint { codepoint: 0xA0B9, name: "YI SYLLABLE MUOT", aliases: &[] },
        Codepoint { codepoint: 0xA0BA, name: "YI SYLLABLE MUOX", aliases: &[] },
        Codepoint { codepoint: 0xA0BB, name: "YI SYLLABLE MUO", aliases: &[] },
        Codepoint { codepoint: 0xA0BC, name: "YI SYLLABLE MUOP", aliases: &[] },
        Codepoint { codepoint: 0xA0BD, name: "YI SYLLABLE MOT", aliases: &[] },
        Codepoint { codepoint: 0xA0BE, name: "YI SYLLABLE MOX", aliases: &[] },
        Codepoint { codepoint: 0xA0BF, name: "YI SYLLABLE MO", aliases: &[] },
        Codepoint { codepoint: 0xA0C0, name: "YI SYLLABLE MOP", aliases: &[] },
        Codepoint { codepoint: 0xA0C1, name: "YI SYLLABLE MEX", aliases: &[] },
        Codepoint { codepoint: 0xA0C2, name: "YI SYLLABLE ME", aliases: &[] },
        Codepoint { codepoint: 0xA0C3, name: "YI SYLLABLE MUT", aliases: &[] },
        Codepoint { codepoint: 0xA0C4, name: "YI SYLLABLE MUX", aliases: &[] },
        Codepoint { codepoint: 0xA0C5, name: "YI SYLLABLE MU", aliases: &[] },
        Codepoint { codepoint: 0xA0C6, name: "YI SYLLABLE MUP", aliases: &[] },
        Codepoint { codepoint: 0xA0C7, name: "YI SYLLABLE MURX", aliases: &[] },
        Codepoint { codepoint: 0xA0C8, name: "YI SYLLABLE MUR", aliases: &[] },
        Codepoint { codepoint: 0xA0C9, name: "YI SYLLABLE MYT", aliases: &[] },
        Codepoint { codepoint: 0xA0CA, name: "YI SYLLABLE MYX", aliases: &[] },
        Codepoint { codepoint: 0xA0CB, name: "YI SYLLABLE MY", aliases: &[] },
        Codepoint { codepoint: 0xA0CC, name: "YI SYLLABLE MYP", aliases: &[] },
        Codepoint { codepoint: 0xA0CD, name: "YI SYLLABLE FIT", aliases: &[] },
        Codepoint { codepoint: 0xA0CE, name: "YI SYLLABLE FIX", aliases: &[] },
        Codepoint { codepoint: 0xA0CF, name: "YI SYLLABLE FI", aliases: &[] },
        Codepoint { codepoint: 0xA0D0, name: "YI SYLLABLE FIP", aliases: &[] },
        Codepoint { codepoint: 0xA0D1, name: "YI SYLLABLE FAT", aliases: &[] },
        Codepoint { codepoint: 0xA0D2, name: "YI SYLLABLE FAX", aliases: &[] },
        Codepoint { codepoint: 0xA0D3, name: "YI SYLLABLE FA", aliases: &[] },
        Codepoint { codepoint: 0xA0D4, name: "YI SYLLABLE FAP", aliases: &[] },
        Codepoint { codepoint: 0xA0D5, name: "YI SYLLABLE FOX", aliases: &[] },
        Codepoint { codepoint: 0xA0D6, name: "YI SYLLABLE FO", aliases: &[] },
        Codepoint { codepoint: 0xA0D7, name: "YI SYLLABLE FOP", aliases: &[] },
        Codepoint { codepoint: 0xA0D8, name: "YI SYLLABLE FUT", aliases: &[] },
        Codepoint { codepoint: 0xA0D9, name: "YI SYLLABLE FUX", aliases: &[] },
        Codepoint { codepoint: 0xA0DA, name: "YI SYLLABLE FU", aliases: &[] },
        Codepoint { codepoint: 0xA0DB, name: "YI SYLLABLE FUP", aliases: &[] },
    ]
}

fn all_codepoints_312() -> (v: Vec<Codepoint>)
    ensures
        v@ == codepoint_table_312(),
{
    let v = vec![
        Codepoint { codepoint: 0xA0B4, name: "YI SYLLABLE MIEP", aliases: &[] },
        Codepoint { codepoint: 0xA0B5, name: "YI SYLLABLE MAT", aliases: &[] },
        Codepoint { codepoint: 0xA0B6, name: "YI SYLLABLE MAX", aliases: &[] },
        Codepoint { codepoint: 0xA0B7, name: "YI SYLLABLE MA", aliases: &[] },
        Codepoint { codepoint: 0xA0B8, name: "YI SYLLABLE MAP", aliases: &[] },
        Codepoint { codepoint: 0xA0B9, name: "YI SYLLABLE MUOT", aliases: &[] },
        Codepoint { codepoint: 0xA0BA, name: "YI SYLLABLE MUOX", aliases: &[] },
        Codepoint { codepoint: 0xA0BB, name: "YI SYLLABLE MUO", aliases: &[] },
        Codepoint { codepoint: 0xA0BC, name: "YI SYLLABLE MUOP", aliases: &[] },
        Codepoint { codepoint: 0xA0BD, name: "YI SYLLABLE MOT", aliases: &[] },
        Codepoint { codepoint: 0xA0BE, name: "YI SYLLABLE MOX", aliases: &[] },
        Codepoint { codepoint: 0xA0BF, name: "YI SYLLABLE MO", aliases: &[] },
        Codepoint { codepoint: 0xA0C0, name: "YI SYLLABLE MOP", aliases: &[] },
        Codepoint { codepoint: 0xA0C1, name: "YI SYLLABLE MEX", aliases: &[] },
        Codepoint { codepoint: 0xA0C2, name: "YI SYLLABLE ME", aliases: &[] },
        Codepoint { codepoint: 0xA0C3, name: "YI SYLLABLE MUT", aliases: &[] },
        Codepoint { codepoint: 0xA0C4, name: "YI SYLLABLE MUX", aliases: &[] },
        Codepoint { codepoint: 0xA0C5, name: "YI SYLLABLE MU", aliases: &[] },
        Codepoint { codepoint: 0xA0C6, name: "YI SYLLABLE MUP", aliases: &[] },
        Codepoint { codepoint: 0xA0C7, name: "YI SYLLABLE MURX", aliases: &[] },
        Codepoint { codepoint: 0xA0C8, name: "YI SYLLABLE MUR", aliases: &[] },
        Codepoint { codepoint: 0xA0C9, name: "YI SYLLABLE MYT", aliases: &[] },
        Codepoint { codepoint: 0xA0CA, name: "YI SYLLABLE MYX", aliases: &[] },
        Codepoint { codepoint: 0xA0CB, name: "YI SYLLABLE MY", aliases: &[] },
        Codepoint { codepoint: 0xA0CC, name: "YI SYLLABLE MYP", aliases: &[] },
        Codepoint { codepoint: 0xA0CD, name: "YI SYLLABLE FIT", aliases: &[] },
        Codepoint { codepoint: 0xA0CE, name: "YI SYLLABLE FIX", aliases: &[] },
        Codepoint { codepoint: 0xA0CF, name: "YI SYLLABLE FI", aliases: &[] },
        Codepoint { codepoint: 0xA0D0, name: "YI SYLLABLE FIP", aliases: &[] },
        Codepoint { codepoint: 0xA0D1, name: "YI SYLLABLE FAT", aliases: &[] },
        Codepoint { codepoint: 0xA0D2, name: "YI SYLLABLE FAX", aliases: &[] },
        Codepoint { codepoint: 0xA0D3, name: "YI SYLLABLE FA", aliases: &[] },
        Codepoint { codepoint: 0xA0D4, name: "YI SYLLABLE FAP", aliases: &[] },
        Codepoint { codepoint: 0xA0D5, name: "YI SYLLABLE FOX", aliases: &[] },
        Codepoint { codepoint: 0xA0D6, name: "YI SYLLABLE FO", aliases: &[] },
        Codepoint { codepoint: 0xA0D7, name: "YI SYLLABLE FOP", aliases: &[] },
        Codepoint { codepoint: 0xA0D8, name: "YI SYLLABLE FUT", aliases: &[] },
        Codepoint { codepoint: 0xA0D9, name: "YI SYLLABLE FUX", aliases: &[] },
        Codepoint { codepoint: 0xA0DA, name: "YI SYLLABLE FU", aliases: &[] },
        Codepoint { codepoint: 0xA0DB, name: "YI SYLLABLE FUP", aliases: &[] },
    ];
    assert(v@ =~= codepoint_table_312());
    v
}

pub open spec fn codepoint_table_313() -> Seq<Codepoint> {
    seq![
        Codepoint { codepoint: 0xA0DC, name: "YI SYLLABLE FURX", aliases: &[] },
        Codepoint { codepoint: 0xA0DD, name: "YI SYLLABLE FUR", aliases: &[] },
        Codepoint { codepoint: 0xA0DE, name: "YI SYLLABLE FYT", aliases: &[] },
        Codepoint { codepoint: 0xA0DF, name: "YI SYLLABLE FYX", aliases: &[] },
        Codepoint { codepoint: 0xA0E0, name: "YI SYLLABLE FY", aliases: &[] },
        Codepoint { codepoint: 0xA0E1, name: "YI SYLLABLE FYP", aliases: &[] },
        Codepoint { codepoint: 0xA0E2, name: "YI SYLLABLE VIT", aliases: &[] },
        Codepoint { codepoint: 0xA0E3, name: "YI SYLLABLE VIX", aliases: &[] },
        Codepoint { codepoint: 0xA0E4, name: "YI SYLLABLE VI", aliases: &[] },
        Codepoint { codepoint: 0xA0E5, name: "YI SYLLABLE VIP", aliases: &[] },
        Codepoint { codepoint: 0xA0E6, name: "YI SYLLABLE VIET", aliases: &[] },
        Codepoint { codepoint: 0xA0E7, name: "YI SYLLABLE VIEX", aliases: &[] },
        Codepoint { codepoint: 0xA0E8, name: "YI SYLLABLE VIE", aliases: &[] },
        Codepoint { codepoint: 0xA0E9, name: "YI SYLLABLE VIEP", aliases: &[] },
        Codepoint { codepoint: 0xA0EA, name: "YI SYLLABLE VAT", aliases: &[] },
        Codepoint { codepoint: 0xA0EB, name: "YI SYLLABLE VAX", aliases: &[] },
        Codepoint { codepoint: 0xA0EC, name: "YI SYLLABLE VA", aliases: &[] },
        Codepoint { codepoint: 0xA0ED, name: "YI SYLLABLE VAP", aliases: &[] },
        Codepoint { codepoint: 0xA0EE, name: "YI SYLLABLE VOT", aliases: &[] },
        Codepoint { codepoint: 0xA0EF, name: "YI SYLLABLE VOX", aliases: &[] },
        Codepoint { codepoint: 0xA0F0, name: "YI SYLLABLE VO", aliases: &[] },
        Codepoint { codepoint: 0xA0F1, name: "YI SYLLABLE VOP", aliases: &[] },
        Codepoint { codepoint: 0xA0F2, name: "YI SYLLABLE VEX", aliases: &[] },
        Codepoint { codepoint: 0xA0F3, name: "YI SYLLABLE VEP", aliases: &[] },
        Codepoint { codepoint: 0xA0F4, name: "YI SYLLABLE VUT", aliases: &[] },
        Codepoint { codepoint: 0xA0F5, name: "YI SYLLABLE VUX", aliases: &[] },
        Codepoint { codepoint: 0xA0F6, name: "YI SYLLABLE VU", aliases: &[] },
        Codepoint { codepoint: 0xA0F7, name: "YI SYLLABLE VUP", aliases: &[] },
        Codepoint { codepoint: 0xA0F8, name: "YI SYLLABLE VURX", aliases: &[] },
        Codepoint { codepoint: 0xA0F9, name: "YI SYLLABLE VUR", aliases: &[] },
        Codepoint { codepoint: 0xA0FA, name: "YI SYLLABLE VYT", aliases: &[] },
        Codepoint { codepoint: 0xA0FB, name: "YI SYLLABLE VYX", aliases: &[] },
        Codepoint { codepoint: 0xA0FC, name: "YI SYLLABLE VY", aliases: &[] },
        Codepoint { codepoint: 0xA0FD, name: "YI SYLLABLE VYP", aliases: &[] },
        Codepoint { codepoint: 0xA0FE, name: "YI SYLLABLE VYRX", aliases: &[] },
        Codepoint { codepoint: 0xA0FF, name: "YI SYLLABLE VYR", aliases: &[] },
        Codepoint { codepoint: 0xA100, name: "YI SYLLABLE DIT", aliases: &[] },
        Codepoint { codepoint: 0xA101, name: "YI SYLLABLE DIX", aliases: &[] },
        Codepoint { codepoint: 0xA102, name: "YI SYLLABLE DI", aliases: &[] },
        Codepoint { codepoint: 0xA103, name: "YI SYLLABLE DIP", aliases: &[] },
    ]
}

fn all_codepoints_313() -> (v: Vec<Codepoint>)
    ensures
        v@ == codepoint_table_313(),
{
    let v = vec![
        Codepoint { codepoint: 0xA0DC, name: "YI SYLLABLE FURX", aliases: &[] },
        Codepoint { codepoint: 0xA0DD, name: "YI SYLLABLE FUR", aliases: &[] },
        Codepoint { codepoint: 0xA0DE, name: "YI SYLLABLE FYT", aliases: &[] },
        Codepoint { codepoint: 0xA0DF, name: "YI SYLLABLE FYX", aliases: &[] },
        Codepoint { codepoint: 0xA0E0, name: "YI SYLLABLE FY", aliases: &[] },
        Codepoint { codepoint: 0xA0E1, name: "YI SYLLABLE FYP", aliases: &[] },
        Codepoint { codepoint: 0xA0E2, name: "YI SYLLABLE VIT", aliases: &[] },
        Codepoint { codepoint: 0xA0E3, name: "YI SYLLABLE VIX", aliases: &[] },
        Codepoint { codepoint: 0xA0E4, name: "YI SYLLABLE VI", aliases: &[] },
        Codepoint { codepoint: 0xA0E5, name: "YI SYLLABLE VIP", aliases: &[] },
        Codepoint { codepoint: 0xA0E6, name: "YI SYLLABLE VIET", aliases: &[] },
        Codepoint { codepoint: 0xA0E7, name: "YI SYLLABLE VIEX", aliases: &[] },
        Codepoint { codepoint: 0xA0E8, name: "YI SYLLABLE VIE", aliases: &[] },
        Codepoint { codepoint: 0xA0E9, name: "YI SYLLABLE VIEP", aliases: &[] },
        Codepoint { codepoint: 0xA0EA, name: "YI SYLLABLE VAT", aliases: &[] },
        Codepoint { codepoint: 0xA0EB, name: "YI SYLLABLE VAX", aliases: &[] },
        Codepoint { codepoint: 0xA0EC, name: "YI SYLLABLE VA", aliases: &[] },
        Codepoint { codepoint: 0xA0ED, name: "YI SYLLABLE VAP", aliases: &[] },
        Codepoint { codepoint: 0xA0EE, name: "YI SYLLABLE VOT", aliases: &[] },
        Codepoint { codepoint: 0xA0EF, name: "YI SYLLABLE VOX", aliases: &[] },
        Codepoint { codepoint: 0xA0F0, name: "YI SYLLABLE VO", aliases: &[] },
        Codepoint { codepoint: 0xA0F1, name: "YI SYLLABLE VOP", aliases: &[] },
        Codepoint { codepoint: 0xA0F2, name: "YI SYLLABLE VEX", aliases: &[] },
        Codepoint { codepoint: 0xA0F3, name: "YI SYLLABLE VEP", aliases: &[] },
        Codepoint { codepoint: 0xA0F4, name: "YI SYLLABLE VUT", aliases: &[] },
        Codepoint { codepoint: 0xA0F5, name: "YI SYLLABLE VUX", aliases: &[] },
        Codepoint { codepoint: 0xA0F6, name: "YI SYLLABLE VU", aliases: &[] },
        Codepoint { codepoint: 0xA0F7, name: "YI SYLLABLE VUP", aliases: &[] },
        Codepoint { codepoint: 0xA0F8, name: "YI SYLLABLE VURX", aliases: &[] },
        Codepoint { codepoint: 0xA0F9, name: "YI SYLLABLE VUR", aliases: &[] },
        Codepoint { codepoint: 0xA0FA, name: "YI SYLLABLE VYT", aliases: &[] },
        Codepoint { codepoint: 0xA0FB, name: "YI SYLLABLE VYX", aliases: &[] },
        Codepoint { codepoint: 0xA0FC, name: "YI SYLLABLE VY", aliases: &[] },
        Codepoint { codepoint: 0xA0FD, name: "YI SYLLABLE VYP", aliases: &[] },
        Codepoint { codepoint: 0xA0FE, name: "YI SYLLABLE VYRX", aliases: &[] },
        Codepoint { codepoint: 0xA0FF, name: "YI SYLLABLE VYR", aliases: &[] },
        Codepoint { codepoint: 0xA100, name: "YI SYLLABLE DIT", aliases: &[] },
        Codepoint { codepoint: 0xA101, name: "YI SYLLABLE DIX", aliases: &[] },
        Codepoint { codepoint: 0xA102, name: "YI SYLLABLE DI", aliases: &[] },
        Codepoint { codepoint: 0xA103, name: "YI SYLLABLE DIP", aliases: &[] },
    ];
    assert(v@ =~= codepoint_table_313());
    v
}

pub open spec fn codepoint_table_314() -> Seq<Codepoint> {
    seq![
        Codepoint { codepoint: 0xA104, name: "YI SYLLABLE DIEX", aliases: &[] },
        Codepoint { codepoint: 0xA105, name: "YI SYLLABLE DIE", aliases: &[] },
        Codepoint { codepoint: 0xA106, name: "YI SYLLABLE DIEP", aliases: &[] },
        Codepoint { codepoint: 0xA107, name: "YI SYLLABLE DAT", aliases: &[] },
        Codepoint { codepoint: 0xA108, name: "YI SYLLABLE DAX", aliases: &[] },
        Codepoint { codepoint: 0xA109, name: "YI SYLLABLE DA", aliases: &[] },
        Codepoint { codepoint: 0xA10A, name: "YI SYLLABLE DAP", aliases: &[] },
        Codepoint { codepoint: 0xA10B, name: "YI SYLLABLE DUOX", aliases: &[] },
        Codepoint { codepoint: 0xA10C, name: "YI SYLLABLE DUO", aliases: &[] },
        Codepoint { codepoint: 0xA10D, name: "YI SYLLABLE DOT", aliases: &[] },
        Codepoint { codepoint: 0xA10E, name: "YI SYLLABLE DOX", aliases: &[] },
        Codepoint { codepoint: 0xA10F, name: "YI SYLLABLE DO", aliases: &[] },
        Codepoint { codepoint: 0xA110, name: "YI SYLLABLE DOP", aliases: &[] },
        Codepoint { codepoint: 0xA111, name: "YI SYLLABLE DEX", aliases: &[] },
        Codepoint { codepoint: 0xA112, name: "YI SYLLABLE DE", aliases: &[] },
        Codepoint { codepoint: 0xA113, name: "YI SYLLABLE DEP", aliases: &[] },
        Codepoint { codepoint: 0xA114, name: "YI SYLLABLE DUT", aliases: &[] },
        Codepoint { codepoint: 0xA115, name: "YI SYLLABLE DUX", aliases: &[] },
        Codepoint { codepoint: 0xA116, name: "YI SYLLABLE DU", aliases: &[] },
        Codepoint { codepoint: 0xA117, name: "YI SYLLABLE DUP", aliases: &[] },
        Codepoint { codepoint: 0xA118, name: "YI SYLLABLE DURX", aliases: &[] },
        Codepoint { codepoint: 0xA119, name: "YI SYLLABLE DUR", aliases: &[] },
        Codepoint { codepoint: 0xA11A, name: "YI SYLLABLE TIT", aliases: &[] },
        Codepoint { codepoint: 0xA11B, name: "YI SYLLABLE TIX", aliases: &[] },
        Codepoint { codepoint: 0xA11C, name: "YI SYLLABLE TI", aliases: &[] },
        Codepoint { codepoint: 0xA11D, name: "YI SYLLABLE TIP", aliases: &[] },
        Codepoint { codepoint: 0xA11E, name: "YI SYLLABLE TIEX", aliases: &[] },
        Codepoint { codepoint: 0xA11F, name: "YI SYLLABLE TIE", aliases: &[] },
        Codepoint { codepoint: 0xA120, name: "YI SYLLABLE TIEP", aliases: &[] },
        Codepoint { codepoint: 0xA121, name: "YI SYLLABLE TAT", aliases: &[] },
        Codepoint { codepoint: 0xA122, name: "YI SYLLABLE TAX", aliases: &[] },
        Codepoint { codepoint: 0xA123, name: "YI SYLLABLE TA", aliases: &[] },
        Codepoint { codepoint: 0xA124, name: "YI SYLLABLE TAP", aliases: &[] },
        Codepoint { codepoint: 0xA125, name: "YI SYLLABLE TUOT", aliases: &[] },
        Codepoint { codepoint: 0xA126, name: "YI SYLLABLE TUOX", aliases: &[] },
        Codepoint { codepoint: 0xA127, name: "YI SYLLABLE TUO", aliases: &[] },
        Codepoint { codepoint: 0xA128, name: "YI SYLLABLE TUOP", aliases: &[] },
        Codepoint { codepoint: 0xA129, name: "YI SYLLABLE TOT", aliases: &[] },
        Codepoint { codepoint: 0xA12A, name: "YI SYLLABLE TOX", aliases: &[] },
        Codepoint { codepoint: 0xA12B, name: "YI SYLLABLE TO", aliases: &[] },
    ]
}

fn all_codepoints_314() -> (v: Vec<Codepoint>)
    ensures
        v@ == codepoint_table_314(),
{
    let v = vec![
        Codepoint { codepoint: 0xA104, name: "YI SYLLABLE DIEX", aliases: &[] },
        Codepoint { codepoint: 0xA105, name: "YI SYLLABLE DIE", aliases: &[] },
        Codepoint { codepoint: 0xA106, name: "YI SYLLABLE DIEP", aliases: &[] },
        Codepoint { codepoint: 0xA107, name: "YI SYLLABLE DAT", aliases: &[] },
        Codepoint { codepoint: 0xA108, name: "YI SYLLABLE DAX", aliases: &[] },
        Codepoint { codepoint: 0xA109, name: "YI SYLLABLE DA", aliases: &[] },
        Codepoint { codepoint: 0xA10A, name: "YI SYLLABLE DAP", aliases: &[] },
        Codepoint { codepoint: 0xA10B, name: "YI SYLLABLE DUOX", aliases: &[] },
        Codepoint { codepoint: 0xA10C, name: "YI SYLLABLE DUO", aliases: &[] },
        Codepoint { codepoint: 0xA10D, name: "YI SYLLABLE DOT", aliases: &[] },
        Codepoint { codepoint: 0xA10E, name: "YI SYLLABLE DOX", aliases: &[] },
        Codepoint { codepoint: 0xA10F, name: "YI SYLLABLE DO", aliases: &[] },
        Codepoint { codepoint: 0xA110, name: "YI SYLLABLE DOP", aliases: &[] },
        Codepoint { codepoint: 0xA111, name: "YI SYLLABLE DEX", aliases: &[] },
        Codepoint { codepoint: 0xA112, name: "YI SYLLABLE DE", aliases: &[] },
        Codepoint { codepoint: 0xA113, name: "YI SYLLABLE DEP", aliases: &[] },
        Codepoint { codepoint: 0xA114, name: "YI SYLLABLE DUT", aliases: &[] },
        Codepoint { codepoint: 0xA115, name: "YI SYLLABLE DUX", aliases: &[] },
        Codepoint { codepoint: 0xA116, name: "YI SYLLABLE DU", aliases: &[] },
        Codepoint { codepoint: 0xA117, name: "YI SYLLABLE DUP", aliases: &[] },
        Codepoint { codepoint: 0xA118, name: "YI SYLLABLE DURX", aliases: &[] },
        Codepoint { codepoint: 0xA119, name: "YI SYLLABLE DUR", aliases: &[] },
        Codepoint { codepoint: 0xA11A, name: "YI SYLLABLE TIT", aliases: &[] },
        Codepoint { codepoint: 0xA11B, name: "YI SYLLABLE TIX", aliases: &[] },
        Codepoint { codepoint: 0xA11C, name: "YI SYLLABLE TI", aliases: &[] },
        Codepoint { codepoint: 0xA11D, name: "YI SYLLABLE TIP", aliases: &[] },
        Codepoint { codepoint: 0xA11E, name: "YI SYLLABLE TIEX", aliases: &[] },
        Codepoint { codepoint: 0xA11F, name: "YI SYLLABLE TIE", aliases: &[] },
        Codepoint { codepoint: 0xA120, name: "YI SYLLABLE TIEP", aliases: &[] },
        Codepoint { codepoint: 0xA121, name: "YI SYLLABLE TAT", aliases: &[] },
        Codepoint { codepoint: 0xA122, name: "YI SYLLABLE TAX", aliases: &[] },
        Codepoint { codepoint: 0xA123, name: "YI SYLLABLE TA", aliases: &[] },
        Codepoint { codepoint: 0xA124, name: "YI SYLLABLE TAP", aliases: &[] },
        Codepoint { codepoint: 0xA125, name: "YI SYLLABLE TUOT", aliases: &[] },
        Codepoint { codepoint: 0xA126, name: "YI SYLLABLE TUOX", aliases: &[] },
        Codepoint { codepoint: 0xA127, name: "YI SYLLABLE TUO", aliases: &[] },
        Codepoint { codepoint: 0xA128, name: "YI SYLLABLE TUOP", aliases: &[] },
        Codepoint { codepoint: 0xA129, name: "YI SYLLABLE TOT", aliases: &[] },
        Codepoint { codepoint: 0xA12A, name: "YI SYLLABLE TOX", aliases: &[] },
        Codepoint { codepoint: 0xA12B, name: "YI SYLLABLE TO", aliases: &[] },
    ];
    assert(v@ =~= codepoint_table_314());
    v
}

pub open spec fn codepoint_table_315() -> Seq<Codepoint> {
    seq![
        Codepoint { codepoint: 0xA12C, name: "YI SYLLABLE TOP", aliases: &[] },
        Codepoint { codepoint: 0xA12D, name: "YI SYLLABLE TEX", aliases: &[] },
        Codepoint { codepoint: 0xA12E, name: "YI SYLLABLE TE", aliases: &[] },
        Codepoint { codepoint: 0xA12F, name: "YI SYLLABLE TEP", aliases: &[] },
        Codepoint { codepoint: 0xA130, name: "YI SYLLABLE TUT", aliases: &[] },
        Codepoint { codepoint: 0xA131, name: "YI SYLLABLE TUX", aliases: &[] },
        Codepoint { codepoint: 0xA132, name: "YI SYLLABLE TU", aliases: &[] },
        Codepoint { codepoint: 0xA133, name: "YI SYLLABLE TUP", aliases: &[] },
        Codepoint { codepoint: 0xA134, name: "YI SYLLABLE TURX", aliases: &[] },
        Codepoint { codepoint: 0xA135, name: "YI SYLLABLE TUR", aliases: &[] },
        Codepoint { codepoint: 0xA136, name: "YI SYLLABLE DDIT", aliases: &[] },
        Codepoint { codepoint: 0xA137, name: "YI SYLLABLE DDIX", aliases: &[] },
        Codepoint { codepoint: 0xA138, name: "YI SYLLABLE DDI", aliases: &[] },
        Codepoint { codepoint: 0xA139, name: "YI SYLLABLE DDIP", aliases: &[] },
        Codepoint { codepoint: 0xA13A, name: "YI SYLLABLE DDIEX", aliases: &[] },
        Codepoint { codepoint: 0xA13B, name: "YI SYLLABLE DDIE", aliases: &[] },
        Codepoint { codepoint: 0xA13C, name: "YI SYLLABLE DDIEP", aliases: &[] },
        Codepoint { codepoint: 0xA13D, name: "YI SYLLABLE DDAT", aliases: &[] },
        Codepoint { codepoint: 0xA13E, name: "YI SYLLABLE DDAX", aliases: &[] },
        Codepoint { codepoint: 0xA13F, name: "YI SYLLABLE DDA", aliases: &[] },
        Codepoint { codepoint: 0xA140, name: "YI SYLLABLE DDAP", aliases: &[] },
        Codepoint { codepoint: 0xA141, name: "YI SYLLABLE DDUOX", aliases: &[] },
        Codepoint { codepoint: 0xA142, name: "YI SYLLABLE DDUO", aliases: &[] },
        Codepoint { codepoint: 0xA143, name: "YI SYLLABLE DDUOP", aliases: &[] },
        Codepoint { codepoint: 0xA144, name: "YI SYLLABLE DDOT", aliases: &[] },
        Codepoint { codepoint: 0xA145, name: "YI SYLLABLE DDOX", aliases: &[] },
        Codepoint { codepoint: 0xA146, name: "YI SYLLABLE DDO", aliases: &[] },
        Codepoint { codepoint: 0xA147, name: "YI SYLLABLE DDOP", aliases: &[] },
        Codepoint { codepoint: 0xA148, name: "YI SYLLABLE DDEX", aliases: &[] },
        Codepoint { codepoint: 0xA149, name: "YI SYLLABLE DDE", aliases: &[] },
        Codepoint { codepoint: 0xA14A, name: "YI SYLLABLE DDEP", aliases: &[] },
        Codepoint { codepoint: 0xA14B, name: "YI SYLLABLE DDUT", aliases: &[] },
        Codepoint { codepoint: 0xA14C, name: "YI SYLLABLE DDUX", aliases: &[] },
        Codepoint { codepoint: 0xA14D, name: "YI SYLLABLE DDU", aliases: &[] },
        Codepoint { codepoint: 0xA14E, name: "YI SYLLABLE DDUP", aliases: &[] },
        Codepoint { codepoint: 0xA14F, name: "YI SYLLABLE DDURX", aliases: &[] },
        Codepoint { codepoint: 0xA150, name: "YI SYLLABLE DDUR", aliases: &[] },
        Codepoint { codepoint: 0xA151, name: "YI SYLLABLE NDIT", aliases: &[] },
        Codepoint { codepoint: 0xA152, name: "YI SYLLABLE NDIX", aliases: &[] },
        Codepoint { codepoint: 0xA153, name: "YI SYLLABLE NDI", aliases: &[] },
    ]
}

fn all_codepoints_315() -> (v: Vec<Codepoint>)
    ensures
        v@ == codepoint_table_315(),
{
    let v = vec![
        Codepoint { codepoint: 0xA12C, name: "YI SYLLABLE TOP", aliases: &[] },
        Codepoint { codepoint: 0xA12D, name: "YI SYLLABLE TEX", aliases: &[] },
        Codepoint { codepoint: 0xA12E, name: "YI SYLLABLE TE", aliases: &[] },
        Codepoint { codepoint: 0xA12F, name: "YI SYLLABLE TEP", aliases: &[] },
        Codepoint { codepoint: 0xA130, name: "YI SYLLABLE TUT", aliases: &[] },
        Codepoint { codepoint: 0xA131, name: "YI SYLLABLE TUX", aliases: &[] },
        Codepoint { codepoint: 0xA132, name: "YI SYLLABLE TU", aliases: &[] },
        Codepoint { codepoint: 0xA133, name: "YI SYLLABLE TUP", aliases: &[] },
        Codepoint { codepoint: 0xA134, name: "YI SYLLABLE TURX", aliases: &[] },
        Codepoint { codepoint: 0xA135, name: "YI SYLLABLE TUR", aliases: &[] },
        Codepoint { codepoint: 0xA136, name: "YI SYLLABLE DDIT", aliases: &[] },
        Codepoint { codepoint: 0xA137, name: "YI SYLLABLE DDIX", aliases: &[] },
        Codepoint { codepoint: 0xA138, name: "YI SYLLABLE DDI", aliases: &[] },
        Codepoint { codepoint: 0xA139, name: "YI SYLLABLE DDIP", aliases: &[] },
        Codepoint { codepoint: 0xA13A, name: "YI SYLLABLE DDIEX", aliases: &[] },
        Codepoint { codepoint: 0xA13B, name: "YI SYLLABLE DDIE", aliases: &[] },
        Codepoint { codepoint: 0xA13C, name: "YI SYLLABLE DDIEP", aliases: &[] },
        Codepoint { codepoint: 0xA13D, name: "YI SYLLABLE DDAT", aliases: &[] },
        Codepoint { codepoint: 0xA13E, name: "YI SYLLABLE DDAX", aliases: &[] },
        Codepoint { codepoint: 0xA13F, name: "YI SYLLABLE DDA", aliases: &[] },
        Codepoint { codepoint: 0xA140, name: "YI SYLLABLE DDAP", aliases: &[] },
        Codepoint { codepoint: 0xA141, name: "YI SYLLABLE DDUOX", aliases: &[] },
        Codepoint { codepoint: 0xA142, name: "YI SYLLABLE DDUO", aliases: &[] },
        Codepoint { codepoint: 0xA143, name: "YI SYLLABLE DDUOP", aliases: &[] },
        Codepoint { codepoint: 0xA144, name: "YI SYLLABLE DDOT", aliases: &[] },
        Codepoint { codepoint: 0xA145, name: "YI SYLLABLE DDOX", aliases: &[] },
        Codepoint { codepoint: 0xA146, name: "YI SYLLABLE DDO", aliases: &[] },
        Codepoint { codepoint: 0xA147, name: "YI SYLLABLE DDOP", aliases: &[] },
        Codepoint { codepoint: 0xA148, name: "YI SYLLABLE DDEX", aliases: &[] },
        Codepoint { codepoint: 0xA149, name: "YI SYLLABLE DDE", aliases: &[] },
        Codepoint { codepoint: 0xA14A, name: "YI SYLLABLE DDEP", aliases: &[] },
        Codepoint { codepoint: 0xA14B, name: "YI SYLLABLE DDUT", aliases: &[] },
        Codepoint { codepoint: 0xA14C, name: "YI SYLLABLE DDUX", aliases: &[] },
        Codepoint { codepoint: 0xA14D, name: "YI SYLLABLE DDU", aliases: &[] },
        Codepoint { codepoint: 0xA14E, name: "YI SYLLABLE DDUP", aliases: &[] },
        Codepoint { codepoint: 0xA14F, name: "YI SYLLABLE DDURX", aliases: &[] },
        Codepoint { codepoint: 0xA150, name: "YI SYLLABLE DDUR", aliases: &[] },
        Codepoint { codepoint: 0xA151, name: "YI SYLLABLE NDIT", aliases: &[] },
        Codepoint { codepoint: 0xA152, name: "YI SYLLABLE NDIX", aliases: &[] },
        Codepoint { codepoint: 0xA153, name: "YI SYLLABLE NDI", aliases: &[] },
    ];
    assert(v@ =~= codepoint_table_315());
    v
}

pub open spec fn codepoint_table_316() -> Seq<Codepoint> {
    seq![
        Codepoint { codepoint: 0xA154, name: "YI SYLLABLE NDIP", aliases: &[] },
        Codepoint { codepoint: 0xA155, name: "YI SYLLABLE NDIEX", aliases: &[] },
        Codepoint { codepoint: 0xA156, name: "YI SYLLABLE NDIE", aliases: &[] },
        Codepoint { codepoint: 0xA157, name: "YI SYLLABLE NDAT", aliases: &[] },
        Codepoint { codepoint: 0xA158, name: "YI SYLLABLE NDAX", aliases: &[] },
        Codepoint { codepoint: 0xA159, name: "YI SYLLABLE NDA", aliases: &[] },
        Codepoint { codepoint: 0xA15A, name: "YI SYLLABLE NDAP", aliases: &[] },
        Codepoint { codepoint: 0xA15B, name: "YI SYLLABLE NDOT", aliases: &[] },
        Codepoint { codepoint: 0xA15C, name: "YI SYLLABLE NDOX", aliases: &[] },
        Codepoint { codepoint: 0xA15D, name: "YI SYLLABLE NDO", aliases: &[] },
        Codepoint { codepoint: 0xA15E, name: "YI SYLLABLE NDOP", aliases: &[] },
        Codepoint { codepoint: 0xA15F, name: "YI SYLLABLE NDEX", aliases: &[] },
        Codepoint { codepoint: 0xA160, name: "YI SYLLABLE NDE", aliases: &[] },
        Codepoint { codepoint: 0xA161, name: "YI SYLLABLE NDEP", aliases: &[] },
        Codepoint { codepoint: 0xA162, name: "YI SYLLABLE NDUT", aliases: &[] },
        Codepoint { codepoint: 0xA163, name: "YI SYLLABLE NDUX", aliases: &[] },
        Codepoint { codepoint: 0xA164, name: "YI SYLLABLE NDU", aliases: &[] },
        Codepoint { codepoint: 0xA165, name: "YI SYLLABLE NDUP", aliases: &[] },
        Codepoint { codepoint: 0xA166, name: "YI SYLLABLE NDURX", aliases: &[] },
        Codepoint { codepoint: 0xA167, name: "YI SYLLABLE NDUR", aliases: &[] },
        Codepoint { codepoint: 0xA168, name: "YI SYLLABLE HNIT", aliases: &[] },
        Codepoint { codepoint: 0xA169, name: "YI SYLLABLE HNIX", aliases: &[] },
        Codepoint { codepoint: 0xA16A, name: "YI SYLLABLE HNI", aliases: &[] },
        Codepoint { codepoint: 0xA16B, name: "YI SYLLABLE HNIP", aliases: &[] },
        Codepoint { codepoint: 0xA16C, name: "YI SYLLABLE HNIET", aliases: &[] },
        Codepoint { codepoint: 0xA16D, name: "YI SYLLABLE HNIEX", aliases: &[] },
        Codepoint { codepoint: 0xA16E, name: "YI SYLLABLE HNIE", aliases: &[] },
        Codepoint { codepoint: 0xA16F, name: "YI SYLLABLE HNIEP", aliases: &[] },
        Codepoint { codepoint: 0xA170, name: "YI SYLLABLE HNAT", aliases: &[] },
        Codepoint { codepoint: 0xA171, name: "YI SYLLABLE HNAX", aliases: &[] },
        Codepoint { codepoint: 0xA172, name: "YI SYLLABLE HNA", aliases: &[] },
        Codepoint { codepoint: 0xA173, name: "YI SYLLABLE HNAP", aliases: &[] },
        Codepoint { codepoint: 0xA174, name: "YI SYLLABLE HNUOX", aliases: &[] },
        Codepoint { codepoint: 0xA175, name: "YI SYLLABLE HNUO", aliases: &[] },
        Codepoint { codepoint: 0xA176, name: "YI SYLLABLE HNOT", aliases: &[] },
        Codepoint { codepoint: 0xA177, name: "YI SYLLABLE HNOX", aliases: &[] },
        Codepoint { codepoint: 0xA178, name: "YI SYLLABLE HNOP", aliases: &[] },
        Codepoint { codepoint: 0xA179, name: "YI SYLLABLE HNEX", aliases: &[] },
        Codepoint { codepoint: 0xA17A, name: "YI SYLLABLE HNE", aliases: &[] },
        Codepoint { codepoint: 0xA17B, name: "YI SYLLABLE HNEP", aliases: &[] },
    ]
}

fn all_codepoints_316() -> (v: Vec<Codepoint>)
    ensures
        v@ == codepoint_table_316(),
{
    let v = vec![
        Codepoint { codepoint: 0xA154, name: "YI SYLLABLE NDIP", aliases: &[] },
        Codepoint { codepoint: 0xA155, name: "YI SYLLABLE NDIEX", aliases: &[] },
        Codepoint { codepoint: 0xA156, name: "YI SYLLABLE NDIE", aliases: &[] },
        Codepoint { codepoint: 0xA157, name: "YI SYLLABLE NDAT", aliases: &[] },
        Codepoint { codepoint: 0xA158, name: "YI SYLLABLE NDAX", aliases: &[] },
        Codepoint { codepoint: 0xA159, name: "YI SYLLABLE NDA", aliases: &[] },
        Codepoint { codepoint: 0xA15A, name: "YI SYLLABLE NDAP", aliases: &[] },
        Codepoint { codepoint: 0xA15B, name: "YI SYLLABLE NDOT", aliases: &[] },
        Codepoint { codepoint: 0xA15C, name: "YI SYLLABLE NDOX", aliases: &[] },
        Codepoint { codepoint: 0xA15D, name: "YI SYLLABLE NDO", aliases: &[] },
        Codepoint { codepoint: 0xA15E, name: "YI SYLLABLE NDOP", aliases: &[] },
        Codepoint { codepoint: 0xA15F, name: "YI SYLLABLE NDEX", aliases: &[] },
        Codepoint { codepoint: 0xA160, name: "YI SYLLABLE NDE", aliases: &[] },
        Codepoint { codepoint: 0xA161, name: "YI SYLLABLE NDEP", aliases: &[] },
        Codepoint { codepoint: 0xA162, name: "YI SYLLABLE NDUT", aliases: &[] },
        Codepoint { codepoint: 0xA163, name: "YI SYLLABLE NDUX", aliases: &[] },
        Codepoint { codepoint: 0xA164, name: "YI SYLLABLE NDU", aliases: &[] },
        Codepoint { codepoint: 0xA165, name: "YI SYLLABLE NDUP", aliases: &[] },
        Codepoint { codepoint: 0xA166, name: "YI SYLLABLE NDURX", aliases: &[] },
        Codepoint { codepoint: 0xA167, name: "YI SYLLABLE NDUR", aliases: &[] },
        Codepoint { codepoint: 0xA168, name: "YI SYLLABLE HNIT", aliases: &[] },
        Codepoint { codepoint: 0xA169, name: "YI SYLLABLE HNIX", aliases: &[] },
        Codepoint { codepoint: 0xA16A, name: "YI SYLLABLE HNI", aliases: &[] },
        Codepoint { codepoint: 0xA16B, name: "YI SYLLABLE HNIP", aliases: &[] },
        Codepoint { codepoint: 0xA16C, name: "YI SYLLABLE HNIET", aliases: &[] },
        Codepoint { codepoint: 0xA16D, name: "YI SYLLABLE HNIEX", aliases: &[] },
        Codepoint { codepoint: 0xA16E, name: "YI SYLLABLE HNIE", aliases: &[] },
        Codepoint { codepoint: 0xA16F, name: "YI SYLLABLE HNIEP", aliases: &[] },
        Codepoint { codepoint: 0xA170, name: "YI SYLLABLE HNAT", aliases: &[] },
        Codepoint { codepoint: 0xA171, name: "YI SYLLABLE HNAX", aliases: &[] },
        Codepoint { codepoint: 0xA172, name: "YI SYLLABLE HNA", aliases: &[] },
        Codepoint { codepoint: 0xA173, name: "YI SYLLABLE HNAP", aliases: &[] },
        Codepoint { codepoint: 0xA174, name: "YI SYLLABLE HNUOX", aliases: &[] },
        Codepoint { codepoint: 0xA175, name: "YI SYLLABLE HNUO", aliases: &[] },
        Codepoint { codepoint: 0xA176, name: "YI SYLLABLE HNOT", aliases: &[] },
        Codepoint { codepoint: 0xA177, name: "YI SYLLABLE HNOX", aliases: &[] },
        Codepoint { codepoint: 0xA178, name: "YI SYLLABLE HNOP", aliases: &[] },
        Codepoint { codepoint: 0xA179, name: "YI SYLLABLE HNEX", aliases: &[] },
        Codepoint { codepoint: 0xA17A, name: "YI SYLLABLE HNE", aliases: &[] },
        Codepoint { codepoint: 0xA17B, name: "YI SYLLABLE HNEP", aliases: &[] },
    ];
    assert(v@ =~= codepoint_table_316());
    v
}

pub open spec fn codepoint_table_317() -> Seq<Codepoint> {
    seq![
        Codepoint { codepoint: 0xA17C, name: "YI SYLLABLE HNUT", aliases: &[] },
        Codepoint { codepoint: 0xA17D, name: "YI SYLLABLE NIT", aliases: &[] },
        Codepoint { codepoint: 0xA17E, name: "YI SYLLABLE NIX", aliases: &[] },
        Codepoint { codepoint: 0xA17F, name: "YI SYLLABLE NI", aliases: &[] },
        Codepoint { codepoint: 0xA180, name: "YI SYLLABLE NIP", aliases: &[] },
        Codepoint { codepoint: 0xA181, name: "YI SYLLABLE NIEX", aliases: &[] },
        Codepoint { codepoint: 0xA182, name: "YI SYLLABLE NIE", aliases: &[] },
        Codepoint { codepoint: 0xA183, name: "YI SYLLABLE NIEP", aliases: &[] },
        Codepoint { codepoint: 0xA184, name: "YI SYLLABLE NAX", aliases: &[] },
        Codepoint { codepoint: 0xA185, name: "YI SYLLABLE NA", aliases: &[] },
        Codepoint { codepoint: 0xA186, name: "YI SYLLABLE NAP", aliases: &[] },
        Codepoint { codepoint: 0xA187, name: "YI SYLLABLE NUOX", aliases: &[] },
        Codepoint { codepoint: 0xA188, name: "YI SYLLABLE NUO", aliases: &[] },
        Codepoint { codepoint: 0xA189, name: "YI SYLLABLE NUOP", aliases: &[] },
        Codepoint { codepoint: 0xA18A, name: "YI SYLLABLE NOT", aliases: &[] },
        Codepoint { codepoint: 0xA18B, name: "YI SYLLABLE NOX", aliases: &[] },
        Codepoint { codepoint: 0xA18C, name: "YI SYLLABLE NO", aliases: &[] },
        Codepoint { codepoint: 0xA18D, name: "YI SYLLABLE NOP", aliases: &[] },
        Codepoint { codepoint: 0xA18E, name: "YI SYLLABLE NEX", aliases: &[] },
        Codepoint { codepoint: 0xA18F, name: "YI SYLLABLE NE", aliases: &[] },
        Codepoint { codepoint: 0xA190, name: "YI SYLLABLE NEP", aliases: &[] },
        Codepoint { codepoint: 0xA191, name: "YI SYLLABLE NUT", aliases: &[] },
        Codepoint { codepoint: 0xA192, name: "YI SYLLABLE NUX", aliases: &[] },
        Codepoint { codepoint: 0xA193, name: "YI SYLLABLE NU", aliases: &[] },
        Codepoint { codepoint: 0xA194, name: "YI SYLLABLE NUP", aliases: &[] },
        Codepoint { codepoint: 0xA195, name: "YI SYLLABLE NURX", aliases: &[] },
        Codepoint { codepoint: 0xA196, name: "YI SYLLABLE NUR", aliases: &[] },
        Codepoint { codepoint: 0xA197, name: "YI SYLLABLE HLIT", aliases: &[] },
        Codepoint { codepoint: 0xA198, name: "YI SYLLABLE HLIX", aliases: &[] },
        Codepoint { codepoint: 0xA199, name: "YI SYLLABLE HLI", aliases: &[] },
        Codepoint { codepoint: 0xA19A, name: "YI SYLLABLE HLIP", aliases: &[] },
        Codepoint { codepoint: 0xA19B, name: "YI SYLLABLE HLIEX", aliases: &[] },
        Codepoint { codepoint: 0xA19C, name: "YI SYLLABLE HLIE", aliases: &[] },
        Codepoint { codepoint: 0xA19D, name: "YI SYLLABLE HLIEP", aliases: &[] },
        Codepoint { codepoint: 0xA19E, name: "YI SYLLABLE HLAT", aliases: &[] },
        Codepoint { codepoint: 0xA19F, name: "YI SYLLABLE HLAX", aliases: &[] },
        Codepoint { codepoint: 0xA1A0, name: "YI SYLLABLE HLA", aliases: &[] },
        Codepoint { codepoint: 0xA1A1, name: "YI SYLLABLE HLAP", aliases: &[] },
        Codepoint { codepoint: 0xA1A2, name: "YI SYLLABLE HLUOX", aliases: &[] },
        Codepoint { codepoint: 0xA1A3, name: "YI SYLLABLE HLUO", aliases: &[] },
    ]
}

fn all_codepoints_317() -> (v: Vec<Codepoint>)
    ensures
        v@ == codepoint_table_317(),
{
    let v = vec![
        Codepoint { codepoint: 0xA17C, name: "YI SYLLABLE HNUT", aliases: &[] },
        Codepoint { codepoint: 0xA17D, name: "YI SYLLABLE NIT", aliases: &[] },
        Codepoint { codepoint: 0xA17E, name: "YI SYLLABLE NIX", aliases: &[] },
        Codepoint { codepoint: 0xA17F, name: "YI SYLLABLE NI", aliases: &[] },
        Codepoint { codepoint: 0xA180, name: "YI SYLLABLE NIP", aliases: &[] },
        Codepoint { codepoint: 0xA181, name: "YI SYLLABLE NIEX", aliases: &[] },
        Codepoint { codepoint: 0xA182, name: "YI SYLLABLE NIE", aliases: &[] },
        Codepoint { codepoint: 0xA183, name: "YI SYLLABLE NIEP", aliases: &[] },
        Codepoint { codepoint: 0xA184, name: "YI SYLLABLE NAX", aliases: &[] },
        Codepoint { codepoint: 0xA185, name: "YI SYLLABLE NA", aliases: &[] },
        Codepoint { codepoint: 0xA186, name: "YI SYLLABLE NAP", aliases: &[] },
        Codepoint { codepoint: 0xA187, name: "YI SYLLABLE NUOX", aliases: &[] },
        Codepoint { codepoint: 0xA188, name: "YI SYLLABLE NUO", aliases: &[] },
        Codepoint { codepoint: 0xA189, name: "YI SYLLABLE NUOP", aliases: &[] },
        Codepoint { codepoint: 0xA18A, name: "YI SYLLABLE NOT", aliases: &[] },
        Codepoint { codepoint: 0xA18B, name: "YI SYLLABLE NOX", aliases: &[] },
        Codepoint { codepoint: 0xA18C, name: "YI SYLLABLE NO", aliases: &[] },
        Codepoint { codepoint: 0xA18D, name: "YI SYLLABLE NOP", aliases: &[] },
        Codepoint { codepoint: 0xA18E, name: "YI SYLLABLE NEX", aliases: &[] },
        Codepoint { codepoint: 0xA18F, name: "YI SYLLABLE NE", aliases: &[] },
        Codepoint { codepoint: 0xA190, name: "YI SYLLABLE NEP", aliases: &[] },
        Codepoint { codepoint: 0xA191, name: "YI SYLLABLE NUT", aliases: &[] },
        Codepoint { codepoint: 0xA192, name: "YI SYLLABLE NUX", aliases: &[] },
        Codepoint { codepoint: 0xA193, name: "YI SYLLABLE NU", aliases: &[] },
        Codepoint { codepoint: 0xA194, name: "YI SYLLABLE NUP", aliases: &[] },
        Codepoint { codepoint: 0xA195, name: "YI SYLLABLE NURX", aliases: &[] },
        Codepoint { codepoint: 0xA196, name: "YI SYLLABLE NUR", aliases: &[] },
        Codepoint { codepoint: 0xA197, name: "YI SYLLABLE HLIT", aliases: &[] },
        Codepoint { codepoint: 0xA198, name: "YI SYLLABLE HLIX", aliases: &[] },
        Codepoint { codepoint: 0xA199, name: "YI SYLLABLE HLI", aliases: &[] },
        Codepoint { codepoint: 0xA19A, name: "YI SYLLABLE HLIP", aliases: &[] },
        Codepoint { codepoint: 0xA19B, name: "YI SYLLABLE HLIEX", aliases: &[] },
        Codepoint { codepoint: 0xA19C, name: "YI SYLLABLE HLIE", aliases: &[] },
        Codepoint { codepoint: 0xA19D, name: "YI SYLLABLE HLIEP", aliases: &[] },
        Codepoint { codepoint: 0xA19E, name: "YI SYLLABLE HLAT", aliases: &[] },
        Codepoint { codepoint: 0xA19F, name: "YI SYLLABLE HLAX", aliases: &[] },
        Codepoint { codepoint: 0xA1A0, name: "YI SYLLABLE HLA", aliases: &[] },
        Codepoint { codepoint: 0xA1A1, name: "YI SYLLABLE HLAP", aliases: &[] },
        Codepoint { codepoint: 0xA1A2, name: "YI SYLLABLE HLUOX", aliases: &[] },
        Codepoint { codepoint: 0xA1A3, name: "YI SYLLABLE HLUO", aliases: &[] },
    ];
    assert(v@ =~= codepoint_table_317());
    v
}

pub open spec fn codepoint_table_318() -> Seq<Codepoint> {
    seq![
        Codepoint { codepoint: 0xA1A4, name: "YI SYLLABLE HLUOP", aliases: &[] },
        Codepoint { codepoint: 0xA1A5, name: "YI SYLLABLE HLOX", aliases: &[] },
        Codepoint { codepoint: 0xA1A6, name: "YI SYLLABLE HLO", aliases: &[] },
        Codepoint { codepoint: 0xA1A7, name: "YI SYLLABLE HLOP", aliases: &[] },
        Codepoint { codepoint: 0xA1A8, name: "YI SYLLABLE HLEX", aliases: &[] },
        Codepoint { codepoint: 0xA1A9, name: "YI SYLLABLE HLE", aliases: &[] },
        Codepoint { codepoint: 0xA1AA, name: "YI SYLLABLE HLEP", aliases: &[] },
        Codepoint { codepoint: 0xA1AB, name: "YI SYLLABLE HLUT", aliases: &[] },
        Codepoint { codepoint: 0xA1AC, name: "YI SYLLABLE HLUX", aliases: &[] },
        Codepoint { codepoint: 0xA1AD, name: "YI SYLLABLE HLU", aliases: &[] },
        Codepoint { codepoint: 0xA1AE, name: "YI SYLLABLE HLUP", aliases: &[] },
        Codepoint { codepoint: 0xA1AF, name: "YI SYLLABLE HLURX", aliases: &[] },
        Codepoint { codepoint: 0xA1B0, name: "YI SYLLABLE HLUR", aliases: &[] },
        Codepoint { codepoint: 0xA1B1, name: "YI SYLLABLE HLYT", aliases: &[] },
        Codepoint { codepoint: 0xA1B2, name: "YI SYLLABLE HLYX", aliases: &[] },
        Codepoint { codepoint: 0xA1B3, name: "YI SYLLABLE HLY", aliases: &[] },
        Codepoint { codepoint: 0xA1B4, name: "YI SYLLABLE HLYP", aliases: &[] },
        Codepoint { codepoint: 0xA1B5, name: "YI SYLLABLE HLYRX", aliases: &[] },
        Codepoint { codepoint: 0xA1B6, name: "YI SYLLABLE HLYR", aliases: &[] },
        Codepoint { codepoint: 0xA1B7, name: "YI SYLLABLE LIT", aliases: &[] },
        Codepoint { codepoint: 0xA1B8, name: "YI SYLLABLE LIX", aliases: &[] },
        Codepoint { codepoint: 0xA1B9, name: "YI SYLLABLE LI", aliases: &[] },
        Codepoint { codepoint: 0xA1BA, name: "YI SYLLABLE LIP", aliases: &[] },
        Codepoint { codepoint: 0xA1BB, name: "YI SYLLABLE LIET", aliases: &[] },
        Codepoint { codepoint: 0xA1BC, name: "YI SYLLABLE LIEX", aliases: &[] },
        Codepoint { codepoint: 0xA1BD, name: "YI SYLLABLE LIE", aliases: &[] },
        Codepoint { codepoint: 0xA1BE, name: "YI SYLLABLE LIEP", aliases: &[] },
        Codepoint { codepoint: 0xA1BF, name: "YI SYLLABLE LAT", aliases: &[] },
        Codepoint { codepoint: 0xA1C0, name: "YI SYLLABLE LAX", aliases: &[] },
        Codepoint { codepoint: 0xA1C1, name: "YI SYLLABLE LA", aliases: &[] },
        Codepoint { codepoint: 0xA1C2, name: "YI SYLLABLE LAP", aliases: &[] },
        Codepoint { codepoint: 0xA1C3, name: "YI SYLLABLE LUOT", aliases: &[] },
        Codepoint { codepoint: 0xA1C4, name: "YI SYLLABLE LUOX", aliases: &[] },
        Codepoint { codepoint: 0xA1C5, name: "YI SYLLABLE LUO", aliases: &[] },
        Codepoint { codepoint: 0xA1C6, name: "YI SYLLABLE LUOP", aliases: &[] },
        Codepoint { codepoint: 0xA1C7, name: "YI SYLLABLE LOT", aliases: &[] },
        Codepoint { codepoint: 0xA1C8, name: "YI SYLLABLE LOX", aliases: &[] },
        Codepoint { codepoint: 0xA1C9, name: "YI SYLLABLE LO", aliases: &[] },
        Codepoint { codepoint: 0xA1CA, name: "YI SYLLABLE LOP", aliases: &[] },
        Codepoint { codepoint: 0xA1CB, name: "YI SYLLABLE LEX", aliases: &[] },
    ]
}

fn all_codepoints_318() -> (v: Vec<Codepoint>)
    ensures
        v@ == codepoint_table_318(),
{
    let v = vec![
        Codepoint { codepoint: 0xA1A4, name: "YI SYLLABLE HLUOP", aliases: &[] },
        Codepoint { codepoint: 0xA1A5, name: "YI SYLLABLE HLOX", aliases: &[] },
        Codepoint { codepoint: 0xA1A6, name: "YI SYLLABLE HLO", aliases: &[] },
        Codepoint { codepoint: 0xA1A7, name: "YI SYLLABLE HLOP", aliases: &[] },
        Codepoint { codepoint: 0xA1A8, name: "YI SYLLABLE HLEX", aliases: &[] },
        Codepoint { codepoint: 0xA1A9, name: "YI SYLLABLE HLE", aliases: &[] },
        Codepoint { codepoint: 0xA1AA, name: "YI SYLLABLE HLEP", aliases: &[] },
        Codepoint { codepoint: 0xA1AB, name: "YI SYLLABLE HLUT", aliases: &[] },
        Codepoint { codepoint: 0xA1AC, name: "YI SYLLABLE HLUX", aliases: &[] },
        Codepoint { codepoint: 0xA1AD, name: "YI SYLLABLE HLU", aliases: &[] },
        Codepoint { codepoint: 0xA1AE, name: "YI SYLLABLE HLUP", aliases: &[] },
        Codepoint { codepoint: 0xA1AF, name: "YI SYLLABLE HLURX", aliases: &[] },
        Codepoint { codepoint: 0xA1B0, name: "YI SYLLABLE HLUR", aliases: &[] },
        Codepoint { codepoint: 0xA1B1, name: "YI SYLLABLE HLYT", aliases: &[] },
        Codepoint { codepoint: 0xA1B2, name: "YI SYLLABLE HLYX", aliases: &[] },
        Codepoint { codepoint: 0xA1B3, name: "YI SYLLABLE HLY", aliases: &[] },
        Codepoint { codepoint: 0xA1B4, name: "YI SYLLABLE HLYP", aliases: &[] },
        Codepoint { codepoint: 0xA1B5, name: "YI SYLLABLE HLYRX", aliases: &[] },
        Codepoint { codepoint: 0xA1B6, name: "YI SYLLABLE HLYR", aliases: &[] },
        Codepoint { codepoint: 0xA1B7, name: "YI SYLLABLE LIT", aliases: &[] },
        Codepoint { codepoint: 0xA1B8, name: "YI SYLLABLE LIX", aliases: &[] },
        Codepoint { codepoint: 0xA1B9, name: "YI SYLLABLE LI", aliases: &[] },
        Codepoint { codepoint: 0xA1BA, name: "YI SYLLABLE LIP", aliases: &[] },
        Codepoint { codepoint: 0xA1BB, name: "YI SYLLABLE LIET", aliases: &[] },
        Codepoint { codepoint: 0xA1BC, name: "YI SYLLABLE LIEX", aliases: &[] },
        Codepoint { codepoint: 0xA1BD, name: "YI SYLLABLE LIE", aliases: &[] },
        Codepoint { codepoint: 0xA1BE, name: "YI SYLLABLE LIEP", aliases: &[] },
        Codepoint { codepoint: 0xA1BF, name: "YI SYLLABLE LAT", aliases: &[] },
        Codepoint { codepoint: 0xA1C0, name: "YI SYLLABLE LAX", aliases: &[] },
        Codepoint { codepoint: 0xA1C1, name: "YI SYLLABLE LA", aliases: &[] },
        Codepoint { codepoint: 0xA1C2, name: "YI SYLLABLE LAP", aliases: &[] },
        Codepoint { codepoint: 0xA1C3, name: "YI SYLLABLE LUOT", aliases: &[] },
        Codepoint { codepoint: 0xA1C4, name: "YI SYLLABLE LUOX", aliases: &[] },
        Codepoint { codepoint: 0xA1C5, name: "YI SYLLABLE LUO", aliases: &[] },
        Codepoint { codepoint: 0xA1C6, name: "YI SYLLABLE LUOP", aliases: &[] },
        Codepoint { codepoint: 0xA1C7, name: "YI SYLLABLE LOT", aliases: &[] },
        Codepoint { codepoint: 0xA1C8, name: "YI SYLLABLE LOX", aliases: &[] },
        Codepoint { codepoint: 0xA1C9, name: "YI SYLLABLE LO", aliases: &[] },
        Codepoint { codepoint: 0xA1CA, name: "YI SYLLABLE LOP", aliases: &[] },
        Codepoint { codepoint: 0xA1CB, name: "YI SYLLABLE LEX", aliases: &[] },
    ];
    assert(v@ =~= codepoint_table_318());
    v
}

pub open spec fn codepoint_table_319() -> Seq<Codepoint> {
    seq![
        Codepoint { codepoint: 0xA1CC, name: "YI SYLLABLE LE", aliases: &[] },
        Codepoint { codepoint: 0xA1CD, name: "YI SYLLABLE LEP", aliases: &[] },
        Codepoint { codepoint: 0xA1CE, name: "YI SYLLABLE LUT", aliases: &[] },
        Codepoint { codepoint: 0xA1CF, name: "YI SYLLABLE LUX", aliases: &[] },
        Codepoint { codepoint: 0xA1D0, name: "YI SYLLABLE LU", aliases: &[] },
        Codepoint { codepoint: 0xA1D1, name: "YI SYLLABLE LUP", aliases: &[] },
        Codepoint { codepoint: 0xA1D2, name: "YI SYLLABLE LURX", aliases: &[] },
        Codepoint { codepoint: 0xA1D3, name: "YI SYLLABLE LUR", aliases: &[] },
        Codepoint { codepoint: 0xA1D4, name: "YI SYLLABLE LYT", aliases: &[] },
        Codepoint { codepoint: 0xA1D5, name: "YI SYLLABLE LYX", aliases: &[] },
        Codepoint { codepoint: 0xA1D6, name: "YI SYLLABLE LY", aliases: &[] },
        Codepoint { codepoint: 0xA1D7, name: "YI SYLLABLE LYP", aliases: &[] },
        Codepoint { codepoint: 0xA1D8, name: "YI SYLLABLE LYRX", aliases: &[] },
        Codepoint { codepoint: 0xA1D9, name: "YI SYLLABLE LYR", aliases: &[] },
        Codepoint { codepoint: 0xA1DA, name: "YI SYLLABLE GIT", aliases: &[] },
        Codepoint { codepoint: 0xA1DB, name: "YI SYLLABLE GIX", aliases: &[] },
        Codepoint { codepoint: 0xA1DC, name: "YI SYLLABLE GI", aliases: &[] },
        Codepoint { codepoint: 0xA1DD, name: "YI SYLLABLE GIP", aliases: &[] },
        Codepoint { codepoint: 0xA1DE, name: "YI SYLLABLE GIET", aliases: &[] },
        Codepoint { codepoint: 0xA1DF, name: "YI SYLLABLE GIEX", aliases: &[] },
        Codepoint { codepoint: 0xA1E0, name: "YI SYLLABLE GIE", aliases: &[] },
        Codepoint { codepoint: 0xA1E1, name: "YI SYLLABLE GIEP", aliases: &[] },
        Codepoint { codepoint: 0xA1E2, name: "YI SYLLABLE GAT", aliases: &[] },
        Codepoint { codepoint: 0xA1E3, name: "YI SYLLABLE GAX", aliases: &[] },
        Codepoint { codepoint: 0xA1E4, name: "YI SYLLABLE GA", aliases: &[] },
        Codepoint { codepoint: 0xA1E5, name: "YI SYLLABLE GAP", aliases: &[] },
        Codepoint { codepoint: 0xA1E6, name: "YI SYLLABLE GUOT", aliases: &[] },
        Codepoint { codepoint: 0xA1E7, name: "YI SYLLABLE GUOX", aliases: &[] },
        Codepoint { codepoint: 0xA1E8, name: "YI SYLLABLE GUO", aliases: &[] },
        Codepoint { codepoint: 0xA1E9, name: "YI SYLLABLE GUOP", aliases: &[] },
        Codepoint { codepoint: 0xA1EA, name: "YI SYLLABLE GOT", aliases: &[] },
        Codepoint { codepoint: 0xA1EB, name: "YI SYLLABLE GOX", aliases: &[] },
        Codepoint { codepoint: 0xA1EC, name: "YI SYLLABLE GO", aliases: &[] },
        Codepoint { codepoint: 0xA1ED, name: "YI SYLLABLE GOP", aliases: &[] },
        Codepoint { codepoint: 0xA1EE, name: "YI SYLLABLE GET", aliases: &[] },
        Codepoint { codepoint: 0xA1EF, name: "YI SYLLABLE GEX", aliases: &[] },
        Codepoint { codepoint: 0xA1F0, name: "YI SYLLABLE GE", aliases: &[] },
        Codepoint { codepoint: 0xA1F1, name: "YI SYLLABLE GEP", aliases: &[] },
        Codepoint { codepoint: 0xA1F2, name: "YI SYLLABLE GUT", aliases: &[] },
        Codepoint { codepoint: 0xA1F3, name: "YI SYLLABLE GUX", aliases: &[] },
    ]
}

fn all_codepoints_319() -> (v: Vec<Codepoint>)
    ensures
        v@ == codepoint_table_319(),
{
    let v = vec![
        Codepoint { codepoint: 0xA1CC, name: "YI SYLLABLE LE", aliases: &[] },
        Codepoint { codepoint: 0xA1CD, name: "YI SYLLABLE LEP", aliases: &[] },
        Codepoint { codepoint: 0xA1CE, name: "YI SYLLABLE LUT", aliases: &[] },
        Codepoint { codepoint: 0xA1CF, name: "YI SYLLABLE LUX", aliases: &[] },
        Codepoint { codepoint: 0xA1D0, name: "YI SYLLABLE LU", aliases: &[] },
        Codepoint { codepoint: 0xA1D1, name: "YI SYLLABLE LUP", aliases: &[] },
        Codepoint { codepoint: 0xA1D2, name: "YI SYLLABLE LURX", aliases: &[] },
        Codepoint { codepoint: 0xA1D3, name: "YI SYLLABLE LUR", aliases: &[] },
        Codepoint { codepoint: 0xA1D4, name: "YI SYLLABLE LYT", aliases: &[] },
        Codepoint { codepoint: 0xA1D5, name: "YI SYLLABLE LYX", aliases: &[] },
        Codepoint { codepoint: 0xA1D6, name: "YI SYLLABLE LY", aliases: &[] },
        Codepoint { codepoint: 0xA1D7, name: "YI SYLLABLE LYP", aliases: &[] },
        Codepoint { codepoint: 0xA1D8, name: "YI SYLLABLE LYRX", aliases: &[] },
        Codepoint { codepoint: 0xA1D9, name: "YI SYLLABLE LYR", aliases: &[] },
        Codepoint { codepoint: 0xA1DA, name: "YI SYLLABLE GIT", aliases: &[] },
        Codepoint { codepoint: 0xA1DB, name: "YI SYLLABLE GIX", aliases: &[] },
        Codepoint { codepoint: 0xA1DC, name: "YI SYLLABLE GI", aliases: &[] },
        Codepoint { codepoint: 0xA1DD, name: "YI SYLLABLE GIP", aliases: &[] },
        Codepoint { codepoint: 0xA1DE, name: "YI SYLLABLE GIET", aliases: &[] },
        Codepoint { codepoint: 0xA1DF, name: "YI SYLLABLE GIEX", aliases: &[] },
        Codepoint { codepoint: 0xA1E0, name: "YI SYLLABLE GIE", aliases: &[] },
        Codepoint { codepoint: 0xA1E1, name: "YI SYLLABLE GIEP", aliases: &[] },
        Codepoint { codepoint: 0xA1E2, name: "YI SYLLABLE GAT", aliases: &[] },
        Codepoint { codepoint: 0xA1E3, name: "YI SYLLABLE GAX", aliases: &[] },
        Codepoint { codepoint: 0xA1E4, name: "YI SYLLABLE GA", aliases: &[] },
        Codepoint { codepoint: 0xA1E5, name: "YI SYLLABLE GAP", aliases: &[] },
        Codepoint { codepoint: 0xA1E6, name: "YI SYLLABLE GUOT", aliases: &[] },
        Codepoint { codepoint: 0xA1E7, name: "YI SYLLABLE GUOX", aliases: &[] },
        Codepoint { codepoint: 0xA1E8, name: "YI SYLLABLE GUO", aliases: &[] },
        Codepoint { codepoint: 0xA1E9, name: "YI SYLLABLE GUOP", aliases: &[] },
        Codepoint { codepoint: 0xA1EA, name: "YI SYLLABLE GOT", aliases: &[] },
        Codepoint { codepoint: 0xA1EB, name: "YI SYLLABLE GOX", aliases: &[] },
        Codepoint { codepoint: 0xA1EC, name: "YI SYLLABLE GO", aliases: &[] },
        Codepoint { codepoint: 0xA1ED, name: "YI SYLLABLE GOP", aliases: &[] },
        Codepoint { codepoint: 0xA1EE, name: "YI SYLLABLE GET", aliases: &[] },
        Codepoint { codepoint: 0xA1EF, name: "YI SYLLABLE GEX", aliases: &[] },
        Codepoint { codepoint: 0xA1F0, name: "YI SYLLABLE GE", aliases: &[] },
        Codepoint { codepoint: 0xA1F1, name: "YI SYLLABLE GEP", aliases: &[] },
        Codepoint { codepoint: 0xA1F2, name: "YI SYLLABLE GUT", aliases: &[] },
        Codepoint { codepoint: 0xA1F3, name: "YI SYLLABLE GUX", aliases: &[] },
    ];
    assert(v@ =~= codepoint_table_319());
    v
}

/// The entries from position 12000 of the table, 800 at most.
pub open spec fn codepoint_group_15() -> Seq<Codepoint> {
    codepoint_table_300() + codepoint_table_301() + codepoint_table_302() + codepoint_table_303() + codepoint_table_304() + codepoint_table_305() + codepoint_table_306() + codepoint_table_307() + codepoint_table_308() + codepoint_table_309() + codepoint_table_310() + codepoint_table_311() + codepoint_table_312() + codepoint_table_313() + codepoint_table_314() + codepoint_table_315() + codepoint_table_316() + codepoint_table_317() + codepoint_table_318() + codepoint_table_319()
}

pub fn all_codepoints_group_15() -> (v: Vec<Codepoint>)
    ensures
        v@ == codepoint_group_15(),
{
    let mut v = all_codepoints_300();
    let mut part = all_codepoints_301();
    v.append(&mut part);
    let mut part = all_codepoints_302();
    v.append(&mut part);
    let mut part = all_codepoints_303();
    v.append(&mut part);
    let mut part = all_codepoints_304();
    v.append(&mut part);
    let mut part = all_codepoints_305();
    v.append(&mut part);
    let mut part = all_codepoints_306();
    v.append(&mut part);
    let mut part = all_codepoints_307();
    v.append(&mut part);
    let mut part = all_codepoints_308();
    v.append(&mut part);
    let mut part = all_codepoints_309();
    v.append(&mut part);
    let mut part = all_codepoints_310();
    v.append(&mut part);
    let mut part = all_codepoints_311();
    v.append(&mut part);
    let mut part = all_codepoints_312();
    v.append(&mut part);
    let mut part = all_codepoints_313();
    v.append(&mut part);
    let mut part = all_codepoints_314();
    v.append(&mut part);
    let mut part = all_codepoints_315();
    v.append(&mut part);
    let mut part = all_codepoints_316();
    v.append(&mut part);
    let mut part = all_codepoints_317();
    v.append(&mut part);
    let mut part = all_codepoints_318();
    v.append(&mut part);
    let mut part = all_codepoints_319();
    v.append(&mut part);
    v
}

pub open spec fn codepoint_table_320() -> Seq<Codepoint> {
    seq![
        Codepoint { codepoint: 0xA1F4, name: "YI SYLLABLE GU", aliases: &[] },
        Codepoint { codepoint: 0xA1F5, name: "YI SYLLABLE GUP", aliases: &[] },
        Codepoint { codepoint: 0xA1F6, name: "YI SYLLABLE GURX", aliases: &[] },
        Codepoint { codepoint: 0xA1F7, name: "YI SYLLABLE GUR", aliases: &[] },
        Codepoint { codepoint: 0xA1F8, name: "YI SYLLABLE KIT", aliases: &[] },
        Codepoint { codepoint: 0xA1F9, name: "YI SYLLABLE KIX", aliases: &[] },
        Codepoint { codepoint: 0xA1FA, name: "YI SYLLABLE KI", aliases: &[] },
        Codepoint { codepoint: 0xA1FB, name: "YI SYLLABLE KIP", aliases: &[] },
        Codepoint { codepoint: 0xA1FC, name: "YI SYLLABLE KIEX", aliases: &[] },
        Codepoint { codepoint: 0xA1FD, name: "YI SYLLABLE KIE", aliases: &[] },
        Codepoint { codepoint: 0xA1FE, name: "YI SYLLABLE KIEP", aliases: &[] },
        Codepoint { codepoint: 0xA1FF, name: "YI SYLLABLE KAT", aliases: &[] },
        Codepoint { codepoint: 0xA200, name: "YI SYLLABLE KAX", aliases: &[] },
        Codepoint { codepoint: 0xA201, name: "YI SYLLABLE KA", aliases: &[] },
        Codepoint { codepoint: 0xA202, name: "YI SYLLABLE KAP", aliases: &[] },
        Codepoint { codepoint: 0xA203, name: "YI SYLLABLE KUOX", aliases: &[] },
        Codepoint { codepoint: 0xA204, name: "YI SYLLABLE KUO", aliases: &[] },
        Codepoint { codepoint: 0xA205, name: "YI SYLLABLE KUOP", aliases: &[] },
        Codepoint { codepoint: 0xA206, name: "YI SYLLABLE KOT", aliases: &[] },
        Codepoint { codepoint: 0xA207, name: "YI SYLLABLE KOX", aliases: &[] },
        Codepoint { codepoint: 0xA208, name: "YI SYLLABLE KO", aliases: &[] },
        Codepoint { codepoint: 0xA209, name: "YI SYLLABLE KOP", aliases: &[] },
        Codepoint { codepoint: 0xA20A, name: "YI SYLLABLE KET", aliases: &[] },
        Codepoint { codepoint: 0xA20B, name: "YI SYLLABLE KEX", aliases: &[] },
        Codepoint { codepoint: 0xA20C, name: "YI SYLLABLE KE", aliases: &[] },
        Codepoint { codepoint: 0xA20D, name: "YI SYLLABLE KEP", aliases: &[] },
        Codepoint { codepoint: 0xA20E, name: "YI SYLLABLE KUT", aliases: &[] },
        Codepoint { codepoint: 0xA20F, name: "YI SYLLABLE KUX", aliases: &[] },
        Codepoint { codepoint: 0xA210, name: "YI SYLLABLE KU", aliases: &[] },
        Codepoint { codepoint: 0xA211, name: "YI SYLLABLE KUP", aliases: &[] },
        Codepoint { codepoint: 0xA212, name: "YI SYLLABLE KURX", aliases: &[] },
        Codepoint { codepoint: 0xA213, name: "YI SYLLABLE KUR", aliases: &[] },
        Codepoint { codepoint: 0xA214, name: "YI SYLLABLE GGIT", aliases: &[] },
        Codepoint { codepoint: 0xA215, name: "YI SYLLABLE GGIX", aliases: &[] },
        Codepoint { codepoint: 0xA216, name: "YI SYLLABLE GGI", aliases: &[] },
        Codepoint { codepoint: 0xA217, name: "YI SYLLABLE GGIEX", aliases: &[] },
        Codepoint { codepoint: 0xA218, name: "YI SYLLABLE GGIE", aliases: &[] },
        Codepoint { codepoint: 0xA219, name: "YI SYLLABLE GGIEP", aliases: &[] },
        Codepoint { codepoint: 0xA21A, name: "YI SYLLABLE GGAT", aliases: &[] },
        Codepoint { codepoint: 0xA21B, name: "YI SYLLABLE GGAX", aliases: &[] },
    ]
}

fn all_codepoints_320() -> (v: Vec<Codepoint>)
    ensures
        v@ == codepoint_table_320(),
{
    let v = vec![
        Codepoint { codepoint: 0xA1F4, name: "YI SYLLABLE GU", aliases: &[] },
        Codepoint { codepoint: 0xA1F5, name: "YI SYLLABLE GUP", aliases: &[] },
        Codepoint { codepoint: 0xA1F6, name: "YI SYLLABLE GURX", aliases: &[] },
        Codepoint { codepoint: 0xA1F7, name: "YI SYLLABLE GUR", aliases: &[] },
        Codepoint { codepoint: 0xA1F8, name: "YI SYLLABLE KIT", aliases: &[] },
        Codepoint { codepoint: 0xA1F9, name: "YI SYLLABLE KIX", aliases: &[] },
        Codepoint { codepoint: 0xA1FA, name: "YI SYLLABLE KI", aliases: &[] },
        Codepoint { codepoint: 0xA1FB, name: "YI SYLLABLE KIP", aliases: &[] },
        Codepoint { codepoint: 0xA1FC, name: "YI SYLLABLE KIEX", aliases: &[] },
        Codepoint { codepoint: 0xA1FD, name: "YI SYLLABLE KIE", aliases: &[] },
        Codepoint { codepoint: 0xA1FE, name: "YI SYLLABLE KIEP", aliases: &[] },
        Codepoint { codepoint: 0xA1FF, name: "YI SYLLABLE KAT", aliases: &[] },
        Codepoint { codepoint: 0xA200, name: "YI SYLLABLE KAX", aliases: &[] },
        Codepoint { codepoint: 0xA201, name: "YI SYLLABLE KA", aliases: &[] },
        Codepoint { codepoint: 0xA202, name: "YI SYLLABLE KAP", aliases: &[] },
        Codepoint { codepoint: 0xA203, name: "YI SYLLABLE KUOX", aliases: &[] },
        Codepoint { codepoint: 0xA204, name: "YI SYLLABLE KUO", aliases: &[] },
        Codepoint { codepoint: 0xA205, name: "YI SYLLABLE KUOP", aliases: &[] },
        Codepoint { codepoint: 0xA206, name: "YI SYLLABLE KOT", aliases: &[] },
        Codepoint { codepoint: 0xA207, name: "YI SYLLABLE KOX", aliases: &[] },
        Codepoint { codepoint: 0xA208, name: "YI SYLLABLE KO", aliases: &[] },
        Codepoint { codepoint: 0xA209, name: "YI SYLLABLE KOP", aliases: &[] },
        Codepoint { codepoint: 0xA20A, name: "YI SYLLABLE KET", aliases: &[] },
        Codepoint { codepoint: 0xA20B, name: "YI SYLLABLE KEX", aliases: &[] },
        Codepoint { codepoint: 0xA20C, name: "YI SYLLABLE KE", aliases: &[] },
        Codepoint { codepoint: 0xA20D, name: "YI SYLLABLE KEP", aliases: &[] },
        Codepoint { codepoint: 0xA20E, name: "YI SYLLABLE KUT", aliases: &[] },
        Codepoint { codepoint: 0xA20F, name: "YI SYLLABLE KUX", aliases: &[] },
        Codepoint { codepoint: 0xA210, name: "YI SYLLABLE KU", aliases: &[] },
        Codepoint { codepoint: 0xA211, name: "YI SYLLABLE KUP", aliases: &[] },
        Codepoint { codepoint: 0xA212, name: "YI SYLLABLE KURX", aliases: &[] },
        Codepoint { codepoint: 0xA213, name: "YI SYLLABLE KUR", aliases: &[] },
        Codepoint { codepoint: 0xA214, name: "YI SYLLABLE GGIT", aliases: &[] },
        Codepoint { codepoint: 0xA215, name: "YI SYLLABLE GGIX", aliases: &[] },
        Codepoint { codepoint: 0xA216, name: "YI SYLLABLE GGI", aliases: &[] },
        Codepoint { codepoint: 0xA217, name: "YI SYLLABLE GGIEX", aliases: &[] },
        Codepoint { codepoint: 0xA218, name: "YI SYLLABLE GGIE", aliases: &[] },
        Codepoint { codepoint: 0xA219, name: "YI SYLLABLE GGIEP", aliases: &[] },
        Codepoint { codepoint: 0xA21A, name: "YI SYLLABLE GGAT", aliases: &[] },
        Codepoint { codepoint: 0xA21B, name: "YI SYLLABLE GGAX", aliases: &[] },
    ];
    assert(v@ =~= codepoint_table_320());
    v
}

pub open spec fn codepoint_table_321() -> Seq<Codepoint> {
    seq![
        Codepoint { codepoint: 0xA21C, name: "YI SYLLABLE GGA", aliases: &[] },
        Codepoint { codepoint: 0xA21D, name: "YI SYLLABLE GGAP", aliases: &[] },
        Codepoint { codepoint: 0xA21E, name: "YI SYLLABLE GGUOT", aliases: &[] },
        Codepoint { codepoint: 0xA21F, name: "YI SYLLABLE GGUOX", aliases: &[] },
        Codepoint { codepoint: 0xA220, name: "YI SYLLABLE GGUO", aliases: &[] },
        Codepoint { codepoint: 0xA221, name: "YI SYLLABLE GGUOP", aliases: &[] },
        Codepoint { codepoint: 0xA222, name: "YI SYLLABLE GGOT", aliases: &[] },
        Codepoint { codepoint: 0xA223, name: "YI SYLLABLE GGOX", aliases: &[] },
        Codepoint { codepoint: 0xA224, name: "YI SYLLABLE GGO", aliases: &[] },
        Codepoint { codepoint: 0xA225, name: "YI SYLLABLE GGOP", aliases: &[] },
        Codepoint { codepoint: 0xA226, name: "YI SYLLABLE GGET", aliases: &[] },
        Codepoint { codepoint: 0xA227, name: "YI SYLLABLE GGEX", aliases: &[] },
        Codepoint { codepoint: 0xA228, name: "YI SYLLABLE GGE", aliases: &[] },
        Codepoint { codepoint: 0xA229, name: "YI SYLLABLE GGEP", aliases: &[] },
        Codepoint { codepoint: 0xA22A, name: "YI SYLLABLE GGUT", aliases: &[] },
        Codepoint { codepoint: 0xA22B, name: "YI SYLLABLE GGUX", aliases: &[] },
        Codepoint { codepoint: 0xA22C, name: "YI SYLLABLE GGU", aliases: &[] },
        Codepoint { codepoint: 0xA22D, name: "YI SYLLABLE GGUP", aliases: &[] },
        Codepoint { codepoint: 0xA22E, name: "YI SYLLABLE GGURX", aliases: &[] },
        Codepoint { codepoint: 0xA22F, name: "YI SYLLABLE GGUR", aliases: &[] },
        Codepoint { codepoint: 0xA230, name: "YI SYLLABLE MGIEX", aliases: &[] },
        Codepoint { codepoint: 0xA231, name: "YI SYLLABLE MGIE", aliases: &[] },
        Codepoint { codepoint: 0xA232, name: "YI SYLLABLE MGAT", aliases: &[] },
        Codepoint { codepoint: 0xA233, name: "YI SYLLABLE MGAX", aliases: &[] },
        Codepoint { codepoint: 0xA234, name: "YI SYLLABLE MGA", aliases: &[] },
        Codepoint { codepoint: 0xA235, name: "YI SYLLABLE MGAP", aliases: &[] },
        Codepoint { codepoint: 0xA236, name: "YI SYLLABLE MGUOX", aliases: &[] },
        Codepoint { codepoint: 0xA237, name: "YI SYLLABLE MGUO", aliases: &[] },
        Codepoint { codepoint: 0xA238, name: "YI SYLLABLE MGUOP", aliases: &[] },
        Codepoint { codepoint: 0xA239, name: "YI SYLLABLE MGOT", aliases: &[] },
        Codepoint { codepoint: 0xA23A, name: "YI SYLLABLE MGOX", aliases: &[] },
        Codepoint { codepoint: 0xA23B, name: "YI SYLLABLE MGO", aliases: &[] },
        Codepoint { codepoint: 0xA23C, name: "YI SYLLABLE MGOP", aliases: &[] },
        Codepoint { codepoint: 0xA23D, name: "YI SYLLABLE MGEX", aliases: &[] },
        Codepoint { codepoint: 0xA23E, name: "YI SYLLABLE MGE", aliases: &[] },
        Codepoint { codepoint: 0xA23F, name: "YI SYLLABLE MGEP", aliases: &[] },
        Codepoint { codepoint: 0xA240, name: "YI SYLLABLE MGUT", aliases: &[] },
        Codepoint { codepoint: 0xA241, name: "YI SYLLABLE MGUX", aliases: &[] },
        Codepoint { codepoint: 0xA242, name: "YI SYLLABLE MGU", aliases: &[] },
        Codepoint { codepoint: 0xA243, name: "YI SYLLABLE MGUP", aliases: &[] },
    ]
}

fn all_codepoints_321() -> (v: Vec<Codepoint>)
    ensures
        v@ == codepoint_table_321(),
{
    let v = vec![
        Codepoint { codepoint: 0xA21C, name: "YI SYLLABLE GGA", aliases: &[] },
        Codepoint { codepoint: 0xA21D, name: "YI SYLLABLE GGAP", aliases: &[] },
        Codepoint { codepoint: 0xA21E, name: "YI SYLLABLE GGUOT", aliases: &[] },
        Codepoint { codepoint: 0xA21F, name: "YI SYLLABLE GGUOX", aliases: &[] },
        Codepoint { codepoint: 0xA220, name: "YI SYLLABLE GGUO", aliases: &[] },
        Codepoint { codepoint: 0xA221, name: "YI SYLLABLE GGUOP", aliases: &[] },
        Codepoint { codepoint: 0xA222, name: "YI SYLLABLE GGOT", aliases: &[] },
        Codepoint { codepoint: 0xA223, name: "YI SYLLABLE GGOX", aliases: &[] },
        Codepoint { codepoint: 0xA224, name: "YI SYLLABLE GGO", aliases: &[] },
        Codepoint { codepoint: 0xA225, name: "YI SYLLABLE GGOP", aliases: &[] },
        Codepoint { codepoint: 0xA226, name: "YI SYLLABLE GGET", aliases: &[] },
        Codepoint { codepoint: 0xA227, name: "YI SYLLABLE GGEX", aliases: &[] },
        Codepoint { codepoint: 0xA228, name: "YI SYLLABLE GGE", aliases: &[] },
        Codepoint { codepoint: 0xA229, name: "YI SYLLABLE GGEP", aliases: &[] },
        Codepoint { codepoint: 0xA22A, name: "YI SYLLABLE GGUT", aliases: &[] },
        Codepoint { codepoint: 0xA22B, name: "YI SYLLABLE GGUX", aliases: &[] },
        Codepoint { codepoint: 0xA22C, name: "YI SYLLABLE GGU", aliases: &[] },
        Codepoint { codepoint: 0xA22D, name: "YI SYLLABLE GGUP", aliases: &[] },
        Codepoint { codepoint: 0xA22E, name: "YI SYLLABLE GGURX", aliases: &[] },
        Codepoint { codepoint: 0xA22F, name: "YI SYLLABLE GGUR", aliases: &[] },
        Codepoint { codepoint: 0xA230, name: "YI SYLLABLE MGIEX", aliases: &[] },
        Codepoint { codepoint: 0xA231, name: "YI SYLLABLE MGIE", aliases: &[] },
        Codepoint { codepoint: 0xA232, name: "YI SYLLABLE MGAT", aliases: &[] },
        Codepoint { codepoint: 0xA233, name: "YI SYLLABLE MGAX", aliases: &[] },
        Codepoint { codepoint: 0xA234, name: "YI SYLLABLE MGA", aliases: &[] },
        Codepoint { codepoint: 0xA235, name: "YI SYLLABLE MGAP", aliases: &[] },
        Codepoint { codepoint: 0xA236, name: "YI SYLLABLE MGUOX", aliases: &[] },
        Codepoint { codepoint: 0xA237, name: "YI SYLLABLE MGUO", aliases: &[] },
        Codepoint { codepoint: 0xA238, name: "YI SYLLABLE MGUOP", aliases: &[] },
        Codepoint { codepoint: 0xA239, name: "YI SYLLABLE MGOT", aliases: &[] },
        Codepoint { codepoint: 0xA23A, name: "YI SYLLABLE MGOX", aliases: &[] },
        Codepoint { codepoint: 0xA23B, name: "YI SYLLABLE MGO", aliases: &[] },
        Codepoint { codepoint: 0xA23C, name: "YI SYLLABLE MGOP", aliases: &[] },
        Codepoint { codepoint: 0xA23D, name: "YI SYLLABLE MGEX", aliases: &[] },
        Codepoint { codepoint: 0xA23E, name: "YI SYLLABLE MGE", aliases: &[] },
        Codepoint { codepoint: 0xA23F, name: "YI SYLLABLE MGEP", aliases: &[] },
        Codepoint { codepoint: 0xA240, name: "YI SYLLABLE MGUT", aliases: &[] },
        Codepoint { codepoint: 0xA241, name: "YI SYLLABLE MGUX", aliases: &[] },
        Codepoint { codepoint: 0xA242, name: "YI SYLLABLE MGU", aliases: &[] },
        Codepoint { codepoint: 0xA243, name: "YI SYLLABLE MGUP", aliases: &[] },
    ];
    assert(v@ =~= codepoint_table_321());
    v
}

pub open spec fn codepoint_table_322() -> Seq<Codepoint> {
    seq![
        Codepoint { codepoint: 0xA244, name: "YI SYLLABLE MGURX", aliases: &[] },
        Codepoint { codepoint: 0xA245, name: "YI SYLLABLE MGUR", aliases: &[] },
        Codepoint { codepoint: 0xA246, name: "YI SYLLABLE HXIT", aliases: &[] },
        Codepoint { codepoint: 0xA247, name: "YI SYLLABLE HXIX", aliases: &[] },
        Codepoint { codepoint: 0xA248, name: "YI SYLLABLE HXI", aliases: &[] },
        Codepoint { codepoint: 0xA249, name: "YI SYLLABLE HXIP", aliases: &[] },
        Codepoint { codepoint: 0xA24A, name: "YI SYLLABLE HXIET", aliases: &[] },
        Codepoint { codepoint: 0xA24B, name: "YI SYLLABLE HXIEX", aliases: &[] },
        Codepoint { codepoint: 0xA24C, name: "YI SYLLABLE HXIE", aliases: &[] },
        Codepoint { codepoint: 0xA24D, name: "YI SYLLABLE HXIEP", aliases: &[] },
        Codepoint { codepoint: 0xA24E, name: "YI SYLLABLE HXAT", aliases: &[] },
        Codepoint { codepoint: 0xA24F, name: "YI SYLLABLE HXAX", aliases: &[] },
        Codepoint { codepoint: 0xA250, name: "YI SYLLABLE HXA", aliases: &[] },
        Codepoint { codepoint: 0xA251, name: "YI SYLLABLE HXAP", aliases: &[] },
        Codepoint { codepoint: 0xA252, name: "YI SYLLABLE HXUOT", aliases: &[] },
        Codepoint { codepoint: 0xA253, name: "YI SYLLABLE HXUOX", aliases: &[] },
        Codepoint { codepoint: 0xA254, name: "YI SYLLABLE HXUO", aliases: &[] },
        Codepoint { codepoint: 0xA255, name: "YI SYLLABLE HXUOP", aliases: &[] },
        Codepoint { codepoint: 0xA256, name: "YI SYLLABLE HXOT", aliases: &[] },
        Codepoint { codepoint: 0xA257, name: "YI SYLLABLE HXOX", aliases: &[] },
        Codepoint { codepoint: 0xA258, name: "YI SYLLABLE HXO", aliases: &[] },
        Codepoint { codepoint: 0xA259, name: "YI SYLLABLE HXOP", aliases: &[] },
        Codepoint { codepoint: 0xA25A, name: "YI SYLLABLE HXEX", aliases: &[] },
        Codepoint { codepoint: 0xA25B, name: "YI SYLLABLE HXE", aliases: &[] },
        Codepoint { codepoint: 0xA25C, name: "YI SYLLABLE HXEP", aliases: &[] },
        Codepoint { codepoint: 0xA25D, name: "YI SYLLABLE NGIEX", aliases: &[] },
        Codepoint { codepoint: 0xA25E, name: "YI SYLLABLE NGIE", aliases: &[] },
        Codepoint { codepoint: 0xA25F, name: "YI SYLLABLE NGIEP", aliases: &[] },
        Codepoint { codepoint: 0xA260, name: "YI SYLLABLE NGAT", aliases: &[] },
        Codepoint { codepoint: 0xA261, name: "YI SYLLABLE NGAX", aliases: &[] },
        Codepoint { codepoint: 0xA262, name: "YI SYLLABLE NGA", aliases: &[] },
        Codepoint { codepoint: 0xA263, name: "YI SYLLABLE NGAP", aliases: &[] },
        Codepoint { codepoint: 0xA264, name: "YI SYLLABLE NGUOT", aliases: &[] },
        Codepoint { codepoint: 0xA265, name: "YI SYLLABLE NGUOX", aliases: &[] },
        Codepoint { codepoint: 0xA266, name: "YI SYLLABLE NGUO", aliases: &[] },
        Codepoint { codepoint: 0xA267, name: "YI SYLLABLE NGOT", aliases: &[] },
        Codepoint { codepoint: 0xA268, name: "YI SYLLABLE NGOX", aliases: &[] },
        Codepoint { codepoint: 0xA269, name: "YI SYLLABLE NGO", aliases: &[] },
        Codepoint { codepoint: 0xA26A, name: "YI SYLLABLE NGOP", aliases: &[] },
        Codepoint { codepoint: 0xA26B, name: "YI SYLLABLE NGEX", aliases: &[] },
    ]
}

fn all_codepoints_322() -> (v: Vec<Codepoint>)
    ensures
        v@ == codepoint_table_322(),
{
    let v = vec![
        Codepoint { codepoint: 0xA244, name: "YI SYLLABLE MGURX", aliases: &[] },
        Codepoint { codepoint: 0xA245, name: "YI SYLLABLE MGUR", aliases: &[] },
        Codepoint { codepoint: 0xA246, name: "YI SYLLABLE HXIT", aliases: &[] },
        Codepoint { codepoint: 0xA247, name: "YI SYLLABLE HXIX", aliases: &[] },
        Codepoint { codepoint: 0xA248, name: "YI SYLLABLE HXI", aliases: &[] },
        Codepoint { codepoint: 0xA249, name: "YI SYLLABLE HXIP", aliases: &[] },
        Codepoint { codepoint: 0xA24A, name: "YI SYLLABLE HXIET", aliases: &[] },
        Codepoint { codepoint: 0xA24B, name: "YI SYLLABLE HXIEX", aliases: &[] },
        Codepoint { codepoint: 0xA24C, name: "YI SYLLABLE HXIE", aliases: &[] },
        Codepoint { codepoint: 0xA24D, name: "YI SYLLABLE HXIEP", aliases: &[] },
        Codepoint { codepoint: 0xA24E, name: "YI SYLLABLE HXAT", aliases: &[] },
        Codepoint { codepoint: 0xA24F, name: "YI SYLLABLE HXAX", aliases: &[] },
        Codepoint { codepoint: 0xA250, name: "YI SYLLABLE HXA", aliases: &[] },
        Codepoint { codepoint: 0xA251, name: "YI SYLLABLE HXAP", aliases: &[] },
        Codepoint { codepoint: 0xA252, name: "YI SYLLABLE HXUOT", aliases: &[] },
        Codepoint { codepoint: 0xA253, name: "YI SYLLABLE HXUOX", aliases: &[] },
        Codepoint { codepoint: 0xA254, name: "YI SYLLABLE HXUO", aliases: &[] },
        Codepoint { codepoint: 0xA255, name: "YI SYLLABLE HXUOP", aliases: &[] },
        Codepoint { codepoint: 0xA256, name: "YI SYLLABLE HXOT", aliases: &[] },
        Codepoint { codepoint: 0xA257, name: "YI SYLLABLE HXOX", aliases: &[] },
        Codepoint { codepoint: 0xA258, name: "YI SYLLABLE HXO", aliases: &[] },
        Codepoint { codepoint: 0xA259, name: "YI SYLLABLE HXOP", aliases: &[] },
        Codepoint { codepoint: 0xA25A, name: "YI SYLLABLE HXEX", aliases: &[] },
        Codepoint { codepoint: 0xA25B, name: "YI SYLLABLE HXE", aliases: &[] },
        Codepoint { codepoint: 0xA25C, name: "YI SYLLABLE HXEP", aliases: &[] },
        Codepoint { codepoint: 0xA25D, name: "YI SYLLABLE NGIEX", aliases: &[] },
        Codepoint { codepoint: 0xA25E, name: "YI SYLLABLE NGIE", aliases: &[] },
        Codepoint { codepoint: 0xA25F, name: "YI SYLLABLE NGIEP", aliases: &[] },
        Codepoint { codepoint: 0xA260, name: "YI SYLLABLE NGAT", aliases: &[] },
        Codepoint { codepoint: 0xA261, name: "YI SYLLABLE NGAX", aliases: &[] },
        Codepoint { codepoint: 0xA262, name: "YI SYLLABLE NGA", aliases: &[] },
        Codepoint { codepoint: 0xA263, name: "YI SYLLABLE NGAP", aliases: &[] },
        Codepoint { codepoint: 0xA264, name: "YI SYLLABLE NGUOT", aliases: &[] },
        Codepoint { codepoint: 0xA265, name: "YI SYLLABLE NGUOX", aliases: &[] },
        Codepoint { codepoint: 0xA266, name: "YI SYLLABLE NGUO", aliases: &[] },
        Codepoint { codepoint: 0xA267, name: "YI SYLLABLE NGOT", aliases: &[] },
        Codepoint { codepoint: 0xA268, name: "YI SYLLABLE NGOX", aliases: &[] },
        Codepoint { codepoint: 0xA269, name: "YI SYLLABLE NGO", aliases: &[] },
        Codepoint { codepoint: 0xA26A, name: "YI SYLLABLE NGOP", aliases: &[] },
        Codepoint { codepoint: 0xA26B, name: "YI SYLLABLE NGEX", aliases: &[] },
    ];
    assert(v@ =~= codepoint_table_322());
    v
}

pub open spec fn codepoint_table_323() -> Seq<Codepoint> {
    seq![
        Codepoint { codepoint: 0xA26C, name: "YI SYLLABLE NGE", aliases: &[] },
        Codepoint { codepoint: 0xA26D, name: "YI SYLLABLE NGEP", aliases: &[] },
        Codepoint { codepoint: 0xA26E, name: "YI SYLLABLE HIT", aliases: &[] },
        Codepoint { codepoint: 0xA26F, name: "YI SYLLABLE HIEX", aliases: &[] },
        Codepoint { codepoint: 0xA270, name: "YI SYLLABLE HIE", aliases: &[] },
        Codepoint { codepoint: 0xA271, name: "YI SYLLABLE HAT", aliases: &[] },
        Codepoint { codepoint: 0xA272, name: "YI SYLLABLE HAX", aliases: &[] },
        Codepoint { codepoint: 0xA273, name: "YI SYLLABLE HA", aliases: &[] },
        Codepoint { codepoint: 0xA274, name: "YI SYLLABLE HAP", aliases: &[] },
        Codepoint { codepoint: 0xA275, name: "YI SYLLABLE HUOT", aliases: &[] },
        Codepoint { codepoint: 0xA276, name: "YI SYLLABLE HUOX", aliases: &[] },
        Codepoint { codepoint: 0xA277, name: "YI SYLLABLE HUO", aliases: &[] },
        Codepoint { codepoint: 0xA278, name: "YI SYLLABLE HUOP", aliases: &[] },
        Codepoint { codepoint: 0xA279, name: "YI SYLLABLE HOT", aliases: &[] },
        Codepoint { codepoint: 0xA27A, name: "YI SYLLABLE HOX", aliases: &[] },
        Codepoint { codepoint: 0xA27B, name: "YI SYLLABLE HO", aliases: &[] },
        Codepoint { codepoint: 0xA27C, name: "YI SYLLABLE HOP", aliases: &[] },
        Codepoint { codepoint: 0xA27D, name: "YI SYLLABLE HEX", aliases: &[] },
        Codepoint { codepoint: 0xA27E, name: "YI SYLLABLE HE", aliases: &[] },
        Codepoint { codepoint: 0xA27F, name: "YI SYLLABLE HEP", aliases: &[] },
        Codepoint { codepoint: 0xA280, name: "YI SYLLABLE WAT", aliases: &[] },
        Codepoint { codepoint: 0xA281, name: "YI SYLLABLE WAX", aliases: &[] },
        Codepoint { codepoint: 0xA282, name: "YI SYLLABLE WA", aliases: &[] },
        Codepoint { codepoint: 0xA283, name: "YI SYLLABLE WAP", aliases: &[] },
        Codepoint { codepoint: 0xA284, name: "YI SYLLABLE WUOX", aliases: &[] },
        Codepoint { codepoint: 0xA285, name: "YI SYLLABLE WUO", aliases: &[] },
        Codepoint { codepoint: 0xA286, name: "YI SYLLABLE WUOP", aliases: &[] },
        Codepoint { codepoint: 0xA287, name: "YI SYLLABLE WOX", aliases: &[] },
        Codepoint { codepoint: 0xA288, name: "YI SYLLABLE WO", aliases: &[] },
        Codepoint { codepoint: 0xA289, name: "YI SYLLABLE WOP", aliases: &[] },
        Codepoint { codepoint: 0xA28A, name: "YI SYLLABLE WEX", aliases: &[] },
        Codepoint { codepoint: 0xA28B, name: "YI SYLLABLE WE", aliases: &[] },
        Codepoint { codepoint: 0xA28C, name: "YI SYLLABLE WEP", aliases: &[] },
        Codepoint { codepoint: 0xA28D, name: "YI SYLLABLE ZIT", aliases: &[] },
        Codepoint { codepoint: 0xA28E, name: "YI SYLLABLE ZIX", aliases: &[] },
        Codepoint { codepoint: 0xA28F, name: "YI SYLLABLE ZI", aliases: &[] },
        Codepoint { codepoint: 0xA290, name: "YI SYLLABLE ZIP", aliases: &[] },
        Codepoint { codepoint: 0xA291, name: "YI SYLLABLE ZIEX", aliases: &[] },
        Codepoint { codepoint: 0xA292, name: "YI SYLLABLE ZIE", aliases: &[] },
        Codepoint { codepoint: 0xA293, name: "YI SYLLABLE ZIEP", aliases: &[] },
    ]
}

fn all_codepoints_323() -> (v: Vec<Codepoint>)
    ensures
        v@ == codepoint_table_323(),
{
    let v = vec![
        Codepoint { codepoint: 0xA26C, name: "YI SYLLABLE NGE", aliases: &[] },
        Codepoint { codepoint: 0xA26D, name: "YI SYLLABLE NGEP", aliases: &[] },
        Codepoint { codepoint: 0xA26E, name: "YI SYLLABLE HIT", aliases: &[] },
        Codepoint { codepoint: 0xA26F, name: "YI SYLLABLE HIEX", aliases: &[] },
        Codepoint { codepoint: 0xA270, name: "YI SYLLABLE HIE", aliases: &[] },
        Codepoint { codepoint: 0xA271, name: "YI SYLLABLE HAT", aliases: &[] },
        Codepoint { codepoint: 0xA272, name: "YI SYLLABLE HAX", aliases: &[] },
        Codepoint { codepoint: 0xA273, name: "YI SYLLABLE HA", aliases: &[] },
        Codepoint { codepoint: 0xA274, name: "YI SYLLABLE HAP", aliases: &[] },
        Codepoint { codepoint: 0xA275, name: "YI SYLLABLE HUOT", aliases: &[] },
        Codepoint { codepoint: 0xA276, name: "YI SYLLABLE HUOX", aliases: &[] },
        Codepoint { codepoint: 0xA277, name: "YI SYLLABLE HUO", aliases: &[] },
        Codepoint { codepoint: 0xA278, name: "YI SYLLABLE HUOP", aliases: &[] },
        Codepoint { codepoint: 0xA279, name: "YI SYLLABLE HOT", aliases: &[] },
        Codepoint { codepoint: 0xA27A, name: "YI SYLLABLE HOX", aliases: &[] },
        Codepoint { codepoint: 0xA27B, name: "YI SYLLABLE HO", aliases: &[] },
        Codepoint { codepoint: 0xA27C, name: "YI SYLLABLE HOP", aliases: &[] },
        Codepoint { codepoint: 0xA27D, name: "YI SYLLABLE HEX", aliases: &[] },
        Codepoint { codepoint: 0xA27E, name: "YI SYLLABLE HE", aliases: &[] },
        Codepoint { codepoint: 0xA27F, name: "YI SYLLABLE HEP", aliases: &[] },
        Codepoint { codepoint: 0xA280, name: "YI SYLLABLE WAT", aliases: &[] },
        Codepoint { codepoint: 0xA281, name: "YI SYLLABLE WAX", aliases: &[] },
        Codepoint { codepoint: 0xA282, name: "YI SYLLABLE WA", aliases: &[] },
        Codepoint { codepoint: 0xA283, name: "YI SYLLABLE WAP", aliases: &[] },
        Codepoint { codepoint: 0xA284, name: "YI SYLLABLE WUOX", aliases: &[] },
        Codepoint { codepoint: 0xA285, name: "YI SYLLABLE WUO", aliases: &[] },
        Codepoint { codepoint: 0xA286, name: "YI SYLLABLE WUOP", aliases: &[] },
        Codepoint { codepoint: 0xA287, name: "YI SYLLABLE WOX", aliases: &[] },
        Codepoint { codepoint: 0xA288, name: "YI SYLLABLE WO", aliases: &[] },
        Codepoint { codepoint: 0xA289, name: "YI SYLLABLE WOP", aliases: &[] },
        Codepoint { codepoint: 0xA28A, name: "YI SYLLABLE WEX", aliases: &[] },
        Codepoint { codepoint: 0xA28B, name: "YI SYLLABLE WE", aliases: &[] },
        Codepoint { codepoint: 0xA28C, name: "YI SYLLABLE WEP", aliases: &[] },
        Codepoint { codepoint: 0xA28D, name: "YI SYLLABLE ZIT", aliases: &[] },
        Codepoint { codepoint: 0xA28E, name: "YI SYLLABLE ZIX", aliases: &[] },
        Codepoint { codepoint: 0xA28F, name: "YI SYLLABLE ZI", aliases: &[] },
        Codepoint { codepoint: 0xA290, name: "YI SYLLABLE ZIP", aliases: &[] },
        Codepoint { codepoint: 0xA291, name: "YI SYLLABLE ZIEX", aliases: &[] },
        Codepoint { codepoint: 0xA292, name: "YI SYLLABLE ZIE", aliases: &[] },
        Codepoint { codepoint: 0xA293, name: "YI SYLLABLE ZIEP", aliases: &[] },
    ];
    assert(v@ =~= codepoint_table_323());
    v
}

pub open spec fn codepoint_table_324() -> Seq<Codepoint> {
    seq![
        Codepoint { codepoint: 0xA294, name: "YI SYLLABLE ZAT", aliases: &[] },
        Codepoint { codepoint: 0xA295, name: "YI SYLLABLE ZAX", aliases: &[] },
        Codepoint { codepoint: 0xA296, name: "YI SYLLABLE ZA", aliases: &[] },
        Codepoint { codepoint: 0xA297, name: "YI SYLLABLE ZAP", aliases: &[] },
        Codepoint { codepoint: 0xA298, name: "YI SYLLABLE ZUOX", aliases: &[] },
        Codepoint { codepoint: 0xA299, name: "YI SYLLABLE ZUO", aliases: &[] },
        Codepoint { codepoint: 0xA29A, name: "YI SYLLABLE ZUOP", aliases: &[] },
        Codepoint { codepoint: 0xA29B, name: "YI SYLLABLE ZOT", aliases: &[] },
        Codepoint { codepoint: 0xA29C, name: "YI SYLLABLE ZOX", aliases: &[] },
        Codepoint { codepoint: 0xA29D, name: "YI SYLLABLE ZO", aliases: &[] },
        Codepoint { codepoint: 0xA29E, name: "YI SYLLABLE ZOP", aliases: &[] },
        Codepoint { codepoint: 0xA29F, name: "YI SYLLABLE ZEX", aliases: &[] },
        Codepoint { codepoint: 0xA2A0, name: "YI SYLLABLE ZE", aliases: &[] },
        Codepoint { codepoint: 0xA2A1, name: "YI SYLLABLE ZEP", aliases: &[] },
        Codepoint { codepoint: 0xA2A2, name: "YI SYLLABLE ZUT", aliases: &[] },
        Codepoint { codepoint: 0xA2A3, name: "YI SYLLABLE ZUX", aliases: &[] },
        Codepoint { codepoint: 0xA2A4, name: "YI SYLLABLE ZU", aliases: &[] },
        Codepoint { codepoint: 0xA2A5, name: "YI SYLLABLE ZUP", aliases: &[] },
        Codepoint { codepoint: 0xA2A6, name: "YI SYLLABLE ZURX", aliases: &[] },
        Codepoint { codepoint: 0xA2A7, name: "YI SYLLABLE ZUR", aliases: &[] },
        Codepoint { codepoint: 0xA2A8, name: "YI SYLLABLE ZYT", aliases: &[] },
        Codepoint { codepoint: 0xA2A9, name: "YI SYLLABLE ZYX", aliases: &[] },
        Codepoint { codepoint: 0xA2AA, name: "YI SYLLABLE ZY", aliases: &[] },
        Codepoint { codepoint: 0xA2AB, name: "YI SYLLABLE ZYP", aliases: &[] },
        Codepoint { codepoint: 0xA2AC, name: "YI SYLLABLE ZYRX", aliases: &[] },
        Codepoint { codepoint: 0xA2AD, name: "YI SYLLABLE ZYR", aliases: &[] },
        Codepoint { codepoint: 0xA2AE, name: "YI SYLLABLE CIT", aliases: &[] },
        Codepoint { codepoint: 0xA2AF, name: "YI SYLLABLE CIX", aliases: &[] },
        Codepoint { codepoint: 0xA2B0, name: "YI SYLLABLE CI", aliases: &[] },
        Codepoint { codepoint: 0xA2B1, name: "YI SYLLABLE CIP", aliases: &[] },
        Codepoint { codepoint: 0xA2B2, name: "YI SYLLABLE CIET", aliases: &[] },
        Codepoint { codepoint: 0xA2B3, name: "YI SYLLABLE CIEX", aliases: &[] },
        Codepoint { codepoint: 0xA2B4, name: "YI SYLLABLE CIE", aliases: &[] },
        Codepoint { codepoint: 0xA2B5, name: "YI SYLLABLE CIEP", aliases: &[] },
        Codepoint { codepoint: 0xA2B6, name: "YI SYLLABLE CAT", aliases: &[] },
        Codepoint { codepoint: 0xA2B7, name: "YI SYLLABLE CAX", aliases: &[] },
        Codepoint { codepoint: 0xA2B8, name: "YI SYLLABLE CA", aliases: &[] },
        Codepoint { codepoint: 0xA2B9, name: "YI SYLLABLE CAP", aliases: &[] },
        Codepoint { codepoint: 0xA2BA, name: "YI SYLLABLE CUOX", aliases: &[] },
        Codepoint { codepoint: 0xA2BB, name: "YI SYLLABLE CUO", aliases: &[] },
    ]
}

fn all_codepoints_324() -> (v: Vec<Codepoint>)
    ensures
        v@ == codepoint_table_324(),
{
    let v = vec![
        Codepoint { codepoint: 0xA294, name: "YI SYLLABLE ZAT", aliases: &[] },
        Codepoint { codepoint: 0xA295, name: "YI SYLLABLE ZAX", aliases: &[] },
        Codepoint { codepoint: 0xA296, name: "YI SYLLABLE ZA", aliases: &[] },
        Codepoint { codepoint: 0xA297, name: "YI SYLLABLE ZAP", aliases: &[] },
        Codepoint { codepoint: 0xA298, name: "YI SYLLABLE ZUOX", aliases: &[] },
        Codepoint { codepoint: 0xA299, name: "YI SYLLABLE ZUO", aliases: &[] },
        Codepoint { codepoint: 0xA29A, name: "YI SYLLABLE ZUOP", aliases: &[] },
        Codepoint { codepoint: 0xA29B, name: "YI SYLLABLE ZOT", aliases: &[] },
        Codepoint { codepoint: 0xA29C, name: "YI SYLLABLE ZOX", aliases: &[] },
        Codepoint { codepoint: 0xA29D, name: "YI SYLLABLE ZO", aliases: &[] },
        Codepoint { codepoint: 0xA29E, name: "YI SYLLABLE ZOP", aliases: &[] },
        Codepoint { codepoint: 0xA29F, name: "YI SYLLABLE ZEX", aliases: &[] },
        Codepoint { codepoint: 0xA2A0, name: "YI SYLLABLE ZE", aliases: &[] },
        Codepoint { codepoint: 0xA2A1, name: "YI SYLLABLE ZEP", aliases: &[] },
        Codepoint { codepoint: 0xA2A2, name: "YI SYLLABLE ZUT", aliases: &[] },
        Codepoint { codepoint: 0xA2A3, name: "YI SYLLABLE ZUX", aliases: &[] },
        Codepoint { codepoint: 0xA2A4, name: "YI SYLLABLE ZU", aliases: &[] },
        Codepoint { codepoint: 0xA2A5, name: "YI SYLLABLE ZUP", aliases: &[] },
        Codepoint { codepoint: 0xA2A6, name: "YI SYLLABLE ZURX", aliases: &[] },
        Codepoint { codepoint: 0xA2A7, name: "YI SYLLABLE ZUR", aliases: &[] },
        Codepoint { codepoint: 0xA2A8, name: "YI SYLLABLE ZYT", aliases: &[] },
        Codepoint { codepoint: 0xA2A9, name: "YI SYLLABLE ZYX", aliases: &[] },
        Codepoint { codepoint: 0xA2AA, name: "YI SYLLABLE ZY", aliases: &[] },
        Codepoint { codepoint: 0xA2AB, name: "YI SYLLABLE ZYP", aliases: &[] },
        Codepoint { codepoint: 0xA2AC, name: "YI SYLLABLE ZYRX", aliases: &[] },
        Codepoint { codepoint: 0xA2AD, name: "YI SYLLABLE ZYR", aliases: &[] },
        Codepoint { codepoint: 0xA2AE, name: "YI SYLLABLE CIT", aliases: &[] },
        Codepoint { codepoint: 0xA2AF, name: "YI SYLLABLE CIX", aliases: &[] },
        Codepoint { codepoint: 0xA2B0, name: "YI SYLLABLE CI", aliases: &[] },
        Codepoint { codepoint: 0xA2B1, name: "YI SYLLABLE CIP", aliases: &[] },
        Codepoint { codepoint: 0xA2B2, name: "YI SYLLABLE CIET", aliases: &[] },
        Codepoint { codepoint: 0xA2B3, name: "YI SYLLABLE CIEX", aliases: &[] },
        Codepoint { codepoint: 0xA2B4, name: "YI SYLLABLE CIE", aliases: &[] },
        Codepoint { codepoint: 0xA2B5, name: "YI SYLLABLE CIEP", aliases: &[] },
        Codepoint { codepoint: 0xA2B6, name: "YI SYLLABLE CAT", aliases: &[] },
        Codepoint { codepoint: 0xA2B7, name: "YI SYLLABLE CAX", aliases: &[] },
        Codepoint { codepoint: 0xA2B8, name: "YI SYLLABLE CA", aliases: &[] },
        Codepoint { codepoint: 0xA2B9, name: "YI SYLLABLE CAP", aliases: &[] },
        Codepoint { codepoint: 0xA2BA, name: "YI SYLLABLE CUOX", aliases: &[] },
        Codepoint { codepoint: 0xA2BB, name: "YI SYLLABLE CUO", aliases: &[] },
    ];
    assert(v@ =~= codepoint_table_324());
    v
}

pub open spec fn codepoint_table_325() -> Seq<Codepoint> {
    seq![
        Codepoint { codepoint: 0xA2BC, name: "YI SYLLABLE CUOP", aliases: &[] },
        Codepoint { codepoint: 0xA2BD, name: "YI SYLLABLE COT", aliases: &[] },
        Codepoint { codepoint: 0xA2BE, name: "YI SYLLABLE COX", aliases: &[] },
        Codepoint { codepoint: 0xA2BF, name: "YI SYLLABLE CO", aliases: &[] },
        Codepoint { codepoint: 0xA2C0, name: "YI SYLLABLE COP", aliases: &[] },
        Codepoint { codepoint: 0xA2C1, name: "YI SYLLABLE CEX", aliases: &[] },
        Codepoint { codepoint: 0xA2C2, name: "YI SYLLABLE CE", aliases: &[] },
        Codepoint { codepoint: 0xA2C3, name: "YI SYLLABLE CEP", aliases: &[] },
        Codepoint { codepoint: 0xA2C4, name: "YI SYLLABLE CUT", aliases: &[] },
        Codepoint { codepoint: 0xA2C5, name: "YI SYLLABLE CUX", aliases: &[] },
        Codepoint { codepoint: 0xA2C6, name: "YI SYLLABLE CU", aliases: &[] },
        Codepoint { codepoint: 0xA2C7, name: "YI SYLLABLE CUP", aliases: &[] },
        Codepoint { codepoint: 0xA2C8, name: "YI SYLLABLE CURX", aliases: &[] },
        Codepoint { codepoint: 0xA2C9, name: "YI SYLLABLE CUR", aliases: &[] },
        Codepoint { codepoint: 0xA2CA, name: "YI SYLLABLE CYT", aliases: &[] },
        Codepoint { codepoint: 0xA2CB, name: "YI SYLLABLE CYX", aliases: &[] },
        Codepoint { codepoint: 0xA2CC, name: "YI SYLLABLE CY", aliases: &[] },
        Codepoint { codepoint: 0xA2CD, name: "YI SYLLABLE CYP", aliases: &[] },
        Codepoint { codepoint: 0xA2CE, name: "YI SYLLABLE CYRX", aliases: &[] },
        Codepoint { codepoint: 0xA2CF, name: "YI SYLLABLE CYR", aliases: &[] },
        Codepoint { codepoint: 0xA2D0, name: "YI SYLLABLE ZZIT", aliases: &[] },
        Codepoint { codepoint: 0xA2D1, name: "YI SYLLABLE ZZIX", aliases: &[] },
        Codepoint { codepoint: 0xA2D2, name: "YI SYLLABLE ZZI", aliases: &[] },
        Codepoint { codepoint: 0xA2D3, name: "YI SYLLABLE ZZIP", aliases: &[] },
        Codepoint { codepoint: 0xA2D4, name: "YI SYLLABLE ZZIET", aliases: &[] },
        Codepoint { codepoint: 0xA2D5, name: "YI SYLLABLE ZZIEX", aliases: &[] },
        Codepoint { codepoint: 0xA2D6, name: "YI SYLLABLE ZZIE", aliases: &[] },
        Codepoint { codepoint: 0xA2D7, name: "YI SYLLABLE ZZIEP", aliases: &[] },
        Codepoint { codepoint: 0xA2D8, name: "YI SYLLABLE ZZAT", aliases: &[] },
        Codepoint { codepoint: 0xA2D9, name: "YI SYLLABLE ZZAX", aliases: &[] },
        Codepoint { codepoint: 0xA2DA, name: "YI SYLLABLE ZZA", aliases: &[] },
        Codepoint { codepoint: 0xA2DB, name: "YI SYLLABLE ZZAP", aliases: &[] },
        Codepoint { codepoint: 0xA2DC, name: "YI SYLLABLE ZZOX", aliases: &[] },
        Codepoint { codepoint: 0xA2DD, name: "YI SYLLABLE ZZO", aliases: &[] },
        Codepoint { codepoint: 0xA2DE, name: "YI SYLLABLE ZZOP", aliases: &[] },
        Codepoint { codepoint: 0xA2DF, name: "YI SYLLABLE ZZEX", aliases: &[] },
        Codepoint { codepoint: 0xA2E0, name: "YI SYLLABLE ZZE", aliases: &[] },
        Codepoint { codepoint: 0xA2E1, name: "YI SYLLABLE ZZEP", aliases: &[] },
        Codepoint { codepoint: 0xA2E2, name: "YI SYLLABLE ZZUX", aliases: &[] },
        Codepoint { codepoint: 0xA2E3, name: "YI SYLLABLE ZZU", aliases: &[] },
    ]
}

fn all_codepoints_325() -> (v: Vec<Codepoint>)
    ensures
        v@ == codepoint_table_325(),
{
    let v = vec![
        Codepoint { codepoint: 0xA2BC, name: "YI SYLLABLE CUOP", aliases: &[] },
        Codepoint { codepoint: 0xA2BD, name: "YI SYLLABLE COT", aliases: &[] },
        Codepoint { codepoint: 0xA2BE, name: "YI SYLLABLE COX", aliases: &[] },
        Codepoint { codepoint: 0xA2BF, name: "YI SYLLABLE CO", aliases: &[] },
        Codepoint { codepoint: 0xA2C0, name: "YI SYLLABLE COP", aliases: &[] },
        Codepoint { codepoint: 0xA2C1, name: "YI SYLLABLE CEX", aliases: &[] },
        Codepoint { codepoint: 0xA2C2, name: "YI SYLLABLE CE", aliases: &[] },
        Codepoint { codepoint: 0xA2C3, name: "YI SYLLABLE CEP", aliases: &[] },
        Codepoint { codepoint: 0xA2C4, name: "YI SYLLABLE CUT", aliases: &[] },
        Codepoint { codepoint: 0xA2C5, name: "YI SYLLABLE CUX", aliases: &[] },
        Codepoint { codepoint: 0xA2C6, name: "YI SYLLABLE CU", aliases: &[] },
        Codepoint { codepoint: 0xA2C7, name: "YI SYLLABLE CUP", aliases: &[] },
        Codepoint { codepoint: 0xA2C8, name: "YI SYLLABLE CURX", aliases: &[] },
        Codepoint { codepoint: 0xA2C9, name: "YI SYLLABLE CUR", aliases: &[] },
        Codepoint { codepoint: 0xA2CA, name: "YI SYLLABLE CYT", aliases: &[] },
        Codepoint { codepoint: 0xA2CB, name: "YI SYLLABLE CYX", aliases: &[] },
        Codepoint { codepoint: 0xA2CC, name: "YI SYLLABLE CY", aliases: &[] },
        Codepoint { codepoint: 0xA2CD, name: "YI SYLLABLE CYP", aliases: &[] },
        Codepoint { codepoint: 0xA2CE, name: "YI SYLLABLE CYRX", aliases: &[] },
        Codepoint { codepoint: 0xA2CF, name: "YI SYLLABLE CYR", aliases: &[] },
        Codepoint { codepoint: 0xA2D0, name: "YI SYLLABLE ZZIT", aliases: &[] },
        Codepoint { codepoint: 0xA2D1, name: "YI SYLLABLE ZZIX", aliases: &[] },
        Codepoint { codepoint: 0xA2D2, name: "YI SYLLABLE ZZI", aliases: &[] },
        Codepoint { codepoint: 0xA2D3, name: "YI SYLLABLE ZZIP", aliases: &[] },
        Codepoint { codepoint: 0xA2D4, name: "YI SYLLABLE ZZIET", aliases: &[] },
        Codepoint { codepoint: 0xA2D5, name: "YI SYLLABLE ZZIEX", aliases: &[] },
        Codepoint { codepoint: 0xA2D6, name: "YI SYLLABLE ZZIE", aliases: &[] },
        Codepoint { codepoint: 0xA2D7, name: "YI SYLLABLE ZZIEP", aliases: &[] },
        Codepoint { codepoint: 0xA2D8, name: "YI SYLLABLE ZZAT", aliases: &[] },
        Codepoint { codepoint: 0xA2D9, name: "YI SYLLABLE ZZAX", aliases: &[] },
        Codepoint { codepoint: 0xA2DA, name: "YI SYLLABLE ZZA", aliases: &[] },
        Codepoint { codepoint: 0xA2DB, name: "YI SYLLABLE ZZAP", aliases: &[] },
        Codepoint { codepoint: 0xA2DC, name: "YI SYLLABLE ZZOX", aliases: &[] },
        Codepoint { codepoint: 0xA2DD, name: "YI SYLLABLE ZZO", aliases: &[] },
        Codepoint { codepoint: 0xA2DE, name: "YI SYLLABLE ZZOP", aliases: &[] },
        Codepoint { codepoint: 0xA2DF, name: "YI SYLLABLE ZZEX", aliases: &[] },
        Codepoint { codepoint: 0xA2E0, name: "YI SYLLABLE ZZE", aliases: &[] },
        Codepoint { codepoint: 0xA2E1, name: "YI SYLLABLE ZZEP", aliases: &[] },
        Codepoint { codepoint: 0xA2E2, name: "YI SYLLABLE ZZUX", aliases: &[] },
        Codepoint { codepoint: 0xA2E3, name: "YI SYLLABLE ZZU", aliases: &[] },
    ];
    assert(v@ =~= codepoint_table_325());
    v
}

pub open spec fn codepoint_table_326() -> Seq<Codepoint> {
    seq![
        Codepoint { codepoint: 0xA2E4, name: "YI SYLLABLE ZZUP", aliases: &[] },
        Codepoint { codepoint: 0xA2E5, name: "YI SYLLABLE ZZURX", aliases: &[] },
        Codepoint { codepoint: 0xA2E6, name: "YI SYLLABLE ZZUR", aliases: &[] },
        Codepoint { codepoint: 0xA2E7, name: "YI SYLLABLE ZZYT", aliases: &[] },
        Codepoint { codepoint: 0xA2E8, name: "YI SYLLABLE ZZYX", aliases: &[] },
        Codepoint { codepoint: 0xA2E9, name: "YI SYLLABLE ZZY", aliases: &[] },
        Codepoint { codepoint: 0xA2EA, name: "YI SYLLABLE ZZYP", aliases: &[] },
        Codepoint { codepoint: 0xA2EB, name: "YI SYLLABLE ZZYRX", aliases: &[] },
        Codepoint { codepoint: 0xA2EC, name: "YI SYLLABLE ZZYR", aliases: &[] },
        Codepoint { codepoint: 0xA2ED, name: "YI SYLLABLE NZIT", aliases: &[] },
        Codepoint { codepoint: 0xA2EE, name: "YI SYLLABLE NZIX", aliases: &[] },
        Codepoint { codepoint: 0xA2EF, name: "YI SYLLABLE NZI", aliases: &[] },
        Codepoint { codepoint: 0xA2F0, name: "YI SYLLABLE NZIP", aliases: &[] },
        Codepoint { codepoint: 0xA2F1, name: "YI SYLLABLE NZIEX", aliases: &[] },
        Codepoint { codepoint: 0xA2F2, name: "YI SYLLABLE NZIE", aliases: &[] },
        Codepoint { codepoint: 0xA2F3, name: "YI SYLLABLE NZIEP", aliases: &[] },
        Codepoint { codepoint: 0xA2F4, name: "YI SYLLABLE NZAT", aliases: &[] },
        Codepoint { codepoint: 0xA2F5, name: "YI SYLLABLE NZAX", aliases: &[] },
        Codepoint { codepoint: 0xA2F6, name: "YI SYLLABLE NZA", aliases: &[] },
        Codepoint { codepoint: 0xA2F7, name: "YI SYLLABLE NZAP", aliases: &[] },
        Codepoint { codepoint: 0xA2F8, name: "YI SYLLABLE NZUOX", aliases: &[] },
        Codepoint { codepoint: 0xA2F9, name: "YI SYLLABLE NZUO", aliases: &[] },
        Codepoint { codepoint: 0xA2FA, name: "YI SYLLABLE NZOX", aliases: &[] },
        Codepoint { codepoint: 0xA2FB, name: "YI SYLLABLE NZOP", aliases: &[] },
        Codepoint { codepoint: 0xA2FC, name: "YI SYLLABLE NZEX", aliases: &[] },
        Codepoint { codepoint: 0xA2FD, name: "YI SYLLABLE NZE", aliases: &[] },
        Codepoint { codepoint: 0xA2FE, name: "YI SYLLABLE NZUX", aliases: &[] },
        Codepoint { codepoint: 0xA2FF, name: "YI SYLLABLE NZU", aliases: &[] },
        Codepoint { codepoint: 0xA300, name: "YI SYLLABLE NZUP", aliases: &[] },
        Codepoint { codepoint: 0xA301, name: "YI SYLLABLE NZURX", aliases: &[] },
        Codepoint { codepoint: 0xA302, name: "YI SYLLABLE NZUR", aliases: &[] },
        Codepoint { codepoint: 0xA303, name: "YI SYLLABLE NZYT", aliases: &[] },
        Codepoint { codepoint: 0xA304, name: "YI SYLLABLE NZYX", aliases: &[] },
        Codepoint { codepoint: 0xA305, name: "YI SYLLABLE NZY", aliases: &[] },
        Codepoint { codepoint: 0xA306, name: "YI SYLLABLE NZYP", aliases: &[] },
        Codepoint { codepoint: 0xA307, name: "YI SYLLABLE NZYRX", aliases: &[] },
        Codepoint { codepoint: 0xA308, name: "YI SYLLABLE NZYR", aliases: &[] },
        Codepoint { codepoint: 0xA309, name: "YI SYLLABLE SIT", aliases: &[] },
        Codepoint { codepoint: 0xA30A, name: "YI SYLLABLE SIX", aliases: &[] },
        Codepoint { codepoint: 0xA30B, name: "YI SYLLABLE SI", aliases: &[] },
    ]
}

fn all_codepoints_326() -> (v: Vec<Codepoint>)
    ensures
        v@ == codepoint_table_326(),
{
    let v = vec![
        Codepoint { codepoint: 0xA2E4, name: "YI SYLLABLE ZZUP", aliases: &[] },
        Codepoint { codepoint: 0xA2E5, name: "YI SYLLABLE ZZURX", aliases: &[] },
        Codepoint { codepoint: 0xA2E6, name: "YI SYLLABLE ZZUR", aliases: &[] },
        Codepoint { codepoint: 0xA2E7, name: "YI SYLLABLE ZZYT", aliases: &[] },
        Codepoint { codepoint: 0xA2E8, name: "YI SYLLABLE ZZYX", aliases: &[] },
        Codepoint { codepoint: 0xA2E9, name: "YI SYLLABLE ZZY", aliases: &[] },
        Codepoint { codepoint: 0xA2EA, name: "YI SYLLABLE ZZYP", aliases: &[] },
        Codepoint { codepoint: 0xA2EB, name: "YI SYLLABLE ZZYRX", aliases: &[] },
        Codepoint { codepoint: 0xA2EC, name: "YI SYLLABLE ZZYR", aliases: &[] },
        Codepoint { codepoint: 0xA2ED, name: "YI SYLLABLE NZIT", aliases: &[] },
        Codepoint { codepoint: 0xA2EE, name: "YI SYLLABLE NZIX", aliases: &[] },
        Codepoint { codepoint: 0xA2EF, name: "YI SYLLABLE NZI", aliases: &[] },
        Codepoint { codepoint: 0xA2F0, name: "YI SYLLABLE NZIP", aliases: &[] },
        Codepoint { codepoint: 0xA2F1, name: "YI SYLLABLE NZIEX", aliases: &[] },
        Codepoint { codepoint: 0xA2F2, name: "YI SYLLABLE NZIE", aliases: &[] },
        Codepoint { codepoint: 0xA2F3, name: "YI SYLLABLE NZIEP", aliases: &[] },
        Codepoint { codepoint: 0xA2F4, name: "YI SYLLABLE NZAT", aliases: &[] },
        Codepoint { codepoint: 0xA2F5, name: "YI SYLLABLE NZAX", aliases: &[] },
        Codepoint { codepoint: 0xA2F6, name: "YI SYLLABLE NZA", aliases: &[] },
        Codepoint { codepoint: 0xA2F7, name: "YI SYLLABLE NZAP", aliases: &[] },
        Codepoint { codepoint: 0xA2F8, name: "YI SYLLABLE NZUOX", aliases: &[] },
        Codepoint { codepoint: 0xA2F9, name: "YI SYLLABLE NZUO", aliases: &[] },
        Codepoint { codepoint: 0xA2FA, name: "YI SYLLABLE NZOX", aliases: &[] },
        Codepoint { codepoint: 0xA2FB, name: "YI SYLLABLE NZOP", aliases: &[] },
        Codepoint { codepoint: 0xA2FC, name: "YI SYLLABLE NZEX", aliases: &[] },
        Codepoint { codepoint: 0xA2FD, name: "YI SYLLABLE NZE", aliases: &[] },
        Codepoint { codepoint: 0xA2FE, name: "YI SYLLABLE NZUX", aliases: &[] },
        Codepoint { codepoint: 0xA2FF, name: "YI SYLLABLE NZU", aliases: &[] },
        Codepoint { codepoint: 0xA300, name: "YI SYLLABLE NZUP", aliases: &[] },
        Codepoint { codepoint: 0xA301, name: "YI SYLLABLE NZURX", aliases: &[] },
        Codepoint { codepoint: 0xA302, name: "YI SYLLABLE NZUR", aliases: &[] },
        Codepoint { codepoint: 0xA303, name: "YI SYLLABLE NZYT", aliases: &[] },
        Codepoint { codepoint: 0xA304, name: "YI SYLLABLE NZYX", aliases: &[] },
        Codepoint { codepoint: 0xA305, name: "YI SYLLABLE NZY", aliases: &[] },
        Codepoint { codepoint: 0xA306, name: "YI SYLLABLE NZYP", aliases: &[] },
        Codepoint { codepoint: 0xA307, name: "YI SYLLABLE NZYRX", aliases: &[] },
        Codepoint { codepoint: 0xA308, name: "YI SYLLABLE NZYR", aliases: &[] },
        Codepoint { codepoint: 0xA309, name: "YI SYLLABLE SIT", aliases: &[] },
        Codepoint { codepoint: 0xA30A, name: "YI SYLLABLE SIX", aliases: &[] },
        Codepoint { codepoint: 0xA30B, name: "YI SYLLABLE SI", aliases: &[] },
    ];
    assert(v@ =~= codepoint_table_326());
    v
}

pub open spec fn codepoint_table_327() -> Seq<Codepoint> {
    seq![
        Codepoint { codepoint: 0xA30C, name: "YI SYLLABLE SIP", aliases: &[] },
        Codepoint { codepoint: 0xA30D, name: "YI SYLLABLE SIEX", aliases: &[] },
        Codepoint { codepoint: 0xA30E, name: "YI SYLLABLE SIE", aliases: &[] },
        Codepoint { codepoint: 0xA30F, name: "YI SYLLABLE SIEP", aliases: &[] },
        Codepoint { codepoint: 0xA310, name: "YI SYLLABLE SAT", aliases: &[] },
        Codepoint { codepoint: 0xA311, name: "YI SYLLABLE SAX", aliases: &[] },
        Codepoint { codepoint: 0xA312, name: "YI SYLLABLE SA", aliases: &[] },
        Codepoint { codepoint: 0xA313, name: "YI SYLLABLE SAP", aliases: &[] },
        Codepoint { codepoint: 0xA314, name: "YI SYLLABLE SUOX", aliases: &[] },
        Codepoint { codepoint: 0xA315, name: "YI SYLLABLE SUO", aliases: &[] },
        Codepoint { codepoint: 0xA316, name: "YI SYLLABLE SUOP", aliases: &[] },
        Codepoint { codepoint: 0xA317, name: "YI SYLLABLE SOT", aliases: &[] },
        Codepoint { codepoint: 0xA318, name: "YI SYLLABLE SOX", aliases: &[] },
        Codepoint { codepoint: 0xA319, name: "YI SYLLABLE SO", aliases: &[] },
        Codepoint { codepoint: 0xA31A, name: "YI SYLLABLE SOP", aliases: &[] },
        Codepoint { codepoint: 0xA31B, name: "YI SYLLABLE SEX", aliases: &[] },
        Codepoint { codepoint: 0xA31C, name: "YI SYLLABLE SE", aliases: &[] },
        Codepoint { codepoint: 0xA31D, name: "YI SYLLABLE SEP", aliases: &[] },
        Codepoint { codepoint: 0xA31E, name: "YI SYLLABLE SUT", aliases: &[] },
        Codepoint { codepoint: 0xA31F, name: "YI SYLLABLE SUX", aliases: &[] },
        Codepoint { codepoint: 0xA320, name: "YI SYLLABLE SU", aliases: &[] },
        Codepoint { codepoint: 0xA321, name: "YI SYLLABLE SUP", aliases: &[] },
        Codepoint { codepoint: 0xA322, name: "YI SYLLABLE SURX", aliases: &[] },
        Codepoint { codepoint: 0xA323, name: "YI SYLLABLE SUR", aliases: &[] },
        Codepoint { codepoint: 0xA324, name: "YI SYLLABLE SYT", aliases: &[] },
        Codepoint { codepoint: 0xA325, name: "YI SYLLABLE SYX", aliases: &[] },
        Codepoint { codepoint: 0xA326, name: "YI SYLLABLE SY", aliases: &[] },
        Codepoint { codepoint: 0xA327, name: "YI SYLLABLE SYP", aliases: &[] },
        Codepoint { codepoint: 0xA328, name: "YI SYLLABLE SYRX", aliases: &[] },
        Codepoint { codepoint: 0xA329, name: "YI SYLLABLE SYR", aliases: &[] },
        Codepoint { codepoint: 0xA32A, name: "YI SYLLABLE SSIT", aliases: &[] },
        Codepoint { codepoint: 0xA32B, name: "YI SYLLABLE SSIX", aliases: &[] },
        Codepoint { codepoint: 0xA32C, name: "YI SYLLABLE SSI", aliases: &[] },
        Codepoint { codepoint: 0xA32D, name: "YI SYLLABLE SSIP", aliases: &[] },
        Codepoint { codepoint: 0xA32E, name: "YI SYLLABLE SSIEX", aliases: &[] },
        Codepoint { codepoint: 0xA32F, name: "YI SYLLABLE SSIE", aliases: &[] },
        Codepoint { codepoint: 0xA330, name: "YI SYLLABLE SSIEP", aliases: &[] },
        Codepoint { codepoint: 0xA331, name: "YI SYLLABLE SSAT", aliases: &[] },
        Codepoint { codepoint: 0xA332, name: "YI SYLLABLE SSAX", aliases: &[] },
        Codepoint { codepoint: 0xA333, name: "YI SYLLABLE SSA", aliases: &[] },
    ]
}

fn all_codepoints_327() -> (v: Vec<Codepoint>)
    ensures
        v@ == codepoint_table_327(),
{
    let v = vec![
        Codepoint { codepoint: 0xA30C, name: "YI SYLLABLE SIP", aliases: &[] },
        Codepoint { codepoint: 0xA30D, name: "YI SYLLABLE SIEX", aliases: &[] },
        Codepoint { codepoint: 0xA30E, name: "YI SYLLABLE SIE", aliases: &[] },
        Codepoint { codepoint: 0xA30F, name: "YI SYLLABLE SIEP", aliases: &[] },
        Codepoint { codepoint: 0xA310, name: "YI SYLLABLE SAT", aliases: &[] },
        Codepoint { codepoint: 0xA311, name: "YI SYLLABLE SAX", aliases: &[] },
        Codepoint { codepoint: 0xA312, name: "YI SYLLABLE SA", aliases: &[] },
        Codepoint { codepoint: 0xA313, name: "YI SYLLABLE SAP", aliases: &[] },
        Codepoint { codepoint: 0xA314, name: "YI SYLLABLE SUOX", aliases: &[] },
        Codepoint { codepoint: 0xA315, name: "YI SYLLABLE SUO", aliases: &[] },
        Codepoint { codepoint: 0xA316, name: "YI SYLLABLE SUOP", aliases: &[] },
        Codepoint { codepoint: 0xA317, name: "YI SYLLABLE SOT", aliases: &[] },
        Codepoint { codepoint: 0xA318, name: "YI SYLLABLE SOX", aliases: &[] },
        Codepoint { codepoint: 0xA319, name: "YI SYLLABLE SO", aliases: &[] },
        Codepoint { codepoint: 0xA31A, name: "YI SYLLABLE SOP", aliases: &[] },
        Codepoint { codepoint: 0xA31B, name: "YI SYLLABLE SEX", aliases: &[] },
        Codepoint { codepoint: 0xA31C, name: "YI SYLLABLE SE", aliases: &[] },
        Codepoint { codepoint: 0xA31D, name: "YI SYLLABLE SEP", aliases: &[] },
        Codepoint { codepoint: 0xA31E, name: "YI SYLLABLE SUT", aliases: &[] },
        Codepoint { codepoint: 0xA31F, name: "YI SYLLABLE SUX", aliases: &[] },
        Codepoint { codepoint: 0xA320, name: "YI SYLLABLE SU", aliases: &[] },
        Codepoint { codepoint: 0xA321, name: "YI SYLLABLE SUP", aliases: &[] },
        Codepoint { codepoint: 0xA322, name: "YI SYLLABLE SURX", aliases: &[] },
        Codepoint { codepoint: 0xA323, name: "YI SYLLABLE SUR", aliases: &[] },
        Codepoint { codepoint: 0xA324, name: "YI SYLLABLE SYT", aliases: &[] },
        Codepoint { codepoint: 0xA325, name: "YI SYLLABLE SYX", aliases: &[] },
        Codepoint { codepoint: 0xA326, name: "YI SYLLABLE SY", aliases: &[] },
        Codepoint { codepoint: 0xA327, name: "YI SYLLABLE SYP", aliases: &[] },
        Codepoint { codepoint: 0xA328, name: "YI SYLLABLE SYRX", aliases: &[] },
        Codepoint { codepoint: 0xA329, name: "YI SYLLABLE SYR", aliases: &[] },
        Codepoint { codepoint: 0xA32A, name: "YI SYLLABLE SSIT", aliases: &[] },
        Codepoint { codepoint: 0xA32B, name: "YI SYLLABLE SSIX", aliases: &[] },
        Codepoint { codepoint: 0xA32C, name: "YI SYLLABLE SSI", aliases: &[] },
        Codepoint { codepoint: 0xA32D, name: "YI SYLLABLE SSIP", aliases: &[] },
        Codepoint { codepoint: 0xA32E, name: "YI SYLLABLE SSIEX", aliases: &[] },
        Codepoint { codepoint: 0xA32F, name: "YI SYLLABLE SSIE", aliases: &[] },
        Codepoint { codepoint: 0xA330, name: "YI SYLLABLE SSIEP", aliases: &[] },
        Codepoint { codepoint: 0xA331, name: "YI SYLLABLE SSAT", aliases: &[] },
        Codepoint { codepoint: 0xA332, name: "YI SYLLABLE SSAX", aliases: &[] },
        Codepoint { codepoint: 0xA333, name: "YI SYLLABLE SSA", aliases: &[] },
    ];
    assert(v@ =~= codepoint_table_327());
    v
}

pub open spec fn codepoint_table_328() -> Seq<Codepoint> {
    seq![
        Codepoint { codepoint: 0xA334, name: "YI SYLLABLE SSAP", aliases: &[] },
        Codepoint { codepoint: 0xA335, name: "YI SYLLABLE SSOT", aliases: &[] },
        Codepoint { codepoint: 0xA336, name: "YI SYLLABLE SSOX", aliases: &[] },
        Codepoint { codepoint: 0xA337, name: "YI SYLLABLE SSO", aliases: &[] },
        Codepoint { codepoint: 0xA338, name: "YI SYLLABLE SSOP", aliases: &[] },
        Codepoint { codepoint: 0xA339, name: "YI SYLLABLE SSEX", aliases: &[] },
        Codepoint { codepoint: 0xA33A, name: "YI SYLLABLE SSE", aliases: &[] },
        Codepoint { codepoint: 0xA33B, name: "YI SYLLABLE SSEP", aliases: &[] },
        Codepoint { codepoint: 0xA33C, name: "YI SYLLABLE SSUT", aliases: &[] },
        Codepoint { codepoint: 0xA33D, name: "YI SYLLABLE SSUX", aliases: &[] },
        Codepoint { codepoint: 0xA33E, name: "YI SYLLABLE SSU", aliases: &[] },
        Codepoint { codepoint: 0xA33F, name: "YI SYLLABLE SSUP", aliases: &[] },
        Codepoint { codepoint: 0xA340, name: "YI SYLLABLE SSYT", aliases: &[] },
        Codepoint { codepoint: 0xA341, name: "YI SYLLABLE SSYX", aliases: &[] },
        Codepoint { codepoint: 0xA342, name: "YI SYLLABLE SSY", aliases: &[] },
        Codepoint { codepoint: 0xA343, name: "YI SYLLABLE SSYP", aliases: &[] },
        Codepoint { codepoint: 0xA344, name: "YI SYLLABLE SSYRX", aliases: &[] },
        Codepoint { codepoint: 0xA345, name: "YI SYLLABLE SSYR", aliases: &[] },
        Codepoint { codepoint: 0xA346, name: "YI SYLLABLE ZHAT", aliases: &[] },
        Codepoint { codepoint: 0xA347, name: "YI SYLLABLE ZHAX", aliases: &[] },
        Codepoint { codepoint: 0xA348, name: "YI SYLLABLE ZHA", aliases: &[] },
        Codepoint { codepoint: 0xA349, name: "YI SYLLABLE ZHAP", aliases: &[] },
        Codepoint { codepoint: 0xA34A, name: "YI SYLLABLE ZHUOX", aliases: &[] },
        Codepoint { codepoint: 0xA34B, name: "YI SYLLABLE ZHUO", aliases: &[] },
        Codepoint { codepoint: 0xA34C, name: "YI SYLLABLE ZHUOP", aliases: &[] },
        Codepoint { codepoint: 0xA34D, name: "YI SYLLABLE ZHOT", aliases: &[] },
        Codepoint { codepoint: 0xA34E, name: "YI SYLLABLE ZHOX", aliases: &[] },
        Codepoint { codepoint: 0xA34F, name: "YI SYLLABLE ZHO", aliases: &[] },
        Codepoint { codepoint: 0xA350, name: "YI SYLLABLE ZHOP", aliases: &[] },
        Codepoint { codepoint: 0xA351, name: "YI SYLLABLE ZHET", aliases: &[] },
        Codepoint { codepoint: 0xA352, name: "YI SYLLABLE ZHEX", aliases: &[] },
        Codepoint { codepoint: 0xA353, name: "YI SYLLABLE ZHE", aliases: &[] },
        Codepoint { codepoint: 0xA354, name: "YI SYLLABLE ZHEP", aliases: &[] },
        Codepoint { codepoint: 0xA355, name: "YI SYLLABLE ZHUT", aliases: &[] },
        Codepoint { codepoint: 0xA356, name: "YI SYLLABLE ZHUX", aliases: &[] },
        Codepoint { codepoint: 0xA357, name: "YI SYLLABLE ZHU", aliases: &[] },
        Codepoint { codepoint: 0xA358, name: "YI SYLLABLE ZHUP", aliases: &[] },
        Codepoint { codepoint: 0xA359, name: "YI SYLLABLE ZHURX", aliases: &[] },
        Codepoint { codepoint: 0xA35A, name: "YI SYLLABLE ZHUR", aliases: &[] },
        Codepoint { codepoint: 0xA35B, name: "YI SYLLABLE ZHYT", aliases: &[] },
    ]
}

fn all_codepoints_328() -> (v: Vec<Codepoint>)
    ensures
        v@ == codepoint_table_328(),
{
    let v = vec![
        Codepoint { codepoint: 0xA334, name: "YI SYLLABLE SSAP", aliases: &[] },
        Codepoint { codepoint: 0xA335, name: "YI SYLLABLE SSOT", aliases: &[] },
        Codepoint { codepoint: 0xA336, name: "YI SYLLABLE SSOX", aliases: &[] },
        Codepoint { codepoint: 0xA337, name: "YI SYLLABLE SSO", aliases: &[] },
        Codepoint { codepoint: 0xA338, name: "YI SYLLABLE SSOP", aliases: &[] },
        Codepoint { codepoint: 0xA339, name: "YI SYLLABLE SSEX", aliases: &[] },
        Codepoint { codepoint: 0xA33A, name: "YI SYLLABLE SSE", aliases: &[] },
        Codepoint { codepoint: 0xA33B, name: "YI SYLLABLE SSEP", aliases: &[] },
        Codepoint { codepoint: 0xA33C, name: "YI SYLLABLE SSUT", aliases: &[] },
        Codepoint { codepoint: 0xA33D, name: "YI SYLLABLE SSUX", aliases: &[] },
        Codepoint { codepoint: 0xA33E, name: "YI SYLLABLE SSU", aliases: &[] },
        Codepoint { codepoint: 0xA33F, name: "YI SYLLABLE SSUP", aliases: &[] },
        Codepoint { codepoint: 0xA340, name: "YI SYLLABLE SSYT", aliases: &[] },
        Codepoint { codepoint: 0xA341, name: "YI SYLLABLE SSYX", aliases: &[] },
        Codepoint { codepoint: 0xA342, name: "YI SYLLABLE SSY", aliases: &[] },
        Codepoint { codepoint: 0xA343, name: "YI SYLLABLE SSYP", aliases: &[] },
        Codepoint { codepoint: 0xA344, name: "YI SYLLABLE SSYRX", aliases: &[] },
        Codepoint { codepoint: 0xA345, name: "YI SYLLABLE SSYR", aliases: &[] },
        Codepoint { codepoint: 0xA346, name: "YI SYLLABLE ZHAT", aliases: &[] },
        Codepoint { codepoint: 0xA347, name: "YI SYLLABLE ZHAX", aliases: &[] },
        Codepoint { codepoint: 0xA348, name: "YI SYLLABLE ZHA", aliases: &[] },
        Codepoint { codepoint: 0xA349, name: "YI SYLLABLE ZHAP", aliases: &[] },
        Codepoint { codepoint: 0xA34A, name: "YI SYLLABLE ZHUOX", aliases: &[] },
        Codepoint { codepoint: 0xA34B, name: "YI SYLLABLE ZHUO", aliases: &[] },
        Codepoint { codepoint: 0xA34C, name: "YI SYLLABLE ZHUOP", aliases: &[] },
        Codepoint { codepoint: 0xA34D, name: "YI SYLLABLE ZHOT", aliases: &[] },
        Codepoint { codepoint: 0xA34E, name: "YI SYLLABLE ZHOX", aliases: &[] },
        Codepoint { codepoint: 0xA34F, name: "YI SYLLABLE ZHO", aliases: &[] },
        Codepoint { codepoint: 0xA350, name: "YI SYLLABLE ZHOP", aliases: &[] },
        Codepoint { codepoint: 0xA351, name: "YI SYLLABLE ZHET", aliases: &[] },
        Codepoint { codepoint: 0xA352, name: "YI SYLLABLE ZHEX", aliases: &[] },
        Codepoint { codepoint: 0xA353, name: "YI SYLLABLE ZHE", aliases: &[] },
        Codepoint { codepoint: 0xA354, name: "YI SYLLABLE ZHEP", aliases: &[] },
        Codepoint { codepoint: 0xA355, name: "YI SYLLABLE ZHUT", aliases: &[] },
        Codepoint { codepoint: 0xA356, name: "YI SYLLABLE ZHUX", aliases: &[] },
        Codepoint { codepoint: 0xA357, name: "YI SYLLABLE ZHU", aliases: &[] },
        Codepoint { codepoint: 0xA358, name: "YI SYLLABLE ZHUP", aliases: &[] },
        Codepoint { codepoint: 0xA359, name: "YI SYLLABLE ZHURX", aliases: &[] },
        Codepoint { codepoint: 0xA35A, name: "YI SYLLABLE ZHUR", aliases: &[] },
        Codepoint { codepoint: 0xA35B, name: "YI SYLLABLE ZHYT", aliases: &[] },
    ];
    assert(v@ =~= codepoint_table_328());
    v
}

pub open spec fn codepoint_table_329() -> Seq<Codepoint> {
    seq![
        Codepoint { codepoint: 0xA35C, name: "YI SYLLABLE ZHYX", aliases: &[] },
        Codepoint { codepoint: 0xA35D, name: "YI SYLLABLE ZHY", aliases: &[] },
        Codepoint { codepoint: 0xA35E, name: "YI SYLLABLE ZHYP", aliases: &[] },
        Codepoint { codepoint: 0xA35F, name: "YI SYLLABLE ZHYRX", aliases: &[] },
        Codepoint { codepoint: 0xA360, name: "YI SYLLABLE ZHYR", aliases: &[] },
        Codepoint { codepoint: 0xA361, name: "YI SYLLABLE CHAT", aliases: &[] },
        Codepoint { codepoint: 0xA362, name: "YI SYLLABLE CHAX", aliases: &[] },
        Codepoint { codepoint: 0xA363, name: "YI SYLLABLE CHA", aliases: &[] },
        Codepoint { codepoint: 0xA364, name: "YI SYLLABLE CHAP", aliases: &[] },
        Codepoint { codepoint: 0xA365, name: "YI SYLLABLE CHUOT", aliases: &[] },
        Codepoint { codepoint: 0xA366, name: "YI SYLLABLE CHUOX", aliases: &[] },
        Codepoint { codepoint: 0xA367, name: "YI SYLLABLE CHUO", aliases: &[] },
        Codepoint { codepoint: 0xA368, name: "YI SYLLABLE CHUOP", aliases: &[] },
        Codepoint { codepoint: 0xA369, name: "YI SYLLABLE CHOT", aliases: &[] },
        Codepoint { codepoint: 0xA36A, name: "YI SYLLABLE CHOX", aliases: &[] },
        Codepoint { codepoint: 0xA36B, name: "YI SYLLABLE CHO", aliases: &[] },
        Codepoint { codepoint: 0xA36C, name: "YI SYLLABLE CHOP", aliases: &[] },
        Codepoint { codepoint: 0xA36D, name: "YI SYLLABLE CHET", aliases: &[] },
        Codepoint { codepoint: 0xA36E, name: "YI SYLLABLE CHEX", aliases: &[] },
        Codepoint { codepoint: 0xA36F, name: "YI SYLLABLE CHE", aliases: &[] },
        Codepoint { codepoint: 0xA370, name: "YI SYLLABLE CHEP", aliases: &[] },
        Codepoint { codepoint: 0xA371, name: "YI SYLLABLE CHUX", aliases: &[] },
        Codepoint { codepoint: 0xA372, name: "YI SYLLABLE CHU", aliases: &[] },
        Codepoint { codepoint: 0xA373, name: "YI SYLLABLE CHUP", aliases: &[] },
        Codepoint { codepoint: 0xA374, name: "YI SYLLABLE CHURX", aliases: &[] },
        Codepoint { codepoint: 0xA375, name: "YI SYLLABLE CHUR", aliases: &[] },
        Codepoint { codepoint: 0xA376, name: "YI SYLLABLE CHYT", aliases: &[] },
        Codepoint { codepoint: 0xA377, name: "YI SYLLABLE CHYX", aliases: &[] },
        Codepoint { codepoint: 0xA378, name: "YI SYLLABLE CHY", aliases: &[] },
        Codepoint { codepoint: 0xA379, name: "YI SYLLABLE CHYP", aliases: &[] },
        Codepoint { codepoint: 0xA37A, name: "YI SYLLABLE CHYRX", aliases: &[] },
        Codepoint { codepoint: 0xA37B, name: "YI SYLLABLE CHYR", aliases: &[] },
        Codepoint { codepoint: 0xA37C, name: "YI SYLLABLE RRAX", aliases: &[] },
        Codepoint { codepoint: 0xA37D, name: "YI SYLLABLE RRA", aliases: &[] },
        Codepoint { codepoint: 0xA37E, name: "YI SYLLABLE RRUOX", aliases: &[] },
        Codepoint { codepoint: 0xA37F, name: "YI SYLLABLE RRUO", aliases: &[] },
        Codepoint { codepoint: 0xA380, name: "YI SYLLABLE RROT", aliases: &[] },
        Codepoint { codepoint: 0xA381, name: "YI SYLLABLE RROX", aliases: &[] },
        Codepoint { codepoint: 0xA382, name: "YI SYLLABLE RRO", aliases: &[] },
        Codepoint { codepoint: 0xA383, name: "YI SYLLABLE RROP", aliases: &[] },
    ]
}

fn all_codepoints_329() -> (v: Vec<Codepoint>)
    ensures
        v@ == codepoint_table_329(),
{
    let v = vec![
        Codepoint { codepoint: 0xA35C, name: "YI SYLLABLE ZHYX", aliases: &[] },
        Codepoint { codepoint: 0xA35D, name: "YI SYLLABLE ZHY", aliases: &[] },
        Codepoint { codepoint: 0xA35E, name: "YI SYLLABLE ZHYP", aliases: &[] },
        Codepoint { codepoint: 0xA35F, name: "YI SYLLABLE ZHYRX", aliases: &[] },
        Codepoint { codepoint: 0xA360, name: "YI SYLLABLE ZHYR", aliases: &[] },
        Codepoint { codepoint: 0xA361, name: "YI SYLLABLE CHAT", aliases: &[] },
        Codepoint { codepoint: 0xA362, name: "YI SYLLABLE CHAX", aliases: &[] },
        Codepoint { codepoint: 0xA363, name: "YI SYLLABLE CHA", aliases: &[] },
        Codepoint { codepoint: 0xA364, name: "YI SYLLABLE CHAP", aliases: &[] },
        Codepoint { codepoint: 0xA365, name: "YI SYLLABLE CHUOT", aliases: &[] },
        Codepoint { codepoint: 0xA366, name: "YI SYLLABLE CHUOX", aliases: &[] },
        Codepoint { codepoint: 0xA367, name: "YI SYLLABLE CHUO", aliases: &[] },
        Codepoint { codepoint: 0xA368, name: "YI SYLLABLE CHUOP", aliases: &[] },
        Codepoint { codepoint: 0xA369, name: "YI SYLLABLE CHOT", aliases: &[] },
        Codepoint { codepoint: 0xA36A, name: "YI SYLLABLE CHOX", aliases: &[] },
        Codepoint { codepoint: 0xA36B, name: "YI SYLLABLE CHO", aliases: &[] },
        Codepoint { codepoint: 0xA36C, name: "YI SYLLABLE CHOP", aliases: &[] },
        Codepoint { codepoint: 0xA36D, name: "YI SYLLABLE CHET", aliases: &[] },
        Codepoint { codepoint: 0xA36E, name: "YI SYLLABLE CHEX", aliases: &[] },
        Codepoint { codepoint: 0xA36F, name: "YI SYLLABLE CHE", aliases: &[] },
        Codepoint { codepoint: 0xA370, name: "YI SYLLABLE CHEP", aliases: &[] },
        Codepoint { codepoint: 0xA371, name: "YI SYLLABLE CHUX", aliases: &[] },
        Codepoint { codepoint: 0xA372, name: "YI SYLLABLE CHU", aliases: &[] },
        Codepoint { codepoint: 0xA373, name: "YI SYLLABLE CHUP", aliases: &[] },
        Codepoint { codepoint: 0xA374, name: "YI SYLLABLE CHURX", aliases: &[] },
        Codepoint { codepoint: 0xA375, name: "YI SYLLABLE CHUR", aliases: &[] },
        Codepoint { codepoint: 0xA376, name: "YI SYLLABLE CHYT", aliases: &[] },
        Codepoint { codepoint: 0xA377, name: "YI SYLLABLE CHYX", aliases: &[] },
        Codepoint { codepoint: 0xA378, name: "YI SYLLABLE CHY", aliases: &[] },
        Codepoint { codepoint: 0xA379, name: "YI SYLLABLE CHYP", aliases: &[] },
        Codepoint { codepoint: 0xA37A, name: "YI SYLLABLE CHYRX", aliases: &[] },
        Codepoint { codepoint: 0xA37B, name: "YI SYLLABLE CHYR", aliases: &[] },
        Codepoint { codepoint: 0xA37C, name: "YI SYLLABLE RRAX", aliases: &[] },
        Codepoint { codepoint: 0xA37D, name: "YI SYLLABLE RRA", aliases: &[] },
        Codepoint { codepoint: 0xA37E, name: "YI SYLLABLE RRUOX", aliases: &[] },
        Codepoint { codepoint: 0xA37F, name: "YI SYLLABLE RRUO", aliases: &[] },
        Codepoint { codepoint: 0xA380, name: "YI SYLLABLE RROT", aliases: &[] },
        Codepoint { codepoint: 0xA381, name: "YI SYLLABLE RROX", aliases: &[] },
        Codepoint { codepoint: 0xA382, name: "YI SYLLABLE RRO", aliases: &[] },
        Codepoint { codepoint: 0xA383, name: "YI SYLLABLE RROP", aliases: &[] },
    ];
    assert(v@ =~= codepoint_table_329());
    v
}

pub open spec fn codepoint_table_330() -> Seq<Codepoint> {
    seq![
        Codepoint { codepoint: 0xA384, name: "YI SYLLABLE RRET", aliases: &[] },
        Codepoint { codepoint: 0xA385, name: "YI SYLLABLE RREX", aliases: &[] },
        Codepoint { codepoint: 0xA386, name: "YI SYLLABLE RRE", aliases: &[] },
        Codepoint { codepoint: 0xA387, name: "YI SYLLABLE RREP", aliases: &[] },
        Codepoint { codepoint: 0xA388, name: "YI SYLLABLE RRUT", aliases: &[] },
        Codepoint { codepoint: 0xA389, name: "YI SYLLABLE RRUX", aliases: &[] },
        Codepoint { codepoint: 0xA38A, name: "YI SYLLABLE RRU", aliases: &[] },
        Codepoint { codepoint: 0xA38B, name: "YI SYLLABLE RRUP", aliases: &[] },
        Codepoint { codepoint: 0xA38C, name: "YI SYLLABLE RRURX", aliases: &[] },
        Codepoint { codepoint: 0xA38D, name: "YI SYLLABLE RRUR", aliases: &[] },
        Codepoint { codepoint: 0xA38E, name: "YI SYLLABLE RRYT", aliases: &[] },
        Codepoint { codepoint: 0xA38F, name: "YI SYLLABLE RRYX", aliases: &[] },
        Codepoint { codepoint: 0xA390, name: "YI SYLLABLE RRY", aliases: &[] },
        Codepoint { codepoint: 0xA391, name: "YI SYLLABLE RRYP", aliases: &[] },
        Codepoint { codepoint: 0xA392, name: "YI SYLLABLE RRYRX", aliases: &[] },
        Codepoint { codepoint: 0xA393, name: "YI SYLLABLE RRYR", aliases: &[] },
        Codepoint { codepoint: 0xA394, name: "YI SYLLABLE NRAT", aliases: &[] },
        Codepoint { codepoint: 0xA395, name: "YI SYLLABLE NRAX", aliases: &[] },
        Codepoint { codepoint: 0xA396, name: "YI SYLLABLE NRA", aliases: &[] },
        Codepoint { codepoint: 0xA397, name: "YI SYLLABLE NRAP", aliases: &[] },
        Codepoint { codepoint: 0xA398, name: "YI SYLLABLE NROX", aliases: &[] },
        Codepoint { codepoint: 0xA399, name: "YI SYLLABLE NRO", aliases: &[] },
        Codepoint { codepoint: 0xA39A, name: "YI SYLLABLE NROP", aliases: &[] },
        Codepoint { codepoint: 0xA39B, name: "YI SYLLABLE NRET", aliases: &[] },
        Codepoint { codepoint: 0xA39C, name: "YI SYLLABLE NREX", aliases: &[] },
        Codepoint { codepoint: 0xA39D, name: "YI SYLLABLE NRE", aliases: &[] },
        Codepoint { codepoint: 0xA39E, name: "YI SYLLABLE NREP", aliases: &[] },
        Codepoint { codepoint: 0xA39F, name: "YI SYLLABLE NRUT", aliases: &[] },
        Codepoint { codepoint: 0xA3A0, name: "YI SYLLABLE NRUX", aliases: &[] },
        Codepoint { codepoint: 0xA3A1, name: "YI SYLLABLE NRU", aliases: &[] },
        Codepoint { codepoint: 0xA3A2, name: "YI SYLLABLE NRUP", aliases: &[] },
        Codepoint { codepoint: 0xA3A3, name: "YI SYLLABLE NRURX", aliases: &[] },
        Codepoint { codepoint: 0xA3A4, name: "YI SYLLABLE NRUR", aliases: &[] },
        Codepoint { codepoint: 0xA3A5, name: "YI SYLLABLE NRYT", aliases: &[] },
        Codepoint { codepoint: 0xA3A6, name: "YI SYLLABLE NRYX", aliases: &[] },
        Codepoint { codepoint: 0xA3A7, name: "YI SYLLABLE NRY", aliases: &[] },
        Codepoint { codepoint: 0xA3A8, name: "YI SYLLABLE NRYP", aliases: &[] },
        Codepoint { codepoint: 0xA3A9, name: "YI SYLLABLE NRYRX", aliases: &[] },
        Codepoint { codepoint: 0xA3AA, name: "YI SYLLABLE NRYR", aliases: &[] },
        Codepoint { codepoint: 0xA3AB, name: "YI SYLLABLE SHAT", aliases: &[] },
    ]
}

fn all_codepoints_330() -> (v: Vec<Codepoint>)
    ensures
        v@ == codepoint_table_330(),
{
    let v = vec![
        Codepoint { codepoint: 0xA384, name: "YI SYLLABLE RRET", aliases: &[] },
        Codepoint { codepoint: 0xA385, name: "YI SYLLABLE RREX", aliases: &[] },
        Codepoint { codepoint: 0xA386, name: "YI SYLLABLE RRE", aliases: &[] },
        Codepoint { codepoint: 0xA387, name: "YI SYLLABLE RREP", aliases: &[] },
        Codepoint { codepoint: 0xA388, name: "YI SYLLABLE RRUT", aliases: &[] },
        Codepoint { codepoint: 0xA389, name: "YI SYLLABLE RRUX", aliases: &[] },
        Codepoint { codepoint: 0xA38A, name: "YI SYLLABLE RRU", aliases: &[] },
        Codepoint { codepoint: 0xA38B, name: "YI SYLLABLE RRUP", aliases: &[] },
        Codepoint { codepoint: 0xA38C, name: "YI SYLLABLE RRURX", aliases: &[] },
        Codepoint { codepoint: 0xA38D, name: "YI SYLLABLE RRUR", aliases: &[] },
        Codepoint { codepoint: 0xA38E, name: "YI SYLLABLE RRYT", aliases: &[] },
        Codepoint { codepoint: 0xA38F, name: "YI SYLLABLE RRYX", aliases: &[] },
        Codepoint { codepoint: 0xA390, name: "YI SYLLABLE RRY", aliases: &[] },
        Codepoint { codepoint: 0xA391, name: "YI SYLLABLE RRYP", aliases: &[] },
        Codepoint { codepoint: 0xA392, name: "YI SYLLABLE RRYRX", aliases: &[] },
        Codepoint { codepoint: 0xA393, name: "YI SYLLABLE RRYR", aliases: &[] },
        Codepoint { codepoint: 0xA394, name: "YI SYLLABLE NRAT", aliases: &[] },
        Codepoint { codepoint: 0xA395, name: "YI SYLLABLE NRAX", aliases: &[] },
        Codepoint { codepoint: 0xA396, name: "YI SYLLABLE NRA", aliases: &[] },
        Codepoint { codepoint: 0xA397, name: "YI SYLLABLE NRAP", aliases: &[] },
        Codepoint { codepoint: 0xA398, name: "YI SYLLABLE NROX", aliases: &[] },
        Codepoint { codepoint: 0xA399, name: "YI SYLLABLE NRO", aliases: &[] },
        Codepoint { codepoint: 0xA39A, name: "YI SYLLABLE NROP", aliases: &[] },
        Codepoint { codepoint: 0xA39B, name: "YI SYLLABLE NRET", aliases: &[] },
        Codepoint { codepoint: 0xA39C, name: "YI SYLLABLE NREX", aliases: &[] },
        Codepoint { codepoint: 0xA39D, name: "YI SYLLABLE NRE", aliases: &[] },
        Codepoint { codepoint: 0xA39E, name: "YI SYLLABLE NREP", aliases: &[] },
        Codepoint { codepoint: 0xA39F, name: "YI SYLLABLE NRUT", aliases: &[] },
        Codepoint { codepoint: 0xA3A0, name: "YI SYLLABLE NRUX", aliases: &[] },
        Codepoint { codepoint: 0xA3A1, name: "YI SYLLABLE NRU", aliases: &[] },
        Codepoint { codepoint: 0xA3A2, name: "YI SYLLABLE NRUP", aliases: &[] },
        Codepoint { codepoint: 0xA3A3, name: "YI SYLLABLE NRURX", aliases: &[] },
        Codepoint { codepoint: 0xA3A4, name: "YI SYLLABLE NRUR", aliases: &[] },
        Codepoint { codepoint: 0xA3A5, name: "YI SYLLABLE NRYT", aliases: &[] },
        Codepoint { codepoint: 0xA3A6, name: "YI SYLLABLE NRYX", aliases: &[] },
        Codepoint { codepoint: 0xA3A7, name: "YI SYLLABLE NRY", aliases: &[] },
        Codepoint { codepoint: 0xA3A8, name: "YI SYLLABLE NRYP", aliases: &[] },
        Codepoint { codepoint: 0xA3A9, name: "YI SYLLABLE NRYRX", aliases: &[] },
        Codepoint { codepoint: 0xA3AA, name: "YI SYLLABLE NRYR", aliases: &[] },
        Codepoint { codepoint: 0xA3AB, name: "YI SYLLABLE SHAT", aliases: &[] },
    ];
    assert(v@ =~= codepoint_table_330());
    v
}

pub open spec fn codepoint_table_331() -> Seq<Codepoint> {
    seq![
        Codepoint { codepoint: 0xA3AC, name: "YI SYLLABLE SHAX", aliases: &[] },
        Codepoint { codepoint: 0xA3AD, name: "YI SYLLABLE SHA", aliases: &[] },
        Codepoint { codepoint: 0xA3AE, name: "YI SYLLABLE SHAP", aliases: &[] },
        Codepoint { codepoint: 0xA3AF, name: "YI SYLLABLE SHUOX", aliases: &[] },
        Codepoint { codepoint: 0xA3B0, name: "YI SYLLABLE SHUO", aliases: &[] },
        Codepoint { codepoint: 0xA3B1, name: "YI SYLLABLE SHUOP", aliases: &[] },
        Codepoint { codepoint: 0xA3B2, name: "YI SYLLABLE SHOT", aliases: &[] },
        Codepoint { codepoint: 0xA3B3, name: "YI SYLLABLE SHOX", aliases: &[] },
        Codepoint { codepoint: 0xA3B4, name: "YI SYLLABLE SHO", aliases: &[] },
        Codepoint { codepoint: 0xA3B5, name: "YI SYLLABLE SHOP", aliases: &[] },
        Codepoint { codepoint: 0xA3B6, name: "YI SYLLABLE SHET", aliases: &[] },
        Codepoint { codepoint: 0xA3B7, name: "YI SYLLABLE SHEX", aliases: &[] },
        Codepoint { codepoint: 0xA3B8, name: "YI SYLLABLE SHE", aliases: &[] },
        Codepoint { codepoint: 0xA3B9, name: "YI SYLLABLE SHEP", aliases: &[] },
        Codepoint { codepoint: 0xA3BA, name: "YI SYLLABLE SHUT", aliases: &[] },
        Codepoint { codepoint: 0xA3BB, name: "YI SYLLABLE SHUX", aliases: &[] },
        Codepoint { codepoint: 0xA3BC, name: "YI SYLLABLE SHU", aliases: &[] },
        Codepoint { codepoint: 0xA3BD, name: "YI SYLLABLE SHUP", aliases: &[] },
        Codepoint { codepoint: 0xA3BE, name: "YI SYLLABLE SHURX", aliases: &[] },
        Codepoint { codepoint: 0xA3BF, name: "YI SYLLABLE SHUR", aliases: &[] },
        Codepoint { codepoint: 0xA3C0, name: "YI SYLLABLE SHYT", aliases: &[] },
        Codepoint { codepoint: 0xA3C1, name: "YI SYLLABLE SHYX", aliases: &[] },
        Codepoint { codepoint: 0xA3C2, name: "YI SYLLABLE SHY", aliases: &[] },
        Codepoint { codepoint: 0xA3C3, name: "YI SYLLABLE SHYP", aliases: &[] },
        Codepoint { codepoint: 0xA3C4, name: "YI SYLLABLE SHYRX", aliases: &[] },
        Codepoint { codepoint: 0xA3C5, name: "YI SYLLABLE SHYR", aliases: &[] },
        Codepoint { codepoint: 0xA3C6, name: "YI SYLLABLE RAT", aliases: &[] },
        Codepoint { codepoint: 0xA3C7, name: "YI SYLLABLE RAX", aliases: &[] },
        Codepoint { codepoint: 0xA3C8, name: "YI SYLLABLE RA", aliases: &[] },
        Codepoint { codepoint: 0xA3C9, name: "YI SYLLABLE RAP", aliases: &[] },
        Codepoint { codepoint: 0xA3CA, name: "YI SYLLABLE RUOX", aliases: &[] },
        Codepoint { codepoint: 0xA3CB, name: "YI SYLLABLE RUO", aliases: &[] },
        Codepoint { codepoint: 0xA3CC, name: "YI SYLLABLE RUOP", aliases: &[] },
        Codepoint { codepoint: 0xA3CD, name: "YI SYLLABLE ROT", aliases: &[] },
        Codepoint { codepoint: 0xA3CE, name: "YI SYLLABLE ROX", aliases: &[] },
        Codepoint { codepoint: 0xA3CF, name: "YI SYLLABLE RO", aliases: &[] },
        Codepoint { codepoint: 0xA3D0, name: "YI SYLLABLE ROP", aliases: &[] },
        Codepoint { codepoint: 0xA3D1, name: "YI SYLLABLE REX", aliases: &[] },
        Codepoint { codepoint: 0xA3D2, name: "YI SYLLABLE RE", aliases: &[] },
        Codepoint { codepoint: 0xA3D3, name: "YI SYLLABLE REP", aliases: &[] },
    ]
}

fn all_codepoints_331() -> (v: Vec<Codepoint>)
    ensures
        v@ == codepoint_table_331(),
{
    let v = vec![
        Codepoint { codepoint: 0xA3AC, name: "YI SYLLABLE SHAX", aliases: &[] },
        Codepoint { codepoint: 0xA3AD, name: "YI SYLLABLE SHA", aliases: &[] },
        Codepoint { codepoint: 0xA3AE, name: "YI SYLLABLE SHAP", aliases: &[] },
        Codepoint { codepoint: 0xA3AF, name: "YI SYLLABLE SHUOX", aliases: &[] },
        Codepoint { codepoint: 0xA3B0, name: "YI SYLLABLE SHUO", aliases: &[] },
        Codepoint { codepoint: 0xA3B1, name: "YI SYLLABLE SHUOP", aliases: &[] },
        Codepoint { codepoint: 0xA3B2, name: "YI SYLLABLE SHOT", aliases: &[] },
        Codepoint { codepoint: 0xA3B3, name: "YI SYLLABLE SHOX", aliases: &[] },
        Codepoint { codepoint: 0xA3B4, name: "YI SYLLABLE SHO", aliases: &[] },
        Codepoint { codepoint: 0xA3B5, name: "YI SYLLABLE SHOP", aliases: &[] },
        Codepoint { codepoint: 0xA3B6, name: "YI SYLLABLE SHET", aliases: &[] },
        Codepoint { codepoint: 0xA3B7, name: "YI SYLLABLE SHEX", aliases: &[] },
        Codepoint { codepoint: 0xA3B8, name: "YI SYLLABLE SHE", aliases: &[] },
        Codepoint { codepoint: 0xA3B9, name: "YI SYLLABLE SHEP", aliases: &[] },
        Codepoint { codepoint: 0xA3BA, name: "YI SYLLABLE SHUT", aliases: &[] },
        Codepoint { codepoint: 0xA3BB, name: "YI SYLLABLE SHUX", aliases: &[] },
        Codepoint { codepoint: 0xA3BC, name: "YI SYLLABLE SHU", aliases: &[] },
        Codepoint { codepoint: 0xA3BD, name: "YI SYLLABLE SHUP", aliases: &[] },
        Codepoint { codepoint: 0xA3BE, name: "YI SYLLABLE SHURX", aliases: &[] },
        Codepoint { codepoint: 0xA3BF, name: "YI SYLLABLE SHUR", aliases: &[] },
        Codepoint { codepoint: 0xA3C0, name: "YI SYLLABLE SHYT", aliases: &[] },
        Codepoint { codepoint: 0xA3C1, name: "YI SYLLABLE SHYX", aliases: &[] },
        Codepoint { codepoint: 0xA3C2, name: "YI SYLLABLE SHY", aliases: &[] },
        Codepoint { codepoint: 0xA3C3, name: "YI SYLLABLE SHYP", aliases: &[] },
        Codepoint { codepoint: 0xA3C4, name: "YI SYLLABLE SHYRX", aliases: &[] },
        Codepoint { codepoint: 0xA3C5, name: "YI SYLLABLE SHYR", aliases: &[] },
        Codepoint { codepoint: 0xA3C6, name: "YI SYLLABLE RAT", aliases: &[] },
        Codepoint { codepoint: 0xA3C7, name: "YI SYLLABLE RAX", aliases: &[] },
        Codepoint { codepoint: 0xA3C8, name: "YI SYLLABLE RA", aliases: &[] },
        Codepoint { codepoint: 0xA3C9, name: "YI SYLLABLE RAP", aliases: &[] },
        Codepoint { codepoint: 0xA3CA, name: "YI SYLLABLE RUOX", aliases: &[] },
        Codepoint { codepoint: 0xA3CB, name: "YI SYLLABLE RUO", aliases: &[] },
        Codepoint { codepoint: 0xA3CC, name: "YI SYLLABLE RUOP", aliases: &[] },
        Codepoint { codepoint: 0xA3CD, name: "YI SYLLABLE ROT", aliases: &[] },
        Codepoint { codepoint: 0xA3CE, name: "YI SYLLABLE ROX", aliases: &[] },
        Codepoint { codepoint: 0xA3CF, name: "YI SYLLABLE RO", aliases: &[] },
        Codepoint { codepoint: 0xA3D0, name: "YI SYLLABLE ROP", aliases: &[] },
        Codepoint { codepoint: 0xA3D1, name: "YI SYLLABLE REX", aliases: &[] },
        Codepoint { codepoint: 0xA3D2, name: "YI SYLLABLE RE", aliases: &[] },
        Codepoint { codepoint: 0xA3D3, name: "YI SYLLABLE REP", aliases: &[] },
    ];
    assert(v@ =~= codepoint_table_331());
    v
}

pub open spec fn codepoint_table_332() -> Seq<Codepoint> {
    seq![
        Codepoint { codepoint: 0xA3D4, name: "YI SYLLABLE RUT", aliases: &[] },
        Codepoint { codepoint: 0xA3D5, name: "YI SYLLABLE RUX", aliases: &[] },
        Codepoint { codepoint: 0xA3D6, name: "YI SYLLABLE RU", aliases: &[] },
        Codepoint { codepoint: 0xA3D7, name: "YI SYLLABLE RUP", aliases: &[] },
        Codepoint { codepoint: 0xA3D8, name: "YI SYLLABLE RURX", aliases: &[] },
        Codepoint { codepoint: 0xA3D9, name: "YI SYLLABLE RUR", aliases: &[] },
        Codepoint { codepoint: 0xA3DA, name: "YI SYLLABLE RYT", aliases: &[] },
        Codepoint { codepoint: 0xA3DB, name: "YI SYLLABLE RYX", aliases: &[] },
        Codepoint { codepoint: 0xA3DC, name: "YI SYLLABLE RY", aliases: &[] },
        Codepoint { codepoint: 0xA3DD, name: "YI SYLLABLE RYP", aliases: &[] },
        Codepoint { codepoint: 0xA3DE, name: "YI SYLLABLE RYRX", aliases: &[] },
        Codepoint { codepoint: 0xA3DF, name: "YI SYLLABLE RYR", aliases: &[] },
        Codepoint { codepoint: 0xA3E0, name: "YI SYLLABLE JIT", aliases: &[] },
        Codepoint { codepoint: 0xA3E1, name: "YI SYLLABLE JIX", aliases: &[] },
        Codepoint { codepoint: 0xA3E2, name: "YI SYLLABLE JI", aliases: &[] },
        Codepoint { codepoint: 0xA3E3, name: "YI SYLLABLE JIP", aliases: &[] },
        Codepoint { codepoint: 0xA3E4, name: "YI SYLLABLE JIET", aliases: &[] },
        Codepoint { codepoint: 0xA3E5, name: "YI SYLLABLE JIEX", aliases: &[] },
        Codepoint { codepoint: 0xA3E6, name: "YI SYLLABLE JIE", aliases: &[] },
        Codepoint { codepoint: 0xA3E7, name: "YI SYLLABLE JIEP", aliases: &[] },
        Codepoint { codepoint: 0xA3E8, name: "YI SYLLABLE JUOT", aliases: &[] },
        Codepoint { codepoint: 0xA3E9, name: "YI SYLLABLE JUOX", aliases: &[] },
        Codepoint { codepoint: 0xA3EA, name: "YI SYLLABLE JUO", aliases: &[] },
        Codepoint { codepoint: 0xA3EB, name: "YI SYLLABLE JUOP", aliases: &[] },
        Codepoint { codepoint: 0xA3EC, name: "YI SYLLABLE JOT", aliases: &[] },
        Codepoint { codepoint: 0xA3ED, name: "YI SYLLABLE JOX", aliases: &[] },
        Codepoint { codepoint: 0xA3EE, name: "YI SYLLABLE JO", aliases: &[] },
        Codepoint { codepoint: 0xA3EF, name: "YI SYLLABLE JOP", aliases: &[] },
        Codepoint { codepoint: 0xA3F0, name: "YI SYLLABLE JUT", aliases: &[] },
        Codepoint { codepoint: 0xA3F1, name: "YI SYLLABLE JUX", aliases: &[] },
        Codepoint { codepoint: 0xA3F2, name: "YI SYLLABLE JU", aliases: &[] },
        Codepoint { codepoint: 0xA3F3, name: "YI SYLLABLE JUP", aliases: &[] },
        Codepoint { codepoint: 0xA3F4, name: "YI SYLLABLE JURX", aliases: &[] },
        Codepoint { codepoint: 0xA3F5, name: "YI SYLLABLE JUR", aliases: &[] },
        Codepoint { codepoint: 0xA3F6, name: "YI SYLLABLE JYT", aliases: &[] },
        Codepoint { codepoint: 0xA3F7, name: "YI SYLLABLE JYX", aliases: &[] },
        Codepoint { codepoint: 0xA3F8, name: "YI SYLLABLE JY", aliases: &[] },
        Codepoint { codepoint: 0xA3F9, name: "YI SYLLABLE JYP", aliases: &[] },
        Codepoint { codepoint: 0xA3FA, name: "YI SYLLABLE JYRX", aliases: &[] },
        Codepoint { codepoint: 0xA3FB, name: "YI SYLLABLE JYR", aliases: &[] },
    ]
}

fn all_codepoints_332() -> (v: Vec<Codepoint>)
    ensures
        v@ == codepoint_table_332(),
{
    let v = vec![
        Codepoint { codepoint: 0xA3D4, name: "YI SYLLABLE RUT", aliases: &[] },
        Codepoint { codepoint: 0xA3D5, name: "YI SYLLABLE RUX", aliases: &[] },
        Codepoint { codepoint: 0xA3D6, name: "YI SYLLABLE RU", aliases: &[] },
        Codepoint { codepoint: 0xA3D7, name: "YI SYLLABLE RUP", aliases: &[] },
        Codepoint { codepoint: 0xA3D8, name: "YI SYLLABLE RURX", aliases: &[] },
        Codepoint { codepoint: 0xA3D9, name: "YI SYLLABLE RUR", aliases: &[] },
        Codepoint { codepoint: 0xA3DA, name: "YI SYLLABLE RYT", aliases: &[] },
        Codepoint { codepoint: 0xA3DB, name: "YI SYLLABLE RYX", aliases: &[] },
        Codepoint { codepoint: 0xA3DC, name: "YI SYLLABLE RY", aliases: &[] },
        Codepoint { codepoint: 0xA3DD, name: "YI SYLLABLE RYP", aliases: &[] },
        Codepoint { codepoint: 0xA3DE, name: "YI SYLLABLE RYRX", aliases: &[] },
        Codepoint { codepoint: 0xA3DF, name: "YI SYLLABLE RYR", aliases: &[] },
        Codepoint { codepoint: 0xA3E0, name: "YI SYLLABLE JIT", aliases: &[] },
        Codepoint { codepoint: 0xA3E1, name: "YI SYLLABLE JIX", aliases: &[] },
        Codepoint { codepoint: 0xA3E2, name: "YI SYLLABLE JI", aliases: &[] },
        Codepoint { codepoint: 0xA3E3, name: "YI SYLLABLE JIP", aliases: &[] },
        Codepoint { codepoint: 0xA3E4, name: "YI SYLLABLE JIET", aliases: &[] },
        Codepoint { codepoint: 0xA3E5, name: "YI SYLLABLE JIEX", aliases: &[] },
        Codepoint { codepoint: 0xA3E6, name: "YI SYLLABLE JIE", aliases: &[] },
        Codepoint { codepoint: 0xA3E7, name: "YI SYLLABLE JIEP", aliases: &[] },
        Codepoint { codepoint: 0xA3E8, name: "YI SYLLABLE JUOT", aliases: &[] },
        Codepoint { codepoint: 0xA3E9, name: "YI SYLLABLE JUOX", aliases: &[] },
        Codepoint { codepoint: 0xA3EA, name: "YI SYLLABLE JUO", aliases: &[] },
        Codepoint { codepoint: 0xA3EB, name: "YI SYLLABLE JUOP", aliases: &[] },
        Codepoint { codepoint: 0xA3EC, name: "YI SYLLABLE JOT", aliases: &[] },
        Codepoint { codepoint: 0xA3ED, name: "YI SYLLABLE JOX", aliases: &[] },
        Codepoint { codepoint: 0xA3EE, name: "YI SYLLABLE JO", aliases: &[] },
        Codepoint { codepoint: 0xA3EF, name: "YI SYLLABLE JOP", aliases: &[] },
        Codepoint { codepoint: 0xA3F0, name: "YI SYLLABLE JUT", aliases: &[] },
        Codepoint { codepoint: 0xA3F1, name: "YI SYLLABLE JUX", aliases: &[] },
        Codepoint { codepoint: 0xA3F2, name: "YI SYLLABLE JU", aliases: &[] },
        Codepoint { codepoint: 0xA3F3, name: "YI SYLLABLE JUP", aliases: &[] },
        Codepoint { codepoint: 0xA3F4, name: "YI SYLLABLE JURX", aliases: &[] },
        Codepoint { codepoint: 0xA3F5, name: "YI SYLLABLE JUR", aliases: &[] },
        Codepoint { codepoint: 0xA3F6, name: "YI SYLLABLE JYT", aliases: &[] },
        Codepoint { codepoint: 0xA3F7, name: "YI SYLLABLE JYX", aliases: &[] },
        Codepoint { codepoint: 0xA3F8, name: "YI SYLLABLE JY", aliases: &[] },
        Codepoint { codepoint: 0xA3F9, name: "YI SYLLABLE JYP", aliases: &[] },
        Codepoint { codepoint: 0xA3FA, name: "YI SYLLABLE JYRX", aliases: &[] },
        Codepoint { codepoint: 0xA3FB, name: "YI SYLLABLE JYR", aliases: &[] },
    ];
    assert(v@ =~= codepoint_table_332());
    v
}

pub open spec fn codepoint_table_333() -> Seq<Codepoint> {
    seq![
        Codepoint { codepoint: 0xA3FC, name: "YI SYLLABLE QIT", aliases: &[] },
        Codepoint { codepoint: 0xA3FD, name: "YI SYLLABLE QIX", aliases: &[] },
        Codepoint { codepoint: 0xA3FE, name: "YI SYLLABLE QI", aliases: &[] },
        Codepoint { codepoint: 0xA3FF, name: "YI SYLLABLE QIP", aliases: &[] },
        Codepoint { codepoint: 0xA400, name: "YI SYLLABLE QIET", aliases: &[] },
        Codepoint { codepoint: 0xA401, name: "YI SYLLABLE QIEX", aliases: &[] },
        Codepoint { codepoint: 0xA402, name: "YI SYLLABLE QIE", aliases: &[] },
        Codepoint { codepoint: 0xA403, name: "YI SYLLABLE QIEP", aliases: &[] },
        Codepoint { codepoint: 0xA404, name: "YI SYLLABLE QUOT", aliases: &[] },
        Codepoint { codepoint: 0xA405, name: "YI SYLLABLE QUOX", aliases: &[] },
        Codepoint { codepoint: 0xA406, name: "YI SYLLABLE QUO", aliases: &[] },
        Codepoint { codepoint: 0xA407, name: "YI SYLLABLE QUOP", aliases: &[] },
        Codepoint { codepoint: 0xA408, name: "YI SYLLABLE QOT", aliases: &[] },
        Codepoint { codepoint: 0xA409, name: "YI SYLLABLE QOX", aliases: &[] },
        Codepoint { codepoint: 0xA40A, name: "YI SYLLABLE QO", aliases: &[] },
        Codepoint { codepoint: 0xA40B, name: "YI SYLLABLE QOP", aliases: &[] },
        Codepoint { codepoint: 0xA40C, name: "YI SYLLABLE QUT", aliases: &[] },
        Codepoint { codepoint: 0xA40D, name: "YI SYLLABLE QUX", aliases: &[] },
        Codepoint { codepoint: 0xA40E, name: "YI SYLLABLE QU", aliases: &[] },
        Codepoint { codepoint: 0xA40F, name: "YI SYLLABLE QUP", aliases: &[] },
        Codepoint { codepoint: 0xA410, name: "YI SYLLABLE QURX", aliases: &[] },
        Codepoint { codepoint: 0xA411, name: "YI SYLLABLE QUR", aliases: &[] },
        Codepoint { codepoint: 0xA412, name: "YI SYLLABLE QYT", aliases: &[] },
        Codepoint { codepoint: 0xA413, name: "YI SYLLABLE QYX", aliases: &[] },
        Codepoint { codepoint: 0xA414, name: "YI SYLLABLE QY", aliases: &[] },
        Codepoint { codepoint: 0xA415, name: "YI SYLLABLE QYP", aliases: &[] },
        Codepoint { codepoint: 0xA416, name: "YI SYLLABLE QYRX", aliases: &[] },
        Codepoint { codepoint: 0xA417, name: "YI SYLLABLE QYR", aliases: &[] },
        Codepoint { codepoint: 0xA418, name: "YI SYLLABLE JJIT", aliases: &[] },
        Codepoint { codepoint: 0xA419, name: "YI SYLLABLE JJIX", aliases: &[] },
        Codepoint { codepoint: 0xA41A, name: "YI SYLLABLE JJI", aliases: &[] },
        Codepoint { codepoint: 0xA41B, name: "YI SYLLABLE JJIP", aliases: &[] },
        Codepoint { codepoint: 0xA41C, name: "YI SYLLABLE JJIET", aliases: &[] },
        Codepoint { codepoint: 0xA41D, name: "YI SYLLABLE JJIEX", aliases: &[] },
        Codepoint { codepoint: 0xA41E, name: "YI SYLLABLE JJIE", aliases: &[] },
        Codepoint { codepoint: 0xA41F, name: "YI SYLLABLE JJIEP", aliases: &[] },
        Codepoint { codepoint: 0xA420, name: "YI SYLLABLE JJUOX", aliases: &[] },
        Codepoint { codepoint: 0xA421, name: "YI SYLLABLE JJUO", aliases: &[] },
        Codepoint { codepoint: 0xA422, name: "YI SYLLABLE JJUOP", aliases: &[] },
        Codepoint { codepoint: 0xA423, name: "YI SYLLABLE JJOT", aliases: &[] },
    ]
}

fn all_codepoints_333() -> (v: Vec<Codepoint>)
    ensures
        v@ == codepoint_table_333(),
{
    let v = vec![
        Codepoint { codepoint: 0xA3FC, name: "YI SYLLABLE QIT", aliases: &[] },
        Codepoint { codepoint: 0xA3FD, name: "YI SYLLABLE QIX", aliases: &[] },
        Codepoint { codepoint: 0xA3FE, name: "YI SYLLABLE QI", aliases: &[] },
        Codepoint { codepoint: 0xA3FF, name: "YI SYLLABLE QIP", aliases: &[] },
        Codepoint { codepoint: 0xA400, name: "YI SYLLABLE QIET", aliases: &[] },
        Codepoint { codepoint: 0xA401, name: "YI SYLLABLE QIEX", aliases: &[] },
        Codepoint { codepoint: 0xA402, name: "YI SYLLABLE QIE", aliases: &[] },
        Codepoint { codepoint: 0xA403, name: "YI SYLLABLE QIEP", aliases: &[] },
        Codepoint { codepoint: 0xA404, name: "YI SYLLABLE QUOT", aliases: &[] },
        Codepoint { codepoint: 0xA405, name: "YI SYLLABLE QUOX", aliases: &[] },
        Codepoint { codepoint: 0xA406, name: "YI SYLLABLE QUO", aliases: &[] },
        Codepoint { codepoint: 0xA407, name: "YI SYLLABLE QUOP", aliases: &[] },
        Codepoint { codepoint: 0xA408, name: "YI SYLLABLE QOT", aliases: &[] },
        Codepoint { codepoint: 0xA409, name: "YI SYLLABLE QOX", aliases: &[] },
        Codepoint { codepoint: 0xA40A, name: "YI SYLLABLE QO", aliases: &[] },
        Codepoint { codepoint: 0xA40B, name: "YI SYLLABLE QOP", aliases: &[] },
        Codepoint { codepoint: 0xA40C, name: "YI SYLLABLE QUT", aliases: &[] },
        Codepoint { codepoint: 0xA40D, name: "YI SYLLABLE QUX", aliases: &[] },
        Codepoint { codepoint: 0xA40E, name: "YI SYLLABLE QU", aliases: &[] },
        Codepoint { codepoint: 0xA40F, name: "YI SYLLABLE QUP", aliases: &[] },
        Codepoint { codepoint: 0xA410, name: "YI SYLLABLE QURX", aliases: &[] },
        Codepoint { codepoint: 0xA411, name: "YI SYLLABLE QUR", aliases: &[] },
        Codepoint { codepoint: 0xA412, name: "YI SYLLABLE QYT", aliases: &[] },
        Codepoint { codepoint: 0xA413, name: "YI SYLLABLE QYX", aliases: &[] },
        Codepoint { codepoint: 0xA414, name: "YI SYLLABLE QY", aliases: &[] },
        Codepoint { codepoint: 0xA415, name: "YI SYLLABLE QYP", aliases: &[] },
        Codepoint { codepoint: 0xA416, name: "YI SYLLABLE QYRX", aliases: &[] },
        Codepoint { codepoint: 0xA417, name: "YI SYLLABLE QYR", aliases: &[] },
        Codepoint { codepoint: 0xA418, name: "YI SYLLABLE JJIT", aliases: &[] },
        Codepoint { codepoint: 0xA419, name: "YI SYLLABLE JJIX", aliases: &[] },
        Codepoint { codepoint: 0xA41A, name: "YI SYLLABLE JJI", aliases: &[] },
        Codepoint { codepoint: 0xA41B, name: "YI SYLLABLE JJIP", aliases: &[] },
        Codepoint { codepoint: 0xA41C, name: "YI SYLLABLE JJIET", aliases: &[] },
        Codepoint { codepoint: 0xA41D, name: "YI SYLLABLE JJIEX", aliases: &[] },
        Codepoint { codepoint: 0xA41E, name: "YI SYLLABLE JJIE", aliases: &[] },
        Codepoint { codepoint: 0xA41F, name: "YI SYLLABLE JJIEP", aliases: &[] },
        Codepoint { codepoint: 0xA420, name: "YI SYLLABLE JJUOX", aliases: &[] },
        Codepoint { codepoint: 0xA421, name: "YI SYLLABLE JJUO", aliases: &[] },
        Codepoint { codepoint: 0xA422, name: "YI SYLLABLE JJUOP", aliases: &[] },
        Codepoint { codepoint: 0xA423, name: "YI SYLLABLE JJOT", aliases: &[] },
    ];
    assert(v@ =~= codepoint_table_333());
    v
}

pub open spec fn codepoint_table_334() -> Seq<Codepoint> {
    seq![
        Codepoint { codepoint: 0xA424, name: "YI SYLLABLE JJOX", aliases: &[] },
        Codepoint { codepoint: 0xA425, name: "YI SYLLABLE JJO", aliases: &[] },
        Codepoint { codepoint: 0xA426, name: "YI SYLLABLE JJOP", aliases: &[] },
        Codepoint { codepoint: 0xA427, name: "YI SYLLABLE JJUT", aliases: &[] },
        Codepoint { codepoint: 0xA428, name: "YI SYLLABLE JJUX", aliases: &[] },
        Codepoint { codepoint: 0xA429, name: "YI SYLLABLE JJU", aliases: &[] },
        Codepoint { codepoint: 0xA42A, name: "YI SYLLABLE JJUP", aliases: &[] },
        Codepoint { codepoint: 0xA42B, name: "YI SYLLABLE JJURX", aliases: &[] },
        Codepoint { codepoint: 0xA42C, name: "YI SYLLABLE JJUR", aliases: &[] },
        Codepoint { codepoint: 0xA42D, name: "YI SYLLABLE JJYT", aliases: &[] },
        Codepoint { codepoint: 0xA42E, name: "YI SYLLABLE JJYX", aliases: &[] },
        Codepoint { codepoint: 0xA42F, name: "YI SYLLABLE JJY", aliases: &[] },
        Codepoint { codepoint: 0xA430, name: "YI SYLLABLE JJYP", aliases: &[] },
        Codepoint { codepoint: 0xA431, name: "YI SYLLABLE NJIT", aliases: &[] },
        Codepoint { codepoint: 0xA432, name: "YI SYLLABLE NJIX", aliases: &[] },
        Codepoint { codepoint: 0xA433, name: "YI SYLLABLE NJI", aliases: &[] },
        Codepoint { codepoint: 0xA434, name: "YI SYLLABLE NJIP", aliases: &[] },
        Codepoint { codepoint: 0xA435, name: "YI SYLLABLE NJIET", aliases: &[] },
        Codepoint { codepoint: 0xA436, name: "YI SYLLABLE NJIEX", aliases: &[] },
        Codepoint { codepoint: 0xA437, name: "YI SYLLABLE NJIE", aliases: &[] },
        Codepoint { codepoint: 0xA438, name: "YI SYLLABLE NJIEP", aliases: &[] },
        Codepoint { codepoint: 0xA439, name: "YI SYLLABLE NJUOX", aliases: &[] },
        Codepoint { codepoint: 0xA43A, name: "YI SYLLABLE NJUO", aliases: &[] },
        Codepoint { codepoint: 0xA43B, name: "YI SYLLABLE NJOT", aliases: &[] },
        Codepoint { codepoint: 0xA43C, name: "YI SYLLABLE NJOX", aliases: &[] },
        Codepoint { codepoint: 0xA43D, name: "YI SYLLABLE NJO", aliases: &[] },
        Codepoint { codepoint: 0xA43E, name: "YI SYLLABLE NJOP", aliases: &[] },
        Codepoint { codepoint: 0xA43F, name: "YI SYLLABLE NJUX", aliases: &[] },
        Codepoint { codepoint: 0xA440, name: "YI SYLLABLE NJU", aliases: &[] },
        Codepoint { codepoint: 0xA441, name: "YI SYLLABLE NJUP", aliases: &[] },
        Codepoint { codepoint: 0xA442, name: "YI SYLLABLE NJURX", aliases: &[] },
        Codepoint { codepoint: 0xA443, name: "YI SYLLABLE NJUR", aliases: &[] },
        Codepoint { codepoint: 0xA444, name: "YI SYLLABLE NJYT", aliases: &[] },
        Codepoint { codepoint: 0xA445, name: "YI SYLLABLE NJYX", aliases: &[] },
        Codepoint { codepoint: 0xA446, name: "YI SYLLABLE NJY", aliases: &[] },
        Codepoint { codepoint: 0xA447, name: "YI SYLLABLE NJYP", aliases: &[] },
        Codepoint { codepoint: 0xA448, name: "YI SYLLABLE NJYRX", aliases: &[] },
        Codepoint { codepoint: 0xA449, name: "YI SYLLABLE NJYR", aliases: &[] },
        Codepoint { codepoint: 0xA44A, name: "YI SYLLABLE NYIT", aliases: &[] },
        Codepoint { codepoint: 0xA44B, name: "YI SYLLABLE NYIX", aliases: &[] },
    ]
}

fn all_codepoints_334() -> (v: Vec<Codepoint>)
    ensures
        v@ == codepoint_table_334(),
{
    let v = vec![
        Codepoint { codepoint: 0xA424, name: "YI SYLLABLE JJOX", aliases: &[] },
        Codepoint { codepoint: 0xA425, name: "YI SYLLABLE JJO", aliases: &[] },
        Codepoint { codepoint: 0xA426, name: "YI SYLLABLE JJOP", aliases: &[] },
        Codepoint { codepoint: 0xA427, name: "YI SYLLABLE JJUT", aliases: &[] },
        Codepoint { codepoint: 0xA428, name: "YI SYLLABLE JJUX", aliases: &[] },
        Codepoint { codepoint: 0xA429, name: "YI SYLLABLE JJU", aliases: &[] },
        Codepoint { codepoint: 0xA42A, name: "YI SYLLABLE JJUP", aliases: &[] },
        Codepoint { codepoint: 0xA42B, name: "YI SYLLABLE JJURX", aliases: &[] },
        Codepoint { codepoint: 0xA42C, name: "YI SYLLABLE JJUR", aliases: &[] },
        Codepoint { codepoint: 0xA42D, name: "YI SYLLABLE JJYT", aliases: &[] },
        Codepoint { codepoint: 0xA42E, name: "YI SYLLABLE JJYX", aliases: &[] },
        Codepoint { codepoint: 0xA42F, name: "YI SYLLABLE JJY", aliases: &[] },
        Codepoint { codepoint: 0xA430, name: "YI SYLLABLE JJYP", aliases: &[] },
        Codepoint { codepoint: 0xA431, name: "YI SYLLABLE NJIT", aliases: &[] },
        Codepoint { codepoint: 0xA432, name: "YI SYLLABLE NJIX", aliases: &[] },
        Codepoint { codepoint: 0xA433, name: "YI SYLLABLE NJI", aliases: &[] },
        Codepoint { codepoint: 0xA434, name: "YI SYLLABLE NJIP", aliases: &[] },
        Codepoint { codepoint: 0xA435, name: "YI SYLLABLE NJIET", aliases: &[] },
        Codepoint { codepoint: 0xA436, name: "YI SYLLABLE NJIEX", aliases: &[] },
        Codepoint { codepoint: 0xA437, name: "YI SYLLABLE NJIE", aliases: &[] },
        Codepoint { codepoint: 0xA438, name: "YI SYLLABLE NJIEP", aliases: &[] },
        Codepoint { codepoint: 0xA439, name: "YI SYLLABLE NJUOX", aliases: &[] },
        Codepoint { codepoint: 0xA43A, name: "YI SYLLABLE NJUO", aliases: &[] },
        Codepoint { codepoint: 0xA43B, name: "YI SYLLABLE NJOT", aliases: &[] },
        Codepoint { codepoint: 0xA43C, name: "YI SYLLABLE NJOX", aliases: &[] },
        Codepoint { codepoint: 0xA43D, name: "YI SYLLABLE NJO", aliases: &[] },
        Codepoint { codepoint: 0xA43E, name: "YI SYLLABLE NJOP", aliases: &[] },
        Codepoint { codepoint: 0xA43F, name: "YI SYLLABLE NJUX", aliases: &[] },
        Codepoint { codepoint: 0xA440, name: "YI SYLLABLE NJU", aliases: &[] },
        Codepoint { codepoint: 0xA441, name: "YI SYLLABLE NJUP", aliases: &[] },
        Codepoint { codepoint: 0xA442, name: "YI SYLLABLE NJURX", aliases: &[] },
        Codepoint { codepoint: 0xA443, name: "YI SYLLABLE NJUR", aliases: &[] },
        Codepoint { codepoint: 0xA444, name: "YI SYLLABLE NJYT", aliases: &[] },
        Codepoint { codepoint: 0xA445, name: "YI SYLLABLE NJYX", aliases: &[] },
        Codepoint { codepoint: 0xA446, name: "YI SYLLABLE NJY", aliases: &[] },
        Codepoint { codepoint: 0xA447, name: "YI SYLLABLE NJYP", aliases: &[] },
        Codepoint { codepoint: 0xA448, name: "YI SYLLABLE NJYRX", aliases: &[] },
        Codepoint { codepoint: 0xA449, name: "YI SYLLABLE NJYR", aliases: &[] },
        Codepoint { codepoint: 0xA44A, name: "YI SYLLABLE NYIT", aliases: &[] },
        Codepoint { codepoint: 0xA44B, name: "YI SYLLABLE NYIX", aliases: &[] },
    ];
    assert(v@ =~= codepoint_table_334());
    v
}

pub open spec fn codepoint_table_335() -> Seq<Codepoint> {
    seq![
        Codepoint { codepoint: 0xA44C, name: "YI SYLLABLE NYI", aliases: &[] },
        Codepoint { codepoint: 0xA44D, name: "YI SYLLABLE NYIP", aliases: &[] },
        Codepoint { codepoint: 0xA44E, name: "YI SYLLABLE NYIET", aliases: &[] },
        Codepoint { codepoint: 0xA44F, name: "YI SYLLABLE NYIEX", aliases: &[] },
        Codepoint { codepoint: 0xA450, name: "YI SYLLABLE NYIE", aliases: &[] },
        Codepoint { codepoint: 0xA451, name: "YI SYLLABLE NYIEP", aliases: &[] },
        Codepoint { codepoint: 0xA452, name: "YI SYLLABLE NYUOX", aliases: &[] },
        Codepoint { codepoint: 0xA453, name: "YI SYLLABLE NYUO", aliases: &[] },
        Codepoint { codepoint: 0xA454, name: "YI SYLLABLE NYUOP", aliases: &[] },
        Codepoint { codepoint: 0xA455, name: "YI SYLLABLE NYOT", aliases: &[] },
        Codepoint { codepoint: 0xA456, name: "YI SYLLABLE NYOX", aliases: &[] },
        Codepoint { codepoint: 0xA457, name: "YI SYLLABLE NYO", aliases: &[] },
        Codepoint { codepoint: 0xA458, name: "YI SYLLABLE NYOP", aliases: &[] },
        Codepoint { codepoint: 0xA459, name: "YI SYLLABLE NYUT", aliases: &[] },
        Codepoint { codepoint: 0xA45A, name: "YI SYLLABLE NYUX", aliases: &[] },
        Codepoint { codepoint: 0xA45B, name: "YI SYLLABLE NYU", aliases: &[] },
        Codepoint { codepoint: 0xA45C, name: "YI SYLLABLE NYUP", aliases: &[] },
        Codepoint { codepoint: 0xA45D, name: "YI SYLLABLE XIT", aliases: &[] },
        Codepoint { codepoint: 0xA45E, name: "YI SYLLABLE XIX", aliases: &[] },
        Codepoint { codepoint: 0xA45F, name: "YI SYLLABLE XI", aliases: &[] },
        Codepoint { codepoint: 0xA460, name: "YI SYLLABLE XIP", aliases: &[] },
        Codepoint { codepoint: 0xA461, name: "YI SYLLABLE XIET", aliases: &[] },
        Codepoint { codepoint: 0xA462, name: "YI SYLLABLE XIEX", aliases: &[] },
        Codepoint { codepoint: 0xA463, name: "YI SYLLABLE XIE", aliases: &[] },
        Codepoint { codepoint: 0xA464, name: "YI SYLLABLE XIEP", aliases: &[] },
        Codepoint { codepoint: 0xA465, name: "YI SYLLABLE XUOX", aliases: &[] },
        Codepoint { codepoint: 0xA466, name: "YI SYLLABLE XUO", aliases: &[] },
        Codepoint { codepoint: 0xA467, name: "YI SYLLABLE XOT", aliases: &[] },
        Codepoint { codepoint: 0xA468, name: "YI SYLLABLE XOX", aliases: &[] },
        Codepoint { codepoint: 0xA469, name: "YI SYLLABLE XO", aliases: &[] },
        Codepoint { codepoint: 0xA46A, name: "YI SYLLABLE XOP", aliases: &[] },
        Codepoint { codepoint: 0xA46B, name: "YI SYLLABLE XYT", aliases: &[] },
        Codepoint { codepoint: 0xA46C, name: "YI SYLLABLE XYX", aliases: &[] },
        Codepoint { codepoint: 0xA46D, name: "YI SYLLABLE XY", aliases: &[] },
        Codepoint { codepoint: 0xA46E, name: "YI SYLLABLE XYP", aliases: &[] },
        Codepoint { codepoint: 0xA46F, name: "YI SYLLABLE XYRX", aliases: &[] },
        Codepoint { codepoint: 0xA470, name: "YI SYLLABLE XYR", aliases: &[] },
        Codepoint { codepoint: 0xA471, name: "YI SYLLABLE YIT", aliases: &[] },
        Codepoint { codepoint: 0xA472, name: "YI SYLLABLE YIX", aliases: &[] },
        Codepoint { codepoint: 0xA473, name: "YI SYLLABLE YI", aliases: &[] },
    ]
}

fn all_codepoints_335() -> (v: Vec<Codepoint>)
    ensures
        v@ == codepoint_table_335(),
{
    let v = vec![
        Codepoint { codepoint: 0xA44C, name: "YI SYLLABLE NYI", aliases: &[] },
        Codepoint { codepoint: 0xA44D, name: "YI SYLLABLE NYIP", aliases: &[] },
        Codepoint { codepoint: 0xA44E, name: "YI SYLLABLE NYIET", aliases: &[] },
        Codepoint { codepoint: 0xA44F, name: "YI SYLLABLE NYIEX", aliases: &[] },
        Codepoint { codepoint: 0xA450, name: "YI SYLLABLE NYIE", aliases: &[] },
        Codepoint { codepoint: 0xA451, name: "YI SYLLABLE NYIEP", aliases: &[] },
        Codepoint { codepoint: 0xA452, name: "YI SYLLABLE NYUOX", aliases: &[] },
        Codepoint { codepoint: 0xA453, name: "YI SYLLABLE NYUO", aliases: &[] },
        Codepoint { codepoint: 0xA454, name: "YI SYLLABLE NYUOP", aliases: &[] },
        Codepoint { codepoint: 0xA455, name: "YI SYLLABLE NYOT", aliases: &[] },
        Codepoint { codepoint: 0xA456, name: "YI SYLLABLE NYOX", aliases: &[] },
        Codepoint { codepoint: 0xA457, name: "YI SYLLABLE NYO", aliases: &[] },
        Codepoint { codepoint: 0xA458, name: "YI SYLLABLE NYOP", aliases: &[] },
        Codepoint { codepoint: 0xA459, name: "YI SYLLABLE NYUT", aliases: &[] },
        Codepoint { codepoint: 0xA45A, name: "YI SYLLABLE NYUX", aliases: &[] },
        Codepoint { codepoint: 0xA45B, name: "YI SYLLABLE NYU", aliases: &[] },
        Codepoint { codepoint: 0xA45C, name: "YI SYLLABLE NYUP", aliases: &[] },
        Codepoint { codepoint: 0xA45D, name: "YI SYLLABLE XIT", aliases: &[] },
        Codepoint { codepoint: 0xA45E, name: "YI SYLLABLE XIX", aliases: &[] },
        Codepoint { codepoint: 0xA45F, name: "YI SYLLABLE XI", aliases: &[] },
        Codepoint { codepoint: 0xA460, name: "YI SYLLABLE XIP", aliases: &[] },
        Codepoint { codepoint: 0xA461, name: "YI SYLLABLE XIET", aliases: &[] },
        Codepoint { codepoint: 0xA462, name: "YI SYLLABLE XIEX", aliases: &[] },
        Codepoint { codepoint: 0xA463, name: "YI SYLLABLE XIE", aliases: &[] },
        Codepoint { codepoint: 0xA464, name: "YI SYLLABLE XIEP", aliases: &[] },
        Codepoint { codepoint: 0xA465, name: "YI SYLLABLE XUOX", aliases: &[] },
        Codepoint { codepoint: 0xA466, name: "YI SYLLABLE XUO", aliases: &[] },
        Codepoint { codepoint: 0xA467, name: "YI SYLLABLE XOT", aliases: &[] },
        Codepoint { codepoint: 0xA468, name: "YI SYLLABLE XOX", aliases: &[] },
        Codepoint { codepoint: 0xA469, name: "YI SYLLABLE XO", aliases: &[] },
        Codepoint { codepoint: 0xA46A, name: "YI SYLLABLE XOP", aliases: &[] },
        Codepoint { codepoint: 0xA46B, name: "YI SYLLABLE XYT", aliases: &[] },
        Codepoint { codepoint: 0xA46C, name: "YI SYLLABLE XYX", aliases: &[] },
        Codepoint { codepoint: 0xA46D, name: "YI SYLLABLE XY", aliases: &[] },
        Codepoint { codepoint: 0xA46E, name: "YI SYLLABLE XYP", aliases: &[] },
        Codepoint { codepoint: 0xA46F, name: "YI SYLLABLE XYRX", aliases: &[] },
        Codepoint { codepoint: 0xA470, name: "YI SYLLABLE XYR", aliases: &[] },
        Codepoint { codepoint: 0xA471, name: "YI SYLLABLE YIT", aliases: &[] },
        Codepoint { codepoint: 0xA472, name: "YI SYLLABLE YIX", aliases: &[] },
        Codepoint { codepoint: 0xA473, name: "YI SYLLABLE YI", aliases: &[] },
    ];
    assert(v@ =~= codepoint_table_335());
    v
}

pub open spec fn codepoint_table_336() -> Seq<Codepoint> {
    seq![
        Codepoint { codepoint: 0xA474, name: "YI SYLLABLE YIP", aliases: &[] },
        Codepoint { codepoint: 0xA475, name: "YI SYLLABLE YIET", aliases: &[] },
        Codepoint { codepoint: 0xA476, name: "YI SYLLABLE YIEX", aliases: &[] },
        Codepoint { codepoint: 0xA477, name: "YI SYLLABLE YIE", aliases: &[] },
        Codepoint { codepoint: 0xA478, name: "YI SYLLABLE YIEP", aliases: &[] },
        Codepoint { codepoint: 0xA479, name: "YI SYLLABLE YUOT", aliases: &[] },
        Codepoint { codepoint: 0xA47A, name: "YI SYLLABLE YUOX", aliases: &[] },
        Codepoint { codepoint: 0xA47B, name: "YI SYLLABLE YUO", aliases: &[] },
        Codepoint { codepoint: 0xA47C, name: "YI SYLLABLE YUOP", aliases: &[] },
        Codepoint { codepoint: 0xA47D, name: "YI SYLLABLE YOT", aliases: &[] },
        Codepoint { codepoint: 0xA47E, name: "YI SYLLABLE YOX", aliases: &[] },
        Codepoint { codepoint: 0xA47F, name: "YI SYLLABLE YO", aliases: &[] },
        Codepoint { codepoint: 0xA480, name: "YI SYLLABLE YOP", aliases: &[] },
        Codepoint { codepoint: 0xA481, name: "YI SYLLABLE YUT", aliases: &[] },
        Codepoint { codepoint: 0xA482, name: "YI SYLLABLE YUX", aliases: &[] },
        Codepoint { codepoint: 0xA483, name: "YI SYLLABLE YU", aliases: &[] },
        Codepoint { codepoint: 0xA484, name: "YI SYLLABLE YUP", aliases: &[] },
        Codepoint { codepoint: 0xA485, name: "YI SYLLABLE YURX", aliases: &[] },
        Codepoint { codepoint: 0xA486, name: "YI SYLLABLE YUR", aliases: &[] },
        Codepoint { codepoint: 0xA487, name: "YI SYLLABLE YYT", aliases: &[] },
        Codepoint { codepoint: 0xA488, name: "YI SYLLABLE YYX", aliases: &[] },
        Codepoint { codepoint: 0xA489, name: "YI SYLLABLE YY", aliases: &[] },
        Codepoint { codepoint: 0xA48A, name: "YI SYLLABLE YYP", aliases: &[] },
        Codepoint { codepoint: 0xA48B, name: "YI SYLLABLE YYRX", aliases: &[] },
        Codepoint { codepoint: 0xA48C, name: "YI SYLLABLE YYR", aliases: &[] },
        Codepoint { codepoint: 0xA490, name: "YI RADICAL QOT", aliases: &[] },
        Codepoint { codepoint: 0xA491, name: "YI RADICAL LI", aliases: &[] },
        Codepoint { codepoint: 0xA492, name: "YI RADICAL KIT", aliases: &[] },
        Codepoint { codepoint: 0xA493, name: "YI RADICAL NYIP", aliases: &[] },
        Codepoint { codepoint: 0xA494, name: "YI RADICAL CYP", aliases: &[] },
        Codepoint { codepoint: 0xA495, name: "YI RADICAL SSI", aliases: &[] },
        Codepoint { codepoint: 0xA496, name: "YI RADICAL GGOP", aliases: &[] },
        Codepoint { codepoint: 0xA497, name: "YI RADICAL GEP", aliases: &[] },
        Codepoint { codepoint: 0xA498, name: "YI RADICAL MI", aliases: &[] },
        Codepoint { codepoint: 0xA499, name: "YI RADICAL HXIT", aliases: &[] },
        Codepoint { codepoint: 0xA49A, name: "YI RADICAL LYR", aliases: &[] },
        Codepoint { codepoint: 0xA49B, name: "YI RADICAL BBUT", aliases: &[] },
        Codepoint { codepoint: 0xA49C, name: "YI RADICAL MOP", aliases: &[] },
        Codepoint { codepoint: 0xA49D, name: "YI RADICAL YO", aliases: &[] },
        Codepoint { codepoint: 0xA49E, name: "YI RADICAL PUT", aliases: &[] },
    ]
}

fn all_codepoints_336() -> (v: Vec<Codepoint>)
    ensures
        v@ == codepoint_table_336(),
{
    let v = vec![
        Codepoint { codepoint: 0xA474, name: "YI SYLLABLE YIP", aliases: &[] },
        Codepoint { codepoint: 0xA475, name: "YI SYLLABLE YIET", aliases: &[] },
        Codepoint { codepoint: 0xA476, name: "YI SYLLABLE YIEX", aliases: &[] },
        Codepoint { codepoint: 0xA477, name: "YI SYLLABLE YIE", aliases: &[] },
        Codepoint { codepoint: 0xA478, name: "YI SYLLABLE YIEP", aliases: &[] },
        Codepoint { codepoint: 0xA479, name: "YI SYLLABLE YUOT", aliases: &[] },
        Codepoint { codepoint: 0xA47A, name: "YI SYLLABLE YUOX", aliases: &[] },
        Codepoint { codepoint: 0xA47B, name: "YI SYLLABLE YUO", aliases: &[] },
        Codepoint { codepoint: 0xA47C, name: "YI SYLLABLE YUOP", aliases: &[] },
        Codepoint { codepoint: 0xA47D, name: "YI SYLLABLE YOT", aliases: &[] },
        Codepoint { codepoint: 0xA47E, name: "YI SYLLABLE YOX", aliases: &[] },
        Codepoint { codepoint: 0xA47F, name: "YI SYLLABLE YO", aliases: &[] },
        Codepoint { codepoint: 0xA480, name: "YI SYLLABLE YOP", aliases: &[] },
        Codepoint { codepoint: 0xA481, name: "YI SYLLABLE YUT", aliases: &[] },
        Codepoint { codepoint: 0xA482, name: "YI SYLLABLE YUX", aliases: &[] },
        Codepoint { codepoint: 0xA483, name: "YI SYLLABLE YU", aliases: &[] },
        Codepoint { codepoint: 0xA484, name: "YI SYLLABLE YUP", aliases: &[] },
        Codepoint { codepoint: 0xA485, name: "YI SYLLABLE YURX", aliases: &[] },
        Codepoint { codepoint: 0xA486, name: "YI SYLLABLE YUR", aliases: &[] },
        Codepoint { codepoint: 0xA487, name: "YI SYLLABLE YYT", aliases: &[] },
        Codepoint { codepoint: 0xA488, name: "YI SYLLABLE YYX", aliases: &[] },
        Codepoint { codepoint: 0xA489, name: "YI SYLLABLE YY", aliases: &[] },
        Codepoint { codepoint: 0xA48A, name: "YI SYLLABLE YYP", aliases: &[] },
        Codepoint { codepoint: 0xA48B, name: "YI SYLLABLE YYRX", aliases: &[] },
        Codepoint { codepoint: 0xA48C, name: "YI SYLLABLE YYR", aliases: &[] },
        Codepoint { codepoint: 0xA490, name: "YI RADICAL QOT", aliases: &[] },
        Codepoint { codepoint: 0xA491, name: "YI RADICAL LI", aliases: &[] },
        Codepoint { codepoint: 0xA492, name: "YI RADICAL KIT", aliases: &[] },
        Codepoint { codepoint: 0xA493, name: "YI RADICAL NYIP", aliases: &[] },
        Codepoint { codepoint: 0xA494, name: "YI RADICAL CYP", aliases: &[] },
        Codepoint { codepoint: 0xA495, name: "YI RADICAL SSI", aliases: &[] },
        Codepoint { codepoint: 0xA496, name: "YI RADICAL GGOP", aliases: &[] },
        Codepoint { codepoint: 0xA497, name: "YI RADICAL GEP", aliases: &[] },
        Codepoint { codepoint: 0xA498, name: "YI RADICAL MI", aliases: &[] },
        Codepoint { codepoint: 0xA499, name: "YI RADICAL HXIT", aliases: &[] },
        Codepoint { codepoint: 0xA49A, name: "YI RADICAL LYR", aliases: &[] },
        Codepoint { codepoint: 0xA49B, name: "YI RADICAL BBUT", aliases: &[] },
        Codepoint { codepoint: 0xA49C, name: "YI RADICAL MOP", aliases: &[] },
        Codepoint { codepoint: 0xA49D, name: "YI RADICAL YO", aliases: &[] },
        Codepoint { codepoint: 0xA49E, name: "YI RADICAL PUT", aliases: &[] },
    ];
    assert(v@ =~= codepoint_table_336());
    v
}

pub open spec fn codepoint_table_337() -> Seq<Codepoint> {
    seq![
        Codepoint { codepoint: 0xA49F, name: "YI RADICAL HXUO", aliases: &[] },
        Codepoint { codepoint: 0xA4A0, name: "YI RADICAL TAT", aliases: &[] },
        Codepoint { codepoint: 0xA4A1, name: "YI RADICAL GA", aliases: &[] },
        Codepoint { codepoint: 0xA4A2, name: "YI RADICAL ZUP", aliases: &[] },
        Codepoint { codepoint: 0xA4A3, name: "YI RADICAL CYT", aliases: &[] },
        Codepoint { codepoint: 0xA4A4, name: "YI RADICAL DDUR", aliases: &[] },
        Codepoint { codepoint: 0xA4A5, name: "YI RADICAL BUR", aliases: &[] },
        Codepoint { codepoint: 0xA4A6, name: "YI RADICAL GGUO", aliases: &[] },
        Codepoint { codepoint: 0xA4A7, name: "YI RADICAL NYOP", aliases: &[] },
        Codepoint { codepoint: 0xA4A8, name: "YI RADICAL TU", aliases: &[] },
        Codepoint { codepoint: 0xA4A9, name: "YI RADICAL OP", aliases: &[] },
        Codepoint { codepoint: 0xA4AA, name: "YI RADICAL JJUT", aliases: &[] },
        Codepoint { codepoint: 0xA4AB, name: "YI RADICAL ZOT", aliases: &[] },
        Codepoint { codepoint: 0xA4AC, name: "YI RADICAL PYT", aliases: &[] },
        Codepoint { codepoint: 0xA4AD, name: "YI RADICAL HMO", aliases: &[] },
        Codepoint { codepoint: 0xA4AE, name: "YI RADICAL YIT", aliases: &[] },
        Codepoint { codepoint: 0xA4AF, name: "YI RADICAL VUR", aliases: &[] },
        Codepoint { codepoint: 0xA4B0, name: "YI RADICAL SHY", aliases: &[] },
        Codepoint { codepoint: 0xA4B1, name: "YI RADICAL VEP", aliases: &[] },
        Codepoint { codepoint: 0xA4B2, name: "YI RADICAL ZA", aliases: &[] },
        Codepoint { codepoint: 0xA4B3, name: "YI RADICAL JO", aliases: &[] },
        Codepoint { codepoint: 0xA4B4, name: "YI RADICAL NZUP", aliases: &[] },
        Codepoint { codepoint: 0xA4B5, name: "YI RADICAL JJY", aliases: &[] },
        Codepoint { codepoint: 0xA4B6, name: "YI RADICAL GOT", aliases: &[] },
        Codepoint { codepoint: 0xA4B7, name: "YI RADICAL JJIE", aliases: &[] },
        Codepoint { codepoint: 0xA4B8, name: "YI RADICAL WO", aliases: &[] },
        Codepoint { codepoint: 0xA4B9, name: "YI RADICAL DU", aliases: &[] },
        Codepoint { codepoint: 0xA4BA, name: "YI RADICAL SHUR", aliases: &[] },
        Codepoint { codepoint: 0xA4BB, name: "YI RADICAL LIE", aliases: &[] },
        Codepoint { codepoint: 0xA4BC, name: "YI RADICAL CY", aliases: &[] },
        Codepoint { codepoint: 0xA4BD, name: "YI RADICAL CUOP", aliases: &[] },
        Codepoint { codepoint: 0xA4BE, name: "YI RADICAL CIP", aliases: &[] },
        Codepoint { codepoint: 0xA4BF, name: "YI RADICAL HXOP", aliases: &[] },
        Codepoint { codepoint: 0xA4C0, name: "YI RADICAL SHAT", aliases: &[] },
        Codepoint { codepoint: 0xA4C1, name: "YI RADICAL ZUR", aliases: &[] },
        Codepoint { codepoint: 0xA4C2, name: "YI RADICAL SHOP", aliases: &[] },
        Codepoint { codepoint: 0xA4C3, name: "YI RADICAL CHE", aliases: &[] },
        Codepoint { codepoint: 0xA4C4, name: "YI RADICAL ZZIET", aliases: &[] },
        Codepoint { codepoint: 0xA4C5, name: "YI RADICAL NBIE", aliases: &[] },
        Codepoint { codepoint: 0xA4C6, name: "YI RADICAL KE", aliases: &[] },
    ]
}

fn all_codepoints_337() -> (v: Vec<Codepoint>)
    ensures
        v@ == codepoint_table_337(),
{
    let v = vec![
        Codepoint { codepoint: 0xA49F, name: "YI RADICAL HXUO", aliases: &[] },
        Codepoint { codepoint: 0xA4A0, name: "YI RADICAL TAT", aliases: &[] },
        Codepoint { codepoint: 0xA4A1, name: "YI RADICAL GA", aliases: &[] },
        Codepoint { codepoint: 0xA4A2, name: "YI RADICAL ZUP", aliases: &[] },
        Codepoint { codepoint: 0xA4A3, name: "YI RADICAL CYT", aliases: &[] },
        Codepoint { codepoint: 0xA4A4, name: "YI RADICAL DDUR", aliases: &[] },
        Codepoint { codepoint: 0xA4A5, name: "YI RADICAL BUR", aliases: &[] },
        Codepoint { codepoint: 0xA4A6, name: "YI RADICAL GGUO", aliases: &[] },
        Codepoint { codepoint: 0xA4A7, name: "YI RADICAL NYOP", aliases: &[] },
        Codepoint { codepoint: 0xA4A8, name: "YI RADICAL TU", aliases: &[] },
        Codepoint { codepoint: 0xA4A9, name: "YI RADICAL OP", aliases: &[] },
        Codepoint { codepoint: 0xA4AA, name: "YI RADICAL JJUT", aliases: &[] },
        Codepoint { codepoint: 0xA4AB, name: "YI RADICAL ZOT", aliases: &[] },
        Codepoint { codepoint: 0xA4AC, name: "YI RADICAL PYT", aliases: &[] },
        Codepoint { codepoint: 0xA4AD, name: "YI RADICAL HMO", aliases: &[] },
        Codepoint { codepoint: 0xA4AE, name: "YI RADICAL YIT", aliases: &[] },
        Codepoint { codepoint: 0xA4AF, name: "YI RADICAL VUR", aliases: &[] },
        Codepoint { codepoint: 0xA4B0, name: "YI RADICAL SHY", aliases: &[] },
        Codepoint { codepoint: 0xA4B1, name: "YI RADICAL VEP", aliases: &[] },
        Codepoint { codepoint: 0xA4B2, name: "YI RADICAL ZA", aliases: &[] },
        Codepoint { codepoint: 0xA4B3, name: "YI RADICAL JO", aliases: &[] },
        Codepoint { codepoint: 0xA4B4, name: "YI RADICAL NZUP", aliases: &[] },
        Codepoint { codepoint: 0xA4B5, name: "YI RADICAL JJY", aliases: &[] },
        Codepoint { codepoint: 0xA4B6, name: "YI RADICAL GOT", aliases: &[] },
        Codepoint { codepoint: 0xA4B7, name: "YI RADICAL JJIE", aliases: &[] },
        Codepoint { codepoint: 0xA4B8, name: "YI RADICAL WO", aliases: &[] },
        Codepoint { codepoint: 0xA4B9, name: "YI RADICAL DU", aliases: &[] },
        Codepoint { codepoint: 0xA4BA, name: "YI RADICAL SHUR", aliases: &[] },
        Codepoint { codepoint: 0xA4BB, name: "YI RADICAL LIE", aliases: &[] },
        Codepoint { codepoint: 0xA4BC, name: "YI RADICAL CY", aliases: &[] },
        Codepoint { codepoint: 0xA4BD, name: "YI RADICAL CUOP", aliases: &[] },
        Codepoint { codepoint: 0xA4BE, name: "YI RADICAL CIP", aliases: &[] },
        Codepoint { codepoint: 0xA4BF, name: "YI RADICAL HXOP", aliases: &[] },
        Codepoint { codepoint: 0xA4C0, name: "YI RADICAL SHAT", aliases: &[] },
        Codepoint { codepoint: 0xA4C1, name: "YI RADICAL ZUR", aliases: &[] },
        Codepoint { codepoint: 0xA4C2, name: "YI RADICAL SHOP", aliases: &[] },
        Codepoint { codepoint: 0xA4C3, name: "YI RADICAL CHE", aliases: &[] },
        Codepoint { codepoint: 0xA4C4, name: "YI RADICAL ZZIET", aliases: &[] },
        Codepoint { codepoint: 0xA4C5, name: "YI RADICAL NBIE", aliases: &[] },
        Codepoint { codepoint: 0xA4C6, name: "YI RADICAL KE", aliases: &[] },
    ];
    assert(v@ =~= codepoint_table_337());
    v
}

pub open spec fn codepoint_table_338() -> Seq<Codepoint> {
    seq![
        Codepoint { codepoint: 0xA4D0, name: "LISU LETTER BA", aliases: &[] },
        Codepoint { codepoint: 0xA4D1, name: "LISU LETTER PA", aliases: &[] },
        Codepoint { codepoint: 0xA4D2, name: "LISU LETTER PHA", aliases: &[] },
        Codepoint { codepoint: 0xA4D3, name: "LISU LETTER DA", aliases: &[] },
        Codepoint { codepoint: 0xA4D4, name: "LISU LETTER TA", aliases: &[] },
        Codepoint { codepoint: 0xA4D5, name: "LISU LETTER THA", aliases: &[] },
        Codepoint { codepoint: 0xA4D6, name: "LISU LETTER GA", aliases: &[] },
        Codepoint { codepoint: 0xA4D7, name: "LISU LETTER KA", aliases: &[] },
        Codepoint { codepoint: 0xA4D8, name: "LISU LETTER KHA", aliases: &[] },
        Codepoint { codepoint: 0xA4D9, name: "LISU LETTER JA", aliases: &[] },
        Codepoint { codepoint: 0xA4DA, name: "LISU LETTER CA", aliases: &[] },
        Codepoint { codepoint: 0xA4DB, name: "LISU LETTER CHA", aliases: &[] },
        Codepoint { codepoint: 0xA4DC, name: "LISU LETTER DZA", aliases: &[] },
        Codepoint { codepoint: 0xA4DD, name: "LISU LETTER TSA", aliases: &[] },
        Codepoint { codepoint: 0xA4DE, name: "LISU LETTER TSHA", aliases: &[] },
        Codepoint { codepoint: 0xA4DF, name: "LISU LETTER MA", aliases: &[] },
        Codepoint { codepoint: 0xA4E0, name: "LISU LETTER NA", aliases: &[] },
        Codepoint { codepoint: 0xA4E1, name: "LISU LETTER LA", aliases: &[] },
        Codepoint { codepoint: 0xA4E2, name: "LISU LETTER SA", aliases: &[] },
        Codepoint { codepoint: 0xA4E3, name: "LISU LETTER ZHA", aliases: &[] },
        Codepoint { codepoint: 0xA4E4, name: "LISU LETTER ZA", aliases: &[] },
        Codepoint { codepoint: 0xA4E5, name: "LISU LETTER NGA", aliases: &[] },
        Codepoint { codepoint: 0xA4E6, name: "LISU LETTER HA", aliases: &[] },
        Codepoint { codepoint: 0xA4E7, name: "LISU LETTER XA", aliases: &[] },
        Codepoint { codepoint: 0xA4E8, name: "LISU LETTER HHA", aliases: &[] },
        Codepoint { codepoint: 0xA4E9, name: "LISU LETTER FA", aliases: &[] },
        Codepoint { codepoint: 0xA4EA, name: "LISU LETTER WA", aliases: &[] },
        Codepoint { codepoint: 0xA4EB, name: "LISU LETTER SHA", aliases: &[] },
        Codepoint { codepoint: 0xA4EC, name: "LISU LETTER YA", aliases: &[] },
        Codepoint { codepoint: 0xA4ED, name: "LISU LETTER GHA", aliases: &[] },
        Codepoint { codepoint: 0xA4EE, name: "LISU LETTER A", aliases: &[] },
        Codepoint { codepoint: 0xA4EF, name: "LISU LETTER AE", aliases: &[] },
        Codepoint { codepoint: 0xA4F0, name: "LISU LETTER E", aliases: &[] },
        Codepoint { codepoint: 0xA4F1, name: "LISU LETTER EU", aliases: &[] },
        Codepoint { codepoint: 0xA4F2, name: "LISU LETTER I", aliases: &[] },
        Codepoint { codepoint: 0xA4F3, name: "LISU LETTER O", aliases: &[] },
        Codepoint { codepoint: 0xA4F4, name: "LISU LETTER U", aliases: &[] },
        Codepoint { codepoint: 0xA4F5, name: "LISU LETTER UE", aliases: &[] },
        Codepoint { codepoint: 0xA4F6, name: "LISU LETTER UH", aliases: &[] },
        Codepoint { codepoint: 0xA4F7, name: "LISU LETTER OE", aliases: &[] },
    ]
}

fn all_codepoints_338() -> (v: Vec<Codepoint>)
    ensures
        v@ == codepoint_table_338(),
{
    let v = vec![
        Codepoint { codepoint: 0xA4D0, name: "LISU LETTER BA", aliases: &[] },
        Codepoint { codepoint: 0xA4D1, name: "LISU LETTER PA", aliases: &[] },
        Codepoint { codepoint: 0xA4D2, name: "LISU LETTER PHA", aliases: &[] },
        Codepoint { codepoint: 0xA4D3, name: "LISU LETTER DA", aliases: &[] },
        Codepoint { codepoint: 0xA4D4, name: "LISU LETTER TA", aliases: &[] },
        Codepoint { codepoint: 0xA4D5, name: "LISU LETTER THA", aliases: &[] },
        Codepoint { codepoint: 0xA4D6, name: "LISU LETTER GA", aliases: &[] },
        Codepoint { codepoint: 0xA4D7, name: "LISU LETTER KA", aliases: &[] },
        Codepoint { codepoint: 0xA4D8, name: "LISU LETTER KHA", aliases: &[] },
        Codepoint { codepoint: 0xA4D9, name: "LISU LETTER JA", aliases: &[] },
        Codepoint { codepoint: 0xA4DA, name: "LISU LETTER CA", aliases: &[] },
        Codepoint { codepoint: 0xA4DB, name: "LISU LETTER CHA", aliases: &[] },
        Codepoint { codepoint: 0xA4DC, name: "LISU LETTER DZA", aliases: &[] },
        Codepoint { codepoint: 0xA4DD, name: "LISU LETTER TSA", aliases: &[] },
        Codepoint { codepoint: 0xA4DE, name: "LISU LETTER TSHA", aliases: &[] },
        Codepoint { codepoint: 0xA4DF, name: "LISU LETTER MA", aliases: &[] },
        Codepoint { codepoint: 0xA4E0, name: "LISU LETTER NA", aliases: &[] },
        Codepoint { codepoint: 0xA4E1, name: "LISU LETTER LA", aliases: &[] },
        Codepoint { codepoint: 0xA4E2, name: "LISU LETTER SA", aliases: &[] },
        Codepoint { codepoint: 0xA4E3, name: "LISU LETTER ZHA", aliases: &[] },
        Codepoint { codepoint: 0xA4E4, name: "LISU LETTER ZA", aliases: &[] },
        Codepoint { codepoint: 0xA4E5, name: "LISU LETTER NGA", aliases: &[] },
        Codepoint { codepoint: 0xA4E6, name: "LISU LETTER HA", aliases: &[] },
        Codepoint { codepoint: 0xA4E7, name: "LISU LETTER XA", aliases: &[] },
        Codepoint { codepoint: 0xA4E8, name: "LISU LETTER HHA", aliases: &[] },
        Codepoint { codepoint: 0xA4E9, name: "LISU LETTER FA", aliases: &[] },
        Codepoint { codepoint: 0xA4EA, name: "LISU LETTER WA", aliases: &[] },
        Codepoint { codepoint: 0xA4EB, name: "LISU LETTER SHA", aliases: &[] },
        Codepoint { codepoint: 0xA4EC, name: "LISU LETTER YA", aliases: &[] },
        Codepoint { codepoint: 0xA4ED, name: "LISU LETTER GHA", aliases: &[] },
        Codepoint { codepoint: 0xA4EE, name: "LISU LETTER A", aliases: &[] },
        Codepoint { codepoint: 0xA4EF, name: "LISU LETTER AE", aliases: &[] },
        Codepoint { codepoint: 0xA4F0, name: "LISU LETTER E", aliases: &[] },
        Codepoint { codepoint: 0xA4F1, name: "LISU LETTER EU", aliases: &[] },
        Codepoint { codepoint: 0xA4F2, name: "LISU LETTER I", aliases: &[] },
        Codepoint { codepoint: 0xA4F3, name: "LISU LETTER O", aliases: &[] },
        Codepoint { codepoint: 0xA4F4, name: "LISU LETTER U", aliases: &[] },
        Codepoint { codepoint: 0xA4F5, name: "LISU LETTER UE", aliases: &[] },
        Codepoint { codepoint: 0xA4F6, name: "LISU LETTER UH", aliases: &[] },
        Codepoint { codepoint: 0xA4F7, name: "LISU LETTER OE", aliases: &[] },
    ];
    assert(v@ =~= codepoint_table_338());
    v
}

pub open spec fn codepoint_table_339() -> Seq<Codepoint> {
    seq![
        Codepoint { codepoint: 0xA4F8, name: "LISU LETTER TONE MYA TI", aliases: &[] },
        Codepoint { codepoint: 0xA4F9, name: "LISU LETTER TONE NA PO", aliases: &[] },
        Codepoint { codepoint: 0xA4FA, name: "LISU LETTER TONE MYA CYA", aliases: &[] },
        Codepoint { codepoint: 0xA4FB, name: "LISU LETTER TONE MYA BO", aliases: &[] },
        Codepoint { codepoint: 0xA4FC, name: "LISU LETTER TONE MYA NA", aliases: &[] },
        Codepoint { codepoint: 0xA4FD, name: "LISU LETTER TONE MYA JEU", aliases: &[] },
        Codepoint { codepoint: 0xA4FE, name: "LISU PUNCTUATION COMMA", aliases: &[] },
        Codepoint { codepoint: 0xA4FF, name: "LISU PUNCTUATION FULL STOP", aliases: &[] },
        Codepoint { codepoint: 0xA500, name: "VAI SYLLABLE EE", aliases: &[] },
        Codepoint { codepoint: 0xA501, name: "VAI SYLLABLE EEN", aliases: &[] },
        Codepoint { codepoint: 0xA502, name: "VAI SYLLABLE HEE", aliases: &[] },
        Codepoint { codepoint: 0xA503, name: "VAI SYLLABLE WEE", aliases: &[] },
        Codepoint { codepoint: 0xA504, name: "VAI SYLLABLE WEEN", aliases: &[] },
        Codepoint { codepoint: 0xA505, name: "VAI SYLLABLE PEE", aliases: &[] },
        Codepoint { codepoint: 0xA506, name: "VAI SYLLABLE BHEE", aliases: &[] },
        Codepoint { codepoint: 0xA507, name: "VAI SYLLABLE BEE", aliases: &[] },
        Codepoint { codepoint: 0xA508, name: "VAI SYLLABLE MBEE", aliases: &[] },
        Codepoint { codepoint: 0xA509, name: "VAI SYLLABLE KPEE", aliases: &[] },
        Codepoint { codepoint: 0xA50A, name: "VAI SYLLABLE MGBEE", aliases: &[] },
        Codepoint { codepoint: 0xA50B, name: "VAI SYLLABLE GBEE", aliases: &[] },
        Codepoint { codepoint: 0xA50C, name: "VAI SYLLABLE FEE", aliases: &[] },
        Codepoint { codepoint: 0xA50D, name: "VAI SYLLABLE VEE", aliases: &[] },
        Codepoint { codepoint: 0xA50E, name: "VAI SYLLABLE TEE", aliases: &[] },
        Codepoint { codepoint: 0xA50F, name: "VAI SYLLABLE THEE", aliases: &[] },
        Codepoint { codepoint: 0xA510, name: "VAI SYLLABLE DHEE", aliases: &[] },
        Codepoint { codepoint: 0xA511, name: "VAI SYLLABLE DHHEE", aliases: &[] },
        Codepoint { codepoint: 0xA512, name: "VAI SYLLABLE LEE", aliases: &[] },
        Codepoint { codepoint: 0xA513, name: "VAI SYLLABLE REE", aliases: &[] },
        Codepoint { codepoint: 0xA514, name: "VAI SYLLABLE DEE", aliases: &[] },
        Codepoint { codepoint: 0xA515, name: "VAI SYLLABLE NDEE", aliases: &[] },
        Codepoint { codepoint: 0xA516, name: "VAI SYLLABLE SEE", aliases: &[] },
        Codepoint { codepoint: 0xA517, name: "VAI SYLLABLE SHEE", aliases: &[] },
        Codepoint { codepoint: 0xA518, name: "VAI SYLLABLE ZEE", aliases: &[] },
        Codepoint { codepoint: 0xA519, name: "VAI SYLLABLE ZHEE", aliases: &[] },
        Codepoint { codepoint: 0xA51A, name: "VAI SYLLABLE CEE", aliases: &[] },
        Codepoint { codepoint: 0xA51B, name: "VAI SYLLABLE JEE", aliases: &[] },
        Codepoint { codepoint: 0xA51C, name: "VAI SYLLABLE NJEE", aliases: &[] },
        Codepoint { codepoint: 0xA51D, name: "VAI SYLLABLE YEE", aliases: &[] },
        Codepoint { codepoint: 0xA51E, name: "VAI SYLLABLE KEE", aliases: &[] },
        Codepoint { codepoint: 0xA51F, name: "VAI SYLLABLE NGGEE", aliases: &[] },
    ]
}

fn all_codepoints_339() -> (v: Vec<Codepoint>)
    ensures
        v@ == codepoint_table_339(),
{
    let v = vec![
        Codepoint { codepoint: 0xA4F8, name: "LISU LETTER TONE MYA TI", aliases: &[] },
        Codepoint { codepoint: 0xA4F9, name: "LISU LETTER TONE NA PO", aliases: &[] },
        Codepoint { codepoint: 0xA4FA, name: "LISU LETTER TONE MYA CYA", aliases: &[] },
        Codepoint { codepoint: 0xA4FB, name: "LISU LETTER TONE MYA BO", aliases: &[] },
        Codepoint { codepoint: 0xA4FC, name: "LISU LETTER TONE MYA NA", aliases: &[] },
        Codepoint { codepoint: 0xA4FD, name: "LISU LETTER TONE MYA JEU", aliases: &[] },
        Codepoint { codepoint: 0xA4FE, name: "LISU PUNCTUATION COMMA", aliases: &[] },
        Codepoint { codepoint: 0xA4FF, name: "LISU PUNCTUATION FULL STOP", aliases: &[] },
        Codepoint { codepoint: 0xA500, name: "VAI SYLLABLE EE", aliases: &[] },
        Codepoint { codepoint: 0xA501, name: "VAI SYLLABLE EEN", aliases: &[] },
        Codepoint { codepoint: 0xA502, name: "VAI SYLLABLE HEE", aliases: &[] },
        Codepoint { codepoint: 0xA503, name: "VAI SYLLABLE WEE", aliases: &[] },
        Codepoint { codepoint: 0xA504, name: "VAI SYLLABLE WEEN", aliases: &[] },
        Codepoint { codepoint: 0xA505, name: "VAI SYLLABLE PEE", aliases: &[] },
        Codepoint { codepoint: 0xA506, name: "VAI SYLLABLE BHEE", aliases: &[] },
        Codepoint { codepoint: 0xA507, name: "VAI SYLLABLE BEE", aliases: &[] },
        Codepoint { codepoint: 0xA508, name: "VAI SYLLABLE MBEE", aliases: &[] },
        Codepoint { codepoint: 0xA509, name: "VAI SYLLABLE KPEE", aliases: &[] },
        Codepoint { codepoint: 0xA50A, name: "VAI SYLLABLE MGBEE", aliases: &[] },
        Codepoint { codepoint: 0xA50B, name: "VAI SYLLABLE GBEE", aliases: &[] },
        Codepoint { codepoint: 0xA50C, name: "VAI SYLLABLE FEE", aliases: &[] },
        Codepoint { codepoint: 0xA50D, name: "VAI SYLLABLE VEE", aliases: &[] },
        Codepoint { codepoint: 0xA50E, name: "VAI SYLLABLE TEE", aliases: &[] },
        Codepoint { codepoint: 0xA50F, name: "VAI SYLLABLE THEE", aliases: &[] },
        Codepoint { codepoint: 0xA510, name: "VAI SYLLABLE DHEE", aliases: &[] },
        Codepoint { codepoint: 0xA511, name: "VAI SYLLABLE DHHEE", aliases: &[] },
        Codepoint { codepoint: 0xA512, name: "VAI SYLLABLE LEE", aliases: &[] },
        Codepoint { codepoint: 0xA513, name: "VAI SYLLABLE REE", aliases: &[] },
        Codepoint { codepoint: 0xA514, name: "VAI SYLLABLE DEE", aliases: &[] },
        Codepoint { codepoint: 0xA515, name: "VAI SYLLABLE NDEE", aliases: &[] },
        Codepoint { codepoint: 0xA516, name: "VAI SYLLABLE SEE", aliases: &[] },
        Codepoint { codepoint: 0xA517, name: "VAI SYLLABLE SHEE", aliases: &[] },
        Codepoint { codepoint: 0xA518, name: "VAI SYLLABLE ZEE", aliases: &[] },
        Codepoint { codepoint: 0xA519, name: "VAI SYLLABLE ZHEE", aliases: &[] },
        Codepoint { codepoint: 0xA51A, name: "VAI SYLLABLE CEE", aliases: &[] },
        Codepoint { codepoint: 0xA51B, name: "VAI SYLLABLE JEE", aliases: &[] },
        Codepoint { codepoint: 0xA51C, name: "VAI SYLLABLE NJEE", aliases: &[] },
        Codepoint { codepoint: 0xA51D, name: "VAI SYLLABLE YEE", aliases: &[] },
        Codepoint { codepoint: 0xA51E, name: "VAI SYLLABLE KEE", aliases: &[] },
        Codepoint { codepoint: 0xA51F, name: "VAI SYLLABLE NGGEE", aliases: &[] },
    ];
    assert(v@ =~= codepoint_table_339());
    v
}

/// The entries from position 12800 of the table, 800 at most.
pub open spec fn codepoint_group_16() -> Seq<Codepoint> {
    codepoint_table_320() + codepoint_table_321() + codepoint_table_322() + codepoint_table_323() + codepoint_table_324() + codepoint_table_325() + codepoint_table_326() + codepoint_table_327() + codepoint_table_328() + codepoint_table_329() + codepoint_table_330() + codepoint_table_331() + codepoint_table_332() + codepoint_table_333() + codepoint_table_334() + codepoint_table_335() + codepoint_table_336() + codepoint_table_337() + codepoint_table_338() + codepoint_table_339()
}

pub fn all_codepoints_group_16() -> (v: Vec<Codepoint>)
    ensures
        v@ == codepoint_group_16(),
{
    let mut v = all_codepoints_320();
    let mut part = all_codepoints_321();
    v.append(&mut part);
    let mut part = all_codepoints_322();
    v.append(&mut part);
    let mut part = all_codepoints_323();
    v.append(&mut part);
    let mut part = all_codepoints_324();
    v.append(&mut part);
    let mut part = all_codepoints_325();
    v.append(&mut part);
    let mut part = all_codepoints_326();
    v.append(&mut part);
    let mut part = all_codepoints_327();
    v.append(&mut part);
    let mut part = all_codepoints_328();
    v.append(&mut part);
    let mut part = all_codepoints_329();
    v.append(&mut part);
    let mut part = all_codepoints_330();
    v.append(&mut part);
    let mut part = all_codepoints_331();
    v.append(&mut part);
    let mut part = all_codepoints_332();
    v.append(&mut part);
    let mut part = all_codepoints_333();
    v.append(&mut part);
    let mut part = all_codepoints_334();
    v.append(&mut part);
    let mut part = all_codepoints_335();
    v.append(&mut part);
    let mut part = all_codepoints_336();
    v.append(&mut part);
    let mut part = all_codepoints_337();
    v.append(&mut part);
    let mut part = all_codepoints_338();
    v.append(&mut part);
    let mut part = all_codepoints_339();
    v.append(&mut part);
    v
}

pub open spec fn codepoint_table_340() -> Seq<Codepoint> {
    seq![
        Codepoint { codepoint: 0xA520, name: "VAI SYLLABLE GEE", aliases: &[] },
        Codepoint { codepoint: 0xA521, name: "VAI SYLLABLE MEE", aliases: &[] },
        Codepoint { codepoint: 0xA522, name: "VAI SYLLABLE NEE", aliases: &[] },
        Codepoint { codepoint: 0xA523, name: "VAI SYLLABLE NYEE", aliases: &[] },
        Codepoint { codepoint: 0xA524, name: "VAI SYLLABLE I", aliases: &[] },
        Codepoint { codepoint: 0xA525, name: "VAI SYLLABLE IN", aliases: &[] },
        Codepoint { codepoint: 0xA526, name: "VAI SYLLABLE HI", aliases: &[] },
        Codepoint { codepoint: 0xA527, name: "VAI SYLLABLE HIN", aliases: &[] },
        Codepoint { codepoint: 0xA528, name: "VAI SYLLABLE WI", aliases: &[] },
        Codepoint { codepoint: 0xA529, name: "VAI SYLLABLE WIN", aliases: &[] },
        Codepoint { codepoint: 0xA52A, name: "VAI SYLLABLE PI", aliases: &[] },
        Codepoint { codepoint: 0xA52B, name: "VAI SYLLABLE BHI", aliases: &[] },
        Codepoint { codepoint: 0xA52C, name: "VAI SYLLABLE BI", aliases: &[] },
        Codepoint { codepoint: 0xA52D, name: "VAI SYLLABLE MBI", aliases: &[] },
        Codepoint { codepoint: 0xA52E, name: "VAI SYLLABLE KPI", aliases: &[] },
        Codepoint { codepoint: 0xA52F, name: "VAI SYLLABLE MGBI", aliases: &[] },
        Codepoint { codepoint: 0xA530, name: "VAI SYLLABLE GBI", aliases: &[] },
        Codepoint { codepoint: 0xA531, name: "VAI SYLLABLE FI", aliases: &[] },
        Codepoint { codepoint: 0xA532, name: "VAI SYLLABLE VI", aliases: &[] },
        Codepoint { codepoint: 0xA533, name: "VAI SYLLABLE TI", aliases: &[] },
        Codepoint { codepoint: 0xA534, name: "VAI SYLLABLE THI", aliases: &[] },
        Codepoint { codepoint: 0xA535, name: "VAI SYLLABLE DHI", aliases: &[] },
        Codepoint { codepoint: 0xA536, name: "VAI SYLLABLE DHHI", aliases: &[] },
        Codepoint { codepoint: 0xA537, name: "VAI SYLLABLE LI", aliases: &[] },
        Codepoint { codepoint: 0xA538, name: "VAI SYLLABLE RI", aliases: &[] },
        Codepoint { codepoint: 0xA539, name: "VAI SYLLABLE DI", aliases: &[] },
        Codepoint { codepoint: 0xA53A, name: "VAI SYLLABLE NDI", aliases: &[] },
        Codepoint { codepoint: 0xA53B, name: "VAI SYLLABLE SI", aliases: &[] },
        Codepoint { codepoint: 0xA53C, name: "VAI SYLLABLE SHI", aliases: &[] },
        Codepoint { codepoint: 0xA53D, name: "VAI SYLLABLE ZI", aliases: &[] },
        Codepoint { codepoint: 0xA53E, name: "VAI SYLLABLE ZHI", aliases: &[] },
        Codepoint { codepoint: 0xA53F, name: "VAI SYLLABLE CI", aliases: &[] },
        Codepoint { codepoint: 0xA540, name: "VAI SYLLABLE JI", aliases: &[] },
        Codepoint { codepoint: 0xA541, name: "VAI SYLLABLE NJI", aliases: &[] },
        Codepoint { codepoint: 0xA542, name: "VAI SYLLABLE YI", aliases: &[] },
        Codepoint { codepoint: 0xA543, name: "VAI SYLLABLE KI", aliases: &[] },
        Codepoint { codepoint: 0xA544, name: "VAI SYLLABLE NGGI", aliases: &[] },
        Codepoint { codepoint: 0xA545, name: "VAI SYLLABLE GI", aliases: &[] },
        Codepoint { codepoint: 0xA546, name: "VAI SYLLABLE MI", aliases: &[] },
        Codepoint { codepoint: 0xA547, name: "VAI SYLLABLE NI", aliases: &[] },
    ]
}

fn all_codepoints_340() -> (v: Vec<Codepoint>)
    ensures
        v@ == codepoint_table_340(),
{
    let v = vec![
        Codepoint { codepoint: 0xA520, name: "VAI SYLLABLE GEE", aliases: &[] },
        Codepoint { codepoint: 0xA521, name: "VAI SYLLABLE MEE", aliases: &[] },
        Codepoint { codepoint: 0xA522, name: "VAI SYLLABLE NEE", aliases: &[] },
        Codepoint { codepoint: 0xA523, name: "VAI SYLLABLE NYEE", aliases: &[] },
        Codepoint { codepoint: 0xA524, name: "VAI SYLLABLE I", aliases: &[] },
        Codepoint { codepoint: 0xA525, name: "VAI SYLLABLE IN", aliases: &[] },
        Codepoint { codepoint: 0xA526, name: "VAI SYLLABLE HI", aliases: &[] },
        Codepoint { codepoint: 0xA527, name: "VAI SYLLABLE HIN", aliases: &[] },
        Codepoint { codepoint: 0xA528, name: "VAI SYLLABLE WI", aliases: &[] },
        Codepoint { codepoint: 0xA529, name: "VAI SYLLABLE WIN", aliases: &[] },
        Codepoint { codepoint: 0xA52A, name: "VAI SYLLABLE PI", aliases: &[] },
        Codepoint { codepoint: 0xA52B, name: "VAI SYLLABLE BHI", aliases: &[] },
        Codepoint { codepoint: 0xA52C, name: "VAI SYLLABLE BI", aliases: &[] },
        Codepoint { codepoint: 0xA52D, name: "VAI SYLLABLE MBI", aliases: &[] },
        Codepoint { codepoint: 0xA52E, name: "VAI SYLLABLE KPI", aliases: &[] },
        Codepoint { codepoint: 0xA52F, name: "VAI SYLLABLE MGBI", aliases: &[] },
        Codepoint { codepoint: 0xA530, name: "VAI SYLLABLE GBI", aliases: &[] },
        Codepoint { codepoint: 0xA531, name: "VAI SYLLABLE FI", aliases: &[] },
        Codepoint { codepoint: 0xA532, name: "VAI SYLLABLE VI", aliases: &[] },
        Codepoint { codepoint: 0xA533, name: "VAI SYLLABLE TI", aliases: &[] },
        Codepoint { codepoint: 0xA534, name: "VAI SYLLABLE THI", aliases: &[] },
        Codepoint { codepoint: 0xA535, name: "VAI SYLLABLE DHI", aliases: &[] },
        Codepoint { codepoint: 0xA536, name: "VAI SYLLABLE DHHI", aliases: &[] },
        Codepoint { codepoint: 0xA537, name: "VAI SYLLABLE LI", aliases: &[] },
        Codepoint { codepoint: 0xA538, name: "VAI SYLLABLE RI", aliases: &[] },
        Codepoint { codepoint: 0xA539, name: "VAI SYLLABLE DI", aliases: &[] },
        Codepoint { codepoint: 0xA53A, name: "VAI SYLLABLE NDI", aliases: &[] },
        Codepoint { codepoint: 0xA53B, name: "VAI SYLLABLE SI", aliases: &[] },
        Codepoint { codepoint: 0xA53C, name: "VAI SYLLABLE SHI", aliases: &[] },
        Codepoint { codepoint: 0xA53D, name: "VAI SYLLABLE ZI", aliases: &[] },
        Codepoint { codepoint: 0xA53E, name: "VAI SYLLABLE ZHI", aliases: &[] },
        Codepoint { codepoint: 0xA53F, name: "VAI SYLLABLE CI", aliases: &[] },
        Codepoint { codepoint: 0xA540, name: "VAI SYLLABLE JI", aliases: &[] },
        Codepoint { codepoint: 0xA541, name: "VAI SYLLABLE NJI", aliases: &[] },
        Codepoint { codepoint: 0xA542, name: "VAI SYLLABLE YI", aliases: &[] },
        Codepoint { codepoint: 0xA543, name: "VAI SYLLABLE KI", aliases: &[] },
        Codepoint { codepoint: 0xA544, name: "VAI SYLLABLE NGGI", aliases: &[] },
        Codepoint { codepoint: 0xA545, name: "VAI SYLLABLE GI", aliases: &[] },
        Codepoint { codepoint: 0xA546, name: "VAI SYLLABLE MI", aliases: &[] },
        Codepoint { codepoint: 0xA547, name: "VAI SYLLABLE NI", aliases: &[] },
    ];
    assert(v@ =~= codepoint_table_340());
    v
}

pub open spec fn codepoint_table_341() -> Seq<Codepoint> {
    seq![
        Codepoint { codepoint: 0xA548, name: "VAI SYLLABLE NYI", aliases: &[] },
        Codepoint { codepoint: 0xA549, name: "VAI SYLLABLE A", aliases: &[] },
        Codepoint { codepoint: 0xA54A, name: "VAI SYLLABLE AN", aliases: &[] },
        Codepoint { codepoint: 0xA54B, name: "VAI SYLLABLE NGAN", aliases: &[] },
        Codepoint { codepoint: 0xA54C, name: "VAI SYLLABLE HA", aliases: &[] },
        Codepoint { codepoint: 0xA54D, name: "VAI SYLLABLE HAN", aliases: &[] },
        Codepoint { codepoint: 0xA54E, name: "VAI SYLLABLE WA", aliases: &[] },
        Codepoint { codepoint: 0xA54F, name: "VAI SYLLABLE WAN", aliases: &[] },
        Codepoint { codepoint: 0xA550, name: "VAI SYLLABLE PA", aliases: &[] },
        Codepoint { codepoint: 0xA551, name: "VAI SYLLABLE BHA", aliases: &[] },
        Codepoint { codepoint: 0xA552, name: "VAI SYLLABLE BA", aliases: &[] },
        Codepoint { codepoint: 0xA553, name: "VAI SYLLABLE MBA", aliases: &[] },
        Codepoint { codepoint: 0xA554, name: "VAI SYLLABLE KPA", aliases: &[] },
        Codepoint { codepoint: 0xA555, name: "VAI SYLLABLE KPAN", aliases: &[] },
        Codepoint { codepoint: 0xA556, name: "VAI SYLLABLE MGBA", aliases: &[] },
        Codepoint { codepoint: 0xA557, name: "VAI SYLLABLE GBA", aliases: &[] },
        Codepoint { codepoint: 0xA558, name: "VAI SYLLABLE FA", aliases: &[] },
        Codepoint { codepoint: 0xA559, name: "VAI SYLLABLE VA", aliases: &[] },
        Codepoint { codepoint: 0xA55A, name: "VAI SYLLABLE TA", aliases: &[] },
        Codepoint { codepoint: 0xA55B, name: "VAI SYLLABLE THA", aliases: &[] },
        Codepoint { codepoint: 0xA55C, name: "VAI SYLLABLE DHA", aliases: &[] },
        Codepoint { codepoint: 0xA55D, name: "VAI SYLLABLE DHHA", aliases: &[] },
        Codepoint { codepoint: 0xA55E, name: "VAI SYLLABLE LA", aliases: &[] },
        Codepoint { codepoint: 0xA55F, name: "VAI SYLLABLE RA", aliases: &[] },
        Codepoint { codepoint: 0xA560, name: "VAI SYLLABLE DA", aliases: &[] },
        Codepoint { codepoint: 0xA561, name: "VAI SYLLABLE NDA", aliases: &[] },
        Codepoint { codepoint: 0xA562, name: "VAI SYLLABLE SA", aliases: &[] },
        Codepoint { codepoint: 0xA563, name: "VAI SYLLABLE SHA", aliases: &[] },
        Codepoint { codepoint: 0xA564, name: "VAI SYLLABLE ZA", aliases: &[] },
        Codepoint { codepoint: 0xA565, name: "VAI SYLLABLE ZHA", aliases: &[] },
        Codepoint { codepoint: 0xA566, name: "VAI SYLLABLE CA", aliases: &[] },
        Codepoint { codepoint: 0xA567, name: "VAI SYLLABLE JA", aliases: &[] },
        Codepoint { codepoint: 0xA568, name: "VAI SYLLABLE NJA", aliases: &[] },
        Codepoint { codepoint: 0xA569, name: "VAI SYLLABLE YA", aliases: &[] },
        Codepoint { codepoint: 0xA56A, name: "VAI SYLLABLE KA", aliases: &[] },
        Codepoint { codepoint: 0xA56B, name: "VAI SYLLABLE KAN", aliases: &[] },
        Codepoint { codepoint: 0xA56C, name: "VAI SYLLABLE NGGA", aliases: &[] },
        Codepoint { codepoint: 0xA56D, name: "VAI SYLLABLE GA", aliases: &[] },
        Codepoint { codepoint: 0xA56E, name: "VAI SYLLABLE MA", aliases: &[] },
        Codepoint { codepoint: 0xA56F, name: "VAI SYLLABLE NA", aliases: &[] },
    ]
}

fn all_codepoints_341() -> (v: Vec<Codepoint>)
    ensures
        v@ == codepoint_table_341(),
{
    let v = vec![
        Codepoint { codepoint: 0xA548, name: "VAI SYLLABLE NYI", aliases: &[] },
        Codepoint { codepoint: 0xA549, name: "VAI SYLLABLE A", aliases: &[] },
        Codepoint { codepoint: 0xA54A, name: "VAI SYLLABLE AN", aliases: &[] },
        Codepoint { codepoint: 0xA54B, name: "VAI SYLLABLE NGAN", aliases: &[] },
        Codepoint { codepoint: 0xA54C, name: "VAI SYLLABLE HA", aliases: &[] },
        Codepoint { codepoint: 0xA54D, name: "VAI SYLLABLE HAN", aliases: &[] },
        Codepoint { codepoint: 0xA54E, name: "VAI SYLLABLE WA", aliases: &[] },
        Codepoint { codepoint: 0xA54F, name: "VAI SYLLABLE WAN", aliases: &[] },
        Codepoint { codepoint: 0xA550, name: "VAI SYLLABLE PA", aliases: &[] },
        Codepoint { codepoint: 0xA551, name: "VAI SYLLABLE BHA", aliases: &[] },
        Codepoint { codepoint: 0xA552, name: "VAI SYLLABLE BA", aliases: &[] },
        Codepoint { codepoint: 0xA553, name: "VAI SYLLABLE MBA", aliases: &[] },
        Codepoint { codepoint: 0xA554, name: "VAI SYLLABLE KPA", aliases: &[] },
        Codepoint { codepoint: 0xA555, name: "VAI SYLLABLE KPAN", aliases: &[] },
        Codepoint { codepoint: 0xA556, name: "VAI SYLLABLE MGBA", aliases: &[] },
        Codepoint { codepoint: 0xA557, name: "VAI SYLLABLE GBA", aliases: &[] },
        Codepoint { codepoint: 0xA558, name: "VAI SYLLABLE FA", aliases: &[] },
        Codepoint { codepoint: 0xA559, name: "VAI SYLLABLE VA", aliases: &[] },
        Codepoint { codepoint: 0xA55A, name: "VAI SYLLABLE TA", aliases: &[] },
        Codepoint { codepoint: 0xA55B, name: "VAI SYLLABLE THA", aliases: &[] },
        Codepoint { codepoint: 0xA55C, name: "VAI SYLLABLE DHA", aliases: &[] },
        Codepoint { codepoint: 0xA55D, name: "VAI SYLLABLE DHHA", aliases: &[] },
        Codepoint { codepoint: 0xA55E, name: "VAI SYLLABLE LA", aliases: &[] },
        Codepoint { codepoint: 0xA55F, name: "VAI SYLLABLE RA", aliases: &[] },
        Codepoint { codepoint: 0xA560, name: "VAI SYLLABLE DA", aliases: &[] },
        Codepoint { codepoint: 0xA561, name: "VAI SYLLABLE NDA", aliases: &[] },
        Codepoint { codepoint: 0xA562, name: "VAI SYLLABLE SA", aliases: &[] },
        Codepoint { codepoint: 0xA563, name: "VAI SYLLABLE SHA", aliases: &[] },
        Codepoint { codepoint: 0xA564, name: "VAI SYLLABLE ZA", aliases: &[] },
        Codepoint { codepoint: 0xA565, name: "VAI SYLLABLE ZHA", aliases: &[] },
        Codepoint { codepoint: 0xA566, name: "VAI SYLLABLE CA", aliases: &[] },
        Codepoint { codepoint: 0xA567, name: "VAI SYLLABLE JA", aliases: &[] },
        Codepoint { codepoint: 0xA568, name: "VAI SYLLABLE NJA", aliases: &[] },
        Codepoint { codepoint: 0xA569, name: "VAI SYLLABLE YA", aliases: &[] },
        Codepoint { codepoint: 0xA56A, name: "VAI SYLLABLE KA", aliases: &[] },
        Codepoint { codepoint: 0xA56B, name: "VAI SYLLABLE KAN", aliases: &[] },
        Codepoint { codepoint: 0xA56C, name: "VAI SYLLABLE NGGA", aliases: &[] },
        Codepoint { codepoint: 0xA56D, name: "VAI SYLLABLE GA", aliases: &[] },
        Codepoint { codepoint: 0xA56E, name: "VAI SYLLABLE MA", aliases: &[] },
        Codepoint { codepoint: 0xA56F, name: "VAI SYLLABLE NA", aliases: &[] },
    ];
    assert(v@ =~= codepoint_table_341());
    v
}

pub open spec fn codepoint_table_342() -> Seq<Codepoint> {
    seq![
        Codepoint { codepoint: 0xA570, name: "VAI SYLLABLE NYA", aliases: &[] },
        Codepoint { codepoint: 0xA571, name: "VAI SYLLABLE OO", aliases: &[] },
        Codepoint { codepoint: 0xA572, name: "VAI SYLLABLE OON", aliases: &[] },
        Codepoint { codepoint: 0xA573, name: "VAI SYLLABLE HOO", aliases: &[] },
        Codepoint { codepoint: 0xA574, name: "VAI SYLLABLE WOO", aliases: &[] },
        Codepoint { codepoint: 0xA575, name: "VAI SYLLABLE WOON", aliases: &[] },
        Codepoint { codepoint: 0xA576, name: "VAI SYLLABLE POO", aliases: &[] },
        Codepoint { codepoint: 0xA577, name: "VAI SYLLABLE BHOO", aliases: &[] },
        Codepoint { codepoint: 0xA578, name: "VAI SYLLABLE BOO", aliases: &[] },
        Codepoint { codepoint: 0xA579, name: "VAI SYLLABLE MBOO", aliases: &[] },
        Codepoint { codepoint: 0xA57A, name: "VAI SYLLABLE KPOO", aliases: &[] },
        Codepoint { codepoint: 0xA57B, name: "VAI SYLLABLE MGBOO", aliases: &[] },
        Codepoint { codepoint: 0xA57C, name: "VAI SYLLABLE GBOO", aliases: &[] },
        Codepoint { codepoint: 0xA57D, name: "VAI SYLLABLE FOO", aliases: &[] },
        Codepoint { codepoint: 0xA57E, name: "VAI SYLLABLE VOO", aliases: &[] },
        Codepoint { codepoint: 0xA57F, name: "VAI SYLLABLE TOO", aliases: &[] },
        Codepoint { codepoint: 0xA580, name: "VAI SYLLABLE THOO", aliases: &[] },
        Codepoint { codepoint: 0xA581, name: "VAI SYLLABLE DHOO", aliases: &[] },
        Codepoint { codepoint: 0xA582, name: "VAI SYLLABLE DHHOO", aliases: &[] },
        Codepoint { codepoint: 0xA583, name: "VAI SYLLABLE LOO", aliases: &[] },
        Codepoint { codepoint: 0xA584, name: "VAI SYLLABLE ROO", aliases: &[] },
        Codepoint { codepoint: 0xA585, name: "VAI SYLLABLE DOO", aliases: &[] },
        Codepoint { codepoint: 0xA586, name: "VAI SYLLABLE NDOO", aliases: &[] },
        Codepoint { codepoint: 0xA587, name: "VAI SYLLABLE SOO", aliases: &[] },
        Codepoint { codepoint: 0xA588, name: "VAI SYLLABLE SHOO", aliases: &[] },
        Codepoint { codepoint: 0xA589, name: "VAI SYLLABLE ZOO", aliases: &[] },
        Codepoint { codepoint: 0xA58A, name: "VAI SYLLABLE ZHOO", aliases: &[] },
        Codepoint { codepoint: 0xA58B, name: "VAI SYLLABLE COO", aliases: &[] },
        Codepoint { codepoint: 0xA58C, name: "VAI SYLLABLE JOO", aliases: &[] },
        Codepoint { codepoint: 0xA58D, name: "VAI SYLLABLE NJOO", aliases: &[] },
        Codepoint { codepoint: 0xA58E, name: "VAI SYLLABLE YOO", aliases: &[] },
        Codepoint { codepoint: 0xA58F, name: "VAI SYLLABLE KOO", aliases: &[] },
        Codepoint { codepoint: 0xA590, name: "VAI SYLLABLE NGGOO", aliases: &[] },
        Codepoint { codepoint: 0xA591, name: "VAI SYLLABLE GOO", aliases: &[] },
        Codepoint { codepoint: 0xA592, name: "VAI SYLLABLE MOO", aliases: &[] },
        Codepoint { codepoint: 0xA593, name: "VAI SYLLABLE NOO", aliases: &[] },
        Codepoint { codepoint: 0xA594, name: "VAI SYLLABLE NYOO", aliases: &[] },
        Codepoint { codepoint: 0xA595, name: "VAI SYLLABLE U", aliases: &[] },
        Codepoint { codepoint: 0xA596, name: "VAI SYLLABLE UN", aliases: &[] },
        Codepoint { codepoint: 0xA597, name: "VAI SYLLABLE HU", aliases: &[] },
    ]
}

fn all_codepoints_342() -> (v: Vec<Codepoint>)
    ensures
        v@ == codepoint_table_342(),
{
    let v = vec![
        Codepoint { codepoint: 0xA570, name: "VAI SYLLABLE NYA", aliases: &[] },
        Codepoint { codepoint: 0xA571, name: "VAI SYLLABLE OO", aliases: &[] },
        Codepoint { codepoint: 0xA572, name: "VAI SYLLABLE OON", aliases: &[] },
        Codepoint { codepoint: 0xA573, name: "VAI SYLLABLE HOO", aliases: &[] },
        Codepoint { codepoint: 0xA574, name: "VAI SYLLABLE WOO", aliases: &[] },
        Codepoint { codepoint: 0xA575, name: "VAI SYLLABLE WOON", aliases: &[] },
        Codepoint { codepoint: 0xA576, name: "VAI SYLLABLE POO", aliases: &[] },
        Codepoint { codepoint: 0xA577, name: "VAI SYLLABLE BHOO", aliases: &[] },
        Codepoint { codepoint: 0xA578, name: "VAI SYLLABLE BOO", aliases: &[] },
        Codepoint { codepoint: 0xA579, name: "VAI SYLLABLE MBOO", aliases: &[] },
        Codepoint { codepoint: 0xA57A, name: "VAI SYLLABLE KPOO", aliases: &[] },
        Codepoint { codepoint: 0xA57B, name: "VAI SYLLABLE MGBOO", aliases: &[] },
        Codepoint { codepoint: 0xA57C, name: "VAI SYLLABLE GBOO", aliases: &[] },
        Codepoint { codepoint: 0xA57D, name: "VAI SYLLABLE FOO", aliases: &[] },
        Codepoint { codepoint: 0xA57E, name: "VAI SYLLABLE VOO", aliases: &[] },
        Codepoint { codepoint: 0xA57F, name: "VAI SYLLABLE TOO", aliases: &[] },
        Codepoint { codepoint: 0xA580, name: "VAI SYLLABLE THOO", aliases: &[] },
        Codepoint { codepoint: 0xA581, name: "VAI SYLLABLE DHOO", aliases: &[] },
        Codepoint { codepoint: 0xA582, name: "VAI SYLLABLE DHHOO", aliases: &[] },
        Codepoint { codepoint: 0xA583, name: "VAI SYLLABLE LOO", aliases: &[] },
        Codepoint { codepoint: 0xA584, name: "VAI SYLLABLE ROO", aliases: &[] },
        Codepoint { codepoint: 0xA585, name: "VAI SYLLABLE DOO", aliases: &[] },
        Codepoint { codepoint: 0xA586, name: "VAI SYLLABLE NDOO", aliases: &[] },
        Codepoint { codepoint: 0xA587, name: "VAI SYLLABLE SOO", aliases: &[] },
        Codepoint { codepoint: 0xA588, name: "VAI SYLLABLE SHOO", aliases: &[] },
        Codepoint { codepoint: 0xA589, name: "VAI SYLLABLE ZOO", aliases: &[] },
        Codepoint { codepoint: 0xA58A, name: "VAI SYLLABLE ZHOO", aliases: &[] },
        Codepoint { codepoint: 0xA58B, name: "VAI SYLLABLE COO", aliases: &[] },
        Codepoint { codepoint: 0xA58C, name: "VAI SYLLABLE JOO", aliases: &[] },
        Codepoint { codepoint: 0xA58D, name: "VAI SYLLABLE NJOO", aliases: &[] },
        Codepoint { codepoint: 0xA58E, name: "VAI SYLLABLE YOO", aliases: &[] },
        Codepoint { codepoint: 0xA58F, name: "VAI SYLLABLE KOO", aliases: &[] },
        Codepoint { codepoint: 0xA590, name: "VAI SYLLABLE NGGOO", aliases: &[] },
        Codepoint { codepoint: 0xA591, name: "VAI SYLLABLE GOO", aliases: &[] },
        Codepoint { codepoint: 0xA592, name: "VAI SYLLABLE MOO", aliases: &[] },
        Codepoint { codepoint: 0xA593, name: "VAI SYLLABLE NOO", aliases: &[] },
        Codepoint { codepoint: 0xA594, name: "VAI SYLLABLE NYOO", aliases: &[] },
        Codepoint { codepoint: 0xA595, name: "VAI SYLLABLE U", aliases: &[] },
        Codepoint { codepoint: 0xA596, name: "VAI SYLLABLE UN", aliases: &[] },
        Codepoint { codepoint: 0xA597, name: "VAI SYLLABLE HU", aliases: &[] },
    ];
    assert(v@ =~= codepoint_table_342());
    v
}

pub open spec fn codepoint_table_343() -> Seq<Codepoint> {
    seq![
        Codepoint { codepoint: 0xA598, name: "VAI SYLLABLE HUN", aliases: &[] },
        Codepoint { codepoint: 0xA599, name: "VAI SYLLABLE WU", aliases: &[] },
        Codepoint { codepoint: 0xA59A, name: "VAI SYLLABLE WUN", aliases: &[] },
        Codepoint { codepoint: 0xA59B, name: "VAI SYLLABLE PU", aliases: &[] },
        Codepoint { codepoint: 0xA59C, name: "VAI SYLLABLE BHU", aliases: &[] },
        Codepoint { codepoint: 0xA59D, name: "VAI SYLLABLE BU", aliases: &[] },
        Codepoint { codepoint: 0xA59E, name: "VAI SYLLABLE MBU", aliases: &[] },
        Codepoint { codepoint: 0xA59F, name: "VAI SYLLABLE KPU", aliases: &[] },
        Codepoint { codepoint: 0xA5A0, name: "VAI SYLLABLE MGBU", aliases: &[] },
        Codepoint { codepoint: 0xA5A1, name: "VAI SYLLABLE GBU", aliases: &[] },
        Codepoint { codepoint: 0xA5A2, name: "VAI SYLLABLE FU", aliases: &[] },
        Codepoint { codepoint: 0xA5A3, name: "VAI SYLLABLE VU", aliases: &[] },
        Codepoint { codepoint: 0xA5A4, name: "VAI SYLLABLE TU", aliases: &[] },
        Codepoint { codepoint: 0xA5A5, name: "VAI SYLLABLE THU", aliases: &[] },
        Codepoint { codepoint: 0xA5A6, name: "VAI SYLLABLE DHU", aliases: &[] },
        Codepoint { codepoint: 0xA5A7, name: "VAI SYLLABLE DHHU", aliases: &[] },
        Codepoint { codepoint: 0xA5A8, name: "VAI SYLLABLE LU", aliases: &[] },
        Codepoint { codepoint: 0xA5A9, name: "VAI SYLLABLE RU", aliases: &[] },
        Codepoint { codepoint: 0xA5AA, name: "VAI SYLLABLE DU", aliases: &[] },
        Codepoint { codepoint: 0xA5AB, name: "VAI SYLLABLE NDU", aliases: &[] },
        Codepoint { codepoint: 0xA5AC, name: "VAI SYLLABLE SU", aliases: &[] },
        Codepoint { codepoint: 0xA5AD, name: "VAI SYLLABLE SHU", aliases: &[] },
        Codepoint { codepoint: 0xA5AE, name: "VAI SYLLABLE ZU", aliases: &[] },
        Codepoint { codepoint: 0xA5AF, name: "VAI SYLLABLE ZHU", aliases: &[] },
        Codepoint { codepoint: 0xA5B0, name: "VAI SYLLABLE CU", aliases: &[] },
        Codepoint { codepoint: 0xA5B1, name: "VAI SYLLABLE JU", aliases: &[] },
        Codepoint { codepoint: 0xA5B2, name: "VAI SYLLABLE NJU", aliases: &[] },
        Codepoint { codepoint: 0xA5B3, name: "VAI SYLLABLE YU", aliases: &[] },
        Codepoint { codepoint: 0xA5B4, name: "VAI SYLLABLE KU", aliases: &[] },
        Codepoint { codepoint: 0xA5B5, name: "VAI SYLLABLE NGGU", aliases: &[] },
        Codepoint { codepoint: 0xA5B6, name: "VAI SYLLABLE GU", aliases: &[] },
        Codepoint { codepoint: 0xA5B7, name: "VAI SYLLABLE MU", aliases: &[] },
        Codepoint { codepoint: 0xA5B8, name: "VAI SYLLABLE NU", aliases: &[] },
        Codepoint { codepoint: 0xA5B9, name: "VAI SYLLABLE NYU", aliases: &[] },
        Codepoint { codepoint: 0xA5BA, name: "VAI SYLLABLE O", aliases: &[] },
        Codepoint { codepoint: 0xA5BB, name: "VAI SYLLABLE ON", aliases: &[] },
        Codepoint { codepoint: 0xA5BC, name: "VAI SYLLABLE NGON", aliases: &[] },
        Codepoint { codepoint: 0xA5BD, name: "VAI SYLLABLE HO", aliases: &[] },
        Codepoint { codepoint: 0xA5BE, name: "VAI SYLLABLE HON", aliases: &[] },
        Codepoint { codepoint: 0xA5BF, name: "VAI SYLLABLE WO", aliases: &[] },
    ]
}

fn all_codepoints_343() -> (v: Vec<Codepoint>)
    ensures
        v@ == codepoint_table_343(),
{
    let v = vec![
        Codepoint { codepoint: 0xA598, name: "VAI SYLLABLE HUN", aliases: &[] },
        Codepoint { codepoint: 0xA599, name: "VAI SYLLABLE WU", aliases: &[] },
        Codepoint { codepoint: 0xA59A, name: "VAI SYLLABLE WUN", aliases: &[] },
        Codepoint { codepoint: 0xA59B, name: "VAI SYLLABLE PU", aliases: &[] },
        Codepoint { codepoint: 0xA59C, name: "VAI SYLLABLE BHU", aliases: &[] },
        Codepoint { codepoint: 0xA59D, name: "VAI SYLLABLE BU", aliases: &[] },
        Codepoint { codepoint: 0xA59E, name: "VAI SYLLABLE MBU", aliases: &[] },
        Codepoint { codepoint: 0xA59F, name: "VAI SYLLABLE KPU", aliases: &[] },
        Codepoint { codepoint: 0xA5A0, name: "VAI SYLLABLE MGBU", aliases: &[] },
        Codepoint { codepoint: 0xA5A1, name: "VAI SYLLABLE GBU", aliases: &[] },
        Codepoint { codepoint: 0xA5A2, name: "VAI SYLLABLE FU", aliases: &[] },
        Codepoint { codepoint: 0xA5A3, name: "VAI SYLLABLE VU", aliases: &[] },
        Codepoint { codepoint: 0xA5A4, name: "VAI SYLLABLE TU", aliases: &[] },
        Codepoint { codepoint: 0xA5A5, name: "VAI SYLLABLE THU", aliases: &[] },
        Codepoint { codepoint: 0xA5A6, name: "VAI SYLLABLE DHU", aliases: &[] },
        Codepoint { codepoint: 0xA5A7, name: "VAI SYLLABLE DHHU", aliases: &[] },
        Codepoint { codepoint: 0xA5A8, name: "VAI SYLLABLE LU", aliases: &[] },
        Codepoint { codepoint: 0xA5A9, name: "VAI SYLLABLE RU", aliases: &[] },
        Codepoint { codepoint: 0xA5AA, name: "VAI SYLLABLE DU", aliases: &[] },
        Codepoint { codepoint: 0xA5AB, name: "VAI SYLLABLE NDU", aliases: &[] },
        Codepoint { codepoint: 0xA5AC, name: "VAI SYLLABLE SU", aliases: &[] },
        Codepoint { codepoint: 0xA5AD, name: "VAI SYLLABLE SHU", aliases: &[] },
        Codepoint { codepoint: 0xA5AE, name: "VAI SYLLABLE ZU", aliases: &[] },
        Codepoint { codepoint: 0xA5AF, name: "VAI SYLLABLE ZHU", aliases: &[] },
        Codepoint { codepoint: 0xA5B0, name: "VAI SYLLABLE CU", aliases: &[] },
        Codepoint { codepoint: 0xA5B1, name: "VAI SYLLABLE JU", aliases: &[] },
        Codepoint { codepoint: 0xA5B2, name: "VAI SYLLABLE NJU", aliases: &[] },
        Codepoint { codepoint: 0xA5B3, name: "VAI SYLLABLE YU", aliases: &[] },
        Codepoint { codepoint: 0xA5B4, name: "VAI SYLLABLE KU", aliases: &[] },
        Codepoint { codepoint: 0xA5B5, name: "VAI SYLLABLE NGGU", aliases: &[] },
        Codepoint { codepoint: 0xA5B6, name: "VAI SYLLABLE GU", aliases: &[] },
        Codepoint { codepoint: 0xA5B7, name: "VAI SYLLABLE MU", aliases: &[] },
        Codepoint { codepoint: 0xA5B8, name: "VAI SYLLABLE NU", aliases: &[] },
        Codepoint { codepoint: 0xA5B9, name: "VAI SYLLABLE NYU", aliases: &[] },
        Codepoint { codepoint: 0xA5BA, name: "VAI SYLLABLE O", aliases: &[] },
        Codepoint { codepoint: 0xA5BB, name: "VAI SYLLABLE ON", aliases: &[] },
        Codepoint { codepoint: 0xA5BC, name: "VAI SYLLABLE NGON", aliases: &[] },
        Codepoint { codepoint: 0xA5BD, name: "VAI SYLLABLE HO", aliases: &[] },
        Codepoint { codepoint: 0xA5BE, name: "VAI SYLLABLE HON", aliases: &[] },
        Codepoint { codepoint: 0xA5BF, name: "VAI SYLLABLE WO", aliases: &[] },
    ];
    assert(v@ =~= codepoint_table_343());
    v
}

pub open spec fn codepoint_table_344() -> Seq<Codepoint> {
    seq![
        Codepoint { codepoint: 0xA5C0, name: "VAI SYLLABLE WON", aliases: &[] },
        Codepoint { codepoint: 0xA5C1, name: "VAI SYLLABLE PO", aliases: &[] },
        Codepoint { codepoint: 0xA5C2, name: "VAI SYLLABLE BHO", aliases: &[] },
        Codepoint { codepoint: 0xA5C3, name: "VAI SYLLABLE BO", aliases: &[] },
        Codepoint { codepoint: 0xA5C4, name: "VAI SYLLABLE MBO", aliases: &[] },
        Codepoint { codepoint: 0xA5C5, name: "VAI SYLLABLE KPO", aliases: &[] },
        Codepoint { codepoint: 0xA5C6, name: "VAI SYLLABLE MGBO", aliases: &[] },
        Codepoint { codepoint: 0xA5C7, name: "VAI SYLLABLE GBO", aliases: &[] },
        Codepoint { codepoint: 0xA5C8, name: "VAI SYLLABLE GBON", aliases: &[] },
        Codepoint { codepoint: 0xA5C9, name: "VAI SYLLABLE FO", aliases: &[] },
        Codepoint { codepoint: 0xA5CA, name: "VAI SYLLABLE VO", aliases: &[] },
        Codepoint { codepoint: 0xA5CB, name: "VAI SYLLABLE TO", aliases: &[] },
        Codepoint { codepoint: 0xA5CC, name: "VAI SYLLABLE THO", aliases: &[] },
        Codepoint { codepoint: 0xA5CD, name: "VAI SYLLABLE DHO", aliases: &[] },
        Codepoint { codepoint: 0xA5CE, name: "VAI SYLLABLE DHHO", aliases: &[] },
        Codepoint { codepoint: 0xA5CF, name: "VAI SYLLABLE LO", aliases: &[] },
        Codepoint { codepoint: 0xA5D0, name: "VAI SYLLABLE RO", aliases: &[] },
        Codepoint { codepoint: 0xA5D1, name: "VAI SYLLABLE DO", aliases: &[] },
        Codepoint { codepoint: 0xA5D2, name: "VAI SYLLABLE NDO", aliases: &[] },
        Codepoint { codepoint: 0xA5D3, name: "VAI SYLLABLE SO", aliases: &[] },
        Codepoint { codepoint: 0xA5D4, name: "VAI SYLLABLE SHO", aliases: &[] },
        Codepoint { codepoint: 0xA5D5, name: "VAI SYLLABLE ZO", aliases: &[] },
        Codepoint { codepoint: 0xA5D6, name: "VAI SYLLABLE ZHO", aliases: &[] },
        Codepoint { codepoint: 0xA5D7, name: "VAI SYLLABLE CO", aliases: &[] },
        Codepoint { codepoint: 0xA5D8, name: "VAI SYLLABLE JO", aliases: &[] },
        Codepoint { codepoint: 0xA5D9, name: "VAI SYLLABLE NJO", aliases: &[] },
        Codepoint { codepoint: 0xA5DA, name: "VAI SYLLABLE YO", aliases: &[] },
        Codepoint { codepoint: 0xA5DB, name: "VAI SYLLABLE KO", aliases: &[] },
        Codepoint { codepoint: 0xA5DC, name: "VAI SYLLABLE NGGO", aliases: &[] },
        Codepoint { codepoint: 0xA5DD, name: "VAI SYLLABLE GO", aliases: &[] },
        Codepoint { codepoint: 0xA5DE, name: "VAI SYLLABLE MO", aliases: &[] },
        Codepoint { codepoint: 0xA5DF, name: "VAI SYLLABLE NO", aliases: &[] },
        Codepoint { codepoint: 0xA5E0, name: "VAI SYLLABLE NYO", aliases: &[] },
        Codepoint { codepoint: 0xA5E1, name: "VAI SYLLABLE E", aliases: &[] },
        Codepoint { codepoint: 0xA5E2, name: "VAI SYLLABLE EN", aliases: &[] },
        Codepoint { codepoint: 0xA5E3, name: "VAI SYLLABLE NGEN", aliases: &[] },
        Codepoint { codepoint: 0xA5E4, name: "VAI SYLLABLE HE", aliases: &[] },
        Codepoint { codepoint: 0xA5E5, name: "VAI SYLLABLE HEN", aliases: &[] },
        Codepoint { codepoint: 0xA5E6, name: "VAI SYLLABLE WE", aliases: &[] },
        Codepoint { codepoint: 0xA5E7, name: "VAI SYLLABLE WEN", aliases: &[] },
    ]
}

fn all_codepoints_344() -> (v: Vec<Codepoint>)
    ensures
        v@ == codepoint_table_344(),
{
    let v = vec![
        Codepoint { codepoint: 0xA5C0, name: "VAI SYLLABLE WON", aliases: &[] },
        Codepoint { codepoint: 0xA5C1, name: "VAI SYLLABLE PO", aliases: &[] },
        Codepoint { codepoint: 0xA5C2, name: "VAI SYLLABLE BHO", aliases: &[] },
        Codepoint { codepoint: 0xA5C3, name: "VAI SYLLABLE BO", aliases: &[] },
        Codepoint { codepoint: 0xA5C4, name: "VAI SYLLABLE MBO", aliases: &[] },
        Codepoint { codepoint: 0xA5C5, name: "VAI SYLLABLE KPO", aliases: &[] },
        Codepoint { codepoint: 0xA5C6, name: "VAI SYLLABLE MGBO", aliases: &[] },
        Codepoint { codepoint: 0xA5C7, name: "VAI SYLLABLE GBO", aliases: &[] },
        Codepoint { codepoint: 0xA5C8, name: "VAI SYLLABLE GBON", aliases: &[] },
        Codepoint { codepoint: 0xA5C9, name: "VAI SYLLABLE FO", aliases: &[] },
        Codepoint { codepoint: 0xA5CA, name: "VAI SYLLABLE VO", aliases: &[] },
        Codepoint { codepoint: 0xA5CB, name: "VAI SYLLABLE TO", aliases: &[] },
        Codepoint { codepoint: 0xA5CC, name: "VAI SYLLABLE THO", aliases: &[] },
        Codepoint { codepoint: 0xA5CD, name: "VAI SYLLABLE DHO", aliases: &[] },
        Codepoint { codepoint: 0xA5CE, name: "VAI SYLLABLE DHHO", aliases: &[] },
        Codepoint { codepoint: 0xA5CF, name: "VAI SYLLABLE LO", aliases: &[] },
        Codepoint { codepoint: 0xA5D0, name: "VAI SYLLABLE RO", aliases: &[] },
        Codepoint { codepoint: 0xA5D1, name: "VAI SYLLABLE DO", aliases: &[] },
        Codepoint { codepoint: 0xA5D2, name: "VAI SYLLABLE NDO", aliases: &[] },
        Codepoint { codepoint: 0xA5D3, name: "VAI SYLLABLE SO", aliases: &[] },
        Codepoint { codepoint: 0xA5D4, name: "VAI SYLLABLE SHO", aliases: &[] },
        Codepoint { codepoint: 0xA5D5, name: "VAI SYLLABLE ZO", aliases: &[] },
        Codepoint { codepoint: 0xA5D6, name: "VAI SYLLABLE ZHO", aliases: &[] },
        Codepoint { codepoint: 0xA5D7, name: "VAI SYLLABLE CO", aliases: &[] },
        Codepoint { codepoint: 0xA5D8, name: "VAI SYLLABLE JO", aliases: &[] },
        Codepoint { codepoint: 0xA5D9, name: "VAI SYLLABLE NJO", aliases: &[] },
        Codepoint { codepoint: 0xA5DA, name: "VAI SYLLABLE YO", aliases: &[] },
        Codepoint { codepoint: 0xA5DB, name: "VAI SYLLABLE KO", aliases: &[] },
        Codepoint { codepoint: 0xA5DC, name: "VAI SYLLABLE NGGO", aliases: &[] },
        Codepoint { codepoint: 0xA5DD, name: "VAI SYLLABLE GO", aliases: &[] },
        Codepoint { codepoint: 0xA5DE, name: "VAI SYLLABLE MO", aliases: &[] },
        Codepoint { codepoint: 0xA5DF, name: "VAI SYLLABLE NO", aliases: &[] },
        Codepoint { codepoint: 0xA5E0, name: "VAI SYLLABLE NYO", aliases: &[] },
        Codepoint { codepoint: 0xA5E1, name: "VAI SYLLABLE E", aliases: &[] },
        Codepoint { codepoint: 0xA5E2, name: "VAI SYLLABLE EN", aliases: &[] },
        Codepoint { codepoint: 0xA5E3, name: "VAI SYLLABLE NGEN", aliases: &[] },
        Codepoint { codepoint: 0xA5E4, name: "VAI SYLLABLE HE", aliases: &[] },
        Codepoint { codepoint: 0xA5E5, name: "VAI SYLLABLE HEN", aliases: &[] },
        Codepoint { codepoint: 0xA5E6, name: "VAI SYLLABLE WE", aliases: &[] },
        Codepoint { codepoint: 0xA5E7, name: "VAI SYLLABLE WEN", aliases: &[] },
    ];
    assert(v@ =~= codepoint_table_344());
    v
}

pub open spec fn codepoint_table_345() -> Seq<Codepoint> {
    seq![
        Codepoint { codepoint: 0xA5E8, name: "VAI SYLLABLE PE", aliases: &[] },
        Codepoint { codepoint: 0xA5E9, name: "VAI SYLLABLE BHE", aliases: &[] },
        Codepoint { codepoint: 0xA5EA, name: "VAI SYLLABLE BE", aliases: &[] },
        Codepoint { codepoint: 0xA5EB, name: "VAI SYLLABLE MBE", aliases: &[] },
        Codepoint { codepoint: 0xA5EC, name: "VAI SYLLABLE KPE", aliases: &[] },
        Codepoint { codepoint: 0xA5ED, name: "VAI SYLLABLE KPEN", aliases: &[] },
        Codepoint { codepoint: 0xA5EE, name: "VAI SYLLABLE MGBE", aliases: &[] },
        Codepoint { codepoint: 0xA5EF, name: "VAI SYLLABLE GBE", aliases: &[] },
        Codepoint { codepoint: 0xA5F0, name: "VAI SYLLABLE GBEN", aliases: &[] },
        Codepoint { codepoint: 0xA5F1, name: "VAI SYLLABLE FE", aliases: &[] },
        Codepoint { codepoint: 0xA5F2, name: "VAI SYLLABLE VE", aliases: &[] },
        Codepoint { codepoint: 0xA5F3, name: "VAI SYLLABLE TE", aliases: &[] },
        Codepoint { codepoint: 0xA5F4, name: "VAI SYLLABLE THE", aliases: &[] },
        Codepoint { codepoint: 0xA5F5, name: "VAI SYLLABLE DHE", aliases: &[] },
        Codepoint { codepoint: 0xA5F6, name: "VAI SYLLABLE DHHE", aliases: &[] },
        Codepoint { codepoint: 0xA5F7, name: "VAI SYLLABLE LE", aliases: &[] },
        Codepoint { codepoint: 0xA5F8, name: "VAI SYLLABLE RE", aliases: &[] },
        Codepoint { codepoint: 0xA5F9, name: "VAI SYLLABLE DE", aliases: &[] },
        Codepoint { codepoint: 0xA5FA, name: "VAI SYLLABLE NDE", aliases: &[] },
        Codepoint { codepoint: 0xA5FB, name: "VAI SYLLABLE SE", aliases: &[] },
        Codepoint { codepoint: 0xA5FC, name: "VAI SYLLABLE SHE", aliases: &[] },
        Codepoint { codepoint: 0xA5FD, name: "VAI SYLLABLE ZE", aliases: &[] },
        Codepoint { codepoint: 0xA5FE, name: "VAI SYLLABLE ZHE", aliases: &[] },
        Codepoint { codepoint: 0xA5FF, name: "VAI SYLLABLE CE", aliases: &[] },
        Codepoint { codepoint: 0xA600, name: "VAI SYLLABLE JE", aliases: &[] },
        Codepoint { codepoint: 0xA601, name: "VAI SYLLABLE NJE", aliases: &[] },
        Codepoint { codepoint: 0xA602, name: "VAI SYLLABLE YE", aliases: &[] },
        Codepoint { codepoint: 0xA603, name: "VAI SYLLABLE KE", aliases: &[] },
        Codepoint { codepoint: 0xA604, name: "VAI SYLLABLE NGGE", aliases: &[] },
        Codepoint { codepoint: 0xA605, name: "VAI SYLLABLE NGGEN", aliases: &[] },
        Codepoint { codepoint: 0xA606, name: "VAI SYLLABLE GE", aliases: &[] },
        Codepoint { codepoint: 0xA607, name: "VAI SYLLABLE GEN", aliases: &[] },
        Codepoint { codepoint: 0xA608, name: "VAI SYLLABLE ME", aliases: &[] },
        Codepoint { codepoint: 0xA609, name: "VAI SYLLABLE NE", aliases: &[] },
        Codepoint { codepoint: 0xA60A, name: "VAI SYLLABLE NYE", aliases: &[] },
        Codepoint { codepoint: 0xA60B, name: "VAI SYLLABLE NG", aliases: &[] },
        Codepoint { codepoint: 0xA60C, name: "VAI SYLLABLE LENGTHENER", aliases: &[] },
        Codepoint { codepoint: 0xA60D, name: "VAI COMMA", aliases: &[] },
        Codepoint { codepoint: 0xA60E, name: "VAI FULL STOP", aliases: &[] },
        Codepoint { codepoint: 0xA60F, name: "VAI QUESTION MARK", aliases: &[] },
    ]
}

fn all_codepoints_345() -> (v: Vec<Codepoint>)
    ensures
        v@ == codepoint_table_345(),
{
    let v = vec![
        Codepoint { codepoint: 0xA5E8, name: "VAI SYLLABLE PE", aliases: &[] },
        Codepoint { codepoint: 0xA5E9, name: "VAI SYLLABLE BHE", aliases: &[] },
        Codepoint { codepoint: 0xA5EA, name: "VAI SYLLABLE BE", aliases: &[] },
        Codepoint { codepoint: 0xA5EB, name: "VAI SYLLABLE MBE", aliases: &[] },
        Codepoint { codepoint: 0xA5EC, name: "VAI SYLLABLE KPE", aliases: &[] },
        Codepoint { codepoint: 0xA5ED, name: "VAI SYLLABLE KPEN", aliases: &[] },
        Codepoint { codepoint: 0xA5EE, name: "VAI SYLLABLE MGBE", aliases: &[] },
        Codepoint { codepoint: 0xA5EF, name: "VAI SYLLABLE GBE", aliases: &[] },
        Codepoint { codepoint: 0xA5F0, name: "VAI SYLLABLE GBEN", aliases: &[] },
        Codepoint { codepoint: 0xA5F1, name: "VAI SYLLABLE FE", aliases: &[] },
        Codepoint { codepoint: 0xA5F2, name: "VAI SYLLABLE VE", aliases: &[] },
        Codepoint { codepoint: 0xA5F3, name: "VAI SYLLABLE TE", aliases: &[] },
        Codepoint { codepoint: 0xA5F4, name: "VAI SYLLABLE THE", aliases: &[] },
        Codepoint { codepoint: 0xA5F5, name: "VAI SYLLABLE DHE", aliases: &[] },
        Codepoint { codepoint: 0xA5F6, name: "VAI SYLLABLE DHHE", aliases: &[] },
        Codepoint { codepoint: 0xA5F7, name: "VAI SYLLABLE LE", aliases: &[] },
        Codepoint { codepoint: 0xA5F8, name: "VAI SYLLABLE RE", aliases: &[] },
        Codepoint { codepoint: 0xA5F9, name: "VAI SYLLABLE DE", aliases: &[] },
        Codepoint { codepoint: 0xA5FA, name: "VAI SYLLABLE NDE", aliases: &[] },
        Codepoint { codepoint: 0xA5FB, name: "VAI SYLLABLE SE", aliases: &[] },
        Codepoint { codepoint: 0xA5FC, name: "VAI SYLLABLE SHE", aliases: &[] },
        Codepoint { codepoint: 0xA5FD, name: "VAI SYLLABLE ZE", aliases: &[] },
        Codepoint { codepoint: 0xA5FE, name: "VAI SYLLABLE ZHE", aliases: &[] },
        Codepoint { codepoint: 0xA5FF, name: "VAI SYLLABLE CE", aliases: &[] },
        Codepoint { codepoint: 0xA600, name: "VAI SYLLABLE JE", aliases: &[] },
        Codepoint { codepoint: 0xA601, name: "VAI SYLLABLE NJE", aliases: &[] },
        Codepoint { codepoint: 0xA602, name: "VAI SYLLABLE YE", aliases: &[] },
        Codepoint { codepoint: 0xA603, name: "VAI SYLLABLE KE", aliases: &[] },
        Codepoint { codepoint: 0xA604, name: "VAI SYLLABLE NGGE", aliases: &[] },
        Codepoint { codepoint: 0xA605, name: "VAI SYLLABLE NGGEN", aliases: &[] },
        Codepoint { codepoint: 0xA606, name: "VAI SYLLABLE GE", aliases: &[] },
        Codepoint { codepoint: 0xA607, name: "VAI SYLLABLE GEN", aliases: &[] },
        Codepoint { codepoint: 0xA608, name: "VAI SYLLABLE ME", aliases: &[] },
        Codepoint { codepoint: 0xA609, name: "VAI SYLLABLE NE", aliases: &[] },
        Codepoint { codepoint: 0xA60A, name: "VAI SYLLABLE NYE", aliases: &[] },
        Codepoint { codepoint: 0xA60B, name: "VAI SYLLABLE NG", aliases: &[] },
        Codepoint { codepoint: 0xA60C, name: "VAI SYLLABLE LENGTHENER", aliases: &[] },
        Codepoint { codepoint: 0xA60D, name: "VAI COMMA", aliases: &[] },
        Codepoint { codepoint: 0xA60E, name: "VAI FULL STOP", aliases: &[] },
        Codepoint { codepoint: 0xA60F, name: "VAI QUESTION MARK", aliases: &[] },
    ];
    assert(v@ =~= codepoint_table_345());
    v
}

pub open spec fn codepoint_table_346() -> Seq<Codepoint> {
    seq![
        Codepoint { codepoint: 0xA610, name: "VAI SYLLABLE NDOLE FA", aliases: &[] },
        Codepoint { codepoint: 0xA611, name: "VAI SYLLABLE NDOLE KA", aliases: &[] },
        Codepoint { codepoint: 0xA612, name: "VAI SYLLABLE NDOLE SOO", aliases: &[] },
        Codepoint { codepoint: 0xA613, name: "VAI SYMBOL FEENG", aliases: &[] },
        Codepoint { codepoint: 0xA614, name: "VAI SYMBOL KEENG", aliases: &[] },
        Codepoint { codepoint: 0xA615, name: "VAI SYMBOL TING", aliases: &[] },
        Codepoint { codepoint: 0xA616, name: "VAI SYMBOL NII", aliases: &[] },
        Codepoint { codepoint: 0xA617, name: "VAI SYMBOL BANG", aliases: &[] },
        Codepoint { codepoint: 0xA618, name: "VAI SYMBOL FAA", aliases: &[] },
        Codepoint { codepoint: 0xA619, name: "VAI SYMBOL TAA", aliases: &[] },
        Codepoint { codepoint: 0xA61A, name: "VAI SYMBOL DANG", aliases: &[] },
        Codepoint { codepoint: 0xA61B, name: "VAI SYMBOL DOONG", aliases: &[] },
        Codepoint { codepoint: 0xA61C, name: "VAI SYMBOL KUNG", aliases: &[] },
        Codepoint { codepoint: 0xA61D, name: "VAI SYMBOL TONG", aliases: &[] },
        Codepoint { codepoint: 0xA61E, name: "VAI SYMBOL DO-O", aliases: &[] },
        Codepoint { codepoint: 0xA61F, name: "VAI SYMBOL JONG", aliases: &[] },
        Codepoint { codepoint: 0xA620, name: "VAI DIGIT ZERO", aliases: &[] },
        Codepoint { codepoint: 0xA621, name: "VAI DIGIT ONE", aliases: &[] },
        Codepoint { codepoint: 0xA622, name: "VAI DIGIT TWO", aliases: &[] },
        Codepoint { codepoint: 0xA623, name: "VAI DIGIT THREE", aliases: &[] },
        Codepoint { codepoint: 0xA624, name: "VAI DIGIT FOUR", aliases: &[] },
        Codepoint { codepoint: 0xA625, name: "VAI DIGIT FIVE", aliases: &[] },
        Codepoint { codepoint: 0xA626, name: "VAI DIGIT SIX", aliases: &[] },
        Codepoint { codepoint: 0xA627, name: "VAI DIGIT SEVEN", aliases: &[] },
        Codepoint { codepoint: 0xA628, name: "VAI DIGIT EIGHT", aliases: &[] },
        Codepoint { codepoint: 0xA629, name: "VAI DIGIT NINE", aliases: &[] },
        Codepoint { codepoint: 0xA62A, name: "VAI SYLLABLE NDOLE MA", aliases: &[] },
        Codepoint { codepoint: 0xA62B, name: "VAI SYLLABLE NDOLE DO", aliases: &[] },
        Codepoint { codepoint: 0xA640, name: "CYRILLIC CAPITAL LETTER ZEMLYA", aliases: &[] },
        Codepoint { codepoint: 0xA641, name: "CYRILLIC SMALL LETTER ZEMLYA", aliases: &[] },
        Codepoint { codepoint: 0xA642, name: "CYRILLIC CAPITAL LETTER DZELO", aliases: &[] },
        Codepoint { codepoint: 0xA643, name: "CYRILLIC SMALL LETTER DZELO", aliases: &[] },
        Codepoint { codepoint: 0xA644, name: "CYRILLIC CAPITAL LETTER REVERSED DZE", aliases: &[] },
        Codepoint { codepoint: 0xA645, name: "CYRILLIC SMALL LETTER REVERSED DZE", aliases: &[] },
        Codepoint { codepoint: 0xA646, name: "CYRILLIC CAPITAL LETTER IOTA", aliases: &[] },
        Codepoint { codepoint: 0xA647, name: "CYRILLIC SMALL LETTER IOTA", aliases: &[] },
        Codepoint { codepoint: 0xA648, name: "CYRILLIC CAPITAL LETTER DJERV", aliases: &[] },
        Codepoint { codepoint: 0xA649, name: "CYRILLIC SMALL LETTER DJERV", aliases: &[] },
        Codepoint { codepoint: 0xA64A, name: "CYRILLIC CAPITAL LETTER MONOGRAPH UK", aliases: &[] },
        Codepoint { codepoint: 0xA64B, name: "CYRILLIC SMALL LETTER MONOGRAPH UK", aliases: &[] },
    ]
}

fn all_codepoints_346() -> (v: Vec<Codepoint>)
    ensures
        v@ == codepoint_table_346(),
{
    let v = vec![
        Codepoint { codepoint: 0xA610, name: "VAI SYLLABLE NDOLE FA", aliases: &[] },
        Codepoint { codepoint: 0xA611, name: "VAI SYLLABLE NDOLE KA", aliases: &[] },
        Codepoint { codepoint: 0xA612, name: "VAI SYLLABLE NDOLE SOO", aliases: &[] },
        Codepoint { codepoint: 0xA613, name: "VAI SYMBOL FEENG", aliases: &[] },
        Codepoint { codepoint: 0xA614, name: "VAI SYMBOL KEENG", aliases: &[] },
        Codepoint { codepoint: 0xA615, name: "VAI SYMBOL TING", aliases: &[] },
        Codepoint { codepoint: 0xA616, name: "VAI SYMBOL NII", aliases: &[] },
        Codepoint { codepoint: 0xA617, name: "VAI SYMBOL BANG", aliases: &[] },
        Codepoint { codepoint: 0xA618, name: "VAI SYMBOL FAA", aliases: &[] },
        Codepoint { codepoint: 0xA619, name: "VAI SYMBOL TAA", aliases: &[] },
        Codepoint { codepoint: 0xA61A, name: "VAI SYMBOL DANG", aliases: &[] },
        Codepoint { codepoint: 0xA61B, name: "VAI SYMBOL DOONG", aliases: &[] },
        Codepoint { codepoint: 0xA61C, name: "VAI SYMBOL KUNG", aliases: &[] },
        Codepoint { codepoint: 0xA61D, name: "VAI SYMBOL TONG", aliases: &[] },
        Codepoint { codepoint: 0xA61E, name: "VAI SYMBOL DO-O", aliases: &[] },
        Codepoint { codepoint: 0xA61F, name: "VAI SYMBOL JONG", aliases: &[] },
        Codepoint { codepoint: 0xA620, name: "VAI DIGIT ZERO", aliases: &[] },
        Codepoint { codepoint: 0xA621, name: "VAI DIGIT ONE", aliases: &[] },
        Codepoint { codepoint: 0xA622, name: "VAI DIGIT TWO", aliases: &[] },
        Codepoint { codepoint: 0xA623, name: "VAI DIGIT THREE", aliases: &[] },
        Codepoint { codepoint: 0xA624, name: "VAI DIGIT FOUR", aliases: &[] },
        Codepoint { codepoint: 0xA625, name: "VAI DIGIT FIVE", aliases: &[] },
        Codepoint { codepoint: 0xA626, name: "VAI DIGIT SIX", aliases: &[] },
        Codepoint { codepoint: 0xA627, name: "VAI DIGIT SEVEN", aliases: &[] },
        Codepoint { codepoint: 0xA628, name: "VAI DIGIT EIGHT", aliases: &[] },
        Codepoint { codepoint: 0xA629, name: "VAI DIGIT NINE", aliases: &[] },
        Codepoint { codepoint: 0xA62A, name: "VAI SYLLABLE NDOLE MA", aliases: &[] },
        Codepoint { codepoint: 0xA62B, name: "VAI SYLLABLE NDOLE DO", aliases: &[] },
        Codepoint { codepoint: 0xA640, name: "CYRILLIC CAPITAL LETTER ZEMLYA", aliases: &[] },
        Codepoint { codepoint: 0xA641, name: "CYRILLIC SMALL LETTER ZEMLYA", aliases: &[] },
        Codepoint { codepoint: 0xA642, name: "CYRILLIC CAPITAL LETTER DZELO", aliases: &[] },
        Codepoint { codepoint: 0xA643, name: "CYRILLIC SMALL LETTER DZELO", aliases: &[] },
        Codepoint { codepoint: 0xA644, name: "CYRILLIC CAPITAL LETTER REVERSED DZE", aliases: &[] },
        Codepoint { codepoint: 0xA645, name: "CYRILLIC SMALL LETTER REVERSED DZE", aliases: &[] },
        Codepoint { codepoint: 0xA646, name: "CYRILLIC CAPITAL LETTER IOTA", aliases: &[] },
        Codepoint { codepoint: 0xA647, name: "CYRILLIC SMALL LETTER IOTA", aliases: &[] },
        Codepoint { codepoint: 0xA648, name: "CYRILLIC CAPITAL LETTER DJERV", aliases: &[] },
        Codepoint { codepoint: 0xA649, name: "CYRILLIC SMALL LETTER DJERV", aliases: &[] },
        Codepoint { codepoint: 0xA64A, name: "CYRILLIC CAPITAL LETTER MONOGRAPH UK", aliases: &[] },
        Codepoint { codepoint: 0xA64B, name: "CYRILLIC SMALL LETTER MONOGRAPH UK", aliases: &[] },
    ];
    assert(v@ =~= codepoint_table_346());
    v
}

pub open spec fn codepoint_table_347() -> Seq<Codepoint> {
    seq![
        Codepoint { codepoint: 0xA64C, name: "CYRILLIC CAPITAL LETTER BROAD OMEGA", aliases: &[] },
        Codepoint { codepoint: 0xA64D, name: "CYRILLIC SMALL LETTER BROAD OMEGA", aliases: &[] },
        Codepoint { codepoint: 0xA64E, name: "CYRILLIC CAPITAL LETTER NEUTRAL YER", aliases: &[] },
        Codepoint { codepoint: 0xA64F, name: "CYRILLIC SMALL LETTER NEUTRAL YER", aliases: &[] },
        Codepoint { codepoint: 0xA650, name: "CYRILLIC CAPITAL LETTER YERU WITH BACK YER", aliases: &[] },
        Codepoint { codepoint: 0xA651, name: "CYRILLIC SMALL LETTER YERU WITH BACK YER", aliases: &[] },
        Codepoint { codepoint: 0xA652, name: "CYRILLIC CAPITAL LETTER IOTIFIED YAT", aliases: &[] },
        Codepoint { codepoint: 0xA653, name: "CYRILLIC SMALL LETTER IOTIFIED YAT", aliases: &[] },
        Codepoint { codepoint: 0xA654, name: "CYRILLIC CAPITAL LETTER REVERSED YU", aliases: &[] },
        Codepoint { codepoint: 0xA655, name: "CYRILLIC SMALL LETTER REVERSED YU", aliases: &[] },
        Codepoint { codepoint: 0xA656, name: "CYRILLIC CAPITAL LETTER IOTIFIED A", aliases: &[] },
        Codepoint { codepoint: 0xA657, name: "CYRILLIC SMALL LETTER IOTIFIED A", aliases: &[] },
        Codepoint { codepoint: 0xA658, name: "CYRILLIC CAPITAL LETTER CLOSED LITTLE YUS", aliases: &[] },
        Codepoint { codepoint: 0xA659, name: "CYRILLIC SMALL LETTER CLOSED LITTLE YUS", aliases: &[] },
        Codepoint { codepoint: 0xA65A, name: "CYRILLIC CAPITAL LETTER BLENDED YUS", aliases: &[] },
        Codepoint { codepoint: 0xA65B, name: "CYRILLIC SMALL LETTER BLENDED YUS", aliases: &[] },
        Codepoint { codepoint: 0xA65C, name: "CYRILLIC CAPITAL LETTER IOTIFIED CLOSED LITTLE YUS", aliases: &[] },
        Codepoint { codepoint: 0xA65D, name: "CYRILLIC SMALL LETTER IOTIFIED CLOSED LITTLE YUS", aliases: &[] },
        Codepoint { codepoint: 0xA65E, name: "CYRILLIC CAPITAL LETTER YN", aliases: &[] },
        Codepoint { codepoint: 0xA65F, name: "CYRILLIC SMALL LETTER YN", aliases: &[] },
        Codepoint { codepoint: 0xA660, name: "CYRILLIC CAPITAL LETTER REVERSED TSE", aliases: &[] },
        Codepoint { codepoint: 0xA661, name: "CYRILLIC SMALL LETTER REVERSED TSE", aliases: &[] },
        Codepoint { codepoint: 0xA662, name: "CYRILLIC CAPITAL LETTER SOFT DE", aliases: &[] },
        Codepoint { codepoint: 0xA663, name: "CYRILLIC SMALL LETTER SOFT DE", aliases: &[] },
        Codepoint { codepoint: 0xA664, name: "CYRILLIC CAPITAL LETTER SOFT EL", aliases: &[] },
        Codepoint { codepoint: 0xA665, name: "CYRILLIC SMALL LETTER SOFT EL", aliases: &[] },
        Codepoint { codepoint: 0xA666, name: "CYRILLIC CAPITAL LETTER SOFT EM", aliases: &[] },
        Codepoint { codepoint: 0xA667, name: "CYRILLIC SMALL LETTER SOFT EM", aliases: &[] },
        Codepoint { codepoint: 0xA668, name: "CYRILLIC CAPITAL LETTER MONOCULAR O", aliases: &[] },
        Codepoint { codepoint: 0xA669, name: "CYRILLIC SMALL LETTER MONOCULAR O", aliases: &[] },
        Codepoint { codepoint: 0xA66A, name: "CYRILLIC CAPITAL LETTER BINOCULAR O", aliases: &[] },
        Codepoint { codepoint: 0xA66B, name: "CYRILLIC SMALL LETTER BINOCULAR O", aliases: &[] },
        Codepoint { codepoint: 0xA66C, name: "CYRILLIC CAPITAL LETTER DOUBLE MONOCULAR O", aliases: &[] },
        Codepoint { codepoint: 0xA66D, name: "CYRILLIC SMALL LETTER DOUBLE MONOCULAR O", aliases: &[] },
        Codepoint { codepoint: 0xA66E, name: "CYRILLIC LETTER MULTIOCULAR O", aliases: &[] },
        Codepoint { codepoint: 0xA66F, name: "COMBINING CYRILLIC VZMET", aliases: &[] },
        Codepoint { codepoint: 0xA670, name: "COMBINING CYRILLIC TEN MILLIONS SIGN", aliases: &[] },
        Codepoint { codepoint: 0xA671, name: "COMBINING CYRILLIC HUNDRED MILLIONS SIGN", aliases: &[] },
        Codepoint { codepoint: 0xA672, name: "COMBINING CYRILLIC THOUSAND MILLIONS SIGN", aliases: &[] },
        Codepoint { codepoint: 0xA673, name: "SLAVONIC ASTERISK", aliases: &[] },
    ]
}

fn all_codepoints_347() -> (v: Vec<Codepoint>)
    ensures
        v@ == codepoint_table_347(),
{
    let v = vec![
        Codepoint { codepoint: 0xA64C, name: "CYRILLIC CAPITAL LETTER BROAD OMEGA", aliases: &[] },
        Codepoint { codepoint: 0xA64D, name: "CYRILLIC SMALL LETTER BROAD OMEGA", aliases: &[] },
        Codepoint { codepoint: 0xA64E, name: "CYRILLIC CAPITAL LETTER NEUTRAL YER", aliases: &[] },
        Codepoint { codepoint: 0xA64F, name: "CYRILLIC SMALL LETTER NEUTRAL YER", aliases: &[] },
        Codepoint { codepoint: 0xA650, name: "CYRILLIC CAPITAL LETTER YERU WITH BACK YER", aliases: &[] },
        Codepoint { codepoint: 0xA651, name: "CYRILLIC SMALL LETTER YERU WITH BACK YER", aliases: &[] },
        Codepoint { codepoint: 0xA652, name: "CYRILLIC CAPITAL LETTER IOTIFIED YAT", aliases: &[] },
        Codepoint { codepoint: 0xA653, name: "CYRILLIC SMALL LETTER IOTIFIED YAT", aliases: &[] },
        Codepoint { codepoint: 0xA654, name: "CYRILLIC CAPITAL LETTER REVERSED YU", aliases: &[] },
        Codepoint { codepoint: 0xA655, name: "CYRILLIC SMALL LETTER REVERSED YU", aliases: &[] },
        Codepoint { codepoint: 0xA656, name: "CYRILLIC CAPITAL LETTER IOTIFIED A", aliases: &[] },
        Codepoint { codepoint: 0xA657, name: "CYRILLIC SMALL LETTER IOTIFIED A", aliases: &[] },
        Codepoint { codepoint: 0xA658, name: "CYRILLIC CAPITAL LETTER CLOSED LITTLE YUS", aliases: &[] },
        Codepoint { codepoint: 0xA659, name: "CYRILLIC SMALL LETTER CLOSED LITTLE YUS", aliases: &[] },
        Codepoint { codepoint: 0xA65A, name: "CYRILLIC CAPITAL LETTER BLENDED YUS", aliases: &[] },
        Codepoint { codepoint: 0xA65B, name: "CYRILLIC SMALL LETTER BLENDED YUS", aliases: &[] },
        Codepoint { codepoint: 0xA65C, name: "CYRILLIC CAPITAL LETTER IOTIFIED CLOSED LITTLE YUS", aliases: &[] },
        Codepoint { codepoint: 0xA65D, name: "CYRILLIC SMALL LETTER IOTIFIED CLOSED LITTLE YUS", aliases: &[] },
        Codepoint { codepoint: 0xA65E, name: "CYRILLIC CAPITAL LETTER YN", aliases: &[] },
        Codepoint { codepoint: 0xA65F, name: "CYRILLIC SMALL LETTER YN", aliases: &[] },
        Codepoint { codepoint: 0xA660, name: "CYRILLIC CAPITAL LETTER REVERSED TSE", aliases: &[] },
        Codepoint { codepoint: 0xA661, name: "CYRILLIC SMALL LETTER REVERSED TSE", aliases: &[] },
        Codepoint { codepoint: 0xA662, name: "CYRILLIC CAPITAL LETTER SOFT DE", aliases: &[] },
        Codepoint { codepoint: 0xA663, name: "CYRILLIC SMALL LETTER SOFT DE", aliases: &[] },
        Codepoint { codepoint: 0xA664, name: "CYRILLIC CAPITAL LETTER SOFT EL", aliases: &[] },
        Codepoint { codepoint: 0xA665, name: "CYRILLIC SMALL LETTER SOFT EL", aliases: &[] },
        Codepoint { codepoint: 0xA666, name: "CYRILLIC CAPITAL LETTER SOFT EM", aliases: &[] },
        Codepoint { codepoint: 0xA667, name: "CYRILLIC SMALL LETTER SOFT EM", aliases: &[] },
        Codepoint { codepoint: 0xA668, name: "CYRILLIC CAPITAL LETTER MONOCULAR O", aliases: &[] },
        Codepoint { codepoint: 0xA669, name: "CYRILLIC SMALL LETTER MONOCULAR O", aliases: &[] },
        Codepoint { codepoint: 0xA66A, name: "CYRILLIC CAPITAL LETTER BINOCULAR O", aliases: &[] },
        Codepoint { codepoint: 0xA66B, name: "CYRILLIC SMALL LETTER BINOCULAR O", aliases: &[] },
        Codepoint { codepoint: 0xA66C, name: "CYRILLIC CAPITAL LETTER DOUBLE MONOCULAR O", aliases: &[] },
        Codepoint { codepoint: 0xA66D, name: "CYRILLIC SMALL LETTER DOUBLE MONOCULAR O", aliases: &[] },
        Codepoint { codepoint: 0xA66E, name: "CYRILLIC LETTER MULTIOCULAR O", aliases: &[] },
        Codepoint { codepoint: 0xA66F, name: "COMBINING CYRILLIC VZMET", aliases: &[] },
        Codepoint { codepoint: 0xA670, name: "COMBINING CYRILLIC TEN MILLIONS SIGN", aliases: &[] },
        Codepoint { codepoint: 0xA671, name: "COMBINING CYRILLIC HUNDRED MILLIONS SIGN", aliases: &[] },
        Codepoint { codepoint: 0xA672, name: "COMBINING CYRILLIC THOUSAND MILLIONS SIGN", aliases: &[] },
        Codepoint { codepoint: 0xA673, name: "SLAVONIC ASTERISK", aliases: &[] },
    ];
    assert(v@ =~= codepoint_table_347());
    v
}

pub open spec fn codepoint_table_348() -> Seq<Codepoint> {
    seq![
        Codepoint { codepoint: 0xA674, name: "COMBINING CYRILLIC LETTER UKRAINIAN IE", aliases: &[] },
        Codepoint { codepoint: 0xA675, name: "COMBINING CYRILLIC LETTER I", aliases: &[] },
        Codepoint { codepoint: 0xA676, name: "COMBINING CYRILLIC LETTER YI", aliases: &[] },
        Codepoint { codepoint: 0xA677, name: "COMBINING CYRILLIC LETTER U", aliases: &[] },
        Codepoint { codepoint: 0xA678, name: "COMBINING CYRILLIC LETTER HARD SIGN", aliases: &[] },
        Codepoint { codepoint: 0xA679, name: "COMBINING CYRILLIC LETTER YERU", aliases: &[] },
        Codepoint { codepoint: 0xA67A, name: "COMBINING CYRILLIC LETTER SOFT SIGN", aliases: &[] },
        Codepoint { codepoint: 0xA67B, name: "COMBINING CYRILLIC LETTER OMEGA", aliases: &[] },
        Codepoint { codepoint: 0xA67C, name: "COMBINING CYRILLIC KAVYKA", aliases: &[] },
        Codepoint { codepoint: 0xA67D, name: "COMBINING CYRILLIC PAYEROK", aliases: &[] },
        Codepoint { codepoint: 0xA67E, name: "CYRILLIC KAVYKA", aliases: &[] },
        Codepoint { codepoint: 0xA67F, name: "CYRILLIC PAYEROK", aliases: &[] },
        Codepoint { codepoint: 0xA680, name: "CYRILLIC CAPITAL LETTER DWE", aliases: &[] },
        Codepoint { codepoint: 0xA681, name: "CYRILLIC SMALL LETTER DWE", aliases: &[] },
        Codepoint { codepoint: 0xA682, name: "CYRILLIC CAPITAL LETTER DZWE", aliases: &[] },
        Codepoint { codepoint: 0xA683, name: "CYRILLIC SMALL LETTER DZWE", aliases: &[] },
        Codepoint { codepoint: 0xA684, name: "CYRILLIC CAPITAL LETTER ZHWE", aliases: &[] },
        Codepoint { codepoint: 0xA685, name: "CYRILLIC SMALL LETTER ZHWE", aliases: &[] },
        Codepoint { codepoint: 0xA686, name: "CYRILLIC CAPITAL LETTER CCHE", aliases: &[] },
        Codepoint { codepoint: 0xA687, name: "CYRILLIC SMALL LETTER CCHE", aliases: &[] },
        Codepoint { codepoint: 0xA688, name: "CYRILLIC CAPITAL LETTER DZZE", aliases: &[] },
        Codepoint { codepoint: 0xA689, name: "CYRILLIC SMALL LETTER DZZE", aliases: &[] },
        Codepoint { codepoint: 0xA68A, name: "CYRILLIC CAPITAL LETTER TE WITH MIDDLE HOOK", aliases: &[] },
        Codepoint { codepoint: 0xA68B, name: "CYRILLIC SMALL LETTER TE WITH MIDDLE HOOK", aliases: &[] },
        Codepoint { codepoint: 0xA68C, name: "CYRILLIC CAPITAL LETTER TWE", aliases: &[] },
        Codepoint { codepoint: 0xA68D, name: "CYRILLIC SMALL LETTER TWE", aliases: &[] },
        Codepoint { codepoint: 0xA68E, name: "CYRILLIC CAPITAL LETTER TSWE", aliases: &[] },
        Codepoint { codepoint: 0xA68F, name: "CYRILLIC SMALL LETTER TSWE", aliases: &[] },
        Codepoint { codepoint: 0xA690, name: "CYRILLIC CAPITAL LETTER TSSE", aliases: &[] },
        Codepoint { codepoint: 0xA691, name: "CYRILLIC SMALL LETTER TSSE", aliases: &[] },
        Codepoint { codepoint: 0xA692, name: "CYRILLIC CAPITAL LETTER TCHE", aliases: &[] },
        Codepoint { codepoint: 0xA693, name: "CYRILLIC SMALL LETTER TCHE", aliases: &[] },
        Codepoint { codepoint: 0xA694, name: "CYRILLIC CAPITAL LETTER HWE", aliases: &[] },
        Codepoint { codepoint: 0xA695, name: "CYRILLIC SMALL LETTER HWE", aliases: &[] },
        Codepoint { codepoint: 0xA696, name: "CYRILLIC CAPITAL LETTER SHWE", aliases: &[] },
        Codepoint { codepoint: 0xA697, name: "CYRILLIC SMALL LETTER SHWE", aliases: &[] },
        Codepoint { codepoint: 0xA698, name: "CYRILLIC CAPITAL LETTER DOUBLE O", aliases: &[] },
        Codepoint { codepoint: 0xA699, name: "CYRILLIC SMALL LETTER DOUBLE O", aliases: &[] },
        Codepoint { codepoint: 0xA69A, name: "CYRILLIC CAPITAL LETTER CROSSED O", aliases: &[] },
        Codepoint { codepoint: 0xA69B, name: "CYRILLIC SMALL LETTER CROSSED O", aliases: &[] },
    ]
}

fn all_codepoints_348() -> (v: Vec<Codepoint>)
    ensures
        v@ == codepoint_table_348(),
{
    let v = vec![
        Codepoint { codepoint: 0xA674, name: "COMBINING CYRILLIC LETTER UKRAINIAN IE", aliases: &[] },
        Codepoint { codepoint: 0xA675, name: "COMBINING CYRILLIC LETTER I", aliases: &[] },
        Codepoint { codepoint: 0xA676, name: "COMBINING CYRILLIC LETTER YI", aliases: &[] },
        Codepoint { codepoint: 0xA677, name: "COMBINING CYRILLIC LETTER U", aliases: &[] },
        Codepoint { codepoint: 0xA678, name: "COMBINING CYRILLIC LETTER HARD SIGN", aliases: &[] },
        Codepoint { codepoint: 0xA679, name: "COMBINING CYRILLIC LETTER YERU", aliases: &[] },
        Codepoint { codepoint: 0xA67A, name: "COMBINING CYRILLIC LETTER SOFT SIGN", aliases: &[] },
        Codepoint { codepoint: 0xA67B, name: "COMBINING CYRILLIC LETTER OMEGA", aliases: &[] },
        Codepoint { codepoint: 0xA67C, name: "COMBINING CYRILLIC KAVYKA", aliases: &[] },
        Codepoint { codepoint: 0xA67D, name: "COMBINING CYRILLIC PAYEROK", aliases: &[] },
        Codepoint { codepoint: 0xA67E, name: "CYRILLIC KAVYKA", aliases: &[] },
        Codepoint { codepoint: 0xA67F, name: "CYRILLIC PAYEROK", aliases: &[] },
        Codepoint { codepoint: 0xA680, name: "CYRILLIC CAPITAL LETTER DWE", aliases: &[] },
        Codepoint { codepoint: 0xA681, name: "CYRILLIC SMALL LETTER DWE", aliases: &[] },
        Codepoint { codepoint: 0xA682, name: "CYRILLIC CAPITAL LETTER DZWE", aliases: &[] },
        Codepoint { codepoint: 0xA683, name: "CYRILLIC SMALL LETTER DZWE", aliases: &[] },
        Codepoint { codepoint: 0xA684, name: "CYRILLIC CAPITAL LETTER ZHWE", aliases: &[] },
        Codepoint { codepoint: 0xA685, name: "CYRILLIC SMALL LETTER ZHWE", aliases: &[] },
        Codepoint { codepoint: 0xA686, name: "CYRILLIC CAPITAL LETTER CCHE", aliases: &[] },
        Codepoint { codepoint: 0xA687, name: "CYRILLIC SMALL LETTER CCHE", aliases: &[] },
        Codepoint { codepoint: 0xA688, name: "CYRILLIC CAPITAL LETTER DZZE", aliases: &[] },
        Codepoint { codepoint: 0xA689, name: "CYRILLIC SMALL LETTER DZZE", aliases: &[] },
        Codepoint { codepoint: 0xA68A, name: "CYRILLIC CAPITAL LETTER TE WITH MIDDLE HOOK", aliases: &[] },
        Codepoint { codepoint: 0xA68B, name: "CYRILLIC SMALL LETTER TE WITH MIDDLE HOOK", aliases: &[] },
        Codepoint { codepoint: 0xA68C, name: "CYRILLIC CAPITAL LETTER TWE", aliases: &[] },
        Codepoint { codepoint: 0xA68D, name: "CYRILLIC SMALL LETTER TWE", aliases: &[] },
        Codepoint { codepoint: 0xA68E, name: "CYRILLIC CAPITAL LETTER TSWE", aliases: &[] },
        Codepoint { codepoint: 0xA68F, name: "CYRILLIC SMALL LETTER TSWE", aliases: &[] },
        Codepoint { codepoint: 0xA690, name: "CYRILLIC CAPITAL LETTER TSSE", aliases: &[] },
        Codepoint { codepoint: 0xA691, name: "CYRILLIC SMALL LETTER TSSE", aliases: &[] },
        Codepoint { codepoint: 0xA692, name: "CYRILLIC CAPITAL LETTER TCHE", aliases: &[] },
        Codepoint { codepoint: 0xA693, name: "CYRILLIC SMALL LETTER TCHE", aliases: &[] },
        Codepoint { codepoint: 0xA694, name: "CYRILLIC CAPITAL LETTER HWE", aliases: &[] },
        Codepoint { codepoint: 0xA695, name: "CYRILLIC SMALL LETTER HWE", aliases: &[] },
        Codepoint { codepoint: 0xA696, name: "CYRILLIC CAPITAL LETTER SHWE", aliases: &[] },
        Codepoint { codepoint: 0xA697, name: "CYRILLIC SMALL LETTER SHWE", aliases: &[] },
        Codepoint { codepoint: 0xA698, name: "CYRILLIC CAPITAL LETTER DOUBLE O", aliases: &[] },
        Codepoint { codepoint: 0xA699, name: "CYRILLIC SMALL LETTER DOUBLE O", aliases: &[] },
        Codepoint { codepoint: 0xA69A, name: "CYRILLIC CAPITAL LETTER CROSSED O", aliases: &[] },
        Codepoint { codepoint: 0xA69B, name: "CYRILLIC SMALL LETTER CROSSED O", aliases: &[] },
    ];
    assert(v@ =~= codepoint_table_348());
    v
}

pub open spec fn codepoint_table_349() -> Seq<Codepoint> {
    seq![
        Codepoint { codepoint: 0xA69C, name: "MODIFIER LETTER CYRILLIC HARD SIGN", aliases: &[] },
        Codepoint { codepoint: 0xA69D, name: "MODIFIER LETTER CYRILLIC SOFT SIGN", aliases: &[] },
        Codepoint { codepoint: 0xA69E, name: "COMBINING CYRILLIC LETTER EF", aliases: &[] },
        Codepoint { codepoint: 0xA69F, name: "COMBINING CYRILLIC LETTER IOTIFIED E", aliases: &[] },
        Codepoint { codepoint: 0xA6A0, name: "BAMUM LETTER A", aliases: &[] },
        Codepoint { codepoint: 0xA6A1, name: "BAMUM LETTER KA", aliases: &[] },
        Codepoint { codepoint: 0xA6A2, name: "BAMUM LETTER U", aliases: &[] },
        Codepoint { codepoint: 0xA6A3, name: "BAMUM LETTER KU", aliases: &[] },
        Codepoint { codepoint: 0xA6A4, name: "BAMUM LETTER EE", aliases: &[] },
        Codepoint { codepoint: 0xA6A5, name: "BAMUM LETTER REE", aliases: &[] },
        Codepoint { codepoint: 0xA6A6, name: "BAMUM LETTER TAE", aliases: &[] },
        Codepoint { codepoint: 0xA6A7, name: "BAMUM LETTER O", aliases: &[] },
        Codepoint { codepoint: 0xA6A8, name: "BAMUM LETTER NYI", aliases: &[] },
        Codepoint { codepoint: 0xA6A9, name: "BAMUM LETTER I", aliases: &[] },
        Codepoint { codepoint: 0xA6AA, name: "BAMUM LETTER LA", aliases: &[] },
        Codepoint { codepoint: 0xA6AB, name: "BAMUM LETTER PA", aliases: &[] },
        Codepoint { codepoint: 0xA6AC, name: "BAMUM LETTER RII", aliases: &[] },
        Codepoint { codepoint: 0xA6AD, name: "BAMUM LETTER RIEE", aliases: &[] },
        Codepoint { codepoint: 0xA6AE, name: "BAMUM LETTER LEEEE", aliases: &[] },
        Codepoint { codepoint: 0xA6AF, name: "BAMUM LETTER MEEEE", aliases: &[] },
        Codepoint { codepoint: 0xA6B0, name: "BAMUM LETTER TAA", aliases: &[] },
        Codepoint { codepoint: 0xA6B1, name: "BAMUM LETTER NDAA", aliases: &[] },
        Codepoint { codepoint: 0xA6B2, name: "BAMUM LETTER NJAEM", aliases: &[] },
        Codepoint { codepoint: 0xA6B3, name: "BAMUM LETTER M", aliases: &[] },
        Codepoint { codepoint: 0xA6B4, name: "BAMUM LETTER SUU", aliases: &[] },
        Codepoint { codepoint: 0xA6B5, name: "BAMUM LETTER MU", aliases: &[] },
        Codepoint { codepoint: 0xA6B6, name: "BAMUM LETTER SHII", aliases: &[] },
        Codepoint { codepoint: 0xA6B7, name: "BAMUM LETTER SI", aliases: &[] },
        Codepoint { codepoint: 0xA6B8, name: "BAMUM LETTER SHEUX", aliases: &[] },
        Codepoint { codepoint: 0xA6B9, name: "BAMUM LETTER SEUX", aliases: &[] },
        Codepoint { codepoint: 0xA6BA, name: "BAMUM LETTER KYEE", aliases: &[] },
        Codepoint { codepoint: 0xA6BB, name: "BAMUM LETTER KET", aliases: &[] },
        Codepoint { codepoint: 0xA6BC, name: "BAMUM LETTER NUAE", aliases: &[] },
        Codepoint { codepoint: 0xA6BD, name: "BAMUM LETTER NU", aliases: &[] },
        Codepoint { codepoint: 0xA6BE, name: "BAMUM LETTER NJUAE", aliases: &[] },
        Codepoint { codepoint: 0xA6BF, name: "BAMUM LETTER YOQ", aliases: &[] },
        Codepoint { codepoint: 0xA6C0, name: "BAMUM LETTER SHU", aliases: &[] },
        Codepoint { codepoint: 0xA6C1, name: "BAMUM LETTER YUQ", aliases: &[] },
        Codepoint { codepoint: 0xA6C2, name: "BAMUM LETTER YA", aliases: &[] },
        Codepoint { codepoint: 0xA6C3, name: "BAMUM LETTER NSHA", aliases: &[] },
    ]
}

fn all_codepoints_349() -> (v: Vec<Codepoint>)
    ensures
        v@ == codepoint_table_349(),
{
    let v = vec![
        Codepoint { codepoint: 0xA69C, name: "MODIFIER LETTER CYRILLIC HARD SIGN", aliases: &[] },
        Codepoint { codepoint: 0xA69D, name: "MODIFIER LETTER CYRILLIC SOFT SIGN", aliases: &[] },
        Codepoint { codepoint: 0xA69E, name: "COMBINING CYRILLIC LETTER EF", aliases: &[] },
        Codepoint { codepoint: 0xA69F, name: "COMBINING CYRILLIC LETTER IOTIFIED E", aliases: &[] },
        Codepoint { codepoint: 0xA6A0, name: "BAMUM LETTER A", aliases: &[] },
        Codepoint { codepoint: 0xA6A1, name: "BAMUM LETTER KA", aliases: &[] },
        Codepoint { codepoint: 0xA6A2, name: "BAMUM LETTER U", aliases: &[] },
        Codepoint { codepoint: 0xA6A3, name: "BAMUM LETTER KU", aliases: &[] },
        Codepoint { codepoint: 0xA6A4, name: "BAMUM LETTER EE", aliases: &[] },
        Codepoint { codepoint: 0xA6A5, name: "BAMUM LETTER REE", aliases: &[] },
        Codepoint { codepoint: 0xA6A6, name: "BAMUM LETTER TAE", aliases: &[] },
        Codepoint { codepoint: 0xA6A7, name: "BAMUM LETTER O", aliases: &[] },
        Codepoint { codepoint: 0xA6A8, name: "BAMUM LETTER NYI", aliases: &[] },
        Codepoint { codepoint: 0xA6A9, name: "BAMUM LETTER I", aliases: &[] },
        Codepoint { codepoint: 0xA6AA, name: "BAMUM LETTER LA", aliases: &[] },
        Codepoint { codepoint: 0xA6AB, name: "BAMUM LETTER PA", aliases: &[] },
        Codepoint { codepoint: 0xA6AC, name: "BAMUM LETTER RII", aliases: &[] },
        Codepoint { codepoint: 0xA6AD, name: "BAMUM LETTER RIEE", aliases: &[] },
        Codepoint { codepoint: 0xA6AE, name: "BAMUM LETTER LEEEE", aliases: &[] },
        Codepoint { codepoint: 0xA6AF, name: "BAMUM LETTER MEEEE", aliases: &[] },
        Codepoint { codepoint: 0xA6B0, name: "BAMUM LETTER TAA", aliases: &[] },
        Codepoint { codepoint: 0xA6B1, name: "BAMUM LETTER NDAA", aliases: &[] },
        Codepoint { codepoint: 0xA6B2, name: "BAMUM LETTER NJAEM", aliases: &[] },
        Codepoint { codepoint: 0xA6B3, name: "BAMUM LETTER M", aliases: &[] },
        Codepoint { codepoint: 0xA6B4, name: "BAMUM LETTER SUU", aliases: &[] },
        Codepoint { codepoint: 0xA6B5, name: "BAMUM LETTER MU", aliases: &[] },
        Codepoint { codepoint: 0xA6B6, name: "BAMUM LETTER SHII", aliases: &[] },
        Codepoint { codepoint: 0xA6B7, name: "BAMUM LETTER SI", aliases: &[] },
        Codepoint { codepoint: 0xA6B8, name: "BAMUM LETTER SHEUX", aliases: &[] },
        Codepoint { codepoint: 0xA6B9, name: "BAMUM LETTER SEUX", aliases: &[] },
        Codepoint { codepoint: 0xA6BA, name: "BAMUM LETTER KYEE", aliases: &[] },
        Codepoint { codepoint: 0xA6BB, name: "BAMUM LETTER KET", aliases: &[] },
        Codepoint { codepoint: 0xA6BC, name: "BAMUM LETTER NUAE", aliases: &[] },
        Codepoint { codepoint: 0xA6BD, name: "BAMUM LETTER NU", aliases: &[] },
        Codepoint { codepoint: 0xA6BE, name: "BAMUM LETTER NJUAE", aliases: &[] },
        Codepoint { codepoint: 0xA6BF, name: "BAMUM LETTER YOQ", aliases: &[] },
        Codepoint { codepoint: 0xA6C0, name: "BAMUM LETTER SHU", aliases: &[] },
        Codepoint { codepoint: 0xA6C1, name: "BAMUM LETTER YUQ", aliases: &[] },
        Codepoint { codepoint: 0xA6C2, name: "BAMUM LETTER YA", aliases: &[] },
        Codepoint { codepoint: 0xA6C3, name: "BAMUM LETTER NSHA", aliases: &[] },
    ];
    assert(v@ =~= codepoint_table_349());
    v
}

pub open spec fn codepoint_table_350() -> Seq<Codepoint> {
    seq![
        Codepoint { codepoint: 0xA6C4, name: "BAMUM LETTER KEUX", aliases: &[] },
        Codepoint { codepoint: 0xA6C5, name: "BAMUM LETTER PEUX", aliases: &[] },
        Codepoint { codepoint: 0xA6C6, name: "BAMUM LETTER NJEE", aliases: &[] },
        Codepoint { codepoint: 0xA6C7, name: "BAMUM LETTER NTEE", aliases: &[] },
        Codepoint { codepoint: 0xA6C8, name: "BAMUM LETTER PUE", aliases: &[] },
        Codepoint { codepoint: 0xA6C9, name: "BAMUM LETTER WUE", aliases: &[] },
        Codepoint { codepoint: 0xA6CA, name: "BAMUM LETTER PEE", aliases: &[] },
        Codepoint { codepoint: 0xA6CB, name: "BAMUM LETTER FEE", aliases: &[] },
        Codepoint { codepoint: 0xA6CC, name: "BAMUM LETTER RU", aliases: &[] },
        Codepoint { codepoint: 0xA6CD, name: "BAMUM LETTER LU", aliases: &[] },
        Codepoint { codepoint: 0xA6CE, name: "BAMUM LETTER MI", aliases: &[] },
        Codepoint { codepoint: 0xA6CF, name: "BAMUM LETTER NI", aliases: &[] },
        Codepoint { codepoint: 0xA6D0, name: "BAMUM LETTER REUX", aliases: &[] },
        Codepoint { codepoint: 0xA6D1, name: "BAMUM LETTER RAE", aliases: &[] },
        Codepoint { codepoint: 0xA6D2, name: "BAMUM LETTER KEN", aliases: &[] },
        Codepoint { codepoint: 0xA6D3, name: "BAMUM LETTER NGKWAEN", aliases: &[] },
        Codepoint { codepoint: 0xA6D4, name: "BAMUM LETTER NGGA", aliases: &[] },
        Codepoint { codepoint: 0xA6D5, name: "BAMUM LETTER NGA", aliases: &[] },
        Codepoint { codepoint: 0xA6D6, name: "BAMUM LETTER SHO", aliases: &[] },
        Codepoint { codepoint: 0xA6D7, name: "BAMUM LETTER PUAE", aliases: &[] },
        Codepoint { codepoint: 0xA6D8, name: "BAMUM LETTER FU", aliases: &[] },
        Codepoint { codepoint: 0xA6D9, name: "BAMUM LETTER FOM", aliases: &[] },
        Codepoint { codepoint: 0xA6DA, name: "BAMUM LETTER WA", aliases: &[] },
        Codepoint { codepoint: 0xA6DB, name: "BAMUM LETTER NA", aliases: &[] },
        Codepoint { codepoint: 0xA6DC, name: "BAMUM LETTER LI", aliases: &[] },
        Codepoint { codepoint: 0xA6DD, name: "BAMUM LETTER PI", aliases: &[] },
        Codepoint { codepoint: 0xA6DE, name: "BAMUM LETTER LOQ", aliases: &[] },
        Codepoint { codepoint: 0xA6DF, name: "BAMUM LETTER KO", aliases: &[] },
        Codepoint { codepoint: 0xA6E0, name: "BAMUM LETTER MBEN", aliases: &[] },
        Codepoint { codepoint: 0xA6E1, name: "BAMUM LETTER REN", aliases: &[] },
        Codepoint { codepoint: 0xA6E2, name: "BAMUM LETTER MEN", aliases: &[] },
        Codepoint { codepoint: 0xA6E3, name: "BAMUM LETTER MA", aliases: &[] },
        Codepoint { codepoint: 0xA6E4, name: "BAMUM LETTER TI", aliases: &[] },
        Codepoint { codepoint: 0xA6E5, name: "BAMUM LETTER KI", aliases: &[] },
        Codepoint { codepoint: 0xA6E6, name: "BAMUM LETTER MO", aliases: &[] },
        Codepoint { codepoint: 0xA6E7, name: "BAMUM LETTER MBAA", aliases: &[] },
        Codepoint { codepoint: 0xA6E8, name: "BAMUM LETTER TET", aliases: &[] },
        Codepoint { codepoint: 0xA6E9, name: "BAMUM LETTER KPA", aliases: &[] },
        Codepoint { codepoint: 0xA6EA, name: "BAMUM LETTER TEN", aliases: &[] },
        Codepoint { codepoint: 0xA6EB, name: "BAMUM LETTER NTUU", aliases: &[] },
    ]
}

fn all_codepoints_350() -> (v: Vec<Codepoint>)
    ensures
        v@ == codepoint_table_350(),
{
    let v = vec![
        Codepoint { codepoint: 0xA6C4, name: "BAMUM LETTER KEUX", aliases: &[] },
        Codepoint { codepoint: 0xA6C5, name: "BAMUM LETTER PEUX", aliases: &[] },
        Codepoint { codepoint: 0xA6C6, name: "BAMUM LETTER NJEE", aliases: &[] },
        Codepoint { codepoint: 0xA6C7, name: "BAMUM LETTER NTEE", aliases: &[] },
        Codepoint { codepoint: 0xA6C8, name: "BAMUM LETTER PUE", aliases: &[] },
        Codepoint { codepoint: 0xA6C9, name: "BAMUM LETTER WUE", aliases: &[] },
        Codepoint { codepoint: 0xA6CA, name: "BAMUM LETTER PEE", aliases: &[] },
        Codepoint { codepoint: 0xA6CB, name: "BAMUM LETTER FEE", aliases: &[] },
        Codepoint { codepoint: 0xA6CC, name: "BAMUM LETTER RU", aliases: &[] },
        Codepoint { codepoint: 0xA6CD, name: "BAMUM LETTER LU", aliases: &[] },
        Codepoint { codepoint: 0xA6CE, name: "BAMUM LETTER MI", aliases: &[] },
        Codepoint { codepoint: 0xA6CF, name: "BAMUM LETTER NI", aliases: &[] },
        Codepoint { codepoint: 0xA6D0, name: "BAMUM LETTER REUX", aliases: &[] },
        Codepoint { codepoint: 0xA6D1, name: "BAMUM LETTER RAE", aliases: &[] },
        Codepoint { codepoint: 0xA6D2, name: "BAMUM LETTER KEN", aliases: &[] },
        Codepoint { codepoint: 0xA6D3, name: "BAMUM LETTER NGKWAEN", aliases: &[] },
        Codepoint { codepoint: 0xA6D4, name: "BAMUM LETTER NGGA", aliases: &[] },
        Codepoint { codepoint: 0xA6D5, name: "BAMUM LETTER NGA", aliases: &[] },
        Codepoint { codepoint: 0xA6D6, name: "BAMUM LETTER SHO", aliases: &[] },
        Codepoint { codepoint: 0xA6D7, name: "BAMUM LETTER PUAE", aliases: &[] },
        Codepoint { codepoint: 0xA6D8, name: "BAMUM LETTER FU", aliases: &[] },
        Codepoint { codepoint: 0xA6D9, name: "BAMUM LETTER FOM", aliases: &[] },
        Codepoint { codepoint: 0xA6DA, name: "BAMUM LETTER WA", aliases: &[] },
        Codepoint { codepoint: 0xA6DB, name: "BAMUM LETTER NA", aliases: &[] },
        Codepoint { codepoint: 0xA6DC, name: "BAMUM LETTER LI", aliases: &[] },
        Codepoint { codepoint: 0xA6DD, name: "BAMUM LETTER PI", aliases: &[] },
        Codepoint { codepoint: 0xA6DE, name: "BAMUM LETTER LOQ", aliases: &[] },
        Codepoint { codepoint: 0xA6DF, name: "BAMUM LETTER KO", aliases: &[] },
        Codepoint { codepoint: 0xA6E0, name: "BAMUM LETTER MBEN", aliases: &[] },
        Codepoint { codepoint: 0xA6E1, name: "BAMUM LETTER REN", aliases: &[] },
        Codepoint { codepoint: 0xA6E2, name: "BAMUM LETTER MEN", aliases: &[] },
        Codepoint { codepoint: 0xA6E3, name: "BAMUM LETTER MA", aliases: &[] },
        Codepoint { codepoint: 0xA6E4, name: "BAMUM LETTER TI", aliases: &[] },
        Codepoint { codepoint: 0xA6E5, name: "BAMUM LETTER KI", aliases: &[] },
        Codepoint { codepoint: 0xA6E6, name: "BAMUM LETTER MO", aliases: &[] },
        Codepoint { codepoint: 0xA6E7, name: "BAMUM LETTER MBAA", aliases: &[] },
        Codepoint { codepoint: 0xA6E8, name: "BAMUM LETTER TET", aliases: &[] },
        Codepoint { codepoint: 0xA6E9, name: "BAMUM LETTER KPA", aliases: &[] },
        Codepoint { codepoint: 0xA6EA, name: "BAMUM LETTER TEN", aliases: &[] },
        Codepoint { codepoint: 0xA6EB, name: "BAMUM LETTER NTUU", aliases: &[] },
    ];
    assert(v@ =~= codepoint_table_350());
    v
}

pub open spec fn codepoint_table_351() -> Seq<Codepoint> {
    seq![
        Codepoint { codepoint: 0xA6EC, name: "BAMUM LETTER SAMBA", aliases: &[] },
        Codepoint { codepoint: 0xA6ED, name: "BAMUM LETTER FAAMAE", aliases: &[] },
        Codepoint { codepoint: 0xA6EE, name: "BAMUM LETTER KOVUU", aliases: &[] },
        Codepoint { codepoint: 0xA6EF, name: "BAMUM LETTER KOGHOM", aliases: &[] },
        Codepoint { codepoint: 0xA6F0, name: "BAMUM COMBINING MARK KOQNDON", aliases: &[] },
        Codepoint { codepoint: 0xA6F1, name: "BAMUM COMBINING MARK TUKWENTIS", aliases: &[] },
        Codepoint { codepoint: 0xA6F2, name: "BAMUM NJAEMLI", aliases: &[] },
        Codepoint { codepoint: 0xA6F3, name: "BAMUM FULL STOP", aliases: &[] },
        Codepoint { codepoint: 0xA6F4, name: "BAMUM COLON", aliases: &[] },
        Codepoint { codepoint: 0xA6F5, name: "BAMUM COMMA", aliases: &[] },
        Codepoint { codepoint: 0xA6F6, name: "BAMUM SEMICOLON", aliases: &[] },
        Codepoint { codepoint: 0xA6F7, name: "BAMUM QUESTION MARK", aliases: &[] },
        Codepoint { codepoint: 0xA700, name: "MODIFIER LETTER CHINESE TONE YIN PING", aliases: &[] },
        Codepoint { codepoint: 0xA701, name: "MODIFIER LETTER CHINESE TONE YANG PING", aliases: &[] },
        Codepoint { codepoint: 0xA702, name: "MODIFIER LETTER CHINESE TONE YIN SHANG", aliases: &[] },
        Codepoint { codepoint: 0xA703, name: "MODIFIER LETTER CHINESE TONE YANG SHANG", aliases: &[] },
        Codepoint { codepoint: 0xA704, name: "MODIFIER LETTER CHINESE TONE YIN QU", aliases: &[] },
        Codepoint { codepoint: 0xA705, name: "MODIFIER LETTER CHINESE TONE YANG QU", aliases: &[] },
        Codepoint { codepoint: 0xA706, name: "MODIFIER LETTER CHINESE TONE YIN RU", aliases: &[] },
        Codepoint { codepoint: 0xA707, name: "MODIFIER LETTER CHINESE TONE YANG RU", aliases: &[] },
        Codepoint { codepoint: 0xA708, name: "MODIFIER LETTER EXTRA-HIGH DOTTED TONE BAR", aliases: &[] },
        Codepoint { codepoint: 0xA709, name: "MODIFIER LETTER HIGH DOTTED TONE BAR", aliases: &[] },
        Codepoint { codepoint: 0xA70A, name: "MODIFIER LETTER MID DOTTED TONE BAR", aliases: &[] },
        Codepoint { codepoint: 0xA70B, name: "MODIFIER LETTER LOW DOTTED TONE BAR", aliases: &[] },
        Codepoint { codepoint: 0xA70C, name: "MODIFIER LETTER EXTRA-LOW DOTTED TONE BAR", aliases: &[] },
        Codepoint { codepoint: 0xA70D, name: "MODIFIER LETTER EXTRA-HIGH DOTTED LEFT-STEM TONE BAR", aliases: &[] },
        Codepoint { codepoint: 0xA70E, name: "MODIFIER LETTER HIGH DOTTED LEFT-STEM TONE BAR", aliases: &[] },
        Codepoint { codepoint: 0xA70F, name: "MODIFIER LETTER MID DOTTED LEFT-STEM TONE BAR", aliases: &[] },
        Codepoint { codepoint: 0xA710, name: "MODIFIER LETTER LOW DOTTED LEFT-STEM TONE BAR", aliases: &[] },
        Codepoint { codepoint: 0xA711, name: "MODIFIER LETTER EXTRA-LOW DOTTED LEFT-STEM TONE BAR", aliases: &[] },
        Codepoint { codepoint: 0xA712, name: "MODIFIER LETTER EXTRA-HIGH LEFT-STEM TONE BAR", aliases: &[] },
        Codepoint { codepoint: 0xA713, name: "MODIFIER LETTER HIGH LEFT-STEM TONE BAR", aliases: &[] },
        Codepoint { codepoint: 0xA714, name: "MODIFIER LETTER MID LEFT-STEM TONE BAR", aliases: &[] },
        Codepoint { codepoint: 0xA715, name: "MODIFIER LETTER LOW LEFT-STEM TONE BAR", aliases: &[] },
        Codepoint { codepoint: 0xA716, name: "MODIFIER LETTER EXTRA-LOW LEFT-STEM TONE BAR", aliases: &[] },
        Codepoint { codepoint: 0xA717, name: "MODIFIER LETTER DOT VERTICAL BAR", aliases: &[] },
        Codepoint { codepoint: 0xA718, name: "MODIFIER LETTER DOT SLASH", aliases: &[] },
        Codepoint { codepoint: 0xA719, name: "MODIFIER LETTER DOT HORIZONTAL BAR", aliases: &[] },
        Codepoint { codepoint: 0xA71A, name: "MODIFIER LETTER LOWER RIGHT CORNER ANGLE", aliases: &[] },
        Codepoint { codepoint: 0xA71B, name: "MODIFIER LETTER RAISED UP ARROW", aliases: &[] },
    ]
}

fn all_codepoints_351() -> (v: Vec<Codepoint>)
    ensures
        v@ == codepoint_table_351(),
{
    let v = vec![
        Codepoint { codepoint: 0xA6EC, name: "BAMUM LETTER SAMBA", aliases: &[] },
        Codepoint { codepoint: 0xA6ED, name: "BAMUM LETTER FAAMAE", aliases: &[] },
        Codepoint { codepoint: 0xA6EE, name: "BAMUM LETTER KOVUU", aliases: &[] },
        Codepoint { codepoint: 0xA6EF, name: "BAMUM LETTER KOGHOM", aliases: &[] },
        Codepoint { codepoint: 0xA6F0, name: "BAMUM COMBINING MARK KOQNDON", aliases: &[] },
        Codepoint { codepoint: 0xA6F1, name: "BAMUM COMBINING MARK TUKWENTIS", aliases: &[] },
        Codepoint { codepoint: 0xA6F2, name: "BAMUM NJAEMLI", aliases: &[] },
        Codepoint { codepoint: 0xA6F3, name: "BAMUM FULL STOP", aliases: &[] },
        Codepoint { codepoint: 0xA6F4, name: "BAMUM COLON", aliases: &[] },
        Codepoint { codepoint: 0xA6F5, name: "BAMUM COMMA", aliases: &[] },
        Codepoint { codepoint: 0xA6F6, name: "BAMUM SEMICOLON", aliases: &[] },
        Codepoint { codepoint: 0xA6F7, name: "BAMUM QUESTION MARK", aliases: &[] },
        Codepoint { codepoint: 0xA700, name: "MODIFIER LETTER CHINESE TONE YIN PING", aliases: &[] },
        Codepoint { codepoint: 0xA701, name: "MODIFIER LETTER CHINESE TONE YANG PING", aliases: &[] },
        Codepoint { codepoint: 0xA702, name: "MODIFIER LETTER CHINESE TONE YIN SHANG", aliases: &[] },
        Codepoint { codepoint: 0xA703, name: "MODIFIER LETTER CHINESE TONE YANG SHANG", aliases: &[] },
        Codepoint { codepoint: 0xA704, name: "MODIFIER LETTER CHINESE TONE YIN QU", aliases: &[] },
        Codepoint { codepoint: 0xA705, name: "MODIFIER LETTER CHINESE TONE YANG QU", aliases: &[] },
        Codepoint { codepoint: 0xA706, name: "MODIFIER LETTER CHINESE TONE YIN RU", aliases: &[] },
        Codepoint { codepoint: 0xA707, name: "MODIFIER LETTER CHINESE TONE YANG RU", aliases: &[] },
        Codepoint { codepoint: 0xA708, name: "MODIFIER LETTER EXTRA-HIGH DOTTED TONE BAR", aliases: &[] },
        Codepoint { codepoint: 0xA709, name: "MODIFIER LETTER HIGH DOTTED TONE BAR", aliases: &[] },
        Codepoint { codepoint: 0xA70A, name: "MODIFIER LETTER MID DOTTED TONE BAR", aliases: &[] },
        Codepoint { codepoint: 0xA70B, name: "MODIFIER LETTER LOW DOTTED TONE BAR", aliases: &[] },
        Codepoint { codepoint: 0xA70C, name: "MODIFIER LETTER EXTRA-LOW DOTTED TONE BAR", aliases: &[] },
        Codepoint { codepoint: 0xA70D, name: "MODIFIER LETTER EXTRA-HIGH DOTTED LEFT-STEM TONE BAR", aliases: &[] },
        Codepoint { codepoint: 0xA70E, name: "MODIFIER LETTER HIGH DOTTED LEFT-STEM TONE BAR", aliases: &[] },
        Codepoint { codepoint: 0xA70F, name: "MODIFIER LETTER MID DOTTED LEFT-STEM TONE BAR", aliases: &[] },
        Codepoint { codepoint: 0xA710, name: "MODIFIER LETTER LOW DOTTED LEFT-STEM TONE BAR", aliases: &[] },
        Codepoint { codepoint: 0xA711, name: "MODIFIER LETTER EXTRA-LOW DOTTED LEFT-STEM TONE BAR", aliases: &[] },
        Codepoint { codepoint: 0xA712, name: "MODIFIER LETTER EXTRA-HIGH LEFT-STEM TONE BAR", aliases: &[] },
        Codepoint { codepoint: 0xA713, name: "MODIFIER LETTER HIGH LEFT-STEM TONE BAR", aliases: &[] },
        Codepoint { codepoint: 0xA714, name: "MODIFIER LETTER MID LEFT-STEM TONE BAR", aliases: &[] },
        Codepoint { codepoint: 0xA715, name: "MODIFIER LETTER LOW LEFT-STEM TONE BAR", aliases: &[] },
        Codepoint { codepoint: 0xA716, name: "MODIFIER LETTER EXTRA-LOW LEFT-STEM TONE BAR", aliases: &[] },
        Codepoint { codepoint: 0xA717, name: "MODIFIER LETTER DOT VERTICAL BAR", aliases: &[] },
        Codepoint { codepoint: 0xA718, name: "MODIFIER LETTER DOT SLASH", aliases: &[] },
        Codepoint { codepoint: 0xA719, name: "MODIFIER LETTER DOT HORIZONTAL BAR", aliases: &[] },
        Codepoint { codepoint: 0xA71A, name: "MODIFIER LETTER LOWER RIGHT CORNER ANGLE", aliases: &[] },
        Codepoint { codepoint: 0xA71B, name: "MODIFIER LETTER RAISED UP ARROW", aliases: &[] },
    ];
    assert(v@ =~= codepoint_table_351());
    v
}

pub open spec fn codepoint_table_352() -> Seq<Codepoint> {
    seq![
        Codepoint { codepoint: 0xA71C, name: "MODIFIER LETTER RAISED DOWN ARROW", aliases: &[] },
        Codepoint { codepoint: 0xA71D, name: "MODIFIER LETTER RAISED EXCLAMATION MARK", aliases: &[] },
        Codepoint { codepoint: 0xA71E, name: "MODIFIER LETTER RAISED INVERTED EXCLAMATION MARK", aliases: &[] },
        Codepoint { codepoint: 0xA71F, name: "MODIFIER LETTER LOW INVERTED EXCLAMATION MARK", aliases: &[] },
        Codepoint { codepoint: 0xA720, name: "MODIFIER LETTER STRESS AND HIGH TONE", aliases: &[] },
        Codepoint { codepoint: 0xA721, name: "MODIFIER LETTER STRESS AND LOW TONE", aliases: &[] },
        Codepoint { codepoint: 0xA722, name: "LATIN CAPITAL LETTER EGYPTOLOGICAL ALEF", aliases: &[] },
        Codepoint { codepoint: 0xA723, name: "LATIN SMALL LETTER EGYPTOLOGICAL ALEF", aliases: &[] },
        Codepoint { codepoint: 0xA724, name: "LATIN CAPITAL LETTER EGYPTOLOGICAL AIN", aliases: &[] },
        Codepoint { codepoint: 0xA725, name: "LATIN SMALL LETTER EGYPTOLOGICAL AIN", aliases: &[] },
        Codepoint { codepoint: 0xA726, name: "LATIN CAPITAL LETTER HENG", aliases: &[] },
        Codepoint { codepoint: 0xA727, name: "LATIN SMALL LETTER HENG", aliases: &[] },
        Codepoint { codepoint: 0xA728, name: "LATIN CAPITAL LETTER TZ", aliases: &[] },
        Codepoint { codepoint: 0xA729, name: "LATIN SMALL LETTER TZ", aliases: &[] },
        Codepoint { codepoint: 0xA72A, name: "LATIN CAPITAL LETTER TRESILLO", aliases: &[] },
        Codepoint { codepoint: 0xA72B, name: "LATIN SMALL LETTER TRESILLO", aliases: &[] },
        Codepoint { codepoint: 0xA72C, name: "LATIN CAPITAL LETTER CUATRILLO", aliases: &[] },
        Codepoint { codepoint: 0xA72D, name: "LATIN SMALL LETTER CUATRILLO", aliases: &[] },
        Codepoint { codepoint: 0xA72E, name: "LATIN CAPITAL LETTER CUATRILLO WITH COMMA", aliases: &[] },
        Codepoint { codepoint: 0xA72F, name: "LATIN SMALL LETTER CUATRILLO WITH COMMA", aliases: &[] },
        Codepoint { codepoint: 0xA730, name: "LATIN LETTER SMALL CAPITAL F", aliases: &[] },
        Codepoint { codepoint: 0xA731, name: "LATIN LETTER SMALL CAPITAL S", aliases: &[] },
        Codepoint { codepoint: 0xA732, name: "LATIN CAPITAL LETTER AA", aliases: &[] },
        Codepoint { codepoint: 0xA733, name: "LATIN SMALL LETTER AA", aliases: &[] },
        Codepoint { codepoint: 0xA734, name: "LATIN CAPITAL LETTER AO", aliases: &[] },
        Codepoint { codepoint: 0xA735, name: "LATIN SMALL LETTER AO", aliases: &[] },
        Codepoint { codepoint: 0xA736, name: "LATIN CAPITAL LETTER AU", aliases: &[] },
        Codepoint { codepoint: 0xA737, name: "LATIN SMALL LETTER AU", aliases: &[] },
        Codepoint { codepoint: 0xA738, name: "LATIN CAPITAL LETTER AV", aliases: &[] },
        Codepoint { codepoint: 0xA739, name: "LATIN SMALL LETTER AV", aliases: &[] },
        Codepoint { codepoint: 0xA73A, name: "LATIN CAPITAL LETTER AV WITH HORIZONTAL BAR", aliases: &[] },
        Codepoint { codepoint: 0xA73B, name: "LATIN SMALL LETTER AV WITH HORIZONTAL BAR", aliases: &[] },
        Codepoint { codepoint: 0xA73C, name: "LATIN CAPITAL LETTER AY", aliases: &[] },
        Codepoint { codepoint: 0xA73D, name: "LATIN SMALL LETTER AY", aliases: &[] },
        Codepoint { codepoint: 0xA73E, name: "LATIN CAPITAL LETTER REVERSED C WITH DOT", aliases: &[] },
        Codepoint { codepoint: 0xA73F, name: "LATIN SMALL LETTER REVERSED C WITH DOT", aliases: &[] },
        Codepoint { codepoint: 0xA740, name: "LATIN CAPITAL LETTER K WITH STROKE", aliases: &[] },
        Codepoint { codepoint: 0xA741, name: "LATIN SMALL LETTER K WITH STROKE", aliases: &[] },
        Codepoint { codepoint: 0xA742, name: "LATIN CAPITAL LETTER K WITH DIAGONAL STROKE", aliases: &[] },
        Codepoint { codepoint: 0xA743, name: "LATIN SMALL LETTER K WITH DIAGONAL STROKE", aliases: &[] },
    ]
}

fn all_codepoints_352() -> (v: Vec<Codepoint>)
    ensures
        v@ == codepoint_table_352(),
{
    let v = vec![
        Codepoint { codepoint: 0xA71C, name: "MODIFIER LETTER RAISED DOWN ARROW", aliases: &[] },
        Codepoint { codepoint: 0xA71D, name: "MODIFIER LETTER RAISED EXCLAMATION MARK", aliases: &[] },
        Codepoint { codepoint: 0xA71E, name: "MODIFIER LETTER RAISED INVERTED EXCLAMATION MARK", aliases: &[] },
        Codepoint { codepoint: 0xA71F, name: "MODIFIER LETTER LOW INVERTED EXCLAMATION MARK", aliases: &[] },
        Codepoint { codepoint: 0xA720, name: "MODIFIER LETTER STRESS AND HIGH TONE", aliases: &[] },
        Codepoint { codepoint: 0xA721, name: "MODIFIER LETTER STRESS AND LOW TONE", aliases: &[] },
        Codepoint { codepoint: 0xA722, name: "LATIN CAPITAL LETTER EGYPTOLOGICAL ALEF", aliases: &[] },
        Codepoint { codepoint: 0xA723, name: "LATIN SMALL LETTER EGYPTOLOGICAL ALEF", aliases: &[] },
        Codepoint { codepoint: 0xA724, name: "LATIN CAPITAL LETTER EGYPTOLOGICAL AIN", aliases: &[] },
        Codepoint { codepoint: 0xA725, name: "LATIN SMALL LETTER EGYPTOLOGICAL AIN", aliases: &[] },
        Codepoint { codepoint: 0xA726, name: "LATIN CAPITAL LETTER HENG", aliases: &[] },
        Codepoint { codepoint: 0xA727, name: "LATIN SMALL LETTER HENG", aliases: &[] },
        Codepoint { codepoint: 0xA728, name: "LATIN CAPITAL LETTER TZ", aliases: &[] },
        Codepoint { codepoint: 0xA729, name: "LATIN SMALL LETTER TZ", aliases: &[] },
        Codepoint { codepoint: 0xA72A, name: "LATIN CAPITAL LETTER TRESILLO", aliases: &[] },
        Codepoint { codepoint: 0xA72B, name: "LATIN SMALL LETTER TRESILLO", aliases: &[] },
        Codepoint { codepoint: 0xA72C, name: "LATIN CAPITAL LETTER CUATRILLO", aliases: &[] },
        Codepoint { codepoint: 0xA72D, name: "LATIN SMALL LETTER CUATRILLO", aliases: &[] },
        Codepoint { codepoint: 0xA72E, name: "LATIN CAPITAL LETTER CUATRILLO WITH COMMA", aliases: &[] },
        Codepoint { codepoint: 0xA72F, name: "LATIN SMALL LETTER CUATRILLO WITH COMMA", aliases: &[] },
        Codepoint { codepoint: 0xA730, name: "LATIN LETTER SMALL CAPITAL F", aliases: &[] },
        Codepoint { codepoint: 0xA731, name: "LATIN LETTER SMALL CAPITAL S", aliases: &[] },
        Codepoint { codepoint: 0xA732, name: "LATIN CAPITAL LETTER AA", aliases: &[] },
        Codepoint { codepoint: 0xA733, name: "LATIN SMALL LETTER AA", aliases: &[] },
        Codepoint { codepoint: 0xA734, name: "LATIN CAPITAL LETTER AO", aliases: &[] },
        Codepoint { codepoint: 0xA735, name: "LATIN SMALL LETTER AO", aliases: &[] },
        Codepoint { codepoint: 0xA736, name: "LATIN CAPITAL LETTER AU", aliases: &[] },
        Codepoint { codepoint: 0xA737, name: "LATIN SMALL LETTER AU", aliases: &[] },
        Codepoint { codepoint: 0xA738, name: "LATIN CAPITAL LETTER AV", aliases: &[] },
        Codepoint { codepoint: 0xA739, name: "LATIN SMALL LETTER AV", aliases: &[] },
        Codepoint { codepoint: 0xA73A, name: "LATIN CAPITAL LETTER AV WITH HORIZONTAL BAR", aliases: &[] },
        Codepoint { codepoint: 0xA73B, name: "LATIN SMALL LETTER AV WITH HORIZONTAL BAR", aliases: &[] },
        Codepoint { codepoint: 0xA73C, name: "LATIN CAPITAL LETTER AY", aliases: &[] },
        Codepoint { codepoint: 0xA73D, name: "LATIN SMALL LETTER AY", aliases: &[] },
        Codepoint { codepoint: 0xA73E, name: "LATIN CAPITAL LETTER REVERSED C WITH DOT", aliases: &[] },
        Codepoint { codepoint: 0xA73F, name: "LATIN SMALL LETTER REVERSED C WITH DOT", aliases: &[] },
        Codepoint { codepoint: 0xA740, name: "LATIN CAPITAL LETTER K WITH STROKE", aliases: &[] },
        Codepoint { codepoint: 0xA741, name: "LATIN SMALL LETTER K WITH STROKE", aliases: &[] },
        Codepoint { codepoint: 0xA742, name: "LATIN CAPITAL LETTER K WITH DIAGONAL STROKE", aliases: &[] },
        Codepoint { codepoint: 0xA743, name: "LATIN SMALL LETTER K WITH DIAGONAL STROKE", aliases: &[] },
    ];
    assert(v@ =~= codepoint_table_352());
    v
}

pub open spec fn codepoint_table_353() -> Seq<Codepoint> {
    seq![
        Codepoint { codepoint: 0xA744, name: "LATIN CAPITAL LETTER K WITH STROKE AND DIAGONAL STROKE", aliases: &[] },
        Codepoint { codepoint: 0xA745, name: "LATIN SMALL LETTER K WITH STROKE AND DIAGONAL STROKE", aliases: &[] },
        Codepoint { codepoint: 0xA746, name: "LATIN CAPITAL LETTER BROKEN L", aliases: &[] },
        Codepoint { codepoint: 0xA747, name: "LATIN SMALL LETTER BROKEN L", aliases: &[] },
        Codepoint { codepoint: 0xA748, name: "LATIN CAPITAL LETTER L WITH HIGH STROKE", aliases: &[] },
        Codepoint { codepoint: 0xA749, name: "LATIN SMALL LETTER L WITH HIGH STROKE", aliases: &[] },
        Codepoint { codepoint: 0xA74A, name: "LATIN CAPITAL LETTER O WITH LONG STROKE OVERLAY", aliases: &[] },
        Codepoint { codepoint: 0xA74B, name: "LATIN SMALL LETTER O WITH LONG STROKE OVERLAY", aliases: &[] },
        Codepoint { codepoint: 0xA74C, name: "LATIN CAPITAL LETTER O WITH LOOP", aliases: &[] },
        Codepoint { codepoint: 0xA74D, name: "LATIN SMALL LETTER O WITH LOOP", aliases: &[] },
        Codepoint { codepoint: 0xA74E, name: "LATIN CAPITAL LETTER OO", aliases: &[] },
        Codepoint { codepoint: 0xA74F, name: "LATIN SMALL LETTER OO", aliases: &[] },
        Codepoint { codepoint: 0xA750, name: "LATIN CAPITAL LETTER P WITH STROKE THROUGH DESCENDER", aliases: &[] },
        Codepoint { codepoint: 0xA751, name: "LATIN SMALL LETTER P WITH STROKE THROUGH DESCENDER", aliases: &[] },
        Codepoint { codepoint: 0xA752, name: "LATIN CAPITAL LETTER P WITH FLOURISH", aliases: &[] },
        Codepoint { codepoint: 0xA753, name: "LATIN SMALL LETTER P WITH FLOURISH", aliases: &[] },
        Codepoint { codepoint: 0xA754, name: "LATIN CAPITAL LETTER P WITH SQUIRREL TAIL", aliases: &[] },
        Codepoint { codepoint: 0xA755, name: "LATIN SMALL LETTER P WITH SQUIRREL TAIL", aliases: &[] },
        Codepoint { codepoint: 0xA756, name: "LATIN CAPITAL LETTER Q WITH STROKE THROUGH DESCENDER", aliases: &[] },
        Codepoint { codepoint: 0xA757, name: "LATIN SMALL LETTER Q WITH STROKE THROUGH DESCENDER", aliases: &[] },
        Codepoint { codepoint: 0xA758, name: "LATIN CAPITAL LETTER Q WITH DIAGONAL STROKE", aliases: &[] },
        Codepoint { codepoint: 0xA759, name: "LATIN SMALL LETTER Q WITH DIAGONAL STROKE", aliases: &[] },
        Codepoint { codepoint: 0xA75A, name: "LATIN CAPITAL LETTER R ROTUNDA", aliases: &[] },
        Codepoint { codepoint: 0xA75B, name: "LATIN SMALL LETTER R ROTUNDA", aliases: &[] },
        Codepoint { codepoint: 0xA75C, name: "LATIN CAPITAL LETTER RUM ROTUNDA", aliases: &[] },
        Codepoint { codepoint: 0xA75D, name: "LATIN SMALL LETTER RUM ROTUNDA", aliases: &[] },
        Codepoint { codepoint: 0xA75E, name: "LATIN CAPITAL LETTER V WITH DIAGONAL STROKE", aliases: &[] },
        Codepoint { codepoint: 0xA75F, name: "LATIN SMALL LETTER V WITH DIAGONAL STROKE", aliases: &[] },
        Codepoint { codepoint: 0xA760, name: "LATIN CAPITAL LETTER VY", aliases: &[] },
        Codepoint { codepoint: 0xA761, name: "LATIN SMALL LETTER VY", aliases: &[] },
        Codepoint { codepoint: 0xA762, name: "LATIN CAPITAL LETTER VISIGOTHIC Z", aliases: &[] },
        Codepoint { codepoint: 0xA763, name: "LATIN SMALL LETTER VISIGOTHIC Z", aliases: &[] },
        Codepoint { codepoint: 0xA764, name: "LATIN CAPITAL LETTER THORN WITH STROKE", aliases: &[] },
        Codepoint { codepoint: 0xA765, name: "LATIN SMALL LETTER THORN WITH STROKE", aliases: &[] },
        Codepoint { codepoint: 0xA766, name: "LATIN CAPITAL LETTER THORN WITH STROKE THROUGH DESCENDER", aliases: &[] },
        Codepoint { codepoint: 0xA767, name: "LATIN SMALL LETTER THORN WITH STROKE THROUGH DESCENDER", aliases: &[] },
        Codepoint { codepoint: 0xA768, name: "LATIN CAPITAL LETTER VEND", aliases: &[] },
        Codepoint { codepoint: 0xA769, name: "LATIN SMALL LETTER VEND", aliases: &[] },
        Codepoint { codepoint: 0xA76A, name: "LATIN CAPITAL LETTER ET", aliases: &[] },
        Codepoint { codepoint: 0xA76B, name: "LATIN SMALL LETTER ET", aliases: &[] },
    ]
}

fn all_codepoints_353() -> (v: Vec<Codepoint>)
    ensures
        v@ == codepoint_table_353(),
{
    let v = vec![
        Codepoint { codepoint: 0xA744, name: "LATIN CAPITAL LETTER K WITH STROKE AND DIAGONAL STROKE", aliases: &[] },
        Codepoint { codepoint: 0xA745, name: "LATIN SMALL LETTER K WITH STROKE AND DIAGONAL STROKE", aliases: &[] },
        Codepoint { codepoint: 0xA746, name: "LATIN CAPITAL LETTER BROKEN L", aliases: &[] },
        Codepoint { codepoint: 0xA747, name: "LATIN SMALL LETTER BROKEN L", aliases: &[] },
        Codepoint { codepoint: 0xA748, name: "LATIN CAPITAL LETTER L WITH HIGH STROKE", aliases: &[] },
        Codepoint { codepoint: 0xA749, name: "LATIN SMALL LETTER L WITH HIGH STROKE", aliases: &[] },
        Codepoint { codepoint: 0xA74A, name: "LATIN CAPITAL LETTER O WITH LONG STROKE OVERLAY", aliases: &[] },
        Codepoint { codepoint: 0xA74B, name: "LATIN SMALL LETTER O WITH LONG STROKE OVERLAY", aliases: &[] },
        Codepoint { codepoint: 0xA74C, name: "LATIN CAPITAL LETTER O WITH LOOP", aliases: &[] },
        Codepoint { codepoint: 0xA74D, name: "LATIN SMALL LETTER O WITH LOOP", aliases: &[] },
        Codepoint { codepoint: 0xA74E, name: "LATIN CAPITAL LETTER OO", aliases: &[] },
        Codepoint { codepoint: 0xA74F, name: "LATIN SMALL LETTER OO", aliases: &[] },
        Codepoint { codepoint: 0xA750, name: "LATIN CAPITAL LETTER P WITH STROKE THROUGH DESCENDER", aliases: &[] },
        Codepoint { codepoint: 0xA751, name: "LATIN SMALL LETTER P WITH STROKE THROUGH DESCENDER", aliases: &[] },
        Codepoint { codepoint: 0xA752, name: "LATIN CAPITAL LETTER P WITH FLOURISH", aliases: &[] },
        Codepoint { codepoint: 0xA753, name: "LATIN SMALL LETTER P WITH FLOURISH", aliases: &[] },
        Codepoint { codepoint: 0xA754, name: "LATIN CAPITAL LETTER P WITH SQUIRREL TAIL", aliases: &[] },
        Codepoint { codepoint: 0xA755, name: "LATIN SMALL LETTER P WITH SQUIRREL TAIL", aliases: &[] },
        Codepoint { codepoint: 0xA756, name: "LATIN CAPITAL LETTER Q WITH STROKE THROUGH DESCENDER", aliases: &[] },
        Codepoint { codepoint: 0xA757, name: "LATIN SMALL LETTER Q WITH STROKE THROUGH DESCENDER", aliases: &[] },
        Codepoint { codepoint: 0xA758, name: "LATIN CAPITAL LETTER Q WITH DIAGONAL STROKE", aliases: &[] },
        Codepoint { codepoint: 0xA759, name: "LATIN SMALL LETTER Q WITH DIAGONAL STROKE", aliases: &[] },
        Codepoint { codepoint: 0xA75A, name: "LATIN CAPITAL LETTER R ROTUNDA", aliases: &[] },
        Codepoint { codepoint: 0xA75B, name: "LATIN SMALL LETTER R ROTUNDA", aliases: &[] },
        Codepoint { codepoint: 0xA75C, name: "LATIN CAPITAL LETTER RUM ROTUNDA", aliases: &[] },
        Codepoint { codepoint: 0xA75D, name: "LATIN SMALL LETTER RUM ROTUNDA", aliases: &[] },
        Codepoint { codepoint: 0xA75E, name: "LATIN CAPITAL LETTER V WITH DIAGONAL STROKE", aliases: &[] },
        Codepoint { codepoint: 0xA75F, name: "LATIN SMALL LETTER V WITH DIAGONAL STROKE", aliases: &[] },
        Codepoint { codepoint: 0xA760, name: "LATIN CAPITAL LETTER VY", aliases: &[] },
        Codepoint { codepoint: 0xA761, name: "LATIN SMALL LETTER VY", aliases: &[] },
        Codepoint { codepoint: 0xA762, name: "LATIN CAPITAL LETTER VISIGOTHIC Z", aliases: &[] },
        Codepoint { codepoint: 0xA763, name: "LATIN SMALL LETTER VISIGOTHIC Z", aliases: &[] },
        Codepoint { codepoint: 0xA764, name: "LATIN CAPITAL LETTER THORN WITH STROKE", aliases: &[] },
        Codepoint { codepoint: 0xA765, name: "LATIN SMALL LETTER THORN WITH STROKE", aliases: &[] },
        Codepoint { codepoint: 0xA766, name: "LATIN CAPITAL LETTER THORN WITH STROKE THROUGH DESCENDER", aliases: &[] },
        Codepoint { codepoint: 0xA767, name: "LATIN SMALL LETTER THORN WITH STROKE THROUGH DESCENDER", aliases: &[] },
        Codepoint { codepoint: 0xA768, name: "LATIN CAPITAL LETTER VEND", aliases: &[] },
        Codepoint { codepoint: 0xA769, name: "LATIN SMALL LETTER VEND", aliases: &[] },
        Codepoint { codepoint: 0xA76A, name: "LATIN CAPITAL LETTER ET", aliases: &[] },
        Codepoint { codepoint: 0xA76B, name: "LATIN SMALL LETTER ET", aliases: &[] },
    ];
    assert(v@ =~= codepoint_table_353());
    v
}

pub open spec fn codepoint_table_354() -> Seq<Codepoint> {
    seq![
        Codepoint { codepoint: 0xA76C, name: "LATIN CAPITAL LETTER IS", aliases: &[] },
        Codepoint { codepoint: 0xA76D, name: "LATIN SMALL LETTER IS", aliases: &[] },
        Codepoint { codepoint: 0xA76E, name: "LATIN CAPITAL LETTER CON", aliases: &[] },
        Codepoint { codepoint: 0xA76F, name: "LATIN SMALL LETTER CON", aliases: &[] },
        Codepoint { codepoint: 0xA770, name: "MODIFIER LETTER US", aliases: &[] },
        Codepoint { codepoint: 0xA771, name: "LATIN SMALL LETTER DUM", aliases: &[] },
        Codepoint { codepoint: 0xA772, name: "LATIN SMALL LETTER LUM", aliases: &[] },
        Codepoint { codepoint: 0xA773, name: "LATIN SMALL LETTER MUM", aliases: &[] },
        Codepoint { codepoint: 0xA774, name: "LATIN SMALL LETTER NUM", aliases: &[] },
        Codepoint { codepoint: 0xA775, name: "LATIN SMALL LETTER RUM", aliases: &[] },
        Codepoint { codepoint: 0xA776, name: "LATIN LETTER SMALL CAPITAL RUM", aliases: &[] },
        Codepoint { codepoint: 0xA777, name: "LATIN SMALL LETTER TUM", aliases: &[] },
        Codepoint { codepoint: 0xA778, name: "LATIN SMALL LETTER UM", aliases: &[] },
        Codepoint { codepoint: 0xA779, name: "LATIN CAPITAL LETTER INSULAR D", aliases: &[] },
        Codepoint { codepoint: 0xA77A, name: "LATIN SMALL LETTER INSULAR D", aliases: &[] },
        Codepoint { codepoint: 0xA77B, name: "LATIN CAPITAL LETTER INSULAR F", aliases: &[] },
        Codepoint { codepoint: 0xA77C, name: "LATIN SMALL LETTER INSULAR F", aliases: &[] },
        Codepoint { codepoint: 0xA77D, name: "LATIN CAPITAL LETTER INSULAR G", aliases: &[] },
        Codepoint { codepoint: 0xA77E, name: "LATIN CAPITAL LETTER TURNED INSULAR G", aliases: &[] },
        Codepoint { codepoint: 0xA77F, name: "LATIN SMALL LETTER TURNED INSULAR G", aliases: &[] },
        Codepoint { codepoint: 0xA780, name: "LATIN CAPITAL LETTER TURNED L", aliases: &[] },
        Codepoint { codepoint: 0xA781, name: "LATIN SMALL LETTER TURNED L", aliases: &[] },
        Codepoint { codepoint: 0xA782, name: "LATIN CAPITAL LETTER INSULAR R", aliases: &[] },
        Codepoint { codepoint: 0xA783, name: "LATIN SMALL LETTER INSULAR R", aliases: &[] },
        Codepoint { codepoint: 0xA784, name: "LATIN CAPITAL LETTER INSULAR S", aliases: &[] },
        Codepoint { codepoint: 0xA785, name: "LATIN SMALL LETTER INSULAR S", aliases: &[] },
        Codepoint { codepoint: 0xA786, name: "LATIN CAPITAL LETTER INSULAR T", aliases: &[] },
        Codepoint { codepoint: 0xA787, name: "LATIN SMALL LETTER INSULAR T", aliases: &[] },
        Codepoint { codepoint: 0xA788, name: "MODIFIER LETTER LOW CIRCUMFLEX ACCENT", aliases: &[] },
        Codepoint { codepoint: 0xA789, name: "MODIFIER LETTER COLON", aliases: &[] },
        Codepoint { codepoint: 0xA78A, name: "MODIFIER LETTER SHORT EQUALS SIGN", aliases: &[] },
        Codepoint { codepoint: 0xA78B, name: "LATIN CAPITAL LETTER SALTILLO", aliases: &[] },
        Codepoint { codepoint: 0xA78C, name: "LATIN SMALL LETTER SALTILLO", aliases: &[] },
        Codepoint { codepoint: 0xA78D, name: "LATIN CAPITAL LETTER TURNED H", aliases: &[] },
        Codepoint { codepoint: 0xA78E, name: "LATIN SMALL LETTER L WITH RETROFLEX HOOK AND BELT", aliases: &[] },
        Codepoint { codepoint: 0xA78F, name: "LATIN LETTER SINOLOGICAL DOT", aliases: &[] },
        Codepoint { codepoint: 0xA790, name: "LATIN CAPITAL LETTER N WITH DESCENDER", aliases: &[] },
        Codepoint { codepoint: 0xA791, name: "LATIN SMALL LETTER N WITH DESCENDER", aliases: &[] },
        Codepoint { codepoint: 0xA792, name: "LATIN CAPITAL LETTER C WITH BAR", aliases: &[] },
        Codepoint { codepoint: 0xA793, name: "LATIN SMALL LETTER C WITH BAR", aliases: &[] },
    ]
}

fn all_codepoints_354() -> (v: Vec<Codepoint>)
    ensures
        v@ == codepoint_table_354(),
{
    let v = vec![
        Codepoint { codepoint: 0xA76C, name: "LATIN CAPITAL LETTER IS", aliases: &[] },
        Codepoint { codepoint: 0xA76D, name: "LATIN SMALL LETTER IS", aliases: &[] },
        Codepoint { codepoint: 0xA76E, name: "LATIN CAPITAL LETTER CON", aliases: &[] },
        Codepoint { codepoint: 0xA76F, name: "LATIN SMALL LETTER CON", aliases: &[] },
        Codepoint { codepoint: 0xA770, name: "MODIFIER LETTER US", aliases: &[] },
        Codepoint { codepoint: 0xA771, name: "LATIN SMALL LETTER DUM", aliases: &[] },
        Codepoint { codepoint: 0xA772, name: "LATIN SMALL LETTER LUM", aliases: &[] },
        Codepoint { codepoint: 0xA773, name: "LATIN SMALL LETTER MUM", aliases: &[] },
        Codepoint { codepoint: 0xA774, name: "LATIN SMALL LETTER NUM", aliases: &[] },
        Codepoint { codepoint: 0xA775, name: "LATIN SMALL LETTER RUM", aliases: &[] },
        Codepoint { codepoint: 0xA776, name: "LATIN LETTER SMALL CAPITAL RUM", aliases: &[] },
        Codepoint { codepoint: 0xA777, name: "LATIN SMALL LETTER TUM", aliases: &[] },
        Codepoint { codepoint: 0xA778, name: "LATIN SMALL LETTER UM", aliases: &[] },
        Codepoint { codepoint: 0xA779, name: "LATIN CAPITAL LETTER INSULAR D", aliases: &[] },
        Codepoint { codepoint: 0xA77A, name: "LATIN SMALL LETTER INSULAR D", aliases: &[] },
        Codepoint { codepoint: 0xA77B, name: "LATIN CAPITAL LETTER INSULAR F", aliases: &[] },
        Codepoint { codepoint: 0xA77C, name: "LATIN SMALL LETTER INSULAR F", aliases: &[] },
        Codepoint { codepoint: 0xA77D, name: "LATIN CAPITAL LETTER INSULAR G", aliases: &[] },
        Codepoint { codepoint: 0xA77E, name: "LATIN CAPITAL LETTER TURNED INSULAR G", aliases: &[] },
        Codepoint { codepoint: 0xA77F, name: "LATIN SMALL LETTER TURNED INSULAR G", aliases: &[] },
        Codepoint { codepoint: 0xA780, name: "LATIN CAPITAL LETTER TURNED L", aliases: &[] },
        Codepoint { codepoint: 0xA781, name: "LATIN SMALL LETTER TURNED L", aliases: &[] },
        Codepoint { codepoint: 0xA782, name: "LATIN CAPITAL LETTER INSULAR R", aliases: &[] },
        Codepoint { codepoint: 0xA783, name: "LATIN SMALL LETTER INSULAR R", aliases: &[] },
        Codepoint { codepoint: 0xA784, name: "LATIN CAPITAL LETTER INSULAR S", aliases: &[] },
        Codepoint { codepoint: 0xA785, name: "LATIN SMALL LETTER INSULAR S", aliases: &[] },
        Codepoint { codepoint: 0xA786, name: "LATIN CAPITAL LETTER INSULAR T", aliases: &[] },
        Codepoint { codepoint: 0xA787, name: "LATIN SMALL LETTER INSULAR T", aliases: &[] },
        Codepoint { codepoint: 0xA788, name: "MODIFIER LETTER LOW CIRCUMFLEX ACCENT", aliases: &[] },
        Codepoint { codepoint: 0xA789, name: "MODIFIER LETTER COLON", aliases: &[] },
        Codepoint { codepoint: 0xA78A, name: "MODIFIER LETTER SHORT EQUALS SIGN", aliases: &[] },
        Codepoint { codepoint: 0xA78B, name: "LATIN CAPITAL LETTER SALTILLO", aliases: &[] },
        Codepoint { codepoint: 0xA78C, name: "LATIN SMALL LETTER SALTILLO", aliases: &[] },
        Codepoint { codepoint: 0xA78D, name: "LATIN CAPITAL LETTER TURNED H", aliases: &[] },
        Codepoint { codepoint: 0xA78E, name: "LATIN SMALL LETTER L WITH RETROFLEX HOOK AND BELT", aliases: &[] },
        Codepoint { codepoint: 0xA78F, name: "LATIN LETTER SINOLOGICAL DOT", aliases: &[] },
        Codepoint { codepoint: 0xA790, name: "LATIN CAPITAL LETTER N WITH DESCENDER", aliases: &[] },
        Codepoint { codepoint: 0xA791, name: "LATIN SMALL LETTER N WITH DESCENDER", aliases: &[] },
        Codepoint { codepoint: 0xA792, name: "LATIN CAPITAL LETTER C WITH BAR", aliases: &[] },
        Codepoint { codepoint: 0xA793, name: "LATIN SMALL LETTER C WITH BAR", aliases: &[] },
    ];
    assert(v@ =~= codepoint_table_354());
    v
}

pub open spec fn codepoint_table_355() -> Seq<Codepoint> {
    seq![
        Codepoint { codepoint: 0xA794, name: "LATIN SMALL LETTER C WITH PALATAL HOOK", aliases: &[] },
        Codepoint { codepoint: 0xA795, name: "LATIN SMALL LETTER H WITH PALATAL HOOK", aliases: &[] },
        Codepoint { codepoint: 0xA796, name: "LATIN CAPITAL LETTER B WITH FLOURISH", aliases: &[] },
        Codepoint { codepoint: 0xA797, name: "LATIN SMALL LETTER B WITH FLOURISH", aliases: &[] },
        Codepoint { codepoint: 0xA798, name: "LATIN CAPITAL LETTER F WITH STROKE", aliases: &[] },
        Codepoint { codepoint: 0xA799, name: "LATIN SMALL LETTER F WITH STROKE", aliases: &[] },
        Codepoint { codepoint: 0xA79A, name: "LATIN CAPITAL LETTER VOLAPUK AE", aliases: &[] },
        Codepoint { codepoint: 0xA79B, name: "LATIN SMALL LETTER VOLAPUK AE", aliases: &[] },
        Codepoint { codepoint: 0xA79C, name: "LATIN CAPITAL LETTER VOLAPUK OE", aliases: &[] },
        Codepoint { codepoint: 0xA79D, name: "LATIN SMALL LETTER VOLAPUK OE", aliases: &[] },
        Codepoint { codepoint: 0xA79E, name: "LATIN CAPITAL LETTER VOLAPUK UE", aliases: &[] },
        Codepoint { codepoint: 0xA79F, name: "LATIN SMALL LETTER VOLAPUK UE", aliases: &[] },
        Codepoint { codepoint: 0xA7A0, name: "LATIN CAPITAL LETTER G WITH OBLIQUE STROKE", aliases: &[] },
        Codepoint { codepoint: 0xA7A1, name: "LATIN SMALL LETTER G WITH OBLIQUE STROKE", aliases: &[] },
        Codepoint { codepoint: 0xA7A2, name: "LATIN CAPITAL LETTER K WITH OBLIQUE STROKE", aliases: &[] },
        Codepoint { codepoint: 0xA7A3, name: "LATIN SMALL LETTER K WITH OBLIQUE STROKE", aliases: &[] },
        Codepoint { codepoint: 0xA7A4, name: "LATIN CAPITAL LETTER N WITH OBLIQUE STROKE", aliases: &[] },
        Codepoint { codepoint: 0xA7A5, name: "LATIN SMALL LETTER N WITH OBLIQUE STROKE", aliases: &[] },
        Codepoint { codepoint: 0xA7A6, name: "LATIN CAPITAL LETTER R WITH OBLIQUE STROKE", aliases: &[] },
        Codepoint { codepoint: 0xA7A7, name: "LATIN SMALL LETTER R WITH OBLIQUE STROKE", aliases: &[] },
        Codepoint { codepoint: 0xA7A8, name: "LATIN CAPITAL LETTER S WITH OBLIQUE STROKE", aliases: &[] },
        Codepoint { codepoint: 0xA7A9, name: "LATIN SMALL LETTER S WITH OBLIQUE STROKE", aliases: &[] },
        Codepoint { codepoint: 0xA7AA, name: "LATIN CAPITAL LETTER H WITH HOOK", aliases: &[] },
        Codepoint { codepoint: 0xA7AB, name: "LATIN CAPITAL LETTER REVERSED OPEN E", aliases: &[] },
        Codepoint { codepoint: 0xA7AC, name: "LATIN CAPITAL LETTER SCRIPT G", aliases: &[] },
        Codepoint { codepoint: 0xA7AD, name: "LATIN CAPITAL LETTER L WITH BELT", aliases: &[] },
        Codepoint { codepoint: 0xA7AE, name: "LATIN CAPITAL LETTER SMALL CAPITAL I", aliases: &[] },
        Codepoint { codepoint: 0xA7AF, name: "LATIN LETTER SMALL CAPITAL Q", aliases: &[] },
        Codepoint { codepoint: 0xA7B0, name: "LATIN CAPITAL LETTER TURNED K", aliases: &[] },
        Codepoint { codepoint: 0xA7B1, name: "LATIN CAPITAL LETTER TURNED T", aliases: &[] },
        Codepoint { codepoint: 0xA7B2, name: "LATIN CAPITAL LETTER J WITH CROSSED-TAIL", aliases: &[] },
        Codepoint { codepoint: 0xA7B3, name: "LATIN CAPITAL LETTER CHI", aliases: &[] },
        Codepoint { codepoint: 0xA7B4, name: "LATIN CAPITAL LETTER BETA", aliases: &[] },
        Codepoint { codepoint: 0xA7B5, name: "LATIN SMALL LETTER BETA", aliases: &[] },
        Codepoint { codepoint: 0xA7B6, name: "LATIN CAPITAL LETTER OMEGA", aliases: &[] },
        Codepoint { codepoint: 0xA7B7, name: "LATIN SMALL LETTER OMEGA", aliases: &[] },
        Codepoint { codepoint: 0xA7B8, name: "LATIN CAPITAL LETTER U WITH STROKE", aliases: &[] },
        Codepoint { codepoint: 0xA7B9, name: "LATIN SMALL LETTER U WITH STROKE", aliases: &[] },
        Codepoint { codepoint: 0xA7BA, name: "LATIN CAPITAL LETTER GLOTTAL A", aliases: &[] },
        Codepoint { codepoint: 0xA7BB, name: "LATIN SMALL LETTER GLOTTAL A", aliases: &[] },
    ]
}

fn all_codepoints_355() -> (v: Vec<Codepoint>)
    ensures
        v@ == codepoint_table_355(),
{
    let v = vec![
        Codepoint { codepoint: 0xA794, name: "LATIN SMALL LETTER C WITH PALATAL HOOK", aliases: &[] },
        Codepoint { codepoint: 0xA795, name: "LATIN SMALL LETTER H WITH PALATAL HOOK", aliases: &[] },
        Codepoint { codepoint: 0xA796, name: "LATIN CAPITAL LETTER B WITH FLOURISH", aliases: &[] },
        Codepoint { codepoint: 0xA797, name: "LATIN SMALL LETTER B WITH FLOURISH", aliases: &[] },
        Codepoint { codepoint: 0xA798, name: "LATIN CAPITAL LETTER F WITH STROKE", aliases: &[] },
        Codepoint { codepoint: 0xA799, name: "LATIN SMALL LETTER F WITH STROKE", aliases: &[] },
        Codepoint { codepoint: 0xA79A, name: "LATIN CAPITAL LETTER VOLAPUK AE", aliases: &[] },
        Codepoint { codepoint: 0xA79B, name: "LATIN SMALL LETTER VOLAPUK AE", aliases: &[] },
        Codepoint { codepoint: 0xA79C, name: "LATIN CAPITAL LETTER VOLAPUK OE", aliases: &[] },
        Codepoint { codepoint: 0xA79D, name: "LATIN SMALL LETTER VOLAPUK OE", aliases: &[] },
        Codepoint { codepoint: 0xA79E, name: "LATIN CAPITAL LETTER VOLAPUK UE", aliases: &[] },
        Codepoint { codepoint: 0xA79F, name: "LATIN SMALL LETTER VOLAPUK UE", aliases: &[] },
        Codepoint { codepoint: 0xA7A0, name: "LATIN CAPITAL LETTER G WITH OBLIQUE STROKE", aliases: &[] },
        Codepoint { codepoint: 0xA7A1, name: "LATIN SMALL LETTER G WITH OBLIQUE STROKE", aliases: &[] },
        Codepoint { codepoint: 0xA7A2, name: "LATIN CAPITAL LETTER K WITH OBLIQUE STROKE", aliases: &[] },
        Codepoint { codepoint: 0xA7A3, name: "LATIN SMALL LETTER K WITH OBLIQUE STROKE", aliases: &[] },
        Codepoint { codepoint: 0xA7A4, name: "LATIN CAPITAL LETTER N WITH OBLIQUE STROKE", aliases: &[] },
        Codepoint { codepoint: 0xA7A5, name: "LATIN SMALL LETTER N WITH OBLIQUE STROKE", aliases: &[] },
        Codepoint { codepoint: 0xA7A6, name: "LATIN CAPITAL LETTER R WITH OBLIQUE STROKE", aliases: &[] },
        Codepoint { codepoint: 0xA7A7, name: "LATIN SMALL LETTER R WITH OBLIQUE STROKE", aliases: &[] },
        Codepoint { codepoint: 0xA7A8, name: "LATIN CAPITAL LETTER S WITH OBLIQUE STROKE", aliases: &[] },
        Codepoint { codepoint: 0xA7A9, name: "LATIN SMALL LETTER S WITH OBLIQUE STROKE", aliases: &[] },
        Codepoint { codepoint: 0xA7AA, name: "LATIN CAPITAL LETTER H WITH HOOK", aliases: &[] },
        Codepoint { codepoint: 0xA7AB, name: "LATIN CAPITAL LETTER REVERSED OPEN E", aliases: &[] },
        Codepoint { codepoint: 0xA7AC, name: "LATIN CAPITAL LETTER SCRIPT G", aliases: &[] },
        Codepoint { codepoint: 0xA7AD, name: "LATIN CAPITAL LETTER L WITH BELT", aliases: &[] },
        Codepoint { codepoint: 0xA7AE, name: "LATIN CAPITAL LETTER SMALL CAPITAL I", aliases: &[] },
        Codepoint { codepoint: 0xA7AF, name: "LATIN LETTER SMALL CAPITAL Q", aliases: &[] },
        Codepoint { codepoint: 0xA7B0, name: "LATIN CAPITAL LETTER TURNED K", aliases: &[] },
        Codepoint { codepoint: 0xA7B1, name: "LATIN CAPITAL LETTER TURNED T", aliases: &[] },
        Codepoint { codepoint: 0xA7B2, name: "LATIN CAPITAL LETTER J WITH CROSSED-TAIL", aliases: &[] },
        Codepoint { codepoint: 0xA7B3, name: "LATIN CAPITAL LETTER CHI", aliases: &[] },
        Codepoint { codepoint: 0xA7B4, name: "LATIN CAPITAL LETTER BETA", aliases: &[] },
        Codepoint { codepoint: 0xA7B5, name: "LATIN SMALL LETTER BETA", aliases: &[] },
        Codepoint { codepoint: 0xA7B6, name: "LATIN CAPITAL LETTER OMEGA", aliases: &[] },
        Codepoint { codepoint: 0xA7B7, name: "LATIN SMALL LETTER OMEGA", aliases: &[] },
        Codepoint { codepoint: 0xA7B8, name: "LATIN CAPITAL LETTER U WITH STROKE", aliases: &[] },
        Codepoint { codepoint: 0xA7B9, name: "LATIN SMALL LETTER U WITH STROKE", aliases: &[] },
        Codepoint { codepoint: 0xA7BA, name: "LATIN CAPITAL LETTER GLOTTAL A", aliases: &[] },
        Codepoint { codepoint: 0xA7BB, name: "LATIN SMALL LETTER GLOTTAL A", aliases: &[] },
    ];
    assert(v@ =~= codepoint_table_355());
    v
}

pub open spec fn codepoint_table_356() -> Seq<Codepoint> {
    seq![
        Codepoint { codepoint: 0xA7BC, name: "LATIN CAPITAL LETTER GLOTTAL I", aliases: &[] },
        Codepoint { codepoint: 0xA7BD, name: "LATIN SMALL LETTER GLOTTAL I", aliases: &[] },
        Codepoint { codepoint: 0xA7BE, name: "LATIN CAPITAL LETTER GLOTTAL U", aliases: &[] },
        Codepoint { codepoint: 0xA7BF, name: "LATIN SMALL LETTER GLOTTAL U", aliases: &[] },
        Codepoint { codepoint: 0xA7C0, name: "LATIN CAPITAL LETTER OLD POLISH O", aliases: &[] },
        Codepoint { codepoint: 0xA7C1, name: "LATIN SMALL LETTER OLD POLISH O", aliases: &[] },
        Codepoint { codepoint: 0xA7C2, name: "LATIN CAPITAL LETTER ANGLICANA W", aliases: &[] },
        Codepoint { codepoint: 0xA7C3, name: "LATIN SMALL LETTER ANGLICANA W", aliases: &[] },
        Codepoint { codepoint: 0xA7C4, name: "LATIN CAPITAL LETTER C WITH PALATAL HOOK", aliases: &[] },
        Codepoint { codepoint: 0xA7C5, name: "LATIN CAPITAL LETTER S WITH HOOK", aliases: &[] },
        Codepoint { codepoint: 0xA7C6, name: "LATIN CAPITAL LETTER Z WITH PALATAL HOOK", aliases: &[] },
        Codepoint { codepoint: 0xA7C7, name: "LATIN CAPITAL LETTER D WITH SHORT STROKE OVERLAY", aliases: &[] },
        Codepoint { codepoint: 0xA7C8, name: "LATIN SMALL LETTER D WITH SHORT STROKE OVERLAY", aliases: &[] },
        Codepoint { codepoint: 0xA7C9, name: "LATIN CAPITAL LETTER S WITH SHORT STROKE OVERLAY", aliases: &[] },
        Codepoint { codepoint: 0xA7CA, name: "LATIN SMALL LETTER S WITH SHORT STROKE OVERLAY", aliases: &[] },
        Codepoint { codepoint: 0xA7D0, name: "LATIN CAPITAL LETTER CLOSED INSULAR G", aliases: &[] },
        Codepoint { codepoint: 0xA7D1, name: "LATIN SMALL LETTER CLOSED INSULAR G", aliases: &[] },
        Codepoint { codepoint: 0xA7D3, name: "LATIN SMALL LETTER DOUBLE THORN", aliases: &[] },
        Codepoint { codepoint: 0xA7D5, name: "LATIN SMALL LETTER DOUBLE WYNN", aliases: &[] },
        Codepoint { codepoint: 0xA7D6, name: "LATIN CAPITAL LETTER MIDDLE SCOTS S", aliases: &[] },
        Codepoint { codepoint: 0xA7D7, name: "LATIN SMALL LETTER MIDDLE SCOTS S", aliases: &[] },
        Codepoint { codepoint: 0xA7D8, name: "LATIN CAPITAL LETTER SIGMOID S", aliases: &[] },
        Codepoint { codepoint: 0xA7D9, name: "LATIN SMALL LETTER SIGMOID S", aliases: &[] },
        Codepoint { codepoint: 0xA7F2, name: "MODIFIER LETTER CAPITAL C", aliases: &[] },
        Codepoint { codepoint: 0xA7F3, name: "MODIFIER LETTER CAPITAL F", aliases: &[] },
        Codepoint { codepoint: 0xA7F4, name: "MODIFIER LETTER CAPITAL Q", aliases: &[] },
        Codepoint { codepoint: 0xA7F5, name: "LATIN CAPITAL LETTER REVERSED HALF H", aliases: &[] },
        Codepoint { codepoint: 0xA7F6, name: "LATIN SMALL LETTER REVERSED HALF H", aliases: &[] },
        Codepoint { codepoint: 0xA7F7, name: "LATIN EPIGRAPHIC LETTER SIDEWAYS I", aliases: &[] },
        Codepoint { codepoint: 0xA7F8, name: "MODIFIER LETTER CAPITAL H WITH STROKE", aliases: &[] },
        Codepoint { codepoint: 0xA7F9, name: "MODIFIER LETTER SMALL LIGATURE OE", aliases: &[] },
        Codepoint { codepoint: 0xA7FA, name: "LATIN LETTER SMALL CAPITAL TURNED M", aliases: &[] },
        Codepoint { codepoint: 0xA7FB, name: "LATIN EPIGRAPHIC LETTER REVERSED F", aliases: &[] },
        Codepoint { codepoint: 0xA7FC, name: "LATIN EPIGRAPHIC LETTER REVERSED P", aliases: &[] },
        Codepoint { codepoint: 0xA7FD, name: "LATIN EPIGRAPHIC LETTER INVERTED M", aliases: &[] },
        Codepoint { codepoint: 0xA7FE, name: "LATIN EPIGRAPHIC LETTER I LONGA", aliases: &[] },
        Codepoint { codepoint: 0xA7FF, name: "LATIN EPIGRAPHIC LETTER ARCHAIC M", aliases: &[] },
        Codepoint { codepoint: 0xA800, name: "SYLOTI NAGRI LETTER A", aliases: &[] },
        Codepoint { codepoint: 0xA801, name: "SYLOTI NAGRI LETTER I", aliases: &[] },
        Codepoint { codepoint: 0xA802, name: "SYLOTI NAGRI SIGN DVISVARA", aliases: &[] },
    ]
}

fn all_codepoints_356() -> (v: Vec<Codepoint>)
    ensures
        v@ == codepoint_table_356(),
{
    let v = vec![
        Codepoint { codepoint: 0xA7BC, name: "LATIN CAPITAL LETTER GLOTTAL I", aliases: &[] },
        Codepoint { codepoint: 0xA7BD, name: "LATIN SMALL LETTER GLOTTAL I", aliases: &[] },
        Codepoint { codepoint: 0xA7BE, name: "LATIN CAPITAL LETTER GLOTTAL U", aliases: &[] },
        Codepoint { codepoint: 0xA7BF, name: "LATIN SMALL LETTER GLOTTAL U", aliases: &[] },
        Codepoint { codepoint: 0xA7C0, name: "LATIN CAPITAL LETTER OLD POLISH O", aliases: &[] },
        Codepoint { codepoint: 0xA7C1, name: "LATIN SMALL LETTER OLD POLISH O", aliases: &[] },
        Codepoint { codepoint: 0xA7C2, name: "LATIN CAPITAL LETTER ANGLICANA W", aliases: &[] },
        Codepoint { codepoint: 0xA7C3, name: "LATIN SMALL LETTER ANGLICANA W", aliases: &[] },
        Codepoint { codepoint: 0xA7C4, name: "LATIN CAPITAL LETTER C WITH PALATAL HOOK", aliases: &[] },
        Codepoint { codepoint: 0xA7C5, name: "LATIN CAPITAL LETTER S WITH HOOK", aliases: &[] },
        Codepoint { codepoint: 0xA7C6, name: "LATIN CAPITAL LETTER Z WITH PALATAL HOOK", aliases: &[] },
        Codepoint { codepoint: 0xA7C7, name: "LATIN CAPITAL LETTER D WITH SHORT STROKE OVERLAY", aliases: &[] },
        Codepoint { codepoint: 0xA7C8, name: "LATIN SMALL LETTER D WITH SHORT STROKE OVERLAY", aliases: &[] },
        Codepoint { codepoint: 0xA7C9, name: "LATIN CAPITAL LETTER S WITH SHORT STROKE OVERLAY", aliases: &[] },
        Codepoint { codepoint: 0xA7CA, name: "LATIN SMALL LETTER S WITH SHORT STROKE OVERLAY", aliases: &[] },
        Codepoint { codepoint: 0xA7D0, name: "LATIN CAPITAL LETTER CLOSED INSULAR G", aliases: &[] },
        Codepoint { codepoint: 0xA7D1, name: "LATIN SMALL LETTER CLOSED INSULAR G", aliases: &[] },
        Codepoint { codepoint: 0xA7D3, name: "LATIN SMALL LETTER DOUBLE THORN", aliases: &[] },
        Codepoint { codepoint: 0xA7D5, name: "LATIN SMALL LETTER DOUBLE WYNN", aliases: &[] },
        Codepoint { codepoint: 0xA7D6, name: "LATIN CAPITAL LETTER MIDDLE SCOTS S", aliases: &[] },
        Codepoint { codepoint: 0xA7D7, name: "LATIN SMALL LETTER MIDDLE SCOTS S", aliases: &[] },
        Codepoint { codepoint: 0xA7D8, name: "LATIN CAPITAL LETTER SIGMOID S", aliases: &[] },
        Codepoint { codepoint: 0xA7D9, name: "LATIN SMALL LETTER SIGMOID S", aliases: &[] },
        Codepoint { codepoint: 0xA7F2, name: "MODIFIER LETTER CAPITAL C", aliases: &[] },
        Codepoint { codepoint: 0xA7F3, name: "MODIFIER LETTER CAPITAL F", aliases: &[] },
        Codepoint { codepoint: 0xA7F4, name: "MODIFIER LETTER CAPITAL Q", aliases: &[] },
        Codepoint { codepoint: 0xA7F5, name: "LATIN CAPITAL LETTER REVERSED HALF H", aliases: &[] },
        Codepoint { codepoint: 0xA7F6, name: "LATIN SMALL LETTER REVERSED HALF H", aliases: &[] },
        Codepoint { codepoint: 0xA7F7, name: "LATIN EPIGRAPHIC LETTER SIDEWAYS I", aliases: &[] },
        Codepoint { codepoint: 0xA7F8, name: "MODIFIER LETTER CAPITAL H WITH STROKE", aliases: &[] },
        Codepoint { codepoint: 0xA7F9, name: "MODIFIER LETTER SMALL LIGATURE OE", aliases: &[] },
        Codepoint { codepoint: 0xA7FA, name: "LATIN LETTER SMALL CAPITAL TURNED M", aliases: &[] },
        Codepoint { codepoint: 0xA7FB, name: "LATIN EPIGRAPHIC LETTER REVERSED F", aliases: &[] },
        Codepoint { codepoint: 0xA7FC, name: "LATIN EPIGRAPHIC LETTER REVERSED P", aliases: &[] },
        Codepoint { codepoint: 0xA7FD, name: "LATIN EPIGRAPHIC LETTER INVERTED M", aliases: &[] },
        Codepoint { codepoint: 0xA7FE, name: "LATIN EPIGRAPHIC LETTER I LONGA", aliases: &[] },
        Codepoint { codepoint: 0xA7FF, name: "LATIN EPIGRAPHIC LETTER ARCHAIC M", aliases: &[] },
        Codepoint { codepoint: 0xA800, name: "SYLOTI NAGRI LETTER A", aliases: &[] },
        Codepoint { codepoint: 0xA801, name: "SYLOTI NAGRI LETTER I", aliases: &[] },
        Codepoint { codepoint: 0xA802, name: "SYLOTI NAGRI SIGN DVISVARA", aliases: &[] },
    ];
    assert(v@ =~= codepoint_table_356());
    v
}

pub open spec fn codepoint_table_357() -> Seq<Codepoint> {
    seq![
        Codepoint { codepoint: 0xA803, name: "SYLOTI NAGRI LETTER U", aliases: &[] },
        Codepoint { codepoint: 0xA804, name: "SYLOTI NAGRI LETTER E", aliases: &[] },
        Codepoint { codepoint: 0xA805, name: "SYLOTI NAGRI LETTER O", aliases: &[] },
        Codepoint { codepoint: 0xA806, name: "SYLOTI NAGRI SIGN HASANTA", aliases: &[] },
        Codepoint { codepoint: 0xA807, name: "SYLOTI NAGRI LETTER KO", aliases: &[] },
        Codepoint { codepoint: 0xA808, name: "SYLOTI NAGRI LETTER KHO", aliases: &[] },
        Codepoint { codepoint: 0xA809, name: "SYLOTI NAGRI LETTER GO", aliases: &[] },
        Codepoint { codepoint: 0xA80A, name: "SYLOTI NAGRI LETTER GHO", aliases: &[] },
        Codepoint { codepoint: 0xA80B, name: "SYLOTI NAGRI SIGN ANUSVARA", aliases: &[] },
        Codepoint { codepoint: 0xA80C, name: "SYLOTI NAGRI LETTER CO", aliases: &[] },
        Codepoint { codepoint: 0xA80D, name: "SYLOTI NAGRI LETTER CHO", aliases: &[] },
        Codepoint { codepoint: 0xA80E, name: "SYLOTI NAGRI LETTER JO", aliases: &[] },
        Codepoint { codepoint: 0xA80F, name: "SYLOTI NAGRI LETTER JHO", aliases: &[] },
        Codepoint { codepoint: 0xA810, name: "SYLOTI NAGRI LETTER TTO", aliases: &[] },
        Codepoint { codepoint: 0xA811, name: "SYLOTI NAGRI LETTER TTHO", aliases: &[] },
        Codepoint { codepoint: 0xA812, name: "SYLOTI NAGRI LETTER DDO", aliases: &[] },
        Codepoint { codepoint: 0xA813, name: "SYLOTI NAGRI LETTER DDHO", aliases: &[] },
        Codepoint { codepoint: 0xA814, name: "SYLOTI NAGRI LETTER TO", aliases: &[] },
        Codepoint { codepoint: 0xA815, name: "SYLOTI NAGRI LETTER THO", aliases: &[] },
        Codepoint { codepoint: 0xA816, name: "SYLOTI NAGRI LETTER DO", aliases: &[] },
        Codepoint { codepoint: 0xA817, name: "SYLOTI NAGRI LETTER DHO", aliases: &[] },
        Codepoint { codepoint: 0xA818, name: "SYLOTI NAGRI LETTER NO", aliases: &[] },
        Codepoint { codepoint: 0xA819, name: "SYLOTI NAGRI LETTER PO", aliases: &[] },
        Codepoint { codepoint: 0xA81A, name: "SYLOTI NAGRI LETTER PHO", aliases: &[] },
        Codepoint { codepoint: 0xA81B, name: "SYLOTI NAGRI LETTER BO", aliases: &[] },
        Codepoint { codepoint: 0xA81C, name: "SYLOTI NAGRI LETTER BHO", aliases: &[] },
        Codepoint { codepoint: 0xA81D, name: "SYLOTI NAGRI LETTER MO", aliases: &[] },
        Codepoint { codepoint: 0xA81E, name: "SYLOTI NAGRI LETTER RO", aliases: &[] },
        Codepoint { codepoint: 0xA81F, name: "SYLOTI NAGRI LETTER LO", aliases: &[] },
        Codepoint { codepoint: 0xA820, name: "SYLOTI NAGRI LETTER RRO", aliases: &[] },
        Codepoint { codepoint: 0xA821, name: "SYLOTI NAGRI LETTER SO", aliases: &[] },
        Codepoint { codepoint: 0xA822, name: "SYLOTI NAGRI LETTER HO", aliases: &[] },
        Codepoint { codepoint: 0xA823, name: "SYLOTI NAGRI VOWEL SIGN A", aliases: &[] },
        Codepoint { codepoint: 0xA824, name: "SYLOTI NAGRI VOWEL SIGN I", aliases: &[] },
        Codepoint { codepoint: 0xA825, name: "SYLOTI NAGRI VOWEL SIGN U", aliases: &[] },
        Codepoint { codepoint: 0xA826, name: "SYLOTI NAGRI VOWEL SIGN E", aliases: &[] },
        Codepoint { codepoint: 0xA827, name: "SYLOTI NAGRI VOWEL SIGN OO", aliases: &[] },
        Codepoint { codepoint: 0xA828, name: "SYLOTI NAGRI POETRY MARK-1", aliases: &[] },
        Codepoint { codepoint: 0xA829, name: "SYLOTI NAGRI POETRY MARK-2", aliases: &[] },
        Codepoint { codepoint: 0xA82A, name: "SYLOTI NAGRI POETRY MARK-3", aliases: &[] },
    ]
}

fn all_codepoints_357() -> (v: Vec<Codepoint>)
    ensures
        v@ == codepoint_table_357(),
{
    let v = vec![
        Codepoint { codepoint: 0xA803, name: "SYLOTI NAGRI LETTER U", aliases: &[] },
        Codepoint { codepoint: 0xA804, name: "SYLOTI NAGRI LETTER E", aliases: &[] },
        Codepoint { codepoint: 0xA805, name: "SYLOTI NAGRI LETTER O", aliases: &[] },
        Codepoint { codepoint: 0xA806, name: "SYLOTI NAGRI SIGN HASANTA", aliases: &[] },
        Codepoint { codepoint: 0xA807, name: "SYLOTI NAGRI LETTER KO", aliases: &[] },
        Codepoint { codepoint: 0xA808, name: "SYLOTI NAGRI LETTER KHO", aliases: &[] },
        Codepoint { codepoint: 0xA809, name: "SYLOTI NAGRI LETTER GO", aliases: &[] },
        Codepoint { codepoint: 0xA80A, name: "SYLOTI NAGRI LETTER GHO", aliases: &[] },
        Codepoint { codepoint: 0xA80B, name: "SYLOTI NAGRI SIGN ANUSVARA", aliases: &[] },
        Codepoint { codepoint: 0xA80C, name: "SYLOTI NAGRI LETTER CO", aliases: &[] },
        Codepoint { codepoint: 0xA80D, name: "SYLOTI NAGRI LETTER CHO", aliases: &[] },
        Codepoint { codepoint: 0xA80E, name: "SYLOTI NAGRI LETTER JO", aliases: &[] },
        Codepoint { codepoint: 0xA80F, name: "SYLOTI NAGRI LETTER JHO", aliases: &[] },
        Codepoint { codepoint: 0xA810, name: "SYLOTI NAGRI LETTER TTO", aliases: &[] },
        Codepoint { codepoint: 0xA811, name: "SYLOTI NAGRI LETTER TTHO", aliases: &[] },
        Codepoint { codepoint: 0xA812, name: "SYLOTI NAGRI LETTER DDO", aliases: &[] },
        Codepoint { codepoint: 0xA813, name: "SYLOTI NAGRI LETTER DDHO", aliases: &[] },
        Codepoint { codepoint: 0xA814, name: "SYLOTI NAGRI LETTER TO", aliases: &[] },
        Codepoint { codepoint: 0xA815, name: "SYLOTI NAGRI LETTER THO", aliases: &[] },
        Codepoint { codepoint: 0xA816, name: "SYLOTI NAGRI LETTER DO", aliases: &[] },
        Codepoint { codepoint: 0xA817, name: "SYLOTI NAGRI LETTER DHO", aliases: &[] },
        Codepoint { codepoint: 0xA818, name: "SYLOTI NAGRI LETTER NO", aliases: &[] },
        Codepoint { codepoint: 0xA819, name: "SYLOTI NAGRI LETTER PO", aliases: &[] },
        Codepoint { codepoint: 0xA81A, name: "SYLOTI NAGRI LETTER PHO", aliases: &[] },
        Codepoint { codepoint: 0xA81B, name: "SYLOTI NAGRI LETTER BO", aliases: &[] },
        Codepoint { codepoint: 0xA81C, name: "SYLOTI NAGRI LETTER BHO", aliases: &[] },
        Codepoint { codepoint: 0xA81D, name: "SYLOTI NAGRI LETTER MO", aliases: &[] },
        Codepoint { codepoint: 0xA81E, name: "SYLOTI NAGRI LETTER RO", aliases: &[] },
        Codepoint { codepoint: 0xA81F, name: "SYLOTI NAGRI LETTER LO", aliases: &[] },
        Codepoint { codepoint: 0xA820, name: "SYLOTI NAGRI LETTER RRO", aliases: &[] },
        Codepoint { codepoint: 0xA821, name: "SYLOTI NAGRI LETTER SO", aliases: &[] },
        Codepoint { codepoint: 0xA822, name: "SYLOTI NAGRI LETTER HO", aliases: &[] },
        Codepoint { codepoint: 0xA823, name: "SYLOTI NAGRI VOWEL SIGN A", aliases: &[] },
        Codepoint { codepoint: 0xA824, name: "SYLOTI NAGRI VOWEL SIGN I", aliases: &[] },
        Codepoint { codepoint: 0xA825, name: "SYLOTI NAGRI VOWEL SIGN U", aliases: &[] },
        Codepoint { codepoint: 0xA826, name: "SYLOTI NAGRI VOWEL SIGN E", aliases: &[] },
        Codepoint { codepoint: 0xA827, name: "SYLOTI NAGRI VOWEL SIGN OO", aliases: &[] },
        Codepoint { codepoint: 0xA828, name: "SYLOTI NAGRI POETRY MARK-1", aliases: &[] },
        Codepoint { codepoint: 0xA829, name: "SYLOTI NAGRI POETRY MARK-2", aliases: &[] },
        Codepoint { codepoint: 0xA82A, name: "SYLOTI NAGRI POETRY MARK-3", aliases: &[] },
    ];
    assert(v@ =~= codepoint_table_357());
    v
}

pub open spec fn codepoint_table_358() -> Seq<Codepoint> {
    seq![
        Codepoint { codepoint: 0xA82B, name: "SYLOTI NAGRI POETRY MARK-4", aliases: &[] },
        Codepoint { codepoint: 0xA82C, name: "SYLOTI NAGRI SIGN ALTERNATE HASANTA", aliases: &[] },
        Codepoint { codepoint: 0xA830, name: "NORTH INDIC FRACTION ONE QUARTER", aliases: &[] },
        Codepoint { codepoint: 0xA831, name: "NORTH INDIC FRACTION ONE HALF", aliases: &[] },
        Codepoint { codepoint: 0xA832, name: "NORTH INDIC FRACTION THREE QUARTERS", aliases: &[] },
        Codepoint { codepoint: 0xA833, name: "NORTH INDIC FRACTION ONE SIXTEENTH", aliases: &[] },
        Codepoint { codepoint: 0xA834, name: "NORTH INDIC FRACTION ONE EIGHTH", aliases: &[] },
        Codepoint { codepoint: 0xA835, name: "NORTH INDIC FRACTION THREE SIXTEENTHS", aliases: &[] },
        Codepoint { codepoint: 0xA836, name: "NORTH INDIC QUARTER MARK", aliases: &[] },
        Codepoint { codepoint: 0xA837, name: "NORTH INDIC PLACEHOLDER MARK", aliases: &[] },
        Codepoint { codepoint: 0xA838, name: "NORTH INDIC RUPEE MARK", aliases: &[] },
        Codepoint { codepoint: 0xA839, name: "NORTH INDIC QUANTITY MARK", aliases: &[] },
        Codepoint { codepoint: 0xA840, name: "PHAGS-PA LETTER KA", aliases: &[] },
        Codepoint { codepoint: 0xA841, name: "PHAGS-PA LETTER KHA", aliases: &[] },
        Codepoint { codepoint: 0xA842, name: "PHAGS-PA LETTER GA", aliases: &[] },
        Codepoint { codepoint: 0xA843, name: "PHAGS-PA LETTER NGA", aliases: &[] },
        Codepoint { codepoint: 0xA844, name: "PHAGS-PA LETTER CA", aliases: &[] },
        Codepoint { codepoint: 0xA845, name: "PHAGS-PA LETTER CHA", aliases: &[] },
        Codepoint { codepoint: 0xA846, name: "PHAGS-PA LETTER JA", aliases: &[] },
        Codepoint { codepoint: 0xA847, name: "PHAGS-PA LETTER NYA", aliases: &[] },
        Codepoint { codepoint: 0xA848, name: "PHAGS-PA LETTER TA", aliases: &[] },
        Codepoint { codepoint: 0xA849, name: "PHAGS-PA LETTER THA", aliases: &[] },
        Codepoint { codepoint: 0xA84A, name: "PHAGS-PA LETTER DA", aliases: &[] },
        Codepoint { codepoint: 0xA84B, name: "PHAGS-PA LETTER NA", aliases: &[] },
        Codepoint { codepoint: 0xA84C, name: "PHAGS-PA LETTER PA", aliases: &[] },
        Codepoint { codepoint: 0xA84D, name: "PHAGS-PA LETTER PHA", aliases: &[] },
        Codepoint { codepoint: 0xA84E, name: "PHAGS-PA LETTER BA", aliases: &[] },
        Codepoint { codepoint: 0xA84F, name: "PHAGS-PA LETTER MA", aliases: &[] },
        Codepoint { codepoint: 0xA850, name: "PHAGS-PA LETTER TSA", aliases: &[] },
        Codepoint { codepoint: 0xA851, name: "PHAGS-PA LETTER TSHA", aliases: &[] },
        Codepoint { codepoint: 0xA852, name: "PHAGS-PA LETTER DZA", aliases: &[] },
        Codepoint { codepoint: 0xA853, name: "PHAGS-PA LETTER WA", aliases: &[] },
        Codepoint { codepoint: 0xA854, name: "PHAGS-PA LETTER ZHA", aliases: &[] },
        Codepoint { codepoint: 0xA855, name: "PHAGS-PA LETTER ZA", aliases: &[] },
        Codepoint { codepoint: 0xA856, name: "PHAGS-PA LETTER SMALL A", aliases: &[] },
        Codepoint { codepoint: 0xA857, name: "PHAGS-PA LETTER YA", aliases: &[] },
        Codepoint { codepoint: 0xA858, name: "PHAGS-PA LETTER RA", aliases: &[] },
        Codepoint { codepoint: 0xA859, name: "PHAGS-PA LETTER LA", aliases: &[] },
        Codepoint { codepoint: 0xA85A, name: "PHAGS-PA LETTER SHA", aliases: &[] },
        Codepoint { codepoint: 0xA85B, name: "PHAGS-PA LETTER SA", aliases: &[] },
    ]
}

fn all_codepoints_358() -> (v: Vec<Codepoint>)
    ensures
        v@ == codepoint_table_358(),
{
    let v = vec![
        Codepoint { codepoint: 0xA82B, name: "SYLOTI NAGRI POETRY MARK-4", aliases: &[] },
        Codepoint { codepoint: 0xA82C, name: "SYLOTI NAGRI SIGN ALTERNATE HASANTA", aliases: &[] },
        Codepoint { codepoint: 0xA830, name: "NORTH INDIC FRACTION ONE QUARTER", aliases: &[] },
        Codepoint { codepoint: 0xA831, name: "NORTH INDIC FRACTION ONE HALF", aliases: &[] },
        Codepoint { codepoint: 0xA832, name: "NORTH INDIC FRACTION THREE QUARTERS", aliases: &[] },
        Codepoint { codepoint: 0xA833, name: "NORTH INDIC FRACTION ONE SIXTEENTH", aliases: &[] },
        Codepoint { codepoint: 0xA834, name: "NORTH INDIC FRACTION ONE EIGHTH", aliases: &[] },
        Codepoint { codepoint: 0xA835, name: "NORTH INDIC FRACTION THREE SIXTEENTHS", aliases: &[] },
        Codepoint { codepoint: 0xA836, name: "NORTH INDIC QUARTER MARK", aliases: &[] },
        Codepoint { codepoint: 0xA837, name: "NORTH INDIC PLACEHOLDER MARK", aliases: &[] },
        Codepoint { codepoint: 0xA838, name: "NORTH INDIC RUPEE MARK", aliases: &[] },
        Codepoint { codepoint: 0xA839, name: "NORTH INDIC QUANTITY MARK", aliases: &[] },
        Codepoint { codepoint: 0xA840, name: "PHAGS-PA LETTER KA", aliases: &[] },
        Codepoint { codepoint: 0xA841, name: "PHAGS-PA LETTER KHA", aliases: &[] },
        Codepoint { codepoint: 0xA842, name: "PHAGS-PA LETTER GA", aliases: &[] },
        Codepoint { codepoint: 0xA843, name: "PHAGS-PA LETTER NGA", aliases: &[] },
        Codepoint { codepoint: 0xA844, name: "PHAGS-PA LETTER CA", aliases: &[] },
        Codepoint { codepoint: 0xA845, name: "PHAGS-PA LETTER CHA", aliases: &[] },
        Codepoint { codepoint: 0xA846, name: "PHAGS-PA LETTER JA", aliases: &[] },
        Codepoint { codepoint: 0xA847, name: "PHAGS-PA LETTER NYA", aliases: &[] },
        Codepoint { codepoint: 0xA848, name: "PHAGS-PA LETTER TA", aliases: &[] },
        Codepoint { codepoint: 0xA849, name: "PHAGS-PA LETTER THA", aliases: &[] },
        Codepoint { codepoint: 0xA84A, name: "PHAGS-PA LETTER DA", aliases: &[] },
        Codepoint { codepoint: 0xA84B, name: "PHAGS-PA LETTER NA", aliases: &[] },
        Codepoint { codepoint: 0xA84C, name: "PHAGS-PA LETTER PA", aliases: &[] },
        Codepoint { codepoint: 0xA84D, name: "PHAGS-PA LETTER PHA", aliases: &[] },
        Codepoint { codepoint: 0xA84E, name: "PHAGS-PA LETTER BA", aliases: &[] },
        Codepoint { codepoint: 0xA84F, name: "PHAGS-PA LETTER MA", aliases: &[] },
        Codepoint { codepoint: 0xA850, name: "PHAGS-PA LETTER TSA", aliases: &[] },
        Codepoint { codepoint: 0xA851, name: "PHAGS-PA LETTER TSHA", aliases: &[] },
        Codepoint { codepoint: 0xA852, name: "PHAGS-PA LETTER DZA", aliases: &[] },
        Codepoint { codepoint: 0xA853, name: "PHAGS-PA LETTER WA", aliases: &[] },
        Codepoint { codepoint: 0xA854, name: "PHAGS-PA LETTER ZHA", aliases: &[] },
        Codepoint { codepoint: 0xA855, name: "PHAGS-PA LETTER ZA", aliases: &[] },
        Codepoint { codepoint: 0xA856, name: "PHAGS-PA LETTER SMALL A", aliases: &[] },
        Codepoint { codepoint: 0xA857, name: "PHAGS-PA LETTER YA", aliases: &[] },
        Codepoint { codepoint: 0xA858, name: "PHAGS-PA LETTER RA", aliases: &[] },
        Codepoint { codepoint: 0xA859, name: "PHAGS-PA LETTER LA", aliases: &[] },
        Codepoint { codepoint: 0xA85A, name: "PHAGS-PA LETTER SHA", aliases: &[] },
        Codepoint { codepoint: 0xA85B, name: "PHAGS-PA LETTER SA", aliases: &[] },
    ];
    assert(v@ =~= codepoint_table_358());
    v
}

pub open spec fn codepoint_table_359() -> Seq<Codepoint> {
    seq![
        Codepoint { codepoint: 0xA85C, name: "PHAGS-PA LETTER HA", aliases: &[] },
        Codepoint { codepoint: 0xA85D, name: "PHAGS-PA LETTER A", aliases: &[] },
        Codepoint { codepoint: 0xA85E, name: "PHAGS-PA LETTER I", aliases: &[] },
        Codepoint { codepoint: 0xA85F, name: "PHAGS-PA LETTER U", aliases: &[] },
        Codepoint { codepoint: 0xA860, name: "PHAGS-PA LETTER E", aliases: &[] },
        Codepoint { codepoint: 0xA861, name: "PHAGS-PA LETTER O", aliases: &[] },
        Codepoint { codepoint: 0xA862, name: "PHAGS-PA LETTER QA", aliases: &[] },
        Codepoint { codepoint: 0xA863, name: "PHAGS-PA LETTER XA", aliases: &[] },
        Codepoint { codepoint: 0xA864, name: "PHAGS-PA LETTER FA", aliases: &[] },
        Codepoint { codepoint: 0xA865, name: "PHAGS-PA LETTER GGA", aliases: &[] },
        Codepoint { codepoint: 0xA866, name: "PHAGS-PA LETTER EE", aliases: &[] },
        Codepoint { codepoint: 0xA867, name: "PHAGS-PA SUBJOINED LETTER WA", aliases: &[] },
        Codepoint { codepoint: 0xA868, name: "PHAGS-PA SUBJOINED LETTER YA", aliases: &[] },
        Codepoint { codepoint: 0xA869, name: "PHAGS-PA LETTER TTA", aliases: &[] },
        Codepoint { codepoint: 0xA86A, name: "PHAGS-PA LETTER TTHA", aliases: &[] },
        Codepoint { codepoint: 0xA86B, name: "PHAGS-PA LETTER DDA", aliases: &[] },
        Codepoint { codepoint: 0xA86C, name: "PHAGS-PA LETTER NNA", aliases: &[] },
        Codepoint { codepoint: 0xA86D, name: "PHAGS-PA LETTER ALTERNATE YA", aliases: &[] },
        Codepoint { codepoint: 0xA86E, name: "PHAGS-PA LETTER VOICELESS SHA", aliases: &[] },
        Codepoint { codepoint: 0xA86F, name: "PHAGS-PA LETTER VOICED HA", aliases: &[] },
        Codepoint { codepoint: 0xA870, name: "PHAGS-PA LETTER ASPIRATED FA", aliases: &[] },
        Codepoint { codepoint: 0xA871, name: "PHAGS-PA SUBJOINED LETTER RA", aliases: &[] },
        Codepoint { codepoint: 0xA872, name: "PHAGS-PA SUPERFIXED LETTER RA", aliases: &[] },
        Codepoint { codepoint: 0xA873, name: "PHAGS-PA LETTER CANDRABINDU", aliases: &[] },
        Codepoint { codepoint: 0xA874, name: "PHAGS-PA SINGLE HEAD MARK", aliases: &[] },
        Codepoint { codepoint: 0xA875, name: "PHAGS-PA DOUBLE HEAD MARK", aliases: &[] },
        Codepoint { codepoint: 0xA876, name: "PHAGS-PA MARK SHAD", aliases: &[] },
        Codepoint { codepoint: 0xA877, name: "PHAGS-PA MARK DOUBLE SHAD", aliases: &[] },
        Codepoint { codepoint: 0xA880, name: "SAURASHTRA SIGN ANUSVARA", aliases: &[] },
        Codepoint { codepoint: 0xA881, name: "SAURASHTRA SIGN VISARGA", aliases: &[] },
        Codepoint { codepoint: 0xA882, name: "SAURASHTRA LETTER A", aliases: &[] },
        Codepoint { codepoint: 0xA883, name: "SAURASHTRA LETTER AA", aliases: &[] },
        Codepoint { codepoint: 0xA884, name: "SAURASHTRA LETTER I", aliases: &[] },
        Codepoint { codepoint: 0xA885, name: "SAURASHTRA LETTER II", aliases: &[] },
        Codepoint { codepoint: 0xA886, name: "SAURASHTRA LETTER U", aliases: &[] },
        Codepoint { codepoint: 0xA887, name: "SAURASHTRA LETTER UU", aliases: &[] },
        Codepoint { codepoint: 0xA888, name: "SAURASHTRA LETTER VOCALIC R", aliases: &[] },
        Codepoint { codepoint: 0xA889, name: "SAURASHTRA LETTER VOCALIC RR", aliases: &[] },
        Codepoint { codepoint: 0xA88A, name: "SAURASHTRA LETTER VOCALIC L", aliases: &[] },
        Codepoint { codepoint: 0xA88B, name: "SAURASHTRA LETTER VOCALIC LL", aliases: &[] },
    ]
}

fn all_codepoints_359() -> (v: Vec<Codepoint>)
    ensures
        v@ == codepoint_table_359(),
{
    let v = vec![
        Codepoint { codepoint: 0xA85C, name: "PHAGS-PA LETTER HA", aliases: &[] },
        Codepoint { codepoint: 0xA85D, name: "PHAGS-PA LETTER A", aliases: &[] },
        Codepoint { codepoint: 0xA85E, name: "PHAGS-PA LETTER I", aliases: &[] },
        Codepoint { codepoint: 0xA85F, name: "PHAGS-PA LETTER U", aliases: &[] },
        Codepoint { codepoint: 0xA860, name: "PHAGS-PA LETTER E", aliases: &[] },
        Codepoint { codepoint: 0xA861, name: "PHAGS-PA LETTER O", aliases: &[] },
        Codepoint { codepoint: 0xA862, name: "PHAGS-PA LETTER QA", aliases: &[] },
        Codepoint { codepoint: 0xA863, name: "PHAGS-PA LETTER XA", aliases: &[] },
        Codepoint { codepoint: 0xA864, name: "PHAGS-PA LETTER FA", aliases: &[] },
        Codepoint { codepoint: 0xA865, name: "PHAGS-PA LETTER GGA", aliases: &[] },
        Codepoint { codepoint: 0xA866, name: "PHAGS-PA LETTER EE", aliases: &[] },
        Codepoint { codepoint: 0xA867, name: "PHAGS-PA SUBJOINED LETTER WA", aliases: &[] },
        Codepoint { codepoint: 0xA868, name: "PHAGS-PA SUBJOINED LETTER YA", aliases: &[] },
        Codepoint { codepoint: 0xA869, name: "PHAGS-PA LETTER TTA", aliases: &[] },
        Codepoint { codepoint: 0xA86A, name: "PHAGS-PA LETTER TTHA", aliases: &[] },
        Codepoint { codepoint: 0xA86B, name: "PHAGS-PA LETTER DDA", aliases: &[] },
        Codepoint { codepoint: 0xA86C, name: "PHAGS-PA LETTER NNA", aliases: &[] },
        Codepoint { codepoint: 0xA86D, name: "PHAGS-PA LETTER ALTERNATE YA", aliases: &[] },
        Codepoint { codepoint: 0xA86E, name: "PHAGS-PA LETTER VOICELESS SHA", aliases: &[] },
        Codepoint { codepoint: 0xA86F, name: "PHAGS-PA LETTER VOICED HA", aliases: &[] },
        Codepoint { codepoint: 0xA870, name: "PHAGS-PA LETTER ASPIRATED FA", aliases: &[] },
        Codepoint { codepoint: 0xA871, name: "PHAGS-PA SUBJOINED LETTER RA", aliases: &[] },
        Codepoint { codepoint: 0xA872, name: "PHAGS-PA SUPERFIXED LETTER RA", aliases: &[] },
        Codepoint { codepoint: 0xA873, name: "PHAGS-PA LETTER CANDRABINDU", aliases: &[] },
        Codepoint { codepoint: 0xA874, name: "PHAGS-PA SINGLE HEAD MARK", aliases: &[] },
        Codepoint { codepoint: 0xA875, name: "PHAGS-PA DOUBLE HEAD MARK", aliases: &[] },
        Codepoint { codepoint: 0xA876, name: "PHAGS-PA MARK SHAD", aliases: &[] },
        Codepoint { codepoint: 0xA877, name: "PHAGS-PA MARK DOUBLE SHAD", aliases: &[] },
        Codepoint { codepoint: 0xA880, name: "SAURASHTRA SIGN ANUSVARA", aliases: &[] },
        Codepoint { codepoint: 0xA881, name: "SAURASHTRA SIGN VISARGA", aliases: &[] },
        Codepoint { codepoint: 0xA882, name: "SAURASHTRA LETTER A", aliases: &[] },
        Codepoint { codepoint: 0xA883, name: "SAURASHTRA LETTER AA", aliases: &[] },
        Codepoint { codepoint: 0xA884, name: "SAURASHTRA LETTER I", aliases: &[] },
        Codepoint { codepoint: 0xA885, name: "SAURASHTRA LETTER II", aliases: &[] },
        Codepoint { codepoint: 0xA886, name: "SAURASHTRA LETTER U", aliases: &[] },
        Codepoint { codepoint: 0xA887, name: "SAURASHTRA LETTER UU", aliases: &[] },
        Codepoint { codepoint: 0xA888, name: "SAURASHTRA LETTER VOCALIC R", aliases: &[] },
        Codepoint { codepoint: 0xA889, name: "SAURASHTRA LETTER VOCALIC RR", aliases: &[] },
        Codepoint { codepoint: 0xA88A, name: "SAURASHTRA LETTER VOCALIC L", aliases: &[] },
        Codepoint { codepoint: 0xA88B, name: "SAURASHTRA LETTER VOCALIC LL", aliases: &[] },
    ];
    assert(v@ =~= codepoint_table_359());
    v
}

/// The entries from position 13600 of the table, 800 at most.
pub open spec fn codepoint_group_17() -> Seq<Codepoint> {
    codepoint_table_340() + codepoint_table_341() + codepoint_table_342() + codepoint_table_343() + codepoint_table_344() + codepoint_table_345() + codepoint_table_346() + codepoint_table_347() + codepoint_table_348() + codepoint_table_349() + codepoint_table_350() + codepoint_table_351() + codepoint_table_352() + codepoint_table_353() + codepoint_table_354() + codepoint_table_355() + codepoint_table_356() + codepoint_table_357() + codepoint_table_358() + codepoint_table_359()
}

pub fn all_codepoints_group_17() -> (v: Vec<Codepoint>)
    ensures
        v@ == codepoint_group_17(),
{
    let mut v = all_codepoints_340();
    let mut part = all_codepoints_341();
    v.append(&mut part);
    let mut part = all_codepoints_342();
    v.append(&mut part);
    let mut part = all_codepoints_343();
    v.append(&mut part);
    let mut part = all_codepoints_344();
    v.append(&mut part);
    let mut part = all_codepoints_345();
    v.append(&mut part);
    let mut part = all_codepoints_346();
    v.append(&mut part);
    let mut part = all_codepoints_347();
    v.append(&mut part);
    let mut part = all_codepoints_348();
    v.append(&mut part);
    let mut part = all_codepoints_349();
    v.append(&mut part);
    let mut part = all_codepoints_350();
    v.append(&mut part);
    let mut part = all_codepoints_351();
    v.append(&mut part);
    let mut part = all_codepoints_352();
    v.append(&mut part);
    let mut part = all_codepoints_353();
    v.append(&mut part);
    let mut part = all_codepoints_354();
    v.append(&mut part);
    let mut part = all_codepoints_355();
    v.append(&mut part);
    let mut part = all_codepoints_356();
    v.append(&mut part);
    let mut part = all_codepoints_357();
    v.append(&mut part);
    let mut part = all_codepoints_358();
    v.append(&mut part);
    let mut part = all_codepoints_359();
    v.append(&mut part);
    v
}

pub open spec fn codepoint_table_360() -> Seq<Codepoint> {
    seq![
        Codepoint { codepoint: 0xA88C, name: "SAURASHTRA LETTER E", aliases: &[] },
        Codepoint { codepoint: 0xA88D, name: "SAURASHTRA LETTER EE", aliases: &[] },
        Codepoint { codepoint: 0xA88E, name: "SAURASHTRA LETTER AI", aliases: &[] },
        Codepoint { codepoint: 0xA88F, name: "SAURASHTRA LETTER O", aliases: &[] },
        Codepoint { codepoint: 0xA890, name: "SAURASHTRA LETTER OO", aliases: &[] },
        Codepoint { codepoint: 0xA891, name: "SAURASHTRA LETTER AU", aliases: &[] },
        Codepoint { codepoint: 0xA892, name: "SAURASHTRA LETTER KA", aliases: &[] },
        Codepoint { codepoint: 0xA893, name: "SAURASHTRA LETTER KHA", aliases: &[] },
        Codepoint { codepoint: 0xA894, name: "SAURASHTRA LETTER GA", aliases: &[] },
        Codepoint { codepoint: 0xA895, name: "SAURASHTRA LETTER GHA", aliases: &[] },
        Codepoint { codepoint: 0xA896, name: "SAURASHTRA LETTER NGA", aliases: &[] },
        Codepoint { codepoint: 0xA897, name: "SAURASHTRA LETTER CA", aliases: &[] },
        Codepoint { codepoint: 0xA898, name: "SAURASHTRA LETTER CHA", aliases: &[] },
        Codepoint { codepoint: 0xA899, name: "SAURASHTRA LETTER JA", aliases: &[] },
        Codepoint { codepoint: 0xA89A, name: "SAURASHTRA LETTER JHA", aliases: &[] },
        Codepoint { codepoint: 0xA89B, name: "SAURASHTRA LETTER NYA", aliases: &[] },
        Codepoint { codepoint: 0xA89C, name: "SAURASHTRA LETTER TTA", aliases: &[] },
        Codepoint { codepoint: 0xA89D, name: "SAURASHTRA LETTER TTHA", aliases: &[] },
        Codepoint { codepoint: 0xA89E, name: "SAURASHTRA LETTER DDA", aliases: &[] },
        Codepoint { codepoint: 0xA89F, name: "SAURASHTRA LETTER DDHA", aliases: &[] },
        Codepoint { codepoint: 0xA8A0, name: "SAURASHTRA LETTER NNA", aliases: &[] },
        Codepoint { codepoint: 0xA8A1, name: "SAURASHTRA LETTER TA", aliases: &[] },
        Codepoint { codepoint: 0xA8A2, name: "SAURASHTRA LETTER THA", aliases: &[] },
        Codepoint { codepoint: 0xA8A3, name: "SAURASHTRA LETTER DA", aliases: &[] },
        Codepoint { codepoint: 0xA8A4, name: "SAURASHTRA LETTER DHA", aliases: &[] },
        Codepoint { codepoint: 0xA8A5, name: "SAURASHTRA LETTER NA", aliases: &[] },
        Codepoint { codepoint: 0xA8A6, name: "SAURASHTRA LETTER PA", aliases: &[] },
        Codepoint { codepoint: 0xA8A7, name: "SAURASHTRA LETTER PHA", aliases: &[] },
        Codepoint { codepoint: 0xA8A8, name: "SAURASHTRA LETTER BA", aliases: &[] },
        Codepoint { codepoint: 0xA8A9, name: "SAURASHTRA LETTER BHA", aliases: &[] },
        Codepoint { codepoint: 0xA8AA, name: "SAURASHTRA LETTER MA", aliases: &[] },
        Codepoint { codepoint: 0xA8AB, name: "SAURASHTRA LETTER YA", aliases: &[] },
        Codepoint { codepoint: 0xA8AC, name: "SAURASHTRA LETTER RA", aliases: &[] },
        Codepoint { codepoint: 0xA8AD, name: "SAURASHTRA LETTER LA", aliases: &[] },
        Codepoint { codepoint: 0xA8AE, name: "SAURASHTRA LETTER VA", aliases: &[] },
        Codepoint { codepoint: 0xA8AF, name: "SAURASHTRA LETTER SHA", aliases: &[] },
        Codepoint { codepoint: 0xA8B0, name: "SAURASHTRA LETTER SSA", aliases: &[] },
        Codepoint { codepoint: 0xA8B1, name: "SAURASHTRA LETTER SA", aliases: &[] },
        Codepoint { codepoint: 0xA8B2, name: "SAURASHTRA LETTER HA", aliases: &[] },
        Codepoint { codepoint: 0xA8B3, name: "SAURASHTRA LETTER LLA", aliases: &[] },
    ]
}

fn all_codepoints_360() -> (v: Vec<Codepoint>)
    ensures
        v@ == codepoint_table_360(),
{
    let v = vec![
        Codepoint { codepoint: 0xA88C, name: "SAURASHTRA LETTER E", aliases: &[] },
        Codepoint { codepoint: 0xA88D, name: "SAURASHTRA LETTER EE", aliases: &[] },
        Codepoint { codepoint: 0xA88E, name: "SAURASHTRA LETTER AI", aliases: &[] },
        Codepoint { codepoint: 0xA88F, name: "SAURASHTRA LETTER O", aliases: &[] },
        Codepoint { codepoint: 0xA890, name: "SAURASHTRA LETTER OO", aliases: &[] },
        Codepoint { codepoint: 0xA891, name: "SAURASHTRA LETTER AU", aliases: &[] },
        Codepoint { codepoint: 0xA892, name: "SAURASHTRA LETTER KA", aliases: &[] },
        Codepoint { codepoint: 0xA893, name: "SAURASHTRA LETTER KHA", aliases: &[] },
        Codepoint { codepoint: 0xA894, name: "SAURASHTRA LETTER GA", aliases: &[] },
        Codepoint { codepoint: 0xA895, name: "SAURASHTRA LETTER GHA", aliases: &[] },
        Codepoint { codepoint: 0xA896, name: "SAURASHTRA LETTER NGA", aliases: &[] },
        Codepoint { codepoint: 0xA897, name: "SAURASHTRA LETTER CA", aliases: &[] },
        Codepoint { codepoint: 0xA898, name: "SAURASHTRA LETTER CHA", aliases: &[] },
        Codepoint { codepoint: 0xA899, name: "SAURASHTRA LETTER JA", aliases: &[] },
        Codepoint { codepoint: 0xA89A, name: "SAURASHTRA LETTER JHA", aliases: &[] },
        Codepoint { codepoint: 0xA89B, name: "SAURASHTRA LETTER NYA", aliases: &[] },
        Codepoint { codepoint: 0xA89C, name: "SAURASHTRA LETTER TTA", aliases: &[] },
        Codepoint { codepoint: 0xA89D, name: "SAURASHTRA LETTER TTHA", aliases: &[] },
        Codepoint { codepoint: 0xA89E, name: "SAURASHTRA LETTER DDA", aliases: &[] },
        Codepoint { codepoint: 0xA89F, name: "SAURASHTRA LETTER DDHA", aliases: &[] },
        Codepoint { codepoint: 0xA8A0, name: "SAURASHTRA LETTER NNA", aliases: &[] },
        Codepoint { codepoint: 0xA8A1, name: "SAURASHTRA LETTER TA", aliases: &[] },
        Codepoint { codepoint: 0xA8A2, name: "SAURASHTRA LETTER THA", aliases: &[] },
        Codepoint { codepoint: 0xA8A3, name: "SAURASHTRA LETTER DA", aliases: &[] },
        Codepoint { codepoint: 0xA8A4, name: "SAURASHTRA LETTER DHA", aliases: &[] },
        Codepoint { codepoint: 0xA8A5, name: "SAURASHTRA LETTER NA", aliases: &[] },
        Codepoint { codepoint: 0xA8A6, name: "SAURASHTRA LETTER PA", aliases: &[] },
        Codepoint { codepoint: 0xA8A7, name: "SAURASHTRA LETTER PHA", aliases: &[] },
        Codepoint { codepoint: 0xA8A8, name: "SAURASHTRA LETTER BA", aliases: &[] },
        Codepoint { codepoint: 0xA8A9, name: "SAURASHTRA LETTER BHA", aliases: &[] },
        Codepoint { codepoint: 0xA8AA, name: "SAURASHTRA LETTER MA", aliases: &[] },
        Codepoint { codepoint: 0xA8AB, name: "SAURASHTRA LETTER YA", aliases: &[] },
        Codepoint { codepoint: 0xA8AC, name: "SAURASHTRA LETTER RA", aliases: &[] },
        Codepoint { codepoint: 0xA8AD, name: "SAURASHTRA LETTER LA", aliases: &[] },
        Codepoint { codepoint: 0xA8AE, name: "SAURASHTRA LETTER VA", aliases: &[] },
        Codepoint { codepoint: 0xA8AF, name: "SAURASHTRA LETTER SHA", aliases: &[] },
        Codepoint { codepoint: 0xA8B0, name: "SAURASHTRA LETTER SSA", aliases: &[] },
        Codepoint { codepoint: 0xA8B1, name: "SAURASHTRA LETTER SA", aliases: &[] },
        Codepoint { codepoint: 0xA8B2, name: "SAURASHTRA LETTER HA", aliases: &[] },
        Codepoint { codepoint: 0xA8B3, name: "SAURASHTRA LETTER LLA", aliases: &[] },
    ];
    assert(v@ =~= codepoint_table_360());
    v
}

pub open spec fn codepoint_table_361() -> Seq<Codepoint> {
    seq![
        Codepoint { codepoint: 0xA8B4, name: "SAURASHTRA CONSONANT SIGN HAARU", aliases: &[] },
        Codepoint { codepoint: 0xA8B5, name: "SAURASHTRA VOWEL SIGN AA", aliases: &[] },
        Codepoint { codepoint: 0xA8B6, name: "SAURASHTRA VOWEL SIGN I", aliases: &[] },
        Codepoint { codepoint: 0xA8B7, name: "SAURASHTRA VOWEL SIGN II", aliases: &[] },
        Codepoint { codepoint: 0xA8B8, name: "SAURASHTRA VOWEL SIGN U", aliases: &[] },
        Codepoint { codepoint: 0xA8B9, name: "SAURASHTRA VOWEL SIGN UU", aliases: &[] },
        Codepoint { codepoint: 0xA8BA, name: "SAURASHTRA VOWEL SIGN VOCALIC R", aliases: &[] },
        Codepoint { codepoint: 0xA8BB, name: "SAURASHTRA VOWEL SIGN VOCALIC RR", aliases: &[] },
        Codepoint { codepoint: 0xA8BC, name: "SAURASHTRA VOWEL SIGN VOCALIC L", aliases: &[] },
        Codepoint { codepoint: 0xA8BD, name: "SAURASHTRA VOWEL SIGN VOCALIC LL", aliases: &[] },
        Codepoint { codepoint: 0xA8BE, name: "SAURASHTRA VOWEL SIGN E", aliases: &[] },
        Codepoint { codepoint: 0xA8BF, name: "SAURASHTRA VOWEL SIGN EE", aliases: &[] },
        Codepoint { codepoint: 0xA8C0, name: "SAURASHTRA VOWEL SIGN AI", aliases: &[] },
        Codepoint { codepoint: 0xA8C1, name: "SAURASHTRA VOWEL SIGN O", aliases: &[] },
        Codepoint { codepoint: 0xA8C2, name: "SAURASHTRA VOWEL SIGN OO", aliases: &[] },
        Codepoint { codepoint: 0xA8C3, name: "SAURASHTRA VOWEL SIGN AU", aliases: &[] },
        Codepoint { codepoint: 0xA8C4, name: "SAURASHTRA SIGN VIRAMA", aliases: &[] },
        Codepoint { codepoint: 0xA8C5, name: "SAURASHTRA SIGN CANDRABINDU", aliases: &[] },
        Codepoint { codepoint: 0xA8CE, name: "SAURASHTRA DANDA", aliases: &[] },
        Codepoint { codepoint: 0xA8CF, name: "SAURASHTRA DOUBLE DANDA", aliases: &[] },
        Codepoint { codepoint: 0xA8D0, name: "SAURASHTRA DIGIT ZERO", aliases: &[] },
        Codepoint { codepoint: 0xA8D1, name: "SAURASHTRA DIGIT ONE", aliases: &[] },
        Codepoint { codepoint: 0xA8D2, name: "SAURASHTRA DIGIT TWO", aliases: &[] },
        Codepoint { codepoint: 0xA8D3, name: "SAURASHTRA DIGIT THREE", aliases: &[] },
        Codepoint { codepoint: 0xA8D4, name: "SAURASHTRA DIGIT FOUR", aliases: &[] },
        Codepoint { codepoint: 0xA8D5, name: "SAURASHTRA DIGIT FIVE", aliases: &[] },
        Codepoint { codepoint: 0xA8D6, name: "SAURASHTRA DIGIT SIX", aliases: &[] },
        Codepoint { codepoint: 0xA8D7, name: "SAURASHTRA DIGIT SEVEN", aliases: &[] },
        Codepoint { codepoint: 0xA8D8, name: "SAURASHTRA DIGIT EIGHT", aliases: &[] },
        Codepoint { codepoint: 0xA8D9, name: "SAURASHTRA DIGIT NINE", aliases: &[] },
        Codepoint { codepoint: 0xA8E0, name: "COMBINING DEVANAGARI DIGIT ZERO", aliases: &[] },
        Codepoint { codepoint: 0xA8E1, name: "COMBINING DEVANAGARI DIGIT ONE", aliases: &[] },
        Codepoint { codepoint: 0xA8E2, name: "COMBINING DEVANAGARI DIGIT TWO", aliases: &[] },
        Codepoint { codepoint: 0xA8E3, name: "COMBINING DEVANAGARI DIGIT THREE", aliases: &[] },
        Codepoint { codepoint: 0xA8E4, name: "COMBINING DEVANAGARI DIGIT FOUR", aliases: &[] },
        Codepoint { codepoint: 0xA8E5, name: "COMBINING DEVANAGARI DIGIT FIVE", aliases: &[] },
        Codepoint { codepoint: 0xA8E6, name: "COMBINING DEVANAGARI DIGIT SIX", aliases: &[] },
        Codepoint { codepoint: 0xA8E7, name: "COMBINING DEVANAGARI DIGIT SEVEN", aliases: &[] },
        Codepoint { codepoint: 0xA8E8, name: "COMBINING DEVANAGARI DIGIT EIGHT", aliases: &[] },
        Codepoint { codepoint: 0xA8E9, name: "COMBINING DEVANAGARI DIGIT NINE", aliases: &[] },
    ]
}

fn all_codepoints_361() -> (v: Vec<Codepoint>)
    ensures
        v@ == codepoint_table_361(),
{
    let v = vec![
        Codepoint { codepoint: 0xA8B4, name: "SAURASHTRA CONSONANT SIGN HAARU", aliases: &[] },
        Codepoint { codepoint: 0xA8B5, name: "SAURASHTRA VOWEL SIGN AA", aliases: &[] },
        Codepoint { codepoint: 0xA8B6, name: "SAURASHTRA VOWEL SIGN I", aliases: &[] },
        Codepoint { codepoint: 0xA8B7, name: "SAURASHTRA VOWEL SIGN II", aliases: &[] },
        Codepoint { codepoint: 0xA8B8, name: "SAURASHTRA VOWEL SIGN U", aliases: &[] },
        Codepoint { codepoint: 0xA8B9, name: "SAURASHTRA VOWEL SIGN UU", aliases: &[] },
        Codepoint { codepoint: 0xA8BA, name: "SAURASHTRA VOWEL SIGN VOCALIC R", aliases: &[] },
        Codepoint { codepoint: 0xA8BB, name: "SAURASHTRA VOWEL SIGN VOCALIC RR", aliases: &[] },
        Codepoint { codepoint: 0xA8BC, name: "SAURASHTRA VOWEL SIGN VOCALIC L", aliases: &[] },
        Codepoint { codepoint: 0xA8BD, name: "SAURASHTRA VOWEL SIGN VOCALIC LL", aliases: &[] },
        Codepoint { codepoint: 0xA8BE, name: "SAURASHTRA VOWEL SIGN E", aliases: &[] },
        Codepoint { codepoint: 0xA8BF, name: "SAURASHTRA VOWEL SIGN EE", aliases: &[] },
        Codepoint { codepoint: 0xA8C0, name: "SAURASHTRA VOWEL SIGN AI", aliases: &[] },
        Codepoint { codepoint: 0xA8C1, name: "SAURASHTRA VOWEL SIGN O", aliases: &[] },
        Codepoint { codepoint: 0xA8C2, name: "SAURASHTRA VOWEL SIGN OO", aliases: &[] },
        Codepoint { codepoint: 0xA8C3, name: "SAURASHTRA VOWEL SIGN AU", aliases: &[] },
        Codepoint { codepoint: 0xA8C4, name: "SAURASHTRA SIGN VIRAMA", aliases: &[] },
        Codepoint { codepoint: 0xA8C5, name: "SAURASHTRA SIGN CANDRABINDU", aliases: &[] },
        Codepoint { codepoint: 0xA8CE, name: "SAURASHTRA DANDA", aliases: &[] },
        Codepoint { codepoint: 0xA8CF, name: "SAURASHTRA DOUBLE DANDA", aliases: &[] },
        Codepoint { codepoint: 0xA8D0, name: "SAURASHTRA DIGIT ZERO", aliases: &[] },
        Codepoint { codepoint: 0xA8D1, name: "SAURASHTRA DIGIT ONE", aliases: &[] },
        Codepoint { codepoint: 0xA8D2, name: "SAURASHTRA DIGIT TWO", aliases: &[] },
        Codepoint { codepoint: 0xA8D3, name: "SAURASHTRA DIGIT THREE", aliases: &[] },
        Codepoint { codepoint: 0xA8D4, name: "SAURASHTRA DIGIT FOUR", aliases: &[] },
        Codepoint { codepoint: 0xA8D5, name: "SAURASHTRA DIGIT FIVE", aliases: &[] },
        Codepoint { codepoint: 0xA8D6, name: "SAURASHTRA DIGIT SIX", aliases: &[] },
        Codepoint { codepoint: 0xA8D7, name: "SAURASHTRA DIGIT SEVEN", aliases: &[] },
        Codepoint { codepoint: 0xA8D8, name: "SAURASHTRA DIGIT EIGHT", aliases: &[] },
        Codepoint { codepoint: 0xA8D9, name: "SAURASHTRA DIGIT NINE", aliases: &[] },
        Codepoint { codepoint: 0xA8E0, name: "COMBINING DEVANAGARI DIGIT ZERO", aliases: &[] },
        Codepoint { codepoint: 0xA8E1, name: "COMBINING DEVANAGARI DIGIT ONE", aliases: &[] },
        Codepoint { codepoint: 0xA8E2, name: "COMBINING DEVANAGARI DIGIT TWO", aliases: &[] },
        Codepoint { codepoint: 0xA8E3, name: "COMBINING DEVANAGARI DIGIT THREE", aliases: &[] },
        Codepoint { codepoint: 0xA8E4, name: "COMBINING DEVANAGARI DIGIT FOUR", aliases: &[] },
        Codepoint { codepoint: 0xA8E5, name: "COMBINING DEVANAGARI DIGIT FIVE", aliases: &[] },
        Codepoint { codepoint: 0xA8E6, name: "COMBINING DEVANAGARI DIGIT SIX", aliases: &[] },
        Codepoint { codepoint: 0xA8E7, name: "COMBINING DEVANAGARI DIGIT SEVEN", aliases: &[] },
        Codepoint { codepoint: 0xA8E8, name: "COMBINING DEVANAGARI DIGIT EIGHT", aliases: &[] },
        Codepoint { codepoint: 0xA8E9, name: "COMBINING DEVANAGARI DIGIT NINE", aliases: &[] },
    ];
    assert(v@ =~= codepoint_table_361());
    v
}

pub open spec fn codepoint_table_362() -> Seq<Codepoint> {
    seq![
        Codepoint { codepoint: 0xA8EA, name: "COMBINING DEVANAGARI LETTER A", aliases: &[] },
        Codepoint { codepoint: 0xA8EB, name: "COMBINING DEVANAGARI LETTER U", aliases: &[] },
        Codepoint { codepoint: 0xA8EC, name: "COMBINING DEVANAGARI LETTER KA", aliases: &[] },
        Codepoint { codepoint: 0xA8ED, name: "COMBINING DEVANAGARI LETTER NA", aliases: &[] },
        Codepoint { codepoint: 0xA8EE, name: "COMBINING DEVANAGARI LETTER PA", aliases: &[] },
        Codepoint { codepoint: 0xA8EF, name: "COMBINING DEVANAGARI LETTER RA", aliases: &[] },
        Codepoint { codepoint: 0xA8F0, name: "COMBINING DEVANAGARI LETTER VI", aliases: &[] },
        Codepoint { codepoint: 0xA8F1, name: "COMBINING DEVANAGARI SIGN AVAGRAHA", aliases: &[] },
        Codepoint { codepoint: 0xA8F2, name: "DEVANAGARI SIGN SPACING CANDRABINDU", aliases: &[] },
        Codepoint { codepoint: 0xA8F3, name: "DEVANAGARI SIGN CANDRABINDU VIRAMA", aliases: &[] },
        Codepoint { codepoint: 0xA8F4, name: "DEVANAGARI SIGN DOUBLE CANDRABINDU VIRAMA", aliases: &[] },
        Codepoint { codepoint: 0xA8F5, name: "DEVANAGARI SIGN CANDRABINDU TWO", aliases: &[] },
        Codepoint { codepoint: 0xA8F6, name: "DEVANAGARI SIGN CANDRABINDU THREE", aliases: &[] },
        Codepoint { codepoint: 0xA8F7, name: "DEVANAGARI SIGN CANDRABINDU AVAGRAHA", aliases: &[] },
        Codepoint { codepoint: 0xA8F8, name: "DEVANAGARI SIGN PUSHPIKA", aliases: &[] },
        Codepoint { codepoint: 0xA8F9, name: "DEVANAGARI GAP FILLER", aliases: &[] },
        Codepoint { codepoint: 0xA8FA, name: "DEVANAGARI CARET", aliases: &[] },
        Codepoint { codepoint: 0xA8FB, name: "DEVANAGARI HEADSTROKE", aliases: &[] },
        Codepoint { codepoint: 0xA8FC, name: "DEVANAGARI SIGN SIDDHAM", aliases: &[] },
        Codepoint { codepoint: 0xA8FD, name: "DEVANAGARI JAIN OM", aliases: &[] },
        Codepoint { codepoint: 0xA8FE, name: "DEVANAGARI LETTER AY", aliases: &[] },
        Codepoint { codepoint: 0xA8FF, name: "DEVANAGARI VOWEL SIGN AY", aliases: &[] },
        Codepoint { codepoint: 0xA900, name: "KAYAH LI DIGIT ZERO", aliases: &[] },
        Codepoint { codepoint: 0xA901, name: "KAYAH LI DIGIT ONE", aliases: &[] },
        Codepoint { codepoint: 0xA902, name: "KAYAH LI DIGIT TWO", aliases: &[] },
        Codepoint { codepoint: 0xA903, name: "KAYAH LI DIGIT THREE", aliases: &[] },
        Codepoint { codepoint: 0xA904, name: "KAYAH LI DIGIT FOUR", aliases: &[] },
        Codepoint { codepoint: 0xA905, name: "KAYAH LI DIGIT FIVE", aliases: &[] },
        Codepoint { codepoint: 0xA906, name: "KAYAH LI DIGIT SIX", aliases: &[] },
        Codepoint { codepoint: 0xA907, name: "KAYAH LI DIGIT SEVEN", aliases: &[] },
        Codepoint { codepoint: 0xA908, name: "KAYAH LI DIGIT EIGHT", aliases: &[] },
        Codepoint { codepoint: 0xA909, name: "KAYAH LI DIGIT NINE", aliases: &[] },
        Codepoint { codepoint: 0xA90A, name: "KAYAH LI LETTER KA", aliases: &[] },
        Codepoint { codepoint: 0xA90B, name: "KAYAH LI LETTER KHA", aliases: &[] },
        Codepoint { codepoint: 0xA90C, name: "KAYAH LI LETTER GA", aliases: &[] },
        Codepoint { codepoint: 0xA90D, name: "KAYAH LI LETTER NGA", aliases: &[] },
        Codepoint { codepoint: 0xA90E, name: "KAYAH LI LETTER SA", aliases: &[] },
        Codepoint { codepoint: 0xA90F, name: "KAYAH LI LETTER SHA", aliases: &[] },
        Codepoint { codepoint: 0xA910, name: "KAYAH LI LETTER ZA", aliases: &[] },
        Codepoint { codepoint: 0xA911, name: "KAYAH LI LETTER NYA", aliases: &[] },
    ]
}

fn all_codepoints_362() -> (v: Vec<Codepoint>)
    ensures
        v@ == codepoint_table_362(),
{
    let v = vec![
        Codepoint { codepoint: 0xA8EA, name: "COMBINING DEVANAGARI LETTER A", aliases: &[] },
        Codepoint { codepoint: 0xA8EB, name: "COMBINING DEVANAGARI LETTER U", aliases: &[] },
        Codepoint { codepoint: 0xA8EC, name: "COMBINING DEVANAGARI LETTER KA", aliases: &[] },
        Codepoint { codepoint: 0xA8ED, name: "COMBINING DEVANAGARI LETTER NA", aliases: &[] },
        Codepoint { codepoint: 0xA8EE, name: "COMBINING DEVANAGARI LETTER PA", aliases: &[] },
        Codepoint { codepoint: 0xA8EF, name: "COMBINING DEVANAGARI LETTER RA", aliases: &[] },
        Codepoint { codepoint: 0xA8F0, name: "COMBINING DEVANAGARI LETTER VI", aliases: &[] },
        Codepoint { codepoint: 0xA8F1, name: "COMBINING DEVANAGARI SIGN AVAGRAHA", aliases: &[] },
        Codepoint { codepoint: 0xA8F2, name: "DEVANAGARI SIGN SPACING CANDRABINDU", aliases: &[] },
        Codepoint { codepoint: 0xA8F3, name: "DEVANAGARI SIGN CANDRABINDU VIRAMA", aliases: &[] },
        Codepoint { codepoint: 0xA8F4, name: "DEVANAGARI SIGN DOUBLE CANDRABINDU VIRAMA", aliases: &[] },
        Codepoint { codepoint: 0xA8F5, name: "DEVANAGARI SIGN CANDRABINDU TWO", aliases: &[] },
        Codepoint { codepoint: 0xA8F6, name: "DEVANAGARI SIGN CANDRABINDU THREE", aliases: &[] },
        Codepoint { codepoint: 0xA8F7, name: "DEVANAGARI SIGN CANDRABINDU AVAGRAHA", aliases: &[] },
        Codepoint { codepoint: 0xA8F8, name: "DEVANAGARI SIGN PUSHPIKA", aliases: &[] },
        Codepoint { codepoint: 0xA8F9, name: "DEVANAGARI GAP FILLER", aliases: &[] },
        Codepoint { codepoint: 0xA8FA, name: "DEVANAGARI CARET", aliases: &[] },
        Codepoint { codepoint: 0xA8FB, name: "DEVANAGARI HEADSTROKE", aliases: &[] },
        Codepoint { codepoint: 0xA8FC, name: "DEVANAGARI SIGN SIDDHAM", aliases: &[] },
        Codepoint { codepoint: 0xA8FD, name: "DEVANAGARI JAIN OM", aliases: &[] },
        Codepoint { codepoint: 0xA8FE, name: "DEVANAGARI LETTER AY", aliases: &[] },
        Codepoint { codepoint: 0xA8FF, name: "DEVANAGARI VOWEL SIGN AY", aliases: &[] },
        Codepoint { codepoint: 0xA900, name: "KAYAH LI DIGIT ZERO", aliases: &[] },
        Codepoint { codepoint: 0xA901, name: "KAYAH LI DIGIT ONE", aliases: &[] },
        Codepoint { codepoint: 0xA902, name: "KAYAH LI DIGIT TWO", aliases: &[] },
        Codepoint { codepoint: 0xA903, name: "KAYAH LI DIGIT THREE", aliases: &[] },
        Codepoint { codepoint: 0xA904, name: "KAYAH LI DIGIT FOUR", aliases: &[] },
        Codepoint { codepoint: 0xA905, name: "KAYAH LI DIGIT FIVE", aliases: &[] },
        Codepoint { codepoint: 0xA906, name: "KAYAH LI DIGIT SIX", aliases: &[] },
        Codepoint { codepoint: 0xA907, name: "KAYAH LI DIGIT SEVEN", aliases: &[] },
        Codepoint { codepoint: 0xA908, name: "KAYAH LI DIGIT EIGHT", aliases: &[] },
        Codepoint { codepoint: 0xA909, name: "KAYAH LI DIGIT NINE", aliases: &[] },
        Codepoint { codepoint: 0xA90A, name: "KAYAH LI LETTER KA", aliases: &[] },
        Codepoint { codepoint: 0xA90B, name: "KAYAH LI LETTER KHA", aliases: &[] },
        Codepoint { codepoint: 0xA90C, name: "KAYAH LI LETTER GA", aliases: &[] },
        Codepoint { codepoint: 0xA90D, name: "KAYAH LI LETTER NGA", aliases: &[] },
        Codepoint { codepoint: 0xA90E, name: "KAYAH LI LETTER SA", aliases: &[] },
        Codepoint { codepoint: 0xA90F, name: "KAYAH LI LETTER SHA", aliases: &[] },
        Codepoint { codepoint: 0xA910, name: "KAYAH LI LETTER ZA", aliases: &[] },
        Codepoint { codepoint: 0xA911, name: "KAYAH LI LETTER NYA", aliases: &[] },
    ];
    assert(v@ =~= codepoint_table_362());
    v
}

pub open spec fn codepoint_table_363() -> Seq<Codepoint> {
    seq![
        Codepoint { codepoint: 0xA912, name: "KAYAH LI LETTER TA", aliases: &[] },
        Codepoint { codepoint: 0xA913, name: "KAYAH LI LETTER HTA", aliases: &[] },
        Codepoint { codepoint: 0xA914, name: "KAYAH LI LETTER NA", aliases: &[] },
        Codepoint { codepoint: 0xA915, name: "KAYAH LI LETTER PA", aliases: &[] },
        Codepoint { codepoint: 0xA916, name: "KAYAH LI LETTER PHA", aliases: &[] },
        Codepoint { codepoint: 0xA917, name: "KAYAH LI LETTER MA", aliases: &[] },
        Codepoint { codepoint: 0xA918, name: "KAYAH LI LETTER DA", aliases: &[] },
        Codepoint { codepoint: 0xA919, name: "KAYAH LI LETTER BA", aliases: &[] },
        Codepoint { codepoint: 0xA91A, name: "KAYAH LI LETTER RA", aliases: &[] },
        Codepoint { codepoint: 0xA91B, name: "KAYAH LI LETTER YA", aliases: &[] },
        Codepoint { codepoint: 0xA91C, name: "KAYAH LI LETTER LA", aliases: &[] },
        Codepoint { codepoint: 0xA91D, name: "KAYAH LI LETTER WA", aliases: &[] },
        Codepoint { codepoint: 0xA91E, name: "KAYAH LI LETTER THA", aliases: &[] },
        Codepoint { codepoint: 0xA91F, name: "KAYAH LI LETTER HA", aliases: &[] },
        Codepoint { codepoint: 0xA920, name: "KAYAH LI LETTER VA", aliases: &[] },
        Codepoint { codepoint: 0xA921, name: "KAYAH LI LETTER CA", aliases: &[] },
        Codepoint { codepoint: 0xA922, name: "KAYAH LI LETTER A", aliases: &[] },
        Codepoint { codepoint: 0xA923, name: "KAYAH LI LETTER OE", aliases: &[] },
        Codepoint { codepoint: 0xA924, name: "KAYAH LI LETTER I", aliases: &[] },
        Codepoint { codepoint: 0xA925, name: "KAYAH LI LETTER OO", aliases: &[] },
        Codepoint { codepoint: 0xA926, name: "KAYAH LI VOWEL UE", aliases: &[] },
        Codepoint { codepoint: 0xA927, name: "KAYAH LI VOWEL E", aliases: &[] },
        Codepoint { codepoint: 0xA928, name: "KAYAH LI VOWEL U", aliases: &[] },
        Codepoint { codepoint: 0xA929, name: "KAYAH LI VOWEL EE", aliases: &[] },
        Codepoint { codepoint: 0xA92A, name: "KAYAH LI VOWEL O", aliases: &[] },
        Codepoint { codepoint: 0xA92B, name: "KAYAH LI TONE PLOPHU", aliases: &[] },
        Codepoint { codepoint: 0xA92C, name: "KAYAH LI TONE CALYA", aliases: &[] },
        Codepoint { codepoint: 0xA92D, name: "KAYAH LI TONE CALYA PLOPHU", aliases: &[] },
        Codepoint { codepoint: 0xA92E, name: "KAYAH LI SIGN CWI", aliases: &[] },
        Codepoint { codepoint: 0xA92F, name: "KAYAH LI SIGN SHYA", aliases: &[] },
        Codepoint { codepoint: 0xA930, name: "REJANG LETTER KA", aliases: &[] },
        Codepoint { codepoint: 0xA931, name: "REJANG LETTER GA", aliases: &[] },
        Codepoint { codepoint: 0xA932, name: "REJANG LETTER NGA", aliases: &[] },
        Codepoint { codepoint: 0xA933, name: "REJANG LETTER TA", aliases: &[] },
        Codepoint { codepoint: 0xA934, name: "REJANG LETTER DA", aliases: &[] },
        Codepoint { codepoint: 0xA935, name: "REJANG LETTER NA", aliases: &[] },
        Codepoint { codepoint: 0xA936, name: "REJANG LETTER PA", aliases: &[] },
        Codepoint { codepoint: 0xA937, name: "REJANG LETTER BA", aliases: &[] },
        Codepoint { codepoint: 0xA938, name: "REJANG LETTER MA", aliases: &[] },
        Codepoint { codepoint: 0xA939, name: "REJANG LETTER CA", aliases: &[] },
    ]
}

fn all_codepoints_363() -> (v: Vec<Codepoint>)
    ensures
        v@ == codepoint_table_363(),
{
    let v = vec![
        Codepoint { codepoint: 0xA912, name: "KAYAH LI LETTER TA", aliases: &[] },
        Codepoint { codepoint: 0xA913, name: "KAYAH LI LETTER HTA", aliases: &[] },
        Codepoint { codepoint: 0xA914, name: "KAYAH LI LETTER NA", aliases: &[] },
        Codepoint { codepoint: 0xA915, name: "KAYAH LI LETTER PA", aliases: &[] },
        Codepoint { codepoint: 0xA916, name: "KAYAH LI LETTER PHA", aliases: &[] },
        Codepoint { codepoint: 0xA917, name: "KAYAH LI LETTER MA", aliases: &[] },
        Codepoint { codepoint: 0xA918, name: "KAYAH LI LETTER DA", aliases: &[] },
        Codepoint { codepoint: 0xA919, name: "KAYAH LI LETTER BA", aliases: &[] },
        Codepoint { codepoint: 0xA91A, name: "KAYAH LI LETTER RA", aliases: &[] },
        Codepoint { codepoint: 0xA91B, name: "KAYAH LI LETTER YA", aliases: &[] },
        Codepoint { codepoint: 0xA91C, name: "KAYAH LI LETTER LA", aliases: &[] },
        Codepoint { codepoint: 0xA91D, name: "KAYAH LI LETTER WA", aliases: &[] },
        Codepoint { codepoint: 0xA91E, name: "KAYAH LI LETTER THA", aliases: &[] },
        Codepoint { codepoint: 0xA91F, name: "KAYAH LI LETTER HA", aliases: &[] },
        Codepoint { codepoint: 0xA920, name: "KAYAH LI LETTER VA", aliases: &[] },
        Codepoint { codepoint: 0xA921, name: "KAYAH LI LETTER CA", aliases: &[] },
        Codepoint { codepoint: 0xA922, name: "KAYAH LI LETTER A", aliases: &[] },
        Codepoint { codepoint: 0xA923, name: "KAYAH LI LETTER OE", aliases: &[] },
        Codepoint { codepoint: 0xA924, name: "KAYAH LI LETTER I", aliases: &[] },
        Codepoint { codepoint: 0xA925, name: "KAYAH LI LETTER OO", aliases: &[] },
        Codepoint { codepoint: 0xA926, name: "KAYAH LI VOWEL UE", aliases: &[] },
        Codepoint { codepoint: 0xA927, name: "KAYAH LI VOWEL E", aliases: &[] },
        Codepoint { codepoint: 0xA928, name: "KAYAH LI VOWEL U", aliases: &[] },
        Codepoint { codepoint: 0xA929, name: "KAYAH LI VOWEL EE", aliases: &[] },
        Codepoint { codepoint: 0xA92A, name: "KAYAH LI VOWEL O", aliases: &[] },
        Codepoint { codepoint: 0xA92B, name: "KAYAH LI TONE PLOPHU", aliases: &[] },
        Codepoint { codepoint: 0xA92C, name: "KAYAH LI TONE CALYA", aliases: &[] },
        Codepoint { codepoint: 0xA92D, name: "KAYAH LI TONE CALYA PLOPHU", aliases: &[] },
        Codepoint { codepoint: 0xA92E, name: "KAYAH LI SIGN CWI", aliases: &[] },
        Codepoint { codepoint: 0xA92F, name: "KAYAH LI SIGN SHYA", aliases: &[] },
        Codepoint { codepoint: 0xA930, name: "REJANG LETTER KA", aliases: &[] },
        Codepoint { codepoint: 0xA931, name: "REJANG LETTER GA", aliases: &[] },
        Codepoint { codepoint: 0xA932, name: "REJANG LETTER NGA", aliases: &[] },
        Codepoint { codepoint: 0xA933, name: "REJANG LETTER TA", aliases: &[] },
        Codepoint { codepoint: 0xA934, name: "REJANG LETTER DA", aliases: &[] },
        Codepoint { codepoint: 0xA935, name: "REJANG LETTER NA", aliases: &[] },
        Codepoint { codepoint: 0xA936, name: "REJANG LETTER PA", aliases: &[] },
        Codepoint { codepoint: 0xA937, name: "REJANG LETTER BA", aliases: &[] },
        Codepoint { codepoint: 0xA938, name: "REJANG LETTER MA", aliases: &[] },
        Codepoint { codepoint: 0xA939, name: "REJANG LETTER CA", aliases: &[] },
    ];
    assert(v@ =~= codepoint_table_363());
    v
}

pub open spec fn codepoint_table_364() -> Seq<Codepoint> {
    seq![
        Codepoint { codepoint: 0xA93A, name: "REJANG LETTER JA", aliases: &[] },
        Codepoint { codepoint: 0xA93B, name: "REJANG LETTER NYA", aliases: &[] },
        Codepoint { codepoint: 0xA93C, name: "REJANG LETTER SA", aliases: &[] },
        Codepoint { codepoint: 0xA93D, name: "REJANG LETTER RA", aliases: &[] },
        Codepoint { codepoint: 0xA93E, name: "REJANG LETTER LA", aliases: &[] },
        Codepoint { codepoint: 0xA93F, name: "REJANG LETTER YA", aliases: &[] },
        Codepoint { codepoint: 0xA940, name: "REJANG LETTER WA", aliases: &[] },
        Codepoint { codepoint: 0xA941, name: "REJANG LETTER HA", aliases: &[] },
        Codepoint { codepoint: 0xA942, name: "REJANG LETTER MBA", aliases: &[] },
        Codepoint { codepoint: 0xA943, name: "REJANG LETTER NGGA", aliases: &[] },
        Codepoint { codepoint: 0xA944, name: "REJANG LETTER NDA", aliases: &[] },
        Codepoint { codepoint: 0xA945, name: "REJANG LETTER NYJA", aliases: &[] },
        Codepoint { codepoint: 0xA946, name: "REJANG LETTER A", aliases: &[] },
        Codepoint { codepoint: 0xA947, name: "REJANG VOWEL SIGN I", aliases: &[] },
        Codepoint { codepoint: 0xA948, name: "REJANG VOWEL SIGN U", aliases: &[] },
        Codepoint { codepoint: 0xA949, name: "REJANG VOWEL SIGN E", aliases: &[] },
        Codepoint { codepoint: 0xA94A, name: "REJANG VOWEL SIGN AI", aliases: &[] },
        Codepoint { codepoint: 0xA94B, name: "REJANG VOWEL SIGN O", aliases: &[] },
        Codepoint { codepoint: 0xA94C, name: "REJANG VOWEL SIGN AU", aliases: &[] },
        Codepoint { codepoint: 0xA94D, name: "REJANG VOWEL SIGN EU", aliases: &[] },
        Codepoint { codepoint: 0xA94E, name: "REJANG VOWEL SIGN EA", aliases: &[] },
        Codepoint { codepoint: 0xA94F, name: "REJANG CONSONANT SIGN NG", aliases: &[] },
        Codepoint { codepoint: 0xA950, name: "REJANG CONSONANT SIGN N", aliases: &[] },
        Codepoint { codepoint: 0xA951, name: "REJANG CONSONANT SIGN R", aliases: &[] },
        Codepoint { codepoint: 0xA952, name: "REJANG CONSONANT SIGN H", aliases: &[] },
        Codepoint { codepoint: 0xA953, name: "REJANG VIRAMA", aliases: &[] },
        Codepoint { codepoint: 0xA95F, name: "REJANG SECTION MARK", aliases: &[] },
        Codepoint { codepoint: 0xA960, name: "HANGUL CHOSEONG TIKEUT-MIEUM", aliases: &[] },
        Codepoint { codepoint: 0xA961, name: "HANGUL CHOSEONG TIKEUT-PIEUP", aliases: &[] },
        Codepoint { codepoint: 0xA962, name: "HANGUL CHOSEONG TIKEUT-SIOS", aliases: &[] },
        Codepoint { codepoint: 0xA963, name: "HANGUL CHOSEONG TIKEUT-CIEUC", aliases: &[] },
        Codepoint { codepoint: 0xA964, name: "HANGUL CHOSEONG RIEUL-KIYEOK", aliases: &[] },
        Codepoint { codepoint: 0xA965, name: "HANGUL CHOSEONG RIEUL-SSANGKIYEOK", aliases: &[] },
        Codepoint { codepoint: 0xA966, name: "HANGUL CHOSEONG RIEUL-TIKEUT", aliases: &[] },
        Codepoint { codepoint: 0xA967, name: "HANGUL CHOSEONG RIEUL-SSANGTIKEUT", aliases: &[] },
        Codepoint { codepoint: 0xA968, name: "HANGUL CHOSEONG RIEUL-MIEUM", aliases: &[] },
        Codepoint { codepoint: 0xA969, name: "HANGUL CHOSEONG RIEUL-PIEUP", aliases: &[] },
        Codepoint { codepoint: 0xA96A, name: "HANGUL CHOSEONG RIEUL-SSANGPIEUP", aliases: &[] },
        Codepoint { codepoint: 0xA96B, name: "HANGUL CHOSEONG RIEUL-KAPYEOUNPIEUP", aliases: &[] },
        Codepoint { codepoint: 0xA96C, name: "HANGUL CHOSEONG RIEUL-SIOS", aliases: &[] },
    ]
}

fn all_codepoints_364() -> (v: Vec<Codepoint>)
    ensures
        v@ == codepoint_table_364(),
{
    let v = vec![
        Codepoint { codepoint: 0xA93A, name: "REJANG LETTER JA", aliases: &[] },
        Codepoint { codepoint: 0xA93B, name: "REJANG LETTER NYA", aliases: &[] },
        Codepoint { codepoint: 0xA93C, name: "REJANG LETTER SA", aliases: &[] },
        Codepoint { codepoint: 0xA93D, name: "REJANG LETTER RA", aliases: &[] },
        Codepoint { codepoint: 0xA93E, name: "REJANG LETTER LA", aliases: &[] },
        Codepoint { codepoint: 0xA93F, name: "REJANG LETTER YA", aliases: &[] },
        Codepoint { codepoint: 0xA940, name: "REJANG LETTER WA", aliases: &[] },
        Codepoint { codepoint: 0xA941, name: "REJANG LETTER HA", aliases: &[] },
        Codepoint { codepoint: 0xA942, name: "REJANG LETTER MBA", aliases: &[] },
        Codepoint { codepoint: 0xA943, name: "REJANG LETTER NGGA", aliases: &[] },
        Codepoint { codepoint: 0xA944, name: "REJANG LETTER NDA", aliases: &[] },
        Codepoint { codepoint: 0xA945, name: "REJANG LETTER NYJA", aliases: &[] },
        Codepoint { codepoint: 0xA946, name: "REJANG LETTER A", aliases: &[] },
        Codepoint { codepoint: 0xA947, name: "REJANG VOWEL SIGN I", aliases: &[] },
        Codepoint { codepoint: 0xA948, name: "REJANG VOWEL SIGN U", aliases: &[] },
        Codepoint { codepoint: 0xA949, name: "REJANG VOWEL SIGN E", aliases: &[] },
        Codepoint { codepoint: 0xA94A, name: "REJANG VOWEL SIGN AI", aliases: &[] },
        Codepoint { codepoint: 0xA94B, name: "REJANG VOWEL SIGN O", aliases: &[] },
        Codepoint { codepoint: 0xA94C, name: "REJANG VOWEL SIGN AU", aliases: &[] },
        Codepoint { codepoint: 0xA94D, name: "REJANG VOWEL SIGN EU", aliases: &[] },
        Codepoint { codepoint: 0xA94E, name: "REJANG VOWEL SIGN EA", aliases: &[] },
        Codepoint { codepoint: 0xA94F, name: "REJANG CONSONANT SIGN NG", aliases: &[] },
        Codepoint { codepoint: 0xA950, name: "REJANG CONSONANT SIGN N", aliases: &[] },
        Codepoint { codepoint: 0xA951, name: "REJANG CONSONANT SIGN R", aliases: &[] },
        Codepoint { codepoint: 0xA952, name: "REJANG CONSONANT SIGN H", aliases: &[] },
        Codepoint { codepoint: 0xA953, name: "REJANG VIRAMA", aliases: &[] },
        Codepoint { codepoint: 0xA95F, name: "REJANG SECTION MARK", aliases: &[] },
        Codepoint { codepoint: 0xA960, name: "HANGUL CHOSEONG TIKEUT-MIEUM", aliases: &[] },
        Codepoint { codepoint: 0xA961, name: "HANGUL CHOSEONG TIKEUT-PIEUP", aliases: &[] },
        Codepoint { codepoint: 0xA962, name: "HANGUL CHOSEONG TIKEUT-SIOS", aliases: &[] },
        Codepoint { codepoint: 0xA963, name: "HANGUL CHOSEONG TIKEUT-CIEUC", aliases: &[] },
        Codepoint { codepoint: 0xA964, name: "HANGUL CHOSEONG RIEUL-KIYEOK", aliases: &[] },
        Codepoint { codepoint: 0xA965, name: "HANGUL CHOSEONG RIEUL-SSANGKIYEOK", aliases: &[] },
        Codepoint { codepoint: 0xA966, name: "HANGUL CHOSEONG RIEUL-TIKEUT", aliases: &[] },
        Codepoint { codepoint: 0xA967, name: "HANGUL CHOSEONG RIEUL-SSANGTIKEUT", aliases: &[] },
        Codepoint { codepoint: 0xA968, name: "HANGUL CHOSEONG RIEUL-MIEUM", aliases: &[] },
        Codepoint { codepoint: 0xA969, name: "HANGUL CHOSEONG RIEUL-PIEUP", aliases: &[] },
        Codepoint { codepoint: 0xA96A, name: "HANGUL CHOSEONG RIEUL-SSANGPIEUP", aliases: &[] },
        Codepoint { codepoint: 0xA96B, name: "HANGUL CHOSEONG RIEUL-KAPYEOUNPIEUP", aliases: &[] },
        Codepoint { codepoint: 0xA96C, name: "HANGUL CHOSEONG RIEUL-SIOS", aliases: &[] },
    ];
    assert(v@ =~= codepoint_table_364());
    v
}

pub open spec fn codepoint_table_365() -> Seq<Codepoint> {
    seq![
        Codepoint { codepoint: 0xA96D, name: "HANGUL CHOSEONG RIEUL-CIEUC", aliases: &[] },
        Codepoint { codepoint: 0xA96E, name: "HANGUL CHOSEONG RIEUL-KHIEUKH", aliases: &[] },
        Codepoint { codepoint: 0xA96F, name: "HANGUL CHOSEONG MIEUM-KIYEOK", aliases: &[] },
        Codepoint { codepoint: 0xA970, name: "HANGUL CHOSEONG MIEUM-TIKEUT", aliases: &[] },
        Codepoint { codepoint: 0xA971, name: "HANGUL CHOSEONG MIEUM-SIOS", aliases: &[] },
        Codepoint { codepoint: 0xA972, name: "HANGUL CHOSEONG PIEUP-SIOS-THIEUTH", aliases: &[] },
        Codepoint { codepoint: 0xA973, name: "HANGUL CHOSEONG PIEUP-KHIEUKH", aliases: &[] },
        Codepoint { codepoint: 0xA974, name: "HANGUL CHOSEONG PIEUP-HIEUH", aliases: &[] },
        Codepoint { codepoint: 0xA975, name: "HANGUL CHOSEONG SSANGSIOS-PIEUP", aliases: &[] },
        Codepoint { codepoint: 0xA976, name: "HANGUL CHOSEONG IEUNG-RIEUL", aliases: &[] },
        Codepoint { codepoint: 0xA977, name: "HANGUL CHOSEONG IEUNG-HIEUH", aliases: &[] },
        Codepoint { codepoint: 0xA978, name: "HANGUL CHOSEONG SSANGCIEUC-HIEUH", aliases: &[] },
        Codepoint { codepoint: 0xA979, name: "HANGUL CHOSEONG SSANGTHIEUTH", aliases: &[] },
        Codepoint { codepoint: 0xA97A, name: "HANGUL CHOSEONG PHIEUPH-HIEUH", aliases: &[] },
        Codepoint { codepoint: 0xA97B, name: "HANGUL CHOSEONG HIEUH-SIOS", aliases: &[] },
        Codepoint { codepoint: 0xA97C, name: "HANGUL CHOSEONG SSANGYEORINHIEUH", aliases: &[] },
        Codepoint { codepoint: 0xA980, name: "JAVANESE SIGN PANYANGGA", aliases: &[] },
        Codepoint { codepoint: 0xA981, name: "JAVANESE SIGN CECAK", aliases: &[] },
        Codepoint { codepoint: 0xA982, name: "JAVANESE SIGN LAYAR", aliases: &[] },
        Codepoint { codepoint: 0xA983, name: "JAVANESE SIGN WIGNYAN", aliases: &[] },
        Codepoint { codepoint: 0xA984, name: "JAVANESE LETTER A", aliases: &[] },
        Codepoint { codepoint: 0xA985, name: "JAVANESE LETTER I KAWI", aliases: &[] },
        Codepoint { codepoint: 0xA986, name: "JAVANESE LETTER I", aliases: &[] },
        Codepoint { codepoint: 0xA987, name: "JAVANESE LETTER II", aliases: &[] },
        Codepoint { codepoint: 0xA988, name: "JAVANESE LETTER U", aliases: &[] },
        Codepoint { codepoint: 0xA989, name: "JAVANESE LETTER PA CEREK", aliases: &[] },
        Codepoint { codepoint: 0xA98A, name: "JAVANESE LETTER NGA LELET", aliases: &[] },
        Codepoint { codepoint: 0xA98B, name: "JAVANESE LETTER NGA LELET RASWADI", aliases: &[] },
        Codepoint { codepoint: 0xA98C, name: "JAVANESE LETTER E", aliases: &[] },
        Codepoint { codepoint: 0xA98D, name: "JAVANESE LETTER AI", aliases: &[] },
        Codepoint { codepoint: 0xA98E, name: "JAVANESE LETTER O", aliases: &[] },
        Codepoint { codepoint: 0xA98F, name: "JAVANESE LETTER KA", aliases: &[] },
        Codepoint { codepoint: 0xA990, name: "JAVANESE LETTER KA SASAK", aliases: &[] },
        Codepoint { codepoint: 0xA991, name: "JAVANESE LETTER KA MURDA", aliases: &[] },
        Codepoint { codepoint: 0xA992, name: "JAVANESE LETTER GA", aliases: &[] },
        Codepoint { codepoint: 0xA993, name: "JAVANESE LETTER GA MURDA", aliases: &[] },
        Codepoint { codepoint: 0xA994, name: "JAVANESE LETTER NGA", aliases: &[] },
        Codepoint { codepoint: 0xA995, name: "JAVANESE LETTER CA", aliases: &[] },
        Codepoint { codepoint: 0xA996, name: "JAVANESE LETTER CA MURDA", aliases: &[] },
        Codepoint { codepoint: 0xA997, name: "JAVANESE LETTER JA", aliases: &[] },
    ]
}

fn all_codepoints_365() -> (v: Vec<Codepoint>)
    ensures
        v@ == codepoint_table_365(),
{
    let v = vec![
        Codepoint { codepoint: 0xA96D, name: "HANGUL CHOSEONG RIEUL-CIEUC", aliases: &[] },
        Codepoint { codepoint: 0xA96E, name: "HANGUL CHOSEONG RIEUL-KHIEUKH", aliases: &[] },
        Codepoint { codepoint: 0xA96F, name: "HANGUL CHOSEONG MIEUM-KIYEOK", aliases: &[] },
        Codepoint { codepoint: 0xA970, name: "HANGUL CHOSEONG MIEUM-TIKEUT", aliases: &[] },
        Codepoint { codepoint: 0xA971, name: "HANGUL CHOSEONG MIEUM-SIOS", aliases: &[] },
        Codepoint { codepoint: 0xA972, name: "HANGUL CHOSEONG PIEUP-SIOS-THIEUTH", aliases: &[] },
        Codepoint { codepoint: 0xA973, name: "HANGUL CHOSEONG PIEUP-KHIEUKH", aliases: &[] },
        Codepoint { codepoint: 0xA974, name: "HANGUL CHOSEONG PIEUP-HIEUH", aliases: &[] },
        Codepoint { codepoint: 0xA975, name: "HANGUL CHOSEONG SSANGSIOS-PIEUP", aliases: &[] },
        Codepoint { codepoint: 0xA976, name: "HANGUL CHOSEONG IEUNG-RIEUL", aliases: &[] },
        Codepoint { codepoint: 0xA977, name: "HANGUL CHOSEONG IEUNG-HIEUH", aliases: &[] },
        Codepoint { codepoint: 0xA978, name: "HANGUL CHOSEONG SSANGCIEUC-HIEUH", aliases: &[] },
        Codepoint { codepoint: 0xA979, name: "HANGUL CHOSEONG SSANGTHIEUTH", aliases: &[] },
        Codepoint { codepoint: 0xA97A, name: "HANGUL CHOSEONG PHIEUPH-HIEUH", aliases: &[] },
        Codepoint { codepoint: 0xA97B, name: "HANGUL CHOSEONG HIEUH-SIOS", aliases: &[] },
        Codepoint { codepoint: 0xA97C, name: "HANGUL CHOSEONG SSANGYEORINHIEUH", aliases: &[] },
        Codepoint { codepoint: 0xA980, name: "JAVANESE SIGN PANYANGGA", aliases: &[] },
        Codepoint { codepoint: 0xA981, name: "JAVANESE SIGN CECAK", aliases: &[] },
        Codepoint { codepoint: 0xA982, name: "JAVANESE SIGN LAYAR", aliases: &[] },
        Codepoint { codepoint: 0xA983, name: "JAVANESE SIGN WIGNYAN", aliases: &[] },
        Codepoint { codepoint: 0xA984, name: "JAVANESE LETTER A", aliases: &[] },
        Codepoint { codepoint: 0xA985, name: "JAVANESE LETTER I KAWI", aliases: &[] },
        Codepoint { codepoint: 0xA986, name: "JAVANESE LETTER I", aliases: &[] },
        Codepoint { codepoint: 0xA987, name: "JAVANESE LETTER II", aliases: &[] },
        Codepoint { codepoint: 0xA988, name: "JAVANESE LETTER U", aliases: &[] },
        Codepoint { codepoint: 0xA989, name: "JAVANESE LETTER PA CEREK", aliases: &[] },
        Codepoint { codepoint: 0xA98A, name: "JAVANESE LETTER NGA LELET", aliases: &[] },
        Codepoint { codepoint: 0xA98B, name: "JAVANESE LETTER NGA LELET RASWADI", aliases: &[] },
        Codepoint { codepoint: 0xA98C, name: "JAVANESE LETTER E", aliases: &[] },
        Codepoint { codepoint: 0xA98D, name: "JAVANESE LETTER AI", aliases: &[] },
        Codepoint { codepoint: 0xA98E, name: "JAVANESE LETTER O", aliases: &[] },
        Codepoint { codepoint: 0xA98F, name: "JAVANESE LETTER KA", aliases: &[] },
        Codepoint { codepoint: 0xA990, name: "JAVANESE LETTER KA SASAK", aliases: &[] },
        Codepoint { codepoint: 0xA991, name: "JAVANESE LETTER KA MURDA", aliases: &[] },
        Codepoint { codepoint: 0xA992, name: "JAVANESE LETTER GA", aliases: &[] },
        Codepoint { codepoint: 0xA993, name: "JAVANESE LETTER GA MURDA", aliases: &[] },
        Codepoint { codepoint: 0xA994, name: "JAVANESE LETTER NGA", aliases: &[] },
        Codepoint { codepoint: 0xA995, name: "JAVANESE LETTER CA", aliases: &[] },
        Codepoint { codepoint: 0xA996, name: "JAVANESE LETTER CA MURDA", aliases: &[] },
        Codepoint { codepoint: 0xA997, name: "JAVANESE LETTER JA", aliases: &[] },
    ];
    assert(v@ =~= codepoint_table_365());
    v
}

pub open spec fn codepoint_table_366() -> Seq<Codepoint> {
    seq![
        Codepoint { codepoint: 0xA998, name: "JAVANESE LETTER NYA MURDA", aliases: &[] },
        Codepoint { codepoint: 0xA999, name: "JAVANESE LETTER JA MAHAPRANA", aliases: &[] },
        Codepoint { codepoint: 0xA99A, name: "JAVANESE LETTER NYA", aliases: &[] },
        Codepoint { codepoint: 0xA99B, name: "JAVANESE LETTER TTA", aliases: &[] },
        Codepoint { codepoint: 0xA99C, name: "JAVANESE LETTER TTA MAHAPRANA", aliases: &[] },
        Codepoint { codepoint: 0xA99D, name: "JAVANESE LETTER DDA", aliases: &[] },
        Codepoint { codepoint: 0xA99E, name: "JAVANESE LETTER DDA MAHAPRANA", aliases: &[] },
        Codepoint { codepoint: 0xA99F, name: "JAVANESE LETTER NA MURDA", aliases: &[] },
        Codepoint { codepoint: 0xA9A0, name: "JAVANESE LETTER TA", aliases: &[] },
        Codepoint { codepoint: 0xA9A1, name: "JAVANESE LETTER TA MURDA", aliases: &[] },
        Codepoint { codepoint: 0xA9A2, name: "JAVANESE LETTER DA", aliases: &[] },
        Codepoint { codepoint: 0xA9A3, name: "JAVANESE LETTER DA MAHAPRANA", aliases: &[] },
        Codepoint { codepoint: 0xA9A4, name: "JAVANESE LETTER NA", aliases: &[] },
        Codepoint { codepoint: 0xA9A5, name: "JAVANESE LETTER PA", aliases: &[] },
        Codepoint { codepoint: 0xA9A6, name: "JAVANESE LETTER PA MURDA", aliases: &[] },
        Codepoint { codepoint: 0xA9A7, name: "JAVANESE LETTER BA", aliases: &[] },
        Codepoint { codepoint: 0xA9A8, name: "JAVANESE LETTER BA MURDA", aliases: &[] },
        Codepoint { codepoint: 0xA9A9, name: "JAVANESE LETTER MA", aliases: &[] },
        Codepoint { codepoint: 0xA9AA, name: "JAVANESE LETTER YA", aliases: &[] },
        Codepoint { codepoint: 0xA9AB, name: "JAVANESE LETTER RA", aliases: &[] },
        Codepoint { codepoint: 0xA9AC, name: "JAVANESE LETTER RA AGUNG", aliases: &[] },
        Codepoint { codepoint: 0xA9AD, name: "JAVANESE LETTER LA", aliases: &[] },
        Codepoint { codepoint: 0xA9AE, name: "JAVANESE LETTER WA", aliases: &[] },
        Codepoint { codepoint: 0xA9AF, name: "JAVANESE LETTER SA MURDA", aliases: &[] },
        Codepoint { codepoint: 0xA9B0, name: "JAVANESE LETTER SA MAHAPRANA", aliases: &[] },
        Codepoint { codepoint: 0xA9B1, name: "JAVANESE LETTER SA", aliases: &[] },
        Codepoint { codepoint: 0xA9B2, name: "JAVANESE LETTER HA", aliases: &[] },
        Codepoint { codepoint: 0xA9B3, name: "JAVANESE SIGN CECAK TELU", aliases: &[] },
        Codepoint { codepoint: 0xA9B4, name: "JAVANESE VOWEL SIGN TARUNG", aliases: &[] },
        Codepoint { codepoint: 0xA9B5, name: "JAVANESE VOWEL SIGN TOLONG", aliases: &[] },
        Codepoint { codepoint: 0xA9B6, name: "JAVANESE VOWEL SIGN WULU", aliases: &[] },
        Codepoint { codepoint: 0xA9B7, name: "JAVANESE VOWEL SIGN WULU MELIK", aliases: &[] },
        Codepoint { codepoint: 0xA9B8, name: "JAVANESE VOWEL SIGN SUKU", aliases: &[] },
        Codepoint { codepoint: 0xA9B9, name: "JAVANESE VOWEL SIGN SUKU MENDUT", aliases: &[] },
        Codepoint { codepoint: 0xA9BA, name: "JAVANESE VOWEL SIGN TALING", aliases: &[] },
        Codepoint { codepoint: 0xA9BB, name: "JAVANESE VOWEL SIGN DIRGA MURE", aliases: &[] },
        Codepoint { codepoint: 0xA9BC, name: "JAVANESE VOWEL SIGN PEPET", aliases: &[] },
        Codepoint { codepoint: 0xA9BD, name: "JAVANESE CONSONANT SIGN KERET", aliases: &[] },
        Codepoint { codepoint: 0xA9BE, name: "JAVANESE CONSONANT SIGN PENGKAL", aliases: &[] },
        Codepoint { codepoint: 0xA9BF, name: "JAVANESE CONSONANT SIGN CAKRA", aliases: &[] },
    ]
}

fn all_codepoints_366() -> (v: Vec<Codepoint>)
    ensures
        v@ == codepoint_table_366(),
{
    let v = vec![
        Codepoint { codepoint: 0xA998, name: "JAVANESE LETTER NYA MURDA", aliases: &[] },
        Codepoint { codepoint: 0xA999, name: "JAVANESE LETTER JA MAHAPRANA", aliases: &[] },
        Codepoint { codepoint: 0xA99A, name: "JAVANESE LETTER NYA", aliases: &[] },
        Codepoint { codepoint: 0xA99B, name: "JAVANESE LETTER TTA", aliases: &[] },
        Codepoint { codepoint: 0xA99C, name: "JAVANESE LETTER TTA MAHAPRANA", aliases: &[] },
        Codepoint { codepoint: 0xA99D, name: "JAVANESE LETTER DDA", aliases: &[] },
        Codepoint { codepoint: 0xA99E, name: "JAVANESE LETTER DDA MAHAPRANA", aliases: &[] },
        Codepoint { codepoint: 0xA99F, name: "JAVANESE LETTER NA MURDA", aliases: &[] },
        Codepoint { codepoint: 0xA9A0, name: "JAVANESE LETTER TA", aliases: &[] },
        Codepoint { codepoint: 0xA9A1, name: "JAVANESE LETTER TA MURDA", aliases: &[] },
        Codepoint { codepoint: 0xA9A2, name: "JAVANESE LETTER DA", aliases: &[] },
        Codepoint { codepoint: 0xA9A3, name: "JAVANESE LETTER DA MAHAPRANA", aliases: &[] },
        Codepoint { codepoint: 0xA9A4, name: "JAVANESE LETTER NA", aliases: &[] },
        Codepoint { codepoint: 0xA9A5, name: "JAVANESE LETTER PA", aliases: &[] },
        Codepoint { codepoint: 0xA9A6, name: "JAVANESE LETTER PA MURDA", aliases: &[] },
        Codepoint { codepoint: 0xA9A7, name: "JAVANESE LETTER BA", aliases: &[] },
        Codepoint { codepoint: 0xA9A8, name: "JAVANESE LETTER BA MURDA", aliases: &[] },
        Codepoint { codepoint: 0xA9A9, name: "JAVANESE LETTER MA", aliases: &[] },
        Codepoint { codepoint: 0xA9AA, name: "JAVANESE LETTER YA", aliases: &[] },
        Codepoint { codepoint: 0xA9AB, name: "JAVANESE LETTER RA", aliases: &[] },
        Codepoint { codepoint: 0xA9AC, name: "JAVANESE LETTER RA AGUNG", aliases: &[] },
        Codepoint { codepoint: 0xA9AD, name: "JAVANESE LETTER LA", aliases: &[] },
        Codepoint { codepoint: 0xA9AE, name: "JAVANESE LETTER WA", aliases: &[] },
        Codepoint { codepoint: 0xA9AF, name: "JAVANESE LETTER SA MURDA", aliases: &[] },
        Codepoint { codepoint: 0xA9B0, name: "JAVANESE LETTER SA MAHAPRANA", aliases: &[] },
        Codepoint { codepoint: 0xA9B1, name: "JAVANESE LETTER SA", aliases: &[] },
        Codepoint { codepoint: 0xA9B2, name: "JAVANESE LETTER HA", aliases: &[] },
        Codepoint { codepoint: 0xA9B3, name: "JAVANESE SIGN CECAK TELU", aliases: &[] },
        Codepoint { codepoint: 0xA9B4, name: "JAVANESE VOWEL SIGN TARUNG", aliases: &[] },
        Codepoint { codepoint: 0xA9B5, name: "JAVANESE VOWEL SIGN TOLONG", aliases: &[] },
        Codepoint { codepoint: 0xA9B6, name: "JAVANESE VOWEL SIGN WULU", aliases: &[] },
        Codepoint { codepoint: 0xA9B7, name: "JAVANESE VOWEL SIGN WULU MELIK", aliases: &[] },
        Codepoint { codepoint: 0xA9B8, name: "JAVANESE VOWEL SIGN SUKU", aliases: &[] },
        Codepoint { codepoint: 0xA9B9, name: "JAVANESE VOWEL SIGN SUKU MENDUT", aliases: &[] },
        Codepoint { codepoint: 0xA9BA, name: "JAVANESE VOWEL SIGN TALING", aliases: &[] },
        Codepoint { codepoint: 0xA9BB, name: "JAVANESE VOWEL SIGN DIRGA MURE", aliases: &[] },
        Codepoint { codepoint: 0xA9BC, name: "JAVANESE VOWEL SIGN PEPET", aliases: &[] },
        Codepoint { codepoint: 0xA9BD, name: "JAVANESE CONSONANT SIGN KERET", aliases: &[] },
        Codepoint { codepoint: 0xA9BE, name: "JAVANESE CONSONANT SIGN PENGKAL", aliases: &[] },
        Codepoint { codepoint: 0xA9BF, name: "JAVANESE CONSONANT SIGN CAKRA", aliases: &[] },
    ];
    assert(v@ =~= codepoint_table_366());
    v
}

pub open spec fn codepoint_table_367() -> Seq<Codepoint> {
    seq![
        Codepoint { codepoint: 0xA9C0, name: "JAVANESE PANGKON", aliases: &[] },
        Codepoint { codepoint: 0xA9C1, name: "JAVANESE LEFT RERENGGAN", aliases: &[] },
        Codepoint { codepoint: 0xA9C2, name: "JAVANESE RIGHT RERENGGAN", aliases: &[] },
        Codepoint { codepoint: 0xA9C3, name: "JAVANESE PADA ANDAP", aliases: &[] },
        Codepoint { codepoint: 0xA9C4, name: "JAVANESE PADA MADYA", aliases: &[] },
        Codepoint { codepoint: 0xA9C5, name: "JAVANESE PADA LUHUR", aliases: &[] },
        Codepoint { codepoint: 0xA9C6, name: "JAVANESE PADA WINDU", aliases: &[] },
        Codepoint { codepoint: 0xA9C7, name: "JAVANESE PADA PANGKAT", aliases: &[] },
        Codepoint { codepoint: 0xA9C8, name: "JAVANESE PADA LINGSA", aliases: &[] },
        Codepoint { codepoint: 0xA9C9, name: "JAVANESE PADA LUNGSI", aliases: &[] },
        Codepoint { codepoint: 0xA9CA, name: "JAVANESE PADA ADEG", aliases: &[] },
        Codepoint { codepoint: 0xA9CB, name: "JAVANESE PADA ADEG ADEG", aliases: &[] },
        Codepoint { codepoint: 0xA9CC, name: "JAVANESE PADA PISELEH", aliases: &[] },
        Codepoint { codepoint: 0xA9CD, name: "JAVANESE TURNED PADA PISELEH", aliases: &[] },
        Codepoint { codepoint: 0xA9CF, name: "JAVANESE PANGRANGKEP", aliases: &[] },
        Codepoint { codepoint: 0xA9D0, name: "JAVANESE DIGIT ZERO", aliases: &[] },
        Codepoint { codepoint: 0xA9D1, name: "JAVANESE DIGIT ONE", aliases: &[] },
        Codepoint { codepoint: 0xA9D2, name: "JAVANESE DIGIT TWO", aliases: &[] },
        Codepoint { codepoint: 0xA9D3, name: "JAVANESE DIGIT THREE", aliases: &[] },
        Codepoint { codepoint: 0xA9D4, name: "JAVANESE DIGIT FOUR", aliases: &[] },
        Codepoint { codepoint: 0xA9D5, name: "JAVANESE DIGIT FIVE", aliases: &[] },
        Codepoint { codepoint: 0xA9D6, name: "JAVANESE DIGIT SIX", aliases: &[] },
        Codepoint { codepoint: 0xA9D7, name: "JAVANESE DIGIT SEVEN", aliases: &[] },
        Codepoint { codepoint: 0xA9D8, name: "JAVANESE DIGIT EIGHT", aliases: &[] },
        Codepoint { codepoint: 0xA9D9, name: "JAVANESE DIGIT NINE", aliases: &[] },
        Codepoint { codepoint: 0xA9DE, name: "JAVANESE PADA TIRTA TUMETES", aliases: &[] },
        Codepoint { codepoint: 0xA9DF, name: "JAVANESE PADA ISEN-ISEN", aliases: &[] },
        Codepoint { codepoint: 0xA9E0, name: "MYANMAR LETTER SHAN GHA", aliases: &[] },
        Codepoint { codepoint: 0xA9E1, name: "MYANMAR LETTER SHAN CHA", aliases: &[] },
        Codepoint { codepoint: 0xA9E2, name: "MYANMAR LETTER SHAN JHA", aliases: &[] },
        Codepoint { codepoint: 0xA9E3, name: "MYANMAR LETTER SHAN NNA", aliases: &[] },
        Codepoint { codepoint: 0xA9E4, name: "MYANMAR LETTER SHAN BHA", aliases: &[] },
        Codepoint { codepoint: 0xA9E5, name: "MYANMAR SIGN SHAN SAW", aliases: &[] },
        Codepoint { codepoint: 0xA9E6, name: "MYANMAR MODIFIER LETTER SHAN REDUPLICATION", aliases: &[] },
        Codepoint { codepoint: 0xA9E7, name: "MYANMAR LETTER TAI LAING NYA", aliases: &[] },
        Codepoint { codepoint: 0xA9E8, name: "MYANMAR LETTER TAI LAING FA", aliases: &[] },
        Codepoint { codepoint: 0xA9E9, name: "MYANMAR LETTER TAI LAING GA", aliases: &[] },
        Codepoint { codepoint: 0xA9EA, name: "MYANMAR LETTER TAI LAING GHA", aliases: &[] },
        Codepoint { codepoint: 0xA9EB, name: "MYANMAR LETTER TAI LAING JA", aliases: &[] },
        Codepoint { codepoint: 0xA9EC, name: "MYANMAR LETTER TAI LAING JHA", aliases: &[] },
    ]
}

fn all_codepoints_367() -> (v: Vec<Codepoint>)
    ensures
        v@ == codepoint_table_367(),
{
    let v = vec![
        Codepoint { codepoint: 0xA9C0, name: "JAVANESE PANGKON", aliases: &[] },
        Codepoint { codepoint: 0xA9C1, name: "JAVANESE LEFT RERENGGAN", aliases: &[] },
        Codepoint { codepoint: 0xA9C2, name: "JAVANESE RIGHT RERENGGAN", aliases: &[] },
        Codepoint { codepoint: 0xA9C3, name: "JAVANESE PADA ANDAP", aliases: &[] },
        Codepoint { codepoint: 0xA9C4, name: "JAVANESE PADA MADYA", aliases: &[] },
        Codepoint { codepoint: 0xA9C5, name: "JAVANESE PADA LUHUR", aliases: &[] },
        Codepoint { codepoint: 0xA9C6, name: "JAVANESE PADA WINDU", aliases: &[] },
        Codepoint { codepoint: 0xA9C7, name: "JAVANESE PADA PANGKAT", aliases: &[] },
        Codepoint { codepoint: 0xA9C8, name: "JAVANESE PADA LINGSA", aliases: &[] },
        Codepoint { codepoint: 0xA9C9, name: "JAVANESE PADA LUNGSI", aliases: &[] },
        Codepoint { codepoint: 0xA9CA, name: "JAVANESE PADA ADEG", aliases: &[] },
        Codepoint { codepoint: 0xA9CB, name: "JAVANESE PADA ADEG ADEG", aliases: &[] },
        Codepoint { codepoint: 0xA9CC, name: "JAVANESE PADA PISELEH", aliases: &[] },
        Codepoint { codepoint: 0xA9CD, name: "JAVANESE TURNED PADA PISELEH", aliases: &[] },
        Codepoint { codepoint: 0xA9CF, name: "JAVANESE PANGRANGKEP", aliases: &[] },
        Codepoint { codepoint: 0xA9D0, name: "JAVANESE DIGIT ZERO", aliases: &[] },
        Codepoint { codepoint: 0xA9D1, name: "JAVANESE DIGIT ONE", aliases: &[] },
        Codepoint { codepoint: 0xA9D2, name: "JAVANESE DIGIT TWO", aliases: &[] },
        Codepoint { codepoint: 0xA9D3, name: "JAVANESE DIGIT THREE", aliases: &[] },
        Codepoint { codepoint: 0xA9D4, name: "JAVANESE DIGIT FOUR", aliases: &[] },
        Codepoint { codepoint: 0xA9D5, name: "JAVANESE DIGIT FIVE", aliases: &[] },
        Codepoint { codepoint: 0xA9D6, name: "JAVANESE DIGIT SIX", aliases: &[] },
        Codepoint { codepoint: 0xA9D7, name: "JAVANESE DIGIT SEVEN", aliases: &[] },
        Codepoint { codepoint: 0xA9D8, name: "JAVANESE DIGIT EIGHT", aliases: &[] },
        Codepoint { codepoint: 0xA9D9, name: "JAVANESE DIGIT NINE", aliases: &[] },
        Codepoint { codepoint: 0xA9DE, name: "JAVANESE PADA TIRTA TUMETES", aliases: &[] },
        Codepoint { codepoint: 0xA9DF, name: "JAVANESE PADA ISEN-ISEN", aliases: &[] },
        Codepoint { codepoint: 0xA9E0, name: "MYANMAR LETTER SHAN GHA", aliases: &[] },
        Codepoint { codepoint: 0xA9E1, name: "MYANMAR LETTER SHAN CHA", aliases: &[] },
        Codepoint { codepoint: 0xA9E2, name: "MYANMAR LETTER SHAN JHA", aliases: &[] },
        Codepoint { codepoint: 0xA9E3, name: "MYANMAR LETTER SHAN NNA", aliases: &[] },
        Codepoint { codepoint: 0xA9E4, name: "MYANMAR LETTER SHAN BHA", aliases: &[] },
        Codepoint { codepoint: 0xA9E5, name: "MYANMAR SIGN SHAN SAW", aliases: &[] },
        Codepoint { codepoint: 0xA9E6, name: "MYANMAR MODIFIER LETTER SHAN REDUPLICATION", aliases: &[] },
        Codepoint { codepoint: 0xA9E7, name: "MYANMAR LETTER TAI LAING NYA", aliases: &[] },
        Codepoint { codepoint: 0xA9E8, name: "MYANMAR LETTER TAI LAING FA", aliases: &[] },
        Codepoint { codepoint: 0xA9E9, name: "MYANMAR LETTER TAI LAING GA", aliases: &[] },
        Codepoint { codepoint: 0xA9EA, name: "MYANMAR LETTER TAI LAING GHA", aliases: &[] },
        Codepoint { codepoint: 0xA9EB, name: "MYANMAR LETTER TAI LAING JA", aliases: &[] },
        Codepoint { codepoint: 0xA9EC, name: "MYANMAR LETTER TAI LAING JHA", aliases: &[] },
    ];
    assert(v@ =~= codepoint_table_367());
    v
}

pub open spec fn codepoint_table_368() -> Seq<Codepoint> {
    seq![
        Codepoint { codepoint: 0xA9ED, name: "MYANMAR LETTER TAI LAING DDA", aliases: &[] },
        Codepoint { codepoint: 0xA9EE, name: "MYANMAR LETTER TAI LAING DDHA", aliases: &[] },
        Codepoint { codepoint: 0xA9EF, name: "MYANMAR LETTER TAI LAING NNA", aliases: &[] },
        Codepoint { codepoint: 0xA9F0, name: "MYANMAR TAI LAING DIGIT ZERO", aliases: &[] },
        Codepoint { codepoint: 0xA9F1, name: "MYANMAR TAI LAING DIGIT ONE", aliases: &[] },
        Codepoint { codepoint: 0xA9F2, name: "MYANMAR TAI LAING DIGIT TWO", aliases: &[] },
        Codepoint { codepoint: 0xA9F3, name: "MYANMAR TAI LAING DIGIT THREE", aliases: &[] },
        Codepoint { codepoint: 0xA9F4, name: "MYANMAR TAI LAING DIGIT FOUR", aliases: &[] },
        Codepoint { codepoint: 0xA9F5, name: "MYANMAR TAI LAING DIGIT FIVE", aliases: &[] },
        Codepoint { codepoint: 0xA9F6, name: "MYANMAR TAI LAING DIGIT SIX", aliases: &[] },
        Codepoint { codepoint: 0xA9F7, name: "MYANMAR TAI LAING DIGIT SEVEN", aliases: &[] },
        Codepoint { codepoint: 0xA9F8, name: "MYANMAR TAI LAING DIGIT EIGHT", aliases: &[] },
        Codepoint { codepoint: 0xA9F9, name: "MYANMAR TAI LAING DIGIT NINE", aliases: &[] },
        Codepoint { codepoint: 0xA9FA, name: "MYANMAR LETTER TAI LAING LLA", aliases: &[] },
        Codepoint { codepoint: 0xA9FB, name: "MYANMAR LETTER TAI LAING DA", aliases: &[] },
        Codepoint { codepoint: 0xA9FC, name: "MYANMAR LETTER TAI LAING DHA", aliases: &[] },
        Codepoint { codepoint: 0xA9FD, name: "MYANMAR LETTER TAI LAING BA", aliases: &[] },
        Codepoint { codepoint: 0xA9FE, name: "MYANMAR LETTER TAI LAING BHA", aliases: &[] },
        Codepoint { codepoint: 0xAA00, name: "CHAM LETTER A", aliases: &[] },
        Codepoint { codepoint: 0xAA01, name: "CHAM LETTER I", aliases: &[] },
        Codepoint { codepoint: 0xAA02, name: "CHAM LETTER U", aliases: &[] },
        Codepoint { codepoint: 0xAA03, name: "CHAM LETTER E", aliases: &[] },
        Codepoint { codepoint: 0xAA04, name: "CHAM LETTER AI", aliases: &[] },
        Codepoint { codepoint: 0xAA05, name: "CHAM LETTER O", aliases: &[] },
        Codepoint { codepoint: 0xAA06, name: "CHAM LETTER KA", aliases: &[] },
        Codepoint { codepoint: 0xAA07, name: "CHAM LETTER KHA", aliases: &[] },
        Codepoint { codepoint: 0xAA08, name: "CHAM LETTER GA", aliases: &[] },
        Codepoint { codepoint: 0xAA09, name: "CHAM LETTER GHA", aliases: &[] },
        Codepoint { codepoint: 0xAA0A, name: "CHAM LETTER NGUE", aliases: &[] },
        Codepoint { codepoint: 0xAA0B, name: "CHAM LETTER NGA", aliases: &[] },
        Codepoint { codepoint: 0xAA0C, name: "CHAM LETTER CHA", aliases: &[] },
        Codepoint { codepoint: 0xAA0D, name: "CHAM LETTER CHHA", aliases: &[] },
        Codepoint { codepoint: 0xAA0E, name: "CHAM LETTER JA", aliases: &[] },
        Codepoint { codepoint: 0xAA0F, name: "CHAM LETTER JHA", aliases: &[] },
        Codepoint { codepoint: 0xAA10, name: "CHAM LETTER NHUE", aliases: &[] },
        Codepoint { codepoint: 0xAA11, name: "CHAM LETTER NHA", aliases: &[] },
        Codepoint { codepoint: 0xAA12, name: "CHAM LETTER NHJA", aliases: &[] },
        Codepoint { codepoint: 0xAA13, name: "CHAM LETTER TA", aliases: &[] },
        Codepoint { codepoint: 0xAA14, name: "CHAM LETTER THA", aliases: &[] },
        Codepoint { codepoint: 0xAA15, name: "CHAM LETTER DA", aliases: &[] },
    ]
}

fn all_codepoints_368() -> (v: Vec<Codepoint>)
    ensures
        v@ == codepoint_table_368(),
{
    let v = vec![
        Codepoint { codepoint: 0xA9ED, name: "MYANMAR LETTER TAI LAING DDA", aliases: &[] },
        Codepoint { codepoint: 0xA9EE, name: "MYANMAR LETTER TAI LAING DDHA", aliases: &[] },
        Codepoint { codepoint: 0xA9EF, name: "MYANMAR LETTER TAI LAING NNA", aliases: &[] },
        Codepoint { codepoint: 0xA9F0, name: "MYANMAR TAI LAING DIGIT ZERO", aliases: &[] },
        Codepoint { codepoint: 0xA9F1, name: "MYANMAR TAI LAING DIGIT ONE", aliases: &[] },
        Codepoint { codepoint: 0xA9F2, name: "MYANMAR TAI LAING DIGIT TWO", aliases: &[] },
        Codepoint { codepoint: 0xA9F3, name: "MYANMAR TAI LAING DIGIT THREE", aliases: &[] },
        Codepoint { codepoint: 0xA9F4, name: "MYANMAR TAI LAING DIGIT FOUR", aliases: &[] },
        Codepoint { codepoint: 0xA9F5, name: "MYANMAR TAI LAING DIGIT FIVE", aliases: &[] },
        Codepoint { codepoint: 0xA9F6, name: "MYANMAR TAI LAING DIGIT SIX", aliases: &[] },
        Codepoint { codepoint: 0xA9F7, name: "MYANMAR TAI LAING DIGIT SEVEN", aliases: &[] },
        Codepoint { codepoint: 0xA9F8, name: "MYANMAR TAI LAING DIGIT EIGHT", aliases: &[] },
        Codepoint { codepoint: 0xA9F9, name: "MYANMAR TAI LAING DIGIT NINE", aliases: &[] },
        Codepoint { codepoint: 0xA9FA, name: "MYANMAR LETTER TAI LAING LLA", aliases: &[] },
        Codepoint { codepoint: 0xA9FB, name: "MYANMAR LETTER TAI LAING DA", aliases: &[] },
        Codepoint { codepoint: 0xA9FC, name: "MYANMAR LETTER TAI LAING DHA", aliases: &[] },
        Codepoint { codepoint: 0xA9FD, name: "MYANMAR LETTER TAI LAING BA", aliases: &[] },
        Codepoint { codepoint: 0xA9FE, name: "MYANMAR LETTER TAI LAING BHA", aliases: &[] },
        Codepoint { codepoint: 0xAA00, name: "CHAM LETTER A", aliases: &[] },
        Codepoint { codepoint: 0xAA01, name: "CHAM LETTER I", aliases: &[] },
        Codepoint { codepoint: 0xAA02, name: "CHAM LETTER U", aliases: &[] },
        Codepoint { codepoint: 0xAA03, name: "CHAM LETTER E", aliases: &[] },
        Codepoint { codepoint: 0xAA04, name: "CHAM LETTER AI", aliases: &[] },
        Codepoint { codepoint: 0xAA05, name: "CHAM LETTER O", aliases: &[] },
        Codepoint { codepoint: 0xAA06, name: "CHAM LETTER KA", aliases: &[] },
        Codepoint { codepoint: 0xAA07, name: "CHAM LETTER KHA", aliases: &[] },
        Codepoint { codepoint: 0xAA08, name: "CHAM LETTER GA", aliases: &[] },
        Codepoint { codepoint: 0xAA09, name: "CHAM LETTER GHA", aliases: &[] },
        Codepoint { codepoint: 0xAA0A, name: "CHAM LETTER NGUE", aliases: &[] },
        Codepoint { codepoint: 0xAA0B, name: "CHAM LETTER NGA", aliases: &[] },
        Codepoint { codepoint: 0xAA0C, name: "CHAM LETTER CHA", aliases: &[] },
        Codepoint { codepoint: 0xAA0D, name: "CHAM LETTER CHHA", aliases: &[] },
        Codepoint { codepoint: 0xAA0E, name: "CHAM LETTER JA", aliases: &[] },
        Codepoint { codepoint: 0xAA0F, name: "CHAM LETTER JHA", aliases: &[] },
        Codepoint { codepoint: 0xAA10, name: "CHAM LETTER NHUE", aliases: &[] },
        Codepoint { codepoint: 0xAA11, name: "CHAM LETTER NHA", aliases: &[] },
        Codepoint { codepoint: 0xAA12, name: "CHAM LETTER NHJA", aliases: &[] },
        Codepoint { codepoint: 0xAA13, name: "CHAM LETTER TA", aliases: &[] },
        Codepoint { codepoint: 0xAA14, name: "CHAM LETTER THA", aliases: &[] },
        Codepoint { codepoint: 0xAA15, name: "CHAM LETTER DA", aliases: &[] },
    ];
    assert(v@ =~= codepoint_table_368());
    v
}

pub open spec fn codepoint_table_369() -> Seq<Codepoint> {
    seq![
        Codepoint { codepoint: 0xAA16, name: "CHAM LETTER DHA", aliases: &[] },
        Codepoint { codepoint: 0xAA17, name: "CHAM LETTER NUE", aliases: &[] },
        Codepoint { codepoint: 0xAA18, name: "CHAM LETTER NA", aliases: &[] },
        Codepoint { codepoint: 0xAA19, name: "CHAM LETTER DDA", aliases: &[] },
        Codepoint { codepoint: 0xAA1A, name: "CHAM LETTER PA", aliases: &[] },
        Codepoint { codepoint: 0xAA1B, name: "CHAM LETTER PPA", aliases: &[] },
        Codepoint { codepoint: 0xAA1C, name: "CHAM LETTER PHA", aliases: &[] },
        Codepoint { codepoint: 0xAA1D, name: "CHAM LETTER BA", aliases: &[] },
        Codepoint { codepoint: 0xAA1E, name: "CHAM LETTER BHA", aliases: &[] },
        Codepoint { codepoint: 0xAA1F, name: "CHAM LETTER MUE", aliases: &[] },
        Codepoint { codepoint: 0xAA20, name: "CHAM LETTER MA", aliases: &[] },
        Codepoint { codepoint: 0xAA21, name: "CHAM LETTER BBA", aliases: &[] },
        Codepoint { codepoint: 0xAA22, name: "CHAM LETTER YA", aliases: &[] },
        Codepoint { codepoint: 0xAA23, name: "CHAM LETTER RA", aliases: &[] },
        Codepoint { codepoint: 0xAA24, name: "CHAM LETTER LA", aliases: &[] },
        Codepoint { codepoint: 0xAA25, name: "CHAM LETTER VA", aliases: &[] },
        Codepoint { codepoint: 0xAA26, name: "CHAM LETTER SSA", aliases: &[] },
        Codepoint { codepoint: 0xAA27, name: "CHAM LETTER SA", aliases: &[] },
        Codepoint { codepoint: 0xAA28, name: "CHAM LETTER HA", aliases: &[] },
        Codepoint { codepoint: 0xAA29, name: "CHAM VOWEL SIGN AA", aliases: &[] },
        Codepoint { codepoint: 0xAA2A, name: "CHAM VOWEL SIGN I", aliases: &[] },
        Codepoint { codepoint: 0xAA2B, name: "CHAM VOWEL SIGN II", aliases: &[] },
        Codepoint { codepoint: 0xAA2C, name: "CHAM VOWEL SIGN EI", aliases: &[] },
        Codepoint { codepoint: 0xAA2D, name: "CHAM VOWEL SIGN U", aliases: &[] },
        Codepoint { codepoint: 0xAA2E, name: "CHAM VOWEL SIGN OE", aliases: &[] },
        Codepoint { codepoint: 0xAA2F, name: "CHAM VOWEL SIGN O", aliases: &[] },
        Codepoint { codepoint: 0xAA30, name: "CHAM VOWEL SIGN AI", aliases: &[] },
        Codepoint { codepoint: 0xAA31, name: "CHAM VOWEL SIGN AU", aliases: &[] },
        Codepoint { codepoint: 0xAA32, name: "CHAM VOWEL SIGN UE", aliases: &[] },
        Codepoint { codepoint: 0xAA33, name: "CHAM CONSONANT SIGN YA", aliases: &[] },
        Codepoint { codepoint: 0xAA34, name: "CHAM CONSONANT SIGN RA", aliases: &[] },
        Codepoint { codepoint: 0xAA35, name: "CHAM CONSONANT SIGN LA", aliases: &[] },
        Codepoint { codepoint: 0xAA36, name: "CHAM CONSONANT SIGN WA", aliases: &[] },
        Codepoint { codepoint: 0xAA40, name: "CHAM LETTER FINAL K", aliases: &[] },
        Codepoint { codepoint: 0xAA41, name: "CHAM LETTER FINAL G", aliases: &[] },
        Codepoint { codepoint: 0xAA42, name: "CHAM LETTER FINAL NG", aliases: &[] },
        Codepoint { codepoint: 0xAA43, name: "CHAM CONSONANT SIGN FINAL NG", aliases: &[] },
        Codepoint { codepoint: 0xAA44, name: "CHAM LETTER FINAL CH", aliases: &[] },
        Codepoint { codepoint: 0xAA45, name: "CHAM LETTER FINAL T", aliases: &[] },
        Codepoint { codepoint: 0xAA46, name: "CHAM LETTER FINAL N", aliases: &[] },
    ]
}

fn all_codepoints_369() -> (v: Vec<Codepoint>)
    ensures
        v@ == codepoint_table_369(),
{
    let v = vec![
        Codepoint { codepoint: 0xAA16, name: "CHAM LETTER DHA", aliases: &[] },
        Codepoint { codepoint: 0xAA17, name: "CHAM LETTER NUE", aliases: &[] },
        Codepoint { codepoint: 0xAA18, name: "CHAM LETTER NA", aliases: &[] },
        Codepoint { codepoint: 0xAA19, name: "CHAM LETTER DDA", aliases: &[] },
        Codepoint { codepoint: 0xAA1A, name: "CHAM LETTER PA", aliases: &[] },
        Codepoint { codepoint: 0xAA1B, name: "CHAM LETTER PPA", aliases: &[] },
        Codepoint { codepoint: 0xAA1C, name: "CHAM LETTER PHA", aliases: &[] },
        Codepoint { codepoint: 0xAA1D, name: "CHAM LETTER BA", aliases: &[] },
        Codepoint { codepoint: 0xAA1E, name: "CHAM LETTER BHA", aliases: &[] },
        Codepoint { codepoint: 0xAA1F, name: "CHAM LETTER MUE", aliases: &[] },
        Codepoint { codepoint: 0xAA20, name: "CHAM LETTER MA", aliases: &[] },
        Codepoint { codepoint: 0xAA21, name: "CHAM LETTER BBA", aliases: &[] },
        Codepoint { codepoint: 0xAA22, name: "CHAM LETTER YA", aliases: &[] },
        Codepoint { codepoint: 0xAA23, name: "CHAM LETTER RA", aliases: &[] },
        Codepoint { codepoint: 0xAA24, name: "CHAM LETTER LA", aliases: &[] },
        Codepoint { codepoint: 0xAA25, name: "CHAM LETTER VA", aliases: &[] },
        Codepoint { codepoint: 0xAA26, name: "CHAM LETTER SSA", aliases: &[] },
        Codepoint { codepoint: 0xAA27, name: "CHAM LETTER SA", aliases: &[] },
        Codepoint { codepoint: 0xAA28, name: "CHAM LETTER HA", aliases: &[] },
        Codepoint { codepoint: 0xAA29, name: "CHAM VOWEL SIGN AA", aliases: &[] },
        Codepoint { codepoint: 0xAA2A, name: "CHAM VOWEL SIGN I", aliases: &[] },
        Codepoint { codepoint: 0xAA2B, name: "CHAM VOWEL SIGN II", aliases: &[] },
        Codepoint { codepoint: 0xAA2C, name: "CHAM VOWEL SIGN EI", aliases: &[] },
        Codepoint { codepoint: 0xAA2D, name: "CHAM VOWEL SIGN U", aliases: &[] },
        Codepoint { codepoint: 0xAA2E, name: "CHAM VOWEL SIGN OE", aliases: &[] },
        Codepoint { codepoint: 0xAA2F, name: "CHAM VOWEL SIGN O", aliases: &[] },
        Codepoint { codepoint: 0xAA30, name: "CHAM VOWEL SIGN AI", aliases: &[] },
        Codepoint { codepoint: 0xAA31, name: "CHAM VOWEL SIGN AU", aliases: &[] },
        Codepoint { codepoint: 0xAA32, name: "CHAM VOWEL SIGN UE", aliases: &[] },
        Codepoint { codepoint: 0xAA33, name: "CHAM CONSONANT SIGN YA", aliases: &[] },
        Codepoint { codepoint: 0xAA34, name: "CHAM CONSONANT SIGN RA", aliases: &[] },
        Codepoint { codepoint: 0xAA35, name: "CHAM CONSONANT SIGN LA", aliases: &[] },
        Codepoint { codepoint: 0xAA36, name: "CHAM CONSONANT SIGN WA", aliases: &[] },
        Codepoint { codepoint: 0xAA40, name: "CHAM LETTER FINAL K", aliases: &[] },
        Codepoint { codepoint: 0xAA41, name: "CHAM LETTER FINAL G", aliases: &[] },
        Codepoint { codepoint: 0xAA42, name: "CHAM LETTER FINAL NG", aliases: &[] },
        Codepoint { codepoint: 0xAA43, name: "CHAM CONSONANT SIGN FINAL NG", aliases: &[] },
        Codepoint { codepoint: 0xAA44, name: "CHAM LETTER FINAL CH", aliases: &[] },
        Codepoint { codepoint: 0xAA45, name: "CHAM LETTER FINAL T", aliases: &[] },
        Codepoint { codepoint: 0xAA46, name: "CHAM LETTER FINAL N", aliases: &[] },
    ];
    assert(v@ =~= codepoint_table_369());
    v
}

pub open spec fn codepoint_table_370() -> Seq<Codepoint> {
    seq![
        Codepoint { codepoint: 0xAA47, name: "CHAM LETTER FINAL P", aliases: &[] },
        Codepoint { codepoint: 0xAA48, name: "CHAM LETTER FINAL Y", aliases: &[] },
        Codepoint { codepoint: 0xAA49, name: "CHAM LETTER FINAL R", aliases: &[] },
        Codepoint { codepoint: 0xAA4A, name: "CHAM LETTER FINAL L", aliases: &[] },
        Codepoint { codepoint: 0xAA4B, name: "CHAM LETTER FINAL SS", aliases: &[] },
        Codepoint { codepoint: 0xAA4C, name: "CHAM CONSONANT SIGN FINAL M", aliases: &[] },
        Codepoint { codepoint: 0xAA4D, name: "CHAM CONSONANT SIGN FINAL H", aliases: &[] },
        Codepoint { codepoint: 0xAA50, name: "CHAM DIGIT ZERO", aliases: &[] },
        Codepoint { codepoint: 0xAA51, name: "CHAM DIGIT ONE", aliases: &[] },
        Codepoint { codepoint: 0xAA52, name: "CHAM DIGIT TWO", aliases: &[] },
        Codepoint { codepoint: 0xAA53, name: "CHAM DIGIT THREE", aliases: &[] },
        Codepoint { codepoint: 0xAA54, name: "CHAM DIGIT FOUR", aliases: &[] },
        Codepoint { codepoint: 0xAA55, name: "CHAM DIGIT FIVE", aliases: &[] },
        Codepoint { codepoint: 0xAA56, name: "CHAM DIGIT SIX", aliases: &[] },
        Codepoint { codepoint: 0xAA57, name: "CHAM DIGIT SEVEN", aliases: &[] },
        Codepoint { codepoint: 0xAA58, name: "CHAM DIGIT EIGHT", aliases: &[] },
        Codepoint { codepoint: 0xAA59, name: "CHAM DIGIT NINE", aliases: &[] },
        Codepoint { codepoint: 0xAA5C, name: "CHAM PUNCTUATION SPIRAL", aliases: &[] },
        Codepoint { codepoint: 0xAA5D, name: "CHAM PUNCTUATION DANDA", aliases: &[] },
        Codepoint { codepoint: 0xAA5E, name: "CHAM PUNCTUATION DOUBLE DANDA", aliases: &[] },
        Codepoint { codepoint: 0xAA5F, name: "CHAM PUNCTUATION TRIPLE DANDA", aliases: &[] },
        Codepoint { codepoint: 0xAA60, name: "MYANMAR LETTER KHAMTI GA", aliases: &[] },
        Codepoint { codepoint: 0xAA61, name: "MYANMAR LETTER KHAMTI CA", aliases: &[] },
        Codepoint { codepoint: 0xAA62, name: "MYANMAR LETTER KHAMTI CHA", aliases: &[] },
        Codepoint { codepoint: 0xAA63, name: "MYANMAR LETTER KHAMTI JA", aliases: &[] },
        Codepoint { codepoint: 0xAA64, name: "MYANMAR LETTER KHAMTI JHA", aliases: &[] },
        Codepoint { codepoint: 0xAA65, name: "MYANMAR LETTER KHAMTI NYA", aliases: &[] },
        Codepoint { codepoint: 0xAA66, name: "MYANMAR LETTER KHAMTI TTA", aliases: &[] },
        Codepoint { codepoint: 0xAA67, name: "MYANMAR LETTER KHAMTI TTHA", aliases: &[] },
        Codepoint { codepoint: 0xAA68, name: "MYANMAR LETTER KHAMTI DDA", aliases: &[] },
        Codepoint { codepoint: 0xAA69, name: "MYANMAR LETTER KHAMTI DDHA", aliases: &[] },
        Codepoint { codepoint: 0xAA6A, name: "MYANMAR LETTER KHAMTI DHA", aliases: &[] },
        Codepoint { codepoint: 0xAA6B, name: "MYANMAR LETTER KHAMTI NA", aliases: &[] },
        Codepoint { codepoint: 0xAA6C, name: "MYANMAR LETTER KHAMTI SA", aliases: &[] },
        Codepoint { codepoint: 0xAA6D, name: "MYANMAR LETTER KHAMTI HA", aliases: &[] },
        Codepoint { codepoint: 0xAA6E, name: "MYANMAR LETTER KHAMTI HHA", aliases: &[] },
        Codepoint { codepoint: 0xAA6F, name: "MYANMAR LETTER KHAMTI FA", aliases: &[] },
        Codepoint { codepoint: 0xAA70, name: "MYANMAR MODIFIER LETTER KHAMTI REDUPLICATION", aliases: &[] },
        Codepoint { codepoint: 0xAA71, name: "MYANMAR LETTER KHAMTI XA", aliases: &[] },
        Codepoint { codepoint: 0xAA72, name: "MYANMAR LETTER KHAMTI ZA", aliases: &[] },
    ]
}

fn all_codepoints_370() -> (v: Vec<Codepoint>)
    ensures
        v@ == codepoint_table_370(),
{
    let v = vec![
        Codepoint { codepoint: 0xAA47, name: "CHAM LETTER FINAL P", aliases: &[] },
        Codepoint { codepoint: 0xAA48, name: "CHAM LETTER FINAL Y", aliases: &[] },
        Codepoint { codepoint: 0xAA49, name: "CHAM LETTER FINAL R", aliases: &[] },
        Codepoint { codepoint: 0xAA4A, name: "CHAM LETTER FINAL L", aliases: &[] },
        Codepoint { codepoint: 0xAA4B, name: "CHAM LETTER FINAL SS", aliases: &[] },
        Codepoint { codepoint: 0xAA4C, name: "CHAM CONSONANT SIGN FINAL M", aliases: &[] },
        Codepoint { codepoint: 0xAA4D, name: "CHAM CONSONANT SIGN FINAL H", aliases: &[] },
        Codepoint { codepoint: 0xAA50, name: "CHAM DIGIT ZERO", aliases: &[] },
        Codepoint { codepoint: 0xAA51, name: "CHAM DIGIT ONE", aliases: &[] },
        Codepoint { codepoint: 0xAA52, name: "CHAM DIGIT TWO", aliases: &[] },
        Codepoint { codepoint: 0xAA53, name: "CHAM DIGIT THREE", aliases: &[] },
        Codepoint { codepoint: 0xAA54, name: "CHAM DIGIT FOUR", aliases: &[] },
        Codepoint { codepoint: 0xAA55, name: "CHAM DIGIT FIVE", aliases: &[] },
        Codepoint { codepoint: 0xAA56, name: "CHAM DIGIT SIX", aliases: &[] },
        Codepoint { codepoint: 0xAA57, name: "CHAM DIGIT SEVEN", aliases: &[] },
        Codepoint { codepoint: 0xAA58, name: "CHAM DIGIT EIGHT", aliases: &[] },
        Codepoint { codepoint: 0xAA59, name: "CHAM DIGIT NINE", aliases: &[] },
        Codepoint { codepoint: 0xAA5C, name: "CHAM PUNCTUATION SPIRAL", aliases: &[] },
        Codepoint { codepoint: 0xAA5D, name: "CHAM PUNCTUATION DANDA", aliases: &[] },
        Codepoint { codepoint: 0xAA5E, name: "CHAM PUNCTUATION DOUBLE DANDA", aliases: &[] },
        Codepoint { codepoint: 0xAA5F, name: "CHAM PUNCTUATION TRIPLE DANDA", aliases: &[] },
        Codepoint { codepoint: 0xAA60, name: "MYANMAR LETTER KHAMTI GA", aliases: &[] },
        Codepoint { codepoint: 0xAA61, name: "MYANMAR LETTER KHAMTI CA", aliases: &[] },
        Codepoint { codepoint: 0xAA62, name: "MYANMAR LETTER KHAMTI CHA", aliases: &[] },
        Codepoint { codepoint: 0xAA63, name: "MYANMAR LETTER KHAMTI JA", aliases: &[] },
        Codepoint { codepoint: 0xAA64, name: "MYANMAR LETTER KHAMTI JHA", aliases: &[] },
        Codepoint { codepoint: 0xAA65, name: "MYANMAR LETTER KHAMTI NYA", aliases: &[] },
        Codepoint { codepoint: 0xAA66, name: "MYANMAR LETTER KHAMTI TTA", aliases: &[] },
        Codepoint { codepoint: 0xAA67, name: "MYANMAR LETTER KHAMTI TTHA", aliases: &[] },
        Codepoint { codepoint: 0xAA68, name: "MYANMAR LETTER KHAMTI DDA", aliases: &[] },
        Codepoint { codepoint: 0xAA69, name: "MYANMAR LETTER KHAMTI DDHA", aliases: &[] },
        Codepoint { codepoint: 0xAA6A, name: "MYANMAR LETTER KHAMTI DHA", aliases: &[] },
        Codepoint { codepoint: 0xAA6B, name: "MYANMAR LETTER KHAMTI NA", aliases: &[] },
        Codepoint { codepoint: 0xAA6C, name: "MYANMAR LETTER KHAMTI SA", aliases: &[] },
        Codepoint { codepoint: 0xAA6D, name: "MYANMAR LETTER KHAMTI HA", aliases: &[] },
        Codepoint { codepoint: 0xAA6E, name: "MYANMAR LETTER KHAMTI HHA", aliases: &[] },
        Codepoint { codepoint: 0xAA6F, name: "MYANMAR LETTER KHAMTI FA", aliases: &[] },
        Codepoint { codepoint: 0xAA70, name: "MYANMAR MODIFIER LETTER KHAMTI REDUPLICATION", aliases: &[] },
        Codepoint { codepoint: 0xAA71, name: "MYANMAR LETTER KHAMTI XA", aliases: &[] },
        Codepoint { codepoint: 0xAA72, name: "MYANMAR LETTER KHAMTI ZA", aliases: &[] },
    ];
    assert(v@ =~= codepoint_table_370());
    v
}

pub open spec fn codepoint_table_371() -> Seq<Codepoint> {
    seq![
        Codepoint { codepoint: 0xAA73, name: "MYANMAR LETTER KHAMTI RA", aliases: &[] },
        Codepoint { codepoint: 0xAA74, name: "MYANMAR LOGOGRAM KHAMTI OAY", aliases: &[] },
        Codepoint { codepoint: 0xAA75, name: "MYANMAR LOGOGRAM KHAMTI QN", aliases: &[] },
        Codepoint { codepoint: 0xAA76, name: "MYANMAR LOGOGRAM KHAMTI HM", aliases: &[] },
        Codepoint { codepoint: 0xAA77, name: "MYANMAR SYMBOL AITON EXCLAMATION", aliases: &[] },
        Codepoint { codepoint: 0xAA78, name: "MYANMAR SYMBOL AITON ONE", aliases: &[] },
        Codepoint { codepoint: 0xAA79, name: "MYANMAR SYMBOL AITON TWO", aliases: &[] },
        Codepoint { codepoint: 0xAA7A, name: "MYANMAR LETTER AITON RA", aliases: &[] },
        Codepoint { codepoint: 0xAA7B, name: "MYANMAR SIGN PAO KAREN TONE", aliases: &[] },
        Codepoint { codepoint: 0xAA7C, name: "MYANMAR SIGN TAI LAING TONE-2", aliases: &[] },
        Codepoint { codepoint: 0xAA7D, name: "MYANMAR SIGN TAI LAING TONE-5", aliases: &[] },
        Codepoint { codepoint: 0xAA7E, name: "MYANMAR LETTER SHWE PALAUNG CHA", aliases: &[] },
        Codepoint { codepoint: 0xAA7F, name: "MYANMAR LETTER SHWE PALAUNG SHA", aliases: &[] },
        Codepoint { codepoint: 0xAA80, name: "TAI VIET LETTER LOW KO", aliases: &[] },
        Codepoint { codepoint: 0xAA81, name: "TAI VIET LETTER HIGH KO", aliases: &[] },
        Codepoint { codepoint: 0xAA82, name: "TAI VIET LETTER LOW KHO", aliases: &[] },
        Codepoint { codepoint: 0xAA83, name: "TAI VIET LETTER HIGH KHO", aliases: &[] },
        Codepoint { codepoint: 0xAA84, name: "TAI VIET LETTER LOW KHHO", aliases: &[] },
        Codepoint { codepoint: 0xAA85, name: "TAI VIET LETTER HIGH KHHO", aliases: &[] },
        Codepoint { codepoint: 0xAA86, name: "TAI VIET LETTER LOW GO", aliases: &[] },
        Codepoint { codepoint: 0xAA87, name: "TAI VIET LETTER HIGH GO", aliases: &[] },
        Codepoint { codepoint: 0xAA88, name: "TAI VIET LETTER LOW NGO", aliases: &[] },
        Codepoint { codepoint: 0xAA89, name: "TAI VIET LETTER HIGH NGO", aliases: &[] },
        Codepoint { codepoint: 0xAA8A, name: "TAI VIET LETTER LOW CO", aliases: &[] },
        Codepoint { codepoint: 0xAA8B, name: "TAI VIET LETTER HIGH CO", aliases: &[] },
        Codepoint { codepoint: 0xAA8C, name: "TAI VIET LETTER LOW CHO", aliases: &[] },
        Codepoint { codepoint: 0xAA8D, name: "TAI VIET LETTER HIGH CHO", aliases: &[] },
        Codepoint { codepoint: 0xAA8E, name: "TAI VIET LETTER LOW SO", aliases: &[] },
        Codepoint { codepoint: 0xAA8F, name: "TAI VIET LETTER HIGH SO", aliases: &[] },
        Codepoint { codepoint: 0xAA90, name: "TAI VIET LETTER LOW NYO", aliases: &[] },
        Codepoint { codepoint: 0xAA91, name: "TAI VIET LETTER HIGH NYO", aliases: &[] },
        Codepoint { codepoint: 0xAA92, name: "TAI VIET LETTER LOW DO", aliases: &[] },
        Codepoint { codepoint: 0xAA93, name: "TAI VIET LETTER HIGH DO", aliases: &[] },
        Codepoint { codepoint: 0xAA94, name: "TAI VIET LETTER LOW TO", aliases: &[] },
        Codepoint { codepoint: 0xAA95, name: "TAI VIET LETTER HIGH TO", aliases: &[] },
        Codepoint { codepoint: 0xAA96, name: "TAI VIET LETTER LOW THO", aliases: &[] },
        Codepoint { codepoint: 0xAA97, name: "TAI VIET LETTER HIGH THO", aliases: &[] },
        Codepoint { codepoint: 0xAA98, name: "TAI VIET LETTER LOW NO", aliases: &[] },
        Codepoint { codepoint: 0xAA99, name: "TAI VIET LETTER HIGH NO", aliases: &[] },
        Codepoint { codepoint: 0xAA9A, name: "TAI VIET LETTER LOW BO", aliases: &[] },
    ]
}

fn all_codepoints_371() -> (v: Vec<Codepoint>)
    ensures
        v@ == codepoint_table_371(),
{
    let v = vec![
        Codepoint { codepoint: 0xAA73, name: "MYANMAR LETTER KHAMTI RA", aliases: &[] },
        Codepoint { codepoint: 0xAA74, name: "MYANMAR LOGOGRAM KHAMTI OAY", aliases: &[] },
        Codepoint { codepoint: 0xAA75, name: "MYANMAR LOGOGRAM KHAMTI QN", aliases: &[] },
        Codepoint { codepoint: 0xAA76, name: "MYANMAR LOGOGRAM KHAMTI HM", aliases: &[] },
        Codepoint { codepoint: 0xAA77, name: "MYANMAR SYMBOL AITON EXCLAMATION", aliases: &[] },
        Codepoint { codepoint: 0xAA78, name: "MYANMAR SYMBOL AITON ONE", aliases: &[] },
        Codepoint { codepoint: 0xAA79, name: "MYANMAR SYMBOL AITON TWO", aliases: &[] },
        Codepoint { codepoint: 0xAA7A, name: "MYANMAR LETTER AITON RA", aliases: &[] },
        Codepoint { codepoint: 0xAA7B, name: "MYANMAR SIGN PAO KAREN TONE", aliases: &[] },
        Codepoint { codepoint: 0xAA7C, name: "MYANMAR SIGN TAI LAING TONE-2", aliases: &[] },
        Codepoint { codepoint: 0xAA7D, name: "MYANMAR SIGN TAI LAING TONE-5", aliases: &[] },
        Codepoint { codepoint: 0xAA7E, name: "MYANMAR LETTER SHWE PALAUNG CHA", aliases: &[] },
        Codepoint { codepoint: 0xAA7F, name: "MYANMAR LETTER SHWE PALAUNG SHA", aliases: &[] },
        Codepoint { codepoint: 0xAA80, name: "TAI VIET LETTER LOW KO", aliases: &[] },
        Codepoint { codepoint: 0xAA81, name: "TAI VIET LETTER HIGH KO", aliases: &[] },
        Codepoint { codepoint: 0xAA82, name: "TAI VIET LETTER LOW KHO", aliases: &[] },
        Codepoint { codepoint: 0xAA83, name: "TAI VIET LETTER HIGH KHO", aliases: &[] },
        Codepoint { codepoint: 0xAA84, name: "TAI VIET LETTER LOW KHHO", aliases: &[] },
        Codepoint { codepoint: 0xAA85, name: "TAI VIET LETTER HIGH KHHO", aliases: &[] },
        Codepoint { codepoint: 0xAA86, name: "TAI VIET LETTER LOW GO", aliases: &[] },
        Codepoint { codepoint: 0xAA87, name: "TAI VIET LETTER HIGH GO", aliases: &[] },
        Codepoint { codepoint: 0xAA88, name: "TAI VIET LETTER LOW NGO", aliases: &[] },
        Codepoint { codepoint: 0xAA89, name: "TAI VIET LETTER HIGH NGO", aliases: &[] },
        Codepoint { codepoint: 0xAA8A, name: "TAI VIET LETTER LOW CO", aliases: &[] },
        Codepoint { codepoint: 0xAA8B, name: "TAI VIET LETTER HIGH CO", aliases: &[] },
        Codepoint { codepoint: 0xAA8C, name: "TAI VIET LETTER LOW CHO", aliases: &[] },
        Codepoint { codepoint: 0xAA8D, name: "TAI VIET LETTER HIGH CHO", aliases: &[] },
        Codepoint { codepoint: 0xAA8E, name: "TAI VIET LETTER LOW SO", aliases: &[] },
        Codepoint { codepoint: 0xAA8F, name: "TAI VIET LETTER HIGH SO", aliases: &[] },
        Codepoint { codepoint: 0xAA90, name: "TAI VIET LETTER LOW NYO", aliases: &[] },
        Codepoint { codepoint: 0xAA91, name: "TAI VIET LETTER HIGH NYO", aliases: &[] },
        Codepoint { codepoint: 0xAA92, name: "TAI VIET LETTER LOW DO", aliases: &[] },
        Codepoint { codepoint: 0xAA93, name: "TAI VIET LETTER HIGH DO", aliases: &[] },
        Codepoint { codepoint: 0xAA94, name: "TAI VIET LETTER LOW TO", aliases: &[] },
        Codepoint { codepoint: 0xAA95, name: "TAI VIET LETTER HIGH TO", aliases: &[] },
        Codepoint { codepoint: 0xAA96, name: "TAI VIET LETTER LOW THO", aliases: &[] },
        Codepoint { codepoint: 0xAA97, name: "TAI VIET LETTER HIGH THO", aliases: &[] },
        Codepoint { codepoint: 0xAA98, name: "TAI VIET LETTER LOW NO", aliases: &[] },
        Codepoint { codepoint: 0xAA99, name: "TAI VIET LETTER HIGH NO", aliases: &[] },
        Codepoint { codepoint: 0xAA9A, name: "TAI VIET LETTER LOW BO", aliases: &[] },
    ];
    assert(v@ =~= codepoint_table_371());
    v
}

pub open spec fn codepoint_table_372() -> Seq<Codepoint> {
    seq![
        Codepoint { codepoint: 0xAA9B, name: "TAI VIET LETTER HIGH BO", aliases: &[] },
        Codepoint { codepoint: 0xAA9C, name: "TAI VIET LETTER LOW PO", aliases: &[] },
        Codepoint { codepoint: 0xAA9D, name: "TAI VIET LETTER HIGH PO", aliases: &[] },
        Codepoint { codepoint: 0xAA9E, name: "TAI VIET LETTER LOW PHO", aliases: &[] },
        Codepoint { codepoint: 0xAA9F, name: "TAI VIET LETTER HIGH PHO", aliases: &[] },
        Codepoint { codepoint: 0xAAA0, name: "TAI VIET LETTER LOW FO", aliases: &[] },
        Codepoint { codepoint: 0xAAA1, name: "TAI VIET LETTER HIGH FO", aliases: &[] },
        Codepoint { codepoint: 0xAAA2, name: "TAI VIET LETTER LOW MO", aliases: &[] },
        Codepoint { codepoint: 0xAAA3, name: "TAI VIET LETTER HIGH MO", aliases: &[] },
        Codepoint { codepoint: 0xAAA4, name: "TAI VIET LETTER LOW YO", aliases: &[] },
        Codepoint { codepoint: 0xAAA5, name: "TAI VIET LETTER HIGH YO", aliases: &[] },
        Codepoint { codepoint: 0xAAA6, name: "TAI VIET LETTER LOW RO", aliases: &[] },
        Codepoint { codepoint: 0xAAA7, name: "TAI VIET LETTER HIGH RO", aliases: &[] },
        Codepoint { codepoint: 0xAAA8, name: "TAI VIET LETTER LOW LO", aliases: &[] },
        Codepoint { codepoint: 0xAAA9, name: "TAI VIET LETTER HIGH LO", aliases: &[] },
        Codepoint { codepoint: 0xAAAA, name: "TAI VIET LETTER LOW VO", aliases: &[] },
        Codepoint { codepoint: 0xAAAB, name: "TAI VIET LETTER HIGH VO", aliases: &[] },
        Codepoint { codepoint: 0xAAAC, name: "TAI VIET LETTER LOW HO", aliases: &[] },
        Codepoint { codepoint: 0xAAAD, name: "TAI VIET LETTER HIGH HO", aliases: &[] },
        Codepoint { codepoint: 0xAAAE, name: "TAI VIET LETTER LOW O", aliases: &[] },
        Codepoint { codepoint: 0xAAAF, name: "TAI VIET LETTER HIGH O", aliases: &[] },
        Codepoint { codepoint: 0xAAB0, name: "TAI VIET MAI KANG", aliases: &[] },
        Codepoint { codepoint: 0xAAB1, name: "TAI VIET VOWEL AA", aliases: &[] },
        Codepoint { codepoint: 0xAAB2, name: "TAI VIET VOWEL I", aliases: &[] },
        Codepoint { codepoint: 0xAAB3, name: "TAI VIET VOWEL UE", aliases: &[] },
        Codepoint { codepoint: 0xAAB4, name: "TAI VIET VOWEL U", aliases: &[] },
        Codepoint { codepoint: 0xAAB5, name: "TAI VIET VOWEL E", aliases: &[] },
        Codepoint { codepoint: 0xAAB6, name: "TAI VIET VOWEL O", aliases: &[] },
        Codepoint { codepoint: 0xAAB7, name: "TAI VIET MAI KHIT", aliases: &[] },
        Codepoint { codepoint: 0xAAB8, name: "TAI VIET VOWEL IA", aliases: &[] },
        Codepoint { codepoint: 0xAAB9, name: "TAI VIET VOWEL UEA", aliases: &[] },
        Codepoint { codepoint: 0xAABA, name: "TAI VIET VOWEL UA", aliases: &[] },
        Codepoint { codepoint: 0xAABB, name: "TAI VIET VOWEL AUE", aliases: &[] },
        Codepoint { codepoint: 0xAABC, name: "TAI VIET VOWEL AY", aliases: &[] },
        Codepoint { codepoint: 0xAABD, name: "TAI VIET VOWEL AN", aliases: &[] },
        Codepoint { codepoint: 0xAABE, name: "TAI VIET VOWEL AM", aliases: &[] },
        Codepoint { codepoint: 0xAABF, name: "TAI VIET TONE MAI EK", aliases: &[] },
        Codepoint { codepoint: 0xAAC0, name: "TAI VIET TONE MAI NUENG", aliases: &[] },
        Codepoint { codepoint: 0xAAC1, name: "TAI VIET TONE MAI THO", aliases: &[] },
        Codepoint { codepoint: 0xAAC2, name: "TAI VIET TONE MAI SONG", aliases: &[] },
    ]
}

fn all_codepoints_372() -> (v: Vec<Codepoint>)
    ensures
        v@ == codepoint_table_372(),
{
    let v = vec![
        Codepoint { codepoint: 0xAA9B, name: "TAI VIET LETTER HIGH BO", aliases: &[] },
        Codepoint { codepoint: 0xAA9C, name: "TAI VIET LETTER LOW PO", aliases: &[] },
        Codepoint { codepoint: 0xAA9D, name: "TAI VIET LETTER HIGH PO", aliases: &[] },
        Codepoint { codepoint: 0xAA9E, name: "TAI VIET LETTER LOW PHO", aliases: &[] },
        Codepoint { codepoint: 0xAA9F, name: "TAI VIET LETTER HIGH PHO", aliases: &[] },
        Codepoint { codepoint: 0xAAA0, name: "TAI VIET LETTER LOW FO", aliases: &[] },
        Codepoint { codepoint: 0xAAA1, name: "TAI VIET LETTER HIGH FO", aliases: &[] },
        Codepoint { codepoint: 0xAAA2, name: "TAI VIET LETTER LOW MO", aliases: &[] },
        Codepoint { codepoint: 0xAAA3, name: "TAI VIET LETTER HIGH MO", aliases: &[] },
        Codepoint { codepoint: 0xAAA4, name: "TAI VIET LETTER LOW YO", aliases: &[] },
        Codepoint { codepoint: 0xAAA5, name: "TAI VIET LETTER HIGH YO", aliases: &[] },
        Codepoint { codepoint: 0xAAA6, name: "TAI VIET LETTER LOW RO", aliases: &[] },
        Codepoint { codepoint: 0xAAA7, name: "TAI VIET LETTER HIGH RO", aliases: &[] },
        Codepoint { codepoint: 0xAAA8, name: "TAI VIET LETTER LOW LO", aliases: &[] },
        Codepoint { codepoint: 0xAAA9, name: "TAI VIET LETTER HIGH LO", aliases: &[] },
        Codepoint { codepoint: 0xAAAA, name: "TAI VIET LETTER LOW VO", aliases: &[] },
        Codepoint { codepoint: 0xAAAB, name: "TAI VIET LETTER HIGH VO", aliases: &[] },
        Codepoint { codepoint: 0xAAAC, name: "TAI VIET LETTER LOW HO", aliases: &[] },
        Codepoint { codepoint: 0xAAAD, name: "TAI VIET LETTER HIGH HO", aliases: &[] },
        Codepoint { codepoint: 0xAAAE, name: "TAI VIET LETTER LOW O", aliases: &[] },
        Codepoint { codepoint: 0xAAAF, name: "TAI VIET LETTER HIGH O", aliases: &[] },
        Codepoint { codepoint: 0xAAB0, name: "TAI VIET MAI KANG", aliases: &[] },
        Codepoint { codepoint: 0xAAB1, name: "TAI VIET VOWEL AA", aliases: &[] },
        Codepoint { codepoint: 0xAAB2, name: "TAI VIET VOWEL I", aliases: &[] },
        Codepoint { codepoint: 0xAAB3, name: "TAI VIET VOWEL UE", aliases: &[] },
        Codepoint { codepoint: 0xAAB4, name: "TAI VIET VOWEL U", aliases: &[] },
        Codepoint { codepoint: 0xAAB5, name: "TAI VIET VOWEL E", aliases: &[] },
        Codepoint { codepoint: 0xAAB6, name: "TAI VIET VOWEL O", aliases: &[] },
        Codepoint { codepoint: 0xAAB7, name: "TAI VIET MAI KHIT", aliases: &[] },
        Codepoint { codepoint: 0xAAB8, name: "TAI VIET VOWEL IA", aliases: &[] },
        Codepoint { codepoint: 0xAAB9, name: "TAI VIET VOWEL UEA", aliases: &[] },
        Codepoint { codepoint: 0xAABA, name: "TAI VIET VOWEL UA", aliases: &[] },
        Codepoint { codepoint: 0xAABB, name: "TAI VIET VOWEL AUE", aliases: &[] },
        Codepoint { codepoint: 0xAABC, name: "TAI VIET VOWEL AY", aliases: &[] },
        Codepoint { codepoint: 0xAABD, name: "TAI VIET VOWEL AN", aliases: &[] },
        Codepoint { codepoint: 0xAABE, name: "TAI VIET VOWEL AM", aliases: &[] },
        Codepoint { codepoint: 0xAABF, name: "TAI VIET TONE MAI EK", aliases: &[] },
        Codepoint { codepoint: 0xAAC0, name: "TAI VIET TONE MAI NUENG", aliases: &[] },
        Codepoint { codepoint: 0xAAC1, name: "TAI VIET TONE MAI THO", aliases: &[] },
        Codepoint { codepoint: 0xAAC2, name: "TAI VIET TONE MAI SONG", aliases: &[] },
    ];
    assert(v@ =~= codepoint_table_372());
    v
}

pub open spec fn codepoint_table_373() -> Seq<Codepoint> {
    seq![
        Codepoint { codepoint: 0xAADB, name: "TAI VIET SYMBOL KON", aliases: &[] },
        Codepoint { codepoint: 0xAADC, name: "TAI VIET SYMBOL NUENG", aliases: &[] },
        Codepoint { codepoint: 0xAADD, name: "TAI VIET SYMBOL SAM", aliases: &[] },
        Codepoint { codepoint: 0xAADE, name: "TAI VIET SYMBOL HO HOI", aliases: &[] },
        Codepoint { codepoint: 0xAADF, name: "TAI VIET SYMBOL KOI KOI", aliases: &[] },
        Codepoint { codepoint: 0xAAE0, name: "MEETEI MAYEK LETTER E", aliases: &[] },
        Codepoint { codepoint: 0xAAE1, name: "MEETEI MAYEK LETTER O", aliases: &[] },
        Codepoint { codepoint: 0xAAE2, name: "MEETEI MAYEK LETTER CHA", aliases: &[] },
        Codepoint { codepoint: 0xAAE3, name: "MEETEI MAYEK LETTER NYA", aliases: &[] },
        Codepoint { codepoint: 0xAAE4, name: "MEETEI MAYEK LETTER TTA", aliases: &[] },
        Codepoint { codepoint: 0xAAE5, name: "MEETEI MAYEK LETTER TTHA", aliases: &[] },
        Codepoint { codepoint: 0xAAE6, name: "MEETEI MAYEK LETTER DDA", aliases: &[] },
        Codepoint { codepoint: 0xAAE7, name: "MEETEI MAYEK LETTER DDHA", aliases: &[] },
        Codepoint { codepoint: 0xAAE8, name: "MEETEI MAYEK LETTER NNA", aliases: &[] },
        Codepoint { codepoint: 0xAAE9, name: "MEETEI MAYEK LETTER SHA", aliases: &[] },
        Codepoint { codepoint: 0xAAEA, name: "MEETEI MAYEK LETTER SSA", aliases: &[] },
        Codepoint { codepoint: 0xAAEB, name: "MEETEI MAYEK VOWEL SIGN II", aliases: &[] },
        Codepoint { codepoint: 0xAAEC, name: "MEETEI MAYEK VOWEL SIGN UU", aliases: &[] },
        Codepoint { codepoint: 0xAAED, name: "MEETEI MAYEK VOWEL SIGN AAI", aliases: &[] },
        Codepoint { codepoint: 0xAAEE, name: "MEETEI MAYEK VOWEL SIGN AU", aliases: &[] },
        Codepoint { codepoint: 0xAAEF, name: "MEETEI MAYEK VOWEL SIGN AAU", aliases: &[] },
        Codepoint { codepoint: 0xAAF0, name: "MEETEI MAYEK CHEIKHAN", aliases: &[] },
        Codepoint { codepoint: 0xAAF1, name: "MEETEI MAYEK AHANG KHUDAM", aliases: &[] },
        Codepoint { codepoint: 0xAAF2, name: "MEETEI MAYEK ANJI", aliases: &[] },
        Codepoint { codepoint: 0xAAF3, name: "MEETEI MAYEK SYLLABLE REPETITION MARK", aliases: &[] },
        Codepoint { codepoint: 0xAAF4, name: "MEETEI MAYEK WORD REPETITION MARK", aliases: &[] },
        Codepoint { codepoint: 0xAAF5, name: "MEETEI MAYEK VOWEL SIGN VISARGA", aliases: &[] },
        Codepoint { codepoint: 0xAAF6, name: "MEETEI MAYEK VIRAMA", aliases: &[] },
        Codepoint { codepoint: 0xAB01, name: "ETHIOPIC SYLLABLE TTHU", aliases: &[] },
        Codepoint { codepoint: 0xAB02, name: "ETHIOPIC SYLLABLE TTHI", aliases: &[] },
        Codepoint { codepoint: 0xAB03, name: "ETHIOPIC SYLLABLE TTHAA", aliases: &[] },
        Codepoint { codepoint: 0xAB04, name: "ETHIOPIC SYLLABLE TTHEE", aliases: &[] },
        Codepoint { codepoint: 0xAB05, name: "ETHIOPIC SYLLABLE TTHE", aliases: &[] },
        Codepoint { codepoint: 0xAB06, name: "ETHIOPIC SYLLABLE TTHO", aliases: &[] },
        Codepoint { codepoint: 0xAB09, name: "ETHIOPIC SYLLABLE DDHU", aliases: &[] },
        Codepoint { codepoint: 0xAB0A, name: "ETHIOPIC SYLLABLE DDHI", aliases: &[] },
        Codepoint { codepoint: 0xAB0B, name: "ETHIOPIC SYLLABLE DDHAA", aliases: &[] },
        Codepoint { codepoint: 0xAB0C, name: "ETHIOPIC SYLLABLE DDHEE", aliases: &[] },
        Codepoint { codepoint: 0xAB0D, name: "ETHIOPIC SYLLABLE DDHE", aliases: &[] },
        Codepoint { codepoint: 0xAB0E, name: "ETHIOPIC SYLLABLE DDHO", aliases: &[] },
    ]
}

fn all_codepoints_373() -> (v: Vec<Codepoint>)
    ensures
        v@ == codepoint_table_373(),
{
    let v = vec![
        Codepoint { codepoint: 0xAADB, name: "TAI VIET SYMBOL KON", aliases: &[] },
        Codepoint { codepoint: 0xAADC, name: "TAI VIET SYMBOL NUENG", aliases: &[] },
        Codepoint { codepoint: 0xAADD, name: "TAI VIET SYMBOL SAM", aliases: &[] },
        Codepoint { codepoint: 0xAADE, name: "TAI VIET SYMBOL HO HOI", aliases: &[] },
        Codepoint { codepoint: 0xAADF, name: "TAI VIET SYMBOL KOI KOI", aliases: &[] },
        Codepoint { codepoint: 0xAAE0, name: "MEETEI MAYEK LETTER E", aliases: &[] },
        Codepoint { codepoint: 0xAAE1, name: "MEETEI MAYEK LETTER O", aliases: &[] },
        Codepoint { codepoint: 0xAAE2, name: "MEETEI MAYEK LETTER CHA", aliases: &[] },
        Codepoint { codepoint: 0xAAE3, name: "MEETEI MAYEK LETTER NYA", aliases: &[] },
        Codepoint { codepoint: 0xAAE4, name: "MEETEI MAYEK LETTER TTA", aliases: &[] },
        Codepoint { codepoint: 0xAAE5, name: "MEETEI MAYEK LETTER TTHA", aliases: &[] },
        Codepoint { codepoint: 0xAAE6, name: "MEETEI MAYEK LETTER DDA", aliases: &[] },
        Codepoint { codepoint: 0xAAE7, name: "MEETEI MAYEK LETTER DDHA", aliases: &[] },
        Codepoint { codepoint: 0xAAE8, name: "MEETEI MAYEK LETTER NNA", aliases: &[] },
        Codepoint { codepoint: 0xAAE9, name: "MEETEI MAYEK LETTER SHA", aliases: &[] },
        Codepoint { codepoint: 0xAAEA, name: "MEETEI MAYEK LETTER SSA", aliases: &[] },
        Codepoint { codepoint: 0xAAEB, name: "MEETEI MAYEK VOWEL SIGN II", aliases: &[] },
        Codepoint { codepoint: 0xAAEC, name: "MEETEI MAYEK VOWEL SIGN UU", aliases: &[] },
        Codepoint { codepoint: 0xAAED, name: "MEETEI MAYEK VOWEL SIGN AAI", aliases: &[] },
        Codepoint { codepoint: 0xAAEE, name: "MEETEI MAYEK VOWEL SIGN AU", aliases: &[] },
        Codepoint { codepoint: 0xAAEF, name: "MEETEI MAYEK VOWEL SIGN AAU", aliases: &[] },
        Codepoint { codepoint: 0xAAF0, name: "MEETEI MAYEK CHEIKHAN", aliases: &[] },
        Codepoint { codepoint: 0xAAF1, name: "MEETEI MAYEK AHANG KHUDAM", aliases: &[] },
        Codepoint { codepoint: 0xAAF2, name: "MEETEI MAYEK ANJI", aliases: &[] },
        Codepoint { codepoint: 0xAAF3, name: "MEETEI MAYEK SYLLABLE REPETITION MARK", aliases: &[] },
        Codepoint { codepoint: 0xAAF4, name: "MEETEI MAYEK WORD REPETITION MARK", aliases: &[] },
        Codepoint { codepoint: 0xAAF5, name: "MEETEI MAYEK VOWEL SIGN VISARGA", aliases: &[] },
        Codepoint { codepoint: 0xAAF6, name: "MEETEI MAYEK VIRAMA", aliases: &[] },
        Codepoint { codepoint: 0xAB01, name: "ETHIOPIC SYLLABLE TTHU", aliases: &[] },
        Codepoint { codepoint: 0xAB02, name: "ETHIOPIC SYLLABLE TTHI", aliases: &[] },
        Codepoint { codepoint: 0xAB03, name: "ETHIOPIC SYLLABLE TTHAA", aliases: &[] },
        Codepoint { codepoint: 0xAB04, name: "ETHIOPIC SYLLABLE TTHEE", aliases: &[] },
        Codepoint { codepoint: 0xAB05, name: "ETHIOPIC SYLLABLE TTHE", aliases: &[] },
        Codepoint { codepoint: 0xAB06, name: "ETHIOPIC SYLLABLE TTHO", aliases: &[] },
        Codepoint { codepoint: 0xAB09, name: "ETHIOPIC SYLLABLE DDHU", aliases: &[] },
        Codepoint { codepoint: 0xAB0A, name: "ETHIOPIC SYLLABLE DDHI", aliases: &[] },
        Codepoint { codepoint: 0xAB0B, name: "ETHIOPIC SYLLABLE DDHAA", aliases: &[] },
        Codepoint { codepoint: 0xAB0C, name: "ETHIOPIC SYLLABLE DDHEE", aliases: &[] },
        Codepoint { codepoint: 0xAB0D, name: "ETHIOPIC SYLLABLE DDHE", aliases: &[] },
        Codepoint { codepoint: 0xAB0E, name: "ETHIOPIC SYLLABLE DDHO", aliases: &[] },
    ];
    assert(v@ =~= codepoint_table_373());
    v
}

pub open spec fn codepoint_table_374() -> Seq<Codepoint> {
    seq![
        Codepoint { codepoint: 0xAB11, name: "ETHIOPIC SYLLABLE DZU", aliases: &[] },
        Codepoint { codepoint: 0xAB12, name: "ETHIOPIC SYLLABLE DZI", aliases: &[] },
        Codepoint { codepoint: 0xAB13, name: "ETHIOPIC SYLLABLE DZAA", aliases: &[] },
        Codepoint { codepoint: 0xAB14, name: "ETHIOPIC SYLLABLE DZEE", aliases: &[] },
        Codepoint { codepoint: 0xAB15, name: "ETHIOPIC SYLLABLE DZE", aliases: &[] },
        Codepoint { codepoint: 0xAB16, name: "ETHIOPIC SYLLABLE DZO", aliases: &[] },
        Codepoint { codepoint: 0xAB20, name: "ETHIOPIC SYLLABLE CCHHA", aliases: &[] },
        Codepoint { codepoint: 0xAB21, name: "ETHIOPIC SYLLABLE CCHHU", aliases: &[] },
        Codepoint { codepoint: 0xAB22, name: "ETHIOPIC SYLLABLE CCHHI", aliases: &[] },
        Codepoint { codepoint: 0xAB23, name: "ETHIOPIC SYLLABLE CCHHAA", aliases: &[] },
        Codepoint { codepoint: 0xAB24, name: "ETHIOPIC SYLLABLE CCHHEE", aliases: &[] },
        Codepoint { codepoint: 0xAB25, name: "ETHIOPIC SYLLABLE CCHHE", aliases: &[] },
        Codepoint { codepoint: 0xAB26, name: "ETHIOPIC SYLLABLE CCHHO", aliases: &[] },
        Codepoint { codepoint: 0xAB28, name: "ETHIOPIC SYLLABLE BBA", aliases: &[] },
        Codepoint { codepoint: 0xAB29, name: "ETHIOPIC SYLLABLE BBU", aliases: &[] },
        Codepoint { codepoint: 0xAB2A, name: "ETHIOPIC SYLLABLE BBI", aliases: &[] },
        Codepoint { codepoint: 0xAB2B, name: "ETHIOPIC SYLLABLE BBAA", aliases: &[] },
        Codepoint { codepoint: 0xAB2C, name: "ETHIOPIC SYLLABLE BBEE", aliases: &[] },
        Codepoint { codepoint: 0xAB2D, name: "ETHIOPIC SYLLABLE BBE", aliases: &[] },
        Codepoint { codepoint: 0xAB2E, name: "ETHIOPIC SYLLABLE BBO", aliases: &[] },
        Codepoint { codepoint: 0xAB30, name: "LATIN SMALL LETTER BARRED ALPHA", aliases: &[] },
        Codepoint { codepoint: 0xAB31, name: "LATIN SMALL LETTER A REVERSED-SCHWA", aliases: &[] },
        Codepoint { codepoint: 0xAB32, name: "LATIN SMALL LETTER BLACKLETTER E", aliases: &[] },
        Codepoint { codepoint: 0xAB33, name: "LATIN SMALL LETTER BARRED E", aliases: &[] },
        Codepoint { codepoint: 0xAB34, name: "LATIN SMALL LETTER E WITH FLOURISH", aliases: &[] },
        Codepoint { codepoint: 0xAB35, name: "LATIN SMALL LETTER LENIS F", aliases: &[] },
        Codepoint { codepoint: 0xAB36, name: "LATIN SMALL LETTER SCRIPT G WITH CROSSED-TAIL", aliases: &[] },
        Codepoint { codepoint: 0xAB37, name: "LATIN SMALL LETTER L WITH INVERTED LAZY S", aliases: &[] },
        Codepoint { codepoint: 0xAB38, name: "LATIN SMALL LETTER L WITH DOUBLE MIDDLE TILDE", aliases: &[] },
        Codepoint { codepoint: 0xAB39, name: "LATIN SMALL LETTER L WITH MIDDLE RING", aliases: &[] },
        Codepoint { codepoint: 0xAB3A, name: "LATIN SMALL LETTER M WITH CROSSED-TAIL", aliases: &[] },
        Codepoint { codepoint: 0xAB3B, name: "LATIN SMALL LETTER N WITH CROSSED-TAIL", aliases: &[] },
        Codepoint { codepoint: 0xAB3C, name: "LATIN SMALL LETTER ENG WITH CROSSED-TAIL", aliases: &[] },
        Codepoint { codepoint: 0xAB3D, name: "LATIN SMALL LETTER BLACKLETTER O", aliases: &[] },
        Codepoint { codepoint: 0xAB3E, name: "LATIN SMALL LETTER BLACKLETTER O WITH STROKE", aliases: &[] },
        Codepoint { codepoint: 0xAB3F, name: "LATIN SMALL LETTER OPEN O WITH STROKE", aliases: &[] },
        Codepoint { codepoint: 0xAB40, name: "LATIN SMALL LETTER INVERTED OE", aliases: &[] },
        Codepoint { codepoint: 0xAB41, name: "LATIN SMALL LETTER TURNED OE WITH STROKE", aliases: &[] },
        Codepoint { codepoint: 0xAB42, name: "LATIN SMALL LETTER TURNED OE WITH HORIZONTAL STROKE", aliases: &[] },
        Codepoint { codepoint: 0xAB43, name: "LATIN SMALL LETTER TURNED O OPEN-O", aliases: &[] },
    ]
}

fn all_codepoints_374() -> (v: Vec<Codepoint>)
    ensures
        v@ == codepoint_table_374(),
{
    let v = vec![
        Codepoint { codepoint: 0xAB11, name: "ETHIOPIC SYLLABLE DZU", aliases: &[] },
        Codepoint { codepoint: 0xAB12, name: "ETHIOPIC SYLLABLE DZI", aliases: &[] },
        Codepoint { codepoint: 0xAB13, name: "ETHIOPIC SYLLABLE DZAA", aliases: &[] },
        Codepoint { codepoint: 0xAB14, name: "ETHIOPIC SYLLABLE DZEE", aliases: &[] },
        Codepoint { codepoint: 0xAB15, name: "ETHIOPIC SYLLABLE DZE", aliases: &[] },
        Codepoint { codepoint: 0xAB16, name: "ETHIOPIC SYLLABLE DZO", aliases: &[] },
        Codepoint { codepoint: 0xAB20, name: "ETHIOPIC SYLLABLE CCHHA", aliases: &[] },
        Codepoint { codepoint: 0xAB21, name: "ETHIOPIC SYLLABLE CCHHU", aliases: &[] },
        Codepoint { codepoint: 0xAB22, name: "ETHIOPIC SYLLABLE CCHHI", aliases: &[] },
        Codepoint { codepoint: 0xAB23, name: "ETHIOPIC SYLLABLE CCHHAA", aliases: &[] },
        Codepoint { codepoint: 0xAB24, name: "ETHIOPIC SYLLABLE CCHHEE", aliases: &[] },
        Codepoint { codepoint: 0xAB25, name: "ETHIOPIC SYLLABLE CCHHE", aliases: &[] },
        Codepoint { codepoint: 0xAB26, name: "ETHIOPIC SYLLABLE CCHHO", aliases: &[] },
        Codepoint { codepoint: 0xAB28, name: "ETHIOPIC SYLLABLE BBA", aliases: &[] },
        Codepoint { codepoint: 0xAB29, name: "ETHIOPIC SYLLABLE BBU", aliases: &[] },
        Codepoint { codepoint: 0xAB2A, name: "ETHIOPIC SYLLABLE BBI", aliases: &[] },
        Codepoint { codepoint: 0xAB2B, name: "ETHIOPIC SYLLABLE BBAA", aliases: &[] },
        Codepoint { codepoint: 0xAB2C, name: "ETHIOPIC SYLLABLE BBEE", aliases: &[] },
        Codepoint { codepoint: 0xAB2D, name: "ETHIOPIC SYLLABLE BBE", aliases: &[] },
        Codepoint { codepoint: 0xAB2E, name: "ETHIOPIC SYLLABLE BBO", aliases: &[] },
        Codepoint { codepoint: 0xAB30, name: "LATIN SMALL LETTER BARRED ALPHA", aliases: &[] },
        Codepoint { codepoint: 0xAB31, name: "LATIN SMALL LETTER A REVERSED-SCHWA", aliases: &[] },
        Codepoint { codepoint: 0xAB32, name: "LATIN SMALL LETTER BLACKLETTER E", aliases: &[] },
        Codepoint { codepoint: 0xAB33, name: "LATIN SMALL LETTER BARRED E", aliases: &[] },
        Codepoint { codepoint: 0xAB34, name: "LATIN SMALL LETTER E WITH FLOURISH", aliases: &[] },
        Codepoint { codepoint: 0xAB35, name: "LATIN SMALL LETTER LENIS F", aliases: &[] },
        Codepoint { codepoint: 0xAB36, name: "LATIN SMALL LETTER SCRIPT G WITH CROSSED-TAIL", aliases: &[] },
        Codepoint { codepoint: 0xAB37, name: "LATIN SMALL LETTER L WITH INVERTED LAZY S", aliases: &[] },
        Codepoint { codepoint: 0xAB38, name: "LATIN SMALL LETTER L WITH DOUBLE MIDDLE TILDE", aliases: &[] },
        Codepoint { codepoint: 0xAB39, name: "LATIN SMALL LETTER L WITH MIDDLE RING", aliases: &[] },
        Codepoint { codepoint: 0xAB3A, name: "LATIN SMALL LETTER M WITH CROSSED-TAIL", aliases: &[] },
        Codepoint { codepoint: 0xAB3B, name: "LATIN SMALL LETTER N WITH CROSSED-TAIL", aliases: &[] },
        Codepoint { codepoint: 0xAB3C, name: "LATIN SMALL LETTER ENG WITH CROSSED-TAIL", aliases: &[] },
        Codepoint { codepoint: 0xAB3D, name: "LATIN SMALL LETTER BLACKLETTER O", aliases: &[] },
        Codepoint { codepoint: 0xAB3E, name: "LATIN SMALL LETTER BLACKLETTER O WITH STROKE", aliases: &[] },
        Codepoint { codepoint: 0xAB3F, name: "LATIN SMALL LETTER OPEN O WITH STROKE", aliases: &[] },
        Codepoint { codepoint: 0xAB40, name: "LATIN SMALL LETTER INVERTED OE", aliases: &[] },
        Codepoint { codepoint: 0xAB41, name: "LATIN SMALL LETTER TURNED OE WITH STROKE", aliases: &[] },
        Codepoint { codepoint: 0xAB42, name: "LATIN SMALL LETTER TURNED OE WITH HORIZONTAL STROKE", aliases: &[] },
        Codepoint { codepoint: 0xAB43, name: "LATIN SMALL LETTER TURNED O OPEN-O", aliases: &[] },
    ];
    assert(v@ =~= codepoint_table_374());
    v
}

pub open spec fn codepoint_table_375() -> Seq<Codepoint> {
    seq![
        Codepoint { codepoint: 0xAB44, name: "LATIN SMALL LETTER TURNED O OPEN-O WITH STROKE", aliases: &[] },
        Codepoint { codepoint: 0xAB45, name: "LATIN SMALL LETTER STIRRUP R", aliases: &[] },
        Codepoint { codepoint: 0xAB46, name: "LATIN LETTER SMALL CAPITAL R WITH RIGHT LEG", aliases: &[] },
        Codepoint { codepoint: 0xAB47, name: "LATIN SMALL LETTER R WITHOUT HANDLE", aliases: &[] },
        Codepoint { codepoint: 0xAB48, name: "LATIN SMALL LETTER DOUBLE R", aliases: &[] },
        Codepoint { codepoint: 0xAB49, name: "LATIN SMALL LETTER R WITH CROSSED-TAIL", aliases: &[] },
        Codepoint { codepoint: 0xAB4A, name: "LATIN SMALL LETTER DOUBLE R WITH CROSSED-TAIL", aliases: &[] },
        Codepoint { codepoint: 0xAB4B, name: "LATIN SMALL LETTER SCRIPT R", aliases: &[] },
        Codepoint { codepoint: 0xAB4C, name: "LATIN SMALL LETTER SCRIPT R WITH RING", aliases: &[] },
        Codepoint { codepoint: 0xAB4D, name: "LATIN SMALL LETTER BASELINE ESH", aliases: &[] },
        Codepoint { codepoint: 0xAB4E, name: "LATIN SMALL LETTER U WITH SHORT RIGHT LEG", aliases: &[] },
        Codepoint { codepoint: 0xAB4F, name: "LATIN SMALL LETTER U BAR WITH SHORT RIGHT LEG", aliases: &[] },
        Codepoint { codepoint: 0xAB50, name: "LATIN SMALL LETTER UI", aliases: &[] },
        Codepoint { codepoint: 0xAB51, name: "LATIN SMALL LETTER TURNED UI", aliases: &[] },
        Codepoint { codepoint: 0xAB52, name: "LATIN SMALL LETTER U WITH LEFT HOOK", aliases: &[] },
        Codepoint { codepoint: 0xAB53, name: "LATIN SMALL LETTER CHI", aliases: &[] },
        Codepoint { codepoint: 0xAB54, name: "LATIN SMALL LETTER CHI WITH LOW RIGHT RING", aliases: &[] },
        Codepoint { codepoint: 0xAB55, name: "LATIN SMALL LETTER CHI WITH LOW LEFT SERIF", aliases: &[] },
        Codepoint { codepoint: 0xAB56, name: "LATIN SMALL LETTER X WITH LOW RIGHT RING", aliases: &[] },
        Codepoint { codepoint: 0xAB57, name: "LATIN SMALL LETTER X WITH LONG LEFT LEG", aliases: &[] },
        Codepoint { codepoint: 0xAB58, name: "LATIN SMALL LETTER X WITH LONG LEFT LEG AND LOW RIGHT RING", aliases: &[] },
        Codepoint { codepoint: 0xAB59, name: "LATIN SMALL LETTER X WITH LONG LEFT LEG WITH SERIF", aliases: &[] },
        Codepoint { codepoint: 0xAB5A, name: "LATIN SMALL LETTER Y WITH SHORT RIGHT LEG", aliases: &[] },
        Codepoint { codepoint: 0xAB5B, name: "MODIFIER BREVE WITH INVERTED BREVE", aliases: &[] },
        Codepoint { codepoint: 0xAB5C, name: "MODIFIER LETTER SMALL HENG", aliases: &[] },
        Codepoint { codepoint: 0xAB5D, name: "MODIFIER LETTER SMALL L WITH INVERTED LAZY S", aliases: &[] },
        Codepoint { codepoint: 0xAB5E, name: "MODIFIER LETTER SMALL L WITH MIDDLE TILDE", aliases: &[] },
        Codepoint { codepoint: 0xAB5F, name: "MODIFIER LETTER SMALL U WITH LEFT HOOK", aliases: &[] },
        Codepoint { codepoint: 0xAB60, name: "LATIN SMALL LETTER SAKHA YAT", aliases: &[] },
        Codepoint { codepoint: 0xAB61, name: "LATIN SMALL LETTER IOTIFIED E", aliases: &[] },
        Codepoint { codepoint: 0xAB62, name: "LATIN SMALL LETTER OPEN OE", aliases: &[] },
        Codepoint { codepoint: 0xAB63, name: "LATIN SMALL LETTER UO", aliases: &[] },
        Codepoint { codepoint: 0xAB64, name: "LATIN SMALL LETTER INVERTED ALPHA", aliases: &[] },
        Codepoint { codepoint: 0xAB65, name: "GREEK LETTER SMALL CAPITAL OMEGA", aliases: &[] },
        Codepoint { codepoint: 0xAB66, name: "LATIN SMALL LETTER DZ DIGRAPH WITH RETROFLEX HOOK", aliases: &[] },
        Codepoint { codepoint: 0xAB67, name: "LATIN SMALL LETTER TS DIGRAPH WITH RETROFLEX HOOK", aliases: &[] },
        Codepoint { codepoint: 0xAB68, name: "LATIN SMALL LETTER TURNED R WITH MIDDLE TILDE", aliases: &[] },
        Codepoint { codepoint: 0xAB69, name: "MODIFIER LETTER SMALL TURNED W", aliases: &[] },
        Codepoint { codepoint: 0xAB6A, name: "MODIFIER LETTER LEFT TACK", aliases: &[] },
        Codepoint { codepoint: 0xAB6B, name: "MODIFIER LETTER RIGHT TACK", aliases: &[] },
    ]
}

fn all_codepoints_375() -> (v: Vec<Codepoint>)
    ensures
        v@ == codepoint_table_375(),
{
    let v = vec![
        Codepoint { codepoint: 0xAB44, name: "LATIN SMALL LETTER TURNED O OPEN-O WITH STROKE", aliases: &[] },
        Codepoint { codepoint: 0xAB45, name: "LATIN SMALL LETTER STIRRUP R", aliases: &[] },
        Codepoint { codepoint: 0xAB46, name: "LATIN LETTER SMALL CAPITAL R WITH RIGHT LEG", aliases: &[] },
        Codepoint { codepoint: 0xAB47, name: "LATIN SMALL LETTER R WITHOUT HANDLE", aliases: &[] },
        Codepoint { codepoint: 0xAB48, name: "LATIN SMALL LETTER DOUBLE R", aliases: &[] },
        Codepoint { codepoint: 0xAB49, name: "LATIN SMALL LETTER R WITH CROSSED-TAIL", aliases: &[] },
        Codepoint { codepoint: 0xAB4A, name: "LATIN SMALL LETTER DOUBLE R WITH CROSSED-TAIL", aliases: &[] },
        Codepoint { codepoint: 0xAB4B, name: "LATIN SMALL LETTER SCRIPT R", aliases: &[] },
        Codepoint { codepoint: 0xAB4C, name: "LATIN SMALL LETTER SCRIPT R WITH RING", aliases: &[] },
        Codepoint { codepoint: 0xAB4D, name: "LATIN SMALL LETTER BASELINE ESH", aliases: &[] },
        Codepoint { codepoint: 0xAB4E, name: "LATIN SMALL LETTER U WITH SHORT RIGHT LEG", aliases: &[] },
        Codepoint { codepoint: 0xAB4F, name: "LATIN SMALL LETTER U BAR WITH SHORT RIGHT LEG", aliases: &[] },
        Codepoint { codepoint: 0xAB50, name: "LATIN SMALL LETTER UI", aliases: &[] },
        Codepoint { codepoint: 0xAB51, name: "LATIN SMALL LETTER TURNED UI", aliases: &[] },
        Codepoint { codepoint: 0xAB52, name: "LATIN SMALL LETTER U WITH LEFT HOOK", aliases: &[] },
        Codepoint { codepoint: 0xAB53, name: "LATIN SMALL LETTER CHI", aliases: &[] },
        Codepoint { codepoint: 0xAB54, name: "LATIN SMALL LETTER CHI WITH LOW RIGHT RING", aliases: &[] },
        Codepoint { codepoint: 0xAB55, name: "LATIN SMALL LETTER CHI WITH LOW LEFT SERIF", aliases: &[] },
        Codepoint { codepoint: 0xAB56, name: "LATIN SMALL LETTER X WITH LOW RIGHT RING", aliases: &[] },
        Codepoint { codepoint: 0xAB57, name: "LATIN SMALL LETTER X WITH LONG LEFT LEG", aliases: &[] },
        Codepoint { codepoint: 0xAB58, name: "LATIN SMALL LETTER X WITH LONG LEFT LEG AND LOW RIGHT RING", aliases: &[] },
        Codepoint { codepoint: 0xAB59, name: "LATIN SMALL LETTER X WITH LONG LEFT LEG WITH SERIF", aliases: &[] },
        Codepoint { codepoint: 0xAB5A, name: "LATIN SMALL LETTER Y WITH SHORT RIGHT LEG", aliases: &[] },
        Codepoint { codepoint: 0xAB5B, name: "MODIFIER BREVE WITH INVERTED BREVE", aliases: &[] },
        Codepoint { codepoint: 0xAB5C, name: "MODIFIER LETTER SMALL HENG", aliases: &[] },
        Codepoint { codepoint: 0xAB5D, name: "MODIFIER LETTER SMALL L WITH INVERTED LAZY S", aliases: &[] },
        Codepoint { codepoint: 0xAB5E, name: "MODIFIER LETTER SMALL L WITH MIDDLE TILDE", aliases: &[] },
        Codepoint { codepoint: 0xAB5F, name: "MODIFIER LETTER SMALL U WITH LEFT HOOK", aliases: &[] },
        Codepoint { codepoint: 0xAB60, name: "LATIN SMALL LETTER SAKHA YAT", aliases: &[] },
        Codepoint { codepoint: 0xAB61, name: "LATIN SMALL LETTER IOTIFIED E", aliases: &[] },
        Codepoint { codepoint: 0xAB62, name: "LATIN SMALL LETTER OPEN OE", aliases: &[] },
        Codepoint { codepoint: 0xAB63, name: "LATIN SMALL LETTER UO", aliases: &[] },
        Codepoint { codepoint: 0xAB64, name: "LATIN SMALL LETTER INVERTED ALPHA", aliases: &[] },
        Codepoint { codepoint: 0xAB65, name: "GREEK LETTER SMALL CAPITAL OMEGA", aliases: &[] },
        Codepoint { codepoint: 0xAB66, name: "LATIN SMALL LETTER DZ DIGRAPH WITH RETROFLEX HOOK", aliases: &[] },
        Codepoint { codepoint: 0xAB67, name: "LATIN SMALL LETTER TS DIGRAPH WITH RETROFLEX HOOK", aliases: &[] },
        Codepoint { codepoint: 0xAB68, name: "LATIN SMALL LETTER TURNED R WITH MIDDLE TILDE", aliases: &[] },
        Codepoint { codepoint: 0xAB69, name: "MODIFIER LETTER SMALL TURNED W", aliases: &[] },
        Codepoint { codepoint: 0xAB6A, name: "MODIFIER LETTER LEFT TACK", aliases: &[] },
        Codepoint { codepoint: 0xAB6B, name: "MODIFIER LETTER RIGHT TACK", aliases: &[] },
    ];
    assert(v@ =~= codepoint_table_375());
    v
}

pub open spec fn codepoint_table_376() -> Seq<Codepoint> {
    seq![
        Codepoint { codepoint: 0xAB70, name: "CHEROKEE SMALL LETTER A", aliases: &[] },
        Codepoint { codepoint: 0xAB71, name: "CHEROKEE SMALL LETTER E", aliases: &[] },
        Codepoint { codepoint: 0xAB72, name: "CHEROKEE SMALL LETTER I", aliases: &[] },
        Codepoint { codepoint: 0xAB73, name: "CHEROKEE SMALL LETTER O", aliases: &[] },
        Codepoint { codepoint: 0xAB74, name: "CHEROKEE SMALL LETTER U", aliases: &[] },
        Codepoint { codepoint: 0xAB75, name: "CHEROKEE SMALL LETTER V", aliases: &[] },
        Codepoint { codepoint: 0xAB76, name: "CHEROKEE SMALL LETTER GA", aliases: &[] },
        Codepoint { codepoint: 0xAB77, name: "CHEROKEE SMALL LETTER KA", aliases: &[] },
        Codepoint { codepoint: 0xAB78, name: "CHEROKEE SMALL LETTER GE", aliases: &[] },
        Codepoint { codepoint: 0xAB79, name: "CHEROKEE SMALL LETTER GI", aliases: &[] },
        Codepoint { codepoint: 0xAB7A, name: "CHEROKEE SMALL LETTER GO", aliases: &[] },
        Codepoint { codepoint: 0xAB7B, name: "CHEROKEE SMALL LETTER GU", aliases: &[] },
        Codepoint { codepoint: 0xAB7C, name: "CHEROKEE SMALL LETTER GV", aliases: &[] },
        Codepoint { codepoint: 0xAB7D, name: "CHEROKEE SMALL LETTER HA", aliases: &[] },
        Codepoint { codepoint: 0xAB7E, name: "CHEROKEE SMALL LETTER HE", aliases: &[] },
        Codepoint { codepoint: 0xAB7F, name: "CHEROKEE SMALL LETTER HI", aliases: &[] },
        Codepoint { codepoint: 0xAB80, name: "CHEROKEE SMALL LETTER HO", aliases: &[] },
        Codepoint { codepoint: 0xAB81, name: "CHEROKEE SMALL LETTER HU", aliases: &[] },
        Codepoint { codepoint: 0xAB82, name: "CHEROKEE SMALL LETTER HV", aliases: &[] },
        Codepoint { codepoint: 0xAB83, name: "CHEROKEE SMALL LETTER LA", aliases: &[] },
        Codepoint { codepoint: 0xAB84, name: "CHEROKEE SMALL LETTER LE", aliases: &[] },
        Codepoint { codepoint: 0xAB85, name: "CHEROKEE SMALL LETTER LI", aliases: &[] },
        Codepoint { codepoint: 0xAB86, name: "CHEROKEE SMALL LETTER LO", aliases: &[] },
        Codepoint { codepoint: 0xAB87, name: "CHEROKEE SMALL LETTER LU", aliases: &[] },
        Codepoint { codepoint: 0xAB88, name: "CHEROKEE SMALL LETTER LV", aliases: &[] },
        Codepoint { codepoint: 0xAB89, name: "CHEROKEE SMALL LETTER MA", aliases: &[] },
        Codepoint { codepoint: 0xAB8A, name: "CHEROKEE SMALL LETTER ME", aliases: &[] },
        Codepoint { codepoint: 0xAB8B, name: "CHEROKEE SMALL LETTER MI", aliases: &[] },
        Codepoint { codepoint: 0xAB8C, name: "CHEROKEE SMALL LETTER MO", aliases: &[] },
        Codepoint { codepoint: 0xAB8D, name: "CHEROKEE SMALL LETTER MU", aliases: &[] },
        Codepoint { codepoint: 0xAB8E, name: "CHEROKEE SMALL LETTER NA", aliases: &[] },
        Codepoint { codepoint: 0xAB8F, name: "CHEROKEE SMALL LETTER HNA", aliases: &[] },
        Codepoint { codepoint: 0xAB90, name: "CHEROKEE SMALL LETTER NAH", aliases: &[] },
        Codepoint { codepoint: 0xAB91, name: "CHEROKEE SMALL LETTER NE", aliases: &[] },
        Codepoint { codepoint: 0xAB92, name: "CHEROKEE SMALL LETTER NI", aliases: &[] },
        Codepoint { codepoint: 0xAB93, name: "CHEROKEE SMALL LETTER NO", aliases: &[] },
        Codepoint { codepoint: 0xAB94, name: "CHEROKEE SMALL LETTER NU", aliases: &[] },
        Codepoint { codepoint: 0xAB95, name: "CHEROKEE SMALL LETTER NV", aliases: &[] },
        Codepoint { codepoint: 0xAB96, name: "CHEROKEE SMALL LETTER QUA", aliases: &[] },
        Codepoint { codepoint: 0xAB97, name: "CHEROKEE SMALL LETTER QUE", aliases: &[] },
    ]
}

fn all_codepoints_376() -> (v: Vec<Codepoint>)
    ensures
        v@ == codepoint_table_376(),
{
    let v = vec![
        Codepoint { codepoint: 0xAB70, name: "CHEROKEE SMALL LETTER A", aliases: &[] },
        Codepoint { codepoint: 0xAB71, name: "CHEROKEE SMALL LETTER E", aliases: &[] },
        Codepoint { codepoint: 0xAB72, name: "CHEROKEE SMALL LETTER I", aliases: &[] },
        Codepoint { codepoint: 0xAB73, name: "CHEROKEE SMALL LETTER O", aliases: &[] },
        Codepoint { codepoint: 0xAB74, name: "CHEROKEE SMALL LETTER U", aliases: &[] },
        Codepoint { codepoint: 0xAB75, name: "CHEROKEE SMALL LETTER V", aliases: &[] },
        Codepoint { codepoint: 0xAB76, name: "CHEROKEE SMALL LETTER GA", aliases: &[] },
        Codepoint { codepoint: 0xAB77, name: "CHEROKEE SMALL LETTER KA", aliases: &[] },
        Codepoint { codepoint: 0xAB78, name: "CHEROKEE SMALL LETTER GE", aliases: &[] },
        Codepoint { codepoint: 0xAB79, name: "CHEROKEE SMALL LETTER GI", aliases: &[] },
        Codepoint { codepoint: 0xAB7A, name: "CHEROKEE SMALL LETTER GO", aliases: &[] },
        Codepoint { codepoint: 0xAB7B, name: "CHEROKEE SMALL LETTER GU", aliases: &[] },
        Codepoint { codepoint: 0xAB7C, name: "CHEROKEE SMALL LETTER GV", aliases: &[] },
        Codepoint { codepoint: 0xAB7D, name: "CHEROKEE SMALL LETTER HA", aliases: &[] },
        Codepoint { codepoint: 0xAB7E, name: "CHEROKEE SMALL LETTER HE", aliases: &[] },
        Codepoint { codepoint: 0xAB7F, name: "CHEROKEE SMALL LETTER HI", aliases: &[] },
        Codepoint { codepoint: 0xAB80, name: "CHEROKEE SMALL LETTER HO", aliases: &[] },
        Codepoint { codepoint: 0xAB81, name: "CHEROKEE SMALL LETTER HU", aliases: &[] },
        Codepoint { codepoint: 0xAB82, name: "CHEROKEE SMALL LETTER HV", aliases: &[] },
        Codepoint { codepoint: 0xAB83, name: "CHEROKEE SMALL LETTER LA", aliases: &[] },
        Codepoint { codepoint: 0xAB84, name: "CHEROKEE SMALL LETTER LE", aliases: &[] },
        Codepoint { codepoint: 0xAB85, name: "CHEROKEE SMALL LETTER LI", aliases: &[] },
        Codepoint { codepoint: 0xAB86, name: "CHEROKEE SMALL LETTER LO", aliases: &[] },
        Codepoint { codepoint: 0xAB87, name: "CHEROKEE SMALL LETTER LU", aliases: &[] },
        Codepoint { codepoint: 0xAB88, name: "CHEROKEE SMALL LETTER LV", aliases: &[] },
        Codepoint { codepoint: 0xAB89, name: "CHEROKEE SMALL LETTER MA", aliases: &[] },
        Codepoint { codepoint: 0xAB8A, name: "CHEROKEE SMALL LETTER ME", aliases: &[] },
        Codepoint { codepoint: 0xAB8B, name: "CHEROKEE SMALL LETTER MI", aliases: &[] },
        Codepoint { codepoint: 0xAB8C, name: "CHEROKEE SMALL LETTER MO", aliases: &[] },
        Codepoint { codepoint: 0xAB8D, name: "CHEROKEE SMALL LETTER MU", aliases: &[] },
        Codepoint { codepoint: 0xAB8E, name: "CHEROKEE SMALL LETTER NA", aliases: &[] },
        Codepoint { codepoint: 0xAB8F, name: "CHEROKEE SMALL LETTER HNA", aliases: &[] },
        Codepoint { codepoint: 0xAB90, name: "CHEROKEE SMALL LETTER NAH", aliases: &[] },
        Codepoint { codepoint: 0xAB91, name: "CHEROKEE SMALL LETTER NE", aliases: &[] },
        Codepoint { codepoint: 0xAB92, name: "CHEROKEE SMALL LETTER NI", aliases: &[] },
        Codepoint { codepoint: 0xAB93, name: "CHEROKEE SMALL LETTER NO", aliases: &[] },
        Codepoint { codepoint: 0xAB94, name: "CHEROKEE SMALL LETTER NU", aliases: &[] },
        Codepoint { codepoint: 0xAB95, name: "CHEROKEE SMALL LETTER NV", aliases: &[] },
        Codepoint { codepoint: 0xAB96, name: "CHEROKEE SMALL LETTER QUA", aliases: &[] },
        Codepoint { codepoint: 0xAB97, name: "CHEROKEE SMALL LETTER QUE", aliases: &[] },
    ];
    assert(v@ =~= codepoint_table_376());
    v
}

pub open spec fn codepoint_table_377() -> Seq<Codepoint> {
    seq![
        Codepoint { codepoint: 0xAB98, name: "CHEROKEE SMALL LETTER QUI", aliases: &[] },
        Codepoint { codepoint: 0xAB99, name: "CHEROKEE SMALL LETTER QUO", aliases: &[] },
        Codepoint { codepoint: 0xAB9A, name: "CHEROKEE SMALL LETTER QUU", aliases: &[] },
        Codepoint { codepoint: 0xAB9B, name: "CHEROKEE SMALL LETTER QUV", aliases: &[] },
        Codepoint { codepoint: 0xAB9C, name: "CHEROKEE SMALL LETTER SA", aliases: &[] },
        Codepoint { codepoint: 0xAB9D, name: "CHEROKEE SMALL LETTER S", aliases: &[] },
        Codepoint { codepoint: 0xAB9E, name: "CHEROKEE SMALL LETTER SE", aliases: &[] },
        Codepoint { codepoint: 0xAB9F, name: "CHEROKEE SMALL LETTER SI", aliases: &[] },
        Codepoint { codepoint: 0xABA0, name: "CHEROKEE SMALL LETTER SO", aliases: &[] },
        Codepoint { codepoint: 0xABA1, name: "CHEROKEE SMALL LETTER SU", aliases: &[] },
        Codepoint { codepoint: 0xABA2, name: "CHEROKEE SMALL LETTER SV", aliases: &[] },
        Codepoint { codepoint: 0xABA3, name: "CHEROKEE SMALL LETTER DA", aliases: &[] },
        Codepoint { codepoint: 0xABA4, name: "CHEROKEE SMALL LETTER TA", aliases: &[] },
        Codepoint { codepoint: 0xABA5, name: "CHEROKEE SMALL LETTER DE", aliases: &[] },
        Codepoint { codepoint: 0xABA6, name: "CHEROKEE SMALL LETTER TE", aliases: &[] },
        Codepoint { codepoint: 0xABA7, name: "CHEROKEE SMALL LETTER DI", aliases: &[] },
        Codepoint { codepoint: 0xABA8, name: "CHEROKEE SMALL LETTER TI", aliases: &[] },
        Codepoint { codepoint: 0xABA9, name: "CHEROKEE SMALL LETTER DO", aliases: &[] },
        Codepoint { codepoint: 0xABAA, name: "CHEROKEE SMALL LETTER DU", aliases: &[] },
        Codepoint { codepoint: 0xABAB, name: "CHEROKEE SMALL LETTER DV", aliases: &[] },
        Codepoint { codepoint: 0xABAC, name: "CHEROKEE SMALL LETTER DLA", aliases: &[] },
        Codepoint { codepoint: 0xABAD, name: "CHEROKEE SMALL LETTER TLA", aliases: &[] },
        Codepoint { codepoint: 0xABAE, name: "CHEROKEE SMALL LETTER TLE", aliases: &[] },
        Codepoint { codepoint: 0xABAF, name: "CHEROKEE SMALL LETTER TLI", aliases: &[] },
        Codepoint { codepoint: 0xABB0, name: "CHEROKEE SMALL LETTER TLO", aliases: &[] },
        Codepoint { codepoint: 0xABB1, name: "CHEROKEE SMALL LETTER TLU", aliases: &[] },
        Codepoint { codepoint: 0xABB2, name: "CHEROKEE SMALL LETTER TLV", aliases: &[] },
        Codepoint { codepoint: 0xABB3, name: "CHEROKEE SMALL LETTER TSA", aliases: &[] },
        Codepoint { codepoint: 0xABB4, name: "CHEROKEE SMALL LETTER TSE", aliases: &[] },
        Codepoint { codepoint: 0xABB5, name: "CHEROKEE SMALL LETTER TSI", aliases: &[] },
        Codepoint { codepoint: 0xABB6, name: "CHEROKEE SMALL LETTER TSO", aliases: &[] },
        Codepoint { codepoint: 0xABB7, name: "CHEROKEE SMALL LETTER TSU", aliases: &[] },
        Codepoint { codepoint: 0xABB8, name: "CHEROKEE SMALL LETTER TSV", aliases: &[] },
        Codepoint { codepoint: 0xABB9, name: "CHEROKEE SMALL LETTER WA", aliases: &[] },
        Codepoint { codepoint: 0xABBA, name: "CHEROKEE SMALL LETTER WE", aliases: &[] },
        Codepoint { codepoint: 0xABBB, name: "CHEROKEE SMALL LETTER WI", aliases: &[] },
        Codepoint { codepoint: 0xABBC, name: "CHEROKEE SMALL LETTER WO", aliases: &[] },
        Codepoint { codepoint: 0xABBD, name: "CHEROKEE SMALL LETTER WU", aliases: &[] },
        Codepoint { codepoint: 0xABBE, name: "CHEROKEE SMALL LETTER WV", aliases: &[] },
        Codepoint { codepoint: 0xABBF, name: "CHEROKEE SMALL LETTER YA", aliases: &[] },
    ]
}

fn all_codepoints_377() -> (v: Vec<Codepoint>)
    ensures
        v@ == codepoint_table_377(),
{
    let v = vec![
        Codepoint { codepoint: 0xAB98, name: "CHEROKEE SMALL LETTER QUI", aliases: &[] },
        Codepoint { codepoint: 0xAB99, name: "CHEROKEE SMALL LETTER QUO", aliases: &[] },
        Codepoint { codepoint: 0xAB9A, name: "CHEROKEE SMALL LETTER QUU", aliases: &[] },
        Codepoint { codepoint: 0xAB9B, name: "CHEROKEE SMALL LETTER QUV", aliases: &[] },
        Codepoint { codepoint: 0xAB9C, name: "CHEROKEE SMALL LETTER SA", aliases: &[] },
        Codepoint { codepoint: 0xAB9D, name: "CHEROKEE SMALL LETTER S", aliases: &[] },
        Codepoint { codepoint: 0xAB9E, name: "CHEROKEE SMALL LETTER SE", aliases: &[] },
        Codepoint { codepoint: 0xAB9F, name: "CHEROKEE SMALL LETTER SI", aliases: &[] },
        Codepoint { codepoint: 0xABA0, name: "CHEROKEE SMALL LETTER SO", aliases: &[] },
        Codepoint { codepoint: 0xABA1, name: "CHEROKEE SMALL LETTER SU", aliases: &[] },
        Codepoint { codepoint: 0xABA2, name: "CHEROKEE SMALL LETTER SV", aliases: &[] },
        Codepoint { codepoint: 0xABA3, name: "CHEROKEE SMALL LETTER DA", aliases: &[] },
        Codepoint { codepoint: 0xABA4, name: "CHEROKEE SMALL LETTER TA", aliases: &[] },
        Codepoint { codepoint: 0xABA5, name: "CHEROKEE SMALL LETTER DE", aliases: &[] },
        Codepoint { codepoint: 0xABA6, name: "CHEROKEE SMALL LETTER TE", aliases: &[] },
        Codepoint { codepoint: 0xABA7, name: "CHEROKEE SMALL LETTER DI", aliases: &[] },
        Codepoint { codepoint: 0xABA8, name: "CHEROKEE SMALL LETTER TI", aliases: &[] },
        Codepoint { codepoint: 0xABA9, name: "CHEROKEE SMALL LETTER DO", aliases: &[] },
        Codepoint { codepoint: 0xABAA, name: "CHEROKEE SMALL LETTER DU", aliases: &[] },
        Codepoint { codepoint: 0xABAB, name: "CHEROKEE SMALL LETTER DV", aliases: &[] },
        Codepoint { codepoint: 0xABAC, name: "CHEROKEE SMALL LETTER DLA", aliases: &[] },
        Codepoint { codepoint: 0xABAD, name: "CHEROKEE SMALL LETTER TLA", aliases: &[] },
        Codepoint { codepoint: 0xABAE, name: "CHEROKEE SMALL LETTER TLE", aliases: &[] },
        Codepoint { codepoint: 0xABAF, name: "CHEROKEE SMALL LETTER TLI", aliases: &[] },
        Codepoint { codepoint: 0xABB0, name: "CHEROKEE SMALL LETTER TLO", aliases: &[] },
        Codepoint { codepoint: 0xABB1, name: "CHEROKEE SMALL LETTER TLU", aliases: &[] },
        Codepoint { codepoint: 0xABB2, name: "CHEROKEE SMALL LETTER TLV", aliases: &[] },
        Codepoint { codepoint: 0xABB3, name: "CHEROKEE SMALL LETTER TSA", aliases: &[] },
        Codepoint { codepoint: 0xABB4, name: "CHEROKEE SMALL LETTER TSE", aliases: &[] },
        Codepoint { codepoint: 0xABB5, name: "CHEROKEE SMALL LETTER TSI", aliases: &[] },
        Codepoint { codepoint: 0xABB6, name: "CHEROKEE SMALL LETTER TSO", aliases: &[] },
        Codepoint { codepoint: 0xABB7, name: "CHEROKEE SMALL LETTER TSU", aliases: &[] },
        Codepoint { codepoint: 0xABB8, name: "CHEROKEE SMALL LETTER TSV", aliases: &[] },
        Codepoint { codepoint: 0xABB9, name: "CHEROKEE SMALL LETTER WA", aliases: &[] },
        Codepoint { codepoint: 0xABBA, name: "CHEROKEE SMALL LETTER WE", aliases: &[] },
        Codepoint { codepoint: 0xABBB, name: "CHEROKEE SMALL LETTER WI", aliases: &[] },
        Codepoint { codepoint: 0xABBC, name: "CHEROKEE SMALL LETTER WO", aliases: &[] },
        Codepoint { codepoint: 0xABBD, name: "CHEROKEE SMALL LETTER WU", aliases: &[] },
        Codepoint { codepoint: 0xABBE, name: "CHEROKEE SMALL LETTER WV", aliases: &[] },
        Codepoint { codepoint: 0xABBF, name: "CHEROKEE SMALL LETTER YA", aliases: &[] },
    ];
    assert(v@ =~= codepoint_table_377());
    v
}

pub open spec fn codepoint_table_378() -> Seq<Codepoint> {
    seq![
        Codepoint { codepoint: 0xABC0, name: "MEETEI MAYEK LETTER KOK", aliases: &[] },
        Codepoint { codepoint: 0xABC1, name: "MEETEI MAYEK LETTER SAM", aliases: &[] },
        Codepoint { codepoint: 0xABC2, name: "MEETEI MAYEK LETTER LAI", aliases: &[] },
        Codepoint { codepoint: 0xABC3, name: "MEETEI MAYEK LETTER MIT", aliases: &[] },
        Codepoint { codepoint: 0xABC4, name: "MEETEI MAYEK LETTER PA", aliases: &[] },
        Codepoint { codepoint: 0xABC5, name: "MEETEI MAYEK LETTER NA", aliases: &[] },
        Codepoint { codepoint: 0xABC6, name: "MEETEI MAYEK LETTER CHIL", aliases: &[] },
        Codepoint { codepoint: 0xABC7, name: "MEETEI MAYEK LETTER TIL", aliases: &[] },
        Codepoint { codepoint: 0xABC8, name: "MEETEI MAYEK LETTER KHOU", aliases: &[] },
        Codepoint { codepoint: 0xABC9, name: "MEETEI MAYEK LETTER NGOU", aliases: &[] },
        Codepoint { codepoint: 0xABCA, name: "MEETEI MAYEK LETTER THOU", aliases: &[] },
        Codepoint { codepoint: 0xABCB, name: "MEETEI MAYEK LETTER WAI", aliases: &[] },
        Codepoint { codepoint: 0xABCC, name: "MEETEI MAYEK LETTER YANG", aliases: &[] },
        Codepoint { codepoint: 0xABCD, name: "MEETEI MAYEK LETTER HUK", aliases: &[] },
        Codepoint { codepoint: 0xABCE, name: "MEETEI MAYEK LETTER UN", aliases: &[] },
        Codepoint { codepoint: 0xABCF, name: "MEETEI MAYEK LETTER I", aliases: &[] },
        Codepoint { codepoint: 0xABD0, name: "MEETEI MAYEK LETTER PHAM", aliases: &[] },
        Codepoint { codepoint: 0xABD1, name: "MEETEI MAYEK LETTER ATIYA", aliases: &[] },
        Codepoint { codepoint: 0xABD2, name: "MEETEI MAYEK LETTER GOK", aliases: &[] },
        Codepoint { codepoint: 0xABD3, name: "MEETEI MAYEK LETTER JHAM", aliases: &[] },
        Codepoint { codepoint: 0xABD4, name: "MEETEI MAYEK LETTER RAI", aliases: &[] },
        Codepoint { codepoint: 0xABD5, name: "MEETEI MAYEK LETTER BA", aliases: &[] },
        Codepoint { codepoint: 0xABD6, name: "MEETEI MAYEK LETTER JIL", aliases: &[] },
        Codepoint { codepoint: 0xABD7, name: "MEETEI MAYEK LETTER DIL", aliases: &[] },
        Codepoint { codepoint: 0xABD8, name: "MEETEI MAYEK LETTER GHOU", aliases: &[] },
        Codepoint { codepoint: 0xABD9, name: "MEETEI MAYEK LETTER DHOU", aliases: &[] },
        Codepoint { codepoint: 0xABDA, name: "MEETEI MAYEK LETTER BHAM", aliases: &[] },
        Codepoint { codepoint: 0xABDB, name: "MEETEI MAYEK LETTER KOK LONSUM", aliases: &[] },
        Codepoint { codepoint: 0xABDC, name: "MEETEI MAYEK LETTER LAI LONSUM", aliases: &[] },
        Codepoint { codepoint: 0xABDD, name: "MEETEI MAYEK LETTER MIT LONSUM", aliases: &[] },
        Codepoint { codepoint: 0xABDE, name: "MEETEI MAYEK LETTER PA LONSUM", aliases: &[] },
        Codepoint { codepoint: 0xABDF, name: "MEETEI MAYEK LETTER NA LONSUM", aliases: &[] },
        Codepoint { codepoint: 0xABE0, name: "MEETEI MAYEK LETTER TIL LONSUM", aliases: &[] },
        Codepoint { codepoint: 0xABE1, name: "MEETEI MAYEK LETTER NGOU LONSUM", aliases: &[] },
        Codepoint { codepoint: 0xABE2, name: "MEETEI MAYEK LETTER I LONSUM", aliases: &[] },
        Codepoint { codepoint: 0xABE3, name: "MEETEI MAYEK VOWEL SIGN ONAP", aliases: &[] },
        Codepoint { codepoint: 0xABE4, name: "MEETEI MAYEK VOWEL SIGN INAP", aliases: &[] },
        Codepoint { codepoint: 0xABE5, name: "MEETEI MAYEK VOWEL SIGN ANAP", aliases: &[] },
        Codepoint { codepoint: 0xABE6, name: "MEETEI MAYEK VOWEL SIGN YENAP", aliases: &[] },
        Codepoint { codepoint: 0xABE7, name: "MEETEI MAYEK VOWEL SIGN SOUNAP", aliases: &[] },
    ]
}

fn all_codepoints_378() -> (v: Vec<Codepoint>)
    ensures
        v@ == codepoint_table_378(),
{
    let v = vec![
        Codepoint { codepoint: 0xABC0, name: "MEETEI MAYEK LETTER KOK", aliases: &[] },
        Codepoint { codepoint: 0xABC1, name: "MEETEI MAYEK LETTER SAM", aliases: &[] },
        Codepoint { codepoint: 0xABC2, name: "MEETEI MAYEK LETTER LAI", aliases: &[] },
        Codepoint { codepoint: 0xABC3, name: "MEETEI MAYEK LETTER MIT", aliases: &[] },
        Codepoint { codepoint: 0xABC4, name: "MEETEI MAYEK LETTER PA", aliases: &[] },
        Codepoint { codepoint: 0xABC5, name: "MEETEI MAYEK LETTER NA", aliases: &[] },
        Codepoint { codepoint: 0xABC6, name: "MEETEI MAYEK LETTER CHIL", aliases: &[] },
        Codepoint { codepoint: 0xABC7, name: "MEETEI MAYEK LETTER TIL", aliases: &[] },
        Codepoint { codepoint: 0xABC8, name: "MEETEI MAYEK LETTER KHOU", aliases: &[] },
        Codepoint { codepoint: 0xABC9, name: "MEETEI MAYEK LETTER NGOU", aliases: &[] },
        Codepoint { codepoint: 0xABCA, name: "MEETEI MAYEK LETTER THOU", aliases: &[] },
        Codepoint { codepoint: 0xABCB, name: "MEETEI MAYEK LETTER WAI", aliases: &[] },
        Codepoint { codepoint: 0xABCC, name: "MEETEI MAYEK LETTER YANG", aliases: &[] },
        Codepoint { codepoint: 0xABCD, name: "MEETEI MAYEK LETTER HUK", aliases: &[] },
        Codepoint { codepoint: 0xABCE, name: "MEETEI MAYEK LETTER UN", aliases: &[] },
        Codepoint { codepoint: 0xABCF, name: "MEETEI MAYEK LETTER I", aliases: &[] },
        Codepoint { codepoint: 0xABD0, name: "MEETEI MAYEK LETTER PHAM", aliases: &[] },
        Codepoint { codepoint: 0xABD1, name: "MEETEI MAYEK LETTER ATIYA", aliases: &[] },
        Codepoint { codepoint: 0xABD2, name: "MEETEI MAYEK LETTER GOK", aliases: &[] },
        Codepoint { codepoint: 0xABD3, name: "MEETEI MAYEK LETTER JHAM", aliases: &[] },
        Codepoint { codepoint: 0xABD4, name: "MEETEI MAYEK LETTER RAI", aliases: &[] },
        Codepoint { codepoint: 0xABD5, name: "MEETEI MAYEK LETTER BA", aliases: &[] },
        Codepoint { codepoint: 0xABD6, name: "MEETEI MAYEK LETTER JIL", aliases: &[] },
        Codepoint { codepoint: 0xABD7, name: "MEETEI MAYEK LETTER DIL", aliases: &[] },
        Codepoint { codepoint: 0xABD8, name: "MEETEI MAYEK LETTER GHOU", aliases: &[] },
        Codepoint { codepoint: 0xABD9, name: "MEETEI MAYEK LETTER DHOU", aliases: &[] },
        Codepoint { codepoint: 0xABDA, name: "MEETEI MAYEK LETTER BHAM", aliases: &[] },
        Codepoint { codepoint: 0xABDB, name: "MEETEI MAYEK LETTER KOK LONSUM", aliases: &[] },
        Codepoint { codepoint: 0xABDC, name: "MEETEI MAYEK LETTER LAI LONSUM", aliases: &[] },
        Codepoint { codepoint: 0xABDD, name: "MEETEI MAYEK LETTER MIT LONSUM", aliases: &[] },
        Codepoint { codepoint: 0xABDE, name: "MEETEI MAYEK LETTER PA LONSUM", aliases: &[] },
        Codepoint { codepoint: 0xABDF, name: "MEETEI MAYEK LETTER NA LONSUM", aliases: &[] },
        Codepoint { codepoint: 0xABE0, name: "MEETEI MAYEK LETTER TIL LONSUM", aliases: &[] },
        Codepoint { codepoint: 0xABE1, name: "MEETEI MAYEK LETTER NGOU LONSUM", aliases: &[] },
        Codepoint { codepoint: 0xABE2, name: "MEETEI MAYEK LETTER I LONSUM", aliases: &[] },
        Codepoint { codepoint: 0xABE3, name: "MEETEI MAYEK VOWEL SIGN ONAP", aliases: &[] },
        Codepoint { codepoint: 0xABE4, name: "MEETEI MAYEK VOWEL SIGN INAP", aliases: &[] },
        Codepoint { codepoint: 0xABE5, name: "MEETEI MAYEK VOWEL SIGN ANAP", aliases: &[] },
        Codepoint { codepoint: 0xABE6, name: "MEETEI MAYEK VOWEL SIGN YENAP", aliases: &[] },
        Codepoint { codepoint: 0xABE7, name: "MEETEI MAYEK VOWEL SIGN SOUNAP", aliases: &[] },
    ];
    assert(v@ =~= codepoint_table_378());
    v
}

pub open spec fn codepoint_table_379() -> Seq<Codepoint> {
    seq![
        Codepoint { codepoint: 0xABE8, name: "MEETEI MAYEK VOWEL SIGN UNAP", aliases: &[] },
        Codepoint { codepoint: 0xABE9, name: "MEETEI MAYEK VOWEL SIGN CHEINAP", aliases: &[] },
        Codepoint { codepoint: 0xABEA, name: "MEETEI MAYEK VOWEL SIGN NUNG", aliases: &[] },
        Codepoint { codepoint: 0xABEB, name: "MEETEI MAYEK CHEIKHEI", aliases: &[] },
        Codepoint { codepoint: 0xABEC, name: "MEETEI MAYEK LUM IYEK", aliases: &[] },
        Codepoint { codepoint: 0xABED, name: "MEETEI MAYEK APUN IYEK", aliases: &[] },
        Codepoint { codepoint: 0xABF0, name: "MEETEI MAYEK DIGIT ZERO", aliases: &[] },
        Codepoint { codepoint: 0xABF1, name: "MEETEI MAYEK DIGIT ONE", aliases: &[] },
        Codepoint { codepoint: 0xABF2, name: "MEETEI MAYEK DIGIT TWO", aliases: &[] },
        Codepoint { codepoint: 0xABF3, name: "MEETEI MAYEK DIGIT THREE", aliases: &[] },
        Codepoint { codepoint: 0xABF4, name: "MEETEI MAYEK DIGIT FOUR", aliases: &[] },
        Codepoint { codepoint: 0xABF5, name: "MEETEI MAYEK DIGIT FIVE", aliases: &[] },
        Codepoint { codepoint: 0xABF6, name: "MEETEI MAYEK DIGIT SIX", aliases: &[] },
        Codepoint { codepoint: 0xABF7, name: "MEETEI MAYEK DIGIT SEVEN", aliases: &[] },
        Codepoint { codepoint: 0xABF8, name: "MEETEI MAYEK DIGIT EIGHT", aliases: &[] },
        Codepoint { codepoint: 0xABF9, name: "MEETEI MAYEK DIGIT NINE", aliases: &[] },
        Codepoint { codepoint: 0xAC00, name: "<Hangul Syllable, First>", aliases: &[] },
        Codepoint { codepoint: 0xD7A3, name: "<Hangul Syllable, Last>", aliases: &[] },
        Codepoint { codepoint: 0xD7B0, name: "HANGUL JUNGSEONG O-YEO", aliases: &[] },
        Codepoint { codepoint: 0xD7B1, name: "HANGUL JUNGSEONG O-O-I", aliases: &[] },
        Codepoint { codepoint: 0xD7B2, name: "HANGUL JUNGSEONG YO-A", aliases: &[] },
        Codepoint { codepoint: 0xD7B3, name: "HANGUL JUNGSEONG YO-AE", aliases: &[] },
        Codepoint { codepoint: 0xD7B4, name: "HANGUL JUNGSEONG YO-EO", aliases: &[] },
        Codepoint { codepoint: 0xD7B5, name: "HANGUL JUNGSEONG U-YEO", aliases: &[] },
        Codepoint { codepoint: 0xD7B6, name: "HANGUL JUNGSEONG U-I-I", aliases: &[] },
        Codepoint { codepoint: 0xD7B7, name: "HANGUL JUNGSEONG YU-AE", aliases: &[] },
        Codepoint { codepoint: 0xD7B8, name: "HANGUL JUNGSEONG YU-O", aliases: &[] },
        Codepoint { codepoint: 0xD7B9, name: "HANGUL JUNGSEONG EU-A", aliases: &[] },
        Codepoint { codepoint: 0xD7BA, name: "HANGUL JUNGSEONG EU-EO", aliases: &[] },
        Codepoint { codepoint: 0xD7BB, name: "HANGUL JUNGSEONG EU-E", aliases: &[] },
        Codepoint { codepoint: 0xD7BC, name: "HANGUL JUNGSEONG EU-O", aliases: &[] },
        Codepoint { codepoint: 0xD7BD, name: "HANGUL JUNGSEONG I-YA-O", aliases: &[] },
        Codepoint { codepoint: 0xD7BE, name: "HANGUL JUNGSEONG I-YAE", aliases: &[] },
        Codepoint { codepoint: 0xD7BF, name: "HANGUL JUNGSEONG I-YEO", aliases: &[] },
        Codepoint { codepoint: 0xD7C0, name: "HANGUL JUNGSEONG I-YE", aliases: &[] },
        Codepoint { codepoint: 0xD7C1, name: "HANGUL JUNGSEONG I-O-I", aliases: &[] },
        Codepoint { codepoint: 0xD7C2, name: "HANGUL JUNGSEONG I-YO", aliases: &[] },
        Codepoint { codepoint: 0xD7C3, name: "HANGUL JUNGSEONG I-YU", aliases: &[] },
        Codepoint { codepoint: 0xD7C4, name: "HANGUL JUNGSEONG I-I", aliases: &[] },
        Codepoint { codepoint: 0xD7C5, name: "HANGUL JUNGSEONG ARAEA-A", aliases: &[] },
    ]
}

fn all_codepoints_379() -> (v: Vec<Codepoint>)
    ensures
        v@ == codepoint_table_379(),
{
    let v = vec![
        Codepoint { codepoint: 0xABE8, name: "MEETEI MAYEK VOWEL SIGN UNAP", aliases: &[] },
        Codepoint { codepoint: 0xABE9, name: "MEETEI MAYEK VOWEL SIGN CHEINAP", aliases: &[] },
        Codepoint { codepoint: 0xABEA, name: "MEETEI MAYEK VOWEL SIGN NUNG", aliases: &[] },
        Codepoint { codepoint: 0xABEB, name: "MEETEI MAYEK CHEIKHEI", aliases: &[] },
        Codepoint { codepoint: 0xABEC, name: "MEETEI MAYEK LUM IYEK", aliases: &[] },
        Codepoint { codepoint: 0xABED, name: "MEETEI MAYEK APUN IYEK", aliases: &[] },
        Codepoint { codepoint: 0xABF0, name: "MEETEI MAYEK DIGIT ZERO", aliases: &[] },
        Codepoint { codepoint: 0xABF1, name: "MEETEI MAYEK DIGIT ONE", aliases: &[] },
        Codepoint { codepoint: 0xABF2, name: "MEETEI MAYEK DIGIT TWO", aliases: &[] },
        Codepoint { codepoint: 0xABF3, name: "MEETEI MAYEK DIGIT THREE", aliases: &[] },
        Codepoint { codepoint: 0xABF4, name: "MEETEI MAYEK DIGIT FOUR", aliases: &[] },
        Codepoint { codepoint: 0xABF5, name: "MEETEI MAYEK DIGIT FIVE", aliases: &[] },
        Codepoint { codepoint: 0xABF6, name: "MEETEI MAYEK DIGIT SIX", aliases: &[] },
        Codepoint { codepoint: 0xABF7, name: "MEETEI MAYEK DIGIT SEVEN", aliases: &[] },
        Codepoint { codepoint: 0xABF8, name: "MEETEI MAYEK DIGIT EIGHT", aliases: &[] },
        Codepoint { codepoint: 0xABF9, name: "MEETEI MAYEK DIGIT NINE", aliases: &[] },
        Codepoint { codepoint: 0xAC00, name: "<Hangul Syllable, First>", aliases: &[] },
        Codepoint { codepoint: 0xD7A3, name: "<Hangul Syllable, Last>", aliases: &[] },
        Codepoint { codepoint: 0xD7B0, name: "HANGUL JUNGSEONG O-YEO", aliases: &[] },
        Codepoint { codepoint: 0xD7B1, name: "HANGUL JUNGSEONG O-O-I", aliases: &[] },
        Codepoint { codepoint: 0xD7B2, name: "HANGUL JUNGSEONG YO-A", aliases: &[] },
        Codepoint { codepoint: 0xD7B3, name: "HANGUL JUNGSEONG YO-AE", aliases: &[] },
        Codepoint { codepoint: 0xD7B4, name: "HANGUL JUNGSEONG YO-EO", aliases: &[] },
        Codepoint { codepoint: 0xD7B5, name: "HANGUL JUNGSEONG U-YEO", aliases: &[] },
        Codepoint { codepoint: 0xD7B6, name: "HANGUL JUNGSEONG U-I-I", aliases: &[] },
        Codepoint { codepoint: 0xD7B7, name: "HANGUL JUNGSEONG YU-AE", aliases: &[] },
        Codepoint { codepoint: 0xD7B8, name: "HANGUL JUNGSEONG YU-O", aliases: &[] },
        Codepoint { codepoint: 0xD7B9, name: "HANGUL JUNGSEONG EU-A", aliases: &[] },
        Codepoint { codepoint: 0xD7BA, name: "HANGUL JUNGSEONG EU-EO", aliases: &[] },
        Codepoint { codepoint: 0xD7BB, name: "HANGUL JUNGSEONG EU-E", aliases: &[] },
        Codepoint { codepoint: 0xD7BC, name: "HANGUL JUNGSEONG EU-O", aliases: &[] },
        Codepoint { codepoint: 0xD7BD, name: "HANGUL JUNGSEONG I-YA-O", aliases: &[] },
        Codepoint { codepoint: 0xD7BE, name: "HANGUL JUNGSEONG I-YAE", aliases: &[] },
        Codepoint { codepoint: 0xD7BF, name: "HANGUL JUNGSEONG I-YEO", aliases: &[] },
        Codepoint { codepoint: 0xD7C0, name: "HANGUL JUNGSEONG I-YE", aliases: &[] },
        Codepoint { codepoint: 0xD7C1, name: "HANGUL JUNGSEONG I-O-I", aliases: &[] },
        Codepoint { codepoint: 0xD7C2, name: "HANGUL JUNGSEONG I-YO", aliases: &[] },
        Codepoint { codepoint: 0xD7C3, name: "HANGUL JUNGSEONG I-YU", aliases: &[] },
        Codepoint { codepoint: 0xD7C4, name: "HANGUL JUNGSEONG I-I", aliases: &[] },
        Codepoint { codepoint: 0xD7C5, name: "HANGUL JUNGSEONG ARAEA-A", aliases: &[] },
    ];
    assert(v@ =~= codepoint_table_379());
    v
}

/// The entries from position 14400 of the table, 800 at most.
pub open spec fn codepoint_group_18() -> Seq<Codepoint> {
    codepoint_table_360() + codepoint_table_361() + codepoint_table_362() + codepoint_table_363() + codepoint_table_364() + codepoint_table_365() + codepoint_table_366() + codepoint_table_367() + codepoint_table_368() + codepoint_table_369() + codepoint_table_370() + codepoint_table_371() + codepoint_table_372() + codepoint_table_373() + codepoint_table_374() + codepoint_table_375() + codepoint_table_376() + codepoint_table_377() + codepoint_table_378() + codepoint_table_379()
}

pub fn all_codepoints_group_18() -> (v: Vec<Codepoint>)
    ensures
        v@ == codepoint_group_18(),
{
    let mut v = all_codepoints_360();
    let mut part = all_codepoints_361();
    v.append(&mut part);
    let mut part = all_codepoints_362();
    v.append(&mut part);
    let mut part = all_codepoints_363();
    v.append(&mut part);
    let mut part = all_codepoints_364();
    v.append(&mut part);
    let mut part = all_codepoints_365();
    v.append(&mut part);
    let mut part = all_codepoints_366();
    v.append(&mut part);
    let mut part = all_codepoints_367();
    v.append(&mut part);
    let mut part = all_codepoints_368();
    v.append(&mut part);
    let mut part = all_codepoints_369();
    v.append(&mut part);
    let mut part = all_codepoints_370();
    v.append(&mut part);
    let mut part = all_codepoints_371();
    v.append(&mut part);
    let mut part = all_codepoints_372();
    v.append(&mut part);
    let mut part = all_codepoints_373();
    v.append(&mut part);
    let mut part = all_codepoints_374();
    v.append(&mut part);
    let mut part = all_codepoints_375();
    v.append(&mut part);
    let mut part = all_codepoints_376();
    v.append(&mut part);
    let mut part = all_codepoints_377();
    v.append(&mut part);
    let mut part = all_codepoints_378();
    v.append(&mut part);
    let mut part = all_codepoints_379();
    v.append(&mut part);
    v
}

pub open spec fn codepoint_table_380() -> Seq<Codepoint> {
    seq![
        Codepoint { codepoint: 0xD7C6, name: "HANGUL JUNGSEONG ARAEA-E", aliases: &[] },
        Codepoint { codepoint: 0xD7CB, name: "HANGUL JONGSEONG NIEUN-RIEUL", aliases: &[] },
        Codepoint { codepoint: 0xD7CC, name: "HANGUL JONGSEONG NIEUN-CHIEUCH", aliases: &[] },
        Codepoint { codepoint: 0xD7CD, name: "HANGUL JONGSEONG SSANGTIKEUT", aliases: &[] },
        Codepoint { codepoint: 0xD7CE, name: "HANGUL JONGSEONG SSANGTIKEUT-PIEUP", aliases: &[] },
        Codepoint { codepoint: 0xD7CF, name: "HANGUL JONGSEONG TIKEUT-PIEUP", aliases: &[] },
        Codepoint { codepoint: 0xD7D0, name: "HANGUL JONGSEONG TIKEUT-SIOS", aliases: &[] },
        Codepoint { codepoint: 0xD7D1, name: "HANGUL JONGSEONG TIKEUT-SIOS-KIYEOK", aliases: &[] },
        Codepoint { codepoint: 0xD7D2, name: "HANGUL JONGSEONG TIKEUT-CIEUC", aliases: &[] },
        Codepoint { codepoint: 0xD7D3, name: "HANGUL JONGSEONG TIKEUT-CHIEUCH", aliases: &[] },
        Codepoint { codepoint: 0xD7D4, name: "HANGUL JONGSEONG TIKEUT-THIEUTH", aliases: &[] },
        Codepoint { codepoint: 0xD7D5, name: "HANGUL JONGSEONG RIEUL-SSANGKIYEOK", aliases: &[] },
        Codepoint { codepoint: 0xD7D6, name: "HANGUL JONGSEONG RIEUL-KIYEOK-HIEUH", aliases: &[] },
        Codepoint { codepoint: 0xD7D7, name: "HANGUL JONGSEONG SSANGRIEUL-KHIEUKH", aliases: &[] },
        Codepoint { codepoint: 0xD7D8, name: "HANGUL JONGSEONG RIEUL-MIEUM-HIEUH", aliases: &[] },
        Codepoint { codepoint: 0xD7D9, name: "HANGUL JONGSEONG RIEUL-PIEUP-TIKEUT", aliases: &[] },
        Codepoint { codepoint: 0xD7DA, name: "HANGUL JONGSEONG RIEUL-PIEUP-PHIEUPH", aliases: &[] },
        Codepoint { codepoint: 0xD7DB, name: "HANGUL JONGSEONG RIEUL-YESIEUNG", aliases: &[] },
        Codepoint { codepoint: 0xD7DC, name: "HANGUL JONGSEONG RIEUL-YEORINHIEUH-HIEUH", aliases: &[] },
        Codepoint { codepoint: 0xD7DD, name: "HANGUL JONGSEONG KAPYEOUNRIEUL", aliases: &[] },
        Codepoint { codepoint: 0xD7DE, name: "HANGUL JONGSEONG MIEUM-NIEUN", aliases: &[] },
        Codepoint { codepoint: 0xD7DF, name: "HANGUL JONGSEONG MIEUM-SSANGNIEUN", aliases: &[] },
        Codepoint { codepoint: 0xD7E0, name: "HANGUL JONGSEONG SSANGMIEUM", aliases: &[] },
        Codepoint { codepoint: 0xD7E1, name: "HANGUL JONGSEONG MIEUM-PIEUP-SIOS", aliases: &[] },
        Codepoint { codepoint: 0xD7E2, name: "HANGUL JONGSEONG MIEUM-CIEUC", aliases: &[] },
        Codepoint { codepoint: 0xD7E3, name: "HANGUL JONGSEONG PIEUP-TIKEUT", aliases: &[] },
        Codepoint { codepoint: 0xD7E4, name: "HANGUL JONGSEONG PIEUP-RIEUL-PHIEUPH", aliases: &[] },
        Codepoint { codepoint: 0xD7E5, name: "HANGUL JONGSEONG PIEUP-MIEUM", aliases: &[] },
        Codepoint { codepoint: 0xD7E6, name: "HANGUL JONGSEONG SSANGPIEUP", aliases: &[] },
        Codepoint { codepoint: 0xD7E7, name: "HANGUL JONGSEONG PIEUP-SIOS-TIKEUT", aliases: &[] },
        Codepoint { codepoint: 0xD7E8, name: "HANGUL JONGSEONG PIEUP-CIEUC", aliases: &[] },
        Codepoint { codepoint: 0xD7E9, name: "HANGUL JONGSEONG PIEUP-CHIEUCH", aliases: &[] },
        Codepoint { codepoint: 0xD7EA, name: "HANGUL JONGSEONG SIOS-MIEUM", aliases: &[] },
        Codepoint { codepoint: 0xD7EB, name: "HANGUL JONGSEONG SIOS-KAPYEOUNPIEUP", aliases: &[] },
        Codepoint { codepoint: 0xD7EC, name: "HANGUL JONGSEONG SSANGSIOS-KIYEOK", aliases: &[] },
        Codepoint { codepoint: 0xD7ED, name: "HANGUL JONGSEONG SSANGSIOS-TIKEUT", aliases: &[] },
        Codepoint { codepoint: 0xD7EE, name: "HANGUL JONGSEONG SIOS-PANSIOS", aliases: &[] },
        Codepoint { codepoint: 0xD7EF, name: "HANGUL JONGSEONG SIOS-CIEUC", aliases: &[] },
        Codepoint { codepoint: 0xD7F0, name: "HANGUL JONGSEONG SIOS-CHIEUCH", aliases: &[] },
        Codepoint { codepoint: 0xD7F1, name: "HANGUL JONGSEONG SIOS-THIEUTH", aliases: &[] },
    ]
}

fn all_codepoints_380() -> (v: Vec<Codepoint>)
    ensures
        v@ == codepoint_table_380(),
{
    let v = vec![
        Codepoint { codepoint: 0xD7C6, name: "HANGUL JUNGSEONG ARAEA-E", aliases: &[] },
        Codepoint { codepoint: 0xD7CB, name: "HANGUL JONGSEONG NIEUN-RIEUL", aliases: &[] },
        Codepoint { codepoint: 0xD7CC, name: "HANGUL JONGSEONG NIEUN-CHIEUCH", aliases: &[] },
        Codepoint { codepoint: 0xD7CD, name: "HANGUL JONGSEONG SSANGTIKEUT", aliases: &[] },
        Codepoint { codepoint: 0xD7CE, name: "HANGUL JONGSEONG SSANGTIKEUT-PIEUP", aliases: &[] },
        Codepoint { codepoint: 0xD7CF, name: "HANGUL JONGSEONG TIKEUT-PIEUP", aliases: &[] },
        Codepoint { codepoint: 0xD7D0, name: "HANGUL JONGSEONG TIKEUT-SIOS", aliases: &[] },
        Codepoint { codepoint: 0xD7D1, name: "HANGUL JONGSEONG TIKEUT-SIOS-KIYEOK", aliases: &[] },
        Codepoint { codepoint: 0xD7D2, name: "HANGUL JONGSEONG TIKEUT-CIEUC", aliases: &[] },
        Codepoint { codepoint: 0xD7D3, name: "HANGUL JONGSEONG TIKEUT-CHIEUCH", aliases: &[] },
        Codepoint { codepoint: 0xD7D4, name: "HANGUL JONGSEONG TIKEUT-THIEUTH", aliases: &[] },
        Codepoint { codepoint: 0xD7D5, name: "HANGUL JONGSEONG RIEUL-SSANGKIYEOK", aliases: &[] },
        Codepoint { codepoint: 0xD7D6, name: "HANGUL JONGSEONG RIEUL-KIYEOK-HIEUH", aliases: &[] },
        Codepoint { codepoint: 0xD7D7, name: "HANGUL JONGSEONG SSANGRIEUL-KHIEUKH", aliases: &[] },
        Codepoint { codepoint: 0xD7D8, name: "HANGUL JONGSEONG RIEUL-MIEUM-HIEUH", aliases: &[] },
        Codepoint { codepoint: 0xD7D9, name: "HANGUL JONGSEONG RIEUL-PIEUP-TIKEUT", aliases: &[] },
        Codepoint { codepoint: 0xD7DA, name: "HANGUL JONGSEONG RIEUL-PIEUP-PHIEUPH", aliases: &[] },
        Codepoint { codepoint: 0xD7DB, name: "HANGUL JONGSEONG RIEUL-YESIEUNG", aliases: &[] },
        Codepoint { codepoint: 0xD7DC, name: "HANGUL JONGSEONG RIEUL-YEORINHIEUH-HIEUH", aliases: &[] },
        Codepoint { codepoint: 0xD7DD, name: "HANGUL JONGSEONG KAPYEOUNRIEUL", aliases: &[] },
        Codepoint { codepoint: 0xD7DE, name: "HANGUL JONGSEONG MIEUM-NIEUN", aliases: &[] },
        Codepoint { codepoint: 0xD7DF, name: "HANGUL JONGSEONG MIEUM-SSANGNIEUN", aliases: &[] },
        Codepoint { codepoint: 0xD7E0, name: "HANGUL JONGSEONG SSANGMIEUM", aliases: &[] },
        Codepoint { codepoint: 0xD7E1, name: "HANGUL JONGSEONG MIEUM-PIEUP-SIOS", aliases: &[] },
        Codepoint { codepoint: 0xD7E2, name: "HANGUL JONGSEONG MIEUM-CIEUC", aliases: &[] },
        Codepoint { codepoint: 0xD7E3, name: "HANGUL JONGSEONG PIEUP-TIKEUT", aliases: &[] },
        Codepoint { codepoint: 0xD7E4, name: "HANGUL JONGSEONG PIEUP-RIEUL-PHIEUPH", aliases: &[] },
        Codepoint { codepoint: 0xD7E5, name: "HANGUL JONGSEONG PIEUP-MIEUM", aliases: &[] },
        Codepoint { codepoint: 0xD7E6, name: "HANGUL JONGSEONG SSANGPIEUP", aliases: &[] },
        Codepoint { codepoint: 0xD7E7, name: "HANGUL JONGSEONG PIEUP-SIOS-TIKEUT", aliases: &[] },
        Codepoint { codepoint: 0xD7E8, name: "HANGUL JONGSEONG PIEUP-CIEUC", aliases: &[] },
        Codepoint { codepoint: 0xD7E9, name: "HANGUL JONGSEONG PIEUP-CHIEUCH", aliases: &[] },
        Codepoint { codepoint: 0xD7EA, name: "HANGUL JONGSEONG SIOS-MIEUM", aliases: &[] },
        Codepoint { codepoint: 0xD7EB, name: "HANGUL JONGSEONG SIOS-KAPYEOUNPIEUP", aliases: &[] },
        Codepoint { codepoint: 0xD7EC, name: "HANGUL JONGSEONG SSANGSIOS-KIYEOK", aliases: &[] },
        Codepoint { codepoint: 0xD7ED, name: "HANGUL JONGSEONG SSANGSIOS-TIKEUT", aliases: &[] },
        Codepoint { codepoint: 0xD7EE, name: "HANGUL JONGSEONG SIOS-PANSIOS", aliases: &[] },
        Codepoint { codepoint: 0xD7EF, name: "HANGUL JONGSEONG SIOS-CIEUC", aliases: &[] },
        Codepoint { codepoint: 0xD7F0, name: "HANGUL JONGSEONG SIOS-CHIEUCH", aliases: &[] },
        Codepoint { codepoint: 0xD7F1, name: "HANGUL JONGSEONG SIOS-THIEUTH", aliases: &[] },
    ];
    assert(v@ =~= codepoint_table_380());
    v
}

pub open spec fn codepoint_table_381() -> Seq<Codepoint> {
    seq![
        Codepoint { codepoint: 0xD7F2, name: "HANGUL JONGSEONG SIOS-HIEUH", aliases: &[] },
        Codepoint { codepoint: 0xD7F3, name: "HANGUL JONGSEONG PANSIOS-PIEUP", aliases: &[] },
        Codepoint { codepoint: 0xD7F4, name: "HANGUL JONGSEONG PANSIOS-KAPYEOUNPIEUP", aliases: &[] },
        Codepoint { codepoint: 0xD7F5, name: "HANGUL JONGSEONG YESIEUNG-MIEUM", aliases: &[] },
        Codepoint { codepoint: 0xD7F6, name: "HANGUL JONGSEONG YESIEUNG-HIEUH", aliases: &[] },
        Codepoint { codepoint: 0xD7F7, name: "HANGUL JONGSEONG CIEUC-PIEUP", aliases: &[] },
        Codepoint { codepoint: 0xD7F8, name: "HANGUL JONGSEONG CIEUC-SSANGPIEUP", aliases: &[] },
        Codepoint { codepoint: 0xD7F9, name: "HANGUL JONGSEONG SSANGCIEUC", aliases: &[] },
        Codepoint { codepoint: 0xD7FA, name: "HANGUL JONGSEONG PHIEUPH-SIOS", aliases: &[] },
        Codepoint { codepoint: 0xD7FB, name: "HANGUL JONGSEONG PHIEUPH-THIEUTH", aliases: &[] },
        Codepoint { codepoint: 0xD800, name: "<Non Private Use High Surrogate, First>", aliases: &[] },
        Codepoint { codepoint: 0xDB7F, name: "<Non Private Use High Surrogate, Last>", aliases: &[] },
        Codepoint { codepoint: 0xDB80, name: "<Private Use High Surrogate, First>", aliases: &[] },
        Codepoint { codepoint: 0xDBFF, name: "<Private Use High Surrogate, Last>", aliases: &[] },
        Codepoint { codepoint: 0xDC00, name: "<Low Surrogate, First>", aliases: &[] },
        Codepoint { codepoint: 0xDFFF, name: "<Low Surrogate, Last>", aliases: &[] },
        Codepoint { codepoint: 0xE000, name: "<Private Use, First>", aliases: &[] },
        Codepoint { codepoint: 0xF8FF, name: "<Private Use, Last>", aliases: &[] },
        Codepoint { codepoint: 0xF900, name: "CJK COMPATIBILITY IDEOGRAPH-F900", aliases: &[] },
        Codepoint { codepoint: 0xF901, name: "CJK COMPATIBILITY IDEOGRAPH-F901", aliases: &[] },
        Codepoint { codepoint: 0xF902, name: "CJK COMPATIBILITY IDEOGRAPH-F902", aliases: &[] },
        Codepoint { codepoint: 0xF903, name: "CJK COMPATIBILITY IDEOGRAPH-F903", aliases: &[] },
        Codepoint { codepoint: 0xF904, name: "CJK COMPATIBILITY IDEOGRAPH-F904", aliases: &[] },
        Codepoint { codepoint: 0xF905, name: "CJK COMPATIBILITY IDEOGRAPH-F905", aliases: &[] },
        Codepoint { codepoint: 0xF906, name: "CJK COMPATIBILITY IDEOGRAPH-F906", aliases: &[] },
        Codepoint { codepoint: 0xF907, name: "CJK COMPATIBILITY IDEOGRAPH-F907", aliases: &[] },
        Codepoint { codepoint: 0xF908, name: "CJK COMPATIBILITY IDEOGRAPH-F908", aliases: &[] },
        Codepoint { codepoint: 0xF909, name: "CJK COMPATIBILITY IDEOGRAPH-F909", aliases: &[] },
        Codepoint { codepoint: 0xF90A, name: "CJK COMPATIBILITY IDEOGRAPH-F90A", aliases: &[] },
        Codepoint { codepoint: 0xF90B, name: "CJK COMPATIBILITY IDEOGRAPH-F90B", aliases: &[] },
        Codepoint { codepoint: 0xF90C, name: "CJK COMPATIBILITY IDEOGRAPH-F90C", aliases: &[] },
        Codepoint { codepoint: 0xF90D, name: "CJK COMPATIBILITY IDEOGRAPH-F90D", aliases: &[] },
        Codepoint { codepoint: 0xF90E, name: "CJK COMPATIBILITY IDEOGRAPH-F90E", aliases: &[] },
        Codepoint { codepoint: 0xF90F, name: "CJK COMPATIBILITY IDEOGRAPH-F90F", aliases: &[] },
        Codepoint { codepoint: 0xF910, name: "CJK COMPATIBILITY IDEOGRAPH-F910", aliases: &[] },
        Codepoint { codepoint: 0xF911, name: "CJK COMPATIBILITY IDEOGRAPH-F911", aliases: &[] },
        Codepoint { codepoint: 0xF912, name: "CJK COMPATIBILITY IDEOGRAPH-F912", aliases: &[] },
        Codepoint { codepoint: 0xF913, name: "CJK COMPATIBILITY IDEOGRAPH-F913", aliases: &[] },
        Codepoint { codepoint: 0xF914, name: "CJK COMPATIBILITY IDEOGRAPH-F914", aliases: &[] },
        Codepoint { codepoint: 0xF915, name: "CJK COMPATIBILITY IDEOGRAPH-F915", aliases: &[] },
    ]
}

fn all_codepoints_381() -> (v: Vec<Codepoint>)
    ensures
        v@ == codepoint_table_381(),
{
    let v = vec![
        Codepoint { codepoint: 0xD7F2, name: "HANGUL JONGSEONG SIOS-HIEUH", aliases: &[] },
        Codepoint { codepoint: 0xD7F3, name: "HANGUL JONGSEONG PANSIOS-PIEUP", aliases: &[] },
        Codepoint { codepoint: 0xD7F4, name: "HANGUL JONGSEONG PANSIOS-KAPYEOUNPIEUP", aliases: &[] },
        Codepoint { codepoint: 0xD7F5, name: "HANGUL JONGSEONG YESIEUNG-MIEUM", aliases: &[] },
        Codepoint { codepoint: 0xD7F6, name: "HANGUL JONGSEONG YESIEUNG-HIEUH", aliases: &[] },
        Codepoint { codepoint: 0xD7F7, name: "HANGUL JONGSEONG CIEUC-PIEUP", aliases: &[] },
        Codepoint { codepoint: 0xD7F8, name: "HANGUL JONGSEONG CIEUC-SSANGPIEUP", aliases: &[] },
        Codepoint { codepoint: 0xD7F9, name: "HANGUL JONGSEONG SSANGCIEUC", aliases: &[] },
        Codepoint { codepoint: 0xD7FA, name: "HANGUL JONGSEONG PHIEUPH-SIOS", aliases: &[] },
        Codepoint { codepoint: 0xD7FB, name: "HANGUL JONGSEONG PHIEUPH-THIEUTH", aliases: &[] },
        Codepoint { codepoint: 0xD800, name: "<Non Private Use High Surrogate, First>", aliases: &[] },
        Codepoint { codepoint: 0xDB7F, name: "<Non Private Use High Surrogate, Last>", aliases: &[] },
        Codepoint { codepoint: 0xDB80, name: "<Private Use High Surrogate, First>", aliases: &[] },
        Codepoint { codepoint: 0xDBFF, name: "<Private Use High Surrogate, Last>", aliases: &[] },
        Codepoint { codepoint: 0xDC00, name: "<Low Surrogate, First>", aliases: &[] },
        Codepoint { codepoint: 0xDFFF, name: "<Low Surrogate, Last>", aliases: &[] },
        Codepoint { codepoint: 0xE000, name: "<Private Use, First>", aliases: &[] },
        Codepoint { codepoint: 0xF8FF, name: "<Private Use, Last>", aliases: &[] },
        Codepoint { codepoint: 0xF900, name: "CJK COMPATIBILITY IDEOGRAPH-F900", aliases: &[] },
        Codepoint { codepoint: 0xF901, name: "CJK COMPATIBILITY IDEOGRAPH-F901", aliases: &[] },
        Codepoint { codepoint: 0xF902, name: "CJK COMPATIBILITY IDEOGRAPH-F902", aliases: &[] },
        Codepoint { codepoint: 0xF903, name: "CJK COMPATIBILITY IDEOGRAPH-F903", aliases: &[] },
        Codepoint { codepoint: 0xF904, name: "CJK COMPATIBILITY IDEOGRAPH-F904", aliases: &[] },
        Codepoint { codepoint: 0xF905, name: "CJK COMPATIBILITY IDEOGRAPH-F905", aliases: &[] },
        Codepoint { codepoint: 0xF906, name: "CJK COMPATIBILITY IDEOGRAPH-F906", aliases: &[] },
        Codepoint { codepoint: 0xF907, name: "CJK COMPATIBILITY IDEOGRAPH-F907", aliases: &[] },
        Codepoint { codepoint: 0xF908, name: "CJK COMPATIBILITY IDEOGRAPH-F908", aliases: &[] },
        Codepoint { codepoint: 0xF909, name: "CJK COMPATIBILITY IDEOGRAPH-F909", aliases: &[] },
        Codepoint { codepoint: 0xF90A, name: "CJK COMPATIBILITY IDEOGRAPH-F90A", aliases: &[] },
        Codepoint { codepoint: 0xF90B, name: "CJK COMPATIBILITY IDEOGRAPH-F90B", aliases: &[] },
        Codepoint { codepoint: 0xF90C, name: "CJK COMPATIBILITY IDEOGRAPH-F90C", aliases: &[] },
        Codepoint { codepoint: 0xF90D, name: "CJK COMPATIBILITY IDEOGRAPH-F90D", aliases: &[] },
        Codepoint { codepoint: 0xF90E, name: "CJK COMPATIBILITY IDEOGRAPH-F90E", aliases: &[] },
        Codepoint { codepoint: 0xF90F, name: "CJK COMPATIBILITY IDEOGRAPH-F90F", aliases: &[] },
        Codepoint { codepoint: 0xF910, name: "CJK COMPATIBILITY IDEOGRAPH-F910", aliases: &[] },
        Codepoint { codepoint: 0xF911, name: "CJK COMPATIBILITY IDEOGRAPH-F911", aliases: &[] },
        Codepoint { codepoint: 0xF912, name: "CJK COMPATIBILITY IDEOGRAPH-F912", aliases: &[] },
        Codepoint { codepoint: 0xF913, name: "CJK COMPATIBILITY IDEOGRAPH-F913", aliases: &[] },
        Codepoint { codepoint: 0xF914, name: "CJK COMPATIBILITY IDEOGRAPH-F914", aliases: &[] },
        Codepoint { codepoint: 0xF915, name: "CJK COMPATIBILITY IDEOGRAPH-F915", aliases: &[] },
    ];
    assert(v@ =~= codepoint_table_381());
    v
}

pub open spec fn codepoint_table_382() -> Seq<Codepoint> {
    seq![
        Codepoint { codepoint: 0xF916, name: "CJK COMPATIBILITY IDEOGRAPH-F916", aliases: &[] },
        Codepoint { codepoint: 0xF917, name: "CJK COMPATIBILITY IDEOGRAPH-F917", aliases: &[] },
        Codepoint { codepoint: 0xF918, name: "CJK COMPATIBILITY IDEOGRAPH-F918", aliases: &[] },
        Codepoint { codepoint: 0xF919, name: "CJK COMPATIBILITY IDEOGRAPH-F919", aliases: &[] },
        Codepoint { codepoint: 0xF91A, name: "CJK COMPATIBILITY IDEOGRAPH-F91A", aliases: &[] },
        Codepoint { codepoint: 0xF91B, name: "CJK COMPATIBILITY IDEOGRAPH-F91B", aliases: &[] },
        Codepoint { codepoint: 0xF91C, name: "CJK COMPATIBILITY IDEOGRAPH-F91C", aliases: &[] },
        Codepoint { codepoint: 0xF91D, name: "CJK COMPATIBILITY IDEOGRAPH-F91D", aliases: &[] },
        Codepoint { codepoint: 0xF91E, name: "CJK COMPATIBILITY IDEOGRAPH-F91E", aliases: &[] },
        Codepoint { codepoint: 0xF91F, name: "CJK COMPATIBILITY IDEOGRAPH-F91F", aliases: &[] },
        Codepoint { codepoint: 0xF920, name: "CJK COMPATIBILITY IDEOGRAPH-F920", aliases: &[] },
        Codepoint { codepoint: 0xF921, name: "CJK COMPATIBILITY IDEOGRAPH-F921", aliases: &[] },
        Codepoint { codepoint: 0xF922, name: "CJK COMPATIBILITY IDEOGRAPH-F922", aliases: &[] },
        Codepoint { codepoint: 0xF923, name: "CJK COMPATIBILITY IDEOGRAPH-F923", aliases: &[] },
        Codepoint { codepoint: 0xF924, name: "CJK COMPATIBILITY IDEOGRAPH-F924", aliases: &[] },
        Codepoint { codepoint: 0xF925, name: "CJK COMPATIBILITY IDEOGRAPH-F925", aliases: &[] },
        Codepoint { codepoint: 0xF926, name: "CJK COMPATIBILITY IDEOGRAPH-F926", aliases: &[] },
        Codepoint { codepoint: 0xF927, name: "CJK COMPATIBILITY IDEOGRAPH-F927", aliases: &[] },
        Codepoint { codepoint: 0xF928, name: "CJK COMPATIBILITY IDEOGRAPH-F928", aliases: &[] },
        Codepoint { codepoint: 0xF929, name: "CJK COMPATIBILITY IDEOGRAPH-F929", aliases: &[] },
        Codepoint { codepoint: 0xF92A, name: "CJK COMPATIBILITY IDEOGRAPH-F92A", aliases: &[] },
        Codepoint { codepoint: 0xF92B, name: "CJK COMPATIBILITY IDEOGRAPH-F92B", aliases: &[] },
        Codepoint { codepoint: 0xF92C, name: "CJK COMPATIBILITY IDEOGRAPH-F92C", aliases: &[] },
        Codepoint { codepoint: 0xF92D, name: "CJK COMPATIBILITY IDEOGRAPH-F92D", aliases: &[] },
        Codepoint { codepoint: 0xF92E, name: "CJK COMPATIBILITY IDEOGRAPH-F92E", aliases: &[] },
        Codepoint { codepoint: 0xF92F, name: "CJK COMPATIBILITY IDEOGRAPH-F92F", aliases: &[] },
        Codepoint { codepoint: 0xF930, name: "CJK COMPATIBILITY IDEOGRAPH-F930", aliases: &[] },
        Codepoint { codepoint: 0xF931, name: "CJK COMPATIBILITY IDEOGRAPH-F931", aliases: &[] },
        Codepoint { codepoint: 0xF932, name: "CJK COMPATIBILITY IDEOGRAPH-F932", aliases: &[] },
        Codepoint { codepoint: 0xF933, name: "CJK COMPATIBILITY IDEOGRAPH-F933", aliases: &[] },
        Codepoint { codepoint: 0xF934, name: "CJK COMPATIBILITY IDEOGRAPH-F934", aliases: &[] },
        Codepoint { codepoint: 0xF935, name: "CJK COMPATIBILITY IDEOGRAPH-F935", aliases: &[] },
        Codepoint { codepoint: 0xF936, name: "CJK COMPATIBILITY IDEOGRAPH-F936", aliases: &[] },
        Codepoint { codepoint: 0xF937, name: "CJK COMPATIBILITY IDEOGRAPH-F937", aliases: &[] },
        Codepoint { codepoint: 0xF938, name: "CJK COMPATIBILITY IDEOGRAPH-F938", aliases: &[] },
        Codepoint { codepoint: 0xF939, name: "CJK COMPATIBILITY IDEOGRAPH-F939", aliases: &[] },
        Codepoint { codepoint: 0xF93A, name: "CJK COMPATIBILITY IDEOGRAPH-F93A", aliases: &[] },
        Codepoint { codepoint: 0xF93B, name: "CJK COMPATIBILITY IDEOGRAPH-F93B", aliases: &[] },
        Codepoint { codepoint: 0xF93C, name: "CJK COMPATIBILITY IDEOGRAPH-F93C", aliases: &[] },
        Codepoint { codepoint: 0xF93D, name: "CJK COMPATIBILITY IDEOGRAPH-F93D", aliases: &[] },
    ]
}

fn all_codepoints_382() -> (v: Vec<Codepoint>)
    ensures
        v@ == codepoint_table_382(),
{
    let v = vec![
        Codepoint { codepoint: 0xF916, name: "CJK COMPATIBILITY IDEOGRAPH-F916", aliases: &[] },
        Codepoint { codepoint: 0xF917, name: "CJK COMPATIBILITY IDEOGRAPH-F917", aliases: &[] },
        Codepoint { codepoint: 0xF918, name: "CJK COMPATIBILITY IDEOGRAPH-F918", aliases: &[] },
        Codepoint { codepoint: 0xF919, name: "CJK COMPATIBILITY IDEOGRAPH-F919", aliases: &[] },
        Codepoint { codepoint: 0xF91A, name: "CJK COMPATIBILITY IDEOGRAPH-F91A", aliases: &[] },
        Codepoint { codepoint: 0xF91B, name: "CJK COMPATIBILITY IDEOGRAPH-F91B", aliases: &[] },
        Codepoint { codepoint: 0xF91C, name: "CJK COMPATIBILITY IDEOGRAPH-F91C", aliases: &[] },
        Codepoint { codepoint: 0xF91D, name: "CJK COMPATIBILITY IDEOGRAPH-F91D", aliases: &[] },
        Codepoint { codepoint: 0xF91E, name: "CJK COMPATIBILITY IDEOGRAPH-F91E", aliases: &[] },
        Codepoint { codepoint: 0xF91F, name: "CJK COMPATIBILITY IDEOGRAPH-F91F", aliases: &[] },
        Codepoint { codepoint: 0xF920, name: "CJK COMPATIBILITY IDEOGRAPH-F920", aliases: &[] },
        Codepoint { codepoint: 0xF921, name: "CJK COMPATIBILITY IDEOGRAPH-F921", aliases: &[] },
        Codepoint { codepoint: 0xF922, name: "CJK COMPATIBILITY IDEOGRAPH-F922", aliases: &[] },
        Codepoint { codepoint: 0xF923, name: "CJK COMPATIBILITY IDEOGRAPH-F923", aliases: &[] },
        Codepoint { codepoint: 0xF924, name: "CJK COMPATIBILITY IDEOGRAPH-F924", aliases: &[] },
        Codepoint { codepoint: 0xF925, name: "CJK COMPATIBILITY IDEOGRAPH-F925", aliases: &[] },
        Codepoint { codepoint: 0xF926, name: "CJK COMPATIBILITY IDEOGRAPH-F926", aliases: &[] },
        Codepoint { codepoint: 0xF927, name: "CJK COMPATIBILITY IDEOGRAPH-F927", aliases: &[] },
        Codepoint { codepoint: 0xF928, name: "CJK COMPATIBILITY IDEOGRAPH-F928", aliases: &[] },
        Codepoint { codepoint: 0xF929, name: "CJK COMPATIBILITY IDEOGRAPH-F929", aliases: &[] },
        Codepoint { codepoint: 0xF92A, name: "CJK COMPATIBILITY IDEOGRAPH-F92A", aliases: &[] },
        Codepoint { codepoint: 0xF92B, name: "CJK COMPATIBILITY IDEOGRAPH-F92B", aliases: &[] },
        Codepoint { codepoint: 0xF92C, name: "CJK COMPATIBILITY IDEOGRAPH-F92C", aliases: &[] },
        Codepoint { codepoint: 0xF92D, name: "CJK COMPATIBILITY IDEOGRAPH-F92D", aliases: &[] },
        Codepoint { codepoint: 0xF92E, name: "CJK COMPATIBILITY IDEOGRAPH-F92E", aliases: &[] },
        Codepoint { codepoint: 0xF92F, name: "CJK COMPATIBILITY IDEOGRAPH-F92F", aliases: &[] },
        Codepoint { codepoint: 0xF930, name: "CJK COMPATIBILITY IDEOGRAPH-F930", aliases: &[] },
        Codepoint { codepoint: 0xF931, name: "CJK COMPATIBILITY IDEOGRAPH-F931", aliases: &[] },
        Codepoint { codepoint: 0xF932, name: "CJK COMPATIBILITY IDEOGRAPH-F932", aliases: &[] },
        Codepoint { codepoint: 0xF933, name: "CJK COMPATIBILITY IDEOGRAPH-F933", aliases: &[] },
        Codepoint { codepoint: 0xF934, name: "CJK COMPATIBILITY IDEOGRAPH-F934", aliases: &[] },
        Codepoint { codepoint: 0xF935, name: "CJK COMPATIBILITY IDEOGRAPH-F935", aliases: &[] },
        Codepoint { codepoint: 0xF936, name: "CJK COMPATIBILITY IDEOGRAPH-F936", aliases: &[] },
        Codepoint { codepoint: 0xF937, name: "CJK COMPATIBILITY IDEOGRAPH-F937", aliases: &[] },
        Codepoint { codepoint: 0xF938, name: "CJK COMPATIBILITY IDEOGRAPH-F938", aliases: &[] },
        Codepoint { codepoint: 0xF939, name: "CJK COMPATIBILITY IDEOGRAPH-F939", aliases: &[] },
        Codepoint { codepoint: 0xF93A, name: "CJK COMPATIBILITY IDEOGRAPH-F93A", aliases: &[] },
        Codepoint { codepoint: 0xF93B, name: "CJK COMPATIBILITY IDEOGRAPH-F93B", aliases: &[] },
        Codepoint { codepoint: 0xF93C, name: "CJK COMPATIBILITY IDEOGRAPH-F93C", aliases: &[] },
        Codepoint { codepoint: 0xF93D, name: "CJK COMPATIBILITY IDEOGRAPH-F93D", aliases: &[] },
    ];
    assert(v@ =~= codepoint_table_382());
    v
}

pub open spec fn codepoint_table_383() -> Seq<Codepoint> {
    seq![
        Codepoint { codepoint: 0xF93E, name: "CJK COMPATIBILITY IDEOGRAPH-F93E", aliases: &[] },
        Codepoint { codepoint: 0xF93F, name: "CJK COMPATIBILITY IDEOGRAPH-F93F", aliases: &[] },
        Codepoint { codepoint: 0xF940, name: "CJK COMPATIBILITY IDEOGRAPH-F940", aliases: &[] },
        Codepoint { codepoint: 0xF941, name: "CJK COMPATIBILITY IDEOGRAPH-F941", aliases: &[] },
        Codepoint { codepoint: 0xF942, name: "CJK COMPATIBILITY IDEOGRAPH-F942", aliases: &[] },
        Codepoint { codepoint: 0xF943, name: "CJK COMPATIBILITY IDEOGRAPH-F943", aliases: &[] },
        Codepoint { codepoint: 0xF944, name: "CJK COMPATIBILITY IDEOGRAPH-F944", aliases: &[] },
        Codepoint { codepoint: 0xF945, name: "CJK COMPATIBILITY IDEOGRAPH-F945", aliases: &[] },
        Codepoint { codepoint: 0xF946, name: "CJK COMPATIBILITY IDEOGRAPH-F946", aliases: &[] },
        Codepoint { codepoint: 0xF947, name: "CJK COMPATIBILITY IDEOGRAPH-F947", aliases: &[] },
        Codepoint { codepoint: 0xF948, name: "CJK COMPATIBILITY IDEOGRAPH-F948", aliases: &[] },
        Codepoint { codepoint: 0xF949, name: "CJK COMPATIBILITY IDEOGRAPH-F949", aliases: &[] },
        Codepoint { codepoint: 0xF94A, name: "CJK COMPATIBILITY IDEOGRAPH-F94A", aliases: &[] },
        Codepoint { codepoint: 0xF94B, name: "CJK COMPATIBILITY IDEOGRAPH-F94B", aliases: &[] },
        Codepoint { codepoint: 0xF94C, name: "CJK COMPATIBILITY IDEOGRAPH-F94C", aliases: &[] },
        Codepoint { codepoint: 0xF94D, name: "CJK COMPATIBILITY IDEOGRAPH-F94D", aliases: &[] },
        Codepoint { codepoint: 0xF94E, name: "CJK COMPATIBILITY IDEOGRAPH-F94E", aliases: &[] },
        Codepoint { codepoint: 0xF94F, name: "CJK COMPATIBILITY IDEOGRAPH-F94F", aliases: &[] },
        Codepoint { codepoint: 0xF950, name: "CJK COMPATIBILITY IDEOGRAPH-F950", aliases: &[] },
        Codepoint { codepoint: 0xF951, name: "CJK COMPATIBILITY IDEOGRAPH-F951", aliases: &[] },
        Codepoint { codepoint: 0xF952, name: "CJK COMPATIBILITY IDEOGRAPH-F952", aliases: &[] },
        Codepoint { codepoint: 0xF953, name: "CJK COMPATIBILITY IDEOGRAPH-F953", aliases: &[] },
        Codepoint { codepoint: 0xF954, name: "CJK COMPATIBILITY IDEOGRAPH-F954", aliases: &[] },
        Codepoint { codepoint: 0xF955, name: "CJK COMPATIBILITY IDEOGRAPH-F955", aliases: &[] },
        Codepoint { codepoint: 0xF956, name: "CJK COMPATIBILITY IDEOGRAPH-F956", aliases: &[] },
        Codepoint { codepoint: 0xF957, name: "CJK COMPATIBILITY IDEOGRAPH-F957", aliases: &[] },
        Codepoint { codepoint: 0xF958, name: "CJK COMPATIBILITY IDEOGRAPH-F958", aliases: &[] },
        Codepoint { codepoint: 0xF959, name: "CJK COMPATIBILITY IDEOGRAPH-F959", aliases: &[] },
        Codepoint { codepoint: 0xF95A, name: "CJK COMPATIBILITY IDEOGRAPH-F95A", aliases: &[] },
        Codepoint { codepoint: 0xF95B, name: "CJK COMPATIBILITY IDEOGRAPH-F95B", aliases: &[] },
        Codepoint { codepoint: 0xF95C, name: "CJK COMPATIBILITY IDEOGRAPH-F95C", aliases: &[] },
        Codepoint { codepoint: 0xF95D, name: "CJK COMPATIBILITY IDEOGRAPH-F95D", aliases: &[] },
        Codepoint { codepoint: 0xF95E, name: "CJK COMPATIBILITY IDEOGRAPH-F95E", aliases: &[] },
        Codepoint { codepoint: 0xF95F, name: "CJK COMPATIBILITY IDEOGRAPH-F95F", aliases: &[] },
        Codepoint { codepoint: 0xF960, name: "CJK COMPATIBILITY IDEOGRAPH-F960", aliases: &[] },
        Codepoint { codepoint: 0xF961, name: "CJK COMPATIBILITY IDEOGRAPH-F961", aliases: &[] },
        Codepoint { codepoint: 0xF962, name: "CJK COMPATIBILITY IDEOGRAPH-F962", aliases: &[] },
        Codepoint { codepoint: 0xF963, name: "CJK COMPATIBILITY IDEOGRAPH-F963", aliases: &[] },
        Codepoint { codepoint: 0xF964, name: "CJK COMPATIBILITY IDEOGRAPH-F964", aliases: &[] },
        Codepoint { codepoint: 0xF965, name: "CJK COMPATIBILITY IDEOGRAPH-F965", aliases: &[] },
    ]
}

fn all_codepoints_383() -> (v: Vec<Codepoint>)
    ensures
        v@ == codepoint_table_383(),
{
    let v = vec![
        Codepoint { codepoint: 0xF93E, name: "CJK COMPATIBILITY IDEOGRAPH-F93E", aliases: &[] },
        Codepoint { codepoint: 0xF93F, name: "CJK COMPATIBILITY IDEOGRAPH-F93F", aliases: &[] },
        Codepoint { codepoint: 0xF940, name: "CJK COMPATIBILITY IDEOGRAPH-F940", aliases: &[] },
        Codepoint { codepoint: 0xF941, name: "CJK COMPATIBILITY IDEOGRAPH-F941", aliases: &[] },
        Codepoint { codepoint: 0xF942, name: "CJK COMPATIBILITY IDEOGRAPH-F942", aliases: &[] },
        Codepoint { codepoint: 0xF943, name: "CJK COMPATIBILITY IDEOGRAPH-F943", aliases: &[] },
        Codepoint { codepoint: 0xF944, name: "CJK COMPATIBILITY IDEOGRAPH-F944", aliases: &[] },
        Codepoint { codepoint: 0xF945, name: "CJK COMPATIBILITY IDEOGRAPH-F945", aliases: &[] },
        Codepoint { codepoint: 0xF946, name: "CJK COMPATIBILITY IDEOGRAPH-F946", aliases: &[] },
        Codepoint { codepoint: 0xF947, name: "CJK COMPATIBILITY IDEOGRAPH-F947", aliases: &[] },
        Codepoint { codepoint: 0xF948, name: "CJK COMPATIBILITY IDEOGRAPH-F948", aliases: &[] },
        Codepoint { codepoint: 0xF949, name: "CJK COMPATIBILITY IDEOGRAPH-F949", aliases: &[] },
        Codepoint { codepoint: 0xF94A, name: "CJK COMPATIBILITY IDEOGRAPH-F94A", aliases: &[] },
        Codepoint { codepoint: 0xF94B, name: "CJK COMPATIBILITY IDEOGRAPH-F94B", aliases: &[] },
        Codepoint { codepoint: 0xF94C, name: "CJK COMPATIBILITY IDEOGRAPH-F94C", aliases: &[] },
        Codepoint { codepoint: 0xF94D, name: "CJK COMPATIBILITY IDEOGRAPH-F94D", aliases: &[] },
        Codepoint { codepoint: 0xF94E, name: "CJK COMPATIBILITY IDEOGRAPH-F94E", aliases: &[] },
        Codepoint { codepoint: 0xF94F, name: "CJK COMPATIBILITY IDEOGRAPH-F94F", aliases: &[] },
        Codepoint { codepoint: 0xF950, name: "CJK COMPATIBILITY IDEOGRAPH-F950", aliases: &[] },
        Codepoint { codepoint: 0xF951, name: "CJK COMPATIBILITY IDEOGRAPH-F951", aliases: &[] },
        Codepoint { codepoint: 0xF952, name: "CJK COMPATIBILITY IDEOGRAPH-F952", aliases: &[] },
        Codepoint { codepoint: 0xF953, name: "CJK COMPATIBILITY IDEOGRAPH-F953", aliases: &[] },
        Codepoint { codepoint: 0xF954, name: "CJK COMPATIBILITY IDEOGRAPH-F954", aliases: &[] },
        Codepoint { codepoint: 0xF955, name: "CJK COMPATIBILITY IDEOGRAPH-F955", aliases: &[] },
        Codepoint { codepoint: 0xF956, name: "CJK COMPATIBILITY IDEOGRAPH-F956", aliases: &[] },
        Codepoint { codepoint: 0xF957, name: "CJK COMPATIBILITY IDEOGRAPH-F957", aliases: &[] },
        Codepoint { codepoint: 0xF958, name: "CJK COMPATIBILITY IDEOGRAPH-F958", aliases: &[] },
        Codepoint { codepoint: 0xF959, name: "CJK COMPATIBILITY IDEOGRAPH-F959", aliases: &[] },
        Codepoint { codepoint: 0xF95A, name: "CJK COMPATIBILITY IDEOGRAPH-F95A", aliases: &[] },
        Codepoint { codepoint: 0xF95B, name: "CJK COMPATIBILITY IDEOGRAPH-F95B", aliases: &[] },
        Codepoint { codepoint: 0xF95C, name: "CJK COMPATIBILITY IDEOGRAPH-F95C", aliases: &[] },
        Codepoint { codepoint: 0xF95D, name: "CJK COMPATIBILITY IDEOGRAPH-F95D", aliases: &[] },
        Codepoint { codepoint: 0xF95E, name: "CJK COMPATIBILITY IDEOGRAPH-F95E", aliases: &[] },
        Codepoint { codepoint: 0xF95F, name: "CJK COMPATIBILITY IDEOGRAPH-F95F", aliases: &[] },
        Codepoint { codepoint: 0xF960, name: "CJK COMPATIBILITY IDEOGRAPH-F960", aliases: &[] },
        Codepoint { codepoint: 0xF961, name: "CJK COMPATIBILITY IDEOGRAPH-F961", aliases: &[] },
        Codepoint { codepoint: 0xF962, name: "CJK COMPATIBILITY IDEOGRAPH-F962", aliases: &[] },
        Codepoint { codepoint: 0xF963, name: "CJK COMPATIBILITY IDEOGRAPH-F963", aliases: &[] },
        Codepoint { codepoint: 0xF964, name: "CJK COMPATIBILITY IDEOGRAPH-F964", aliases: &[] },
        Codepoint { codepoint: 0xF965, name: "CJK COMPATIBILITY IDEOGRAPH-F965", aliases: &[] },
    ];
    assert(v@ =~= codepoint_table_383());
    v
}

pub open spec fn codepoint_table_384() -> Seq<Codepoint> {
    seq![
        Codepoint { codepoint: 0xF966, name: "CJK COMPATIBILITY IDEOGRAPH-F966", aliases: &[] },
        Codepoint { codepoint: 0xF967, name: "CJK COMPATIBILITY IDEOGRAPH-F967", aliases: &[] },
        Codepoint { codepoint: 0xF968, name: "CJK COMPATIBILITY IDEOGRAPH-F968", aliases: &[] },
        Codepoint { codepoint: 0xF969, name: "CJK COMPATIBILITY IDEOGRAPH-F969", aliases: &[] },
        Codepoint { codepoint: 0xF96A, name: "CJK COMPATIBILITY IDEOGRAPH-F96A", aliases: &[] },
        Codepoint { codepoint: 0xF96B, name: "CJK COMPATIBILITY IDEOGRAPH-F96B", aliases: &[] },
        Codepoint { codepoint: 0xF96C, name: "CJK COMPATIBILITY IDEOGRAPH-F96C", aliases: &[] },
        Codepoint { codepoint: 0xF96D, name: "CJK COMPATIBILITY IDEOGRAPH-F96D", aliases: &[] },
        Codepoint { codepoint: 0xF96E, name: "CJK COMPATIBILITY IDEOGRAPH-F96E", aliases: &[] },
        Codepoint { codepoint: 0xF96F, name: "CJK COMPATIBILITY IDEOGRAPH-F96F", aliases: &[] },
        Codepoint { codepoint: 0xF970, name: "CJK COMPATIBILITY IDEOGRAPH-F970", aliases: &[] },
        Codepoint { codepoint: 0xF971, name: "CJK COMPATIBILITY IDEOGRAPH-F971", aliases: &[] },
        Codepoint { codepoint: 0xF972, name: "CJK COMPATIBILITY IDEOGRAPH-F972", aliases: &[] },
        Codepoint { codepoint: 0xF973, name: "CJK COMPATIBILITY IDEOGRAPH-F973", aliases: &[] },
        Codepoint { codepoint: 0xF974, name: "CJK COMPATIBILITY IDEOGRAPH-F974", aliases: &[] },
        Codepoint { codepoint: 0xF975, name: "CJK COMPATIBILITY IDEOGRAPH-F975", aliases: &[] },
        Codepoint { codepoint: 0xF976, name: "CJK COMPATIBILITY IDEOGRAPH-F976", aliases: &[] },
        Codepoint { codepoint: 0xF977, name: "CJK COMPATIBILITY IDEOGRAPH-F977", aliases: &[] },
        Codepoint { codepoint: 0xF978, name: "CJK COMPATIBILITY IDEOGRAPH-F978", aliases: &[] },
        Codepoint { codepoint: 0xF979, name: "CJK COMPATIBILITY IDEOGRAPH-F979", aliases: &[] },
        Codepoint { codepoint: 0xF97A, name: "CJK COMPATIBILITY IDEOGRAPH-F97A", aliases: &[] },
        Codepoint { codepoint: 0xF97B, name: "CJK COMPATIBILITY IDEOGRAPH-F97B", aliases: &[] },
        Codepoint { codepoint: 0xF97C, name: "CJK COMPATIBILITY IDEOGRAPH-F97C", aliases: &[] },
        Codepoint { codepoint: 0xF97D, name: "CJK COMPATIBILITY IDEOGRAPH-F97D", aliases: &[] },
        Codepoint { codepoint: 0xF97E, name: "CJK COMPATIBILITY IDEOGRAPH-F97E", aliases: &[] },
        Codepoint { codepoint: 0xF97F, name: "CJK COMPATIBILITY IDEOGRAPH-F97F", aliases: &[] },
        Codepoint { codepoint: 0xF980, name: "CJK COMPATIBILITY IDEOGRAPH-F980", aliases: &[] },
        Codepoint { codepoint: 0xF981, name: "CJK COMPATIBILITY IDEOGRAPH-F981", aliases: &[] },
        Codepoint { codepoint: 0xF982, name: "CJK COMPATIBILITY IDEOGRAPH-F982", aliases: &[] },
        Codepoint { codepoint: 0xF983, name: "CJK COMPATIBILITY IDEOGRAPH-F983", aliases: &[] },
        Codepoint { codepoint: 0xF984, name: "CJK COMPATIBILITY IDEOGRAPH-F984", aliases: &[] },
        Codepoint { codepoint: 0xF985, name: "CJK COMPATIBILITY IDEOGRAPH-F985", aliases: &[] },
        Codepoint { codepoint: 0xF986, name: "CJK COMPATIBILITY IDEOGRAPH-F986", aliases: &[] },
        Codepoint { codepoint: 0xF987, name: "CJK COMPATIBILITY IDEOGRAPH-F987", aliases: &[] },
        Codepoint { codepoint: 0xF988, name: "CJK COMPATIBILITY IDEOGRAPH-F988", aliases: &[] },
        Codepoint { codepoint: 0xF989, name: "CJK COMPATIBILITY IDEOGRAPH-F989", aliases: &[] },
        Codepoint { codepoint: 0xF98A, name: "CJK COMPATIBILITY IDEOGRAPH-F98A", aliases: &[] },
        Codepoint { codepoint: 0xF98B, name: "CJK COMPATIBILITY IDEOGRAPH-F98B", aliases: &[] },
        Codepoint { codepoint: 0xF98C, name: "CJK COMPATIBILITY IDEOGRAPH-F98C", aliases: &[] },
        Codepoint { codepoint: 0xF98D, name: "CJK COMPATIBILITY IDEOGRAPH-F98D", aliases: &[] },
    ]
}

fn all_codepoints_384() -> (v: Vec<Codepoint>)
    ensures
        v@ == codepoint_table_384(),
{
    let v = vec![
        Codepoint { codepoint: 0xF966, name: "CJK COMPATIBILITY IDEOGRAPH-F966", aliases: &[] },
        Codepoint { codepoint: 0xF967, name: "CJK COMPATIBILITY IDEOGRAPH-F967", aliases: &[] },
        Codepoint { codepoint: 0xF968, name: "CJK COMPATIBILITY IDEOGRAPH-F968", aliases: &[] },
        Codepoint { codepoint: 0xF969, name: "CJK COMPATIBILITY IDEOGRAPH-F969", aliases: &[] },
        Codepoint { codepoint: 0xF96A, name: "CJK COMPATIBILITY IDEOGRAPH-F96A", aliases: &[] },
        Codepoint { codepoint: 0xF96B, name: "CJK COMPATIBILITY IDEOGRAPH-F96B", aliases: &[] },
        Codepoint { codepoint: 0xF96C, name: "CJK COMPATIBILITY IDEOGRAPH-F96C", aliases: &[] },
        Codepoint { codepoint: 0xF96D, name: "CJK COMPATIBILITY IDEOGRAPH-F96D", aliases: &[] },
        Codepoint { codepoint: 0xF96E, name: "CJK COMPATIBILITY IDEOGRAPH-F96E", aliases: &[] },
        Codepoint { codepoint: 0xF96F, name: "CJK COMPATIBILITY IDEOGRAPH-F96F", aliases: &[] },
        Codepoint { codepoint: 0xF970, name: "CJK COMPATIBILITY IDEOGRAPH-F970", aliases: &[] },
        Codepoint { codepoint: 0xF971, name: "CJK COMPATIBILITY IDEOGRAPH-F971", aliases: &[] },
        Codepoint { codepoint: 0xF972, name: "CJK COMPATIBILITY IDEOGRAPH-F972", aliases: &[] },
        Codepoint { codepoint: 0xF973, name: "CJK COMPATIBILITY IDEOGRAPH-F973", aliases: &[] },
        Codepoint { codepoint: 0xF974, name: "CJK COMPATIBILITY IDEOGRAPH-F974", aliases: &[] },
        Codepoint { codepoint: 0xF975, name: "CJK COMPATIBILITY IDEOGRAPH-F975", aliases: &[] },
        Codepoint { codepoint: 0xF976, name: "CJK COMPATIBILITY IDEOGRAPH-F976", aliases: &[] },
        Codepoint { codepoint: 0xF977, name: "CJK COMPATIBILITY IDEOGRAPH-F977", aliases: &[] },
        Codepoint { codepoint: 0xF978, name: "CJK COMPATIBILITY IDEOGRAPH-F978", aliases: &[] },
        Codepoint { codepoint: 0xF979, name: "CJK COMPATIBILITY IDEOGRAPH-F979", aliases: &[] },
        Codepoint { codepoint: 0xF97A, name: "CJK COMPATIBILITY IDEOGRAPH-F97A", aliases: &[] },
        Codepoint { codepoint: 0xF97B, name: "CJK COMPATIBILITY IDEOGRAPH-F97B", aliases: &[] },
        Codepoint { codepoint: 0xF97C, name: "CJK COMPATIBILITY IDEOGRAPH-F97C", aliases: &[] },
        Codepoint { codepoint: 0xF97D, name: "CJK COMPATIBILITY IDEOGRAPH-F97D", aliases: &[] },
        Codepoint { codepoint: 0xF97E, name: "CJK COMPATIBILITY IDEOGRAPH-F97E", aliases: &[] },
        Codepoint { codepoint: 0xF97F, name: "CJK COMPATIBILITY IDEOGRAPH-F97F", aliases: &[] },
        Codepoint { codepoint: 0xF980, name: "CJK COMPATIBILITY IDEOGRAPH-F980", aliases: &[] },
        Codepoint { codepoint: 0xF981, name: "CJK COMPATIBILITY IDEOGRAPH-F981", aliases: &[] },
        Codepoint { codepoint: 0xF982, name: "CJK COMPATIBILITY IDEOGRAPH-F982", aliases: &[] },
        Codepoint { codepoint: 0xF983, name: "CJK COMPATIBILITY IDEOGRAPH-F983", aliases: &[] },
        Codepoint { codepoint: 0xF984, name: "CJK COMPATIBILITY IDEOGRAPH-F984", aliases: &[] },
        Codepoint { codepoint: 0xF985, name: "CJK COMPATIBILITY IDEOGRAPH-F985", aliases: &[] },
        Codepoint { codepoint: 0xF986, name: "CJK COMPATIBILITY IDEOGRAPH-F986", aliases: &[] },
        Codepoint { codepoint: 0xF987, name: "CJK COMPATIBILITY IDEOGRAPH-F987", aliases: &[] },
        Codepoint { codepoint: 0xF988, name: "CJK COMPATIBILITY IDEOGRAPH-F988", aliases: &[] },
        Codepoint { codepoint: 0xF989, name: "CJK COMPATIBILITY IDEOGRAPH-F989", aliases: &[] },
        Codepoint { codepoint: 0xF98A, name: "CJK COMPATIBILITY IDEOGRAPH-F98A", aliases: &[] },
        Codepoint { codepoint: 0xF98B, name: "CJK COMPATIBILITY IDEOGRAPH-F98B", aliases: &[] },
        Codepoint { codepoint: 0xF98C, name: "CJK COMPATIBILITY IDEOGRAPH-F98C", aliases: &[] },
        Codepoint { codepoint: 0xF98D, name: "CJK COMPATIBILITY IDEOGRAPH-F98D", aliases: &[] },
    ];
    assert(v@ =~= codepoint_table_384());
    v
}

pub open spec fn codepoint_table_385() -> Seq<Codepoint> {
    seq![
        Codepoint { codepoint: 0xF98E, name: "CJK COMPATIBILITY IDEOGRAPH-F98E", aliases: &[] },
        Codepoint { codepoint: 0xF98F, name: "CJK COMPATIBILITY IDEOGRAPH-F98F", aliases: &[] },
        Codepoint { codepoint: 0xF990, name: "CJK COMPATIBILITY IDEOGRAPH-F990", aliases: &[] },
        Codepoint { codepoint: 0xF991, name: "CJK COMPATIBILITY IDEOGRAPH-F991", aliases: &[] },
        Codepoint { codepoint: 0xF992, name: "CJK COMPATIBILITY IDEOGRAPH-F992", aliases: &[] },
        Codepoint { codepoint: 0xF993, name: "CJK COMPATIBILITY IDEOGRAPH-F993", aliases: &[] },
        Codepoint { codepoint: 0xF994, name: "CJK COMPATIBILITY IDEOGRAPH-F994", aliases: &[] },
        Codepoint { codepoint: 0xF995, name: "CJK COMPATIBILITY IDEOGRAPH-F995", aliases: &[] },
        Codepoint { codepoint: 0xF996, name: "CJK COMPATIBILITY IDEOGRAPH-F996", aliases: &[] },
        Codepoint { codepoint: 0xF997, name: "CJK COMPATIBILITY IDEOGRAPH-F997", aliases: &[] },
        Codepoint { codepoint: 0xF998, name: "CJK COMPATIBILITY IDEOGRAPH-F998", aliases: &[] },
        Codepoint { codepoint: 0xF999, name: "CJK COMPATIBILITY IDEOGRAPH-F999", aliases: &[] },
        Codepoint { codepoint: 0xF99A, name: "CJK COMPATIBILITY IDEOGRAPH-F99A", aliases: &[] },
        Codepoint { codepoint: 0xF99B, name: "CJK COMPATIBILITY IDEOGRAPH-F99B", aliases: &[] },
        Codepoint { codepoint: 0xF99C, name: "CJK COMPATIBILITY IDEOGRAPH-F99C", aliases: &[] },
        Codepoint { codepoint: 0xF99D, name: "CJK COMPATIBILITY IDEOGRAPH-F99D", aliases: &[] },
        Codepoint { codepoint: 0xF99E, name: "CJK COMPATIBILITY IDEOGRAPH-F99E", aliases: &[] },
        Codepoint { codepoint: 0xF99F, name: "CJK COMPATIBILITY IDEOGRAPH-F99F", aliases: &[] },
        Codepoint { codepoint: 0xF9A0, name: "CJK COMPATIBILITY IDEOGRAPH-F9A0", aliases: &[] },
        Codepoint { codepoint: 0xF9A1, name: "CJK COMPATIBILITY IDEOGRAPH-F9A1", aliases: &[] },
        Codepoint { codepoint: 0xF9A2, name: "CJK COMPATIBILITY IDEOGRAPH-F9A2", aliases: &[] },
        Codepoint { codepoint: 0xF9A3, name: "CJK COMPATIBILITY IDEOGRAPH-F9A3", aliases: &[] },
        Codepoint { codepoint: 0xF9A4, name: "CJK COMPATIBILITY IDEOGRAPH-F9A4", aliases: &[] },
        Codepoint { codepoint: 0xF9A5, name: "CJK COMPATIBILITY IDEOGRAPH-F9A5", aliases: &[] },
        Codepoint { codepoint: 0xF9A6, name: "CJK COMPATIBILITY IDEOGRAPH-F9A6", aliases: &[] },
        Codepoint { codepoint: 0xF9A7, name: "CJK COMPATIBILITY IDEOGRAPH-F9A7", aliases: &[] },
        Codepoint { codepoint: 0xF9A8, name: "CJK COMPATIBILITY IDEOGRAPH-F9A8", aliases: &[] },
        Codepoint { codepoint: 0xF9A9, name: "CJK COMPATIBILITY IDEOGRAPH-F9A9", aliases: &[] },
        Codepoint { codepoint: 0xF9AA, name: "CJK COMPATIBILITY IDEOGRAPH-F9AA", aliases: &[] },
        Codepoint { codepoint: 0xF9AB, name: "CJK COMPATIBILITY IDEOGRAPH-F9AB", aliases: &[] },
        Codepoint { codepoint: 0xF9AC, name: "CJK COMPATIBILITY IDEOGRAPH-F9AC", aliases: &[] },
        Codepoint { codepoint: 0xF9AD, name: "CJK COMPATIBILITY IDEOGRAPH-F9AD", aliases: &[] },
        Codepoint { codepoint: 0xF9AE, name: "CJK COMPATIBILITY IDEOGRAPH-F9AE", aliases: &[] },
        Codepoint { codepoint: 0xF9AF, name: "CJK COMPATIBILITY IDEOGRAPH-F9AF", aliases: &[] },
        Codepoint { codepoint: 0xF9B0, name: "CJK COMPATIBILITY IDEOGRAPH-F9B0", aliases: &[] },
        Codepoint { codepoint: 0xF9B1, name: "CJK COMPATIBILITY IDEOGRAPH-F9B1", aliases: &[] },
        Codepoint { codepoint: 0xF9B2, name: "CJK COMPATIBILITY IDEOGRAPH-F9B2", aliases: &[] },
        Codepoint { codepoint: 0xF9B3, name: "CJK COMPATIBILITY IDEOGRAPH-F9B3", aliases: &[] },
        Codepoint { codepoint: 0xF9B4, name: "CJK COMPATIBILITY IDEOGRAPH-F9B4", aliases: &[] },
        Codepoint { codepoint: 0xF9B5, name: "CJK COMPATIBILITY IDEOGRAPH-F9B5", aliases: &[] },
    ]
}

fn all_codepoints_385() -> (v: Vec<Codepoint>)
    ensures
        v@ == codepoint_table_385(),
{
    let v = vec![
        Codepoint { codepoint: 0xF98E, name: "CJK COMPATIBILITY IDEOGRAPH-F98E", aliases: &[] },
        Codepoint { codepoint: 0xF98F, name: "CJK COMPATIBILITY IDEOGRAPH-F98F", aliases: &[] },
        Codepoint { codepoint: 0xF990, name: "CJK COMPATIBILITY IDEOGRAPH-F990", aliases: &[] },
        Codepoint { codepoint: 0xF991, name: "CJK COMPATIBILITY IDEOGRAPH-F991", aliases: &[] },
        Codepoint { codepoint: 0xF992, name: "CJK COMPATIBILITY IDEOGRAPH-F992", aliases: &[] },
        Codepoint { codepoint: 0xF993, name: "CJK COMPATIBILITY IDEOGRAPH-F993", aliases: &[] },
        Codepoint { codepoint: 0xF994, name: "CJK COMPATIBILITY IDEOGRAPH-F994", aliases: &[] },
        Codepoint { codepoint: 0xF995, name: "CJK COMPATIBILITY IDEOGRAPH-F995", aliases: &[] },
        Codepoint { codepoint: 0xF996, name: "CJK COMPATIBILITY IDEOGRAPH-F996", aliases: &[] },
        Codepoint { codepoint: 0xF997, name: "CJK COMPATIBILITY IDEOGRAPH-F997", aliases: &[] },
        Codepoint { codepoint: 0xF998, name: "CJK COMPATIBILITY IDEOGRAPH-F998", aliases: &[] },
        Codepoint { codepoint: 0xF999, name: "CJK COMPATIBILITY IDEOGRAPH-F999", aliases: &[] },
        Codepoint { codepoint: 0xF99A, name: "CJK COMPATIBILITY IDEOGRAPH-F99A", aliases: &[] },
        Codepoint { codepoint: 0xF99B, name: "CJK COMPATIBILITY IDEOGRAPH-F99B", aliases: &[] },
        Codepoint { codepoint: 0xF99C, name: "CJK COMPATIBILITY IDEOGRAPH-F99C", aliases: &[] },
        Codepoint { codepoint: 0xF99D, name: "CJK COMPATIBILITY IDEOGRAPH-F99D", aliases: &[] },
        Codepoint { codepoint: 0xF99E, name: "CJK COMPATIBILITY IDEOGRAPH-F99E", aliases: &[] },
        Codepoint { codepoint: 0xF99F, name: "CJK COMPATIBILITY IDEOGRAPH-F99F", aliases: &[] },
        Codepoint { codepoint: 0xF9A0, name: "CJK COMPATIBILITY IDEOGRAPH-F9A0", aliases: &[] },
        Codepoint { codepoint: 0xF9A1, name: "CJK COMPATIBILITY IDEOGRAPH-F9A1", aliases: &[] },
        Codepoint { codepoint: 0xF9A2, name: "CJK COMPATIBILITY IDEOGRAPH-F9A2", aliases: &[] },
        Codepoint { codepoint: 0xF9A3, name: "CJK COMPATIBILITY IDEOGRAPH-F9A3", aliases: &[] },
        Codepoint { codepoint: 0xF9A4, name: "CJK COMPATIBILITY IDEOGRAPH-F9A4", aliases: &[] },
        Codepoint { codepoint: 0xF9A5, name: "CJK COMPATIBILITY IDEOGRAPH-F9A5", aliases: &[] },
        Codepoint { codepoint: 0xF9A6, name: "CJK COMPATIBILITY IDEOGRAPH-F9A6", aliases: &[] },
        Codepoint { codepoint: 0xF9A7, name: "CJK COMPATIBILITY IDEOGRAPH-F9A7", aliases: &[] },
        Codepoint { codepoint: 0xF9A8, name: "CJK COMPATIBILITY IDEOGRAPH-F9A8", aliases: &[] },
        Codepoint { codepoint: 0xF9A9, name: "CJK COMPATIBILITY IDEOGRAPH-F9A9", aliases: &[] },
        Codepoint { codepoint: 0xF9AA, name: "CJK COMPATIBILITY IDEOGRAPH-F9AA", aliases: &[] },
        Codepoint { codepoint: 0xF9AB, name: "CJK COMPATIBILITY IDEOGRAPH-F9AB", aliases: &[] },
        Codepoint { codepoint: 0xF9AC, name: "CJK COMPATIBILITY IDEOGRAPH-F9AC", aliases: &[] },
        Codepoint { codepoint: 0xF9AD, name: "CJK COMPATIBILITY IDEOGRAPH-F9AD", aliases: &[] },
        Codepoint { codepoint: 0xF9AE, name: "CJK COMPATIBILITY IDEOGRAPH-F9AE", aliases: &[] },
        Codepoint { codepoint: 0xF9AF, name: "CJK COMPATIBILITY IDEOGRAPH-F9AF", aliases: &[] },
        Codepoint { codepoint: 0xF9B0, name: "CJK COMPATIBILITY IDEOGRAPH-F9B0", aliases: &[] },
        Codepoint { codepoint: 0xF9B1, name: "CJK COMPATIBILITY IDEOGRAPH-F9B1", aliases: &[] },
        Codepoint { codepoint: 0xF9B2, name: "CJK COMPATIBILITY IDEOGRAPH-F9B2", aliases: &[] },
        Codepoint { codepoint: 0xF9B3, name: "CJK COMPATIBILITY IDEOGRAPH-F9B3", aliases: &[] },
        Codepoint { codepoint: 0xF9B4, name: "CJK COMPATIBILITY IDEOGRAPH-F9B4", aliases: &[] },
        Codepoint { codepoint: 0xF9B5, name: "CJK COMPATIBILITY IDEOGRAPH-F9B5", aliases: &[] },
    ];
    assert(v@ =~= codepoint_table_385());
    v
}

pub open spec fn codepoint_table_386() -> Seq<Codepoint> {
    seq![
        Codepoint { codepoint: 0xF9B6, name: "CJK COMPATIBILITY IDEOGRAPH-F9B6", aliases: &[] },
        Codepoint { codepoint: 0xF9B7, name: "CJK COMPATIBILITY IDEOGRAPH-F9B7", aliases: &[] },
        Codepoint { codepoint: 0xF9B8, name: "CJK COMPATIBILITY IDEOGRAPH-F9B8", aliases: &[] },
        Codepoint { codepoint: 0xF9B9, name: "CJK COMPATIBILITY IDEOGRAPH-F9B9", aliases: &[] },
        Codepoint { codepoint: 0xF9BA, name: "CJK COMPATIBILITY IDEOGRAPH-F9BA", aliases: &[] },
        Codepoint { codepoint: 0xF9BB, name: "CJK COMPATIBILITY IDEOGRAPH-F9BB", aliases: &[] },
        Codepoint { codepoint: 0xF9BC, name: "CJK COMPATIBILITY IDEOGRAPH-F9BC", aliases: &[] },
        Codepoint { codepoint: 0xF9BD, name: "CJK COMPATIBILITY IDEOGRAPH-F9BD", aliases: &[] },
        Codepoint { codepoint: 0xF9BE, name: "CJK COMPATIBILITY IDEOGRAPH-F9BE", aliases: &[] },
        Codepoint { codepoint: 0xF9BF, name: "CJK COMPATIBILITY IDEOGRAPH-F9BF", aliases: &[] },
        Codepoint { codepoint: 0xF9C0, name: "CJK COMPATIBILITY IDEOGRAPH-F9C0", aliases: &[] },
        Codepoint { codepoint: 0xF9C1, name: "CJK COMPATIBILITY IDEOGRAPH-F9C1", aliases: &[] },
        Codepoint { codepoint: 0xF9C2, name: "CJK COMPATIBILITY IDEOGRAPH-F9C2", aliases: &[] },
        Codepoint { codepoint: 0xF9C3, name: "CJK COMPATIBILITY IDEOGRAPH-F9C3", aliases: &[] },
        Codepoint { codepoint: 0xF9C4, name: "CJK COMPATIBILITY IDEOGRAPH-F9C4", aliases: &[] },
        Codepoint { codepoint: 0xF9C5, name: "CJK COMPATIBILITY IDEOGRAPH-F9C5", aliases: &[] },
        Codepoint { codepoint: 0xF9C6, name: "CJK COMPATIBILITY IDEOGRAPH-F9C6", aliases: &[] },
        Codepoint { codepoint: 0xF9C7, name: "CJK COMPATIBILITY IDEOGRAPH-F9C7", aliases: &[] },
        Codepoint { codepoint: 0xF9C8, name: "CJK COMPATIBILITY IDEOGRAPH-F9C8", aliases: &[] },
        Codepoint { codepoint: 0xF9C9, name: "CJK COMPATIBILITY IDEOGRAPH-F9C9", aliases: &[] },
        Codepoint { codepoint: 0xF9CA, name: "CJK COMPATIBILITY IDEOGRAPH-F9CA", aliases: &[] },
        Codepoint { codepoint: 0xF9CB, name: "CJK COMPATIBILITY IDEOGRAPH-F9CB", aliases: &[] },
        Codepoint { codepoint: 0xF9CC, name: "CJK COMPATIBILITY IDEOGRAPH-F9CC", aliases: &[] },
        Codepoint { codepoint: 0xF9CD, name: "CJK COMPATIBILITY IDEOGRAPH-F9CD", aliases: &[] },
        Codepoint { codepoint: 0xF9CE, name: "CJK COMPATIBILITY IDEOGRAPH-F9CE", aliases: &[] },
        Codepoint { codepoint: 0xF9CF, name: "CJK COMPATIBILITY IDEOGRAPH-F9CF", aliases: &[] },
        Codepoint { codepoint: 0xF9D0, name: "CJK COMPATIBILITY IDEOGRAPH-F9D0", aliases: &[] },
        Codepoint { codepoint: 0xF9D1, name: "CJK COMPATIBILITY IDEOGRAPH-F9D1", aliases: &[] },
        Codepoint { codepoint: 0xF9D2, name: "CJK COMPATIBILITY IDEOGRAPH-F9D2", aliases: &[] },
        Codepoint { codepoint: 0xF9D3, name: "CJK COMPATIBILITY IDEOGRAPH-F9D3", aliases: &[] },
        Codepoint { codepoint: 0xF9D4, name: "CJK COMPATIBILITY IDEOGRAPH-F9D4", aliases: &[] },
        Codepoint { codepoint: 0xF9D5, name: "CJK COMPATIBILITY IDEOGRAPH-F9D5", aliases: &[] },
        Codepoint { codepoint: 0xF9D6, name: "CJK COMPATIBILITY IDEOGRAPH-F9D6", aliases: &[] },
        Codepoint { codepoint: 0xF9D7, name: "CJK COMPATIBILITY IDEOGRAPH-F9D7", aliases: &[] },
        Codepoint { codepoint: 0xF9D8, name: "CJK COMPATIBILITY IDEOGRAPH-F9D8", aliases: &[] },
        Codepoint { codepoint: 0xF9D9, name: "CJK COMPATIBILITY IDEOGRAPH-F9D9", aliases: &[] },
        Codepoint { codepoint: 0xF9DA, name: "CJK COMPATIBILITY IDEOGRAPH-F9DA", aliases: &[] },
        Codepoint { codepoint: 0xF9DB, name: "CJK COMPATIBILITY IDEOGRAPH-F9DB", aliases: &[] },
        Codepoint { codepoint: 0xF9DC, name: "CJK COMPATIBILITY IDEOGRAPH-F9DC", aliases: &[] },
        Codepoint { codepoint: 0xF9DD, name: "CJK COMPATIBILITY IDEOGRAPH-F9DD", aliases: &[] },
    ]
}

fn all_codepoints_386() -> (v: Vec<Codepoint>)
    ensures
        v@ == codepoint_table_386(),
{
    let v = vec![
        Codepoint { codepoint: 0xF9B6, name: "CJK COMPATIBILITY IDEOGRAPH-F9B6", aliases: &[] },
        Codepoint { codepoint: 0xF9B7, name: "CJK COMPATIBILITY IDEOGRAPH-F9B7", aliases: &[] },
        Codepoint { codepoint: 0xF9B8, name: "CJK COMPATIBILITY IDEOGRAPH-F9B8", aliases: &[] },
        Codepoint { codepoint: 0xF9B9, name: "CJK COMPATIBILITY IDEOGRAPH-F9B9", aliases: &[] },
        Codepoint { codepoint: 0xF9BA, name: "CJK COMPATIBILITY IDEOGRAPH-F9BA", aliases: &[] },
        Codepoint { codepoint: 0xF9BB, name: "CJK COMPATIBILITY IDEOGRAPH-F9BB", aliases: &[] },
        Codepoint { codepoint: 0xF9BC, name: "CJK COMPATIBILITY IDEOGRAPH-F9BC", aliases: &[] },
        Codepoint { codepoint: 0xF9BD, name: "CJK COMPATIBILITY IDEOGRAPH-F9BD", aliases: &[] },
        Codepoint { codepoint: 0xF9BE, name: "CJK COMPATIBILITY IDEOGRAPH-F9BE", aliases: &[] },
        Codepoint { codepoint: 0xF9BF, name: "CJK COMPATIBILITY IDEOGRAPH-F9BF", aliases: &[] },
        Codepoint { codepoint: 0xF9C0, name: "CJK COMPATIBILITY IDEOGRAPH-F9C0", aliases: &[] },
        Codepoint { codepoint: 0xF9C1, name: "CJK COMPATIBILITY IDEOGRAPH-F9C1", aliases: &[] },
        Codepoint { codepoint: 0xF9C2, name: "CJK COMPATIBILITY IDEOGRAPH-F9C2", aliases: &[] },
        Codepoint { codepoint: 0xF9C3, name: "CJK COMPATIBILITY IDEOGRAPH-F9C3", aliases: &[] },
        Codepoint { codepoint: 0xF9C4, name: "CJK COMPATIBILITY IDEOGRAPH-F9C4", aliases: &[] },
        Codepoint { codepoint: 0xF9C5, name: "CJK COMPATIBILITY IDEOGRAPH-F9C5", aliases: &[] },
        Codepoint { codepoint: 0xF9C6, name: "CJK COMPATIBILITY IDEOGRAPH-F9C6", aliases: &[] },
        Codepoint { codepoint: 0xF9C7, name: "CJK COMPATIBILITY IDEOGRAPH-F9C7", aliases: &[] },
        Codepoint { codepoint: 0xF9C8, name: "CJK COMPATIBILITY IDEOGRAPH-F9C8", aliases: &[] },
        Codepoint { codepoint: 0xF9C9, name: "CJK COMPATIBILITY IDEOGRAPH-F9C9", aliases: &[] },
        Codepoint { codepoint: 0xF9CA, name: "CJK COMPATIBILITY IDEOGRAPH-F9CA", aliases: &[] },
        Codepoint { codepoint: 0xF9CB, name: "CJK COMPATIBILITY IDEOGRAPH-F9CB", aliases: &[] },
        Codepoint { codepoint: 0xF9CC, name: "CJK COMPATIBILITY IDEOGRAPH-F9CC", aliases: &[] },
        Codepoint { codepoint: 0xF9CD, name: "CJK COMPATIBILITY IDEOGRAPH-F9CD", aliases: &[] },
        Codepoint { codepoint: 0xF9CE, name: "CJK COMPATIBILITY IDEOGRAPH-F9CE", aliases: &[] },
        Codepoint { codepoint: 0xF9CF, name: "CJK COMPATIBILITY IDEOGRAPH-F9CF", aliases: &[] },
        Codepoint { codepoint: 0xF9D0, name: "CJK COMPATIBILITY IDEOGRAPH-F9D0", aliases: &[] },
        Codepoint { codepoint: 0xF9D1, name: "CJK COMPATIBILITY IDEOGRAPH-F9D1", aliases: &[] },
        Codepoint { codepoint: 0xF9D2, name: "CJK COMPATIBILITY IDEOGRAPH-F9D2", aliases: &[] },
        Codepoint { codepoint: 0xF9D3, name: "CJK COMPATIBILITY IDEOGRAPH-F9D3", aliases: &[] },
        Codepoint { codepoint: 0xF9D4, name: "CJK COMPATIBILITY IDEOGRAPH-F9D4", aliases: &[] },
        Codepoint { codepoint: 0xF9D5, name: "CJK COMPATIBILITY IDEOGRAPH-F9D5", aliases: &[] },
        Codepoint { codepoint: 0xF9D6, name: "CJK COMPATIBILITY IDEOGRAPH-F9D6", aliases: &[] },
        Codepoint { codepoint: 0xF9D7, name: "CJK COMPATIBILITY IDEOGRAPH-F9D7", aliases: &[] },
        Codepoint { codepoint: 0xF9D8, name: "CJK COMPATIBILITY IDEOGRAPH-F9D8", aliases: &[] },
        Codepoint { codepoint: 0xF9D9, name: "CJK COMPATIBILITY IDEOGRAPH-F9D9", aliases: &[] },
        Codepoint { codepoint: 0xF9DA, name: "CJK COMPATIBILITY IDEOGRAPH-F9DA", aliases: &[] },
        Codepoint { codepoint: 0xF9DB, name: "CJK COMPATIBILITY IDEOGRAPH-F9DB", aliases: &[] },
        Codepoint { codepoint: 0xF9DC, name: "CJK COMPATIBILITY IDEOGRAPH-F9DC", aliases: &[] },
        Codepoint { codepoint: 0xF9DD, name: "CJK COMPATIBILITY IDEOGRAPH-F9DD", aliases: &[] },
    ];
    assert(v@ =~= codepoint_table_386());
    v
}

pub open spec fn codepoint_table_387() -> Seq<Codepoint> {
    seq![
        Codepoint { codepoint: 0xF9DE, name: "CJK COMPATIBILITY IDEOGRAPH-F9DE", aliases: &[] },
        Codepoint { codepoint: 0xF9DF, name: "CJK COMPATIBILITY IDEOGRAPH-F9DF", aliases: &[] },
        Codepoint { codepoint: 0xF9E0, name: "CJK COMPATIBILITY IDEOGRAPH-F9E0", aliases: &[] },
        Codepoint { codepoint: 0xF9E1, name: "CJK COMPATIBILITY IDEOGRAPH-F9E1", aliases: &[] },
        Codepoint { codepoint: 0xF9E2, name: "CJK COMPATIBILITY IDEOGRAPH-F9E2", aliases: &[] },
        Codepoint { codepoint: 0xF9E3, name: "CJK COMPATIBILITY IDEOGRAPH-F9E3", aliases: &[] },
        Codepoint { codepoint: 0xF9E4, name: "CJK COMPATIBILITY IDEOGRAPH-F9E4", aliases: &[] },
        Codepoint { codepoint: 0xF9E5, name: "CJK COMPATIBILITY IDEOGRAPH-F9E5", aliases: &[] },
        Codepoint { codepoint: 0xF9E6, name: "CJK COMPATIBILITY IDEOGRAPH-F9E6", aliases: &[] },
        Codepoint { codepoint: 0xF9E7, name: "CJK COMPATIBILITY IDEOGRAPH-F9E7", aliases: &[] },
        Codepoint { codepoint: 0xF9E8, name: "CJK COMPATIBILITY IDEOGRAPH-F9E8", aliases: &[] },
        Codepoint { codepoint: 0xF9E9, name: "CJK COMPATIBILITY IDEOGRAPH-F9E9", aliases: &[] },
        Codepoint { codepoint: 0xF9EA, name: "CJK COMPATIBILITY IDEOGRAPH-F9EA", aliases: &[] },
        Codepoint { codepoint: 0xF9EB, name: "CJK COMPATIBILITY IDEOGRAPH-F9EB", aliases: &[] },
        Codepoint { codepoint: 0xF9EC, name: "CJK COMPATIBILITY IDEOGRAPH-F9EC", aliases: &[] },
        Codepoint { codepoint: 0xF9ED, name: "CJK COMPATIBILITY IDEOGRAPH-F9ED", aliases: &[] },
        Codepoint { codepoint: 0xF9EE, name: "CJK COMPATIBILITY IDEOGRAPH-F9EE", aliases: &[] },
        Codepoint { codepoint: 0xF9EF, name: "CJK COMPATIBILITY IDEOGRAPH-F9EF", aliases: &[] },
        Codepoint { codepoint: 0xF9F0, name: "CJK COMPATIBILITY IDEOGRAPH-F9F0", aliases: &[] },
        Codepoint { codepoint: 0xF9F1, name: "CJK COMPATIBILITY IDEOGRAPH-F9F1", aliases: &[] },
        Codepoint { codepoint: 0xF9F2, name: "CJK COMPATIBILITY IDEOGRAPH-F9F2", aliases: &[] },
        Codepoint { codepoint: 0xF9F3, name: "CJK COMPATIBILITY IDEOGRAPH-F9F3", aliases: &[] },
        Codepoint { codepoint: 0xF9F4, name: "CJK COMPATIBILITY IDEOGRAPH-F9F4", aliases: &[] },
        Codepoint { codepoint: 0xF9F5, name: "CJK COMPATIBILITY IDEOGRAPH-F9F5", aliases: &[] },
        Codepoint { codepoint: 0xF9F6, name: "CJK COMPATIBILITY IDEOGRAPH-F9F6", aliases: &[] },
        Codepoint { codepoint: 0xF9F7, name: "CJK COMPATIBILITY IDEOGRAPH-F9F7", aliases: &[] },
        Codepoint { codepoint: 0xF9F8, name: "CJK COMPATIBILITY IDEOGRAPH-F9F8", aliases: &[] },
        Codepoint { codepoint: 0xF9F9, name: "CJK COMPATIBILITY IDEOGRAPH-F9F9", aliases: &[] },
        Codepoint { codepoint: 0xF9FA, name: "CJK COMPATIBILITY IDEOGRAPH-F9FA", aliases: &[] },
        Codepoint { codepoint: 0xF9FB, name: "CJK COMPATIBILITY IDEOGRAPH-F9FB", aliases: &[] },
        Codepoint { codepoint: 0xF9FC, name: "CJK COMPATIBILITY IDEOGRAPH-F9FC", aliases: &[] },
        Codepoint { codepoint: 0xF9FD, name: "CJK COMPATIBILITY IDEOGRAPH-F9FD", aliases: &[] },
        Codepoint { codepoint: 0xF9FE, name: "CJK COMPATIBILITY IDEOGRAPH-F9FE", aliases: &[] },
        Codepoint { codepoint: 0xF9FF, name: "CJK COMPATIBILITY IDEOGRAPH-F9FF", aliases: &[] },
        Codepoint { codepoint: 0xFA00, name: "CJK COMPATIBILITY IDEOGRAPH-FA00", aliases: &[] },
        Codepoint { codepoint: 0xFA01, name: "CJK COMPATIBILITY IDEOGRAPH-FA01", aliases: &[] },
        Codepoint { codepoint: 0xFA02, name: "CJK COMPATIBILITY IDEOGRAPH-FA02", aliases: &[] },
        Codepoint { codepoint: 0xFA03, name: "CJK COMPATIBILITY IDEOGRAPH-FA03", aliases: &[] },
        Codepoint { codepoint: 0xFA04, name: "CJK COMPATIBILITY IDEOGRAPH-FA04", aliases: &[] },
        Codepoint { codepoint: 0xFA05, name: "CJK COMPATIBILITY IDEOGRAPH-FA05", aliases: &[] },
    ]
}

fn all_codepoints_387() -> (v: Vec<Codepoint>)
    ensures
        v@ == codepoint_table_387(),
{
    let v = vec![
        Codepoint { codepoint: 0xF9DE, name: "CJK COMPATIBILITY IDEOGRAPH-F9DE", aliases: &[] },
        Codepoint { codepoint: 0xF9DF, name: "CJK COMPATIBILITY IDEOGRAPH-F9DF", aliases: &[] },
        Codepoint { codepoint: 0xF9E0, name: "CJK COMPATIBILITY IDEOGRAPH-F9E0", aliases: &[] },
        Codepoint { codepoint: 0xF9E1, name: "CJK COMPATIBILITY IDEOGRAPH-F9E1", aliases: &[] },
        Codepoint { codepoint: 0xF9E2, name: "CJK COMPATIBILITY IDEOGRAPH-F9E2", aliases: &[] },
        Codepoint { codepoint: 0xF9E3, name: "CJK COMPATIBILITY IDEOGRAPH-F9E3", aliases: &[] },
        Codepoint { codepoint: 0xF9E4, name: "CJK COMPATIBILITY IDEOGRAPH-F9E4", aliases: &[] },
        Codepoint { codepoint: 0xF9E5, name: "CJK COMPATIBILITY IDEOGRAPH-F9E5", aliases: &[] },
        Codepoint { codepoint: 0xF9E6, name: "CJK COMPATIBILITY IDEOGRAPH-F9E6", aliases: &[] },
        Codepoint { codepoint: 0xF9E7, name: "CJK COMPATIBILITY IDEOGRAPH-F9E7", aliases: &[] },
        Codepoint { codepoint: 0xF9E8, name: "CJK COMPATIBILITY IDEOGRAPH-F9E8", aliases: &[] },
        Codepoint { codepoint: 0xF9E9, name: "CJK COMPATIBILITY IDEOGRAPH-F9E9", aliases: &[] },
        Codepoint { codepoint: 0xF9EA, name: "CJK COMPATIBILITY IDEOGRAPH-F9EA", aliases: &[] },
        Codepoint { codepoint: 0xF9EB, name: "CJK COMPATIBILITY IDEOGRAPH-F9EB", aliases: &[] },
        Codepoint { codepoint: 0xF9EC, name: "CJK COMPATIBILITY IDEOGRAPH-F9EC", aliases: &[] },
        Codepoint { codepoint: 0xF9ED, name: "CJK COMPATIBILITY IDEOGRAPH-F9ED", aliases: &[] },
        Codepoint { codepoint: 0xF9EE, name: "CJK COMPATIBILITY IDEOGRAPH-F9EE", aliases: &[] },
        Codepoint { codepoint: 0xF9EF, name: "CJK COMPATIBILITY IDEOGRAPH-F9EF", aliases: &[] },
        Codepoint { codepoint: 0xF9F0, name: "CJK COMPATIBILITY IDEOGRAPH-F9F0", aliases: &[] },
        Codepoint { codepoint: 0xF9F1, name: "CJK COMPATIBILITY IDEOGRAPH-F9F1", aliases: &[] },
        Codepoint { codepoint: 0xF9F2, name: "CJK COMPATIBILITY IDEOGRAPH-F9F2", aliases: &[] },
        Codepoint { codepoint: 0xF9F3, name: "CJK COMPATIBILITY IDEOGRAPH-F9F3", aliases: &[] },
        Codepoint { codepoint: 0xF9F4, name: "CJK COMPATIBILITY IDEOGRAPH-F9F4", aliases: &[] },
        Codepoint { codepoint: 0xF9F5, name: "CJK COMPATIBILITY IDEOGRAPH-F9F5", aliases: &[] },
        Codepoint { codepoint: 0xF9F6, name: "CJK COMPATIBILITY IDEOGRAPH-F9F6", aliases: &[] },
        Codepoint { codepoint: 0xF9F7, name: "CJK COMPATIBILITY IDEOGRAPH-F9F7", aliases: &[] },
        Codepoint { codepoint: 0xF9F8, name: "CJK COMPATIBILITY IDEOGRAPH-F9F8", aliases: &[] },
        Codepoint { codepoint: 0xF9F9, name: "CJK COMPATIBILITY IDEOGRAPH-F9F9", aliases: &[] },
        Codepoint { codepoint: 0xF9FA, name: "CJK COMPATIBILITY IDEOGRAPH-F9FA", aliases: &[] },
        Codepoint { codepoint: 0xF9FB, name: "CJK COMPATIBILITY IDEOGRAPH-F9FB", aliases: &[] },
        Codepoint { codepoint: 0xF9FC, name: "CJK COMPATIBILITY IDEOGRAPH-F9FC", aliases: &[] },
        Codepoint { codepoint: 0xF9FD, name: "CJK COMPATIBILITY IDEOGRAPH-F9FD", aliases: &[] },
        Codepoint { codepoint: 0xF9FE, name: "CJK COMPATIBILITY IDEOGRAPH-F9FE", aliases: &[] },
        Codepoint { codepoint: 0xF9FF, name: "CJK COMPATIBILITY IDEOGRAPH-F9FF", aliases: &[] },
        Codepoint { codepoint: 0xFA00, name: "CJK COMPATIBILITY IDEOGRAPH-FA00", aliases: &[] },
        Codepoint { codepoint: 0xFA01, name: "CJK COMPATIBILITY IDEOGRAPH-FA01", aliases: &[] },
        Codepoint { codepoint: 0xFA02, name: "CJK COMPATIBILITY IDEOGRAPH-FA02", aliases: &[] },
        Codepoint { codepoint: 0xFA03, name: "CJK COMPATIBILITY IDEOGRAPH-FA03", aliases: &[] },
        Codepoint { codepoint: 0xFA04, name: "CJK COMPATIBILITY IDEOGRAPH-FA04", aliases: &[] },
        Codepoint { codepoint: 0xFA05, name: "CJK COMPATIBILITY IDEOGRAPH-FA05", aliases: &[] },
    ];
    assert(v@ =~= codepoint_table_387());
    v
}

pub open spec fn codepoint_table_388() -> Seq<Codepoint> {
    seq![
        Codepoint { codepoint: 0xFA06, name: "CJK COMPATIBILITY IDEOGRAPH-FA06", aliases: &[] },
        Codepoint { codepoint: 0xFA07, name: "CJK COMPATIBILITY IDEOGRAPH-FA07", aliases: &[] },
        Codepoint { codepoint: 0xFA08, name: "CJK COMPATIBILITY IDEOGRAPH-FA08", aliases: &[] },
        Codepoint { codepoint: 0xFA09, name: "CJK COMPATIBILITY IDEOGRAPH-FA09", aliases: &[] },
        Codepoint { codepoint: 0xFA0A, name: "CJK COMPATIBILITY IDEOGRAPH-FA0A", aliases: &[] },
        Codepoint { codepoint: 0xFA0B, name: "CJK COMPATIBILITY IDEOGRAPH-FA0B", aliases: &[] },
        Codepoint { codepoint: 0xFA0C, name: "CJK COMPATIBILITY IDEOGRAPH-FA0C", aliases: &[] },
        Codepoint { codepoint: 0xFA0D, name: "CJK COMPATIBILITY IDEOGRAPH-FA0D", aliases: &[] },
        Codepoint { codepoint: 0xFA0E, name: "CJK COMPATIBILITY IDEOGRAPH-FA0E", aliases: &[] },
        Codepoint { codepoint: 0xFA0F, name: "CJK COMPATIBILITY IDEOGRAPH-FA0F", aliases: &[] },
        Codepoint { codepoint: 0xFA10, name: "CJK COMPATIBILITY IDEOGRAPH-FA10", aliases: &[] },
        Codepoint { codepoint: 0xFA11, name: "CJK COMPATIBILITY IDEOGRAPH-FA11", aliases: &[] },
        Codepoint { codepoint: 0xFA12, name: "CJK COMPATIBILITY IDEOGRAPH-FA12", aliases: &[] },
        Codepoint { codepoint: 0xFA13, name: "CJK COMPATIBILITY IDEOGRAPH-FA13", aliases: &[] },
        Codepoint { codepoint: 0xFA14, name: "CJK COMPATIBILITY IDEOGRAPH-FA14", aliases: &[] },
        Codepoint { codepoint: 0xFA15, name: "CJK COMPATIBILITY IDEOGRAPH-FA15", aliases: &[] },
        Codepoint { codepoint: 0xFA16, name: "CJK COMPATIBILITY IDEOGRAPH-FA16", aliases: &[] },
        Codepoint { codepoint: 0xFA17, name: "CJK COMPATIBILITY IDEOGRAPH-FA17", aliases: &[] },
        Codepoint { codepoint: 0xFA18, name: "CJK COMPATIBILITY IDEOGRAPH-FA18", aliases: &[] },
        Codepoint { codepoint: 0xFA19, name: "CJK COMPATIBILITY IDEOGRAPH-FA19", aliases: &[] },
        Codepoint { codepoint: 0xFA1A, name: "CJK COMPATIBILITY IDEOGRAPH-FA1A", aliases: &[] },
        Codepoint { codepoint: 0xFA1B, name: "CJK COMPATIBILITY IDEOGRAPH-FA1B", aliases: &[] },
        Codepoint { codepoint: 0xFA1C, name: "CJK COMPATIBILITY IDEOGRAPH-FA1C", aliases: &[] },
        Codepoint { codepoint: 0xFA1D, name: "CJK COMPATIBILITY IDEOGRAPH-FA1D", aliases: &[] },
        Codepoint { codepoint: 0xFA1E, name: "CJK COMPATIBILITY IDEOGRAPH-FA1E", aliases: &[] },
        Codepoint { codepoint: 0xFA1F, name: "CJK COMPATIBILITY IDEOGRAPH-FA1F", aliases: &[] },
        Codepoint { codepoint: 0xFA20, name: "CJK COMPATIBILITY IDEOGRAPH-FA20", aliases: &[] },
        Codepoint { codepoint: 0xFA21, name: "CJK COMPATIBILITY IDEOGRAPH-FA21", aliases: &[] },
        Codepoint { codepoint: 0xFA22, name: "CJK COMPATIBILITY IDEOGRAPH-FA22", aliases: &[] },
        Codepoint { codepoint: 0xFA23, name: "CJK COMPATIBILITY IDEOGRAPH-FA23", aliases: &[] },
        Codepoint { codepoint: 0xFA24, name: "CJK COMPATIBILITY IDEOGRAPH-FA24", aliases: &[] },
        Codepoint { codepoint: 0xFA25, name: "CJK COMPATIBILITY IDEOGRAPH-FA25", aliases: &[] },
        Codepoint { codepoint: 0xFA26, name: "CJK COMPATIBILITY IDEOGRAPH-FA26", aliases: &[] },
        Codepoint { codepoint: 0xFA27, name: "CJK COMPATIBILITY IDEOGRAPH-FA27", aliases: &[] },
        Codepoint { codepoint: 0xFA28, name: "CJK COMPATIBILITY IDEOGRAPH-FA28", aliases: &[] },
        Codepoint { codepoint: 0xFA29, name: "CJK COMPATIBILITY IDEOGRAPH-FA29", aliases: &[] },
        Codepoint { codepoint: 0xFA2A, name: "CJK COMPATIBILITY IDEOGRAPH-FA2A", aliases: &[] },
        Codepoint { codepoint: 0xFA2B, name: "CJK COMPATIBILITY IDEOGRAPH-FA2B", aliases: &[] },
        Codepoint { codepoint: 0xFA2C, name: "CJK COMPATIBILITY IDEOGRAPH-FA2C", aliases: &[] },
        Codepoint { codepoint: 0xFA2D, name: "CJK COMPATIBILITY IDEOGRAPH-FA2D", aliases: &[] },
    ]
}

fn all_codepoints_388() -> (v: Vec<Codepoint>)
    ensures
        v@ == codepoint_table_388(),
{
    let v = vec![
        Codepoint { codepoint: 0xFA06, name: "CJK COMPATIBILITY IDEOGRAPH-FA06", aliases: &[] },
        Codepoint { codepoint: 0xFA07, name: "CJK COMPATIBILITY IDEOGRAPH-FA07", aliases: &[] },
        Codepoint { codepoint: 0xFA08, name: "CJK COMPATIBILITY IDEOGRAPH-FA08", aliases: &[] },
        Codepoint { codepoint: 0xFA09, name: "CJK COMPATIBILITY IDEOGRAPH-FA09", aliases: &[] },
        Codepoint { codepoint: 0xFA0A, name: "CJK COMPATIBILITY IDEOGRAPH-FA0A", aliases: &[] },
        Codepoint { codepoint: 0xFA0B, name: "CJK COMPATIBILITY IDEOGRAPH-FA0B", aliases: &[] },
        Codepoint { codepoint: 0xFA0C, name: "CJK COMPATIBILITY IDEOGRAPH-FA0C", aliases: &[] },
        Codepoint { codepoint: 0xFA0D, name: "CJK COMPATIBILITY IDEOGRAPH-FA0D", aliases: &[] },
        Codepoint { codepoint: 0xFA0E, name: "CJK COMPATIBILITY IDEOGRAPH-FA0E", aliases: &[] },
        Codepoint { codepoint: 0xFA0F, name: "CJK COMPATIBILITY IDEOGRAPH-FA0F", aliases: &[] },
        Codepoint { codepoint: 0xFA10, name: "CJK COMPATIBILITY IDEOGRAPH-FA10", aliases: &[] },
        Codepoint { codepoint: 0xFA11, name: "CJK COMPATIBILITY IDEOGRAPH-FA11", aliases: &[] },
        Codepoint { codepoint: 0xFA12, name: "CJK COMPATIBILITY IDEOGRAPH-FA12", aliases: &[] },
        Codepoint { codepoint: 0xFA13, name: "CJK COMPATIBILITY IDEOGRAPH-FA13", aliases: &[] },
        Codepoint { codepoint: 0xFA14, name: "CJK COMPATIBILITY IDEOGRAPH-FA14", aliases: &[] },
        Codepoint { codepoint: 0xFA15, name: "CJK COMPATIBILITY IDEOGRAPH-FA15", aliases: &[] },
        Codepoint { codepoint: 0xFA16, name: "CJK COMPATIBILITY IDEOGRAPH-FA16", aliases: &[] },
        Codepoint { codepoint: 0xFA17, name: "CJK COMPATIBILITY IDEOGRAPH-FA17", aliases: &[] },
        Codepoint { codepoint: 0xFA18, name: "CJK COMPATIBILITY IDEOGRAPH-FA18", aliases: &[] },
        Codepoint { codepoint: 0xFA19, name: "CJK COMPATIBILITY IDEOGRAPH-FA19", aliases: &[] },
        Codepoint { codepoint: 0xFA1A, name: "CJK COMPATIBILITY IDEOGRAPH-FA1A", aliases: &[] },
        Codepoint { codepoint: 0xFA1B, name: "CJK COMPATIBILITY IDEOGRAPH-FA1B", aliases: &[] },
        Codepoint { codepoint: 0xFA1C, name: "CJK COMPATIBILITY IDEOGRAPH-FA1C", aliases: &[] },
        Codepoint { codepoint: 0xFA1D, name: "CJK COMPATIBILITY IDEOGRAPH-FA1D", aliases: &[] },
        Codepoint { codepoint: 0xFA1E, name: "CJK COMPATIBILITY IDEOGRAPH-FA1E", aliases: &[] },
        Codepoint { codepoint: 0xFA1F, name: "CJK COMPATIBILITY IDEOGRAPH-FA1F", aliases: &[] },
        Codepoint { codepoint: 0xFA20, name: "CJK COMPATIBILITY IDEOGRAPH-FA20", aliases: &[] },
        Codepoint { codepoint: 0xFA21, name: "CJK COMPATIBILITY IDEOGRAPH-FA21", aliases: &[] },
        Codepoint { codepoint: 0xFA22, name: "CJK COMPATIBILITY IDEOGRAPH-FA22", aliases: &[] },
        Codepoint { codepoint: 0xFA23, name: "CJK COMPATIBILITY IDEOGRAPH-FA23", aliases: &[] },
        Codepoint { codepoint: 0xFA24, name: "CJK COMPATIBILITY IDEOGRAPH-FA24", aliases: &[] },
        Codepoint { codepoint: 0xFA25, name: "CJK COMPATIBILITY IDEOGRAPH-FA25", aliases: &[] },
        Codepoint { codepoint: 0xFA26, name: "CJK COMPATIBILITY IDEOGRAPH-FA26", aliases: &[] },
        Codepoint { codepoint: 0xFA27, name: "CJK COMPATIBILITY IDEOGRAPH-FA27", aliases: &[] },
        Codepoint { codepoint: 0xFA28, name: "CJK COMPATIBILITY IDEOGRAPH-FA28", aliases: &[] },
        Codepoint { codepoint: 0xFA29, name: "CJK COMPATIBILITY IDEOGRAPH-FA29", aliases: &[] },
        Codepoint { codepoint: 0xFA2A, name: "CJK COMPATIBILITY IDEOGRAPH-FA2A", aliases: &[] },
        Codepoint { codepoint: 0xFA2B, name: "CJK COMPATIBILITY IDEOGRAPH-FA2B", aliases: &[] },
        Codepoint { codepoint: 0xFA2C, name: "CJK COMPATIBILITY IDEOGRAPH-FA2C", aliases: &[] },
        Codepoint { codepoint: 0xFA2D, name: "CJK COMPATIBILITY IDEOGRAPH-FA2D", aliases: &[] },
    ];
    assert(v@ =~= codepoint_table_388());
    v
}

pub open spec fn codepoint_table_389() -> Seq<Codepoint> {
    seq![
        Codepoint { codepoint: 0xFA2E, name: "CJK COMPATIBILITY IDEOGRAPH-FA2E", aliases: &[] },
        Codepoint { codepoint: 0xFA2F, name: "CJK COMPATIBILITY IDEOGRAPH-FA2F", aliases: &[] },
        Codepoint { codepoint: 0xFA30, name: "CJK COMPATIBILITY IDEOGRAPH-FA30", aliases: &[] },
        Codepoint { codepoint: 0xFA31, name: "CJK COMPATIBILITY IDEOGRAPH-FA31", aliases: &[] },
        Codepoint { codepoint: 0xFA32, name: "CJK COMPATIBILITY IDEOGRAPH-FA32", aliases: &[] },
        Codepoint { codepoint: 0xFA33, name: "CJK COMPATIBILITY IDEOGRAPH-FA33", aliases: &[] },
        Codepoint { codepoint: 0xFA34, name: "CJK COMPATIBILITY IDEOGRAPH-FA34", aliases: &[] },
        Codepoint { codepoint: 0xFA35, name: "CJK COMPATIBILITY IDEOGRAPH-FA35", aliases: &[] },
        Codepoint { codepoint: 0xFA36, name: "CJK COMPATIBILITY IDEOGRAPH-FA36", aliases: &[] },
        Codepoint { codepoint: 0xFA37, name: "CJK COMPATIBILITY IDEOGRAPH-FA37", aliases: &[] },
        Codepoint { codepoint: 0xFA38, name: "CJK COMPATIBILITY IDEOGRAPH-FA38", aliases: &[] },
        Codepoint { codepoint: 0xFA39, name: "CJK COMPATIBILITY IDEOGRAPH-FA39", aliases: &[] },
        Codepoint { codepoint: 0xFA3A, name: "CJK COMPATIBILITY IDEOGRAPH-FA3A", aliases: &[] },
        Codepoint { codepoint: 0xFA3B, name: "CJK COMPATIBILITY IDEOGRAPH-FA3B", aliases: &[] },
        Codepoint { codepoint: 0xFA3C, name: "CJK COMPATIBILITY IDEOGRAPH-FA3C", aliases: &[] },
        Codepoint { codepoint: 0xFA3D, name: "CJK COMPATIBILITY IDEOGRAPH-FA3D", aliases: &[] },
        Codepoint { codepoint: 0xFA3E, name: "CJK COMPATIBILITY IDEOGRAPH-FA3E", aliases: &[] },
        Codepoint { codepoint: 0xFA3F, name: "CJK COMPATIBILITY IDEOGRAPH-FA3F", aliases: &[] },
        Codepoint { codepoint: 0xFA40, name: "CJK COMPATIBILITY IDEOGRAPH-FA40", aliases: &[] },
        Codepoint { codepoint: 0xFA41, name: "CJK COMPATIBILITY IDEOGRAPH-FA41", aliases: &[] },
        Codepoint { codepoint: 0xFA42, name: "CJK COMPATIBILITY IDEOGRAPH-FA42", aliases: &[] },
        Codepoint { codepoint: 0xFA43, name: "CJK COMPATIBILITY IDEOGRAPH-FA43", aliases: &[] },
        Codepoint { codepoint: 0xFA44, name: "CJK COMPATIBILITY IDEOGRAPH-FA44", aliases: &[] },
        Codepoint { codepoint: 0xFA45, name: "CJK COMPATIBILITY IDEOGRAPH-FA45", aliases: &[] },
        Codepoint { codepoint: 0xFA46, name: "CJK COMPATIBILITY IDEOGRAPH-FA46", aliases: &[] },
        Codepoint { codepoint: 0xFA47, name: "CJK COMPATIBILITY IDEOGRAPH-FA47", aliases: &[] },
        Codepoint { codepoint: 0xFA48, name: "CJK COMPATIBILITY IDEOGRAPH-FA48", aliases: &[] },
        Codepoint { codepoint: 0xFA49, name: "CJK COMPATIBILITY IDEOGRAPH-FA49", aliases: &[] },
        Codepoint { codepoint: 0xFA4A, name: "CJK COMPATIBILITY IDEOGRAPH-FA4A", aliases: &[] },
        Codepoint { codepoint: 0xFA4B, name: "CJK COMPATIBILITY IDEOGRAPH-FA4B", aliases: &[] },
        Codepoint { codepoint: 0xFA4C, name: "CJK COMPATIBILITY IDEOGRAPH-FA4C", aliases: &[] },
        Codepoint { codepoint: 0xFA4D, name: "CJK COMPATIBILITY IDEOGRAPH-FA4D", aliases: &[] },
        Codepoint { codepoint: 0xFA4E, name: "CJK COMPATIBILITY IDEOGRAPH-FA4E", aliases: &[] },
        Codepoint { codepoint: 0xFA4F, name: "CJK COMPATIBILITY IDEOGRAPH-FA4F", aliases: &[] },
        Codepoint { codepoint: 0xFA50, name: "CJK COMPATIBILITY IDEOGRAPH-FA50", aliases: &[] },
        Codepoint { codepoint: 0xFA51, name: "CJK COMPATIBILITY IDEOGRAPH-FA51", aliases: &[] },
        Codepoint { codepoint: 0xFA52, name: "CJK COMPATIBILITY IDEOGRAPH-FA52", aliases: &[] },
        Codepoint { codepoint: 0xFA53, name: "CJK COMPATIBILITY IDEOGRAPH-FA53", aliases: &[] },
        Codepoint { codepoint: 0xFA54, name: "CJK COMPATIBILITY IDEOGRAPH-FA54", aliases: &[] },
        Codepoint { codepoint: 0xFA55, name: "CJK COMPATIBILITY IDEOGRAPH-FA55", aliases: &[] },
    ]
}

fn all_codepoints_389() -> (v: Vec<Codepoint>)
    ensures
        v@ == codepoint_table_389(),
{
    let v = vec![
        Codepoint { codepoint: 0xFA2E, name: "CJK COMPATIBILITY IDEOGRAPH-FA2E", aliases: &[] },
        Codepoint { codepoint: 0xFA2F, name: "CJK COMPATIBILITY IDEOGRAPH-FA2F", aliases: &[] },
        Codepoint { codepoint: 0xFA30, name: "CJK COMPATIBILITY IDEOGRAPH-FA30", aliases: &[] },
        Codepoint { codepoint: 0xFA31, name: "CJK COMPATIBILITY IDEOGRAPH-FA31", aliases: &[] },
        Codepoint { codepoint: 0xFA32, name: "CJK COMPATIBILITY IDEOGRAPH-FA32", aliases: &[] },
        Codepoint { codepoint: 0xFA33, name: "CJK COMPATIBILITY IDEOGRAPH-FA33", aliases: &[] },
        Codepoint { codepoint: 0xFA34, name: "CJK COMPATIBILITY IDEOGRAPH-FA34", aliases: &[] },
        Codepoint { codepoint: 0xFA35, name: "CJK COMPATIBILITY IDEOGRAPH-FA35", aliases: &[] },
        Codepoint { codepoint: 0xFA36, name: "CJK COMPATIBILITY IDEOGRAPH-FA36", aliases: &[] },
        Codepoint { codepoint: 0xFA37, name: "CJK COMPATIBILITY IDEOGRAPH-FA37", aliases: &[] },
        Codepoint { codepoint: 0xFA38, name: "CJK COMPATIBILITY IDEOGRAPH-FA38", aliases: &[] },
        Codepoint { codepoint: 0xFA39, name: "CJK COMPATIBILITY IDEOGRAPH-FA39", aliases: &[] },
        Codepoint { codepoint: 0xFA3A, name: "CJK COMPATIBILITY IDEOGRAPH-FA3A", aliases: &[] },
        Codepoint { codepoint: 0xFA3B, name: "CJK COMPATIBILITY IDEOGRAPH-FA3B", aliases: &[] },
        Codepoint { codepoint: 0xFA3C, name: "CJK COMPATIBILITY IDEOGRAPH-FA3C", aliases: &[] },
        Codepoint { codepoint: 0xFA3D, name: "CJK COMPATIBILITY IDEOGRAPH-FA3D", aliases: &[] },
        Codepoint { codepoint: 0xFA3E, name: "CJK COMPATIBILITY IDEOGRAPH-FA3E", aliases: &[] },
        Codepoint { codepoint: 0xFA3F, name: "CJK COMPATIBILITY IDEOGRAPH-FA3F", aliases: &[] },
        Codepoint { codepoint: 0xFA40, name: "CJK COMPATIBILITY IDEOGRAPH-FA40", aliases: &[] },
        Codepoint { codepoint: 0xFA41, name: "CJK COMPATIBILITY IDEOGRAPH-FA41", aliases: &[] },
        Codepoint { codepoint: 0xFA42, name: "CJK COMPATIBILITY IDEOGRAPH-FA42", aliases: &[] },
        Codepoint { codepoint: 0xFA43, name: "CJK COMPATIBILITY IDEOGRAPH-FA43", aliases: &[] },
        Codepoint { codepoint: 0xFA44, name: "CJK COMPATIBILITY IDEOGRAPH-FA44", aliases: &[] },
        Codepoint { codepoint: 0xFA45, name: "CJK COMPATIBILITY IDEOGRAPH-FA45", aliases: &[] },
        Codepoint { codepoint: 0xFA46, name: "CJK COMPATIBILITY IDEOGRAPH-FA46", aliases: &[] },
        Codepoint { codepoint: 0xFA47, name: "CJK COMPATIBILITY IDEOGRAPH-FA47", aliases: &[] },
        Codepoint { codepoint: 0xFA48, name: "CJK COMPATIBILITY IDEOGRAPH-FA48", aliases: &[] },
        Codepoint { codepoint: 0xFA49, name: "CJK COMPATIBILITY IDEOGRAPH-FA49", aliases: &[] },
        Codepoint { codepoint: 0xFA4A, name: "CJK COMPATIBILITY IDEOGRAPH-FA4A", aliases: &[] },
        Codepoint { codepoint: 0xFA4B, name: "CJK COMPATIBILITY IDEOGRAPH-FA4B", aliases: &[] },
        Codepoint { codepoint: 0xFA4C, name: "CJK COMPATIBILITY IDEOGRAPH-FA4C", aliases: &[] },
        Codepoint { codepoint: 0xFA4D, name: "CJK COMPATIBILITY IDEOGRAPH-FA4D", aliases: &[] },
        Codepoint { codepoint: 0xFA4E, name: "CJK COMPATIBILITY IDEOGRAPH-FA4E", aliases: &[] },
        Codepoint { codepoint: 0xFA4F, name: "CJK COMPATIBILITY IDEOGRAPH-FA4F", aliases: &[] },
        Codepoint { codepoint: 0xFA50, name: "CJK COMPATIBILITY IDEOGRAPH-FA50", aliases: &[] },
        Codepoint { codepoint: 0xFA51, name: "CJK COMPATIBILITY IDEOGRAPH-FA51", aliases: &[] },
        Codepoint { codepoint: 0xFA52, name: "CJK COMPATIBILITY IDEOGRAPH-FA52", aliases: &[] },
        Codepoint { codepoint: 0xFA53, name: "CJK COMPATIBILITY IDEOGRAPH-FA53", aliases: &[] },
        Codepoint { codepoint: 0xFA54, name: "CJK COMPATIBILITY IDEOGRAPH-FA54", aliases: &[] },
        Codepoint { codepoint: 0xFA55, name: "CJK COMPATIBILITY IDEOGRAPH-FA55", aliases: &[] },
    ];
    assert(v@ =~= codepoint_table_389());
    v
}

pub open spec fn codepoint_table_390() -> Seq<Codepoint> {
    seq![
        Codepoint { codepoint: 0xFA56, name: "CJK COMPATIBILITY IDEOGRAPH-FA56", aliases: &[] },
        Codepoint { codepoint: 0xFA57, name: "CJK COMPATIBILITY IDEOGRAPH-FA57", aliases: &[] },
        Codepoint { codepoint: 0xFA58, name: "CJK COMPATIBILITY IDEOGRAPH-FA58", aliases: &[] },
        Codepoint { codepoint: 0xFA59, name: "CJK COMPATIBILITY IDEOGRAPH-FA59", aliases: &[] },
        Codepoint { codepoint: 0xFA5A, name: "CJK COMPATIBILITY IDEOGRAPH-FA5A", aliases: &[] },
        Codepoint { codepoint: 0xFA5B, name: "CJK COMPATIBILITY IDEOGRAPH-FA5B", aliases: &[] },
        Codepoint { codepoint: 0xFA5C, name: "CJK COMPATIBILITY IDEOGRAPH-FA5C", aliases: &[] },
        Codepoint { codepoint: 0xFA5D, name: "CJK COMPATIBILITY IDEOGRAPH-FA5D", aliases: &[] },
        Codepoint { codepoint: 0xFA5E, name: "CJK COMPATIBILITY IDEOGRAPH-FA5E", aliases: &[] },
        Codepoint { codepoint: 0xFA5F, name: "CJK COMPATIBILITY IDEOGRAPH-FA5F", aliases: &[] },
        Codepoint { codepoint: 0xFA60, name: "CJK COMPATIBILITY IDEOGRAPH-FA60", aliases: &[] },
        Codepoint { codepoint: 0xFA61, name: "CJK COMPATIBILITY IDEOGRAPH-FA61", aliases: &[] },
        Codepoint { codepoint: 0xFA62, name: "CJK COMPATIBILITY IDEOGRAPH-FA62", aliases: &[] },
        Codepoint { codepoint: 0xFA63, name: "CJK COMPATIBILITY IDEOGRAPH-FA63", aliases: &[] },
        Codepoint { codepoint: 0xFA64, name: "CJK COMPATIBILITY IDEOGRAPH-FA64", aliases: &[] },
        Codepoint { codepoint: 0xFA65, name: "CJK COMPATIBILITY IDEOGRAPH-FA65", aliases: &[] },
        Codepoint { codepoint: 0xFA66, name: "CJK COMPATIBILITY IDEOGRAPH-FA66", aliases: &[] },
        Codepoint { codepoint: 0xFA67, name: "CJK COMPATIBILITY IDEOGRAPH-FA67", aliases: &[] },
        Codepoint { codepoint: 0xFA68, name: "CJK COMPATIBILITY IDEOGRAPH-FA68", aliases: &[] },
        Codepoint { codepoint: 0xFA69, name: "CJK COMPATIBILITY IDEOGRAPH-FA69", aliases: &[] },
        Codepoint { codepoint: 0xFA6A, name: "CJK COMPATIBILITY IDEOGRAPH-FA6A", aliases: &[] },
        Codepoint { codepoint: 0xFA6B, name: "CJK COMPATIBILITY IDEOGRAPH-FA6B", aliases: &[] },
        Codepoint { codepoint: 0xFA6C, name: "CJK COMPATIBILITY IDEOGRAPH-FA6C", aliases: &[] },
        Codepoint { codepoint: 0xFA6D, name: "CJK COMPATIBILITY IDEOGRAPH-FA6D", aliases: &[] },
        Codepoint { codepoint: 0xFA70, name: "CJK COMPATIBILITY IDEOGRAPH-FA70", aliases: &[] },
        Codepoint { codepoint: 0xFA71, name: "CJK COMPATIBILITY IDEOGRAPH-FA71", aliases: &[] },
        Codepoint { codepoint: 0xFA72, name: "CJK COMPATIBILITY IDEOGRAPH-FA72", aliases: &[] },
        Codepoint { codepoint: 0xFA73, name: "CJK COMPATIBILITY IDEOGRAPH-FA73", aliases: &[] },
        Codepoint { codepoint: 0xFA74, name: "CJK COMPATIBILITY IDEOGRAPH-FA74", aliases: &[] },
        Codepoint { codepoint: 0xFA75, name: "CJK COMPATIBILITY IDEOGRAPH-FA75", aliases: &[] },
        Codepoint { codepoint: 0xFA76, name: "CJK COMPATIBILITY IDEOGRAPH-FA76", aliases: &[] },
        Codepoint { codepoint: 0xFA77, name: "CJK COMPATIBILITY IDEOGRAPH-FA77", aliases: &[] },
        Codepoint { codepoint: 0xFA78, name: "CJK COMPATIBILITY IDEOGRAPH-FA78", aliases: &[] },
        Codepoint { codepoint: 0xFA79, name: "CJK COMPATIBILITY IDEOGRAPH-FA79", aliases: &[] },
        Codepoint { codepoint: 0xFA7A, name: "CJK COMPATIBILITY IDEOGRAPH-FA7A", aliases: &[] },
        Codepoint { codepoint: 0xFA7B, name: "CJK COMPATIBILITY IDEOGRAPH-FA7B", aliases: &[] },
        Codepoint { codepoint: 0xFA7C, name: "CJK COMPATIBILITY IDEOGRAPH-FA7C", aliases: &[] },
        Codepoint { codepoint: 0xFA7D, name: "CJK COMPATIBILITY IDEOGRAPH-FA7D", aliases: &[] },
        Codepoint { codepoint: 0xFA7E, name: "CJK COMPATIBILITY IDEOGRAPH-FA7E", aliases: &[] },
        Codepoint { codepoint: 0xFA7F, name: "CJK COMPATIBILITY IDEOGRAPH-FA7F", aliases: &[] },
    ]
}

fn all_codepoints_390() -> (v: Vec<Codepoint>)
    ensures
        v@ == codepoint_table_390(),
{
    let v = vec![
        Codepoint { codepoint: 0xFA56, name: "CJK COMPATIBILITY IDEOGRAPH-FA56", aliases: &[] },
        Codepoint { codepoint: 0xFA57, name: "CJK COMPATIBILITY IDEOGRAPH-FA57", aliases: &[] },
        Codepoint { codepoint: 0xFA58, name: "CJK COMPATIBILITY IDEOGRAPH-FA58", aliases: &[] },
        Codepoint { codepoint: 0xFA59, name: "CJK COMPATIBILITY IDEOGRAPH-FA59", aliases: &[] },
        Codepoint { codepoint: 0xFA5A, name: "CJK COMPATIBILITY IDEOGRAPH-FA5A", aliases: &[] },
        Codepoint { codepoint: 0xFA5B, name: "CJK COMPATIBILITY IDEOGRAPH-FA5B", aliases: &[] },
        Codepoint { codepoint: 0xFA5C, name: "CJK COMPATIBILITY IDEOGRAPH-FA5C", aliases: &[] },
        Codepoint { codepoint: 0xFA5D, name: "CJK COMPATIBILITY IDEOGRAPH-FA5D", aliases: &[] },
        Codepoint { codepoint: 0xFA5E, name: "CJK COMPATIBILITY IDEOGRAPH-FA5E", aliases: &[] },
        Codepoint { codepoint: 0xFA5F, name: "CJK COMPATIBILITY IDEOGRAPH-FA5F", aliases: &[] },
        Codepoint { codepoint: 0xFA60, name: "CJK COMPATIBILITY IDEOGRAPH-FA60", aliases: &[] },
        Codepoint { codepoint: 0xFA61, name: "CJK COMPATIBILITY IDEOGRAPH-FA61", aliases: &[] },
        Codepoint { codepoint: 0xFA62, name: "CJK COMPATIBILITY IDEOGRAPH-FA62", aliases: &[] },
        Codepoint { codepoint: 0xFA63, name: "CJK COMPATIBILITY IDEOGRAPH-FA63", aliases: &[] },
        Codepoint { codepoint: 0xFA64, name: "CJK COMPATIBILITY IDEOGRAPH-FA64", aliases: &[] },
        Codepoint { codepoint: 0xFA65, name: "CJK COMPATIBILITY IDEOGRAPH-FA65", aliases: &[] },
        Codepoint { codepoint: 0xFA66, name: "CJK COMPATIBILITY IDEOGRAPH-FA66", aliases: &[] },
        Codepoint { codepoint: 0xFA67, name: "CJK COMPATIBILITY IDEOGRAPH-FA67", aliases: &[] },
        Codepoint { codepoint: 0xFA68, name: "CJK COMPATIBILITY IDEOGRAPH-FA68", aliases: &[] },
        Codepoint { codepoint: 0xFA69, name: "CJK COMPATIBILITY IDEOGRAPH-FA69", aliases: &[] },
        Codepoint { codepoint: 0xFA6A, name: "CJK COMPATIBILITY IDEOGRAPH-FA6A", aliases: &[] },
        Codepoint { codepoint: 0xFA6B, name: "CJK COMPATIBILITY IDEOGRAPH-FA6B", aliases: &[] },
        Codepoint { codepoint: 0xFA6C, name: "CJK COMPATIBILITY IDEOGRAPH-FA6C", aliases: &[] },
        Codepoint { codepoint: 0xFA6D, name: "CJK COMPATIBILITY IDEOGRAPH-FA6D", aliases: &[] },
        Codepoint { codepoint: 0xFA70, name: "CJK COMPATIBILITY IDEOGRAPH-FA70", aliases: &[] },
        Codepoint { codepoint: 0xFA71, name: "CJK COMPATIBILITY IDEOGRAPH-FA71", aliases: &[] },
        Codepoint { codepoint: 0xFA72, name: "CJK COMPATIBILITY IDEOGRAPH-FA72", aliases: &[] },
        Codepoint { codepoint: 0xFA73, name: "CJK COMPATIBILITY IDEOGRAPH-FA73", aliases: &[] },
        Codepoint { codepoint: 0xFA74, name: "CJK COMPATIBILITY IDEOGRAPH-FA74", aliases: &[] },
        Codepoint { codepoint: 0xFA75, name: "CJK COMPATIBILITY IDEOGRAPH-FA75", aliases: &[] },
        Codepoint { codepoint: 0xFA76, name: "CJK COMPATIBILITY IDEOGRAPH-FA76", aliases: &[] },
        Codepoint { codepoint: 0xFA77, name: "CJK COMPATIBILITY IDEOGRAPH-FA77", aliases: &[] },
        Codepoint { codepoint: 0xFA78, name: "CJK COMPATIBILITY IDEOGRAPH-FA78", aliases: &[] },
        Codepoint { codepoint: 0xFA79, name: "CJK COMPATIBILITY IDEOGRAPH-FA79", aliases: &[] },
        Codepoint { codepoint: 0xFA7A, name: "CJK COMPATIBILITY IDEOGRAPH-FA7A", aliases: &[] },
        Codepoint { codepoint: 0xFA7B, name: "CJK COMPATIBILITY IDEOGRAPH-FA7B", aliases: &[] },
        Codepoint { codepoint: 0xFA7C, name: "CJK COMPATIBILITY IDEOGRAPH-FA7C", aliases: &[] },
        Codepoint { codepoint: 0xFA7D, name: "CJK COMPATIBILITY IDEOGRAPH-FA7D", aliases: &[] },
        Codepoint { codepoint: 0xFA7E, name: "CJK COMPATIBILITY IDEOGRAPH-FA7E", aliases: &[] },
        Codepoint { codepoint: 0xFA7F, name: "CJK COMPATIBILITY IDEOGRAPH-FA7F", aliases: &[] },
    ];
    assert(v@ =~= codepoint_table_390());
    v
}

pub open spec fn codepoint_table_391() -> Seq<Codepoint> {
    seq![
        Codepoint { codepoint: 0xFA80, name: "CJK COMPATIBILITY IDEOGRAPH-FA80", aliases: &[] },
        Codepoint { codepoint: 0xFA81, name: "CJK COMPATIBILITY IDEOGRAPH-FA81", aliases: &[] },
        Codepoint { codepoint: 0xFA82, name: "CJK COMPATIBILITY IDEOGRAPH-FA82", aliases: &[] },
        Codepoint { codepoint: 0xFA83, name: "CJK COMPATIBILITY IDEOGRAPH-FA83", aliases: &[] },
        Codepoint { codepoint: 0xFA84, name: "CJK COMPATIBILITY IDEOGRAPH-FA84", aliases: &[] },
        Codepoint { codepoint: 0xFA85, name: "CJK COMPATIBILITY IDEOGRAPH-FA85", aliases: &[] },
        Codepoint { codepoint: 0xFA86, name: "CJK COMPATIBILITY IDEOGRAPH-FA86", aliases: &[] },
        Codepoint { codepoint: 0xFA87, name: "CJK COMPATIBILITY IDEOGRAPH-FA87", aliases: &[] },
        Codepoint { codepoint: 0xFA88, name: "CJK COMPATIBILITY IDEOGRAPH-FA88", aliases: &[] },
        Codepoint { codepoint: 0xFA89, name: "CJK COMPATIBILITY IDEOGRAPH-FA89", aliases: &[] },
        Codepoint { codepoint: 0xFA8A, name: "CJK COMPATIBILITY IDEOGRAPH-FA8A", aliases: &[] },
        Codepoint { codepoint: 0xFA8B, name: "CJK COMPATIBILITY IDEOGRAPH-FA8B", aliases: &[] },
        Codepoint { codepoint: 0xFA8C, name: "CJK COMPATIBILITY IDEOGRAPH-FA8C", aliases: &[] },
        Codepoint { codepoint: 0xFA8D, name: "CJK COMPATIBILITY IDEOGRAPH-FA8D", aliases: &[] },
        Codepoint { codepoint: 0xFA8E, name: "CJK COMPATIBILITY IDEOGRAPH-FA8E", aliases: &[] },
        Codepoint { codepoint: 0xFA8F, name: "CJK COMPATIBILITY IDEOGRAPH-FA8F", aliases: &[] },
        Codepoint { codepoint: 0xFA90, name: "CJK COMPATIBILITY IDEOGRAPH-FA90", aliases: &[] },
        Codepoint { codepoint: 0xFA91, name: "CJK COMPATIBILITY IDEOGRAPH-FA91", aliases: &[] },
        Codepoint { codepoint: 0xFA92, name: "CJK COMPATIBILITY IDEOGRAPH-FA92", aliases: &[] },
        Codepoint { codepoint: 0xFA93, name: "CJK COMPATIBILITY IDEOGRAPH-FA93", aliases: &[] },
        Codepoint { codepoint: 0xFA94, name: "CJK COMPATIBILITY IDEOGRAPH-FA94", aliases: &[] },
        Codepoint { codepoint: 0xFA95, name: "CJK COMPATIBILITY IDEOGRAPH-FA95", aliases: &[] },
        Codepoint { codepoint: 0xFA96, name: "CJK COMPATIBILITY IDEOGRAPH-FA96", aliases: &[] },
        Codepoint { codepoint: 0xFA97, name: "CJK COMPATIBILITY IDEOGRAPH-FA97", aliases: &[] },
        Codepoint { codepoint: 0xFA98, name: "CJK COMPATIBILITY IDEOGRAPH-FA98", aliases: &[] },
        Codepoint { codepoint: 0xFA99, name: "CJK COMPATIBILITY IDEOGRAPH-FA99", aliases: &[] },
        Codepoint { codepoint: 0xFA9A, name: "CJK COMPATIBILITY IDEOGRAPH-FA9A", aliases: &[] },
        Codepoint { codepoint: 0xFA9B, name: "CJK COMPATIBILITY IDEOGRAPH-FA9B", aliases: &[] },
        Codepoint { codepoint: 0xFA9C, name: "CJK COMPATIBILITY IDEOGRAPH-FA9C", aliases: &[] },
        Codepoint { codepoint: 0xFA9D, name: "CJK COMPATIBILITY IDEOGRAPH-FA9D", aliases: &[] },
        Codepoint { codepoint: 0xFA9E, name: "CJK COMPATIBILITY IDEOGRAPH-FA9E", aliases: &[] },
        Codepoint { codepoint: 0xFA9F, name: "CJK COMPATIBILITY IDEOGRAPH-FA9F", aliases: &[] },
        Codepoint { codepoint: 0xFAA0, name: "CJK COMPATIBILITY IDEOGRAPH-FAA0", aliases: &[] },
        Codepoint { codepoint: 0xFAA1, name: "CJK COMPATIBILITY IDEOGRAPH-FAA1", aliases: &[] },
        Codepoint { codepoint: 0xFAA2, name: "CJK COMPATIBILITY IDEOGRAPH-FAA2", aliases: &[] },
        Codepoint { codepoint: 0xFAA3, name: "CJK COMPATIBILITY IDEOGRAPH-FAA3", aliases: &[] },
        Codepoint { codepoint: 0xFAA4, name: "CJK COMPATIBILITY IDEOGRAPH-FAA4", aliases: &[] },
        Codepoint { codepoint: 0xFAA5, name: "CJK COMPATIBILITY IDEOGRAPH-FAA5", aliases: &[] },
        Codepoint { codepoint: 0xFAA6, name: "CJK COMPATIBILITY IDEOGRAPH-FAA6", aliases: &[] },
        Codepoint { codepoint: 0xFAA7, name: "CJK COMPATIBILITY IDEOGRAPH-FAA7", aliases: &[] },
    ]
}

fn all_codepoints_391() -> (v: Vec<Codepoint>)
    ensures
        v@ == codepoint_table_391(),
{
    let v = vec![
        Codepoint { codepoint: 0xFA80, name: "CJK COMPATIBILITY IDEOGRAPH-FA80", aliases: &[] },
        Codepoint { codepoint: 0xFA81, name: "CJK COMPATIBILITY IDEOGRAPH-FA81", aliases: &[] },
        Codepoint { codepoint: 0xFA82, name: "CJK COMPATIBILITY IDEOGRAPH-FA82", aliases: &[] },
        Codepoint { codepoint: 0xFA83, name: "CJK COMPATIBILITY IDEOGRAPH-FA83", aliases: &[] },
        Codepoint { codepoint: 0xFA84, name: "CJK COMPATIBILITY IDEOGRAPH-FA84", aliases: &[] },
        Codepoint { codepoint: 0xFA85, name: "CJK COMPATIBILITY IDEOGRAPH-FA85", aliases: &[] },
        Codepoint { codepoint: 0xFA86, name: "CJK COMPATIBILITY IDEOGRAPH-FA86", aliases: &[] },
        Codepoint { codepoint: 0xFA87, name: "CJK COMPATIBILITY IDEOGRAPH-FA87", aliases: &[] },
        Codepoint { codepoint: 0xFA88, name: "CJK COMPATIBILITY IDEOGRAPH-FA88", aliases: &[] },
        Codepoint { codepoint: 0xFA89, name: "CJK COMPATIBILITY IDEOGRAPH-FA89", aliases: &[] },
        Codepoint { codepoint: 0xFA8A, name: "CJK COMPATIBILITY IDEOGRAPH-FA8A", aliases: &[] },
        Codepoint { codepoint: 0xFA8B, name: "CJK COMPATIBILITY IDEOGRAPH-FA8B", aliases: &[] },
        Codepoint { codepoint: 0xFA8C, name: "CJK COMPATIBILITY IDEOGRAPH-FA8C", aliases: &[] },
        Codepoint { codepoint: 0xFA8D, name: "CJK COMPATIBILITY IDEOGRAPH-FA8D", aliases: &[] },
        Codepoint { codepoint: 0xFA8E, name: "CJK COMPATIBILITY IDEOGRAPH-FA8E", aliases: &[] },
        Codepoint { codepoint: 0xFA8F, name: "CJK COMPATIBILITY IDEOGRAPH-FA8F", aliases: &[] },
        Codepoint { codepoint: 0xFA90, name: "CJK COMPATIBILITY IDEOGRAPH-FA90", aliases: &[] },
        Codepoint { codepoint: 0xFA91, name: "CJK COMPATIBILITY IDEOGRAPH-FA91", aliases: &[] },
        Codepoint { codepoint: 0xFA92, name: "CJK COMPATIBILITY IDEOGRAPH-FA92", aliases: &[] },
        Codepoint { codepoint: 0xFA93, name: "CJK COMPATIBILITY IDEOGRAPH-FA93", aliases: &[] },
        Codepoint { codepoint: 0xFA94, name: "CJK COMPATIBILITY IDEOGRAPH-FA94", aliases: &[] },
        Codepoint { codepoint: 0xFA95, name: "CJK COMPATIBILITY IDEOGRAPH-FA95", aliases: &[] },
        Codepoint { codepoint: 0xFA96, name: "CJK COMPATIBILITY IDEOGRAPH-FA96", aliases: &[] },
        Codepoint { codepoint: 0xFA97, name: "CJK COMPATIBILITY IDEOGRAPH-FA97", aliases: &[] },
        Codepoint { codepoint: 0xFA98, name: "CJK COMPATIBILITY IDEOGRAPH-FA98", aliases: &[] },
        Codepoint { codepoint: 0xFA99, name: "CJK COMPATIBILITY IDEOGRAPH-FA99", aliases: &[] },
        Codepoint { codepoint: 0xFA9A, name: "CJK COMPATIBILITY IDEOGRAPH-FA9A", aliases: &[] },
        Codepoint { codepoint: 0xFA9B, name: "CJK COMPATIBILITY IDEOGRAPH-FA9B", aliases: &[] },
        Codepoint { codepoint: 0xFA9C, name: "CJK COMPATIBILITY IDEOGRAPH-FA9C", aliases: &[] },
        Codepoint { codepoint: 0xFA9D, name: "CJK COMPATIBILITY IDEOGRAPH-FA9D", aliases: &[] },
        Codepoint { codepoint: 0xFA9E, name: "CJK COMPATIBILITY IDEOGRAPH-FA9E", aliases: &[] },
        Codepoint { codepoint: 0xFA9F, name: "CJK COMPATIBILITY IDEOGRAPH-FA9F", aliases: &[] },
        Codepoint { codepoint: 0xFAA0, name: "CJK COMPATIBILITY IDEOGRAPH-FAA0", aliases: &[] },
        Codepoint { codepoint: 0xFAA1, name: "CJK COMPATIBILITY IDEOGRAPH-FAA1", aliases: &[] },
        Codepoint { codepoint: 0xFAA2, name: "CJK COMPATIBILITY IDEOGRAPH-FAA2", aliases: &[] },
        Codepoint { codepoint: 0xFAA3, name: "CJK COMPATIBILITY IDEOGRAPH-FAA3", aliases: &[] },
        Codepoint { codepoint: 0xFAA4, name: "CJK COMPATIBILITY IDEOGRAPH-FAA4", aliases: &[] },
        Codepoint { codepoint: 0xFAA5, name: "CJK COMPATIBILITY IDEOGRAPH-FAA5", aliases: &[] },
        Codepoint { codepoint: 0xFAA6, name: "CJK COMPATIBILITY IDEOGRAPH-FAA6", aliases: &[] },
        Codepoint { codepoint: 0xFAA7, name: "CJK COMPATIBILITY IDEOGRAPH-FAA7", aliases: &[] },
    ];
    assert(v@ =~= codepoint_table_391());
    v
}

pub open spec fn codepoint_table_392() -> Seq<Codepoint> {
    seq![
        Codepoint { codepoint: 0xFAA8, name: "CJK COMPATIBILITY IDEOGRAPH-FAA8", aliases: &[] },
        Codepoint { codepoint: 0xFAA9, name: "CJK COMPATIBILITY IDEOGRAPH-FAA9", aliases: &[] },
        Codepoint { codepoint: 0xFAAA, name: "CJK COMPATIBILITY IDEOGRAPH-FAAA", aliases: &[] },
        Codepoint { codepoint: 0xFAAB, name: "CJK COMPATIBILITY IDEOGRAPH-FAAB", aliases: &[] },
        Codepoint { codepoint: 0xFAAC, name: "CJK COMPATIBILITY IDEOGRAPH-FAAC", aliases: &[] },
        Codepoint { codepoint: 0xFAAD, name: "CJK COMPATIBILITY IDEOGRAPH-FAAD", aliases: &[] },
        Codepoint { codepoint: 0xFAAE, name: "CJK COMPATIBILITY IDEOGRAPH-FAAE", aliases: &[] },
        Codepoint { codepoint: 0xFAAF, name: "CJK COMPATIBILITY IDEOGRAPH-FAAF", aliases: &[] },
        Codepoint { codepoint: 0xFAB0, name: "CJK COMPATIBILITY IDEOGRAPH-FAB0", aliases: &[] },
        Codepoint { codepoint: 0xFAB1, name: "CJK COMPATIBILITY IDEOGRAPH-FAB1", aliases: &[] },
        Codepoint { codepoint: 0xFAB2, name: "CJK COMPATIBILITY IDEOGRAPH-FAB2", aliases: &[] },
        Codepoint { codepoint: 0xFAB3, name: "CJK COMPATIBILITY IDEOGRAPH-FAB3", aliases: &[] },
        Codepoint { codepoint: 0xFAB4, name: "CJK COMPATIBILITY IDEOGRAPH-FAB4", aliases: &[] },
        Codepoint { codepoint: 0xFAB5, name: "CJK COMPATIBILITY IDEOGRAPH-FAB5", aliases: &[] },
        Codepoint { codepoint: 0xFAB6, name: "CJK COMPATIBILITY IDEOGRAPH-FAB6", aliases: &[] },
        Codepoint { codepoint: 0xFAB7, name: "CJK COMPATIBILITY IDEOGRAPH-FAB7", aliases: &[] },
        Codepoint { codepoint: 0xFAB8, name: "CJK COMPATIBILITY IDEOGRAPH-FAB8", aliases: &[] },
        Codepoint { codepoint: 0xFAB9, name: "CJK COMPATIBILITY IDEOGRAPH-FAB9", aliases: &[] },
        Codepoint { codepoint: 0xFABA, name: "CJK COMPATIBILITY IDEOGRAPH-FABA", aliases: &[] },
        Codepoint { codepoint: 0xFABB, name: "CJK COMPATIBILITY IDEOGRAPH-FABB", aliases: &[] },
        Codepoint { codepoint: 0xFABC, name: "CJK COMPATIBILITY IDEOGRAPH-FABC", aliases: &[] },
        Codepoint { codepoint: 0xFABD, name: "CJK COMPATIBILITY IDEOGRAPH-FABD", aliases: &[] },
        Codepoint { codepoint: 0xFABE, name: "CJK COMPATIBILITY IDEOGRAPH-FABE", aliases: &[] },
        Codepoint { codepoint: 0xFABF, name: "CJK COMPATIBILITY IDEOGRAPH-FABF", aliases: &[] },
        Codepoint { codepoint: 0xFAC0, name: "CJK COMPATIBILITY IDEOGRAPH-FAC0", aliases: &[] },
        Codepoint { codepoint: 0xFAC1, name: "CJK COMPATIBILITY IDEOGRAPH-FAC1", aliases: &[] },
        Codepoint { codepoint: 0xFAC2, name: "CJK COMPATIBILITY IDEOGRAPH-FAC2", aliases: &[] },
        Codepoint { codepoint: 0xFAC3, name: "CJK COMPATIBILITY IDEOGRAPH-FAC3", aliases: &[] },
        Codepoint { codepoint: 0xFAC4, name: "CJK COMPATIBILITY IDEOGRAPH-FAC4", aliases: &[] },
        Codepoint { codepoint: 0xFAC5, name: "CJK COMPATIBILITY IDEOGRAPH-FAC5", aliases: &[] },
        Codepoint { codepoint: 0xFAC6, name: "CJK COMPATIBILITY IDEOGRAPH-FAC6", aliases: &[] },
        Codepoint { codepoint: 0xFAC7, name: "CJK COMPATIBILITY IDEOGRAPH-FAC7", aliases: &[] },
        Codepoint { codepoint: 0xFAC8, name: "CJK COMPATIBILITY IDEOGRAPH-FAC8", aliases: &[] },
        Codepoint { codepoint: 0xFAC9, name: "CJK COMPATIBILITY IDEOGRAPH-FAC9", aliases: &[] },
        Codepoint { codepoint: 0xFACA, name: "CJK COMPATIBILITY IDEOGRAPH-FACA", aliases: &[] },
        Codepoint { codepoint: 0xFACB, name: "CJK COMPATIBILITY IDEOGRAPH-FACB", aliases: &[] },
        Codepoint { codepoint: 0xFACC, name: "CJK COMPATIBILITY IDEOGRAPH-FACC", aliases: &[] },
        Codepoint { codepoint: 0xFACD, name: "CJK COMPATIBILITY IDEOGRAPH-FACD", aliases: &[] },
        Codepoint { codepoint: 0xFACE, name: "CJK COMPATIBILITY IDEOGRAPH-FACE", aliases: &[] },
        Codepoint { codepoint: 0xFACF, name: "CJK COMPATIBILITY IDEOGRAPH-FACF", aliases: &[] },
    ]
}

fn all_codepoints_392() -> (v: Vec<Codepoint>)
    ensures
        v@ == codepoint_table_392(),
{
    let v = vec![
        Codepoint { codepoint: 0xFAA8, name: "CJK COMPATIBILITY IDEOGRAPH-FAA8", aliases: &[] },
        Codepoint { codepoint: 0xFAA9, name: "CJK COMPATIBILITY IDEOGRAPH-FAA9", aliases: &[] },
        Codepoint { codepoint: 0xFAAA, name: "CJK COMPATIBILITY IDEOGRAPH-FAAA", aliases: &[] },
        Codepoint { codepoint: 0xFAAB, name: "CJK COMPATIBILITY IDEOGRAPH-FAAB", aliases: &[] },
        Codepoint { codepoint: 0xFAAC, name: "CJK COMPATIBILITY IDEOGRAPH-FAAC", aliases: &[] },
        Codepoint { codepoint: 0xFAAD, name: "CJK COMPATIBILITY IDEOGRAPH-FAAD", aliases: &[] },
        Codepoint { codepoint: 0xFAAE, name: "CJK COMPATIBILITY IDEOGRAPH-FAAE", aliases: &[] },
        Codepoint { codepoint: 0xFAAF, name: "CJK COMPATIBILITY IDEOGRAPH-FAAF", aliases: &[] },
        Codepoint { codepoint: 0xFAB0, name: "CJK COMPATIBILITY IDEOGRAPH-FAB0", aliases: &[] },
        Codepoint { codepoint: 0xFAB1, name: "CJK COMPATIBILITY IDEOGRAPH-FAB1", aliases: &[] },
        Codepoint { codepoint: 0xFAB2, name: "CJK COMPATIBILITY IDEOGRAPH-FAB2", aliases: &[] },
        Codepoint { codepoint: 0xFAB3, name: "CJK COMPATIBILITY IDEOGRAPH-FAB3", aliases: &[] },
        Codepoint { codepoint: 0xFAB4, name: "CJK COMPATIBILITY IDEOGRAPH-FAB4", aliases: &[] },
        Codepoint { codepoint: 0xFAB5, name: "CJK COMPATIBILITY IDEOGRAPH-FAB5", aliases: &[] },
        Codepoint { codepoint: 0xFAB6, name: "CJK COMPATIBILITY IDEOGRAPH-FAB6", aliases: &[] },
        Codepoint { codepoint: 0xFAB7, name: "CJK COMPATIBILITY IDEOGRAPH-FAB7", aliases: &[] },
        Codepoint { codepoint: 0xFAB8, name: "CJK COMPATIBILITY IDEOGRAPH-FAB8", aliases: &[] },
        Codepoint { codepoint: 0xFAB9, name: "CJK COMPATIBILITY IDEOGRAPH-FAB9", aliases: &[] },
        Codepoint { codepoint: 0xFABA, name: "CJK COMPATIBILITY IDEOGRAPH-FABA", aliases: &[] },
        Codepoint { codepoint: 0xFABB, name: "CJK COMPATIBILITY IDEOGRAPH-FABB", aliases: &[] },
        Codepoint { codepoint: 0xFABC, name: "CJK COMPATIBILITY IDEOGRAPH-FABC", aliases: &[] },
        Codepoint { codepoint: 0xFABD, name: "CJK COMPATIBILITY IDEOGRAPH-FABD", aliases: &[] },
        Codepoint { codepoint: 0xFABE, name: "CJK COMPATIBILITY IDEOGRAPH-FABE", aliases: &[] },
        Codepoint { codepoint: 0xFABF, name: "CJK COMPATIBILITY IDEOGRAPH-FABF", aliases: &[] },
        Codepoint { codepoint: 0xFAC0, name: "CJK COMPATIBILITY IDEOGRAPH-FAC0", aliases: &[] },
        Codepoint { codepoint: 0xFAC1, name: "CJK COMPATIBILITY IDEOGRAPH-FAC1", aliases: &[] },
        Codepoint { codepoint: 0xFAC2, name: "CJK COMPATIBILITY IDEOGRAPH-FAC2", aliases: &[] },
        Codepoint { codepoint: 0xFAC3, name: "CJK COMPATIBILITY IDEOGRAPH-FAC3", aliases: &[] },
        Codepoint { codepoint: 0xFAC4, name: "CJK COMPATIBILITY IDEOGRAPH-FAC4", aliases: &[] },
        Codepoint { codepoint: 0xFAC5, name: "CJK COMPATIBILITY IDEOGRAPH-FAC5", aliases: &[] },
        Codepoint { codepoint: 0xFAC6, name: "CJK COMPATIBILITY IDEOGRAPH-FAC6", aliases: &[] },
        Codepoint { codepoint: 0xFAC7, name: "CJK COMPATIBILITY IDEOGRAPH-FAC7", aliases: &[] },
        Codepoint { codepoint: 0xFAC8, name: "CJK COMPATIBILITY IDEOGRAPH-FAC8", aliases: &[] },
        Codepoint { codepoint: 0xFAC9, name: "CJK COMPATIBILITY IDEOGRAPH-FAC9", aliases: &[] },
        Codepoint { codepoint: 0xFACA, name: "CJK COMPATIBILITY IDEOGRAPH-FACA", aliases: &[] },
        Codepoint { codepoint: 0xFACB, name: "CJK COMPATIBILITY IDEOGRAPH-FACB", aliases: &[] },
        Codepoint { codepoint: 0xFACC, name: "CJK COMPATIBILITY IDEOGRAPH-FACC", aliases: &[] },
        Codepoint { codepoint: 0xFACD, name: "CJK COMPATIBILITY IDEOGRAPH-FACD", aliases: &[] },
        Codepoint { codepoint: 0xFACE, name: "CJK COMPATIBILITY IDEOGRAPH-FACE", aliases: &[] },
        Codepoint { codepoint: 0xFACF, name: "CJK COMPATIBILITY IDEOGRAPH-FACF", aliases: &[] },
    ];
    assert(v@ =~= codepoint_table_392());
    v
}

pub open spec fn codepoint_table_393() -> Seq<Codepoint> {
    seq![
        Codepoint { codepoint: 0xFAD0, name: "CJK COMPATIBILITY IDEOGRAPH-FAD0", aliases: &[] },
        Codepoint { codepoint: 0xFAD1, name: "CJK COMPATIBILITY IDEOGRAPH-FAD1", aliases: &[] },
        Codepoint { codepoint: 0xFAD2, name: "CJK COMPATIBILITY IDEOGRAPH-FAD2", aliases: &[] },
        Codepoint { codepoint: 0xFAD3, name: "CJK COMPATIBILITY IDEOGRAPH-FAD3", aliases: &[] },
        Codepoint { codepoint: 0xFAD4, name: "CJK COMPATIBILITY IDEOGRAPH-FAD4", aliases: &[] },
        Codepoint { codepoint: 0xFAD5, name: "CJK COMPATIBILITY IDEOGRAPH-FAD5", aliases: &[] },
        Codepoint { codepoint: 0xFAD6, name: "CJK COMPATIBILITY IDEOGRAPH-FAD6", aliases: &[] },
        Codepoint { codepoint: 0xFAD7, name: "CJK COMPATIBILITY IDEOGRAPH-FAD7", aliases: &[] },
        Codepoint { codepoint: 0xFAD8, name: "CJK COMPATIBILITY IDEOGRAPH-FAD8", aliases: &[] },
        Codepoint { codepoint: 0xFAD9, name: "CJK COMPATIBILITY IDEOGRAPH-FAD9", aliases: &[] },
        Codepoint { codepoint: 0xFB00, name: "LATIN SMALL LIGATURE FF", aliases: &[] },
        Codepoint { codepoint: 0xFB01, name: "LATIN SMALL LIGATURE FI", aliases: &[] },
        Codepoint { codepoint: 0xFB02, name: "LATIN SMALL LIGATURE FL", aliases: &[] },
        Codepoint { codepoint: 0xFB03, name: "LATIN SMALL LIGATURE FFI", aliases: &[] },
        Codepoint { codepoint: 0xFB04, name: "LATIN SMALL LIGATURE FFL", aliases: &[] },
        Codepoint { codepoint: 0xFB05, name: "LATIN SMALL LIGATURE LONG S T", aliases: &[] },
        Codepoint { codepoint: 0xFB06, name: "LATIN SMALL LIGATURE ST", aliases: &[] },
        Codepoint { codepoint: 0xFB13, name: "ARMENIAN SMALL LIGATURE MEN NOW", aliases: &[] },
        Codepoint { codepoint: 0xFB14, name: "ARMENIAN SMALL LIGATURE MEN ECH", aliases: &[] },
        Codepoint { codepoint: 0xFB15, name: "ARMENIAN SMALL LIGATURE MEN INI", aliases: &[] },
        Codepoint { codepoint: 0xFB16, name: "ARMENIAN SMALL LIGATURE VEW NOW", aliases: &[] },
        Codepoint { codepoint: 0xFB17, name: "ARMENIAN SMALL LIGATURE MEN XEH", aliases: &[] },
        Codepoint { codepoint: 0xFB1D, name: "HEBREW LETTER YOD WITH HIRIQ", aliases: &[] },
        Codepoint { codepoint: 0xFB1E, name: "HEBREW POINT JUDEO-SPANISH VARIKA", aliases: &["HEBREW POINT VARIKA"] },
        Codepoint { codepoint: 0xFB1F, name: "HEBREW LIGATURE YIDDISH YOD YOD PATAH", aliases: &[] },
        Codepoint { codepoint: 0xFB20, name: "HEBREW LETTER ALTERNATIVE AYIN", aliases: &[] },
        Codepoint { codepoint: 0xFB21, name: "HEBREW LETTER WIDE ALEF", aliases: &[] },
        Codepoint { codepoint: 0xFB22, name: "HEBREW LETTER WIDE DALET", aliases: &[] },
        Codepoint { codepoint: 0xFB23, name: "HEBREW LETTER WIDE HE", aliases: &[] },
        Codepoint { codepoint: 0xFB24, name: "HEBREW LETTER WIDE KAF", aliases: &[] },
        Codepoint { codepoint: 0xFB25, name: "HEBREW LETTER WIDE LAMED", aliases: &[] },
        Codepoint { codepoint: 0xFB26, name: "HEBREW LETTER WIDE FINAL MEM", aliases: &[] },
        Codepoint { codepoint: 0xFB27, name: "HEBREW LETTER WIDE RESH", aliases: &[] },
        Codepoint { codepoint: 0xFB28, name: "HEBREW LETTER WIDE TAV", aliases: &[] },
        Codepoint { codepoint: 0xFB29, name: "HEBREW LETTER ALTERNATIVE PLUS SIGN", aliases: &[] },
        Codepoint { codepoint: 0xFB2A, name: "HEBREW LETTER SHIN WITH SHIN DOT", aliases: &[] },
        Codepoint { codepoint: 0xFB2B, name: "HEBREW LETTER SHIN WITH SIN DOT", aliases: &[] },
        Codepoint { codepoint: 0xFB2C, name: "HEBREW LETTER SHIN WITH DAGESH AND SHIN DOT", aliases: &[] },
        Codepoint { codepoint: 0xFB2D, name: "HEBREW LETTER SHIN WITH DAGESH AND SIN DOT", aliases: &[] },
        Codepoint { codepoint: 0xFB2E, name: "HEBREW LETTER ALEF WITH PATAH", aliases: &[] },
    ]
}

fn all_codepoints_393() -> (v: Vec<Codepoint>)
    ensures
        v@ == codepoint_table_393(),
{
    let v = vec![
        Codepoint { codepoint: 0xFAD0, name: "CJK COMPATIBILITY IDEOGRAPH-FAD0", aliases: &[] },
        Codepoint { codepoint: 0xFAD1, name: "CJK COMPATIBILITY IDEOGRAPH-FAD1", aliases: &[] },
        Codepoint { codepoint: 0xFAD2, name: "CJK COMPATIBILITY IDEOGRAPH-FAD2", aliases: &[] },
        Codepoint { codepoint: 0xFAD3, name: "CJK COMPATIBILITY IDEOGRAPH-FAD3", aliases: &[] },
        Codepoint { codepoint: 0xFAD4, name: "CJK COMPATIBILITY IDEOGRAPH-FAD4", aliases: &[] },
        Codepoint { codepoint: 0xFAD5, name: "CJK COMPATIBILITY IDEOGRAPH-FAD5", aliases: &[] },
        Codepoint { codepoint: 0xFAD6, name: "CJK COMPATIBILITY IDEOGRAPH-FAD6", aliases: &[] },
        Codepoint { codepoint: 0xFAD7, name: "CJK COMPATIBILITY IDEOGRAPH-FAD7", aliases: &[] },
        Codepoint { codepoint: 0xFAD8, name: "CJK COMPATIBILITY IDEOGRAPH-FAD8", aliases: &[] },
        Codepoint { codepoint: 0xFAD9, name: "CJK COMPATIBILITY IDEOGRAPH-FAD9", aliases: &[] },
        Codepoint { codepoint: 0xFB00, name: "LATIN SMALL LIGATURE FF", aliases: &[] },
        Codepoint { codepoint: 0xFB01, name: "LATIN SMALL LIGATURE FI", aliases: &[] },
        Codepoint { codepoint: 0xFB02, name: "LATIN SMALL LIGATURE FL", aliases: &[] },
        Codepoint { codepoint: 0xFB03, name: "LATIN SMALL LIGATURE FFI", aliases: &[] },
        Codepoint { codepoint: 0xFB04, name: "LATIN SMALL LIGATURE FFL", aliases: &[] },
        Codepoint { codepoint: 0xFB05, name: "LATIN SMALL LIGATURE LONG S T", aliases: &[] },
        Codepoint { codepoint: 0xFB06, name: "LATIN SMALL LIGATURE ST", aliases: &[] },
        Codepoint { codepoint: 0xFB13, name: "ARMENIAN SMALL LIGATURE MEN NOW", aliases: &[] },
        Codepoint { codepoint: 0xFB14, name: "ARMENIAN SMALL LIGATURE MEN ECH", aliases: &[] },
        Codepoint { codepoint: 0xFB15, name: "ARMENIAN SMALL LIGATURE MEN INI", aliases: &[] },
        Codepoint { codepoint: 0xFB16, name: "ARMENIAN SMALL LIGATURE VEW NOW", aliases: &[] },
        Codepoint { codepoint: 0xFB17, name: "ARMENIAN SMALL LIGATURE MEN XEH", aliases: &[] },
        Codepoint { codepoint: 0xFB1D, name: "HEBREW LETTER YOD WITH HIRIQ", aliases: &[] },
        Codepoint { codepoint: 0xFB1E, name: "HEBREW POINT JUDEO-SPANISH VARIKA", aliases: &["HEBREW POINT VARIKA"] },
        Codepoint { codepoint: 0xFB1F, name: "HEBREW LIGATURE YIDDISH YOD YOD PATAH", aliases: &[] },
        Codepoint { codepoint: 0xFB20, name: "HEBREW LETTER ALTERNATIVE AYIN", aliases: &[] },
        Codepoint { codepoint: 0xFB21, name: "HEBREW LETTER WIDE ALEF", aliases: &[] },
        Codepoint { codepoint: 0xFB22, name: "HEBREW LETTER WIDE DALET", aliases: &[] },
        Codepoint { codepoint: 0xFB23, name: "HEBREW LETTER WIDE HE", aliases: &[] },
        Codepoint { codepoint: 0xFB24, name: "HEBREW LETTER WIDE KAF", aliases: &[] },
        Codepoint { codepoint: 0xFB25, name: "HEBREW LETTER WIDE LAMED", aliases: &[] },
        Codepoint { codepoint: 0xFB26, name: "HEBREW LETTER WIDE FINAL MEM", aliases: &[] },
        Codepoint { codepoint: 0xFB27, name: "HEBREW LETTER WIDE RESH", aliases: &[] },
        Codepoint { codepoint: 0xFB28, name: "HEBREW LETTER WIDE TAV", aliases: &[] },
        Codepoint { codepoint: 0xFB29, name: "HEBREW LETTER ALTERNATIVE PLUS SIGN", aliases: &[] },
        Codepoint { codepoint: 0xFB2A, name: "HEBREW LETTER SHIN WITH SHIN DOT", aliases: &[] },
        Codepoint { codepoint: 0xFB2B, name: "HEBREW LETTER SHIN WITH SIN DOT", aliases: &[] },
        Codepoint { codepoint: 0xFB2C, name: "HEBREW LETTER SHIN WITH DAGESH AND SHIN DOT", aliases: &[] },
        Codepoint { codepoint: 0xFB2D, name: "HEBREW LETTER SHIN WITH DAGESH AND SIN DOT", aliases: &[] },
        Codepoint { codepoint: 0xFB2E, name: "HEBREW LETTER ALEF WITH PATAH", aliases: &[] },
    ];
    assert(v@ =~= codepoint_table_393());
    v
}

pub open spec fn codepoint_table_394() -> Seq<Codepoint> {
    seq![
        Codepoint { codepoint: 0xFB2F, name: "HEBREW LETTER ALEF WITH QAMATS", aliases: &[] },
        Codepoint { codepoint: 0xFB30, name: "HEBREW LETTER ALEF WITH MAPIQ", aliases: &[] },
        Codepoint { codepoint: 0xFB31, name: "HEBREW LETTER BET WITH DAGESH", aliases: &[] },
        Codepoint { codepoint: 0xFB32, name: "HEBREW LETTER GIMEL WITH DAGESH", aliases: &[] },
        Codepoint { codepoint: 0xFB33, name: "HEBREW LETTER DALET WITH DAGESH", aliases: &[] },
        Codepoint { codepoint: 0xFB34, name: "HEBREW LETTER HE WITH MAPIQ", aliases: &[] },
        Codepoint { codepoint: 0xFB35, name: "HEBREW LETTER VAV WITH DAGESH", aliases: &[] },
        Codepoint { codepoint: 0xFB36, name: "HEBREW LETTER ZAYIN WITH DAGESH", aliases: &[] },
        Codepoint { codepoint: 0xFB38, name: "HEBREW LETTER TET WITH DAGESH", aliases: &[] },
        Codepoint { codepoint: 0xFB39, name: "HEBREW LETTER YOD WITH DAGESH", aliases: &[] },
        Codepoint { codepoint: 0xFB3A, name: "HEBREW LETTER FINAL KAF WITH DAGESH", aliases: &[] },
        Codepoint { codepoint: 0xFB3B, name: "HEBREW LETTER KAF WITH DAGESH", aliases: &[] },
        Codepoint { codepoint: 0xFB3C, name: "HEBREW LETTER LAMED WITH DAGESH", aliases: &[] },
        Codepoint { codepoint: 0xFB3E, name: "HEBREW LETTER MEM WITH DAGESH", aliases: &[] },
        Codepoint { codepoint: 0xFB40, name: "HEBREW LETTER NUN WITH DAGESH", aliases: &[] },
        Codepoint { codepoint: 0xFB41, name: "HEBREW LETTER SAMEKH WITH DAGESH", aliases: &[] },
        Codepoint { codepoint: 0xFB43, name: "HEBREW LETTER FINAL PE WITH DAGESH", aliases: &[] },
        Codepoint { codepoint: 0xFB44, name: "HEBREW LETTER PE WITH DAGESH", aliases: &[] },
        Codepoint { codepoint: 0xFB46, name: "HEBREW LETTER TSADI WITH DAGESH", aliases: &[] },
        Codepoint { codepoint: 0xFB47, name: "HEBREW LETTER QOF WITH DAGESH", aliases: &[] },
        Codepoint { codepoint: 0xFB48, name: "HEBREW LETTER RESH WITH DAGESH", aliases: &[] },
        Codepoint { codepoint: 0xFB49, name: "HEBREW LETTER SHIN WITH DAGESH", aliases: &[] },
        Codepoint { codepoint: 0xFB4A, name: "HEBREW LETTER TAV WITH DAGESH", aliases: &[] },
        Codepoint { codepoint: 0xFB4B, name: "HEBREW LETTER VAV WITH HOLAM", aliases: &[] },
        Codepoint { codepoint: 0xFB4C, name: "HEBREW LETTER BET WITH RAFE", aliases: &[] },
        Codepoint { codepoint: 0xFB4D, name: "HEBREW LETTER KAF WITH RAFE", aliases: &[] },
        Codepoint { codepoint: 0xFB4E, name: "HEBREW LETTER PE WITH RAFE", aliases: &[] },
        Codepoint { codepoint: 0xFB4F, name: "HEBREW LIGATURE ALEF LAMED", aliases: &[] },
        Codepoint { codepoint: 0xFB50, name: "ARABIC LETTER ALEF WASLA ISOLATED FORM", aliases: &[] },
        Codepoint { codepoint: 0xFB51, name: "ARABIC LETTER ALEF WASLA FINAL FORM", aliases: &[] },
        Codepoint { codepoint: 0xFB52, name: "ARABIC LETTER BEEH ISOLATED FORM", aliases: &[] },
        Codepoint { codepoint: 0xFB53, name: "ARABIC LETTER BEEH FINAL FORM", aliases: &[] },
        Codepoint { codepoint: 0xFB54, name: "ARABIC LETTER BEEH INITIAL FORM", aliases: &[] },
        Codepoint { codepoint: 0xFB55, name: "ARABIC LETTER BEEH MEDIAL FORM", aliases: &[] },
        Codepoint { codepoint: 0xFB56, name: "ARABIC LETTER PEH ISOLATED FORM", aliases: &[] },
        Codepoint { codepoint: 0xFB57, name: "ARABIC LETTER PEH FINAL FORM", aliases: &[] },
        Codepoint { codepoint: 0xFB58, name: "ARABIC LETTER PEH INITIAL FORM", aliases: &[] },
        Codepoint { codepoint: 0xFB59, name: "ARABIC LETTER PEH MEDIAL FORM", aliases: &[] },
        Codepoint { codepoint: 0xFB5A, name: "ARABIC LETTER BEHEH ISOLATED FORM", aliases: &[] },
        Codepoint { codepoint: 0xFB5B, name: "ARABIC LETTER BEHEH FINAL FORM", aliases: &[] },
    ]
}

fn all_codepoints_394() -> (v: Vec<Codepoint>)
    ensures
        v@ == codepoint_table_394(),
{
    let v = vec![
        Codepoint { codepoint: 0xFB2F, name: "HEBREW LETTER ALEF WITH QAMATS", aliases: &[] },
        Codepoint { codepoint: 0xFB30, name: "HEBREW LETTER ALEF WITH MAPIQ", aliases: &[] },
        Codepoint { codepoint: 0xFB31, name: "HEBREW LETTER BET WITH DAGESH", aliases: &[] },
        Codepoint { codepoint: 0xFB32, name: "HEBREW LETTER GIMEL WITH DAGESH", aliases: &[] },
        Codepoint { codepoint: 0xFB33, name: "HEBREW LETTER DALET WITH DAGESH", aliases: &[] },
        Codepoint { codepoint: 0xFB34, name: "HEBREW LETTER HE WITH MAPIQ", aliases: &[] },
        Codepoint { codepoint: 0xFB35, name: "HEBREW LETTER VAV WITH DAGESH", aliases: &[] },
        Codepoint { codepoint: 0xFB36, name: "HEBREW LETTER ZAYIN WITH DAGESH", aliases: &[] },
        Codepoint { codepoint: 0xFB38, name: "HEBREW LETTER TET WITH DAGESH", aliases: &[] },
        Codepoint { codepoint: 0xFB39, name: "HEBREW LETTER YOD WITH DAGESH", aliases: &[] },
        Codepoint { codepoint: 0xFB3A, name: "HEBREW LETTER FINAL KAF WITH DAGESH", aliases: &[] },
        Codepoint { codepoint: 0xFB3B, name: "HEBREW LETTER KAF WITH DAGESH", aliases: &[] },
        Codepoint { codepoint: 0xFB3C, name: "HEBREW LETTER LAMED WITH DAGESH", aliases: &[] },
        Codepoint { codepoint: 0xFB3E, name: "HEBREW LETTER MEM WITH DAGESH", aliases: &[] },
        Codepoint { codepoint: 0xFB40, name: "HEBREW LETTER NUN WITH DAGESH", aliases: &[] },
        Codepoint { codepoint: 0xFB41, name: "HEBREW LETTER SAMEKH WITH DAGESH", aliases: &[] },
        Codepoint { codepoint: 0xFB43, name: "HEBREW LETTER FINAL PE WITH DAGESH", aliases: &[] },
        Codepoint { codepoint: 0xFB44, name: "HEBREW LETTER PE WITH DAGESH", aliases: &[] },
        Codepoint { codepoint: 0xFB46, name: "HEBREW LETTER TSADI WITH DAGESH", aliases: &[] },
        Codepoint { codepoint: 0xFB47, name: "HEBREW LETTER QOF WITH DAGESH", aliases: &[] },
        Codepoint { codepoint: 0xFB48, name: "HEBREW LETTER RESH WITH DAGESH", aliases: &[] },
        Codepoint { codepoint: 0xFB49, name: "HEBREW LETTER SHIN WITH DAGESH", aliases: &[] },
        Codepoint { codepoint: 0xFB4A, name: "HEBREW LETTER TAV WITH DAGESH", aliases: &[] },
        Codepoint { codepoint: 0xFB4B, name: "HEBREW LETTER VAV WITH HOLAM", aliases: &[] },
        Codepoint { codepoint: 0xFB4C, name: "HEBREW LETTER BET WITH RAFE", aliases: &[] },
        Codepoint { codepoint: 0xFB4D, name: "HEBREW LETTER KAF WITH RAFE", aliases: &[] },
        Codepoint { codepoint: 0xFB4E, name: "HEBREW LETTER PE WITH RAFE", aliases: &[] },
        Codepoint { codepoint: 0xFB4F, name: "HEBREW LIGATURE ALEF LAMED", aliases: &[] },
        Codepoint { codepoint: 0xFB50, name: "ARABIC LETTER ALEF WASLA ISOLATED FORM", aliases: &[] },
        Codepoint { codepoint: 0xFB51, name: "ARABIC LETTER ALEF WASLA FINAL FORM", aliases: &[] },
        Codepoint { codepoint: 0xFB52, name: "ARABIC LETTER BEEH ISOLATED FORM", aliases: &[] },
        Codepoint { codepoint: 0xFB53, name: "ARABIC LETTER BEEH FINAL FORM", aliases: &[] },
        Codepoint { codepoint: 0xFB54, name: "ARABIC LETTER BEEH INITIAL FORM", aliases: &[] },
        Codepoint { codepoint: 0xFB55, name: "ARABIC LETTER BEEH MEDIAL FORM", aliases: &[] },
        Codepoint { codepoint: 0xFB56, name: "ARABIC LETTER PEH ISOLATED FORM", aliases: &[] },
        Codepoint { codepoint: 0xFB57, name: "ARABIC LETTER PEH FINAL FORM", aliases: &[] },
        Codepoint { codepoint: 0xFB58, name: "ARABIC LETTER PEH INITIAL FORM", aliases: &[] },
        Codepoint { codepoint: 0xFB59, name: "ARABIC LETTER PEH MEDIAL FORM", aliases: &[] },
        Codepoint { codepoint: 0xFB5A, name: "ARABIC LETTER BEHEH ISOLATED FORM", aliases: &[] },
        Codepoint { codepoint: 0xFB5B, name: "ARABIC LETTER BEHEH FINAL FORM", aliases: &[] },
    ];
    assert(v@ =~= codepoint_table_394());
    v
}

pub open spec fn codepoint_table_395() -> Seq<Codepoint> {
    seq![
        Codepoint { codepoint: 0xFB5C, name: "ARABIC LETTER BEHEH INITIAL FORM", aliases: &[] },
        Codepoint { codepoint: 0xFB5D, name: "ARABIC LETTER BEHEH MEDIAL FORM", aliases: &[] },
        Codepoint { codepoint: 0xFB5E, name: "ARABIC LETTER TTEHEH ISOLATED FORM", aliases: &[] },
        Codepoint { codepoint: 0xFB5F, name: "ARABIC LETTER TTEHEH FINAL FORM", aliases: &[] },
        Codepoint { codepoint: 0xFB60, name: "ARABIC LETTER TTEHEH INITIAL FORM", aliases: &[] },
        Codepoint { codepoint: 0xFB61, name: "ARABIC LETTER TTEHEH MEDIAL FORM", aliases: &[] },
        Codepoint { codepoint: 0xFB62, name: "ARABIC LETTER TEHEH ISOLATED FORM", aliases: &[] },
        Codepoint { codepoint: 0xFB63, name: "ARABIC LETTER TEHEH FINAL FORM", aliases: &[] },
        Codepoint { codepoint: 0xFB64, name: "ARABIC LETTER TEHEH INITIAL FORM", aliases: &[] },
        Codepoint { codepoint: 0xFB65, name: "ARABIC LETTER TEHEH MEDIAL FORM", aliases: &[] },
        Codepoint { codepoint: 0xFB66, name: "ARABIC LETTER TTEH ISOLATED FORM", aliases: &[] },
        Codepoint { codepoint: 0xFB67, name: "ARABIC LETTER TTEH FINAL FORM", aliases: &[] },
        Codepoint { codepoint: 0xFB68, name: "ARABIC LETTER TTEH INITIAL FORM", aliases: &[] },
        Codepoint { codepoint: 0xFB69, name: "ARABIC LETTER TTEH MEDIAL FORM", aliases: &[] },
        Codepoint { codepoint: 0xFB6A, name: "ARABIC LETTER VEH ISOLATED FORM", aliases: &[] },
        Codepoint { codepoint: 0xFB6B, name: "ARABIC LETTER VEH FINAL FORM", aliases: &[] },
        Codepoint { codepoint: 0xFB6C, name: "ARABIC LETTER VEH INITIAL FORM", aliases: &[] },
        Codepoint { codepoint: 0xFB6D, name: "ARABIC LETTER VEH MEDIAL FORM", aliases: &[] },
        Codepoint { codepoint: 0xFB6E, name: "ARABIC LETTER PEHEH ISOLATED FORM", aliases: &[] },
        Codepoint { codepoint: 0xFB6F, name: "ARABIC LETTER PEHEH FINAL FORM", aliases: &[] },
        Codepoint { codepoint: 0xFB70, name: "ARABIC LETTER PEHEH INITIAL FORM", aliases: &[] },
        Codepoint { codepoint: 0xFB71, name: "ARABIC LETTER PEHEH MEDIAL FORM", aliases: &[] },
        Codepoint { codepoint: 0xFB72, name: "ARABIC LETTER DYEH ISOLATED FORM", aliases: &[] },
        Codepoint { codepoint: 0xFB73, name: "ARABIC LETTER DYEH FINAL FORM", aliases: &[] },
        Codepoint { codepoint: 0xFB74, name: "ARABIC LETTER DYEH INITIAL FORM", aliases: &[] },
        Codepoint { codepoint: 0xFB75, name: "ARABIC LETTER DYEH MEDIAL FORM", aliases: &[] },
        Codepoint { codepoint: 0xFB76, name: "ARABIC LETTER NYEH ISOLATED FORM", aliases: &[] },
        Codepoint { codepoint: 0xFB77, name: "ARABIC LETTER NYEH FINAL FORM", aliases: &[] },
        Codepoint { codepoint: 0xFB78, name: "ARABIC LETTER NYEH INITIAL FORM", aliases: &[] },
        Codepoint { codepoint: 0xFB79, name: "ARABIC LETTER NYEH MEDIAL FORM", aliases: &[] },
        Codepoint { codepoint: 0xFB7A, name: "ARABIC LETTER TCHEH ISOLATED FORM", aliases: &[] },
        Codepoint { codepoint: 0xFB7B, name: "ARABIC LETTER TCHEH FINAL FORM", aliases: &[] },
        Codepoint { codepoint: 0xFB7C, name: "ARABIC LETTER TCHEH INITIAL FORM", aliases: &[] },
        Codepoint { codepoint: 0xFB7D, name: "ARABIC LETTER TCHEH MEDIAL FORM", aliases: &[] },
        Codepoint { codepoint: 0xFB7E, name: "ARABIC LETTER TCHEHEH ISOLATED FORM", aliases: &[] },
        Codepoint { codepoint: 0xFB7F, name: "ARABIC LETTER TCHEHEH FINAL FORM", aliases: &[] },
        Codepoint { codepoint: 0xFB80, name: "ARABIC LETTER TCHEHEH INITIAL FORM", aliases: &[] },
        Codepoint { codepoint: 0xFB81, name: "ARABIC LETTER TCHEHEH MEDIAL FORM", aliases: &[] },
        Codepoint { codepoint: 0xFB82, name: "ARABIC LETTER DDAHAL ISOLATED FORM", aliases: &[] },
        Codepoint { codepoint: 0xFB83, name: "ARABIC LETTER DDAHAL FINAL FORM", aliases: &[] },
    ]
}

fn all_codepoints_395() -> (v: Vec<Codepoint>)
    ensures
        v@ == codepoint_table_395(),
{
    let v = vec![
        Codepoint { codepoint: 0xFB5C, name: "ARABIC LETTER BEHEH INITIAL FORM", aliases: &[] },
        Codepoint { codepoint: 0xFB5D, name: "ARABIC LETTER BEHEH MEDIAL FORM", aliases: &[] },
        Codepoint { codepoint: 0xFB5E, name: "ARABIC LETTER TTEHEH ISOLATED FORM", aliases: &[] },
        Codepoint { codepoint: 0xFB5F, name: "ARABIC LETTER TTEHEH FINAL FORM", aliases: &[] },
        Codepoint { codepoint: 0xFB60, name: "ARABIC LETTER TTEHEH INITIAL FORM", aliases: &[] },
        Codepoint { codepoint: 0xFB61, name: "ARABIC LETTER TTEHEH MEDIAL FORM", aliases: &[] },
        Codepoint { codepoint: 0xFB62, name: "ARABIC LETTER TEHEH ISOLATED FORM", aliases: &[] },
        Codepoint { codepoint: 0xFB63, name: "ARABIC LETTER TEHEH FINAL FORM", aliases: &[] },
        Codepoint { codepoint: 0xFB64, name: "ARABIC LETTER TEHEH INITIAL FORM", aliases: &[] },
        Codepoint { codepoint: 0xFB65, name: "ARABIC LETTER TEHEH MEDIAL FORM", aliases: &[] },
        Codepoint { codepoint: 0xFB66, name: "ARABIC LETTER TTEH ISOLATED FORM", aliases: &[] },
        Codepoint { codepoint: 0xFB67, name: "ARABIC LETTER TTEH FINAL FORM", aliases: &[] },
        Codepoint { codepoint: 0xFB68, name: "ARABIC LETTER TTEH INITIAL FORM", aliases: &[] },
        Codepoint { codepoint: 0xFB69, name: "ARABIC LETTER TTEH MEDIAL FORM", aliases: &[] },
        Codepoint { codepoint: 0xFB6A, name: "ARABIC LETTER VEH ISOLATED FORM", aliases: &[] },
        Codepoint { codepoint: 0xFB6B, name: "ARABIC LETTER VEH FINAL FORM", aliases: &[] },
        Codepoint { codepoint: 0xFB6C, name: "ARABIC LETTER VEH INITIAL FORM", aliases: &[] },
        Codepoint { codepoint: 0xFB6D, name: "ARABIC LETTER VEH MEDIAL FORM", aliases: &[] },
        Codepoint { codepoint: 0xFB6E, name: "ARABIC LETTER PEHEH ISOLATED FORM", aliases: &[] },
        Codepoint { codepoint: 0xFB6F, name: "ARABIC LETTER PEHEH FINAL FORM", aliases: &[] },
        Codepoint { codepoint: 0xFB70, name: "ARABIC LETTER PEHEH INITIAL FORM", aliases: &[] },
        Codepoint { codepoint: 0xFB71, name: "ARABIC LETTER PEHEH MEDIAL FORM", aliases: &[] },
        Codepoint { codepoint: 0xFB72, name: "ARABIC LETTER DYEH ISOLATED FORM", aliases: &[] },
        Codepoint { codepoint: 0xFB73, name: "ARABIC LETTER DYEH FINAL FORM", aliases: &[] },
        Codepoint { codepoint: 0xFB74, name: "ARABIC LETTER DYEH INITIAL FORM", aliases: &[] },
        Codepoint { codepoint: 0xFB75, name: "ARABIC LETTER DYEH MEDIAL FORM", aliases: &[] },
        Codepoint { codepoint: 0xFB76, name: "ARABIC LETTER NYEH ISOLATED FORM", aliases: &[] },
        Codepoint { codepoint: 0xFB77, name: "ARABIC LETTER NYEH FINAL FORM", aliases: &[] },
        Codepoint { codepoint: 0xFB78, name: "ARABIC LETTER NYEH INITIAL FORM", aliases: &[] },
        Codepoint { codepoint: 0xFB79, name: "ARABIC LETTER NYEH MEDIAL FORM", aliases: &[] },
        Codepoint { codepoint: 0xFB7A, name: "ARABIC LETTER TCHEH ISOLATED FORM", aliases: &[] },
        Codepoint { codepoint: 0xFB7B, name: "ARABIC LETTER TCHEH FINAL FORM", aliases: &[] },
        Codepoint { codepoint: 0xFB7C, name: "ARABIC LETTER TCHEH INITIAL FORM", aliases: &[] },
        Codepoint { codepoint: 0xFB7D, name: "ARABIC LETTER TCHEH MEDIAL FORM", aliases: &[] },
        Codepoint { codepoint: 0xFB7E, name: "ARABIC LETTER TCHEHEH ISOLATED FORM", aliases: &[] },
        Codepoint { codepoint: 0xFB7F, name: "ARABIC LETTER TCHEHEH FINAL FORM", aliases: &[] },
        Codepoint { codepoint: 0xFB80, name: "ARABIC LETTER TCHEHEH INITIAL FORM", aliases: &[] },
        Codepoint { codepoint: 0xFB81, name: "ARABIC LETTER TCHEHEH MEDIAL FORM", aliases: &[] },
        Codepoint { codepoint: 0xFB82, name: "ARABIC LETTER DDAHAL ISOLATED FORM", aliases: &[] },
        Codepoint { codepoint: 0xFB83, name: "ARABIC LETTER DDAHAL FINAL FORM", aliases: &[] },
    ];
    assert(v@ =~= codepoint_table_395());
    v
}

pub open spec fn codepoint_table_396() -> Seq<Codepoint> {
    seq![
        Codepoint { codepoint: 0xFB84, name: "ARABIC LETTER DAHAL ISOLATED FORM", aliases: &[] },
        Codepoint { codepoint: 0xFB85, name: "ARABIC LETTER DAHAL FINAL FORM", aliases: &[] },
        Codepoint { codepoint: 0xFB86, name: "ARABIC LETTER DUL ISOLATED FORM", aliases: &[] },
        Codepoint { codepoint: 0xFB87, name: "ARABIC LETTER DUL FINAL FORM", aliases: &[] },
        Codepoint { codepoint: 0xFB88, name: "ARABIC LETTER DDAL ISOLATED FORM", aliases: &[] },
        Codepoint { codepoint: 0xFB89, name: "ARABIC LETTER DDAL FINAL FORM", aliases: &[] },
        Codepoint { codepoint: 0xFB8A, name: "ARABIC LETTER JEH ISOLATED FORM", aliases: &[] },
        Codepoint { codepoint: 0xFB8B, name: "ARABIC LETTER JEH FINAL FORM", aliases: &[] },
        Codepoint { codepoint: 0xFB8C, name: "ARABIC LETTER RREH ISOLATED FORM", aliases: &[] },
        Codepoint { codepoint: 0xFB8D, name: "ARABIC LETTER RREH FINAL FORM", aliases: &[] },
        Codepoint { codepoint: 0xFB8E, name: "ARABIC LETTER KEHEH ISOLATED FORM", aliases: &[] },
        Codepoint { codepoint: 0xFB8F, name: "ARABIC LETTER KEHEH FINAL FORM", aliases: &[] },
        Codepoint { codepoint: 0xFB90, name: "ARABIC LETTER KEHEH INITIAL FORM", aliases: &[] },
        Codepoint { codepoint: 0xFB91, name: "ARABIC LETTER KEHEH MEDIAL FORM", aliases: &[] },
        Codepoint { codepoint: 0xFB92, name: "ARABIC LETTER GAF ISOLATED FORM", aliases: &[] },
        Codepoint { codepoint: 0xFB93, name: "ARABIC LETTER GAF FINAL FORM", aliases: &[] },
        Codepoint { codepoint: 0xFB94, name: "ARABIC LETTER GAF INITIAL FORM", aliases: &[] },
        Codepoint { codepoint: 0xFB95, name: "ARABIC LETTER GAF MEDIAL FORM", aliases: &[] },
        Codepoint { codepoint: 0xFB96, name: "ARABIC LETTER GUEH ISOLATED FORM", aliases: &[] },
        Codepoint { codepoint: 0xFB97, name: "ARABIC LETTER GUEH FINAL FORM", aliases: &[] },
        Codepoint { codepoint: 0xFB98, name: "ARABIC LETTER GUEH INITIAL FORM", aliases: &[] },
        Codepoint { codepoint: 0xFB99, name: "ARABIC LETTER GUEH MEDIAL FORM", aliases: &[] },
        Codepoint { codepoint: 0xFB9A, name: "ARABIC LETTER NGOEH ISOLATED FORM", aliases: &[] },
        Codepoint { codepoint: 0xFB9B, name: "ARABIC LETTER NGOEH FINAL FORM", aliases: &[] },
        Codepoint { codepoint: 0xFB9C, name: "ARABIC LETTER NGOEH INITIAL FORM", aliases: &[] },
        Codepoint { codepoint: 0xFB9D, name: "ARABIC LETTER NGOEH MEDIAL FORM", aliases: &[] },
        Codepoint { codepoint: 0xFB9E, name: "ARABIC LETTER NOON GHUNNA ISOLATED FORM", aliases: &[] },
        Codepoint { codepoint: 0xFB9F, name: "ARABIC LETTER NOON GHUNNA FINAL FORM", aliases: &[] },
        Codepoint { codepoint: 0xFBA0, name: "ARABIC LETTER RNOON ISOLATED FORM", aliases: &[] },
        Codepoint { codepoint: 0xFBA1, name: "ARABIC LETTER RNOON FINAL FORM", aliases: &[] },
        Codepoint { codepoint: 0xFBA2, name: "ARABIC LETTER RNOON INITIAL FORM", aliases: &[] },
        Codepoint { codepoint: 0xFBA3, name: "ARABIC LETTER RNOON MEDIAL FORM", aliases: &[] },
        Codepoint { codepoint: 0xFBA4, name: "ARABIC LETTER HEH WITH YEH ABOVE ISOLATED FORM", aliases: &[] },
        Codepoint { codepoint: 0xFBA5, name: "ARABIC LETTER HEH WITH YEH ABOVE FINAL FORM", aliases: &[] },
        Codepoint { codepoint: 0xFBA6, name: "ARABIC LETTER HEH GOAL ISOLATED FORM", aliases: &[] },
        Codepoint { codepoint: 0xFBA7, name: "ARABIC LETTER HEH GOAL FINAL FORM", aliases: &[] },
        Codepoint { codepoint: 0xFBA8, name: "ARABIC LETTER HEH GOAL INITIAL FORM", aliases: &[] },
        Codepoint { codepoint: 0xFBA9, name: "ARABIC LETTER HEH GOAL MEDIAL FORM", aliases: &[] },
        Codepoint { codepoint: 0xFBAA, name: "ARABIC LETTER HEH DOACHASHMEE ISOLATED FORM", aliases: &[] },
        Codepoint { codepoint: 0xFBAB, name: "ARABIC LETTER HEH DOACHASHMEE FINAL FORM", aliases: &[] },
    ]
}

fn all_codepoints_396() -> (v: Vec<Codepoint>)
    ensures
        v@ == codepoint_table_396(),
{
    let v = vec![
        Codepoint { codepoint: 0xFB84, name: "ARABIC LETTER DAHAL ISOLATED FORM", aliases: &[] },
        Codepoint { codepoint: 0xFB85, name: "ARABIC LETTER DAHAL FINAL FORM", aliases: &[] },
        Codepoint { codepoint: 0xFB86, name: "ARABIC LETTER DUL ISOLATED FORM", aliases: &[] },
        Codepoint { codepoint: 0xFB87, name: "ARABIC LETTER DUL FINAL FORM", aliases: &[] },
        Codepoint { codepoint: 0xFB88, name: "ARABIC LETTER DDAL ISOLATED FORM", aliases: &[] },
        Codepoint { codepoint: 0xFB89, name: "ARABIC LETTER DDAL FINAL FORM", aliases: &[] },
        Codepoint { codepoint: 0xFB8A, name: "ARABIC LETTER JEH ISOLATED FORM", aliases: &[] },
        Codepoint { codepoint: 0xFB8B, name: "ARABIC LETTER JEH FINAL FORM", aliases: &[] },
        Codepoint { codepoint: 0xFB8C, name: "ARABIC LETTER RREH ISOLATED FORM", aliases: &[] },
        Codepoint { codepoint: 0xFB8D, name: "ARABIC LETTER RREH FINAL FORM", aliases: &[] },
        Codepoint { codepoint: 0xFB8E, name: "ARABIC LETTER KEHEH ISOLATED FORM", aliases: &[] },
        Codepoint { codepoint: 0xFB8F, name: "ARABIC LETTER KEHEH FINAL FORM", aliases: &[] },
        Codepoint { codepoint: 0xFB90, name: "ARABIC LETTER KEHEH INITIAL FORM", aliases: &[] },
        Codepoint { codepoint: 0xFB91, name: "ARABIC LETTER KEHEH MEDIAL FORM", aliases: &[] },
        Codepoint { codepoint: 0xFB92, name: "ARABIC LETTER GAF ISOLATED FORM", aliases: &[] },
        Codepoint { codepoint: 0xFB93, name: "ARABIC LETTER GAF FINAL FORM", aliases: &[] },
        Codepoint { codepoint: 0xFB94, name: "ARABIC LETTER GAF INITIAL FORM", aliases: &[] },
        Codepoint { codepoint: 0xFB95, name: "ARABIC LETTER GAF MEDIAL FORM", aliases: &[] },
        Codepoint { codepoint: 0xFB96, name: "ARABIC LETTER GUEH ISOLATED FORM", aliases: &[] },
        Codepoint { codepoint: 0xFB97, name: "ARABIC LETTER GUEH FINAL FORM", aliases: &[] },
        Codepoint { codepoint: 0xFB98, name: "ARABIC LETTER GUEH INITIAL FORM", aliases: &[] },
        Codepoint { codepoint: 0xFB99, name: "ARABIC LETTER GUEH MEDIAL FORM", aliases: &[] },
        Codepoint { codepoint: 0xFB9A, name: "ARABIC LETTER NGOEH ISOLATED FORM", aliases: &[] },
        Codepoint { codepoint: 0xFB9B, name: "ARABIC LETTER NGOEH FINAL FORM", aliases: &[] },
        Codepoint { codepoint: 0xFB9C, name: "ARABIC LETTER NGOEH INITIAL FORM", aliases: &[] },
        Codepoint { codepoint: 0xFB9D, name: "ARABIC LETTER NGOEH MEDIAL FORM", aliases: &[] },
        Codepoint { codepoint: 0xFB9E, name: "ARABIC LETTER NOON GHUNNA ISOLATED FORM", aliases: &[] },
        Codepoint { codepoint: 0xFB9F, name: "ARABIC LETTER NOON GHUNNA FINAL FORM", aliases: &[] },
        Codepoint { codepoint: 0xFBA0, name: "ARABIC LETTER RNOON ISOLATED FORM", aliases: &[] },
        Codepoint { codepoint: 0xFBA1, name: "ARABIC LETTER RNOON FINAL FORM", aliases: &[] },
        Codepoint { codepoint: 0xFBA2, name: "ARABIC LETTER RNOON INITIAL FORM", aliases: &[] },
        Codepoint { codepoint: 0xFBA3, name: "ARABIC LETTER RNOON MEDIAL FORM", aliases: &[] },
        Codepoint { codepoint: 0xFBA4, name: "ARABIC LETTER HEH WITH YEH ABOVE ISOLATED FORM", aliases: &[] },
        Codepoint { codepoint: 0xFBA5, name: "ARABIC LETTER HEH WITH YEH ABOVE FINAL FORM", aliases: &[] },
        Codepoint { codepoint: 0xFBA6, name: "ARABIC LETTER HEH GOAL ISOLATED FORM", aliases: &[] },
        Codepoint { codepoint: 0xFBA7, name: "ARABIC LETTER HEH GOAL FINAL FORM", aliases: &[] },
        Codepoint { codepoint: 0xFBA8, name: "ARABIC LETTER HEH GOAL INITIAL FORM", aliases: &[] },
        Codepoint { codepoint: 0xFBA9, name: "ARABIC LETTER HEH GOAL MEDIAL FORM", aliases: &[] },
        Codepoint { codepoint: 0xFBAA, name: "ARABIC LETTER HEH DOACHASHMEE ISOLATED FORM", aliases: &[] },
        Codepoint { codepoint: 0xFBAB, name: "ARABIC LETTER HEH DOACHASHMEE FINAL FORM", aliases: &[] },
    ];
    assert(v@ =~= codepoint_table_396());
    v
}

pub open spec fn codepoint_table_397() -> Seq<Codepoint> {
    seq![
        Codepoint { codepoint: 0xFBAC, name: "ARABIC LETTER HEH DOACHASHMEE INITIAL FORM", aliases: &[] },
        Codepoint { codepoint: 0xFBAD, name: "ARABIC LETTER HEH DOACHASHMEE MEDIAL FORM", aliases: &[] },
        Codepoint { codepoint: 0xFBAE, name: "ARABIC LETTER YEH BARREE ISOLATED FORM", aliases: &[] },
        Codepoint { codepoint: 0xFBAF, name: "ARABIC LETTER YEH BARREE FINAL FORM", aliases: &[] },
        Codepoint { codepoint: 0xFBB0, name: "ARABIC LETTER YEH BARREE WITH HAMZA ABOVE ISOLATED FORM", aliases: &[] },
        Codepoint { codepoint: 0xFBB1, name: "ARABIC LETTER YEH BARREE WITH HAMZA ABOVE FINAL FORM", aliases: &[] },
        Codepoint { codepoint: 0xFBB2, name: "ARABIC SYMBOL DOT ABOVE", aliases: &[] },
        Codepoint { codepoint: 0xFBB3, name: "ARABIC SYMBOL DOT BELOW", aliases: &[] },
        Codepoint { codepoint: 0xFBB4, name: "ARABIC SYMBOL TWO DOTS ABOVE", aliases: &[] },
        Codepoint { codepoint: 0xFBB5, name: "ARABIC SYMBOL TWO DOTS BELOW", aliases: &[] },
        Codepoint { codepoint: 0xFBB6, name: "ARABIC SYMBOL THREE DOTS ABOVE", aliases: &[] },
        Codepoint { codepoint: 0xFBB7, name: "ARABIC SYMBOL THREE DOTS BELOW", aliases: &[] },
        Codepoint { codepoint: 0xFBB8, name: "ARABIC SYMBOL THREE DOTS POINTING DOWNWARDS ABOVE", aliases: &[] },
        Codepoint { codepoint: 0xFBB9, name: "ARABIC SYMBOL THREE DOTS POINTING DOWNWARDS BELOW", aliases: &[] },
        Codepoint { codepoint: 0xFBBA, name: "ARABIC SYMBOL FOUR DOTS ABOVE", aliases: &[] },
        Codepoint { codepoint: 0xFBBB, name: "ARABIC SYMBOL FOUR DOTS BELOW", aliases: &[] },
        Codepoint { codepoint: 0xFBBC, name: "ARABIC SYMBOL DOUBLE VERTICAL BAR BELOW", aliases: &[] },
        Codepoint { codepoint: 0xFBBD, name: "ARABIC SYMBOL TWO DOTS VERTICALLY ABOVE", aliases: &[] },
        Codepoint { codepoint: 0xFBBE, name: "ARABIC SYMBOL TWO DOTS VERTICALLY BELOW", aliases: &[] },
        Codepoint { codepoint: 0xFBBF, name: "ARABIC SYMBOL RING", aliases: &[] },
        Codepoint { codepoint: 0xFBC0, name: "ARABIC SYMBOL SMALL TAH ABOVE", aliases: &[] },
        Codepoint { codepoint: 0xFBC1, name: "ARABIC SYMBOL SMALL TAH BELOW", aliases: &[] },
        Codepoint { codepoint: 0xFBC2, name: "ARABIC SYMBOL WASLA ABOVE", aliases: &[] },
        Codepoint { codepoint: 0xFBD3, name: "ARABIC LETTER NG ISOLATED FORM", aliases: &[] },
        Codepoint { codepoint: 0xFBD4, name: "ARABIC LETTER NG FINAL FORM", aliases: &[] },
        Codepoint { codepoint: 0xFBD5, name: "ARABIC LETTER NG INITIAL FORM", aliases: &[] },
        Codepoint { codepoint: 0xFBD6, name: "ARABIC LETTER NG MEDIAL FORM", aliases: &[] },
        Codepoint { codepoint: 0xFBD7, name: "ARABIC LETTER U ISOLATED FORM", aliases: &[] },
        Codepoint { codepoint: 0xFBD8, name: "ARABIC LETTER U FINAL FORM", aliases: &[] },
        Codepoint { codepoint: 0xFBD9, name: "ARABIC LETTER OE ISOLATED FORM", aliases: &[] },
        Codepoint { codepoint: 0xFBDA, name: "ARABIC LETTER OE FINAL FORM", aliases: &[] },
        Codepoint { codepoint: 0xFBDB, name: "ARABIC LETTER YU ISOLATED FORM", aliases: &[] },
        Codepoint { codepoint: 0xFBDC, name: "ARABIC LETTER YU FINAL FORM", aliases: &[] },
        Codepoint { codepoint: 0xFBDD, name: "ARABIC LETTER U WITH HAMZA ABOVE ISOLATED FORM", aliases: &[] },
        Codepoint { codepoint: 0xFBDE, name: "ARABIC LETTER VE ISOLATED FORM", aliases: &[] },
        Codepoint { codepoint: 0xFBDF, name: "ARABIC LETTER VE FINAL FORM", aliases: &[] },
        Codepoint { codepoint: 0xFBE0, name: "ARABIC LETTER KIRGHIZ OE ISOLATED FORM", aliases: &[] },
        Codepoint { codepoint: 0xFBE1, name: "ARABIC LETTER KIRGHIZ OE FINAL FORM", aliases: &[] },
        Codepoint { codepoint: 0xFBE2, name: "ARABIC LETTER KIRGHIZ YU ISOLATED FORM", aliases: &[] },
        Codepoint { codepoint: 0xFBE3, name: "ARABIC LETTER KIRGHIZ YU FINAL FORM", aliases: &[] },
    ]
}

fn all_codepoints_397() -> (v: Vec<Codepoint>)
    ensures
        v@ == codepoint_table_397(),
{
    let v = vec![
        Codepoint { codepoint: 0xFBAC, name: "ARABIC LETTER HEH DOACHASHMEE INITIAL FORM", aliases: &[] },
        Codepoint { codepoint: 0xFBAD, name: "ARABIC LETTER HEH DOACHASHMEE MEDIAL FORM", aliases: &[] },
        Codepoint { codepoint: 0xFBAE, name: "ARABIC LETTER YEH BARREE ISOLATED FORM", aliases: &[] },
        Codepoint { codepoint: 0xFBAF, name: "ARABIC LETTER YEH BARREE FINAL FORM", aliases: &[] },
        Codepoint { codepoint: 0xFBB0, name: "ARABIC LETTER YEH BARREE WITH HAMZA ABOVE ISOLATED FORM", aliases: &[] },
        Codepoint { codepoint: 0xFBB1, name: "ARABIC LETTER YEH BARREE WITH HAMZA ABOVE FINAL FORM", aliases: &[] },
        Codepoint { codepoint: 0xFBB2, name: "ARABIC SYMBOL DOT ABOVE", aliases: &[] },
        Codepoint { codepoint: 0xFBB3, name: "ARABIC SYMBOL DOT BELOW", aliases: &[] },
        Codepoint { codepoint: 0xFBB4, name: "ARABIC SYMBOL TWO DOTS ABOVE", aliases: &[] },
        Codepoint { codepoint: 0xFBB5, name: "ARABIC SYMBOL TWO DOTS BELOW", aliases: &[] },
        Codepoint { codepoint: 0xFBB6, name: "ARABIC SYMBOL THREE DOTS ABOVE", aliases: &[] },
        Codepoint { codepoint: 0xFBB7, name: "ARABIC SYMBOL THREE DOTS BELOW", aliases: &[] },
        Codepoint { codepoint: 0xFBB8, name: "ARABIC SYMBOL THREE DOTS POINTING DOWNWARDS ABOVE", aliases: &[] },
        Codepoint { codepoint: 0xFBB9, name: "ARABIC SYMBOL THREE DOTS POINTING DOWNWARDS BELOW", aliases: &[] },
        Codepoint { codepoint: 0xFBBA, name: "ARABIC SYMBOL FOUR DOTS ABOVE", aliases: &[] },
        Codepoint { codepoint: 0xFBBB, name: "ARABIC SYMBOL FOUR DOTS BELOW", aliases: &[] },
        Codepoint { codepoint: 0xFBBC, name: "ARABIC SYMBOL DOUBLE VERTICAL BAR BELOW", aliases: &[] },
        Codepoint { codepoint: 0xFBBD, name: "ARABIC SYMBOL TWO DOTS VERTICALLY ABOVE", aliases: &[] },
        Codepoint { codepoint: 0xFBBE, name: "ARABIC SYMBOL TWO DOTS VERTICALLY BELOW", aliases: &[] },
        Codepoint { codepoint: 0xFBBF, name: "ARABIC SYMBOL RING", aliases: &[] },
        Codepoint { codepoint: 0xFBC0, name: "ARABIC SYMBOL SMALL TAH ABOVE", aliases: &[] },
        Codepoint { codepoint: 0xFBC1, name: "ARABIC SYMBOL SMALL TAH BELOW", aliases: &[] },
        Codepoint { codepoint: 0xFBC2, name: "ARABIC SYMBOL WASLA ABOVE", aliases: &[] },
        Codepoint { codepoint: 0xFBD3, name: "ARABIC LETTER NG ISOLATED FORM", aliases: &[] },
        Codepoint { codepoint: 0xFBD4, name: "ARABIC LETTER NG FINAL FORM", aliases: &[] },
        Codepoint { codepoint: 0xFBD5, name: "ARABIC LETTER NG INITIAL FORM", aliases: &[] },
        Codepoint { codepoint: 0xFBD6, name: "ARABIC LETTER NG MEDIAL FORM", aliases: &[] },
        Codepoint { codepoint: 0xFBD7, name: "ARABIC LETTER U ISOLATED FORM", aliases: &[] },
        Codepoint { codepoint: 0xFBD8, name: "ARABIC LETTER U FINAL FORM", aliases: &[] },
        Codepoint { codepoint: 0xFBD9, name: "ARABIC LETTER OE ISOLATED FORM", aliases: &[] },
        Codepoint { codepoint: 0xFBDA, name: "ARABIC LETTER OE FINAL FORM", aliases: &[] },
        Codepoint { codepoint: 0xFBDB, name: "ARABIC LETTER YU ISOLATED FORM", aliases: &[] },
        Codepoint { codepoint: 0xFBDC, name: "ARABIC LETTER YU FINAL FORM", aliases: &[] },
        Codepoint { codepoint: 0xFBDD, name: "ARABIC LETTER U WITH HAMZA ABOVE ISOLATED FORM", aliases: &[] },
        Codepoint { codepoint: 0xFBDE, name: "ARABIC LETTER VE ISOLATED FORM", aliases: &[] },
        Codepoint { codepoint: 0xFBDF, name: "ARABIC LETTER VE FINAL FORM", aliases: &[] },
        Codepoint { codepoint: 0xFBE0, name: "ARABIC LETTER KIRGHIZ OE ISOLATED FORM", aliases: &[] },
        Codepoint { codepoint: 0xFBE1, name: "ARABIC LETTER KIRGHIZ OE FINAL FORM", aliases: &[] },
        Codepoint { codepoint: 0xFBE2, name: "ARABIC LETTER KIRGHIZ YU ISOLATED FORM", aliases: &[] },
        Codepoint { codepoint: 0xFBE3, name: "ARABIC LETTER KIRGHIZ YU FINAL FORM", aliases: &[] },
    ];
    assert(v@ =~= codepoint_table_397());
    v
}

pub open spec fn codepoint_table_398() -> Seq<Codepoint> {
    seq![
        Codepoint { codepoint: 0xFBE4, name: "ARABIC LETTER E ISOLATED FORM", aliases: &[] },
        Codepoint { codepoint: 0xFBE5, name: "ARABIC LETTER E FINAL FORM", aliases: &[] },
        Codepoint { codepoint: 0xFBE6, name: "ARABIC LETTER E INITIAL FORM", aliases: &[] },
        Codepoint { codepoint: 0xFBE7, name: "ARABIC LETTER E MEDIAL FORM", aliases: &[] },
        Codepoint { codepoint: 0xFBE8, name: "ARABIC LETTER UIGHUR KAZAKH KIRGHIZ ALEF MAKSURA INITIAL FORM", aliases: &[] },
        Codepoint { codepoint: 0xFBE9, name: "ARABIC LETTER UIGHUR KAZAKH KIRGHIZ ALEF MAKSURA MEDIAL FORM", aliases: &[] },
        Codepoint { codepoint: 0xFBEA, name: "ARABIC LIGATURE YEH WITH HAMZA ABOVE WITH ALEF ISOLATED FORM", aliases: &[] },
        Codepoint { codepoint: 0xFBEB, name: "ARABIC LIGATURE YEH WITH HAMZA ABOVE WITH ALEF FINAL FORM", aliases: &[] },
        Codepoint { codepoint: 0xFBEC, name: "ARABIC LIGATURE YEH WITH HAMZA ABOVE WITH AE ISOLATED FORM", aliases: &[] },
        Codepoint { codepoint: 0xFBED, name: "ARABIC LIGATURE YEH WITH HAMZA ABOVE WITH AE FINAL FORM", aliases: &[] },
        Codepoint { codepoint: 0xFBEE, name: "ARABIC LIGATURE YEH WITH HAMZA ABOVE WITH WAW ISOLATED FORM", aliases: &[] },
        Codepoint { codepoint: 0xFBEF, name: "ARABIC LIGATURE YEH WITH HAMZA ABOVE WITH WAW FINAL FORM", aliases: &[] },
        Codepoint { codepoint: 0xFBF0, name: "ARABIC LIGATURE YEH WITH HAMZA ABOVE WITH U ISOLATED FORM", aliases: &[] },
        Codepoint { codepoint: 0xFBF1, name: "ARABIC LIGATURE YEH WITH HAMZA ABOVE WITH U FINAL FORM", aliases: &[] },
        Codepoint { codepoint: 0xFBF2, name: "ARABIC LIGATURE YEH WITH HAMZA ABOVE WITH OE ISOLATED FORM", aliases: &[] },
        Codepoint { codepoint: 0xFBF3, name: "ARABIC LIGATURE YEH WITH HAMZA ABOVE WITH OE FINAL FORM", aliases: &[] },
        Codepoint { codepoint: 0xFBF4, name: "ARABIC LIGATURE YEH WITH HAMZA ABOVE WITH YU ISOLATED FORM", aliases: &[] },
        Codepoint { codepoint: 0xFBF5, name: "ARABIC LIGATURE YEH WITH HAMZA ABOVE WITH YU FINAL FORM", aliases: &[] },
        Codepoint { codepoint: 0xFBF6, name: "ARABIC LIGATURE YEH WITH HAMZA ABOVE WITH E ISOLATED FORM", aliases: &[] },
        Codepoint { codepoint: 0xFBF7, name: "ARABIC LIGATURE YEH WITH HAMZA ABOVE WITH E FINAL FORM", aliases: &[] },
        Codepoint { codepoint: 0xFBF8, name: "ARABIC LIGATURE YEH WITH HAMZA ABOVE WITH E INITIAL FORM", aliases: &[] },
        Codepoint { codepoint: 0xFBF9, name: "ARABIC LIGATURE UIGHUR KIRGHIZ YEH WITH HAMZA ABOVE WITH ALEF MAKSURA ISOLATED FORM", aliases: &[] },
        Codepoint { codepoint: 0xFBFA, name: "ARABIC LIGATURE UIGHUR KIRGHIZ YEH WITH HAMZA ABOVE WITH ALEF MAKSURA FINAL FORM", aliases: &[] },
        Codepoint { codepoint: 0xFBFB, name: "ARABIC LIGATURE UIGHUR KIRGHIZ YEH WITH HAMZA ABOVE WITH ALEF MAKSURA INITIAL FORM", aliases: &[] },
        Codepoint { codepoint: 0xFBFC, name: "ARABIC LETTER FARSI YEH ISOLATED FORM", aliases: &[] },
        Codepoint { codepoint: 0xFBFD, name: "ARABIC LETTER FARSI YEH FINAL FORM", aliases: &[] },
        Codepoint { codepoint: 0xFBFE, name: "ARABIC LETTER FARSI YEH INITIAL FORM", aliases: &[] },
        Codepoint { codepoint: 0xFBFF, name: "ARABIC LETTER FARSI YEH MEDIAL FORM", aliases: &[] },
        Codepoint { codepoint: 0xFC00, name: "ARABIC LIGATURE YEH WITH HAMZA ABOVE WITH JEEM ISOLATED FORM", aliases: &[] },
        Codepoint { codepoint: 0xFC01, name: "ARABIC LIGATURE YEH WITH HAMZA ABOVE WITH HAH ISOLATED FORM", aliases: &[] },
        Codepoint { codepoint: 0xFC02, name: "ARABIC LIGATURE YEH WITH HAMZA ABOVE WITH MEEM ISOLATED FORM", aliases: &[] },
        Codepoint { codepoint: 0xFC03, name: "ARABIC LIGATURE YEH WITH HAMZA ABOVE WITH ALEF MAKSURA ISOLATED FORM", aliases: &[] },
        Codepoint { codepoint: 0xFC04, name: "ARABIC LIGATURE YEH WITH HAMZA ABOVE WITH YEH ISOLATED FORM", aliases: &[] },
        Codepoint { codepoint: 0xFC05, name: "ARABIC LIGATURE BEH WITH JEEM ISOLATED FORM", aliases: &[] },
        Codepoint { codepoint: 0xFC06, name: "ARABIC LIGATURE BEH WITH HAH ISOLATED FORM", aliases: &[] },
        Codepoint { codepoint: 0xFC07, name: "ARABIC LIGATURE BEH WITH KHAH ISOLATED FORM", aliases: &[] },
        Codepoint { codepoint: 0xFC08, name: "ARABIC LIGATURE BEH WITH MEEM ISOLATED FORM", aliases: &[] },
        Codepoint { codepoint: 0xFC09, name: "ARABIC LIGATURE BEH WITH ALEF MAKSURA ISOLATED FORM", aliases: &[] },
        Codepoint { codepoint: 0xFC0A, name: "ARABIC LIGATURE BEH WITH YEH ISOLATED FORM", aliases: &[] },
        Codepoint { codepoint: 0xFC0B, name: "ARABIC LIGATURE TEH WITH JEEM ISOLATED FORM", aliases: &[] },
    ]
}

fn all_codepoints_398() -> (v: Vec<Codepoint>)
    ensures
        v@ == codepoint_table_398(),
{
    let v = vec![
        Codepoint { codepoint: 0xFBE4, name: "ARABIC LETTER E ISOLATED FORM", aliases: &[] },
        Codepoint { codepoint: 0xFBE5, name: "ARABIC LETTER E FINAL FORM", aliases: &[] },
        Codepoint { codepoint: 0xFBE6, name: "ARABIC LETTER E INITIAL FORM", aliases: &[] },
        Codepoint { codepoint: 0xFBE7, name: "ARABIC LETTER E MEDIAL FORM", aliases: &[] },
        Codepoint { codepoint: 0xFBE8, name: "ARABIC LETTER UIGHUR KAZAKH KIRGHIZ ALEF MAKSURA INITIAL FORM", aliases: &[] },
        Codepoint { codepoint: 0xFBE9, name: "ARABIC LETTER UIGHUR KAZAKH KIRGHIZ ALEF MAKSURA MEDIAL FORM", aliases: &[] },
        Codepoint { codepoint: 0xFBEA, name: "ARABIC LIGATURE YEH WITH HAMZA ABOVE WITH ALEF ISOLATED FORM", aliases: &[] },
        Codepoint { codepoint: 0xFBEB, name: "ARABIC LIGATURE YEH WITH HAMZA ABOVE WITH ALEF FINAL FORM", aliases: &[] },
        Codepoint { codepoint: 0xFBEC, name: "ARABIC LIGATURE YEH WITH HAMZA ABOVE WITH AE ISOLATED FORM", aliases: &[] },
        Codepoint { codepoint: 0xFBED, name: "ARABIC LIGATURE YEH WITH HAMZA ABOVE WITH AE FINAL FORM", aliases: &[] },
        Codepoint { codepoint: 0xFBEE, name: "ARABIC LIGATURE YEH WITH HAMZA ABOVE WITH WAW ISOLATED FORM", aliases: &[] },
        Codepoint { codepoint: 0xFBEF, name: "ARABIC LIGATURE YEH WITH HAMZA ABOVE WITH WAW FINAL FORM", aliases: &[] },
        Codepoint { codepoint: 0xFBF0, name: "ARABIC LIGATURE YEH WITH HAMZA ABOVE WITH U ISOLATED FORM", aliases: &[] },
        Codepoint { codepoint: 0xFBF1, name: "ARABIC LIGATURE YEH WITH HAMZA ABOVE WITH U FINAL FORM", aliases: &[] },
        Codepoint { codepoint: 0xFBF2, name: "ARABIC LIGATURE YEH WITH HAMZA ABOVE WITH OE ISOLATED FORM", aliases: &[] },
        Codepoint { codepoint: 0xFBF3, name: "ARABIC LIGATURE YEH WITH HAMZA ABOVE WITH OE FINAL FORM", aliases: &[] },
        Codepoint { codepoint: 0xFBF4, name: "ARABIC LIGATURE YEH WITH HAMZA ABOVE WITH YU ISOLATED FORM", aliases: &[] },
        Codepoint { codepoint: 0xFBF5, name: "ARABIC LIGATURE YEH WITH HAMZA ABOVE WITH YU FINAL FORM", aliases: &[] },
        Codepoint { codepoint: 0xFBF6, name: "ARABIC LIGATURE YEH WITH HAMZA ABOVE WITH E ISOLATED FORM", aliases: &[] },
        Codepoint { codepoint: 0xFBF7, name: "ARABIC LIGATURE YEH WITH HAMZA ABOVE WITH E FINAL FORM", aliases: &[] },
        Codepoint { codepoint: 0xFBF8, name: "ARABIC LIGATURE YEH WITH HAMZA ABOVE WITH E INITIAL FORM", aliases: &[] },
        Codepoint { codepoint: 0xFBF9, name: "ARABIC LIGATURE UIGHUR KIRGHIZ YEH WITH HAMZA ABOVE WITH ALEF MAKSURA ISOLATED FORM", aliases: &[] },
        Codepoint { codepoint: 0xFBFA, name: "ARABIC LIGATURE UIGHUR KIRGHIZ YEH WITH HAMZA ABOVE WITH ALEF MAKSURA FINAL FORM", aliases: &[] },
        Codepoint { codepoint: 0xFBFB, name: "ARABIC LIGATURE UIGHUR KIRGHIZ YEH WITH HAMZA ABOVE WITH ALEF MAKSURA INITIAL FORM", aliases: &[] },
        Codepoint { codepoint: 0xFBFC, name: "ARABIC LETTER FARSI YEH ISOLATED FORM", aliases: &[] },
        Codepoint { codepoint: 0xFBFD, name: "ARABIC LETTER FARSI YEH FINAL FORM", aliases: &[] },
        Codepoint { codepoint: 0xFBFE, name: "ARABIC LETTER FARSI YEH INITIAL FORM", aliases: &[] },
        Codepoint { codepoint: 0xFBFF, name: "ARABIC LETTER FARSI YEH MEDIAL FORM", aliases: &[] },
        Codepoint { codepoint: 0xFC00, name: "ARABIC LIGATURE YEH WITH HAMZA ABOVE WITH JEEM ISOLATED FORM", aliases: &[] },
        Codepoint { codepoint: 0xFC01, name: "ARABIC LIGATURE YEH WITH HAMZA ABOVE WITH HAH ISOLATED FORM", aliases: &[] },
        Codepoint { codepoint: 0xFC02, name: "ARABIC LIGATURE YEH WITH HAMZA ABOVE WITH MEEM ISOLATED FORM", aliases: &[] },
        Codepoint { codepoint: 0xFC03, name: "ARABIC LIGATURE YEH WITH HAMZA ABOVE WITH ALEF MAKSURA ISOLATED FORM", aliases: &[] },
        Codepoint { codepoint: 0xFC04, name: "ARABIC LIGATURE YEH WITH HAMZA ABOVE WITH YEH ISOLATED FORM", aliases: &[] },
        Codepoint { codepoint: 0xFC05, name: "ARABIC LIGATURE BEH WITH JEEM ISOLATED FORM", aliases: &[] },
        Codepoint { codepoint: 0xFC06, name: "ARABIC LIGATURE BEH WITH HAH ISOLATED FORM", aliases: &[] },
        Codepoint { codepoint: 0xFC07, name: "ARABIC LIGATURE BEH WITH KHAH ISOLATED FORM", aliases: &[] },
        Codepoint { codepoint: 0xFC08, name: "ARABIC LIGATURE BEH WITH MEEM ISOLATED FORM", aliases: &[] },
        Codepoint { codepoint: 0xFC09, name: "ARABIC LIGATURE BEH WITH ALEF MAKSURA ISOLATED FORM", aliases: &[] },
        Codepoint { codepoint: 0xFC0A, name: "ARABIC LIGATURE BEH WITH YEH ISOLATED FORM", aliases: &[] },
        Codepoint { codepoint: 0xFC0B, name: "ARABIC LIGATURE TEH WITH JEEM ISOLATED FORM", aliases: &[] },
    ];
    assert(v@ =~= codepoint_table_398());
    v
}

pub open spec fn codepoint_table_399() -> Seq<Codepoint> {
    seq![
        Codepoint { codepoint: 0xFC0C, name: "ARABIC LIGATURE TEH WITH HAH ISOLATED FORM", aliases: &[] },
        Codepoint { codepoint: 0xFC0D, name: "ARABIC LIGATURE TEH WITH KHAH ISOLATED FORM", aliases: &[] },
        Codepoint { codepoint: 0xFC0E, name: "ARABIC LIGATURE TEH WITH MEEM ISOLATED FORM", aliases: &[] },
        Codepoint { codepoint: 0xFC0F, name: "ARABIC LIGATURE TEH WITH ALEF MAKSURA ISOLATED FORM", aliases: &[] },
        Codepoint { codepoint: 0xFC10, name: "ARABIC LIGATURE TEH WITH YEH ISOLATED FORM", aliases: &[] },
        Codepoint { codepoint: 0xFC11, name: "ARABIC LIGATURE THEH WITH JEEM ISOLATED FORM", aliases: &[] },
        Codepoint { codepoint: 0xFC12, name: "ARABIC LIGATURE THEH WITH MEEM ISOLATED FORM", aliases: &[] },
        Codepoint { codepoint: 0xFC13, name: "ARABIC LIGATURE THEH WITH ALEF MAKSURA ISOLATED FORM", aliases: &[] },
        Codepoint { codepoint: 0xFC14, name: "ARABIC LIGATURE THEH WITH YEH ISOLATED FORM", aliases: &[] },
        Codepoint { codepoint: 0xFC15, name: "ARABIC LIGATURE JEEM WITH HAH ISOLATED FORM", aliases: &[] },
        Codepoint { codepoint: 0xFC16, name: "ARABIC LIGATURE JEEM WITH MEEM ISOLATED FORM", aliases: &[] },
        Codepoint { codepoint: 0xFC17, name: "ARABIC LIGATURE HAH WITH JEEM ISOLATED FORM", aliases: &[] },
        Codepoint { codepoint: 0xFC18, name: "ARABIC LIGATURE HAH WITH MEEM ISOLATED FORM", aliases: &[] },
        Codepoint { codepoint: 0xFC19, name: "ARABIC LIGATURE KHAH WITH JEEM ISOLATED FORM", aliases: &[] },
        Codepoint { codepoint: 0xFC1A, name: "ARABIC LIGATURE KHAH WITH HAH ISOLATED FORM", aliases: &[] },
        Codepoint { codepoint: 0xFC1B, name: "ARABIC LIGATURE KHAH WITH MEEM ISOLATED FORM", aliases: &[] },
        Codepoint { codepoint: 0xFC1C, name: "ARABIC LIGATURE SEEN WITH JEEM ISOLATED FORM", aliases: &[] },
        Codepoint { codepoint: 0xFC1D, name: "ARABIC LIGATURE SEEN WITH HAH ISOLATED FORM", aliases: &[] },
        Codepoint { codepoint: 0xFC1E, name: "ARABIC LIGATURE SEEN WITH KHAH ISOLATED FORM", aliases: &[] },
        Codepoint { codepoint: 0xFC1F, name: "ARABIC LIGATURE SEEN WITH MEEM ISOLATED FORM", aliases: &[] },
        Codepoint { codepoint: 0xFC20, name: "ARABIC LIGATURE SAD WITH HAH ISOLATED FORM", aliases: &[] },
        Codepoint { codepoint: 0xFC21, name: "ARABIC LIGATURE SAD WITH MEEM ISOLATED FORM", aliases: &[] },
        Codepoint { codepoint: 0xFC22, name: "ARABIC LIGATURE DAD WITH JEEM ISOLATED FORM", aliases: &[] },
        Codepoint { codepoint: 0xFC23, name: "ARABIC LIGATURE DAD WITH HAH ISOLATED FORM", aliases: &[] },
        Codepoint { codepoint: 0xFC24, name: "ARABIC LIGATURE DAD WITH KHAH ISOLATED FORM", aliases: &[] },
        Codepoint { codepoint: 0xFC25, name: "ARABIC LIGATURE DAD WITH MEEM ISOLATED FORM", aliases: &[] },
        Codepoint { codepoint: 0xFC26, name: "ARABIC LIGATURE TAH WITH HAH ISOLATED FORM", aliases: &[] },
        Codepoint { codepoint: 0xFC27, name: "ARABIC LIGATURE TAH WITH MEEM ISOLATED FORM", aliases: &[] },
        Codepoint { codepoint: 0xFC28, name: "ARABIC LIGATURE ZAH WITH MEEM ISOLATED FORM", aliases: &[] },
        Codepoint { codepoint: 0xFC29, name: "ARABIC LIGATURE AIN WITH JEEM ISOLATED FORM", aliases: &[] },
        Codepoint { codepoint: 0xFC2A, name: "ARABIC LIGATURE AIN WITH MEEM ISOLATED FORM", aliases: &[] },
        Codepoint { codepoint: 0xFC2B, name: "ARABIC LIGATURE GHAIN WITH JEEM ISOLATED FORM", aliases: &[] },
        Codepoint { codepoint: 0xFC2C, name: "ARABIC LIGATURE GHAIN WITH MEEM ISOLATED FORM", aliases: &[] },
        Codepoint { codepoint: 0xFC2D, name: "ARABIC LIGATURE FEH WITH JEEM ISOLATED FORM", aliases: &[] },
        Codepoint { codepoint: 0xFC2E, name: "ARABIC LIGATURE FEH WITH HAH ISOLATED FORM", aliases: &[] },
        Codepoint { codepoint: 0xFC2F, name: "ARABIC LIGATURE FEH WITH KHAH ISOLATED FORM", aliases: &[] },
        Codepoint { codepoint: 0xFC30, name: "ARABIC LIGATURE FEH WITH MEEM ISOLATED FORM", aliases: &[] },
        Codepoint { codepoint: 0xFC31, name: "ARABIC LIGATURE FEH WITH ALEF MAKSURA ISOLATED FORM", aliases: &[] },
        Codepoint { codepoint: 0xFC32, name: "ARABIC LIGATURE FEH WITH YEH ISOLATED FORM", aliases: &[] },
        Codepoint { codepoint: 0xFC33, name: "ARABIC LIGATURE QAF WITH HAH ISOLATED FORM", aliases: &[] },
    ]
}

fn all_codepoints_399() -> (v: Vec<Codepoint>)
    ensures
        v@ == codepoint_table_399(),
{
    let v = vec![
        Codepoint { codepoint: 0xFC0C, name: "ARABIC LIGATURE TEH WITH HAH ISOLATED FORM", aliases: &[] },
        Codepoint { codepoint: 0xFC0D, name: "ARABIC LIGATURE TEH WITH KHAH ISOLATED FORM", aliases: &[] },
        Codepoint { codepoint: 0xFC0E, name: "ARABIC LIGATURE TEH WITH MEEM ISOLATED FORM", aliases: &[] },
        Codepoint { codepoint: 0xFC0F, name: "ARABIC LIGATURE TEH WITH ALEF MAKSURA ISOLATED FORM", aliases: &[] },
        Codepoint { codepoint: 0xFC10, name: "ARABIC LIGATURE TEH WITH YEH ISOLATED FORM", aliases: &[] },
        Codepoint { codepoint: 0xFC11, name: "ARABIC LIGATURE THEH WITH JEEM ISOLATED FORM", aliases: &[] },
        Codepoint { codepoint: 0xFC12, name: "ARABIC LIGATURE THEH WITH MEEM ISOLATED FORM", aliases: &[] },
        Codepoint { codepoint: 0xFC13, name: "ARABIC LIGATURE THEH WITH ALEF MAKSURA ISOLATED FORM", aliases: &[] },
        Codepoint { codepoint: 0xFC14, name: "ARABIC LIGATURE THEH WITH YEH ISOLATED FORM", aliases: &[] },
        Codepoint { codepoint: 0xFC15, name: "ARABIC LIGATURE JEEM WITH HAH ISOLATED FORM", aliases: &[] },
        Codepoint { codepoint: 0xFC16, name: "ARABIC LIGATURE JEEM WITH MEEM ISOLATED FORM", aliases: &[] },
        Codepoint { codepoint: 0xFC17, name: "ARABIC LIGATURE HAH WITH JEEM ISOLATED FORM", aliases: &[] },
        Codepoint { codepoint: 0xFC18, name: "ARABIC LIGATURE HAH WITH MEEM ISOLATED FORM", aliases: &[] },
        Codepoint { codepoint: 0xFC19, name: "ARABIC LIGATURE KHAH WITH JEEM ISOLATED FORM", aliases: &[] },
        Codepoint { codepoint: 0xFC1A, name: "ARABIC LIGATURE KHAH WITH HAH ISOLATED FORM", aliases: &[] },
        Codepoint { codepoint: 0xFC1B, name: "ARABIC LIGATURE KHAH WITH MEEM ISOLATED FORM", aliases: &[] },
        Codepoint { codepoint: 0xFC1C, name: "ARABIC LIGATURE SEEN WITH JEEM ISOLATED FORM", aliases: &[] },
        Codepoint { codepoint: 0xFC1D, name: "ARABIC LIGATURE SEEN WITH HAH ISOLATED FORM", aliases: &[] },
        Codepoint { codepoint: 0xFC1E, name: "ARABIC LIGATURE SEEN WITH KHAH ISOLATED FORM", aliases: &[] },
        Codepoint { codepoint: 0xFC1F, name: "ARABIC LIGATURE SEEN WITH MEEM ISOLATED FORM", aliases: &[] },
        Codepoint { codepoint: 0xFC20, name: "ARABIC LIGATURE SAD WITH HAH ISOLATED FORM", aliases: &[] },
        Codepoint { codepoint: 0xFC21, name: "ARABIC LIGATURE SAD WITH MEEM ISOLATED FORM", aliases: &[] },
        Codepoint { codepoint: 0xFC22, name: "ARABIC LIGATURE DAD WITH JEEM ISOLATED FORM", aliases: &[] },
        Codepoint { codepoint: 0xFC23, name: "ARABIC LIGATURE DAD WITH HAH ISOLATED FORM", aliases: &[] },
        Codepoint { codepoint: 0xFC24, name: "ARABIC LIGATURE DAD WITH KHAH ISOLATED FORM", aliases: &[] },
        Codepoint { codepoint: 0xFC25, name: "ARABIC LIGATURE DAD WITH MEEM ISOLATED FORM", aliases: &[] },
        Codepoint { codepoint: 0xFC26, name: "ARABIC LIGATURE TAH WITH HAH ISOLATED FORM", aliases: &[] },
        Codepoint { codepoint: 0xFC27, name: "ARABIC LIGATURE TAH WITH MEEM ISOLATED FORM", aliases: &[] },
        Codepoint { codepoint: 0xFC28, name: "ARABIC LIGATURE ZAH WITH MEEM ISOLATED FORM", aliases: &[] },
        Codepoint { codepoint: 0xFC29, name: "ARABIC LIGATURE AIN WITH JEEM ISOLATED FORM", aliases: &[] },
        Codepoint { codepoint: 0xFC2A, name: "ARABIC LIGATURE AIN WITH MEEM ISOLATED FORM", aliases: &[] },
        Codepoint { codepoint: 0xFC2B, name: "ARABIC LIGATURE GHAIN WITH JEEM ISOLATED FORM", aliases: &[] },
        Codepoint { codepoint: 0xFC2C, name: "ARABIC LIGATURE GHAIN WITH MEEM ISOLATED FORM", aliases: &[] },
        Codepoint { codepoint: 0xFC2D, name: "ARABIC LIGATURE FEH WITH JEEM ISOLATED FORM", aliases: &[] },
        Codepoint { codepoint: 0xFC2E, name: "ARABIC LIGATURE FEH WITH HAH ISOLATED FORM", aliases: &[] },
        Codepoint { codepoint: 0xFC2F, name: "ARABIC LIGATURE FEH WITH KHAH ISOLATED FORM", aliases: &[] },
        Codepoint { codepoint: 0xFC30, name: "ARABIC LIGATURE FEH WITH MEEM ISOLATED FORM", aliases: &[] },
        Codepoint { codepoint: 0xFC31, name: "ARABIC LIGATURE FEH WITH ALEF MAKSURA ISOLATED FORM", aliases: &[] },
        Codepoint { codepoint: 0xFC32, name: "ARABIC LIGATURE FEH WITH YEH ISOLATED FORM", aliases: &[] },
        Codepoint { codepoint: 0xFC33, name: "ARABIC LIGATURE QAF WITH HAH ISOLATED FORM", aliases: &[] },
    ];
    assert(v@ =~= codepoint_table_399());
    v
}

/// The entries from position 15200 of the table, 800 at most.
pub open spec fn codepoint_group_19() -> Seq<Codepoint> {
    codepoint_table_380() + codepoint_table_381() + codepoint_table_382() + codepoint_table_383() + codepoint_table_384() + codepoint_table_385() + codepoint_table_386() + codepoint_table_387() + codepoint_table_388() + codepoint_table_389() + codepoint_table_390() + codepoint_table_391() + codepoint_table_392() + codepoint_table_393() + codepoint_table_394() + codepoint_table_395() + codepoint_table_396() + codepoint_table_397() + codepoint_table_398() + codepoint_table_399()
}

pub fn all_codepoints_group_19() -> (v: Vec<Codepoint>)
    ensures
        v@ == codepoint_group_19(),
{
    let mut v = all_codepoints_380();
    let mut part = all_codepoints_381();
    v.append(&mut part);
    let mut part = all_codepoints_382();
    v.append(&mut part);
    let mut part = all_codepoints_383();
    v.append(&mut part);
    let mut part = all_codepoints_384();
    v.append(&mut part);
    let mut part = all_codepoints_385();
    v.append(&mut part);
    let mut part = all_codepoints_386();
    v.append(&mut part);
    let mut part = all_codepoints_387();
    v.append(&mut part);
    let mut part = all_codepoints_388();
    v.append(&mut part);
    let mut part = all_codepoints_389();
    v.append(&mut part);
    let mut part = all_codepoints_390();
    v.append(&mut part);
    let mut part = all_codepoints_391();
    v.append(&mut part);
    let mut part = all_codepoints_392();
    v.append(&mut part);
    let mut part = all_codepoints_393();
    v.append(&mut part);
    let mut part = all_codepoints_394();
    v.append(&mut part);
    let mut part = all_codepoints_395();
    v.append(&mut part);
    let mut part = all_codepoints_396();
    v.append(&mut part);
    let mut part = all_codepoints_397();
    v.append(&mut part);
    let mut part = all_codepoints_398();
    v.append(&mut part);
    let mut part = all_codepoints_399();
    v.append(&mut part);
    v
}

} // verus!
