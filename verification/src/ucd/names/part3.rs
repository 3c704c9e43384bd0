//! Part 3 of the character names: groups 30 to 39 of the table.
use vstd::prelude::*;

use crate::ucd::Codepoint;

verus! {

pub open spec fn codepoint_table_600() -> Seq<Codepoint> {
    seq![
        Codepoint { codepoint: 0x13405, name: "EGYPTIAN HIEROGLYPH Z016A", aliases: &[] },
        Codepoint { codepoint: 0x13406, name: "EGYPTIAN HIEROGLYPH Z016B", aliases: &[] },
        Codepoint { codepoint: 0x13407, name: "EGYPTIAN HIEROGLYPH Z016C", aliases: &[] },
        Codepoint { codepoint: 0x13408, name: "EGYPTIAN HIEROGLYPH Z016D", aliases: &[] },
        Codepoint { codepoint: 0x13409, name: "EGYPTIAN HIEROGLYPH Z016E", aliases: &[] },
        Codepoint { codepoint: 0x1340A, name: "EGYPTIAN HIEROGLYPH Z016F", aliases: &[] },
        Codepoint { codepoint: 0x1340B, name: "EGYPTIAN HIEROGLYPH Z016G", aliases: &[] },
        Codepoint { codepoint: 0x1340C, name: "EGYPTIAN HIEROGLYPH Z016H", aliases: &[] },
        Codepoint { codepoint: 0x1340D, name: "EGYPTIAN HIEROGLYPH AA001", aliases: &[] },
        Codepoint { codepoint: 0x1340E, name: "EGYPTIAN HIEROGLYPH AA002", aliases: &[] },
        Codepoint { codepoint: 0x1340F, name: "EGYPTIAN HIEROGLYPH AA003", aliases: &[] },
        Codepoint { codepoint: 0x13410, name: "EGYPTIAN HIEROGLYPH AA004", aliases: &[] },
        Codepoint { codepoint: 0x13411, name: "EGYPTIAN HIEROGLYPH AA005", aliases: &[] },
        Codepoint { codepoint: 0x13412, name: "EGYPTIAN HIEROGLYPH AA006", aliases: &[] },
        Codepoint { codepoint: 0x13413, name: "EGYPTIAN HIEROGLYPH AA007", aliases: &[] },
        Codepoint { codepoint: 0x13414, name: "EGYPTIAN HIEROGLYPH AA007A", aliases: &[] },
        Codepoint { codepoint: 0x13415, name: "EGYPTIAN HIEROGLYPH AA007B", aliases: &[] },
        Codepoint { codepoint: 0x13416, name: "EGYPTIAN HIEROGLYPH AA008", aliases: &[] },
        Codepoint { codepoint: 0x13417, name: "EGYPTIAN HIEROGLYPH AA009", aliases: &[] },
        Codepoint { codepoint: 0x13418, name: "EGYPTIAN HIEROGLYPH AA010", aliases: &[] },
        Codepoint { codepoint: 0x13419, name: "EGYPTIAN HIEROGLYPH AA011", aliases: &[] },
        Codepoint { codepoint: 0x1341A, name: "EGYPTIAN HIEROGLYPH AA012", aliases: &[] },
        Codepoint { codepoint: 0x1341B, name: "EGYPTIAN HIEROGLYPH AA013", aliases: &[] },
        Codepoint { codepoint: 0x1341C, name: "EGYPTIAN HIEROGLYPH AA014", aliases: &[] },
        Codepoint { codepoint: 0x1341D, name: "EGYPTIAN HIEROGLYPH AA015", aliases: &[] },
        Codepoint { codepoint: 0x1341E, name: "EGYPTIAN HIEROGLYPH AA016", aliases: &[] },
        Codepoint { codepoint: 0x1341F, name: "EGYPTIAN HIEROGLYPH AA017", aliases: &[] },
        Codepoint { codepoint: 0x13420, name: "EGYPTIAN HIEROGLYPH AA018", aliases: &[] },
        Codepoint { codepoint: 0x13421, name: "EGYPTIAN HIEROGLYPH AA019", aliases: &[] },
        Codepoint { codepoint: 0x13422, name: "EGYPTIAN HIEROGLYPH AA020", aliases: &[] },
        Codepoint { codepoint: 0x13423, name: "EGYPTIAN HIEROGLYPH AA021", aliases: &[] },
        Codepoint { codepoint: 0x13424, name: "EGYPTIAN HIEROGLYPH AA022", aliases: &[] },
        Codepoint { codepoint: 0x13425, name: "EGYPTIAN HIEROGLYPH AA023", aliases: &[] },
        Codepoint { codepoint: 0x13426, name: "EGYPTIAN HIEROGLYPH AA024", aliases: &[] },
        Codepoint { codepoint: 0x13427, name: "EGYPTIAN HIEROGLYPH AA025", aliases: &[] },
        Codepoint { codepoint: 0x13428, name: "EGYPTIAN HIEROGLYPH AA026", aliases: &[] },
        Codepoint { codepoint: 0x13429, name: "EGYPTIAN HIEROGLYPH AA027", aliases: &[] },
        Codepoint { codepoint: 0x1342A, name: "EGYPTIAN HIEROGLYPH AA028", aliases: &[] },
        Codepoint { codepoint: 0x1342B, name: "EGYPTIAN HIEROGLYPH AA029", aliases: &[] },
        Codepoint { codepoint: 0x1342C, name: "EGYPTIAN HIEROGLYPH AA030", aliases: &[] },
    ]
}

fn all_codepoints_600() -> (v: Vec<Codepoint>)
    ensures
        v@ == codepoint_table_600(),
{
    let v = vec![
        Codepoint { codepoint: 0x13405, name: "EGYPTIAN HIEROGLYPH Z016A", aliases: &[] },
        Codepoint { codepoint: 0x13406, name: "EGYPTIAN HIEROGLYPH Z016B", aliases: &[] },
        Codepoint { codepoint: 0x13407, name: "EGYPTIAN HIEROGLYPH Z016C", aliases: &[] },
        Codepoint { codepoint: 0x13408, name: "EGYPTIAN HIEROGLYPH Z016D", aliases: &[] },
        Codepoint { codepoint: 0x13409, name: "EGYPTIAN HIEROGLYPH Z016E", aliases: &[] },
        Codepoint { codepoint: 0x1340A, name: "EGYPTIAN HIEROGLYPH Z016F", aliases: &[] },
        Codepoint { codepoint: 0x1340B, name: "EGYPTIAN HIEROGLYPH Z016G", aliases: &[] },
        Codepoint { codepoint: 0x1340C, name: "EGYPTIAN HIEROGLYPH Z016H", aliases: &[] },
        Codepoint { codepoint: 0x1340D, name: "EGYPTIAN HIEROGLYPH AA001", aliases: &[] },
        Codepoint { codepoint: 0x1340E, name: "EGYPTIAN HIEROGLYPH AA002", aliases: &[] },
        Codepoint { codepoint: 0x1340F, name: "EGYPTIAN HIEROGLYPH AA003", aliases: &[] },
        Codepoint { codepoint: 0x13410, name: "EGYPTIAN HIEROGLYPH AA004", aliases: &[] },
        Codepoint { codepoint: 0x13411, name: "EGYPTIAN HIEROGLYPH AA005", aliases: &[] },
        Codepoint { codepoint: 0x13412, name: "EGYPTIAN HIEROGLYPH AA006", aliases: &[] },
        Codepoint { codepoint: 0x13413, name: "EGYPTIAN HIEROGLYPH AA007", aliases: &[] },
        Codepoint { codepoint: 0x13414, name: "EGYPTIAN HIEROGLYPH AA007A", aliases: &[] },
        Codepoint { codepoint: 0x13415, name: "EGYPTIAN HIEROGLYPH AA007B", aliases: &[] },
        Codepoint { codepoint: 0x13416, name: "EGYPTIAN HIEROGLYPH AA008", aliases: &[] },
        Codepoint { codepoint: 0x13417, name: "EGYPTIAN HIEROGLYPH AA009", aliases: &[] },
        Codepoint { codepoint: 0x13418, name: "EGYPTIAN HIEROGLYPH AA010", aliases: &[] },
        Codepoint { codepoint: 0x13419, name: "EGYPTIAN HIEROGLYPH AA011", aliases: &[] },
        Codepoint { codepoint: 0x1341A, name: "EGYPTIAN HIEROGLYPH AA012", aliases: &[] },
        Codepoint { codepoint: 0x1341B, name: "EGYPTIAN HIEROGLYPH AA013", aliases: &[] },
        Codepoint { codepoint: 0x1341C, name: "EGYPTIAN HIEROGLYPH AA014", aliases: &[] },
        Codepoint { codepoint: 0x1341D, name: "EGYPTIAN HIEROGLYPH AA015", aliases: &[] },
        Codepoint { codepoint: 0x1341E, name: "EGYPTIAN HIEROGLYPH AA016", aliases: &[] },
        Codepoint { codepoint: 0x1341F, name: "EGYPTIAN HIEROGLYPH AA017", aliases: &[] },
        Codepoint { codepoint: 0x13420, name: "EGYPTIAN HIEROGLYPH AA018", aliases: &[] },
        Codepoint { codepoint: 0x13421, name: "EGYPTIAN HIEROGLYPH AA019", aliases: &[] },
        Codepoint { codepoint: 0x13422, name: "EGYPTIAN HIEROGLYPH AA020", aliases: &[] },
        Codepoint { codepoint: 0x13423, name: "EGYPTIAN HIEROGLYPH AA021", aliases: &[] },
        Codepoint { codepoint: 0x13424, name: "EGYPTIAN HIEROGLYPH AA022", aliases: &[] },
        Codepoint { codepoint: 0x13425, name: "EGYPTIAN HIEROGLYPH AA023", aliases: &[] },
        Codepoint { codepoint: 0x13426, name: "EGYPTIAN HIEROGLYPH AA024", aliases: &[] },
        Codepoint { codepoint: 0x13427, name: "EGYPTIAN HIEROGLYPH AA025", aliases: &[] },
        Codepoint { codepoint: 0x13428, name: "EGYPTIAN HIEROGLYPH AA026", aliases: &[] },
        Codepoint { codepoint: 0x13429, name: "EGYPTIAN HIEROGLYPH AA027", aliases: &[] },
        Codepoint { codepoint: 0x1342A, name: "EGYPTIAN HIEROGLYPH AA028", aliases: &[] },
        Codepoint { codepoint: 0x1342B, name: "EGYPTIAN HIEROGLYPH AA029", aliases: &[] },
        Codepoint { codepoint: 0x1342C, name: "EGYPTIAN HIEROGLYPH AA030", aliases: &[] },
    ];
    assert(v@ =~= codepoint_table_600());
    v
}

pub open spec fn codepoint_table_601() -> Seq<Codepoint> {
    seq![
        Codepoint { codepoint: 0x1342D, name: "EGYPTIAN HIEROGLYPH AA031", aliases: &[] },
        Codepoint { codepoint: 0x1342E, name: "EGYPTIAN HIEROGLYPH AA032", aliases: &[] },
        Codepoint { codepoint: 0x13430, name: "EGYPTIAN HIEROGLYPH VERTICAL JOINER", aliases: &[] },
        Codepoint { codepoint: 0x13431, name: "EGYPTIAN HIEROGLYPH HORIZONTAL JOINER", aliases: &[] },
        Codepoint { codepoint: 0x13432, name: "EGYPTIAN HIEROGLYPH INSERT AT TOP START", aliases: &[] },
        Codepoint { codepoint: 0x13433, name: "EGYPTIAN HIEROGLYPH INSERT AT BOTTOM START", aliases: &[] },
        Codepoint { codepoint: 0x13434, name: "EGYPTIAN HIEROGLYPH INSERT AT TOP END", aliases: &[] },
        Codepoint { codepoint: 0x13435, name: "EGYPTIAN HIEROGLYPH INSERT AT BOTTOM END", aliases: &[] },
        Codepoint { codepoint: 0x13436, name: "EGYPTIAN HIEROGLYPH OVERLAY MIDDLE", aliases: &[] },
        Codepoint { codepoint: 0x13437, name: "EGYPTIAN HIEROGLYPH BEGIN SEGMENT", aliases: &[] },
        Codepoint { codepoint: 0x13438, name: "EGYPTIAN HIEROGLYPH END SEGMENT", aliases: &[] },
        Codepoint { codepoint: 0x14400, name: "ANATOLIAN HIEROGLYPH A001", aliases: &[] },
        Codepoint { codepoint: 0x14401, name: "ANATOLIAN HIEROGLYPH A002", aliases: &[] },
        Codepoint { codepoint: 0x14402, name: "ANATOLIAN HIEROGLYPH A003", aliases: &[] },
        Codepoint { codepoint: 0x14403, name: "ANATOLIAN HIEROGLYPH A004", aliases: &[] },
        Codepoint { codepoint: 0x14404, name: "ANATOLIAN HIEROGLYPH A005", aliases: &[] },
        Codepoint { codepoint: 0x14405, name: "ANATOLIAN HIEROGLYPH A006", aliases: &[] },
        Codepoint { codepoint: 0x14406, name: "ANATOLIAN HIEROGLYPH A007", aliases: &[] },
        Codepoint { codepoint: 0x14407, name: "ANATOLIAN HIEROGLYPH A008", aliases: &[] },
        Codepoint { codepoint: 0x14408, name: "ANATOLIAN HIEROGLYPH A009", aliases: &[] },
        Codepoint { codepoint: 0x14409, name: "ANATOLIAN HIEROGLYPH A010", aliases: &[] },
        Codepoint { codepoint: 0x1440A, name: "ANATOLIAN HIEROGLYPH A010A", aliases: &[] },
        Codepoint { codepoint: 0x1440B, name: "ANATOLIAN HIEROGLYPH A011", aliases: &[] },
        Codepoint { codepoint: 0x1440C, name: "ANATOLIAN HIEROGLYPH A012", aliases: &[] },
        Codepoint { codepoint: 0x1440D, name: "ANATOLIAN HIEROGLYPH A013", aliases: &[] },
        Codepoint { codepoint: 0x1440E, name: "ANATOLIAN HIEROGLYPH A014", aliases: &[] },
        Codepoint { codepoint: 0x1440F, name: "ANATOLIAN HIEROGLYPH A015", aliases: &[] },
        Codepoint { codepoint: 0x14410, name: "ANATOLIAN HIEROGLYPH A016", aliases: &[] },
        Codepoint { codepoint: 0x14411, name: "ANATOLIAN HIEROGLYPH A017", aliases: &[] },
        Codepoint { codepoint: 0x14412, name: "ANATOLIAN HIEROGLYPH A018", aliases: &[] },
        Codepoint { codepoint: 0x14413, name: "ANATOLIAN HIEROGLYPH A019", aliases: &[] },
        Codepoint { codepoint: 0x14414, name: "ANATOLIAN HIEROGLYPH A020", aliases: &[] },
        Codepoint { codepoint: 0x14415, name: "ANATOLIAN HIEROGLYPH A021", aliases: &[] },
        Codepoint { codepoint: 0x14416, name: "ANATOLIAN HIEROGLYPH A022", aliases: &[] },
        Codepoint { codepoint: 0x14417, name: "ANATOLIAN HIEROGLYPH A023", aliases: &[] },
        Codepoint { codepoint: 0x14418, name: "ANATOLIAN HIEROGLYPH A024", aliases: &[] },
        Codepoint { codepoint: 0x14419, name: "ANATOLIAN HIEROGLYPH A025", aliases: &[] },
        Codepoint { codepoint: 0x1441A, name: "ANATOLIAN HIEROGLYPH A026", aliases: &[] },
        Codepoint { codepoint: 0x1441B, name: "ANATOLIAN HIEROGLYPH A026A", aliases: &[] },
        Codepoint { codepoint: 0x1441C, name: "ANATOLIAN HIEROGLYPH A027", aliases: &[] },
    ]
}

fn all_codepoints_601() -> (v: Vec<Codepoint>)
    ensures
        v@ == codepoint_table_601(),
{
    let v = vec![
        Codepoint { codepoint: 0x1342D, name: "EGYPTIAN HIEROGLYPH AA031", aliases: &[] },
        Codepoint { codepoint: 0x1342E, name: "EGYPTIAN HIEROGLYPH AA032", aliases: &[] },
        Codepoint { codepoint: 0x13430, name: "EGYPTIAN HIEROGLYPH VERTICAL JOINER", aliases: &[] },
        Codepoint { codepoint: 0x13431, name: "EGYPTIAN HIEROGLYPH HORIZONTAL JOINER", aliases: &[] },
        Codepoint { codepoint: 0x13432, name: "EGYPTIAN HIEROGLYPH INSERT AT TOP START", aliases: &[] },
        Codepoint { codepoint: 0x13433, name: "EGYPTIAN HIEROGLYPH INSERT AT BOTTOM START", aliases: &[] },
        Codepoint { codepoint: 0x13434, name: "EGYPTIAN HIEROGLYPH INSERT AT TOP END", aliases: &[] },
        Codepoint { codepoint: 0x13435, name: "EGYPTIAN HIEROGLYPH INSERT AT BOTTOM END", aliases: &[] },
        Codepoint { codepoint: 0x13436, name: "EGYPTIAN HIEROGLYPH OVERLAY MIDDLE", aliases: &[] },
        Codepoint { codepoint: 0x13437, name: "EGYPTIAN HIEROGLYPH BEGIN SEGMENT", aliases: &[] },
        Codepoint { codepoint: 0x13438, name: "EGYPTIAN HIEROGLYPH END SEGMENT", aliases: &[] },
        Codepoint { codepoint: 0x14400, name: "ANATOLIAN HIEROGLYPH A001", aliases: &[] },
        Codepoint { codepoint: 0x14401, name: "ANATOLIAN HIEROGLYPH A002", aliases: &[] },
        Codepoint { codepoint: 0x14402, name: "ANATOLIAN HIEROGLYPH A003", aliases: &[] },
        Codepoint { codepoint: 0x14403, name: "ANATOLIAN HIEROGLYPH A004", aliases: &[] },
        Codepoint { codepoint: 0x14404, name: "ANATOLIAN HIEROGLYPH A005", aliases: &[] },
        Codepoint { codepoint: 0x14405, name: "ANATOLIAN HIEROGLYPH A006", aliases: &[] },
        Codepoint { codepoint: 0x14406, name: "ANATOLIAN HIEROGLYPH A007", aliases: &[] },
        Codepoint { codepoint: 0x14407, name: "ANATOLIAN HIEROGLYPH A008", aliases: &[] },
        Codepoint { codepoint: 0x14408, name: "ANATOLIAN HIEROGLYPH A009", aliases: &[] },
        Codepoint { codepoint: 0x14409, name: "ANATOLIAN HIEROGLYPH A010", aliases: &[] },
        Codepoint { codepoint: 0x1440A, name: "ANATOLIAN HIEROGLYPH A010A", aliases: &[] },
        Codepoint { codepoint: 0x1440B, name: "ANATOLIAN HIEROGLYPH A011", aliases: &[] },
        Codepoint { codepoint: 0x1440C, name: "ANATOLIAN HIEROGLYPH A012", aliases: &[] },
        Codepoint { codepoint: 0x1440D, name: "ANATOLIAN HIEROGLYPH A013", aliases: &[] },
        Codepoint { codepoint: 0x1440E, name: "ANATOLIAN HIEROGLYPH A014", aliases: &[] },
        Codepoint { codepoint: 0x1440F, name: "ANATOLIAN HIEROGLYPH A015", aliases: &[] },
        Codepoint { codepoint: 0x14410, name: "ANATOLIAN HIEROGLYPH A016", aliases: &[] },
        Codepoint { codepoint: 0x14411, name: "ANATOLIAN HIEROGLYPH A017", aliases: &[] },
        Codepoint { codepoint: 0x14412, name: "ANATOLIAN HIEROGLYPH A018", aliases: &[] },
        Codepoint { codepoint: 0x14413, name: "ANATOLIAN HIEROGLYPH A019", aliases: &[] },
        Codepoint { codepoint: 0x14414, name: "ANATOLIAN HIEROGLYPH A020", aliases: &[] },
        Codepoint { codepoint: 0x14415, name: "ANATOLIAN HIEROGLYPH A021", aliases: &[] },
        Codepoint { codepoint: 0x14416, name: "ANATOLIAN HIEROGLYPH A022", aliases: &[] },
        Codepoint { codepoint: 0x14417, name: "ANATOLIAN HIEROGLYPH A023", aliases: &[] },
        Codepoint { codepoint: 0x14418, name: "ANATOLIAN HIEROGLYPH A024", aliases: &[] },
        Codepoint { codepoint: 0x14419, name: "ANATOLIAN HIEROGLYPH A025", aliases: &[] },
        Codepoint { codepoint: 0x1441A, name: "ANATOLIAN HIEROGLYPH A026", aliases: &[] },
        Codepoint { codepoint: 0x1441B, name: "ANATOLIAN HIEROGLYPH A026A", aliases: &[] },
        Codepoint { codepoint: 0x1441C, name: "ANATOLIAN HIEROGLYPH A027", aliases: &[] },
    ];
    assert(v@ =~= codepoint_table_601());
    v
}

pub open spec fn codepoint_table_602() -> Seq<Codepoint> {
    seq![
        Codepoint { codepoint: 0x1441D, name: "ANATOLIAN HIEROGLYPH A028", aliases: &[] },
        Codepoint { codepoint: 0x1441E, name: "ANATOLIAN HIEROGLYPH A029", aliases: &[] },
        Codepoint { codepoint: 0x1441F, name: "ANATOLIAN HIEROGLYPH A030", aliases: &[] },
        Codepoint { codepoint: 0x14420, name: "ANATOLIAN HIEROGLYPH A031", aliases: &[] },
        Codepoint { codepoint: 0x14421, name: "ANATOLIAN HIEROGLYPH A032", aliases: &[] },
        Codepoint { codepoint: 0x14422, name: "ANATOLIAN HIEROGLYPH A033", aliases: &[] },
        Codepoint { codepoint: 0x14423, name: "ANATOLIAN HIEROGLYPH A034", aliases: &[] },
        Codepoint { codepoint: 0x14424, name: "ANATOLIAN HIEROGLYPH A035", aliases: &[] },
        Codepoint { codepoint: 0x14425, name: "ANATOLIAN HIEROGLYPH A036", aliases: &[] },
        Codepoint { codepoint: 0x14426, name: "ANATOLIAN HIEROGLYPH A037", aliases: &[] },
        Codepoint { codepoint: 0x14427, name: "ANATOLIAN HIEROGLYPH A038", aliases: &[] },
        Codepoint { codepoint: 0x14428, name: "ANATOLIAN HIEROGLYPH A039", aliases: &[] },
        Codepoint { codepoint: 0x14429, name: "ANATOLIAN HIEROGLYPH A039A", aliases: &[] },
        Codepoint { codepoint: 0x1442A, name: "ANATOLIAN HIEROGLYPH A040", aliases: &[] },
        Codepoint { codepoint: 0x1442B, name: "ANATOLIAN HIEROGLYPH A041", aliases: &[] },
        Codepoint { codepoint: 0x1442C, name: "ANATOLIAN HIEROGLYPH A041A", aliases: &[] },
        Codepoint { codepoint: 0x1442D, name: "ANATOLIAN HIEROGLYPH A042", aliases: &[] },
        Codepoint { codepoint: 0x1442E, name: "ANATOLIAN HIEROGLYPH A043", aliases: &[] },
        Codepoint { codepoint: 0x1442F, name: "ANATOLIAN HIEROGLYPH A044", aliases: &[] },
        Codepoint { codepoint: 0x14430, name: "ANATOLIAN HIEROGLYPH A045", aliases: &[] },
        Codepoint { codepoint: 0x14431, name: "ANATOLIAN HIEROGLYPH A045A", aliases: &[] },
        Codepoint { codepoint: 0x14432, name: "ANATOLIAN HIEROGLYPH A046", aliases: &[] },
        Codepoint { codepoint: 0x14433, name: "ANATOLIAN HIEROGLYPH A046A", aliases: &[] },
        Codepoint { codepoint: 0x14434, name: "ANATOLIAN HIEROGLYPH A046B", aliases: &[] },
        Codepoint { codepoint: 0x14435, name: "ANATOLIAN HIEROGLYPH A047", aliases: &[] },
        Codepoint { codepoint: 0x14436, name: "ANATOLIAN HIEROGLYPH A048", aliases: &[] },
        Codepoint { codepoint: 0x14437, name: "ANATOLIAN HIEROGLYPH A049", aliases: &[] },
        Codepoint { codepoint: 0x14438, name: "ANATOLIAN HIEROGLYPH A050", aliases: &[] },
        Codepoint { codepoint: 0x14439, name: "ANATOLIAN HIEROGLYPH A051", aliases: &[] },
        Codepoint { codepoint: 0x1443A, name: "ANATOLIAN HIEROGLYPH A052", aliases: &[] },
        Codepoint { codepoint: 0x1443B, name: "ANATOLIAN HIEROGLYPH A053", aliases: &[] },
        Codepoint { codepoint: 0x1443C, name: "ANATOLIAN HIEROGLYPH A054", aliases: &[] },
        Codepoint { codepoint: 0x1443D, name: "ANATOLIAN HIEROGLYPH A055", aliases: &[] },
        Codepoint { codepoint: 0x1443E, name: "ANATOLIAN HIEROGLYPH A056", aliases: &[] },
        Codepoint { codepoint: 0x1443F, name: "ANATOLIAN HIEROGLYPH A057", aliases: &[] },
        Codepoint { codepoint: 0x14440, name: "ANATOLIAN HIEROGLYPH A058", aliases: &[] },
        Codepoint { codepoint: 0x14441, name: "ANATOLIAN HIEROGLYPH A059", aliases: &[] },
        Codepoint { codepoint: 0x14442, name: "ANATOLIAN HIEROGLYPH A060", aliases: &[] },
        Codepoint { codepoint: 0x14443, name: "ANATOLIAN HIEROGLYPH A061", aliases: &[] },
        Codepoint { codepoint: 0x14444, name: "ANATOLIAN HIEROGLYPH A062", aliases: &[] },
    ]
}

fn all_codepoints_602() -> (v: Vec<Codepoint>)
    ensures
        v@ == codepoint_table_602(),
{
    let v = vec![
        Codepoint { codepoint: 0x1441D, name: "ANATOLIAN HIEROGLYPH A028", aliases: &[] },
        Codepoint { codepoint: 0x1441E, name: "ANATOLIAN HIEROGLYPH A029", aliases: &[] },
        Codepoint { codepoint: 0x1441F, name: "ANATOLIAN HIEROGLYPH A030", aliases: &[] },
        Codepoint { codepoint: 0x14420, name: "ANATOLIAN HIEROGLYPH A031", aliases: &[] },
        Codepoint { codepoint: 0x14421, name: "ANATOLIAN HIEROGLYPH A032", aliases: &[] },
        Codepoint { codepoint: 0x14422, name: "ANATOLIAN HIEROGLYPH A033", aliases: &[] },
        Codepoint { codepoint: 0x14423, name: "ANATOLIAN HIEROGLYPH A034", aliases: &[] },
        Codepoint { codepoint: 0x14424, name: "ANATOLIAN HIEROGLYPH A035", aliases: &[] },
        Codepoint { codepoint: 0x14425, name: "ANATOLIAN HIEROGLYPH A036", aliases: &[] },
        Codepoint { codepoint: 0x14426, name: "ANATOLIAN HIEROGLYPH A037", aliases: &[] },
        Codepoint { codepoint: 0x14427, name: "ANATOLIAN HIEROGLYPH A038", aliases: &[] },
        Codepoint { codepoint: 0x14428, name: "ANATOLIAN HIEROGLYPH A039", aliases: &[] },
        Codepoint { codepoint: 0x14429, name: "ANATOLIAN HIEROGLYPH A039A", aliases: &[] },
        Codepoint { codepoint: 0x1442A, name: "ANATOLIAN HIEROGLYPH A040", aliases: &[] },
        Codepoint { codepoint: 0x1442B, name: "ANATOLIAN HIEROGLYPH A041", aliases: &[] },
        Codepoint { codepoint: 0x1442C, name: "ANATOLIAN HIEROGLYPH A041A", aliases: &[] },
        Codepoint { codepoint: 0x1442D, name: "ANATOLIAN HIEROGLYPH A042", aliases: &[] },
        Codepoint { codepoint: 0x1442E, name: "ANATOLIAN HIEROGLYPH A043", aliases: &[] },
        Codepoint { codepoint: 0x1442F, name: "ANATOLIAN HIEROGLYPH A044", aliases: &[] },
        Codepoint { codepoint: 0x14430, name: "ANATOLIAN HIEROGLYPH A045", aliases: &[] },
        Codepoint { codepoint: 0x14431, name: "ANATOLIAN HIEROGLYPH A045A", aliases: &[] },
        Codepoint { codepoint: 0x14432, name: "ANATOLIAN HIEROGLYPH A046", aliases: &[] },
        Codepoint { codepoint: 0x14433, name: "ANATOLIAN HIEROGLYPH A046A", aliases: &[] },
        Codepoint { codepoint: 0x14434, name: "ANATOLIAN HIEROGLYPH A046B", aliases: &[] },
        Codepoint { codepoint: 0x14435, name: "ANATOLIAN HIEROGLYPH A047", aliases: &[] },
        Codepoint { codepoint: 0x14436, name: "ANATOLIAN HIEROGLYPH A048", aliases: &[] },
        Codepoint { codepoint: 0x14437, name: "ANATOLIAN HIEROGLYPH A049", aliases: &[] },
        Codepoint { codepoint: 0x14438, name: "ANATOLIAN HIEROGLYPH A050", aliases: &[] },
        Codepoint { codepoint: 0x14439, name: "ANATOLIAN HIEROGLYPH A051", aliases: &[] },
        Codepoint { codepoint: 0x1443A, name: "ANATOLIAN HIEROGLYPH A052", aliases: &[] },
        Codepoint { codepoint: 0x1443B, name: "ANATOLIAN HIEROGLYPH A053", aliases: &[] },
        Codepoint { codepoint: 0x1443C, name: "ANATOLIAN HIEROGLYPH A054", aliases: &[] },
        Codepoint { codepoint: 0x1443D, name: "ANATOLIAN HIEROGLYPH A055", aliases: &[] },
        Codepoint { codepoint: 0x1443E, name: "ANATOLIAN HIEROGLYPH A056", aliases: &[] },
        Codepoint { codepoint: 0x1443F, name: "ANATOLIAN HIEROGLYPH A057", aliases: &[] },
        Codepoint { codepoint: 0x14440, name: "ANATOLIAN HIEROGLYPH A058", aliases: &[] },
        Codepoint { codepoint: 0x14441, name: "ANATOLIAN HIEROGLYPH A059", aliases: &[] },
        Codepoint { codepoint: 0x14442, name: "ANATOLIAN HIEROGLYPH A060", aliases: &[] },
        Codepoint { codepoint: 0x14443, name: "ANATOLIAN HIEROGLYPH A061", aliases: &[] },
        Codepoint { codepoint: 0x14444, name: "ANATOLIAN HIEROGLYPH A062", aliases: &[] },
    ];
    assert(v@ =~= codepoint_table_602());
    v
}

pub open spec fn codepoint_table_603() -> Seq<Codepoint> {
    seq![
        Codepoint { codepoint: 0x14445, name: "ANATOLIAN HIEROGLYPH A063", aliases: &[] },
        Codepoint { codepoint: 0x14446, name: "ANATOLIAN HIEROGLYPH A064", aliases: &[] },
        Codepoint { codepoint: 0x14447, name: "ANATOLIAN HIEROGLYPH A065", aliases: &[] },
        Codepoint { codepoint: 0x14448, name: "ANATOLIAN HIEROGLYPH A066", aliases: &[] },
        Codepoint { codepoint: 0x14449, name: "ANATOLIAN HIEROGLYPH A066A", aliases: &[] },
        Codepoint { codepoint: 0x1444A, name: "ANATOLIAN HIEROGLYPH A066B", aliases: &[] },
        Codepoint { codepoint: 0x1444B, name: "ANATOLIAN HIEROGLYPH A066C", aliases: &[] },
        Codepoint { codepoint: 0x1444C, name: "ANATOLIAN HIEROGLYPH A067", aliases: &[] },
        Codepoint { codepoint: 0x1444D, name: "ANATOLIAN HIEROGLYPH A068", aliases: &[] },
        Codepoint { codepoint: 0x1444E, name: "ANATOLIAN HIEROGLYPH A069", aliases: &[] },
        Codepoint { codepoint: 0x1444F, name: "ANATOLIAN HIEROGLYPH A070", aliases: &[] },
        Codepoint { codepoint: 0x14450, name: "ANATOLIAN HIEROGLYPH A071", aliases: &[] },
        Codepoint { codepoint: 0x14451, name: "ANATOLIAN HIEROGLYPH A072", aliases: &[] },
        Codepoint { codepoint: 0x14452, name: "ANATOLIAN HIEROGLYPH A073", aliases: &[] },
        Codepoint { codepoint: 0x14453, name: "ANATOLIAN HIEROGLYPH A074", aliases: &[] },
        Codepoint { codepoint: 0x14454, name: "ANATOLIAN HIEROGLYPH A075", aliases: &[] },
        Codepoint { codepoint: 0x14455, name: "ANATOLIAN HIEROGLYPH A076", aliases: &[] },
        Codepoint { codepoint: 0x14456, name: "ANATOLIAN HIEROGLYPH A077", aliases: &[] },
        Codepoint { codepoint: 0x14457, name: "ANATOLIAN HIEROGLYPH A078", aliases: &[] },
        Codepoint { codepoint: 0x14458, name: "ANATOLIAN HIEROGLYPH A079", aliases: &[] },
        Codepoint { codepoint: 0x14459, name: "ANATOLIAN HIEROGLYPH A080", aliases: &[] },
        Codepoint { codepoint: 0x1445A, name: "ANATOLIAN HIEROGLYPH A081", aliases: &[] },
        Codepoint { codepoint: 0x1445B, name: "ANATOLIAN HIEROGLYPH A082", aliases: &[] },
        Codepoint { codepoint: 0x1445C, name: "ANATOLIAN HIEROGLYPH A083", aliases: &[] },
        Codepoint { codepoint: 0x1445D, name: "ANATOLIAN HIEROGLYPH A084", aliases: &[] },
        Codepoint { codepoint: 0x1445E, name: "ANATOLIAN HIEROGLYPH A085", aliases: &[] },
        Codepoint { codepoint: 0x1445F, name: "ANATOLIAN HIEROGLYPH A086", aliases: &[] },
        Codepoint { codepoint: 0x14460, name: "ANATOLIAN HIEROGLYPH A087", aliases: &[] },
        Codepoint { codepoint: 0x14461, name: "ANATOLIAN HIEROGLYPH A088", aliases: &[] },
        Codepoint { codepoint: 0x14462, name: "ANATOLIAN HIEROGLYPH A089", aliases: &[] },
        Codepoint { codepoint: 0x14463, name: "ANATOLIAN HIEROGLYPH A090", aliases: &[] },
        Codepoint { codepoint: 0x14464, name: "ANATOLIAN HIEROGLYPH A091", aliases: &[] },
        Codepoint { codepoint: 0x14465, name: "ANATOLIAN HIEROGLYPH A092", aliases: &[] },
        Codepoint { codepoint: 0x14466, name: "ANATOLIAN HIEROGLYPH A093", aliases: &[] },
        Codepoint { codepoint: 0x14467, name: "ANATOLIAN HIEROGLYPH A094", aliases: &[] },
        Codepoint { codepoint: 0x14468, name: "ANATOLIAN HIEROGLYPH A095", aliases: &[] },
        Codepoint { codepoint: 0x14469, name: "ANATOLIAN HIEROGLYPH A096", aliases: &[] },
        Codepoint { codepoint: 0x1446A, name: "ANATOLIAN HIEROGLYPH A097", aliases: &[] },
        Codepoint { codepoint: 0x1446B, name: "ANATOLIAN HIEROGLYPH A097A", aliases: &[] },
        Codepoint { codepoint: 0x1446C, name: "ANATOLIAN HIEROGLYPH A098", aliases: &[] },
    ]
}

fn all_codepoints_603() -> (v: Vec<Codepoint>)
    ensures
        v@ == codepoint_table_603(),
{
    let v = vec![
        Codepoint { codepoint: 0x14445, name: "ANATOLIAN HIEROGLYPH A063", aliases: &[] },
        Codepoint { codepoint: 0x14446, name: "ANATOLIAN HIEROGLYPH A064", aliases: &[] },
        Codepoint { codepoint: 0x14447, name: "ANATOLIAN HIEROGLYPH A065", aliases: &[] },
        Codepoint { codepoint: 0x14448, name: "ANATOLIAN HIEROGLYPH A066", aliases: &[] },
        Codepoint { codepoint: 0x14449, name: "ANATOLIAN HIEROGLYPH A066A", aliases: &[] },
        Codepoint { codepoint: 0x1444A, name: "ANATOLIAN HIEROGLYPH A066B", aliases: &[] },
        Codepoint { codepoint: 0x1444B, name: "ANATOLIAN HIEROGLYPH A066C", aliases: &[] },
        Codepoint { codepoint: 0x1444C, name: "ANATOLIAN HIEROGLYPH A067", aliases: &[] },
        Codepoint { codepoint: 0x1444D, name: "ANATOLIAN HIEROGLYPH A068", aliases: &[] },
        Codepoint { codepoint: 0x1444E, name: "ANATOLIAN HIEROGLYPH A069", aliases: &[] },
        Codepoint { codepoint: 0x1444F, name: "ANATOLIAN HIEROGLYPH A070", aliases: &[] },
        Codepoint { codepoint: 0x14450, name: "ANATOLIAN HIEROGLYPH A071", aliases: &[] },
        Codepoint { codepoint: 0x14451, name: "ANATOLIAN HIEROGLYPH A072", aliases: &[] },
        Codepoint { codepoint: 0x14452, name: "ANATOLIAN HIEROGLYPH A073", aliases: &[] },
        Codepoint { codepoint: 0x14453, name: "ANATOLIAN HIEROGLYPH A074", aliases: &[] },
        Codepoint { codepoint: 0x14454, name: "ANATOLIAN HIEROGLYPH A075", aliases: &[] },
        Codepoint { codepoint: 0x14455, name: "ANATOLIAN HIEROGLYPH A076", aliases: &[] },
        Codepoint { codepoint: 0x14456, name: "ANATOLIAN HIEROGLYPH A077", aliases: &[] },
        Codepoint { codepoint: 0x14457, name: "ANATOLIAN HIEROGLYPH A078", aliases: &[] },
        Codepoint { codepoint: 0x14458, name: "ANATOLIAN HIEROGLYPH A079", aliases: &[] },
        Codepoint { codepoint: 0x14459, name: "ANATOLIAN HIEROGLYPH A080", aliases: &[] },
        Codepoint { codepoint: 0x1445A, name: "ANATOLIAN HIEROGLYPH A081", aliases: &[] },
        Codepoint { codepoint: 0x1445B, name: "ANATOLIAN HIEROGLYPH A082", aliases: &[] },
        Codepoint { codepoint: 0x1445C, name: "ANATOLIAN HIEROGLYPH A083", aliases: &[] },
        Codepoint { codepoint: 0x1445D, name: "ANATOLIAN HIEROGLYPH A084", aliases: &[] },
        Codepoint { codepoint: 0x1445E, name: "ANATOLIAN HIEROGLYPH A085", aliases: &[] },
        Codepoint { codepoint: 0x1445F, name: "ANATOLIAN HIEROGLYPH A086", aliases: &[] },
        Codepoint { codepoint: 0x14460, name: "ANATOLIAN HIEROGLYPH A087", aliases: &[] },
        Codepoint { codepoint: 0x14461, name: "ANATOLIAN HIEROGLYPH A088", aliases: &[] },
        Codepoint { codepoint: 0x14462, name: "ANATOLIAN HIEROGLYPH A089", aliases: &[] },
        Codepoint { codepoint: 0x14463, name: "ANATOLIAN HIEROGLYPH A090", aliases: &[] },
        Codepoint { codepoint: 0x14464, name: "ANATOLIAN HIEROGLYPH A091", aliases: &[] },
        Codepoint { codepoint: 0x14465, name: "ANATOLIAN HIEROGLYPH A092", aliases: &[] },
        Codepoint { codepoint: 0x14466, name: "ANATOLIAN HIEROGLYPH A093", aliases: &[] },
        Codepoint { codepoint: 0x14467, name: "ANATOLIAN HIEROGLYPH A094", aliases: &[] },
        Codepoint { codepoint: 0x14468, name: "ANATOLIAN HIEROGLYPH A095", aliases: &[] },
        Codepoint { codepoint: 0x14469, name: "ANATOLIAN HIEROGLYPH A096", aliases: &[] },
        Codepoint { codepoint: 0x1446A, name: "ANATOLIAN HIEROGLYPH A097", aliases: &[] },
        Codepoint { codepoint: 0x1446B, name: "ANATOLIAN HIEROGLYPH A097A", aliases: &[] },
        Codepoint { codepoint: 0x1446C, name: "ANATOLIAN HIEROGLYPH A098", aliases: &[] },
    ];
    assert(v@ =~= codepoint_table_603());
    v
}

pub open spec fn codepoint_table_604() -> Seq<Codepoint> {
    seq![
        Codepoint { codepoint: 0x1446D, name: "ANATOLIAN HIEROGLYPH A098A", aliases: &[] },
        Codepoint { codepoint: 0x1446E, name: "ANATOLIAN HIEROGLYPH A099", aliases: &[] },
        Codepoint { codepoint: 0x1446F, name: "ANATOLIAN HIEROGLYPH A100", aliases: &[] },
        Codepoint { codepoint: 0x14470, name: "ANATOLIAN HIEROGLYPH A100A", aliases: &[] },
        Codepoint { codepoint: 0x14471, name: "ANATOLIAN HIEROGLYPH A101", aliases: &[] },
        Codepoint { codepoint: 0x14472, name: "ANATOLIAN HIEROGLYPH A101A", aliases: &[] },
        Codepoint { codepoint: 0x14473, name: "ANATOLIAN HIEROGLYPH A102", aliases: &[] },
        Codepoint { codepoint: 0x14474, name: "ANATOLIAN HIEROGLYPH A102A", aliases: &[] },
        Codepoint { codepoint: 0x14475, name: "ANATOLIAN HIEROGLYPH A103", aliases: &[] },
        Codepoint { codepoint: 0x14476, name: "ANATOLIAN HIEROGLYPH A104", aliases: &[] },
        Codepoint { codepoint: 0x14477, name: "ANATOLIAN HIEROGLYPH A104A", aliases: &[] },
        Codepoint { codepoint: 0x14478, name: "ANATOLIAN HIEROGLYPH A104B", aliases: &[] },
        Codepoint { codepoint: 0x14479, name: "ANATOLIAN HIEROGLYPH A104C", aliases: &[] },
        Codepoint { codepoint: 0x1447A, name: "ANATOLIAN HIEROGLYPH A105", aliases: &[] },
        Codepoint { codepoint: 0x1447B, name: "ANATOLIAN HIEROGLYPH A105A", aliases: &[] },
        Codepoint { codepoint: 0x1447C, name: "ANATOLIAN HIEROGLYPH A105B", aliases: &[] },
        Codepoint { codepoint: 0x1447D, name: "ANATOLIAN HIEROGLYPH A106", aliases: &[] },
        Codepoint { codepoint: 0x1447E, name: "ANATOLIAN HIEROGLYPH A107", aliases: &[] },
        Codepoint { codepoint: 0x1447F, name: "ANATOLIAN HIEROGLYPH A107A", aliases: &[] },
        Codepoint { codepoint: 0x14480, name: "ANATOLIAN HIEROGLYPH A107B", aliases: &[] },
        Codepoint { codepoint: 0x14481, name: "ANATOLIAN HIEROGLYPH A107C", aliases: &[] },
        Codepoint { codepoint: 0x14482, name: "ANATOLIAN HIEROGLYPH A108", aliases: &[] },
        Codepoint { codepoint: 0x14483, name: "ANATOLIAN HIEROGLYPH A109", aliases: &[] },
        Codepoint { codepoint: 0x14484, name: "ANATOLIAN HIEROGLYPH A110", aliases: &[] },
        Codepoint { codepoint: 0x14485, name: "ANATOLIAN HIEROGLYPH A110A", aliases: &[] },
        Codepoint { codepoint: 0x14486, name: "ANATOLIAN HIEROGLYPH A110B", aliases: &[] },
        Codepoint { codepoint: 0x14487, name: "ANATOLIAN HIEROGLYPH A111", aliases: &[] },
        Codepoint { codepoint: 0x14488, name: "ANATOLIAN HIEROGLYPH A112", aliases: &[] },
        Codepoint { codepoint: 0x14489, name: "ANATOLIAN HIEROGLYPH A113", aliases: &[] },
        Codepoint { codepoint: 0x1448A, name: "ANATOLIAN HIEROGLYPH A114", aliases: &[] },
        Codepoint { codepoint: 0x1448B, name: "ANATOLIAN HIEROGLYPH A115", aliases: &[] },
        Codepoint { codepoint: 0x1448C, name: "ANATOLIAN HIEROGLYPH A115A", aliases: &[] },
        Codepoint { codepoint: 0x1448D, name: "ANATOLIAN HIEROGLYPH A116", aliases: &[] },
        Codepoint { codepoint: 0x1448E, name: "ANATOLIAN HIEROGLYPH A117", aliases: &[] },
        Codepoint { codepoint: 0x1448F, name: "ANATOLIAN HIEROGLYPH A118", aliases: &[] },
        Codepoint { codepoint: 0x14490, name: "ANATOLIAN HIEROGLYPH A119", aliases: &[] },
        Codepoint { codepoint: 0x14491, name: "ANATOLIAN HIEROGLYPH A120", aliases: &[] },
        Codepoint { codepoint: 0x14492, name: "ANATOLIAN HIEROGLYPH A121", aliases: &[] },
        Codepoint { codepoint: 0x14493, name: "ANATOLIAN HIEROGLYPH A122", aliases: &[] },
        Codepoint { codepoint: 0x14494, name: "ANATOLIAN HIEROGLYPH A123", aliases: &[] },
    ]
}

fn all_codepoints_604() -> (v: Vec<Codepoint>)
    ensures
        v@ == codepoint_table_604(),
{
    let v = vec![
        Codepoint { codepoint: 0x1446D, name: "ANATOLIAN HIEROGLYPH A098A", aliases: &[] },
        Codepoint { codepoint: 0x1446E, name: "ANATOLIAN HIEROGLYPH A099", aliases: &[] },
        Codepoint { codepoint: 0x1446F, name: "ANATOLIAN HIEROGLYPH A100", aliases: &[] },
        Codepoint { codepoint: 0x14470, name: "ANATOLIAN HIEROGLYPH A100A", aliases: &[] },
        Codepoint { codepoint: 0x14471, name: "ANATOLIAN HIEROGLYPH A101", aliases: &[] },
        Codepoint { codepoint: 0x14472, name: "ANATOLIAN HIEROGLYPH A101A", aliases: &[] },
        Codepoint { codepoint: 0x14473, name: "ANATOLIAN HIEROGLYPH A102", aliases: &[] },
        Codepoint { codepoint: 0x14474, name: "ANATOLIAN HIEROGLYPH A102A", aliases: &[] },
        Codepoint { codepoint: 0x14475, name: "ANATOLIAN HIEROGLYPH A103", aliases: &[] },
        Codepoint { codepoint: 0x14476, name: "ANATOLIAN HIEROGLYPH A104", aliases: &[] },
        Codepoint { codepoint: 0x14477, name: "ANATOLIAN HIEROGLYPH A104A", aliases: &[] },
        Codepoint { codepoint: 0x14478, name: "ANATOLIAN HIEROGLYPH A104B", aliases: &[] },
        Codepoint { codepoint: 0x14479, name: "ANATOLIAN HIEROGLYPH A104C", aliases: &[] },
        Codepoint { codepoint: 0x1447A, name: "ANATOLIAN HIEROGLYPH A105", aliases: &[] },
        Codepoint { codepoint: 0x1447B, name: "ANATOLIAN HIEROGLYPH A105A", aliases: &[] },
        Codepoint { codepoint: 0x1447C, name: "ANATOLIAN HIEROGLYPH A105B", aliases: &[] },
        Codepoint { codepoint: 0x1447D, name: "ANATOLIAN HIEROGLYPH A106", aliases: &[] },
        Codepoint { codepoint: 0x1447E, name: "ANATOLIAN HIEROGLYPH A107", aliases: &[] },
        Codepoint { codepoint: 0x1447F, name: "ANATOLIAN HIEROGLYPH A107A", aliases: &[] },
        Codepoint { codepoint: 0x14480, name: "ANATOLIAN HIEROGLYPH A107B", aliases: &[] },
        Codepoint { codepoint: 0x14481, name: "ANATOLIAN HIEROGLYPH A107C", aliases: &[] },
        Codepoint { codepoint: 0x14482, name: "ANATOLIAN HIEROGLYPH A108", aliases: &[] },
        Codepoint { codepoint: 0x14483, name: "ANATOLIAN HIEROGLYPH A109", aliases: &[] },
        Codepoint { codepoint: 0x14484, name: "ANATOLIAN HIEROGLYPH A110", aliases: &[] },
        Codepoint { codepoint: 0x14485, name: "ANATOLIAN HIEROGLYPH A110A", aliases: &[] },
        Codepoint { codepoint: 0x14486, name: "ANATOLIAN HIEROGLYPH A110B", aliases: &[] },
        Codepoint { codepoint: 0x14487, name: "ANATOLIAN HIEROGLYPH A111", aliases: &[] },
        Codepoint { codepoint: 0x14488, name: "ANATOLIAN HIEROGLYPH A112", aliases: &[] },
        Codepoint { codepoint: 0x14489, name: "ANATOLIAN HIEROGLYPH A113", aliases: &[] },
        Codepoint { codepoint: 0x1448A, name: "ANATOLIAN HIEROGLYPH A114", aliases: &[] },
        Codepoint { codepoint: 0x1448B, name: "ANATOLIAN HIEROGLYPH A115", aliases: &[] },
        Codepoint { codepoint: 0x1448C, name: "ANATOLIAN HIEROGLYPH A115A", aliases: &[] },
        Codepoint { codepoint: 0x1448D, name: "ANATOLIAN HIEROGLYPH A116", aliases: &[] },
        Codepoint { codepoint: 0x1448E, name: "ANATOLIAN HIEROGLYPH A117", aliases: &[] },
        Codepoint { codepoint: 0x1448F, name: "ANATOLIAN HIEROGLYPH A118", aliases: &[] },
        Codepoint { codepoint: 0x14490, name: "ANATOLIAN HIEROGLYPH A119", aliases: &[] },
        Codepoint { codepoint: 0x14491, name: "ANATOLIAN HIEROGLYPH A120", aliases: &[] },
        Codepoint { codepoint: 0x14492, name: "ANATOLIAN HIEROGLYPH A121", aliases: &[] },
        Codepoint { codepoint: 0x14493, name: "ANATOLIAN HIEROGLYPH A122", aliases: &[] },
        Codepoint { codepoint: 0x14494, name: "ANATOLIAN HIEROGLYPH A123", aliases: &[] },
    ];
    assert(v@ =~= codepoint_table_604());
    v
}

pub open spec fn codepoint_table_605() -> Seq<Codepoint> {
    seq![
        Codepoint { codepoint: 0x14495, name: "ANATOLIAN HIEROGLYPH A124", aliases: &[] },
        Codepoint { codepoint: 0x14496, name: "ANATOLIAN HIEROGLYPH A125", aliases: &[] },
        Codepoint { codepoint: 0x14497, name: "ANATOLIAN HIEROGLYPH A125A", aliases: &[] },
        Codepoint { codepoint: 0x14498, name: "ANATOLIAN HIEROGLYPH A126", aliases: &[] },
        Codepoint { codepoint: 0x14499, name: "ANATOLIAN HIEROGLYPH A127", aliases: &[] },
        Codepoint { codepoint: 0x1449A, name: "ANATOLIAN HIEROGLYPH A128", aliases: &[] },
        Codepoint { codepoint: 0x1449B, name: "ANATOLIAN HIEROGLYPH A129", aliases: &[] },
        Codepoint { codepoint: 0x1449C, name: "ANATOLIAN HIEROGLYPH A130", aliases: &[] },
        Codepoint { codepoint: 0x1449D, name: "ANATOLIAN HIEROGLYPH A131", aliases: &[] },
        Codepoint { codepoint: 0x1449E, name: "ANATOLIAN HIEROGLYPH A132", aliases: &[] },
        Codepoint { codepoint: 0x1449F, name: "ANATOLIAN HIEROGLYPH A133", aliases: &[] },
        Codepoint { codepoint: 0x144A0, name: "ANATOLIAN HIEROGLYPH A134", aliases: &[] },
        Codepoint { codepoint: 0x144A1, name: "ANATOLIAN HIEROGLYPH A135", aliases: &[] },
        Codepoint { codepoint: 0x144A2, name: "ANATOLIAN HIEROGLYPH A135A", aliases: &[] },
        Codepoint { codepoint: 0x144A3, name: "ANATOLIAN HIEROGLYPH A136", aliases: &[] },
        Codepoint { codepoint: 0x144A4, name: "ANATOLIAN HIEROGLYPH A137", aliases: &[] },
        Codepoint { codepoint: 0x144A5, name: "ANATOLIAN HIEROGLYPH A138", aliases: &[] },
        Codepoint { codepoint: 0x144A6, name: "ANATOLIAN HIEROGLYPH A139", aliases: &[] },
        Codepoint { codepoint: 0x144A7, name: "ANATOLIAN HIEROGLYPH A140", aliases: &[] },
        Codepoint { codepoint: 0x144A8, name: "ANATOLIAN HIEROGLYPH A141", aliases: &[] },
        Codepoint { codepoint: 0x144A9, name: "ANATOLIAN HIEROGLYPH A142", aliases: &[] },
        Codepoint { codepoint: 0x144AA, name: "ANATOLIAN HIEROGLYPH A143", aliases: &[] },
        Codepoint { codepoint: 0x144AB, name: "ANATOLIAN HIEROGLYPH A144", aliases: &[] },
        Codepoint { codepoint: 0x144AC, name: "ANATOLIAN HIEROGLYPH A145", aliases: &[] },
        Codepoint { codepoint: 0x144AD, name: "ANATOLIAN HIEROGLYPH A146", aliases: &[] },
        Codepoint { codepoint: 0x144AE, name: "ANATOLIAN HIEROGLYPH A147", aliases: &[] },
        Codepoint { codepoint: 0x144AF, name: "ANATOLIAN HIEROGLYPH A148", aliases: &[] },
        Codepoint { codepoint: 0x144B0, name: "ANATOLIAN HIEROGLYPH A149", aliases: &[] },
        Codepoint { codepoint: 0x144B1, name: "ANATOLIAN HIEROGLYPH A150", aliases: &[] },
        Codepoint { codepoint: 0x144B2, name: "ANATOLIAN HIEROGLYPH A151", aliases: &[] },
        Codepoint { codepoint: 0x144B3, name: "ANATOLIAN HIEROGLYPH A152", aliases: &[] },
        Codepoint { codepoint: 0x144B4, name: "ANATOLIAN HIEROGLYPH A153", aliases: &[] },
        Codepoint { codepoint: 0x144B5, name: "ANATOLIAN HIEROGLYPH A154", aliases: &[] },
        Codepoint { codepoint: 0x144B6, name: "ANATOLIAN HIEROGLYPH A155", aliases: &[] },
        Codepoint { codepoint: 0x144B7, name: "ANATOLIAN HIEROGLYPH A156", aliases: &[] },
        Codepoint { codepoint: 0x144B8, name: "ANATOLIAN HIEROGLYPH A157", aliases: &[] },
        Codepoint { codepoint: 0x144B9, name: "ANATOLIAN HIEROGLYPH A158", aliases: &[] },
        Codepoint { codepoint: 0x144BA, name: "ANATOLIAN HIEROGLYPH A159", aliases: &[] },
        Codepoint { codepoint: 0x144BB, name: "ANATOLIAN HIEROGLYPH A160", aliases: &[] },
        Codepoint { codepoint: 0x144BC, name: "ANATOLIAN HIEROGLYPH A161", aliases: &[] },
    ]
}

fn all_codepoints_605() -> (v: Vec<Codepoint>)
    ensures
        v@ == codepoint_table_605(),
{
    let v = vec![
        Codepoint { codepoint: 0x14495, name: "ANATOLIAN HIEROGLYPH A124", aliases: &[] },
        Codepoint { codepoint: 0x14496, name: "ANATOLIAN HIEROGLYPH A125", aliases: &[] },
        Codepoint { codepoint: 0x14497, name: "ANATOLIAN HIEROGLYPH A125A", aliases: &[] },
        Codepoint { codepoint: 0x14498, name: "ANATOLIAN HIEROGLYPH A126", aliases: &[] },
        Codepoint { codepoint: 0x14499, name: "ANATOLIAN HIEROGLYPH A127", aliases: &[] },
        Codepoint { codepoint: 0x1449A, name: "ANATOLIAN HIEROGLYPH A128", aliases: &[] },
        Codepoint { codepoint: 0x1449B, name: "ANATOLIAN HIEROGLYPH A129", aliases: &[] },
        Codepoint { codepoint: 0x1449C, name: "ANATOLIAN HIEROGLYPH A130", aliases: &[] },
        Codepoint { codepoint: 0x1449D, name: "ANATOLIAN HIEROGLYPH A131", aliases: &[] },
        Codepoint { codepoint: 0x1449E, name: "ANATOLIAN HIEROGLYPH A132", aliases: &[] },
        Codepoint { codepoint: 0x1449F, name: "ANATOLIAN HIEROGLYPH A133", aliases: &[] },
        Codepoint { codepoint: 0x144A0, name: "ANATOLIAN HIEROGLYPH A134", aliases: &[] },
        Codepoint { codepoint: 0x144A1, name: "ANATOLIAN HIEROGLYPH A135", aliases: &[] },
        Codepoint { codepoint: 0x144A2, name: "ANATOLIAN HIEROGLYPH A135A", aliases: &[] },
        Codepoint { codepoint: 0x144A3, name: "ANATOLIAN HIEROGLYPH A136", aliases: &[] },
        Codepoint { codepoint: 0x144A4, name: "ANATOLIAN HIEROGLYPH A137", aliases: &[] },
        Codepoint { codepoint: 0x144A5, name: "ANATOLIAN HIEROGLYPH A138", aliases: &[] },
        Codepoint { codepoint: 0x144A6, name: "ANATOLIAN HIEROGLYPH A139", aliases: &[] },
        Codepoint { codepoint: 0x144A7, name: "ANATOLIAN HIEROGLYPH A140", aliases: &[] },
        Codepoint { codepoint: 0x144A8, name: "ANATOLIAN HIEROGLYPH A141", aliases: &[] },
        Codepoint { codepoint: 0x144A9, name: "ANATOLIAN HIEROGLYPH A142", aliases: &[] },
        Codepoint { codepoint: 0x144AA, name: "ANATOLIAN HIEROGLYPH A143", aliases: &[] },
        Codepoint { codepoint: 0x144AB, name: "ANATOLIAN HIEROGLYPH A144", aliases: &[] },
        Codepoint { codepoint: 0x144AC, name: "ANATOLIAN HIEROGLYPH A145", aliases: &[] },
        Codepoint { codepoint: 0x144AD, name: "ANATOLIAN HIEROGLYPH A146", aliases: &[] },
        Codepoint { codepoint: 0x144AE, name: "ANATOLIAN HIEROGLYPH A147", aliases: &[] },
        Codepoint { codepoint: 0x144AF, name: "ANATOLIAN HIEROGLYPH A148", aliases: &[] },
        Codepoint { codepoint: 0x144B0, name: "ANATOLIAN HIEROGLYPH A149", aliases: &[] },
        Codepoint { codepoint: 0x144B1, name: "ANATOLIAN HIEROGLYPH A150", aliases: &[] },
        Codepoint { codepoint: 0x144B2, name: "ANATOLIAN HIEROGLYPH A151", aliases: &[] },
        Codepoint { codepoint: 0x144B3, name: "ANATOLIAN HIEROGLYPH A152", aliases: &[] },
        Codepoint { codepoint: 0x144B4, name: "ANATOLIAN HIEROGLYPH A153", aliases: &[] },
        Codepoint { codepoint: 0x144B5, name: "ANATOLIAN HIEROGLYPH A154", aliases: &[] },
        Codepoint { codepoint: 0x144B6, name: "ANATOLIAN HIEROGLYPH A155", aliases: &[] },
        Codepoint { codepoint: 0x144B7, name: "ANATOLIAN HIEROGLYPH A156", aliases: &[] },
        Codepoint { codepoint: 0x144B8, name: "ANATOLIAN HIEROGLYPH A157", aliases: &[] },
        Codepoint { codepoint: 0x144B9, name: "ANATOLIAN HIEROGLYPH A158", aliases: &[] },
        Codepoint { codepoint: 0x144BA, name: "ANATOLIAN HIEROGLYPH A159", aliases: &[] },
        Codepoint { codepoint: 0x144BB, name: "ANATOLIAN HIEROGLYPH A160", aliases: &[] },
        Codepoint { codepoint: 0x144BC, name: "ANATOLIAN HIEROGLYPH A161", aliases: &[] },
    ];
    assert(v@ =~= codepoint_table_605());
    v
}

pub open spec fn codepoint_table_606() -> Seq<Codepoint> {
    seq![
        Codepoint { codepoint: 0x144BD, name: "ANATOLIAN HIEROGLYPH A162", aliases: &[] },
        Codepoint { codepoint: 0x144BE, name: "ANATOLIAN HIEROGLYPH A163", aliases: &[] },
        Codepoint { codepoint: 0x144BF, name: "ANATOLIAN HIEROGLYPH A164", aliases: &[] },
        Codepoint { codepoint: 0x144C0, name: "ANATOLIAN HIEROGLYPH A165", aliases: &[] },
        Codepoint { codepoint: 0x144C1, name: "ANATOLIAN HIEROGLYPH A166", aliases: &[] },
        Codepoint { codepoint: 0x144C2, name: "ANATOLIAN HIEROGLYPH A167", aliases: &[] },
        Codepoint { codepoint: 0x144C3, name: "ANATOLIAN HIEROGLYPH A168", aliases: &[] },
        Codepoint { codepoint: 0x144C4, name: "ANATOLIAN HIEROGLYPH A169", aliases: &[] },
        Codepoint { codepoint: 0x144C5, name: "ANATOLIAN HIEROGLYPH A170", aliases: &[] },
        Codepoint { codepoint: 0x144C6, name: "ANATOLIAN HIEROGLYPH A171", aliases: &[] },
        Codepoint { codepoint: 0x144C7, name: "ANATOLIAN HIEROGLYPH A172", aliases: &[] },
        Codepoint { codepoint: 0x144C8, name: "ANATOLIAN HIEROGLYPH A173", aliases: &[] },
        Codepoint { codepoint: 0x144C9, name: "ANATOLIAN HIEROGLYPH A174", aliases: &[] },
        Codepoint { codepoint: 0x144CA, name: "ANATOLIAN HIEROGLYPH A175", aliases: &[] },
        Codepoint { codepoint: 0x144CB, name: "ANATOLIAN HIEROGLYPH A176", aliases: &[] },
        Codepoint { codepoint: 0x144CC, name: "ANATOLIAN HIEROGLYPH A177", aliases: &[] },
        Codepoint { codepoint: 0x144CD, name: "ANATOLIAN HIEROGLYPH A178", aliases: &[] },
        Codepoint { codepoint: 0x144CE, name: "ANATOLIAN HIEROGLYPH A179", aliases: &[] },
        Codepoint { codepoint: 0x144CF, name: "ANATOLIAN HIEROGLYPH A180", aliases: &[] },
        Codepoint { codepoint: 0x144D0, name: "ANATOLIAN HIEROGLYPH A181", aliases: &[] },
        Codepoint { codepoint: 0x144D1, name: "ANATOLIAN HIEROGLYPH A182", aliases: &[] },
        Codepoint { codepoint: 0x144D2, name: "ANATOLIAN HIEROGLYPH A183", aliases: &[] },
        Codepoint { codepoint: 0x144D3, name: "ANATOLIAN HIEROGLYPH A184", aliases: &[] },
        Codepoint { codepoint: 0x144D4, name: "ANATOLIAN HIEROGLYPH A185", aliases: &[] },
        Codepoint { codepoint: 0x144D5, name: "ANATOLIAN HIEROGLYPH A186", aliases: &[] },
        Codepoint { codepoint: 0x144D6, name: "ANATOLIAN HIEROGLYPH A187", aliases: &[] },
        Codepoint { codepoint: 0x144D7, name: "ANATOLIAN HIEROGLYPH A188", aliases: &[] },
        Codepoint { codepoint: 0x144D8, name: "ANATOLIAN HIEROGLYPH A189", aliases: &[] },
        Codepoint { codepoint: 0x144D9, name: "ANATOLIAN HIEROGLYPH A190", aliases: &[] },
        Codepoint { codepoint: 0x144DA, name: "ANATOLIAN HIEROGLYPH A191", aliases: &[] },
        Codepoint { codepoint: 0x144DB, name: "ANATOLIAN HIEROGLYPH A192", aliases: &[] },
        Codepoint { codepoint: 0x144DC, name: "ANATOLIAN HIEROGLYPH A193", aliases: &[] },
        Codepoint { codepoint: 0x144DD, name: "ANATOLIAN HIEROGLYPH A194", aliases: &[] },
        Codepoint { codepoint: 0x144DE, name: "ANATOLIAN HIEROGLYPH A195", aliases: &[] },
        Codepoint { codepoint: 0x144DF, name: "ANATOLIAN HIEROGLYPH A196", aliases: &[] },
        Codepoint { codepoint: 0x144E0, name: "ANATOLIAN HIEROGLYPH A197", aliases: &[] },
        Codepoint { codepoint: 0x144E1, name: "ANATOLIAN HIEROGLYPH A198", aliases: &[] },
        Codepoint { codepoint: 0x144E2, name: "ANATOLIAN HIEROGLYPH A199", aliases: &[] },
        Codepoint { codepoint: 0x144E3, name: "ANATOLIAN HIEROGLYPH A200", aliases: &[] },
        Codepoint { codepoint: 0x144E4, name: "ANATOLIAN HIEROGLYPH A201", aliases: &[] },
    ]
}

fn all_codepoints_606() -> (v: Vec<Codepoint>)
    ensures
        v@ == codepoint_table_606(),
{
    let v = vec![
        Codepoint { codepoint: 0x144BD, name: "ANATOLIAN HIEROGLYPH A162", aliases: &[] },
        Codepoint { codepoint: 0x144BE, name: "ANATOLIAN HIEROGLYPH A163", aliases: &[] },
        Codepoint { codepoint: 0x144BF, name: "ANATOLIAN HIEROGLYPH A164", aliases: &[] },
        Codepoint { codepoint: 0x144C0, name: "ANATOLIAN HIEROGLYPH A165", aliases: &[] },
        Codepoint { codepoint: 0x144C1, name: "ANATOLIAN HIEROGLYPH A166", aliases: &[] },
        Codepoint { codepoint: 0x144C2, name: "ANATOLIAN HIEROGLYPH A167", aliases: &[] },
        Codepoint { codepoint: 0x144C3, name: "ANATOLIAN HIEROGLYPH A168", aliases: &[] },
        Codepoint { codepoint: 0x144C4, name: "ANATOLIAN HIEROGLYPH A169", aliases: &[] },
        Codepoint { codepoint: 0x144C5, name: "ANATOLIAN HIEROGLYPH A170", aliases: &[] },
        Codepoint { codepoint: 0x144C6, name: "ANATOLIAN HIEROGLYPH A171", aliases: &[] },
        Codepoint { codepoint: 0x144C7, name: "ANATOLIAN HIEROGLYPH A172", aliases: &[] },
        Codepoint { codepoint: 0x144C8, name: "ANATOLIAN HIEROGLYPH A173", aliases: &[] },
        Codepoint { codepoint: 0x144C9, name: "ANATOLIAN HIEROGLYPH A174", aliases: &[] },
        Codepoint { codepoint: 0x144CA, name: "ANATOLIAN HIEROGLYPH A175", aliases: &[] },
        Codepoint { codepoint: 0x144CB, name: "ANATOLIAN HIEROGLYPH A176", aliases: &[] },
        Codepoint { codepoint: 0x144CC, name: "ANATOLIAN HIEROGLYPH A177", aliases: &[] },
        Codepoint { codepoint: 0x144CD, name: "ANATOLIAN HIEROGLYPH A178", aliases: &[] },
        Codepoint { codepoint: 0x144CE, name: "ANATOLIAN HIEROGLYPH A179", aliases: &[] },
        Codepoint { codepoint: 0x144CF, name: "ANATOLIAN HIEROGLYPH A180", aliases: &[] },
        Codepoint { codepoint: 0x144D0, name: "ANATOLIAN HIEROGLYPH A181", aliases: &[] },
        Codepoint { codepoint: 0x144D1, name: "ANATOLIAN HIEROGLYPH A182", aliases: &[] },
        Codepoint { codepoint: 0x144D2, name: "ANATOLIAN HIEROGLYPH A183", aliases: &[] },
        Codepoint { codepoint: 0x144D3, name: "ANATOLIAN HIEROGLYPH A184", aliases: &[] },
        Codepoint { codepoint: 0x144D4, name: "ANATOLIAN HIEROGLYPH A185", aliases: &[] },
        Codepoint { codepoint: 0x144D5, name: "ANATOLIAN HIEROGLYPH A186", aliases: &[] },
        Codepoint { codepoint: 0x144D6, name: "ANATOLIAN HIEROGLYPH A187", aliases: &[] },
        Codepoint { codepoint: 0x144D7, name: "ANATOLIAN HIEROGLYPH A188", aliases: &[] },
        Codepoint { codepoint: 0x144D8, name: "ANATOLIAN HIEROGLYPH A189", aliases: &[] },
        Codepoint { codepoint: 0x144D9, name: "ANATOLIAN HIEROGLYPH A190", aliases: &[] },
        Codepoint { codepoint: 0x144DA, name: "ANATOLIAN HIEROGLYPH A191", aliases: &[] },
        Codepoint { codepoint: 0x144DB, name: "ANATOLIAN HIEROGLYPH A192", aliases: &[] },
        Codepoint { codepoint: 0x144DC, name: "ANATOLIAN HIEROGLYPH A193", aliases: &[] },
        Codepoint { codepoint: 0x144DD, name: "ANATOLIAN HIEROGLYPH A194", aliases: &[] },
        Codepoint { codepoint: 0x144DE, name: "ANATOLIAN HIEROGLYPH A195", aliases: &[] },
        Codepoint { codepoint: 0x144DF, name: "ANATOLIAN HIEROGLYPH A196", aliases: &[] },
        Codepoint { codepoint: 0x144E0, name: "ANATOLIAN HIEROGLYPH A197", aliases: &[] },
        Codepoint { codepoint: 0x144E1, name: "ANATOLIAN HIEROGLYPH A198", aliases: &[] },
        Codepoint { codepoint: 0x144E2, name: "ANATOLIAN HIEROGLYPH A199", aliases: &[] },
        Codepoint { codepoint: 0x144E3, name: "ANATOLIAN HIEROGLYPH A200", aliases: &[] },
        Codepoint { codepoint: 0x144E4, name: "ANATOLIAN HIEROGLYPH A201", aliases: &[] },
    ];
    assert(v@ =~= codepoint_table_606());
    v
}

pub open spec fn codepoint_table_607() -> Seq<Codepoint> {
    seq![
        Codepoint { codepoint: 0x144E5, name: "ANATOLIAN HIEROGLYPH A202", aliases: &[] },
        Codepoint { codepoint: 0x144E6, name: "ANATOLIAN HIEROGLYPH A202A", aliases: &[] },
        Codepoint { codepoint: 0x144E7, name: "ANATOLIAN HIEROGLYPH A202B", aliases: &[] },
        Codepoint { codepoint: 0x144E8, name: "ANATOLIAN HIEROGLYPH A203", aliases: &[] },
        Codepoint { codepoint: 0x144E9, name: "ANATOLIAN HIEROGLYPH A204", aliases: &[] },
        Codepoint { codepoint: 0x144EA, name: "ANATOLIAN HIEROGLYPH A205", aliases: &[] },
        Codepoint { codepoint: 0x144EB, name: "ANATOLIAN HIEROGLYPH A206", aliases: &[] },
        Codepoint { codepoint: 0x144EC, name: "ANATOLIAN HIEROGLYPH A207", aliases: &[] },
        Codepoint { codepoint: 0x144ED, name: "ANATOLIAN HIEROGLYPH A207A", aliases: &[] },
        Codepoint { codepoint: 0x144EE, name: "ANATOLIAN HIEROGLYPH A208", aliases: &[] },
        Codepoint { codepoint: 0x144EF, name: "ANATOLIAN HIEROGLYPH A209", aliases: &[] },
        Codepoint { codepoint: 0x144F0, name: "ANATOLIAN HIEROGLYPH A209A", aliases: &[] },
        Codepoint { codepoint: 0x144F1, name: "ANATOLIAN HIEROGLYPH A210", aliases: &[] },
        Codepoint { codepoint: 0x144F2, name: "ANATOLIAN HIEROGLYPH A211", aliases: &[] },
        Codepoint { codepoint: 0x144F3, name: "ANATOLIAN HIEROGLYPH A212", aliases: &[] },
        Codepoint { codepoint: 0x144F4, name: "ANATOLIAN HIEROGLYPH A213", aliases: &[] },
        Codepoint { codepoint: 0x144F5, name: "ANATOLIAN HIEROGLYPH A214", aliases: &[] },
        Codepoint { codepoint: 0x144F6, name: "ANATOLIAN HIEROGLYPH A215", aliases: &[] },
        Codepoint { codepoint: 0x144F7, name: "ANATOLIAN HIEROGLYPH A215A", aliases: &[] },
        Codepoint { codepoint: 0x144F8, name: "ANATOLIAN HIEROGLYPH A216", aliases: &[] },
        Codepoint { codepoint: 0x144F9, name: "ANATOLIAN HIEROGLYPH A216A", aliases: &[] },
        Codepoint { codepoint: 0x144FA, name: "ANATOLIAN HIEROGLYPH A217", aliases: &[] },
        Codepoint { codepoint: 0x144FB, name: "ANATOLIAN HIEROGLYPH A218", aliases: &[] },
        Codepoint { codepoint: 0x144FC, name: "ANATOLIAN HIEROGLYPH A219", aliases: &[] },
        Codepoint { codepoint: 0x144FD, name: "ANATOLIAN HIEROGLYPH A220", aliases: &[] },
        Codepoint { codepoint: 0x144FE, name: "ANATOLIAN HIEROGLYPH A221", aliases: &[] },
        Codepoint { codepoint: 0x144FF, name: "ANATOLIAN HIEROGLYPH A222", aliases: &[] },
        Codepoint { codepoint: 0x14500, name: "ANATOLIAN HIEROGLYPH A223", aliases: &[] },
        Codepoint { codepoint: 0x14501, name: "ANATOLIAN HIEROGLYPH A224", aliases: &[] },
        Codepoint { codepoint: 0x14502, name: "ANATOLIAN HIEROGLYPH A225", aliases: &[] },
        Codepoint { codepoint: 0x14503, name: "ANATOLIAN HIEROGLYPH A226", aliases: &[] },
        Codepoint { codepoint: 0x14504, name: "ANATOLIAN HIEROGLYPH A227", aliases: &[] },
        Codepoint { codepoint: 0x14505, name: "ANATOLIAN HIEROGLYPH A227A", aliases: &[] },
        Codepoint { codepoint: 0x14506, name: "ANATOLIAN HIEROGLYPH A228", aliases: &[] },
        Codepoint { codepoint: 0x14507, name: "ANATOLIAN HIEROGLYPH A229", aliases: &[] },
        Codepoint { codepoint: 0x14508, name: "ANATOLIAN HIEROGLYPH A230", aliases: &[] },
        Codepoint { codepoint: 0x14509, name: "ANATOLIAN HIEROGLYPH A231", aliases: &[] },
        Codepoint { codepoint: 0x1450A, name: "ANATOLIAN HIEROGLYPH A232", aliases: &[] },
        Codepoint { codepoint: 0x1450B, name: "ANATOLIAN HIEROGLYPH A233", aliases: &[] },
        Codepoint { codepoint: 0x1450C, name: "ANATOLIAN HIEROGLYPH A234", aliases: &[] },
    ]
}

fn all_codepoints_607() -> (v: Vec<Codepoint>)
    ensures
        v@ == codepoint_table_607(),
{
    let v = vec![
        Codepoint { codepoint: 0x144E5, name: "ANATOLIAN HIEROGLYPH A202", aliases: &[] },
        Codepoint { codepoint: 0x144E6, name: "ANATOLIAN HIEROGLYPH A202A", aliases: &[] },
        Codepoint { codepoint: 0x144E7, name: "ANATOLIAN HIEROGLYPH A202B", aliases: &[] },
        Codepoint { codepoint: 0x144E8, name: "ANATOLIAN HIEROGLYPH A203", aliases: &[] },
        Codepoint { codepoint: 0x144E9, name: "ANATOLIAN HIEROGLYPH A204", aliases: &[] },
        Codepoint { codepoint: 0x144EA, name: "ANATOLIAN HIEROGLYPH A205", aliases: &[] },
        Codepoint { codepoint: 0x144EB, name: "ANATOLIAN HIEROGLYPH A206", aliases: &[] },
        Codepoint { codepoint: 0x144EC, name: "ANATOLIAN HIEROGLYPH A207", aliases: &[] },
        Codepoint { codepoint: 0x144ED, name: "ANATOLIAN HIEROGLYPH A207A", aliases: &[] },
        Codepoint { codepoint: 0x144EE, name: "ANATOLIAN HIEROGLYPH A208", aliases: &[] },
        Codepoint { codepoint: 0x144EF, name: "ANATOLIAN HIEROGLYPH A209", aliases: &[] },
        Codepoint { codepoint: 0x144F0, name: "ANATOLIAN HIEROGLYPH A209A", aliases: &[] },
        Codepoint { codepoint: 0x144F1, name: "ANATOLIAN HIEROGLYPH A210", aliases: &[] },
        Codepoint { codepoint: 0x144F2, name: "ANATOLIAN HIEROGLYPH A211", aliases: &[] },
        Codepoint { codepoint: 0x144F3, name: "ANATOLIAN HIEROGLYPH A212", aliases: &[] },
        Codepoint { codepoint: 0x144F4, name: "ANATOLIAN HIEROGLYPH A213", aliases: &[] },
        Codepoint { codepoint: 0x144F5, name: "ANATOLIAN HIEROGLYPH A214", aliases: &[] },
        Codepoint { codepoint: 0x144F6, name: "ANATOLIAN HIEROGLYPH A215", aliases: &[] },
        Codepoint { codepoint: 0x144F7, name: "ANATOLIAN HIEROGLYPH A215A", aliases: &[] },
        Codepoint { codepoint: 0x144F8, name: "ANATOLIAN HIEROGLYPH A216", aliases: &[] },
        Codepoint { codepoint: 0x144F9, name: "ANATOLIAN HIEROGLYPH A216A", aliases: &[] },
        Codepoint { codepoint: 0x144FA, name: "ANATOLIAN HIEROGLYPH A217", aliases: &[] },
        Codepoint { codepoint: 0x144FB, name: "ANATOLIAN HIEROGLYPH A218", aliases: &[] },
        Codepoint { codepoint: 0x144FC, name: "ANATOLIAN HIEROGLYPH A219", aliases: &[] },
        Codepoint { codepoint: 0x144FD, name: "ANATOLIAN HIEROGLYPH A220", aliases: &[] },
        Codepoint { codepoint: 0x144FE, name: "ANATOLIAN HIEROGLYPH A221", aliases: &[] },
        Codepoint { codepoint: 0x144FF, name: "ANATOLIAN HIEROGLYPH A222", aliases: &[] },
        Codepoint { codepoint: 0x14500, name: "ANATOLIAN HIEROGLYPH A223", aliases: &[] },
        Codepoint { codepoint: 0x14501, name: "ANATOLIAN HIEROGLYPH A224", aliases: &[] },
        Codepoint { codepoint: 0x14502, name: "ANATOLIAN HIEROGLYPH A225", aliases: &[] },
        Codepoint { codepoint: 0x14503, name: "ANATOLIAN HIEROGLYPH A226", aliases: &[] },
        Codepoint { codepoint: 0x14504, name: "ANATOLIAN HIEROGLYPH A227", aliases: &[] },
        Codepoint { codepoint: 0x14505, name: "ANATOLIAN HIEROGLYPH A227A", aliases: &[] },
        Codepoint { codepoint: 0x14506, name: "ANATOLIAN HIEROGLYPH A228", aliases: &[] },
        Codepoint { codepoint: 0x14507, name: "ANATOLIAN HIEROGLYPH A229", aliases: &[] },
        Codepoint { codepoint: 0x14508, name: "ANATOLIAN HIEROGLYPH A230", aliases: &[] },
        Codepoint { codepoint: 0x14509, name: "ANATOLIAN HIEROGLYPH A231", aliases: &[] },
        Codepoint { codepoint: 0x1450A, name: "ANATOLIAN HIEROGLYPH A232", aliases: &[] },
        Codepoint { codepoint: 0x1450B, name: "ANATOLIAN HIEROGLYPH A233", aliases: &[] },
        Codepoint { codepoint: 0x1450C, name: "ANATOLIAN HIEROGLYPH A234", aliases: &[] },
    ];
    assert(v@ =~= codepoint_table_607());
    v
}

pub open spec fn codepoint_table_608() -> Seq<Codepoint> {
    seq![
        Codepoint { codepoint: 0x1450D, name: "ANATOLIAN HIEROGLYPH A235", aliases: &[] },
        Codepoint { codepoint: 0x1450E, name: "ANATOLIAN HIEROGLYPH A236", aliases: &[] },
        Codepoint { codepoint: 0x1450F, name: "ANATOLIAN HIEROGLYPH A237", aliases: &[] },
        Codepoint { codepoint: 0x14510, name: "ANATOLIAN HIEROGLYPH A238", aliases: &[] },
        Codepoint { codepoint: 0x14511, name: "ANATOLIAN HIEROGLYPH A239", aliases: &[] },
        Codepoint { codepoint: 0x14512, name: "ANATOLIAN HIEROGLYPH A240", aliases: &[] },
        Codepoint { codepoint: 0x14513, name: "ANATOLIAN HIEROGLYPH A241", aliases: &[] },
        Codepoint { codepoint: 0x14514, name: "ANATOLIAN HIEROGLYPH A242", aliases: &[] },
        Codepoint { codepoint: 0x14515, name: "ANATOLIAN HIEROGLYPH A243", aliases: &[] },
        Codepoint { codepoint: 0x14516, name: "ANATOLIAN HIEROGLYPH A244", aliases: &[] },
        Codepoint { codepoint: 0x14517, name: "ANATOLIAN HIEROGLYPH A245", aliases: &[] },
        Codepoint { codepoint: 0x14518, name: "ANATOLIAN HIEROGLYPH A246", aliases: &[] },
        Codepoint { codepoint: 0x14519, name: "ANATOLIAN HIEROGLYPH A247", aliases: &[] },
        Codepoint { codepoint: 0x1451A, name: "ANATOLIAN HIEROGLYPH A248", aliases: &[] },
        Codepoint { codepoint: 0x1451B, name: "ANATOLIAN HIEROGLYPH A249", aliases: &[] },
        Codepoint { codepoint: 0x1451C, name: "ANATOLIAN HIEROGLYPH A250", aliases: &[] },
        Codepoint { codepoint: 0x1451D, name: "ANATOLIAN HIEROGLYPH A251", aliases: &[] },
        Codepoint { codepoint: 0x1451E, name: "ANATOLIAN HIEROGLYPH A252", aliases: &[] },
        Codepoint { codepoint: 0x1451F, name: "ANATOLIAN HIEROGLYPH A253", aliases: &[] },
        Codepoint { codepoint: 0x14520, name: "ANATOLIAN HIEROGLYPH A254", aliases: &[] },
        Codepoint { codepoint: 0x14521, name: "ANATOLIAN HIEROGLYPH A255", aliases: &[] },
        Codepoint { codepoint: 0x14522, name: "ANATOLIAN HIEROGLYPH A256", aliases: &[] },
        Codepoint { codepoint: 0x14523, name: "ANATOLIAN HIEROGLYPH A257", aliases: &[] },
        Codepoint { codepoint: 0x14524, name: "ANATOLIAN HIEROGLYPH A258", aliases: &[] },
        Codepoint { codepoint: 0x14525, name: "ANATOLIAN HIEROGLYPH A259", aliases: &[] },
        Codepoint { codepoint: 0x14526, name: "ANATOLIAN HIEROGLYPH A260", aliases: &[] },
        Codepoint { codepoint: 0x14527, name: "ANATOLIAN HIEROGLYPH A261", aliases: &[] },
        Codepoint { codepoint: 0x14528, name: "ANATOLIAN HIEROGLYPH A262", aliases: &[] },
        Codepoint { codepoint: 0x14529, name: "ANATOLIAN HIEROGLYPH A263", aliases: &[] },
        Codepoint { codepoint: 0x1452A, name: "ANATOLIAN HIEROGLYPH A264", aliases: &[] },
        Codepoint { codepoint: 0x1452B, name: "ANATOLIAN HIEROGLYPH A265", aliases: &[] },
        Codepoint { codepoint: 0x1452C, name: "ANATOLIAN HIEROGLYPH A266", aliases: &[] },
        Codepoint { codepoint: 0x1452D, name: "ANATOLIAN HIEROGLYPH A267", aliases: &[] },
        Codepoint { codepoint: 0x1452E, name: "ANATOLIAN HIEROGLYPH A267A", aliases: &[] },
        Codepoint { codepoint: 0x1452F, name: "ANATOLIAN HIEROGLYPH A268", aliases: &[] },
        Codepoint { codepoint: 0x14530, name: "ANATOLIAN HIEROGLYPH A269", aliases: &[] },
        Codepoint { codepoint: 0x14531, name: "ANATOLIAN HIEROGLYPH A270", aliases: &[] },
        Codepoint { codepoint: 0x14532, name: "ANATOLIAN HIEROGLYPH A271", aliases: &[] },
        Codepoint { codepoint: 0x14533, name: "ANATOLIAN HIEROGLYPH A272", aliases: &[] },
        Codepoint { codepoint: 0x14534, name: "ANATOLIAN HIEROGLYPH A273", aliases: &[] },
    ]
}

fn all_codepoints_608() -> (v: Vec<Codepoint>)
    ensures
        v@ == codepoint_table_608(),
{
    let v = vec![
        Codepoint { codepoint: 0x1450D, name: "ANATOLIAN HIEROGLYPH A235", aliases: &[] },
        Codepoint { codepoint: 0x1450E, name: "ANATOLIAN HIEROGLYPH A236", aliases: &[] },
        Codepoint { codepoint: 0x1450F, name: "ANATOLIAN HIEROGLYPH A237", aliases: &[] },
        Codepoint { codepoint: 0x14510, name: "ANATOLIAN HIEROGLYPH A238", aliases: &[] },
        Codepoint { codepoint: 0x14511, name: "ANATOLIAN HIEROGLYPH A239", aliases: &[] },
        Codepoint { codepoint: 0x14512, name: "ANATOLIAN HIEROGLYPH A240", aliases: &[] },
        Codepoint { codepoint: 0x14513, name: "ANATOLIAN HIEROGLYPH A241", aliases: &[] },
        Codepoint { codepoint: 0x14514, name: "ANATOLIAN HIEROGLYPH A242", aliases: &[] },
        Codepoint { codepoint: 0x14515, name: "ANATOLIAN HIEROGLYPH A243", aliases: &[] },
        Codepoint { codepoint: 0x14516, name: "ANATOLIAN HIEROGLYPH A244", aliases: &[] },
        Codepoint { codepoint: 0x14517, name: "ANATOLIAN HIEROGLYPH A245", aliases: &[] },
        Codepoint { codepoint: 0x14518, name: "ANATOLIAN HIEROGLYPH A246", aliases: &[] },
        Codepoint { codepoint: 0x14519, name: "ANATOLIAN HIEROGLYPH A247", aliases: &[] },
        Codepoint { codepoint: 0x1451A, name: "ANATOLIAN HIEROGLYPH A248", aliases: &[] },
        Codepoint { codepoint: 0x1451B, name: "ANATOLIAN HIEROGLYPH A249", aliases: &[] },
        Codepoint { codepoint: 0x1451C, name: "ANATOLIAN HIEROGLYPH A250", aliases: &[] },
        Codepoint { codepoint: 0x1451D, name: "ANATOLIAN HIEROGLYPH A251", aliases: &[] },
        Codepoint { codepoint: 0x1451E, name: "ANATOLIAN HIEROGLYPH A252", aliases: &[] },
        Codepoint { codepoint: 0x1451F, name: "ANATOLIAN HIEROGLYPH A253", aliases: &[] },
        Codepoint { codepoint: 0x14520, name: "ANATOLIAN HIEROGLYPH A254", aliases: &[] },
        Codepoint { codepoint: 0x14521, name: "ANATOLIAN HIEROGLYPH A255", aliases: &[] },
        Codepoint { codepoint: 0x14522, name: "ANATOLIAN HIEROGLYPH A256", aliases: &[] },
        Codepoint { codepoint: 0x14523, name: "ANATOLIAN HIEROGLYPH A257", aliases: &[] },
        Codepoint { codepoint: 0x14524, name: "ANATOLIAN HIEROGLYPH A258", aliases: &[] },
        Codepoint { codepoint: 0x14525, name: "ANATOLIAN HIEROGLYPH A259", aliases: &[] },
        Codepoint { codepoint: 0x14526, name: "ANATOLIAN HIEROGLYPH A260", aliases: &[] },
        Codepoint { codepoint: 0x14527, name: "ANATOLIAN HIEROGLYPH A261", aliases: &[] },
        Codepoint { codepoint: 0x14528, name: "ANATOLIAN HIEROGLYPH A262", aliases: &[] },
        Codepoint { codepoint: 0x14529, name: "ANATOLIAN HIEROGLYPH A263", aliases: &[] },
        Codepoint { codepoint: 0x1452A, name: "ANATOLIAN HIEROGLYPH A264", aliases: &[] },
        Codepoint { codepoint: 0x1452B, name: "ANATOLIAN HIEROGLYPH A265", aliases: &[] },
        Codepoint { codepoint: 0x1452C, name: "ANATOLIAN HIEROGLYPH A266", aliases: &[] },
        Codepoint { codepoint: 0x1452D, name: "ANATOLIAN HIEROGLYPH A267", aliases: &[] },
        Codepoint { codepoint: 0x1452E, name: "ANATOLIAN HIEROGLYPH A267A", aliases: &[] },
        Codepoint { codepoint: 0x1452F, name: "ANATOLIAN HIEROGLYPH A268", aliases: &[] },
        Codepoint { codepoint: 0x14530, name: "ANATOLIAN HIEROGLYPH A269", aliases: &[] },
        Codepoint { codepoint: 0x14531, name: "ANATOLIAN HIEROGLYPH A270", aliases: &[] },
        Codepoint { codepoint: 0x14532, name: "ANATOLIAN HIEROGLYPH A271", aliases: &[] },
        Codepoint { codepoint: 0x14533, name: "ANATOLIAN HIEROGLYPH A272", aliases: &[] },
        Codepoint { codepoint: 0x14534, name: "ANATOLIAN HIEROGLYPH A273", aliases: &[] },
    ];
    assert(v@ =~= codepoint_table_608());
    v
}

pub open spec fn codepoint_table_609() -> Seq<Codepoint> {
    seq![
        Codepoint { codepoint: 0x14535, name: "ANATOLIAN HIEROGLYPH A274", aliases: &[] },
        Codepoint { codepoint: 0x14536, name: "ANATOLIAN HIEROGLYPH A275", aliases: &[] },
        Codepoint { codepoint: 0x14537, name: "ANATOLIAN HIEROGLYPH A276", aliases: &[] },
        Codepoint { codepoint: 0x14538, name: "ANATOLIAN HIEROGLYPH A277", aliases: &[] },
        Codepoint { codepoint: 0x14539, name: "ANATOLIAN HIEROGLYPH A278", aliases: &[] },
        Codepoint { codepoint: 0x1453A, name: "ANATOLIAN HIEROGLYPH A279", aliases: &[] },
        Codepoint { codepoint: 0x1453B, name: "ANATOLIAN HIEROGLYPH A280", aliases: &[] },
        Codepoint { codepoint: 0x1453C, name: "ANATOLIAN HIEROGLYPH A281", aliases: &[] },
        Codepoint { codepoint: 0x1453D, name: "ANATOLIAN HIEROGLYPH A282", aliases: &[] },
        Codepoint { codepoint: 0x1453E, name: "ANATOLIAN HIEROGLYPH A283", aliases: &[] },
        Codepoint { codepoint: 0x1453F, name: "ANATOLIAN HIEROGLYPH A284", aliases: &[] },
        Codepoint { codepoint: 0x14540, name: "ANATOLIAN HIEROGLYPH A285", aliases: &[] },
        Codepoint { codepoint: 0x14541, name: "ANATOLIAN HIEROGLYPH A286", aliases: &[] },
        Codepoint { codepoint: 0x14542, name: "ANATOLIAN HIEROGLYPH A287", aliases: &[] },
        Codepoint { codepoint: 0x14543, name: "ANATOLIAN HIEROGLYPH A288", aliases: &[] },
        Codepoint { codepoint: 0x14544, name: "ANATOLIAN HIEROGLYPH A289", aliases: &[] },
        Codepoint { codepoint: 0x14545, name: "ANATOLIAN HIEROGLYPH A289A", aliases: &[] },
        Codepoint { codepoint: 0x14546, name: "ANATOLIAN HIEROGLYPH A290", aliases: &[] },
        Codepoint { codepoint: 0x14547, name: "ANATOLIAN HIEROGLYPH A291", aliases: &[] },
        Codepoint { codepoint: 0x14548, name: "ANATOLIAN HIEROGLYPH A292", aliases: &[] },
        Codepoint { codepoint: 0x14549, name: "ANATOLIAN HIEROGLYPH A293", aliases: &[] },
        Codepoint { codepoint: 0x1454A, name: "ANATOLIAN HIEROGLYPH A294", aliases: &[] },
        Codepoint { codepoint: 0x1454B, name: "ANATOLIAN HIEROGLYPH A294A", aliases: &[] },
        Codepoint { codepoint: 0x1454C, name: "ANATOLIAN HIEROGLYPH A295", aliases: &[] },
        Codepoint { codepoint: 0x1454D, name: "ANATOLIAN HIEROGLYPH A296", aliases: &[] },
        Codepoint { codepoint: 0x1454E, name: "ANATOLIAN HIEROGLYPH A297", aliases: &[] },
        Codepoint { codepoint: 0x1454F, name: "ANATOLIAN HIEROGLYPH A298", aliases: &[] },
        Codepoint { codepoint: 0x14550, name: "ANATOLIAN HIEROGLYPH A299", aliases: &[] },
        Codepoint { codepoint: 0x14551, name: "ANATOLIAN HIEROGLYPH A299A", aliases: &[] },
        Codepoint { codepoint: 0x14552, name: "ANATOLIAN HIEROGLYPH A300", aliases: &[] },
        Codepoint { codepoint: 0x14553, name: "ANATOLIAN HIEROGLYPH A301", aliases: &[] },
        Codepoint { codepoint: 0x14554, name: "ANATOLIAN HIEROGLYPH A302", aliases: &[] },
        Codepoint { codepoint: 0x14555, name: "ANATOLIAN HIEROGLYPH A303", aliases: &[] },
        Codepoint { codepoint: 0x14556, name: "ANATOLIAN HIEROGLYPH A304", aliases: &[] },
        Codepoint { codepoint: 0x14557, name: "ANATOLIAN HIEROGLYPH A305", aliases: &[] },
        Codepoint { codepoint: 0x14558, name: "ANATOLIAN HIEROGLYPH A306", aliases: &[] },
        Codepoint { codepoint: 0x14559, name: "ANATOLIAN HIEROGLYPH A307", aliases: &[] },
        Codepoint { codepoint: 0x1455A, name: "ANATOLIAN HIEROGLYPH A308", aliases: &[] },
        Codepoint { codepoint: 0x1455B, name: "ANATOLIAN HIEROGLYPH A309", aliases: &[] },
        Codepoint { codepoint: 0x1455C, name: "ANATOLIAN HIEROGLYPH A309A", aliases: &[] },
    ]
}

fn all_codepoints_609() -> (v: Vec<Codepoint>)
    ensures
        v@ == codepoint_table_609(),
{
    let v = vec![
        Codepoint { codepoint: 0x14535, name: "ANATOLIAN HIEROGLYPH A274", aliases: &[] },
        Codepoint { codepoint: 0x14536, name: "ANATOLIAN HIEROGLYPH A275", aliases: &[] },
        Codepoint { codepoint: 0x14537, name: "ANATOLIAN HIEROGLYPH A276", aliases: &[] },
        Codepoint { codepoint: 0x14538, name: "ANATOLIAN HIEROGLYPH A277", aliases: &[] },
        Codepoint { codepoint: 0x14539, name: "ANATOLIAN HIEROGLYPH A278", aliases: &[] },
        Codepoint { codepoint: 0x1453A, name: "ANATOLIAN HIEROGLYPH A279", aliases: &[] },
        Codepoint { codepoint: 0x1453B, name: "ANATOLIAN HIEROGLYPH A280", aliases: &[] },
        Codepoint { codepoint: 0x1453C, name: "ANATOLIAN HIEROGLYPH A281", aliases: &[] },
        Codepoint { codepoint: 0x1453D, name: "ANATOLIAN HIEROGLYPH A282", aliases: &[] },
        Codepoint { codepoint: 0x1453E, name: "ANATOLIAN HIEROGLYPH A283", aliases: &[] },
        Codepoint { codepoint: 0x1453F, name: "ANATOLIAN HIEROGLYPH A284", aliases: &[] },
        Codepoint { codepoint: 0x14540, name: "ANATOLIAN HIEROGLYPH A285", aliases: &[] },
        Codepoint { codepoint: 0x14541, name: "ANATOLIAN HIEROGLYPH A286", aliases: &[] },
        Codepoint { codepoint: 0x14542, name: "ANATOLIAN HIEROGLYPH A287", aliases: &[] },
        Codepoint { codepoint: 0x14543, name: "ANATOLIAN HIEROGLYPH A288", aliases: &[] },
        Codepoint { codepoint: 0x14544, name: "ANATOLIAN HIEROGLYPH A289", aliases: &[] },
        Codepoint { codepoint: 0x14545, name: "ANATOLIAN HIEROGLYPH A289A", aliases: &[] },
        Codepoint { codepoint: 0x14546, name: "ANATOLIAN HIEROGLYPH A290", aliases: &[] },
        Codepoint { codepoint: 0x14547, name: "ANATOLIAN HIEROGLYPH A291", aliases: &[] },
        Codepoint { codepoint: 0x14548, name: "ANATOLIAN HIEROGLYPH A292", aliases: &[] },
        Codepoint { codepoint: 0x14549, name: "ANATOLIAN HIEROGLYPH A293", aliases: &[] },
        Codepoint { codepoint: 0x1454A, name: "ANATOLIAN HIEROGLYPH A294", aliases: &[] },
        Codepoint { codepoint: 0x1454B, name: "ANATOLIAN HIEROGLYPH A294A", aliases: &[] },
        Codepoint { codepoint: 0x1454C, name: "ANATOLIAN HIEROGLYPH A295", aliases: &[] },
        Codepoint { codepoint: 0x1454D, name: "ANATOLIAN HIEROGLYPH A296", aliases: &[] },
        Codepoint { codepoint: 0x1454E, name: "ANATOLIAN HIEROGLYPH A297", aliases: &[] },
        Codepoint { codepoint: 0x1454F, name: "ANATOLIAN HIEROGLYPH A298", aliases: &[] },
        Codepoint { codepoint: 0x14550, name: "ANATOLIAN HIEROGLYPH A299", aliases: &[] },
        Codepoint { codepoint: 0x14551, name: "ANATOLIAN HIEROGLYPH A299A", aliases: &[] },
        Codepoint { codepoint: 0x14552, name: "ANATOLIAN HIEROGLYPH A300", aliases: &[] },
        Codepoint { codepoint: 0x14553, name: "ANATOLIAN HIEROGLYPH A301", aliases: &[] },
        Codepoint { codepoint: 0x14554, name: "ANATOLIAN HIEROGLYPH A302", aliases: &[] },
        Codepoint { codepoint: 0x14555, name: "ANATOLIAN HIEROGLYPH A303", aliases: &[] },
        Codepoint { codepoint: 0x14556, name: "ANATOLIAN HIEROGLYPH A304", aliases: &[] },
        Codepoint { codepoint: 0x14557, name: "ANATOLIAN HIEROGLYPH A305", aliases: &[] },
        Codepoint { codepoint: 0x14558, name: "ANATOLIAN HIEROGLYPH A306", aliases: &[] },
        Codepoint { codepoint: 0x14559, name: "ANATOLIAN HIEROGLYPH A307", aliases: &[] },
        Codepoint { codepoint: 0x1455A, name: "ANATOLIAN HIEROGLYPH A308", aliases: &[] },
        Codepoint { codepoint: 0x1455B, name: "ANATOLIAN HIEROGLYPH A309", aliases: &[] },
        Codepoint { codepoint: 0x1455C, name: "ANATOLIAN HIEROGLYPH A309A", aliases: &[] },
    ];
    assert(v@ =~= codepoint_table_609());
    v
}

pub open spec fn codepoint_table_610() -> Seq<Codepoint> {
    seq![
        Codepoint { codepoint: 0x1455D, name: "ANATOLIAN HIEROGLYPH A310", aliases: &[] },
        Codepoint { codepoint: 0x1455E, name: "ANATOLIAN HIEROGLYPH A311", aliases: &[] },
        Codepoint { codepoint: 0x1455F, name: "ANATOLIAN HIEROGLYPH A312", aliases: &[] },
        Codepoint { codepoint: 0x14560, name: "ANATOLIAN HIEROGLYPH A313", aliases: &[] },
        Codepoint { codepoint: 0x14561, name: "ANATOLIAN HIEROGLYPH A314", aliases: &[] },
        Codepoint { codepoint: 0x14562, name: "ANATOLIAN HIEROGLYPH A315", aliases: &[] },
        Codepoint { codepoint: 0x14563, name: "ANATOLIAN HIEROGLYPH A316", aliases: &[] },
        Codepoint { codepoint: 0x14564, name: "ANATOLIAN HIEROGLYPH A317", aliases: &[] },
        Codepoint { codepoint: 0x14565, name: "ANATOLIAN HIEROGLYPH A318", aliases: &[] },
        Codepoint { codepoint: 0x14566, name: "ANATOLIAN HIEROGLYPH A319", aliases: &[] },
        Codepoint { codepoint: 0x14567, name: "ANATOLIAN HIEROGLYPH A320", aliases: &[] },
        Codepoint { codepoint: 0x14568, name: "ANATOLIAN HIEROGLYPH A321", aliases: &[] },
        Codepoint { codepoint: 0x14569, name: "ANATOLIAN HIEROGLYPH A322", aliases: &[] },
        Codepoint { codepoint: 0x1456A, name: "ANATOLIAN HIEROGLYPH A323", aliases: &[] },
        Codepoint { codepoint: 0x1456B, name: "ANATOLIAN HIEROGLYPH A324", aliases: &[] },
        Codepoint { codepoint: 0x1456C, name: "ANATOLIAN HIEROGLYPH A325", aliases: &[] },
        Codepoint { codepoint: 0x1456D, name: "ANATOLIAN HIEROGLYPH A326", aliases: &[] },
        Codepoint { codepoint: 0x1456E, name: "ANATOLIAN HIEROGLYPH A327", aliases: &[] },
        Codepoint { codepoint: 0x1456F, name: "ANATOLIAN HIEROGLYPH A328", aliases: &[] },
        Codepoint { codepoint: 0x14570, name: "ANATOLIAN HIEROGLYPH A329", aliases: &[] },
        Codepoint { codepoint: 0x14571, name: "ANATOLIAN HIEROGLYPH A329A", aliases: &[] },
        Codepoint { codepoint: 0x14572, name: "ANATOLIAN HIEROGLYPH A330", aliases: &[] },
        Codepoint { codepoint: 0x14573, name: "ANATOLIAN HIEROGLYPH A331", aliases: &[] },
        Codepoint { codepoint: 0x14574, name: "ANATOLIAN HIEROGLYPH A332A", aliases: &[] },
        Codepoint { codepoint: 0x14575, name: "ANATOLIAN HIEROGLYPH A332B", aliases: &[] },
        Codepoint { codepoint: 0x14576, name: "ANATOLIAN HIEROGLYPH A332C", aliases: &[] },
        Codepoint { codepoint: 0x14577, name: "ANATOLIAN HIEROGLYPH A333", aliases: &[] },
        Codepoint { codepoint: 0x14578, name: "ANATOLIAN HIEROGLYPH A334", aliases: &[] },
        Codepoint { codepoint: 0x14579, name: "ANATOLIAN HIEROGLYPH A335", aliases: &[] },
        Codepoint { codepoint: 0x1457A, name: "ANATOLIAN HIEROGLYPH A336", aliases: &[] },
        Codepoint { codepoint: 0x1457B, name: "ANATOLIAN HIEROGLYPH A336A", aliases: &[] },
        Codepoint { codepoint: 0x1457C, name: "ANATOLIAN HIEROGLYPH A336B", aliases: &[] },
        Codepoint { codepoint: 0x1457D, name: "ANATOLIAN HIEROGLYPH A336C", aliases: &[] },
        Codepoint { codepoint: 0x1457E, name: "ANATOLIAN HIEROGLYPH A337", aliases: &[] },
        Codepoint { codepoint: 0x1457F, name: "ANATOLIAN HIEROGLYPH A338", aliases: &[] },
        Codepoint { codepoint: 0x14580, name: "ANATOLIAN HIEROGLYPH A339", aliases: &[] },
        Codepoint { codepoint: 0x14581, name: "ANATOLIAN HIEROGLYPH A340", aliases: &[] },
        Codepoint { codepoint: 0x14582, name: "ANATOLIAN HIEROGLYPH A341", aliases: &[] },
        Codepoint { codepoint: 0x14583, name: "ANATOLIAN HIEROGLYPH A342", aliases: &[] },
        Codepoint { codepoint: 0x14584, name: "ANATOLIAN HIEROGLYPH A343", aliases: &[] },
    ]
}

fn all_codepoints_610() -> (v: Vec<Codepoint>)
    ensures
        v@ == codepoint_table_610(),
{
    let v = vec![
        Codepoint { codepoint: 0x1455D, name: "ANATOLIAN HIEROGLYPH A310", aliases: &[] },
        Codepoint { codepoint: 0x1455E, name: "ANATOLIAN HIEROGLYPH A311", aliases: &[] },
        Codepoint { codepoint: 0x1455F, name: "ANATOLIAN HIEROGLYPH A312", aliases: &[] },
        Codepoint { codepoint: 0x14560, name: "ANATOLIAN HIEROGLYPH A313", aliases: &[] },
        Codepoint { codepoint: 0x14561, name: "ANATOLIAN HIEROGLYPH A314", aliases: &[] },
        Codepoint { codepoint: 0x14562, name: "ANATOLIAN HIEROGLYPH A315", aliases: &[] },
        Codepoint { codepoint: 0x14563, name: "ANATOLIAN HIEROGLYPH A316", aliases: &[] },
        Codepoint { codepoint: 0x14564, name: "ANATOLIAN HIEROGLYPH A317", aliases: &[] },
        Codepoint { codepoint: 0x14565, name: "ANATOLIAN HIEROGLYPH A318", aliases: &[] },
        Codepoint { codepoint: 0x14566, name: "ANATOLIAN HIEROGLYPH A319", aliases: &[] },
        Codepoint { codepoint: 0x14567, name: "ANATOLIAN HIEROGLYPH A320", aliases: &[] },
        Codepoint { codepoint: 0x14568, name: "ANATOLIAN HIEROGLYPH A321", aliases: &[] },
        Codepoint { codepoint: 0x14569, name: "ANATOLIAN HIEROGLYPH A322", aliases: &[] },
        Codepoint { codepoint: 0x1456A, name: "ANATOLIAN HIEROGLYPH A323", aliases: &[] },
        Codepoint { codepoint: 0x1456B, name: "ANATOLIAN HIEROGLYPH A324", aliases: &[] },
        Codepoint { codepoint: 0x1456C, name: "ANATOLIAN HIEROGLYPH A325", aliases: &[] },
        Codepoint { codepoint: 0x1456D, name: "ANATOLIAN HIEROGLYPH A326", aliases: &[] },
        Codepoint { codepoint: 0x1456E, name: "ANATOLIAN HIEROGLYPH A327", aliases: &[] },
        Codepoint { codepoint: 0x1456F, name: "ANATOLIAN HIEROGLYPH A328", aliases: &[] },
        Codepoint { codepoint: 0x14570, name: "ANATOLIAN HIEROGLYPH A329", aliases: &[] },
        Codepoint { codepoint: 0x14571, name: "ANATOLIAN HIEROGLYPH A329A", aliases: &[] },
        Codepoint { codepoint: 0x14572, name: "ANATOLIAN HIEROGLYPH A330", aliases: &[] },
        Codepoint { codepoint: 0x14573, name: "ANATOLIAN HIEROGLYPH A331", aliases: &[] },
        Codepoint { codepoint: 0x14574, name: "ANATOLIAN HIEROGLYPH A332A", aliases: &[] },
        Codepoint { codepoint: 0x14575, name: "ANATOLIAN HIEROGLYPH A332B", aliases: &[] },
        Codepoint { codepoint: 0x14576, name: "ANATOLIAN HIEROGLYPH A332C", aliases: &[] },
        Codepoint { codepoint: 0x14577, name: "ANATOLIAN HIEROGLYPH A333", aliases: &[] },
        Codepoint { codepoint: 0x14578, name: "ANATOLIAN HIEROGLYPH A334", aliases: &[] },
        Codepoint { codepoint: 0x14579, name: "ANATOLIAN HIEROGLYPH A335", aliases: &[] },
        Codepoint { codepoint: 0x1457A, name: "ANATOLIAN HIEROGLYPH A336", aliases: &[] },
        Codepoint { codepoint: 0x1457B, name: "ANATOLIAN HIEROGLYPH A336A", aliases: &[] },
        Codepoint { codepoint: 0x1457C, name: "ANATOLIAN HIEROGLYPH A336B", aliases: &[] },
        Codepoint { codepoint: 0x1457D, name: "ANATOLIAN HIEROGLYPH A336C", aliases: &[] },
        Codepoint { codepoint: 0x1457E, name: "ANATOLIAN HIEROGLYPH A337", aliases: &[] },
        Codepoint { codepoint: 0x1457F, name: "ANATOLIAN HIEROGLYPH A338", aliases: &[] },
        Codepoint { codepoint: 0x14580, name: "ANATOLIAN HIEROGLYPH A339", aliases: &[] },
        Codepoint { codepoint: 0x14581, name: "ANATOLIAN HIEROGLYPH A340", aliases: &[] },
        Codepoint { codepoint: 0x14582, name: "ANATOLIAN HIEROGLYPH A341", aliases: &[] },
        Codepoint { codepoint: 0x14583, name: "ANATOLIAN HIEROGLYPH A342", aliases: &[] },
        Codepoint { codepoint: 0x14584, name: "ANATOLIAN HIEROGLYPH A343", aliases: &[] },
    ];
    assert(v@ =~= codepoint_table_610());
    v
}

pub open spec fn codepoint_table_611() -> Seq<Codepoint> {
    seq![
        Codepoint { codepoint: 0x14585, name: "ANATOLIAN HIEROGLYPH A344", aliases: &[] },
        Codepoint { codepoint: 0x14586, name: "ANATOLIAN HIEROGLYPH A345", aliases: &[] },
        Codepoint { codepoint: 0x14587, name: "ANATOLIAN HIEROGLYPH A346", aliases: &[] },
        Codepoint { codepoint: 0x14588, name: "ANATOLIAN HIEROGLYPH A347", aliases: &[] },
        Codepoint { codepoint: 0x14589, name: "ANATOLIAN HIEROGLYPH A348", aliases: &[] },
        Codepoint { codepoint: 0x1458A, name: "ANATOLIAN HIEROGLYPH A349", aliases: &[] },
        Codepoint { codepoint: 0x1458B, name: "ANATOLIAN HIEROGLYPH A350", aliases: &[] },
        Codepoint { codepoint: 0x1458C, name: "ANATOLIAN HIEROGLYPH A351", aliases: &[] },
        Codepoint { codepoint: 0x1458D, name: "ANATOLIAN HIEROGLYPH A352", aliases: &[] },
        Codepoint { codepoint: 0x1458E, name: "ANATOLIAN HIEROGLYPH A353", aliases: &[] },
        Codepoint { codepoint: 0x1458F, name: "ANATOLIAN HIEROGLYPH A354", aliases: &[] },
        Codepoint { codepoint: 0x14590, name: "ANATOLIAN HIEROGLYPH A355", aliases: &[] },
        Codepoint { codepoint: 0x14591, name: "ANATOLIAN HIEROGLYPH A356", aliases: &[] },
        Codepoint { codepoint: 0x14592, name: "ANATOLIAN HIEROGLYPH A357", aliases: &[] },
        Codepoint { codepoint: 0x14593, name: "ANATOLIAN HIEROGLYPH A358", aliases: &[] },
        Codepoint { codepoint: 0x14594, name: "ANATOLIAN HIEROGLYPH A359", aliases: &[] },
        Codepoint { codepoint: 0x14595, name: "ANATOLIAN HIEROGLYPH A359A", aliases: &[] },
        Codepoint { codepoint: 0x14596, name: "ANATOLIAN HIEROGLYPH A360", aliases: &[] },
        Codepoint { codepoint: 0x14597, name: "ANATOLIAN HIEROGLYPH A361", aliases: &[] },
        Codepoint { codepoint: 0x14598, name: "ANATOLIAN HIEROGLYPH A362", aliases: &[] },
        Codepoint { codepoint: 0x14599, name: "ANATOLIAN HIEROGLYPH A363", aliases: &[] },
        Codepoint { codepoint: 0x1459A, name: "ANATOLIAN HIEROGLYPH A364", aliases: &[] },
        Codepoint { codepoint: 0x1459B, name: "ANATOLIAN HIEROGLYPH A364A", aliases: &[] },
        Codepoint { codepoint: 0x1459C, name: "ANATOLIAN HIEROGLYPH A365", aliases: &[] },
        Codepoint { codepoint: 0x1459D, name: "ANATOLIAN HIEROGLYPH A366", aliases: &[] },
        Codepoint { codepoint: 0x1459E, name: "ANATOLIAN HIEROGLYPH A367", aliases: &[] },
        Codepoint { codepoint: 0x1459F, name: "ANATOLIAN HIEROGLYPH A368", aliases: &[] },
        Codepoint { codepoint: 0x145A0, name: "ANATOLIAN HIEROGLYPH A368A", aliases: &[] },
        Codepoint { codepoint: 0x145A1, name: "ANATOLIAN HIEROGLYPH A369", aliases: &[] },
        Codepoint { codepoint: 0x145A2, name: "ANATOLIAN HIEROGLYPH A370", aliases: &[] },
        Codepoint { codepoint: 0x145A3, name: "ANATOLIAN HIEROGLYPH A371", aliases: &[] },
        Codepoint { codepoint: 0x145A4, name: "ANATOLIAN HIEROGLYPH A371A", aliases: &[] },
        Codepoint { codepoint: 0x145A5, name: "ANATOLIAN HIEROGLYPH A372", aliases: &[] },
        Codepoint { codepoint: 0x145A6, name: "ANATOLIAN HIEROGLYPH A373", aliases: &[] },
        Codepoint { codepoint: 0x145A7, name: "ANATOLIAN HIEROGLYPH A374", aliases: &[] },
        Codepoint { codepoint: 0x145A8, name: "ANATOLIAN HIEROGLYPH A375", aliases: &[] },
        Codepoint { codepoint: 0x145A9, name: "ANATOLIAN HIEROGLYPH A376", aliases: &[] },
        Codepoint { codepoint: 0x145AA, name: "ANATOLIAN HIEROGLYPH A377", aliases: &[] },
        Codepoint { codepoint: 0x145AB, name: "ANATOLIAN HIEROGLYPH A378", aliases: &[] },
        Codepoint { codepoint: 0x145AC, name: "ANATOLIAN HIEROGLYPH A379", aliases: &[] },
    ]
}

fn all_codepoints_611() -> (v: Vec<Codepoint>)
    ensures
        v@ == codepoint_table_611(),
{
    let v = vec![
        Codepoint { codepoint: 0x14585, name: "ANATOLIAN HIEROGLYPH A344", aliases: &[] },
        Codepoint { codepoint: 0x14586, name: "ANATOLIAN HIEROGLYPH A345", aliases: &[] },
        Codepoint { codepoint: 0x14587, name: "ANATOLIAN HIEROGLYPH A346", aliases: &[] },
        Codepoint { codepoint: 0x14588, name: "ANATOLIAN HIEROGLYPH A347", aliases: &[] },
        Codepoint { codepoint: 0x14589, name: "ANATOLIAN HIEROGLYPH A348", aliases: &[] },
        Codepoint { codepoint: 0x1458A, name: "ANATOLIAN HIEROGLYPH A349", aliases: &[] },
        Codepoint { codepoint: 0x1458B, name: "ANATOLIAN HIEROGLYPH A350", aliases: &[] },
        Codepoint { codepoint: 0x1458C, name: "ANATOLIAN HIEROGLYPH A351", aliases: &[] },
        Codepoint { codepoint: 0x1458D, name: "ANATOLIAN HIEROGLYPH A352", aliases: &[] },
        Codepoint { codepoint: 0x1458E, name: "ANATOLIAN HIEROGLYPH A353", aliases: &[] },
        Codepoint { codepoint: 0x1458F, name: "ANATOLIAN HIEROGLYPH A354", aliases: &[] },
        Codepoint { codepoint: 0x14590, name: "ANATOLIAN HIEROGLYPH A355", aliases: &[] },
        Codepoint { codepoint: 0x14591, name: "ANATOLIAN HIEROGLYPH A356", aliases: &[] },
        Codepoint { codepoint: 0x14592, name: "ANATOLIAN HIEROGLYPH A357", aliases: &[] },
        Codepoint { codepoint: 0x14593, name: "ANATOLIAN HIEROGLYPH A358", aliases: &[] },
        Codepoint { codepoint: 0x14594, name: "ANATOLIAN HIEROGLYPH A359", aliases: &[] },
        Codepoint { codepoint: 0x14595, name: "ANATOLIAN HIEROGLYPH A359A", aliases: &[] },
        Codepoint { codepoint: 0x14596, name: "ANATOLIAN HIEROGLYPH A360", aliases: &[] },
        Codepoint { codepoint: 0x14597, name: "ANATOLIAN HIEROGLYPH A361", aliases: &[] },
        Codepoint { codepoint: 0x14598, name: "ANATOLIAN HIEROGLYPH A362", aliases: &[] },
        Codepoint { codepoint: 0x14599, name: "ANATOLIAN HIEROGLYPH A363", aliases: &[] },
        Codepoint { codepoint: 0x1459A, name: "ANATOLIAN HIEROGLYPH A364", aliases: &[] },
        Codepoint { codepoint: 0x1459B, name: "ANATOLIAN HIEROGLYPH A364A", aliases: &[] },
        Codepoint { codepoint: 0x1459C, name: "ANATOLIAN HIEROGLYPH A365", aliases: &[] },
        Codepoint { codepoint: 0x1459D, name: "ANATOLIAN HIEROGLYPH A366", aliases: &[] },
        Codepoint { codepoint: 0x1459E, name: "ANATOLIAN HIEROGLYPH A367", aliases: &[] },
        Codepoint { codepoint: 0x1459F, name: "ANATOLIAN HIEROGLYPH A368", aliases: &[] },
        Codepoint { codepoint: 0x145A0, name: "ANATOLIAN HIEROGLYPH A368A", aliases: &[] },
        Codepoint { codepoint: 0x145A1, name: "ANATOLIAN HIEROGLYPH A369", aliases: &[] },
        Codepoint { codepoint: 0x145A2, name: "ANATOLIAN HIEROGLYPH A370", aliases: &[] },
        Codepoint { codepoint: 0x145A3, name: "ANATOLIAN HIEROGLYPH A371", aliases: &[] },
        Codepoint { codepoint: 0x145A4, name: "ANATOLIAN HIEROGLYPH A371A", aliases: &[] },
        Codepoint { codepoint: 0x145A5, name: "ANATOLIAN HIEROGLYPH A372", aliases: &[] },
        Codepoint { codepoint: 0x145A6, name: "ANATOLIAN HIEROGLYPH A373", aliases: &[] },
        Codepoint { codepoint: 0x145A7, name: "ANATOLIAN HIEROGLYPH A374", aliases: &[] },
        Codepoint { codepoint: 0x145A8, name: "ANATOLIAN HIEROGLYPH A375", aliases: &[] },
        Codepoint { codepoint: 0x145A9, name: "ANATOLIAN HIEROGLYPH A376", aliases: &[] },
        Codepoint { codepoint: 0x145AA, name: "ANATOLIAN HIEROGLYPH A377", aliases: &[] },
        Codepoint { codepoint: 0x145AB, name: "ANATOLIAN HIEROGLYPH A378", aliases: &[] },
        Codepoint { codepoint: 0x145AC, name: "ANATOLIAN HIEROGLYPH A379", aliases: &[] },
    ];
    assert(v@ =~= codepoint_table_611());
    v
}

pub open spec fn codepoint_table_612() -> Seq<Codepoint> {
    seq![
        Codepoint { codepoint: 0x145AD, name: "ANATOLIAN HIEROGLYPH A380", aliases: &[] },
        Codepoint { codepoint: 0x145AE, name: "ANATOLIAN HIEROGLYPH A381", aliases: &[] },
        Codepoint { codepoint: 0x145AF, name: "ANATOLIAN HIEROGLYPH A381A", aliases: &[] },
        Codepoint { codepoint: 0x145B0, name: "ANATOLIAN HIEROGLYPH A382", aliases: &[] },
        Codepoint { codepoint: 0x145B1, name: "ANATOLIAN HIEROGLYPH A383 RA OR RI", aliases: &[] },
        Codepoint { codepoint: 0x145B2, name: "ANATOLIAN HIEROGLYPH A383A", aliases: &[] },
        Codepoint { codepoint: 0x145B3, name: "ANATOLIAN HIEROGLYPH A384", aliases: &[] },
        Codepoint { codepoint: 0x145B4, name: "ANATOLIAN HIEROGLYPH A385", aliases: &[] },
        Codepoint { codepoint: 0x145B5, name: "ANATOLIAN HIEROGLYPH A386", aliases: &[] },
        Codepoint { codepoint: 0x145B6, name: "ANATOLIAN HIEROGLYPH A386A", aliases: &[] },
        Codepoint { codepoint: 0x145B7, name: "ANATOLIAN HIEROGLYPH A387", aliases: &[] },
        Codepoint { codepoint: 0x145B8, name: "ANATOLIAN HIEROGLYPH A388", aliases: &[] },
        Codepoint { codepoint: 0x145B9, name: "ANATOLIAN HIEROGLYPH A389", aliases: &[] },
        Codepoint { codepoint: 0x145BA, name: "ANATOLIAN HIEROGLYPH A390", aliases: &[] },
        Codepoint { codepoint: 0x145BB, name: "ANATOLIAN HIEROGLYPH A391", aliases: &[] },
        Codepoint { codepoint: 0x145BC, name: "ANATOLIAN HIEROGLYPH A392", aliases: &[] },
        Codepoint { codepoint: 0x145BD, name: "ANATOLIAN HIEROGLYPH A393 EIGHT", aliases: &[] },
        Codepoint { codepoint: 0x145BE, name: "ANATOLIAN HIEROGLYPH A394", aliases: &[] },
        Codepoint { codepoint: 0x145BF, name: "ANATOLIAN HIEROGLYPH A395", aliases: &[] },
        Codepoint { codepoint: 0x145C0, name: "ANATOLIAN HIEROGLYPH A396", aliases: &[] },
        Codepoint { codepoint: 0x145C1, name: "ANATOLIAN HIEROGLYPH A397", aliases: &[] },
        Codepoint { codepoint: 0x145C2, name: "ANATOLIAN HIEROGLYPH A398", aliases: &[] },
        Codepoint { codepoint: 0x145C3, name: "ANATOLIAN HIEROGLYPH A399", aliases: &[] },
        Codepoint { codepoint: 0x145C4, name: "ANATOLIAN HIEROGLYPH A400", aliases: &[] },
        Codepoint { codepoint: 0x145C5, name: "ANATOLIAN HIEROGLYPH A401", aliases: &[] },
        Codepoint { codepoint: 0x145C6, name: "ANATOLIAN HIEROGLYPH A402", aliases: &[] },
        Codepoint { codepoint: 0x145C7, name: "ANATOLIAN HIEROGLYPH A403", aliases: &[] },
        Codepoint { codepoint: 0x145C8, name: "ANATOLIAN HIEROGLYPH A404", aliases: &[] },
        Codepoint { codepoint: 0x145C9, name: "ANATOLIAN HIEROGLYPH A405", aliases: &[] },
        Codepoint { codepoint: 0x145CA, name: "ANATOLIAN HIEROGLYPH A406", aliases: &[] },
        Codepoint { codepoint: 0x145CB, name: "ANATOLIAN HIEROGLYPH A407", aliases: &[] },
        Codepoint { codepoint: 0x145CC, name: "ANATOLIAN HIEROGLYPH A408", aliases: &[] },
        Codepoint { codepoint: 0x145CD, name: "ANATOLIAN HIEROGLYPH A409", aliases: &[] },
        Codepoint { codepoint: 0x145CE, name: "ANATOLIAN HIEROGLYPH A410 BEGIN LOGOGRAM MARK", aliases: &[] },
        Codepoint { codepoint: 0x145CF, name: "ANATOLIAN HIEROGLYPH A410A END LOGOGRAM MARK", aliases: &[] },
        Codepoint { codepoint: 0x145D0, name: "ANATOLIAN HIEROGLYPH A411", aliases: &[] },
        Codepoint { codepoint: 0x145D1, name: "ANATOLIAN HIEROGLYPH A412", aliases: &[] },
        Codepoint { codepoint: 0x145D2, name: "ANATOLIAN HIEROGLYPH A413", aliases: &[] },
        Codepoint { codepoint: 0x145D3, name: "ANATOLIAN HIEROGLYPH A414", aliases: &[] },
        Codepoint { codepoint: 0x145D4, name: "ANATOLIAN HIEROGLYPH A415", aliases: &[] },
    ]
}

fn all_codepoints_612() -> (v: Vec<Codepoint>)
    ensures
        v@ == codepoint_table_612(),
{
    let v = vec![
        Codepoint { codepoint: 0x145AD, name: "ANATOLIAN HIEROGLYPH A380", aliases: &[] },
        Codepoint { codepoint: 0x145AE, name: "ANATOLIAN HIEROGLYPH A381", aliases: &[] },
        Codepoint { codepoint: 0x145AF, name: "ANATOLIAN HIEROGLYPH A381A", aliases: &[] },
        Codepoint { codepoint: 0x145B0, name: "ANATOLIAN HIEROGLYPH A382", aliases: &[] },
        Codepoint { codepoint: 0x145B1, name: "ANATOLIAN HIEROGLYPH A383 RA OR RI", aliases: &[] },
        Codepoint { codepoint: 0x145B2, name: "ANATOLIAN HIEROGLYPH A383A", aliases: &[] },
        Codepoint { codepoint: 0x145B3, name: "ANATOLIAN HIEROGLYPH A384", aliases: &[] },
        Codepoint { codepoint: 0x145B4, name: "ANATOLIAN HIEROGLYPH A385", aliases: &[] },
        Codepoint { codepoint: 0x145B5, name: "ANATOLIAN HIEROGLYPH A386", aliases: &[] },
        Codepoint { codepoint: 0x145B6, name: "ANATOLIAN HIEROGLYPH A386A", aliases: &[] },
        Codepoint { codepoint: 0x145B7, name: "ANATOLIAN HIEROGLYPH A387", aliases: &[] },
        Codepoint { codepoint: 0x145B8, name: "ANATOLIAN HIEROGLYPH A388", aliases: &[] },
        Codepoint { codepoint: 0x145B9, name: "ANATOLIAN HIEROGLYPH A389", aliases: &[] },
        Codepoint { codepoint: 0x145BA, name: "ANATOLIAN HIEROGLYPH A390", aliases: &[] },
        Codepoint { codepoint: 0x145BB, name: "ANATOLIAN HIEROGLYPH A391", aliases: &[] },
        Codepoint { codepoint: 0x145BC, name: "ANATOLIAN HIEROGLYPH A392", aliases: &[] },
        Codepoint { codepoint: 0x145BD, name: "ANATOLIAN HIEROGLYPH A393 EIGHT", aliases: &[] },
        Codepoint { codepoint: 0x145BE, name: "ANATOLIAN HIEROGLYPH A394", aliases: &[] },
        Codepoint { codepoint: 0x145BF, name: "ANATOLIAN HIEROGLYPH A395", aliases: &[] },
        Codepoint { codepoint: 0x145C0, name: "ANATOLIAN HIEROGLYPH A396", aliases: &[] },
        Codepoint { codepoint: 0x145C1, name: "ANATOLIAN HIEROGLYPH A397", aliases: &[] },
        Codepoint { codepoint: 0x145C2, name: "ANATOLIAN HIEROGLYPH A398", aliases: &[] },
        Codepoint { codepoint: 0x145C3, name: "ANATOLIAN HIEROGLYPH A399", aliases: &[] },
        Codepoint { codepoint: 0x145C4, name: "ANATOLIAN HIEROGLYPH A400", aliases: &[] },
        Codepoint { codepoint: 0x145C5, name: "ANATOLIAN HIEROGLYPH A401", aliases: &[] },
        Codepoint { codepoint: 0x145C6, name: "ANATOLIAN HIEROGLYPH A402", aliases: &[] },
        Codepoint { codepoint: 0x145C7, name: "ANATOLIAN HIEROGLYPH A403", aliases: &[] },
        Codepoint { codepoint: 0x145C8, name: "ANATOLIAN HIEROGLYPH A404", aliases: &[] },
        Codepoint { codepoint: 0x145C9, name: "ANATOLIAN HIEROGLYPH A405", aliases: &[] },
        Codepoint { codepoint: 0x145CA, name: "ANATOLIAN HIEROGLYPH A406", aliases: &[] },
        Codepoint { codepoint: 0x145CB, name: "ANATOLIAN HIEROGLYPH A407", aliases: &[] },
        Codepoint { codepoint: 0x145CC, name: "ANATOLIAN HIEROGLYPH A408", aliases: &[] },
        Codepoint { codepoint: 0x145CD, name: "ANATOLIAN HIEROGLYPH A409", aliases: &[] },
        Codepoint { codepoint: 0x145CE, name: "ANATOLIAN HIEROGLYPH A410 BEGIN LOGOGRAM MARK", aliases: &[] },
        Codepoint { codepoint: 0x145CF, name: "ANATOLIAN HIEROGLYPH A410A END LOGOGRAM MARK", aliases: &[] },
        Codepoint { codepoint: 0x145D0, name: "ANATOLIAN HIEROGLYPH A411", aliases: &[] },
        Codepoint { codepoint: 0x145D1, name: "ANATOLIAN HIEROGLYPH A412", aliases: &[] },
        Codepoint { codepoint: 0x145D2, name: "ANATOLIAN HIEROGLYPH A413", aliases: &[] },
        Codepoint { codepoint: 0x145D3, name: "ANATOLIAN HIEROGLYPH A414", aliases: &[] },
        Codepoint { codepoint: 0x145D4, name: "ANATOLIAN HIEROGLYPH A415", aliases: &[] },
    ];
    assert(v@ =~= codepoint_table_612());
    v
}

pub open spec fn codepoint_table_613() -> Seq<Codepoint> {
    seq![
        Codepoint { codepoint: 0x145D5, name: "ANATOLIAN HIEROGLYPH A416", aliases: &[] },
        Codepoint { codepoint: 0x145D6, name: "ANATOLIAN HIEROGLYPH A417", aliases: &[] },
        Codepoint { codepoint: 0x145D7, name: "ANATOLIAN HIEROGLYPH A418", aliases: &[] },
        Codepoint { codepoint: 0x145D8, name: "ANATOLIAN HIEROGLYPH A419", aliases: &[] },
        Codepoint { codepoint: 0x145D9, name: "ANATOLIAN HIEROGLYPH A420", aliases: &[] },
        Codepoint { codepoint: 0x145DA, name: "ANATOLIAN HIEROGLYPH A421", aliases: &[] },
        Codepoint { codepoint: 0x145DB, name: "ANATOLIAN HIEROGLYPH A422", aliases: &[] },
        Codepoint { codepoint: 0x145DC, name: "ANATOLIAN HIEROGLYPH A423", aliases: &[] },
        Codepoint { codepoint: 0x145DD, name: "ANATOLIAN HIEROGLYPH A424", aliases: &[] },
        Codepoint { codepoint: 0x145DE, name: "ANATOLIAN HIEROGLYPH A425", aliases: &[] },
        Codepoint { codepoint: 0x145DF, name: "ANATOLIAN HIEROGLYPH A426", aliases: &[] },
        Codepoint { codepoint: 0x145E0, name: "ANATOLIAN HIEROGLYPH A427", aliases: &[] },
        Codepoint { codepoint: 0x145E1, name: "ANATOLIAN HIEROGLYPH A428", aliases: &[] },
        Codepoint { codepoint: 0x145E2, name: "ANATOLIAN HIEROGLYPH A429", aliases: &[] },
        Codepoint { codepoint: 0x145E3, name: "ANATOLIAN HIEROGLYPH A430", aliases: &[] },
        Codepoint { codepoint: 0x145E4, name: "ANATOLIAN HIEROGLYPH A431", aliases: &[] },
        Codepoint { codepoint: 0x145E5, name: "ANATOLIAN HIEROGLYPH A432", aliases: &[] },
        Codepoint { codepoint: 0x145E6, name: "ANATOLIAN HIEROGLYPH A433", aliases: &[] },
        Codepoint { codepoint: 0x145E7, name: "ANATOLIAN HIEROGLYPH A434", aliases: &[] },
        Codepoint { codepoint: 0x145E8, name: "ANATOLIAN HIEROGLYPH A435", aliases: &[] },
        Codepoint { codepoint: 0x145E9, name: "ANATOLIAN HIEROGLYPH A436", aliases: &[] },
        Codepoint { codepoint: 0x145EA, name: "ANATOLIAN HIEROGLYPH A437", aliases: &[] },
        Codepoint { codepoint: 0x145EB, name: "ANATOLIAN HIEROGLYPH A438", aliases: &[] },
        Codepoint { codepoint: 0x145EC, name: "ANATOLIAN HIEROGLYPH A439", aliases: &[] },
        Codepoint { codepoint: 0x145ED, name: "ANATOLIAN HIEROGLYPH A440", aliases: &[] },
        Codepoint { codepoint: 0x145EE, name: "ANATOLIAN HIEROGLYPH A441", aliases: &[] },
        Codepoint { codepoint: 0x145EF, name: "ANATOLIAN HIEROGLYPH A442", aliases: &[] },
        Codepoint { codepoint: 0x145F0, name: "ANATOLIAN HIEROGLYPH A443", aliases: &[] },
        Codepoint { codepoint: 0x145F1, name: "ANATOLIAN HIEROGLYPH A444", aliases: &[] },
        Codepoint { codepoint: 0x145F2, name: "ANATOLIAN HIEROGLYPH A445", aliases: &[] },
        Codepoint { codepoint: 0x145F3, name: "ANATOLIAN HIEROGLYPH A446", aliases: &[] },
        Codepoint { codepoint: 0x145F4, name: "ANATOLIAN HIEROGLYPH A447", aliases: &[] },
        Codepoint { codepoint: 0x145F5, name: "ANATOLIAN HIEROGLYPH A448", aliases: &[] },
        Codepoint { codepoint: 0x145F6, name: "ANATOLIAN HIEROGLYPH A449", aliases: &[] },
        Codepoint { codepoint: 0x145F7, name: "ANATOLIAN HIEROGLYPH A450", aliases: &[] },
        Codepoint { codepoint: 0x145F8, name: "ANATOLIAN HIEROGLYPH A450A", aliases: &[] },
        Codepoint { codepoint: 0x145F9, name: "ANATOLIAN HIEROGLYPH A451", aliases: &[] },
        Codepoint { codepoint: 0x145FA, name: "ANATOLIAN HIEROGLYPH A452", aliases: &[] },
        Codepoint { codepoint: 0x145FB, name: "ANATOLIAN HIEROGLYPH A453", aliases: &[] },
        Codepoint { codepoint: 0x145FC, name: "ANATOLIAN HIEROGLYPH A454", aliases: &[] },
    ]
}

fn all_codepoints_613() -> (v: Vec<Codepoint>)
    ensures
        v@ == codepoint_table_613(),
{
    let v = vec![
        Codepoint { codepoint: 0x145D5, name: "ANATOLIAN HIEROGLYPH A416", aliases: &[] },
        Codepoint { codepoint: 0x145D6, name: "ANATOLIAN HIEROGLYPH A417", aliases: &[] },
        Codepoint { codepoint: 0x145D7, name: "ANATOLIAN HIEROGLYPH A418", aliases: &[] },
        Codepoint { codepoint: 0x145D8, name: "ANATOLIAN HIEROGLYPH A419", aliases: &[] },
        Codepoint { codepoint: 0x145D9, name: "ANATOLIAN HIEROGLYPH A420", aliases: &[] },
        Codepoint { codepoint: 0x145DA, name: "ANATOLIAN HIEROGLYPH A421", aliases: &[] },
        Codepoint { codepoint: 0x145DB, name: "ANATOLIAN HIEROGLYPH A422", aliases: &[] },
        Codepoint { codepoint: 0x145DC, name: "ANATOLIAN HIEROGLYPH A423", aliases: &[] },
        Codepoint { codepoint: 0x145DD, name: "ANATOLIAN HIEROGLYPH A424", aliases: &[] },
        Codepoint { codepoint: 0x145DE, name: "ANATOLIAN HIEROGLYPH A425", aliases: &[] },
        Codepoint { codepoint: 0x145DF, name: "ANATOLIAN HIEROGLYPH A426", aliases: &[] },
        Codepoint { codepoint: 0x145E0, name: "ANATOLIAN HIEROGLYPH A427", aliases: &[] },
        Codepoint { codepoint: 0x145E1, name: "ANATOLIAN HIEROGLYPH A428", aliases: &[] },
        Codepoint { codepoint: 0x145E2, name: "ANATOLIAN HIEROGLYPH A429", aliases: &[] },
        Codepoint { codepoint: 0x145E3, name: "ANATOLIAN HIEROGLYPH A430", aliases: &[] },
        Codepoint { codepoint: 0x145E4, name: "ANATOLIAN HIEROGLYPH A431", aliases: &[] },
        Codepoint { codepoint: 0x145E5, name: "ANATOLIAN HIEROGLYPH A432", aliases: &[] },
        Codepoint { codepoint: 0x145E6, name: "ANATOLIAN HIEROGLYPH A433", aliases: &[] },
        Codepoint { codepoint: 0x145E7, name: "ANATOLIAN HIEROGLYPH A434", aliases: &[] },
        Codepoint { codepoint: 0x145E8, name: "ANATOLIAN HIEROGLYPH A435", aliases: &[] },
        Codepoint { codepoint: 0x145E9, name: "ANATOLIAN HIEROGLYPH A436", aliases: &[] },
        Codepoint { codepoint: 0x145EA, name: "ANATOLIAN HIEROGLYPH A437", aliases: &[] },
        Codepoint { codepoint: 0x145EB, name: "ANATOLIAN HIEROGLYPH A438", aliases: &[] },
        Codepoint { codepoint: 0x145EC, name: "ANATOLIAN HIEROGLYPH A439", aliases: &[] },
        Codepoint { codepoint: 0x145ED, name: "ANATOLIAN HIEROGLYPH A440", aliases: &[] },
        Codepoint { codepoint: 0x145EE, name: "ANATOLIAN HIEROGLYPH A441", aliases: &[] },
        Codepoint { codepoint: 0x145EF, name: "ANATOLIAN HIEROGLYPH A442", aliases: &[] },
        Codepoint { codepoint: 0x145F0, name: "ANATOLIAN HIEROGLYPH A443", aliases: &[] },
        Codepoint { codepoint: 0x145F1, name: "ANATOLIAN HIEROGLYPH A444", aliases: &[] },
        Codepoint { codepoint: 0x145F2, name: "ANATOLIAN HIEROGLYPH A445", aliases: &[] },
        Codepoint { codepoint: 0x145F3, name: "ANATOLIAN HIEROGLYPH A446", aliases: &[] },
        Codepoint { codepoint: 0x145F4, name: "ANATOLIAN HIEROGLYPH A447", aliases: &[] },
        Codepoint { codepoint: 0x145F5, name: "ANATOLIAN HIEROGLYPH A448", aliases: &[] },
        Codepoint { codepoint: 0x145F6, name: "ANATOLIAN HIEROGLYPH A449", aliases: &[] },
        Codepoint { codepoint: 0x145F7, name: "ANATOLIAN HIEROGLYPH A450", aliases: &[] },
        Codepoint { codepoint: 0x145F8, name: "ANATOLIAN HIEROGLYPH A450A", aliases: &[] },
        Codepoint { codepoint: 0x145F9, name: "ANATOLIAN HIEROGLYPH A451", aliases: &[] },
        Codepoint { codepoint: 0x145FA, name: "ANATOLIAN HIEROGLYPH A452", aliases: &[] },
        Codepoint { codepoint: 0x145FB, name: "ANATOLIAN HIEROGLYPH A453", aliases: &[] },
        Codepoint { codepoint: 0x145FC, name: "ANATOLIAN HIEROGLYPH A454", aliases: &[] },
    ];
    assert(v@ =~= codepoint_table_613());
    v
}

pub open spec fn codepoint_table_614() -> Seq<Codepoint> {
    seq![
        Codepoint { codepoint: 0x145FD, name: "ANATOLIAN HIEROGLYPH A455", aliases: &[] },
        Codepoint { codepoint: 0x145FE, name: "ANATOLIAN HIEROGLYPH A456", aliases: &[] },
        Codepoint { codepoint: 0x145FF, name: "ANATOLIAN HIEROGLYPH A457", aliases: &[] },
        Codepoint { codepoint: 0x14600, name: "ANATOLIAN HIEROGLYPH A457A", aliases: &[] },
        Codepoint { codepoint: 0x14601, name: "ANATOLIAN HIEROGLYPH A458", aliases: &[] },
        Codepoint { codepoint: 0x14602, name: "ANATOLIAN HIEROGLYPH A459", aliases: &[] },
        Codepoint { codepoint: 0x14603, name: "ANATOLIAN HIEROGLYPH A460", aliases: &[] },
        Codepoint { codepoint: 0x14604, name: "ANATOLIAN HIEROGLYPH A461", aliases: &[] },
        Codepoint { codepoint: 0x14605, name: "ANATOLIAN HIEROGLYPH A462", aliases: &[] },
        Codepoint { codepoint: 0x14606, name: "ANATOLIAN HIEROGLYPH A463", aliases: &[] },
        Codepoint { codepoint: 0x14607, name: "ANATOLIAN HIEROGLYPH A464", aliases: &[] },
        Codepoint { codepoint: 0x14608, name: "ANATOLIAN HIEROGLYPH A465", aliases: &[] },
        Codepoint { codepoint: 0x14609, name: "ANATOLIAN HIEROGLYPH A466", aliases: &[] },
        Codepoint { codepoint: 0x1460A, name: "ANATOLIAN HIEROGLYPH A467", aliases: &[] },
        Codepoint { codepoint: 0x1460B, name: "ANATOLIAN HIEROGLYPH A468", aliases: &[] },
        Codepoint { codepoint: 0x1460C, name: "ANATOLIAN HIEROGLYPH A469", aliases: &[] },
        Codepoint { codepoint: 0x1460D, name: "ANATOLIAN HIEROGLYPH A470", aliases: &[] },
        Codepoint { codepoint: 0x1460E, name: "ANATOLIAN HIEROGLYPH A471", aliases: &[] },
        Codepoint { codepoint: 0x1460F, name: "ANATOLIAN HIEROGLYPH A472", aliases: &[] },
        Codepoint { codepoint: 0x14610, name: "ANATOLIAN HIEROGLYPH A473", aliases: &[] },
        Codepoint { codepoint: 0x14611, name: "ANATOLIAN HIEROGLYPH A474", aliases: &[] },
        Codepoint { codepoint: 0x14612, name: "ANATOLIAN HIEROGLYPH A475", aliases: &[] },
        Codepoint { codepoint: 0x14613, name: "ANATOLIAN HIEROGLYPH A476", aliases: &[] },
        Codepoint { codepoint: 0x14614, name: "ANATOLIAN HIEROGLYPH A477", aliases: &[] },
        Codepoint { codepoint: 0x14615, name: "ANATOLIAN HIEROGLYPH A478", aliases: &[] },
        Codepoint { codepoint: 0x14616, name: "ANATOLIAN HIEROGLYPH A479", aliases: &[] },
        Codepoint { codepoint: 0x14617, name: "ANATOLIAN HIEROGLYPH A480", aliases: &[] },
        Codepoint { codepoint: 0x14618, name: "ANATOLIAN HIEROGLYPH A481", aliases: &[] },
        Codepoint { codepoint: 0x14619, name: "ANATOLIAN HIEROGLYPH A482", aliases: &[] },
        Codepoint { codepoint: 0x1461A, name: "ANATOLIAN HIEROGLYPH A483", aliases: &[] },
        Codepoint { codepoint: 0x1461B, name: "ANATOLIAN HIEROGLYPH A484", aliases: &[] },
        Codepoint { codepoint: 0x1461C, name: "ANATOLIAN HIEROGLYPH A485", aliases: &[] },
        Codepoint { codepoint: 0x1461D, name: "ANATOLIAN HIEROGLYPH A486", aliases: &[] },
        Codepoint { codepoint: 0x1461E, name: "ANATOLIAN HIEROGLYPH A487", aliases: &[] },
        Codepoint { codepoint: 0x1461F, name: "ANATOLIAN HIEROGLYPH A488", aliases: &[] },
        Codepoint { codepoint: 0x14620, name: "ANATOLIAN HIEROGLYPH A489", aliases: &[] },
        Codepoint { codepoint: 0x14621, name: "ANATOLIAN HIEROGLYPH A490", aliases: &[] },
        Codepoint { codepoint: 0x14622, name: "ANATOLIAN HIEROGLYPH A491", aliases: &[] },
        Codepoint { codepoint: 0x14623, name: "ANATOLIAN HIEROGLYPH A492", aliases: &[] },
        Codepoint { codepoint: 0x14624, name: "ANATOLIAN HIEROGLYPH A493", aliases: &[] },
    ]
}

fn all_codepoints_614() -> (v: Vec<Codepoint>)
    ensures
        v@ == codepoint_table_614(),
{
    let v = vec![
        Codepoint { codepoint: 0x145FD, name: "ANATOLIAN HIEROGLYPH A455", aliases: &[] },
        Codepoint { codepoint: 0x145FE, name: "ANATOLIAN HIEROGLYPH A456", aliases: &[] },
        Codepoint { codepoint: 0x145FF, name: "ANATOLIAN HIEROGLYPH A457", aliases: &[] },
        Codepoint { codepoint: 0x14600, name: "ANATOLIAN HIEROGLYPH A457A", aliases: &[] },
        Codepoint { codepoint: 0x14601, name: "ANATOLIAN HIEROGLYPH A458", aliases: &[] },
        Codepoint { codepoint: 0x14602, name: "ANATOLIAN HIEROGLYPH A459", aliases: &[] },
        Codepoint { codepoint: 0x14603, name: "ANATOLIAN HIEROGLYPH A460", aliases: &[] },
        Codepoint { codepoint: 0x14604, name: "ANATOLIAN HIEROGLYPH A461", aliases: &[] },
        Codepoint { codepoint: 0x14605, name: "ANATOLIAN HIEROGLYPH A462", aliases: &[] },
        Codepoint { codepoint: 0x14606, name: "ANATOLIAN HIEROGLYPH A463", aliases: &[] },
        Codepoint { codepoint: 0x14607, name: "ANATOLIAN HIEROGLYPH A464", aliases: &[] },
        Codepoint { codepoint: 0x14608, name: "ANATOLIAN HIEROGLYPH A465", aliases: &[] },
        Codepoint { codepoint: 0x14609, name: "ANATOLIAN HIEROGLYPH A466", aliases: &[] },
        Codepoint { codepoint: 0x1460A, name: "ANATOLIAN HIEROGLYPH A467", aliases: &[] },
        Codepoint { codepoint: 0x1460B, name: "ANATOLIAN HIEROGLYPH A468", aliases: &[] },
        Codepoint { codepoint: 0x1460C, name: "ANATOLIAN HIEROGLYPH A469", aliases: &[] },
        Codepoint { codepoint: 0x1460D, name: "ANATOLIAN HIEROGLYPH A470", aliases: &[] },
        Codepoint { codepoint: 0x1460E, name: "ANATOLIAN HIEROGLYPH A471", aliases: &[] },
        Codepoint { codepoint: 0x1460F, name: "ANATOLIAN HIEROGLYPH A472", aliases: &[] },
        Codepoint { codepoint: 0x14610, name: "ANATOLIAN HIEROGLYPH A473", aliases: &[] },
        Codepoint { codepoint: 0x14611, name: "ANATOLIAN HIEROGLYPH A474", aliases: &[] },
        Codepoint { codepoint: 0x14612, name: "ANATOLIAN HIEROGLYPH A475", aliases: &[] },
        Codepoint { codepoint: 0x14613, name: "ANATOLIAN HIEROGLYPH A476", aliases: &[] },
        Codepoint { codepoint: 0x14614, name: "ANATOLIAN HIEROGLYPH A477", aliases: &[] },
        Codepoint { codepoint: 0x14615, name: "ANATOLIAN HIEROGLYPH A478", aliases: &[] },
        Codepoint { codepoint: 0x14616, name: "ANATOLIAN HIEROGLYPH A479", aliases: &[] },
        Codepoint { codepoint: 0x14617, name: "ANATOLIAN HIEROGLYPH A480", aliases: &[] },
        Codepoint { codepoint: 0x14618, name: "ANATOLIAN HIEROGLYPH A481", aliases: &[] },
        Codepoint { codepoint: 0x14619, name: "ANATOLIAN HIEROGLYPH A482", aliases: &[] },
        Codepoint { codepoint: 0x1461A, name: "ANATOLIAN HIEROGLYPH A483", aliases: &[] },
        Codepoint { codepoint: 0x1461B, name: "ANATOLIAN HIEROGLYPH A484", aliases: &[] },
        Codepoint { codepoint: 0x1461C, name: "ANATOLIAN HIEROGLYPH A485", aliases: &[] },
        Codepoint { codepoint: 0x1461D, name: "ANATOLIAN HIEROGLYPH A486", aliases: &[] },
        Codepoint { codepoint: 0x1461E, name: "ANATOLIAN HIEROGLYPH A487", aliases: &[] },
        Codepoint { codepoint: 0x1461F, name: "ANATOLIAN HIEROGLYPH A488", aliases: &[] },
        Codepoint { codepoint: 0x14620, name: "ANATOLIAN HIEROGLYPH A489", aliases: &[] },
        Codepoint { codepoint: 0x14621, name: "ANATOLIAN HIEROGLYPH A490", aliases: &[] },
        Codepoint { codepoint: 0x14622, name: "ANATOLIAN HIEROGLYPH A491", aliases: &[] },
        Codepoint { codepoint: 0x14623, name: "ANATOLIAN HIEROGLYPH A492", aliases: &[] },
        Codepoint { codepoint: 0x14624, name: "ANATOLIAN HIEROGLYPH A493", aliases: &[] },
    ];
    assert(v@ =~= codepoint_table_614());
    v
}

pub open spec fn codepoint_table_615() -> Seq<Codepoint> {
    seq![
        Codepoint { codepoint: 0x14625, name: "ANATOLIAN HIEROGLYPH A494", aliases: &[] },
        Codepoint { codepoint: 0x14626, name: "ANATOLIAN HIEROGLYPH A495", aliases: &[] },
        Codepoint { codepoint: 0x14627, name: "ANATOLIAN HIEROGLYPH A496", aliases: &[] },
        Codepoint { codepoint: 0x14628, name: "ANATOLIAN HIEROGLYPH A497", aliases: &[] },
        Codepoint { codepoint: 0x14629, name: "ANATOLIAN HIEROGLYPH A501", aliases: &[] },
        Codepoint { codepoint: 0x1462A, name: "ANATOLIAN HIEROGLYPH A502", aliases: &[] },
        Codepoint { codepoint: 0x1462B, name: "ANATOLIAN HIEROGLYPH A503", aliases: &[] },
        Codepoint { codepoint: 0x1462C, name: "ANATOLIAN HIEROGLYPH A504", aliases: &[] },
        Codepoint { codepoint: 0x1462D, name: "ANATOLIAN HIEROGLYPH A505", aliases: &[] },
        Codepoint { codepoint: 0x1462E, name: "ANATOLIAN HIEROGLYPH A506", aliases: &[] },
        Codepoint { codepoint: 0x1462F, name: "ANATOLIAN HIEROGLYPH A507", aliases: &[] },
        Codepoint { codepoint: 0x14630, name: "ANATOLIAN HIEROGLYPH A508", aliases: &[] },
        Codepoint { codepoint: 0x14631, name: "ANATOLIAN HIEROGLYPH A509", aliases: &[] },
        Codepoint { codepoint: 0x14632, name: "ANATOLIAN HIEROGLYPH A510", aliases: &[] },
        Codepoint { codepoint: 0x14633, name: "ANATOLIAN HIEROGLYPH A511", aliases: &[] },
        Codepoint { codepoint: 0x14634, name: "ANATOLIAN HIEROGLYPH A512", aliases: &[] },
        Codepoint { codepoint: 0x14635, name: "ANATOLIAN HIEROGLYPH A513", aliases: &[] },
        Codepoint { codepoint: 0x14636, name: "ANATOLIAN HIEROGLYPH A514", aliases: &[] },
        Codepoint { codepoint: 0x14637, name: "ANATOLIAN HIEROGLYPH A515", aliases: &[] },
        Codepoint { codepoint: 0x14638, name: "ANATOLIAN HIEROGLYPH A516", aliases: &[] },
        Codepoint { codepoint: 0x14639, name: "ANATOLIAN HIEROGLYPH A517", aliases: &[] },
        Codepoint { codepoint: 0x1463A, name: "ANATOLIAN HIEROGLYPH A518", aliases: &[] },
        Codepoint { codepoint: 0x1463B, name: "ANATOLIAN HIEROGLYPH A519", aliases: &[] },
        Codepoint { codepoint: 0x1463C, name: "ANATOLIAN HIEROGLYPH A520", aliases: &[] },
        Codepoint { codepoint: 0x1463D, name: "ANATOLIAN HIEROGLYPH A521", aliases: &[] },
        Codepoint { codepoint: 0x1463E, name: "ANATOLIAN HIEROGLYPH A522", aliases: &[] },
        Codepoint { codepoint: 0x1463F, name: "ANATOLIAN HIEROGLYPH A523", aliases: &[] },
        Codepoint { codepoint: 0x14640, name: "ANATOLIAN HIEROGLYPH A524", aliases: &[] },
        Codepoint { codepoint: 0x14641, name: "ANATOLIAN HIEROGLYPH A525", aliases: &[] },
        Codepoint { codepoint: 0x14642, name: "ANATOLIAN HIEROGLYPH A526", aliases: &[] },
        Codepoint { codepoint: 0x14643, name: "ANATOLIAN HIEROGLYPH A527", aliases: &[] },
        Codepoint { codepoint: 0x14644, name: "ANATOLIAN HIEROGLYPH A528", aliases: &[] },
        Codepoint { codepoint: 0x14645, name: "ANATOLIAN HIEROGLYPH A529", aliases: &[] },
        Codepoint { codepoint: 0x14646, name: "ANATOLIAN HIEROGLYPH A530", aliases: &[] },
        Codepoint { codepoint: 0x16800, name: "BAMUM LETTER PHASE-A NGKUE MFON", aliases: &[] },
        Codepoint { codepoint: 0x16801, name: "BAMUM LETTER PHASE-A GBIEE FON", aliases: &[] },
        Codepoint { codepoint: 0x16802, name: "BAMUM LETTER PHASE-A PON MFON PIPAEMGBIEE", aliases: &[] },
        Codepoint { codepoint: 0x16803, name: "BAMUM LETTER PHASE-A PON MFON PIPAEMBA", aliases: &[] },
        Codepoint { codepoint: 0x16804, name: "BAMUM LETTER PHASE-A NAA MFON", aliases: &[] },
        Codepoint { codepoint: 0x16805, name: "BAMUM LETTER PHASE-A SHUENSHUET", aliases: &[] },
    ]
}

fn all_codepoints_615() -> (v: Vec<Codepoint>)
    ensures
        v@ == codepoint_table_615(),
{
    let v = vec![
        Codepoint { codepoint: 0x14625, name: "ANATOLIAN HIEROGLYPH A494", aliases: &[] },
        Codepoint { codepoint: 0x14626, name: "ANATOLIAN HIEROGLYPH A495", aliases: &[] },
        Codepoint { codepoint: 0x14627, name: "ANATOLIAN HIEROGLYPH A496", aliases: &[] },
        Codepoint { codepoint: 0x14628, name: "ANATOLIAN HIEROGLYPH A497", aliases: &[] },
        Codepoint { codepoint: 0x14629, name: "ANATOLIAN HIEROGLYPH A501", aliases: &[] },
        Codepoint { codepoint: 0x1462A, name: "ANATOLIAN HIEROGLYPH A502", aliases: &[] },
        Codepoint { codepoint: 0x1462B, name: "ANATOLIAN HIEROGLYPH A503", aliases: &[] },
        Codepoint { codepoint: 0x1462C, name: "ANATOLIAN HIEROGLYPH A504", aliases: &[] },
        Codepoint { codepoint: 0x1462D, name: "ANATOLIAN HIEROGLYPH A505", aliases: &[] },
        Codepoint { codepoint: 0x1462E, name: "ANATOLIAN HIEROGLYPH A506", aliases: &[] },
        Codepoint { codepoint: 0x1462F, name: "ANATOLIAN HIEROGLYPH A507", aliases: &[] },
        Codepoint { codepoint: 0x14630, name: "ANATOLIAN HIEROGLYPH A508", aliases: &[] },
        Codepoint { codepoint: 0x14631, name: "ANATOLIAN HIEROGLYPH A509", aliases: &[] },
        Codepoint { codepoint: 0x14632, name: "ANATOLIAN HIEROGLYPH A510", aliases: &[] },
        Codepoint { codepoint: 0x14633, name: "ANATOLIAN HIEROGLYPH A511", aliases: &[] },
        Codepoint { codepoint: 0x14634, name: "ANATOLIAN HIEROGLYPH A512", aliases: &[] },
        Codepoint { codepoint: 0x14635, name: "ANATOLIAN HIEROGLYPH A513", aliases: &[] },
        Codepoint { codepoint: 0x14636, name: "ANATOLIAN HIEROGLYPH A514", aliases: &[] },
        Codepoint { codepoint: 0x14637, name: "ANATOLIAN HIEROGLYPH A515", aliases: &[] },
        Codepoint { codepoint: 0x14638, name: "ANATOLIAN HIEROGLYPH A516", aliases: &[] },
        Codepoint { codepoint: 0x14639, name: "ANATOLIAN HIEROGLYPH A517", aliases: &[] },
        Codepoint { codepoint: 0x1463A, name: "ANATOLIAN HIEROGLYPH A518", aliases: &[] },
        Codepoint { codepoint: 0x1463B, name: "ANATOLIAN HIEROGLYPH A519", aliases: &[] },
        Codepoint { codepoint: 0x1463C, name: "ANATOLIAN HIEROGLYPH A520", aliases: &[] },
        Codepoint { codepoint: 0x1463D, name: "ANATOLIAN HIEROGLYPH A521", aliases: &[] },
        Codepoint { codepoint: 0x1463E, name: "ANATOLIAN HIEROGLYPH A522", aliases: &[] },
        Codepoint { codepoint: 0x1463F, name: "ANATOLIAN HIEROGLYPH A523", aliases: &[] },
        Codepoint { codepoint: 0x14640, name: "ANATOLIAN HIEROGLYPH A524", aliases: &[] },
        Codepoint { codepoint: 0x14641, name: "ANATOLIAN HIEROGLYPH A525", aliases: &[] },
        Codepoint { codepoint: 0x14642, name: "ANATOLIAN HIEROGLYPH A526", aliases: &[] },
        Codepoint { codepoint: 0x14643, name: "ANATOLIAN HIEROGLYPH A527", aliases: &[] },
        Codepoint { codepoint: 0x14644, name: "ANATOLIAN HIEROGLYPH A528", aliases: &[] },
        Codepoint { codepoint: 0x14645, name: "ANATOLIAN HIEROGLYPH A529", aliases: &[] },
        Codepoint { codepoint: 0x14646, name: "ANATOLIAN HIEROGLYPH A530", aliases: &[] },
        Codepoint { codepoint: 0x16800, name: "BAMUM LETTER PHASE-A NGKUE MFON", aliases: &[] },
        Codepoint { codepoint: 0x16801, name: "BAMUM LETTER PHASE-A GBIEE FON", aliases: &[] },
        Codepoint { codepoint: 0x16802, name: "BAMUM LETTER PHASE-A PON MFON PIPAEMGBIEE", aliases: &[] },
        Codepoint { codepoint: 0x16803, name: "BAMUM LETTER PHASE-A PON MFON PIPAEMBA", aliases: &[] },
        Codepoint { codepoint: 0x16804, name: "BAMUM LETTER PHASE-A NAA MFON", aliases: &[] },
        Codepoint { codepoint: 0x16805, name: "BAMUM LETTER PHASE-A SHUENSHUET", aliases: &[] },
    ];
    assert(v@ =~= codepoint_table_615());
    v
}

pub open spec fn codepoint_table_616() -> Seq<Codepoint> {
    seq![
        Codepoint { codepoint: 0x16806, name: "BAMUM LETTER PHASE-A TITA MFON", aliases: &[] },
        Codepoint { codepoint: 0x16807, name: "BAMUM LETTER PHASE-A NZA MFON", aliases: &[] },
        Codepoint { codepoint: 0x16808, name: "BAMUM LETTER PHASE-A SHINDA PA NJI", aliases: &[] },
        Codepoint { codepoint: 0x16809, name: "BAMUM LETTER PHASE-A PON PA NJI PIPAEMGBIEE", aliases: &[] },
        Codepoint { codepoint: 0x1680A, name: "BAMUM LETTER PHASE-A PON PA NJI PIPAEMBA", aliases: &[] },
        Codepoint { codepoint: 0x1680B, name: "BAMUM LETTER PHASE-A MAEMBGBIEE", aliases: &[] },
        Codepoint { codepoint: 0x1680C, name: "BAMUM LETTER PHASE-A TU MAEMBA", aliases: &[] },
        Codepoint { codepoint: 0x1680D, name: "BAMUM LETTER PHASE-A NGANGU", aliases: &[] },
        Codepoint { codepoint: 0x1680E, name: "BAMUM LETTER PHASE-A MAEMVEUX", aliases: &[] },
        Codepoint { codepoint: 0x1680F, name: "BAMUM LETTER PHASE-A MANSUAE", aliases: &[] },
        Codepoint { codepoint: 0x16810, name: "BAMUM LETTER PHASE-A MVEUAENGAM", aliases: &[] },
        Codepoint { codepoint: 0x16811, name: "BAMUM LETTER PHASE-A SEUNYAM", aliases: &[] },
        Codepoint { codepoint: 0x16812, name: "BAMUM LETTER PHASE-A NTOQPEN", aliases: &[] },
        Codepoint { codepoint: 0x16813, name: "BAMUM LETTER PHASE-A KEUKEUTNDA", aliases: &[] },
        Codepoint { codepoint: 0x16814, name: "BAMUM LETTER PHASE-A NKINDI", aliases: &[] },
        Codepoint { codepoint: 0x16815, name: "BAMUM LETTER PHASE-A SUU", aliases: &[] },
        Codepoint { codepoint: 0x16816, name: "BAMUM LETTER PHASE-A NGKUENZEUM", aliases: &[] },
        Codepoint { codepoint: 0x16817, name: "BAMUM LETTER PHASE-A LAPAQ", aliases: &[] },
        Codepoint { codepoint: 0x16818, name: "BAMUM LETTER PHASE-A LET KUT", aliases: &[] },
        Codepoint { codepoint: 0x16819, name: "BAMUM LETTER PHASE-A NTAP MFAA", aliases: &[] },
        Codepoint { codepoint: 0x1681A, name: "BAMUM LETTER PHASE-A MAEKEUP", aliases: &[] },
        Codepoint { codepoint: 0x1681B, name: "BAMUM LETTER PHASE-A PASHAE", aliases: &[] },
        Codepoint { codepoint: 0x1681C, name: "BAMUM LETTER PHASE-A GHEUAERAE", aliases: &[] },
        Codepoint { codepoint: 0x1681D, name: "BAMUM LETTER PHASE-A PAMSHAE", aliases: &[] },
        Codepoint { codepoint: 0x1681E, name: "BAMUM LETTER PHASE-A MON NGGEUAET", aliases: &[] },
        Codepoint { codepoint: 0x1681F, name: "BAMUM LETTER PHASE-A NZUN MEUT", aliases: &[] },
        Codepoint { codepoint: 0x16820, name: "BAMUM LETTER PHASE-A U YUQ NAE", aliases: &[] },
        Codepoint { codepoint: 0x16821, name: "BAMUM LETTER PHASE-A GHEUAEGHEUAE", aliases: &[] },
        Codepoint { codepoint: 0x16822, name: "BAMUM LETTER PHASE-A NTAP NTAA", aliases: &[] },
        Codepoint { codepoint: 0x16823, name: "BAMUM LETTER PHASE-A SISA", aliases: &[] },
        Codepoint { codepoint: 0x16824, name: "BAMUM LETTER PHASE-A MGBASA", aliases: &[] },
        Codepoint { codepoint: 0x16825, name: "BAMUM LETTER PHASE-A MEUNJOMNDEUQ", aliases: &[] },
        Codepoint { codepoint: 0x16826, name: "BAMUM LETTER PHASE-A MOOMPUQ", aliases: &[] },
        Codepoint { codepoint: 0x16827, name: "BAMUM LETTER PHASE-A KAFA", aliases: &[] },
        Codepoint { codepoint: 0x16828, name: "BAMUM LETTER PHASE-A PA LEERAEWA", aliases: &[] },
        Codepoint { codepoint: 0x16829, name: "BAMUM LETTER PHASE-A NDA LEERAEWA", aliases: &[] },
        Codepoint { codepoint: 0x1682A, name: "BAMUM LETTER PHASE-A PET", aliases: &[] },
        Codepoint { codepoint: 0x1682B, name: "BAMUM LETTER PHASE-A MAEMKPEN", aliases: &[] },
        Codepoint { codepoint: 0x1682C, name: "BAMUM LETTER PHASE-A NIKA", aliases: &[] },
        Codepoint { codepoint: 0x1682D, name: "BAMUM LETTER PHASE-A PUP", aliases: &[] },
    ]
}

fn all_codepoints_616() -> (v: Vec<Codepoint>)
    ensures
        v@ == codepoint_table_616(),
{
    let v = vec![
        Codepoint { codepoint: 0x16806, name: "BAMUM LETTER PHASE-A TITA MFON", aliases: &[] },
        Codepoint { codepoint: 0x16807, name: "BAMUM LETTER PHASE-A NZA MFON", aliases: &[] },
        Codepoint { codepoint: 0x16808, name: "BAMUM LETTER PHASE-A SHINDA PA NJI", aliases: &[] },
        Codepoint { codepoint: 0x16809, name: "BAMUM LETTER PHASE-A PON PA NJI PIPAEMGBIEE", aliases: &[] },
        Codepoint { codepoint: 0x1680A, name: "BAMUM LETTER PHASE-A PON PA NJI PIPAEMBA", aliases: &[] },
        Codepoint { codepoint: 0x1680B, name: "BAMUM LETTER PHASE-A MAEMBGBIEE", aliases: &[] },
        Codepoint { codepoint: 0x1680C, name: "BAMUM LETTER PHASE-A TU MAEMBA", aliases: &[] },
        Codepoint { codepoint: 0x1680D, name: "BAMUM LETTER PHASE-A NGANGU", aliases: &[] },
        Codepoint { codepoint: 0x1680E, name: "BAMUM LETTER PHASE-A MAEMVEUX", aliases: &[] },
        Codepoint { codepoint: 0x1680F, name: "BAMUM LETTER PHASE-A MANSUAE", aliases: &[] },
        Codepoint { codepoint: 0x16810, name: "BAMUM LETTER PHASE-A MVEUAENGAM", aliases: &[] },
        Codepoint { codepoint: 0x16811, name: "BAMUM LETTER PHASE-A SEUNYAM", aliases: &[] },
        Codepoint { codepoint: 0x16812, name: "BAMUM LETTER PHASE-A NTOQPEN", aliases: &[] },
        Codepoint { codepoint: 0x16813, name: "BAMUM LETTER PHASE-A KEUKEUTNDA", aliases: &[] },
        Codepoint { codepoint: 0x16814, name: "BAMUM LETTER PHASE-A NKINDI", aliases: &[] },
        Codepoint { codepoint: 0x16815, name: "BAMUM LETTER PHASE-A SUU", aliases: &[] },
        Codepoint { codepoint: 0x16816, name: "BAMUM LETTER PHASE-A NGKUENZEUM", aliases: &[] },
        Codepoint { codepoint: 0x16817, name: "BAMUM LETTER PHASE-A LAPAQ", aliases: &[] },
        Codepoint { codepoint: 0x16818, name: "BAMUM LETTER PHASE-A LET KUT", aliases: &[] },
        Codepoint { codepoint: 0x16819, name: "BAMUM LETTER PHASE-A NTAP MFAA", aliases: &[] },
        Codepoint { codepoint: 0x1681A, name: "BAMUM LETTER PHASE-A MAEKEUP", aliases: &[] },
        Codepoint { codepoint: 0x1681B, name: "BAMUM LETTER PHASE-A PASHAE", aliases: &[] },
        Codepoint { codepoint: 0x1681C, name: "BAMUM LETTER PHASE-A GHEUAERAE", aliases: &[] },
        Codepoint { codepoint: 0x1681D, name: "BAMUM LETTER PHASE-A PAMSHAE", aliases: &[] },
        Codepoint { codepoint: 0x1681E, name: "BAMUM LETTER PHASE-A MON NGGEUAET", aliases: &[] },
        Codepoint { codepoint: 0x1681F, name: "BAMUM LETTER PHASE-A NZUN MEUT", aliases: &[] },
        Codepoint { codepoint: 0x16820, name: "BAMUM LETTER PHASE-A U YUQ NAE", aliases: &[] },
        Codepoint { codepoint: 0x16821, name: "BAMUM LETTER PHASE-A GHEUAEGHEUAE", aliases: &[] },
        Codepoint { codepoint: 0x16822, name: "BAMUM LETTER PHASE-A NTAP NTAA", aliases: &[] },
        Codepoint { codepoint: 0x16823, name: "BAMUM LETTER PHASE-A SISA", aliases: &[] },
        Codepoint { codepoint: 0x16824, name: "BAMUM LETTER PHASE-A MGBASA", aliases: &[] },
        Codepoint { codepoint: 0x16825, name: "BAMUM LETTER PHASE-A MEUNJOMNDEUQ", aliases: &[] },
        Codepoint { codepoint: 0x16826, name: "BAMUM LETTER PHASE-A MOOMPUQ", aliases: &[] },
        Codepoint { codepoint: 0x16827, name: "BAMUM LETTER PHASE-A KAFA", aliases: &[] },
        Codepoint { codepoint: 0x16828, name: "BAMUM LETTER PHASE-A PA LEERAEWA", aliases: &[] },
        Codepoint { codepoint: 0x16829, name: "BAMUM LETTER PHASE-A NDA LEERAEWA", aliases: &[] },
        Codepoint { codepoint: 0x1682A, name: "BAMUM LETTER PHASE-A PET", aliases: &[] },
        Codepoint { codepoint: 0x1682B, name: "BAMUM LETTER PHASE-A MAEMKPEN", aliases: &[] },
        Codepoint { codepoint: 0x1682C, name: "BAMUM LETTER PHASE-A NIKA", aliases: &[] },
        Codepoint { codepoint: 0x1682D, name: "BAMUM LETTER PHASE-A PUP", aliases: &[] },
    ];
    assert(v@ =~= codepoint_table_616());
    v
}

pub open spec fn codepoint_table_617() -> Seq<Codepoint> {
    seq![
        Codepoint { codepoint: 0x1682E, name: "BAMUM LETTER PHASE-A TUAEP", aliases: &[] },
        Codepoint { codepoint: 0x1682F, name: "BAMUM LETTER PHASE-A LUAEP", aliases: &[] },
        Codepoint { codepoint: 0x16830, name: "BAMUM LETTER PHASE-A SONJAM", aliases: &[] },
        Codepoint { codepoint: 0x16831, name: "BAMUM LETTER PHASE-A TEUTEUWEN", aliases: &[] },
        Codepoint { codepoint: 0x16832, name: "BAMUM LETTER PHASE-A MAENYI", aliases: &[] },
        Codepoint { codepoint: 0x16833, name: "BAMUM LETTER PHASE-A KET", aliases: &[] },
        Codepoint { codepoint: 0x16834, name: "BAMUM LETTER PHASE-A NDAANGGEUAET", aliases: &[] },
        Codepoint { codepoint: 0x16835, name: "BAMUM LETTER PHASE-A KUOQ", aliases: &[] },
        Codepoint { codepoint: 0x16836, name: "BAMUM LETTER PHASE-A MOOMEUT", aliases: &[] },
        Codepoint { codepoint: 0x16837, name: "BAMUM LETTER PHASE-A SHUM", aliases: &[] },
        Codepoint { codepoint: 0x16838, name: "BAMUM LETTER PHASE-A LOMMAE", aliases: &[] },
        Codepoint { codepoint: 0x16839, name: "BAMUM LETTER PHASE-A FIRI", aliases: &[] },
        Codepoint { codepoint: 0x1683A, name: "BAMUM LETTER PHASE-A ROM", aliases: &[] },
        Codepoint { codepoint: 0x1683B, name: "BAMUM LETTER PHASE-A KPOQ", aliases: &[] },
        Codepoint { codepoint: 0x1683C, name: "BAMUM LETTER PHASE-A SOQ", aliases: &[] },
        Codepoint { codepoint: 0x1683D, name: "BAMUM LETTER PHASE-A MAP PIEET", aliases: &[] },
        Codepoint { codepoint: 0x1683E, name: "BAMUM LETTER PHASE-A SHIRAE", aliases: &[] },
        Codepoint { codepoint: 0x1683F, name: "BAMUM LETTER PHASE-A NTAP", aliases: &[] },
        Codepoint { codepoint: 0x16840, name: "BAMUM LETTER PHASE-A SHOQ NSHUT YUM", aliases: &[] },
        Codepoint { codepoint: 0x16841, name: "BAMUM LETTER PHASE-A NYIT MONGKEUAEQ", aliases: &[] },
        Codepoint { codepoint: 0x16842, name: "BAMUM LETTER PHASE-A PAARAE", aliases: &[] },
        Codepoint { codepoint: 0x16843, name: "BAMUM LETTER PHASE-A NKAARAE", aliases: &[] },
        Codepoint { codepoint: 0x16844, name: "BAMUM LETTER PHASE-A UNKNOWN", aliases: &[] },
        Codepoint { codepoint: 0x16845, name: "BAMUM LETTER PHASE-A NGGEN", aliases: &[] },
        Codepoint { codepoint: 0x16846, name: "BAMUM LETTER PHASE-A MAESI", aliases: &[] },
        Codepoint { codepoint: 0x16847, name: "BAMUM LETTER PHASE-A NJAM", aliases: &[] },
        Codepoint { codepoint: 0x16848, name: "BAMUM LETTER PHASE-A MBANYI", aliases: &[] },
        Codepoint { codepoint: 0x16849, name: "BAMUM LETTER PHASE-A NYET", aliases: &[] },
        Codepoint { codepoint: 0x1684A, name: "BAMUM LETTER PHASE-A TEUAEN", aliases: &[] },
        Codepoint { codepoint: 0x1684B, name: "BAMUM LETTER PHASE-A SOT", aliases: &[] },
        Codepoint { codepoint: 0x1684C, name: "BAMUM LETTER PHASE-A PAAM", aliases: &[] },
        Codepoint { codepoint: 0x1684D, name: "BAMUM LETTER PHASE-A NSHIEE", aliases: &[] },
        Codepoint { codepoint: 0x1684E, name: "BAMUM LETTER PHASE-A MAEM", aliases: &[] },
        Codepoint { codepoint: 0x1684F, name: "BAMUM LETTER PHASE-A NYI", aliases: &[] },
        Codepoint { codepoint: 0x16850, name: "BAMUM LETTER PHASE-A KAQ", aliases: &[] },
        Codepoint { codepoint: 0x16851, name: "BAMUM LETTER PHASE-A NSHA", aliases: &[] },
        Codepoint { codepoint: 0x16852, name: "BAMUM LETTER PHASE-A VEE", aliases: &[] },
        Codepoint { codepoint: 0x16853, name: "BAMUM LETTER PHASE-A LU", aliases: &[] },
        Codepoint { codepoint: 0x16854, name: "BAMUM LETTER PHASE-A NEN", aliases: &[] },
        Codepoint { codepoint: 0x16855, name: "BAMUM LETTER PHASE-A NAQ", aliases: &[] },
    ]
}

fn all_codepoints_617() -> (v: Vec<Codepoint>)
    ensures
        v@ == codepoint_table_617(),
{
    let v = vec![
        Codepoint { codepoint: 0x1682E, name: "BAMUM LETTER PHASE-A TUAEP", aliases: &[] },
        Codepoint { codepoint: 0x1682F, name: "BAMUM LETTER PHASE-A LUAEP", aliases: &[] },
        Codepoint { codepoint: 0x16830, name: "BAMUM LETTER PHASE-A SONJAM", aliases: &[] },
        Codepoint { codepoint: 0x16831, name: "BAMUM LETTER PHASE-A TEUTEUWEN", aliases: &[] },
        Codepoint { codepoint: 0x16832, name: "BAMUM LETTER PHASE-A MAENYI", aliases: &[] },
        Codepoint { codepoint: 0x16833, name: "BAMUM LETTER PHASE-A KET", aliases: &[] },
        Codepoint { codepoint: 0x16834, name: "BAMUM LETTER PHASE-A NDAANGGEUAET", aliases: &[] },
        Codepoint { codepoint: 0x16835, name: "BAMUM LETTER PHASE-A KUOQ", aliases: &[] },
        Codepoint { codepoint: 0x16836, name: "BAMUM LETTER PHASE-A MOOMEUT", aliases: &[] },
        Codepoint { codepoint: 0x16837, name: "BAMUM LETTER PHASE-A SHUM", aliases: &[] },
        Codepoint { codepoint: 0x16838, name: "BAMUM LETTER PHASE-A LOMMAE", aliases: &[] },
        Codepoint { codepoint: 0x16839, name: "BAMUM LETTER PHASE-A FIRI", aliases: &[] },
        Codepoint { codepoint: 0x1683A, name: "BAMUM LETTER PHASE-A ROM", aliases: &[] },
        Codepoint { codepoint: 0x1683B, name: "BAMUM LETTER PHASE-A KPOQ", aliases: &[] },
        Codepoint { codepoint: 0x1683C, name: "BAMUM LETTER PHASE-A SOQ", aliases: &[] },
        Codepoint { codepoint: 0x1683D, name: "BAMUM LETTER PHASE-A MAP PIEET", aliases: &[] },
        Codepoint { codepoint: 0x1683E, name: "BAMUM LETTER PHASE-A SHIRAE", aliases: &[] },
        Codepoint { codepoint: 0x1683F, name: "BAMUM LETTER PHASE-A NTAP", aliases: &[] },
        Codepoint { codepoint: 0x16840, name: "BAMUM LETTER PHASE-A SHOQ NSHUT YUM", aliases: &[] },
        Codepoint { codepoint: 0x16841, name: "BAMUM LETTER PHASE-A NYIT MONGKEUAEQ", aliases: &[] },
        Codepoint { codepoint: 0x16842, name: "BAMUM LETTER PHASE-A PAARAE", aliases: &[] },
        Codepoint { codepoint: 0x16843, name: "BAMUM LETTER PHASE-A NKAARAE", aliases: &[] },
        Codepoint { codepoint: 0x16844, name: "BAMUM LETTER PHASE-A UNKNOWN", aliases: &[] },
        Codepoint { codepoint: 0x16845, name: "BAMUM LETTER PHASE-A NGGEN", aliases: &[] },
        Codepoint { codepoint: 0x16846, name: "BAMUM LETTER PHASE-A MAESI", aliases: &[] },
        Codepoint { codepoint: 0x16847, name: "BAMUM LETTER PHASE-A NJAM", aliases: &[] },
        Codepoint { codepoint: 0x16848, name: "BAMUM LETTER PHASE-A MBANYI", aliases: &[] },
        Codepoint { codepoint: 0x16849, name: "BAMUM LETTER PHASE-A NYET", aliases: &[] },
        Codepoint { codepoint: 0x1684A, name: "BAMUM LETTER PHASE-A TEUAEN", aliases: &[] },
        Codepoint { codepoint: 0x1684B, name: "BAMUM LETTER PHASE-A SOT", aliases: &[] },
        Codepoint { codepoint: 0x1684C, name: "BAMUM LETTER PHASE-A PAAM", aliases: &[] },
        Codepoint { codepoint: 0x1684D, name: "BAMUM LETTER PHASE-A NSHIEE", aliases: &[] },
        Codepoint { codepoint: 0x1684E, name: "BAMUM LETTER PHASE-A MAEM", aliases: &[] },
        Codepoint { codepoint: 0x1684F, name: "BAMUM LETTER PHASE-A NYI", aliases: &[] },
        Codepoint { codepoint: 0x16850, name: "BAMUM LETTER PHASE-A KAQ", aliases: &[] },
        Codepoint { codepoint: 0x16851, name: "BAMUM LETTER PHASE-A NSHA", aliases: &[] },
        Codepoint { codepoint: 0x16852, name: "BAMUM LETTER PHASE-A VEE", aliases: &[] },
        Codepoint { codepoint: 0x16853, name: "BAMUM LETTER PHASE-A LU", aliases: &[] },
        Codepoint { codepoint: 0x16854, name: "BAMUM LETTER PHASE-A NEN", aliases: &[] },
        Codepoint { codepoint: 0x16855, name: "BAMUM LETTER PHASE-A NAQ", aliases: &[] },
    ];
    assert(v@ =~= codepoint_table_617());
    v
}

pub open spec fn codepoint_table_618() -> Seq<Codepoint> {
    seq![
        Codepoint { codepoint: 0x16856, name: "BAMUM LETTER PHASE-A MBAQ", aliases: &[] },
        Codepoint { codepoint: 0x16857, name: "BAMUM LETTER PHASE-B NSHUET", aliases: &[] },
        Codepoint { codepoint: 0x16858, name: "BAMUM LETTER PHASE-B TU MAEMGBIEE", aliases: &[] },
        Codepoint { codepoint: 0x16859, name: "BAMUM LETTER PHASE-B SIEE", aliases: &[] },
        Codepoint { codepoint: 0x1685A, name: "BAMUM LETTER PHASE-B SET TU", aliases: &[] },
        Codepoint { codepoint: 0x1685B, name: "BAMUM LETTER PHASE-B LOM NTEUM", aliases: &[] },
        Codepoint { codepoint: 0x1685C, name: "BAMUM LETTER PHASE-B MBA MAELEE", aliases: &[] },
        Codepoint { codepoint: 0x1685D, name: "BAMUM LETTER PHASE-B KIEEM", aliases: &[] },
        Codepoint { codepoint: 0x1685E, name: "BAMUM LETTER PHASE-B YEURAE", aliases: &[] },
        Codepoint { codepoint: 0x1685F, name: "BAMUM LETTER PHASE-B MBAARAE", aliases: &[] },
        Codepoint { codepoint: 0x16860, name: "BAMUM LETTER PHASE-B KAM", aliases: &[] },
        Codepoint { codepoint: 0x16861, name: "BAMUM LETTER PHASE-B PEESHI", aliases: &[] },
        Codepoint { codepoint: 0x16862, name: "BAMUM LETTER PHASE-B YAFU LEERAEWA", aliases: &[] },
        Codepoint { codepoint: 0x16863, name: "BAMUM LETTER PHASE-B LAM NSHUT NYAM", aliases: &[] },
        Codepoint { codepoint: 0x16864, name: "BAMUM LETTER PHASE-B NTIEE SHEUOQ", aliases: &[] },
        Codepoint { codepoint: 0x16865, name: "BAMUM LETTER PHASE-B NDU NJAA", aliases: &[] },
        Codepoint { codepoint: 0x16866, name: "BAMUM LETTER PHASE-B GHEUGHEUAEM", aliases: &[] },
        Codepoint { codepoint: 0x16867, name: "BAMUM LETTER PHASE-B PIT", aliases: &[] },
        Codepoint { codepoint: 0x16868, name: "BAMUM LETTER PHASE-B TU NSIEE", aliases: &[] },
        Codepoint { codepoint: 0x16869, name: "BAMUM LETTER PHASE-B SHET NJAQ", aliases: &[] },
        Codepoint { codepoint: 0x1686A, name: "BAMUM LETTER PHASE-B SHEUAEQTU", aliases: &[] },
        Codepoint { codepoint: 0x1686B, name: "BAMUM LETTER PHASE-B MFON TEUAEQ", aliases: &[] },
        Codepoint { codepoint: 0x1686C, name: "BAMUM LETTER PHASE-B MBIT MBAAKET", aliases: &[] },
        Codepoint { codepoint: 0x1686D, name: "BAMUM LETTER PHASE-B NYI NTEUM", aliases: &[] },
        Codepoint { codepoint: 0x1686E, name: "BAMUM LETTER PHASE-B KEUPUQ", aliases: &[] },
        Codepoint { codepoint: 0x1686F, name: "BAMUM LETTER PHASE-B GHEUGHEN", aliases: &[] },
        Codepoint { codepoint: 0x16870, name: "BAMUM LETTER PHASE-B KEUYEUX", aliases: &[] },
        Codepoint { codepoint: 0x16871, name: "BAMUM LETTER PHASE-B LAANAE", aliases: &[] },
        Codepoint { codepoint: 0x16872, name: "BAMUM LETTER PHASE-B PARUM", aliases: &[] },
        Codepoint { codepoint: 0x16873, name: "BAMUM LETTER PHASE-B VEUM", aliases: &[] },
        Codepoint { codepoint: 0x16874, name: "BAMUM LETTER PHASE-B NGKINDI MVOP", aliases: &[] },
        Codepoint { codepoint: 0x16875, name: "BAMUM LETTER PHASE-B NGGEU MBU", aliases: &[] },
        Codepoint { codepoint: 0x16876, name: "BAMUM LETTER PHASE-B WUAET", aliases: &[] },
        Codepoint { codepoint: 0x16877, name: "BAMUM LETTER PHASE-B SAKEUAE", aliases: &[] },
        Codepoint { codepoint: 0x16878, name: "BAMUM LETTER PHASE-B TAAM", aliases: &[] },
        Codepoint { codepoint: 0x16879, name: "BAMUM LETTER PHASE-B MEUQ", aliases: &[] },
        Codepoint { codepoint: 0x1687A, name: "BAMUM LETTER PHASE-B NGGUOQ", aliases: &[] },
        Codepoint { codepoint: 0x1687B, name: "BAMUM LETTER PHASE-B NGGUOQ LARGE", aliases: &[] },
        Codepoint { codepoint: 0x1687C, name: "BAMUM LETTER PHASE-B MFIYAQ", aliases: &[] },
        Codepoint { codepoint: 0x1687D, name: "BAMUM LETTER PHASE-B SUE", aliases: &[] },
    ]
}

fn all_codepoints_618() -> (v: Vec<Codepoint>)
    ensures
        v@ == codepoint_table_618(),
{
    let v = vec![
        Codepoint { codepoint: 0x16856, name: "BAMUM LETTER PHASE-A MBAQ", aliases: &[] },
        Codepoint { codepoint: 0x16857, name: "BAMUM LETTER PHASE-B NSHUET", aliases: &[] },
        Codepoint { codepoint: 0x16858, name: "BAMUM LETTER PHASE-B TU MAEMGBIEE", aliases: &[] },
        Codepoint { codepoint: 0x16859, name: "BAMUM LETTER PHASE-B SIEE", aliases: &[] },
        Codepoint { codepoint: 0x1685A, name: "BAMUM LETTER PHASE-B SET TU", aliases: &[] },
        Codepoint { codepoint: 0x1685B, name: "BAMUM LETTER PHASE-B LOM NTEUM", aliases: &[] },
        Codepoint { codepoint: 0x1685C, name: "BAMUM LETTER PHASE-B MBA MAELEE", aliases: &[] },
        Codepoint { codepoint: 0x1685D, name: "BAMUM LETTER PHASE-B KIEEM", aliases: &[] },
        Codepoint { codepoint: 0x1685E, name: "BAMUM LETTER PHASE-B YEURAE", aliases: &[] },
        Codepoint { codepoint: 0x1685F, name: "BAMUM LETTER PHASE-B MBAARAE", aliases: &[] },
        Codepoint { codepoint: 0x16860, name: "BAMUM LETTER PHASE-B KAM", aliases: &[] },
        Codepoint { codepoint: 0x16861, name: "BAMUM LETTER PHASE-B PEESHI", aliases: &[] },
        Codepoint { codepoint: 0x16862, name: "BAMUM LETTER PHASE-B YAFU LEERAEWA", aliases: &[] },
        Codepoint { codepoint: 0x16863, name: "BAMUM LETTER PHASE-B LAM NSHUT NYAM", aliases: &[] },
        Codepoint { codepoint: 0x16864, name: "BAMUM LETTER PHASE-B NTIEE SHEUOQ", aliases: &[] },
        Codepoint { codepoint: 0x16865, name: "BAMUM LETTER PHASE-B NDU NJAA", aliases: &[] },
        Codepoint { codepoint: 0x16866, name: "BAMUM LETTER PHASE-B GHEUGHEUAEM", aliases: &[] },
        Codepoint { codepoint: 0x16867, name: "BAMUM LETTER PHASE-B PIT", aliases: &[] },
        Codepoint { codepoint: 0x16868, name: "BAMUM LETTER PHASE-B TU NSIEE", aliases: &[] },
        Codepoint { codepoint: 0x16869, name: "BAMUM LETTER PHASE-B SHET NJAQ", aliases: &[] },
        Codepoint { codepoint: 0x1686A, name: "BAMUM LETTER PHASE-B SHEUAEQTU", aliases: &[] },
        Codepoint { codepoint: 0x1686B, name: "BAMUM LETTER PHASE-B MFON TEUAEQ", aliases: &[] },
        Codepoint { codepoint: 0x1686C, name: "BAMUM LETTER PHASE-B MBIT MBAAKET", aliases: &[] },
        Codepoint { codepoint: 0x1686D, name: "BAMUM LETTER PHASE-B NYI NTEUM", aliases: &[] },
        Codepoint { codepoint: 0x1686E, name: "BAMUM LETTER PHASE-B KEUPUQ", aliases: &[] },
        Codepoint { codepoint: 0x1686F, name: "BAMUM LETTER PHASE-B GHEUGHEN", aliases: &[] },
        Codepoint { codepoint: 0x16870, name: "BAMUM LETTER PHASE-B KEUYEUX", aliases: &[] },
        Codepoint { codepoint: 0x16871, name: "BAMUM LETTER PHASE-B LAANAE", aliases: &[] },
        Codepoint { codepoint: 0x16872, name: "BAMUM LETTER PHASE-B PARUM", aliases: &[] },
        Codepoint { codepoint: 0x16873, name: "BAMUM LETTER PHASE-B VEUM", aliases: &[] },
        Codepoint { codepoint: 0x16874, name: "BAMUM LETTER PHASE-B NGKINDI MVOP", aliases: &[] },
        Codepoint { codepoint: 0x16875, name: "BAMUM LETTER PHASE-B NGGEU MBU", aliases: &[] },
        Codepoint { codepoint: 0x16876, name: "BAMUM LETTER PHASE-B WUAET", aliases: &[] },
        Codepoint { codepoint: 0x16877, name: "BAMUM LETTER PHASE-B SAKEUAE", aliases: &[] },
        Codepoint { codepoint: 0x16878, name: "BAMUM LETTER PHASE-B TAAM", aliases: &[] },
        Codepoint { codepoint: 0x16879, name: "BAMUM LETTER PHASE-B MEUQ", aliases: &[] },
        Codepoint { codepoint: 0x1687A, name: "BAMUM LETTER PHASE-B NGGUOQ", aliases: &[] },
        Codepoint { codepoint: 0x1687B, name: "BAMUM LETTER PHASE-B NGGUOQ LARGE", aliases: &[] },
        Codepoint { codepoint: 0x1687C, name: "BAMUM LETTER PHASE-B MFIYAQ", aliases: &[] },
        Codepoint { codepoint: 0x1687D, name: "BAMUM LETTER PHASE-B SUE", aliases: &[] },
    ];
    assert(v@ =~= codepoint_table_618());
    v
}

pub open spec fn codepoint_table_619() -> Seq<Codepoint> {
    seq![
        Codepoint { codepoint: 0x1687E, name: "BAMUM LETTER PHASE-B MBEURI", aliases: &[] },
        Codepoint { codepoint: 0x1687F, name: "BAMUM LETTER PHASE-B MONTIEEN", aliases: &[] },
        Codepoint { codepoint: 0x16880, name: "BAMUM LETTER PHASE-B NYAEMAE", aliases: &[] },
        Codepoint { codepoint: 0x16881, name: "BAMUM LETTER PHASE-B PUNGAAM", aliases: &[] },
        Codepoint { codepoint: 0x16882, name: "BAMUM LETTER PHASE-B MEUT NGGEET", aliases: &[] },
        Codepoint { codepoint: 0x16883, name: "BAMUM LETTER PHASE-B FEUX", aliases: &[] },
        Codepoint { codepoint: 0x16884, name: "BAMUM LETTER PHASE-B MBUOQ", aliases: &[] },
        Codepoint { codepoint: 0x16885, name: "BAMUM LETTER PHASE-B FEE", aliases: &[] },
        Codepoint { codepoint: 0x16886, name: "BAMUM LETTER PHASE-B KEUAEM", aliases: &[] },
        Codepoint { codepoint: 0x16887, name: "BAMUM LETTER PHASE-B MA NJEUAENA", aliases: &[] },
        Codepoint { codepoint: 0x16888, name: "BAMUM LETTER PHASE-B MA NJUQA", aliases: &[] },
        Codepoint { codepoint: 0x16889, name: "BAMUM LETTER PHASE-B LET", aliases: &[] },
        Codepoint { codepoint: 0x1688A, name: "BAMUM LETTER PHASE-B NGGAAM", aliases: &[] },
        Codepoint { codepoint: 0x1688B, name: "BAMUM LETTER PHASE-B NSEN", aliases: &[] },
        Codepoint { codepoint: 0x1688C, name: "BAMUM LETTER PHASE-B MA", aliases: &[] },
        Codepoint { codepoint: 0x1688D, name: "BAMUM LETTER PHASE-B KIQ", aliases: &[] },
        Codepoint { codepoint: 0x1688E, name: "BAMUM LETTER PHASE-B NGOM", aliases: &[] },
        Codepoint { codepoint: 0x1688F, name: "BAMUM LETTER PHASE-C NGKUE MAEMBA", aliases: &[] },
        Codepoint { codepoint: 0x16890, name: "BAMUM LETTER PHASE-C NZA", aliases: &[] },
        Codepoint { codepoint: 0x16891, name: "BAMUM LETTER PHASE-C YUM", aliases: &[] },
        Codepoint { codepoint: 0x16892, name: "BAMUM LETTER PHASE-C WANGKUOQ", aliases: &[] },
        Codepoint { codepoint: 0x16893, name: "BAMUM LETTER PHASE-C NGGEN", aliases: &[] },
        Codepoint { codepoint: 0x16894, name: "BAMUM LETTER PHASE-C NDEUAEREE", aliases: &[] },
        Codepoint { codepoint: 0x16895, name: "BAMUM LETTER PHASE-C NGKAQ", aliases: &[] },
        Codepoint { codepoint: 0x16896, name: "BAMUM LETTER PHASE-C GHARAE", aliases: &[] },
        Codepoint { codepoint: 0x16897, name: "BAMUM LETTER PHASE-C MBEEKEET", aliases: &[] },
        Codepoint { codepoint: 0x16898, name: "BAMUM LETTER PHASE-C GBAYI", aliases: &[] },
        Codepoint { codepoint: 0x16899, name: "BAMUM LETTER PHASE-C NYIR MKPARAQ MEUN", aliases: &[] },
        Codepoint { codepoint: 0x1689A, name: "BAMUM LETTER PHASE-C NTU MBIT", aliases: &[] },
        Codepoint { codepoint: 0x1689B, name: "BAMUM LETTER PHASE-C MBEUM", aliases: &[] },
        Codepoint { codepoint: 0x1689C, name: "BAMUM LETTER PHASE-C PIRIEEN", aliases: &[] },
        Codepoint { codepoint: 0x1689D, name: "BAMUM LETTER PHASE-C NDOMBU", aliases: &[] },
        Codepoint { codepoint: 0x1689E, name: "BAMUM LETTER PHASE-C MBAA CABBAGE-TREE", aliases: &[] },
        Codepoint { codepoint: 0x1689F, name: "BAMUM LETTER PHASE-C KEUSHEUAEP", aliases: &[] },
        Codepoint { codepoint: 0x168A0, name: "BAMUM LETTER PHASE-C GHAP", aliases: &[] },
        Codepoint { codepoint: 0x168A1, name: "BAMUM LETTER PHASE-C KEUKAQ", aliases: &[] },
        Codepoint { codepoint: 0x168A2, name: "BAMUM LETTER PHASE-C YU MUOMAE", aliases: &[] },
        Codepoint { codepoint: 0x168A3, name: "BAMUM LETTER PHASE-C NZEUM", aliases: &[] },
        Codepoint { codepoint: 0x168A4, name: "BAMUM LETTER PHASE-C MBUE", aliases: &[] },
        Codepoint { codepoint: 0x168A5, name: "BAMUM LETTER PHASE-C NSEUAEN", aliases: &[] },
    ]
}

fn all_codepoints_619() -> (v: Vec<Codepoint>)
    ensures
        v@ == codepoint_table_619(),
{
    let v = vec![
        Codepoint { codepoint: 0x1687E, name: "BAMUM LETTER PHASE-B MBEURI", aliases: &[] },
        Codepoint { codepoint: 0x1687F, name: "BAMUM LETTER PHASE-B MONTIEEN", aliases: &[] },
        Codepoint { codepoint: 0x16880, name: "BAMUM LETTER PHASE-B NYAEMAE", aliases: &[] },
        Codepoint { codepoint: 0x16881, name: "BAMUM LETTER PHASE-B PUNGAAM", aliases: &[] },
        Codepoint { codepoint: 0x16882, name: "BAMUM LETTER PHASE-B MEUT NGGEET", aliases: &[] },
        Codepoint { codepoint: 0x16883, name: "BAMUM LETTER PHASE-B FEUX", aliases: &[] },
        Codepoint { codepoint: 0x16884, name: "BAMUM LETTER PHASE-B MBUOQ", aliases: &[] },
        Codepoint { codepoint: 0x16885, name: "BAMUM LETTER PHASE-B FEE", aliases: &[] },
        Codepoint { codepoint: 0x16886, name: "BAMUM LETTER PHASE-B KEUAEM", aliases: &[] },
        Codepoint { codepoint: 0x16887, name: "BAMUM LETTER PHASE-B MA NJEUAENA", aliases: &[] },
        Codepoint { codepoint: 0x16888, name: "BAMUM LETTER PHASE-B MA NJUQA", aliases: &[] },
        Codepoint { codepoint: 0x16889, name: "BAMUM LETTER PHASE-B LET", aliases: &[] },
        Codepoint { codepoint: 0x1688A, name: "BAMUM LETTER PHASE-B NGGAAM", aliases: &[] },
        Codepoint { codepoint: 0x1688B, name: "BAMUM LETTER PHASE-B NSEN", aliases: &[] },
        Codepoint { codepoint: 0x1688C, name: "BAMUM LETTER PHASE-B MA", aliases: &[] },
        Codepoint { codepoint: 0x1688D, name: "BAMUM LETTER PHASE-B KIQ", aliases: &[] },
        Codepoint { codepoint: 0x1688E, name: "BAMUM LETTER PHASE-B NGOM", aliases: &[] },
        Codepoint { codepoint: 0x1688F, name: "BAMUM LETTER PHASE-C NGKUE MAEMBA", aliases: &[] },
        Codepoint { codepoint: 0x16890, name: "BAMUM LETTER PHASE-C NZA", aliases: &[] },
        Codepoint { codepoint: 0x16891, name: "BAMUM LETTER PHASE-C YUM", aliases: &[] },
        Codepoint { codepoint: 0x16892, name: "BAMUM LETTER PHASE-C WANGKUOQ", aliases: &[] },
        Codepoint { codepoint: 0x16893, name: "BAMUM LETTER PHASE-C NGGEN", aliases: &[] },
        Codepoint { codepoint: 0x16894, name: "BAMUM LETTER PHASE-C NDEUAEREE", aliases: &[] },
        Codepoint { codepoint: 0x16895, name: "BAMUM LETTER PHASE-C NGKAQ", aliases: &[] },
        Codepoint { codepoint: 0x16896, name: "BAMUM LETTER PHASE-C GHARAE", aliases: &[] },
        Codepoint { codepoint: 0x16897, name: "BAMUM LETTER PHASE-C MBEEKEET", aliases: &[] },
        Codepoint { codepoint: 0x16898, name: "BAMUM LETTER PHASE-C GBAYI", aliases: &[] },
        Codepoint { codepoint: 0x16899, name: "BAMUM LETTER PHASE-C NYIR MKPARAQ MEUN", aliases: &[] },
        Codepoint { codepoint: 0x1689A, name: "BAMUM LETTER PHASE-C NTU MBIT", aliases: &[] },
        Codepoint { codepoint: 0x1689B, name: "BAMUM LETTER PHASE-C MBEUM", aliases: &[] },
        Codepoint { codepoint: 0x1689C, name: "BAMUM LETTER PHASE-C PIRIEEN", aliases: &[] },
        Codepoint { codepoint: 0x1689D, name: "BAMUM LETTER PHASE-C NDOMBU", aliases: &[] },
        Codepoint { codepoint: 0x1689E, name: "BAMUM LETTER PHASE-C MBAA CABBAGE-TREE", aliases: &[] },
        Codepoint { codepoint: 0x1689F, name: "BAMUM LETTER PHASE-C KEUSHEUAEP", aliases: &[] },
        Codepoint { codepoint: 0x168A0, name: "BAMUM LETTER PHASE-C GHAP", aliases: &[] },
        Codepoint { codepoint: 0x168A1, name: "BAMUM LETTER PHASE-C KEUKAQ", aliases: &[] },
        Codepoint { codepoint: 0x168A2, name: "BAMUM LETTER PHASE-C YU MUOMAE", aliases: &[] },
        Codepoint { codepoint: 0x168A3, name: "BAMUM LETTER PHASE-C NZEUM", aliases: &[] },
        Codepoint { codepoint: 0x168A4, name: "BAMUM LETTER PHASE-C MBUE", aliases: &[] },
        Codepoint { codepoint: 0x168A5, name: "BAMUM LETTER PHASE-C NSEUAEN", aliases: &[] },
    ];
    assert(v@ =~= codepoint_table_619());
    v
}

/// The entries from position 24000 of the table, 800 at most.
pub open spec fn codepoint_group_30() -> Seq<Codepoint> {
    codepoint_table_600() + codepoint_table_601() + codepoint_table_602() + codepoint_table_603() + codepoint_table_604() + codepoint_table_605() + codepoint_table_606() + codepoint_table_607() + codepoint_table_608() + codepoint_table_609() + codepoint_table_610() + codepoint_table_611() + codepoint_table_612() + codepoint_table_613() + codepoint_table_614() + codepoint_table_615() + codepoint_table_616() + codepoint_table_617() + codepoint_table_618() + codepoint_table_619()
}

pub fn all_codepoints_group_30() -> (v: Vec<Codepoint>)
    ensures
        v@ == codepoint_group_30(),
{
    let mut v = all_codepoints_600();
    let mut part = all_codepoints_601();
    v.append(&mut part);
    let mut part = all_codepoints_602();
    v.append(&mut part);
    let mut part = all_codepoints_603();
    v.append(&mut part);
    let mut part = all_codepoints_604();
    v.append(&mut part);
    let mut part = all_codepoints_605();
    v.append(&mut part);
    let mut part = all_codepoints_606();
    v.append(&mut part);
    let mut part = all_codepoints_607();
    v.append(&mut part);
    let mut part = all_codepoints_608();
    v.append(&mut part);
    let mut part = all_codepoints_609();
    v.append(&mut part);
    let mut part = all_codepoints_610();
    v.append(&mut part);
    let mut part = all_codepoints_611();
    v.append(&mut part);
    let mut part = all_codepoints_612();
    v.append(&mut part);
    let mut part = all_codepoints_613();
    v.append(&mut part);
    let mut part = all_codepoints_614();
    v.append(&mut part);
    let mut part = all_codepoints_615();
    v.append(&mut part);
    let mut part = all_codepoints_616();
    v.append(&mut part);
    let mut part = all_codepoints_617();
    v.append(&mut part);
    let mut part = all_codepoints_618();
    v.append(&mut part);
    let mut part = all_codepoints_619();
    v.append(&mut part);
    v
}

pub open spec fn codepoint_table_620() -> Seq<Codepoint> {
    seq![
        Codepoint { codepoint: 0x168A6, name: "BAMUM LETTER PHASE-C MBIT", aliases: &[] },
        Codepoint { codepoint: 0x168A7, name: "BAMUM LETTER PHASE-C YEUQ", aliases: &[] },
        Codepoint { codepoint: 0x168A8, name: "BAMUM LETTER PHASE-C KPARAQ", aliases: &[] },
        Codepoint { codepoint: 0x168A9, name: "BAMUM LETTER PHASE-C KAA", aliases: &[] },
        Codepoint { codepoint: 0x168AA, name: "BAMUM LETTER PHASE-C SEUX", aliases: &[] },
        Codepoint { codepoint: 0x168AB, name: "BAMUM LETTER PHASE-C NDIDA", aliases: &[] },
        Codepoint { codepoint: 0x168AC, name: "BAMUM LETTER PHASE-C TAASHAE", aliases: &[] },
        Codepoint { codepoint: 0x168AD, name: "BAMUM LETTER PHASE-C NJUEQ", aliases: &[] },
        Codepoint { codepoint: 0x168AE, name: "BAMUM LETTER PHASE-C TITA YUE", aliases: &[] },
        Codepoint { codepoint: 0x168AF, name: "BAMUM LETTER PHASE-C SUAET", aliases: &[] },
        Codepoint { codepoint: 0x168B0, name: "BAMUM LETTER PHASE-C NGGUAEN NYAM", aliases: &[] },
        Codepoint { codepoint: 0x168B1, name: "BAMUM LETTER PHASE-C VEUX", aliases: &[] },
        Codepoint { codepoint: 0x168B2, name: "BAMUM LETTER PHASE-C NANSANAQ", aliases: &[] },
        Codepoint { codepoint: 0x168B3, name: "BAMUM LETTER PHASE-C MA KEUAERI", aliases: &[] },
        Codepoint { codepoint: 0x168B4, name: "BAMUM LETTER PHASE-C NTAA", aliases: &[] },
        Codepoint { codepoint: 0x168B5, name: "BAMUM LETTER PHASE-C NGGUON", aliases: &[] },
        Codepoint { codepoint: 0x168B6, name: "BAMUM LETTER PHASE-C LAP", aliases: &[] },
        Codepoint { codepoint: 0x168B7, name: "BAMUM LETTER PHASE-C MBIRIEEN", aliases: &[] },
        Codepoint { codepoint: 0x168B8, name: "BAMUM LETTER PHASE-C MGBASAQ", aliases: &[] },
        Codepoint { codepoint: 0x168B9, name: "BAMUM LETTER PHASE-C NTEUNGBA", aliases: &[] },
        Codepoint { codepoint: 0x168BA, name: "BAMUM LETTER PHASE-C TEUTEUX", aliases: &[] },
        Codepoint { codepoint: 0x168BB, name: "BAMUM LETTER PHASE-C NGGUM", aliases: &[] },
        Codepoint { codepoint: 0x168BC, name: "BAMUM LETTER PHASE-C FUE", aliases: &[] },
        Codepoint { codepoint: 0x168BD, name: "BAMUM LETTER PHASE-C NDEUT", aliases: &[] },
        Codepoint { codepoint: 0x168BE, name: "BAMUM LETTER PHASE-C NSA", aliases: &[] },
        Codepoint { codepoint: 0x168BF, name: "BAMUM LETTER PHASE-C NSHAQ", aliases: &[] },
        Codepoint { codepoint: 0x168C0, name: "BAMUM LETTER PHASE-C BUNG", aliases: &[] },
        Codepoint { codepoint: 0x168C1, name: "BAMUM LETTER PHASE-C VEUAEPEN", aliases: &[] },
        Codepoint { codepoint: 0x168C2, name: "BAMUM LETTER PHASE-C MBERAE", aliases: &[] },
        Codepoint { codepoint: 0x168C3, name: "BAMUM LETTER PHASE-C RU", aliases: &[] },
        Codepoint { codepoint: 0x168C4, name: "BAMUM LETTER PHASE-C NJAEM", aliases: &[] },
        Codepoint { codepoint: 0x168C5, name: "BAMUM LETTER PHASE-C LAM", aliases: &[] },
        Codepoint { codepoint: 0x168C6, name: "BAMUM LETTER PHASE-C TITUAEP", aliases: &[] },
        Codepoint { codepoint: 0x168C7, name: "BAMUM LETTER PHASE-C NSUOT NGOM", aliases: &[] },
        Codepoint { codepoint: 0x168C8, name: "BAMUM LETTER PHASE-C NJEEEE", aliases: &[] },
        Codepoint { codepoint: 0x168C9, name: "BAMUM LETTER PHASE-C KET", aliases: &[] },
        Codepoint { codepoint: 0x168CA, name: "BAMUM LETTER PHASE-C NGGU", aliases: &[] },
        Codepoint { codepoint: 0x168CB, name: "BAMUM LETTER PHASE-C MAESI", aliases: &[] },
        Codepoint { codepoint: 0x168CC, name: "BAMUM LETTER PHASE-C MBUAEM", aliases: &[] },
        Codepoint { codepoint: 0x168CD, name: "BAMUM LETTER PHASE-C LU", aliases: &[] },
    ]
}

fn all_codepoints_620() -> (v: Vec<Codepoint>)
    ensures
        v@ == codepoint_table_620(),
{
    let v = vec![
        Codepoint { codepoint: 0x168A6, name: "BAMUM LETTER PHASE-C MBIT", aliases: &[] },
        Codepoint { codepoint: 0x168A7, name: "BAMUM LETTER PHASE-C YEUQ", aliases: &[] },
        Codepoint { codepoint: 0x168A8, name: "BAMUM LETTER PHASE-C KPARAQ", aliases: &[] },
        Codepoint { codepoint: 0x168A9, name: "BAMUM LETTER PHASE-C KAA", aliases: &[] },
        Codepoint { codepoint: 0x168AA, name: "BAMUM LETTER PHASE-C SEUX", aliases: &[] },
        Codepoint { codepoint: 0x168AB, name: "BAMUM LETTER PHASE-C NDIDA", aliases: &[] },
        Codepoint { codepoint: 0x168AC, name: "BAMUM LETTER PHASE-C TAASHAE", aliases: &[] },
        Codepoint { codepoint: 0x168AD, name: "BAMUM LETTER PHASE-C NJUEQ", aliases: &[] },
        Codepoint { codepoint: 0x168AE, name: "BAMUM LETTER PHASE-C TITA YUE", aliases: &[] },
        Codepoint { codepoint: 0x168AF, name: "BAMUM LETTER PHASE-C SUAET", aliases: &[] },
        Codepoint { codepoint: 0x168B0, name: "BAMUM LETTER PHASE-C NGGUAEN NYAM", aliases: &[] },
        Codepoint { codepoint: 0x168B1, name: "BAMUM LETTER PHASE-C VEUX", aliases: &[] },
        Codepoint { codepoint: 0x168B2, name: "BAMUM LETTER PHASE-C NANSANAQ", aliases: &[] },
        Codepoint { codepoint: 0x168B3, name: "BAMUM LETTER PHASE-C MA KEUAERI", aliases: &[] },
        Codepoint { codepoint: 0x168B4, name: "BAMUM LETTER PHASE-C NTAA", aliases: &[] },
        Codepoint { codepoint: 0x168B5, name: "BAMUM LETTER PHASE-C NGGUON", aliases: &[] },
        Codepoint { codepoint: 0x168B6, name: "BAMUM LETTER PHASE-C LAP", aliases: &[] },
        Codepoint { codepoint: 0x168B7, name: "BAMUM LETTER PHASE-C MBIRIEEN", aliases: &[] },
        Codepoint { codepoint: 0x168B8, name: "BAMUM LETTER PHASE-C MGBASAQ", aliases: &[] },
        Codepoint { codepoint: 0x168B9, name: "BAMUM LETTER PHASE-C NTEUNGBA", aliases: &[] },
        Codepoint { codepoint: 0x168BA, name: "BAMUM LETTER PHASE-C TEUTEUX", aliases: &[] },
        Codepoint { codepoint: 0x168BB, name: "BAMUM LETTER PHASE-C NGGUM", aliases: &[] },
        Codepoint { codepoint: 0x168BC, name: "BAMUM LETTER PHASE-C FUE", aliases: &[] },
        Codepoint { codepoint: 0x168BD, name: "BAMUM LETTER PHASE-C NDEUT", aliases: &[] },
        Codepoint { codepoint: 0x168BE, name: "BAMUM LETTER PHASE-C NSA", aliases: &[] },
        Codepoint { codepoint: 0x168BF, name: "BAMUM LETTER PHASE-C NSHAQ", aliases: &[] },
        Codepoint { codepoint: 0x168C0, name: "BAMUM LETTER PHASE-C BUNG", aliases: &[] },
        Codepoint { codepoint: 0x168C1, name: "BAMUM LETTER PHASE-C VEUAEPEN", aliases: &[] },
        Codepoint { codepoint: 0x168C2, name: "BAMUM LETTER PHASE-C MBERAE", aliases: &[] },
        Codepoint { codepoint: 0x168C3, name: "BAMUM LETTER PHASE-C RU", aliases: &[] },
        Codepoint { codepoint: 0x168C4, name: "BAMUM LETTER PHASE-C NJAEM", aliases: &[] },
        Codepoint { codepoint: 0x168C5, name: "BAMUM LETTER PHASE-C LAM", aliases: &[] },
        Codepoint { codepoint: 0x168C6, name: "BAMUM LETTER PHASE-C TITUAEP", aliases: &[] },
        Codepoint { codepoint: 0x168C7, name: "BAMUM LETTER PHASE-C NSUOT NGOM", aliases: &[] },
        Codepoint { codepoint: 0x168C8, name: "BAMUM LETTER PHASE-C NJEEEE", aliases: &[] },
        Codepoint { codepoint: 0x168C9, name: "BAMUM LETTER PHASE-C KET", aliases: &[] },
        Codepoint { codepoint: 0x168CA, name: "BAMUM LETTER PHASE-C NGGU", aliases: &[] },
        Codepoint { codepoint: 0x168CB, name: "BAMUM LETTER PHASE-C MAESI", aliases: &[] },
        Codepoint { codepoint: 0x168CC, name: "BAMUM LETTER PHASE-C MBUAEM", aliases: &[] },
        Codepoint { codepoint: 0x168CD, name: "BAMUM LETTER PHASE-C LU", aliases: &[] },
    ];
    assert(v@ =~= codepoint_table_620());
    v
}

pub open spec fn codepoint_table_621() -> Seq<Codepoint> {
    seq![
        Codepoint { codepoint: 0x168CE, name: "BAMUM LETTER PHASE-C KUT", aliases: &[] },
        Codepoint { codepoint: 0x168CF, name: "BAMUM LETTER PHASE-C NJAM", aliases: &[] },
        Codepoint { codepoint: 0x168D0, name: "BAMUM LETTER PHASE-C NGOM", aliases: &[] },
        Codepoint { codepoint: 0x168D1, name: "BAMUM LETTER PHASE-C WUP", aliases: &[] },
        Codepoint { codepoint: 0x168D2, name: "BAMUM LETTER PHASE-C NGGUEET", aliases: &[] },
        Codepoint { codepoint: 0x168D3, name: "BAMUM LETTER PHASE-C NSOM", aliases: &[] },
        Codepoint { codepoint: 0x168D4, name: "BAMUM LETTER PHASE-C NTEN", aliases: &[] },
        Codepoint { codepoint: 0x168D5, name: "BAMUM LETTER PHASE-C KUOP NKAARAE", aliases: &[] },
        Codepoint { codepoint: 0x168D6, name: "BAMUM LETTER PHASE-C NSUN", aliases: &[] },
        Codepoint { codepoint: 0x168D7, name: "BAMUM LETTER PHASE-C NDAM", aliases: &[] },
        Codepoint { codepoint: 0x168D8, name: "BAMUM LETTER PHASE-C MA NSIEE", aliases: &[] },
        Codepoint { codepoint: 0x168D9, name: "BAMUM LETTER PHASE-C YAA", aliases: &[] },
        Codepoint { codepoint: 0x168DA, name: "BAMUM LETTER PHASE-C NDAP", aliases: &[] },
        Codepoint { codepoint: 0x168DB, name: "BAMUM LETTER PHASE-C SHUEQ", aliases: &[] },
        Codepoint { codepoint: 0x168DC, name: "BAMUM LETTER PHASE-C SETFON", aliases: &[] },
        Codepoint { codepoint: 0x168DD, name: "BAMUM LETTER PHASE-C MBI", aliases: &[] },
        Codepoint { codepoint: 0x168DE, name: "BAMUM LETTER PHASE-C MAEMBA", aliases: &[] },
        Codepoint { codepoint: 0x168DF, name: "BAMUM LETTER PHASE-C MBANYI", aliases: &[] },
        Codepoint { codepoint: 0x168E0, name: "BAMUM LETTER PHASE-C KEUSEUX", aliases: &[] },
        Codepoint { codepoint: 0x168E1, name: "BAMUM LETTER PHASE-C MBEUX", aliases: &[] },
        Codepoint { codepoint: 0x168E2, name: "BAMUM LETTER PHASE-C KEUM", aliases: &[] },
        Codepoint { codepoint: 0x168E3, name: "BAMUM LETTER PHASE-C MBAA PICKET", aliases: &[] },
        Codepoint { codepoint: 0x168E4, name: "BAMUM LETTER PHASE-C YUWOQ", aliases: &[] },
        Codepoint { codepoint: 0x168E5, name: "BAMUM LETTER PHASE-C NJEUX", aliases: &[] },
        Codepoint { codepoint: 0x168E6, name: "BAMUM LETTER PHASE-C MIEE", aliases: &[] },
        Codepoint { codepoint: 0x168E7, name: "BAMUM LETTER PHASE-C MUAE", aliases: &[] },
        Codepoint { codepoint: 0x168E8, name: "BAMUM LETTER PHASE-C SHIQ", aliases: &[] },
        Codepoint { codepoint: 0x168E9, name: "BAMUM LETTER PHASE-C KEN LAW", aliases: &[] },
        Codepoint { codepoint: 0x168EA, name: "BAMUM LETTER PHASE-C KEN FATIGUE", aliases: &[] },
        Codepoint { codepoint: 0x168EB, name: "BAMUM LETTER PHASE-C NGAQ", aliases: &[] },
        Codepoint { codepoint: 0x168EC, name: "BAMUM LETTER PHASE-C NAQ", aliases: &[] },
        Codepoint { codepoint: 0x168ED, name: "BAMUM LETTER PHASE-C LIQ", aliases: &[] },
        Codepoint { codepoint: 0x168EE, name: "BAMUM LETTER PHASE-C PIN", aliases: &[] },
        Codepoint { codepoint: 0x168EF, name: "BAMUM LETTER PHASE-C PEN", aliases: &[] },
        Codepoint { codepoint: 0x168F0, name: "BAMUM LETTER PHASE-C TET", aliases: &[] },
        Codepoint { codepoint: 0x168F1, name: "BAMUM LETTER PHASE-D MBUO", aliases: &[] },
        Codepoint { codepoint: 0x168F2, name: "BAMUM LETTER PHASE-D WAP", aliases: &[] },
        Codepoint { codepoint: 0x168F3, name: "BAMUM LETTER PHASE-D NJI", aliases: &[] },
        Codepoint { codepoint: 0x168F4, name: "BAMUM LETTER PHASE-D MFON", aliases: &[] },
        Codepoint { codepoint: 0x168F5, name: "BAMUM LETTER PHASE-D NJIEE", aliases: &[] },
    ]
}

fn all_codepoints_621() -> (v: Vec<Codepoint>)
    ensures
        v@ == codepoint_table_621(),
{
    let v = vec![
        Codepoint { codepoint: 0x168CE, name: "BAMUM LETTER PHASE-C KUT", aliases: &[] },
        Codepoint { codepoint: 0x168CF, name: "BAMUM LETTER PHASE-C NJAM", aliases: &[] },
        Codepoint { codepoint: 0x168D0, name: "BAMUM LETTER PHASE-C NGOM", aliases: &[] },
        Codepoint { codepoint: 0x168D1, name: "BAMUM LETTER PHASE-C WUP", aliases: &[] },
        Codepoint { codepoint: 0x168D2, name: "BAMUM LETTER PHASE-C NGGUEET", aliases: &[] },
        Codepoint { codepoint: 0x168D3, name: "BAMUM LETTER PHASE-C NSOM", aliases: &[] },
        Codepoint { codepoint: 0x168D4, name: "BAMUM LETTER PHASE-C NTEN", aliases: &[] },
        Codepoint { codepoint: 0x168D5, name: "BAMUM LETTER PHASE-C KUOP NKAARAE", aliases: &[] },
        Codepoint { codepoint: 0x168D6, name: "BAMUM LETTER PHASE-C NSUN", aliases: &[] },
        Codepoint { codepoint: 0x168D7, name: "BAMUM LETTER PHASE-C NDAM", aliases: &[] },
        Codepoint { codepoint: 0x168D8, name: "BAMUM LETTER PHASE-C MA NSIEE", aliases: &[] },
        Codepoint { codepoint: 0x168D9, name: "BAMUM LETTER PHASE-C YAA", aliases: &[] },
        Codepoint { codepoint: 0x168DA, name: "BAMUM LETTER PHASE-C NDAP", aliases: &[] },
        Codepoint { codepoint: 0x168DB, name: "BAMUM LETTER PHASE-C SHUEQ", aliases: &[] },
        Codepoint { codepoint: 0x168DC, name: "BAMUM LETTER PHASE-C SETFON", aliases: &[] },
        Codepoint { codepoint: 0x168DD, name: "BAMUM LETTER PHASE-C MBI", aliases: &[] },
        Codepoint { codepoint: 0x168DE, name: "BAMUM LETTER PHASE-C MAEMBA", aliases: &[] },
        Codepoint { codepoint: 0x168DF, name: "BAMUM LETTER PHASE-C MBANYI", aliases: &[] },
        Codepoint { codepoint: 0x168E0, name: "BAMUM LETTER PHASE-C KEUSEUX", aliases: &[] },
        Codepoint { codepoint: 0x168E1, name: "BAMUM LETTER PHASE-C MBEUX", aliases: &[] },
        Codepoint { codepoint: 0x168E2, name: "BAMUM LETTER PHASE-C KEUM", aliases: &[] },
        Codepoint { codepoint: 0x168E3, name: "BAMUM LETTER PHASE-C MBAA PICKET", aliases: &[] },
        Codepoint { codepoint: 0x168E4, name: "BAMUM LETTER PHASE-C YUWOQ", aliases: &[] },
        Codepoint { codepoint: 0x168E5, name: "BAMUM LETTER PHASE-C NJEUX", aliases: &[] },
        Codepoint { codepoint: 0x168E6, name: "BAMUM LETTER PHASE-C MIEE", aliases: &[] },
        Codepoint { codepoint: 0x168E7, name: "BAMUM LETTER PHASE-C MUAE", aliases: &[] },
        Codepoint { codepoint: 0x168E8, name: "BAMUM LETTER PHASE-C SHIQ", aliases: &[] },
        Codepoint { codepoint: 0x168E9, name: "BAMUM LETTER PHASE-C KEN LAW", aliases: &[] },
        Codepoint { codepoint: 0x168EA, name: "BAMUM LETTER PHASE-C KEN FATIGUE", aliases: &[] },
        Codepoint { codepoint: 0x168EB, name: "BAMUM LETTER PHASE-C NGAQ", aliases: &[] },
        Codepoint { codepoint: 0x168EC, name: "BAMUM LETTER PHASE-C NAQ", aliases: &[] },
        Codepoint { codepoint: 0x168ED, name: "BAMUM LETTER PHASE-C LIQ", aliases: &[] },
        Codepoint { codepoint: 0x168EE, name: "BAMUM LETTER PHASE-C PIN", aliases: &[] },
        Codepoint { codepoint: 0x168EF, name: "BAMUM LETTER PHASE-C PEN", aliases: &[] },
        Codepoint { codepoint: 0x168F0, name: "BAMUM LETTER PHASE-C TET", aliases: &[] },
        Codepoint { codepoint: 0x168F1, name: "BAMUM LETTER PHASE-D MBUO", aliases: &[] },
        Codepoint { codepoint: 0x168F2, name: "BAMUM LETTER PHASE-D WAP", aliases: &[] },
        Codepoint { codepoint: 0x168F3, name: "BAMUM LETTER PHASE-D NJI", aliases: &[] },
        Codepoint { codepoint: 0x168F4, name: "BAMUM LETTER PHASE-D MFON", aliases: &[] },
        Codepoint { codepoint: 0x168F5, name: "BAMUM LETTER PHASE-D NJIEE", aliases: &[] },
    ];
    assert(v@ =~= codepoint_table_621());
    v
}

pub open spec fn codepoint_table_622() -> Seq<Codepoint> {
    seq![
        Codepoint { codepoint: 0x168F6, name: "BAMUM LETTER PHASE-D LIEE", aliases: &[] },
        Codepoint { codepoint: 0x168F7, name: "BAMUM LETTER PHASE-D NJEUT", aliases: &[] },
        Codepoint { codepoint: 0x168F8, name: "BAMUM LETTER PHASE-D NSHEE", aliases: &[] },
        Codepoint { codepoint: 0x168F9, name: "BAMUM LETTER PHASE-D NGGAAMAE", aliases: &[] },
        Codepoint { codepoint: 0x168FA, name: "BAMUM LETTER PHASE-D NYAM", aliases: &[] },
        Codepoint { codepoint: 0x168FB, name: "BAMUM LETTER PHASE-D WUAEN", aliases: &[] },
        Codepoint { codepoint: 0x168FC, name: "BAMUM LETTER PHASE-D NGKUN", aliases: &[] },
        Codepoint { codepoint: 0x168FD, name: "BAMUM LETTER PHASE-D SHEE", aliases: &[] },
        Codepoint { codepoint: 0x168FE, name: "BAMUM LETTER PHASE-D NGKAP", aliases: &[] },
        Codepoint { codepoint: 0x168FF, name: "BAMUM LETTER PHASE-D KEUAETMEUN", aliases: &[] },
        Codepoint { codepoint: 0x16900, name: "BAMUM LETTER PHASE-D TEUT", aliases: &[] },
        Codepoint { codepoint: 0x16901, name: "BAMUM LETTER PHASE-D SHEUAE", aliases: &[] },
        Codepoint { codepoint: 0x16902, name: "BAMUM LETTER PHASE-D NJAP", aliases: &[] },
        Codepoint { codepoint: 0x16903, name: "BAMUM LETTER PHASE-D SUE", aliases: &[] },
        Codepoint { codepoint: 0x16904, name: "BAMUM LETTER PHASE-D KET", aliases: &[] },
        Codepoint { codepoint: 0x16905, name: "BAMUM LETTER PHASE-D YAEMMAE", aliases: &[] },
        Codepoint { codepoint: 0x16906, name: "BAMUM LETTER PHASE-D KUOM", aliases: &[] },
        Codepoint { codepoint: 0x16907, name: "BAMUM LETTER PHASE-D SAP", aliases: &[] },
        Codepoint { codepoint: 0x16908, name: "BAMUM LETTER PHASE-D MFEUT", aliases: &[] },
        Codepoint { codepoint: 0x16909, name: "BAMUM LETTER PHASE-D NDEUX", aliases: &[] },
        Codepoint { codepoint: 0x1690A, name: "BAMUM LETTER PHASE-D MALEERI", aliases: &[] },
        Codepoint { codepoint: 0x1690B, name: "BAMUM LETTER PHASE-D MEUT", aliases: &[] },
        Codepoint { codepoint: 0x1690C, name: "BAMUM LETTER PHASE-D SEUAEQ", aliases: &[] },
        Codepoint { codepoint: 0x1690D, name: "BAMUM LETTER PHASE-D YEN", aliases: &[] },
        Codepoint { codepoint: 0x1690E, name: "BAMUM LETTER PHASE-D NJEUAEM", aliases: &[] },
        Codepoint { codepoint: 0x1690F, name: "BAMUM LETTER PHASE-D KEUOT MBUAE", aliases: &[] },
        Codepoint { codepoint: 0x16910, name: "BAMUM LETTER PHASE-D NGKEURI", aliases: &[] },
        Codepoint { codepoint: 0x16911, name: "BAMUM LETTER PHASE-D TU", aliases: &[] },
        Codepoint { codepoint: 0x16912, name: "BAMUM LETTER PHASE-D GHAA", aliases: &[] },
        Codepoint { codepoint: 0x16913, name: "BAMUM LETTER PHASE-D NGKYEE", aliases: &[] },
        Codepoint { codepoint: 0x16914, name: "BAMUM LETTER PHASE-D FEUFEUAET", aliases: &[] },
        Codepoint { codepoint: 0x16915, name: "BAMUM LETTER PHASE-D NDEE", aliases: &[] },
        Codepoint { codepoint: 0x16916, name: "BAMUM LETTER PHASE-D MGBOFUM", aliases: &[] },
        Codepoint { codepoint: 0x16917, name: "BAMUM LETTER PHASE-D LEUAEP", aliases: &[] },
        Codepoint { codepoint: 0x16918, name: "BAMUM LETTER PHASE-D NDON", aliases: &[] },
        Codepoint { codepoint: 0x16919, name: "BAMUM LETTER PHASE-D MONI", aliases: &[] },
        Codepoint { codepoint: 0x1691A, name: "BAMUM LETTER PHASE-D MGBEUN", aliases: &[] },
        Codepoint { codepoint: 0x1691B, name: "BAMUM LETTER PHASE-D PUUT", aliases: &[] },
        Codepoint { codepoint: 0x1691C, name: "BAMUM LETTER PHASE-D MGBIEE", aliases: &[] },
        Codepoint { codepoint: 0x1691D, name: "BAMUM LETTER PHASE-D MFO", aliases: &[] },
    ]
}

fn all_codepoints_622() -> (v: Vec<Codepoint>)
    ensures
        v@ == codepoint_table_622(),
{
    let v = vec![
        Codepoint { codepoint: 0x168F6, name: "BAMUM LETTER PHASE-D LIEE", aliases: &[] },
        Codepoint { codepoint: 0x168F7, name: "BAMUM LETTER PHASE-D NJEUT", aliases: &[] },
        Codepoint { codepoint: 0x168F8, name: "BAMUM LETTER PHASE-D NSHEE", aliases: &[] },
        Codepoint { codepoint: 0x168F9, name: "BAMUM LETTER PHASE-D NGGAAMAE", aliases: &[] },
        Codepoint { codepoint: 0x168FA, name: "BAMUM LETTER PHASE-D NYAM", aliases: &[] },
        Codepoint { codepoint: 0x168FB, name: "BAMUM LETTER PHASE-D WUAEN", aliases: &[] },
        Codepoint { codepoint: 0x168FC, name: "BAMUM LETTER PHASE-D NGKUN", aliases: &[] },
        Codepoint { codepoint: 0x168FD, name: "BAMUM LETTER PHASE-D SHEE", aliases: &[] },
        Codepoint { codepoint: 0x168FE, name: "BAMUM LETTER PHASE-D NGKAP", aliases: &[] },
        Codepoint { codepoint: 0x168FF, name: "BAMUM LETTER PHASE-D KEUAETMEUN", aliases: &[] },
        Codepoint { codepoint: 0x16900, name: "BAMUM LETTER PHASE-D TEUT", aliases: &[] },
        Codepoint { codepoint: 0x16901, name: "BAMUM LETTER PHASE-D SHEUAE", aliases: &[] },
        Codepoint { codepoint: 0x16902, name: "BAMUM LETTER PHASE-D NJAP", aliases: &[] },
        Codepoint { codepoint: 0x16903, name: "BAMUM LETTER PHASE-D SUE", aliases: &[] },
        Codepoint { codepoint: 0x16904, name: "BAMUM LETTER PHASE-D KET", aliases: &[] },
        Codepoint { codepoint: 0x16905, name: "BAMUM LETTER PHASE-D YAEMMAE", aliases: &[] },
        Codepoint { codepoint: 0x16906, name: "BAMUM LETTER PHASE-D KUOM", aliases: &[] },
        Codepoint { codepoint: 0x16907, name: "BAMUM LETTER PHASE-D SAP", aliases: &[] },
        Codepoint { codepoint: 0x16908, name: "BAMUM LETTER PHASE-D MFEUT", aliases: &[] },
        Codepoint { codepoint: 0x16909, name: "BAMUM LETTER PHASE-D NDEUX", aliases: &[] },
        Codepoint { codepoint: 0x1690A, name: "BAMUM LETTER PHASE-D MALEERI", aliases: &[] },
        Codepoint { codepoint: 0x1690B, name: "BAMUM LETTER PHASE-D MEUT", aliases: &[] },
        Codepoint { codepoint: 0x1690C, name: "BAMUM LETTER PHASE-D SEUAEQ", aliases: &[] },
        Codepoint { codepoint: 0x1690D, name: "BAMUM LETTER PHASE-D YEN", aliases: &[] },
        Codepoint { codepoint: 0x1690E, name: "BAMUM LETTER PHASE-D NJEUAEM", aliases: &[] },
        Codepoint { codepoint: 0x1690F, name: "BAMUM LETTER PHASE-D KEUOT MBUAE", aliases: &[] },
        Codepoint { codepoint: 0x16910, name: "BAMUM LETTER PHASE-D NGKEURI", aliases: &[] },
        Codepoint { codepoint: 0x16911, name: "BAMUM LETTER PHASE-D TU", aliases: &[] },
        Codepoint { codepoint: 0x16912, name: "BAMUM LETTER PHASE-D GHAA", aliases: &[] },
        Codepoint { codepoint: 0x16913, name: "BAMUM LETTER PHASE-D NGKYEE", aliases: &[] },
        Codepoint { codepoint: 0x16914, name: "BAMUM LETTER PHASE-D FEUFEUAET", aliases: &[] },
        Codepoint { codepoint: 0x16915, name: "BAMUM LETTER PHASE-D NDEE", aliases: &[] },
        Codepoint { codepoint: 0x16916, name: "BAMUM LETTER PHASE-D MGBOFUM", aliases: &[] },
        Codepoint { codepoint: 0x16917, name: "BAMUM LETTER PHASE-D LEUAEP", aliases: &[] },
        Codepoint { codepoint: 0x16918, name: "BAMUM LETTER PHASE-D NDON", aliases: &[] },
        Codepoint { codepoint: 0x16919, name: "BAMUM LETTER PHASE-D MONI", aliases: &[] },
        Codepoint { codepoint: 0x1691A, name: "BAMUM LETTER PHASE-D MGBEUN", aliases: &[] },
        Codepoint { codepoint: 0x1691B, name: "BAMUM LETTER PHASE-D PUUT", aliases: &[] },
        Codepoint { codepoint: 0x1691C, name: "BAMUM LETTER PHASE-D MGBIEE", aliases: &[] },
        Codepoint { codepoint: 0x1691D, name: "BAMUM LETTER PHASE-D MFO", aliases: &[] },
    ];
    assert(v@ =~= codepoint_table_622());
    v
}

pub open spec fn codepoint_table_623() -> Seq<Codepoint> {
    seq![
        Codepoint { codepoint: 0x1691E, name: "BAMUM LETTER PHASE-D LUM", aliases: &[] },
        Codepoint { codepoint: 0x1691F, name: "BAMUM LETTER PHASE-D NSIEEP", aliases: &[] },
        Codepoint { codepoint: 0x16920, name: "BAMUM LETTER PHASE-D MBAA", aliases: &[] },
        Codepoint { codepoint: 0x16921, name: "BAMUM LETTER PHASE-D KWAET", aliases: &[] },
        Codepoint { codepoint: 0x16922, name: "BAMUM LETTER PHASE-D NYET", aliases: &[] },
        Codepoint { codepoint: 0x16923, name: "BAMUM LETTER PHASE-D TEUAEN", aliases: &[] },
        Codepoint { codepoint: 0x16924, name: "BAMUM LETTER PHASE-D SOT", aliases: &[] },
        Codepoint { codepoint: 0x16925, name: "BAMUM LETTER PHASE-D YUWOQ", aliases: &[] },
        Codepoint { codepoint: 0x16926, name: "BAMUM LETTER PHASE-D KEUM", aliases: &[] },
        Codepoint { codepoint: 0x16927, name: "BAMUM LETTER PHASE-D RAEM", aliases: &[] },
        Codepoint { codepoint: 0x16928, name: "BAMUM LETTER PHASE-D TEEEE", aliases: &[] },
        Codepoint { codepoint: 0x16929, name: "BAMUM LETTER PHASE-D NGKEUAEQ", aliases: &[] },
        Codepoint { codepoint: 0x1692A, name: "BAMUM LETTER PHASE-D MFEUAE", aliases: &[] },
        Codepoint { codepoint: 0x1692B, name: "BAMUM LETTER PHASE-D NSIEET", aliases: &[] },
        Codepoint { codepoint: 0x1692C, name: "BAMUM LETTER PHASE-D KEUP", aliases: &[] },
        Codepoint { codepoint: 0x1692D, name: "BAMUM LETTER PHASE-D PIP", aliases: &[] },
        Codepoint { codepoint: 0x1692E, name: "BAMUM LETTER PHASE-D PEUTAE", aliases: &[] },
        Codepoint { codepoint: 0x1692F, name: "BAMUM LETTER PHASE-D NYUE", aliases: &[] },
        Codepoint { codepoint: 0x16930, name: "BAMUM LETTER PHASE-D LET", aliases: &[] },
        Codepoint { codepoint: 0x16931, name: "BAMUM LETTER PHASE-D NGGAAM", aliases: &[] },
        Codepoint { codepoint: 0x16932, name: "BAMUM LETTER PHASE-D MFIEE", aliases: &[] },
        Codepoint { codepoint: 0x16933, name: "BAMUM LETTER PHASE-D NGGWAEN", aliases: &[] },
        Codepoint { codepoint: 0x16934, name: "BAMUM LETTER PHASE-D YUOM", aliases: &[] },
        Codepoint { codepoint: 0x16935, name: "BAMUM LETTER PHASE-D PAP", aliases: &[] },
        Codepoint { codepoint: 0x16936, name: "BAMUM LETTER PHASE-D YUOP", aliases: &[] },
        Codepoint { codepoint: 0x16937, name: "BAMUM LETTER PHASE-D NDAM", aliases: &[] },
        Codepoint { codepoint: 0x16938, name: "BAMUM LETTER PHASE-D NTEUM", aliases: &[] },
        Codepoint { codepoint: 0x16939, name: "BAMUM LETTER PHASE-D SUAE", aliases: &[] },
        Codepoint { codepoint: 0x1693A, name: "BAMUM LETTER PHASE-D KUN", aliases: &[] },
        Codepoint { codepoint: 0x1693B, name: "BAMUM LETTER PHASE-D NGGEUX", aliases: &[] },
        Codepoint { codepoint: 0x1693C, name: "BAMUM LETTER PHASE-D NGKIEE", aliases: &[] },
        Codepoint { codepoint: 0x1693D, name: "BAMUM LETTER PHASE-D TUOT", aliases: &[] },
        Codepoint { codepoint: 0x1693E, name: "BAMUM LETTER PHASE-D MEUN", aliases: &[] },
        Codepoint { codepoint: 0x1693F, name: "BAMUM LETTER PHASE-D KUQ", aliases: &[] },
        Codepoint { codepoint: 0x16940, name: "BAMUM LETTER PHASE-D NSUM", aliases: &[] },
        Codepoint { codepoint: 0x16941, name: "BAMUM LETTER PHASE-D TEUN", aliases: &[] },
        Codepoint { codepoint: 0x16942, name: "BAMUM LETTER PHASE-D MAENJET", aliases: &[] },
        Codepoint { codepoint: 0x16943, name: "BAMUM LETTER PHASE-D NGGAP", aliases: &[] },
        Codepoint { codepoint: 0x16944, name: "BAMUM LETTER PHASE-D LEUM", aliases: &[] },
        Codepoint { codepoint: 0x16945, name: "BAMUM LETTER PHASE-D NGGUOM", aliases: &[] },
    ]
}

fn all_codepoints_623() -> (v: Vec<Codepoint>)
    ensures
        v@ == codepoint_table_623(),
{
    let v = vec![
        Codepoint { codepoint: 0x1691E, name: "BAMUM LETTER PHASE-D LUM", aliases: &[] },
        Codepoint { codepoint: 0x1691F, name: "BAMUM LETTER PHASE-D NSIEEP", aliases: &[] },
        Codepoint { codepoint: 0x16920, name: "BAMUM LETTER PHASE-D MBAA", aliases: &[] },
        Codepoint { codepoint: 0x16921, name: "BAMUM LETTER PHASE-D KWAET", aliases: &[] },
        Codepoint { codepoint: 0x16922, name: "BAMUM LETTER PHASE-D NYET", aliases: &[] },
        Codepoint { codepoint: 0x16923, name: "BAMUM LETTER PHASE-D TEUAEN", aliases: &[] },
        Codepoint { codepoint: 0x16924, name: "BAMUM LETTER PHASE-D SOT", aliases: &[] },
        Codepoint { codepoint: 0x16925, name: "BAMUM LETTER PHASE-D YUWOQ", aliases: &[] },
        Codepoint { codepoint: 0x16926, name: "BAMUM LETTER PHASE-D KEUM", aliases: &[] },
        Codepoint { codepoint: 0x16927, name: "BAMUM LETTER PHASE-D RAEM", aliases: &[] },
        Codepoint { codepoint: 0x16928, name: "BAMUM LETTER PHASE-D TEEEE", aliases: &[] },
        Codepoint { codepoint: 0x16929, name: "BAMUM LETTER PHASE-D NGKEUAEQ", aliases: &[] },
        Codepoint { codepoint: 0x1692A, name: "BAMUM LETTER PHASE-D MFEUAE", aliases: &[] },
        Codepoint { codepoint: 0x1692B, name: "BAMUM LETTER PHASE-D NSIEET", aliases: &[] },
        Codepoint { codepoint: 0x1692C, name: "BAMUM LETTER PHASE-D KEUP", aliases: &[] },
        Codepoint { codepoint: 0x1692D, name: "BAMUM LETTER PHASE-D PIP", aliases: &[] },
        Codepoint { codepoint: 0x1692E, name: "BAMUM LETTER PHASE-D PEUTAE", aliases: &[] },
        Codepoint { codepoint: 0x1692F, name: "BAMUM LETTER PHASE-D NYUE", aliases: &[] },
        Codepoint { codepoint: 0x16930, name: "BAMUM LETTER PHASE-D LET", aliases: &[] },
        Codepoint { codepoint: 0x16931, name: "BAMUM LETTER PHASE-D NGGAAM", aliases: &[] },
        Codepoint { codepoint: 0x16932, name: "BAMUM LETTER PHASE-D MFIEE", aliases: &[] },
        Codepoint { codepoint: 0x16933, name: "BAMUM LETTER PHASE-D NGGWAEN", aliases: &[] },
        Codepoint { codepoint: 0x16934, name: "BAMUM LETTER PHASE-D YUOM", aliases: &[] },
        Codepoint { codepoint: 0x16935, name: "BAMUM LETTER PHASE-D PAP", aliases: &[] },
        Codepoint { codepoint: 0x16936, name: "BAMUM LETTER PHASE-D YUOP", aliases: &[] },
        Codepoint { codepoint: 0x16937, name: "BAMUM LETTER PHASE-D NDAM", aliases: &[] },
        Codepoint { codepoint: 0x16938, name: "BAMUM LETTER PHASE-D NTEUM", aliases: &[] },
        Codepoint { codepoint: 0x16939, name: "BAMUM LETTER PHASE-D SUAE", aliases: &[] },
        Codepoint { codepoint: 0x1693A, name: "BAMUM LETTER PHASE-D KUN", aliases: &[] },
        Codepoint { codepoint: 0x1693B, name: "BAMUM LETTER PHASE-D NGGEUX", aliases: &[] },
        Codepoint { codepoint: 0x1693C, name: "BAMUM LETTER PHASE-D NGKIEE", aliases: &[] },
        Codepoint { codepoint: 0x1693D, name: "BAMUM LETTER PHASE-D TUOT", aliases: &[] },
        Codepoint { codepoint: 0x1693E, name: "BAMUM LETTER PHASE-D MEUN", aliases: &[] },
        Codepoint { codepoint: 0x1693F, name: "BAMUM LETTER PHASE-D KUQ", aliases: &[] },
        Codepoint { codepoint: 0x16940, name: "BAMUM LETTER PHASE-D NSUM", aliases: &[] },
        Codepoint { codepoint: 0x16941, name: "BAMUM LETTER PHASE-D TEUN", aliases: &[] },
        Codepoint { codepoint: 0x16942, name: "BAMUM LETTER PHASE-D MAENJET", aliases: &[] },
        Codepoint { codepoint: 0x16943, name: "BAMUM LETTER PHASE-D NGGAP", aliases: &[] },
        Codepoint { codepoint: 0x16944, name: "BAMUM LETTER PHASE-D LEUM", aliases: &[] },
        Codepoint { codepoint: 0x16945, name: "BAMUM LETTER PHASE-D NGGUOM", aliases: &[] },
    ];
    assert(v@ =~= codepoint_table_623());
    v
}

pub open spec fn codepoint_table_624() -> Seq<Codepoint> {
    seq![
        Codepoint { codepoint: 0x16946, name: "BAMUM LETTER PHASE-D NSHUT", aliases: &[] },
        Codepoint { codepoint: 0x16947, name: "BAMUM LETTER PHASE-D NJUEQ", aliases: &[] },
        Codepoint { codepoint: 0x16948, name: "BAMUM LETTER PHASE-D GHEUAE", aliases: &[] },
        Codepoint { codepoint: 0x16949, name: "BAMUM LETTER PHASE-D KU", aliases: &[] },
        Codepoint { codepoint: 0x1694A, name: "BAMUM LETTER PHASE-D REN OLD", aliases: &[] },
        Codepoint { codepoint: 0x1694B, name: "BAMUM LETTER PHASE-D TAE", aliases: &[] },
        Codepoint { codepoint: 0x1694C, name: "BAMUM LETTER PHASE-D TOQ", aliases: &[] },
        Codepoint { codepoint: 0x1694D, name: "BAMUM LETTER PHASE-D NYI", aliases: &[] },
        Codepoint { codepoint: 0x1694E, name: "BAMUM LETTER PHASE-D RII", aliases: &[] },
        Codepoint { codepoint: 0x1694F, name: "BAMUM LETTER PHASE-D LEEEE", aliases: &[] },
        Codepoint { codepoint: 0x16950, name: "BAMUM LETTER PHASE-D MEEEE", aliases: &[] },
        Codepoint { codepoint: 0x16951, name: "BAMUM LETTER PHASE-D M", aliases: &[] },
        Codepoint { codepoint: 0x16952, name: "BAMUM LETTER PHASE-D SUU", aliases: &[] },
        Codepoint { codepoint: 0x16953, name: "BAMUM LETTER PHASE-D MU", aliases: &[] },
        Codepoint { codepoint: 0x16954, name: "BAMUM LETTER PHASE-D SHII", aliases: &[] },
        Codepoint { codepoint: 0x16955, name: "BAMUM LETTER PHASE-D SHEUX", aliases: &[] },
        Codepoint { codepoint: 0x16956, name: "BAMUM LETTER PHASE-D KYEE", aliases: &[] },
        Codepoint { codepoint: 0x16957, name: "BAMUM LETTER PHASE-D NU", aliases: &[] },
        Codepoint { codepoint: 0x16958, name: "BAMUM LETTER PHASE-D SHU", aliases: &[] },
        Codepoint { codepoint: 0x16959, name: "BAMUM LETTER PHASE-D NTEE", aliases: &[] },
        Codepoint { codepoint: 0x1695A, name: "BAMUM LETTER PHASE-D PEE", aliases: &[] },
        Codepoint { codepoint: 0x1695B, name: "BAMUM LETTER PHASE-D NI", aliases: &[] },
        Codepoint { codepoint: 0x1695C, name: "BAMUM LETTER PHASE-D SHOQ", aliases: &[] },
        Codepoint { codepoint: 0x1695D, name: "BAMUM LETTER PHASE-D PUQ", aliases: &[] },
        Codepoint { codepoint: 0x1695E, name: "BAMUM LETTER PHASE-D MVOP", aliases: &[] },
        Codepoint { codepoint: 0x1695F, name: "BAMUM LETTER PHASE-D LOQ", aliases: &[] },
        Codepoint { codepoint: 0x16960, name: "BAMUM LETTER PHASE-D REN MUCH", aliases: &[] },
        Codepoint { codepoint: 0x16961, name: "BAMUM LETTER PHASE-D TI", aliases: &[] },
        Codepoint { codepoint: 0x16962, name: "BAMUM LETTER PHASE-D NTUU", aliases: &[] },
        Codepoint { codepoint: 0x16963, name: "BAMUM LETTER PHASE-D MBAA SEVEN", aliases: &[] },
        Codepoint { codepoint: 0x16964, name: "BAMUM LETTER PHASE-D SAQ", aliases: &[] },
        Codepoint { codepoint: 0x16965, name: "BAMUM LETTER PHASE-D FAA", aliases: &[] },
        Codepoint { codepoint: 0x16966, name: "BAMUM LETTER PHASE-E NDAP", aliases: &[] },
        Codepoint { codepoint: 0x16967, name: "BAMUM LETTER PHASE-E TOON", aliases: &[] },
        Codepoint { codepoint: 0x16968, name: "BAMUM LETTER PHASE-E MBEUM", aliases: &[] },
        Codepoint { codepoint: 0x16969, name: "BAMUM LETTER PHASE-E LAP", aliases: &[] },
        Codepoint { codepoint: 0x1696A, name: "BAMUM LETTER PHASE-E VOM", aliases: &[] },
        Codepoint { codepoint: 0x1696B, name: "BAMUM LETTER PHASE-E LOON", aliases: &[] },
        Codepoint { codepoint: 0x1696C, name: "BAMUM LETTER PHASE-E PAA", aliases: &[] },
        Codepoint { codepoint: 0x1696D, name: "BAMUM LETTER PHASE-E SOM", aliases: &[] },
    ]
}

fn all_codepoints_624() -> (v: Vec<Codepoint>)
    ensures
        v@ == codepoint_table_624(),
{
    let v = vec![
        Codepoint { codepoint: 0x16946, name: "BAMUM LETTER PHASE-D NSHUT", aliases: &[] },
        Codepoint { codepoint: 0x16947, name: "BAMUM LETTER PHASE-D NJUEQ", aliases: &[] },
        Codepoint { codepoint: 0x16948, name: "BAMUM LETTER PHASE-D GHEUAE", aliases: &[] },
        Codepoint { codepoint: 0x16949, name: "BAMUM LETTER PHASE-D KU", aliases: &[] },
        Codepoint { codepoint: 0x1694A, name: "BAMUM LETTER PHASE-D REN OLD", aliases: &[] },
        Codepoint { codepoint: 0x1694B, name: "BAMUM LETTER PHASE-D TAE", aliases: &[] },
        Codepoint { codepoint: 0x1694C, name: "BAMUM LETTER PHASE-D TOQ", aliases: &[] },
        Codepoint { codepoint: 0x1694D, name: "BAMUM LETTER PHASE-D NYI", aliases: &[] },
        Codepoint { codepoint: 0x1694E, name: "BAMUM LETTER PHASE-D RII", aliases: &[] },
        Codepoint { codepoint: 0x1694F, name: "BAMUM LETTER PHASE-D LEEEE", aliases: &[] },
        Codepoint { codepoint: 0x16950, name: "BAMUM LETTER PHASE-D MEEEE", aliases: &[] },
        Codepoint { codepoint: 0x16951, name: "BAMUM LETTER PHASE-D M", aliases: &[] },
        Codepoint { codepoint: 0x16952, name: "BAMUM LETTER PHASE-D SUU", aliases: &[] },
        Codepoint { codepoint: 0x16953, name: "BAMUM LETTER PHASE-D MU", aliases: &[] },
        Codepoint { codepoint: 0x16954, name: "BAMUM LETTER PHASE-D SHII", aliases: &[] },
        Codepoint { codepoint: 0x16955, name: "BAMUM LETTER PHASE-D SHEUX", aliases: &[] },
        Codepoint { codepoint: 0x16956, name: "BAMUM LETTER PHASE-D KYEE", aliases: &[] },
        Codepoint { codepoint: 0x16957, name: "BAMUM LETTER PHASE-D NU", aliases: &[] },
        Codepoint { codepoint: 0x16958, name: "BAMUM LETTER PHASE-D SHU", aliases: &[] },
        Codepoint { codepoint: 0x16959, name: "BAMUM LETTER PHASE-D NTEE", aliases: &[] },
        Codepoint { codepoint: 0x1695A, name: "BAMUM LETTER PHASE-D PEE", aliases: &[] },
        Codepoint { codepoint: 0x1695B, name: "BAMUM LETTER PHASE-D NI", aliases: &[] },
        Codepoint { codepoint: 0x1695C, name: "BAMUM LETTER PHASE-D SHOQ", aliases: &[] },
        Codepoint { codepoint: 0x1695D, name: "BAMUM LETTER PHASE-D PUQ", aliases: &[] },
        Codepoint { codepoint: 0x1695E, name: "BAMUM LETTER PHASE-D MVOP", aliases: &[] },
        Codepoint { codepoint: 0x1695F, name: "BAMUM LETTER PHASE-D LOQ", aliases: &[] },
        Codepoint { codepoint: 0x16960, name: "BAMUM LETTER PHASE-D REN MUCH", aliases: &[] },
        Codepoint { codepoint: 0x16961, name: "BAMUM LETTER PHASE-D TI", aliases: &[] },
        Codepoint { codepoint: 0x16962, name: "BAMUM LETTER PHASE-D NTUU", aliases: &[] },
        Codepoint { codepoint: 0x16963, name: "BAMUM LETTER PHASE-D MBAA SEVEN", aliases: &[] },
        Codepoint { codepoint: 0x16964, name: "BAMUM LETTER PHASE-D SAQ", aliases: &[] },
        Codepoint { codepoint: 0x16965, name: "BAMUM LETTER PHASE-D FAA", aliases: &[] },
        Codepoint { codepoint: 0x16966, name: "BAMUM LETTER PHASE-E NDAP", aliases: &[] },
        Codepoint { codepoint: 0x16967, name: "BAMUM LETTER PHASE-E TOON", aliases: &[] },
        Codepoint { codepoint: 0x16968, name: "BAMUM LETTER PHASE-E MBEUM", aliases: &[] },
        Codepoint { codepoint: 0x16969, name: "BAMUM LETTER PHASE-E LAP", aliases: &[] },
        Codepoint { codepoint: 0x1696A, name: "BAMUM LETTER PHASE-E VOM", aliases: &[] },
        Codepoint { codepoint: 0x1696B, name: "BAMUM LETTER PHASE-E LOON", aliases: &[] },
        Codepoint { codepoint: 0x1696C, name: "BAMUM LETTER PHASE-E PAA", aliases: &[] },
        Codepoint { codepoint: 0x1696D, name: "BAMUM LETTER PHASE-E SOM", aliases: &[] },
    ];
    assert(v@ =~= codepoint_table_624());
    v
}

pub open spec fn codepoint_table_625() -> Seq<Codepoint> {
    seq![
        Codepoint { codepoint: 0x1696E, name: "BAMUM LETTER PHASE-E RAQ", aliases: &[] },
        Codepoint { codepoint: 0x1696F, name: "BAMUM LETTER PHASE-E NSHUOP", aliases: &[] },
        Codepoint { codepoint: 0x16970, name: "BAMUM LETTER PHASE-E NDUN", aliases: &[] },
        Codepoint { codepoint: 0x16971, name: "BAMUM LETTER PHASE-E PUAE", aliases: &[] },
        Codepoint { codepoint: 0x16972, name: "BAMUM LETTER PHASE-E TAM", aliases: &[] },
        Codepoint { codepoint: 0x16973, name: "BAMUM LETTER PHASE-E NGKA", aliases: &[] },
        Codepoint { codepoint: 0x16974, name: "BAMUM LETTER PHASE-E KPEUX", aliases: &[] },
        Codepoint { codepoint: 0x16975, name: "BAMUM LETTER PHASE-E WUO", aliases: &[] },
        Codepoint { codepoint: 0x16976, name: "BAMUM LETTER PHASE-E SEE", aliases: &[] },
        Codepoint { codepoint: 0x16977, name: "BAMUM LETTER PHASE-E NGGEUAET", aliases: &[] },
        Codepoint { codepoint: 0x16978, name: "BAMUM LETTER PHASE-E PAAM", aliases: &[] },
        Codepoint { codepoint: 0x16979, name: "BAMUM LETTER PHASE-E TOO", aliases: &[] },
        Codepoint { codepoint: 0x1697A, name: "BAMUM LETTER PHASE-E KUOP", aliases: &[] },
        Codepoint { codepoint: 0x1697B, name: "BAMUM LETTER PHASE-E LOM", aliases: &[] },
        Codepoint { codepoint: 0x1697C, name: "BAMUM LETTER PHASE-E NSHIEE", aliases: &[] },
        Codepoint { codepoint: 0x1697D, name: "BAMUM LETTER PHASE-E NGOP", aliases: &[] },
        Codepoint { codepoint: 0x1697E, name: "BAMUM LETTER PHASE-E MAEM", aliases: &[] },
        Codepoint { codepoint: 0x1697F, name: "BAMUM LETTER PHASE-E NGKEUX", aliases: &[] },
        Codepoint { codepoint: 0x16980, name: "BAMUM LETTER PHASE-E NGOQ", aliases: &[] },
        Codepoint { codepoint: 0x16981, name: "BAMUM LETTER PHASE-E NSHUE", aliases: &[] },
        Codepoint { codepoint: 0x16982, name: "BAMUM LETTER PHASE-E RIMGBA", aliases: &[] },
        Codepoint { codepoint: 0x16983, name: "BAMUM LETTER PHASE-E NJEUX", aliases: &[] },
        Codepoint { codepoint: 0x16984, name: "BAMUM LETTER PHASE-E PEEM", aliases: &[] },
        Codepoint { codepoint: 0x16985, name: "BAMUM LETTER PHASE-E SAA", aliases: &[] },
        Codepoint { codepoint: 0x16986, name: "BAMUM LETTER PHASE-E NGGURAE", aliases: &[] },
        Codepoint { codepoint: 0x16987, name: "BAMUM LETTER PHASE-E MGBA", aliases: &[] },
        Codepoint { codepoint: 0x16988, name: "BAMUM LETTER PHASE-E GHEUX", aliases: &[] },
        Codepoint { codepoint: 0x16989, name: "BAMUM LETTER PHASE-E NGKEUAEM", aliases: &[] },
        Codepoint { codepoint: 0x1698A, name: "BAMUM LETTER PHASE-E NJAEMLI", aliases: &[] },
        Codepoint { codepoint: 0x1698B, name: "BAMUM LETTER PHASE-E MAP", aliases: &[] },
        Codepoint { codepoint: 0x1698C, name: "BAMUM LETTER PHASE-E LOOT", aliases: &[] },
        Codepoint { codepoint: 0x1698D, name: "BAMUM LETTER PHASE-E NGGEEEE", aliases: &[] },
        Codepoint { codepoint: 0x1698E, name: "BAMUM LETTER PHASE-E NDIQ", aliases: &[] },
        Codepoint { codepoint: 0x1698F, name: "BAMUM LETTER PHASE-E TAEN NTEUM", aliases: &[] },
        Codepoint { codepoint: 0x16990, name: "BAMUM LETTER PHASE-E SET", aliases: &[] },
        Codepoint { codepoint: 0x16991, name: "BAMUM LETTER PHASE-E PUM", aliases: &[] },
        Codepoint { codepoint: 0x16992, name: "BAMUM LETTER PHASE-E NDAA SOFTNESS", aliases: &[] },
        Codepoint { codepoint: 0x16993, name: "BAMUM LETTER PHASE-E NGGUAESHAE NYAM", aliases: &[] },
        Codepoint { codepoint: 0x16994, name: "BAMUM LETTER PHASE-E YIEE", aliases: &[] },
        Codepoint { codepoint: 0x16995, name: "BAMUM LETTER PHASE-E GHEUN", aliases: &[] },
    ]
}

fn all_codepoints_625() -> (v: Vec<Codepoint>)
    ensures
        v@ == codepoint_table_625(),
{
    let v = vec![
        Codepoint { codepoint: 0x1696E, name: "BAMUM LETTER PHASE-E RAQ", aliases: &[] },
        Codepoint { codepoint: 0x1696F, name: "BAMUM LETTER PHASE-E NSHUOP", aliases: &[] },
        Codepoint { codepoint: 0x16970, name: "BAMUM LETTER PHASE-E NDUN", aliases: &[] },
        Codepoint { codepoint: 0x16971, name: "BAMUM LETTER PHASE-E PUAE", aliases: &[] },
        Codepoint { codepoint: 0x16972, name: "BAMUM LETTER PHASE-E TAM", aliases: &[] },
        Codepoint { codepoint: 0x16973, name: "BAMUM LETTER PHASE-E NGKA", aliases: &[] },
        Codepoint { codepoint: 0x16974, name: "BAMUM LETTER PHASE-E KPEUX", aliases: &[] },
        Codepoint { codepoint: 0x16975, name: "BAMUM LETTER PHASE-E WUO", aliases: &[] },
        Codepoint { codepoint: 0x16976, name: "BAMUM LETTER PHASE-E SEE", aliases: &[] },
        Codepoint { codepoint: 0x16977, name: "BAMUM LETTER PHASE-E NGGEUAET", aliases: &[] },
        Codepoint { codepoint: 0x16978, name: "BAMUM LETTER PHASE-E PAAM", aliases: &[] },
        Codepoint { codepoint: 0x16979, name: "BAMUM LETTER PHASE-E TOO", aliases: &[] },
        Codepoint { codepoint: 0x1697A, name: "BAMUM LETTER PHASE-E KUOP", aliases: &[] },
        Codepoint { codepoint: 0x1697B, name: "BAMUM LETTER PHASE-E LOM", aliases: &[] },
        Codepoint { codepoint: 0x1697C, name: "BAMUM LETTER PHASE-E NSHIEE", aliases: &[] },
        Codepoint { codepoint: 0x1697D, name: "BAMUM LETTER PHASE-E NGOP", aliases: &[] },
        Codepoint { codepoint: 0x1697E, name: "BAMUM LETTER PHASE-E MAEM", aliases: &[] },
        Codepoint { codepoint: 0x1697F, name: "BAMUM LETTER PHASE-E NGKEUX", aliases: &[] },
        Codepoint { codepoint: 0x16980, name: "BAMUM LETTER PHASE-E NGOQ", aliases: &[] },
        Codepoint { codepoint: 0x16981, name: "BAMUM LETTER PHASE-E NSHUE", aliases: &[] },
        Codepoint { codepoint: 0x16982, name: "BAMUM LETTER PHASE-E RIMGBA", aliases: &[] },
        Codepoint { codepoint: 0x16983, name: "BAMUM LETTER PHASE-E NJEUX", aliases: &[] },
        Codepoint { codepoint: 0x16984, name: "BAMUM LETTER PHASE-E PEEM", aliases: &[] },
        Codepoint { codepoint: 0x16985, name: "BAMUM LETTER PHASE-E SAA", aliases: &[] },
        Codepoint { codepoint: 0x16986, name: "BAMUM LETTER PHASE-E NGGURAE", aliases: &[] },
        Codepoint { codepoint: 0x16987, name: "BAMUM LETTER PHASE-E MGBA", aliases: &[] },
        Codepoint { codepoint: 0x16988, name: "BAMUM LETTER PHASE-E GHEUX", aliases: &[] },
        Codepoint { codepoint: 0x16989, name: "BAMUM LETTER PHASE-E NGKEUAEM", aliases: &[] },
        Codepoint { codepoint: 0x1698A, name: "BAMUM LETTER PHASE-E NJAEMLI", aliases: &[] },
        Codepoint { codepoint: 0x1698B, name: "BAMUM LETTER PHASE-E MAP", aliases: &[] },
        Codepoint { codepoint: 0x1698C, name: "BAMUM LETTER PHASE-E LOOT", aliases: &[] },
        Codepoint { codepoint: 0x1698D, name: "BAMUM LETTER PHASE-E NGGEEEE", aliases: &[] },
        Codepoint { codepoint: 0x1698E, name: "BAMUM LETTER PHASE-E NDIQ", aliases: &[] },
        Codepoint { codepoint: 0x1698F, name: "BAMUM LETTER PHASE-E TAEN NTEUM", aliases: &[] },
        Codepoint { codepoint: 0x16990, name: "BAMUM LETTER PHASE-E SET", aliases: &[] },
        Codepoint { codepoint: 0x16991, name: "BAMUM LETTER PHASE-E PUM", aliases: &[] },
        Codepoint { codepoint: 0x16992, name: "BAMUM LETTER PHASE-E NDAA SOFTNESS", aliases: &[] },
        Codepoint { codepoint: 0x16993, name: "BAMUM LETTER PHASE-E NGGUAESHAE NYAM", aliases: &[] },
        Codepoint { codepoint: 0x16994, name: "BAMUM LETTER PHASE-E YIEE", aliases: &[] },
        Codepoint { codepoint: 0x16995, name: "BAMUM LETTER PHASE-E GHEUN", aliases: &[] },
    ];
    assert(v@ =~= codepoint_table_625());
    v
}

pub open spec fn codepoint_table_626() -> Seq<Codepoint> {
    seq![
        Codepoint { codepoint: 0x16996, name: "BAMUM LETTER PHASE-E TUAE", aliases: &[] },
        Codepoint { codepoint: 0x16997, name: "BAMUM LETTER PHASE-E YEUAE", aliases: &[] },
        Codepoint { codepoint: 0x16998, name: "BAMUM LETTER PHASE-E PO", aliases: &[] },
        Codepoint { codepoint: 0x16999, name: "BAMUM LETTER PHASE-E TUMAE", aliases: &[] },
        Codepoint { codepoint: 0x1699A, name: "BAMUM LETTER PHASE-E KEUAE", aliases: &[] },
        Codepoint { codepoint: 0x1699B, name: "BAMUM LETTER PHASE-E SUAEN", aliases: &[] },
        Codepoint { codepoint: 0x1699C, name: "BAMUM LETTER PHASE-E TEUAEQ", aliases: &[] },
        Codepoint { codepoint: 0x1699D, name: "BAMUM LETTER PHASE-E VEUAE", aliases: &[] },
        Codepoint { codepoint: 0x1699E, name: "BAMUM LETTER PHASE-E WEUX", aliases: &[] },
        Codepoint { codepoint: 0x1699F, name: "BAMUM LETTER PHASE-E LAAM", aliases: &[] },
        Codepoint { codepoint: 0x169A0, name: "BAMUM LETTER PHASE-E PU", aliases: &[] },
        Codepoint { codepoint: 0x169A1, name: "BAMUM LETTER PHASE-E TAAQ", aliases: &[] },
        Codepoint { codepoint: 0x169A2, name: "BAMUM LETTER PHASE-E GHAAMAE", aliases: &[] },
        Codepoint { codepoint: 0x169A3, name: "BAMUM LETTER PHASE-E NGEUREUT", aliases: &[] },
        Codepoint { codepoint: 0x169A4, name: "BAMUM LETTER PHASE-E SHEUAEQ", aliases: &[] },
        Codepoint { codepoint: 0x169A5, name: "BAMUM LETTER PHASE-E MGBEN", aliases: &[] },
        Codepoint { codepoint: 0x169A6, name: "BAMUM LETTER PHASE-E MBEE", aliases: &[] },
        Codepoint { codepoint: 0x169A7, name: "BAMUM LETTER PHASE-E NZAQ", aliases: &[] },
        Codepoint { codepoint: 0x169A8, name: "BAMUM LETTER PHASE-E NKOM", aliases: &[] },
        Codepoint { codepoint: 0x169A9, name: "BAMUM LETTER PHASE-E GBET", aliases: &[] },
        Codepoint { codepoint: 0x169AA, name: "BAMUM LETTER PHASE-E TUM", aliases: &[] },
        Codepoint { codepoint: 0x169AB, name: "BAMUM LETTER PHASE-E KUET", aliases: &[] },
        Codepoint { codepoint: 0x169AC, name: "BAMUM LETTER PHASE-E YAP", aliases: &[] },
        Codepoint { codepoint: 0x169AD, name: "BAMUM LETTER PHASE-E NYI CLEAVER", aliases: &[] },
        Codepoint { codepoint: 0x169AE, name: "BAMUM LETTER PHASE-E YIT", aliases: &[] },
        Codepoint { codepoint: 0x169AF, name: "BAMUM LETTER PHASE-E MFEUQ", aliases: &[] },
        Codepoint { codepoint: 0x169B0, name: "BAMUM LETTER PHASE-E NDIAQ", aliases: &[] },
        Codepoint { codepoint: 0x169B1, name: "BAMUM LETTER PHASE-E PIEEQ", aliases: &[] },
        Codepoint { codepoint: 0x169B2, name: "BAMUM LETTER PHASE-E YUEQ", aliases: &[] },
        Codepoint { codepoint: 0x169B3, name: "BAMUM LETTER PHASE-E LEUAEM", aliases: &[] },
        Codepoint { codepoint: 0x169B4, name: "BAMUM LETTER PHASE-E FUE", aliases: &[] },
        Codepoint { codepoint: 0x169B5, name: "BAMUM LETTER PHASE-E GBEUX", aliases: &[] },
        Codepoint { codepoint: 0x169B6, name: "BAMUM LETTER PHASE-E NGKUP", aliases: &[] },
        Codepoint { codepoint: 0x169B7, name: "BAMUM LETTER PHASE-E KET", aliases: &[] },
        Codepoint { codepoint: 0x169B8, name: "BAMUM LETTER PHASE-E MAE", aliases: &[] },
        Codepoint { codepoint: 0x169B9, name: "BAMUM LETTER PHASE-E NGKAAMI", aliases: &[] },
        Codepoint { codepoint: 0x169BA, name: "BAMUM LETTER PHASE-E GHET", aliases: &[] },
        Codepoint { codepoint: 0x169BB, name: "BAMUM LETTER PHASE-E FA", aliases: &[] },
        Codepoint { codepoint: 0x169BC, name: "BAMUM LETTER PHASE-E NTUM", aliases: &[] },
        Codepoint { codepoint: 0x169BD, name: "BAMUM LETTER PHASE-E PEUT", aliases: &[] },
    ]
}

fn all_codepoints_626() -> (v: Vec<Codepoint>)
    ensures
        v@ == codepoint_table_626(),
{
    let v = vec![
        Codepoint { codepoint: 0x16996, name: "BAMUM LETTER PHASE-E TUAE", aliases: &[] },
        Codepoint { codepoint: 0x16997, name: "BAMUM LETTER PHASE-E YEUAE", aliases: &[] },
        Codepoint { codepoint: 0x16998, name: "BAMUM LETTER PHASE-E PO", aliases: &[] },
        Codepoint { codepoint: 0x16999, name: "BAMUM LETTER PHASE-E TUMAE", aliases: &[] },
        Codepoint { codepoint: 0x1699A, name: "BAMUM LETTER PHASE-E KEUAE", aliases: &[] },
        Codepoint { codepoint: 0x1699B, name: "BAMUM LETTER PHASE-E SUAEN", aliases: &[] },
        Codepoint { codepoint: 0x1699C, name: "BAMUM LETTER PHASE-E TEUAEQ", aliases: &[] },
        Codepoint { codepoint: 0x1699D, name: "BAMUM LETTER PHASE-E VEUAE", aliases: &[] },
        Codepoint { codepoint: 0x1699E, name: "BAMUM LETTER PHASE-E WEUX", aliases: &[] },
        Codepoint { codepoint: 0x1699F, name: "BAMUM LETTER PHASE-E LAAM", aliases: &[] },
        Codepoint { codepoint: 0x169A0, name: "BAMUM LETTER PHASE-E PU", aliases: &[] },
        Codepoint { codepoint: 0x169A1, name: "BAMUM LETTER PHASE-E TAAQ", aliases: &[] },
        Codepoint { codepoint: 0x169A2, name: "BAMUM LETTER PHASE-E GHAAMAE", aliases: &[] },
        Codepoint { codepoint: 0x169A3, name: "BAMUM LETTER PHASE-E NGEUREUT", aliases: &[] },
        Codepoint { codepoint: 0x169A4, name: "BAMUM LETTER PHASE-E SHEUAEQ", aliases: &[] },
        Codepoint { codepoint: 0x169A5, name: "BAMUM LETTER PHASE-E MGBEN", aliases: &[] },
        Codepoint { codepoint: 0x169A6, name: "BAMUM LETTER PHASE-E MBEE", aliases: &[] },
        Codepoint { codepoint: 0x169A7, name: "BAMUM LETTER PHASE-E NZAQ", aliases: &[] },
        Codepoint { codepoint: 0x169A8, name: "BAMUM LETTER PHASE-E NKOM", aliases: &[] },
        Codepoint { codepoint: 0x169A9, name: "BAMUM LETTER PHASE-E GBET", aliases: &[] },
        Codepoint { codepoint: 0x169AA, name: "BAMUM LETTER PHASE-E TUM", aliases: &[] },
        Codepoint { codepoint: 0x169AB, name: "BAMUM LETTER PHASE-E KUET", aliases: &[] },
        Codepoint { codepoint: 0x169AC, name: "BAMUM LETTER PHASE-E YAP", aliases: &[] },
        Codepoint { codepoint: 0x169AD, name: "BAMUM LETTER PHASE-E NYI CLEAVER", aliases: &[] },
        Codepoint { codepoint: 0x169AE, name: "BAMUM LETTER PHASE-E YIT", aliases: &[] },
        Codepoint { codepoint: 0x169AF, name: "BAMUM LETTER PHASE-E MFEUQ", aliases: &[] },
        Codepoint { codepoint: 0x169B0, name: "BAMUM LETTER PHASE-E NDIAQ", aliases: &[] },
        Codepoint { codepoint: 0x169B1, name: "BAMUM LETTER PHASE-E PIEEQ", aliases: &[] },
        Codepoint { codepoint: 0x169B2, name: "BAMUM LETTER PHASE-E YUEQ", aliases: &[] },
        Codepoint { codepoint: 0x169B3, name: "BAMUM LETTER PHASE-E LEUAEM", aliases: &[] },
        Codepoint { codepoint: 0x169B4, name: "BAMUM LETTER PHASE-E FUE", aliases: &[] },
        Codepoint { codepoint: 0x169B5, name: "BAMUM LETTER PHASE-E GBEUX", aliases: &[] },
        Codepoint { codepoint: 0x169B6, name: "BAMUM LETTER PHASE-E NGKUP", aliases: &[] },
        Codepoint { codepoint: 0x169B7, name: "BAMUM LETTER PHASE-E KET", aliases: &[] },
        Codepoint { codepoint: 0x169B8, name: "BAMUM LETTER PHASE-E MAE", aliases: &[] },
        Codepoint { codepoint: 0x169B9, name: "BAMUM LETTER PHASE-E NGKAAMI", aliases: &[] },
        Codepoint { codepoint: 0x169BA, name: "BAMUM LETTER PHASE-E GHET", aliases: &[] },
        Codepoint { codepoint: 0x169BB, name: "BAMUM LETTER PHASE-E FA", aliases: &[] },
        Codepoint { codepoint: 0x169BC, name: "BAMUM LETTER PHASE-E NTUM", aliases: &[] },
        Codepoint { codepoint: 0x169BD, name: "BAMUM LETTER PHASE-E PEUT", aliases: &[] },
    ];
    assert(v@ =~= codepoint_table_626());
    v
}

pub open spec fn codepoint_table_627() -> Seq<Codepoint> {
    seq![
        Codepoint { codepoint: 0x169BE, name: "BAMUM LETTER PHASE-E YEUM", aliases: &[] },
        Codepoint { codepoint: 0x169BF, name: "BAMUM LETTER PHASE-E NGGEUAE", aliases: &[] },
        Codepoint { codepoint: 0x169C0, name: "BAMUM LETTER PHASE-E NYI BETWEEN", aliases: &[] },
        Codepoint { codepoint: 0x169C1, name: "BAMUM LETTER PHASE-E NZUQ", aliases: &[] },
        Codepoint { codepoint: 0x169C2, name: "BAMUM LETTER PHASE-E POON", aliases: &[] },
        Codepoint { codepoint: 0x169C3, name: "BAMUM LETTER PHASE-E MIEE", aliases: &[] },
        Codepoint { codepoint: 0x169C4, name: "BAMUM LETTER PHASE-E FUET", aliases: &[] },
        Codepoint { codepoint: 0x169C5, name: "BAMUM LETTER PHASE-E NAE", aliases: &[] },
        Codepoint { codepoint: 0x169C6, name: "BAMUM LETTER PHASE-E MUAE", aliases: &[] },
        Codepoint { codepoint: 0x169C7, name: "BAMUM LETTER PHASE-E GHEUAE", aliases: &[] },
        Codepoint { codepoint: 0x169C8, name: "BAMUM LETTER PHASE-E FU I", aliases: &[] },
        Codepoint { codepoint: 0x169C9, name: "BAMUM LETTER PHASE-E MVI", aliases: &[] },
        Codepoint { codepoint: 0x169CA, name: "BAMUM LETTER PHASE-E PUAQ", aliases: &[] },
        Codepoint { codepoint: 0x169CB, name: "BAMUM LETTER PHASE-E NGKUM", aliases: &[] },
        Codepoint { codepoint: 0x169CC, name: "BAMUM LETTER PHASE-E KUT", aliases: &[] },
        Codepoint { codepoint: 0x169CD, name: "BAMUM LETTER PHASE-E PIET", aliases: &[] },
        Codepoint { codepoint: 0x169CE, name: "BAMUM LETTER PHASE-E NTAP", aliases: &[] },
        Codepoint { codepoint: 0x169CF, name: "BAMUM LETTER PHASE-E YEUAET", aliases: &[] },
        Codepoint { codepoint: 0x169D0, name: "BAMUM LETTER PHASE-E NGGUP", aliases: &[] },
        Codepoint { codepoint: 0x169D1, name: "BAMUM LETTER PHASE-E PA PEOPLE", aliases: &[] },
        Codepoint { codepoint: 0x169D2, name: "BAMUM LETTER PHASE-E FU CALL", aliases: &[] },
        Codepoint { codepoint: 0x169D3, name: "BAMUM LETTER PHASE-E FOM", aliases: &[] },
        Codepoint { codepoint: 0x169D4, name: "BAMUM LETTER PHASE-E NJEE", aliases: &[] },
        Codepoint { codepoint: 0x169D5, name: "BAMUM LETTER PHASE-E A", aliases: &[] },
        Codepoint { codepoint: 0x169D6, name: "BAMUM LETTER PHASE-E TOQ", aliases: &[] },
        Codepoint { codepoint: 0x169D7, name: "BAMUM LETTER PHASE-E O", aliases: &[] },
        Codepoint { codepoint: 0x169D8, name: "BAMUM LETTER PHASE-E I", aliases: &[] },
        Codepoint { codepoint: 0x169D9, name: "BAMUM LETTER PHASE-E LAQ", aliases: &[] },
        Codepoint { codepoint: 0x169DA, name: "BAMUM LETTER PHASE-E PA PLURAL", aliases: &[] },
        Codepoint { codepoint: 0x169DB, name: "BAMUM LETTER PHASE-E TAA", aliases: &[] },
        Codepoint { codepoint: 0x169DC, name: "BAMUM LETTER PHASE-E TAQ", aliases: &[] },
        Codepoint { codepoint: 0x169DD, name: "BAMUM LETTER PHASE-E NDAA MY HOUSE", aliases: &[] },
        Codepoint { codepoint: 0x169DE, name: "BAMUM LETTER PHASE-E SHIQ", aliases: &[] },
        Codepoint { codepoint: 0x169DF, name: "BAMUM LETTER PHASE-E YEUX", aliases: &[] },
        Codepoint { codepoint: 0x169E0, name: "BAMUM LETTER PHASE-E NGUAE", aliases: &[] },
        Codepoint { codepoint: 0x169E1, name: "BAMUM LETTER PHASE-E YUAEN", aliases: &[] },
        Codepoint { codepoint: 0x169E2, name: "BAMUM LETTER PHASE-E YOQ SWIMMING", aliases: &[] },
        Codepoint { codepoint: 0x169E3, name: "BAMUM LETTER PHASE-E YOQ COVER", aliases: &[] },
        Codepoint { codepoint: 0x169E4, name: "BAMUM LETTER PHASE-E YUQ", aliases: &[] },
        Codepoint { codepoint: 0x169E5, name: "BAMUM LETTER PHASE-E YUN", aliases: &[] },
    ]
}

fn all_codepoints_627() -> (v: Vec<Codepoint>)
    ensures
        v@ == codepoint_table_627(),
{
    let v = vec![
        Codepoint { codepoint: 0x169BE, name: "BAMUM LETTER PHASE-E YEUM", aliases: &[] },
        Codepoint { codepoint: 0x169BF, name: "BAMUM LETTER PHASE-E NGGEUAE", aliases: &[] },
        Codepoint { codepoint: 0x169C0, name: "BAMUM LETTER PHASE-E NYI BETWEEN", aliases: &[] },
        Codepoint { codepoint: 0x169C1, name: "BAMUM LETTER PHASE-E NZUQ", aliases: &[] },
        Codepoint { codepoint: 0x169C2, name: "BAMUM LETTER PHASE-E POON", aliases: &[] },
        Codepoint { codepoint: 0x169C3, name: "BAMUM LETTER PHASE-E MIEE", aliases: &[] },
        Codepoint { codepoint: 0x169C4, name: "BAMUM LETTER PHASE-E FUET", aliases: &[] },
        Codepoint { codepoint: 0x169C5, name: "BAMUM LETTER PHASE-E NAE", aliases: &[] },
        Codepoint { codepoint: 0x169C6, name: "BAMUM LETTER PHASE-E MUAE", aliases: &[] },
        Codepoint { codepoint: 0x169C7, name: "BAMUM LETTER PHASE-E GHEUAE", aliases: &[] },
        Codepoint { codepoint: 0x169C8, name: "BAMUM LETTER PHASE-E FU I", aliases: &[] },
        Codepoint { codepoint: 0x169C9, name: "BAMUM LETTER PHASE-E MVI", aliases: &[] },
        Codepoint { codepoint: 0x169CA, name: "BAMUM LETTER PHASE-E PUAQ", aliases: &[] },
        Codepoint { codepoint: 0x169CB, name: "BAMUM LETTER PHASE-E NGKUM", aliases: &[] },
        Codepoint { codepoint: 0x169CC, name: "BAMUM LETTER PHASE-E KUT", aliases: &[] },
        Codepoint { codepoint: 0x169CD, name: "BAMUM LETTER PHASE-E PIET", aliases: &[] },
        Codepoint { codepoint: 0x169CE, name: "BAMUM LETTER PHASE-E NTAP", aliases: &[] },
        Codepoint { codepoint: 0x169CF, name: "BAMUM LETTER PHASE-E YEUAET", aliases: &[] },
        Codepoint { codepoint: 0x169D0, name: "BAMUM LETTER PHASE-E NGGUP", aliases: &[] },
        Codepoint { codepoint: 0x169D1, name: "BAMUM LETTER PHASE-E PA PEOPLE", aliases: &[] },
        Codepoint { codepoint: 0x169D2, name: "BAMUM LETTER PHASE-E FU CALL", aliases: &[] },
        Codepoint { codepoint: 0x169D3, name: "BAMUM LETTER PHASE-E FOM", aliases: &[] },
        Codepoint { codepoint: 0x169D4, name: "BAMUM LETTER PHASE-E NJEE", aliases: &[] },
        Codepoint { codepoint: 0x169D5, name: "BAMUM LETTER PHASE-E A", aliases: &[] },
        Codepoint { codepoint: 0x169D6, name: "BAMUM LETTER PHASE-E TOQ", aliases: &[] },
        Codepoint { codepoint: 0x169D7, name: "BAMUM LETTER PHASE-E O", aliases: &[] },
        Codepoint { codepoint: 0x169D8, name: "BAMUM LETTER PHASE-E I", aliases: &[] },
        Codepoint { codepoint: 0x169D9, name: "BAMUM LETTER PHASE-E LAQ", aliases: &[] },
        Codepoint { codepoint: 0x169DA, name: "BAMUM LETTER PHASE-E PA PLURAL", aliases: &[] },
        Codepoint { codepoint: 0x169DB, name: "BAMUM LETTER PHASE-E TAA", aliases: &[] },
        Codepoint { codepoint: 0x169DC, name: "BAMUM LETTER PHASE-E TAQ", aliases: &[] },
        Codepoint { codepoint: 0x169DD, name: "BAMUM LETTER PHASE-E NDAA MY HOUSE", aliases: &[] },
        Codepoint { codepoint: 0x169DE, name: "BAMUM LETTER PHASE-E SHIQ", aliases: &[] },
        Codepoint { codepoint: 0x169DF, name: "BAMUM LETTER PHASE-E YEUX", aliases: &[] },
        Codepoint { codepoint: 0x169E0, name: "BAMUM LETTER PHASE-E NGUAE", aliases: &[] },
        Codepoint { codepoint: 0x169E1, name: "BAMUM LETTER PHASE-E YUAEN", aliases: &[] },
        Codepoint { codepoint: 0x169E2, name: "BAMUM LETTER PHASE-E YOQ SWIMMING", aliases: &[] },
        Codepoint { codepoint: 0x169E3, name: "BAMUM LETTER PHASE-E YOQ COVER", aliases: &[] },
        Codepoint { codepoint: 0x169E4, name: "BAMUM LETTER PHASE-E YUQ", aliases: &[] },
        Codepoint { codepoint: 0x169E5, name: "BAMUM LETTER PHASE-E YUN", aliases: &[] },
    ];
    assert(v@ =~= codepoint_table_627());
    v
}

pub open spec fn codepoint_table_628() -> Seq<Codepoint> {
    seq![
        Codepoint { codepoint: 0x169E6, name: "BAMUM LETTER PHASE-E KEUX", aliases: &[] },
        Codepoint { codepoint: 0x169E7, name: "BAMUM LETTER PHASE-E PEUX", aliases: &[] },
        Codepoint { codepoint: 0x169E8, name: "BAMUM LETTER PHASE-E NJEE EPOCH", aliases: &[] },
        Codepoint { codepoint: 0x169E9, name: "BAMUM LETTER PHASE-E PUE", aliases: &[] },
        Codepoint { codepoint: 0x169EA, name: "BAMUM LETTER PHASE-E WUE", aliases: &[] },
        Codepoint { codepoint: 0x169EB, name: "BAMUM LETTER PHASE-E FEE", aliases: &[] },
        Codepoint { codepoint: 0x169EC, name: "BAMUM LETTER PHASE-E VEE", aliases: &[] },
        Codepoint { codepoint: 0x169ED, name: "BAMUM LETTER PHASE-E LU", aliases: &[] },
        Codepoint { codepoint: 0x169EE, name: "BAMUM LETTER PHASE-E MI", aliases: &[] },
        Codepoint { codepoint: 0x169EF, name: "BAMUM LETTER PHASE-E REUX", aliases: &[] },
        Codepoint { codepoint: 0x169F0, name: "BAMUM LETTER PHASE-E RAE", aliases: &[] },
        Codepoint { codepoint: 0x169F1, name: "BAMUM LETTER PHASE-E NGUAET", aliases: &[] },
        Codepoint { codepoint: 0x169F2, name: "BAMUM LETTER PHASE-E NGA", aliases: &[] },
        Codepoint { codepoint: 0x169F3, name: "BAMUM LETTER PHASE-E SHO", aliases: &[] },
        Codepoint { codepoint: 0x169F4, name: "BAMUM LETTER PHASE-E SHOQ", aliases: &[] },
        Codepoint { codepoint: 0x169F5, name: "BAMUM LETTER PHASE-E FU REMEDY", aliases: &[] },
        Codepoint { codepoint: 0x169F6, name: "BAMUM LETTER PHASE-E NA", aliases: &[] },
        Codepoint { codepoint: 0x169F7, name: "BAMUM LETTER PHASE-E PI", aliases: &[] },
        Codepoint { codepoint: 0x169F8, name: "BAMUM LETTER PHASE-E LOQ", aliases: &[] },
        Codepoint { codepoint: 0x169F9, name: "BAMUM LETTER PHASE-E KO", aliases: &[] },
        Codepoint { codepoint: 0x169FA, name: "BAMUM LETTER PHASE-E MEN", aliases: &[] },
        Codepoint { codepoint: 0x169FB, name: "BAMUM LETTER PHASE-E MA", aliases: &[] },
        Codepoint { codepoint: 0x169FC, name: "BAMUM LETTER PHASE-E MAQ", aliases: &[] },
        Codepoint { codepoint: 0x169FD, name: "BAMUM LETTER PHASE-E TEU", aliases: &[] },
        Codepoint { codepoint: 0x169FE, name: "BAMUM LETTER PHASE-E KI", aliases: &[] },
        Codepoint { codepoint: 0x169FF, name: "BAMUM LETTER PHASE-E MON", aliases: &[] },
        Codepoint { codepoint: 0x16A00, name: "BAMUM LETTER PHASE-E TEN", aliases: &[] },
        Codepoint { codepoint: 0x16A01, name: "BAMUM LETTER PHASE-E FAQ", aliases: &[] },
        Codepoint { codepoint: 0x16A02, name: "BAMUM LETTER PHASE-E GHOM", aliases: &[] },
        Codepoint { codepoint: 0x16A03, name: "BAMUM LETTER PHASE-F KA", aliases: &[] },
        Codepoint { codepoint: 0x16A04, name: "BAMUM LETTER PHASE-F U", aliases: &[] },
        Codepoint { codepoint: 0x16A05, name: "BAMUM LETTER PHASE-F KU", aliases: &[] },
        Codepoint { codepoint: 0x16A06, name: "BAMUM LETTER PHASE-F EE", aliases: &[] },
        Codepoint { codepoint: 0x16A07, name: "BAMUM LETTER PHASE-F REE", aliases: &[] },
        Codepoint { codepoint: 0x16A08, name: "BAMUM LETTER PHASE-F TAE", aliases: &[] },
        Codepoint { codepoint: 0x16A09, name: "BAMUM LETTER PHASE-F NYI", aliases: &[] },
        Codepoint { codepoint: 0x16A0A, name: "BAMUM LETTER PHASE-F LA", aliases: &[] },
        Codepoint { codepoint: 0x16A0B, name: "BAMUM LETTER PHASE-F RII", aliases: &[] },
        Codepoint { codepoint: 0x16A0C, name: "BAMUM LETTER PHASE-F RIEE", aliases: &[] },
        Codepoint { codepoint: 0x16A0D, name: "BAMUM LETTER PHASE-F MEEEE", aliases: &[] },
    ]
}

fn all_codepoints_628() -> (v: Vec<Codepoint>)
    ensures
        v@ == codepoint_table_628(),
{
    let v = vec![
        Codepoint { codepoint: 0x169E6, name: "BAMUM LETTER PHASE-E KEUX", aliases: &[] },
        Codepoint { codepoint: 0x169E7, name: "BAMUM LETTER PHASE-E PEUX", aliases: &[] },
        Codepoint { codepoint: 0x169E8, name: "BAMUM LETTER PHASE-E NJEE EPOCH", aliases: &[] },
        Codepoint { codepoint: 0x169E9, name: "BAMUM LETTER PHASE-E PUE", aliases: &[] },
        Codepoint { codepoint: 0x169EA, name: "BAMUM LETTER PHASE-E WUE", aliases: &[] },
        Codepoint { codepoint: 0x169EB, name: "BAMUM LETTER PHASE-E FEE", aliases: &[] },
        Codepoint { codepoint: 0x169EC, name: "BAMUM LETTER PHASE-E VEE", aliases: &[] },
        Codepoint { codepoint: 0x169ED, name: "BAMUM LETTER PHASE-E LU", aliases: &[] },
        Codepoint { codepoint: 0x169EE, name: "BAMUM LETTER PHASE-E MI", aliases: &[] },
        Codepoint { codepoint: 0x169EF, name: "BAMUM LETTER PHASE-E REUX", aliases: &[] },
        Codepoint { codepoint: 0x169F0, name: "BAMUM LETTER PHASE-E RAE", aliases: &[] },
        Codepoint { codepoint: 0x169F1, name: "BAMUM LETTER PHASE-E NGUAET", aliases: &[] },
        Codepoint { codepoint: 0x169F2, name: "BAMUM LETTER PHASE-E NGA", aliases: &[] },
        Codepoint { codepoint: 0x169F3, name: "BAMUM LETTER PHASE-E SHO", aliases: &[] },
        Codepoint { codepoint: 0x169F4, name: "BAMUM LETTER PHASE-E SHOQ", aliases: &[] },
        Codepoint { codepoint: 0x169F5, name: "BAMUM LETTER PHASE-E FU REMEDY", aliases: &[] },
        Codepoint { codepoint: 0x169F6, name: "BAMUM LETTER PHASE-E NA", aliases: &[] },
        Codepoint { codepoint: 0x169F7, name: "BAMUM LETTER PHASE-E PI", aliases: &[] },
        Codepoint { codepoint: 0x169F8, name: "BAMUM LETTER PHASE-E LOQ", aliases: &[] },
        Codepoint { codepoint: 0x169F9, name: "BAMUM LETTER PHASE-E KO", aliases: &[] },
        Codepoint { codepoint: 0x169FA, name: "BAMUM LETTER PHASE-E MEN", aliases: &[] },
        Codepoint { codepoint: 0x169FB, name: "BAMUM LETTER PHASE-E MA", aliases: &[] },
        Codepoint { codepoint: 0x169FC, name: "BAMUM LETTER PHASE-E MAQ", aliases: &[] },
        Codepoint { codepoint: 0x169FD, name: "BAMUM LETTER PHASE-E TEU", aliases: &[] },
        Codepoint { codepoint: 0x169FE, name: "BAMUM LETTER PHASE-E KI", aliases: &[] },
        Codepoint { codepoint: 0x169FF, name: "BAMUM LETTER PHASE-E MON", aliases: &[] },
        Codepoint { codepoint: 0x16A00, name: "BAMUM LETTER PHASE-E TEN", aliases: &[] },
        Codepoint { codepoint: 0x16A01, name: "BAMUM LETTER PHASE-E FAQ", aliases: &[] },
        Codepoint { codepoint: 0x16A02, name: "BAMUM LETTER PHASE-E GHOM", aliases: &[] },
        Codepoint { codepoint: 0x16A03, name: "BAMUM LETTER PHASE-F KA", aliases: &[] },
        Codepoint { codepoint: 0x16A04, name: "BAMUM LETTER PHASE-F U", aliases: &[] },
        Codepoint { codepoint: 0x16A05, name: "BAMUM LETTER PHASE-F KU", aliases: &[] },
        Codepoint { codepoint: 0x16A06, name: "BAMUM LETTER PHASE-F EE", aliases: &[] },
        Codepoint { codepoint: 0x16A07, name: "BAMUM LETTER PHASE-F REE", aliases: &[] },
        Codepoint { codepoint: 0x16A08, name: "BAMUM LETTER PHASE-F TAE", aliases: &[] },
        Codepoint { codepoint: 0x16A09, name: "BAMUM LETTER PHASE-F NYI", aliases: &[] },
        Codepoint { codepoint: 0x16A0A, name: "BAMUM LETTER PHASE-F LA", aliases: &[] },
        Codepoint { codepoint: 0x16A0B, name: "BAMUM LETTER PHASE-F RII", aliases: &[] },
        Codepoint { codepoint: 0x16A0C, name: "BAMUM LETTER PHASE-F RIEE", aliases: &[] },
        Codepoint { codepoint: 0x16A0D, name: "BAMUM LETTER PHASE-F MEEEE", aliases: &[] },
    ];
    assert(v@ =~= codepoint_table_628());
    v
}

pub open spec fn codepoint_table_629() -> Seq<Codepoint> {
    seq![
        Codepoint { codepoint: 0x16A0E, name: "BAMUM LETTER PHASE-F TAA", aliases: &[] },
        Codepoint { codepoint: 0x16A0F, name: "BAMUM LETTER PHASE-F NDAA", aliases: &[] },
        Codepoint { codepoint: 0x16A10, name: "BAMUM LETTER PHASE-F NJAEM", aliases: &[] },
        Codepoint { codepoint: 0x16A11, name: "BAMUM LETTER PHASE-F M", aliases: &[] },
        Codepoint { codepoint: 0x16A12, name: "BAMUM LETTER PHASE-F SUU", aliases: &[] },
        Codepoint { codepoint: 0x16A13, name: "BAMUM LETTER PHASE-F SHII", aliases: &[] },
        Codepoint { codepoint: 0x16A14, name: "BAMUM LETTER PHASE-F SI", aliases: &[] },
        Codepoint { codepoint: 0x16A15, name: "BAMUM LETTER PHASE-F SEUX", aliases: &[] },
        Codepoint { codepoint: 0x16A16, name: "BAMUM LETTER PHASE-F KYEE", aliases: &[] },
        Codepoint { codepoint: 0x16A17, name: "BAMUM LETTER PHASE-F KET", aliases: &[] },
        Codepoint { codepoint: 0x16A18, name: "BAMUM LETTER PHASE-F NUAE", aliases: &[] },
        Codepoint { codepoint: 0x16A19, name: "BAMUM LETTER PHASE-F NU", aliases: &[] },
        Codepoint { codepoint: 0x16A1A, name: "BAMUM LETTER PHASE-F NJUAE", aliases: &[] },
        Codepoint { codepoint: 0x16A1B, name: "BAMUM LETTER PHASE-F YOQ", aliases: &[] },
        Codepoint { codepoint: 0x16A1C, name: "BAMUM LETTER PHASE-F SHU", aliases: &[] },
        Codepoint { codepoint: 0x16A1D, name: "BAMUM LETTER PHASE-F YA", aliases: &[] },
        Codepoint { codepoint: 0x16A1E, name: "BAMUM LETTER PHASE-F NSHA", aliases: &[] },
        Codepoint { codepoint: 0x16A1F, name: "BAMUM LETTER PHASE-F PEUX", aliases: &[] },
        Codepoint { codepoint: 0x16A20, name: "BAMUM LETTER PHASE-F NTEE", aliases: &[] },
        Codepoint { codepoint: 0x16A21, name: "BAMUM LETTER PHASE-F WUE", aliases: &[] },
        Codepoint { codepoint: 0x16A22, name: "BAMUM LETTER PHASE-F PEE", aliases: &[] },
        Codepoint { codepoint: 0x16A23, name: "BAMUM LETTER PHASE-F RU", aliases: &[] },
        Codepoint { codepoint: 0x16A24, name: "BAMUM LETTER PHASE-F NI", aliases: &[] },
        Codepoint { codepoint: 0x16A25, name: "BAMUM LETTER PHASE-F REUX", aliases: &[] },
        Codepoint { codepoint: 0x16A26, name: "BAMUM LETTER PHASE-F KEN", aliases: &[] },
        Codepoint { codepoint: 0x16A27, name: "BAMUM LETTER PHASE-F NGKWAEN", aliases: &[] },
        Codepoint { codepoint: 0x16A28, name: "BAMUM LETTER PHASE-F NGGA", aliases: &[] },
        Codepoint { codepoint: 0x16A29, name: "BAMUM LETTER PHASE-F SHO", aliases: &[] },
        Codepoint { codepoint: 0x16A2A, name: "BAMUM LETTER PHASE-F PUAE", aliases: &[] },
        Codepoint { codepoint: 0x16A2B, name: "BAMUM LETTER PHASE-F FOM", aliases: &[] },
        Codepoint { codepoint: 0x16A2C, name: "BAMUM LETTER PHASE-F WA", aliases: &[] },
        Codepoint { codepoint: 0x16A2D, name: "BAMUM LETTER PHASE-F LI", aliases: &[] },
        Codepoint { codepoint: 0x16A2E, name: "BAMUM LETTER PHASE-F LOQ", aliases: &[] },
        Codepoint { codepoint: 0x16A2F, name: "BAMUM LETTER PHASE-F KO", aliases: &[] },
        Codepoint { codepoint: 0x16A30, name: "BAMUM LETTER PHASE-F MBEN", aliases: &[] },
        Codepoint { codepoint: 0x16A31, name: "BAMUM LETTER PHASE-F REN", aliases: &[] },
        Codepoint { codepoint: 0x16A32, name: "BAMUM LETTER PHASE-F MA", aliases: &[] },
        Codepoint { codepoint: 0x16A33, name: "BAMUM LETTER PHASE-F MO", aliases: &[] },
        Codepoint { codepoint: 0x16A34, name: "BAMUM LETTER PHASE-F MBAA", aliases: &[] },
        Codepoint { codepoint: 0x16A35, name: "BAMUM LETTER PHASE-F TET", aliases: &[] },
    ]
}

fn all_codepoints_629() -> (v: Vec<Codepoint>)
    ensures
        v@ == codepoint_table_629(),
{
    let v = vec![
        Codepoint { codepoint: 0x16A0E, name: "BAMUM LETTER PHASE-F TAA", aliases: &[] },
        Codepoint { codepoint: 0x16A0F, name: "BAMUM LETTER PHASE-F NDAA", aliases: &[] },
        Codepoint { codepoint: 0x16A10, name: "BAMUM LETTER PHASE-F NJAEM", aliases: &[] },
        Codepoint { codepoint: 0x16A11, name: "BAMUM LETTER PHASE-F M", aliases: &[] },
        Codepoint { codepoint: 0x16A12, name: "BAMUM LETTER PHASE-F SUU", aliases: &[] },
        Codepoint { codepoint: 0x16A13, name: "BAMUM LETTER PHASE-F SHII", aliases: &[] },
        Codepoint { codepoint: 0x16A14, name: "BAMUM LETTER PHASE-F SI", aliases: &[] },
        Codepoint { codepoint: 0x16A15, name: "BAMUM LETTER PHASE-F SEUX", aliases: &[] },
        Codepoint { codepoint: 0x16A16, name: "BAMUM LETTER PHASE-F KYEE", aliases: &[] },
        Codepoint { codepoint: 0x16A17, name: "BAMUM LETTER PHASE-F KET", aliases: &[] },
        Codepoint { codepoint: 0x16A18, name: "BAMUM LETTER PHASE-F NUAE", aliases: &[] },
        Codepoint { codepoint: 0x16A19, name: "BAMUM LETTER PHASE-F NU", aliases: &[] },
        Codepoint { codepoint: 0x16A1A, name: "BAMUM LETTER PHASE-F NJUAE", aliases: &[] },
        Codepoint { codepoint: 0x16A1B, name: "BAMUM LETTER PHASE-F YOQ", aliases: &[] },
        Codepoint { codepoint: 0x16A1C, name: "BAMUM LETTER PHASE-F SHU", aliases: &[] },
        Codepoint { codepoint: 0x16A1D, name: "BAMUM LETTER PHASE-F YA", aliases: &[] },
        Codepoint { codepoint: 0x16A1E, name: "BAMUM LETTER PHASE-F NSHA", aliases: &[] },
        Codepoint { codepoint: 0x16A1F, name: "BAMUM LETTER PHASE-F PEUX", aliases: &[] },
        Codepoint { codepoint: 0x16A20, name: "BAMUM LETTER PHASE-F NTEE", aliases: &[] },
        Codepoint { codepoint: 0x16A21, name: "BAMUM LETTER PHASE-F WUE", aliases: &[] },
        Codepoint { codepoint: 0x16A22, name: "BAMUM LETTER PHASE-F PEE", aliases: &[] },
        Codepoint { codepoint: 0x16A23, name: "BAMUM LETTER PHASE-F RU", aliases: &[] },
        Codepoint { codepoint: 0x16A24, name: "BAMUM LETTER PHASE-F NI", aliases: &[] },
        Codepoint { codepoint: 0x16A25, name: "BAMUM LETTER PHASE-F REUX", aliases: &[] },
        Codepoint { codepoint: 0x16A26, name: "BAMUM LETTER PHASE-F KEN", aliases: &[] },
        Codepoint { codepoint: 0x16A27, name: "BAMUM LETTER PHASE-F NGKWAEN", aliases: &[] },
        Codepoint { codepoint: 0x16A28, name: "BAMUM LETTER PHASE-F NGGA", aliases: &[] },
        Codepoint { codepoint: 0x16A29, name: "BAMUM LETTER PHASE-F SHO", aliases: &[] },
        Codepoint { codepoint: 0x16A2A, name: "BAMUM LETTER PHASE-F PUAE", aliases: &[] },
        Codepoint { codepoint: 0x16A2B, name: "BAMUM LETTER PHASE-F FOM", aliases: &[] },
        Codepoint { codepoint: 0x16A2C, name: "BAMUM LETTER PHASE-F WA", aliases: &[] },
        Codepoint { codepoint: 0x16A2D, name: "BAMUM LETTER PHASE-F LI", aliases: &[] },
        Codepoint { codepoint: 0x16A2E, name: "BAMUM LETTER PHASE-F LOQ", aliases: &[] },
        Codepoint { codepoint: 0x16A2F, name: "BAMUM LETTER PHASE-F KO", aliases: &[] },
        Codepoint { codepoint: 0x16A30, name: "BAMUM LETTER PHASE-F MBEN", aliases: &[] },
        Codepoint { codepoint: 0x16A31, name: "BAMUM LETTER PHASE-F REN", aliases: &[] },
        Codepoint { codepoint: 0x16A32, name: "BAMUM LETTER PHASE-F MA", aliases: &[] },
        Codepoint { codepoint: 0x16A33, name: "BAMUM LETTER PHASE-F MO", aliases: &[] },
        Codepoint { codepoint: 0x16A34, name: "BAMUM LETTER PHASE-F MBAA", aliases: &[] },
        Codepoint { codepoint: 0x16A35, name: "BAMUM LETTER PHASE-F TET", aliases: &[] },
    ];
    assert(v@ =~= codepoint_table_629());
    v
}

pub open spec fn codepoint_table_630() -> Seq<Codepoint> {
    seq![
        Codepoint { codepoint: 0x16A36, name: "BAMUM LETTER PHASE-F KPA", aliases: &[] },
        Codepoint { codepoint: 0x16A37, name: "BAMUM LETTER PHASE-F SAMBA", aliases: &[] },
        Codepoint { codepoint: 0x16A38, name: "BAMUM LETTER PHASE-F VUEQ", aliases: &[] },
        Codepoint { codepoint: 0x16A40, name: "MRO LETTER TA", aliases: &[] },
        Codepoint { codepoint: 0x16A41, name: "MRO LETTER NGI", aliases: &[] },
        Codepoint { codepoint: 0x16A42, name: "MRO LETTER YO", aliases: &[] },
        Codepoint { codepoint: 0x16A43, name: "MRO LETTER MIM", aliases: &[] },
        Codepoint { codepoint: 0x16A44, name: "MRO LETTER BA", aliases: &[] },
        Codepoint { codepoint: 0x16A45, name: "MRO LETTER DA", aliases: &[] },
        Codepoint { codepoint: 0x16A46, name: "MRO LETTER A", aliases: &[] },
        Codepoint { codepoint: 0x16A47, name: "MRO LETTER PHI", aliases: &[] },
        Codepoint { codepoint: 0x16A48, name: "MRO LETTER KHAI", aliases: &[] },
        Codepoint { codepoint: 0x16A49, name: "MRO LETTER HAO", aliases: &[] },
        Codepoint { codepoint: 0x16A4A, name: "MRO LETTER DAI", aliases: &[] },
        Codepoint { codepoint: 0x16A4B, name: "MRO LETTER CHU", aliases: &[] },
        Codepoint { codepoint: 0x16A4C, name: "MRO LETTER KEAAE", aliases: &[] },
        Codepoint { codepoint: 0x16A4D, name: "MRO LETTER OL", aliases: &[] },
        Codepoint { codepoint: 0x16A4E, name: "MRO LETTER MAEM", aliases: &[] },
        Codepoint { codepoint: 0x16A4F, name: "MRO LETTER NIN", aliases: &[] },
        Codepoint { codepoint: 0x16A50, name: "MRO LETTER PA", aliases: &[] },
        Codepoint { codepoint: 0x16A51, name: "MRO LETTER OO", aliases: &[] },
        Codepoint { codepoint: 0x16A52, name: "MRO LETTER O", aliases: &[] },
        Codepoint { codepoint: 0x16A53, name: "MRO LETTER RO", aliases: &[] },
        Codepoint { codepoint: 0x16A54, name: "MRO LETTER SHI", aliases: &[] },
        Codepoint { codepoint: 0x16A55, name: "MRO LETTER THEA", aliases: &[] },
        Codepoint { codepoint: 0x16A56, name: "MRO LETTER EA", aliases: &[] },
        Codepoint { codepoint: 0x16A57, name: "MRO LETTER WA", aliases: &[] },
        Codepoint { codepoint: 0x16A58, name: "MRO LETTER E", aliases: &[] },
        Codepoint { codepoint: 0x16A59, name: "MRO LETTER KO", aliases: &[] },
        Codepoint { codepoint: 0x16A5A, name: "MRO LETTER LAN", aliases: &[] },
        Codepoint { codepoint: 0x16A5B, name: "MRO LETTER LA", aliases: &[] },
        Codepoint { codepoint: 0x16A5C, name: "MRO LETTER HAI", aliases: &[] },
        Codepoint { codepoint: 0x16A5D, name: "MRO LETTER RI", aliases: &[] },
        Codepoint { codepoint: 0x16A5E, name: "MRO LETTER TEK", aliases: &[] },
        Codepoint { codepoint: 0x16A60, name: "MRO DIGIT ZERO", aliases: &[] },
        Codepoint { codepoint: 0x16A61, name: "MRO DIGIT ONE", aliases: &[] },
        Codepoint { codepoint: 0x16A62, name: "MRO DIGIT TWO", aliases: &[] },
        Codepoint { codepoint: 0x16A63, name: "MRO DIGIT THREE", aliases: &[] },
        Codepoint { codepoint: 0x16A64, name: "MRO DIGIT FOUR", aliases: &[] },
        Codepoint { codepoint: 0x16A65, name: "MRO DIGIT FIVE", aliases: &[] },
    ]
}

fn all_codepoints_630() -> (v: Vec<Codepoint>)
    ensures
        v@ == codepoint_table_630(),
{
    let v = vec![
        Codepoint { codepoint: 0x16A36, name: "BAMUM LETTER PHASE-F KPA", aliases: &[] },
        Codepoint { codepoint: 0x16A37, name: "BAMUM LETTER PHASE-F SAMBA", aliases: &[] },
        Codepoint { codepoint: 0x16A38, name: "BAMUM LETTER PHASE-F VUEQ", aliases: &[] },
        Codepoint { codepoint: 0x16A40, name: "MRO LETTER TA", aliases: &[] },
        Codepoint { codepoint: 0x16A41, name: "MRO LETTER NGI", aliases: &[] },
        Codepoint { codepoint: 0x16A42, name: "MRO LETTER YO", aliases: &[] },
        Codepoint { codepoint: 0x16A43, name: "MRO LETTER MIM", aliases: &[] },
        Codepoint { codepoint: 0x16A44, name: "MRO LETTER BA", aliases: &[] },
        Codepoint { codepoint: 0x16A45, name: "MRO LETTER DA", aliases: &[] },
        Codepoint { codepoint: 0x16A46, name: "MRO LETTER A", aliases: &[] },
        Codepoint { codepoint: 0x16A47, name: "MRO LETTER PHI", aliases: &[] },
        Codepoint { codepoint: 0x16A48, name: "MRO LETTER KHAI", aliases: &[] },
        Codepoint { codepoint: 0x16A49, name: "MRO LETTER HAO", aliases: &[] },
        Codepoint { codepoint: 0x16A4A, name: "MRO LETTER DAI", aliases: &[] },
        Codepoint { codepoint: 0x16A4B, name: "MRO LETTER CHU", aliases: &[] },
        Codepoint { codepoint: 0x16A4C, name: "MRO LETTER KEAAE", aliases: &[] },
        Codepoint { codepoint: 0x16A4D, name: "MRO LETTER OL", aliases: &[] },
        Codepoint { codepoint: 0x16A4E, name: "MRO LETTER MAEM", aliases: &[] },
        Codepoint { codepoint: 0x16A4F, name: "MRO LETTER NIN", aliases: &[] },
        Codepoint { codepoint: 0x16A50, name: "MRO LETTER PA", aliases: &[] },
        Codepoint { codepoint: 0x16A51, name: "MRO LETTER OO", aliases: &[] },
        Codepoint { codepoint: 0x16A52, name: "MRO LETTER O", aliases: &[] },
        Codepoint { codepoint: 0x16A53, name: "MRO LETTER RO", aliases: &[] },
        Codepoint { codepoint: 0x16A54, name: "MRO LETTER SHI", aliases: &[] },
        Codepoint { codepoint: 0x16A55, name: "MRO LETTER THEA", aliases: &[] },
        Codepoint { codepoint: 0x16A56, name: "MRO LETTER EA", aliases: &[] },
        Codepoint { codepoint: 0x16A57, name: "MRO LETTER WA", aliases: &[] },
        Codepoint { codepoint: 0x16A58, name: "MRO LETTER E", aliases: &[] },
        Codepoint { codepoint: 0x16A59, name: "MRO LETTER KO", aliases: &[] },
        Codepoint { codepoint: 0x16A5A, name: "MRO LETTER LAN", aliases: &[] },
        Codepoint { codepoint: 0x16A5B, name: "MRO LETTER LA", aliases: &[] },
        Codepoint { codepoint: 0x16A5C, name: "MRO LETTER HAI", aliases: &[] },
        Codepoint { codepoint: 0x16A5D, name: "MRO LETTER RI", aliases: &[] },
        Codepoint { codepoint: 0x16A5E, name: "MRO LETTER TEK", aliases: &[] },
        Codepoint { codepoint: 0x16A60, name: "MRO DIGIT ZERO", aliases: &[] },
        Codepoint { codepoint: 0x16A61, name: "MRO DIGIT ONE", aliases: &[] },
        Codepoint { codepoint: 0x16A62, name: "MRO DIGIT TWO", aliases: &[] },
        Codepoint { codepoint: 0x16A63, name: "MRO DIGIT THREE", aliases: &[] },
        Codepoint { codepoint: 0x16A64, name: "MRO DIGIT FOUR", aliases: &[] },
        Codepoint { codepoint: 0x16A65, name: "MRO DIGIT FIVE", aliases: &[] },
    ];
    assert(v@ =~= codepoint_table_630());
    v
}

pub open spec fn codepoint_table_631() -> Seq<Codepoint> {
    seq![
        Codepoint { codepoint: 0x16A66, name: "MRO DIGIT SIX", aliases: &[] },
        Codepoint { codepoint: 0x16A67, name: "MRO DIGIT SEVEN", aliases: &[] },
        Codepoint { codepoint: 0x16A68, name: "MRO DIGIT EIGHT", aliases: &[] },
        Codepoint { codepoint: 0x16A69, name: "MRO DIGIT NINE", aliases: &[] },
        Codepoint { codepoint: 0x16A6E, name: "MRO DANDA", aliases: &[] },
        Codepoint { codepoint: 0x16A6F, name: "MRO DOUBLE DANDA", aliases: &[] },
        Codepoint { codepoint: 0x16A70, name: "TANGSA LETTER OZ", aliases: &[] },
        Codepoint { codepoint: 0x16A71, name: "TANGSA LETTER OC", aliases: &[] },
        Codepoint { codepoint: 0x16A72, name: "TANGSA LETTER OQ", aliases: &[] },
        Codepoint { codepoint: 0x16A73, name: "TANGSA LETTER OX", aliases: &[] },
        Codepoint { codepoint: 0x16A74, name: "TANGSA LETTER AZ", aliases: &[] },
        Codepoint { codepoint: 0x16A75, name: "TANGSA LETTER AC", aliases: &[] },
        Codepoint { codepoint: 0x16A76, name: "TANGSA LETTER AQ", aliases: &[] },
        Codepoint { codepoint: 0x16A77, name: "TANGSA LETTER AX", aliases: &[] },
        Codepoint { codepoint: 0x16A78, name: "TANGSA LETTER VZ", aliases: &[] },
        Codepoint { codepoint: 0x16A79, name: "TANGSA LETTER VC", aliases: &[] },
        Codepoint { codepoint: 0x16A7A, name: "TANGSA LETTER VQ", aliases: &[] },
        Codepoint { codepoint: 0x16A7B, name: "TANGSA LETTER VX", aliases: &[] },
        Codepoint { codepoint: 0x16A7C, name: "TANGSA LETTER EZ", aliases: &[] },
        Codepoint { codepoint: 0x16A7D, name: "TANGSA LETTER EC", aliases: &[] },
        Codepoint { codepoint: 0x16A7E, name: "TANGSA LETTER EQ", aliases: &[] },
        Codepoint { codepoint: 0x16A7F, name: "TANGSA LETTER EX", aliases: &[] },
        Codepoint { codepoint: 0x16A80, name: "TANGSA LETTER IZ", aliases: &[] },
        Codepoint { codepoint: 0x16A81, name: "TANGSA LETTER IC", aliases: &[] },
        Codepoint { codepoint: 0x16A82, name: "TANGSA LETTER IQ", aliases: &[] },
        Codepoint { codepoint: 0x16A83, name: "TANGSA LETTER IX", aliases: &[] },
        Codepoint { codepoint: 0x16A84, name: "TANGSA LETTER UZ", aliases: &[] },
        Codepoint { codepoint: 0x16A85, name: "TANGSA LETTER UC", aliases: &[] },
        Codepoint { codepoint: 0x16A86, name: "TANGSA LETTER UQ", aliases: &[] },
        Codepoint { codepoint: 0x16A87, name: "TANGSA LETTER UX", aliases: &[] },
        Codepoint { codepoint: 0x16A88, name: "TANGSA LETTER AWZ", aliases: &[] },
        Codepoint { codepoint: 0x16A89, name: "TANGSA LETTER AWC", aliases: &[] },
        Codepoint { codepoint: 0x16A8A, name: "TANGSA LETTER AWQ", aliases: &[] },
        Codepoint { codepoint: 0x16A8B, name: "TANGSA LETTER AWX", aliases: &[] },
        Codepoint { codepoint: 0x16A8C, name: "TANGSA LETTER UIZ", aliases: &[] },
        Codepoint { codepoint: 0x16A8D, name: "TANGSA LETTER UIC", aliases: &[] },
        Codepoint { codepoint: 0x16A8E, name: "TANGSA LETTER UIQ", aliases: &[] },
        Codepoint { codepoint: 0x16A8F, name: "TANGSA LETTER UIX", aliases: &[] },
        Codepoint { codepoint: 0x16A90, name: "TANGSA LETTER FINAL NG", aliases: &[] },
        Codepoint { codepoint: 0x16A91, name: "TANGSA LETTER LONG UEX", aliases: &[] },
    ]
}

fn all_codepoints_631() -> (v: Vec<Codepoint>)
    ensures
        v@ == codepoint_table_631(),
{
    let v = vec![
        Codepoint { codepoint: 0x16A66, name: "MRO DIGIT SIX", aliases: &[] },
        Codepoint { codepoint: 0x16A67, name: "MRO DIGIT SEVEN", aliases: &[] },
        Codepoint { codepoint: 0x16A68, name: "MRO DIGIT EIGHT", aliases: &[] },
        Codepoint { codepoint: 0x16A69, name: "MRO DIGIT NINE", aliases: &[] },
        Codepoint { codepoint: 0x16A6E, name: "MRO DANDA", aliases: &[] },
        Codepoint { codepoint: 0x16A6F, name: "MRO DOUBLE DANDA", aliases: &[] },
        Codepoint { codepoint: 0x16A70, name: "TANGSA LETTER OZ", aliases: &[] },
        Codepoint { codepoint: 0x16A71, name: "TANGSA LETTER OC", aliases: &[] },
        Codepoint { codepoint: 0x16A72, name: "TANGSA LETTER OQ", aliases: &[] },
        Codepoint { codepoint: 0x16A73, name: "TANGSA LETTER OX", aliases: &[] },
        Codepoint { codepoint: 0x16A74, name: "TANGSA LETTER AZ", aliases: &[] },
        Codepoint { codepoint: 0x16A75, name: "TANGSA LETTER AC", aliases: &[] },
        Codepoint { codepoint: 0x16A76, name: "TANGSA LETTER AQ", aliases: &[] },
        Codepoint { codepoint: 0x16A77, name: "TANGSA LETTER AX", aliases: &[] },
        Codepoint { codepoint: 0x16A78, name: "TANGSA LETTER VZ", aliases: &[] },
        Codepoint { codepoint: 0x16A79, name: "TANGSA LETTER VC", aliases: &[] },
        Codepoint { codepoint: 0x16A7A, name: "TANGSA LETTER VQ", aliases: &[] },
        Codepoint { codepoint: 0x16A7B, name: "TANGSA LETTER VX", aliases: &[] },
        Codepoint { codepoint: 0x16A7C, name: "TANGSA LETTER EZ", aliases: &[] },
        Codepoint { codepoint: 0x16A7D, name: "TANGSA LETTER EC", aliases: &[] },
        Codepoint { codepoint: 0x16A7E, name: "TANGSA LETTER EQ", aliases: &[] },
        Codepoint { codepoint: 0x16A7F, name: "TANGSA LETTER EX", aliases: &[] },
        Codepoint { codepoint: 0x16A80, name: "TANGSA LETTER IZ", aliases: &[] },
        Codepoint { codepoint: 0x16A81, name: "TANGSA LETTER IC", aliases: &[] },
        Codepoint { codepoint: 0x16A82, name: "TANGSA LETTER IQ", aliases: &[] },
        Codepoint { codepoint: 0x16A83, name: "TANGSA LETTER IX", aliases: &[] },
        Codepoint { codepoint: 0x16A84, name: "TANGSA LETTER UZ", aliases: &[] },
        Codepoint { codepoint: 0x16A85, name: "TANGSA LETTER UC", aliases: &[] },
        Codepoint { codepoint: 0x16A86, name: "TANGSA LETTER UQ", aliases: &[] },
        Codepoint { codepoint: 0x16A87, name: "TANGSA LETTER UX", aliases: &[] },
        Codepoint { codepoint: 0x16A88, name: "TANGSA LETTER AWZ", aliases: &[] },
        Codepoint { codepoint: 0x16A89, name: "TANGSA LETTER AWC", aliases: &[] },
        Codepoint { codepoint: 0x16A8A, name: "TANGSA LETTER AWQ", aliases: &[] },
        Codepoint { codepoint: 0x16A8B, name: "TANGSA LETTER AWX", aliases: &[] },
        Codepoint { codepoint: 0x16A8C, name: "TANGSA LETTER UIZ", aliases: &[] },
        Codepoint { codepoint: 0x16A8D, name: "TANGSA LETTER UIC", aliases: &[] },
        Codepoint { codepoint: 0x16A8E, name: "TANGSA LETTER UIQ", aliases: &[] },
        Codepoint { codepoint: 0x16A8F, name: "TANGSA LETTER UIX", aliases: &[] },
        Codepoint { codepoint: 0x16A90, name: "TANGSA LETTER FINAL NG", aliases: &[] },
        Codepoint { codepoint: 0x16A91, name: "TANGSA LETTER LONG UEX", aliases: &[] },
    ];
    assert(v@ =~= codepoint_table_631());
    v
}

pub open spec fn codepoint_table_632() -> Seq<Codepoint> {
    seq![
        Codepoint { codepoint: 0x16A92, name: "TANGSA LETTER SHORT UEZ", aliases: &[] },
        Codepoint { codepoint: 0x16A93, name: "TANGSA LETTER SHORT AWX", aliases: &[] },
        Codepoint { codepoint: 0x16A94, name: "TANGSA LETTER UEC", aliases: &[] },
        Codepoint { codepoint: 0x16A95, name: "TANGSA LETTER UEZ", aliases: &[] },
        Codepoint { codepoint: 0x16A96, name: "TANGSA LETTER UEQ", aliases: &[] },
        Codepoint { codepoint: 0x16A97, name: "TANGSA LETTER UEX", aliases: &[] },
        Codepoint { codepoint: 0x16A98, name: "TANGSA LETTER UIUZ", aliases: &[] },
        Codepoint { codepoint: 0x16A99, name: "TANGSA LETTER UIUC", aliases: &[] },
        Codepoint { codepoint: 0x16A9A, name: "TANGSA LETTER UIUQ", aliases: &[] },
        Codepoint { codepoint: 0x16A9B, name: "TANGSA LETTER UIUX", aliases: &[] },
        Codepoint { codepoint: 0x16A9C, name: "TANGSA LETTER MZ", aliases: &[] },
        Codepoint { codepoint: 0x16A9D, name: "TANGSA LETTER MC", aliases: &[] },
        Codepoint { codepoint: 0x16A9E, name: "TANGSA LETTER MQ", aliases: &[] },
        Codepoint { codepoint: 0x16A9F, name: "TANGSA LETTER MX", aliases: &[] },
        Codepoint { codepoint: 0x16AA0, name: "TANGSA LETTER KA", aliases: &[] },
        Codepoint { codepoint: 0x16AA1, name: "TANGSA LETTER KHA", aliases: &[] },
        Codepoint { codepoint: 0x16AA2, name: "TANGSA LETTER GA", aliases: &[] },
        Codepoint { codepoint: 0x16AA3, name: "TANGSA LETTER NGA", aliases: &[] },
        Codepoint { codepoint: 0x16AA4, name: "TANGSA LETTER SA", aliases: &[] },
        Codepoint { codepoint: 0x16AA5, name: "TANGSA LETTER YA", aliases: &[] },
        Codepoint { codepoint: 0x16AA6, name: "TANGSA LETTER WA", aliases: &[] },
        Codepoint { codepoint: 0x16AA7, name: "TANGSA LETTER PA", aliases: &[] },
        Codepoint { codepoint: 0x16AA8, name: "TANGSA LETTER NYA", aliases: &[] },
        Codepoint { codepoint: 0x16AA9, name: "TANGSA LETTER PHA", aliases: &[] },
        Codepoint { codepoint: 0x16AAA, name: "TANGSA LETTER BA", aliases: &[] },
        Codepoint { codepoint: 0x16AAB, name: "TANGSA LETTER MA", aliases: &[] },
        Codepoint { codepoint: 0x16AAC, name: "TANGSA LETTER NA", aliases: &[] },
        Codepoint { codepoint: 0x16AAD, name: "TANGSA LETTER HA", aliases: &[] },
        Codepoint { codepoint: 0x16AAE, name: "TANGSA LETTER LA", aliases: &[] },
        Codepoint { codepoint: 0x16AAF, name: "TANGSA LETTER HTA", aliases: &[] },
        Codepoint { codepoint: 0x16AB0, name: "TANGSA LETTER TA", aliases: &[] },
        Codepoint { codepoint: 0x16AB1, name: "TANGSA LETTER DA", aliases: &[] },
        Codepoint { codepoint: 0x16AB2, name: "TANGSA LETTER RA", aliases: &[] },
        Codepoint { codepoint: 0x16AB3, name: "TANGSA LETTER NHA", aliases: &[] },
        Codepoint { codepoint: 0x16AB4, name: "TANGSA LETTER SHA", aliases: &[] },
        Codepoint { codepoint: 0x16AB5, name: "TANGSA LETTER CA", aliases: &[] },
        Codepoint { codepoint: 0x16AB6, name: "TANGSA LETTER TSA", aliases: &[] },
        Codepoint { codepoint: 0x16AB7, name: "TANGSA LETTER GHA", aliases: &[] },
        Codepoint { codepoint: 0x16AB8, name: "TANGSA LETTER HTTA", aliases: &[] },
        Codepoint { codepoint: 0x16AB9, name: "TANGSA LETTER THA", aliases: &[] },
    ]
}

fn all_codepoints_632() -> (v: Vec<Codepoint>)
    ensures
        v@ == codepoint_table_632(),
{
    let v = vec![
        Codepoint { codepoint: 0x16A92, name: "TANGSA LETTER SHORT UEZ", aliases: &[] },
        Codepoint { codepoint: 0x16A93, name: "TANGSA LETTER SHORT AWX", aliases: &[] },
        Codepoint { codepoint: 0x16A94, name: "TANGSA LETTER UEC", aliases: &[] },
        Codepoint { codepoint: 0x16A95, name: "TANGSA LETTER UEZ", aliases: &[] },
        Codepoint { codepoint: 0x16A96, name: "TANGSA LETTER UEQ", aliases: &[] },
        Codepoint { codepoint: 0x16A97, name: "TANGSA LETTER UEX", aliases: &[] },
        Codepoint { codepoint: 0x16A98, name: "TANGSA LETTER UIUZ", aliases: &[] },
        Codepoint { codepoint: 0x16A99, name: "TANGSA LETTER UIUC", aliases: &[] },
        Codepoint { codepoint: 0x16A9A, name: "TANGSA LETTER UIUQ", aliases: &[] },
        Codepoint { codepoint: 0x16A9B, name: "TANGSA LETTER UIUX", aliases: &[] },
        Codepoint { codepoint: 0x16A9C, name: "TANGSA LETTER MZ", aliases: &[] },
        Codepoint { codepoint: 0x16A9D, name: "TANGSA LETTER MC", aliases: &[] },
        Codepoint { codepoint: 0x16A9E, name: "TANGSA LETTER MQ", aliases: &[] },
        Codepoint { codepoint: 0x16A9F, name: "TANGSA LETTER MX", aliases: &[] },
        Codepoint { codepoint: 0x16AA0, name: "TANGSA LETTER KA", aliases: &[] },
        Codepoint { codepoint: 0x16AA1, name: "TANGSA LETTER KHA", aliases: &[] },
        Codepoint { codepoint: 0x16AA2, name: "TANGSA LETTER GA", aliases: &[] },
        Codepoint { codepoint: 0x16AA3, name: "TANGSA LETTER NGA", aliases: &[] },
        Codepoint { codepoint: 0x16AA4, name: "TANGSA LETTER SA", aliases: &[] },
        Codepoint { codepoint: 0x16AA5, name: "TANGSA LETTER YA", aliases: &[] },
        Codepoint { codepoint: 0x16AA6, name: "TANGSA LETTER WA", aliases: &[] },
        Codepoint { codepoint: 0x16AA7, name: "TANGSA LETTER PA", aliases: &[] },
        Codepoint { codepoint: 0x16AA8, name: "TANGSA LETTER NYA", aliases: &[] },
        Codepoint { codepoint: 0x16AA9, name: "TANGSA LETTER PHA", aliases: &[] },
        Codepoint { codepoint: 0x16AAA, name: "TANGSA LETTER BA", aliases: &[] },
        Codepoint { codepoint: 0x16AAB, name: "TANGSA LETTER MA", aliases: &[] },
        Codepoint { codepoint: 0x16AAC, name: "TANGSA LETTER NA", aliases: &[] },
        Codepoint { codepoint: 0x16AAD, name: "TANGSA LETTER HA", aliases: &[] },
        Codepoint { codepoint: 0x16AAE, name: "TANGSA LETTER LA", aliases: &[] },
        Codepoint { codepoint: 0x16AAF, name: "TANGSA LETTER HTA", aliases: &[] },
        Codepoint { codepoint: 0x16AB0, name: "TANGSA LETTER TA", aliases: &[] },
        Codepoint { codepoint: 0x16AB1, name: "TANGSA LETTER DA", aliases: &[] },
        Codepoint { codepoint: 0x16AB2, name: "TANGSA LETTER RA", aliases: &[] },
        Codepoint { codepoint: 0x16AB3, name: "TANGSA LETTER NHA", aliases: &[] },
        Codepoint { codepoint: 0x16AB4, name: "TANGSA LETTER SHA", aliases: &[] },
        Codepoint { codepoint: 0x16AB5, name: "TANGSA LETTER CA", aliases: &[] },
        Codepoint { codepoint: 0x16AB6, name: "TANGSA LETTER TSA", aliases: &[] },
        Codepoint { codepoint: 0x16AB7, name: "TANGSA LETTER GHA", aliases: &[] },
        Codepoint { codepoint: 0x16AB8, name: "TANGSA LETTER HTTA", aliases: &[] },
        Codepoint { codepoint: 0x16AB9, name: "TANGSA LETTER THA", aliases: &[] },
    ];
    assert(v@ =~= codepoint_table_632());
    v
}

pub open spec fn codepoint_table_633() -> Seq<Codepoint> {
    seq![
        Codepoint { codepoint: 0x16ABA, name: "TANGSA LETTER XA", aliases: &[] },
        Codepoint { codepoint: 0x16ABB, name: "TANGSA LETTER FA", aliases: &[] },
        Codepoint { codepoint: 0x16ABC, name: "TANGSA LETTER DHA", aliases: &[] },
        Codepoint { codepoint: 0x16ABD, name: "TANGSA LETTER CHA", aliases: &[] },
        Codepoint { codepoint: 0x16ABE, name: "TANGSA LETTER ZA", aliases: &[] },
        Codepoint { codepoint: 0x16AC0, name: "TANGSA DIGIT ZERO", aliases: &[] },
        Codepoint { codepoint: 0x16AC1, name: "TANGSA DIGIT ONE", aliases: &[] },
        Codepoint { codepoint: 0x16AC2, name: "TANGSA DIGIT TWO", aliases: &[] },
        Codepoint { codepoint: 0x16AC3, name: "TANGSA DIGIT THREE", aliases: &[] },
        Codepoint { codepoint: 0x16AC4, name: "TANGSA DIGIT FOUR", aliases: &[] },
        Codepoint { codepoint: 0x16AC5, name: "TANGSA DIGIT FIVE", aliases: &[] },
        Codepoint { codepoint: 0x16AC6, name: "TANGSA DIGIT SIX", aliases: &[] },
        Codepoint { codepoint: 0x16AC7, name: "TANGSA DIGIT SEVEN", aliases: &[] },
        Codepoint { codepoint: 0x16AC8, name: "TANGSA DIGIT EIGHT", aliases: &[] },
        Codepoint { codepoint: 0x16AC9, name: "TANGSA DIGIT NINE", aliases: &[] },
        Codepoint { codepoint: 0x16AD0, name: "BASSA VAH LETTER ENNI", aliases: &[] },
        Codepoint { codepoint: 0x16AD1, name: "BASSA VAH LETTER KA", aliases: &[] },
        Codepoint { codepoint: 0x16AD2, name: "BASSA VAH LETTER SE", aliases: &[] },
        Codepoint { codepoint: 0x16AD3, name: "BASSA VAH LETTER FA", aliases: &[] },
        Codepoint { codepoint: 0x16AD4, name: "BASSA VAH LETTER MBE", aliases: &[] },
        Codepoint { codepoint: 0x16AD5, name: "BASSA VAH LETTER YIE", aliases: &[] },
        Codepoint { codepoint: 0x16AD6, name: "BASSA VAH LETTER GAH", aliases: &[] },
        Codepoint { codepoint: 0x16AD7, name: "BASSA VAH LETTER DHII", aliases: &[] },
        Codepoint { codepoint: 0x16AD8, name: "BASSA VAH LETTER KPAH", aliases: &[] },
        Codepoint { codepoint: 0x16AD9, name: "BASSA VAH LETTER JO", aliases: &[] },
        Codepoint { codepoint: 0x16ADA, name: "BASSA VAH LETTER HWAH", aliases: &[] },
        Codepoint { codepoint: 0x16ADB, name: "BASSA VAH LETTER WA", aliases: &[] },
        Codepoint { codepoint: 0x16ADC, name: "BASSA VAH LETTER ZO", aliases: &[] },
        Codepoint { codepoint: 0x16ADD, name: "BASSA VAH LETTER GBU", aliases: &[] },
        Codepoint { codepoint: 0x16ADE, name: "BASSA VAH LETTER DO", aliases: &[] },
        Codepoint { codepoint: 0x16ADF, name: "BASSA VAH LETTER CE", aliases: &[] },
        Codepoint { codepoint: 0x16AE0, name: "BASSA VAH LETTER UWU", aliases: &[] },
        Codepoint { codepoint: 0x16AE1, name: "BASSA VAH LETTER TO", aliases: &[] },
        Codepoint { codepoint: 0x16AE2, name: "BASSA VAH LETTER BA", aliases: &[] },
        Codepoint { codepoint: 0x16AE3, name: "BASSA VAH LETTER VU", aliases: &[] },
        Codepoint { codepoint: 0x16AE4, name: "BASSA VAH LETTER YEIN", aliases: &[] },
        Codepoint { codepoint: 0x16AE5, name: "BASSA VAH LETTER PA", aliases: &[] },
        Codepoint { codepoint: 0x16AE6, name: "BASSA VAH LETTER WADDA", aliases: &[] },
        Codepoint { codepoint: 0x16AE7, name: "BASSA VAH LETTER A", aliases: &[] },
        Codepoint { codepoint: 0x16AE8, name: "BASSA VAH LETTER O", aliases: &[] },
    ]
}

fn all_codepoints_633() -> (v: Vec<Codepoint>)
    ensures
        v@ == codepoint_table_633(),
{
    let v = vec![
        Codepoint { codepoint: 0x16ABA, name: "TANGSA LETTER XA", aliases: &[] },
        Codepoint { codepoint: 0x16ABB, name: "TANGSA LETTER FA", aliases: &[] },
        Codepoint { codepoint: 0x16ABC, name: "TANGSA LETTER DHA", aliases: &[] },
        Codepoint { codepoint: 0x16ABD, name: "TANGSA LETTER CHA", aliases: &[] },
        Codepoint { codepoint: 0x16ABE, name: "TANGSA LETTER ZA", aliases: &[] },
        Codepoint { codepoint: 0x16AC0, name: "TANGSA DIGIT ZERO", aliases: &[] },
        Codepoint { codepoint: 0x16AC1, name: "TANGSA DIGIT ONE", aliases: &[] },
        Codepoint { codepoint: 0x16AC2, name: "TANGSA DIGIT TWO", aliases: &[] },
        Codepoint { codepoint: 0x16AC3, name: "TANGSA DIGIT THREE", aliases: &[] },
        Codepoint { codepoint: 0x16AC4, name: "TANGSA DIGIT FOUR", aliases: &[] },
        Codepoint { codepoint: 0x16AC5, name: "TANGSA DIGIT FIVE", aliases: &[] },
        Codepoint { codepoint: 0x16AC6, name: "TANGSA DIGIT SIX", aliases: &[] },
        Codepoint { codepoint: 0x16AC7, name: "TANGSA DIGIT SEVEN", aliases: &[] },
        Codepoint { codepoint: 0x16AC8, name: "TANGSA DIGIT EIGHT", aliases: &[] },
        Codepoint { codepoint: 0x16AC9, name: "TANGSA DIGIT NINE", aliases: &[] },
        Codepoint { codepoint: 0x16AD0, name: "BASSA VAH LETTER ENNI", aliases: &[] },
        Codepoint { codepoint: 0x16AD1, name: "BASSA VAH LETTER KA", aliases: &[] },
        Codepoint { codepoint: 0x16AD2, name: "BASSA VAH LETTER SE", aliases: &[] },
        Codepoint { codepoint: 0x16AD3, name: "BASSA VAH LETTER FA", aliases: &[] },
        Codepoint { codepoint: 0x16AD4, name: "BASSA VAH LETTER MBE", aliases: &[] },
        Codepoint { codepoint: 0x16AD5, name: "BASSA VAH LETTER YIE", aliases: &[] },
        Codepoint { codepoint: 0x16AD6, name: "BASSA VAH LETTER GAH", aliases: &[] },
        Codepoint { codepoint: 0x16AD7, name: "BASSA VAH LETTER DHII", aliases: &[] },
        Codepoint { codepoint: 0x16AD8, name: "BASSA VAH LETTER KPAH", aliases: &[] },
        Codepoint { codepoint: 0x16AD9, name: "BASSA VAH LETTER JO", aliases: &[] },
        Codepoint { codepoint: 0x16ADA, name: "BASSA VAH LETTER HWAH", aliases: &[] },
        Codepoint { codepoint: 0x16ADB, name: "BASSA VAH LETTER WA", aliases: &[] },
        Codepoint { codepoint: 0x16ADC, name: "BASSA VAH LETTER ZO", aliases: &[] },
        Codepoint { codepoint: 0x16ADD, name: "BASSA VAH LETTER GBU", aliases: &[] },
        Codepoint { codepoint: 0x16ADE, name: "BASSA VAH LETTER DO", aliases: &[] },
        Codepoint { codepoint: 0x16ADF, name: "BASSA VAH LETTER CE", aliases: &[] },
        Codepoint { codepoint: 0x16AE0, name: "BASSA VAH LETTER UWU", aliases: &[] },
        Codepoint { codepoint: 0x16AE1, name: "BASSA VAH LETTER TO", aliases: &[] },
        Codepoint { codepoint: 0x16AE2, name: "BASSA VAH LETTER BA", aliases: &[] },
        Codepoint { codepoint: 0x16AE3, name: "BASSA VAH LETTER VU", aliases: &[] },
        Codepoint { codepoint: 0x16AE4, name: "BASSA VAH LETTER YEIN", aliases: &[] },
        Codepoint { codepoint: 0x16AE5, name: "BASSA VAH LETTER PA", aliases: &[] },
        Codepoint { codepoint: 0x16AE6, name: "BASSA VAH LETTER WADDA", aliases: &[] },
        Codepoint { codepoint: 0x16AE7, name: "BASSA VAH LETTER A", aliases: &[] },
        Codepoint { codepoint: 0x16AE8, name: "BASSA VAH LETTER O", aliases: &[] },
    ];
    assert(v@ =~= codepoint_table_633());
    v
}

pub open spec fn codepoint_table_634() -> Seq<Codepoint> {
    seq![
        Codepoint { codepoint: 0x16AE9, name: "BASSA VAH LETTER OO", aliases: &[] },
        Codepoint { codepoint: 0x16AEA, name: "BASSA VAH LETTER U", aliases: &[] },
        Codepoint { codepoint: 0x16AEB, name: "BASSA VAH LETTER EE", aliases: &[] },
        Codepoint { codepoint: 0x16AEC, name: "BASSA VAH LETTER E", aliases: &[] },
        Codepoint { codepoint: 0x16AED, name: "BASSA VAH LETTER I", aliases: &[] },
        Codepoint { codepoint: 0x16AF0, name: "BASSA VAH COMBINING HIGH TONE", aliases: &[] },
        Codepoint { codepoint: 0x16AF1, name: "BASSA VAH COMBINING LOW TONE", aliases: &[] },
        Codepoint { codepoint: 0x16AF2, name: "BASSA VAH COMBINING MID TONE", aliases: &[] },
        Codepoint { codepoint: 0x16AF3, name: "BASSA VAH COMBINING LOW-MID TONE", aliases: &[] },
        Codepoint { codepoint: 0x16AF4, name: "BASSA VAH COMBINING HIGH-LOW TONE", aliases: &[] },
        Codepoint { codepoint: 0x16AF5, name: "BASSA VAH FULL STOP", aliases: &[] },
        Codepoint { codepoint: 0x16B00, name: "PAHAWH HMONG VOWEL KEEB", aliases: &[] },
        Codepoint { codepoint: 0x16B01, name: "PAHAWH HMONG VOWEL KEEV", aliases: &[] },
        Codepoint { codepoint: 0x16B02, name: "PAHAWH HMONG VOWEL KIB", aliases: &[] },
        Codepoint { codepoint: 0x16B03, name: "PAHAWH HMONG VOWEL KIV", aliases: &[] },
        Codepoint { codepoint: 0x16B04, name: "PAHAWH HMONG VOWEL KAUB", aliases: &[] },
        Codepoint { codepoint: 0x16B05, name: "PAHAWH HMONG VOWEL KAUV", aliases: &[] },
        Codepoint { codepoint: 0x16B06, name: "PAHAWH HMONG VOWEL KUB", aliases: &[] },
        Codepoint { codepoint: 0x16B07, name: "PAHAWH HMONG VOWEL KUV", aliases: &[] },
        Codepoint { codepoint: 0x16B08, name: "PAHAWH HMONG VOWEL KEB", aliases: &[] },
        Codepoint { codepoint: 0x16B09, name: "PAHAWH HMONG VOWEL KEV", aliases: &[] },
        Codepoint { codepoint: 0x16B0A, name: "PAHAWH HMONG VOWEL KAIB", aliases: &[] },
        Codepoint { codepoint: 0x16B0B, name: "PAHAWH HMONG VOWEL KAIV", aliases: &[] },
        Codepoint { codepoint: 0x16B0C, name: "PAHAWH HMONG VOWEL KOOB", aliases: &[] },
        Codepoint { codepoint: 0x16B0D, name: "PAHAWH HMONG VOWEL KOOV", aliases: &[] },
        Codepoint { codepoint: 0x16B0E, name: "PAHAWH HMONG VOWEL KAWB", aliases: &[] },
        Codepoint { codepoint: 0x16B0F, name: "PAHAWH HMONG VOWEL KAWV", aliases: &[] },
        Codepoint { codepoint: 0x16B10, name: "PAHAWH HMONG VOWEL KUAB", aliases: &[] },
        Codepoint { codepoint: 0x16B11, name: "PAHAWH HMONG VOWEL KUAV", aliases: &[] },
        Codepoint { codepoint: 0x16B12, name: "PAHAWH HMONG VOWEL KOB", aliases: &[] },
        Codepoint { codepoint: 0x16B13, name: "PAHAWH HMONG VOWEL KOV", aliases: &[] },
        Codepoint { codepoint: 0x16B14, name: "PAHAWH HMONG VOWEL KIAB", aliases: &[] },
        Codepoint { codepoint: 0x16B15, name: "PAHAWH HMONG VOWEL KIAV", aliases: &[] },
        Codepoint { codepoint: 0x16B16, name: "PAHAWH HMONG VOWEL KAB", aliases: &[] },
        Codepoint { codepoint: 0x16B17, name: "PAHAWH HMONG VOWEL KAV", aliases: &[] },
        Codepoint { codepoint: 0x16B18, name: "PAHAWH HMONG VOWEL KWB", aliases: &[] },
        Codepoint { codepoint: 0x16B19, name: "PAHAWH HMONG VOWEL KWV", aliases: &[] },
        Codepoint { codepoint: 0x16B1A, name: "PAHAWH HMONG VOWEL KAAB", aliases: &[] },
        Codepoint { codepoint: 0x16B1B, name: "PAHAWH HMONG VOWEL KAAV", aliases: &[] },
        Codepoint { codepoint: 0x16B1C, name: "PAHAWH HMONG CONSONANT VAU", aliases: &[] },
    ]
}

fn all_codepoints_634() -> (v: Vec<Codepoint>)
    ensures
        v@ == codepoint_table_634(),
{
    let v = vec![
        Codepoint { codepoint: 0x16AE9, name: "BASSA VAH LETTER OO", aliases: &[] },
        Codepoint { codepoint: 0x16AEA, name: "BASSA VAH LETTER U", aliases: &[] },
        Codepoint { codepoint: 0x16AEB, name: "BASSA VAH LETTER EE", aliases: &[] },
        Codepoint { codepoint: 0x16AEC, name: "BASSA VAH LETTER E", aliases: &[] },
        Codepoint { codepoint: 0x16AED, name: "BASSA VAH LETTER I", aliases: &[] },
        Codepoint { codepoint: 0x16AF0, name: "BASSA VAH COMBINING HIGH TONE", aliases: &[] },
        Codepoint { codepoint: 0x16AF1, name: "BASSA VAH COMBINING LOW TONE", aliases: &[] },
        Codepoint { codepoint: 0x16AF2, name: "BASSA VAH COMBINING MID TONE", aliases: &[] },
        Codepoint { codepoint: 0x16AF3, name: "BASSA VAH COMBINING LOW-MID TONE", aliases: &[] },
        Codepoint { codepoint: 0x16AF4, name: "BASSA VAH COMBINING HIGH-LOW TONE", aliases: &[] },
        Codepoint { codepoint: 0x16AF5, name: "BASSA VAH FULL STOP", aliases: &[] },
        Codepoint { codepoint: 0x16B00, name: "PAHAWH HMONG VOWEL KEEB", aliases: &[] },
        Codepoint { codepoint: 0x16B01, name: "PAHAWH HMONG VOWEL KEEV", aliases: &[] },
        Codepoint { codepoint: 0x16B02, name: "PAHAWH HMONG VOWEL KIB", aliases: &[] },
        Codepoint { codepoint: 0x16B03, name: "PAHAWH HMONG VOWEL KIV", aliases: &[] },
        Codepoint { codepoint: 0x16B04, name: "PAHAWH HMONG VOWEL KAUB", aliases: &[] },
        Codepoint { codepoint: 0x16B05, name: "PAHAWH HMONG VOWEL KAUV", aliases: &[] },
        Codepoint { codepoint: 0x16B06, name: "PAHAWH HMONG VOWEL KUB", aliases: &[] },
        Codepoint { codepoint: 0x16B07, name: "PAHAWH HMONG VOWEL KUV", aliases: &[] },
        Codepoint { codepoint: 0x16B08, name: "PAHAWH HMONG VOWEL KEB", aliases: &[] },
        Codepoint { codepoint: 0x16B09, name: "PAHAWH HMONG VOWEL KEV", aliases: &[] },
        Codepoint { codepoint: 0x16B0A, name: "PAHAWH HMONG VOWEL KAIB", aliases: &[] },
        Codepoint { codepoint: 0x16B0B, name: "PAHAWH HMONG VOWEL KAIV", aliases: &[] },
        Codepoint { codepoint: 0x16B0C, name: "PAHAWH HMONG VOWEL KOOB", aliases: &[] },
        Codepoint { codepoint: 0x16B0D, name: "PAHAWH HMONG VOWEL KOOV", aliases: &[] },
        Codepoint { codepoint: 0x16B0E, name: "PAHAWH HMONG VOWEL KAWB", aliases: &[] },
        Codepoint { codepoint: 0x16B0F, name: "PAHAWH HMONG VOWEL KAWV", aliases: &[] },
        Codepoint { codepoint: 0x16B10, name: "PAHAWH HMONG VOWEL KUAB", aliases: &[] },
        Codepoint { codepoint: 0x16B11, name: "PAHAWH HMONG VOWEL KUAV", aliases: &[] },
        Codepoint { codepoint: 0x16B12, name: "PAHAWH HMONG VOWEL KOB", aliases: &[] },
        Codepoint { codepoint: 0x16B13, name: "PAHAWH HMONG VOWEL KOV", aliases: &[] },
        Codepoint { codepoint: 0x16B14, name: "PAHAWH HMONG VOWEL KIAB", aliases: &[] },
        Codepoint { codepoint: 0x16B15, name: "PAHAWH HMONG VOWEL KIAV", aliases: &[] },
        Codepoint { codepoint: 0x16B16, name: "PAHAWH HMONG VOWEL KAB", aliases: &[] },
        Codepoint { codepoint: 0x16B17, name: "PAHAWH HMONG VOWEL KAV", aliases: &[] },
        Codepoint { codepoint: 0x16B18, name: "PAHAWH HMONG VOWEL KWB", aliases: &[] },
        Codepoint { codepoint: 0x16B19, name: "PAHAWH HMONG VOWEL KWV", aliases: &[] },
        Codepoint { codepoint: 0x16B1A, name: "PAHAWH HMONG VOWEL KAAB", aliases: &[] },
        Codepoint { codepoint: 0x16B1B, name: "PAHAWH HMONG VOWEL KAAV", aliases: &[] },
        Codepoint { codepoint: 0x16B1C, name: "PAHAWH HMONG CONSONANT VAU", aliases: &[] },
    ];
    assert(v@ =~= codepoint_table_634());
    v
}

pub open spec fn codepoint_table_635() -> Seq<Codepoint> {
    seq![
        Codepoint { codepoint: 0x16B1D, name: "PAHAWH HMONG CONSONANT NTSAU", aliases: &[] },
        Codepoint { codepoint: 0x16B1E, name: "PAHAWH HMONG CONSONANT LAU", aliases: &[] },
        Codepoint { codepoint: 0x16B1F, name: "PAHAWH HMONG CONSONANT HAU", aliases: &[] },
        Codepoint { codepoint: 0x16B20, name: "PAHAWH HMONG CONSONANT NLAU", aliases: &[] },
        Codepoint { codepoint: 0x16B21, name: "PAHAWH HMONG CONSONANT RAU", aliases: &[] },
        Codepoint { codepoint: 0x16B22, name: "PAHAWH HMONG CONSONANT NKAU", aliases: &[] },
        Codepoint { codepoint: 0x16B23, name: "PAHAWH HMONG CONSONANT QHAU", aliases: &[] },
        Codepoint { codepoint: 0x16B24, name: "PAHAWH HMONG CONSONANT YAU", aliases: &[] },
        Codepoint { codepoint: 0x16B25, name: "PAHAWH HMONG CONSONANT HLAU", aliases: &[] },
        Codepoint { codepoint: 0x16B26, name: "PAHAWH HMONG CONSONANT MAU", aliases: &[] },
        Codepoint { codepoint: 0x16B27, name: "PAHAWH HMONG CONSONANT CHAU", aliases: &[] },
        Codepoint { codepoint: 0x16B28, name: "PAHAWH HMONG CONSONANT NCHAU", aliases: &[] },
        Codepoint { codepoint: 0x16B29, name: "PAHAWH HMONG CONSONANT HNAU", aliases: &[] },
        Codepoint { codepoint: 0x16B2A, name: "PAHAWH HMONG CONSONANT PLHAU", aliases: &[] },
        Codepoint { codepoint: 0x16B2B, name: "PAHAWH HMONG CONSONANT NTHAU", aliases: &[] },
        Codepoint { codepoint: 0x16B2C, name: "PAHAWH HMONG CONSONANT NAU", aliases: &[] },
        Codepoint { codepoint: 0x16B2D, name: "PAHAWH HMONG CONSONANT AU", aliases: &[] },
        Codepoint { codepoint: 0x16B2E, name: "PAHAWH HMONG CONSONANT XAU", aliases: &[] },
        Codepoint { codepoint: 0x16B2F, name: "PAHAWH HMONG CONSONANT CAU", aliases: &[] },
        Codepoint { codepoint: 0x16B30, name: "PAHAWH HMONG MARK CIM TUB", aliases: &[] },
        Codepoint { codepoint: 0x16B31, name: "PAHAWH HMONG MARK CIM SO", aliases: &[] },
        Codepoint { codepoint: 0x16B32, name: "PAHAWH HMONG MARK CIM KES", aliases: &[] },
        Codepoint { codepoint: 0x16B33, name: "PAHAWH HMONG MARK CIM KHAV", aliases: &[] },
        Codepoint { codepoint: 0x16B34, name: "PAHAWH HMONG MARK CIM SUAM", aliases: &[] },
        Codepoint { codepoint: 0x16B35, name: "PAHAWH HMONG MARK CIM HOM", aliases: &[] },
        Codepoint { codepoint: 0x16B36, name: "PAHAWH HMONG MARK CIM TAUM", aliases: &[] },
        Codepoint { codepoint: 0x16B37, name: "PAHAWH HMONG SIGN VOS THOM", aliases: &[] },
        Codepoint { codepoint: 0x16B38, name: "PAHAWH HMONG SIGN VOS TSHAB CEEB", aliases: &[] },
        Codepoint { codepoint: 0x16B39, name: "PAHAWH HMONG SIGN CIM CHEEM", aliases: &[] },
        Codepoint { codepoint: 0x16B3A, name: "PAHAWH HMONG SIGN VOS THIAB", aliases: &[] },
        Codepoint { codepoint: 0x16B3B, name: "PAHAWH HMONG SIGN VOS FEEM", aliases: &[] },
        Codepoint { codepoint: 0x16B3C, name: "PAHAWH HMONG SIGN XYEEM NTXIV", aliases: &[] },
        Codepoint { codepoint: 0x16B3D, name: "PAHAWH HMONG SIGN XYEEM RHO", aliases: &[] },
        Codepoint { codepoint: 0x16B3E, name: "PAHAWH HMONG SIGN XYEEM TOV", aliases: &[] },
        Codepoint { codepoint: 0x16B3F, name: "PAHAWH HMONG SIGN XYEEM FAIB", aliases: &[] },
        Codepoint { codepoint: 0x16B40, name: "PAHAWH HMONG SIGN VOS SEEV", aliases: &[] },
        Codepoint { codepoint: 0x16B41, name: "PAHAWH HMONG SIGN MEEJ SUAB", aliases: &[] },
        Codepoint { codepoint: 0x16B42, name: "PAHAWH HMONG SIGN VOS NRUA", aliases: &[] },
        Codepoint { codepoint: 0x16B43, name: "PAHAWH HMONG SIGN IB YAM", aliases: &[] },
        Codepoint { codepoint: 0x16B44, name: "PAHAWH HMONG SIGN XAUS", aliases: &[] },
    ]
}

fn all_codepoints_635() -> (v: Vec<Codepoint>)
    ensures
        v@ == codepoint_table_635(),
{
    let v = vec![
        Codepoint { codepoint: 0x16B1D, name: "PAHAWH HMONG CONSONANT NTSAU", aliases: &[] },
        Codepoint { codepoint: 0x16B1E, name: "PAHAWH HMONG CONSONANT LAU", aliases: &[] },
        Codepoint { codepoint: 0x16B1F, name: "PAHAWH HMONG CONSONANT HAU", aliases: &[] },
        Codepoint { codepoint: 0x16B20, name: "PAHAWH HMONG CONSONANT NLAU", aliases: &[] },
        Codepoint { codepoint: 0x16B21, name: "PAHAWH HMONG CONSONANT RAU", aliases: &[] },
        Codepoint { codepoint: 0x16B22, name: "PAHAWH HMONG CONSONANT NKAU", aliases: &[] },
        Codepoint { codepoint: 0x16B23, name: "PAHAWH HMONG CONSONANT QHAU", aliases: &[] },
        Codepoint { codepoint: 0x16B24, name: "PAHAWH HMONG CONSONANT YAU", aliases: &[] },
        Codepoint { codepoint: 0x16B25, name: "PAHAWH HMONG CONSONANT HLAU", aliases: &[] },
        Codepoint { codepoint: 0x16B26, name: "PAHAWH HMONG CONSONANT MAU", aliases: &[] },
        Codepoint { codepoint: 0x16B27, name: "PAHAWH HMONG CONSONANT CHAU", aliases: &[] },
        Codepoint { codepoint: 0x16B28, name: "PAHAWH HMONG CONSONANT NCHAU", aliases: &[] },
        Codepoint { codepoint: 0x16B29, name: "PAHAWH HMONG CONSONANT HNAU", aliases: &[] },
        Codepoint { codepoint: 0x16B2A, name: "PAHAWH HMONG CONSONANT PLHAU", aliases: &[] },
        Codepoint { codepoint: 0x16B2B, name: "PAHAWH HMONG CONSONANT NTHAU", aliases: &[] },
        Codepoint { codepoint: 0x16B2C, name: "PAHAWH HMONG CONSONANT NAU", aliases: &[] },
        Codepoint { codepoint: 0x16B2D, name: "PAHAWH HMONG CONSONANT AU", aliases: &[] },
        Codepoint { codepoint: 0x16B2E, name: "PAHAWH HMONG CONSONANT XAU", aliases: &[] },
        Codepoint { codepoint: 0x16B2F, name: "PAHAWH HMONG CONSONANT CAU", aliases: &[] },
        Codepoint { codepoint: 0x16B30, name: "PAHAWH HMONG MARK CIM TUB", aliases: &[] },
        Codepoint { codepoint: 0x16B31, name: "PAHAWH HMONG MARK CIM SO", aliases: &[] },
        Codepoint { codepoint: 0x16B32, name: "PAHAWH HMONG MARK CIM KES", aliases: &[] },
        Codepoint { codepoint: 0x16B33, name: "PAHAWH HMONG MARK CIM KHAV", aliases: &[] },
        Codepoint { codepoint: 0x16B34, name: "PAHAWH HMONG MARK CIM SUAM", aliases: &[] },
        Codepoint { codepoint: 0x16B35, name: "PAHAWH HMONG MARK CIM HOM", aliases: &[] },
        Codepoint { codepoint: 0x16B36, name: "PAHAWH HMONG MARK CIM TAUM", aliases: &[] },
        Codepoint { codepoint: 0x16B37, name: "PAHAWH HMONG SIGN VOS THOM", aliases: &[] },
        Codepoint { codepoint: 0x16B38, name: "PAHAWH HMONG SIGN VOS TSHAB CEEB", aliases: &[] },
        Codepoint { codepoint: 0x16B39, name: "PAHAWH HMONG SIGN CIM CHEEM", aliases: &[] },
        Codepoint { codepoint: 0x16B3A, name: "PAHAWH HMONG SIGN VOS THIAB", aliases: &[] },
        Codepoint { codepoint: 0x16B3B, name: "PAHAWH HMONG SIGN VOS FEEM", aliases: &[] },
        Codepoint { codepoint: 0x16B3C, name: "PAHAWH HMONG SIGN XYEEM NTXIV", aliases: &[] },
        Codepoint { codepoint: 0x16B3D, name: "PAHAWH HMONG SIGN XYEEM RHO", aliases: &[] },
        Codepoint { codepoint: 0x16B3E, name: "PAHAWH HMONG SIGN XYEEM TOV", aliases: &[] },
        Codepoint { codepoint: 0x16B3F, name: "PAHAWH HMONG SIGN XYEEM FAIB", aliases: &[] },
        Codepoint { codepoint: 0x16B40, name: "PAHAWH HMONG SIGN VOS SEEV", aliases: &[] },
        Codepoint { codepoint: 0x16B41, name: "PAHAWH HMONG SIGN MEEJ SUAB", aliases: &[] },
        Codepoint { codepoint: 0x16B42, name: "PAHAWH HMONG SIGN VOS NRUA", aliases: &[] },
        Codepoint { codepoint: 0x16B43, name: "PAHAWH HMONG SIGN IB YAM", aliases: &[] },
        Codepoint { codepoint: 0x16B44, name: "PAHAWH HMONG SIGN XAUS", aliases: &[] },
    ];
    assert(v@ =~= codepoint_table_635());
    v
}

pub open spec fn codepoint_table_636() -> Seq<Codepoint> {
    seq![
        Codepoint { codepoint: 0x16B45, name: "PAHAWH HMONG SIGN CIM TSOV ROG", aliases: &[] },
        Codepoint { codepoint: 0x16B50, name: "PAHAWH HMONG DIGIT ZERO", aliases: &[] },
        Codepoint { codepoint: 0x16B51, name: "PAHAWH HMONG DIGIT ONE", aliases: &[] },
        Codepoint { codepoint: 0x16B52, name: "PAHAWH HMONG DIGIT TWO", aliases: &[] },
        Codepoint { codepoint: 0x16B53, name: "PAHAWH HMONG DIGIT THREE", aliases: &[] },
        Codepoint { codepoint: 0x16B54, name: "PAHAWH HMONG DIGIT FOUR", aliases: &[] },
        Codepoint { codepoint: 0x16B55, name: "PAHAWH HMONG DIGIT FIVE", aliases: &[] },
        Codepoint { codepoint: 0x16B56, name: "PAHAWH HMONG DIGIT SIX", aliases: &[] },
        Codepoint { codepoint: 0x16B57, name: "PAHAWH HMONG DIGIT SEVEN", aliases: &[] },
        Codepoint { codepoint: 0x16B58, name: "PAHAWH HMONG DIGIT EIGHT", aliases: &[] },
        Codepoint { codepoint: 0x16B59, name: "PAHAWH HMONG DIGIT NINE", aliases: &[] },
        Codepoint { codepoint: 0x16B5B, name: "PAHAWH HMONG NUMBER TENS", aliases: &[] },
        Codepoint { codepoint: 0x16B5C, name: "PAHAWH HMONG NUMBER HUNDREDS", aliases: &[] },
        Codepoint { codepoint: 0x16B5D, name: "PAHAWH HMONG NUMBER TEN THOUSANDS", aliases: &[] },
        Codepoint { codepoint: 0x16B5E, name: "PAHAWH HMONG NUMBER MILLIONS", aliases: &[] },
        Codepoint { codepoint: 0x16B5F, name: "PAHAWH HMONG NUMBER HUNDRED MILLIONS", aliases: &[] },
        Codepoint { codepoint: 0x16B60, name: "PAHAWH HMONG NUMBER TEN BILLIONS", aliases: &[] },
        Codepoint { codepoint: 0x16B61, name: "PAHAWH HMONG NUMBER TRILLIONS", aliases: &[] },
        Codepoint { codepoint: 0x16B63, name: "PAHAWH HMONG SIGN VOS LUB", aliases: &[] },
        Codepoint { codepoint: 0x16B64, name: "PAHAWH HMONG SIGN XYOO", aliases: &[] },
        Codepoint { codepoint: 0x16B65, name: "PAHAWH HMONG SIGN HLI", aliases: &[] },
        Codepoint { codepoint: 0x16B66, name: "PAHAWH HMONG SIGN THIRD-STAGE HLI", aliases: &[] },
        Codepoint { codepoint: 0x16B67, name: "PAHAWH HMONG SIGN ZWJ THAJ", aliases: &[] },
        Codepoint { codepoint: 0x16B68, name: "PAHAWH HMONG SIGN HNUB", aliases: &[] },
        Codepoint { codepoint: 0x16B69, name: "PAHAWH HMONG SIGN NQIG", aliases: &[] },
        Codepoint { codepoint: 0x16B6A, name: "PAHAWH HMONG SIGN XIAB", aliases: &[] },
        Codepoint { codepoint: 0x16B6B, name: "PAHAWH HMONG SIGN NTUJ", aliases: &[] },
        Codepoint { codepoint: 0x16B6C, name: "PAHAWH HMONG SIGN AV", aliases: &[] },
        Codepoint { codepoint: 0x16B6D, name: "PAHAWH HMONG SIGN TXHEEJ CEEV", aliases: &[] },
        Codepoint { codepoint: 0x16B6E, name: "PAHAWH HMONG SIGN MEEJ TSEEB", aliases: &[] },
        Codepoint { codepoint: 0x16B6F, name: "PAHAWH HMONG SIGN TAU", aliases: &[] },
        Codepoint { codepoint: 0x16B70, name: "PAHAWH HMONG SIGN LOS", aliases: &[] },
        Codepoint { codepoint: 0x16B71, name: "PAHAWH HMONG SIGN MUS", aliases: &[] },
        Codepoint { codepoint: 0x16B72, name: "PAHAWH HMONG SIGN CIM HAIS LUS NTOG NTOG", aliases: &[] },
        Codepoint { codepoint: 0x16B73, name: "PAHAWH HMONG SIGN CIM CUAM TSHOOJ", aliases: &[] },
        Codepoint { codepoint: 0x16B74, name: "PAHAWH HMONG SIGN CIM TXWV", aliases: &[] },
        Codepoint { codepoint: 0x16B75, name: "PAHAWH HMONG SIGN CIM TXWV CHWV", aliases: &[] },
        Codepoint { codepoint: 0x16B76, name: "PAHAWH HMONG SIGN CIM PUB DAWB", aliases: &[] },
        Codepoint { codepoint: 0x16B77, name: "PAHAWH HMONG SIGN CIM NRES TOS", aliases: &[] },
        Codepoint { codepoint: 0x16B7D, name: "PAHAWH HMONG CLAN SIGN TSHEEJ", aliases: &[] },
    ]
}

fn all_codepoints_636() -> (v: Vec<Codepoint>)
    ensures
        v@ == codepoint_table_636(),
{
    let v = vec![
        Codepoint { codepoint: 0x16B45, name: "PAHAWH HMONG SIGN CIM TSOV ROG", aliases: &[] },
        Codepoint { codepoint: 0x16B50, name: "PAHAWH HMONG DIGIT ZERO", aliases: &[] },
        Codepoint { codepoint: 0x16B51, name: "PAHAWH HMONG DIGIT ONE", aliases: &[] },
        Codepoint { codepoint: 0x16B52, name: "PAHAWH HMONG DIGIT TWO", aliases: &[] },
        Codepoint { codepoint: 0x16B53, name: "PAHAWH HMONG DIGIT THREE", aliases: &[] },
        Codepoint { codepoint: 0x16B54, name: "PAHAWH HMONG DIGIT FOUR", aliases: &[] },
        Codepoint { codepoint: 0x16B55, name: "PAHAWH HMONG DIGIT FIVE", aliases: &[] },
        Codepoint { codepoint: 0x16B56, name: "PAHAWH HMONG DIGIT SIX", aliases: &[] },
        Codepoint { codepoint: 0x16B57, name: "PAHAWH HMONG DIGIT SEVEN", aliases: &[] },
        Codepoint { codepoint: 0x16B58, name: "PAHAWH HMONG DIGIT EIGHT", aliases: &[] },
        Codepoint { codepoint: 0x16B59, name: "PAHAWH HMONG DIGIT NINE", aliases: &[] },
        Codepoint { codepoint: 0x16B5B, name: "PAHAWH HMONG NUMBER TENS", aliases: &[] },
        Codepoint { codepoint: 0x16B5C, name: "PAHAWH HMONG NUMBER HUNDREDS", aliases: &[] },
        Codepoint { codepoint: 0x16B5D, name: "PAHAWH HMONG NUMBER TEN THOUSANDS", aliases: &[] },
        Codepoint { codepoint: 0x16B5E, name: "PAHAWH HMONG NUMBER MILLIONS", aliases: &[] },
        Codepoint { codepoint: 0x16B5F, name: "PAHAWH HMONG NUMBER HUNDRED MILLIONS", aliases: &[] },
        Codepoint { codepoint: 0x16B60, name: "PAHAWH HMONG NUMBER TEN BILLIONS", aliases: &[] },
        Codepoint { codepoint: 0x16B61, name: "PAHAWH HMONG NUMBER TRILLIONS", aliases: &[] },
        Codepoint { codepoint: 0x16B63, name: "PAHAWH HMONG SIGN VOS LUB", aliases: &[] },
        Codepoint { codepoint: 0x16B64, name: "PAHAWH HMONG SIGN XYOO", aliases: &[] },
        Codepoint { codepoint: 0x16B65, name: "PAHAWH HMONG SIGN HLI", aliases: &[] },
        Codepoint { codepoint: 0x16B66, name: "PAHAWH HMONG SIGN THIRD-STAGE HLI", aliases: &[] },
        Codepoint { codepoint: 0x16B67, name: "PAHAWH HMONG SIGN ZWJ THAJ", aliases: &[] },
        Codepoint { codepoint: 0x16B68, name: "PAHAWH HMONG SIGN HNUB", aliases: &[] },
        Codepoint { codepoint: 0x16B69, name: "PAHAWH HMONG SIGN NQIG", aliases: &[] },
        Codepoint { codepoint: 0x16B6A, name: "PAHAWH HMONG SIGN XIAB", aliases: &[] },
        Codepoint { codepoint: 0x16B6B, name: "PAHAWH HMONG SIGN NTUJ", aliases: &[] },
        Codepoint { codepoint: 0x16B6C, name: "PAHAWH HMONG SIGN AV", aliases: &[] },
        Codepoint { codepoint: 0x16B6D, name: "PAHAWH HMONG SIGN TXHEEJ CEEV", aliases: &[] },
        Codepoint { codepoint: 0x16B6E, name: "PAHAWH HMONG SIGN MEEJ TSEEB", aliases: &[] },
        Codepoint { codepoint: 0x16B6F, name: "PAHAWH HMONG SIGN TAU", aliases: &[] },
        Codepoint { codepoint: 0x16B70, name: "PAHAWH HMONG SIGN LOS", aliases: &[] },
        Codepoint { codepoint: 0x16B71, name: "PAHAWH HMONG SIGN MUS", aliases: &[] },
        Codepoint { codepoint: 0x16B72, name: "PAHAWH HMONG SIGN CIM HAIS LUS NTOG NTOG", aliases: &[] },
        Codepoint { codepoint: 0x16B73, name: "PAHAWH HMONG SIGN CIM CUAM TSHOOJ", aliases: &[] },
        Codepoint { codepoint: 0x16B74, name: "PAHAWH HMONG SIGN CIM TXWV", aliases: &[] },
        Codepoint { codepoint: 0x16B75, name: "PAHAWH HMONG SIGN CIM TXWV CHWV", aliases: &[] },
        Codepoint { codepoint: 0x16B76, name: "PAHAWH HMONG SIGN CIM PUB DAWB", aliases: &[] },
        Codepoint { codepoint: 0x16B77, name: "PAHAWH HMONG SIGN CIM NRES TOS", aliases: &[] },
        Codepoint { codepoint: 0x16B7D, name: "PAHAWH HMONG CLAN SIGN TSHEEJ", aliases: &[] },
    ];
    assert(v@ =~= codepoint_table_636());
    v
}

pub open spec fn codepoint_table_637() -> Seq<Codepoint> {
    seq![
        Codepoint { codepoint: 0x16B7E, name: "PAHAWH HMONG CLAN SIGN YEEG", aliases: &[] },
        Codepoint { codepoint: 0x16B7F, name: "PAHAWH HMONG CLAN SIGN LIS", aliases: &[] },
        Codepoint { codepoint: 0x16B80, name: "PAHAWH HMONG CLAN SIGN LAUJ", aliases: &[] },
        Codepoint { codepoint: 0x16B81, name: "PAHAWH HMONG CLAN SIGN XYOOJ", aliases: &[] },
        Codepoint { codepoint: 0x16B82, name: "PAHAWH HMONG CLAN SIGN KOO", aliases: &[] },
        Codepoint { codepoint: 0x16B83, name: "PAHAWH HMONG CLAN SIGN HAWJ", aliases: &[] },
        Codepoint { codepoint: 0x16B84, name: "PAHAWH HMONG CLAN SIGN MUAS", aliases: &[] },
        Codepoint { codepoint: 0x16B85, name: "PAHAWH HMONG CLAN SIGN THOJ", aliases: &[] },
        Codepoint { codepoint: 0x16B86, name: "PAHAWH HMONG CLAN SIGN TSAB", aliases: &[] },
        Codepoint { codepoint: 0x16B87, name: "PAHAWH HMONG CLAN SIGN PHAB", aliases: &[] },
        Codepoint { codepoint: 0x16B88, name: "PAHAWH HMONG CLAN SIGN KHAB", aliases: &[] },
        Codepoint { codepoint: 0x16B89, name: "PAHAWH HMONG CLAN SIGN HAM", aliases: &[] },
        Codepoint { codepoint: 0x16B8A, name: "PAHAWH HMONG CLAN SIGN VAJ", aliases: &[] },
        Codepoint { codepoint: 0x16B8B, name: "PAHAWH HMONG CLAN SIGN FAJ", aliases: &[] },
        Codepoint { codepoint: 0x16B8C, name: "PAHAWH HMONG CLAN SIGN YAJ", aliases: &[] },
        Codepoint { codepoint: 0x16B8D, name: "PAHAWH HMONG CLAN SIGN TSWB", aliases: &[] },
        Codepoint { codepoint: 0x16B8E, name: "PAHAWH HMONG CLAN SIGN KWM", aliases: &[] },
        Codepoint { codepoint: 0x16B8F, name: "PAHAWH HMONG CLAN SIGN VWJ", aliases: &[] },
        Codepoint { codepoint: 0x16E40, name: "MEDEFAIDRIN CAPITAL LETTER M", aliases: &[] },
        Codepoint { codepoint: 0x16E41, name: "MEDEFAIDRIN CAPITAL LETTER S", aliases: &[] },
        Codepoint { codepoint: 0x16E42, name: "MEDEFAIDRIN CAPITAL LETTER V", aliases: &[] },
        Codepoint { codepoint: 0x16E43, name: "MEDEFAIDRIN CAPITAL LETTER W", aliases: &[] },
        Codepoint { codepoint: 0x16E44, name: "MEDEFAIDRIN CAPITAL LETTER ATIU", aliases: &[] },
        Codepoint { codepoint: 0x16E45, name: "MEDEFAIDRIN CAPITAL LETTER Z", aliases: &[] },
        Codepoint { codepoint: 0x16E46, name: "MEDEFAIDRIN CAPITAL LETTER KP", aliases: &[] },
        Codepoint { codepoint: 0x16E47, name: "MEDEFAIDRIN CAPITAL LETTER P", aliases: &[] },
        Codepoint { codepoint: 0x16E48, name: "MEDEFAIDRIN CAPITAL LETTER T", aliases: &[] },
        Codepoint { codepoint: 0x16E49, name: "MEDEFAIDRIN CAPITAL LETTER G", aliases: &[] },
        Codepoint { codepoint: 0x16E4A, name: "MEDEFAIDRIN CAPITAL LETTER F", aliases: &[] },
        Codepoint { codepoint: 0x16E4B, name: "MEDEFAIDRIN CAPITAL LETTER I", aliases: &[] },
        Codepoint { codepoint: 0x16E4C, name: "MEDEFAIDRIN CAPITAL LETTER K", aliases: &[] },
        Codepoint { codepoint: 0x16E4D, name: "MEDEFAIDRIN CAPITAL LETTER A", aliases: &[] },
        Codepoint { codepoint: 0x16E4E, name: "MEDEFAIDRIN CAPITAL LETTER J", aliases: &[] },
        Codepoint { codepoint: 0x16E4F, name: "MEDEFAIDRIN CAPITAL LETTER E", aliases: &[] },
        Codepoint { codepoint: 0x16E50, name: "MEDEFAIDRIN CAPITAL LETTER B", aliases: &[] },
        Codepoint { codepoint: 0x16E51, name: "MEDEFAIDRIN CAPITAL LETTER C", aliases: &[] },
        Codepoint { codepoint: 0x16E52, name: "MEDEFAIDRIN CAPITAL LETTER U", aliases: &[] },
        Codepoint { codepoint: 0x16E53, name: "MEDEFAIDRIN CAPITAL LETTER YU", aliases: &[] },
        Codepoint { codepoint: 0x16E54, name: "MEDEFAIDRIN CAPITAL LETTER L", aliases: &[] },
        Codepoint { codepoint: 0x16E55, name: "MEDEFAIDRIN CAPITAL LETTER Q", aliases: &[] },
    ]
}

fn all_codepoints_637() -> (v: Vec<Codepoint>)
    ensures
        v@ == codepoint_table_637(),
{
    let v = vec![
        Codepoint { codepoint: 0x16B7E, name: "PAHAWH HMONG CLAN SIGN YEEG", aliases: &[] },
        Codepoint { codepoint: 0x16B7F, name: "PAHAWH HMONG CLAN SIGN LIS", aliases: &[] },
        Codepoint { codepoint: 0x16B80, name: "PAHAWH HMONG CLAN SIGN LAUJ", aliases: &[] },
        Codepoint { codepoint: 0x16B81, name: "PAHAWH HMONG CLAN SIGN XYOOJ", aliases: &[] },
        Codepoint { codepoint: 0x16B82, name: "PAHAWH HMONG CLAN SIGN KOO", aliases: &[] },
        Codepoint { codepoint: 0x16B83, name: "PAHAWH HMONG CLAN SIGN HAWJ", aliases: &[] },
        Codepoint { codepoint: 0x16B84, name: "PAHAWH HMONG CLAN SIGN MUAS", aliases: &[] },
        Codepoint { codepoint: 0x16B85, name: "PAHAWH HMONG CLAN SIGN THOJ", aliases: &[] },
        Codepoint { codepoint: 0x16B86, name: "PAHAWH HMONG CLAN SIGN TSAB", aliases: &[] },
        Codepoint { codepoint: 0x16B87, name: "PAHAWH HMONG CLAN SIGN PHAB", aliases: &[] },
        Codepoint { codepoint: 0x16B88, name: "PAHAWH HMONG CLAN SIGN KHAB", aliases: &[] },
        Codepoint { codepoint: 0x16B89, name: "PAHAWH HMONG CLAN SIGN HAM", aliases: &[] },
        Codepoint { codepoint: 0x16B8A, name: "PAHAWH HMONG CLAN SIGN VAJ", aliases: &[] },
        Codepoint { codepoint: 0x16B8B, name: "PAHAWH HMONG CLAN SIGN FAJ", aliases: &[] },
        Codepoint { codepoint: 0x16B8C, name: "PAHAWH HMONG CLAN SIGN YAJ", aliases: &[] },
        Codepoint { codepoint: 0x16B8D, name: "PAHAWH HMONG CLAN SIGN TSWB", aliases: &[] },
        Codepoint { codepoint: 0x16B8E, name: "PAHAWH HMONG CLAN SIGN KWM", aliases: &[] },
        Codepoint { codepoint: 0x16B8F, name: "PAHAWH HMONG CLAN SIGN VWJ", aliases: &[] },
        Codepoint { codepoint: 0x16E40, name: "MEDEFAIDRIN CAPITAL LETTER M", aliases: &[] },
        Codepoint { codepoint: 0x16E41, name: "MEDEFAIDRIN CAPITAL LETTER S", aliases: &[] },
        Codepoint { codepoint: 0x16E42, name: "MEDEFAIDRIN CAPITAL LETTER V", aliases: &[] },
        Codepoint { codepoint: 0x16E43, name: "MEDEFAIDRIN CAPITAL LETTER W", aliases: &[] },
        Codepoint { codepoint: 0x16E44, name: "MEDEFAIDRIN CAPITAL LETTER ATIU", aliases: &[] },
        Codepoint { codepoint: 0x16E45, name: "MEDEFAIDRIN CAPITAL LETTER Z", aliases: &[] },
        Codepoint { codepoint: 0x16E46, name: "MEDEFAIDRIN CAPITAL LETTER KP", aliases: &[] },
        Codepoint { codepoint: 0x16E47, name: "MEDEFAIDRIN CAPITAL LETTER P", aliases: &[] },
        Codepoint { codepoint: 0x16E48, name: "MEDEFAIDRIN CAPITAL LETTER T", aliases: &[] },
        Codepoint { codepoint: 0x16E49, name: "MEDEFAIDRIN CAPITAL LETTER G", aliases: &[] },
        Codepoint { codepoint: 0x16E4A, name: "MEDEFAIDRIN CAPITAL LETTER F", aliases: &[] },
        Codepoint { codepoint: 0x16E4B, name: "MEDEFAIDRIN CAPITAL LETTER I", aliases: &[] },
        Codepoint { codepoint: 0x16E4C, name: "MEDEFAIDRIN CAPITAL LETTER K", aliases: &[] },
        Codepoint { codepoint: 0x16E4D, name: "MEDEFAIDRIN CAPITAL LETTER A", aliases: &[] },
        Codepoint { codepoint: 0x16E4E, name: "MEDEFAIDRIN CAPITAL LETTER J", aliases: &[] },
        Codepoint { codepoint: 0x16E4F, name: "MEDEFAIDRIN CAPITAL LETTER E", aliases: &[] },
        Codepoint { codepoint: 0x16E50, name: "MEDEFAIDRIN CAPITAL LETTER B", aliases: &[] },
        Codepoint { codepoint: 0x16E51, name: "MEDEFAIDRIN CAPITAL LETTER C", aliases: &[] },
        Codepoint { codepoint: 0x16E52, name: "MEDEFAIDRIN CAPITAL LETTER U", aliases: &[] },
        Codepoint { codepoint: 0x16E53, name: "MEDEFAIDRIN CAPITAL LETTER YU", aliases: &[] },
        Codepoint { codepoint: 0x16E54, name: "MEDEFAIDRIN CAPITAL LETTER L", aliases: &[] },
        Codepoint { codepoint: 0x16E55, name: "MEDEFAIDRIN CAPITAL LETTER Q", aliases: &[] },
    ];
    assert(v@ =~= codepoint_table_637());
    v
}

pub open spec fn codepoint_table_638() -> Seq<Codepoint> {
    seq![
        Codepoint { codepoint: 0x16E56, name: "MEDEFAIDRIN CAPITAL LETTER HP", aliases: &[] },
        Codepoint { codepoint: 0x16E57, name: "MEDEFAIDRIN CAPITAL LETTER NY", aliases: &[] },
        Codepoint { codepoint: 0x16E58, name: "MEDEFAIDRIN CAPITAL LETTER X", aliases: &[] },
        Codepoint { codepoint: 0x16E59, name: "MEDEFAIDRIN CAPITAL LETTER D", aliases: &[] },
        Codepoint { codepoint: 0x16E5A, name: "MEDEFAIDRIN CAPITAL LETTER OE", aliases: &[] },
        Codepoint { codepoint: 0x16E5B, name: "MEDEFAIDRIN CAPITAL LETTER N", aliases: &[] },
        Codepoint { codepoint: 0x16E5C, name: "MEDEFAIDRIN CAPITAL LETTER R", aliases: &[] },
        Codepoint { codepoint: 0x16E5D, name: "MEDEFAIDRIN CAPITAL LETTER O", aliases: &[] },
        Codepoint { codepoint: 0x16E5E, name: "MEDEFAIDRIN CAPITAL LETTER AI", aliases: &[] },
        Codepoint { codepoint: 0x16E5F, name: "MEDEFAIDRIN CAPITAL LETTER Y", aliases: &[] },
        Codepoint { codepoint: 0x16E60, name: "MEDEFAIDRIN SMALL LETTER M", aliases: &[] },
        Codepoint { codepoint: 0x16E61, name: "MEDEFAIDRIN SMALL LETTER S", aliases: &[] },
        Codepoint { codepoint: 0x16E62, name: "MEDEFAIDRIN SMALL LETTER V", aliases: &[] },
        Codepoint { codepoint: 0x16E63, name: "MEDEFAIDRIN SMALL LETTER W", aliases: &[] },
        Codepoint { codepoint: 0x16E64, name: "MEDEFAIDRIN SMALL LETTER ATIU", aliases: &[] },
        Codepoint { codepoint: 0x16E65, name: "MEDEFAIDRIN SMALL LETTER Z", aliases: &[] },
        Codepoint { codepoint: 0x16E66, name: "MEDEFAIDRIN SMALL LETTER KP", aliases: &[] },
        Codepoint { codepoint: 0x16E67, name: "MEDEFAIDRIN SMALL LETTER P", aliases: &[] },
        Codepoint { codepoint: 0x16E68, name: "MEDEFAIDRIN SMALL LETTER T", aliases: &[] },
        Codepoint { codepoint: 0x16E69, name: "MEDEFAIDRIN SMALL LETTER G", aliases: &[] },
        Codepoint { codepoint: 0x16E6A, name: "MEDEFAIDRIN SMALL LETTER F", aliases: &[] },
        Codepoint { codepoint: 0x16E6B, name: "MEDEFAIDRIN SMALL LETTER I", aliases: &[] },
        Codepoint { codepoint: 0x16E6C, name: "MEDEFAIDRIN SMALL LETTER K", aliases: &[] },
        Codepoint { codepoint: 0x16E6D, name: "MEDEFAIDRIN SMALL LETTER A", aliases: &[] },
        Codepoint { codepoint: 0x16E6E, name: "MEDEFAIDRIN SMALL LETTER J", aliases: &[] },
        Codepoint { codepoint: 0x16E6F, name: "MEDEFAIDRIN SMALL LETTER E", aliases: &[] },
        Codepoint { codepoint: 0x16E70, name: "MEDEFAIDRIN SMALL LETTER B", aliases: &[] },
        Codepoint { codepoint: 0x16E71, name: "MEDEFAIDRIN SMALL LETTER C", aliases: &[] },
        Codepoint { codepoint: 0x16E72, name: "MEDEFAIDRIN SMALL LETTER U", aliases: &[] },
        Codepoint { codepoint: 0x16E73, name: "MEDEFAIDRIN SMALL LETTER YU", aliases: &[] },
        Codepoint { codepoint: 0x16E74, name: "MEDEFAIDRIN SMALL LETTER L", aliases: &[] },
        Codepoint { codepoint: 0x16E75, name: "MEDEFAIDRIN SMALL LETTER Q", aliases: &[] },
        Codepoint { codepoint: 0x16E76, name: "MEDEFAIDRIN SMALL LETTER HP", aliases: &[] },
        Codepoint { codepoint: 0x16E77, name: "MEDEFAIDRIN SMALL LETTER NY", aliases: &[] },
        Codepoint { codepoint: 0x16E78, name: "MEDEFAIDRIN SMALL LETTER X", aliases: &[] },
        Codepoint { codepoint: 0x16E79, name: "MEDEFAIDRIN SMALL LETTER D", aliases: &[] },
        Codepoint { codepoint: 0x16E7A, name: "MEDEFAIDRIN SMALL LETTER OE", aliases: &[] },
        Codepoint { codepoint: 0x16E7B, name: "MEDEFAIDRIN SMALL LETTER N", aliases: &[] },
        Codepoint { codepoint: 0x16E7C, name: "MEDEFAIDRIN SMALL LETTER R", aliases: &[] },
        Codepoint { codepoint: 0x16E7D, name: "MEDEFAIDRIN SMALL LETTER O", aliases: &[] },
    ]
}

fn all_codepoints_638() -> (v: Vec<Codepoint>)
    ensures
        v@ == codepoint_table_638(),
{
    let v = vec![
        Codepoint { codepoint: 0x16E56, name: "MEDEFAIDRIN CAPITAL LETTER HP", aliases: &[] },
        Codepoint { codepoint: 0x16E57, name: "MEDEFAIDRIN CAPITAL LETTER NY", aliases: &[] },
        Codepoint { codepoint: 0x16E58, name: "MEDEFAIDRIN CAPITAL LETTER X", aliases: &[] },
        Codepoint { codepoint: 0x16E59, name: "MEDEFAIDRIN CAPITAL LETTER D", aliases: &[] },
        Codepoint { codepoint: 0x16E5A, name: "MEDEFAIDRIN CAPITAL LETTER OE", aliases: &[] },
        Codepoint { codepoint: 0x16E5B, name: "MEDEFAIDRIN CAPITAL LETTER N", aliases: &[] },
        Codepoint { codepoint: 0x16E5C, name: "MEDEFAIDRIN CAPITAL LETTER R", aliases: &[] },
        Codepoint { codepoint: 0x16E5D, name: "MEDEFAIDRIN CAPITAL LETTER O", aliases: &[] },
        Codepoint { codepoint: 0x16E5E, name: "MEDEFAIDRIN CAPITAL LETTER AI", aliases: &[] },
        Codepoint { codepoint: 0x16E5F, name: "MEDEFAIDRIN CAPITAL LETTER Y", aliases: &[] },
        Codepoint { codepoint: 0x16E60, name: "MEDEFAIDRIN SMALL LETTER M", aliases: &[] },
        Codepoint { codepoint: 0x16E61, name: "MEDEFAIDRIN SMALL LETTER S", aliases: &[] },
        Codepoint { codepoint: 0x16E62, name: "MEDEFAIDRIN SMALL LETTER V", aliases: &[] },
        Codepoint { codepoint: 0x16E63, name: "MEDEFAIDRIN SMALL LETTER W", aliases: &[] },
        Codepoint { codepoint: 0x16E64, name: "MEDEFAIDRIN SMALL LETTER ATIU", aliases: &[] },
        Codepoint { codepoint: 0x16E65, name: "MEDEFAIDRIN SMALL LETTER Z", aliases: &[] },
        Codepoint { codepoint: 0x16E66, name: "MEDEFAIDRIN SMALL LETTER KP", aliases: &[] },
        Codepoint { codepoint: 0x16E67, name: "MEDEFAIDRIN SMALL LETTER P", aliases: &[] },
        Codepoint { codepoint: 0x16E68, name: "MEDEFAIDRIN SMALL LETTER T", aliases: &[] },
        Codepoint { codepoint: 0x16E69, name: "MEDEFAIDRIN SMALL LETTER G", aliases: &[] },
        Codepoint { codepoint: 0x16E6A, name: "MEDEFAIDRIN SMALL LETTER F", aliases: &[] },
        Codepoint { codepoint: 0x16E6B, name: "MEDEFAIDRIN SMALL LETTER I", aliases: &[] },
        Codepoint { codepoint: 0x16E6C, name: "MEDEFAIDRIN SMALL LETTER K", aliases: &[] },
        Codepoint { codepoint: 0x16E6D, name: "MEDEFAIDRIN SMALL LETTER A", aliases: &[] },
        Codepoint { codepoint: 0x16E6E, name: "MEDEFAIDRIN SMALL LETTER J", aliases: &[] },
        Codepoint { codepoint: 0x16E6F, name: "MEDEFAIDRIN SMALL LETTER E", aliases: &[] },
        Codepoint { codepoint: 0x16E70, name: "MEDEFAIDRIN SMALL LETTER B", aliases: &[] },
        Codepoint { codepoint: 0x16E71, name: "MEDEFAIDRIN SMALL LETTER C", aliases: &[] },
        Codepoint { codepoint: 0x16E72, name: "MEDEFAIDRIN SMALL LETTER U", aliases: &[] },
        Codepoint { codepoint: 0x16E73, name: "MEDEFAIDRIN SMALL LETTER YU", aliases: &[] },
        Codepoint { codepoint: 0x16E74, name: "MEDEFAIDRIN SMALL LETTER L", aliases: &[] },
        Codepoint { codepoint: 0x16E75, name: "MEDEFAIDRIN SMALL LETTER Q", aliases: &[] },
        Codepoint { codepoint: 0x16E76, name: "MEDEFAIDRIN SMALL LETTER HP", aliases: &[] },
        Codepoint { codepoint: 0x16E77, name: "MEDEFAIDRIN SMALL LETTER NY", aliases: &[] },
        Codepoint { codepoint: 0x16E78, name: "MEDEFAIDRIN SMALL LETTER X", aliases: &[] },
        Codepoint { codepoint: 0x16E79, name: "MEDEFAIDRIN SMALL LETTER D", aliases: &[] },
        Codepoint { codepoint: 0x16E7A, name: "MEDEFAIDRIN SMALL LETTER OE", aliases: &[] },
        Codepoint { codepoint: 0x16E7B, name: "MEDEFAIDRIN SMALL LETTER N", aliases: &[] },
        Codepoint { codepoint: 0x16E7C, name: "MEDEFAIDRIN SMALL LETTER R", aliases: &[] },
        Codepoint { codepoint: 0x16E7D, name: "MEDEFAIDRIN SMALL LETTER O", aliases: &[] },
    ];
    assert(v@ =~= codepoint_table_638());
    v
}

pub open spec fn codepoint_table_639() -> Seq<Codepoint> {
    seq![
        Codepoint { codepoint: 0x16E7E, name: "MEDEFAIDRIN SMALL LETTER AI", aliases: &[] },
        Codepoint { codepoint: 0x16E7F, name: "MEDEFAIDRIN SMALL LETTER Y", aliases: &[] },
        Codepoint { codepoint: 0x16E80, name: "MEDEFAIDRIN DIGIT ZERO", aliases: &[] },
        Codepoint { codepoint: 0x16E81, name: "MEDEFAIDRIN DIGIT ONE", aliases: &[] },
        Codepoint { codepoint: 0x16E82, name: "MEDEFAIDRIN DIGIT TWO", aliases: &[] },
        Codepoint { codepoint: 0x16E83, name: "MEDEFAIDRIN DIGIT THREE", aliases: &[] },
        Codepoint { codepoint: 0x16E84, name: "MEDEFAIDRIN DIGIT FOUR", aliases: &[] },
        Codepoint { codepoint: 0x16E85, name: "MEDEFAIDRIN DIGIT FIVE", aliases: &[] },
        Codepoint { codepoint: 0x16E86, name: "MEDEFAIDRIN DIGIT SIX", aliases: &[] },
        Codepoint { codepoint: 0x16E87, name: "MEDEFAIDRIN DIGIT SEVEN", aliases: &[] },
        Codepoint { codepoint: 0x16E88, name: "MEDEFAIDRIN DIGIT EIGHT", aliases: &[] },
        Codepoint { codepoint: 0x16E89, name: "MEDEFAIDRIN DIGIT NINE", aliases: &[] },
        Codepoint { codepoint: 0x16E8A, name: "MEDEFAIDRIN NUMBER TEN", aliases: &[] },
        Codepoint { codepoint: 0x16E8B, name: "MEDEFAIDRIN NUMBER ELEVEN", aliases: &[] },
        Codepoint { codepoint: 0x16E8C, name: "MEDEFAIDRIN NUMBER TWELVE", aliases: &[] },
        Codepoint { codepoint: 0x16E8D, name: "MEDEFAIDRIN NUMBER THIRTEEN", aliases: &[] },
        Codepoint { codepoint: 0x16E8E, name: "MEDEFAIDRIN NUMBER FOURTEEN", aliases: &[] },
        Codepoint { codepoint: 0x16E8F, name: "MEDEFAIDRIN NUMBER FIFTEEN", aliases: &[] },
        Codepoint { codepoint: 0x16E90, name: "MEDEFAIDRIN NUMBER SIXTEEN", aliases: &[] },
        Codepoint { codepoint: 0x16E91, name: "MEDEFAIDRIN NUMBER SEVENTEEN", aliases: &[] },
        Codepoint { codepoint: 0x16E92, name: "MEDEFAIDRIN NUMBER EIGHTEEN", aliases: &[] },
        Codepoint { codepoint: 0x16E93, name: "MEDEFAIDRIN NUMBER NINETEEN", aliases: &[] },
        Codepoint { codepoint: 0x16E94, name: "MEDEFAIDRIN DIGIT ONE ALTERNATE FORM", aliases: &[] },
        Codepoint { codepoint: 0x16E95, name: "MEDEFAIDRIN DIGIT TWO ALTERNATE FORM", aliases: &[] },
        Codepoint { codepoint: 0x16E96, name: "MEDEFAIDRIN DIGIT THREE ALTERNATE FORM", aliases: &[] },
        Codepoint { codepoint: 0x16E97, name: "MEDEFAIDRIN COMMA", aliases: &[] },
        Codepoint { codepoint: 0x16E98, name: "MEDEFAIDRIN FULL STOP", aliases: &[] },
        Codepoint { codepoint: 0x16E99, name: "MEDEFAIDRIN SYMBOL AIVA", aliases: &[] },
        Codepoint { codepoint: 0x16E9A, name: "MEDEFAIDRIN EXCLAMATION OH", aliases: &[] },
        Codepoint { codepoint: 0x16F00, name: "MIAO LETTER PA", aliases: &[] },
        Codepoint { codepoint: 0x16F01, name: "MIAO LETTER BA", aliases: &[] },
        Codepoint { codepoint: 0x16F02, name: "MIAO LETTER YI PA", aliases: &[] },
        Codepoint { codepoint: 0x16F03, name: "MIAO LETTER PLA", aliases: &[] },
        Codepoint { codepoint: 0x16F04, name: "MIAO LETTER MA", aliases: &[] },
        Codepoint { codepoint: 0x16F05, name: "MIAO LETTER MHA", aliases: &[] },
        Codepoint { codepoint: 0x16F06, name: "MIAO LETTER ARCHAIC MA", aliases: &[] },
        Codepoint { codepoint: 0x16F07, name: "MIAO LETTER FA", aliases: &[] },
        Codepoint { codepoint: 0x16F08, name: "MIAO LETTER VA", aliases: &[] },
        Codepoint { codepoint: 0x16F09, name: "MIAO LETTER VFA", aliases: &[] },
        Codepoint { codepoint: 0x16F0A, name: "MIAO LETTER TA", aliases: &[] },
    ]
}

fn all_codepoints_639() -> (v: Vec<Codepoint>)
    ensures
        v@ == codepoint_table_639(),
{
    let v = vec![
        Codepoint { codepoint: 0x16E7E, name: "MEDEFAIDRIN SMALL LETTER AI", aliases: &[] },
        Codepoint { codepoint: 0x16E7F, name: "MEDEFAIDRIN SMALL LETTER Y", aliases: &[] },
        Codepoint { codepoint: 0x16E80, name: "MEDEFAIDRIN DIGIT ZERO", aliases: &[] },
        Codepoint { codepoint: 0x16E81, name: "MEDEFAIDRIN DIGIT ONE", aliases: &[] },
        Codepoint { codepoint: 0x16E82, name: "MEDEFAIDRIN DIGIT TWO", aliases: &[] },
        Codepoint { codepoint: 0x16E83, name: "MEDEFAIDRIN DIGIT THREE", aliases: &[] },
        Codepoint { codepoint: 0x16E84, name: "MEDEFAIDRIN DIGIT FOUR", aliases: &[] },
        Codepoint { codepoint: 0x16E85, name: "MEDEFAIDRIN DIGIT FIVE", aliases: &[] },
        Codepoint { codepoint: 0x16E86, name: "MEDEFAIDRIN DIGIT SIX", aliases: &[] },
        Codepoint { codepoint: 0x16E87, name: "MEDEFAIDRIN DIGIT SEVEN", aliases: &[] },
        Codepoint { codepoint: 0x16E88, name: "MEDEFAIDRIN DIGIT EIGHT", aliases: &[] },
        Codepoint { codepoint: 0x16E89, name: "MEDEFAIDRIN DIGIT NINE", aliases: &[] },
        Codepoint { codepoint: 0x16E8A, name: "MEDEFAIDRIN NUMBER TEN", aliases: &[] },
        Codepoint { codepoint: 0x16E8B, name: "MEDEFAIDRIN NUMBER ELEVEN", aliases: &[] },
        Codepoint { codepoint: 0x16E8C, name: "MEDEFAIDRIN NUMBER TWELVE", aliases: &[] },
        Codepoint { codepoint: 0x16E8D, name: "MEDEFAIDRIN NUMBER THIRTEEN", aliases: &[] },
        Codepoint { codepoint: 0x16E8E, name: "MEDEFAIDRIN NUMBER FOURTEEN", aliases: &[] },
        Codepoint { codepoint: 0x16E8F, name: "MEDEFAIDRIN NUMBER FIFTEEN", aliases: &[] },
        Codepoint { codepoint: 0x16E90, name: "MEDEFAIDRIN NUMBER SIXTEEN", aliases: &[] },
        Codepoint { codepoint: 0x16E91, name: "MEDEFAIDRIN NUMBER SEVENTEEN", aliases: &[] },
        Codepoint { codepoint: 0x16E92, name: "MEDEFAIDRIN NUMBER EIGHTEEN", aliases: &[] },
        Codepoint { codepoint: 0x16E93, name: "MEDEFAIDRIN NUMBER NINETEEN", aliases: &[] },
        Codepoint { codepoint: 0x16E94, name: "MEDEFAIDRIN DIGIT ONE ALTERNATE FORM", aliases: &[] },
        Codepoint { codepoint: 0x16E95, name: "MEDEFAIDRIN DIGIT TWO ALTERNATE FORM", aliases: &[] },
        Codepoint { codepoint: 0x16E96, name: "MEDEFAIDRIN DIGIT THREE ALTERNATE FORM", aliases: &[] },
        Codepoint { codepoint: 0x16E97, name: "MEDEFAIDRIN COMMA", aliases: &[] },
        Codepoint { codepoint: 0x16E98, name: "MEDEFAIDRIN FULL STOP", aliases: &[] },
        Codepoint { codepoint: 0x16E99, name: "MEDEFAIDRIN SYMBOL AIVA", aliases: &[] },
        Codepoint { codepoint: 0x16E9A, name: "MEDEFAIDRIN EXCLAMATION OH", aliases: &[] },
        Codepoint { codepoint: 0x16F00, name: "MIAO LETTER PA", aliases: &[] },
        Codepoint { codepoint: 0x16F01, name: "MIAO LETTER BA", aliases: &[] },
        Codepoint { codepoint: 0x16F02, name: "MIAO LETTER YI PA", aliases: &[] },
        Codepoint { codepoint: 0x16F03, name: "MIAO LETTER PLA", aliases: &[] },
        Codepoint { codepoint: 0x16F04, name: "MIAO LETTER MA", aliases: &[] },
        Codepoint { codepoint: 0x16F05, name: "MIAO LETTER MHA", aliases: &[] },
        Codepoint { codepoint: 0x16F06, name: "MIAO LETTER ARCHAIC MA", aliases: &[] },
        Codepoint { codepoint: 0x16F07, name: "MIAO LETTER FA", aliases: &[] },
        Codepoint { codepoint: 0x16F08, name: "MIAO LETTER VA", aliases: &[] },
        Codepoint { codepoint: 0x16F09, name: "MIAO LETTER VFA", aliases: &[] },
        Codepoint { codepoint: 0x16F0A, name: "MIAO LETTER TA", aliases: &[] },
    ];
    assert(v@ =~= codepoint_table_639());
    v
}

/// The entries from position 24800 of the table, 800 at most.
pub open spec fn codepoint_group_31() -> Seq<Codepoint> {
    codepoint_table_620() + codepoint_table_621() + codepoint_table_622() + codepoint_table_623() + codepoint_table_624() + codepoint_table_625() + codepoint_table_626() + codepoint_table_627() + codepoint_table_628() + codepoint_table_629() + codepoint_table_630() + codepoint_table_631() + codepoint_table_632() + codepoint_table_633() + codepoint_table_634() + codepoint_table_635() + codepoint_table_636() + codepoint_table_637() + codepoint_table_638() + codepoint_table_639()
}

pub fn all_codepoints_group_31() -> (v: Vec<Codepoint>)
    ensures
        v@ == codepoint_group_31(),
{
    let mut v = all_codepoints_620();
    let mut part = all_codepoints_621();
    v.append(&mut part);
    let mut part = all_codepoints_622();
    v.append(&mut part);
    let mut part = all_codepoints_623();
    v.append(&mut part);
    let mut part = all_codepoints_624();
    v.append(&mut part);
    let mut part = all_codepoints_625();
    v.append(&mut part);
    let mut part = all_codepoints_626();
    v.append(&mut part);
    let mut part = all_codepoints_627();
    v.append(&mut part);
    let mut part = all_codepoints_628();
    v.append(&mut part);
    let mut part = all_codepoints_629();
    v.append(&mut part);
    let mut part = all_codepoints_630();
    v.append(&mut part);
    let mut part = all_codepoints_631();
    v.append(&mut part);
    let mut part = all_codepoints_632();
    v.append(&mut part);
    let mut part = all_codepoints_633();
    v.append(&mut part);
    let mut part = all_codepoints_634();
    v.append(&mut part);
    let mut part = all_codepoints_635();
    v.append(&mut part);
    let mut part = all_codepoints_636();
    v.append(&mut part);
    let mut part = all_codepoints_637();
    v.append(&mut part);
    let mut part = all_codepoints_638();
    v.append(&mut part);
    let mut part = all_codepoints_639();
    v.append(&mut part);
    v
}

pub open spec fn codepoint_table_640() -> Seq<Codepoint> {
    seq![
        Codepoint { codepoint: 0x16F0B, name: "MIAO LETTER DA", aliases: &[] },
        Codepoint { codepoint: 0x16F0C, name: "MIAO LETTER YI TTA", aliases: &[] },
        Codepoint { codepoint: 0x16F0D, name: "MIAO LETTER YI TA", aliases: &[] },
        Codepoint { codepoint: 0x16F0E, name: "MIAO LETTER TTA", aliases: &[] },
        Codepoint { codepoint: 0x16F0F, name: "MIAO LETTER DDA", aliases: &[] },
        Codepoint { codepoint: 0x16F10, name: "MIAO LETTER NA", aliases: &[] },
        Codepoint { codepoint: 0x16F11, name: "MIAO LETTER NHA", aliases: &[] },
        Codepoint { codepoint: 0x16F12, name: "MIAO LETTER YI NNA", aliases: &[] },
        Codepoint { codepoint: 0x16F13, name: "MIAO LETTER ARCHAIC NA", aliases: &[] },
        Codepoint { codepoint: 0x16F14, name: "MIAO LETTER NNA", aliases: &[] },
        Codepoint { codepoint: 0x16F15, name: "MIAO LETTER NNHA", aliases: &[] },
        Codepoint { codepoint: 0x16F16, name: "MIAO LETTER LA", aliases: &[] },
        Codepoint { codepoint: 0x16F17, name: "MIAO LETTER LYA", aliases: &[] },
        Codepoint { codepoint: 0x16F18, name: "MIAO LETTER LHA", aliases: &[] },
        Codepoint { codepoint: 0x16F19, name: "MIAO LETTER LHYA", aliases: &[] },
        Codepoint { codepoint: 0x16F1A, name: "MIAO LETTER TLHA", aliases: &[] },
        Codepoint { codepoint: 0x16F1B, name: "MIAO LETTER DLHA", aliases: &[] },
        Codepoint { codepoint: 0x16F1C, name: "MIAO LETTER TLHYA", aliases: &[] },
        Codepoint { codepoint: 0x16F1D, name: "MIAO LETTER DLHYA", aliases: &[] },
        Codepoint { codepoint: 0x16F1E, name: "MIAO LETTER KA", aliases: &[] },
        Codepoint { codepoint: 0x16F1F, name: "MIAO LETTER GA", aliases: &[] },
        Codepoint { codepoint: 0x16F20, name: "MIAO LETTER YI KA", aliases: &[] },
        Codepoint { codepoint: 0x16F21, name: "MIAO LETTER QA", aliases: &[] },
        Codepoint { codepoint: 0x16F22, name: "MIAO LETTER QGA", aliases: &[] },
        Codepoint { codepoint: 0x16F23, name: "MIAO LETTER NGA", aliases: &[] },
        Codepoint { codepoint: 0x16F24, name: "MIAO LETTER NGHA", aliases: &[] },
        Codepoint { codepoint: 0x16F25, name: "MIAO LETTER ARCHAIC NGA", aliases: &[] },
        Codepoint { codepoint: 0x16F26, name: "MIAO LETTER HA", aliases: &[] },
        Codepoint { codepoint: 0x16F27, name: "MIAO LETTER XA", aliases: &[] },
        Codepoint { codepoint: 0x16F28, name: "MIAO LETTER GHA", aliases: &[] },
        Codepoint { codepoint: 0x16F29, name: "MIAO LETTER GHHA", aliases: &[] },
        Codepoint { codepoint: 0x16F2A, name: "MIAO LETTER TSSA", aliases: &[] },
        Codepoint { codepoint: 0x16F2B, name: "MIAO LETTER DZZA", aliases: &[] },
        Codepoint { codepoint: 0x16F2C, name: "MIAO LETTER NYA", aliases: &[] },
        Codepoint { codepoint: 0x16F2D, name: "MIAO LETTER NYHA", aliases: &[] },
        Codepoint { codepoint: 0x16F2E, name: "MIAO LETTER TSHA", aliases: &[] },
        Codepoint { codepoint: 0x16F2F, name: "MIAO LETTER DZHA", aliases: &[] },
        Codepoint { codepoint: 0x16F30, name: "MIAO LETTER YI TSHA", aliases: &[] },
        Codepoint { codepoint: 0x16F31, name: "MIAO LETTER YI DZHA", aliases: &[] },
        Codepoint { codepoint: 0x16F32, name: "MIAO LETTER REFORMED TSHA", aliases: &[] },
    ]
}

fn all_codepoints_640() -> (v: Vec<Codepoint>)
    ensures
        v@ == codepoint_table_640(),
{
    let v = vec![
        Codepoint { codepoint: 0x16F0B, name: "MIAO LETTER DA", aliases: &[] },
        Codepoint { codepoint: 0x16F0C, name: "MIAO LETTER YI TTA", aliases: &[] },
        Codepoint { codepoint: 0x16F0D, name: "MIAO LETTER YI TA", aliases: &[] },
        Codepoint { codepoint: 0x16F0E, name: "MIAO LETTER TTA", aliases: &[] },
        Codepoint { codepoint: 0x16F0F, name: "MIAO LETTER DDA", aliases: &[] },
        Codepoint { codepoint: 0x16F10, name: "MIAO LETTER NA", aliases: &[] },
        Codepoint { codepoint: 0x16F11, name: "MIAO LETTER NHA", aliases: &[] },
        Codepoint { codepoint: 0x16F12, name: "MIAO LETTER YI NNA", aliases: &[] },
        Codepoint { codepoint: 0x16F13, name: "MIAO LETTER ARCHAIC NA", aliases: &[] },
        Codepoint { codepoint: 0x16F14, name: "MIAO LETTER NNA", aliases: &[] },
        Codepoint { codepoint: 0x16F15, name: "MIAO LETTER NNHA", aliases: &[] },
        Codepoint { codepoint: 0x16F16, name: "MIAO LETTER LA", aliases: &[] },
        Codepoint { codepoint: 0x16F17, name: "MIAO LETTER LYA", aliases: &[] },
        Codepoint { codepoint: 0x16F18, name: "MIAO LETTER LHA", aliases: &[] },
        Codepoint { codepoint: 0x16F19, name: "MIAO LETTER LHYA", aliases: &[] },
        Codepoint { codepoint: 0x16F1A, name: "MIAO LETTER TLHA", aliases: &[] },
        Codepoint { codepoint: 0x16F1B, name: "MIAO LETTER DLHA", aliases: &[] },
        Codepoint { codepoint: 0x16F1C, name: "MIAO LETTER TLHYA", aliases: &[] },
        Codepoint { codepoint: 0x16F1D, name: "MIAO LETTER DLHYA", aliases: &[] },
        Codepoint { codepoint: 0x16F1E, name: "MIAO LETTER KA", aliases: &[] },
        Codepoint { codepoint: 0x16F1F, name: "MIAO LETTER GA", aliases: &[] },
        Codepoint { codepoint: 0x16F20, name: "MIAO LETTER YI KA", aliases: &[] },
        Codepoint { codepoint: 0x16F21, name: "MIAO LETTER QA", aliases: &[] },
        Codepoint { codepoint: 0x16F22, name: "MIAO LETTER QGA", aliases: &[] },
        Codepoint { codepoint: 0x16F23, name: "MIAO LETTER NGA", aliases: &[] },
        Codepoint { codepoint: 0x16F24, name: "MIAO LETTER NGHA", aliases: &[] },
        Codepoint { codepoint: 0x16F25, name: "MIAO LETTER ARCHAIC NGA", aliases: &[] },
        Codepoint { codepoint: 0x16F26, name: "MIAO LETTER HA", aliases: &[] },
        Codepoint { codepoint: 0x16F27, name: "MIAO LETTER XA", aliases: &[] },
        Codepoint { codepoint: 0x16F28, name: "MIAO LETTER GHA", aliases: &[] },
        Codepoint { codepoint: 0x16F29, name: "MIAO LETTER GHHA", aliases: &[] },
        Codepoint { codepoint: 0x16F2A, name: "MIAO LETTER TSSA", aliases: &[] },
        Codepoint { codepoint: 0x16F2B, name: "MIAO LETTER DZZA", aliases: &[] },
        Codepoint { codepoint: 0x16F2C, name: "MIAO LETTER NYA", aliases: &[] },
        Codepoint { codepoint: 0x16F2D, name: "MIAO LETTER NYHA", aliases: &[] },
        Codepoint { codepoint: 0x16F2E, name: "MIAO LETTER TSHA", aliases: &[] },
        Codepoint { codepoint: 0x16F2F, name: "MIAO LETTER DZHA", aliases: &[] },
        Codepoint { codepoint: 0x16F30, name: "MIAO LETTER YI TSHA", aliases: &[] },
        Codepoint { codepoint: 0x16F31, name: "MIAO LETTER YI DZHA", aliases: &[] },
        Codepoint { codepoint: 0x16F32, name: "MIAO LETTER REFORMED TSHA", aliases: &[] },
    ];
    assert(v@ =~= codepoint_table_640());
    v
}

pub open spec fn codepoint_table_641() -> Seq<Codepoint> {
    seq![
        Codepoint { codepoint: 0x16F33, name: "MIAO LETTER SHA", aliases: &[] },
        Codepoint { codepoint: 0x16F34, name: "MIAO LETTER SSA", aliases: &[] },
        Codepoint { codepoint: 0x16F35, name: "MIAO LETTER ZHA", aliases: &[] },
        Codepoint { codepoint: 0x16F36, name: "MIAO LETTER ZSHA", aliases: &[] },
        Codepoint { codepoint: 0x16F37, name: "MIAO LETTER TSA", aliases: &[] },
        Codepoint { codepoint: 0x16F38, name: "MIAO LETTER DZA", aliases: &[] },
        Codepoint { codepoint: 0x16F39, name: "MIAO LETTER YI TSA", aliases: &[] },
        Codepoint { codepoint: 0x16F3A, name: "MIAO LETTER SA", aliases: &[] },
        Codepoint { codepoint: 0x16F3B, name: "MIAO LETTER ZA", aliases: &[] },
        Codepoint { codepoint: 0x16F3C, name: "MIAO LETTER ZSA", aliases: &[] },
        Codepoint { codepoint: 0x16F3D, name: "MIAO LETTER ZZA", aliases: &[] },
        Codepoint { codepoint: 0x16F3E, name: "MIAO LETTER ZZSA", aliases: &[] },
        Codepoint { codepoint: 0x16F3F, name: "MIAO LETTER ARCHAIC ZZA", aliases: &[] },
        Codepoint { codepoint: 0x16F40, name: "MIAO LETTER ZZYA", aliases: &[] },
        Codepoint { codepoint: 0x16F41, name: "MIAO LETTER ZZSYA", aliases: &[] },
        Codepoint { codepoint: 0x16F42, name: "MIAO LETTER WA", aliases: &[] },
        Codepoint { codepoint: 0x16F43, name: "MIAO LETTER AH", aliases: &[] },
        Codepoint { codepoint: 0x16F44, name: "MIAO LETTER HHA", aliases: &[] },
        Codepoint { codepoint: 0x16F45, name: "MIAO LETTER BRI", aliases: &[] },
        Codepoint { codepoint: 0x16F46, name: "MIAO LETTER SYI", aliases: &[] },
        Codepoint { codepoint: 0x16F47, name: "MIAO LETTER DZYI", aliases: &[] },
        Codepoint { codepoint: 0x16F48, name: "MIAO LETTER TE", aliases: &[] },
        Codepoint { codepoint: 0x16F49, name: "MIAO LETTER TSE", aliases: &[] },
        Codepoint { codepoint: 0x16F4A, name: "MIAO LETTER RTE", aliases: &[] },
        Codepoint { codepoint: 0x16F4F, name: "MIAO SIGN CONSONANT MODIFIER BAR", aliases: &[] },
        Codepoint { codepoint: 0x16F50, name: "MIAO LETTER NASALIZATION", aliases: &[] },
        Codepoint { codepoint: 0x16F51, name: "MIAO SIGN ASPIRATION", aliases: &[] },
        Codepoint { codepoint: 0x16F52, name: "MIAO SIGN REFORMED VOICING", aliases: &[] },
        Codepoint { codepoint: 0x16F53, name: "MIAO SIGN REFORMED ASPIRATION", aliases: &[] },
        Codepoint { codepoint: 0x16F54, name: "MIAO VOWEL SIGN A", aliases: &[] },
        Codepoint { codepoint: 0x16F55, name: "MIAO VOWEL SIGN AA", aliases: &[] },
        Codepoint { codepoint: 0x16F56, name: "MIAO VOWEL SIGN AHH", aliases: &[] },
        Codepoint { codepoint: 0x16F57, name: "MIAO VOWEL SIGN AN", aliases: &[] },
        Codepoint { codepoint: 0x16F58, name: "MIAO VOWEL SIGN ANG", aliases: &[] },
        Codepoint { codepoint: 0x16F59, name: "MIAO VOWEL SIGN O", aliases: &[] },
        Codepoint { codepoint: 0x16F5A, name: "MIAO VOWEL SIGN OO", aliases: &[] },
        Codepoint { codepoint: 0x16F5B, name: "MIAO VOWEL SIGN WO", aliases: &[] },
        Codepoint { codepoint: 0x16F5C, name: "MIAO VOWEL SIGN W", aliases: &[] },
        Codepoint { codepoint: 0x16F5D, name: "MIAO VOWEL SIGN E", aliases: &[] },
        Codepoint { codepoint: 0x16F5E, name: "MIAO VOWEL SIGN EN", aliases: &[] },
    ]
}

fn all_codepoints_641() -> (v: Vec<Codepoint>)
    ensures
        v@ == codepoint_table_641(),
{
    let v = vec![
        Codepoint { codepoint: 0x16F33, name: "MIAO LETTER SHA", aliases: &[] },
        Codepoint { codepoint: 0x16F34, name: "MIAO LETTER SSA", aliases: &[] },
        Codepoint { codepoint: 0x16F35, name: "MIAO LETTER ZHA", aliases: &[] },
        Codepoint { codepoint: 0x16F36, name: "MIAO LETTER ZSHA", aliases: &[] },
        Codepoint { codepoint: 0x16F37, name: "MIAO LETTER TSA", aliases: &[] },
        Codepoint { codepoint: 0x16F38, name: "MIAO LETTER DZA", aliases: &[] },
        Codepoint { codepoint: 0x16F39, name: "MIAO LETTER YI TSA", aliases: &[] },
        Codepoint { codepoint: 0x16F3A, name: "MIAO LETTER SA", aliases: &[] },
        Codepoint { codepoint: 0x16F3B, name: "MIAO LETTER ZA", aliases: &[] },
        Codepoint { codepoint: 0x16F3C, name: "MIAO LETTER ZSA", aliases: &[] },
        Codepoint { codepoint: 0x16F3D, name: "MIAO LETTER ZZA", aliases: &[] },
        Codepoint { codepoint: 0x16F3E, name: "MIAO LETTER ZZSA", aliases: &[] },
        Codepoint { codepoint: 0x16F3F, name: "MIAO LETTER ARCHAIC ZZA", aliases: &[] },
        Codepoint { codepoint: 0x16F40, name: "MIAO LETTER ZZYA", aliases: &[] },
        Codepoint { codepoint: 0x16F41, name: "MIAO LETTER ZZSYA", aliases: &[] },
        Codepoint { codepoint: 0x16F42, name: "MIAO LETTER WA", aliases: &[] },
        Codepoint { codepoint: 0x16F43, name: "MIAO LETTER AH", aliases: &[] },
        Codepoint { codepoint: 0x16F44, name: "MIAO LETTER HHA", aliases: &[] },
        Codepoint { codepoint: 0x16F45, name: "MIAO LETTER BRI", aliases: &[] },
        Codepoint { codepoint: 0x16F46, name: "MIAO LETTER SYI", aliases: &[] },
        Codepoint { codepoint: 0x16F47, name: "MIAO LETTER DZYI", aliases: &[] },
        Codepoint { codepoint: 0x16F48, name: "MIAO LETTER TE", aliases: &[] },
        Codepoint { codepoint: 0x16F49, name: "MIAO LETTER TSE", aliases: &[] },
        Codepoint { codepoint: 0x16F4A, name: "MIAO LETTER RTE", aliases: &[] },
        Codepoint { codepoint: 0x16F4F, name: "MIAO SIGN CONSONANT MODIFIER BAR", aliases: &[] },
        Codepoint { codepoint: 0x16F50, name: "MIAO LETTER NASALIZATION", aliases: &[] },
        Codepoint { codepoint: 0x16F51, name: "MIAO SIGN ASPIRATION", aliases: &[] },
        Codepoint { codepoint: 0x16F52, name: "MIAO SIGN REFORMED VOICING", aliases: &[] },
        Codepoint { codepoint: 0x16F53, name: "MIAO SIGN REFORMED ASPIRATION", aliases: &[] },
        Codepoint { codepoint: 0x16F54, name: "MIAO VOWEL SIGN A", aliases: &[] },
        Codepoint { codepoint: 0x16F55, name: "MIAO VOWEL SIGN AA", aliases: &[] },
        Codepoint { codepoint: 0x16F56, name: "MIAO VOWEL SIGN AHH", aliases: &[] },
        Codepoint { codepoint: 0x16F57, name: "MIAO VOWEL SIGN AN", aliases: &[] },
        Codepoint { codepoint: 0x16F58, name: "MIAO VOWEL SIGN ANG", aliases: &[] },
        Codepoint { codepoint: 0x16F59, name: "MIAO VOWEL SIGN O", aliases: &[] },
        Codepoint { codepoint: 0x16F5A, name: "MIAO VOWEL SIGN OO", aliases: &[] },
        Codepoint { codepoint: 0x16F5B, name: "MIAO VOWEL SIGN WO", aliases: &[] },
        Codepoint { codepoint: 0x16F5C, name: "MIAO VOWEL SIGN W", aliases: &[] },
        Codepoint { codepoint: 0x16F5D, name: "MIAO VOWEL SIGN E", aliases: &[] },
        Codepoint { codepoint: 0x16F5E, name: "MIAO VOWEL SIGN EN", aliases: &[] },
    ];
    assert(v@ =~= codepoint_table_641());
    v
}

pub open spec fn codepoint_table_642() -> Seq<Codepoint> {
    seq![
        Codepoint { codepoint: 0x16F5F, name: "MIAO VOWEL SIGN ENG", aliases: &[] },
        Codepoint { codepoint: 0x16F60, name: "MIAO VOWEL SIGN OEY", aliases: &[] },
        Codepoint { codepoint: 0x16F61, name: "MIAO VOWEL SIGN I", aliases: &[] },
        Codepoint { codepoint: 0x16F62, name: "MIAO VOWEL SIGN IA", aliases: &[] },
        Codepoint { codepoint: 0x16F63, name: "MIAO VOWEL SIGN IAN", aliases: &[] },
        Codepoint { codepoint: 0x16F64, name: "MIAO VOWEL SIGN IANG", aliases: &[] },
        Codepoint { codepoint: 0x16F65, name: "MIAO VOWEL SIGN IO", aliases: &[] },
        Codepoint { codepoint: 0x16F66, name: "MIAO VOWEL SIGN IE", aliases: &[] },
        Codepoint { codepoint: 0x16F67, name: "MIAO VOWEL SIGN II", aliases: &[] },
        Codepoint { codepoint: 0x16F68, name: "MIAO VOWEL SIGN IU", aliases: &[] },
        Codepoint { codepoint: 0x16F69, name: "MIAO VOWEL SIGN ING", aliases: &[] },
        Codepoint { codepoint: 0x16F6A, name: "MIAO VOWEL SIGN U", aliases: &[] },
        Codepoint { codepoint: 0x16F6B, name: "MIAO VOWEL SIGN UA", aliases: &[] },
        Codepoint { codepoint: 0x16F6C, name: "MIAO VOWEL SIGN UAN", aliases: &[] },
        Codepoint { codepoint: 0x16F6D, name: "MIAO VOWEL SIGN UANG", aliases: &[] },
        Codepoint { codepoint: 0x16F6E, name: "MIAO VOWEL SIGN UU", aliases: &[] },
        Codepoint { codepoint: 0x16F6F, name: "MIAO VOWEL SIGN UEI", aliases: &[] },
        Codepoint { codepoint: 0x16F70, name: "MIAO VOWEL SIGN UNG", aliases: &[] },
        Codepoint { codepoint: 0x16F71, name: "MIAO VOWEL SIGN Y", aliases: &[] },
        Codepoint { codepoint: 0x16F72, name: "MIAO VOWEL SIGN YI", aliases: &[] },
        Codepoint { codepoint: 0x16F73, name: "MIAO VOWEL SIGN AE", aliases: &[] },
        Codepoint { codepoint: 0x16F74, name: "MIAO VOWEL SIGN AEE", aliases: &[] },
        Codepoint { codepoint: 0x16F75, name: "MIAO VOWEL SIGN ERR", aliases: &[] },
        Codepoint { codepoint: 0x16F76, name: "MIAO VOWEL SIGN ROUNDED ERR", aliases: &[] },
        Codepoint { codepoint: 0x16F77, name: "MIAO VOWEL SIGN ER", aliases: &[] },
        Codepoint { codepoint: 0x16F78, name: "MIAO VOWEL SIGN ROUNDED ER", aliases: &[] },
        Codepoint { codepoint: 0x16F79, name: "MIAO VOWEL SIGN AI", aliases: &[] },
        Codepoint { codepoint: 0x16F7A, name: "MIAO VOWEL SIGN EI", aliases: &[] },
        Codepoint { codepoint: 0x16F7B, name: "MIAO VOWEL SIGN AU", aliases: &[] },
        Codepoint { codepoint: 0x16F7C, name: "MIAO VOWEL SIGN OU", aliases: &[] },
        Codepoint { codepoint: 0x16F7D, name: "MIAO VOWEL SIGN N", aliases: &[] },
        Codepoint { codepoint: 0x16F7E, name: "MIAO VOWEL SIGN NG", aliases: &[] },
        Codepoint { codepoint: 0x16F7F, name: "MIAO VOWEL SIGN UOG", aliases: &[] },
        Codepoint { codepoint: 0x16F80, name: "MIAO VOWEL SIGN YUI", aliases: &[] },
        Codepoint { codepoint: 0x16F81, name: "MIAO VOWEL SIGN OG", aliases: &[] },
        Codepoint { codepoint: 0x16F82, name: "MIAO VOWEL SIGN OER", aliases: &[] },
        Codepoint { codepoint: 0x16F83, name: "MIAO VOWEL SIGN VW", aliases: &[] },
        Codepoint { codepoint: 0x16F84, name: "MIAO VOWEL SIGN IG", aliases: &[] },
        Codepoint { codepoint: 0x16F85, name: "MIAO VOWEL SIGN EA", aliases: &[] },
        Codepoint { codepoint: 0x16F86, name: "MIAO VOWEL SIGN IONG", aliases: &[] },
    ]
}

fn all_codepoints_642() -> (v: Vec<Codepoint>)
    ensures
        v@ == codepoint_table_642(),
{
    let v = vec![
        Codepoint { codepoint: 0x16F5F, name: "MIAO VOWEL SIGN ENG", aliases: &[] },
        Codepoint { codepoint: 0x16F60, name: "MIAO VOWEL SIGN OEY", aliases: &[] },
        Codepoint { codepoint: 0x16F61, name: "MIAO VOWEL SIGN I", aliases: &[] },
        Codepoint { codepoint: 0x16F62, name: "MIAO VOWEL SIGN IA", aliases: &[] },
        Codepoint { codepoint: 0x16F63, name: "MIAO VOWEL SIGN IAN", aliases: &[] },
        Codepoint { codepoint: 0x16F64, name: "MIAO VOWEL SIGN IANG", aliases: &[] },
        Codepoint { codepoint: 0x16F65, name: "MIAO VOWEL SIGN IO", aliases: &[] },
        Codepoint { codepoint: 0x16F66, name: "MIAO VOWEL SIGN IE", aliases: &[] },
        Codepoint { codepoint: 0x16F67, name: "MIAO VOWEL SIGN II", aliases: &[] },
        Codepoint { codepoint: 0x16F68, name: "MIAO VOWEL SIGN IU", aliases: &[] },
        Codepoint { codepoint: 0x16F69, name: "MIAO VOWEL SIGN ING", aliases: &[] },
        Codepoint { codepoint: 0x16F6A, name: "MIAO VOWEL SIGN U", aliases: &[] },
        Codepoint { codepoint: 0x16F6B, name: "MIAO VOWEL SIGN UA", aliases: &[] },
        Codepoint { codepoint: 0x16F6C, name: "MIAO VOWEL SIGN UAN", aliases: &[] },
        Codepoint { codepoint: 0x16F6D, name: "MIAO VOWEL SIGN UANG", aliases: &[] },
        Codepoint { codepoint: 0x16F6E, name: "MIAO VOWEL SIGN UU", aliases: &[] },
        Codepoint { codepoint: 0x16F6F, name: "MIAO VOWEL SIGN UEI", aliases: &[] },
        Codepoint { codepoint: 0x16F70, name: "MIAO VOWEL SIGN UNG", aliases: &[] },
        Codepoint { codepoint: 0x16F71, name: "MIAO VOWEL SIGN Y", aliases: &[] },
        Codepoint { codepoint: 0x16F72, name: "MIAO VOWEL SIGN YI", aliases: &[] },
        Codepoint { codepoint: 0x16F73, name: "MIAO VOWEL SIGN AE", aliases: &[] },
        Codepoint { codepoint: 0x16F74, name: "MIAO VOWEL SIGN AEE", aliases: &[] },
        Codepoint { codepoint: 0x16F75, name: "MIAO VOWEL SIGN ERR", aliases: &[] },
        Codepoint { codepoint: 0x16F76, name: "MIAO VOWEL SIGN ROUNDED ERR", aliases: &[] },
        Codepoint { codepoint: 0x16F77, name: "MIAO VOWEL SIGN ER", aliases: &[] },
        Codepoint { codepoint: 0x16F78, name: "MIAO VOWEL SIGN ROUNDED ER", aliases: &[] },
        Codepoint { codepoint: 0x16F79, name: "MIAO VOWEL SIGN AI", aliases: &[] },
        Codepoint { codepoint: 0x16F7A, name: "MIAO VOWEL SIGN EI", aliases: &[] },
        Codepoint { codepoint: 0x16F7B, name: "MIAO VOWEL SIGN AU", aliases: &[] },
        Codepoint { codepoint: 0x16F7C, name: "MIAO VOWEL SIGN OU", aliases: &[] },
        Codepoint { codepoint: 0x16F7D, name: "MIAO VOWEL SIGN N", aliases: &[] },
        Codepoint { codepoint: 0x16F7E, name: "MIAO VOWEL SIGN NG", aliases: &[] },
        Codepoint { codepoint: 0x16F7F, name: "MIAO VOWEL SIGN UOG", aliases: &[] },
        Codepoint { codepoint: 0x16F80, name: "MIAO VOWEL SIGN YUI", aliases: &[] },
        Codepoint { codepoint: 0x16F81, name: "MIAO VOWEL SIGN OG", aliases: &[] },
        Codepoint { codepoint: 0x16F82, name: "MIAO VOWEL SIGN OER", aliases: &[] },
        Codepoint { codepoint: 0x16F83, name: "MIAO VOWEL SIGN VW", aliases: &[] },
        Codepoint { codepoint: 0x16F84, name: "MIAO VOWEL SIGN IG", aliases: &[] },
        Codepoint { codepoint: 0x16F85, name: "MIAO VOWEL SIGN EA", aliases: &[] },
        Codepoint { codepoint: 0x16F86, name: "MIAO VOWEL SIGN IONG", aliases: &[] },
    ];
    assert(v@ =~= codepoint_table_642());
    v
}

pub open spec fn codepoint_table_643() -> Seq<Codepoint> {
    seq![
        Codepoint { codepoint: 0x16F87, name: "MIAO VOWEL SIGN UI", aliases: &[] },
        Codepoint { codepoint: 0x16F8F, name: "MIAO TONE RIGHT", aliases: &[] },
        Codepoint { codepoint: 0x16F90, name: "MIAO TONE TOP RIGHT", aliases: &[] },
        Codepoint { codepoint: 0x16F91, name: "MIAO TONE ABOVE", aliases: &[] },
        Codepoint { codepoint: 0x16F92, name: "MIAO TONE BELOW", aliases: &[] },
        Codepoint { codepoint: 0x16F93, name: "MIAO LETTER TONE-2", aliases: &[] },
        Codepoint { codepoint: 0x16F94, name: "MIAO LETTER TONE-3", aliases: &[] },
        Codepoint { codepoint: 0x16F95, name: "MIAO LETTER TONE-4", aliases: &[] },
        Codepoint { codepoint: 0x16F96, name: "MIAO LETTER TONE-5", aliases: &[] },
        Codepoint { codepoint: 0x16F97, name: "MIAO LETTER TONE-6", aliases: &[] },
        Codepoint { codepoint: 0x16F98, name: "MIAO LETTER TONE-7", aliases: &[] },
        Codepoint { codepoint: 0x16F99, name: "MIAO LETTER TONE-8", aliases: &[] },
        Codepoint { codepoint: 0x16F9A, name: "MIAO LETTER REFORMED TONE-1", aliases: &[] },
        Codepoint { codepoint: 0x16F9B, name: "MIAO LETTER REFORMED TONE-2", aliases: &[] },
        Codepoint { codepoint: 0x16F9C, name: "MIAO LETTER REFORMED TONE-4", aliases: &[] },
        Codepoint { codepoint: 0x16F9D, name: "MIAO LETTER REFORMED TONE-5", aliases: &[] },
        Codepoint { codepoint: 0x16F9E, name: "MIAO LETTER REFORMED TONE-6", aliases: &[] },
        Codepoint { codepoint: 0x16F9F, name: "MIAO LETTER REFORMED TONE-8", aliases: &[] },
        Codepoint { codepoint: 0x16FE0, name: "TANGUT ITERATION MARK", aliases: &[] },
        Codepoint { codepoint: 0x16FE1, name: "NUSHU ITERATION MARK", aliases: &[] },
        Codepoint { codepoint: 0x16FE2, name: "OLD CHINESE HOOK MARK", aliases: &[] },
        Codepoint { codepoint: 0x16FE3, name: "OLD CHINESE ITERATION MARK", aliases: &[] },
        Codepoint { codepoint: 0x16FE4, name: "KHITAN SMALL SCRIPT FILLER", aliases: &[] },
        Codepoint { codepoint: 0x16FF0, name: "VIETNAMESE ALTERNATE READING MARK CA", aliases: &[] },
        Codepoint { codepoint: 0x16FF1, name: "VIETNAMESE ALTERNATE READING MARK NHAY", aliases: &[] },
        Codepoint { codepoint: 0x17000, name: "<Tangut Ideograph, First>", aliases: &[] },
        Codepoint { codepoint: 0x187F7, name: "<Tangut Ideograph, Last>", aliases: &[] },
        Codepoint { codepoint: 0x18800, name: "TANGUT COMPONENT-001", aliases: &[] },
        Codepoint { codepoint: 0x18801, name: "TANGUT COMPONENT-002", aliases: &[] },
        Codepoint { codepoint: 0x18802, name: "TANGUT COMPONENT-003", aliases: &[] },
        Codepoint { codepoint: 0x18803, name: "TANGUT COMPONENT-004", aliases: &[] },
        Codepoint { codepoint: 0x18804, name: "TANGUT COMPONENT-005", aliases: &[] },
        Codepoint { codepoint: 0x18805, name: "TANGUT COMPONENT-006", aliases: &[] },
        Codepoint { codepoint: 0x18806, name: "TANGUT COMPONENT-007", aliases: &[] },
        Codepoint { codepoint: 0x18807, name: "TANGUT COMPONENT-008", aliases: &[] },
        Codepoint { codepoint: 0x18808, name: "TANGUT COMPONENT-009", aliases: &[] },
        Codepoint { codepoint: 0x18809, name: "TANGUT COMPONENT-010", aliases: &[] },
        Codepoint { codepoint: 0x1880A, name: "TANGUT COMPONENT-011", aliases: &[] },
        Codepoint { codepoint: 0x1880B, name: "TANGUT COMPONENT-012", aliases: &[] },
        Codepoint { codepoint: 0x1880C, name: "TANGUT COMPONENT-013", aliases: &[] },
    ]
}

fn all_codepoints_643() -> (v: Vec<Codepoint>)
    ensures
        v@ == codepoint_table_643(),
{
    let v = vec![
        Codepoint { codepoint: 0x16F87, name: "MIAO VOWEL SIGN UI", aliases: &[] },
        Codepoint { codepoint: 0x16F8F, name: "MIAO TONE RIGHT", aliases: &[] },
        Codepoint { codepoint: 0x16F90, name: "MIAO TONE TOP RIGHT", aliases: &[] },
        Codepoint { codepoint: 0x16F91, name: "MIAO TONE ABOVE", aliases: &[] },
        Codepoint { codepoint: 0x16F92, name: "MIAO TONE BELOW", aliases: &[] },
        Codepoint { codepoint: 0x16F93, name: "MIAO LETTER TONE-2", aliases: &[] },
        Codepoint { codepoint: 0x16F94, name: "MIAO LETTER TONE-3", aliases: &[] },
        Codepoint { codepoint: 0x16F95, name: "MIAO LETTER TONE-4", aliases: &[] },
        Codepoint { codepoint: 0x16F96, name: "MIAO LETTER TONE-5", aliases: &[] },
        Codepoint { codepoint: 0x16F97, name: "MIAO LETTER TONE-6", aliases: &[] },
        Codepoint { codepoint: 0x16F98, name: "MIAO LETTER TONE-7", aliases: &[] },
        Codepoint { codepoint: 0x16F99, name: "MIAO LETTER TONE-8", aliases: &[] },
        Codepoint { codepoint: 0x16F9A, name: "MIAO LETTER REFORMED TONE-1", aliases: &[] },
        Codepoint { codepoint: 0x16F9B, name: "MIAO LETTER REFORMED TONE-2", aliases: &[] },
        Codepoint { codepoint: 0x16F9C, name: "MIAO LETTER REFORMED TONE-4", aliases: &[] },
        Codepoint { codepoint: 0x16F9D, name: "MIAO LETTER REFORMED TONE-5", aliases: &[] },
        Codepoint { codepoint: 0x16F9E, name: "MIAO LETTER REFORMED TONE-6", aliases: &[] },
        Codepoint { codepoint: 0x16F9F, name: "MIAO LETTER REFORMED TONE-8", aliases: &[] },
        Codepoint { codepoint: 0x16FE0, name: "TANGUT ITERATION MARK", aliases: &[] },
        Codepoint { codepoint: 0x16FE1, name: "NUSHU ITERATION MARK", aliases: &[] },
        Codepoint { codepoint: 0x16FE2, name: "OLD CHINESE HOOK MARK", aliases: &[] },
        Codepoint { codepoint: 0x16FE3, name: "OLD CHINESE ITERATION MARK", aliases: &[] },
        Codepoint { codepoint: 0x16FE4, name: "KHITAN SMALL SCRIPT FILLER", aliases: &[] },
        Codepoint { codepoint: 0x16FF0, name: "VIETNAMESE ALTERNATE READING MARK CA", aliases: &[] },
        Codepoint { codepoint: 0x16FF1, name: "VIETNAMESE ALTERNATE READING MARK NHAY", aliases: &[] },
        Codepoint { codepoint: 0x17000, name: "<Tangut Ideograph, First>", aliases: &[] },
        Codepoint { codepoint: 0x187F7, name: "<Tangut Ideograph, Last>", aliases: &[] },
        Codepoint { codepoint: 0x18800, name: "TANGUT COMPONENT-001", aliases: &[] },
        Codepoint { codepoint: 0x18801, name: "TANGUT COMPONENT-002", aliases: &[] },
        Codepoint { codepoint: 0x18802, name: "TANGUT COMPONENT-003", aliases: &[] },
        Codepoint { codepoint: 0x18803, name: "TANGUT COMPONENT-004", aliases: &[] },
        Codepoint { codepoint: 0x18804, name: "TANGUT COMPONENT-005", aliases: &[] },
        Codepoint { codepoint: 0x18805, name: "TANGUT COMPONENT-006", aliases: &[] },
        Codepoint { codepoint: 0x18806, name: "TANGUT COMPONENT-007", aliases: &[] },
        Codepoint { codepoint: 0x18807, name: "TANGUT COMPONENT-008", aliases: &[] },
        Codepoint { codepoint: 0x18808, name: "TANGUT COMPONENT-009", aliases: &[] },
        Codepoint { codepoint: 0x18809, name: "TANGUT COMPONENT-010", aliases: &[] },
        Codepoint { codepoint: 0x1880A, name: "TANGUT COMPONENT-011", aliases: &[] },
        Codepoint { codepoint: 0x1880B, name: "TANGUT COMPONENT-012", aliases: &[] },
        Codepoint { codepoint: 0x1880C, name: "TANGUT COMPONENT-013", aliases: &[] },
    ];
    assert(v@ =~= codepoint_table_643());
    v
}

pub open spec fn codepoint_table_644() -> Seq<Codepoint> {
    seq![
        Codepoint { codepoint: 0x1880D, name: "TANGUT COMPONENT-014", aliases: &[] },
        Codepoint { codepoint: 0x1880E, name: "TANGUT COMPONENT-015", aliases: &[] },
        Codepoint { codepoint: 0x1880F, name: "TANGUT COMPONENT-016", aliases: &[] },
        Codepoint { codepoint: 0x18810, name: "TANGUT COMPONENT-017", aliases: &[] },
        Codepoint { codepoint: 0x18811, name: "TANGUT COMPONENT-018", aliases: &[] },
        Codepoint { codepoint: 0x18812, name: "TANGUT COMPONENT-019", aliases: &[] },
        Codepoint { codepoint: 0x18813, name: "TANGUT COMPONENT-020", aliases: &[] },
        Codepoint { codepoint: 0x18814, name: "TANGUT COMPONENT-021", aliases: &[] },
        Codepoint { codepoint: 0x18815, name: "TANGUT COMPONENT-022", aliases: &[] },
        Codepoint { codepoint: 0x18816, name: "TANGUT COMPONENT-023", aliases: &[] },
        Codepoint { codepoint: 0x18817, name: "TANGUT COMPONENT-024", aliases: &[] },
        Codepoint { codepoint: 0x18818, name: "TANGUT COMPONENT-025", aliases: &[] },
        Codepoint { codepoint: 0x18819, name: "TANGUT COMPONENT-026", aliases: &[] },
        Codepoint { codepoint: 0x1881A, name: "TANGUT COMPONENT-027", aliases: &[] },
        Codepoint { codepoint: 0x1881B, name: "TANGUT COMPONENT-028", aliases: &[] },
        Codepoint { codepoint: 0x1881C, name: "TANGUT COMPONENT-029", aliases: &[] },
        Codepoint { codepoint: 0x1881D, name: "TANGUT COMPONENT-030", aliases: &[] },
        Codepoint { codepoint: 0x1881E, name: "TANGUT COMPONENT-031", aliases: &[] },
        Codepoint { codepoint: 0x1881F, name: "TANGUT COMPONENT-032", aliases: &[] },
        Codepoint { codepoint: 0x18820, name: "TANGUT COMPONENT-033", aliases: &[] },
        Codepoint { codepoint: 0x18821, name: "TANGUT COMPONENT-034", aliases: &[] },
        Codepoint { codepoint: 0x18822, name: "TANGUT COMPONENT-035", aliases: &[] },
        Codepoint { codepoint: 0x18823, name: "TANGUT COMPONENT-036", aliases: &[] },
        Codepoint { codepoint: 0x18824, name: "TANGUT COMPONENT-037", aliases: &[] },
        Codepoint { codepoint: 0x18825, name: "TANGUT COMPONENT-038", aliases: &[] },
        Codepoint { codepoint: 0x18826, name: "TANGUT COMPONENT-039", aliases: &[] },
        Codepoint { codepoint: 0x18827, name: "TANGUT COMPONENT-040", aliases: &[] },
        Codepoint { codepoint: 0x18828, name: "TANGUT COMPONENT-041", aliases: &[] },
        Codepoint { codepoint: 0x18829, name: "TANGUT COMPONENT-042", aliases: &[] },
        Codepoint { codepoint: 0x1882A, name: "TANGUT COMPONENT-043", aliases: &[] },
        Codepoint { codepoint: 0x1882B, name: "TANGUT COMPONENT-044", aliases: &[] },
        Codepoint { codepoint: 0x1882C, name: "TANGUT COMPONENT-045", aliases: &[] },
        Codepoint { codepoint: 0x1882D, name: "TANGUT COMPONENT-046", aliases: &[] },
        Codepoint { codepoint: 0x1882E, name: "TANGUT COMPONENT-047", aliases: &[] },
        Codepoint { codepoint: 0x1882F, name: "TANGUT COMPONENT-048", aliases: &[] },
        Codepoint { codepoint: 0x18830, name: "TANGUT COMPONENT-049", aliases: &[] },
        Codepoint { codepoint: 0x18831, name: "TANGUT COMPONENT-050", aliases: &[] },
        Codepoint { codepoint: 0x18832, name: "TANGUT COMPONENT-051", aliases: &[] },
        Codepoint { codepoint: 0x18833, name: "TANGUT COMPONENT-052", aliases: &[] },
        Codepoint { codepoint: 0x18834, name: "TANGUT COMPONENT-053", aliases: &[] },
    ]
}

fn all_codepoints_644() -> (v: Vec<Codepoint>)
    ensures
        v@ == codepoint_table_644(),
{
    let v = vec![
        Codepoint { codepoint: 0x1880D, name: "TANGUT COMPONENT-014", aliases: &[] },
        Codepoint { codepoint: 0x1880E, name: "TANGUT COMPONENT-015", aliases: &[] },
        Codepoint { codepoint: 0x1880F, name: "TANGUT COMPONENT-016", aliases: &[] },
        Codepoint { codepoint: 0x18810, name: "TANGUT COMPONENT-017", aliases: &[] },
        Codepoint { codepoint: 0x18811, name: "TANGUT COMPONENT-018", aliases: &[] },
        Codepoint { codepoint: 0x18812, name: "TANGUT COMPONENT-019", aliases: &[] },
        Codepoint { codepoint: 0x18813, name: "TANGUT COMPONENT-020", aliases: &[] },
        Codepoint { codepoint: 0x18814, name: "TANGUT COMPONENT-021", aliases: &[] },
        Codepoint { codepoint: 0x18815, name: "TANGUT COMPONENT-022", aliases: &[] },
        Codepoint { codepoint: 0x18816, name: "TANGUT COMPONENT-023", aliases: &[] },
        Codepoint { codepoint: 0x18817, name: "TANGUT COMPONENT-024", aliases: &[] },
        Codepoint { codepoint: 0x18818, name: "TANGUT COMPONENT-025", aliases: &[] },
        Codepoint { codepoint: 0x18819, name: "TANGUT COMPONENT-026", aliases: &[] },
        Codepoint { codepoint: 0x1881A, name: "TANGUT COMPONENT-027", aliases: &[] },
        Codepoint { codepoint: 0x1881B, name: "TANGUT COMPONENT-028", aliases: &[] },
        Codepoint { codepoint: 0x1881C, name: "TANGUT COMPONENT-029", aliases: &[] },
        Codepoint { codepoint: 0x1881D, name: "TANGUT COMPONENT-030", aliases: &[] },
        Codepoint { codepoint: 0x1881E, name: "TANGUT COMPONENT-031", aliases: &[] },
        Codepoint { codepoint: 0x1881F, name: "TANGUT COMPONENT-032", aliases: &[] },
        Codepoint { codepoint: 0x18820, name: "TANGUT COMPONENT-033", aliases: &[] },
        Codepoint { codepoint: 0x18821, name: "TANGUT COMPONENT-034", aliases: &[] },
        Codepoint { codepoint: 0x18822, name: "TANGUT COMPONENT-035", aliases: &[] },
        Codepoint { codepoint: 0x18823, name: "TANGUT COMPONENT-036", aliases: &[] },
        Codepoint { codepoint: 0x18824, name: "TANGUT COMPONENT-037", aliases: &[] },
        Codepoint { codepoint: 0x18825, name: "TANGUT COMPONENT-038", aliases: &[] },
        Codepoint { codepoint: 0x18826, name: "TANGUT COMPONENT-039", aliases: &[] },
        Codepoint { codepoint: 0x18827, name: "TANGUT COMPONENT-040", aliases: &[] },
        Codepoint { codepoint: 0x18828, name: "TANGUT COMPONENT-041", aliases: &[] },
        Codepoint { codepoint: 0x18829, name: "TANGUT COMPONENT-042", aliases: &[] },
        Codepoint { codepoint: 0x1882A, name: "TANGUT COMPONENT-043", aliases: &[] },
        Codepoint { codepoint: 0x1882B, name: "TANGUT COMPONENT-044", aliases: &[] },
        Codepoint { codepoint: 0x1882C, name: "TANGUT COMPONENT-045", aliases: &[] },
        Codepoint { codepoint: 0x1882D, name: "TANGUT COMPONENT-046", aliases: &[] },
        Codepoint { codepoint: 0x1882E, name: "TANGUT COMPONENT-047", aliases: &[] },
        Codepoint { codepoint: 0x1882F, name: "TANGUT COMPONENT-048", aliases: &[] },
        Codepoint { codepoint: 0x18830, name: "TANGUT COMPONENT-049", aliases: &[] },
        Codepoint { codepoint: 0x18831, name: "TANGUT COMPONENT-050", aliases: &[] },
        Codepoint { codepoint: 0x18832, name: "TANGUT COMPONENT-051", aliases: &[] },
        Codepoint { codepoint: 0x18833, name: "TANGUT COMPONENT-052", aliases: &[] },
        Codepoint { codepoint: 0x18834, name: "TANGUT COMPONENT-053", aliases: &[] },
    ];
    assert(v@ =~= codepoint_table_644());
    v
}

pub open spec fn codepoint_table_645() -> Seq<Codepoint> {
    seq![
        Codepoint { codepoint: 0x18835, name: "TANGUT COMPONENT-054", aliases: &[] },
        Codepoint { codepoint: 0x18836, name: "TANGUT COMPONENT-055", aliases: &[] },
        Codepoint { codepoint: 0x18837, name: "TANGUT COMPONENT-056", aliases: &[] },
        Codepoint { codepoint: 0x18838, name: "TANGUT COMPONENT-057", aliases: &[] },
        Codepoint { codepoint: 0x18839, name: "TANGUT COMPONENT-058", aliases: &[] },
        Codepoint { codepoint: 0x1883A, name: "TANGUT COMPONENT-059", aliases: &[] },
        Codepoint { codepoint: 0x1883B, name: "TANGUT COMPONENT-060", aliases: &[] },
        Codepoint { codepoint: 0x1883C, name: "TANGUT COMPONENT-061", aliases: &[] },
        Codepoint { codepoint: 0x1883D, name: "TANGUT COMPONENT-062", aliases: &[] },
        Codepoint { codepoint: 0x1883E, name: "TANGUT COMPONENT-063", aliases: &[] },
        Codepoint { codepoint: 0x1883F, name: "TANGUT COMPONENT-064", aliases: &[] },
        Codepoint { codepoint: 0x18840, name: "TANGUT COMPONENT-065", aliases: &[] },
        Codepoint { codepoint: 0x18841, name: "TANGUT COMPONENT-066", aliases: &[] },
        Codepoint { codepoint: 0x18842, name: "TANGUT COMPONENT-067", aliases: &[] },
        Codepoint { codepoint: 0x18843, name: "TANGUT COMPONENT-068", aliases: &[] },
        Codepoint { codepoint: 0x18844, name: "TANGUT COMPONENT-069", aliases: &[] },
        Codepoint { codepoint: 0x18845, name: "TANGUT COMPONENT-070", aliases: &[] },
        Codepoint { codepoint: 0x18846, name: "TANGUT COMPONENT-071", aliases: &[] },
        Codepoint { codepoint: 0x18847, name: "TANGUT COMPONENT-072", aliases: &[] },
        Codepoint { codepoint: 0x18848, name: "TANGUT COMPONENT-073", aliases: &[] },
        Codepoint { codepoint: 0x18849, name: "TANGUT COMPONENT-074", aliases: &[] },
        Codepoint { codepoint: 0x1884A, name: "TANGUT COMPONENT-075", aliases: &[] },
        Codepoint { codepoint: 0x1884B, name: "TANGUT COMPONENT-076", aliases: &[] },
        Codepoint { codepoint: 0x1884C, name: "TANGUT COMPONENT-077", aliases: &[] },
        Codepoint { codepoint: 0x1884D, name: "TANGUT COMPONENT-078", aliases: &[] },
        Codepoint { codepoint: 0x1884E, name: "TANGUT COMPONENT-079", aliases: &[] },
        Codepoint { codepoint: 0x1884F, name: "TANGUT COMPONENT-080", aliases: &[] },
        Codepoint { codepoint: 0x18850, name: "TANGUT COMPONENT-081", aliases: &[] },
        Codepoint { codepoint: 0x18851, name: "TANGUT COMPONENT-082", aliases: &[] },
        Codepoint { codepoint: 0x18852, name: "TANGUT COMPONENT-083", aliases: &[] },
        Codepoint { codepoint: 0x18853, name: "TANGUT COMPONENT-084", aliases: &[] },
        Codepoint { codepoint: 0x18854, name: "TANGUT COMPONENT-085", aliases: &[] },
        Codepoint { codepoint: 0x18855, name: "TANGUT COMPONENT-086", aliases: &[] },
        Codepoint { codepoint: 0x18856, name: "TANGUT COMPONENT-087", aliases: &[] },
        Codepoint { codepoint: 0x18857, name: "TANGUT COMPONENT-088", aliases: &[] },
        Codepoint { codepoint: 0x18858, name: "TANGUT COMPONENT-089", aliases: &[] },
        Codepoint { codepoint: 0x18859, name: "TANGUT COMPONENT-090", aliases: &[] },
        Codepoint { codepoint: 0x1885A, name: "TANGUT COMPONENT-091", aliases: &[] },
        Codepoint { codepoint: 0x1885B, name: "TANGUT COMPONENT-092", aliases: &[] },
        Codepoint { codepoint: 0x1885C, name: "TANGUT COMPONENT-093", aliases: &[] },
    ]
}

fn all_codepoints_645() -> (v: Vec<Codepoint>)
    ensures
        v@ == codepoint_table_645(),
{
    let v = vec![
        Codepoint { codepoint: 0x18835, name: "TANGUT COMPONENT-054", aliases: &[] },
        Codepoint { codepoint: 0x18836, name: "TANGUT COMPONENT-055", aliases: &[] },
        Codepoint { codepoint: 0x18837, name: "TANGUT COMPONENT-056", aliases: &[] },
        Codepoint { codepoint: 0x18838, name: "TANGUT COMPONENT-057", aliases: &[] },
        Codepoint { codepoint: 0x18839, name: "TANGUT COMPONENT-058", aliases: &[] },
        Codepoint { codepoint: 0x1883A, name: "TANGUT COMPONENT-059", aliases: &[] },
        Codepoint { codepoint: 0x1883B, name: "TANGUT COMPONENT-060", aliases: &[] },
        Codepoint { codepoint: 0x1883C, name: "TANGUT COMPONENT-061", aliases: &[] },
        Codepoint { codepoint: 0x1883D, name: "TANGUT COMPONENT-062", aliases: &[] },
        Codepoint { codepoint: 0x1883E, name: "TANGUT COMPONENT-063", aliases: &[] },
        Codepoint { codepoint: 0x1883F, name: "TANGUT COMPONENT-064", aliases: &[] },
        Codepoint { codepoint: 0x18840, name: "TANGUT COMPONENT-065", aliases: &[] },
        Codepoint { codepoint: 0x18841, name: "TANGUT COMPONENT-066", aliases: &[] },
        Codepoint { codepoint: 0x18842, name: "TANGUT COMPONENT-067", aliases: &[] },
        Codepoint { codepoint: 0x18843, name: "TANGUT COMPONENT-068", aliases: &[] },
        Codepoint { codepoint: 0x18844, name: "TANGUT COMPONENT-069", aliases: &[] },
        Codepoint { codepoint: 0x18845, name: "TANGUT COMPONENT-070", aliases: &[] },
        Codepoint { codepoint: 0x18846, name: "TANGUT COMPONENT-071", aliases: &[] },
        Codepoint { codepoint: 0x18847, name: "TANGUT COMPONENT-072", aliases: &[] },
        Codepoint { codepoint: 0x18848, name: "TANGUT COMPONENT-073", aliases: &[] },
        Codepoint { codepoint: 0x18849, name: "TANGUT COMPONENT-074", aliases: &[] },
        Codepoint { codepoint: 0x1884A, name: "TANGUT COMPONENT-075", aliases: &[] },
        Codepoint { codepoint: 0x1884B, name: "TANGUT COMPONENT-076", aliases: &[] },
        Codepoint { codepoint: 0x1884C, name: "TANGUT COMPONENT-077", aliases: &[] },
        Codepoint { codepoint: 0x1884D, name: "TANGUT COMPONENT-078", aliases: &[] },
        Codepoint { codepoint: 0x1884E, name: "TANGUT COMPONENT-079", aliases: &[] },
        Codepoint { codepoint: 0x1884F, name: "TANGUT COMPONENT-080", aliases: &[] },
        Codepoint { codepoint: 0x18850, name: "TANGUT COMPONENT-081", aliases: &[] },
        Codepoint { codepoint: 0x18851, name: "TANGUT COMPONENT-082", aliases: &[] },
        Codepoint { codepoint: 0x18852, name: "TANGUT COMPONENT-083", aliases: &[] },
        Codepoint { codepoint: 0x18853, name: "TANGUT COMPONENT-084", aliases: &[] },
        Codepoint { codepoint: 0x18854, name: "TANGUT COMPONENT-085", aliases: &[] },
        Codepoint { codepoint: 0x18855, name: "TANGUT COMPONENT-086", aliases: &[] },
        Codepoint { codepoint: 0x18856, name: "TANGUT COMPONENT-087", aliases: &[] },
        Codepoint { codepoint: 0x18857, name: "TANGUT COMPONENT-088", aliases: &[] },
        Codepoint { codepoint: 0x18858, name: "TANGUT COMPONENT-089", aliases: &[] },
        Codepoint { codepoint: 0x18859, name: "TANGUT COMPONENT-090", aliases: &[] },
        Codepoint { codepoint: 0x1885A, name: "TANGUT COMPONENT-091", aliases: &[] },
        Codepoint { codepoint: 0x1885B, name: "TANGUT COMPONENT-092", aliases: &[] },
        Codepoint { codepoint: 0x1885C, name: "TANGUT COMPONENT-093", aliases: &[] },
    ];
    assert(v@ =~= codepoint_table_645());
    v
}

pub open spec fn codepoint_table_646() -> Seq<Codepoint> {
    seq![
        Codepoint { codepoint: 0x1885D, name: "TANGUT COMPONENT-094", aliases: &[] },
        Codepoint { codepoint: 0x1885E, name: "TANGUT COMPONENT-095", aliases: &[] },
        Codepoint { codepoint: 0x1885F, name: "TANGUT COMPONENT-096", aliases: &[] },
        Codepoint { codepoint: 0x18860, name: "TANGUT COMPONENT-097", aliases: &[] },
        Codepoint { codepoint: 0x18861, name: "TANGUT COMPONENT-098", aliases: &[] },
        Codepoint { codepoint: 0x18862, name: "TANGUT COMPONENT-099", aliases: &[] },
        Codepoint { codepoint: 0x18863, name: "TANGUT COMPONENT-100", aliases: &[] },
        Codepoint { codepoint: 0x18864, name: "TANGUT COMPONENT-101", aliases: &[] },
        Codepoint { codepoint: 0x18865, name: "TANGUT COMPONENT-102", aliases: &[] },
        Codepoint { codepoint: 0x18866, name: "TANGUT COMPONENT-103", aliases: &[] },
        Codepoint { codepoint: 0x18867, name: "TANGUT COMPONENT-104", aliases: &[] },
        Codepoint { codepoint: 0x18868, name: "TANGUT COMPONENT-105", aliases: &[] },
        Codepoint { codepoint: 0x18869, name: "TANGUT COMPONENT-106", aliases: &[] },
        Codepoint { codepoint: 0x1886A, name: "TANGUT COMPONENT-107", aliases: &[] },
        Codepoint { codepoint: 0x1886B, name: "TANGUT COMPONENT-108", aliases: &[] },
        Codepoint { codepoint: 0x1886C, name: "TANGUT COMPONENT-109", aliases: &[] },
        Codepoint { codepoint: 0x1886D, name: "TANGUT COMPONENT-110", aliases: &[] },
        Codepoint { codepoint: 0x1886E, name: "TANGUT COMPONENT-111", aliases: &[] },
        Codepoint { codepoint: 0x1886F, name: "TANGUT COMPONENT-112", aliases: &[] },
        Codepoint { codepoint: 0x18870, name: "TANGUT COMPONENT-113", aliases: &[] },
        Codepoint { codepoint: 0x18871, name: "TANGUT COMPONENT-114", aliases: &[] },
        Codepoint { codepoint: 0x18872, name: "TANGUT COMPONENT-115", aliases: &[] },
        Codepoint { codepoint: 0x18873, name: "TANGUT COMPONENT-116", aliases: &[] },
        Codepoint { codepoint: 0x18874, name: "TANGUT COMPONENT-117", aliases: &[] },
        Codepoint { codepoint: 0x18875, name: "TANGUT COMPONENT-118", aliases: &[] },
        Codepoint { codepoint: 0x18876, name: "TANGUT COMPONENT-119", aliases: &[] },
        Codepoint { codepoint: 0x18877, name: "TANGUT COMPONENT-120", aliases: &[] },
        Codepoint { codepoint: 0x18878, name: "TANGUT COMPONENT-121", aliases: &[] },
        Codepoint { codepoint: 0x18879, name: "TANGUT COMPONENT-122", aliases: &[] },
        Codepoint { codepoint: 0x1887A, name: "TANGUT COMPONENT-123", aliases: &[] },
        Codepoint { codepoint: 0x1887B, name: "TANGUT COMPONENT-124", aliases: &[] },
        Codepoint { codepoint: 0x1887C, name: "TANGUT COMPONENT-125", aliases: &[] },
        Codepoint { codepoint: 0x1887D, name: "TANGUT COMPONENT-126", aliases: &[] },
        Codepoint { codepoint: 0x1887E, name: "TANGUT COMPONENT-127", aliases: &[] },
        Codepoint { codepoint: 0x1887F, name: "TANGUT COMPONENT-128", aliases: &[] },
        Codepoint { codepoint: 0x18880, name: "TANGUT COMPONENT-129", aliases: &[] },
        Codepoint { codepoint: 0x18881, name: "TANGUT COMPONENT-130", aliases: &[] },
        Codepoint { codepoint: 0x18882, name: "TANGUT COMPONENT-131", aliases: &[] },
        Codepoint { codepoint: 0x18883, name: "TANGUT COMPONENT-132", aliases: &[] },
        Codepoint { codepoint: 0x18884, name: "TANGUT COMPONENT-133", aliases: &[] },
    ]
}

fn all_codepoints_646() -> (v: Vec<Codepoint>)
    ensures
        v@ == codepoint_table_646(),
{
    let v = vec![
        Codepoint { codepoint: 0x1885D, name: "TANGUT COMPONENT-094", aliases: &[] },
        Codepoint { codepoint: 0x1885E, name: "TANGUT COMPONENT-095", aliases: &[] },
        Codepoint { codepoint: 0x1885F, name: "TANGUT COMPONENT-096", aliases: &[] },
        Codepoint { codepoint: 0x18860, name: "TANGUT COMPONENT-097", aliases: &[] },
        Codepoint { codepoint: 0x18861, name: "TANGUT COMPONENT-098", aliases: &[] },
        Codepoint { codepoint: 0x18862, name: "TANGUT COMPONENT-099", aliases: &[] },
        Codepoint { codepoint: 0x18863, name: "TANGUT COMPONENT-100", aliases: &[] },
        Codepoint { codepoint: 0x18864, name: "TANGUT COMPONENT-101", aliases: &[] },
        Codepoint { codepoint: 0x18865, name: "TANGUT COMPONENT-102", aliases: &[] },
        Codepoint { codepoint: 0x18866, name: "TANGUT COMPONENT-103", aliases: &[] },
        Codepoint { codepoint: 0x18867, name: "TANGUT COMPONENT-104", aliases: &[] },
        Codepoint { codepoint: 0x18868, name: "TANGUT COMPONENT-105", aliases: &[] },
        Codepoint { codepoint: 0x18869, name: "TANGUT COMPONENT-106", aliases: &[] },
        Codepoint { codepoint: 0x1886A, name: "TANGUT COMPONENT-107", aliases: &[] },
        Codepoint { codepoint: 0x1886B, name: "TANGUT COMPONENT-108", aliases: &[] },
        Codepoint { codepoint: 0x1886C, name: "TANGUT COMPONENT-109", aliases: &[] },
        Codepoint { codepoint: 0x1886D, name: "TANGUT COMPONENT-110", aliases: &[] },
        Codepoint { codepoint: 0x1886E, name: "TANGUT COMPONENT-111", aliases: &[] },
        Codepoint { codepoint: 0x1886F, name: "TANGUT COMPONENT-112", aliases: &[] },
        Codepoint { codepoint: 0x18870, name: "TANGUT COMPONENT-113", aliases: &[] },
        Codepoint { codepoint: 0x18871, name: "TANGUT COMPONENT-114", aliases: &[] },
        Codepoint { codepoint: 0x18872, name: "TANGUT COMPONENT-115", aliases: &[] },
        Codepoint { codepoint: 0x18873, name: "TANGUT COMPONENT-116", aliases: &[] },
        Codepoint { codepoint: 0x18874, name: "TANGUT COMPONENT-117", aliases: &[] },
        Codepoint { codepoint: 0x18875, name: "TANGUT COMPONENT-118", aliases: &[] },
        Codepoint { codepoint: 0x18876, name: "TANGUT COMPONENT-119", aliases: &[] },
        Codepoint { codepoint: 0x18877, name: "TANGUT COMPONENT-120", aliases: &[] },
        Codepoint { codepoint: 0x18878, name: "TANGUT COMPONENT-121", aliases: &[] },
        Codepoint { codepoint: 0x18879, name: "TANGUT COMPONENT-122", aliases: &[] },
        Codepoint { codepoint: 0x1887A, name: "TANGUT COMPONENT-123", aliases: &[] },
        Codepoint { codepoint: 0x1887B, name: "TANGUT COMPONENT-124", aliases: &[] },
        Codepoint { codepoint: 0x1887C, name: "TANGUT COMPONENT-125", aliases: &[] },
        Codepoint { codepoint: 0x1887D, name: "TANGUT COMPONENT-126", aliases: &[] },
        Codepoint { codepoint: 0x1887E, name: "TANGUT COMPONENT-127", aliases: &[] },
        Codepoint { codepoint: 0x1887F, name: "TANGUT COMPONENT-128", aliases: &[] },
        Codepoint { codepoint: 0x18880, name: "TANGUT COMPONENT-129", aliases: &[] },
        Codepoint { codepoint: 0x18881, name: "TANGUT COMPONENT-130", aliases: &[] },
        Codepoint { codepoint: 0x18882, name: "TANGUT COMPONENT-131", aliases: &[] },
        Codepoint { codepoint: 0x18883, name: "TANGUT COMPONENT-132", aliases: &[] },
        Codepoint { codepoint: 0x18884, name: "TANGUT COMPONENT-133", aliases: &[] },
    ];
    assert(v@ =~= codepoint_table_646());
    v
}

pub open spec fn codepoint_table_647() -> Seq<Codepoint> {
    seq![
        Codepoint { codepoint: 0x18885, name: "TANGUT COMPONENT-134", aliases: &[] },
        Codepoint { codepoint: 0x18886, name: "TANGUT COMPONENT-135", aliases: &[] },
        Codepoint { codepoint: 0x18887, name: "TANGUT COMPONENT-136", aliases: &[] },
        Codepoint { codepoint: 0x18888, name: "TANGUT COMPONENT-137", aliases: &[] },
        Codepoint { codepoint: 0x18889, name: "TANGUT COMPONENT-138", aliases: &[] },
        Codepoint { codepoint: 0x1888A, name: "TANGUT COMPONENT-139", aliases: &[] },
        Codepoint { codepoint: 0x1888B, name: "TANGUT COMPONENT-140", aliases: &[] },
        Codepoint { codepoint: 0x1888C, name: "TANGUT COMPONENT-141", aliases: &[] },
        Codepoint { codepoint: 0x1888D, name: "TANGUT COMPONENT-142", aliases: &[] },
        Codepoint { codepoint: 0x1888E, name: "TANGUT COMPONENT-143", aliases: &[] },
        Codepoint { codepoint: 0x1888F, name: "TANGUT COMPONENT-144", aliases: &[] },
        Codepoint { codepoint: 0x18890, name: "TANGUT COMPONENT-145", aliases: &[] },
        Codepoint { codepoint: 0x18891, name: "TANGUT COMPONENT-146", aliases: &[] },
        Codepoint { codepoint: 0x18892, name: "TANGUT COMPONENT-147", aliases: &[] },
        Codepoint { codepoint: 0x18893, name: "TANGUT COMPONENT-148", aliases: &[] },
        Codepoint { codepoint: 0x18894, name: "TANGUT COMPONENT-149", aliases: &[] },
        Codepoint { codepoint: 0x18895, name: "TANGUT COMPONENT-150", aliases: &[] },
        Codepoint { codepoint: 0x18896, name: "TANGUT COMPONENT-151", aliases: &[] },
        Codepoint { codepoint: 0x18897, name: "TANGUT COMPONENT-152", aliases: &[] },
        Codepoint { codepoint: 0x18898, name: "TANGUT COMPONENT-153", aliases: &[] },
        Codepoint { codepoint: 0x18899, name: "TANGUT COMPONENT-154", aliases: &[] },
        Codepoint { codepoint: 0x1889A, name: "TANGUT COMPONENT-155", aliases: &[] },
        Codepoint { codepoint: 0x1889B, name: "TANGUT COMPONENT-156", aliases: &[] },
        Codepoint { codepoint: 0x1889C, name: "TANGUT COMPONENT-157", aliases: &[] },
        Codepoint { codepoint: 0x1889D, name: "TANGUT COMPONENT-158", aliases: &[] },
        Codepoint { codepoint: 0x1889E, name: "TANGUT COMPONENT-159", aliases: &[] },
        Codepoint { codepoint: 0x1889F, name: "TANGUT COMPONENT-160", aliases: &[] },
        Codepoint { codepoint: 0x188A0, name: "TANGUT COMPONENT-161", aliases: &[] },
        Codepoint { codepoint: 0x188A1, name: "TANGUT COMPONENT-162", aliases: &[] },
        Codepoint { codepoint: 0x188A2, name: "TANGUT COMPONENT-163", aliases: &[] },
        Codepoint { codepoint: 0x188A3, name: "TANGUT COMPONENT-164", aliases: &[] },
        Codepoint { codepoint: 0x188A4, name: "TANGUT COMPONENT-165", aliases: &[] },
        Codepoint { codepoint: 0x188A5, name: "TANGUT COMPONENT-166", aliases: &[] },
        Codepoint { codepoint: 0x188A6, name: "TANGUT COMPONENT-167", aliases: &[] },
        Codepoint { codepoint: 0x188A7, name: "TANGUT COMPONENT-168", aliases: &[] },
        Codepoint { codepoint: 0x188A8, name: "TANGUT COMPONENT-169", aliases: &[] },
        Codepoint { codepoint: 0x188A9, name: "TANGUT COMPONENT-170", aliases: &[] },
        Codepoint { codepoint: 0x188AA, name: "TANGUT COMPONENT-171", aliases: &[] },
        Codepoint { codepoint: 0x188AB, name: "TANGUT COMPONENT-172", aliases: &[] },
        Codepoint { codepoint: 0x188AC, name: "TANGUT COMPONENT-173", aliases: &[] },
    ]
}

fn all_codepoints_647() -> (v: Vec<Codepoint>)
    ensures
        v@ == codepoint_table_647(),
{
    let v = vec![
        Codepoint { codepoint: 0x18885, name: "TANGUT COMPONENT-134", aliases: &[] },
        Codepoint { codepoint: 0x18886, name: "TANGUT COMPONENT-135", aliases: &[] },
        Codepoint { codepoint: 0x18887, name: "TANGUT COMPONENT-136", aliases: &[] },
        Codepoint { codepoint: 0x18888, name: "TANGUT COMPONENT-137", aliases: &[] },
        Codepoint { codepoint: 0x18889, name: "TANGUT COMPONENT-138", aliases: &[] },
        Codepoint { codepoint: 0x1888A, name: "TANGUT COMPONENT-139", aliases: &[] },
        Codepoint { codepoint: 0x1888B, name: "TANGUT COMPONENT-140", aliases: &[] },
        Codepoint { codepoint: 0x1888C, name: "TANGUT COMPONENT-141", aliases: &[] },
        Codepoint { codepoint: 0x1888D, name: "TANGUT COMPONENT-142", aliases: &[] },
        Codepoint { codepoint: 0x1888E, name: "TANGUT COMPONENT-143", aliases: &[] },
        Codepoint { codepoint: 0x1888F, name: "TANGUT COMPONENT-144", aliases: &[] },
        Codepoint { codepoint: 0x18890, name: "TANGUT COMPONENT-145", aliases: &[] },
        Codepoint { codepoint: 0x18891, name: "TANGUT COMPONENT-146", aliases: &[] },
        Codepoint { codepoint: 0x18892, name: "TANGUT COMPONENT-147", aliases: &[] },
        Codepoint { codepoint: 0x18893, name: "TANGUT COMPONENT-148", aliases: &[] },
        Codepoint { codepoint: 0x18894, name: "TANGUT COMPONENT-149", aliases: &[] },
        Codepoint { codepoint: 0x18895, name: "TANGUT COMPONENT-150", aliases: &[] },
        Codepoint { codepoint: 0x18896, name: "TANGUT COMPONENT-151", aliases: &[] },
        Codepoint { codepoint: 0x18897, name: "TANGUT COMPONENT-152", aliases: &[] },
        Codepoint { codepoint: 0x18898, name: "TANGUT COMPONENT-153", aliases: &[] },
        Codepoint { codepoint: 0x18899, name: "TANGUT COMPONENT-154", aliases: &[] },
        Codepoint { codepoint: 0x1889A, name: "TANGUT COMPONENT-155", aliases: &[] },
        Codepoint { codepoint: 0x1889B, name: "TANGUT COMPONENT-156", aliases: &[] },
        Codepoint { codepoint: 0x1889C, name: "TANGUT COMPONENT-157", aliases: &[] },
        Codepoint { codepoint: 0x1889D, name: "TANGUT COMPONENT-158", aliases: &[] },
        Codepoint { codepoint: 0x1889E, name: "TANGUT COMPONENT-159", aliases: &[] },
        Codepoint { codepoint: 0x1889F, name: "TANGUT COMPONENT-160", aliases: &[] },
        Codepoint { codepoint: 0x188A0, name: "TANGUT COMPONENT-161", aliases: &[] },
        Codepoint { codepoint: 0x188A1, name: "TANGUT COMPONENT-162", aliases: &[] },
        Codepoint { codepoint: 0x188A2, name: "TANGUT COMPONENT-163", aliases: &[] },
        Codepoint { codepoint: 0x188A3, name: "TANGUT COMPONENT-164", aliases: &[] },
        Codepoint { codepoint: 0x188A4, name: "TANGUT COMPONENT-165", aliases: &[] },
        Codepoint { codepoint: 0x188A5, name: "TANGUT COMPONENT-166", aliases: &[] },
        Codepoint { codepoint: 0x188A6, name: "TANGUT COMPONENT-167", aliases: &[] },
        Codepoint { codepoint: 0x188A7, name: "TANGUT COMPONENT-168", aliases: &[] },
        Codepoint { codepoint: 0x188A8, name: "TANGUT COMPONENT-169", aliases: &[] },
        Codepoint { codepoint: 0x188A9, name: "TANGUT COMPONENT-170", aliases: &[] },
        Codepoint { codepoint: 0x188AA, name: "TANGUT COMPONENT-171", aliases: &[] },
        Codepoint { codepoint: 0x188AB, name: "TANGUT COMPONENT-172", aliases: &[] },
        Codepoint { codepoint: 0x188AC, name: "TANGUT COMPONENT-173", aliases: &[] },
    ];
    assert(v@ =~= codepoint_table_647());
    v
}

pub open spec fn codepoint_table_648() -> Seq<Codepoint> {
    seq![
        Codepoint { codepoint: 0x188AD, name: "TANGUT COMPONENT-174", aliases: &[] },
        Codepoint { codepoint: 0x188AE, name: "TANGUT COMPONENT-175", aliases: &[] },
        Codepoint { codepoint: 0x188AF, name: "TANGUT COMPONENT-176", aliases: &[] },
        Codepoint { codepoint: 0x188B0, name: "TANGUT COMPONENT-177", aliases: &[] },
        Codepoint { codepoint: 0x188B1, name: "TANGUT COMPONENT-178", aliases: &[] },
        Codepoint { codepoint: 0x188B2, name: "TANGUT COMPONENT-179", aliases: &[] },
        Codepoint { codepoint: 0x188B3, name: "TANGUT COMPONENT-180", aliases: &[] },
        Codepoint { codepoint: 0x188B4, name: "TANGUT COMPONENT-181", aliases: &[] },
        Codepoint { codepoint: 0x188B5, name: "TANGUT COMPONENT-182", aliases: &[] },
        Codepoint { codepoint: 0x188B6, name: "TANGUT COMPONENT-183", aliases: &[] },
        Codepoint { codepoint: 0x188B7, name: "TANGUT COMPONENT-184", aliases: &[] },
        Codepoint { codepoint: 0x188B8, name: "TANGUT COMPONENT-185", aliases: &[] },
        Codepoint { codepoint: 0x188B9, name: "TANGUT COMPONENT-186", aliases: &[] },
        Codepoint { codepoint: 0x188BA, name: "TANGUT COMPONENT-187", aliases: &[] },
        Codepoint { codepoint: 0x188BB, name: "TANGUT COMPONENT-188", aliases: &[] },
        Codepoint { codepoint: 0x188BC, name: "TANGUT COMPONENT-189", aliases: &[] },
        Codepoint { codepoint: 0x188BD, name: "TANGUT COMPONENT-190", aliases: &[] },
        Codepoint { codepoint: 0x188BE, name: "TANGUT COMPONENT-191", aliases: &[] },
        Codepoint { codepoint: 0x188BF, name: "TANGUT COMPONENT-192", aliases: &[] },
        Codepoint { codepoint: 0x188C0, name: "TANGUT COMPONENT-193", aliases: &[] },
        Codepoint { codepoint: 0x188C1, name: "TANGUT COMPONENT-194", aliases: &[] },
        Codepoint { codepoint: 0x188C2, name: "TANGUT COMPONENT-195", aliases: &[] },
        Codepoint { codepoint: 0x188C3, name: "TANGUT COMPONENT-196", aliases: &[] },
        Codepoint { codepoint: 0x188C4, name: "TANGUT COMPONENT-197", aliases: &[] },
        Codepoint { codepoint: 0x188C5, name: "TANGUT COMPONENT-198", aliases: &[] },
        Codepoint { codepoint: 0x188C6, name: "TANGUT COMPONENT-199", aliases: &[] },
        Codepoint { codepoint: 0x188C7, name: "TANGUT COMPONENT-200", aliases: &[] },
        Codepoint { codepoint: 0x188C8, name: "TANGUT COMPONENT-201", aliases: &[] },
        Codepoint { codepoint: 0x188C9, name: "TANGUT COMPONENT-202", aliases: &[] },
        Codepoint { codepoint: 0x188CA, name: "TANGUT COMPONENT-203", aliases: &[] },
        Codepoint { codepoint: 0x188CB, name: "TANGUT COMPONENT-204", aliases: &[] },
        Codepoint { codepoint: 0x188CC, name: "TANGUT COMPONENT-205", aliases: &[] },
        Codepoint { codepoint: 0x188CD, name: "TANGUT COMPONENT-206", aliases: &[] },
        Codepoint { codepoint: 0x188CE, name: "TANGUT COMPONENT-207", aliases: &[] },
        Codepoint { codepoint: 0x188CF, name: "TANGUT COMPONENT-208", aliases: &[] },
        Codepoint { codepoint: 0x188D0, name: "TANGUT COMPONENT-209", aliases: &[] },
        Codepoint { codepoint: 0x188D1, name: "TANGUT COMPONENT-210", aliases: &[] },
        Codepoint { codepoint: 0x188D2, name: "TANGUT COMPONENT-211", aliases: &[] },
        Codepoint { codepoint: 0x188D3, name: "TANGUT COMPONENT-212", aliases: &[] },
        Codepoint { codepoint: 0x188D4, name: "TANGUT COMPONENT-213", aliases: &[] },
    ]
}

fn all_codepoints_648() -> (v: Vec<Codepoint>)
    ensures
        v@ == codepoint_table_648(),
{
    let v = vec![
        Codepoint { codepoint: 0x188AD, name: "TANGUT COMPONENT-174", aliases: &[] },
        Codepoint { codepoint: 0x188AE, name: "TANGUT COMPONENT-175", aliases: &[] },
        Codepoint { codepoint: 0x188AF, name: "TANGUT COMPONENT-176", aliases: &[] },
        Codepoint { codepoint: 0x188B0, name: "TANGUT COMPONENT-177", aliases: &[] },
        Codepoint { codepoint: 0x188B1, name: "TANGUT COMPONENT-178", aliases: &[] },
        Codepoint { codepoint: 0x188B2, name: "TANGUT COMPONENT-179", aliases: &[] },
        Codepoint { codepoint: 0x188B3, name: "TANGUT COMPONENT-180", aliases: &[] },
        Codepoint { codepoint: 0x188B4, name: "TANGUT COMPONENT-181", aliases: &[] },
        Codepoint { codepoint: 0x188B5, name: "TANGUT COMPONENT-182", aliases: &[] },
        Codepoint { codepoint: 0x188B6, name: "TANGUT COMPONENT-183", aliases: &[] },
        Codepoint { codepoint: 0x188B7, name: "TANGUT COMPONENT-184", aliases: &[] },
        Codepoint { codepoint: 0x188B8, name: "TANGUT COMPONENT-185", aliases: &[] },
        Codepoint { codepoint: 0x188B9, name: "TANGUT COMPONENT-186", aliases: &[] },
        Codepoint { codepoint: 0x188BA, name: "TANGUT COMPONENT-187", aliases: &[] },
        Codepoint { codepoint: 0x188BB, name: "TANGUT COMPONENT-188", aliases: &[] },
        Codepoint { codepoint: 0x188BC, name: "TANGUT COMPONENT-189", aliases: &[] },
        Codepoint { codepoint: 0x188BD, name: "TANGUT COMPONENT-190", aliases: &[] },
        Codepoint { codepoint: 0x188BE, name: "TANGUT COMPONENT-191", aliases: &[] },
        Codepoint { codepoint: 0x188BF, name: "TANGUT COMPONENT-192", aliases: &[] },
        Codepoint { codepoint: 0x188C0, name: "TANGUT COMPONENT-193", aliases: &[] },
        Codepoint { codepoint: 0x188C1, name: "TANGUT COMPONENT-194", aliases: &[] },
        Codepoint { codepoint: 0x188C2, name: "TANGUT COMPONENT-195", aliases: &[] },
        Codepoint { codepoint: 0x188C3, name: "TANGUT COMPONENT-196", aliases: &[] },
        Codepoint { codepoint: 0x188C4, name: "TANGUT COMPONENT-197", aliases: &[] },
        Codepoint { codepoint: 0x188C5, name: "TANGUT COMPONENT-198", aliases: &[] },
        Codepoint { codepoint: 0x188C6, name: "TANGUT COMPONENT-199", aliases: &[] },
        Codepoint { codepoint: 0x188C7, name: "TANGUT COMPONENT-200", aliases: &[] },
        Codepoint { codepoint: 0x188C8, name: "TANGUT COMPONENT-201", aliases: &[] },
        Codepoint { codepoint: 0x188C9, name: "TANGUT COMPONENT-202", aliases: &[] },
        Codepoint { codepoint: 0x188CA, name: "TANGUT COMPONENT-203", aliases: &[] },
        Codepoint { codepoint: 0x188CB, name: "TANGUT COMPONENT-204", aliases: &[] },
        Codepoint { codepoint: 0x188CC, name: "TANGUT COMPONENT-205", aliases: &[] },
        Codepoint { codepoint: 0x188CD, name: "TANGUT COMPONENT-206", aliases: &[] },
        Codepoint { codepoint: 0x188CE, name: "TANGUT COMPONENT-207", aliases: &[] },
        Codepoint { codepoint: 0x188CF, name: "TANGUT COMPONENT-208", aliases: &[] },
        Codepoint { codepoint: 0x188D0, name: "TANGUT COMPONENT-209", aliases: &[] },
        Codepoint { codepoint: 0x188D1, name: "TANGUT COMPONENT-210", aliases: &[] },
        Codepoint { codepoint: 0x188D2, name: "TANGUT COMPONENT-211", aliases: &[] },
        Codepoint { codepoint: 0x188D3, name: "TANGUT COMPONENT-212", aliases: &[] },
        Codepoint { codepoint: 0x188D4, name: "TANGUT COMPONENT-213", aliases: &[] },
    ];
    assert(v@ =~= codepoint_table_648());
    v
}

pub open spec fn codepoint_table_649() -> Seq<Codepoint> {
    seq![
        Codepoint { codepoint: 0x188D5, name: "TANGUT COMPONENT-214", aliases: &[] },
        Codepoint { codepoint: 0x188D6, name: "TANGUT COMPONENT-215", aliases: &[] },
        Codepoint { codepoint: 0x188D7, name: "TANGUT COMPONENT-216", aliases: &[] },
        Codepoint { codepoint: 0x188D8, name: "TANGUT COMPONENT-217", aliases: &[] },
        Codepoint { codepoint: 0x188D9, name: "TANGUT COMPONENT-218", aliases: &[] },
        Codepoint { codepoint: 0x188DA, name: "TANGUT COMPONENT-219", aliases: &[] },
        Codepoint { codepoint: 0x188DB, name: "TANGUT COMPONENT-220", aliases: &[] },
        Codepoint { codepoint: 0x188DC, name: "TANGUT COMPONENT-221", aliases: &[] },
        Codepoint { codepoint: 0x188DD, name: "TANGUT COMPONENT-222", aliases: &[] },
        Codepoint { codepoint: 0x188DE, name: "TANGUT COMPONENT-223", aliases: &[] },
        Codepoint { codepoint: 0x188DF, name: "TANGUT COMPONENT-224", aliases: &[] },
        Codepoint { codepoint: 0x188E0, name: "TANGUT COMPONENT-225", aliases: &[] },
        Codepoint { codepoint: 0x188E1, name: "TANGUT COMPONENT-226", aliases: &[] },
        Codepoint { codepoint: 0x188E2, name: "TANGUT COMPONENT-227", aliases: &[] },
        Codepoint { codepoint: 0x188E3, name: "TANGUT COMPONENT-228", aliases: &[] },
        Codepoint { codepoint: 0x188E4, name: "TANGUT COMPONENT-229", aliases: &[] },
        Codepoint { codepoint: 0x188E5, name: "TANGUT COMPONENT-230", aliases: &[] },
        Codepoint { codepoint: 0x188E6, name: "TANGUT COMPONENT-231", aliases: &[] },
        Codepoint { codepoint: 0x188E7, name: "TANGUT COMPONENT-232", aliases: &[] },
        Codepoint { codepoint: 0x188E8, name: "TANGUT COMPONENT-233", aliases: &[] },
        Codepoint { codepoint: 0x188E9, name: "TANGUT COMPONENT-234", aliases: &[] },
        Codepoint { codepoint: 0x188EA, name: "TANGUT COMPONENT-235", aliases: &[] },
        Codepoint { codepoint: 0x188EB, name: "TANGUT COMPONENT-236", aliases: &[] },
        Codepoint { codepoint: 0x188EC, name: "TANGUT COMPONENT-237", aliases: &[] },
        Codepoint { codepoint: 0x188ED, name: "TANGUT COMPONENT-238", aliases: &[] },
        Codepoint { codepoint: 0x188EE, name: "TANGUT COMPONENT-239", aliases: &[] },
        Codepoint { codepoint: 0x188EF, name: "TANGUT COMPONENT-240", aliases: &[] },
        Codepoint { codepoint: 0x188F0, name: "TANGUT COMPONENT-241", aliases: &[] },
        Codepoint { codepoint: 0x188F1, name: "TANGUT COMPONENT-242", aliases: &[] },
        Codepoint { codepoint: 0x188F2, name: "TANGUT COMPONENT-243", aliases: &[] },
        Codepoint { codepoint: 0x188F3, name: "TANGUT COMPONENT-244", aliases: &[] },
        Codepoint { codepoint: 0x188F4, name: "TANGUT COMPONENT-245", aliases: &[] },
        Codepoint { codepoint: 0x188F5, name: "TANGUT COMPONENT-246", aliases: &[] },
        Codepoint { codepoint: 0x188F6, name: "TANGUT COMPONENT-247", aliases: &[] },
        Codepoint { codepoint: 0x188F7, name: "TANGUT COMPONENT-248", aliases: &[] },
        Codepoint { codepoint: 0x188F8, name: "TANGUT COMPONENT-249", aliases: &[] },
        Codepoint { codepoint: 0x188F9, name: "TANGUT COMPONENT-250", aliases: &[] },
        Codepoint { codepoint: 0x188FA, name: "TANGUT COMPONENT-251", aliases: &[] },
        Codepoint { codepoint: 0x188FB, name: "TANGUT COMPONENT-252", aliases: &[] },
        Codepoint { codepoint: 0x188FC, name: "TANGUT COMPONENT-253", aliases: &[] },
    ]
}

fn all_codepoints_649() -> (v: Vec<Codepoint>)
    ensures
        v@ == codepoint_table_649(),
{
    let v = vec![
        Codepoint { codepoint: 0x188D5, name: "TANGUT COMPONENT-214", aliases: &[] },
        Codepoint { codepoint: 0x188D6, name: "TANGUT COMPONENT-215", aliases: &[] },
        Codepoint { codepoint: 0x188D7, name: "TANGUT COMPONENT-216", aliases: &[] },
        Codepoint { codepoint: 0x188D8, name: "TANGUT COMPONENT-217", aliases: &[] },
        Codepoint { codepoint: 0x188D9, name: "TANGUT COMPONENT-218", aliases: &[] },
        Codepoint { codepoint: 0x188DA, name: "TANGUT COMPONENT-219", aliases: &[] },
        Codepoint { codepoint: 0x188DB, name: "TANGUT COMPONENT-220", aliases: &[] },
        Codepoint { codepoint: 0x188DC, name: "TANGUT COMPONENT-221", aliases: &[] },
        Codepoint { codepoint: 0x188DD, name: "TANGUT COMPONENT-222", aliases: &[] },
        Codepoint { codepoint: 0x188DE, name: "TANGUT COMPONENT-223", aliases: &[] },
        Codepoint { codepoint: 0x188DF, name: "TANGUT COMPONENT-224", aliases: &[] },
        Codepoint { codepoint: 0x188E0, name: "TANGUT COMPONENT-225", aliases: &[] },
        Codepoint { codepoint: 0x188E1, name: "TANGUT COMPONENT-226", aliases: &[] },
        Codepoint { codepoint: 0x188E2, name: "TANGUT COMPONENT-227", aliases: &[] },
        Codepoint { codepoint: 0x188E3, name: "TANGUT COMPONENT-228", aliases: &[] },
        Codepoint { codepoint: 0x188E4, name: "TANGUT COMPONENT-229", aliases: &[] },
        Codepoint { codepoint: 0x188E5, name: "TANGUT COMPONENT-230", aliases: &[] },
        Codepoint { codepoint: 0x188E6, name: "TANGUT COMPONENT-231", aliases: &[] },
        Codepoint { codepoint: 0x188E7, name: "TANGUT COMPONENT-232", aliases: &[] },
        Codepoint { codepoint: 0x188E8, name: "TANGUT COMPONENT-233", aliases: &[] },
        Codepoint { codepoint: 0x188E9, name: "TANGUT COMPONENT-234", aliases: &[] },
        Codepoint { codepoint: 0x188EA, name: "TANGUT COMPONENT-235", aliases: &[] },
        Codepoint { codepoint: 0x188EB, name: "TANGUT COMPONENT-236", aliases: &[] },
        Codepoint { codepoint: 0x188EC, name: "TANGUT COMPONENT-237", aliases: &[] },
        Codepoint { codepoint: 0x188ED, name: "TANGUT COMPONENT-238", aliases: &[] },
        Codepoint { codepoint: 0x188EE, name: "TANGUT COMPONENT-239", aliases: &[] },
        Codepoint { codepoint: 0x188EF, name: "TANGUT COMPONENT-240", aliases: &[] },
        Codepoint { codepoint: 0x188F0, name: "TANGUT COMPONENT-241", aliases: &[] },
        Codepoint { codepoint: 0x188F1, name: "TANGUT COMPONENT-242", aliases: &[] },
        Codepoint { codepoint: 0x188F2, name: "TANGUT COMPONENT-243", aliases: &[] },
        Codepoint { codepoint: 0x188F3, name: "TANGUT COMPONENT-244", aliases: &[] },
        Codepoint { codepoint: 0x188F4, name: "TANGUT COMPONENT-245", aliases: &[] },
        Codepoint { codepoint: 0x188F5, name: "TANGUT COMPONENT-246", aliases: &[] },
        Codepoint { codepoint: 0x188F6, name: "TANGUT COMPONENT-247", aliases: &[] },
        Codepoint { codepoint: 0x188F7, name: "TANGUT COMPONENT-248", aliases: &[] },
        Codepoint { codepoint: 0x188F8, name: "TANGUT COMPONENT-249", aliases: &[] },
        Codepoint { codepoint: 0x188F9, name: "TANGUT COMPONENT-250", aliases: &[] },
        Codepoint { codepoint: 0x188FA, name: "TANGUT COMPONENT-251", aliases: &[] },
        Codepoint { codepoint: 0x188FB, name: "TANGUT COMPONENT-252", aliases: &[] },
        Codepoint { codepoint: 0x188FC, name: "TANGUT COMPONENT-253", aliases: &[] },
    ];
    assert(v@ =~= codepoint_table_649());
    v
}

pub open spec fn codepoint_table_650() -> Seq<Codepoint> {
    seq![
        Codepoint { codepoint: 0x188FD, name: "TANGUT COMPONENT-254", aliases: &[] },
        Codepoint { codepoint: 0x188FE, name: "TANGUT COMPONENT-255", aliases: &[] },
        Codepoint { codepoint: 0x188FF, name: "TANGUT COMPONENT-256", aliases: &[] },
        Codepoint { codepoint: 0x18900, name: "TANGUT COMPONENT-257", aliases: &[] },
        Codepoint { codepoint: 0x18901, name: "TANGUT COMPONENT-258", aliases: &[] },
        Codepoint { codepoint: 0x18902, name: "TANGUT COMPONENT-259", aliases: &[] },
        Codepoint { codepoint: 0x18903, name: "TANGUT COMPONENT-260", aliases: &[] },
        Codepoint { codepoint: 0x18904, name: "TANGUT COMPONENT-261", aliases: &[] },
        Codepoint { codepoint: 0x18905, name: "TANGUT COMPONENT-262", aliases: &[] },
        Codepoint { codepoint: 0x18906, name: "TANGUT COMPONENT-263", aliases: &[] },
        Codepoint { codepoint: 0x18907, name: "TANGUT COMPONENT-264", aliases: &[] },
        Codepoint { codepoint: 0x18908, name: "TANGUT COMPONENT-265", aliases: &[] },
        Codepoint { codepoint: 0x18909, name: "TANGUT COMPONENT-266", aliases: &[] },
        Codepoint { codepoint: 0x1890A, name: "TANGUT COMPONENT-267", aliases: &[] },
        Codepoint { codepoint: 0x1890B, name: "TANGUT COMPONENT-268", aliases: &[] },
        Codepoint { codepoint: 0x1890C, name: "TANGUT COMPONENT-269", aliases: &[] },
        Codepoint { codepoint: 0x1890D, name: "TANGUT COMPONENT-270", aliases: &[] },
        Codepoint { codepoint: 0x1890E, name: "TANGUT COMPONENT-271", aliases: &[] },
        Codepoint { codepoint: 0x1890F, name: "TANGUT COMPONENT-272", aliases: &[] },
        Codepoint { codepoint: 0x18910, name: "TANGUT COMPONENT-273", aliases: &[] },
        Codepoint { codepoint: 0x18911, name: "TANGUT COMPONENT-274", aliases: &[] },
        Codepoint { codepoint: 0x18912, name: "TANGUT COMPONENT-275", aliases: &[] },
        Codepoint { codepoint: 0x18913, name: "TANGUT COMPONENT-276", aliases: &[] },
        Codepoint { codepoint: 0x18914, name: "TANGUT COMPONENT-277", aliases: &[] },
        Codepoint { codepoint: 0x18915, name: "TANGUT COMPONENT-278", aliases: &[] },
        Codepoint { codepoint: 0x18916, name: "TANGUT COMPONENT-279", aliases: &[] },
        Codepoint { codepoint: 0x18917, name: "TANGUT COMPONENT-280", aliases: &[] },
        Codepoint { codepoint: 0x18918, name: "TANGUT COMPONENT-281", aliases: &[] },
        Codepoint { codepoint: 0x18919, name: "TANGUT COMPONENT-282", aliases: &[] },
        Codepoint { codepoint: 0x1891A, name: "TANGUT COMPONENT-283", aliases: &[] },
        Codepoint { codepoint: 0x1891B, name: "TANGUT COMPONENT-284", aliases: &[] },
        Codepoint { codepoint: 0x1891C, name: "TANGUT COMPONENT-285", aliases: &[] },
        Codepoint { codepoint: 0x1891D, name: "TANGUT COMPONENT-286", aliases: &[] },
        Codepoint { codepoint: 0x1891E, name: "TANGUT COMPONENT-287", aliases: &[] },
        Codepoint { codepoint: 0x1891F, name: "TANGUT COMPONENT-288", aliases: &[] },
        Codepoint { codepoint: 0x18920, name: "TANGUT COMPONENT-289", aliases: &[] },
        Codepoint { codepoint: 0x18921, name: "TANGUT COMPONENT-290", aliases: &[] },
        Codepoint { codepoint: 0x18922, name: "TANGUT COMPONENT-291", aliases: &[] },
        Codepoint { codepoint: 0x18923, name: "TANGUT COMPONENT-292", aliases: &[] },
        Codepoint { codepoint: 0x18924, name: "TANGUT COMPONENT-293", aliases: &[] },
    ]
}

fn all_codepoints_650() -> (v: Vec<Codepoint>)
    ensures
        v@ == codepoint_table_650(),
{
    let v = vec![
        Codepoint { codepoint: 0x188FD, name: "TANGUT COMPONENT-254", aliases: &[] },
        Codepoint { codepoint: 0x188FE, name: "TANGUT COMPONENT-255", aliases: &[] },
        Codepoint { codepoint: 0x188FF, name: "TANGUT COMPONENT-256", aliases: &[] },
        Codepoint { codepoint: 0x18900, name: "TANGUT COMPONENT-257", aliases: &[] },
        Codepoint { codepoint: 0x18901, name: "TANGUT COMPONENT-258", aliases: &[] },
        Codepoint { codepoint: 0x18902, name: "TANGUT COMPONENT-259", aliases: &[] },
        Codepoint { codepoint: 0x18903, name: "TANGUT COMPONENT-260", aliases: &[] },
        Codepoint { codepoint: 0x18904, name: "TANGUT COMPONENT-261", aliases: &[] },
        Codepoint { codepoint: 0x18905, name: "TANGUT COMPONENT-262", aliases: &[] },
        Codepoint { codepoint: 0x18906, name: "TANGUT COMPONENT-263", aliases: &[] },
        Codepoint { codepoint: 0x18907, name: "TANGUT COMPONENT-264", aliases: &[] },
        Codepoint { codepoint: 0x18908, name: "TANGUT COMPONENT-265", aliases: &[] },
        Codepoint { codepoint: 0x18909, name: "TANGUT COMPONENT-266", aliases: &[] },
        Codepoint { codepoint: 0x1890A, name: "TANGUT COMPONENT-267", aliases: &[] },
        Codepoint { codepoint: 0x1890B, name: "TANGUT COMPONENT-268", aliases: &[] },
        Codepoint { codepoint: 0x1890C, name: "TANGUT COMPONENT-269", aliases: &[] },
        Codepoint { codepoint: 0x1890D, name: "TANGUT COMPONENT-270", aliases: &[] },
        Codepoint { codepoint: 0x1890E, name: "TANGUT COMPONENT-271", aliases: &[] },
        Codepoint { codepoint: 0x1890F, name: "TANGUT COMPONENT-272", aliases: &[] },
        Codepoint { codepoint: 0x18910, name: "TANGUT COMPONENT-273", aliases: &[] },
        Codepoint { codepoint: 0x18911, name: "TANGUT COMPONENT-274", aliases: &[] },
        Codepoint { codepoint: 0x18912, name: "TANGUT COMPONENT-275", aliases: &[] },
        Codepoint { codepoint: 0x18913, name: "TANGUT COMPONENT-276", aliases: &[] },
        Codepoint { codepoint: 0x18914, name: "TANGUT COMPONENT-277", aliases: &[] },
        Codepoint { codepoint: 0x18915, name: "TANGUT COMPONENT-278", aliases: &[] },
        Codepoint { codepoint: 0x18916, name: "TANGUT COMPONENT-279", aliases: &[] },
        Codepoint { codepoint: 0x18917, name: "TANGUT COMPONENT-280", aliases: &[] },
        Codepoint { codepoint: 0x18918, name: "TANGUT COMPONENT-281", aliases: &[] },
        Codepoint { codepoint: 0x18919, name: "TANGUT COMPONENT-282", aliases: &[] },
        Codepoint { codepoint: 0x1891A, name: "TANGUT COMPONENT-283", aliases: &[] },
        Codepoint { codepoint: 0x1891B, name: "TANGUT COMPONENT-284", aliases: &[] },
        Codepoint { codepoint: 0x1891C, name: "TANGUT COMPONENT-285", aliases: &[] },
        Codepoint { codepoint: 0x1891D, name: "TANGUT COMPONENT-286", aliases: &[] },
        Codepoint { codepoint: 0x1891E, name: "TANGUT COMPONENT-287", aliases: &[] },
        Codepoint { codepoint: 0x1891F, name: "TANGUT COMPONENT-288", aliases: &[] },
        Codepoint { codepoint: 0x18920, name: "TANGUT COMPONENT-289", aliases: &[] },
        Codepoint { codepoint: 0x18921, name: "TANGUT COMPONENT-290", aliases: &[] },
        Codepoint { codepoint: 0x18922, name: "TANGUT COMPONENT-291", aliases: &[] },
        Codepoint { codepoint: 0x18923, name: "TANGUT COMPONENT-292", aliases: &[] },
        Codepoint { codepoint: 0x18924, name: "TANGUT COMPONENT-293", aliases: &[] },
    ];
    assert(v@ =~= codepoint_table_650());
    v
}

pub open spec fn codepoint_table_651() -> Seq<Codepoint> {
    seq![
        Codepoint { codepoint: 0x18925, name: "TANGUT COMPONENT-294", aliases: &[] },
        Codepoint { codepoint: 0x18926, name: "TANGUT COMPONENT-295", aliases: &[] },
        Codepoint { codepoint: 0x18927, name: "TANGUT COMPONENT-296", aliases: &[] },
        Codepoint { codepoint: 0x18928, name: "TANGUT COMPONENT-297", aliases: &[] },
        Codepoint { codepoint: 0x18929, name: "TANGUT COMPONENT-298", aliases: &[] },
        Codepoint { codepoint: 0x1892A, name: "TANGUT COMPONENT-299", aliases: &[] },
        Codepoint { codepoint: 0x1892B, name: "TANGUT COMPONENT-300", aliases: &[] },
        Codepoint { codepoint: 0x1892C, name: "TANGUT COMPONENT-301", aliases: &[] },
        Codepoint { codepoint: 0x1892D, name: "TANGUT COMPONENT-302", aliases: &[] },
        Codepoint { codepoint: 0x1892E, name: "TANGUT COMPONENT-303", aliases: &[] },
        Codepoint { codepoint: 0x1892F, name: "TANGUT COMPONENT-304", aliases: &[] },
        Codepoint { codepoint: 0x18930, name: "TANGUT COMPONENT-305", aliases: &[] },
        Codepoint { codepoint: 0x18931, name: "TANGUT COMPONENT-306", aliases: &[] },
        Codepoint { codepoint: 0x18932, name: "TANGUT COMPONENT-307", aliases: &[] },
        Codepoint { codepoint: 0x18933, name: "TANGUT COMPONENT-308", aliases: &[] },
        Codepoint { codepoint: 0x18934, name: "TANGUT COMPONENT-309", aliases: &[] },
        Codepoint { codepoint: 0x18935, name: "TANGUT COMPONENT-310", aliases: &[] },
        Codepoint { codepoint: 0x18936, name: "TANGUT COMPONENT-311", aliases: &[] },
        Codepoint { codepoint: 0x18937, name: "TANGUT COMPONENT-312", aliases: &[] },
        Codepoint { codepoint: 0x18938, name: "TANGUT COMPONENT-313", aliases: &[] },
        Codepoint { codepoint: 0x18939, name: "TANGUT COMPONENT-314", aliases: &[] },
        Codepoint { codepoint: 0x1893A, name: "TANGUT COMPONENT-315", aliases: &[] },
        Codepoint { codepoint: 0x1893B, name: "TANGUT COMPONENT-316", aliases: &[] },
        Codepoint { codepoint: 0x1893C, name: "TANGUT COMPONENT-317", aliases: &[] },
        Codepoint { codepoint: 0x1893D, name: "TANGUT COMPONENT-318", aliases: &[] },
        Codepoint { codepoint: 0x1893E, name: "TANGUT COMPONENT-319", aliases: &[] },
        Codepoint { codepoint: 0x1893F, name: "TANGUT COMPONENT-320", aliases: &[] },
        Codepoint { codepoint: 0x18940, name: "TANGUT COMPONENT-321", aliases: &[] },
        Codepoint { codepoint: 0x18941, name: "TANGUT COMPONENT-322", aliases: &[] },
        Codepoint { codepoint: 0x18942, name: "TANGUT COMPONENT-323", aliases: &[] },
        Codepoint { codepoint: 0x18943, name: "TANGUT COMPONENT-324", aliases: &[] },
        Codepoint { codepoint: 0x18944, name: "TANGUT COMPONENT-325", aliases: &[] },
        Codepoint { codepoint: 0x18945, name: "TANGUT COMPONENT-326", aliases: &[] },
        Codepoint { codepoint: 0x18946, name: "TANGUT COMPONENT-327", aliases: &[] },
        Codepoint { codepoint: 0x18947, name: "TANGUT COMPONENT-328", aliases: &[] },
        Codepoint { codepoint: 0x18948, name: "TANGUT COMPONENT-329", aliases: &[] },
        Codepoint { codepoint: 0x18949, name: "TANGUT COMPONENT-330", aliases: &[] },
        Codepoint { codepoint: 0x1894A, name: "TANGUT COMPONENT-331", aliases: &[] },
        Codepoint { codepoint: 0x1894B, name: "TANGUT COMPONENT-332", aliases: &[] },
        Codepoint { codepoint: 0x1894C, name: "TANGUT COMPONENT-333", aliases: &[] },
    ]
}

fn all_codepoints_651() -> (v: Vec<Codepoint>)
    ensures
        v@ == codepoint_table_651(),
{
    let v = vec![
        Codepoint { codepoint: 0x18925, name: "TANGUT COMPONENT-294", aliases: &[] },
        Codepoint { codepoint: 0x18926, name: "TANGUT COMPONENT-295", aliases: &[] },
        Codepoint { codepoint: 0x18927, name: "TANGUT COMPONENT-296", aliases: &[] },
        Codepoint { codepoint: 0x18928, name: "TANGUT COMPONENT-297", aliases: &[] },
        Codepoint { codepoint: 0x18929, name: "TANGUT COMPONENT-298", aliases: &[] },
        Codepoint { codepoint: 0x1892A, name: "TANGUT COMPONENT-299", aliases: &[] },
        Codepoint { codepoint: 0x1892B, name: "TANGUT COMPONENT-300", aliases: &[] },
        Codepoint { codepoint: 0x1892C, name: "TANGUT COMPONENT-301", aliases: &[] },
        Codepoint { codepoint: 0x1892D, name: "TANGUT COMPONENT-302", aliases: &[] },
        Codepoint { codepoint: 0x1892E, name: "TANGUT COMPONENT-303", aliases: &[] },
        Codepoint { codepoint: 0x1892F, name: "TANGUT COMPONENT-304", aliases: &[] },
        Codepoint { codepoint: 0x18930, name: "TANGUT COMPONENT-305", aliases: &[] },
        Codepoint { codepoint: 0x18931, name: "TANGUT COMPONENT-306", aliases: &[] },
        Codepoint { codepoint: 0x18932, name: "TANGUT COMPONENT-307", aliases: &[] },
        Codepoint { codepoint: 0x18933, name: "TANGUT COMPONENT-308", aliases: &[] },
        Codepoint { codepoint: 0x18934, name: "TANGUT COMPONENT-309", aliases: &[] },
        Codepoint { codepoint: 0x18935, name: "TANGUT COMPONENT-310", aliases: &[] },
        Codepoint { codepoint: 0x18936, name: "TANGUT COMPONENT-311", aliases: &[] },
        Codepoint { codepoint: 0x18937, name: "TANGUT COMPONENT-312", aliases: &[] },
        Codepoint { codepoint: 0x18938, name: "TANGUT COMPONENT-313", aliases: &[] },
        Codepoint { codepoint: 0x18939, name: "TANGUT COMPONENT-314", aliases: &[] },
        Codepoint { codepoint: 0x1893A, name: "TANGUT COMPONENT-315", aliases: &[] },
        Codepoint { codepoint: 0x1893B, name: "TANGUT COMPONENT-316", aliases: &[] },
        Codepoint { codepoint: 0x1893C, name: "TANGUT COMPONENT-317", aliases: &[] },
        Codepoint { codepoint: 0x1893D, name: "TANGUT COMPONENT-318", aliases: &[] },
        Codepoint { codepoint: 0x1893E, name: "TANGUT COMPONENT-319", aliases: &[] },
        Codepoint { codepoint: 0x1893F, name: "TANGUT COMPONENT-320", aliases: &[] },
        Codepoint { codepoint: 0x18940, name: "TANGUT COMPONENT-321", aliases: &[] },
        Codepoint { codepoint: 0x18941, name: "TANGUT COMPONENT-322", aliases: &[] },
        Codepoint { codepoint: 0x18942, name: "TANGUT COMPONENT-323", aliases: &[] },
        Codepoint { codepoint: 0x18943, name: "TANGUT COMPONENT-324", aliases: &[] },
        Codepoint { codepoint: 0x18944, name: "TANGUT COMPONENT-325", aliases: &[] },
        Codepoint { codepoint: 0x18945, name: "TANGUT COMPONENT-326", aliases: &[] },
        Codepoint { codepoint: 0x18946, name: "TANGUT COMPONENT-327", aliases: &[] },
        Codepoint { codepoint: 0x18947, name: "TANGUT COMPONENT-328", aliases: &[] },
        Codepoint { codepoint: 0x18948, name: "TANGUT COMPONENT-329", aliases: &[] },
        Codepoint { codepoint: 0x18949, name: "TANGUT COMPONENT-330", aliases: &[] },
        Codepoint { codepoint: 0x1894A, name: "TANGUT COMPONENT-331", aliases: &[] },
        Codepoint { codepoint: 0x1894B, name: "TANGUT COMPONENT-332", aliases: &[] },
        Codepoint { codepoint: 0x1894C, name: "TANGUT COMPONENT-333", aliases: &[] },
    ];
    assert(v@ =~= codepoint_table_651());
    v
}

pub open spec fn codepoint_table_652() -> Seq<Codepoint> {
    seq![
        Codepoint { codepoint: 0x1894D, name: "TANGUT COMPONENT-334", aliases: &[] },
        Codepoint { codepoint: 0x1894E, name: "TANGUT COMPONENT-335", aliases: &[] },
        Codepoint { codepoint: 0x1894F, name: "TANGUT COMPONENT-336", aliases: &[] },
        Codepoint { codepoint: 0x18950, name: "TANGUT COMPONENT-337", aliases: &[] },
        Codepoint { codepoint: 0x18951, name: "TANGUT COMPONENT-338", aliases: &[] },
        Codepoint { codepoint: 0x18952, name: "TANGUT COMPONENT-339", aliases: &[] },
        Codepoint { codepoint: 0x18953, name: "TANGUT COMPONENT-340", aliases: &[] },
        Codepoint { codepoint: 0x18954, name: "TANGUT COMPONENT-341", aliases: &[] },
        Codepoint { codepoint: 0x18955, name: "TANGUT COMPONENT-342", aliases: &[] },
        Codepoint { codepoint: 0x18956, name: "TANGUT COMPONENT-343", aliases: &[] },
        Codepoint { codepoint: 0x18957, name: "TANGUT COMPONENT-344", aliases: &[] },
        Codepoint { codepoint: 0x18958, name: "TANGUT COMPONENT-345", aliases: &[] },
        Codepoint { codepoint: 0x18959, name: "TANGUT COMPONENT-346", aliases: &[] },
        Codepoint { codepoint: 0x1895A, name: "TANGUT COMPONENT-347", aliases: &[] },
        Codepoint { codepoint: 0x1895B, name: "TANGUT COMPONENT-348", aliases: &[] },
        Codepoint { codepoint: 0x1895C, name: "TANGUT COMPONENT-349", aliases: &[] },
        Codepoint { codepoint: 0x1895D, name: "TANGUT COMPONENT-350", aliases: &[] },
        Codepoint { codepoint: 0x1895E, name: "TANGUT COMPONENT-351", aliases: &[] },
        Codepoint { codepoint: 0x1895F, name: "TANGUT COMPONENT-352", aliases: &[] },
        Codepoint { codepoint: 0x18960, name: "TANGUT COMPONENT-353", aliases: &[] },
        Codepoint { codepoint: 0x18961, name: "TANGUT COMPONENT-354", aliases: &[] },
        Codepoint { codepoint: 0x18962, name: "TANGUT COMPONENT-355", aliases: &[] },
        Codepoint { codepoint: 0x18963, name: "TANGUT COMPONENT-356", aliases: &[] },
        Codepoint { codepoint: 0x18964, name: "TANGUT COMPONENT-357", aliases: &[] },
        Codepoint { codepoint: 0x18965, name: "TANGUT COMPONENT-358", aliases: &[] },
        Codepoint { codepoint: 0x18966, name: "TANGUT COMPONENT-359", aliases: &[] },
        Codepoint { codepoint: 0x18967, name: "TANGUT COMPONENT-360", aliases: &[] },
        Codepoint { codepoint: 0x18968, name: "TANGUT COMPONENT-361", aliases: &[] },
        Codepoint { codepoint: 0x18969, name: "TANGUT COMPONENT-362", aliases: &[] },
        Codepoint { codepoint: 0x1896A, name: "TANGUT COMPONENT-363", aliases: &[] },
        Codepoint { codepoint: 0x1896B, name: "TANGUT COMPONENT-364", aliases: &[] },
        Codepoint { codepoint: 0x1896C, name: "TANGUT COMPONENT-365", aliases: &[] },
        Codepoint { codepoint: 0x1896D, name: "TANGUT COMPONENT-366", aliases: &[] },
        Codepoint { codepoint: 0x1896E, name: "TANGUT COMPONENT-367", aliases: &[] },
        Codepoint { codepoint: 0x1896F, name: "TANGUT COMPONENT-368", aliases: &[] },
        Codepoint { codepoint: 0x18970, name: "TANGUT COMPONENT-369", aliases: &[] },
        Codepoint { codepoint: 0x18971, name: "TANGUT COMPONENT-370", aliases: &[] },
        Codepoint { codepoint: 0x18972, name: "TANGUT COMPONENT-371", aliases: &[] },
        Codepoint { codepoint: 0x18973, name: "TANGUT COMPONENT-372", aliases: &[] },
        Codepoint { codepoint: 0x18974, name: "TANGUT COMPONENT-373", aliases: &[] },
    ]
}

fn all_codepoints_652() -> (v: Vec<Codepoint>)
    ensures
        v@ == codepoint_table_652(),
{
    let v = vec![
        Codepoint { codepoint: 0x1894D, name: "TANGUT COMPONENT-334", aliases: &[] },
        Codepoint { codepoint: 0x1894E, name: "TANGUT COMPONENT-335", aliases: &[] },
        Codepoint { codepoint: 0x1894F, name: "TANGUT COMPONENT-336", aliases: &[] },
        Codepoint { codepoint: 0x18950, name: "TANGUT COMPONENT-337", aliases: &[] },
        Codepoint { codepoint: 0x18951, name: "TANGUT COMPONENT-338", aliases: &[] },
        Codepoint { codepoint: 0x18952, name: "TANGUT COMPONENT-339", aliases: &[] },
        Codepoint { codepoint: 0x18953, name: "TANGUT COMPONENT-340", aliases: &[] },
        Codepoint { codepoint: 0x18954, name: "TANGUT COMPONENT-341", aliases: &[] },
        Codepoint { codepoint: 0x18955, name: "TANGUT COMPONENT-342", aliases: &[] },
        Codepoint { codepoint: 0x18956, name: "TANGUT COMPONENT-343", aliases: &[] },
        Codepoint { codepoint: 0x18957, name: "TANGUT COMPONENT-344", aliases: &[] },
        Codepoint { codepoint: 0x18958, name: "TANGUT COMPONENT-345", aliases: &[] },
        Codepoint { codepoint: 0x18959, name: "TANGUT COMPONENT-346", aliases: &[] },
        Codepoint { codepoint: 0x1895A, name: "TANGUT COMPONENT-347", aliases: &[] },
        Codepoint { codepoint: 0x1895B, name: "TANGUT COMPONENT-348", aliases: &[] },
        Codepoint { codepoint: 0x1895C, name: "TANGUT COMPONENT-349", aliases: &[] },
        Codepoint { codepoint: 0x1895D, name: "TANGUT COMPONENT-350", aliases: &[] },
        Codepoint { codepoint: 0x1895E, name: "TANGUT COMPONENT-351", aliases: &[] },
        Codepoint { codepoint: 0x1895F, name: "TANGUT COMPONENT-352", aliases: &[] },
        Codepoint { codepoint: 0x18960, name: "TANGUT COMPONENT-353", aliases: &[] },
        Codepoint { codepoint: 0x18961, name: "TANGUT COMPONENT-354", aliases: &[] },
        Codepoint { codepoint: 0x18962, name: "TANGUT COMPONENT-355", aliases: &[] },
        Codepoint { codepoint: 0x18963, name: "TANGUT COMPONENT-356", aliases: &[] },
        Codepoint { codepoint: 0x18964, name: "TANGUT COMPONENT-357", aliases: &[] },
        Codepoint { codepoint: 0x18965, name: "TANGUT COMPONENT-358", aliases: &[] },
        Codepoint { codepoint: 0x18966, name: "TANGUT COMPONENT-359", aliases: &[] },
        Codepoint { codepoint: 0x18967, name: "TANGUT COMPONENT-360", aliases: &[] },
        Codepoint { codepoint: 0x18968, name: "TANGUT COMPONENT-361", aliases: &[] },
        Codepoint { codepoint: 0x18969, name: "TANGUT COMPONENT-362", aliases: &[] },
        Codepoint { codepoint: 0x1896A, name: "TANGUT COMPONENT-363", aliases: &[] },
        Codepoint { codepoint: 0x1896B, name: "TANGUT COMPONENT-364", aliases: &[] },
        Codepoint { codepoint: 0x1896C, name: "TANGUT COMPONENT-365", aliases: &[] },
        Codepoint { codepoint: 0x1896D, name: "TANGUT COMPONENT-366", aliases: &[] },
        Codepoint { codepoint: 0x1896E, name: "TANGUT COMPONENT-367", aliases: &[] },
        Codepoint { codepoint: 0x1896F, name: "TANGUT COMPONENT-368", aliases: &[] },
        Codepoint { codepoint: 0x18970, name: "TANGUT COMPONENT-369", aliases: &[] },
        Codepoint { codepoint: 0x18971, name: "TANGUT COMPONENT-370", aliases: &[] },
        Codepoint { codepoint: 0x18972, name: "TANGUT COMPONENT-371", aliases: &[] },
        Codepoint { codepoint: 0x18973, name: "TANGUT COMPONENT-372", aliases: &[] },
        Codepoint { codepoint: 0x18974, name: "TANGUT COMPONENT-373", aliases: &[] },
    ];
    assert(v@ =~= codepoint_table_652());
    v
}

pub open spec fn codepoint_table_653() -> Seq<Codepoint> {
    seq![
        Codepoint { codepoint: 0x18975, name: "TANGUT COMPONENT-374", aliases: &[] },
        Codepoint { codepoint: 0x18976, name: "TANGUT COMPONENT-375", aliases: &[] },
        Codepoint { codepoint: 0x18977, name: "TANGUT COMPONENT-376", aliases: &[] },
        Codepoint { codepoint: 0x18978, name: "TANGUT COMPONENT-377", aliases: &[] },
        Codepoint { codepoint: 0x18979, name: "TANGUT COMPONENT-378", aliases: &[] },
        Codepoint { codepoint: 0x1897A, name: "TANGUT COMPONENT-379", aliases: &[] },
        Codepoint { codepoint: 0x1897B, name: "TANGUT COMPONENT-380", aliases: &[] },
        Codepoint { codepoint: 0x1897C, name: "TANGUT COMPONENT-381", aliases: &[] },
        Codepoint { codepoint: 0x1897D, name: "TANGUT COMPONENT-382", aliases: &[] },
        Codepoint { codepoint: 0x1897E, name: "TANGUT COMPONENT-383", aliases: &[] },
        Codepoint { codepoint: 0x1897F, name: "TANGUT COMPONENT-384", aliases: &[] },
        Codepoint { codepoint: 0x18980, name: "TANGUT COMPONENT-385", aliases: &[] },
        Codepoint { codepoint: 0x18981, name: "TANGUT COMPONENT-386", aliases: &[] },
        Codepoint { codepoint: 0x18982, name: "TANGUT COMPONENT-387", aliases: &[] },
        Codepoint { codepoint: 0x18983, name: "TANGUT COMPONENT-388", aliases: &[] },
        Codepoint { codepoint: 0x18984, name: "TANGUT COMPONENT-389", aliases: &[] },
        Codepoint { codepoint: 0x18985, name: "TANGUT COMPONENT-390", aliases: &[] },
        Codepoint { codepoint: 0x18986, name: "TANGUT COMPONENT-391", aliases: &[] },
        Codepoint { codepoint: 0x18987, name: "TANGUT COMPONENT-392", aliases: &[] },
        Codepoint { codepoint: 0x18988, name: "TANGUT COMPONENT-393", aliases: &[] },
        Codepoint { codepoint: 0x18989, name: "TANGUT COMPONENT-394", aliases: &[] },
        Codepoint { codepoint: 0x1898A, name: "TANGUT COMPONENT-395", aliases: &[] },
        Codepoint { codepoint: 0x1898B, name: "TANGUT COMPONENT-396", aliases: &[] },
        Codepoint { codepoint: 0x1898C, name: "TANGUT COMPONENT-397", aliases: &[] },
        Codepoint { codepoint: 0x1898D, name: "TANGUT COMPONENT-398", aliases: &[] },
        Codepoint { codepoint: 0x1898E, name: "TANGUT COMPONENT-399", aliases: &[] },
        Codepoint { codepoint: 0x1898F, name: "TANGUT COMPONENT-400", aliases: &[] },
        Codepoint { codepoint: 0x18990, name: "TANGUT COMPONENT-401", aliases: &[] },
        Codepoint { codepoint: 0x18991, name: "TANGUT COMPONENT-402", aliases: &[] },
        Codepoint { codepoint: 0x18992, name: "TANGUT COMPONENT-403", aliases: &[] },
        Codepoint { codepoint: 0x18993, name: "TANGUT COMPONENT-404", aliases: &[] },
        Codepoint { codepoint: 0x18994, name: "TANGUT COMPONENT-405", aliases: &[] },
        Codepoint { codepoint: 0x18995, name: "TANGUT COMPONENT-406", aliases: &[] },
        Codepoint { codepoint: 0x18996, name: "TANGUT COMPONENT-407", aliases: &[] },
        Codepoint { codepoint: 0x18997, name: "TANGUT COMPONENT-408", aliases: &[] },
        Codepoint { codepoint: 0x18998, name: "TANGUT COMPONENT-409", aliases: &[] },
        Codepoint { codepoint: 0x18999, name: "TANGUT COMPONENT-410", aliases: &[] },
        Codepoint { codepoint: 0x1899A, name: "TANGUT COMPONENT-411", aliases: &[] },
        Codepoint { codepoint: 0x1899B, name: "TANGUT COMPONENT-412", aliases: &[] },
        Codepoint { codepoint: 0x1899C, name: "TANGUT COMPONENT-413", aliases: &[] },
    ]
}

fn all_codepoints_653() -> (v: Vec<Codepoint>)
    ensures
        v@ == codepoint_table_653(),
{
    let v = vec![
        Codepoint { codepoint: 0x18975, name: "TANGUT COMPONENT-374", aliases: &[] },
        Codepoint { codepoint: 0x18976, name: "TANGUT COMPONENT-375", aliases: &[] },
        Codepoint { codepoint: 0x18977, name: "TANGUT COMPONENT-376", aliases: &[] },
        Codepoint { codepoint: 0x18978, name: "TANGUT COMPONENT-377", aliases: &[] },
        Codepoint { codepoint: 0x18979, name: "TANGUT COMPONENT-378", aliases: &[] },
        Codepoint { codepoint: 0x1897A, name: "TANGUT COMPONENT-379", aliases: &[] },
        Codepoint { codepoint: 0x1897B, name: "TANGUT COMPONENT-380", aliases: &[] },
        Codepoint { codepoint: 0x1897C, name: "TANGUT COMPONENT-381", aliases: &[] },
        Codepoint { codepoint: 0x1897D, name: "TANGUT COMPONENT-382", aliases: &[] },
        Codepoint { codepoint: 0x1897E, name: "TANGUT COMPONENT-383", aliases: &[] },
        Codepoint { codepoint: 0x1897F, name: "TANGUT COMPONENT-384", aliases: &[] },
        Codepoint { codepoint: 0x18980, name: "TANGUT COMPONENT-385", aliases: &[] },
        Codepoint { codepoint: 0x18981, name: "TANGUT COMPONENT-386", aliases: &[] },
        Codepoint { codepoint: 0x18982, name: "TANGUT COMPONENT-387", aliases: &[] },
        Codepoint { codepoint: 0x18983, name: "TANGUT COMPONENT-388", aliases: &[] },
        Codepoint { codepoint: 0x18984, name: "TANGUT COMPONENT-389", aliases: &[] },
        Codepoint { codepoint: 0x18985, name: "TANGUT COMPONENT-390", aliases: &[] },
        Codepoint { codepoint: 0x18986, name: "TANGUT COMPONENT-391", aliases: &[] },
        Codepoint { codepoint: 0x18987, name: "TANGUT COMPONENT-392", aliases: &[] },
        Codepoint { codepoint: 0x18988, name: "TANGUT COMPONENT-393", aliases: &[] },
        Codepoint { codepoint: 0x18989, name: "TANGUT COMPONENT-394", aliases: &[] },
        Codepoint { codepoint: 0x1898A, name: "TANGUT COMPONENT-395", aliases: &[] },
        Codepoint { codepoint: 0x1898B, name: "TANGUT COMPONENT-396", aliases: &[] },
        Codepoint { codepoint: 0x1898C, name: "TANGUT COMPONENT-397", aliases: &[] },
        Codepoint { codepoint: 0x1898D, name: "TANGUT COMPONENT-398", aliases: &[] },
        Codepoint { codepoint: 0x1898E, name: "TANGUT COMPONENT-399", aliases: &[] },
        Codepoint { codepoint: 0x1898F, name: "TANGUT COMPONENT-400", aliases: &[] },
        Codepoint { codepoint: 0x18990, name: "TANGUT COMPONENT-401", aliases: &[] },
        Codepoint { codepoint: 0x18991, name: "TANGUT COMPONENT-402", aliases: &[] },
        Codepoint { codepoint: 0x18992, name: "TANGUT COMPONENT-403", aliases: &[] },
        Codepoint { codepoint: 0x18993, name: "TANGUT COMPONENT-404", aliases: &[] },
        Codepoint { codepoint: 0x18994, name: "TANGUT COMPONENT-405", aliases: &[] },
        Codepoint { codepoint: 0x18995, name: "TANGUT COMPONENT-406", aliases: &[] },
        Codepoint { codepoint: 0x18996, name: "TANGUT COMPONENT-407", aliases: &[] },
        Codepoint { codepoint: 0x18997, name: "TANGUT COMPONENT-408", aliases: &[] },
        Codepoint { codepoint: 0x18998, name: "TANGUT COMPONENT-409", aliases: &[] },
        Codepoint { codepoint: 0x18999, name: "TANGUT COMPONENT-410", aliases: &[] },
        Codepoint { codepoint: 0x1899A, name: "TANGUT COMPONENT-411", aliases: &[] },
        Codepoint { codepoint: 0x1899B, name: "TANGUT COMPONENT-412", aliases: &[] },
        Codepoint { codepoint: 0x1899C, name: "TANGUT COMPONENT-413", aliases: &[] },
    ];
    assert(v@ =~= codepoint_table_653());
    v
}

pub open spec fn codepoint_table_654() -> Seq<Codepoint> {
    seq![
        Codepoint { codepoint: 0x1899D, name: "TANGUT COMPONENT-414", aliases: &[] },
        Codepoint { codepoint: 0x1899E, name: "TANGUT COMPONENT-415", aliases: &[] },
        Codepoint { codepoint: 0x1899F, name: "TANGUT COMPONENT-416", aliases: &[] },
        Codepoint { codepoint: 0x189A0, name: "TANGUT COMPONENT-417", aliases: &[] },
        Codepoint { codepoint: 0x189A1, name: "TANGUT COMPONENT-418", aliases: &[] },
        Codepoint { codepoint: 0x189A2, name: "TANGUT COMPONENT-419", aliases: &[] },
        Codepoint { codepoint: 0x189A3, name: "TANGUT COMPONENT-420", aliases: &[] },
        Codepoint { codepoint: 0x189A4, name: "TANGUT COMPONENT-421", aliases: &[] },
        Codepoint { codepoint: 0x189A5, name: "TANGUT COMPONENT-422", aliases: &[] },
        Codepoint { codepoint: 0x189A6, name: "TANGUT COMPONENT-423", aliases: &[] },
        Codepoint { codepoint: 0x189A7, name: "TANGUT COMPONENT-424", aliases: &[] },
        Codepoint { codepoint: 0x189A8, name: "TANGUT COMPONENT-425", aliases: &[] },
        Codepoint { codepoint: 0x189A9, name: "TANGUT COMPONENT-426", aliases: &[] },
        Codepoint { codepoint: 0x189AA, name: "TANGUT COMPONENT-427", aliases: &[] },
        Codepoint { codepoint: 0x189AB, name: "TANGUT COMPONENT-428", aliases: &[] },
        Codepoint { codepoint: 0x189AC, name: "TANGUT COMPONENT-429", aliases: &[] },
        Codepoint { codepoint: 0x189AD, name: "TANGUT COMPONENT-430", aliases: &[] },
        Codepoint { codepoint: 0x189AE, name: "TANGUT COMPONENT-431", aliases: &[] },
        Codepoint { codepoint: 0x189AF, name: "TANGUT COMPONENT-432", aliases: &[] },
        Codepoint { codepoint: 0x189B0, name: "TANGUT COMPONENT-433", aliases: &[] },
        Codepoint { codepoint: 0x189B1, name: "TANGUT COMPONENT-434", aliases: &[] },
        Codepoint { codepoint: 0x189B2, name: "TANGUT COMPONENT-435", aliases: &[] },
        Codepoint { codepoint: 0x189B3, name: "TANGUT COMPONENT-436", aliases: &[] },
        Codepoint { codepoint: 0x189B4, name: "TANGUT COMPONENT-437", aliases: &[] },
        Codepoint { codepoint: 0x189B5, name: "TANGUT COMPONENT-438", aliases: &[] },
        Codepoint { codepoint: 0x189B6, name: "TANGUT COMPONENT-439", aliases: &[] },
        Codepoint { codepoint: 0x189B7, name: "TANGUT COMPONENT-440", aliases: &[] },
        Codepoint { codepoint: 0x189B8, name: "TANGUT COMPONENT-441", aliases: &[] },
        Codepoint { codepoint: 0x189B9, name: "TANGUT COMPONENT-442", aliases: &[] },
        Codepoint { codepoint: 0x189BA, name: "TANGUT COMPONENT-443", aliases: &[] },
        Codepoint { codepoint: 0x189BB, name: "TANGUT COMPONENT-444", aliases: &[] },
        Codepoint { codepoint: 0x189BC, name: "TANGUT COMPONENT-445", aliases: &[] },
        Codepoint { codepoint: 0x189BD, name: "TANGUT COMPONENT-446", aliases: &[] },
        Codepoint { codepoint: 0x189BE, name: "TANGUT COMPONENT-447", aliases: &[] },
        Codepoint { codepoint: 0x189BF, name: "TANGUT COMPONENT-448", aliases: &[] },
        Codepoint { codepoint: 0x189C0, name: "TANGUT COMPONENT-449", aliases: &[] },
        Codepoint { codepoint: 0x189C1, name: "TANGUT COMPONENT-450", aliases: &[] },
        Codepoint { codepoint: 0x189C2, name: "TANGUT COMPONENT-451", aliases: &[] },
        Codepoint { codepoint: 0x189C3, name: "TANGUT COMPONENT-452", aliases: &[] },
        Codepoint { codepoint: 0x189C4, name: "TANGUT COMPONENT-453", aliases: &[] },
    ]
}

fn all_codepoints_654() -> (v: Vec<Codepoint>)
    ensures
        v@ == codepoint_table_654(),
{
    let v = vec![
        Codepoint { codepoint: 0x1899D, name: "TANGUT COMPONENT-414", aliases: &[] },
        Codepoint { codepoint: 0x1899E, name: "TANGUT COMPONENT-415", aliases: &[] },
        Codepoint { codepoint: 0x1899F, name: "TANGUT COMPONENT-416", aliases: &[] },
        Codepoint { codepoint: 0x189A0, name: "TANGUT COMPONENT-417", aliases: &[] },
        Codepoint { codepoint: 0x189A1, name: "TANGUT COMPONENT-418", aliases: &[] },
        Codepoint { codepoint: 0x189A2, name: "TANGUT COMPONENT-419", aliases: &[] },
        Codepoint { codepoint: 0x189A3, name: "TANGUT COMPONENT-420", aliases: &[] },
        Codepoint { codepoint: 0x189A4, name: "TANGUT COMPONENT-421", aliases: &[] },
        Codepoint { codepoint: 0x189A5, name: "TANGUT COMPONENT-422", aliases: &[] },
        Codepoint { codepoint: 0x189A6, name: "TANGUT COMPONENT-423", aliases: &[] },
        Codepoint { codepoint: 0x189A7, name: "TANGUT COMPONENT-424", aliases: &[] },
        Codepoint { codepoint: 0x189A8, name: "TANGUT COMPONENT-425", aliases: &[] },
        Codepoint { codepoint: 0x189A9, name: "TANGUT COMPONENT-426", aliases: &[] },
        Codepoint { codepoint: 0x189AA, name: "TANGUT COMPONENT-427", aliases: &[] },
        Codepoint { codepoint: 0x189AB, name: "TANGUT COMPONENT-428", aliases: &[] },
        Codepoint { codepoint: 0x189AC, name: "TANGUT COMPONENT-429", aliases: &[] },
        Codepoint { codepoint: 0x189AD, name: "TANGUT COMPONENT-430", aliases: &[] },
        Codepoint { codepoint: 0x189AE, name: "TANGUT COMPONENT-431", aliases: &[] },
        Codepoint { codepoint: 0x189AF, name: "TANGUT COMPONENT-432", aliases: &[] },
        Codepoint { codepoint: 0x189B0, name: "TANGUT COMPONENT-433", aliases: &[] },
        Codepoint { codepoint: 0x189B1, name: "TANGUT COMPONENT-434", aliases: &[] },
        Codepoint { codepoint: 0x189B2, name: "TANGUT COMPONENT-435", aliases: &[] },
        Codepoint { codepoint: 0x189B3, name: "TANGUT COMPONENT-436", aliases: &[] },
        Codepoint { codepoint: 0x189B4, name: "TANGUT COMPONENT-437", aliases: &[] },
        Codepoint { codepoint: 0x189B5, name: "TANGUT COMPONENT-438", aliases: &[] },
        Codepoint { codepoint: 0x189B6, name: "TANGUT COMPONENT-439", aliases: &[] },
        Codepoint { codepoint: 0x189B7, name: "TANGUT COMPONENT-440", aliases: &[] },
        Codepoint { codepoint: 0x189B8, name: "TANGUT COMPONENT-441", aliases: &[] },
        Codepoint { codepoint: 0x189B9, name: "TANGUT COMPONENT-442", aliases: &[] },
        Codepoint { codepoint: 0x189BA, name: "TANGUT COMPONENT-443", aliases: &[] },
        Codepoint { codepoint: 0x189BB, name: "TANGUT COMPONENT-444", aliases: &[] },
        Codepoint { codepoint: 0x189BC, name: "TANGUT COMPONENT-445", aliases: &[] },
        Codepoint { codepoint: 0x189BD, name: "TANGUT COMPONENT-446", aliases: &[] },
        Codepoint { codepoint: 0x189BE, name: "TANGUT COMPONENT-447", aliases: &[] },
        Codepoint { codepoint: 0x189BF, name: "TANGUT COMPONENT-448", aliases: &[] },
        Codepoint { codepoint: 0x189C0, name: "TANGUT COMPONENT-449", aliases: &[] },
        Codepoint { codepoint: 0x189C1, name: "TANGUT COMPONENT-450", aliases: &[] },
        Codepoint { codepoint: 0x189C2, name: "TANGUT COMPONENT-451", aliases: &[] },
        Codepoint { codepoint: 0x189C3, name: "TANGUT COMPONENT-452", aliases: &[] },
        Codepoint { codepoint: 0x189C4, name: "TANGUT COMPONENT-453", aliases: &[] },
    ];
    assert(v@ =~= codepoint_table_654());
    v
}

pub open spec fn codepoint_table_655() -> Seq<Codepoint> {
    seq![
        Codepoint { codepoint: 0x189C5, name: "TANGUT COMPONENT-454", aliases: &[] },
        Codepoint { codepoint: 0x189C6, name: "TANGUT COMPONENT-455", aliases: &[] },
        Codepoint { codepoint: 0x189C7, name: "TANGUT COMPONENT-456", aliases: &[] },
        Codepoint { codepoint: 0x189C8, name: "TANGUT COMPONENT-457", aliases: &[] },
        Codepoint { codepoint: 0x189C9, name: "TANGUT COMPONENT-458", aliases: &[] },
        Codepoint { codepoint: 0x189CA, name: "TANGUT COMPONENT-459", aliases: &[] },
        Codepoint { codepoint: 0x189CB, name: "TANGUT COMPONENT-460", aliases: &[] },
        Codepoint { codepoint: 0x189CC, name: "TANGUT COMPONENT-461", aliases: &[] },
        Codepoint { codepoint: 0x189CD, name: "TANGUT COMPONENT-462", aliases: &[] },
        Codepoint { codepoint: 0x189CE, name: "TANGUT COMPONENT-463", aliases: &[] },
        Codepoint { codepoint: 0x189CF, name: "TANGUT COMPONENT-464", aliases: &[] },
        Codepoint { codepoint: 0x189D0, name: "TANGUT COMPONENT-465", aliases: &[] },
        Codepoint { codepoint: 0x189D1, name: "TANGUT COMPONENT-466", aliases: &[] },
        Codepoint { codepoint: 0x189D2, name: "TANGUT COMPONENT-467", aliases: &[] },
        Codepoint { codepoint: 0x189D3, name: "TANGUT COMPONENT-468", aliases: &[] },
        Codepoint { codepoint: 0x189D4, name: "TANGUT COMPONENT-469", aliases: &[] },
        Codepoint { codepoint: 0x189D5, name: "TANGUT COMPONENT-470", aliases: &[] },
        Codepoint { codepoint: 0x189D6, name: "TANGUT COMPONENT-471", aliases: &[] },
        Codepoint { codepoint: 0x189D7, name: "TANGUT COMPONENT-472", aliases: &[] },
        Codepoint { codepoint: 0x189D8, name: "TANGUT COMPONENT-473", aliases: &[] },
        Codepoint { codepoint: 0x189D9, name: "TANGUT COMPONENT-474", aliases: &[] },
        Codepoint { codepoint: 0x189DA, name: "TANGUT COMPONENT-475", aliases: &[] },
        Codepoint { codepoint: 0x189DB, name: "TANGUT COMPONENT-476", aliases: &[] },
        Codepoint { codepoint: 0x189DC, name: "TANGUT COMPONENT-477", aliases: &[] },
        Codepoint { codepoint: 0x189DD, name: "TANGUT COMPONENT-478", aliases: &[] },
        Codepoint { codepoint: 0x189DE, name: "TANGUT COMPONENT-479", aliases: &[] },
        Codepoint { codepoint: 0x189DF, name: "TANGUT COMPONENT-480", aliases: &[] },
        Codepoint { codepoint: 0x189E0, name: "TANGUT COMPONENT-481", aliases: &[] },
        Codepoint { codepoint: 0x189E1, name: "TANGUT COMPONENT-482", aliases: &[] },
        Codepoint { codepoint: 0x189E2, name: "TANGUT COMPONENT-483", aliases: &[] },
        Codepoint { codepoint: 0x189E3, name: "TANGUT COMPONENT-484", aliases: &[] },
        Codepoint { codepoint: 0x189E4, name: "TANGUT COMPONENT-485", aliases: &[] },
        Codepoint { codepoint: 0x189E5, name: "TANGUT COMPONENT-486", aliases: &[] },
        Codepoint { codepoint: 0x189E6, name: "TANGUT COMPONENT-487", aliases: &[] },
        Codepoint { codepoint: 0x189E7, name: "TANGUT COMPONENT-488", aliases: &[] },
        Codepoint { codepoint: 0x189E8, name: "TANGUT COMPONENT-489", aliases: &[] },
        Codepoint { codepoint: 0x189E9, name: "TANGUT COMPONENT-490", aliases: &[] },
        Codepoint { codepoint: 0x189EA, name: "TANGUT COMPONENT-491", aliases: &[] },
        Codepoint { codepoint: 0x189EB, name: "TANGUT COMPONENT-492", aliases: &[] },
        Codepoint { codepoint: 0x189EC, name: "TANGUT COMPONENT-493", aliases: &[] },
    ]
}

fn all_codepoints_655() -> (v: Vec<Codepoint>)
    ensures
        v@ == codepoint_table_655(),
{
    let v = vec![
        Codepoint { codepoint: 0x189C5, name: "TANGUT COMPONENT-454", aliases: &[] },
        Codepoint { codepoint: 0x189C6, name: "TANGUT COMPONENT-455", aliases: &[] },
        Codepoint { codepoint: 0x189C7, name: "TANGUT COMPONENT-456", aliases: &[] },
        Codepoint { codepoint: 0x189C8, name: "TANGUT COMPONENT-457", aliases: &[] },
        Codepoint { codepoint: 0x189C9, name: "TANGUT COMPONENT-458", aliases: &[] },
        Codepoint { codepoint: 0x189CA, name: "TANGUT COMPONENT-459", aliases: &[] },
        Codepoint { codepoint: 0x189CB, name: "TANGUT COMPONENT-460", aliases: &[] },
        Codepoint { codepoint: 0x189CC, name: "TANGUT COMPONENT-461", aliases: &[] },
        Codepoint { codepoint: 0x189CD, name: "TANGUT COMPONENT-462", aliases: &[] },
        Codepoint { codepoint: 0x189CE, name: "TANGUT COMPONENT-463", aliases: &[] },
        Codepoint { codepoint: 0x189CF, name: "TANGUT COMPONENT-464", aliases: &[] },
        Codepoint { codepoint: 0x189D0, name: "TANGUT COMPONENT-465", aliases: &[] },
        Codepoint { codepoint: 0x189D1, name: "TANGUT COMPONENT-466", aliases: &[] },
        Codepoint { codepoint: 0x189D2, name: "TANGUT COMPONENT-467", aliases: &[] },
        Codepoint { codepoint: 0x189D3, name: "TANGUT COMPONENT-468", aliases: &[] },
        Codepoint { codepoint: 0x189D4, name: "TANGUT COMPONENT-469", aliases: &[] },
        Codepoint { codepoint: 0x189D5, name: "TANGUT COMPONENT-470", aliases: &[] },
        Codepoint { codepoint: 0x189D6, name: "TANGUT COMPONENT-471", aliases: &[] },
        Codepoint { codepoint: 0x189D7, name: "TANGUT COMPONENT-472", aliases: &[] },
        Codepoint { codepoint: 0x189D8, name: "TANGUT COMPONENT-473", aliases: &[] },
        Codepoint { codepoint: 0x189D9, name: "TANGUT COMPONENT-474", aliases: &[] },
        Codepoint { codepoint: 0x189DA, name: "TANGUT COMPONENT-475", aliases: &[] },
        Codepoint { codepoint: 0x189DB, name: "TANGUT COMPONENT-476", aliases: &[] },
        Codepoint { codepoint: 0x189DC, name: "TANGUT COMPONENT-477", aliases: &[] },
        Codepoint { codepoint: 0x189DD, name: "TANGUT COMPONENT-478", aliases: &[] },
        Codepoint { codepoint: 0x189DE, name: "TANGUT COMPONENT-479", aliases: &[] },
        Codepoint { codepoint: 0x189DF, name: "TANGUT COMPONENT-480", aliases: &[] },
        Codepoint { codepoint: 0x189E0, name: "TANGUT COMPONENT-481", aliases: &[] },
        Codepoint { codepoint: 0x189E1, name: "TANGUT COMPONENT-482", aliases: &[] },
        Codepoint { codepoint: 0x189E2, name: "TANGUT COMPONENT-483", aliases: &[] },
        Codepoint { codepoint: 0x189E3, name: "TANGUT COMPONENT-484", aliases: &[] },
        Codepoint { codepoint: 0x189E4, name: "TANGUT COMPONENT-485", aliases: &[] },
        Codepoint { codepoint: 0x189E5, name: "TANGUT COMPONENT-486", aliases: &[] },
        Codepoint { codepoint: 0x189E6, name: "TANGUT COMPONENT-487", aliases: &[] },
        Codepoint { codepoint: 0x189E7, name: "TANGUT COMPONENT-488", aliases: &[] },
        Codepoint { codepoint: 0x189E8, name: "TANGUT COMPONENT-489", aliases: &[] },
        Codepoint { codepoint: 0x189E9, name: "TANGUT COMPONENT-490", aliases: &[] },
        Codepoint { codepoint: 0x189EA, name: "TANGUT COMPONENT-491", aliases: &[] },
        Codepoint { codepoint: 0x189EB, name: "TANGUT COMPONENT-492", aliases: &[] },
        Codepoint { codepoint: 0x189EC, name: "TANGUT COMPONENT-493", aliases: &[] },
    ];
    assert(v@ =~= codepoint_table_655());
    v
}

pub open spec fn codepoint_table_656() -> Seq<Codepoint> {
    seq![
        Codepoint { codepoint: 0x189ED, name: "TANGUT COMPONENT-494", aliases: &[] },
        Codepoint { codepoint: 0x189EE, name: "TANGUT COMPONENT-495", aliases: &[] },
        Codepoint { codepoint: 0x189EF, name: "TANGUT COMPONENT-496", aliases: &[] },
        Codepoint { codepoint: 0x189F0, name: "TANGUT COMPONENT-497", aliases: &[] },
        Codepoint { codepoint: 0x189F1, name: "TANGUT COMPONENT-498", aliases: &[] },
        Codepoint { codepoint: 0x189F2, name: "TANGUT COMPONENT-499", aliases: &[] },
        Codepoint { codepoint: 0x189F3, name: "TANGUT COMPONENT-500", aliases: &[] },
        Codepoint { codepoint: 0x189F4, name: "TANGUT COMPONENT-501", aliases: &[] },
        Codepoint { codepoint: 0x189F5, name: "TANGUT COMPONENT-502", aliases: &[] },
        Codepoint { codepoint: 0x189F6, name: "TANGUT COMPONENT-503", aliases: &[] },
        Codepoint { codepoint: 0x189F7, name: "TANGUT COMPONENT-504", aliases: &[] },
        Codepoint { codepoint: 0x189F8, name: "TANGUT COMPONENT-505", aliases: &[] },
        Codepoint { codepoint: 0x189F9, name: "TANGUT COMPONENT-506", aliases: &[] },
        Codepoint { codepoint: 0x189FA, name: "TANGUT COMPONENT-507", aliases: &[] },
        Codepoint { codepoint: 0x189FB, name: "TANGUT COMPONENT-508", aliases: &[] },
        Codepoint { codepoint: 0x189FC, name: "TANGUT COMPONENT-509", aliases: &[] },
        Codepoint { codepoint: 0x189FD, name: "TANGUT COMPONENT-510", aliases: &[] },
        Codepoint { codepoint: 0x189FE, name: "TANGUT COMPONENT-511", aliases: &[] },
        Codepoint { codepoint: 0x189FF, name: "TANGUT COMPONENT-512", aliases: &[] },
        Codepoint { codepoint: 0x18A00, name: "TANGUT COMPONENT-513", aliases: &[] },
        Codepoint { codepoint: 0x18A01, name: "TANGUT COMPONENT-514", aliases: &[] },
        Codepoint { codepoint: 0x18A02, name: "TANGUT COMPONENT-515", aliases: &[] },
        Codepoint { codepoint: 0x18A03, name: "TANGUT COMPONENT-516", aliases: &[] },
        Codepoint { codepoint: 0x18A04, name: "TANGUT COMPONENT-517", aliases: &[] },
        Codepoint { codepoint: 0x18A05, name: "TANGUT COMPONENT-518", aliases: &[] },
        Codepoint { codepoint: 0x18A06, name: "TANGUT COMPONENT-519", aliases: &[] },
        Codepoint { codepoint: 0x18A07, name: "TANGUT COMPONENT-520", aliases: &[] },
        Codepoint { codepoint: 0x18A08, name: "TANGUT COMPONENT-521", aliases: &[] },
        Codepoint { codepoint: 0x18A09, name: "TANGUT COMPONENT-522", aliases: &[] },
        Codepoint { codepoint: 0x18A0A, name: "TANGUT COMPONENT-523", aliases: &[] },
        Codepoint { codepoint: 0x18A0B, name: "TANGUT COMPONENT-524", aliases: &[] },
        Codepoint { codepoint: 0x18A0C, name: "TANGUT COMPONENT-525", aliases: &[] },
        Codepoint { codepoint: 0x18A0D, name: "TANGUT COMPONENT-526", aliases: &[] },
        Codepoint { codepoint: 0x18A0E, name: "TANGUT COMPONENT-527", aliases: &[] },
        Codepoint { codepoint: 0x18A0F, name: "TANGUT COMPONENT-528", aliases: &[] },
        Codepoint { codepoint: 0x18A10, name: "TANGUT COMPONENT-529", aliases: &[] },
        Codepoint { codepoint: 0x18A11, name: "TANGUT COMPONENT-530", aliases: &[] },
        Codepoint { codepoint: 0x18A12, name: "TANGUT COMPONENT-531", aliases: &[] },
        Codepoint { codepoint: 0x18A13, name: "TANGUT COMPONENT-532", aliases: &[] },
        Codepoint { codepoint: 0x18A14, name: "TANGUT COMPONENT-533", aliases: &[] },
    ]
}

fn all_codepoints_656() -> (v: Vec<Codepoint>)
    ensures
        v@ == codepoint_table_656(),
{
    let v = vec![
        Codepoint { codepoint: 0x189ED, name: "TANGUT COMPONENT-494", aliases: &[] },
        Codepoint { codepoint: 0x189EE, name: "TANGUT COMPONENT-495", aliases: &[] },
        Codepoint { codepoint: 0x189EF, name: "TANGUT COMPONENT-496", aliases: &[] },
        Codepoint { codepoint: 0x189F0, name: "TANGUT COMPONENT-497", aliases: &[] },
        Codepoint { codepoint: 0x189F1, name: "TANGUT COMPONENT-498", aliases: &[] },
        Codepoint { codepoint: 0x189F2, name: "TANGUT COMPONENT-499", aliases: &[] },
        Codepoint { codepoint: 0x189F3, name: "TANGUT COMPONENT-500", aliases: &[] },
        Codepoint { codepoint: 0x189F4, name: "TANGUT COMPONENT-501", aliases: &[] },
        Codepoint { codepoint: 0x189F5, name: "TANGUT COMPONENT-502", aliases: &[] },
        Codepoint { codepoint: 0x189F6, name: "TANGUT COMPONENT-503", aliases: &[] },
        Codepoint { codepoint: 0x189F7, name: "TANGUT COMPONENT-504", aliases: &[] },
        Codepoint { codepoint: 0x189F8, name: "TANGUT COMPONENT-505", aliases: &[] },
        Codepoint { codepoint: 0x189F9, name: "TANGUT COMPONENT-506", aliases: &[] },
        Codepoint { codepoint: 0x189FA, name: "TANGUT COMPONENT-507", aliases: &[] },
        Codepoint { codepoint: 0x189FB, name: "TANGUT COMPONENT-508", aliases: &[] },
        Codepoint { codepoint: 0x189FC, name: "TANGUT COMPONENT-509", aliases: &[] },
        Codepoint { codepoint: 0x189FD, name: "TANGUT COMPONENT-510", aliases: &[] },
        Codepoint { codepoint: 0x189FE, name: "TANGUT COMPONENT-511", aliases: &[] },
        Codepoint { codepoint: 0x189FF, name: "TANGUT COMPONENT-512", aliases: &[] },
        Codepoint { codepoint: 0x18A00, name: "TANGUT COMPONENT-513", aliases: &[] },
        Codepoint { codepoint: 0x18A01, name: "TANGUT COMPONENT-514", aliases: &[] },
        Codepoint { codepoint: 0x18A02, name: "TANGUT COMPONENT-515", aliases: &[] },
        Codepoint { codepoint: 0x18A03, name: "TANGUT COMPONENT-516", aliases: &[] },
        Codepoint { codepoint: 0x18A04, name: "TANGUT COMPONENT-517", aliases: &[] },
        Codepoint { codepoint: 0x18A05, name: "TANGUT COMPONENT-518", aliases: &[] },
        Codepoint { codepoint: 0x18A06, name: "TANGUT COMPONENT-519", aliases: &[] },
        Codepoint { codepoint: 0x18A07, name: "TANGUT COMPONENT-520", aliases: &[] },
        Codepoint { codepoint: 0x18A08, name: "TANGUT COMPONENT-521", aliases: &[] },
        Codepoint { codepoint: 0x18A09, name: "TANGUT COMPONENT-522", aliases: &[] },
        Codepoint { codepoint: 0x18A0A, name: "TANGUT COMPONENT-523", aliases: &[] },
        Codepoint { codepoint: 0x18A0B, name: "TANGUT COMPONENT-524", aliases: &[] },
        Codepoint { codepoint: 0x18A0C, name: "TANGUT COMPONENT-525", aliases: &[] },
        Codepoint { codepoint: 0x18A0D, name: "TANGUT COMPONENT-526", aliases: &[] },
        Codepoint { codepoint: 0x18A0E, name: "TANGUT COMPONENT-527", aliases: &[] },
        Codepoint { codepoint: 0x18A0F, name: "TANGUT COMPONENT-528", aliases: &[] },
        Codepoint { codepoint: 0x18A10, name: "TANGUT COMPONENT-529", aliases: &[] },
        Codepoint { codepoint: 0x18A11, name: "TANGUT COMPONENT-530", aliases: &[] },
        Codepoint { codepoint: 0x18A12, name: "TANGUT COMPONENT-531", aliases: &[] },
        Codepoint { codepoint: 0x18A13, name: "TANGUT COMPONENT-532", aliases: &[] },
        Codepoint { codepoint: 0x18A14, name: "TANGUT COMPONENT-533", aliases: &[] },
    ];
    assert(v@ =~= codepoint_table_656());
    v
}

pub open spec fn codepoint_table_657() -> Seq<Codepoint> {
    seq![
        Codepoint { codepoint: 0x18A15, name: "TANGUT COMPONENT-534", aliases: &[] },
        Codepoint { codepoint: 0x18A16, name: "TANGUT COMPONENT-535", aliases: &[] },
        Codepoint { codepoint: 0x18A17, name: "TANGUT COMPONENT-536", aliases: &[] },
        Codepoint { codepoint: 0x18A18, name: "TANGUT COMPONENT-537", aliases: &[] },
        Codepoint { codepoint: 0x18A19, name: "TANGUT COMPONENT-538", aliases: &[] },
        Codepoint { codepoint: 0x18A1A, name: "TANGUT COMPONENT-539", aliases: &[] },
        Codepoint { codepoint: 0x18A1B, name: "TANGUT COMPONENT-540", aliases: &[] },
        Codepoint { codepoint: 0x18A1C, name: "TANGUT COMPONENT-541", aliases: &[] },
        Codepoint { codepoint: 0x18A1D, name: "TANGUT COMPONENT-542", aliases: &[] },
        Codepoint { codepoint: 0x18A1E, name: "TANGUT COMPONENT-543", aliases: &[] },
        Codepoint { codepoint: 0x18A1F, name: "TANGUT COMPONENT-544", aliases: &[] },
        Codepoint { codepoint: 0x18A20, name: "TANGUT COMPONENT-545", aliases: &[] },
        Codepoint { codepoint: 0x18A21, name: "TANGUT COMPONENT-546", aliases: &[] },
        Codepoint { codepoint: 0x18A22, name: "TANGUT COMPONENT-547", aliases: &[] },
        Codepoint { codepoint: 0x18A23, name: "TANGUT COMPONENT-548", aliases: &[] },
        Codepoint { codepoint: 0x18A24, name: "TANGUT COMPONENT-549", aliases: &[] },
        Codepoint { codepoint: 0x18A25, name: "TANGUT COMPONENT-550", aliases: &[] },
        Codepoint { codepoint: 0x18A26, name: "TANGUT COMPONENT-551", aliases: &[] },
        Codepoint { codepoint: 0x18A27, name: "TANGUT COMPONENT-552", aliases: &[] },
        Codepoint { codepoint: 0x18A28, name: "TANGUT COMPONENT-553", aliases: &[] },
        Codepoint { codepoint: 0x18A29, name: "TANGUT COMPONENT-554", aliases: &[] },
        Codepoint { codepoint: 0x18A2A, name: "TANGUT COMPONENT-555", aliases: &[] },
        Codepoint { codepoint: 0x18A2B, name: "TANGUT COMPONENT-556", aliases: &[] },
        Codepoint { codepoint: 0x18A2C, name: "TANGUT COMPONENT-557", aliases: &[] },
        Codepoint { codepoint: 0x18A2D, name: "TANGUT COMPONENT-558", aliases: &[] },
        Codepoint { codepoint: 0x18A2E, name: "TANGUT COMPONENT-559", aliases: &[] },
        Codepoint { codepoint: 0x18A2F, name: "TANGUT COMPONENT-560", aliases: &[] },
        Codepoint { codepoint: 0x18A30, name: "TANGUT COMPONENT-561", aliases: &[] },
        Codepoint { codepoint: 0x18A31, name: "TANGUT COMPONENT-562", aliases: &[] },
        Codepoint { codepoint: 0x18A32, name: "TANGUT COMPONENT-563", aliases: &[] },
        Codepoint { codepoint: 0x18A33, name: "TANGUT COMPONENT-564", aliases: &[] },
        Codepoint { codepoint: 0x18A34, name: "TANGUT COMPONENT-565", aliases: &[] },
        Codepoint { codepoint: 0x18A35, name: "TANGUT COMPONENT-566", aliases: &[] },
        Codepoint { codepoint: 0x18A36, name: "TANGUT COMPONENT-567", aliases: &[] },
        Codepoint { codepoint: 0x18A37, name: "TANGUT COMPONENT-568", aliases: &[] },
        Codepoint { codepoint: 0x18A38, name: "TANGUT COMPONENT-569", aliases: &[] },
        Codepoint { codepoint: 0x18A39, name: "TANGUT COMPONENT-570", aliases: &[] },
        Codepoint { codepoint: 0x18A3A, name: "TANGUT COMPONENT-571", aliases: &[] },
        Codepoint { codepoint: 0x18A3B, name: "TANGUT COMPONENT-572", aliases: &[] },
        Codepoint { codepoint: 0x18A3C, name: "TANGUT COMPONENT-573", aliases: &[] },
    ]
}

fn all_codepoints_657() -> (v: Vec<Codepoint>)
    ensures
        v@ == codepoint_table_657(),
{
    let v = vec![
        Codepoint { codepoint: 0x18A15, name: "TANGUT COMPONENT-534", aliases: &[] },
        Codepoint { codepoint: 0x18A16, name: "TANGUT COMPONENT-535", aliases: &[] },
        Codepoint { codepoint: 0x18A17, name: "TANGUT COMPONENT-536", aliases: &[] },
        Codepoint { codepoint: 0x18A18, name: "TANGUT COMPONENT-537", aliases: &[] },
        Codepoint { codepoint: 0x18A19, name: "TANGUT COMPONENT-538", aliases: &[] },
        Codepoint { codepoint: 0x18A1A, name: "TANGUT COMPONENT-539", aliases: &[] },
        Codepoint { codepoint: 0x18A1B, name: "TANGUT COMPONENT-540", aliases: &[] },
        Codepoint { codepoint: 0x18A1C, name: "TANGUT COMPONENT-541", aliases: &[] },
        Codepoint { codepoint: 0x18A1D, name: "TANGUT COMPONENT-542", aliases: &[] },
        Codepoint { codepoint: 0x18A1E, name: "TANGUT COMPONENT-543", aliases: &[] },
        Codepoint { codepoint: 0x18A1F, name: "TANGUT COMPONENT-544", aliases: &[] },
        Codepoint { codepoint: 0x18A20, name: "TANGUT COMPONENT-545", aliases: &[] },
        Codepoint { codepoint: 0x18A21, name: "TANGUT COMPONENT-546", aliases: &[] },
        Codepoint { codepoint: 0x18A22, name: "TANGUT COMPONENT-547", aliases: &[] },
        Codepoint { codepoint: 0x18A23, name: "TANGUT COMPONENT-548", aliases: &[] },
        Codepoint { codepoint: 0x18A24, name: "TANGUT COMPONENT-549", aliases: &[] },
        Codepoint { codepoint: 0x18A25, name: "TANGUT COMPONENT-550", aliases: &[] },
        Codepoint { codepoint: 0x18A26, name: "TANGUT COMPONENT-551", aliases: &[] },
        Codepoint { codepoint: 0x18A27, name: "TANGUT COMPONENT-552", aliases: &[] },
        Codepoint { codepoint: 0x18A28, name: "TANGUT COMPONENT-553", aliases: &[] },
        Codepoint { codepoint: 0x18A29, name: "TANGUT COMPONENT-554", aliases: &[] },
        Codepoint { codepoint: 0x18A2A, name: "TANGUT COMPONENT-555", aliases: &[] },
        Codepoint { codepoint: 0x18A2B, name: "TANGUT COMPONENT-556", aliases: &[] },
        Codepoint { codepoint: 0x18A2C, name: "TANGUT COMPONENT-557", aliases: &[] },
        Codepoint { codepoint: 0x18A2D, name: "TANGUT COMPONENT-558", aliases: &[] },
        Codepoint { codepoint: 0x18A2E, name: "TANGUT COMPONENT-559", aliases: &[] },
        Codepoint { codepoint: 0x18A2F, name: "TANGUT COMPONENT-560", aliases: &[] },
        Codepoint { codepoint: 0x18A30, name: "TANGUT COMPONENT-561", aliases: &[] },
        Codepoint { codepoint: 0x18A31, name: "TANGUT COMPONENT-562", aliases: &[] },
        Codepoint { codepoint: 0x18A32, name: "TANGUT COMPONENT-563", aliases: &[] },
        Codepoint { codepoint: 0x18A33, name: "TANGUT COMPONENT-564", aliases: &[] },
        Codepoint { codepoint: 0x18A34, name: "TANGUT COMPONENT-565", aliases: &[] },
        Codepoint { codepoint: 0x18A35, name: "TANGUT COMPONENT-566", aliases: &[] },
        Codepoint { codepoint: 0x18A36, name: "TANGUT COMPONENT-567", aliases: &[] },
        Codepoint { codepoint: 0x18A37, name: "TANGUT COMPONENT-568", aliases: &[] },
        Codepoint { codepoint: 0x18A38, name: "TANGUT COMPONENT-569", aliases: &[] },
        Codepoint { codepoint: 0x18A39, name: "TANGUT COMPONENT-570", aliases: &[] },
        Codepoint { codepoint: 0x18A3A, name: "TANGUT COMPONENT-571", aliases: &[] },
        Codepoint { codepoint: 0x18A3B, name: "TANGUT COMPONENT-572", aliases: &[] },
        Codepoint { codepoint: 0x18A3C, name: "TANGUT COMPONENT-573", aliases: &[] },
    ];
    assert(v@ =~= codepoint_table_657());
    v
}

pub open spec fn codepoint_table_658() -> Seq<Codepoint> {
    seq![
        Codepoint { codepoint: 0x18A3D, name: "TANGUT COMPONENT-574", aliases: &[] },
        Codepoint { codepoint: 0x18A3E, name: "TANGUT COMPONENT-575", aliases: &[] },
        Codepoint { codepoint: 0x18A3F, name: "TANGUT COMPONENT-576", aliases: &[] },
        Codepoint { codepoint: 0x18A40, name: "TANGUT COMPONENT-577", aliases: &[] },
        Codepoint { codepoint: 0x18A41, name: "TANGUT COMPONENT-578", aliases: &[] },
        Codepoint { codepoint: 0x18A42, name: "TANGUT COMPONENT-579", aliases: &[] },
        Codepoint { codepoint: 0x18A43, name: "TANGUT COMPONENT-580", aliases: &[] },
        Codepoint { codepoint: 0x18A44, name: "TANGUT COMPONENT-581", aliases: &[] },
        Codepoint { codepoint: 0x18A45, name: "TANGUT COMPONENT-582", aliases: &[] },
        Codepoint { codepoint: 0x18A46, name: "TANGUT COMPONENT-583", aliases: &[] },
        Codepoint { codepoint: 0x18A47, name: "TANGUT COMPONENT-584", aliases: &[] },
        Codepoint { codepoint: 0x18A48, name: "TANGUT COMPONENT-585", aliases: &[] },
        Codepoint { codepoint: 0x18A49, name: "TANGUT COMPONENT-586", aliases: &[] },
        Codepoint { codepoint: 0x18A4A, name: "TANGUT COMPONENT-587", aliases: &[] },
        Codepoint { codepoint: 0x18A4B, name: "TANGUT COMPONENT-588", aliases: &[] },
        Codepoint { codepoint: 0x18A4C, name: "TANGUT COMPONENT-589", aliases: &[] },
        Codepoint { codepoint: 0x18A4D, name: "TANGUT COMPONENT-590", aliases: &[] },
        Codepoint { codepoint: 0x18A4E, name: "TANGUT COMPONENT-591", aliases: &[] },
        Codepoint { codepoint: 0x18A4F, name: "TANGUT COMPONENT-592", aliases: &[] },
        Codepoint { codepoint: 0x18A50, name: "TANGUT COMPONENT-593", aliases: &[] },
        Codepoint { codepoint: 0x18A51, name: "TANGUT COMPONENT-594", aliases: &[] },
        Codepoint { codepoint: 0x18A52, name: "TANGUT COMPONENT-595", aliases: &[] },
        Codepoint { codepoint: 0x18A53, name: "TANGUT COMPONENT-596", aliases: &[] },
        Codepoint { codepoint: 0x18A54, name: "TANGUT COMPONENT-597", aliases: &[] },
        Codepoint { codepoint: 0x18A55, name: "TANGUT COMPONENT-598", aliases: &[] },
        Codepoint { codepoint: 0x18A56, name: "TANGUT COMPONENT-599", aliases: &[] },
        Codepoint { codepoint: 0x18A57, name: "TANGUT COMPONENT-600", aliases: &[] },
        Codepoint { codepoint: 0x18A58, name: "TANGUT COMPONENT-601", aliases: &[] },
        Codepoint { codepoint: 0x18A59, name: "TANGUT COMPONENT-602", aliases: &[] },
        Codepoint { codepoint: 0x18A5A, name: "TANGUT COMPONENT-603", aliases: &[] },
        Codepoint { codepoint: 0x18A5B, name: "TANGUT COMPONENT-604", aliases: &[] },
        Codepoint { codepoint: 0x18A5C, name: "TANGUT COMPONENT-605", aliases: &[] },
        Codepoint { codepoint: 0x18A5D, name: "TANGUT COMPONENT-606", aliases: &[] },
        Codepoint { codepoint: 0x18A5E, name: "TANGUT COMPONENT-607", aliases: &[] },
        Codepoint { codepoint: 0x18A5F, name: "TANGUT COMPONENT-608", aliases: &[] },
        Codepoint { codepoint: 0x18A60, name: "TANGUT COMPONENT-609", aliases: &[] },
        Codepoint { codepoint: 0x18A61, name: "TANGUT COMPONENT-610", aliases: &[] },
        Codepoint { codepoint: 0x18A62, name: "TANGUT COMPONENT-611", aliases: &[] },
        Codepoint { codepoint: 0x18A63, name: "TANGUT COMPONENT-612", aliases: &[] },
        Codepoint { codepoint: 0x18A64, name: "TANGUT COMPONENT-613", aliases: &[] },
    ]
}

fn all_codepoints_658() -> (v: Vec<Codepoint>)
    ensures
        v@ == codepoint_table_658(),
{
    let v = vec![
        Codepoint { codepoint: 0x18A3D, name: "TANGUT COMPONENT-574", aliases: &[] },
        Codepoint { codepoint: 0x18A3E, name: "TANGUT COMPONENT-575", aliases: &[] },
        Codepoint { codepoint: 0x18A3F, name: "TANGUT COMPONENT-576", aliases: &[] },
        Codepoint { codepoint: 0x18A40, name: "TANGUT COMPONENT-577", aliases: &[] },
        Codepoint { codepoint: 0x18A41, name: "TANGUT COMPONENT-578", aliases: &[] },
        Codepoint { codepoint: 0x18A42, name: "TANGUT COMPONENT-579", aliases: &[] },
        Codepoint { codepoint: 0x18A43, name: "TANGUT COMPONENT-580", aliases: &[] },
        Codepoint { codepoint: 0x18A44, name: "TANGUT COMPONENT-581", aliases: &[] },
        Codepoint { codepoint: 0x18A45, name: "TANGUT COMPONENT-582", aliases: &[] },
        Codepoint { codepoint: 0x18A46, name: "TANGUT COMPONENT-583", aliases: &[] },
        Codepoint { codepoint: 0x18A47, name: "TANGUT COMPONENT-584", aliases: &[] },
        Codepoint { codepoint: 0x18A48, name: "TANGUT COMPONENT-585", aliases: &[] },
        Codepoint { codepoint: 0x18A49, name: "TANGUT COMPONENT-586", aliases: &[] },
        Codepoint { codepoint: 0x18A4A, name: "TANGUT COMPONENT-587", aliases: &[] },
        Codepoint { codepoint: 0x18A4B, name: "TANGUT COMPONENT-588", aliases: &[] },
        Codepoint { codepoint: 0x18A4C, name: "TANGUT COMPONENT-589", aliases: &[] },
        Codepoint { codepoint: 0x18A4D, name: "TANGUT COMPONENT-590", aliases: &[] },
        Codepoint { codepoint: 0x18A4E, name: "TANGUT COMPONENT-591", aliases: &[] },
        Codepoint { codepoint: 0x18A4F, name: "TANGUT COMPONENT-592", aliases: &[] },
        Codepoint { codepoint: 0x18A50, name: "TANGUT COMPONENT-593", aliases: &[] },
        Codepoint { codepoint: 0x18A51, name: "TANGUT COMPONENT-594", aliases: &[] },
        Codepoint { codepoint: 0x18A52, name: "TANGUT COMPONENT-595", aliases: &[] },
        Codepoint { codepoint: 0x18A53, name: "TANGUT COMPONENT-596", aliases: &[] },
        Codepoint { codepoint: 0x18A54, name: "TANGUT COMPONENT-597", aliases: &[] },
        Codepoint { codepoint: 0x18A55, name: "TANGUT COMPONENT-598", aliases: &[] },
        Codepoint { codepoint: 0x18A56, name: "TANGUT COMPONENT-599", aliases: &[] },
        Codepoint { codepoint: 0x18A57, name: "TANGUT COMPONENT-600", aliases: &[] },
        Codepoint { codepoint: 0x18A58, name: "TANGUT COMPONENT-601", aliases: &[] },
        Codepoint { codepoint: 0x18A59, name: "TANGUT COMPONENT-602", aliases: &[] },
        Codepoint { codepoint: 0x18A5A, name: "TANGUT COMPONENT-603", aliases: &[] },
        Codepoint { codepoint: 0x18A5B, name: "TANGUT COMPONENT-604", aliases: &[] },
        Codepoint { codepoint: 0x18A5C, name: "TANGUT COMPONENT-605", aliases: &[] },
        Codepoint { codepoint: 0x18A5D, name: "TANGUT COMPONENT-606", aliases: &[] },
        Codepoint { codepoint: 0x18A5E, name: "TANGUT COMPONENT-607", aliases: &[] },
        Codepoint { codepoint: 0x18A5F, name: "TANGUT COMPONENT-608", aliases: &[] },
        Codepoint { codepoint: 0x18A60, name: "TANGUT COMPONENT-609", aliases: &[] },
        Codepoint { codepoint: 0x18A61, name: "TANGUT COMPONENT-610", aliases: &[] },
        Codepoint { codepoint: 0x18A62, name: "TANGUT COMPONENT-611", aliases: &[] },
        Codepoint { codepoint: 0x18A63, name: "TANGUT COMPONENT-612", aliases: &[] },
        Codepoint { codepoint: 0x18A64, name: "TANGUT COMPONENT-613", aliases: &[] },
    ];
    assert(v@ =~= codepoint_table_658());
    v
}

pub open spec fn codepoint_table_659() -> Seq<Codepoint> {
    seq![
        Codepoint { codepoint: 0x18A65, name: "TANGUT COMPONENT-614", aliases: &[] },
        Codepoint { codepoint: 0x18A66, name: "TANGUT COMPONENT-615", aliases: &[] },
        Codepoint { codepoint: 0x18A67, name: "TANGUT COMPONENT-616", aliases: &[] },
        Codepoint { codepoint: 0x18A68, name: "TANGUT COMPONENT-617", aliases: &[] },
        Codepoint { codepoint: 0x18A69, name: "TANGUT COMPONENT-618", aliases: &[] },
        Codepoint { codepoint: 0x18A6A, name: "TANGUT COMPONENT-619", aliases: &[] },
        Codepoint { codepoint: 0x18A6B, name: "TANGUT COMPONENT-620", aliases: &[] },
        Codepoint { codepoint: 0x18A6C, name: "TANGUT COMPONENT-621", aliases: &[] },
        Codepoint { codepoint: 0x18A6D, name: "TANGUT COMPONENT-622", aliases: &[] },
        Codepoint { codepoint: 0x18A6E, name: "TANGUT COMPONENT-623", aliases: &[] },
        Codepoint { codepoint: 0x18A6F, name: "TANGUT COMPONENT-624", aliases: &[] },
        Codepoint { codepoint: 0x18A70, name: "TANGUT COMPONENT-625", aliases: &[] },
        Codepoint { codepoint: 0x18A71, name: "TANGUT COMPONENT-626", aliases: &[] },
        Codepoint { codepoint: 0x18A72, name: "TANGUT COMPONENT-627", aliases: &[] },
        Codepoint { codepoint: 0x18A73, name: "TANGUT COMPONENT-628", aliases: &[] },
        Codepoint { codepoint: 0x18A74, name: "TANGUT COMPONENT-629", aliases: &[] },
        Codepoint { codepoint: 0x18A75, name: "TANGUT COMPONENT-630", aliases: &[] },
        Codepoint { codepoint: 0x18A76, name: "TANGUT COMPONENT-631", aliases: &[] },
        Codepoint { codepoint: 0x18A77, name: "TANGUT COMPONENT-632", aliases: &[] },
        Codepoint { codepoint: 0x18A78, name: "TANGUT COMPONENT-633", aliases: &[] },
        Codepoint { codepoint: 0x18A79, name: "TANGUT COMPONENT-634", aliases: &[] },
        Codepoint { codepoint: 0x18A7A, name: "TANGUT COMPONENT-635", aliases: &[] },
        Codepoint { codepoint: 0x18A7B, name: "TANGUT COMPONENT-636", aliases: &[] },
        Codepoint { codepoint: 0x18A7C, name: "TANGUT COMPONENT-637", aliases: &[] },
        Codepoint { codepoint: 0x18A7D, name: "TANGUT COMPONENT-638", aliases: &[] },
        Codepoint { codepoint: 0x18A7E, name: "TANGUT COMPONENT-639", aliases: &[] },
        Codepoint { codepoint: 0x18A7F, name: "TANGUT COMPONENT-640", aliases: &[] },
        Codepoint { codepoint: 0x18A80, name: "TANGUT COMPONENT-641", aliases: &[] },
        Codepoint { codepoint: 0x18A81, name: "TANGUT COMPONENT-642", aliases: &[] },
        Codepoint { codepoint: 0x18A82, name: "TANGUT COMPONENT-643", aliases: &[] },
        Codepoint { codepoint: 0x18A83, name: "TANGUT COMPONENT-644", aliases: &[] },
        Codepoint { codepoint: 0x18A84, name: "TANGUT COMPONENT-645", aliases: &[] },
        Codepoint { codepoint: 0x18A85, name: "TANGUT COMPONENT-646", aliases: &[] },
        Codepoint { codepoint: 0x18A86, name: "TANGUT COMPONENT-647", aliases: &[] },
        Codepoint { codepoint: 0x18A87, name: "TANGUT COMPONENT-648", aliases: &[] },
        Codepoint { codepoint: 0x18A88, name: "TANGUT COMPONENT-649", aliases: &[] },
        Codepoint { codepoint: 0x18A89, name: "TANGUT COMPONENT-650", aliases: &[] },
        Codepoint { codepoint: 0x18A8A, name: "TANGUT COMPONENT-651", aliases: &[] },
        Codepoint { codepoint: 0x18A8B, name: "TANGUT COMPONENT-652", aliases: &[] },
        Codepoint { codepoint: 0x18A8C, name: "TANGUT COMPONENT-653", aliases: &[] },
    ]
}

fn all_codepoints_659() -> (v: Vec<Codepoint>)
    ensures
        v@ == codepoint_table_659(),
{
    let v = vec![
        Codepoint { codepoint: 0x18A65, name: "TANGUT COMPONENT-614", aliases: &[] },
        Codepoint { codepoint: 0x18A66, name: "TANGUT COMPONENT-615", aliases: &[] },
        Codepoint { codepoint: 0x18A67, name: "TANGUT COMPONENT-616", aliases: &[] },
        Codepoint { codepoint: 0x18A68, name: "TANGUT COMPONENT-617", aliases: &[] },
        Codepoint { codepoint: 0x18A69, name: "TANGUT COMPONENT-618", aliases: &[] },
        Codepoint { codepoint: 0x18A6A, name: "TANGUT COMPONENT-619", aliases: &[] },
        Codepoint { codepoint: 0x18A6B, name: "TANGUT COMPONENT-620", aliases: &[] },
        Codepoint { codepoint: 0x18A6C, name: "TANGUT COMPONENT-621", aliases: &[] },
        Codepoint { codepoint: 0x18A6D, name: "TANGUT COMPONENT-622", aliases: &[] },
        Codepoint { codepoint: 0x18A6E, name: "TANGUT COMPONENT-623", aliases: &[] },
        Codepoint { codepoint: 0x18A6F, name: "TANGUT COMPONENT-624", aliases: &[] },
        Codepoint { codepoint: 0x18A70, name: "TANGUT COMPONENT-625", aliases: &[] },
        Codepoint { codepoint: 0x18A71, name: "TANGUT COMPONENT-626", aliases: &[] },
        Codepoint { codepoint: 0x18A72, name: "TANGUT COMPONENT-627", aliases: &[] },
        Codepoint { codepoint: 0x18A73, name: "TANGUT COMPONENT-628", aliases: &[] },
        Codepoint { codepoint: 0x18A74, name: "TANGUT COMPONENT-629", aliases: &[] },
        Codepoint { codepoint: 0x18A75, name: "TANGUT COMPONENT-630", aliases: &[] },
        Codepoint { codepoint: 0x18A76, name: "TANGUT COMPONENT-631", aliases: &[] },
        Codepoint { codepoint: 0x18A77, name: "TANGUT COMPONENT-632", aliases: &[] },
        Codepoint { codepoint: 0x18A78, name: "TANGUT COMPONENT-633", aliases: &[] },
        Codepoint { codepoint: 0x18A79, name: "TANGUT COMPONENT-634", aliases: &[] },
        Codepoint { codepoint: 0x18A7A, name: "TANGUT COMPONENT-635", aliases: &[] },
        Codepoint { codepoint: 0x18A7B, name: "TANGUT COMPONENT-636", aliases: &[] },
        Codepoint { codepoint: 0x18A7C, name: "TANGUT COMPONENT-637", aliases: &[] },
        Codepoint { codepoint: 0x18A7D, name: "TANGUT COMPONENT-638", aliases: &[] },
        Codepoint { codepoint: 0x18A7E, name: "TANGUT COMPONENT-639", aliases: &[] },
        Codepoint { codepoint: 0x18A7F, name: "TANGUT COMPONENT-640", aliases: &[] },
        Codepoint { codepoint: 0x18A80, name: "TANGUT COMPONENT-641", aliases: &[] },
        Codepoint { codepoint: 0x18A81, name: "TANGUT COMPONENT-642", aliases: &[] },
        Codepoint { codepoint: 0x18A82, name: "TANGUT COMPONENT-643", aliases: &[] },
        Codepoint { codepoint: 0x18A83, name: "TANGUT COMPONENT-644", aliases: &[] },
        Codepoint { codepoint: 0x18A84, name: "TANGUT COMPONENT-645", aliases: &[] },
        Codepoint { codepoint: 0x18A85, name: "TANGUT COMPONENT-646", aliases: &[] },
        Codepoint { codepoint: 0x18A86, name: "TANGUT COMPONENT-647", aliases: &[] },
        Codepoint { codepoint: 0x18A87, name: "TANGUT COMPONENT-648", aliases: &[] },
        Codepoint { codepoint: 0x18A88, name: "TANGUT COMPONENT-649", aliases: &[] },
        Codepoint { codepoint: 0x18A89, name: "TANGUT COMPONENT-650", aliases: &[] },
        Codepoint { codepoint: 0x18A8A, name: "TANGUT COMPONENT-651", aliases: &[] },
        Codepoint { codepoint: 0x18A8B, name: "TANGUT COMPONENT-652", aliases: &[] },
        Codepoint { codepoint: 0x18A8C, name: "TANGUT COMPONENT-653", aliases: &[] },
    ];
    assert(v@ =~= codepoint_table_659());
    v
}

/// The entries from position 25600 of the table, 800 at most.
pub open spec fn codepoint_group_32() -> Seq<Codepoint> {
    codepoint_table_640() + codepoint_table_641() + codepoint_table_642() + codepoint_table_643() + codepoint_table_644() + codepoint_table_645() + codepoint_table_646() + codepoint_table_647() + codepoint_table_648() + codepoint_table_649() + codepoint_table_650() + codepoint_table_651() + codepoint_table_652() + codepoint_table_653() + codepoint_table_654() + codepoint_table_655() + codepoint_table_656() + codepoint_table_657() + codepoint_table_658() + codepoint_table_659()
}

pub fn all_codepoints_group_32() -> (v: Vec<Codepoint>)
    ensures
        v@ == codepoint_group_32(),
{
    let mut v = all_codepoints_640();
    let mut part = all_codepoints_641();
    v.append(&mut part);
    let mut part = all_codepoints_642();
    v.append(&mut part);
    let mut part = all_codepoints_643();
    v.append(&mut part);
    let mut part = all_codepoints_644();
    v.append(&mut part);
    let mut part = all_codepoints_645();
    v.append(&mut part);
    let mut part = all_codepoints_646();
    v.append(&mut part);
    let mut part = all_codepoints_647();
    v.append(&mut part);
    let mut part = all_codepoints_648();
    v.append(&mut part);
    let mut part = all_codepoints_649();
    v.append(&mut part);
    let mut part = all_codepoints_650();
    v.append(&mut part);
    let mut part = all_codepoints_651();
    v.append(&mut part);
    let mut part = all_codepoints_652();
    v.append(&mut part);
    let mut part = all_codepoints_653();
    v.append(&mut part);
    let mut part = all_codepoints_654();
    v.append(&mut part);
    let mut part = all_codepoints_655();
    v.append(&mut part);
    let mut part = all_codepoints_656();
    v.append(&mut part);
    let mut part = all_codepoints_657();
    v.append(&mut part);
    let mut part = all_codepoints_658();
    v.append(&mut part);
    let mut part = all_codepoints_659();
    v.append(&mut part);
    v
}

pub open spec fn codepoint_table_660() -> Seq<Codepoint> {
    seq![
        Codepoint { codepoint: 0x18A8D, name: "TANGUT COMPONENT-654", aliases: &[] },
        Codepoint { codepoint: 0x18A8E, name: "TANGUT COMPONENT-655", aliases: &[] },
        Codepoint { codepoint: 0x18A8F, name: "TANGUT COMPONENT-656", aliases: &[] },
        Codepoint { codepoint: 0x18A90, name: "TANGUT COMPONENT-657", aliases: &[] },
        Codepoint { codepoint: 0x18A91, name: "TANGUT COMPONENT-658", aliases: &[] },
        Codepoint { codepoint: 0x18A92, name: "TANGUT COMPONENT-659", aliases: &[] },
        Codepoint { codepoint: 0x18A93, name: "TANGUT COMPONENT-660", aliases: &[] },
        Codepoint { codepoint: 0x18A94, name: "TANGUT COMPONENT-661", aliases: &[] },
        Codepoint { codepoint: 0x18A95, name: "TANGUT COMPONENT-662", aliases: &[] },
        Codepoint { codepoint: 0x18A96, name: "TANGUT COMPONENT-663", aliases: &[] },
        Codepoint { codepoint: 0x18A97, name: "TANGUT COMPONENT-664", aliases: &[] },
        Codepoint { codepoint: 0x18A98, name: "TANGUT COMPONENT-665", aliases: &[] },
        Codepoint { codepoint: 0x18A99, name: "TANGUT COMPONENT-666", aliases: &[] },
        Codepoint { codepoint: 0x18A9A, name: "TANGUT COMPONENT-667", aliases: &[] },
        Codepoint { codepoint: 0x18A9B, name: "TANGUT COMPONENT-668", aliases: &[] },
        Codepoint { codepoint: 0x18A9C, name: "TANGUT COMPONENT-669", aliases: &[] },
        Codepoint { codepoint: 0x18A9D, name: "TANGUT COMPONENT-670", aliases: &[] },
        Codepoint { codepoint: 0x18A9E, name: "TANGUT COMPONENT-671", aliases: &[] },
        Codepoint { codepoint: 0x18A9F, name: "TANGUT COMPONENT-672", aliases: &[] },
        Codepoint { codepoint: 0x18AA0, name: "TANGUT COMPONENT-673", aliases: &[] },
        Codepoint { codepoint: 0x18AA1, name: "TANGUT COMPONENT-674", aliases: &[] },
        Codepoint { codepoint: 0x18AA2, name: "TANGUT COMPONENT-675", aliases: &[] },
        Codepoint { codepoint: 0x18AA3, name: "TANGUT COMPONENT-676", aliases: &[] },
        Codepoint { codepoint: 0x18AA4, name: "TANGUT COMPONENT-677", aliases: &[] },
        Codepoint { codepoint: 0x18AA5, name: "TANGUT COMPONENT-678", aliases: &[] },
        Codepoint { codepoint: 0x18AA6, name: "TANGUT COMPONENT-679", aliases: &[] },
        Codepoint { codepoint: 0x18AA7, name: "TANGUT COMPONENT-680", aliases: &[] },
        Codepoint { codepoint: 0x18AA8, name: "TANGUT COMPONENT-681", aliases: &[] },
        Codepoint { codepoint: 0x18AA9, name: "TANGUT COMPONENT-682", aliases: &[] },
        Codepoint { codepoint: 0x18AAA, name: "TANGUT COMPONENT-683", aliases: &[] },
        Codepoint { codepoint: 0x18AAB, name: "TANGUT COMPONENT-684", aliases: &[] },
        Codepoint { codepoint: 0x18AAC, name: "TANGUT COMPONENT-685", aliases: &[] },
        Codepoint { codepoint: 0x18AAD, name: "TANGUT COMPONENT-686", aliases: &[] },
        Codepoint { codepoint: 0x18AAE, name: "TANGUT COMPONENT-687", aliases: &[] },
        Codepoint { codepoint: 0x18AAF, name: "TANGUT COMPONENT-688", aliases: &[] },
        Codepoint { codepoint: 0x18AB0, name: "TANGUT COMPONENT-689", aliases: &[] },
        Codepoint { codepoint: 0x18AB1, name: "TANGUT COMPONENT-690", aliases: &[] },
        Codepoint { codepoint: 0x18AB2, name: "TANGUT COMPONENT-691", aliases: &[] },
        Codepoint { codepoint: 0x18AB3, name: "TANGUT COMPONENT-692", aliases: &[] },
        Codepoint { codepoint: 0x18AB4, name: "TANGUT COMPONENT-693", aliases: &[] },
    ]
}

fn all_codepoints_660() -> (v: Vec<Codepoint>)
    ensures
        v@ == codepoint_table_660(),
{
    let v = vec![
        Codepoint { codepoint: 0x18A8D, name: "TANGUT COMPONENT-654", aliases: &[] },
        Codepoint { codepoint: 0x18A8E, name: "TANGUT COMPONENT-655", aliases: &[] },
        Codepoint { codepoint: 0x18A8F, name: "TANGUT COMPONENT-656", aliases: &[] },
        Codepoint { codepoint: 0x18A90, name: "TANGUT COMPONENT-657", aliases: &[] },
        Codepoint { codepoint: 0x18A91, name: "TANGUT COMPONENT-658", aliases: &[] },
        Codepoint { codepoint: 0x18A92, name: "TANGUT COMPONENT-659", aliases: &[] },
        Codepoint { codepoint: 0x18A93, name: "TANGUT COMPONENT-660", aliases: &[] },
        Codepoint { codepoint: 0x18A94, name: "TANGUT COMPONENT-661", aliases: &[] },
        Codepoint { codepoint: 0x18A95, name: "TANGUT COMPONENT-662", aliases: &[] },
        Codepoint { codepoint: 0x18A96, name: "TANGUT COMPONENT-663", aliases: &[] },
        Codepoint { codepoint: 0x18A97, name: "TANGUT COMPONENT-664", aliases: &[] },
        Codepoint { codepoint: 0x18A98, name: "TANGUT COMPONENT-665", aliases: &[] },
        Codepoint { codepoint: 0x18A99, name: "TANGUT COMPONENT-666", aliases: &[] },
        Codepoint { codepoint: 0x18A9A, name: "TANGUT COMPONENT-667", aliases: &[] },
        Codepoint { codepoint: 0x18A9B, name: "TANGUT COMPONENT-668", aliases: &[] },
        Codepoint { codepoint: 0x18A9C, name: "TANGUT COMPONENT-669", aliases: &[] },
        Codepoint { codepoint: 0x18A9D, name: "TANGUT COMPONENT-670", aliases: &[] },
        Codepoint { codepoint: 0x18A9E, name: "TANGUT COMPONENT-671", aliases: &[] },
        Codepoint { codepoint: 0x18A9F, name: "TANGUT COMPONENT-672", aliases: &[] },
        Codepoint { codepoint: 0x18AA0, name: "TANGUT COMPONENT-673", aliases: &[] },
        Codepoint { codepoint: 0x18AA1, name: "TANGUT COMPONENT-674", aliases: &[] },
        Codepoint { codepoint: 0x18AA2, name: "TANGUT COMPONENT-675", aliases: &[] },
        Codepoint { codepoint: 0x18AA3, name: "TANGUT COMPONENT-676", aliases: &[] },
        Codepoint { codepoint: 0x18AA4, name: "TANGUT COMPONENT-677", aliases: &[] },
        Codepoint { codepoint: 0x18AA5, name: "TANGUT COMPONENT-678", aliases: &[] },
        Codepoint { codepoint: 0x18AA6, name: "TANGUT COMPONENT-679", aliases: &[] },
        Codepoint { codepoint: 0x18AA7, name: "TANGUT COMPONENT-680", aliases: &[] },
        Codepoint { codepoint: 0x18AA8, name: "TANGUT COMPONENT-681", aliases: &[] },
        Codepoint { codepoint: 0x18AA9, name: "TANGUT COMPONENT-682", aliases: &[] },
        Codepoint { codepoint: 0x18AAA, name: "TANGUT COMPONENT-683", aliases: &[] },
        Codepoint { codepoint: 0x18AAB, name: "TANGUT COMPONENT-684", aliases: &[] },
        Codepoint { codepoint: 0x18AAC, name: "TANGUT COMPONENT-685", aliases: &[] },
        Codepoint { codepoint: 0x18AAD, name: "TANGUT COMPONENT-686", aliases: &[] },
        Codepoint { codepoint: 0x18AAE, name: "TANGUT COMPONENT-687", aliases: &[] },
        Codepoint { codepoint: 0x18AAF, name: "TANGUT COMPONENT-688", aliases: &[] },
        Codepoint { codepoint: 0x18AB0, name: "TANGUT COMPONENT-689", aliases: &[] },
        Codepoint { codepoint: 0x18AB1, name: "TANGUT COMPONENT-690", aliases: &[] },
        Codepoint { codepoint: 0x18AB2, name: "TANGUT COMPONENT-691", aliases: &[] },
        Codepoint { codepoint: 0x18AB3, name: "TANGUT COMPONENT-692", aliases: &[] },
        Codepoint { codepoint: 0x18AB4, name: "TANGUT COMPONENT-693", aliases: &[] },
    ];
    assert(v@ =~= codepoint_table_660());
    v
}

pub open spec fn codepoint_table_661() -> Seq<Codepoint> {
    seq![
        Codepoint { codepoint: 0x18AB5, name: "TANGUT COMPONENT-694", aliases: &[] },
        Codepoint { codepoint: 0x18AB6, name: "TANGUT COMPONENT-695", aliases: &[] },
        Codepoint { codepoint: 0x18AB7, name: "TANGUT COMPONENT-696", aliases: &[] },
        Codepoint { codepoint: 0x18AB8, name: "TANGUT COMPONENT-697", aliases: &[] },
        Codepoint { codepoint: 0x18AB9, name: "TANGUT COMPONENT-698", aliases: &[] },
        Codepoint { codepoint: 0x18ABA, name: "TANGUT COMPONENT-699", aliases: &[] },
        Codepoint { codepoint: 0x18ABB, name: "TANGUT COMPONENT-700", aliases: &[] },
        Codepoint { codepoint: 0x18ABC, name: "TANGUT COMPONENT-701", aliases: &[] },
        Codepoint { codepoint: 0x18ABD, name: "TANGUT COMPONENT-702", aliases: &[] },
        Codepoint { codepoint: 0x18ABE, name: "TANGUT COMPONENT-703", aliases: &[] },
        Codepoint { codepoint: 0x18ABF, name: "TANGUT COMPONENT-704", aliases: &[] },
        Codepoint { codepoint: 0x18AC0, name: "TANGUT COMPONENT-705", aliases: &[] },
        Codepoint { codepoint: 0x18AC1, name: "TANGUT COMPONENT-706", aliases: &[] },
        Codepoint { codepoint: 0x18AC2, name: "TANGUT COMPONENT-707", aliases: &[] },
        Codepoint { codepoint: 0x18AC3, name: "TANGUT COMPONENT-708", aliases: &[] },
        Codepoint { codepoint: 0x18AC4, name: "TANGUT COMPONENT-709", aliases: &[] },
        Codepoint { codepoint: 0x18AC5, name: "TANGUT COMPONENT-710", aliases: &[] },
        Codepoint { codepoint: 0x18AC6, name: "TANGUT COMPONENT-711", aliases: &[] },
        Codepoint { codepoint: 0x18AC7, name: "TANGUT COMPONENT-712", aliases: &[] },
        Codepoint { codepoint: 0x18AC8, name: "TANGUT COMPONENT-713", aliases: &[] },
        Codepoint { codepoint: 0x18AC9, name: "TANGUT COMPONENT-714", aliases: &[] },
        Codepoint { codepoint: 0x18ACA, name: "TANGUT COMPONENT-715", aliases: &[] },
        Codepoint { codepoint: 0x18ACB, name: "TANGUT COMPONENT-716", aliases: &[] },
        Codepoint { codepoint: 0x18ACC, name: "TANGUT COMPONENT-717", aliases: &[] },
        Codepoint { codepoint: 0x18ACD, name: "TANGUT COMPONENT-718", aliases: &[] },
        Codepoint { codepoint: 0x18ACE, name: "TANGUT COMPONENT-719", aliases: &[] },
        Codepoint { codepoint: 0x18ACF, name: "TANGUT COMPONENT-720", aliases: &[] },
        Codepoint { codepoint: 0x18AD0, name: "TANGUT COMPONENT-721", aliases: &[] },
        Codepoint { codepoint: 0x18AD1, name: "TANGUT COMPONENT-722", aliases: &[] },
        Codepoint { codepoint: 0x18AD2, name: "TANGUT COMPONENT-723", aliases: &[] },
        Codepoint { codepoint: 0x18AD3, name: "TANGUT COMPONENT-724", aliases: &[] },
        Codepoint { codepoint: 0x18AD4, name: "TANGUT COMPONENT-725", aliases: &[] },
        Codepoint { codepoint: 0x18AD5, name: "TANGUT COMPONENT-726", aliases: &[] },
        Codepoint { codepoint: 0x18AD6, name: "TANGUT COMPONENT-727", aliases: &[] },
        Codepoint { codepoint: 0x18AD7, name: "TANGUT COMPONENT-728", aliases: &[] },
        Codepoint { codepoint: 0x18AD8, name: "TANGUT COMPONENT-729", aliases: &[] },
        Codepoint { codepoint: 0x18AD9, name: "TANGUT COMPONENT-730", aliases: &[] },
        Codepoint { codepoint: 0x18ADA, name: "TANGUT COMPONENT-731", aliases: &[] },
        Codepoint { codepoint: 0x18ADB, name: "TANGUT COMPONENT-732", aliases: &[] },
        Codepoint { codepoint: 0x18ADC, name: "TANGUT COMPONENT-733", aliases: &[] },
    ]
}

fn all_codepoints_661() -> (v: Vec<Codepoint>)
    ensures
        v@ == codepoint_table_661(),
{
    let v = vec![
        Codepoint { codepoint: 0x18AB5, name: "TANGUT COMPONENT-694", aliases: &[] },
        Codepoint { codepoint: 0x18AB6, name: "TANGUT COMPONENT-695", aliases: &[] },
        Codepoint { codepoint: 0x18AB7, name: "TANGUT COMPONENT-696", aliases: &[] },
        Codepoint { codepoint: 0x18AB8, name: "TANGUT COMPONENT-697", aliases: &[] },
        Codepoint { codepoint: 0x18AB9, name: "TANGUT COMPONENT-698", aliases: &[] },
        Codepoint { codepoint: 0x18ABA, name: "TANGUT COMPONENT-699", aliases: &[] },
        Codepoint { codepoint: 0x18ABB, name: "TANGUT COMPONENT-700", aliases: &[] },
        Codepoint { codepoint: 0x18ABC, name: "TANGUT COMPONENT-701", aliases: &[] },
        Codepoint { codepoint: 0x18ABD, name: "TANGUT COMPONENT-702", aliases: &[] },
        Codepoint { codepoint: 0x18ABE, name: "TANGUT COMPONENT-703", aliases: &[] },
        Codepoint { codepoint: 0x18ABF, name: "TANGUT COMPONENT-704", aliases: &[] },
        Codepoint { codepoint: 0x18AC0, name: "TANGUT COMPONENT-705", aliases: &[] },
        Codepoint { codepoint: 0x18AC1, name: "TANGUT COMPONENT-706", aliases: &[] },
        Codepoint { codepoint: 0x18AC2, name: "TANGUT COMPONENT-707", aliases: &[] },
        Codepoint { codepoint: 0x18AC3, name: "TANGUT COMPONENT-708", aliases: &[] },
        Codepoint { codepoint: 0x18AC4, name: "TANGUT COMPONENT-709", aliases: &[] },
        Codepoint { codepoint: 0x18AC5, name: "TANGUT COMPONENT-710", aliases: &[] },
        Codepoint { codepoint: 0x18AC6, name: "TANGUT COMPONENT-711", aliases: &[] },
        Codepoint { codepoint: 0x18AC7, name: "TANGUT COMPONENT-712", aliases: &[] },
        Codepoint { codepoint: 0x18AC8, name: "TANGUT COMPONENT-713", aliases: &[] },
        Codepoint { codepoint: 0x18AC9, name: "TANGUT COMPONENT-714", aliases: &[] },
        Codepoint { codepoint: 0x18ACA, name: "TANGUT COMPONENT-715", aliases: &[] },
        Codepoint { codepoint: 0x18ACB, name: "TANGUT COMPONENT-716", aliases: &[] },
        Codepoint { codepoint: 0x18ACC, name: "TANGUT COMPONENT-717", aliases: &[] },
        Codepoint { codepoint: 0x18ACD, name: "TANGUT COMPONENT-718", aliases: &[] },
        Codepoint { codepoint: 0x18ACE, name: "TANGUT COMPONENT-719", aliases: &[] },
        Codepoint { codepoint: 0x18ACF, name: "TANGUT COMPONENT-720", aliases: &[] },
        Codepoint { codepoint: 0x18AD0, name: "TANGUT COMPONENT-721", aliases: &[] },
        Codepoint { codepoint: 0x18AD1, name: "TANGUT COMPONENT-722", aliases: &[] },
        Codepoint { codepoint: 0x18AD2, name: "TANGUT COMPONENT-723", aliases: &[] },
        Codepoint { codepoint: 0x18AD3, name: "TANGUT COMPONENT-724", aliases: &[] },
        Codepoint { codepoint: 0x18AD4, name: "TANGUT COMPONENT-725", aliases: &[] },
        Codepoint { codepoint: 0x18AD5, name: "TANGUT COMPONENT-726", aliases: &[] },
        Codepoint { codepoint: 0x18AD6, name: "TANGUT COMPONENT-727", aliases: &[] },
        Codepoint { codepoint: 0x18AD7, name: "TANGUT COMPONENT-728", aliases: &[] },
        Codepoint { codepoint: 0x18AD8, name: "TANGUT COMPONENT-729", aliases: &[] },
        Codepoint { codepoint: 0x18AD9, name: "TANGUT COMPONENT-730", aliases: &[] },
        Codepoint { codepoint: 0x18ADA, name: "TANGUT COMPONENT-731", aliases: &[] },
        Codepoint { codepoint: 0x18ADB, name: "TANGUT COMPONENT-732", aliases: &[] },
        Codepoint { codepoint: 0x18ADC, name: "TANGUT COMPONENT-733", aliases: &[] },
    ];
    assert(v@ =~= codepoint_table_661());
    v
}

pub open spec fn codepoint_table_662() -> Seq<Codepoint> {
    seq![
        Codepoint { codepoint: 0x18ADD, name: "TANGUT COMPONENT-734", aliases: &[] },
        Codepoint { codepoint: 0x18ADE, name: "TANGUT COMPONENT-735", aliases: &[] },
        Codepoint { codepoint: 0x18ADF, name: "TANGUT COMPONENT-736", aliases: &[] },
        Codepoint { codepoint: 0x18AE0, name: "TANGUT COMPONENT-737", aliases: &[] },
        Codepoint { codepoint: 0x18AE1, name: "TANGUT COMPONENT-738", aliases: &[] },
        Codepoint { codepoint: 0x18AE2, name: "TANGUT COMPONENT-739", aliases: &[] },
        Codepoint { codepoint: 0x18AE3, name: "TANGUT COMPONENT-740", aliases: &[] },
        Codepoint { codepoint: 0x18AE4, name: "TANGUT COMPONENT-741", aliases: &[] },
        Codepoint { codepoint: 0x18AE5, name: "TANGUT COMPONENT-742", aliases: &[] },
        Codepoint { codepoint: 0x18AE6, name: "TANGUT COMPONENT-743", aliases: &[] },
        Codepoint { codepoint: 0x18AE7, name: "TANGUT COMPONENT-744", aliases: &[] },
        Codepoint { codepoint: 0x18AE8, name: "TANGUT COMPONENT-745", aliases: &[] },
        Codepoint { codepoint: 0x18AE9, name: "TANGUT COMPONENT-746", aliases: &[] },
        Codepoint { codepoint: 0x18AEA, name: "TANGUT COMPONENT-747", aliases: &[] },
        Codepoint { codepoint: 0x18AEB, name: "TANGUT COMPONENT-748", aliases: &[] },
        Codepoint { codepoint: 0x18AEC, name: "TANGUT COMPONENT-749", aliases: &[] },
        Codepoint { codepoint: 0x18AED, name: "TANGUT COMPONENT-750", aliases: &[] },
        Codepoint { codepoint: 0x18AEE, name: "TANGUT COMPONENT-751", aliases: &[] },
        Codepoint { codepoint: 0x18AEF, name: "TANGUT COMPONENT-752", aliases: &[] },
        Codepoint { codepoint: 0x18AF0, name: "TANGUT COMPONENT-753", aliases: &[] },
        Codepoint { codepoint: 0x18AF1, name: "TANGUT COMPONENT-754", aliases: &[] },
        Codepoint { codepoint: 0x18AF2, name: "TANGUT COMPONENT-755", aliases: &[] },
        Codepoint { codepoint: 0x18AF3, name: "TANGUT COMPONENT-756", aliases: &[] },
        Codepoint { codepoint: 0x18AF4, name: "TANGUT COMPONENT-757", aliases: &[] },
        Codepoint { codepoint: 0x18AF5, name: "TANGUT COMPONENT-758", aliases: &[] },
        Codepoint { codepoint: 0x18AF6, name: "TANGUT COMPONENT-759", aliases: &[] },
        Codepoint { codepoint: 0x18AF7, name: "TANGUT COMPONENT-760", aliases: &[] },
        Codepoint { codepoint: 0x18AF8, name: "TANGUT COMPONENT-761", aliases: &[] },
        Codepoint { codepoint: 0x18AF9, name: "TANGUT COMPONENT-762", aliases: &[] },
        Codepoint { codepoint: 0x18AFA, name: "TANGUT COMPONENT-763", aliases: &[] },
        Codepoint { codepoint: 0x18AFB, name: "TANGUT COMPONENT-764", aliases: &[] },
        Codepoint { codepoint: 0x18AFC, name: "TANGUT COMPONENT-765", aliases: &[] },
        Codepoint { codepoint: 0x18AFD, name: "TANGUT COMPONENT-766", aliases: &[] },
        Codepoint { codepoint: 0x18AFE, name: "TANGUT COMPONENT-767", aliases: &[] },
        Codepoint { codepoint: 0x18AFF, name: "TANGUT COMPONENT-768", aliases: &[] },
        Codepoint { codepoint: 0x18B00, name: "KHITAN SMALL SCRIPT CHARACTER-18B00", aliases: &[] },
        Codepoint { codepoint: 0x18B01, name: "KHITAN SMALL SCRIPT CHARACTER-18B01", aliases: &[] },
        Codepoint { codepoint: 0x18B02, name: "KHITAN SMALL SCRIPT CHARACTER-18B02", aliases: &[] },
        Codepoint { codepoint: 0x18B03, name: "KHITAN SMALL SCRIPT CHARACTER-18B03", aliases: &[] },
        Codepoint { codepoint: 0x18B04, name: "KHITAN SMALL SCRIPT CHARACTER-18B04", aliases: &[] },
    ]
}

fn all_codepoints_662() -> (v: Vec<Codepoint>)
    ensures
        v@ == codepoint_table_662(),
{
    let v = vec![
        Codepoint { codepoint: 0x18ADD, name: "TANGUT COMPONENT-734", aliases: &[] },
        Codepoint { codepoint: 0x18ADE, name: "TANGUT COMPONENT-735", aliases: &[] },
        Codepoint { codepoint: 0x18ADF, name: "TANGUT COMPONENT-736", aliases: &[] },
        Codepoint { codepoint: 0x18AE0, name: "TANGUT COMPONENT-737", aliases: &[] },
        Codepoint { codepoint: 0x18AE1, name: "TANGUT COMPONENT-738", aliases: &[] },
        Codepoint { codepoint: 0x18AE2, name: "TANGUT COMPONENT-739", aliases: &[] },
        Codepoint { codepoint: 0x18AE3, name: "TANGUT COMPONENT-740", aliases: &[] },
        Codepoint { codepoint: 0x18AE4, name: "TANGUT COMPONENT-741", aliases: &[] },
        Codepoint { codepoint: 0x18AE5, name: "TANGUT COMPONENT-742", aliases: &[] },
        Codepoint { codepoint: 0x18AE6, name: "TANGUT COMPONENT-743", aliases: &[] },
        Codepoint { codepoint: 0x18AE7, name: "TANGUT COMPONENT-744", aliases: &[] },
        Codepoint { codepoint: 0x18AE8, name: "TANGUT COMPONENT-745", aliases: &[] },
        Codepoint { codepoint: 0x18AE9, name: "TANGUT COMPONENT-746", aliases: &[] },
        Codepoint { codepoint: 0x18AEA, name: "TANGUT COMPONENT-747", aliases: &[] },
        Codepoint { codepoint: 0x18AEB, name: "TANGUT COMPONENT-748", aliases: &[] },
        Codepoint { codepoint: 0x18AEC, name: "TANGUT COMPONENT-749", aliases: &[] },
        Codepoint { codepoint: 0x18AED, name: "TANGUT COMPONENT-750", aliases: &[] },
        Codepoint { codepoint: 0x18AEE, name: "TANGUT COMPONENT-751", aliases: &[] },
        Codepoint { codepoint: 0x18AEF, name: "TANGUT COMPONENT-752", aliases: &[] },
        Codepoint { codepoint: 0x18AF0, name: "TANGUT COMPONENT-753", aliases: &[] },
        Codepoint { codepoint: 0x18AF1, name: "TANGUT COMPONENT-754", aliases: &[] },
        Codepoint { codepoint: 0x18AF2, name: "TANGUT COMPONENT-755", aliases: &[] },
        Codepoint { codepoint: 0x18AF3, name: "TANGUT COMPONENT-756", aliases: &[] },
        Codepoint { codepoint: 0x18AF4, name: "TANGUT COMPONENT-757", aliases: &[] },
        Codepoint { codepoint: 0x18AF5, name: "TANGUT COMPONENT-758", aliases: &[] },
        Codepoint { codepoint: 0x18AF6, name: "TANGUT COMPONENT-759", aliases: &[] },
        Codepoint { codepoint: 0x18AF7, name: "TANGUT COMPONENT-760", aliases: &[] },
        Codepoint { codepoint: 0x18AF8, name: "TANGUT COMPONENT-761", aliases: &[] },
        Codepoint { codepoint: 0x18AF9, name: "TANGUT COMPONENT-762", aliases: &[] },
        Codepoint { codepoint: 0x18AFA, name: "TANGUT COMPONENT-763", aliases: &[] },
        Codepoint { codepoint: 0x18AFB, name: "TANGUT COMPONENT-764", aliases: &[] },
        Codepoint { codepoint: 0x18AFC, name: "TANGUT COMPONENT-765", aliases: &[] },
        Codepoint { codepoint: 0x18AFD, name: "TANGUT COMPONENT-766", aliases: &[] },
        Codepoint { codepoint: 0x18AFE, name: "TANGUT COMPONENT-767", aliases: &[] },
        Codepoint { codepoint: 0x18AFF, name: "TANGUT COMPONENT-768", aliases: &[] },
        Codepoint { codepoint: 0x18B00, name: "KHITAN SMALL SCRIPT CHARACTER-18B00", aliases: &[] },
        Codepoint { codepoint: 0x18B01, name: "KHITAN SMALL SCRIPT CHARACTER-18B01", aliases: &[] },
        Codepoint { codepoint: 0x18B02, name: "KHITAN SMALL SCRIPT CHARACTER-18B02", aliases: &[] },
        Codepoint { codepoint: 0x18B03, name: "KHITAN SMALL SCRIPT CHARACTER-18B03", aliases: &[] },
        Codepoint { codepoint: 0x18B04, name: "KHITAN SMALL SCRIPT CHARACTER-18B04", aliases: &[] },
    ];
    assert(v@ =~= codepoint_table_662());
    v
}

pub open spec fn codepoint_table_663() -> Seq<Codepoint> {
    seq![
        Codepoint { codepoint: 0x18B05, name: "KHITAN SMALL SCRIPT CHARACTER-18B05", aliases: &[] },
        Codepoint { codepoint: 0x18B06, name: "KHITAN SMALL SCRIPT CHARACTER-18B06", aliases: &[] },
        Codepoint { codepoint: 0x18B07, name: "KHITAN SMALL SCRIPT CHARACTER-18B07", aliases: &[] },
        Codepoint { codepoint: 0x18B08, name: "KHITAN SMALL SCRIPT CHARACTER-18B08", aliases: &[] },
        Codepoint { codepoint: 0x18B09, name: "KHITAN SMALL SCRIPT CHARACTER-18B09", aliases: &[] },
        Codepoint { codepoint: 0x18B0A, name: "KHITAN SMALL SCRIPT CHARACTER-18B0A", aliases: &[] },
        Codepoint { codepoint: 0x18B0B, name: "KHITAN SMALL SCRIPT CHARACTER-18B0B", aliases: &[] },
        Codepoint { codepoint: 0x18B0C, name: "KHITAN SMALL SCRIPT CHARACTER-18B0C", aliases: &[] },
        Codepoint { codepoint: 0x18B0D, name: "KHITAN SMALL SCRIPT CHARACTER-18B0D", aliases: &[] },
        Codepoint { codepoint: 0x18B0E, name: "KHITAN SMALL SCRIPT CHARACTER-18B0E", aliases: &[] },
        Codepoint { codepoint: 0x18B0F, name: "KHITAN SMALL SCRIPT CHARACTER-18B0F", aliases: &[] },
        Codepoint { codepoint: 0x18B10, name: "KHITAN SMALL SCRIPT CHARACTER-18B10", aliases: &[] },
        Codepoint { codepoint: 0x18B11, name: "KHITAN SMALL SCRIPT CHARACTER-18B11", aliases: &[] },
        Codepoint { codepoint: 0x18B12, name: "KHITAN SMALL SCRIPT CHARACTER-18B12", aliases: &[] },
        Codepoint { codepoint: 0x18B13, name: "KHITAN SMALL SCRIPT CHARACTER-18B13", aliases: &[] },
        Codepoint { codepoint: 0x18B14, name: "KHITAN SMALL SCRIPT CHARACTER-18B14", aliases: &[] },
        Codepoint { codepoint: 0x18B15, name: "KHITAN SMALL SCRIPT CHARACTER-18B15", aliases: &[] },
        Codepoint { codepoint: 0x18B16, name: "KHITAN SMALL SCRIPT CHARACTER-18B16", aliases: &[] },
        Codepoint { codepoint: 0x18B17, name: "KHITAN SMALL SCRIPT CHARACTER-18B17", aliases: &[] },
        Codepoint { codepoint: 0x18B18, name: "KHITAN SMALL SCRIPT CHARACTER-18B18", aliases: &[] },
        Codepoint { codepoint: 0x18B19, name: "KHITAN SMALL SCRIPT CHARACTER-18B19", aliases: &[] },
        Codepoint { codepoint: 0x18B1A, name: "KHITAN SMALL SCRIPT CHARACTER-18B1A", aliases: &[] },
        Codepoint { codepoint: 0x18B1B, name: "KHITAN SMALL SCRIPT CHARACTER-18B1B", aliases: &[] },
        Codepoint { codepoint: 0x18B1C, name: "KHITAN SMALL SCRIPT CHARACTER-18B1C", aliases: &[] },
        Codepoint { codepoint: 0x18B1D, name: "KHITAN SMALL SCRIPT CHARACTER-18B1D", aliases: &[] },
        Codepoint { codepoint: 0x18B1E, name: "KHITAN SMALL SCRIPT CHARACTER-18B1E", aliases: &[] },
        Codepoint { codepoint: 0x18B1F, name: "KHITAN SMALL SCRIPT CHARACTER-18B1F", aliases: &[] },
        Codepoint { codepoint: 0x18B20, name: "KHITAN SMALL SCRIPT CHARACTER-18B20", aliases: &[] },
        Codepoint { codepoint: 0x18B21, name: "KHITAN SMALL SCRIPT CHARACTER-18B21", aliases: &[] },
        Codepoint { codepoint: 0x18B22, name: "KHITAN SMALL SCRIPT CHARACTER-18B22", aliases: &[] },
        Codepoint { codepoint: 0x18B23, name: "KHITAN SMALL SCRIPT CHARACTER-18B23", aliases: &[] },
        Codepoint { codepoint: 0x18B24, name: "KHITAN SMALL SCRIPT CHARACTER-18B24", aliases: &[] },
        Codepoint { codepoint: 0x18B25, name: "KHITAN SMALL SCRIPT CHARACTER-18B25", aliases: &[] },
        Codepoint { codepoint: 0x18B26, name: "KHITAN SMALL SCRIPT CHARACTER-18B26", aliases: &[] },
        Codepoint { codepoint: 0x18B27, name: "KHITAN SMALL SCRIPT CHARACTER-18B27", aliases: &[] },
        Codepoint { codepoint: 0x18B28, name: "KHITAN SMALL SCRIPT CHARACTER-18B28", aliases: &[] },
        Codepoint { codepoint: 0x18B29, name: "KHITAN SMALL SCRIPT CHARACTER-18B29", aliases: &[] },
        Codepoint { codepoint: 0x18B2A, name: "KHITAN SMALL SCRIPT CHARACTER-18B2A", aliases: &[] },
        Codepoint { codepoint: 0x18B2B, name: "KHITAN SMALL SCRIPT CHARACTER-18B2B", aliases: &[] },
        Codepoint { codepoint: 0x18B2C, name: "KHITAN SMALL SCRIPT CHARACTER-18B2C", aliases: &[] },
    ]
}

fn all_codepoints_663() -> (v: Vec<Codepoint>)
    ensures
        v@ == codepoint_table_663(),
{
    let v = vec![
        Codepoint { codepoint: 0x18B05, name: "KHITAN SMALL SCRIPT CHARACTER-18B05", aliases: &[] },
        Codepoint { codepoint: 0x18B06, name: "KHITAN SMALL SCRIPT CHARACTER-18B06", aliases: &[] },
        Codepoint { codepoint: 0x18B07, name: "KHITAN SMALL SCRIPT CHARACTER-18B07", aliases: &[] },
        Codepoint { codepoint: 0x18B08, name: "KHITAN SMALL SCRIPT CHARACTER-18B08", aliases: &[] },
        Codepoint { codepoint: 0x18B09, name: "KHITAN SMALL SCRIPT CHARACTER-18B09", aliases: &[] },
        Codepoint { codepoint: 0x18B0A, name: "KHITAN SMALL SCRIPT CHARACTER-18B0A", aliases: &[] },
        Codepoint { codepoint: 0x18B0B, name: "KHITAN SMALL SCRIPT CHARACTER-18B0B", aliases: &[] },
        Codepoint { codepoint: 0x18B0C, name: "KHITAN SMALL SCRIPT CHARACTER-18B0C", aliases: &[] },
        Codepoint { codepoint: 0x18B0D, name: "KHITAN SMALL SCRIPT CHARACTER-18B0D", aliases: &[] },
        Codepoint { codepoint: 0x18B0E, name: "KHITAN SMALL SCRIPT CHARACTER-18B0E", aliases: &[] },
        Codepoint { codepoint: 0x18B0F, name: "KHITAN SMALL SCRIPT CHARACTER-18B0F", aliases: &[] },
        Codepoint { codepoint: 0x18B10, name: "KHITAN SMALL SCRIPT CHARACTER-18B10", aliases: &[] },
        Codepoint { codepoint: 0x18B11, name: "KHITAN SMALL SCRIPT CHARACTER-18B11", aliases: &[] },
        Codepoint { codepoint: 0x18B12, name: "KHITAN SMALL SCRIPT CHARACTER-18B12", aliases: &[] },
        Codepoint { codepoint: 0x18B13, name: "KHITAN SMALL SCRIPT CHARACTER-18B13", aliases: &[] },
        Codepoint { codepoint: 0x18B14, name: "KHITAN SMALL SCRIPT CHARACTER-18B14", aliases: &[] },
        Codepoint { codepoint: 0x18B15, name: "KHITAN SMALL SCRIPT CHARACTER-18B15", aliases: &[] },
        Codepoint { codepoint: 0x18B16, name: "KHITAN SMALL SCRIPT CHARACTER-18B16", aliases: &[] },
        Codepoint { codepoint: 0x18B17, name: "KHITAN SMALL SCRIPT CHARACTER-18B17", aliases: &[] },
        Codepoint { codepoint: 0x18B18, name: "KHITAN SMALL SCRIPT CHARACTER-18B18", aliases: &[] },
        Codepoint { codepoint: 0x18B19, name: "KHITAN SMALL SCRIPT CHARACTER-18B19", aliases: &[] },
        Codepoint { codepoint: 0x18B1A, name: "KHITAN SMALL SCRIPT CHARACTER-18B1A", aliases: &[] },
        Codepoint { codepoint: 0x18B1B, name: "KHITAN SMALL SCRIPT CHARACTER-18B1B", aliases: &[] },
        Codepoint { codepoint: 0x18B1C, name: "KHITAN SMALL SCRIPT CHARACTER-18B1C", aliases: &[] },
        Codepoint { codepoint: 0x18B1D, name: "KHITAN SMALL SCRIPT CHARACTER-18B1D", aliases: &[] },
        Codepoint { codepoint: 0x18B1E, name: "KHITAN SMALL SCRIPT CHARACTER-18B1E", aliases: &[] },
        Codepoint { codepoint: 0x18B1F, name: "KHITAN SMALL SCRIPT CHARACTER-18B1F", aliases: &[] },
        Codepoint { codepoint: 0x18B20, name: "KHITAN SMALL SCRIPT CHARACTER-18B20", aliases: &[] },
        Codepoint { codepoint: 0x18B21, name: "KHITAN SMALL SCRIPT CHARACTER-18B21", aliases: &[] },
        Codepoint { codepoint: 0x18B22, name: "KHITAN SMALL SCRIPT CHARACTER-18B22", aliases: &[] },
        Codepoint { codepoint: 0x18B23, name: "KHITAN SMALL SCRIPT CHARACTER-18B23", aliases: &[] },
        Codepoint { codepoint: 0x18B24, name: "KHITAN SMALL SCRIPT CHARACTER-18B24", aliases: &[] },
        Codepoint { codepoint: 0x18B25, name: "KHITAN SMALL SCRIPT CHARACTER-18B25", aliases: &[] },
        Codepoint { codepoint: 0x18B26, name: "KHITAN SMALL SCRIPT CHARACTER-18B26", aliases: &[] },
        Codepoint { codepoint: 0x18B27, name: "KHITAN SMALL SCRIPT CHARACTER-18B27", aliases: &[] },
        Codepoint { codepoint: 0x18B28, name: "KHITAN SMALL SCRIPT CHARACTER-18B28", aliases: &[] },
        Codepoint { codepoint: 0x18B29, name: "KHITAN SMALL SCRIPT CHARACTER-18B29", aliases: &[] },
        Codepoint { codepoint: 0x18B2A, name: "KHITAN SMALL SCRIPT CHARACTER-18B2A", aliases: &[] },
        Codepoint { codepoint: 0x18B2B, name: "KHITAN SMALL SCRIPT CHARACTER-18B2B", aliases: &[] },
        Codepoint { codepoint: 0x18B2C, name: "KHITAN SMALL SCRIPT CHARACTER-18B2C", aliases: &[] },
    ];
    assert(v@ =~= codepoint_table_663());
    v
}

pub open spec fn codepoint_table_664() -> Seq<Codepoint> {
    seq![
        Codepoint { codepoint: 0x18B2D, name: "KHITAN SMALL SCRIPT CHARACTER-18B2D", aliases: &[] },
        Codepoint { codepoint: 0x18B2E, name: "KHITAN SMALL SCRIPT CHARACTER-18B2E", aliases: &[] },
        Codepoint { codepoint: 0x18B2F, name: "KHITAN SMALL SCRIPT CHARACTER-18B2F", aliases: &[] },
        Codepoint { codepoint: 0x18B30, name: "KHITAN SMALL SCRIPT CHARACTER-18B30", aliases: &[] },
        Codepoint { codepoint: 0x18B31, name: "KHITAN SMALL SCRIPT CHARACTER-18B31", aliases: &[] },
        Codepoint { codepoint: 0x18B32, name: "KHITAN SMALL SCRIPT CHARACTER-18B32", aliases: &[] },
        Codepoint { codepoint: 0x18B33, name: "KHITAN SMALL SCRIPT CHARACTER-18B33", aliases: &[] },
        Codepoint { codepoint: 0x18B34, name: "KHITAN SMALL SCRIPT CHARACTER-18B34", aliases: &[] },
        Codepoint { codepoint: 0x18B35, name: "KHITAN SMALL SCRIPT CHARACTER-18B35", aliases: &[] },
        Codepoint { codepoint: 0x18B36, name: "KHITAN SMALL SCRIPT CHARACTER-18B36", aliases: &[] },
        Codepoint { codepoint: 0x18B37, name: "KHITAN SMALL SCRIPT CHARACTER-18B37", aliases: &[] },
        Codepoint { codepoint: 0x18B38, name: "KHITAN SMALL SCRIPT CHARACTER-18B38", aliases: &[] },
        Codepoint { codepoint: 0x18B39, name: "KHITAN SMALL SCRIPT CHARACTER-18B39", aliases: &[] },
        Codepoint { codepoint: 0x18B3A, name: "KHITAN SMALL SCRIPT CHARACTER-18B3A", aliases: &[] },
        Codepoint { codepoint: 0x18B3B, name: "KHITAN SMALL SCRIPT CHARACTER-18B3B", aliases: &[] },
        Codepoint { codepoint: 0x18B3C, name: "KHITAN SMALL SCRIPT CHARACTER-18B3C", aliases: &[] },
        Codepoint { codepoint: 0x18B3D, name: "KHITAN SMALL SCRIPT CHARACTER-18B3D", aliases: &[] },
        Codepoint { codepoint: 0x18B3E, name: "KHITAN SMALL SCRIPT CHARACTER-18B3E", aliases: &[] },
        Codepoint { codepoint: 0x18B3F, name: "KHITAN SMALL SCRIPT CHARACTER-18B3F", aliases: &[] },
        Codepoint { codepoint: 0x18B40, name: "KHITAN SMALL SCRIPT CHARACTER-18B40", aliases: &[] },
        Codepoint { codepoint: 0x18B41, name: "KHITAN SMALL SCRIPT CHARACTER-18B41", aliases: &[] },
        Codepoint { codepoint: 0x18B42, name: "KHITAN SMALL SCRIPT CHARACTER-18B42", aliases: &[] },
        Codepoint { codepoint: 0x18B43, name: "KHITAN SMALL SCRIPT CHARACTER-18B43", aliases: &[] },
        Codepoint { codepoint: 0x18B44, name: "KHITAN SMALL SCRIPT CHARACTER-18B44", aliases: &[] },
        Codepoint { codepoint: 0x18B45, name: "KHITAN SMALL SCRIPT CHARACTER-18B45", aliases: &[] },
        Codepoint { codepoint: 0x18B46, name: "KHITAN SMALL SCRIPT CHARACTER-18B46", aliases: &[] },
        Codepoint { codepoint: 0x18B47, name: "KHITAN SMALL SCRIPT CHARACTER-18B47", aliases: &[] },
        Codepoint { codepoint: 0x18B48, name: "KHITAN SMALL SCRIPT CHARACTER-18B48", aliases: &[] },
        Codepoint { codepoint: 0x18B49, name: "KHITAN SMALL SCRIPT CHARACTER-18B49", aliases: &[] },
        Codepoint { codepoint: 0x18B4A, name: "KHITAN SMALL SCRIPT CHARACTER-18B4A", aliases: &[] },
        Codepoint { codepoint: 0x18B4B, name: "KHITAN SMALL SCRIPT CHARACTER-18B4B", aliases: &[] },
        Codepoint { codepoint: 0x18B4C, name: "KHITAN SMALL SCRIPT CHARACTER-18B4C", aliases: &[] },
        Codepoint { codepoint: 0x18B4D, name: "KHITAN SMALL SCRIPT CHARACTER-18B4D", aliases: &[] },
        Codepoint { codepoint: 0x18B4E, name: "KHITAN SMALL SCRIPT CHARACTER-18B4E", aliases: &[] },
        Codepoint { codepoint: 0x18B4F, name: "KHITAN SMALL SCRIPT CHARACTER-18B4F", aliases: &[] },
        Codepoint { codepoint: 0x18B50, name: "KHITAN SMALL SCRIPT CHARACTER-18B50", aliases: &[] },
        Codepoint { codepoint: 0x18B51, name: "KHITAN SMALL SCRIPT CHARACTER-18B51", aliases: &[] },
        Codepoint { codepoint: 0x18B52, name: "KHITAN SMALL SCRIPT CHARACTER-18B52", aliases: &[] },
        Codepoint { codepoint: 0x18B53, name: "KHITAN SMALL SCRIPT CHARACTER-18B53", aliases: &[] },
        Codepoint { codepoint: 0x18B54, name: "KHITAN SMALL SCRIPT CHARACTER-18B54", aliases: &[] },
    ]
}

fn all_codepoints_664() -> (v: Vec<Codepoint>)
    ensures
        v@ == codepoint_table_664(),
{
    let v = vec![
        Codepoint { codepoint: 0x18B2D, name: "KHITAN SMALL SCRIPT CHARACTER-18B2D", aliases: &[] },
        Codepoint { codepoint: 0x18B2E, name: "KHITAN SMALL SCRIPT CHARACTER-18B2E", aliases: &[] },
        Codepoint { codepoint: 0x18B2F, name: "KHITAN SMALL SCRIPT CHARACTER-18B2F", aliases: &[] },
        Codepoint { codepoint: 0x18B30, name: "KHITAN SMALL SCRIPT CHARACTER-18B30", aliases: &[] },
        Codepoint { codepoint: 0x18B31, name: "KHITAN SMALL SCRIPT CHARACTER-18B31", aliases: &[] },
        Codepoint { codepoint: 0x18B32, name: "KHITAN SMALL SCRIPT CHARACTER-18B32", aliases: &[] },
        Codepoint { codepoint: 0x18B33, name: "KHITAN SMALL SCRIPT CHARACTER-18B33", aliases: &[] },
        Codepoint { codepoint: 0x18B34, name: "KHITAN SMALL SCRIPT CHARACTER-18B34", aliases: &[] },
        Codepoint { codepoint: 0x18B35, name: "KHITAN SMALL SCRIPT CHARACTER-18B35", aliases: &[] },
        Codepoint { codepoint: 0x18B36, name: "KHITAN SMALL SCRIPT CHARACTER-18B36", aliases: &[] },
        Codepoint { codepoint: 0x18B37, name: "KHITAN SMALL SCRIPT CHARACTER-18B37", aliases: &[] },
        Codepoint { codepoint: 0x18B38, name: "KHITAN SMALL SCRIPT CHARACTER-18B38", aliases: &[] },
        Codepoint { codepoint: 0x18B39, name: "KHITAN SMALL SCRIPT CHARACTER-18B39", aliases: &[] },
        Codepoint { codepoint: 0x18B3A, name: "KHITAN SMALL SCRIPT CHARACTER-18B3A", aliases: &[] },
        Codepoint { codepoint: 0x18B3B, name: "KHITAN SMALL SCRIPT CHARACTER-18B3B", aliases: &[] },
        Codepoint { codepoint: 0x18B3C, name: "KHITAN SMALL SCRIPT CHARACTER-18B3C", aliases: &[] },
        Codepoint { codepoint: 0x18B3D, name: "KHITAN SMALL SCRIPT CHARACTER-18B3D", aliases: &[] },
        Codepoint { codepoint: 0x18B3E, name: "KHITAN SMALL SCRIPT CHARACTER-18B3E", aliases: &[] },
        Codepoint { codepoint: 0x18B3F, name: "KHITAN SMALL SCRIPT CHARACTER-18B3F", aliases: &[] },
        Codepoint { codepoint: 0x18B40, name: "KHITAN SMALL SCRIPT CHARACTER-18B40", aliases: &[] },
        Codepoint { codepoint: 0x18B41, name: "KHITAN SMALL SCRIPT CHARACTER-18B41", aliases: &[] },
        Codepoint { codepoint: 0x18B42, name: "KHITAN SMALL SCRIPT CHARACTER-18B42", aliases: &[] },
        Codepoint { codepoint: 0x18B43, name: "KHITAN SMALL SCRIPT CHARACTER-18B43", aliases: &[] },
        Codepoint { codepoint: 0x18B44, name: "KHITAN SMALL SCRIPT CHARACTER-18B44", aliases: &[] },
        Codepoint { codepoint: 0x18B45, name: "KHITAN SMALL SCRIPT CHARACTER-18B45", aliases: &[] },
        Codepoint { codepoint: 0x18B46, name: "KHITAN SMALL SCRIPT CHARACTER-18B46", aliases: &[] },
        Codepoint { codepoint: 0x18B47, name: "KHITAN SMALL SCRIPT CHARACTER-18B47", aliases: &[] },
        Codepoint { codepoint: 0x18B48, name: "KHITAN SMALL SCRIPT CHARACTER-18B48", aliases: &[] },
        Codepoint { codepoint: 0x18B49, name: "KHITAN SMALL SCRIPT CHARACTER-18B49", aliases: &[] },
        Codepoint { codepoint: 0x18B4A, name: "KHITAN SMALL SCRIPT CHARACTER-18B4A", aliases: &[] },
        Codepoint { codepoint: 0x18B4B, name: "KHITAN SMALL SCRIPT CHARACTER-18B4B", aliases: &[] },
        Codepoint { codepoint: 0x18B4C, name: "KHITAN SMALL SCRIPT CHARACTER-18B4C", aliases: &[] },
        Codepoint { codepoint: 0x18B4D, name: "KHITAN SMALL SCRIPT CHARACTER-18B4D", aliases: &[] },
        Codepoint { codepoint: 0x18B4E, name: "KHITAN SMALL SCRIPT CHARACTER-18B4E", aliases: &[] },
        Codepoint { codepoint: 0x18B4F, name: "KHITAN SMALL SCRIPT CHARACTER-18B4F", aliases: &[] },
        Codepoint { codepoint: 0x18B50, name: "KHITAN SMALL SCRIPT CHARACTER-18B50", aliases: &[] },
        Codepoint { codepoint: 0x18B51, name: "KHITAN SMALL SCRIPT CHARACTER-18B51", aliases: &[] },
        Codepoint { codepoint: 0x18B52, name: "KHITAN SMALL SCRIPT CHARACTER-18B52", aliases: &[] },
        Codepoint { codepoint: 0x18B53, name: "KHITAN SMALL SCRIPT CHARACTER-18B53", aliases: &[] },
        Codepoint { codepoint: 0x18B54, name: "KHITAN SMALL SCRIPT CHARACTER-18B54", aliases: &[] },
    ];
    assert(v@ =~= codepoint_table_664());
    v
}

pub open spec fn codepoint_table_665() -> Seq<Codepoint> {
    seq![
        Codepoint { codepoint: 0x18B55, name: "KHITAN SMALL SCRIPT CHARACTER-18B55", aliases: &[] },
        Codepoint { codepoint: 0x18B56, name: "KHITAN SMALL SCRIPT CHARACTER-18B56", aliases: &[] },
        Codepoint { codepoint: 0x18B57, name: "KHITAN SMALL SCRIPT CHARACTER-18B57", aliases: &[] },
        Codepoint { codepoint: 0x18B58, name: "KHITAN SMALL SCRIPT CHARACTER-18B58", aliases: &[] },
        Codepoint { codepoint: 0x18B59, name: "KHITAN SMALL SCRIPT CHARACTER-18B59", aliases: &[] },
        Codepoint { codepoint: 0x18B5A, name: "KHITAN SMALL SCRIPT CHARACTER-18B5A", aliases: &[] },
        Codepoint { codepoint: 0x18B5B, name: "KHITAN SMALL SCRIPT CHARACTER-18B5B", aliases: &[] },
        Codepoint { codepoint: 0x18B5C, name: "KHITAN SMALL SCRIPT CHARACTER-18B5C", aliases: &[] },
        Codepoint { codepoint: 0x18B5D, name: "KHITAN SMALL SCRIPT CHARACTER-18B5D", aliases: &[] },
        Codepoint { codepoint: 0x18B5E, name: "KHITAN SMALL SCRIPT CHARACTER-18B5E", aliases: &[] },
        Codepoint { codepoint: 0x18B5F, name: "KHITAN SMALL SCRIPT CHARACTER-18B5F", aliases: &[] },
        Codepoint { codepoint: 0x18B60, name: "KHITAN SMALL SCRIPT CHARACTER-18B60", aliases: &[] },
        Codepoint { codepoint: 0x18B61, name: "KHITAN SMALL SCRIPT CHARACTER-18B61", aliases: &[] },
        Codepoint { codepoint: 0x18B62, name: "KHITAN SMALL SCRIPT CHARACTER-18B62", aliases: &[] },
        Codepoint { codepoint: 0x18B63, name: "KHITAN SMALL SCRIPT CHARACTER-18B63", aliases: &[] },
        Codepoint { codepoint: 0x18B64, name: "KHITAN SMALL SCRIPT CHARACTER-18B64", aliases: &[] },
        Codepoint { codepoint: 0x18B65, name: "KHITAN SMALL SCRIPT CHARACTER-18B65", aliases: &[] },
        Codepoint { codepoint: 0x18B66, name: "KHITAN SMALL SCRIPT CHARACTER-18B66", aliases: &[] },
        Codepoint { codepoint: 0x18B67, name: "KHITAN SMALL SCRIPT CHARACTER-18B67", aliases: &[] },
        Codepoint { codepoint: 0x18B68, name: "KHITAN SMALL SCRIPT CHARACTER-18B68", aliases: &[] },
        Codepoint { codepoint: 0x18B69, name: "KHITAN SMALL SCRIPT CHARACTER-18B69", aliases: &[] },
        Codepoint { codepoint: 0x18B6A, name: "KHITAN SMALL SCRIPT CHARACTER-18B6A", aliases: &[] },
        Codepoint { codepoint: 0x18B6B, name: "KHITAN SMALL SCRIPT CHARACTER-18B6B", aliases: &[] },
        Codepoint { codepoint: 0x18B6C, name: "KHITAN SMALL SCRIPT CHARACTER-18B6C", aliases: &[] },
        Codepoint { codepoint: 0x18B6D, name: "KHITAN SMALL SCRIPT CHARACTER-18B6D", aliases: &[] },
        Codepoint { codepoint: 0x18B6E, name: "KHITAN SMALL SCRIPT CHARACTER-18B6E", aliases: &[] },
        Codepoint { codepoint: 0x18B6F, name: "KHITAN SMALL SCRIPT CHARACTER-18B6F", aliases: &[] },
        Codepoint { codepoint: 0x18B70, name: "KHITAN SMALL SCRIPT CHARACTER-18B70", aliases: &[] },
        Codepoint { codepoint: 0x18B71, name: "KHITAN SMALL SCRIPT CHARACTER-18B71", aliases: &[] },
        Codepoint { codepoint: 0x18B72, name: "KHITAN SMALL SCRIPT CHARACTER-18B72", aliases: &[] },
        Codepoint { codepoint: 0x18B73, name: "KHITAN SMALL SCRIPT CHARACTER-18B73", aliases: &[] },
        Codepoint { codepoint: 0x18B74, name: "KHITAN SMALL SCRIPT CHARACTER-18B74", aliases: &[] },
        Codepoint { codepoint: 0x18B75, name: "KHITAN SMALL SCRIPT CHARACTER-18B75", aliases: &[] },
        Codepoint { codepoint: 0x18B76, name: "KHITAN SMALL SCRIPT CHARACTER-18B76", aliases: &[] },
        Codepoint { codepoint: 0x18B77, name: "KHITAN SMALL SCRIPT CHARACTER-18B77", aliases: &[] },
        Codepoint { codepoint: 0x18B78, name: "KHITAN SMALL SCRIPT CHARACTER-18B78", aliases: &[] },
        Codepoint { codepoint: 0x18B79, name: "KHITAN SMALL SCRIPT CHARACTER-18B79", aliases: &[] },
        Codepoint { codepoint: 0x18B7A, name: "KHITAN SMALL SCRIPT CHARACTER-18B7A", aliases: &[] },
        Codepoint { codepoint: 0x18B7B, name: "KHITAN SMALL SCRIPT CHARACTER-18B7B", aliases: &[] },
        Codepoint { codepoint: 0x18B7C, name: "KHITAN SMALL SCRIPT CHARACTER-18B7C", aliases: &[] },
    ]
}

fn all_codepoints_665() -> (v: Vec<Codepoint>)
    ensures
        v@ == codepoint_table_665(),
{
    let v = vec![
        Codepoint { codepoint: 0x18B55, name: "KHITAN SMALL SCRIPT CHARACTER-18B55", aliases: &[] },
        Codepoint { codepoint: 0x18B56, name: "KHITAN SMALL SCRIPT CHARACTER-18B56", aliases: &[] },
        Codepoint { codepoint: 0x18B57, name: "KHITAN SMALL SCRIPT CHARACTER-18B57", aliases: &[] },
        Codepoint { codepoint: 0x18B58, name: "KHITAN SMALL SCRIPT CHARACTER-18B58", aliases: &[] },
        Codepoint { codepoint: 0x18B59, name: "KHITAN SMALL SCRIPT CHARACTER-18B59", aliases: &[] },
        Codepoint { codepoint: 0x18B5A, name: "KHITAN SMALL SCRIPT CHARACTER-18B5A", aliases: &[] },
        Codepoint { codepoint: 0x18B5B, name: "KHITAN SMALL SCRIPT CHARACTER-18B5B", aliases: &[] },
        Codepoint { codepoint: 0x18B5C, name: "KHITAN SMALL SCRIPT CHARACTER-18B5C", aliases: &[] },
        Codepoint { codepoint: 0x18B5D, name: "KHITAN SMALL SCRIPT CHARACTER-18B5D", aliases: &[] },
        Codepoint { codepoint: 0x18B5E, name: "KHITAN SMALL SCRIPT CHARACTER-18B5E", aliases: &[] },
        Codepoint { codepoint: 0x18B5F, name: "KHITAN SMALL SCRIPT CHARACTER-18B5F", aliases: &[] },
        Codepoint { codepoint: 0x18B60, name: "KHITAN SMALL SCRIPT CHARACTER-18B60", aliases: &[] },
        Codepoint { codepoint: 0x18B61, name: "KHITAN SMALL SCRIPT CHARACTER-18B61", aliases: &[] },
        Codepoint { codepoint: 0x18B62, name: "KHITAN SMALL SCRIPT CHARACTER-18B62", aliases: &[] },
        Codepoint { codepoint: 0x18B63, name: "KHITAN SMALL SCRIPT CHARACTER-18B63", aliases: &[] },
        Codepoint { codepoint: 0x18B64, name: "KHITAN SMALL SCRIPT CHARACTER-18B64", aliases: &[] },
        Codepoint { codepoint: 0x18B65, name: "KHITAN SMALL SCRIPT CHARACTER-18B65", aliases: &[] },
        Codepoint { codepoint: 0x18B66, name: "KHITAN SMALL SCRIPT CHARACTER-18B66", aliases: &[] },
        Codepoint { codepoint: 0x18B67, name: "KHITAN SMALL SCRIPT CHARACTER-18B67", aliases: &[] },
        Codepoint { codepoint: 0x18B68, name: "KHITAN SMALL SCRIPT CHARACTER-18B68", aliases: &[] },
        Codepoint { codepoint: 0x18B69, name: "KHITAN SMALL SCRIPT CHARACTER-18B69", aliases: &[] },
        Codepoint { codepoint: 0x18B6A, name: "KHITAN SMALL SCRIPT CHARACTER-18B6A", aliases: &[] },
        Codepoint { codepoint: 0x18B6B, name: "KHITAN SMALL SCRIPT CHARACTER-18B6B", aliases: &[] },
        Codepoint { codepoint: 0x18B6C, name: "KHITAN SMALL SCRIPT CHARACTER-18B6C", aliases: &[] },
        Codepoint { codepoint: 0x18B6D, name: "KHITAN SMALL SCRIPT CHARACTER-18B6D", aliases: &[] },
        Codepoint { codepoint: 0x18B6E, name: "KHITAN SMALL SCRIPT CHARACTER-18B6E", aliases: &[] },
        Codepoint { codepoint: 0x18B6F, name: "KHITAN SMALL SCRIPT CHARACTER-18B6F", aliases: &[] },
        Codepoint { codepoint: 0x18B70, name: "KHITAN SMALL SCRIPT CHARACTER-18B70", aliases: &[] },
        Codepoint { codepoint: 0x18B71, name: "KHITAN SMALL SCRIPT CHARACTER-18B71", aliases: &[] },
        Codepoint { codepoint: 0x18B72, name: "KHITAN SMALL SCRIPT CHARACTER-18B72", aliases: &[] },
        Codepoint { codepoint: 0x18B73, name: "KHITAN SMALL SCRIPT CHARACTER-18B73", aliases: &[] },
        Codepoint { codepoint: 0x18B74, name: "KHITAN SMALL SCRIPT CHARACTER-18B74", aliases: &[] },
        Codepoint { codepoint: 0x18B75, name: "KHITAN SMALL SCRIPT CHARACTER-18B75", aliases: &[] },
        Codepoint { codepoint: 0x18B76, name: "KHITAN SMALL SCRIPT CHARACTER-18B76", aliases: &[] },
        Codepoint { codepoint: 0x18B77, name: "KHITAN SMALL SCRIPT CHARACTER-18B77", aliases: &[] },
        Codepoint { codepoint: 0x18B78, name: "KHITAN SMALL SCRIPT CHARACTER-18B78", aliases: &[] },
        Codepoint { codepoint: 0x18B79, name: "KHITAN SMALL SCRIPT CHARACTER-18B79", aliases: &[] },
        Codepoint { codepoint: 0x18B7A, name: "KHITAN SMALL SCRIPT CHARACTER-18B7A", aliases: &[] },
        Codepoint { codepoint: 0x18B7B, name: "KHITAN SMALL SCRIPT CHARACTER-18B7B", aliases: &[] },
        Codepoint { codepoint: 0x18B7C, name: "KHITAN SMALL SCRIPT CHARACTER-18B7C", aliases: &[] },
    ];
    assert(v@ =~= codepoint_table_665());
    v
}

pub open spec fn codepoint_table_666() -> Seq<Codepoint> {
    seq![
        Codepoint { codepoint: 0x18B7D, name: "KHITAN SMALL SCRIPT CHARACTER-18B7D", aliases: &[] },
        Codepoint { codepoint: 0x18B7E, name: "KHITAN SMALL SCRIPT CHARACTER-18B7E", aliases: &[] },
        Codepoint { codepoint: 0x18B7F, name: "KHITAN SMALL SCRIPT CHARACTER-18B7F", aliases: &[] },
        Codepoint { codepoint: 0x18B80, name: "KHITAN SMALL SCRIPT CHARACTER-18B80", aliases: &[] },
        Codepoint { codepoint: 0x18B81, name: "KHITAN SMALL SCRIPT CHARACTER-18B81", aliases: &[] },
        Codepoint { codepoint: 0x18B82, name: "KHITAN SMALL SCRIPT CHARACTER-18B82", aliases: &[] },
        Codepoint { codepoint: 0x18B83, name: "KHITAN SMALL SCRIPT CHARACTER-18B83", aliases: &[] },
        Codepoint { codepoint: 0x18B84, name: "KHITAN SMALL SCRIPT CHARACTER-18B84", aliases: &[] },
        Codepoint { codepoint: 0x18B85, name: "KHITAN SMALL SCRIPT CHARACTER-18B85", aliases: &[] },
        Codepoint { codepoint: 0x18B86, name: "KHITAN SMALL SCRIPT CHARACTER-18B86", aliases: &[] },
        Codepoint { codepoint: 0x18B87, name: "KHITAN SMALL SCRIPT CHARACTER-18B87", aliases: &[] },
        Codepoint { codepoint: 0x18B88, name: "KHITAN SMALL SCRIPT CHARACTER-18B88", aliases: &[] },
        Codepoint { codepoint: 0x18B89, name: "KHITAN SMALL SCRIPT CHARACTER-18B89", aliases: &[] },
        Codepoint { codepoint: 0x18B8A, name: "KHITAN SMALL SCRIPT CHARACTER-18B8A", aliases: &[] },
        Codepoint { codepoint: 0x18B8B, name: "KHITAN SMALL SCRIPT CHARACTER-18B8B", aliases: &[] },
        Codepoint { codepoint: 0x18B8C, name: "KHITAN SMALL SCRIPT CHARACTER-18B8C", aliases: &[] },
        Codepoint { codepoint: 0x18B8D, name: "KHITAN SMALL SCRIPT CHARACTER-18B8D", aliases: &[] },
        Codepoint { codepoint: 0x18B8E, name: "KHITAN SMALL SCRIPT CHARACTER-18B8E", aliases: &[] },
        Codepoint { codepoint: 0x18B8F, name: "KHITAN SMALL SCRIPT CHARACTER-18B8F", aliases: &[] },
        Codepoint { codepoint: 0x18B90, name: "KHITAN SMALL SCRIPT CHARACTER-18B90", aliases: &[] },
        Codepoint { codepoint: 0x18B91, name: "KHITAN SMALL SCRIPT CHARACTER-18B91", aliases: &[] },
        Codepoint { codepoint: 0x18B92, name: "KHITAN SMALL SCRIPT CHARACTER-18B92", aliases: &[] },
        Codepoint { codepoint: 0x18B93, name: "KHITAN SMALL SCRIPT CHARACTER-18B93", aliases: &[] },
        Codepoint { codepoint: 0x18B94, name: "KHITAN SMALL SCRIPT CHARACTER-18B94", aliases: &[] },
        Codepoint { codepoint: 0x18B95, name: "KHITAN SMALL SCRIPT CHARACTER-18B95", aliases: &[] },
        Codepoint { codepoint: 0x18B96, name: "KHITAN SMALL SCRIPT CHARACTER-18B96", aliases: &[] },
        Codepoint { codepoint: 0x18B97, name: "KHITAN SMALL SCRIPT CHARACTER-18B97", aliases: &[] },
        Codepoint { codepoint: 0x18B98, name: "KHITAN SMALL SCRIPT CHARACTER-18B98", aliases: &[] },
        Codepoint { codepoint: 0x18B99, name: "KHITAN SMALL SCRIPT CHARACTER-18B99", aliases: &[] },
        Codepoint { codepoint: 0x18B9A, name: "KHITAN SMALL SCRIPT CHARACTER-18B9A", aliases: &[] },
        Codepoint { codepoint: 0x18B9B, name: "KHITAN SMALL SCRIPT CHARACTER-18B9B", aliases: &[] },
        Codepoint { codepoint: 0x18B9C, name: "KHITAN SMALL SCRIPT CHARACTER-18B9C", aliases: &[] },
        Codepoint { codepoint: 0x18B9D, name: "KHITAN SMALL SCRIPT CHARACTER-18B9D", aliases: &[] },
        Codepoint { codepoint: 0x18B9E, name: "KHITAN SMALL SCRIPT CHARACTER-18B9E", aliases: &[] },
        Codepoint { codepoint: 0x18B9F, name: "KHITAN SMALL SCRIPT CHARACTER-18B9F", aliases: &[] },
        Codepoint { codepoint: 0x18BA0, name: "KHITAN SMALL SCRIPT CHARACTER-18BA0", aliases: &[] },
        Codepoint { codepoint: 0x18BA1, name: "KHITAN SMALL SCRIPT CHARACTER-18BA1", aliases: &[] },
        Codepoint { codepoint: 0x18BA2, name: "KHITAN SMALL SCRIPT CHARACTER-18BA2", aliases: &[] },
        Codepoint { codepoint: 0x18BA3, name: "KHITAN SMALL SCRIPT CHARACTER-18BA3", aliases: &[] },
        Codepoint { codepoint: 0x18BA4, name: "KHITAN SMALL SCRIPT CHARACTER-18BA4", aliases: &[] },
    ]
}

fn all_codepoints_666() -> (v: Vec<Codepoint>)
    ensures
        v@ == codepoint_table_666(),
{
    let v = vec![
        Codepoint { codepoint: 0x18B7D, name: "KHITAN SMALL SCRIPT CHARACTER-18B7D", aliases: &[] },
        Codepoint { codepoint: 0x18B7E, name: "KHITAN SMALL SCRIPT CHARACTER-18B7E", aliases: &[] },
        Codepoint { codepoint: 0x18B7F, name: "KHITAN SMALL SCRIPT CHARACTER-18B7F", aliases: &[] },
        Codepoint { codepoint: 0x18B80, name: "KHITAN SMALL SCRIPT CHARACTER-18B80", aliases: &[] },
        Codepoint { codepoint: 0x18B81, name: "KHITAN SMALL SCRIPT CHARACTER-18B81", aliases: &[] },
        Codepoint { codepoint: 0x18B82, name: "KHITAN SMALL SCRIPT CHARACTER-18B82", aliases: &[] },
        Codepoint { codepoint: 0x18B83, name: "KHITAN SMALL SCRIPT CHARACTER-18B83", aliases: &[] },
        Codepoint { codepoint: 0x18B84, name: "KHITAN SMALL SCRIPT CHARACTER-18B84", aliases: &[] },
        Codepoint { codepoint: 0x18B85, name: "KHITAN SMALL SCRIPT CHARACTER-18B85", aliases: &[] },
        Codepoint { codepoint: 0x18B86, name: "KHITAN SMALL SCRIPT CHARACTER-18B86", aliases: &[] },
        Codepoint { codepoint: 0x18B87, name: "KHITAN SMALL SCRIPT CHARACTER-18B87", aliases: &[] },
        Codepoint { codepoint: 0x18B88, name: "KHITAN SMALL SCRIPT CHARACTER-18B88", aliases: &[] },
        Codepoint { codepoint: 0x18B89, name: "KHITAN SMALL SCRIPT CHARACTER-18B89", aliases: &[] },
        Codepoint { codepoint: 0x18B8A, name: "KHITAN SMALL SCRIPT CHARACTER-18B8A", aliases: &[] },
        Codepoint { codepoint: 0x18B8B, name: "KHITAN SMALL SCRIPT CHARACTER-18B8B", aliases: &[] },
        Codepoint { codepoint: 0x18B8C, name: "KHITAN SMALL SCRIPT CHARACTER-18B8C", aliases: &[] },
        Codepoint { codepoint: 0x18B8D, name: "KHITAN SMALL SCRIPT CHARACTER-18B8D", aliases: &[] },
        Codepoint { codepoint: 0x18B8E, name: "KHITAN SMALL SCRIPT CHARACTER-18B8E", aliases: &[] },
        Codepoint { codepoint: 0x18B8F, name: "KHITAN SMALL SCRIPT CHARACTER-18B8F", aliases: &[] },
        Codepoint { codepoint: 0x18B90, name: "KHITAN SMALL SCRIPT CHARACTER-18B90", aliases: &[] },
        Codepoint { codepoint: 0x18B91, name: "KHITAN SMALL SCRIPT CHARACTER-18B91", aliases: &[] },
        Codepoint { codepoint: 0x18B92, name: "KHITAN SMALL SCRIPT CHARACTER-18B92", aliases: &[] },
        Codepoint { codepoint: 0x18B93, name: "KHITAN SMALL SCRIPT CHARACTER-18B93", aliases: &[] },
        Codepoint { codepoint: 0x18B94, name: "KHITAN SMALL SCRIPT CHARACTER-18B94", aliases: &[] },
        Codepoint { codepoint: 0x18B95, name: "KHITAN SMALL SCRIPT CHARACTER-18B95", aliases: &[] },
        Codepoint { codepoint: 0x18B96, name: "KHITAN SMALL SCRIPT CHARACTER-18B96", aliases: &[] },
        Codepoint { codepoint: 0x18B97, name: "KHITAN SMALL SCRIPT CHARACTER-18B97", aliases: &[] },
        Codepoint { codepoint: 0x18B98, name: "KHITAN SMALL SCRIPT CHARACTER-18B98", aliases: &[] },
        Codepoint { codepoint: 0x18B99, name: "KHITAN SMALL SCRIPT CHARACTER-18B99", aliases: &[] },
        Codepoint { codepoint: 0x18B9A, name: "KHITAN SMALL SCRIPT CHARACTER-18B9A", aliases: &[] },
        Codepoint { codepoint: 0x18B9B, name: "KHITAN SMALL SCRIPT CHARACTER-18B9B", aliases: &[] },
        Codepoint { codepoint: 0x18B9C, name: "KHITAN SMALL SCRIPT CHARACTER-18B9C", aliases: &[] },
        Codepoint { codepoint: 0x18B9D, name: "KHITAN SMALL SCRIPT CHARACTER-18B9D", aliases: &[] },
        Codepoint { codepoint: 0x18B9E, name: "KHITAN SMALL SCRIPT CHARACTER-18B9E", aliases: &[] },
        Codepoint { codepoint: 0x18B9F, name: "KHITAN SMALL SCRIPT CHARACTER-18B9F", aliases: &[] },
        Codepoint { codepoint: 0x18BA0, name: "KHITAN SMALL SCRIPT CHARACTER-18BA0", aliases: &[] },
        Codepoint { codepoint: 0x18BA1, name: "KHITAN SMALL SCRIPT CHARACTER-18BA1", aliases: &[] },
        Codepoint { codepoint: 0x18BA2, name: "KHITAN SMALL SCRIPT CHARACTER-18BA2", aliases: &[] },
        Codepoint { codepoint: 0x18BA3, name: "KHITAN SMALL SCRIPT CHARACTER-18BA3", aliases: &[] },
        Codepoint { codepoint: 0x18BA4, name: "KHITAN SMALL SCRIPT CHARACTER-18BA4", aliases: &[] },
    ];
    assert(v@ =~= codepoint_table_666());
    v
}

pub open spec fn codepoint_table_667() -> Seq<Codepoint> {
    seq![
        Codepoint { codepoint: 0x18BA5, name: "KHITAN SMALL SCRIPT CHARACTER-18BA5", aliases: &[] },
        Codepoint { codepoint: 0x18BA6, name: "KHITAN SMALL SCRIPT CHARACTER-18BA6", aliases: &[] },
        Codepoint { codepoint: 0x18BA7, name: "KHITAN SMALL SCRIPT CHARACTER-18BA7", aliases: &[] },
        Codepoint { codepoint: 0x18BA8, name: "KHITAN SMALL SCRIPT CHARACTER-18BA8", aliases: &[] },
        Codepoint { codepoint: 0x18BA9, name: "KHITAN SMALL SCRIPT CHARACTER-18BA9", aliases: &[] },
        Codepoint { codepoint: 0x18BAA, name: "KHITAN SMALL SCRIPT CHARACTER-18BAA", aliases: &[] },
        Codepoint { codepoint: 0x18BAB, name: "KHITAN SMALL SCRIPT CHARACTER-18BAB", aliases: &[] },
        Codepoint { codepoint: 0x18BAC, name: "KHITAN SMALL SCRIPT CHARACTER-18BAC", aliases: &[] },
        Codepoint { codepoint: 0x18BAD, name: "KHITAN SMALL SCRIPT CHARACTER-18BAD", aliases: &[] },
        Codepoint { codepoint: 0x18BAE, name: "KHITAN SMALL SCRIPT CHARACTER-18BAE", aliases: &[] },
        Codepoint { codepoint: 0x18BAF, name: "KHITAN SMALL SCRIPT CHARACTER-18BAF", aliases: &[] },
        Codepoint { codepoint: 0x18BB0, name: "KHITAN SMALL SCRIPT CHARACTER-18BB0", aliases: &[] },
        Codepoint { codepoint: 0x18BB1, name: "KHITAN SMALL SCRIPT CHARACTER-18BB1", aliases: &[] },
        Codepoint { codepoint: 0x18BB2, name: "KHITAN SMALL SCRIPT CHARACTER-18BB2", aliases: &[] },
        Codepoint { codepoint: 0x18BB3, name: "KHITAN SMALL SCRIPT CHARACTER-18BB3", aliases: &[] },
        Codepoint { codepoint: 0x18BB4, name: "KHITAN SMALL SCRIPT CHARACTER-18BB4", aliases: &[] },
        Codepoint { codepoint: 0x18BB5, name: "KHITAN SMALL SCRIPT CHARACTER-18BB5", aliases: &[] },
        Codepoint { codepoint: 0x18BB6, name: "KHITAN SMALL SCRIPT CHARACTER-18BB6", aliases: &[] },
        Codepoint { codepoint: 0x18BB7, name: "KHITAN SMALL SCRIPT CHARACTER-18BB7", aliases: &[] },
        Codepoint { codepoint: 0x18BB8, name: "KHITAN SMALL SCRIPT CHARACTER-18BB8", aliases: &[] },
        Codepoint { codepoint: 0x18BB9, name: "KHITAN SMALL SCRIPT CHARACTER-18BB9", aliases: &[] },
        Codepoint { codepoint: 0x18BBA, name: "KHITAN SMALL SCRIPT CHARACTER-18BBA", aliases: &[] },
        Codepoint { codepoint: 0x18BBB, name: "KHITAN SMALL SCRIPT CHARACTER-18BBB", aliases: &[] },
        Codepoint { codepoint: 0x18BBC, name: "KHITAN SMALL SCRIPT CHARACTER-18BBC", aliases: &[] },
        Codepoint { codepoint: 0x18BBD, name: "KHITAN SMALL SCRIPT CHARACTER-18BBD", aliases: &[] },
        Codepoint { codepoint: 0x18BBE, name: "KHITAN SMALL SCRIPT CHARACTER-18BBE", aliases: &[] },
        Codepoint { codepoint: 0x18BBF, name: "KHITAN SMALL SCRIPT CHARACTER-18BBF", aliases: &[] },
        Codepoint { codepoint: 0x18BC0, name: "KHITAN SMALL SCRIPT CHARACTER-18BC0", aliases: &[] },
        Codepoint { codepoint: 0x18BC1, name: "KHITAN SMALL SCRIPT CHARACTER-18BC1", aliases: &[] },
        Codepoint { codepoint: 0x18BC2, name: "KHITAN SMALL SCRIPT CHARACTER-18BC2", aliases: &[] },
        Codepoint { codepoint: 0x18BC3, name: "KHITAN SMALL SCRIPT CHARACTER-18BC3", aliases: &[] },
        Codepoint { codepoint: 0x18BC4, name: "KHITAN SMALL SCRIPT CHARACTER-18BC4", aliases: &[] },
        Codepoint { codepoint: 0x18BC5, name: "KHITAN SMALL SCRIPT CHARACTER-18BC5", aliases: &[] },
        Codepoint { codepoint: 0x18BC6, name: "KHITAN SMALL SCRIPT CHARACTER-18BC6", aliases: &[] },
        Codepoint { codepoint: 0x18BC7, name: "KHITAN SMALL SCRIPT CHARACTER-18BC7", aliases: &[] },
        Codepoint { codepoint: 0x18BC8, name: "KHITAN SMALL SCRIPT CHARACTER-18BC8", aliases: &[] },
        Codepoint { codepoint: 0x18BC9, name: "KHITAN SMALL SCRIPT CHARACTER-18BC9", aliases: &[] },
        Codepoint { codepoint: 0x18BCA, name: "KHITAN SMALL SCRIPT CHARACTER-18BCA", aliases: &[] },
        Codepoint { codepoint: 0x18BCB, name: "KHITAN SMALL SCRIPT CHARACTER-18BCB", aliases: &[] },
        Codepoint { codepoint: 0x18BCC, name: "KHITAN SMALL SCRIPT CHARACTER-18BCC", aliases: &[] },
    ]
}

fn all_codepoints_667() -> (v: Vec<Codepoint>)
    ensures
        v@ == codepoint_table_667(),
{
    let v = vec![
        Codepoint { codepoint: 0x18BA5, name: "KHITAN SMALL SCRIPT CHARACTER-18BA5", aliases: &[] },
        Codepoint { codepoint: 0x18BA6, name: "KHITAN SMALL SCRIPT CHARACTER-18BA6", aliases: &[] },
        Codepoint { codepoint: 0x18BA7, name: "KHITAN SMALL SCRIPT CHARACTER-18BA7", aliases: &[] },
        Codepoint { codepoint: 0x18BA8, name: "KHITAN SMALL SCRIPT CHARACTER-18BA8", aliases: &[] },
        Codepoint { codepoint: 0x18BA9, name: "KHITAN SMALL SCRIPT CHARACTER-18BA9", aliases: &[] },
        Codepoint { codepoint: 0x18BAA, name: "KHITAN SMALL SCRIPT CHARACTER-18BAA", aliases: &[] },
        Codepoint { codepoint: 0x18BAB, name: "KHITAN SMALL SCRIPT CHARACTER-18BAB", aliases: &[] },
        Codepoint { codepoint: 0x18BAC, name: "KHITAN SMALL SCRIPT CHARACTER-18BAC", aliases: &[] },
        Codepoint { codepoint: 0x18BAD, name: "KHITAN SMALL SCRIPT CHARACTER-18BAD", aliases: &[] },
        Codepoint { codepoint: 0x18BAE, name: "KHITAN SMALL SCRIPT CHARACTER-18BAE", aliases: &[] },
        Codepoint { codepoint: 0x18BAF, name: "KHITAN SMALL SCRIPT CHARACTER-18BAF", aliases: &[] },
        Codepoint { codepoint: 0x18BB0, name: "KHITAN SMALL SCRIPT CHARACTER-18BB0", aliases: &[] },
        Codepoint { codepoint: 0x18BB1, name: "KHITAN SMALL SCRIPT CHARACTER-18BB1", aliases: &[] },
        Codepoint { codepoint: 0x18BB2, name: "KHITAN SMALL SCRIPT CHARACTER-18BB2", aliases: &[] },
        Codepoint { codepoint: 0x18BB3, name: "KHITAN SMALL SCRIPT CHARACTER-18BB3", aliases: &[] },
        Codepoint { codepoint: 0x18BB4, name: "KHITAN SMALL SCRIPT CHARACTER-18BB4", aliases: &[] },
        Codepoint { codepoint: 0x18BB5, name: "KHITAN SMALL SCRIPT CHARACTER-18BB5", aliases: &[] },
        Codepoint { codepoint: 0x18BB6, name: "KHITAN SMALL SCRIPT CHARACTER-18BB6", aliases: &[] },
        Codepoint { codepoint: 0x18BB7, name: "KHITAN SMALL SCRIPT CHARACTER-18BB7", aliases: &[] },
        Codepoint { codepoint: 0x18BB8, name: "KHITAN SMALL SCRIPT CHARACTER-18BB8", aliases: &[] },
        Codepoint { codepoint: 0x18BB9, name: "KHITAN SMALL SCRIPT CHARACTER-18BB9", aliases: &[] },
        Codepoint { codepoint: 0x18BBA, name: "KHITAN SMALL SCRIPT CHARACTER-18BBA", aliases: &[] },
        Codepoint { codepoint: 0x18BBB, name: "KHITAN SMALL SCRIPT CHARACTER-18BBB", aliases: &[] },
        Codepoint { codepoint: 0x18BBC, name: "KHITAN SMALL SCRIPT CHARACTER-18BBC", aliases: &[] },
        Codepoint { codepoint: 0x18BBD, name: "KHITAN SMALL SCRIPT CHARACTER-18BBD", aliases: &[] },
        Codepoint { codepoint: 0x18BBE, name: "KHITAN SMALL SCRIPT CHARACTER-18BBE", aliases: &[] },
        Codepoint { codepoint: 0x18BBF, name: "KHITAN SMALL SCRIPT CHARACTER-18BBF", aliases: &[] },
        Codepoint { codepoint: 0x18BC0, name: "KHITAN SMALL SCRIPT CHARACTER-18BC0", aliases: &[] },
        Codepoint { codepoint: 0x18BC1, name: "KHITAN SMALL SCRIPT CHARACTER-18BC1", aliases: &[] },
        Codepoint { codepoint: 0x18BC2, name: "KHITAN SMALL SCRIPT CHARACTER-18BC2", aliases: &[] },
        Codepoint { codepoint: 0x18BC3, name: "KHITAN SMALL SCRIPT CHARACTER-18BC3", aliases: &[] },
        Codepoint { codepoint: 0x18BC4, name: "KHITAN SMALL SCRIPT CHARACTER-18BC4", aliases: &[] },
        Codepoint { codepoint: 0x18BC5, name: "KHITAN SMALL SCRIPT CHARACTER-18BC5", aliases: &[] },
        Codepoint { codepoint: 0x18BC6, name: "KHITAN SMALL SCRIPT CHARACTER-18BC6", aliases: &[] },
        Codepoint { codepoint: 0x18BC7, name: "KHITAN SMALL SCRIPT CHARACTER-18BC7", aliases: &[] },
        Codepoint { codepoint: 0x18BC8, name: "KHITAN SMALL SCRIPT CHARACTER-18BC8", aliases: &[] },
        Codepoint { codepoint: 0x18BC9, name: "KHITAN SMALL SCRIPT CHARACTER-18BC9", aliases: &[] },
        Codepoint { codepoint: 0x18BCA, name: "KHITAN SMALL SCRIPT CHARACTER-18BCA", aliases: &[] },
        Codepoint { codepoint: 0x18BCB, name: "KHITAN SMALL SCRIPT CHARACTER-18BCB", aliases: &[] },
        Codepoint { codepoint: 0x18BCC, name: "KHITAN SMALL SCRIPT CHARACTER-18BCC", aliases: &[] },
    ];
    assert(v@ =~= codepoint_table_667());
    v
}

pub open spec fn codepoint_table_668() -> Seq<Codepoint> {
    seq![
        Codepoint { codepoint: 0x18BCD, name: "KHITAN SMALL SCRIPT CHARACTER-18BCD", aliases: &[] },
        Codepoint { codepoint: 0x18BCE, name: "KHITAN SMALL SCRIPT CHARACTER-18BCE", aliases: &[] },
        Codepoint { codepoint: 0x18BCF, name: "KHITAN SMALL SCRIPT CHARACTER-18BCF", aliases: &[] },
        Codepoint { codepoint: 0x18BD0, name: "KHITAN SMALL SCRIPT CHARACTER-18BD0", aliases: &[] },
        Codepoint { codepoint: 0x18BD1, name: "KHITAN SMALL SCRIPT CHARACTER-18BD1", aliases: &[] },
        Codepoint { codepoint: 0x18BD2, name: "KHITAN SMALL SCRIPT CHARACTER-18BD2", aliases: &[] },
        Codepoint { codepoint: 0x18BD3, name: "KHITAN SMALL SCRIPT CHARACTER-18BD3", aliases: &[] },
        Codepoint { codepoint: 0x18BD4, name: "KHITAN SMALL SCRIPT CHARACTER-18BD4", aliases: &[] },
        Codepoint { codepoint: 0x18BD5, name: "KHITAN SMALL SCRIPT CHARACTER-18BD5", aliases: &[] },
        Codepoint { codepoint: 0x18BD6, name: "KHITAN SMALL SCRIPT CHARACTER-18BD6", aliases: &[] },
        Codepoint { codepoint: 0x18BD7, name: "KHITAN SMALL SCRIPT CHARACTER-18BD7", aliases: &[] },
        Codepoint { codepoint: 0x18BD8, name: "KHITAN SMALL SCRIPT CHARACTER-18BD8", aliases: &[] },
        Codepoint { codepoint: 0x18BD9, name: "KHITAN SMALL SCRIPT CHARACTER-18BD9", aliases: &[] },
        Codepoint { codepoint: 0x18BDA, name: "KHITAN SMALL SCRIPT CHARACTER-18BDA", aliases: &[] },
        Codepoint { codepoint: 0x18BDB, name: "KHITAN SMALL SCRIPT CHARACTER-18BDB", aliases: &[] },
        Codepoint { codepoint: 0x18BDC, name: "KHITAN SMALL SCRIPT CHARACTER-18BDC", aliases: &[] },
        Codepoint { codepoint: 0x18BDD, name: "KHITAN SMALL SCRIPT CHARACTER-18BDD", aliases: &[] },
        Codepoint { codepoint: 0x18BDE, name: "KHITAN SMALL SCRIPT CHARACTER-18BDE", aliases: &[] },
        Codepoint { codepoint: 0x18BDF, name: "KHITAN SMALL SCRIPT CHARACTER-18BDF", aliases: &[] },
        Codepoint { codepoint: 0x18BE0, name: "KHITAN SMALL SCRIPT CHARACTER-18BE0", aliases: &[] },
        Codepoint { codepoint: 0x18BE1, name: "KHITAN SMALL SCRIPT CHARACTER-18BE1", aliases: &[] },
        Codepoint { codepoint: 0x18BE2, name: "KHITAN SMALL SCRIPT CHARACTER-18BE2", aliases: &[] },
        Codepoint { codepoint: 0x18BE3, name: "KHITAN SMALL SCRIPT CHARACTER-18BE3", aliases: &[] },
        Codepoint { codepoint: 0x18BE4, name: "KHITAN SMALL SCRIPT CHARACTER-18BE4", aliases: &[] },
        Codepoint { codepoint: 0x18BE5, name: "KHITAN SMALL SCRIPT CHARACTER-18BE5", aliases: &[] },
        Codepoint { codepoint: 0x18BE6, name: "KHITAN SMALL SCRIPT CHARACTER-18BE6", aliases: &[] },
        Codepoint { codepoint: 0x18BE7, name: "KHITAN SMALL SCRIPT CHARACTER-18BE7", aliases: &[] },
        Codepoint { codepoint: 0x18BE8, name: "KHITAN SMALL SCRIPT CHARACTER-18BE8", aliases: &[] },
        Codepoint { codepoint: 0x18BE9, name: "KHITAN SMALL SCRIPT CHARACTER-18BE9", aliases: &[] },
        Codepoint { codepoint: 0x18BEA, name: "KHITAN SMALL SCRIPT CHARACTER-18BEA", aliases: &[] },
        Codepoint { codepoint: 0x18BEB, name: "KHITAN SMALL SCRIPT CHARACTER-18BEB", aliases: &[] },
        Codepoint { codepoint: 0x18BEC, name: "KHITAN SMALL SCRIPT CHARACTER-18BEC", aliases: &[] },
        Codepoint { codepoint: 0x18BED, name: "KHITAN SMALL SCRIPT CHARACTER-18BED", aliases: &[] },
        Codepoint { codepoint: 0x18BEE, name: "KHITAN SMALL SCRIPT CHARACTER-18BEE", aliases: &[] },
        Codepoint { codepoint: 0x18BEF, name: "KHITAN SMALL SCRIPT CHARACTER-18BEF", aliases: &[] },
        Codepoint { codepoint: 0x18BF0, name: "KHITAN SMALL SCRIPT CHARACTER-18BF0", aliases: &[] },
        Codepoint { codepoint: 0x18BF1, name: "KHITAN SMALL SCRIPT CHARACTER-18BF1", aliases: &[] },
        Codepoint { codepoint: 0x18BF2, name: "KHITAN SMALL SCRIPT CHARACTER-18BF2", aliases: &[] },
        Codepoint { codepoint: 0x18BF3, name: "KHITAN SMALL SCRIPT CHARACTER-18BF3", aliases: &[] },
        Codepoint { codepoint: 0x18BF4, name: "KHITAN SMALL SCRIPT CHARACTER-18BF4", aliases: &[] },
    ]
}

fn all_codepoints_668() -> (v: Vec<Codepoint>)
    ensures
        v@ == codepoint_table_668(),
{
    let v = vec![
        Codepoint { codepoint: 0x18BCD, name: "KHITAN SMALL SCRIPT CHARACTER-18BCD", aliases: &[] },
        Codepoint { codepoint: 0x18BCE, name: "KHITAN SMALL SCRIPT CHARACTER-18BCE", aliases: &[] },
        Codepoint { codepoint: 0x18BCF, name: "KHITAN SMALL SCRIPT CHARACTER-18BCF", aliases: &[] },
        Codepoint { codepoint: 0x18BD0, name: "KHITAN SMALL SCRIPT CHARACTER-18BD0", aliases: &[] },
        Codepoint { codepoint: 0x18BD1, name: "KHITAN SMALL SCRIPT CHARACTER-18BD1", aliases: &[] },
        Codepoint { codepoint: 0x18BD2, name: "KHITAN SMALL SCRIPT CHARACTER-18BD2", aliases: &[] },
        Codepoint { codepoint: 0x18BD3, name: "KHITAN SMALL SCRIPT CHARACTER-18BD3", aliases: &[] },
        Codepoint { codepoint: 0x18BD4, name: "KHITAN SMALL SCRIPT CHARACTER-18BD4", aliases: &[] },
        Codepoint { codepoint: 0x18BD5, name: "KHITAN SMALL SCRIPT CHARACTER-18BD5", aliases: &[] },
        Codepoint { codepoint: 0x18BD6, name: "KHITAN SMALL SCRIPT CHARACTER-18BD6", aliases: &[] },
        Codepoint { codepoint: 0x18BD7, name: "KHITAN SMALL SCRIPT CHARACTER-18BD7", aliases: &[] },
        Codepoint { codepoint: 0x18BD8, name: "KHITAN SMALL SCRIPT CHARACTER-18BD8", aliases: &[] },
        Codepoint { codepoint: 0x18BD9, name: "KHITAN SMALL SCRIPT CHARACTER-18BD9", aliases: &[] },
        Codepoint { codepoint: 0x18BDA, name: "KHITAN SMALL SCRIPT CHARACTER-18BDA", aliases: &[] },
        Codepoint { codepoint: 0x18BDB, name: "KHITAN SMALL SCRIPT CHARACTER-18BDB", aliases: &[] },
        Codepoint { codepoint: 0x18BDC, name: "KHITAN SMALL SCRIPT CHARACTER-18BDC", aliases: &[] },
        Codepoint { codepoint: 0x18BDD, name: "KHITAN SMALL SCRIPT CHARACTER-18BDD", aliases: &[] },
        Codepoint { codepoint: 0x18BDE, name: "KHITAN SMALL SCRIPT CHARACTER-18BDE", aliases: &[] },
        Codepoint { codepoint: 0x18BDF, name: "KHITAN SMALL SCRIPT CHARACTER-18BDF", aliases: &[] },
        Codepoint { codepoint: 0x18BE0, name: "KHITAN SMALL SCRIPT CHARACTER-18BE0", aliases: &[] },
        Codepoint { codepoint: 0x18BE1, name: "KHITAN SMALL SCRIPT CHARACTER-18BE1", aliases: &[] },
        Codepoint { codepoint: 0x18BE2, name: "KHITAN SMALL SCRIPT CHARACTER-18BE2", aliases: &[] },
        Codepoint { codepoint: 0x18BE3, name: "KHITAN SMALL SCRIPT CHARACTER-18BE3", aliases: &[] },
        Codepoint { codepoint: 0x18BE4, name: "KHITAN SMALL SCRIPT CHARACTER-18BE4", aliases: &[] },
        Codepoint { codepoint: 0x18BE5, name: "KHITAN SMALL SCRIPT CHARACTER-18BE5", aliases: &[] },
        Codepoint { codepoint: 0x18BE6, name: "KHITAN SMALL SCRIPT CHARACTER-18BE6", aliases: &[] },
        Codepoint { codepoint: 0x18BE7, name: "KHITAN SMALL SCRIPT CHARACTER-18BE7", aliases: &[] },
        Codepoint { codepoint: 0x18BE8, name: "KHITAN SMALL SCRIPT CHARACTER-18BE8", aliases: &[] },
        Codepoint { codepoint: 0x18BE9, name: "KHITAN SMALL SCRIPT CHARACTER-18BE9", aliases: &[] },
        Codepoint { codepoint: 0x18BEA, name: "KHITAN SMALL SCRIPT CHARACTER-18BEA", aliases: &[] },
        Codepoint { codepoint: 0x18BEB, name: "KHITAN SMALL SCRIPT CHARACTER-18BEB", aliases: &[] },
        Codepoint { codepoint: 0x18BEC, name: "KHITAN SMALL SCRIPT CHARACTER-18BEC", aliases: &[] },
        Codepoint { codepoint: 0x18BED, name: "KHITAN SMALL SCRIPT CHARACTER-18BED", aliases: &[] },
        Codepoint { codepoint: 0x18BEE, name: "KHITAN SMALL SCRIPT CHARACTER-18BEE", aliases: &[] },
        Codepoint { codepoint: 0x18BEF, name: "KHITAN SMALL SCRIPT CHARACTER-18BEF", aliases: &[] },
        Codepoint { codepoint: 0x18BF0, name: "KHITAN SMALL SCRIPT CHARACTER-18BF0", aliases: &[] },
        Codepoint { codepoint: 0x18BF1, name: "KHITAN SMALL SCRIPT CHARACTER-18BF1", aliases: &[] },
        Codepoint { codepoint: 0x18BF2, name: "KHITAN SMALL SCRIPT CHARACTER-18BF2", aliases: &[] },
        Codepoint { codepoint: 0x18BF3, name: "KHITAN SMALL SCRIPT CHARACTER-18BF3", aliases: &[] },
        Codepoint { codepoint: 0x18BF4, name: "KHITAN SMALL SCRIPT CHARACTER-18BF4", aliases: &[] },
    ];
    assert(v@ =~= codepoint_table_668());
    v
}

pub open spec fn codepoint_table_669() -> Seq<Codepoint> {
    seq![
        Codepoint { codepoint: 0x18BF5, name: "KHITAN SMALL SCRIPT CHARACTER-18BF5", aliases: &[] },
        Codepoint { codepoint: 0x18BF6, name: "KHITAN SMALL SCRIPT CHARACTER-18BF6", aliases: &[] },
        Codepoint { codepoint: 0x18BF7, name: "KHITAN SMALL SCRIPT CHARACTER-18BF7", aliases: &[] },
        Codepoint { codepoint: 0x18BF8, name: "KHITAN SMALL SCRIPT CHARACTER-18BF8", aliases: &[] },
        Codepoint { codepoint: 0x18BF9, name: "KHITAN SMALL SCRIPT CHARACTER-18BF9", aliases: &[] },
        Codepoint { codepoint: 0x18BFA, name: "KHITAN SMALL SCRIPT CHARACTER-18BFA", aliases: &[] },
        Codepoint { codepoint: 0x18BFB, name: "KHITAN SMALL SCRIPT CHARACTER-18BFB", aliases: &[] },
        Codepoint { codepoint: 0x18BFC, name: "KHITAN SMALL SCRIPT CHARACTER-18BFC", aliases: &[] },
        Codepoint { codepoint: 0x18BFD, name: "KHITAN SMALL SCRIPT CHARACTER-18BFD", aliases: &[] },
        Codepoint { codepoint: 0x18BFE, name: "KHITAN SMALL SCRIPT CHARACTER-18BFE", aliases: &[] },
        Codepoint { codepoint: 0x18BFF, name: "KHITAN SMALL SCRIPT CHARACTER-18BFF", aliases: &[] },
        Codepoint { codepoint: 0x18C00, name: "KHITAN SMALL SCRIPT CHARACTER-18C00", aliases: &[] },
        Codepoint { codepoint: 0x18C01, name: "KHITAN SMALL SCRIPT CHARACTER-18C01", aliases: &[] },
        Codepoint { codepoint: 0x18C02, name: "KHITAN SMALL SCRIPT CHARACTER-18C02", aliases: &[] },
        Codepoint { codepoint: 0x18C03, name: "KHITAN SMALL SCRIPT CHARACTER-18C03", aliases: &[] },
        Codepoint { codepoint: 0x18C04, name: "KHITAN SMALL SCRIPT CHARACTER-18C04", aliases: &[] },
        Codepoint { codepoint: 0x18C05, name: "KHITAN SMALL SCRIPT CHARACTER-18C05", aliases: &[] },
        Codepoint { codepoint: 0x18C06, name: "KHITAN SMALL SCRIPT CHARACTER-18C06", aliases: &[] },
        Codepoint { codepoint: 0x18C07, name: "KHITAN SMALL SCRIPT CHARACTER-18C07", aliases: &[] },
        Codepoint { codepoint: 0x18C08, name: "KHITAN SMALL SCRIPT CHARACTER-18C08", aliases: &[] },
        Codepoint { codepoint: 0x18C09, name: "KHITAN SMALL SCRIPT CHARACTER-18C09", aliases: &[] },
        Codepoint { codepoint: 0x18C0A, name: "KHITAN SMALL SCRIPT CHARACTER-18C0A", aliases: &[] },
        Codepoint { codepoint: 0x18C0B, name: "KHITAN SMALL SCRIPT CHARACTER-18C0B", aliases: &[] },
        Codepoint { codepoint: 0x18C0C, name: "KHITAN SMALL SCRIPT CHARACTER-18C0C", aliases: &[] },
        Codepoint { codepoint: 0x18C0D, name: "KHITAN SMALL SCRIPT CHARACTER-18C0D", aliases: &[] },
        Codepoint { codepoint: 0x18C0E, name: "KHITAN SMALL SCRIPT CHARACTER-18C0E", aliases: &[] },
        Codepoint { codepoint: 0x18C0F, name: "KHITAN SMALL SCRIPT CHARACTER-18C0F", aliases: &[] },
        Codepoint { codepoint: 0x18C10, name: "KHITAN SMALL SCRIPT CHARACTER-18C10", aliases: &[] },
        Codepoint { codepoint: 0x18C11, name: "KHITAN SMALL SCRIPT CHARACTER-18C11", aliases: &[] },
        Codepoint { codepoint: 0x18C12, name: "KHITAN SMALL SCRIPT CHARACTER-18C12", aliases: &[] },
        Codepoint { codepoint: 0x18C13, name: "KHITAN SMALL SCRIPT CHARACTER-18C13", aliases: &[] },
        Codepoint { codepoint: 0x18C14, name: "KHITAN SMALL SCRIPT CHARACTER-18C14", aliases: &[] },
        Codepoint { codepoint: 0x18C15, name: "KHITAN SMALL SCRIPT CHARACTER-18C15", aliases: &[] },
        Codepoint { codepoint: 0x18C16, name: "KHITAN SMALL SCRIPT CHARACTER-18C16", aliases: &[] },
        Codepoint { codepoint: 0x18C17, name: "KHITAN SMALL SCRIPT CHARACTER-18C17", aliases: &[] },
        Codepoint { codepoint: 0x18C18, name: "KHITAN SMALL SCRIPT CHARACTER-18C18", aliases: &[] },
        Codepoint { codepoint: 0x18C19, name: "KHITAN SMALL SCRIPT CHARACTER-18C19", aliases: &[] },
        Codepoint { codepoint: 0x18C1A, name: "KHITAN SMALL SCRIPT CHARACTER-18C1A", aliases: &[] },
        Codepoint { codepoint: 0x18C1B, name: "KHITAN SMALL SCRIPT CHARACTER-18C1B", aliases: &[] },
        Codepoint { codepoint: 0x18C1C, name: "KHITAN SMALL SCRIPT CHARACTER-18C1C", aliases: &[] },
    ]
}

fn all_codepoints_669() -> (v: Vec<Codepoint>)
    ensures
        v@ == codepoint_table_669(),
{
    let v = vec![
        Codepoint { codepoint: 0x18BF5, name: "KHITAN SMALL SCRIPT CHARACTER-18BF5", aliases: &[] },
        Codepoint { codepoint: 0x18BF6, name: "KHITAN SMALL SCRIPT CHARACTER-18BF6", aliases: &[] },
        Codepoint { codepoint: 0x18BF7, name: "KHITAN SMALL SCRIPT CHARACTER-18BF7", aliases: &[] },
        Codepoint { codepoint: 0x18BF8, name: "KHITAN SMALL SCRIPT CHARACTER-18BF8", aliases: &[] },
        Codepoint { codepoint: 0x18BF9, name: "KHITAN SMALL SCRIPT CHARACTER-18BF9", aliases: &[] },
        Codepoint { codepoint: 0x18BFA, name: "KHITAN SMALL SCRIPT CHARACTER-18BFA", aliases: &[] },
        Codepoint { codepoint: 0x18BFB, name: "KHITAN SMALL SCRIPT CHARACTER-18BFB", aliases: &[] },
        Codepoint { codepoint: 0x18BFC, name: "KHITAN SMALL SCRIPT CHARACTER-18BFC", aliases: &[] },
        Codepoint { codepoint: 0x18BFD, name: "KHITAN SMALL SCRIPT CHARACTER-18BFD", aliases: &[] },
        Codepoint { codepoint: 0x18BFE, name: "KHITAN SMALL SCRIPT CHARACTER-18BFE", aliases: &[] },
        Codepoint { codepoint: 0x18BFF, name: "KHITAN SMALL SCRIPT CHARACTER-18BFF", aliases: &[] },
        Codepoint { codepoint: 0x18C00, name: "KHITAN SMALL SCRIPT CHARACTER-18C00", aliases: &[] },
        Codepoint { codepoint: 0x18C01, name: "KHITAN SMALL SCRIPT CHARACTER-18C01", aliases: &[] },
        Codepoint { codepoint: 0x18C02, name: "KHITAN SMALL SCRIPT CHARACTER-18C02", aliases: &[] },
        Codepoint { codepoint: 0x18C03, name: "KHITAN SMALL SCRIPT CHARACTER-18C03", aliases: &[] },
        Codepoint { codepoint: 0x18C04, name: "KHITAN SMALL SCRIPT CHARACTER-18C04", aliases: &[] },
        Codepoint { codepoint: 0x18C05, name: "KHITAN SMALL SCRIPT CHARACTER-18C05", aliases: &[] },
        Codepoint { codepoint: 0x18C06, name: "KHITAN SMALL SCRIPT CHARACTER-18C06", aliases: &[] },
        Codepoint { codepoint: 0x18C07, name: "KHITAN SMALL SCRIPT CHARACTER-18C07", aliases: &[] },
        Codepoint { codepoint: 0x18C08, name: "KHITAN SMALL SCRIPT CHARACTER-18C08", aliases: &[] },
        Codepoint { codepoint: 0x18C09, name: "KHITAN SMALL SCRIPT CHARACTER-18C09", aliases: &[] },
        Codepoint { codepoint: 0x18C0A, name: "KHITAN SMALL SCRIPT CHARACTER-18C0A", aliases: &[] },
        Codepoint { codepoint: 0x18C0B, name: "KHITAN SMALL SCRIPT CHARACTER-18C0B", aliases: &[] },
        Codepoint { codepoint: 0x18C0C, name: "KHITAN SMALL SCRIPT CHARACTER-18C0C", aliases: &[] },
        Codepoint { codepoint: 0x18C0D, name: "KHITAN SMALL SCRIPT CHARACTER-18C0D", aliases: &[] },
        Codepoint { codepoint: 0x18C0E, name: "KHITAN SMALL SCRIPT CHARACTER-18C0E", aliases: &[] },
        Codepoint { codepoint: 0x18C0F, name: "KHITAN SMALL SCRIPT CHARACTER-18C0F", aliases: &[] },
        Codepoint { codepoint: 0x18C10, name: "KHITAN SMALL SCRIPT CHARACTER-18C10", aliases: &[] },
        Codepoint { codepoint: 0x18C11, name: "KHITAN SMALL SCRIPT CHARACTER-18C11", aliases: &[] },
        Codepoint { codepoint: 0x18C12, name: "KHITAN SMALL SCRIPT CHARACTER-18C12", aliases: &[] },
        Codepoint { codepoint: 0x18C13, name: "KHITAN SMALL SCRIPT CHARACTER-18C13", aliases: &[] },
        Codepoint { codepoint: 0x18C14, name: "KHITAN SMALL SCRIPT CHARACTER-18C14", aliases: &[] },
        Codepoint { codepoint: 0x18C15, name: "KHITAN SMALL SCRIPT CHARACTER-18C15", aliases: &[] },
        Codepoint { codepoint: 0x18C16, name: "KHITAN SMALL SCRIPT CHARACTER-18C16", aliases: &[] },
        Codepoint { codepoint: 0x18C17, name: "KHITAN SMALL SCRIPT CHARACTER-18C17", aliases: &[] },
        Codepoint { codepoint: 0x18C18, name: "KHITAN SMALL SCRIPT CHARACTER-18C18", aliases: &[] },
        Codepoint { codepoint: 0x18C19, name: "KHITAN SMALL SCRIPT CHARACTER-18C19", aliases: &[] },
        Codepoint { codepoint: 0x18C1A, name: "KHITAN SMALL SCRIPT CHARACTER-18C1A", aliases: &[] },
        Codepoint { codepoint: 0x18C1B, name: "KHITAN SMALL SCRIPT CHARACTER-18C1B", aliases: &[] },
        Codepoint { codepoint: 0x18C1C, name: "KHITAN SMALL SCRIPT CHARACTER-18C1C", aliases: &[] },
    ];
    assert(v@ =~= codepoint_table_669());
    v
}

pub open spec fn codepoint_table_670() -> Seq<Codepoint> {
    seq![
        Codepoint { codepoint: 0x18C1D, name: "KHITAN SMALL SCRIPT CHARACTER-18C1D", aliases: &[] },
        Codepoint { codepoint: 0x18C1E, name: "KHITAN SMALL SCRIPT CHARACTER-18C1E", aliases: &[] },
        Codepoint { codepoint: 0x18C1F, name: "KHITAN SMALL SCRIPT CHARACTER-18C1F", aliases: &[] },
        Codepoint { codepoint: 0x18C20, name: "KHITAN SMALL SCRIPT CHARACTER-18C20", aliases: &[] },
        Codepoint { codepoint: 0x18C21, name: "KHITAN SMALL SCRIPT CHARACTER-18C21", aliases: &[] },
        Codepoint { codepoint: 0x18C22, name: "KHITAN SMALL SCRIPT CHARACTER-18C22", aliases: &[] },
        Codepoint { codepoint: 0x18C23, name: "KHITAN SMALL SCRIPT CHARACTER-18C23", aliases: &[] },
        Codepoint { codepoint: 0x18C24, name: "KHITAN SMALL SCRIPT CHARACTER-18C24", aliases: &[] },
        Codepoint { codepoint: 0x18C25, name: "KHITAN SMALL SCRIPT CHARACTER-18C25", aliases: &[] },
        Codepoint { codepoint: 0x18C26, name: "KHITAN SMALL SCRIPT CHARACTER-18C26", aliases: &[] },
        Codepoint { codepoint: 0x18C27, name: "KHITAN SMALL SCRIPT CHARACTER-18C27", aliases: &[] },
        Codepoint { codepoint: 0x18C28, name: "KHITAN SMALL SCRIPT CHARACTER-18C28", aliases: &[] },
        Codepoint { codepoint: 0x18C29, name: "KHITAN SMALL SCRIPT CHARACTER-18C29", aliases: &[] },
        Codepoint { codepoint: 0x18C2A, name: "KHITAN SMALL SCRIPT CHARACTER-18C2A", aliases: &[] },
        Codepoint { codepoint: 0x18C2B, name: "KHITAN SMALL SCRIPT CHARACTER-18C2B", aliases: &[] },
        Codepoint { codepoint: 0x18C2C, name: "KHITAN SMALL SCRIPT CHARACTER-18C2C", aliases: &[] },
        Codepoint { codepoint: 0x18C2D, name: "KHITAN SMALL SCRIPT CHARACTER-18C2D", aliases: &[] },
        Codepoint { codepoint: 0x18C2E, name: "KHITAN SMALL SCRIPT CHARACTER-18C2E", aliases: &[] },
        Codepoint { codepoint: 0x18C2F, name: "KHITAN SMALL SCRIPT CHARACTER-18C2F", aliases: &[] },
        Codepoint { codepoint: 0x18C30, name: "KHITAN SMALL SCRIPT CHARACTER-18C30", aliases: &[] },
        Codepoint { codepoint: 0x18C31, name: "KHITAN SMALL SCRIPT CHARACTER-18C31", aliases: &[] },
        Codepoint { codepoint: 0x18C32, name: "KHITAN SMALL SCRIPT CHARACTER-18C32", aliases: &[] },
        Codepoint { codepoint: 0x18C33, name: "KHITAN SMALL SCRIPT CHARACTER-18C33", aliases: &[] },
        Codepoint { codepoint: 0x18C34, name: "KHITAN SMALL SCRIPT CHARACTER-18C34", aliases: &[] },
        Codepoint { codepoint: 0x18C35, name: "KHITAN SMALL SCRIPT CHARACTER-18C35", aliases: &[] },
        Codepoint { codepoint: 0x18C36, name: "KHITAN SMALL SCRIPT CHARACTER-18C36", aliases: &[] },
        Codepoint { codepoint: 0x18C37, name: "KHITAN SMALL SCRIPT CHARACTER-18C37", aliases: &[] },
        Codepoint { codepoint: 0x18C38, name: "KHITAN SMALL SCRIPT CHARACTER-18C38", aliases: &[] },
        Codepoint { codepoint: 0x18C39, name: "KHITAN SMALL SCRIPT CHARACTER-18C39", aliases: &[] },
        Codepoint { codepoint: 0x18C3A, name: "KHITAN SMALL SCRIPT CHARACTER-18C3A", aliases: &[] },
        Codepoint { codepoint: 0x18C3B, name: "KHITAN SMALL SCRIPT CHARACTER-18C3B", aliases: &[] },
        Codepoint { codepoint: 0x18C3C, name: "KHITAN SMALL SCRIPT CHARACTER-18C3C", aliases: &[] },
        Codepoint { codepoint: 0x18C3D, name: "KHITAN SMALL SCRIPT CHARACTER-18C3D", aliases: &[] },
        Codepoint { codepoint: 0x18C3E, name: "KHITAN SMALL SCRIPT CHARACTER-18C3E", aliases: &[] },
        Codepoint { codepoint: 0x18C3F, name: "KHITAN SMALL SCRIPT CHARACTER-18C3F", aliases: &[] },
        Codepoint { codepoint: 0x18C40, name: "KHITAN SMALL SCRIPT CHARACTER-18C40", aliases: &[] },
        Codepoint { codepoint: 0x18C41, name: "KHITAN SMALL SCRIPT CHARACTER-18C41", aliases: &[] },
        Codepoint { codepoint: 0x18C42, name: "KHITAN SMALL SCRIPT CHARACTER-18C42", aliases: &[] },
        Codepoint { codepoint: 0x18C43, name: "KHITAN SMALL SCRIPT CHARACTER-18C43", aliases: &[] },
        Codepoint { codepoint: 0x18C44, name: "KHITAN SMALL SCRIPT CHARACTER-18C44", aliases: &[] },
    ]
}

fn all_codepoints_670() -> (v: Vec<Codepoint>)
    ensures
        v@ == codepoint_table_670(),
{
    let v = vec![
        Codepoint { codepoint: 0x18C1D, name: "KHITAN SMALL SCRIPT CHARACTER-18C1D", aliases: &[] },
        Codepoint { codepoint: 0x18C1E, name: "KHITAN SMALL SCRIPT CHARACTER-18C1E", aliases: &[] },
        Codepoint { codepoint: 0x18C1F, name: "KHITAN SMALL SCRIPT CHARACTER-18C1F", aliases: &[] },
        Codepoint { codepoint: 0x18C20, name: "KHITAN SMALL SCRIPT CHARACTER-18C20", aliases: &[] },
        Codepoint { codepoint: 0x18C21, name: "KHITAN SMALL SCRIPT CHARACTER-18C21", aliases: &[] },
        Codepoint { codepoint: 0x18C22, name: "KHITAN SMALL SCRIPT CHARACTER-18C22", aliases: &[] },
        Codepoint { codepoint: 0x18C23, name: "KHITAN SMALL SCRIPT CHARACTER-18C23", aliases: &[] },
        Codepoint { codepoint: 0x18C24, name: "KHITAN SMALL SCRIPT CHARACTER-18C24", aliases: &[] },
        Codepoint { codepoint: 0x18C25, name: "KHITAN SMALL SCRIPT CHARACTER-18C25", aliases: &[] },
        Codepoint { codepoint: 0x18C26, name: "KHITAN SMALL SCRIPT CHARACTER-18C26", aliases: &[] },
        Codepoint { codepoint: 0x18C27, name: "KHITAN SMALL SCRIPT CHARACTER-18C27", aliases: &[] },
        Codepoint { codepoint: 0x18C28, name: "KHITAN SMALL SCRIPT CHARACTER-18C28", aliases: &[] },
        Codepoint { codepoint: 0x18C29, name: "KHITAN SMALL SCRIPT CHARACTER-18C29", aliases: &[] },
        Codepoint { codepoint: 0x18C2A, name: "KHITAN SMALL SCRIPT CHARACTER-18C2A", aliases: &[] },
        Codepoint { codepoint: 0x18C2B, name: "KHITAN SMALL SCRIPT CHARACTER-18C2B", aliases: &[] },
        Codepoint { codepoint: 0x18C2C, name: "KHITAN SMALL SCRIPT CHARACTER-18C2C", aliases: &[] },
        Codepoint { codepoint: 0x18C2D, name: "KHITAN SMALL SCRIPT CHARACTER-18C2D", aliases: &[] },
        Codepoint { codepoint: 0x18C2E, name: "KHITAN SMALL SCRIPT CHARACTER-18C2E", aliases: &[] },
        Codepoint { codepoint: 0x18C2F, name: "KHITAN SMALL SCRIPT CHARACTER-18C2F", aliases: &[] },
        Codepoint { codepoint: 0x18C30, name: "KHITAN SMALL SCRIPT CHARACTER-18C30", aliases: &[] },
        Codepoint { codepoint: 0x18C31, name: "KHITAN SMALL SCRIPT CHARACTER-18C31", aliases: &[] },
        Codepoint { codepoint: 0x18C32, name: "KHITAN SMALL SCRIPT CHARACTER-18C32", aliases: &[] },
        Codepoint { codepoint: 0x18C33, name: "KHITAN SMALL SCRIPT CHARACTER-18C33", aliases: &[] },
        Codepoint { codepoint: 0x18C34, name: "KHITAN SMALL SCRIPT CHARACTER-18C34", aliases: &[] },
        Codepoint { codepoint: 0x18C35, name: "KHITAN SMALL SCRIPT CHARACTER-18C35", aliases: &[] },
        Codepoint { codepoint: 0x18C36, name: "KHITAN SMALL SCRIPT CHARACTER-18C36", aliases: &[] },
        Codepoint { codepoint: 0x18C37, name: "KHITAN SMALL SCRIPT CHARACTER-18C37", aliases: &[] },
        Codepoint { codepoint: 0x18C38, name: "KHITAN SMALL SCRIPT CHARACTER-18C38", aliases: &[] },
        Codepoint { codepoint: 0x18C39, name: "KHITAN SMALL SCRIPT CHARACTER-18C39", aliases: &[] },
        Codepoint { codepoint: 0x18C3A, name: "KHITAN SMALL SCRIPT CHARACTER-18C3A", aliases: &[] },
        Codepoint { codepoint: 0x18C3B, name: "KHITAN SMALL SCRIPT CHARACTER-18C3B", aliases: &[] },
        Codepoint { codepoint: 0x18C3C, name: "KHITAN SMALL SCRIPT CHARACTER-18C3C", aliases: &[] },
        Codepoint { codepoint: 0x18C3D, name: "KHITAN SMALL SCRIPT CHARACTER-18C3D", aliases: &[] },
        Codepoint { codepoint: 0x18C3E, name: "KHITAN SMALL SCRIPT CHARACTER-18C3E", aliases: &[] },
        Codepoint { codepoint: 0x18C3F, name: "KHITAN SMALL SCRIPT CHARACTER-18C3F", aliases: &[] },
        Codepoint { codepoint: 0x18C40, name: "KHITAN SMALL SCRIPT CHARACTER-18C40", aliases: &[] },
        Codepoint { codepoint: 0x18C41, name: "KHITAN SMALL SCRIPT CHARACTER-18C41", aliases: &[] },
        Codepoint { codepoint: 0x18C42, name: "KHITAN SMALL SCRIPT CHARACTER-18C42", aliases: &[] },
        Codepoint { codepoint: 0x18C43, name: "KHITAN SMALL SCRIPT CHARACTER-18C43", aliases: &[] },
        Codepoint { codepoint: 0x18C44, name: "KHITAN SMALL SCRIPT CHARACTER-18C44", aliases: &[] },
    ];
    assert(v@ =~= codepoint_table_670());
    v
}

pub open spec fn codepoint_table_671() -> Seq<Codepoint> {
    seq![
        Codepoint { codepoint: 0x18C45, name: "KHITAN SMALL SCRIPT CHARACTER-18C45", aliases: &[] },
        Codepoint { codepoint: 0x18C46, name: "KHITAN SMALL SCRIPT CHARACTER-18C46", aliases: &[] },
        Codepoint { codepoint: 0x18C47, name: "KHITAN SMALL SCRIPT CHARACTER-18C47", aliases: &[] },
        Codepoint { codepoint: 0x18C48, name: "KHITAN SMALL SCRIPT CHARACTER-18C48", aliases: &[] },
        Codepoint { codepoint: 0x18C49, name: "KHITAN SMALL SCRIPT CHARACTER-18C49", aliases: &[] },
        Codepoint { codepoint: 0x18C4A, name: "KHITAN SMALL SCRIPT CHARACTER-18C4A", aliases: &[] },
        Codepoint { codepoint: 0x18C4B, name: "KHITAN SMALL SCRIPT CHARACTER-18C4B", aliases: &[] },
        Codepoint { codepoint: 0x18C4C, name: "KHITAN SMALL SCRIPT CHARACTER-18C4C", aliases: &[] },
        Codepoint { codepoint: 0x18C4D, name: "KHITAN SMALL SCRIPT CHARACTER-18C4D", aliases: &[] },
        Codepoint { codepoint: 0x18C4E, name: "KHITAN SMALL SCRIPT CHARACTER-18C4E", aliases: &[] },
        Codepoint { codepoint: 0x18C4F, name: "KHITAN SMALL SCRIPT CHARACTER-18C4F", aliases: &[] },
        Codepoint { codepoint: 0x18C50, name: "KHITAN SMALL SCRIPT CHARACTER-18C50", aliases: &[] },
        Codepoint { codepoint: 0x18C51, name: "KHITAN SMALL SCRIPT CHARACTER-18C51", aliases: &[] },
        Codepoint { codepoint: 0x18C52, name: "KHITAN SMALL SCRIPT CHARACTER-18C52", aliases: &[] },
        Codepoint { codepoint: 0x18C53, name: "KHITAN SMALL SCRIPT CHARACTER-18C53", aliases: &[] },
        Codepoint { codepoint: 0x18C54, name: "KHITAN SMALL SCRIPT CHARACTER-18C54", aliases: &[] },
        Codepoint { codepoint: 0x18C55, name: "KHITAN SMALL SCRIPT CHARACTER-18C55", aliases: &[] },
        Codepoint { codepoint: 0x18C56, name: "KHITAN SMALL SCRIPT CHARACTER-18C56", aliases: &[] },
        Codepoint { codepoint: 0x18C57, name: "KHITAN SMALL SCRIPT CHARACTER-18C57", aliases: &[] },
        Codepoint { codepoint: 0x18C58, name: "KHITAN SMALL SCRIPT CHARACTER-18C58", aliases: &[] },
        Codepoint { codepoint: 0x18C59, name: "KHITAN SMALL SCRIPT CHARACTER-18C59", aliases: &[] },
        Codepoint { codepoint: 0x18C5A, name: "KHITAN SMALL SCRIPT CHARACTER-18C5A", aliases: &[] },
        Codepoint { codepoint: 0x18C5B, name: "KHITAN SMALL SCRIPT CHARACTER-18C5B", aliases: &[] },
        Codepoint { codepoint: 0x18C5C, name: "KHITAN SMALL SCRIPT CHARACTER-18C5C", aliases: &[] },
        Codepoint { codepoint: 0x18C5D, name: "KHITAN SMALL SCRIPT CHARACTER-18C5D", aliases: &[] },
        Codepoint { codepoint: 0x18C5E, name: "KHITAN SMALL SCRIPT CHARACTER-18C5E", aliases: &[] },
        Codepoint { codepoint: 0x18C5F, name: "KHITAN SMALL SCRIPT CHARACTER-18C5F", aliases: &[] },
        Codepoint { codepoint: 0x18C60, name: "KHITAN SMALL SCRIPT CHARACTER-18C60", aliases: &[] },
        Codepoint { codepoint: 0x18C61, name: "KHITAN SMALL SCRIPT CHARACTER-18C61", aliases: &[] },
        Codepoint { codepoint: 0x18C62, name: "KHITAN SMALL SCRIPT CHARACTER-18C62", aliases: &[] },
        Codepoint { codepoint: 0x18C63, name: "KHITAN SMALL SCRIPT CHARACTER-18C63", aliases: &[] },
        Codepoint { codepoint: 0x18C64, name: "KHITAN SMALL SCRIPT CHARACTER-18C64", aliases: &[] },
        Codepoint { codepoint: 0x18C65, name: "KHITAN SMALL SCRIPT CHARACTER-18C65", aliases: &[] },
        Codepoint { codepoint: 0x18C66, name: "KHITAN SMALL SCRIPT CHARACTER-18C66", aliases: &[] },
        Codepoint { codepoint: 0x18C67, name: "KHITAN SMALL SCRIPT CHARACTER-18C67", aliases: &[] },
        Codepoint { codepoint: 0x18C68, name: "KHITAN SMALL SCRIPT CHARACTER-18C68", aliases: &[] },
        Codepoint { codepoint: 0x18C69, name: "KHITAN SMALL SCRIPT CHARACTER-18C69", aliases: &[] },
        Codepoint { codepoint: 0x18C6A, name: "KHITAN SMALL SCRIPT CHARACTER-18C6A", aliases: &[] },
        Codepoint { codepoint: 0x18C6B, name: "KHITAN SMALL SCRIPT CHARACTER-18C6B", aliases: &[] },
        Codepoint { codepoint: 0x18C6C, name: "KHITAN SMALL SCRIPT CHARACTER-18C6C", aliases: &[] },
    ]
}

fn all_codepoints_671() -> (v: Vec<Codepoint>)
    ensures
        v@ == codepoint_table_671(),
{
    let v = vec![
        Codepoint { codepoint: 0x18C45, name: "KHITAN SMALL SCRIPT CHARACTER-18C45", aliases: &[] },
        Codepoint { codepoint: 0x18C46, name: "KHITAN SMALL SCRIPT CHARACTER-18C46", aliases: &[] },
        Codepoint { codepoint: 0x18C47, name: "KHITAN SMALL SCRIPT CHARACTER-18C47", aliases: &[] },
        Codepoint { codepoint: 0x18C48, name: "KHITAN SMALL SCRIPT CHARACTER-18C48", aliases: &[] },
        Codepoint { codepoint: 0x18C49, name: "KHITAN SMALL SCRIPT CHARACTER-18C49", aliases: &[] },
        Codepoint { codepoint: 0x18C4A, name: "KHITAN SMALL SCRIPT CHARACTER-18C4A", aliases: &[] },
        Codepoint { codepoint: 0x18C4B, name: "KHITAN SMALL SCRIPT CHARACTER-18C4B", aliases: &[] },
        Codepoint { codepoint: 0x18C4C, name: "KHITAN SMALL SCRIPT CHARACTER-18C4C", aliases: &[] },
        Codepoint { codepoint: 0x18C4D, name: "KHITAN SMALL SCRIPT CHARACTER-18C4D", aliases: &[] },
        Codepoint { codepoint: 0x18C4E, name: "KHITAN SMALL SCRIPT CHARACTER-18C4E", aliases: &[] },
        Codepoint { codepoint: 0x18C4F, name: "KHITAN SMALL SCRIPT CHARACTER-18C4F", aliases: &[] },
        Codepoint { codepoint: 0x18C50, name: "KHITAN SMALL SCRIPT CHARACTER-18C50", aliases: &[] },
        Codepoint { codepoint: 0x18C51, name: "KHITAN SMALL SCRIPT CHARACTER-18C51", aliases: &[] },
        Codepoint { codepoint: 0x18C52, name: "KHITAN SMALL SCRIPT CHARACTER-18C52", aliases: &[] },
        Codepoint { codepoint: 0x18C53, name: "KHITAN SMALL SCRIPT CHARACTER-18C53", aliases: &[] },
        Codepoint { codepoint: 0x18C54, name: "KHITAN SMALL SCRIPT CHARACTER-18C54", aliases: &[] },
        Codepoint { codepoint: 0x18C55, name: "KHITAN SMALL SCRIPT CHARACTER-18C55", aliases: &[] },
        Codepoint { codepoint: 0x18C56, name: "KHITAN SMALL SCRIPT CHARACTER-18C56", aliases: &[] },
        Codepoint { codepoint: 0x18C57, name: "KHITAN SMALL SCRIPT CHARACTER-18C57", aliases: &[] },
        Codepoint { codepoint: 0x18C58, name: "KHITAN SMALL SCRIPT CHARACTER-18C58", aliases: &[] },
        Codepoint { codepoint: 0x18C59, name: "KHITAN SMALL SCRIPT CHARACTER-18C59", aliases: &[] },
        Codepoint { codepoint: 0x18C5A, name: "KHITAN SMALL SCRIPT CHARACTER-18C5A", aliases: &[] },
        Codepoint { codepoint: 0x18C5B, name: "KHITAN SMALL SCRIPT CHARACTER-18C5B", aliases: &[] },
        Codepoint { codepoint: 0x18C5C, name: "KHITAN SMALL SCRIPT CHARACTER-18C5C", aliases: &[] },
        Codepoint { codepoint: 0x18C5D, name: "KHITAN SMALL SCRIPT CHARACTER-18C5D", aliases: &[] },
        Codepoint { codepoint: 0x18C5E, name: "KHITAN SMALL SCRIPT CHARACTER-18C5E", aliases: &[] },
        Codepoint { codepoint: 0x18C5F, name: "KHITAN SMALL SCRIPT CHARACTER-18C5F", aliases: &[] },
        Codepoint { codepoint: 0x18C60, name: "KHITAN SMALL SCRIPT CHARACTER-18C60", aliases: &[] },
        Codepoint { codepoint: 0x18C61, name: "KHITAN SMALL SCRIPT CHARACTER-18C61", aliases: &[] },
        Codepoint { codepoint: 0x18C62, name: "KHITAN SMALL SCRIPT CHARACTER-18C62", aliases: &[] },
        Codepoint { codepoint: 0x18C63, name: "KHITAN SMALL SCRIPT CHARACTER-18C63", aliases: &[] },
        Codepoint { codepoint: 0x18C64, name: "KHITAN SMALL SCRIPT CHARACTER-18C64", aliases: &[] },
        Codepoint { codepoint: 0x18C65, name: "KHITAN SMALL SCRIPT CHARACTER-18C65", aliases: &[] },
        Codepoint { codepoint: 0x18C66, name: "KHITAN SMALL SCRIPT CHARACTER-18C66", aliases: &[] },
        Codepoint { codepoint: 0x18C67, name: "KHITAN SMALL SCRIPT CHARACTER-18C67", aliases: &[] },
        Codepoint { codepoint: 0x18C68, name: "KHITAN SMALL SCRIPT CHARACTER-18C68", aliases: &[] },
        Codepoint { codepoint: 0x18C69, name: "KHITAN SMALL SCRIPT CHARACTER-18C69", aliases: &[] },
        Codepoint { codepoint: 0x18C6A, name: "KHITAN SMALL SCRIPT CHARACTER-18C6A", aliases: &[] },
        Codepoint { codepoint: 0x18C6B, name: "KHITAN SMALL SCRIPT CHARACTER-18C6B", aliases: &[] },
        Codepoint { codepoint: 0x18C6C, name: "KHITAN SMALL SCRIPT CHARACTER-18C6C", aliases: &[] },
    ];
    assert(v@ =~= codepoint_table_671());
    v
}

pub open spec fn codepoint_table_672() -> Seq<Codepoint> {
    seq![
        Codepoint { codepoint: 0x18C6D, name: "KHITAN SMALL SCRIPT CHARACTER-18C6D", aliases: &[] },
        Codepoint { codepoint: 0x18C6E, name: "KHITAN SMALL SCRIPT CHARACTER-18C6E", aliases: &[] },
        Codepoint { codepoint: 0x18C6F, name: "KHITAN SMALL SCRIPT CHARACTER-18C6F", aliases: &[] },
        Codepoint { codepoint: 0x18C70, name: "KHITAN SMALL SCRIPT CHARACTER-18C70", aliases: &[] },
        Codepoint { codepoint: 0x18C71, name: "KHITAN SMALL SCRIPT CHARACTER-18C71", aliases: &[] },
        Codepoint { codepoint: 0x18C72, name: "KHITAN SMALL SCRIPT CHARACTER-18C72", aliases: &[] },
        Codepoint { codepoint: 0x18C73, name: "KHITAN SMALL SCRIPT CHARACTER-18C73", aliases: &[] },
        Codepoint { codepoint: 0x18C74, name: "KHITAN SMALL SCRIPT CHARACTER-18C74", aliases: &[] },
        Codepoint { codepoint: 0x18C75, name: "KHITAN SMALL SCRIPT CHARACTER-18C75", aliases: &[] },
        Codepoint { codepoint: 0x18C76, name: "KHITAN SMALL SCRIPT CHARACTER-18C76", aliases: &[] },
        Codepoint { codepoint: 0x18C77, name: "KHITAN SMALL SCRIPT CHARACTER-18C77", aliases: &[] },
        Codepoint { codepoint: 0x18C78, name: "KHITAN SMALL SCRIPT CHARACTER-18C78", aliases: &[] },
        Codepoint { codepoint: 0x18C79, name: "KHITAN SMALL SCRIPT CHARACTER-18C79", aliases: &[] },
        Codepoint { codepoint: 0x18C7A, name: "KHITAN SMALL SCRIPT CHARACTER-18C7A", aliases: &[] },
        Codepoint { codepoint: 0x18C7B, name: "KHITAN SMALL SCRIPT CHARACTER-18C7B", aliases: &[] },
        Codepoint { codepoint: 0x18C7C, name: "KHITAN SMALL SCRIPT CHARACTER-18C7C", aliases: &[] },
        Codepoint { codepoint: 0x18C7D, name: "KHITAN SMALL SCRIPT CHARACTER-18C7D", aliases: &[] },
        Codepoint { codepoint: 0x18C7E, name: "KHITAN SMALL SCRIPT CHARACTER-18C7E", aliases: &[] },
        Codepoint { codepoint: 0x18C7F, name: "KHITAN SMALL SCRIPT CHARACTER-18C7F", aliases: &[] },
        Codepoint { codepoint: 0x18C80, name: "KHITAN SMALL SCRIPT CHARACTER-18C80", aliases: &[] },
        Codepoint { codepoint: 0x18C81, name: "KHITAN SMALL SCRIPT CHARACTER-18C81", aliases: &[] },
        Codepoint { codepoint: 0x18C82, name: "KHITAN SMALL SCRIPT CHARACTER-18C82", aliases: &[] },
        Codepoint { codepoint: 0x18C83, name: "KHITAN SMALL SCRIPT CHARACTER-18C83", aliases: &[] },
        Codepoint { codepoint: 0x18C84, name: "KHITAN SMALL SCRIPT CHARACTER-18C84", aliases: &[] },
        Codepoint { codepoint: 0x18C85, name: "KHITAN SMALL SCRIPT CHARACTER-18C85", aliases: &[] },
        Codepoint { codepoint: 0x18C86, name: "KHITAN SMALL SCRIPT CHARACTER-18C86", aliases: &[] },
        Codepoint { codepoint: 0x18C87, name: "KHITAN SMALL SCRIPT CHARACTER-18C87", aliases: &[] },
        Codepoint { codepoint: 0x18C88, name: "KHITAN SMALL SCRIPT CHARACTER-18C88", aliases: &[] },
        Codepoint { codepoint: 0x18C89, name: "KHITAN SMALL SCRIPT CHARACTER-18C89", aliases: &[] },
        Codepoint { codepoint: 0x18C8A, name: "KHITAN SMALL SCRIPT CHARACTER-18C8A", aliases: &[] },
        Codepoint { codepoint: 0x18C8B, name: "KHITAN SMALL SCRIPT CHARACTER-18C8B", aliases: &[] },
        Codepoint { codepoint: 0x18C8C, name: "KHITAN SMALL SCRIPT CHARACTER-18C8C", aliases: &[] },
        Codepoint { codepoint: 0x18C8D, name: "KHITAN SMALL SCRIPT CHARACTER-18C8D", aliases: &[] },
        Codepoint { codepoint: 0x18C8E, name: "KHITAN SMALL SCRIPT CHARACTER-18C8E", aliases: &[] },
        Codepoint { codepoint: 0x18C8F, name: "KHITAN SMALL SCRIPT CHARACTER-18C8F", aliases: &[] },
        Codepoint { codepoint: 0x18C90, name: "KHITAN SMALL SCRIPT CHARACTER-18C90", aliases: &[] },
        Codepoint { codepoint: 0x18C91, name: "KHITAN SMALL SCRIPT CHARACTER-18C91", aliases: &[] },
        Codepoint { codepoint: 0x18C92, name: "KHITAN SMALL SCRIPT CHARACTER-18C92", aliases: &[] },
        Codepoint { codepoint: 0x18C93, name: "KHITAN SMALL SCRIPT CHARACTER-18C93", aliases: &[] },
        Codepoint { codepoint: 0x18C94, name: "KHITAN SMALL SCRIPT CHARACTER-18C94", aliases: &[] },
    ]
}

fn all_codepoints_672() -> (v: Vec<Codepoint>)
    ensures
        v@ == codepoint_table_672(),
{
    let v = vec![
        Codepoint { codepoint: 0x18C6D, name: "KHITAN SMALL SCRIPT CHARACTER-18C6D", aliases: &[] },
        Codepoint { codepoint: 0x18C6E, name: "KHITAN SMALL SCRIPT CHARACTER-18C6E", aliases: &[] },
        Codepoint { codepoint: 0x18C6F, name: "KHITAN SMALL SCRIPT CHARACTER-18C6F", aliases: &[] },
        Codepoint { codepoint: 0x18C70, name: "KHITAN SMALL SCRIPT CHARACTER-18C70", aliases: &[] },
        Codepoint { codepoint: 0x18C71, name: "KHITAN SMALL SCRIPT CHARACTER-18C71", aliases: &[] },
        Codepoint { codepoint: 0x18C72, name: "KHITAN SMALL SCRIPT CHARACTER-18C72", aliases: &[] },
        Codepoint { codepoint: 0x18C73, name: "KHITAN SMALL SCRIPT CHARACTER-18C73", aliases: &[] },
        Codepoint { codepoint: 0x18C74, name: "KHITAN SMALL SCRIPT CHARACTER-18C74", aliases: &[] },
        Codepoint { codepoint: 0x18C75, name: "KHITAN SMALL SCRIPT CHARACTER-18C75", aliases: &[] },
        Codepoint { codepoint: 0x18C76, name: "KHITAN SMALL SCRIPT CHARACTER-18C76", aliases: &[] },
        Codepoint { codepoint: 0x18C77, name: "KHITAN SMALL SCRIPT CHARACTER-18C77", aliases: &[] },
        Codepoint { codepoint: 0x18C78, name: "KHITAN SMALL SCRIPT CHARACTER-18C78", aliases: &[] },
        Codepoint { codepoint: 0x18C79, name: "KHITAN SMALL SCRIPT CHARACTER-18C79", aliases: &[] },
        Codepoint { codepoint: 0x18C7A, name: "KHITAN SMALL SCRIPT CHARACTER-18C7A", aliases: &[] },
        Codepoint { codepoint: 0x18C7B, name: "KHITAN SMALL SCRIPT CHARACTER-18C7B", aliases: &[] },
        Codepoint { codepoint: 0x18C7C, name: "KHITAN SMALL SCRIPT CHARACTER-18C7C", aliases: &[] },
        Codepoint { codepoint: 0x18C7D, name: "KHITAN SMALL SCRIPT CHARACTER-18C7D", aliases: &[] },
        Codepoint { codepoint: 0x18C7E, name: "KHITAN SMALL SCRIPT CHARACTER-18C7E", aliases: &[] },
        Codepoint { codepoint: 0x18C7F, name: "KHITAN SMALL SCRIPT CHARACTER-18C7F", aliases: &[] },
        Codepoint { codepoint: 0x18C80, name: "KHITAN SMALL SCRIPT CHARACTER-18C80", aliases: &[] },
        Codepoint { codepoint: 0x18C81, name: "KHITAN SMALL SCRIPT CHARACTER-18C81", aliases: &[] },
        Codepoint { codepoint: 0x18C82, name: "KHITAN SMALL SCRIPT CHARACTER-18C82", aliases: &[] },
        Codepoint { codepoint: 0x18C83, name: "KHITAN SMALL SCRIPT CHARACTER-18C83", aliases: &[] },
        Codepoint { codepoint: 0x18C84, name: "KHITAN SMALL SCRIPT CHARACTER-18C84", aliases: &[] },
        Codepoint { codepoint: 0x18C85, name: "KHITAN SMALL SCRIPT CHARACTER-18C85", aliases: &[] },
        Codepoint { codepoint: 0x18C86, name: "KHITAN SMALL SCRIPT CHARACTER-18C86", aliases: &[] },
        Codepoint { codepoint: 0x18C87, name: "KHITAN SMALL SCRIPT CHARACTER-18C87", aliases: &[] },
        Codepoint { codepoint: 0x18C88, name: "KHITAN SMALL SCRIPT CHARACTER-18C88", aliases: &[] },
        Codepoint { codepoint: 0x18C89, name: "KHITAN SMALL SCRIPT CHARACTER-18C89", aliases: &[] },
        Codepoint { codepoint: 0x18C8A, name: "KHITAN SMALL SCRIPT CHARACTER-18C8A", aliases: &[] },
        Codepoint { codepoint: 0x18C8B, name: "KHITAN SMALL SCRIPT CHARACTER-18C8B", aliases: &[] },
        Codepoint { codepoint: 0x18C8C, name: "KHITAN SMALL SCRIPT CHARACTER-18C8C", aliases: &[] },
        Codepoint { codepoint: 0x18C8D, name: "KHITAN SMALL SCRIPT CHARACTER-18C8D", aliases: &[] },
        Codepoint { codepoint: 0x18C8E, name: "KHITAN SMALL SCRIPT CHARACTER-18C8E", aliases: &[] },
        Codepoint { codepoint: 0x18C8F, name: "KHITAN SMALL SCRIPT CHARACTER-18C8F", aliases: &[] },
        Codepoint { codepoint: 0x18C90, name: "KHITAN SMALL SCRIPT CHARACTER-18C90", aliases: &[] },
        Codepoint { codepoint: 0x18C91, name: "KHITAN SMALL SCRIPT CHARACTER-18C91", aliases: &[] },
        Codepoint { codepoint: 0x18C92, name: "KHITAN SMALL SCRIPT CHARACTER-18C92", aliases: &[] },
        Codepoint { codepoint: 0x18C93, name: "KHITAN SMALL SCRIPT CHARACTER-18C93", aliases: &[] },
        Codepoint { codepoint: 0x18C94, name: "KHITAN SMALL SCRIPT CHARACTER-18C94", aliases: &[] },
    ];
    assert(v@ =~= codepoint_table_672());
    v
}

pub open spec fn codepoint_table_673() -> Seq<Codepoint> {
    seq![
        Codepoint { codepoint: 0x18C95, name: "KHITAN SMALL SCRIPT CHARACTER-18C95", aliases: &[] },
        Codepoint { codepoint: 0x18C96, name: "KHITAN SMALL SCRIPT CHARACTER-18C96", aliases: &[] },
        Codepoint { codepoint: 0x18C97, name: "KHITAN SMALL SCRIPT CHARACTER-18C97", aliases: &[] },
        Codepoint { codepoint: 0x18C98, name: "KHITAN SMALL SCRIPT CHARACTER-18C98", aliases: &[] },
        Codepoint { codepoint: 0x18C99, name: "KHITAN SMALL SCRIPT CHARACTER-18C99", aliases: &[] },
        Codepoint { codepoint: 0x18C9A, name: "KHITAN SMALL SCRIPT CHARACTER-18C9A", aliases: &[] },
        Codepoint { codepoint: 0x18C9B, name: "KHITAN SMALL SCRIPT CHARACTER-18C9B", aliases: &[] },
        Codepoint { codepoint: 0x18C9C, name: "KHITAN SMALL SCRIPT CHARACTER-18C9C", aliases: &[] },
        Codepoint { codepoint: 0x18C9D, name: "KHITAN SMALL SCRIPT CHARACTER-18C9D", aliases: &[] },
        Codepoint { codepoint: 0x18C9E, name: "KHITAN SMALL SCRIPT CHARACTER-18C9E", aliases: &[] },
        Codepoint { codepoint: 0x18C9F, name: "KHITAN SMALL SCRIPT CHARACTER-18C9F", aliases: &[] },
        Codepoint { codepoint: 0x18CA0, name: "KHITAN SMALL SCRIPT CHARACTER-18CA0", aliases: &[] },
        Codepoint { codepoint: 0x18CA1, name: "KHITAN SMALL SCRIPT CHARACTER-18CA1", aliases: &[] },
        Codepoint { codepoint: 0x18CA2, name: "KHITAN SMALL SCRIPT CHARACTER-18CA2", aliases: &[] },
        Codepoint { codepoint: 0x18CA3, name: "KHITAN SMALL SCRIPT CHARACTER-18CA3", aliases: &[] },
        Codepoint { codepoint: 0x18CA4, name: "KHITAN SMALL SCRIPT CHARACTER-18CA4", aliases: &[] },
        Codepoint { codepoint: 0x18CA5, name: "KHITAN SMALL SCRIPT CHARACTER-18CA5", aliases: &[] },
        Codepoint { codepoint: 0x18CA6, name: "KHITAN SMALL SCRIPT CHARACTER-18CA6", aliases: &[] },
        Codepoint { codepoint: 0x18CA7, name: "KHITAN SMALL SCRIPT CHARACTER-18CA7", aliases: &[] },
        Codepoint { codepoint: 0x18CA8, name: "KHITAN SMALL SCRIPT CHARACTER-18CA8", aliases: &[] },
        Codepoint { codepoint: 0x18CA9, name: "KHITAN SMALL SCRIPT CHARACTER-18CA9", aliases: &[] },
        Codepoint { codepoint: 0x18CAA, name: "KHITAN SMALL SCRIPT CHARACTER-18CAA", aliases: &[] },
        Codepoint { codepoint: 0x18CAB, name: "KHITAN SMALL SCRIPT CHARACTER-18CAB", aliases: &[] },
        Codepoint { codepoint: 0x18CAC, name: "KHITAN SMALL SCRIPT CHARACTER-18CAC", aliases: &[] },
        Codepoint { codepoint: 0x18CAD, name: "KHITAN SMALL SCRIPT CHARACTER-18CAD", aliases: &[] },
        Codepoint { codepoint: 0x18CAE, name: "KHITAN SMALL SCRIPT CHARACTER-18CAE", aliases: &[] },
        Codepoint { codepoint: 0x18CAF, name: "KHITAN SMALL SCRIPT CHARACTER-18CAF", aliases: &[] },
        Codepoint { codepoint: 0x18CB0, name: "KHITAN SMALL SCRIPT CHARACTER-18CB0", aliases: &[] },
        Codepoint { codepoint: 0x18CB1, name: "KHITAN SMALL SCRIPT CHARACTER-18CB1", aliases: &[] },
        Codepoint { codepoint: 0x18CB2, name: "KHITAN SMALL SCRIPT CHARACTER-18CB2", aliases: &[] },
        Codepoint { codepoint: 0x18CB3, name: "KHITAN SMALL SCRIPT CHARACTER-18CB3", aliases: &[] },
        Codepoint { codepoint: 0x18CB4, name: "KHITAN SMALL SCRIPT CHARACTER-18CB4", aliases: &[] },
        Codepoint { codepoint: 0x18CB5, name: "KHITAN SMALL SCRIPT CHARACTER-18CB5", aliases: &[] },
        Codepoint { codepoint: 0x18CB6, name: "KHITAN SMALL SCRIPT CHARACTER-18CB6", aliases: &[] },
        Codepoint { codepoint: 0x18CB7, name: "KHITAN SMALL SCRIPT CHARACTER-18CB7", aliases: &[] },
        Codepoint { codepoint: 0x18CB8, name: "KHITAN SMALL SCRIPT CHARACTER-18CB8", aliases: &[] },
        Codepoint { codepoint: 0x18CB9, name: "KHITAN SMALL SCRIPT CHARACTER-18CB9", aliases: &[] },
        Codepoint { codepoint: 0x18CBA, name: "KHITAN SMALL SCRIPT CHARACTER-18CBA", aliases: &[] },
        Codepoint { codepoint: 0x18CBB, name: "KHITAN SMALL SCRIPT CHARACTER-18CBB", aliases: &[] },
        Codepoint { codepoint: 0x18CBC, name: "KHITAN SMALL SCRIPT CHARACTER-18CBC", aliases: &[] },
    ]
}

fn all_codepoints_673() -> (v: Vec<Codepoint>)
    ensures
        v@ == codepoint_table_673(),
{
    let v = vec![
        Codepoint { codepoint: 0x18C95, name: "KHITAN SMALL SCRIPT CHARACTER-18C95", aliases: &[] },
        Codepoint { codepoint: 0x18C96, name: "KHITAN SMALL SCRIPT CHARACTER-18C96", aliases: &[] },
        Codepoint { codepoint: 0x18C97, name: "KHITAN SMALL SCRIPT CHARACTER-18C97", aliases: &[] },
        Codepoint { codepoint: 0x18C98, name: "KHITAN SMALL SCRIPT CHARACTER-18C98", aliases: &[] },
        Codepoint { codepoint: 0x18C99, name: "KHITAN SMALL SCRIPT CHARACTER-18C99", aliases: &[] },
        Codepoint { codepoint: 0x18C9A, name: "KHITAN SMALL SCRIPT CHARACTER-18C9A", aliases: &[] },
        Codepoint { codepoint: 0x18C9B, name: "KHITAN SMALL SCRIPT CHARACTER-18C9B", aliases: &[] },
        Codepoint { codepoint: 0x18C9C, name: "KHITAN SMALL SCRIPT CHARACTER-18C9C", aliases: &[] },
        Codepoint { codepoint: 0x18C9D, name: "KHITAN SMALL SCRIPT CHARACTER-18C9D", aliases: &[] },
        Codepoint { codepoint: 0x18C9E, name: "KHITAN SMALL SCRIPT CHARACTER-18C9E", aliases: &[] },
        Codepoint { codepoint: 0x18C9F, name: "KHITAN SMALL SCRIPT CHARACTER-18C9F", aliases: &[] },
        Codepoint { codepoint: 0x18CA0, name: "KHITAN SMALL SCRIPT CHARACTER-18CA0", aliases: &[] },
        Codepoint { codepoint: 0x18CA1, name: "KHITAN SMALL SCRIPT CHARACTER-18CA1", aliases: &[] },
        Codepoint { codepoint: 0x18CA2, name: "KHITAN SMALL SCRIPT CHARACTER-18CA2", aliases: &[] },
        Codepoint { codepoint: 0x18CA3, name: "KHITAN SMALL SCRIPT CHARACTER-18CA3", aliases: &[] },
        Codepoint { codepoint: 0x18CA4, name: "KHITAN SMALL SCRIPT CHARACTER-18CA4", aliases: &[] },
        Codepoint { codepoint: 0x18CA5, name: "KHITAN SMALL SCRIPT CHARACTER-18CA5", aliases: &[] },
        Codepoint { codepoint: 0x18CA6, name: "KHITAN SMALL SCRIPT CHARACTER-18CA6", aliases: &[] },
        Codepoint { codepoint: 0x18CA7, name: "KHITAN SMALL SCRIPT CHARACTER-18CA7", aliases: &[] },
        Codepoint { codepoint: 0x18CA8, name: "KHITAN SMALL SCRIPT CHARACTER-18CA8", aliases: &[] },
        Codepoint { codepoint: 0x18CA9, name: "KHITAN SMALL SCRIPT CHARACTER-18CA9", aliases: &[] },
        Codepoint { codepoint: 0x18CAA, name: "KHITAN SMALL SCRIPT CHARACTER-18CAA", aliases: &[] },
        Codepoint { codepoint: 0x18CAB, name: "KHITAN SMALL SCRIPT CHARACTER-18CAB", aliases: &[] },
        Codepoint { codepoint: 0x18CAC, name: "KHITAN SMALL SCRIPT CHARACTER-18CAC", aliases: &[] },
        Codepoint { codepoint: 0x18CAD, name: "KHITAN SMALL SCRIPT CHARACTER-18CAD", aliases: &[] },
        Codepoint { codepoint: 0x18CAE, name: "KHITAN SMALL SCRIPT CHARACTER-18CAE", aliases: &[] },
        Codepoint { codepoint: 0x18CAF, name: "KHITAN SMALL SCRIPT CHARACTER-18CAF", aliases: &[] },
        Codepoint { codepoint: 0x18CB0, name: "KHITAN SMALL SCRIPT CHARACTER-18CB0", aliases: &[] },
        Codepoint { codepoint: 0x18CB1, name: "KHITAN SMALL SCRIPT CHARACTER-18CB1", aliases: &[] },
        Codepoint { codepoint: 0x18CB2, name: "KHITAN SMALL SCRIPT CHARACTER-18CB2", aliases: &[] },
        Codepoint { codepoint: 0x18CB3, name: "KHITAN SMALL SCRIPT CHARACTER-18CB3", aliases: &[] },
        Codepoint { codepoint: 0x18CB4, name: "KHITAN SMALL SCRIPT CHARACTER-18CB4", aliases: &[] },
        Codepoint { codepoint: 0x18CB5, name: "KHITAN SMALL SCRIPT CHARACTER-18CB5", aliases: &[] },
        Codepoint { codepoint: 0x18CB6, name: "KHITAN SMALL SCRIPT CHARACTER-18CB6", aliases: &[] },
        Codepoint { codepoint: 0x18CB7, name: "KHITAN SMALL SCRIPT CHARACTER-18CB7", aliases: &[] },
        Codepoint { codepoint: 0x18CB8, name: "KHITAN SMALL SCRIPT CHARACTER-18CB8", aliases: &[] },
        Codepoint { codepoint: 0x18CB9, name: "KHITAN SMALL SCRIPT CHARACTER-18CB9", aliases: &[] },
        Codepoint { codepoint: 0x18CBA, name: "KHITAN SMALL SCRIPT CHARACTER-18CBA", aliases: &[] },
        Codepoint { codepoint: 0x18CBB, name: "KHITAN SMALL SCRIPT CHARACTER-18CBB", aliases: &[] },
        Codepoint { codepoint: 0x18CBC, name: "KHITAN SMALL SCRIPT CHARACTER-18CBC", aliases: &[] },
    ];
    assert(v@ =~= codepoint_table_673());
    v
}

pub open spec fn codepoint_table_674() -> Seq<Codepoint> {
    seq![
        Codepoint { codepoint: 0x18CBD, name: "KHITAN SMALL SCRIPT CHARACTER-18CBD", aliases: &[] },
        Codepoint { codepoint: 0x18CBE, name: "KHITAN SMALL SCRIPT CHARACTER-18CBE", aliases: &[] },
        Codepoint { codepoint: 0x18CBF, name: "KHITAN SMALL SCRIPT CHARACTER-18CBF", aliases: &[] },
        Codepoint { codepoint: 0x18CC0, name: "KHITAN SMALL SCRIPT CHARACTER-18CC0", aliases: &[] },
        Codepoint { codepoint: 0x18CC1, name: "KHITAN SMALL SCRIPT CHARACTER-18CC1", aliases: &[] },
        Codepoint { codepoint: 0x18CC2, name: "KHITAN SMALL SCRIPT CHARACTER-18CC2", aliases: &[] },
        Codepoint { codepoint: 0x18CC3, name: "KHITAN SMALL SCRIPT CHARACTER-18CC3", aliases: &[] },
        Codepoint { codepoint: 0x18CC4, name: "KHITAN SMALL SCRIPT CHARACTER-18CC4", aliases: &[] },
        Codepoint { codepoint: 0x18CC5, name: "KHITAN SMALL SCRIPT CHARACTER-18CC5", aliases: &[] },
        Codepoint { codepoint: 0x18CC6, name: "KHITAN SMALL SCRIPT CHARACTER-18CC6", aliases: &[] },
        Codepoint { codepoint: 0x18CC7, name: "KHITAN SMALL SCRIPT CHARACTER-18CC7", aliases: &[] },
        Codepoint { codepoint: 0x18CC8, name: "KHITAN SMALL SCRIPT CHARACTER-18CC8", aliases: &[] },
        Codepoint { codepoint: 0x18CC9, name: "KHITAN SMALL SCRIPT CHARACTER-18CC9", aliases: &[] },
        Codepoint { codepoint: 0x18CCA, name: "KHITAN SMALL SCRIPT CHARACTER-18CCA", aliases: &[] },
        Codepoint { codepoint: 0x18CCB, name: "KHITAN SMALL SCRIPT CHARACTER-18CCB", aliases: &[] },
        Codepoint { codepoint: 0x18CCC, name: "KHITAN SMALL SCRIPT CHARACTER-18CCC", aliases: &[] },
        Codepoint { codepoint: 0x18CCD, name: "KHITAN SMALL SCRIPT CHARACTER-18CCD", aliases: &[] },
        Codepoint { codepoint: 0x18CCE, name: "KHITAN SMALL SCRIPT CHARACTER-18CCE", aliases: &[] },
        Codepoint { codepoint: 0x18CCF, name: "KHITAN SMALL SCRIPT CHARACTER-18CCF", aliases: &[] },
        Codepoint { codepoint: 0x18CD0, name: "KHITAN SMALL SCRIPT CHARACTER-18CD0", aliases: &[] },
        Codepoint { codepoint: 0x18CD1, name: "KHITAN SMALL SCRIPT CHARACTER-18CD1", aliases: &[] },
        Codepoint { codepoint: 0x18CD2, name: "KHITAN SMALL SCRIPT CHARACTER-18CD2", aliases: &[] },
        Codepoint { codepoint: 0x18CD3, name: "KHITAN SMALL SCRIPT CHARACTER-18CD3", aliases: &[] },
        Codepoint { codepoint: 0x18CD4, name: "KHITAN SMALL SCRIPT CHARACTER-18CD4", aliases: &[] },
        Codepoint { codepoint: 0x18CD5, name: "KHITAN SMALL SCRIPT CHARACTER-18CD5", aliases: &[] },
        Codepoint { codepoint: 0x18D00, name: "<Tangut Ideograph Supplement, First>", aliases: &[] },
        Codepoint { codepoint: 0x18D08, name: "<Tangut Ideograph Supplement, Last>", aliases: &[] },
        Codepoint { codepoint: 0x1AFF0, name: "KATAKANA LETTER MINNAN TONE-2", aliases: &[] },
        Codepoint { codepoint: 0x1AFF1, name: "KATAKANA LETTER MINNAN TONE-3", aliases: &[] },
        Codepoint { codepoint: 0x1AFF2, name: "KATAKANA LETTER MINNAN TONE-4", aliases: &[] },
        Codepoint { codepoint: 0x1AFF3, name: "KATAKANA LETTER MINNAN TONE-5", aliases: &[] },
        Codepoint { codepoint: 0x1AFF5, name: "KATAKANA LETTER MINNAN TONE-7", aliases: &[] },
        Codepoint { codepoint: 0x1AFF6, name: "KATAKANA LETTER MINNAN TONE-8", aliases: &[] },
        Codepoint { codepoint: 0x1AFF7, name: "KATAKANA LETTER MINNAN NASALIZED TONE-1", aliases: &[] },
        Codepoint { codepoint: 0x1AFF8, name: "KATAKANA LETTER MINNAN NASALIZED TONE-2", aliases: &[] },
        Codepoint { codepoint: 0x1AFF9, name: "KATAKANA LETTER MINNAN NASALIZED TONE-3", aliases: &[] },
        Codepoint { codepoint: 0x1AFFA, name: "KATAKANA LETTER MINNAN NASALIZED TONE-4", aliases: &[] },
        Codepoint { codepoint: 0x1AFFB, name: "KATAKANA LETTER MINNAN NASALIZED TONE-5", aliases: &[] },
        Codepoint { codepoint: 0x1AFFD, name: "KATAKANA LETTER MINNAN NASALIZED TONE-7", aliases: &[] },
        Codepoint { codepoint: 0x1AFFE, name: "KATAKANA LETTER MINNAN NASALIZED TONE-8", aliases: &[] },
    ]
}

fn all_codepoints_674() -> (v: Vec<Codepoint>)
    ensures
        v@ == codepoint_table_674(),
{
    let v = vec![
        Codepoint { codepoint: 0x18CBD, name: "KHITAN SMALL SCRIPT CHARACTER-18CBD", aliases: &[] },
        Codepoint { codepoint: 0x18CBE, name: "KHITAN SMALL SCRIPT CHARACTER-18CBE", aliases: &[] },
        Codepoint { codepoint: 0x18CBF, name: "KHITAN SMALL SCRIPT CHARACTER-18CBF", aliases: &[] },
        Codepoint { codepoint: 0x18CC0, name: "KHITAN SMALL SCRIPT CHARACTER-18CC0", aliases: &[] },
        Codepoint { codepoint: 0x18CC1, name: "KHITAN SMALL SCRIPT CHARACTER-18CC1", aliases: &[] },
        Codepoint { codepoint: 0x18CC2, name: "KHITAN SMALL SCRIPT CHARACTER-18CC2", aliases: &[] },
        Codepoint { codepoint: 0x18CC3, name: "KHITAN SMALL SCRIPT CHARACTER-18CC3", aliases: &[] },
        Codepoint { codepoint: 0x18CC4, name: "KHITAN SMALL SCRIPT CHARACTER-18CC4", aliases: &[] },
        Codepoint { codepoint: 0x18CC5, name: "KHITAN SMALL SCRIPT CHARACTER-18CC5", aliases: &[] },
        Codepoint { codepoint: 0x18CC6, name: "KHITAN SMALL SCRIPT CHARACTER-18CC6", aliases: &[] },
        Codepoint { codepoint: 0x18CC7, name: "KHITAN SMALL SCRIPT CHARACTER-18CC7", aliases: &[] },
        Codepoint { codepoint: 0x18CC8, name: "KHITAN SMALL SCRIPT CHARACTER-18CC8", aliases: &[] },
        Codepoint { codepoint: 0x18CC9, name: "KHITAN SMALL SCRIPT CHARACTER-18CC9", aliases: &[] },
        Codepoint { codepoint: 0x18CCA, name: "KHITAN SMALL SCRIPT CHARACTER-18CCA", aliases: &[] },
        Codepoint { codepoint: 0x18CCB, name: "KHITAN SMALL SCRIPT CHARACTER-18CCB", aliases: &[] },
        Codepoint { codepoint: 0x18CCC, name: "KHITAN SMALL SCRIPT CHARACTER-18CCC", aliases: &[] },
        Codepoint { codepoint: 0x18CCD, name: "KHITAN SMALL SCRIPT CHARACTER-18CCD", aliases: &[] },
        Codepoint { codepoint: 0x18CCE, name: "KHITAN SMALL SCRIPT CHARACTER-18CCE", aliases: &[] },
        Codepoint { codepoint: 0x18CCF, name: "KHITAN SMALL SCRIPT CHARACTER-18CCF", aliases: &[] },
        Codepoint { codepoint: 0x18CD0, name: "KHITAN SMALL SCRIPT CHARACTER-18CD0", aliases: &[] },
        Codepoint { codepoint: 0x18CD1, name: "KHITAN SMALL SCRIPT CHARACTER-18CD1", aliases: &[] },
        Codepoint { codepoint: 0x18CD2, name: "KHITAN SMALL SCRIPT CHARACTER-18CD2", aliases: &[] },
        Codepoint { codepoint: 0x18CD3, name: "KHITAN SMALL SCRIPT CHARACTER-18CD3", aliases: &[] },
        Codepoint { codepoint: 0x18CD4, name: "KHITAN SMALL SCRIPT CHARACTER-18CD4", aliases: &[] },
        Codepoint { codepoint: 0x18CD5, name: "KHITAN SMALL SCRIPT CHARACTER-18CD5", aliases: &[] },
        Codepoint { codepoint: 0x18D00, name: "<Tangut Ideograph Supplement, First>", aliases: &[] },
        Codepoint { codepoint: 0x18D08, name: "<Tangut Ideograph Supplement, Last>", aliases: &[] },
        Codepoint { codepoint: 0x1AFF0, name: "KATAKANA LETTER MINNAN TONE-2", aliases: &[] },
        Codepoint { codepoint: 0x1AFF1, name: "KATAKANA LETTER MINNAN TONE-3", aliases: &[] },
        Codepoint { codepoint: 0x1AFF2, name: "KATAKANA LETTER MINNAN TONE-4", aliases: &[] },
        Codepoint { codepoint: 0x1AFF3, name: "KATAKANA LETTER MINNAN TONE-5", aliases: &[] },
        Codepoint { codepoint: 0x1AFF5, name: "KATAKANA LETTER MINNAN TONE-7", aliases: &[] },
        Codepoint { codepoint: 0x1AFF6, name: "KATAKANA LETTER MINNAN TONE-8", aliases: &[] },
        Codepoint { codepoint: 0x1AFF7, name: "KATAKANA LETTER MINNAN NASALIZED TONE-1", aliases: &[] },
        Codepoint { codepoint: 0x1AFF8, name: "KATAKANA LETTER MINNAN NASALIZED TONE-2", aliases: &[] },
        Codepoint { codepoint: 0x1AFF9, name: "KATAKANA LETTER MINNAN NASALIZED TONE-3", aliases: &[] },
        Codepoint { codepoint: 0x1AFFA, name: "KATAKANA LETTER MINNAN NASALIZED TONE-4", aliases: &[] },
        Codepoint { codepoint: 0x1AFFB, name: "KATAKANA LETTER MINNAN NASALIZED TONE-5", aliases: &[] },
        Codepoint { codepoint: 0x1AFFD, name: "KATAKANA LETTER MINNAN NASALIZED TONE-7", aliases: &[] },
        Codepoint { codepoint: 0x1AFFE, name: "KATAKANA LETTER MINNAN NASALIZED TONE-8", aliases: &[] },
    ];
    assert(v@ =~= codepoint_table_674());
    v
}

pub open spec fn codepoint_table_675() -> Seq<Codepoint> {
    seq![
        Codepoint { codepoint: 0x1B000, name: "KATAKANA LETTER ARCHAIC E", aliases: &[] },
        Codepoint { codepoint: 0x1B001, name: "HIRAGANA LETTER ARCHAIC YE", aliases: &[] },
        Codepoint { codepoint: 0x1B002, name: "HENTAIGANA LETTER A-1", aliases: &[] },
        Codepoint { codepoint: 0x1B003, name: "HENTAIGANA LETTER A-2", aliases: &[] },
        Codepoint { codepoint: 0x1B004, name: "HENTAIGANA LETTER A-3", aliases: &[] },
        Codepoint { codepoint: 0x1B005, name: "HENTAIGANA LETTER A-WO", aliases: &[] },
        Codepoint { codepoint: 0x1B006, name: "HENTAIGANA LETTER I-1", aliases: &[] },
        Codepoint { codepoint: 0x1B007, name: "HENTAIGANA LETTER I-2", aliases: &[] },
        Codepoint { codepoint: 0x1B008, name: "HENTAIGANA LETTER I-3", aliases: &[] },
        Codepoint { codepoint: 0x1B009, name: "HENTAIGANA LETTER I-4", aliases: &[] },
        Codepoint { codepoint: 0x1B00A, name: "HENTAIGANA LETTER U-1", aliases: &[] },
        Codepoint { codepoint: 0x1B00B, name: "HENTAIGANA LETTER U-2", aliases: &[] },
        Codepoint { codepoint: 0x1B00C, name: "HENTAIGANA LETTER U-3", aliases: &[] },
        Codepoint { codepoint: 0x1B00D, name: "HENTAIGANA LETTER U-4", aliases: &[] },
        Codepoint { codepoint: 0x1B00E, name: "HENTAIGANA LETTER U-5", aliases: &[] },
        Codepoint { codepoint: 0x1B00F, name: "HENTAIGANA LETTER E-2", aliases: &[] },
        Codepoint { codepoint: 0x1B010, name: "HENTAIGANA LETTER E-3", aliases: &[] },
        Codepoint { codepoint: 0x1B011, name: "HENTAIGANA LETTER E-4", aliases: &[] },
        Codepoint { codepoint: 0x1B012, name: "HENTAIGANA LETTER E-5", aliases: &[] },
        Codepoint { codepoint: 0x1B013, name: "HENTAIGANA LETTER E-6", aliases: &[] },
        Codepoint { codepoint: 0x1B014, name: "HENTAIGANA LETTER O-1", aliases: &[] },
        Codepoint { codepoint: 0x1B015, name: "HENTAIGANA LETTER O-2", aliases: &[] },
        Codepoint { codepoint: 0x1B016, name: "HENTAIGANA LETTER O-3", aliases: &[] },
        Codepoint { codepoint: 0x1B017, name: "HENTAIGANA LETTER KA-1", aliases: &[] },
        Codepoint { codepoint: 0x1B018, name: "HENTAIGANA LETTER KA-2", aliases: &[] },
        Codepoint { codepoint: 0x1B019, name: "HENTAIGANA LETTER KA-3", aliases: &[] },
        Codepoint { codepoint: 0x1B01A, name: "HENTAIGANA LETTER KA-4", aliases: &[] },
        Codepoint { codepoint: 0x1B01B, name: "HENTAIGANA LETTER KA-5", aliases: &[] },
        Codepoint { codepoint: 0x1B01C, name: "HENTAIGANA LETTER KA-6", aliases: &[] },
        Codepoint { codepoint: 0x1B01D, name: "HENTAIGANA LETTER KA-7", aliases: &[] },
        Codepoint { codepoint: 0x1B01E, name: "HENTAIGANA LETTER KA-8", aliases: &[] },
        Codepoint { codepoint: 0x1B01F, name: "HENTAIGANA LETTER KA-9", aliases: &[] },
        Codepoint { codepoint: 0x1B020, name: "HENTAIGANA LETTER KA-10", aliases: &[] },
        Codepoint { codepoint: 0x1B021, name: "HENTAIGANA LETTER KA-11", aliases: &[] },
        Codepoint { codepoint: 0x1B022, name: "HENTAIGANA LETTER KA-KE", aliases: &[] },
        Codepoint { codepoint: 0x1B023, name: "HENTAIGANA LETTER KI-1", aliases: &[] },
        Codepoint { codepoint: 0x1B024, name: "HENTAIGANA LETTER KI-2", aliases: &[] },
        Codepoint { codepoint: 0x1B025, name: "HENTAIGANA LETTER KI-3", aliases: &[] },
        Codepoint { codepoint: 0x1B026, name: "HENTAIGANA LETTER KI-4", aliases: &[] },
        Codepoint { codepoint: 0x1B027, name: "HENTAIGANA LETTER KI-5", aliases: &[] },
    ]
}

fn all_codepoints_675() -> (v: Vec<Codepoint>)
    ensures
        v@ == codepoint_table_675(),
{
    let v = vec![
        Codepoint { codepoint: 0x1B000, name: "KATAKANA LETTER ARCHAIC E", aliases: &[] },
        Codepoint { codepoint: 0x1B001, name: "HIRAGANA LETTER ARCHAIC YE", aliases: &[] },
        Codepoint { codepoint: 0x1B002, name: "HENTAIGANA LETTER A-1", aliases: &[] },
        Codepoint { codepoint: 0x1B003, name: "HENTAIGANA LETTER A-2", aliases: &[] },
        Codepoint { codepoint: 0x1B004, name: "HENTAIGANA LETTER A-3", aliases: &[] },
        Codepoint { codepoint: 0x1B005, name: "HENTAIGANA LETTER A-WO", aliases: &[] },
        Codepoint { codepoint: 0x1B006, name: "HENTAIGANA LETTER I-1", aliases: &[] },
        Codepoint { codepoint: 0x1B007, name: "HENTAIGANA LETTER I-2", aliases: &[] },
        Codepoint { codepoint: 0x1B008, name: "HENTAIGANA LETTER I-3", aliases: &[] },
        Codepoint { codepoint: 0x1B009, name: "HENTAIGANA LETTER I-4", aliases: &[] },
        Codepoint { codepoint: 0x1B00A, name: "HENTAIGANA LETTER U-1", aliases: &[] },
        Codepoint { codepoint: 0x1B00B, name: "HENTAIGANA LETTER U-2", aliases: &[] },
        Codepoint { codepoint: 0x1B00C, name: "HENTAIGANA LETTER U-3", aliases: &[] },
        Codepoint { codepoint: 0x1B00D, name: "HENTAIGANA LETTER U-4", aliases: &[] },
        Codepoint { codepoint: 0x1B00E, name: "HENTAIGANA LETTER U-5", aliases: &[] },
        Codepoint { codepoint: 0x1B00F, name: "HENTAIGANA LETTER E-2", aliases: &[] },
        Codepoint { codepoint: 0x1B010, name: "HENTAIGANA LETTER E-3", aliases: &[] },
        Codepoint { codepoint: 0x1B011, name: "HENTAIGANA LETTER E-4", aliases: &[] },
        Codepoint { codepoint: 0x1B012, name: "HENTAIGANA LETTER E-5", aliases: &[] },
        Codepoint { codepoint: 0x1B013, name: "HENTAIGANA LETTER E-6", aliases: &[] },
        Codepoint { codepoint: 0x1B014, name: "HENTAIGANA LETTER O-1", aliases: &[] },
        Codepoint { codepoint: 0x1B015, name: "HENTAIGANA LETTER O-2", aliases: &[] },
        Codepoint { codepoint: 0x1B016, name: "HENTAIGANA LETTER O-3", aliases: &[] },
        Codepoint { codepoint: 0x1B017, name: "HENTAIGANA LETTER KA-1", aliases: &[] },
        Codepoint { codepoint: 0x1B018, name: "HENTAIGANA LETTER KA-2", aliases: &[] },
        Codepoint { codepoint: 0x1B019, name: "HENTAIGANA LETTER KA-3", aliases: &[] },
        Codepoint { codepoint: 0x1B01A, name: "HENTAIGANA LETTER KA-4", aliases: &[] },
        Codepoint { codepoint: 0x1B01B, name: "HENTAIGANA LETTER KA-5", aliases: &[] },
        Codepoint { codepoint: 0x1B01C, name: "HENTAIGANA LETTER KA-6", aliases: &[] },
        Codepoint { codepoint: 0x1B01D, name: "HENTAIGANA LETTER KA-7", aliases: &[] },
        Codepoint { codepoint: 0x1B01E, name: "HENTAIGANA LETTER KA-8", aliases: &[] },
        Codepoint { codepoint: 0x1B01F, name: "HENTAIGANA LETTER KA-9", aliases: &[] },
        Codepoint { codepoint: 0x1B020, name: "HENTAIGANA LETTER KA-10", aliases: &[] },
        Codepoint { codepoint: 0x1B021, name: "HENTAIGANA LETTER KA-11", aliases: &[] },
        Codepoint { codepoint: 0x1B022, name: "HENTAIGANA LETTER KA-KE", aliases: &[] },
        Codepoint { codepoint: 0x1B023, name: "HENTAIGANA LETTER KI-1", aliases: &[] },
        Codepoint { codepoint: 0x1B024, name: "HENTAIGANA LETTER KI-2", aliases: &[] },
        Codepoint { codepoint: 0x1B025, name: "HENTAIGANA LETTER KI-3", aliases: &[] },
        Codepoint { codepoint: 0x1B026, name: "HENTAIGANA LETTER KI-4", aliases: &[] },
        Codepoint { codepoint: 0x1B027, name: "HENTAIGANA LETTER KI-5", aliases: &[] },
    ];
    assert(v@ =~= codepoint_table_675());
    v
}

pub open spec fn codepoint_table_676() -> Seq<Codepoint> {
    seq![
        Codepoint { codepoint: 0x1B028, name: "HENTAIGANA LETTER KI-6", aliases: &[] },
        Codepoint { codepoint: 0x1B029, name: "HENTAIGANA LETTER KI-7", aliases: &[] },
        Codepoint { codepoint: 0x1B02A, name: "HENTAIGANA LETTER KI-8", aliases: &[] },
        Codepoint { codepoint: 0x1B02B, name: "HENTAIGANA LETTER KU-1", aliases: &[] },
        Codepoint { codepoint: 0x1B02C, name: "HENTAIGANA LETTER KU-2", aliases: &[] },
        Codepoint { codepoint: 0x1B02D, name: "HENTAIGANA LETTER KU-3", aliases: &[] },
        Codepoint { codepoint: 0x1B02E, name: "HENTAIGANA LETTER KU-4", aliases: &[] },
        Codepoint { codepoint: 0x1B02F, name: "HENTAIGANA LETTER KU-5", aliases: &[] },
        Codepoint { codepoint: 0x1B030, name: "HENTAIGANA LETTER KU-6", aliases: &[] },
        Codepoint { codepoint: 0x1B031, name: "HENTAIGANA LETTER KU-7", aliases: &[] },
        Codepoint { codepoint: 0x1B032, name: "HENTAIGANA LETTER KE-1", aliases: &[] },
        Codepoint { codepoint: 0x1B033, name: "HENTAIGANA LETTER KE-2", aliases: &[] },
        Codepoint { codepoint: 0x1B034, name: "HENTAIGANA LETTER KE-3", aliases: &[] },
        Codepoint { codepoint: 0x1B035, name: "HENTAIGANA LETTER KE-4", aliases: &[] },
        Codepoint { codepoint: 0x1B036, name: "HENTAIGANA LETTER KE-5", aliases: &[] },
        Codepoint { codepoint: 0x1B037, name: "HENTAIGANA LETTER KE-6", aliases: &[] },
        Codepoint { codepoint: 0x1B038, name: "HENTAIGANA LETTER KO-1", aliases: &[] },
        Codepoint { codepoint: 0x1B039, name: "HENTAIGANA LETTER KO-2", aliases: &[] },
        Codepoint { codepoint: 0x1B03A, name: "HENTAIGANA LETTER KO-3", aliases: &[] },
        Codepoint { codepoint: 0x1B03B, name: "HENTAIGANA LETTER KO-KI", aliases: &[] },
        Codepoint { codepoint: 0x1B03C, name: "HENTAIGANA LETTER SA-1", aliases: &[] },
        Codepoint { codepoint: 0x1B03D, name: "HENTAIGANA LETTER SA-2", aliases: &[] },
        Codepoint { codepoint: 0x1B03E, name: "HENTAIGANA LETTER SA-3", aliases: &[] },
        Codepoint { codepoint: 0x1B03F, name: "HENTAIGANA LETTER SA-4", aliases: &[] },
        Codepoint { codepoint: 0x1B040, name: "HENTAIGANA LETTER SA-5", aliases: &[] },
        Codepoint { codepoint: 0x1B041, name: "HENTAIGANA LETTER SA-6", aliases: &[] },
        Codepoint { codepoint: 0x1B042, name: "HENTAIGANA LETTER SA-7", aliases: &[] },
        Codepoint { codepoint: 0x1B043, name: "HENTAIGANA LETTER SA-8", aliases: &[] },
        Codepoint { codepoint: 0x1B044, name: "HENTAIGANA LETTER SI-1", aliases: &[] },
        Codepoint { codepoint: 0x1B045, name: "HENTAIGANA LETTER SI-2", aliases: &[] },
        Codepoint { codepoint: 0x1B046, name: "HENTAIGANA LETTER SI-3", aliases: &[] },
        Codepoint { codepoint: 0x1B047, name: "HENTAIGANA LETTER SI-4", aliases: &[] },
        Codepoint { codepoint: 0x1B048, name: "HENTAIGANA LETTER SI-5", aliases: &[] },
        Codepoint { codepoint: 0x1B049, name: "HENTAIGANA LETTER SI-6", aliases: &[] },
        Codepoint { codepoint: 0x1B04A, name: "HENTAIGANA LETTER SU-1", aliases: &[] },
        Codepoint { codepoint: 0x1B04B, name: "HENTAIGANA LETTER SU-2", aliases: &[] },
        Codepoint { codepoint: 0x1B04C, name: "HENTAIGANA LETTER SU-3", aliases: &[] },
        Codepoint { codepoint: 0x1B04D, name: "HENTAIGANA LETTER SU-4", aliases: &[] },
        Codepoint { codepoint: 0x1B04E, name: "HENTAIGANA LETTER SU-5", aliases: &[] },
        Codepoint { codepoint: 0x1B04F, name: "HENTAIGANA LETTER SU-6", aliases: &[] },
    ]
}

fn all_codepoints_676() -> (v: Vec<Codepoint>)
    ensures
        v@ == codepoint_table_676(),
{
    let v = vec![
        Codepoint { codepoint: 0x1B028, name: "HENTAIGANA LETTER KI-6", aliases: &[] },
        Codepoint { codepoint: 0x1B029, name: "HENTAIGANA LETTER KI-7", aliases: &[] },
        Codepoint { codepoint: 0x1B02A, name: "HENTAIGANA LETTER KI-8", aliases: &[] },
        Codepoint { codepoint: 0x1B02B, name: "HENTAIGANA LETTER KU-1", aliases: &[] },
        Codepoint { codepoint: 0x1B02C, name: "HENTAIGANA LETTER KU-2", aliases: &[] },
        Codepoint { codepoint: 0x1B02D, name: "HENTAIGANA LETTER KU-3", aliases: &[] },
        Codepoint { codepoint: 0x1B02E, name: "HENTAIGANA LETTER KU-4", aliases: &[] },
        Codepoint { codepoint: 0x1B02F, name: "HENTAIGANA LETTER KU-5", aliases: &[] },
        Codepoint { codepoint: 0x1B030, name: "HENTAIGANA LETTER KU-6", aliases: &[] },
        Codepoint { codepoint: 0x1B031, name: "HENTAIGANA LETTER KU-7", aliases: &[] },
        Codepoint { codepoint: 0x1B032, name: "HENTAIGANA LETTER KE-1", aliases: &[] },
        Codepoint { codepoint: 0x1B033, name: "HENTAIGANA LETTER KE-2", aliases: &[] },
        Codepoint { codepoint: 0x1B034, name: "HENTAIGANA LETTER KE-3", aliases: &[] },
        Codepoint { codepoint: 0x1B035, name: "HENTAIGANA LETTER KE-4", aliases: &[] },
        Codepoint { codepoint: 0x1B036, name: "HENTAIGANA LETTER KE-5", aliases: &[] },
        Codepoint { codepoint: 0x1B037, name: "HENTAIGANA LETTER KE-6", aliases: &[] },
        Codepoint { codepoint: 0x1B038, name: "HENTAIGANA LETTER KO-1", aliases: &[] },
        Codepoint { codepoint: 0x1B039, name: "HENTAIGANA LETTER KO-2", aliases: &[] },
        Codepoint { codepoint: 0x1B03A, name: "HENTAIGANA LETTER KO-3", aliases: &[] },
        Codepoint { codepoint: 0x1B03B, name: "HENTAIGANA LETTER KO-KI", aliases: &[] },
        Codepoint { codepoint: 0x1B03C, name: "HENTAIGANA LETTER SA-1", aliases: &[] },
        Codepoint { codepoint: 0x1B03D, name: "HENTAIGANA LETTER SA-2", aliases: &[] },
        Codepoint { codepoint: 0x1B03E, name: "HENTAIGANA LETTER SA-3", aliases: &[] },
        Codepoint { codepoint: 0x1B03F, name: "HENTAIGANA LETTER SA-4", aliases: &[] },
        Codepoint { codepoint: 0x1B040, name: "HENTAIGANA LETTER SA-5", aliases: &[] },
        Codepoint { codepoint: 0x1B041, name: "HENTAIGANA LETTER SA-6", aliases: &[] },
        Codepoint { codepoint: 0x1B042, name: "HENTAIGANA LETTER SA-7", aliases: &[] },
        Codepoint { codepoint: 0x1B043, name: "HENTAIGANA LETTER SA-8", aliases: &[] },
        Codepoint { codepoint: 0x1B044, name: "HENTAIGANA LETTER SI-1", aliases: &[] },
        Codepoint { codepoint: 0x1B045, name: "HENTAIGANA LETTER SI-2", aliases: &[] },
        Codepoint { codepoint: 0x1B046, name: "HENTAIGANA LETTER SI-3", aliases: &[] },
        Codepoint { codepoint: 0x1B047, name: "HENTAIGANA LETTER SI-4", aliases: &[] },
        Codepoint { codepoint: 0x1B048, name: "HENTAIGANA LETTER SI-5", aliases: &[] },
        Codepoint { codepoint: 0x1B049, name: "HENTAIGANA LETTER SI-6", aliases: &[] },
        Codepoint { codepoint: 0x1B04A, name: "HENTAIGANA LETTER SU-1", aliases: &[] },
        Codepoint { codepoint: 0x1B04B, name: "HENTAIGANA LETTER SU-2", aliases: &[] },
        Codepoint { codepoint: 0x1B04C, name: "HENTAIGANA LETTER SU-3", aliases: &[] },
        Codepoint { codepoint: 0x1B04D, name: "HENTAIGANA LETTER SU-4", aliases: &[] },
        Codepoint { codepoint: 0x1B04E, name: "HENTAIGANA LETTER SU-5", aliases: &[] },
        Codepoint { codepoint: 0x1B04F, name: "HENTAIGANA LETTER SU-6", aliases: &[] },
    ];
    assert(v@ =~= codepoint_table_676());
    v
}

pub open spec fn codepoint_table_677() -> Seq<Codepoint> {
    seq![
        Codepoint { codepoint: 0x1B050, name: "HENTAIGANA LETTER SU-7", aliases: &[] },
        Codepoint { codepoint: 0x1B051, name: "HENTAIGANA LETTER SU-8", aliases: &[] },
        Codepoint { codepoint: 0x1B052, name: "HENTAIGANA LETTER SE-1", aliases: &[] },
        Codepoint { codepoint: 0x1B053, name: "HENTAIGANA LETTER SE-2", aliases: &[] },
        Codepoint { codepoint: 0x1B054, name: "HENTAIGANA LETTER SE-3", aliases: &[] },
        Codepoint { codepoint: 0x1B055, name: "HENTAIGANA LETTER SE-4", aliases: &[] },
        Codepoint { codepoint: 0x1B056, name: "HENTAIGANA LETTER SE-5", aliases: &[] },
        Codepoint { codepoint: 0x1B057, name: "HENTAIGANA LETTER SO-1", aliases: &[] },
        Codepoint { codepoint: 0x1B058, name: "HENTAIGANA LETTER SO-2", aliases: &[] },
        Codepoint { codepoint: 0x1B059, name: "HENTAIGANA LETTER SO-3", aliases: &[] },
        Codepoint { codepoint: 0x1B05A, name: "HENTAIGANA LETTER SO-4", aliases: &[] },
        Codepoint { codepoint: 0x1B05B, name: "HENTAIGANA LETTER SO-5", aliases: &[] },
        Codepoint { codepoint: 0x1B05C, name: "HENTAIGANA LETTER SO-6", aliases: &[] },
        Codepoint { codepoint: 0x1B05D, name: "HENTAIGANA LETTER SO-7", aliases: &[] },
        Codepoint { codepoint: 0x1B05E, name: "HENTAIGANA LETTER TA-1", aliases: &[] },
        Codepoint { codepoint: 0x1B05F, name: "HENTAIGANA LETTER TA-2", aliases: &[] },
        Codepoint { codepoint: 0x1B060, name: "HENTAIGANA LETTER TA-3", aliases: &[] },
        Codepoint { codepoint: 0x1B061, name: "HENTAIGANA LETTER TA-4", aliases: &[] },
        Codepoint { codepoint: 0x1B062, name: "HENTAIGANA LETTER TI-1", aliases: &[] },
        Codepoint { codepoint: 0x1B063, name: "HENTAIGANA LETTER TI-2", aliases: &[] },
        Codepoint { codepoint: 0x1B064, name: "HENTAIGANA LETTER TI-3", aliases: &[] },
        Codepoint { codepoint: 0x1B065, name: "HENTAIGANA LETTER TI-4", aliases: &[] },
        Codepoint { codepoint: 0x1B066, name: "HENTAIGANA LETTER TI-5", aliases: &[] },
        Codepoint { codepoint: 0x1B067, name: "HENTAIGANA LETTER TI-6", aliases: &[] },
        Codepoint { codepoint: 0x1B068, name: "HENTAIGANA LETTER TI-7", aliases: &[] },
        Codepoint { codepoint: 0x1B069, name: "HENTAIGANA LETTER TU-1", aliases: &[] },
        Codepoint { codepoint: 0x1B06A, name: "HENTAIGANA LETTER TU-2", aliases: &[] },
        Codepoint { codepoint: 0x1B06B, name: "HENTAIGANA LETTER TU-3", aliases: &[] },
        Codepoint { codepoint: 0x1B06C, name: "HENTAIGANA LETTER TU-4", aliases: &[] },
        Codepoint { codepoint: 0x1B06D, name: "HENTAIGANA LETTER TU-TO", aliases: &[] },
        Codepoint { codepoint: 0x1B06E, name: "HENTAIGANA LETTER TE-1", aliases: &[] },
        Codepoint { codepoint: 0x1B06F, name: "HENTAIGANA LETTER TE-2", aliases: &[] },
        Codepoint { codepoint: 0x1B070, name: "HENTAIGANA LETTER TE-3", aliases: &[] },
        Codepoint { codepoint: 0x1B071, name: "HENTAIGANA LETTER TE-4", aliases: &[] },
        Codepoint { codepoint: 0x1B072, name: "HENTAIGANA LETTER TE-5", aliases: &[] },
        Codepoint { codepoint: 0x1B073, name: "HENTAIGANA LETTER TE-6", aliases: &[] },
        Codepoint { codepoint: 0x1B074, name: "HENTAIGANA LETTER TE-7", aliases: &[] },
        Codepoint { codepoint: 0x1B075, name: "HENTAIGANA LETTER TE-8", aliases: &[] },
        Codepoint { codepoint: 0x1B076, name: "HENTAIGANA LETTER TE-9", aliases: &[] },
        Codepoint { codepoint: 0x1B077, name: "HENTAIGANA LETTER TO-1", aliases: &[] },
    ]
}

fn all_codepoints_677() -> (v: Vec<Codepoint>)
    ensures
        v@ == codepoint_table_677(),
{
    let v = vec![
        Codepoint { codepoint: 0x1B050, name: "HENTAIGANA LETTER SU-7", aliases: &[] },
        Codepoint { codepoint: 0x1B051, name: "HENTAIGANA LETTER SU-8", aliases: &[] },
        Codepoint { codepoint: 0x1B052, name: "HENTAIGANA LETTER SE-1", aliases: &[] },
        Codepoint { codepoint: 0x1B053, name: "HENTAIGANA LETTER SE-2", aliases: &[] },
        Codepoint { codepoint: 0x1B054, name: "HENTAIGANA LETTER SE-3", aliases: &[] },
        Codepoint { codepoint: 0x1B055, name: "HENTAIGANA LETTER SE-4", aliases: &[] },
        Codepoint { codepoint: 0x1B056, name: "HENTAIGANA LETTER SE-5", aliases: &[] },
        Codepoint { codepoint: 0x1B057, name: "HENTAIGANA LETTER SO-1", aliases: &[] },
        Codepoint { codepoint: 0x1B058, name: "HENTAIGANA LETTER SO-2", aliases: &[] },
        Codepoint { codepoint: 0x1B059, name: "HENTAIGANA LETTER SO-3", aliases: &[] },
        Codepoint { codepoint: 0x1B05A, name: "HENTAIGANA LETTER SO-4", aliases: &[] },
        Codepoint { codepoint: 0x1B05B, name: "HENTAIGANA LETTER SO-5", aliases: &[] },
        Codepoint { codepoint: 0x1B05C, name: "HENTAIGANA LETTER SO-6", aliases: &[] },
        Codepoint { codepoint: 0x1B05D, name: "HENTAIGANA LETTER SO-7", aliases: &[] },
        Codepoint { codepoint: 0x1B05E, name: "HENTAIGANA LETTER TA-1", aliases: &[] },
        Codepoint { codepoint: 0x1B05F, name: "HENTAIGANA LETTER TA-2", aliases: &[] },
        Codepoint { codepoint: 0x1B060, name: "HENTAIGANA LETTER TA-3", aliases: &[] },
        Codepoint { codepoint: 0x1B061, name: "HENTAIGANA LETTER TA-4", aliases: &[] },
        Codepoint { codepoint: 0x1B062, name: "HENTAIGANA LETTER TI-1", aliases: &[] },
        Codepoint { codepoint: 0x1B063, name: "HENTAIGANA LETTER TI-2", aliases: &[] },
        Codepoint { codepoint: 0x1B064, name: "HENTAIGANA LETTER TI-3", aliases: &[] },
        Codepoint { codepoint: 0x1B065, name: "HENTAIGANA LETTER TI-4", aliases: &[] },
        Codepoint { codepoint: 0x1B066, name: "HENTAIGANA LETTER TI-5", aliases: &[] },
        Codepoint { codepoint: 0x1B067, name: "HENTAIGANA LETTER TI-6", aliases: &[] },
        Codepoint { codepoint: 0x1B068, name: "HENTAIGANA LETTER TI-7", aliases: &[] },
        Codepoint { codepoint: 0x1B069, name: "HENTAIGANA LETTER TU-1", aliases: &[] },
        Codepoint { codepoint: 0x1B06A, name: "HENTAIGANA LETTER TU-2", aliases: &[] },
        Codepoint { codepoint: 0x1B06B, name: "HENTAIGANA LETTER TU-3", aliases: &[] },
        Codepoint { codepoint: 0x1B06C, name: "HENTAIGANA LETTER TU-4", aliases: &[] },
        Codepoint { codepoint: 0x1B06D, name: "HENTAIGANA LETTER TU-TO", aliases: &[] },
        Codepoint { codepoint: 0x1B06E, name: "HENTAIGANA LETTER TE-1", aliases: &[] },
        Codepoint { codepoint: 0x1B06F, name: "HENTAIGANA LETTER TE-2", aliases: &[] },
        Codepoint { codepoint: 0x1B070, name: "HENTAIGANA LETTER TE-3", aliases: &[] },
        Codepoint { codepoint: 0x1B071, name: "HENTAIGANA LETTER TE-4", aliases: &[] },
        Codepoint { codepoint: 0x1B072, name: "HENTAIGANA LETTER TE-5", aliases: &[] },
        Codepoint { codepoint: 0x1B073, name: "HENTAIGANA LETTER TE-6", aliases: &[] },
        Codepoint { codepoint: 0x1B074, name: "HENTAIGANA LETTER TE-7", aliases: &[] },
        Codepoint { codepoint: 0x1B075, name: "HENTAIGANA LETTER TE-8", aliases: &[] },
        Codepoint { codepoint: 0x1B076, name: "HENTAIGANA LETTER TE-9", aliases: &[] },
        Codepoint { codepoint: 0x1B077, name: "HENTAIGANA LETTER TO-1", aliases: &[] },
    ];
    assert(v@ =~= codepoint_table_677());
    v
}

pub open spec fn codepoint_table_678() -> Seq<Codepoint> {
    seq![
        Codepoint { codepoint: 0x1B078, name: "HENTAIGANA LETTER TO-2", aliases: &[] },
        Codepoint { codepoint: 0x1B079, name: "HENTAIGANA LETTER TO-3", aliases: &[] },
        Codepoint { codepoint: 0x1B07A, name: "HENTAIGANA LETTER TO-4", aliases: &[] },
        Codepoint { codepoint: 0x1B07B, name: "HENTAIGANA LETTER TO-5", aliases: &[] },
        Codepoint { codepoint: 0x1B07C, name: "HENTAIGANA LETTER TO-6", aliases: &[] },
        Codepoint { codepoint: 0x1B07D, name: "HENTAIGANA LETTER TO-RA", aliases: &[] },
        Codepoint { codepoint: 0x1B07E, name: "HENTAIGANA LETTER NA-1", aliases: &[] },
        Codepoint { codepoint: 0x1B07F, name: "HENTAIGANA LETTER NA-2", aliases: &[] },
        Codepoint { codepoint: 0x1B080, name: "HENTAIGANA LETTER NA-3", aliases: &[] },
        Codepoint { codepoint: 0x1B081, name: "HENTAIGANA LETTER NA-4", aliases: &[] },
        Codepoint { codepoint: 0x1B082, name: "HENTAIGANA LETTER NA-5", aliases: &[] },
        Codepoint { codepoint: 0x1B083, name: "HENTAIGANA LETTER NA-6", aliases: &[] },
        Codepoint { codepoint: 0x1B084, name: "HENTAIGANA LETTER NA-7", aliases: &[] },
        Codepoint { codepoint: 0x1B085, name: "HENTAIGANA LETTER NA-8", aliases: &[] },
        Codepoint { codepoint: 0x1B086, name: "HENTAIGANA LETTER NA-9", aliases: &[] },
        Codepoint { codepoint: 0x1B087, name: "HENTAIGANA LETTER NI-1", aliases: &[] },
        Codepoint { codepoint: 0x1B088, name: "HENTAIGANA LETTER NI-2", aliases: &[] },
        Codepoint { codepoint: 0x1B089, name: "HENTAIGANA LETTER NI-3", aliases: &[] },
        Codepoint { codepoint: 0x1B08A, name: "HENTAIGANA LETTER NI-4", aliases: &[] },
        Codepoint { codepoint: 0x1B08B, name: "HENTAIGANA LETTER NI-5", aliases: &[] },
        Codepoint { codepoint: 0x1B08C, name: "HENTAIGANA LETTER NI-6", aliases: &[] },
        Codepoint { codepoint: 0x1B08D, name: "HENTAIGANA LETTER NI-7", aliases: &[] },
        Codepoint { codepoint: 0x1B08E, name: "HENTAIGANA LETTER NI-TE", aliases: &[] },
        Codepoint { codepoint: 0x1B08F, name: "HENTAIGANA LETTER NU-1", aliases: &[] },
        Codepoint { codepoint: 0x1B090, name: "HENTAIGANA LETTER NU-2", aliases: &[] },
        Codepoint { codepoint: 0x1B091, name: "HENTAIGANA LETTER NU-3", aliases: &[] },
        Codepoint { codepoint: 0x1B092, name: "HENTAIGANA LETTER NE-1", aliases: &[] },
        Codepoint { codepoint: 0x1B093, name: "HENTAIGANA LETTER NE-2", aliases: &[] },
        Codepoint { codepoint: 0x1B094, name: "HENTAIGANA LETTER NE-3", aliases: &[] },
        Codepoint { codepoint: 0x1B095, name: "HENTAIGANA LETTER NE-4", aliases: &[] },
        Codepoint { codepoint: 0x1B096, name: "HENTAIGANA LETTER NE-5", aliases: &[] },
        Codepoint { codepoint: 0x1B097, name: "HENTAIGANA LETTER NE-6", aliases: &[] },
        Codepoint { codepoint: 0x1B098, name: "HENTAIGANA LETTER NE-KO", aliases: &[] },
        Codepoint { codepoint: 0x1B099, name: "HENTAIGANA LETTER NO-1", aliases: &[] },
        Codepoint { codepoint: 0x1B09A, name: "HENTAIGANA LETTER NO-2", aliases: &[] },
        Codepoint { codepoint: 0x1B09B, name: "HENTAIGANA LETTER NO-3", aliases: &[] },
        Codepoint { codepoint: 0x1B09C, name: "HENTAIGANA LETTER NO-4", aliases: &[] },
        Codepoint { codepoint: 0x1B09D, name: "HENTAIGANA LETTER NO-5", aliases: &[] },
        Codepoint { codepoint: 0x1B09E, name: "HENTAIGANA LETTER HA-1", aliases: &[] },
        Codepoint { codepoint: 0x1B09F, name: "HENTAIGANA LETTER HA-2", aliases: &[] },
    ]
}

fn all_codepoints_678() -> (v: Vec<Codepoint>)
    ensures
        v@ == codepoint_table_678(),
{
    let v = vec![
        Codepoint { codepoint: 0x1B078, name: "HENTAIGANA LETTER TO-2", aliases: &[] },
        Codepoint { codepoint: 0x1B079, name: "HENTAIGANA LETTER TO-3", aliases: &[] },
        Codepoint { codepoint: 0x1B07A, name: "HENTAIGANA LETTER TO-4", aliases: &[] },
        Codepoint { codepoint: 0x1B07B, name: "HENTAIGANA LETTER TO-5", aliases: &[] },
        Codepoint { codepoint: 0x1B07C, name: "HENTAIGANA LETTER TO-6", aliases: &[] },
        Codepoint { codepoint: 0x1B07D, name: "HENTAIGANA LETTER TO-RA", aliases: &[] },
        Codepoint { codepoint: 0x1B07E, name: "HENTAIGANA LETTER NA-1", aliases: &[] },
        Codepoint { codepoint: 0x1B07F, name: "HENTAIGANA LETTER NA-2", aliases: &[] },
        Codepoint { codepoint: 0x1B080, name: "HENTAIGANA LETTER NA-3", aliases: &[] },
        Codepoint { codepoint: 0x1B081, name: "HENTAIGANA LETTER NA-4", aliases: &[] },
        Codepoint { codepoint: 0x1B082, name: "HENTAIGANA LETTER NA-5", aliases: &[] },
        Codepoint { codepoint: 0x1B083, name: "HENTAIGANA LETTER NA-6", aliases: &[] },
        Codepoint { codepoint: 0x1B084, name: "HENTAIGANA LETTER NA-7", aliases: &[] },
        Codepoint { codepoint: 0x1B085, name: "HENTAIGANA LETTER NA-8", aliases: &[] },
        Codepoint { codepoint: 0x1B086, name: "HENTAIGANA LETTER NA-9", aliases: &[] },
        Codepoint { codepoint: 0x1B087, name: "HENTAIGANA LETTER NI-1", aliases: &[] },
        Codepoint { codepoint: 0x1B088, name: "HENTAIGANA LETTER NI-2", aliases: &[] },
        Codepoint { codepoint: 0x1B089, name: "HENTAIGANA LETTER NI-3", aliases: &[] },
        Codepoint { codepoint: 0x1B08A, name: "HENTAIGANA LETTER NI-4", aliases: &[] },
        Codepoint { codepoint: 0x1B08B, name: "HENTAIGANA LETTER NI-5", aliases: &[] },
        Codepoint { codepoint: 0x1B08C, name: "HENTAIGANA LETTER NI-6", aliases: &[] },
        Codepoint { codepoint: 0x1B08D, name: "HENTAIGANA LETTER NI-7", aliases: &[] },
        Codepoint { codepoint: 0x1B08E, name: "HENTAIGANA LETTER NI-TE", aliases: &[] },
        Codepoint { codepoint: 0x1B08F, name: "HENTAIGANA LETTER NU-1", aliases: &[] },
        Codepoint { codepoint: 0x1B090, name: "HENTAIGANA LETTER NU-2", aliases: &[] },
        Codepoint { codepoint: 0x1B091, name: "HENTAIGANA LETTER NU-3", aliases: &[] },
        Codepoint { codepoint: 0x1B092, name: "HENTAIGANA LETTER NE-1", aliases: &[] },
        Codepoint { codepoint: 0x1B093, name: "HENTAIGANA LETTER NE-2", aliases: &[] },
        Codepoint { codepoint: 0x1B094, name: "HENTAIGANA LETTER NE-3", aliases: &[] },
        Codepoint { codepoint: 0x1B095, name: "HENTAIGANA LETTER NE-4", aliases: &[] },
        Codepoint { codepoint: 0x1B096, name: "HENTAIGANA LETTER NE-5", aliases: &[] },
        Codepoint { codepoint: 0x1B097, name: "HENTAIGANA LETTER NE-6", aliases: &[] },
        Codepoint { codepoint: 0x1B098, name: "HENTAIGANA LETTER NE-KO", aliases: &[] },
        Codepoint { codepoint: 0x1B099, name: "HENTAIGANA LETTER NO-1", aliases: &[] },
        Codepoint { codepoint: 0x1B09A, name: "HENTAIGANA LETTER NO-2", aliases: &[] },
        Codepoint { codepoint: 0x1B09B, name: "HENTAIGANA LETTER NO-3", aliases: &[] },
        Codepoint { codepoint: 0x1B09C, name: "HENTAIGANA LETTER NO-4", aliases: &[] },
        Codepoint { codepoint: 0x1B09D, name: "HENTAIGANA LETTER NO-5", aliases: &[] },
        Codepoint { codepoint: 0x1B09E, name: "HENTAIGANA LETTER HA-1", aliases: &[] },
        Codepoint { codepoint: 0x1B09F, name: "HENTAIGANA LETTER HA-2", aliases: &[] },
    ];
    assert(v@ =~= codepoint_table_678());
    v
}

pub open spec fn codepoint_table_679() -> Seq<Codepoint> {
    seq![
        Codepoint { codepoint: 0x1B0A0, name: "HENTAIGANA LETTER HA-3", aliases: &[] },
        Codepoint { codepoint: 0x1B0A1, name: "HENTAIGANA LETTER HA-4", aliases: &[] },
        Codepoint { codepoint: 0x1B0A2, name: "HENTAIGANA LETTER HA-5", aliases: &[] },
        Codepoint { codepoint: 0x1B0A3, name: "HENTAIGANA LETTER HA-6", aliases: &[] },
        Codepoint { codepoint: 0x1B0A4, name: "HENTAIGANA LETTER HA-7", aliases: &[] },
        Codepoint { codepoint: 0x1B0A5, name: "HENTAIGANA LETTER HA-8", aliases: &[] },
        Codepoint { codepoint: 0x1B0A6, name: "HENTAIGANA LETTER HA-9", aliases: &[] },
        Codepoint { codepoint: 0x1B0A7, name: "HENTAIGANA LETTER HA-10", aliases: &[] },
        Codepoint { codepoint: 0x1B0A8, name: "HENTAIGANA LETTER HA-11", aliases: &[] },
        Codepoint { codepoint: 0x1B0A9, name: "HENTAIGANA LETTER HI-1", aliases: &[] },
        Codepoint { codepoint: 0x1B0AA, name: "HENTAIGANA LETTER HI-2", aliases: &[] },
        Codepoint { codepoint: 0x1B0AB, name: "HENTAIGANA LETTER HI-3", aliases: &[] },
        Codepoint { codepoint: 0x1B0AC, name: "HENTAIGANA LETTER HI-4", aliases: &[] },
        Codepoint { codepoint: 0x1B0AD, name: "HENTAIGANA LETTER HI-5", aliases: &[] },
        Codepoint { codepoint: 0x1B0AE, name: "HENTAIGANA LETTER HI-6", aliases: &[] },
        Codepoint { codepoint: 0x1B0AF, name: "HENTAIGANA LETTER HI-7", aliases: &[] },
        Codepoint { codepoint: 0x1B0B0, name: "HENTAIGANA LETTER HU-1", aliases: &[] },
        Codepoint { codepoint: 0x1B0B1, name: "HENTAIGANA LETTER HU-2", aliases: &[] },
        Codepoint { codepoint: 0x1B0B2, name: "HENTAIGANA LETTER HU-3", aliases: &[] },
        Codepoint { codepoint: 0x1B0B3, name: "HENTAIGANA LETTER HE-1", aliases: &[] },
        Codepoint { codepoint: 0x1B0B4, name: "HENTAIGANA LETTER HE-2", aliases: &[] },
        Codepoint { codepoint: 0x1B0B5, name: "HENTAIGANA LETTER HE-3", aliases: &[] },
        Codepoint { codepoint: 0x1B0B6, name: "HENTAIGANA LETTER HE-4", aliases: &[] },
        Codepoint { codepoint: 0x1B0B7, name: "HENTAIGANA LETTER HE-5", aliases: &[] },
        Codepoint { codepoint: 0x1B0B8, name: "HENTAIGANA LETTER HE-6", aliases: &[] },
        Codepoint { codepoint: 0x1B0B9, name: "HENTAIGANA LETTER HE-7", aliases: &[] },
        Codepoint { codepoint: 0x1B0BA, name: "HENTAIGANA LETTER HO-1", aliases: &[] },
        Codepoint { codepoint: 0x1B0BB, name: "HENTAIGANA LETTER HO-2", aliases: &[] },
        Codepoint { codepoint: 0x1B0BC, name: "HENTAIGANA LETTER HO-3", aliases: &[] },
        Codepoint { codepoint: 0x1B0BD, name: "HENTAIGANA LETTER HO-4", aliases: &[] },
        Codepoint { codepoint: 0x1B0BE, name: "HENTAIGANA LETTER HO-5", aliases: &[] },
        Codepoint { codepoint: 0x1B0BF, name: "HENTAIGANA LETTER HO-6", aliases: &[] },
        Codepoint { codepoint: 0x1B0C0, name: "HENTAIGANA LETTER HO-7", aliases: &[] },
        Codepoint { codepoint: 0x1B0C1, name: "HENTAIGANA LETTER HO-8", aliases: &[] },
        Codepoint { codepoint: 0x1B0C2, name: "HENTAIGANA LETTER MA-1", aliases: &[] },
        Codepoint { codepoint: 0x1B0C3, name: "HENTAIGANA LETTER MA-2", aliases: &[] },
        Codepoint { codepoint: 0x1B0C4, name: "HENTAIGANA LETTER MA-3", aliases: &[] },
        Codepoint { codepoint: 0x1B0C5, name: "HENTAIGANA LETTER MA-4", aliases: &[] },
        Codepoint { codepoint: 0x1B0C6, name: "HENTAIGANA LETTER MA-5", aliases: &[] },
        Codepoint { codepoint: 0x1B0C7, name: "HENTAIGANA LETTER MA-6", aliases: &[] },
    ]
}

fn all_codepoints_679() -> (v: Vec<Codepoint>)
    ensures
        v@ == codepoint_table_679(),
{
    let v = vec![
        Codepoint { codepoint: 0x1B0A0, name: "HENTAIGANA LETTER HA-3", aliases: &[] },
        Codepoint { codepoint: 0x1B0A1, name: "HENTAIGANA LETTER HA-4", aliases: &[] },
        Codepoint { codepoint: 0x1B0A2, name: "HENTAIGANA LETTER HA-5", aliases: &[] },
        Codepoint { codepoint: 0x1B0A3, name: "HENTAIGANA LETTER HA-6", aliases: &[] },
        Codepoint { codepoint: 0x1B0A4, name: "HENTAIGANA LETTER HA-7", aliases: &[] },
        Codepoint { codepoint: 0x1B0A5, name: "HENTAIGANA LETTER HA-8", aliases: &[] },
        Codepoint { codepoint: 0x1B0A6, name: "HENTAIGANA LETTER HA-9", aliases: &[] },
        Codepoint { codepoint: 0x1B0A7, name: "HENTAIGANA LETTER HA-10", aliases: &[] },
        Codepoint { codepoint: 0x1B0A8, name: "HENTAIGANA LETTER HA-11", aliases: &[] },
        Codepoint { codepoint: 0x1B0A9, name: "HENTAIGANA LETTER HI-1", aliases: &[] },
        Codepoint { codepoint: 0x1B0AA, name: "HENTAIGANA LETTER HI-2", aliases: &[] },
        Codepoint { codepoint: 0x1B0AB, name: "HENTAIGANA LETTER HI-3", aliases: &[] },
        Codepoint { codepoint: 0x1B0AC, name: "HENTAIGANA LETTER HI-4", aliases: &[] },
        Codepoint { codepoint: 0x1B0AD, name: "HENTAIGANA LETTER HI-5", aliases: &[] },
        Codepoint { codepoint: 0x1B0AE, name: "HENTAIGANA LETTER HI-6", aliases: &[] },
        Codepoint { codepoint: 0x1B0AF, name: "HENTAIGANA LETTER HI-7", aliases: &[] },
        Codepoint { codepoint: 0x1B0B0, name: "HENTAIGANA LETTER HU-1", aliases: &[] },
        Codepoint { codepoint: 0x1B0B1, name: "HENTAIGANA LETTER HU-2", aliases: &[] },
        Codepoint { codepoint: 0x1B0B2, name: "HENTAIGANA LETTER HU-3", aliases: &[] },
        Codepoint { codepoint: 0x1B0B3, name: "HENTAIGANA LETTER HE-1", aliases: &[] },
        Codepoint { codepoint: 0x1B0B4, name: "HENTAIGANA LETTER HE-2", aliases: &[] },
        Codepoint { codepoint: 0x1B0B5, name: "HENTAIGANA LETTER HE-3", aliases: &[] },
        Codepoint { codepoint: 0x1B0B6, name: "HENTAIGANA LETTER HE-4", aliases: &[] },
        Codepoint { codepoint: 0x1B0B7, name: "HENTAIGANA LETTER HE-5", aliases: &[] },
        Codepoint { codepoint: 0x1B0B8, name: "HENTAIGANA LETTER HE-6", aliases: &[] },
        Codepoint { codepoint: 0x1B0B9, name: "HENTAIGANA LETTER HE-7", aliases: &[] },
        Codepoint { codepoint: 0x1B0BA, name: "HENTAIGANA LETTER HO-1", aliases: &[] },
        Codepoint { codepoint: 0x1B0BB, name: "HENTAIGANA LETTER HO-2", aliases: &[] },
        Codepoint { codepoint: 0x1B0BC, name: "HENTAIGANA LETTER HO-3", aliases: &[] },
        Codepoint { codepoint: 0x1B0BD, name: "HENTAIGANA LETTER HO-4", aliases: &[] },
        Codepoint { codepoint: 0x1B0BE, name: "HENTAIGANA LETTER HO-5", aliases: &[] },
        Codepoint { codepoint: 0x1B0BF, name: "HENTAIGANA LETTER HO-6", aliases: &[] },
        Codepoint { codepoint: 0x1B0C0, name: "HENTAIGANA LETTER HO-7", aliases: &[] },
        Codepoint { codepoint: 0x1B0C1, name: "HENTAIGANA LETTER HO-8", aliases: &[] },
        Codepoint { codepoint: 0x1B0C2, name: "HENTAIGANA LETTER MA-1", aliases: &[] },
        Codepoint { codepoint: 0x1B0C3, name: "HENTAIGANA LETTER MA-2", aliases: &[] },
        Codepoint { codepoint: 0x1B0C4, name: "HENTAIGANA LETTER MA-3", aliases: &[] },
        Codepoint { codepoint: 0x1B0C5, name: "HENTAIGANA LETTER MA-4", aliases: &[] },
        Codepoint { codepoint: 0x1B0C6, name: "HENTAIGANA LETTER MA-5", aliases: &[] },
        Codepoint { codepoint: 0x1B0C7, name: "HENTAIGANA LETTER MA-6", aliases: &[] },
    ];
    assert(v@ =~= codepoint_table_679());
    v
}

/// The entries from position 26400 of the table, 800 at most.
pub open spec fn codepoint_group_33() -> Seq<Codepoint> {
    codepoint_table_660() + codepoint_table_661() + codepoint_table_662() + codepoint_table_663() + codepoint_table_664() + codepoint_table_665() + codepoint_table_666() + codepoint_table_667() + codepoint_table_668() + codepoint_table_669() + codepoint_table_670() + codepoint_table_671() + codepoint_table_672() + codepoint_table_673() + codepoint_table_674() + codepoint_table_675() + codepoint_table_676() + codepoint_table_677() + codepoint_table_678() + codepoint_table_679()
}

pub fn all_codepoints_group_33() -> (v: Vec<Codepoint>)
    ensures
        v@ == codepoint_group_33(),
{
    let mut v = all_codepoints_660();
    let mut part = all_codepoints_661();
    v.append(&mut part);
    let mut part = all_codepoints_662();
    v.append(&mut part);
    let mut part = all_codepoints_663();
    v.append(&mut part);
    let mut part = all_codepoints_664();
    v.append(&mut part);
    let mut part = all_codepoints_665();
    v.append(&mut part);
    let mut part = all_codepoints_666();
    v.append(&mut part);
    let mut part = all_codepoints_667();
    v.append(&mut part);
    let mut part = all_codepoints_668();
    v.append(&mut part);
    let mut part = all_codepoints_669();
    v.append(&mut part);
    let mut part = all_codepoints_670();
    v.append(&mut part);
    let mut part = all_codepoints_671();
    v.append(&mut part);
    let mut part = all_codepoints_672();
    v.append(&mut part);
    let mut part = all_codepoints_673();
    v.append(&mut part);
    let mut part = all_codepoints_674();
    v.append(&mut part);
    let mut part = all_codepoints_675();
    v.append(&mut part);
    let mut part = all_codepoints_676();
    v.append(&mut part);
    let mut part = all_codepoints_677();
    v.append(&mut part);
    let mut part = all_codepoints_678();
    v.append(&mut part);
    let mut part = all_codepoints_679();
    v.append(&mut part);
    v
}

pub open spec fn codepoint_table_680() -> Seq<Codepoint> {
    seq![
        Codepoint { codepoint: 0x1B0C8, name: "HENTAIGANA LETTER MA-7", aliases: &[] },
        Codepoint { codepoint: 0x1B0C9, name: "HENTAIGANA LETTER MI-1", aliases: &[] },
        Codepoint { codepoint: 0x1B0CA, name: "HENTAIGANA LETTER MI-2", aliases: &[] },
        Codepoint { codepoint: 0x1B0CB, name: "HENTAIGANA LETTER MI-3", aliases: &[] },
        Codepoint { codepoint: 0x1B0CC, name: "HENTAIGANA LETTER MI-4", aliases: &[] },
        Codepoint { codepoint: 0x1B0CD, name: "HENTAIGANA LETTER MI-5", aliases: &[] },
        Codepoint { codepoint: 0x1B0CE, name: "HENTAIGANA LETTER MI-6", aliases: &[] },
        Codepoint { codepoint: 0x1B0CF, name: "HENTAIGANA LETTER MI-7", aliases: &[] },
        Codepoint { codepoint: 0x1B0D0, name: "HENTAIGANA LETTER MU-1", aliases: &[] },
        Codepoint { codepoint: 0x1B0D1, name: "HENTAIGANA LETTER MU-2", aliases: &[] },
        Codepoint { codepoint: 0x1B0D2, name: "HENTAIGANA LETTER MU-3", aliases: &[] },
        Codepoint { codepoint: 0x1B0D3, name: "HENTAIGANA LETTER MU-4", aliases: &[] },
        Codepoint { codepoint: 0x1B0D4, name: "HENTAIGANA LETTER ME-1", aliases: &[] },
        Codepoint { codepoint: 0x1B0D5, name: "HENTAIGANA LETTER ME-2", aliases: &[] },
        Codepoint { codepoint: 0x1B0D6, name: "HENTAIGANA LETTER ME-MA", aliases: &[] },
        Codepoint { codepoint: 0x1B0D7, name: "HENTAIGANA LETTER MO-1", aliases: &[] },
        Codepoint { codepoint: 0x1B0D8, name: "HENTAIGANA LETTER MO-2", aliases: &[] },
        Codepoint { codepoint: 0x1B0D9, name: "HENTAIGANA LETTER MO-3", aliases: &[] },
        Codepoint { codepoint: 0x1B0DA, name: "HENTAIGANA LETTER MO-4", aliases: &[] },
        Codepoint { codepoint: 0x1B0DB, name: "HENTAIGANA LETTER MO-5", aliases: &[] },
        Codepoint { codepoint: 0x1B0DC, name: "HENTAIGANA LETTER MO-6", aliases: &[] },
        Codepoint { codepoint: 0x1B0DD, name: "HENTAIGANA LETTER YA-1", aliases: &[] },
        Codepoint { codepoint: 0x1B0DE, name: "HENTAIGANA LETTER YA-2", aliases: &[] },
        Codepoint { codepoint: 0x1B0DF, name: "HENTAIGANA LETTER YA-3", aliases: &[] },
        Codepoint { codepoint: 0x1B0E0, name: "HENTAIGANA LETTER YA-4", aliases: &[] },
        Codepoint { codepoint: 0x1B0E1, name: "HENTAIGANA LETTER YA-5", aliases: &[] },
        Codepoint { codepoint: 0x1B0E2, name: "HENTAIGANA LETTER YA-YO", aliases: &[] },
        Codepoint { codepoint: 0x1B0E3, name: "HENTAIGANA LETTER YU-1", aliases: &[] },
        Codepoint { codepoint: 0x1B0E4, name: "HENTAIGANA LETTER YU-2", aliases: &[] },
        Codepoint { codepoint: 0x1B0E5, name: "HENTAIGANA LETTER YU-3", aliases: &[] },
        Codepoint { codepoint: 0x1B0E6, name: "HENTAIGANA LETTER YU-4", aliases: &[] },
        Codepoint { codepoint: 0x1B0E7, name: "HENTAIGANA LETTER YO-1", aliases: &[] },
        Codepoint { codepoint: 0x1B0E8, name: "HENTAIGANA LETTER YO-2", aliases: &[] },
        Codepoint { codepoint: 0x1B0E9, name: "HENTAIGANA LETTER YO-3", aliases: &[] },
        Codepoint { codepoint: 0x1B0EA, name: "HENTAIGANA LETTER YO-4", aliases: &[] },
        Codepoint { codepoint: 0x1B0EB, name: "HENTAIGANA LETTER YO-5", aliases: &[] },
        Codepoint { codepoint: 0x1B0EC, name: "HENTAIGANA LETTER YO-6", aliases: &[] },
        Codepoint { codepoint: 0x1B0ED, name: "HENTAIGANA LETTER RA-1", aliases: &[] },
        Codepoint { codepoint: 0x1B0EE, name: "HENTAIGANA LETTER RA-2", aliases: &[] },
        Codepoint { codepoint: 0x1B0EF, name: "HENTAIGANA LETTER RA-3", aliases: &[] },
    ]
}

fn all_codepoints_680() -> (v: Vec<Codepoint>)
    ensures
        v@ == codepoint_table_680(),
{
    let v = vec![
        Codepoint { codepoint: 0x1B0C8, name: "HENTAIGANA LETTER MA-7", aliases: &[] },
        Codepoint { codepoint: 0x1B0C9, name: "HENTAIGANA LETTER MI-1", aliases: &[] },
        Codepoint { codepoint: 0x1B0CA, name: "HENTAIGANA LETTER MI-2", aliases: &[] },
        Codepoint { codepoint: 0x1B0CB, name: "HENTAIGANA LETTER MI-3", aliases: &[] },
        Codepoint { codepoint: 0x1B0CC, name: "HENTAIGANA LETTER MI-4", aliases: &[] },
        Codepoint { codepoint: 0x1B0CD, name: "HENTAIGANA LETTER MI-5", aliases: &[] },
        Codepoint { codepoint: 0x1B0CE, name: "HENTAIGANA LETTER MI-6", aliases: &[] },
        Codepoint { codepoint: 0x1B0CF, name: "HENTAIGANA LETTER MI-7", aliases: &[] },
        Codepoint { codepoint: 0x1B0D0, name: "HENTAIGANA LETTER MU-1", aliases: &[] },
        Codepoint { codepoint: 0x1B0D1, name: "HENTAIGANA LETTER MU-2", aliases: &[] },
        Codepoint { codepoint: 0x1B0D2, name: "HENTAIGANA LETTER MU-3", aliases: &[] },
        Codepoint { codepoint: 0x1B0D3, name: "HENTAIGANA LETTER MU-4", aliases: &[] },
        Codepoint { codepoint: 0x1B0D4, name: "HENTAIGANA LETTER ME-1", aliases: &[] },
        Codepoint { codepoint: 0x1B0D5, name: "HENTAIGANA LETTER ME-2", aliases: &[] },
        Codepoint { codepoint: 0x1B0D6, name: "HENTAIGANA LETTER ME-MA", aliases: &[] },
        Codepoint { codepoint: 0x1B0D7, name: "HENTAIGANA LETTER MO-1", aliases: &[] },
        Codepoint { codepoint: 0x1B0D8, name: "HENTAIGANA LETTER MO-2", aliases: &[] },
        Codepoint { codepoint: 0x1B0D9, name: "HENTAIGANA LETTER MO-3", aliases: &[] },
        Codepoint { codepoint: 0x1B0DA, name: "HENTAIGANA LETTER MO-4", aliases: &[] },
        Codepoint { codepoint: 0x1B0DB, name: "HENTAIGANA LETTER MO-5", aliases: &[] },
        Codepoint { codepoint: 0x1B0DC, name: "HENTAIGANA LETTER MO-6", aliases: &[] },
        Codepoint { codepoint: 0x1B0DD, name: "HENTAIGANA LETTER YA-1", aliases: &[] },
        Codepoint { codepoint: 0x1B0DE, name: "HENTAIGANA LETTER YA-2", aliases: &[] },
        Codepoint { codepoint: 0x1B0DF, name: "HENTAIGANA LETTER YA-3", aliases: &[] },
        Codepoint { codepoint: 0x1B0E0, name: "HENTAIGANA LETTER YA-4", aliases: &[] },
        Codepoint { codepoint: 0x1B0E1, name: "HENTAIGANA LETTER YA-5", aliases: &[] },
        Codepoint { codepoint: 0x1B0E2, name: "HENTAIGANA LETTER YA-YO", aliases: &[] },
        Codepoint { codepoint: 0x1B0E3, name: "HENTAIGANA LETTER YU-1", aliases: &[] },
        Codepoint { codepoint: 0x1B0E4, name: "HENTAIGANA LETTER YU-2", aliases: &[] },
        Codepoint { codepoint: 0x1B0E5, name: "HENTAIGANA LETTER YU-3", aliases: &[] },
        Codepoint { codepoint: 0x1B0E6, name: "HENTAIGANA LETTER YU-4", aliases: &[] },
        Codepoint { codepoint: 0x1B0E7, name: "HENTAIGANA LETTER YO-1", aliases: &[] },
        Codepoint { codepoint: 0x1B0E8, name: "HENTAIGANA LETTER YO-2", aliases: &[] },
        Codepoint { codepoint: 0x1B0E9, name: "HENTAIGANA LETTER YO-3", aliases: &[] },
        Codepoint { codepoint: 0x1B0EA, name: "HENTAIGANA LETTER YO-4", aliases: &[] },
        Codepoint { codepoint: 0x1B0EB, name: "HENTAIGANA LETTER YO-5", aliases: &[] },
        Codepoint { codepoint: 0x1B0EC, name: "HENTAIGANA LETTER YO-6", aliases: &[] },
        Codepoint { codepoint: 0x1B0ED, name: "HENTAIGANA LETTER RA-1", aliases: &[] },
        Codepoint { codepoint: 0x1B0EE, name: "HENTAIGANA LETTER RA-2", aliases: &[] },
        Codepoint { codepoint: 0x1B0EF, name: "HENTAIGANA LETTER RA-3", aliases: &[] },
    ];
    assert(v@ =~= codepoint_table_680());
    v
}

pub open spec fn codepoint_table_681() -> Seq<Codepoint> {
    seq![
        Codepoint { codepoint: 0x1B0F0, name: "HENTAIGANA LETTER RA-4", aliases: &[] },
        Codepoint { codepoint: 0x1B0F1, name: "HENTAIGANA LETTER RI-1", aliases: &[] },
        Codepoint { codepoint: 0x1B0F2, name: "HENTAIGANA LETTER RI-2", aliases: &[] },
        Codepoint { codepoint: 0x1B0F3, name: "HENTAIGANA LETTER RI-3", aliases: &[] },
        Codepoint { codepoint: 0x1B0F4, name: "HENTAIGANA LETTER RI-4", aliases: &[] },
        Codepoint { codepoint: 0x1B0F5, name: "HENTAIGANA LETTER RI-5", aliases: &[] },
        Codepoint { codepoint: 0x1B0F6, name: "HENTAIGANA LETTER RI-6", aliases: &[] },
        Codepoint { codepoint: 0x1B0F7, name: "HENTAIGANA LETTER RI-7", aliases: &[] },
        Codepoint { codepoint: 0x1B0F8, name: "HENTAIGANA LETTER RU-1", aliases: &[] },
        Codepoint { codepoint: 0x1B0F9, name: "HENTAIGANA LETTER RU-2", aliases: &[] },
        Codepoint { codepoint: 0x1B0FA, name: "HENTAIGANA LETTER RU-3", aliases: &[] },
        Codepoint { codepoint: 0x1B0FB, name: "HENTAIGANA LETTER RU-4", aliases: &[] },
        Codepoint { codepoint: 0x1B0FC, name: "HENTAIGANA LETTER RU-5", aliases: &[] },
        Codepoint { codepoint: 0x1B0FD, name: "HENTAIGANA LETTER RU-6", aliases: &[] },
        Codepoint { codepoint: 0x1B0FE, name: "HENTAIGANA LETTER RE-1", aliases: &[] },
        Codepoint { codepoint: 0x1B0FF, name: "HENTAIGANA LETTER RE-2", aliases: &[] },
        Codepoint { codepoint: 0x1B100, name: "HENTAIGANA LETTER RE-3", aliases: &[] },
        Codepoint { codepoint: 0x1B101, name: "HENTAIGANA LETTER RE-4", aliases: &[] },
        Codepoint { codepoint: 0x1B102, name: "HENTAIGANA LETTER RO-1", aliases: &[] },
        Codepoint { codepoint: 0x1B103, name: "HENTAIGANA LETTER RO-2", aliases: &[] },
        Codepoint { codepoint: 0x1B104, name: "HENTAIGANA LETTER RO-3", aliases: &[] },
        Codepoint { codepoint: 0x1B105, name: "HENTAIGANA LETTER RO-4", aliases: &[] },
        Codepoint { codepoint: 0x1B106, name: "HENTAIGANA LETTER RO-5", aliases: &[] },
        Codepoint { codepoint: 0x1B107, name: "HENTAIGANA LETTER RO-6", aliases: &[] },
        Codepoint { codepoint: 0x1B108, name: "HENTAIGANA LETTER WA-1", aliases: &[] },
        Codepoint { codepoint: 0x1B109, name: "HENTAIGANA LETTER WA-2", aliases: &[] },
        Codepoint { codepoint: 0x1B10A, name: "HENTAIGANA LETTER WA-3", aliases: &[] },
        Codepoint { codepoint: 0x1B10B, name: "HENTAIGANA LETTER WA-4", aliases: &[] },
        Codepoint { codepoint: 0x1B10C, name: "HENTAIGANA LETTER WA-5", aliases: &[] },
        Codepoint { codepoint: 0x1B10D, name: "HENTAIGANA LETTER WI-1", aliases: &[] },
        Codepoint { codepoint: 0x1B10E, name: "HENTAIGANA LETTER WI-2", aliases: &[] },
        Codepoint { codepoint: 0x1B10F, name: "HENTAIGANA LETTER WI-3", aliases: &[] },
        Codepoint { codepoint: 0x1B110, name: "HENTAIGANA LETTER WI-4", aliases: &[] },
        Codepoint { codepoint: 0x1B111, name: "HENTAIGANA LETTER WI-5", aliases: &[] },
        Codepoint { codepoint: 0x1B112, name: "HENTAIGANA LETTER WE-1", aliases: &[] },
        Codepoint { codepoint: 0x1B113, name: "HENTAIGANA LETTER WE-2", aliases: &[] },
        Codepoint { codepoint: 0x1B114, name: "HENTAIGANA LETTER WE-3", aliases: &[] },
        Codepoint { codepoint: 0x1B115, name: "HENTAIGANA LETTER WE-4", aliases: &[] },
        Codepoint { codepoint: 0x1B116, name: "HENTAIGANA LETTER WO-1", aliases: &[] },
        Codepoint { codepoint: 0x1B117, name: "HENTAIGANA LETTER WO-2", aliases: &[] },
    ]
}

fn all_codepoints_681() -> (v: Vec<Codepoint>)
    ensures
        v@ == codepoint_table_681(),
{
    let v = vec![
        Codepoint { codepoint: 0x1B0F0, name: "HENTAIGANA LETTER RA-4", aliases: &[] },
        Codepoint { codepoint: 0x1B0F1, name: "HENTAIGANA LETTER RI-1", aliases: &[] },
        Codepoint { codepoint: 0x1B0F2, name: "HENTAIGANA LETTER RI-2", aliases: &[] },
        Codepoint { codepoint: 0x1B0F3, name: "HENTAIGANA LETTER RI-3", aliases: &[] },
        Codepoint { codepoint: 0x1B0F4, name: "HENTAIGANA LETTER RI-4", aliases: &[] },
        Codepoint { codepoint: 0x1B0F5, name: "HENTAIGANA LETTER RI-5", aliases: &[] },
        Codepoint { codepoint: 0x1B0F6, name: "HENTAIGANA LETTER RI-6", aliases: &[] },
        Codepoint { codepoint: 0x1B0F7, name: "HENTAIGANA LETTER RI-7", aliases: &[] },
        Codepoint { codepoint: 0x1B0F8, name: "HENTAIGANA LETTER RU-1", aliases: &[] },
        Codepoint { codepoint: 0x1B0F9, name: "HENTAIGANA LETTER RU-2", aliases: &[] },
        Codepoint { codepoint: 0x1B0FA, name: "HENTAIGANA LETTER RU-3", aliases: &[] },
        Codepoint { codepoint: 0x1B0FB, name: "HENTAIGANA LETTER RU-4", aliases: &[] },
        Codepoint { codepoint: 0x1B0FC, name: "HENTAIGANA LETTER RU-5", aliases: &[] },
        Codepoint { codepoint: 0x1B0FD, name: "HENTAIGANA LETTER RU-6", aliases: &[] },
        Codepoint { codepoint: 0x1B0FE, name: "HENTAIGANA LETTER RE-1", aliases: &[] },
        Codepoint { codepoint: 0x1B0FF, name: "HENTAIGANA LETTER RE-2", aliases: &[] },
        Codepoint { codepoint: 0x1B100, name: "HENTAIGANA LETTER RE-3", aliases: &[] },
        Codepoint { codepoint: 0x1B101, name: "HENTAIGANA LETTER RE-4", aliases: &[] },
        Codepoint { codepoint: 0x1B102, name: "HENTAIGANA LETTER RO-1", aliases: &[] },
        Codepoint { codepoint: 0x1B103, name: "HENTAIGANA LETTER RO-2", aliases: &[] },
        Codepoint { codepoint: 0x1B104, name: "HENTAIGANA LETTER RO-3", aliases: &[] },
        Codepoint { codepoint: 0x1B105, name: "HENTAIGANA LETTER RO-4", aliases: &[] },
        Codepoint { codepoint: 0x1B106, name: "HENTAIGANA LETTER RO-5", aliases: &[] },
        Codepoint { codepoint: 0x1B107, name: "HENTAIGANA LETTER RO-6", aliases: &[] },
        Codepoint { codepoint: 0x1B108, name: "HENTAIGANA LETTER WA-1", aliases: &[] },
        Codepoint { codepoint: 0x1B109, name: "HENTAIGANA LETTER WA-2", aliases: &[] },
        Codepoint { codepoint: 0x1B10A, name: "HENTAIGANA LETTER WA-3", aliases: &[] },
        Codepoint { codepoint: 0x1B10B, name: "HENTAIGANA LETTER WA-4", aliases: &[] },
        Codepoint { codepoint: 0x1B10C, name: "HENTAIGANA LETTER WA-5", aliases: &[] },
        Codepoint { codepoint: 0x1B10D, name: "HENTAIGANA LETTER WI-1", aliases: &[] },
        Codepoint { codepoint: 0x1B10E, name: "HENTAIGANA LETTER WI-2", aliases: &[] },
        Codepoint { codepoint: 0x1B10F, name: "HENTAIGANA LETTER WI-3", aliases: &[] },
        Codepoint { codepoint: 0x1B110, name: "HENTAIGANA LETTER WI-4", aliases: &[] },
        Codepoint { codepoint: 0x1B111, name: "HENTAIGANA LETTER WI-5", aliases: &[] },
        Codepoint { codepoint: 0x1B112, name: "HENTAIGANA LETTER WE-1", aliases: &[] },
        Codepoint { codepoint: 0x1B113, name: "HENTAIGANA LETTER WE-2", aliases: &[] },
        Codepoint { codepoint: 0x1B114, name: "HENTAIGANA LETTER WE-3", aliases: &[] },
        Codepoint { codepoint: 0x1B115, name: "HENTAIGANA LETTER WE-4", aliases: &[] },
        Codepoint { codepoint: 0x1B116, name: "HENTAIGANA LETTER WO-1", aliases: &[] },
        Codepoint { codepoint: 0x1B117, name: "HENTAIGANA LETTER WO-2", aliases: &[] },
    ];
    assert(v@ =~= codepoint_table_681());
    v
}

pub open spec fn codepoint_table_682() -> Seq<Codepoint> {
    seq![
        Codepoint { codepoint: 0x1B118, name: "HENTAIGANA LETTER WO-3", aliases: &[] },
        Codepoint { codepoint: 0x1B119, name: "HENTAIGANA LETTER WO-4", aliases: &[] },
        Codepoint { codepoint: 0x1B11A, name: "HENTAIGANA LETTER WO-5", aliases: &[] },
        Codepoint { codepoint: 0x1B11B, name: "HENTAIGANA LETTER WO-6", aliases: &[] },
        Codepoint { codepoint: 0x1B11C, name: "HENTAIGANA LETTER WO-7", aliases: &[] },
        Codepoint { codepoint: 0x1B11D, name: "HENTAIGANA LETTER N-MU-MO-1", aliases: &[] },
        Codepoint { codepoint: 0x1B11E, name: "HENTAIGANA LETTER N-MU-MO-2", aliases: &[] },
        Codepoint { codepoint: 0x1B11F, name: "HIRAGANA LETTER ARCHAIC WU", aliases: &[] },
        Codepoint { codepoint: 0x1B120, name: "KATAKANA LETTER ARCHAIC YI", aliases: &[] },
        Codepoint { codepoint: 0x1B121, name: "KATAKANA LETTER ARCHAIC YE", aliases: &[] },
        Codepoint { codepoint: 0x1B122, name: "KATAKANA LETTER ARCHAIC WU", aliases: &[] },
        Codepoint { codepoint: 0x1B150, name: "HIRAGANA LETTER SMALL WI", aliases: &[] },
        Codepoint { codepoint: 0x1B151, name: "HIRAGANA LETTER SMALL WE", aliases: &[] },
        Codepoint { codepoint: 0x1B152, name: "HIRAGANA LETTER SMALL WO", aliases: &[] },
        Codepoint { codepoint: 0x1B164, name: "KATAKANA LETTER SMALL WI", aliases: &[] },
        Codepoint { codepoint: 0x1B165, name: "KATAKANA LETTER SMALL WE", aliases: &[] },
        Codepoint { codepoint: 0x1B166, name: "KATAKANA LETTER SMALL WO", aliases: &[] },
        Codepoint { codepoint: 0x1B167, name: "KATAKANA LETTER SMALL N", aliases: &[] },
        Codepoint { codepoint: 0x1B170, name: "NUSHU CHARACTER-1B170", aliases: &[] },
        Codepoint { codepoint: 0x1B171, name: "NUSHU CHARACTER-1B171", aliases: &[] },
        Codepoint { codepoint: 0x1B172, name: "NUSHU CHARACTER-1B172", aliases: &[] },
        Codepoint { codepoint: 0x1B173, name: "NUSHU CHARACTER-1B173", aliases: &[] },
        Codepoint { codepoint: 0x1B174, name: "NUSHU CHARACTER-1B174", aliases: &[] },
        Codepoint { codepoint: 0x1B175, name: "NUSHU CHARACTER-1B175", aliases: &[] },
        Codepoint { codepoint: 0x1B176, name: "NUSHU CHARACTER-1B176", aliases: &[] },
        Codepoint { codepoint: 0x1B177, name: "NUSHU CHARACTER-1B177", aliases: &[] },
        Codepoint { codepoint: 0x1B178, name: "NUSHU CHARACTER-1B178", aliases: &[] },
        Codepoint { codepoint: 0x1B179, name: "NUSHU CHARACTER-1B179", aliases: &[] },
        Codepoint { codepoint: 0x1B17A, name: "NUSHU CHARACTER-1B17A", aliases: &[] },
        Codepoint { codepoint: 0x1B17B, name: "NUSHU CHARACTER-1B17B", aliases: &[] },
        Codepoint { codepoint: 0x1B17C, name: "NUSHU CHARACTER-1B17C", aliases: &[] },
        Codepoint { codepoint: 0x1B17D, name: "NUSHU CHARACTER-1B17D", aliases: &[] },
        Codepoint { codepoint: 0x1B17E, name: "NUSHU CHARACTER-1B17E", aliases: &[] },
        Codepoint { codepoint: 0x1B17F, name: "NUSHU CHARACTER-1B17F", aliases: &[] },
        Codepoint { codepoint: 0x1B180, name: "NUSHU CHARACTER-1B180", aliases: &[] },
        Codepoint { codepoint: 0x1B181, name: "NUSHU CHARACTER-1B181", aliases: &[] },
        Codepoint { codepoint: 0x1B182, name: "NUSHU CHARACTER-1B182", aliases: &[] },
        Codepoint { codepoint: 0x1B183, name: "NUSHU CHARACTER-1B183", aliases: &[] },
        Codepoint { codepoint: 0x1B184, name: "NUSHU CHARACTER-1B184", aliases: &[] },
        Codepoint { codepoint: 0x1B185, name: "NUSHU CHARACTER-1B185", aliases: &[] },
    ]
}

fn all_codepoints_682() -> (v: Vec<Codepoint>)
    ensures
        v@ == codepoint_table_682(),
{
    let v = vec![
        Codepoint { codepoint: 0x1B118, name: "HENTAIGANA LETTER WO-3", aliases: &[] },
        Codepoint { codepoint: 0x1B119, name: "HENTAIGANA LETTER WO-4", aliases: &[] },
        Codepoint { codepoint: 0x1B11A, name: "HENTAIGANA LETTER WO-5", aliases: &[] },
        Codepoint { codepoint: 0x1B11B, name: "HENTAIGANA LETTER WO-6", aliases: &[] },
        Codepoint { codepoint: 0x1B11C, name: "HENTAIGANA LETTER WO-7", aliases: &[] },
        Codepoint { codepoint: 0x1B11D, name: "HENTAIGANA LETTER N-MU-MO-1", aliases: &[] },
        Codepoint { codepoint: 0x1B11E, name: "HENTAIGANA LETTER N-MU-MO-2", aliases: &[] },
        Codepoint { codepoint: 0x1B11F, name: "HIRAGANA LETTER ARCHAIC WU", aliases: &[] },
        Codepoint { codepoint: 0x1B120, name: "KATAKANA LETTER ARCHAIC YI", aliases: &[] },
        Codepoint { codepoint: 0x1B121, name: "KATAKANA LETTER ARCHAIC YE", aliases: &[] },
        Codepoint { codepoint: 0x1B122, name: "KATAKANA LETTER ARCHAIC WU", aliases: &[] },
        Codepoint { codepoint: 0x1B150, name: "HIRAGANA LETTER SMALL WI", aliases: &[] },
        Codepoint { codepoint: 0x1B151, name: "HIRAGANA LETTER SMALL WE", aliases: &[] },
        Codepoint { codepoint: 0x1B152, name: "HIRAGANA LETTER SMALL WO", aliases: &[] },
        Codepoint { codepoint: 0x1B164, name: "KATAKANA LETTER SMALL WI", aliases: &[] },
        Codepoint { codepoint: 0x1B165, name: "KATAKANA LETTER SMALL WE", aliases: &[] },
        Codepoint { codepoint: 0x1B166, name: "KATAKANA LETTER SMALL WO", aliases: &[] },
        Codepoint { codepoint: 0x1B167, name: "KATAKANA LETTER SMALL N", aliases: &[] },
        Codepoint { codepoint: 0x1B170, name: "NUSHU CHARACTER-1B170", aliases: &[] },
        Codepoint { codepoint: 0x1B171, name: "NUSHU CHARACTER-1B171", aliases: &[] },
        Codepoint { codepoint: 0x1B172, name: "NUSHU CHARACTER-1B172", aliases: &[] },
        Codepoint { codepoint: 0x1B173, name: "NUSHU CHARACTER-1B173", aliases: &[] },
        Codepoint { codepoint: 0x1B174, name: "NUSHU CHARACTER-1B174", aliases: &[] },
        Codepoint { codepoint: 0x1B175, name: "NUSHU CHARACTER-1B175", aliases: &[] },
        Codepoint { codepoint: 0x1B176, name: "NUSHU CHARACTER-1B176", aliases: &[] },
        Codepoint { codepoint: 0x1B177, name: "NUSHU CHARACTER-1B177", aliases: &[] },
        Codepoint { codepoint: 0x1B178, name: "NUSHU CHARACTER-1B178", aliases: &[] },
        Codepoint { codepoint: 0x1B179, name: "NUSHU CHARACTER-1B179", aliases: &[] },
        Codepoint { codepoint: 0x1B17A, name: "NUSHU CHARACTER-1B17A", aliases: &[] },
        Codepoint { codepoint: 0x1B17B, name: "NUSHU CHARACTER-1B17B", aliases: &[] },
        Codepoint { codepoint: 0x1B17C, name: "NUSHU CHARACTER-1B17C", aliases: &[] },
        Codepoint { codepoint: 0x1B17D, name: "NUSHU CHARACTER-1B17D", aliases: &[] },
        Codepoint { codepoint: 0x1B17E, name: "NUSHU CHARACTER-1B17E", aliases: &[] },
        Codepoint { codepoint: 0x1B17F, name: "NUSHU CHARACTER-1B17F", aliases: &[] },
        Codepoint { codepoint: 0x1B180, name: "NUSHU CHARACTER-1B180", aliases: &[] },
        Codepoint { codepoint: 0x1B181, name: "NUSHU CHARACTER-1B181", aliases: &[] },
        Codepoint { codepoint: 0x1B182, name: "NUSHU CHARACTER-1B182", aliases: &[] },
        Codepoint { codepoint: 0x1B183, name: "NUSHU CHARACTER-1B183", aliases: &[] },
        Codepoint { codepoint: 0x1B184, name: "NUSHU CHARACTER-1B184", aliases: &[] },
        Codepoint { codepoint: 0x1B185, name: "NUSHU CHARACTER-1B185", aliases: &[] },
    ];
    assert(v@ =~= codepoint_table_682());
    v
}

pub open spec fn codepoint_table_683() -> Seq<Codepoint> {
    seq![
        Codepoint { codepoint: 0x1B186, name: "NUSHU CHARACTER-1B186", aliases: &[] },
        Codepoint { codepoint: 0x1B187, name: "NUSHU CHARACTER-1B187", aliases: &[] },
        Codepoint { codepoint: 0x1B188, name: "NUSHU CHARACTER-1B188", aliases: &[] },
        Codepoint { codepoint: 0x1B189, name: "NUSHU CHARACTER-1B189", aliases: &[] },
        Codepoint { codepoint: 0x1B18A, name: "NUSHU CHARACTER-1B18A", aliases: &[] },
        Codepoint { codepoint: 0x1B18B, name: "NUSHU CHARACTER-1B18B", aliases: &[] },
        Codepoint { codepoint: 0x1B18C, name: "NUSHU CHARACTER-1B18C", aliases: &[] },
        Codepoint { codepoint: 0x1B18D, name: "NUSHU CHARACTER-1B18D", aliases: &[] },
        Codepoint { codepoint: 0x1B18E, name: "NUSHU CHARACTER-1B18E", aliases: &[] },
        Codepoint { codepoint: 0x1B18F, name: "NUSHU CHARACTER-1B18F", aliases: &[] },
        Codepoint { codepoint: 0x1B190, name: "NUSHU CHARACTER-1B190", aliases: &[] },
        Codepoint { codepoint: 0x1B191, name: "NUSHU CHARACTER-1B191", aliases: &[] },
        Codepoint { codepoint: 0x1B192, name: "NUSHU CHARACTER-1B192", aliases: &[] },
        Codepoint { codepoint: 0x1B193, name: "NUSHU CHARACTER-1B193", aliases: &[] },
        Codepoint { codepoint: 0x1B194, name: "NUSHU CHARACTER-1B194", aliases: &[] },
        Codepoint { codepoint: 0x1B195, name: "NUSHU CHARACTER-1B195", aliases: &[] },
        Codepoint { codepoint: 0x1B196, name: "NUSHU CHARACTER-1B196", aliases: &[] },
        Codepoint { codepoint: 0x1B197, name: "NUSHU CHARACTER-1B197", aliases: &[] },
        Codepoint { codepoint: 0x1B198, name: "NUSHU CHARACTER-1B198", aliases: &[] },
        Codepoint { codepoint: 0x1B199, name: "NUSHU CHARACTER-1B199", aliases: &[] },
        Codepoint { codepoint: 0x1B19A, name: "NUSHU CHARACTER-1B19A", aliases: &[] },
        Codepoint { codepoint: 0x1B19B, name: "NUSHU CHARACTER-1B19B", aliases: &[] },
        Codepoint { codepoint: 0x1B19C, name: "NUSHU CHARACTER-1B19C", aliases: &[] },
        Codepoint { codepoint: 0x1B19D, name: "NUSHU CHARACTER-1B19D", aliases: &[] },
        Codepoint { codepoint: 0x1B19E, name: "NUSHU CHARACTER-1B19E", aliases: &[] },
        Codepoint { codepoint: 0x1B19F, name: "NUSHU CHARACTER-1B19F", aliases: &[] },
        Codepoint { codepoint: 0x1B1A0, name: "NUSHU CHARACTER-1B1A0", aliases: &[] },
        Codepoint { codepoint: 0x1B1A1, name: "NUSHU CHARACTER-1B1A1", aliases: &[] },
        Codepoint { codepoint: 0x1B1A2, name: "NUSHU CHARACTER-1B1A2", aliases: &[] },
        Codepoint { codepoint: 0x1B1A3, name: "NUSHU CHARACTER-1B1A3", aliases: &[] },
        Codepoint { codepoint: 0x1B1A4, name: "NUSHU CHARACTER-1B1A4", aliases: &[] },
        Codepoint { codepoint: 0x1B1A5, name: "NUSHU CHARACTER-1B1A5", aliases: &[] },
        Codepoint { codepoint: 0x1B1A6, name: "NUSHU CHARACTER-1B1A6", aliases: &[] },
        Codepoint { codepoint: 0x1B1A7, name: "NUSHU CHARACTER-1B1A7", aliases: &[] },
        Codepoint { codepoint: 0x1B1A8, name: "NUSHU CHARACTER-1B1A8", aliases: &[] },
        Codepoint { codepoint: 0x1B1A9, name: "NUSHU CHARACTER-1B1A9", aliases: &[] },
        Codepoint { codepoint: 0x1B1AA, name: "NUSHU CHARACTER-1B1AA", aliases: &[] },
        Codepoint { codepoint: 0x1B1AB, name: "NUSHU CHARACTER-1B1AB", aliases: &[] },
        Codepoint { codepoint: 0x1B1AC, name: "NUSHU CHARACTER-1B1AC", aliases: &[] },
        Codepoint { codepoint: 0x1B1AD, name: "NUSHU CHARACTER-1B1AD", aliases: &[] },
    ]
}

fn all_codepoints_683() -> (v: Vec<Codepoint>)
    ensures
        v@ == codepoint_table_683(),
{
    let v = vec![
        Codepoint { codepoint: 0x1B186, name: "NUSHU CHARACTER-1B186", aliases: &[] },
        Codepoint { codepoint: 0x1B187, name: "NUSHU CHARACTER-1B187", aliases: &[] },
        Codepoint { codepoint: 0x1B188, name: "NUSHU CHARACTER-1B188", aliases: &[] },
        Codepoint { codepoint: 0x1B189, name: "NUSHU CHARACTER-1B189", aliases: &[] },
        Codepoint { codepoint: 0x1B18A, name: "NUSHU CHARACTER-1B18A", aliases: &[] },
        Codepoint { codepoint: 0x1B18B, name: "NUSHU CHARACTER-1B18B", aliases: &[] },
        Codepoint { codepoint: 0x1B18C, name: "NUSHU CHARACTER-1B18C", aliases: &[] },
        Codepoint { codepoint: 0x1B18D, name: "NUSHU CHARACTER-1B18D", aliases: &[] },
        Codepoint { codepoint: 0x1B18E, name: "NUSHU CHARACTER-1B18E", aliases: &[] },
        Codepoint { codepoint: 0x1B18F, name: "NUSHU CHARACTER-1B18F", aliases: &[] },
        Codepoint { codepoint: 0x1B190, name: "NUSHU CHARACTER-1B190", aliases: &[] },
        Codepoint { codepoint: 0x1B191, name: "NUSHU CHARACTER-1B191", aliases: &[] },
        Codepoint { codepoint: 0x1B192, name: "NUSHU CHARACTER-1B192", aliases: &[] },
        Codepoint { codepoint: 0x1B193, name: "NUSHU CHARACTER-1B193", aliases: &[] },
        Codepoint { codepoint: 0x1B194, name: "NUSHU CHARACTER-1B194", aliases: &[] },
        Codepoint { codepoint: 0x1B195, name: "NUSHU CHARACTER-1B195", aliases: &[] },
        Codepoint { codepoint: 0x1B196, name: "NUSHU CHARACTER-1B196", aliases: &[] },
        Codepoint { codepoint: 0x1B197, name: "NUSHU CHARACTER-1B197", aliases: &[] },
        Codepoint { codepoint: 0x1B198, name: "NUSHU CHARACTER-1B198", aliases: &[] },
        Codepoint { codepoint: 0x1B199, name: "NUSHU CHARACTER-1B199", aliases: &[] },
        Codepoint { codepoint: 0x1B19A, name: "NUSHU CHARACTER-1B19A", aliases: &[] },
        Codepoint { codepoint: 0x1B19B, name: "NUSHU CHARACTER-1B19B", aliases: &[] },
        Codepoint { codepoint: 0x1B19C, name: "NUSHU CHARACTER-1B19C", aliases: &[] },
        Codepoint { codepoint: 0x1B19D, name: "NUSHU CHARACTER-1B19D", aliases: &[] },
        Codepoint { codepoint: 0x1B19E, name: "NUSHU CHARACTER-1B19E", aliases: &[] },
        Codepoint { codepoint: 0x1B19F, name: "NUSHU CHARACTER-1B19F", aliases: &[] },
        Codepoint { codepoint: 0x1B1A0, name: "NUSHU CHARACTER-1B1A0", aliases: &[] },
        Codepoint { codepoint: 0x1B1A1, name: "NUSHU CHARACTER-1B1A1", aliases: &[] },
        Codepoint { codepoint: 0x1B1A2, name: "NUSHU CHARACTER-1B1A2", aliases: &[] },
        Codepoint { codepoint: 0x1B1A3, name: "NUSHU CHARACTER-1B1A3", aliases: &[] },
        Codepoint { codepoint: 0x1B1A4, name: "NUSHU CHARACTER-1B1A4", aliases: &[] },
        Codepoint { codepoint: 0x1B1A5, name: "NUSHU CHARACTER-1B1A5", aliases: &[] },
        Codepoint { codepoint: 0x1B1A6, name: "NUSHU CHARACTER-1B1A6", aliases: &[] },
        Codepoint { codepoint: 0x1B1A7, name: "NUSHU CHARACTER-1B1A7", aliases: &[] },
        Codepoint { codepoint: 0x1B1A8, name: "NUSHU CHARACTER-1B1A8", aliases: &[] },
        Codepoint { codepoint: 0x1B1A9, name: "NUSHU CHARACTER-1B1A9", aliases: &[] },
        Codepoint { codepoint: 0x1B1AA, name: "NUSHU CHARACTER-1B1AA", aliases: &[] },
        Codepoint { codepoint: 0x1B1AB, name: "NUSHU CHARACTER-1B1AB", aliases: &[] },
        Codepoint { codepoint: 0x1B1AC, name: "NUSHU CHARACTER-1B1AC", aliases: &[] },
        Codepoint { codepoint: 0x1B1AD, name: "NUSHU CHARACTER-1B1AD", aliases: &[] },
    ];
    assert(v@ =~= codepoint_table_683());
    v
}

pub open spec fn codepoint_table_684() -> Seq<Codepoint> {
    seq![
        Codepoint { codepoint: 0x1B1AE, name: "NUSHU CHARACTER-1B1AE", aliases: &[] },
        Codepoint { codepoint: 0x1B1AF, name: "NUSHU CHARACTER-1B1AF", aliases: &[] },
        Codepoint { codepoint: 0x1B1B0, name: "NUSHU CHARACTER-1B1B0", aliases: &[] },
        Codepoint { codepoint: 0x1B1B1, name: "NUSHU CHARACTER-1B1B1", aliases: &[] },
        Codepoint { codepoint: 0x1B1B2, name: "NUSHU CHARACTER-1B1B2", aliases: &[] },
        Codepoint { codepoint: 0x1B1B3, name: "NUSHU CHARACTER-1B1B3", aliases: &[] },
        Codepoint { codepoint: 0x1B1B4, name: "NUSHU CHARACTER-1B1B4", aliases: &[] },
        Codepoint { codepoint: 0x1B1B5, name: "NUSHU CHARACTER-1B1B5", aliases: &[] },
        Codepoint { codepoint: 0x1B1B6, name: "NUSHU CHARACTER-1B1B6", aliases: &[] },
        Codepoint { codepoint: 0x1B1B7, name: "NUSHU CHARACTER-1B1B7", aliases: &[] },
        Codepoint { codepoint: 0x1B1B8, name: "NUSHU CHARACTER-1B1B8", aliases: &[] },
        Codepoint { codepoint: 0x1B1B9, name: "NUSHU CHARACTER-1B1B9", aliases: &[] },
        Codepoint { codepoint: 0x1B1BA, name: "NUSHU CHARACTER-1B1BA", aliases: &[] },
        Codepoint { codepoint: 0x1B1BB, name: "NUSHU CHARACTER-1B1BB", aliases: &[] },
        Codepoint { codepoint: 0x1B1BC, name: "NUSHU CHARACTER-1B1BC", aliases: &[] },
        Codepoint { codepoint: 0x1B1BD, name: "NUSHU CHARACTER-1B1BD", aliases: &[] },
        Codepoint { codepoint: 0x1B1BE, name: "NUSHU CHARACTER-1B1BE", aliases: &[] },
        Codepoint { codepoint: 0x1B1BF, name: "NUSHU CHARACTER-1B1BF", aliases: &[] },
        Codepoint { codepoint: 0x1B1C0, name: "NUSHU CHARACTER-1B1C0", aliases: &[] },
        Codepoint { codepoint: 0x1B1C1, name: "NUSHU CHARACTER-1B1C1", aliases: &[] },
        Codepoint { codepoint: 0x1B1C2, name: "NUSHU CHARACTER-1B1C2", aliases: &[] },
        Codepoint { codepoint: 0x1B1C3, name: "NUSHU CHARACTER-1B1C3", aliases: &[] },
        Codepoint { codepoint: 0x1B1C4, name: "NUSHU CHARACTER-1B1C4", aliases: &[] },
        Codepoint { codepoint: 0x1B1C5, name: "NUSHU CHARACTER-1B1C5", aliases: &[] },
        Codepoint { codepoint: 0x1B1C6, name: "NUSHU CHARACTER-1B1C6", aliases: &[] },
        Codepoint { codepoint: 0x1B1C7, name: "NUSHU CHARACTER-1B1C7", aliases: &[] },
        Codepoint { codepoint: 0x1B1C8, name: "NUSHU CHARACTER-1B1C8", aliases: &[] },
        Codepoint { codepoint: 0x1B1C9, name: "NUSHU CHARACTER-1B1C9", aliases: &[] },
        Codepoint { codepoint: 0x1B1CA, name: "NUSHU CHARACTER-1B1CA", aliases: &[] },
        Codepoint { codepoint: 0x1B1CB, name: "NUSHU CHARACTER-1B1CB", aliases: &[] },
        Codepoint { codepoint: 0x1B1CC, name: "NUSHU CHARACTER-1B1CC", aliases: &[] },
        Codepoint { codepoint: 0x1B1CD, name: "NUSHU CHARACTER-1B1CD", aliases: &[] },
        Codepoint { codepoint: 0x1B1CE, name: "NUSHU CHARACTER-1B1CE", aliases: &[] },
        Codepoint { codepoint: 0x1B1CF, name: "NUSHU CHARACTER-1B1CF", aliases: &[] },
        Codepoint { codepoint: 0x1B1D0, name: "NUSHU CHARACTER-1B1D0", aliases: &[] },
        Codepoint { codepoint: 0x1B1D1, name: "NUSHU CHARACTER-1B1D1", aliases: &[] },
        Codepoint { codepoint: 0x1B1D2, name: "NUSHU CHARACTER-1B1D2", aliases: &[] },
        Codepoint { codepoint: 0x1B1D3, name: "NUSHU CHARACTER-1B1D3", aliases: &[] },
        Codepoint { codepoint: 0x1B1D4, name: "NUSHU CHARACTER-1B1D4", aliases: &[] },
        Codepoint { codepoint: 0x1B1D5, name: "NUSHU CHARACTER-1B1D5", aliases: &[] },
    ]
}

fn all_codepoints_684() -> (v: Vec<Codepoint>)
    ensures
        v@ == codepoint_table_684(),
{
    let v = vec![
        Codepoint { codepoint: 0x1B1AE, name: "NUSHU CHARACTER-1B1AE", aliases: &[] },
        Codepoint { codepoint: 0x1B1AF, name: "NUSHU CHARACTER-1B1AF", aliases: &[] },
        Codepoint { codepoint: 0x1B1B0, name: "NUSHU CHARACTER-1B1B0", aliases: &[] },
        Codepoint { codepoint: 0x1B1B1, name: "NUSHU CHARACTER-1B1B1", aliases: &[] },
        Codepoint { codepoint: 0x1B1B2, name: "NUSHU CHARACTER-1B1B2", aliases: &[] },
        Codepoint { codepoint: 0x1B1B3, name: "NUSHU CHARACTER-1B1B3", aliases: &[] },
        Codepoint { codepoint: 0x1B1B4, name: "NUSHU CHARACTER-1B1B4", aliases: &[] },
        Codepoint { codepoint: 0x1B1B5, name: "NUSHU CHARACTER-1B1B5", aliases: &[] },
        Codepoint { codepoint: 0x1B1B6, name: "NUSHU CHARACTER-1B1B6", aliases: &[] },
        Codepoint { codepoint: 0x1B1B7, name: "NUSHU CHARACTER-1B1B7", aliases: &[] },
        Codepoint { codepoint: 0x1B1B8, name: "NUSHU CHARACTER-1B1B8", aliases: &[] },
        Codepoint { codepoint: 0x1B1B9, name: "NUSHU CHARACTER-1B1B9", aliases: &[] },
        Codepoint { codepoint: 0x1B1BA, name: "NUSHU CHARACTER-1B1BA", aliases: &[] },
        Codepoint { codepoint: 0x1B1BB, name: "NUSHU CHARACTER-1B1BB", aliases: &[] },
        Codepoint { codepoint: 0x1B1BC, name: "NUSHU CHARACTER-1B1BC", aliases: &[] },
        Codepoint { codepoint: 0x1B1BD, name: "NUSHU CHARACTER-1B1BD", aliases: &[] },
        Codepoint { codepoint: 0x1B1BE, name: "NUSHU CHARACTER-1B1BE", aliases: &[] },
        Codepoint { codepoint: 0x1B1BF, name: "NUSHU CHARACTER-1B1BF", aliases: &[] },
        Codepoint { codepoint: 0x1B1C0, name: "NUSHU CHARACTER-1B1C0", aliases: &[] },
        Codepoint { codepoint: 0x1B1C1, name: "NUSHU CHARACTER-1B1C1", aliases: &[] },
        Codepoint { codepoint: 0x1B1C2, name: "NUSHU CHARACTER-1B1C2", aliases: &[] },
        Codepoint { codepoint: 0x1B1C3, name: "NUSHU CHARACTER-1B1C3", aliases: &[] },
        Codepoint { codepoint: 0x1B1C4, name: "NUSHU CHARACTER-1B1C4", aliases: &[] },
        Codepoint { codepoint: 0x1B1C5, name: "NUSHU CHARACTER-1B1C5", aliases: &[] },
        Codepoint { codepoint: 0x1B1C6, name: "NUSHU CHARACTER-1B1C6", aliases: &[] },
        Codepoint { codepoint: 0x1B1C7, name: "NUSHU CHARACTER-1B1C7", aliases: &[] },
        Codepoint { codepoint: 0x1B1C8, name: "NUSHU CHARACTER-1B1C8", aliases: &[] },
        Codepoint { codepoint: 0x1B1C9, name: "NUSHU CHARACTER-1B1C9", aliases: &[] },
        Codepoint { codepoint: 0x1B1CA, name: "NUSHU CHARACTER-1B1CA", aliases: &[] },
        Codepoint { codepoint: 0x1B1CB, name: "NUSHU CHARACTER-1B1CB", aliases: &[] },
        Codepoint { codepoint: 0x1B1CC, name: "NUSHU CHARACTER-1B1CC", aliases: &[] },
        Codepoint { codepoint: 0x1B1CD, name: "NUSHU CHARACTER-1B1CD", aliases: &[] },
        Codepoint { codepoint: 0x1B1CE, name: "NUSHU CHARACTER-1B1CE", aliases: &[] },
        Codepoint { codepoint: 0x1B1CF, name: "NUSHU CHARACTER-1B1CF", aliases: &[] },
        Codepoint { codepoint: 0x1B1D0, name: "NUSHU CHARACTER-1B1D0", aliases: &[] },
        Codepoint { codepoint: 0x1B1D1, name: "NUSHU CHARACTER-1B1D1", aliases: &[] },
        Codepoint { codepoint: 0x1B1D2, name: "NUSHU CHARACTER-1B1D2", aliases: &[] },
        Codepoint { codepoint: 0x1B1D3, name: "NUSHU CHARACTER-1B1D3", aliases: &[] },
        Codepoint { codepoint: 0x1B1D4, name: "NUSHU CHARACTER-1B1D4", aliases: &[] },
        Codepoint { codepoint: 0x1B1D5, name: "NUSHU CHARACTER-1B1D5", aliases: &[] },
    ];
    assert(v@ =~= codepoint_table_684());
    v
}

pub open spec fn codepoint_table_685() -> Seq<Codepoint> {
    seq![
        Codepoint { codepoint: 0x1B1D6, name: "NUSHU CHARACTER-1B1D6", aliases: &[] },
        Codepoint { codepoint: 0x1B1D7, name: "NUSHU CHARACTER-1B1D7", aliases: &[] },
        Codepoint { codepoint: 0x1B1D8, name: "NUSHU CHARACTER-1B1D8", aliases: &[] },
        Codepoint { codepoint: 0x1B1D9, name: "NUSHU CHARACTER-1B1D9", aliases: &[] },
        Codepoint { codepoint: 0x1B1DA, name: "NUSHU CHARACTER-1B1DA", aliases: &[] },
        Codepoint { codepoint: 0x1B1DB, name: "NUSHU CHARACTER-1B1DB", aliases: &[] },
        Codepoint { codepoint: 0x1B1DC, name: "NUSHU CHARACTER-1B1DC", aliases: &[] },
        Codepoint { codepoint: 0x1B1DD, name: "NUSHU CHARACTER-1B1DD", aliases: &[] },
        Codepoint { codepoint: 0x1B1DE, name: "NUSHU CHARACTER-1B1DE", aliases: &[] },
        Codepoint { codepoint: 0x1B1DF, name: "NUSHU CHARACTER-1B1DF", aliases: &[] },
        Codepoint { codepoint: 0x1B1E0, name: "NUSHU CHARACTER-1B1E0", aliases: &[] },
        Codepoint { codepoint: 0x1B1E1, name: "NUSHU CHARACTER-1B1E1", aliases: &[] },
        Codepoint { codepoint: 0x1B1E2, name: "NUSHU CHARACTER-1B1E2", aliases: &[] },
        Codepoint { codepoint: 0x1B1E3, name: "NUSHU CHARACTER-1B1E3", aliases: &[] },
        Codepoint { codepoint: 0x1B1E4, name: "NUSHU CHARACTER-1B1E4", aliases: &[] },
        Codepoint { codepoint: 0x1B1E5, name: "NUSHU CHARACTER-1B1E5", aliases: &[] },
        Codepoint { codepoint: 0x1B1E6, name: "NUSHU CHARACTER-1B1E6", aliases: &[] },
        Codepoint { codepoint: 0x1B1E7, name: "NUSHU CHARACTER-1B1E7", aliases: &[] },
        Codepoint { codepoint: 0x1B1E8, name: "NUSHU CHARACTER-1B1E8", aliases: &[] },
        Codepoint { codepoint: 0x1B1E9, name: "NUSHU CHARACTER-1B1E9", aliases: &[] },
        Codepoint { codepoint: 0x1B1EA, name: "NUSHU CHARACTER-1B1EA", aliases: &[] },
        Codepoint { codepoint: 0x1B1EB, name: "NUSHU CHARACTER-1B1EB", aliases: &[] },
        Codepoint { codepoint: 0x1B1EC, name: "NUSHU CHARACTER-1B1EC", aliases: &[] },
        Codepoint { codepoint: 0x1B1ED, name: "NUSHU CHARACTER-1B1ED", aliases: &[] },
        Codepoint { codepoint: 0x1B1EE, name: "NUSHU CHARACTER-1B1EE", aliases: &[] },
        Codepoint { codepoint: 0x1B1EF, name: "NUSHU CHARACTER-1B1EF", aliases: &[] },
        Codepoint { codepoint: 0x1B1F0, name: "NUSHU CHARACTER-1B1F0", aliases: &[] },
        Codepoint { codepoint: 0x1B1F1, name: "NUSHU CHARACTER-1B1F1", aliases: &[] },
        Codepoint { codepoint: 0x1B1F2, name: "NUSHU CHARACTER-1B1F2", aliases: &[] },
        Codepoint { codepoint: 0x1B1F3, name: "NUSHU CHARACTER-1B1F3", aliases: &[] },
        Codepoint { codepoint: 0x1B1F4, name: "NUSHU CHARACTER-1B1F4", aliases: &[] },
        Codepoint { codepoint: 0x1B1F5, name: "NUSHU CHARACTER-1B1F5", aliases: &[] },
        Codepoint { codepoint: 0x1B1F6, name: "NUSHU CHARACTER-1B1F6", aliases: &[] },
        Codepoint { codepoint: 0x1B1F7, name: "NUSHU CHARACTER-1B1F7", aliases: &[] },
        Codepoint { codepoint: 0x1B1F8, name: "NUSHU CHARACTER-1B1F8", aliases: &[] },
        Codepoint { codepoint: 0x1B1F9, name: "NUSHU CHARACTER-1B1F9", aliases: &[] },
        Codepoint { codepoint: 0x1B1FA, name: "NUSHU CHARACTER-1B1FA", aliases: &[] },
        Codepoint { codepoint: 0x1B1FB, name: "NUSHU CHARACTER-1B1FB", aliases: &[] },
        Codepoint { codepoint: 0x1B1FC, name: "NUSHU CHARACTER-1B1FC", aliases: &[] },
        Codepoint { codepoint: 0x1B1FD, name: "NUSHU CHARACTER-1B1FD", aliases: &[] },
    ]
}

fn all_codepoints_685() -> (v: Vec<Codepoint>)
    ensures
        v@ == codepoint_table_685(),
{
    let v = vec![
        Codepoint { codepoint: 0x1B1D6, name: "NUSHU CHARACTER-1B1D6", aliases: &[] },
        Codepoint { codepoint: 0x1B1D7, name: "NUSHU CHARACTER-1B1D7", aliases: &[] },
        Codepoint { codepoint: 0x1B1D8, name: "NUSHU CHARACTER-1B1D8", aliases: &[] },
        Codepoint { codepoint: 0x1B1D9, name: "NUSHU CHARACTER-1B1D9", aliases: &[] },
        Codepoint { codepoint: 0x1B1DA, name: "NUSHU CHARACTER-1B1DA", aliases: &[] },
        Codepoint { codepoint: 0x1B1DB, name: "NUSHU CHARACTER-1B1DB", aliases: &[] },
        Codepoint { codepoint: 0x1B1DC, name: "NUSHU CHARACTER-1B1DC", aliases: &[] },
        Codepoint { codepoint: 0x1B1DD, name: "NUSHU CHARACTER-1B1DD", aliases: &[] },
        Codepoint { codepoint: 0x1B1DE, name: "NUSHU CHARACTER-1B1DE", aliases: &[] },
        Codepoint { codepoint: 0x1B1DF, name: "NUSHU CHARACTER-1B1DF", aliases: &[] },
        Codepoint { codepoint: 0x1B1E0, name: "NUSHU CHARACTER-1B1E0", aliases: &[] },
        Codepoint { codepoint: 0x1B1E1, name: "NUSHU CHARACTER-1B1E1", aliases: &[] },
        Codepoint { codepoint: 0x1B1E2, name: "NUSHU CHARACTER-1B1E2", aliases: &[] },
        Codepoint { codepoint: 0x1B1E3, name: "NUSHU CHARACTER-1B1E3", aliases: &[] },
        Codepoint { codepoint: 0x1B1E4, name: "NUSHU CHARACTER-1B1E4", aliases: &[] },
        Codepoint { codepoint: 0x1B1E5, name: "NUSHU CHARACTER-1B1E5", aliases: &[] },
        Codepoint { codepoint: 0x1B1E6, name: "NUSHU CHARACTER-1B1E6", aliases: &[] },
        Codepoint { codepoint: 0x1B1E7, name: "NUSHU CHARACTER-1B1E7", aliases: &[] },
        Codepoint { codepoint: 0x1B1E8, name: "NUSHU CHARACTER-1B1E8", aliases: &[] },
        Codepoint { codepoint: 0x1B1E9, name: "NUSHU CHARACTER-1B1E9", aliases: &[] },
        Codepoint { codepoint: 0x1B1EA, name: "NUSHU CHARACTER-1B1EA", aliases: &[] },
        Codepoint { codepoint: 0x1B1EB, name: "NUSHU CHARACTER-1B1EB", aliases: &[] },
        Codepoint { codepoint: 0x1B1EC, name: "NUSHU CHARACTER-1B1EC", aliases: &[] },
        Codepoint { codepoint: 0x1B1ED, name: "NUSHU CHARACTER-1B1ED", aliases: &[] },
        Codepoint { codepoint: 0x1B1EE, name: "NUSHU CHARACTER-1B1EE", aliases: &[] },
        Codepoint { codepoint: 0x1B1EF, name: "NUSHU CHARACTER-1B1EF", aliases: &[] },
        Codepoint { codepoint: 0x1B1F0, name: "NUSHU CHARACTER-1B1F0", aliases: &[] },
        Codepoint { codepoint: 0x1B1F1, name: "NUSHU CHARACTER-1B1F1", aliases: &[] },
        Codepoint { codepoint: 0x1B1F2, name: "NUSHU CHARACTER-1B1F2", aliases: &[] },
        Codepoint { codepoint: 0x1B1F3, name: "NUSHU CHARACTER-1B1F3", aliases: &[] },
        Codepoint { codepoint: 0x1B1F4, name: "NUSHU CHARACTER-1B1F4", aliases: &[] },
        Codepoint { codepoint: 0x1B1F5, name: "NUSHU CHARACTER-1B1F5", aliases: &[] },
        Codepoint { codepoint: 0x1B1F6, name: "NUSHU CHARACTER-1B1F6", aliases: &[] },
        Codepoint { codepoint: 0x1B1F7, name: "NUSHU CHARACTER-1B1F7", aliases: &[] },
        Codepoint { codepoint: 0x1B1F8, name: "NUSHU CHARACTER-1B1F8", aliases: &[] },
        Codepoint { codepoint: 0x1B1F9, name: "NUSHU CHARACTER-1B1F9", aliases: &[] },
        Codepoint { codepoint: 0x1B1FA, name: "NUSHU CHARACTER-1B1FA", aliases: &[] },
        Codepoint { codepoint: 0x1B1FB, name: "NUSHU CHARACTER-1B1FB", aliases: &[] },
        Codepoint { codepoint: 0x1B1FC, name: "NUSHU CHARACTER-1B1FC", aliases: &[] },
        Codepoint { codepoint: 0x1B1FD, name: "NUSHU CHARACTER-1B1FD", aliases: &[] },
    ];
    assert(v@ =~= codepoint_table_685());
    v
}

pub open spec fn codepoint_table_686() -> Seq<Codepoint> {
    seq![
        Codepoint { codepoint: 0x1B1FE, name: "NUSHU CHARACTER-1B1FE", aliases: &[] },
        Codepoint { codepoint: 0x1B1FF, name: "NUSHU CHARACTER-1B1FF", aliases: &[] },
        Codepoint { codepoint: 0x1B200, name: "NUSHU CHARACTER-1B200", aliases: &[] },
        Codepoint { codepoint: 0x1B201, name: "NUSHU CHARACTER-1B201", aliases: &[] },
        Codepoint { codepoint: 0x1B202, name: "NUSHU CHARACTER-1B202", aliases: &[] },
        Codepoint { codepoint: 0x1B203, name: "NUSHU CHARACTER-1B203", aliases: &[] },
        Codepoint { codepoint: 0x1B204, name: "NUSHU CHARACTER-1B204", aliases: &[] },
        Codepoint { codepoint: 0x1B205, name: "NUSHU CHARACTER-1B205", aliases: &[] },
        Codepoint { codepoint: 0x1B206, name: "NUSHU CHARACTER-1B206", aliases: &[] },
        Codepoint { codepoint: 0x1B207, name: "NUSHU CHARACTER-1B207", aliases: &[] },
        Codepoint { codepoint: 0x1B208, name: "NUSHU CHARACTER-1B208", aliases: &[] },
        Codepoint { codepoint: 0x1B209, name: "NUSHU CHARACTER-1B209", aliases: &[] },
        Codepoint { codepoint: 0x1B20A, name: "NUSHU CHARACTER-1B20A", aliases: &[] },
        Codepoint { codepoint: 0x1B20B, name: "NUSHU CHARACTER-1B20B", aliases: &[] },
        Codepoint { codepoint: 0x1B20C, name: "NUSHU CHARACTER-1B20C", aliases: &[] },
        Codepoint { codepoint: 0x1B20D, name: "NUSHU CHARACTER-1B20D", aliases: &[] },
        Codepoint { codepoint: 0x1B20E, name: "NUSHU CHARACTER-1B20E", aliases: &[] },
        Codepoint { codepoint: 0x1B20F, name: "NUSHU CHARACTER-1B20F", aliases: &[] },
        Codepoint { codepoint: 0x1B210, name: "NUSHU CHARACTER-1B210", aliases: &[] },
        Codepoint { codepoint: 0x1B211, name: "NUSHU CHARACTER-1B211", aliases: &[] },
        Codepoint { codepoint: 0x1B212, name: "NUSHU CHARACTER-1B212", aliases: &[] },
        Codepoint { codepoint: 0x1B213, name: "NUSHU CHARACTER-1B213", aliases: &[] },
        Codepoint { codepoint: 0x1B214, name: "NUSHU CHARACTER-1B214", aliases: &[] },
        Codepoint { codepoint: 0x1B215, name: "NUSHU CHARACTER-1B215", aliases: &[] },
        Codepoint { codepoint: 0x1B216, name: "NUSHU CHARACTER-1B216", aliases: &[] },
        Codepoint { codepoint: 0x1B217, name: "NUSHU CHARACTER-1B217", aliases: &[] },
        Codepoint { codepoint: 0x1B218, name: "NUSHU CHARACTER-1B218", aliases: &[] },
        Codepoint { codepoint: 0x1B219, name: "NUSHU CHARACTER-1B219", aliases: &[] },
        Codepoint { codepoint: 0x1B21A, name: "NUSHU CHARACTER-1B21A", aliases: &[] },
        Codepoint { codepoint: 0x1B21B, name: "NUSHU CHARACTER-1B21B", aliases: &[] },
        Codepoint { codepoint: 0x1B21C, name: "NUSHU CHARACTER-1B21C", aliases: &[] },
        Codepoint { codepoint: 0x1B21D, name: "NUSHU CHARACTER-1B21D", aliases: &[] },
        Codepoint { codepoint: 0x1B21E, name: "NUSHU CHARACTER-1B21E", aliases: &[] },
        Codepoint { codepoint: 0x1B21F, name: "NUSHU CHARACTER-1B21F", aliases: &[] },
        Codepoint { codepoint: 0x1B220, name: "NUSHU CHARACTER-1B220", aliases: &[] },
        Codepoint { codepoint: 0x1B221, name: "NUSHU CHARACTER-1B221", aliases: &[] },
        Codepoint { codepoint: 0x1B222, name: "NUSHU CHARACTER-1B222", aliases: &[] },
        Codepoint { codepoint: 0x1B223, name: "NUSHU CHARACTER-1B223", aliases: &[] },
        Codepoint { codepoint: 0x1B224, name: "NUSHU CHARACTER-1B224", aliases: &[] },
        Codepoint { codepoint: 0x1B225, name: "NUSHU CHARACTER-1B225", aliases: &[] },
    ]
}

fn all_codepoints_686() -> (v: Vec<Codepoint>)
    ensures
        v@ == codepoint_table_686(),
{
    let v = vec![
        Codepoint { codepoint: 0x1B1FE, name: "NUSHU CHARACTER-1B1FE", aliases: &[] },
        Codepoint { codepoint: 0x1B1FF, name: "NUSHU CHARACTER-1B1FF", aliases: &[] },
        Codepoint { codepoint: 0x1B200, name: "NUSHU CHARACTER-1B200", aliases: &[] },
        Codepoint { codepoint: 0x1B201, name: "NUSHU CHARACTER-1B201", aliases: &[] },
        Codepoint { codepoint: 0x1B202, name: "NUSHU CHARACTER-1B202", aliases: &[] },
        Codepoint { codepoint: 0x1B203, name: "NUSHU CHARACTER-1B203", aliases: &[] },
        Codepoint { codepoint: 0x1B204, name: "NUSHU CHARACTER-1B204", aliases: &[] },
        Codepoint { codepoint: 0x1B205, name: "NUSHU CHARACTER-1B205", aliases: &[] },
        Codepoint { codepoint: 0x1B206, name: "NUSHU CHARACTER-1B206", aliases: &[] },
        Codepoint { codepoint: 0x1B207, name: "NUSHU CHARACTER-1B207", aliases: &[] },
        Codepoint { codepoint: 0x1B208, name: "NUSHU CHARACTER-1B208", aliases: &[] },
        Codepoint { codepoint: 0x1B209, name: "NUSHU CHARACTER-1B209", aliases: &[] },
        Codepoint { codepoint: 0x1B20A, name: "NUSHU CHARACTER-1B20A", aliases: &[] },
        Codepoint { codepoint: 0x1B20B, name: "NUSHU CHARACTER-1B20B", aliases: &[] },
        Codepoint { codepoint: 0x1B20C, name: "NUSHU CHARACTER-1B20C", aliases: &[] },
        Codepoint { codepoint: 0x1B20D, name: "NUSHU CHARACTER-1B20D", aliases: &[] },
        Codepoint { codepoint: 0x1B20E, name: "NUSHU CHARACTER-1B20E", aliases: &[] },
        Codepoint { codepoint: 0x1B20F, name: "NUSHU CHARACTER-1B20F", aliases: &[] },
        Codepoint { codepoint: 0x1B210, name: "NUSHU CHARACTER-1B210", aliases: &[] },
        Codepoint { codepoint: 0x1B211, name: "NUSHU CHARACTER-1B211", aliases: &[] },
        Codepoint { codepoint: 0x1B212, name: "NUSHU CHARACTER-1B212", aliases: &[] },
        Codepoint { codepoint: 0x1B213, name: "NUSHU CHARACTER-1B213", aliases: &[] },
        Codepoint { codepoint: 0x1B214, name: "NUSHU CHARACTER-1B214", aliases: &[] },
        Codepoint { codepoint: 0x1B215, name: "NUSHU CHARACTER-1B215", aliases: &[] },
        Codepoint { codepoint: 0x1B216, name: "NUSHU CHARACTER-1B216", aliases: &[] },
        Codepoint { codepoint: 0x1B217, name: "NUSHU CHARACTER-1B217", aliases: &[] },
        Codepoint { codepoint: 0x1B218, name: "NUSHU CHARACTER-1B218", aliases: &[] },
        Codepoint { codepoint: 0x1B219, name: "NUSHU CHARACTER-1B219", aliases: &[] },
        Codepoint { codepoint: 0x1B21A, name: "NUSHU CHARACTER-1B21A", aliases: &[] },
        Codepoint { codepoint: 0x1B21B, name: "NUSHU CHARACTER-1B21B", aliases: &[] },
        Codepoint { codepoint: 0x1B21C, name: "NUSHU CHARACTER-1B21C", aliases: &[] },
        Codepoint { codepoint: 0x1B21D, name: "NUSHU CHARACTER-1B21D", aliases: &[] },
        Codepoint { codepoint: 0x1B21E, name: "NUSHU CHARACTER-1B21E", aliases: &[] },
        Codepoint { codepoint: 0x1B21F, name: "NUSHU CHARACTER-1B21F", aliases: &[] },
        Codepoint { codepoint: 0x1B220, name: "NUSHU CHARACTER-1B220", aliases: &[] },
        Codepoint { codepoint: 0x1B221, name: "NUSHU CHARACTER-1B221", aliases: &[] },
        Codepoint { codepoint: 0x1B222, name: "NUSHU CHARACTER-1B222", aliases: &[] },
        Codepoint { codepoint: 0x1B223, name: "NUSHU CHARACTER-1B223", aliases: &[] },
        Codepoint { codepoint: 0x1B224, name: "NUSHU CHARACTER-1B224", aliases: &[] },
        Codepoint { codepoint: 0x1B225, name: "NUSHU CHARACTER-1B225", aliases: &[] },
    ];
    assert(v@ =~= codepoint_table_686());
    v
}

pub open spec fn codepoint_table_687() -> Seq<Codepoint> {
    seq![
        Codepoint { codepoint: 0x1B226, name: "NUSHU CHARACTER-1B226", aliases: &[] },
        Codepoint { codepoint: 0x1B227, name: "NUSHU CHARACTER-1B227", aliases: &[] },
        Codepoint { codepoint: 0x1B228, name: "NUSHU CHARACTER-1B228", aliases: &[] },
        Codepoint { codepoint: 0x1B229, name: "NUSHU CHARACTER-1B229", aliases: &[] },
        Codepoint { codepoint: 0x1B22A, name: "NUSHU CHARACTER-1B22A", aliases: &[] },
        Codepoint { codepoint: 0x1B22B, name: "NUSHU CHARACTER-1B22B", aliases: &[] },
        Codepoint { codepoint: 0x1B22C, name: "NUSHU CHARACTER-1B22C", aliases: &[] },
        Codepoint { codepoint: 0x1B22D, name: "NUSHU CHARACTER-1B22D", aliases: &[] },
        Codepoint { codepoint: 0x1B22E, name: "NUSHU CHARACTER-1B22E", aliases: &[] },
        Codepoint { codepoint: 0x1B22F, name: "NUSHU CHARACTER-1B22F", aliases: &[] },
        Codepoint { codepoint: 0x1B230, name: "NUSHU CHARACTER-1B230", aliases: &[] },
        Codepoint { codepoint: 0x1B231, name: "NUSHU CHARACTER-1B231", aliases: &[] },
        Codepoint { codepoint: 0x1B232, name: "NUSHU CHARACTER-1B232", aliases: &[] },
        Codepoint { codepoint: 0x1B233, name: "NUSHU CHARACTER-1B233", aliases: &[] },
        Codepoint { codepoint: 0x1B234, name: "NUSHU CHARACTER-1B234", aliases: &[] },
        Codepoint { codepoint: 0x1B235, name: "NUSHU CHARACTER-1B235", aliases: &[] },
        Codepoint { codepoint: 0x1B236, name: "NUSHU CHARACTER-1B236", aliases: &[] },
        Codepoint { codepoint: 0x1B237, name: "NUSHU CHARACTER-1B237", aliases: &[] },
        Codepoint { codepoint: 0x1B238, name: "NUSHU CHARACTER-1B238", aliases: &[] },
        Codepoint { codepoint: 0x1B239, name: "NUSHU CHARACTER-1B239", aliases: &[] },
        Codepoint { codepoint: 0x1B23A, name: "NUSHU CHARACTER-1B23A", aliases: &[] },
        Codepoint { codepoint: 0x1B23B, name: "NUSHU CHARACTER-1B23B", aliases: &[] },
        Codepoint { codepoint: 0x1B23C, name: "NUSHU CHARACTER-1B23C", aliases: &[] },
        Codepoint { codepoint: 0x1B23D, name: "NUSHU CHARACTER-1B23D", aliases: &[] },
        Codepoint { codepoint: 0x1B23E, name: "NUSHU CHARACTER-1B23E", aliases: &[] },
        Codepoint { codepoint: 0x1B23F, name: "NUSHU CHARACTER-1B23F", aliases: &[] },
        Codepoint { codepoint: 0x1B240, name: "NUSHU CHARACTER-1B240", aliases: &[] },
        Codepoint { codepoint: 0x1B241, name: "NUSHU CHARACTER-1B241", aliases: &[] },
        Codepoint { codepoint: 0x1B242, name: "NUSHU CHARACTER-1B242", aliases: &[] },
        Codepoint { codepoint: 0x1B243, name: "NUSHU CHARACTER-1B243", aliases: &[] },
        Codepoint { codepoint: 0x1B244, name: "NUSHU CHARACTER-1B244", aliases: &[] },
        Codepoint { codepoint: 0x1B245, name: "NUSHU CHARACTER-1B245", aliases: &[] },
        Codepoint { codepoint: 0x1B246, name: "NUSHU CHARACTER-1B246", aliases: &[] },
        Codepoint { codepoint: 0x1B247, name: "NUSHU CHARACTER-1B247", aliases: &[] },
        Codepoint { codepoint: 0x1B248, name: "NUSHU CHARACTER-1B248", aliases: &[] },
        Codepoint { codepoint: 0x1B249, name: "NUSHU CHARACTER-1B249", aliases: &[] },
        Codepoint { codepoint: 0x1B24A, name: "NUSHU CHARACTER-1B24A", aliases: &[] },
        Codepoint { codepoint: 0x1B24B, name: "NUSHU CHARACTER-1B24B", aliases: &[] },
        Codepoint { codepoint: 0x1B24C, name: "NUSHU CHARACTER-1B24C", aliases: &[] },
        Codepoint { codepoint: 0x1B24D, name: "NUSHU CHARACTER-1B24D", aliases: &[] },
    ]
}

fn all_codepoints_687() -> (v: Vec<Codepoint>)
    ensures
        v@ == codepoint_table_687(),
{
    let v = vec![
        Codepoint { codepoint: 0x1B226, name: "NUSHU CHARACTER-1B226", aliases: &[] },
        Codepoint { codepoint: 0x1B227, name: "NUSHU CHARACTER-1B227", aliases: &[] },
        Codepoint { codepoint: 0x1B228, name: "NUSHU CHARACTER-1B228", aliases: &[] },
        Codepoint { codepoint: 0x1B229, name: "NUSHU CHARACTER-1B229", aliases: &[] },
        Codepoint { codepoint: 0x1B22A, name: "NUSHU CHARACTER-1B22A", aliases: &[] },
        Codepoint { codepoint: 0x1B22B, name: "NUSHU CHARACTER-1B22B", aliases: &[] },
        Codepoint { codepoint: 0x1B22C, name: "NUSHU CHARACTER-1B22C", aliases: &[] },
        Codepoint { codepoint: 0x1B22D, name: "NUSHU CHARACTER-1B22D", aliases: &[] },
        Codepoint { codepoint: 0x1B22E, name: "NUSHU CHARACTER-1B22E", aliases: &[] },
        Codepoint { codepoint: 0x1B22F, name: "NUSHU CHARACTER-1B22F", aliases: &[] },
        Codepoint { codepoint: 0x1B230, name: "NUSHU CHARACTER-1B230", aliases: &[] },
        Codepoint { codepoint: 0x1B231, name: "NUSHU CHARACTER-1B231", aliases: &[] },
        Codepoint { codepoint: 0x1B232, name: "NUSHU CHARACTER-1B232", aliases: &[] },
        Codepoint { codepoint: 0x1B233, name: "NUSHU CHARACTER-1B233", aliases: &[] },
        Codepoint { codepoint: 0x1B234, name: "NUSHU CHARACTER-1B234", aliases: &[] },
        Codepoint { codepoint: 0x1B235, name: "NUSHU CHARACTER-1B235", aliases: &[] },
        Codepoint { codepoint: 0x1B236, name: "NUSHU CHARACTER-1B236", aliases: &[] },
        Codepoint { codepoint: 0x1B237, name: "NUSHU CHARACTER-1B237", aliases: &[] },
        Codepoint { codepoint: 0x1B238, name: "NUSHU CHARACTER-1B238", aliases: &[] },
        Codepoint { codepoint: 0x1B239, name: "NUSHU CHARACTER-1B239", aliases: &[] },
        Codepoint { codepoint: 0x1B23A, name: "NUSHU CHARACTER-1B23A", aliases: &[] },
        Codepoint { codepoint: 0x1B23B, name: "NUSHU CHARACTER-1B23B", aliases: &[] },
        Codepoint { codepoint: 0x1B23C, name: "NUSHU CHARACTER-1B23C", aliases: &[] },
        Codepoint { codepoint: 0x1B23D, name: "NUSHU CHARACTER-1B23D", aliases: &[] },
        Codepoint { codepoint: 0x1B23E, name: "NUSHU CHARACTER-1B23E", aliases: &[] },
        Codepoint { codepoint: 0x1B23F, name: "NUSHU CHARACTER-1B23F", aliases: &[] },
        Codepoint { codepoint: 0x1B240, name: "NUSHU CHARACTER-1B240", aliases: &[] },
        Codepoint { codepoint: 0x1B241, name: "NUSHU CHARACTER-1B241", aliases: &[] },
        Codepoint { codepoint: 0x1B242, name: "NUSHU CHARACTER-1B242", aliases: &[] },
        Codepoint { codepoint: 0x1B243, name: "NUSHU CHARACTER-1B243", aliases: &[] },
        Codepoint { codepoint: 0x1B244, name: "NUSHU CHARACTER-1B244", aliases: &[] },
        Codepoint { codepoint: 0x1B245, name: "NUSHU CHARACTER-1B245", aliases: &[] },
        Codepoint { codepoint: 0x1B246, name: "NUSHU CHARACTER-1B246", aliases: &[] },
        Codepoint { codepoint: 0x1B247, name: "NUSHU CHARACTER-1B247", aliases: &[] },
        Codepoint { codepoint: 0x1B248, name: "NUSHU CHARACTER-1B248", aliases: &[] },
        Codepoint { codepoint: 0x1B249, name: "NUSHU CHARACTER-1B249", aliases: &[] },
        Codepoint { codepoint: 0x1B24A, name: "NUSHU CHARACTER-1B24A", aliases: &[] },
        Codepoint { codepoint: 0x1B24B, name: "NUSHU CHARACTER-1B24B", aliases: &[] },
        Codepoint { codepoint: 0x1B24C, name: "NUSHU CHARACTER-1B24C", aliases: &[] },
        Codepoint { codepoint: 0x1B24D, name: "NUSHU CHARACTER-1B24D", aliases: &[] },
    ];
    assert(v@ =~= codepoint_table_687());
    v
}

pub open spec fn codepoint_table_688() -> Seq<Codepoint> {
    seq![
        Codepoint { codepoint: 0x1B24E, name: "NUSHU CHARACTER-1B24E", aliases: &[] },
        Codepoint { codepoint: 0x1B24F, name: "NUSHU CHARACTER-1B24F", aliases: &[] },
        Codepoint { codepoint: 0x1B250, name: "NUSHU CHARACTER-1B250", aliases: &[] },
        Codepoint { codepoint: 0x1B251, name: "NUSHU CHARACTER-1B251", aliases: &[] },
        Codepoint { codepoint: 0x1B252, name: "NUSHU CHARACTER-1B252", aliases: &[] },
        Codepoint { codepoint: 0x1B253, name: "NUSHU CHARACTER-1B253", aliases: &[] },
        Codepoint { codepoint: 0x1B254, name: "NUSHU CHARACTER-1B254", aliases: &[] },
        Codepoint { codepoint: 0x1B255, name: "NUSHU CHARACTER-1B255", aliases: &[] },
        Codepoint { codepoint: 0x1B256, name: "NUSHU CHARACTER-1B256", aliases: &[] },
        Codepoint { codepoint: 0x1B257, name: "NUSHU CHARACTER-1B257", aliases: &[] },
        Codepoint { codepoint: 0x1B258, name: "NUSHU CHARACTER-1B258", aliases: &[] },
        Codepoint { codepoint: 0x1B259, name: "NUSHU CHARACTER-1B259", aliases: &[] },
        Codepoint { codepoint: 0x1B25A, name: "NUSHU CHARACTER-1B25A", aliases: &[] },
        Codepoint { codepoint: 0x1B25B, name: "NUSHU CHARACTER-1B25B", aliases: &[] },
        Codepoint { codepoint: 0x1B25C, name: "NUSHU CHARACTER-1B25C", aliases: &[] },
        Codepoint { codepoint: 0x1B25D, name: "NUSHU CHARACTER-1B25D", aliases: &[] },
        Codepoint { codepoint: 0x1B25E, name: "NUSHU CHARACTER-1B25E", aliases: &[] },
        Codepoint { codepoint: 0x1B25F, name: "NUSHU CHARACTER-1B25F", aliases: &[] },
        Codepoint { codepoint: 0x1B260, name: "NUSHU CHARACTER-1B260", aliases: &[] },
        Codepoint { codepoint: 0x1B261, name: "NUSHU CHARACTER-1B261", aliases: &[] },
        Codepoint { codepoint: 0x1B262, name: "NUSHU CHARACTER-1B262", aliases: &[] },
        Codepoint { codepoint: 0x1B263, name: "NUSHU CHARACTER-1B263", aliases: &[] },
        Codepoint { codepoint: 0x1B264, name: "NUSHU CHARACTER-1B264", aliases: &[] },
        Codepoint { codepoint: 0x1B265, name: "NUSHU CHARACTER-1B265", aliases: &[] },
        Codepoint { codepoint: 0x1B266, name: "NUSHU CHARACTER-1B266", aliases: &[] },
        Codepoint { codepoint: 0x1B267, name: "NUSHU CHARACTER-1B267", aliases: &[] },
        Codepoint { codepoint: 0x1B268, name: "NUSHU CHARACTER-1B268", aliases: &[] },
        Codepoint { codepoint: 0x1B269, name: "NUSHU CHARACTER-1B269", aliases: &[] },
        Codepoint { codepoint: 0x1B26A, name: "NUSHU CHARACTER-1B26A", aliases: &[] },
        Codepoint { codepoint: 0x1B26B, name: "NUSHU CHARACTER-1B26B", aliases: &[] },
        Codepoint { codepoint: 0x1B26C, name: "NUSHU CHARACTER-1B26C", aliases: &[] },
        Codepoint { codepoint: 0x1B26D, name: "NUSHU CHARACTER-1B26D", aliases: &[] },
        Codepoint { codepoint: 0x1B26E, name: "NUSHU CHARACTER-1B26E", aliases: &[] },
        Codepoint { codepoint: 0x1B26F, name: "NUSHU CHARACTER-1B26F", aliases: &[] },
        Codepoint { codepoint: 0x1B270, name: "NUSHU CHARACTER-1B270", aliases: &[] },
        Codepoint { codepoint: 0x1B271, name: "NUSHU CHARACTER-1B271", aliases: &[] },
        Codepoint { codepoint: 0x1B272, name: "NUSHU CHARACTER-1B272", aliases: &[] },
        Codepoint { codepoint: 0x1B273, name: "NUSHU CHARACTER-1B273", aliases: &[] },
        Codepoint { codepoint: 0x1B274, name: "NUSHU CHARACTER-1B274", aliases: &[] },
        Codepoint { codepoint: 0x1B275, name: "NUSHU CHARACTER-1B275", aliases: &[] },
    ]
}

fn all_codepoints_688() -> (v: Vec<Codepoint>)
    ensures
        v@ == codepoint_table_688(),
{
    let v = vec![
        Codepoint { codepoint: 0x1B24E, name: "NUSHU CHARACTER-1B24E", aliases: &[] },
        Codepoint { codepoint: 0x1B24F, name: "NUSHU CHARACTER-1B24F", aliases: &[] },
        Codepoint { codepoint: 0x1B250, name: "NUSHU CHARACTER-1B250", aliases: &[] },
        Codepoint { codepoint: 0x1B251, name: "NUSHU CHARACTER-1B251", aliases: &[] },
        Codepoint { codepoint: 0x1B252, name: "NUSHU CHARACTER-1B252", aliases: &[] },
        Codepoint { codepoint: 0x1B253, name: "NUSHU CHARACTER-1B253", aliases: &[] },
        Codepoint { codepoint: 0x1B254, name: "NUSHU CHARACTER-1B254", aliases: &[] },
        Codepoint { codepoint: 0x1B255, name: "NUSHU CHARACTER-1B255", aliases: &[] },
        Codepoint { codepoint: 0x1B256, name: "NUSHU CHARACTER-1B256", aliases: &[] },
        Codepoint { codepoint: 0x1B257, name: "NUSHU CHARACTER-1B257", aliases: &[] },
        Codepoint { codepoint: 0x1B258, name: "NUSHU CHARACTER-1B258", aliases: &[] },
        Codepoint { codepoint: 0x1B259, name: "NUSHU CHARACTER-1B259", aliases: &[] },
        Codepoint { codepoint: 0x1B25A, name: "NUSHU CHARACTER-1B25A", aliases: &[] },
        Codepoint { codepoint: 0x1B25B, name: "NUSHU CHARACTER-1B25B", aliases: &[] },
        Codepoint { codepoint: 0x1B25C, name: "NUSHU CHARACTER-1B25C", aliases: &[] },
        Codepoint { codepoint: 0x1B25D, name: "NUSHU CHARACTER-1B25D", aliases: &[] },
        Codepoint { codepoint: 0x1B25E, name: "NUSHU CHARACTER-1B25E", aliases: &[] },
        Codepoint { codepoint: 0x1B25F, name: "NUSHU CHARACTER-1B25F", aliases: &[] },
        Codepoint { codepoint: 0x1B260, name: "NUSHU CHARACTER-1B260", aliases: &[] },
        Codepoint { codepoint: 0x1B261, name: "NUSHU CHARACTER-1B261", aliases: &[] },
        Codepoint { codepoint: 0x1B262, name: "NUSHU CHARACTER-1B262", aliases: &[] },
        Codepoint { codepoint: 0x1B263, name: "NUSHU CHARACTER-1B263", aliases: &[] },
        Codepoint { codepoint: 0x1B264, name: "NUSHU CHARACTER-1B264", aliases: &[] },
        Codepoint { codepoint: 0x1B265, name: "NUSHU CHARACTER-1B265", aliases: &[] },
        Codepoint { codepoint: 0x1B266, name: "NUSHU CHARACTER-1B266", aliases: &[] },
        Codepoint { codepoint: 0x1B267, name: "NUSHU CHARACTER-1B267", aliases: &[] },
        Codepoint { codepoint: 0x1B268, name: "NUSHU CHARACTER-1B268", aliases: &[] },
        Codepoint { codepoint: 0x1B269, name: "NUSHU CHARACTER-1B269", aliases: &[] },
        Codepoint { codepoint: 0x1B26A, name: "NUSHU CHARACTER-1B26A", aliases: &[] },
        Codepoint { codepoint: 0x1B26B, name: "NUSHU CHARACTER-1B26B", aliases: &[] },
        Codepoint { codepoint: 0x1B26C, name: "NUSHU CHARACTER-1B26C", aliases: &[] },
        Codepoint { codepoint: 0x1B26D, name: "NUSHU CHARACTER-1B26D", aliases: &[] },
        Codepoint { codepoint: 0x1B26E, name: "NUSHU CHARACTER-1B26E", aliases: &[] },
        Codepoint { codepoint: 0x1B26F, name: "NUSHU CHARACTER-1B26F", aliases: &[] },
        Codepoint { codepoint: 0x1B270, name: "NUSHU CHARACTER-1B270", aliases: &[] },
        Codepoint { codepoint: 0x1B271, name: "NUSHU CHARACTER-1B271", aliases: &[] },
        Codepoint { codepoint: 0x1B272, name: "NUSHU CHARACTER-1B272", aliases: &[] },
        Codepoint { codepoint: 0x1B273, name: "NUSHU CHARACTER-1B273", aliases: &[] },
        Codepoint { codepoint: 0x1B274, name: "NUSHU CHARACTER-1B274", aliases: &[] },
        Codepoint { codepoint: 0x1B275, name: "NUSHU CHARACTER-1B275", aliases: &[] },
    ];
    assert(v@ =~= codepoint_table_688());
    v
}

pub open spec fn codepoint_table_689() -> Seq<Codepoint> {
    seq![
        Codepoint { codepoint: 0x1B276, name: "NUSHU CHARACTER-1B276", aliases: &[] },
        Codepoint { codepoint: 0x1B277, name: "NUSHU CHARACTER-1B277", aliases: &[] },
        Codepoint { codepoint: 0x1B278, name: "NUSHU CHARACTER-1B278", aliases: &[] },
        Codepoint { codepoint: 0x1B279, name: "NUSHU CHARACTER-1B279", aliases: &[] },
        Codepoint { codepoint: 0x1B27A, name: "NUSHU CHARACTER-1B27A", aliases: &[] },
        Codepoint { codepoint: 0x1B27B, name: "NUSHU CHARACTER-1B27B", aliases: &[] },
        Codepoint { codepoint: 0x1B27C, name: "NUSHU CHARACTER-1B27C", aliases: &[] },
        Codepoint { codepoint: 0x1B27D, name: "NUSHU CHARACTER-1B27D", aliases: &[] },
        Codepoint { codepoint: 0x1B27E, name: "NUSHU CHARACTER-1B27E", aliases: &[] },
        Codepoint { codepoint: 0x1B27F, name: "NUSHU CHARACTER-1B27F", aliases: &[] },
        Codepoint { codepoint: 0x1B280, name: "NUSHU CHARACTER-1B280", aliases: &[] },
        Codepoint { codepoint: 0x1B281, name: "NUSHU CHARACTER-1B281", aliases: &[] },
        Codepoint { codepoint: 0x1B282, name: "NUSHU CHARACTER-1B282", aliases: &[] },
        Codepoint { codepoint: 0x1B283, name: "NUSHU CHARACTER-1B283", aliases: &[] },
        Codepoint { codepoint: 0x1B284, name: "NUSHU CHARACTER-1B284", aliases: &[] },
        Codepoint { codepoint: 0x1B285, name: "NUSHU CHARACTER-1B285", aliases: &[] },
        Codepoint { codepoint: 0x1B286, name: "NUSHU CHARACTER-1B286", aliases: &[] },
        Codepoint { codepoint: 0x1B287, name: "NUSHU CHARACTER-1B287", aliases: &[] },
        Codepoint { codepoint: 0x1B288, name: "NUSHU CHARACTER-1B288", aliases: &[] },
        Codepoint { codepoint: 0x1B289, name: "NUSHU CHARACTER-1B289", aliases: &[] },
        Codepoint { codepoint: 0x1B28A, name: "NUSHU CHARACTER-1B28A", aliases: &[] },
        Codepoint { codepoint: 0x1B28B, name: "NUSHU CHARACTER-1B28B", aliases: &[] },
        Codepoint { codepoint: 0x1B28C, name: "NUSHU CHARACTER-1B28C", aliases: &[] },
        Codepoint { codepoint: 0x1B28D, name: "NUSHU CHARACTER-1B28D", aliases: &[] },
        Codepoint { codepoint: 0x1B28E, name: "NUSHU CHARACTER-1B28E", aliases: &[] },
        Codepoint { codepoint: 0x1B28F, name: "NUSHU CHARACTER-1B28F", aliases: &[] },
        Codepoint { codepoint: 0x1B290, name: "NUSHU CHARACTER-1B290", aliases: &[] },
        Codepoint { codepoint: 0x1B291, name: "NUSHU CHARACTER-1B291", aliases: &[] },
        Codepoint { codepoint: 0x1B292, name: "NUSHU CHARACTER-1B292", aliases: &[] },
        Codepoint { codepoint: 0x1B293, name: "NUSHU CHARACTER-1B293", aliases: &[] },
        Codepoint { codepoint: 0x1B294, name: "NUSHU CHARACTER-1B294", aliases: &[] },
        Codepoint { codepoint: 0x1B295, name: "NUSHU CHARACTER-1B295", aliases: &[] },
        Codepoint { codepoint: 0x1B296, name: "NUSHU CHARACTER-1B296", aliases: &[] },
        Codepoint { codepoint: 0x1B297, name: "NUSHU CHARACTER-1B297", aliases: &[] },
        Codepoint { codepoint: 0x1B298, name: "NUSHU CHARACTER-1B298", aliases: &[] },
        Codepoint { codepoint: 0x1B299, name: "NUSHU CHARACTER-1B299", aliases: &[] },
        Codepoint { codepoint: 0x1B29A, name: "NUSHU CHARACTER-1B29A", aliases: &[] },
        Codepoint { codepoint: 0x1B29B, name: "NUSHU CHARACTER-1B29B", aliases: &[] },
        Codepoint { codepoint: 0x1B29C, name: "NUSHU CHARACTER-1B29C", aliases: &[] },
        Codepoint { codepoint: 0x1B29D, name: "NUSHU CHARACTER-1B29D", aliases: &[] },
    ]
}

fn all_codepoints_689() -> (v: Vec<Codepoint>)
    ensures
        v@ == codepoint_table_689(),
{
    let v = vec![
        Codepoint { codepoint: 0x1B276, name: "NUSHU CHARACTER-1B276", aliases: &[] },
        Codepoint { codepoint: 0x1B277, name: "NUSHU CHARACTER-1B277", aliases: &[] },
        Codepoint { codepoint: 0x1B278, name: "NUSHU CHARACTER-1B278", aliases: &[] },
        Codepoint { codepoint: 0x1B279, name: "NUSHU CHARACTER-1B279", aliases: &[] },
        Codepoint { codepoint: 0x1B27A, name: "NUSHU CHARACTER-1B27A", aliases: &[] },
        Codepoint { codepoint: 0x1B27B, name: "NUSHU CHARACTER-1B27B", aliases: &[] },
        Codepoint { codepoint: 0x1B27C, name: "NUSHU CHARACTER-1B27C", aliases: &[] },
        Codepoint { codepoint: 0x1B27D, name: "NUSHU CHARACTER-1B27D", aliases: &[] },
        Codepoint { codepoint: 0x1B27E, name: "NUSHU CHARACTER-1B27E", aliases: &[] },
        Codepoint { codepoint: 0x1B27F, name: "NUSHU CHARACTER-1B27F", aliases: &[] },
        Codepoint { codepoint: 0x1B280, name: "NUSHU CHARACTER-1B280", aliases: &[] },
        Codepoint { codepoint: 0x1B281, name: "NUSHU CHARACTER-1B281", aliases: &[] },
        Codepoint { codepoint: 0x1B282, name: "NUSHU CHARACTER-1B282", aliases: &[] },
        Codepoint { codepoint: 0x1B283, name: "NUSHU CHARACTER-1B283", aliases: &[] },
        Codepoint { codepoint: 0x1B284, name: "NUSHU CHARACTER-1B284", aliases: &[] },
        Codepoint { codepoint: 0x1B285, name: "NUSHU CHARACTER-1B285", aliases: &[] },
        Codepoint { codepoint: 0x1B286, name: "NUSHU CHARACTER-1B286", aliases: &[] },
        Codepoint { codepoint: 0x1B287, name: "NUSHU CHARACTER-1B287", aliases: &[] },
        Codepoint { codepoint: 0x1B288, name: "NUSHU CHARACTER-1B288", aliases: &[] },
        Codepoint { codepoint: 0x1B289, name: "NUSHU CHARACTER-1B289", aliases: &[] },
        Codepoint { codepoint: 0x1B28A, name: "NUSHU CHARACTER-1B28A", aliases: &[] },
        Codepoint { codepoint: 0x1B28B, name: "NUSHU CHARACTER-1B28B", aliases: &[] },
        Codepoint { codepoint: 0x1B28C, name: "NUSHU CHARACTER-1B28C", aliases: &[] },
        Codepoint { codepoint: 0x1B28D, name: "NUSHU CHARACTER-1B28D", aliases: &[] },
        Codepoint { codepoint: 0x1B28E, name: "NUSHU CHARACTER-1B28E", aliases: &[] },
        Codepoint { codepoint: 0x1B28F, name: "NUSHU CHARACTER-1B28F", aliases: &[] },
        Codepoint { codepoint: 0x1B290, name: "NUSHU CHARACTER-1B290", aliases: &[] },
        Codepoint { codepoint: 0x1B291, name: "NUSHU CHARACTER-1B291", aliases: &[] },
        Codepoint { codepoint: 0x1B292, name: "NUSHU CHARACTER-1B292", aliases: &[] },
        Codepoint { codepoint: 0x1B293, name: "NUSHU CHARACTER-1B293", aliases: &[] },
        Codepoint { codepoint: 0x1B294, name: "NUSHU CHARACTER-1B294", aliases: &[] },
        Codepoint { codepoint: 0x1B295, name: "NUSHU CHARACTER-1B295", aliases: &[] },
        Codepoint { codepoint: 0x1B296, name: "NUSHU CHARACTER-1B296", aliases: &[] },
        Codepoint { codepoint: 0x1B297, name: "NUSHU CHARACTER-1B297", aliases: &[] },
        Codepoint { codepoint: 0x1B298, name: "NUSHU CHARACTER-1B298", aliases: &[] },
        Codepoint { codepoint: 0x1B299, name: "NUSHU CHARACTER-1B299", aliases: &[] },
        Codepoint { codepoint: 0x1B29A, name: "NUSHU CHARACTER-1B29A", aliases: &[] },
        Codepoint { codepoint: 0x1B29B, name: "NUSHU CHARACTER-1B29B", aliases: &[] },
        Codepoint { codepoint: 0x1B29C, name: "NUSHU CHARACTER-1B29C", aliases: &[] },
        Codepoint { codepoint: 0x1B29D, name: "NUSHU CHARACTER-1B29D", aliases: &[] },
    ];
    assert(v@ =~= codepoint_table_689());
    v
}

pub open spec fn codepoint_table_690() -> Seq<Codepoint> {
    seq![
        Codepoint { codepoint: 0x1B29E, name: "NUSHU CHARACTER-1B29E", aliases: &[] },
        Codepoint { codepoint: 0x1B29F, name: "NUSHU CHARACTER-1B29F", aliases: &[] },
        Codepoint { codepoint: 0x1B2A0, name: "NUSHU CHARACTER-1B2A0", aliases: &[] },
        Codepoint { codepoint: 0x1B2A1, name: "NUSHU CHARACTER-1B2A1", aliases: &[] },
        Codepoint { codepoint: 0x1B2A2, name: "NUSHU CHARACTER-1B2A2", aliases: &[] },
        Codepoint { codepoint: 0x1B2A3, name: "NUSHU CHARACTER-1B2A3", aliases: &[] },
        Codepoint { codepoint: 0x1B2A4, name: "NUSHU CHARACTER-1B2A4", aliases: &[] },
        Codepoint { codepoint: 0x1B2A5, name: "NUSHU CHARACTER-1B2A5", aliases: &[] },
        Codepoint { codepoint: 0x1B2A6, name: "NUSHU CHARACTER-1B2A6", aliases: &[] },
        Codepoint { codepoint: 0x1B2A7, name: "NUSHU CHARACTER-1B2A7", aliases: &[] },
        Codepoint { codepoint: 0x1B2A8, name: "NUSHU CHARACTER-1B2A8", aliases: &[] },
        Codepoint { codepoint: 0x1B2A9, name: "NUSHU CHARACTER-1B2A9", aliases: &[] },
        Codepoint { codepoint: 0x1B2AA, name: "NUSHU CHARACTER-1B2AA", aliases: &[] },
        Codepoint { codepoint: 0x1B2AB, name: "NUSHU CHARACTER-1B2AB", aliases: &[] },
        Codepoint { codepoint: 0x1B2AC, name: "NUSHU CHARACTER-1B2AC", aliases: &[] },
        Codepoint { codepoint: 0x1B2AD, name: "NUSHU CHARACTER-1B2AD", aliases: &[] },
        Codepoint { codepoint: 0x1B2AE, name: "NUSHU CHARACTER-1B2AE", aliases: &[] },
        Codepoint { codepoint: 0x1B2AF, name: "NUSHU CHARACTER-1B2AF", aliases: &[] },
        Codepoint { codepoint: 0x1B2B0, name: "NUSHU CHARACTER-1B2B0", aliases: &[] },
        Codepoint { codepoint: 0x1B2B1, name: "NUSHU CHARACTER-1B2B1", aliases: &[] },
        Codepoint { codepoint: 0x1B2B2, name: "NUSHU CHARACTER-1B2B2", aliases: &[] },
        Codepoint { codepoint: 0x1B2B3, name: "NUSHU CHARACTER-1B2B3", aliases: &[] },
        Codepoint { codepoint: 0x1B2B4, name: "NUSHU CHARACTER-1B2B4", aliases: &[] },
        Codepoint { codepoint: 0x1B2B5, name: "NUSHU CHARACTER-1B2B5", aliases: &[] },
        Codepoint { codepoint: 0x1B2B6, name: "NUSHU CHARACTER-1B2B6", aliases: &[] },
        Codepoint { codepoint: 0x1B2B7, name: "NUSHU CHARACTER-1B2B7", aliases: &[] },
        Codepoint { codepoint: 0x1B2B8, name: "NUSHU CHARACTER-1B2B8", aliases: &[] },
        Codepoint { codepoint: 0x1B2B9, name: "NUSHU CHARACTER-1B2B9", aliases: &[] },
        Codepoint { codepoint: 0x1B2BA, name: "NUSHU CHARACTER-1B2BA", aliases: &[] },
        Codepoint { codepoint: 0x1B2BB, name: "NUSHU CHARACTER-1B2BB", aliases: &[] },
        Codepoint { codepoint: 0x1B2BC, name: "NUSHU CHARACTER-1B2BC", aliases: &[] },
        Codepoint { codepoint: 0x1B2BD, name: "NUSHU CHARACTER-1B2BD", aliases: &[] },
        Codepoint { codepoint: 0x1B2BE, name: "NUSHU CHARACTER-1B2BE", aliases: &[] },
        Codepoint { codepoint: 0x1B2BF, name: "NUSHU CHARACTER-1B2BF", aliases: &[] },
        Codepoint { codepoint: 0x1B2C0, name: "NUSHU CHARACTER-1B2C0", aliases: &[] },
        Codepoint { codepoint: 0x1B2C1, name: "NUSHU CHARACTER-1B2C1", aliases: &[] },
        Codepoint { codepoint: 0x1B2C2, name: "NUSHU CHARACTER-1B2C2", aliases: &[] },
        Codepoint { codepoint: 0x1B2C3, name: "NUSHU CHARACTER-1B2C3", aliases: &[] },
        Codepoint { codepoint: 0x1B2C4, name: "NUSHU CHARACTER-1B2C4", aliases: &[] },
        Codepoint { codepoint: 0x1B2C5, name: "NUSHU CHARACTER-1B2C5", aliases: &[] },
    ]
}

fn all_codepoints_690() -> (v: Vec<Codepoint>)
    ensures
        v@ == codepoint_table_690(),
{
    let v = vec![
        Codepoint { codepoint: 0x1B29E, name: "NUSHU CHARACTER-1B29E", aliases: &[] },
        Codepoint { codepoint: 0x1B29F, name: "NUSHU CHARACTER-1B29F", aliases: &[] },
        Codepoint { codepoint: 0x1B2A0, name: "NUSHU CHARACTER-1B2A0", aliases: &[] },
        Codepoint { codepoint: 0x1B2A1, name: "NUSHU CHARACTER-1B2A1", aliases: &[] },
        Codepoint { codepoint: 0x1B2A2, name: "NUSHU CHARACTER-1B2A2", aliases: &[] },
        Codepoint { codepoint: 0x1B2A3, name: "NUSHU CHARACTER-1B2A3", aliases: &[] },
        Codepoint { codepoint: 0x1B2A4, name: "NUSHU CHARACTER-1B2A4", aliases: &[] },
        Codepoint { codepoint: 0x1B2A5, name: "NUSHU CHARACTER-1B2A5", aliases: &[] },
        Codepoint { codepoint: 0x1B2A6, name: "NUSHU CHARACTER-1B2A6", aliases: &[] },
        Codepoint { codepoint: 0x1B2A7, name: "NUSHU CHARACTER-1B2A7", aliases: &[] },
        Codepoint { codepoint: 0x1B2A8, name: "NUSHU CHARACTER-1B2A8", aliases: &[] },
        Codepoint { codepoint: 0x1B2A9, name: "NUSHU CHARACTER-1B2A9", aliases: &[] },
        Codepoint { codepoint: 0x1B2AA, name: "NUSHU CHARACTER-1B2AA", aliases: &[] },
        Codepoint { codepoint: 0x1B2AB, name: "NUSHU CHARACTER-1B2AB", aliases: &[] },
        Codepoint { codepoint: 0x1B2AC, name: "NUSHU CHARACTER-1B2AC", aliases: &[] },
        Codepoint { codepoint: 0x1B2AD, name: "NUSHU CHARACTER-1B2AD", aliases: &[] },
        Codepoint { codepoint: 0x1B2AE, name: "NUSHU CHARACTER-1B2AE", aliases: &[] },
        Codepoint { codepoint: 0x1B2AF, name: "NUSHU CHARACTER-1B2AF", aliases: &[] },
        Codepoint { codepoint: 0x1B2B0, name: "NUSHU CHARACTER-1B2B0", aliases: &[] },
        Codepoint { codepoint: 0x1B2B1, name: "NUSHU CHARACTER-1B2B1", aliases: &[] },
        Codepoint { codepoint: 0x1B2B2, name: "NUSHU CHARACTER-1B2B2", aliases: &[] },
        Codepoint { codepoint: 0x1B2B3, name: "NUSHU CHARACTER-1B2B3", aliases: &[] },
        Codepoint { codepoint: 0x1B2B4, name: "NUSHU CHARACTER-1B2B4", aliases: &[] },
        Codepoint { codepoint: 0x1B2B5, name: "NUSHU CHARACTER-1B2B5", aliases: &[] },
        Codepoint { codepoint: 0x1B2B6, name: "NUSHU CHARACTER-1B2B6", aliases: &[] },
        Codepoint { codepoint: 0x1B2B7, name: "NUSHU CHARACTER-1B2B7", aliases: &[] },
        Codepoint { codepoint: 0x1B2B8, name: "NUSHU CHARACTER-1B2B8", aliases: &[] },
        Codepoint { codepoint: 0x1B2B9, name: "NUSHU CHARACTER-1B2B9", aliases: &[] },
        Codepoint { codepoint: 0x1B2BA, name: "NUSHU CHARACTER-1B2BA", aliases: &[] },
        Codepoint { codepoint: 0x1B2BB, name: "NUSHU CHARACTER-1B2BB", aliases: &[] },
        Codepoint { codepoint: 0x1B2BC, name: "NUSHU CHARACTER-1B2BC", aliases: &[] },
        Codepoint { codepoint: 0x1B2BD, name: "NUSHU CHARACTER-1B2BD", aliases: &[] },
        Codepoint { codepoint: 0x1B2BE, name: "NUSHU CHARACTER-1B2BE", aliases: &[] },
        Codepoint { codepoint: 0x1B2BF, name: "NUSHU CHARACTER-1B2BF", aliases: &[] },
        Codepoint { codepoint: 0x1B2C0, name: "NUSHU CHARACTER-1B2C0", aliases: &[] },
        Codepoint { codepoint: 0x1B2C1, name: "NUSHU CHARACTER-1B2C1", aliases: &[] },
        Codepoint { codepoint: 0x1B2C2, name: "NUSHU CHARACTER-1B2C2", aliases: &[] },
        Codepoint { codepoint: 0x1B2C3, name: "NUSHU CHARACTER-1B2C3", aliases: &[] },
        Codepoint { codepoint: 0x1B2C4, name: "NUSHU CHARACTER-1B2C4", aliases: &[] },
        Codepoint { codepoint: 0x1B2C5, name: "NUSHU CHARACTER-1B2C5", aliases: &[] },
    ];
    assert(v@ =~= codepoint_table_690());
    v
}

pub open spec fn codepoint_table_691() -> Seq<Codepoint> {
    seq![
        Codepoint { codepoint: 0x1B2C6, name: "NUSHU CHARACTER-1B2C6", aliases: &[] },
        Codepoint { codepoint: 0x1B2C7, name: "NUSHU CHARACTER-1B2C7", aliases: &[] },
        Codepoint { codepoint: 0x1B2C8, name: "NUSHU CHARACTER-1B2C8", aliases: &[] },
        Codepoint { codepoint: 0x1B2C9, name: "NUSHU CHARACTER-1B2C9", aliases: &[] },
        Codepoint { codepoint: 0x1B2CA, name: "NUSHU CHARACTER-1B2CA", aliases: &[] },
        Codepoint { codepoint: 0x1B2CB, name: "NUSHU CHARACTER-1B2CB", aliases: &[] },
        Codepoint { codepoint: 0x1B2CC, name: "NUSHU CHARACTER-1B2CC", aliases: &[] },
        Codepoint { codepoint: 0x1B2CD, name: "NUSHU CHARACTER-1B2CD", aliases: &[] },
        Codepoint { codepoint: 0x1B2CE, name: "NUSHU CHARACTER-1B2CE", aliases: &[] },
        Codepoint { codepoint: 0x1B2CF, name: "NUSHU CHARACTER-1B2CF", aliases: &[] },
        Codepoint { codepoint: 0x1B2D0, name: "NUSHU CHARACTER-1B2D0", aliases: &[] },
        Codepoint { codepoint: 0x1B2D1, name: "NUSHU CHARACTER-1B2D1", aliases: &[] },
        Codepoint { codepoint: 0x1B2D2, name: "NUSHU CHARACTER-1B2D2", aliases: &[] },
        Codepoint { codepoint: 0x1B2D3, name: "NUSHU CHARACTER-1B2D3", aliases: &[] },
        Codepoint { codepoint: 0x1B2D4, name: "NUSHU CHARACTER-1B2D4", aliases: &[] },
        Codepoint { codepoint: 0x1B2D5, name: "NUSHU CHARACTER-1B2D5", aliases: &[] },
        Codepoint { codepoint: 0x1B2D6, name: "NUSHU CHARACTER-1B2D6", aliases: &[] },
        Codepoint { codepoint: 0x1B2D7, name: "NUSHU CHARACTER-1B2D7", aliases: &[] },
        Codepoint { codepoint: 0x1B2D8, name: "NUSHU CHARACTER-1B2D8", aliases: &[] },
        Codepoint { codepoint: 0x1B2D9, name: "NUSHU CHARACTER-1B2D9", aliases: &[] },
        Codepoint { codepoint: 0x1B2DA, name: "NUSHU CHARACTER-1B2DA", aliases: &[] },
        Codepoint { codepoint: 0x1B2DB, name: "NUSHU CHARACTER-1B2DB", aliases: &[] },
        Codepoint { codepoint: 0x1B2DC, name: "NUSHU CHARACTER-1B2DC", aliases: &[] },
        Codepoint { codepoint: 0x1B2DD, name: "NUSHU CHARACTER-1B2DD", aliases: &[] },
        Codepoint { codepoint: 0x1B2DE, name: "NUSHU CHARACTER-1B2DE", aliases: &[] },
        Codepoint { codepoint: 0x1B2DF, name: "NUSHU CHARACTER-1B2DF", aliases: &[] },
        Codepoint { codepoint: 0x1B2E0, name: "NUSHU CHARACTER-1B2E0", aliases: &[] },
        Codepoint { codepoint: 0x1B2E1, name: "NUSHU CHARACTER-1B2E1", aliases: &[] },
        Codepoint { codepoint: 0x1B2E2, name: "NUSHU CHARACTER-1B2E2", aliases: &[] },
        Codepoint { codepoint: 0x1B2E3, name: "NUSHU CHARACTER-1B2E3", aliases: &[] },
        Codepoint { codepoint: 0x1B2E4, name: "NUSHU CHARACTER-1B2E4", aliases: &[] },
        Codepoint { codepoint: 0x1B2E5, name: "NUSHU CHARACTER-1B2E5", aliases: &[] },
        Codepoint { codepoint: 0x1B2E6, name: "NUSHU CHARACTER-1B2E6", aliases: &[] },
        Codepoint { codepoint: 0x1B2E7, name: "NUSHU CHARACTER-1B2E7", aliases: &[] },
        Codepoint { codepoint: 0x1B2E8, name: "NUSHU CHARACTER-1B2E8", aliases: &[] },
        Codepoint { codepoint: 0x1B2E9, name: "NUSHU CHARACTER-1B2E9", aliases: &[] },
        Codepoint { codepoint: 0x1B2EA, name: "NUSHU CHARACTER-1B2EA", aliases: &[] },
        Codepoint { codepoint: 0x1B2EB, name: "NUSHU CHARACTER-1B2EB", aliases: &[] },
        Codepoint { codepoint: 0x1B2EC, name: "NUSHU CHARACTER-1B2EC", aliases: &[] },
        Codepoint { codepoint: 0x1B2ED, name: "NUSHU CHARACTER-1B2ED", aliases: &[] },
    ]
}

fn all_codepoints_691() -> (v: Vec<Codepoint>)
    ensures
        v@ == codepoint_table_691(),
{
    let v = vec![
        Codepoint { codepoint: 0x1B2C6, name: "NUSHU CHARACTER-1B2C6", aliases: &[] },
        Codepoint { codepoint: 0x1B2C7, name: "NUSHU CHARACTER-1B2C7", aliases: &[] },
        Codepoint { codepoint: 0x1B2C8, name: "NUSHU CHARACTER-1B2C8", aliases: &[] },
        Codepoint { codepoint: 0x1B2C9, name: "NUSHU CHARACTER-1B2C9", aliases: &[] },
        Codepoint { codepoint: 0x1B2CA, name: "NUSHU CHARACTER-1B2CA", aliases: &[] },
        Codepoint { codepoint: 0x1B2CB, name: "NUSHU CHARACTER-1B2CB", aliases: &[] },
        Codepoint { codepoint: 0x1B2CC, name: "NUSHU CHARACTER-1B2CC", aliases: &[] },
        Codepoint { codepoint: 0x1B2CD, name: "NUSHU CHARACTER-1B2CD", aliases: &[] },
        Codepoint { codepoint: 0x1B2CE, name: "NUSHU CHARACTER-1B2CE", aliases: &[] },
        Codepoint { codepoint: 0x1B2CF, name: "NUSHU CHARACTER-1B2CF", aliases: &[] },
        Codepoint { codepoint: 0x1B2D0, name: "NUSHU CHARACTER-1B2D0", aliases: &[] },
        Codepoint { codepoint: 0x1B2D1, name: "NUSHU CHARACTER-1B2D1", aliases: &[] },
        Codepoint { codepoint: 0x1B2D2, name: "NUSHU CHARACTER-1B2D2", aliases: &[] },
        Codepoint { codepoint: 0x1B2D3, name: "NUSHU CHARACTER-1B2D3", aliases: &[] },
        Codepoint { codepoint: 0x1B2D4, name: "NUSHU CHARACTER-1B2D4", aliases: &[] },
        Codepoint { codepoint: 0x1B2D5, name: "NUSHU CHARACTER-1B2D5", aliases: &[] },
        Codepoint { codepoint: 0x1B2D6, name: "NUSHU CHARACTER-1B2D6", aliases: &[] },
        Codepoint { codepoint: 0x1B2D7, name: "NUSHU CHARACTER-1B2D7", aliases: &[] },
        Codepoint { codepoint: 0x1B2D8, name: "NUSHU CHARACTER-1B2D8", aliases: &[] },
        Codepoint { codepoint: 0x1B2D9, name: "NUSHU CHARACTER-1B2D9", aliases: &[] },
        Codepoint { codepoint: 0x1B2DA, name: "NUSHU CHARACTER-1B2DA", aliases: &[] },
        Codepoint { codepoint: 0x1B2DB, name: "NUSHU CHARACTER-1B2DB", aliases: &[] },
        Codepoint { codepoint: 0x1B2DC, name: "NUSHU CHARACTER-1B2DC", aliases: &[] },
        Codepoint { codepoint: 0x1B2DD, name: "NUSHU CHARACTER-1B2DD", aliases: &[] },
        Codepoint { codepoint: 0x1B2DE, name: "NUSHU CHARACTER-1B2DE", aliases: &[] },
        Codepoint { codepoint: 0x1B2DF, name: "NUSHU CHARACTER-1B2DF", aliases: &[] },
        Codepoint { codepoint: 0x1B2E0, name: "NUSHU CHARACTER-1B2E0", aliases: &[] },
        Codepoint { codepoint: 0x1B2E1, name: "NUSHU CHARACTER-1B2E1", aliases: &[] },
        Codepoint { codepoint: 0x1B2E2, name: "NUSHU CHARACTER-1B2E2", aliases: &[] },
        Codepoint { codepoint: 0x1B2E3, name: "NUSHU CHARACTER-1B2E3", aliases: &[] },
        Codepoint { codepoint: 0x1B2E4, name: "NUSHU CHARACTER-1B2E4", aliases: &[] },
        Codepoint { codepoint: 0x1B2E5, name: "NUSHU CHARACTER-1B2E5", aliases: &[] },
        Codepoint { codepoint: 0x1B2E6, name: "NUSHU CHARACTER-1B2E6", aliases: &[] },
        Codepoint { codepoint: 0x1B2E7, name: "NUSHU CHARACTER-1B2E7", aliases: &[] },
        Codepoint { codepoint: 0x1B2E8, name: "NUSHU CHARACTER-1B2E8", aliases: &[] },
        Codepoint { codepoint: 0x1B2E9, name: "NUSHU CHARACTER-1B2E9", aliases: &[] },
        Codepoint { codepoint: 0x1B2EA, name: "NUSHU CHARACTER-1B2EA", aliases: &[] },
        Codepoint { codepoint: 0x1B2EB, name: "NUSHU CHARACTER-1B2EB", aliases: &[] },
        Codepoint { codepoint: 0x1B2EC, name: "NUSHU CHARACTER-1B2EC", aliases: &[] },
        Codepoint { codepoint: 0x1B2ED, name: "NUSHU CHARACTER-1B2ED", aliases: &[] },
    ];
    assert(v@ =~= codepoint_table_691());
    v
}

pub open spec fn codepoint_table_692() -> Seq<Codepoint> {
    seq![
        Codepoint { codepoint: 0x1B2EE, name: "NUSHU CHARACTER-1B2EE", aliases: &[] },
        Codepoint { codepoint: 0x1B2EF, name: "NUSHU CHARACTER-1B2EF", aliases: &[] },
        Codepoint { codepoint: 0x1B2F0, name: "NUSHU CHARACTER-1B2F0", aliases: &[] },
        Codepoint { codepoint: 0x1B2F1, name: "NUSHU CHARACTER-1B2F1", aliases: &[] },
        Codepoint { codepoint: 0x1B2F2, name: "NUSHU CHARACTER-1B2F2", aliases: &[] },
        Codepoint { codepoint: 0x1B2F3, name: "NUSHU CHARACTER-1B2F3", aliases: &[] },
        Codepoint { codepoint: 0x1B2F4, name: "NUSHU CHARACTER-1B2F4", aliases: &[] },
        Codepoint { codepoint: 0x1B2F5, name: "NUSHU CHARACTER-1B2F5", aliases: &[] },
        Codepoint { codepoint: 0x1B2F6, name: "NUSHU CHARACTER-1B2F6", aliases: &[] },
        Codepoint { codepoint: 0x1B2F7, name: "NUSHU CHARACTER-1B2F7", aliases: &[] },
        Codepoint { codepoint: 0x1B2F8, name: "NUSHU CHARACTER-1B2F8", aliases: &[] },
        Codepoint { codepoint: 0x1B2F9, name: "NUSHU CHARACTER-1B2F9", aliases: &[] },
        Codepoint { codepoint: 0x1B2FA, name: "NUSHU CHARACTER-1B2FA", aliases: &[] },
        Codepoint { codepoint: 0x1B2FB, name: "NUSHU CHARACTER-1B2FB", aliases: &[] },
        Codepoint { codepoint: 0x1BC00, name: "DUPLOYAN LETTER H", aliases: &[] },
        Codepoint { codepoint: 0x1BC01, name: "DUPLOYAN LETTER X", aliases: &[] },
        Codepoint { codepoint: 0x1BC02, name: "DUPLOYAN LETTER P", aliases: &[] },
        Codepoint { codepoint: 0x1BC03, name: "DUPLOYAN LETTER T", aliases: &[] },
        Codepoint { codepoint: 0x1BC04, name: "DUPLOYAN LETTER F", aliases: &[] },
        Codepoint { codepoint: 0x1BC05, name: "DUPLOYAN LETTER K", aliases: &[] },
        Codepoint { codepoint: 0x1BC06, name: "DUPLOYAN LETTER L", aliases: &[] },
        Codepoint { codepoint: 0x1BC07, name: "DUPLOYAN LETTER B", aliases: &[] },
        Codepoint { codepoint: 0x1BC08, name: "DUPLOYAN LETTER D", aliases: &[] },
        Codepoint { codepoint: 0x1BC09, name: "DUPLOYAN LETTER V", aliases: &[] },
        Codepoint { codepoint: 0x1BC0A, name: "DUPLOYAN LETTER G", aliases: &[] },
        Codepoint { codepoint: 0x1BC0B, name: "DUPLOYAN LETTER R", aliases: &[] },
        Codepoint { codepoint: 0x1BC0C, name: "DUPLOYAN LETTER P N", aliases: &[] },
        Codepoint { codepoint: 0x1BC0D, name: "DUPLOYAN LETTER D S", aliases: &[] },
        Codepoint { codepoint: 0x1BC0E, name: "DUPLOYAN LETTER F N", aliases: &[] },
        Codepoint { codepoint: 0x1BC0F, name: "DUPLOYAN LETTER K M", aliases: &[] },
        Codepoint { codepoint: 0x1BC10, name: "DUPLOYAN LETTER R S", aliases: &[] },
        Codepoint { codepoint: 0x1BC11, name: "DUPLOYAN LETTER TH", aliases: &[] },
        Codepoint { codepoint: 0x1BC12, name: "DUPLOYAN LETTER SLOAN DH", aliases: &[] },
        Codepoint { codepoint: 0x1BC13, name: "DUPLOYAN LETTER DH", aliases: &[] },
        Codepoint { codepoint: 0x1BC14, name: "DUPLOYAN LETTER KK", aliases: &[] },
        Codepoint { codepoint: 0x1BC15, name: "DUPLOYAN LETTER SLOAN J", aliases: &[] },
        Codepoint { codepoint: 0x1BC16, name: "DUPLOYAN LETTER HL", aliases: &[] },
        Codepoint { codepoint: 0x1BC17, name: "DUPLOYAN LETTER LH", aliases: &[] },
        Codepoint { codepoint: 0x1BC18, name: "DUPLOYAN LETTER RH", aliases: &[] },
        Codepoint { codepoint: 0x1BC19, name: "DUPLOYAN LETTER M", aliases: &[] },
    ]
}

fn all_codepoints_692() -> (v: Vec<Codepoint>)
    ensures
        v@ == codepoint_table_692(),
{
    let v = vec![
        Codepoint { codepoint: 0x1B2EE, name: "NUSHU CHARACTER-1B2EE", aliases: &[] },
        Codepoint { codepoint: 0x1B2EF, name: "NUSHU CHARACTER-1B2EF", aliases: &[] },
        Codepoint { codepoint: 0x1B2F0, name: "NUSHU CHARACTER-1B2F0", aliases: &[] },
        Codepoint { codepoint: 0x1B2F1, name: "NUSHU CHARACTER-1B2F1", aliases: &[] },
        Codepoint { codepoint: 0x1B2F2, name: "NUSHU CHARACTER-1B2F2", aliases: &[] },
        Codepoint { codepoint: 0x1B2F3, name: "NUSHU CHARACTER-1B2F3", aliases: &[] },
        Codepoint { codepoint: 0x1B2F4, name: "NUSHU CHARACTER-1B2F4", aliases: &[] },
        Codepoint { codepoint: 0x1B2F5, name: "NUSHU CHARACTER-1B2F5", aliases: &[] },
        Codepoint { codepoint: 0x1B2F6, name: "NUSHU CHARACTER-1B2F6", aliases: &[] },
        Codepoint { codepoint: 0x1B2F7, name: "NUSHU CHARACTER-1B2F7", aliases: &[] },
        Codepoint { codepoint: 0x1B2F8, name: "NUSHU CHARACTER-1B2F8", aliases: &[] },
        Codepoint { codepoint: 0x1B2F9, name: "NUSHU CHARACTER-1B2F9", aliases: &[] },
        Codepoint { codepoint: 0x1B2FA, name: "NUSHU CHARACTER-1B2FA", aliases: &[] },
        Codepoint { codepoint: 0x1B2FB, name: "NUSHU CHARACTER-1B2FB", aliases: &[] },
        Codepoint { codepoint: 0x1BC00, name: "DUPLOYAN LETTER H", aliases: &[] },
        Codepoint { codepoint: 0x1BC01, name: "DUPLOYAN LETTER X", aliases: &[] },
        Codepoint { codepoint: 0x1BC02, name: "DUPLOYAN LETTER P", aliases: &[] },
        Codepoint { codepoint: 0x1BC03, name: "DUPLOYAN LETTER T", aliases: &[] },
        Codepoint { codepoint: 0x1BC04, name: "DUPLOYAN LETTER F", aliases: &[] },
        Codepoint { codepoint: 0x1BC05, name: "DUPLOYAN LETTER K", aliases: &[] },
        Codepoint { codepoint: 0x1BC06, name: "DUPLOYAN LETTER L", aliases: &[] },
        Codepoint { codepoint: 0x1BC07, name: "DUPLOYAN LETTER B", aliases: &[] },
        Codepoint { codepoint: 0x1BC08, name: "DUPLOYAN LETTER D", aliases: &[] },
        Codepoint { codepoint: 0x1BC09, name: "DUPLOYAN LETTER V", aliases: &[] },
        Codepoint { codepoint: 0x1BC0A, name: "DUPLOYAN LETTER G", aliases: &[] },
        Codepoint { codepoint: 0x1BC0B, name: "DUPLOYAN LETTER R", aliases: &[] },
        Codepoint { codepoint: 0x1BC0C, name: "DUPLOYAN LETTER P N", aliases: &[] },
        Codepoint { codepoint: 0x1BC0D, name: "DUPLOYAN LETTER D S", aliases: &[] },
        Codepoint { codepoint: 0x1BC0E, name: "DUPLOYAN LETTER F N", aliases: &[] },
        Codepoint { codepoint: 0x1BC0F, name: "DUPLOYAN LETTER K M", aliases: &[] },
        Codepoint { codepoint: 0x1BC10, name: "DUPLOYAN LETTER R S", aliases: &[] },
        Codepoint { codepoint: 0x1BC11, name: "DUPLOYAN LETTER TH", aliases: &[] },
        Codepoint { codepoint: 0x1BC12, name: "DUPLOYAN LETTER SLOAN DH", aliases: &[] },
        Codepoint { codepoint: 0x1BC13, name: "DUPLOYAN LETTER DH", aliases: &[] },
        Codepoint { codepoint: 0x1BC14, name: "DUPLOYAN LETTER KK", aliases: &[] },
        Codepoint { codepoint: 0x1BC15, name: "DUPLOYAN LETTER SLOAN J", aliases: &[] },
        Codepoint { codepoint: 0x1BC16, name: "DUPLOYAN LETTER HL", aliases: &[] },
        Codepoint { codepoint: 0x1BC17, name: "DUPLOYAN LETTER LH", aliases: &[] },
        Codepoint { codepoint: 0x1BC18, name: "DUPLOYAN LETTER RH", aliases: &[] },
        Codepoint { codepoint: 0x1BC19, name: "DUPLOYAN LETTER M", aliases: &[] },
    ];
    assert(v@ =~= codepoint_table_692());
    v
}

pub open spec fn codepoint_table_693() -> Seq<Codepoint> {
    seq![
        Codepoint { codepoint: 0x1BC1A, name: "DUPLOYAN LETTER N", aliases: &[] },
        Codepoint { codepoint: 0x1BC1B, name: "DUPLOYAN LETTER J", aliases: &[] },
        Codepoint { codepoint: 0x1BC1C, name: "DUPLOYAN LETTER S", aliases: &[] },
        Codepoint { codepoint: 0x1BC1D, name: "DUPLOYAN LETTER M N", aliases: &[] },
        Codepoint { codepoint: 0x1BC1E, name: "DUPLOYAN LETTER N M", aliases: &[] },
        Codepoint { codepoint: 0x1BC1F, name: "DUPLOYAN LETTER J M", aliases: &[] },
        Codepoint { codepoint: 0x1BC20, name: "DUPLOYAN LETTER S J", aliases: &[] },
        Codepoint { codepoint: 0x1BC21, name: "DUPLOYAN LETTER M WITH DOT", aliases: &[] },
        Codepoint { codepoint: 0x1BC22, name: "DUPLOYAN LETTER N WITH DOT", aliases: &[] },
        Codepoint { codepoint: 0x1BC23, name: "DUPLOYAN LETTER J WITH DOT", aliases: &[] },
        Codepoint { codepoint: 0x1BC24, name: "DUPLOYAN LETTER J WITH DOTS INSIDE AND ABOVE", aliases: &[] },
        Codepoint { codepoint: 0x1BC25, name: "DUPLOYAN LETTER S WITH DOT", aliases: &[] },
        Codepoint { codepoint: 0x1BC26, name: "DUPLOYAN LETTER S WITH DOT BELOW", aliases: &[] },
        Codepoint { codepoint: 0x1BC27, name: "DUPLOYAN LETTER M S", aliases: &[] },
        Codepoint { codepoint: 0x1BC28, name: "DUPLOYAN LETTER N S", aliases: &[] },
        Codepoint { codepoint: 0x1BC29, name: "DUPLOYAN LETTER J S", aliases: &[] },
        Codepoint { codepoint: 0x1BC2A, name: "DUPLOYAN LETTER S S", aliases: &[] },
        Codepoint { codepoint: 0x1BC2B, name: "DUPLOYAN LETTER M N S", aliases: &[] },
        Codepoint { codepoint: 0x1BC2C, name: "DUPLOYAN LETTER N M S", aliases: &[] },
        Codepoint { codepoint: 0x1BC2D, name: "DUPLOYAN LETTER J M S", aliases: &[] },
        Codepoint { codepoint: 0x1BC2E, name: "DUPLOYAN LETTER S J S", aliases: &[] },
        Codepoint { codepoint: 0x1BC2F, name: "DUPLOYAN LETTER J S WITH DOT", aliases: &[] },
        Codepoint { codepoint: 0x1BC30, name: "DUPLOYAN LETTER J N", aliases: &[] },
        Codepoint { codepoint: 0x1BC31, name: "DUPLOYAN LETTER J N S", aliases: &[] },
        Codepoint { codepoint: 0x1BC32, name: "DUPLOYAN LETTER S T", aliases: &[] },
        Codepoint { codepoint: 0x1BC33, name: "DUPLOYAN LETTER S T R", aliases: &[] },
        Codepoint { codepoint: 0x1BC34, name: "DUPLOYAN LETTER S P", aliases: &[] },
        Codepoint { codepoint: 0x1BC35, name: "DUPLOYAN LETTER S P R", aliases: &[] },
        Codepoint { codepoint: 0x1BC36, name: "DUPLOYAN LETTER T S", aliases: &[] },
        Codepoint { codepoint: 0x1BC37, name: "DUPLOYAN LETTER T R S", aliases: &[] },
        Codepoint { codepoint: 0x1BC38, name: "DUPLOYAN LETTER W", aliases: &[] },
        Codepoint { codepoint: 0x1BC39, name: "DUPLOYAN LETTER WH", aliases: &[] },
        Codepoint { codepoint: 0x1BC3A, name: "DUPLOYAN LETTER W R", aliases: &[] },
        Codepoint { codepoint: 0x1BC3B, name: "DUPLOYAN LETTER S N", aliases: &[] },
        Codepoint { codepoint: 0x1BC3C, name: "DUPLOYAN LETTER S M", aliases: &[] },
        Codepoint { codepoint: 0x1BC3D, name: "DUPLOYAN LETTER K R S", aliases: &[] },
        Codepoint { codepoint: 0x1BC3E, name: "DUPLOYAN LETTER G R S", aliases: &[] },
        Codepoint { codepoint: 0x1BC3F, name: "DUPLOYAN LETTER S K", aliases: &[] },
        Codepoint { codepoint: 0x1BC40, name: "DUPLOYAN LETTER S K R", aliases: &[] },
        Codepoint { codepoint: 0x1BC41, name: "DUPLOYAN LETTER A", aliases: &[] },
    ]
}

fn all_codepoints_693() -> (v: Vec<Codepoint>)
    ensures
        v@ == codepoint_table_693(),
{
    let v = vec![
        Codepoint { codepoint: 0x1BC1A, name: "DUPLOYAN LETTER N", aliases: &[] },
        Codepoint { codepoint: 0x1BC1B, name: "DUPLOYAN LETTER J", aliases: &[] },
        Codepoint { codepoint: 0x1BC1C, name: "DUPLOYAN LETTER S", aliases: &[] },
        Codepoint { codepoint: 0x1BC1D, name: "DUPLOYAN LETTER M N", aliases: &[] },
        Codepoint { codepoint: 0x1BC1E, name: "DUPLOYAN LETTER N M", aliases: &[] },
        Codepoint { codepoint: 0x1BC1F, name: "DUPLOYAN LETTER J M", aliases: &[] },
        Codepoint { codepoint: 0x1BC20, name: "DUPLOYAN LETTER S J", aliases: &[] },
        Codepoint { codepoint: 0x1BC21, name: "DUPLOYAN LETTER M WITH DOT", aliases: &[] },
        Codepoint { codepoint: 0x1BC22, name: "DUPLOYAN LETTER N WITH DOT", aliases: &[] },
        Codepoint { codepoint: 0x1BC23, name: "DUPLOYAN LETTER J WITH DOT", aliases: &[] },
        Codepoint { codepoint: 0x1BC24, name: "DUPLOYAN LETTER J WITH DOTS INSIDE AND ABOVE", aliases: &[] },
        Codepoint { codepoint: 0x1BC25, name: "DUPLOYAN LETTER S WITH DOT", aliases: &[] },
        Codepoint { codepoint: 0x1BC26, name: "DUPLOYAN LETTER S WITH DOT BELOW", aliases: &[] },
        Codepoint { codepoint: 0x1BC27, name: "DUPLOYAN LETTER M S", aliases: &[] },
        Codepoint { codepoint: 0x1BC28, name: "DUPLOYAN LETTER N S", aliases: &[] },
        Codepoint { codepoint: 0x1BC29, name: "DUPLOYAN LETTER J S", aliases: &[] },
        Codepoint { codepoint: 0x1BC2A, name: "DUPLOYAN LETTER S S", aliases: &[] },
        Codepoint { codepoint: 0x1BC2B, name: "DUPLOYAN LETTER M N S", aliases: &[] },
        Codepoint { codepoint: 0x1BC2C, name: "DUPLOYAN LETTER N M S", aliases: &[] },
        Codepoint { codepoint: 0x1BC2D, name: "DUPLOYAN LETTER J M S", aliases: &[] },
        Codepoint { codepoint: 0x1BC2E, name: "DUPLOYAN LETTER S J S", aliases: &[] },
        Codepoint { codepoint: 0x1BC2F, name: "DUPLOYAN LETTER J S WITH DOT", aliases: &[] },
        Codepoint { codepoint: 0x1BC30, name: "DUPLOYAN LETTER J N", aliases: &[] },
        Codepoint { codepoint: 0x1BC31, name: "DUPLOYAN LETTER J N S", aliases: &[] },
        Codepoint { codepoint: 0x1BC32, name: "DUPLOYAN LETTER S T", aliases: &[] },
        Codepoint { codepoint: 0x1BC33, name: "DUPLOYAN LETTER S T R", aliases: &[] },
        Codepoint { codepoint: 0x1BC34, name: "DUPLOYAN LETTER S P", aliases: &[] },
        Codepoint { codepoint: 0x1BC35, name: "DUPLOYAN LETTER S P R", aliases: &[] },
        Codepoint { codepoint: 0x1BC36, name: "DUPLOYAN LETTER T S", aliases: &[] },
        Codepoint { codepoint: 0x1BC37, name: "DUPLOYAN LETTER T R S", aliases: &[] },
        Codepoint { codepoint: 0x1BC38, name: "DUPLOYAN LETTER W", aliases: &[] },
        Codepoint { codepoint: 0x1BC39, name: "DUPLOYAN LETTER WH", aliases: &[] },
        Codepoint { codepoint: 0x1BC3A, name: "DUPLOYAN LETTER W R", aliases: &[] },
        Codepoint { codepoint: 0x1BC3B, name: "DUPLOYAN LETTER S N", aliases: &[] },
        Codepoint { codepoint: 0x1BC3C, name: "DUPLOYAN LETTER S M", aliases: &[] },
        Codepoint { codepoint: 0x1BC3D, name: "DUPLOYAN LETTER K R S", aliases: &[] },
        Codepoint { codepoint: 0x1BC3E, name: "DUPLOYAN LETTER G R S", aliases: &[] },
        Codepoint { codepoint: 0x1BC3F, name: "DUPLOYAN LETTER S K", aliases: &[] },
        Codepoint { codepoint: 0x1BC40, name: "DUPLOYAN LETTER S K R", aliases: &[] },
        Codepoint { codepoint: 0x1BC41, name: "DUPLOYAN LETTER A", aliases: &[] },
    ];
    assert(v@ =~= codepoint_table_693());
    v
}

pub open spec fn codepoint_table_694() -> Seq<Codepoint> {
    seq![
        Codepoint { codepoint: 0x1BC42, name: "DUPLOYAN LETTER SLOAN OW", aliases: &[] },
        Codepoint { codepoint: 0x1BC43, name: "DUPLOYAN LETTER OA", aliases: &[] },
        Codepoint { codepoint: 0x1BC44, name: "DUPLOYAN LETTER O", aliases: &[] },
        Codepoint { codepoint: 0x1BC45, name: "DUPLOYAN LETTER AOU", aliases: &[] },
        Codepoint { codepoint: 0x1BC46, name: "DUPLOYAN LETTER I", aliases: &[] },
        Codepoint { codepoint: 0x1BC47, name: "DUPLOYAN LETTER E", aliases: &[] },
        Codepoint { codepoint: 0x1BC48, name: "DUPLOYAN LETTER IE", aliases: &[] },
        Codepoint { codepoint: 0x1BC49, name: "DUPLOYAN LETTER SHORT I", aliases: &[] },
        Codepoint { codepoint: 0x1BC4A, name: "DUPLOYAN LETTER UI", aliases: &[] },
        Codepoint { codepoint: 0x1BC4B, name: "DUPLOYAN LETTER EE", aliases: &[] },
        Codepoint { codepoint: 0x1BC4C, name: "DUPLOYAN LETTER SLOAN EH", aliases: &[] },
        Codepoint { codepoint: 0x1BC4D, name: "DUPLOYAN LETTER ROMANIAN I", aliases: &[] },
        Codepoint { codepoint: 0x1BC4E, name: "DUPLOYAN LETTER SLOAN EE", aliases: &[] },
        Codepoint { codepoint: 0x1BC4F, name: "DUPLOYAN LETTER LONG I", aliases: &[] },
        Codepoint { codepoint: 0x1BC50, name: "DUPLOYAN LETTER YE", aliases: &[] },
        Codepoint { codepoint: 0x1BC51, name: "DUPLOYAN LETTER U", aliases: &[] },
        Codepoint { codepoint: 0x1BC52, name: "DUPLOYAN LETTER EU", aliases: &[] },
        Codepoint { codepoint: 0x1BC53, name: "DUPLOYAN LETTER XW", aliases: &[] },
        Codepoint { codepoint: 0x1BC54, name: "DUPLOYAN LETTER U N", aliases: &[] },
        Codepoint { codepoint: 0x1BC55, name: "DUPLOYAN LETTER LONG U", aliases: &[] },
        Codepoint { codepoint: 0x1BC56, name: "DUPLOYAN LETTER ROMANIAN U", aliases: &[] },
        Codepoint { codepoint: 0x1BC57, name: "DUPLOYAN LETTER UH", aliases: &[] },
        Codepoint { codepoint: 0x1BC58, name: "DUPLOYAN LETTER SLOAN U", aliases: &[] },
        Codepoint { codepoint: 0x1BC59, name: "DUPLOYAN LETTER OOH", aliases: &[] },
        Codepoint { codepoint: 0x1BC5A, name: "DUPLOYAN LETTER OW", aliases: &[] },
        Codepoint { codepoint: 0x1BC5B, name: "DUPLOYAN LETTER OU", aliases: &[] },
        Codepoint { codepoint: 0x1BC5C, name: "DUPLOYAN LETTER WA", aliases: &[] },
        Codepoint { codepoint: 0x1BC5D, name: "DUPLOYAN LETTER WO", aliases: &[] },
        Codepoint { codepoint: 0x1BC5E, name: "DUPLOYAN LETTER WI", aliases: &[] },
        Codepoint { codepoint: 0x1BC5F, name: "DUPLOYAN LETTER WEI", aliases: &[] },
        Codepoint { codepoint: 0x1BC60, name: "DUPLOYAN LETTER WOW", aliases: &[] },
        Codepoint { codepoint: 0x1BC61, name: "DUPLOYAN LETTER NASAL U", aliases: &[] },
        Codepoint { codepoint: 0x1BC62, name: "DUPLOYAN LETTER NASAL O", aliases: &[] },
        Codepoint { codepoint: 0x1BC63, name: "DUPLOYAN LETTER NASAL I", aliases: &[] },
        Codepoint { codepoint: 0x1BC64, name: "DUPLOYAN LETTER NASAL A", aliases: &[] },
        Codepoint { codepoint: 0x1BC65, name: "DUPLOYAN LETTER PERNIN AN", aliases: &[] },
        Codepoint { codepoint: 0x1BC66, name: "DUPLOYAN LETTER PERNIN AM", aliases: &[] },
        Codepoint { codepoint: 0x1BC67, name: "DUPLOYAN LETTER SLOAN EN", aliases: &[] },
        Codepoint { codepoint: 0x1BC68, name: "DUPLOYAN LETTER SLOAN AN", aliases: &[] },
        Codepoint { codepoint: 0x1BC69, name: "DUPLOYAN LETTER SLOAN ON", aliases: &[] },
    ]
}

fn all_codepoints_694() -> (v: Vec<Codepoint>)
    ensures
        v@ == codepoint_table_694(),
{
    let v = vec![
        Codepoint { codepoint: 0x1BC42, name: "DUPLOYAN LETTER SLOAN OW", aliases: &[] },
        Codepoint { codepoint: 0x1BC43, name: "DUPLOYAN LETTER OA", aliases: &[] },
        Codepoint { codepoint: 0x1BC44, name: "DUPLOYAN LETTER O", aliases: &[] },
        Codepoint { codepoint: 0x1BC45, name: "DUPLOYAN LETTER AOU", aliases: &[] },
        Codepoint { codepoint: 0x1BC46, name: "DUPLOYAN LETTER I", aliases: &[] },
        Codepoint { codepoint: 0x1BC47, name: "DUPLOYAN LETTER E", aliases: &[] },
        Codepoint { codepoint: 0x1BC48, name: "DUPLOYAN LETTER IE", aliases: &[] },
        Codepoint { codepoint: 0x1BC49, name: "DUPLOYAN LETTER SHORT I", aliases: &[] },
        Codepoint { codepoint: 0x1BC4A, name: "DUPLOYAN LETTER UI", aliases: &[] },
        Codepoint { codepoint: 0x1BC4B, name: "DUPLOYAN LETTER EE", aliases: &[] },
        Codepoint { codepoint: 0x1BC4C, name: "DUPLOYAN LETTER SLOAN EH", aliases: &[] },
        Codepoint { codepoint: 0x1BC4D, name: "DUPLOYAN LETTER ROMANIAN I", aliases: &[] },
        Codepoint { codepoint: 0x1BC4E, name: "DUPLOYAN LETTER SLOAN EE", aliases: &[] },
        Codepoint { codepoint: 0x1BC4F, name: "DUPLOYAN LETTER LONG I", aliases: &[] },
        Codepoint { codepoint: 0x1BC50, name: "DUPLOYAN LETTER YE", aliases: &[] },
        Codepoint { codepoint: 0x1BC51, name: "DUPLOYAN LETTER U", aliases: &[] },
        Codepoint { codepoint: 0x1BC52, name: "DUPLOYAN LETTER EU", aliases: &[] },
        Codepoint { codepoint: 0x1BC53, name: "DUPLOYAN LETTER XW", aliases: &[] },
        Codepoint { codepoint: 0x1BC54, name: "DUPLOYAN LETTER U N", aliases: &[] },
        Codepoint { codepoint: 0x1BC55, name: "DUPLOYAN LETTER LONG U", aliases: &[] },
        Codepoint { codepoint: 0x1BC56, name: "DUPLOYAN LETTER ROMANIAN U", aliases: &[] },
        Codepoint { codepoint: 0x1BC57, name: "DUPLOYAN LETTER UH", aliases: &[] },
        Codepoint { codepoint: 0x1BC58, name: "DUPLOYAN LETTER SLOAN U", aliases: &[] },
        Codepoint { codepoint: 0x1BC59, name: "DUPLOYAN LETTER OOH", aliases: &[] },
        Codepoint { codepoint: 0x1BC5A, name: "DUPLOYAN LETTER OW", aliases: &[] },
        Codepoint { codepoint: 0x1BC5B, name: "DUPLOYAN LETTER OU", aliases: &[] },
        Codepoint { codepoint: 0x1BC5C, name: "DUPLOYAN LETTER WA", aliases: &[] },
        Codepoint { codepoint: 0x1BC5D, name: "DUPLOYAN LETTER WO", aliases: &[] },
        Codepoint { codepoint: 0x1BC5E, name: "DUPLOYAN LETTER WI", aliases: &[] },
        Codepoint { codepoint: 0x1BC5F, name: "DUPLOYAN LETTER WEI", aliases: &[] },
        Codepoint { codepoint: 0x1BC60, name: "DUPLOYAN LETTER WOW", aliases: &[] },
        Codepoint { codepoint: 0x1BC61, name: "DUPLOYAN LETTER NASAL U", aliases: &[] },
        Codepoint { codepoint: 0x1BC62, name: "DUPLOYAN LETTER NASAL O", aliases: &[] },
        Codepoint { codepoint: 0x1BC63, name: "DUPLOYAN LETTER NASAL I", aliases: &[] },
        Codepoint { codepoint: 0x1BC64, name: "DUPLOYAN LETTER NASAL A", aliases: &[] },
        Codepoint { codepoint: 0x1BC65, name: "DUPLOYAN LETTER PERNIN AN", aliases: &[] },
        Codepoint { codepoint: 0x1BC66, name: "DUPLOYAN LETTER PERNIN AM", aliases: &[] },
        Codepoint { codepoint: 0x1BC67, name: "DUPLOYAN LETTER SLOAN EN", aliases: &[] },
        Codepoint { codepoint: 0x1BC68, name: "DUPLOYAN LETTER SLOAN AN", aliases: &[] },
        Codepoint { codepoint: 0x1BC69, name: "DUPLOYAN LETTER SLOAN ON", aliases: &[] },
    ];
    assert(v@ =~= codepoint_table_694());
    v
}

pub open spec fn codepoint_table_695() -> Seq<Codepoint> {
    seq![
        Codepoint { codepoint: 0x1BC6A, name: "DUPLOYAN LETTER VOCALIC M", aliases: &[] },
        Codepoint { codepoint: 0x1BC70, name: "DUPLOYAN AFFIX LEFT HORIZONTAL SECANT", aliases: &[] },
        Codepoint { codepoint: 0x1BC71, name: "DUPLOYAN AFFIX MID HORIZONTAL SECANT", aliases: &[] },
        Codepoint { codepoint: 0x1BC72, name: "DUPLOYAN AFFIX RIGHT HORIZONTAL SECANT", aliases: &[] },
        Codepoint { codepoint: 0x1BC73, name: "DUPLOYAN AFFIX LOW VERTICAL SECANT", aliases: &[] },
        Codepoint { codepoint: 0x1BC74, name: "DUPLOYAN AFFIX MID VERTICAL SECANT", aliases: &[] },
        Codepoint { codepoint: 0x1BC75, name: "DUPLOYAN AFFIX HIGH VERTICAL SECANT", aliases: &[] },
        Codepoint { codepoint: 0x1BC76, name: "DUPLOYAN AFFIX ATTACHED SECANT", aliases: &[] },
        Codepoint { codepoint: 0x1BC77, name: "DUPLOYAN AFFIX ATTACHED LEFT-TO-RIGHT SECANT", aliases: &[] },
        Codepoint { codepoint: 0x1BC78, name: "DUPLOYAN AFFIX ATTACHED TANGENT", aliases: &[] },
        Codepoint { codepoint: 0x1BC79, name: "DUPLOYAN AFFIX ATTACHED TAIL", aliases: &[] },
        Codepoint { codepoint: 0x1BC7A, name: "DUPLOYAN AFFIX ATTACHED E HOOK", aliases: &[] },
        Codepoint { codepoint: 0x1BC7B, name: "DUPLOYAN AFFIX ATTACHED I HOOK", aliases: &[] },
        Codepoint { codepoint: 0x1BC7C, name: "DUPLOYAN AFFIX ATTACHED TANGENT HOOK", aliases: &[] },
        Codepoint { codepoint: 0x1BC80, name: "DUPLOYAN AFFIX HIGH ACUTE", aliases: &[] },
        Codepoint { codepoint: 0x1BC81, name: "DUPLOYAN AFFIX HIGH TIGHT ACUTE", aliases: &[] },
        Codepoint { codepoint: 0x1BC82, name: "DUPLOYAN AFFIX HIGH GRAVE", aliases: &[] },
        Codepoint { codepoint: 0x1BC83, name: "DUPLOYAN AFFIX HIGH LONG GRAVE", aliases: &[] },
        Codepoint { codepoint: 0x1BC84, name: "DUPLOYAN AFFIX HIGH DOT", aliases: &[] },
        Codepoint { codepoint: 0x1BC85, name: "DUPLOYAN AFFIX HIGH CIRCLE", aliases: &[] },
        Codepoint { codepoint: 0x1BC86, name: "DUPLOYAN AFFIX HIGH LINE", aliases: &[] },
        Codepoint { codepoint: 0x1BC87, name: "DUPLOYAN AFFIX HIGH WAVE", aliases: &[] },
        Codepoint { codepoint: 0x1BC88, name: "DUPLOYAN AFFIX HIGH VERTICAL", aliases: &[] },
        Codepoint { codepoint: 0x1BC90, name: "DUPLOYAN AFFIX LOW ACUTE", aliases: &[] },
        Codepoint { codepoint: 0x1BC91, name: "DUPLOYAN AFFIX LOW TIGHT ACUTE", aliases: &[] },
        Codepoint { codepoint: 0x1BC92, name: "DUPLOYAN AFFIX LOW GRAVE", aliases: &[] },
        Codepoint { codepoint: 0x1BC93, name: "DUPLOYAN AFFIX LOW LONG GRAVE", aliases: &[] },
        Codepoint { codepoint: 0x1BC94, name: "DUPLOYAN AFFIX LOW DOT", aliases: &[] },
        Codepoint { codepoint: 0x1BC95, name: "DUPLOYAN AFFIX LOW CIRCLE", aliases: &[] },
        Codepoint { codepoint: 0x1BC96, name: "DUPLOYAN AFFIX LOW LINE", aliases: &[] },
        Codepoint { codepoint: 0x1BC97, name: "DUPLOYAN AFFIX LOW WAVE", aliases: &[] },
        Codepoint { codepoint: 0x1BC98, name: "DUPLOYAN AFFIX LOW VERTICAL", aliases: &[] },
        Codepoint { codepoint: 0x1BC99, name: "DUPLOYAN AFFIX LOW ARROW", aliases: &[] },
        Codepoint { codepoint: 0x1BC9C, name: "DUPLOYAN SIGN O WITH CROSS", aliases: &[] },
        Codepoint { codepoint: 0x1BC9D, name: "DUPLOYAN THICK LETTER SELECTOR", aliases: &[] },
        Codepoint { codepoint: 0x1BC9E, name: "DUPLOYAN DOUBLE MARK", aliases: &[] },
        Codepoint { codepoint: 0x1BC9F, name: "DUPLOYAN PUNCTUATION CHINOOK FULL STOP", aliases: &[] },
        Codepoint { codepoint: 0x1BCA0, name: "SHORTHAND FORMAT LETTER OVERLAP", aliases: &[] },
        Codepoint { codepoint: 0x1BCA1, name: "SHORTHAND FORMAT CONTINUING OVERLAP", aliases: &[] },
        Codepoint { codepoint: 0x1BCA2, name: "SHORTHAND FORMAT DOWN STEP", aliases: &[] },
    ]
}

fn all_codepoints_695() -> (v: Vec<Codepoint>)
    ensures
        v@ == codepoint_table_695(),
{
    let v = vec![
        Codepoint { codepoint: 0x1BC6A, name: "DUPLOYAN LETTER VOCALIC M", aliases: &[] },
        Codepoint { codepoint: 0x1BC70, name: "DUPLOYAN AFFIX LEFT HORIZONTAL SECANT", aliases: &[] },
        Codepoint { codepoint: 0x1BC71, name: "DUPLOYAN AFFIX MID HORIZONTAL SECANT", aliases: &[] },
        Codepoint { codepoint: 0x1BC72, name: "DUPLOYAN AFFIX RIGHT HORIZONTAL SECANT", aliases: &[] },
        Codepoint { codepoint: 0x1BC73, name: "DUPLOYAN AFFIX LOW VERTICAL SECANT", aliases: &[] },
        Codepoint { codepoint: 0x1BC74, name: "DUPLOYAN AFFIX MID VERTICAL SECANT", aliases: &[] },
        Codepoint { codepoint: 0x1BC75, name: "DUPLOYAN AFFIX HIGH VERTICAL SECANT", aliases: &[] },
        Codepoint { codepoint: 0x1BC76, name: "DUPLOYAN AFFIX ATTACHED SECANT", aliases: &[] },
        Codepoint { codepoint: 0x1BC77, name: "DUPLOYAN AFFIX ATTACHED LEFT-TO-RIGHT SECANT", aliases: &[] },
        Codepoint { codepoint: 0x1BC78, name: "DUPLOYAN AFFIX ATTACHED TANGENT", aliases: &[] },
        Codepoint { codepoint: 0x1BC79, name: "DUPLOYAN AFFIX ATTACHED TAIL", aliases: &[] },
        Codepoint { codepoint: 0x1BC7A, name: "DUPLOYAN AFFIX ATTACHED E HOOK", aliases: &[] },
        Codepoint { codepoint: 0x1BC7B, name: "DUPLOYAN AFFIX ATTACHED I HOOK", aliases: &[] },
        Codepoint { codepoint: 0x1BC7C, name: "DUPLOYAN AFFIX ATTACHED TANGENT HOOK", aliases: &[] },
        Codepoint { codepoint: 0x1BC80, name: "DUPLOYAN AFFIX HIGH ACUTE", aliases: &[] },
        Codepoint { codepoint: 0x1BC81, name: "DUPLOYAN AFFIX HIGH TIGHT ACUTE", aliases: &[] },
        Codepoint { codepoint: 0x1BC82, name: "DUPLOYAN AFFIX HIGH GRAVE", aliases: &[] },
        Codepoint { codepoint: 0x1BC83, name: "DUPLOYAN AFFIX HIGH LONG GRAVE", aliases: &[] },
        Codepoint { codepoint: 0x1BC84, name: "DUPLOYAN AFFIX HIGH DOT", aliases: &[] },
        Codepoint { codepoint: 0x1BC85, name: "DUPLOYAN AFFIX HIGH CIRCLE", aliases: &[] },
        Codepoint { codepoint: 0x1BC86, name: "DUPLOYAN AFFIX HIGH LINE", aliases: &[] },
        Codepoint { codepoint: 0x1BC87, name: "DUPLOYAN AFFIX HIGH WAVE", aliases: &[] },
        Codepoint { codepoint: 0x1BC88, name: "DUPLOYAN AFFIX HIGH VERTICAL", aliases: &[] },
        Codepoint { codepoint: 0x1BC90, name: "DUPLOYAN AFFIX LOW ACUTE", aliases: &[] },
        Codepoint { codepoint: 0x1BC91, name: "DUPLOYAN AFFIX LOW TIGHT ACUTE", aliases: &[] },
        Codepoint { codepoint: 0x1BC92, name: "DUPLOYAN AFFIX LOW GRAVE", aliases: &[] },
        Codepoint { codepoint: 0x1BC93, name: "DUPLOYAN AFFIX LOW LONG GRAVE", aliases: &[] },
        Codepoint { codepoint: 0x1BC94, name: "DUPLOYAN AFFIX LOW DOT", aliases: &[] },
        Codepoint { codepoint: 0x1BC95, name: "DUPLOYAN AFFIX LOW CIRCLE", aliases: &[] },
        Codepoint { codepoint: 0x1BC96, name: "DUPLOYAN AFFIX LOW LINE", aliases: &[] },
        Codepoint { codepoint: 0x1BC97, name: "DUPLOYAN AFFIX LOW WAVE", aliases: &[] },
        Codepoint { codepoint: 0x1BC98, name: "DUPLOYAN AFFIX LOW VERTICAL", aliases: &[] },
        Codepoint { codepoint: 0x1BC99, name: "DUPLOYAN AFFIX LOW ARROW", aliases: &[] },
        Codepoint { codepoint: 0x1BC9C, name: "DUPLOYAN SIGN O WITH CROSS", aliases: &[] },
        Codepoint { codepoint: 0x1BC9D, name: "DUPLOYAN THICK LETTER SELECTOR", aliases: &[] },
        Codepoint { codepoint: 0x1BC9E, name: "DUPLOYAN DOUBLE MARK", aliases: &[] },
        Codepoint { codepoint: 0x1BC9F, name: "DUPLOYAN PUNCTUATION CHINOOK FULL STOP", aliases: &[] },
        Codepoint { codepoint: 0x1BCA0, name: "SHORTHAND FORMAT LETTER OVERLAP", aliases: &[] },
        Codepoint { codepoint: 0x1BCA1, name: "SHORTHAND FORMAT CONTINUING OVERLAP", aliases: &[] },
        Codepoint { codepoint: 0x1BCA2, name: "SHORTHAND FORMAT DOWN STEP", aliases: &[] },
    ];
    assert(v@ =~= codepoint_table_695());
    v
}

pub open spec fn codepoint_table_696() -> Seq<Codepoint> {
    seq![
        Codepoint { codepoint: 0x1BCA3, name: "SHORTHAND FORMAT UP STEP", aliases: &[] },
        Codepoint { codepoint: 0x1CF00, name: "ZNAMENNY COMBINING MARK GORAZDO NIZKO S KRYZHEM ON LEFT", aliases: &[] },
        Codepoint { codepoint: 0x1CF01, name: "ZNAMENNY COMBINING MARK NIZKO S KRYZHEM ON LEFT", aliases: &[] },
        Codepoint { codepoint: 0x1CF02, name: "ZNAMENNY COMBINING MARK TSATA ON LEFT", aliases: &[] },
        Codepoint { codepoint: 0x1CF03, name: "ZNAMENNY COMBINING MARK GORAZDO NIZKO ON LEFT", aliases: &[] },
        Codepoint { codepoint: 0x1CF04, name: "ZNAMENNY COMBINING MARK NIZKO ON LEFT", aliases: &[] },
        Codepoint { codepoint: 0x1CF05, name: "ZNAMENNY COMBINING MARK SREDNE ON LEFT", aliases: &[] },
        Codepoint { codepoint: 0x1CF06, name: "ZNAMENNY COMBINING MARK MALO POVYSHE ON LEFT", aliases: &[] },
        Codepoint { codepoint: 0x1CF07, name: "ZNAMENNY COMBINING MARK POVYSHE ON LEFT", aliases: &[] },
        Codepoint { codepoint: 0x1CF08, name: "ZNAMENNY COMBINING MARK VYSOKO ON LEFT", aliases: &[] },
        Codepoint { codepoint: 0x1CF09, name: "ZNAMENNY COMBINING MARK MALO POVYSHE S KHOKHLOM ON LEFT", aliases: &[] },
        Codepoint { codepoint: 0x1CF0A, name: "ZNAMENNY COMBINING MARK POVYSHE S KHOKHLOM ON LEFT", aliases: &[] },
        Codepoint { codepoint: 0x1CF0B, name: "ZNAMENNY COMBINING MARK VYSOKO S KHOKHLOM ON LEFT", aliases: &[] },
        Codepoint { codepoint: 0x1CF0C, name: "ZNAMENNY COMBINING MARK GORAZDO NIZKO S KRYZHEM ON RIGHT", aliases: &[] },
        Codepoint { codepoint: 0x1CF0D, name: "ZNAMENNY COMBINING MARK NIZKO S KRYZHEM ON RIGHT", aliases: &[] },
        Codepoint { codepoint: 0x1CF0E, name: "ZNAMENNY COMBINING MARK TSATA ON RIGHT", aliases: &[] },
        Codepoint { codepoint: 0x1CF0F, name: "ZNAMENNY COMBINING MARK GORAZDO NIZKO ON RIGHT", aliases: &[] },
        Codepoint { codepoint: 0x1CF10, name: "ZNAMENNY COMBINING MARK NIZKO ON RIGHT", aliases: &[] },
        Codepoint { codepoint: 0x1CF11, name: "ZNAMENNY COMBINING MARK SREDNE ON RIGHT", aliases: &[] },
        Codepoint { codepoint: 0x1CF12, name: "ZNAMENNY COMBINING MARK MALO POVYSHE ON RIGHT", aliases: &[] },
        Codepoint { codepoint: 0x1CF13, name: "ZNAMENNY COMBINING MARK POVYSHE ON RIGHT", aliases: &[] },
        Codepoint { codepoint: 0x1CF14, name: "ZNAMENNY COMBINING MARK VYSOKO ON RIGHT", aliases: &[] },
        Codepoint { codepoint: 0x1CF15, name: "ZNAMENNY COMBINING MARK MALO POVYSHE S KHOKHLOM ON RIGHT", aliases: &[] },
        Codepoint { codepoint: 0x1CF16, name: "ZNAMENNY COMBINING MARK POVYSHE S KHOKHLOM ON RIGHT", aliases: &[] },
        Codepoint { codepoint: 0x1CF17, name: "ZNAMENNY COMBINING MARK VYSOKO S KHOKHLOM ON RIGHT", aliases: &[] },
        Codepoint { codepoint: 0x1CF18, name: "ZNAMENNY COMBINING MARK TSATA S KRYZHEM", aliases: &[] },
        Codepoint { codepoint: 0x1CF19, name: "ZNAMENNY COMBINING MARK MALO POVYSHE S KRYZHEM", aliases: &[] },
        Codepoint { codepoint: 0x1CF1A, name: "ZNAMENNY COMBINING MARK STRANNO MALO POVYSHE", aliases: &[] },
        Codepoint { codepoint: 0x1CF1B, name: "ZNAMENNY COMBINING MARK POVYSHE S KRYZHEM", aliases: &[] },
        Codepoint { codepoint: 0x1CF1C, name: "ZNAMENNY COMBINING MARK POVYSHE STRANNO", aliases: &[] },
        Codepoint { codepoint: 0x1CF1D, name: "ZNAMENNY COMBINING MARK VYSOKO S KRYZHEM", aliases: &[] },
        Codepoint { codepoint: 0x1CF1E, name: "ZNAMENNY COMBINING MARK MALO POVYSHE STRANNO", aliases: &[] },
        Codepoint { codepoint: 0x1CF1F, name: "ZNAMENNY COMBINING MARK GORAZDO VYSOKO", aliases: &[] },
        Codepoint { codepoint: 0x1CF20, name: "ZNAMENNY COMBINING MARK ZELO", aliases: &[] },
        Codepoint { codepoint: 0x1CF21, name: "ZNAMENNY COMBINING MARK ON", aliases: &[] },
        Codepoint { codepoint: 0x1CF22, name: "ZNAMENNY COMBINING MARK RAVNO", aliases: &[] },
        Codepoint { codepoint: 0x1CF23, name: "ZNAMENNY COMBINING MARK TIKHAYA", aliases: &[] },
        Codepoint { codepoint: 0x1CF24, name: "ZNAMENNY COMBINING MARK BORZAYA", aliases: &[] },
        Codepoint { codepoint: 0x1CF25, name: "ZNAMENNY COMBINING MARK UDARKA", aliases: &[] },
        Codepoint { codepoint: 0x1CF26, name: "ZNAMENNY COMBINING MARK PODVERTKA", aliases: &[] },
    ]
}

fn all_codepoints_696() -> (v: Vec<Codepoint>)
    ensures
        v@ == codepoint_table_696(),
{
    let v = vec![
        Codepoint { codepoint: 0x1BCA3, name: "SHORTHAND FORMAT UP STEP", aliases: &[] },
        Codepoint { codepoint: 0x1CF00, name: "ZNAMENNY COMBINING MARK GORAZDO NIZKO S KRYZHEM ON LEFT", aliases: &[] },
        Codepoint { codepoint: 0x1CF01, name: "ZNAMENNY COMBINING MARK NIZKO S KRYZHEM ON LEFT", aliases: &[] },
        Codepoint { codepoint: 0x1CF02, name: "ZNAMENNY COMBINING MARK TSATA ON LEFT", aliases: &[] },
        Codepoint { codepoint: 0x1CF03, name: "ZNAMENNY COMBINING MARK GORAZDO NIZKO ON LEFT", aliases: &[] },
        Codepoint { codepoint: 0x1CF04, name: "ZNAMENNY COMBINING MARK NIZKO ON LEFT", aliases: &[] },
        Codepoint { codepoint: 0x1CF05, name: "ZNAMENNY COMBINING MARK SREDNE ON LEFT", aliases: &[] },
        Codepoint { codepoint: 0x1CF06, name: "ZNAMENNY COMBINING MARK MALO POVYSHE ON LEFT", aliases: &[] },
        Codepoint { codepoint: 0x1CF07, name: "ZNAMENNY COMBINING MARK POVYSHE ON LEFT", aliases: &[] },
        Codepoint { codepoint: 0x1CF08, name: "ZNAMENNY COMBINING MARK VYSOKO ON LEFT", aliases: &[] },
        Codepoint { codepoint: 0x1CF09, name: "ZNAMENNY COMBINING MARK MALO POVYSHE S KHOKHLOM ON LEFT", aliases: &[] },
        Codepoint { codepoint: 0x1CF0A, name: "ZNAMENNY COMBINING MARK POVYSHE S KHOKHLOM ON LEFT", aliases: &[] },
        Codepoint { codepoint: 0x1CF0B, name: "ZNAMENNY COMBINING MARK VYSOKO S KHOKHLOM ON LEFT", aliases: &[] },
        Codepoint { codepoint: 0x1CF0C, name: "ZNAMENNY COMBINING MARK GORAZDO NIZKO S KRYZHEM ON RIGHT", aliases: &[] },
        Codepoint { codepoint: 0x1CF0D, name: "ZNAMENNY COMBINING MARK NIZKO S KRYZHEM ON RIGHT", aliases: &[] },
        Codepoint { codepoint: 0x1CF0E, name: "ZNAMENNY COMBINING MARK TSATA ON RIGHT", aliases: &[] },
        Codepoint { codepoint: 0x1CF0F, name: "ZNAMENNY COMBINING MARK GORAZDO NIZKO ON RIGHT", aliases: &[] },
        Codepoint { codepoint: 0x1CF10, name: "ZNAMENNY COMBINING MARK NIZKO ON RIGHT", aliases: &[] },
        Codepoint { codepoint: 0x1CF11, name: "ZNAMENNY COMBINING MARK SREDNE ON RIGHT", aliases: &[] },
        Codepoint { codepoint: 0x1CF12, name: "ZNAMENNY COMBINING MARK MALO POVYSHE ON RIGHT", aliases: &[] },
        Codepoint { codepoint: 0x1CF13, name: "ZNAMENNY COMBINING MARK POVYSHE ON RIGHT", aliases: &[] },
        Codepoint { codepoint: 0x1CF14, name: "ZNAMENNY COMBINING MARK VYSOKO ON RIGHT", aliases: &[] },
        Codepoint { codepoint: 0x1CF15, name: "ZNAMENNY COMBINING MARK MALO POVYSHE S KHOKHLOM ON RIGHT", aliases: &[] },
        Codepoint { codepoint: 0x1CF16, name: "ZNAMENNY COMBINING MARK POVYSHE S KHOKHLOM ON RIGHT", aliases: &[] },
        Codepoint { codepoint: 0x1CF17, name: "ZNAMENNY COMBINING MARK VYSOKO S KHOKHLOM ON RIGHT", aliases: &[] },
        Codepoint { codepoint: 0x1CF18, name: "ZNAMENNY COMBINING MARK TSATA S KRYZHEM", aliases: &[] },
        Codepoint { codepoint: 0x1CF19, name: "ZNAMENNY COMBINING MARK MALO POVYSHE S KRYZHEM", aliases: &[] },
        Codepoint { codepoint: 0x1CF1A, name: "ZNAMENNY COMBINING MARK STRANNO MALO POVYSHE", aliases: &[] },
        Codepoint { codepoint: 0x1CF1B, name: "ZNAMENNY COMBINING MARK POVYSHE S KRYZHEM", aliases: &[] },
        Codepoint { codepoint: 0x1CF1C, name: "ZNAMENNY COMBINING MARK POVYSHE STRANNO", aliases: &[] },
        Codepoint { codepoint: 0x1CF1D, name: "ZNAMENNY COMBINING MARK VYSOKO S KRYZHEM", aliases: &[] },
        Codepoint { codepoint: 0x1CF1E, name: "ZNAMENNY COMBINING MARK MALO POVYSHE STRANNO", aliases: &[] },
        Codepoint { codepoint: 0x1CF1F, name: "ZNAMENNY COMBINING MARK GORAZDO VYSOKO", aliases: &[] },
        Codepoint { codepoint: 0x1CF20, name: "ZNAMENNY COMBINING MARK ZELO", aliases: &[] },
        Codepoint { codepoint: 0x1CF21, name: "ZNAMENNY COMBINING MARK ON", aliases: &[] },
        Codepoint { codepoint: 0x1CF22, name: "ZNAMENNY COMBINING MARK RAVNO", aliases: &[] },
        Codepoint { codepoint: 0x1CF23, name: "ZNAMENNY COMBINING MARK TIKHAYA", aliases: &[] },
        Codepoint { codepoint: 0x1CF24, name: "ZNAMENNY COMBINING MARK BORZAYA", aliases: &[] },
        Codepoint { codepoint: 0x1CF25, name: "ZNAMENNY COMBINING MARK UDARKA", aliases: &[] },
        Codepoint { codepoint: 0x1CF26, name: "ZNAMENNY COMBINING MARK PODVERTKA", aliases: &[] },
    ];
    assert(v@ =~= codepoint_table_696());
    v
}

pub open spec fn codepoint_table_697() -> Seq<Codepoint> {
    seq![
        Codepoint { codepoint: 0x1CF27, name: "ZNAMENNY COMBINING MARK LOMKA", aliases: &[] },
        Codepoint { codepoint: 0x1CF28, name: "ZNAMENNY COMBINING MARK KUPNAYA", aliases: &[] },
        Codepoint { codepoint: 0x1CF29, name: "ZNAMENNY COMBINING MARK KACHKA", aliases: &[] },
        Codepoint { codepoint: 0x1CF2A, name: "ZNAMENNY COMBINING MARK ZEVOK", aliases: &[] },
        Codepoint { codepoint: 0x1CF2B, name: "ZNAMENNY COMBINING MARK SKOBA", aliases: &[] },
        Codepoint { codepoint: 0x1CF2C, name: "ZNAMENNY COMBINING MARK RAZSEKA", aliases: &[] },
        Codepoint { codepoint: 0x1CF2D, name: "ZNAMENNY COMBINING MARK KRYZH ON LEFT", aliases: &[] },
        Codepoint { codepoint: 0x1CF30, name: "ZNAMENNY COMBINING TONAL RANGE MARK MRACHNO", aliases: &[] },
        Codepoint { codepoint: 0x1CF31, name: "ZNAMENNY COMBINING TONAL RANGE MARK SVETLO", aliases: &[] },
        Codepoint { codepoint: 0x1CF32, name: "ZNAMENNY COMBINING TONAL RANGE MARK TRESVETLO", aliases: &[] },
        Codepoint { codepoint: 0x1CF33, name: "ZNAMENNY COMBINING MARK ZADERZHKA", aliases: &[] },
        Codepoint { codepoint: 0x1CF34, name: "ZNAMENNY COMBINING MARK DEMESTVENNY ZADERZHKA", aliases: &[] },
        Codepoint { codepoint: 0x1CF35, name: "ZNAMENNY COMBINING MARK OTSECHKA", aliases: &[] },
        Codepoint { codepoint: 0x1CF36, name: "ZNAMENNY COMBINING MARK PODCHASHIE", aliases: &[] },
        Codepoint { codepoint: 0x1CF37, name: "ZNAMENNY COMBINING MARK PODCHASHIE WITH VERTICAL STROKE", aliases: &[] },
        Codepoint { codepoint: 0x1CF38, name: "ZNAMENNY COMBINING MARK CHASHKA", aliases: &[] },
        Codepoint { codepoint: 0x1CF39, name: "ZNAMENNY COMBINING MARK CHASHKA POLNAYA", aliases: &[] },
        Codepoint { codepoint: 0x1CF3A, name: "ZNAMENNY COMBINING MARK OBLACHKO", aliases: &[] },
        Codepoint { codepoint: 0x1CF3B, name: "ZNAMENNY COMBINING MARK SOROCHYA NOZHKA", aliases: &[] },
        Codepoint { codepoint: 0x1CF3C, name: "ZNAMENNY COMBINING MARK TOCHKA", aliases: &[] },
        Codepoint { codepoint: 0x1CF3D, name: "ZNAMENNY COMBINING MARK DVOETOCHIE", aliases: &[] },
        Codepoint { codepoint: 0x1CF3E, name: "ZNAMENNY COMBINING ATTACHING VERTICAL OMET", aliases: &[] },
        Codepoint { codepoint: 0x1CF3F, name: "ZNAMENNY COMBINING MARK CURVED OMET", aliases: &[] },
        Codepoint { codepoint: 0x1CF40, name: "ZNAMENNY COMBINING MARK KRYZH", aliases: &[] },
        Codepoint { codepoint: 0x1CF41, name: "ZNAMENNY COMBINING LOWER TONAL RANGE INDICATOR", aliases: &[] },
        Codepoint { codepoint: 0x1CF42, name: "ZNAMENNY PRIZNAK MODIFIER LEVEL-2", aliases: &[] },
        Codepoint { codepoint: 0x1CF43, name: "ZNAMENNY PRIZNAK MODIFIER LEVEL-3", aliases: &[] },
        Codepoint { codepoint: 0x1CF44, name: "ZNAMENNY PRIZNAK MODIFIER DIRECTION FLIP", aliases: &[] },
        Codepoint { codepoint: 0x1CF45, name: "ZNAMENNY PRIZNAK MODIFIER KRYZH", aliases: &[] },
        Codepoint { codepoint: 0x1CF46, name: "ZNAMENNY PRIZNAK MODIFIER ROG", aliases: &[] },
        Codepoint { codepoint: 0x1CF50, name: "ZNAMENNY NEUME KRYUK", aliases: &[] },
        Codepoint { codepoint: 0x1CF51, name: "ZNAMENNY NEUME KRYUK TIKHY", aliases: &[] },
        Codepoint { codepoint: 0x1CF52, name: "ZNAMENNY NEUME PARAKLIT", aliases: &[] },
        Codepoint { codepoint: 0x1CF53, name: "ZNAMENNY NEUME DVA V CHELNU", aliases: &[] },
        Codepoint { codepoint: 0x1CF54, name: "ZNAMENNY NEUME KLYUCH", aliases: &[] },
        Codepoint { codepoint: 0x1CF55, name: "ZNAMENNY NEUME ZANOZHEK", aliases: &[] },
        Codepoint { codepoint: 0x1CF56, name: "ZNAMENNY NEUME STOPITSA", aliases: &[] },
        Codepoint { codepoint: 0x1CF57, name: "ZNAMENNY NEUME STOPITSA S OCHKOM", aliases: &[] },
        Codepoint { codepoint: 0x1CF58, name: "ZNAMENNY NEUME PEREVODKA", aliases: &[] },
        Codepoint { codepoint: 0x1CF59, name: "ZNAMENNY NEUME PEREVODKA NEPOSTOYANNAYA", aliases: &[] },
    ]
}

fn all_codepoints_697() -> (v: Vec<Codepoint>)
    ensures
        v@ == codepoint_table_697(),
{
    let v = vec![
        Codepoint { codepoint: 0x1CF27, name: "ZNAMENNY COMBINING MARK LOMKA", aliases: &[] },
        Codepoint { codepoint: 0x1CF28, name: "ZNAMENNY COMBINING MARK KUPNAYA", aliases: &[] },
        Codepoint { codepoint: 0x1CF29, name: "ZNAMENNY COMBINING MARK KACHKA", aliases: &[] },
        Codepoint { codepoint: 0x1CF2A, name: "ZNAMENNY COMBINING MARK ZEVOK", aliases: &[] },
        Codepoint { codepoint: 0x1CF2B, name: "ZNAMENNY COMBINING MARK SKOBA", aliases: &[] },
        Codepoint { codepoint: 0x1CF2C, name: "ZNAMENNY COMBINING MARK RAZSEKA", aliases: &[] },
        Codepoint { codepoint: 0x1CF2D, name: "ZNAMENNY COMBINING MARK KRYZH ON LEFT", aliases: &[] },
        Codepoint { codepoint: 0x1CF30, name: "ZNAMENNY COMBINING TONAL RANGE MARK MRACHNO", aliases: &[] },
        Codepoint { codepoint: 0x1CF31, name: "ZNAMENNY COMBINING TONAL RANGE MARK SVETLO", aliases: &[] },
        Codepoint { codepoint: 0x1CF32, name: "ZNAMENNY COMBINING TONAL RANGE MARK TRESVETLO", aliases: &[] },
        Codepoint { codepoint: 0x1CF33, name: "ZNAMENNY COMBINING MARK ZADERZHKA", aliases: &[] },
        Codepoint { codepoint: 0x1CF34, name: "ZNAMENNY COMBINING MARK DEMESTVENNY ZADERZHKA", aliases: &[] },
        Codepoint { codepoint: 0x1CF35, name: "ZNAMENNY COMBINING MARK OTSECHKA", aliases: &[] },
        Codepoint { codepoint: 0x1CF36, name: "ZNAMENNY COMBINING MARK PODCHASHIE", aliases: &[] },
        Codepoint { codepoint: 0x1CF37, name: "ZNAMENNY COMBINING MARK PODCHASHIE WITH VERTICAL STROKE", aliases: &[] },
        Codepoint { codepoint: 0x1CF38, name: "ZNAMENNY COMBINING MARK CHASHKA", aliases: &[] },
        Codepoint { codepoint: 0x1CF39, name: "ZNAMENNY COMBINING MARK CHASHKA POLNAYA", aliases: &[] },
        Codepoint { codepoint: 0x1CF3A, name: "ZNAMENNY COMBINING MARK OBLACHKO", aliases: &[] },
        Codepoint { codepoint: 0x1CF3B, name: "ZNAMENNY COMBINING MARK SOROCHYA NOZHKA", aliases: &[] },
        Codepoint { codepoint: 0x1CF3C, name: "ZNAMENNY COMBINING MARK TOCHKA", aliases: &[] },
        Codepoint { codepoint: 0x1CF3D, name: "ZNAMENNY COMBINING MARK DVOETOCHIE", aliases: &[] },
        Codepoint { codepoint: 0x1CF3E, name: "ZNAMENNY COMBINING ATTACHING VERTICAL OMET", aliases: &[] },
        Codepoint { codepoint: 0x1CF3F, name: "ZNAMENNY COMBINING MARK CURVED OMET", aliases: &[] },
        Codepoint { codepoint: 0x1CF40, name: "ZNAMENNY COMBINING MARK KRYZH", aliases: &[] },
        Codepoint { codepoint: 0x1CF41, name: "ZNAMENNY COMBINING LOWER TONAL RANGE INDICATOR", aliases: &[] },
        Codepoint { codepoint: 0x1CF42, name: "ZNAMENNY PRIZNAK MODIFIER LEVEL-2", aliases: &[] },
        Codepoint { codepoint: 0x1CF43, name: "ZNAMENNY PRIZNAK MODIFIER LEVEL-3", aliases: &[] },
        Codepoint { codepoint: 0x1CF44, name: "ZNAMENNY PRIZNAK MODIFIER DIRECTION FLIP", aliases: &[] },
        Codepoint { codepoint: 0x1CF45, name: "ZNAMENNY PRIZNAK MODIFIER KRYZH", aliases: &[] },
        Codepoint { codepoint: 0x1CF46, name: "ZNAMENNY PRIZNAK MODIFIER ROG", aliases: &[] },
        Codepoint { codepoint: 0x1CF50, name: "ZNAMENNY NEUME KRYUK", aliases: &[] },
        Codepoint { codepoint: 0x1CF51, name: "ZNAMENNY NEUME KRYUK TIKHY", aliases: &[] },
        Codepoint { codepoint: 0x1CF52, name: "ZNAMENNY NEUME PARAKLIT", aliases: &[] },
        Codepoint { codepoint: 0x1CF53, name: "ZNAMENNY NEUME DVA V CHELNU", aliases: &[] },
        Codepoint { codepoint: 0x1CF54, name: "ZNAMENNY NEUME KLYUCH", aliases: &[] },
        Codepoint { codepoint: 0x1CF55, name: "ZNAMENNY NEUME ZANOZHEK", aliases: &[] },
        Codepoint { codepoint: 0x1CF56, name: "ZNAMENNY NEUME STOPITSA", aliases: &[] },
        Codepoint { codepoint: 0x1CF57, name: "ZNAMENNY NEUME STOPITSA S OCHKOM", aliases: &[] },
        Codepoint { codepoint: 0x1CF58, name: "ZNAMENNY NEUME PEREVODKA", aliases: &[] },
        Codepoint { codepoint: 0x1CF59, name: "ZNAMENNY NEUME PEREVODKA NEPOSTOYANNAYA", aliases: &[] },
    ];
    assert(v@ =~= codepoint_table_697());
    v
}

pub open spec fn codepoint_table_698() -> Seq<Codepoint> {
    seq![
        Codepoint { codepoint: 0x1CF5A, name: "ZNAMENNY NEUME STOPITSA WITH SOROCHYA NOZHKA", aliases: &[] },
        Codepoint { codepoint: 0x1CF5B, name: "ZNAMENNY NEUME CHELYUSTKA", aliases: &[] },
        Codepoint { codepoint: 0x1CF5C, name: "ZNAMENNY NEUME PALKA", aliases: &[] },
        Codepoint { codepoint: 0x1CF5D, name: "ZNAMENNY NEUME ZAPYATAYA", aliases: &[] },
        Codepoint { codepoint: 0x1CF5E, name: "ZNAMENNY NEUME GOLUBCHIK BORZY", aliases: &[] },
        Codepoint { codepoint: 0x1CF5F, name: "ZNAMENNY NEUME GOLUBCHIK TIKHY", aliases: &[] },
        Codepoint { codepoint: 0x1CF60, name: "ZNAMENNY NEUME GOLUBCHIK MRACHNY", aliases: &[] },
        Codepoint { codepoint: 0x1CF61, name: "ZNAMENNY NEUME GOLUBCHIK SVETLY", aliases: &[] },
        Codepoint { codepoint: 0x1CF62, name: "ZNAMENNY NEUME GOLUBCHIK TRESVETLY", aliases: &[] },
        Codepoint { codepoint: 0x1CF63, name: "ZNAMENNY NEUME VRAKHIYA PROSTAYA", aliases: &[] },
        Codepoint { codepoint: 0x1CF64, name: "ZNAMENNY NEUME VRAKHIYA MRACHNAYA", aliases: &[] },
        Codepoint { codepoint: 0x1CF65, name: "ZNAMENNY NEUME VRAKHIYA SVETLAYA", aliases: &[] },
        Codepoint { codepoint: 0x1CF66, name: "ZNAMENNY NEUME VRAKHIYA TRESVETLAYA", aliases: &[] },
        Codepoint { codepoint: 0x1CF67, name: "ZNAMENNY NEUME VRAKHIYA KLYUCHEVAYA PROSTAYA", aliases: &[] },
        Codepoint { codepoint: 0x1CF68, name: "ZNAMENNY NEUME VRAKHIYA KLYUCHEVAYA MRACHNAYA", aliases: &[] },
        Codepoint { codepoint: 0x1CF69, name: "ZNAMENNY NEUME VRAKHIYA KLYUCHEVAYA SVETLAYA", aliases: &[] },
        Codepoint { codepoint: 0x1CF6A, name: "ZNAMENNY NEUME VRAKHIYA KLYUCHEVAYA TRESVETLAYA", aliases: &[] },
        Codepoint { codepoint: 0x1CF6B, name: "ZNAMENNY NEUME DOUBLE ZAPYATAYA", aliases: &[] },
        Codepoint { codepoint: 0x1CF6C, name: "ZNAMENNY NEUME REVERSED CHELYUSTKA", aliases: &[] },
        Codepoint { codepoint: 0x1CF6D, name: "ZNAMENNY NEUME DERBITSA", aliases: &[] },
        Codepoint { codepoint: 0x1CF6E, name: "ZNAMENNY NEUME KHAMILO", aliases: &[] },
        Codepoint { codepoint: 0x1CF6F, name: "ZNAMENNY NEUME CHASHKA", aliases: &[] },
        Codepoint { codepoint: 0x1CF70, name: "ZNAMENNY NEUME PODCHASHIE", aliases: &[] },
        Codepoint { codepoint: 0x1CF71, name: "ZNAMENNY NEUME SKAMEYTSA MRACHNAYA", aliases: &[] },
        Codepoint { codepoint: 0x1CF72, name: "ZNAMENNY NEUME SKAMEYTSA SVETLAYA", aliases: &[] },
        Codepoint { codepoint: 0x1CF73, name: "ZNAMENNY NEUME SKAMEYTSA TRESVETLAYA", aliases: &[] },
        Codepoint { codepoint: 0x1CF74, name: "ZNAMENNY NEUME SKAMEYTSA TIKHAYA", aliases: &[] },
        Codepoint { codepoint: 0x1CF75, name: "ZNAMENNY NEUME DEMESTVENNY KLYUCH", aliases: &[] },
        Codepoint { codepoint: 0x1CF76, name: "ZNAMENNY NEUME SKAMEYTSA KLYUCHEVAYA SVETLAYA", aliases: &[] },
        Codepoint { codepoint: 0x1CF77, name: "ZNAMENNY NEUME SKAMEYTSA KLYUCHENEPOSTOYANNAYA", aliases: &[] },
        Codepoint { codepoint: 0x1CF78, name: "ZNAMENNY NEUME SKAMEYTSA KLYUCHEVAYA TIKHAYA", aliases: &[] },
        Codepoint { codepoint: 0x1CF79, name: "ZNAMENNY NEUME SKAMEYTSA DVOECHELNAYA PROSTAYA", aliases: &[] },
        Codepoint { codepoint: 0x1CF7A, name: "ZNAMENNY NEUME SKAMEYTSA DVOECHELNAYA SVETLAYA", aliases: &[] },
        Codepoint { codepoint: 0x1CF7B, name: "ZNAMENNY NEUME SKAMEYTSA DVOECHELNAYA NEPOSTOYANNAYA", aliases: &[] },
        Codepoint { codepoint: 0x1CF7C, name: "ZNAMENNY NEUME SKAMEYTSA DVOECHELNAYA KLYUCHEVAYA", aliases: &[] },
        Codepoint { codepoint: 0x1CF7D, name: "ZNAMENNY NEUME SLOZHITIE", aliases: &[] },
        Codepoint { codepoint: 0x1CF7E, name: "ZNAMENNY NEUME SLOZHITIE S ZAPYATOY", aliases: &[] },
        Codepoint { codepoint: 0x1CF7F, name: "ZNAMENNY NEUME SLOZHITIE ZAKRYTOE", aliases: &[] },
        Codepoint { codepoint: 0x1CF80, name: "ZNAMENNY NEUME SLOZHITIE S KRYZHEM", aliases: &[] },
        Codepoint { codepoint: 0x1CF81, name: "ZNAMENNY NEUME KRYZH", aliases: &[] },
    ]
}

fn all_codepoints_698() -> (v: Vec<Codepoint>)
    ensures
        v@ == codepoint_table_698(),
{
    let v = vec![
        Codepoint { codepoint: 0x1CF5A, name: "ZNAMENNY NEUME STOPITSA WITH SOROCHYA NOZHKA", aliases: &[] },
        Codepoint { codepoint: 0x1CF5B, name: "ZNAMENNY NEUME CHELYUSTKA", aliases: &[] },
        Codepoint { codepoint: 0x1CF5C, name: "ZNAMENNY NEUME PALKA", aliases: &[] },
        Codepoint { codepoint: 0x1CF5D, name: "ZNAMENNY NEUME ZAPYATAYA", aliases: &[] },
        Codepoint { codepoint: 0x1CF5E, name: "ZNAMENNY NEUME GOLUBCHIK BORZY", aliases: &[] },
        Codepoint { codepoint: 0x1CF5F, name: "ZNAMENNY NEUME GOLUBCHIK TIKHY", aliases: &[] },
        Codepoint { codepoint: 0x1CF60, name: "ZNAMENNY NEUME GOLUBCHIK MRACHNY", aliases: &[] },
        Codepoint { codepoint: 0x1CF61, name: "ZNAMENNY NEUME GOLUBCHIK SVETLY", aliases: &[] },
        Codepoint { codepoint: 0x1CF62, name: "ZNAMENNY NEUME GOLUBCHIK TRESVETLY", aliases: &[] },
        Codepoint { codepoint: 0x1CF63, name: "ZNAMENNY NEUME VRAKHIYA PROSTAYA", aliases: &[] },
        Codepoint { codepoint: 0x1CF64, name: "ZNAMENNY NEUME VRAKHIYA MRACHNAYA", aliases: &[] },
        Codepoint { codepoint: 0x1CF65, name: "ZNAMENNY NEUME VRAKHIYA SVETLAYA", aliases: &[] },
        Codepoint { codepoint: 0x1CF66, name: "ZNAMENNY NEUME VRAKHIYA TRESVETLAYA", aliases: &[] },
        Codepoint { codepoint: 0x1CF67, name: "ZNAMENNY NEUME VRAKHIYA KLYUCHEVAYA PROSTAYA", aliases: &[] },
        Codepoint { codepoint: 0x1CF68, name: "ZNAMENNY NEUME VRAKHIYA KLYUCHEVAYA MRACHNAYA", aliases: &[] },
        Codepoint { codepoint: 0x1CF69, name: "ZNAMENNY NEUME VRAKHIYA KLYUCHEVAYA SVETLAYA", aliases: &[] },
        Codepoint { codepoint: 0x1CF6A, name: "ZNAMENNY NEUME VRAKHIYA KLYUCHEVAYA TRESVETLAYA", aliases: &[] },
        Codepoint { codepoint: 0x1CF6B, name: "ZNAMENNY NEUME DOUBLE ZAPYATAYA", aliases: &[] },
        Codepoint { codepoint: 0x1CF6C, name: "ZNAMENNY NEUME REVERSED CHELYUSTKA", aliases: &[] },
        Codepoint { codepoint: 0x1CF6D, name: "ZNAMENNY NEUME DERBITSA", aliases: &[] },
        Codepoint { codepoint: 0x1CF6E, name: "ZNAMENNY NEUME KHAMILO", aliases: &[] },
        Codepoint { codepoint: 0x1CF6F, name: "ZNAMENNY NEUME CHASHKA", aliases: &[] },
        Codepoint { codepoint: 0x1CF70, name: "ZNAMENNY NEUME PODCHASHIE", aliases: &[] },
        Codepoint { codepoint: 0x1CF71, name: "ZNAMENNY NEUME SKAMEYTSA MRACHNAYA", aliases: &[] },
        Codepoint { codepoint: 0x1CF72, name: "ZNAMENNY NEUME SKAMEYTSA SVETLAYA", aliases: &[] },
        Codepoint { codepoint: 0x1CF73, name: "ZNAMENNY NEUME SKAMEYTSA TRESVETLAYA", aliases: &[] },
        Codepoint { codepoint: 0x1CF74, name: "ZNAMENNY NEUME SKAMEYTSA TIKHAYA", aliases: &[] },
        Codepoint { codepoint: 0x1CF75, name: "ZNAMENNY NEUME DEMESTVENNY KLYUCH", aliases: &[] },
        Codepoint { codepoint: 0x1CF76, name: "ZNAMENNY NEUME SKAMEYTSA KLYUCHEVAYA SVETLAYA", aliases: &[] },
        Codepoint { codepoint: 0x1CF77, name: "ZNAMENNY NEUME SKAMEYTSA KLYUCHENEPOSTOYANNAYA", aliases: &[] },
        Codepoint { codepoint: 0x1CF78, name: "ZNAMENNY NEUME SKAMEYTSA KLYUCHEVAYA TIKHAYA", aliases: &[] },
        Codepoint { codepoint: 0x1CF79, name: "ZNAMENNY NEUME SKAMEYTSA DVOECHELNAYA PROSTAYA", aliases: &[] },
        Codepoint { codepoint: 0x1CF7A, name: "ZNAMENNY NEUME SKAMEYTSA DVOECHELNAYA SVETLAYA", aliases: &[] },
        Codepoint { codepoint: 0x1CF7B, name: "ZNAMENNY NEUME SKAMEYTSA DVOECHELNAYA NEPOSTOYANNAYA", aliases: &[] },
        Codepoint { codepoint: 0x1CF7C, name: "ZNAMENNY NEUME SKAMEYTSA DVOECHELNAYA KLYUCHEVAYA", aliases: &[] },
        Codepoint { codepoint: 0x1CF7D, name: "ZNAMENNY NEUME SLOZHITIE", aliases: &[] },
        Codepoint { codepoint: 0x1CF7E, name: "ZNAMENNY NEUME SLOZHITIE S ZAPYATOY", aliases: &[] },
        Codepoint { codepoint: 0x1CF7F, name: "ZNAMENNY NEUME SLOZHITIE ZAKRYTOE", aliases: &[] },
        Codepoint { codepoint: 0x1CF80, name: "ZNAMENNY NEUME SLOZHITIE S KRYZHEM", aliases: &[] },
        Codepoint { codepoint: 0x1CF81, name: "ZNAMENNY NEUME KRYZH", aliases: &[] },
    ];
    assert(v@ =~= codepoint_table_698());
    v
}

pub open spec fn codepoint_table_699() -> Seq<Codepoint> {
    seq![
        Codepoint { codepoint: 0x1CF82, name: "ZNAMENNY NEUME ROG", aliases: &[] },
        Codepoint { codepoint: 0x1CF83, name: "ZNAMENNY NEUME FITA", aliases: &[] },
        Codepoint { codepoint: 0x1CF84, name: "ZNAMENNY NEUME KOBYLA", aliases: &[] },
        Codepoint { codepoint: 0x1CF85, name: "ZNAMENNY NEUME ZMEYTSA", aliases: &[] },
        Codepoint { codepoint: 0x1CF86, name: "ZNAMENNY NEUME STATYA", aliases: &[] },
        Codepoint { codepoint: 0x1CF87, name: "ZNAMENNY NEUME STATYA S ZAPYATOY", aliases: &[] },
        Codepoint { codepoint: 0x1CF88, name: "ZNAMENNY NEUME STATYA S KRYZHEM", aliases: &[] },
        Codepoint { codepoint: 0x1CF89, name: "ZNAMENNY NEUME STATYA S ZAPYATOY I KRYZHEM", aliases: &[] },
        Codepoint { codepoint: 0x1CF8A, name: "ZNAMENNY NEUME STATYA S KRYZHEM I ZAPYATOY", aliases: &[] },
        Codepoint { codepoint: 0x1CF8B, name: "ZNAMENNY NEUME STATYA ZAKRYTAYA", aliases: &[] },
        Codepoint { codepoint: 0x1CF8C, name: "ZNAMENNY NEUME STATYA ZAKRYTAYA S ZAPYATOY", aliases: &[] },
        Codepoint { codepoint: 0x1CF8D, name: "ZNAMENNY NEUME STATYA S ROGOM", aliases: &[] },
        Codepoint { codepoint: 0x1CF8E, name: "ZNAMENNY NEUME STATYA S DVUMYA ZAPYATYMI", aliases: &[] },
        Codepoint { codepoint: 0x1CF8F, name: "ZNAMENNY NEUME STATYA S ZAPYATOY I PODCHASHIEM", aliases: &[] },
        Codepoint { codepoint: 0x1CF90, name: "ZNAMENNY NEUME POLKULIZMY", aliases: &[] },
        Codepoint { codepoint: 0x1CF91, name: "ZNAMENNY NEUME STATYA NEPOSTOYANNAYA", aliases: &[] },
        Codepoint { codepoint: 0x1CF92, name: "ZNAMENNY NEUME STRELA PROSTAYA", aliases: &[] },
        Codepoint { codepoint: 0x1CF93, name: "ZNAMENNY NEUME STRELA MRACHNOTIKHAYA", aliases: &[] },
        Codepoint { codepoint: 0x1CF94, name: "ZNAMENNY NEUME STRELA KRYZHEVAYA", aliases: &[] },
        Codepoint { codepoint: 0x1CF95, name: "ZNAMENNY NEUME STRELA POLUPOVODNAYA", aliases: &[] },
        Codepoint { codepoint: 0x1CF96, name: "ZNAMENNY NEUME STRELA POVODNAYA", aliases: &[] },
        Codepoint { codepoint: 0x1CF97, name: "ZNAMENNY NEUME STRELA NEPOSTOYANNAYA", aliases: &[] },
        Codepoint { codepoint: 0x1CF98, name: "ZNAMENNY NEUME STRELA KLYUCHEPOVODNAYA", aliases: &[] },
        Codepoint { codepoint: 0x1CF99, name: "ZNAMENNY NEUME STRELA KLYUCHENEPOSTOYANNAYA", aliases: &[] },
        Codepoint { codepoint: 0x1CF9A, name: "ZNAMENNY NEUME STRELA TIKHAYA PUTNAYA", aliases: &[] },
        Codepoint { codepoint: 0x1CF9B, name: "ZNAMENNY NEUME STRELA DVOECHELNAYA", aliases: &[] },
        Codepoint { codepoint: 0x1CF9C, name: "ZNAMENNY NEUME STRELA DVOECHELNOKRYZHEVAYA", aliases: &[] },
        Codepoint { codepoint: 0x1CF9D, name: "ZNAMENNY NEUME STRELA DVOECHELNOPOVODNAYA", aliases: &[] },
        Codepoint { codepoint: 0x1CF9E, name: "ZNAMENNY NEUME STRELA DVOECHELNAYA KLYUCHEVAYA", aliases: &[] },
        Codepoint { codepoint: 0x1CF9F, name: "ZNAMENNY NEUME STRELA DVOECHELNOPOVODNAYA KLYUCHEVAYA", aliases: &[] },
        Codepoint { codepoint: 0x1CFA0, name: "ZNAMENNY NEUME STRELA GROMNAYA WITH SINGLE ZAPYATAYA", aliases: &[] },
        Codepoint { codepoint: 0x1CFA1, name: "ZNAMENNY NEUME STRELA GROMOPOVODNAYA WITH SINGLE ZAPYATAYA", aliases: &[] },
        Codepoint { codepoint: 0x1CFA2, name: "ZNAMENNY NEUME STRELA GROMNAYA", aliases: &[] },
        Codepoint { codepoint: 0x1CFA3, name: "ZNAMENNY NEUME STRELA GROMOPOVODNAYA", aliases: &[] },
        Codepoint { codepoint: 0x1CFA4, name: "ZNAMENNY NEUME STRELA GROMOPOVODNAYA WITH DOUBLE ZAPYATAYA", aliases: &[] },
        Codepoint { codepoint: 0x1CFA5, name: "ZNAMENNY NEUME STRELA GROMOKRYZHEVAYA", aliases: &[] },
        Codepoint { codepoint: 0x1CFA6, name: "ZNAMENNY NEUME STRELA GROMOKRYZHEVAYA POVODNAYA", aliases: &[] },
        Codepoint { codepoint: 0x1CFA7, name: "ZNAMENNY NEUME MECHIK", aliases: &[] },
        Codepoint { codepoint: 0x1CFA8, name: "ZNAMENNY NEUME MECHIK POVODNY", aliases: &[] },
        Codepoint { codepoint: 0x1CFA9, name: "ZNAMENNY NEUME MECHIK KLYUCHEVOY", aliases: &[] },
    ]
}

fn all_codepoints_699() -> (v: Vec<Codepoint>)
    ensures
        v@ == codepoint_table_699(),
{
    let v = vec![
        Codepoint { codepoint: 0x1CF82, name: "ZNAMENNY NEUME ROG", aliases: &[] },
        Codepoint { codepoint: 0x1CF83, name: "ZNAMENNY NEUME FITA", aliases: &[] },
        Codepoint { codepoint: 0x1CF84, name: "ZNAMENNY NEUME KOBYLA", aliases: &[] },
        Codepoint { codepoint: 0x1CF85, name: "ZNAMENNY NEUME ZMEYTSA", aliases: &[] },
        Codepoint { codepoint: 0x1CF86, name: "ZNAMENNY NEUME STATYA", aliases: &[] },
        Codepoint { codepoint: 0x1CF87, name: "ZNAMENNY NEUME STATYA S ZAPYATOY", aliases: &[] },
        Codepoint { codepoint: 0x1CF88, name: "ZNAMENNY NEUME STATYA S KRYZHEM", aliases: &[] },
        Codepoint { codepoint: 0x1CF89, name: "ZNAMENNY NEUME STATYA S ZAPYATOY I KRYZHEM", aliases: &[] },
        Codepoint { codepoint: 0x1CF8A, name: "ZNAMENNY NEUME STATYA S KRYZHEM I ZAPYATOY", aliases: &[] },
        Codepoint { codepoint: 0x1CF8B, name: "ZNAMENNY NEUME STATYA ZAKRYTAYA", aliases: &[] },
        Codepoint { codepoint: 0x1CF8C, name: "ZNAMENNY NEUME STATYA ZAKRYTAYA S ZAPYATOY", aliases: &[] },
        Codepoint { codepoint: 0x1CF8D, name: "ZNAMENNY NEUME STATYA S ROGOM", aliases: &[] },
        Codepoint { codepoint: 0x1CF8E, name: "ZNAMENNY NEUME STATYA S DVUMYA ZAPYATYMI", aliases: &[] },
        Codepoint { codepoint: 0x1CF8F, name: "ZNAMENNY NEUME STATYA S ZAPYATOY I PODCHASHIEM", aliases: &[] },
        Codepoint { codepoint: 0x1CF90, name: "ZNAMENNY NEUME POLKULIZMY", aliases: &[] },
        Codepoint { codepoint: 0x1CF91, name: "ZNAMENNY NEUME STATYA NEPOSTOYANNAYA", aliases: &[] },
        Codepoint { codepoint: 0x1CF92, name: "ZNAMENNY NEUME STRELA PROSTAYA", aliases: &[] },
        Codepoint { codepoint: 0x1CF93, name: "ZNAMENNY NEUME STRELA MRACHNOTIKHAYA", aliases: &[] },
        Codepoint { codepoint: 0x1CF94, name: "ZNAMENNY NEUME STRELA KRYZHEVAYA", aliases: &[] },
        Codepoint { codepoint: 0x1CF95, name: "ZNAMENNY NEUME STRELA POLUPOVODNAYA", aliases: &[] },
        Codepoint { codepoint: 0x1CF96, name: "ZNAMENNY NEUME STRELA POVODNAYA", aliases: &[] },
        Codepoint { codepoint: 0x1CF97, name: "ZNAMENNY NEUME STRELA NEPOSTOYANNAYA", aliases: &[] },
        Codepoint { codepoint: 0x1CF98, name: "ZNAMENNY NEUME STRELA KLYUCHEPOVODNAYA", aliases: &[] },
        Codepoint { codepoint: 0x1CF99, name: "ZNAMENNY NEUME STRELA KLYUCHENEPOSTOYANNAYA", aliases: &[] },
        Codepoint { codepoint: 0x1CF9A, name: "ZNAMENNY NEUME STRELA TIKHAYA PUTNAYA", aliases: &[] },
        Codepoint { codepoint: 0x1CF9B, name: "ZNAMENNY NEUME STRELA DVOECHELNAYA", aliases: &[] },
        Codepoint { codepoint: 0x1CF9C, name: "ZNAMENNY NEUME STRELA DVOECHELNOKRYZHEVAYA", aliases: &[] },
        Codepoint { codepoint: 0x1CF9D, name: "ZNAMENNY NEUME STRELA DVOECHELNOPOVODNAYA", aliases: &[] },
        Codepoint { codepoint: 0x1CF9E, name: "ZNAMENNY NEUME STRELA DVOECHELNAYA KLYUCHEVAYA", aliases: &[] },
        Codepoint { codepoint: 0x1CF9F, name: "ZNAMENNY NEUME STRELA DVOECHELNOPOVODNAYA KLYUCHEVAYA", aliases: &[] },
        Codepoint { codepoint: 0x1CFA0, name: "ZNAMENNY NEUME STRELA GROMNAYA WITH SINGLE ZAPYATAYA", aliases: &[] },
        Codepoint { codepoint: 0x1CFA1, name: "ZNAMENNY NEUME STRELA GROMOPOVODNAYA WITH SINGLE ZAPYATAYA", aliases: &[] },
        Codepoint { codepoint: 0x1CFA2, name: "ZNAMENNY NEUME STRELA GROMNAYA", aliases: &[] },
        Codepoint { codepoint: 0x1CFA3, name: "ZNAMENNY NEUME STRELA GROMOPOVODNAYA", aliases: &[] },
        Codepoint { codepoint: 0x1CFA4, name: "ZNAMENNY NEUME STRELA GROMOPOVODNAYA WITH DOUBLE ZAPYATAYA", aliases: &[] },
        Codepoint { codepoint: 0x1CFA5, name: "ZNAMENNY NEUME STRELA GROMOKRYZHEVAYA", aliases: &[] },
        Codepoint { codepoint: 0x1CFA6, name: "ZNAMENNY NEUME STRELA GROMOKRYZHEVAYA POVODNAYA", aliases: &[] },
        Codepoint { codepoint: 0x1CFA7, name: "ZNAMENNY NEUME MECHIK", aliases: &[] },
        Codepoint { codepoint: 0x1CFA8, name: "ZNAMENNY NEUME MECHIK POVODNY", aliases: &[] },
        Codepoint { codepoint: 0x1CFA9, name: "ZNAMENNY NEUME MECHIK KLYUCHEVOY", aliases: &[] },
    ];
    assert(v@ =~= codepoint_table_699());
    v
}

/// The entries from position 27200 of the table, 800 at most.
pub open spec fn codepoint_group_34() -> Seq<Codepoint> {
    codepoint_table_680() + codepoint_table_681() + codepoint_table_682() + codepoint_table_683() + codepoint_table_684() + codepoint_table_685() + codepoint_table_686() + codepoint_table_687() + codepoint_table_688() + codepoint_table_689() + codepoint_table_690() + codepoint_table_691() + codepoint_table_692() + codepoint_table_693() + codepoint_table_694() + codepoint_table_695() + codepoint_table_696() + codepoint_table_697() + codepoint_table_698() + codepoint_table_699()
}

pub fn all_codepoints_group_34() -> (v: Vec<Codepoint>)
    ensures
        v@ == codepoint_group_34(),
{
    let mut v = all_codepoints_680();
    let mut part = all_codepoints_681();
    v.append(&mut part);
    let mut part = all_codepoints_682();
    v.append(&mut part);
    let mut part = all_codepoints_683();
    v.append(&mut part);
    let mut part = all_codepoints_684();
    v.append(&mut part);
    let mut part = all_codepoints_685();
    v.append(&mut part);
    let mut part = all_codepoints_686();
    v.append(&mut part);
    let mut part = all_codepoints_687();
    v.append(&mut part);
    let mut part = all_codepoints_688();
    v.append(&mut part);
    let mut part = all_codepoints_689();
    v.append(&mut part);
    let mut part = all_codepoints_690();
    v.append(&mut part);
    let mut part = all_codepoints_691();
    v.append(&mut part);
    let mut part = all_codepoints_692();
    v.append(&mut part);
    let mut part = all_codepoints_693();
    v.append(&mut part);
    let mut part = all_codepoints_694();
    v.append(&mut part);
    let mut part = all_codepoints_695();
    v.append(&mut part);
    let mut part = all_codepoints_696();
    v.append(&mut part);
    let mut part = all_codepoints_697();
    v.append(&mut part);
    let mut part = all_codepoints_698();
    v.append(&mut part);
    let mut part = all_codepoints_699();
    v.append(&mut part);
    v
}

pub open spec fn codepoint_table_700() -> Seq<Codepoint> {
    seq![
        Codepoint { codepoint: 0x1CFAA, name: "ZNAMENNY NEUME MECHIK KLYUCHEPOVODNY", aliases: &[] },
        Codepoint { codepoint: 0x1CFAB, name: "ZNAMENNY NEUME MECHIK KLYUCHENEPOSTOYANNY", aliases: &[] },
        Codepoint { codepoint: 0x1CFAC, name: "ZNAMENNY NEUME STRELA TRYASOGLASNAYA", aliases: &[] },
        Codepoint { codepoint: 0x1CFAD, name: "ZNAMENNY NEUME STRELA TRYASOPOVODNAYA", aliases: &[] },
        Codepoint { codepoint: 0x1CFAE, name: "ZNAMENNY NEUME STRELA TRYASOSTRELNAYA", aliases: &[] },
        Codepoint { codepoint: 0x1CFAF, name: "ZNAMENNY NEUME OSOKA", aliases: &[] },
        Codepoint { codepoint: 0x1CFB0, name: "ZNAMENNY NEUME OSOKA SVETLAYA", aliases: &[] },
        Codepoint { codepoint: 0x1CFB1, name: "ZNAMENNY NEUME OSOKA TRESVETLAYA", aliases: &[] },
        Codepoint { codepoint: 0x1CFB2, name: "ZNAMENNY NEUME OSOKA KRYUKOVAYA SVETLAYA", aliases: &[] },
        Codepoint { codepoint: 0x1CFB3, name: "ZNAMENNY NEUME OSOKA KLYUCHEVAYA SVETLAYA", aliases: &[] },
        Codepoint { codepoint: 0x1CFB4, name: "ZNAMENNY NEUME OSOKA KLYUCHEVAYA NEPOSTOYANNAYA", aliases: &[] },
        Codepoint { codepoint: 0x1CFB5, name: "ZNAMENNY NEUME STRELA KRYUKOVAYA", aliases: &[] },
        Codepoint { codepoint: 0x1CFB6, name: "ZNAMENNY NEUME STRELA KRYUKOVAYA POVODNAYA", aliases: &[] },
        Codepoint { codepoint: 0x1CFB7, name: "ZNAMENNY NEUME STRELA KRYUKOVAYA GROMNAYA WITH SINGLE ZAPYATAYA", aliases: &[] },
        Codepoint { codepoint: 0x1CFB8, name: "ZNAMENNY NEUME STRELA KRYUKOVAYA GROMOPOVODNAYA WITH SINGLE ZAPYATAYA", aliases: &[] },
        Codepoint { codepoint: 0x1CFB9, name: "ZNAMENNY NEUME STRELA KRYUKOVAYA GROMNAYA", aliases: &[] },
        Codepoint { codepoint: 0x1CFBA, name: "ZNAMENNY NEUME STRELA KRYUKOVAYA GROMOPOVODNAYA", aliases: &[] },
        Codepoint { codepoint: 0x1CFBB, name: "ZNAMENNY NEUME STRELA KRYUKOVAYA GROMOPOVODNAYA WITH DOUBLE ZAPYATAYA", aliases: &[] },
        Codepoint { codepoint: 0x1CFBC, name: "ZNAMENNY NEUME STRELA KRYUKOVAYA GROMOKRYZHEVAYA", aliases: &[] },
        Codepoint { codepoint: 0x1CFBD, name: "ZNAMENNY NEUME STRELA KRYUKOVAYA GROMOKRYZHEVAYA POVODNAYA", aliases: &[] },
        Codepoint { codepoint: 0x1CFBE, name: "ZNAMENNY NEUME STRELA KRYUKOVAYA TRYASKA", aliases: &[] },
        Codepoint { codepoint: 0x1CFBF, name: "ZNAMENNY NEUME KUFISMA", aliases: &[] },
        Codepoint { codepoint: 0x1CFC0, name: "ZNAMENNY NEUME OBLAKO", aliases: &[] },
        Codepoint { codepoint: 0x1CFC1, name: "ZNAMENNY NEUME DUDA", aliases: &[] },
        Codepoint { codepoint: 0x1CFC2, name: "ZNAMENNY NEUME NEMKA", aliases: &[] },
        Codepoint { codepoint: 0x1CFC3, name: "ZNAMENNY NEUME PAUK", aliases: &[] },
        Codepoint { codepoint: 0x1D000, name: "BYZANTINE MUSICAL SYMBOL PSILI", aliases: &[] },
        Codepoint { codepoint: 0x1D001, name: "BYZANTINE MUSICAL SYMBOL DASEIA", aliases: &[] },
        Codepoint { codepoint: 0x1D002, name: "BYZANTINE MUSICAL SYMBOL PERISPOMENI", aliases: &[] },
        Codepoint { codepoint: 0x1D003, name: "BYZANTINE MUSICAL SYMBOL OXEIA EKFONITIKON", aliases: &[] },
        Codepoint { codepoint: 0x1D004, name: "BYZANTINE MUSICAL SYMBOL OXEIA DIPLI", aliases: &[] },
        Codepoint { codepoint: 0x1D005, name: "BYZANTINE MUSICAL SYMBOL VAREIA EKFONITIKON", aliases: &[] },
        Codepoint { codepoint: 0x1D006, name: "BYZANTINE MUSICAL SYMBOL VAREIA DIPLI", aliases: &[] },
        Codepoint { codepoint: 0x1D007, name: "BYZANTINE MUSICAL SYMBOL KATHISTI", aliases: &[] },
        Codepoint { codepoint: 0x1D008, name: "BYZANTINE MUSICAL SYMBOL SYRMATIKI", aliases: &[] },
        Codepoint { codepoint: 0x1D009, name: "BYZANTINE MUSICAL SYMBOL PARAKLITIKI", aliases: &[] },
        Codepoint { codepoint: 0x1D00A, name: "BYZANTINE MUSICAL SYMBOL YPOKRISIS", aliases: &[] },
        Codepoint { codepoint: 0x1D00B, name: "BYZANTINE MUSICAL SYMBOL YPOKRISIS DIPLI", aliases: &[] },
        Codepoint { codepoint: 0x1D00C, name: "BYZANTINE MUSICAL SYMBOL KREMASTI", aliases: &[] },
        Codepoint { codepoint: 0x1D00D, name: "BYZANTINE MUSICAL SYMBOL APESO EKFONITIKON", aliases: &[] },
    ]
}

fn all_codepoints_700() -> (v: Vec<Codepoint>)
    ensures
        v@ == codepoint_table_700(),
{
    let v = vec![
        Codepoint { codepoint: 0x1CFAA, name: "ZNAMENNY NEUME MECHIK KLYUCHEPOVODNY", aliases: &[] },
        Codepoint { codepoint: 0x1CFAB, name: "ZNAMENNY NEUME MECHIK KLYUCHENEPOSTOYANNY", aliases: &[] },
        Codepoint { codepoint: 0x1CFAC, name: "ZNAMENNY NEUME STRELA TRYASOGLASNAYA", aliases: &[] },
        Codepoint { codepoint: 0x1CFAD, name: "ZNAMENNY NEUME STRELA TRYASOPOVODNAYA", aliases: &[] },
        Codepoint { codepoint: 0x1CFAE, name: "ZNAMENNY NEUME STRELA TRYASOSTRELNAYA", aliases: &[] },
        Codepoint { codepoint: 0x1CFAF, name: "ZNAMENNY NEUME OSOKA", aliases: &[] },
        Codepoint { codepoint: 0x1CFB0, name: "ZNAMENNY NEUME OSOKA SVETLAYA", aliases: &[] },
        Codepoint { codepoint: 0x1CFB1, name: "ZNAMENNY NEUME OSOKA TRESVETLAYA", aliases: &[] },
        Codepoint { codepoint: 0x1CFB2, name: "ZNAMENNY NEUME OSOKA KRYUKOVAYA SVETLAYA", aliases: &[] },
        Codepoint { codepoint: 0x1CFB3, name: "ZNAMENNY NEUME OSOKA KLYUCHEVAYA SVETLAYA", aliases: &[] },
        Codepoint { codepoint: 0x1CFB4, name: "ZNAMENNY NEUME OSOKA KLYUCHEVAYA NEPOSTOYANNAYA", aliases: &[] },
        Codepoint { codepoint: 0x1CFB5, name: "ZNAMENNY NEUME STRELA KRYUKOVAYA", aliases: &[] },
        Codepoint { codepoint: 0x1CFB6, name: "ZNAMENNY NEUME STRELA KRYUKOVAYA POVODNAYA", aliases: &[] },
        Codepoint { codepoint: 0x1CFB7, name: "ZNAMENNY NEUME STRELA KRYUKOVAYA GROMNAYA WITH SINGLE ZAPYATAYA", aliases: &[] },
        Codepoint { codepoint: 0x1CFB8, name: "ZNAMENNY NEUME STRELA KRYUKOVAYA GROMOPOVODNAYA WITH SINGLE ZAPYATAYA", aliases: &[] },
        Codepoint { codepoint: 0x1CFB9, name: "ZNAMENNY NEUME STRELA KRYUKOVAYA GROMNAYA", aliases: &[] },
        Codepoint { codepoint: 0x1CFBA, name: "ZNAMENNY NEUME STRELA KRYUKOVAYA GROMOPOVODNAYA", aliases: &[] },
        Codepoint { codepoint: 0x1CFBB, name: "ZNAMENNY NEUME STRELA KRYUKOVAYA GROMOPOVODNAYA WITH DOUBLE ZAPYATAYA", aliases: &[] },
        Codepoint { codepoint: 0x1CFBC, name: "ZNAMENNY NEUME STRELA KRYUKOVAYA GROMOKRYZHEVAYA", aliases: &[] },
        Codepoint { codepoint: 0x1CFBD, name: "ZNAMENNY NEUME STRELA KRYUKOVAYA GROMOKRYZHEVAYA POVODNAYA", aliases: &[] },
        Codepoint { codepoint: 0x1CFBE, name: "ZNAMENNY NEUME STRELA KRYUKOVAYA TRYASKA", aliases: &[] },
        Codepoint { codepoint: 0x1CFBF, name: "ZNAMENNY NEUME KUFISMA", aliases: &[] },
        Codepoint { codepoint: 0x1CFC0, name: "ZNAMENNY NEUME OBLAKO", aliases: &[] },
        Codepoint { codepoint: 0x1CFC1, name: "ZNAMENNY NEUME DUDA", aliases: &[] },
        Codepoint { codepoint: 0x1CFC2, name: "ZNAMENNY NEUME NEMKA", aliases: &[] },
        Codepoint { codepoint: 0x1CFC3, name: "ZNAMENNY NEUME PAUK", aliases: &[] },
        Codepoint { codepoint: 0x1D000, name: "BYZANTINE MUSICAL SYMBOL PSILI", aliases: &[] },
        Codepoint { codepoint: 0x1D001, name: "BYZANTINE MUSICAL SYMBOL DASEIA", aliases: &[] },
        Codepoint { codepoint: 0x1D002, name: "BYZANTINE MUSICAL SYMBOL PERISPOMENI", aliases: &[] },
        Codepoint { codepoint: 0x1D003, name: "BYZANTINE MUSICAL SYMBOL OXEIA EKFONITIKON", aliases: &[] },
        Codepoint { codepoint: 0x1D004, name: "BYZANTINE MUSICAL SYMBOL OXEIA DIPLI", aliases: &[] },
        Codepoint { codepoint: 0x1D005, name: "BYZANTINE MUSICAL SYMBOL VAREIA EKFONITIKON", aliases: &[] },
        Codepoint { codepoint: 0x1D006, name: "BYZANTINE MUSICAL SYMBOL VAREIA DIPLI", aliases: &[] },
        Codepoint { codepoint: 0x1D007, name: "BYZANTINE MUSICAL SYMBOL KATHISTI", aliases: &[] },
        Codepoint { codepoint: 0x1D008, name: "BYZANTINE MUSICAL SYMBOL SYRMATIKI", aliases: &[] },
        Codepoint { codepoint: 0x1D009, name: "BYZANTINE MUSICAL SYMBOL PARAKLITIKI", aliases: &[] },
        Codepoint { codepoint: 0x1D00A, name: "BYZANTINE MUSICAL SYMBOL YPOKRISIS", aliases: &[] },
        Codepoint { codepoint: 0x1D00B, name: "BYZANTINE MUSICAL SYMBOL YPOKRISIS DIPLI", aliases: &[] },
        Codepoint { codepoint: 0x1D00C, name: "BYZANTINE MUSICAL SYMBOL KREMASTI", aliases: &[] },
        Codepoint { codepoint: 0x1D00D, name: "BYZANTINE MUSICAL SYMBOL APESO EKFONITIKON", aliases: &[] },
    ];
    assert(v@ =~= codepoint_table_700());
    v
}

pub open spec fn codepoint_table_701() -> Seq<Codepoint> {
    seq![
        Codepoint { codepoint: 0x1D00E, name: "BYZANTINE MUSICAL SYMBOL EXO EKFONITIKON", aliases: &[] },
        Codepoint { codepoint: 0x1D00F, name: "BYZANTINE MUSICAL SYMBOL TELEIA", aliases: &[] },
        Codepoint { codepoint: 0x1D010, name: "BYZANTINE MUSICAL SYMBOL KENTIMATA", aliases: &[] },
        Codepoint { codepoint: 0x1D011, name: "BYZANTINE MUSICAL SYMBOL APOSTROFOS", aliases: &[] },
        Codepoint { codepoint: 0x1D012, name: "BYZANTINE MUSICAL SYMBOL APOSTROFOS DIPLI", aliases: &[] },
        Codepoint { codepoint: 0x1D013, name: "BYZANTINE MUSICAL SYMBOL SYNEVMA", aliases: &[] },
        Codepoint { codepoint: 0x1D014, name: "BYZANTINE MUSICAL SYMBOL THITA", aliases: &[] },
        Codepoint { codepoint: 0x1D015, name: "BYZANTINE MUSICAL SYMBOL OLIGON ARCHAION", aliases: &[] },
        Codepoint { codepoint: 0x1D016, name: "BYZANTINE MUSICAL SYMBOL GORGON ARCHAION", aliases: &[] },
        Codepoint { codepoint: 0x1D017, name: "BYZANTINE MUSICAL SYMBOL PSILON", aliases: &[] },
        Codepoint { codepoint: 0x1D018, name: "BYZANTINE MUSICAL SYMBOL CHAMILON", aliases: &[] },
        Codepoint { codepoint: 0x1D019, name: "BYZANTINE MUSICAL SYMBOL VATHY", aliases: &[] },
        Codepoint { codepoint: 0x1D01A, name: "BYZANTINE MUSICAL SYMBOL ISON ARCHAION", aliases: &[] },
        Codepoint { codepoint: 0x1D01B, name: "BYZANTINE MUSICAL SYMBOL KENTIMA ARCHAION", aliases: &[] },
        Codepoint { codepoint: 0x1D01C, name: "BYZANTINE MUSICAL SYMBOL KENTIMATA ARCHAION", aliases: &[] },
        Codepoint { codepoint: 0x1D01D, name: "BYZANTINE MUSICAL SYMBOL SAXIMATA", aliases: &[] },
        Codepoint { codepoint: 0x1D01E, name: "BYZANTINE MUSICAL SYMBOL PARICHON", aliases: &[] },
        Codepoint { codepoint: 0x1D01F, name: "BYZANTINE MUSICAL SYMBOL STAVROS APODEXIA", aliases: &[] },
        Codepoint { codepoint: 0x1D020, name: "BYZANTINE MUSICAL SYMBOL OXEIAI ARCHAION", aliases: &[] },
        Codepoint { codepoint: 0x1D021, name: "BYZANTINE MUSICAL SYMBOL VAREIAI ARCHAION", aliases: &[] },
        Codepoint { codepoint: 0x1D022, name: "BYZANTINE MUSICAL SYMBOL APODERMA ARCHAION", aliases: &[] },
        Codepoint { codepoint: 0x1D023, name: "BYZANTINE MUSICAL SYMBOL APOTHEMA", aliases: &[] },
        Codepoint { codepoint: 0x1D024, name: "BYZANTINE MUSICAL SYMBOL KLASMA", aliases: &[] },
        Codepoint { codepoint: 0x1D025, name: "BYZANTINE MUSICAL SYMBOL REVMA", aliases: &[] },
        Codepoint { codepoint: 0x1D026, name: "BYZANTINE MUSICAL SYMBOL PIASMA ARCHAION", aliases: &[] },
        Codepoint { codepoint: 0x1D027, name: "BYZANTINE MUSICAL SYMBOL TINAGMA", aliases: &[] },
        Codepoint { codepoint: 0x1D028, name: "BYZANTINE MUSICAL SYMBOL ANATRICHISMA", aliases: &[] },
        Codepoint { codepoint: 0x1D029, name: "BYZANTINE MUSICAL SYMBOL SEISMA", aliases: &[] },
        Codepoint { codepoint: 0x1D02A, name: "BYZANTINE MUSICAL SYMBOL SYNAGMA ARCHAION", aliases: &[] },
        Codepoint { codepoint: 0x1D02B, name: "BYZANTINE MUSICAL SYMBOL SYNAGMA META STAVROU", aliases: &[] },
        Codepoint { codepoint: 0x1D02C, name: "BYZANTINE MUSICAL SYMBOL OYRANISMA ARCHAION", aliases: &[] },
        Codepoint { codepoint: 0x1D02D, name: "BYZANTINE MUSICAL SYMBOL THEMA", aliases: &[] },
        Codepoint { codepoint: 0x1D02E, name: "BYZANTINE MUSICAL SYMBOL LEMOI", aliases: &[] },
        Codepoint { codepoint: 0x1D02F, name: "BYZANTINE MUSICAL SYMBOL DYO", aliases: &[] },
        Codepoint { codepoint: 0x1D030, name: "BYZANTINE MUSICAL SYMBOL TRIA", aliases: &[] },
        Codepoint { codepoint: 0x1D031, name: "BYZANTINE MUSICAL SYMBOL TESSERA", aliases: &[] },
        Codepoint { codepoint: 0x1D032, name: "BYZANTINE MUSICAL SYMBOL KRATIMATA", aliases: &[] },
        Codepoint { codepoint: 0x1D033, name: "BYZANTINE MUSICAL SYMBOL APESO EXO NEO", aliases: &[] },
        Codepoint { codepoint: 0x1D034, name: "BYZANTINE MUSICAL SYMBOL FTHORA ARCHAION", aliases: &[] },
        Codepoint { codepoint: 0x1D035, name: "BYZANTINE MUSICAL SYMBOL IMIFTHORA", aliases: &[] },
    ]
}

fn all_codepoints_701() -> (v: Vec<Codepoint>)
    ensures
        v@ == codepoint_table_701(),
{
    let v = vec![
        Codepoint { codepoint: 0x1D00E, name: "BYZANTINE MUSICAL SYMBOL EXO EKFONITIKON", aliases: &[] },
        Codepoint { codepoint: 0x1D00F, name: "BYZANTINE MUSICAL SYMBOL TELEIA", aliases: &[] },
        Codepoint { codepoint: 0x1D010, name: "BYZANTINE MUSICAL SYMBOL KENTIMATA", aliases: &[] },
        Codepoint { codepoint: 0x1D011, name: "BYZANTINE MUSICAL SYMBOL APOSTROFOS", aliases: &[] },
        Codepoint { codepoint: 0x1D012, name: "BYZANTINE MUSICAL SYMBOL APOSTROFOS DIPLI", aliases: &[] },
        Codepoint { codepoint: 0x1D013, name: "BYZANTINE MUSICAL SYMBOL SYNEVMA", aliases: &[] },
        Codepoint { codepoint: 0x1D014, name: "BYZANTINE MUSICAL SYMBOL THITA", aliases: &[] },
        Codepoint { codepoint: 0x1D015, name: "BYZANTINE MUSICAL SYMBOL OLIGON ARCHAION", aliases: &[] },
        Codepoint { codepoint: 0x1D016, name: "BYZANTINE MUSICAL SYMBOL GORGON ARCHAION", aliases: &[] },
        Codepoint { codepoint: 0x1D017, name: "BYZANTINE MUSICAL SYMBOL PSILON", aliases: &[] },
        Codepoint { codepoint: 0x1D018, name: "BYZANTINE MUSICAL SYMBOL CHAMILON", aliases: &[] },
        Codepoint { codepoint: 0x1D019, name: "BYZANTINE MUSICAL SYMBOL VATHY", aliases: &[] },
        Codepoint { codepoint: 0x1D01A, name: "BYZANTINE MUSICAL SYMBOL ISON ARCHAION", aliases: &[] },
        Codepoint { codepoint: 0x1D01B, name: "BYZANTINE MUSICAL SYMBOL KENTIMA ARCHAION", aliases: &[] },
        Codepoint { codepoint: 0x1D01C, name: "BYZANTINE MUSICAL SYMBOL KENTIMATA ARCHAION", aliases: &[] },
        Codepoint { codepoint: 0x1D01D, name: "BYZANTINE MUSICAL SYMBOL SAXIMATA", aliases: &[] },
        Codepoint { codepoint: 0x1D01E, name: "BYZANTINE MUSICAL SYMBOL PARICHON", aliases: &[] },
        Codepoint { codepoint: 0x1D01F, name: "BYZANTINE MUSICAL SYMBOL STAVROS APODEXIA", aliases: &[] },
        Codepoint { codepoint: 0x1D020, name: "BYZANTINE MUSICAL SYMBOL OXEIAI ARCHAION", aliases: &[] },
        Codepoint { codepoint: 0x1D021, name: "BYZANTINE MUSICAL SYMBOL VAREIAI ARCHAION", aliases: &[] },
        Codepoint { codepoint: 0x1D022, name: "BYZANTINE MUSICAL SYMBOL APODERMA ARCHAION", aliases: &[] },
        Codepoint { codepoint: 0x1D023, name: "BYZANTINE MUSICAL SYMBOL APOTHEMA", aliases: &[] },
        Codepoint { codepoint: 0x1D024, name: "BYZANTINE MUSICAL SYMBOL KLASMA", aliases: &[] },
        Codepoint { codepoint: 0x1D025, name: "BYZANTINE MUSICAL SYMBOL REVMA", aliases: &[] },
        Codepoint { codepoint: 0x1D026, name: "BYZANTINE MUSICAL SYMBOL PIASMA ARCHAION", aliases: &[] },
        Codepoint { codepoint: 0x1D027, name: "BYZANTINE MUSICAL SYMBOL TINAGMA", aliases: &[] },
        Codepoint { codepoint: 0x1D028, name: "BYZANTINE MUSICAL SYMBOL ANATRICHISMA", aliases: &[] },
        Codepoint { codepoint: 0x1D029, name: "BYZANTINE MUSICAL SYMBOL SEISMA", aliases: &[] },
        Codepoint { codepoint: 0x1D02A, name: "BYZANTINE MUSICAL SYMBOL SYNAGMA ARCHAION", aliases: &[] },
        Codepoint { codepoint: 0x1D02B, name: "BYZANTINE MUSICAL SYMBOL SYNAGMA META STAVROU", aliases: &[] },
        Codepoint { codepoint: 0x1D02C, name: "BYZANTINE MUSICAL SYMBOL OYRANISMA ARCHAION", aliases: &[] },
        Codepoint { codepoint: 0x1D02D, name: "BYZANTINE MUSICAL SYMBOL THEMA", aliases: &[] },
        Codepoint { codepoint: 0x1D02E, name: "BYZANTINE MUSICAL SYMBOL LEMOI", aliases: &[] },
        Codepoint { codepoint: 0x1D02F, name: "BYZANTINE MUSICAL SYMBOL DYO", aliases: &[] },
        Codepoint { codepoint: 0x1D030, name: "BYZANTINE MUSICAL SYMBOL TRIA", aliases: &[] },
        Codepoint { codepoint: 0x1D031, name: "BYZANTINE MUSICAL SYMBOL TESSERA", aliases: &[] },
        Codepoint { codepoint: 0x1D032, name: "BYZANTINE MUSICAL SYMBOL KRATIMATA", aliases: &[] },
        Codepoint { codepoint: 0x1D033, name: "BYZANTINE MUSICAL SYMBOL APESO EXO NEO", aliases: &[] },
        Codepoint { codepoint: 0x1D034, name: "BYZANTINE MUSICAL SYMBOL FTHORA ARCHAION", aliases: &[] },
        Codepoint { codepoint: 0x1D035, name: "BYZANTINE MUSICAL SYMBOL IMIFTHORA", aliases: &[] },
    ];
    assert(v@ =~= codepoint_table_701());
    v
}

pub open spec fn codepoint_table_702() -> Seq<Codepoint> {
    seq![
        Codepoint { codepoint: 0x1D036, name: "BYZANTINE MUSICAL SYMBOL TROMIKON ARCHAION", aliases: &[] },
        Codepoint { codepoint: 0x1D037, name: "BYZANTINE MUSICAL SYMBOL KATAVA TROMIKON", aliases: &[] },
        Codepoint { codepoint: 0x1D038, name: "BYZANTINE MUSICAL SYMBOL PELASTON", aliases: &[] },
        Codepoint { codepoint: 0x1D039, name: "BYZANTINE MUSICAL SYMBOL PSIFISTON", aliases: &[] },
        Codepoint { codepoint: 0x1D03A, name: "BYZANTINE MUSICAL SYMBOL KONTEVMA", aliases: &[] },
        Codepoint { codepoint: 0x1D03B, name: "BYZANTINE MUSICAL SYMBOL CHOREVMA ARCHAION", aliases: &[] },
        Codepoint { codepoint: 0x1D03C, name: "BYZANTINE MUSICAL SYMBOL RAPISMA", aliases: &[] },
        Codepoint { codepoint: 0x1D03D, name: "BYZANTINE MUSICAL SYMBOL PARAKALESMA ARCHAION", aliases: &[] },
        Codepoint { codepoint: 0x1D03E, name: "BYZANTINE MUSICAL SYMBOL PARAKLITIKI ARCHAION", aliases: &[] },
        Codepoint { codepoint: 0x1D03F, name: "BYZANTINE MUSICAL SYMBOL ICHADIN", aliases: &[] },
        Codepoint { codepoint: 0x1D040, name: "BYZANTINE MUSICAL SYMBOL NANA", aliases: &[] },
        Codepoint { codepoint: 0x1D041, name: "BYZANTINE MUSICAL SYMBOL PETASMA", aliases: &[] },
        Codepoint { codepoint: 0x1D042, name: "BYZANTINE MUSICAL SYMBOL KONTEVMA ALLO", aliases: &[] },
        Codepoint { codepoint: 0x1D043, name: "BYZANTINE MUSICAL SYMBOL TROMIKON ALLO", aliases: &[] },
        Codepoint { codepoint: 0x1D044, name: "BYZANTINE MUSICAL SYMBOL STRAGGISMATA", aliases: &[] },
        Codepoint { codepoint: 0x1D045, name: "BYZANTINE MUSICAL SYMBOL GRONTHISMATA", aliases: &[] },
        Codepoint { codepoint: 0x1D046, name: "BYZANTINE MUSICAL SYMBOL ISON NEO", aliases: &[] },
        Codepoint { codepoint: 0x1D047, name: "BYZANTINE MUSICAL SYMBOL OLIGON NEO", aliases: &[] },
        Codepoint { codepoint: 0x1D048, name: "BYZANTINE MUSICAL SYMBOL OXEIA NEO", aliases: &[] },
        Codepoint { codepoint: 0x1D049, name: "BYZANTINE MUSICAL SYMBOL PETASTI", aliases: &[] },
        Codepoint { codepoint: 0x1D04A, name: "BYZANTINE MUSICAL SYMBOL KOUFISMA", aliases: &[] },
        Codepoint { codepoint: 0x1D04B, name: "BYZANTINE MUSICAL SYMBOL PETASTOKOUFISMA", aliases: &[] },
        Codepoint { codepoint: 0x1D04C, name: "BYZANTINE MUSICAL SYMBOL KRATIMOKOUFISMA", aliases: &[] },
        Codepoint { codepoint: 0x1D04D, name: "BYZANTINE MUSICAL SYMBOL PELASTON NEO", aliases: &[] },
        Codepoint { codepoint: 0x1D04E, name: "BYZANTINE MUSICAL SYMBOL KENTIMATA NEO ANO", aliases: &[] },
        Codepoint { codepoint: 0x1D04F, name: "BYZANTINE MUSICAL SYMBOL KENTIMA NEO ANO", aliases: &[] },
        Codepoint { codepoint: 0x1D050, name: "BYZANTINE MUSICAL SYMBOL YPSILI", aliases: &[] },
        Codepoint { codepoint: 0x1D051, name: "BYZANTINE MUSICAL SYMBOL APOSTROFOS NEO", aliases: &[] },
        Codepoint { codepoint: 0x1D052, name: "BYZANTINE MUSICAL SYMBOL APOSTROFOI SYNDESMOS NEO", aliases: &[] },
        Codepoint { codepoint: 0x1D053, name: "BYZANTINE MUSICAL SYMBOL YPORROI", aliases: &[] },
        Codepoint { codepoint: 0x1D054, name: "BYZANTINE MUSICAL SYMBOL KRATIMOYPORROON", aliases: &[] },
        Codepoint { codepoint: 0x1D055, name: "BYZANTINE MUSICAL SYMBOL ELAFRON", aliases: &[] },
        Codepoint { codepoint: 0x1D056, name: "BYZANTINE MUSICAL SYMBOL CHAMILI", aliases: &[] },
        Codepoint { codepoint: 0x1D057, name: "BYZANTINE MUSICAL SYMBOL MIKRON ISON", aliases: &[] },
        Codepoint { codepoint: 0x1D058, name: "BYZANTINE MUSICAL SYMBOL VAREIA NEO", aliases: &[] },
        Codepoint { codepoint: 0x1D059, name: "BYZANTINE MUSICAL SYMBOL PIASMA NEO", aliases: &[] },
        Codepoint { codepoint: 0x1D05A, name: "BYZANTINE MUSICAL SYMBOL PSIFISTON NEO", aliases: &[] },
        Codepoint { codepoint: 0x1D05B, name: "BYZANTINE MUSICAL SYMBOL OMALON", aliases: &[] },
        Codepoint { codepoint: 0x1D05C, name: "BYZANTINE MUSICAL SYMBOL ANTIKENOMA", aliases: &[] },
        Codepoint { codepoint: 0x1D05D, name: "BYZANTINE MUSICAL SYMBOL LYGISMA", aliases: &[] },
    ]
}

fn all_codepoints_702() -> (v: Vec<Codepoint>)
    ensures
        v@ == codepoint_table_702(),
{
    let v = vec![
        Codepoint { codepoint: 0x1D036, name: "BYZANTINE MUSICAL SYMBOL TROMIKON ARCHAION", aliases: &[] },
        Codepoint { codepoint: 0x1D037, name: "BYZANTINE MUSICAL SYMBOL KATAVA TROMIKON", aliases: &[] },
        Codepoint { codepoint: 0x1D038, name: "BYZANTINE MUSICAL SYMBOL PELASTON", aliases: &[] },
        Codepoint { codepoint: 0x1D039, name: "BYZANTINE MUSICAL SYMBOL PSIFISTON", aliases: &[] },
        Codepoint { codepoint: 0x1D03A, name: "BYZANTINE MUSICAL SYMBOL KONTEVMA", aliases: &[] },
        Codepoint { codepoint: 0x1D03B, name: "BYZANTINE MUSICAL SYMBOL CHOREVMA ARCHAION", aliases: &[] },
        Codepoint { codepoint: 0x1D03C, name: "BYZANTINE MUSICAL SYMBOL RAPISMA", aliases: &[] },
        Codepoint { codepoint: 0x1D03D, name: "BYZANTINE MUSICAL SYMBOL PARAKALESMA ARCHAION", aliases: &[] },
        Codepoint { codepoint: 0x1D03E, name: "BYZANTINE MUSICAL SYMBOL PARAKLITIKI ARCHAION", aliases: &[] },
        Codepoint { codepoint: 0x1D03F, name: "BYZANTINE MUSICAL SYMBOL ICHADIN", aliases: &[] },
        Codepoint { codepoint: 0x1D040, name: "BYZANTINE MUSICAL SYMBOL NANA", aliases: &[] },
        Codepoint { codepoint: 0x1D041, name: "BYZANTINE MUSICAL SYMBOL PETASMA", aliases: &[] },
        Codepoint { codepoint: 0x1D042, name: "BYZANTINE MUSICAL SYMBOL KONTEVMA ALLO", aliases: &[] },
        Codepoint { codepoint: 0x1D043, name: "BYZANTINE MUSICAL SYMBOL TROMIKON ALLO", aliases: &[] },
        Codepoint { codepoint: 0x1D044, name: "BYZANTINE MUSICAL SYMBOL STRAGGISMATA", aliases: &[] },
        Codepoint { codepoint: 0x1D045, name: "BYZANTINE MUSICAL SYMBOL GRONTHISMATA", aliases: &[] },
        Codepoint { codepoint: 0x1D046, name: "BYZANTINE MUSICAL SYMBOL ISON NEO", aliases: &[] },
        Codepoint { codepoint: 0x1D047, name: "BYZANTINE MUSICAL SYMBOL OLIGON NEO", aliases: &[] },
        Codepoint { codepoint: 0x1D048, name: "BYZANTINE MUSICAL SYMBOL OXEIA NEO", aliases: &[] },
        Codepoint { codepoint: 0x1D049, name: "BYZANTINE MUSICAL SYMBOL PETASTI", aliases: &[] },
        Codepoint { codepoint: 0x1D04A, name: "BYZANTINE MUSICAL SYMBOL KOUFISMA", aliases: &[] },
        Codepoint { codepoint: 0x1D04B, name: "BYZANTINE MUSICAL SYMBOL PETASTOKOUFISMA", aliases: &[] },
        Codepoint { codepoint: 0x1D04C, name: "BYZANTINE MUSICAL SYMBOL KRATIMOKOUFISMA", aliases: &[] },
        Codepoint { codepoint: 0x1D04D, name: "BYZANTINE MUSICAL SYMBOL PELASTON NEO", aliases: &[] },
        Codepoint { codepoint: 0x1D04E, name: "BYZANTINE MUSICAL SYMBOL KENTIMATA NEO ANO", aliases: &[] },
        Codepoint { codepoint: 0x1D04F, name: "BYZANTINE MUSICAL SYMBOL KENTIMA NEO ANO", aliases: &[] },
        Codepoint { codepoint: 0x1D050, name: "BYZANTINE MUSICAL SYMBOL YPSILI", aliases: &[] },
        Codepoint { codepoint: 0x1D051, name: "BYZANTINE MUSICAL SYMBOL APOSTROFOS NEO", aliases: &[] },
        Codepoint { codepoint: 0x1D052, name: "BYZANTINE MUSICAL SYMBOL APOSTROFOI SYNDESMOS NEO", aliases: &[] },
        Codepoint { codepoint: 0x1D053, name: "BYZANTINE MUSICAL SYMBOL YPORROI", aliases: &[] },
        Codepoint { codepoint: 0x1D054, name: "BYZANTINE MUSICAL SYMBOL KRATIMOYPORROON", aliases: &[] },
        Codepoint { codepoint: 0x1D055, name: "BYZANTINE MUSICAL SYMBOL ELAFRON", aliases: &[] },
        Codepoint { codepoint: 0x1D056, name: "BYZANTINE MUSICAL SYMBOL CHAMILI", aliases: &[] },
        Codepoint { codepoint: 0x1D057, name: "BYZANTINE MUSICAL SYMBOL MIKRON ISON", aliases: &[] },
        Codepoint { codepoint: 0x1D058, name: "BYZANTINE MUSICAL SYMBOL VAREIA NEO", aliases: &[] },
        Codepoint { codepoint: 0x1D059, name: "BYZANTINE MUSICAL SYMBOL PIASMA NEO", aliases: &[] },
        Codepoint { codepoint: 0x1D05A, name: "BYZANTINE MUSICAL SYMBOL PSIFISTON NEO", aliases: &[] },
        Codepoint { codepoint: 0x1D05B, name: "BYZANTINE MUSICAL SYMBOL OMALON", aliases: &[] },
        Codepoint { codepoint: 0x1D05C, name: "BYZANTINE MUSICAL SYMBOL ANTIKENOMA", aliases: &[] },
        Codepoint { codepoint: 0x1D05D, name: "BYZANTINE MUSICAL SYMBOL LYGISMA", aliases: &[] },
    ];
    assert(v@ =~= codepoint_table_702());
    v
}

pub open spec fn codepoint_table_703() -> Seq<Codepoint> {
    seq![
        Codepoint { codepoint: 0x1D05E, name: "BYZANTINE MUSICAL SYMBOL PARAKLITIKI NEO", aliases: &[] },
        Codepoint { codepoint: 0x1D05F, name: "BYZANTINE MUSICAL SYMBOL PARAKALESMA NEO", aliases: &[] },
        Codepoint { codepoint: 0x1D060, name: "BYZANTINE MUSICAL SYMBOL ETERON PARAKALESMA", aliases: &[] },
        Codepoint { codepoint: 0x1D061, name: "BYZANTINE MUSICAL SYMBOL KYLISMA", aliases: &[] },
        Codepoint { codepoint: 0x1D062, name: "BYZANTINE MUSICAL SYMBOL ANTIKENOKYLISMA", aliases: &[] },
        Codepoint { codepoint: 0x1D063, name: "BYZANTINE MUSICAL SYMBOL TROMIKON NEO", aliases: &[] },
        Codepoint { codepoint: 0x1D064, name: "BYZANTINE MUSICAL SYMBOL EKSTREPTON", aliases: &[] },
        Codepoint { codepoint: 0x1D065, name: "BYZANTINE MUSICAL SYMBOL SYNAGMA NEO", aliases: &[] },
        Codepoint { codepoint: 0x1D066, name: "BYZANTINE MUSICAL SYMBOL SYRMA", aliases: &[] },
        Codepoint { codepoint: 0x1D067, name: "BYZANTINE MUSICAL SYMBOL CHOREVMA NEO", aliases: &[] },
        Codepoint { codepoint: 0x1D068, name: "BYZANTINE MUSICAL SYMBOL EPEGERMA", aliases: &[] },
        Codepoint { codepoint: 0x1D069, name: "BYZANTINE MUSICAL SYMBOL SEISMA NEO", aliases: &[] },
        Codepoint { codepoint: 0x1D06A, name: "BYZANTINE MUSICAL SYMBOL XIRON KLASMA", aliases: &[] },
        Codepoint { codepoint: 0x1D06B, name: "BYZANTINE MUSICAL SYMBOL TROMIKOPSIFISTON", aliases: &[] },
        Codepoint { codepoint: 0x1D06C, name: "BYZANTINE MUSICAL SYMBOL PSIFISTOLYGISMA", aliases: &[] },
        Codepoint { codepoint: 0x1D06D, name: "BYZANTINE MUSICAL SYMBOL TROMIKOLYGISMA", aliases: &[] },
        Codepoint { codepoint: 0x1D06E, name: "BYZANTINE MUSICAL SYMBOL TROMIKOPARAKALESMA", aliases: &[] },
        Codepoint { codepoint: 0x1D06F, name: "BYZANTINE MUSICAL SYMBOL PSIFISTOPARAKALESMA", aliases: &[] },
        Codepoint { codepoint: 0x1D070, name: "BYZANTINE MUSICAL SYMBOL TROMIKOSYNAGMA", aliases: &[] },
        Codepoint { codepoint: 0x1D071, name: "BYZANTINE MUSICAL SYMBOL PSIFISTOSYNAGMA", aliases: &[] },
        Codepoint { codepoint: 0x1D072, name: "BYZANTINE MUSICAL SYMBOL GORGOSYNTHETON", aliases: &[] },
        Codepoint { codepoint: 0x1D073, name: "BYZANTINE MUSICAL SYMBOL ARGOSYNTHETON", aliases: &[] },
        Codepoint { codepoint: 0x1D074, name: "BYZANTINE MUSICAL SYMBOL ETERON ARGOSYNTHETON", aliases: &[] },
        Codepoint { codepoint: 0x1D075, name: "BYZANTINE MUSICAL SYMBOL OYRANISMA NEO", aliases: &[] },
        Codepoint { codepoint: 0x1D076, name: "BYZANTINE MUSICAL SYMBOL THEMATISMOS ESO", aliases: &[] },
        Codepoint { codepoint: 0x1D077, name: "BYZANTINE MUSICAL SYMBOL THEMATISMOS EXO", aliases: &[] },
        Codepoint { codepoint: 0x1D078, name: "BYZANTINE MUSICAL SYMBOL THEMA APLOUN", aliases: &[] },
        Codepoint { codepoint: 0x1D079, name: "BYZANTINE MUSICAL SYMBOL THES KAI APOTHES", aliases: &[] },
        Codepoint { codepoint: 0x1D07A, name: "BYZANTINE MUSICAL SYMBOL KATAVASMA", aliases: &[] },
        Codepoint { codepoint: 0x1D07B, name: "BYZANTINE MUSICAL SYMBOL ENDOFONON", aliases: &[] },
        Codepoint { codepoint: 0x1D07C, name: "BYZANTINE MUSICAL SYMBOL YFEN KATO", aliases: &[] },
        Codepoint { codepoint: 0x1D07D, name: "BYZANTINE MUSICAL SYMBOL YFEN ANO", aliases: &[] },
        Codepoint { codepoint: 0x1D07E, name: "BYZANTINE MUSICAL SYMBOL STAVROS", aliases: &[] },
        Codepoint { codepoint: 0x1D07F, name: "BYZANTINE MUSICAL SYMBOL KLASMA ANO", aliases: &[] },
        Codepoint { codepoint: 0x1D080, name: "BYZANTINE MUSICAL SYMBOL DIPLI ARCHAION", aliases: &[] },
        Codepoint { codepoint: 0x1D081, name: "BYZANTINE MUSICAL SYMBOL KRATIMA ARCHAION", aliases: &[] },
        Codepoint { codepoint: 0x1D082, name: "BYZANTINE MUSICAL SYMBOL KRATIMA ALLO", aliases: &[] },
        Codepoint { codepoint: 0x1D083, name: "BYZANTINE MUSICAL SYMBOL KRATIMA NEO", aliases: &[] },
        Codepoint { codepoint: 0x1D084, name: "BYZANTINE MUSICAL SYMBOL APODERMA NEO", aliases: &[] },
        Codepoint { codepoint: 0x1D085, name: "BYZANTINE MUSICAL SYMBOL APLI", aliases: &[] },
    ]
}

fn all_codepoints_703() -> (v: Vec<Codepoint>)
    ensures
        v@ == codepoint_table_703(),
{
    let v = vec![
        Codepoint { codepoint: 0x1D05E, name: "BYZANTINE MUSICAL SYMBOL PARAKLITIKI NEO", aliases: &[] },
        Codepoint { codepoint: 0x1D05F, name: "BYZANTINE MUSICAL SYMBOL PARAKALESMA NEO", aliases: &[] },
        Codepoint { codepoint: 0x1D060, name: "BYZANTINE MUSICAL SYMBOL ETERON PARAKALESMA", aliases: &[] },
        Codepoint { codepoint: 0x1D061, name: "BYZANTINE MUSICAL SYMBOL KYLISMA", aliases: &[] },
        Codepoint { codepoint: 0x1D062, name: "BYZANTINE MUSICAL SYMBOL ANTIKENOKYLISMA", aliases: &[] },
        Codepoint { codepoint: 0x1D063, name: "BYZANTINE MUSICAL SYMBOL TROMIKON NEO", aliases: &[] },
        Codepoint { codepoint: 0x1D064, name: "BYZANTINE MUSICAL SYMBOL EKSTREPTON", aliases: &[] },
        Codepoint { codepoint: 0x1D065, name: "BYZANTINE MUSICAL SYMBOL SYNAGMA NEO", aliases: &[] },
        Codepoint { codepoint: 0x1D066, name: "BYZANTINE MUSICAL SYMBOL SYRMA", aliases: &[] },
        Codepoint { codepoint: 0x1D067, name: "BYZANTINE MUSICAL SYMBOL CHOREVMA NEO", aliases: &[] },
        Codepoint { codepoint: 0x1D068, name: "BYZANTINE MUSICAL SYMBOL EPEGERMA", aliases: &[] },
        Codepoint { codepoint: 0x1D069, name: "BYZANTINE MUSICAL SYMBOL SEISMA NEO", aliases: &[] },
        Codepoint { codepoint: 0x1D06A, name: "BYZANTINE MUSICAL SYMBOL XIRON KLASMA", aliases: &[] },
        Codepoint { codepoint: 0x1D06B, name: "BYZANTINE MUSICAL SYMBOL TROMIKOPSIFISTON", aliases: &[] },
        Codepoint { codepoint: 0x1D06C, name: "BYZANTINE MUSICAL SYMBOL PSIFISTOLYGISMA", aliases: &[] },
        Codepoint { codepoint: 0x1D06D, name: "BYZANTINE MUSICAL SYMBOL TROMIKOLYGISMA", aliases: &[] },
        Codepoint { codepoint: 0x1D06E, name: "BYZANTINE MUSICAL SYMBOL TROMIKOPARAKALESMA", aliases: &[] },
        Codepoint { codepoint: 0x1D06F, name: "BYZANTINE MUSICAL SYMBOL PSIFISTOPARAKALESMA", aliases: &[] },
        Codepoint { codepoint: 0x1D070, name: "BYZANTINE MUSICAL SYMBOL TROMIKOSYNAGMA", aliases: &[] },
        Codepoint { codepoint: 0x1D071, name: "BYZANTINE MUSICAL SYMBOL PSIFISTOSYNAGMA", aliases: &[] },
        Codepoint { codepoint: 0x1D072, name: "BYZANTINE MUSICAL SYMBOL GORGOSYNTHETON", aliases: &[] },
        Codepoint { codepoint: 0x1D073, name: "BYZANTINE MUSICAL SYMBOL ARGOSYNTHETON", aliases: &[] },
        Codepoint { codepoint: 0x1D074, name: "BYZANTINE MUSICAL SYMBOL ETERON ARGOSYNTHETON", aliases: &[] },
        Codepoint { codepoint: 0x1D075, name: "BYZANTINE MUSICAL SYMBOL OYRANISMA NEO", aliases: &[] },
        Codepoint { codepoint: 0x1D076, name: "BYZANTINE MUSICAL SYMBOL THEMATISMOS ESO", aliases: &[] },
        Codepoint { codepoint: 0x1D077, name: "BYZANTINE MUSICAL SYMBOL THEMATISMOS EXO", aliases: &[] },
        Codepoint { codepoint: 0x1D078, name: "BYZANTINE MUSICAL SYMBOL THEMA APLOUN", aliases: &[] },
        Codepoint { codepoint: 0x1D079, name: "BYZANTINE MUSICAL SYMBOL THES KAI APOTHES", aliases: &[] },
        Codepoint { codepoint: 0x1D07A, name: "BYZANTINE MUSICAL SYMBOL KATAVASMA", aliases: &[] },
        Codepoint { codepoint: 0x1D07B, name: "BYZANTINE MUSICAL SYMBOL ENDOFONON", aliases: &[] },
        Codepoint { codepoint: 0x1D07C, name: "BYZANTINE MUSICAL SYMBOL YFEN KATO", aliases: &[] },
        Codepoint { codepoint: 0x1D07D, name: "BYZANTINE MUSICAL SYMBOL YFEN ANO", aliases: &[] },
        Codepoint { codepoint: 0x1D07E, name: "BYZANTINE MUSICAL SYMBOL STAVROS", aliases: &[] },
        Codepoint { codepoint: 0x1D07F, name: "BYZANTINE MUSICAL SYMBOL KLASMA ANO", aliases: &[] },
        Codepoint { codepoint: 0x1D080, name: "BYZANTINE MUSICAL SYMBOL DIPLI ARCHAION", aliases: &[] },
        Codepoint { codepoint: 0x1D081, name: "BYZANTINE MUSICAL SYMBOL KRATIMA ARCHAION", aliases: &[] },
        Codepoint { codepoint: 0x1D082, name: "BYZANTINE MUSICAL SYMBOL KRATIMA ALLO", aliases: &[] },
        Codepoint { codepoint: 0x1D083, name: "BYZANTINE MUSICAL SYMBOL KRATIMA NEO", aliases: &[] },
        Codepoint { codepoint: 0x1D084, name: "BYZANTINE MUSICAL SYMBOL APODERMA NEO", aliases: &[] },
        Codepoint { codepoint: 0x1D085, name: "BYZANTINE MUSICAL SYMBOL APLI", aliases: &[] },
    ];
    assert(v@ =~= codepoint_table_703());
    v
}

pub open spec fn codepoint_table_704() -> Seq<Codepoint> {
    seq![
        Codepoint { codepoint: 0x1D086, name: "BYZANTINE MUSICAL SYMBOL DIPLI", aliases: &[] },
        Codepoint { codepoint: 0x1D087, name: "BYZANTINE MUSICAL SYMBOL TRIPLI", aliases: &[] },
        Codepoint { codepoint: 0x1D088, name: "BYZANTINE MUSICAL SYMBOL TETRAPLI", aliases: &[] },
        Codepoint { codepoint: 0x1D089, name: "BYZANTINE MUSICAL SYMBOL KORONIS", aliases: &[] },
        Codepoint { codepoint: 0x1D08A, name: "BYZANTINE MUSICAL SYMBOL LEIMMA ENOS CHRONOU", aliases: &[] },
        Codepoint { codepoint: 0x1D08B, name: "BYZANTINE MUSICAL SYMBOL LEIMMA DYO CHRONON", aliases: &[] },
        Codepoint { codepoint: 0x1D08C, name: "BYZANTINE MUSICAL SYMBOL LEIMMA TRION CHRONON", aliases: &[] },
        Codepoint { codepoint: 0x1D08D, name: "BYZANTINE MUSICAL SYMBOL LEIMMA TESSARON CHRONON", aliases: &[] },
        Codepoint { codepoint: 0x1D08E, name: "BYZANTINE MUSICAL SYMBOL LEIMMA IMISEOS CHRONOU", aliases: &[] },
        Codepoint { codepoint: 0x1D08F, name: "BYZANTINE MUSICAL SYMBOL GORGON NEO ANO", aliases: &[] },
        Codepoint { codepoint: 0x1D090, name: "BYZANTINE MUSICAL SYMBOL GORGON PARESTIGMENON ARISTERA", aliases: &[] },
        Codepoint { codepoint: 0x1D091, name: "BYZANTINE MUSICAL SYMBOL GORGON PARESTIGMENON DEXIA", aliases: &[] },
        Codepoint { codepoint: 0x1D092, name: "BYZANTINE MUSICAL SYMBOL DIGORGON", aliases: &[] },
        Codepoint { codepoint: 0x1D093, name: "BYZANTINE MUSICAL SYMBOL DIGORGON PARESTIGMENON ARISTERA KATO", aliases: &[] },
        Codepoint { codepoint: 0x1D094, name: "BYZANTINE MUSICAL SYMBOL DIGORGON PARESTIGMENON ARISTERA ANO", aliases: &[] },
        Codepoint { codepoint: 0x1D095, name: "BYZANTINE MUSICAL SYMBOL DIGORGON PARESTIGMENON DEXIA", aliases: &[] },
        Codepoint { codepoint: 0x1D096, name: "BYZANTINE MUSICAL SYMBOL TRIGORGON", aliases: &[] },
        Codepoint { codepoint: 0x1D097, name: "BYZANTINE MUSICAL SYMBOL ARGON", aliases: &[] },
        Codepoint { codepoint: 0x1D098, name: "BYZANTINE MUSICAL SYMBOL IMIDIARGON", aliases: &[] },
        Codepoint { codepoint: 0x1D099, name: "BYZANTINE MUSICAL SYMBOL DIARGON", aliases: &[] },
        Codepoint { codepoint: 0x1D09A, name: "BYZANTINE MUSICAL SYMBOL AGOGI POLI ARGI", aliases: &[] },
        Codepoint { codepoint: 0x1D09B, name: "BYZANTINE MUSICAL SYMBOL AGOGI ARGOTERI", aliases: &[] },
        Codepoint { codepoint: 0x1D09C, name: "BYZANTINE MUSICAL SYMBOL AGOGI ARGI", aliases: &[] },
        Codepoint { codepoint: 0x1D09D, name: "BYZANTINE MUSICAL SYMBOL AGOGI METRIA", aliases: &[] },
        Codepoint { codepoint: 0x1D09E, name: "BYZANTINE MUSICAL SYMBOL AGOGI MESI", aliases: &[] },
        Codepoint { codepoint: 0x1D09F, name: "BYZANTINE MUSICAL SYMBOL AGOGI GORGI", aliases: &[] },
        Codepoint { codepoint: 0x1D0A0, name: "BYZANTINE MUSICAL SYMBOL AGOGI GORGOTERI", aliases: &[] },
        Codepoint { codepoint: 0x1D0A1, name: "BYZANTINE MUSICAL SYMBOL AGOGI POLI GORGI", aliases: &[] },
        Codepoint { codepoint: 0x1D0A2, name: "BYZANTINE MUSICAL SYMBOL MARTYRIA PROTOS ICHOS", aliases: &[] },
        Codepoint { codepoint: 0x1D0A3, name: "BYZANTINE MUSICAL SYMBOL MARTYRIA ALLI PROTOS ICHOS", aliases: &[] },
        Codepoint { codepoint: 0x1D0A4, name: "BYZANTINE MUSICAL SYMBOL MARTYRIA DEYTEROS ICHOS", aliases: &[] },
        Codepoint { codepoint: 0x1D0A5, name: "BYZANTINE MUSICAL SYMBOL MARTYRIA ALLI DEYTEROS ICHOS", aliases: &[] },
        Codepoint { codepoint: 0x1D0A6, name: "BYZANTINE MUSICAL SYMBOL MARTYRIA TRITOS ICHOS", aliases: &[] },
        Codepoint { codepoint: 0x1D0A7, name: "BYZANTINE MUSICAL SYMBOL MARTYRIA TRIFONIAS", aliases: &[] },
        Codepoint { codepoint: 0x1D0A8, name: "BYZANTINE MUSICAL SYMBOL MARTYRIA TETARTOS ICHOS", aliases: &[] },
        Codepoint { codepoint: 0x1D0A9, name: "BYZANTINE MUSICAL SYMBOL MARTYRIA TETARTOS LEGETOS ICHOS", aliases: &[] },
        Codepoint { codepoint: 0x1D0AA, name: "BYZANTINE MUSICAL SYMBOL MARTYRIA LEGETOS ICHOS", aliases: &[] },
        Codepoint { codepoint: 0x1D0AB, name: "BYZANTINE MUSICAL SYMBOL MARTYRIA PLAGIOS ICHOS", aliases: &[] },
        Codepoint { codepoint: 0x1D0AC, name: "BYZANTINE MUSICAL SYMBOL ISAKIA TELOUS ICHIMATOS", aliases: &[] },
        Codepoint { codepoint: 0x1D0AD, name: "BYZANTINE MUSICAL SYMBOL APOSTROFOI TELOUS ICHIMATOS", aliases: &[] },
    ]
}

fn all_codepoints_704() -> (v: Vec<Codepoint>)
    ensures
        v@ == codepoint_table_704(),
{
    let v = vec![
        Codepoint { codepoint: 0x1D086, name: "BYZANTINE MUSICAL SYMBOL DIPLI", aliases: &[] },
        Codepoint { codepoint: 0x1D087, name: "BYZANTINE MUSICAL SYMBOL TRIPLI", aliases: &[] },
        Codepoint { codepoint: 0x1D088, name: "BYZANTINE MUSICAL SYMBOL TETRAPLI", aliases: &[] },
        Codepoint { codepoint: 0x1D089, name: "BYZANTINE MUSICAL SYMBOL KORONIS", aliases: &[] },
        Codepoint { codepoint: 0x1D08A, name: "BYZANTINE MUSICAL SYMBOL LEIMMA ENOS CHRONOU", aliases: &[] },
        Codepoint { codepoint: 0x1D08B, name: "BYZANTINE MUSICAL SYMBOL LEIMMA DYO CHRONON", aliases: &[] },
        Codepoint { codepoint: 0x1D08C, name: "BYZANTINE MUSICAL SYMBOL LEIMMA TRION CHRONON", aliases: &[] },
        Codepoint { codepoint: 0x1D08D, name: "BYZANTINE MUSICAL SYMBOL LEIMMA TESSARON CHRONON", aliases: &[] },
        Codepoint { codepoint: 0x1D08E, name: "BYZANTINE MUSICAL SYMBOL LEIMMA IMISEOS CHRONOU", aliases: &[] },
        Codepoint { codepoint: 0x1D08F, name: "BYZANTINE MUSICAL SYMBOL GORGON NEO ANO", aliases: &[] },
        Codepoint { codepoint: 0x1D090, name: "BYZANTINE MUSICAL SYMBOL GORGON PARESTIGMENON ARISTERA", aliases: &[] },
        Codepoint { codepoint: 0x1D091, name: "BYZANTINE MUSICAL SYMBOL GORGON PARESTIGMENON DEXIA", aliases: &[] },
        Codepoint { codepoint: 0x1D092, name: "BYZANTINE MUSICAL SYMBOL DIGORGON", aliases: &[] },
        Codepoint { codepoint: 0x1D093, name: "BYZANTINE MUSICAL SYMBOL DIGORGON PARESTIGMENON ARISTERA KATO", aliases: &[] },
        Codepoint { codepoint: 0x1D094, name: "BYZANTINE MUSICAL SYMBOL DIGORGON PARESTIGMENON ARISTERA ANO", aliases: &[] },
        Codepoint { codepoint: 0x1D095, name: "BYZANTINE MUSICAL SYMBOL DIGORGON PARESTIGMENON DEXIA", aliases: &[] },
        Codepoint { codepoint: 0x1D096, name: "BYZANTINE MUSICAL SYMBOL TRIGORGON", aliases: &[] },
        Codepoint { codepoint: 0x1D097, name: "BYZANTINE MUSICAL SYMBOL ARGON", aliases: &[] },
        Codepoint { codepoint: 0x1D098, name: "BYZANTINE MUSICAL SYMBOL IMIDIARGON", aliases: &[] },
        Codepoint { codepoint: 0x1D099, name: "BYZANTINE MUSICAL SYMBOL DIARGON", aliases: &[] },
        Codepoint { codepoint: 0x1D09A, name: "BYZANTINE MUSICAL SYMBOL AGOGI POLI ARGI", aliases: &[] },
        Codepoint { codepoint: 0x1D09B, name: "BYZANTINE MUSICAL SYMBOL AGOGI ARGOTERI", aliases: &[] },
        Codepoint { codepoint: 0x1D09C, name: "BYZANTINE MUSICAL SYMBOL AGOGI ARGI", aliases: &[] },
        Codepoint { codepoint: 0x1D09D, name: "BYZANTINE MUSICAL SYMBOL AGOGI METRIA", aliases: &[] },
        Codepoint { codepoint: 0x1D09E, name: "BYZANTINE MUSICAL SYMBOL AGOGI MESI", aliases: &[] },
        Codepoint { codepoint: 0x1D09F, name: "BYZANTINE MUSICAL SYMBOL AGOGI GORGI", aliases: &[] },
        Codepoint { codepoint: 0x1D0A0, name: "BYZANTINE MUSICAL SYMBOL AGOGI GORGOTERI", aliases: &[] },
        Codepoint { codepoint: 0x1D0A1, name: "BYZANTINE MUSICAL SYMBOL AGOGI POLI GORGI", aliases: &[] },
        Codepoint { codepoint: 0x1D0A2, name: "BYZANTINE MUSICAL SYMBOL MARTYRIA PROTOS ICHOS", aliases: &[] },
        Codepoint { codepoint: 0x1D0A3, name: "BYZANTINE MUSICAL SYMBOL MARTYRIA ALLI PROTOS ICHOS", aliases: &[] },
        Codepoint { codepoint: 0x1D0A4, name: "BYZANTINE MUSICAL SYMBOL MARTYRIA DEYTEROS ICHOS", aliases: &[] },
        Codepoint { codepoint: 0x1D0A5, name: "BYZANTINE MUSICAL SYMBOL MARTYRIA ALLI DEYTEROS ICHOS", aliases: &[] },
        Codepoint { codepoint: 0x1D0A6, name: "BYZANTINE MUSICAL SYMBOL MARTYRIA TRITOS ICHOS", aliases: &[] },
        Codepoint { codepoint: 0x1D0A7, name: "BYZANTINE MUSICAL SYMBOL MARTYRIA TRIFONIAS", aliases: &[] },
        Codepoint { codepoint: 0x1D0A8, name: "BYZANTINE MUSICAL SYMBOL MARTYRIA TETARTOS ICHOS", aliases: &[] },
        Codepoint { codepoint: 0x1D0A9, name: "BYZANTINE MUSICAL SYMBOL MARTYRIA TETARTOS LEGETOS ICHOS", aliases: &[] },
        Codepoint { codepoint: 0x1D0AA, name: "BYZANTINE MUSICAL SYMBOL MARTYRIA LEGETOS ICHOS", aliases: &[] },
        Codepoint { codepoint: 0x1D0AB, name: "BYZANTINE MUSICAL SYMBOL MARTYRIA PLAGIOS ICHOS", aliases: &[] },
        Codepoint { codepoint: 0x1D0AC, name: "BYZANTINE MUSICAL SYMBOL ISAKIA TELOUS ICHIMATOS", aliases: &[] },
        Codepoint { codepoint: 0x1D0AD, name: "BYZANTINE MUSICAL SYMBOL APOSTROFOI TELOUS ICHIMATOS", aliases: &[] },
    ];
    assert(v@ =~= codepoint_table_704());
    v
}

pub open spec fn codepoint_table_705() -> Seq<Codepoint> {
    seq![
        Codepoint { codepoint: 0x1D0AE, name: "BYZANTINE MUSICAL SYMBOL FANEROSIS TETRAFONIAS", aliases: &[] },
        Codepoint { codepoint: 0x1D0AF, name: "BYZANTINE MUSICAL SYMBOL FANEROSIS MONOFONIAS", aliases: &[] },
        Codepoint { codepoint: 0x1D0B0, name: "BYZANTINE MUSICAL SYMBOL FANEROSIS DIFONIAS", aliases: &[] },
        Codepoint { codepoint: 0x1D0B1, name: "BYZANTINE MUSICAL SYMBOL MARTYRIA VARYS ICHOS", aliases: &[] },
        Codepoint { codepoint: 0x1D0B2, name: "BYZANTINE MUSICAL SYMBOL MARTYRIA PROTOVARYS ICHOS", aliases: &[] },
        Codepoint { codepoint: 0x1D0B3, name: "BYZANTINE MUSICAL SYMBOL MARTYRIA PLAGIOS TETARTOS ICHOS", aliases: &[] },
        Codepoint { codepoint: 0x1D0B4, name: "BYZANTINE MUSICAL SYMBOL GORTHMIKON N APLOUN", aliases: &[] },
        Codepoint { codepoint: 0x1D0B5, name: "BYZANTINE MUSICAL SYMBOL GORTHMIKON N DIPLOUN", aliases: &[] },
        Codepoint { codepoint: 0x1D0B6, name: "BYZANTINE MUSICAL SYMBOL ENARXIS KAI FTHORA VOU", aliases: &[] },
        Codepoint { codepoint: 0x1D0B7, name: "BYZANTINE MUSICAL SYMBOL IMIFONON", aliases: &[] },
        Codepoint { codepoint: 0x1D0B8, name: "BYZANTINE MUSICAL SYMBOL IMIFTHORON", aliases: &[] },
        Codepoint { codepoint: 0x1D0B9, name: "BYZANTINE MUSICAL SYMBOL FTHORA ARCHAION DEYTEROU ICHOU", aliases: &[] },
        Codepoint { codepoint: 0x1D0BA, name: "BYZANTINE MUSICAL SYMBOL FTHORA DIATONIKI PA", aliases: &[] },
        Codepoint { codepoint: 0x1D0BB, name: "BYZANTINE MUSICAL SYMBOL FTHORA DIATONIKI NANA", aliases: &[] },
        Codepoint { codepoint: 0x1D0BC, name: "BYZANTINE MUSICAL SYMBOL FTHORA NAOS ICHOS", aliases: &[] },
        Codepoint { codepoint: 0x1D0BD, name: "BYZANTINE MUSICAL SYMBOL FTHORA DIATONIKI DI", aliases: &[] },
        Codepoint { codepoint: 0x1D0BE, name: "BYZANTINE MUSICAL SYMBOL FTHORA SKLIRON DIATONON DI", aliases: &[] },
        Codepoint { codepoint: 0x1D0BF, name: "BYZANTINE MUSICAL SYMBOL FTHORA DIATONIKI KE", aliases: &[] },
        Codepoint { codepoint: 0x1D0C0, name: "BYZANTINE MUSICAL SYMBOL FTHORA DIATONIKI ZO", aliases: &[] },
        Codepoint { codepoint: 0x1D0C1, name: "BYZANTINE MUSICAL SYMBOL FTHORA DIATONIKI NI KATO", aliases: &[] },
        Codepoint { codepoint: 0x1D0C2, name: "BYZANTINE MUSICAL SYMBOL FTHORA DIATONIKI NI ANO", aliases: &[] },
        Codepoint { codepoint: 0x1D0C3, name: "BYZANTINE MUSICAL SYMBOL FTHORA MALAKON CHROMA DIFONIAS", aliases: &[] },
        Codepoint { codepoint: 0x1D0C4, name: "BYZANTINE MUSICAL SYMBOL FTHORA MALAKON CHROMA MONOFONIAS", aliases: &[] },
        Codepoint { codepoint: 0x1D0C5, name: "BYZANTINE MUSICAL SYMBOL FHTORA SKLIRON CHROMA VASIS", aliases: &[] },
        Codepoint { codepoint: 0x1D0C6, name: "BYZANTINE MUSICAL SYMBOL FTHORA SKLIRON CHROMA SYNAFI", aliases: &[] },
        Codepoint { codepoint: 0x1D0C7, name: "BYZANTINE MUSICAL SYMBOL FTHORA NENANO", aliases: &[] },
        Codepoint { codepoint: 0x1D0C8, name: "BYZANTINE MUSICAL SYMBOL CHROA ZYGOS", aliases: &[] },
        Codepoint { codepoint: 0x1D0C9, name: "BYZANTINE MUSICAL SYMBOL CHROA KLITON", aliases: &[] },
        Codepoint { codepoint: 0x1D0CA, name: "BYZANTINE MUSICAL SYMBOL CHROA SPATHI", aliases: &[] },
        Codepoint { codepoint: 0x1D0CB, name: "BYZANTINE MUSICAL SYMBOL FTHORA I YFESIS TETARTIMORION", aliases: &[] },
        Codepoint { codepoint: 0x1D0CC, name: "BYZANTINE MUSICAL SYMBOL FTHORA ENARMONIOS ANTIFONIA", aliases: &[] },
        Codepoint { codepoint: 0x1D0CD, name: "BYZANTINE MUSICAL SYMBOL YFESIS TRITIMORION", aliases: &[] },
        Codepoint { codepoint: 0x1D0CE, name: "BYZANTINE MUSICAL SYMBOL DIESIS TRITIMORION", aliases: &[] },
        Codepoint { codepoint: 0x1D0CF, name: "BYZANTINE MUSICAL SYMBOL DIESIS TETARTIMORION", aliases: &[] },
        Codepoint { codepoint: 0x1D0D0, name: "BYZANTINE MUSICAL SYMBOL DIESIS APLI DYO DODEKATA", aliases: &[] },
        Codepoint { codepoint: 0x1D0D1, name: "BYZANTINE MUSICAL SYMBOL DIESIS MONOGRAMMOS TESSERA DODEKATA", aliases: &[] },
        Codepoint { codepoint: 0x1D0D2, name: "BYZANTINE MUSICAL SYMBOL DIESIS DIGRAMMOS EX DODEKATA", aliases: &[] },
        Codepoint { codepoint: 0x1D0D3, name: "BYZANTINE MUSICAL SYMBOL DIESIS TRIGRAMMOS OKTO DODEKATA", aliases: &[] },
        Codepoint { codepoint: 0x1D0D4, name: "BYZANTINE MUSICAL SYMBOL YFESIS APLI DYO DODEKATA", aliases: &[] },
        Codepoint { codepoint: 0x1D0D5, name: "BYZANTINE MUSICAL SYMBOL YFESIS MONOGRAMMOS TESSERA DODEKATA", aliases: &[] },
    ]
}

fn all_codepoints_705() -> (v: Vec<Codepoint>)
    ensures
        v@ == codepoint_table_705(),
{
    let v = vec![
        Codepoint { codepoint: 0x1D0AE, name: "BYZANTINE MUSICAL SYMBOL FANEROSIS TETRAFONIAS", aliases: &[] },
        Codepoint { codepoint: 0x1D0AF, name: "BYZANTINE MUSICAL SYMBOL FANEROSIS MONOFONIAS", aliases: &[] },
        Codepoint { codepoint: 0x1D0B0, name: "BYZANTINE MUSICAL SYMBOL FANEROSIS DIFONIAS", aliases: &[] },
        Codepoint { codepoint: 0x1D0B1, name: "BYZANTINE MUSICAL SYMBOL MARTYRIA VARYS ICHOS", aliases: &[] },
        Codepoint { codepoint: 0x1D0B2, name: "BYZANTINE MUSICAL SYMBOL MARTYRIA PROTOVARYS ICHOS", aliases: &[] },
        Codepoint { codepoint: 0x1D0B3, name: "BYZANTINE MUSICAL SYMBOL MARTYRIA PLAGIOS TETARTOS ICHOS", aliases: &[] },
        Codepoint { codepoint: 0x1D0B4, name: "BYZANTINE MUSICAL SYMBOL GORTHMIKON N APLOUN", aliases: &[] },
        Codepoint { codepoint: 0x1D0B5, name: "BYZANTINE MUSICAL SYMBOL GORTHMIKON N DIPLOUN", aliases: &[] },
        Codepoint { codepoint: 0x1D0B6, name: "BYZANTINE MUSICAL SYMBOL ENARXIS KAI FTHORA VOU", aliases: &[] },
        Codepoint { codepoint: 0x1D0B7, name: "BYZANTINE MUSICAL SYMBOL IMIFONON", aliases: &[] },
        Codepoint { codepoint: 0x1D0B8, name: "BYZANTINE MUSICAL SYMBOL IMIFTHORON", aliases: &[] },
        Codepoint { codepoint: 0x1D0B9, name: "BYZANTINE MUSICAL SYMBOL FTHORA ARCHAION DEYTEROU ICHOU", aliases: &[] },
        Codepoint { codepoint: 0x1D0BA, name: "BYZANTINE MUSICAL SYMBOL FTHORA DIATONIKI PA", aliases: &[] },
        Codepoint { codepoint: 0x1D0BB, name: "BYZANTINE MUSICAL SYMBOL FTHORA DIATONIKI NANA", aliases: &[] },
        Codepoint { codepoint: 0x1D0BC, name: "BYZANTINE MUSICAL SYMBOL FTHORA NAOS ICHOS", aliases: &[] },
        Codepoint { codepoint: 0x1D0BD, name: "BYZANTINE MUSICAL SYMBOL FTHORA DIATONIKI DI", aliases: &[] },
        Codepoint { codepoint: 0x1D0BE, name: "BYZANTINE MUSICAL SYMBOL FTHORA SKLIRON DIATONON DI", aliases: &[] },
        Codepoint { codepoint: 0x1D0BF, name: "BYZANTINE MUSICAL SYMBOL FTHORA DIATONIKI KE", aliases: &[] },
        Codepoint { codepoint: 0x1D0C0, name: "BYZANTINE MUSICAL SYMBOL FTHORA DIATONIKI ZO", aliases: &[] },
        Codepoint { codepoint: 0x1D0C1, name: "BYZANTINE MUSICAL SYMBOL FTHORA DIATONIKI NI KATO", aliases: &[] },
        Codepoint { codepoint: 0x1D0C2, name: "BYZANTINE MUSICAL SYMBOL FTHORA DIATONIKI NI ANO", aliases: &[] },
        Codepoint { codepoint: 0x1D0C3, name: "BYZANTINE MUSICAL SYMBOL FTHORA MALAKON CHROMA DIFONIAS", aliases: &[] },
        Codepoint { codepoint: 0x1D0C4, name: "BYZANTINE MUSICAL SYMBOL FTHORA MALAKON CHROMA MONOFONIAS", aliases: &[] },
        Codepoint { codepoint: 0x1D0C5, name: "BYZANTINE MUSICAL SYMBOL FHTORA SKLIRON CHROMA VASIS", aliases: &[] },
        Codepoint { codepoint: 0x1D0C6, name: "BYZANTINE MUSICAL SYMBOL FTHORA SKLIRON CHROMA SYNAFI", aliases: &[] },
        Codepoint { codepoint: 0x1D0C7, name: "BYZANTINE MUSICAL SYMBOL FTHORA NENANO", aliases: &[] },
        Codepoint { codepoint: 0x1D0C8, name: "BYZANTINE MUSICAL SYMBOL CHROA ZYGOS", aliases: &[] },
        Codepoint { codepoint: 0x1D0C9, name: "BYZANTINE MUSICAL SYMBOL CHROA KLITON", aliases: &[] },
        Codepoint { codepoint: 0x1D0CA, name: "BYZANTINE MUSICAL SYMBOL CHROA SPATHI", aliases: &[] },
        Codepoint { codepoint: 0x1D0CB, name: "BYZANTINE MUSICAL SYMBOL FTHORA I YFESIS TETARTIMORION", aliases: &[] },
        Codepoint { codepoint: 0x1D0CC, name: "BYZANTINE MUSICAL SYMBOL FTHORA ENARMONIOS ANTIFONIA", aliases: &[] },
        Codepoint { codepoint: 0x1D0CD, name: "BYZANTINE MUSICAL SYMBOL YFESIS TRITIMORION", aliases: &[] },
        Codepoint { codepoint: 0x1D0CE, name: "BYZANTINE MUSICAL SYMBOL DIESIS TRITIMORION", aliases: &[] },
        Codepoint { codepoint: 0x1D0CF, name: "BYZANTINE MUSICAL SYMBOL DIESIS TETARTIMORION", aliases: &[] },
        Codepoint { codepoint: 0x1D0D0, name: "BYZANTINE MUSICAL SYMBOL DIESIS APLI DYO DODEKATA", aliases: &[] },
        Codepoint { codepoint: 0x1D0D1, name: "BYZANTINE MUSICAL SYMBOL DIESIS MONOGRAMMOS TESSERA DODEKATA", aliases: &[] },
        Codepoint { codepoint: 0x1D0D2, name: "BYZANTINE MUSICAL SYMBOL DIESIS DIGRAMMOS EX DODEKATA", aliases: &[] },
        Codepoint { codepoint: 0x1D0D3, name: "BYZANTINE MUSICAL SYMBOL DIESIS TRIGRAMMOS OKTO DODEKATA", aliases: &[] },
        Codepoint { codepoint: 0x1D0D4, name: "BYZANTINE MUSICAL SYMBOL YFESIS APLI DYO DODEKATA", aliases: &[] },
        Codepoint { codepoint: 0x1D0D5, name: "BYZANTINE MUSICAL SYMBOL YFESIS MONOGRAMMOS TESSERA DODEKATA", aliases: &[] },
    ];
    assert(v@ =~= codepoint_table_705());
    v
}

pub open spec fn codepoint_table_706() -> Seq<Codepoint> {
    seq![
        Codepoint { codepoint: 0x1D0D6, name: "BYZANTINE MUSICAL SYMBOL YFESIS DIGRAMMOS EX DODEKATA", aliases: &[] },
        Codepoint { codepoint: 0x1D0D7, name: "BYZANTINE MUSICAL SYMBOL YFESIS TRIGRAMMOS OKTO DODEKATA", aliases: &[] },
        Codepoint { codepoint: 0x1D0D8, name: "BYZANTINE MUSICAL SYMBOL GENIKI DIESIS", aliases: &[] },
        Codepoint { codepoint: 0x1D0D9, name: "BYZANTINE MUSICAL SYMBOL GENIKI YFESIS", aliases: &[] },
        Codepoint { codepoint: 0x1D0DA, name: "BYZANTINE MUSICAL SYMBOL DIASTOLI APLI MIKRI", aliases: &[] },
        Codepoint { codepoint: 0x1D0DB, name: "BYZANTINE MUSICAL SYMBOL DIASTOLI APLI MEGALI", aliases: &[] },
        Codepoint { codepoint: 0x1D0DC, name: "BYZANTINE MUSICAL SYMBOL DIASTOLI DIPLI", aliases: &[] },
        Codepoint { codepoint: 0x1D0DD, name: "BYZANTINE MUSICAL SYMBOL DIASTOLI THESEOS", aliases: &[] },
        Codepoint { codepoint: 0x1D0DE, name: "BYZANTINE MUSICAL SYMBOL SIMANSIS THESEOS", aliases: &[] },
        Codepoint { codepoint: 0x1D0DF, name: "BYZANTINE MUSICAL SYMBOL SIMANSIS THESEOS DISIMOU", aliases: &[] },
        Codepoint { codepoint: 0x1D0E0, name: "BYZANTINE MUSICAL SYMBOL SIMANSIS THESEOS TRISIMOU", aliases: &[] },
        Codepoint { codepoint: 0x1D0E1, name: "BYZANTINE MUSICAL SYMBOL SIMANSIS THESEOS TETRASIMOU", aliases: &[] },
        Codepoint { codepoint: 0x1D0E2, name: "BYZANTINE MUSICAL SYMBOL SIMANSIS ARSEOS", aliases: &[] },
        Codepoint { codepoint: 0x1D0E3, name: "BYZANTINE MUSICAL SYMBOL SIMANSIS ARSEOS DISIMOU", aliases: &[] },
        Codepoint { codepoint: 0x1D0E4, name: "BYZANTINE MUSICAL SYMBOL SIMANSIS ARSEOS TRISIMOU", aliases: &[] },
        Codepoint { codepoint: 0x1D0E5, name: "BYZANTINE MUSICAL SYMBOL SIMANSIS ARSEOS TETRASIMOU", aliases: &[] },
        Codepoint { codepoint: 0x1D0E6, name: "BYZANTINE MUSICAL SYMBOL DIGRAMMA GG", aliases: &[] },
        Codepoint { codepoint: 0x1D0E7, name: "BYZANTINE MUSICAL SYMBOL DIFTOGGOS OU", aliases: &[] },
        Codepoint { codepoint: 0x1D0E8, name: "BYZANTINE MUSICAL SYMBOL STIGMA", aliases: &[] },
        Codepoint { codepoint: 0x1D0E9, name: "BYZANTINE MUSICAL SYMBOL ARKTIKO PA", aliases: &[] },
        Codepoint { codepoint: 0x1D0EA, name: "BYZANTINE MUSICAL SYMBOL ARKTIKO VOU", aliases: &[] },
        Codepoint { codepoint: 0x1D0EB, name: "BYZANTINE MUSICAL SYMBOL ARKTIKO GA", aliases: &[] },
        Codepoint { codepoint: 0x1D0EC, name: "BYZANTINE MUSICAL SYMBOL ARKTIKO DI", aliases: &[] },
        Codepoint { codepoint: 0x1D0ED, name: "BYZANTINE MUSICAL SYMBOL ARKTIKO KE", aliases: &[] },
        Codepoint { codepoint: 0x1D0EE, name: "BYZANTINE MUSICAL SYMBOL ARKTIKO ZO", aliases: &[] },
        Codepoint { codepoint: 0x1D0EF, name: "BYZANTINE MUSICAL SYMBOL ARKTIKO NI", aliases: &[] },
        Codepoint { codepoint: 0x1D0F0, name: "BYZANTINE MUSICAL SYMBOL KENTIMATA NEO MESO", aliases: &[] },
        Codepoint { codepoint: 0x1D0F1, name: "BYZANTINE MUSICAL SYMBOL KENTIMA NEO MESO", aliases: &[] },
        Codepoint { codepoint: 0x1D0F2, name: "BYZANTINE MUSICAL SYMBOL KENTIMATA NEO KATO", aliases: &[] },
        Codepoint { codepoint: 0x1D0F3, name: "BYZANTINE MUSICAL SYMBOL KENTIMA NEO KATO", aliases: &[] },
        Codepoint { codepoint: 0x1D0F4, name: "BYZANTINE MUSICAL SYMBOL KLASMA KATO", aliases: &[] },
        Codepoint { codepoint: 0x1D0F5, name: "BYZANTINE MUSICAL SYMBOL GORGON NEO KATO", aliases: &[] },
        Codepoint { codepoint: 0x1D100, name: "MUSICAL SYMBOL SINGLE BARLINE", aliases: &[] },
        Codepoint { codepoint: 0x1D101, name: "MUSICAL SYMBOL DOUBLE BARLINE", aliases: &[] },
        Codepoint { codepoint: 0x1D102, name: "MUSICAL SYMBOL FINAL BARLINE", aliases: &[] },
        Codepoint { codepoint: 0x1D103, name: "MUSICAL SYMBOL REVERSE FINAL BARLINE", aliases: &[] },
        Codepoint { codepoint: 0x1D104, name: "MUSICAL SYMBOL DASHED BARLINE", aliases: &[] },
        Codepoint { codepoint: 0x1D105, name: "MUSICAL SYMBOL SHORT BARLINE", aliases: &[] },
        Codepoint { codepoint: 0x1D106, name: "MUSICAL SYMBOL LEFT REPEAT SIGN", aliases: &[] },
        Codepoint { codepoint: 0x1D107, name: "MUSICAL SYMBOL RIGHT REPEAT SIGN", aliases: &[] },
    ]
}

fn all_codepoints_706() -> (v: Vec<Codepoint>)
    ensures
        v@ == codepoint_table_706(),
{
    let v = vec![
        Codepoint { codepoint: 0x1D0D6, name: "BYZANTINE MUSICAL SYMBOL YFESIS DIGRAMMOS EX DODEKATA", aliases: &[] },
        Codepoint { codepoint: 0x1D0D7, name: "BYZANTINE MUSICAL SYMBOL YFESIS TRIGRAMMOS OKTO DODEKATA", aliases: &[] },
        Codepoint { codepoint: 0x1D0D8, name: "BYZANTINE MUSICAL SYMBOL GENIKI DIESIS", aliases: &[] },
        Codepoint { codepoint: 0x1D0D9, name: "BYZANTINE MUSICAL SYMBOL GENIKI YFESIS", aliases: &[] },
        Codepoint { codepoint: 0x1D0DA, name: "BYZANTINE MUSICAL SYMBOL DIASTOLI APLI MIKRI", aliases: &[] },
        Codepoint { codepoint: 0x1D0DB, name: "BYZANTINE MUSICAL SYMBOL DIASTOLI APLI MEGALI", aliases: &[] },
        Codepoint { codepoint: 0x1D0DC, name: "BYZANTINE MUSICAL SYMBOL DIASTOLI DIPLI", aliases: &[] },
        Codepoint { codepoint: 0x1D0DD, name: "BYZANTINE MUSICAL SYMBOL DIASTOLI THESEOS", aliases: &[] },
        Codepoint { codepoint: 0x1D0DE, name: "BYZANTINE MUSICAL SYMBOL SIMANSIS THESEOS", aliases: &[] },
        Codepoint { codepoint: 0x1D0DF, name: "BYZANTINE MUSICAL SYMBOL SIMANSIS THESEOS DISIMOU", aliases: &[] },
        Codepoint { codepoint: 0x1D0E0, name: "BYZANTINE MUSICAL SYMBOL SIMANSIS THESEOS TRISIMOU", aliases: &[] },
        Codepoint { codepoint: 0x1D0E1, name: "BYZANTINE MUSICAL SYMBOL SIMANSIS THESEOS TETRASIMOU", aliases: &[] },
        Codepoint { codepoint: 0x1D0E2, name: "BYZANTINE MUSICAL SYMBOL SIMANSIS ARSEOS", aliases: &[] },
        Codepoint { codepoint: 0x1D0E3, name: "BYZANTINE MUSICAL SYMBOL SIMANSIS ARSEOS DISIMOU", aliases: &[] },
        Codepoint { codepoint: 0x1D0E4, name: "BYZANTINE MUSICAL SYMBOL SIMANSIS ARSEOS TRISIMOU", aliases: &[] },
        Codepoint { codepoint: 0x1D0E5, name: "BYZANTINE MUSICAL SYMBOL SIMANSIS ARSEOS TETRASIMOU", aliases: &[] },
        Codepoint { codepoint: 0x1D0E6, name: "BYZANTINE MUSICAL SYMBOL DIGRAMMA GG", aliases: &[] },
        Codepoint { codepoint: 0x1D0E7, name: "BYZANTINE MUSICAL SYMBOL DIFTOGGOS OU", aliases: &[] },
        Codepoint { codepoint: 0x1D0E8, name: "BYZANTINE MUSICAL SYMBOL STIGMA", aliases: &[] },
        Codepoint { codepoint: 0x1D0E9, name: "BYZANTINE MUSICAL SYMBOL ARKTIKO PA", aliases: &[] },
        Codepoint { codepoint: 0x1D0EA, name: "BYZANTINE MUSICAL SYMBOL ARKTIKO VOU", aliases: &[] },
        Codepoint { codepoint: 0x1D0EB, name: "BYZANTINE MUSICAL SYMBOL ARKTIKO GA", aliases: &[] },
        Codepoint { codepoint: 0x1D0EC, name: "BYZANTINE MUSICAL SYMBOL ARKTIKO DI", aliases: &[] },
        Codepoint { codepoint: 0x1D0ED, name: "BYZANTINE MUSICAL SYMBOL ARKTIKO KE", aliases: &[] },
        Codepoint { codepoint: 0x1D0EE, name: "BYZANTINE MUSICAL SYMBOL ARKTIKO ZO", aliases: &[] },
        Codepoint { codepoint: 0x1D0EF, name: "BYZANTINE MUSICAL SYMBOL ARKTIKO NI", aliases: &[] },
        Codepoint { codepoint: 0x1D0F0, name: "BYZANTINE MUSICAL SYMBOL KENTIMATA NEO MESO", aliases: &[] },
        Codepoint { codepoint: 0x1D0F1, name: "BYZANTINE MUSICAL SYMBOL KENTIMA NEO MESO", aliases: &[] },
        Codepoint { codepoint: 0x1D0F2, name: "BYZANTINE MUSICAL SYMBOL KENTIMATA NEO KATO", aliases: &[] },
        Codepoint { codepoint: 0x1D0F3, name: "BYZANTINE MUSICAL SYMBOL KENTIMA NEO KATO", aliases: &[] },
        Codepoint { codepoint: 0x1D0F4, name: "BYZANTINE MUSICAL SYMBOL KLASMA KATO", aliases: &[] },
        Codepoint { codepoint: 0x1D0F5, name: "BYZANTINE MUSICAL SYMBOL GORGON NEO KATO", aliases: &[] },
        Codepoint { codepoint: 0x1D100, name: "MUSICAL SYMBOL SINGLE BARLINE", aliases: &[] },
        Codepoint { codepoint: 0x1D101, name: "MUSICAL SYMBOL DOUBLE BARLINE", aliases: &[] },
        Codepoint { codepoint: 0x1D102, name: "MUSICAL SYMBOL FINAL BARLINE", aliases: &[] },
        Codepoint { codepoint: 0x1D103, name: "MUSICAL SYMBOL REVERSE FINAL BARLINE", aliases: &[] },
        Codepoint { codepoint: 0x1D104, name: "MUSICAL SYMBOL DASHED BARLINE", aliases: &[] },
        Codepoint { codepoint: 0x1D105, name: "MUSICAL SYMBOL SHORT BARLINE", aliases: &[] },
        Codepoint { codepoint: 0x1D106, name: "MUSICAL SYMBOL LEFT REPEAT SIGN", aliases: &[] },
        Codepoint { codepoint: 0x1D107, name: "MUSICAL SYMBOL RIGHT REPEAT SIGN", aliases: &[] },
    ];
    assert(v@ =~= codepoint_table_706());
    v
}

pub open spec fn codepoint_table_707() -> Seq<Codepoint> {
    seq![
        Codepoint { codepoint: 0x1D108, name: "MUSICAL SYMBOL REPEAT DOTS", aliases: &[] },
        Codepoint { codepoint: 0x1D109, name: "MUSICAL SYMBOL DAL SEGNO", aliases: &[] },
        Codepoint { codepoint: 0x1D10A, name: "MUSICAL SYMBOL DA CAPO", aliases: &[] },
        Codepoint { codepoint: 0x1D10B, name: "MUSICAL SYMBOL SEGNO", aliases: &[] },
        Codepoint { codepoint: 0x1D10C, name: "MUSICAL SYMBOL CODA", aliases: &[] },
        Codepoint { codepoint: 0x1D10D, name: "MUSICAL SYMBOL REPEATED FIGURE-1", aliases: &[] },
        Codepoint { codepoint: 0x1D10E, name: "MUSICAL SYMBOL REPEATED FIGURE-2", aliases: &[] },
        Codepoint { codepoint: 0x1D10F, name: "MUSICAL SYMBOL REPEATED FIGURE-3", aliases: &[] },
        Codepoint { codepoint: 0x1D110, name: "MUSICAL SYMBOL FERMATA", aliases: &[] },
        Codepoint { codepoint: 0x1D111, name: "MUSICAL SYMBOL FERMATA BELOW", aliases: &[] },
        Codepoint { codepoint: 0x1D112, name: "MUSICAL SYMBOL BREATH MARK", aliases: &[] },
        Codepoint { codepoint: 0x1D113, name: "MUSICAL SYMBOL CAESURA", aliases: &[] },
        Codepoint { codepoint: 0x1D114, name: "MUSICAL SYMBOL BRACE", aliases: &[] },
        Codepoint { codepoint: 0x1D115, name: "MUSICAL SYMBOL BRACKET", aliases: &[] },
        Codepoint { codepoint: 0x1D116, name: "MUSICAL SYMBOL ONE-LINE STAFF", aliases: &[] },
        Codepoint { codepoint: 0x1D117, name: "MUSICAL SYMBOL TWO-LINE STAFF", aliases: &[] },
        Codepoint { codepoint: 0x1D118, name: "MUSICAL SYMBOL THREE-LINE STAFF", aliases: &[] },
        Codepoint { codepoint: 0x1D119, name: "MUSICAL SYMBOL FOUR-LINE STAFF", aliases: &[] },
        Codepoint { codepoint: 0x1D11A, name: "MUSICAL SYMBOL FIVE-LINE STAFF", aliases: &[] },
        Codepoint { codepoint: 0x1D11B, name: "MUSICAL SYMBOL SIX-LINE STAFF", aliases: &[] },
        Codepoint { codepoint: 0x1D11C, name: "MUSICAL SYMBOL SIX-STRING FRETBOARD", aliases: &[] },
        Codepoint { codepoint: 0x1D11D, name: "MUSICAL SYMBOL FOUR-STRING FRETBOARD", aliases: &[] },
        Codepoint { codepoint: 0x1D11E, name: "MUSICAL SYMBOL G CLEF", aliases: &[] },
        Codepoint { codepoint: 0x1D11F, name: "MUSICAL SYMBOL G CLEF OTTAVA ALTA", aliases: &[] },
        Codepoint { codepoint: 0x1D120, name: "MUSICAL SYMBOL G CLEF OTTAVA BASSA", aliases: &[] },
        Codepoint { codepoint: 0x1D121, name: "MUSICAL SYMBOL C CLEF", aliases: &[] },
        Codepoint { codepoint: 0x1D122, name: "MUSICAL SYMBOL F CLEF", aliases: &[] },
        Codepoint { codepoint: 0x1D123, name: "MUSICAL SYMBOL F CLEF OTTAVA ALTA", aliases: &[] },
        Codepoint { codepoint: 0x1D124, name: "MUSICAL SYMBOL F CLEF OTTAVA BASSA", aliases: &[] },
        Codepoint { codepoint: 0x1D125, name: "MUSICAL SYMBOL DRUM CLEF-1", aliases: &[] },
        Codepoint { codepoint: 0x1D126, name: "MUSICAL SYMBOL DRUM CLEF-2", aliases: &[] },
        Codepoint { codepoint: 0x1D129, name: "MUSICAL SYMBOL MULTIPLE MEASURE REST", aliases: &[] },
        Codepoint { codepoint: 0x1D12A, name: "MUSICAL SYMBOL DOUBLE SHARP", aliases: &[] },
        Codepoint { codepoint: 0x1D12B, name: "MUSICAL SYMBOL DOUBLE FLAT", aliases: &[] },
        Codepoint { codepoint: 0x1D12C, name: "MUSICAL SYMBOL FLAT UP", aliases: &[] },
        Codepoint { codepoint: 0x1D12D, name: "MUSICAL SYMBOL FLAT DOWN", aliases: &[] },
        Codepoint { codepoint: 0x1D12E, name: "MUSICAL SYMBOL NATURAL UP", aliases: &[] },
        Codepoint { codepoint: 0x1D12F, name: "MUSICAL SYMBOL NATURAL DOWN", aliases: &[] },
        Codepoint { codepoint: 0x1D130, name: "MUSICAL SYMBOL SHARP UP", aliases: &[] },
        Codepoint { codepoint: 0x1D131, name: "MUSICAL SYMBOL SHARP DOWN", aliases: &[] },
    ]
}

fn all_codepoints_707() -> (v: Vec<Codepoint>)
    ensures
        v@ == codepoint_table_707(),
{
    let v = vec![
        Codepoint { codepoint: 0x1D108, name: "MUSICAL SYMBOL REPEAT DOTS", aliases: &[] },
        Codepoint { codepoint: 0x1D109, name: "MUSICAL SYMBOL DAL SEGNO", aliases: &[] },
        Codepoint { codepoint: 0x1D10A, name: "MUSICAL SYMBOL DA CAPO", aliases: &[] },
        Codepoint { codepoint: 0x1D10B, name: "MUSICAL SYMBOL SEGNO", aliases: &[] },
        Codepoint { codepoint: 0x1D10C, name: "MUSICAL SYMBOL CODA", aliases: &[] },
        Codepoint { codepoint: 0x1D10D, name: "MUSICAL SYMBOL REPEATED FIGURE-1", aliases: &[] },
        Codepoint { codepoint: 0x1D10E, name: "MUSICAL SYMBOL REPEATED FIGURE-2", aliases: &[] },
        Codepoint { codepoint: 0x1D10F, name: "MUSICAL SYMBOL REPEATED FIGURE-3", aliases: &[] },
        Codepoint { codepoint: 0x1D110, name: "MUSICAL SYMBOL FERMATA", aliases: &[] },
        Codepoint { codepoint: 0x1D111, name: "MUSICAL SYMBOL FERMATA BELOW", aliases: &[] },
        Codepoint { codepoint: 0x1D112, name: "MUSICAL SYMBOL BREATH MARK", aliases: &[] },
        Codepoint { codepoint: 0x1D113, name: "MUSICAL SYMBOL CAESURA", aliases: &[] },
        Codepoint { codepoint: 0x1D114, name: "MUSICAL SYMBOL BRACE", aliases: &[] },
        Codepoint { codepoint: 0x1D115, name: "MUSICAL SYMBOL BRACKET", aliases: &[] },
        Codepoint { codepoint: 0x1D116, name: "MUSICAL SYMBOL ONE-LINE STAFF", aliases: &[] },
        Codepoint { codepoint: 0x1D117, name: "MUSICAL SYMBOL TWO-LINE STAFF", aliases: &[] },
        Codepoint { codepoint: 0x1D118, name: "MUSICAL SYMBOL THREE-LINE STAFF", aliases: &[] },
        Codepoint { codepoint: 0x1D119, name: "MUSICAL SYMBOL FOUR-LINE STAFF", aliases: &[] },
        Codepoint { codepoint: 0x1D11A, name: "MUSICAL SYMBOL FIVE-LINE STAFF", aliases: &[] },
        Codepoint { codepoint: 0x1D11B, name: "MUSICAL SYMBOL SIX-LINE STAFF", aliases: &[] },
        Codepoint { codepoint: 0x1D11C, name: "MUSICAL SYMBOL SIX-STRING FRETBOARD", aliases: &[] },
        Codepoint { codepoint: 0x1D11D, name: "MUSICAL SYMBOL FOUR-STRING FRETBOARD", aliases: &[] },
        Codepoint { codepoint: 0x1D11E, name: "MUSICAL SYMBOL G CLEF", aliases: &[] },
        Codepoint { codepoint: 0x1D11F, name: "MUSICAL SYMBOL G CLEF OTTAVA ALTA", aliases: &[] },
        Codepoint { codepoint: 0x1D120, name: "MUSICAL SYMBOL G CLEF OTTAVA BASSA", aliases: &[] },
        Codepoint { codepoint: 0x1D121, name: "MUSICAL SYMBOL C CLEF", aliases: &[] },
        Codepoint { codepoint: 0x1D122, name: "MUSICAL SYMBOL F CLEF", aliases: &[] },
        Codepoint { codepoint: 0x1D123, name: "MUSICAL SYMBOL F CLEF OTTAVA ALTA", aliases: &[] },
        Codepoint { codepoint: 0x1D124, name: "MUSICAL SYMBOL F CLEF OTTAVA BASSA", aliases: &[] },
        Codepoint { codepoint: 0x1D125, name: "MUSICAL SYMBOL DRUM CLEF-1", aliases: &[] },
        Codepoint { codepoint: 0x1D126, name: "MUSICAL SYMBOL DRUM CLEF-2", aliases: &[] },
        Codepoint { codepoint: 0x1D129, name: "MUSICAL SYMBOL MULTIPLE MEASURE REST", aliases: &[] },
        Codepoint { codepoint: 0x1D12A, name: "MUSICAL SYMBOL DOUBLE SHARP", aliases: &[] },
        Codepoint { codepoint: 0x1D12B, name: "MUSICAL SYMBOL DOUBLE FLAT", aliases: &[] },
        Codepoint { codepoint: 0x1D12C, name: "MUSICAL SYMBOL FLAT UP", aliases: &[] },
        Codepoint { codepoint: 0x1D12D, name: "MUSICAL SYMBOL FLAT DOWN", aliases: &[] },
        Codepoint { codepoint: 0x1D12E, name: "MUSICAL SYMBOL NATURAL UP", aliases: &[] },
        Codepoint { codepoint: 0x1D12F, name: "MUSICAL SYMBOL NATURAL DOWN", aliases: &[] },
        Codepoint { codepoint: 0x1D130, name: "MUSICAL SYMBOL SHARP UP", aliases: &[] },
        Codepoint { codepoint: 0x1D131, name: "MUSICAL SYMBOL SHARP DOWN", aliases: &[] },
    ];
    assert(v@ =~= codepoint_table_707());
    v
}

pub open spec fn codepoint_table_708() -> Seq<Codepoint> {
    seq![
        Codepoint { codepoint: 0x1D132, name: "MUSICAL SYMBOL QUARTER TONE SHARP", aliases: &[] },
        Codepoint { codepoint: 0x1D133, name: "MUSICAL SYMBOL QUARTER TONE FLAT", aliases: &[] },
        Codepoint { codepoint: 0x1D134, name: "MUSICAL SYMBOL COMMON TIME", aliases: &[] },
        Codepoint { codepoint: 0x1D135, name: "MUSICAL SYMBOL CUT TIME", aliases: &[] },
        Codepoint { codepoint: 0x1D136, name: "MUSICAL SYMBOL OTTAVA ALTA", aliases: &[] },
        Codepoint { codepoint: 0x1D137, name: "MUSICAL SYMBOL OTTAVA BASSA", aliases: &[] },
        Codepoint { codepoint: 0x1D138, name: "MUSICAL SYMBOL QUINDICESIMA ALTA", aliases: &[] },
        Codepoint { codepoint: 0x1D139, name: "MUSICAL SYMBOL QUINDICESIMA BASSA", aliases: &[] },
        Codepoint { codepoint: 0x1D13A, name: "MUSICAL SYMBOL MULTI REST", aliases: &[] },
        Codepoint { codepoint: 0x1D13B, name: "MUSICAL SYMBOL WHOLE REST", aliases: &[] },
        Codepoint { codepoint: 0x1D13C, name: "MUSICAL SYMBOL HALF REST", aliases: &[] },
        Codepoint { codepoint: 0x1D13D, name: "MUSICAL SYMBOL QUARTER REST", aliases: &[] },
        Codepoint { codepoint: 0x1D13E, name: "MUSICAL SYMBOL EIGHTH REST", aliases: &[] },
        Codepoint { codepoint: 0x1D13F, name: "MUSICAL SYMBOL SIXTEENTH REST", aliases: &[] },
        Codepoint { codepoint: 0x1D140, name: "MUSICAL SYMBOL THIRTY-SECOND REST", aliases: &[] },
        Codepoint { codepoint: 0x1D141, name: "MUSICAL SYMBOL SIXTY-FOURTH REST", aliases: &[] },
        Codepoint { codepoint: 0x1D142, name: "MUSICAL SYMBOL ONE HUNDRED TWENTY-EIGHTH REST", aliases: &[] },
        Codepoint { codepoint: 0x1D143, name: "MUSICAL SYMBOL X NOTEHEAD", aliases: &[] },
        Codepoint { codepoint: 0x1D144, name: "MUSICAL SYMBOL PLUS NOTEHEAD", aliases: &[] },
        Codepoint { codepoint: 0x1D145, name: "MUSICAL SYMBOL CIRCLE X NOTEHEAD", aliases: &[] },
        Codepoint { codepoint: 0x1D146, name: "MUSICAL SYMBOL SQUARE NOTEHEAD WHITE", aliases: &[] },
        Codepoint { codepoint: 0x1D147, name: "MUSICAL SYMBOL SQUARE NOTEHEAD BLACK", aliases: &[] },
        Codepoint { codepoint: 0x1D148, name: "MUSICAL SYMBOL TRIANGLE NOTEHEAD UP WHITE", aliases: &[] },
        Codepoint { codepoint: 0x1D149, name: "MUSICAL SYMBOL TRIANGLE NOTEHEAD UP BLACK", aliases: &[] },
        Codepoint { codepoint: 0x1D14A, name: "MUSICAL SYMBOL TRIANGLE NOTEHEAD LEFT WHITE", aliases: &[] },
        Codepoint { codepoint: 0x1D14B, name: "MUSICAL SYMBOL TRIANGLE NOTEHEAD LEFT BLACK", aliases: &[] },
        Codepoint { codepoint: 0x1D14C, name: "MUSICAL SYMBOL TRIANGLE NOTEHEAD RIGHT WHITE", aliases: &[] },
        Codepoint { codepoint: 0x1D14D, name: "MUSICAL SYMBOL TRIANGLE NOTEHEAD RIGHT BLACK", aliases: &[] },
        Codepoint { codepoint: 0x1D14E, name: "MUSICAL SYMBOL TRIANGLE NOTEHEAD DOWN WHITE", aliases: &[] },
        Codepoint { codepoint: 0x1D14F, name: "MUSICAL SYMBOL TRIANGLE NOTEHEAD DOWN BLACK", aliases: &[] },
        Codepoint { codepoint: 0x1D150, name: "MUSICAL SYMBOL TRIANGLE NOTEHEAD UP RIGHT WHITE", aliases: &[] },
        Codepoint { codepoint: 0x1D151, name: "MUSICAL SYMBOL TRIANGLE NOTEHEAD UP RIGHT BLACK", aliases: &[] },
        Codepoint { codepoint: 0x1D152, name: "MUSICAL SYMBOL MOON NOTEHEAD WHITE", aliases: &[] },
        Codepoint { codepoint: 0x1D153, name: "MUSICAL SYMBOL MOON NOTEHEAD BLACK", aliases: &[] },
        Codepoint { codepoint: 0x1D154, name: "MUSICAL SYMBOL TRIANGLE-ROUND NOTEHEAD DOWN WHITE", aliases: &[] },
        Codepoint { codepoint: 0x1D155, name: "MUSICAL SYMBOL TRIANGLE-ROUND NOTEHEAD DOWN BLACK", aliases: &[] },
        Codepoint { codepoint: 0x1D156, name: "MUSICAL SYMBOL PARENTHESIS NOTEHEAD", aliases: &[] },
        Codepoint { codepoint: 0x1D157, name: "MUSICAL SYMBOL VOID NOTEHEAD", aliases: &[] },
        Codepoint { codepoint: 0x1D158, name: "MUSICAL SYMBOL NOTEHEAD BLACK", aliases: &[] },
        Codepoint { codepoint: 0x1D159, name: "MUSICAL SYMBOL NULL NOTEHEAD", aliases: &[] },
    ]
}

fn all_codepoints_708() -> (v: Vec<Codepoint>)
    ensures
        v@ == codepoint_table_708(),
{
    let v = vec![
        Codepoint { codepoint: 0x1D132, name: "MUSICAL SYMBOL QUARTER TONE SHARP", aliases: &[] },
        Codepoint { codepoint: 0x1D133, name: "MUSICAL SYMBOL QUARTER TONE FLAT", aliases: &[] },
        Codepoint { codepoint: 0x1D134, name: "MUSICAL SYMBOL COMMON TIME", aliases: &[] },
        Codepoint { codepoint: 0x1D135, name: "MUSICAL SYMBOL CUT TIME", aliases: &[] },
        Codepoint { codepoint: 0x1D136, name: "MUSICAL SYMBOL OTTAVA ALTA", aliases: &[] },
        Codepoint { codepoint: 0x1D137, name: "MUSICAL SYMBOL OTTAVA BASSA", aliases: &[] },
        Codepoint { codepoint: 0x1D138, name: "MUSICAL SYMBOL QUINDICESIMA ALTA", aliases: &[] },
        Codepoint { codepoint: 0x1D139, name: "MUSICAL SYMBOL QUINDICESIMA BASSA", aliases: &[] },
        Codepoint { codepoint: 0x1D13A, name: "MUSICAL SYMBOL MULTI REST", aliases: &[] },
        Codepoint { codepoint: 0x1D13B, name: "MUSICAL SYMBOL WHOLE REST", aliases: &[] },
        Codepoint { codepoint: 0x1D13C, name: "MUSICAL SYMBOL HALF REST", aliases: &[] },
        Codepoint { codepoint: 0x1D13D, name: "MUSICAL SYMBOL QUARTER REST", aliases: &[] },
        Codepoint { codepoint: 0x1D13E, name: "MUSICAL SYMBOL EIGHTH REST", aliases: &[] },
        Codepoint { codepoint: 0x1D13F, name: "MUSICAL SYMBOL SIXTEENTH REST", aliases: &[] },
        Codepoint { codepoint: 0x1D140, name: "MUSICAL SYMBOL THIRTY-SECOND REST", aliases: &[] },
        Codepoint { codepoint: 0x1D141, name: "MUSICAL SYMBOL SIXTY-FOURTH REST", aliases: &[] },
        Codepoint { codepoint: 0x1D142, name: "MUSICAL SYMBOL ONE HUNDRED TWENTY-EIGHTH REST", aliases: &[] },
        Codepoint { codepoint: 0x1D143, name: "MUSICAL SYMBOL X NOTEHEAD", aliases: &[] },
        Codepoint { codepoint: 0x1D144, name: "MUSICAL SYMBOL PLUS NOTEHEAD", aliases: &[] },
        Codepoint { codepoint: 0x1D145, name: "MUSICAL SYMBOL CIRCLE X NOTEHEAD", aliases: &[] },
        Codepoint { codepoint: 0x1D146, name: "MUSICAL SYMBOL SQUARE NOTEHEAD WHITE", aliases: &[] },
        Codepoint { codepoint: 0x1D147, name: "MUSICAL SYMBOL SQUARE NOTEHEAD BLACK", aliases: &[] },
        Codepoint { codepoint: 0x1D148, name: "MUSICAL SYMBOL TRIANGLE NOTEHEAD UP WHITE", aliases: &[] },
        Codepoint { codepoint: 0x1D149, name: "MUSICAL SYMBOL TRIANGLE NOTEHEAD UP BLACK", aliases: &[] },
        Codepoint { codepoint: 0x1D14A, name: "MUSICAL SYMBOL TRIANGLE NOTEHEAD LEFT WHITE", aliases: &[] },
        Codepoint { codepoint: 0x1D14B, name: "MUSICAL SYMBOL TRIANGLE NOTEHEAD LEFT BLACK", aliases: &[] },
        Codepoint { codepoint: 0x1D14C, name: "MUSICAL SYMBOL TRIANGLE NOTEHEAD RIGHT WHITE", aliases: &[] },
        Codepoint { codepoint: 0x1D14D, name: "MUSICAL SYMBOL TRIANGLE NOTEHEAD RIGHT BLACK", aliases: &[] },
        Codepoint { codepoint: 0x1D14E, name: "MUSICAL SYMBOL TRIANGLE NOTEHEAD DOWN WHITE", aliases: &[] },
        Codepoint { codepoint: 0x1D14F, name: "MUSICAL SYMBOL TRIANGLE NOTEHEAD DOWN BLACK", aliases: &[] },
        Codepoint { codepoint: 0x1D150, name: "MUSICAL SYMBOL TRIANGLE NOTEHEAD UP RIGHT WHITE", aliases: &[] },
        Codepoint { codepoint: 0x1D151, name: "MUSICAL SYMBOL TRIANGLE NOTEHEAD UP RIGHT BLACK", aliases: &[] },
        Codepoint { codepoint: 0x1D152, name: "MUSICAL SYMBOL MOON NOTEHEAD WHITE", aliases: &[] },
        Codepoint { codepoint: 0x1D153, name: "MUSICAL SYMBOL MOON NOTEHEAD BLACK", aliases: &[] },
        Codepoint { codepoint: 0x1D154, name: "MUSICAL SYMBOL TRIANGLE-ROUND NOTEHEAD DOWN WHITE", aliases: &[] },
        Codepoint { codepoint: 0x1D155, name: "MUSICAL SYMBOL TRIANGLE-ROUND NOTEHEAD DOWN BLACK", aliases: &[] },
        Codepoint { codepoint: 0x1D156, name: "MUSICAL SYMBOL PARENTHESIS NOTEHEAD", aliases: &[] },
        Codepoint { codepoint: 0x1D157, name: "MUSICAL SYMBOL VOID NOTEHEAD", aliases: &[] },
        Codepoint { codepoint: 0x1D158, name: "MUSICAL SYMBOL NOTEHEAD BLACK", aliases: &[] },
        Codepoint { codepoint: 0x1D159, name: "MUSICAL SYMBOL NULL NOTEHEAD", aliases: &[] },
    ];
    assert(v@ =~= codepoint_table_708());
    v
}

pub open spec fn codepoint_table_709() -> Seq<Codepoint> {
    seq![
        Codepoint { codepoint: 0x1D15A, name: "MUSICAL SYMBOL CLUSTER NOTEHEAD WHITE", aliases: &[] },
        Codepoint { codepoint: 0x1D15B, name: "MUSICAL SYMBOL CLUSTER NOTEHEAD BLACK", aliases: &[] },
        Codepoint { codepoint: 0x1D15C, name: "MUSICAL SYMBOL BREVE", aliases: &[] },
        Codepoint { codepoint: 0x1D15D, name: "MUSICAL SYMBOL WHOLE NOTE", aliases: &[] },
        Codepoint { codepoint: 0x1D15E, name: "MUSICAL SYMBOL HALF NOTE", aliases: &[] },
        Codepoint { codepoint: 0x1D15F, name: "MUSICAL SYMBOL QUARTER NOTE", aliases: &[] },
        Codepoint { codepoint: 0x1D160, name: "MUSICAL SYMBOL EIGHTH NOTE", aliases: &[] },
        Codepoint { codepoint: 0x1D161, name: "MUSICAL SYMBOL SIXTEENTH NOTE", aliases: &[] },
        Codepoint { codepoint: 0x1D162, name: "MUSICAL SYMBOL THIRTY-SECOND NOTE", aliases: &[] },
        Codepoint { codepoint: 0x1D163, name: "MUSICAL SYMBOL SIXTY-FOURTH NOTE", aliases: &[] },
        Codepoint { codepoint: 0x1D164, name: "MUSICAL SYMBOL ONE HUNDRED TWENTY-EIGHTH NOTE", aliases: &[] },
        Codepoint { codepoint: 0x1D165, name: "MUSICAL SYMBOL COMBINING STEM", aliases: &[] },
        Codepoint { codepoint: 0x1D166, name: "MUSICAL SYMBOL COMBINING SPRECHGESANG STEM", aliases: &[] },
        Codepoint { codepoint: 0x1D167, name: "MUSICAL SYMBOL COMBINING TREMOLO-1", aliases: &[] },
        Codepoint { codepoint: 0x1D168, name: "MUSICAL SYMBOL COMBINING TREMOLO-2", aliases: &[] },
        Codepoint { codepoint: 0x1D169, name: "MUSICAL SYMBOL COMBINING TREMOLO-3", aliases: &[] },
        Codepoint { codepoint: 0x1D16A, name: "MUSICAL SYMBOL FINGERED TREMOLO-1", aliases: &[] },
        Codepoint { codepoint: 0x1D16B, name: "MUSICAL SYMBOL FINGERED TREMOLO-2", aliases: &[] },
        Codepoint { codepoint: 0x1D16C, name: "MUSICAL SYMBOL FINGERED TREMOLO-3", aliases: &[] },
        Codepoint { codepoint: 0x1D16D, name: "MUSICAL SYMBOL COMBINING AUGMENTATION DOT", aliases: &[] },
        Codepoint { codepoint: 0x1D16E, name: "MUSICAL SYMBOL COMBINING FLAG-1", aliases: &[] },
        Codepoint { codepoint: 0x1D16F, name: "MUSICAL SYMBOL COMBINING FLAG-2", aliases: &[] },
        Codepoint { codepoint: 0x1D170, name: "MUSICAL SYMBOL COMBINING FLAG-3", aliases: &[] },
        Codepoint { codepoint: 0x1D171, name: "MUSICAL SYMBOL COMBINING FLAG-4", aliases: &[] },
        Codepoint { codepoint: 0x1D172, name: "MUSICAL SYMBOL COMBINING FLAG-5", aliases: &[] },
        Codepoint { codepoint: 0x1D173, name: "MUSICAL SYMBOL BEGIN BEAM", aliases: &[] },
        Codepoint { codepoint: 0x1D174, name: "MUSICAL SYMBOL END BEAM", aliases: &[] },
        Codepoint { codepoint: 0x1D175, name: "MUSICAL SYMBOL BEGIN TIE", aliases: &[] },
        Codepoint { codepoint: 0x1D176, name: "MUSICAL SYMBOL END TIE", aliases: &[] },
        Codepoint { codepoint: 0x1D177, name: "MUSICAL SYMBOL BEGIN SLUR", aliases: &[] },
        Codepoint { codepoint: 0x1D178, name: "MUSICAL SYMBOL END SLUR", aliases: &[] },
        Codepoint { codepoint: 0x1D179, name: "MUSICAL SYMBOL BEGIN PHRASE", aliases: &[] },
        Codepoint { codepoint: 0x1D17A, name: "MUSICAL SYMBOL END PHRASE", aliases: &[] },
        Codepoint { codepoint: 0x1D17B, name: "MUSICAL SYMBOL COMBINING ACCENT", aliases: &[] },
        Codepoint { codepoint: 0x1D17C, name: "MUSICAL SYMBOL COMBINING STACCATO", aliases: &[] },
        Codepoint { codepoint: 0x1D17D, name: "MUSICAL SYMBOL COMBINING TENUTO", aliases: &[] },
        Codepoint { codepoint: 0x1D17E, name: "MUSICAL SYMBOL COMBINING STACCATISSIMO", aliases: &[] },
        Codepoint { codepoint: 0x1D17F, name: "MUSICAL SYMBOL COMBINING MARCATO", aliases: &[] },
        Codepoint { codepoint: 0x1D180, name: "MUSICAL SYMBOL COMBINING MARCATO-STACCATO", aliases: &[] },
        Codepoint { codepoint: 0x1D181, name: "MUSICAL SYMBOL COMBINING ACCENT-STACCATO", aliases: &[] },
    ]
}

fn all_codepoints_709() -> (v: Vec<Codepoint>)
    ensures
        v@ == codepoint_table_709(),
{
    let v = vec![
        Codepoint { codepoint: 0x1D15A, name: "MUSICAL SYMBOL CLUSTER NOTEHEAD WHITE", aliases: &[] },
        Codepoint { codepoint: 0x1D15B, name: "MUSICAL SYMBOL CLUSTER NOTEHEAD BLACK", aliases: &[] },
        Codepoint { codepoint: 0x1D15C, name: "MUSICAL SYMBOL BREVE", aliases: &[] },
        Codepoint { codepoint: 0x1D15D, name: "MUSICAL SYMBOL WHOLE NOTE", aliases: &[] },
        Codepoint { codepoint: 0x1D15E, name: "MUSICAL SYMBOL HALF NOTE", aliases: &[] },
        Codepoint { codepoint: 0x1D15F, name: "MUSICAL SYMBOL QUARTER NOTE", aliases: &[] },
        Codepoint { codepoint: 0x1D160, name: "MUSICAL SYMBOL EIGHTH NOTE", aliases: &[] },
        Codepoint { codepoint: 0x1D161, name: "MUSICAL SYMBOL SIXTEENTH NOTE", aliases: &[] },
        Codepoint { codepoint: 0x1D162, name: "MUSICAL SYMBOL THIRTY-SECOND NOTE", aliases: &[] },
        Codepoint { codepoint: 0x1D163, name: "MUSICAL SYMBOL SIXTY-FOURTH NOTE", aliases: &[] },
        Codepoint { codepoint: 0x1D164, name: "MUSICAL SYMBOL ONE HUNDRED TWENTY-EIGHTH NOTE", aliases: &[] },
        Codepoint { codepoint: 0x1D165, name: "MUSICAL SYMBOL COMBINING STEM", aliases: &[] },
        Codepoint { codepoint: 0x1D166, name: "MUSICAL SYMBOL COMBINING SPRECHGESANG STEM", aliases: &[] },
        Codepoint { codepoint: 0x1D167, name: "MUSICAL SYMBOL COMBINING TREMOLO-1", aliases: &[] },
        Codepoint { codepoint: 0x1D168, name: "MUSICAL SYMBOL COMBINING TREMOLO-2", aliases: &[] },
        Codepoint { codepoint: 0x1D169, name: "MUSICAL SYMBOL COMBINING TREMOLO-3", aliases: &[] },
        Codepoint { codepoint: 0x1D16A, name: "MUSICAL SYMBOL FINGERED TREMOLO-1", aliases: &[] },
        Codepoint { codepoint: 0x1D16B, name: "MUSICAL SYMBOL FINGERED TREMOLO-2", aliases: &[] },
        Codepoint { codepoint: 0x1D16C, name: "MUSICAL SYMBOL FINGERED TREMOLO-3", aliases: &[] },
        Codepoint { codepoint: 0x1D16D, name: "MUSICAL SYMBOL COMBINING AUGMENTATION DOT", aliases: &[] },
        Codepoint { codepoint: 0x1D16E, name: "MUSICAL SYMBOL COMBINING FLAG-1", aliases: &[] },
        Codepoint { codepoint: 0x1D16F, name: "MUSICAL SYMBOL COMBINING FLAG-2", aliases: &[] },
        Codepoint { codepoint: 0x1D170, name: "MUSICAL SYMBOL COMBINING FLAG-3", aliases: &[] },
        Codepoint { codepoint: 0x1D171, name: "MUSICAL SYMBOL COMBINING FLAG-4", aliases: &[] },
        Codepoint { codepoint: 0x1D172, name: "MUSICAL SYMBOL COMBINING FLAG-5", aliases: &[] },
        Codepoint { codepoint: 0x1D173, name: "MUSICAL SYMBOL BEGIN BEAM", aliases: &[] },
        Codepoint { codepoint: 0x1D174, name: "MUSICAL SYMBOL END BEAM", aliases: &[] },
        Codepoint { codepoint: 0x1D175, name: "MUSICAL SYMBOL BEGIN TIE", aliases: &[] },
        Codepoint { codepoint: 0x1D176, name: "MUSICAL SYMBOL END TIE", aliases: &[] },
        Codepoint { codepoint: 0x1D177, name: "MUSICAL SYMBOL BEGIN SLUR", aliases: &[] },
        Codepoint { codepoint: 0x1D178, name: "MUSICAL SYMBOL END SLUR", aliases: &[] },
        Codepoint { codepoint: 0x1D179, name: "MUSICAL SYMBOL BEGIN PHRASE", aliases: &[] },
        Codepoint { codepoint: 0x1D17A, name: "MUSICAL SYMBOL END PHRASE", aliases: &[] },
        Codepoint { codepoint: 0x1D17B, name: "MUSICAL SYMBOL COMBINING ACCENT", aliases: &[] },
        Codepoint { codepoint: 0x1D17C, name: "MUSICAL SYMBOL COMBINING STACCATO", aliases: &[] },
        Codepoint { codepoint: 0x1D17D, name: "MUSICAL SYMBOL COMBINING TENUTO", aliases: &[] },
        Codepoint { codepoint: 0x1D17E, name: "MUSICAL SYMBOL COMBINING STACCATISSIMO", aliases: &[] },
        Codepoint { codepoint: 0x1D17F, name: "MUSICAL SYMBOL COMBINING MARCATO", aliases: &[] },
        Codepoint { codepoint: 0x1D180, name: "MUSICAL SYMBOL COMBINING MARCATO-STACCATO", aliases: &[] },
        Codepoint { codepoint: 0x1D181, name: "MUSICAL SYMBOL COMBINING ACCENT-STACCATO", aliases: &[] },
    ];
    assert(v@ =~= codepoint_table_709());
    v
}

pub open spec fn codepoint_table_710() -> Seq<Codepoint> {
    seq![
        Codepoint { codepoint: 0x1D182, name: "MUSICAL SYMBOL COMBINING LOURE", aliases: &[] },
        Codepoint { codepoint: 0x1D183, name: "MUSICAL SYMBOL ARPEGGIATO UP", aliases: &[] },
        Codepoint { codepoint: 0x1D184, name: "MUSICAL SYMBOL ARPEGGIATO DOWN", aliases: &[] },
        Codepoint { codepoint: 0x1D185, name: "MUSICAL SYMBOL COMBINING DOIT", aliases: &[] },
        Codepoint { codepoint: 0x1D186, name: "MUSICAL SYMBOL COMBINING RIP", aliases: &[] },
        Codepoint { codepoint: 0x1D187, name: "MUSICAL SYMBOL COMBINING FLIP", aliases: &[] },
        Codepoint { codepoint: 0x1D188, name: "MUSICAL SYMBOL COMBINING SMEAR", aliases: &[] },
        Codepoint { codepoint: 0x1D189, name: "MUSICAL SYMBOL COMBINING BEND", aliases: &[] },
        Codepoint { codepoint: 0x1D18A, name: "MUSICAL SYMBOL COMBINING DOUBLE TONGUE", aliases: &[] },
        Codepoint { codepoint: 0x1D18B, name: "MUSICAL SYMBOL COMBINING TRIPLE TONGUE", aliases: &[] },
        Codepoint { codepoint: 0x1D18C, name: "MUSICAL SYMBOL RINFORZANDO", aliases: &[] },
        Codepoint { codepoint: 0x1D18D, name: "MUSICAL SYMBOL SUBITO", aliases: &[] },
        Codepoint { codepoint: 0x1D18E, name: "MUSICAL SYMBOL Z", aliases: &[] },
        Codepoint { codepoint: 0x1D18F, name: "MUSICAL SYMBOL PIANO", aliases: &[] },
        Codepoint { codepoint: 0x1D190, name: "MUSICAL SYMBOL MEZZO", aliases: &[] },
        Codepoint { codepoint: 0x1D191, name: "MUSICAL SYMBOL FORTE", aliases: &[] },
        Codepoint { codepoint: 0x1D192, name: "MUSICAL SYMBOL CRESCENDO", aliases: &[] },
        Codepoint { codepoint: 0x1D193, name: "MUSICAL SYMBOL DECRESCENDO", aliases: &[] },
        Codepoint { codepoint: 0x1D194, name: "MUSICAL SYMBOL GRACE NOTE SLASH", aliases: &[] },
        Codepoint { codepoint: 0x1D195, name: "MUSICAL SYMBOL GRACE NOTE NO SLASH", aliases: &[] },
        Codepoint { codepoint: 0x1D196, name: "MUSICAL SYMBOL TR", aliases: &[] },
        Codepoint { codepoint: 0x1D197, name: "MUSICAL SYMBOL TURN", aliases: &[] },
        Codepoint { codepoint: 0x1D198, name: "MUSICAL SYMBOL INVERTED TURN", aliases: &[] },
        Codepoint { codepoint: 0x1D199, name: "MUSICAL SYMBOL TURN SLASH", aliases: &[] },
        Codepoint { codepoint: 0x1D19A, name: "MUSICAL SYMBOL TURN UP", aliases: &[] },
        Codepoint { codepoint: 0x1D19B, name: "MUSICAL SYMBOL ORNAMENT STROKE-1", aliases: &[] },
        Codepoint { codepoint: 0x1D19C, name: "MUSICAL SYMBOL ORNAMENT STROKE-2", aliases: &[] },
        Codepoint { codepoint: 0x1D19D, name: "MUSICAL SYMBOL ORNAMENT STROKE-3", aliases: &[] },
        Codepoint { codepoint: 0x1D19E, name: "MUSICAL SYMBOL ORNAMENT STROKE-4", aliases: &[] },
        Codepoint { codepoint: 0x1D19F, name: "MUSICAL SYMBOL ORNAMENT STROKE-5", aliases: &[] },
        Codepoint { codepoint: 0x1D1A0, name: "MUSICAL SYMBOL ORNAMENT STROKE-6", aliases: &[] },
        Codepoint { codepoint: 0x1D1A1, name: "MUSICAL SYMBOL ORNAMENT STROKE-7", aliases: &[] },
        Codepoint { codepoint: 0x1D1A2, name: "MUSICAL SYMBOL ORNAMENT STROKE-8", aliases: &[] },
        Codepoint { codepoint: 0x1D1A3, name: "MUSICAL SYMBOL ORNAMENT STROKE-9", aliases: &[] },
        Codepoint { codepoint: 0x1D1A4, name: "MUSICAL SYMBOL ORNAMENT STROKE-10", aliases: &[] },
        Codepoint { codepoint: 0x1D1A5, name: "MUSICAL SYMBOL ORNAMENT STROKE-11", aliases: &[] },
        Codepoint { codepoint: 0x1D1A6, name: "MUSICAL SYMBOL HAUPTSTIMME", aliases: &[] },
        Codepoint { codepoint: 0x1D1A7, name: "MUSICAL SYMBOL NEBENSTIMME", aliases: &[] },
        Codepoint { codepoint: 0x1D1A8, name: "MUSICAL SYMBOL END OF STIMME", aliases: &[] },
        Codepoint { codepoint: 0x1D1A9, name: "MUSICAL SYMBOL DEGREE SLASH", aliases: &[] },
    ]
}

fn all_codepoints_710() -> (v: Vec<Codepoint>)
    ensures
        v@ == codepoint_table_710(),
{
    let v = vec![
        Codepoint { codepoint: 0x1D182, name: "MUSICAL SYMBOL COMBINING LOURE", aliases: &[] },
        Codepoint { codepoint: 0x1D183, name: "MUSICAL SYMBOL ARPEGGIATO UP", aliases: &[] },
        Codepoint { codepoint: 0x1D184, name: "MUSICAL SYMBOL ARPEGGIATO DOWN", aliases: &[] },
        Codepoint { codepoint: 0x1D185, name: "MUSICAL SYMBOL COMBINING DOIT", aliases: &[] },
        Codepoint { codepoint: 0x1D186, name: "MUSICAL SYMBOL COMBINING RIP", aliases: &[] },
        Codepoint { codepoint: 0x1D187, name: "MUSICAL SYMBOL COMBINING FLIP", aliases: &[] },
        Codepoint { codepoint: 0x1D188, name: "MUSICAL SYMBOL COMBINING SMEAR", aliases: &[] },
        Codepoint { codepoint: 0x1D189, name: "MUSICAL SYMBOL COMBINING BEND", aliases: &[] },
        Codepoint { codepoint: 0x1D18A, name: "MUSICAL SYMBOL COMBINING DOUBLE TONGUE", aliases: &[] },
        Codepoint { codepoint: 0x1D18B, name: "MUSICAL SYMBOL COMBINING TRIPLE TONGUE", aliases: &[] },
        Codepoint { codepoint: 0x1D18C, name: "MUSICAL SYMBOL RINFORZANDO", aliases: &[] },
        Codepoint { codepoint: 0x1D18D, name: "MUSICAL SYMBOL SUBITO", aliases: &[] },
        Codepoint { codepoint: 0x1D18E, name: "MUSICAL SYMBOL Z", aliases: &[] },
        Codepoint { codepoint: 0x1D18F, name: "MUSICAL SYMBOL PIANO", aliases: &[] },
        Codepoint { codepoint: 0x1D190, name: "MUSICAL SYMBOL MEZZO", aliases: &[] },
        Codepoint { codepoint: 0x1D191, name: "MUSICAL SYMBOL FORTE", aliases: &[] },
        Codepoint { codepoint: 0x1D192, name: "MUSICAL SYMBOL CRESCENDO", aliases: &[] },
        Codepoint { codepoint: 0x1D193, name: "MUSICAL SYMBOL DECRESCENDO", aliases: &[] },
        Codepoint { codepoint: 0x1D194, name: "MUSICAL SYMBOL GRACE NOTE SLASH", aliases: &[] },
        Codepoint { codepoint: 0x1D195, name: "MUSICAL SYMBOL GRACE NOTE NO SLASH", aliases: &[] },
        Codepoint { codepoint: 0x1D196, name: "MUSICAL SYMBOL TR", aliases: &[] },
        Codepoint { codepoint: 0x1D197, name: "MUSICAL SYMBOL TURN", aliases: &[] },
        Codepoint { codepoint: 0x1D198, name: "MUSICAL SYMBOL INVERTED TURN", aliases: &[] },
        Codepoint { codepoint: 0x1D199, name: "MUSICAL SYMBOL TURN SLASH", aliases: &[] },
        Codepoint { codepoint: 0x1D19A, name: "MUSICAL SYMBOL TURN UP", aliases: &[] },
        Codepoint { codepoint: 0x1D19B, name: "MUSICAL SYMBOL ORNAMENT STROKE-1", aliases: &[] },
        Codepoint { codepoint: 0x1D19C, name: "MUSICAL SYMBOL ORNAMENT STROKE-2", aliases: &[] },
        Codepoint { codepoint: 0x1D19D, name: "MUSICAL SYMBOL ORNAMENT STROKE-3", aliases: &[] },
        Codepoint { codepoint: 0x1D19E, name: "MUSICAL SYMBOL ORNAMENT STROKE-4", aliases: &[] },
        Codepoint { codepoint: 0x1D19F, name: "MUSICAL SYMBOL ORNAMENT STROKE-5", aliases: &[] },
        Codepoint { codepoint: 0x1D1A0, name: "MUSICAL SYMBOL ORNAMENT STROKE-6", aliases: &[] },
        Codepoint { codepoint: 0x1D1A1, name: "MUSICAL SYMBOL ORNAMENT STROKE-7", aliases: &[] },
        Codepoint { codepoint: 0x1D1A2, name: "MUSICAL SYMBOL ORNAMENT STROKE-8", aliases: &[] },
        Codepoint { codepoint: 0x1D1A3, name: "MUSICAL SYMBOL ORNAMENT STROKE-9", aliases: &[] },
        Codepoint { codepoint: 0x1D1A4, name: "MUSICAL SYMBOL ORNAMENT STROKE-10", aliases: &[] },
        Codepoint { codepoint: 0x1D1A5, name: "MUSICAL SYMBOL ORNAMENT STROKE-11", aliases: &[] },
        Codepoint { codepoint: 0x1D1A6, name: "MUSICAL SYMBOL HAUPTSTIMME", aliases: &[] },
        Codepoint { codepoint: 0x1D1A7, name: "MUSICAL SYMBOL NEBENSTIMME", aliases: &[] },
        Codepoint { codepoint: 0x1D1A8, name: "MUSICAL SYMBOL END OF STIMME", aliases: &[] },
        Codepoint { codepoint: 0x1D1A9, name: "MUSICAL SYMBOL DEGREE SLASH", aliases: &[] },
    ];
    assert(v@ =~= codepoint_table_710());
    v
}

pub open spec fn codepoint_table_711() -> Seq<Codepoint> {
    seq![
        Codepoint { codepoint: 0x1D1AA, name: "MUSICAL SYMBOL COMBINING DOWN BOW", aliases: &[] },
        Codepoint { codepoint: 0x1D1AB, name: "MUSICAL SYMBOL COMBINING UP BOW", aliases: &[] },
        Codepoint { codepoint: 0x1D1AC, name: "MUSICAL SYMBOL COMBINING HARMONIC", aliases: &[] },
        Codepoint { codepoint: 0x1D1AD, name: "MUSICAL SYMBOL COMBINING SNAP PIZZICATO", aliases: &[] },
        Codepoint { codepoint: 0x1D1AE, name: "MUSICAL SYMBOL PEDAL MARK", aliases: &[] },
        Codepoint { codepoint: 0x1D1AF, name: "MUSICAL SYMBOL PEDAL UP MARK", aliases: &[] },
        Codepoint { codepoint: 0x1D1B0, name: "MUSICAL SYMBOL HALF PEDAL MARK", aliases: &[] },
        Codepoint { codepoint: 0x1D1B1, name: "MUSICAL SYMBOL GLISSANDO UP", aliases: &[] },
        Codepoint { codepoint: 0x1D1B2, name: "MUSICAL SYMBOL GLISSANDO DOWN", aliases: &[] },
        Codepoint { codepoint: 0x1D1B3, name: "MUSICAL SYMBOL WITH FINGERNAILS", aliases: &[] },
        Codepoint { codepoint: 0x1D1B4, name: "MUSICAL SYMBOL DAMP", aliases: &[] },
        Codepoint { codepoint: 0x1D1B5, name: "MUSICAL SYMBOL DAMP ALL", aliases: &[] },
        Codepoint { codepoint: 0x1D1B6, name: "MUSICAL SYMBOL MAXIMA", aliases: &[] },
        Codepoint { codepoint: 0x1D1B7, name: "MUSICAL SYMBOL LONGA", aliases: &[] },
        Codepoint { codepoint: 0x1D1B8, name: "MUSICAL SYMBOL BREVIS", aliases: &[] },
        Codepoint { codepoint: 0x1D1B9, name: "MUSICAL SYMBOL SEMIBREVIS WHITE", aliases: &[] },
        Codepoint { codepoint: 0x1D1BA, name: "MUSICAL SYMBOL SEMIBREVIS BLACK", aliases: &[] },
        Codepoint { codepoint: 0x1D1BB, name: "MUSICAL SYMBOL MINIMA", aliases: &[] },
        Codepoint { codepoint: 0x1D1BC, name: "MUSICAL SYMBOL MINIMA BLACK", aliases: &[] },
        Codepoint { codepoint: 0x1D1BD, name: "MUSICAL SYMBOL SEMIMINIMA WHITE", aliases: &[] },
        Codepoint { codepoint: 0x1D1BE, name: "MUSICAL SYMBOL SEMIMINIMA BLACK", aliases: &[] },
        Codepoint { codepoint: 0x1D1BF, name: "MUSICAL SYMBOL FUSA WHITE", aliases: &[] },
        Codepoint { codepoint: 0x1D1C0, name: "MUSICAL SYMBOL FUSA BLACK", aliases: &[] },
        Codepoint { codepoint: 0x1D1C1, name: "MUSICAL SYMBOL LONGA PERFECTA REST", aliases: &[] },
        Codepoint { codepoint: 0x1D1C2, name: "MUSICAL SYMBOL LONGA IMPERFECTA REST", aliases: &[] },
        Codepoint { codepoint: 0x1D1C3, name: "MUSICAL SYMBOL BREVIS REST", aliases: &[] },
        Codepoint { codepoint: 0x1D1C4, name: "MUSICAL SYMBOL SEMIBREVIS REST", aliases: &[] },
        Codepoint { codepoint: 0x1D1C5, name: "MUSICAL SYMBOL MINIMA REST", aliases: &[] },
        Codepoint { codepoint: 0x1D1C6, name: "MUSICAL SYMBOL SEMIMINIMA REST", aliases: &[] },
        Codepoint { codepoint: 0x1D1C7, name: "MUSICAL SYMBOL TEMPUS PERFECTUM CUM PROLATIONE PERFECTA", aliases: &[] },
        Codepoint { codepoint: 0x1D1C8, name: "MUSICAL SYMBOL TEMPUS PERFECTUM CUM PROLATIONE IMPERFECTA", aliases: &[] },
        Codepoint { codepoint: 0x1D1C9, name: "MUSICAL SYMBOL TEMPUS PERFECTUM CUM PROLATIONE PERFECTA DIMINUTION-1", aliases: &[] },
        Codepoint { codepoint: 0x1D1CA, name: "MUSICAL SYMBOL TEMPUS IMPERFECTUM CUM PROLATIONE PERFECTA", aliases: &[] },
        Codepoint { codepoint: 0x1D1CB, name: "MUSICAL SYMBOL TEMPUS IMPERFECTUM CUM PROLATIONE IMPERFECTA", aliases: &[] },
        Codepoint { codepoint: 0x1D1CC, name: "MUSICAL SYMBOL TEMPUS IMPERFECTUM CUM PROLATIONE IMPERFECTA DIMINUTION-1", aliases: &[] },
        Codepoint { codepoint: 0x1D1CD, name: "MUSICAL SYMBOL TEMPUS IMPERFECTUM CUM PROLATIONE IMPERFECTA DIMINUTION-2", aliases: &[] },
        Codepoint { codepoint: 0x1D1CE, name: "MUSICAL SYMBOL TEMPUS IMPERFECTUM CUM PROLATIONE IMPERFECTA DIMINUTION-3", aliases: &[] },
        Codepoint { codepoint: 0x1D1CF, name: "MUSICAL SYMBOL CROIX", aliases: &[] },
        Codepoint { codepoint: 0x1D1D0, name: "MUSICAL SYMBOL GREGORIAN C CLEF", aliases: &[] },
        Codepoint { codepoint: 0x1D1D1, name: "MUSICAL SYMBOL GREGORIAN F CLEF", aliases: &[] },
    ]
}

fn all_codepoints_711() -> (v: Vec<Codepoint>)
    ensures
        v@ == codepoint_table_711(),
{
    let v = vec![
        Codepoint { codepoint: 0x1D1AA, name: "MUSICAL SYMBOL COMBINING DOWN BOW", aliases: &[] },
        Codepoint { codepoint: 0x1D1AB, name: "MUSICAL SYMBOL COMBINING UP BOW", aliases: &[] },
        Codepoint { codepoint: 0x1D1AC, name: "MUSICAL SYMBOL COMBINING HARMONIC", aliases: &[] },
        Codepoint { codepoint: 0x1D1AD, name: "MUSICAL SYMBOL COMBINING SNAP PIZZICATO", aliases: &[] },
        Codepoint { codepoint: 0x1D1AE, name: "MUSICAL SYMBOL PEDAL MARK", aliases: &[] },
        Codepoint { codepoint: 0x1D1AF, name: "MUSICAL SYMBOL PEDAL UP MARK", aliases: &[] },
        Codepoint { codepoint: 0x1D1B0, name: "MUSICAL SYMBOL HALF PEDAL MARK", aliases: &[] },
        Codepoint { codepoint: 0x1D1B1, name: "MUSICAL SYMBOL GLISSANDO UP", aliases: &[] },
        Codepoint { codepoint: 0x1D1B2, name: "MUSICAL SYMBOL GLISSANDO DOWN", aliases: &[] },
        Codepoint { codepoint: 0x1D1B3, name: "MUSICAL SYMBOL WITH FINGERNAILS", aliases: &[] },
        Codepoint { codepoint: 0x1D1B4, name: "MUSICAL SYMBOL DAMP", aliases: &[] },
        Codepoint { codepoint: 0x1D1B5, name: "MUSICAL SYMBOL DAMP ALL", aliases: &[] },
        Codepoint { codepoint: 0x1D1B6, name: "MUSICAL SYMBOL MAXIMA", aliases: &[] },
        Codepoint { codepoint: 0x1D1B7, name: "MUSICAL SYMBOL LONGA", aliases: &[] },
        Codepoint { codepoint: 0x1D1B8, name: "MUSICAL SYMBOL BREVIS", aliases: &[] },
        Codepoint { codepoint: 0x1D1B9, name: "MUSICAL SYMBOL SEMIBREVIS WHITE", aliases: &[] },
        Codepoint { codepoint: 0x1D1BA, name: "MUSICAL SYMBOL SEMIBREVIS BLACK", aliases: &[] },
        Codepoint { codepoint: 0x1D1BB, name: "MUSICAL SYMBOL MINIMA", aliases: &[] },
        Codepoint { codepoint: 0x1D1BC, name: "MUSICAL SYMBOL MINIMA BLACK", aliases: &[] },
        Codepoint { codepoint: 0x1D1BD, name: "MUSICAL SYMBOL SEMIMINIMA WHITE", aliases: &[] },
        Codepoint { codepoint: 0x1D1BE, name: "MUSICAL SYMBOL SEMIMINIMA BLACK", aliases: &[] },
        Codepoint { codepoint: 0x1D1BF, name: "MUSICAL SYMBOL FUSA WHITE", aliases: &[] },
        Codepoint { codepoint: 0x1D1C0, name: "MUSICAL SYMBOL FUSA BLACK", aliases: &[] },
        Codepoint { codepoint: 0x1D1C1, name: "MUSICAL SYMBOL LONGA PERFECTA REST", aliases: &[] },
        Codepoint { codepoint: 0x1D1C2, name: "MUSICAL SYMBOL LONGA IMPERFECTA REST", aliases: &[] },
        Codepoint { codepoint: 0x1D1C3, name: "MUSICAL SYMBOL BREVIS REST", aliases: &[] },
        Codepoint { codepoint: 0x1D1C4, name: "MUSICAL SYMBOL SEMIBREVIS REST", aliases: &[] },
        Codepoint { codepoint: 0x1D1C5, name: "MUSICAL SYMBOL MINIMA REST", aliases: &[] },
        Codepoint { codepoint: 0x1D1C6, name: "MUSICAL SYMBOL SEMIMINIMA REST", aliases: &[] },
        Codepoint { codepoint: 0x1D1C7, name: "MUSICAL SYMBOL TEMPUS PERFECTUM CUM PROLATIONE PERFECTA", aliases: &[] },
        Codepoint { codepoint: 0x1D1C8, name: "MUSICAL SYMBOL TEMPUS PERFECTUM CUM PROLATIONE IMPERFECTA", aliases: &[] },
        Codepoint { codepoint: 0x1D1C9, name: "MUSICAL SYMBOL TEMPUS PERFECTUM CUM PROLATIONE PERFECTA DIMINUTION-1", aliases: &[] },
        Codepoint { codepoint: 0x1D1CA, name: "MUSICAL SYMBOL TEMPUS IMPERFECTUM CUM PROLATIONE PERFECTA", aliases: &[] },
        Codepoint { codepoint: 0x1D1CB, name: "MUSICAL SYMBOL TEMPUS IMPERFECTUM CUM PROLATIONE IMPERFECTA", aliases: &[] },
        Codepoint { codepoint: 0x1D1CC, name: "MUSICAL SYMBOL TEMPUS IMPERFECTUM CUM PROLATIONE IMPERFECTA DIMINUTION-1", aliases: &[] },
        Codepoint { codepoint: 0x1D1CD, name: "MUSICAL SYMBOL TEMPUS IMPERFECTUM CUM PROLATIONE IMPERFECTA DIMINUTION-2", aliases: &[] },
        Codepoint { codepoint: 0x1D1CE, name: "MUSICAL SYMBOL TEMPUS IMPERFECTUM CUM PROLATIONE IMPERFECTA DIMINUTION-3", aliases: &[] },
        Codepoint { codepoint: 0x1D1CF, name: "MUSICAL SYMBOL CROIX", aliases: &[] },
        Codepoint { codepoint: 0x1D1D0, name: "MUSICAL SYMBOL GREGORIAN C CLEF", aliases: &[] },
        Codepoint { codepoint: 0x1D1D1, name: "MUSICAL SYMBOL GREGORIAN F CLEF", aliases: &[] },
    ];
    assert(v@ =~= codepoint_table_711());
    v
}

pub open spec fn codepoint_table_712() -> Seq<Codepoint> {
    seq![
        Codepoint { codepoint: 0x1D1D2, name: "MUSICAL SYMBOL SQUARE B", aliases: &[] },
        Codepoint { codepoint: 0x1D1D3, name: "MUSICAL SYMBOL VIRGA", aliases: &[] },
        Codepoint { codepoint: 0x1D1D4, name: "MUSICAL SYMBOL PODATUS", aliases: &[] },
        Codepoint { codepoint: 0x1D1D5, name: "MUSICAL SYMBOL CLIVIS", aliases: &[] },
        Codepoint { codepoint: 0x1D1D6, name: "MUSICAL SYMBOL SCANDICUS", aliases: &[] },
        Codepoint { codepoint: 0x1D1D7, name: "MUSICAL SYMBOL CLIMACUS", aliases: &[] },
        Codepoint { codepoint: 0x1D1D8, name: "MUSICAL SYMBOL TORCULUS", aliases: &[] },
        Codepoint { codepoint: 0x1D1D9, name: "MUSICAL SYMBOL PORRECTUS", aliases: &[] },
        Codepoint { codepoint: 0x1D1DA, name: "MUSICAL SYMBOL PORRECTUS FLEXUS", aliases: &[] },
        Codepoint { codepoint: 0x1D1DB, name: "MUSICAL SYMBOL SCANDICUS FLEXUS", aliases: &[] },
        Codepoint { codepoint: 0x1D1DC, name: "MUSICAL SYMBOL TORCULUS RESUPINUS", aliases: &[] },
        Codepoint { codepoint: 0x1D1DD, name: "MUSICAL SYMBOL PES SUBPUNCTIS", aliases: &[] },
        Codepoint { codepoint: 0x1D1DE, name: "MUSICAL SYMBOL KIEVAN C CLEF", aliases: &[] },
        Codepoint { codepoint: 0x1D1DF, name: "MUSICAL SYMBOL KIEVAN END OF PIECE", aliases: &[] },
        Codepoint { codepoint: 0x1D1E0, name: "MUSICAL SYMBOL KIEVAN FINAL NOTE", aliases: &[] },
        Codepoint { codepoint: 0x1D1E1, name: "MUSICAL SYMBOL KIEVAN RECITATIVE MARK", aliases: &[] },
        Codepoint { codepoint: 0x1D1E2, name: "MUSICAL SYMBOL KIEVAN WHOLE NOTE", aliases: &[] },
        Codepoint { codepoint: 0x1D1E3, name: "MUSICAL SYMBOL KIEVAN HALF NOTE", aliases: &[] },
        Codepoint { codepoint: 0x1D1E4, name: "MUSICAL SYMBOL KIEVAN QUARTER NOTE STEM DOWN", aliases: &[] },
        Codepoint { codepoint: 0x1D1E5, name: "MUSICAL SYMBOL KIEVAN QUARTER NOTE STEM UP", aliases: &[] },
        Codepoint { codepoint: 0x1D1E6, name: "MUSICAL SYMBOL KIEVAN EIGHTH NOTE STEM DOWN", aliases: &[] },
        Codepoint { codepoint: 0x1D1E7, name: "MUSICAL SYMBOL KIEVAN EIGHTH NOTE STEM UP", aliases: &[] },
        Codepoint { codepoint: 0x1D1E8, name: "MUSICAL SYMBOL KIEVAN FLAT SIGN", aliases: &[] },
        Codepoint { codepoint: 0x1D1E9, name: "MUSICAL SYMBOL SORI", aliases: &[] },
        Codepoint { codepoint: 0x1D1EA, name: "MUSICAL SYMBOL KORON", aliases: &[] },
        Codepoint { codepoint: 0x1D200, name: "GREEK VOCAL NOTATION SYMBOL-1", aliases: &[] },
        Codepoint { codepoint: 0x1D201, name: "GREEK VOCAL NOTATION SYMBOL-2", aliases: &[] },
        Codepoint { codepoint: 0x1D202, name: "GREEK VOCAL NOTATION SYMBOL-3", aliases: &[] },
        Codepoint { codepoint: 0x1D203, name: "GREEK VOCAL NOTATION SYMBOL-4", aliases: &[] },
        Codepoint { codepoint: 0x1D204, name: "GREEK VOCAL NOTATION SYMBOL-5", aliases: &[] },
        Codepoint { codepoint: 0x1D205, name: "GREEK VOCAL NOTATION SYMBOL-6", aliases: &[] },
        Codepoint { codepoint: 0x1D206, name: "GREEK VOCAL NOTATION SYMBOL-7", aliases: &[] },
        Codepoint { codepoint: 0x1D207, name: "GREEK VOCAL NOTATION SYMBOL-8", aliases: &[] },
        Codepoint { codepoint: 0x1D208, name: "GREEK VOCAL NOTATION SYMBOL-9", aliases: &[] },
        Codepoint { codepoint: 0x1D209, name: "GREEK VOCAL NOTATION SYMBOL-10", aliases: &[] },
        Codepoint { codepoint: 0x1D20A, name: "GREEK VOCAL NOTATION SYMBOL-11", aliases: &[] },
        Codepoint { codepoint: 0x1D20B, name: "GREEK VOCAL NOTATION SYMBOL-12", aliases: &[] },
        Codepoint { codepoint: 0x1D20C, name: "GREEK VOCAL NOTATION SYMBOL-13", aliases: &[] },
        Codepoint { codepoint: 0x1D20D, name: "GREEK VOCAL NOTATION SYMBOL-14", aliases: &[] },
        Codepoint { codepoint: 0x1D20E, name: "GREEK VOCAL NOTATION SYMBOL-15", aliases: &[] },
    ]
}

fn all_codepoints_712() -> (v: Vec<Codepoint>)
    ensures
        v@ == codepoint_table_712(),
{
    let v = vec![
        Codepoint { codepoint: 0x1D1D2, name: "MUSICAL SYMBOL SQUARE B", aliases: &[] },
        Codepoint { codepoint: 0x1D1D3, name: "MUSICAL SYMBOL VIRGA", aliases: &[] },
        Codepoint { codepoint: 0x1D1D4, name: "MUSICAL SYMBOL PODATUS", aliases: &[] },
        Codepoint { codepoint: 0x1D1D5, name: "MUSICAL SYMBOL CLIVIS", aliases: &[] },
        Codepoint { codepoint: 0x1D1D6, name: "MUSICAL SYMBOL SCANDICUS", aliases: &[] },
        Codepoint { codepoint: 0x1D1D7, name: "MUSICAL SYMBOL CLIMACUS", aliases: &[] },
        Codepoint { codepoint: 0x1D1D8, name: "MUSICAL SYMBOL TORCULUS", aliases: &[] },
        Codepoint { codepoint: 0x1D1D9, name: "MUSICAL SYMBOL PORRECTUS", aliases: &[] },
        Codepoint { codepoint: 0x1D1DA, name: "MUSICAL SYMBOL PORRECTUS FLEXUS", aliases: &[] },
        Codepoint { codepoint: 0x1D1DB, name: "MUSICAL SYMBOL SCANDICUS FLEXUS", aliases: &[] },
        Codepoint { codepoint: 0x1D1DC, name: "MUSICAL SYMBOL TORCULUS RESUPINUS", aliases: &[] },
        Codepoint { codepoint: 0x1D1DD, name: "MUSICAL SYMBOL PES SUBPUNCTIS", aliases: &[] },
        Codepoint { codepoint: 0x1D1DE, name: "MUSICAL SYMBOL KIEVAN C CLEF", aliases: &[] },
        Codepoint { codepoint: 0x1D1DF, name: "MUSICAL SYMBOL KIEVAN END OF PIECE", aliases: &[] },
        Codepoint { codepoint: 0x1D1E0, name: "MUSICAL SYMBOL KIEVAN FINAL NOTE", aliases: &[] },
        Codepoint { codepoint: 0x1D1E1, name: "MUSICAL SYMBOL KIEVAN RECITATIVE MARK", aliases: &[] },
        Codepoint { codepoint: 0x1D1E2, name: "MUSICAL SYMBOL KIEVAN WHOLE NOTE", aliases: &[] },
        Codepoint { codepoint: 0x1D1E3, name: "MUSICAL SYMBOL KIEVAN HALF NOTE", aliases: &[] },
        Codepoint { codepoint: 0x1D1E4, name: "MUSICAL SYMBOL KIEVAN QUARTER NOTE STEM DOWN", aliases: &[] },
        Codepoint { codepoint: 0x1D1E5, name: "MUSICAL SYMBOL KIEVAN QUARTER NOTE STEM UP", aliases: &[] },
        Codepoint { codepoint: 0x1D1E6, name: "MUSICAL SYMBOL KIEVAN EIGHTH NOTE STEM DOWN", aliases: &[] },
        Codepoint { codepoint: 0x1D1E7, name: "MUSICAL SYMBOL KIEVAN EIGHTH NOTE STEM UP", aliases: &[] },
        Codepoint { codepoint: 0x1D1E8, name: "MUSICAL SYMBOL KIEVAN FLAT SIGN", aliases: &[] },
        Codepoint { codepoint: 0x1D1E9, name: "MUSICAL SYMBOL SORI", aliases: &[] },
        Codepoint { codepoint: 0x1D1EA, name: "MUSICAL SYMBOL KORON", aliases: &[] },
        Codepoint { codepoint: 0x1D200, name: "GREEK VOCAL NOTATION SYMBOL-1", aliases: &[] },
        Codepoint { codepoint: 0x1D201, name: "GREEK VOCAL NOTATION SYMBOL-2", aliases: &[] },
        Codepoint { codepoint: 0x1D202, name: "GREEK VOCAL NOTATION SYMBOL-3", aliases: &[] },
        Codepoint { codepoint: 0x1D203, name: "GREEK VOCAL NOTATION SYMBOL-4", aliases: &[] },
        Codepoint { codepoint: 0x1D204, name: "GREEK VOCAL NOTATION SYMBOL-5", aliases: &[] },
        Codepoint { codepoint: 0x1D205, name: "GREEK VOCAL NOTATION SYMBOL-6", aliases: &[] },
        Codepoint { codepoint: 0x1D206, name: "GREEK VOCAL NOTATION SYMBOL-7", aliases: &[] },
        Codepoint { codepoint: 0x1D207, name: "GREEK VOCAL NOTATION SYMBOL-8", aliases: &[] },
        Codepoint { codepoint: 0x1D208, name: "GREEK VOCAL NOTATION SYMBOL-9", aliases: &[] },
        Codepoint { codepoint: 0x1D209, name: "GREEK VOCAL NOTATION SYMBOL-10", aliases: &[] },
        Codepoint { codepoint: 0x1D20A, name: "GREEK VOCAL NOTATION SYMBOL-11", aliases: &[] },
        Codepoint { codepoint: 0x1D20B, name: "GREEK VOCAL NOTATION SYMBOL-12", aliases: &[] },
        Codepoint { codepoint: 0x1D20C, name: "GREEK VOCAL NOTATION SYMBOL-13", aliases: &[] },
        Codepoint { codepoint: 0x1D20D, name: "GREEK VOCAL NOTATION SYMBOL-14", aliases: &[] },
        Codepoint { codepoint: 0x1D20E, name: "GREEK VOCAL NOTATION SYMBOL-15", aliases: &[] },
    ];
    assert(v@ =~= codepoint_table_712());
    v
}

pub open spec fn codepoint_table_713() -> Seq<Codepoint> {
    seq![
        Codepoint { codepoint: 0x1D20F, name: "GREEK VOCAL NOTATION SYMBOL-16", aliases: &[] },
        Codepoint { codepoint: 0x1D210, name: "GREEK VOCAL NOTATION SYMBOL-17", aliases: &[] },
        Codepoint { codepoint: 0x1D211, name: "GREEK VOCAL NOTATION SYMBOL-18", aliases: &[] },
        Codepoint { codepoint: 0x1D212, name: "GREEK VOCAL NOTATION SYMBOL-19", aliases: &[] },
        Codepoint { codepoint: 0x1D213, name: "GREEK VOCAL NOTATION SYMBOL-20", aliases: &[] },
        Codepoint { codepoint: 0x1D214, name: "GREEK VOCAL NOTATION SYMBOL-21", aliases: &[] },
        Codepoint { codepoint: 0x1D215, name: "GREEK VOCAL NOTATION SYMBOL-22", aliases: &[] },
        Codepoint { codepoint: 0x1D216, name: "GREEK VOCAL NOTATION SYMBOL-23", aliases: &[] },
        Codepoint { codepoint: 0x1D217, name: "GREEK VOCAL NOTATION SYMBOL-24", aliases: &[] },
        Codepoint { codepoint: 0x1D218, name: "GREEK VOCAL NOTATION SYMBOL-50", aliases: &[] },
        Codepoint { codepoint: 0x1D219, name: "GREEK VOCAL NOTATION SYMBOL-51", aliases: &[] },
        Codepoint { codepoint: 0x1D21A, name: "GREEK VOCAL NOTATION SYMBOL-52", aliases: &[] },
        Codepoint { codepoint: 0x1D21B, name: "GREEK VOCAL NOTATION SYMBOL-53", aliases: &[] },
        Codepoint { codepoint: 0x1D21C, name: "GREEK VOCAL NOTATION SYMBOL-54", aliases: &[] },
        Codepoint { codepoint: 0x1D21D, name: "GREEK INSTRUMENTAL NOTATION SYMBOL-1", aliases: &[] },
        Codepoint { codepoint: 0x1D21E, name: "GREEK INSTRUMENTAL NOTATION SYMBOL-2", aliases: &[] },
        Codepoint { codepoint: 0x1D21F, name: "GREEK INSTRUMENTAL NOTATION SYMBOL-4", aliases: &[] },
        Codepoint { codepoint: 0x1D220, name: "GREEK INSTRUMENTAL NOTATION SYMBOL-5", aliases: &[] },
        Codepoint { codepoint: 0x1D221, name: "GREEK INSTRUMENTAL NOTATION SYMBOL-7", aliases: &[] },
        Codepoint { codepoint: 0x1D222, name: "GREEK INSTRUMENTAL NOTATION SYMBOL-8", aliases: &[] },
        Codepoint { codepoint: 0x1D223, name: "GREEK INSTRUMENTAL NOTATION SYMBOL-11", aliases: &[] },
        Codepoint { codepoint: 0x1D224, name: "GREEK INSTRUMENTAL NOTATION SYMBOL-12", aliases: &[] },
        Codepoint { codepoint: 0x1D225, name: "GREEK INSTRUMENTAL NOTATION SYMBOL-13", aliases: &[] },
        Codepoint { codepoint: 0x1D226, name: "GREEK INSTRUMENTAL NOTATION SYMBOL-14", aliases: &[] },
        Codepoint { codepoint: 0x1D227, name: "GREEK INSTRUMENTAL NOTATION SYMBOL-17", aliases: &[] },
        Codepoint { codepoint: 0x1D228, name: "GREEK INSTRUMENTAL NOTATION SYMBOL-18", aliases: &[] },
        Codepoint { codepoint: 0x1D229, name: "GREEK INSTRUMENTAL NOTATION SYMBOL-19", aliases: &[] },
        Codepoint { codepoint: 0x1D22A, name: "GREEK INSTRUMENTAL NOTATION SYMBOL-23", aliases: &[] },
        Codepoint { codepoint: 0x1D22B, name: "GREEK INSTRUMENTAL NOTATION SYMBOL-24", aliases: &[] },
        Codepoint { codepoint: 0x1D22C, name: "GREEK INSTRUMENTAL NOTATION SYMBOL-25", aliases: &[] },
        Codepoint { codepoint: 0x1D22D, name: "GREEK INSTRUMENTAL NOTATION SYMBOL-26", aliases: &[] },
        Codepoint { codepoint: 0x1D22E, name: "GREEK INSTRUMENTAL NOTATION SYMBOL-27", aliases: &[] },
        Codepoint { codepoint: 0x1D22F, name: "GREEK INSTRUMENTAL NOTATION SYMBOL-29", aliases: &[] },
        Codepoint { codepoint: 0x1D230, name: "GREEK INSTRUMENTAL NOTATION SYMBOL-30", aliases: &[] },
        Codepoint { codepoint: 0x1D231, name: "GREEK INSTRUMENTAL NOTATION SYMBOL-32", aliases: &[] },
        Codepoint { codepoint: 0x1D232, name: "GREEK INSTRUMENTAL NOTATION SYMBOL-36", aliases: &[] },
        Codepoint { codepoint: 0x1D233, name: "GREEK INSTRUMENTAL NOTATION SYMBOL-37", aliases: &[] },
        Codepoint { codepoint: 0x1D234, name: "GREEK INSTRUMENTAL NOTATION SYMBOL-38", aliases: &[] },
        Codepoint { codepoint: 0x1D235, name: "GREEK INSTRUMENTAL NOTATION SYMBOL-39", aliases: &[] },
        Codepoint { codepoint: 0x1D236, name: "GREEK INSTRUMENTAL NOTATION SYMBOL-40", aliases: &[] },
    ]
}

fn all_codepoints_713() -> (v: Vec<Codepoint>)
    ensures
        v@ == codepoint_table_713(),
{
    let v = vec![
        Codepoint { codepoint: 0x1D20F, name: "GREEK VOCAL NOTATION SYMBOL-16", aliases: &[] },
        Codepoint { codepoint: 0x1D210, name: "GREEK VOCAL NOTATION SYMBOL-17", aliases: &[] },
        Codepoint { codepoint: 0x1D211, name: "GREEK VOCAL NOTATION SYMBOL-18", aliases: &[] },
        Codepoint { codepoint: 0x1D212, name: "GREEK VOCAL NOTATION SYMBOL-19", aliases: &[] },
        Codepoint { codepoint: 0x1D213, name: "GREEK VOCAL NOTATION SYMBOL-20", aliases: &[] },
        Codepoint { codepoint: 0x1D214, name: "GREEK VOCAL NOTATION SYMBOL-21", aliases: &[] },
        Codepoint { codepoint: 0x1D215, name: "GREEK VOCAL NOTATION SYMBOL-22", aliases: &[] },
        Codepoint { codepoint: 0x1D216, name: "GREEK VOCAL NOTATION SYMBOL-23", aliases: &[] },
        Codepoint { codepoint: 0x1D217, name: "GREEK VOCAL NOTATION SYMBOL-24", aliases: &[] },
        Codepoint { codepoint: 0x1D218, name: "GREEK VOCAL NOTATION SYMBOL-50", aliases: &[] },
        Codepoint { codepoint: 0x1D219, name: "GREEK VOCAL NOTATION SYMBOL-51", aliases: &[] },
        Codepoint { codepoint: 0x1D21A, name: "GREEK VOCAL NOTATION SYMBOL-52", aliases: &[] },
        Codepoint { codepoint: 0x1D21B, name: "GREEK VOCAL NOTATION SYMBOL-53", aliases: &[] },
        Codepoint { codepoint: 0x1D21C, name: "GREEK VOCAL NOTATION SYMBOL-54", aliases: &[] },
        Codepoint { codepoint: 0x1D21D, name: "GREEK INSTRUMENTAL NOTATION SYMBOL-1", aliases: &[] },
        Codepoint { codepoint: 0x1D21E, name: "GREEK INSTRUMENTAL NOTATION SYMBOL-2", aliases: &[] },
        Codepoint { codepoint: 0x1D21F, name: "GREEK INSTRUMENTAL NOTATION SYMBOL-4", aliases: &[] },
        Codepoint { codepoint: 0x1D220, name: "GREEK INSTRUMENTAL NOTATION SYMBOL-5", aliases: &[] },
        Codepoint { codepoint: 0x1D221, name: "GREEK INSTRUMENTAL NOTATION SYMBOL-7", aliases: &[] },
        Codepoint { codepoint: 0x1D222, name: "GREEK INSTRUMENTAL NOTATION SYMBOL-8", aliases: &[] },
        Codepoint { codepoint: 0x1D223, name: "GREEK INSTRUMENTAL NOTATION SYMBOL-11", aliases: &[] },
        Codepoint { codepoint: 0x1D224, name: "GREEK INSTRUMENTAL NOTATION SYMBOL-12", aliases: &[] },
        Codepoint { codepoint: 0x1D225, name: "GREEK INSTRUMENTAL NOTATION SYMBOL-13", aliases: &[] },
        Codepoint { codepoint: 0x1D226, name: "GREEK INSTRUMENTAL NOTATION SYMBOL-14", aliases: &[] },
        Codepoint { codepoint: 0x1D227, name: "GREEK INSTRUMENTAL NOTATION SYMBOL-17", aliases: &[] },
        Codepoint { codepoint: 0x1D228, name: "GREEK INSTRUMENTAL NOTATION SYMBOL-18", aliases: &[] },
        Codepoint { codepoint: 0x1D229, name: "GREEK INSTRUMENTAL NOTATION SYMBOL-19", aliases: &[] },
        Codepoint { codepoint: 0x1D22A, name: "GREEK INSTRUMENTAL NOTATION SYMBOL-23", aliases: &[] },
        Codepoint { codepoint: 0x1D22B, name: "GREEK INSTRUMENTAL NOTATION SYMBOL-24", aliases: &[] },
        Codepoint { codepoint: 0x1D22C, name: "GREEK INSTRUMENTAL NOTATION SYMBOL-25", aliases: &[] },
        Codepoint { codepoint: 0x1D22D, name: "GREEK INSTRUMENTAL NOTATION SYMBOL-26", aliases: &[] },
        Codepoint { codepoint: 0x1D22E, name: "GREEK INSTRUMENTAL NOTATION SYMBOL-27", aliases: &[] },
        Codepoint { codepoint: 0x1D22F, name: "GREEK INSTRUMENTAL NOTATION SYMBOL-29", aliases: &[] },
        Codepoint { codepoint: 0x1D230, name: "GREEK INSTRUMENTAL NOTATION SYMBOL-30", aliases: &[] },
        Codepoint { codepoint: 0x1D231, name: "GREEK INSTRUMENTAL NOTATION SYMBOL-32", aliases: &[] },
        Codepoint { codepoint: 0x1D232, name: "GREEK INSTRUMENTAL NOTATION SYMBOL-36", aliases: &[] },
        Codepoint { codepoint: 0x1D233, name: "GREEK INSTRUMENTAL NOTATION SYMBOL-37", aliases: &[] },
        Codepoint { codepoint: 0x1D234, name: "GREEK INSTRUMENTAL NOTATION SYMBOL-38", aliases: &[] },
        Codepoint { codepoint: 0x1D235, name: "GREEK INSTRUMENTAL NOTATION SYMBOL-39", aliases: &[] },
        Codepoint { codepoint: 0x1D236, name: "GREEK INSTRUMENTAL NOTATION SYMBOL-40", aliases: &[] },
    ];
    assert(v@ =~= codepoint_table_713());
    v
}

pub open spec fn codepoint_table_714() -> Seq<Codepoint> {
    seq![
        Codepoint { codepoint: 0x1D237, name: "GREEK INSTRUMENTAL NOTATION SYMBOL-42", aliases: &[] },
        Codepoint { codepoint: 0x1D238, name: "GREEK INSTRUMENTAL NOTATION SYMBOL-43", aliases: &[] },
        Codepoint { codepoint: 0x1D239, name: "GREEK INSTRUMENTAL NOTATION SYMBOL-45", aliases: &[] },
        Codepoint { codepoint: 0x1D23A, name: "GREEK INSTRUMENTAL NOTATION SYMBOL-47", aliases: &[] },
        Codepoint { codepoint: 0x1D23B, name: "GREEK INSTRUMENTAL NOTATION SYMBOL-48", aliases: &[] },
        Codepoint { codepoint: 0x1D23C, name: "GREEK INSTRUMENTAL NOTATION SYMBOL-49", aliases: &[] },
        Codepoint { codepoint: 0x1D23D, name: "GREEK INSTRUMENTAL NOTATION SYMBOL-50", aliases: &[] },
        Codepoint { codepoint: 0x1D23E, name: "GREEK INSTRUMENTAL NOTATION SYMBOL-51", aliases: &[] },
        Codepoint { codepoint: 0x1D23F, name: "GREEK INSTRUMENTAL NOTATION SYMBOL-52", aliases: &[] },
        Codepoint { codepoint: 0x1D240, name: "GREEK INSTRUMENTAL NOTATION SYMBOL-53", aliases: &[] },
        Codepoint { codepoint: 0x1D241, name: "GREEK INSTRUMENTAL NOTATION SYMBOL-54", aliases: &[] },
        Codepoint { codepoint: 0x1D242, name: "COMBINING GREEK MUSICAL TRISEME", aliases: &[] },
        Codepoint { codepoint: 0x1D243, name: "COMBINING GREEK MUSICAL TETRASEME", aliases: &[] },
        Codepoint { codepoint: 0x1D244, name: "COMBINING GREEK MUSICAL PENTASEME", aliases: &[] },
        Codepoint { codepoint: 0x1D245, name: "GREEK MUSICAL LEIMMA", aliases: &[] },
        Codepoint { codepoint: 0x1D2E0, name: "MAYAN NUMERAL ZERO", aliases: &[] },
        Codepoint { codepoint: 0x1D2E1, name: "MAYAN NUMERAL ONE", aliases: &[] },
        Codepoint { codepoint: 0x1D2E2, name: "MAYAN NUMERAL TWO", aliases: &[] },
        Codepoint { codepoint: 0x1D2E3, name: "MAYAN NUMERAL THREE", aliases: &[] },
        Codepoint { codepoint: 0x1D2E4, name: "MAYAN NUMERAL FOUR", aliases: &[] },
        Codepoint { codepoint: 0x1D2E5, name: "MAYAN NUMERAL FIVE", aliases: &[] },
        Codepoint { codepoint: 0x1D2E6, name: "MAYAN NUMERAL SIX", aliases: &[] },
        Codepoint { codepoint: 0x1D2E7, name: "MAYAN NUMERAL SEVEN", aliases: &[] },
        Codepoint { codepoint: 0x1D2E8, name: "MAYAN NUMERAL EIGHT", aliases: &[] },
        Codepoint { codepoint: 0x1D2E9, name: "MAYAN NUMERAL NINE", aliases: &[] },
        Codepoint { codepoint: 0x1D2EA, name: "MAYAN NUMERAL TEN", aliases: &[] },
        Codepoint { codepoint: 0x1D2EB, name: "MAYAN NUMERAL ELEVEN", aliases: &[] },
        Codepoint { codepoint: 0x1D2EC, name: "MAYAN NUMERAL TWELVE", aliases: &[] },
        Codepoint { codepoint: 0x1D2ED, name: "MAYAN NUMERAL THIRTEEN", aliases: &[] },
        Codepoint { codepoint: 0x1D2EE, name: "MAYAN NUMERAL FOURTEEN", aliases: &[] },
        Codepoint { codepoint: 0x1D2EF, name: "MAYAN NUMERAL FIFTEEN", aliases: &[] },
        Codepoint { codepoint: 0x1D2F0, name: "MAYAN NUMERAL SIXTEEN", aliases: &[] },
        Codepoint { codepoint: 0x1D2F1, name: "MAYAN NUMERAL SEVENTEEN", aliases: &[] },
        Codepoint { codepoint: 0x1D2F2, name: "MAYAN NUMERAL EIGHTEEN", aliases: &[] },
        Codepoint { codepoint: 0x1D2F3, name: "MAYAN NUMERAL NINETEEN", aliases: &[] },
        Codepoint { codepoint: 0x1D300, name: "MONOGRAM FOR EARTH", aliases: &[] },
        Codepoint { codepoint: 0x1D301, name: "DIGRAM FOR HEAVENLY EARTH", aliases: &[] },
        Codepoint { codepoint: 0x1D302, name: "DIGRAM FOR HUMAN EARTH", aliases: &[] },
        Codepoint { codepoint: 0x1D303, name: "DIGRAM FOR EARTHLY HEAVEN", aliases: &[] },
        Codepoint { codepoint: 0x1D304, name: "DIGRAM FOR EARTHLY HUMAN", aliases: &[] },
    ]
}

fn all_codepoints_714() -> (v: Vec<Codepoint>)
    ensures
        v@ == codepoint_table_714(),
{
    let v = vec![
        Codepoint { codepoint: 0x1D237, name: "GREEK INSTRUMENTAL NOTATION SYMBOL-42", aliases: &[] },
        Codepoint { codepoint: 0x1D238, name: "GREEK INSTRUMENTAL NOTATION SYMBOL-43", aliases: &[] },
        Codepoint { codepoint: 0x1D239, name: "GREEK INSTRUMENTAL NOTATION SYMBOL-45", aliases: &[] },
        Codepoint { codepoint: 0x1D23A, name: "GREEK INSTRUMENTAL NOTATION SYMBOL-47", aliases: &[] },
        Codepoint { codepoint: 0x1D23B, name: "GREEK INSTRUMENTAL NOTATION SYMBOL-48", aliases: &[] },
        Codepoint { codepoint: 0x1D23C, name: "GREEK INSTRUMENTAL NOTATION SYMBOL-49", aliases: &[] },
        Codepoint { codepoint: 0x1D23D, name: "GREEK INSTRUMENTAL NOTATION SYMBOL-50", aliases: &[] },
        Codepoint { codepoint: 0x1D23E, name: "GREEK INSTRUMENTAL NOTATION SYMBOL-51", aliases: &[] },
        Codepoint { codepoint: 0x1D23F, name: "GREEK INSTRUMENTAL NOTATION SYMBOL-52", aliases: &[] },
        Codepoint { codepoint: 0x1D240, name: "GREEK INSTRUMENTAL NOTATION SYMBOL-53", aliases: &[] },
        Codepoint { codepoint: 0x1D241, name: "GREEK INSTRUMENTAL NOTATION SYMBOL-54", aliases: &[] },
        Codepoint { codepoint: 0x1D242, name: "COMBINING GREEK MUSICAL TRISEME", aliases: &[] },
        Codepoint { codepoint: 0x1D243, name: "COMBINING GREEK MUSICAL TETRASEME", aliases: &[] },
        Codepoint { codepoint: 0x1D244, name: "COMBINING GREEK MUSICAL PENTASEME", aliases: &[] },
        Codepoint { codepoint: 0x1D245, name: "GREEK MUSICAL LEIMMA", aliases: &[] },
        Codepoint { codepoint: 0x1D2E0, name: "MAYAN NUMERAL ZERO", aliases: &[] },
        Codepoint { codepoint: 0x1D2E1, name: "MAYAN NUMERAL ONE", aliases: &[] },
        Codepoint { codepoint: 0x1D2E2, name: "MAYAN NUMERAL TWO", aliases: &[] },
        Codepoint { codepoint: 0x1D2E3, name: "MAYAN NUMERAL THREE", aliases: &[] },
        Codepoint { codepoint: 0x1D2E4, name: "MAYAN NUMERAL FOUR", aliases: &[] },
        Codepoint { codepoint: 0x1D2E5, name: "MAYAN NUMERAL FIVE", aliases: &[] },
        Codepoint { codepoint: 0x1D2E6, name: "MAYAN NUMERAL SIX", aliases: &[] },
        Codepoint { codepoint: 0x1D2E7, name: "MAYAN NUMERAL SEVEN", aliases: &[] },
        Codepoint { codepoint: 0x1D2E8, name: "MAYAN NUMERAL EIGHT", aliases: &[] },
        Codepoint { codepoint: 0x1D2E9, name: "MAYAN NUMERAL NINE", aliases: &[] },
        Codepoint { codepoint: 0x1D2EA, name: "MAYAN NUMERAL TEN", aliases: &[] },
        Codepoint { codepoint: 0x1D2EB, name: "MAYAN NUMERAL ELEVEN", aliases: &[] },
        Codepoint { codepoint: 0x1D2EC, name: "MAYAN NUMERAL TWELVE", aliases: &[] },
        Codepoint { codepoint: 0x1D2ED, name: "MAYAN NUMERAL THIRTEEN", aliases: &[] },
        Codepoint { codepoint: 0x1D2EE, name: "MAYAN NUMERAL FOURTEEN", aliases: &[] },
        Codepoint { codepoint: 0x1D2EF, name: "MAYAN NUMERAL FIFTEEN", aliases: &[] },
        Codepoint { codepoint: 0x1D2F0, name: "MAYAN NUMERAL SIXTEEN", aliases: &[] },
        Codepoint { codepoint: 0x1D2F1, name: "MAYAN NUMERAL SEVENTEEN", aliases: &[] },
        Codepoint { codepoint: 0x1D2F2, name: "MAYAN NUMERAL EIGHTEEN", aliases: &[] },
        Codepoint { codepoint: 0x1D2F3, name: "MAYAN NUMERAL NINETEEN", aliases: &[] },
        Codepoint { codepoint: 0x1D300, name: "MONOGRAM FOR EARTH", aliases: &[] },
        Codepoint { codepoint: 0x1D301, name: "DIGRAM FOR HEAVENLY EARTH", aliases: &[] },
        Codepoint { codepoint: 0x1D302, name: "DIGRAM FOR HUMAN EARTH", aliases: &[] },
        Codepoint { codepoint: 0x1D303, name: "DIGRAM FOR EARTHLY HEAVEN", aliases: &[] },
        Codepoint { codepoint: 0x1D304, name: "DIGRAM FOR EARTHLY HUMAN", aliases: &[] },
    ];
    assert(v@ =~= codepoint_table_714());
    v
}

pub open spec fn codepoint_table_715() -> Seq<Codepoint> {
    seq![
        Codepoint { codepoint: 0x1D305, name: "DIGRAM FOR EARTH", aliases: &[] },
        Codepoint { codepoint: 0x1D306, name: "TETRAGRAM FOR CENTRE", aliases: &[] },
        Codepoint { codepoint: 0x1D307, name: "TETRAGRAM FOR FULL CIRCLE", aliases: &[] },
        Codepoint { codepoint: 0x1D308, name: "TETRAGRAM FOR MIRED", aliases: &[] },
        Codepoint { codepoint: 0x1D309, name: "TETRAGRAM FOR BARRIER", aliases: &[] },
        Codepoint { codepoint: 0x1D30A, name: "TETRAGRAM FOR KEEPING SMALL", aliases: &[] },
        Codepoint { codepoint: 0x1D30B, name: "TETRAGRAM FOR CONTRARIETY", aliases: &[] },
        Codepoint { codepoint: 0x1D30C, name: "TETRAGRAM FOR ASCENT", aliases: &[] },
        Codepoint { codepoint: 0x1D30D, name: "TETRAGRAM FOR OPPOSITION", aliases: &[] },
        Codepoint { codepoint: 0x1D30E, name: "TETRAGRAM FOR BRANCHING OUT", aliases: &[] },
        Codepoint { codepoint: 0x1D30F, name: "TETRAGRAM FOR DEFECTIVENESS OR DISTORTION", aliases: &[] },
        Codepoint { codepoint: 0x1D310, name: "TETRAGRAM FOR DIVERGENCE", aliases: &[] },
        Codepoint { codepoint: 0x1D311, name: "TETRAGRAM FOR YOUTHFULNESS", aliases: &[] },
        Codepoint { codepoint: 0x1D312, name: "TETRAGRAM FOR INCREASE", aliases: &[] },
        Codepoint { codepoint: 0x1D313, name: "TETRAGRAM FOR PENETRATION", aliases: &[] },
        Codepoint { codepoint: 0x1D314, name: "TETRAGRAM FOR REACH", aliases: &[] },
        Codepoint { codepoint: 0x1D315, name: "TETRAGRAM FOR CONTACT", aliases: &[] },
        Codepoint { codepoint: 0x1D316, name: "TETRAGRAM FOR HOLDING BACK", aliases: &[] },
        Codepoint { codepoint: 0x1D317, name: "TETRAGRAM FOR WAITING", aliases: &[] },
        Codepoint { codepoint: 0x1D318, name: "TETRAGRAM FOR FOLLOWING", aliases: &[] },
        Codepoint { codepoint: 0x1D319, name: "TETRAGRAM FOR ADVANCE", aliases: &[] },
        Codepoint { codepoint: 0x1D31A, name: "TETRAGRAM FOR RELEASE", aliases: &[] },
        Codepoint { codepoint: 0x1D31B, name: "TETRAGRAM FOR RESISTANCE", aliases: &[] },
        Codepoint { codepoint: 0x1D31C, name: "TETRAGRAM FOR EASE", aliases: &[] },
        Codepoint { codepoint: 0x1D31D, name: "TETRAGRAM FOR JOY", aliases: &[] },
        Codepoint { codepoint: 0x1D31E, name: "TETRAGRAM FOR CONTENTION", aliases: &[] },
        Codepoint { codepoint: 0x1D31F, name: "TETRAGRAM FOR ENDEAVOUR", aliases: &[] },
        Codepoint { codepoint: 0x1D320, name: "TETRAGRAM FOR DUTIES", aliases: &[] },
        Codepoint { codepoint: 0x1D321, name: "TETRAGRAM FOR CHANGE", aliases: &[] },
        Codepoint { codepoint: 0x1D322, name: "TETRAGRAM FOR DECISIVENESS", aliases: &[] },
        Codepoint { codepoint: 0x1D323, name: "TETRAGRAM FOR BOLD RESOLUTION", aliases: &[] },
        Codepoint { codepoint: 0x1D324, name: "TETRAGRAM FOR PACKING", aliases: &[] },
        Codepoint { codepoint: 0x1D325, name: "TETRAGRAM FOR LEGION", aliases: &[] },
        Codepoint { codepoint: 0x1D326, name: "TETRAGRAM FOR CLOSENESS", aliases: &[] },
        Codepoint { codepoint: 0x1D327, name: "TETRAGRAM FOR KINSHIP", aliases: &[] },
        Codepoint { codepoint: 0x1D328, name: "TETRAGRAM FOR GATHERING", aliases: &[] },
        Codepoint { codepoint: 0x1D329, name: "TETRAGRAM FOR STRENGTH", aliases: &[] },
        Codepoint { codepoint: 0x1D32A, name: "TETRAGRAM FOR PURITY", aliases: &[] },
        Codepoint { codepoint: 0x1D32B, name: "TETRAGRAM FOR FULLNESS", aliases: &[] },
        Codepoint { codepoint: 0x1D32C, name: "TETRAGRAM FOR RESIDENCE", aliases: &[] },
    ]
}

fn all_codepoints_715() -> (v: Vec<Codepoint>)
    ensures
        v@ == codepoint_table_715(),
{
    let v = vec![
        Codepoint { codepoint: 0x1D305, name: "DIGRAM FOR EARTH", aliases: &[] },
        Codepoint { codepoint: 0x1D306, name: "TETRAGRAM FOR CENTRE", aliases: &[] },
        Codepoint { codepoint: 0x1D307, name: "TETRAGRAM FOR FULL CIRCLE", aliases: &[] },
        Codepoint { codepoint: 0x1D308, name: "TETRAGRAM FOR MIRED", aliases: &[] },
        Codepoint { codepoint: 0x1D309, name: "TETRAGRAM FOR BARRIER", aliases: &[] },
        Codepoint { codepoint: 0x1D30A, name: "TETRAGRAM FOR KEEPING SMALL", aliases: &[] },
        Codepoint { codepoint: 0x1D30B, name: "TETRAGRAM FOR CONTRARIETY", aliases: &[] },
        Codepoint { codepoint: 0x1D30C, name: "TETRAGRAM FOR ASCENT", aliases: &[] },
        Codepoint { codepoint: 0x1D30D, name: "TETRAGRAM FOR OPPOSITION", aliases: &[] },
        Codepoint { codepoint: 0x1D30E, name: "TETRAGRAM FOR BRANCHING OUT", aliases: &[] },
        Codepoint { codepoint: 0x1D30F, name: "TETRAGRAM FOR DEFECTIVENESS OR DISTORTION", aliases: &[] },
        Codepoint { codepoint: 0x1D310, name: "TETRAGRAM FOR DIVERGENCE", aliases: &[] },
        Codepoint { codepoint: 0x1D311, name: "TETRAGRAM FOR YOUTHFULNESS", aliases: &[] },
        Codepoint { codepoint: 0x1D312, name: "TETRAGRAM FOR INCREASE", aliases: &[] },
        Codepoint { codepoint: 0x1D313, name: "TETRAGRAM FOR PENETRATION", aliases: &[] },
        Codepoint { codepoint: 0x1D314, name: "TETRAGRAM FOR REACH", aliases: &[] },
        Codepoint { codepoint: 0x1D315, name: "TETRAGRAM FOR CONTACT", aliases: &[] },
        Codepoint { codepoint: 0x1D316, name: "TETRAGRAM FOR HOLDING BACK", aliases: &[] },
        Codepoint { codepoint: 0x1D317, name: "TETRAGRAM FOR WAITING", aliases: &[] },
        Codepoint { codepoint: 0x1D318, name: "TETRAGRAM FOR FOLLOWING", aliases: &[] },
        Codepoint { codepoint: 0x1D319, name: "TETRAGRAM FOR ADVANCE", aliases: &[] },
        Codepoint { codepoint: 0x1D31A, name: "TETRAGRAM FOR RELEASE", aliases: &[] },
        Codepoint { codepoint: 0x1D31B, name: "TETRAGRAM FOR RESISTANCE", aliases: &[] },
        Codepoint { codepoint: 0x1D31C, name: "TETRAGRAM FOR EASE", aliases: &[] },
        Codepoint { codepoint: 0x1D31D, name: "TETRAGRAM FOR JOY", aliases: &[] },
        Codepoint { codepoint: 0x1D31E, name: "TETRAGRAM FOR CONTENTION", aliases: &[] },
        Codepoint { codepoint: 0x1D31F, name: "TETRAGRAM FOR ENDEAVOUR", aliases: &[] },
        Codepoint { codepoint: 0x1D320, name: "TETRAGRAM FOR DUTIES", aliases: &[] },
        Codepoint { codepoint: 0x1D321, name: "TETRAGRAM FOR CHANGE", aliases: &[] },
        Codepoint { codepoint: 0x1D322, name: "TETRAGRAM FOR DECISIVENESS", aliases: &[] },
        Codepoint { codepoint: 0x1D323, name: "TETRAGRAM FOR BOLD RESOLUTION", aliases: &[] },
        Codepoint { codepoint: 0x1D324, name: "TETRAGRAM FOR PACKING", aliases: &[] },
        Codepoint { codepoint: 0x1D325, name: "TETRAGRAM FOR LEGION", aliases: &[] },
        Codepoint { codepoint: 0x1D326, name: "TETRAGRAM FOR CLOSENESS", aliases: &[] },
        Codepoint { codepoint: 0x1D327, name: "TETRAGRAM FOR KINSHIP", aliases: &[] },
        Codepoint { codepoint: 0x1D328, name: "TETRAGRAM FOR GATHERING", aliases: &[] },
        Codepoint { codepoint: 0x1D329, name: "TETRAGRAM FOR STRENGTH", aliases: &[] },
        Codepoint { codepoint: 0x1D32A, name: "TETRAGRAM FOR PURITY", aliases: &[] },
        Codepoint { codepoint: 0x1D32B, name: "TETRAGRAM FOR FULLNESS", aliases: &[] },
        Codepoint { codepoint: 0x1D32C, name: "TETRAGRAM FOR RESIDENCE", aliases: &[] },
    ];
    assert(v@ =~= codepoint_table_715());
    v
}

pub open spec fn codepoint_table_716() -> Seq<Codepoint> {
    seq![
        Codepoint { codepoint: 0x1D32D, name: "TETRAGRAM FOR LAW OR MODEL", aliases: &[] },
        Codepoint { codepoint: 0x1D32E, name: "TETRAGRAM FOR RESPONSE", aliases: &[] },
        Codepoint { codepoint: 0x1D32F, name: "TETRAGRAM FOR GOING TO MEET", aliases: &[] },
        Codepoint { codepoint: 0x1D330, name: "TETRAGRAM FOR ENCOUNTERS", aliases: &[] },
        Codepoint { codepoint: 0x1D331, name: "TETRAGRAM FOR STOVE", aliases: &[] },
        Codepoint { codepoint: 0x1D332, name: "TETRAGRAM FOR GREATNESS", aliases: &[] },
        Codepoint { codepoint: 0x1D333, name: "TETRAGRAM FOR ENLARGEMENT", aliases: &[] },
        Codepoint { codepoint: 0x1D334, name: "TETRAGRAM FOR PATTERN", aliases: &[] },
        Codepoint { codepoint: 0x1D335, name: "TETRAGRAM FOR RITUAL", aliases: &[] },
        Codepoint { codepoint: 0x1D336, name: "TETRAGRAM FOR FLIGHT", aliases: &[] },
        Codepoint { codepoint: 0x1D337, name: "TETRAGRAM FOR VASTNESS OR WASTING", aliases: &[] },
        Codepoint { codepoint: 0x1D338, name: "TETRAGRAM FOR CONSTANCY", aliases: &[] },
        Codepoint { codepoint: 0x1D339, name: "TETRAGRAM FOR MEASURE", aliases: &[] },
        Codepoint { codepoint: 0x1D33A, name: "TETRAGRAM FOR ETERNITY", aliases: &[] },
        Codepoint { codepoint: 0x1D33B, name: "TETRAGRAM FOR UNITY", aliases: &[] },
        Codepoint { codepoint: 0x1D33C, name: "TETRAGRAM FOR DIMINISHMENT", aliases: &[] },
        Codepoint { codepoint: 0x1D33D, name: "TETRAGRAM FOR CLOSED MOUTH", aliases: &[] },
        Codepoint { codepoint: 0x1D33E, name: "TETRAGRAM FOR GUARDEDNESS", aliases: &[] },
        Codepoint { codepoint: 0x1D33F, name: "TETRAGRAM FOR GATHERING IN", aliases: &[] },
        Codepoint { codepoint: 0x1D340, name: "TETRAGRAM FOR MASSING", aliases: &[] },
        Codepoint { codepoint: 0x1D341, name: "TETRAGRAM FOR ACCUMULATION", aliases: &[] },
        Codepoint { codepoint: 0x1D342, name: "TETRAGRAM FOR EMBELLISHMENT", aliases: &[] },
        Codepoint { codepoint: 0x1D343, name: "TETRAGRAM FOR DOUBT", aliases: &[] },
        Codepoint { codepoint: 0x1D344, name: "TETRAGRAM FOR WATCH", aliases: &[] },
        Codepoint { codepoint: 0x1D345, name: "TETRAGRAM FOR SINKING", aliases: &[] },
        Codepoint { codepoint: 0x1D346, name: "TETRAGRAM FOR INNER", aliases: &[] },
        Codepoint { codepoint: 0x1D347, name: "TETRAGRAM FOR DEPARTURE", aliases: &[] },
        Codepoint { codepoint: 0x1D348, name: "TETRAGRAM FOR DARKENING", aliases: &[] },
        Codepoint { codepoint: 0x1D349, name: "TETRAGRAM FOR DIMMING", aliases: &[] },
        Codepoint { codepoint: 0x1D34A, name: "TETRAGRAM FOR EXHAUSTION", aliases: &[] },
        Codepoint { codepoint: 0x1D34B, name: "TETRAGRAM FOR SEVERANCE", aliases: &[] },
        Codepoint { codepoint: 0x1D34C, name: "TETRAGRAM FOR STOPPAGE", aliases: &[] },
        Codepoint { codepoint: 0x1D34D, name: "TETRAGRAM FOR HARDNESS", aliases: &[] },
        Codepoint { codepoint: 0x1D34E, name: "TETRAGRAM FOR COMPLETION", aliases: &[] },
        Codepoint { codepoint: 0x1D34F, name: "TETRAGRAM FOR CLOSURE", aliases: &[] },
        Codepoint { codepoint: 0x1D350, name: "TETRAGRAM FOR FAILURE", aliases: &[] },
        Codepoint { codepoint: 0x1D351, name: "TETRAGRAM FOR AGGRAVATION", aliases: &[] },
        Codepoint { codepoint: 0x1D352, name: "TETRAGRAM FOR COMPLIANCE", aliases: &[] },
        Codepoint { codepoint: 0x1D353, name: "TETRAGRAM FOR ON THE VERGE", aliases: &[] },
        Codepoint { codepoint: 0x1D354, name: "TETRAGRAM FOR DIFFICULTIES", aliases: &[] },
    ]
}

fn all_codepoints_716() -> (v: Vec<Codepoint>)
    ensures
        v@ == codepoint_table_716(),
{
    let v = vec![
        Codepoint { codepoint: 0x1D32D, name: "TETRAGRAM FOR LAW OR MODEL", aliases: &[] },
        Codepoint { codepoint: 0x1D32E, name: "TETRAGRAM FOR RESPONSE", aliases: &[] },
        Codepoint { codepoint: 0x1D32F, name: "TETRAGRAM FOR GOING TO MEET", aliases: &[] },
        Codepoint { codepoint: 0x1D330, name: "TETRAGRAM FOR ENCOUNTERS", aliases: &[] },
        Codepoint { codepoint: 0x1D331, name: "TETRAGRAM FOR STOVE", aliases: &[] },
        Codepoint { codepoint: 0x1D332, name: "TETRAGRAM FOR GREATNESS", aliases: &[] },
        Codepoint { codepoint: 0x1D333, name: "TETRAGRAM FOR ENLARGEMENT", aliases: &[] },
        Codepoint { codepoint: 0x1D334, name: "TETRAGRAM FOR PATTERN", aliases: &[] },
        Codepoint { codepoint: 0x1D335, name: "TETRAGRAM FOR RITUAL", aliases: &[] },
        Codepoint { codepoint: 0x1D336, name: "TETRAGRAM FOR FLIGHT", aliases: &[] },
        Codepoint { codepoint: 0x1D337, name: "TETRAGRAM FOR VASTNESS OR WASTING", aliases: &[] },
        Codepoint { codepoint: 0x1D338, name: "TETRAGRAM FOR CONSTANCY", aliases: &[] },
        Codepoint { codepoint: 0x1D339, name: "TETRAGRAM FOR MEASURE", aliases: &[] },
        Codepoint { codepoint: 0x1D33A, name: "TETRAGRAM FOR ETERNITY", aliases: &[] },
        Codepoint { codepoint: 0x1D33B, name: "TETRAGRAM FOR UNITY", aliases: &[] },
        Codepoint { codepoint: 0x1D33C, name: "TETRAGRAM FOR DIMINISHMENT", aliases: &[] },
        Codepoint { codepoint: 0x1D33D, name: "TETRAGRAM FOR CLOSED MOUTH", aliases: &[] },
        Codepoint { codepoint: 0x1D33E, name: "TETRAGRAM FOR GUARDEDNESS", aliases: &[] },
        Codepoint { codepoint: 0x1D33F, name: "TETRAGRAM FOR GATHERING IN", aliases: &[] },
        Codepoint { codepoint: 0x1D340, name: "TETRAGRAM FOR MASSING", aliases: &[] },
        Codepoint { codepoint: 0x1D341, name: "TETRAGRAM FOR ACCUMULATION", aliases: &[] },
        Codepoint { codepoint: 0x1D342, name: "TETRAGRAM FOR EMBELLISHMENT", aliases: &[] },
        Codepoint { codepoint: 0x1D343, name: "TETRAGRAM FOR DOUBT", aliases: &[] },
        Codepoint { codepoint: 0x1D344, name: "TETRAGRAM FOR WATCH", aliases: &[] },
        Codepoint { codepoint: 0x1D345, name: "TETRAGRAM FOR SINKING", aliases: &[] },
        Codepoint { codepoint: 0x1D346, name: "TETRAGRAM FOR INNER", aliases: &[] },
        Codepoint { codepoint: 0x1D347, name: "TETRAGRAM FOR DEPARTURE", aliases: &[] },
        Codepoint { codepoint: 0x1D348, name: "TETRAGRAM FOR DARKENING", aliases: &[] },
        Codepoint { codepoint: 0x1D349, name: "TETRAGRAM FOR DIMMING", aliases: &[] },
        Codepoint { codepoint: 0x1D34A, name: "TETRAGRAM FOR EXHAUSTION", aliases: &[] },
        Codepoint { codepoint: 0x1D34B, name: "TETRAGRAM FOR SEVERANCE", aliases: &[] },
        Codepoint { codepoint: 0x1D34C, name: "TETRAGRAM FOR STOPPAGE", aliases: &[] },
        Codepoint { codepoint: 0x1D34D, name: "TETRAGRAM FOR HARDNESS", aliases: &[] },
        Codepoint { codepoint: 0x1D34E, name: "TETRAGRAM FOR COMPLETION", aliases: &[] },
        Codepoint { codepoint: 0x1D34F, name: "TETRAGRAM FOR CLOSURE", aliases: &[] },
        Codepoint { codepoint: 0x1D350, name: "TETRAGRAM FOR FAILURE", aliases: &[] },
        Codepoint { codepoint: 0x1D351, name: "TETRAGRAM FOR AGGRAVATION", aliases: &[] },
        Codepoint { codepoint: 0x1D352, name: "TETRAGRAM FOR COMPLIANCE", aliases: &[] },
        Codepoint { codepoint: 0x1D353, name: "TETRAGRAM FOR ON THE VERGE", aliases: &[] },
        Codepoint { codepoint: 0x1D354, name: "TETRAGRAM FOR DIFFICULTIES", aliases: &[] },
    ];
    assert(v@ =~= codepoint_table_716());
    v
}

pub open spec fn codepoint_table_717() -> Seq<Codepoint> {
    seq![
        Codepoint { codepoint: 0x1D355, name: "TETRAGRAM FOR LABOURING", aliases: &[] },
        Codepoint { codepoint: 0x1D356, name: "TETRAGRAM FOR FOSTERING", aliases: &[] },
        Codepoint { codepoint: 0x1D360, name: "COUNTING ROD UNIT DIGIT ONE", aliases: &[] },
        Codepoint { codepoint: 0x1D361, name: "COUNTING ROD UNIT DIGIT TWO", aliases: &[] },
        Codepoint { codepoint: 0x1D362, name: "COUNTING ROD UNIT DIGIT THREE", aliases: &[] },
        Codepoint { codepoint: 0x1D363, name: "COUNTING ROD UNIT DIGIT FOUR", aliases: &[] },
        Codepoint { codepoint: 0x1D364, name: "COUNTING ROD UNIT DIGIT FIVE", aliases: &[] },
        Codepoint { codepoint: 0x1D365, name: "COUNTING ROD UNIT DIGIT SIX", aliases: &[] },
        Codepoint { codepoint: 0x1D366, name: "COUNTING ROD UNIT DIGIT SEVEN", aliases: &[] },
        Codepoint { codepoint: 0x1D367, name: "COUNTING ROD UNIT DIGIT EIGHT", aliases: &[] },
        Codepoint { codepoint: 0x1D368, name: "COUNTING ROD UNIT DIGIT NINE", aliases: &[] },
        Codepoint { codepoint: 0x1D369, name: "COUNTING ROD TENS DIGIT ONE", aliases: &[] },
        Codepoint { codepoint: 0x1D36A, name: "COUNTING ROD TENS DIGIT TWO", aliases: &[] },
        Codepoint { codepoint: 0x1D36B, name: "COUNTING ROD TENS DIGIT THREE", aliases: &[] },
        Codepoint { codepoint: 0x1D36C, name: "COUNTING ROD TENS DIGIT FOUR", aliases: &[] },
        Codepoint { codepoint: 0x1D36D, name: "COUNTING ROD TENS DIGIT FIVE", aliases: &[] },
        Codepoint { codepoint: 0x1D36E, name: "COUNTING ROD TENS DIGIT SIX", aliases: &[] },
        Codepoint { codepoint: 0x1D36F, name: "COUNTING ROD TENS DIGIT SEVEN", aliases: &[] },
        Codepoint { codepoint: 0x1D370, name: "COUNTING ROD TENS DIGIT EIGHT", aliases: &[] },
        Codepoint { codepoint: 0x1D371, name: "COUNTING ROD TENS DIGIT NINE", aliases: &[] },
        Codepoint { codepoint: 0x1D372, name: "IDEOGRAPHIC TALLY MARK ONE", aliases: &[] },
        Codepoint { codepoint: 0x1D373, name: "IDEOGRAPHIC TALLY MARK TWO", aliases: &[] },
        Codepoint { codepoint: 0x1D374, name: "IDEOGRAPHIC TALLY MARK THREE", aliases: &[] },
        Codepoint { codepoint: 0x1D375, name: "IDEOGRAPHIC TALLY MARK FOUR", aliases: &[] },
        Codepoint { codepoint: 0x1D376, name: "IDEOGRAPHIC TALLY MARK FIVE", aliases: &[] },
        Codepoint { codepoint: 0x1D377, name: "TALLY MARK ONE", aliases: &[] },
        Codepoint { codepoint: 0x1D378, name: "TALLY MARK FIVE", aliases: &[] },
        Codepoint { codepoint: 0x1D400, name: "MATHEMATICAL BOLD CAPITAL A", aliases: &[] },
        Codepoint { codepoint: 0x1D401, name: "MATHEMATICAL BOLD CAPITAL B", aliases: &[] },
        Codepoint { codepoint: 0x1D402, name: "MATHEMATICAL BOLD CAPITAL C", aliases: &[] },
        Codepoint { codepoint: 0x1D403, name: "MATHEMATICAL BOLD CAPITAL D", aliases: &[] },
        Codepoint { codepoint: 0x1D404, name: "MATHEMATICAL BOLD CAPITAL E", aliases: &[] },
        Codepoint { codepoint: 0x1D405, name: "MATHEMATICAL BOLD CAPITAL F", aliases: &[] },
        Codepoint { codepoint: 0x1D406, name: "MATHEMATICAL BOLD CAPITAL G", aliases: &[] },
        Codepoint { codepoint: 0x1D407, name: "MATHEMATICAL BOLD CAPITAL H", aliases: &[] },
        Codepoint { codepoint: 0x1D408, name: "MATHEMATICAL BOLD CAPITAL I", aliases: &[] },
        Codepoint { codepoint: 0x1D409, name: "MATHEMATICAL BOLD CAPITAL J", aliases: &[] },
        Codepoint { codepoint: 0x1D40A, name: "MATHEMATICAL BOLD CAPITAL K", aliases: &[] },
        Codepoint { codepoint: 0x1D40B, name: "MATHEMATICAL BOLD CAPITAL L", aliases: &[] },
        Codepoint { codepoint: 0x1D40C, name: "MATHEMATICAL BOLD CAPITAL M", aliases: &[] },
    ]
}

fn all_codepoints_717() -> (v: Vec<Codepoint>)
    ensures
        v@ == codepoint_table_717(),
{
    let v = vec![
        Codepoint { codepoint: 0x1D355, name: "TETRAGRAM FOR LABOURING", aliases: &[] },
        Codepoint { codepoint: 0x1D356, name: "TETRAGRAM FOR FOSTERING", aliases: &[] },
        Codepoint { codepoint: 0x1D360, name: "COUNTING ROD UNIT DIGIT ONE", aliases: &[] },
        Codepoint { codepoint: 0x1D361, name: "COUNTING ROD UNIT DIGIT TWO", aliases: &[] },
        Codepoint { codepoint: 0x1D362, name: "COUNTING ROD UNIT DIGIT THREE", aliases: &[] },
        Codepoint { codepoint: 0x1D363, name: "COUNTING ROD UNIT DIGIT FOUR", aliases: &[] },
        Codepoint { codepoint: 0x1D364, name: "COUNTING ROD UNIT DIGIT FIVE", aliases: &[] },
        Codepoint { codepoint: 0x1D365, name: "COUNTING ROD UNIT DIGIT SIX", aliases: &[] },
        Codepoint { codepoint: 0x1D366, name: "COUNTING ROD UNIT DIGIT SEVEN", aliases: &[] },
        Codepoint { codepoint: 0x1D367, name: "COUNTING ROD UNIT DIGIT EIGHT", aliases: &[] },
        Codepoint { codepoint: 0x1D368, name: "COUNTING ROD UNIT DIGIT NINE", aliases: &[] },
        Codepoint { codepoint: 0x1D369, name: "COUNTING ROD TENS DIGIT ONE", aliases: &[] },
        Codepoint { codepoint: 0x1D36A, name: "COUNTING ROD TENS DIGIT TWO", aliases: &[] },
        Codepoint { codepoint: 0x1D36B, name: "COUNTING ROD TENS DIGIT THREE", aliases: &[] },
        Codepoint { codepoint: 0x1D36C, name: "COUNTING ROD TENS DIGIT FOUR", aliases: &[] },
        Codepoint { codepoint: 0x1D36D, name: "COUNTING ROD TENS DIGIT FIVE", aliases: &[] },
        Codepoint { codepoint: 0x1D36E, name: "COUNTING ROD TENS DIGIT SIX", aliases: &[] },
        Codepoint { codepoint: 0x1D36F, name: "COUNTING ROD TENS DIGIT SEVEN", aliases: &[] },
        Codepoint { codepoint: 0x1D370, name: "COUNTING ROD TENS DIGIT EIGHT", aliases: &[] },
        Codepoint { codepoint: 0x1D371, name: "COUNTING ROD TENS DIGIT NINE", aliases: &[] },
        Codepoint { codepoint: 0x1D372, name: "IDEOGRAPHIC TALLY MARK ONE", aliases: &[] },
        Codepoint { codepoint: 0x1D373, name: "IDEOGRAPHIC TALLY MARK TWO", aliases: &[] },
        Codepoint { codepoint: 0x1D374, name: "IDEOGRAPHIC TALLY MARK THREE", aliases: &[] },
        Codepoint { codepoint: 0x1D375, name: "IDEOGRAPHIC TALLY MARK FOUR", aliases: &[] },
        Codepoint { codepoint: 0x1D376, name: "IDEOGRAPHIC TALLY MARK FIVE", aliases: &[] },
        Codepoint { codepoint: 0x1D377, name: "TALLY MARK ONE", aliases: &[] },
        Codepoint { codepoint: 0x1D378, name: "TALLY MARK FIVE", aliases: &[] },
        Codepoint { codepoint: 0x1D400, name: "MATHEMATICAL BOLD CAPITAL A", aliases: &[] },
        Codepoint { codepoint: 0x1D401, name: "MATHEMATICAL BOLD CAPITAL B", aliases: &[] },
        Codepoint { codepoint: 0x1D402, name: "MATHEMATICAL BOLD CAPITAL C", aliases: &[] },
        Codepoint { codepoint: 0x1D403, name: "MATHEMATICAL BOLD CAPITAL D", aliases: &[] },
        Codepoint { codepoint: 0x1D404, name: "MATHEMATICAL BOLD CAPITAL E", aliases: &[] },
        Codepoint { codepoint: 0x1D405, name: "MATHEMATICAL BOLD CAPITAL F", aliases: &[] },
        Codepoint { codepoint: 0x1D406, name: "MATHEMATICAL BOLD CAPITAL G", aliases: &[] },
        Codepoint { codepoint: 0x1D407, name: "MATHEMATICAL BOLD CAPITAL H", aliases: &[] },
        Codepoint { codepoint: 0x1D408, name: "MATHEMATICAL BOLD CAPITAL I", aliases: &[] },
        Codepoint { codepoint: 0x1D409, name: "MATHEMATICAL BOLD CAPITAL J", aliases: &[] },
        Codepoint { codepoint: 0x1D40A, name: "MATHEMATICAL BOLD CAPITAL K", aliases: &[] },
        Codepoint { codepoint: 0x1D40B, name: "MATHEMATICAL BOLD CAPITAL L", aliases: &[] },
        Codepoint { codepoint: 0x1D40C, name: "MATHEMATICAL BOLD CAPITAL M", aliases: &[] },
    ];
    assert(v@ =~= codepoint_table_717());
    v
}

pub open spec fn codepoint_table_718() -> Seq<Codepoint> {
    seq![
        Codepoint { codepoint: 0x1D40D, name: "MATHEMATICAL BOLD CAPITAL N", aliases: &[] },
        Codepoint { codepoint: 0x1D40E, name: "MATHEMATICAL BOLD CAPITAL O", aliases: &[] },
        Codepoint { codepoint: 0x1D40F, name: "MATHEMATICAL BOLD CAPITAL P", aliases: &[] },
        Codepoint { codepoint: 0x1D410, name: "MATHEMATICAL BOLD CAPITAL Q", aliases: &[] },
        Codepoint { codepoint: 0x1D411, name: "MATHEMATICAL BOLD CAPITAL R", aliases: &[] },
        Codepoint { codepoint: 0x1D412, name: "MATHEMATICAL BOLD CAPITAL S", aliases: &[] },
        Codepoint { codepoint: 0x1D413, name: "MATHEMATICAL BOLD CAPITAL T", aliases: &[] },
        Codepoint { codepoint: 0x1D414, name: "MATHEMATICAL BOLD CAPITAL U", aliases: &[] },
        Codepoint { codepoint: 0x1D415, name: "MATHEMATICAL BOLD CAPITAL V", aliases: &[] },
        Codepoint { codepoint: 0x1D416, name: "MATHEMATICAL BOLD CAPITAL W", aliases: &[] },
        Codepoint { codepoint: 0x1D417, name: "MATHEMATICAL BOLD CAPITAL X", aliases: &[] },
        Codepoint { codepoint: 0x1D418, name: "MATHEMATICAL BOLD CAPITAL Y", aliases: &[] },
        Codepoint { codepoint: 0x1D419, name: "MATHEMATICAL BOLD CAPITAL Z", aliases: &[] },
        Codepoint { codepoint: 0x1D41A, name: "MATHEMATICAL BOLD SMALL A", aliases: &[] },
        Codepoint { codepoint: 0x1D41B, name: "MATHEMATICAL BOLD SMALL B", aliases: &[] },
        Codepoint { codepoint: 0x1D41C, name: "MATHEMATICAL BOLD SMALL C", aliases: &[] },
        Codepoint { codepoint: 0x1D41D, name: "MATHEMATICAL BOLD SMALL D", aliases: &[] },
        Codepoint { codepoint: 0x1D41E, name: "MATHEMATICAL BOLD SMALL E", aliases: &[] },
        Codepoint { codepoint: 0x1D41F, name: "MATHEMATICAL BOLD SMALL F", aliases: &[] },
        Codepoint { codepoint: 0x1D420, name: "MATHEMATICAL BOLD SMALL G", aliases: &[] },
        Codepoint { codepoint: 0x1D421, name: "MATHEMATICAL BOLD SMALL H", aliases: &[] },
        Codepoint { codepoint: 0x1D422, name: "MATHEMATICAL BOLD SMALL I", aliases: &[] },
        Codepoint { codepoint: 0x1D423, name: "MATHEMATICAL BOLD SMALL J", aliases: &[] },
        Codepoint { codepoint: 0x1D424, name: "MATHEMATICAL BOLD SMALL K", aliases: &[] },
        Codepoint { codepoint: 0x1D425, name: "MATHEMATICAL BOLD SMALL L", aliases: &[] },
        Codepoint { codepoint: 0x1D426, name: "MATHEMATICAL BOLD SMALL M", aliases: &[] },
        Codepoint { codepoint: 0x1D427, name: "MATHEMATICAL BOLD SMALL N", aliases: &[] },
        Codepoint { codepoint: 0x1D428, name: "MATHEMATICAL BOLD SMALL O", aliases: &[] },
        Codepoint { codepoint: 0x1D429, name: "MATHEMATICAL BOLD SMALL P", aliases: &[] },
        Codepoint { codepoint: 0x1D42A, name: "MATHEMATICAL BOLD SMALL Q", aliases: &[] },
        Codepoint { codepoint: 0x1D42B, name: "MATHEMATICAL BOLD SMALL R", aliases: &[] },
        Codepoint { codepoint: 0x1D42C, name: "MATHEMATICAL BOLD SMALL S", aliases: &[] },
        Codepoint { codepoint: 0x1D42D, name: "MATHEMATICAL BOLD SMALL T", aliases: &[] },
        Codepoint { codepoint: 0x1D42E, name: "MATHEMATICAL BOLD SMALL U", aliases: &[] },
        Codepoint { codepoint: 0x1D42F, name: "MATHEMATICAL BOLD SMALL V", aliases: &[] },
        Codepoint { codepoint: 0x1D430, name: "MATHEMATICAL BOLD SMALL W", aliases: &[] },
        Codepoint { codepoint: 0x1D431, name: "MATHEMATICAL BOLD SMALL X", aliases: &[] },
        Codepoint { codepoint: 0x1D432, name: "MATHEMATICAL BOLD SMALL Y", aliases: &[] },
        Codepoint { codepoint: 0x1D433, name: "MATHEMATICAL BOLD SMALL Z", aliases: &[] },
        Codepoint { codepoint: 0x1D434, name: "MATHEMATICAL ITALIC CAPITAL A", aliases: &[] },
    ]
}

fn all_codepoints_718() -> (v: Vec<Codepoint>)
    ensures
        v@ == codepoint_table_718(),
{
    let v = vec![
        Codepoint { codepoint: 0x1D40D, name: "MATHEMATICAL BOLD CAPITAL N", aliases: &[] },
        Codepoint { codepoint: 0x1D40E, name: "MATHEMATICAL BOLD CAPITAL O", aliases: &[] },
        Codepoint { codepoint: 0x1D40F, name: "MATHEMATICAL BOLD CAPITAL P", aliases: &[] },
        Codepoint { codepoint: 0x1D410, name: "MATHEMATICAL BOLD CAPITAL Q", aliases: &[] },
        Codepoint { codepoint: 0x1D411, name: "MATHEMATICAL BOLD CAPITAL R", aliases: &[] },
        Codepoint { codepoint: 0x1D412, name: "MATHEMATICAL BOLD CAPITAL S", aliases: &[] },
        Codepoint { codepoint: 0x1D413, name: "MATHEMATICAL BOLD CAPITAL T", aliases: &[] },
        Codepoint { codepoint: 0x1D414, name: "MATHEMATICAL BOLD CAPITAL U", aliases: &[] },
        Codepoint { codepoint: 0x1D415, name: "MATHEMATICAL BOLD CAPITAL V", aliases: &[] },
        Codepoint { codepoint: 0x1D416, name: "MATHEMATICAL BOLD CAPITAL W", aliases: &[] },
        Codepoint { codepoint: 0x1D417, name: "MATHEMATICAL BOLD CAPITAL X", aliases: &[] },
        Codepoint { codepoint: 0x1D418, name: "MATHEMATICAL BOLD CAPITAL Y", aliases: &[] },
        Codepoint { codepoint: 0x1D419, name: "MATHEMATICAL BOLD CAPITAL Z", aliases: &[] },
        Codepoint { codepoint: 0x1D41A, name: "MATHEMATICAL BOLD SMALL A", aliases: &[] },
        Codepoint { codepoint: 0x1D41B, name: "MATHEMATICAL BOLD SMALL B", aliases: &[] },
        Codepoint { codepoint: 0x1D41C, name: "MATHEMATICAL BOLD SMALL C", aliases: &[] },
        Codepoint { codepoint: 0x1D41D, name: "MATHEMATICAL BOLD SMALL D", aliases: &[] },
        Codepoint { codepoint: 0x1D41E, name: "MATHEMATICAL BOLD SMALL E", aliases: &[] },
        Codepoint { codepoint: 0x1D41F, name: "MATHEMATICAL BOLD SMALL F", aliases: &[] },
        Codepoint { codepoint: 0x1D420, name: "MATHEMATICAL BOLD SMALL G", aliases: &[] },
        Codepoint { codepoint: 0x1D421, name: "MATHEMATICAL BOLD SMALL H", aliases: &[] },
        Codepoint { codepoint: 0x1D422, name: "MATHEMATICAL BOLD SMALL I", aliases: &[] },
        Codepoint { codepoint: 0x1D423, name: "MATHEMATICAL BOLD SMALL J", aliases: &[] },
        Codepoint { codepoint: 0x1D424, name: "MATHEMATICAL BOLD SMALL K", aliases: &[] },
        Codepoint { codepoint: 0x1D425, name: "MATHEMATICAL BOLD SMALL L", aliases: &[] },
        Codepoint { codepoint: 0x1D426, name: "MATHEMATICAL BOLD SMALL M", aliases: &[] },
        Codepoint { codepoint: 0x1D427, name: "MATHEMATICAL BOLD SMALL N", aliases: &[] },
        Codepoint { codepoint: 0x1D428, name: "MATHEMATICAL BOLD SMALL O", aliases: &[] },
        Codepoint { codepoint: 0x1D429, name: "MATHEMATICAL BOLD SMALL P", aliases: &[] },
        Codepoint { codepoint: 0x1D42A, name: "MATHEMATICAL BOLD SMALL Q", aliases: &[] },
        Codepoint { codepoint: 0x1D42B, name: "MATHEMATICAL BOLD SMALL R", aliases: &[] },
        Codepoint { codepoint: 0x1D42C, name: "MATHEMATICAL BOLD SMALL S", aliases: &[] },
        Codepoint { codepoint: 0x1D42D, name: "MATHEMATICAL BOLD SMALL T", aliases: &[] },
        Codepoint { codepoint: 0x1D42E, name: "MATHEMATICAL BOLD SMALL U", aliases: &[] },
        Codepoint { codepoint: 0x1D42F, name: "MATHEMATICAL BOLD SMALL V", aliases: &[] },
        Codepoint { codepoint: 0x1D430, name: "MATHEMATICAL BOLD SMALL W", aliases: &[] },
        Codepoint { codepoint: 0x1D431, name: "MATHEMATICAL BOLD SMALL X", aliases: &[] },
        Codepoint { codepoint: 0x1D432, name: "MATHEMATICAL BOLD SMALL Y", aliases: &[] },
        Codepoint { codepoint: 0x1D433, name: "MATHEMATICAL BOLD SMALL Z", aliases: &[] },
        Codepoint { codepoint: 0x1D434, name: "MATHEMATICAL ITALIC CAPITAL A", aliases: &[] },
    ];
    assert(v@ =~= codepoint_table_718());
    v
}

pub open spec fn codepoint_table_719() -> Seq<Codepoint> {
    seq![
        Codepoint { codepoint: 0x1D435, name: "MATHEMATICAL ITALIC CAPITAL B", aliases: &[] },
        Codepoint { codepoint: 0x1D436, name: "MATHEMATICAL ITALIC CAPITAL C", aliases: &[] },
        Codepoint { codepoint: 0x1D437, name: "MATHEMATICAL ITALIC CAPITAL D", aliases: &[] },
        Codepoint { codepoint: 0x1D438, name: "MATHEMATICAL ITALIC CAPITAL E", aliases: &[] },
        Codepoint { codepoint: 0x1D439, name: "MATHEMATICAL ITALIC CAPITAL F", aliases: &[] },
        Codepoint { codepoint: 0x1D43A, name: "MATHEMATICAL ITALIC CAPITAL G", aliases: &[] },
        Codepoint { codepoint: 0x1D43B, name: "MATHEMATICAL ITALIC CAPITAL H", aliases: &[] },
        Codepoint { codepoint: 0x1D43C, name: "MATHEMATICAL ITALIC CAPITAL I", aliases: &[] },
        Codepoint { codepoint: 0x1D43D, name: "MATHEMATICAL ITALIC CAPITAL J", aliases: &[] },
        Codepoint { codepoint: 0x1D43E, name: "MATHEMATICAL ITALIC CAPITAL K", aliases: &[] },
        Codepoint { codepoint: 0x1D43F, name: "MATHEMATICAL ITALIC CAPITAL L", aliases: &[] },
        Codepoint { codepoint: 0x1D440, name: "MATHEMATICAL ITALIC CAPITAL M", aliases: &[] },
        Codepoint { codepoint: 0x1D441, name: "MATHEMATICAL ITALIC CAPITAL N", aliases: &[] },
        Codepoint { codepoint: 0x1D442, name: "MATHEMATICAL ITALIC CAPITAL O", aliases: &[] },
        Codepoint { codepoint: 0x1D443, name: "MATHEMATICAL ITALIC CAPITAL P", aliases: &[] },
        Codepoint { codepoint: 0x1D444, name: "MATHEMATICAL ITALIC CAPITAL Q", aliases: &[] },
        Codepoint { codepoint: 0x1D445, name: "MATHEMATICAL ITALIC CAPITAL R", aliases: &[] },
        Codepoint { codepoint: 0x1D446, name: "MATHEMATICAL ITALIC CAPITAL S", aliases: &[] },
        Codepoint { codepoint: 0x1D447, name: "MATHEMATICAL ITALIC CAPITAL T", aliases: &[] },
        Codepoint { codepoint: 0x1D448, name: "MATHEMATICAL ITALIC CAPITAL U", aliases: &[] },
        Codepoint { codepoint: 0x1D449, name: "MATHEMATICAL ITALIC CAPITAL V", aliases: &[] },
        Codepoint { codepoint: 0x1D44A, name: "MATHEMATICAL ITALIC CAPITAL W", aliases: &[] },
        Codepoint { codepoint: 0x1D44B, name: "MATHEMATICAL ITALIC CAPITAL X", aliases: &[] },
        Codepoint { codepoint: 0x1D44C, name: "MATHEMATICAL ITALIC CAPITAL Y", aliases: &[] },
        Codepoint { codepoint: 0x1D44D, name: "MATHEMATICAL ITALIC CAPITAL Z", aliases: &[] },
        Codepoint { codepoint: 0x1D44E, name: "MATHEMATICAL ITALIC SMALL A", aliases: &[] },
        Codepoint { codepoint: 0x1D44F, name: "MATHEMATICAL ITALIC SMALL B", aliases: &[] },
        Codepoint { codepoint: 0x1D450, name: "MATHEMATICAL ITALIC SMALL C", aliases: &[] },
        Codepoint { codepoint: 0x1D451, name: "MATHEMATICAL ITALIC SMALL D", aliases: &[] },
        Codepoint { codepoint: 0x1D452, name: "MATHEMATICAL ITALIC SMALL E", aliases: &[] },
        Codepoint { codepoint: 0x1D453, name: "MATHEMATICAL ITALIC SMALL F", aliases: &[] },
        Codepoint { codepoint: 0x1D454, name: "MATHEMATICAL ITALIC SMALL G", aliases: &[] },
        Codepoint { codepoint: 0x1D456, name: "MATHEMATICAL ITALIC SMALL I", aliases: &[] },
        Codepoint { codepoint: 0x1D457, name: "MATHEMATICAL ITALIC SMALL J", aliases: &[] },
        Codepoint { codepoint: 0x1D458, name: "MATHEMATICAL ITALIC SMALL K", aliases: &[] },
        Codepoint { codepoint: 0x1D459, name: "MATHEMATICAL ITALIC SMALL L", aliases: &[] },
        Codepoint { codepoint: 0x1D45A, name: "MATHEMATICAL ITALIC SMALL M", aliases: &[] },
        Codepoint { codepoint: 0x1D45B, name: "MATHEMATICAL ITALIC SMALL N", aliases: &[] },
        Codepoint { codepoint: 0x1D45C, name: "MATHEMATICAL ITALIC SMALL O", aliases: &[] },
        Codepoint { codepoint: 0x1D45D, name: "MATHEMATICAL ITALIC SMALL P", aliases: &[] },
    ]
}

fn all_codepoints_719() -> (v: Vec<Codepoint>)
    ensures
        v@ == codepoint_table_719(),
{
    let v = vec![
        Codepoint { codepoint: 0x1D435, name: "MATHEMATICAL ITALIC CAPITAL B", aliases: &[] },
        Codepoint { codepoint: 0x1D436, name: "MATHEMATICAL ITALIC CAPITAL C", aliases: &[] },
        Codepoint { codepoint: 0x1D437, name: "MATHEMATICAL ITALIC CAPITAL D", aliases: &[] },
        Codepoint { codepoint: 0x1D438, name: "MATHEMATICAL ITALIC CAPITAL E", aliases: &[] },
        Codepoint { codepoint: 0x1D439, name: "MATHEMATICAL ITALIC CAPITAL F", aliases: &[] },
        Codepoint { codepoint: 0x1D43A, name: "MATHEMATICAL ITALIC CAPITAL G", aliases: &[] },
        Codepoint { codepoint: 0x1D43B, name: "MATHEMATICAL ITALIC CAPITAL H", aliases: &[] },
        Codepoint { codepoint: 0x1D43C, name: "MATHEMATICAL ITALIC CAPITAL I", aliases: &[] },
        Codepoint { codepoint: 0x1D43D, name: "MATHEMATICAL ITALIC CAPITAL J", aliases: &[] },
        Codepoint { codepoint: 0x1D43E, name: "MATHEMATICAL ITALIC CAPITAL K", aliases: &[] },
        Codepoint { codepoint: 0x1D43F, name: "MATHEMATICAL ITALIC CAPITAL L", aliases: &[] },
        Codepoint { codepoint: 0x1D440, name: "MATHEMATICAL ITALIC CAPITAL M", aliases: &[] },
        Codepoint { codepoint: 0x1D441, name: "MATHEMATICAL ITALIC CAPITAL N", aliases: &[] },
        Codepoint { codepoint: 0x1D442, name: "MATHEMATICAL ITALIC CAPITAL O", aliases: &[] },
        Codepoint { codepoint: 0x1D443, name: "MATHEMATICAL ITALIC CAPITAL P", aliases: &[] },
        Codepoint { codepoint: 0x1D444, name: "MATHEMATICAL ITALIC CAPITAL Q", aliases: &[] },
        Codepoint { codepoint: 0x1D445, name: "MATHEMATICAL ITALIC CAPITAL R", aliases: &[] },
        Codepoint { codepoint: 0x1D446, name: "MATHEMATICAL ITALIC CAPITAL S", aliases: &[] },
        Codepoint { codepoint: 0x1D447, name: "MATHEMATICAL ITALIC CAPITAL T", aliases: &[] },
        Codepoint { codepoint: 0x1D448, name: "MATHEMATICAL ITALIC CAPITAL U", aliases: &[] },
        Codepoint { codepoint: 0x1D449, name: "MATHEMATICAL ITALIC CAPITAL V", aliases: &[] },
        Codepoint { codepoint: 0x1D44A, name: "MATHEMATICAL ITALIC CAPITAL W", aliases: &[] },
        Codepoint { codepoint: 0x1D44B, name: "MATHEMATICAL ITALIC CAPITAL X", aliases: &[] },
        Codepoint { codepoint: 0x1D44C, name: "MATHEMATICAL ITALIC CAPITAL Y", aliases: &[] },
        Codepoint { codepoint: 0x1D44D, name: "MATHEMATICAL ITALIC CAPITAL Z", aliases: &[] },
        Codepoint { codepoint: 0x1D44E, name: "MATHEMATICAL ITALIC SMALL A", aliases: &[] },
        Codepoint { codepoint: 0x1D44F, name: "MATHEMATICAL ITALIC SMALL B", aliases: &[] },
        Codepoint { codepoint: 0x1D450, name: "MATHEMATICAL ITALIC SMALL C", aliases: &[] },
        Codepoint { codepoint: 0x1D451, name: "MATHEMATICAL ITALIC SMALL D", aliases: &[] },
        Codepoint { codepoint: 0x1D452, name: "MATHEMATICAL ITALIC SMALL E", aliases: &[] },
        Codepoint { codepoint: 0x1D453, name: "MATHEMATICAL ITALIC SMALL F", aliases: &[] },
        Codepoint { codepoint: 0x1D454, name: "MATHEMATICAL ITALIC SMALL G", aliases: &[] },
        Codepoint { codepoint: 0x1D456, name: "MATHEMATICAL ITALIC SMALL I", aliases: &[] },
        Codepoint { codepoint: 0x1D457, name: "MATHEMATICAL ITALIC SMALL J", aliases: &[] },
        Codepoint { codepoint: 0x1D458, name: "MATHEMATICAL ITALIC SMALL K", aliases: &[] },
        Codepoint { codepoint: 0x1D459, name: "MATHEMATICAL ITALIC SMALL L", aliases: &[] },
        Codepoint { codepoint: 0x1D45A, name: "MATHEMATICAL ITALIC SMALL M", aliases: &[] },
        Codepoint { codepoint: 0x1D45B, name: "MATHEMATICAL ITALIC SMALL N", aliases: &[] },
        Codepoint { codepoint: 0x1D45C, name: "MATHEMATICAL ITALIC SMALL O", aliases: &[] },
        Codepoint { codepoint: 0x1D45D, name: "MATHEMATICAL ITALIC SMALL P", aliases: &[] },
    ];
    assert(v@ =~= codepoint_table_719());
    v
}

/// The entries from position 28000 of the table, 800 at most.
pub open spec fn codepoint_group_35() -> Seq<Codepoint> {
    codepoint_table_700() + codepoint_table_701() + codepoint_table_702() + codepoint_table_703() + codepoint_table_704() + codepoint_table_705() + codepoint_table_706() + codepoint_table_707() + codepoint_table_708() + codepoint_table_709() + codepoint_table_710() + codepoint_table_711() + codepoint_table_712() + codepoint_table_713() + codepoint_table_714() + codepoint_table_715() + codepoint_table_716() + codepoint_table_717() + codepoint_table_718() + codepoint_table_719()
}

pub fn all_codepoints_group_35() -> (v: Vec<Codepoint>)
    ensures
        v@ == codepoint_group_35(),
{
    let mut v = all_codepoints_700();
    let mut part = all_codepoints_701();
    v.append(&mut part);
    let mut part = all_codepoints_702();
    v.append(&mut part);
    let mut part = all_codepoints_703();
    v.append(&mut part);
    let mut part = all_codepoints_704();
    v.append(&mut part);
    let mut part = all_codepoints_705();
    v.append(&mut part);
    let mut part = all_codepoints_706();
    v.append(&mut part);
    let mut part = all_codepoints_707();
    v.append(&mut part);
    let mut part = all_codepoints_708();
    v.append(&mut part);
    let mut part = all_codepoints_709();
    v.append(&mut part);
    let mut part = all_codepoints_710();
    v.append(&mut part);
    let mut part = all_codepoints_711();
    v.append(&mut part);
    let mut part = all_codepoints_712();
    v.append(&mut part);
    let mut part = all_codepoints_713();
    v.append(&mut part);
    let mut part = all_codepoints_714();
    v.append(&mut part);
    let mut part = all_codepoints_715();
    v.append(&mut part);
    let mut part = all_codepoints_716();
    v.append(&mut part);
    let mut part = all_codepoints_717();
    v.append(&mut part);
    let mut part = all_codepoints_718();
    v.append(&mut part);
    let mut part = all_codepoints_719();
    v.append(&mut part);
    v
}

pub open spec fn codepoint_table_720() -> Seq<Codepoint> {
    seq![
        Codepoint { codepoint: 0x1D45E, name: "MATHEMATICAL ITALIC SMALL Q", aliases: &[] },
        Codepoint { codepoint: 0x1D45F, name: "MATHEMATICAL ITALIC SMALL R", aliases: &[] },
        Codepoint { codepoint: 0x1D460, name: "MATHEMATICAL ITALIC SMALL S", aliases: &[] },
        Codepoint { codepoint: 0x1D461, name: "MATHEMATICAL ITALIC SMALL T", aliases: &[] },
        Codepoint { codepoint: 0x1D462, name: "MATHEMATICAL ITALIC SMALL U", aliases: &[] },
        Codepoint { codepoint: 0x1D463, name: "MATHEMATICAL ITALIC SMALL V", aliases: &[] },
        Codepoint { codepoint: 0x1D464, name: "MATHEMATICAL ITALIC SMALL W", aliases: &[] },
        Codepoint { codepoint: 0x1D465, name: "MATHEMATICAL ITALIC SMALL X", aliases: &[] },
        Codepoint { codepoint: 0x1D466, name: "MATHEMATICAL ITALIC SMALL Y", aliases: &[] },
        Codepoint { codepoint: 0x1D467, name: "MATHEMATICAL ITALIC SMALL Z", aliases: &[] },
        Codepoint { codepoint: 0x1D468, name: "MATHEMATICAL BOLD ITALIC CAPITAL A", aliases: &[] },
        Codepoint { codepoint: 0x1D469, name: "MATHEMATICAL BOLD ITALIC CAPITAL B", aliases: &[] },
        Codepoint { codepoint: 0x1D46A, name: "MATHEMATICAL BOLD ITALIC CAPITAL C", aliases: &[] },
        Codepoint { codepoint: 0x1D46B, name: "MATHEMATICAL BOLD ITALIC CAPITAL D", aliases: &[] },
        Codepoint { codepoint: 0x1D46C, name: "MATHEMATICAL BOLD ITALIC CAPITAL E", aliases: &[] },
        Codepoint { codepoint: 0x1D46D, name: "MATHEMATICAL BOLD ITALIC CAPITAL F", aliases: &[] },
        Codepoint { codepoint: 0x1D46E, name: "MATHEMATICAL BOLD ITALIC CAPITAL G", aliases: &[] },
        Codepoint { codepoint: 0x1D46F, name: "MATHEMATICAL BOLD ITALIC CAPITAL H", aliases: &[] },
        Codepoint { codepoint: 0x1D470, name: "MATHEMATICAL BOLD ITALIC CAPITAL I", aliases: &[] },
        Codepoint { codepoint: 0x1D471, name: "MATHEMATICAL BOLD ITALIC CAPITAL J", aliases: &[] },
        Codepoint { codepoint: 0x1D472, name: "MATHEMATICAL BOLD ITALIC CAPITAL K", aliases: &[] },
        Codepoint { codepoint: 0x1D473, name: "MATHEMATICAL BOLD ITALIC CAPITAL L", aliases: &[] },
        Codepoint { codepoint: 0x1D474, name: "MATHEMATICAL BOLD ITALIC CAPITAL M", aliases: &[] },
        Codepoint { codepoint: 0x1D475, name: "MATHEMATICAL BOLD ITALIC CAPITAL N", aliases: &[] },
        Codepoint { codepoint: 0x1D476, name: "MATHEMATICAL BOLD ITALIC CAPITAL O", aliases: &[] },
        Codepoint { codepoint: 0x1D477, name: "MATHEMATICAL BOLD ITALIC CAPITAL P", aliases: &[] },
        Codepoint { codepoint: 0x1D478, name: "MATHEMATICAL BOLD ITALIC CAPITAL Q", aliases: &[] },
        Codepoint { codepoint: 0x1D479, name: "MATHEMATICAL BOLD ITALIC CAPITAL R", aliases: &[] },
        Codepoint { codepoint: 0x1D47A, name: "MATHEMATICAL BOLD ITALIC CAPITAL S", aliases: &[] },
        Codepoint { codepoint: 0x1D47B, name: "MATHEMATICAL BOLD ITALIC CAPITAL T", aliases: &[] },
        Codepoint { codepoint: 0x1D47C, name: "MATHEMATICAL BOLD ITALIC CAPITAL U", aliases: &[] },
        Codepoint { codepoint: 0x1D47D, name: "MATHEMATICAL BOLD ITALIC CAPITAL V", aliases: &[] },
        Codepoint { codepoint: 0x1D47E, name: "MATHEMATICAL BOLD ITALIC CAPITAL W", aliases: &[] },
        Codepoint { codepoint: 0x1D47F, name: "MATHEMATICAL BOLD ITALIC CAPITAL X", aliases: &[] },
        Codepoint { codepoint: 0x1D480, name: "MATHEMATICAL BOLD ITALIC CAPITAL Y", aliases: &[] },
        Codepoint { codepoint: 0x1D481, name: "MATHEMATICAL BOLD ITALIC CAPITAL Z", aliases: &[] },
        Codepoint { codepoint: 0x1D482, name: "MATHEMATICAL BOLD ITALIC SMALL A", aliases: &[] },
        Codepoint { codepoint: 0x1D483, name: "MATHEMATICAL BOLD ITALIC SMALL B", aliases: &[] },
        Codepoint { codepoint: 0x1D484, name: "MATHEMATICAL BOLD ITALIC SMALL C", aliases: &[] },
        Codepoint { codepoint: 0x1D485, name: "MATHEMATICAL BOLD ITALIC SMALL D", aliases: &[] },
    ]
}

fn all_codepoints_720() -> (v: Vec<Codepoint>)
    ensures
        v@ == codepoint_table_720(),
{
    let v = vec![
        Codepoint { codepoint: 0x1D45E, name: "MATHEMATICAL ITALIC SMALL Q", aliases: &[] },
        Codepoint { codepoint: 0x1D45F, name: "MATHEMATICAL ITALIC SMALL R", aliases: &[] },
        Codepoint { codepoint: 0x1D460, name: "MATHEMATICAL ITALIC SMALL S", aliases: &[] },
        Codepoint { codepoint: 0x1D461, name: "MATHEMATICAL ITALIC SMALL T", aliases: &[] },
        Codepoint { codepoint: 0x1D462, name: "MATHEMATICAL ITALIC SMALL U", aliases: &[] },
        Codepoint { codepoint: 0x1D463, name: "MATHEMATICAL ITALIC SMALL V", aliases: &[] },
        Codepoint { codepoint: 0x1D464, name: "MATHEMATICAL ITALIC SMALL W", aliases: &[] },
        Codepoint { codepoint: 0x1D465, name: "MATHEMATICAL ITALIC SMALL X", aliases: &[] },
        Codepoint { codepoint: 0x1D466, name: "MATHEMATICAL ITALIC SMALL Y", aliases: &[] },
        Codepoint { codepoint: 0x1D467, name: "MATHEMATICAL ITALIC SMALL Z", aliases: &[] },
        Codepoint { codepoint: 0x1D468, name: "MATHEMATICAL BOLD ITALIC CAPITAL A", aliases: &[] },
        Codepoint { codepoint: 0x1D469, name: "MATHEMATICAL BOLD ITALIC CAPITAL B", aliases: &[] },
        Codepoint { codepoint: 0x1D46A, name: "MATHEMATICAL BOLD ITALIC CAPITAL C", aliases: &[] },
        Codepoint { codepoint: 0x1D46B, name: "MATHEMATICAL BOLD ITALIC CAPITAL D", aliases: &[] },
        Codepoint { codepoint: 0x1D46C, name: "MATHEMATICAL BOLD ITALIC CAPITAL E", aliases: &[] },
        Codepoint { codepoint: 0x1D46D, name: "MATHEMATICAL BOLD ITALIC CAPITAL F", aliases: &[] },
        Codepoint { codepoint: 0x1D46E, name: "MATHEMATICAL BOLD ITALIC CAPITAL G", aliases: &[] },
        Codepoint { codepoint: 0x1D46F, name: "MATHEMATICAL BOLD ITALIC CAPITAL H", aliases: &[] },
        Codepoint { codepoint: 0x1D470, name: "MATHEMATICAL BOLD ITALIC CAPITAL I", aliases: &[] },
        Codepoint { codepoint: 0x1D471, name: "MATHEMATICAL BOLD ITALIC CAPITAL J", aliases: &[] },
        Codepoint { codepoint: 0x1D472, name: "MATHEMATICAL BOLD ITALIC CAPITAL K", aliases: &[] },
        Codepoint { codepoint: 0x1D473, name: "MATHEMATICAL BOLD ITALIC CAPITAL L", aliases: &[] },
        Codepoint { codepoint: 0x1D474, name: "MATHEMATICAL BOLD ITALIC CAPITAL M", aliases: &[] },
        Codepoint { codepoint: 0x1D475, name: "MATHEMATICAL BOLD ITALIC CAPITAL N", aliases: &[] },
        Codepoint { codepoint: 0x1D476, name: "MATHEMATICAL BOLD ITALIC CAPITAL O", aliases: &[] },
        Codepoint { codepoint: 0x1D477, name: "MATHEMATICAL BOLD ITALIC CAPITAL P", aliases: &[] },
        Codepoint { codepoint: 0x1D478, name: "MATHEMATICAL BOLD ITALIC CAPITAL Q", aliases: &[] },
        Codepoint { codepoint: 0x1D479, name: "MATHEMATICAL BOLD ITALIC CAPITAL R", aliases: &[] },
        Codepoint { codepoint: 0x1D47A, name: "MATHEMATICAL BOLD ITALIC CAPITAL S", aliases: &[] },
        Codepoint { codepoint: 0x1D47B, name: "MATHEMATICAL BOLD ITALIC CAPITAL T", aliases: &[] },
        Codepoint { codepoint: 0x1D47C, name: "MATHEMATICAL BOLD ITALIC CAPITAL U", aliases: &[] },
        Codepoint { codepoint: 0x1D47D, name: "MATHEMATICAL BOLD ITALIC CAPITAL V", aliases: &[] },
        Codepoint { codepoint: 0x1D47E, name: "MATHEMATICAL BOLD ITALIC CAPITAL W", aliases: &[] },
        Codepoint { codepoint: 0x1D47F, name: "MATHEMATICAL BOLD ITALIC CAPITAL X", aliases: &[] },
        Codepoint { codepoint: 0x1D480, name: "MATHEMATICAL BOLD ITALIC CAPITAL Y", aliases: &[] },
        Codepoint { codepoint: 0x1D481, name: "MATHEMATICAL BOLD ITALIC CAPITAL Z", aliases: &[] },
        Codepoint { codepoint: 0x1D482, name: "MATHEMATICAL BOLD ITALIC SMALL A", aliases: &[] },
        Codepoint { codepoint: 0x1D483, name: "MATHEMATICAL BOLD ITALIC SMALL B", aliases: &[] },
        Codepoint { codepoint: 0x1D484, name: "MATHEMATICAL BOLD ITALIC SMALL C", aliases: &[] },
        Codepoint { codepoint: 0x1D485, name: "MATHEMATICAL BOLD ITALIC SMALL D", aliases: &[] },
    ];
    assert(v@ =~= codepoint_table_720());
    v
}

pub open spec fn codepoint_table_721() -> Seq<Codepoint> {
    seq![
        Codepoint { codepoint: 0x1D486, name: "MATHEMATICAL BOLD ITALIC SMALL E", aliases: &[] },
        Codepoint { codepoint: 0x1D487, name: "MATHEMATICAL BOLD ITALIC SMALL F", aliases: &[] },
        Codepoint { codepoint: 0x1D488, name: "MATHEMATICAL BOLD ITALIC SMALL G", aliases: &[] },
        Codepoint { codepoint: 0x1D489, name: "MATHEMATICAL BOLD ITALIC SMALL H", aliases: &[] },
        Codepoint { codepoint: 0x1D48A, name: "MATHEMATICAL BOLD ITALIC SMALL I", aliases: &[] },
        Codepoint { codepoint: 0x1D48B, name: "MATHEMATICAL BOLD ITALIC SMALL J", aliases: &[] },
        Codepoint { codepoint: 0x1D48C, name: "MATHEMATICAL BOLD ITALIC SMALL K", aliases: &[] },
        Codepoint { codepoint: 0x1D48D, name: "MATHEMATICAL BOLD ITALIC SMALL L", aliases: &[] },
        Codepoint { codepoint: 0x1D48E, name: "MATHEMATICAL BOLD ITALIC SMALL M", aliases: &[] },
        Codepoint { codepoint: 0x1D48F, name: "MATHEMATICAL BOLD ITALIC SMALL N", aliases: &[] },
        Codepoint { codepoint: 0x1D490, name: "MATHEMATICAL BOLD ITALIC SMALL O", aliases: &[] },
        Codepoint { codepoint: 0x1D491, name: "MATHEMATICAL BOLD ITALIC SMALL P", aliases: &[] },
        Codepoint { codepoint: 0x1D492, name: "MATHEMATICAL BOLD ITALIC SMALL Q", aliases: &[] },
        Codepoint { codepoint: 0x1D493, name: "MATHEMATICAL BOLD ITALIC SMALL R", aliases: &[] },
        Codepoint { codepoint: 0x1D494, name: "MATHEMATICAL BOLD ITALIC SMALL S", aliases: &[] },
        Codepoint { codepoint: 0x1D495, name: "MATHEMATICAL BOLD ITALIC SMALL T", aliases: &[] },
        Codepoint { codepoint: 0x1D496, name: "MATHEMATICAL BOLD ITALIC SMALL U", aliases: &[] },
        Codepoint { codepoint: 0x1D497, name: "MATHEMATICAL BOLD ITALIC SMALL V", aliases: &[] },
        Codepoint { codepoint: 0x1D498, name: "MATHEMATICAL BOLD ITALIC SMALL W", aliases: &[] },
        Codepoint { codepoint: 0x1D499, name: "MATHEMATICAL BOLD ITALIC SMALL X", aliases: &[] },
        Codepoint { codepoint: 0x1D49A, name: "MATHEMATICAL BOLD ITALIC SMALL Y", aliases: &[] },
        Codepoint { codepoint: 0x1D49B, name: "MATHEMATICAL BOLD ITALIC SMALL Z", aliases: &[] },
        Codepoint { codepoint: 0x1D49C, name: "MATHEMATICAL SCRIPT CAPITAL A", aliases: &[] },
        Codepoint { codepoint: 0x1D49E, name: "MATHEMATICAL SCRIPT CAPITAL C", aliases: &[] },
        Codepoint { codepoint: 0x1D49F, name: "MATHEMATICAL SCRIPT CAPITAL D", aliases: &[] },
        Codepoint { codepoint: 0x1D4A2, name: "MATHEMATICAL SCRIPT CAPITAL G", aliases: &[] },
        Codepoint { codepoint: 0x1D4A5, name: "MATHEMATICAL SCRIPT CAPITAL J", aliases: &[] },
        Codepoint { codepoint: 0x1D4A6, name: "MATHEMATICAL SCRIPT CAPITAL K", aliases: &[] },
        Codepoint { codepoint: 0x1D4A9, name: "MATHEMATICAL SCRIPT CAPITAL N", aliases: &[] },
        Codepoint { codepoint: 0x1D4AA, name: "MATHEMATICAL SCRIPT CAPITAL O", aliases: &[] },
        Codepoint { codepoint: 0x1D4AB, name: "MATHEMATICAL SCRIPT CAPITAL P", aliases: &[] },
        Codepoint { codepoint: 0x1D4AC, name: "MATHEMATICAL SCRIPT CAPITAL Q", aliases: &[] },
        Codepoint { codepoint: 0x1D4AE, name: "MATHEMATICAL SCRIPT CAPITAL S", aliases: &[] },
        Codepoint { codepoint: 0x1D4AF, name: "MATHEMATICAL SCRIPT CAPITAL T", aliases: &[] },
        Codepoint { codepoint: 0x1D4B0, name: "MATHEMATICAL SCRIPT CAPITAL U", aliases: &[] },
        Codepoint { codepoint: 0x1D4B1, name: "MATHEMATICAL SCRIPT CAPITAL V", aliases: &[] },
        Codepoint { codepoint: 0x1D4B2, name: "MATHEMATICAL SCRIPT CAPITAL W", aliases: &[] },
        Codepoint { codepoint: 0x1D4B3, name: "MATHEMATICAL SCRIPT CAPITAL X", aliases: &[] },
        Codepoint { codepoint: 0x1D4B4, name: "MATHEMATICAL SCRIPT CAPITAL Y", aliases: &[] },
        Codepoint { codepoint: 0x1D4B5, name: "MATHEMATICAL SCRIPT CAPITAL Z", aliases: &[] },
    ]
}

fn all_codepoints_721() -> (v: Vec<Codepoint>)
    ensures
        v@ == codepoint_table_721(),
{
    let v = vec![
        Codepoint { codepoint: 0x1D486, name: "MATHEMATICAL BOLD ITALIC SMALL E", aliases: &[] },
        Codepoint { codepoint: 0x1D487, name: "MATHEMATICAL BOLD ITALIC SMALL F", aliases: &[] },
        Codepoint { codepoint: 0x1D488, name: "MATHEMATICAL BOLD ITALIC SMALL G", aliases: &[] },
        Codepoint { codepoint: 0x1D489, name: "MATHEMATICAL BOLD ITALIC SMALL H", aliases: &[] },
        Codepoint { codepoint: 0x1D48A, name: "MATHEMATICAL BOLD ITALIC SMALL I", aliases: &[] },
        Codepoint { codepoint: 0x1D48B, name: "MATHEMATICAL BOLD ITALIC SMALL J", aliases: &[] },
        Codepoint { codepoint: 0x1D48C, name: "MATHEMATICAL BOLD ITALIC SMALL K", aliases: &[] },
        Codepoint { codepoint: 0x1D48D, name: "MATHEMATICAL BOLD ITALIC SMALL L", aliases: &[] },
        Codepoint { codepoint: 0x1D48E, name: "MATHEMATICAL BOLD ITALIC SMALL M", aliases: &[] },
        Codepoint { codepoint: 0x1D48F, name: "MATHEMATICAL BOLD ITALIC SMALL N", aliases: &[] },
        Codepoint { codepoint: 0x1D490, name: "MATHEMATICAL BOLD ITALIC SMALL O", aliases: &[] },
        Codepoint { codepoint: 0x1D491, name: "MATHEMATICAL BOLD ITALIC SMALL P", aliases: &[] },
        Codepoint { codepoint: 0x1D492, name: "MATHEMATICAL BOLD ITALIC SMALL Q", aliases: &[] },
        Codepoint { codepoint: 0x1D493, name: "MATHEMATICAL BOLD ITALIC SMALL R", aliases: &[] },
        Codepoint { codepoint: 0x1D494, name: "MATHEMATICAL BOLD ITALIC SMALL S", aliases: &[] },
        Codepoint { codepoint: 0x1D495, name: "MATHEMATICAL BOLD ITALIC SMALL T", aliases: &[] },
        Codepoint { codepoint: 0x1D496, name: "MATHEMATICAL BOLD ITALIC SMALL U", aliases: &[] },
        Codepoint { codepoint: 0x1D497, name: "MATHEMATICAL BOLD ITALIC SMALL V", aliases: &[] },
        Codepoint { codepoint: 0x1D498, name: "MATHEMATICAL BOLD ITALIC SMALL W", aliases: &[] },
        Codepoint { codepoint: 0x1D499, name: "MATHEMATICAL BOLD ITALIC SMALL X", aliases: &[] },
        Codepoint { codepoint: 0x1D49A, name: "MATHEMATICAL BOLD ITALIC SMALL Y", aliases: &[] },
        Codepoint { codepoint: 0x1D49B, name: "MATHEMATICAL BOLD ITALIC SMALL Z", aliases: &[] },
        Codepoint { codepoint: 0x1D49C, name: "MATHEMATICAL SCRIPT CAPITAL A", aliases: &[] },
        Codepoint { codepoint: 0x1D49E, name: "MATHEMATICAL SCRIPT CAPITAL C", aliases: &[] },
        Codepoint { codepoint: 0x1D49F, name: "MATHEMATICAL SCRIPT CAPITAL D", aliases: &[] },
        Codepoint { codepoint: 0x1D4A2, name: "MATHEMATICAL SCRIPT CAPITAL G", aliases: &[] },
        Codepoint { codepoint: 0x1D4A5, name: "MATHEMATICAL SCRIPT CAPITAL J", aliases: &[] },
        Codepoint { codepoint: 0x1D4A6, name: "MATHEMATICAL SCRIPT CAPITAL K", aliases: &[] },
        Codepoint { codepoint: 0x1D4A9, name: "MATHEMATICAL SCRIPT CAPITAL N", aliases: &[] },
        Codepoint { codepoint: 0x1D4AA, name: "MATHEMATICAL SCRIPT CAPITAL O", aliases: &[] },
        Codepoint { codepoint: 0x1D4AB, name: "MATHEMATICAL SCRIPT CAPITAL P", aliases: &[] },
        Codepoint { codepoint: 0x1D4AC, name: "MATHEMATICAL SCRIPT CAPITAL Q", aliases: &[] },
        Codepoint { codepoint: 0x1D4AE, name: "MATHEMATICAL SCRIPT CAPITAL S", aliases: &[] },
        Codepoint { codepoint: 0x1D4AF, name: "MATHEMATICAL SCRIPT CAPITAL T", aliases: &[] },
        Codepoint { codepoint: 0x1D4B0, name: "MATHEMATICAL SCRIPT CAPITAL U", aliases: &[] },
        Codepoint { codepoint: 0x1D4B1, name: "MATHEMATICAL SCRIPT CAPITAL V", aliases: &[] },
        Codepoint { codepoint: 0x1D4B2, name: "MATHEMATICAL SCRIPT CAPITAL W", aliases: &[] },
        Codepoint { codepoint: 0x1D4B3, name: "MATHEMATICAL SCRIPT CAPITAL X", aliases: &[] },
        Codepoint { codepoint: 0x1D4B4, name: "MATHEMATICAL SCRIPT CAPITAL Y", aliases: &[] },
        Codepoint { codepoint: 0x1D4B5, name: "MATHEMATICAL SCRIPT CAPITAL Z", aliases: &[] },
    ];
    assert(v@ =~= codepoint_table_721());
    v
}

pub open spec fn codepoint_table_722() -> Seq<Codepoint> {
    seq![
        Codepoint { codepoint: 0x1D4B6, name: "MATHEMATICAL SCRIPT SMALL A", aliases: &[] },
        Codepoint { codepoint: 0x1D4B7, name: "MATHEMATICAL SCRIPT SMALL B", aliases: &[] },
        Codepoint { codepoint: 0x1D4B8, name: "MATHEMATICAL SCRIPT SMALL C", aliases: &[] },
        Codepoint { codepoint: 0x1D4B9, name: "MATHEMATICAL SCRIPT SMALL D", aliases: &[] },
        Codepoint { codepoint: 0x1D4BB, name: "MATHEMATICAL SCRIPT SMALL F", aliases: &[] },
        Codepoint { codepoint: 0x1D4BD, name: "MATHEMATICAL SCRIPT SMALL H", aliases: &[] },
        Codepoint { codepoint: 0x1D4BE, name: "MATHEMATICAL SCRIPT SMALL I", aliases: &[] },
        Codepoint { codepoint: 0x1D4BF, name: "MATHEMATICAL SCRIPT SMALL J", aliases: &[] },
        Codepoint { codepoint: 0x1D4C0, name: "MATHEMATICAL SCRIPT SMALL K", aliases: &[] },
        Codepoint { codepoint: 0x1D4C1, name: "MATHEMATICAL SCRIPT SMALL L", aliases: &[] },
        Codepoint { codepoint: 0x1D4C2, name: "MATHEMATICAL SCRIPT SMALL M", aliases: &[] },
        Codepoint { codepoint: 0x1D4C3, name: "MATHEMATICAL SCRIPT SMALL N", aliases: &[] },
        Codepoint { codepoint: 0x1D4C5, name: "MATHEMATICAL SCRIPT SMALL P", aliases: &[] },
        Codepoint { codepoint: 0x1D4C6, name: "MATHEMATICAL SCRIPT SMALL Q", aliases: &[] },
        Codepoint { codepoint: 0x1D4C7, name: "MATHEMATICAL SCRIPT SMALL R", aliases: &[] },
        Codepoint { codepoint: 0x1D4C8, name: "MATHEMATICAL SCRIPT SMALL S", aliases: &[] },
        Codepoint { codepoint: 0x1D4C9, name: "MATHEMATICAL SCRIPT SMALL T", aliases: &[] },
        Codepoint { codepoint: 0x1D4CA, name: "MATHEMATICAL SCRIPT SMALL U", aliases: &[] },
        Codepoint { codepoint: 0x1D4CB, name: "MATHEMATICAL SCRIPT SMALL V", aliases: &[] },
        Codepoint { codepoint: 0x1D4CC, name: "MATHEMATICAL SCRIPT SMALL W", aliases: &[] },
        Codepoint { codepoint: 0x1D4CD, name: "MATHEMATICAL SCRIPT SMALL X", aliases: &[] },
        Codepoint { codepoint: 0x1D4CE, name: "MATHEMATICAL SCRIPT SMALL Y", aliases: &[] },
        Codepoint { codepoint: 0x1D4CF, name: "MATHEMATICAL SCRIPT SMALL Z", aliases: &[] },
        Codepoint { codepoint: 0x1D4D0, name: "MATHEMATICAL BOLD SCRIPT CAPITAL A", aliases: &[] },
        Codepoint { codepoint: 0x1D4D1, name: "MATHEMATICAL BOLD SCRIPT CAPITAL B", aliases: &[] },
        Codepoint { codepoint: 0x1D4D2, name: "MATHEMATICAL BOLD SCRIPT CAPITAL C", aliases: &[] },
        Codepoint { codepoint: 0x1D4D3, name: "MATHEMATICAL BOLD SCRIPT CAPITAL D", aliases: &[] },
        Codepoint { codepoint: 0x1D4D4, name: "MATHEMATICAL BOLD SCRIPT CAPITAL E", aliases: &[] },
        Codepoint { codepoint: 0x1D4D5, name: "MATHEMATICAL BOLD SCRIPT CAPITAL F", aliases: &[] },
        Codepoint { codepoint: 0x1D4D6, name: "MATHEMATICAL BOLD SCRIPT CAPITAL G", aliases: &[] },
        Codepoint { codepoint: 0x1D4D7, name: "MATHEMATICAL BOLD SCRIPT CAPITAL H", aliases: &[] },
        Codepoint { codepoint: 0x1D4D8, name: "MATHEMATICAL BOLD SCRIPT CAPITAL I", aliases: &[] },
        Codepoint { codepoint: 0x1D4D9, name: "MATHEMATICAL BOLD SCRIPT CAPITAL J", aliases: &[] },
        Codepoint { codepoint: 0x1D4DA, name: "MATHEMATICAL BOLD SCRIPT CAPITAL K", aliases: &[] },
        Codepoint { codepoint: 0x1D4DB, name: "MATHEMATICAL BOLD SCRIPT CAPITAL L", aliases: &[] },
        Codepoint { codepoint: 0x1D4DC, name: "MATHEMATICAL BOLD SCRIPT CAPITAL M", aliases: &[] },
        Codepoint { codepoint: 0x1D4DD, name: "MATHEMATICAL BOLD SCRIPT CAPITAL N", aliases: &[] },
        Codepoint { codepoint: 0x1D4DE, name: "MATHEMATICAL BOLD SCRIPT CAPITAL O", aliases: &[] },
        Codepoint { codepoint: 0x1D4DF, name: "MATHEMATICAL BOLD SCRIPT CAPITAL P", aliases: &[] },
        Codepoint { codepoint: 0x1D4E0, name: "MATHEMATICAL BOLD SCRIPT CAPITAL Q", aliases: &[] },
    ]
}

fn all_codepoints_722() -> (v: Vec<Codepoint>)
    ensures
        v@ == codepoint_table_722(),
{
    let v = vec![
        Codepoint { codepoint: 0x1D4B6, name: "MATHEMATICAL SCRIPT SMALL A", aliases: &[] },
        Codepoint { codepoint: 0x1D4B7, name: "MATHEMATICAL SCRIPT SMALL B", aliases: &[] },
        Codepoint { codepoint: 0x1D4B8, name: "MATHEMATICAL SCRIPT SMALL C", aliases: &[] },
        Codepoint { codepoint: 0x1D4B9, name: "MATHEMATICAL SCRIPT SMALL D", aliases: &[] },
        Codepoint { codepoint: 0x1D4BB, name: "MATHEMATICAL SCRIPT SMALL F", aliases: &[] },
        Codepoint { codepoint: 0x1D4BD, name: "MATHEMATICAL SCRIPT SMALL H", aliases: &[] },
        Codepoint { codepoint: 0x1D4BE, name: "MATHEMATICAL SCRIPT SMALL I", aliases: &[] },
        Codepoint { codepoint: 0x1D4BF, name: "MATHEMATICAL SCRIPT SMALL J", aliases: &[] },
        Codepoint { codepoint: 0x1D4C0, name: "MATHEMATICAL SCRIPT SMALL K", aliases: &[] },
        Codepoint { codepoint: 0x1D4C1, name: "MATHEMATICAL SCRIPT SMALL L", aliases: &[] },
        Codepoint { codepoint: 0x1D4C2, name: "MATHEMATICAL SCRIPT SMALL M", aliases: &[] },
        Codepoint { codepoint: 0x1D4C3, name: "MATHEMATICAL SCRIPT SMALL N", aliases: &[] },
        Codepoint { codepoint: 0x1D4C5, name: "MATHEMATICAL SCRIPT SMALL P", aliases: &[] },
        Codepoint { codepoint: 0x1D4C6, name: "MATHEMATICAL SCRIPT SMALL Q", aliases: &[] },
        Codepoint { codepoint: 0x1D4C7, name: "MATHEMATICAL SCRIPT SMALL R", aliases: &[] },
        Codepoint { codepoint: 0x1D4C8, name: "MATHEMATICAL SCRIPT SMALL S", aliases: &[] },
        Codepoint { codepoint: 0x1D4C9, name: "MATHEMATICAL SCRIPT SMALL T", aliases: &[] },
        Codepoint { codepoint: 0x1D4CA, name: "MATHEMATICAL SCRIPT SMALL U", aliases: &[] },
        Codepoint { codepoint: 0x1D4CB, name: "MATHEMATICAL SCRIPT SMALL V", aliases: &[] },
        Codepoint { codepoint: 0x1D4CC, name: "MATHEMATICAL SCRIPT SMALL W", aliases: &[] },
        Codepoint { codepoint: 0x1D4CD, name: "MATHEMATICAL SCRIPT SMALL X", aliases: &[] },
        Codepoint { codepoint: 0x1D4CE, name: "MATHEMATICAL SCRIPT SMALL Y", aliases: &[] },
        Codepoint { codepoint: 0x1D4CF, name: "MATHEMATICAL SCRIPT SMALL Z", aliases: &[] },
        Codepoint { codepoint: 0x1D4D0, name: "MATHEMATICAL BOLD SCRIPT CAPITAL A", aliases: &[] },
        Codepoint { codepoint: 0x1D4D1, name: "MATHEMATICAL BOLD SCRIPT CAPITAL B", aliases: &[] },
        Codepoint { codepoint: 0x1D4D2, name: "MATHEMATICAL BOLD SCRIPT CAPITAL C", aliases: &[] },
        Codepoint { codepoint: 0x1D4D3, name: "MATHEMATICAL BOLD SCRIPT CAPITAL D", aliases: &[] },
        Codepoint { codepoint: 0x1D4D4, name: "MATHEMATICAL BOLD SCRIPT CAPITAL E", aliases: &[] },
        Codepoint { codepoint: 0x1D4D5, name: "MATHEMATICAL BOLD SCRIPT CAPITAL F", aliases: &[] },
        Codepoint { codepoint: 0x1D4D6, name: "MATHEMATICAL BOLD SCRIPT CAPITAL G", aliases: &[] },
        Codepoint { codepoint: 0x1D4D7, name: "MATHEMATICAL BOLD SCRIPT CAPITAL H", aliases: &[] },
        Codepoint { codepoint: 0x1D4D8, name: "MATHEMATICAL BOLD SCRIPT CAPITAL I", aliases: &[] },
        Codepoint { codepoint: 0x1D4D9, name: "MATHEMATICAL BOLD SCRIPT CAPITAL J", aliases: &[] },
        Codepoint { codepoint: 0x1D4DA, name: "MATHEMATICAL BOLD SCRIPT CAPITAL K", aliases: &[] },
        Codepoint { codepoint: 0x1D4DB, name: "MATHEMATICAL BOLD SCRIPT CAPITAL L", aliases: &[] },
        Codepoint { codepoint: 0x1D4DC, name: "MATHEMATICAL BOLD SCRIPT CAPITAL M", aliases: &[] },
        Codepoint { codepoint: 0x1D4DD, name: "MATHEMATICAL BOLD SCRIPT CAPITAL N", aliases: &[] },
        Codepoint { codepoint: 0x1D4DE, name: "MATHEMATICAL BOLD SCRIPT CAPITAL O", aliases: &[] },
        Codepoint { codepoint: 0x1D4DF, name: "MATHEMATICAL BOLD SCRIPT CAPITAL P", aliases: &[] },
        Codepoint { codepoint: 0x1D4E0, name: "MATHEMATICAL BOLD SCRIPT CAPITAL Q", aliases: &[] },
    ];
    assert(v@ =~= codepoint_table_722());
    v
}

pub open spec fn codepoint_table_723() -> Seq<Codepoint> {
    seq![
        Codepoint { codepoint: 0x1D4E1, name: "MATHEMATICAL BOLD SCRIPT CAPITAL R", aliases: &[] },
        Codepoint { codepoint: 0x1D4E2, name: "MATHEMATICAL BOLD SCRIPT CAPITAL S", aliases: &[] },
        Codepoint { codepoint: 0x1D4E3, name: "MATHEMATICAL BOLD SCRIPT CAPITAL T", aliases: &[] },
        Codepoint { codepoint: 0x1D4E4, name: "MATHEMATICAL BOLD SCRIPT CAPITAL U", aliases: &[] },
        Codepoint { codepoint: 0x1D4E5, name: "MATHEMATICAL BOLD SCRIPT CAPITAL V", aliases: &[] },
        Codepoint { codepoint: 0x1D4E6, name: "MATHEMATICAL BOLD SCRIPT CAPITAL W", aliases: &[] },
        Codepoint { codepoint: 0x1D4E7, name: "MATHEMATICAL BOLD SCRIPT CAPITAL X", aliases: &[] },
        Codepoint { codepoint: 0x1D4E8, name: "MATHEMATICAL BOLD SCRIPT CAPITAL Y", aliases: &[] },
        Codepoint { codepoint: 0x1D4E9, name: "MATHEMATICAL BOLD SCRIPT CAPITAL Z", aliases: &[] },
        Codepoint { codepoint: 0x1D4EA, name: "MATHEMATICAL BOLD SCRIPT SMALL A", aliases: &[] },
        Codepoint { codepoint: 0x1D4EB, name: "MATHEMATICAL BOLD SCRIPT SMALL B", aliases: &[] },
        Codepoint { codepoint: 0x1D4EC, name: "MATHEMATICAL BOLD SCRIPT SMALL C", aliases: &[] },
        Codepoint { codepoint: 0x1D4ED, name: "MATHEMATICAL BOLD SCRIPT SMALL D", aliases: &[] },
        Codepoint { codepoint: 0x1D4EE, name: "MATHEMATICAL BOLD SCRIPT SMALL E", aliases: &[] },
        Codepoint { codepoint: 0x1D4EF, name: "MATHEMATICAL BOLD SCRIPT SMALL F", aliases: &[] },
        Codepoint { codepoint: 0x1D4F0, name: "MATHEMATICAL BOLD SCRIPT SMALL G", aliases: &[] },
        Codepoint { codepoint: 0x1D4F1, name: "MATHEMATICAL BOLD SCRIPT SMALL H", aliases: &[] },
        Codepoint { codepoint: 0x1D4F2, name: "MATHEMATICAL BOLD SCRIPT SMALL I", aliases: &[] },
        Codepoint { codepoint: 0x1D4F3, name: "MATHEMATICAL BOLD SCRIPT SMALL J", aliases: &[] },
        Codepoint { codepoint: 0x1D4F4, name: "MATHEMATICAL BOLD SCRIPT SMALL K", aliases: &[] },
        Codepoint { codepoint: 0x1D4F5, name: "MATHEMATICAL BOLD SCRIPT SMALL L", aliases: &[] },
        Codepoint { codepoint: 0x1D4F6, name: "MATHEMATICAL BOLD SCRIPT SMALL M", aliases: &[] },
        Codepoint { codepoint: 0x1D4F7, name: "MATHEMATICAL BOLD SCRIPT SMALL N", aliases: &[] },
        Codepoint { codepoint: 0x1D4F8, name: "MATHEMATICAL BOLD SCRIPT SMALL O", aliases: &[] },
        Codepoint { codepoint: 0x1D4F9, name: "MATHEMATICAL BOLD SCRIPT SMALL P", aliases: &[] },
        Codepoint { codepoint: 0x1D4FA, name: "MATHEMATICAL BOLD SCRIPT SMALL Q", aliases: &[] },
        Codepoint { codepoint: 0x1D4FB, name: "MATHEMATICAL BOLD SCRIPT SMALL R", aliases: &[] },
        Codepoint { codepoint: 0x1D4FC, name: "MATHEMATICAL BOLD SCRIPT SMALL S", aliases: &[] },
        Codepoint { codepoint: 0x1D4FD, name: "MATHEMATICAL BOLD SCRIPT SMALL T", aliases: &[] },
        Codepoint { codepoint: 0x1D4FE, name: "MATHEMATICAL BOLD SCRIPT SMALL U", aliases: &[] },
        Codepoint { codepoint: 0x1D4FF, name: "MATHEMATICAL BOLD SCRIPT SMALL V", aliases: &[] },
        Codepoint { codepoint: 0x1D500, name: "MATHEMATICAL BOLD SCRIPT SMALL W", aliases: &[] },
        Codepoint { codepoint: 0x1D501, name: "MATHEMATICAL BOLD SCRIPT SMALL X", aliases: &[] },
        Codepoint { codepoint: 0x1D502, name: "MATHEMATICAL BOLD SCRIPT SMALL Y", aliases: &[] },
        Codepoint { codepoint: 0x1D503, name: "MATHEMATICAL BOLD SCRIPT SMALL Z", aliases: &[] },
        Codepoint { codepoint: 0x1D504, name: "MATHEMATICAL FRAKTUR CAPITAL A", aliases: &[] },
        Codepoint { codepoint: 0x1D505, name: "MATHEMATICAL FRAKTUR CAPITAL B", aliases: &[] },
        Codepoint { codepoint: 0x1D507, name: "MATHEMATICAL FRAKTUR CAPITAL D", aliases: &[] },
        Codepoint { codepoint: 0x1D508, name: "MATHEMATICAL FRAKTUR CAPITAL E", aliases: &[] },
        Codepoint { codepoint: 0x1D509, name: "MATHEMATICAL FRAKTUR CAPITAL F", aliases: &[] },
    ]
}

fn all_codepoints_723() -> (v: Vec<Codepoint>)
    ensures
        v@ == codepoint_table_723(),
{
    let v = vec![
        Codepoint { codepoint: 0x1D4E1, name: "MATHEMATICAL BOLD SCRIPT CAPITAL R", aliases: &[] },
        Codepoint { codepoint: 0x1D4E2, name: "MATHEMATICAL BOLD SCRIPT CAPITAL S", aliases: &[] },
        Codepoint { codepoint: 0x1D4E3, name: "MATHEMATICAL BOLD SCRIPT CAPITAL T", aliases: &[] },
        Codepoint { codepoint: 0x1D4E4, name: "MATHEMATICAL BOLD SCRIPT CAPITAL U", aliases: &[] },
        Codepoint { codepoint: 0x1D4E5, name: "MATHEMATICAL BOLD SCRIPT CAPITAL V", aliases: &[] },
        Codepoint { codepoint: 0x1D4E6, name: "MATHEMATICAL BOLD SCRIPT CAPITAL W", aliases: &[] },
        Codepoint { codepoint: 0x1D4E7, name: "MATHEMATICAL BOLD SCRIPT CAPITAL X", aliases: &[] },
        Codepoint { codepoint: 0x1D4E8, name: "MATHEMATICAL BOLD SCRIPT CAPITAL Y", aliases: &[] },
        Codepoint { codepoint: 0x1D4E9, name: "MATHEMATICAL BOLD SCRIPT CAPITAL Z", aliases: &[] },
        Codepoint { codepoint: 0x1D4EA, name: "MATHEMATICAL BOLD SCRIPT SMALL A", aliases: &[] },
        Codepoint { codepoint: 0x1D4EB, name: "MATHEMATICAL BOLD SCRIPT SMALL B", aliases: &[] },
        Codepoint { codepoint: 0x1D4EC, name: "MATHEMATICAL BOLD SCRIPT SMALL C", aliases: &[] },
        Codepoint { codepoint: 0x1D4ED, name: "MATHEMATICAL BOLD SCRIPT SMALL D", aliases: &[] },
        Codepoint { codepoint: 0x1D4EE, name: "MATHEMATICAL BOLD SCRIPT SMALL E", aliases: &[] },
        Codepoint { codepoint: 0x1D4EF, name: "MATHEMATICAL BOLD SCRIPT SMALL F", aliases: &[] },
        Codepoint { codepoint: 0x1D4F0, name: "MATHEMATICAL BOLD SCRIPT SMALL G", aliases: &[] },
        Codepoint { codepoint: 0x1D4F1, name: "MATHEMATICAL BOLD SCRIPT SMALL H", aliases: &[] },
        Codepoint { codepoint: 0x1D4F2, name: "MATHEMATICAL BOLD SCRIPT SMALL I", aliases: &[] },
        Codepoint { codepoint: 0x1D4F3, name: "MATHEMATICAL BOLD SCRIPT SMALL J", aliases: &[] },
        Codepoint { codepoint: 0x1D4F4, name: "MATHEMATICAL BOLD SCRIPT SMALL K", aliases: &[] },
        Codepoint { codepoint: 0x1D4F5, name: "MATHEMATICAL BOLD SCRIPT SMALL L", aliases: &[] },
        Codepoint { codepoint: 0x1D4F6, name: "MATHEMATICAL BOLD SCRIPT SMALL M", aliases: &[] },
        Codepoint { codepoint: 0x1D4F7, name: "MATHEMATICAL BOLD SCRIPT SMALL N", aliases: &[] },
        Codepoint { codepoint: 0x1D4F8, name: "MATHEMATICAL BOLD SCRIPT SMALL O", aliases: &[] },
        Codepoint { codepoint: 0x1D4F9, name: "MATHEMATICAL BOLD SCRIPT SMALL P", aliases: &[] },
        Codepoint { codepoint: 0x1D4FA, name: "MATHEMATICAL BOLD SCRIPT SMALL Q", aliases: &[] },
        Codepoint { codepoint: 0x1D4FB, name: "MATHEMATICAL BOLD SCRIPT SMALL R", aliases: &[] },
        Codepoint { codepoint: 0x1D4FC, name: "MATHEMATICAL BOLD SCRIPT SMALL S", aliases: &[] },
        Codepoint { codepoint: 0x1D4FD, name: "MATHEMATICAL BOLD SCRIPT SMALL T", aliases: &[] },
        Codepoint { codepoint: 0x1D4FE, name: "MATHEMATICAL BOLD SCRIPT SMALL U", aliases: &[] },
        Codepoint { codepoint: 0x1D4FF, name: "MATHEMATICAL BOLD SCRIPT SMALL V", aliases: &[] },
        Codepoint { codepoint: 0x1D500, name: "MATHEMATICAL BOLD SCRIPT SMALL W", aliases: &[] },
        Codepoint { codepoint: 0x1D501, name: "MATHEMATICAL BOLD SCRIPT SMALL X", aliases: &[] },
        Codepoint { codepoint: 0x1D502, name: "MATHEMATICAL BOLD SCRIPT SMALL Y", aliases: &[] },
        Codepoint { codepoint: 0x1D503, name: "MATHEMATICAL BOLD SCRIPT SMALL Z", aliases: &[] },
        Codepoint { codepoint: 0x1D504, name: "MATHEMATICAL FRAKTUR CAPITAL A", aliases: &[] },
        Codepoint { codepoint: 0x1D505, name: "MATHEMATICAL FRAKTUR CAPITAL B", aliases: &[] },
        Codepoint { codepoint: 0x1D507, name: "MATHEMATICAL FRAKTUR CAPITAL D", aliases: &[] },
        Codepoint { codepoint: 0x1D508, name: "MATHEMATICAL FRAKTUR CAPITAL E", aliases: &[] },
        Codepoint { codepoint: 0x1D509, name: "MATHEMATICAL FRAKTUR CAPITAL F", aliases: &[] },
    ];
    assert(v@ =~= codepoint_table_723());
    v
}

pub open spec fn codepoint_table_724() -> Seq<Codepoint> {
    seq![
        Codepoint { codepoint: 0x1D50A, name: "MATHEMATICAL FRAKTUR CAPITAL G", aliases: &[] },
        Codepoint { codepoint: 0x1D50D, name: "MATHEMATICAL FRAKTUR CAPITAL J", aliases: &[] },
        Codepoint { codepoint: 0x1D50E, name: "MATHEMATICAL FRAKTUR CAPITAL K", aliases: &[] },
        Codepoint { codepoint: 0x1D50F, name: "MATHEMATICAL FRAKTUR CAPITAL L", aliases: &[] },
        Codepoint { codepoint: 0x1D510, name: "MATHEMATICAL FRAKTUR CAPITAL M", aliases: &[] },
        Codepoint { codepoint: 0x1D511, name: "MATHEMATICAL FRAKTUR CAPITAL N", aliases: &[] },
        Codepoint { codepoint: 0x1D512, name: "MATHEMATICAL FRAKTUR CAPITAL O", aliases: &[] },
        Codepoint { codepoint: 0x1D513, name: "MATHEMATICAL FRAKTUR CAPITAL P", aliases: &[] },
        Codepoint { codepoint: 0x1D514, name: "MATHEMATICAL FRAKTUR CAPITAL Q", aliases: &[] },
        Codepoint { codepoint: 0x1D516, name: "MATHEMATICAL FRAKTUR CAPITAL S", aliases: &[] },
        Codepoint { codepoint: 0x1D517, name: "MATHEMATICAL FRAKTUR CAPITAL T", aliases: &[] },
        Codepoint { codepoint: 0x1D518, name: "MATHEMATICAL FRAKTUR CAPITAL U", aliases: &[] },
        Codepoint { codepoint: 0x1D519, name: "MATHEMATICAL FRAKTUR CAPITAL V", aliases: &[] },
        Codepoint { codepoint: 0x1D51A, name: "MATHEMATICAL FRAKTUR CAPITAL W", aliases: &[] },
        Codepoint { codepoint: 0x1D51B, name: "MATHEMATICAL FRAKTUR CAPITAL X", aliases: &[] },
        Codepoint { codepoint: 0x1D51C, name: "MATHEMATICAL FRAKTUR CAPITAL Y", aliases: &[] },
        Codepoint { codepoint: 0x1D51E, name: "MATHEMATICAL FRAKTUR SMALL A", aliases: &[] },
        Codepoint { codepoint: 0x1D51F, name: "MATHEMATICAL FRAKTUR SMALL B", aliases: &[] },
        Codepoint { codepoint: 0x1D520, name: "MATHEMATICAL FRAKTUR SMALL C", aliases: &[] },
        Codepoint { codepoint: 0x1D521, name: "MATHEMATICAL FRAKTUR SMALL D", aliases: &[] },
        Codepoint { codepoint: 0x1D522, name: "MATHEMATICAL FRAKTUR SMALL E", aliases: &[] },
        Codepoint { codepoint: 0x1D523, name: "MATHEMATICAL FRAKTUR SMALL F", aliases: &[] },
        Codepoint { codepoint: 0x1D524, name: "MATHEMATICAL FRAKTUR SMALL G", aliases: &[] },
        Codepoint { codepoint: 0x1D525, name: "MATHEMATICAL FRAKTUR SMALL H", aliases: &[] },
        Codepoint { codepoint: 0x1D526, name: "MATHEMATICAL FRAKTUR SMALL I", aliases: &[] },
        Codepoint { codepoint: 0x1D527, name: "MATHEMATICAL FRAKTUR SMALL J", aliases: &[] },
        Codepoint { codepoint: 0x1D528, name: "MATHEMATICAL FRAKTUR SMALL K", aliases: &[] },
        Codepoint { codepoint: 0x1D529, name: "MATHEMATICAL FRAKTUR SMALL L", aliases: &[] },
        Codepoint { codepoint: 0x1D52A, name: "MATHEMATICAL FRAKTUR SMALL M", aliases: &[] },
        Codepoint { codepoint: 0x1D52B, name: "MATHEMATICAL FRAKTUR SMALL N", aliases: &[] },
        Codepoint { codepoint: 0x1D52C, name: "MATHEMATICAL FRAKTUR SMALL O", aliases: &[] },
        Codepoint { codepoint: 0x1D52D, name: "MATHEMATICAL FRAKTUR SMALL P", aliases: &[] },
        Codepoint { codepoint: 0x1D52E, name: "MATHEMATICAL FRAKTUR SMALL Q", aliases: &[] },
        Codepoint { codepoint: 0x1D52F, name: "MATHEMATICAL FRAKTUR SMALL R", aliases: &[] },
        Codepoint { codepoint: 0x1D530, name: "MATHEMATICAL FRAKTUR SMALL S", aliases: &[] },
        Codepoint { codepoint: 0x1D531, name: "MATHEMATICAL FRAKTUR SMALL T", aliases: &[] },
        Codepoint { codepoint: 0x1D532, name: "MATHEMATICAL FRAKTUR SMALL U", aliases: &[] },
        Codepoint { codepoint: 0x1D533, name: "MATHEMATICAL FRAKTUR SMALL V", aliases: &[] },
        Codepoint { codepoint: 0x1D534, name: "MATHEMATICAL FRAKTUR SMALL W", aliases: &[] },
        Codepoint { codepoint: 0x1D535, name: "MATHEMATICAL FRAKTUR SMALL X", aliases: &[] },
    ]
}

fn all_codepoints_724() -> (v: Vec<Codepoint>)
    ensures
        v@ == codepoint_table_724(),
{
    let v = vec![
        Codepoint { codepoint: 0x1D50A, name: "MATHEMATICAL FRAKTUR CAPITAL G", aliases: &[] },
        Codepoint { codepoint: 0x1D50D, name: "MATHEMATICAL FRAKTUR CAPITAL J", aliases: &[] },
        Codepoint { codepoint: 0x1D50E, name: "MATHEMATICAL FRAKTUR CAPITAL K", aliases: &[] },
        Codepoint { codepoint: 0x1D50F, name: "MATHEMATICAL FRAKTUR CAPITAL L", aliases: &[] },
        Codepoint { codepoint: 0x1D510, name: "MATHEMATICAL FRAKTUR CAPITAL M", aliases: &[] },
        Codepoint { codepoint: 0x1D511, name: "MATHEMATICAL FRAKTUR CAPITAL N", aliases: &[] },
        Codepoint { codepoint: 0x1D512, name: "MATHEMATICAL FRAKTUR CAPITAL O", aliases: &[] },
        Codepoint { codepoint: 0x1D513, name: "MATHEMATICAL FRAKTUR CAPITAL P", aliases: &[] },
        Codepoint { codepoint: 0x1D514, name: "MATHEMATICAL FRAKTUR CAPITAL Q", aliases: &[] },
        Codepoint { codepoint: 0x1D516, name: "MATHEMATICAL FRAKTUR CAPITAL S", aliases: &[] },
        Codepoint { codepoint: 0x1D517, name: "MATHEMATICAL FRAKTUR CAPITAL T", aliases: &[] },
        Codepoint { codepoint: 0x1D518, name: "MATHEMATICAL FRAKTUR CAPITAL U", aliases: &[] },
        Codepoint { codepoint: 0x1D519, name: "MATHEMATICAL FRAKTUR CAPITAL V", aliases: &[] },
        Codepoint { codepoint: 0x1D51A, name: "MATHEMATICAL FRAKTUR CAPITAL W", aliases: &[] },
        Codepoint { codepoint: 0x1D51B, name: "MATHEMATICAL FRAKTUR CAPITAL X", aliases: &[] },
        Codepoint { codepoint: 0x1D51C, name: "MATHEMATICAL FRAKTUR CAPITAL Y", aliases: &[] },
        Codepoint { codepoint: 0x1D51E, name: "MATHEMATICAL FRAKTUR SMALL A", aliases: &[] },
        Codepoint { codepoint: 0x1D51F, name: "MATHEMATICAL FRAKTUR SMALL B", aliases: &[] },
        Codepoint { codepoint: 0x1D520, name: "MATHEMATICAL FRAKTUR SMALL C", aliases: &[] },
        Codepoint { codepoint: 0x1D521, name: "MATHEMATICAL FRAKTUR SMALL D", aliases: &[] },
        Codepoint { codepoint: 0x1D522, name: "MATHEMATICAL FRAKTUR SMALL E", aliases: &[] },
        Codepoint { codepoint: 0x1D523, name: "MATHEMATICAL FRAKTUR SMALL F", aliases: &[] },
        Codepoint { codepoint: 0x1D524, name: "MATHEMATICAL FRAKTUR SMALL G", aliases: &[] },
        Codepoint { codepoint: 0x1D525, name: "MATHEMATICAL FRAKTUR SMALL H", aliases: &[] },
        Codepoint { codepoint: 0x1D526, name: "MATHEMATICAL FRAKTUR SMALL I", aliases: &[] },
        Codepoint { codepoint: 0x1D527, name: "MATHEMATICAL FRAKTUR SMALL J", aliases: &[] },
        Codepoint { codepoint: 0x1D528, name: "MATHEMATICAL FRAKTUR SMALL K", aliases: &[] },
        Codepoint { codepoint: 0x1D529, name: "MATHEMATICAL FRAKTUR SMALL L", aliases: &[] },
        Codepoint { codepoint: 0x1D52A, name: "MATHEMATICAL FRAKTUR SMALL M", aliases: &[] },
        Codepoint { codepoint: 0x1D52B, name: "MATHEMATICAL FRAKTUR SMALL N", aliases: &[] },
        Codepoint { codepoint: 0x1D52C, name: "MATHEMATICAL FRAKTUR SMALL O", aliases: &[] },
        Codepoint { codepoint: 0x1D52D, name: "MATHEMATICAL FRAKTUR SMALL P", aliases: &[] },
        Codepoint { codepoint: 0x1D52E, name: "MATHEMATICAL FRAKTUR SMALL Q", aliases: &[] },
        Codepoint { codepoint: 0x1D52F, name: "MATHEMATICAL FRAKTUR SMALL R", aliases: &[] },
        Codepoint { codepoint: 0x1D530, name: "MATHEMATICAL FRAKTUR SMALL S", aliases: &[] },
        Codepoint { codepoint: 0x1D531, name: "MATHEMATICAL FRAKTUR SMALL T", aliases: &[] },
        Codepoint { codepoint: 0x1D532, name: "MATHEMATICAL FRAKTUR SMALL U", aliases: &[] },
        Codepoint { codepoint: 0x1D533, name: "MATHEMATICAL FRAKTUR SMALL V", aliases: &[] },
        Codepoint { codepoint: 0x1D534, name: "MATHEMATICAL FRAKTUR SMALL W", aliases: &[] },
        Codepoint { codepoint: 0x1D535, name: "MATHEMATICAL FRAKTUR SMALL X", aliases: &[] },
    ];
    assert(v@ =~= codepoint_table_724());
    v
}

pub open spec fn codepoint_table_725() -> Seq<Codepoint> {
    seq![
        Codepoint { codepoint: 0x1D536, name: "MATHEMATICAL FRAKTUR SMALL Y", aliases: &[] },
        Codepoint { codepoint: 0x1D537, name: "MATHEMATICAL FRAKTUR SMALL Z", aliases: &[] },
        Codepoint { codepoint: 0x1D538, name: "MATHEMATICAL DOUBLE-STRUCK CAPITAL A", aliases: &[] },
        Codepoint { codepoint: 0x1D539, name: "MATHEMATICAL DOUBLE-STRUCK CAPITAL B", aliases: &[] },
        Codepoint { codepoint: 0x1D53B, name: "MATHEMATICAL DOUBLE-STRUCK CAPITAL D", aliases: &[] },
        Codepoint { codepoint: 0x1D53C, name: "MATHEMATICAL DOUBLE-STRUCK CAPITAL E", aliases: &[] },
        Codepoint { codepoint: 0x1D53D, name: "MATHEMATICAL DOUBLE-STRUCK CAPITAL F", aliases: &[] },
        Codepoint { codepoint: 0x1D53E, name: "MATHEMATICAL DOUBLE-STRUCK CAPITAL G", aliases: &[] },
        Codepoint { codepoint: 0x1D540, name: "MATHEMATICAL DOUBLE-STRUCK CAPITAL I", aliases: &[] },
        Codepoint { codepoint: 0x1D541, name: "MATHEMATICAL DOUBLE-STRUCK CAPITAL J", aliases: &[] },
        Codepoint { codepoint: 0x1D542, name: "MATHEMATICAL DOUBLE-STRUCK CAPITAL K", aliases: &[] },
        Codepoint { codepoint: 0x1D543, name: "MATHEMATICAL DOUBLE-STRUCK CAPITAL L", aliases: &[] },
        Codepoint { codepoint: 0x1D544, name: "MATHEMATICAL DOUBLE-STRUCK CAPITAL M", aliases: &[] },
        Codepoint { codepoint: 0x1D546, name: "MATHEMATICAL DOUBLE-STRUCK CAPITAL O", aliases: &[] },
        Codepoint { codepoint: 0x1D54A, name: "MATHEMATICAL DOUBLE-STRUCK CAPITAL S", aliases: &[] },
        Codepoint { codepoint: 0x1D54B, name: "MATHEMATICAL DOUBLE-STRUCK CAPITAL T", aliases: &[] },
        Codepoint { codepoint: 0x1D54C, name: "MATHEMATICAL DOUBLE-STRUCK CAPITAL U", aliases: &[] },
        Codepoint { codepoint: 0x1D54D, name: "MATHEMATICAL DOUBLE-STRUCK CAPITAL V", aliases: &[] },
        Codepoint { codepoint: 0x1D54E, name: "MATHEMATICAL DOUBLE-STRUCK CAPITAL W", aliases: &[] },
        Codepoint { codepoint: 0x1D54F, name: "MATHEMATICAL DOUBLE-STRUCK CAPITAL X", aliases: &[] },
        Codepoint { codepoint: 0x1D550, name: "MATHEMATICAL DOUBLE-STRUCK CAPITAL Y", aliases: &[] },
        Codepoint { codepoint: 0x1D552, name: "MATHEMATICAL DOUBLE-STRUCK SMALL A", aliases: &[] },
        Codepoint { codepoint: 0x1D553, name: "MATHEMATICAL DOUBLE-STRUCK SMALL B", aliases: &[] },
        Codepoint { codepoint: 0x1D554, name: "MATHEMATICAL DOUBLE-STRUCK SMALL C", aliases: &[] },
        Codepoint { codepoint: 0x1D555, name: "MATHEMATICAL DOUBLE-STRUCK SMALL D", aliases: &[] },
        Codepoint { codepoint: 0x1D556, name: "MATHEMATICAL DOUBLE-STRUCK SMALL E", aliases: &[] },
        Codepoint { codepoint: 0x1D557, name: "MATHEMATICAL DOUBLE-STRUCK SMALL F", aliases: &[] },
        Codepoint { codepoint: 0x1D558, name: "MATHEMATICAL DOUBLE-STRUCK SMALL G", aliases: &[] },
        Codepoint { codepoint: 0x1D559, name: "MATHEMATICAL DOUBLE-STRUCK SMALL H", aliases: &[] },
        Codepoint { codepoint: 0x1D55A, name: "MATHEMATICAL DOUBLE-STRUCK SMALL I", aliases: &[] },
        Codepoint { codepoint: 0x1D55B, name: "MATHEMATICAL DOUBLE-STRUCK SMALL J", aliases: &[] },
        Codepoint { codepoint: 0x1D55C, name: "MATHEMATICAL DOUBLE-STRUCK SMALL K", aliases: &[] },
        Codepoint { codepoint: 0x1D55D, name: "MATHEMATICAL DOUBLE-STRUCK SMALL L", aliases: &[] },
        Codepoint { codepoint: 0x1D55E, name: "MATHEMATICAL DOUBLE-STRUCK SMALL M", aliases: &[] },
        Codepoint { codepoint: 0x1D55F, name: "MATHEMATICAL DOUBLE-STRUCK SMALL N", aliases: &[] },
        Codepoint { codepoint: 0x1D560, name: "MATHEMATICAL DOUBLE-STRUCK SMALL O", aliases: &[] },
        Codepoint { codepoint: 0x1D561, name: "MATHEMATICAL DOUBLE-STRUCK SMALL P", aliases: &[] },
        Codepoint { codepoint: 0x1D562, name: "MATHEMATICAL DOUBLE-STRUCK SMALL Q", aliases: &[] },
        Codepoint { codepoint: 0x1D563, name: "MATHEMATICAL DOUBLE-STRUCK SMALL R", aliases: &[] },
        Codepoint { codepoint: 0x1D564, name: "MATHEMATICAL DOUBLE-STRUCK SMALL S", aliases: &[] },
    ]
}

fn all_codepoints_725() -> (v: Vec<Codepoint>)
    ensures
        v@ == codepoint_table_725(),
{
    let v = vec![
        Codepoint { codepoint: 0x1D536, name: "MATHEMATICAL FRAKTUR SMALL Y", aliases: &[] },
        Codepoint { codepoint: 0x1D537, name: "MATHEMATICAL FRAKTUR SMALL Z", aliases: &[] },
        Codepoint { codepoint: 0x1D538, name: "MATHEMATICAL DOUBLE-STRUCK CAPITAL A", aliases: &[] },
        Codepoint { codepoint: 0x1D539, name: "MATHEMATICAL DOUBLE-STRUCK CAPITAL B", aliases: &[] },
        Codepoint { codepoint: 0x1D53B, name: "MATHEMATICAL DOUBLE-STRUCK CAPITAL D", aliases: &[] },
        Codepoint { codepoint: 0x1D53C, name: "MATHEMATICAL DOUBLE-STRUCK CAPITAL E", aliases: &[] },
        Codepoint { codepoint: 0x1D53D, name: "MATHEMATICAL DOUBLE-STRUCK CAPITAL F", aliases: &[] },
        Codepoint { codepoint: 0x1D53E, name: "MATHEMATICAL DOUBLE-STRUCK CAPITAL G", aliases: &[] },
        Codepoint { codepoint: 0x1D540, name: "MATHEMATICAL DOUBLE-STRUCK CAPITAL I", aliases: &[] },
        Codepoint { codepoint: 0x1D541, name: "MATHEMATICAL DOUBLE-STRUCK CAPITAL J", aliases: &[] },
        Codepoint { codepoint: 0x1D542, name: "MATHEMATICAL DOUBLE-STRUCK CAPITAL K", aliases: &[] },
        Codepoint { codepoint: 0x1D543, name: "MATHEMATICAL DOUBLE-STRUCK CAPITAL L", aliases: &[] },
        Codepoint { codepoint: 0x1D544, name: "MATHEMATICAL DOUBLE-STRUCK CAPITAL M", aliases: &[] },
        Codepoint { codepoint: 0x1D546, name: "MATHEMATICAL DOUBLE-STRUCK CAPITAL O", aliases: &[] },
        Codepoint { codepoint: 0x1D54A, name: "MATHEMATICAL DOUBLE-STRUCK CAPITAL S", aliases: &[] },
        Codepoint { codepoint: 0x1D54B, name: "MATHEMATICAL DOUBLE-STRUCK CAPITAL T", aliases: &[] },
        Codepoint { codepoint: 0x1D54C, name: "MATHEMATICAL DOUBLE-STRUCK CAPITAL U", aliases: &[] },
        Codepoint { codepoint: 0x1D54D, name: "MATHEMATICAL DOUBLE-STRUCK CAPITAL V", aliases: &[] },
        Codepoint { codepoint: 0x1D54E, name: "MATHEMATICAL DOUBLE-STRUCK CAPITAL W", aliases: &[] },
        Codepoint { codepoint: 0x1D54F, name: "MATHEMATICAL DOUBLE-STRUCK CAPITAL X", aliases: &[] },
        Codepoint { codepoint: 0x1D550, name: "MATHEMATICAL DOUBLE-STRUCK CAPITAL Y", aliases: &[] },
        Codepoint { codepoint: 0x1D552, name: "MATHEMATICAL DOUBLE-STRUCK SMALL A", aliases: &[] },
        Codepoint { codepoint: 0x1D553, name: "MATHEMATICAL DOUBLE-STRUCK SMALL B", aliases: &[] },
        Codepoint { codepoint: 0x1D554, name: "MATHEMATICAL DOUBLE-STRUCK SMALL C", aliases: &[] },
        Codepoint { codepoint: 0x1D555, name: "MATHEMATICAL DOUBLE-STRUCK SMALL D", aliases: &[] },
        Codepoint { codepoint: 0x1D556, name: "MATHEMATICAL DOUBLE-STRUCK SMALL E", aliases: &[] },
        Codepoint { codepoint: 0x1D557, name: "MATHEMATICAL DOUBLE-STRUCK SMALL F", aliases: &[] },
        Codepoint { codepoint: 0x1D558, name: "MATHEMATICAL DOUBLE-STRUCK SMALL G", aliases: &[] },
        Codepoint { codepoint: 0x1D559, name: "MATHEMATICAL DOUBLE-STRUCK SMALL H", aliases: &[] },
        Codepoint { codepoint: 0x1D55A, name: "MATHEMATICAL DOUBLE-STRUCK SMALL I", aliases: &[] },
        Codepoint { codepoint: 0x1D55B, name: "MATHEMATICAL DOUBLE-STRUCK SMALL J", aliases: &[] },
        Codepoint { codepoint: 0x1D55C, name: "MATHEMATICAL DOUBLE-STRUCK SMALL K", aliases: &[] },
        Codepoint { codepoint: 0x1D55D, name: "MATHEMATICAL DOUBLE-STRUCK SMALL L", aliases: &[] },
        Codepoint { codepoint: 0x1D55E, name: "MATHEMATICAL DOUBLE-STRUCK SMALL M", aliases: &[] },
        Codepoint { codepoint: 0x1D55F, name: "MATHEMATICAL DOUBLE-STRUCK SMALL N", aliases: &[] },
        Codepoint { codepoint: 0x1D560, name: "MATHEMATICAL DOUBLE-STRUCK SMALL O", aliases: &[] },
        Codepoint { codepoint: 0x1D561, name: "MATHEMATICAL DOUBLE-STRUCK SMALL P", aliases: &[] },
        Codepoint { codepoint: 0x1D562, name: "MATHEMATICAL DOUBLE-STRUCK SMALL Q", aliases: &[] },
        Codepoint { codepoint: 0x1D563, name: "MATHEMATICAL DOUBLE-STRUCK SMALL R", aliases: &[] },
        Codepoint { codepoint: 0x1D564, name: "MATHEMATICAL DOUBLE-STRUCK SMALL S", aliases: &[] },
    ];
    assert(v@ =~= codepoint_table_725());
    v
}

pub open spec fn codepoint_table_726() -> Seq<Codepoint> {
    seq![
        Codepoint { codepoint: 0x1D565, name: "MATHEMATICAL DOUBLE-STRUCK SMALL T", aliases: &[] },
        Codepoint { codepoint: 0x1D566, name: "MATHEMATICAL DOUBLE-STRUCK SMALL U", aliases: &[] },
        Codepoint { codepoint: 0x1D567, name: "MATHEMATICAL DOUBLE-STRUCK SMALL V", aliases: &[] },
        Codepoint { codepoint: 0x1D568, name: "MATHEMATICAL DOUBLE-STRUCK SMALL W", aliases: &[] },
        Codepoint { codepoint: 0x1D569, name: "MATHEMATICAL DOUBLE-STRUCK SMALL X", aliases: &[] },
        Codepoint { codepoint: 0x1D56A, name: "MATHEMATICAL DOUBLE-STRUCK SMALL Y", aliases: &[] },
        Codepoint { codepoint: 0x1D56B, name: "MATHEMATICAL DOUBLE-STRUCK SMALL Z", aliases: &[] },
        Codepoint { codepoint: 0x1D56C, name: "MATHEMATICAL BOLD FRAKTUR CAPITAL A", aliases: &[] },
        Codepoint { codepoint: 0x1D56D, name: "MATHEMATICAL BOLD FRAKTUR CAPITAL B", aliases: &[] },
        Codepoint { codepoint: 0x1D56E, name: "MATHEMATICAL BOLD FRAKTUR CAPITAL C", aliases: &[] },
        Codepoint { codepoint: 0x1D56F, name: "MATHEMATICAL BOLD FRAKTUR CAPITAL D", aliases: &[] },
        Codepoint { codepoint: 0x1D570, name: "MATHEMATICAL BOLD FRAKTUR CAPITAL E", aliases: &[] },
        Codepoint { codepoint: 0x1D571, name: "MATHEMATICAL BOLD FRAKTUR CAPITAL F", aliases: &[] },
        Codepoint { codepoint: 0x1D572, name: "MATHEMATICAL BOLD FRAKTUR CAPITAL G", aliases: &[] },
        Codepoint { codepoint: 0x1D573, name: "MATHEMATICAL BOLD FRAKTUR CAPITAL H", aliases: &[] },
        Codepoint { codepoint: 0x1D574, name: "MATHEMATICAL BOLD FRAKTUR CAPITAL I", aliases: &[] },
        Codepoint { codepoint: 0x1D575, name: "MATHEMATICAL BOLD FRAKTUR CAPITAL J", aliases: &[] },
        Codepoint { codepoint: 0x1D576, name: "MATHEMATICAL BOLD FRAKTUR CAPITAL K", aliases: &[] },
        Codepoint { codepoint: 0x1D577, name: "MATHEMATICAL BOLD FRAKTUR CAPITAL L", aliases: &[] },
        Codepoint { codepoint: 0x1D578, name: "MATHEMATICAL BOLD FRAKTUR CAPITAL M", aliases: &[] },
        Codepoint { codepoint: 0x1D579, name: "MATHEMATICAL BOLD FRAKTUR CAPITAL N", aliases: &[] },
        Codepoint { codepoint: 0x1D57A, name: "MATHEMATICAL BOLD FRAKTUR CAPITAL O", aliases: &[] },
        Codepoint { codepoint: 0x1D57B, name: "MATHEMATICAL BOLD FRAKTUR CAPITAL P", aliases: &[] },
        Codepoint { codepoint: 0x1D57C, name: "MATHEMATICAL BOLD FRAKTUR CAPITAL Q", aliases: &[] },
        Codepoint { codepoint: 0x1D57D, name: "MATHEMATICAL BOLD FRAKTUR CAPITAL R", aliases: &[] },
        Codepoint { codepoint: 0x1D57E, name: "MATHEMATICAL BOLD FRAKTUR CAPITAL S", aliases: &[] },
        Codepoint { codepoint: 0x1D57F, name: "MATHEMATICAL BOLD FRAKTUR CAPITAL T", aliases: &[] },
        Codepoint { codepoint: 0x1D580, name: "MATHEMATICAL BOLD FRAKTUR CAPITAL U", aliases: &[] },
        Codepoint { codepoint: 0x1D581, name: "MATHEMATICAL BOLD FRAKTUR CAPITAL V", aliases: &[] },
        Codepoint { codepoint: 0x1D582, name: "MATHEMATICAL BOLD FRAKTUR CAPITAL W", aliases: &[] },
        Codepoint { codepoint: 0x1D583, name: "MATHEMATICAL BOLD FRAKTUR CAPITAL X", aliases: &[] },
        Codepoint { codepoint: 0x1D584, name: "MATHEMATICAL BOLD FRAKTUR CAPITAL Y", aliases: &[] },
        Codepoint { codepoint: 0x1D585, name: "MATHEMATICAL BOLD FRAKTUR CAPITAL Z", aliases: &[] },
        Codepoint { codepoint: 0x1D586, name: "MATHEMATICAL BOLD FRAKTUR SMALL A", aliases: &[] },
        Codepoint { codepoint: 0x1D587, name: "MATHEMATICAL BOLD FRAKTUR SMALL B", aliases: &[] },
        Codepoint { codepoint: 0x1D588, name: "MATHEMATICAL BOLD FRAKTUR SMALL C", aliases: &[] },
        Codepoint { codepoint: 0x1D589, name: "MATHEMATICAL BOLD FRAKTUR SMALL D", aliases: &[] },
        Codepoint { codepoint: 0x1D58A, name: "MATHEMATICAL BOLD FRAKTUR SMALL E", aliases: &[] },
        Codepoint { codepoint: 0x1D58B, name: "MATHEMATICAL BOLD FRAKTUR SMALL F", aliases: &[] },
        Codepoint { codepoint: 0x1D58C, name: "MATHEMATICAL BOLD FRAKTUR SMALL G", aliases: &[] },
    ]
}

fn all_codepoints_726() -> (v: Vec<Codepoint>)
    ensures
        v@ == codepoint_table_726(),
{
    let v = vec![
        Codepoint { codepoint: 0x1D565, name: "MATHEMATICAL DOUBLE-STRUCK SMALL T", aliases: &[] },
        Codepoint { codepoint: 0x1D566, name: "MATHEMATICAL DOUBLE-STRUCK SMALL U", aliases: &[] },
        Codepoint { codepoint: 0x1D567, name: "MATHEMATICAL DOUBLE-STRUCK SMALL V", aliases: &[] },
        Codepoint { codepoint: 0x1D568, name: "MATHEMATICAL DOUBLE-STRUCK SMALL W", aliases: &[] },
        Codepoint { codepoint: 0x1D569, name: "MATHEMATICAL DOUBLE-STRUCK SMALL X", aliases: &[] },
        Codepoint { codepoint: 0x1D56A, name: "MATHEMATICAL DOUBLE-STRUCK SMALL Y", aliases: &[] },
        Codepoint { codepoint: 0x1D56B, name: "MATHEMATICAL DOUBLE-STRUCK SMALL Z", aliases: &[] },
        Codepoint { codepoint: 0x1D56C, name: "MATHEMATICAL BOLD FRAKTUR CAPITAL A", aliases: &[] },
        Codepoint { codepoint: 0x1D56D, name: "MATHEMATICAL BOLD FRAKTUR CAPITAL B", aliases: &[] },
        Codepoint { codepoint: 0x1D56E, name: "MATHEMATICAL BOLD FRAKTUR CAPITAL C", aliases: &[] },
        Codepoint { codepoint: 0x1D56F, name: "MATHEMATICAL BOLD FRAKTUR CAPITAL D", aliases: &[] },
        Codepoint { codepoint: 0x1D570, name: "MATHEMATICAL BOLD FRAKTUR CAPITAL E", aliases: &[] },
        Codepoint { codepoint: 0x1D571, name: "MATHEMATICAL BOLD FRAKTUR CAPITAL F", aliases: &[] },
        Codepoint { codepoint: 0x1D572, name: "MATHEMATICAL BOLD FRAKTUR CAPITAL G", aliases: &[] },
        Codepoint { codepoint: 0x1D573, name: "MATHEMATICAL BOLD FRAKTUR CAPITAL H", aliases: &[] },
        Codepoint { codepoint: 0x1D574, name: "MATHEMATICAL BOLD FRAKTUR CAPITAL I", aliases: &[] },
        Codepoint { codepoint: 0x1D575, name: "MATHEMATICAL BOLD FRAKTUR CAPITAL J", aliases: &[] },
        Codepoint { codepoint: 0x1D576, name: "MATHEMATICAL BOLD FRAKTUR CAPITAL K", aliases: &[] },
        Codepoint { codepoint: 0x1D577, name: "MATHEMATICAL BOLD FRAKTUR CAPITAL L", aliases: &[] },
        Codepoint { codepoint: 0x1D578, name: "MATHEMATICAL BOLD FRAKTUR CAPITAL M", aliases: &[] },
        Codepoint { codepoint: 0x1D579, name: "MATHEMATICAL BOLD FRAKTUR CAPITAL N", aliases: &[] },
        Codepoint { codepoint: 0x1D57A, name: "MATHEMATICAL BOLD FRAKTUR CAPITAL O", aliases: &[] },
        Codepoint { codepoint: 0x1D57B, name: "MATHEMATICAL BOLD FRAKTUR CAPITAL P", aliases: &[] },
        Codepoint { codepoint: 0x1D57C, name: "MATHEMATICAL BOLD FRAKTUR CAPITAL Q", aliases: &[] },
        Codepoint { codepoint: 0x1D57D, name: "MATHEMATICAL BOLD FRAKTUR CAPITAL R", aliases: &[] },
        Codepoint { codepoint: 0x1D57E, name: "MATHEMATICAL BOLD FRAKTUR CAPITAL S", aliases: &[] },
        Codepoint { codepoint: 0x1D57F, name: "MATHEMATICAL BOLD FRAKTUR CAPITAL T", aliases: &[] },
        Codepoint { codepoint: 0x1D580, name: "MATHEMATICAL BOLD FRAKTUR CAPITAL U", aliases: &[] },
        Codepoint { codepoint: 0x1D581, name: "MATHEMATICAL BOLD FRAKTUR CAPITAL V", aliases: &[] },
        Codepoint { codepoint: 0x1D582, name: "MATHEMATICAL BOLD FRAKTUR CAPITAL W", aliases: &[] },
        Codepoint { codepoint: 0x1D583, name: "MATHEMATICAL BOLD FRAKTUR CAPITAL X", aliases: &[] },
        Codepoint { codepoint: 0x1D584, name: "MATHEMATICAL BOLD FRAKTUR CAPITAL Y", aliases: &[] },
        Codepoint { codepoint: 0x1D585, name: "MATHEMATICAL BOLD FRAKTUR CAPITAL Z", aliases: &[] },
        Codepoint { codepoint: 0x1D586, name: "MATHEMATICAL BOLD FRAKTUR SMALL A", aliases: &[] },
        Codepoint { codepoint: 0x1D587, name: "MATHEMATICAL BOLD FRAKTUR SMALL B", aliases: &[] },
        Codepoint { codepoint: 0x1D588, name: "MATHEMATICAL BOLD FRAKTUR SMALL C", aliases: &[] },
        Codepoint { codepoint: 0x1D589, name: "MATHEMATICAL BOLD FRAKTUR SMALL D", aliases: &[] },
        Codepoint { codepoint: 0x1D58A, name: "MATHEMATICAL BOLD FRAKTUR SMALL E", aliases: &[] },
        Codepoint { codepoint: 0x1D58B, name: "MATHEMATICAL BOLD FRAKTUR SMALL F", aliases: &[] },
        Codepoint { codepoint: 0x1D58C, name: "MATHEMATICAL BOLD FRAKTUR SMALL G", aliases: &[] },
    ];
    assert(v@ =~= codepoint_table_726());
    v
}

pub open spec fn codepoint_table_727() -> Seq<Codepoint> {
    seq![
        Codepoint { codepoint: 0x1D58D, name: "MATHEMATICAL BOLD FRAKTUR SMALL H", aliases: &[] },
        Codepoint { codepoint: 0x1D58E, name: "MATHEMATICAL BOLD FRAKTUR SMALL I", aliases: &[] },
        Codepoint { codepoint: 0x1D58F, name: "MATHEMATICAL BOLD FRAKTUR SMALL J", aliases: &[] },
        Codepoint { codepoint: 0x1D590, name: "MATHEMATICAL BOLD FRAKTUR SMALL K", aliases: &[] },
        Codepoint { codepoint: 0x1D591, name: "MATHEMATICAL BOLD FRAKTUR SMALL L", aliases: &[] },
        Codepoint { codepoint: 0x1D592, name: "MATHEMATICAL BOLD FRAKTUR SMALL M", aliases: &[] },
        Codepoint { codepoint: 0x1D593, name: "MATHEMATICAL BOLD FRAKTUR SMALL N", aliases: &[] },
        Codepoint { codepoint: 0x1D594, name: "MATHEMATICAL BOLD FRAKTUR SMALL O", aliases: &[] },
        Codepoint { codepoint: 0x1D595, name: "MATHEMATICAL BOLD FRAKTUR SMALL P", aliases: &[] },
        Codepoint { codepoint: 0x1D596, name: "MATHEMATICAL BOLD FRAKTUR SMALL Q", aliases: &[] },
        Codepoint { codepoint: 0x1D597, name: "MATHEMATICAL BOLD FRAKTUR SMALL R", aliases: &[] },
        Codepoint { codepoint: 0x1D598, name: "MATHEMATICAL BOLD FRAKTUR SMALL S", aliases: &[] },
        Codepoint { codepoint: 0x1D599, name: "MATHEMATICAL BOLD FRAKTUR SMALL T", aliases: &[] },
        Codepoint { codepoint: 0x1D59A, name: "MATHEMATICAL BOLD FRAKTUR SMALL U", aliases: &[] },
        Codepoint { codepoint: 0x1D59B, name: "MATHEMATICAL BOLD FRAKTUR SMALL V", aliases: &[] },
        Codepoint { codepoint: 0x1D59C, name: "MATHEMATICAL BOLD FRAKTUR SMALL W", aliases: &[] },
        Codepoint { codepoint: 0x1D59D, name: "MATHEMATICAL BOLD FRAKTUR SMALL X", aliases: &[] },
        Codepoint { codepoint: 0x1D59E, name: "MATHEMATICAL BOLD FRAKTUR SMALL Y", aliases: &[] },
        Codepoint { codepoint: 0x1D59F, name: "MATHEMATICAL BOLD FRAKTUR SMALL Z", aliases: &[] },
        Codepoint { codepoint: 0x1D5A0, name: "MATHEMATICAL SANS-SERIF CAPITAL A", aliases: &[] },
        Codepoint { codepoint: 0x1D5A1, name: "MATHEMATICAL SANS-SERIF CAPITAL B", aliases: &[] },
        Codepoint { codepoint: 0x1D5A2, name: "MATHEMATICAL SANS-SERIF CAPITAL C", aliases: &[] },
        Codepoint { codepoint: 0x1D5A3, name: "MATHEMATICAL SANS-SERIF CAPITAL D", aliases: &[] },
        Codepoint { codepoint: 0x1D5A4, name: "MATHEMATICAL SANS-SERIF CAPITAL E", aliases: &[] },
        Codepoint { codepoint: 0x1D5A5, name: "MATHEMATICAL SANS-SERIF CAPITAL F", aliases: &[] },
        Codepoint { codepoint: 0x1D5A6, name: "MATHEMATICAL SANS-SERIF CAPITAL G", aliases: &[] },
        Codepoint { codepoint: 0x1D5A7, name: "MATHEMATICAL SANS-SERIF CAPITAL H", aliases: &[] },
        Codepoint { codepoint: 0x1D5A8, name: "MATHEMATICAL SANS-SERIF CAPITAL I", aliases: &[] },
        Codepoint { codepoint: 0x1D5A9, name: "MATHEMATICAL SANS-SERIF CAPITAL J", aliases: &[] },
        Codepoint { codepoint: 0x1D5AA, name: "MATHEMATICAL SANS-SERIF CAPITAL K", aliases: &[] },
        Codepoint { codepoint: 0x1D5AB, name: "MATHEMATICAL SANS-SERIF CAPITAL L", aliases: &[] },
        Codepoint { codepoint: 0x1D5AC, name: "MATHEMATICAL SANS-SERIF CAPITAL M", aliases: &[] },
        Codepoint { codepoint: 0x1D5AD, name: "MATHEMATICAL SANS-SERIF CAPITAL N", aliases: &[] },
        Codepoint { codepoint: 0x1D5AE, name: "MATHEMATICAL SANS-SERIF CAPITAL O", aliases: &[] },
        Codepoint { codepoint: 0x1D5AF, name: "MATHEMATICAL SANS-SERIF CAPITAL P", aliases: &[] },
        Codepoint { codepoint: 0x1D5B0, name: "MATHEMATICAL SANS-SERIF CAPITAL Q", aliases: &[] },
        Codepoint { codepoint: 0x1D5B1, name: "MATHEMATICAL SANS-SERIF CAPITAL R", aliases: &[] },
        Codepoint { codepoint: 0x1D5B2, name: "MATHEMATICAL SANS-SERIF CAPITAL S", aliases: &[] },
        Codepoint { codepoint: 0x1D5B3, name: "MATHEMATICAL SANS-SERIF CAPITAL T", aliases: &[] },
        Codepoint { codepoint: 0x1D5B4, name: "MATHEMATICAL SANS-SERIF CAPITAL U", aliases: &[] },
    ]
}

fn all_codepoints_727() -> (v: Vec<Codepoint>)
    ensures
        v@ == codepoint_table_727(),
{
    let v = vec![
        Codepoint { codepoint: 0x1D58D, name: "MATHEMATICAL BOLD FRAKTUR SMALL H", aliases: &[] },
        Codepoint { codepoint: 0x1D58E, name: "MATHEMATICAL BOLD FRAKTUR SMALL I", aliases: &[] },
        Codepoint { codepoint: 0x1D58F, name: "MATHEMATICAL BOLD FRAKTUR SMALL J", aliases: &[] },
        Codepoint { codepoint: 0x1D590, name: "MATHEMATICAL BOLD FRAKTUR SMALL K", aliases: &[] },
        Codepoint { codepoint: 0x1D591, name: "MATHEMATICAL BOLD FRAKTUR SMALL L", aliases: &[] },
        Codepoint { codepoint: 0x1D592, name: "MATHEMATICAL BOLD FRAKTUR SMALL M", aliases: &[] },
        Codepoint { codepoint: 0x1D593, name: "MATHEMATICAL BOLD FRAKTUR SMALL N", aliases: &[] },
        Codepoint { codepoint: 0x1D594, name: "MATHEMATICAL BOLD FRAKTUR SMALL O", aliases: &[] },
        Codepoint { codepoint: 0x1D595, name: "MATHEMATICAL BOLD FRAKTUR SMALL P", aliases: &[] },
        Codepoint { codepoint: 0x1D596, name: "MATHEMATICAL BOLD FRAKTUR SMALL Q", aliases: &[] },
        Codepoint { codepoint: 0x1D597, name: "MATHEMATICAL BOLD FRAKTUR SMALL R", aliases: &[] },
        Codepoint { codepoint: 0x1D598, name: "MATHEMATICAL BOLD FRAKTUR SMALL S", aliases: &[] },
        Codepoint { codepoint: 0x1D599, name: "MATHEMATICAL BOLD FRAKTUR SMALL T", aliases: &[] },
        Codepoint { codepoint: 0x1D59A, name: "MATHEMATICAL BOLD FRAKTUR SMALL U", aliases: &[] },
        Codepoint { codepoint: 0x1D59B, name: "MATHEMATICAL BOLD FRAKTUR SMALL V", aliases: &[] },
        Codepoint { codepoint: 0x1D59C, name: "MATHEMATICAL BOLD FRAKTUR SMALL W", aliases: &[] },
        Codepoint { codepoint: 0x1D59D, name: "MATHEMATICAL BOLD FRAKTUR SMALL X", aliases: &[] },
        Codepoint { codepoint: 0x1D59E, name: "MATHEMATICAL BOLD FRAKTUR SMALL Y", aliases: &[] },
        Codepoint { codepoint: 0x1D59F, name: "MATHEMATICAL BOLD FRAKTUR SMALL Z", aliases: &[] },
        Codepoint { codepoint: 0x1D5A0, name: "MATHEMATICAL SANS-SERIF CAPITAL A", aliases: &[] },
        Codepoint { codepoint: 0x1D5A1, name: "MATHEMATICAL SANS-SERIF CAPITAL B", aliases: &[] },
        Codepoint { codepoint: 0x1D5A2, name: "MATHEMATICAL SANS-SERIF CAPITAL C", aliases: &[] },
        Codepoint { codepoint: 0x1D5A3, name: "MATHEMATICAL SANS-SERIF CAPITAL D", aliases: &[] },
        Codepoint { codepoint: 0x1D5A4, name: "MATHEMATICAL SANS-SERIF CAPITAL E", aliases: &[] },
        Codepoint { codepoint: 0x1D5A5, name: "MATHEMATICAL SANS-SERIF CAPITAL F", aliases: &[] },
        Codepoint { codepoint: 0x1D5A6, name: "MATHEMATICAL SANS-SERIF CAPITAL G", aliases: &[] },
        Codepoint { codepoint: 0x1D5A7, name: "MATHEMATICAL SANS-SERIF CAPITAL H", aliases: &[] },
        Codepoint { codepoint: 0x1D5A8, name: "MATHEMATICAL SANS-SERIF CAPITAL I", aliases: &[] },
        Codepoint { codepoint: 0x1D5A9, name: "MATHEMATICAL SANS-SERIF CAPITAL J", aliases: &[] },
        Codepoint { codepoint: 0x1D5AA, name: "MATHEMATICAL SANS-SERIF CAPITAL K", aliases: &[] },
        Codepoint { codepoint: 0x1D5AB, name: "MATHEMATICAL SANS-SERIF CAPITAL L", aliases: &[] },
        Codepoint { codepoint: 0x1D5AC, name: "MATHEMATICAL SANS-SERIF CAPITAL M", aliases: &[] },
        Codepoint { codepoint: 0x1D5AD, name: "MATHEMATICAL SANS-SERIF CAPITAL N", aliases: &[] },
        Codepoint { codepoint: 0x1D5AE, name: "MATHEMATICAL SANS-SERIF CAPITAL O", aliases: &[] },
        Codepoint { codepoint: 0x1D5AF, name: "MATHEMATICAL SANS-SERIF CAPITAL P", aliases: &[] },
        Codepoint { codepoint: 0x1D5B0, name: "MATHEMATICAL SANS-SERIF CAPITAL Q", aliases: &[] },
        Codepoint { codepoint: 0x1D5B1, name: "MATHEMATICAL SANS-SERIF CAPITAL R", aliases: &[] },
        Codepoint { codepoint: 0x1D5B2, name: "MATHEMATICAL SANS-SERIF CAPITAL S", aliases: &[] },
        Codepoint { codepoint: 0x1D5B3, name: "MATHEMATICAL SANS-SERIF CAPITAL T", aliases: &[] },
        Codepoint { codepoint: 0x1D5B4, name: "MATHEMATICAL SANS-SERIF CAPITAL U", aliases: &[] },
    ];
    assert(v@ =~= codepoint_table_727());
    v
}

pub open spec fn codepoint_table_728() -> Seq<Codepoint> {
    seq![
        Codepoint { codepoint: 0x1D5B5, name: "MATHEMATICAL SANS-SERIF CAPITAL V", aliases: &[] },
        Codepoint { codepoint: 0x1D5B6, name: "MATHEMATICAL SANS-SERIF CAPITAL W", aliases: &[] },
        Codepoint { codepoint: 0x1D5B7, name: "MATHEMATICAL SANS-SERIF CAPITAL X", aliases: &[] },
        Codepoint { codepoint: 0x1D5B8, name: "MATHEMATICAL SANS-SERIF CAPITAL Y", aliases: &[] },
        Codepoint { codepoint: 0x1D5B9, name: "MATHEMATICAL SANS-SERIF CAPITAL Z", aliases: &[] },
        Codepoint { codepoint: 0x1D5BA, name: "MATHEMATICAL SANS-SERIF SMALL A", aliases: &[] },
        Codepoint { codepoint: 0x1D5BB, name: "MATHEMATICAL SANS-SERIF SMALL B", aliases: &[] },
        Codepoint { codepoint: 0x1D5BC, name: "MATHEMATICAL SANS-SERIF SMALL C", aliases: &[] },
        Codepoint { codepoint: 0x1D5BD, name: "MATHEMATICAL SANS-SERIF SMALL D", aliases: &[] },
        Codepoint { codepoint: 0x1D5BE, name: "MATHEMATICAL SANS-SERIF SMALL E", aliases: &[] },
        Codepoint { codepoint: 0x1D5BF, name: "MATHEMATICAL SANS-SERIF SMALL F", aliases: &[] },
        Codepoint { codepoint: 0x1D5C0, name: "MATHEMATICAL SANS-SERIF SMALL G", aliases: &[] },
        Codepoint { codepoint: 0x1D5C1, name: "MATHEMATICAL SANS-SERIF SMALL H", aliases: &[] },
        Codepoint { codepoint: 0x1D5C2, name: "MATHEMATICAL SANS-SERIF SMALL I", aliases: &[] },
        Codepoint { codepoint: 0x1D5C3, name: "MATHEMATICAL SANS-SERIF SMALL J", aliases: &[] },
        Codepoint { codepoint: 0x1D5C4, name: "MATHEMATICAL SANS-SERIF SMALL K", aliases: &[] },
        Codepoint { codepoint: 0x1D5C5, name: "MATHEMATICAL SANS-SERIF SMALL L", aliases: &[] },
        Codepoint { codepoint: 0x1D5C6, name: "MATHEMATICAL SANS-SERIF SMALL M", aliases: &[] },
        Codepoint { codepoint: 0x1D5C7, name: "MATHEMATICAL SANS-SERIF SMALL N", aliases: &[] },
        Codepoint { codepoint: 0x1D5C8, name: "MATHEMATICAL SANS-SERIF SMALL O", aliases: &[] },
        Codepoint { codepoint: 0x1D5C9, name: "MATHEMATICAL SANS-SERIF SMALL P", aliases: &[] },
        Codepoint { codepoint: 0x1D5CA, name: "MATHEMATICAL SANS-SERIF SMALL Q", aliases: &[] },
        Codepoint { codepoint: 0x1D5CB, name: "MATHEMATICAL SANS-SERIF SMALL R", aliases: &[] },
        Codepoint { codepoint: 0x1D5CC, name: "MATHEMATICAL SANS-SERIF SMALL S", aliases: &[] },
        Codepoint { codepoint: 0x1D5CD, name: "MATHEMATICAL SANS-SERIF SMALL T", aliases: &[] },
        Codepoint { codepoint: 0x1D5CE, name: "MATHEMATICAL SANS-SERIF SMALL U", aliases: &[] },
        Codepoint { codepoint: 0x1D5CF, name: "MATHEMATICAL SANS-SERIF SMALL V", aliases: &[] },
        Codepoint { codepoint: 0x1D5D0, name: "MATHEMATICAL SANS-SERIF SMALL W", aliases: &[] },
        Codepoint { codepoint: 0x1D5D1, name: "MATHEMATICAL SANS-SERIF SMALL X", aliases: &[] },
        Codepoint { codepoint: 0x1D5D2, name: "MATHEMATICAL SANS-SERIF SMALL Y", aliases: &[] },
        Codepoint { codepoint: 0x1D5D3, name: "MATHEMATICAL SANS-SERIF SMALL Z", aliases: &[] },
        Codepoint { codepoint: 0x1D5D4, name: "MATHEMATICAL SANS-SERIF BOLD CAPITAL A", aliases: &[] },
        Codepoint { codepoint: 0x1D5D5, name: "MATHEMATICAL SANS-SERIF BOLD CAPITAL B", aliases: &[] },
        Codepoint { codepoint: 0x1D5D6, name: "MATHEMATICAL SANS-SERIF BOLD CAPITAL C", aliases: &[] },
        Codepoint { codepoint: 0x1D5D7, name: "MATHEMATICAL SANS-SERIF BOLD CAPITAL D", aliases: &[] },
        Codepoint { codepoint: 0x1D5D8, name: "MATHEMATICAL SANS-SERIF BOLD CAPITAL E", aliases: &[] },
        Codepoint { codepoint: 0x1D5D9, name: "MATHEMATICAL SANS-SERIF BOLD CAPITAL F", aliases: &[] },
        Codepoint { codepoint: 0x1D5DA, name: "MATHEMATICAL SANS-SERIF BOLD CAPITAL G", aliases: &[] },
        Codepoint { codepoint: 0x1D5DB, name: "MATHEMATICAL SANS-SERIF BOLD CAPITAL H", aliases: &[] },
        Codepoint { codepoint: 0x1D5DC, name: "MATHEMATICAL SANS-SERIF BOLD CAPITAL I", aliases: &[] },
    ]
}

fn all_codepoints_728() -> (v: Vec<Codepoint>)
    ensures
        v@ == codepoint_table_728(),
{
    let v = vec![
        Codepoint { codepoint: 0x1D5B5, name: "MATHEMATICAL SANS-SERIF CAPITAL V", aliases: &[] },
        Codepoint { codepoint: 0x1D5B6, name: "MATHEMATICAL SANS-SERIF CAPITAL W", aliases: &[] },
        Codepoint { codepoint: 0x1D5B7, name: "MATHEMATICAL SANS-SERIF CAPITAL X", aliases: &[] },
        Codepoint { codepoint: 0x1D5B8, name: "MATHEMATICAL SANS-SERIF CAPITAL Y", aliases: &[] },
        Codepoint { codepoint: 0x1D5B9, name: "MATHEMATICAL SANS-SERIF CAPITAL Z", aliases: &[] },
        Codepoint { codepoint: 0x1D5BA, name: "MATHEMATICAL SANS-SERIF SMALL A", aliases: &[] },
        Codepoint { codepoint: 0x1D5BB, name: "MATHEMATICAL SANS-SERIF SMALL B", aliases: &[] },
        Codepoint { codepoint: 0x1D5BC, name: "MATHEMATICAL SANS-SERIF SMALL C", aliases: &[] },
        Codepoint { codepoint: 0x1D5BD, name: "MATHEMATICAL SANS-SERIF SMALL D", aliases: &[] },
        Codepoint { codepoint: 0x1D5BE, name: "MATHEMATICAL SANS-SERIF SMALL E", aliases: &[] },
        Codepoint { codepoint: 0x1D5BF, name: "MATHEMATICAL SANS-SERIF SMALL F", aliases: &[] },
        Codepoint { codepoint: 0x1D5C0, name: "MATHEMATICAL SANS-SERIF SMALL G", aliases: &[] },
        Codepoint { codepoint: 0x1D5C1, name: "MATHEMATICAL SANS-SERIF SMALL H", aliases: &[] },
        Codepoint { codepoint: 0x1D5C2, name: "MATHEMATICAL SANS-SERIF SMALL I", aliases: &[] },
        Codepoint { codepoint: 0x1D5C3, name: "MATHEMATICAL SANS-SERIF SMALL J", aliases: &[] },
        Codepoint { codepoint: 0x1D5C4, name: "MATHEMATICAL SANS-SERIF SMALL K", aliases: &[] },
        Codepoint { codepoint: 0x1D5C5, name: "MATHEMATICAL SANS-SERIF SMALL L", aliases: &[] },
        Codepoint { codepoint: 0x1D5C6, name: "MATHEMATICAL SANS-SERIF SMALL M", aliases: &[] },
        Codepoint { codepoint: 0x1D5C7, name: "MATHEMATICAL SANS-SERIF SMALL N", aliases: &[] },
        Codepoint { codepoint: 0x1D5C8, name: "MATHEMATICAL SANS-SERIF SMALL O", aliases: &[] },
        Codepoint { codepoint: 0x1D5C9, name: "MATHEMATICAL SANS-SERIF SMALL P", aliases: &[] },
        Codepoint { codepoint: 0x1D5CA, name: "MATHEMATICAL SANS-SERIF SMALL Q", aliases: &[] },
        Codepoint { codepoint: 0x1D5CB, name: "MATHEMATICAL SANS-SERIF SMALL R", aliases: &[] },
        Codepoint { codepoint: 0x1D5CC, name: "MATHEMATICAL SANS-SERIF SMALL S", aliases: &[] },
        Codepoint { codepoint: 0x1D5CD, name: "MATHEMATICAL SANS-SERIF SMALL T", aliases: &[] },
        Codepoint { codepoint: 0x1D5CE, name: "MATHEMATICAL SANS-SERIF SMALL U", aliases: &[] },
        Codepoint { codepoint: 0x1D5CF, name: "MATHEMATICAL SANS-SERIF SMALL V", aliases: &[] },
        Codepoint { codepoint: 0x1D5D0, name: "MATHEMATICAL SANS-SERIF SMALL W", aliases: &[] },
        Codepoint { codepoint: 0x1D5D1, name: "MATHEMATICAL SANS-SERIF SMALL X", aliases: &[] },
        Codepoint { codepoint: 0x1D5D2, name: "MATHEMATICAL SANS-SERIF SMALL Y", aliases: &[] },
        Codepoint { codepoint: 0x1D5D3, name: "MATHEMATICAL SANS-SERIF SMALL Z", aliases: &[] },
        Codepoint { codepoint: 0x1D5D4, name: "MATHEMATICAL SANS-SERIF BOLD CAPITAL A", aliases: &[] },
        Codepoint { codepoint: 0x1D5D5, name: "MATHEMATICAL SANS-SERIF BOLD CAPITAL B", aliases: &[] },
        Codepoint { codepoint: 0x1D5D6, name: "MATHEMATICAL SANS-SERIF BOLD CAPITAL C", aliases: &[] },
        Codepoint { codepoint: 0x1D5D7, name: "MATHEMATICAL SANS-SERIF BOLD CAPITAL D", aliases: &[] },
        Codepoint { codepoint: 0x1D5D8, name: "MATHEMATICAL SANS-SERIF BOLD CAPITAL E", aliases: &[] },
        Codepoint { codepoint: 0x1D5D9, name: "MATHEMATICAL SANS-SERIF BOLD CAPITAL F", aliases: &[] },
        Codepoint { codepoint: 0x1D5DA, name: "MATHEMATICAL SANS-SERIF BOLD CAPITAL G", aliases: &[] },
        Codepoint { codepoint: 0x1D5DB, name: "MATHEMATICAL SANS-SERIF BOLD CAPITAL H", aliases: &[] },
        Codepoint { codepoint: 0x1D5DC, name: "MATHEMATICAL SANS-SERIF BOLD CAPITAL I", aliases: &[] },
    ];
    assert(v@ =~= codepoint_table_728());
    v
}

pub open spec fn codepoint_table_729() -> Seq<Codepoint> {
    seq![
        Codepoint { codepoint: 0x1D5DD, name: "MATHEMATICAL SANS-SERIF BOLD CAPITAL J", aliases: &[] },
        Codepoint { codepoint: 0x1D5DE, name: "MATHEMATICAL SANS-SERIF BOLD CAPITAL K", aliases: &[] },
        Codepoint { codepoint: 0x1D5DF, name: "MATHEMATICAL SANS-SERIF BOLD CAPITAL L", aliases: &[] },
        Codepoint { codepoint: 0x1D5E0, name: "MATHEMATICAL SANS-SERIF BOLD CAPITAL M", aliases: &[] },
        Codepoint { codepoint: 0x1D5E1, name: "MATHEMATICAL SANS-SERIF BOLD CAPITAL N", aliases: &[] },
        Codepoint { codepoint: 0x1D5E2, name: "MATHEMATICAL SANS-SERIF BOLD CAPITAL O", aliases: &[] },
        Codepoint { codepoint: 0x1D5E3, name: "MATHEMATICAL SANS-SERIF BOLD CAPITAL P", aliases: &[] },
        Codepoint { codepoint: 0x1D5E4, name: "MATHEMATICAL SANS-SERIF BOLD CAPITAL Q", aliases: &[] },
        Codepoint { codepoint: 0x1D5E5, name: "MATHEMATICAL SANS-SERIF BOLD CAPITAL R", aliases: &[] },
        Codepoint { codepoint: 0x1D5E6, name: "MATHEMATICAL SANS-SERIF BOLD CAPITAL S", aliases: &[] },
        Codepoint { codepoint: 0x1D5E7, name: "MATHEMATICAL SANS-SERIF BOLD CAPITAL T", aliases: &[] },
        Codepoint { codepoint: 0x1D5E8, name: "MATHEMATICAL SANS-SERIF BOLD CAPITAL U", aliases: &[] },
        Codepoint { codepoint: 0x1D5E9, name: "MATHEMATICAL SANS-SERIF BOLD CAPITAL V", aliases: &[] },
        Codepoint { codepoint: 0x1D5EA, name: "MATHEMATICAL SANS-SERIF BOLD CAPITAL W", aliases: &[] },
        Codepoint { codepoint: 0x1D5EB, name: "MATHEMATICAL SANS-SERIF BOLD CAPITAL X", aliases: &[] },
        Codepoint { codepoint: 0x1D5EC, name: "MATHEMATICAL SANS-SERIF BOLD CAPITAL Y", aliases: &[] },
        Codepoint { codepoint: 0x1D5ED, name: "MATHEMATICAL SANS-SERIF BOLD CAPITAL Z", aliases: &[] },
        Codepoint { codepoint: 0x1D5EE, name: "MATHEMATICAL SANS-SERIF BOLD SMALL A", aliases: &[] },
        Codepoint { codepoint: 0x1D5EF, name: "MATHEMATICAL SANS-SERIF BOLD SMALL B", aliases: &[] },
        Codepoint { codepoint: 0x1D5F0, name: "MATHEMATICAL SANS-SERIF BOLD SMALL C", aliases: &[] },
        Codepoint { codepoint: 0x1D5F1, name: "MATHEMATICAL SANS-SERIF BOLD SMALL D", aliases: &[] },
        Codepoint { codepoint: 0x1D5F2, name: "MATHEMATICAL SANS-SERIF BOLD SMALL E", aliases: &[] },
        Codepoint { codepoint: 0x1D5F3, name: "MATHEMATICAL SANS-SERIF BOLD SMALL F", aliases: &[] },
        Codepoint { codepoint: 0x1D5F4, name: "MATHEMATICAL SANS-SERIF BOLD SMALL G", aliases: &[] },
        Codepoint { codepoint: 0x1D5F5, name: "MATHEMATICAL SANS-SERIF BOLD SMALL H", aliases: &[] },
        Codepoint { codepoint: 0x1D5F6, name: "MATHEMATICAL SANS-SERIF BOLD SMALL I", aliases: &[] },
        Codepoint { codepoint: 0x1D5F7, name: "MATHEMATICAL SANS-SERIF BOLD SMALL J", aliases: &[] },
        Codepoint { codepoint: 0x1D5F8, name: "MATHEMATICAL SANS-SERIF BOLD SMALL K", aliases: &[] },
        Codepoint { codepoint: 0x1D5F9, name: "MATHEMATICAL SANS-SERIF BOLD SMALL L", aliases: &[] },
        Codepoint { codepoint: 0x1D5FA, name: "MATHEMATICAL SANS-SERIF BOLD SMALL M", aliases: &[] },
        Codepoint { codepoint: 0x1D5FB, name: "MATHEMATICAL SANS-SERIF BOLD SMALL N", aliases: &[] },
        Codepoint { codepoint: 0x1D5FC, name: "MATHEMATICAL SANS-SERIF BOLD SMALL O", aliases: &[] },
        Codepoint { codepoint: 0x1D5FD, name: "MATHEMATICAL SANS-SERIF BOLD SMALL P", aliases: &[] },
        Codepoint { codepoint: 0x1D5FE, name: "MATHEMATICAL SANS-SERIF BOLD SMALL Q", aliases: &[] },
        Codepoint { codepoint: 0x1D5FF, name: "MATHEMATICAL SANS-SERIF BOLD SMALL R", aliases: &[] },
        Codepoint { codepoint: 0x1D600, name: "MATHEMATICAL SANS-SERIF BOLD SMALL S", aliases: &[] },
        Codepoint { codepoint: 0x1D601, name: "MATHEMATICAL SANS-SERIF BOLD SMALL T", aliases: &[] },
        Codepoint { codepoint: 0x1D602, name: "MATHEMATICAL SANS-SERIF BOLD SMALL U", aliases: &[] },
        Codepoint { codepoint: 0x1D603, name: "MATHEMATICAL SANS-SERIF BOLD SMALL V", aliases: &[] },
        Codepoint { codepoint: 0x1D604, name: "MATHEMATICAL SANS-SERIF BOLD SMALL W", aliases: &[] },
    ]
}

fn all_codepoints_729() -> (v: Vec<Codepoint>)
    ensures
        v@ == codepoint_table_729(),
{
    let v = vec![
        Codepoint { codepoint: 0x1D5DD, name: "MATHEMATICAL SANS-SERIF BOLD CAPITAL J", aliases: &[] },
        Codepoint { codepoint: 0x1D5DE, name: "MATHEMATICAL SANS-SERIF BOLD CAPITAL K", aliases: &[] },
        Codepoint { codepoint: 0x1D5DF, name: "MATHEMATICAL SANS-SERIF BOLD CAPITAL L", aliases: &[] },
        Codepoint { codepoint: 0x1D5E0, name: "MATHEMATICAL SANS-SERIF BOLD CAPITAL M", aliases: &[] },
        Codepoint { codepoint: 0x1D5E1, name: "MATHEMATICAL SANS-SERIF BOLD CAPITAL N", aliases: &[] },
        Codepoint { codepoint: 0x1D5E2, name: "MATHEMATICAL SANS-SERIF BOLD CAPITAL O", aliases: &[] },
        Codepoint { codepoint: 0x1D5E3, name: "MATHEMATICAL SANS-SERIF BOLD CAPITAL P", aliases: &[] },
        Codepoint { codepoint: 0x1D5E4, name: "MATHEMATICAL SANS-SERIF BOLD CAPITAL Q", aliases: &[] },
        Codepoint { codepoint: 0x1D5E5, name: "MATHEMATICAL SANS-SERIF BOLD CAPITAL R", aliases: &[] },
        Codepoint { codepoint: 0x1D5E6, name: "MATHEMATICAL SANS-SERIF BOLD CAPITAL S", aliases: &[] },
        Codepoint { codepoint: 0x1D5E7, name: "MATHEMATICAL SANS-SERIF BOLD CAPITAL T", aliases: &[] },
        Codepoint { codepoint: 0x1D5E8, name: "MATHEMATICAL SANS-SERIF BOLD CAPITAL U", aliases: &[] },
        Codepoint { codepoint: 0x1D5E9, name: "MATHEMATICAL SANS-SERIF BOLD CAPITAL V", aliases: &[] },
        Codepoint { codepoint: 0x1D5EA, name: "MATHEMATICAL SANS-SERIF BOLD CAPITAL W", aliases: &[] },
        Codepoint { codepoint: 0x1D5EB, name: "MATHEMATICAL SANS-SERIF BOLD CAPITAL X", aliases: &[] },
        Codepoint { codepoint: 0x1D5EC, name: "MATHEMATICAL SANS-SERIF BOLD CAPITAL Y", aliases: &[] },
        Codepoint { codepoint: 0x1D5ED, name: "MATHEMATICAL SANS-SERIF BOLD CAPITAL Z", aliases: &[] },
        Codepoint { codepoint: 0x1D5EE, name: "MATHEMATICAL SANS-SERIF BOLD SMALL A", aliases: &[] },
        Codepoint { codepoint: 0x1D5EF, name: "MATHEMATICAL SANS-SERIF BOLD SMALL B", aliases: &[] },
        Codepoint { codepoint: 0x1D5F0, name: "MATHEMATICAL SANS-SERIF BOLD SMALL C", aliases: &[] },
        Codepoint { codepoint: 0x1D5F1, name: "MATHEMATICAL SANS-SERIF BOLD SMALL D", aliases: &[] },
        Codepoint { codepoint: 0x1D5F2, name: "MATHEMATICAL SANS-SERIF BOLD SMALL E", aliases: &[] },
        Codepoint { codepoint: 0x1D5F3, name: "MATHEMATICAL SANS-SERIF BOLD SMALL F", aliases: &[] },
        Codepoint { codepoint: 0x1D5F4, name: "MATHEMATICAL SANS-SERIF BOLD SMALL G", aliases: &[] },
        Codepoint { codepoint: 0x1D5F5, name: "MATHEMATICAL SANS-SERIF BOLD SMALL H", aliases: &[] },
        Codepoint { codepoint: 0x1D5F6, name: "MATHEMATICAL SANS-SERIF BOLD SMALL I", aliases: &[] },
        Codepoint { codepoint: 0x1D5F7, name: "MATHEMATICAL SANS-SERIF BOLD SMALL J", aliases: &[] },
        Codepoint { codepoint: 0x1D5F8, name: "MATHEMATICAL SANS-SERIF BOLD SMALL K", aliases: &[] },
        Codepoint { codepoint: 0x1D5F9, name: "MATHEMATICAL SANS-SERIF BOLD SMALL L", aliases: &[] },
        Codepoint { codepoint: 0x1D5FA, name: "MATHEMATICAL SANS-SERIF BOLD SMALL M", aliases: &[] },
        Codepoint { codepoint: 0x1D5FB, name: "MATHEMATICAL SANS-SERIF BOLD SMALL N", aliases: &[] },
        Codepoint { codepoint: 0x1D5FC, name: "MATHEMATICAL SANS-SERIF BOLD SMALL O", aliases: &[] },
        Codepoint { codepoint: 0x1D5FD, name: "MATHEMATICAL SANS-SERIF BOLD SMALL P", aliases: &[] },
        Codepoint { codepoint: 0x1D5FE, name: "MATHEMATICAL SANS-SERIF BOLD SMALL Q", aliases: &[] },
        Codepoint { codepoint: 0x1D5FF, name: "MATHEMATICAL SANS-SERIF BOLD SMALL R", aliases: &[] },
        Codepoint { codepoint: 0x1D600, name: "MATHEMATICAL SANS-SERIF BOLD SMALL S", aliases: &[] },
        Codepoint { codepoint: 0x1D601, name: "MATHEMATICAL SANS-SERIF BOLD SMALL T", aliases: &[] },
        Codepoint { codepoint: 0x1D602, name: "MATHEMATICAL SANS-SERIF BOLD SMALL U", aliases: &[] },
        Codepoint { codepoint: 0x1D603, name: "MATHEMATICAL SANS-SERIF BOLD SMALL V", aliases: &[] },
        Codepoint { codepoint: 0x1D604, name: "MATHEMATICAL SANS-SERIF BOLD SMALL W", aliases: &[] },
    ];
    assert(v@ =~= codepoint_table_729());
    v
}

pub open spec fn codepoint_table_730() -> Seq<Codepoint> {
    seq![
        Codepoint { codepoint: 0x1D605, name: "MATHEMATICAL SANS-SERIF BOLD SMALL X", aliases: &[] },
        Codepoint { codepoint: 0x1D606, name: "MATHEMATICAL SANS-SERIF BOLD SMALL Y", aliases: &[] },
        Codepoint { codepoint: 0x1D607, name: "MATHEMATICAL SANS-SERIF BOLD SMALL Z", aliases: &[] },
        Codepoint { codepoint: 0x1D608, name: "MATHEMATICAL SANS-SERIF ITALIC CAPITAL A", aliases: &[] },
        Codepoint { codepoint: 0x1D609, name: "MATHEMATICAL SANS-SERIF ITALIC CAPITAL B", aliases: &[] },
        Codepoint { codepoint: 0x1D60A, name: "MATHEMATICAL SANS-SERIF ITALIC CAPITAL C", aliases: &[] },
        Codepoint { codepoint: 0x1D60B, name: "MATHEMATICAL SANS-SERIF ITALIC CAPITAL D", aliases: &[] },
        Codepoint { codepoint: 0x1D60C, name: "MATHEMATICAL SANS-SERIF ITALIC CAPITAL E", aliases: &[] },
        Codepoint { codepoint: 0x1D60D, name: "MATHEMATICAL SANS-SERIF ITALIC CAPITAL F", aliases: &[] },
        Codepoint { codepoint: 0x1D60E, name: "MATHEMATICAL SANS-SERIF ITALIC CAPITAL G", aliases: &[] },
        Codepoint { codepoint: 0x1D60F, name: "MATHEMATICAL SANS-SERIF ITALIC CAPITAL H", aliases: &[] },
        Codepoint { codepoint: 0x1D610, name: "MATHEMATICAL SANS-SERIF ITALIC CAPITAL I", aliases: &[] },
        Codepoint { codepoint: 0x1D611, name: "MATHEMATICAL SANS-SERIF ITALIC CAPITAL J", aliases: &[] },
        Codepoint { codepoint: 0x1D612, name: "MATHEMATICAL SANS-SERIF ITALIC CAPITAL K", aliases: &[] },
        Codepoint { codepoint: 0x1D613, name: "MATHEMATICAL SANS-SERIF ITALIC CAPITAL L", aliases: &[] },
        Codepoint { codepoint: 0x1D614, name: "MATHEMATICAL SANS-SERIF ITALIC CAPITAL M", aliases: &[] },
        Codepoint { codepoint: 0x1D615, name: "MATHEMATICAL SANS-SERIF ITALIC CAPITAL N", aliases: &[] },
        Codepoint { codepoint: 0x1D616, name: "MATHEMATICAL SANS-SERIF ITALIC CAPITAL O", aliases: &[] },
        Codepoint { codepoint: 0x1D617, name: "MATHEMATICAL SANS-SERIF ITALIC CAPITAL P", aliases: &[] },
        Codepoint { codepoint: 0x1D618, name: "MATHEMATICAL SANS-SERIF ITALIC CAPITAL Q", aliases: &[] },
        Codepoint { codepoint: 0x1D619, name: "MATHEMATICAL SANS-SERIF ITALIC CAPITAL R", aliases: &[] },
        Codepoint { codepoint: 0x1D61A, name: "MATHEMATICAL SANS-SERIF ITALIC CAPITAL S", aliases: &[] },
        Codepoint { codepoint: 0x1D61B, name: "MATHEMATICAL SANS-SERIF ITALIC CAPITAL T", aliases: &[] },
        Codepoint { codepoint: 0x1D61C, name: "MATHEMATICAL SANS-SERIF ITALIC CAPITAL U", aliases: &[] },
        Codepoint { codepoint: 0x1D61D, name: "MATHEMATICAL SANS-SERIF ITALIC CAPITAL V", aliases: &[] },
        Codepoint { codepoint: 0x1D61E, name: "MATHEMATICAL SANS-SERIF ITALIC CAPITAL W", aliases: &[] },
        Codepoint { codepoint: 0x1D61F, name: "MATHEMATICAL SANS-SERIF ITALIC CAPITAL X", aliases: &[] },
        Codepoint { codepoint: 0x1D620, name: "MATHEMATICAL SANS-SERIF ITALIC CAPITAL Y", aliases: &[] },
        Codepoint { codepoint: 0x1D621, name: "MATHEMATICAL SANS-SERIF ITALIC CAPITAL Z", aliases: &[] },
        Codepoint { codepoint: 0x1D622, name: "MATHEMATICAL SANS-SERIF ITALIC SMALL A", aliases: &[] },
        Codepoint { codepoint: 0x1D623, name: "MATHEMATICAL SANS-SERIF ITALIC SMALL B", aliases: &[] },
        Codepoint { codepoint: 0x1D624, name: "MATHEMATICAL SANS-SERIF ITALIC SMALL C", aliases: &[] },
        Codepoint { codepoint: 0x1D625, name: "MATHEMATICAL SANS-SERIF ITALIC SMALL D", aliases: &[] },
        Codepoint { codepoint: 0x1D626, name: "MATHEMATICAL SANS-SERIF ITALIC SMALL E", aliases: &[] },
        Codepoint { codepoint: 0x1D627, name: "MATHEMATICAL SANS-SERIF ITALIC SMALL F", aliases: &[] },
        Codepoint { codepoint: 0x1D628, name: "MATHEMATICAL SANS-SERIF ITALIC SMALL G", aliases: &[] },
        Codepoint { codepoint: 0x1D629, name: "MATHEMATICAL SANS-SERIF ITALIC SMALL H", aliases: &[] },
        Codepoint { codepoint: 0x1D62A, name: "MATHEMATICAL SANS-SERIF ITALIC SMALL I", aliases: &[] },
        Codepoint { codepoint: 0x1D62B, name: "MATHEMATICAL SANS-SERIF ITALIC SMALL J", aliases: &[] },
        Codepoint { codepoint: 0x1D62C, name: "MATHEMATICAL SANS-SERIF ITALIC SMALL K", aliases: &[] },
    ]
}

fn all_codepoints_730() -> (v: Vec<Codepoint>)
    ensures
        v@ == codepoint_table_730(),
{
    let v = vec![
        Codepoint { codepoint: 0x1D605, name: "MATHEMATICAL SANS-SERIF BOLD SMALL X", aliases: &[] },
        Codepoint { codepoint: 0x1D606, name: "MATHEMATICAL SANS-SERIF BOLD SMALL Y", aliases: &[] },
        Codepoint { codepoint: 0x1D607, name: "MATHEMATICAL SANS-SERIF BOLD SMALL Z", aliases: &[] },
        Codepoint { codepoint: 0x1D608, name: "MATHEMATICAL SANS-SERIF ITALIC CAPITAL A", aliases: &[] },
        Codepoint { codepoint: 0x1D609, name: "MATHEMATICAL SANS-SERIF ITALIC CAPITAL B", aliases: &[] },
        Codepoint { codepoint: 0x1D60A, name: "MATHEMATICAL SANS-SERIF ITALIC CAPITAL C", aliases: &[] },
        Codepoint { codepoint: 0x1D60B, name: "MATHEMATICAL SANS-SERIF ITALIC CAPITAL D", aliases: &[] },
        Codepoint { codepoint: 0x1D60C, name: "MATHEMATICAL SANS-SERIF ITALIC CAPITAL E", aliases: &[] },
        Codepoint { codepoint: 0x1D60D, name: "MATHEMATICAL SANS-SERIF ITALIC CAPITAL F", aliases: &[] },
        Codepoint { codepoint: 0x1D60E, name: "MATHEMATICAL SANS-SERIF ITALIC CAPITAL G", aliases: &[] },
        Codepoint { codepoint: 0x1D60F, name: "MATHEMATICAL SANS-SERIF ITALIC CAPITAL H", aliases: &[] },
        Codepoint { codepoint: 0x1D610, name: "MATHEMATICAL SANS-SERIF ITALIC CAPITAL I", aliases: &[] },
        Codepoint { codepoint: 0x1D611, name: "MATHEMATICAL SANS-SERIF ITALIC CAPITAL J", aliases: &[] },
        Codepoint { codepoint: 0x1D612, name: "MATHEMATICAL SANS-SERIF ITALIC CAPITAL K", aliases: &[] },
        Codepoint { codepoint: 0x1D613, name: "MATHEMATICAL SANS-SERIF ITALIC CAPITAL L", aliases: &[] },
        Codepoint { codepoint: 0x1D614, name: "MATHEMATICAL SANS-SERIF ITALIC CAPITAL M", aliases: &[] },
        Codepoint { codepoint: 0x1D615, name: "MATHEMATICAL SANS-SERIF ITALIC CAPITAL N", aliases: &[] },
        Codepoint { codepoint: 0x1D616, name: "MATHEMATICAL SANS-SERIF ITALIC CAPITAL O", aliases: &[] },
        Codepoint { codepoint: 0x1D617, name: "MATHEMATICAL SANS-SERIF ITALIC CAPITAL P", aliases: &[] },
        Codepoint { codepoint: 0x1D618, name: "MATHEMATICAL SANS-SERIF ITALIC CAPITAL Q", aliases: &[] },
        Codepoint { codepoint: 0x1D619, name: "MATHEMATICAL SANS-SERIF ITALIC CAPITAL R", aliases: &[] },
        Codepoint { codepoint: 0x1D61A, name: "MATHEMATICAL SANS-SERIF ITALIC CAPITAL S", aliases: &[] },
        Codepoint { codepoint: 0x1D61B, name: "MATHEMATICAL SANS-SERIF ITALIC CAPITAL T", aliases: &[] },
        Codepoint { codepoint: 0x1D61C, name: "MATHEMATICAL SANS-SERIF ITALIC CAPITAL U", aliases: &[] },
        Codepoint { codepoint: 0x1D61D, name: "MATHEMATICAL SANS-SERIF ITALIC CAPITAL V", aliases: &[] },
        Codepoint { codepoint: 0x1D61E, name: "MATHEMATICAL SANS-SERIF ITALIC CAPITAL W", aliases: &[] },
        Codepoint { codepoint: 0x1D61F, name: "MATHEMATICAL SANS-SERIF ITALIC CAPITAL X", aliases: &[] },
        Codepoint { codepoint: 0x1D620, name: "MATHEMATICAL SANS-SERIF ITALIC CAPITAL Y", aliases: &[] },
        Codepoint { codepoint: 0x1D621, name: "MATHEMATICAL SANS-SERIF ITALIC CAPITAL Z", aliases: &[] },
        Codepoint { codepoint: 0x1D622, name: "MATHEMATICAL SANS-SERIF ITALIC SMALL A", aliases: &[] },
        Codepoint { codepoint: 0x1D623, name: "MATHEMATICAL SANS-SERIF ITALIC SMALL B", aliases: &[] },
        Codepoint { codepoint: 0x1D624, name: "MATHEMATICAL SANS-SERIF ITALIC SMALL C", aliases: &[] },
        Codepoint { codepoint: 0x1D625, name: "MATHEMATICAL SANS-SERIF ITALIC SMALL D", aliases: &[] },
        Codepoint { codepoint: 0x1D626, name: "MATHEMATICAL SANS-SERIF ITALIC SMALL E", aliases: &[] },
        Codepoint { codepoint: 0x1D627, name: "MATHEMATICAL SANS-SERIF ITALIC SMALL F", aliases: &[] },
        Codepoint { codepoint: 0x1D628, name: "MATHEMATICAL SANS-SERIF ITALIC SMALL G", aliases: &[] },
        Codepoint { codepoint: 0x1D629, name: "MATHEMATICAL SANS-SERIF ITALIC SMALL H", aliases: &[] },
        Codepoint { codepoint: 0x1D62A, name: "MATHEMATICAL SANS-SERIF ITALIC SMALL I", aliases: &[] },
        Codepoint { codepoint: 0x1D62B, name: "MATHEMATICAL SANS-SERIF ITALIC SMALL J", aliases: &[] },
        Codepoint { codepoint: 0x1D62C, name: "MATHEMATICAL SANS-SERIF ITALIC SMALL K", aliases: &[] },
    ];
    assert(v@ =~= codepoint_table_730());
    v
}

pub open spec fn codepoint_table_731() -> Seq<Codepoint> {
    seq![
        Codepoint { codepoint: 0x1D62D, name: "MATHEMATICAL SANS-SERIF ITALIC SMALL L", aliases: &[] },
        Codepoint { codepoint: 0x1D62E, name: "MATHEMATICAL SANS-SERIF ITALIC SMALL M", aliases: &[] },
        Codepoint { codepoint: 0x1D62F, name: "MATHEMATICAL SANS-SERIF ITALIC SMALL N", aliases: &[] },
        Codepoint { codepoint: 0x1D630, name: "MATHEMATICAL SANS-SERIF ITALIC SMALL O", aliases: &[] },
        Codepoint { codepoint: 0x1D631, name: "MATHEMATICAL SANS-SERIF ITALIC SMALL P", aliases: &[] },
        Codepoint { codepoint: 0x1D632, name: "MATHEMATICAL SANS-SERIF ITALIC SMALL Q", aliases: &[] },
        Codepoint { codepoint: 0x1D633, name: "MATHEMATICAL SANS-SERIF ITALIC SMALL R", aliases: &[] },
        Codepoint { codepoint: 0x1D634, name: "MATHEMATICAL SANS-SERIF ITALIC SMALL S", aliases: &[] },
        Codepoint { codepoint: 0x1D635, name: "MATHEMATICAL SANS-SERIF ITALIC SMALL T", aliases: &[] },
        Codepoint { codepoint: 0x1D636, name: "MATHEMATICAL SANS-SERIF ITALIC SMALL U", aliases: &[] },
        Codepoint { codepoint: 0x1D637, name: "MATHEMATICAL SANS-SERIF ITALIC SMALL V", aliases: &[] },
        Codepoint { codepoint: 0x1D638, name: "MATHEMATICAL SANS-SERIF ITALIC SMALL W", aliases: &[] },
        Codepoint { codepoint: 0x1D639, name: "MATHEMATICAL SANS-SERIF ITALIC SMALL X", aliases: &[] },
        Codepoint { codepoint: 0x1D63A, name: "MATHEMATICAL SANS-SERIF ITALIC SMALL Y", aliases: &[] },
        Codepoint { codepoint: 0x1D63B, name: "MATHEMATICAL SANS-SERIF ITALIC SMALL Z", aliases: &[] },
        Codepoint { codepoint: 0x1D63C, name: "MATHEMATICAL SANS-SERIF BOLD ITALIC CAPITAL A", aliases: &[] },
        Codepoint { codepoint: 0x1D63D, name: "MATHEMATICAL SANS-SERIF BOLD ITALIC CAPITAL B", aliases: &[] },
        Codepoint { codepoint: 0x1D63E, name: "MATHEMATICAL SANS-SERIF BOLD ITALIC CAPITAL C", aliases: &[] },
        Codepoint { codepoint: 0x1D63F, name: "MATHEMATICAL SANS-SERIF BOLD ITALIC CAPITAL D", aliases: &[] },
        Codepoint { codepoint: 0x1D640, name: "MATHEMATICAL SANS-SERIF BOLD ITALIC CAPITAL E", aliases: &[] },
        Codepoint { codepoint: 0x1D641, name: "MATHEMATICAL SANS-SERIF BOLD ITALIC CAPITAL F", aliases: &[] },
        Codepoint { codepoint: 0x1D642, name: "MATHEMATICAL SANS-SERIF BOLD ITALIC CAPITAL G", aliases: &[] },
        Codepoint { codepoint: 0x1D643, name: "MATHEMATICAL SANS-SERIF BOLD ITALIC CAPITAL H", aliases: &[] },
        Codepoint { codepoint: 0x1D644, name: "MATHEMATICAL SANS-SERIF BOLD ITALIC CAPITAL I", aliases: &[] },
        Codepoint { codepoint: 0x1D645, name: "MATHEMATICAL SANS-SERIF BOLD ITALIC CAPITAL J", aliases: &[] },
        Codepoint { codepoint: 0x1D646, name: "MATHEMATICAL SANS-SERIF BOLD ITALIC CAPITAL K", aliases: &[] },
        Codepoint { codepoint: 0x1D647, name: "MATHEMATICAL SANS-SERIF BOLD ITALIC CAPITAL L", aliases: &[] },
        Codepoint { codepoint: 0x1D648, name: "MATHEMATICAL SANS-SERIF BOLD ITALIC CAPITAL M", aliases: &[] },
        Codepoint { codepoint: 0x1D649, name: "MATHEMATICAL SANS-SERIF BOLD ITALIC CAPITAL N", aliases: &[] },
        Codepoint { codepoint: 0x1D64A, name: "MATHEMATICAL SANS-SERIF BOLD ITALIC CAPITAL O", aliases: &[] },
        Codepoint { codepoint: 0x1D64B, name: "MATHEMATICAL SANS-SERIF BOLD ITALIC CAPITAL P", aliases: &[] },
        Codepoint { codepoint: 0x1D64C, name: "MATHEMATICAL SANS-SERIF BOLD ITALIC CAPITAL Q", aliases: &[] },
        Codepoint { codepoint: 0x1D64D, name: "MATHEMATICAL SANS-SERIF BOLD ITALIC CAPITAL R", aliases: &[] },
        Codepoint { codepoint: 0x1D64E, name: "MATHEMATICAL SANS-SERIF BOLD ITALIC CAPITAL S", aliases: &[] },
        Codepoint { codepoint: 0x1D64F, name: "MATHEMATICAL SANS-SERIF BOLD ITALIC CAPITAL T", aliases: &[] },
        Codepoint { codepoint: 0x1D650, name: "MATHEMATICAL SANS-SERIF BOLD ITALIC CAPITAL U", aliases: &[] },
        Codepoint { codepoint: 0x1D651, name: "MATHEMATICAL SANS-SERIF BOLD ITALIC CAPITAL V", aliases: &[] },
        Codepoint { codepoint: 0x1D652, name: "MATHEMATICAL SANS-SERIF BOLD ITALIC CAPITAL W", aliases: &[] },
        Codepoint { codepoint: 0x1D653, name: "MATHEMATICAL SANS-SERIF BOLD ITALIC CAPITAL X", aliases: &[] },
        Codepoint { codepoint: 0x1D654, name: "MATHEMATICAL SANS-SERIF BOLD ITALIC CAPITAL Y", aliases: &[] },
    ]
}

fn all_codepoints_731() -> (v: Vec<Codepoint>)
    ensures
        v@ == codepoint_table_731(),
{
    let v = vec![
        Codepoint { codepoint: 0x1D62D, name: "MATHEMATICAL SANS-SERIF ITALIC SMALL L", aliases: &[] },
        Codepoint { codepoint: 0x1D62E, name: "MATHEMATICAL SANS-SERIF ITALIC SMALL M", aliases: &[] },
        Codepoint { codepoint: 0x1D62F, name: "MATHEMATICAL SANS-SERIF ITALIC SMALL N", aliases: &[] },
        Codepoint { codepoint: 0x1D630, name: "MATHEMATICAL SANS-SERIF ITALIC SMALL O", aliases: &[] },
        Codepoint { codepoint: 0x1D631, name: "MATHEMATICAL SANS-SERIF ITALIC SMALL P", aliases: &[] },
        Codepoint { codepoint: 0x1D632, name: "MATHEMATICAL SANS-SERIF ITALIC SMALL Q", aliases: &[] },
        Codepoint { codepoint: 0x1D633, name: "MATHEMATICAL SANS-SERIF ITALIC SMALL R", aliases: &[] },
        Codepoint { codepoint: 0x1D634, name: "MATHEMATICAL SANS-SERIF ITALIC SMALL S", aliases: &[] },
        Codepoint { codepoint: 0x1D635, name: "MATHEMATICAL SANS-SERIF ITALIC SMALL T", aliases: &[] },
        Codepoint { codepoint: 0x1D636, name: "MATHEMATICAL SANS-SERIF ITALIC SMALL U", aliases: &[] },
        Codepoint { codepoint: 0x1D637, name: "MATHEMATICAL SANS-SERIF ITALIC SMALL V", aliases: &[] },
        Codepoint { codepoint: 0x1D638, name: "MATHEMATICAL SANS-SERIF ITALIC SMALL W", aliases: &[] },
        Codepoint { codepoint: 0x1D639, name: "MATHEMATICAL SANS-SERIF ITALIC SMALL X", aliases: &[] },
        Codepoint { codepoint: 0x1D63A, name: "MATHEMATICAL SANS-SERIF ITALIC SMALL Y", aliases: &[] },
        Codepoint { codepoint: 0x1D63B, name: "MATHEMATICAL SANS-SERIF ITALIC SMALL Z", aliases: &[] },
        Codepoint { codepoint: 0x1D63C, name: "MATHEMATICAL SANS-SERIF BOLD ITALIC CAPITAL A", aliases: &[] },
        Codepoint { codepoint: 0x1D63D, name: "MATHEMATICAL SANS-SERIF BOLD ITALIC CAPITAL B", aliases: &[] },
        Codepoint { codepoint: 0x1D63E, name: "MATHEMATICAL SANS-SERIF BOLD ITALIC CAPITAL C", aliases: &[] },
        Codepoint { codepoint: 0x1D63F, name: "MATHEMATICAL SANS-SERIF BOLD ITALIC CAPITAL D", aliases: &[] },
        Codepoint { codepoint: 0x1D640, name: "MATHEMATICAL SANS-SERIF BOLD ITALIC CAPITAL E", aliases: &[] },
        Codepoint { codepoint: 0x1D641, name: "MATHEMATICAL SANS-SERIF BOLD ITALIC CAPITAL F", aliases: &[] },
        Codepoint { codepoint: 0x1D642, name: "MATHEMATICAL SANS-SERIF BOLD ITALIC CAPITAL G", aliases: &[] },
        Codepoint { codepoint: 0x1D643, name: "MATHEMATICAL SANS-SERIF BOLD ITALIC CAPITAL H", aliases: &[] },
        Codepoint { codepoint: 0x1D644, name: "MATHEMATICAL SANS-SERIF BOLD ITALIC CAPITAL I", aliases: &[] },
        Codepoint { codepoint: 0x1D645, name: "MATHEMATICAL SANS-SERIF BOLD ITALIC CAPITAL J", aliases: &[] },
        Codepoint { codepoint: 0x1D646, name: "MATHEMATICAL SANS-SERIF BOLD ITALIC CAPITAL K", aliases: &[] },
        Codepoint { codepoint: 0x1D647, name: "MATHEMATICAL SANS-SERIF BOLD ITALIC CAPITAL L", aliases: &[] },
        Codepoint { codepoint: 0x1D648, name: "MATHEMATICAL SANS-SERIF BOLD ITALIC CAPITAL M", aliases: &[] },
        Codepoint { codepoint: 0x1D649, name: "MATHEMATICAL SANS-SERIF BOLD ITALIC CAPITAL N", aliases: &[] },
        Codepoint { codepoint: 0x1D64A, name: "MATHEMATICAL SANS-SERIF BOLD ITALIC CAPITAL O", aliases: &[] },
        Codepoint { codepoint: 0x1D64B, name: "MATHEMATICAL SANS-SERIF BOLD ITALIC CAPITAL P", aliases: &[] },
        Codepoint { codepoint: 0x1D64C, name: "MATHEMATICAL SANS-SERIF BOLD ITALIC CAPITAL Q", aliases: &[] },
        Codepoint { codepoint: 0x1D64D, name: "MATHEMATICAL SANS-SERIF BOLD ITALIC CAPITAL R", aliases: &[] },
        Codepoint { codepoint: 0x1D64E, name: "MATHEMATICAL SANS-SERIF BOLD ITALIC CAPITAL S", aliases: &[] },
        Codepoint { codepoint: 0x1D64F, name: "MATHEMATICAL SANS-SERIF BOLD ITALIC CAPITAL T", aliases: &[] },
        Codepoint { codepoint: 0x1D650, name: "MATHEMATICAL SANS-SERIF BOLD ITALIC CAPITAL U", aliases: &[] },
        Codepoint { codepoint: 0x1D651, name: "MATHEMATICAL SANS-SERIF BOLD ITALIC CAPITAL V", aliases: &[] },
        Codepoint { codepoint: 0x1D652, name: "MATHEMATICAL SANS-SERIF BOLD ITALIC CAPITAL W", aliases: &[] },
        Codepoint { codepoint: 0x1D653, name: "MATHEMATICAL SANS-SERIF BOLD ITALIC CAPITAL X", aliases: &[] },
        Codepoint { codepoint: 0x1D654, name: "MATHEMATICAL SANS-SERIF BOLD ITALIC CAPITAL Y", aliases: &[] },
    ];
    assert(v@ =~= codepoint_table_731());
    v
}

pub open spec fn codepoint_table_732() -> Seq<Codepoint> {
    seq![
        Codepoint { codepoint: 0x1D655, name: "MATHEMATICAL SANS-SERIF BOLD ITALIC CAPITAL Z", aliases: &[] },
        Codepoint { codepoint: 0x1D656, name: "MATHEMATICAL SANS-SERIF BOLD ITALIC SMALL A", aliases: &[] },
        Codepoint { codepoint: 0x1D657, name: "MATHEMATICAL SANS-SERIF BOLD ITALIC SMALL B", aliases: &[] },
        Codepoint { codepoint: 0x1D658, name: "MATHEMATICAL SANS-SERIF BOLD ITALIC SMALL C", aliases: &[] },
        Codepoint { codepoint: 0x1D659, name: "MATHEMATICAL SANS-SERIF BOLD ITALIC SMALL D", aliases: &[] },
        Codepoint { codepoint: 0x1D65A, name: "MATHEMATICAL SANS-SERIF BOLD ITALIC SMALL E", aliases: &[] },
        Codepoint { codepoint: 0x1D65B, name: "MATHEMATICAL SANS-SERIF BOLD ITALIC SMALL F", aliases: &[] },
        Codepoint { codepoint: 0x1D65C, name: "MATHEMATICAL SANS-SERIF BOLD ITALIC SMALL G", aliases: &[] },
        Codepoint { codepoint: 0x1D65D, name: "MATHEMATICAL SANS-SERIF BOLD ITALIC SMALL H", aliases: &[] },
        Codepoint { codepoint: 0x1D65E, name: "MATHEMATICAL SANS-SERIF BOLD ITALIC SMALL I", aliases: &[] },
        Codepoint { codepoint: 0x1D65F, name: "MATHEMATICAL SANS-SERIF BOLD ITALIC SMALL J", aliases: &[] },
        Codepoint { codepoint: 0x1D660, name: "MATHEMATICAL SANS-SERIF BOLD ITALIC SMALL K", aliases: &[] },
        Codepoint { codepoint: 0x1D661, name: "MATHEMATICAL SANS-SERIF BOLD ITALIC SMALL L", aliases: &[] },
        Codepoint { codepoint: 0x1D662, name: "MATHEMATICAL SANS-SERIF BOLD ITALIC SMALL M", aliases: &[] },
        Codepoint { codepoint: 0x1D663, name: "MATHEMATICAL SANS-SERIF BOLD ITALIC SMALL N", aliases: &[] },
        Codepoint { codepoint: 0x1D664, name: "MATHEMATICAL SANS-SERIF BOLD ITALIC SMALL O", aliases: &[] },
        Codepoint { codepoint: 0x1D665, name: "MATHEMATICAL SANS-SERIF BOLD ITALIC SMALL P", aliases: &[] },
        Codepoint { codepoint: 0x1D666, name: "MATHEMATICAL SANS-SERIF BOLD ITALIC SMALL Q", aliases: &[] },
        Codepoint { codepoint: 0x1D667, name: "MATHEMATICAL SANS-SERIF BOLD ITALIC SMALL R", aliases: &[] },
        Codepoint { codepoint: 0x1D668, name: "MATHEMATICAL SANS-SERIF BOLD ITALIC SMALL S", aliases: &[] },
        Codepoint { codepoint: 0x1D669, name: "MATHEMATICAL SANS-SERIF BOLD ITALIC SMALL T", aliases: &[] },
        Codepoint { codepoint: 0x1D66A, name: "MATHEMATICAL SANS-SERIF BOLD ITALIC SMALL U", aliases: &[] },
        Codepoint { codepoint: 0x1D66B, name: "MATHEMATICAL SANS-SERIF BOLD ITALIC SMALL V", aliases: &[] },
        Codepoint { codepoint: 0x1D66C, name: "MATHEMATICAL SANS-SERIF BOLD ITALIC SMALL W", aliases: &[] },
        Codepoint { codepoint: 0x1D66D, name: "MATHEMATICAL SANS-SERIF BOLD ITALIC SMALL X", aliases: &[] },
        Codepoint { codepoint: 0x1D66E, name: "MATHEMATICAL SANS-SERIF BOLD ITALIC SMALL Y", aliases: &[] },
        Codepoint { codepoint: 0x1D66F, name: "MATHEMATICAL SANS-SERIF BOLD ITALIC SMALL Z", aliases: &[] },
        Codepoint { codepoint: 0x1D670, name: "MATHEMATICAL MONOSPACE CAPITAL A", aliases: &[] },
        Codepoint { codepoint: 0x1D671, name: "MATHEMATICAL MONOSPACE CAPITAL B", aliases: &[] },
        Codepoint { codepoint: 0x1D672, name: "MATHEMATICAL MONOSPACE CAPITAL C", aliases: &[] },
        Codepoint { codepoint: 0x1D673, name: "MATHEMATICAL MONOSPACE CAPITAL D", aliases: &[] },
        Codepoint { codepoint: 0x1D674, name: "MATHEMATICAL MONOSPACE CAPITAL E", aliases: &[] },
        Codepoint { codepoint: 0x1D675, name: "MATHEMATICAL MONOSPACE CAPITAL F", aliases: &[] },
        Codepoint { codepoint: 0x1D676, name: "MATHEMATICAL MONOSPACE CAPITAL G", aliases: &[] },
        Codepoint { codepoint: 0x1D677, name: "MATHEMATICAL MONOSPACE CAPITAL H", aliases: &[] },
        Codepoint { codepoint: 0x1D678, name: "MATHEMATICAL MONOSPACE CAPITAL I", aliases: &[] },
        Codepoint { codepoint: 0x1D679, name: "MATHEMATICAL MONOSPACE CAPITAL J", aliases: &[] },
        Codepoint { codepoint: 0x1D67A, name: "MATHEMATICAL MONOSPACE CAPITAL K", aliases: &[] },
        Codepoint { codepoint: 0x1D67B, name: "MATHEMATICAL MONOSPACE CAPITAL L", aliases: &[] },
        Codepoint { codepoint: 0x1D67C, name: "MATHEMATICAL MONOSPACE CAPITAL M", aliases: &[] },
    ]
}

fn all_codepoints_732() -> (v: Vec<Codepoint>)
    ensures
        v@ == codepoint_table_732(),
{
    let v = vec![
        Codepoint { codepoint: 0x1D655, name: "MATHEMATICAL SANS-SERIF BOLD ITALIC CAPITAL Z", aliases: &[] },
        Codepoint { codepoint: 0x1D656, name: "MATHEMATICAL SANS-SERIF BOLD ITALIC SMALL A", aliases: &[] },
        Codepoint { codepoint: 0x1D657, name: "MATHEMATICAL SANS-SERIF BOLD ITALIC SMALL B", aliases: &[] },
        Codepoint { codepoint: 0x1D658, name: "MATHEMATICAL SANS-SERIF BOLD ITALIC SMALL C", aliases: &[] },
        Codepoint { codepoint: 0x1D659, name: "MATHEMATICAL SANS-SERIF BOLD ITALIC SMALL D", aliases: &[] },
        Codepoint { codepoint: 0x1D65A, name: "MATHEMATICAL SANS-SERIF BOLD ITALIC SMALL E", aliases: &[] },
        Codepoint { codepoint: 0x1D65B, name: "MATHEMATICAL SANS-SERIF BOLD ITALIC SMALL F", aliases: &[] },
        Codepoint { codepoint: 0x1D65C, name: "MATHEMATICAL SANS-SERIF BOLD ITALIC SMALL G", aliases: &[] },
        Codepoint { codepoint: 0x1D65D, name: "MATHEMATICAL SANS-SERIF BOLD ITALIC SMALL H", aliases: &[] },
        Codepoint { codepoint: 0x1D65E, name: "MATHEMATICAL SANS-SERIF BOLD ITALIC SMALL I", aliases: &[] },
        Codepoint { codepoint: 0x1D65F, name: "MATHEMATICAL SANS-SERIF BOLD ITALIC SMALL J", aliases: &[] },
        Codepoint { codepoint: 0x1D660, name: "MATHEMATICAL SANS-SERIF BOLD ITALIC SMALL K", aliases: &[] },
        Codepoint { codepoint: 0x1D661, name: "MATHEMATICAL SANS-SERIF BOLD ITALIC SMALL L", aliases: &[] },
        Codepoint { codepoint: 0x1D662, name: "MATHEMATICAL SANS-SERIF BOLD ITALIC SMALL M", aliases: &[] },
        Codepoint { codepoint: 0x1D663, name: "MATHEMATICAL SANS-SERIF BOLD ITALIC SMALL N", aliases: &[] },
        Codepoint { codepoint: 0x1D664, name: "MATHEMATICAL SANS-SERIF BOLD ITALIC SMALL O", aliases: &[] },
        Codepoint { codepoint: 0x1D665, name: "MATHEMATICAL SANS-SERIF BOLD ITALIC SMALL P", aliases: &[] },
        Codepoint { codepoint: 0x1D666, name: "MATHEMATICAL SANS-SERIF BOLD ITALIC SMALL Q", aliases: &[] },
        Codepoint { codepoint: 0x1D667, name: "MATHEMATICAL SANS-SERIF BOLD ITALIC SMALL R", aliases: &[] },
        Codepoint { codepoint: 0x1D668, name: "MATHEMATICAL SANS-SERIF BOLD ITALIC SMALL S", aliases: &[] },
        Codepoint { codepoint: 0x1D669, name: "MATHEMATICAL SANS-SERIF BOLD ITALIC SMALL T", aliases: &[] },
        Codepoint { codepoint: 0x1D66A, name: "MATHEMATICAL SANS-SERIF BOLD ITALIC SMALL U", aliases: &[] },
        Codepoint { codepoint: 0x1D66B, name: "MATHEMATICAL SANS-SERIF BOLD ITALIC SMALL V", aliases: &[] },
        Codepoint { codepoint: 0x1D66C, name: "MATHEMATICAL SANS-SERIF BOLD ITALIC SMALL W", aliases: &[] },
        Codepoint { codepoint: 0x1D66D, name: "MATHEMATICAL SANS-SERIF BOLD ITALIC SMALL X", aliases: &[] },
        Codepoint { codepoint: 0x1D66E, name: "MATHEMATICAL SANS-SERIF BOLD ITALIC SMALL Y", aliases: &[] },
        Codepoint { codepoint: 0x1D66F, name: "MATHEMATICAL SANS-SERIF BOLD ITALIC SMALL Z", aliases: &[] },
        Codepoint { codepoint: 0x1D670, name: "MATHEMATICAL MONOSPACE CAPITAL A", aliases: &[] },
        Codepoint { codepoint: 0x1D671, name: "MATHEMATICAL MONOSPACE CAPITAL B", aliases: &[] },
        Codepoint { codepoint: 0x1D672, name: "MATHEMATICAL MONOSPACE CAPITAL C", aliases: &[] },
        Codepoint { codepoint: 0x1D673, name: "MATHEMATICAL MONOSPACE CAPITAL D", aliases: &[] },
        Codepoint { codepoint: 0x1D674, name: "MATHEMATICAL MONOSPACE CAPITAL E", aliases: &[] },
        Codepoint { codepoint: 0x1D675, name: "MATHEMATICAL MONOSPACE CAPITAL F", aliases: &[] },
        Codepoint { codepoint: 0x1D676, name: "MATHEMATICAL MONOSPACE CAPITAL G", aliases: &[] },
        Codepoint { codepoint: 0x1D677, name: "MATHEMATICAL MONOSPACE CAPITAL H", aliases: &[] },
        Codepoint { codepoint: 0x1D678, name: "MATHEMATICAL MONOSPACE CAPITAL I", aliases: &[] },
        Codepoint { codepoint: 0x1D679, name: "MATHEMATICAL MONOSPACE CAPITAL J", aliases: &[] },
        Codepoint { codepoint: 0x1D67A, name: "MATHEMATICAL MONOSPACE CAPITAL K", aliases: &[] },
        Codepoint { codepoint: 0x1D67B, name: "MATHEMATICAL MONOSPACE CAPITAL L", aliases: &[] },
        Codepoint { codepoint: 0x1D67C, name: "MATHEMATICAL MONOSPACE CAPITAL M", aliases: &[] },
    ];
    assert(v@ =~= codepoint_table_732());
    v
}

pub open spec fn codepoint_table_733() -> Seq<Codepoint> {
    seq![
        Codepoint { codepoint: 0x1D67D, name: "MATHEMATICAL MONOSPACE CAPITAL N", aliases: &[] },
        Codepoint { codepoint: 0x1D67E, name: "MATHEMATICAL MONOSPACE CAPITAL O", aliases: &[] },
        Codepoint { codepoint: 0x1D67F, name: "MATHEMATICAL MONOSPACE CAPITAL P", aliases: &[] },
        Codepoint { codepoint: 0x1D680, name: "MATHEMATICAL MONOSPACE CAPITAL Q", aliases: &[] },
        Codepoint { codepoint: 0x1D681, name: "MATHEMATICAL MONOSPACE CAPITAL R", aliases: &[] },
        Codepoint { codepoint: 0x1D682, name: "MATHEMATICAL MONOSPACE CAPITAL S", aliases: &[] },
        Codepoint { codepoint: 0x1D683, name: "MATHEMATICAL MONOSPACE CAPITAL T", aliases: &[] },
        Codepoint { codepoint: 0x1D684, name: "MATHEMATICAL MONOSPACE CAPITAL U", aliases: &[] },
        Codepoint { codepoint: 0x1D685, name: "MATHEMATICAL MONOSPACE CAPITAL V", aliases: &[] },
        Codepoint { codepoint: 0x1D686, name: "MATHEMATICAL MONOSPACE CAPITAL W", aliases: &[] },
        Codepoint { codepoint: 0x1D687, name: "MATHEMATICAL MONOSPACE CAPITAL X", aliases: &[] },
        Codepoint { codepoint: 0x1D688, name: "MATHEMATICAL MONOSPACE CAPITAL Y", aliases: &[] },
        Codepoint { codepoint: 0x1D689, name: "MATHEMATICAL MONOSPACE CAPITAL Z", aliases: &[] },
        Codepoint { codepoint: 0x1D68A, name: "MATHEMATICAL MONOSPACE SMALL A", aliases: &[] },
        Codepoint { codepoint: 0x1D68B, name: "MATHEMATICAL MONOSPACE SMALL B", aliases: &[] },
        Codepoint { codepoint: 0x1D68C, name: "MATHEMATICAL MONOSPACE SMALL C", aliases: &[] },
        Codepoint { codepoint: 0x1D68D, name: "MATHEMATICAL MONOSPACE SMALL D", aliases: &[] },
        Codepoint { codepoint: 0x1D68E, name: "MATHEMATICAL MONOSPACE SMALL E", aliases: &[] },
        Codepoint { codepoint: 0x1D68F, name: "MATHEMATICAL MONOSPACE SMALL F", aliases: &[] },
        Codepoint { codepoint: 0x1D690, name: "MATHEMATICAL MONOSPACE SMALL G", aliases: &[] },
        Codepoint { codepoint: 0x1D691, name: "MATHEMATICAL MONOSPACE SMALL H", aliases: &[] },
        Codepoint { codepoint: 0x1D692, name: "MATHEMATICAL MONOSPACE SMALL I", aliases: &[] },
        Codepoint { codepoint: 0x1D693, name: "MATHEMATICAL MONOSPACE SMALL J", aliases: &[] },
        Codepoint { codepoint: 0x1D694, name: "MATHEMATICAL MONOSPACE SMALL K", aliases: &[] },
        Codepoint { codepoint: 0x1D695, name: "MATHEMATICAL MONOSPACE SMALL L", aliases: &[] },
        Codepoint { codepoint: 0x1D696, name: "MATHEMATICAL MONOSPACE SMALL M", aliases: &[] },
        Codepoint { codepoint: 0x1D697, name: "MATHEMATICAL MONOSPACE SMALL N", aliases: &[] },
        Codepoint { codepoint: 0x1D698, name: "MATHEMATICAL MONOSPACE SMALL O", aliases: &[] },
        Codepoint { codepoint: 0x1D699, name: "MATHEMATICAL MONOSPACE SMALL P", aliases: &[] },
        Codepoint { codepoint: 0x1D69A, name: "MATHEMATICAL MONOSPACE SMALL Q", aliases: &[] },
        Codepoint { codepoint: 0x1D69B, name: "MATHEMATICAL MONOSPACE SMALL R", aliases: &[] },
        Codepoint { codepoint: 0x1D69C, name: "MATHEMATICAL MONOSPACE SMALL S", aliases: &[] },
        Codepoint { codepoint: 0x1D69D, name: "MATHEMATICAL MONOSPACE SMALL T", aliases: &[] },
        Codepoint { codepoint: 0x1D69E, name: "MATHEMATICAL MONOSPACE SMALL U", aliases: &[] },
        Codepoint { codepoint: 0x1D69F, name: "MATHEMATICAL MONOSPACE SMALL V", aliases: &[] },
        Codepoint { codepoint: 0x1D6A0, name: "MATHEMATICAL MONOSPACE SMALL W", aliases: &[] },
        Codepoint { codepoint: 0x1D6A1, name: "MATHEMATICAL MONOSPACE SMALL X", aliases: &[] },
        Codepoint { codepoint: 0x1D6A2, name: "MATHEMATICAL MONOSPACE SMALL Y", aliases: &[] },
        Codepoint { codepoint: 0x1D6A3, name: "MATHEMATICAL MONOSPACE SMALL Z", aliases: &[] },
        Codepoint { codepoint: 0x1D6A4, name: "MATHEMATICAL ITALIC SMALL DOTLESS I", aliases: &[] },
    ]
}

fn all_codepoints_733() -> (v: Vec<Codepoint>)
    ensures
        v@ == codepoint_table_733(),
{
    let v = vec![
        Codepoint { codepoint: 0x1D67D, name: "MATHEMATICAL MONOSPACE CAPITAL N", aliases: &[] },
        Codepoint { codepoint: 0x1D67E, name: "MATHEMATICAL MONOSPACE CAPITAL O", aliases: &[] },
        Codepoint { codepoint: 0x1D67F, name: "MATHEMATICAL MONOSPACE CAPITAL P", aliases: &[] },
        Codepoint { codepoint: 0x1D680, name: "MATHEMATICAL MONOSPACE CAPITAL Q", aliases: &[] },
        Codepoint { codepoint: 0x1D681, name: "MATHEMATICAL MONOSPACE CAPITAL R", aliases: &[] },
        Codepoint { codepoint: 0x1D682, name: "MATHEMATICAL MONOSPACE CAPITAL S", aliases: &[] },
        Codepoint { codepoint: 0x1D683, name: "MATHEMATICAL MONOSPACE CAPITAL T", aliases: &[] },
        Codepoint { codepoint: 0x1D684, name: "MATHEMATICAL MONOSPACE CAPITAL U", aliases: &[] },
        Codepoint { codepoint: 0x1D685, name: "MATHEMATICAL MONOSPACE CAPITAL V", aliases: &[] },
        Codepoint { codepoint: 0x1D686, name: "MATHEMATICAL MONOSPACE CAPITAL W", aliases: &[] },
        Codepoint { codepoint: 0x1D687, name: "MATHEMATICAL MONOSPACE CAPITAL X", aliases: &[] },
        Codepoint { codepoint: 0x1D688, name: "MATHEMATICAL MONOSPACE CAPITAL Y", aliases: &[] },
        Codepoint { codepoint: 0x1D689, name: "MATHEMATICAL MONOSPACE CAPITAL Z", aliases: &[] },
        Codepoint { codepoint: 0x1D68A, name: "MATHEMATICAL MONOSPACE SMALL A", aliases: &[] },
        Codepoint { codepoint: 0x1D68B, name: "MATHEMATICAL MONOSPACE SMALL B", aliases: &[] },
        Codepoint { codepoint: 0x1D68C, name: "MATHEMATICAL MONOSPACE SMALL C", aliases: &[] },
        Codepoint { codepoint: 0x1D68D, name: "MATHEMATICAL MONOSPACE SMALL D", aliases: &[] },
        Codepoint { codepoint: 0x1D68E, name: "MATHEMATICAL MONOSPACE SMALL E", aliases: &[] },
        Codepoint { codepoint: 0x1D68F, name: "MATHEMATICAL MONOSPACE SMALL F", aliases: &[] },
        Codepoint { codepoint: 0x1D690, name: "MATHEMATICAL MONOSPACE SMALL G", aliases: &[] },
        Codepoint { codepoint: 0x1D691, name: "MATHEMATICAL MONOSPACE SMALL H", aliases: &[] },
        Codepoint { codepoint: 0x1D692, name: "MATHEMATICAL MONOSPACE SMALL I", aliases: &[] },
        Codepoint { codepoint: 0x1D693, name: "MATHEMATICAL MONOSPACE SMALL J", aliases: &[] },
        Codepoint { codepoint: 0x1D694, name: "MATHEMATICAL MONOSPACE SMALL K", aliases: &[] },
        Codepoint { codepoint: 0x1D695, name: "MATHEMATICAL MONOSPACE SMALL L", aliases: &[] },
        Codepoint { codepoint: 0x1D696, name: "MATHEMATICAL MONOSPACE SMALL M", aliases: &[] },
        Codepoint { codepoint: 0x1D697, name: "MATHEMATICAL MONOSPACE SMALL N", aliases: &[] },
        Codepoint { codepoint: 0x1D698, name: "MATHEMATICAL MONOSPACE SMALL O", aliases: &[] },
        Codepoint { codepoint: 0x1D699, name: "MATHEMATICAL MONOSPACE SMALL P", aliases: &[] },
        Codepoint { codepoint: 0x1D69A, name: "MATHEMATICAL MONOSPACE SMALL Q", aliases: &[] },
        Codepoint { codepoint: 0x1D69B, name: "MATHEMATICAL MONOSPACE SMALL R", aliases: &[] },
        Codepoint { codepoint: 0x1D69C, name: "MATHEMATICAL MONOSPACE SMALL S", aliases: &[] },
        Codepoint { codepoint: 0x1D69D, name: "MATHEMATICAL MONOSPACE SMALL T", aliases: &[] },
        Codepoint { codepoint: 0x1D69E, name: "MATHEMATICAL MONOSPACE SMALL U", aliases: &[] },
        Codepoint { codepoint: 0x1D69F, name: "MATHEMATICAL MONOSPACE SMALL V", aliases: &[] },
        Codepoint { codepoint: 0x1D6A0, name: "MATHEMATICAL MONOSPACE SMALL W", aliases: &[] },
        Codepoint { codepoint: 0x1D6A1, name: "MATHEMATICAL MONOSPACE SMALL X", aliases: &[] },
        Codepoint { codepoint: 0x1D6A2, name: "MATHEMATICAL MONOSPACE SMALL Y", aliases: &[] },
        Codepoint { codepoint: 0x1D6A3, name: "MATHEMATICAL MONOSPACE SMALL Z", aliases: &[] },
        Codepoint { codepoint: 0x1D6A4, name: "MATHEMATICAL ITALIC SMALL DOTLESS I", aliases: &[] },
    ];
    assert(v@ =~= codepoint_table_733());
    v
}

pub open spec fn codepoint_table_734() -> Seq<Codepoint> {
    seq![
        Codepoint { codepoint: 0x1D6A5, name: "MATHEMATICAL ITALIC SMALL DOTLESS J", aliases: &[] },
        Codepoint { codepoint: 0x1D6A8, name: "MATHEMATICAL BOLD CAPITAL ALPHA", aliases: &[] },
        Codepoint { codepoint: 0x1D6A9, name: "MATHEMATICAL BOLD CAPITAL BETA", aliases: &[] },
        Codepoint { codepoint: 0x1D6AA, name: "MATHEMATICAL BOLD CAPITAL GAMMA", aliases: &[] },
        Codepoint { codepoint: 0x1D6AB, name: "MATHEMATICAL BOLD CAPITAL DELTA", aliases: &[] },
        Codepoint { codepoint: 0x1D6AC, name: "MATHEMATICAL BOLD CAPITAL EPSILON", aliases: &[] },
        Codepoint { codepoint: 0x1D6AD, name: "MATHEMATICAL BOLD CAPITAL ZETA", aliases: &[] },
        Codepoint { codepoint: 0x1D6AE, name: "MATHEMATICAL BOLD CAPITAL ETA", aliases: &[] },
        Codepoint { codepoint: 0x1D6AF, name: "MATHEMATICAL BOLD CAPITAL THETA", aliases: &[] },
        Codepoint { codepoint: 0x1D6B0, name: "MATHEMATICAL BOLD CAPITAL IOTA", aliases: &[] },
        Codepoint { codepoint: 0x1D6B1, name: "MATHEMATICAL BOLD CAPITAL KAPPA", aliases: &[] },
        Codepoint { codepoint: 0x1D6B2, name: "MATHEMATICAL BOLD CAPITAL LAMDA", aliases: &[] },
        Codepoint { codepoint: 0x1D6B3, name: "MATHEMATICAL BOLD CAPITAL MU", aliases: &[] },
        Codepoint { codepoint: 0x1D6B4, name: "MATHEMATICAL BOLD CAPITAL NU", aliases: &[] },
        Codepoint { codepoint: 0x1D6B5, name: "MATHEMATICAL BOLD CAPITAL XI", aliases: &[] },
        Codepoint { codepoint: 0x1D6B6, name: "MATHEMATICAL BOLD CAPITAL OMICRON", aliases: &[] },
        Codepoint { codepoint: 0x1D6B7, name: "MATHEMATICAL BOLD CAPITAL PI", aliases: &[] },
        Codepoint { codepoint: 0x1D6B8, name: "MATHEMATICAL BOLD CAPITAL RHO", aliases: &[] },
        Codepoint { codepoint: 0x1D6B9, name: "MATHEMATICAL BOLD CAPITAL THETA SYMBOL", aliases: &[] },
        Codepoint { codepoint: 0x1D6BA, name: "MATHEMATICAL BOLD CAPITAL SIGMA", aliases: &[] },
        Codepoint { codepoint: 0x1D6BB, name: "MATHEMATICAL BOLD CAPITAL TAU", aliases: &[] },
        Codepoint { codepoint: 0x1D6BC, name: "MATHEMATICAL BOLD CAPITAL UPSILON", aliases: &[] },
        Codepoint { codepoint: 0x1D6BD, name: "MATHEMATICAL BOLD CAPITAL PHI", aliases: &[] },
        Codepoint { codepoint: 0x1D6BE, name: "MATHEMATICAL BOLD CAPITAL CHI", aliases: &[] },
        Codepoint { codepoint: 0x1D6BF, name: "MATHEMATICAL BOLD CAPITAL PSI", aliases: &[] },
        Codepoint { codepoint: 0x1D6C0, name: "MATHEMATICAL BOLD CAPITAL OMEGA", aliases: &[] },
        Codepoint { codepoint: 0x1D6C1, name: "MATHEMATICAL BOLD NABLA", aliases: &[] },
        Codepoint { codepoint: 0x1D6C2, name: "MATHEMATICAL BOLD SMALL ALPHA", aliases: &[] },
        Codepoint { codepoint: 0x1D6C3, name: "MATHEMATICAL BOLD SMALL BETA", aliases: &[] },
        Codepoint { codepoint: 0x1D6C4, name: "MATHEMATICAL BOLD SMALL GAMMA", aliases: &[] },
        Codepoint { codepoint: 0x1D6C5, name: "MATHEMATICAL BOLD SMALL DELTA", aliases: &[] },
        Codepoint { codepoint: 0x1D6C6, name: "MATHEMATICAL BOLD SMALL EPSILON", aliases: &[] },
        Codepoint { codepoint: 0x1D6C7, name: "MATHEMATICAL BOLD SMALL ZETA", aliases: &[] },
        Codepoint { codepoint: 0x1D6C8, name: "MATHEMATICAL BOLD SMALL ETA", aliases: &[] },
        Codepoint { codepoint: 0x1D6C9, name: "MATHEMATICAL BOLD SMALL THETA", aliases: &[] },
        Codepoint { codepoint: 0x1D6CA, name: "MATHEMATICAL BOLD SMALL IOTA", aliases: &[] },
        Codepoint { codepoint: 0x1D6CB, name: "MATHEMATICAL BOLD SMALL KAPPA", aliases: &[] },
        Codepoint { codepoint: 0x1D6CC, name: "MATHEMATICAL BOLD SMALL LAMDA", aliases: &[] },
        Codepoint { codepoint: 0x1D6CD, name: "MATHEMATICAL BOLD SMALL MU", aliases: &[] },
        Codepoint { codepoint: 0x1D6CE, name: "MATHEMATICAL BOLD SMALL NU", aliases: &[] },
    ]
}

fn all_codepoints_734() -> (v: Vec<Codepoint>)
    ensures
        v@ == codepoint_table_734(),
{
    let v = vec![
        Codepoint { codepoint: 0x1D6A5, name: "MATHEMATICAL ITALIC SMALL DOTLESS J", aliases: &[] },
        Codepoint { codepoint: 0x1D6A8, name: "MATHEMATICAL BOLD CAPITAL ALPHA", aliases: &[] },
        Codepoint { codepoint: 0x1D6A9, name: "MATHEMATICAL BOLD CAPITAL BETA", aliases: &[] },
        Codepoint { codepoint: 0x1D6AA, name: "MATHEMATICAL BOLD CAPITAL GAMMA", aliases: &[] },
        Codepoint { codepoint: 0x1D6AB, name: "MATHEMATICAL BOLD CAPITAL DELTA", aliases: &[] },
        Codepoint { codepoint: 0x1D6AC, name: "MATHEMATICAL BOLD CAPITAL EPSILON", aliases: &[] },
        Codepoint { codepoint: 0x1D6AD, name: "MATHEMATICAL BOLD CAPITAL ZETA", aliases: &[] },
        Codepoint { codepoint: 0x1D6AE, name: "MATHEMATICAL BOLD CAPITAL ETA", aliases: &[] },
        Codepoint { codepoint: 0x1D6AF, name: "MATHEMATICAL BOLD CAPITAL THETA", aliases: &[] },
        Codepoint { codepoint: 0x1D6B0, name: "MATHEMATICAL BOLD CAPITAL IOTA", aliases: &[] },
        Codepoint { codepoint: 0x1D6B1, name: "MATHEMATICAL BOLD CAPITAL KAPPA", aliases: &[] },
        Codepoint { codepoint: 0x1D6B2, name: "MATHEMATICAL BOLD CAPITAL LAMDA", aliases: &[] },
        Codepoint { codepoint: 0x1D6B3, name: "MATHEMATICAL BOLD CAPITAL MU", aliases: &[] },
        Codepoint { codepoint: 0x1D6B4, name: "MATHEMATICAL BOLD CAPITAL NU", aliases: &[] },
        Codepoint { codepoint: 0x1D6B5, name: "MATHEMATICAL BOLD CAPITAL XI", aliases: &[] },
        Codepoint { codepoint: 0x1D6B6, name: "MATHEMATICAL BOLD CAPITAL OMICRON", aliases: &[] },
        Codepoint { codepoint: 0x1D6B7, name: "MATHEMATICAL BOLD CAPITAL PI", aliases: &[] },
        Codepoint { codepoint: 0x1D6B8, name: "MATHEMATICAL BOLD CAPITAL RHO", aliases: &[] },
        Codepoint { codepoint: 0x1D6B9, name: "MATHEMATICAL BOLD CAPITAL THETA SYMBOL", aliases: &[] },
        Codepoint { codepoint: 0x1D6BA, name: "MATHEMATICAL BOLD CAPITAL SIGMA", aliases: &[] },
        Codepoint { codepoint: 0x1D6BB, name: "MATHEMATICAL BOLD CAPITAL TAU", aliases: &[] },
        Codepoint { codepoint: 0x1D6BC, name: "MATHEMATICAL BOLD CAPITAL UPSILON", aliases: &[] },
        Codepoint { codepoint: 0x1D6BD, name: "MATHEMATICAL BOLD CAPITAL PHI", aliases: &[] },
        Codepoint { codepoint: 0x1D6BE, name: "MATHEMATICAL BOLD CAPITAL CHI", aliases: &[] },
        Codepoint { codepoint: 0x1D6BF, name: "MATHEMATICAL BOLD CAPITAL PSI", aliases: &[] },
        Codepoint { codepoint: 0x1D6C0, name: "MATHEMATICAL BOLD CAPITAL OMEGA", aliases: &[] },
        Codepoint { codepoint: 0x1D6C1, name: "MATHEMATICAL BOLD NABLA", aliases: &[] },
        Codepoint { codepoint: 0x1D6C2, name: "MATHEMATICAL BOLD SMALL ALPHA", aliases: &[] },
        Codepoint { codepoint: 0x1D6C3, name: "MATHEMATICAL BOLD SMALL BETA", aliases: &[] },
        Codepoint { codepoint: 0x1D6C4, name: "MATHEMATICAL BOLD SMALL GAMMA", aliases: &[] },
        Codepoint { codepoint: 0x1D6C5, name: "MATHEMATICAL BOLD SMALL DELTA", aliases: &[] },
        Codepoint { codepoint: 0x1D6C6, name: "MATHEMATICAL BOLD SMALL EPSILON", aliases: &[] },
        Codepoint { codepoint: 0x1D6C7, name: "MATHEMATICAL BOLD SMALL ZETA", aliases: &[] },
        Codepoint { codepoint: 0x1D6C8, name: "MATHEMATICAL BOLD SMALL ETA", aliases: &[] },
        Codepoint { codepoint: 0x1D6C9, name: "MATHEMATICAL BOLD SMALL THETA", aliases: &[] },
        Codepoint { codepoint: 0x1D6CA, name: "MATHEMATICAL BOLD SMALL IOTA", aliases: &[] },
        Codepoint { codepoint: 0x1D6CB, name: "MATHEMATICAL BOLD SMALL KAPPA", aliases: &[] },
        Codepoint { codepoint: 0x1D6CC, name: "MATHEMATICAL BOLD SMALL LAMDA", aliases: &[] },
        Codepoint { codepoint: 0x1D6CD, name: "MATHEMATICAL BOLD SMALL MU", aliases: &[] },
        Codepoint { codepoint: 0x1D6CE, name: "MATHEMATICAL BOLD SMALL NU", aliases: &[] },
    ];
    assert(v@ =~= codepoint_table_734());
    v
}

pub open spec fn codepoint_table_735() -> Seq<Codepoint> {
    seq![
        Codepoint { codepoint: 0x1D6CF, name: "MATHEMATICAL BOLD SMALL XI", aliases: &[] },
        Codepoint { codepoint: 0x1D6D0, name: "MATHEMATICAL BOLD SMALL OMICRON", aliases: &[] },
        Codepoint { codepoint: 0x1D6D1, name: "MATHEMATICAL BOLD SMALL PI", aliases: &[] },
        Codepoint { codepoint: 0x1D6D2, name: "MATHEMATICAL BOLD SMALL RHO", aliases: &[] },
        Codepoint { codepoint: 0x1D6D3, name: "MATHEMATICAL BOLD SMALL FINAL SIGMA", aliases: &[] },
        Codepoint { codepoint: 0x1D6D4, name: "MATHEMATICAL BOLD SMALL SIGMA", aliases: &[] },
        Codepoint { codepoint: 0x1D6D5, name: "MATHEMATICAL BOLD SMALL TAU", aliases: &[] },
        Codepoint { codepoint: 0x1D6D6, name: "MATHEMATICAL BOLD SMALL UPSILON", aliases: &[] },
        Codepoint { codepoint: 0x1D6D7, name: "MATHEMATICAL BOLD SMALL PHI", aliases: &[] },
        Codepoint { codepoint: 0x1D6D8, name: "MATHEMATICAL BOLD SMALL CHI", aliases: &[] },
        Codepoint { codepoint: 0x1D6D9, name: "MATHEMATICAL BOLD SMALL PSI", aliases: &[] },
        Codepoint { codepoint: 0x1D6DA, name: "MATHEMATICAL BOLD SMALL OMEGA", aliases: &[] },
        Codepoint { codepoint: 0x1D6DB, name: "MATHEMATICAL BOLD PARTIAL DIFFERENTIAL", aliases: &[] },
        Codepoint { codepoint: 0x1D6DC, name: "MATHEMATICAL BOLD EPSILON SYMBOL", aliases: &[] },
        Codepoint { codepoint: 0x1D6DD, name: "MATHEMATICAL BOLD THETA SYMBOL", aliases: &[] },
        Codepoint { codepoint: 0x1D6DE, name: "MATHEMATICAL BOLD KAPPA SYMBOL", aliases: &[] },
        Codepoint { codepoint: 0x1D6DF, name: "MATHEMATICAL BOLD PHI SYMBOL", aliases: &[] },
        Codepoint { codepoint: 0x1D6E0, name: "MATHEMATICAL BOLD RHO SYMBOL", aliases: &[] },
        Codepoint { codepoint: 0x1D6E1, name: "MATHEMATICAL BOLD PI SYMBOL", aliases: &[] },
        Codepoint { codepoint: 0x1D6E2, name: "MATHEMATICAL ITALIC CAPITAL ALPHA", aliases: &[] },
        Codepoint { codepoint: 0x1D6E3, name: "MATHEMATICAL ITALIC CAPITAL BETA", aliases: &[] },
        Codepoint { codepoint: 0x1D6E4, name: "MATHEMATICAL ITALIC CAPITAL GAMMA", aliases: &[] },
        Codepoint { codepoint: 0x1D6E5, name: "MATHEMATICAL ITALIC CAPITAL DELTA", aliases: &[] },
        Codepoint { codepoint: 0x1D6E6, name: "MATHEMATICAL ITALIC CAPITAL EPSILON", aliases: &[] },
        Codepoint { codepoint: 0x1D6E7, name: "MATHEMATICAL ITALIC CAPITAL ZETA", aliases: &[] },
        Codepoint { codepoint: 0x1D6E8, name: "MATHEMATICAL ITALIC CAPITAL ETA", aliases: &[] },
        Codepoint { codepoint: 0x1D6E9, name: "MATHEMATICAL ITALIC CAPITAL THETA", aliases: &[] },
        Codepoint { codepoint: 0x1D6EA, name: "MATHEMATICAL ITALIC CAPITAL IOTA", aliases: &[] },
        Codepoint { codepoint: 0x1D6EB, name: "MATHEMATICAL ITALIC CAPITAL KAPPA", aliases: &[] },
        Codepoint { codepoint: 0x1D6EC, name: "MATHEMATICAL ITALIC CAPITAL LAMDA", aliases: &[] },
        Codepoint { codepoint: 0x1D6ED, name: "MATHEMATICAL ITALIC CAPITAL MU", aliases: &[] },
        Codepoint { codepoint: 0x1D6EE, name: "MATHEMATICAL ITALIC CAPITAL NU", aliases: &[] },
        Codepoint { codepoint: 0x1D6EF, name: "MATHEMATICAL ITALIC CAPITAL XI", aliases: &[] },
        Codepoint { codepoint: 0x1D6F0, name: "MATHEMATICAL ITALIC CAPITAL OMICRON", aliases: &[] },
        Codepoint { codepoint: 0x1D6F1, name: "MATHEMATICAL ITALIC CAPITAL PI", aliases: &[] },
        Codepoint { codepoint: 0x1D6F2, name: "MATHEMATICAL ITALIC CAPITAL RHO", aliases: &[] },
        Codepoint { codepoint: 0x1D6F3, name: "MATHEMATICAL ITALIC CAPITAL THETA SYMBOL", aliases: &[] },
        Codepoint { codepoint: 0x1D6F4, name: "MATHEMATICAL ITALIC CAPITAL SIGMA", aliases: &[] },
        Codepoint { codepoint: 0x1D6F5, name: "MATHEMATICAL ITALIC CAPITAL TAU", aliases: &[] },
        Codepoint { codepoint: 0x1D6F6, name: "MATHEMATICAL ITALIC CAPITAL UPSILON", aliases: &[] },
    ]
}

fn all_codepoints_735() -> (v: Vec<Codepoint>)
    ensures
        v@ == codepoint_table_735(),
{
    let v = vec![
        Codepoint { codepoint: 0x1D6CF, name: "MATHEMATICAL BOLD SMALL XI", aliases: &[] },
        Codepoint { codepoint: 0x1D6D0, name: "MATHEMATICAL BOLD SMALL OMICRON", aliases: &[] },
        Codepoint { codepoint: 0x1D6D1, name: "MATHEMATICAL BOLD SMALL PI", aliases: &[] },
        Codepoint { codepoint: 0x1D6D2, name: "MATHEMATICAL BOLD SMALL RHO", aliases: &[] },
        Codepoint { codepoint: 0x1D6D3, name: "MATHEMATICAL BOLD SMALL FINAL SIGMA", aliases: &[] },
        Codepoint { codepoint: 0x1D6D4, name: "MATHEMATICAL BOLD SMALL SIGMA", aliases: &[] },
        Codepoint { codepoint: 0x1D6D5, name: "MATHEMATICAL BOLD SMALL TAU", aliases: &[] },
        Codepoint { codepoint: 0x1D6D6, name: "MATHEMATICAL BOLD SMALL UPSILON", aliases: &[] },
        Codepoint { codepoint: 0x1D6D7, name: "MATHEMATICAL BOLD SMALL PHI", aliases: &[] },
        Codepoint { codepoint: 0x1D6D8, name: "MATHEMATICAL BOLD SMALL CHI", aliases: &[] },
        Codepoint { codepoint: 0x1D6D9, name: "MATHEMATICAL BOLD SMALL PSI", aliases: &[] },
        Codepoint { codepoint: 0x1D6DA, name: "MATHEMATICAL BOLD SMALL OMEGA", aliases: &[] },
        Codepoint { codepoint: 0x1D6DB, name: "MATHEMATICAL BOLD PARTIAL DIFFERENTIAL", aliases: &[] },
        Codepoint { codepoint: 0x1D6DC, name: "MATHEMATICAL BOLD EPSILON SYMBOL", aliases: &[] },
        Codepoint { codepoint: 0x1D6DD, name: "MATHEMATICAL BOLD THETA SYMBOL", aliases: &[] },
        Codepoint { codepoint: 0x1D6DE, name: "MATHEMATICAL BOLD KAPPA SYMBOL", aliases: &[] },
        Codepoint { codepoint: 0x1D6DF, name: "MATHEMATICAL BOLD PHI SYMBOL", aliases: &[] },
        Codepoint { codepoint: 0x1D6E0, name: "MATHEMATICAL BOLD RHO SYMBOL", aliases: &[] },
        Codepoint { codepoint: 0x1D6E1, name: "MATHEMATICAL BOLD PI SYMBOL", aliases: &[] },
        Codepoint { codepoint: 0x1D6E2, name: "MATHEMATICAL ITALIC CAPITAL ALPHA", aliases: &[] },
        Codepoint { codepoint: 0x1D6E3, name: "MATHEMATICAL ITALIC CAPITAL BETA", aliases: &[] },
        Codepoint { codepoint: 0x1D6E4, name: "MATHEMATICAL ITALIC CAPITAL GAMMA", aliases: &[] },
        Codepoint { codepoint: 0x1D6E5, name: "MATHEMATICAL ITALIC CAPITAL DELTA", aliases: &[] },
        Codepoint { codepoint: 0x1D6E6, name: "MATHEMATICAL ITALIC CAPITAL EPSILON", aliases: &[] },
        Codepoint { codepoint: 0x1D6E7, name: "MATHEMATICAL ITALIC CAPITAL ZETA", aliases: &[] },
        Codepoint { codepoint: 0x1D6E8, name: "MATHEMATICAL ITALIC CAPITAL ETA", aliases: &[] },
        Codepoint { codepoint: 0x1D6E9, name: "MATHEMATICAL ITALIC CAPITAL THETA", aliases: &[] },
        Codepoint { codepoint: 0x1D6EA, name: "MATHEMATICAL ITALIC CAPITAL IOTA", aliases: &[] },
        Codepoint { codepoint: 0x1D6EB, name: "MATHEMATICAL ITALIC CAPITAL KAPPA", aliases: &[] },
        Codepoint { codepoint: 0x1D6EC, name: "MATHEMATICAL ITALIC CAPITAL LAMDA", aliases: &[] },
        Codepoint { codepoint: 0x1D6ED, name: "MATHEMATICAL ITALIC CAPITAL MU", aliases: &[] },
        Codepoint { codepoint: 0x1D6EE, name: "MATHEMATICAL ITALIC CAPITAL NU", aliases: &[] },
        Codepoint { codepoint: 0x1D6EF, name: "MATHEMATICAL ITALIC CAPITAL XI", aliases: &[] },
        Codepoint { codepoint: 0x1D6F0, name: "MATHEMATICAL ITALIC CAPITAL OMICRON", aliases: &[] },
        Codepoint { codepoint: 0x1D6F1, name: "MATHEMATICAL ITALIC CAPITAL PI", aliases: &[] },
        Codepoint { codepoint: 0x1D6F2, name: "MATHEMATICAL ITALIC CAPITAL RHO", aliases: &[] },
        Codepoint { codepoint: 0x1D6F3, name: "MATHEMATICAL ITALIC CAPITAL THETA SYMBOL", aliases: &[] },
        Codepoint { codepoint: 0x1D6F4, name: "MATHEMATICAL ITALIC CAPITAL SIGMA", aliases: &[] },
        Codepoint { codepoint: 0x1D6F5, name: "MATHEMATICAL ITALIC CAPITAL TAU", aliases: &[] },
        Codepoint { codepoint: 0x1D6F6, name: "MATHEMATICAL ITALIC CAPITAL UPSILON", aliases: &[] },
    ];
    assert(v@ =~= codepoint_table_735());
    v
}

pub open spec fn codepoint_table_736() -> Seq<Codepoint> {
    seq![
        Codepoint { codepoint: 0x1D6F7, name: "MATHEMATICAL ITALIC CAPITAL PHI", aliases: &[] },
        Codepoint { codepoint: 0x1D6F8, name: "MATHEMATICAL ITALIC CAPITAL CHI", aliases: &[] },
        Codepoint { codepoint: 0x1D6F9, name: "MATHEMATICAL ITALIC CAPITAL PSI", aliases: &[] },
        Codepoint { codepoint: 0x1D6FA, name: "MATHEMATICAL ITALIC CAPITAL OMEGA", aliases: &[] },
        Codepoint { codepoint: 0x1D6FB, name: "MATHEMATICAL ITALIC NABLA", aliases: &[] },
        Codepoint { codepoint: 0x1D6FC, name: "MATHEMATICAL ITALIC SMALL ALPHA", aliases: &[] },
        Codepoint { codepoint: 0x1D6FD, name: "MATHEMATICAL ITALIC SMALL BETA", aliases: &[] },
        Codepoint { codepoint: 0x1D6FE, name: "MATHEMATICAL ITALIC SMALL GAMMA", aliases: &[] },
        Codepoint { codepoint: 0x1D6FF, name: "MATHEMATICAL ITALIC SMALL DELTA", aliases: &[] },
        Codepoint { codepoint: 0x1D700, name: "MATHEMATICAL ITALIC SMALL EPSILON", aliases: &[] },
        Codepoint { codepoint: 0x1D701, name: "MATHEMATICAL ITALIC SMALL ZETA", aliases: &[] },
        Codepoint { codepoint: 0x1D702, name: "MATHEMATICAL ITALIC SMALL ETA", aliases: &[] },
        Codepoint { codepoint: 0x1D703, name: "MATHEMATICAL ITALIC SMALL THETA", aliases: &[] },
        Codepoint { codepoint: 0x1D704, name: "MATHEMATICAL ITALIC SMALL IOTA", aliases: &[] },
        Codepoint { codepoint: 0x1D705, name: "MATHEMATICAL ITALIC SMALL KAPPA", aliases: &[] },
        Codepoint { codepoint: 0x1D706, name: "MATHEMATICAL ITALIC SMALL LAMDA", aliases: &[] },
        Codepoint { codepoint: 0x1D707, name: "MATHEMATICAL ITALIC SMALL MU", aliases: &[] },
        Codepoint { codepoint: 0x1D708, name: "MATHEMATICAL ITALIC SMALL NU", aliases: &[] },
        Codepoint { codepoint: 0x1D709, name: "MATHEMATICAL ITALIC SMALL XI", aliases: &[] },
        Codepoint { codepoint: 0x1D70A, name: "MATHEMATICAL ITALIC SMALL OMICRON", aliases: &[] },
        Codepoint { codepoint: 0x1D70B, name: "MATHEMATICAL ITALIC SMALL PI", aliases: &[] },
        Codepoint { codepoint: 0x1D70C, name: "MATHEMATICAL ITALIC SMALL RHO", aliases: &[] },
        Codepoint { codepoint: 0x1D70D, name: "MATHEMATICAL ITALIC SMALL FINAL SIGMA", aliases: &[] },
        Codepoint { codepoint: 0x1D70E, name: "MATHEMATICAL ITALIC SMALL SIGMA", aliases: &[] },
        Codepoint { codepoint: 0x1D70F, name: "MATHEMATICAL ITALIC SMALL TAU", aliases: &[] },
        Codepoint { codepoint: 0x1D710, name: "MATHEMATICAL ITALIC SMALL UPSILON", aliases: &[] },
        Codepoint { codepoint: 0x1D711, name: "MATHEMATICAL ITALIC SMALL PHI", aliases: &[] },
        Codepoint { codepoint: 0x1D712, name: "MATHEMATICAL ITALIC SMALL CHI", aliases: &[] },
        Codepoint { codepoint: 0x1D713, name: "MATHEMATICAL ITALIC SMALL PSI", aliases: &[] },
        Codepoint { codepoint: 0x1D714, name: "MATHEMATICAL ITALIC SMALL OMEGA", aliases: &[] },
        Codepoint { codepoint: 0x1D715, name: "MATHEMATICAL ITALIC PARTIAL DIFFERENTIAL", aliases: &[] },
        Codepoint { codepoint: 0x1D716, name: "MATHEMATICAL ITALIC EPSILON SYMBOL", aliases: &[] },
        Codepoint { codepoint: 0x1D717, name: "MATHEMATICAL ITALIC THETA SYMBOL", aliases: &[] },
        Codepoint { codepoint: 0x1D718, name: "MATHEMATICAL ITALIC KAPPA SYMBOL", aliases: &[] },
        Codepoint { codepoint: 0x1D719, name: "MATHEMATICAL ITALIC PHI SYMBOL", aliases: &[] },
        Codepoint { codepoint: 0x1D71A, name: "MATHEMATICAL ITALIC RHO SYMBOL", aliases: &[] },
        Codepoint { codepoint: 0x1D71B, name: "MATHEMATICAL ITALIC PI SYMBOL", aliases: &[] },
        Codepoint { codepoint: 0x1D71C, name: "MATHEMATICAL BOLD ITALIC CAPITAL ALPHA", aliases: &[] },
        Codepoint { codepoint: 0x1D71D, name: "MATHEMATICAL BOLD ITALIC CAPITAL BETA", aliases: &[] },
        Codepoint { codepoint: 0x1D71E, name: "MATHEMATICAL BOLD ITALIC CAPITAL GAMMA", aliases: &[] },
    ]
}

fn all_codepoints_736() -> (v: Vec<Codepoint>)
    ensures
        v@ == codepoint_table_736(),
{
    let v = vec![
        Codepoint { codepoint: 0x1D6F7, name: "MATHEMATICAL ITALIC CAPITAL PHI", aliases: &[] },
        Codepoint { codepoint: 0x1D6F8, name: "MATHEMATICAL ITALIC CAPITAL CHI", aliases: &[] },
        Codepoint { codepoint: 0x1D6F9, name: "MATHEMATICAL ITALIC CAPITAL PSI", aliases: &[] },
        Codepoint { codepoint: 0x1D6FA, name: "MATHEMATICAL ITALIC CAPITAL OMEGA", aliases: &[] },
        Codepoint { codepoint: 0x1D6FB, name: "MATHEMATICAL ITALIC NABLA", aliases: &[] },
        Codepoint { codepoint: 0x1D6FC, name: "MATHEMATICAL ITALIC SMALL ALPHA", aliases: &[] },
        Codepoint { codepoint: 0x1D6FD, name: "MATHEMATICAL ITALIC SMALL BETA", aliases: &[] },
        Codepoint { codepoint: 0x1D6FE, name: "MATHEMATICAL ITALIC SMALL GAMMA", aliases: &[] },
        Codepoint { codepoint: 0x1D6FF, name: "MATHEMATICAL ITALIC SMALL DELTA", aliases: &[] },
        Codepoint { codepoint: 0x1D700, name: "MATHEMATICAL ITALIC SMALL EPSILON", aliases: &[] },
        Codepoint { codepoint: 0x1D701, name: "MATHEMATICAL ITALIC SMALL ZETA", aliases: &[] },
        Codepoint { codepoint: 0x1D702, name: "MATHEMATICAL ITALIC SMALL ETA", aliases: &[] },
        Codepoint { codepoint: 0x1D703, name: "MATHEMATICAL ITALIC SMALL THETA", aliases: &[] },
        Codepoint { codepoint: 0x1D704, name: "MATHEMATICAL ITALIC SMALL IOTA", aliases: &[] },
        Codepoint { codepoint: 0x1D705, name: "MATHEMATICAL ITALIC SMALL KAPPA", aliases: &[] },
        Codepoint { codepoint: 0x1D706, name: "MATHEMATICAL ITALIC SMALL LAMDA", aliases: &[] },
        Codepoint { codepoint: 0x1D707, name: "MATHEMATICAL ITALIC SMALL MU", aliases: &[] },
        Codepoint { codepoint: 0x1D708, name: "MATHEMATICAL ITALIC SMALL NU", aliases: &[] },
        Codepoint { codepoint: 0x1D709, name: "MATHEMATICAL ITALIC SMALL XI", aliases: &[] },
        Codepoint { codepoint: 0x1D70A, name: "MATHEMATICAL ITALIC SMALL OMICRON", aliases: &[] },
        Codepoint { codepoint: 0x1D70B, name: "MATHEMATICAL ITALIC SMALL PI", aliases: &[] },
        Codepoint { codepoint: 0x1D70C, name: "MATHEMATICAL ITALIC SMALL RHO", aliases: &[] },
        Codepoint { codepoint: 0x1D70D, name: "MATHEMATICAL ITALIC SMALL FINAL SIGMA", aliases: &[] },
        Codepoint { codepoint: 0x1D70E, name: "MATHEMATICAL ITALIC SMALL SIGMA", aliases: &[] },
        Codepoint { codepoint: 0x1D70F, name: "MATHEMATICAL ITALIC SMALL TAU", aliases: &[] },
        Codepoint { codepoint: 0x1D710, name: "MATHEMATICAL ITALIC SMALL UPSILON", aliases: &[] },
        Codepoint { codepoint: 0x1D711, name: "MATHEMATICAL ITALIC SMALL PHI", aliases: &[] },
        Codepoint { codepoint: 0x1D712, name: "MATHEMATICAL ITALIC SMALL CHI", aliases: &[] },
        Codepoint { codepoint: 0x1D713, name: "MATHEMATICAL ITALIC SMALL PSI", aliases: &[] },
        Codepoint { codepoint: 0x1D714, name: "MATHEMATICAL ITALIC SMALL OMEGA", aliases: &[] },
        Codepoint { codepoint: 0x1D715, name: "MATHEMATICAL ITALIC PARTIAL DIFFERENTIAL", aliases: &[] },
        Codepoint { codepoint: 0x1D716, name: "MATHEMATICAL ITALIC EPSILON SYMBOL", aliases: &[] },
        Codepoint { codepoint: 0x1D717, name: "MATHEMATICAL ITALIC THETA SYMBOL", aliases: &[] },
        Codepoint { codepoint: 0x1D718, name: "MATHEMATICAL ITALIC KAPPA SYMBOL", aliases: &[] },
        Codepoint { codepoint: 0x1D719, name: "MATHEMATICAL ITALIC PHI SYMBOL", aliases: &[] },
        Codepoint { codepoint: 0x1D71A, name: "MATHEMATICAL ITALIC RHO SYMBOL", aliases: &[] },
        Codepoint { codepoint: 0x1D71B, name: "MATHEMATICAL ITALIC PI SYMBOL", aliases: &[] },
        Codepoint { codepoint: 0x1D71C, name: "MATHEMATICAL BOLD ITALIC CAPITAL ALPHA", aliases: &[] },
        Codepoint { codepoint: 0x1D71D, name: "MATHEMATICAL BOLD ITALIC CAPITAL BETA", aliases: &[] },
        Codepoint { codepoint: 0x1D71E, name: "MATHEMATICAL BOLD ITALIC CAPITAL GAMMA", aliases: &[] },
    ];
    assert(v@ =~= codepoint_table_736());
    v
}

pub open spec fn codepoint_table_737() -> Seq<Codepoint> {
    seq![
        Codepoint { codepoint: 0x1D71F, name: "MATHEMATICAL BOLD ITALIC CAPITAL DELTA", aliases: &[] },
        Codepoint { codepoint: 0x1D720, name: "MATHEMATICAL BOLD ITALIC CAPITAL EPSILON", aliases: &[] },
        Codepoint { codepoint: 0x1D721, name: "MATHEMATICAL BOLD ITALIC CAPITAL ZETA", aliases: &[] },
        Codepoint { codepoint: 0x1D722, name: "MATHEMATICAL BOLD ITALIC CAPITAL ETA", aliases: &[] },
        Codepoint { codepoint: 0x1D723, name: "MATHEMATICAL BOLD ITALIC CAPITAL THETA", aliases: &[] },
        Codepoint { codepoint: 0x1D724, name: "MATHEMATICAL BOLD ITALIC CAPITAL IOTA", aliases: &[] },
        Codepoint { codepoint: 0x1D725, name: "MATHEMATICAL BOLD ITALIC CAPITAL KAPPA", aliases: &[] },
        Codepoint { codepoint: 0x1D726, name: "MATHEMATICAL BOLD ITALIC CAPITAL LAMDA", aliases: &[] },
        Codepoint { codepoint: 0x1D727, name: "MATHEMATICAL BOLD ITALIC CAPITAL MU", aliases: &[] },
        Codepoint { codepoint: 0x1D728, name: "MATHEMATICAL BOLD ITALIC CAPITAL NU", aliases: &[] },
        Codepoint { codepoint: 0x1D729, name: "MATHEMATICAL BOLD ITALIC CAPITAL XI", aliases: &[] },
        Codepoint { codepoint: 0x1D72A, name: "MATHEMATICAL BOLD ITALIC CAPITAL OMICRON", aliases: &[] },
        Codepoint { codepoint: 0x1D72B, name: "MATHEMATICAL BOLD ITALIC CAPITAL PI", aliases: &[] },
        Codepoint { codepoint: 0x1D72C, name: "MATHEMATICAL BOLD ITALIC CAPITAL RHO", aliases: &[] },
        Codepoint { codepoint: 0x1D72D, name: "MATHEMATICAL BOLD ITALIC CAPITAL THETA SYMBOL", aliases: &[] },
        Codepoint { codepoint: 0x1D72E, name: "MATHEMATICAL BOLD ITALIC CAPITAL SIGMA", aliases: &[] },
        Codepoint { codepoint: 0x1D72F, name: "MATHEMATICAL BOLD ITALIC CAPITAL TAU", aliases: &[] },
        Codepoint { codepoint: 0x1D730, name: "MATHEMATICAL BOLD ITALIC CAPITAL UPSILON", aliases: &[] },
        Codepoint { codepoint: 0x1D731, name: "MATHEMATICAL BOLD ITALIC CAPITAL PHI", aliases: &[] },
        Codepoint { codepoint: 0x1D732, name: "MATHEMATICAL BOLD ITALIC CAPITAL CHI", aliases: &[] },
        Codepoint { codepoint: 0x1D733, name: "MATHEMATICAL BOLD ITALIC CAPITAL PSI", aliases: &[] },
        Codepoint { codepoint: 0x1D734, name: "MATHEMATICAL BOLD ITALIC CAPITAL OMEGA", aliases: &[] },
        Codepoint { codepoint: 0x1D735, name: "MATHEMATICAL BOLD ITALIC NABLA", aliases: &[] },
        Codepoint { codepoint: 0x1D736, name: "MATHEMATICAL BOLD ITALIC SMALL ALPHA", aliases: &[] },
        Codepoint { codepoint: 0x1D737, name: "MATHEMATICAL BOLD ITALIC SMALL BETA", aliases: &[] },
        Codepoint { codepoint: 0x1D738, name: "MATHEMATICAL BOLD ITALIC SMALL GAMMA", aliases: &[] },
        Codepoint { codepoint: 0x1D739, name: "MATHEMATICAL BOLD ITALIC SMALL DELTA", aliases: &[] },
        Codepoint { codepoint: 0x1D73A, name: "MATHEMATICAL BOLD ITALIC SMALL EPSILON", aliases: &[] },
        Codepoint { codepoint: 0x1D73B, name: "MATHEMATICAL BOLD ITALIC SMALL ZETA", aliases: &[] },
        Codepoint { codepoint: 0x1D73C, name: "MATHEMATICAL BOLD ITALIC SMALL ETA", aliases: &[] },
        Codepoint { codepoint: 0x1D73D, name: "MATHEMATICAL BOLD ITALIC SMALL THETA", aliases: &[] },
        Codepoint { codepoint: 0x1D73E, name: "MATHEMATICAL BOLD ITALIC SMALL IOTA", aliases: &[] },
        Codepoint { codepoint: 0x1D73F, name: "MATHEMATICAL BOLD ITALIC SMALL KAPPA", aliases: &[] },
        Codepoint { codepoint: 0x1D740, name: "MATHEMATICAL BOLD ITALIC SMALL LAMDA", aliases: &[] },
        Codepoint { codepoint: 0x1D741, name: "MATHEMATICAL BOLD ITALIC SMALL MU", aliases: &[] },
        Codepoint { codepoint: 0x1D742, name: "MATHEMATICAL BOLD ITALIC SMALL NU", aliases: &[] },
        Codepoint { codepoint: 0x1D743, name: "MATHEMATICAL BOLD ITALIC SMALL XI", aliases: &[] },
        Codepoint { codepoint: 0x1D744, name: "MATHEMATICAL BOLD ITALIC SMALL OMICRON", aliases: &[] },
        Codepoint { codepoint: 0x1D745, name: "MATHEMATICAL BOLD ITALIC SMALL PI", aliases: &[] },
        Codepoint { codepoint: 0x1D746, name: "MATHEMATICAL BOLD ITALIC SMALL RHO", aliases: &[] },
    ]
}

fn all_codepoints_737() -> (v: Vec<Codepoint>)
    ensures
        v@ == codepoint_table_737(),
{
    let v = vec![
        Codepoint { codepoint: 0x1D71F, name: "MATHEMATICAL BOLD ITALIC CAPITAL DELTA", aliases: &[] },
        Codepoint { codepoint: 0x1D720, name: "MATHEMATICAL BOLD ITALIC CAPITAL EPSILON", aliases: &[] },
        Codepoint { codepoint: 0x1D721, name: "MATHEMATICAL BOLD ITALIC CAPITAL ZETA", aliases: &[] },
        Codepoint { codepoint: 0x1D722, name: "MATHEMATICAL BOLD ITALIC CAPITAL ETA", aliases: &[] },
        Codepoint { codepoint: 0x1D723, name: "MATHEMATICAL BOLD ITALIC CAPITAL THETA", aliases: &[] },
        Codepoint { codepoint: 0x1D724, name: "MATHEMATICAL BOLD ITALIC CAPITAL IOTA", aliases: &[] },
        Codepoint { codepoint: 0x1D725, name: "MATHEMATICAL BOLD ITALIC CAPITAL KAPPA", aliases: &[] },
        Codepoint { codepoint: 0x1D726, name: "MATHEMATICAL BOLD ITALIC CAPITAL LAMDA", aliases: &[] },
        Codepoint { codepoint: 0x1D727, name: "MATHEMATICAL BOLD ITALIC CAPITAL MU", aliases: &[] },
        Codepoint { codepoint: 0x1D728, name: "MATHEMATICAL BOLD ITALIC CAPITAL NU", aliases: &[] },
        Codepoint { codepoint: 0x1D729, name: "MATHEMATICAL BOLD ITALIC CAPITAL XI", aliases: &[] },
        Codepoint { codepoint: 0x1D72A, name: "MATHEMATICAL BOLD ITALIC CAPITAL OMICRON", aliases: &[] },
        Codepoint { codepoint: 0x1D72B, name: "MATHEMATICAL BOLD ITALIC CAPITAL PI", aliases: &[] },
        Codepoint { codepoint: 0x1D72C, name: "MATHEMATICAL BOLD ITALIC CAPITAL RHO", aliases: &[] },
        Codepoint { codepoint: 0x1D72D, name: "MATHEMATICAL BOLD ITALIC CAPITAL THETA SYMBOL", aliases: &[] },
        Codepoint { codepoint: 0x1D72E, name: "MATHEMATICAL BOLD ITALIC CAPITAL SIGMA", aliases: &[] },
        Codepoint { codepoint: 0x1D72F, name: "MATHEMATICAL BOLD ITALIC CAPITAL TAU", aliases: &[] },
        Codepoint { codepoint: 0x1D730, name: "MATHEMATICAL BOLD ITALIC CAPITAL UPSILON", aliases: &[] },
        Codepoint { codepoint: 0x1D731, name: "MATHEMATICAL BOLD ITALIC CAPITAL PHI", aliases: &[] },
        Codepoint { codepoint: 0x1D732, name: "MATHEMATICAL BOLD ITALIC CAPITAL CHI", aliases: &[] },
        Codepoint { codepoint: 0x1D733, name: "MATHEMATICAL BOLD ITALIC CAPITAL PSI", aliases: &[] },
        Codepoint { codepoint: 0x1D734, name: "MATHEMATICAL BOLD ITALIC CAPITAL OMEGA", aliases: &[] },
        Codepoint { codepoint: 0x1D735, name: "MATHEMATICAL BOLD ITALIC NABLA", aliases: &[] },
        Codepoint { codepoint: 0x1D736, name: "MATHEMATICAL BOLD ITALIC SMALL ALPHA", aliases: &[] },
        Codepoint { codepoint: 0x1D737, name: "MATHEMATICAL BOLD ITALIC SMALL BETA", aliases: &[] },
        Codepoint { codepoint: 0x1D738, name: "MATHEMATICAL BOLD ITALIC SMALL GAMMA", aliases: &[] },
        Codepoint { codepoint: 0x1D739, name: "MATHEMATICAL BOLD ITALIC SMALL DELTA", aliases: &[] },
        Codepoint { codepoint: 0x1D73A, name: "MATHEMATICAL BOLD ITALIC SMALL EPSILON", aliases: &[] },
        Codepoint { codepoint: 0x1D73B, name: "MATHEMATICAL BOLD ITALIC SMALL ZETA", aliases: &[] },
        Codepoint { codepoint: 0x1D73C, name: "MATHEMATICAL BOLD ITALIC SMALL ETA", aliases: &[] },
        Codepoint { codepoint: 0x1D73D, name: "MATHEMATICAL BOLD ITALIC SMALL THETA", aliases: &[] },
        Codepoint { codepoint: 0x1D73E, name: "MATHEMATICAL BOLD ITALIC SMALL IOTA", aliases: &[] },
        Codepoint { codepoint: 0x1D73F, name: "MATHEMATICAL BOLD ITALIC SMALL KAPPA", aliases: &[] },
        Codepoint { codepoint: 0x1D740, name: "MATHEMATICAL BOLD ITALIC SMALL LAMDA", aliases: &[] },
        Codepoint { codepoint: 0x1D741, name: "MATHEMATICAL BOLD ITALIC SMALL MU", aliases: &[] },
        Codepoint { codepoint: 0x1D742, name: "MATHEMATICAL BOLD ITALIC SMALL NU", aliases: &[] },
        Codepoint { codepoint: 0x1D743, name: "MATHEMATICAL BOLD ITALIC SMALL XI", aliases: &[] },
        Codepoint { codepoint: 0x1D744, name: "MATHEMATICAL BOLD ITALIC SMALL OMICRON", aliases: &[] },
        Codepoint { codepoint: 0x1D745, name: "MATHEMATICAL BOLD ITALIC SMALL PI", aliases: &[] },
        Codepoint { codepoint: 0x1D746, name: "MATHEMATICAL BOLD ITALIC SMALL RHO", aliases: &[] },
    ];
    assert(v@ =~= codepoint_table_737());
    v
}

pub open spec fn codepoint_table_738() -> Seq<Codepoint> {
    seq![
        Codepoint { codepoint: 0x1D747, name: "MATHEMATICAL BOLD ITALIC SMALL FINAL SIGMA", aliases: &[] },
        Codepoint { codepoint: 0x1D748, name: "MATHEMATICAL BOLD ITALIC SMALL SIGMA", aliases: &[] },
        Codepoint { codepoint: 0x1D749, name: "MATHEMATICAL BOLD ITALIC SMALL TAU", aliases: &[] },
        Codepoint { codepoint: 0x1D74A, name: "MATHEMATICAL BOLD ITALIC SMALL UPSILON", aliases: &[] },
        Codepoint { codepoint: 0x1D74B, name: "MATHEMATICAL BOLD ITALIC SMALL PHI", aliases: &[] },
        Codepoint { codepoint: 0x1D74C, name: "MATHEMATICAL BOLD ITALIC SMALL CHI", aliases: &[] },
        Codepoint { codepoint: 0x1D74D, name: "MATHEMATICAL BOLD ITALIC SMALL PSI", aliases: &[] },
        Codepoint { codepoint: 0x1D74E, name: "MATHEMATICAL BOLD ITALIC SMALL OMEGA", aliases: &[] },
        Codepoint { codepoint: 0x1D74F, name: "MATHEMATICAL BOLD ITALIC PARTIAL DIFFERENTIAL", aliases: &[] },
        Codepoint { codepoint: 0x1D750, name: "MATHEMATICAL BOLD ITALIC EPSILON SYMBOL", aliases: &[] },
        Codepoint { codepoint: 0x1D751, name: "MATHEMATICAL BOLD ITALIC THETA SYMBOL", aliases: &[] },
        Codepoint { codepoint: 0x1D752, name: "MATHEMATICAL BOLD ITALIC KAPPA SYMBOL", aliases: &[] },
        Codepoint { codepoint: 0x1D753, name: "MATHEMATICAL BOLD ITALIC PHI SYMBOL", aliases: &[] },
        Codepoint { codepoint: 0x1D754, name: "MATHEMATICAL BOLD ITALIC RHO SYMBOL", aliases: &[] },
        Codepoint { codepoint: 0x1D755, name: "MATHEMATICAL BOLD ITALIC PI SYMBOL", aliases: &[] },
        Codepoint { codepoint: 0x1D756, name: "MATHEMATICAL SANS-SERIF BOLD CAPITAL ALPHA", aliases: &[] },
        Codepoint { codepoint: 0x1D757, name: "MATHEMATICAL SANS-SERIF BOLD CAPITAL BETA", aliases: &[] },
        Codepoint { codepoint: 0x1D758, name: "MATHEMATICAL SANS-SERIF BOLD CAPITAL GAMMA", aliases: &[] },
        Codepoint { codepoint: 0x1D759, name: "MATHEMATICAL SANS-SERIF BOLD CAPITAL DELTA", aliases: &[] },
        Codepoint { codepoint: 0x1D75A, name: "MATHEMATICAL SANS-SERIF BOLD CAPITAL EPSILON", aliases: &[] },
        Codepoint { codepoint: 0x1D75B, name: "MATHEMATICAL SANS-SERIF BOLD CAPITAL ZETA", aliases: &[] },
        Codepoint { codepoint: 0x1D75C, name: "MATHEMATICAL SANS-SERIF BOLD CAPITAL ETA", aliases: &[] },
        Codepoint { codepoint: 0x1D75D, name: "MATHEMATICAL SANS-SERIF BOLD CAPITAL THETA", aliases: &[] },
        Codepoint { codepoint: 0x1D75E, name: "MATHEMATICAL SANS-SERIF BOLD CAPITAL IOTA", aliases: &[] },
        Codepoint { codepoint: 0x1D75F, name: "MATHEMATICAL SANS-SERIF BOLD CAPITAL KAPPA", aliases: &[] },
        Codepoint { codepoint: 0x1D760, name: "MATHEMATICAL SANS-SERIF BOLD CAPITAL LAMDA", aliases: &[] },
        Codepoint { codepoint: 0x1D761, name: "MATHEMATICAL SANS-SERIF BOLD CAPITAL MU", aliases: &[] },
        Codepoint { codepoint: 0x1D762, name: "MATHEMATICAL SANS-SERIF BOLD CAPITAL NU", aliases: &[] },
        Codepoint { codepoint: 0x1D763, name: "MATHEMATICAL SANS-SERIF BOLD CAPITAL XI", aliases: &[] },
        Codepoint { codepoint: 0x1D764, name: "MATHEMATICAL SANS-SERIF BOLD CAPITAL OMICRON", aliases: &[] },
        Codepoint { codepoint: 0x1D765, name: "MATHEMATICAL SANS-SERIF BOLD CAPITAL PI", aliases: &[] },
        Codepoint { codepoint: 0x1D766, name: "MATHEMATICAL SANS-SERIF BOLD CAPITAL RHO", aliases: &[] },
        Codepoint { codepoint: 0x1D767, name: "MATHEMATICAL SANS-SERIF BOLD CAPITAL THETA SYMBOL", aliases: &[] },
        Codepoint { codepoint: 0x1D768, name: "MATHEMATICAL SANS-SERIF BOLD CAPITAL SIGMA", aliases: &[] },
        Codepoint { codepoint: 0x1D769, name: "MATHEMATICAL SANS-SERIF BOLD CAPITAL TAU", aliases: &[] },
        Codepoint { codepoint: 0x1D76A, name: "MATHEMATICAL SANS-SERIF BOLD CAPITAL UPSILON", aliases: &[] },
        Codepoint { codepoint: 0x1D76B, name: "MATHEMATICAL SANS-SERIF BOLD CAPITAL PHI", aliases: &[] },
        Codepoint { codepoint: 0x1D76C, name: "MATHEMATICAL SANS-SERIF BOLD CAPITAL CHI", aliases: &[] },
        Codepoint { codepoint: 0x1D76D, name: "MATHEMATICAL SANS-SERIF BOLD CAPITAL PSI", aliases: &[] },
        Codepoint { codepoint: 0x1D76E, name: "MATHEMATICAL SANS-SERIF BOLD CAPITAL OMEGA", aliases: &[] },
    ]
}

fn all_codepoints_738() -> (v: Vec<Codepoint>)
    ensures
        v@ == codepoint_table_738(),
{
    let v = vec![
        Codepoint { codepoint: 0x1D747, name: "MATHEMATICAL BOLD ITALIC SMALL FINAL SIGMA", aliases: &[] },
        Codepoint { codepoint: 0x1D748, name: "MATHEMATICAL BOLD ITALIC SMALL SIGMA", aliases: &[] },
        Codepoint { codepoint: 0x1D749, name: "MATHEMATICAL BOLD ITALIC SMALL TAU", aliases: &[] },
        Codepoint { codepoint: 0x1D74A, name: "MATHEMATICAL BOLD ITALIC SMALL UPSILON", aliases: &[] },
        Codepoint { codepoint: 0x1D74B, name: "MATHEMATICAL BOLD ITALIC SMALL PHI", aliases: &[] },
        Codepoint { codepoint: 0x1D74C, name: "MATHEMATICAL BOLD ITALIC SMALL CHI", aliases: &[] },
        Codepoint { codepoint: 0x1D74D, name: "MATHEMATICAL BOLD ITALIC SMALL PSI", aliases: &[] },
        Codepoint { codepoint: 0x1D74E, name: "MATHEMATICAL BOLD ITALIC SMALL OMEGA", aliases: &[] },
        Codepoint { codepoint: 0x1D74F, name: "MATHEMATICAL BOLD ITALIC PARTIAL DIFFERENTIAL", aliases: &[] },
        Codepoint { codepoint: 0x1D750, name: "MATHEMATICAL BOLD ITALIC EPSILON SYMBOL", aliases: &[] },
        Codepoint { codepoint: 0x1D751, name: "MATHEMATICAL BOLD ITALIC THETA SYMBOL", aliases: &[] },
        Codepoint { codepoint: 0x1D752, name: "MATHEMATICAL BOLD ITALIC KAPPA SYMBOL", aliases: &[] },
        Codepoint { codepoint: 0x1D753, name: "MATHEMATICAL BOLD ITALIC PHI SYMBOL", aliases: &[] },
        Codepoint { codepoint: 0x1D754, name: "MATHEMATICAL BOLD ITALIC RHO SYMBOL", aliases: &[] },
        Codepoint { codepoint: 0x1D755, name: "MATHEMATICAL BOLD ITALIC PI SYMBOL", aliases: &[] },
        Codepoint { codepoint: 0x1D756, name: "MATHEMATICAL SANS-SERIF BOLD CAPITAL ALPHA", aliases: &[] },
        Codepoint { codepoint: 0x1D757, name: "MATHEMATICAL SANS-SERIF BOLD CAPITAL BETA", aliases: &[] },
        Codepoint { codepoint: 0x1D758, name: "MATHEMATICAL SANS-SERIF BOLD CAPITAL GAMMA", aliases: &[] },
        Codepoint { codepoint: 0x1D759, name: "MATHEMATICAL SANS-SERIF BOLD CAPITAL DELTA", aliases: &[] },
        Codepoint { codepoint: 0x1D75A, name: "MATHEMATICAL SANS-SERIF BOLD CAPITAL EPSILON", aliases: &[] },
        Codepoint { codepoint: 0x1D75B, name: "MATHEMATICAL SANS-SERIF BOLD CAPITAL ZETA", aliases: &[] },
        Codepoint { codepoint: 0x1D75C, name: "MATHEMATICAL SANS-SERIF BOLD CAPITAL ETA", aliases: &[] },
        Codepoint { codepoint: 0x1D75D, name: "MATHEMATICAL SANS-SERIF BOLD CAPITAL THETA", aliases: &[] },
        Codepoint { codepoint: 0x1D75E, name: "MATHEMATICAL SANS-SERIF BOLD CAPITAL IOTA", aliases: &[] },
        Codepoint { codepoint: 0x1D75F, name: "MATHEMATICAL SANS-SERIF BOLD CAPITAL KAPPA", aliases: &[] },
        Codepoint { codepoint: 0x1D760, name: "MATHEMATICAL SANS-SERIF BOLD CAPITAL LAMDA", aliases: &[] },
        Codepoint { codepoint: 0x1D761, name: "MATHEMATICAL SANS-SERIF BOLD CAPITAL MU", aliases: &[] },
        Codepoint { codepoint: 0x1D762, name: "MATHEMATICAL SANS-SERIF BOLD CAPITAL NU", aliases: &[] },
        Codepoint { codepoint: 0x1D763, name: "MATHEMATICAL SANS-SERIF BOLD CAPITAL XI", aliases: &[] },
        Codepoint { codepoint: 0x1D764, name: "MATHEMATICAL SANS-SERIF BOLD CAPITAL OMICRON", aliases: &[] },
        Codepoint { codepoint: 0x1D765, name: "MATHEMATICAL SANS-SERIF BOLD CAPITAL PI", aliases: &[] },
        Codepoint { codepoint: 0x1D766, name: "MATHEMATICAL SANS-SERIF BOLD CAPITAL RHO", aliases: &[] },
        Codepoint { codepoint: 0x1D767, name: "MATHEMATICAL SANS-SERIF BOLD CAPITAL THETA SYMBOL", aliases: &[] },
        Codepoint { codepoint: 0x1D768, name: "MATHEMATICAL SANS-SERIF BOLD CAPITAL SIGMA", aliases: &[] },
        Codepoint { codepoint: 0x1D769, name: "MATHEMATICAL SANS-SERIF BOLD CAPITAL TAU", aliases: &[] },
        Codepoint { codepoint: 0x1D76A, name: "MATHEMATICAL SANS-SERIF BOLD CAPITAL UPSILON", aliases: &[] },
        Codepoint { codepoint: 0x1D76B, name: "MATHEMATICAL SANS-SERIF BOLD CAPITAL PHI", aliases: &[] },
        Codepoint { codepoint: 0x1D76C, name: "MATHEMATICAL SANS-SERIF BOLD CAPITAL CHI", aliases: &[] },
        Codepoint { codepoint: 0x1D76D, name: "MATHEMATICAL SANS-SERIF BOLD CAPITAL PSI", aliases: &[] },
        Codepoint { codepoint: 0x1D76E, name: "MATHEMATICAL SANS-SERIF BOLD CAPITAL OMEGA", aliases: &[] },
    ];
    assert(v@ =~= codepoint_table_738());
    v
}

pub open spec fn codepoint_table_739() -> Seq<Codepoint> {
    seq![
        Codepoint { codepoint: 0x1D76F, name: "MATHEMATICAL SANS-SERIF BOLD NABLA", aliases: &[] },
        Codepoint { codepoint: 0x1D770, name: "MATHEMATICAL SANS-SERIF BOLD SMALL ALPHA", aliases: &[] },
        Codepoint { codepoint: 0x1D771, name: "MATHEMATICAL SANS-SERIF BOLD SMALL BETA", aliases: &[] },
        Codepoint { codepoint: 0x1D772, name: "MATHEMATICAL SANS-SERIF BOLD SMALL GAMMA", aliases: &[] },
        Codepoint { codepoint: 0x1D773, name: "MATHEMATICAL SANS-SERIF BOLD SMALL DELTA", aliases: &[] },
        Codepoint { codepoint: 0x1D774, name: "MATHEMATICAL SANS-SERIF BOLD SMALL EPSILON", aliases: &[] },
        Codepoint { codepoint: 0x1D775, name: "MATHEMATICAL SANS-SERIF BOLD SMALL ZETA", aliases: &[] },
        Codepoint { codepoint: 0x1D776, name: "MATHEMATICAL SANS-SERIF BOLD SMALL ETA", aliases: &[] },
        Codepoint { codepoint: 0x1D777, name: "MATHEMATICAL SANS-SERIF BOLD SMALL THETA", aliases: &[] },
        Codepoint { codepoint: 0x1D778, name: "MATHEMATICAL SANS-SERIF BOLD SMALL IOTA", aliases: &[] },
        Codepoint { codepoint: 0x1D779, name: "MATHEMATICAL SANS-SERIF BOLD SMALL KAPPA", aliases: &[] },
        Codepoint { codepoint: 0x1D77A, name: "MATHEMATICAL SANS-SERIF BOLD SMALL LAMDA", aliases: &[] },
        Codepoint { codepoint: 0x1D77B, name: "MATHEMATICAL SANS-SERIF BOLD SMALL MU", aliases: &[] },
        Codepoint { codepoint: 0x1D77C, name: "MATHEMATICAL SANS-SERIF BOLD SMALL NU", aliases: &[] },
        Codepoint { codepoint: 0x1D77D, name: "MATHEMATICAL SANS-SERIF BOLD SMALL XI", aliases: &[] },
        Codepoint { codepoint: 0x1D77E, name: "MATHEMATICAL SANS-SERIF BOLD SMALL OMICRON", aliases: &[] },
        Codepoint { codepoint: 0x1D77F, name: "MATHEMATICAL SANS-SERIF BOLD SMALL PI", aliases: &[] },
        Codepoint { codepoint: 0x1D780, name: "MATHEMATICAL SANS-SERIF BOLD SMALL RHO", aliases: &[] },
        Codepoint { codepoint: 0x1D781, name: "MATHEMATICAL SANS-SERIF BOLD SMALL FINAL SIGMA", aliases: &[] },
        Codepoint { codepoint: 0x1D782, name: "MATHEMATICAL SANS-SERIF BOLD SMALL SIGMA", aliases: &[] },
        Codepoint { codepoint: 0x1D783, name: "MATHEMATICAL SANS-SERIF BOLD SMALL TAU", aliases: &[] },
        Codepoint { codepoint: 0x1D784, name: "MATHEMATICAL SANS-SERIF BOLD SMALL UPSILON", aliases: &[] },
        Codepoint { codepoint: 0x1D785, name: "MATHEMATICAL SANS-SERIF BOLD SMALL PHI", aliases: &[] },
        Codepoint { codepoint: 0x1D786, name: "MATHEMATICAL SANS-SERIF BOLD SMALL CHI", aliases: &[] },
        Codepoint { codepoint: 0x1D787, name: "MATHEMATICAL SANS-SERIF BOLD SMALL PSI", aliases: &[] },
        Codepoint { codepoint: 0x1D788, name: "MATHEMATICAL SANS-SERIF BOLD SMALL OMEGA", aliases: &[] },
        Codepoint { codepoint: 0x1D789, name: "MATHEMATICAL SANS-SERIF BOLD PARTIAL DIFFERENTIAL", aliases: &[] },
        Codepoint { codepoint: 0x1D78A, name: "MATHEMATICAL SANS-SERIF BOLD EPSILON SYMBOL", aliases: &[] },
        Codepoint { codepoint: 0x1D78B, name: "MATHEMATICAL SANS-SERIF BOLD THETA SYMBOL", aliases: &[] },
        Codepoint { codepoint: 0x1D78C, name: "MATHEMATICAL SANS-SERIF BOLD KAPPA SYMBOL", aliases: &[] },
        Codepoint { codepoint: 0x1D78D, name: "MATHEMATICAL SANS-SERIF BOLD PHI SYMBOL", aliases: &[] },
        Codepoint { codepoint: 0x1D78E, name: "MATHEMATICAL SANS-SERIF BOLD RHO SYMBOL", aliases: &[] },
        Codepoint { codepoint: 0x1D78F, name: "MATHEMATICAL SANS-SERIF BOLD PI SYMBOL", aliases: &[] },
        Codepoint { codepoint: 0x1D790, name: "MATHEMATICAL SANS-SERIF BOLD ITALIC CAPITAL ALPHA", aliases: &[] },
        Codepoint { codepoint: 0x1D791, name: "MATHEMATICAL SANS-SERIF BOLD ITALIC CAPITAL BETA", aliases: &[] },
        Codepoint { codepoint: 0x1D792, name: "MATHEMATICAL SANS-SERIF BOLD ITALIC CAPITAL GAMMA", aliases: &[] },
        Codepoint { codepoint: 0x1D793, name: "MATHEMATICAL SANS-SERIF BOLD ITALIC CAPITAL DELTA", aliases: &[] },
        Codepoint { codepoint: 0x1D794, name: "MATHEMATICAL SANS-SERIF BOLD ITALIC CAPITAL EPSILON", aliases: &[] },
        Codepoint { codepoint: 0x1D795, name: "MATHEMATICAL SANS-SERIF BOLD ITALIC CAPITAL ZETA", aliases: &[] },
        Codepoint { codepoint: 0x1D796, name: "MATHEMATICAL SANS-SERIF BOLD ITALIC CAPITAL ETA", aliases: &[] },
    ]
}

fn all_codepoints_739() -> (v: Vec<Codepoint>)
    ensures
        v@ == codepoint_table_739(),
{
    let v = vec![
        Codepoint { codepoint: 0x1D76F, name: "MATHEMATICAL SANS-SERIF BOLD NABLA", aliases: &[] },
        Codepoint { codepoint: 0x1D770, name: "MATHEMATICAL SANS-SERIF BOLD SMALL ALPHA", aliases: &[] },
        Codepoint { codepoint: 0x1D771, name: "MATHEMATICAL SANS-SERIF BOLD SMALL BETA", aliases: &[] },
        Codepoint { codepoint: 0x1D772, name: "MATHEMATICAL SANS-SERIF BOLD SMALL GAMMA", aliases: &[] },
        Codepoint { codepoint: 0x1D773, name: "MATHEMATICAL SANS-SERIF BOLD SMALL DELTA", aliases: &[] },
        Codepoint { codepoint: 0x1D774, name: "MATHEMATICAL SANS-SERIF BOLD SMALL EPSILON", aliases: &[] },
        Codepoint { codepoint: 0x1D775, name: "MATHEMATICAL SANS-SERIF BOLD SMALL ZETA", aliases: &[] },
        Codepoint { codepoint: 0x1D776, name: "MATHEMATICAL SANS-SERIF BOLD SMALL ETA", aliases: &[] },
        Codepoint { codepoint: 0x1D777, name: "MATHEMATICAL SANS-SERIF BOLD SMALL THETA", aliases: &[] },
        Codepoint { codepoint: 0x1D778, name: "MATHEMATICAL SANS-SERIF BOLD SMALL IOTA", aliases: &[] },
        Codepoint { codepoint: 0x1D779, name: "MATHEMATICAL SANS-SERIF BOLD SMALL KAPPA", aliases: &[] },
        Codepoint { codepoint: 0x1D77A, name: "MATHEMATICAL SANS-SERIF BOLD SMALL LAMDA", aliases: &[] },
        Codepoint { codepoint: 0x1D77B, name: "MATHEMATICAL SANS-SERIF BOLD SMALL MU", aliases: &[] },
        Codepoint { codepoint: 0x1D77C, name: "MATHEMATICAL SANS-SERIF BOLD SMALL NU", aliases: &[] },
        Codepoint { codepoint: 0x1D77D, name: "MATHEMATICAL SANS-SERIF BOLD SMALL XI", aliases: &[] },
        Codepoint { codepoint: 0x1D77E, name: "MATHEMATICAL SANS-SERIF BOLD SMALL OMICRON", aliases: &[] },
        Codepoint { codepoint: 0x1D77F, name: "MATHEMATICAL SANS-SERIF BOLD SMALL PI", aliases: &[] },
        Codepoint { codepoint: 0x1D780, name: "MATHEMATICAL SANS-SERIF BOLD SMALL RHO", aliases: &[] },
        Codepoint { codepoint: 0x1D781, name: "MATHEMATICAL SANS-SERIF BOLD SMALL FINAL SIGMA", aliases: &[] },
        Codepoint { codepoint: 0x1D782, name: "MATHEMATICAL SANS-SERIF BOLD SMALL SIGMA", aliases: &[] },
        Codepoint { codepoint: 0x1D783, name: "MATHEMATICAL SANS-SERIF BOLD SMALL TAU", aliases: &[] },
        Codepoint { codepoint: 0x1D784, name: "MATHEMATICAL SANS-SERIF BOLD SMALL UPSILON", aliases: &[] },
        Codepoint { codepoint: 0x1D785, name: "MATHEMATICAL SANS-SERIF BOLD SMALL PHI", aliases: &[] },
        Codepoint { codepoint: 0x1D786, name: "MATHEMATICAL SANS-SERIF BOLD SMALL CHI", aliases: &[] },
        Codepoint { codepoint: 0x1D787, name: "MATHEMATICAL SANS-SERIF BOLD SMALL PSI", aliases: &[] },
        Codepoint { codepoint: 0x1D788, name: "MATHEMATICAL SANS-SERIF BOLD SMALL OMEGA", aliases: &[] },
        Codepoint { codepoint: 0x1D789, name: "MATHEMATICAL SANS-SERIF BOLD PARTIAL DIFFERENTIAL", aliases: &[] },
        Codepoint { codepoint: 0x1D78A, name: "MATHEMATICAL SANS-SERIF BOLD EPSILON SYMBOL", aliases: &[] },
        Codepoint { codepoint: 0x1D78B, name: "MATHEMATICAL SANS-SERIF BOLD THETA SYMBOL", aliases: &[] },
        Codepoint { codepoint: 0x1D78C, name: "MATHEMATICAL SANS-SERIF BOLD KAPPA SYMBOL", aliases: &[] },
        Codepoint { codepoint: 0x1D78D, name: "MATHEMATICAL SANS-SERIF BOLD PHI SYMBOL", aliases: &[] },
        Codepoint { codepoint: 0x1D78E, name: "MATHEMATICAL SANS-SERIF BOLD RHO SYMBOL", aliases: &[] },
        Codepoint { codepoint: 0x1D78F, name: "MATHEMATICAL SANS-SERIF BOLD PI SYMBOL", aliases: &[] },
        Codepoint { codepoint: 0x1D790, name: "MATHEMATICAL SANS-SERIF BOLD ITALIC CAPITAL ALPHA", aliases: &[] },
        Codepoint { codepoint: 0x1D791, name: "MATHEMATICAL SANS-SERIF BOLD ITALIC CAPITAL BETA", aliases: &[] },
        Codepoint { codepoint: 0x1D792, name: "MATHEMATICAL SANS-SERIF BOLD ITALIC CAPITAL GAMMA", aliases: &[] },
        Codepoint { codepoint: 0x1D793, name: "MATHEMATICAL SANS-SERIF BOLD ITALIC CAPITAL DELTA", aliases: &[] },
        Codepoint { codepoint: 0x1D794, name: "MATHEMATICAL SANS-SERIF BOLD ITALIC CAPITAL EPSILON", aliases: &[] },
        Codepoint { codepoint: 0x1D795, name: "MATHEMATICAL SANS-SERIF BOLD ITALIC CAPITAL ZETA", aliases: &[] },
        Codepoint { codepoint: 0x1D796, name: "MATHEMATICAL SANS-SERIF BOLD ITALIC CAPITAL ETA", aliases: &[] },
    ];
    assert(v@ =~= codepoint_table_739());
    v
}

/// The entries from position 28800 of the table, 800 at most.
pub open spec fn codepoint_group_36() -> Seq<Codepoint> {
    codepoint_table_720() + codepoint_table_721() + codepoint_table_722() + codepoint_table_723() + codepoint_table_724() + codepoint_table_725() + codepoint_table_726() + codepoint_table_727() + codepoint_table_728() + codepoint_table_729() + codepoint_table_730() + codepoint_table_731() + codepoint_table_732() + codepoint_table_733() + codepoint_table_734() + codepoint_table_735() + codepoint_table_736() + codepoint_table_737() + codepoint_table_738() + codepoint_table_739()
}

pub fn all_codepoints_group_36() -> (v: Vec<Codepoint>)
    ensures
        v@ == codepoint_group_36(),
{
    let mut v = all_codepoints_720();
    let mut part = all_codepoints_721();
    v.append(&mut part);
    let mut part = all_codepoints_722();
    v.append(&mut part);
    let mut part = all_codepoints_723();
    v.append(&mut part);
    let mut part = all_codepoints_724();
    v.append(&mut part);
    let mut part = all_codepoints_725();
    v.append(&mut part);
    let mut part = all_codepoints_726();
    v.append(&mut part);
    let mut part = all_codepoints_727();
    v.append(&mut part);
    let mut part = all_codepoints_728();
    v.append(&mut part);
    let mut part = all_codepoints_729();
    v.append(&mut part);
    let mut part = all_codepoints_730();
    v.append(&mut part);
    let mut part = all_codepoints_731();
    v.append(&mut part);
    let mut part = all_codepoints_732();
    v.append(&mut part);
    let mut part = all_codepoints_733();
    v.append(&mut part);
    let mut part = all_codepoints_734();
    v.append(&mut part);
    let mut part = all_codepoints_735();
    v.append(&mut part);
    let mut part = all_codepoints_736();
    v.append(&mut part);
    let mut part = all_codepoints_737();
    v.append(&mut part);
    let mut part = all_codepoints_738();
    v.append(&mut part);
    let mut part = all_codepoints_739();
    v.append(&mut part);
    v
}

pub open spec fn codepoint_table_740() -> Seq<Codepoint> {
    seq![
        Codepoint { codepoint: 0x1D797, name: "MATHEMATICAL SANS-SERIF BOLD ITALIC CAPITAL THETA", aliases: &[] },
        Codepoint { codepoint: 0x1D798, name: "MATHEMATICAL SANS-SERIF BOLD ITALIC CAPITAL IOTA", aliases: &[] },
        Codepoint { codepoint: 0x1D799, name: "MATHEMATICAL SANS-SERIF BOLD ITALIC CAPITAL KAPPA", aliases: &[] },
        Codepoint { codepoint: 0x1D79A, name: "MATHEMATICAL SANS-SERIF BOLD ITALIC CAPITAL LAMDA", aliases: &[] },
        Codepoint { codepoint: 0x1D79B, name: "MATHEMATICAL SANS-SERIF BOLD ITALIC CAPITAL MU", aliases: &[] },
        Codepoint { codepoint: 0x1D79C, name: "MATHEMATICAL SANS-SERIF BOLD ITALIC CAPITAL NU", aliases: &[] },
        Codepoint { codepoint: 0x1D79D, name: "MATHEMATICAL SANS-SERIF BOLD ITALIC CAPITAL XI", aliases: &[] },
        Codepoint { codepoint: 0x1D79E, name: "MATHEMATICAL SANS-SERIF BOLD ITALIC CAPITAL OMICRON", aliases: &[] },
        Codepoint { codepoint: 0x1D79F, name: "MATHEMATICAL SANS-SERIF BOLD ITALIC CAPITAL PI", aliases: &[] },
        Codepoint { codepoint: 0x1D7A0, name: "MATHEMATICAL SANS-SERIF BOLD ITALIC CAPITAL RHO", aliases: &[] },
        Codepoint { codepoint: 0x1D7A1, name: "MATHEMATICAL SANS-SERIF BOLD ITALIC CAPITAL THETA SYMBOL", aliases: &[] },
        Codepoint { codepoint: 0x1D7A2, name: "MATHEMATICAL SANS-SERIF BOLD ITALIC CAPITAL SIGMA", aliases: &[] },
        Codepoint { codepoint: 0x1D7A3, name: "MATHEMATICAL SANS-SERIF BOLD ITALIC CAPITAL TAU", aliases: &[] },
        Codepoint { codepoint: 0x1D7A4, name: "MATHEMATICAL SANS-SERIF BOLD ITALIC CAPITAL UPSILON", aliases: &[] },
        Codepoint { codepoint: 0x1D7A5, name: "MATHEMATICAL SANS-SERIF BOLD ITALIC CAPITAL PHI", aliases: &[] },
        Codepoint { codepoint: 0x1D7A6, name: "MATHEMATICAL SANS-SERIF BOLD ITALIC CAPITAL CHI", aliases: &[] },
        Codepoint { codepoint: 0x1D7A7, name: "MATHEMATICAL SANS-SERIF BOLD ITALIC CAPITAL PSI", aliases: &[] },
        Codepoint { codepoint: 0x1D7A8, name: "MATHEMATICAL SANS-SERIF BOLD ITALIC CAPITAL OMEGA", aliases: &[] },
        Codepoint { codepoint: 0x1D7A9, name: "MATHEMATICAL SANS-SERIF BOLD ITALIC NABLA", aliases: &[] },
        Codepoint { codepoint: 0x1D7AA, name: "MATHEMATICAL SANS-SERIF BOLD ITALIC SMALL ALPHA", aliases: &[] },
        Codepoint { codepoint: 0x1D7AB, name: "MATHEMATICAL SANS-SERIF BOLD ITALIC SMALL BETA", aliases: &[] },
        Codepoint { codepoint: 0x1D7AC, name: "MATHEMATICAL SANS-SERIF BOLD ITALIC SMALL GAMMA", aliases: &[] },
        Codepoint { codepoint: 0x1D7AD, name: "MATHEMATICAL SANS-SERIF BOLD ITALIC SMALL DELTA", aliases: &[] },
        Codepoint { codepoint: 0x1D7AE, name: "MATHEMATICAL SANS-SERIF BOLD ITALIC SMALL EPSILON", aliases: &[] },
        Codepoint { codepoint: 0x1D7AF, name: "MATHEMATICAL SANS-SERIF BOLD ITALIC SMALL ZETA", aliases: &[] },
        Codepoint { codepoint: 0x1D7B0, name: "MATHEMATICAL SANS-SERIF BOLD ITALIC SMALL ETA", aliases: &[] },
        Codepoint { codepoint: 0x1D7B1, name: "MATHEMATICAL SANS-SERIF BOLD ITALIC SMALL THETA", aliases: &[] },
        Codepoint { codepoint: 0x1D7B2, name: "MATHEMATICAL SANS-SERIF BOLD ITALIC SMALL IOTA", aliases: &[] },
        Codepoint { codepoint: 0x1D7B3, name: "MATHEMATICAL SANS-SERIF BOLD ITALIC SMALL KAPPA", aliases: &[] },
        Codepoint { codepoint: 0x1D7B4, name: "MATHEMATICAL SANS-SERIF BOLD ITALIC SMALL LAMDA", aliases: &[] },
        Codepoint { codepoint: 0x1D7B5, name: "MATHEMATICAL SANS-SERIF BOLD ITALIC SMALL MU", aliases: &[] },
        Codepoint { codepoint: 0x1D7B6, name: "MATHEMATICAL SANS-SERIF BOLD ITALIC SMALL NU", aliases: &[] },
        Codepoint { codepoint: 0x1D7B7, name: "MATHEMATICAL SANS-SERIF BOLD ITALIC SMALL XI", aliases: &[] },
        Codepoint { codepoint: 0x1D7B8, name: "MATHEMATICAL SANS-SERIF BOLD ITALIC SMALL OMICRON", aliases: &[] },
        Codepoint { codepoint: 0x1D7B9, name: "MATHEMATICAL SANS-SERIF BOLD ITALIC SMALL PI", aliases: &[] },
        Codepoint { codepoint: 0x1D7BA, name: "MATHEMATICAL SANS-SERIF BOLD ITALIC SMALL RHO", aliases: &[] },
        Codepoint { codepoint: 0x1D7BB, name: "MATHEMATICAL SANS-SERIF BOLD ITALIC SMALL FINAL SIGMA", aliases: &[] },
        Codepoint { codepoint: 0x1D7BC, name: "MATHEMATICAL SANS-SERIF BOLD ITALIC SMALL SIGMA", aliases: &[] },
        Codepoint { codepoint: 0x1D7BD, name: "MATHEMATICAL SANS-SERIF BOLD ITALIC SMALL TAU", aliases: &[] },
        Codepoint { codepoint: 0x1D7BE, name: "MATHEMATICAL SANS-SERIF BOLD ITALIC SMALL UPSILON", aliases: &[] },
    ]
}

fn all_codepoints_740() -> (v: Vec<Codepoint>)
    ensures
        v@ == codepoint_table_740(),
{
    let v = vec![
        Codepoint { codepoint: 0x1D797, name: "MATHEMATICAL SANS-SERIF BOLD ITALIC CAPITAL THETA", aliases: &[] },
        Codepoint { codepoint: 0x1D798, name: "MATHEMATICAL SANS-SERIF BOLD ITALIC CAPITAL IOTA", aliases: &[] },
        Codepoint { codepoint: 0x1D799, name: "MATHEMATICAL SANS-SERIF BOLD ITALIC CAPITAL KAPPA", aliases: &[] },
        Codepoint { codepoint: 0x1D79A, name: "MATHEMATICAL SANS-SERIF BOLD ITALIC CAPITAL LAMDA", aliases: &[] },
        Codepoint { codepoint: 0x1D79B, name: "MATHEMATICAL SANS-SERIF BOLD ITALIC CAPITAL MU", aliases: &[] },
        Codepoint { codepoint: 0x1D79C, name: "MATHEMATICAL SANS-SERIF BOLD ITALIC CAPITAL NU", aliases: &[] },
        Codepoint { codepoint: 0x1D79D, name: "MATHEMATICAL SANS-SERIF BOLD ITALIC CAPITAL XI", aliases: &[] },
        Codepoint { codepoint: 0x1D79E, name: "MATHEMATICAL SANS-SERIF BOLD ITALIC CAPITAL OMICRON", aliases: &[] },
        Codepoint { codepoint: 0x1D79F, name: "MATHEMATICAL SANS-SERIF BOLD ITALIC CAPITAL PI", aliases: &[] },
        Codepoint { codepoint: 0x1D7A0, name: "MATHEMATICAL SANS-SERIF BOLD ITALIC CAPITAL RHO", aliases: &[] },
        Codepoint { codepoint: 0x1D7A1, name: "MATHEMATICAL SANS-SERIF BOLD ITALIC CAPITAL THETA SYMBOL", aliases: &[] },
        Codepoint { codepoint: 0x1D7A2, name: "MATHEMATICAL SANS-SERIF BOLD ITALIC CAPITAL SIGMA", aliases: &[] },
        Codepoint { codepoint: 0x1D7A3, name: "MATHEMATICAL SANS-SERIF BOLD ITALIC CAPITAL TAU", aliases: &[] },
        Codepoint { codepoint: 0x1D7A4, name: "MATHEMATICAL SANS-SERIF BOLD ITALIC CAPITAL UPSILON", aliases: &[] },
        Codepoint { codepoint: 0x1D7A5, name: "MATHEMATICAL SANS-SERIF BOLD ITALIC CAPITAL PHI", aliases: &[] },
        Codepoint { codepoint: 0x1D7A6, name: "MATHEMATICAL SANS-SERIF BOLD ITALIC CAPITAL CHI", aliases: &[] },
        Codepoint { codepoint: 0x1D7A7, name: "MATHEMATICAL SANS-SERIF BOLD ITALIC CAPITAL PSI", aliases: &[] },
        Codepoint { codepoint: 0x1D7A8, name: "MATHEMATICAL SANS-SERIF BOLD ITALIC CAPITAL OMEGA", aliases: &[] },
        Codepoint { codepoint: 0x1D7A9, name: "MATHEMATICAL SANS-SERIF BOLD ITALIC NABLA", aliases: &[] },
        Codepoint { codepoint: 0x1D7AA, name: "MATHEMATICAL SANS-SERIF BOLD ITALIC SMALL ALPHA", aliases: &[] },
        Codepoint { codepoint: 0x1D7AB, name: "MATHEMATICAL SANS-SERIF BOLD ITALIC SMALL BETA", aliases: &[] },
        Codepoint { codepoint: 0x1D7AC, name: "MATHEMATICAL SANS-SERIF BOLD ITALIC SMALL GAMMA", aliases: &[] },
        Codepoint { codepoint: 0x1D7AD, name: "MATHEMATICAL SANS-SERIF BOLD ITALIC SMALL DELTA", aliases: &[] },
        Codepoint { codepoint: 0x1D7AE, name: "MATHEMATICAL SANS-SERIF BOLD ITALIC SMALL EPSILON", aliases: &[] },
        Codepoint { codepoint: 0x1D7AF, name: "MATHEMATICAL SANS-SERIF BOLD ITALIC SMALL ZETA", aliases: &[] },
        Codepoint { codepoint: 0x1D7B0, name: "MATHEMATICAL SANS-SERIF BOLD ITALIC SMALL ETA", aliases: &[] },
        Codepoint { codepoint: 0x1D7B1, name: "MATHEMATICAL SANS-SERIF BOLD ITALIC SMALL THETA", aliases: &[] },
        Codepoint { codepoint: 0x1D7B2, name: "MATHEMATICAL SANS-SERIF BOLD ITALIC SMALL IOTA", aliases: &[] },
        Codepoint { codepoint: 0x1D7B3, name: "MATHEMATICAL SANS-SERIF BOLD ITALIC SMALL KAPPA", aliases: &[] },
        Codepoint { codepoint: 0x1D7B4, name: "MATHEMATICAL SANS-SERIF BOLD ITALIC SMALL LAMDA", aliases: &[] },
        Codepoint { codepoint: 0x1D7B5, name: "MATHEMATICAL SANS-SERIF BOLD ITALIC SMALL MU", aliases: &[] },
        Codepoint { codepoint: 0x1D7B6, name: "MATHEMATICAL SANS-SERIF BOLD ITALIC SMALL NU", aliases: &[] },
        Codepoint { codepoint: 0x1D7B7, name: "MATHEMATICAL SANS-SERIF BOLD ITALIC SMALL XI", aliases: &[] },
        Codepoint { codepoint: 0x1D7B8, name: "MATHEMATICAL SANS-SERIF BOLD ITALIC SMALL OMICRON", aliases: &[] },
        Codepoint { codepoint: 0x1D7B9, name: "MATHEMATICAL SANS-SERIF BOLD ITALIC SMALL PI", aliases: &[] },
        Codepoint { codepoint: 0x1D7BA, name: "MATHEMATICAL SANS-SERIF BOLD ITALIC SMALL RHO", aliases: &[] },
        Codepoint { codepoint: 0x1D7BB, name: "MATHEMATICAL SANS-SERIF BOLD ITALIC SMALL FINAL SIGMA", aliases: &[] },
        Codepoint { codepoint: 0x1D7BC, name: "MATHEMATICAL SANS-SERIF BOLD ITALIC SMALL SIGMA", aliases: &[] },
        Codepoint { codepoint: 0x1D7BD, name: "MATHEMATICAL SANS-SERIF BOLD ITALIC SMALL TAU", aliases: &[] },
        Codepoint { codepoint: 0x1D7BE, name: "MATHEMATICAL SANS-SERIF BOLD ITALIC SMALL UPSILON", aliases: &[] },
    ];
    assert(v@ =~= codepoint_table_740());
    v
}

pub open spec fn codepoint_table_741() -> Seq<Codepoint> {
    seq![
        Codepoint { codepoint: 0x1D7BF, name: "MATHEMATICAL SANS-SERIF BOLD ITALIC SMALL PHI", aliases: &[] },
        Codepoint { codepoint: 0x1D7C0, name: "MATHEMATICAL SANS-SERIF BOLD ITALIC SMALL CHI", aliases: &[] },
        Codepoint { codepoint: 0x1D7C1, name: "MATHEMATICAL SANS-SERIF BOLD ITALIC SMALL PSI", aliases: &[] },
        Codepoint { codepoint: 0x1D7C2, name: "MATHEMATICAL SANS-SERIF BOLD ITALIC SMALL OMEGA", aliases: &[] },
        Codepoint { codepoint: 0x1D7C3, name: "MATHEMATICAL SANS-SERIF BOLD ITALIC PARTIAL DIFFERENTIAL", aliases: &[] },
        Codepoint { codepoint: 0x1D7C4, name: "MATHEMATICAL SANS-SERIF BOLD ITALIC EPSILON SYMBOL", aliases: &[] },
        Codepoint { codepoint: 0x1D7C5, name: "MATHEMATICAL SANS-SERIF BOLD ITALIC THETA SYMBOL", aliases: &[] },
        Codepoint { codepoint: 0x1D7C6, name: "MATHEMATICAL SANS-SERIF BOLD ITALIC KAPPA SYMBOL", aliases: &[] },
        Codepoint { codepoint: 0x1D7C7, name: "MATHEMATICAL SANS-SERIF BOLD ITALIC PHI SYMBOL", aliases: &[] },
        Codepoint { codepoint: 0x1D7C8, name: "MATHEMATICAL SANS-SERIF BOLD ITALIC RHO SYMBOL", aliases: &[] },
        Codepoint { codepoint: 0x1D7C9, name: "MATHEMATICAL SANS-SERIF BOLD ITALIC PI SYMBOL", aliases: &[] },
        Codepoint { codepoint: 0x1D7CA, name: "MATHEMATICAL BOLD CAPITAL DIGAMMA", aliases: &[] },
        Codepoint { codepoint: 0x1D7CB, name: "MATHEMATICAL BOLD SMALL DIGAMMA", aliases: &[] },
        Codepoint { codepoint: 0x1D7CE, name: "MATHEMATICAL BOLD DIGIT ZERO", aliases: &[] },
        Codepoint { codepoint: 0x1D7CF, name: "MATHEMATICAL BOLD DIGIT ONE", aliases: &[] },
        Codepoint { codepoint: 0x1D7D0, name: "MATHEMATICAL BOLD DIGIT TWO", aliases: &[] },
        Codepoint { codepoint: 0x1D7D1, name: "MATHEMATICAL BOLD DIGIT THREE", aliases: &[] },
        Codepoint { codepoint: 0x1D7D2, name: "MATHEMATICAL BOLD DIGIT FOUR", aliases: &[] },
        Codepoint { codepoint: 0x1D7D3, name: "MATHEMATICAL BOLD DIGIT FIVE", aliases: &[] },
        Codepoint { codepoint: 0x1D7D4, name: "MATHEMATICAL BOLD DIGIT SIX", aliases: &[] },
        Codepoint { codepoint: 0x1D7D5, name: "MATHEMATICAL BOLD DIGIT SEVEN", aliases: &[] },
        Codepoint { codepoint: 0x1D7D6, name: "MATHEMATICAL BOLD DIGIT EIGHT", aliases: &[] },
        Codepoint { codepoint: 0x1D7D7, name: "MATHEMATICAL BOLD DIGIT NINE", aliases: &[] },
        Codepoint { codepoint: 0x1D7D8, name: "MATHEMATICAL DOUBLE-STRUCK DIGIT ZERO", aliases: &[] },
        Codepoint { codepoint: 0x1D7D9, name: "MATHEMATICAL DOUBLE-STRUCK DIGIT ONE", aliases: &[] },
        Codepoint { codepoint: 0x1D7DA, name: "MATHEMATICAL DOUBLE-STRUCK DIGIT TWO", aliases: &[] },
        Codepoint { codepoint: 0x1D7DB, name: "MATHEMATICAL DOUBLE-STRUCK DIGIT THREE", aliases: &[] },
        Codepoint { codepoint: 0x1D7DC, name: "MATHEMATICAL DOUBLE-STRUCK DIGIT FOUR", aliases: &[] },
        Codepoint { codepoint: 0x1D7DD, name: "MATHEMATICAL DOUBLE-STRUCK DIGIT FIVE", aliases: &[] },
        Codepoint { codepoint: 0x1D7DE, name: "MATHEMATICAL DOUBLE-STRUCK DIGIT SIX", aliases: &[] },
        Codepoint { codepoint: 0x1D7DF, name: "MATHEMATICAL DOUBLE-STRUCK DIGIT SEVEN", aliases: &[] },
        Codepoint { codepoint: 0x1D7E0, name: "MATHEMATICAL DOUBLE-STRUCK DIGIT EIGHT", aliases: &[] },
        Codepoint { codepoint: 0x1D7E1, name: "MATHEMATICAL DOUBLE-STRUCK DIGIT NINE", aliases: &[] },
        Codepoint { codepoint: 0x1D7E2, name: "MATHEMATICAL SANS-SERIF DIGIT ZERO", aliases: &[] },
        Codepoint { codepoint: 0x1D7E3, name: "MATHEMATICAL SANS-SERIF DIGIT ONE", aliases: &[] },
        Codepoint { codepoint: 0x1D7E4, name: "MATHEMATICAL SANS-SERIF DIGIT TWO", aliases: &[] },
        Codepoint { codepoint: 0x1D7E5, name: "MATHEMATICAL SANS-SERIF DIGIT THREE", aliases: &[] },
        Codepoint { codepoint: 0x1D7E6, name: "MATHEMATICAL SANS-SERIF DIGIT FOUR", aliases: &[] },
        Codepoint { codepoint: 0x1D7E7, name: "MATHEMATICAL SANS-SERIF DIGIT FIVE", aliases: &[] },
        Codepoint { codepoint: 0x1D7E8, name: "MATHEMATICAL SANS-SERIF DIGIT SIX", aliases: &[] },
    ]
}

fn all_codepoints_741() -> (v: Vec<Codepoint>)
    ensures
        v@ == codepoint_table_741(),
{
    let v = vec![
        Codepoint { codepoint: 0x1D7BF, name: "MATHEMATICAL SANS-SERIF BOLD ITALIC SMALL PHI", aliases: &[] },
        Codepoint { codepoint: 0x1D7C0, name: "MATHEMATICAL SANS-SERIF BOLD ITALIC SMALL CHI", aliases: &[] },
        Codepoint { codepoint: 0x1D7C1, name: "MATHEMATICAL SANS-SERIF BOLD ITALIC SMALL PSI", aliases: &[] },
        Codepoint { codepoint: 0x1D7C2, name: "MATHEMATICAL SANS-SERIF BOLD ITALIC SMALL OMEGA", aliases: &[] },
        Codepoint { codepoint: 0x1D7C3, name: "MATHEMATICAL SANS-SERIF BOLD ITALIC PARTIAL DIFFERENTIAL", aliases: &[] },
        Codepoint { codepoint: 0x1D7C4, name: "MATHEMATICAL SANS-SERIF BOLD ITALIC EPSILON SYMBOL", aliases: &[] },
        Codepoint { codepoint: 0x1D7C5, name: "MATHEMATICAL SANS-SERIF BOLD ITALIC THETA SYMBOL", aliases: &[] },
        Codepoint { codepoint: 0x1D7C6, name: "MATHEMATICAL SANS-SERIF BOLD ITALIC KAPPA SYMBOL", aliases: &[] },
        Codepoint { codepoint: 0x1D7C7, name: "MATHEMATICAL SANS-SERIF BOLD ITALIC PHI SYMBOL", aliases: &[] },
        Codepoint { codepoint: 0x1D7C8, name: "MATHEMATICAL SANS-SERIF BOLD ITALIC RHO SYMBOL", aliases: &[] },
        Codepoint { codepoint: 0x1D7C9, name: "MATHEMATICAL SANS-SERIF BOLD ITALIC PI SYMBOL", aliases: &[] },
        Codepoint { codepoint: 0x1D7CA, name: "MATHEMATICAL BOLD CAPITAL DIGAMMA", aliases: &[] },
        Codepoint { codepoint: 0x1D7CB, name: "MATHEMATICAL BOLD SMALL DIGAMMA", aliases: &[] },
        Codepoint { codepoint: 0x1D7CE, name: "MATHEMATICAL BOLD DIGIT ZERO", aliases: &[] },
        Codepoint { codepoint: 0x1D7CF, name: "MATHEMATICAL BOLD DIGIT ONE", aliases: &[] },
        Codepoint { codepoint: 0x1D7D0, name: "MATHEMATICAL BOLD DIGIT TWO", aliases: &[] },
        Codepoint { codepoint: 0x1D7D1, name: "MATHEMATICAL BOLD DIGIT THREE", aliases: &[] },
        Codepoint { codepoint: 0x1D7D2, name: "MATHEMATICAL BOLD DIGIT FOUR", aliases: &[] },
        Codepoint { codepoint: 0x1D7D3, name: "MATHEMATICAL BOLD DIGIT FIVE", aliases: &[] },
        Codepoint { codepoint: 0x1D7D4, name: "MATHEMATICAL BOLD DIGIT SIX", aliases: &[] },
        Codepoint { codepoint: 0x1D7D5, name: "MATHEMATICAL BOLD DIGIT SEVEN", aliases: &[] },
        Codepoint { codepoint: 0x1D7D6, name: "MATHEMATICAL BOLD DIGIT EIGHT", aliases: &[] },
        Codepoint { codepoint: 0x1D7D7, name: "MATHEMATICAL BOLD DIGIT NINE", aliases: &[] },
        Codepoint { codepoint: 0x1D7D8, name: "MATHEMATICAL DOUBLE-STRUCK DIGIT ZERO", aliases: &[] },
        Codepoint { codepoint: 0x1D7D9, name: "MATHEMATICAL DOUBLE-STRUCK DIGIT ONE", aliases: &[] },
        Codepoint { codepoint: 0x1D7DA, name: "MATHEMATICAL DOUBLE-STRUCK DIGIT TWO", aliases: &[] },
        Codepoint { codepoint: 0x1D7DB, name: "MATHEMATICAL DOUBLE-STRUCK DIGIT THREE", aliases: &[] },
        Codepoint { codepoint: 0x1D7DC, name: "MATHEMATICAL DOUBLE-STRUCK DIGIT FOUR", aliases: &[] },
        Codepoint { codepoint: 0x1D7DD, name: "MATHEMATICAL DOUBLE-STRUCK DIGIT FIVE", aliases: &[] },
        Codepoint { codepoint: 0x1D7DE, name: "MATHEMATICAL DOUBLE-STRUCK DIGIT SIX", aliases: &[] },
        Codepoint { codepoint: 0x1D7DF, name: "MATHEMATICAL DOUBLE-STRUCK DIGIT SEVEN", aliases: &[] },
        Codepoint { codepoint: 0x1D7E0, name: "MATHEMATICAL DOUBLE-STRUCK DIGIT EIGHT", aliases: &[] },
        Codepoint { codepoint: 0x1D7E1, name: "MATHEMATICAL DOUBLE-STRUCK DIGIT NINE", aliases: &[] },
        Codepoint { codepoint: 0x1D7E2, name: "MATHEMATICAL SANS-SERIF DIGIT ZERO", aliases: &[] },
        Codepoint { codepoint: 0x1D7E3, name: "MATHEMATICAL SANS-SERIF DIGIT ONE", aliases: &[] },
        Codepoint { codepoint: 0x1D7E4, name: "MATHEMATICAL SANS-SERIF DIGIT TWO", aliases: &[] },
        Codepoint { codepoint: 0x1D7E5, name: "MATHEMATICAL SANS-SERIF DIGIT THREE", aliases: &[] },
        Codepoint { codepoint: 0x1D7E6, name: "MATHEMATICAL SANS-SERIF DIGIT FOUR", aliases: &[] },
        Codepoint { codepoint: 0x1D7E7, name: "MATHEMATICAL SANS-SERIF DIGIT FIVE", aliases: &[] },
        Codepoint { codepoint: 0x1D7E8, name: "MATHEMATICAL SANS-SERIF DIGIT SIX", aliases: &[] },
    ];
    assert(v@ =~= codepoint_table_741());
    v
}

pub open spec fn codepoint_table_742() -> Seq<Codepoint> {
    seq![
        Codepoint { codepoint: 0x1D7E9, name: "MATHEMATICAL SANS-SERIF DIGIT SEVEN", aliases: &[] },
        Codepoint { codepoint: 0x1D7EA, name: "MATHEMATICAL SANS-SERIF DIGIT EIGHT", aliases: &[] },
        Codepoint { codepoint: 0x1D7EB, name: "MATHEMATICAL SANS-SERIF DIGIT NINE", aliases: &[] },
        Codepoint { codepoint: 0x1D7EC, name: "MATHEMATICAL SANS-SERIF BOLD DIGIT ZERO", aliases: &[] },
        Codepoint { codepoint: 0x1D7ED, name: "MATHEMATICAL SANS-SERIF BOLD DIGIT ONE", aliases: &[] },
        Codepoint { codepoint: 0x1D7EE, name: "MATHEMATICAL SANS-SERIF BOLD DIGIT TWO", aliases: &[] },
        Codepoint { codepoint: 0x1D7EF, name: "MATHEMATICAL SANS-SERIF BOLD DIGIT THREE", aliases: &[] },
        Codepoint { codepoint: 0x1D7F0, name: "MATHEMATICAL SANS-SERIF BOLD DIGIT FOUR", aliases: &[] },
        Codepoint { codepoint: 0x1D7F1, name: "MATHEMATICAL SANS-SERIF BOLD DIGIT FIVE", aliases: &[] },
        Codepoint { codepoint: 0x1D7F2, name: "MATHEMATICAL SANS-SERIF BOLD DIGIT SIX", aliases: &[] },
        Codepoint { codepoint: 0x1D7F3, name: "MATHEMATICAL SANS-SERIF BOLD DIGIT SEVEN", aliases: &[] },
        Codepoint { codepoint: 0x1D7F4, name: "MATHEMATICAL SANS-SERIF BOLD DIGIT EIGHT", aliases: &[] },
        Codepoint { codepoint: 0x1D7F5, name: "MATHEMATICAL SANS-SERIF BOLD DIGIT NINE", aliases: &[] },
        Codepoint { codepoint: 0x1D7F6, name: "MATHEMATICAL MONOSPACE DIGIT ZERO", aliases: &[] },
        Codepoint { codepoint: 0x1D7F7, name: "MATHEMATICAL MONOSPACE DIGIT ONE", aliases: &[] },
        Codepoint { codepoint: 0x1D7F8, name: "MATHEMATICAL MONOSPACE DIGIT TWO", aliases: &[] },
        Codepoint { codepoint: 0x1D7F9, name: "MATHEMATICAL MONOSPACE DIGIT THREE", aliases: &[] },
        Codepoint { codepoint: 0x1D7FA, name: "MATHEMATICAL MONOSPACE DIGIT FOUR", aliases: &[] },
        Codepoint { codepoint: 0x1D7FB, name: "MATHEMATICAL MONOSPACE DIGIT FIVE", aliases: &[] },
        Codepoint { codepoint: 0x1D7FC, name: "MATHEMATICAL MONOSPACE DIGIT SIX", aliases: &[] },
        Codepoint { codepoint: 0x1D7FD, name: "MATHEMATICAL MONOSPACE DIGIT SEVEN", aliases: &[] },
        Codepoint { codepoint: 0x1D7FE, name: "MATHEMATICAL MONOSPACE DIGIT EIGHT", aliases: &[] },
        Codepoint { codepoint: 0x1D7FF, name: "MATHEMATICAL MONOSPACE DIGIT NINE", aliases: &[] },
        Codepoint { codepoint: 0x1D800, name: "SIGNWRITING HAND-FIST INDEX", aliases: &[] },
        Codepoint { codepoint: 0x1D801, name: "SIGNWRITING HAND-CIRCLE INDEX", aliases: &[] },
        Codepoint { codepoint: 0x1D802, name: "SIGNWRITING HAND-CUP INDEX", aliases: &[] },
        Codepoint { codepoint: 0x1D803, name: "SIGNWRITING HAND-OVAL INDEX", aliases: &[] },
        Codepoint { codepoint: 0x1D804, name: "SIGNWRITING HAND-HINGE INDEX", aliases: &[] },
        Codepoint { codepoint: 0x1D805, name: "SIGNWRITING HAND-ANGLE INDEX", aliases: &[] },
        Codepoint { codepoint: 0x1D806, name: "SIGNWRITING HAND-FIST INDEX BENT", aliases: &[] },
        Codepoint { codepoint: 0x1D807, name: "SIGNWRITING HAND-CIRCLE INDEX BENT", aliases: &[] },
        Codepoint { codepoint: 0x1D808, name: "SIGNWRITING HAND-FIST THUMB UNDER INDEX BENT", aliases: &[] },
        Codepoint { codepoint: 0x1D809, name: "SIGNWRITING HAND-FIST INDEX RAISED KNUCKLE", aliases: &[] },
        Codepoint { codepoint: 0x1D80A, name: "SIGNWRITING HAND-FIST INDEX CUPPED", aliases: &[] },
        Codepoint { codepoint: 0x1D80B, name: "SIGNWRITING HAND-FIST INDEX HINGED", aliases: &[] },
        Codepoint { codepoint: 0x1D80C, name: "SIGNWRITING HAND-FIST INDEX HINGED LOW", aliases: &[] },
        Codepoint { codepoint: 0x1D80D, name: "SIGNWRITING HAND-CIRCLE INDEX HINGE", aliases: &[] },
        Codepoint { codepoint: 0x1D80E, name: "SIGNWRITING HAND-FIST INDEX MIDDLE", aliases: &[] },
        Codepoint { codepoint: 0x1D80F, name: "SIGNWRITING HAND-CIRCLE INDEX MIDDLE", aliases: &[] },
        Codepoint { codepoint: 0x1D810, name: "SIGNWRITING HAND-FIST INDEX MIDDLE BENT", aliases: &[] },
    ]
}

fn all_codepoints_742() -> (v: Vec<Codepoint>)
    ensures
        v@ == codepoint_table_742(),
{
    let v = vec![
        Codepoint { codepoint: 0x1D7E9, name: "MATHEMATICAL SANS-SERIF DIGIT SEVEN", aliases: &[] },
        Codepoint { codepoint: 0x1D7EA, name: "MATHEMATICAL SANS-SERIF DIGIT EIGHT", aliases: &[] },
        Codepoint { codepoint: 0x1D7EB, name: "MATHEMATICAL SANS-SERIF DIGIT NINE", aliases: &[] },
        Codepoint { codepoint: 0x1D7EC, name: "MATHEMATICAL SANS-SERIF BOLD DIGIT ZERO", aliases: &[] },
        Codepoint { codepoint: 0x1D7ED, name: "MATHEMATICAL SANS-SERIF BOLD DIGIT ONE", aliases: &[] },
        Codepoint { codepoint: 0x1D7EE, name: "MATHEMATICAL SANS-SERIF BOLD DIGIT TWO", aliases: &[] },
        Codepoint { codepoint: 0x1D7EF, name: "MATHEMATICAL SANS-SERIF BOLD DIGIT THREE", aliases: &[] },
        Codepoint { codepoint: 0x1D7F0, name: "MATHEMATICAL SANS-SERIF BOLD DIGIT FOUR", aliases: &[] },
        Codepoint { codepoint: 0x1D7F1, name: "MATHEMATICAL SANS-SERIF BOLD DIGIT FIVE", aliases: &[] },
        Codepoint { codepoint: 0x1D7F2, name: "MATHEMATICAL SANS-SERIF BOLD DIGIT SIX", aliases: &[] },
        Codepoint { codepoint: 0x1D7F3, name: "MATHEMATICAL SANS-SERIF BOLD DIGIT SEVEN", aliases: &[] },
        Codepoint { codepoint: 0x1D7F4, name: "MATHEMATICAL SANS-SERIF BOLD DIGIT EIGHT", aliases: &[] },
        Codepoint { codepoint: 0x1D7F5, name: "MATHEMATICAL SANS-SERIF BOLD DIGIT NINE", aliases: &[] },
        Codepoint { codepoint: 0x1D7F6, name: "MATHEMATICAL MONOSPACE DIGIT ZERO", aliases: &[] },
        Codepoint { codepoint: 0x1D7F7, name: "MATHEMATICAL MONOSPACE DIGIT ONE", aliases: &[] },
        Codepoint { codepoint: 0x1D7F8, name: "MATHEMATICAL MONOSPACE DIGIT TWO", aliases: &[] },
        Codepoint { codepoint: 0x1D7F9, name: "MATHEMATICAL MONOSPACE DIGIT THREE", aliases: &[] },
        Codepoint { codepoint: 0x1D7FA, name: "MATHEMATICAL MONOSPACE DIGIT FOUR", aliases: &[] },
        Codepoint { codepoint: 0x1D7FB, name: "MATHEMATICAL MONOSPACE DIGIT FIVE", aliases: &[] },
        Codepoint { codepoint: 0x1D7FC, name: "MATHEMATICAL MONOSPACE DIGIT SIX", aliases: &[] },
        Codepoint { codepoint: 0x1D7FD, name: "MATHEMATICAL MONOSPACE DIGIT SEVEN", aliases: &[] },
        Codepoint { codepoint: 0x1D7FE, name: "MATHEMATICAL MONOSPACE DIGIT EIGHT", aliases: &[] },
        Codepoint { codepoint: 0x1D7FF, name: "MATHEMATICAL MONOSPACE DIGIT NINE", aliases: &[] },
        Codepoint { codepoint: 0x1D800, name: "SIGNWRITING HAND-FIST INDEX", aliases: &[] },
        Codepoint { codepoint: 0x1D801, name: "SIGNWRITING HAND-CIRCLE INDEX", aliases: &[] },
        Codepoint { codepoint: 0x1D802, name: "SIGNWRITING HAND-CUP INDEX", aliases: &[] },
        Codepoint { codepoint: 0x1D803, name: "SIGNWRITING HAND-OVAL INDEX", aliases: &[] },
        Codepoint { codepoint: 0x1D804, name: "SIGNWRITING HAND-HINGE INDEX", aliases: &[] },
        Codepoint { codepoint: 0x1D805, name: "SIGNWRITING HAND-ANGLE INDEX", aliases: &[] },
        Codepoint { codepoint: 0x1D806, name: "SIGNWRITING HAND-FIST INDEX BENT", aliases: &[] },
        Codepoint { codepoint: 0x1D807, name: "SIGNWRITING HAND-CIRCLE INDEX BENT", aliases: &[] },
        Codepoint { codepoint: 0x1D808, name: "SIGNWRITING HAND-FIST THUMB UNDER INDEX BENT", aliases: &[] },
        Codepoint { codepoint: 0x1D809, name: "SIGNWRITING HAND-FIST INDEX RAISED KNUCKLE", aliases: &[] },
        Codepoint { codepoint: 0x1D80A, name: "SIGNWRITING HAND-FIST INDEX CUPPED", aliases: &[] },
        Codepoint { codepoint: 0x1D80B, name: "SIGNWRITING HAND-FIST INDEX HINGED", aliases: &[] },
        Codepoint { codepoint: 0x1D80C, name: "SIGNWRITING HAND-FIST INDEX HINGED LOW", aliases: &[] },
        Codepoint { codepoint: 0x1D80D, name: "SIGNWRITING HAND-CIRCLE INDEX HINGE", aliases: &[] },
        Codepoint { codepoint: 0x1D80E, name: "SIGNWRITING HAND-FIST INDEX MIDDLE", aliases: &[] },
        Codepoint { codepoint: 0x1D80F, name: "SIGNWRITING HAND-CIRCLE INDEX MIDDLE", aliases: &[] },
        Codepoint { codepoint: 0x1D810, name: "SIGNWRITING HAND-FIST INDEX MIDDLE BENT", aliases: &[] },
    ];
    assert(v@ =~= codepoint_table_742());
    v
}

pub open spec fn codepoint_table_743() -> Seq<Codepoint> {
    seq![
        Codepoint { codepoint: 0x1D811, name: "SIGNWRITING HAND-FIST INDEX MIDDLE RAISED KNUCKLES", aliases: &[] },
        Codepoint { codepoint: 0x1D812, name: "SIGNWRITING HAND-FIST INDEX MIDDLE HINGED", aliases: &[] },
        Codepoint { codepoint: 0x1D813, name: "SIGNWRITING HAND-FIST INDEX UP MIDDLE HINGED", aliases: &[] },
        Codepoint { codepoint: 0x1D814, name: "SIGNWRITING HAND-FIST INDEX HINGED MIDDLE UP", aliases: &[] },
        Codepoint { codepoint: 0x1D815, name: "SIGNWRITING HAND-FIST INDEX MIDDLE CONJOINED", aliases: &[] },
        Codepoint { codepoint: 0x1D816, name: "SIGNWRITING HAND-FIST INDEX MIDDLE CONJOINED INDEX BENT", aliases: &[] },
        Codepoint { codepoint: 0x1D817, name: "SIGNWRITING HAND-FIST INDEX MIDDLE CONJOINED MIDDLE BENT", aliases: &[] },
        Codepoint { codepoint: 0x1D818, name: "SIGNWRITING HAND-FIST INDEX MIDDLE CONJOINED CUPPED", aliases: &[] },
        Codepoint { codepoint: 0x1D819, name: "SIGNWRITING HAND-FIST INDEX MIDDLE CONJOINED HINGED", aliases: &[] },
        Codepoint { codepoint: 0x1D81A, name: "SIGNWRITING HAND-FIST INDEX MIDDLE CROSSED", aliases: &[] },
        Codepoint { codepoint: 0x1D81B, name: "SIGNWRITING HAND-CIRCLE INDEX MIDDLE CROSSED", aliases: &[] },
        Codepoint { codepoint: 0x1D81C, name: "SIGNWRITING HAND-FIST MIDDLE BENT OVER INDEX", aliases: &[] },
        Codepoint { codepoint: 0x1D81D, name: "SIGNWRITING HAND-FIST INDEX BENT OVER MIDDLE", aliases: &[] },
        Codepoint { codepoint: 0x1D81E, name: "SIGNWRITING HAND-FIST INDEX MIDDLE THUMB", aliases: &[] },
        Codepoint { codepoint: 0x1D81F, name: "SIGNWRITING HAND-CIRCLE INDEX MIDDLE THUMB", aliases: &[] },
        Codepoint { codepoint: 0x1D820, name: "SIGNWRITING HAND-FIST INDEX MIDDLE STRAIGHT THUMB BENT", aliases: &[] },
        Codepoint { codepoint: 0x1D821, name: "SIGNWRITING HAND-FIST INDEX MIDDLE BENT THUMB STRAIGHT", aliases: &[] },
        Codepoint { codepoint: 0x1D822, name: "SIGNWRITING HAND-FIST INDEX MIDDLE THUMB BENT", aliases: &[] },
        Codepoint { codepoint: 0x1D823, name: "SIGNWRITING HAND-FIST INDEX MIDDLE HINGED SPREAD THUMB SIDE", aliases: &[] },
        Codepoint { codepoint: 0x1D824, name: "SIGNWRITING HAND-FIST INDEX UP MIDDLE HINGED THUMB SIDE", aliases: &[] },
        Codepoint { codepoint: 0x1D825, name: "SIGNWRITING HAND-FIST INDEX UP MIDDLE HINGED THUMB CONJOINED", aliases: &[] },
        Codepoint { codepoint: 0x1D826, name: "SIGNWRITING HAND-FIST INDEX HINGED MIDDLE UP THUMB SIDE", aliases: &[] },
        Codepoint { codepoint: 0x1D827, name: "SIGNWRITING HAND-FIST INDEX MIDDLE UP SPREAD THUMB FORWARD", aliases: &[] },
        Codepoint { codepoint: 0x1D828, name: "SIGNWRITING HAND-FIST INDEX MIDDLE THUMB CUPPED", aliases: &[] },
        Codepoint { codepoint: 0x1D829, name: "SIGNWRITING HAND-FIST INDEX MIDDLE THUMB CIRCLED", aliases: &[] },
        Codepoint { codepoint: 0x1D82A, name: "SIGNWRITING HAND-FIST INDEX MIDDLE THUMB HOOKED", aliases: &[] },
        Codepoint { codepoint: 0x1D82B, name: "SIGNWRITING HAND-FIST INDEX MIDDLE THUMB HINGED", aliases: &[] },
        Codepoint { codepoint: 0x1D82C, name: "SIGNWRITING HAND-FIST THUMB BETWEEN INDEX MIDDLE STRAIGHT", aliases: &[] },
        Codepoint { codepoint: 0x1D82D, name: "SIGNWRITING HAND-FIST INDEX MIDDLE CONJOINED THUMB SIDE", aliases: &[] },
        Codepoint { codepoint: 0x1D82E, name: "SIGNWRITING HAND-FIST INDEX MIDDLE CONJOINED THUMB SIDE CONJOINED", aliases: &[] },
        Codepoint { codepoint: 0x1D82F, name: "SIGNWRITING HAND-FIST INDEX MIDDLE CONJOINED THUMB SIDE BENT", aliases: &[] },
        Codepoint { codepoint: 0x1D830, name: "SIGNWRITING HAND-FIST MIDDLE THUMB HOOKED INDEX UP", aliases: &[] },
        Codepoint { codepoint: 0x1D831, name: "SIGNWRITING HAND-FIST INDEX THUMB HOOKED MIDDLE UP", aliases: &[] },
        Codepoint { codepoint: 0x1D832, name: "SIGNWRITING HAND-FIST INDEX MIDDLE CONJOINED HINGED THUMB SIDE", aliases: &[] },
        Codepoint { codepoint: 0x1D833, name: "SIGNWRITING HAND-FIST INDEX MIDDLE CROSSED THUMB SIDE", aliases: &[] },
        Codepoint { codepoint: 0x1D834, name: "SIGNWRITING HAND-FIST INDEX MIDDLE CONJOINED THUMB FORWARD", aliases: &[] },
        Codepoint { codepoint: 0x1D835, name: "SIGNWRITING HAND-FIST INDEX MIDDLE CONJOINED CUPPED THUMB FORWARD", aliases: &[] },
        Codepoint { codepoint: 0x1D836, name: "SIGNWRITING HAND-FIST MIDDLE THUMB CUPPED INDEX UP", aliases: &[] },
        Codepoint { codepoint: 0x1D837, name: "SIGNWRITING HAND-FIST INDEX THUMB CUPPED MIDDLE UP", aliases: &[] },
        Codepoint { codepoint: 0x1D838, name: "SIGNWRITING HAND-FIST MIDDLE THUMB CIRCLED INDEX UP", aliases: &[] },
    ]
}

fn all_codepoints_743() -> (v: Vec<Codepoint>)
    ensures
        v@ == codepoint_table_743(),
{
    let v = vec![
        Codepoint { codepoint: 0x1D811, name: "SIGNWRITING HAND-FIST INDEX MIDDLE RAISED KNUCKLES", aliases: &[] },
        Codepoint { codepoint: 0x1D812, name: "SIGNWRITING HAND-FIST INDEX MIDDLE HINGED", aliases: &[] },
        Codepoint { codepoint: 0x1D813, name: "SIGNWRITING HAND-FIST INDEX UP MIDDLE HINGED", aliases: &[] },
        Codepoint { codepoint: 0x1D814, name: "SIGNWRITING HAND-FIST INDEX HINGED MIDDLE UP", aliases: &[] },
        Codepoint { codepoint: 0x1D815, name: "SIGNWRITING HAND-FIST INDEX MIDDLE CONJOINED", aliases: &[] },
        Codepoint { codepoint: 0x1D816, name: "SIGNWRITING HAND-FIST INDEX MIDDLE CONJOINED INDEX BENT", aliases: &[] },
        Codepoint { codepoint: 0x1D817, name: "SIGNWRITING HAND-FIST INDEX MIDDLE CONJOINED MIDDLE BENT", aliases: &[] },
        Codepoint { codepoint: 0x1D818, name: "SIGNWRITING HAND-FIST INDEX MIDDLE CONJOINED CUPPED", aliases: &[] },
        Codepoint { codepoint: 0x1D819, name: "SIGNWRITING HAND-FIST INDEX MIDDLE CONJOINED HINGED", aliases: &[] },
        Codepoint { codepoint: 0x1D81A, name: "SIGNWRITING HAND-FIST INDEX MIDDLE CROSSED", aliases: &[] },
        Codepoint { codepoint: 0x1D81B, name: "SIGNWRITING HAND-CIRCLE INDEX MIDDLE CROSSED", aliases: &[] },
        Codepoint { codepoint: 0x1D81C, name: "SIGNWRITING HAND-FIST MIDDLE BENT OVER INDEX", aliases: &[] },
        Codepoint { codepoint: 0x1D81D, name: "SIGNWRITING HAND-FIST INDEX BENT OVER MIDDLE", aliases: &[] },
        Codepoint { codepoint: 0x1D81E, name: "SIGNWRITING HAND-FIST INDEX MIDDLE THUMB", aliases: &[] },
        Codepoint { codepoint: 0x1D81F, name: "SIGNWRITING HAND-CIRCLE INDEX MIDDLE THUMB", aliases: &[] },
        Codepoint { codepoint: 0x1D820, name: "SIGNWRITING HAND-FIST INDEX MIDDLE STRAIGHT THUMB BENT", aliases: &[] },
        Codepoint { codepoint: 0x1D821, name: "SIGNWRITING HAND-FIST INDEX MIDDLE BENT THUMB STRAIGHT", aliases: &[] },
        Codepoint { codepoint: 0x1D822, name: "SIGNWRITING HAND-FIST INDEX MIDDLE THUMB BENT", aliases: &[] },
        Codepoint { codepoint: 0x1D823, name: "SIGNWRITING HAND-FIST INDEX MIDDLE HINGED SPREAD THUMB SIDE", aliases: &[] },
        Codepoint { codepoint: 0x1D824, name: "SIGNWRITING HAND-FIST INDEX UP MIDDLE HINGED THUMB SIDE", aliases: &[] },
        Codepoint { codepoint: 0x1D825, name: "SIGNWRITING HAND-FIST INDEX UP MIDDLE HINGED THUMB CONJOINED", aliases: &[] },
        Codepoint { codepoint: 0x1D826, name: "SIGNWRITING HAND-FIST INDEX HINGED MIDDLE UP THUMB SIDE", aliases: &[] },
        Codepoint { codepoint: 0x1D827, name: "SIGNWRITING HAND-FIST INDEX MIDDLE UP SPREAD THUMB FORWARD", aliases: &[] },
        Codepoint { codepoint: 0x1D828, name: "SIGNWRITING HAND-FIST INDEX MIDDLE THUMB CUPPED", aliases: &[] },
        Codepoint { codepoint: 0x1D829, name: "SIGNWRITING HAND-FIST INDEX MIDDLE THUMB CIRCLED", aliases: &[] },
        Codepoint { codepoint: 0x1D82A, name: "SIGNWRITING HAND-FIST INDEX MIDDLE THUMB HOOKED", aliases: &[] },
        Codepoint { codepoint: 0x1D82B, name: "SIGNWRITING HAND-FIST INDEX MIDDLE THUMB HINGED", aliases: &[] },
        Codepoint { codepoint: 0x1D82C, name: "SIGNWRITING HAND-FIST THUMB BETWEEN INDEX MIDDLE STRAIGHT", aliases: &[] },
        Codepoint { codepoint: 0x1D82D, name: "SIGNWRITING HAND-FIST INDEX MIDDLE CONJOINED THUMB SIDE", aliases: &[] },
        Codepoint { codepoint: 0x1D82E, name: "SIGNWRITING HAND-FIST INDEX MIDDLE CONJOINED THUMB SIDE CONJOINED", aliases: &[] },
        Codepoint { codepoint: 0x1D82F, name: "SIGNWRITING HAND-FIST INDEX MIDDLE CONJOINED THUMB SIDE BENT", aliases: &[] },
        Codepoint { codepoint: 0x1D830, name: "SIGNWRITING HAND-FIST MIDDLE THUMB HOOKED INDEX UP", aliases: &[] },
        Codepoint { codepoint: 0x1D831, name: "SIGNWRITING HAND-FIST INDEX THUMB HOOKED MIDDLE UP", aliases: &[] },
        Codepoint { codepoint: 0x1D832, name: "SIGNWRITING HAND-FIST INDEX MIDDLE CONJOINED HINGED THUMB SIDE", aliases: &[] },
        Codepoint { codepoint: 0x1D833, name: "SIGNWRITING HAND-FIST INDEX MIDDLE CROSSED THUMB SIDE", aliases: &[] },
        Codepoint { codepoint: 0x1D834, name: "SIGNWRITING HAND-FIST INDEX MIDDLE CONJOINED THUMB FORWARD", aliases: &[] },
        Codepoint { codepoint: 0x1D835, name: "SIGNWRITING HAND-FIST INDEX MIDDLE CONJOINED CUPPED THUMB FORWARD", aliases: &[] },
        Codepoint { codepoint: 0x1D836, name: "SIGNWRITING HAND-FIST MIDDLE THUMB CUPPED INDEX UP", aliases: &[] },
        Codepoint { codepoint: 0x1D837, name: "SIGNWRITING HAND-FIST INDEX THUMB CUPPED MIDDLE UP", aliases: &[] },
        Codepoint { codepoint: 0x1D838, name: "SIGNWRITING HAND-FIST MIDDLE THUMB CIRCLED INDEX UP", aliases: &[] },
    ];
    assert(v@ =~= codepoint_table_743());
    v
}

pub open spec fn codepoint_table_744() -> Seq<Codepoint> {
    seq![
        Codepoint { codepoint: 0x1D839, name: "SIGNWRITING HAND-FIST MIDDLE THUMB CIRCLED INDEX HINGED", aliases: &[] },
        Codepoint { codepoint: 0x1D83A, name: "SIGNWRITING HAND-FIST INDEX THUMB ANGLED OUT MIDDLE UP", aliases: &[] },
        Codepoint { codepoint: 0x1D83B, name: "SIGNWRITING HAND-FIST INDEX THUMB ANGLED IN MIDDLE UP", aliases: &[] },
        Codepoint { codepoint: 0x1D83C, name: "SIGNWRITING HAND-FIST INDEX THUMB CIRCLED MIDDLE UP", aliases: &[] },
        Codepoint { codepoint: 0x1D83D, name: "SIGNWRITING HAND-FIST INDEX MIDDLE THUMB CONJOINED HINGED", aliases: &[] },
        Codepoint { codepoint: 0x1D83E, name: "SIGNWRITING HAND-FIST INDEX MIDDLE THUMB ANGLED OUT", aliases: &[] },
        Codepoint { codepoint: 0x1D83F, name: "SIGNWRITING HAND-FIST INDEX MIDDLE THUMB ANGLED", aliases: &[] },
        Codepoint { codepoint: 0x1D840, name: "SIGNWRITING HAND-FIST MIDDLE THUMB ANGLED OUT INDEX UP", aliases: &[] },
        Codepoint { codepoint: 0x1D841, name: "SIGNWRITING HAND-FIST MIDDLE THUMB ANGLED OUT INDEX CROSSED", aliases: &[] },
        Codepoint { codepoint: 0x1D842, name: "SIGNWRITING HAND-FIST MIDDLE THUMB ANGLED INDEX UP", aliases: &[] },
        Codepoint { codepoint: 0x1D843, name: "SIGNWRITING HAND-FIST INDEX THUMB HOOKED MIDDLE HINGED", aliases: &[] },
        Codepoint { codepoint: 0x1D844, name: "SIGNWRITING HAND-FLAT FOUR FINGERS", aliases: &[] },
        Codepoint { codepoint: 0x1D845, name: "SIGNWRITING HAND-FLAT FOUR FINGERS BENT", aliases: &[] },
        Codepoint { codepoint: 0x1D846, name: "SIGNWRITING HAND-FLAT FOUR FINGERS HINGED", aliases: &[] },
        Codepoint { codepoint: 0x1D847, name: "SIGNWRITING HAND-FLAT FOUR FINGERS CONJOINED", aliases: &[] },
        Codepoint { codepoint: 0x1D848, name: "SIGNWRITING HAND-FLAT FOUR FINGERS CONJOINED SPLIT", aliases: &[] },
        Codepoint { codepoint: 0x1D849, name: "SIGNWRITING HAND-CLAW FOUR FINGERS CONJOINED", aliases: &[] },
        Codepoint { codepoint: 0x1D84A, name: "SIGNWRITING HAND-FIST FOUR FINGERS CONJOINED BENT", aliases: &[] },
        Codepoint { codepoint: 0x1D84B, name: "SIGNWRITING HAND-HINGE FOUR FINGERS CONJOINED", aliases: &[] },
        Codepoint { codepoint: 0x1D84C, name: "SIGNWRITING HAND-FLAT FIVE FINGERS SPREAD", aliases: &[] },
        Codepoint { codepoint: 0x1D84D, name: "SIGNWRITING HAND-FLAT HEEL FIVE FINGERS SPREAD", aliases: &[] },
        Codepoint { codepoint: 0x1D84E, name: "SIGNWRITING HAND-FLAT FIVE FINGERS SPREAD FOUR BENT", aliases: &[] },
        Codepoint { codepoint: 0x1D84F, name: "SIGNWRITING HAND-FLAT HEEL FIVE FINGERS SPREAD FOUR BENT", aliases: &[] },
        Codepoint { codepoint: 0x1D850, name: "SIGNWRITING HAND-FLAT FIVE FINGERS SPREAD BENT", aliases: &[] },
        Codepoint { codepoint: 0x1D851, name: "SIGNWRITING HAND-FLAT HEEL FIVE FINGERS SPREAD BENT", aliases: &[] },
        Codepoint { codepoint: 0x1D852, name: "SIGNWRITING HAND-FLAT FIVE FINGERS SPREAD THUMB FORWARD", aliases: &[] },
        Codepoint { codepoint: 0x1D853, name: "SIGNWRITING HAND-CUP FIVE FINGERS SPREAD", aliases: &[] },
        Codepoint { codepoint: 0x1D854, name: "SIGNWRITING HAND-CUP FIVE FINGERS SPREAD OPEN", aliases: &[] },
        Codepoint { codepoint: 0x1D855, name: "SIGNWRITING HAND-HINGE FIVE FINGERS SPREAD OPEN", aliases: &[] },
        Codepoint { codepoint: 0x1D856, name: "SIGNWRITING HAND-OVAL FIVE FINGERS SPREAD", aliases: &[] },
        Codepoint { codepoint: 0x1D857, name: "SIGNWRITING HAND-FLAT FIVE FINGERS SPREAD HINGED", aliases: &[] },
        Codepoint { codepoint: 0x1D858, name: "SIGNWRITING HAND-FLAT FIVE FINGERS SPREAD HINGED THUMB SIDE", aliases: &[] },
        Codepoint { codepoint: 0x1D859, name: "SIGNWRITING HAND-FLAT FIVE FINGERS SPREAD HINGED NO THUMB", aliases: &[] },
        Codepoint { codepoint: 0x1D85A, name: "SIGNWRITING HAND-FLAT", aliases: &[] },
        Codepoint { codepoint: 0x1D85B, name: "SIGNWRITING HAND-FLAT BETWEEN PALM FACINGS", aliases: &[] },
        Codepoint { codepoint: 0x1D85C, name: "SIGNWRITING HAND-FLAT HEEL", aliases: &[] },
        Codepoint { codepoint: 0x1D85D, name: "SIGNWRITING HAND-FLAT THUMB SIDE", aliases: &[] },
        Codepoint { codepoint: 0x1D85E, name: "SIGNWRITING HAND-FLAT HEEL THUMB SIDE", aliases: &[] },
        Codepoint { codepoint: 0x1D85F, name: "SIGNWRITING HAND-FLAT THUMB BENT", aliases: &[] },
        Codepoint { codepoint: 0x1D860, name: "SIGNWRITING HAND-FLAT THUMB FORWARD", aliases: &[] },
    ]
}

fn all_codepoints_744() -> (v: Vec<Codepoint>)
    ensures
        v@ == codepoint_table_744(),
{
    let v = vec![
        Codepoint { codepoint: 0x1D839, name: "SIGNWRITING HAND-FIST MIDDLE THUMB CIRCLED INDEX HINGED", aliases: &[] },
        Codepoint { codepoint: 0x1D83A, name: "SIGNWRITING HAND-FIST INDEX THUMB ANGLED OUT MIDDLE UP", aliases: &[] },
        Codepoint { codepoint: 0x1D83B, name: "SIGNWRITING HAND-FIST INDEX THUMB ANGLED IN MIDDLE UP", aliases: &[] },
        Codepoint { codepoint: 0x1D83C, name: "SIGNWRITING HAND-FIST INDEX THUMB CIRCLED MIDDLE UP", aliases: &[] },
        Codepoint { codepoint: 0x1D83D, name: "SIGNWRITING HAND-FIST INDEX MIDDLE THUMB CONJOINED HINGED", aliases: &[] },
        Codepoint { codepoint: 0x1D83E, name: "SIGNWRITING HAND-FIST INDEX MIDDLE THUMB ANGLED OUT", aliases: &[] },
        Codepoint { codepoint: 0x1D83F, name: "SIGNWRITING HAND-FIST INDEX MIDDLE THUMB ANGLED", aliases: &[] },
        Codepoint { codepoint: 0x1D840, name: "SIGNWRITING HAND-FIST MIDDLE THUMB ANGLED OUT INDEX UP", aliases: &[] },
        Codepoint { codepoint: 0x1D841, name: "SIGNWRITING HAND-FIST MIDDLE THUMB ANGLED OUT INDEX CROSSED", aliases: &[] },
        Codepoint { codepoint: 0x1D842, name: "SIGNWRITING HAND-FIST MIDDLE THUMB ANGLED INDEX UP", aliases: &[] },
        Codepoint { codepoint: 0x1D843, name: "SIGNWRITING HAND-FIST INDEX THUMB HOOKED MIDDLE HINGED", aliases: &[] },
        Codepoint { codepoint: 0x1D844, name: "SIGNWRITING HAND-FLAT FOUR FINGERS", aliases: &[] },
        Codepoint { codepoint: 0x1D845, name: "SIGNWRITING HAND-FLAT FOUR FINGERS BENT", aliases: &[] },
        Codepoint { codepoint: 0x1D846, name: "SIGNWRITING HAND-FLAT FOUR FINGERS HINGED", aliases: &[] },
        Codepoint { codepoint: 0x1D847, name: "SIGNWRITING HAND-FLAT FOUR FINGERS CONJOINED", aliases: &[] },
        Codepoint { codepoint: 0x1D848, name: "SIGNWRITING HAND-FLAT FOUR FINGERS CONJOINED SPLIT", aliases: &[] },
        Codepoint { codepoint: 0x1D849, name: "SIGNWRITING HAND-CLAW FOUR FINGERS CONJOINED", aliases: &[] },
        Codepoint { codepoint: 0x1D84A, name: "SIGNWRITING HAND-FIST FOUR FINGERS CONJOINED BENT", aliases: &[] },
        Codepoint { codepoint: 0x1D84B, name: "SIGNWRITING HAND-HINGE FOUR FINGERS CONJOINED", aliases: &[] },
        Codepoint { codepoint: 0x1D84C, name: "SIGNWRITING HAND-FLAT FIVE FINGERS SPREAD", aliases: &[] },
        Codepoint { codepoint: 0x1D84D, name: "SIGNWRITING HAND-FLAT HEEL FIVE FINGERS SPREAD", aliases: &[] },
        Codepoint { codepoint: 0x1D84E, name: "SIGNWRITING HAND-FLAT FIVE FINGERS SPREAD FOUR BENT", aliases: &[] },
        Codepoint { codepoint: 0x1D84F, name: "SIGNWRITING HAND-FLAT HEEL FIVE FINGERS SPREAD FOUR BENT", aliases: &[] },
        Codepoint { codepoint: 0x1D850, name: "SIGNWRITING HAND-FLAT FIVE FINGERS SPREAD BENT", aliases: &[] },
        Codepoint { codepoint: 0x1D851, name: "SIGNWRITING HAND-FLAT HEEL FIVE FINGERS SPREAD BENT", aliases: &[] },
        Codepoint { codepoint: 0x1D852, name: "SIGNWRITING HAND-FLAT FIVE FINGERS SPREAD THUMB FORWARD", aliases: &[] },
        Codepoint { codepoint: 0x1D853, name: "SIGNWRITING HAND-CUP FIVE FINGERS SPREAD", aliases: &[] },
        Codepoint { codepoint: 0x1D854, name: "SIGNWRITING HAND-CUP FIVE FINGERS SPREAD OPEN", aliases: &[] },
        Codepoint { codepoint: 0x1D855, name: "SIGNWRITING HAND-HINGE FIVE FINGERS SPREAD OPEN", aliases: &[] },
        Codepoint { codepoint: 0x1D856, name: "SIGNWRITING HAND-OVAL FIVE FINGERS SPREAD", aliases: &[] },
        Codepoint { codepoint: 0x1D857, name: "SIGNWRITING HAND-FLAT FIVE FINGERS SPREAD HINGED", aliases: &[] },
        Codepoint { codepoint: 0x1D858, name: "SIGNWRITING HAND-FLAT FIVE FINGERS SPREAD HINGED THUMB SIDE", aliases: &[] },
        Codepoint { codepoint: 0x1D859, name: "SIGNWRITING HAND-FLAT FIVE FINGERS SPREAD HINGED NO THUMB", aliases: &[] },
        Codepoint { codepoint: 0x1D85A, name: "SIGNWRITING HAND-FLAT", aliases: &[] },
        Codepoint { codepoint: 0x1D85B, name: "SIGNWRITING HAND-FLAT BETWEEN PALM FACINGS", aliases: &[] },
        Codepoint { codepoint: 0x1D85C, name: "SIGNWRITING HAND-FLAT HEEL", aliases: &[] },
        Codepoint { codepoint: 0x1D85D, name: "SIGNWRITING HAND-FLAT THUMB SIDE", aliases: &[] },
        Codepoint { codepoint: 0x1D85E, name: "SIGNWRITING HAND-FLAT HEEL THUMB SIDE", aliases: &[] },
        Codepoint { codepoint: 0x1D85F, name: "SIGNWRITING HAND-FLAT THUMB BENT", aliases: &[] },
        Codepoint { codepoint: 0x1D860, name: "SIGNWRITING HAND-FLAT THUMB FORWARD", aliases: &[] },
    ];
    assert(v@ =~= codepoint_table_744());
    v
}

pub open spec fn codepoint_table_745() -> Seq<Codepoint> {
    seq![
        Codepoint { codepoint: 0x1D861, name: "SIGNWRITING HAND-FLAT SPLIT INDEX THUMB SIDE", aliases: &[] },
        Codepoint { codepoint: 0x1D862, name: "SIGNWRITING HAND-FLAT SPLIT CENTRE", aliases: &[] },
        Codepoint { codepoint: 0x1D863, name: "SIGNWRITING HAND-FLAT SPLIT CENTRE THUMB SIDE", aliases: &[] },
        Codepoint { codepoint: 0x1D864, name: "SIGNWRITING HAND-FLAT SPLIT CENTRE THUMB SIDE BENT", aliases: &[] },
        Codepoint { codepoint: 0x1D865, name: "SIGNWRITING HAND-FLAT SPLIT LITTLE", aliases: &[] },
        Codepoint { codepoint: 0x1D866, name: "SIGNWRITING HAND-CLAW", aliases: &[] },
        Codepoint { codepoint: 0x1D867, name: "SIGNWRITING HAND-CLAW THUMB SIDE", aliases: &[] },
        Codepoint { codepoint: 0x1D868, name: "SIGNWRITING HAND-CLAW NO THUMB", aliases: &[] },
        Codepoint { codepoint: 0x1D869, name: "SIGNWRITING HAND-CLAW THUMB FORWARD", aliases: &[] },
        Codepoint { codepoint: 0x1D86A, name: "SIGNWRITING HAND-HOOK CURLICUE", aliases: &[] },
        Codepoint { codepoint: 0x1D86B, name: "SIGNWRITING HAND-HOOK", aliases: &[] },
        Codepoint { codepoint: 0x1D86C, name: "SIGNWRITING HAND-CUP OPEN", aliases: &[] },
        Codepoint { codepoint: 0x1D86D, name: "SIGNWRITING HAND-CUP", aliases: &[] },
        Codepoint { codepoint: 0x1D86E, name: "SIGNWRITING HAND-CUP OPEN THUMB SIDE", aliases: &[] },
        Codepoint { codepoint: 0x1D86F, name: "SIGNWRITING HAND-CUP THUMB SIDE", aliases: &[] },
        Codepoint { codepoint: 0x1D870, name: "SIGNWRITING HAND-CUP OPEN NO THUMB", aliases: &[] },
        Codepoint { codepoint: 0x1D871, name: "SIGNWRITING HAND-CUP NO THUMB", aliases: &[] },
        Codepoint { codepoint: 0x1D872, name: "SIGNWRITING HAND-CUP OPEN THUMB FORWARD", aliases: &[] },
        Codepoint { codepoint: 0x1D873, name: "SIGNWRITING HAND-CUP THUMB FORWARD", aliases: &[] },
        Codepoint { codepoint: 0x1D874, name: "SIGNWRITING HAND-CURLICUE OPEN", aliases: &[] },
        Codepoint { codepoint: 0x1D875, name: "SIGNWRITING HAND-CURLICUE", aliases: &[] },
        Codepoint { codepoint: 0x1D876, name: "SIGNWRITING HAND-CIRCLE", aliases: &[] },
        Codepoint { codepoint: 0x1D877, name: "SIGNWRITING HAND-OVAL", aliases: &[] },
        Codepoint { codepoint: 0x1D878, name: "SIGNWRITING HAND-OVAL THUMB SIDE", aliases: &[] },
        Codepoint { codepoint: 0x1D879, name: "SIGNWRITING HAND-OVAL NO THUMB", aliases: &[] },
        Codepoint { codepoint: 0x1D87A, name: "SIGNWRITING HAND-OVAL THUMB FORWARD", aliases: &[] },
        Codepoint { codepoint: 0x1D87B, name: "SIGNWRITING HAND-HINGE OPEN", aliases: &[] },
        Codepoint { codepoint: 0x1D87C, name: "SIGNWRITING HAND-HINGE OPEN THUMB FORWARD", aliases: &[] },
        Codepoint { codepoint: 0x1D87D, name: "SIGNWRITING HAND-HINGE", aliases: &[] },
        Codepoint { codepoint: 0x1D87E, name: "SIGNWRITING HAND-HINGE SMALL", aliases: &[] },
        Codepoint { codepoint: 0x1D87F, name: "SIGNWRITING HAND-HINGE OPEN THUMB SIDE", aliases: &[] },
        Codepoint { codepoint: 0x1D880, name: "SIGNWRITING HAND-HINGE THUMB SIDE", aliases: &[] },
        Codepoint { codepoint: 0x1D881, name: "SIGNWRITING HAND-HINGE OPEN NO THUMB", aliases: &[] },
        Codepoint { codepoint: 0x1D882, name: "SIGNWRITING HAND-HINGE NO THUMB", aliases: &[] },
        Codepoint { codepoint: 0x1D883, name: "SIGNWRITING HAND-HINGE THUMB SIDE TOUCHING INDEX", aliases: &[] },
        Codepoint { codepoint: 0x1D884, name: "SIGNWRITING HAND-HINGE THUMB BETWEEN MIDDLE RING", aliases: &[] },
        Codepoint { codepoint: 0x1D885, name: "SIGNWRITING HAND-ANGLE", aliases: &[] },
        Codepoint { codepoint: 0x1D886, name: "SIGNWRITING HAND-FIST INDEX MIDDLE RING", aliases: &[] },
        Codepoint { codepoint: 0x1D887, name: "SIGNWRITING HAND-CIRCLE INDEX MIDDLE RING", aliases: &[] },
        Codepoint { codepoint: 0x1D888, name: "SIGNWRITING HAND-HINGE INDEX MIDDLE RING", aliases: &[] },
    ]
}

fn all_codepoints_745() -> (v: Vec<Codepoint>)
    ensures
        v@ == codepoint_table_745(),
{
    let v = vec![
        Codepoint { codepoint: 0x1D861, name: "SIGNWRITING HAND-FLAT SPLIT INDEX THUMB SIDE", aliases: &[] },
        Codepoint { codepoint: 0x1D862, name: "SIGNWRITING HAND-FLAT SPLIT CENTRE", aliases: &[] },
        Codepoint { codepoint: 0x1D863, name: "SIGNWRITING HAND-FLAT SPLIT CENTRE THUMB SIDE", aliases: &[] },
        Codepoint { codepoint: 0x1D864, name: "SIGNWRITING HAND-FLAT SPLIT CENTRE THUMB SIDE BENT", aliases: &[] },
        Codepoint { codepoint: 0x1D865, name: "SIGNWRITING HAND-FLAT SPLIT LITTLE", aliases: &[] },
        Codepoint { codepoint: 0x1D866, name: "SIGNWRITING HAND-CLAW", aliases: &[] },
        Codepoint { codepoint: 0x1D867, name: "SIGNWRITING HAND-CLAW THUMB SIDE", aliases: &[] },
        Codepoint { codepoint: 0x1D868, name: "SIGNWRITING HAND-CLAW NO THUMB", aliases: &[] },
        Codepoint { codepoint: 0x1D869, name: "SIGNWRITING HAND-CLAW THUMB FORWARD", aliases: &[] },
        Codepoint { codepoint: 0x1D86A, name: "SIGNWRITING HAND-HOOK CURLICUE", aliases: &[] },
        Codepoint { codepoint: 0x1D86B, name: "SIGNWRITING HAND-HOOK", aliases: &[] },
        Codepoint { codepoint: 0x1D86C, name: "SIGNWRITING HAND-CUP OPEN", aliases: &[] },
        Codepoint { codepoint: 0x1D86D, name: "SIGNWRITING HAND-CUP", aliases: &[] },
        Codepoint { codepoint: 0x1D86E, name: "SIGNWRITING HAND-CUP OPEN THUMB SIDE", aliases: &[] },
        Codepoint { codepoint: 0x1D86F, name: "SIGNWRITING HAND-CUP THUMB SIDE", aliases: &[] },
        Codepoint { codepoint: 0x1D870, name: "SIGNWRITING HAND-CUP OPEN NO THUMB", aliases: &[] },
        Codepoint { codepoint: 0x1D871, name: "SIGNWRITING HAND-CUP NO THUMB", aliases: &[] },
        Codepoint { codepoint: 0x1D872, name: "SIGNWRITING HAND-CUP OPEN THUMB FORWARD", aliases: &[] },
        Codepoint { codepoint: 0x1D873, name: "SIGNWRITING HAND-CUP THUMB FORWARD", aliases: &[] },
        Codepoint { codepoint: 0x1D874, name: "SIGNWRITING HAND-CURLICUE OPEN", aliases: &[] },
        Codepoint { codepoint: 0x1D875, name: "SIGNWRITING HAND-CURLICUE", aliases: &[] },
        Codepoint { codepoint: 0x1D876, name: "SIGNWRITING HAND-CIRCLE", aliases: &[] },
        Codepoint { codepoint: 0x1D877, name: "SIGNWRITING HAND-OVAL", aliases: &[] },
        Codepoint { codepoint: 0x1D878, name: "SIGNWRITING HAND-OVAL THUMB SIDE", aliases: &[] },
        Codepoint { codepoint: 0x1D879, name: "SIGNWRITING HAND-OVAL NO THUMB", aliases: &[] },
        Codepoint { codepoint: 0x1D87A, name: "SIGNWRITING HAND-OVAL THUMB FORWARD", aliases: &[] },
        Codepoint { codepoint: 0x1D87B, name: "SIGNWRITING HAND-HINGE OPEN", aliases: &[] },
        Codepoint { codepoint: 0x1D87C, name: "SIGNWRITING HAND-HINGE OPEN THUMB FORWARD", aliases: &[] },
        Codepoint { codepoint: 0x1D87D, name: "SIGNWRITING HAND-HINGE", aliases: &[] },
        Codepoint { codepoint: 0x1D87E, name: "SIGNWRITING HAND-HINGE SMALL", aliases: &[] },
        Codepoint { codepoint: 0x1D87F, name: "SIGNWRITING HAND-HINGE OPEN THUMB SIDE", aliases: &[] },
        Codepoint { codepoint: 0x1D880, name: "SIGNWRITING HAND-HINGE THUMB SIDE", aliases: &[] },
        Codepoint { codepoint: 0x1D881, name: "SIGNWRITING HAND-HINGE OPEN NO THUMB", aliases: &[] },
        Codepoint { codepoint: 0x1D882, name: "SIGNWRITING HAND-HINGE NO THUMB", aliases: &[] },
        Codepoint { codepoint: 0x1D883, name: "SIGNWRITING HAND-HINGE THUMB SIDE TOUCHING INDEX", aliases: &[] },
        Codepoint { codepoint: 0x1D884, name: "SIGNWRITING HAND-HINGE THUMB BETWEEN MIDDLE RING", aliases: &[] },
        Codepoint { codepoint: 0x1D885, name: "SIGNWRITING HAND-ANGLE", aliases: &[] },
        Codepoint { codepoint: 0x1D886, name: "SIGNWRITING HAND-FIST INDEX MIDDLE RING", aliases: &[] },
        Codepoint { codepoint: 0x1D887, name: "SIGNWRITING HAND-CIRCLE INDEX MIDDLE RING", aliases: &[] },
        Codepoint { codepoint: 0x1D888, name: "SIGNWRITING HAND-HINGE INDEX MIDDLE RING", aliases: &[] },
    ];
    assert(v@ =~= codepoint_table_745());
    v
}

pub open spec fn codepoint_table_746() -> Seq<Codepoint> {
    seq![
        Codepoint { codepoint: 0x1D889, name: "SIGNWRITING HAND-ANGLE INDEX MIDDLE RING", aliases: &[] },
        Codepoint { codepoint: 0x1D88A, name: "SIGNWRITING HAND-HINGE LITTLE", aliases: &[] },
        Codepoint { codepoint: 0x1D88B, name: "SIGNWRITING HAND-FIST INDEX MIDDLE RING BENT", aliases: &[] },
        Codepoint { codepoint: 0x1D88C, name: "SIGNWRITING HAND-FIST INDEX MIDDLE RING CONJOINED", aliases: &[] },
        Codepoint { codepoint: 0x1D88D, name: "SIGNWRITING HAND-HINGE INDEX MIDDLE RING CONJOINED", aliases: &[] },
        Codepoint { codepoint: 0x1D88E, name: "SIGNWRITING HAND-FIST LITTLE DOWN", aliases: &[] },
        Codepoint { codepoint: 0x1D88F, name: "SIGNWRITING HAND-FIST LITTLE DOWN RIPPLE STRAIGHT", aliases: &[] },
        Codepoint { codepoint: 0x1D890, name: "SIGNWRITING HAND-FIST LITTLE DOWN RIPPLE CURVED", aliases: &[] },
        Codepoint { codepoint: 0x1D891, name: "SIGNWRITING HAND-FIST LITTLE DOWN OTHERS CIRCLED", aliases: &[] },
        Codepoint { codepoint: 0x1D892, name: "SIGNWRITING HAND-FIST LITTLE UP", aliases: &[] },
        Codepoint { codepoint: 0x1D893, name: "SIGNWRITING HAND-FIST THUMB UNDER LITTLE UP", aliases: &[] },
        Codepoint { codepoint: 0x1D894, name: "SIGNWRITING HAND-CIRCLE LITTLE UP", aliases: &[] },
        Codepoint { codepoint: 0x1D895, name: "SIGNWRITING HAND-OVAL LITTLE UP", aliases: &[] },
        Codepoint { codepoint: 0x1D896, name: "SIGNWRITING HAND-ANGLE LITTLE UP", aliases: &[] },
        Codepoint { codepoint: 0x1D897, name: "SIGNWRITING HAND-FIST LITTLE RAISED KNUCKLE", aliases: &[] },
        Codepoint { codepoint: 0x1D898, name: "SIGNWRITING HAND-FIST LITTLE BENT", aliases: &[] },
        Codepoint { codepoint: 0x1D899, name: "SIGNWRITING HAND-FIST LITTLE TOUCHES THUMB", aliases: &[] },
        Codepoint { codepoint: 0x1D89A, name: "SIGNWRITING HAND-FIST LITTLE THUMB", aliases: &[] },
        Codepoint { codepoint: 0x1D89B, name: "SIGNWRITING HAND-HINGE LITTLE THUMB", aliases: &[] },
        Codepoint { codepoint: 0x1D89C, name: "SIGNWRITING HAND-FIST LITTLE INDEX THUMB", aliases: &[] },
        Codepoint { codepoint: 0x1D89D, name: "SIGNWRITING HAND-HINGE LITTLE INDEX THUMB", aliases: &[] },
        Codepoint { codepoint: 0x1D89E, name: "SIGNWRITING HAND-ANGLE LITTLE INDEX THUMB INDEX THUMB OUT", aliases: &[] },
        Codepoint { codepoint: 0x1D89F, name: "SIGNWRITING HAND-ANGLE LITTLE INDEX THUMB INDEX THUMB", aliases: &[] },
        Codepoint { codepoint: 0x1D8A0, name: "SIGNWRITING HAND-FIST LITTLE INDEX", aliases: &[] },
        Codepoint { codepoint: 0x1D8A1, name: "SIGNWRITING HAND-CIRCLE LITTLE INDEX", aliases: &[] },
        Codepoint { codepoint: 0x1D8A2, name: "SIGNWRITING HAND-HINGE LITTLE INDEX", aliases: &[] },
        Codepoint { codepoint: 0x1D8A3, name: "SIGNWRITING HAND-ANGLE LITTLE INDEX", aliases: &[] },
        Codepoint { codepoint: 0x1D8A4, name: "SIGNWRITING HAND-FIST INDEX MIDDLE LITTLE", aliases: &[] },
        Codepoint { codepoint: 0x1D8A5, name: "SIGNWRITING HAND-CIRCLE INDEX MIDDLE LITTLE", aliases: &[] },
        Codepoint { codepoint: 0x1D8A6, name: "SIGNWRITING HAND-HINGE INDEX MIDDLE LITTLE", aliases: &[] },
        Codepoint { codepoint: 0x1D8A7, name: "SIGNWRITING HAND-HINGE RING", aliases: &[] },
        Codepoint { codepoint: 0x1D8A8, name: "SIGNWRITING HAND-ANGLE INDEX MIDDLE LITTLE", aliases: &[] },
        Codepoint { codepoint: 0x1D8A9, name: "SIGNWRITING HAND-FIST INDEX MIDDLE CROSS LITTLE", aliases: &[] },
        Codepoint { codepoint: 0x1D8AA, name: "SIGNWRITING HAND-CIRCLE INDEX MIDDLE CROSS LITTLE", aliases: &[] },
        Codepoint { codepoint: 0x1D8AB, name: "SIGNWRITING HAND-FIST RING DOWN", aliases: &[] },
        Codepoint { codepoint: 0x1D8AC, name: "SIGNWRITING HAND-HINGE RING DOWN INDEX THUMB HOOK MIDDLE", aliases: &[] },
        Codepoint { codepoint: 0x1D8AD, name: "SIGNWRITING HAND-ANGLE RING DOWN MIDDLE THUMB INDEX CROSS", aliases: &[] },
        Codepoint { codepoint: 0x1D8AE, name: "SIGNWRITING HAND-FIST RING UP", aliases: &[] },
        Codepoint { codepoint: 0x1D8AF, name: "SIGNWRITING HAND-FIST RING RAISED KNUCKLE", aliases: &[] },
        Codepoint { codepoint: 0x1D8B0, name: "SIGNWRITING HAND-FIST RING LITTLE", aliases: &[] },
    ]
}

fn all_codepoints_746() -> (v: Vec<Codepoint>)
    ensures
        v@ == codepoint_table_746(),
{
    let v = vec![
        Codepoint { codepoint: 0x1D889, name: "SIGNWRITING HAND-ANGLE INDEX MIDDLE RING", aliases: &[] },
        Codepoint { codepoint: 0x1D88A, name: "SIGNWRITING HAND-HINGE LITTLE", aliases: &[] },
        Codepoint { codepoint: 0x1D88B, name: "SIGNWRITING HAND-FIST INDEX MIDDLE RING BENT", aliases: &[] },
        Codepoint { codepoint: 0x1D88C, name: "SIGNWRITING HAND-FIST INDEX MIDDLE RING CONJOINED", aliases: &[] },
        Codepoint { codepoint: 0x1D88D, name: "SIGNWRITING HAND-HINGE INDEX MIDDLE RING CONJOINED", aliases: &[] },
        Codepoint { codepoint: 0x1D88E, name: "SIGNWRITING HAND-FIST LITTLE DOWN", aliases: &[] },
        Codepoint { codepoint: 0x1D88F, name: "SIGNWRITING HAND-FIST LITTLE DOWN RIPPLE STRAIGHT", aliases: &[] },
        Codepoint { codepoint: 0x1D890, name: "SIGNWRITING HAND-FIST LITTLE DOWN RIPPLE CURVED", aliases: &[] },
        Codepoint { codepoint: 0x1D891, name: "SIGNWRITING HAND-FIST LITTLE DOWN OTHERS CIRCLED", aliases: &[] },
        Codepoint { codepoint: 0x1D892, name: "SIGNWRITING HAND-FIST LITTLE UP", aliases: &[] },
        Codepoint { codepoint: 0x1D893, name: "SIGNWRITING HAND-FIST THUMB UNDER LITTLE UP", aliases: &[] },
        Codepoint { codepoint: 0x1D894, name: "SIGNWRITING HAND-CIRCLE LITTLE UP", aliases: &[] },
        Codepoint { codepoint: 0x1D895, name: "SIGNWRITING HAND-OVAL LITTLE UP", aliases: &[] },
        Codepoint { codepoint: 0x1D896, name: "SIGNWRITING HAND-ANGLE LITTLE UP", aliases: &[] },
        Codepoint { codepoint: 0x1D897, name: "SIGNWRITING HAND-FIST LITTLE RAISED KNUCKLE", aliases: &[] },
        Codepoint { codepoint: 0x1D898, name: "SIGNWRITING HAND-FIST LITTLE BENT", aliases: &[] },
        Codepoint { codepoint: 0x1D899, name: "SIGNWRITING HAND-FIST LITTLE TOUCHES THUMB", aliases: &[] },
        Codepoint { codepoint: 0x1D89A, name: "SIGNWRITING HAND-FIST LITTLE THUMB", aliases: &[] },
        Codepoint { codepoint: 0x1D89B, name: "SIGNWRITING HAND-HINGE LITTLE THUMB", aliases: &[] },
        Codepoint { codepoint: 0x1D89C, name: "SIGNWRITING HAND-FIST LITTLE INDEX THUMB", aliases: &[] },
        Codepoint { codepoint: 0x1D89D, name: "SIGNWRITING HAND-HINGE LITTLE INDEX THUMB", aliases: &[] },
        Codepoint { codepoint: 0x1D89E, name: "SIGNWRITING HAND-ANGLE LITTLE INDEX THUMB INDEX THUMB OUT", aliases: &[] },
        Codepoint { codepoint: 0x1D89F, name: "SIGNWRITING HAND-ANGLE LITTLE INDEX THUMB INDEX THUMB", aliases: &[] },
        Codepoint { codepoint: 0x1D8A0, name: "SIGNWRITING HAND-FIST LITTLE INDEX", aliases: &[] },
        Codepoint { codepoint: 0x1D8A1, name: "SIGNWRITING HAND-CIRCLE LITTLE INDEX", aliases: &[] },
        Codepoint { codepoint: 0x1D8A2, name: "SIGNWRITING HAND-HINGE LITTLE INDEX", aliases: &[] },
        Codepoint { codepoint: 0x1D8A3, name: "SIGNWRITING HAND-ANGLE LITTLE INDEX", aliases: &[] },
        Codepoint { codepoint: 0x1D8A4, name: "SIGNWRITING HAND-FIST INDEX MIDDLE LITTLE", aliases: &[] },
        Codepoint { codepoint: 0x1D8A5, name: "SIGNWRITING HAND-CIRCLE INDEX MIDDLE LITTLE", aliases: &[] },
        Codepoint { codepoint: 0x1D8A6, name: "SIGNWRITING HAND-HINGE INDEX MIDDLE LITTLE", aliases: &[] },
        Codepoint { codepoint: 0x1D8A7, name: "SIGNWRITING HAND-HINGE RING", aliases: &[] },
        Codepoint { codepoint: 0x1D8A8, name: "SIGNWRITING HAND-ANGLE INDEX MIDDLE LITTLE", aliases: &[] },
        Codepoint { codepoint: 0x1D8A9, name: "SIGNWRITING HAND-FIST INDEX MIDDLE CROSS LITTLE", aliases: &[] },
        Codepoint { codepoint: 0x1D8AA, name: "SIGNWRITING HAND-CIRCLE INDEX MIDDLE CROSS LITTLE", aliases: &[] },
        Codepoint { codepoint: 0x1D8AB, name: "SIGNWRITING HAND-FIST RING DOWN", aliases: &[] },
        Codepoint { codepoint: 0x1D8AC, name: "SIGNWRITING HAND-HINGE RING DOWN INDEX THUMB HOOK MIDDLE", aliases: &[] },
        Codepoint { codepoint: 0x1D8AD, name: "SIGNWRITING HAND-ANGLE RING DOWN MIDDLE THUMB INDEX CROSS", aliases: &[] },
        Codepoint { codepoint: 0x1D8AE, name: "SIGNWRITING HAND-FIST RING UP", aliases: &[] },
        Codepoint { codepoint: 0x1D8AF, name: "SIGNWRITING HAND-FIST RING RAISED KNUCKLE", aliases: &[] },
        Codepoint { codepoint: 0x1D8B0, name: "SIGNWRITING HAND-FIST RING LITTLE", aliases: &[] },
    ];
    assert(v@ =~= codepoint_table_746());
    v
}

pub open spec fn codepoint_table_747() -> Seq<Codepoint> {
    seq![
        Codepoint { codepoint: 0x1D8B1, name: "SIGNWRITING HAND-CIRCLE RING LITTLE", aliases: &[] },
        Codepoint { codepoint: 0x1D8B2, name: "SIGNWRITING HAND-OVAL RING LITTLE", aliases: &[] },
        Codepoint { codepoint: 0x1D8B3, name: "SIGNWRITING HAND-ANGLE RING LITTLE", aliases: &[] },
        Codepoint { codepoint: 0x1D8B4, name: "SIGNWRITING HAND-FIST RING MIDDLE", aliases: &[] },
        Codepoint { codepoint: 0x1D8B5, name: "SIGNWRITING HAND-FIST RING MIDDLE CONJOINED", aliases: &[] },
        Codepoint { codepoint: 0x1D8B6, name: "SIGNWRITING HAND-FIST RING MIDDLE RAISED KNUCKLES", aliases: &[] },
        Codepoint { codepoint: 0x1D8B7, name: "SIGNWRITING HAND-FIST RING INDEX", aliases: &[] },
        Codepoint { codepoint: 0x1D8B8, name: "SIGNWRITING HAND-FIST RING THUMB", aliases: &[] },
        Codepoint { codepoint: 0x1D8B9, name: "SIGNWRITING HAND-HOOK RING THUMB", aliases: &[] },
        Codepoint { codepoint: 0x1D8BA, name: "SIGNWRITING HAND-FIST INDEX RING LITTLE", aliases: &[] },
        Codepoint { codepoint: 0x1D8BB, name: "SIGNWRITING HAND-CIRCLE INDEX RING LITTLE", aliases: &[] },
        Codepoint { codepoint: 0x1D8BC, name: "SIGNWRITING HAND-CURLICUE INDEX RING LITTLE ON", aliases: &[] },
        Codepoint { codepoint: 0x1D8BD, name: "SIGNWRITING HAND-HOOK INDEX RING LITTLE OUT", aliases: &[] },
        Codepoint { codepoint: 0x1D8BE, name: "SIGNWRITING HAND-HOOK INDEX RING LITTLE IN", aliases: &[] },
        Codepoint { codepoint: 0x1D8BF, name: "SIGNWRITING HAND-HOOK INDEX RING LITTLE UNDER", aliases: &[] },
        Codepoint { codepoint: 0x1D8C0, name: "SIGNWRITING HAND-CUP INDEX RING LITTLE", aliases: &[] },
        Codepoint { codepoint: 0x1D8C1, name: "SIGNWRITING HAND-HINGE INDEX RING LITTLE", aliases: &[] },
        Codepoint { codepoint: 0x1D8C2, name: "SIGNWRITING HAND-ANGLE INDEX RING LITTLE OUT", aliases: &[] },
        Codepoint { codepoint: 0x1D8C3, name: "SIGNWRITING HAND-ANGLE INDEX RING LITTLE", aliases: &[] },
        Codepoint { codepoint: 0x1D8C4, name: "SIGNWRITING HAND-FIST MIDDLE DOWN", aliases: &[] },
        Codepoint { codepoint: 0x1D8C5, name: "SIGNWRITING HAND-HINGE MIDDLE", aliases: &[] },
        Codepoint { codepoint: 0x1D8C6, name: "SIGNWRITING HAND-FIST MIDDLE UP", aliases: &[] },
        Codepoint { codepoint: 0x1D8C7, name: "SIGNWRITING HAND-CIRCLE MIDDLE UP", aliases: &[] },
        Codepoint { codepoint: 0x1D8C8, name: "SIGNWRITING HAND-FIST MIDDLE RAISED KNUCKLE", aliases: &[] },
        Codepoint { codepoint: 0x1D8C9, name: "SIGNWRITING HAND-FIST MIDDLE UP THUMB SIDE", aliases: &[] },
        Codepoint { codepoint: 0x1D8CA, name: "SIGNWRITING HAND-HOOK MIDDLE THUMB", aliases: &[] },
        Codepoint { codepoint: 0x1D8CB, name: "SIGNWRITING HAND-FIST MIDDLE THUMB LITTLE", aliases: &[] },
        Codepoint { codepoint: 0x1D8CC, name: "SIGNWRITING HAND-FIST MIDDLE LITTLE", aliases: &[] },
        Codepoint { codepoint: 0x1D8CD, name: "SIGNWRITING HAND-FIST MIDDLE RING LITTLE", aliases: &[] },
        Codepoint { codepoint: 0x1D8CE, name: "SIGNWRITING HAND-CIRCLE MIDDLE RING LITTLE", aliases: &[] },
        Codepoint { codepoint: 0x1D8CF, name: "SIGNWRITING HAND-CURLICUE MIDDLE RING LITTLE ON", aliases: &[] },
        Codepoint { codepoint: 0x1D8D0, name: "SIGNWRITING HAND-CUP MIDDLE RING LITTLE", aliases: &[] },
        Codepoint { codepoint: 0x1D8D1, name: "SIGNWRITING HAND-HINGE MIDDLE RING LITTLE", aliases: &[] },
        Codepoint { codepoint: 0x1D8D2, name: "SIGNWRITING HAND-ANGLE MIDDLE RING LITTLE OUT", aliases: &[] },
        Codepoint { codepoint: 0x1D8D3, name: "SIGNWRITING HAND-ANGLE MIDDLE RING LITTLE IN", aliases: &[] },
        Codepoint { codepoint: 0x1D8D4, name: "SIGNWRITING HAND-ANGLE MIDDLE RING LITTLE", aliases: &[] },
        Codepoint { codepoint: 0x1D8D5, name: "SIGNWRITING HAND-CIRCLE MIDDLE RING LITTLE BENT", aliases: &[] },
        Codepoint { codepoint: 0x1D8D6, name: "SIGNWRITING HAND-CLAW MIDDLE RING LITTLE CONJOINED", aliases: &[] },
        Codepoint { codepoint: 0x1D8D7, name: "SIGNWRITING HAND-CLAW MIDDLE RING LITTLE CONJOINED SIDE", aliases: &[] },
        Codepoint { codepoint: 0x1D8D8, name: "SIGNWRITING HAND-HOOK MIDDLE RING LITTLE CONJOINED OUT", aliases: &[] },
    ]
}

fn all_codepoints_747() -> (v: Vec<Codepoint>)
    ensures
        v@ == codepoint_table_747(),
{
    let v = vec![
        Codepoint { codepoint: 0x1D8B1, name: "SIGNWRITING HAND-CIRCLE RING LITTLE", aliases: &[] },
        Codepoint { codepoint: 0x1D8B2, name: "SIGNWRITING HAND-OVAL RING LITTLE", aliases: &[] },
        Codepoint { codepoint: 0x1D8B3, name: "SIGNWRITING HAND-ANGLE RING LITTLE", aliases: &[] },
        Codepoint { codepoint: 0x1D8B4, name: "SIGNWRITING HAND-FIST RING MIDDLE", aliases: &[] },
        Codepoint { codepoint: 0x1D8B5, name: "SIGNWRITING HAND-FIST RING MIDDLE CONJOINED", aliases: &[] },
        Codepoint { codepoint: 0x1D8B6, name: "SIGNWRITING HAND-FIST RING MIDDLE RAISED KNUCKLES", aliases: &[] },
        Codepoint { codepoint: 0x1D8B7, name: "SIGNWRITING HAND-FIST RING INDEX", aliases: &[] },
        Codepoint { codepoint: 0x1D8B8, name: "SIGNWRITING HAND-FIST RING THUMB", aliases: &[] },
        Codepoint { codepoint: 0x1D8B9, name: "SIGNWRITING HAND-HOOK RING THUMB", aliases: &[] },
        Codepoint { codepoint: 0x1D8BA, name: "SIGNWRITING HAND-FIST INDEX RING LITTLE", aliases: &[] },
        Codepoint { codepoint: 0x1D8BB, name: "SIGNWRITING HAND-CIRCLE INDEX RING LITTLE", aliases: &[] },
        Codepoint { codepoint: 0x1D8BC, name: "SIGNWRITING HAND-CURLICUE INDEX RING LITTLE ON", aliases: &[] },
        Codepoint { codepoint: 0x1D8BD, name: "SIGNWRITING HAND-HOOK INDEX RING LITTLE OUT", aliases: &[] },
        Codepoint { codepoint: 0x1D8BE, name: "SIGNWRITING HAND-HOOK INDEX RING LITTLE IN", aliases: &[] },
        Codepoint { codepoint: 0x1D8BF, name: "SIGNWRITING HAND-HOOK INDEX RING LITTLE UNDER", aliases: &[] },
        Codepoint { codepoint: 0x1D8C0, name: "SIGNWRITING HAND-CUP INDEX RING LITTLE", aliases: &[] },
        Codepoint { codepoint: 0x1D8C1, name: "SIGNWRITING HAND-HINGE INDEX RING LITTLE", aliases: &[] },
        Codepoint { codepoint: 0x1D8C2, name: "SIGNWRITING HAND-ANGLE INDEX RING LITTLE OUT", aliases: &[] },
        Codepoint { codepoint: 0x1D8C3, name: "SIGNWRITING HAND-ANGLE INDEX RING LITTLE", aliases: &[] },
        Codepoint { codepoint: 0x1D8C4, name: "SIGNWRITING HAND-FIST MIDDLE DOWN", aliases: &[] },
        Codepoint { codepoint: 0x1D8C5, name: "SIGNWRITING HAND-HINGE MIDDLE", aliases: &[] },
        Codepoint { codepoint: 0x1D8C6, name: "SIGNWRITING HAND-FIST MIDDLE UP", aliases: &[] },
        Codepoint { codepoint: 0x1D8C7, name: "SIGNWRITING HAND-CIRCLE MIDDLE UP", aliases: &[] },
        Codepoint { codepoint: 0x1D8C8, name: "SIGNWRITING HAND-FIST MIDDLE RAISED KNUCKLE", aliases: &[] },
        Codepoint { codepoint: 0x1D8C9, name: "SIGNWRITING HAND-FIST MIDDLE UP THUMB SIDE", aliases: &[] },
        Codepoint { codepoint: 0x1D8CA, name: "SIGNWRITING HAND-HOOK MIDDLE THUMB", aliases: &[] },
        Codepoint { codepoint: 0x1D8CB, name: "SIGNWRITING HAND-FIST MIDDLE THUMB LITTLE", aliases: &[] },
        Codepoint { codepoint: 0x1D8CC, name: "SIGNWRITING HAND-FIST MIDDLE LITTLE", aliases: &[] },
        Codepoint { codepoint: 0x1D8CD, name: "SIGNWRITING HAND-FIST MIDDLE RING LITTLE", aliases: &[] },
        Codepoint { codepoint: 0x1D8CE, name: "SIGNWRITING HAND-CIRCLE MIDDLE RING LITTLE", aliases: &[] },
        Codepoint { codepoint: 0x1D8CF, name: "SIGNWRITING HAND-CURLICUE MIDDLE RING LITTLE ON", aliases: &[] },
        Codepoint { codepoint: 0x1D8D0, name: "SIGNWRITING HAND-CUP MIDDLE RING LITTLE", aliases: &[] },
        Codepoint { codepoint: 0x1D8D1, name: "SIGNWRITING HAND-HINGE MIDDLE RING LITTLE", aliases: &[] },
        Codepoint { codepoint: 0x1D8D2, name: "SIGNWRITING HAND-ANGLE MIDDLE RING LITTLE OUT", aliases: &[] },
        Codepoint { codepoint: 0x1D8D3, name: "SIGNWRITING HAND-ANGLE MIDDLE RING LITTLE IN", aliases: &[] },
        Codepoint { codepoint: 0x1D8D4, name: "SIGNWRITING HAND-ANGLE MIDDLE RING LITTLE", aliases: &[] },
        Codepoint { codepoint: 0x1D8D5, name: "SIGNWRITING HAND-CIRCLE MIDDLE RING LITTLE BENT", aliases: &[] },
        Codepoint { codepoint: 0x1D8D6, name: "SIGNWRITING HAND-CLAW MIDDLE RING LITTLE CONJOINED", aliases: &[] },
        Codepoint { codepoint: 0x1D8D7, name: "SIGNWRITING HAND-CLAW MIDDLE RING LITTLE CONJOINED SIDE", aliases: &[] },
        Codepoint { codepoint: 0x1D8D8, name: "SIGNWRITING HAND-HOOK MIDDLE RING LITTLE CONJOINED OUT", aliases: &[] },
    ];
    assert(v@ =~= codepoint_table_747());
    v
}

pub open spec fn codepoint_table_748() -> Seq<Codepoint> {
    seq![
        Codepoint { codepoint: 0x1D8D9, name: "SIGNWRITING HAND-HOOK MIDDLE RING LITTLE CONJOINED IN", aliases: &[] },
        Codepoint { codepoint: 0x1D8DA, name: "SIGNWRITING HAND-HOOK MIDDLE RING LITTLE CONJOINED", aliases: &[] },
        Codepoint { codepoint: 0x1D8DB, name: "SIGNWRITING HAND-HINGE INDEX HINGED", aliases: &[] },
        Codepoint { codepoint: 0x1D8DC, name: "SIGNWRITING HAND-FIST INDEX THUMB SIDE", aliases: &[] },
        Codepoint { codepoint: 0x1D8DD, name: "SIGNWRITING HAND-HINGE INDEX THUMB SIDE", aliases: &[] },
        Codepoint { codepoint: 0x1D8DE, name: "SIGNWRITING HAND-FIST INDEX THUMB SIDE THUMB DIAGONAL", aliases: &[] },
        Codepoint { codepoint: 0x1D8DF, name: "SIGNWRITING HAND-FIST INDEX THUMB SIDE THUMB CONJOINED", aliases: &[] },
        Codepoint { codepoint: 0x1D8E0, name: "SIGNWRITING HAND-FIST INDEX THUMB SIDE THUMB BENT", aliases: &[] },
        Codepoint { codepoint: 0x1D8E1, name: "SIGNWRITING HAND-FIST INDEX THUMB SIDE INDEX BENT", aliases: &[] },
        Codepoint { codepoint: 0x1D8E2, name: "SIGNWRITING HAND-FIST INDEX THUMB SIDE BOTH BENT", aliases: &[] },
        Codepoint { codepoint: 0x1D8E3, name: "SIGNWRITING HAND-FIST INDEX THUMB SIDE INDEX HINGE", aliases: &[] },
        Codepoint { codepoint: 0x1D8E4, name: "SIGNWRITING HAND-FIST INDEX THUMB FORWARD INDEX STRAIGHT", aliases: &[] },
        Codepoint { codepoint: 0x1D8E5, name: "SIGNWRITING HAND-FIST INDEX THUMB FORWARD INDEX BENT", aliases: &[] },
        Codepoint { codepoint: 0x1D8E6, name: "SIGNWRITING HAND-FIST INDEX THUMB HOOK", aliases: &[] },
        Codepoint { codepoint: 0x1D8E7, name: "SIGNWRITING HAND-FIST INDEX THUMB CURLICUE", aliases: &[] },
        Codepoint { codepoint: 0x1D8E8, name: "SIGNWRITING HAND-FIST INDEX THUMB CURVE THUMB INSIDE", aliases: &[] },
        Codepoint { codepoint: 0x1D8E9, name: "SIGNWRITING HAND-CLAW INDEX THUMB CURVE THUMB INSIDE", aliases: &[] },
        Codepoint { codepoint: 0x1D8EA, name: "SIGNWRITING HAND-FIST INDEX THUMB CURVE THUMB UNDER", aliases: &[] },
        Codepoint { codepoint: 0x1D8EB, name: "SIGNWRITING HAND-FIST INDEX THUMB CIRCLE", aliases: &[] },
        Codepoint { codepoint: 0x1D8EC, name: "SIGNWRITING HAND-CUP INDEX THUMB", aliases: &[] },
        Codepoint { codepoint: 0x1D8ED, name: "SIGNWRITING HAND-CUP INDEX THUMB OPEN", aliases: &[] },
        Codepoint { codepoint: 0x1D8EE, name: "SIGNWRITING HAND-HINGE INDEX THUMB OPEN", aliases: &[] },
        Codepoint { codepoint: 0x1D8EF, name: "SIGNWRITING HAND-HINGE INDEX THUMB LARGE", aliases: &[] },
        Codepoint { codepoint: 0x1D8F0, name: "SIGNWRITING HAND-HINGE INDEX THUMB", aliases: &[] },
        Codepoint { codepoint: 0x1D8F1, name: "SIGNWRITING HAND-HINGE INDEX THUMB SMALL", aliases: &[] },
        Codepoint { codepoint: 0x1D8F2, name: "SIGNWRITING HAND-ANGLE INDEX THUMB OUT", aliases: &[] },
        Codepoint { codepoint: 0x1D8F3, name: "SIGNWRITING HAND-ANGLE INDEX THUMB IN", aliases: &[] },
        Codepoint { codepoint: 0x1D8F4, name: "SIGNWRITING HAND-ANGLE INDEX THUMB", aliases: &[] },
        Codepoint { codepoint: 0x1D8F5, name: "SIGNWRITING HAND-FIST THUMB", aliases: &[] },
        Codepoint { codepoint: 0x1D8F6, name: "SIGNWRITING HAND-FIST THUMB HEEL", aliases: &[] },
        Codepoint { codepoint: 0x1D8F7, name: "SIGNWRITING HAND-FIST THUMB SIDE DIAGONAL", aliases: &[] },
        Codepoint { codepoint: 0x1D8F8, name: "SIGNWRITING HAND-FIST THUMB SIDE CONJOINED", aliases: &[] },
        Codepoint { codepoint: 0x1D8F9, name: "SIGNWRITING HAND-FIST THUMB SIDE BENT", aliases: &[] },
        Codepoint { codepoint: 0x1D8FA, name: "SIGNWRITING HAND-FIST THUMB FORWARD", aliases: &[] },
        Codepoint { codepoint: 0x1D8FB, name: "SIGNWRITING HAND-FIST THUMB BETWEEN INDEX MIDDLE", aliases: &[] },
        Codepoint { codepoint: 0x1D8FC, name: "SIGNWRITING HAND-FIST THUMB BETWEEN MIDDLE RING", aliases: &[] },
        Codepoint { codepoint: 0x1D8FD, name: "SIGNWRITING HAND-FIST THUMB BETWEEN RING LITTLE", aliases: &[] },
        Codepoint { codepoint: 0x1D8FE, name: "SIGNWRITING HAND-FIST THUMB UNDER TWO FINGERS", aliases: &[] },
        Codepoint { codepoint: 0x1D8FF, name: "SIGNWRITING HAND-FIST THUMB OVER TWO FINGERS", aliases: &[] },
        Codepoint { codepoint: 0x1D900, name: "SIGNWRITING HAND-FIST THUMB UNDER THREE FINGERS", aliases: &[] },
    ]
}

fn all_codepoints_748() -> (v: Vec<Codepoint>)
    ensures
        v@ == codepoint_table_748(),
{
    let v = vec![
        Codepoint { codepoint: 0x1D8D9, name: "SIGNWRITING HAND-HOOK MIDDLE RING LITTLE CONJOINED IN", aliases: &[] },
        Codepoint { codepoint: 0x1D8DA, name: "SIGNWRITING HAND-HOOK MIDDLE RING LITTLE CONJOINED", aliases: &[] },
        Codepoint { codepoint: 0x1D8DB, name: "SIGNWRITING HAND-HINGE INDEX HINGED", aliases: &[] },
        Codepoint { codepoint: 0x1D8DC, name: "SIGNWRITING HAND-FIST INDEX THUMB SIDE", aliases: &[] },
        Codepoint { codepoint: 0x1D8DD, name: "SIGNWRITING HAND-HINGE INDEX THUMB SIDE", aliases: &[] },
        Codepoint { codepoint: 0x1D8DE, name: "SIGNWRITING HAND-FIST INDEX THUMB SIDE THUMB DIAGONAL", aliases: &[] },
        Codepoint { codepoint: 0x1D8DF, name: "SIGNWRITING HAND-FIST INDEX THUMB SIDE THUMB CONJOINED", aliases: &[] },
        Codepoint { codepoint: 0x1D8E0, name: "SIGNWRITING HAND-FIST INDEX THUMB SIDE THUMB BENT", aliases: &[] },
        Codepoint { codepoint: 0x1D8E1, name: "SIGNWRITING HAND-FIST INDEX THUMB SIDE INDEX BENT", aliases: &[] },
        Codepoint { codepoint: 0x1D8E2, name: "SIGNWRITING HAND-FIST INDEX THUMB SIDE BOTH BENT", aliases: &[] },
        Codepoint { codepoint: 0x1D8E3, name: "SIGNWRITING HAND-FIST INDEX THUMB SIDE INDEX HINGE", aliases: &[] },
        Codepoint { codepoint: 0x1D8E4, name: "SIGNWRITING HAND-FIST INDEX THUMB FORWARD INDEX STRAIGHT", aliases: &[] },
        Codepoint { codepoint: 0x1D8E5, name: "SIGNWRITING HAND-FIST INDEX THUMB FORWARD INDEX BENT", aliases: &[] },
        Codepoint { codepoint: 0x1D8E6, name: "SIGNWRITING HAND-FIST INDEX THUMB HOOK", aliases: &[] },
        Codepoint { codepoint: 0x1D8E7, name: "SIGNWRITING HAND-FIST INDEX THUMB CURLICUE", aliases: &[] },
        Codepoint { codepoint: 0x1D8E8, name: "SIGNWRITING HAND-FIST INDEX THUMB CURVE THUMB INSIDE", aliases: &[] },
        Codepoint { codepoint: 0x1D8E9, name: "SIGNWRITING HAND-CLAW INDEX THUMB CURVE THUMB INSIDE", aliases: &[] },
        Codepoint { codepoint: 0x1D8EA, name: "SIGNWRITING HAND-FIST INDEX THUMB CURVE THUMB UNDER", aliases: &[] },
        Codepoint { codepoint: 0x1D8EB, name: "SIGNWRITING HAND-FIST INDEX THUMB CIRCLE", aliases: &[] },
        Codepoint { codepoint: 0x1D8EC, name: "SIGNWRITING HAND-CUP INDEX THUMB", aliases: &[] },
        Codepoint { codepoint: 0x1D8ED, name: "SIGNWRITING HAND-CUP INDEX THUMB OPEN", aliases: &[] },
        Codepoint { codepoint: 0x1D8EE, name: "SIGNWRITING HAND-HINGE INDEX THUMB OPEN", aliases: &[] },
        Codepoint { codepoint: 0x1D8EF, name: "SIGNWRITING HAND-HINGE INDEX THUMB LARGE", aliases: &[] },
        Codepoint { codepoint: 0x1D8F0, name: "SIGNWRITING HAND-HINGE INDEX THUMB", aliases: &[] },
        Codepoint { codepoint: 0x1D8F1, name: "SIGNWRITING HAND-HINGE INDEX THUMB SMALL", aliases: &[] },
        Codepoint { codepoint: 0x1D8F2, name: "SIGNWRITING HAND-ANGLE INDEX THUMB OUT", aliases: &[] },
        Codepoint { codepoint: 0x1D8F3, name: "SIGNWRITING HAND-ANGLE INDEX THUMB IN", aliases: &[] },
        Codepoint { codepoint: 0x1D8F4, name: "SIGNWRITING HAND-ANGLE INDEX THUMB", aliases: &[] },
        Codepoint { codepoint: 0x1D8F5, name: "SIGNWRITING HAND-FIST THUMB", aliases: &[] },
        Codepoint { codepoint: 0x1D8F6, name: "SIGNWRITING HAND-FIST THUMB HEEL", aliases: &[] },
        Codepoint { codepoint: 0x1D8F7, name: "SIGNWRITING HAND-FIST THUMB SIDE DIAGONAL", aliases: &[] },
        Codepoint { codepoint: 0x1D8F8, name: "SIGNWRITING HAND-FIST THUMB SIDE CONJOINED", aliases: &[] },
        Codepoint { codepoint: 0x1D8F9, name: "SIGNWRITING HAND-FIST THUMB SIDE BENT", aliases: &[] },
        Codepoint { codepoint: 0x1D8FA, name: "SIGNWRITING HAND-FIST THUMB FORWARD", aliases: &[] },
        Codepoint { codepoint: 0x1D8FB, name: "SIGNWRITING HAND-FIST THUMB BETWEEN INDEX MIDDLE", aliases: &[] },
        Codepoint { codepoint: 0x1D8FC, name: "SIGNWRITING HAND-FIST THUMB BETWEEN MIDDLE RING", aliases: &[] },
        Codepoint { codepoint: 0x1D8FD, name: "SIGNWRITING HAND-FIST THUMB BETWEEN RING LITTLE", aliases: &[] },
        Codepoint { codepoint: 0x1D8FE, name: "SIGNWRITING HAND-FIST THUMB UNDER TWO FINGERS", aliases: &[] },
        Codepoint { codepoint: 0x1D8FF, name: "SIGNWRITING HAND-FIST THUMB OVER TWO FINGERS", aliases: &[] },
        Codepoint { codepoint: 0x1D900, name: "SIGNWRITING HAND-FIST THUMB UNDER THREE FINGERS", aliases: &[] },
    ];
    assert(v@ =~= codepoint_table_748());
    v
}

pub open spec fn codepoint_table_749() -> Seq<Codepoint> {
    seq![
        Codepoint { codepoint: 0x1D901, name: "SIGNWRITING HAND-FIST THUMB UNDER FOUR FINGERS", aliases: &[] },
        Codepoint { codepoint: 0x1D902, name: "SIGNWRITING HAND-FIST THUMB OVER FOUR RAISED KNUCKLES", aliases: &[] },
        Codepoint { codepoint: 0x1D903, name: "SIGNWRITING HAND-FIST", aliases: &[] },
        Codepoint { codepoint: 0x1D904, name: "SIGNWRITING HAND-FIST HEEL", aliases: &[] },
        Codepoint { codepoint: 0x1D905, name: "SIGNWRITING TOUCH SINGLE", aliases: &[] },
        Codepoint { codepoint: 0x1D906, name: "SIGNWRITING TOUCH MULTIPLE", aliases: &[] },
        Codepoint { codepoint: 0x1D907, name: "SIGNWRITING TOUCH BETWEEN", aliases: &[] },
        Codepoint { codepoint: 0x1D908, name: "SIGNWRITING GRASP SINGLE", aliases: &[] },
        Codepoint { codepoint: 0x1D909, name: "SIGNWRITING GRASP MULTIPLE", aliases: &[] },
        Codepoint { codepoint: 0x1D90A, name: "SIGNWRITING GRASP BETWEEN", aliases: &[] },
        Codepoint { codepoint: 0x1D90B, name: "SIGNWRITING STRIKE SINGLE", aliases: &[] },
        Codepoint { codepoint: 0x1D90C, name: "SIGNWRITING STRIKE MULTIPLE", aliases: &[] },
        Codepoint { codepoint: 0x1D90D, name: "SIGNWRITING STRIKE BETWEEN", aliases: &[] },
        Codepoint { codepoint: 0x1D90E, name: "SIGNWRITING BRUSH SINGLE", aliases: &[] },
        Codepoint { codepoint: 0x1D90F, name: "SIGNWRITING BRUSH MULTIPLE", aliases: &[] },
        Codepoint { codepoint: 0x1D910, name: "SIGNWRITING BRUSH BETWEEN", aliases: &[] },
        Codepoint { codepoint: 0x1D911, name: "SIGNWRITING RUB SINGLE", aliases: &[] },
        Codepoint { codepoint: 0x1D912, name: "SIGNWRITING RUB MULTIPLE", aliases: &[] },
        Codepoint { codepoint: 0x1D913, name: "SIGNWRITING RUB BETWEEN", aliases: &[] },
        Codepoint { codepoint: 0x1D914, name: "SIGNWRITING SURFACE SYMBOLS", aliases: &[] },
        Codepoint { codepoint: 0x1D915, name: "SIGNWRITING SURFACE BETWEEN", aliases: &[] },
        Codepoint { codepoint: 0x1D916, name: "SIGNWRITING SQUEEZE LARGE SINGLE", aliases: &[] },
        Codepoint { codepoint: 0x1D917, name: "SIGNWRITING SQUEEZE SMALL SINGLE", aliases: &[] },
        Codepoint { codepoint: 0x1D918, name: "SIGNWRITING SQUEEZE LARGE MULTIPLE", aliases: &[] },
        Codepoint { codepoint: 0x1D919, name: "SIGNWRITING SQUEEZE SMALL MULTIPLE", aliases: &[] },
        Codepoint { codepoint: 0x1D91A, name: "SIGNWRITING SQUEEZE SEQUENTIAL", aliases: &[] },
        Codepoint { codepoint: 0x1D91B, name: "SIGNWRITING FLICK LARGE SINGLE", aliases: &[] },
        Codepoint { codepoint: 0x1D91C, name: "SIGNWRITING FLICK SMALL SINGLE", aliases: &[] },
        Codepoint { codepoint: 0x1D91D, name: "SIGNWRITING FLICK LARGE MULTIPLE", aliases: &[] },
        Codepoint { codepoint: 0x1D91E, name: "SIGNWRITING FLICK SMALL MULTIPLE", aliases: &[] },
        Codepoint { codepoint: 0x1D91F, name: "SIGNWRITING FLICK SEQUENTIAL", aliases: &[] },
        Codepoint { codepoint: 0x1D920, name: "SIGNWRITING SQUEEZE FLICK ALTERNATING", aliases: &[] },
        Codepoint { codepoint: 0x1D921, name: "SIGNWRITING MOVEMENT-HINGE UP DOWN LARGE", aliases: &[] },
        Codepoint { codepoint: 0x1D922, name: "SIGNWRITING MOVEMENT-HINGE UP DOWN SMALL", aliases: &[] },
        Codepoint { codepoint: 0x1D923, name: "SIGNWRITING MOVEMENT-HINGE UP SEQUENTIAL", aliases: &[] },
        Codepoint { codepoint: 0x1D924, name: "SIGNWRITING MOVEMENT-HINGE DOWN SEQUENTIAL", aliases: &[] },
        Codepoint { codepoint: 0x1D925, name: "SIGNWRITING MOVEMENT-HINGE UP DOWN ALTERNATING LARGE", aliases: &[] },
        Codepoint { codepoint: 0x1D926, name: "SIGNWRITING MOVEMENT-HINGE UP DOWN ALTERNATING SMALL", aliases: &[] },
        Codepoint { codepoint: 0x1D927, name: "SIGNWRITING MOVEMENT-HINGE SIDE TO SIDE SCISSORS", aliases: &[] },
        Codepoint { codepoint: 0x1D928, name: "SIGNWRITING MOVEMENT-WALLPLANE FINGER CONTACT", aliases: &[] },
    ]
}

fn all_codepoints_749() -> (v: Vec<Codepoint>)
    ensures
        v@ == codepoint_table_749(),
{
    let v = vec![
        Codepoint { codepoint: 0x1D901, name: "SIGNWRITING HAND-FIST THUMB UNDER FOUR FINGERS", aliases: &[] },
        Codepoint { codepoint: 0x1D902, name: "SIGNWRITING HAND-FIST THUMB OVER FOUR RAISED KNUCKLES", aliases: &[] },
        Codepoint { codepoint: 0x1D903, name: "SIGNWRITING HAND-FIST", aliases: &[] },
        Codepoint { codepoint: 0x1D904, name: "SIGNWRITING HAND-FIST HEEL", aliases: &[] },
        Codepoint { codepoint: 0x1D905, name: "SIGNWRITING TOUCH SINGLE", aliases: &[] },
        Codepoint { codepoint: 0x1D906, name: "SIGNWRITING TOUCH MULTIPLE", aliases: &[] },
        Codepoint { codepoint: 0x1D907, name: "SIGNWRITING TOUCH BETWEEN", aliases: &[] },
        Codepoint { codepoint: 0x1D908, name: "SIGNWRITING GRASP SINGLE", aliases: &[] },
        Codepoint { codepoint: 0x1D909, name: "SIGNWRITING GRASP MULTIPLE", aliases: &[] },
        Codepoint { codepoint: 0x1D90A, name: "SIGNWRITING GRASP BETWEEN", aliases: &[] },
        Codepoint { codepoint: 0x1D90B, name: "SIGNWRITING STRIKE SINGLE", aliases: &[] },
        Codepoint { codepoint: 0x1D90C, name: "SIGNWRITING STRIKE MULTIPLE", aliases: &[] },
        Codepoint { codepoint: 0x1D90D, name: "SIGNWRITING STRIKE BETWEEN", aliases: &[] },
        Codepoint { codepoint: 0x1D90E, name: "SIGNWRITING BRUSH SINGLE", aliases: &[] },
        Codepoint { codepoint: 0x1D90F, name: "SIGNWRITING BRUSH MULTIPLE", aliases: &[] },
        Codepoint { codepoint: 0x1D910, name: "SIGNWRITING BRUSH BETWEEN", aliases: &[] },
        Codepoint { codepoint: 0x1D911, name: "SIGNWRITING RUB SINGLE", aliases: &[] },
        Codepoint { codepoint: 0x1D912, name: "SIGNWRITING RUB MULTIPLE", aliases: &[] },
        Codepoint { codepoint: 0x1D913, name: "SIGNWRITING RUB BETWEEN", aliases: &[] },
        Codepoint { codepoint: 0x1D914, name: "SIGNWRITING SURFACE SYMBOLS", aliases: &[] },
        Codepoint { codepoint: 0x1D915, name: "SIGNWRITING SURFACE BETWEEN", aliases: &[] },
        Codepoint { codepoint: 0x1D916, name: "SIGNWRITING SQUEEZE LARGE SINGLE", aliases: &[] },
        Codepoint { codepoint: 0x1D917, name: "SIGNWRITING SQUEEZE SMALL SINGLE", aliases: &[] },
        Codepoint { codepoint: 0x1D918, name: "SIGNWRITING SQUEEZE LARGE MULTIPLE", aliases: &[] },
        Codepoint { codepoint: 0x1D919, name: "SIGNWRITING SQUEEZE SMALL MULTIPLE", aliases: &[] },
        Codepoint { codepoint: 0x1D91A, name: "SIGNWRITING SQUEEZE SEQUENTIAL", aliases: &[] },
        Codepoint { codepoint: 0x1D91B, name: "SIGNWRITING FLICK LARGE SINGLE", aliases: &[] },
        Codepoint { codepoint: 0x1D91C, name: "SIGNWRITING FLICK SMALL SINGLE", aliases: &[] },
        Codepoint { codepoint: 0x1D91D, name: "SIGNWRITING FLICK LARGE MULTIPLE", aliases: &[] },
        Codepoint { codepoint: 0x1D91E, name: "SIGNWRITING FLICK SMALL MULTIPLE", aliases: &[] },
        Codepoint { codepoint: 0x1D91F, name: "SIGNWRITING FLICK SEQUENTIAL", aliases: &[] },
        Codepoint { codepoint: 0x1D920, name: "SIGNWRITING SQUEEZE FLICK ALTERNATING", aliases: &[] },
        Codepoint { codepoint: 0x1D921, name: "SIGNWRITING MOVEMENT-HINGE UP DOWN LARGE", aliases: &[] },
        Codepoint { codepoint: 0x1D922, name: "SIGNWRITING MOVEMENT-HINGE UP DOWN SMALL", aliases: &[] },
        Codepoint { codepoint: 0x1D923, name: "SIGNWRITING MOVEMENT-HINGE UP SEQUENTIAL", aliases: &[] },
        Codepoint { codepoint: 0x1D924, name: "SIGNWRITING MOVEMENT-HINGE DOWN SEQUENTIAL", aliases: &[] },
        Codepoint { codepoint: 0x1D925, name: "SIGNWRITING MOVEMENT-HINGE UP DOWN ALTERNATING LARGE", aliases: &[] },
        Codepoint { codepoint: 0x1D926, name: "SIGNWRITING MOVEMENT-HINGE UP DOWN ALTERNATING SMALL", aliases: &[] },
        Codepoint { codepoint: 0x1D927, name: "SIGNWRITING MOVEMENT-HINGE SIDE TO SIDE SCISSORS", aliases: &[] },
        Codepoint { codepoint: 0x1D928, name: "SIGNWRITING MOVEMENT-WALLPLANE FINGER CONTACT", aliases: &[] },
    ];
    assert(v@ =~= codepoint_table_749());
    v
}

pub open spec fn codepoint_table_750() -> Seq<Codepoint> {
    seq![
        Codepoint { codepoint: 0x1D929, name: "SIGNWRITING MOVEMENT-FLOORPLANE FINGER CONTACT", aliases: &[] },
        Codepoint { codepoint: 0x1D92A, name: "SIGNWRITING MOVEMENT-WALLPLANE SINGLE STRAIGHT SMALL", aliases: &[] },
        Codepoint { codepoint: 0x1D92B, name: "SIGNWRITING MOVEMENT-WALLPLANE SINGLE STRAIGHT MEDIUM", aliases: &[] },
        Codepoint { codepoint: 0x1D92C, name: "SIGNWRITING MOVEMENT-WALLPLANE SINGLE STRAIGHT LARGE", aliases: &[] },
        Codepoint { codepoint: 0x1D92D, name: "SIGNWRITING MOVEMENT-WALLPLANE SINGLE STRAIGHT LARGEST", aliases: &[] },
        Codepoint { codepoint: 0x1D92E, name: "SIGNWRITING MOVEMENT-WALLPLANE SINGLE WRIST FLEX", aliases: &[] },
        Codepoint { codepoint: 0x1D92F, name: "SIGNWRITING MOVEMENT-WALLPLANE DOUBLE STRAIGHT", aliases: &[] },
        Codepoint { codepoint: 0x1D930, name: "SIGNWRITING MOVEMENT-WALLPLANE DOUBLE WRIST FLEX", aliases: &[] },
        Codepoint { codepoint: 0x1D931, name: "SIGNWRITING MOVEMENT-WALLPLANE DOUBLE ALTERNATING", aliases: &[] },
        Codepoint { codepoint: 0x1D932, name: "SIGNWRITING MOVEMENT-WALLPLANE DOUBLE ALTERNATING WRIST FLEX", aliases: &[] },
        Codepoint { codepoint: 0x1D933, name: "SIGNWRITING MOVEMENT-WALLPLANE CROSS", aliases: &[] },
        Codepoint { codepoint: 0x1D934, name: "SIGNWRITING MOVEMENT-WALLPLANE TRIPLE STRAIGHT MOVEMENT", aliases: &[] },
        Codepoint { codepoint: 0x1D935, name: "SIGNWRITING MOVEMENT-WALLPLANE TRIPLE WRIST FLEX", aliases: &[] },
        Codepoint { codepoint: 0x1D936, name: "SIGNWRITING MOVEMENT-WALLPLANE TRIPLE ALTERNATING", aliases: &[] },
        Codepoint { codepoint: 0x1D937, name: "SIGNWRITING MOVEMENT-WALLPLANE TRIPLE ALTERNATING WRIST FLEX", aliases: &[] },
        Codepoint { codepoint: 0x1D938, name: "SIGNWRITING MOVEMENT-WALLPLANE BEND SMALL", aliases: &[] },
        Codepoint { codepoint: 0x1D939, name: "SIGNWRITING MOVEMENT-WALLPLANE BEND MEDIUM", aliases: &[] },
        Codepoint { codepoint: 0x1D93A, name: "SIGNWRITING MOVEMENT-WALLPLANE BEND LARGE", aliases: &[] },
        Codepoint { codepoint: 0x1D93B, name: "SIGNWRITING MOVEMENT-WALLPLANE CORNER SMALL", aliases: &[] },
        Codepoint { codepoint: 0x1D93C, name: "SIGNWRITING MOVEMENT-WALLPLANE CORNER MEDIUM", aliases: &[] },
        Codepoint { codepoint: 0x1D93D, name: "SIGNWRITING MOVEMENT-WALLPLANE CORNER LARGE", aliases: &[] },
        Codepoint { codepoint: 0x1D93E, name: "SIGNWRITING MOVEMENT-WALLPLANE CORNER ROTATION", aliases: &[] },
        Codepoint { codepoint: 0x1D93F, name: "SIGNWRITING MOVEMENT-WALLPLANE CHECK SMALL", aliases: &[] },
        Codepoint { codepoint: 0x1D940, name: "SIGNWRITING MOVEMENT-WALLPLANE CHECK MEDIUM", aliases: &[] },
        Codepoint { codepoint: 0x1D941, name: "SIGNWRITING MOVEMENT-WALLPLANE CHECK LARGE", aliases: &[] },
        Codepoint { codepoint: 0x1D942, name: "SIGNWRITING MOVEMENT-WALLPLANE BOX SMALL", aliases: &[] },
        Codepoint { codepoint: 0x1D943, name: "SIGNWRITING MOVEMENT-WALLPLANE BOX MEDIUM", aliases: &[] },
        Codepoint { codepoint: 0x1D944, name: "SIGNWRITING MOVEMENT-WALLPLANE BOX LARGE", aliases: &[] },
        Codepoint { codepoint: 0x1D945, name: "SIGNWRITING MOVEMENT-WALLPLANE ZIGZAG SMALL", aliases: &[] },
        Codepoint { codepoint: 0x1D946, name: "SIGNWRITING MOVEMENT-WALLPLANE ZIGZAG MEDIUM", aliases: &[] },
        Codepoint { codepoint: 0x1D947, name: "SIGNWRITING MOVEMENT-WALLPLANE ZIGZAG LARGE", aliases: &[] },
        Codepoint { codepoint: 0x1D948, name: "SIGNWRITING MOVEMENT-WALLPLANE PEAKS SMALL", aliases: &[] },
        Codepoint { codepoint: 0x1D949, name: "SIGNWRITING MOVEMENT-WALLPLANE PEAKS MEDIUM", aliases: &[] },
        Codepoint { codepoint: 0x1D94A, name: "SIGNWRITING MOVEMENT-WALLPLANE PEAKS LARGE", aliases: &[] },
        Codepoint { codepoint: 0x1D94B, name: "SIGNWRITING TRAVEL-WALLPLANE ROTATION-WALLPLANE SINGLE", aliases: &[] },
        Codepoint { codepoint: 0x1D94C, name: "SIGNWRITING TRAVEL-WALLPLANE ROTATION-WALLPLANE DOUBLE", aliases: &[] },
        Codepoint { codepoint: 0x1D94D, name: "SIGNWRITING TRAVEL-WALLPLANE ROTATION-WALLPLANE ALTERNATING", aliases: &[] },
        Codepoint { codepoint: 0x1D94E, name: "SIGNWRITING TRAVEL-WALLPLANE ROTATION-FLOORPLANE SINGLE", aliases: &[] },
        Codepoint { codepoint: 0x1D94F, name: "SIGNWRITING TRAVEL-WALLPLANE ROTATION-FLOORPLANE DOUBLE", aliases: &[] },
        Codepoint { codepoint: 0x1D950, name: "SIGNWRITING TRAVEL-WALLPLANE ROTATION-FLOORPLANE ALTERNATING", aliases: &[] },
    ]
}

fn all_codepoints_750() -> (v: Vec<Codepoint>)
    ensures
        v@ == codepoint_table_750(),
{
    let v = vec![
        Codepoint { codepoint: 0x1D929, name: "SIGNWRITING MOVEMENT-FLOORPLANE FINGER CONTACT", aliases: &[] },
        Codepoint { codepoint: 0x1D92A, name: "SIGNWRITING MOVEMENT-WALLPLANE SINGLE STRAIGHT SMALL", aliases: &[] },
        Codepoint { codepoint: 0x1D92B, name: "SIGNWRITING MOVEMENT-WALLPLANE SINGLE STRAIGHT MEDIUM", aliases: &[] },
        Codepoint { codepoint: 0x1D92C, name: "SIGNWRITING MOVEMENT-WALLPLANE SINGLE STRAIGHT LARGE", aliases: &[] },
        Codepoint { codepoint: 0x1D92D, name: "SIGNWRITING MOVEMENT-WALLPLANE SINGLE STRAIGHT LARGEST", aliases: &[] },
        Codepoint { codepoint: 0x1D92E, name: "SIGNWRITING MOVEMENT-WALLPLANE SINGLE WRIST FLEX", aliases: &[] },
        Codepoint { codepoint: 0x1D92F, name: "SIGNWRITING MOVEMENT-WALLPLANE DOUBLE STRAIGHT", aliases: &[] },
        Codepoint { codepoint: 0x1D930, name: "SIGNWRITING MOVEMENT-WALLPLANE DOUBLE WRIST FLEX", aliases: &[] },
        Codepoint { codepoint: 0x1D931, name: "SIGNWRITING MOVEMENT-WALLPLANE DOUBLE ALTERNATING", aliases: &[] },
        Codepoint { codepoint: 0x1D932, name: "SIGNWRITING MOVEMENT-WALLPLANE DOUBLE ALTERNATING WRIST FLEX", aliases: &[] },
        Codepoint { codepoint: 0x1D933, name: "SIGNWRITING MOVEMENT-WALLPLANE CROSS", aliases: &[] },
        Codepoint { codepoint: 0x1D934, name: "SIGNWRITING MOVEMENT-WALLPLANE TRIPLE STRAIGHT MOVEMENT", aliases: &[] },
        Codepoint { codepoint: 0x1D935, name: "SIGNWRITING MOVEMENT-WALLPLANE TRIPLE WRIST FLEX", aliases: &[] },
        Codepoint { codepoint: 0x1D936, name: "SIGNWRITING MOVEMENT-WALLPLANE TRIPLE ALTERNATING", aliases: &[] },
        Codepoint { codepoint: 0x1D937, name: "SIGNWRITING MOVEMENT-WALLPLANE TRIPLE ALTERNATING WRIST FLEX", aliases: &[] },
        Codepoint { codepoint: 0x1D938, name: "SIGNWRITING MOVEMENT-WALLPLANE BEND SMALL", aliases: &[] },
        Codepoint { codepoint: 0x1D939, name: "SIGNWRITING MOVEMENT-WALLPLANE BEND MEDIUM", aliases: &[] },
        Codepoint { codepoint: 0x1D93A, name: "SIGNWRITING MOVEMENT-WALLPLANE BEND LARGE", aliases: &[] },
        Codepoint { codepoint: 0x1D93B, name: "SIGNWRITING MOVEMENT-WALLPLANE CORNER SMALL", aliases: &[] },
        Codepoint { codepoint: 0x1D93C, name: "SIGNWRITING MOVEMENT-WALLPLANE CORNER MEDIUM", aliases: &[] },
        Codepoint { codepoint: 0x1D93D, name: "SIGNWRITING MOVEMENT-WALLPLANE CORNER LARGE", aliases: &[] },
        Codepoint { codepoint: 0x1D93E, name: "SIGNWRITING MOVEMENT-WALLPLANE CORNER ROTATION", aliases: &[] },
        Codepoint { codepoint: 0x1D93F, name: "SIGNWRITING MOVEMENT-WALLPLANE CHECK SMALL", aliases: &[] },
        Codepoint { codepoint: 0x1D940, name: "SIGNWRITING MOVEMENT-WALLPLANE CHECK MEDIUM", aliases: &[] },
        Codepoint { codepoint: 0x1D941, name: "SIGNWRITING MOVEMENT-WALLPLANE CHECK LARGE", aliases: &[] },
        Codepoint { codepoint: 0x1D942, name: "SIGNWRITING MOVEMENT-WALLPLANE BOX SMALL", aliases: &[] },
        Codepoint { codepoint: 0x1D943, name: "SIGNWRITING MOVEMENT-WALLPLANE BOX MEDIUM", aliases: &[] },
        Codepoint { codepoint: 0x1D944, name: "SIGNWRITING MOVEMENT-WALLPLANE BOX LARGE", aliases: &[] },
        Codepoint { codepoint: 0x1D945, name: "SIGNWRITING MOVEMENT-WALLPLANE ZIGZAG SMALL", aliases: &[] },
        Codepoint { codepoint: 0x1D946, name: "SIGNWRITING MOVEMENT-WALLPLANE ZIGZAG MEDIUM", aliases: &[] },
        Codepoint { codepoint: 0x1D947, name: "SIGNWRITING MOVEMENT-WALLPLANE ZIGZAG LARGE", aliases: &[] },
        Codepoint { codepoint: 0x1D948, name: "SIGNWRITING MOVEMENT-WALLPLANE PEAKS SMALL", aliases: &[] },
        Codepoint { codepoint: 0x1D949, name: "SIGNWRITING MOVEMENT-WALLPLANE PEAKS MEDIUM", aliases: &[] },
        Codepoint { codepoint: 0x1D94A, name: "SIGNWRITING MOVEMENT-WALLPLANE PEAKS LARGE", aliases: &[] },
        Codepoint { codepoint: 0x1D94B, name: "SIGNWRITING TRAVEL-WALLPLANE ROTATION-WALLPLANE SINGLE", aliases: &[] },
        Codepoint { codepoint: 0x1D94C, name: "SIGNWRITING TRAVEL-WALLPLANE ROTATION-WALLPLANE DOUBLE", aliases: &[] },
        Codepoint { codepoint: 0x1D94D, name: "SIGNWRITING TRAVEL-WALLPLANE ROTATION-WALLPLANE ALTERNATING", aliases: &[] },
        Codepoint { codepoint: 0x1D94E, name: "SIGNWRITING TRAVEL-WALLPLANE ROTATION-FLOORPLANE SINGLE", aliases: &[] },
        Codepoint { codepoint: 0x1D94F, name: "SIGNWRITING TRAVEL-WALLPLANE ROTATION-FLOORPLANE DOUBLE", aliases: &[] },
        Codepoint { codepoint: 0x1D950, name: "SIGNWRITING TRAVEL-WALLPLANE ROTATION-FLOORPLANE ALTERNATING", aliases: &[] },
    ];
    assert(v@ =~= codepoint_table_750());
    v
}

pub open spec fn codepoint_table_751() -> Seq<Codepoint> {
    seq![
        Codepoint { codepoint: 0x1D951, name: "SIGNWRITING TRAVEL-WALLPLANE SHAKING", aliases: &[] },
        Codepoint { codepoint: 0x1D952, name: "SIGNWRITING TRAVEL-WALLPLANE ARM SPIRAL SINGLE", aliases: &[] },
        Codepoint { codepoint: 0x1D953, name: "SIGNWRITING TRAVEL-WALLPLANE ARM SPIRAL DOUBLE", aliases: &[] },
        Codepoint { codepoint: 0x1D954, name: "SIGNWRITING TRAVEL-WALLPLANE ARM SPIRAL TRIPLE", aliases: &[] },
        Codepoint { codepoint: 0x1D955, name: "SIGNWRITING MOVEMENT-DIAGONAL AWAY SMALL", aliases: &[] },
        Codepoint { codepoint: 0x1D956, name: "SIGNWRITING MOVEMENT-DIAGONAL AWAY MEDIUM", aliases: &[] },
        Codepoint { codepoint: 0x1D957, name: "SIGNWRITING MOVEMENT-DIAGONAL AWAY LARGE", aliases: &[] },
        Codepoint { codepoint: 0x1D958, name: "SIGNWRITING MOVEMENT-DIAGONAL AWAY LARGEST", aliases: &[] },
        Codepoint { codepoint: 0x1D959, name: "SIGNWRITING MOVEMENT-DIAGONAL TOWARDS SMALL", aliases: &[] },
        Codepoint { codepoint: 0x1D95A, name: "SIGNWRITING MOVEMENT-DIAGONAL TOWARDS MEDIUM", aliases: &[] },
        Codepoint { codepoint: 0x1D95B, name: "SIGNWRITING MOVEMENT-DIAGONAL TOWARDS LARGE", aliases: &[] },
        Codepoint { codepoint: 0x1D95C, name: "SIGNWRITING MOVEMENT-DIAGONAL TOWARDS LARGEST", aliases: &[] },
        Codepoint { codepoint: 0x1D95D, name: "SIGNWRITING MOVEMENT-DIAGONAL BETWEEN AWAY SMALL", aliases: &[] },
        Codepoint { codepoint: 0x1D95E, name: "SIGNWRITING MOVEMENT-DIAGONAL BETWEEN AWAY MEDIUM", aliases: &[] },
        Codepoint { codepoint: 0x1D95F, name: "SIGNWRITING MOVEMENT-DIAGONAL BETWEEN AWAY LARGE", aliases: &[] },
        Codepoint { codepoint: 0x1D960, name: "SIGNWRITING MOVEMENT-DIAGONAL BETWEEN AWAY LARGEST", aliases: &[] },
        Codepoint { codepoint: 0x1D961, name: "SIGNWRITING MOVEMENT-DIAGONAL BETWEEN TOWARDS SMALL", aliases: &[] },
        Codepoint { codepoint: 0x1D962, name: "SIGNWRITING MOVEMENT-DIAGONAL BETWEEN TOWARDS MEDIUM", aliases: &[] },
        Codepoint { codepoint: 0x1D963, name: "SIGNWRITING MOVEMENT-DIAGONAL BETWEEN TOWARDS LARGE", aliases: &[] },
        Codepoint { codepoint: 0x1D964, name: "SIGNWRITING MOVEMENT-DIAGONAL BETWEEN TOWARDS LARGEST", aliases: &[] },
        Codepoint { codepoint: 0x1D965, name: "SIGNWRITING MOVEMENT-FLOORPLANE SINGLE STRAIGHT SMALL", aliases: &[] },
        Codepoint { codepoint: 0x1D966, name: "SIGNWRITING MOVEMENT-FLOORPLANE SINGLE STRAIGHT MEDIUM", aliases: &[] },
        Codepoint { codepoint: 0x1D967, name: "SIGNWRITING MOVEMENT-FLOORPLANE SINGLE STRAIGHT LARGE", aliases: &[] },
        Codepoint { codepoint: 0x1D968, name: "SIGNWRITING MOVEMENT-FLOORPLANE SINGLE STRAIGHT LARGEST", aliases: &[] },
        Codepoint { codepoint: 0x1D969, name: "SIGNWRITING MOVEMENT-FLOORPLANE SINGLE WRIST FLEX", aliases: &[] },
        Codepoint { codepoint: 0x1D96A, name: "SIGNWRITING MOVEMENT-FLOORPLANE DOUBLE STRAIGHT", aliases: &[] },
        Codepoint { codepoint: 0x1D96B, name: "SIGNWRITING MOVEMENT-FLOORPLANE DOUBLE WRIST FLEX", aliases: &[] },
        Codepoint { codepoint: 0x1D96C, name: "SIGNWRITING MOVEMENT-FLOORPLANE DOUBLE ALTERNATING", aliases: &[] },
        Codepoint { codepoint: 0x1D96D, name: "SIGNWRITING MOVEMENT-FLOORPLANE DOUBLE ALTERNATING WRIST FLEX", aliases: &[] },
        Codepoint { codepoint: 0x1D96E, name: "SIGNWRITING MOVEMENT-FLOORPLANE CROSS", aliases: &[] },
        Codepoint { codepoint: 0x1D96F, name: "SIGNWRITING MOVEMENT-FLOORPLANE TRIPLE STRAIGHT MOVEMENT", aliases: &[] },
        Codepoint { codepoint: 0x1D970, name: "SIGNWRITING MOVEMENT-FLOORPLANE TRIPLE WRIST FLEX", aliases: &[] },
        Codepoint { codepoint: 0x1D971, name: "SIGNWRITING MOVEMENT-FLOORPLANE TRIPLE ALTERNATING MOVEMENT", aliases: &[] },
        Codepoint { codepoint: 0x1D972, name: "SIGNWRITING MOVEMENT-FLOORPLANE TRIPLE ALTERNATING WRIST FLEX", aliases: &[] },
        Codepoint { codepoint: 0x1D973, name: "SIGNWRITING MOVEMENT-FLOORPLANE BEND", aliases: &[] },
        Codepoint { codepoint: 0x1D974, name: "SIGNWRITING MOVEMENT-FLOORPLANE CORNER SMALL", aliases: &[] },
        Codepoint { codepoint: 0x1D975, name: "SIGNWRITING MOVEMENT-FLOORPLANE CORNER MEDIUM", aliases: &[] },
        Codepoint { codepoint: 0x1D976, name: "SIGNWRITING MOVEMENT-FLOORPLANE CORNER LARGE", aliases: &[] },
        Codepoint { codepoint: 0x1D977, name: "SIGNWRITING MOVEMENT-FLOORPLANE CHECK", aliases: &[] },
        Codepoint { codepoint: 0x1D978, name: "SIGNWRITING MOVEMENT-FLOORPLANE BOX SMALL", aliases: &[] },
    ]
}

fn all_codepoints_751() -> (v: Vec<Codepoint>)
    ensures
        v@ == codepoint_table_751(),
{
    let v = vec![
        Codepoint { codepoint: 0x1D951, name: "SIGNWRITING TRAVEL-WALLPLANE SHAKING", aliases: &[] },
        Codepoint { codepoint: 0x1D952, name: "SIGNWRITING TRAVEL-WALLPLANE ARM SPIRAL SINGLE", aliases: &[] },
        Codepoint { codepoint: 0x1D953, name: "SIGNWRITING TRAVEL-WALLPLANE ARM SPIRAL DOUBLE", aliases: &[] },
        Codepoint { codepoint: 0x1D954, name: "SIGNWRITING TRAVEL-WALLPLANE ARM SPIRAL TRIPLE", aliases: &[] },
        Codepoint { codepoint: 0x1D955, name: "SIGNWRITING MOVEMENT-DIAGONAL AWAY SMALL", aliases: &[] },
        Codepoint { codepoint: 0x1D956, name: "SIGNWRITING MOVEMENT-DIAGONAL AWAY MEDIUM", aliases: &[] },
        Codepoint { codepoint: 0x1D957, name: "SIGNWRITING MOVEMENT-DIAGONAL AWAY LARGE", aliases: &[] },
        Codepoint { codepoint: 0x1D958, name: "SIGNWRITING MOVEMENT-DIAGONAL AWAY LARGEST", aliases: &[] },
        Codepoint { codepoint: 0x1D959, name: "SIGNWRITING MOVEMENT-DIAGONAL TOWARDS SMALL", aliases: &[] },
        Codepoint { codepoint: 0x1D95A, name: "SIGNWRITING MOVEMENT-DIAGONAL TOWARDS MEDIUM", aliases: &[] },
        Codepoint { codepoint: 0x1D95B, name: "SIGNWRITING MOVEMENT-DIAGONAL TOWARDS LARGE", aliases: &[] },
        Codepoint { codepoint: 0x1D95C, name: "SIGNWRITING MOVEMENT-DIAGONAL TOWARDS LARGEST", aliases: &[] },
        Codepoint { codepoint: 0x1D95D, name: "SIGNWRITING MOVEMENT-DIAGONAL BETWEEN AWAY SMALL", aliases: &[] },
        Codepoint { codepoint: 0x1D95E, name: "SIGNWRITING MOVEMENT-DIAGONAL BETWEEN AWAY MEDIUM", aliases: &[] },
        Codepoint { codepoint: 0x1D95F, name: "SIGNWRITING MOVEMENT-DIAGONAL BETWEEN AWAY LARGE", aliases: &[] },
        Codepoint { codepoint: 0x1D960, name: "SIGNWRITING MOVEMENT-DIAGONAL BETWEEN AWAY LARGEST", aliases: &[] },
        Codepoint { codepoint: 0x1D961, name: "SIGNWRITING MOVEMENT-DIAGONAL BETWEEN TOWARDS SMALL", aliases: &[] },
        Codepoint { codepoint: 0x1D962, name: "SIGNWRITING MOVEMENT-DIAGONAL BETWEEN TOWARDS MEDIUM", aliases: &[] },
        Codepoint { codepoint: 0x1D963, name: "SIGNWRITING MOVEMENT-DIAGONAL BETWEEN TOWARDS LARGE", aliases: &[] },
        Codepoint { codepoint: 0x1D964, name: "SIGNWRITING MOVEMENT-DIAGONAL BETWEEN TOWARDS LARGEST", aliases: &[] },
        Codepoint { codepoint: 0x1D965, name: "SIGNWRITING MOVEMENT-FLOORPLANE SINGLE STRAIGHT SMALL", aliases: &[] },
        Codepoint { codepoint: 0x1D966, name: "SIGNWRITING MOVEMENT-FLOORPLANE SINGLE STRAIGHT MEDIUM", aliases: &[] },
        Codepoint { codepoint: 0x1D967, name: "SIGNWRITING MOVEMENT-FLOORPLANE SINGLE STRAIGHT LARGE", aliases: &[] },
        Codepoint { codepoint: 0x1D968, name: "SIGNWRITING MOVEMENT-FLOORPLANE SINGLE STRAIGHT LARGEST", aliases: &[] },
        Codepoint { codepoint: 0x1D969, name: "SIGNWRITING MOVEMENT-FLOORPLANE SINGLE WRIST FLEX", aliases: &[] },
        Codepoint { codepoint: 0x1D96A, name: "SIGNWRITING MOVEMENT-FLOORPLANE DOUBLE STRAIGHT", aliases: &[] },
        Codepoint { codepoint: 0x1D96B, name: "SIGNWRITING MOVEMENT-FLOORPLANE DOUBLE WRIST FLEX", aliases: &[] },
        Codepoint { codepoint: 0x1D96C, name: "SIGNWRITING MOVEMENT-FLOORPLANE DOUBLE ALTERNATING", aliases: &[] },
        Codepoint { codepoint: 0x1D96D, name: "SIGNWRITING MOVEMENT-FLOORPLANE DOUBLE ALTERNATING WRIST FLEX", aliases: &[] },
        Codepoint { codepoint: 0x1D96E, name: "SIGNWRITING MOVEMENT-FLOORPLANE CROSS", aliases: &[] },
        Codepoint { codepoint: 0x1D96F, name: "SIGNWRITING MOVEMENT-FLOORPLANE TRIPLE STRAIGHT MOVEMENT", aliases: &[] },
        Codepoint { codepoint: 0x1D970, name: "SIGNWRITING MOVEMENT-FLOORPLANE TRIPLE WRIST FLEX", aliases: &[] },
        Codepoint { codepoint: 0x1D971, name: "SIGNWRITING MOVEMENT-FLOORPLANE TRIPLE ALTERNATING MOVEMENT", aliases: &[] },
        Codepoint { codepoint: 0x1D972, name: "SIGNWRITING MOVEMENT-FLOORPLANE TRIPLE ALTERNATING WRIST FLEX", aliases: &[] },
        Codepoint { codepoint: 0x1D973, name: "SIGNWRITING MOVEMENT-FLOORPLANE BEND", aliases: &[] },
        Codepoint { codepoint: 0x1D974, name: "SIGNWRITING MOVEMENT-FLOORPLANE CORNER SMALL", aliases: &[] },
        Codepoint { codepoint: 0x1D975, name: "SIGNWRITING MOVEMENT-FLOORPLANE CORNER MEDIUM", aliases: &[] },
        Codepoint { codepoint: 0x1D976, name: "SIGNWRITING MOVEMENT-FLOORPLANE CORNER LARGE", aliases: &[] },
        Codepoint { codepoint: 0x1D977, name: "SIGNWRITING MOVEMENT-FLOORPLANE CHECK", aliases: &[] },
        Codepoint { codepoint: 0x1D978, name: "SIGNWRITING MOVEMENT-FLOORPLANE BOX SMALL", aliases: &[] },
    ];
    assert(v@ =~= codepoint_table_751());
    v
}

pub open spec fn codepoint_table_752() -> Seq<Codepoint> {
    seq![
        Codepoint { codepoint: 0x1D979, name: "SIGNWRITING MOVEMENT-FLOORPLANE BOX MEDIUM", aliases: &[] },
        Codepoint { codepoint: 0x1D97A, name: "SIGNWRITING MOVEMENT-FLOORPLANE BOX LARGE", aliases: &[] },
        Codepoint { codepoint: 0x1D97B, name: "SIGNWRITING MOVEMENT-FLOORPLANE ZIGZAG SMALL", aliases: &[] },
        Codepoint { codepoint: 0x1D97C, name: "SIGNWRITING MOVEMENT-FLOORPLANE ZIGZAG MEDIUM", aliases: &[] },
        Codepoint { codepoint: 0x1D97D, name: "SIGNWRITING MOVEMENT-FLOORPLANE ZIGZAG LARGE", aliases: &[] },
        Codepoint { codepoint: 0x1D97E, name: "SIGNWRITING MOVEMENT-FLOORPLANE PEAKS SMALL", aliases: &[] },
        Codepoint { codepoint: 0x1D97F, name: "SIGNWRITING MOVEMENT-FLOORPLANE PEAKS MEDIUM", aliases: &[] },
        Codepoint { codepoint: 0x1D980, name: "SIGNWRITING MOVEMENT-FLOORPLANE PEAKS LARGE", aliases: &[] },
        Codepoint { codepoint: 0x1D981, name: "SIGNWRITING TRAVEL-FLOORPLANE ROTATION-FLOORPLANE SINGLE", aliases: &[] },
        Codepoint { codepoint: 0x1D982, name: "SIGNWRITING TRAVEL-FLOORPLANE ROTATION-FLOORPLANE DOUBLE", aliases: &[] },
        Codepoint { codepoint: 0x1D983, name: "SIGNWRITING TRAVEL-FLOORPLANE ROTATION-FLOORPLANE ALTERNATING", aliases: &[] },
        Codepoint { codepoint: 0x1D984, name: "SIGNWRITING TRAVEL-FLOORPLANE ROTATION-WALLPLANE SINGLE", aliases: &[] },
        Codepoint { codepoint: 0x1D985, name: "SIGNWRITING TRAVEL-FLOORPLANE ROTATION-WALLPLANE DOUBLE", aliases: &[] },
        Codepoint { codepoint: 0x1D986, name: "SIGNWRITING TRAVEL-FLOORPLANE ROTATION-WALLPLANE ALTERNATING", aliases: &[] },
        Codepoint { codepoint: 0x1D987, name: "SIGNWRITING TRAVEL-FLOORPLANE SHAKING", aliases: &[] },
        Codepoint { codepoint: 0x1D988, name: "SIGNWRITING MOVEMENT-WALLPLANE CURVE QUARTER SMALL", aliases: &[] },
        Codepoint { codepoint: 0x1D989, name: "SIGNWRITING MOVEMENT-WALLPLANE CURVE QUARTER MEDIUM", aliases: &[] },
        Codepoint { codepoint: 0x1D98A, name: "SIGNWRITING MOVEMENT-WALLPLANE CURVE QUARTER LARGE", aliases: &[] },
        Codepoint { codepoint: 0x1D98B, name: "SIGNWRITING MOVEMENT-WALLPLANE CURVE QUARTER LARGEST", aliases: &[] },
        Codepoint { codepoint: 0x1D98C, name: "SIGNWRITING MOVEMENT-WALLPLANE CURVE HALF-CIRCLE SMALL", aliases: &[] },
        Codepoint { codepoint: 0x1D98D, name: "SIGNWRITING MOVEMENT-WALLPLANE CURVE HALF-CIRCLE MEDIUM", aliases: &[] },
        Codepoint { codepoint: 0x1D98E, name: "SIGNWRITING MOVEMENT-WALLPLANE CURVE HALF-CIRCLE LARGE", aliases: &[] },
        Codepoint { codepoint: 0x1D98F, name: "SIGNWRITING MOVEMENT-WALLPLANE CURVE HALF-CIRCLE LARGEST", aliases: &[] },
        Codepoint { codepoint: 0x1D990, name: "SIGNWRITING MOVEMENT-WALLPLANE CURVE THREE-QUARTER CIRCLE SMALL", aliases: &[] },
        Codepoint { codepoint: 0x1D991, name: "SIGNWRITING MOVEMENT-WALLPLANE CURVE THREE-QUARTER CIRCLE MEDIUM", aliases: &[] },
        Codepoint { codepoint: 0x1D992, name: "SIGNWRITING MOVEMENT-WALLPLANE HUMP SMALL", aliases: &[] },
        Codepoint { codepoint: 0x1D993, name: "SIGNWRITING MOVEMENT-WALLPLANE HUMP MEDIUM", aliases: &[] },
        Codepoint { codepoint: 0x1D994, name: "SIGNWRITING MOVEMENT-WALLPLANE HUMP LARGE", aliases: &[] },
        Codepoint { codepoint: 0x1D995, name: "SIGNWRITING MOVEMENT-WALLPLANE LOOP SMALL", aliases: &[] },
        Codepoint { codepoint: 0x1D996, name: "SIGNWRITING MOVEMENT-WALLPLANE LOOP MEDIUM", aliases: &[] },
        Codepoint { codepoint: 0x1D997, name: "SIGNWRITING MOVEMENT-WALLPLANE LOOP LARGE", aliases: &[] },
        Codepoint { codepoint: 0x1D998, name: "SIGNWRITING MOVEMENT-WALLPLANE LOOP SMALL DOUBLE", aliases: &[] },
        Codepoint { codepoint: 0x1D999, name: "SIGNWRITING MOVEMENT-WALLPLANE WAVE CURVE DOUBLE SMALL", aliases: &[] },
        Codepoint { codepoint: 0x1D99A, name: "SIGNWRITING MOVEMENT-WALLPLANE WAVE CURVE DOUBLE MEDIUM", aliases: &[] },
        Codepoint { codepoint: 0x1D99B, name: "SIGNWRITING MOVEMENT-WALLPLANE WAVE CURVE DOUBLE LARGE", aliases: &[] },
        Codepoint { codepoint: 0x1D99C, name: "SIGNWRITING MOVEMENT-WALLPLANE WAVE CURVE TRIPLE SMALL", aliases: &[] },
        Codepoint { codepoint: 0x1D99D, name: "SIGNWRITING MOVEMENT-WALLPLANE WAVE CURVE TRIPLE MEDIUM", aliases: &[] },
        Codepoint { codepoint: 0x1D99E, name: "SIGNWRITING MOVEMENT-WALLPLANE WAVE CURVE TRIPLE LARGE", aliases: &[] },
        Codepoint { codepoint: 0x1D99F, name: "SIGNWRITING MOVEMENT-WALLPLANE CURVE THEN STRAIGHT", aliases: &[] },
        Codepoint { codepoint: 0x1D9A0, name: "SIGNWRITING MOVEMENT-WALLPLANE CURVED CROSS SMALL", aliases: &[] },
    ]
}

fn all_codepoints_752() -> (v: Vec<Codepoint>)
    ensures
        v@ == codepoint_table_752(),
{
    let v = vec![
        Codepoint { codepoint: 0x1D979, name: "SIGNWRITING MOVEMENT-FLOORPLANE BOX MEDIUM", aliases: &[] },
        Codepoint { codepoint: 0x1D97A, name: "SIGNWRITING MOVEMENT-FLOORPLANE BOX LARGE", aliases: &[] },
        Codepoint { codepoint: 0x1D97B, name: "SIGNWRITING MOVEMENT-FLOORPLANE ZIGZAG SMALL", aliases: &[] },
        Codepoint { codepoint: 0x1D97C, name: "SIGNWRITING MOVEMENT-FLOORPLANE ZIGZAG MEDIUM", aliases: &[] },
        Codepoint { codepoint: 0x1D97D, name: "SIGNWRITING MOVEMENT-FLOORPLANE ZIGZAG LARGE", aliases: &[] },
        Codepoint { codepoint: 0x1D97E, name: "SIGNWRITING MOVEMENT-FLOORPLANE PEAKS SMALL", aliases: &[] },
        Codepoint { codepoint: 0x1D97F, name: "SIGNWRITING MOVEMENT-FLOORPLANE PEAKS MEDIUM", aliases: &[] },
        Codepoint { codepoint: 0x1D980, name: "SIGNWRITING MOVEMENT-FLOORPLANE PEAKS LARGE", aliases: &[] },
        Codepoint { codepoint: 0x1D981, name: "SIGNWRITING TRAVEL-FLOORPLANE ROTATION-FLOORPLANE SINGLE", aliases: &[] },
        Codepoint { codepoint: 0x1D982, name: "SIGNWRITING TRAVEL-FLOORPLANE ROTATION-FLOORPLANE DOUBLE", aliases: &[] },
        Codepoint { codepoint: 0x1D983, name: "SIGNWRITING TRAVEL-FLOORPLANE ROTATION-FLOORPLANE ALTERNATING", aliases: &[] },
        Codepoint { codepoint: 0x1D984, name: "SIGNWRITING TRAVEL-FLOORPLANE ROTATION-WALLPLANE SINGLE", aliases: &[] },
        Codepoint { codepoint: 0x1D985, name: "SIGNWRITING TRAVEL-FLOORPLANE ROTATION-WALLPLANE DOUBLE", aliases: &[] },
        Codepoint { codepoint: 0x1D986, name: "SIGNWRITING TRAVEL-FLOORPLANE ROTATION-WALLPLANE ALTERNATING", aliases: &[] },
        Codepoint { codepoint: 0x1D987, name: "SIGNWRITING TRAVEL-FLOORPLANE SHAKING", aliases: &[] },
        Codepoint { codepoint: 0x1D988, name: "SIGNWRITING MOVEMENT-WALLPLANE CURVE QUARTER SMALL", aliases: &[] },
        Codepoint { codepoint: 0x1D989, name: "SIGNWRITING MOVEMENT-WALLPLANE CURVE QUARTER MEDIUM", aliases: &[] },
        Codepoint { codepoint: 0x1D98A, name: "SIGNWRITING MOVEMENT-WALLPLANE CURVE QUARTER LARGE", aliases: &[] },
        Codepoint { codepoint: 0x1D98B, name: "SIGNWRITING MOVEMENT-WALLPLANE CURVE QUARTER LARGEST", aliases: &[] },
        Codepoint { codepoint: 0x1D98C, name: "SIGNWRITING MOVEMENT-WALLPLANE CURVE HALF-CIRCLE SMALL", aliases: &[] },
        Codepoint { codepoint: 0x1D98D, name: "SIGNWRITING MOVEMENT-WALLPLANE CURVE HALF-CIRCLE MEDIUM", aliases: &[] },
        Codepoint { codepoint: 0x1D98E, name: "SIGNWRITING MOVEMENT-WALLPLANE CURVE HALF-CIRCLE LARGE", aliases: &[] },
        Codepoint { codepoint: 0x1D98F, name: "SIGNWRITING MOVEMENT-WALLPLANE CURVE HALF-CIRCLE LARGEST", aliases: &[] },
        Codepoint { codepoint: 0x1D990, name: "SIGNWRITING MOVEMENT-WALLPLANE CURVE THREE-QUARTER CIRCLE SMALL", aliases: &[] },
        Codepoint { codepoint: 0x1D991, name: "SIGNWRITING MOVEMENT-WALLPLANE CURVE THREE-QUARTER CIRCLE MEDIUM", aliases: &[] },
        Codepoint { codepoint: 0x1D992, name: "SIGNWRITING MOVEMENT-WALLPLANE HUMP SMALL", aliases: &[] },
        Codepoint { codepoint: 0x1D993, name: "SIGNWRITING MOVEMENT-WALLPLANE HUMP MEDIUM", aliases: &[] },
        Codepoint { codepoint: 0x1D994, name: "SIGNWRITING MOVEMENT-WALLPLANE HUMP LARGE", aliases: &[] },
        Codepoint { codepoint: 0x1D995, name: "SIGNWRITING MOVEMENT-WALLPLANE LOOP SMALL", aliases: &[] },
        Codepoint { codepoint: 0x1D996, name: "SIGNWRITING MOVEMENT-WALLPLANE LOOP MEDIUM", aliases: &[] },
        Codepoint { codepoint: 0x1D997, name: "SIGNWRITING MOVEMENT-WALLPLANE LOOP LARGE", aliases: &[] },
        Codepoint { codepoint: 0x1D998, name: "SIGNWRITING MOVEMENT-WALLPLANE LOOP SMALL DOUBLE", aliases: &[] },
        Codepoint { codepoint: 0x1D999, name: "SIGNWRITING MOVEMENT-WALLPLANE WAVE CURVE DOUBLE SMALL", aliases: &[] },
        Codepoint { codepoint: 0x1D99A, name: "SIGNWRITING MOVEMENT-WALLPLANE WAVE CURVE DOUBLE MEDIUM", aliases: &[] },
        Codepoint { codepoint: 0x1D99B, name: "SIGNWRITING MOVEMENT-WALLPLANE WAVE CURVE DOUBLE LARGE", aliases: &[] },
        Codepoint { codepoint: 0x1D99C, name: "SIGNWRITING MOVEMENT-WALLPLANE WAVE CURVE TRIPLE SMALL", aliases: &[] },
        Codepoint { codepoint: 0x1D99D, name: "SIGNWRITING MOVEMENT-WALLPLANE WAVE CURVE TRIPLE MEDIUM", aliases: &[] },
        Codepoint { codepoint: 0x1D99E, name: "SIGNWRITING MOVEMENT-WALLPLANE WAVE CURVE TRIPLE LARGE", aliases: &[] },
        Codepoint { codepoint: 0x1D99F, name: "SIGNWRITING MOVEMENT-WALLPLANE CURVE THEN STRAIGHT", aliases: &[] },
        Codepoint { codepoint: 0x1D9A0, name: "SIGNWRITING MOVEMENT-WALLPLANE CURVED CROSS SMALL", aliases: &[] },
    ];
    assert(v@ =~= codepoint_table_752());
    v
}

pub open spec fn codepoint_table_753() -> Seq<Codepoint> {
    seq![
        Codepoint { codepoint: 0x1D9A1, name: "SIGNWRITING MOVEMENT-WALLPLANE CURVED CROSS MEDIUM", aliases: &[] },
        Codepoint { codepoint: 0x1D9A2, name: "SIGNWRITING ROTATION-WALLPLANE SINGLE", aliases: &[] },
        Codepoint { codepoint: 0x1D9A3, name: "SIGNWRITING ROTATION-WALLPLANE DOUBLE", aliases: &[] },
        Codepoint { codepoint: 0x1D9A4, name: "SIGNWRITING ROTATION-WALLPLANE ALTERNATE", aliases: &[] },
        Codepoint { codepoint: 0x1D9A5, name: "SIGNWRITING MOVEMENT-WALLPLANE SHAKING", aliases: &[] },
        Codepoint { codepoint: 0x1D9A6, name: "SIGNWRITING MOVEMENT-WALLPLANE CURVE HITTING FRONT WALL", aliases: &[] },
        Codepoint { codepoint: 0x1D9A7, name: "SIGNWRITING MOVEMENT-WALLPLANE HUMP HITTING FRONT WALL", aliases: &[] },
        Codepoint { codepoint: 0x1D9A8, name: "SIGNWRITING MOVEMENT-WALLPLANE LOOP HITTING FRONT WALL", aliases: &[] },
        Codepoint { codepoint: 0x1D9A9, name: "SIGNWRITING MOVEMENT-WALLPLANE WAVE HITTING FRONT WALL", aliases: &[] },
        Codepoint { codepoint: 0x1D9AA, name: "SIGNWRITING ROTATION-WALLPLANE SINGLE HITTING FRONT WALL", aliases: &[] },
        Codepoint { codepoint: 0x1D9AB, name: "SIGNWRITING ROTATION-WALLPLANE DOUBLE HITTING FRONT WALL", aliases: &[] },
        Codepoint { codepoint: 0x1D9AC, name: "SIGNWRITING ROTATION-WALLPLANE ALTERNATING HITTING FRONT WALL", aliases: &[] },
        Codepoint { codepoint: 0x1D9AD, name: "SIGNWRITING MOVEMENT-WALLPLANE CURVE HITTING CHEST", aliases: &[] },
        Codepoint { codepoint: 0x1D9AE, name: "SIGNWRITING MOVEMENT-WALLPLANE HUMP HITTING CHEST", aliases: &[] },
        Codepoint { codepoint: 0x1D9AF, name: "SIGNWRITING MOVEMENT-WALLPLANE LOOP HITTING CHEST", aliases: &[] },
        Codepoint { codepoint: 0x1D9B0, name: "SIGNWRITING MOVEMENT-WALLPLANE WAVE HITTING CHEST", aliases: &[] },
        Codepoint { codepoint: 0x1D9B1, name: "SIGNWRITING ROTATION-WALLPLANE SINGLE HITTING CHEST", aliases: &[] },
        Codepoint { codepoint: 0x1D9B2, name: "SIGNWRITING ROTATION-WALLPLANE DOUBLE HITTING CHEST", aliases: &[] },
        Codepoint { codepoint: 0x1D9B3, name: "SIGNWRITING ROTATION-WALLPLANE ALTERNATING HITTING CHEST", aliases: &[] },
        Codepoint { codepoint: 0x1D9B4, name: "SIGNWRITING MOVEMENT-WALLPLANE WAVE DIAGONAL PATH SMALL", aliases: &[] },
        Codepoint { codepoint: 0x1D9B5, name: "SIGNWRITING MOVEMENT-WALLPLANE WAVE DIAGONAL PATH MEDIUM", aliases: &[] },
        Codepoint { codepoint: 0x1D9B6, name: "SIGNWRITING MOVEMENT-WALLPLANE WAVE DIAGONAL PATH LARGE", aliases: &[] },
        Codepoint { codepoint: 0x1D9B7, name: "SIGNWRITING MOVEMENT-FLOORPLANE CURVE HITTING CEILING SMALL", aliases: &[] },
        Codepoint { codepoint: 0x1D9B8, name: "SIGNWRITING MOVEMENT-FLOORPLANE CURVE HITTING CEILING LARGE", aliases: &[] },
        Codepoint { codepoint: 0x1D9B9, name: "SIGNWRITING MOVEMENT-FLOORPLANE HUMP HITTING CEILING SMALL DOUBLE", aliases: &[] },
        Codepoint { codepoint: 0x1D9BA, name: "SIGNWRITING MOVEMENT-FLOORPLANE HUMP HITTING CEILING LARGE DOUBLE", aliases: &[] },
        Codepoint { codepoint: 0x1D9BB, name: "SIGNWRITING MOVEMENT-FLOORPLANE HUMP HITTING CEILING SMALL TRIPLE", aliases: &[] },
        Codepoint { codepoint: 0x1D9BC, name: "SIGNWRITING MOVEMENT-FLOORPLANE HUMP HITTING CEILING LARGE TRIPLE", aliases: &[] },
        Codepoint { codepoint: 0x1D9BD, name: "SIGNWRITING MOVEMENT-FLOORPLANE LOOP HITTING CEILING SMALL SINGLE", aliases: &[] },
        Codepoint { codepoint: 0x1D9BE, name: "SIGNWRITING MOVEMENT-FLOORPLANE LOOP HITTING CEILING LARGE SINGLE", aliases: &[] },
        Codepoint { codepoint: 0x1D9BF, name: "SIGNWRITING MOVEMENT-FLOORPLANE LOOP HITTING CEILING SMALL DOUBLE", aliases: &[] },
        Codepoint { codepoint: 0x1D9C0, name: "SIGNWRITING MOVEMENT-FLOORPLANE LOOP HITTING CEILING LARGE DOUBLE", aliases: &[] },
        Codepoint { codepoint: 0x1D9C1, name: "SIGNWRITING MOVEMENT-FLOORPLANE WAVE HITTING CEILING SMALL", aliases: &[] },
        Codepoint { codepoint: 0x1D9C2, name: "SIGNWRITING MOVEMENT-FLOORPLANE WAVE HITTING CEILING LARGE", aliases: &[] },
        Codepoint { codepoint: 0x1D9C3, name: "SIGNWRITING ROTATION-FLOORPLANE SINGLE HITTING CEILING", aliases: &[] },
        Codepoint { codepoint: 0x1D9C4, name: "SIGNWRITING ROTATION-FLOORPLANE DOUBLE HITTING CEILING", aliases: &[] },
        Codepoint { codepoint: 0x1D9C5, name: "SIGNWRITING ROTATION-FLOORPLANE ALTERNATING HITTING CEILING", aliases: &[] },
        Codepoint { codepoint: 0x1D9C6, name: "SIGNWRITING MOVEMENT-FLOORPLANE CURVE HITTING FLOOR SMALL", aliases: &[] },
        Codepoint { codepoint: 0x1D9C7, name: "SIGNWRITING MOVEMENT-FLOORPLANE CURVE HITTING FLOOR LARGE", aliases: &[] },
        Codepoint { codepoint: 0x1D9C8, name: "SIGNWRITING MOVEMENT-FLOORPLANE HUMP HITTING FLOOR SMALL DOUBLE", aliases: &[] },
    ]
}

fn all_codepoints_753() -> (v: Vec<Codepoint>)
    ensures
        v@ == codepoint_table_753(),
{
    let v = vec![
        Codepoint { codepoint: 0x1D9A1, name: "SIGNWRITING MOVEMENT-WALLPLANE CURVED CROSS MEDIUM", aliases: &[] },
        Codepoint { codepoint: 0x1D9A2, name: "SIGNWRITING ROTATION-WALLPLANE SINGLE", aliases: &[] },
        Codepoint { codepoint: 0x1D9A3, name: "SIGNWRITING ROTATION-WALLPLANE DOUBLE", aliases: &[] },
        Codepoint { codepoint: 0x1D9A4, name: "SIGNWRITING ROTATION-WALLPLANE ALTERNATE", aliases: &[] },
        Codepoint { codepoint: 0x1D9A5, name: "SIGNWRITING MOVEMENT-WALLPLANE SHAKING", aliases: &[] },
        Codepoint { codepoint: 0x1D9A6, name: "SIGNWRITING MOVEMENT-WALLPLANE CURVE HITTING FRONT WALL", aliases: &[] },
        Codepoint { codepoint: 0x1D9A7, name: "SIGNWRITING MOVEMENT-WALLPLANE HUMP HITTING FRONT WALL", aliases: &[] },
        Codepoint { codepoint: 0x1D9A8, name: "SIGNWRITING MOVEMENT-WALLPLANE LOOP HITTING FRONT WALL", aliases: &[] },
        Codepoint { codepoint: 0x1D9A9, name: "SIGNWRITING MOVEMENT-WALLPLANE WAVE HITTING FRONT WALL", aliases: &[] },
        Codepoint { codepoint: 0x1D9AA, name: "SIGNWRITING ROTATION-WALLPLANE SINGLE HITTING FRONT WALL", aliases: &[] },
        Codepoint { codepoint: 0x1D9AB, name: "SIGNWRITING ROTATION-WALLPLANE DOUBLE HITTING FRONT WALL", aliases: &[] },
        Codepoint { codepoint: 0x1D9AC, name: "SIGNWRITING ROTATION-WALLPLANE ALTERNATING HITTING FRONT WALL", aliases: &[] },
        Codepoint { codepoint: 0x1D9AD, name: "SIGNWRITING MOVEMENT-WALLPLANE CURVE HITTING CHEST", aliases: &[] },
        Codepoint { codepoint: 0x1D9AE, name: "SIGNWRITING MOVEMENT-WALLPLANE HUMP HITTING CHEST", aliases: &[] },
        Codepoint { codepoint: 0x1D9AF, name: "SIGNWRITING MOVEMENT-WALLPLANE LOOP HITTING CHEST", aliases: &[] },
        Codepoint { codepoint: 0x1D9B0, name: "SIGNWRITING MOVEMENT-WALLPLANE WAVE HITTING CHEST", aliases: &[] },
        Codepoint { codepoint: 0x1D9B1, name: "SIGNWRITING ROTATION-WALLPLANE SINGLE HITTING CHEST", aliases: &[] },
        Codepoint { codepoint: 0x1D9B2, name: "SIGNWRITING ROTATION-WALLPLANE DOUBLE HITTING CHEST", aliases: &[] },
        Codepoint { codepoint: 0x1D9B3, name: "SIGNWRITING ROTATION-WALLPLANE ALTERNATING HITTING CHEST", aliases: &[] },
        Codepoint { codepoint: 0x1D9B4, name: "SIGNWRITING MOVEMENT-WALLPLANE WAVE DIAGONAL PATH SMALL", aliases: &[] },
        Codepoint { codepoint: 0x1D9B5, name: "SIGNWRITING MOVEMENT-WALLPLANE WAVE DIAGONAL PATH MEDIUM", aliases: &[] },
        Codepoint { codepoint: 0x1D9B6, name: "SIGNWRITING MOVEMENT-WALLPLANE WAVE DIAGONAL PATH LARGE", aliases: &[] },
        Codepoint { codepoint: 0x1D9B7, name: "SIGNWRITING MOVEMENT-FLOORPLANE CURVE HITTING CEILING SMALL", aliases: &[] },
        Codepoint { codepoint: 0x1D9B8, name: "SIGNWRITING MOVEMENT-FLOORPLANE CURVE HITTING CEILING LARGE", aliases: &[] },
        Codepoint { codepoint: 0x1D9B9, name: "SIGNWRITING MOVEMENT-FLOORPLANE HUMP HITTING CEILING SMALL DOUBLE", aliases: &[] },
        Codepoint { codepoint: 0x1D9BA, name: "SIGNWRITING MOVEMENT-FLOORPLANE HUMP HITTING CEILING LARGE DOUBLE", aliases: &[] },
        Codepoint { codepoint: 0x1D9BB, name: "SIGNWRITING MOVEMENT-FLOORPLANE HUMP HITTING CEILING SMALL TRIPLE", aliases: &[] },
        Codepoint { codepoint: 0x1D9BC, name: "SIGNWRITING MOVEMENT-FLOORPLANE HUMP HITTING CEILING LARGE TRIPLE", aliases: &[] },
        Codepoint { codepoint: 0x1D9BD, name: "SIGNWRITING MOVEMENT-FLOORPLANE LOOP HITTING CEILING SMALL SINGLE", aliases: &[] },
        Codepoint { codepoint: 0x1D9BE, name: "SIGNWRITING MOVEMENT-FLOORPLANE LOOP HITTING CEILING LARGE SINGLE", aliases: &[] },
        Codepoint { codepoint: 0x1D9BF, name: "SIGNWRITING MOVEMENT-FLOORPLANE LOOP HITTING CEILING SMALL DOUBLE", aliases: &[] },
        Codepoint { codepoint: 0x1D9C0, name: "SIGNWRITING MOVEMENT-FLOORPLANE LOOP HITTING CEILING LARGE DOUBLE", aliases: &[] },
        Codepoint { codepoint: 0x1D9C1, name: "SIGNWRITING MOVEMENT-FLOORPLANE WAVE HITTING CEILING SMALL", aliases: &[] },
        Codepoint { codepoint: 0x1D9C2, name: "SIGNWRITING MOVEMENT-FLOORPLANE WAVE HITTING CEILING LARGE", aliases: &[] },
        Codepoint { codepoint: 0x1D9C3, name: "SIGNWRITING ROTATION-FLOORPLANE SINGLE HITTING CEILING", aliases: &[] },
        Codepoint { codepoint: 0x1D9C4, name: "SIGNWRITING ROTATION-FLOORPLANE DOUBLE HITTING CEILING", aliases: &[] },
        Codepoint { codepoint: 0x1D9C5, name: "SIGNWRITING ROTATION-FLOORPLANE ALTERNATING HITTING CEILING", aliases: &[] },
        Codepoint { codepoint: 0x1D9C6, name: "SIGNWRITING MOVEMENT-FLOORPLANE CURVE HITTING FLOOR SMALL", aliases: &[] },
        Codepoint { codepoint: 0x1D9C7, name: "SIGNWRITING MOVEMENT-FLOORPLANE CURVE HITTING FLOOR LARGE", aliases: &[] },
        Codepoint { codepoint: 0x1D9C8, name: "SIGNWRITING MOVEMENT-FLOORPLANE HUMP HITTING FLOOR SMALL DOUBLE", aliases: &[] },
    ];
    assert(v@ =~= codepoint_table_753());
    v
}

pub open spec fn codepoint_table_754() -> Seq<Codepoint> {
    seq![
        Codepoint { codepoint: 0x1D9C9, name: "SIGNWRITING MOVEMENT-FLOORPLANE HUMP HITTING FLOOR LARGE DOUBLE", aliases: &[] },
        Codepoint { codepoint: 0x1D9CA, name: "SIGNWRITING MOVEMENT-FLOORPLANE HUMP HITTING FLOOR TRIPLE SMALL TRIPLE", aliases: &[] },
        Codepoint { codepoint: 0x1D9CB, name: "SIGNWRITING MOVEMENT-FLOORPLANE HUMP HITTING FLOOR TRIPLE LARGE TRIPLE", aliases: &[] },
        Codepoint { codepoint: 0x1D9CC, name: "SIGNWRITING MOVEMENT-FLOORPLANE LOOP HITTING FLOOR SMALL SINGLE", aliases: &[] },
        Codepoint { codepoint: 0x1D9CD, name: "SIGNWRITING MOVEMENT-FLOORPLANE LOOP HITTING FLOOR LARGE SINGLE", aliases: &[] },
        Codepoint { codepoint: 0x1D9CE, name: "SIGNWRITING MOVEMENT-FLOORPLANE LOOP HITTING FLOOR SMALL DOUBLE", aliases: &[] },
        Codepoint { codepoint: 0x1D9CF, name: "SIGNWRITING MOVEMENT-FLOORPLANE LOOP HITTING FLOOR LARGE DOUBLE", aliases: &[] },
        Codepoint { codepoint: 0x1D9D0, name: "SIGNWRITING MOVEMENT-FLOORPLANE WAVE HITTING FLOOR SMALL", aliases: &[] },
        Codepoint { codepoint: 0x1D9D1, name: "SIGNWRITING MOVEMENT-FLOORPLANE WAVE HITTING FLOOR LARGE", aliases: &[] },
        Codepoint { codepoint: 0x1D9D2, name: "SIGNWRITING ROTATION-FLOORPLANE SINGLE HITTING FLOOR", aliases: &[] },
        Codepoint { codepoint: 0x1D9D3, name: "SIGNWRITING ROTATION-FLOORPLANE DOUBLE HITTING FLOOR", aliases: &[] },
        Codepoint { codepoint: 0x1D9D4, name: "SIGNWRITING ROTATION-FLOORPLANE ALTERNATING HITTING FLOOR", aliases: &[] },
        Codepoint { codepoint: 0x1D9D5, name: "SIGNWRITING MOVEMENT-FLOORPLANE CURVE SMALL", aliases: &[] },
        Codepoint { codepoint: 0x1D9D6, name: "SIGNWRITING MOVEMENT-FLOORPLANE CURVE MEDIUM", aliases: &[] },
        Codepoint { codepoint: 0x1D9D7, name: "SIGNWRITING MOVEMENT-FLOORPLANE CURVE LARGE", aliases: &[] },
        Codepoint { codepoint: 0x1D9D8, name: "SIGNWRITING MOVEMENT-FLOORPLANE CURVE LARGEST", aliases: &[] },
        Codepoint { codepoint: 0x1D9D9, name: "SIGNWRITING MOVEMENT-FLOORPLANE CURVE COMBINED", aliases: &[] },
        Codepoint { codepoint: 0x1D9DA, name: "SIGNWRITING MOVEMENT-FLOORPLANE HUMP SMALL", aliases: &[] },
        Codepoint { codepoint: 0x1D9DB, name: "SIGNWRITING MOVEMENT-FLOORPLANE LOOP SMALL", aliases: &[] },
        Codepoint { codepoint: 0x1D9DC, name: "SIGNWRITING MOVEMENT-FLOORPLANE WAVE SNAKE", aliases: &[] },
        Codepoint { codepoint: 0x1D9DD, name: "SIGNWRITING MOVEMENT-FLOORPLANE WAVE SMALL", aliases: &[] },
        Codepoint { codepoint: 0x1D9DE, name: "SIGNWRITING MOVEMENT-FLOORPLANE WAVE LARGE", aliases: &[] },
        Codepoint { codepoint: 0x1D9DF, name: "SIGNWRITING ROTATION-FLOORPLANE SINGLE", aliases: &[] },
        Codepoint { codepoint: 0x1D9E0, name: "SIGNWRITING ROTATION-FLOORPLANE DOUBLE", aliases: &[] },
        Codepoint { codepoint: 0x1D9E1, name: "SIGNWRITING ROTATION-FLOORPLANE ALTERNATING", aliases: &[] },
        Codepoint { codepoint: 0x1D9E2, name: "SIGNWRITING MOVEMENT-FLOORPLANE SHAKING PARALLEL", aliases: &[] },
        Codepoint { codepoint: 0x1D9E3, name: "SIGNWRITING MOVEMENT-WALLPLANE ARM CIRCLE SMALL SINGLE", aliases: &[] },
        Codepoint { codepoint: 0x1D9E4, name: "SIGNWRITING MOVEMENT-WALLPLANE ARM CIRCLE MEDIUM SINGLE", aliases: &[] },
        Codepoint { codepoint: 0x1D9E5, name: "SIGNWRITING MOVEMENT-WALLPLANE ARM CIRCLE SMALL DOUBLE", aliases: &[] },
        Codepoint { codepoint: 0x1D9E6, name: "SIGNWRITING MOVEMENT-WALLPLANE ARM CIRCLE MEDIUM DOUBLE", aliases: &[] },
        Codepoint { codepoint: 0x1D9E7, name: "SIGNWRITING MOVEMENT-FLOORPLANE ARM CIRCLE HITTING WALL SMALL SINGLE", aliases: &[] },
        Codepoint { codepoint: 0x1D9E8, name: "SIGNWRITING MOVEMENT-FLOORPLANE ARM CIRCLE HITTING WALL MEDIUM SINGLE", aliases: &[] },
        Codepoint { codepoint: 0x1D9E9, name: "SIGNWRITING MOVEMENT-FLOORPLANE ARM CIRCLE HITTING WALL LARGE SINGLE", aliases: &[] },
        Codepoint { codepoint: 0x1D9EA, name: "SIGNWRITING MOVEMENT-FLOORPLANE ARM CIRCLE HITTING WALL SMALL DOUBLE", aliases: &[] },
        Codepoint { codepoint: 0x1D9EB, name: "SIGNWRITING MOVEMENT-FLOORPLANE ARM CIRCLE HITTING WALL MEDIUM DOUBLE", aliases: &[] },
        Codepoint { codepoint: 0x1D9EC, name: "SIGNWRITING MOVEMENT-FLOORPLANE ARM CIRCLE HITTING WALL LARGE DOUBLE", aliases: &[] },
        Codepoint { codepoint: 0x1D9ED, name: "SIGNWRITING MOVEMENT-WALLPLANE WRIST CIRCLE FRONT SINGLE", aliases: &[] },
        Codepoint { codepoint: 0x1D9EE, name: "SIGNWRITING MOVEMENT-WALLPLANE WRIST CIRCLE FRONT DOUBLE", aliases: &[] },
        Codepoint { codepoint: 0x1D9EF, name: "SIGNWRITING MOVEMENT-FLOORPLANE WRIST CIRCLE HITTING WALL SINGLE", aliases: &[] },
        Codepoint { codepoint: 0x1D9F0, name: "SIGNWRITING MOVEMENT-FLOORPLANE WRIST CIRCLE HITTING WALL DOUBLE", aliases: &[] },
    ]
}

fn all_codepoints_754() -> (v: Vec<Codepoint>)
    ensures
        v@ == codepoint_table_754(),
{
    let v = vec![
        Codepoint { codepoint: 0x1D9C9, name: "SIGNWRITING MOVEMENT-FLOORPLANE HUMP HITTING FLOOR LARGE DOUBLE", aliases: &[] },
        Codepoint { codepoint: 0x1D9CA, name: "SIGNWRITING MOVEMENT-FLOORPLANE HUMP HITTING FLOOR TRIPLE SMALL TRIPLE", aliases: &[] },
        Codepoint { codepoint: 0x1D9CB, name: "SIGNWRITING MOVEMENT-FLOORPLANE HUMP HITTING FLOOR TRIPLE LARGE TRIPLE", aliases: &[] },
        Codepoint { codepoint: 0x1D9CC, name: "SIGNWRITING MOVEMENT-FLOORPLANE LOOP HITTING FLOOR SMALL SINGLE", aliases: &[] },
        Codepoint { codepoint: 0x1D9CD, name: "SIGNWRITING MOVEMENT-FLOORPLANE LOOP HITTING FLOOR LARGE SINGLE", aliases: &[] },
        Codepoint { codepoint: 0x1D9CE, name: "SIGNWRITING MOVEMENT-FLOORPLANE LOOP HITTING FLOOR SMALL DOUBLE", aliases: &[] },
        Codepoint { codepoint: 0x1D9CF, name: "SIGNWRITING MOVEMENT-FLOORPLANE LOOP HITTING FLOOR LARGE DOUBLE", aliases: &[] },
        Codepoint { codepoint: 0x1D9D0, name: "SIGNWRITING MOVEMENT-FLOORPLANE WAVE HITTING FLOOR SMALL", aliases: &[] },
        Codepoint { codepoint: 0x1D9D1, name: "SIGNWRITING MOVEMENT-FLOORPLANE WAVE HITTING FLOOR LARGE", aliases: &[] },
        Codepoint { codepoint: 0x1D9D2, name: "SIGNWRITING ROTATION-FLOORPLANE SINGLE HITTING FLOOR", aliases: &[] },
        Codepoint { codepoint: 0x1D9D3, name: "SIGNWRITING ROTATION-FLOORPLANE DOUBLE HITTING FLOOR", aliases: &[] },
        Codepoint { codepoint: 0x1D9D4, name: "SIGNWRITING ROTATION-FLOORPLANE ALTERNATING HITTING FLOOR", aliases: &[] },
        Codepoint { codepoint: 0x1D9D5, name: "SIGNWRITING MOVEMENT-FLOORPLANE CURVE SMALL", aliases: &[] },
        Codepoint { codepoint: 0x1D9D6, name: "SIGNWRITING MOVEMENT-FLOORPLANE CURVE MEDIUM", aliases: &[] },
        Codepoint { codepoint: 0x1D9D7, name: "SIGNWRITING MOVEMENT-FLOORPLANE CURVE LARGE", aliases: &[] },
        Codepoint { codepoint: 0x1D9D8, name: "SIGNWRITING MOVEMENT-FLOORPLANE CURVE LARGEST", aliases: &[] },
        Codepoint { codepoint: 0x1D9D9, name: "SIGNWRITING MOVEMENT-FLOORPLANE CURVE COMBINED", aliases: &[] },
        Codepoint { codepoint: 0x1D9DA, name: "SIGNWRITING MOVEMENT-FLOORPLANE HUMP SMALL", aliases: &[] },
        Codepoint { codepoint: 0x1D9DB, name: "SIGNWRITING MOVEMENT-FLOORPLANE LOOP SMALL", aliases: &[] },
        Codepoint { codepoint: 0x1D9DC, name: "SIGNWRITING MOVEMENT-FLOORPLANE WAVE SNAKE", aliases: &[] },
        Codepoint { codepoint: 0x1D9DD, name: "SIGNWRITING MOVEMENT-FLOORPLANE WAVE SMALL", aliases: &[] },
        Codepoint { codepoint: 0x1D9DE, name: "SIGNWRITING MOVEMENT-FLOORPLANE WAVE LARGE", aliases: &[] },
        Codepoint { codepoint: 0x1D9DF, name: "SIGNWRITING ROTATION-FLOORPLANE SINGLE", aliases: &[] },
        Codepoint { codepoint: 0x1D9E0, name: "SIGNWRITING ROTATION-FLOORPLANE DOUBLE", aliases: &[] },
        Codepoint { codepoint: 0x1D9E1, name: "SIGNWRITING ROTATION-FLOORPLANE ALTERNATING", aliases: &[] },
        Codepoint { codepoint: 0x1D9E2, name: "SIGNWRITING MOVEMENT-FLOORPLANE SHAKING PARALLEL", aliases: &[] },
        Codepoint { codepoint: 0x1D9E3, name: "SIGNWRITING MOVEMENT-WALLPLANE ARM CIRCLE SMALL SINGLE", aliases: &[] },
        Codepoint { codepoint: 0x1D9E4, name: "SIGNWRITING MOVEMENT-WALLPLANE ARM CIRCLE MEDIUM SINGLE", aliases: &[] },
        Codepoint { codepoint: 0x1D9E5, name: "SIGNWRITING MOVEMENT-WALLPLANE ARM CIRCLE SMALL DOUBLE", aliases: &[] },
        Codepoint { codepoint: 0x1D9E6, name: "SIGNWRITING MOVEMENT-WALLPLANE ARM CIRCLE MEDIUM DOUBLE", aliases: &[] },
        Codepoint { codepoint: 0x1D9E7, name: "SIGNWRITING MOVEMENT-FLOORPLANE ARM CIRCLE HITTING WALL SMALL SINGLE", aliases: &[] },
        Codepoint { codepoint: 0x1D9E8, name: "SIGNWRITING MOVEMENT-FLOORPLANE ARM CIRCLE HITTING WALL MEDIUM SINGLE", aliases: &[] },
        Codepoint { codepoint: 0x1D9E9, name: "SIGNWRITING MOVEMENT-FLOORPLANE ARM CIRCLE HITTING WALL LARGE SINGLE", aliases: &[] },
        Codepoint { codepoint: 0x1D9EA, name: "SIGNWRITING MOVEMENT-FLOORPLANE ARM CIRCLE HITTING WALL SMALL DOUBLE", aliases: &[] },
        Codepoint { codepoint: 0x1D9EB, name: "SIGNWRITING MOVEMENT-FLOORPLANE ARM CIRCLE HITTING WALL MEDIUM DOUBLE", aliases: &[] },
        Codepoint { codepoint: 0x1D9EC, name: "SIGNWRITING MOVEMENT-FLOORPLANE ARM CIRCLE HITTING WALL LARGE DOUBLE", aliases: &[] },
        Codepoint { codepoint: 0x1D9ED, name: "SIGNWRITING MOVEMENT-WALLPLANE WRIST CIRCLE FRONT SINGLE", aliases: &[] },
        Codepoint { codepoint: 0x1D9EE, name: "SIGNWRITING MOVEMENT-WALLPLANE WRIST CIRCLE FRONT DOUBLE", aliases: &[] },
        Codepoint { codepoint: 0x1D9EF, name: "SIGNWRITING MOVEMENT-FLOORPLANE WRIST CIRCLE HITTING WALL SINGLE", aliases: &[] },
        Codepoint { codepoint: 0x1D9F0, name: "SIGNWRITING MOVEMENT-FLOORPLANE WRIST CIRCLE HITTING WALL DOUBLE", aliases: &[] },
    ];
    assert(v@ =~= codepoint_table_754());
    v
}

pub open spec fn codepoint_table_755() -> Seq<Codepoint> {
    seq![
        Codepoint { codepoint: 0x1D9F1, name: "SIGNWRITING MOVEMENT-WALLPLANE FINGER CIRCLES SINGLE", aliases: &[] },
        Codepoint { codepoint: 0x1D9F2, name: "SIGNWRITING MOVEMENT-WALLPLANE FINGER CIRCLES DOUBLE", aliases: &[] },
        Codepoint { codepoint: 0x1D9F3, name: "SIGNWRITING MOVEMENT-FLOORPLANE FINGER CIRCLES HITTING WALL SINGLE", aliases: &[] },
        Codepoint { codepoint: 0x1D9F4, name: "SIGNWRITING MOVEMENT-FLOORPLANE FINGER CIRCLES HITTING WALL DOUBLE", aliases: &[] },
        Codepoint { codepoint: 0x1D9F5, name: "SIGNWRITING DYNAMIC ARROWHEAD SMALL", aliases: &[] },
        Codepoint { codepoint: 0x1D9F6, name: "SIGNWRITING DYNAMIC ARROWHEAD LARGE", aliases: &[] },
        Codepoint { codepoint: 0x1D9F7, name: "SIGNWRITING DYNAMIC FAST", aliases: &[] },
        Codepoint { codepoint: 0x1D9F8, name: "SIGNWRITING DYNAMIC SLOW", aliases: &[] },
        Codepoint { codepoint: 0x1D9F9, name: "SIGNWRITING DYNAMIC TENSE", aliases: &[] },
        Codepoint { codepoint: 0x1D9FA, name: "SIGNWRITING DYNAMIC RELAXED", aliases: &[] },
        Codepoint { codepoint: 0x1D9FB, name: "SIGNWRITING DYNAMIC SIMULTANEOUS", aliases: &[] },
        Codepoint { codepoint: 0x1D9FC, name: "SIGNWRITING DYNAMIC SIMULTANEOUS ALTERNATING", aliases: &[] },
        Codepoint { codepoint: 0x1D9FD, name: "SIGNWRITING DYNAMIC EVERY OTHER TIME", aliases: &[] },
        Codepoint { codepoint: 0x1D9FE, name: "SIGNWRITING DYNAMIC GRADUAL", aliases: &[] },
        Codepoint { codepoint: 0x1D9FF, name: "SIGNWRITING HEAD", aliases: &[] },
        Codepoint { codepoint: 0x1DA00, name: "SIGNWRITING HEAD RIM", aliases: &[] },
        Codepoint { codepoint: 0x1DA01, name: "SIGNWRITING HEAD MOVEMENT-WALLPLANE STRAIGHT", aliases: &[] },
        Codepoint { codepoint: 0x1DA02, name: "SIGNWRITING HEAD MOVEMENT-WALLPLANE TILT", aliases: &[] },
        Codepoint { codepoint: 0x1DA03, name: "SIGNWRITING HEAD MOVEMENT-FLOORPLANE STRAIGHT", aliases: &[] },
        Codepoint { codepoint: 0x1DA04, name: "SIGNWRITING HEAD MOVEMENT-WALLPLANE CURVE", aliases: &[] },
        Codepoint { codepoint: 0x1DA05, name: "SIGNWRITING HEAD MOVEMENT-FLOORPLANE CURVE", aliases: &[] },
        Codepoint { codepoint: 0x1DA06, name: "SIGNWRITING HEAD MOVEMENT CIRCLE", aliases: &[] },
        Codepoint { codepoint: 0x1DA07, name: "SIGNWRITING FACE DIRECTION POSITION NOSE FORWARD TILTING", aliases: &[] },
        Codepoint { codepoint: 0x1DA08, name: "SIGNWRITING FACE DIRECTION POSITION NOSE UP OR DOWN", aliases: &[] },
        Codepoint { codepoint: 0x1DA09, name: "SIGNWRITING FACE DIRECTION POSITION NOSE UP OR DOWN TILTING", aliases: &[] },
        Codepoint { codepoint: 0x1DA0A, name: "SIGNWRITING EYEBROWS STRAIGHT UP", aliases: &[] },
        Codepoint { codepoint: 0x1DA0B, name: "SIGNWRITING EYEBROWS STRAIGHT NEUTRAL", aliases: &[] },
        Codepoint { codepoint: 0x1DA0C, name: "SIGNWRITING EYEBROWS STRAIGHT DOWN", aliases: &[] },
        Codepoint { codepoint: 0x1DA0D, name: "SIGNWRITING DREAMY EYEBROWS NEUTRAL DOWN", aliases: &[] },
        Codepoint { codepoint: 0x1DA0E, name: "SIGNWRITING DREAMY EYEBROWS DOWN NEUTRAL", aliases: &[] },
        Codepoint { codepoint: 0x1DA0F, name: "SIGNWRITING DREAMY EYEBROWS UP NEUTRAL", aliases: &[] },
        Codepoint { codepoint: 0x1DA10, name: "SIGNWRITING DREAMY EYEBROWS NEUTRAL UP", aliases: &[] },
        Codepoint { codepoint: 0x1DA11, name: "SIGNWRITING FOREHEAD NEUTRAL", aliases: &[] },
        Codepoint { codepoint: 0x1DA12, name: "SIGNWRITING FOREHEAD CONTACT", aliases: &[] },
        Codepoint { codepoint: 0x1DA13, name: "SIGNWRITING FOREHEAD WRINKLED", aliases: &[] },
        Codepoint { codepoint: 0x1DA14, name: "SIGNWRITING EYES OPEN", aliases: &[] },
        Codepoint { codepoint: 0x1DA15, name: "SIGNWRITING EYES SQUEEZED", aliases: &[] },
        Codepoint { codepoint: 0x1DA16, name: "SIGNWRITING EYES CLOSED", aliases: &[] },
        Codepoint { codepoint: 0x1DA17, name: "SIGNWRITING EYE BLINK SINGLE", aliases: &[] },
        Codepoint { codepoint: 0x1DA18, name: "SIGNWRITING EYE BLINK MULTIPLE", aliases: &[] },
    ]
}

fn all_codepoints_755() -> (v: Vec<Codepoint>)
    ensures
        v@ == codepoint_table_755(),
{
    let v = vec![
        Codepoint { codepoint: 0x1D9F1, name: "SIGNWRITING MOVEMENT-WALLPLANE FINGER CIRCLES SINGLE", aliases: &[] },
        Codepoint { codepoint: 0x1D9F2, name: "SIGNWRITING MOVEMENT-WALLPLANE FINGER CIRCLES DOUBLE", aliases: &[] },
        Codepoint { codepoint: 0x1D9F3, name: "SIGNWRITING MOVEMENT-FLOORPLANE FINGER CIRCLES HITTING WALL SINGLE", aliases: &[] },
        Codepoint { codepoint: 0x1D9F4, name: "SIGNWRITING MOVEMENT-FLOORPLANE FINGER CIRCLES HITTING WALL DOUBLE", aliases: &[] },
        Codepoint { codepoint: 0x1D9F5, name: "SIGNWRITING DYNAMIC ARROWHEAD SMALL", aliases: &[] },
        Codepoint { codepoint: 0x1D9F6, name: "SIGNWRITING DYNAMIC ARROWHEAD LARGE", aliases: &[] },
        Codepoint { codepoint: 0x1D9F7, name: "SIGNWRITING DYNAMIC FAST", aliases: &[] },
        Codepoint { codepoint: 0x1D9F8, name: "SIGNWRITING DYNAMIC SLOW", aliases: &[] },
        Codepoint { codepoint: 0x1D9F9, name: "SIGNWRITING DYNAMIC TENSE", aliases: &[] },
        Codepoint { codepoint: 0x1D9FA, name: "SIGNWRITING DYNAMIC RELAXED", aliases: &[] },
        Codepoint { codepoint: 0x1D9FB, name: "SIGNWRITING DYNAMIC SIMULTANEOUS", aliases: &[] },
        Codepoint { codepoint: 0x1D9FC, name: "SIGNWRITING DYNAMIC SIMULTANEOUS ALTERNATING", aliases: &[] },
        Codepoint { codepoint: 0x1D9FD, name: "SIGNWRITING DYNAMIC EVERY OTHER TIME", aliases: &[] },
        Codepoint { codepoint: 0x1D9FE, name: "SIGNWRITING DYNAMIC GRADUAL", aliases: &[] },
        Codepoint { codepoint: 0x1D9FF, name: "SIGNWRITING HEAD", aliases: &[] },
        Codepoint { codepoint: 0x1DA00, name: "SIGNWRITING HEAD RIM", aliases: &[] },
        Codepoint { codepoint: 0x1DA01, name: "SIGNWRITING HEAD MOVEMENT-WALLPLANE STRAIGHT", aliases: &[] },
        Codepoint { codepoint: 0x1DA02, name: "SIGNWRITING HEAD MOVEMENT-WALLPLANE TILT", aliases: &[] },
        Codepoint { codepoint: 0x1DA03, name: "SIGNWRITING HEAD MOVEMENT-FLOORPLANE STRAIGHT", aliases: &[] },
        Codepoint { codepoint: 0x1DA04, name: "SIGNWRITING HEAD MOVEMENT-WALLPLANE CURVE", aliases: &[] },
        Codepoint { codepoint: 0x1DA05, name: "SIGNWRITING HEAD MOVEMENT-FLOORPLANE CURVE", aliases: &[] },
        Codepoint { codepoint: 0x1DA06, name: "SIGNWRITING HEAD MOVEMENT CIRCLE", aliases: &[] },
        Codepoint { codepoint: 0x1DA07, name: "SIGNWRITING FACE DIRECTION POSITION NOSE FORWARD TILTING", aliases: &[] },
        Codepoint { codepoint: 0x1DA08, name: "SIGNWRITING FACE DIRECTION POSITION NOSE UP OR DOWN", aliases: &[] },
        Codepoint { codepoint: 0x1DA09, name: "SIGNWRITING FACE DIRECTION POSITION NOSE UP OR DOWN TILTING", aliases: &[] },
        Codepoint { codepoint: 0x1DA0A, name: "SIGNWRITING EYEBROWS STRAIGHT UP", aliases: &[] },
        Codepoint { codepoint: 0x1DA0B, name: "SIGNWRITING EYEBROWS STRAIGHT NEUTRAL", aliases: &[] },
        Codepoint { codepoint: 0x1DA0C, name: "SIGNWRITING EYEBROWS STRAIGHT DOWN", aliases: &[] },
        Codepoint { codepoint: 0x1DA0D, name: "SIGNWRITING DREAMY EYEBROWS NEUTRAL DOWN", aliases: &[] },
        Codepoint { codepoint: 0x1DA0E, name: "SIGNWRITING DREAMY EYEBROWS DOWN NEUTRAL", aliases: &[] },
        Codepoint { codepoint: 0x1DA0F, name: "SIGNWRITING DREAMY EYEBROWS UP NEUTRAL", aliases: &[] },
        Codepoint { codepoint: 0x1DA10, name: "SIGNWRITING DREAMY EYEBROWS NEUTRAL UP", aliases: &[] },
        Codepoint { codepoint: 0x1DA11, name: "SIGNWRITING FOREHEAD NEUTRAL", aliases: &[] },
        Codepoint { codepoint: 0x1DA12, name: "SIGNWRITING FOREHEAD CONTACT", aliases: &[] },
        Codepoint { codepoint: 0x1DA13, name: "SIGNWRITING FOREHEAD WRINKLED", aliases: &[] },
        Codepoint { codepoint: 0x1DA14, name: "SIGNWRITING EYES OPEN", aliases: &[] },
        Codepoint { codepoint: 0x1DA15, name: "SIGNWRITING EYES SQUEEZED", aliases: &[] },
        Codepoint { codepoint: 0x1DA16, name: "SIGNWRITING EYES CLOSED", aliases: &[] },
        Codepoint { codepoint: 0x1DA17, name: "SIGNWRITING EYE BLINK SINGLE", aliases: &[] },
        Codepoint { codepoint: 0x1DA18, name: "SIGNWRITING EYE BLINK MULTIPLE", aliases: &[] },
    ];
    assert(v@ =~= codepoint_table_755());
    v
}

pub open spec fn codepoint_table_756() -> Seq<Codepoint> {
    seq![
        Codepoint { codepoint: 0x1DA19, name: "SIGNWRITING EYES HALF OPEN", aliases: &[] },
        Codepoint { codepoint: 0x1DA1A, name: "SIGNWRITING EYES WIDE OPEN", aliases: &[] },
        Codepoint { codepoint: 0x1DA1B, name: "SIGNWRITING EYES HALF CLOSED", aliases: &[] },
        Codepoint { codepoint: 0x1DA1C, name: "SIGNWRITING EYES WIDENING MOVEMENT", aliases: &[] },
        Codepoint { codepoint: 0x1DA1D, name: "SIGNWRITING EYE WINK", aliases: &[] },
        Codepoint { codepoint: 0x1DA1E, name: "SIGNWRITING EYELASHES UP", aliases: &[] },
        Codepoint { codepoint: 0x1DA1F, name: "SIGNWRITING EYELASHES DOWN", aliases: &[] },
        Codepoint { codepoint: 0x1DA20, name: "SIGNWRITING EYELASHES FLUTTERING", aliases: &[] },
        Codepoint { codepoint: 0x1DA21, name: "SIGNWRITING EYEGAZE-WALLPLANE STRAIGHT", aliases: &[] },
        Codepoint { codepoint: 0x1DA22, name: "SIGNWRITING EYEGAZE-WALLPLANE STRAIGHT DOUBLE", aliases: &[] },
        Codepoint { codepoint: 0x1DA23, name: "SIGNWRITING EYEGAZE-WALLPLANE STRAIGHT ALTERNATING", aliases: &[] },
        Codepoint { codepoint: 0x1DA24, name: "SIGNWRITING EYEGAZE-FLOORPLANE STRAIGHT", aliases: &[] },
        Codepoint { codepoint: 0x1DA25, name: "SIGNWRITING EYEGAZE-FLOORPLANE STRAIGHT DOUBLE", aliases: &[] },
        Codepoint { codepoint: 0x1DA26, name: "SIGNWRITING EYEGAZE-FLOORPLANE STRAIGHT ALTERNATING", aliases: &[] },
        Codepoint { codepoint: 0x1DA27, name: "SIGNWRITING EYEGAZE-WALLPLANE CURVED", aliases: &[] },
        Codepoint { codepoint: 0x1DA28, name: "SIGNWRITING EYEGAZE-FLOORPLANE CURVED", aliases: &[] },
        Codepoint { codepoint: 0x1DA29, name: "SIGNWRITING EYEGAZE-WALLPLANE CIRCLING", aliases: &[] },
        Codepoint { codepoint: 0x1DA2A, name: "SIGNWRITING CHEEKS PUFFED", aliases: &[] },
        Codepoint { codepoint: 0x1DA2B, name: "SIGNWRITING CHEEKS NEUTRAL", aliases: &[] },
        Codepoint { codepoint: 0x1DA2C, name: "SIGNWRITING CHEEKS SUCKED", aliases: &[] },
        Codepoint { codepoint: 0x1DA2D, name: "SIGNWRITING TENSE CHEEKS HIGH", aliases: &[] },
        Codepoint { codepoint: 0x1DA2E, name: "SIGNWRITING TENSE CHEEKS MIDDLE", aliases: &[] },
        Codepoint { codepoint: 0x1DA2F, name: "SIGNWRITING TENSE CHEEKS LOW", aliases: &[] },
        Codepoint { codepoint: 0x1DA30, name: "SIGNWRITING EARS", aliases: &[] },
        Codepoint { codepoint: 0x1DA31, name: "SIGNWRITING NOSE NEUTRAL", aliases: &[] },
        Codepoint { codepoint: 0x1DA32, name: "SIGNWRITING NOSE CONTACT", aliases: &[] },
        Codepoint { codepoint: 0x1DA33, name: "SIGNWRITING NOSE WRINKLES", aliases: &[] },
        Codepoint { codepoint: 0x1DA34, name: "SIGNWRITING NOSE WIGGLES", aliases: &[] },
        Codepoint { codepoint: 0x1DA35, name: "SIGNWRITING AIR BLOWING OUT", aliases: &[] },
        Codepoint { codepoint: 0x1DA36, name: "SIGNWRITING AIR SUCKING IN", aliases: &[] },
        Codepoint { codepoint: 0x1DA37, name: "SIGNWRITING AIR BLOW SMALL ROTATIONS", aliases: &[] },
        Codepoint { codepoint: 0x1DA38, name: "SIGNWRITING AIR SUCK SMALL ROTATIONS", aliases: &[] },
        Codepoint { codepoint: 0x1DA39, name: "SIGNWRITING BREATH INHALE", aliases: &[] },
        Codepoint { codepoint: 0x1DA3A, name: "SIGNWRITING BREATH EXHALE", aliases: &[] },
        Codepoint { codepoint: 0x1DA3B, name: "SIGNWRITING MOUTH CLOSED NEUTRAL", aliases: &[] },
        Codepoint { codepoint: 0x1DA3C, name: "SIGNWRITING MOUTH CLOSED FORWARD", aliases: &[] },
        Codepoint { codepoint: 0x1DA3D, name: "SIGNWRITING MOUTH CLOSED CONTACT", aliases: &[] },
        Codepoint { codepoint: 0x1DA3E, name: "SIGNWRITING MOUTH SMILE", aliases: &[] },
        Codepoint { codepoint: 0x1DA3F, name: "SIGNWRITING MOUTH SMILE WRINKLED", aliases: &[] },
        Codepoint { codepoint: 0x1DA40, name: "SIGNWRITING MOUTH SMILE OPEN", aliases: &[] },
    ]
}

fn all_codepoints_756() -> (v: Vec<Codepoint>)
    ensures
        v@ == codepoint_table_756(),
{
    let v = vec![
        Codepoint { codepoint: 0x1DA19, name: "SIGNWRITING EYES HALF OPEN", aliases: &[] },
        Codepoint { codepoint: 0x1DA1A, name: "SIGNWRITING EYES WIDE OPEN", aliases: &[] },
        Codepoint { codepoint: 0x1DA1B, name: "SIGNWRITING EYES HALF CLOSED", aliases: &[] },
        Codepoint { codepoint: 0x1DA1C, name: "SIGNWRITING EYES WIDENING MOVEMENT", aliases: &[] },
        Codepoint { codepoint: 0x1DA1D, name: "SIGNWRITING EYE WINK", aliases: &[] },
        Codepoint { codepoint: 0x1DA1E, name: "SIGNWRITING EYELASHES UP", aliases: &[] },
        Codepoint { codepoint: 0x1DA1F, name: "SIGNWRITING EYELASHES DOWN", aliases: &[] },
        Codepoint { codepoint: 0x1DA20, name: "SIGNWRITING EYELASHES FLUTTERING", aliases: &[] },
        Codepoint { codepoint: 0x1DA21, name: "SIGNWRITING EYEGAZE-WALLPLANE STRAIGHT", aliases: &[] },
        Codepoint { codepoint: 0x1DA22, name: "SIGNWRITING EYEGAZE-WALLPLANE STRAIGHT DOUBLE", aliases: &[] },
        Codepoint { codepoint: 0x1DA23, name: "SIGNWRITING EYEGAZE-WALLPLANE STRAIGHT ALTERNATING", aliases: &[] },
        Codepoint { codepoint: 0x1DA24, name: "SIGNWRITING EYEGAZE-FLOORPLANE STRAIGHT", aliases: &[] },
        Codepoint { codepoint: 0x1DA25, name: "SIGNWRITING EYEGAZE-FLOORPLANE STRAIGHT DOUBLE", aliases: &[] },
        Codepoint { codepoint: 0x1DA26, name: "SIGNWRITING EYEGAZE-FLOORPLANE STRAIGHT ALTERNATING", aliases: &[] },
        Codepoint { codepoint: 0x1DA27, name: "SIGNWRITING EYEGAZE-WALLPLANE CURVED", aliases: &[] },
        Codepoint { codepoint: 0x1DA28, name: "SIGNWRITING EYEGAZE-FLOORPLANE CURVED", aliases: &[] },
        Codepoint { codepoint: 0x1DA29, name: "SIGNWRITING EYEGAZE-WALLPLANE CIRCLING", aliases: &[] },
        Codepoint { codepoint: 0x1DA2A, name: "SIGNWRITING CHEEKS PUFFED", aliases: &[] },
        Codepoint { codepoint: 0x1DA2B, name: "SIGNWRITING CHEEKS NEUTRAL", aliases: &[] },
        Codepoint { codepoint: 0x1DA2C, name: "SIGNWRITING CHEEKS SUCKED", aliases: &[] },
        Codepoint { codepoint: 0x1DA2D, name: "SIGNWRITING TENSE CHEEKS HIGH", aliases: &[] },
        Codepoint { codepoint: 0x1DA2E, name: "SIGNWRITING TENSE CHEEKS MIDDLE", aliases: &[] },
        Codepoint { codepoint: 0x1DA2F, name: "SIGNWRITING TENSE CHEEKS LOW", aliases: &[] },
        Codepoint { codepoint: 0x1DA30, name: "SIGNWRITING EARS", aliases: &[] },
        Codepoint { codepoint: 0x1DA31, name: "SIGNWRITING NOSE NEUTRAL", aliases: &[] },
        Codepoint { codepoint: 0x1DA32, name: "SIGNWRITING NOSE CONTACT", aliases: &[] },
        Codepoint { codepoint: 0x1DA33, name: "SIGNWRITING NOSE WRINKLES", aliases: &[] },
        Codepoint { codepoint: 0x1DA34, name: "SIGNWRITING NOSE WIGGLES", aliases: &[] },
        Codepoint { codepoint: 0x1DA35, name: "SIGNWRITING AIR BLOWING OUT", aliases: &[] },
        Codepoint { codepoint: 0x1DA36, name: "SIGNWRITING AIR SUCKING IN", aliases: &[] },
        Codepoint { codepoint: 0x1DA37, name: "SIGNWRITING AIR BLOW SMALL ROTATIONS", aliases: &[] },
        Codepoint { codepoint: 0x1DA38, name: "SIGNWRITING AIR SUCK SMALL ROTATIONS", aliases: &[] },
        Codepoint { codepoint: 0x1DA39, name: "SIGNWRITING BREATH INHALE", aliases: &[] },
        Codepoint { codepoint: 0x1DA3A, name: "SIGNWRITING BREATH EXHALE", aliases: &[] },
        Codepoint { codepoint: 0x1DA3B, name: "SIGNWRITING MOUTH CLOSED NEUTRAL", aliases: &[] },
        Codepoint { codepoint: 0x1DA3C, name: "SIGNWRITING MOUTH CLOSED FORWARD", aliases: &[] },
        Codepoint { codepoint: 0x1DA3D, name: "SIGNWRITING MOUTH CLOSED CONTACT", aliases: &[] },
        Codepoint { codepoint: 0x1DA3E, name: "SIGNWRITING MOUTH SMILE", aliases: &[] },
        Codepoint { codepoint: 0x1DA3F, name: "SIGNWRITING MOUTH SMILE WRINKLED", aliases: &[] },
        Codepoint { codepoint: 0x1DA40, name: "SIGNWRITING MOUTH SMILE OPEN", aliases: &[] },
    ];
    assert(v@ =~= codepoint_table_756());
    v
}

pub open spec fn codepoint_table_757() -> Seq<Codepoint> {
    seq![
        Codepoint { codepoint: 0x1DA41, name: "SIGNWRITING MOUTH FROWN", aliases: &[] },
        Codepoint { codepoint: 0x1DA42, name: "SIGNWRITING MOUTH FROWN WRINKLED", aliases: &[] },
        Codepoint { codepoint: 0x1DA43, name: "SIGNWRITING MOUTH FROWN OPEN", aliases: &[] },
        Codepoint { codepoint: 0x1DA44, name: "SIGNWRITING MOUTH OPEN CIRCLE", aliases: &[] },
        Codepoint { codepoint: 0x1DA45, name: "SIGNWRITING MOUTH OPEN FORWARD", aliases: &[] },
        Codepoint { codepoint: 0x1DA46, name: "SIGNWRITING MOUTH OPEN WRINKLED", aliases: &[] },
        Codepoint { codepoint: 0x1DA47, name: "SIGNWRITING MOUTH OPEN OVAL", aliases: &[] },
        Codepoint { codepoint: 0x1DA48, name: "SIGNWRITING MOUTH OPEN OVAL WRINKLED", aliases: &[] },
        Codepoint { codepoint: 0x1DA49, name: "SIGNWRITING MOUTH OPEN OVAL YAWN", aliases: &[] },
        Codepoint { codepoint: 0x1DA4A, name: "SIGNWRITING MOUTH OPEN RECTANGLE", aliases: &[] },
        Codepoint { codepoint: 0x1DA4B, name: "SIGNWRITING MOUTH OPEN RECTANGLE WRINKLED", aliases: &[] },
        Codepoint { codepoint: 0x1DA4C, name: "SIGNWRITING MOUTH OPEN RECTANGLE YAWN", aliases: &[] },
        Codepoint { codepoint: 0x1DA4D, name: "SIGNWRITING MOUTH KISS", aliases: &[] },
        Codepoint { codepoint: 0x1DA4E, name: "SIGNWRITING MOUTH KISS FORWARD", aliases: &[] },
        Codepoint { codepoint: 0x1DA4F, name: "SIGNWRITING MOUTH KISS WRINKLED", aliases: &[] },
        Codepoint { codepoint: 0x1DA50, name: "SIGNWRITING MOUTH TENSE", aliases: &[] },
        Codepoint { codepoint: 0x1DA51, name: "SIGNWRITING MOUTH TENSE FORWARD", aliases: &[] },
        Codepoint { codepoint: 0x1DA52, name: "SIGNWRITING MOUTH TENSE SUCKED", aliases: &[] },
        Codepoint { codepoint: 0x1DA53, name: "SIGNWRITING LIPS PRESSED TOGETHER", aliases: &[] },
        Codepoint { codepoint: 0x1DA54, name: "SIGNWRITING LIP LOWER OVER UPPER", aliases: &[] },
        Codepoint { codepoint: 0x1DA55, name: "SIGNWRITING LIP UPPER OVER LOWER", aliases: &[] },
        Codepoint { codepoint: 0x1DA56, name: "SIGNWRITING MOUTH CORNERS", aliases: &[] },
        Codepoint { codepoint: 0x1DA57, name: "SIGNWRITING MOUTH WRINKLES SINGLE", aliases: &[] },
        Codepoint { codepoint: 0x1DA58, name: "SIGNWRITING MOUTH WRINKLES DOUBLE", aliases: &[] },
        Codepoint { codepoint: 0x1DA59, name: "SIGNWRITING TONGUE STICKING OUT FAR", aliases: &[] },
        Codepoint { codepoint: 0x1DA5A, name: "SIGNWRITING TONGUE LICKING LIPS", aliases: &[] },
        Codepoint { codepoint: 0x1DA5B, name: "SIGNWRITING TONGUE TIP BETWEEN LIPS", aliases: &[] },
        Codepoint { codepoint: 0x1DA5C, name: "SIGNWRITING TONGUE TIP TOUCHING INSIDE MOUTH", aliases: &[] },
        Codepoint { codepoint: 0x1DA5D, name: "SIGNWRITING TONGUE INSIDE MOUTH RELAXED", aliases: &[] },
        Codepoint { codepoint: 0x1DA5E, name: "SIGNWRITING TONGUE MOVES AGAINST CHEEK", aliases: &[] },
        Codepoint { codepoint: 0x1DA5F, name: "SIGNWRITING TONGUE CENTRE STICKING OUT", aliases: &[] },
        Codepoint { codepoint: 0x1DA60, name: "SIGNWRITING TONGUE CENTRE INSIDE MOUTH", aliases: &[] },
        Codepoint { codepoint: 0x1DA61, name: "SIGNWRITING TEETH", aliases: &[] },
        Codepoint { codepoint: 0x1DA62, name: "SIGNWRITING TEETH MOVEMENT", aliases: &[] },
        Codepoint { codepoint: 0x1DA63, name: "SIGNWRITING TEETH ON TONGUE", aliases: &[] },
        Codepoint { codepoint: 0x1DA64, name: "SIGNWRITING TEETH ON TONGUE MOVEMENT", aliases: &[] },
        Codepoint { codepoint: 0x1DA65, name: "SIGNWRITING TEETH ON LIPS", aliases: &[] },
        Codepoint { codepoint: 0x1DA66, name: "SIGNWRITING TEETH ON LIPS MOVEMENT", aliases: &[] },
        Codepoint { codepoint: 0x1DA67, name: "SIGNWRITING TEETH BITE LIPS", aliases: &[] },
        Codepoint { codepoint: 0x1DA68, name: "SIGNWRITING MOVEMENT-WALLPLANE JAW", aliases: &[] },
    ]
}

fn all_codepoints_757() -> (v: Vec<Codepoint>)
    ensures
        v@ == codepoint_table_757(),
{
    let v = vec![
        Codepoint { codepoint: 0x1DA41, name: "SIGNWRITING MOUTH FROWN", aliases: &[] },
        Codepoint { codepoint: 0x1DA42, name: "SIGNWRITING MOUTH FROWN WRINKLED", aliases: &[] },
        Codepoint { codepoint: 0x1DA43, name: "SIGNWRITING MOUTH FROWN OPEN", aliases: &[] },
        Codepoint { codepoint: 0x1DA44, name: "SIGNWRITING MOUTH OPEN CIRCLE", aliases: &[] },
        Codepoint { codepoint: 0x1DA45, name: "SIGNWRITING MOUTH OPEN FORWARD", aliases: &[] },
        Codepoint { codepoint: 0x1DA46, name: "SIGNWRITING MOUTH OPEN WRINKLED", aliases: &[] },
        Codepoint { codepoint: 0x1DA47, name: "SIGNWRITING MOUTH OPEN OVAL", aliases: &[] },
        Codepoint { codepoint: 0x1DA48, name: "SIGNWRITING MOUTH OPEN OVAL WRINKLED", aliases: &[] },
        Codepoint { codepoint: 0x1DA49, name: "SIGNWRITING MOUTH OPEN OVAL YAWN", aliases: &[] },
        Codepoint { codepoint: 0x1DA4A, name: "SIGNWRITING MOUTH OPEN RECTANGLE", aliases: &[] },
        Codepoint { codepoint: 0x1DA4B, name: "SIGNWRITING MOUTH OPEN RECTANGLE WRINKLED", aliases: &[] },
        Codepoint { codepoint: 0x1DA4C, name: "SIGNWRITING MOUTH OPEN RECTANGLE YAWN", aliases: &[] },
        Codepoint { codepoint: 0x1DA4D, name: "SIGNWRITING MOUTH KISS", aliases: &[] },
        Codepoint { codepoint: 0x1DA4E, name: "SIGNWRITING MOUTH KISS FORWARD", aliases: &[] },
        Codepoint { codepoint: 0x1DA4F, name: "SIGNWRITING MOUTH KISS WRINKLED", aliases: &[] },
        Codepoint { codepoint: 0x1DA50, name: "SIGNWRITING MOUTH TENSE", aliases: &[] },
        Codepoint { codepoint: 0x1DA51, name: "SIGNWRITING MOUTH TENSE FORWARD", aliases: &[] },
        Codepoint { codepoint: 0x1DA52, name: "SIGNWRITING MOUTH TENSE SUCKED", aliases: &[] },
        Codepoint { codepoint: 0x1DA53, name: "SIGNWRITING LIPS PRESSED TOGETHER", aliases: &[] },
        Codepoint { codepoint: 0x1DA54, name: "SIGNWRITING LIP LOWER OVER UPPER", aliases: &[] },
        Codepoint { codepoint: 0x1DA55, name: "SIGNWRITING LIP UPPER OVER LOWER", aliases: &[] },
        Codepoint { codepoint: 0x1DA56, name: "SIGNWRITING MOUTH CORNERS", aliases: &[] },
        Codepoint { codepoint: 0x1DA57, name: "SIGNWRITING MOUTH WRINKLES SINGLE", aliases: &[] },
        Codepoint { codepoint: 0x1DA58, name: "SIGNWRITING MOUTH WRINKLES DOUBLE", aliases: &[] },
        Codepoint { codepoint: 0x1DA59, name: "SIGNWRITING TONGUE STICKING OUT FAR", aliases: &[] },
        Codepoint { codepoint: 0x1DA5A, name: "SIGNWRITING TONGUE LICKING LIPS", aliases: &[] },
        Codepoint { codepoint: 0x1DA5B, name: "SIGNWRITING TONGUE TIP BETWEEN LIPS", aliases: &[] },
        Codepoint { codepoint: 0x1DA5C, name: "SIGNWRITING TONGUE TIP TOUCHING INSIDE MOUTH", aliases: &[] },
        Codepoint { codepoint: 0x1DA5D, name: "SIGNWRITING TONGUE INSIDE MOUTH RELAXED", aliases: &[] },
        Codepoint { codepoint: 0x1DA5E, name: "SIGNWRITING TONGUE MOVES AGAINST CHEEK", aliases: &[] },
        Codepoint { codepoint: 0x1DA5F, name: "SIGNWRITING TONGUE CENTRE STICKING OUT", aliases: &[] },
        Codepoint { codepoint: 0x1DA60, name: "SIGNWRITING TONGUE CENTRE INSIDE MOUTH", aliases: &[] },
        Codepoint { codepoint: 0x1DA61, name: "SIGNWRITING TEETH", aliases: &[] },
        Codepoint { codepoint: 0x1DA62, name: "SIGNWRITING TEETH MOVEMENT", aliases: &[] },
        Codepoint { codepoint: 0x1DA63, name: "SIGNWRITING TEETH ON TONGUE", aliases: &[] },
        Codepoint { codepoint: 0x1DA64, name: "SIGNWRITING TEETH ON TONGUE MOVEMENT", aliases: &[] },
        Codepoint { codepoint: 0x1DA65, name: "SIGNWRITING TEETH ON LIPS", aliases: &[] },
        Codepoint { codepoint: 0x1DA66, name: "SIGNWRITING TEETH ON LIPS MOVEMENT", aliases: &[] },
        Codepoint { codepoint: 0x1DA67, name: "SIGNWRITING TEETH BITE LIPS", aliases: &[] },
        Codepoint { codepoint: 0x1DA68, name: "SIGNWRITING MOVEMENT-WALLPLANE JAW", aliases: &[] },
    ];
    assert(v@ =~= codepoint_table_757());
    v
}

pub open spec fn codepoint_table_758() -> Seq<Codepoint> {
    seq![
        Codepoint { codepoint: 0x1DA69, name: "SIGNWRITING MOVEMENT-FLOORPLANE JAW", aliases: &[] },
        Codepoint { codepoint: 0x1DA6A, name: "SIGNWRITING NECK", aliases: &[] },
        Codepoint { codepoint: 0x1DA6B, name: "SIGNWRITING HAIR", aliases: &[] },
        Codepoint { codepoint: 0x1DA6C, name: "SIGNWRITING EXCITEMENT", aliases: &[] },
        Codepoint { codepoint: 0x1DA6D, name: "SIGNWRITING SHOULDER HIP SPINE", aliases: &[] },
        Codepoint { codepoint: 0x1DA6E, name: "SIGNWRITING SHOULDER HIP POSITIONS", aliases: &[] },
        Codepoint { codepoint: 0x1DA6F, name: "SIGNWRITING WALLPLANE SHOULDER HIP MOVE", aliases: &[] },
        Codepoint { codepoint: 0x1DA70, name: "SIGNWRITING FLOORPLANE SHOULDER HIP MOVE", aliases: &[] },
        Codepoint { codepoint: 0x1DA71, name: "SIGNWRITING SHOULDER TILTING FROM WAIST", aliases: &[] },
        Codepoint { codepoint: 0x1DA72, name: "SIGNWRITING TORSO-WALLPLANE STRAIGHT STRETCH", aliases: &[] },
        Codepoint { codepoint: 0x1DA73, name: "SIGNWRITING TORSO-WALLPLANE CURVED BEND", aliases: &[] },
        Codepoint { codepoint: 0x1DA74, name: "SIGNWRITING TORSO-FLOORPLANE TWISTING", aliases: &[] },
        Codepoint { codepoint: 0x1DA75, name: "SIGNWRITING UPPER BODY TILTING FROM HIP JOINTS", aliases: &[] },
        Codepoint { codepoint: 0x1DA76, name: "SIGNWRITING LIMB COMBINATION", aliases: &[] },
        Codepoint { codepoint: 0x1DA77, name: "SIGNWRITING LIMB LENGTH-1", aliases: &[] },
        Codepoint { codepoint: 0x1DA78, name: "SIGNWRITING LIMB LENGTH-2", aliases: &[] },
        Codepoint { codepoint: 0x1DA79, name: "SIGNWRITING LIMB LENGTH-3", aliases: &[] },
        Codepoint { codepoint: 0x1DA7A, name: "SIGNWRITING LIMB LENGTH-4", aliases: &[] },
        Codepoint { codepoint: 0x1DA7B, name: "SIGNWRITING LIMB LENGTH-5", aliases: &[] },
        Codepoint { codepoint: 0x1DA7C, name: "SIGNWRITING LIMB LENGTH-6", aliases: &[] },
        Codepoint { codepoint: 0x1DA7D, name: "SIGNWRITING LIMB LENGTH-7", aliases: &[] },
        Codepoint { codepoint: 0x1DA7E, name: "SIGNWRITING FINGER", aliases: &[] },
        Codepoint { codepoint: 0x1DA7F, name: "SIGNWRITING LOCATION-WALLPLANE SPACE", aliases: &[] },
        Codepoint { codepoint: 0x1DA80, name: "SIGNWRITING LOCATION-FLOORPLANE SPACE", aliases: &[] },
        Codepoint { codepoint: 0x1DA81, name: "SIGNWRITING LOCATION HEIGHT", aliases: &[] },
        Codepoint { codepoint: 0x1DA82, name: "SIGNWRITING LOCATION WIDTH", aliases: &[] },
        Codepoint { codepoint: 0x1DA83, name: "SIGNWRITING LOCATION DEPTH", aliases: &[] },
        Codepoint { codepoint: 0x1DA84, name: "SIGNWRITING LOCATION HEAD NECK", aliases: &[] },
        Codepoint { codepoint: 0x1DA85, name: "SIGNWRITING LOCATION TORSO", aliases: &[] },
        Codepoint { codepoint: 0x1DA86, name: "SIGNWRITING LOCATION LIMBS DIGITS", aliases: &[] },
        Codepoint { codepoint: 0x1DA87, name: "SIGNWRITING COMMA", aliases: &[] },
        Codepoint { codepoint: 0x1DA88, name: "SIGNWRITING FULL STOP", aliases: &[] },
        Codepoint { codepoint: 0x1DA89, name: "SIGNWRITING SEMICOLON", aliases: &[] },
        Codepoint { codepoint: 0x1DA8A, name: "SIGNWRITING COLON", aliases: &[] },
        Codepoint { codepoint: 0x1DA8B, name: "SIGNWRITING PARENTHESIS", aliases: &[] },
        Codepoint { codepoint: 0x1DA9B, name: "SIGNWRITING FILL MODIFIER-2", aliases: &[] },
        Codepoint { codepoint: 0x1DA9C, name: "SIGNWRITING FILL MODIFIER-3", aliases: &[] },
        Codepoint { codepoint: 0x1DA9D, name: "SIGNWRITING FILL MODIFIER-4", aliases: &[] },
        Codepoint { codepoint: 0x1DA9E, name: "SIGNWRITING FILL MODIFIER-5", aliases: &[] },
        Codepoint { codepoint: 0x1DA9F, name: "SIGNWRITING FILL MODIFIER-6", aliases: &[] },
    ]
}

fn all_codepoints_758() -> (v: Vec<Codepoint>)
    ensures
        v@ == codepoint_table_758(),
{
    let v = vec![
        Codepoint { codepoint: 0x1DA69, name: "SIGNWRITING MOVEMENT-FLOORPLANE JAW", aliases: &[] },
        Codepoint { codepoint: 0x1DA6A, name: "SIGNWRITING NECK", aliases: &[] },
        Codepoint { codepoint: 0x1DA6B, name: "SIGNWRITING HAIR", aliases: &[] },
        Codepoint { codepoint: 0x1DA6C, name: "SIGNWRITING EXCITEMENT", aliases: &[] },
        Codepoint { codepoint: 0x1DA6D, name: "SIGNWRITING SHOULDER HIP SPINE", aliases: &[] },
        Codepoint { codepoint: 0x1DA6E, name: "SIGNWRITING SHOULDER HIP POSITIONS", aliases: &[] },
        Codepoint { codepoint: 0x1DA6F, name: "SIGNWRITING WALLPLANE SHOULDER HIP MOVE", aliases: &[] },
        Codepoint { codepoint: 0x1DA70, name: "SIGNWRITING FLOORPLANE SHOULDER HIP MOVE", aliases: &[] },
        Codepoint { codepoint: 0x1DA71, name: "SIGNWRITING SHOULDER TILTING FROM WAIST", aliases: &[] },
        Codepoint { codepoint: 0x1DA72, name: "SIGNWRITING TORSO-WALLPLANE STRAIGHT STRETCH", aliases: &[] },
        Codepoint { codepoint: 0x1DA73, name: "SIGNWRITING TORSO-WALLPLANE CURVED BEND", aliases: &[] },
        Codepoint { codepoint: 0x1DA74, name: "SIGNWRITING TORSO-FLOORPLANE TWISTING", aliases: &[] },
        Codepoint { codepoint: 0x1DA75, name: "SIGNWRITING UPPER BODY TILTING FROM HIP JOINTS", aliases: &[] },
        Codepoint { codepoint: 0x1DA76, name: "SIGNWRITING LIMB COMBINATION", aliases: &[] },
        Codepoint { codepoint: 0x1DA77, name: "SIGNWRITING LIMB LENGTH-1", aliases: &[] },
        Codepoint { codepoint: 0x1DA78, name: "SIGNWRITING LIMB LENGTH-2", aliases: &[] },
        Codepoint { codepoint: 0x1DA79, name: "SIGNWRITING LIMB LENGTH-3", aliases: &[] },
        Codepoint { codepoint: 0x1DA7A, name: "SIGNWRITING LIMB LENGTH-4", aliases: &[] },
        Codepoint { codepoint: 0x1DA7B, name: "SIGNWRITING LIMB LENGTH-5", aliases: &[] },
        Codepoint { codepoint: 0x1DA7C, name: "SIGNWRITING LIMB LENGTH-6", aliases: &[] },
        Codepoint { codepoint: 0x1DA7D, name: "SIGNWRITING LIMB LENGTH-7", aliases: &[] },
        Codepoint { codepoint: 0x1DA7E, name: "SIGNWRITING FINGER", aliases: &[] },
        Codepoint { codepoint: 0x1DA7F, name: "SIGNWRITING LOCATION-WALLPLANE SPACE", aliases: &[] },
        Codepoint { codepoint: 0x1DA80, name: "SIGNWRITING LOCATION-FLOORPLANE SPACE", aliases: &[] },
        Codepoint { codepoint: 0x1DA81, name: "SIGNWRITING LOCATION HEIGHT", aliases: &[] },
        Codepoint { codepoint: 0x1DA82, name: "SIGNWRITING LOCATION WIDTH", aliases: &[] },
        Codepoint { codepoint: 0x1DA83, name: "SIGNWRITING LOCATION DEPTH", aliases: &[] },
        Codepoint { codepoint: 0x1DA84, name: "SIGNWRITING LOCATION HEAD NECK", aliases: &[] },
        Codepoint { codepoint: 0x1DA85, name: "SIGNWRITING LOCATION TORSO", aliases: &[] },
        Codepoint { codepoint: 0x1DA86, name: "SIGNWRITING LOCATION LIMBS DIGITS", aliases: &[] },
        Codepoint { codepoint: 0x1DA87, name: "SIGNWRITING COMMA", aliases: &[] },
        Codepoint { codepoint: 0x1DA88, name: "SIGNWRITING FULL STOP", aliases: &[] },
        Codepoint { codepoint: 0x1DA89, name: "SIGNWRITING SEMICOLON", aliases: &[] },
        Codepoint { codepoint: 0x1DA8A, name: "SIGNWRITING COLON", aliases: &[] },
        Codepoint { codepoint: 0x1DA8B, name: "SIGNWRITING PARENTHESIS", aliases: &[] },
        Codepoint { codepoint: 0x1DA9B, name: "SIGNWRITING FILL MODIFIER-2", aliases: &[] },
        Codepoint { codepoint: 0x1DA9C, name: "SIGNWRITING FILL MODIFIER-3", aliases: &[] },
        Codepoint { codepoint: 0x1DA9D, name: "SIGNWRITING FILL MODIFIER-4", aliases: &[] },
        Codepoint { codepoint: 0x1DA9E, name: "SIGNWRITING FILL MODIFIER-5", aliases: &[] },
        Codepoint { codepoint: 0x1DA9F, name: "SIGNWRITING FILL MODIFIER-6", aliases: &[] },
    ];
    assert(v@ =~= codepoint_table_758());
    v
}

pub open spec fn codepoint_table_759() -> Seq<Codepoint> {
    seq![
        Codepoint { codepoint: 0x1DAA1, name: "SIGNWRITING ROTATION MODIFIER-2", aliases: &[] },
        Codepoint { codepoint: 0x1DAA2, name: "SIGNWRITING ROTATION MODIFIER-3", aliases: &[] },
        Codepoint { codepoint: 0x1DAA3, name: "SIGNWRITING ROTATION MODIFIER-4", aliases: &[] },
        Codepoint { codepoint: 0x1DAA4, name: "SIGNWRITING ROTATION MODIFIER-5", aliases: &[] },
        Codepoint { codepoint: 0x1DAA5, name: "SIGNWRITING ROTATION MODIFIER-6", aliases: &[] },
        Codepoint { codepoint: 0x1DAA6, name: "SIGNWRITING ROTATION MODIFIER-7", aliases: &[] },
        Codepoint { codepoint: 0x1DAA7, name: "SIGNWRITING ROTATION MODIFIER-8", aliases: &[] },
        Codepoint { codepoint: 0x1DAA8, name: "SIGNWRITING ROTATION MODIFIER-9", aliases: &[] },
        Codepoint { codepoint: 0x1DAA9, name: "SIGNWRITING ROTATION MODIFIER-10", aliases: &[] },
        Codepoint { codepoint: 0x1DAAA, name: "SIGNWRITING ROTATION MODIFIER-11", aliases: &[] },
        Codepoint { codepoint: 0x1DAAB, name: "SIGNWRITING ROTATION MODIFIER-12", aliases: &[] },
        Codepoint { codepoint: 0x1DAAC, name: "SIGNWRITING ROTATION MODIFIER-13", aliases: &[] },
        Codepoint { codepoint: 0x1DAAD, name: "SIGNWRITING ROTATION MODIFIER-14", aliases: &[] },
        Codepoint { codepoint: 0x1DAAE, name: "SIGNWRITING ROTATION MODIFIER-15", aliases: &[] },
        Codepoint { codepoint: 0x1DAAF, name: "SIGNWRITING ROTATION MODIFIER-16", aliases: &[] },
        Codepoint { codepoint: 0x1DF00, name: "LATIN SMALL LETTER FENG DIGRAPH WITH TRILL", aliases: &[] },
        Codepoint { codepoint: 0x1DF01, name: "LATIN SMALL LETTER REVERSED SCRIPT G", aliases: &[] },
        Codepoint { codepoint: 0x1DF02, name: "LATIN LETTER SMALL CAPITAL TURNED G", aliases: &[] },
        Codepoint { codepoint: 0x1DF03, name: "LATIN SMALL LETTER REVERSED K", aliases: &[] },
        Codepoint { codepoint: 0x1DF04, name: "LATIN LETTER SMALL CAPITAL L WITH BELT", aliases: &[] },
        Codepoint { codepoint: 0x1DF05, name: "LATIN SMALL LETTER LEZH WITH RETROFLEX HOOK", aliases: &[] },
        Codepoint { codepoint: 0x1DF06, name: "LATIN SMALL LETTER TURNED Y WITH BELT", aliases: &[] },
        Codepoint { codepoint: 0x1DF07, name: "LATIN SMALL LETTER REVERSED ENG", aliases: &[] },
        Codepoint { codepoint: 0x1DF08, name: "LATIN SMALL LETTER TURNED R WITH LONG LEG AND RETROFLEX HOOK", aliases: &[] },
        Codepoint { codepoint: 0x1DF09, name: "LATIN SMALL LETTER T WITH HOOK AND RETROFLEX HOOK", aliases: &[] },
        Codepoint { codepoint: 0x1DF0A, name: "LATIN LETTER RETROFLEX CLICK WITH RETROFLEX HOOK", aliases: &[] },
        Codepoint { codepoint: 0x1DF0B, name: "LATIN SMALL LETTER ESH WITH DOUBLE BAR", aliases: &[] },
        Codepoint { codepoint: 0x1DF0C, name: "LATIN SMALL LETTER ESH WITH DOUBLE BAR AND CURL", aliases: &[] },
        Codepoint { codepoint: 0x1DF0D, name: "LATIN SMALL LETTER TURNED T WITH CURL", aliases: &[] },
        Codepoint { codepoint: 0x1DF0E, name: "LATIN LETTER INVERTED GLOTTAL STOP WITH CURL", aliases: &[] },
        Codepoint { codepoint: 0x1DF0F, name: "LATIN LETTER STRETCHED C WITH CURL", aliases: &[] },
        Codepoint { codepoint: 0x1DF10, name: "LATIN LETTER SMALL CAPITAL TURNED K", aliases: &[] },
        Codepoint { codepoint: 0x1DF11, name: "LATIN SMALL LETTER L WITH FISHHOOK", aliases: &[] },
        Codepoint { codepoint: 0x1DF12, name: "LATIN SMALL LETTER DEZH DIGRAPH WITH PALATAL HOOK", aliases: &[] },
        Codepoint { codepoint: 0x1DF13, name: "LATIN SMALL LETTER L WITH BELT AND PALATAL HOOK", aliases: &[] },
        Codepoint { codepoint: 0x1DF14, name: "LATIN SMALL LETTER ENG WITH PALATAL HOOK", aliases: &[] },
        Codepoint { codepoint: 0x1DF15, name: "LATIN SMALL LETTER TURNED R WITH PALATAL HOOK", aliases: &[] },
        Codepoint { codepoint: 0x1DF16, name: "LATIN SMALL LETTER R WITH FISHHOOK AND PALATAL HOOK", aliases: &[] },
        Codepoint { codepoint: 0x1DF17, name: "LATIN SMALL LETTER TESH DIGRAPH WITH PALATAL HOOK", aliases: &[] },
        Codepoint { codepoint: 0x1DF18, name: "LATIN SMALL LETTER EZH WITH PALATAL HOOK", aliases: &[] },
    ]
}

fn all_codepoints_759() -> (v: Vec<Codepoint>)
    ensures
        v@ == codepoint_table_759(),
{
    let v = vec![
        Codepoint { codepoint: 0x1DAA1, name: "SIGNWRITING ROTATION MODIFIER-2", aliases: &[] },
        Codepoint { codepoint: 0x1DAA2, name: "SIGNWRITING ROTATION MODIFIER-3", aliases: &[] },
        Codepoint { codepoint: 0x1DAA3, name: "SIGNWRITING ROTATION MODIFIER-4", aliases: &[] },
        Codepoint { codepoint: 0x1DAA4, name: "SIGNWRITING ROTATION MODIFIER-5", aliases: &[] },
        Codepoint { codepoint: 0x1DAA5, name: "SIGNWRITING ROTATION MODIFIER-6", aliases: &[] },
        Codepoint { codepoint: 0x1DAA6, name: "SIGNWRITING ROTATION MODIFIER-7", aliases: &[] },
        Codepoint { codepoint: 0x1DAA7, name: "SIGNWRITING ROTATION MODIFIER-8", aliases: &[] },
        Codepoint { codepoint: 0x1DAA8, name: "SIGNWRITING ROTATION MODIFIER-9", aliases: &[] },
        Codepoint { codepoint: 0x1DAA9, name: "SIGNWRITING ROTATION MODIFIER-10", aliases: &[] },
        Codepoint { codepoint: 0x1DAAA, name: "SIGNWRITING ROTATION MODIFIER-11", aliases: &[] },
        Codepoint { codepoint: 0x1DAAB, name: "SIGNWRITING ROTATION MODIFIER-12", aliases: &[] },
        Codepoint { codepoint: 0x1DAAC, name: "SIGNWRITING ROTATION MODIFIER-13", aliases: &[] },
        Codepoint { codepoint: 0x1DAAD, name: "SIGNWRITING ROTATION MODIFIER-14", aliases: &[] },
        Codepoint { codepoint: 0x1DAAE, name: "SIGNWRITING ROTATION MODIFIER-15", aliases: &[] },
        Codepoint { codepoint: 0x1DAAF, name: "SIGNWRITING ROTATION MODIFIER-16", aliases: &[] },
        Codepoint { codepoint: 0x1DF00, name: "LATIN SMALL LETTER FENG DIGRAPH WITH TRILL", aliases: &[] },
        Codepoint { codepoint: 0x1DF01, name: "LATIN SMALL LETTER REVERSED SCRIPT G", aliases: &[] },
        Codepoint { codepoint: 0x1DF02, name: "LATIN LETTER SMALL CAPITAL TURNED G", aliases: &[] },
        Codepoint { codepoint: 0x1DF03, name: "LATIN SMALL LETTER REVERSED K", aliases: &[] },
        Codepoint { codepoint: 0x1DF04, name: "LATIN LETTER SMALL CAPITAL L WITH BELT", aliases: &[] },
        Codepoint { codepoint: 0x1DF05, name: "LATIN SMALL LETTER LEZH WITH RETROFLEX HOOK", aliases: &[] },
        Codepoint { codepoint: 0x1DF06, name: "LATIN SMALL LETTER TURNED Y WITH BELT", aliases: &[] },
        Codepoint { codepoint: 0x1DF07, name: "LATIN SMALL LETTER REVERSED ENG", aliases: &[] },
        Codepoint { codepoint: 0x1DF08, name: "LATIN SMALL LETTER TURNED R WITH LONG LEG AND RETROFLEX HOOK", aliases: &[] },
        Codepoint { codepoint: 0x1DF09, name: "LATIN SMALL LETTER T WITH HOOK AND RETROFLEX HOOK", aliases: &[] },
        Codepoint { codepoint: 0x1DF0A, name: "LATIN LETTER RETROFLEX CLICK WITH RETROFLEX HOOK", aliases: &[] },
        Codepoint { codepoint: 0x1DF0B, name: "LATIN SMALL LETTER ESH WITH DOUBLE BAR", aliases: &[] },
        Codepoint { codepoint: 0x1DF0C, name: "LATIN SMALL LETTER ESH WITH DOUBLE BAR AND CURL", aliases: &[] },
        Codepoint { codepoint: 0x1DF0D, name: "LATIN SMALL LETTER TURNED T WITH CURL", aliases: &[] },
        Codepoint { codepoint: 0x1DF0E, name: "LATIN LETTER INVERTED GLOTTAL STOP WITH CURL", aliases: &[] },
        Codepoint { codepoint: 0x1DF0F, name: "LATIN LETTER STRETCHED C WITH CURL", aliases: &[] },
        Codepoint { codepoint: 0x1DF10, name: "LATIN LETTER SMALL CAPITAL TURNED K", aliases: &[] },
        Codepoint { codepoint: 0x1DF11, name: "LATIN SMALL LETTER L WITH FISHHOOK", aliases: &[] },
        Codepoint { codepoint: 0x1DF12, name: "LATIN SMALL LETTER DEZH DIGRAPH WITH PALATAL HOOK", aliases: &[] },
        Codepoint { codepoint: 0x1DF13, name: "LATIN SMALL LETTER L WITH BELT AND PALATAL HOOK", aliases: &[] },
        Codepoint { codepoint: 0x1DF14, name: "LATIN SMALL LETTER ENG WITH PALATAL HOOK", aliases: &[] },
        Codepoint { codepoint: 0x1DF15, name: "LATIN SMALL LETTER TURNED R WITH PALATAL HOOK", aliases: &[] },
        Codepoint { codepoint: 0x1DF16, name: "LATIN SMALL LETTER R WITH FISHHOOK AND PALATAL HOOK", aliases: &[] },
        Codepoint { codepoint: 0x1DF17, name: "LATIN SMALL LETTER TESH DIGRAPH WITH PALATAL HOOK", aliases: &[] },
        Codepoint { codepoint: 0x1DF18, name: "LATIN SMALL LETTER EZH WITH PALATAL HOOK", aliases: &[] },
    ];
    assert(v@ =~= codepoint_table_759());
    v
}

/// The entries from position 29600 of the table, 800 at most.
pub open spec fn codepoint_group_37() -> Seq<Codepoint> {
    codepoint_table_740() + codepoint_table_741() + codepoint_table_742() + codepoint_table_743() + codepoint_table_744() + codepoint_table_745() + codepoint_table_746() + codepoint_table_747() + codepoint_table_748() + codepoint_table_749() + codepoint_table_750() + codepoint_table_751() + codepoint_table_752() + codepoint_table_753() + codepoint_table_754() + codepoint_table_755() + codepoint_table_756() + codepoint_table_757() + codepoint_table_758() + codepoint_table_759()
}

pub fn all_codepoints_group_37() -> (v: Vec<Codepoint>)
    ensures
        v@ == codepoint_group_37(),
{
    let mut v = all_codepoints_740();
    let mut part = all_codepoints_741();
    v.append(&mut part);
    let mut part = all_codepoints_742();
    v.append(&mut part);
    let mut part = all_codepoints_743();
    v.append(&mut part);
    let mut part = all_codepoints_744();
    v.append(&mut part);
    let mut part = all_codepoints_745();
    v.append(&mut part);
    let mut part = all_codepoints_746();
    v.append(&mut part);
    let mut part = all_codepoints_747();
    v.append(&mut part);
    let mut part = all_codepoints_748();
    v.append(&mut part);
    let mut part = all_codepoints_749();
    v.append(&mut part);
    let mut part = all_codepoints_750();
    v.append(&mut part);
    let mut part = all_codepoints_751();
    v.append(&mut part);
    let mut part = all_codepoints_752();
    v.append(&mut part);
    let mut part = all_codepoints_753();
    v.append(&mut part);
    let mut part = all_codepoints_754();
    v.append(&mut part);
    let mut part = all_codepoints_755();
    v.append(&mut part);
    let mut part = all_codepoints_756();
    v.append(&mut part);
    let mut part = all_codepoints_757();
    v.append(&mut part);
    let mut part = all_codepoints_758();
    v.append(&mut part);
    let mut part = all_codepoints_759();
    v.append(&mut part);
    v
}

pub open spec fn codepoint_table_760() -> Seq<Codepoint> {
    seq![
        Codepoint { codepoint: 0x1DF19, name: "LATIN SMALL LETTER DEZH DIGRAPH WITH RETROFLEX HOOK", aliases: &[] },
        Codepoint { codepoint: 0x1DF1A, name: "LATIN SMALL LETTER I WITH STROKE AND RETROFLEX HOOK", aliases: &[] },
        Codepoint { codepoint: 0x1DF1B, name: "LATIN SMALL LETTER O WITH RETROFLEX HOOK", aliases: &[] },
        Codepoint { codepoint: 0x1DF1C, name: "LATIN SMALL LETTER TESH DIGRAPH WITH RETROFLEX HOOK", aliases: &[] },
        Codepoint { codepoint: 0x1DF1D, name: "LATIN SMALL LETTER C WITH RETROFLEX HOOK", aliases: &[] },
        Codepoint { codepoint: 0x1DF1E, name: "LATIN SMALL LETTER S WITH CURL", aliases: &[] },
        Codepoint { codepoint: 0x1E000, name: "COMBINING GLAGOLITIC LETTER AZU", aliases: &[] },
        Codepoint { codepoint: 0x1E001, name: "COMBINING GLAGOLITIC LETTER BUKY", aliases: &[] },
        Codepoint { codepoint: 0x1E002, name: "COMBINING GLAGOLITIC LETTER VEDE", aliases: &[] },
        Codepoint { codepoint: 0x1E003, name: "COMBINING GLAGOLITIC LETTER GLAGOLI", aliases: &[] },
        Codepoint { codepoint: 0x1E004, name: "COMBINING GLAGOLITIC LETTER DOBRO", aliases: &[] },
        Codepoint { codepoint: 0x1E005, name: "COMBINING GLAGOLITIC LETTER YESTU", aliases: &[] },
        Codepoint { codepoint: 0x1E006, name: "COMBINING GLAGOLITIC LETTER ZHIVETE", aliases: &[] },
        Codepoint { codepoint: 0x1E008, name: "COMBINING GLAGOLITIC LETTER ZEMLJA", aliases: &[] },
        Codepoint { codepoint: 0x1E009, name: "COMBINING GLAGOLITIC LETTER IZHE", aliases: &[] },
        Codepoint { codepoint: 0x1E00A, name: "COMBINING GLAGOLITIC LETTER INITIAL IZHE", aliases: &[] },
        Codepoint { codepoint: 0x1E00B, name: "COMBINING GLAGOLITIC LETTER I", aliases: &[] },
        Codepoint { codepoint: 0x1E00C, name: "COMBINING GLAGOLITIC LETTER DJERVI", aliases: &[] },
        Codepoint { codepoint: 0x1E00D, name: "COMBINING GLAGOLITIC LETTER KAKO", aliases: &[] },
        Codepoint { codepoint: 0x1E00E, name: "COMBINING GLAGOLITIC LETTER LJUDIJE", aliases: &[] },
        Codepoint { codepoint: 0x1E00F, name: "COMBINING GLAGOLITIC LETTER MYSLITE", aliases: &[] },
        Codepoint { codepoint: 0x1E010, name: "COMBINING GLAGOLITIC LETTER NASHI", aliases: &[] },
        Codepoint { codepoint: 0x1E011, name: "COMBINING GLAGOLITIC LETTER ONU", aliases: &[] },
        Codepoint { codepoint: 0x1E012, name: "COMBINING GLAGOLITIC LETTER POKOJI", aliases: &[] },
        Codepoint { codepoint: 0x1E013, name: "COMBINING GLAGOLITIC LETTER RITSI", aliases: &[] },
        Codepoint { codepoint: 0x1E014, name: "COMBINING GLAGOLITIC LETTER SLOVO", aliases: &[] },
        Codepoint { codepoint: 0x1E015, name: "COMBINING GLAGOLITIC LETTER TVRIDO", aliases: &[] },
        Codepoint { codepoint: 0x1E016, name: "COMBINING GLAGOLITIC LETTER UKU", aliases: &[] },
        Codepoint { codepoint: 0x1E017, name: "COMBINING GLAGOLITIC LETTER FRITU", aliases: &[] },
        Codepoint { codepoint: 0x1E018, name: "COMBINING GLAGOLITIC LETTER HERU", aliases: &[] },
        Codepoint { codepoint: 0x1E01B, name: "COMBINING GLAGOLITIC LETTER SHTA", aliases: &[] },
        Codepoint { codepoint: 0x1E01C, name: "COMBINING GLAGOLITIC LETTER TSI", aliases: &[] },
        Codepoint { codepoint: 0x1E01D, name: "COMBINING GLAGOLITIC LETTER CHRIVI", aliases: &[] },
        Codepoint { codepoint: 0x1E01E, name: "COMBINING GLAGOLITIC LETTER SHA", aliases: &[] },
        Codepoint { codepoint: 0x1E01F, name: "COMBINING GLAGOLITIC LETTER YERU", aliases: &[] },
        Codepoint { codepoint: 0x1E020, name: "COMBINING GLAGOLITIC LETTER YERI", aliases: &[] },
        Codepoint { codepoint: 0x1E021, name: "COMBINING GLAGOLITIC LETTER YATI", aliases: &[] },
        Codepoint { codepoint: 0x1E023, name: "COMBINING GLAGOLITIC LETTER YU", aliases: &[] },
        Codepoint { codepoint: 0x1E024, name: "COMBINING GLAGOLITIC LETTER SMALL YUS", aliases: &[] },
        Codepoint { codepoint: 0x1E026, name: "COMBINING GLAGOLITIC LETTER YO", aliases: &[] },
    ]
}

fn all_codepoints_760() -> (v: Vec<Codepoint>)
    ensures
        v@ == codepoint_table_760(),
{
    let v = vec![
        Codepoint { codepoint: 0x1DF19, name: "LATIN SMALL LETTER DEZH DIGRAPH WITH RETROFLEX HOOK", aliases: &[] },
        Codepoint { codepoint: 0x1DF1A, name: "LATIN SMALL LETTER I WITH STROKE AND RETROFLEX HOOK", aliases: &[] },
        Codepoint { codepoint: 0x1DF1B, name: "LATIN SMALL LETTER O WITH RETROFLEX HOOK", aliases: &[] },
        Codepoint { codepoint: 0x1DF1C, name: "LATIN SMALL LETTER TESH DIGRAPH WITH RETROFLEX HOOK", aliases: &[] },
        Codepoint { codepoint: 0x1DF1D, name: "LATIN SMALL LETTER C WITH RETROFLEX HOOK", aliases: &[] },
        Codepoint { codepoint: 0x1DF1E, name: "LATIN SMALL LETTER S WITH CURL", aliases: &[] },
        Codepoint { codepoint: 0x1E000, name: "COMBINING GLAGOLITIC LETTER AZU", aliases: &[] },
        Codepoint { codepoint: 0x1E001, name: "COMBINING GLAGOLITIC LETTER BUKY", aliases: &[] },
        Codepoint { codepoint: 0x1E002, name: "COMBINING GLAGOLITIC LETTER VEDE", aliases: &[] },
        Codepoint { codepoint: 0x1E003, name: "COMBINING GLAGOLITIC LETTER GLAGOLI", aliases: &[] },
        Codepoint { codepoint: 0x1E004, name: "COMBINING GLAGOLITIC LETTER DOBRO", aliases: &[] },
        Codepoint { codepoint: 0x1E005, name: "COMBINING GLAGOLITIC LETTER YESTU", aliases: &[] },
        Codepoint { codepoint: 0x1E006, name: "COMBINING GLAGOLITIC LETTER ZHIVETE", aliases: &[] },
        Codepoint { codepoint: 0x1E008, name: "COMBINING GLAGOLITIC LETTER ZEMLJA", aliases: &[] },
        Codepoint { codepoint: 0x1E009, name: "COMBINING GLAGOLITIC LETTER IZHE", aliases: &[] },
        Codepoint { codepoint: 0x1E00A, name: "COMBINING GLAGOLITIC LETTER INITIAL IZHE", aliases: &[] },
        Codepoint { codepoint: 0x1E00B, name: "COMBINING GLAGOLITIC LETTER I", aliases: &[] },
        Codepoint { codepoint: 0x1E00C, name: "COMBINING GLAGOLITIC LETTER DJERVI", aliases: &[] },
        Codepoint { codepoint: 0x1E00D, name: "COMBINING GLAGOLITIC LETTER KAKO", aliases: &[] },
        Codepoint { codepoint: 0x1E00E, name: "COMBINING GLAGOLITIC LETTER LJUDIJE", aliases: &[] },
        Codepoint { codepoint: 0x1E00F, name: "COMBINING GLAGOLITIC LETTER MYSLITE", aliases: &[] },
        Codepoint { codepoint: 0x1E010, name: "COMBINING GLAGOLITIC LETTER NASHI", aliases: &[] },
        Codepoint { codepoint: 0x1E011, name: "COMBINING GLAGOLITIC LETTER ONU", aliases: &[] },
        Codepoint { codepoint: 0x1E012, name: "COMBINING GLAGOLITIC LETTER POKOJI", aliases: &[] },
        Codepoint { codepoint: 0x1E013, name: "COMBINING GLAGOLITIC LETTER RITSI", aliases: &[] },
        Codepoint { codepoint: 0x1E014, name: "COMBINING GLAGOLITIC LETTER SLOVO", aliases: &[] },
        Codepoint { codepoint: 0x1E015, name: "COMBINING GLAGOLITIC LETTER TVRIDO", aliases: &[] },
        Codepoint { codepoint: 0x1E016, name: "COMBINING GLAGOLITIC LETTER UKU", aliases: &[] },
        Codepoint { codepoint: 0x1E017, name: "COMBINING GLAGOLITIC LETTER FRITU", aliases: &[] },
        Codepoint { codepoint: 0x1E018, name: "COMBINING GLAGOLITIC LETTER HERU", aliases: &[] },
        Codepoint { codepoint: 0x1E01B, name: "COMBINING GLAGOLITIC LETTER SHTA", aliases: &[] },
        Codepoint { codepoint: 0x1E01C, name: "COMBINING GLAGOLITIC LETTER TSI", aliases: &[] },
        Codepoint { codepoint: 0x1E01D, name: "COMBINING GLAGOLITIC LETTER CHRIVI", aliases: &[] },
        Codepoint { codepoint: 0x1E01E, name: "COMBINING GLAGOLITIC LETTER SHA", aliases: &[] },
        Codepoint { codepoint: 0x1E01F, name: "COMBINING GLAGOLITIC LETTER YERU", aliases: &[] },
        Codepoint { codepoint: 0x1E020, name: "COMBINING GLAGOLITIC LETTER YERI", aliases: &[] },
        Codepoint { codepoint: 0x1E021, name: "COMBINING GLAGOLITIC LETTER YATI", aliases: &[] },
        Codepoint { codepoint: 0x1E023, name: "COMBINING GLAGOLITIC LETTER YU", aliases: &[] },
        Codepoint { codepoint: 0x1E024, name: "COMBINING GLAGOLITIC LETTER SMALL YUS", aliases: &[] },
        Codepoint { codepoint: 0x1E026, name: "COMBINING GLAGOLITIC LETTER YO", aliases: &[] },
    ];
    assert(v@ =~= codepoint_table_760());
    v
}

pub open spec fn codepoint_table_761() -> Seq<Codepoint> {
    seq![
        Codepoint { codepoint: 0x1E027, name: "COMBINING GLAGOLITIC LETTER IOTATED SMALL YUS", aliases: &[] },
        Codepoint { codepoint: 0x1E028, name: "COMBINING GLAGOLITIC LETTER BIG YUS", aliases: &[] },
        Codepoint { codepoint: 0x1E029, name: "COMBINING GLAGOLITIC LETTER IOTATED BIG YUS", aliases: &[] },
        Codepoint { codepoint: 0x1E02A, name: "COMBINING GLAGOLITIC LETTER FITA", aliases: &[] },
        Codepoint { codepoint: 0x1E100, name: "NYIAKENG PUACHUE HMONG LETTER MA", aliases: &[] },
        Codepoint { codepoint: 0x1E101, name: "NYIAKENG PUACHUE HMONG LETTER TSA", aliases: &[] },
        Codepoint { codepoint: 0x1E102, name: "NYIAKENG PUACHUE HMONG LETTER NTA", aliases: &[] },
        Codepoint { codepoint: 0x1E103, name: "NYIAKENG PUACHUE HMONG LETTER TA", aliases: &[] },
        Codepoint { codepoint: 0x1E104, name: "NYIAKENG PUACHUE HMONG LETTER HA", aliases: &[] },
        Codepoint { codepoint: 0x1E105, name: "NYIAKENG PUACHUE HMONG LETTER NA", aliases: &[] },
        Codepoint { codepoint: 0x1E106, name: "NYIAKENG PUACHUE HMONG LETTER XA", aliases: &[] },
        Codepoint { codepoint: 0x1E107, name: "NYIAKENG PUACHUE HMONG LETTER NKA", aliases: &[] },
        Codepoint { codepoint: 0x1E108, name: "NYIAKENG PUACHUE HMONG LETTER CA", aliases: &[] },
        Codepoint { codepoint: 0x1E109, name: "NYIAKENG PUACHUE HMONG LETTER LA", aliases: &[] },
        Codepoint { codepoint: 0x1E10A, name: "NYIAKENG PUACHUE HMONG LETTER SA", aliases: &[] },
        Codepoint { codepoint: 0x1E10B, name: "NYIAKENG PUACHUE HMONG LETTER ZA", aliases: &[] },
        Codepoint { codepoint: 0x1E10C, name: "NYIAKENG PUACHUE HMONG LETTER NCA", aliases: &[] },
        Codepoint { codepoint: 0x1E10D, name: "NYIAKENG PUACHUE HMONG LETTER NTSA", aliases: &[] },
        Codepoint { codepoint: 0x1E10E, name: "NYIAKENG PUACHUE HMONG LETTER KA", aliases: &[] },
        Codepoint { codepoint: 0x1E10F, name: "NYIAKENG PUACHUE HMONG LETTER DA", aliases: &[] },
        Codepoint { codepoint: 0x1E110, name: "NYIAKENG PUACHUE HMONG LETTER NYA", aliases: &[] },
        Codepoint { codepoint: 0x1E111, name: "NYIAKENG PUACHUE HMONG LETTER NRA", aliases: &[] },
        Codepoint { codepoint: 0x1E112, name: "NYIAKENG PUACHUE HMONG LETTER VA", aliases: &[] },
        Codepoint { codepoint: 0x1E113, name: "NYIAKENG PUACHUE HMONG LETTER NTXA", aliases: &[] },
        Codepoint { codepoint: 0x1E114, name: "NYIAKENG PUACHUE HMONG LETTER TXA", aliases: &[] },
        Codepoint { codepoint: 0x1E115, name: "NYIAKENG PUACHUE HMONG LETTER FA", aliases: &[] },
        Codepoint { codepoint: 0x1E116, name: "NYIAKENG PUACHUE HMONG LETTER RA", aliases: &[] },
        Codepoint { codepoint: 0x1E117, name: "NYIAKENG PUACHUE HMONG LETTER QA", aliases: &[] },
        Codepoint { codepoint: 0x1E118, name: "NYIAKENG PUACHUE HMONG LETTER YA", aliases: &[] },
        Codepoint { codepoint: 0x1E119, name: "NYIAKENG PUACHUE HMONG LETTER NQA", aliases: &[] },
        Codepoint { codepoint: 0x1E11A, name: "NYIAKENG PUACHUE HMONG LETTER PA", aliases: &[] },
        Codepoint { codepoint: 0x1E11B, name: "NYIAKENG PUACHUE HMONG LETTER XYA", aliases: &[] },
        Codepoint { codepoint: 0x1E11C, name: "NYIAKENG PUACHUE HMONG LETTER NPA", aliases: &[] },
        Codepoint { codepoint: 0x1E11D, name: "NYIAKENG PUACHUE HMONG LETTER DLA", aliases: &[] },
        Codepoint { codepoint: 0x1E11E, name: "NYIAKENG PUACHUE HMONG LETTER NPLA", aliases: &[] },
        Codepoint { codepoint: 0x1E11F, name: "NYIAKENG PUACHUE HMONG LETTER HAH", aliases: &[] },
        Codepoint { codepoint: 0x1E120, name: "NYIAKENG PUACHUE HMONG LETTER MLA", aliases: &[] },
        Codepoint { codepoint: 0x1E121, name: "NYIAKENG PUACHUE HMONG LETTER PLA", aliases: &[] },
        Codepoint { codepoint: 0x1E122, name: "NYIAKENG PUACHUE HMONG LETTER GA", aliases: &[] },
        Codepoint { codepoint: 0x1E123, name: "NYIAKENG PUACHUE HMONG LETTER RRA", aliases: &[] },
    ]
}

fn all_codepoints_761() -> (v: Vec<Codepoint>)
    ensures
        v@ == codepoint_table_761(),
{
    let v = vec![
        Codepoint { codepoint: 0x1E027, name: "COMBINING GLAGOLITIC LETTER IOTATED SMALL YUS", aliases: &[] },
        Codepoint { codepoint: 0x1E028, name: "COMBINING GLAGOLITIC LETTER BIG YUS", aliases: &[] },
        Codepoint { codepoint: 0x1E029, name: "COMBINING GLAGOLITIC LETTER IOTATED BIG YUS", aliases: &[] },
        Codepoint { codepoint: 0x1E02A, name: "COMBINING GLAGOLITIC LETTER FITA", aliases: &[] },
        Codepoint { codepoint: 0x1E100, name: "NYIAKENG PUACHUE HMONG LETTER MA", aliases: &[] },
        Codepoint { codepoint: 0x1E101, name: "NYIAKENG PUACHUE HMONG LETTER TSA", aliases: &[] },
        Codepoint { codepoint: 0x1E102, name: "NYIAKENG PUACHUE HMONG LETTER NTA", aliases: &[] },
        Codepoint { codepoint: 0x1E103, name: "NYIAKENG PUACHUE HMONG LETTER TA", aliases: &[] },
        Codepoint { codepoint: 0x1E104, name: "NYIAKENG PUACHUE HMONG LETTER HA", aliases: &[] },
        Codepoint { codepoint: 0x1E105, name: "NYIAKENG PUACHUE HMONG LETTER NA", aliases: &[] },
        Codepoint { codepoint: 0x1E106, name: "NYIAKENG PUACHUE HMONG LETTER XA", aliases: &[] },
        Codepoint { codepoint: 0x1E107, name: "NYIAKENG PUACHUE HMONG LETTER NKA", aliases: &[] },
        Codepoint { codepoint: 0x1E108, name: "NYIAKENG PUACHUE HMONG LETTER CA", aliases: &[] },
        Codepoint { codepoint: 0x1E109, name: "NYIAKENG PUACHUE HMONG LETTER LA", aliases: &[] },
        Codepoint { codepoint: 0x1E10A, name: "NYIAKENG PUACHUE HMONG LETTER SA", aliases: &[] },
        Codepoint { codepoint: 0x1E10B, name: "NYIAKENG PUACHUE HMONG LETTER ZA", aliases: &[] },
        Codepoint { codepoint: 0x1E10C, name: "NYIAKENG PUACHUE HMONG LETTER NCA", aliases: &[] },
        Codepoint { codepoint: 0x1E10D, name: "NYIAKENG PUACHUE HMONG LETTER NTSA", aliases: &[] },
        Codepoint { codepoint: 0x1E10E, name: "NYIAKENG PUACHUE HMONG LETTER KA", aliases: &[] },
        Codepoint { codepoint: 0x1E10F, name: "NYIAKENG PUACHUE HMONG LETTER DA", aliases: &[] },
        Codepoint { codepoint: 0x1E110, name: "NYIAKENG PUACHUE HMONG LETTER NYA", aliases: &[] },
        Codepoint { codepoint: 0x1E111, name: "NYIAKENG PUACHUE HMONG LETTER NRA", aliases: &[] },
        Codepoint { codepoint: 0x1E112, name: "NYIAKENG PUACHUE HMONG LETTER VA", aliases: &[] },
        Codepoint { codepoint: 0x1E113, name: "NYIAKENG PUACHUE HMONG LETTER NTXA", aliases: &[] },
        Codepoint { codepoint: 0x1E114, name: "NYIAKENG PUACHUE HMONG LETTER TXA", aliases: &[] },
        Codepoint { codepoint: 0x1E115, name: "NYIAKENG PUACHUE HMONG LETTER FA", aliases: &[] },
        Codepoint { codepoint: 0x1E116, name: "NYIAKENG PUACHUE HMONG LETTER RA", aliases: &[] },
        Codepoint { codepoint: 0x1E117, name: "NYIAKENG PUACHUE HMONG LETTER QA", aliases: &[] },
        Codepoint { codepoint: 0x1E118, name: "NYIAKENG PUACHUE HMONG LETTER YA", aliases: &[] },
        Codepoint { codepoint: 0x1E119, name: "NYIAKENG PUACHUE HMONG LETTER NQA", aliases: &[] },
        Codepoint { codepoint: 0x1E11A, name: "NYIAKENG PUACHUE HMONG LETTER PA", aliases: &[] },
        Codepoint { codepoint: 0x1E11B, name: "NYIAKENG PUACHUE HMONG LETTER XYA", aliases: &[] },
        Codepoint { codepoint: 0x1E11C, name: "NYIAKENG PUACHUE HMONG LETTER NPA", aliases: &[] },
        Codepoint { codepoint: 0x1E11D, name: "NYIAKENG PUACHUE HMONG LETTER DLA", aliases: &[] },
        Codepoint { codepoint: 0x1E11E, name: "NYIAKENG PUACHUE HMONG LETTER NPLA", aliases: &[] },
        Codepoint { codepoint: 0x1E11F, name: "NYIAKENG PUACHUE HMONG LETTER HAH", aliases: &[] },
        Codepoint { codepoint: 0x1E120, name: "NYIAKENG PUACHUE HMONG LETTER MLA", aliases: &[] },
        Codepoint { codepoint: 0x1E121, name: "NYIAKENG PUACHUE HMONG LETTER PLA", aliases: &[] },
        Codepoint { codepoint: 0x1E122, name: "NYIAKENG PUACHUE HMONG LETTER GA", aliases: &[] },
        Codepoint { codepoint: 0x1E123, name: "NYIAKENG PUACHUE HMONG LETTER RRA", aliases: &[] },
    ];
    assert(v@ =~= codepoint_table_761());
    v
}

pub open spec fn codepoint_table_762() -> Seq<Codepoint> {
    seq![
        Codepoint { codepoint: 0x1E124, name: "NYIAKENG PUACHUE HMONG LETTER A", aliases: &[] },
        Codepoint { codepoint: 0x1E125, name: "NYIAKENG PUACHUE HMONG LETTER AA", aliases: &[] },
        Codepoint { codepoint: 0x1E126, name: "NYIAKENG PUACHUE HMONG LETTER I", aliases: &[] },
        Codepoint { codepoint: 0x1E127, name: "NYIAKENG PUACHUE HMONG LETTER U", aliases: &[] },
        Codepoint { codepoint: 0x1E128, name: "NYIAKENG PUACHUE HMONG LETTER O", aliases: &[] },
        Codepoint { codepoint: 0x1E129, name: "NYIAKENG PUACHUE HMONG LETTER OO", aliases: &[] },
        Codepoint { codepoint: 0x1E12A, name: "NYIAKENG PUACHUE HMONG LETTER E", aliases: &[] },
        Codepoint { codepoint: 0x1E12B, name: "NYIAKENG PUACHUE HMONG LETTER EE", aliases: &[] },
        Codepoint { codepoint: 0x1E12C, name: "NYIAKENG PUACHUE HMONG LETTER W", aliases: &[] },
        Codepoint { codepoint: 0x1E130, name: "NYIAKENG PUACHUE HMONG TONE-B", aliases: &[] },
        Codepoint { codepoint: 0x1E131, name: "NYIAKENG PUACHUE HMONG TONE-M", aliases: &[] },
        Codepoint { codepoint: 0x1E132, name: "NYIAKENG PUACHUE HMONG TONE-J", aliases: &[] },
        Codepoint { codepoint: 0x1E133, name: "NYIAKENG PUACHUE HMONG TONE-V", aliases: &[] },
        Codepoint { codepoint: 0x1E134, name: "NYIAKENG PUACHUE HMONG TONE-S", aliases: &[] },
        Codepoint { codepoint: 0x1E135, name: "NYIAKENG PUACHUE HMONG TONE-G", aliases: &[] },
        Codepoint { codepoint: 0x1E136, name: "NYIAKENG PUACHUE HMONG TONE-D", aliases: &[] },
        Codepoint { codepoint: 0x1E137, name: "NYIAKENG PUACHUE HMONG SIGN FOR PERSON", aliases: &[] },
        Codepoint { codepoint: 0x1E138, name: "NYIAKENG PUACHUE HMONG SIGN FOR THING", aliases: &[] },
        Codepoint { codepoint: 0x1E139, name: "NYIAKENG PUACHUE HMONG SIGN FOR LOCATION", aliases: &[] },
        Codepoint { codepoint: 0x1E13A, name: "NYIAKENG PUACHUE HMONG SIGN FOR ANIMAL", aliases: &[] },
        Codepoint { codepoint: 0x1E13B, name: "NYIAKENG PUACHUE HMONG SIGN FOR INVERTEBRATE", aliases: &[] },
        Codepoint { codepoint: 0x1E13C, name: "NYIAKENG PUACHUE HMONG SIGN XW XW", aliases: &[] },
        Codepoint { codepoint: 0x1E13D, name: "NYIAKENG PUACHUE HMONG SYLLABLE LENGTHENER", aliases: &[] },
        Codepoint { codepoint: 0x1E140, name: "NYIAKENG PUACHUE HMONG DIGIT ZERO", aliases: &[] },
        Codepoint { codepoint: 0x1E141, name: "NYIAKENG PUACHUE HMONG DIGIT ONE", aliases: &[] },
        Codepoint { codepoint: 0x1E142, name: "NYIAKENG PUACHUE HMONG DIGIT TWO", aliases: &[] },
        Codepoint { codepoint: 0x1E143, name: "NYIAKENG PUACHUE HMONG DIGIT THREE", aliases: &[] },
        Codepoint { codepoint: 0x1E144, name: "NYIAKENG PUACHUE HMONG DIGIT FOUR", aliases: &[] },
        Codepoint { codepoint: 0x1E145, name: "NYIAKENG PUACHUE HMONG DIGIT FIVE", aliases: &[] },
        Codepoint { codepoint: 0x1E146, name: "NYIAKENG PUACHUE HMONG DIGIT SIX", aliases: &[] },
        Codepoint { codepoint: 0x1E147, name: "NYIAKENG PUACHUE HMONG DIGIT SEVEN", aliases: &[] },
        Codepoint { codepoint: 0x1E148, name: "NYIAKENG PUACHUE HMONG DIGIT EIGHT", aliases: &[] },
        Codepoint { codepoint: 0x1E149, name: "NYIAKENG PUACHUE HMONG DIGIT NINE", aliases: &[] },
        Codepoint { codepoint: 0x1E14E, name: "NYIAKENG PUACHUE HMONG LOGOGRAM NYAJ", aliases: &[] },
        Codepoint { codepoint: 0x1E14F, name: "NYIAKENG PUACHUE HMONG CIRCLED CA", aliases: &[] },
        Codepoint { codepoint: 0x1E290, name: "TOTO LETTER PA", aliases: &[] },
        Codepoint { codepoint: 0x1E291, name: "TOTO LETTER BA", aliases: &[] },
        Codepoint { codepoint: 0x1E292, name: "TOTO LETTER TA", aliases: &[] },
        Codepoint { codepoint: 0x1E293, name: "TOTO LETTER DA", aliases: &[] },
        Codepoint { codepoint: 0x1E294, name: "TOTO LETTER KA", aliases: &[] },
    ]
}

fn all_codepoints_762() -> (v: Vec<Codepoint>)
    ensures
        v@ == codepoint_table_762(),
{
    let v = vec![
        Codepoint { codepoint: 0x1E124, name: "NYIAKENG PUACHUE HMONG LETTER A", aliases: &[] },
        Codepoint { codepoint: 0x1E125, name: "NYIAKENG PUACHUE HMONG LETTER AA", aliases: &[] },
        Codepoint { codepoint: 0x1E126, name: "NYIAKENG PUACHUE HMONG LETTER I", aliases: &[] },
        Codepoint { codepoint: 0x1E127, name: "NYIAKENG PUACHUE HMONG LETTER U", aliases: &[] },
        Codepoint { codepoint: 0x1E128, name: "NYIAKENG PUACHUE HMONG LETTER O", aliases: &[] },
        Codepoint { codepoint: 0x1E129, name: "NYIAKENG PUACHUE HMONG LETTER OO", aliases: &[] },
        Codepoint { codepoint: 0x1E12A, name: "NYIAKENG PUACHUE HMONG LETTER E", aliases: &[] },
        Codepoint { codepoint: 0x1E12B, name: "NYIAKENG PUACHUE HMONG LETTER EE", aliases: &[] },
        Codepoint { codepoint: 0x1E12C, name: "NYIAKENG PUACHUE HMONG LETTER W", aliases: &[] },
        Codepoint { codepoint: 0x1E130, name: "NYIAKENG PUACHUE HMONG TONE-B", aliases: &[] },
        Codepoint { codepoint: 0x1E131, name: "NYIAKENG PUACHUE HMONG TONE-M", aliases: &[] },
        Codepoint { codepoint: 0x1E132, name: "NYIAKENG PUACHUE HMONG TONE-J", aliases: &[] },
        Codepoint { codepoint: 0x1E133, name: "NYIAKENG PUACHUE HMONG TONE-V", aliases: &[] },
        Codepoint { codepoint: 0x1E134, name: "NYIAKENG PUACHUE HMONG TONE-S", aliases: &[] },
        Codepoint { codepoint: 0x1E135, name: "NYIAKENG PUACHUE HMONG TONE-G", aliases: &[] },
        Codepoint { codepoint: 0x1E136, name: "NYIAKENG PUACHUE HMONG TONE-D", aliases: &[] },
        Codepoint { codepoint: 0x1E137, name: "NYIAKENG PUACHUE HMONG SIGN FOR PERSON", aliases: &[] },
        Codepoint { codepoint: 0x1E138, name: "NYIAKENG PUACHUE HMONG SIGN FOR THING", aliases: &[] },
        Codepoint { codepoint: 0x1E139, name: "NYIAKENG PUACHUE HMONG SIGN FOR LOCATION", aliases: &[] },
        Codepoint { codepoint: 0x1E13A, name: "NYIAKENG PUACHUE HMONG SIGN FOR ANIMAL", aliases: &[] },
        Codepoint { codepoint: 0x1E13B, name: "NYIAKENG PUACHUE HMONG SIGN FOR INVERTEBRATE", aliases: &[] },
        Codepoint { codepoint: 0x1E13C, name: "NYIAKENG PUACHUE HMONG SIGN XW XW", aliases: &[] },
        Codepoint { codepoint: 0x1E13D, name: "NYIAKENG PUACHUE HMONG SYLLABLE LENGTHENER", aliases: &[] },
        Codepoint { codepoint: 0x1E140, name: "NYIAKENG PUACHUE HMONG DIGIT ZERO", aliases: &[] },
        Codepoint { codepoint: 0x1E141, name: "NYIAKENG PUACHUE HMONG DIGIT ONE", aliases: &[] },
        Codepoint { codepoint: 0x1E142, name: "NYIAKENG PUACHUE HMONG DIGIT TWO", aliases: &[] },
        Codepoint { codepoint: 0x1E143, name: "NYIAKENG PUACHUE HMONG DIGIT THREE", aliases: &[] },
        Codepoint { codepoint: 0x1E144, name: "NYIAKENG PUACHUE HMONG DIGIT FOUR", aliases: &[] },
        Codepoint { codepoint: 0x1E145, name: "NYIAKENG PUACHUE HMONG DIGIT FIVE", aliases: &[] },
        Codepoint { codepoint: 0x1E146, name: "NYIAKENG PUACHUE HMONG DIGIT SIX", aliases: &[] },
        Codepoint { codepoint: 0x1E147, name: "NYIAKENG PUACHUE HMONG DIGIT SEVEN", aliases: &[] },
        Codepoint { codepoint: 0x1E148, name: "NYIAKENG PUACHUE HMONG DIGIT EIGHT", aliases: &[] },
        Codepoint { codepoint: 0x1E149, name: "NYIAKENG PUACHUE HMONG DIGIT NINE", aliases: &[] },
        Codepoint { codepoint: 0x1E14E, name: "NYIAKENG PUACHUE HMONG LOGOGRAM NYAJ", aliases: &[] },
        Codepoint { codepoint: 0x1E14F, name: "NYIAKENG PUACHUE HMONG CIRCLED CA", aliases: &[] },
        Codepoint { codepoint: 0x1E290, name: "TOTO LETTER PA", aliases: &[] },
        Codepoint { codepoint: 0x1E291, name: "TOTO LETTER BA", aliases: &[] },
        Codepoint { codepoint: 0x1E292, name: "TOTO LETTER TA", aliases: &[] },
        Codepoint { codepoint: 0x1E293, name: "TOTO LETTER DA", aliases: &[] },
        Codepoint { codepoint: 0x1E294, name: "TOTO LETTER KA", aliases: &[] },
    ];
    assert(v@ =~= codepoint_table_762());
    v
}

pub open spec fn codepoint_table_763() -> Seq<Codepoint> {
    seq![
        Codepoint { codepoint: 0x1E295, name: "TOTO LETTER GA", aliases: &[] },
        Codepoint { codepoint: 0x1E296, name: "TOTO LETTER MA", aliases: &[] },
        Codepoint { codepoint: 0x1E297, name: "TOTO LETTER NA", aliases: &[] },
        Codepoint { codepoint: 0x1E298, name: "TOTO LETTER NGA", aliases: &[] },
        Codepoint { codepoint: 0x1E299, name: "TOTO LETTER SA", aliases: &[] },
        Codepoint { codepoint: 0x1E29A, name: "TOTO LETTER CHA", aliases: &[] },
        Codepoint { codepoint: 0x1E29B, name: "TOTO LETTER YA", aliases: &[] },
        Codepoint { codepoint: 0x1E29C, name: "TOTO LETTER WA", aliases: &[] },
        Codepoint { codepoint: 0x1E29D, name: "TOTO LETTER JA", aliases: &[] },
        Codepoint { codepoint: 0x1E29E, name: "TOTO LETTER HA", aliases: &[] },
        Codepoint { codepoint: 0x1E29F, name: "TOTO LETTER RA", aliases: &[] },
        Codepoint { codepoint: 0x1E2A0, name: "TOTO LETTER LA", aliases: &[] },
        Codepoint { codepoint: 0x1E2A1, name: "TOTO LETTER I", aliases: &[] },
        Codepoint { codepoint: 0x1E2A2, name: "TOTO LETTER BREATHY I", aliases: &[] },
        Codepoint { codepoint: 0x1E2A3, name: "TOTO LETTER IU", aliases: &[] },
        Codepoint { codepoint: 0x1E2A4, name: "TOTO LETTER BREATHY IU", aliases: &[] },
        Codepoint { codepoint: 0x1E2A5, name: "TOTO LETTER U", aliases: &[] },
        Codepoint { codepoint: 0x1E2A6, name: "TOTO LETTER E", aliases: &[] },
        Codepoint { codepoint: 0x1E2A7, name: "TOTO LETTER BREATHY E", aliases: &[] },
        Codepoint { codepoint: 0x1E2A8, name: "TOTO LETTER EO", aliases: &[] },
        Codepoint { codepoint: 0x1E2A9, name: "TOTO LETTER BREATHY EO", aliases: &[] },
        Codepoint { codepoint: 0x1E2AA, name: "TOTO LETTER O", aliases: &[] },
        Codepoint { codepoint: 0x1E2AB, name: "TOTO LETTER AE", aliases: &[] },
        Codepoint { codepoint: 0x1E2AC, name: "TOTO LETTER BREATHY AE", aliases: &[] },
        Codepoint { codepoint: 0x1E2AD, name: "TOTO LETTER A", aliases: &[] },
        Codepoint { codepoint: 0x1E2AE, name: "TOTO SIGN RISING TONE", aliases: &[] },
        Codepoint { codepoint: 0x1E2C0, name: "WANCHO LETTER AA", aliases: &[] },
        Codepoint { codepoint: 0x1E2C1, name: "WANCHO LETTER A", aliases: &[] },
        Codepoint { codepoint: 0x1E2C2, name: "WANCHO LETTER BA", aliases: &[] },
        Codepoint { codepoint: 0x1E2C3, name: "WANCHO LETTER CA", aliases: &[] },
        Codepoint { codepoint: 0x1E2C4, name: "WANCHO LETTER DA", aliases: &[] },
        Codepoint { codepoint: 0x1E2C5, name: "WANCHO LETTER GA", aliases: &[] },
        Codepoint { codepoint: 0x1E2C6, name: "WANCHO LETTER YA", aliases: &[] },
        Codepoint { codepoint: 0x1E2C7, name: "WANCHO LETTER PHA", aliases: &[] },
        Codepoint { codepoint: 0x1E2C8, name: "WANCHO LETTER LA", aliases: &[] },
        Codepoint { codepoint: 0x1E2C9, name: "WANCHO LETTER NA", aliases: &[] },
        Codepoint { codepoint: 0x1E2CA, name: "WANCHO LETTER PA", aliases: &[] },
        Codepoint { codepoint: 0x1E2CB, name: "WANCHO LETTER TA", aliases: &[] },
        Codepoint { codepoint: 0x1E2CC, name: "WANCHO LETTER THA", aliases: &[] },
        Codepoint { codepoint: 0x1E2CD, name: "WANCHO LETTER FA", aliases: &[] },
    ]
}

fn all_codepoints_763() -> (v: Vec<Codepoint>)
    ensures
        v@ == codepoint_table_763(),
{
    let v = vec![
        Codepoint { codepoint: 0x1E295, name: "TOTO LETTER GA", aliases: &[] },
        Codepoint { codepoint: 0x1E296, name: "TOTO LETTER MA", aliases: &[] },
        Codepoint { codepoint: 0x1E297, name: "TOTO LETTER NA", aliases: &[] },
        Codepoint { codepoint: 0x1E298, name: "TOTO LETTER NGA", aliases: &[] },
        Codepoint { codepoint: 0x1E299, name: "TOTO LETTER SA", aliases: &[] },
        Codepoint { codepoint: 0x1E29A, name: "TOTO LETTER CHA", aliases: &[] },
        Codepoint { codepoint: 0x1E29B, name: "TOTO LETTER YA", aliases: &[] },
        Codepoint { codepoint: 0x1E29C, name: "TOTO LETTER WA", aliases: &[] },
        Codepoint { codepoint: 0x1E29D, name: "TOTO LETTER JA", aliases: &[] },
        Codepoint { codepoint: 0x1E29E, name: "TOTO LETTER HA", aliases: &[] },
        Codepoint { codepoint: 0x1E29F, name: "TOTO LETTER RA", aliases: &[] },
        Codepoint { codepoint: 0x1E2A0, name: "TOTO LETTER LA", aliases: &[] },
        Codepoint { codepoint: 0x1E2A1, name: "TOTO LETTER I", aliases: &[] },
        Codepoint { codepoint: 0x1E2A2, name: "TOTO LETTER BREATHY I", aliases: &[] },
        Codepoint { codepoint: 0x1E2A3, name: "TOTO LETTER IU", aliases: &[] },
        Codepoint { codepoint: 0x1E2A4, name: "TOTO LETTER BREATHY IU", aliases: &[] },
        Codepoint { codepoint: 0x1E2A5, name: "TOTO LETTER U", aliases: &[] },
        Codepoint { codepoint: 0x1E2A6, name: "TOTO LETTER E", aliases: &[] },
        Codepoint { codepoint: 0x1E2A7, name: "TOTO LETTER BREATHY E", aliases: &[] },
        Codepoint { codepoint: 0x1E2A8, name: "TOTO LETTER EO", aliases: &[] },
        Codepoint { codepoint: 0x1E2A9, name: "TOTO LETTER BREATHY EO", aliases: &[] },
        Codepoint { codepoint: 0x1E2AA, name: "TOTO LETTER O", aliases: &[] },
        Codepoint { codepoint: 0x1E2AB, name: "TOTO LETTER AE", aliases: &[] },
        Codepoint { codepoint: 0x1E2AC, name: "TOTO LETTER BREATHY AE", aliases: &[] },
        Codepoint { codepoint: 0x1E2AD, name: "TOTO LETTER A", aliases: &[] },
        Codepoint { codepoint: 0x1E2AE, name: "TOTO SIGN RISING TONE", aliases: &[] },
        Codepoint { codepoint: 0x1E2C0, name: "WANCHO LETTER AA", aliases: &[] },
        Codepoint { codepoint: 0x1E2C1, name: "WANCHO LETTER A", aliases: &[] },
        Codepoint { codepoint: 0x1E2C2, name: "WANCHO LETTER BA", aliases: &[] },
        Codepoint { codepoint: 0x1E2C3, name: "WANCHO LETTER CA", aliases: &[] },
        Codepoint { codepoint: 0x1E2C4, name: "WANCHO LETTER DA", aliases: &[] },
        Codepoint { codepoint: 0x1E2C5, name: "WANCHO LETTER GA", aliases: &[] },
        Codepoint { codepoint: 0x1E2C6, name: "WANCHO LETTER YA", aliases: &[] },
        Codepoint { codepoint: 0x1E2C7, name: "WANCHO LETTER PHA", aliases: &[] },
        Codepoint { codepoint: 0x1E2C8, name: "WANCHO LETTER LA", aliases: &[] },
        Codepoint { codepoint: 0x1E2C9, name: "WANCHO LETTER NA", aliases: &[] },
        Codepoint { codepoint: 0x1E2CA, name: "WANCHO LETTER PA", aliases: &[] },
        Codepoint { codepoint: 0x1E2CB, name: "WANCHO LETTER TA", aliases: &[] },
        Codepoint { codepoint: 0x1E2CC, name: "WANCHO LETTER THA", aliases: &[] },
        Codepoint { codepoint: 0x1E2CD, name: "WANCHO LETTER FA", aliases: &[] },
    ];
    assert(v@ =~= codepoint_table_763());
    v
}

pub open spec fn codepoint_table_764() -> Seq<Codepoint> {
    seq![
        Codepoint { codepoint: 0x1E2CE, name: "WANCHO LETTER SA", aliases: &[] },
        Codepoint { codepoint: 0x1E2CF, name: "WANCHO LETTER SHA", aliases: &[] },
        Codepoint { codepoint: 0x1E2D0, name: "WANCHO LETTER JA", aliases: &[] },
        Codepoint { codepoint: 0x1E2D1, name: "WANCHO LETTER ZA", aliases: &[] },
        Codepoint { codepoint: 0x1E2D2, name: "WANCHO LETTER WA", aliases: &[] },
        Codepoint { codepoint: 0x1E2D3, name: "WANCHO LETTER VA", aliases: &[] },
        Codepoint { codepoint: 0x1E2D4, name: "WANCHO LETTER KA", aliases: &[] },
        Codepoint { codepoint: 0x1E2D5, name: "WANCHO LETTER O", aliases: &[] },
        Codepoint { codepoint: 0x1E2D6, name: "WANCHO LETTER AU", aliases: &[] },
        Codepoint { codepoint: 0x1E2D7, name: "WANCHO LETTER RA", aliases: &[] },
        Codepoint { codepoint: 0x1E2D8, name: "WANCHO LETTER MA", aliases: &[] },
        Codepoint { codepoint: 0x1E2D9, name: "WANCHO LETTER KHA", aliases: &[] },
        Codepoint { codepoint: 0x1E2DA, name: "WANCHO LETTER HA", aliases: &[] },
        Codepoint { codepoint: 0x1E2DB, name: "WANCHO LETTER E", aliases: &[] },
        Codepoint { codepoint: 0x1E2DC, name: "WANCHO LETTER I", aliases: &[] },
        Codepoint { codepoint: 0x1E2DD, name: "WANCHO LETTER NGA", aliases: &[] },
        Codepoint { codepoint: 0x1E2DE, name: "WANCHO LETTER U", aliases: &[] },
        Codepoint { codepoint: 0x1E2DF, name: "WANCHO LETTER LLHA", aliases: &[] },
        Codepoint { codepoint: 0x1E2E0, name: "WANCHO LETTER TSA", aliases: &[] },
        Codepoint { codepoint: 0x1E2E1, name: "WANCHO LETTER TRA", aliases: &[] },
        Codepoint { codepoint: 0x1E2E2, name: "WANCHO LETTER ONG", aliases: &[] },
        Codepoint { codepoint: 0x1E2E3, name: "WANCHO LETTER AANG", aliases: &[] },
        Codepoint { codepoint: 0x1E2E4, name: "WANCHO LETTER ANG", aliases: &[] },
        Codepoint { codepoint: 0x1E2E5, name: "WANCHO LETTER ING", aliases: &[] },
        Codepoint { codepoint: 0x1E2E6, name: "WANCHO LETTER ON", aliases: &[] },
        Codepoint { codepoint: 0x1E2E7, name: "WANCHO LETTER EN", aliases: &[] },
        Codepoint { codepoint: 0x1E2E8, name: "WANCHO LETTER AAN", aliases: &[] },
        Codepoint { codepoint: 0x1E2E9, name: "WANCHO LETTER NYA", aliases: &[] },
        Codepoint { codepoint: 0x1E2EA, name: "WANCHO LETTER UEN", aliases: &[] },
        Codepoint { codepoint: 0x1E2EB, name: "WANCHO LETTER YIH", aliases: &[] },
        Codepoint { codepoint: 0x1E2EC, name: "WANCHO TONE TUP", aliases: &[] },
        Codepoint { codepoint: 0x1E2ED, name: "WANCHO TONE TUPNI", aliases: &[] },
        Codepoint { codepoint: 0x1E2EE, name: "WANCHO TONE KOI", aliases: &[] },
        Codepoint { codepoint: 0x1E2EF, name: "WANCHO TONE KOINI", aliases: &[] },
        Codepoint { codepoint: 0x1E2F0, name: "WANCHO DIGIT ZERO", aliases: &[] },
        Codepoint { codepoint: 0x1E2F1, name: "WANCHO DIGIT ONE", aliases: &[] },
        Codepoint { codepoint: 0x1E2F2, name: "WANCHO DIGIT TWO", aliases: &[] },
        Codepoint { codepoint: 0x1E2F3, name: "WANCHO DIGIT THREE", aliases: &[] },
        Codepoint { codepoint: 0x1E2F4, name: "WANCHO DIGIT FOUR", aliases: &[] },
        Codepoint { codepoint: 0x1E2F5, name: "WANCHO DIGIT FIVE", aliases: &[] },
    ]
}

fn all_codepoints_764() -> (v: Vec<Codepoint>)
    ensures
        v@ == codepoint_table_764(),
{
    let v = vec![
        Codepoint { codepoint: 0x1E2CE, name: "WANCHO LETTER SA", aliases: &[] },
        Codepoint { codepoint: 0x1E2CF, name: "WANCHO LETTER SHA", aliases: &[] },
        Codepoint { codepoint: 0x1E2D0, name: "WANCHO LETTER JA", aliases: &[] },
        Codepoint { codepoint: 0x1E2D1, name: "WANCHO LETTER ZA", aliases: &[] },
        Codepoint { codepoint: 0x1E2D2, name: "WANCHO LETTER WA", aliases: &[] },
        Codepoint { codepoint: 0x1E2D3, name: "WANCHO LETTER VA", aliases: &[] },
        Codepoint { codepoint: 0x1E2D4, name: "WANCHO LETTER KA", aliases: &[] },
        Codepoint { codepoint: 0x1E2D5, name: "WANCHO LETTER O", aliases: &[] },
        Codepoint { codepoint: 0x1E2D6, name: "WANCHO LETTER AU", aliases: &[] },
        Codepoint { codepoint: 0x1E2D7, name: "WANCHO LETTER RA", aliases: &[] },
        Codepoint { codepoint: 0x1E2D8, name: "WANCHO LETTER MA", aliases: &[] },
        Codepoint { codepoint: 0x1E2D9, name: "WANCHO LETTER KHA", aliases: &[] },
        Codepoint { codepoint: 0x1E2DA, name: "WANCHO LETTER HA", aliases: &[] },
        Codepoint { codepoint: 0x1E2DB, name: "WANCHO LETTER E", aliases: &[] },
        Codepoint { codepoint: 0x1E2DC, name: "WANCHO LETTER I", aliases: &[] },
        Codepoint { codepoint: 0x1E2DD, name: "WANCHO LETTER NGA", aliases: &[] },
        Codepoint { codepoint: 0x1E2DE, name: "WANCHO LETTER U", aliases: &[] },
        Codepoint { codepoint: 0x1E2DF, name: "WANCHO LETTER LLHA", aliases: &[] },
        Codepoint { codepoint: 0x1E2E0, name: "WANCHO LETTER TSA", aliases: &[] },
        Codepoint { codepoint: 0x1E2E1, name: "WANCHO LETTER TRA", aliases: &[] },
        Codepoint { codepoint: 0x1E2E2, name: "WANCHO LETTER ONG", aliases: &[] },
        Codepoint { codepoint: 0x1E2E3, name: "WANCHO LETTER AANG", aliases: &[] },
        Codepoint { codepoint: 0x1E2E4, name: "WANCHO LETTER ANG", aliases: &[] },
        Codepoint { codepoint: 0x1E2E5, name: "WANCHO LETTER ING", aliases: &[] },
        Codepoint { codepoint: 0x1E2E6, name: "WANCHO LETTER ON", aliases: &[] },
        Codepoint { codepoint: 0x1E2E7, name: "WANCHO LETTER EN", aliases: &[] },
        Codepoint { codepoint: 0x1E2E8, name: "WANCHO LETTER AAN", aliases: &[] },
        Codepoint { codepoint: 0x1E2E9, name: "WANCHO LETTER NYA", aliases: &[] },
        Codepoint { codepoint: 0x1E2EA, name: "WANCHO LETTER UEN", aliases: &[] },
        Codepoint { codepoint: 0x1E2EB, name: "WANCHO LETTER YIH", aliases: &[] },
        Codepoint { codepoint: 0x1E2EC, name: "WANCHO TONE TUP", aliases: &[] },
        Codepoint { codepoint: 0x1E2ED, name: "WANCHO TONE TUPNI", aliases: &[] },
        Codepoint { codepoint: 0x1E2EE, name: "WANCHO TONE KOI", aliases: &[] },
        Codepoint { codepoint: 0x1E2EF, name: "WANCHO TONE KOINI", aliases: &[] },
        Codepoint { codepoint: 0x1E2F0, name: "WANCHO DIGIT ZERO", aliases: &[] },
        Codepoint { codepoint: 0x1E2F1, name: "WANCHO DIGIT ONE", aliases: &[] },
        Codepoint { codepoint: 0x1E2F2, name: "WANCHO DIGIT TWO", aliases: &[] },
        Codepoint { codepoint: 0x1E2F3, name: "WANCHO DIGIT THREE", aliases: &[] },
        Codepoint { codepoint: 0x1E2F4, name: "WANCHO DIGIT FOUR", aliases: &[] },
        Codepoint { codepoint: 0x1E2F5, name: "WANCHO DIGIT FIVE", aliases: &[] },
    ];
    assert(v@ =~= codepoint_table_764());
    v
}

pub open spec fn codepoint_table_765() -> Seq<Codepoint> {
    seq![
        Codepoint { codepoint: 0x1E2F6, name: "WANCHO DIGIT SIX", aliases: &[] },
        Codepoint { codepoint: 0x1E2F7, name: "WANCHO DIGIT SEVEN", aliases: &[] },
        Codepoint { codepoint: 0x1E2F8, name: "WANCHO DIGIT EIGHT", aliases: &[] },
        Codepoint { codepoint: 0x1E2F9, name: "WANCHO DIGIT NINE", aliases: &[] },
        Codepoint { codepoint: 0x1E2FF, name: "WANCHO NGUN SIGN", aliases: &[] },
        Codepoint { codepoint: 0x1E7E0, name: "ETHIOPIC SYLLABLE HHYA", aliases: &[] },
        Codepoint { codepoint: 0x1E7E1, name: "ETHIOPIC SYLLABLE HHYU", aliases: &[] },
        Codepoint { codepoint: 0x1E7E2, name: "ETHIOPIC SYLLABLE HHYI", aliases: &[] },
        Codepoint { codepoint: 0x1E7E3, name: "ETHIOPIC SYLLABLE HHYAA", aliases: &[] },
        Codepoint { codepoint: 0x1E7E4, name: "ETHIOPIC SYLLABLE HHYEE", aliases: &[] },
        Codepoint { codepoint: 0x1E7E5, name: "ETHIOPIC SYLLABLE HHYE", aliases: &[] },
        Codepoint { codepoint: 0x1E7E6, name: "ETHIOPIC SYLLABLE HHYO", aliases: &[] },
        Codepoint { codepoint: 0x1E7E8, name: "ETHIOPIC SYLLABLE GURAGE HHWA", aliases: &[] },
        Codepoint { codepoint: 0x1E7E9, name: "ETHIOPIC SYLLABLE HHWI", aliases: &[] },
        Codepoint { codepoint: 0x1E7EA, name: "ETHIOPIC SYLLABLE HHWEE", aliases: &[] },
        Codepoint { codepoint: 0x1E7EB, name: "ETHIOPIC SYLLABLE HHWE", aliases: &[] },
        Codepoint { codepoint: 0x1E7ED, name: "ETHIOPIC SYLLABLE GURAGE MWI", aliases: &[] },
        Codepoint { codepoint: 0x1E7EE, name: "ETHIOPIC SYLLABLE GURAGE MWEE", aliases: &[] },
        Codepoint { codepoint: 0x1E7F0, name: "ETHIOPIC SYLLABLE GURAGE QWI", aliases: &[] },
        Codepoint { codepoint: 0x1E7F1, name: "ETHIOPIC SYLLABLE GURAGE QWEE", aliases: &[] },
        Codepoint { codepoint: 0x1E7F2, name: "ETHIOPIC SYLLABLE GURAGE QWE", aliases: &[] },
        Codepoint { codepoint: 0x1E7F3, name: "ETHIOPIC SYLLABLE GURAGE BWI", aliases: &[] },
        Codepoint { codepoint: 0x1E7F4, name: "ETHIOPIC SYLLABLE GURAGE BWEE", aliases: &[] },
        Codepoint { codepoint: 0x1E7F5, name: "ETHIOPIC SYLLABLE GURAGE KWI", aliases: &[] },
        Codepoint { codepoint: 0x1E7F6, name: "ETHIOPIC SYLLABLE GURAGE KWEE", aliases: &[] },
        Codepoint { codepoint: 0x1E7F7, name: "ETHIOPIC SYLLABLE GURAGE KWE", aliases: &[] },
        Codepoint { codepoint: 0x1E7F8, name: "ETHIOPIC SYLLABLE GURAGE GWI", aliases: &[] },
        Codepoint { codepoint: 0x1E7F9, name: "ETHIOPIC SYLLABLE GURAGE GWEE", aliases: &[] },
        Codepoint { codepoint: 0x1E7FA, name: "ETHIOPIC SYLLABLE GURAGE GWE", aliases: &[] },
        Codepoint { codepoint: 0x1E7FB, name: "ETHIOPIC SYLLABLE GURAGE FWI", aliases: &[] },
        Codepoint { codepoint: 0x1E7FC, name: "ETHIOPIC SYLLABLE GURAGE FWEE", aliases: &[] },
        Codepoint { codepoint: 0x1E7FD, name: "ETHIOPIC SYLLABLE GURAGE PWI", aliases: &[] },
        Codepoint { codepoint: 0x1E7FE, name: "ETHIOPIC SYLLABLE GURAGE PWEE", aliases: &[] },
        Codepoint { codepoint: 0x1E800, name: "MENDE KIKAKUI SYLLABLE M001 KI", aliases: &[] },
        Codepoint { codepoint: 0x1E801, name: "MENDE KIKAKUI SYLLABLE M002 KA", aliases: &[] },
        Codepoint { codepoint: 0x1E802, name: "MENDE KIKAKUI SYLLABLE M003 KU", aliases: &[] },
        Codepoint { codepoint: 0x1E803, name: "MENDE KIKAKUI SYLLABLE M065 KEE", aliases: &[] },
        Codepoint { codepoint: 0x1E804, name: "MENDE KIKAKUI SYLLABLE M095 KE", aliases: &[] },
        Codepoint { codepoint: 0x1E805, name: "MENDE KIKAKUI SYLLABLE M076 KOO", aliases: &[] },
        Codepoint { codepoint: 0x1E806, name: "MENDE KIKAKUI SYLLABLE M048 KO", aliases: &[] },
    ]
}

fn all_codepoints_765() -> (v: Vec<Codepoint>)
    ensures
        v@ == codepoint_table_765(),
{
    let v = vec![
        Codepoint { codepoint: 0x1E2F6, name: "WANCHO DIGIT SIX", aliases: &[] },
        Codepoint { codepoint: 0x1E2F7, name: "WANCHO DIGIT SEVEN", aliases: &[] },
        Codepoint { codepoint: 0x1E2F8, name: "WANCHO DIGIT EIGHT", aliases: &[] },
        Codepoint { codepoint: 0x1E2F9, name: "WANCHO DIGIT NINE", aliases: &[] },
        Codepoint { codepoint: 0x1E2FF, name: "WANCHO NGUN SIGN", aliases: &[] },
        Codepoint { codepoint: 0x1E7E0, name: "ETHIOPIC SYLLABLE HHYA", aliases: &[] },
        Codepoint { codepoint: 0x1E7E1, name: "ETHIOPIC SYLLABLE HHYU", aliases: &[] },
        Codepoint { codepoint: 0x1E7E2, name: "ETHIOPIC SYLLABLE HHYI", aliases: &[] },
        Codepoint { codepoint: 0x1E7E3, name: "ETHIOPIC SYLLABLE HHYAA", aliases: &[] },
        Codepoint { codepoint: 0x1E7E4, name: "ETHIOPIC SYLLABLE HHYEE", aliases: &[] },
        Codepoint { codepoint: 0x1E7E5, name: "ETHIOPIC SYLLABLE HHYE", aliases: &[] },
        Codepoint { codepoint: 0x1E7E6, name: "ETHIOPIC SYLLABLE HHYO", aliases: &[] },
        Codepoint { codepoint: 0x1E7E8, name: "ETHIOPIC SYLLABLE GURAGE HHWA", aliases: &[] },
        Codepoint { codepoint: 0x1E7E9, name: "ETHIOPIC SYLLABLE HHWI", aliases: &[] },
        Codepoint { codepoint: 0x1E7EA, name: "ETHIOPIC SYLLABLE HHWEE", aliases: &[] },
        Codepoint { codepoint: 0x1E7EB, name: "ETHIOPIC SYLLABLE HHWE", aliases: &[] },
        Codepoint { codepoint: 0x1E7ED, name: "ETHIOPIC SYLLABLE GURAGE MWI", aliases: &[] },
        Codepoint { codepoint: 0x1E7EE, name: "ETHIOPIC SYLLABLE GURAGE MWEE", aliases: &[] },
        Codepoint { codepoint: 0x1E7F0, name: "ETHIOPIC SYLLABLE GURAGE QWI", aliases: &[] },
        Codepoint { codepoint: 0x1E7F1, name: "ETHIOPIC SYLLABLE GURAGE QWEE", aliases: &[] },
        Codepoint { codepoint: 0x1E7F2, name: "ETHIOPIC SYLLABLE GURAGE QWE", aliases: &[] },
        Codepoint { codepoint: 0x1E7F3, name: "ETHIOPIC SYLLABLE GURAGE BWI", aliases: &[] },
        Codepoint { codepoint: 0x1E7F4, name: "ETHIOPIC SYLLABLE GURAGE BWEE", aliases: &[] },
        Codepoint { codepoint: 0x1E7F5, name: "ETHIOPIC SYLLABLE GURAGE KWI", aliases: &[] },
        Codepoint { codepoint: 0x1E7F6, name: "ETHIOPIC SYLLABLE GURAGE KWEE", aliases: &[] },
        Codepoint { codepoint: 0x1E7F7, name: "ETHIOPIC SYLLABLE GURAGE KWE", aliases: &[] },
        Codepoint { codepoint: 0x1E7F8, name: "ETHIOPIC SYLLABLE GURAGE GWI", aliases: &[] },
        Codepoint { codepoint: 0x1E7F9, name: "ETHIOPIC SYLLABLE GURAGE GWEE", aliases: &[] },
        Codepoint { codepoint: 0x1E7FA, name: "ETHIOPIC SYLLABLE GURAGE GWE", aliases: &[] },
        Codepoint { codepoint: 0x1E7FB, name: "ETHIOPIC SYLLABLE GURAGE FWI", aliases: &[] },
        Codepoint { codepoint: 0x1E7FC, name: "ETHIOPIC SYLLABLE GURAGE FWEE", aliases: &[] },
        Codepoint { codepoint: 0x1E7FD, name: "ETHIOPIC SYLLABLE GURAGE PWI", aliases: &[] },
        Codepoint { codepoint: 0x1E7FE, name: "ETHIOPIC SYLLABLE GURAGE PWEE", aliases: &[] },
        Codepoint { codepoint: 0x1E800, name: "MENDE KIKAKUI SYLLABLE M001 KI", aliases: &[] },
        Codepoint { codepoint: 0x1E801, name: "MENDE KIKAKUI SYLLABLE M002 KA", aliases: &[] },
        Codepoint { codepoint: 0x1E802, name: "MENDE KIKAKUI SYLLABLE M003 KU", aliases: &[] },
        Codepoint { codepoint: 0x1E803, name: "MENDE KIKAKUI SYLLABLE M065 KEE", aliases: &[] },
        Codepoint { codepoint: 0x1E804, name: "MENDE KIKAKUI SYLLABLE M095 KE", aliases: &[] },
        Codepoint { codepoint: 0x1E805, name: "MENDE KIKAKUI SYLLABLE M076 KOO", aliases: &[] },
        Codepoint { codepoint: 0x1E806, name: "MENDE KIKAKUI SYLLABLE M048 KO", aliases: &[] },
    ];
    assert(v@ =~= codepoint_table_765());
    v
}

pub open spec fn codepoint_table_766() -> Seq<Codepoint> {
    seq![
        Codepoint { codepoint: 0x1E807, name: "MENDE KIKAKUI SYLLABLE M179 KUA", aliases: &[] },
        Codepoint { codepoint: 0x1E808, name: "MENDE KIKAKUI SYLLABLE M004 WI", aliases: &[] },
        Codepoint { codepoint: 0x1E809, name: "MENDE KIKAKUI SYLLABLE M005 WA", aliases: &[] },
        Codepoint { codepoint: 0x1E80A, name: "MENDE KIKAKUI SYLLABLE M006 WU", aliases: &[] },
        Codepoint { codepoint: 0x1E80B, name: "MENDE KIKAKUI SYLLABLE M126 WEE", aliases: &[] },
        Codepoint { codepoint: 0x1E80C, name: "MENDE KIKAKUI SYLLABLE M118 WE", aliases: &[] },
        Codepoint { codepoint: 0x1E80D, name: "MENDE KIKAKUI SYLLABLE M114 WOO", aliases: &[] },
        Codepoint { codepoint: 0x1E80E, name: "MENDE KIKAKUI SYLLABLE M045 WO", aliases: &[] },
        Codepoint { codepoint: 0x1E80F, name: "MENDE KIKAKUI SYLLABLE M194 WUI", aliases: &[] },
        Codepoint { codepoint: 0x1E810, name: "MENDE KIKAKUI SYLLABLE M143 WEI", aliases: &[] },
        Codepoint { codepoint: 0x1E811, name: "MENDE KIKAKUI SYLLABLE M061 WVI", aliases: &[] },
        Codepoint { codepoint: 0x1E812, name: "MENDE KIKAKUI SYLLABLE M049 WVA", aliases: &[] },
        Codepoint { codepoint: 0x1E813, name: "MENDE KIKAKUI SYLLABLE M139 WVE", aliases: &[] },
        Codepoint { codepoint: 0x1E814, name: "MENDE KIKAKUI SYLLABLE M007 MIN", aliases: &[] },
        Codepoint { codepoint: 0x1E815, name: "MENDE KIKAKUI SYLLABLE M008 MAN", aliases: &[] },
        Codepoint { codepoint: 0x1E816, name: "MENDE KIKAKUI SYLLABLE M009 MUN", aliases: &[] },
        Codepoint { codepoint: 0x1E817, name: "MENDE KIKAKUI SYLLABLE M059 MEN", aliases: &[] },
        Codepoint { codepoint: 0x1E818, name: "MENDE KIKAKUI SYLLABLE M094 MON", aliases: &[] },
        Codepoint { codepoint: 0x1E819, name: "MENDE KIKAKUI SYLLABLE M154 MUAN", aliases: &[] },
        Codepoint { codepoint: 0x1E81A, name: "MENDE KIKAKUI SYLLABLE M189 MUEN", aliases: &[] },
        Codepoint { codepoint: 0x1E81B, name: "MENDE KIKAKUI SYLLABLE M010 BI", aliases: &[] },
        Codepoint { codepoint: 0x1E81C, name: "MENDE KIKAKUI SYLLABLE M011 BA", aliases: &[] },
        Codepoint { codepoint: 0x1E81D, name: "MENDE KIKAKUI SYLLABLE M012 BU", aliases: &[] },
        Codepoint { codepoint: 0x1E81E, name: "MENDE KIKAKUI SYLLABLE M150 BEE", aliases: &[] },
        Codepoint { codepoint: 0x1E81F, name: "MENDE KIKAKUI SYLLABLE M097 BE", aliases: &[] },
        Codepoint { codepoint: 0x1E820, name: "MENDE KIKAKUI SYLLABLE M103 BOO", aliases: &[] },
        Codepoint { codepoint: 0x1E821, name: "MENDE KIKAKUI SYLLABLE M138 BO", aliases: &[] },
        Codepoint { codepoint: 0x1E822, name: "MENDE KIKAKUI SYLLABLE M013 I", aliases: &[] },
        Codepoint { codepoint: 0x1E823, name: "MENDE KIKAKUI SYLLABLE M014 A", aliases: &[] },
        Codepoint { codepoint: 0x1E824, name: "MENDE KIKAKUI SYLLABLE M015 U", aliases: &[] },
        Codepoint { codepoint: 0x1E825, name: "MENDE KIKAKUI SYLLABLE M163 EE", aliases: &[] },
        Codepoint { codepoint: 0x1E826, name: "MENDE KIKAKUI SYLLABLE M100 E", aliases: &[] },
        Codepoint { codepoint: 0x1E827, name: "MENDE KIKAKUI SYLLABLE M165 OO", aliases: &[] },
        Codepoint { codepoint: 0x1E828, name: "MENDE KIKAKUI SYLLABLE M147 O", aliases: &[] },
        Codepoint { codepoint: 0x1E829, name: "MENDE KIKAKUI SYLLABLE M137 EI", aliases: &[] },
        Codepoint { codepoint: 0x1E82A, name: "MENDE KIKAKUI SYLLABLE M131 IN", aliases: &[] },
        Codepoint { codepoint: 0x1E82B, name: "MENDE KIKAKUI SYLLABLE M135 IN", aliases: &[] },
        Codepoint { codepoint: 0x1E82C, name: "MENDE KIKAKUI SYLLABLE M195 AN", aliases: &[] },
        Codepoint { codepoint: 0x1E82D, name: "MENDE KIKAKUI SYLLABLE M178 EN", aliases: &[] },
        Codepoint { codepoint: 0x1E82E, name: "MENDE KIKAKUI SYLLABLE M019 SI", aliases: &[] },
    ]
}

fn all_codepoints_766() -> (v: Vec<Codepoint>)
    ensures
        v@ == codepoint_table_766(),
{
    let v = vec![
        Codepoint { codepoint: 0x1E807, name: "MENDE KIKAKUI SYLLABLE M179 KUA", aliases: &[] },
        Codepoint { codepoint: 0x1E808, name: "MENDE KIKAKUI SYLLABLE M004 WI", aliases: &[] },
        Codepoint { codepoint: 0x1E809, name: "MENDE KIKAKUI SYLLABLE M005 WA", aliases: &[] },
        Codepoint { codepoint: 0x1E80A, name: "MENDE KIKAKUI SYLLABLE M006 WU", aliases: &[] },
        Codepoint { codepoint: 0x1E80B, name: "MENDE KIKAKUI SYLLABLE M126 WEE", aliases: &[] },
        Codepoint { codepoint: 0x1E80C, name: "MENDE KIKAKUI SYLLABLE M118 WE", aliases: &[] },
        Codepoint { codepoint: 0x1E80D, name: "MENDE KIKAKUI SYLLABLE M114 WOO", aliases: &[] },
        Codepoint { codepoint: 0x1E80E, name: "MENDE KIKAKUI SYLLABLE M045 WO", aliases: &[] },
        Codepoint { codepoint: 0x1E80F, name: "MENDE KIKAKUI SYLLABLE M194 WUI", aliases: &[] },
        Codepoint { codepoint: 0x1E810, name: "MENDE KIKAKUI SYLLABLE M143 WEI", aliases: &[] },
        Codepoint { codepoint: 0x1E811, name: "MENDE KIKAKUI SYLLABLE M061 WVI", aliases: &[] },
        Codepoint { codepoint: 0x1E812, name: "MENDE KIKAKUI SYLLABLE M049 WVA", aliases: &[] },
        Codepoint { codepoint: 0x1E813, name: "MENDE KIKAKUI SYLLABLE M139 WVE", aliases: &[] },
        Codepoint { codepoint: 0x1E814, name: "MENDE KIKAKUI SYLLABLE M007 MIN", aliases: &[] },
        Codepoint { codepoint: 0x1E815, name: "MENDE KIKAKUI SYLLABLE M008 MAN", aliases: &[] },
        Codepoint { codepoint: 0x1E816, name: "MENDE KIKAKUI SYLLABLE M009 MUN", aliases: &[] },
        Codepoint { codepoint: 0x1E817, name: "MENDE KIKAKUI SYLLABLE M059 MEN", aliases: &[] },
        Codepoint { codepoint: 0x1E818, name: "MENDE KIKAKUI SYLLABLE M094 MON", aliases: &[] },
        Codepoint { codepoint: 0x1E819, name: "MENDE KIKAKUI SYLLABLE M154 MUAN", aliases: &[] },
        Codepoint { codepoint: 0x1E81A, name: "MENDE KIKAKUI SYLLABLE M189 MUEN", aliases: &[] },
        Codepoint { codepoint: 0x1E81B, name: "MENDE KIKAKUI SYLLABLE M010 BI", aliases: &[] },
        Codepoint { codepoint: 0x1E81C, name: "MENDE KIKAKUI SYLLABLE M011 BA", aliases: &[] },
        Codepoint { codepoint: 0x1E81D, name: "MENDE KIKAKUI SYLLABLE M012 BU", aliases: &[] },
        Codepoint { codepoint: 0x1E81E, name: "MENDE KIKAKUI SYLLABLE M150 BEE", aliases: &[] },
        Codepoint { codepoint: 0x1E81F, name: "MENDE KIKAKUI SYLLABLE M097 BE", aliases: &[] },
        Codepoint { codepoint: 0x1E820, name: "MENDE KIKAKUI SYLLABLE M103 BOO", aliases: &[] },
        Codepoint { codepoint: 0x1E821, name: "MENDE KIKAKUI SYLLABLE M138 BO", aliases: &[] },
        Codepoint { codepoint: 0x1E822, name: "MENDE KIKAKUI SYLLABLE M013 I", aliases: &[] },
        Codepoint { codepoint: 0x1E823, name: "MENDE KIKAKUI SYLLABLE M014 A", aliases: &[] },
        Codepoint { codepoint: 0x1E824, name: "MENDE KIKAKUI SYLLABLE M015 U", aliases: &[] },
        Codepoint { codepoint: 0x1E825, name: "MENDE KIKAKUI SYLLABLE M163 EE", aliases: &[] },
        Codepoint { codepoint: 0x1E826, name: "MENDE KIKAKUI SYLLABLE M100 E", aliases: &[] },
        Codepoint { codepoint: 0x1E827, name: "MENDE KIKAKUI SYLLABLE M165 OO", aliases: &[] },
        Codepoint { codepoint: 0x1E828, name: "MENDE KIKAKUI SYLLABLE M147 O", aliases: &[] },
        Codepoint { codepoint: 0x1E829, name: "MENDE KIKAKUI SYLLABLE M137 EI", aliases: &[] },
        Codepoint { codepoint: 0x1E82A, name: "MENDE KIKAKUI SYLLABLE M131 IN", aliases: &[] },
        Codepoint { codepoint: 0x1E82B, name: "MENDE KIKAKUI SYLLABLE M135 IN", aliases: &[] },
        Codepoint { codepoint: 0x1E82C, name: "MENDE KIKAKUI SYLLABLE M195 AN", aliases: &[] },
        Codepoint { codepoint: 0x1E82D, name: "MENDE KIKAKUI SYLLABLE M178 EN", aliases: &[] },
        Codepoint { codepoint: 0x1E82E, name: "MENDE KIKAKUI SYLLABLE M019 SI", aliases: &[] },
    ];
    assert(v@ =~= codepoint_table_766());
    v
}

pub open spec fn codepoint_table_767() -> Seq<Codepoint> {
    seq![
        Codepoint { codepoint: 0x1E82F, name: "MENDE KIKAKUI SYLLABLE M020 SA", aliases: &[] },
        Codepoint { codepoint: 0x1E830, name: "MENDE KIKAKUI SYLLABLE M021 SU", aliases: &[] },
        Codepoint { codepoint: 0x1E831, name: "MENDE KIKAKUI SYLLABLE M162 SEE", aliases: &[] },
        Codepoint { codepoint: 0x1E832, name: "MENDE KIKAKUI SYLLABLE M116 SE", aliases: &[] },
        Codepoint { codepoint: 0x1E833, name: "MENDE KIKAKUI SYLLABLE M136 SOO", aliases: &[] },
        Codepoint { codepoint: 0x1E834, name: "MENDE KIKAKUI SYLLABLE M079 SO", aliases: &[] },
        Codepoint { codepoint: 0x1E835, name: "MENDE KIKAKUI SYLLABLE M196 SIA", aliases: &[] },
        Codepoint { codepoint: 0x1E836, name: "MENDE KIKAKUI SYLLABLE M025 LI", aliases: &[] },
        Codepoint { codepoint: 0x1E837, name: "MENDE KIKAKUI SYLLABLE M026 LA", aliases: &[] },
        Codepoint { codepoint: 0x1E838, name: "MENDE KIKAKUI SYLLABLE M027 LU", aliases: &[] },
        Codepoint { codepoint: 0x1E839, name: "MENDE KIKAKUI SYLLABLE M084 LEE", aliases: &[] },
        Codepoint { codepoint: 0x1E83A, name: "MENDE KIKAKUI SYLLABLE M073 LE", aliases: &[] },
        Codepoint { codepoint: 0x1E83B, name: "MENDE KIKAKUI SYLLABLE M054 LOO", aliases: &[] },
        Codepoint { codepoint: 0x1E83C, name: "MENDE KIKAKUI SYLLABLE M153 LO", aliases: &[] },
        Codepoint { codepoint: 0x1E83D, name: "MENDE KIKAKUI SYLLABLE M110 LONG LE", aliases: &[] },
        Codepoint { codepoint: 0x1E83E, name: "MENDE KIKAKUI SYLLABLE M016 DI", aliases: &[] },
        Codepoint { codepoint: 0x1E83F, name: "MENDE KIKAKUI SYLLABLE M017 DA", aliases: &[] },
        Codepoint { codepoint: 0x1E840, name: "MENDE KIKAKUI SYLLABLE M018 DU", aliases: &[] },
        Codepoint { codepoint: 0x1E841, name: "MENDE KIKAKUI SYLLABLE M089 DEE", aliases: &[] },
        Codepoint { codepoint: 0x1E842, name: "MENDE KIKAKUI SYLLABLE M180 DOO", aliases: &[] },
        Codepoint { codepoint: 0x1E843, name: "MENDE KIKAKUI SYLLABLE M181 DO", aliases: &[] },
        Codepoint { codepoint: 0x1E844, name: "MENDE KIKAKUI SYLLABLE M022 TI", aliases: &[] },
        Codepoint { codepoint: 0x1E845, name: "MENDE KIKAKUI SYLLABLE M023 TA", aliases: &[] },
        Codepoint { codepoint: 0x1E846, name: "MENDE KIKAKUI SYLLABLE M024 TU", aliases: &[] },
        Codepoint { codepoint: 0x1E847, name: "MENDE KIKAKUI SYLLABLE M091 TEE", aliases: &[] },
        Codepoint { codepoint: 0x1E848, name: "MENDE KIKAKUI SYLLABLE M055 TE", aliases: &[] },
        Codepoint { codepoint: 0x1E849, name: "MENDE KIKAKUI SYLLABLE M104 TOO", aliases: &[] },
        Codepoint { codepoint: 0x1E84A, name: "MENDE KIKAKUI SYLLABLE M069 TO", aliases: &[] },
        Codepoint { codepoint: 0x1E84B, name: "MENDE KIKAKUI SYLLABLE M028 JI", aliases: &[] },
        Codepoint { codepoint: 0x1E84C, name: "MENDE KIKAKUI SYLLABLE M029 JA", aliases: &[] },
        Codepoint { codepoint: 0x1E84D, name: "MENDE KIKAKUI SYLLABLE M030 JU", aliases: &[] },
        Codepoint { codepoint: 0x1E84E, name: "MENDE KIKAKUI SYLLABLE M157 JEE", aliases: &[] },
        Codepoint { codepoint: 0x1E84F, name: "MENDE KIKAKUI SYLLABLE M113 JE", aliases: &[] },
        Codepoint { codepoint: 0x1E850, name: "MENDE KIKAKUI SYLLABLE M160 JOO", aliases: &[] },
        Codepoint { codepoint: 0x1E851, name: "MENDE KIKAKUI SYLLABLE M063 JO", aliases: &[] },
        Codepoint { codepoint: 0x1E852, name: "MENDE KIKAKUI SYLLABLE M175 LONG JO", aliases: &[] },
        Codepoint { codepoint: 0x1E853, name: "MENDE KIKAKUI SYLLABLE M031 YI", aliases: &[] },
        Codepoint { codepoint: 0x1E854, name: "MENDE KIKAKUI SYLLABLE M032 YA", aliases: &[] },
        Codepoint { codepoint: 0x1E855, name: "MENDE KIKAKUI SYLLABLE M033 YU", aliases: &[] },
        Codepoint { codepoint: 0x1E856, name: "MENDE KIKAKUI SYLLABLE M109 YEE", aliases: &[] },
    ]
}

fn all_codepoints_767() -> (v: Vec<Codepoint>)
    ensures
        v@ == codepoint_table_767(),
{
    let v = vec![
        Codepoint { codepoint: 0x1E82F, name: "MENDE KIKAKUI SYLLABLE M020 SA", aliases: &[] },
        Codepoint { codepoint: 0x1E830, name: "MENDE KIKAKUI SYLLABLE M021 SU", aliases: &[] },
        Codepoint { codepoint: 0x1E831, name: "MENDE KIKAKUI SYLLABLE M162 SEE", aliases: &[] },
        Codepoint { codepoint: 0x1E832, name: "MENDE KIKAKUI SYLLABLE M116 SE", aliases: &[] },
        Codepoint { codepoint: 0x1E833, name: "MENDE KIKAKUI SYLLABLE M136 SOO", aliases: &[] },
        Codepoint { codepoint: 0x1E834, name: "MENDE KIKAKUI SYLLABLE M079 SO", aliases: &[] },
        Codepoint { codepoint: 0x1E835, name: "MENDE KIKAKUI SYLLABLE M196 SIA", aliases: &[] },
        Codepoint { codepoint: 0x1E836, name: "MENDE KIKAKUI SYLLABLE M025 LI", aliases: &[] },
        Codepoint { codepoint: 0x1E837, name: "MENDE KIKAKUI SYLLABLE M026 LA", aliases: &[] },
        Codepoint { codepoint: 0x1E838, name: "MENDE KIKAKUI SYLLABLE M027 LU", aliases: &[] },
        Codepoint { codepoint: 0x1E839, name: "MENDE KIKAKUI SYLLABLE M084 LEE", aliases: &[] },
        Codepoint { codepoint: 0x1E83A, name: "MENDE KIKAKUI SYLLABLE M073 LE", aliases: &[] },
        Codepoint { codepoint: 0x1E83B, name: "MENDE KIKAKUI SYLLABLE M054 LOO", aliases: &[] },
        Codepoint { codepoint: 0x1E83C, name: "MENDE KIKAKUI SYLLABLE M153 LO", aliases: &[] },
        Codepoint { codepoint: 0x1E83D, name: "MENDE KIKAKUI SYLLABLE M110 LONG LE", aliases: &[] },
        Codepoint { codepoint: 0x1E83E, name: "MENDE KIKAKUI SYLLABLE M016 DI", aliases: &[] },
        Codepoint { codepoint: 0x1E83F, name: "MENDE KIKAKUI SYLLABLE M017 DA", aliases: &[] },
        Codepoint { codepoint: 0x1E840, name: "MENDE KIKAKUI SYLLABLE M018 DU", aliases: &[] },
        Codepoint { codepoint: 0x1E841, name: "MENDE KIKAKUI SYLLABLE M089 DEE", aliases: &[] },
        Codepoint { codepoint: 0x1E842, name: "MENDE KIKAKUI SYLLABLE M180 DOO", aliases: &[] },
        Codepoint { codepoint: 0x1E843, name: "MENDE KIKAKUI SYLLABLE M181 DO", aliases: &[] },
        Codepoint { codepoint: 0x1E844, name: "MENDE KIKAKUI SYLLABLE M022 TI", aliases: &[] },
        Codepoint { codepoint: 0x1E845, name: "MENDE KIKAKUI SYLLABLE M023 TA", aliases: &[] },
        Codepoint { codepoint: 0x1E846, name: "MENDE KIKAKUI SYLLABLE M024 TU", aliases: &[] },
        Codepoint { codepoint: 0x1E847, name: "MENDE KIKAKUI SYLLABLE M091 TEE", aliases: &[] },
        Codepoint { codepoint: 0x1E848, name: "MENDE KIKAKUI SYLLABLE M055 TE", aliases: &[] },
        Codepoint { codepoint: 0x1E849, name: "MENDE KIKAKUI SYLLABLE M104 TOO", aliases: &[] },
        Codepoint { codepoint: 0x1E84A, name: "MENDE KIKAKUI SYLLABLE M069 TO", aliases: &[] },
        Codepoint { codepoint: 0x1E84B, name: "MENDE KIKAKUI SYLLABLE M028 JI", aliases: &[] },
        Codepoint { codepoint: 0x1E84C, name: "MENDE KIKAKUI SYLLABLE M029 JA", aliases: &[] },
        Codepoint { codepoint: 0x1E84D, name: "MENDE KIKAKUI SYLLABLE M030 JU", aliases: &[] },
        Codepoint { codepoint: 0x1E84E, name: "MENDE KIKAKUI SYLLABLE M157 JEE", aliases: &[] },
        Codepoint { codepoint: 0x1E84F, name: "MENDE KIKAKUI SYLLABLE M113 JE", aliases: &[] },
        Codepoint { codepoint: 0x1E850, name: "MENDE KIKAKUI SYLLABLE M160 JOO", aliases: &[] },
        Codepoint { codepoint: 0x1E851, name: "MENDE KIKAKUI SYLLABLE M063 JO", aliases: &[] },
        Codepoint { codepoint: 0x1E852, name: "MENDE KIKAKUI SYLLABLE M175 LONG JO", aliases: &[] },
        Codepoint { codepoint: 0x1E853, name: "MENDE KIKAKUI SYLLABLE M031 YI", aliases: &[] },
        Codepoint { codepoint: 0x1E854, name: "MENDE KIKAKUI SYLLABLE M032 YA", aliases: &[] },
        Codepoint { codepoint: 0x1E855, name: "MENDE KIKAKUI SYLLABLE M033 YU", aliases: &[] },
        Codepoint { codepoint: 0x1E856, name: "MENDE KIKAKUI SYLLABLE M109 YEE", aliases: &[] },
    ];
    assert(v@ =~= codepoint_table_767());
    v
}

pub open spec fn codepoint_table_768() -> Seq<Codepoint> {
    seq![
        Codepoint { codepoint: 0x1E857, name: "MENDE KIKAKUI SYLLABLE M080 YE", aliases: &[] },
        Codepoint { codepoint: 0x1E858, name: "MENDE KIKAKUI SYLLABLE M141 YOO", aliases: &[] },
        Codepoint { codepoint: 0x1E859, name: "MENDE KIKAKUI SYLLABLE M121 YO", aliases: &[] },
        Codepoint { codepoint: 0x1E85A, name: "MENDE KIKAKUI SYLLABLE M034 FI", aliases: &[] },
        Codepoint { codepoint: 0x1E85B, name: "MENDE KIKAKUI SYLLABLE M035 FA", aliases: &[] },
        Codepoint { codepoint: 0x1E85C, name: "MENDE KIKAKUI SYLLABLE M036 FU", aliases: &[] },
        Codepoint { codepoint: 0x1E85D, name: "MENDE KIKAKUI SYLLABLE M078 FEE", aliases: &[] },
        Codepoint { codepoint: 0x1E85E, name: "MENDE KIKAKUI SYLLABLE M075 FE", aliases: &[] },
        Codepoint { codepoint: 0x1E85F, name: "MENDE KIKAKUI SYLLABLE M133 FOO", aliases: &[] },
        Codepoint { codepoint: 0x1E860, name: "MENDE KIKAKUI SYLLABLE M088 FO", aliases: &[] },
        Codepoint { codepoint: 0x1E861, name: "MENDE KIKAKUI SYLLABLE M197 FUA", aliases: &[] },
        Codepoint { codepoint: 0x1E862, name: "MENDE KIKAKUI SYLLABLE M101 FAN", aliases: &[] },
        Codepoint { codepoint: 0x1E863, name: "MENDE KIKAKUI SYLLABLE M037 NIN", aliases: &[] },
        Codepoint { codepoint: 0x1E864, name: "MENDE KIKAKUI SYLLABLE M038 NAN", aliases: &[] },
        Codepoint { codepoint: 0x1E865, name: "MENDE KIKAKUI SYLLABLE M039 NUN", aliases: &[] },
        Codepoint { codepoint: 0x1E866, name: "MENDE KIKAKUI SYLLABLE M117 NEN", aliases: &[] },
        Codepoint { codepoint: 0x1E867, name: "MENDE KIKAKUI SYLLABLE M169 NON", aliases: &[] },
        Codepoint { codepoint: 0x1E868, name: "MENDE KIKAKUI SYLLABLE M176 HI", aliases: &[] },
        Codepoint { codepoint: 0x1E869, name: "MENDE KIKAKUI SYLLABLE M041 HA", aliases: &[] },
        Codepoint { codepoint: 0x1E86A, name: "MENDE KIKAKUI SYLLABLE M186 HU", aliases: &[] },
        Codepoint { codepoint: 0x1E86B, name: "MENDE KIKAKUI SYLLABLE M040 HEE", aliases: &[] },
        Codepoint { codepoint: 0x1E86C, name: "MENDE KIKAKUI SYLLABLE M096 HE", aliases: &[] },
        Codepoint { codepoint: 0x1E86D, name: "MENDE KIKAKUI SYLLABLE M042 HOO", aliases: &[] },
        Codepoint { codepoint: 0x1E86E, name: "MENDE KIKAKUI SYLLABLE M140 HO", aliases: &[] },
        Codepoint { codepoint: 0x1E86F, name: "MENDE KIKAKUI SYLLABLE M083 HEEI", aliases: &[] },
        Codepoint { codepoint: 0x1E870, name: "MENDE KIKAKUI SYLLABLE M128 HOOU", aliases: &[] },
        Codepoint { codepoint: 0x1E871, name: "MENDE KIKAKUI SYLLABLE M053 HIN", aliases: &[] },
        Codepoint { codepoint: 0x1E872, name: "MENDE KIKAKUI SYLLABLE M130 HAN", aliases: &[] },
        Codepoint { codepoint: 0x1E873, name: "MENDE KIKAKUI SYLLABLE M087 HUN", aliases: &[] },
        Codepoint { codepoint: 0x1E874, name: "MENDE KIKAKUI SYLLABLE M052 HEN", aliases: &[] },
        Codepoint { codepoint: 0x1E875, name: "MENDE KIKAKUI SYLLABLE M193 HON", aliases: &[] },
        Codepoint { codepoint: 0x1E876, name: "MENDE KIKAKUI SYLLABLE M046 HUAN", aliases: &[] },
        Codepoint { codepoint: 0x1E877, name: "MENDE KIKAKUI SYLLABLE M090 NGGI", aliases: &[] },
        Codepoint { codepoint: 0x1E878, name: "MENDE KIKAKUI SYLLABLE M043 NGGA", aliases: &[] },
        Codepoint { codepoint: 0x1E879, name: "MENDE KIKAKUI SYLLABLE M082 NGGU", aliases: &[] },
        Codepoint { codepoint: 0x1E87A, name: "MENDE KIKAKUI SYLLABLE M115 NGGEE", aliases: &[] },
        Codepoint { codepoint: 0x1E87B, name: "MENDE KIKAKUI SYLLABLE M146 NGGE", aliases: &[] },
        Codepoint { codepoint: 0x1E87C, name: "MENDE KIKAKUI SYLLABLE M156 NGGOO", aliases: &[] },
        Codepoint { codepoint: 0x1E87D, name: "MENDE KIKAKUI SYLLABLE M120 NGGO", aliases: &[] },
        Codepoint { codepoint: 0x1E87E, name: "MENDE KIKAKUI SYLLABLE M159 NGGAA", aliases: &[] },
    ]
}

fn all_codepoints_768() -> (v: Vec<Codepoint>)
    ensures
        v@ == codepoint_table_768(),
{
    let v = vec![
        Codepoint { codepoint: 0x1E857, name: "MENDE KIKAKUI SYLLABLE M080 YE", aliases: &[] },
        Codepoint { codepoint: 0x1E858, name: "MENDE KIKAKUI SYLLABLE M141 YOO", aliases: &[] },
        Codepoint { codepoint: 0x1E859, name: "MENDE KIKAKUI SYLLABLE M121 YO", aliases: &[] },
        Codepoint { codepoint: 0x1E85A, name: "MENDE KIKAKUI SYLLABLE M034 FI", aliases: &[] },
        Codepoint { codepoint: 0x1E85B, name: "MENDE KIKAKUI SYLLABLE M035 FA", aliases: &[] },
        Codepoint { codepoint: 0x1E85C, name: "MENDE KIKAKUI SYLLABLE M036 FU", aliases: &[] },
        Codepoint { codepoint: 0x1E85D, name: "MENDE KIKAKUI SYLLABLE M078 FEE", aliases: &[] },
        Codepoint { codepoint: 0x1E85E, name: "MENDE KIKAKUI SYLLABLE M075 FE", aliases: &[] },
        Codepoint { codepoint: 0x1E85F, name: "MENDE KIKAKUI SYLLABLE M133 FOO", aliases: &[] },
        Codepoint { codepoint: 0x1E860, name: "MENDE KIKAKUI SYLLABLE M088 FO", aliases: &[] },
        Codepoint { codepoint: 0x1E861, name: "MENDE KIKAKUI SYLLABLE M197 FUA", aliases: &[] },
        Codepoint { codepoint: 0x1E862, name: "MENDE KIKAKUI SYLLABLE M101 FAN", aliases: &[] },
        Codepoint { codepoint: 0x1E863, name: "MENDE KIKAKUI SYLLABLE M037 NIN", aliases: &[] },
        Codepoint { codepoint: 0x1E864, name: "MENDE KIKAKUI SYLLABLE M038 NAN", aliases: &[] },
        Codepoint { codepoint: 0x1E865, name: "MENDE KIKAKUI SYLLABLE M039 NUN", aliases: &[] },
        Codepoint { codepoint: 0x1E866, name: "MENDE KIKAKUI SYLLABLE M117 NEN", aliases: &[] },
        Codepoint { codepoint: 0x1E867, name: "MENDE KIKAKUI SYLLABLE M169 NON", aliases: &[] },
        Codepoint { codepoint: 0x1E868, name: "MENDE KIKAKUI SYLLABLE M176 HI", aliases: &[] },
        Codepoint { codepoint: 0x1E869, name: "MENDE KIKAKUI SYLLABLE M041 HA", aliases: &[] },
        Codepoint { codepoint: 0x1E86A, name: "MENDE KIKAKUI SYLLABLE M186 HU", aliases: &[] },
        Codepoint { codepoint: 0x1E86B, name: "MENDE KIKAKUI SYLLABLE M040 HEE", aliases: &[] },
        Codepoint { codepoint: 0x1E86C, name: "MENDE KIKAKUI SYLLABLE M096 HE", aliases: &[] },
        Codepoint { codepoint: 0x1E86D, name: "MENDE KIKAKUI SYLLABLE M042 HOO", aliases: &[] },
        Codepoint { codepoint: 0x1E86E, name: "MENDE KIKAKUI SYLLABLE M140 HO", aliases: &[] },
        Codepoint { codepoint: 0x1E86F, name: "MENDE KIKAKUI SYLLABLE M083 HEEI", aliases: &[] },
        Codepoint { codepoint: 0x1E870, name: "MENDE KIKAKUI SYLLABLE M128 HOOU", aliases: &[] },
        Codepoint { codepoint: 0x1E871, name: "MENDE KIKAKUI SYLLABLE M053 HIN", aliases: &[] },
        Codepoint { codepoint: 0x1E872, name: "MENDE KIKAKUI SYLLABLE M130 HAN", aliases: &[] },
        Codepoint { codepoint: 0x1E873, name: "MENDE KIKAKUI SYLLABLE M087 HUN", aliases: &[] },
        Codepoint { codepoint: 0x1E874, name: "MENDE KIKAKUI SYLLABLE M052 HEN", aliases: &[] },
        Codepoint { codepoint: 0x1E875, name: "MENDE KIKAKUI SYLLABLE M193 HON", aliases: &[] },
        Codepoint { codepoint: 0x1E876, name: "MENDE KIKAKUI SYLLABLE M046 HUAN", aliases: &[] },
        Codepoint { codepoint: 0x1E877, name: "MENDE KIKAKUI SYLLABLE M090 NGGI", aliases: &[] },
        Codepoint { codepoint: 0x1E878, name: "MENDE KIKAKUI SYLLABLE M043 NGGA", aliases: &[] },
        Codepoint { codepoint: 0x1E879, name: "MENDE KIKAKUI SYLLABLE M082 NGGU", aliases: &[] },
        Codepoint { codepoint: 0x1E87A, name: "MENDE KIKAKUI SYLLABLE M115 NGGEE", aliases: &[] },
        Codepoint { codepoint: 0x1E87B, name: "MENDE KIKAKUI SYLLABLE M146 NGGE", aliases: &[] },
        Codepoint { codepoint: 0x1E87C, name: "MENDE KIKAKUI SYLLABLE M156 NGGOO", aliases: &[] },
        Codepoint { codepoint: 0x1E87D, name: "MENDE KIKAKUI SYLLABLE M120 NGGO", aliases: &[] },
        Codepoint { codepoint: 0x1E87E, name: "MENDE KIKAKUI SYLLABLE M159 NGGAA", aliases: &[] },
    ];
    assert(v@ =~= codepoint_table_768());
    v
}

pub open spec fn codepoint_table_769() -> Seq<Codepoint> {
    seq![
        Codepoint { codepoint: 0x1E87F, name: "MENDE KIKAKUI SYLLABLE M127 NGGUA", aliases: &[] },
        Codepoint { codepoint: 0x1E880, name: "MENDE KIKAKUI SYLLABLE M086 LONG NGGE", aliases: &[] },
        Codepoint { codepoint: 0x1E881, name: "MENDE KIKAKUI SYLLABLE M106 LONG NGGOO", aliases: &[] },
        Codepoint { codepoint: 0x1E882, name: "MENDE KIKAKUI SYLLABLE M183 LONG NGGO", aliases: &[] },
        Codepoint { codepoint: 0x1E883, name: "MENDE KIKAKUI SYLLABLE M155 GI", aliases: &[] },
        Codepoint { codepoint: 0x1E884, name: "MENDE KIKAKUI SYLLABLE M111 GA", aliases: &[] },
        Codepoint { codepoint: 0x1E885, name: "MENDE KIKAKUI SYLLABLE M168 GU", aliases: &[] },
        Codepoint { codepoint: 0x1E886, name: "MENDE KIKAKUI SYLLABLE M190 GEE", aliases: &[] },
        Codepoint { codepoint: 0x1E887, name: "MENDE KIKAKUI SYLLABLE M166 GUEI", aliases: &[] },
        Codepoint { codepoint: 0x1E888, name: "MENDE KIKAKUI SYLLABLE M167 GUAN", aliases: &[] },
        Codepoint { codepoint: 0x1E889, name: "MENDE KIKAKUI SYLLABLE M184 NGEN", aliases: &[] },
        Codepoint { codepoint: 0x1E88A, name: "MENDE KIKAKUI SYLLABLE M057 NGON", aliases: &[] },
        Codepoint { codepoint: 0x1E88B, name: "MENDE KIKAKUI SYLLABLE M177 NGUAN", aliases: &[] },
        Codepoint { codepoint: 0x1E88C, name: "MENDE KIKAKUI SYLLABLE M068 PI", aliases: &[] },
        Codepoint { codepoint: 0x1E88D, name: "MENDE KIKAKUI SYLLABLE M099 PA", aliases: &[] },
        Codepoint { codepoint: 0x1E88E, name: "MENDE KIKAKUI SYLLABLE M050 PU", aliases: &[] },
        Codepoint { codepoint: 0x1E88F, name: "MENDE KIKAKUI SYLLABLE M081 PEE", aliases: &[] },
        Codepoint { codepoint: 0x1E890, name: "MENDE KIKAKUI SYLLABLE M051 PE", aliases: &[] },
        Codepoint { codepoint: 0x1E891, name: "MENDE KIKAKUI SYLLABLE M102 POO", aliases: &[] },
        Codepoint { codepoint: 0x1E892, name: "MENDE KIKAKUI SYLLABLE M066 PO", aliases: &[] },
        Codepoint { codepoint: 0x1E893, name: "MENDE KIKAKUI SYLLABLE M145 MBI", aliases: &[] },
        Codepoint { codepoint: 0x1E894, name: "MENDE KIKAKUI SYLLABLE M062 MBA", aliases: &[] },
        Codepoint { codepoint: 0x1E895, name: "MENDE KIKAKUI SYLLABLE M122 MBU", aliases: &[] },
        Codepoint { codepoint: 0x1E896, name: "MENDE KIKAKUI SYLLABLE M047 MBEE", aliases: &[] },
        Codepoint { codepoint: 0x1E897, name: "MENDE KIKAKUI SYLLABLE M188 MBEE", aliases: &[] },
        Codepoint { codepoint: 0x1E898, name: "MENDE KIKAKUI SYLLABLE M072 MBE", aliases: &[] },
        Codepoint { codepoint: 0x1E899, name: "MENDE KIKAKUI SYLLABLE M172 MBOO", aliases: &[] },
        Codepoint { codepoint: 0x1E89A, name: "MENDE KIKAKUI SYLLABLE M174 MBO", aliases: &[] },
        Codepoint { codepoint: 0x1E89B, name: "MENDE KIKAKUI SYLLABLE M187 MBUU", aliases: &[] },
        Codepoint { codepoint: 0x1E89C, name: "MENDE KIKAKUI SYLLABLE M161 LONG MBE", aliases: &[] },
        Codepoint { codepoint: 0x1E89D, name: "MENDE KIKAKUI SYLLABLE M105 LONG MBOO", aliases: &[] },
        Codepoint { codepoint: 0x1E89E, name: "MENDE KIKAKUI SYLLABLE M142 LONG MBO", aliases: &[] },
        Codepoint { codepoint: 0x1E89F, name: "MENDE KIKAKUI SYLLABLE M132 KPI", aliases: &[] },
        Codepoint { codepoint: 0x1E8A0, name: "MENDE KIKAKUI SYLLABLE M092 KPA", aliases: &[] },
        Codepoint { codepoint: 0x1E8A1, name: "MENDE KIKAKUI SYLLABLE M074 KPU", aliases: &[] },
        Codepoint { codepoint: 0x1E8A2, name: "MENDE KIKAKUI SYLLABLE M044 KPEE", aliases: &[] },
        Codepoint { codepoint: 0x1E8A3, name: "MENDE KIKAKUI SYLLABLE M108 KPE", aliases: &[] },
        Codepoint { codepoint: 0x1E8A4, name: "MENDE KIKAKUI SYLLABLE M112 KPOO", aliases: &[] },
        Codepoint { codepoint: 0x1E8A5, name: "MENDE KIKAKUI SYLLABLE M158 KPO", aliases: &[] },
        Codepoint { codepoint: 0x1E8A6, name: "MENDE KIKAKUI SYLLABLE M124 GBI", aliases: &[] },
    ]
}

fn all_codepoints_769() -> (v: Vec<Codepoint>)
    ensures
        v@ == codepoint_table_769(),
{
    let v = vec![
        Codepoint { codepoint: 0x1E87F, name: "MENDE KIKAKUI SYLLABLE M127 NGGUA", aliases: &[] },
        Codepoint { codepoint: 0x1E880, name: "MENDE KIKAKUI SYLLABLE M086 LONG NGGE", aliases: &[] },
        Codepoint { codepoint: 0x1E881, name: "MENDE KIKAKUI SYLLABLE M106 LONG NGGOO", aliases: &[] },
        Codepoint { codepoint: 0x1E882, name: "MENDE KIKAKUI SYLLABLE M183 LONG NGGO", aliases: &[] },
        Codepoint { codepoint: 0x1E883, name: "MENDE KIKAKUI SYLLABLE M155 GI", aliases: &[] },
        Codepoint { codepoint: 0x1E884, name: "MENDE KIKAKUI SYLLABLE M111 GA", aliases: &[] },
        Codepoint { codepoint: 0x1E885, name: "MENDE KIKAKUI SYLLABLE M168 GU", aliases: &[] },
        Codepoint { codepoint: 0x1E886, name: "MENDE KIKAKUI SYLLABLE M190 GEE", aliases: &[] },
        Codepoint { codepoint: 0x1E887, name: "MENDE KIKAKUI SYLLABLE M166 GUEI", aliases: &[] },
        Codepoint { codepoint: 0x1E888, name: "MENDE KIKAKUI SYLLABLE M167 GUAN", aliases: &[] },
        Codepoint { codepoint: 0x1E889, name: "MENDE KIKAKUI SYLLABLE M184 NGEN", aliases: &[] },
        Codepoint { codepoint: 0x1E88A, name: "MENDE KIKAKUI SYLLABLE M057 NGON", aliases: &[] },
        Codepoint { codepoint: 0x1E88B, name: "MENDE KIKAKUI SYLLABLE M177 NGUAN", aliases: &[] },
        Codepoint { codepoint: 0x1E88C, name: "MENDE KIKAKUI SYLLABLE M068 PI", aliases: &[] },
        Codepoint { codepoint: 0x1E88D, name: "MENDE KIKAKUI SYLLABLE M099 PA", aliases: &[] },
        Codepoint { codepoint: 0x1E88E, name: "MENDE KIKAKUI SYLLABLE M050 PU", aliases: &[] },
        Codepoint { codepoint: 0x1E88F, name: "MENDE KIKAKUI SYLLABLE M081 PEE", aliases: &[] },
        Codepoint { codepoint: 0x1E890, name: "MENDE KIKAKUI SYLLABLE M051 PE", aliases: &[] },
        Codepoint { codepoint: 0x1E891, name: "MENDE KIKAKUI SYLLABLE M102 POO", aliases: &[] },
        Codepoint { codepoint: 0x1E892, name: "MENDE KIKAKUI SYLLABLE M066 PO", aliases: &[] },
        Codepoint { codepoint: 0x1E893, name: "MENDE KIKAKUI SYLLABLE M145 MBI", aliases: &[] },
        Codepoint { codepoint: 0x1E894, name: "MENDE KIKAKUI SYLLABLE M062 MBA", aliases: &[] },
        Codepoint { codepoint: 0x1E895, name: "MENDE KIKAKUI SYLLABLE M122 MBU", aliases: &[] },
        Codepoint { codepoint: 0x1E896, name: "MENDE KIKAKUI SYLLABLE M047 MBEE", aliases: &[] },
        Codepoint { codepoint: 0x1E897, name: "MENDE KIKAKUI SYLLABLE M188 MBEE", aliases: &[] },
        Codepoint { codepoint: 0x1E898, name: "MENDE KIKAKUI SYLLABLE M072 MBE", aliases: &[] },
        Codepoint { codepoint: 0x1E899, name: "MENDE KIKAKUI SYLLABLE M172 MBOO", aliases: &[] },
        Codepoint { codepoint: 0x1E89A, name: "MENDE KIKAKUI SYLLABLE M174 MBO", aliases: &[] },
        Codepoint { codepoint: 0x1E89B, name: "MENDE KIKAKUI SYLLABLE M187 MBUU", aliases: &[] },
        Codepoint { codepoint: 0x1E89C, name: "MENDE KIKAKUI SYLLABLE M161 LONG MBE", aliases: &[] },
        Codepoint { codepoint: 0x1E89D, name: "MENDE KIKAKUI SYLLABLE M105 LONG MBOO", aliases: &[] },
        Codepoint { codepoint: 0x1E89E, name: "MENDE KIKAKUI SYLLABLE M142 LONG MBO", aliases: &[] },
        Codepoint { codepoint: 0x1E89F, name: "MENDE KIKAKUI SYLLABLE M132 KPI", aliases: &[] },
        Codepoint { codepoint: 0x1E8A0, name: "MENDE KIKAKUI SYLLABLE M092 KPA", aliases: &[] },
        Codepoint { codepoint: 0x1E8A1, name: "MENDE KIKAKUI SYLLABLE M074 KPU", aliases: &[] },
        Codepoint { codepoint: 0x1E8A2, name: "MENDE KIKAKUI SYLLABLE M044 KPEE", aliases: &[] },
        Codepoint { codepoint: 0x1E8A3, name: "MENDE KIKAKUI SYLLABLE M108 KPE", aliases: &[] },
        Codepoint { codepoint: 0x1E8A4, name: "MENDE KIKAKUI SYLLABLE M112 KPOO", aliases: &[] },
        Codepoint { codepoint: 0x1E8A5, name: "MENDE KIKAKUI SYLLABLE M158 KPO", aliases: &[] },
        Codepoint { codepoint: 0x1E8A6, name: "MENDE KIKAKUI SYLLABLE M124 GBI", aliases: &[] },
    ];
    assert(v@ =~= codepoint_table_769());
    v
}

pub open spec fn codepoint_table_770() -> Seq<Codepoint> {
    seq![
        Codepoint { codepoint: 0x1E8A7, name: "MENDE KIKAKUI SYLLABLE M056 GBA", aliases: &[] },
        Codepoint { codepoint: 0x1E8A8, name: "MENDE KIKAKUI SYLLABLE M148 GBU", aliases: &[] },
        Codepoint { codepoint: 0x1E8A9, name: "MENDE KIKAKUI SYLLABLE M093 GBEE", aliases: &[] },
        Codepoint { codepoint: 0x1E8AA, name: "MENDE KIKAKUI SYLLABLE M107 GBE", aliases: &[] },
        Codepoint { codepoint: 0x1E8AB, name: "MENDE KIKAKUI SYLLABLE M071 GBOO", aliases: &[] },
        Codepoint { codepoint: 0x1E8AC, name: "MENDE KIKAKUI SYLLABLE M070 GBO", aliases: &[] },
        Codepoint { codepoint: 0x1E8AD, name: "MENDE KIKAKUI SYLLABLE M171 RA", aliases: &[] },
        Codepoint { codepoint: 0x1E8AE, name: "MENDE KIKAKUI SYLLABLE M123 NDI", aliases: &[] },
        Codepoint { codepoint: 0x1E8AF, name: "MENDE KIKAKUI SYLLABLE M129 NDA", aliases: &[] },
        Codepoint { codepoint: 0x1E8B0, name: "MENDE KIKAKUI SYLLABLE M125 NDU", aliases: &[] },
        Codepoint { codepoint: 0x1E8B1, name: "MENDE KIKAKUI SYLLABLE M191 NDEE", aliases: &[] },
        Codepoint { codepoint: 0x1E8B2, name: "MENDE KIKAKUI SYLLABLE M119 NDE", aliases: &[] },
        Codepoint { codepoint: 0x1E8B3, name: "MENDE KIKAKUI SYLLABLE M067 NDOO", aliases: &[] },
        Codepoint { codepoint: 0x1E8B4, name: "MENDE KIKAKUI SYLLABLE M064 NDO", aliases: &[] },
        Codepoint { codepoint: 0x1E8B5, name: "MENDE KIKAKUI SYLLABLE M152 NJA", aliases: &[] },
        Codepoint { codepoint: 0x1E8B6, name: "MENDE KIKAKUI SYLLABLE M192 NJU", aliases: &[] },
        Codepoint { codepoint: 0x1E8B7, name: "MENDE KIKAKUI SYLLABLE M149 NJEE", aliases: &[] },
        Codepoint { codepoint: 0x1E8B8, name: "MENDE KIKAKUI SYLLABLE M134 NJOO", aliases: &[] },
        Codepoint { codepoint: 0x1E8B9, name: "MENDE KIKAKUI SYLLABLE M182 VI", aliases: &[] },
        Codepoint { codepoint: 0x1E8BA, name: "MENDE KIKAKUI SYLLABLE M185 VA", aliases: &[] },
        Codepoint { codepoint: 0x1E8BB, name: "MENDE KIKAKUI SYLLABLE M151 VU", aliases: &[] },
        Codepoint { codepoint: 0x1E8BC, name: "MENDE KIKAKUI SYLLABLE M173 VEE", aliases: &[] },
        Codepoint { codepoint: 0x1E8BD, name: "MENDE KIKAKUI SYLLABLE M085 VE", aliases: &[] },
        Codepoint { codepoint: 0x1E8BE, name: "MENDE KIKAKUI SYLLABLE M144 VOO", aliases: &[] },
        Codepoint { codepoint: 0x1E8BF, name: "MENDE KIKAKUI SYLLABLE M077 VO", aliases: &[] },
        Codepoint { codepoint: 0x1E8C0, name: "MENDE KIKAKUI SYLLABLE M164 NYIN", aliases: &[] },
        Codepoint { codepoint: 0x1E8C1, name: "MENDE KIKAKUI SYLLABLE M058 NYAN", aliases: &[] },
        Codepoint { codepoint: 0x1E8C2, name: "MENDE KIKAKUI SYLLABLE M170 NYUN", aliases: &[] },
        Codepoint { codepoint: 0x1E8C3, name: "MENDE KIKAKUI SYLLABLE M098 NYEN", aliases: &[] },
        Codepoint { codepoint: 0x1E8C4, name: "MENDE KIKAKUI SYLLABLE M060 NYON", aliases: &[] },
        Codepoint { codepoint: 0x1E8C7, name: "MENDE KIKAKUI DIGIT ONE", aliases: &[] },
        Codepoint { codepoint: 0x1E8C8, name: "MENDE KIKAKUI DIGIT TWO", aliases: &[] },
        Codepoint { codepoint: 0x1E8C9, name: "MENDE KIKAKUI DIGIT THREE", aliases: &[] },
        Codepoint { codepoint: 0x1E8CA, name: "MENDE KIKAKUI DIGIT FOUR", aliases: &[] },
        Codepoint { codepoint: 0x1E8CB, name: "MENDE KIKAKUI DIGIT FIVE", aliases: &[] },
        Codepoint { codepoint: 0x1E8CC, name: "MENDE KIKAKUI DIGIT SIX", aliases: &[] },
        Codepoint { codepoint: 0x1E8CD, name: "MENDE KIKAKUI DIGIT SEVEN", aliases: &[] },
        Codepoint { codepoint: 0x1E8CE, name: "MENDE KIKAKUI DIGIT EIGHT", aliases: &[] },
        Codepoint { codepoint: 0x1E8CF, name: "MENDE KIKAKUI DIGIT NINE", aliases: &[] },
        Codepoint { codepoint: 0x1E8D0, name: "MENDE KIKAKUI COMBINING NUMBER TEENS", aliases: &[] },
    ]
}

fn all_codepoints_770() -> (v: Vec<Codepoint>)
    ensures
        v@ == codepoint_table_770(),
{
    let v = vec![
        Codepoint { codepoint: 0x1E8A7, name: "MENDE KIKAKUI SYLLABLE M056 GBA", aliases: &[] },
        Codepoint { codepoint: 0x1E8A8, name: "MENDE KIKAKUI SYLLABLE M148 GBU", aliases: &[] },
        Codepoint { codepoint: 0x1E8A9, name: "MENDE KIKAKUI SYLLABLE M093 GBEE", aliases: &[] },
        Codepoint { codepoint: 0x1E8AA, name: "MENDE KIKAKUI SYLLABLE M107 GBE", aliases: &[] },
        Codepoint { codepoint: 0x1E8AB, name: "MENDE KIKAKUI SYLLABLE M071 GBOO", aliases: &[] },
        Codepoint { codepoint: 0x1E8AC, name: "MENDE KIKAKUI SYLLABLE M070 GBO", aliases: &[] },
        Codepoint { codepoint: 0x1E8AD, name: "MENDE KIKAKUI SYLLABLE M171 RA", aliases: &[] },
        Codepoint { codepoint: 0x1E8AE, name: "MENDE KIKAKUI SYLLABLE M123 NDI", aliases: &[] },
        Codepoint { codepoint: 0x1E8AF, name: "MENDE KIKAKUI SYLLABLE M129 NDA", aliases: &[] },
        Codepoint { codepoint: 0x1E8B0, name: "MENDE KIKAKUI SYLLABLE M125 NDU", aliases: &[] },
        Codepoint { codepoint: 0x1E8B1, name: "MENDE KIKAKUI SYLLABLE M191 NDEE", aliases: &[] },
        Codepoint { codepoint: 0x1E8B2, name: "MENDE KIKAKUI SYLLABLE M119 NDE", aliases: &[] },
        Codepoint { codepoint: 0x1E8B3, name: "MENDE KIKAKUI SYLLABLE M067 NDOO", aliases: &[] },
        Codepoint { codepoint: 0x1E8B4, name: "MENDE KIKAKUI SYLLABLE M064 NDO", aliases: &[] },
        Codepoint { codepoint: 0x1E8B5, name: "MENDE KIKAKUI SYLLABLE M152 NJA", aliases: &[] },
        Codepoint { codepoint: 0x1E8B6, name: "MENDE KIKAKUI SYLLABLE M192 NJU", aliases: &[] },
        Codepoint { codepoint: 0x1E8B7, name: "MENDE KIKAKUI SYLLABLE M149 NJEE", aliases: &[] },
        Codepoint { codepoint: 0x1E8B8, name: "MENDE KIKAKUI SYLLABLE M134 NJOO", aliases: &[] },
        Codepoint { codepoint: 0x1E8B9, name: "MENDE KIKAKUI SYLLABLE M182 VI", aliases: &[] },
        Codepoint { codepoint: 0x1E8BA, name: "MENDE KIKAKUI SYLLABLE M185 VA", aliases: &[] },
        Codepoint { codepoint: 0x1E8BB, name: "MENDE KIKAKUI SYLLABLE M151 VU", aliases: &[] },
        Codepoint { codepoint: 0x1E8BC, name: "MENDE KIKAKUI SYLLABLE M173 VEE", aliases: &[] },
        Codepoint { codepoint: 0x1E8BD, name: "MENDE KIKAKUI SYLLABLE M085 VE", aliases: &[] },
        Codepoint { codepoint: 0x1E8BE, name: "MENDE KIKAKUI SYLLABLE M144 VOO", aliases: &[] },
        Codepoint { codepoint: 0x1E8BF, name: "MENDE KIKAKUI SYLLABLE M077 VO", aliases: &[] },
        Codepoint { codepoint: 0x1E8C0, name: "MENDE KIKAKUI SYLLABLE M164 NYIN", aliases: &[] },
        Codepoint { codepoint: 0x1E8C1, name: "MENDE KIKAKUI SYLLABLE M058 NYAN", aliases: &[] },
        Codepoint { codepoint: 0x1E8C2, name: "MENDE KIKAKUI SYLLABLE M170 NYUN", aliases: &[] },
        Codepoint { codepoint: 0x1E8C3, name: "MENDE KIKAKUI SYLLABLE M098 NYEN", aliases: &[] },
        Codepoint { codepoint: 0x1E8C4, name: "MENDE KIKAKUI SYLLABLE M060 NYON", aliases: &[] },
        Codepoint { codepoint: 0x1E8C7, name: "MENDE KIKAKUI DIGIT ONE", aliases: &[] },
        Codepoint { codepoint: 0x1E8C8, name: "MENDE KIKAKUI DIGIT TWO", aliases: &[] },
        Codepoint { codepoint: 0x1E8C9, name: "MENDE KIKAKUI DIGIT THREE", aliases: &[] },
        Codepoint { codepoint: 0x1E8CA, name: "MENDE KIKAKUI DIGIT FOUR", aliases: &[] },
        Codepoint { codepoint: 0x1E8CB, name: "MENDE KIKAKUI DIGIT FIVE", aliases: &[] },
        Codepoint { codepoint: 0x1E8CC, name: "MENDE KIKAKUI DIGIT SIX", aliases: &[] },
        Codepoint { codepoint: 0x1E8CD, name: "MENDE KIKAKUI DIGIT SEVEN", aliases: &[] },
        Codepoint { codepoint: 0x1E8CE, name: "MENDE KIKAKUI DIGIT EIGHT", aliases: &[] },
        Codepoint { codepoint: 0x1E8CF, name: "MENDE KIKAKUI DIGIT NINE", aliases: &[] },
        Codepoint { codepoint: 0x1E8D0, name: "MENDE KIKAKUI COMBINING NUMBER TEENS", aliases: &[] },
    ];
    assert(v@ =~= codepoint_table_770());
    v
}

pub open spec fn codepoint_table_771() -> Seq<Codepoint> {
    seq![
        Codepoint { codepoint: 0x1E8D1, name: "MENDE KIKAKUI COMBINING NUMBER TENS", aliases: &[] },
        Codepoint { codepoint: 0x1E8D2, name: "MENDE KIKAKUI COMBINING NUMBER HUNDREDS", aliases: &[] },
        Codepoint { codepoint: 0x1E8D3, name: "MENDE KIKAKUI COMBINING NUMBER THOUSANDS", aliases: &[] },
        Codepoint { codepoint: 0x1E8D4, name: "MENDE KIKAKUI COMBINING NUMBER TEN THOUSANDS", aliases: &[] },
        Codepoint { codepoint: 0x1E8D5, name: "MENDE KIKAKUI COMBINING NUMBER HUNDRED THOUSANDS", aliases: &[] },
        Codepoint { codepoint: 0x1E8D6, name: "MENDE KIKAKUI COMBINING NUMBER MILLIONS", aliases: &[] },
        Codepoint { codepoint: 0x1E900, name: "ADLAM CAPITAL LETTER ALIF", aliases: &[] },
        Codepoint { codepoint: 0x1E901, name: "ADLAM CAPITAL LETTER DAALI", aliases: &[] },
        Codepoint { codepoint: 0x1E902, name: "ADLAM CAPITAL LETTER LAAM", aliases: &[] },
        Codepoint { codepoint: 0x1E903, name: "ADLAM CAPITAL LETTER MIIM", aliases: &[] },
        Codepoint { codepoint: 0x1E904, name: "ADLAM CAPITAL LETTER BA", aliases: &[] },
        Codepoint { codepoint: 0x1E905, name: "ADLAM CAPITAL LETTER SINNYIIYHE", aliases: &[] },
        Codepoint { codepoint: 0x1E906, name: "ADLAM CAPITAL LETTER PE", aliases: &[] },
        Codepoint { codepoint: 0x1E907, name: "ADLAM CAPITAL LETTER BHE", aliases: &[] },
        Codepoint { codepoint: 0x1E908, name: "ADLAM CAPITAL LETTER RA", aliases: &[] },
        Codepoint { codepoint: 0x1E909, name: "ADLAM CAPITAL LETTER E", aliases: &[] },
        Codepoint { codepoint: 0x1E90A, name: "ADLAM CAPITAL LETTER FA", aliases: &[] },
        Codepoint { codepoint: 0x1E90B, name: "ADLAM CAPITAL LETTER I", aliases: &[] },
        Codepoint { codepoint: 0x1E90C, name: "ADLAM CAPITAL LETTER O", aliases: &[] },
        Codepoint { codepoint: 0x1E90D, name: "ADLAM CAPITAL LETTER DHA", aliases: &[] },
        Codepoint { codepoint: 0x1E90E, name: "ADLAM CAPITAL LETTER YHE", aliases: &[] },
        Codepoint { codepoint: 0x1E90F, name: "ADLAM CAPITAL LETTER WAW", aliases: &[] },
        Codepoint { codepoint: 0x1E910, name: "ADLAM CAPITAL LETTER NUN", aliases: &[] },
        Codepoint { codepoint: 0x1E911, name: "ADLAM CAPITAL LETTER KAF", aliases: &[] },
        Codepoint { codepoint: 0x1E912, name: "ADLAM CAPITAL LETTER YA", aliases: &[] },
        Codepoint { codepoint: 0x1E913, name: "ADLAM CAPITAL LETTER U", aliases: &[] },
        Codepoint { codepoint: 0x1E914, name: "ADLAM CAPITAL LETTER JIIM", aliases: &[] },
        Codepoint { codepoint: 0x1E915, name: "ADLAM CAPITAL LETTER CHI", aliases: &[] },
        Codepoint { codepoint: 0x1E916, name: "ADLAM CAPITAL LETTER HA", aliases: &[] },
        Codepoint { codepoint: 0x1E917, name: "ADLAM CAPITAL LETTER QAAF", aliases: &[] },
        Codepoint { codepoint: 0x1E918, name: "ADLAM CAPITAL LETTER GA", aliases: &[] },
        Codepoint { codepoint: 0x1E919, name: "ADLAM CAPITAL LETTER NYA", aliases: &[] },
        Codepoint { codepoint: 0x1E91A, name: "ADLAM CAPITAL LETTER TU", aliases: &[] },
        Codepoint { codepoint: 0x1E91B, name: "ADLAM CAPITAL LETTER NHA", aliases: &[] },
        Codepoint { codepoint: 0x1E91C, name: "ADLAM CAPITAL LETTER VA", aliases: &[] },
        Codepoint { codepoint: 0x1E91D, name: "ADLAM CAPITAL LETTER KHA", aliases: &[] },
        Codepoint { codepoint: 0x1E91E, name: "ADLAM CAPITAL LETTER GBE", aliases: &[] },
        Codepoint { codepoint: 0x1E91F, name: "ADLAM CAPITAL LETTER ZAL", aliases: &[] },
        Codepoint { codepoint: 0x1E920, name: "ADLAM CAPITAL LETTER KPO", aliases: &[] },
        Codepoint { codepoint: 0x1E921, name: "ADLAM CAPITAL LETTER SHA", aliases: &[] },
    ]
}

fn all_codepoints_771() -> (v: Vec<Codepoint>)
    ensures
        v@ == codepoint_table_771(),
{
    let v = vec![
        Codepoint { codepoint: 0x1E8D1, name: "MENDE KIKAKUI COMBINING NUMBER TENS", aliases: &[] },
        Codepoint { codepoint: 0x1E8D2, name: "MENDE KIKAKUI COMBINING NUMBER HUNDREDS", aliases: &[] },
        Codepoint { codepoint: 0x1E8D3, name: "MENDE KIKAKUI COMBINING NUMBER THOUSANDS", aliases: &[] },
        Codepoint { codepoint: 0x1E8D4, name: "MENDE KIKAKUI COMBINING NUMBER TEN THOUSANDS", aliases: &[] },
        Codepoint { codepoint: 0x1E8D5, name: "MENDE KIKAKUI COMBINING NUMBER HUNDRED THOUSANDS", aliases: &[] },
        Codepoint { codepoint: 0x1E8D6, name: "MENDE KIKAKUI COMBINING NUMBER MILLIONS", aliases: &[] },
        Codepoint { codepoint: 0x1E900, name: "ADLAM CAPITAL LETTER ALIF", aliases: &[] },
        Codepoint { codepoint: 0x1E901, name: "ADLAM CAPITAL LETTER DAALI", aliases: &[] },
        Codepoint { codepoint: 0x1E902, name: "ADLAM CAPITAL LETTER LAAM", aliases: &[] },
        Codepoint { codepoint: 0x1E903, name: "ADLAM CAPITAL LETTER MIIM", aliases: &[] },
        Codepoint { codepoint: 0x1E904, name: "ADLAM CAPITAL LETTER BA", aliases: &[] },
        Codepoint { codepoint: 0x1E905, name: "ADLAM CAPITAL LETTER SINNYIIYHE", aliases: &[] },
        Codepoint { codepoint: 0x1E906, name: "ADLAM CAPITAL LETTER PE", aliases: &[] },
        Codepoint { codepoint: 0x1E907, name: "ADLAM CAPITAL LETTER BHE", aliases: &[] },
        Codepoint { codepoint: 0x1E908, name: "ADLAM CAPITAL LETTER RA", aliases: &[] },
        Codepoint { codepoint: 0x1E909, name: "ADLAM CAPITAL LETTER E", aliases: &[] },
        Codepoint { codepoint: 0x1E90A, name: "ADLAM CAPITAL LETTER FA", aliases: &[] },
        Codepoint { codepoint: 0x1E90B, name: "ADLAM CAPITAL LETTER I", aliases: &[] },
        Codepoint { codepoint: 0x1E90C, name: "ADLAM CAPITAL LETTER O", aliases: &[] },
        Codepoint { codepoint: 0x1E90D, name: "ADLAM CAPITAL LETTER DHA", aliases: &[] },
        Codepoint { codepoint: 0x1E90E, name: "ADLAM CAPITAL LETTER YHE", aliases: &[] },
        Codepoint { codepoint: 0x1E90F, name: "ADLAM CAPITAL LETTER WAW", aliases: &[] },
        Codepoint { codepoint: 0x1E910, name: "ADLAM CAPITAL LETTER NUN", aliases: &[] },
        Codepoint { codepoint: 0x1E911, name: "ADLAM CAPITAL LETTER KAF", aliases: &[] },
        Codepoint { codepoint: 0x1E912, name: "ADLAM CAPITAL LETTER YA", aliases: &[] },
        Codepoint { codepoint: 0x1E913, name: "ADLAM CAPITAL LETTER U", aliases: &[] },
        Codepoint { codepoint: 0x1E914, name: "ADLAM CAPITAL LETTER JIIM", aliases: &[] },
        Codepoint { codepoint: 0x1E915, name: "ADLAM CAPITAL LETTER CHI", aliases: &[] },
        Codepoint { codepoint: 0x1E916, name: "ADLAM CAPITAL LETTER HA", aliases: &[] },
        Codepoint { codepoint: 0x1E917, name: "ADLAM CAPITAL LETTER QAAF", aliases: &[] },
        Codepoint { codepoint: 0x1E918, name: "ADLAM CAPITAL LETTER GA", aliases: &[] },
        Codepoint { codepoint: 0x1E919, name: "ADLAM CAPITAL LETTER NYA", aliases: &[] },
        Codepoint { codepoint: 0x1E91A, name: "ADLAM CAPITAL LETTER TU", aliases: &[] },
        Codepoint { codepoint: 0x1E91B, name: "ADLAM CAPITAL LETTER NHA", aliases: &[] },
        Codepoint { codepoint: 0x1E91C, name: "ADLAM CAPITAL LETTER VA", aliases: &[] },
        Codepoint { codepoint: 0x1E91D, name: "ADLAM CAPITAL LETTER KHA", aliases: &[] },
        Codepoint { codepoint: 0x1E91E, name: "ADLAM CAPITAL LETTER GBE", aliases: &[] },
        Codepoint { codepoint: 0x1E91F, name: "ADLAM CAPITAL LETTER ZAL", aliases: &[] },
        Codepoint { codepoint: 0x1E920, name: "ADLAM CAPITAL LETTER KPO", aliases: &[] },
        Codepoint { codepoint: 0x1E921, name: "ADLAM CAPITAL LETTER SHA", aliases: &[] },
    ];
    assert(v@ =~= codepoint_table_771());
    v
}

pub open spec fn codepoint_table_772() -> Seq<Codepoint> {
    seq![
        Codepoint { codepoint: 0x1E922, name: "ADLAM SMALL LETTER ALIF", aliases: &[] },
        Codepoint { codepoint: 0x1E923, name: "ADLAM SMALL LETTER DAALI", aliases: &[] },
        Codepoint { codepoint: 0x1E924, name: "ADLAM SMALL LETTER LAAM", aliases: &[] },
        Codepoint { codepoint: 0x1E925, name: "ADLAM SMALL LETTER MIIM", aliases: &[] },
        Codepoint { codepoint: 0x1E926, name: "ADLAM SMALL LETTER BA", aliases: &[] },
        Codepoint { codepoint: 0x1E927, name: "ADLAM SMALL LETTER SINNYIIYHE", aliases: &[] },
        Codepoint { codepoint: 0x1E928, name: "ADLAM SMALL LETTER PE", aliases: &[] },
        Codepoint { codepoint: 0x1E929, name: "ADLAM SMALL LETTER BHE", aliases: &[] },
        Codepoint { codepoint: 0x1E92A, name: "ADLAM SMALL LETTER RA", aliases: &[] },
        Codepoint { codepoint: 0x1E92B, name: "ADLAM SMALL LETTER E", aliases: &[] },
        Codepoint { codepoint: 0x1E92C, name: "ADLAM SMALL LETTER FA", aliases: &[] },
        Codepoint { codepoint: 0x1E92D, name: "ADLAM SMALL LETTER I", aliases: &[] },
        Codepoint { codepoint: 0x1E92E, name: "ADLAM SMALL LETTER O", aliases: &[] },
        Codepoint { codepoint: 0x1E92F, name: "ADLAM SMALL LETTER DHA", aliases: &[] },
        Codepoint { codepoint: 0x1E930, name: "ADLAM SMALL LETTER YHE", aliases: &[] },
        Codepoint { codepoint: 0x1E931, name: "ADLAM SMALL LETTER WAW", aliases: &[] },
        Codepoint { codepoint: 0x1E932, name: "ADLAM SMALL LETTER NUN", aliases: &[] },
        Codepoint { codepoint: 0x1E933, name: "ADLAM SMALL LETTER KAF", aliases: &[] },
        Codepoint { codepoint: 0x1E934, name: "ADLAM SMALL LETTER YA", aliases: &[] },
        Codepoint { codepoint: 0x1E935, name: "ADLAM SMALL LETTER U", aliases: &[] },
        Codepoint { codepoint: 0x1E936, name: "ADLAM SMALL LETTER JIIM", aliases: &[] },
        Codepoint { codepoint: 0x1E937, name: "ADLAM SMALL LETTER CHI", aliases: &[] },
        Codepoint { codepoint: 0x1E938, name: "ADLAM SMALL LETTER HA", aliases: &[] },
        Codepoint { codepoint: 0x1E939, name: "ADLAM SMALL LETTER QAAF", aliases: &[] },
        Codepoint { codepoint: 0x1E93A, name: "ADLAM SMALL LETTER GA", aliases: &[] },
        Codepoint { codepoint: 0x1E93B, name: "ADLAM SMALL LETTER NYA", aliases: &[] },
        Codepoint { codepoint: 0x1E93C, name: "ADLAM SMALL LETTER TU", aliases: &[] },
        Codepoint { codepoint: 0x1E93D, name: "ADLAM SMALL LETTER NHA", aliases: &[] },
        Codepoint { codepoint: 0x1E93E, name: "ADLAM SMALL LETTER VA", aliases: &[] },
        Codepoint { codepoint: 0x1E93F, name: "ADLAM SMALL LETTER KHA", aliases: &[] },
        Codepoint { codepoint: 0x1E940, name: "ADLAM SMALL LETTER GBE", aliases: &[] },
        Codepoint { codepoint: 0x1E941, name: "ADLAM SMALL LETTER ZAL", aliases: &[] },
        Codepoint { codepoint: 0x1E942, name: "ADLAM SMALL LETTER KPO", aliases: &[] },
        Codepoint { codepoint: 0x1E943, name: "ADLAM SMALL LETTER SHA", aliases: &[] },
        Codepoint { codepoint: 0x1E944, name: "ADLAM ALIF LENGTHENER", aliases: &[] },
        Codepoint { codepoint: 0x1E945, name: "ADLAM VOWEL LENGTHENER", aliases: &[] },
        Codepoint { codepoint: 0x1E946, name: "ADLAM GEMINATION MARK", aliases: &[] },
        Codepoint { codepoint: 0x1E947, name: "ADLAM HAMZA", aliases: &[] },
        Codepoint { codepoint: 0x1E948, name: "ADLAM CONSONANT MODIFIER", aliases: &[] },
        Codepoint { codepoint: 0x1E949, name: "ADLAM GEMINATE CONSONANT MODIFIER", aliases: &[] },
    ]
}

fn all_codepoints_772() -> (v: Vec<Codepoint>)
    ensures
        v@ == codepoint_table_772(),
{
    let v = vec![
        Codepoint { codepoint: 0x1E922, name: "ADLAM SMALL LETTER ALIF", aliases: &[] },
        Codepoint { codepoint: 0x1E923, name: "ADLAM SMALL LETTER DAALI", aliases: &[] },
        Codepoint { codepoint: 0x1E924, name: "ADLAM SMALL LETTER LAAM", aliases: &[] },
        Codepoint { codepoint: 0x1E925, name: "ADLAM SMALL LETTER MIIM", aliases: &[] },
        Codepoint { codepoint: 0x1E926, name: "ADLAM SMALL LETTER BA", aliases: &[] },
        Codepoint { codepoint: 0x1E927, name: "ADLAM SMALL LETTER SINNYIIYHE", aliases: &[] },
        Codepoint { codepoint: 0x1E928, name: "ADLAM SMALL LETTER PE", aliases: &[] },
        Codepoint { codepoint: 0x1E929, name: "ADLAM SMALL LETTER BHE", aliases: &[] },
        Codepoint { codepoint: 0x1E92A, name: "ADLAM SMALL LETTER RA", aliases: &[] },
        Codepoint { codepoint: 0x1E92B, name: "ADLAM SMALL LETTER E", aliases: &[] },
        Codepoint { codepoint: 0x1E92C, name: "ADLAM SMALL LETTER FA", aliases: &[] },
        Codepoint { codepoint: 0x1E92D, name: "ADLAM SMALL LETTER I", aliases: &[] },
        Codepoint { codepoint: 0x1E92E, name: "ADLAM SMALL LETTER O", aliases: &[] },
        Codepoint { codepoint: 0x1E92F, name: "ADLAM SMALL LETTER DHA", aliases: &[] },
        Codepoint { codepoint: 0x1E930, name: "ADLAM SMALL LETTER YHE", aliases: &[] },
        Codepoint { codepoint: 0x1E931, name: "ADLAM SMALL LETTER WAW", aliases: &[] },
        Codepoint { codepoint: 0x1E932, name: "ADLAM SMALL LETTER NUN", aliases: &[] },
        Codepoint { codepoint: 0x1E933, name: "ADLAM SMALL LETTER KAF", aliases: &[] },
        Codepoint { codepoint: 0x1E934, name: "ADLAM SMALL LETTER YA", aliases: &[] },
        Codepoint { codepoint: 0x1E935, name: "ADLAM SMALL LETTER U", aliases: &[] },
        Codepoint { codepoint: 0x1E936, name: "ADLAM SMALL LETTER JIIM", aliases: &[] },
        Codepoint { codepoint: 0x1E937, name: "ADLAM SMALL LETTER CHI", aliases: &[] },
        Codepoint { codepoint: 0x1E938, name: "ADLAM SMALL LETTER HA", aliases: &[] },
        Codepoint { codepoint: 0x1E939, name: "ADLAM SMALL LETTER QAAF", aliases: &[] },
        Codepoint { codepoint: 0x1E93A, name: "ADLAM SMALL LETTER GA", aliases: &[] },
        Codepoint { codepoint: 0x1E93B, name: "ADLAM SMALL LETTER NYA", aliases: &[] },
        Codepoint { codepoint: 0x1E93C, name: "ADLAM SMALL LETTER TU", aliases: &[] },
        Codepoint { codepoint: 0x1E93D, name: "ADLAM SMALL LETTER NHA", aliases: &[] },
        Codepoint { codepoint: 0x1E93E, name: "ADLAM SMALL LETTER VA", aliases: &[] },
        Codepoint { codepoint: 0x1E93F, name: "ADLAM SMALL LETTER KHA", aliases: &[] },
        Codepoint { codepoint: 0x1E940, name: "ADLAM SMALL LETTER GBE", aliases: &[] },
        Codepoint { codepoint: 0x1E941, name: "ADLAM SMALL LETTER ZAL", aliases: &[] },
        Codepoint { codepoint: 0x1E942, name: "ADLAM SMALL LETTER KPO", aliases: &[] },
        Codepoint { codepoint: 0x1E943, name: "ADLAM SMALL LETTER SHA", aliases: &[] },
        Codepoint { codepoint: 0x1E944, name: "ADLAM ALIF LENGTHENER", aliases: &[] },
        Codepoint { codepoint: 0x1E945, name: "ADLAM VOWEL LENGTHENER", aliases: &[] },
        Codepoint { codepoint: 0x1E946, name: "ADLAM GEMINATION MARK", aliases: &[] },
        Codepoint { codepoint: 0x1E947, name: "ADLAM HAMZA", aliases: &[] },
        Codepoint { codepoint: 0x1E948, name: "ADLAM CONSONANT MODIFIER", aliases: &[] },
        Codepoint { codepoint: 0x1E949, name: "ADLAM GEMINATE CONSONANT MODIFIER", aliases: &[] },
    ];
    assert(v@ =~= codepoint_table_772());
    v
}

pub open spec fn codepoint_table_773() -> Seq<Codepoint> {
    seq![
        Codepoint { codepoint: 0x1E94A, name: "ADLAM NUKTA", aliases: &[] },
        Codepoint { codepoint: 0x1E94B, name: "ADLAM NASALIZATION MARK", aliases: &[] },
        Codepoint { codepoint: 0x1E950, name: "ADLAM DIGIT ZERO", aliases: &[] },
        Codepoint { codepoint: 0x1E951, name: "ADLAM DIGIT ONE", aliases: &[] },
        Codepoint { codepoint: 0x1E952, name: "ADLAM DIGIT TWO", aliases: &[] },
        Codepoint { codepoint: 0x1E953, name: "ADLAM DIGIT THREE", aliases: &[] },
        Codepoint { codepoint: 0x1E954, name: "ADLAM DIGIT FOUR", aliases: &[] },
        Codepoint { codepoint: 0x1E955, name: "ADLAM DIGIT FIVE", aliases: &[] },
        Codepoint { codepoint: 0x1E956, name: "ADLAM DIGIT SIX", aliases: &[] },
        Codepoint { codepoint: 0x1E957, name: "ADLAM DIGIT SEVEN", aliases: &[] },
        Codepoint { codepoint: 0x1E958, name: "ADLAM DIGIT EIGHT", aliases: &[] },
        Codepoint { codepoint: 0x1E959, name: "ADLAM DIGIT NINE", aliases: &[] },
        Codepoint { codepoint: 0x1E95E, name: "ADLAM INITIAL EXCLAMATION MARK", aliases: &[] },
        Codepoint { codepoint: 0x1E95F, name: "ADLAM INITIAL QUESTION MARK", aliases: &[] },
        Codepoint { codepoint: 0x1EC71, name: "INDIC SIYAQ NUMBER ONE", aliases: &[] },
        Codepoint { codepoint: 0x1EC72, name: "INDIC SIYAQ NUMBER TWO", aliases: &[] },
        Codepoint { codepoint: 0x1EC73, name: "INDIC SIYAQ NUMBER THREE", aliases: &[] },
        Codepoint { codepoint: 0x1EC74, name: "INDIC SIYAQ NUMBER FOUR", aliases: &[] },
        Codepoint { codepoint: 0x1EC75, name: "INDIC SIYAQ NUMBER FIVE", aliases: &[] },
        Codepoint { codepoint: 0x1EC76, name: "INDIC SIYAQ NUMBER SIX", aliases: &[] },
        Codepoint { codepoint: 0x1EC77, name: "INDIC SIYAQ NUMBER SEVEN", aliases: &[] },
        Codepoint { codepoint: 0x1EC78, name: "INDIC SIYAQ NUMBER EIGHT", aliases: &[] },
        Codepoint { codepoint: 0x1EC79, name: "INDIC SIYAQ NUMBER NINE", aliases: &[] },
        Codepoint { codepoint: 0x1EC7A, name: "INDIC SIYAQ NUMBER TEN", aliases: &[] },
        Codepoint { codepoint: 0x1EC7B, name: "INDIC SIYAQ NUMBER TWENTY", aliases: &[] },
        Codepoint { codepoint: 0x1EC7C, name: "INDIC SIYAQ NUMBER THIRTY", aliases: &[] },
        Codepoint { codepoint: 0x1EC7D, name: "INDIC SIYAQ NUMBER FORTY", aliases: &[] },
        Codepoint { codepoint: 0x1EC7E, name: "INDIC SIYAQ NUMBER FIFTY", aliases: &[] },
        Codepoint { codepoint: 0x1EC7F, name: "INDIC SIYAQ NUMBER SIXTY", aliases: &[] },
        Codepoint { codepoint: 0x1EC80, name: "INDIC SIYAQ NUMBER SEVENTY", aliases: &[] },
        Codepoint { codepoint: 0x1EC81, name: "INDIC SIYAQ NUMBER EIGHTY", aliases: &[] },
        Codepoint { codepoint: 0x1EC82, name: "INDIC SIYAQ NUMBER NINETY", aliases: &[] },
        Codepoint { codepoint: 0x1EC83, name: "INDIC SIYAQ NUMBER ONE HUNDRED", aliases: &[] },
        Codepoint { codepoint: 0x1EC84, name: "INDIC SIYAQ NUMBER TWO HUNDRED", aliases: &[] },
        Codepoint { codepoint: 0x1EC85, name: "INDIC SIYAQ NUMBER THREE HUNDRED", aliases: &[] },
        Codepoint { codepoint: 0x1EC86, name: "INDIC SIYAQ NUMBER FOUR HUNDRED", aliases: &[] },
        Codepoint { codepoint: 0x1EC87, name: "INDIC SIYAQ NUMBER FIVE HUNDRED", aliases: &[] },
        Codepoint { codepoint: 0x1EC88, name: "INDIC SIYAQ NUMBER SIX HUNDRED", aliases: &[] },
        Codepoint { codepoint: 0x1EC89, name: "INDIC SIYAQ NUMBER SEVEN HUNDRED", aliases: &[] },
        Codepoint { codepoint: 0x1EC8A, name: "INDIC SIYAQ NUMBER EIGHT HUNDRED", aliases: &[] },
    ]
}

fn all_codepoints_773() -> (v: Vec<Codepoint>)
    ensures
        v@ == codepoint_table_773(),
{
    let v = vec![
        Codepoint { codepoint: 0x1E94A, name: "ADLAM NUKTA", aliases: &[] },
        Codepoint { codepoint: 0x1E94B, name: "ADLAM NASALIZATION MARK", aliases: &[] },
        Codepoint { codepoint: 0x1E950, name: "ADLAM DIGIT ZERO", aliases: &[] },
        Codepoint { codepoint: 0x1E951, name: "ADLAM DIGIT ONE", aliases: &[] },
        Codepoint { codepoint: 0x1E952, name: "ADLAM DIGIT TWO", aliases: &[] },
        Codepoint { codepoint: 0x1E953, name: "ADLAM DIGIT THREE", aliases: &[] },
        Codepoint { codepoint: 0x1E954, name: "ADLAM DIGIT FOUR", aliases: &[] },
        Codepoint { codepoint: 0x1E955, name: "ADLAM DIGIT FIVE", aliases: &[] },
        Codepoint { codepoint: 0x1E956, name: "ADLAM DIGIT SIX", aliases: &[] },
        Codepoint { codepoint: 0x1E957, name: "ADLAM DIGIT SEVEN", aliases: &[] },
        Codepoint { codepoint: 0x1E958, name: "ADLAM DIGIT EIGHT", aliases: &[] },
        Codepoint { codepoint: 0x1E959, name: "ADLAM DIGIT NINE", aliases: &[] },
        Codepoint { codepoint: 0x1E95E, name: "ADLAM INITIAL EXCLAMATION MARK", aliases: &[] },
        Codepoint { codepoint: 0x1E95F, name: "ADLAM INITIAL QUESTION MARK", aliases: &[] },
        Codepoint { codepoint: 0x1EC71, name: "INDIC SIYAQ NUMBER ONE", aliases: &[] },
        Codepoint { codepoint: 0x1EC72, name: "INDIC SIYAQ NUMBER TWO", aliases: &[] },
        Codepoint { codepoint: 0x1EC73, name: "INDIC SIYAQ NUMBER THREE", aliases: &[] },
        Codepoint { codepoint: 0x1EC74, name: "INDIC SIYAQ NUMBER FOUR", aliases: &[] },
        Codepoint { codepoint: 0x1EC75, name: "INDIC SIYAQ NUMBER FIVE", aliases: &[] },
        Codepoint { codepoint: 0x1EC76, name: "INDIC SIYAQ NUMBER SIX", aliases: &[] },
        Codepoint { codepoint: 0x1EC77, name: "INDIC SIYAQ NUMBER SEVEN", aliases: &[] },
        Codepoint { codepoint: 0x1EC78, name: "INDIC SIYAQ NUMBER EIGHT", aliases: &[] },
        Codepoint { codepoint: 0x1EC79, name: "INDIC SIYAQ NUMBER NINE", aliases: &[] },
        Codepoint { codepoint: 0x1EC7A, name: "INDIC SIYAQ NUMBER TEN", aliases: &[] },
        Codepoint { codepoint: 0x1EC7B, name: "INDIC SIYAQ NUMBER TWENTY", aliases: &[] },
        Codepoint { codepoint: 0x1EC7C, name: "INDIC SIYAQ NUMBER THIRTY", aliases: &[] },
        Codepoint { codepoint: 0x1EC7D, name: "INDIC SIYAQ NUMBER FORTY", aliases: &[] },
        Codepoint { codepoint: 0x1EC7E, name: "INDIC SIYAQ NUMBER FIFTY", aliases: &[] },
        Codepoint { codepoint: 0x1EC7F, name: "INDIC SIYAQ NUMBER SIXTY", aliases: &[] },
        Codepoint { codepoint: 0x1EC80, name: "INDIC SIYAQ NUMBER SEVENTY", aliases: &[] },
        Codepoint { codepoint: 0x1EC81, name: "INDIC SIYAQ NUMBER EIGHTY", aliases: &[] },
        Codepoint { codepoint: 0x1EC82, name: "INDIC SIYAQ NUMBER NINETY", aliases: &[] },
        Codepoint { codepoint: 0x1EC83, name: "INDIC SIYAQ NUMBER ONE HUNDRED", aliases: &[] },
        Codepoint { codepoint: 0x1EC84, name: "INDIC SIYAQ NUMBER TWO HUNDRED", aliases: &[] },
        Codepoint { codepoint: 0x1EC85, name: "INDIC SIYAQ NUMBER THREE HUNDRED", aliases: &[] },
        Codepoint { codepoint: 0x1EC86, name: "INDIC SIYAQ NUMBER FOUR HUNDRED", aliases: &[] },
        Codepoint { codepoint: 0x1EC87, name: "INDIC SIYAQ NUMBER FIVE HUNDRED", aliases: &[] },
        Codepoint { codepoint: 0x1EC88, name: "INDIC SIYAQ NUMBER SIX HUNDRED", aliases: &[] },
        Codepoint { codepoint: 0x1EC89, name: "INDIC SIYAQ NUMBER SEVEN HUNDRED", aliases: &[] },
        Codepoint { codepoint: 0x1EC8A, name: "INDIC SIYAQ NUMBER EIGHT HUNDRED", aliases: &[] },
    ];
    assert(v@ =~= codepoint_table_773());
    v
}

pub open spec fn codepoint_table_774() -> Seq<Codepoint> {
    seq![
        Codepoint { codepoint: 0x1EC8B, name: "INDIC SIYAQ NUMBER NINE HUNDRED", aliases: &[] },
        Codepoint { codepoint: 0x1EC8C, name: "INDIC SIYAQ NUMBER ONE THOUSAND", aliases: &[] },
        Codepoint { codepoint: 0x1EC8D, name: "INDIC SIYAQ NUMBER TWO THOUSAND", aliases: &[] },
        Codepoint { codepoint: 0x1EC8E, name: "INDIC SIYAQ NUMBER THREE THOUSAND", aliases: &[] },
        Codepoint { codepoint: 0x1EC8F, name: "INDIC SIYAQ NUMBER FOUR THOUSAND", aliases: &[] },
        Codepoint { codepoint: 0x1EC90, name: "INDIC SIYAQ NUMBER FIVE THOUSAND", aliases: &[] },
        Codepoint { codepoint: 0x1EC91, name: "INDIC SIYAQ NUMBER SIX THOUSAND", aliases: &[] },
        Codepoint { codepoint: 0x1EC92, name: "INDIC SIYAQ NUMBER SEVEN THOUSAND", aliases: &[] },
        Codepoint { codepoint: 0x1EC93, name: "INDIC SIYAQ NUMBER EIGHT THOUSAND", aliases: &[] },
        Codepoint { codepoint: 0x1EC94, name: "INDIC SIYAQ NUMBER NINE THOUSAND", aliases: &[] },
        Codepoint { codepoint: 0x1EC95, name: "INDIC SIYAQ NUMBER TEN THOUSAND", aliases: &[] },
        Codepoint { codepoint: 0x1EC96, name: "INDIC SIYAQ NUMBER TWENTY THOUSAND", aliases: &[] },
        Codepoint { codepoint: 0x1EC97, name: "INDIC SIYAQ NUMBER THIRTY THOUSAND", aliases: &[] },
        Codepoint { codepoint: 0x1EC98, name: "INDIC SIYAQ NUMBER FORTY THOUSAND", aliases: &[] },
        Codepoint { codepoint: 0x1EC99, name: "INDIC SIYAQ NUMBER FIFTY THOUSAND", aliases: &[] },
        Codepoint { codepoint: 0x1EC9A, name: "INDIC SIYAQ NUMBER SIXTY THOUSAND", aliases: &[] },
        Codepoint { codepoint: 0x1EC9B, name: "INDIC SIYAQ NUMBER SEVENTY THOUSAND", aliases: &[] },
        Codepoint { codepoint: 0x1EC9C, name: "INDIC SIYAQ NUMBER EIGHTY THOUSAND", aliases: &[] },
        Codepoint { codepoint: 0x1EC9D, name: "INDIC SIYAQ NUMBER NINETY THOUSAND", aliases: &[] },
        Codepoint { codepoint: 0x1EC9E, name: "INDIC SIYAQ NUMBER LAKH", aliases: &[] },
        Codepoint { codepoint: 0x1EC9F, name: "INDIC SIYAQ NUMBER LAKHAN", aliases: &[] },
        Codepoint { codepoint: 0x1ECA0, name: "INDIC SIYAQ LAKH MARK", aliases: &[] },
        Codepoint { codepoint: 0x1ECA1, name: "INDIC SIYAQ NUMBER KAROR", aliases: &[] },
        Codepoint { codepoint: 0x1ECA2, name: "INDIC SIYAQ NUMBER KARORAN", aliases: &[] },
        Codepoint { codepoint: 0x1ECA3, name: "INDIC SIYAQ NUMBER PREFIXED ONE", aliases: &[] },
        Codepoint { codepoint: 0x1ECA4, name: "INDIC SIYAQ NUMBER PREFIXED TWO", aliases: &[] },
        Codepoint { codepoint: 0x1ECA5, name: "INDIC SIYAQ NUMBER PREFIXED THREE", aliases: &[] },
        Codepoint { codepoint: 0x1ECA6, name: "INDIC SIYAQ NUMBER PREFIXED FOUR", aliases: &[] },
        Codepoint { codepoint: 0x1ECA7, name: "INDIC SIYAQ NUMBER PREFIXED FIVE", aliases: &[] },
        Codepoint { codepoint: 0x1ECA8, name: "INDIC SIYAQ NUMBER PREFIXED SIX", aliases: &[] },
        Codepoint { codepoint: 0x1ECA9, name: "INDIC SIYAQ NUMBER PREFIXED SEVEN", aliases: &[] },
        Codepoint { codepoint: 0x1ECAA, name: "INDIC SIYAQ NUMBER PREFIXED EIGHT", aliases: &[] },
        Codepoint { codepoint: 0x1ECAB, name: "INDIC SIYAQ NUMBER PREFIXED NINE", aliases: &[] },
        Codepoint { codepoint: 0x1ECAC, name: "INDIC SIYAQ PLACEHOLDER", aliases: &[] },
        Codepoint { codepoint: 0x1ECAD, name: "INDIC SIYAQ FRACTION ONE QUARTER", aliases: &[] },
        Codepoint { codepoint: 0x1ECAE, name: "INDIC SIYAQ FRACTION ONE HALF", aliases: &[] },
        Codepoint { codepoint: 0x1ECAF, name: "INDIC SIYAQ FRACTION THREE QUARTERS", aliases: &[] },
        Codepoint { codepoint: 0x1ECB0, name: "INDIC SIYAQ RUPEE MARK", aliases: &[] },
        Codepoint { codepoint: 0x1ECB1, name: "INDIC SIYAQ NUMBER ALTERNATE ONE", aliases: &[] },
        Codepoint { codepoint: 0x1ECB2, name: "INDIC SIYAQ NUMBER ALTERNATE TWO", aliases: &[] },
    ]
}

fn all_codepoints_774() -> (v: Vec<Codepoint>)
    ensures
        v@ == codepoint_table_774(),
{
    let v = vec![
        Codepoint { codepoint: 0x1EC8B, name: "INDIC SIYAQ NUMBER NINE HUNDRED", aliases: &[] },
        Codepoint { codepoint: 0x1EC8C, name: "INDIC SIYAQ NUMBER ONE THOUSAND", aliases: &[] },
        Codepoint { codepoint: 0x1EC8D, name: "INDIC SIYAQ NUMBER TWO THOUSAND", aliases: &[] },
        Codepoint { codepoint: 0x1EC8E, name: "INDIC SIYAQ NUMBER THREE THOUSAND", aliases: &[] },
        Codepoint { codepoint: 0x1EC8F, name: "INDIC SIYAQ NUMBER FOUR THOUSAND", aliases: &[] },
        Codepoint { codepoint: 0x1EC90, name: "INDIC SIYAQ NUMBER FIVE THOUSAND", aliases: &[] },
        Codepoint { codepoint: 0x1EC91, name: "INDIC SIYAQ NUMBER SIX THOUSAND", aliases: &[] },
        Codepoint { codepoint: 0x1EC92, name: "INDIC SIYAQ NUMBER SEVEN THOUSAND", aliases: &[] },
        Codepoint { codepoint: 0x1EC93, name: "INDIC SIYAQ NUMBER EIGHT THOUSAND", aliases: &[] },
        Codepoint { codepoint: 0x1EC94, name: "INDIC SIYAQ NUMBER NINE THOUSAND", aliases: &[] },
        Codepoint { codepoint: 0x1EC95, name: "INDIC SIYAQ NUMBER TEN THOUSAND", aliases: &[] },
        Codepoint { codepoint: 0x1EC96, name: "INDIC SIYAQ NUMBER TWENTY THOUSAND", aliases: &[] },
        Codepoint { codepoint: 0x1EC97, name: "INDIC SIYAQ NUMBER THIRTY THOUSAND", aliases: &[] },
        Codepoint { codepoint: 0x1EC98, name: "INDIC SIYAQ NUMBER FORTY THOUSAND", aliases: &[] },
        Codepoint { codepoint: 0x1EC99, name: "INDIC SIYAQ NUMBER FIFTY THOUSAND", aliases: &[] },
        Codepoint { codepoint: 0x1EC9A, name: "INDIC SIYAQ NUMBER SIXTY THOUSAND", aliases: &[] },
        Codepoint { codepoint: 0x1EC9B, name: "INDIC SIYAQ NUMBER SEVENTY THOUSAND", aliases: &[] },
        Codepoint { codepoint: 0x1EC9C, name: "INDIC SIYAQ NUMBER EIGHTY THOUSAND", aliases: &[] },
        Codepoint { codepoint: 0x1EC9D, name: "INDIC SIYAQ NUMBER NINETY THOUSAND", aliases: &[] },
        Codepoint { codepoint: 0x1EC9E, name: "INDIC SIYAQ NUMBER LAKH", aliases: &[] },
        Codepoint { codepoint: 0x1EC9F, name: "INDIC SIYAQ NUMBER LAKHAN", aliases: &[] },
        Codepoint { codepoint: 0x1ECA0, name: "INDIC SIYAQ LAKH MARK", aliases: &[] },
        Codepoint { codepoint: 0x1ECA1, name: "INDIC SIYAQ NUMBER KAROR", aliases: &[] },
        Codepoint { codepoint: 0x1ECA2, name: "INDIC SIYAQ NUMBER KARORAN", aliases: &[] },
        Codepoint { codepoint: 0x1ECA3, name: "INDIC SIYAQ NUMBER PREFIXED ONE", aliases: &[] },
        Codepoint { codepoint: 0x1ECA4, name: "INDIC SIYAQ NUMBER PREFIXED TWO", aliases: &[] },
        Codepoint { codepoint: 0x1ECA5, name: "INDIC SIYAQ NUMBER PREFIXED THREE", aliases: &[] },
        Codepoint { codepoint: 0x1ECA6, name: "INDIC SIYAQ NUMBER PREFIXED FOUR", aliases: &[] },
        Codepoint { codepoint: 0x1ECA7, name: "INDIC SIYAQ NUMBER PREFIXED FIVE", aliases: &[] },
        Codepoint { codepoint: 0x1ECA8, name: "INDIC SIYAQ NUMBER PREFIXED SIX", aliases: &[] },
        Codepoint { codepoint: 0x1ECA9, name: "INDIC SIYAQ NUMBER PREFIXED SEVEN", aliases: &[] },
        Codepoint { codepoint: 0x1ECAA, name: "INDIC SIYAQ NUMBER PREFIXED EIGHT", aliases: &[] },
        Codepoint { codepoint: 0x1ECAB, name: "INDIC SIYAQ NUMBER PREFIXED NINE", aliases: &[] },
        Codepoint { codepoint: 0x1ECAC, name: "INDIC SIYAQ PLACEHOLDER", aliases: &[] },
        Codepoint { codepoint: 0x1ECAD, name: "INDIC SIYAQ FRACTION ONE QUARTER", aliases: &[] },
        Codepoint { codepoint: 0x1ECAE, name: "INDIC SIYAQ FRACTION ONE HALF", aliases: &[] },
        Codepoint { codepoint: 0x1ECAF, name: "INDIC SIYAQ FRACTION THREE QUARTERS", aliases: &[] },
        Codepoint { codepoint: 0x1ECB0, name: "INDIC SIYAQ RUPEE MARK", aliases: &[] },
        Codepoint { codepoint: 0x1ECB1, name: "INDIC SIYAQ NUMBER ALTERNATE ONE", aliases: &[] },
        Codepoint { codepoint: 0x1ECB2, name: "INDIC SIYAQ NUMBER ALTERNATE TWO", aliases: &[] },
    ];
    assert(v@ =~= codepoint_table_774());
    v
}

pub open spec fn codepoint_table_775() -> Seq<Codepoint> {
    seq![
        Codepoint { codepoint: 0x1ECB3, name: "INDIC SIYAQ NUMBER ALTERNATE TEN THOUSAND", aliases: &[] },
        Codepoint { codepoint: 0x1ECB4, name: "INDIC SIYAQ ALTERNATE LAKH MARK", aliases: &[] },
        Codepoint { codepoint: 0x1ED01, name: "OTTOMAN SIYAQ NUMBER ONE", aliases: &[] },
        Codepoint { codepoint: 0x1ED02, name: "OTTOMAN SIYAQ NUMBER TWO", aliases: &[] },
        Codepoint { codepoint: 0x1ED03, name: "OTTOMAN SIYAQ NUMBER THREE", aliases: &[] },
        Codepoint { codepoint: 0x1ED04, name: "OTTOMAN SIYAQ NUMBER FOUR", aliases: &[] },
        Codepoint { codepoint: 0x1ED05, name: "OTTOMAN SIYAQ NUMBER FIVE", aliases: &[] },
        Codepoint { codepoint: 0x1ED06, name: "OTTOMAN SIYAQ NUMBER SIX", aliases: &[] },
        Codepoint { codepoint: 0x1ED07, name: "OTTOMAN SIYAQ NUMBER SEVEN", aliases: &[] },
        Codepoint { codepoint: 0x1ED08, name: "OTTOMAN SIYAQ NUMBER EIGHT", aliases: &[] },
        Codepoint { codepoint: 0x1ED09, name: "OTTOMAN SIYAQ NUMBER NINE", aliases: &[] },
        Codepoint { codepoint: 0x1ED0A, name: "OTTOMAN SIYAQ NUMBER TEN", aliases: &[] },
        Codepoint { codepoint: 0x1ED0B, name: "OTTOMAN SIYAQ NUMBER TWENTY", aliases: &[] },
        Codepoint { codepoint: 0x1ED0C, name: "OTTOMAN SIYAQ NUMBER THIRTY", aliases: &[] },
        Codepoint { codepoint: 0x1ED0D, name: "OTTOMAN SIYAQ NUMBER FORTY", aliases: &[] },
        Codepoint { codepoint: 0x1ED0E, name: "OTTOMAN SIYAQ NUMBER FIFTY", aliases: &[] },
        Codepoint { codepoint: 0x1ED0F, name: "OTTOMAN SIYAQ NUMBER SIXTY", aliases: &[] },
        Codepoint { codepoint: 0x1ED10, name: "OTTOMAN SIYAQ NUMBER SEVENTY", aliases: &[] },
        Codepoint { codepoint: 0x1ED11, name: "OTTOMAN SIYAQ NUMBER EIGHTY", aliases: &[] },
        Codepoint { codepoint: 0x1ED12, name: "OTTOMAN SIYAQ NUMBER NINETY", aliases: &[] },
        Codepoint { codepoint: 0x1ED13, name: "OTTOMAN SIYAQ NUMBER ONE HUNDRED", aliases: &[] },
        Codepoint { codepoint: 0x1ED14, name: "OTTOMAN SIYAQ NUMBER TWO HUNDRED", aliases: &[] },
        Codepoint { codepoint: 0x1ED15, name: "OTTOMAN SIYAQ NUMBER THREE HUNDRED", aliases: &[] },
        Codepoint { codepoint: 0x1ED16, name: "OTTOMAN SIYAQ NUMBER FOUR HUNDRED", aliases: &[] },
        Codepoint { codepoint: 0x1ED17, name: "OTTOMAN SIYAQ NUMBER FIVE HUNDRED", aliases: &[] },
        Codepoint { codepoint: 0x1ED18, name: "OTTOMAN SIYAQ NUMBER SIX HUNDRED", aliases: &[] },
        Codepoint { codepoint: 0x1ED19, name: "OTTOMAN SIYAQ NUMBER SEVEN HUNDRED", aliases: &[] },
        Codepoint { codepoint: 0x1ED1A, name: "OTTOMAN SIYAQ NUMBER EIGHT HUNDRED", aliases: &[] },
        Codepoint { codepoint: 0x1ED1B, name: "OTTOMAN SIYAQ NUMBER NINE HUNDRED", aliases: &[] },
        Codepoint { codepoint: 0x1ED1C, name: "OTTOMAN SIYAQ NUMBER ONE THOUSAND", aliases: &[] },
        Codepoint { codepoint: 0x1ED1D, name: "OTTOMAN SIYAQ NUMBER TWO THOUSAND", aliases: &[] },
        Codepoint { codepoint: 0x1ED1E, name: "OTTOMAN SIYAQ NUMBER THREE THOUSAND", aliases: &[] },
        Codepoint { codepoint: 0x1ED1F, name: "OTTOMAN SIYAQ NUMBER FOUR THOUSAND", aliases: &[] },
        Codepoint { codepoint: 0x1ED20, name: "OTTOMAN SIYAQ NUMBER FIVE THOUSAND", aliases: &[] },
        Codepoint { codepoint: 0x1ED21, name: "OTTOMAN SIYAQ NUMBER SIX THOUSAND", aliases: &[] },
        Codepoint { codepoint: 0x1ED22, name: "OTTOMAN SIYAQ NUMBER SEVEN THOUSAND", aliases: &[] },
        Codepoint { codepoint: 0x1ED23, name: "OTTOMAN SIYAQ NUMBER EIGHT THOUSAND", aliases: &[] },
        Codepoint { codepoint: 0x1ED24, name: "OTTOMAN SIYAQ NUMBER NINE THOUSAND", aliases: &[] },
        Codepoint { codepoint: 0x1ED25, name: "OTTOMAN SIYAQ NUMBER TEN THOUSAND", aliases: &[] },
        Codepoint { codepoint: 0x1ED26, name: "OTTOMAN SIYAQ NUMBER TWENTY THOUSAND", aliases: &[] },
    ]
}

fn all_codepoints_775() -> (v: Vec<Codepoint>)
    ensures
        v@ == codepoint_table_775(),
{
    let v = vec![
        Codepoint { codepoint: 0x1ECB3, name: "INDIC SIYAQ NUMBER ALTERNATE TEN THOUSAND", aliases: &[] },
        Codepoint { codepoint: 0x1ECB4, name: "INDIC SIYAQ ALTERNATE LAKH MARK", aliases: &[] },
        Codepoint { codepoint: 0x1ED01, name: "OTTOMAN SIYAQ NUMBER ONE", aliases: &[] },
        Codepoint { codepoint: 0x1ED02, name: "OTTOMAN SIYAQ NUMBER TWO", aliases: &[] },
        Codepoint { codepoint: 0x1ED03, name: "OTTOMAN SIYAQ NUMBER THREE", aliases: &[] },
        Codepoint { codepoint: 0x1ED04, name: "OTTOMAN SIYAQ NUMBER FOUR", aliases: &[] },
        Codepoint { codepoint: 0x1ED05, name: "OTTOMAN SIYAQ NUMBER FIVE", aliases: &[] },
        Codepoint { codepoint: 0x1ED06, name: "OTTOMAN SIYAQ NUMBER SIX", aliases: &[] },
        Codepoint { codepoint: 0x1ED07, name: "OTTOMAN SIYAQ NUMBER SEVEN", aliases: &[] },
        Codepoint { codepoint: 0x1ED08, name: "OTTOMAN SIYAQ NUMBER EIGHT", aliases: &[] },
        Codepoint { codepoint: 0x1ED09, name: "OTTOMAN SIYAQ NUMBER NINE", aliases: &[] },
        Codepoint { codepoint: 0x1ED0A, name: "OTTOMAN SIYAQ NUMBER TEN", aliases: &[] },
        Codepoint { codepoint: 0x1ED0B, name: "OTTOMAN SIYAQ NUMBER TWENTY", aliases: &[] },
        Codepoint { codepoint: 0x1ED0C, name: "OTTOMAN SIYAQ NUMBER THIRTY", aliases: &[] },
        Codepoint { codepoint: 0x1ED0D, name: "OTTOMAN SIYAQ NUMBER FORTY", aliases: &[] },
        Codepoint { codepoint: 0x1ED0E, name: "OTTOMAN SIYAQ NUMBER FIFTY", aliases: &[] },
        Codepoint { codepoint: 0x1ED0F, name: "OTTOMAN SIYAQ NUMBER SIXTY", aliases: &[] },
        Codepoint { codepoint: 0x1ED10, name: "OTTOMAN SIYAQ NUMBER SEVENTY", aliases: &[] },
        Codepoint { codepoint: 0x1ED11, name: "OTTOMAN SIYAQ NUMBER EIGHTY", aliases: &[] },
        Codepoint { codepoint: 0x1ED12, name: "OTTOMAN SIYAQ NUMBER NINETY", aliases: &[] },
        Codepoint { codepoint: 0x1ED13, name: "OTTOMAN SIYAQ NUMBER ONE HUNDRED", aliases: &[] },
        Codepoint { codepoint: 0x1ED14, name: "OTTOMAN SIYAQ NUMBER TWO HUNDRED", aliases: &[] },
        Codepoint { codepoint: 0x1ED15, name: "OTTOMAN SIYAQ NUMBER THREE HUNDRED", aliases: &[] },
        Codepoint { codepoint: 0x1ED16, name: "OTTOMAN SIYAQ NUMBER FOUR HUNDRED", aliases: &[] },
        Codepoint { codepoint: 0x1ED17, name: "OTTOMAN SIYAQ NUMBER FIVE HUNDRED", aliases: &[] },
        Codepoint { codepoint: 0x1ED18, name: "OTTOMAN SIYAQ NUMBER SIX HUNDRED", aliases: &[] },
        Codepoint { codepoint: 0x1ED19, name: "OTTOMAN SIYAQ NUMBER SEVEN HUNDRED", aliases: &[] },
        Codepoint { codepoint: 0x1ED1A, name: "OTTOMAN SIYAQ NUMBER EIGHT HUNDRED", aliases: &[] },
        Codepoint { codepoint: 0x1ED1B, name: "OTTOMAN SIYAQ NUMBER NINE HUNDRED", aliases: &[] },
        Codepoint { codepoint: 0x1ED1C, name: "OTTOMAN SIYAQ NUMBER ONE THOUSAND", aliases: &[] },
        Codepoint { codepoint: 0x1ED1D, name: "OTTOMAN SIYAQ NUMBER TWO THOUSAND", aliases: &[] },
        Codepoint { codepoint: 0x1ED1E, name: "OTTOMAN SIYAQ NUMBER THREE THOUSAND", aliases: &[] },
        Codepoint { codepoint: 0x1ED1F, name: "OTTOMAN SIYAQ NUMBER FOUR THOUSAND", aliases: &[] },
        Codepoint { codepoint: 0x1ED20, name: "OTTOMAN SIYAQ NUMBER FIVE THOUSAND", aliases: &[] },
        Codepoint { codepoint: 0x1ED21, name: "OTTOMAN SIYAQ NUMBER SIX THOUSAND", aliases: &[] },
        Codepoint { codepoint: 0x1ED22, name: "OTTOMAN SIYAQ NUMBER SEVEN THOUSAND", aliases: &[] },
        Codepoint { codepoint: 0x1ED23, name: "OTTOMAN SIYAQ NUMBER EIGHT THOUSAND", aliases: &[] },
        Codepoint { codepoint: 0x1ED24, name: "OTTOMAN SIYAQ NUMBER NINE THOUSAND", aliases: &[] },
        Codepoint { codepoint: 0x1ED25, name: "OTTOMAN SIYAQ NUMBER TEN THOUSAND", aliases: &[] },
        Codepoint { codepoint: 0x1ED26, name: "OTTOMAN SIYAQ NUMBER TWENTY THOUSAND", aliases: &[] },
    ];
    assert(v@ =~= codepoint_table_775());
    v
}

pub open spec fn codepoint_table_776() -> Seq<Codepoint> {
    seq![
        Codepoint { codepoint: 0x1ED27, name: "OTTOMAN SIYAQ NUMBER THIRTY THOUSAND", aliases: &[] },
        Codepoint { codepoint: 0x1ED28, name: "OTTOMAN SIYAQ NUMBER FORTY THOUSAND", aliases: &[] },
        Codepoint { codepoint: 0x1ED29, name: "OTTOMAN SIYAQ NUMBER FIFTY THOUSAND", aliases: &[] },
        Codepoint { codepoint: 0x1ED2A, name: "OTTOMAN SIYAQ NUMBER SIXTY THOUSAND", aliases: &[] },
        Codepoint { codepoint: 0x1ED2B, name: "OTTOMAN SIYAQ NUMBER SEVENTY THOUSAND", aliases: &[] },
        Codepoint { codepoint: 0x1ED2C, name: "OTTOMAN SIYAQ NUMBER EIGHTY THOUSAND", aliases: &[] },
        Codepoint { codepoint: 0x1ED2D, name: "OTTOMAN SIYAQ NUMBER NINETY THOUSAND", aliases: &[] },
        Codepoint { codepoint: 0x1ED2E, name: "OTTOMAN SIYAQ MARRATAN", aliases: &[] },
        Codepoint { codepoint: 0x1ED2F, name: "OTTOMAN SIYAQ ALTERNATE NUMBER TWO", aliases: &[] },
        Codepoint { codepoint: 0x1ED30, name: "OTTOMAN SIYAQ ALTERNATE NUMBER THREE", aliases: &[] },
        Codepoint { codepoint: 0x1ED31, name: "OTTOMAN SIYAQ ALTERNATE NUMBER FOUR", aliases: &[] },
        Codepoint { codepoint: 0x1ED32, name: "OTTOMAN SIYAQ ALTERNATE NUMBER FIVE", aliases: &[] },
        Codepoint { codepoint: 0x1ED33, name: "OTTOMAN SIYAQ ALTERNATE NUMBER SIX", aliases: &[] },
        Codepoint { codepoint: 0x1ED34, name: "OTTOMAN SIYAQ ALTERNATE NUMBER SEVEN", aliases: &[] },
        Codepoint { codepoint: 0x1ED35, name: "OTTOMAN SIYAQ ALTERNATE NUMBER EIGHT", aliases: &[] },
        Codepoint { codepoint: 0x1ED36, name: "OTTOMAN SIYAQ ALTERNATE NUMBER NINE", aliases: &[] },
        Codepoint { codepoint: 0x1ED37, name: "OTTOMAN SIYAQ ALTERNATE NUMBER TEN", aliases: &[] },
        Codepoint { codepoint: 0x1ED38, name: "OTTOMAN SIYAQ ALTERNATE NUMBER FOUR HUNDRED", aliases: &[] },
        Codepoint { codepoint: 0x1ED39, name: "OTTOMAN SIYAQ ALTERNATE NUMBER SIX HUNDRED", aliases: &[] },
        Codepoint { codepoint: 0x1ED3A, name: "OTTOMAN SIYAQ ALTERNATE NUMBER TWO THOUSAND", aliases: &[] },
        Codepoint { codepoint: 0x1ED3B, name: "OTTOMAN SIYAQ ALTERNATE NUMBER TEN THOUSAND", aliases: &[] },
        Codepoint { codepoint: 0x1ED3C, name: "OTTOMAN SIYAQ FRACTION ONE HALF", aliases: &[] },
        Codepoint { codepoint: 0x1ED3D, name: "OTTOMAN SIYAQ FRACTION ONE SIXTH", aliases: &[] },
        Codepoint { codepoint: 0x1EE00, name: "ARABIC MATHEMATICAL ALEF", aliases: &[] },
        Codepoint { codepoint: 0x1EE01, name: "ARABIC MATHEMATICAL BEH", aliases: &[] },
        Codepoint { codepoint: 0x1EE02, name: "ARABIC MATHEMATICAL JEEM", aliases: &[] },
        Codepoint { codepoint: 0x1EE03, name: "ARABIC MATHEMATICAL DAL", aliases: &[] },
        Codepoint { codepoint: 0x1EE05, name: "ARABIC MATHEMATICAL WAW", aliases: &[] },
        Codepoint { codepoint: 0x1EE06, name: "ARABIC MATHEMATICAL ZAIN", aliases: &[] },
        Codepoint { codepoint: 0x1EE07, name: "ARABIC MATHEMATICAL HAH", aliases: &[] },
        Codepoint { codepoint: 0x1EE08, name: "ARABIC MATHEMATICAL TAH", aliases: &[] },
        Codepoint { codepoint: 0x1EE09, name: "ARABIC MATHEMATICAL YEH", aliases: &[] },
        Codepoint { codepoint: 0x1EE0A, name: "ARABIC MATHEMATICAL KAF", aliases: &[] },
        Codepoint { codepoint: 0x1EE0B, name: "ARABIC MATHEMATICAL LAM", aliases: &[] },
        Codepoint { codepoint: 0x1EE0C, name: "ARABIC MATHEMATICAL MEEM", aliases: &[] },
        Codepoint { codepoint: 0x1EE0D, name: "ARABIC MATHEMATICAL NOON", aliases: &[] },
        Codepoint { codepoint: 0x1EE0E, name: "ARABIC MATHEMATICAL SEEN", aliases: &[] },
        Codepoint { codepoint: 0x1EE0F, name: "ARABIC MATHEMATICAL AIN", aliases: &[] },
        Codepoint { codepoint: 0x1EE10, name: "ARABIC MATHEMATICAL FEH", aliases: &[] },
        Codepoint { codepoint: 0x1EE11, name: "ARABIC MATHEMATICAL SAD", aliases: &[] },
    ]
}

fn all_codepoints_776() -> (v: Vec<Codepoint>)
    ensures
        v@ == codepoint_table_776(),
{
    let v = vec![
        Codepoint { codepoint: 0x1ED27, name: "OTTOMAN SIYAQ NUMBER THIRTY THOUSAND", aliases: &[] },
        Codepoint { codepoint: 0x1ED28, name: "OTTOMAN SIYAQ NUMBER FORTY THOUSAND", aliases: &[] },
        Codepoint { codepoint: 0x1ED29, name: "OTTOMAN SIYAQ NUMBER FIFTY THOUSAND", aliases: &[] },
        Codepoint { codepoint: 0x1ED2A, name: "OTTOMAN SIYAQ NUMBER SIXTY THOUSAND", aliases: &[] },
        Codepoint { codepoint: 0x1ED2B, name: "OTTOMAN SIYAQ NUMBER SEVENTY THOUSAND", aliases: &[] },
        Codepoint { codepoint: 0x1ED2C, name: "OTTOMAN SIYAQ NUMBER EIGHTY THOUSAND", aliases: &[] },
        Codepoint { codepoint: 0x1ED2D, name: "OTTOMAN SIYAQ NUMBER NINETY THOUSAND", aliases: &[] },
        Codepoint { codepoint: 0x1ED2E, name: "OTTOMAN SIYAQ MARRATAN", aliases: &[] },
        Codepoint { codepoint: 0x1ED2F, name: "OTTOMAN SIYAQ ALTERNATE NUMBER TWO", aliases: &[] },
        Codepoint { codepoint: 0x1ED30, name: "OTTOMAN SIYAQ ALTERNATE NUMBER THREE", aliases: &[] },
        Codepoint { codepoint: 0x1ED31, name: "OTTOMAN SIYAQ ALTERNATE NUMBER FOUR", aliases: &[] },
        Codepoint { codepoint: 0x1ED32, name: "OTTOMAN SIYAQ ALTERNATE NUMBER FIVE", aliases: &[] },
        Codepoint { codepoint: 0x1ED33, name: "OTTOMAN SIYAQ ALTERNATE NUMBER SIX", aliases: &[] },
        Codepoint { codepoint: 0x1ED34, name: "OTTOMAN SIYAQ ALTERNATE NUMBER SEVEN", aliases: &[] },
        Codepoint { codepoint: 0x1ED35, name: "OTTOMAN SIYAQ ALTERNATE NUMBER EIGHT", aliases: &[] },
        Codepoint { codepoint: 0x1ED36, name: "OTTOMAN SIYAQ ALTERNATE NUMBER NINE", aliases: &[] },
        Codepoint { codepoint: 0x1ED37, name: "OTTOMAN SIYAQ ALTERNATE NUMBER TEN", aliases: &[] },
        Codepoint { codepoint: 0x1ED38, name: "OTTOMAN SIYAQ ALTERNATE NUMBER FOUR HUNDRED", aliases: &[] },
        Codepoint { codepoint: 0x1ED39, name: "OTTOMAN SIYAQ ALTERNATE NUMBER SIX HUNDRED", aliases: &[] },
        Codepoint { codepoint: 0x1ED3A, name: "OTTOMAN SIYAQ ALTERNATE NUMBER TWO THOUSAND", aliases: &[] },
        Codepoint { codepoint: 0x1ED3B, name: "OTTOMAN SIYAQ ALTERNATE NUMBER TEN THOUSAND", aliases: &[] },
        Codepoint { codepoint: 0x1ED3C, name: "OTTOMAN SIYAQ FRACTION ONE HALF", aliases: &[] },
        Codepoint { codepoint: 0x1ED3D, name: "OTTOMAN SIYAQ FRACTION ONE SIXTH", aliases: &[] },
        Codepoint { codepoint: 0x1EE00, name: "ARABIC MATHEMATICAL ALEF", aliases: &[] },
        Codepoint { codepoint: 0x1EE01, name: "ARABIC MATHEMATICAL BEH", aliases: &[] },
        Codepoint { codepoint: 0x1EE02, name: "ARABIC MATHEMATICAL JEEM", aliases: &[] },
        Codepoint { codepoint: 0x1EE03, name: "ARABIC MATHEMATICAL DAL", aliases: &[] },
        Codepoint { codepoint: 0x1EE05, name: "ARABIC MATHEMATICAL WAW", aliases: &[] },
        Codepoint { codepoint: 0x1EE06, name: "ARABIC MATHEMATICAL ZAIN", aliases: &[] },
        Codepoint { codepoint: 0x1EE07, name: "ARABIC MATHEMATICAL HAH", aliases: &[] },
        Codepoint { codepoint: 0x1EE08, name: "ARABIC MATHEMATICAL TAH", aliases: &[] },
        Codepoint { codepoint: 0x1EE09, name: "ARABIC MATHEMATICAL YEH", aliases: &[] },
        Codepoint { codepoint: 0x1EE0A, name: "ARABIC MATHEMATICAL KAF", aliases: &[] },
        Codepoint { codepoint: 0x1EE0B, name: "ARABIC MATHEMATICAL LAM", aliases: &[] },
        Codepoint { codepoint: 0x1EE0C, name: "ARABIC MATHEMATICAL MEEM", aliases: &[] },
        Codepoint { codepoint: 0x1EE0D, name: "ARABIC MATHEMATICAL NOON", aliases: &[] },
        Codepoint { codepoint: 0x1EE0E, name: "ARABIC MATHEMATICAL SEEN", aliases: &[] },
        Codepoint { codepoint: 0x1EE0F, name: "ARABIC MATHEMATICAL AIN", aliases: &[] },
        Codepoint { codepoint: 0x1EE10, name: "ARABIC MATHEMATICAL FEH", aliases: &[] },
        Codepoint { codepoint: 0x1EE11, name: "ARABIC MATHEMATICAL SAD", aliases: &[] },
    ];
    assert(v@ =~= codepoint_table_776());
    v
}

pub open spec fn codepoint_table_777() -> Seq<Codepoint> {
    seq![
        Codepoint { codepoint: 0x1EE12, name: "ARABIC MATHEMATICAL QAF", aliases: &[] },
        Codepoint { codepoint: 0x1EE13, name: "ARABIC MATHEMATICAL REH", aliases: &[] },
        Codepoint { codepoint: 0x1EE14, name: "ARABIC MATHEMATICAL SHEEN", aliases: &[] },
        Codepoint { codepoint: 0x1EE15, name: "ARABIC MATHEMATICAL TEH", aliases: &[] },
        Codepoint { codepoint: 0x1EE16, name: "ARABIC MATHEMATICAL THEH", aliases: &[] },
        Codepoint { codepoint: 0x1EE17, name: "ARABIC MATHEMATICAL KHAH", aliases: &[] },
        Codepoint { codepoint: 0x1EE18, name: "ARABIC MATHEMATICAL THAL", aliases: &[] },
        Codepoint { codepoint: 0x1EE19, name: "ARABIC MATHEMATICAL DAD", aliases: &[] },
        Codepoint { codepoint: 0x1EE1A, name: "ARABIC MATHEMATICAL ZAH", aliases: &[] },
        Codepoint { codepoint: 0x1EE1B, name: "ARABIC MATHEMATICAL GHAIN", aliases: &[] },
        Codepoint { codepoint: 0x1EE1C, name: "ARABIC MATHEMATICAL DOTLESS BEH", aliases: &[] },
        Codepoint { codepoint: 0x1EE1D, name: "ARABIC MATHEMATICAL DOTLESS NOON", aliases: &[] },
        Codepoint { codepoint: 0x1EE1E, name: "ARABIC MATHEMATICAL DOTLESS FEH", aliases: &[] },
        Codepoint { codepoint: 0x1EE1F, name: "ARABIC MATHEMATICAL DOTLESS QAF", aliases: &[] },
        Codepoint { codepoint: 0x1EE21, name: "ARABIC MATHEMATICAL INITIAL BEH", aliases: &[] },
        Codepoint { codepoint: 0x1EE22, name: "ARABIC MATHEMATICAL INITIAL JEEM", aliases: &[] },
        Codepoint { codepoint: 0x1EE24, name: "ARABIC MATHEMATICAL INITIAL HEH", aliases: &[] },
        Codepoint { codepoint: 0x1EE27, name: "ARABIC MATHEMATICAL INITIAL HAH", aliases: &[] },
        Codepoint { codepoint: 0x1EE29, name: "ARABIC MATHEMATICAL INITIAL YEH", aliases: &[] },
        Codepoint { codepoint: 0x1EE2A, name: "ARABIC MATHEMATICAL INITIAL KAF", aliases: &[] },
        Codepoint { codepoint: 0x1EE2B, name: "ARABIC MATHEMATICAL INITIAL LAM", aliases: &[] },
        Codepoint { codepoint: 0x1EE2C, name: "ARABIC MATHEMATICAL INITIAL MEEM", aliases: &[] },
        Codepoint { codepoint: 0x1EE2D, name: "ARABIC MATHEMATICAL INITIAL NOON", aliases: &[] },
        Codepoint { codepoint: 0x1EE2E, name: "ARABIC MATHEMATICAL INITIAL SEEN", aliases: &[] },
        Codepoint { codepoint: 0x1EE2F, name: "ARABIC MATHEMATICAL INITIAL AIN", aliases: &[] },
        Codepoint { codepoint: 0x1EE30, name: "ARABIC MATHEMATICAL INITIAL FEH", aliases: &[] },
        Codepoint { codepoint: 0x1EE31, name: "ARABIC MATHEMATICAL INITIAL SAD", aliases: &[] },
        Codepoint { codepoint: 0x1EE32, name: "ARABIC MATHEMATICAL INITIAL QAF", aliases: &[] },
        Codepoint { codepoint: 0x1EE34, name: "ARABIC MATHEMATICAL INITIAL SHEEN", aliases: &[] },
        Codepoint { codepoint: 0x1EE35, name: "ARABIC MATHEMATICAL INITIAL TEH", aliases: &[] },
        Codepoint { codepoint: 0x1EE36, name: "ARABIC MATHEMATICAL INITIAL THEH", aliases: &[] },
        Codepoint { codepoint: 0x1EE37, name: "ARABIC MATHEMATICAL INITIAL KHAH", aliases: &[] },
        Codepoint { codepoint: 0x1EE39, name: "ARABIC MATHEMATICAL INITIAL DAD", aliases: &[] },
        Codepoint { codepoint: 0x1EE3B, name: "ARABIC MATHEMATICAL INITIAL GHAIN", aliases: &[] },
        Codepoint { codepoint: 0x1EE42, name: "ARABIC MATHEMATICAL TAILED JEEM", aliases: &[] },
        Codepoint { codepoint: 0x1EE47, name: "ARABIC MATHEMATICAL TAILED HAH", aliases: &[] },
        Codepoint { codepoint: 0x1EE49, name: "ARABIC MATHEMATICAL TAILED YEH", aliases: &[] },
        Codepoint { codepoint: 0x1EE4B, name: "ARABIC MATHEMATICAL TAILED LAM", aliases: &[] },
        Codepoint { codepoint: 0x1EE4D, name: "ARABIC MATHEMATICAL TAILED NOON", aliases: &[] },
        Codepoint { codepoint: 0x1EE4E, name: "ARABIC MATHEMATICAL TAILED SEEN", aliases: &[] },
    ]
}

fn all_codepoints_777() -> (v: Vec<Codepoint>)
    ensures
        v@ == codepoint_table_777(),
{
    let v = vec![
        Codepoint { codepoint: 0x1EE12, name: "ARABIC MATHEMATICAL QAF", aliases: &[] },
        Codepoint { codepoint: 0x1EE13, name: "ARABIC MATHEMATICAL REH", aliases: &[] },
        Codepoint { codepoint: 0x1EE14, name: "ARABIC MATHEMATICAL SHEEN", aliases: &[] },
        Codepoint { codepoint: 0x1EE15, name: "ARABIC MATHEMATICAL TEH", aliases: &[] },
        Codepoint { codepoint: 0x1EE16, name: "ARABIC MATHEMATICAL THEH", aliases: &[] },
        Codepoint { codepoint: 0x1EE17, name: "ARABIC MATHEMATICAL KHAH", aliases: &[] },
        Codepoint { codepoint: 0x1EE18, name: "ARABIC MATHEMATICAL THAL", aliases: &[] },
        Codepoint { codepoint: 0x1EE19, name: "ARABIC MATHEMATICAL DAD", aliases: &[] },
        Codepoint { codepoint: 0x1EE1A, name: "ARABIC MATHEMATICAL ZAH", aliases: &[] },
        Codepoint { codepoint: 0x1EE1B, name: "ARABIC MATHEMATICAL GHAIN", aliases: &[] },
        Codepoint { codepoint: 0x1EE1C, name: "ARABIC MATHEMATICAL DOTLESS BEH", aliases: &[] },
        Codepoint { codepoint: 0x1EE1D, name: "ARABIC MATHEMATICAL DOTLESS NOON", aliases: &[] },
        Codepoint { codepoint: 0x1EE1E, name: "ARABIC MATHEMATICAL DOTLESS FEH", aliases: &[] },
        Codepoint { codepoint: 0x1EE1F, name: "ARABIC MATHEMATICAL DOTLESS QAF", aliases: &[] },
        Codepoint { codepoint: 0x1EE21, name: "ARABIC MATHEMATICAL INITIAL BEH", aliases: &[] },
        Codepoint { codepoint: 0x1EE22, name: "ARABIC MATHEMATICAL INITIAL JEEM", aliases: &[] },
        Codepoint { codepoint: 0x1EE24, name: "ARABIC MATHEMATICAL INITIAL HEH", aliases: &[] },
        Codepoint { codepoint: 0x1EE27, name: "ARABIC MATHEMATICAL INITIAL HAH", aliases: &[] },
        Codepoint { codepoint: 0x1EE29, name: "ARABIC MATHEMATICAL INITIAL YEH", aliases: &[] },
        Codepoint { codepoint: 0x1EE2A, name: "ARABIC MATHEMATICAL INITIAL KAF", aliases: &[] },
        Codepoint { codepoint: 0x1EE2B, name: "ARABIC MATHEMATICAL INITIAL LAM", aliases: &[] },
        Codepoint { codepoint: 0x1EE2C, name: "ARABIC MATHEMATICAL INITIAL MEEM", aliases: &[] },
        Codepoint { codepoint: 0x1EE2D, name: "ARABIC MATHEMATICAL INITIAL NOON", aliases: &[] },
        Codepoint { codepoint: 0x1EE2E, name: "ARABIC MATHEMATICAL INITIAL SEEN", aliases: &[] },
        Codepoint { codepoint: 0x1EE2F, name: "ARABIC MATHEMATICAL INITIAL AIN", aliases: &[] },
        Codepoint { codepoint: 0x1EE30, name: "ARABIC MATHEMATICAL INITIAL FEH", aliases: &[] },
        Codepoint { codepoint: 0x1EE31, name: "ARABIC MATHEMATICAL INITIAL SAD", aliases: &[] },
        Codepoint { codepoint: 0x1EE32, name: "ARABIC MATHEMATICAL INITIAL QAF", aliases: &[] },
        Codepoint { codepoint: 0x1EE34, name: "ARABIC MATHEMATICAL INITIAL SHEEN", aliases: &[] },
        Codepoint { codepoint: 0x1EE35, name: "ARABIC MATHEMATICAL INITIAL TEH", aliases: &[] },
        Codepoint { codepoint: 0x1EE36, name: "ARABIC MATHEMATICAL INITIAL THEH", aliases: &[] },
        Codepoint { codepoint: 0x1EE37, name: "ARABIC MATHEMATICAL INITIAL KHAH", aliases: &[] },
        Codepoint { codepoint: 0x1EE39, name: "ARABIC MATHEMATICAL INITIAL DAD", aliases: &[] },
        Codepoint { codepoint: 0x1EE3B, name: "ARABIC MATHEMATICAL INITIAL GHAIN", aliases: &[] },
        Codepoint { codepoint: 0x1EE42, name: "ARABIC MATHEMATICAL TAILED JEEM", aliases: &[] },
        Codepoint { codepoint: 0x1EE47, name: "ARABIC MATHEMATICAL TAILED HAH", aliases: &[] },
        Codepoint { codepoint: 0x1EE49, name: "ARABIC MATHEMATICAL TAILED YEH", aliases: &[] },
        Codepoint { codepoint: 0x1EE4B, name: "ARABIC MATHEMATICAL TAILED LAM", aliases: &[] },
        Codepoint { codepoint: 0x1EE4D, name: "ARABIC MATHEMATICAL TAILED NOON", aliases: &[] },
        Codepoint { codepoint: 0x1EE4E, name: "ARABIC MATHEMATICAL TAILED SEEN", aliases: &[] },
    ];
    assert(v@ =~= codepoint_table_777());
    v
}

pub open spec fn codepoint_table_778() -> Seq<Codepoint> {
    seq![
        Codepoint { codepoint: 0x1EE4F, name: "ARABIC MATHEMATICAL TAILED AIN", aliases: &[] },
        Codepoint { codepoint: 0x1EE51, name: "ARABIC MATHEMATICAL TAILED SAD", aliases: &[] },
        Codepoint { codepoint: 0x1EE52, name: "ARABIC MATHEMATICAL TAILED QAF", aliases: &[] },
        Codepoint { codepoint: 0x1EE54, name: "ARABIC MATHEMATICAL TAILED SHEEN", aliases: &[] },
        Codepoint { codepoint: 0x1EE57, name: "ARABIC MATHEMATICAL TAILED KHAH", aliases: &[] },
        Codepoint { codepoint: 0x1EE59, name: "ARABIC MATHEMATICAL TAILED DAD", aliases: &[] },
        Codepoint { codepoint: 0x1EE5B, name: "ARABIC MATHEMATICAL TAILED GHAIN", aliases: &[] },
        Codepoint { codepoint: 0x1EE5D, name: "ARABIC MATHEMATICAL TAILED DOTLESS NOON", aliases: &[] },
        Codepoint { codepoint: 0x1EE5F, name: "ARABIC MATHEMATICAL TAILED DOTLESS QAF", aliases: &[] },
        Codepoint { codepoint: 0x1EE61, name: "ARABIC MATHEMATICAL STRETCHED BEH", aliases: &[] },
        Codepoint { codepoint: 0x1EE62, name: "ARABIC MATHEMATICAL STRETCHED JEEM", aliases: &[] },
        Codepoint { codepoint: 0x1EE64, name: "ARABIC MATHEMATICAL STRETCHED HEH", aliases: &[] },
        Codepoint { codepoint: 0x1EE67, name: "ARABIC MATHEMATICAL STRETCHED HAH", aliases: &[] },
        Codepoint { codepoint: 0x1EE68, name: "ARABIC MATHEMATICAL STRETCHED TAH", aliases: &[] },
        Codepoint { codepoint: 0x1EE69, name: "ARABIC MATHEMATICAL STRETCHED YEH", aliases: &[] },
        Codepoint { codepoint: 0x1EE6A, name: "ARABIC MATHEMATICAL STRETCHED KAF", aliases: &[] },
        Codepoint { codepoint: 0x1EE6C, name: "ARABIC MATHEMATICAL STRETCHED MEEM", aliases: &[] },
        Codepoint { codepoint: 0x1EE6D, name: "ARABIC MATHEMATICAL STRETCHED NOON", aliases: &[] },
        Codepoint { codepoint: 0x1EE6E, name: "ARABIC MATHEMATICAL STRETCHED SEEN", aliases: &[] },
        Codepoint { codepoint: 0x1EE6F, name: "ARABIC MATHEMATICAL STRETCHED AIN", aliases: &[] },
        Codepoint { codepoint: 0x1EE70, name: "ARABIC MATHEMATICAL STRETCHED FEH", aliases: &[] },
        Codepoint { codepoint: 0x1EE71, name: "ARABIC MATHEMATICAL STRETCHED SAD", aliases: &[] },
        Codepoint { codepoint: 0x1EE72, name: "ARABIC MATHEMATICAL STRETCHED QAF", aliases: &[] },
        Codepoint { codepoint: 0x1EE74, name: "ARABIC MATHEMATICAL STRETCHED SHEEN", aliases: &[] },
        Codepoint { codepoint: 0x1EE75, name: "ARABIC MATHEMATICAL STRETCHED TEH", aliases: &[] },
        Codepoint { codepoint: 0x1EE76, name: "ARABIC MATHEMATICAL STRETCHED THEH", aliases: &[] },
        Codepoint { codepoint: 0x1EE77, name: "ARABIC MATHEMATICAL STRETCHED KHAH", aliases: &[] },
        Codepoint { codepoint: 0x1EE79, name: "ARABIC MATHEMATICAL STRETCHED DAD", aliases: &[] },
        Codepoint { codepoint: 0x1EE7A, name: "ARABIC MATHEMATICAL STRETCHED ZAH", aliases: &[] },
        Codepoint { codepoint: 0x1EE7B, name: "ARABIC MATHEMATICAL STRETCHED GHAIN", aliases: &[] },
        Codepoint { codepoint: 0x1EE7C, name: "ARABIC MATHEMATICAL STRETCHED DOTLESS BEH", aliases: &[] },
        Codepoint { codepoint: 0x1EE7E, name: "ARABIC MATHEMATICAL STRETCHED DOTLESS FEH", aliases: &[] },
        Codepoint { codepoint: 0x1EE80, name: "ARABIC MATHEMATICAL LOOPED ALEF", aliases: &[] },
        Codepoint { codepoint: 0x1EE81, name: "ARABIC MATHEMATICAL LOOPED BEH", aliases: &[] },
        Codepoint { codepoint: 0x1EE82, name: "ARABIC MATHEMATICAL LOOPED JEEM", aliases: &[] },
        Codepoint { codepoint: 0x1EE83, name: "ARABIC MATHEMATICAL LOOPED DAL", aliases: &[] },
        Codepoint { codepoint: 0x1EE84, name: "ARABIC MATHEMATICAL LOOPED HEH", aliases: &[] },
        Codepoint { codepoint: 0x1EE85, name: "ARABIC MATHEMATICAL LOOPED WAW", aliases: &[] },
        Codepoint { codepoint: 0x1EE86, name: "ARABIC MATHEMATICAL LOOPED ZAIN", aliases: &[] },
        Codepoint { codepoint: 0x1EE87, name: "ARABIC MATHEMATICAL LOOPED HAH", aliases: &[] },
    ]
}

fn all_codepoints_778() -> (v: Vec<Codepoint>)
    ensures
        v@ == codepoint_table_778(),
{
    let v = vec![
        Codepoint { codepoint: 0x1EE4F, name: "ARABIC MATHEMATICAL TAILED AIN", aliases: &[] },
        Codepoint { codepoint: 0x1EE51, name: "ARABIC MATHEMATICAL TAILED SAD", aliases: &[] },
        Codepoint { codepoint: 0x1EE52, name: "ARABIC MATHEMATICAL TAILED QAF", aliases: &[] },
        Codepoint { codepoint: 0x1EE54, name: "ARABIC MATHEMATICAL TAILED SHEEN", aliases: &[] },
        Codepoint { codepoint: 0x1EE57, name: "ARABIC MATHEMATICAL TAILED KHAH", aliases: &[] },
        Codepoint { codepoint: 0x1EE59, name: "ARABIC MATHEMATICAL TAILED DAD", aliases: &[] },
        Codepoint { codepoint: 0x1EE5B, name: "ARABIC MATHEMATICAL TAILED GHAIN", aliases: &[] },
        Codepoint { codepoint: 0x1EE5D, name: "ARABIC MATHEMATICAL TAILED DOTLESS NOON", aliases: &[] },
        Codepoint { codepoint: 0x1EE5F, name: "ARABIC MATHEMATICAL TAILED DOTLESS QAF", aliases: &[] },
        Codepoint { codepoint: 0x1EE61, name: "ARABIC MATHEMATICAL STRETCHED BEH", aliases: &[] },
        Codepoint { codepoint: 0x1EE62, name: "ARABIC MATHEMATICAL STRETCHED JEEM", aliases: &[] },
        Codepoint { codepoint: 0x1EE64, name: "ARABIC MATHEMATICAL STRETCHED HEH", aliases: &[] },
        Codepoint { codepoint: 0x1EE67, name: "ARABIC MATHEMATICAL STRETCHED HAH", aliases: &[] },
        Codepoint { codepoint: 0x1EE68, name: "ARABIC MATHEMATICAL STRETCHED TAH", aliases: &[] },
        Codepoint { codepoint: 0x1EE69, name: "ARABIC MATHEMATICAL STRETCHED YEH", aliases: &[] },
        Codepoint { codepoint: 0x1EE6A, name: "ARABIC MATHEMATICAL STRETCHED KAF", aliases: &[] },
        Codepoint { codepoint: 0x1EE6C, name: "ARABIC MATHEMATICAL STRETCHED MEEM", aliases: &[] },
        Codepoint { codepoint: 0x1EE6D, name: "ARABIC MATHEMATICAL STRETCHED NOON", aliases: &[] },
        Codepoint { codepoint: 0x1EE6E, name: "ARABIC MATHEMATICAL STRETCHED SEEN", aliases: &[] },
        Codepoint { codepoint: 0x1EE6F, name: "ARABIC MATHEMATICAL STRETCHED AIN", aliases: &[] },
        Codepoint { codepoint: 0x1EE70, name: "ARABIC MATHEMATICAL STRETCHED FEH", aliases: &[] },
        Codepoint { codepoint: 0x1EE71, name: "ARABIC MATHEMATICAL STRETCHED SAD", aliases: &[] },
        Codepoint { codepoint: 0x1EE72, name: "ARABIC MATHEMATICAL STRETCHED QAF", aliases: &[] },
        Codepoint { codepoint: 0x1EE74, name: "ARABIC MATHEMATICAL STRETCHED SHEEN", aliases: &[] },
        Codepoint { codepoint: 0x1EE75, name: "ARABIC MATHEMATICAL STRETCHED TEH", aliases: &[] },
        Codepoint { codepoint: 0x1EE76, name: "ARABIC MATHEMATICAL STRETCHED THEH", aliases: &[] },
        Codepoint { codepoint: 0x1EE77, name: "ARABIC MATHEMATICAL STRETCHED KHAH", aliases: &[] },
        Codepoint { codepoint: 0x1EE79, name: "ARABIC MATHEMATICAL STRETCHED DAD", aliases: &[] },
        Codepoint { codepoint: 0x1EE7A, name: "ARABIC MATHEMATICAL STRETCHED ZAH", aliases: &[] },
        Codepoint { codepoint: 0x1EE7B, name: "ARABIC MATHEMATICAL STRETCHED GHAIN", aliases: &[] },
        Codepoint { codepoint: 0x1EE7C, name: "ARABIC MATHEMATICAL STRETCHED DOTLESS BEH", aliases: &[] },
        Codepoint { codepoint: 0x1EE7E, name: "ARABIC MATHEMATICAL STRETCHED DOTLESS FEH", aliases: &[] },
        Codepoint { codepoint: 0x1EE80, name: "ARABIC MATHEMATICAL LOOPED ALEF", aliases: &[] },
        Codepoint { codepoint: 0x1EE81, name: "ARABIC MATHEMATICAL LOOPED BEH", aliases: &[] },
        Codepoint { codepoint: 0x1EE82, name: "ARABIC MATHEMATICAL LOOPED JEEM", aliases: &[] },
        Codepoint { codepoint: 0x1EE83, name: "ARABIC MATHEMATICAL LOOPED DAL", aliases: &[] },
        Codepoint { codepoint: 0x1EE84, name: "ARABIC MATHEMATICAL LOOPED HEH", aliases: &[] },
        Codepoint { codepoint: 0x1EE85, name: "ARABIC MATHEMATICAL LOOPED WAW", aliases: &[] },
        Codepoint { codepoint: 0x1EE86, name: "ARABIC MATHEMATICAL LOOPED ZAIN", aliases: &[] },
        Codepoint { codepoint: 0x1EE87, name: "ARABIC MATHEMATICAL LOOPED HAH", aliases: &[] },
    ];
    assert(v@ =~= codepoint_table_778());
    v
}

pub open spec fn codepoint_table_779() -> Seq<Codepoint> {
    seq![
        Codepoint { codepoint: 0x1EE88, name: "ARABIC MATHEMATICAL LOOPED TAH", aliases: &[] },
        Codepoint { codepoint: 0x1EE89, name: "ARABIC MATHEMATICAL LOOPED YEH", aliases: &[] },
        Codepoint { codepoint: 0x1EE8B, name: "ARABIC MATHEMATICAL LOOPED LAM", aliases: &[] },
        Codepoint { codepoint: 0x1EE8C, name: "ARABIC MATHEMATICAL LOOPED MEEM", aliases: &[] },
        Codepoint { codepoint: 0x1EE8D, name: "ARABIC MATHEMATICAL LOOPED NOON", aliases: &[] },
        Codepoint { codepoint: 0x1EE8E, name: "ARABIC MATHEMATICAL LOOPED SEEN", aliases: &[] },
        Codepoint { codepoint: 0x1EE8F, name: "ARABIC MATHEMATICAL LOOPED AIN", aliases: &[] },
        Codepoint { codepoint: 0x1EE90, name: "ARABIC MATHEMATICAL LOOPED FEH", aliases: &[] },
        Codepoint { codepoint: 0x1EE91, name: "ARABIC MATHEMATICAL LOOPED SAD", aliases: &[] },
        Codepoint { codepoint: 0x1EE92, name: "ARABIC MATHEMATICAL LOOPED QAF", aliases: &[] },
        Codepoint { codepoint: 0x1EE93, name: "ARABIC MATHEMATICAL LOOPED REH", aliases: &[] },
        Codepoint { codepoint: 0x1EE94, name: "ARABIC MATHEMATICAL LOOPED SHEEN", aliases: &[] },
        Codepoint { codepoint: 0x1EE95, name: "ARABIC MATHEMATICAL LOOPED TEH", aliases: &[] },
        Codepoint { codepoint: 0x1EE96, name: "ARABIC MATHEMATICAL LOOPED THEH", aliases: &[] },
        Codepoint { codepoint: 0x1EE97, name: "ARABIC MATHEMATICAL LOOPED KHAH", aliases: &[] },
        Codepoint { codepoint: 0x1EE98, name: "ARABIC MATHEMATICAL LOOPED THAL", aliases: &[] },
        Codepoint { codepoint: 0x1EE99, name: "ARABIC MATHEMATICAL LOOPED DAD", aliases: &[] },
        Codepoint { codepoint: 0x1EE9A, name: "ARABIC MATHEMATICAL LOOPED ZAH", aliases: &[] },
        Codepoint { codepoint: 0x1EE9B, name: "ARABIC MATHEMATICAL LOOPED GHAIN", aliases: &[] },
        Codepoint { codepoint: 0x1EEA1, name: "ARABIC MATHEMATICAL DOUBLE-STRUCK BEH", aliases: &[] },
        Codepoint { codepoint: 0x1EEA2, name: "ARABIC MATHEMATICAL DOUBLE-STRUCK JEEM", aliases: &[] },
        Codepoint { codepoint: 0x1EEA3, name: "ARABIC MATHEMATICAL DOUBLE-STRUCK DAL", aliases: &[] },
        Codepoint { codepoint: 0x1EEA5, name: "ARABIC MATHEMATICAL DOUBLE-STRUCK WAW", aliases: &[] },
        Codepoint { codepoint: 0x1EEA6, name: "ARABIC MATHEMATICAL DOUBLE-STRUCK ZAIN", aliases: &[] },
        Codepoint { codepoint: 0x1EEA7, name: "ARABIC MATHEMATICAL DOUBLE-STRUCK HAH", aliases: &[] },
        Codepoint { codepoint: 0x1EEA8, name: "ARABIC MATHEMATICAL DOUBLE-STRUCK TAH", aliases: &[] },
        Codepoint { codepoint: 0x1EEA9, name: "ARABIC MATHEMATICAL DOUBLE-STRUCK YEH", aliases: &[] },
        Codepoint { codepoint: 0x1EEAB, name: "ARABIC MATHEMATICAL DOUBLE-STRUCK LAM", aliases: &[] },
        Codepoint { codepoint: 0x1EEAC, name: "ARABIC MATHEMATICAL DOUBLE-STRUCK MEEM", aliases: &[] },
        Codepoint { codepoint: 0x1EEAD, name: "ARABIC MATHEMATICAL DOUBLE-STRUCK NOON", aliases: &[] },
        Codepoint { codepoint: 0x1EEAE, name: "ARABIC MATHEMATICAL DOUBLE-STRUCK SEEN", aliases: &[] },
        Codepoint { codepoint: 0x1EEAF, name: "ARABIC MATHEMATICAL DOUBLE-STRUCK AIN", aliases: &[] },
        Codepoint { codepoint: 0x1EEB0, name: "ARABIC MATHEMATICAL DOUBLE-STRUCK FEH", aliases: &[] },
        Codepoint { codepoint: 0x1EEB1, name: "ARABIC MATHEMATICAL DOUBLE-STRUCK SAD", aliases: &[] },
        Codepoint { codepoint: 0x1EEB2, name: "ARABIC MATHEMATICAL DOUBLE-STRUCK QAF", aliases: &[] },
        Codepoint { codepoint: 0x1EEB3, name: "ARABIC MATHEMATICAL DOUBLE-STRUCK REH", aliases: &[] },
        Codepoint { codepoint: 0x1EEB4, name: "ARABIC MATHEMATICAL DOUBLE-STRUCK SHEEN", aliases: &[] },
        Codepoint { codepoint: 0x1EEB5, name: "ARABIC MATHEMATICAL DOUBLE-STRUCK TEH", aliases: &[] },
        Codepoint { codepoint: 0x1EEB6, name: "ARABIC MATHEMATICAL DOUBLE-STRUCK THEH", aliases: &[] },
        Codepoint { codepoint: 0x1EEB7, name: "ARABIC MATHEMATICAL DOUBLE-STRUCK KHAH", aliases: &[] },
    ]
}

fn all_codepoints_779() -> (v: Vec<Codepoint>)
    ensures
        v@ == codepoint_table_779(),
{
    let v = vec![
        Codepoint { codepoint: 0x1EE88, name: "ARABIC MATHEMATICAL LOOPED TAH", aliases: &[] },
        Codepoint { codepoint: 0x1EE89, name: "ARABIC MATHEMATICAL LOOPED YEH", aliases: &[] },
        Codepoint { codepoint: 0x1EE8B, name: "ARABIC MATHEMATICAL LOOPED LAM", aliases: &[] },
        Codepoint { codepoint: 0x1EE8C, name: "ARABIC MATHEMATICAL LOOPED MEEM", aliases: &[] },
        Codepoint { codepoint: 0x1EE8D, name: "ARABIC MATHEMATICAL LOOPED NOON", aliases: &[] },
        Codepoint { codepoint: 0x1EE8E, name: "ARABIC MATHEMATICAL LOOPED SEEN", aliases: &[] },
        Codepoint { codepoint: 0x1EE8F, name: "ARABIC MATHEMATICAL LOOPED AIN", aliases: &[] },
        Codepoint { codepoint: 0x1EE90, name: "ARABIC MATHEMATICAL LOOPED FEH", aliases: &[] },
        Codepoint { codepoint: 0x1EE91, name: "ARABIC MATHEMATICAL LOOPED SAD", aliases: &[] },
        Codepoint { codepoint: 0x1EE92, name: "ARABIC MATHEMATICAL LOOPED QAF", aliases: &[] },
        Codepoint { codepoint: 0x1EE93, name: "ARABIC MATHEMATICAL LOOPED REH", aliases: &[] },
        Codepoint { codepoint: 0x1EE94, name: "ARABIC MATHEMATICAL LOOPED SHEEN", aliases: &[] },
        Codepoint { codepoint: 0x1EE95, name: "ARABIC MATHEMATICAL LOOPED TEH", aliases: &[] },
        Codepoint { codepoint: 0x1EE96, name: "ARABIC MATHEMATICAL LOOPED THEH", aliases: &[] },
        Codepoint { codepoint: 0x1EE97, name: "ARABIC MATHEMATICAL LOOPED KHAH", aliases: &[] },
        Codepoint { codepoint: 0x1EE98, name: "ARABIC MATHEMATICAL LOOPED THAL", aliases: &[] },
        Codepoint { codepoint: 0x1EE99, name: "ARABIC MATHEMATICAL LOOPED DAD", aliases: &[] },
        Codepoint { codepoint: 0x1EE9A, name: "ARABIC MATHEMATICAL LOOPED ZAH", aliases: &[] },
        Codepoint { codepoint: 0x1EE9B, name: "ARABIC MATHEMATICAL LOOPED GHAIN", aliases: &[] },
        Codepoint { codepoint: 0x1EEA1, name: "ARABIC MATHEMATICAL DOUBLE-STRUCK BEH", aliases: &[] },
        Codepoint { codepoint: 0x1EEA2, name: "ARABIC MATHEMATICAL DOUBLE-STRUCK JEEM", aliases: &[] },
        Codepoint { codepoint: 0x1EEA3, name: "ARABIC MATHEMATICAL DOUBLE-STRUCK DAL", aliases: &[] },
        Codepoint { codepoint: 0x1EEA5, name: "ARABIC MATHEMATICAL DOUBLE-STRUCK WAW", aliases: &[] },
        Codepoint { codepoint: 0x1EEA6, name: "ARABIC MATHEMATICAL DOUBLE-STRUCK ZAIN", aliases: &[] },
        Codepoint { codepoint: 0x1EEA7, name: "ARABIC MATHEMATICAL DOUBLE-STRUCK HAH", aliases: &[] },
        Codepoint { codepoint: 0x1EEA8, name: "ARABIC MATHEMATICAL DOUBLE-STRUCK TAH", aliases: &[] },
        Codepoint { codepoint: 0x1EEA9, name: "ARABIC MATHEMATICAL DOUBLE-STRUCK YEH", aliases: &[] },
        Codepoint { codepoint: 0x1EEAB, name: "ARABIC MATHEMATICAL DOUBLE-STRUCK LAM", aliases: &[] },
        Codepoint { codepoint: 0x1EEAC, name: "ARABIC MATHEMATICAL DOUBLE-STRUCK MEEM", aliases: &[] },
        Codepoint { codepoint: 0x1EEAD, name: "ARABIC MATHEMATICAL DOUBLE-STRUCK NOON", aliases: &[] },
        Codepoint { codepoint: 0x1EEAE, name: "ARABIC MATHEMATICAL DOUBLE-STRUCK SEEN", aliases: &[] },
        Codepoint { codepoint: 0x1EEAF, name: "ARABIC MATHEMATICAL DOUBLE-STRUCK AIN", aliases: &[] },
        Codepoint { codepoint: 0x1EEB0, name: "ARABIC MATHEMATICAL DOUBLE-STRUCK FEH", aliases: &[] },
        Codepoint { codepoint: 0x1EEB1, name: "ARABIC MATHEMATICAL DOUBLE-STRUCK SAD", aliases: &[] },
        Codepoint { codepoint: 0x1EEB2, name: "ARABIC MATHEMATICAL DOUBLE-STRUCK QAF", aliases: &[] },
        Codepoint { codepoint: 0x1EEB3, name: "ARABIC MATHEMATICAL DOUBLE-STRUCK REH", aliases: &[] },
        Codepoint { codepoint: 0x1EEB4, name: "ARABIC MATHEMATICAL DOUBLE-STRUCK SHEEN", aliases: &[] },
        Codepoint { codepoint: 0x1EEB5, name: "ARABIC MATHEMATICAL DOUBLE-STRUCK TEH", aliases: &[] },
        Codepoint { codepoint: 0x1EEB6, name: "ARABIC MATHEMATICAL DOUBLE-STRUCK THEH", aliases: &[] },
        Codepoint { codepoint: 0x1EEB7, name: "ARABIC MATHEMATICAL DOUBLE-STRUCK KHAH", aliases: &[] },
    ];
    assert(v@ =~= codepoint_table_779());
    v
}

/// The entries from position 30400 of the table, 800 at most.
pub open spec fn codepoint_group_38() -> Seq<Codepoint> {
    codepoint_table_760() + codepoint_table_761() + codepoint_table_762() + codepoint_table_763() + codepoint_table_764() + codepoint_table_765() + codepoint_table_766() + codepoint_table_767() + codepoint_table_768() + codepoint_table_769() + codepoint_table_770() + codepoint_table_771() + codepoint_table_772() + codepoint_table_773() + codepoint_table_774() + codepoint_table_775() + codepoint_table_776() + codepoint_table_777() + codepoint_table_778() + codepoint_table_779()
}

pub fn all_codepoints_group_38() -> (v: Vec<Codepoint>)
    ensures
        v@ == codepoint_group_38(),
{
    let mut v = all_codepoints_760();
    let mut part = all_codepoints_761();
    v.append(&mut part);
    let mut part = all_codepoints_762();
    v.append(&mut part);
    let mut part = all_codepoints_763();
    v.append(&mut part);
    let mut part = all_codepoints_764();
    v.append(&mut part);
    let mut part = all_codepoints_765();
    v.append(&mut part);
    let mut part = all_codepoints_766();
    v.append(&mut part);
    let mut part = all_codepoints_767();
    v.append(&mut part);
    let mut part = all_codepoints_768();
    v.append(&mut part);
    let mut part = all_codepoints_769();
    v.append(&mut part);
    let mut part = all_codepoints_770();
    v.append(&mut part);
    let mut part = all_codepoints_771();
    v.append(&mut part);
    let mut part = all_codepoints_772();
    v.append(&mut part);
    let mut part = all_codepoints_773();
    v.append(&mut part);
    let mut part = all_codepoints_774();
    v.append(&mut part);
    let mut part = all_codepoints_775();
    v.append(&mut part);
    let mut part = all_codepoints_776();
    v.append(&mut part);
    let mut part = all_codepoints_777();
    v.append(&mut part);
    let mut part = all_codepoints_778();
    v.append(&mut part);
    let mut part = all_codepoints_779();
    v.append(&mut part);
    v
}

pub open spec fn codepoint_table_780() -> Seq<Codepoint> {
    seq![
        Codepoint { codepoint: 0x1EEB8, name: "ARABIC MATHEMATICAL DOUBLE-STRUCK THAL", aliases: &[] },
        Codepoint { codepoint: 0x1EEB9, name: "ARABIC MATHEMATICAL DOUBLE-STRUCK DAD", aliases: &[] },
        Codepoint { codepoint: 0x1EEBA, name: "ARABIC MATHEMATICAL DOUBLE-STRUCK ZAH", aliases: &[] },
        Codepoint { codepoint: 0x1EEBB, name: "ARABIC MATHEMATICAL DOUBLE-STRUCK GHAIN", aliases: &[] },
        Codepoint { codepoint: 0x1EEF0, name: "ARABIC MATHEMATICAL OPERATOR MEEM WITH HAH WITH TATWEEL", aliases: &[] },
        Codepoint { codepoint: 0x1EEF1, name: "ARABIC MATHEMATICAL OPERATOR HAH WITH DAL", aliases: &[] },
        Codepoint { codepoint: 0x1F000, name: "MAHJONG TILE EAST WIND", aliases: &[] },
        Codepoint { codepoint: 0x1F001, name: "MAHJONG TILE SOUTH WIND", aliases: &[] },
        Codepoint { codepoint: 0x1F002, name: "MAHJONG TILE WEST WIND", aliases: &[] },
        Codepoint { codepoint: 0x1F003, name: "MAHJONG TILE NORTH WIND", aliases: &[] },
        Codepoint { codepoint: 0x1F004, name: "MAHJONG TILE RED DRAGON", aliases: &[] },
        Codepoint { codepoint: 0x1F005, name: "MAHJONG TILE GREEN DRAGON", aliases: &[] },
        Codepoint { codepoint: 0x1F006, name: "MAHJONG TILE WHITE DRAGON", aliases: &[] },
        Codepoint { codepoint: 0x1F007, name: "MAHJONG TILE ONE OF CHARACTERS", aliases: &[] },
        Codepoint { codepoint: 0x1F008, name: "MAHJONG TILE TWO OF CHARACTERS", aliases: &[] },
        Codepoint { codepoint: 0x1F009, name: "MAHJONG TILE THREE OF CHARACTERS", aliases: &[] },
        Codepoint { codepoint: 0x1F00A, name: "MAHJONG TILE FOUR OF CHARACTERS", aliases: &[] },
        Codepoint { codepoint: 0x1F00B, name: "MAHJONG TILE FIVE OF CHARACTERS", aliases: &[] },
        Codepoint { codepoint: 0x1F00C, name: "MAHJONG TILE SIX OF CHARACTERS", aliases: &[] },
        Codepoint { codepoint: 0x1F00D, name: "MAHJONG TILE SEVEN OF CHARACTERS", aliases: &[] },
        Codepoint { codepoint: 0x1F00E, name: "MAHJONG TILE EIGHT OF CHARACTERS", aliases: &[] },
        Codepoint { codepoint: 0x1F00F, name: "MAHJONG TILE NINE OF CHARACTERS", aliases: &[] },
        Codepoint { codepoint: 0x1F010, name: "MAHJONG TILE ONE OF BAMBOOS", aliases: &[] },
        Codepoint { codepoint: 0x1F011, name: "MAHJONG TILE TWO OF BAMBOOS", aliases: &[] },
        Codepoint { codepoint: 0x1F012, name: "MAHJONG TILE THREE OF BAMBOOS", aliases: &[] },
        Codepoint { codepoint: 0x1F013, name: "MAHJONG TILE FOUR OF BAMBOOS", aliases: &[] },
        Codepoint { codepoint: 0x1F014, name: "MAHJONG TILE FIVE OF BAMBOOS", aliases: &[] },
        Codepoint { codepoint: 0x1F015, name: "MAHJONG TILE SIX OF BAMBOOS", aliases: &[] },
        Codepoint { codepoint: 0x1F016, name: "MAHJONG TILE SEVEN OF BAMBOOS", aliases: &[] },
        Codepoint { codepoint: 0x1F017, name: "MAHJONG TILE EIGHT OF BAMBOOS", aliases: &[] },
        Codepoint { codepoint: 0x1F018, name: "MAHJONG TILE NINE OF BAMBOOS", aliases: &[] },
        Codepoint { codepoint: 0x1F019, name: "MAHJONG TILE ONE OF CIRCLES", aliases: &[] },
        Codepoint { codepoint: 0x1F01A, name: "MAHJONG TILE TWO OF CIRCLES", aliases: &[] },
        Codepoint { codepoint: 0x1F01B, name: "MAHJONG TILE THREE OF CIRCLES", aliases: &[] },
        Codepoint { codepoint: 0x1F01C, name: "MAHJONG TILE FOUR OF CIRCLES", aliases: &[] },
        Codepoint { codepoint: 0x1F01D, name: "MAHJONG TILE FIVE OF CIRCLES", aliases: &[] },
        Codepoint { codepoint: 0x1F01E, name: "MAHJONG TILE SIX OF CIRCLES", aliases: &[] },
        Codepoint { codepoint: 0x1F01F, name: "MAHJONG TILE SEVEN OF CIRCLES", aliases: &[] },
        Codepoint { codepoint: 0x1F020, name: "MAHJONG TILE EIGHT OF CIRCLES", aliases: &[] },
        Codepoint { codepoint: 0x1F021, name: "MAHJONG TILE NINE OF CIRCLES", aliases: &[] },
    ]
}

fn all_codepoints_780() -> (v: Vec<Codepoint>)
    ensures
        v@ == codepoint_table_780(),
{
    let v = vec![
        Codepoint { codepoint: 0x1EEB8, name: "ARABIC MATHEMATICAL DOUBLE-STRUCK THAL", aliases: &[] },
        Codepoint { codepoint: 0x1EEB9, name: "ARABIC MATHEMATICAL DOUBLE-STRUCK DAD", aliases: &[] },
        Codepoint { codepoint: 0x1EEBA, name: "ARABIC MATHEMATICAL DOUBLE-STRUCK ZAH", aliases: &[] },
        Codepoint { codepoint: 0x1EEBB, name: "ARABIC MATHEMATICAL DOUBLE-STRUCK GHAIN", aliases: &[] },
        Codepoint { codepoint: 0x1EEF0, name: "ARABIC MATHEMATICAL OPERATOR MEEM WITH HAH WITH TATWEEL", aliases: &[] },
        Codepoint { codepoint: 0x1EEF1, name: "ARABIC MATHEMATICAL OPERATOR HAH WITH DAL", aliases: &[] },
        Codepoint { codepoint: 0x1F000, name: "MAHJONG TILE EAST WIND", aliases: &[] },
        Codepoint { codepoint: 0x1F001, name: "MAHJONG TILE SOUTH WIND", aliases: &[] },
        Codepoint { codepoint: 0x1F002, name: "MAHJONG TILE WEST WIND", aliases: &[] },
        Codepoint { codepoint: 0x1F003, name: "MAHJONG TILE NORTH WIND", aliases: &[] },
        Codepoint { codepoint: 0x1F004, name: "MAHJONG TILE RED DRAGON", aliases: &[] },
        Codepoint { codepoint: 0x1F005, name: "MAHJONG TILE GREEN DRAGON", aliases: &[] },
        Codepoint { codepoint: 0x1F006, name: "MAHJONG TILE WHITE DRAGON", aliases: &[] },
        Codepoint { codepoint: 0x1F007, name: "MAHJONG TILE ONE OF CHARACTERS", aliases: &[] },
        Codepoint { codepoint: 0x1F008, name: "MAHJONG TILE TWO OF CHARACTERS", aliases: &[] },
        Codepoint { codepoint: 0x1F009, name: "MAHJONG TILE THREE OF CHARACTERS", aliases: &[] },
        Codepoint { codepoint: 0x1F00A, name: "MAHJONG TILE FOUR OF CHARACTERS", aliases: &[] },
        Codepoint { codepoint: 0x1F00B, name: "MAHJONG TILE FIVE OF CHARACTERS", aliases: &[] },
        Codepoint { codepoint: 0x1F00C, name: "MAHJONG TILE SIX OF CHARACTERS", aliases: &[] },
        Codepoint { codepoint: 0x1F00D, name: "MAHJONG TILE SEVEN OF CHARACTERS", aliases: &[] },
        Codepoint { codepoint: 0x1F00E, name: "MAHJONG TILE EIGHT OF CHARACTERS", aliases: &[] },
        Codepoint { codepoint: 0x1F00F, name: "MAHJONG TILE NINE OF CHARACTERS", aliases: &[] },
        Codepoint { codepoint: 0x1F010, name: "MAHJONG TILE ONE OF BAMBOOS", aliases: &[] },
        Codepoint { codepoint: 0x1F011, name: "MAHJONG TILE TWO OF BAMBOOS", aliases: &[] },
        Codepoint { codepoint: 0x1F012, name: "MAHJONG TILE THREE OF BAMBOOS", aliases: &[] },
        Codepoint { codepoint: 0x1F013, name: "MAHJONG TILE FOUR OF BAMBOOS", aliases: &[] },
        Codepoint { codepoint: 0x1F014, name: "MAHJONG TILE FIVE OF BAMBOOS", aliases: &[] },
        Codepoint { codepoint: 0x1F015, name: "MAHJONG TILE SIX OF BAMBOOS", aliases: &[] },
        Codepoint { codepoint: 0x1F016, name: "MAHJONG TILE SEVEN OF BAMBOOS", aliases: &[] },
        Codepoint { codepoint: 0x1F017, name: "MAHJONG TILE EIGHT OF BAMBOOS", aliases: &[] },
        Codepoint { codepoint: 0x1F018, name: "MAHJONG TILE NINE OF BAMBOOS", aliases: &[] },
        Codepoint { codepoint: 0x1F019, name: "MAHJONG TILE ONE OF CIRCLES", aliases: &[] },
        Codepoint { codepoint: 0x1F01A, name: "MAHJONG TILE TWO OF CIRCLES", aliases: &[] },
        Codepoint { codepoint: 0x1F01B, name: "MAHJONG TILE THREE OF CIRCLES", aliases: &[] },
        Codepoint { codepoint: 0x1F01C, name: "MAHJONG TILE FOUR OF CIRCLES", aliases: &[] },
        Codepoint { codepoint: 0x1F01D, name: "MAHJONG TILE FIVE OF CIRCLES", aliases: &[] },
        Codepoint { codepoint: 0x1F01E, name: "MAHJONG TILE SIX OF CIRCLES", aliases: &[] },
        Codepoint { codepoint: 0x1F01F, name: "MAHJONG TILE SEVEN OF CIRCLES", aliases: &[] },
        Codepoint { codepoint: 0x1F020, name: "MAHJONG TILE EIGHT OF CIRCLES", aliases: &[] },
        Codepoint { codepoint: 0x1F021, name: "MAHJONG TILE NINE OF CIRCLES", aliases: &[] },
    ];
    assert(v@ =~= codepoint_table_780());
    v
}

pub open spec fn codepoint_table_781() -> Seq<Codepoint> {
    seq![
        Codepoint { codepoint: 0x1F022, name: "MAHJONG TILE PLUM", aliases: &[] },
        Codepoint { codepoint: 0x1F023, name: "MAHJONG TILE ORCHID", aliases: &[] },
        Codepoint { codepoint: 0x1F024, name: "MAHJONG TILE BAMBOO", aliases: &[] },
        Codepoint { codepoint: 0x1F025, name: "MAHJONG TILE CHRYSANTHEMUM", aliases: &[] },
        Codepoint { codepoint: 0x1F026, name: "MAHJONG TILE SPRING", aliases: &[] },
        Codepoint { codepoint: 0x1F027, name: "MAHJONG TILE SUMMER", aliases: &[] },
        Codepoint { codepoint: 0x1F028, name: "MAHJONG TILE AUTUMN", aliases: &[] },
        Codepoint { codepoint: 0x1F029, name: "MAHJONG TILE WINTER", aliases: &[] },
        Codepoint { codepoint: 0x1F02A, name: "MAHJONG TILE JOKER", aliases: &[] },
        Codepoint { codepoint: 0x1F02B, name: "MAHJONG TILE BACK", aliases: &[] },
        Codepoint { codepoint: 0x1F030, name: "DOMINO TILE HORIZONTAL BACK", aliases: &[] },
        Codepoint { codepoint: 0x1F031, name: "DOMINO TILE HORIZONTAL-00-00", aliases: &[] },
        Codepoint { codepoint: 0x1F032, name: "DOMINO TILE HORIZONTAL-00-01", aliases: &[] },
        Codepoint { codepoint: 0x1F033, name: "DOMINO TILE HORIZONTAL-00-02", aliases: &[] },
        Codepoint { codepoint: 0x1F034, name: "DOMINO TILE HORIZONTAL-00-03", aliases: &[] },
        Codepoint { codepoint: 0x1F035, name: "DOMINO TILE HORIZONTAL-00-04", aliases: &[] },
        Codepoint { codepoint: 0x1F036, name: "DOMINO TILE HORIZONTAL-00-05", aliases: &[] },
        Codepoint { codepoint: 0x1F037, name: "DOMINO TILE HORIZONTAL-00-06", aliases: &[] },
        Codepoint { codepoint: 0x1F038, name: "DOMINO TILE HORIZONTAL-01-00", aliases: &[] },
        Codepoint { codepoint: 0x1F039, name: "DOMINO TILE HORIZONTAL-01-01", aliases: &[] },
        Codepoint { codepoint: 0x1F03A, name: "DOMINO TILE HORIZONTAL-01-02", aliases: &[] },
        Codepoint { codepoint: 0x1F03B, name: "DOMINO TILE HORIZONTAL-01-03", aliases: &[] },
        Codepoint { codepoint: 0x1F03C, name: "DOMINO TILE HORIZONTAL-01-04", aliases: &[] },
        Codepoint { codepoint: 0x1F03D, name: "DOMINO TILE HORIZONTAL-01-05", aliases: &[] },
        Codepoint { codepoint: 0x1F03E, name: "DOMINO TILE HORIZONTAL-01-06", aliases: &[] },
        Codepoint { codepoint: 0x1F03F, name: "DOMINO TILE HORIZONTAL-02-00", aliases: &[] },
        Codepoint { codepoint: 0x1F040, name: "DOMINO TILE HORIZONTAL-02-01", aliases: &[] },
        Codepoint { codepoint: 0x1F041, name: "DOMINO TILE HORIZONTAL-02-02", aliases: &[] },
        Codepoint { codepoint: 0x1F042, name: "DOMINO TILE HORIZONTAL-02-03", aliases: &[] },
        Codepoint { codepoint: 0x1F043, name: "DOMINO TILE HORIZONTAL-02-04", aliases: &[] },
        Codepoint { codepoint: 0x1F044, name: "DOMINO TILE HORIZONTAL-02-05", aliases: &[] },
        Codepoint { codepoint: 0x1F045, name: "DOMINO TILE HORIZONTAL-02-06", aliases: &[] },
        Codepoint { codepoint: 0x1F046, name: "DOMINO TILE HORIZONTAL-03-00", aliases: &[] },
        Codepoint { codepoint: 0x1F047, name: "DOMINO TILE HORIZONTAL-03-01", aliases: &[] },
        Codepoint { codepoint: 0x1F048, name: "DOMINO TILE HORIZONTAL-03-02", aliases: &[] },
        Codepoint { codepoint: 0x1F049, name: "DOMINO TILE HORIZONTAL-03-03", aliases: &[] },
        Codepoint { codepoint: 0x1F04A, name: "DOMINO TILE HORIZONTAL-03-04", aliases: &[] },
        Codepoint { codepoint: 0x1F04B, name: "DOMINO TILE HORIZONTAL-03-05", aliases: &[] },
        Codepoint { codepoint: 0x1F04C, name: "DOMINO TILE HORIZONTAL-03-06", aliases: &[] },
        Codepoint { codepoint: 0x1F04D, name: "DOMINO TILE HORIZONTAL-04-00", aliases: &[] },
    ]
}

fn all_codepoints_781() -> (v: Vec<Codepoint>)
    ensures
        v@ == codepoint_table_781(),
{
    let v = vec![
        Codepoint { codepoint: 0x1F022, name: "MAHJONG TILE PLUM", aliases: &[] },
        Codepoint { codepoint: 0x1F023, name: "MAHJONG TILE ORCHID", aliases: &[] },
        Codepoint { codepoint: 0x1F024, name: "MAHJONG TILE BAMBOO", aliases: &[] },
        Codepoint { codepoint: 0x1F025, name: "MAHJONG TILE CHRYSANTHEMUM", aliases: &[] },
        Codepoint { codepoint: 0x1F026, name: "MAHJONG TILE SPRING", aliases: &[] },
        Codepoint { codepoint: 0x1F027, name: "MAHJONG TILE SUMMER", aliases: &[] },
        Codepoint { codepoint: 0x1F028, name: "MAHJONG TILE AUTUMN", aliases: &[] },
        Codepoint { codepoint: 0x1F029, name: "MAHJONG TILE WINTER", aliases: &[] },
        Codepoint { codepoint: 0x1F02A, name: "MAHJONG TILE JOKER", aliases: &[] },
        Codepoint { codepoint: 0x1F02B, name: "MAHJONG TILE BACK", aliases: &[] },
        Codepoint { codepoint: 0x1F030, name: "DOMINO TILE HORIZONTAL BACK", aliases: &[] },
        Codepoint { codepoint: 0x1F031, name: "DOMINO TILE HORIZONTAL-00-00", aliases: &[] },
        Codepoint { codepoint: 0x1F032, name: "DOMINO TILE HORIZONTAL-00-01", aliases: &[] },
        Codepoint { codepoint: 0x1F033, name: "DOMINO TILE HORIZONTAL-00-02", aliases: &[] },
        Codepoint { codepoint: 0x1F034, name: "DOMINO TILE HORIZONTAL-00-03", aliases: &[] },
        Codepoint { codepoint: 0x1F035, name: "DOMINO TILE HORIZONTAL-00-04", aliases: &[] },
        Codepoint { codepoint: 0x1F036, name: "DOMINO TILE HORIZONTAL-00-05", aliases: &[] },
        Codepoint { codepoint: 0x1F037, name: "DOMINO TILE HORIZONTAL-00-06", aliases: &[] },
        Codepoint { codepoint: 0x1F038, name: "DOMINO TILE HORIZONTAL-01-00", aliases: &[] },
        Codepoint { codepoint: 0x1F039, name: "DOMINO TILE HORIZONTAL-01-01", aliases: &[] },
        Codepoint { codepoint: 0x1F03A, name: "DOMINO TILE HORIZONTAL-01-02", aliases: &[] },
        Codepoint { codepoint: 0x1F03B, name: "DOMINO TILE HORIZONTAL-01-03", aliases: &[] },
        Codepoint { codepoint: 0x1F03C, name: "DOMINO TILE HORIZONTAL-01-04", aliases: &[] },
        Codepoint { codepoint: 0x1F03D, name: "DOMINO TILE HORIZONTAL-01-05", aliases: &[] },
        Codepoint { codepoint: 0x1F03E, name: "DOMINO TILE HORIZONTAL-01-06", aliases: &[] },
        Codepoint { codepoint: 0x1F03F, name: "DOMINO TILE HORIZONTAL-02-00", aliases: &[] },
        Codepoint { codepoint: 0x1F040, name: "DOMINO TILE HORIZONTAL-02-01", aliases: &[] },
        Codepoint { codepoint: 0x1F041, name: "DOMINO TILE HORIZONTAL-02-02", aliases: &[] },
        Codepoint { codepoint: 0x1F042, name: "DOMINO TILE HORIZONTAL-02-03", aliases: &[] },
        Codepoint { codepoint: 0x1F043, name: "DOMINO TILE HORIZONTAL-02-04", aliases: &[] },
        Codepoint { codepoint: 0x1F044, name: "DOMINO TILE HORIZONTAL-02-05", aliases: &[] },
        Codepoint { codepoint: 0x1F045, name: "DOMINO TILE HORIZONTAL-02-06", aliases: &[] },
        Codepoint { codepoint: 0x1F046, name: "DOMINO TILE HORIZONTAL-03-00", aliases: &[] },
        Codepoint { codepoint: 0x1F047, name: "DOMINO TILE HORIZONTAL-03-01", aliases: &[] },
        Codepoint { codepoint: 0x1F048, name: "DOMINO TILE HORIZONTAL-03-02", aliases: &[] },
        Codepoint { codepoint: 0x1F049, name: "DOMINO TILE HORIZONTAL-03-03", aliases: &[] },
        Codepoint { codepoint: 0x1F04A, name: "DOMINO TILE HORIZONTAL-03-04", aliases: &[] },
        Codepoint { codepoint: 0x1F04B, name: "DOMINO TILE HORIZONTAL-03-05", aliases: &[] },
        Codepoint { codepoint: 0x1F04C, name: "DOMINO TILE HORIZONTAL-03-06", aliases: &[] },
        Codepoint { codepoint: 0x1F04D, name: "DOMINO TILE HORIZONTAL-04-00", aliases: &[] },
    ];
    assert(v@ =~= codepoint_table_781());
    v
}

pub open spec fn codepoint_table_782() -> Seq<Codepoint> {
    seq![
        Codepoint { codepoint: 0x1F04E, name: "DOMINO TILE HORIZONTAL-04-01", aliases: &[] },
        Codepoint { codepoint: 0x1F04F, name: "DOMINO TILE HORIZONTAL-04-02", aliases: &[] },
        Codepoint { codepoint: 0x1F050, name: "DOMINO TILE HORIZONTAL-04-03", aliases: &[] },
        Codepoint { codepoint: 0x1F051, name: "DOMINO TILE HORIZONTAL-04-04", aliases: &[] },
        Codepoint { codepoint: 0x1F052, name: "DOMINO TILE HORIZONTAL-04-05", aliases: &[] },
        Codepoint { codepoint: 0x1F053, name: "DOMINO TILE HORIZONTAL-04-06", aliases: &[] },
        Codepoint { codepoint: 0x1F054, name: "DOMINO TILE HORIZONTAL-05-00", aliases: &[] },
        Codepoint { codepoint: 0x1F055, name: "DOMINO TILE HORIZONTAL-05-01", aliases: &[] },
        Codepoint { codepoint: 0x1F056, name: "DOMINO TILE HORIZONTAL-05-02", aliases: &[] },
        Codepoint { codepoint: 0x1F057, name: "DOMINO TILE HORIZONTAL-05-03", aliases: &[] },
        Codepoint { codepoint: 0x1F058, name: "DOMINO TILE HORIZONTAL-05-04", aliases: &[] },
        Codepoint { codepoint: 0x1F059, name: "DOMINO TILE HORIZONTAL-05-05", aliases: &[] },
        Codepoint { codepoint: 0x1F05A, name: "DOMINO TILE HORIZONTAL-05-06", aliases: &[] },
        Codepoint { codepoint: 0x1F05B, name: "DOMINO TILE HORIZONTAL-06-00", aliases: &[] },
        Codepoint { codepoint: 0x1F05C, name: "DOMINO TILE HORIZONTAL-06-01", aliases: &[] },
        Codepoint { codepoint: 0x1F05D, name: "DOMINO TILE HORIZONTAL-06-02", aliases: &[] },
        Codepoint { codepoint: 0x1F05E, name: "DOMINO TILE HORIZONTAL-06-03", aliases: &[] },
        Codepoint { codepoint: 0x1F05F, name: "DOMINO TILE HORIZONTAL-06-04", aliases: &[] },
        Codepoint { codepoint: 0x1F060, name: "DOMINO TILE HORIZONTAL-06-05", aliases: &[] },
        Codepoint { codepoint: 0x1F061, name: "DOMINO TILE HORIZONTAL-06-06", aliases: &[] },
        Codepoint { codepoint: 0x1F062, name: "DOMINO TILE VERTICAL BACK", aliases: &[] },
        Codepoint { codepoint: 0x1F063, name: "DOMINO TILE VERTICAL-00-00", aliases: &[] },
        Codepoint { codepoint: 0x1F064, name: "DOMINO TILE VERTICAL-00-01", aliases: &[] },
        Codepoint { codepoint: 0x1F065, name: "DOMINO TILE VERTICAL-00-02", aliases: &[] },
        Codepoint { codepoint: 0x1F066, name: "DOMINO TILE VERTICAL-00-03", aliases: &[] },
        Codepoint { codepoint: 0x1F067, name: "DOMINO TILE VERTICAL-00-04", aliases: &[] },
        Codepoint { codepoint: 0x1F068, name: "DOMINO TILE VERTICAL-00-05", aliases: &[] },
        Codepoint { codepoint: 0x1F069, name: "DOMINO TILE VERTICAL-00-06", aliases: &[] },
        Codepoint { codepoint: 0x1F06A, name: "DOMINO TILE VERTICAL-01-00", aliases: &[] },
        Codepoint { codepoint: 0x1F06B, name: "DOMINO TILE VERTICAL-01-01", aliases: &[] },
        Codepoint { codepoint: 0x1F06C, name: "DOMINO TILE VERTICAL-01-02", aliases: &[] },
        Codepoint { codepoint: 0x1F06D, name: "DOMINO TILE VERTICAL-01-03", aliases: &[] },
        Codepoint { codepoint: 0x1F06E, name: "DOMINO TILE VERTICAL-01-04", aliases: &[] },
        Codepoint { codepoint: 0x1F06F, name: "DOMINO TILE VERTICAL-01-05", aliases: &[] },
        Codepoint { codepoint: 0x1F070, name: "DOMINO TILE VERTICAL-01-06", aliases: &[] },
        Codepoint { codepoint: 0x1F071, name: "DOMINO TILE VERTICAL-02-00", aliases: &[] },
        Codepoint { codepoint: 0x1F072, name: "DOMINO TILE VERTICAL-02-01", aliases: &[] },
        Codepoint { codepoint: 0x1F073, name: "DOMINO TILE VERTICAL-02-02", aliases: &[] },
        Codepoint { codepoint: 0x1F074, name: "DOMINO TILE VERTICAL-02-03", aliases: &[] },
        Codepoint { codepoint: 0x1F075, name: "DOMINO TILE VERTICAL-02-04", aliases: &[] },
    ]
}

fn all_codepoints_782() -> (v: Vec<Codepoint>)
    ensures
        v@ == codepoint_table_782(),
{
    let v = vec![
        Codepoint { codepoint: 0x1F04E, name: "DOMINO TILE HORIZONTAL-04-01", aliases: &[] },
        Codepoint { codepoint: 0x1F04F, name: "DOMINO TILE HORIZONTAL-04-02", aliases: &[] },
        Codepoint { codepoint: 0x1F050, name: "DOMINO TILE HORIZONTAL-04-03", aliases: &[] },
        Codepoint { codepoint: 0x1F051, name: "DOMINO TILE HORIZONTAL-04-04", aliases: &[] },
        Codepoint { codepoint: 0x1F052, name: "DOMINO TILE HORIZONTAL-04-05", aliases: &[] },
        Codepoint { codepoint: 0x1F053, name: "DOMINO TILE HORIZONTAL-04-06", aliases: &[] },
        Codepoint { codepoint: 0x1F054, name: "DOMINO TILE HORIZONTAL-05-00", aliases: &[] },
        Codepoint { codepoint: 0x1F055, name: "DOMINO TILE HORIZONTAL-05-01", aliases: &[] },
        Codepoint { codepoint: 0x1F056, name: "DOMINO TILE HORIZONTAL-05-02", aliases: &[] },
        Codepoint { codepoint: 0x1F057, name: "DOMINO TILE HORIZONTAL-05-03", aliases: &[] },
        Codepoint { codepoint: 0x1F058, name: "DOMINO TILE HORIZONTAL-05-04", aliases: &[] },
        Codepoint { codepoint: 0x1F059, name: "DOMINO TILE HORIZONTAL-05-05", aliases: &[] },
        Codepoint { codepoint: 0x1F05A, name: "DOMINO TILE HORIZONTAL-05-06", aliases: &[] },
        Codepoint { codepoint: 0x1F05B, name: "DOMINO TILE HORIZONTAL-06-00", aliases: &[] },
        Codepoint { codepoint: 0x1F05C, name: "DOMINO TILE HORIZONTAL-06-01", aliases: &[] },
        Codepoint { codepoint: 0x1F05D, name: "DOMINO TILE HORIZONTAL-06-02", aliases: &[] },
        Codepoint { codepoint: 0x1F05E, name: "DOMINO TILE HORIZONTAL-06-03", aliases: &[] },
        Codepoint { codepoint: 0x1F05F, name: "DOMINO TILE HORIZONTAL-06-04", aliases: &[] },
        Codepoint { codepoint: 0x1F060, name: "DOMINO TILE HORIZONTAL-06-05", aliases: &[] },
        Codepoint { codepoint: 0x1F061, name: "DOMINO TILE HORIZONTAL-06-06", aliases: &[] },
        Codepoint { codepoint: 0x1F062, name: "DOMINO TILE VERTICAL BACK", aliases: &[] },
        Codepoint { codepoint: 0x1F063, name: "DOMINO TILE VERTICAL-00-00", aliases: &[] },
        Codepoint { codepoint: 0x1F064, name: "DOMINO TILE VERTICAL-00-01", aliases: &[] },
        Codepoint { codepoint: 0x1F065, name: "DOMINO TILE VERTICAL-00-02", aliases: &[] },
        Codepoint { codepoint: 0x1F066, name: "DOMINO TILE VERTICAL-00-03", aliases: &[] },
        Codepoint { codepoint: 0x1F067, name: "DOMINO TILE VERTICAL-00-04", aliases: &[] },
        Codepoint { codepoint: 0x1F068, name: "DOMINO TILE VERTICAL-00-05", aliases: &[] },
        Codepoint { codepoint: 0x1F069, name: "DOMINO TILE VERTICAL-00-06", aliases: &[] },
        Codepoint { codepoint: 0x1F06A, name: "DOMINO TILE VERTICAL-01-00", aliases: &[] },
        Codepoint { codepoint: 0x1F06B, name: "DOMINO TILE VERTICAL-01-01", aliases: &[] },
        Codepoint { codepoint: 0x1F06C, name: "DOMINO TILE VERTICAL-01-02", aliases: &[] },
        Codepoint { codepoint: 0x1F06D, name: "DOMINO TILE VERTICAL-01-03", aliases: &[] },
        Codepoint { codepoint: 0x1F06E, name: "DOMINO TILE VERTICAL-01-04", aliases: &[] },
        Codepoint { codepoint: 0x1F06F, name: "DOMINO TILE VERTICAL-01-05", aliases: &[] },
        Codepoint { codepoint: 0x1F070, name: "DOMINO TILE VERTICAL-01-06", aliases: &[] },
        Codepoint { codepoint: 0x1F071, name: "DOMINO TILE VERTICAL-02-00", aliases: &[] },
        Codepoint { codepoint: 0x1F072, name: "DOMINO TILE VERTICAL-02-01", aliases: &[] },
        Codepoint { codepoint: 0x1F073, name: "DOMINO TILE VERTICAL-02-02", aliases: &[] },
        Codepoint { codepoint: 0x1F074, name: "DOMINO TILE VERTICAL-02-03", aliases: &[] },
        Codepoint { codepoint: 0x1F075, name: "DOMINO TILE VERTICAL-02-04", aliases: &[] },
    ];
    assert(v@ =~= codepoint_table_782());
    v
}

pub open spec fn codepoint_table_783() -> Seq<Codepoint> {
    seq![
        Codepoint { codepoint: 0x1F076, name: "DOMINO TILE VERTICAL-02-05", aliases: &[] },
        Codepoint { codepoint: 0x1F077, name: "DOMINO TILE VERTICAL-02-06", aliases: &[] },
        Codepoint { codepoint: 0x1F078, name: "DOMINO TILE VERTICAL-03-00", aliases: &[] },
        Codepoint { codepoint: 0x1F079, name: "DOMINO TILE VERTICAL-03-01", aliases: &[] },
        Codepoint { codepoint: 0x1F07A, name: "DOMINO TILE VERTICAL-03-02", aliases: &[] },
        Codepoint { codepoint: 0x1F07B, name: "DOMINO TILE VERTICAL-03-03", aliases: &[] },
        Codepoint { codepoint: 0x1F07C, name: "DOMINO TILE VERTICAL-03-04", aliases: &[] },
        Codepoint { codepoint: 0x1F07D, name: "DOMINO TILE VERTICAL-03-05", aliases: &[] },
        Codepoint { codepoint: 0x1F07E, name: "DOMINO TILE VERTICAL-03-06", aliases: &[] },
        Codepoint { codepoint: 0x1F07F, name: "DOMINO TILE VERTICAL-04-00", aliases: &[] },
        Codepoint { codepoint: 0x1F080, name: "DOMINO TILE VERTICAL-04-01", aliases: &[] },
        Codepoint { codepoint: 0x1F081, name: "DOMINO TILE VERTICAL-04-02", aliases: &[] },
        Codepoint { codepoint: 0x1F082, name: "DOMINO TILE VERTICAL-04-03", aliases: &[] },
        Codepoint { codepoint: 0x1F083, name: "DOMINO TILE VERTICAL-04-04", aliases: &[] },
        Codepoint { codepoint: 0x1F084, name: "DOMINO TILE VERTICAL-04-05", aliases: &[] },
        Codepoint { codepoint: 0x1F085, name: "DOMINO TILE VERTICAL-04-06", aliases: &[] },
        Codepoint { codepoint: 0x1F086, name: "DOMINO TILE VERTICAL-05-00", aliases: &[] },
        Codepoint { codepoint: 0x1F087, name: "DOMINO TILE VERTICAL-05-01", aliases: &[] },
        Codepoint { codepoint: 0x1F088, name: "DOMINO TILE VERTICAL-05-02", aliases: &[] },
        Codepoint { codepoint: 0x1F089, name: "DOMINO TILE VERTICAL-05-03", aliases: &[] },
        Codepoint { codepoint: 0x1F08A, name: "DOMINO TILE VERTICAL-05-04", aliases: &[] },
        Codepoint { codepoint: 0x1F08B, name: "DOMINO TILE VERTICAL-05-05", aliases: &[] },
        Codepoint { codepoint: 0x1F08C, name: "DOMINO TILE VERTICAL-05-06", aliases: &[] },
        Codepoint { codepoint: 0x1F08D, name: "DOMINO TILE VERTICAL-06-00", aliases: &[] },
        Codepoint { codepoint: 0x1F08E, name: "DOMINO TILE VERTICAL-06-01", aliases: &[] },
        Codepoint { codepoint: 0x1F08F, name: "DOMINO TILE VERTICAL-06-02", aliases: &[] },
        Codepoint { codepoint: 0x1F090, name: "DOMINO TILE VERTICAL-06-03", aliases: &[] },
        Codepoint { codepoint: 0x1F091, name: "DOMINO TILE VERTICAL-06-04", aliases: &[] },
        Codepoint { codepoint: 0x1F092, name: "DOMINO TILE VERTICAL-06-05", aliases: &[] },
        Codepoint { codepoint: 0x1F093, name: "DOMINO TILE VERTICAL-06-06", aliases: &[] },
        Codepoint { codepoint: 0x1F0A0, name: "PLAYING CARD BACK", aliases: &[] },
        Codepoint { codepoint: 0x1F0A1, name: "PLAYING CARD ACE OF SPADES", aliases: &[] },
        Codepoint { codepoint: 0x1F0A2, name: "PLAYING CARD TWO OF SPADES", aliases: &[] },
        Codepoint { codepoint: 0x1F0A3, name: "PLAYING CARD THREE OF SPADES", aliases: &[] },
        Codepoint { codepoint: 0x1F0A4, name: "PLAYING CARD FOUR OF SPADES", aliases: &[] },
        Codepoint { codepoint: 0x1F0A5, name: "PLAYING CARD FIVE OF SPADES", aliases: &[] },
        Codepoint { codepoint: 0x1F0A6, name: "PLAYING CARD SIX OF SPADES", aliases: &[] },
        Codepoint { codepoint: 0x1F0A7, name: "PLAYING CARD SEVEN OF SPADES", aliases: &[] },
        Codepoint { codepoint: 0x1F0A8, name: "PLAYING CARD EIGHT OF SPADES", aliases: &[] },
        Codepoint { codepoint: 0x1F0A9, name: "PLAYING CARD NINE OF SPADES", aliases: &[] },
    ]
}

fn all_codepoints_783() -> (v: Vec<Codepoint>)
    ensures
        v@ == codepoint_table_783(),
{
    let v = vec![
        Codepoint { codepoint: 0x1F076, name: "DOMINO TILE VERTICAL-02-05", aliases: &[] },
        Codepoint { codepoint: 0x1F077, name: "DOMINO TILE VERTICAL-02-06", aliases: &[] },
        Codepoint { codepoint: 0x1F078, name: "DOMINO TILE VERTICAL-03-00", aliases: &[] },
        Codepoint { codepoint: 0x1F079, name: "DOMINO TILE VERTICAL-03-01", aliases: &[] },
        Codepoint { codepoint: 0x1F07A, name: "DOMINO TILE VERTICAL-03-02", aliases: &[] },
        Codepoint { codepoint: 0x1F07B, name: "DOMINO TILE VERTICAL-03-03", aliases: &[] },
        Codepoint { codepoint: 0x1F07C, name: "DOMINO TILE VERTICAL-03-04", aliases: &[] },
        Codepoint { codepoint: 0x1F07D, name: "DOMINO TILE VERTICAL-03-05", aliases: &[] },
        Codepoint { codepoint: 0x1F07E, name: "DOMINO TILE VERTICAL-03-06", aliases: &[] },
        Codepoint { codepoint: 0x1F07F, name: "DOMINO TILE VERTICAL-04-00", aliases: &[] },
        Codepoint { codepoint: 0x1F080, name: "DOMINO TILE VERTICAL-04-01", aliases: &[] },
        Codepoint { codepoint: 0x1F081, name: "DOMINO TILE VERTICAL-04-02", aliases: &[] },
        Codepoint { codepoint: 0x1F082, name: "DOMINO TILE VERTICAL-04-03", aliases: &[] },
        Codepoint { codepoint: 0x1F083, name: "DOMINO TILE VERTICAL-04-04", aliases: &[] },
        Codepoint { codepoint: 0x1F084, name: "DOMINO TILE VERTICAL-04-05", aliases: &[] },
        Codepoint { codepoint: 0x1F085, name: "DOMINO TILE VERTICAL-04-06", aliases: &[] },
        Codepoint { codepoint: 0x1F086, name: "DOMINO TILE VERTICAL-05-00", aliases: &[] },
        Codepoint { codepoint: 0x1F087, name: "DOMINO TILE VERTICAL-05-01", aliases: &[] },
        Codepoint { codepoint: 0x1F088, name: "DOMINO TILE VERTICAL-05-02", aliases: &[] },
        Codepoint { codepoint: 0x1F089, name: "DOMINO TILE VERTICAL-05-03", aliases: &[] },
        Codepoint { codepoint: 0x1F08A, name: "DOMINO TILE VERTICAL-05-04", aliases: &[] },
        Codepoint { codepoint: 0x1F08B, name: "DOMINO TILE VERTICAL-05-05", aliases: &[] },
        Codepoint { codepoint: 0x1F08C, name: "DOMINO TILE VERTICAL-05-06", aliases: &[] },
        Codepoint { codepoint: 0x1F08D, name: "DOMINO TILE VERTICAL-06-00", aliases: &[] },
        Codepoint { codepoint: 0x1F08E, name: "DOMINO TILE VERTICAL-06-01", aliases: &[] },
        Codepoint { codepoint: 0x1F08F, name: "DOMINO TILE VERTICAL-06-02", aliases: &[] },
        Codepoint { codepoint: 0x1F090, name: "DOMINO TILE VERTICAL-06-03", aliases: &[] },
        Codepoint { codepoint: 0x1F091, name: "DOMINO TILE VERTICAL-06-04", aliases: &[] },
        Codepoint { codepoint: 0x1F092, name: "DOMINO TILE VERTICAL-06-05", aliases: &[] },
        Codepoint { codepoint: 0x1F093, name: "DOMINO TILE VERTICAL-06-06", aliases: &[] },
        Codepoint { codepoint: 0x1F0A0, name: "PLAYING CARD BACK", aliases: &[] },
        Codepoint { codepoint: 0x1F0A1, name: "PLAYING CARD ACE OF SPADES", aliases: &[] },
        Codepoint { codepoint: 0x1F0A2, name: "PLAYING CARD TWO OF SPADES", aliases: &[] },
        Codepoint { codepoint: 0x1F0A3, name: "PLAYING CARD THREE OF SPADES", aliases: &[] },
        Codepoint { codepoint: 0x1F0A4, name: "PLAYING CARD FOUR OF SPADES", aliases: &[] },
        Codepoint { codepoint: 0x1F0A5, name: "PLAYING CARD FIVE OF SPADES", aliases: &[] },
        Codepoint { codepoint: 0x1F0A6, name: "PLAYING CARD SIX OF SPADES", aliases: &[] },
        Codepoint { codepoint: 0x1F0A7, name: "PLAYING CARD SEVEN OF SPADES", aliases: &[] },
        Codepoint { codepoint: 0x1F0A8, name: "PLAYING CARD EIGHT OF SPADES", aliases: &[] },
        Codepoint { codepoint: 0x1F0A9, name: "PLAYING CARD NINE OF SPADES", aliases: &[] },
    ];
    assert(v@ =~= codepoint_table_783());
    v
}

pub open spec fn codepoint_table_784() -> Seq<Codepoint> {
    seq![
        Codepoint { codepoint: 0x1F0AA, name: "PLAYING CARD TEN OF SPADES", aliases: &[] },
        Codepoint { codepoint: 0x1F0AB, name: "PLAYING CARD JACK OF SPADES", aliases: &[] },
        Codepoint { codepoint: 0x1F0AC, name: "PLAYING CARD KNIGHT OF SPADES", aliases: &[] },
        Codepoint { codepoint: 0x1F0AD, name: "PLAYING CARD QUEEN OF SPADES", aliases: &[] },
        Codepoint { codepoint: 0x1F0AE, name: "PLAYING CARD KING OF SPADES", aliases: &[] },
        Codepoint { codepoint: 0x1F0B1, name: "PLAYING CARD ACE OF HEARTS", aliases: &[] },
        Codepoint { codepoint: 0x1F0B2, name: "PLAYING CARD TWO OF HEARTS", aliases: &[] },
        Codepoint { codepoint: 0x1F0B3, name: "PLAYING CARD THREE OF HEARTS", aliases: &[] },
        Codepoint { codepoint: 0x1F0B4, name: "PLAYING CARD FOUR OF HEARTS", aliases: &[] },
        Codepoint { codepoint: 0x1F0B5, name: "PLAYING CARD FIVE OF HEARTS", aliases: &[] },
        Codepoint { codepoint: 0x1F0B6, name: "PLAYING CARD SIX OF HEARTS", aliases: &[] },
        Codepoint { codepoint: 0x1F0B7, name: "PLAYING CARD SEVEN OF HEARTS", aliases: &[] },
        Codepoint { codepoint: 0x1F0B8, name: "PLAYING CARD EIGHT OF HEARTS", aliases: &[] },
        Codepoint { codepoint: 0x1F0B9, name: "PLAYING CARD NINE OF HEARTS", aliases: &[] },
        Codepoint { codepoint: 0x1F0BA, name: "PLAYING CARD TEN OF HEARTS", aliases: &[] },
        Codepoint { codepoint: 0x1F0BB, name: "PLAYING CARD JACK OF HEARTS", aliases: &[] },
        Codepoint { codepoint: 0x1F0BC, name: "PLAYING CARD KNIGHT OF HEARTS", aliases: &[] },
        Codepoint { codepoint: 0x1F0BD, name: "PLAYING CARD QUEEN OF HEARTS", aliases: &[] },
        Codepoint { codepoint: 0x1F0BE, name: "PLAYING CARD KING OF HEARTS", aliases: &[] },
        Codepoint { codepoint: 0x1F0BF, name: "PLAYING CARD RED JOKER", aliases: &[] },
        Codepoint { codepoint: 0x1F0C1, name: "PLAYING CARD ACE OF DIAMONDS", aliases: &[] },
        Codepoint { codepoint: 0x1F0C2, name: "PLAYING CARD TWO OF DIAMONDS", aliases: &[] },
        Codepoint { codepoint: 0x1F0C3, name: "PLAYING CARD THREE OF DIAMONDS", aliases: &[] },
        Codepoint { codepoint: 0x1F0C4, name: "PLAYING CARD FOUR OF DIAMONDS", aliases: &[] },
        Codepoint { codepoint: 0x1F0C5, name: "PLAYING CARD FIVE OF DIAMONDS", aliases: &[] },
        Codepoint { codepoint: 0x1F0C6, name: "PLAYING CARD SIX OF DIAMONDS", aliases: &[] },
        Codepoint { codepoint: 0x1F0C7, name: "PLAYING CARD SEVEN OF DIAMONDS", aliases: &[] },
        Codepoint { codepoint: 0x1F0C8, name: "PLAYING CARD EIGHT OF DIAMONDS", aliases: &[] },
        Codepoint { codepoint: 0x1F0C9, name: "PLAYING CARD NINE OF DIAMONDS", aliases: &[] },
        Codepoint { codepoint: 0x1F0CA, name: "PLAYING CARD TEN OF DIAMONDS", aliases: &[] },
        Codepoint { codepoint: 0x1F0CB, name: "PLAYING CARD JACK OF DIAMONDS", aliases: &[] },
        Codepoint { codepoint: 0x1F0CC, name: "PLAYING CARD KNIGHT OF DIAMONDS", aliases: &[] },
        Codepoint { codepoint: 0x1F0CD, name: "PLAYING CARD QUEEN OF DIAMONDS", aliases: &[] },
        Codepoint { codepoint: 0x1F0CE, name: "PLAYING CARD KING OF DIAMONDS", aliases: &[] },
        Codepoint { codepoint: 0x1F0CF, name: "PLAYING CARD BLACK JOKER", aliases: &[] },
        Codepoint { codepoint: 0x1F0D1, name: "PLAYING CARD ACE OF CLUBS", aliases: &[] },
        Codepoint { codepoint: 0x1F0D2, name: "PLAYING CARD TWO OF CLUBS", aliases: &[] },
        Codepoint { codepoint: 0x1F0D3, name: "PLAYING CARD THREE OF CLUBS", aliases: &[] },
        Codepoint { codepoint: 0x1F0D4, name: "PLAYING CARD FOUR OF CLUBS", aliases: &[] },
        Codepoint { codepoint: 0x1F0D5, name: "PLAYING CARD FIVE OF CLUBS", aliases: &[] },
    ]
}

fn all_codepoints_784() -> (v: Vec<Codepoint>)
    ensures
        v@ == codepoint_table_784(),
{
    let v = vec![
        Codepoint { codepoint: 0x1F0AA, name: "PLAYING CARD TEN OF SPADES", aliases: &[] },
        Codepoint { codepoint: 0x1F0AB, name: "PLAYING CARD JACK OF SPADES", aliases: &[] },
        Codepoint { codepoint: 0x1F0AC, name: "PLAYING CARD KNIGHT OF SPADES", aliases: &[] },
        Codepoint { codepoint: 0x1F0AD, name: "PLAYING CARD QUEEN OF SPADES", aliases: &[] },
        Codepoint { codepoint: 0x1F0AE, name: "PLAYING CARD KING OF SPADES", aliases: &[] },
        Codepoint { codepoint: 0x1F0B1, name: "PLAYING CARD ACE OF HEARTS", aliases: &[] },
        Codepoint { codepoint: 0x1F0B2, name: "PLAYING CARD TWO OF HEARTS", aliases: &[] },
        Codepoint { codepoint: 0x1F0B3, name: "PLAYING CARD THREE OF HEARTS", aliases: &[] },
        Codepoint { codepoint: 0x1F0B4, name: "PLAYING CARD FOUR OF HEARTS", aliases: &[] },
        Codepoint { codepoint: 0x1F0B5, name: "PLAYING CARD FIVE OF HEARTS", aliases: &[] },
        Codepoint { codepoint: 0x1F0B6, name: "PLAYING CARD SIX OF HEARTS", aliases: &[] },
        Codepoint { codepoint: 0x1F0B7, name: "PLAYING CARD SEVEN OF HEARTS", aliases: &[] },
        Codepoint { codepoint: 0x1F0B8, name: "PLAYING CARD EIGHT OF HEARTS", aliases: &[] },
        Codepoint { codepoint: 0x1F0B9, name: "PLAYING CARD NINE OF HEARTS", aliases: &[] },
        Codepoint { codepoint: 0x1F0BA, name: "PLAYING CARD TEN OF HEARTS", aliases: &[] },
        Codepoint { codepoint: 0x1F0BB, name: "PLAYING CARD JACK OF HEARTS", aliases: &[] },
        Codepoint { codepoint: 0x1F0BC, name: "PLAYING CARD KNIGHT OF HEARTS", aliases: &[] },
        Codepoint { codepoint: 0x1F0BD, name: "PLAYING CARD QUEEN OF HEARTS", aliases: &[] },
        Codepoint { codepoint: 0x1F0BE, name: "PLAYING CARD KING OF HEARTS", aliases: &[] },
        Codepoint { codepoint: 0x1F0BF, name: "PLAYING CARD RED JOKER", aliases: &[] },
        Codepoint { codepoint: 0x1F0C1, name: "PLAYING CARD ACE OF DIAMONDS", aliases: &[] },
        Codepoint { codepoint: 0x1F0C2, name: "PLAYING CARD TWO OF DIAMONDS", aliases: &[] },
        Codepoint { codepoint: 0x1F0C3, name: "PLAYING CARD THREE OF DIAMONDS", aliases: &[] },
        Codepoint { codepoint: 0x1F0C4, name: "PLAYING CARD FOUR OF DIAMONDS", aliases: &[] },
        Codepoint { codepoint: 0x1F0C5, name: "PLAYING CARD FIVE OF DIAMONDS", aliases: &[] },
        Codepoint { codepoint: 0x1F0C6, name: "PLAYING CARD SIX OF DIAMONDS", aliases: &[] },
        Codepoint { codepoint: 0x1F0C7, name: "PLAYING CARD SEVEN OF DIAMONDS", aliases: &[] },
        Codepoint { codepoint: 0x1F0C8, name: "PLAYING CARD EIGHT OF DIAMONDS", aliases: &[] },
        Codepoint { codepoint: 0x1F0C9, name: "PLAYING CARD NINE OF DIAMONDS", aliases: &[] },
        Codepoint { codepoint: 0x1F0CA, name: "PLAYING CARD TEN OF DIAMONDS", aliases: &[] },
        Codepoint { codepoint: 0x1F0CB, name: "PLAYING CARD JACK OF DIAMONDS", aliases: &[] },
        Codepoint { codepoint: 0x1F0CC, name: "PLAYING CARD KNIGHT OF DIAMONDS", aliases: &[] },
        Codepoint { codepoint: 0x1F0CD, name: "PLAYING CARD QUEEN OF DIAMONDS", aliases: &[] },
        Codepoint { codepoint: 0x1F0CE, name: "PLAYING CARD KING OF DIAMONDS", aliases: &[] },
        Codepoint { codepoint: 0x1F0CF, name: "PLAYING CARD BLACK JOKER", aliases: &[] },
        Codepoint { codepoint: 0x1F0D1, name: "PLAYING CARD ACE OF CLUBS", aliases: &[] },
        Codepoint { codepoint: 0x1F0D2, name: "PLAYING CARD TWO OF CLUBS", aliases: &[] },
        Codepoint { codepoint: 0x1F0D3, name: "PLAYING CARD THREE OF CLUBS", aliases: &[] },
        Codepoint { codepoint: 0x1F0D4, name: "PLAYING CARD FOUR OF CLUBS", aliases: &[] },
        Codepoint { codepoint: 0x1F0D5, name: "PLAYING CARD FIVE OF CLUBS", aliases: &[] },
    ];
    assert(v@ =~= codepoint_table_784());
    v
}

pub open spec fn codepoint_table_785() -> Seq<Codepoint> {
    seq![
        Codepoint { codepoint: 0x1F0D6, name: "PLAYING CARD SIX OF CLUBS", aliases: &[] },
        Codepoint { codepoint: 0x1F0D7, name: "PLAYING CARD SEVEN OF CLUBS", aliases: &[] },
        Codepoint { codepoint: 0x1F0D8, name: "PLAYING CARD EIGHT OF CLUBS", aliases: &[] },
        Codepoint { codepoint: 0x1F0D9, name: "PLAYING CARD NINE OF CLUBS", aliases: &[] },
        Codepoint { codepoint: 0x1F0DA, name: "PLAYING CARD TEN OF CLUBS", aliases: &[] },
        Codepoint { codepoint: 0x1F0DB, name: "PLAYING CARD JACK OF CLUBS", aliases: &[] },
        Codepoint { codepoint: 0x1F0DC, name: "PLAYING CARD KNIGHT OF CLUBS", aliases: &[] },
        Codepoint { codepoint: 0x1F0DD, name: "PLAYING CARD QUEEN OF CLUBS", aliases: &[] },
        Codepoint { codepoint: 0x1F0DE, name: "PLAYING CARD KING OF CLUBS", aliases: &[] },
        Codepoint { codepoint: 0x1F0DF, name: "PLAYING CARD WHITE JOKER", aliases: &[] },
        Codepoint { codepoint: 0x1F0E0, name: "PLAYING CARD FOOL", aliases: &[] },
        Codepoint { codepoint: 0x1F0E1, name: "PLAYING CARD TRUMP-1", aliases: &[] },
        Codepoint { codepoint: 0x1F0E2, name: "PLAYING CARD TRUMP-2", aliases: &[] },
        Codepoint { codepoint: 0x1F0E3, name: "PLAYING CARD TRUMP-3", aliases: &[] },
        Codepoint { codepoint: 0x1F0E4, name: "PLAYING CARD TRUMP-4", aliases: &[] },
        Codepoint { codepoint: 0x1F0E5, name: "PLAYING CARD TRUMP-5", aliases: &[] },
        Codepoint { codepoint: 0x1F0E6, name: "PLAYING CARD TRUMP-6", aliases: &[] },
        Codepoint { codepoint: 0x1F0E7, name: "PLAYING CARD TRUMP-7", aliases: &[] },
        Codepoint { codepoint: 0x1F0E8, name: "PLAYING CARD TRUMP-8", aliases: &[] },
        Codepoint { codepoint: 0x1F0E9, name: "PLAYING CARD TRUMP-9", aliases: &[] },
        Codepoint { codepoint: 0x1F0EA, name: "PLAYING CARD TRUMP-10", aliases: &[] },
        Codepoint { codepoint: 0x1F0EB, name: "PLAYING CARD TRUMP-11", aliases: &[] },
        Codepoint { codepoint: 0x1F0EC, name: "PLAYING CARD TRUMP-12", aliases: &[] },
        Codepoint { codepoint: 0x1F0ED, name: "PLAYING CARD TRUMP-13", aliases: &[] },
        Codepoint { codepoint: 0x1F0EE, name: "PLAYING CARD TRUMP-14", aliases: &[] },
        Codepoint { codepoint: 0x1F0EF, name: "PLAYING CARD TRUMP-15", aliases: &[] },
        Codepoint { codepoint: 0x1F0F0, name: "PLAYING CARD TRUMP-16", aliases: &[] },
        Codepoint { codepoint: 0x1F0F1, name: "PLAYING CARD TRUMP-17", aliases: &[] },
        Codepoint { codepoint: 0x1F0F2, name: "PLAYING CARD TRUMP-18", aliases: &[] },
        Codepoint { codepoint: 0x1F0F3, name: "PLAYING CARD TRUMP-19", aliases: &[] },
        Codepoint { codepoint: 0x1F0F4, name: "PLAYING CARD TRUMP-20", aliases: &[] },
        Codepoint { codepoint: 0x1F0F5, name: "PLAYING CARD TRUMP-21", aliases: &[] },
        Codepoint { codepoint: 0x1F100, name: "DIGIT ZERO FULL STOP", aliases: &[] },
        Codepoint { codepoint: 0x1F101, name: "DIGIT ZERO COMMA", aliases: &[] },
        Codepoint { codepoint: 0x1F102, name: "DIGIT ONE COMMA", aliases: &[] },
        Codepoint { codepoint: 0x1F103, name: "DIGIT TWO COMMA", aliases: &[] },
        Codepoint { codepoint: 0x1F104, name: "DIGIT THREE COMMA", aliases: &[] },
        Codepoint { codepoint: 0x1F105, name: "DIGIT FOUR COMMA", aliases: &[] },
        Codepoint { codepoint: 0x1F106, name: "DIGIT FIVE COMMA", aliases: &[] },
        Codepoint { codepoint: 0x1F107, name: "DIGIT SIX COMMA", aliases: &[] },
    ]
}

fn all_codepoints_785() -> (v: Vec<Codepoint>)
    ensures
        v@ == codepoint_table_785(),
{
    let v = vec![
        Codepoint { codepoint: 0x1F0D6, name: "PLAYING CARD SIX OF CLUBS", aliases: &[] },
        Codepoint { codepoint: 0x1F0D7, name: "PLAYING CARD SEVEN OF CLUBS", aliases: &[] },
        Codepoint { codepoint: 0x1F0D8, name: "PLAYING CARD EIGHT OF CLUBS", aliases: &[] },
        Codepoint { codepoint: 0x1F0D9, name: "PLAYING CARD NINE OF CLUBS", aliases: &[] },
        Codepoint { codepoint: 0x1F0DA, name: "PLAYING CARD TEN OF CLUBS", aliases: &[] },
        Codepoint { codepoint: 0x1F0DB, name: "PLAYING CARD JACK OF CLUBS", aliases: &[] },
        Codepoint { codepoint: 0x1F0DC, name: "PLAYING CARD KNIGHT OF CLUBS", aliases: &[] },
        Codepoint { codepoint: 0x1F0DD, name: "PLAYING CARD QUEEN OF CLUBS", aliases: &[] },
        Codepoint { codepoint: 0x1F0DE, name: "PLAYING CARD KING OF CLUBS", aliases: &[] },
        Codepoint { codepoint: 0x1F0DF, name: "PLAYING CARD WHITE JOKER", aliases: &[] },
        Codepoint { codepoint: 0x1F0E0, name: "PLAYING CARD FOOL", aliases: &[] },
        Codepoint { codepoint: 0x1F0E1, name: "PLAYING CARD TRUMP-1", aliases: &[] },
        Codepoint { codepoint: 0x1F0E2, name: "PLAYING CARD TRUMP-2", aliases: &[] },
        Codepoint { codepoint: 0x1F0E3, name: "PLAYING CARD TRUMP-3", aliases: &[] },
        Codepoint { codepoint: 0x1F0E4, name: "PLAYING CARD TRUMP-4", aliases: &[] },
        Codepoint { codepoint: 0x1F0E5, name: "PLAYING CARD TRUMP-5", aliases: &[] },
        Codepoint { codepoint: 0x1F0E6, name: "PLAYING CARD TRUMP-6", aliases: &[] },
        Codepoint { codepoint: 0x1F0E7, name: "PLAYING CARD TRUMP-7", aliases: &[] },
        Codepoint { codepoint: 0x1F0E8, name: "PLAYING CARD TRUMP-8", aliases: &[] },
        Codepoint { codepoint: 0x1F0E9, name: "PLAYING CARD TRUMP-9", aliases: &[] },
        Codepoint { codepoint: 0x1F0EA, name: "PLAYING CARD TRUMP-10", aliases: &[] },
        Codepoint { codepoint: 0x1F0EB, name: "PLAYING CARD TRUMP-11", aliases: &[] },
        Codepoint { codepoint: 0x1F0EC, name: "PLAYING CARD TRUMP-12", aliases: &[] },
        Codepoint { codepoint: 0x1F0ED, name: "PLAYING CARD TRUMP-13", aliases: &[] },
        Codepoint { codepoint: 0x1F0EE, name: "PLAYING CARD TRUMP-14", aliases: &[] },
        Codepoint { codepoint: 0x1F0EF, name: "PLAYING CARD TRUMP-15", aliases: &[] },
        Codepoint { codepoint: 0x1F0F0, name: "PLAYING CARD TRUMP-16", aliases: &[] },
        Codepoint { codepoint: 0x1F0F1, name: "PLAYING CARD TRUMP-17", aliases: &[] },
        Codepoint { codepoint: 0x1F0F2, name: "PLAYING CARD TRUMP-18", aliases: &[] },
        Codepoint { codepoint: 0x1F0F3, name: "PLAYING CARD TRUMP-19", aliases: &[] },
        Codepoint { codepoint: 0x1F0F4, name: "PLAYING CARD TRUMP-20", aliases: &[] },
        Codepoint { codepoint: 0x1F0F5, name: "PLAYING CARD TRUMP-21", aliases: &[] },
        Codepoint { codepoint: 0x1F100, name: "DIGIT ZERO FULL STOP", aliases: &[] },
        Codepoint { codepoint: 0x1F101, name: "DIGIT ZERO COMMA", aliases: &[] },
        Codepoint { codepoint: 0x1F102, name: "DIGIT ONE COMMA", aliases: &[] },
        Codepoint { codepoint: 0x1F103, name: "DIGIT TWO COMMA", aliases: &[] },
        Codepoint { codepoint: 0x1F104, name: "DIGIT THREE COMMA", aliases: &[] },
        Codepoint { codepoint: 0x1F105, name: "DIGIT FOUR COMMA", aliases: &[] },
        Codepoint { codepoint: 0x1F106, name: "DIGIT FIVE COMMA", aliases: &[] },
        Codepoint { codepoint: 0x1F107, name: "DIGIT SIX COMMA", aliases: &[] },
    ];
    assert(v@ =~= codepoint_table_785());
    v
}

pub open spec fn codepoint_table_786() -> Seq<Codepoint> {
    seq![
        Codepoint { codepoint: 0x1F108, name: "DIGIT SEVEN COMMA", aliases: &[] },
        Codepoint { codepoint: 0x1F109, name: "DIGIT EIGHT COMMA", aliases: &[] },
        Codepoint { codepoint: 0x1F10A, name: "DIGIT NINE COMMA", aliases: &[] },
        Codepoint { codepoint: 0x1F10B, name: "DINGBAT CIRCLED SANS-SERIF DIGIT ZERO", aliases: &[] },
        Codepoint { codepoint: 0x1F10C, name: "DINGBAT NEGATIVE CIRCLED SANS-SERIF DIGIT ZERO", aliases: &[] },
        Codepoint { codepoint: 0x1F10D, name: "CIRCLED ZERO WITH SLASH", aliases: &[] },
        Codepoint { codepoint: 0x1F10E, name: "CIRCLED ANTICLOCKWISE ARROW", aliases: &[] },
        Codepoint { codepoint: 0x1F10F, name: "CIRCLED DOLLAR SIGN WITH OVERLAID BACKSLASH", aliases: &[] },
        Codepoint { codepoint: 0x1F110, name: "PARENTHESIZED LATIN CAPITAL LETTER A", aliases: &[] },
        Codepoint { codepoint: 0x1F111, name: "PARENTHESIZED LATIN CAPITAL LETTER B", aliases: &[] },
        Codepoint { codepoint: 0x1F112, name: "PARENTHESIZED LATIN CAPITAL LETTER C", aliases: &[] },
        Codepoint { codepoint: 0x1F113, name: "PARENTHESIZED LATIN CAPITAL LETTER D", aliases: &[] },
        Codepoint { codepoint: 0x1F114, name: "PARENTHESIZED LATIN CAPITAL LETTER E", aliases: &[] },
        Codepoint { codepoint: 0x1F115, name: "PARENTHESIZED LATIN CAPITAL LETTER F", aliases: &[] },
        Codepoint { codepoint: 0x1F116, name: "PARENTHESIZED LATIN CAPITAL LETTER G", aliases: &[] },
        Codepoint { codepoint: 0x1F117, name: "PARENTHESIZED LATIN CAPITAL LETTER H", aliases: &[] },
        Codepoint { codepoint: 0x1F118, name: "PARENTHESIZED LATIN CAPITAL LETTER I", aliases: &[] },
        Codepoint { codepoint: 0x1F119, name: "PARENTHESIZED LATIN CAPITAL LETTER J", aliases: &[] },
        Codepoint { codepoint: 0x1F11A, name: "PARENTHESIZED LATIN CAPITAL LETTER K", aliases: &[] },
        Codepoint { codepoint: 0x1F11B, name: "PARENTHESIZED LATIN CAPITAL LETTER L", aliases: &[] },
        Codepoint { codepoint: 0x1F11C, name: "PARENTHESIZED LATIN CAPITAL LETTER M", aliases: &[] },
        Codepoint { codepoint: 0x1F11D, name: "PARENTHESIZED LATIN CAPITAL LETTER N", aliases: &[] },
        Codepoint { codepoint: 0x1F11E, name: "PARENTHESIZED LATIN CAPITAL LETTER O", aliases: &[] },
        Codepoint { codepoint: 0x1F11F, name: "PARENTHESIZED LATIN CAPITAL LETTER P", aliases: &[] },
        Codepoint { codepoint: 0x1F120, name: "PARENTHESIZED LATIN CAPITAL LETTER Q", aliases: &[] },
        Codepoint { codepoint: 0x1F121, name: "PARENTHESIZED LATIN CAPITAL LETTER R", aliases: &[] },
        Codepoint { codepoint: 0x1F122, name: "PARENTHESIZED LATIN CAPITAL LETTER S", aliases: &[] },
        Codepoint { codepoint: 0x1F123, name: "PARENTHESIZED LATIN CAPITAL LETTER T", aliases: &[] },
        Codepoint { codepoint: 0x1F124, name: "PARENTHESIZED LATIN CAPITAL LETTER U", aliases: &[] },
        Codepoint { codepoint: 0x1F125, name: "PARENTHESIZED LATIN CAPITAL LETTER V", aliases: &[] },
        Codepoint { codepoint: 0x1F126, name: "PARENTHESIZED LATIN CAPITAL LETTER W", aliases: &[] },
        Codepoint { codepoint: 0x1F127, name: "PARENTHESIZED LATIN CAPITAL LETTER X", aliases: &[] },
        Codepoint { codepoint: 0x1F128, name: "PARENTHESIZED LATIN CAPITAL LETTER Y", aliases: &[] },
        Codepoint { codepoint: 0x1F129, name: "PARENTHESIZED LATIN CAPITAL LETTER Z", aliases: &[] },
        Codepoint { codepoint: 0x1F12A, name: "TORTOISE SHELL BRACKETED LATIN CAPITAL LETTER S", aliases: &[] },
        Codepoint { codepoint: 0x1F12B, name: "CIRCLED ITALIC LATIN CAPITAL LETTER C", aliases: &[] },
        Codepoint { codepoint: 0x1F12C, name: "CIRCLED ITALIC LATIN CAPITAL LETTER R", aliases: &[] },
        Codepoint { codepoint: 0x1F12D, name: "CIRCLED CD", aliases: &[] },
        Codepoint { codepoint: 0x1F12E, name: "CIRCLED WZ", aliases: &[] },
        Codepoint { codepoint: 0x1F12F, name: "COPYLEFT SYMBOL", aliases: &[] },
    ]
}

fn all_codepoints_786() -> (v: Vec<Codepoint>)
    ensures
        v@ == codepoint_table_786(),
{
    let v = vec![
        Codepoint { codepoint: 0x1F108, name: "DIGIT SEVEN COMMA", aliases: &[] },
        Codepoint { codepoint: 0x1F109, name: "DIGIT EIGHT COMMA", aliases: &[] },
        Codepoint { codepoint: 0x1F10A, name: "DIGIT NINE COMMA", aliases: &[] },
        Codepoint { codepoint: 0x1F10B, name: "DINGBAT CIRCLED SANS-SERIF DIGIT ZERO", aliases: &[] },
        Codepoint { codepoint: 0x1F10C, name: "DINGBAT NEGATIVE CIRCLED SANS-SERIF DIGIT ZERO", aliases: &[] },
        Codepoint { codepoint: 0x1F10D, name: "CIRCLED ZERO WITH SLASH", aliases: &[] },
        Codepoint { codepoint: 0x1F10E, name: "CIRCLED ANTICLOCKWISE ARROW", aliases: &[] },
        Codepoint { codepoint: 0x1F10F, name: "CIRCLED DOLLAR SIGN WITH OVERLAID BACKSLASH", aliases: &[] },
        Codepoint { codepoint: 0x1F110, name: "PARENTHESIZED LATIN CAPITAL LETTER A", aliases: &[] },
        Codepoint { codepoint: 0x1F111, name: "PARENTHESIZED LATIN CAPITAL LETTER B", aliases: &[] },
        Codepoint { codepoint: 0x1F112, name: "PARENTHESIZED LATIN CAPITAL LETTER C", aliases: &[] },
        Codepoint { codepoint: 0x1F113, name: "PARENTHESIZED LATIN CAPITAL LETTER D", aliases: &[] },
        Codepoint { codepoint: 0x1F114, name: "PARENTHESIZED LATIN CAPITAL LETTER E", aliases: &[] },
        Codepoint { codepoint: 0x1F115, name: "PARENTHESIZED LATIN CAPITAL LETTER F", aliases: &[] },
        Codepoint { codepoint: 0x1F116, name: "PARENTHESIZED LATIN CAPITAL LETTER G", aliases: &[] },
        Codepoint { codepoint: 0x1F117, name: "PARENTHESIZED LATIN CAPITAL LETTER H", aliases: &[] },
        Codepoint { codepoint: 0x1F118, name: "PARENTHESIZED LATIN CAPITAL LETTER I", aliases: &[] },
        Codepoint { codepoint: 0x1F119, name: "PARENTHESIZED LATIN CAPITAL LETTER J", aliases: &[] },
        Codepoint { codepoint: 0x1F11A, name: "PARENTHESIZED LATIN CAPITAL LETTER K", aliases: &[] },
        Codepoint { codepoint: 0x1F11B, name: "PARENTHESIZED LATIN CAPITAL LETTER L", aliases: &[] },
        Codepoint { codepoint: 0x1F11C, name: "PARENTHESIZED LATIN CAPITAL LETTER M", aliases: &[] },
        Codepoint { codepoint: 0x1F11D, name: "PARENTHESIZED LATIN CAPITAL LETTER N", aliases: &[] },
        Codepoint { codepoint: 0x1F11E, name: "PARENTHESIZED LATIN CAPITAL LETTER O", aliases: &[] },
        Codepoint { codepoint: 0x1F11F, name: "PARENTHESIZED LATIN CAPITAL LETTER P", aliases: &[] },
        Codepoint { codepoint: 0x1F120, name: "PARENTHESIZED LATIN CAPITAL LETTER Q", aliases: &[] },
        Codepoint { codepoint: 0x1F121, name: "PARENTHESIZED LATIN CAPITAL LETTER R", aliases: &[] },
        Codepoint { codepoint: 0x1F122, name: "PARENTHESIZED LATIN CAPITAL LETTER S", aliases: &[] },
        Codepoint { codepoint: 0x1F123, name: "PARENTHESIZED LATIN CAPITAL LETTER T", aliases: &[] },
        Codepoint { codepoint: 0x1F124, name: "PARENTHESIZED LATIN CAPITAL LETTER U", aliases: &[] },
        Codepoint { codepoint: 0x1F125, name: "PARENTHESIZED LATIN CAPITAL LETTER V", aliases: &[] },
        Codepoint { codepoint: 0x1F126, name: "PARENTHESIZED LATIN CAPITAL LETTER W", aliases: &[] },
        Codepoint { codepoint: 0x1F127, name: "PARENTHESIZED LATIN CAPITAL LETTER X", aliases: &[] },
        Codepoint { codepoint: 0x1F128, name: "PARENTHESIZED LATIN CAPITAL LETTER Y", aliases: &[] },
        Codepoint { codepoint: 0x1F129, name: "PARENTHESIZED LATIN CAPITAL LETTER Z", aliases: &[] },
        Codepoint { codepoint: 0x1F12A, name: "TORTOISE SHELL BRACKETED LATIN CAPITAL LETTER S", aliases: &[] },
        Codepoint { codepoint: 0x1F12B, name: "CIRCLED ITALIC LATIN CAPITAL LETTER C", aliases: &[] },
        Codepoint { codepoint: 0x1F12C, name: "CIRCLED ITALIC LATIN CAPITAL LETTER R", aliases: &[] },
        Codepoint { codepoint: 0x1F12D, name: "CIRCLED CD", aliases: &[] },
        Codepoint { codepoint: 0x1F12E, name: "CIRCLED WZ", aliases: &[] },
        Codepoint { codepoint: 0x1F12F, name: "COPYLEFT SYMBOL", aliases: &[] },
    ];
    assert(v@ =~= codepoint_table_786());
    v
}

pub open spec fn codepoint_table_787() -> Seq<Codepoint> {
    seq![
        Codepoint { codepoint: 0x1F130, name: "SQUARED LATIN CAPITAL LETTER A", aliases: &[] },
        Codepoint { codepoint: 0x1F131, name: "SQUARED LATIN CAPITAL LETTER B", aliases: &[] },
        Codepoint { codepoint: 0x1F132, name: "SQUARED LATIN CAPITAL LETTER C", aliases: &[] },
        Codepoint { codepoint: 0x1F133, name: "SQUARED LATIN CAPITAL LETTER D", aliases: &[] },
        Codepoint { codepoint: 0x1F134, name: "SQUARED LATIN CAPITAL LETTER E", aliases: &[] },
        Codepoint { codepoint: 0x1F135, name: "SQUARED LATIN CAPITAL LETTER F", aliases: &[] },
        Codepoint { codepoint: 0x1F136, name: "SQUARED LATIN CAPITAL LETTER G", aliases: &[] },
        Codepoint { codepoint: 0x1F137, name: "SQUARED LATIN CAPITAL LETTER H", aliases: &[] },
        Codepoint { codepoint: 0x1F138, name: "SQUARED LATIN CAPITAL LETTER I", aliases: &[] },
        Codepoint { codepoint: 0x1F139, name: "SQUARED LATIN CAPITAL LETTER J", aliases: &[] },
        Codepoint { codepoint: 0x1F13A, name: "SQUARED LATIN CAPITAL LETTER K", aliases: &[] },
        Codepoint { codepoint: 0x1F13B, name: "SQUARED LATIN CAPITAL LETTER L", aliases: &[] },
        Codepoint { codepoint: 0x1F13C, name: "SQUARED LATIN CAPITAL LETTER M", aliases: &[] },
        Codepoint { codepoint: 0x1F13D, name: "SQUARED LATIN CAPITAL LETTER N", aliases: &[] },
        Codepoint { codepoint: 0x1F13E, name: "SQUARED LATIN CAPITAL LETTER O", aliases: &[] },
        Codepoint { codepoint: 0x1F13F, name: "SQUARED LATIN CAPITAL LETTER P", aliases: &[] },
        Codepoint { codepoint: 0x1F140, name: "SQUARED LATIN CAPITAL LETTER Q", aliases: &[] },
        Codepoint { codepoint: 0x1F141, name: "SQUARED LATIN CAPITAL LETTER R", aliases: &[] },
        Codepoint { codepoint: 0x1F142, name: "SQUARED LATIN CAPITAL LETTER S", aliases: &[] },
        Codepoint { codepoint: 0x1F143, name: "SQUARED LATIN CAPITAL LETTER T", aliases: &[] },
        Codepoint { codepoint: 0x1F144, name: "SQUARED LATIN CAPITAL LETTER U", aliases: &[] },
        Codepoint { codepoint: 0x1F145, name: "SQUARED LATIN CAPITAL LETTER V", aliases: &[] },
        Codepoint { codepoint: 0x1F146, name: "SQUARED LATIN CAPITAL LETTER W", aliases: &[] },
        Codepoint { codepoint: 0x1F147, name: "SQUARED LATIN CAPITAL LETTER X", aliases: &[] },
        Codepoint { codepoint: 0x1F148, name: "SQUARED LATIN CAPITAL LETTER Y", aliases: &[] },
        Codepoint { codepoint: 0x1F149, name: "SQUARED LATIN CAPITAL LETTER Z", aliases: &[] },
        Codepoint { codepoint: 0x1F14A, name: "SQUARED HV", aliases: &[] },
        Codepoint { codepoint: 0x1F14B, name: "SQUARED MV", aliases: &[] },
        Codepoint { codepoint: 0x1F14C, name: "SQUARED SD", aliases: &[] },
        Codepoint { codepoint: 0x1F14D, name: "SQUARED SS", aliases: &[] },
        Codepoint { codepoint: 0x1F14E, name: "SQUARED PPV", aliases: &[] },
        Codepoint { codepoint: 0x1F14F, name: "SQUARED WC", aliases: &[] },
        Codepoint { codepoint: 0x1F150, name: "NEGATIVE CIRCLED LATIN CAPITAL LETTER A", aliases: &[] },
        Codepoint { codepoint: 0x1F151, name: "NEGATIVE CIRCLED LATIN CAPITAL LETTER B", aliases: &[] },
        Codepoint { codepoint: 0x1F152, name: "NEGATIVE CIRCLED LATIN CAPITAL LETTER C", aliases: &[] },
        Codepoint { codepoint: 0x1F153, name: "NEGATIVE CIRCLED LATIN CAPITAL LETTER D", aliases: &[] },
        Codepoint { codepoint: 0x1F154, name: "NEGATIVE CIRCLED LATIN CAPITAL LETTER E", aliases: &[] },
        Codepoint { codepoint: 0x1F155, name: "NEGATIVE CIRCLED LATIN CAPITAL LETTER F", aliases: &[] },
        Codepoint { codepoint: 0x1F156, name: "NEGATIVE CIRCLED LATIN CAPITAL LETTER G", aliases: &[] },
        Codepoint { codepoint: 0x1F157, name: "NEGATIVE CIRCLED LATIN CAPITAL LETTER H", aliases: &[] },
    ]
}

fn all_codepoints_787() -> (v: Vec<Codepoint>)
    ensures
        v@ == codepoint_table_787(),
{
    let v = vec![
        Codepoint { codepoint: 0x1F130, name: "SQUARED LATIN CAPITAL LETTER A", aliases: &[] },
        Codepoint { codepoint: 0x1F131, name: "SQUARED LATIN CAPITAL LETTER B", aliases: &[] },
        Codepoint { codepoint: 0x1F132, name: "SQUARED LATIN CAPITAL LETTER C", aliases: &[] },
        Codepoint { codepoint: 0x1F133, name: "SQUARED LATIN CAPITAL LETTER D", aliases: &[] },
        Codepoint { codepoint: 0x1F134, name: "SQUARED LATIN CAPITAL LETTER E", aliases: &[] },
        Codepoint { codepoint: 0x1F135, name: "SQUARED LATIN CAPITAL LETTER F", aliases: &[] },
        Codepoint { codepoint: 0x1F136, name: "SQUARED LATIN CAPITAL LETTER G", aliases: &[] },
        Codepoint { codepoint: 0x1F137, name: "SQUARED LATIN CAPITAL LETTER H", aliases: &[] },
        Codepoint { codepoint: 0x1F138, name: "SQUARED LATIN CAPITAL LETTER I", aliases: &[] },
        Codepoint { codepoint: 0x1F139, name: "SQUARED LATIN CAPITAL LETTER J", aliases: &[] },
        Codepoint { codepoint: 0x1F13A, name: "SQUARED LATIN CAPITAL LETTER K", aliases: &[] },
        Codepoint { codepoint: 0x1F13B, name: "SQUARED LATIN CAPITAL LETTER L", aliases: &[] },
        Codepoint { codepoint: 0x1F13C, name: "SQUARED LATIN CAPITAL LETTER M", aliases: &[] },
        Codepoint { codepoint: 0x1F13D, name: "SQUARED LATIN CAPITAL LETTER N", aliases: &[] },
        Codepoint { codepoint: 0x1F13E, name: "SQUARED LATIN CAPITAL LETTER O", aliases: &[] },
        Codepoint { codepoint: 0x1F13F, name: "SQUARED LATIN CAPITAL LETTER P", aliases: &[] },
        Codepoint { codepoint: 0x1F140, name: "SQUARED LATIN CAPITAL LETTER Q", aliases: &[] },
        Codepoint { codepoint: 0x1F141, name: "SQUARED LATIN CAPITAL LETTER R", aliases: &[] },
        Codepoint { codepoint: 0x1F142, name: "SQUARED LATIN CAPITAL LETTER S", aliases: &[] },
        Codepoint { codepoint: 0x1F143, name: "SQUARED LATIN CAPITAL LETTER T", aliases: &[] },
        Codepoint { codepoint: 0x1F144, name: "SQUARED LATIN CAPITAL LETTER U", aliases: &[] },
        Codepoint { codepoint: 0x1F145, name: "SQUARED LATIN CAPITAL LETTER V", aliases: &[] },
        Codepoint { codepoint: 0x1F146, name: "SQUARED LATIN CAPITAL LETTER W", aliases: &[] },
        Codepoint { codepoint: 0x1F147, name: "SQUARED LATIN CAPITAL LETTER X", aliases: &[] },
        Codepoint { codepoint: 0x1F148, name: "SQUARED LATIN CAPITAL LETTER Y", aliases: &[] },
        Codepoint { codepoint: 0x1F149, name: "SQUARED LATIN CAPITAL LETTER Z", aliases: &[] },
        Codepoint { codepoint: 0x1F14A, name: "SQUARED HV", aliases: &[] },
        Codepoint { codepoint: 0x1F14B, name: "SQUARED MV", aliases: &[] },
        Codepoint { codepoint: 0x1F14C, name: "SQUARED SD", aliases: &[] },
        Codepoint { codepoint: 0x1F14D, name: "SQUARED SS", aliases: &[] },
        Codepoint { codepoint: 0x1F14E, name: "SQUARED PPV", aliases: &[] },
        Codepoint { codepoint: 0x1F14F, name: "SQUARED WC", aliases: &[] },
        Codepoint { codepoint: 0x1F150, name: "NEGATIVE CIRCLED LATIN CAPITAL LETTER A", aliases: &[] },
        Codepoint { codepoint: 0x1F151, name: "NEGATIVE CIRCLED LATIN CAPITAL LETTER B", aliases: &[] },
        Codepoint { codepoint: 0x1F152, name: "NEGATIVE CIRCLED LATIN CAPITAL LETTER C", aliases: &[] },
        Codepoint { codepoint: 0x1F153, name: "NEGATIVE CIRCLED LATIN CAPITAL LETTER D", aliases: &[] },
        Codepoint { codepoint: 0x1F154, name: "NEGATIVE CIRCLED LATIN CAPITAL LETTER E", aliases: &[] },
        Codepoint { codepoint: 0x1F155, name: "NEGATIVE CIRCLED LATIN CAPITAL LETTER F", aliases: &[] },
        Codepoint { codepoint: 0x1F156, name: "NEGATIVE CIRCLED LATIN CAPITAL LETTER G", aliases: &[] },
        Codepoint { codepoint: 0x1F157, name: "NEGATIVE CIRCLED LATIN CAPITAL LETTER H", aliases: &[] },
    ];
    assert(v@ =~= codepoint_table_787());
    v
}

pub open spec fn codepoint_table_788() -> Seq<Codepoint> {
    seq![
        Codepoint { codepoint: 0x1F158, name: "NEGATIVE CIRCLED LATIN CAPITAL LETTER I", aliases: &[] },
        Codepoint { codepoint: 0x1F159, name: "NEGATIVE CIRCLED LATIN CAPITAL LETTER J", aliases: &[] },
        Codepoint { codepoint: 0x1F15A, name: "NEGATIVE CIRCLED LATIN CAPITAL LETTER K", aliases: &[] },
        Codepoint { codepoint: 0x1F15B, name: "NEGATIVE CIRCLED LATIN CAPITAL LETTER L", aliases: &[] },
        Codepoint { codepoint: 0x1F15C, name: "NEGATIVE CIRCLED LATIN CAPITAL LETTER M", aliases: &[] },
        Codepoint { codepoint: 0x1F15D, name: "NEGATIVE CIRCLED LATIN CAPITAL LETTER N", aliases: &[] },
        Codepoint { codepoint: 0x1F15E, name: "NEGATIVE CIRCLED LATIN CAPITAL LETTER O", aliases: &[] },
        Codepoint { codepoint: 0x1F15F, name: "NEGATIVE CIRCLED LATIN CAPITAL LETTER P", aliases: &[] },
        Codepoint { codepoint: 0x1F160, name: "NEGATIVE CIRCLED LATIN CAPITAL LETTER Q", aliases: &[] },
        Codepoint { codepoint: 0x1F161, name: "NEGATIVE CIRCLED LATIN CAPITAL LETTER R", aliases: &[] },
        Codepoint { codepoint: 0x1F162, name: "NEGATIVE CIRCLED LATIN CAPITAL LETTER S", aliases: &[] },
        Codepoint { codepoint: 0x1F163, name: "NEGATIVE CIRCLED LATIN CAPITAL LETTER T", aliases: &[] },
        Codepoint { codepoint: 0x1F164, name: "NEGATIVE CIRCLED LATIN CAPITAL LETTER U", aliases: &[] },
        Codepoint { codepoint: 0x1F165, name: "NEGATIVE CIRCLED LATIN CAPITAL LETTER V", aliases: &[] },
        Codepoint { codepoint: 0x1F166, name: "NEGATIVE CIRCLED LATIN CAPITAL LETTER W", aliases: &[] },
        Codepoint { codepoint: 0x1F167, name: "NEGATIVE CIRCLED LATIN CAPITAL LETTER X", aliases: &[] },
        Codepoint { codepoint: 0x1F168, name: "NEGATIVE CIRCLED LATIN CAPITAL LETTER Y", aliases: &[] },
        Codepoint { codepoint: 0x1F169, name: "NEGATIVE CIRCLED LATIN CAPITAL LETTER Z", aliases: &[] },
        Codepoint { codepoint: 0x1F16A, name: "RAISED MC SIGN", aliases: &[] },
        Codepoint { codepoint: 0x1F16B, name: "RAISED MD SIGN", aliases: &[] },
        Codepoint { codepoint: 0x1F16C, name: "RAISED MR SIGN", aliases: &[] },
        Codepoint { codepoint: 0x1F16D, name: "CIRCLED CC", aliases: &[] },
        Codepoint { codepoint: 0x1F16E, name: "CIRCLED C WITH OVERLAID BACKSLASH", aliases: &[] },
        Codepoint { codepoint: 0x1F16F, name: "CIRCLED HUMAN FIGURE", aliases: &[] },
        Codepoint { codepoint: 0x1F170, name: "NEGATIVE SQUARED LATIN CAPITAL LETTER A", aliases: &[] },
        Codepoint { codepoint: 0x1F171, name: "NEGATIVE SQUARED LATIN CAPITAL LETTER B", aliases: &[] },
        Codepoint { codepoint: 0x1F172, name: "NEGATIVE SQUARED LATIN CAPITAL LETTER C", aliases: &[] },
        Codepoint { codepoint: 0x1F173, name: "NEGATIVE SQUARED LATIN CAPITAL LETTER D", aliases: &[] },
        Codepoint { codepoint: 0x1F174, name: "NEGATIVE SQUARED LATIN CAPITAL LETTER E", aliases: &[] },
        Codepoint { codepoint: 0x1F175, name: "NEGATIVE SQUARED LATIN CAPITAL LETTER F", aliases: &[] },
        Codepoint { codepoint: 0x1F176, name: "NEGATIVE SQUARED LATIN CAPITAL LETTER G", aliases: &[] },
        Codepoint { codepoint: 0x1F177, name: "NEGATIVE SQUARED LATIN CAPITAL LETTER H", aliases: &[] },
        Codepoint { codepoint: 0x1F178, name: "NEGATIVE SQUARED LATIN CAPITAL LETTER I", aliases: &[] },
        Codepoint { codepoint: 0x1F179, name: "NEGATIVE SQUARED LATIN CAPITAL LETTER J", aliases: &[] },
        Codepoint { codepoint: 0x1F17A, name: "NEGATIVE SQUARED LATIN CAPITAL LETTER K", aliases: &[] },
        Codepoint { codepoint: 0x1F17B, name: "NEGATIVE SQUARED LATIN CAPITAL LETTER L", aliases: &[] },
        Codepoint { codepoint: 0x1F17C, name: "NEGATIVE SQUARED LATIN CAPITAL LETTER M", aliases: &[] },
        Codepoint { codepoint: 0x1F17D, name: "NEGATIVE SQUARED LATIN CAPITAL LETTER N", aliases: &[] },
        Codepoint { codepoint: 0x1F17E, name: "NEGATIVE SQUARED LATIN CAPITAL LETTER O", aliases: &[] },
        Codepoint { codepoint: 0x1F17F, name: "NEGATIVE SQUARED LATIN CAPITAL LETTER P", aliases: &[] },
    ]
}

fn all_codepoints_788() -> (v: Vec<Codepoint>)
    ensures
        v@ == codepoint_table_788(),
{
    let v = vec![
        Codepoint { codepoint: 0x1F158, name: "NEGATIVE CIRCLED LATIN CAPITAL LETTER I", aliases: &[] },
        Codepoint { codepoint: 0x1F159, name: "NEGATIVE CIRCLED LATIN CAPITAL LETTER J", aliases: &[] },
        Codepoint { codepoint: 0x1F15A, name: "NEGATIVE CIRCLED LATIN CAPITAL LETTER K", aliases: &[] },
        Codepoint { codepoint: 0x1F15B, name: "NEGATIVE CIRCLED LATIN CAPITAL LETTER L", aliases: &[] },
        Codepoint { codepoint: 0x1F15C, name: "NEGATIVE CIRCLED LATIN CAPITAL LETTER M", aliases: &[] },
        Codepoint { codepoint: 0x1F15D, name: "NEGATIVE CIRCLED LATIN CAPITAL LETTER N", aliases: &[] },
        Codepoint { codepoint: 0x1F15E, name: "NEGATIVE CIRCLED LATIN CAPITAL LETTER O", aliases: &[] },
        Codepoint { codepoint: 0x1F15F, name: "NEGATIVE CIRCLED LATIN CAPITAL LETTER P", aliases: &[] },
        Codepoint { codepoint: 0x1F160, name: "NEGATIVE CIRCLED LATIN CAPITAL LETTER Q", aliases: &[] },
        Codepoint { codepoint: 0x1F161, name: "NEGATIVE CIRCLED LATIN CAPITAL LETTER R", aliases: &[] },
        Codepoint { codepoint: 0x1F162, name: "NEGATIVE CIRCLED LATIN CAPITAL LETTER S", aliases: &[] },
        Codepoint { codepoint: 0x1F163, name: "NEGATIVE CIRCLED LATIN CAPITAL LETTER T", aliases: &[] },
        Codepoint { codepoint: 0x1F164, name: "NEGATIVE CIRCLED LATIN CAPITAL LETTER U", aliases: &[] },
        Codepoint { codepoint: 0x1F165, name: "NEGATIVE CIRCLED LATIN CAPITAL LETTER V", aliases: &[] },
        Codepoint { codepoint: 0x1F166, name: "NEGATIVE CIRCLED LATIN CAPITAL LETTER W", aliases: &[] },
        Codepoint { codepoint: 0x1F167, name: "NEGATIVE CIRCLED LATIN CAPITAL LETTER X", aliases: &[] },
        Codepoint { codepoint: 0x1F168, name: "NEGATIVE CIRCLED LATIN CAPITAL LETTER Y", aliases: &[] },
        Codepoint { codepoint: 0x1F169, name: "NEGATIVE CIRCLED LATIN CAPITAL LETTER Z", aliases: &[] },
        Codepoint { codepoint: 0x1F16A, name: "RAISED MC SIGN", aliases: &[] },
        Codepoint { codepoint: 0x1F16B, name: "RAISED MD SIGN", aliases: &[] },
        Codepoint { codepoint: 0x1F16C, name: "RAISED MR SIGN", aliases: &[] },
        Codepoint { codepoint: 0x1F16D, name: "CIRCLED CC", aliases: &[] },
        Codepoint { codepoint: 0x1F16E, name: "CIRCLED C WITH OVERLAID BACKSLASH", aliases: &[] },
        Codepoint { codepoint: 0x1F16F, name: "CIRCLED HUMAN FIGURE", aliases: &[] },
        Codepoint { codepoint: 0x1F170, name: "NEGATIVE SQUARED LATIN CAPITAL LETTER A", aliases: &[] },
        Codepoint { codepoint: 0x1F171, name: "NEGATIVE SQUARED LATIN CAPITAL LETTER B", aliases: &[] },
        Codepoint { codepoint: 0x1F172, name: "NEGATIVE SQUARED LATIN CAPITAL LETTER C", aliases: &[] },
        Codepoint { codepoint: 0x1F173, name: "NEGATIVE SQUARED LATIN CAPITAL LETTER D", aliases: &[] },
        Codepoint { codepoint: 0x1F174, name: "NEGATIVE SQUARED LATIN CAPITAL LETTER E", aliases: &[] },
        Codepoint { codepoint: 0x1F175, name: "NEGATIVE SQUARED LATIN CAPITAL LETTER F", aliases: &[] },
        Codepoint { codepoint: 0x1F176, name: "NEGATIVE SQUARED LATIN CAPITAL LETTER G", aliases: &[] },
        Codepoint { codepoint: 0x1F177, name: "NEGATIVE SQUARED LATIN CAPITAL LETTER H", aliases: &[] },
        Codepoint { codepoint: 0x1F178, name: "NEGATIVE SQUARED LATIN CAPITAL LETTER I", aliases: &[] },
        Codepoint { codepoint: 0x1F179, name: "NEGATIVE SQUARED LATIN CAPITAL LETTER J", aliases: &[] },
        Codepoint { codepoint: 0x1F17A, name: "NEGATIVE SQUARED LATIN CAPITAL LETTER K", aliases: &[] },
        Codepoint { codepoint: 0x1F17B, name: "NEGATIVE SQUARED LATIN CAPITAL LETTER L", aliases: &[] },
        Codepoint { codepoint: 0x1F17C, name: "NEGATIVE SQUARED LATIN CAPITAL LETTER M", aliases: &[] },
        Codepoint { codepoint: 0x1F17D, name: "NEGATIVE SQUARED LATIN CAPITAL LETTER N", aliases: &[] },
        Codepoint { codepoint: 0x1F17E, name: "NEGATIVE SQUARED LATIN CAPITAL LETTER O", aliases: &[] },
        Codepoint { codepoint: 0x1F17F, name: "NEGATIVE SQUARED LATIN CAPITAL LETTER P", aliases: &[] },
    ];
    assert(v@ =~= codepoint_table_788());
    v
}

pub open spec fn codepoint_table_789() -> Seq<Codepoint> {
    seq![
        Codepoint { codepoint: 0x1F180, name: "NEGATIVE SQUARED LATIN CAPITAL LETTER Q", aliases: &[] },
        Codepoint { codepoint: 0x1F181, name: "NEGATIVE SQUARED LATIN CAPITAL LETTER R", aliases: &[] },
        Codepoint { codepoint: 0x1F182, name: "NEGATIVE SQUARED LATIN CAPITAL LETTER S", aliases: &[] },
        Codepoint { codepoint: 0x1F183, name: "NEGATIVE SQUARED LATIN CAPITAL LETTER T", aliases: &[] },
        Codepoint { codepoint: 0x1F184, name: "NEGATIVE SQUARED LATIN CAPITAL LETTER U", aliases: &[] },
        Codepoint { codepoint: 0x1F185, name: "NEGATIVE SQUARED LATIN CAPITAL LETTER V", aliases: &[] },
        Codepoint { codepoint: 0x1F186, name: "NEGATIVE SQUARED LATIN CAPITAL LETTER W", aliases: &[] },
        Codepoint { codepoint: 0x1F187, name: "NEGATIVE SQUARED LATIN CAPITAL LETTER X", aliases: &[] },
        Codepoint { codepoint: 0x1F188, name: "NEGATIVE SQUARED LATIN CAPITAL LETTER Y", aliases: &[] },
        Codepoint { codepoint: 0x1F189, name: "NEGATIVE SQUARED LATIN CAPITAL LETTER Z", aliases: &[] },
        Codepoint { codepoint: 0x1F18A, name: "CROSSED NEGATIVE SQUARED LATIN CAPITAL LETTER P", aliases: &[] },
        Codepoint { codepoint: 0x1F18B, name: "NEGATIVE SQUARED IC", aliases: &[] },
        Codepoint { codepoint: 0x1F18C, name: "NEGATIVE SQUARED PA", aliases: &[] },
        Codepoint { codepoint: 0x1F18D, name: "NEGATIVE SQUARED SA", aliases: &[] },
        Codepoint { codepoint: 0x1F18E, name: "NEGATIVE SQUARED AB", aliases: &[] },
        Codepoint { codepoint: 0x1F18F, name: "NEGATIVE SQUARED WC", aliases: &[] },
        Codepoint { codepoint: 0x1F190, name: "SQUARE DJ", aliases: &[] },
        Codepoint { codepoint: 0x1F191, name: "SQUARED CL", aliases: &[] },
        Codepoint { codepoint: 0x1F192, name: "SQUARED COOL", aliases: &[] },
        Codepoint { codepoint: 0x1F193, name: "SQUARED FREE", aliases: &[] },
        Codepoint { codepoint: 0x1F194, name: "SQUARED ID", aliases: &[] },
        Codepoint { codepoint: 0x1F195, name: "SQUARED NEW", aliases: &[] },
        Codepoint { codepoint: 0x1F196, name: "SQUARED NG", aliases: &[] },
        Codepoint { codepoint: 0x1F197, name: "SQUARED OK", aliases: &[] },
        Codepoint { codepoint: 0x1F198, name: "SQUARED SOS", aliases: &[] },
        Codepoint { codepoint: 0x1F199, name: "SQUARED UP WITH EXCLAMATION MARK", aliases: &[] },
        Codepoint { codepoint: 0x1F19A, name: "SQUARED VS", aliases: &[] },
        Codepoint { codepoint: 0x1F19B, name: "SQUARED THREE D", aliases: &[] },
        Codepoint { codepoint: 0x1F19C, name: "SQUARED SECOND SCREEN", aliases: &[] },
        Codepoint { codepoint: 0x1F19D, name: "SQUARED TWO K", aliases: &[] },
        Codepoint { codepoint: 0x1F19E, name: "SQUARED FOUR K", aliases: &[] },
        Codepoint { codepoint: 0x1F19F, name: "SQUARED EIGHT K", aliases: &[] },
        Codepoint { codepoint: 0x1F1A0, name: "SQUARED FIVE POINT ONE", aliases: &[] },
        Codepoint { codepoint: 0x1F1A1, name: "SQUARED SEVEN POINT ONE", aliases: &[] },
        Codepoint { codepoint: 0x1F1A2, name: "SQUARED TWENTY-TWO POINT TWO", aliases: &[] },
        Codepoint { codepoint: 0x1F1A3, name: "SQUARED SIXTY P", aliases: &[] },
        Codepoint { codepoint: 0x1F1A4, name: "SQUARED ONE HUNDRED TWENTY P", aliases: &[] },
        Codepoint { codepoint: 0x1F1A5, name: "SQUARED LATIN SMALL LETTER D", aliases: &[] },
        Codepoint { codepoint: 0x1F1A6, name: "SQUARED HC", aliases: &[] },
        Codepoint { codepoint: 0x1F1A7, name: "SQUARED HDR", aliases: &[] },
    ]
}

fn all_codepoints_789() -> (v: Vec<Codepoint>)
    ensures
        v@ == codepoint_table_789(),
{
    let v = vec![
        Codepoint { codepoint: 0x1F180, name: "NEGATIVE SQUARED LATIN CAPITAL LETTER Q", aliases: &[] },
        Codepoint { codepoint: 0x1F181, name: "NEGATIVE SQUARED LATIN CAPITAL LETTER R", aliases: &[] },
        Codepoint { codepoint: 0x1F182, name: "NEGATIVE SQUARED LATIN CAPITAL LETTER S", aliases: &[] },
        Codepoint { codepoint: 0x1F183, name: "NEGATIVE SQUARED LATIN CAPITAL LETTER T", aliases: &[] },
        Codepoint { codepoint: 0x1F184, name: "NEGATIVE SQUARED LATIN CAPITAL LETTER U", aliases: &[] },
        Codepoint { codepoint: 0x1F185, name: "NEGATIVE SQUARED LATIN CAPITAL LETTER V", aliases: &[] },
        Codepoint { codepoint: 0x1F186, name: "NEGATIVE SQUARED LATIN CAPITAL LETTER W", aliases: &[] },
        Codepoint { codepoint: 0x1F187, name: "NEGATIVE SQUARED LATIN CAPITAL LETTER X", aliases: &[] },
        Codepoint { codepoint: 0x1F188, name: "NEGATIVE SQUARED LATIN CAPITAL LETTER Y", aliases: &[] },
        Codepoint { codepoint: 0x1F189, name: "NEGATIVE SQUARED LATIN CAPITAL LETTER Z", aliases: &[] },
        Codepoint { codepoint: 0x1F18A, name: "CROSSED NEGATIVE SQUARED LATIN CAPITAL LETTER P", aliases: &[] },
        Codepoint { codepoint: 0x1F18B, name: "NEGATIVE SQUARED IC", aliases: &[] },
        Codepoint { codepoint: 0x1F18C, name: "NEGATIVE SQUARED PA", aliases: &[] },
        Codepoint { codepoint: 0x1F18D, name: "NEGATIVE SQUARED SA", aliases: &[] },
        Codepoint { codepoint: 0x1F18E, name: "NEGATIVE SQUARED AB", aliases: &[] },
        Codepoint { codepoint: 0x1F18F, name: "NEGATIVE SQUARED WC", aliases: &[] },
        Codepoint { codepoint: 0x1F190, name: "SQUARE DJ", aliases: &[] },
        Codepoint { codepoint: 0x1F191, name: "SQUARED CL", aliases: &[] },
        Codepoint { codepoint: 0x1F192, name: "SQUARED COOL", aliases: &[] },
        Codepoint { codepoint: 0x1F193, name: "SQUARED FREE", aliases: &[] },
        Codepoint { codepoint: 0x1F194, name: "SQUARED ID", aliases: &[] },
        Codepoint { codepoint: 0x1F195, name: "SQUARED NEW", aliases: &[] },
        Codepoint { codepoint: 0x1F196, name: "SQUARED NG", aliases: &[] },
        Codepoint { codepoint: 0x1F197, name: "SQUARED OK", aliases: &[] },
        Codepoint { codepoint: 0x1F198, name: "SQUARED SOS", aliases: &[] },
        Codepoint { codepoint: 0x1F199, name: "SQUARED UP WITH EXCLAMATION MARK", aliases: &[] },
        Codepoint { codepoint: 0x1F19A, name: "SQUARED VS", aliases: &[] },
        Codepoint { codepoint: 0x1F19B, name: "SQUARED THREE D", aliases: &[] },
        Codepoint { codepoint: 0x1F19C, name: "SQUARED SECOND SCREEN", aliases: &[] },
        Codepoint { codepoint: 0x1F19D, name: "SQUARED TWO K", aliases: &[] },
        Codepoint { codepoint: 0x1F19E, name: "SQUARED FOUR K", aliases: &[] },
        Codepoint { codepoint: 0x1F19F, name: "SQUARED EIGHT K", aliases: &[] },
        Codepoint { codepoint: 0x1F1A0, name: "SQUARED FIVE POINT ONE", aliases: &[] },
        Codepoint { codepoint: 0x1F1A1, name: "SQUARED SEVEN POINT ONE", aliases: &[] },
        Codepoint { codepoint: 0x1F1A2, name: "SQUARED TWENTY-TWO POINT TWO", aliases: &[] },
        Codepoint { codepoint: 0x1F1A3, name: "SQUARED SIXTY P", aliases: &[] },
        Codepoint { codepoint: 0x1F1A4, name: "SQUARED ONE HUNDRED TWENTY P", aliases: &[] },
        Codepoint { codepoint: 0x1F1A5, name: "SQUARED LATIN SMALL LETTER D", aliases: &[] },
        Codepoint { codepoint: 0x1F1A6, name: "SQUARED HC", aliases: &[] },
        Codepoint { codepoint: 0x1F1A7, name: "SQUARED HDR", aliases: &[] },
    ];
    assert(v@ =~= codepoint_table_789());
    v
}

pub open spec fn codepoint_table_790() -> Seq<Codepoint> {
    seq![
        Codepoint { codepoint: 0x1F1A8, name: "SQUARED HI-RES", aliases: &[] },
        Codepoint { codepoint: 0x1F1A9, name: "SQUARED LOSSLESS", aliases: &[] },
        Codepoint { codepoint: 0x1F1AA, name: "SQUARED SHV", aliases: &[] },
        Codepoint { codepoint: 0x1F1AB, name: "SQUARED UHD", aliases: &[] },
        Codepoint { codepoint: 0x1F1AC, name: "SQUARED VOD", aliases: &[] },
        Codepoint { codepoint: 0x1F1AD, name: "MASK WORK SYMBOL", aliases: &[] },
        Codepoint { codepoint: 0x1F1E6, name: "REGIONAL INDICATOR SYMBOL LETTER A", aliases: &[] },
        Codepoint { codepoint: 0x1F1E7, name: "REGIONAL INDICATOR SYMBOL LETTER B", aliases: &[] },
        Codepoint { codepoint: 0x1F1E8, name: "REGIONAL INDICATOR SYMBOL LETTER C", aliases: &[] },
        Codepoint { codepoint: 0x1F1E9, name: "REGIONAL INDICATOR SYMBOL LETTER D", aliases: &[] },
        Codepoint { codepoint: 0x1F1EA, name: "REGIONAL INDICATOR SYMBOL LETTER E", aliases: &[] },
        Codepoint { codepoint: 0x1F1EB, name: "REGIONAL INDICATOR SYMBOL LETTER F", aliases: &[] },
        Codepoint { codepoint: 0x1F1EC, name: "REGIONAL INDICATOR SYMBOL LETTER G", aliases: &[] },
        Codepoint { codepoint: 0x1F1ED, name: "REGIONAL INDICATOR SYMBOL LETTER H", aliases: &[] },
        Codepoint { codepoint: 0x1F1EE, name: "REGIONAL INDICATOR SYMBOL LETTER I", aliases: &[] },
        Codepoint { codepoint: 0x1F1EF, name: "REGIONAL INDICATOR SYMBOL LETTER J", aliases: &[] },
        Codepoint { codepoint: 0x1F1F0, name: "REGIONAL INDICATOR SYMBOL LETTER K", aliases: &[] },
        Codepoint { codepoint: 0x1F1F1, name: "REGIONAL INDICATOR SYMBOL LETTER L", aliases: &[] },
        Codepoint { codepoint: 0x1F1F2, name: "REGIONAL INDICATOR SYMBOL LETTER M", aliases: &[] },
        Codepoint { codepoint: 0x1F1F3, name: "REGIONAL INDICATOR SYMBOL LETTER N", aliases: &[] },
        Codepoint { codepoint: 0x1F1F4, name: "REGIONAL INDICATOR SYMBOL LETTER O", aliases: &[] },
        Codepoint { codepoint: 0x1F1F5, name: "REGIONAL INDICATOR SYMBOL LETTER P", aliases: &[] },
        Codepoint { codepoint: 0x1F1F6, name: "REGIONAL INDICATOR SYMBOL LETTER Q", aliases: &[] },
        Codepoint { codepoint: 0x1F1F7, name: "REGIONAL INDICATOR SYMBOL LETTER R", aliases: &[] },
        Codepoint { codepoint: 0x1F1F8, name: "REGIONAL INDICATOR SYMBOL LETTER S", aliases: &[] },
        Codepoint { codepoint: 0x1F1F9, name: "REGIONAL INDICATOR SYMBOL LETTER T", aliases: &[] },
        Codepoint { codepoint: 0x1F1FA, name: "REGIONAL INDICATOR SYMBOL LETTER U", aliases: &[] },
        Codepoint { codepoint: 0x1F1FB, name: "REGIONAL INDICATOR SYMBOL LETTER V", aliases: &[] },
        Codepoint { codepoint: 0x1F1FC, name: "REGIONAL INDICATOR SYMBOL LETTER W", aliases: &[] },
        Codepoint { codepoint: 0x1F1FD, name: "REGIONAL INDICATOR SYMBOL LETTER X", aliases: &[] },
        Codepoint { codepoint: 0x1F1FE, name: "REGIONAL INDICATOR SYMBOL LETTER Y", aliases: &[] },
        Codepoint { codepoint: 0x1F1FF, name: "REGIONAL INDICATOR SYMBOL LETTER Z", aliases: &[] },
        Codepoint { codepoint: 0x1F200, name: "SQUARE HIRAGANA HOKA", aliases: &[] },
        Codepoint { codepoint: 0x1F201, name: "SQUARED KATAKANA KOKO", aliases: &[] },
        Codepoint { codepoint: 0x1F202, name: "SQUARED KATAKANA SA", aliases: &[] },
        Codepoint { codepoint: 0x1F210, name: "SQUARED CJK UNIFIED IDEOGRAPH-624B", aliases: &[] },
        Codepoint { codepoint: 0x1F211, name: "SQUARED CJK UNIFIED IDEOGRAPH-5B57", aliases: &[] },
        Codepoint { codepoint: 0x1F212, name: "SQUARED CJK UNIFIED IDEOGRAPH-53CC", aliases: &[] },
        Codepoint { codepoint: 0x1F213, name: "SQUARED KATAKANA DE", aliases: &[] },
        Codepoint { codepoint: 0x1F214, name: "SQUARED CJK UNIFIED IDEOGRAPH-4E8C", aliases: &[] },
    ]
}

fn all_codepoints_790() -> (v: Vec<Codepoint>)
    ensures
        v@ == codepoint_table_790(),
{
    let v = vec![
        Codepoint { codepoint: 0x1F1A8, name: "SQUARED HI-RES", aliases: &[] },
        Codepoint { codepoint: 0x1F1A9, name: "SQUARED LOSSLESS", aliases: &[] },
        Codepoint { codepoint: 0x1F1AA, name: "SQUARED SHV", aliases: &[] },
        Codepoint { codepoint: 0x1F1AB, name: "SQUARED UHD", aliases: &[] },
        Codepoint { codepoint: 0x1F1AC, name: "SQUARED VOD", aliases: &[] },
        Codepoint { codepoint: 0x1F1AD, name: "MASK WORK SYMBOL", aliases: &[] },
        Codepoint { codepoint: 0x1F1E6, name: "REGIONAL INDICATOR SYMBOL LETTER A", aliases: &[] },
        Codepoint { codepoint: 0x1F1E7, name: "REGIONAL INDICATOR SYMBOL LETTER B", aliases: &[] },
        Codepoint { codepoint: 0x1F1E8, name: "REGIONAL INDICATOR SYMBOL LETTER C", aliases: &[] },
        Codepoint { codepoint: 0x1F1E9, name: "REGIONAL INDICATOR SYMBOL LETTER D", aliases: &[] },
        Codepoint { codepoint: 0x1F1EA, name: "REGIONAL INDICATOR SYMBOL LETTER E", aliases: &[] },
        Codepoint { codepoint: 0x1F1EB, name: "REGIONAL INDICATOR SYMBOL LETTER F", aliases: &[] },
        Codepoint { codepoint: 0x1F1EC, name: "REGIONAL INDICATOR SYMBOL LETTER G", aliases: &[] },
        Codepoint { codepoint: 0x1F1ED, name: "REGIONAL INDICATOR SYMBOL LETTER H", aliases: &[] },
        Codepoint { codepoint: 0x1F1EE, name: "REGIONAL INDICATOR SYMBOL LETTER I", aliases: &[] },
        Codepoint { codepoint: 0x1F1EF, name: "REGIONAL INDICATOR SYMBOL LETTER J", aliases: &[] },
        Codepoint { codepoint: 0x1F1F0, name: "REGIONAL INDICATOR SYMBOL LETTER K", aliases: &[] },
        Codepoint { codepoint: 0x1F1F1, name: "REGIONAL INDICATOR SYMBOL LETTER L", aliases: &[] },
        Codepoint { codepoint: 0x1F1F2, name: "REGIONAL INDICATOR SYMBOL LETTER M", aliases: &[] },
        Codepoint { codepoint: 0x1F1F3, name: "REGIONAL INDICATOR SYMBOL LETTER N", aliases: &[] },
        Codepoint { codepoint: 0x1F1F4, name: "REGIONAL INDICATOR SYMBOL LETTER O", aliases: &[] },
        Codepoint { codepoint: 0x1F1F5, name: "REGIONAL INDICATOR SYMBOL LETTER P", aliases: &[] },
        Codepoint { codepoint: 0x1F1F6, name: "REGIONAL INDICATOR SYMBOL LETTER Q", aliases: &[] },
        Codepoint { codepoint: 0x1F1F7, name: "REGIONAL INDICATOR SYMBOL LETTER R", aliases: &[] },
        Codepoint { codepoint: 0x1F1F8, name: "REGIONAL INDICATOR SYMBOL LETTER S", aliases: &[] },
        Codepoint { codepoint: 0x1F1F9, name: "REGIONAL INDICATOR SYMBOL LETTER T", aliases: &[] },
        Codepoint { codepoint: 0x1F1FA, name: "REGIONAL INDICATOR SYMBOL LETTER U", aliases: &[] },
        Codepoint { codepoint: 0x1F1FB, name: "REGIONAL INDICATOR SYMBOL LETTER V", aliases: &[] },
        Codepoint { codepoint: 0x1F1FC, name: "REGIONAL INDICATOR SYMBOL LETTER W", aliases: &[] },
        Codepoint { codepoint: 0x1F1FD, name: "REGIONAL INDICATOR SYMBOL LETTER X", aliases: &[] },
        Codepoint { codepoint: 0x1F1FE, name: "REGIONAL INDICATOR SYMBOL LETTER Y", aliases: &[] },
        Codepoint { codepoint: 0x1F1FF, name: "REGIONAL INDICATOR SYMBOL LETTER Z", aliases: &[] },
        Codepoint { codepoint: 0x1F200, name: "SQUARE HIRAGANA HOKA", aliases: &[] },
        Codepoint { codepoint: 0x1F201, name: "SQUARED KATAKANA KOKO", aliases: &[] },
        Codepoint { codepoint: 0x1F202, name: "SQUARED KATAKANA SA", aliases: &[] },
        Codepoint { codepoint: 0x1F210, name: "SQUARED CJK UNIFIED IDEOGRAPH-624B", aliases: &[] },
        Codepoint { codepoint: 0x1F211, name: "SQUARED CJK UNIFIED IDEOGRAPH-5B57", aliases: &[] },
        Codepoint { codepoint: 0x1F212, name: "SQUARED CJK UNIFIED IDEOGRAPH-53CC", aliases: &[] },
        Codepoint { codepoint: 0x1F213, name: "SQUARED KATAKANA DE", aliases: &[] },
        Codepoint { codepoint: 0x1F214, name: "SQUARED CJK UNIFIED IDEOGRAPH-4E8C", aliases: &[] },
    ];
    assert(v@ =~= codepoint_table_790());
    v
}

pub open spec fn codepoint_table_791() -> Seq<Codepoint> {
    seq![
        Codepoint { codepoint: 0x1F215, name: "SQUARED CJK UNIFIED IDEOGRAPH-591A", aliases: &[] },
        Codepoint { codepoint: 0x1F216, name: "SQUARED CJK UNIFIED IDEOGRAPH-89E3", aliases: &[] },
        Codepoint { codepoint: 0x1F217, name: "SQUARED CJK UNIFIED IDEOGRAPH-5929", aliases: &[] },
        Codepoint { codepoint: 0x1F218, name: "SQUARED CJK UNIFIED IDEOGRAPH-4EA4", aliases: &[] },
        Codepoint { codepoint: 0x1F219, name: "SQUARED CJK UNIFIED IDEOGRAPH-6620", aliases: &[] },
        Codepoint { codepoint: 0x1F21A, name: "SQUARED CJK UNIFIED IDEOGRAPH-7121", aliases: &[] },
        Codepoint { codepoint: 0x1F21B, name: "SQUARED CJK UNIFIED IDEOGRAPH-6599", aliases: &[] },
        Codepoint { codepoint: 0x1F21C, name: "SQUARED CJK UNIFIED IDEOGRAPH-524D", aliases: &[] },
        Codepoint { codepoint: 0x1F21D, name: "SQUARED CJK UNIFIED IDEOGRAPH-5F8C", aliases: &[] },
        Codepoint { codepoint: 0x1F21E, name: "SQUARED CJK UNIFIED IDEOGRAPH-518D", aliases: &[] },
        Codepoint { codepoint: 0x1F21F, name: "SQUARED CJK UNIFIED IDEOGRAPH-65B0", aliases: &[] },
        Codepoint { codepoint: 0x1F220, name: "SQUARED CJK UNIFIED IDEOGRAPH-521D", aliases: &[] },
        Codepoint { codepoint: 0x1F221, name: "SQUARED CJK UNIFIED IDEOGRAPH-7D42", aliases: &[] },
        Codepoint { codepoint: 0x1F222, name: "SQUARED CJK UNIFIED IDEOGRAPH-751F", aliases: &[] },
        Codepoint { codepoint: 0x1F223, name: "SQUARED CJK UNIFIED IDEOGRAPH-8CA9", aliases: &[] },
        Codepoint { codepoint: 0x1F224, name: "SQUARED CJK UNIFIED IDEOGRAPH-58F0", aliases: &[] },
        Codepoint { codepoint: 0x1F225, name: "SQUARED CJK UNIFIED IDEOGRAPH-5439", aliases: &[] },
        Codepoint { codepoint: 0x1F226, name: "SQUARED CJK UNIFIED IDEOGRAPH-6F14", aliases: &[] },
        Codepoint { codepoint: 0x1F227, name: "SQUARED CJK UNIFIED IDEOGRAPH-6295", aliases: &[] },
        Codepoint { codepoint: 0x1F228, name: "SQUARED CJK UNIFIED IDEOGRAPH-6355", aliases: &[] },
        Codepoint { codepoint: 0x1F229, name: "SQUARED CJK UNIFIED IDEOGRAPH-4E00", aliases: &[] },
        Codepoint { codepoint: 0x1F22A, name: "SQUARED CJK UNIFIED IDEOGRAPH-4E09", aliases: &[] },
        Codepoint { codepoint: 0x1F22B, name: "SQUARED CJK UNIFIED IDEOGRAPH-904A", aliases: &[] },
        Codepoint { codepoint: 0x1F22C, name: "SQUARED CJK UNIFIED IDEOGRAPH-5DE6", aliases: &[] },
        Codepoint { codepoint: 0x1F22D, name: "SQUARED CJK UNIFIED IDEOGRAPH-4E2D", aliases: &[] },
        Codepoint { codepoint: 0x1F22E, name: "SQUARED CJK UNIFIED IDEOGRAPH-53F3", aliases: &[] },
        Codepoint { codepoint: 0x1F22F, name: "SQUARED CJK UNIFIED IDEOGRAPH-6307", aliases: &[] },
        Codepoint { codepoint: 0x1F230, name: "SQUARED CJK UNIFIED IDEOGRAPH-8D70", aliases: &[] },
        Codepoint { codepoint: 0x1F231, name: "SQUARED CJK UNIFIED IDEOGRAPH-6253", aliases: &[] },
        Codepoint { codepoint: 0x1F232, name: "SQUARED CJK UNIFIED IDEOGRAPH-7981", aliases: &[] },
        Codepoint { codepoint: 0x1F233, name: "SQUARED CJK UNIFIED IDEOGRAPH-7A7A", aliases: &[] },
        Codepoint { codepoint: 0x1F234, name: "SQUARED CJK UNIFIED IDEOGRAPH-5408", aliases: &[] },
        Codepoint { codepoint: 0x1F235, name: "SQUARED CJK UNIFIED IDEOGRAPH-6E80", aliases: &[] },
        Codepoint { codepoint: 0x1F236, name: "SQUARED CJK UNIFIED IDEOGRAPH-6709", aliases: &[] },
        Codepoint { codepoint: 0x1F237, name: "SQUARED CJK UNIFIED IDEOGRAPH-6708", aliases: &[] },
        Codepoint { codepoint: 0x1F238, name: "SQUARED CJK UNIFIED IDEOGRAPH-7533", aliases: &[] },
        Codepoint { codepoint: 0x1F239, name: "SQUARED CJK UNIFIED IDEOGRAPH-5272", aliases: &[] },
        Codepoint { codepoint: 0x1F23A, name: "SQUARED CJK UNIFIED IDEOGRAPH-55B6", aliases: &[] },
        Codepoint { codepoint: 0x1F23B, name: "SQUARED CJK UNIFIED IDEOGRAPH-914D", aliases: &[] },
        Codepoint { codepoint: 0x1F240, name: "TORTOISE SHELL BRACKETED CJK UNIFIED IDEOGRAPH-672C", aliases: &[] },
    ]
}

fn all_codepoints_791() -> (v: Vec<Codepoint>)
    ensures
        v@ == codepoint_table_791(),
{
    let v = vec![
        Codepoint { codepoint: 0x1F215, name: "SQUARED CJK UNIFIED IDEOGRAPH-591A", aliases: &[] },
        Codepoint { codepoint: 0x1F216, name: "SQUARED CJK UNIFIED IDEOGRAPH-89E3", aliases: &[] },
        Codepoint { codepoint: 0x1F217, name: "SQUARED CJK UNIFIED IDEOGRAPH-5929", aliases: &[] },
        Codepoint { codepoint: 0x1F218, name: "SQUARED CJK UNIFIED IDEOGRAPH-4EA4", aliases: &[] },
        Codepoint { codepoint: 0x1F219, name: "SQUARED CJK UNIFIED IDEOGRAPH-6620", aliases: &[] },
        Codepoint { codepoint: 0x1F21A, name: "SQUARED CJK UNIFIED IDEOGRAPH-7121", aliases: &[] },
        Codepoint { codepoint: 0x1F21B, name: "SQUARED CJK UNIFIED IDEOGRAPH-6599", aliases: &[] },
        Codepoint { codepoint: 0x1F21C, name: "SQUARED CJK UNIFIED IDEOGRAPH-524D", aliases: &[] },
        Codepoint { codepoint: 0x1F21D, name: "SQUARED CJK UNIFIED IDEOGRAPH-5F8C", aliases: &[] },
        Codepoint { codepoint: 0x1F21E, name: "SQUARED CJK UNIFIED IDEOGRAPH-518D", aliases: &[] },
        Codepoint { codepoint: 0x1F21F, name: "SQUARED CJK UNIFIED IDEOGRAPH-65B0", aliases: &[] },
        Codepoint { codepoint: 0x1F220, name: "SQUARED CJK UNIFIED IDEOGRAPH-521D", aliases: &[] },
        Codepoint { codepoint: 0x1F221, name: "SQUARED CJK UNIFIED IDEOGRAPH-7D42", aliases: &[] },
        Codepoint { codepoint: 0x1F222, name: "SQUARED CJK UNIFIED IDEOGRAPH-751F", aliases: &[] },
        Codepoint { codepoint: 0x1F223, name: "SQUARED CJK UNIFIED IDEOGRAPH-8CA9", aliases: &[] },
        Codepoint { codepoint: 0x1F224, name: "SQUARED CJK UNIFIED IDEOGRAPH-58F0", aliases: &[] },
        Codepoint { codepoint: 0x1F225, name: "SQUARED CJK UNIFIED IDEOGRAPH-5439", aliases: &[] },
        Codepoint { codepoint: 0x1F226, name: "SQUARED CJK UNIFIED IDEOGRAPH-6F14", aliases: &[] },
        Codepoint { codepoint: 0x1F227, name: "SQUARED CJK UNIFIED IDEOGRAPH-6295", aliases: &[] },
        Codepoint { codepoint: 0x1F228, name: "SQUARED CJK UNIFIED IDEOGRAPH-6355", aliases: &[] },
        Codepoint { codepoint: 0x1F229, name: "SQUARED CJK UNIFIED IDEOGRAPH-4E00", aliases: &[] },
        Codepoint { codepoint: 0x1F22A, name: "SQUARED CJK UNIFIED IDEOGRAPH-4E09", aliases: &[] },
        Codepoint { codepoint: 0x1F22B, name: "SQUARED CJK UNIFIED IDEOGRAPH-904A", aliases: &[] },
        Codepoint { codepoint: 0x1F22C, name: "SQUARED CJK UNIFIED IDEOGRAPH-5DE6", aliases: &[] },
        Codepoint { codepoint: 0x1F22D, name: "SQUARED CJK UNIFIED IDEOGRAPH-4E2D", aliases: &[] },
        Codepoint { codepoint: 0x1F22E, name: "SQUARED CJK UNIFIED IDEOGRAPH-53F3", aliases: &[] },
        Codepoint { codepoint: 0x1F22F, name: "SQUARED CJK UNIFIED IDEOGRAPH-6307", aliases: &[] },
        Codepoint { codepoint: 0x1F230, name: "SQUARED CJK UNIFIED IDEOGRAPH-8D70", aliases: &[] },
        Codepoint { codepoint: 0x1F231, name: "SQUARED CJK UNIFIED IDEOGRAPH-6253", aliases: &[] },
        Codepoint { codepoint: 0x1F232, name: "SQUARED CJK UNIFIED IDEOGRAPH-7981", aliases: &[] },
        Codepoint { codepoint: 0x1F233, name: "SQUARED CJK UNIFIED IDEOGRAPH-7A7A", aliases: &[] },
        Codepoint { codepoint: 0x1F234, name: "SQUARED CJK UNIFIED IDEOGRAPH-5408", aliases: &[] },
        Codepoint { codepoint: 0x1F235, name: "SQUARED CJK UNIFIED IDEOGRAPH-6E80", aliases: &[] },
        Codepoint { codepoint: 0x1F236, name: "SQUARED CJK UNIFIED IDEOGRAPH-6709", aliases: &[] },
        Codepoint { codepoint: 0x1F237, name: "SQUARED CJK UNIFIED IDEOGRAPH-6708", aliases: &[] },
        Codepoint { codepoint: 0x1F238, name: "SQUARED CJK UNIFIED IDEOGRAPH-7533", aliases: &[] },
        Codepoint { codepoint: 0x1F239, name: "SQUARED CJK UNIFIED IDEOGRAPH-5272", aliases: &[] },
        Codepoint { codepoint: 0x1F23A, name: "SQUARED CJK UNIFIED IDEOGRAPH-55B6", aliases: &[] },
        Codepoint { codepoint: 0x1F23B, name: "SQUARED CJK UNIFIED IDEOGRAPH-914D", aliases: &[] },
        Codepoint { codepoint: 0x1F240, name: "TORTOISE SHELL BRACKETED CJK UNIFIED IDEOGRAPH-672C", aliases: &[] },
    ];
    assert(v@ =~= codepoint_table_791());
    v
}

pub open spec fn codepoint_table_792() -> Seq<Codepoint> {
    seq![
        Codepoint { codepoint: 0x1F241, name: "TORTOISE SHELL BRACKETED CJK UNIFIED IDEOGRAPH-4E09", aliases: &[] },
        Codepoint { codepoint: 0x1F242, name: "TORTOISE SHELL BRACKETED CJK UNIFIED IDEOGRAPH-4E8C", aliases: &[] },
        Codepoint { codepoint: 0x1F243, name: "TORTOISE SHELL BRACKETED CJK UNIFIED IDEOGRAPH-5B89", aliases: &[] },
        Codepoint { codepoint: 0x1F244, name: "TORTOISE SHELL BRACKETED CJK UNIFIED IDEOGRAPH-70B9", aliases: &[] },
        Codepoint { codepoint: 0x1F245, name: "TORTOISE SHELL BRACKETED CJK UNIFIED IDEOGRAPH-6253", aliases: &[] },
        Codepoint { codepoint: 0x1F246, name: "TORTOISE SHELL BRACKETED CJK UNIFIED IDEOGRAPH-76D7", aliases: &[] },
        Codepoint { codepoint: 0x1F247, name: "TORTOISE SHELL BRACKETED CJK UNIFIED IDEOGRAPH-52DD", aliases: &[] },
        Codepoint { codepoint: 0x1F248, name: "TORTOISE SHELL BRACKETED CJK UNIFIED IDEOGRAPH-6557", aliases: &[] },
        Codepoint { codepoint: 0x1F250, name: "CIRCLED IDEOGRAPH ADVANTAGE", aliases: &[] },
        Codepoint { codepoint: 0x1F251, name: "CIRCLED IDEOGRAPH ACCEPT", aliases: &[] },
        Codepoint { codepoint: 0x1F260, name: "ROUNDED SYMBOL FOR FU", aliases: &[] },
        Codepoint { codepoint: 0x1F261, name: "ROUNDED SYMBOL FOR LU", aliases: &[] },
        Codepoint { codepoint: 0x1F262, name: "ROUNDED SYMBOL FOR SHOU", aliases: &[] },
        Codepoint { codepoint: 0x1F263, name: "ROUNDED SYMBOL FOR XI", aliases: &[] },
        Codepoint { codepoint: 0x1F264, name: "ROUNDED SYMBOL FOR SHUANGXI", aliases: &[] },
        Codepoint { codepoint: 0x1F265, name: "ROUNDED SYMBOL FOR CAI", aliases: &[] },
        Codepoint { codepoint: 0x1F300, name: "CYCLONE", aliases: &[] },
        Codepoint { codepoint: 0x1F301, name: "FOGGY", aliases: &[] },
        Codepoint { codepoint: 0x1F302, name: "CLOSED UMBRELLA", aliases: &[] },
        Codepoint { codepoint: 0x1F303, name: "NIGHT WITH STARS", aliases: &[] },
        Codepoint { codepoint: 0x1F304, name: "SUNRISE OVER MOUNTAINS", aliases: &[] },
        Codepoint { codepoint: 0x1F305, name: "SUNRISE", aliases: &[] },
        Codepoint { codepoint: 0x1F306, name: "CITYSCAPE AT DUSK", aliases: &[] },
        Codepoint { codepoint: 0x1F307, name: "SUNSET OVER BUILDINGS", aliases: &[] },
        Codepoint { codepoint: 0x1F308, name: "RAINBOW", aliases: &[] },
        Codepoint { codepoint: 0x1F309, name: "BRIDGE AT NIGHT", aliases: &[] },
        Codepoint { codepoint: 0x1F30A, name: "WATER WAVE", aliases: &[] },
        Codepoint { codepoint: 0x1F30B, name: "VOLCANO", aliases: &[] },
        Codepoint { codepoint: 0x1F30C, name: "MILKY WAY", aliases: &[] },
        Codepoint { codepoint: 0x1F30D, name: "EARTH GLOBE EUROPE-AFRICA", aliases: &[] },
        Codepoint { codepoint: 0x1F30E, name: "EARTH GLOBE AMERICAS", aliases: &[] },
        Codepoint { codepoint: 0x1F30F, name: "EARTH GLOBE ASIA-AUSTRALIA", aliases: &[] },
        Codepoint { codepoint: 0x1F310, name: "GLOBE WITH MERIDIANS", aliases: &[] },
        Codepoint { codepoint: 0x1F311, name: "NEW MOON SYMBOL", aliases: &[] },
        Codepoint { codepoint: 0x1F312, name: "WAXING CRESCENT MOON SYMBOL", aliases: &[] },
        Codepoint { codepoint: 0x1F313, name: "FIRST QUARTER MOON SYMBOL", aliases: &[] },
        Codepoint { codepoint: 0x1F314, name: "WAXING GIBBOUS MOON SYMBOL", aliases: &[] },
        Codepoint { codepoint: 0x1F315, name: "FULL MOON SYMBOL", aliases: &[] },
        Codepoint { codepoint: 0x1F316, name: "WANING GIBBOUS MOON SYMBOL", aliases: &[] },
        Codepoint { codepoint: 0x1F317, name: "LAST QUARTER MOON SYMBOL", aliases: &[] },
    ]
}

fn all_codepoints_792() -> (v: Vec<Codepoint>)
    ensures
        v@ == codepoint_table_792(),
{
    let v = vec![
        Codepoint { codepoint: 0x1F241, name: "TORTOISE SHELL BRACKETED CJK UNIFIED IDEOGRAPH-4E09", aliases: &[] },
        Codepoint { codepoint: 0x1F242, name: "TORTOISE SHELL BRACKETED CJK UNIFIED IDEOGRAPH-4E8C", aliases: &[] },
        Codepoint { codepoint: 0x1F243, name: "TORTOISE SHELL BRACKETED CJK UNIFIED IDEOGRAPH-5B89", aliases: &[] },
        Codepoint { codepoint: 0x1F244, name: "TORTOISE SHELL BRACKETED CJK UNIFIED IDEOGRAPH-70B9", aliases: &[] },
        Codepoint { codepoint: 0x1F245, name: "TORTOISE SHELL BRACKETED CJK UNIFIED IDEOGRAPH-6253", aliases: &[] },
        Codepoint { codepoint: 0x1F246, name: "TORTOISE SHELL BRACKETED CJK UNIFIED IDEOGRAPH-76D7", aliases: &[] },
        Codepoint { codepoint: 0x1F247, name: "TORTOISE SHELL BRACKETED CJK UNIFIED IDEOGRAPH-52DD", aliases: &[] },
        Codepoint { codepoint: 0x1F248, name: "TORTOISE SHELL BRACKETED CJK UNIFIED IDEOGRAPH-6557", aliases: &[] },
        Codepoint { codepoint: 0x1F250, name: "CIRCLED IDEOGRAPH ADVANTAGE", aliases: &[] },
        Codepoint { codepoint: 0x1F251, name: "CIRCLED IDEOGRAPH ACCEPT", aliases: &[] },
        Codepoint { codepoint: 0x1F260, name: "ROUNDED SYMBOL FOR FU", aliases: &[] },
        Codepoint { codepoint: 0x1F261, name: "ROUNDED SYMBOL FOR LU", aliases: &[] },
        Codepoint { codepoint: 0x1F262, name: "ROUNDED SYMBOL FOR SHOU", aliases: &[] },
        Codepoint { codepoint: 0x1F263, name: "ROUNDED SYMBOL FOR XI", aliases: &[] },
        Codepoint { codepoint: 0x1F264, name: "ROUNDED SYMBOL FOR SHUANGXI", aliases: &[] },
        Codepoint { codepoint: 0x1F265, name: "ROUNDED SYMBOL FOR CAI", aliases: &[] },
        Codepoint { codepoint: 0x1F300, name: "CYCLONE", aliases: &[] },
        Codepoint { codepoint: 0x1F301, name: "FOGGY", aliases: &[] },
        Codepoint { codepoint: 0x1F302, name: "CLOSED UMBRELLA", aliases: &[] },
        Codepoint { codepoint: 0x1F303, name: "NIGHT WITH STARS", aliases: &[] },
        Codepoint { codepoint: 0x1F304, name: "SUNRISE OVER MOUNTAINS", aliases: &[] },
        Codepoint { codepoint: 0x1F305, name: "SUNRISE", aliases: &[] },
        Codepoint { codepoint: 0x1F306, name: "CITYSCAPE AT DUSK", aliases: &[] },
        Codepoint { codepoint: 0x1F307, name: "SUNSET OVER BUILDINGS", aliases: &[] },
        Codepoint { codepoint: 0x1F308, name: "RAINBOW", aliases: &[] },
        Codepoint { codepoint: 0x1F309, name: "BRIDGE AT NIGHT", aliases: &[] },
        Codepoint { codepoint: 0x1F30A, name: "WATER WAVE", aliases: &[] },
        Codepoint { codepoint: 0x1F30B, name: "VOLCANO", aliases: &[] },
        Codepoint { codepoint: 0x1F30C, name: "MILKY WAY", aliases: &[] },
        Codepoint { codepoint: 0x1F30D, name: "EARTH GLOBE EUROPE-AFRICA", aliases: &[] },
        Codepoint { codepoint: 0x1F30E, name: "EARTH GLOBE AMERICAS", aliases: &[] },
        Codepoint { codepoint: 0x1F30F, name: "EARTH GLOBE ASIA-AUSTRALIA", aliases: &[] },
        Codepoint { codepoint: 0x1F310, name: "GLOBE WITH MERIDIANS", aliases: &[] },
        Codepoint { codepoint: 0x1F311, name: "NEW MOON SYMBOL", aliases: &[] },
        Codepoint { codepoint: 0x1F312, name: "WAXING CRESCENT MOON SYMBOL", aliases: &[] },
        Codepoint { codepoint: 0x1F313, name: "FIRST QUARTER MOON SYMBOL", aliases: &[] },
        Codepoint { codepoint: 0x1F314, name: "WAXING GIBBOUS MOON SYMBOL", aliases: &[] },
        Codepoint { codepoint: 0x1F315, name: "FULL MOON SYMBOL", aliases: &[] },
        Codepoint { codepoint: 0x1F316, name: "WANING GIBBOUS MOON SYMBOL", aliases: &[] },
        Codepoint { codepoint: 0x1F317, name: "LAST QUARTER MOON SYMBOL", aliases: &[] },
    ];
    assert(v@ =~= codepoint_table_792());
    v
}

pub open spec fn codepoint_table_793() -> Seq<Codepoint> {
    seq![
        Codepoint { codepoint: 0x1F318, name: "WANING CRESCENT MOON SYMBOL", aliases: &[] },
        Codepoint { codepoint: 0x1F319, name: "CRESCENT MOON", aliases: &[] },
        Codepoint { codepoint: 0x1F31A, name: "NEW MOON WITH FACE", aliases: &[] },
        Codepoint { codepoint: 0x1F31B, name: "FIRST QUARTER MOON WITH FACE", aliases: &[] },
        Codepoint { codepoint: 0x1F31C, name: "LAST QUARTER MOON WITH FACE", aliases: &[] },
        Codepoint { codepoint: 0x1F31D, name: "FULL MOON WITH FACE", aliases: &[] },
        Codepoint { codepoint: 0x1F31E, name: "SUN WITH FACE", aliases: &[] },
        Codepoint { codepoint: 0x1F31F, name: "GLOWING STAR", aliases: &[] },
        Codepoint { codepoint: 0x1F320, name: "SHOOTING STAR", aliases: &[] },
        Codepoint { codepoint: 0x1F321, name: "THERMOMETER", aliases: &[] },
        Codepoint { codepoint: 0x1F322, name: "BLACK DROPLET", aliases: &[] },
        Codepoint { codepoint: 0x1F323, name: "WHITE SUN", aliases: &[] },
        Codepoint { codepoint: 0x1F324, name: "WHITE SUN WITH SMALL CLOUD", aliases: &[] },
        Codepoint { codepoint: 0x1F325, name: "WHITE SUN BEHIND CLOUD", aliases: &[] },
        Codepoint { codepoint: 0x1F326, name: "WHITE SUN BEHIND CLOUD WITH RAIN", aliases: &[] },
        Codepoint { codepoint: 0x1F327, name: "CLOUD WITH RAIN", aliases: &[] },
        Codepoint { codepoint: 0x1F328, name: "CLOUD WITH SNOW", aliases: &[] },
        Codepoint { codepoint: 0x1F329, name: "CLOUD WITH LIGHTNING", aliases: &[] },
        Codepoint { codepoint: 0x1F32A, name: "CLOUD WITH TORNADO", aliases: &[] },
        Codepoint { codepoint: 0x1F32B, name: "FOG", aliases: &[] },
        Codepoint { codepoint: 0x1F32C, name: "WIND BLOWING FACE", aliases: &[] },
        Codepoint { codepoint: 0x1F32D, name: "HOT DOG", aliases: &[] },
        Codepoint { codepoint: 0x1F32E, name: "TACO", aliases: &[] },
        Codepoint { codepoint: 0x1F32F, name: "BURRITO", aliases: &[] },
        Codepoint { codepoint: 0x1F330, name: "CHESTNUT", aliases: &[] },
        Codepoint { codepoint: 0x1F331, name: "SEEDLING", aliases: &[] },
        Codepoint { codepoint: 0x1F332, name: "EVERGREEN TREE", aliases: &[] },
        Codepoint { codepoint: 0x1F333, name: "DECIDUOUS TREE", aliases: &[] },
        Codepoint { codepoint: 0x1F334, name: "PALM TREE", aliases: &[] },
        Codepoint { codepoint: 0x1F335, name: "CACTUS", aliases: &[] },
        Codepoint { codepoint: 0x1F336, name: "HOT PEPPER", aliases: &[] },
        Codepoint { codepoint: 0x1F337, name: "TULIP", aliases: &[] },
        Codepoint { codepoint: 0x1F338, name: "CHERRY BLOSSOM", aliases: &[] },
        Codepoint { codepoint: 0x1F339, name: "ROSE", aliases: &[] },
        Codepoint { codepoint: 0x1F33A, name: "HIBISCUS", aliases: &[] },
        Codepoint { codepoint: 0x1F33B, name: "SUNFLOWER", aliases: &[] },
        Codepoint { codepoint: 0x1F33C, name: "BLOSSOM", aliases: &[] },
        Codepoint { codepoint: 0x1F33D, name: "EAR OF MAIZE", aliases: &[] },
        Codepoint { codepoint: 0x1F33E, name: "EAR OF RICE", aliases: &[] },
        Codepoint { codepoint: 0x1F33F, name: "HERB", aliases: &[] },
    ]
}

fn all_codepoints_793() -> (v: Vec<Codepoint>)
    ensures
        v@ == codepoint_table_793(),
{
    let v = vec![
        Codepoint { codepoint: 0x1F318, name: "WANING CRESCENT MOON SYMBOL", aliases: &[] },
        Codepoint { codepoint: 0x1F319, name: "CRESCENT MOON", aliases: &[] },
        Codepoint { codepoint: 0x1F31A, name: "NEW MOON WITH FACE", aliases: &[] },
        Codepoint { codepoint: 0x1F31B, name: "FIRST QUARTER MOON WITH FACE", aliases: &[] },
        Codepoint { codepoint: 0x1F31C, name: "LAST QUARTER MOON WITH FACE", aliases: &[] },
        Codepoint { codepoint: 0x1F31D, name: "FULL MOON WITH FACE", aliases: &[] },
        Codepoint { codepoint: 0x1F31E, name: "SUN WITH FACE", aliases: &[] },
        Codepoint { codepoint: 0x1F31F, name: "GLOWING STAR", aliases: &[] },
        Codepoint { codepoint: 0x1F320, name: "SHOOTING STAR", aliases: &[] },
        Codepoint { codepoint: 0x1F321, name: "THERMOMETER", aliases: &[] },
        Codepoint { codepoint: 0x1F322, name: "BLACK DROPLET", aliases: &[] },
        Codepoint { codepoint: 0x1F323, name: "WHITE SUN", aliases: &[] },
        Codepoint { codepoint: 0x1F324, name: "WHITE SUN WITH SMALL CLOUD", aliases: &[] },
        Codepoint { codepoint: 0x1F325, name: "WHITE SUN BEHIND CLOUD", aliases: &[] },
        Codepoint { codepoint: 0x1F326, name: "WHITE SUN BEHIND CLOUD WITH RAIN", aliases: &[] },
        Codepoint { codepoint: 0x1F327, name: "CLOUD WITH RAIN", aliases: &[] },
        Codepoint { codepoint: 0x1F328, name: "CLOUD WITH SNOW", aliases: &[] },
        Codepoint { codepoint: 0x1F329, name: "CLOUD WITH LIGHTNING", aliases: &[] },
        Codepoint { codepoint: 0x1F32A, name: "CLOUD WITH TORNADO", aliases: &[] },
        Codepoint { codepoint: 0x1F32B, name: "FOG", aliases: &[] },
        Codepoint { codepoint: 0x1F32C, name: "WIND BLOWING FACE", aliases: &[] },
        Codepoint { codepoint: 0x1F32D, name: "HOT DOG", aliases: &[] },
        Codepoint { codepoint: 0x1F32E, name: "TACO", aliases: &[] },
        Codepoint { codepoint: 0x1F32F, name: "BURRITO", aliases: &[] },
        Codepoint { codepoint: 0x1F330, name: "CHESTNUT", aliases: &[] },
        Codepoint { codepoint: 0x1F331, name: "SEEDLING", aliases: &[] },
        Codepoint { codepoint: 0x1F332, name: "EVERGREEN TREE", aliases: &[] },
        Codepoint { codepoint: 0x1F333, name: "DECIDUOUS TREE", aliases: &[] },
        Codepoint { codepoint: 0x1F334, name: "PALM TREE", aliases: &[] },
        Codepoint { codepoint: 0x1F335, name: "CACTUS", aliases: &[] },
        Codepoint { codepoint: 0x1F336, name: "HOT PEPPER", aliases: &[] },
        Codepoint { codepoint: 0x1F337, name: "TULIP", aliases: &[] },
        Codepoint { codepoint: 0x1F338, name: "CHERRY BLOSSOM", aliases: &[] },
        Codepoint { codepoint: 0x1F339, name: "ROSE", aliases: &[] },
        Codepoint { codepoint: 0x1F33A, name: "HIBISCUS", aliases: &[] },
        Codepoint { codepoint: 0x1F33B, name: "SUNFLOWER", aliases: &[] },
        Codepoint { codepoint: 0x1F33C, name: "BLOSSOM", aliases: &[] },
        Codepoint { codepoint: 0x1F33D, name: "EAR OF MAIZE", aliases: &[] },
        Codepoint { codepoint: 0x1F33E, name: "EAR OF RICE", aliases: &[] },
        Codepoint { codepoint: 0x1F33F, name: "HERB", aliases: &[] },
    ];
    assert(v@ =~= codepoint_table_793());
    v
}

pub open spec fn codepoint_table_794() -> Seq<Codepoint> {
    seq![
        Codepoint { codepoint: 0x1F340, name: "FOUR LEAF CLOVER", aliases: &[] },
        Codepoint { codepoint: 0x1F341, name: "MAPLE LEAF", aliases: &[] },
        Codepoint { codepoint: 0x1F342, name: "FALLEN LEAF", aliases: &[] },
        Codepoint { codepoint: 0x1F343, name: "LEAF FLUTTERING IN WIND", aliases: &[] },
        Codepoint { codepoint: 0x1F344, name: "MUSHROOM", aliases: &[] },
        Codepoint { codepoint: 0x1F345, name: "TOMATO", aliases: &[] },
        Codepoint { codepoint: 0x1F346, name: "AUBERGINE", aliases: &[] },
        Codepoint { codepoint: 0x1F347, name: "GRAPES", aliases: &[] },
        Codepoint { codepoint: 0x1F348, name: "MELON", aliases: &[] },
        Codepoint { codepoint: 0x1F349, name: "WATERMELON", aliases: &[] },
        Codepoint { codepoint: 0x1F34A, name: "TANGERINE", aliases: &[] },
        Codepoint { codepoint: 0x1F34B, name: "LEMON", aliases: &[] },
        Codepoint { codepoint: 0x1F34C, name: "BANANA", aliases: &[] },
        Codepoint { codepoint: 0x1F34D, name: "PINEAPPLE", aliases: &[] },
        Codepoint { codepoint: 0x1F34E, name: "RED APPLE", aliases: &[] },
        Codepoint { codepoint: 0x1F34F, name: "GREEN APPLE", aliases: &[] },
        Codepoint { codepoint: 0x1F350, name: "PEAR", aliases: &[] },
        Codepoint { codepoint: 0x1F351, name: "PEACH", aliases: &[] },
        Codepoint { codepoint: 0x1F352, name: "CHERRIES", aliases: &[] },
        Codepoint { codepoint: 0x1F353, name: "STRAWBERRY", aliases: &[] },
        Codepoint { codepoint: 0x1F354, name: "HAMBURGER", aliases: &[] },
        Codepoint { codepoint: 0x1F355, name: "SLICE OF PIZZA", aliases: &[] },
        Codepoint { codepoint: 0x1F356, name: "MEAT ON BONE", aliases: &[] },
        Codepoint { codepoint: 0x1F357, name: "POULTRY LEG", aliases: &[] },
        Codepoint { codepoint: 0x1F358, name: "RICE CRACKER", aliases: &[] },
        Codepoint { codepoint: 0x1F359, name: "RICE BALL", aliases: &[] },
        Codepoint { codepoint: 0x1F35A, name: "COOKED RICE", aliases: &[] },
        Codepoint { codepoint: 0x1F35B, name: "CURRY AND RICE", aliases: &[] },
        Codepoint { codepoint: 0x1F35C, name: "STEAMING BOWL", aliases: &[] },
        Codepoint { codepoint: 0x1F35D, name: "SPAGHETTI", aliases: &[] },
        Codepoint { codepoint: 0x1F35E, name: "BREAD", aliases: &[] },
        Codepoint { codepoint: 0x1F35F, name: "FRENCH FRIES", aliases: &[] },
        Codepoint { codepoint: 0x1F360, name: "ROASTED SWEET POTATO", aliases: &[] },
        Codepoint { codepoint: 0x1F361, name: "DANGO", aliases: &[] },
        Codepoint { codepoint: 0x1F362, name: "ODEN", aliases: &[] },
        Codepoint { codepoint: 0x1F363, name: "SUSHI", aliases: &[] },
        Codepoint { codepoint: 0x1F364, name: "FRIED SHRIMP", aliases: &[] },
        Codepoint { codepoint: 0x1F365, name: "FISH CAKE WITH SWIRL DESIGN", aliases: &[] },
        Codepoint { codepoint: 0x1F366, name: "SOFT ICE CREAM", aliases: &[] },
        Codepoint { codepoint: 0x1F367, name: "SHAVED ICE", aliases: &[] },
    ]
}

fn all_codepoints_794() -> (v: Vec<Codepoint>)
    ensures
        v@ == codepoint_table_794(),
{
    let v = vec![
        Codepoint { codepoint: 0x1F340, name: "FOUR LEAF CLOVER", aliases: &[] },
        Codepoint { codepoint: 0x1F341, name: "MAPLE LEAF", aliases: &[] },
        Codepoint { codepoint: 0x1F342, name: "FALLEN LEAF", aliases: &[] },
        Codepoint { codepoint: 0x1F343, name: "LEAF FLUTTERING IN WIND", aliases: &[] },
        Codepoint { codepoint: 0x1F344, name: "MUSHROOM", aliases: &[] },
        Codepoint { codepoint: 0x1F345, name: "TOMATO", aliases: &[] },
        Codepoint { codepoint: 0x1F346, name: "AUBERGINE", aliases: &[] },
        Codepoint { codepoint: 0x1F347, name: "GRAPES", aliases: &[] },
        Codepoint { codepoint: 0x1F348, name: "MELON", aliases: &[] },
        Codepoint { codepoint: 0x1F349, name: "WATERMELON", aliases: &[] },
        Codepoint { codepoint: 0x1F34A, name: "TANGERINE", aliases: &[] },
        Codepoint { codepoint: 0x1F34B, name: "LEMON", aliases: &[] },
        Codepoint { codepoint: 0x1F34C, name: "BANANA", aliases: &[] },
        Codepoint { codepoint: 0x1F34D, name: "PINEAPPLE", aliases: &[] },
        Codepoint { codepoint: 0x1F34E, name: "RED APPLE", aliases: &[] },
        Codepoint { codepoint: 0x1F34F, name: "GREEN APPLE", aliases: &[] },
        Codepoint { codepoint: 0x1F350, name: "PEAR", aliases: &[] },
        Codepoint { codepoint: 0x1F351, name: "PEACH", aliases: &[] },
        Codepoint { codepoint: 0x1F352, name: "CHERRIES", aliases: &[] },
        Codepoint { codepoint: 0x1F353, name: "STRAWBERRY", aliases: &[] },
        Codepoint { codepoint: 0x1F354, name: "HAMBURGER", aliases: &[] },
        Codepoint { codepoint: 0x1F355, name: "SLICE OF PIZZA", aliases: &[] },
        Codepoint { codepoint: 0x1F356, name: "MEAT ON BONE", aliases: &[] },
        Codepoint { codepoint: 0x1F357, name: "POULTRY LEG", aliases: &[] },
        Codepoint { codepoint: 0x1F358, name: "RICE CRACKER", aliases: &[] },
        Codepoint { codepoint: 0x1F359, name: "RICE BALL", aliases: &[] },
        Codepoint { codepoint: 0x1F35A, name: "COOKED RICE", aliases: &[] },
        Codepoint { codepoint: 0x1F35B, name: "CURRY AND RICE", aliases: &[] },
        Codepoint { codepoint: 0x1F35C, name: "STEAMING BOWL", aliases: &[] },
        Codepoint { codepoint: 0x1F35D, name: "SPAGHETTI", aliases: &[] },
        Codepoint { codepoint: 0x1F35E, name: "BREAD", aliases: &[] },
        Codepoint { codepoint: 0x1F35F, name: "FRENCH FRIES", aliases: &[] },
        Codepoint { codepoint: 0x1F360, name: "ROASTED SWEET POTATO", aliases: &[] },
        Codepoint { codepoint: 0x1F361, name: "DANGO", aliases: &[] },
        Codepoint { codepoint: 0x1F362, name: "ODEN", aliases: &[] },
        Codepoint { codepoint: 0x1F363, name: "SUSHI", aliases: &[] },
        Codepoint { codepoint: 0x1F364, name: "FRIED SHRIMP", aliases: &[] },
        Codepoint { codepoint: 0x1F365, name: "FISH CAKE WITH SWIRL DESIGN", aliases: &[] },
        Codepoint { codepoint: 0x1F366, name: "SOFT ICE CREAM", aliases: &[] },
        Codepoint { codepoint: 0x1F367, name: "SHAVED ICE", aliases: &[] },
    ];
    assert(v@ =~= codepoint_table_794());
    v
}

pub open spec fn codepoint_table_795() -> Seq<Codepoint> {
    seq![
        Codepoint { codepoint: 0x1F368, name: "ICE CREAM", aliases: &[] },
        Codepoint { codepoint: 0x1F369, name: "DOUGHNUT", aliases: &[] },
        Codepoint { codepoint: 0x1F36A, name: "COOKIE", aliases: &[] },
        Codepoint { codepoint: 0x1F36B, name: "CHOCOLATE BAR", aliases: &[] },
        Codepoint { codepoint: 0x1F36C, name: "CANDY", aliases: &[] },
        Codepoint { codepoint: 0x1F36D, name: "LOLLIPOP", aliases: &[] },
        Codepoint { codepoint: 0x1F36E, name: "CUSTARD", aliases: &[] },
        Codepoint { codepoint: 0x1F36F, name: "HONEY POT", aliases: &[] },
        Codepoint { codepoint: 0x1F370, name: "SHORTCAKE", aliases: &[] },
        Codepoint { codepoint: 0x1F371, name: "BENTO BOX", aliases: &[] },
        Codepoint { codepoint: 0x1F372, name: "POT OF FOOD", aliases: &[] },
        Codepoint { codepoint: 0x1F373, name: "COOKING", aliases: &[] },
        Codepoint { codepoint: 0x1F374, name: "FORK AND KNIFE", aliases: &[] },
        Codepoint { codepoint: 0x1F375, name: "TEACUP WITHOUT HANDLE", aliases: &[] },
        Codepoint { codepoint: 0x1F376, name: "SAKE BOTTLE AND CUP", aliases: &[] },
        Codepoint { codepoint: 0x1F377, name: "WINE GLASS", aliases: &[] },
        Codepoint { codepoint: 0x1F378, name: "COCKTAIL GLASS", aliases: &[] },
        Codepoint { codepoint: 0x1F379, name: "TROPICAL DRINK", aliases: &[] },
        Codepoint { codepoint: 0x1F37A, name: "BEER MUG", aliases: &[] },
        Codepoint { codepoint: 0x1F37B, name: "CLINKING BEER MUGS", aliases: &[] },
        Codepoint { codepoint: 0x1F37C, name: "BABY BOTTLE", aliases: &[] },
        Codepoint { codepoint: 0x1F37D, name: "FORK AND KNIFE WITH PLATE", aliases: &[] },
        Codepoint { codepoint: 0x1F37E, name: "BOTTLE WITH POPPING CORK", aliases: &[] },
        Codepoint { codepoint: 0x1F37F, name: "POPCORN", aliases: &[] },
        Codepoint { codepoint: 0x1F380, name: "RIBBON", aliases: &[] },
        Codepoint { codepoint: 0x1F381, name: "WRAPPED PRESENT", aliases: &[] },
        Codepoint { codepoint: 0x1F382, name: "BIRTHDAY CAKE", aliases: &[] },
        Codepoint { codepoint: 0x1F383, name: "JACK-O-LANTERN", aliases: &[] },
        Codepoint { codepoint: 0x1F384, name: "CHRISTMAS TREE", aliases: &[] },
        Codepoint { codepoint: 0x1F385, name: "FATHER CHRISTMAS", aliases: &[] },
        Codepoint { codepoint: 0x1F386, name: "FIREWORKS", aliases: &[] },
        Codepoint { codepoint: 0x1F387, name: "FIREWORK SPARKLER", aliases: &[] },
        Codepoint { codepoint: 0x1F388, name: "BALLOON", aliases: &[] },
        Codepoint { codepoint: 0x1F389, name: "PARTY POPPER", aliases: &[] },
        Codepoint { codepoint: 0x1F38A, name: "CONFETTI BALL", aliases: &[] },
        Codepoint { codepoint: 0x1F38B, name: "TANABATA TREE", aliases: &[] },
        Codepoint { codepoint: 0x1F38C, name: "CROSSED FLAGS", aliases: &[] },
        Codepoint { codepoint: 0x1F38D, name: "PINE DECORATION", aliases: &[] },
        Codepoint { codepoint: 0x1F38E, name: "JAPANESE DOLLS", aliases: &[] },
        Codepoint { codepoint: 0x1F38F, name: "CARP STREAMER", aliases: &[] },
    ]
}

fn all_codepoints_795() -> (v: Vec<Codepoint>)
    ensures
        v@ == codepoint_table_795(),
{
    let v = vec![
        Codepoint { codepoint: 0x1F368, name: "ICE CREAM", aliases: &[] },
        Codepoint { codepoint: 0x1F369, name: "DOUGHNUT", aliases: &[] },
        Codepoint { codepoint: 0x1F36A, name: "COOKIE", aliases: &[] },
        Codepoint { codepoint: 0x1F36B, name: "CHOCOLATE BAR", aliases: &[] },
        Codepoint { codepoint: 0x1F36C, name: "CANDY", aliases: &[] },
        Codepoint { codepoint: 0x1F36D, name: "LOLLIPOP", aliases: &[] },
        Codepoint { codepoint: 0x1F36E, name: "CUSTARD", aliases: &[] },
        Codepoint { codepoint: 0x1F36F, name: "HONEY POT", aliases: &[] },
        Codepoint { codepoint: 0x1F370, name: "SHORTCAKE", aliases: &[] },
        Codepoint { codepoint: 0x1F371, name: "BENTO BOX", aliases: &[] },
        Codepoint { codepoint: 0x1F372, name: "POT OF FOOD", aliases: &[] },
        Codepoint { codepoint: 0x1F373, name: "COOKING", aliases: &[] },
        Codepoint { codepoint: 0x1F374, name: "FORK AND KNIFE", aliases: &[] },
        Codepoint { codepoint: 0x1F375, name: "TEACUP WITHOUT HANDLE", aliases: &[] },
        Codepoint { codepoint: 0x1F376, name: "SAKE BOTTLE AND CUP", aliases: &[] },
        Codepoint { codepoint: 0x1F377, name: "WINE GLASS", aliases: &[] },
        Codepoint { codepoint: 0x1F378, name: "COCKTAIL GLASS", aliases: &[] },
        Codepoint { codepoint: 0x1F379, name: "TROPICAL DRINK", aliases: &[] },
        Codepoint { codepoint: 0x1F37A, name: "BEER MUG", aliases: &[] },
        Codepoint { codepoint: 0x1F37B, name: "CLINKING BEER MUGS", aliases: &[] },
        Codepoint { codepoint: 0x1F37C, name: "BABY BOTTLE", aliases: &[] },
        Codepoint { codepoint: 0x1F37D, name: "FORK AND KNIFE WITH PLATE", aliases: &[] },
        Codepoint { codepoint: 0x1F37E, name: "BOTTLE WITH POPPING CORK", aliases: &[] },
        Codepoint { codepoint: 0x1F37F, name: "POPCORN", aliases: &[] },
        Codepoint { codepoint: 0x1F380, name: "RIBBON", aliases: &[] },
        Codepoint { codepoint: 0x1F381, name: "WRAPPED PRESENT", aliases: &[] },
        Codepoint { codepoint: 0x1F382, name: "BIRTHDAY CAKE", aliases: &[] },
        Codepoint { codepoint: 0x1F383, name: "JACK-O-LANTERN", aliases: &[] },
        Codepoint { codepoint: 0x1F384, name: "CHRISTMAS TREE", aliases: &[] },
        Codepoint { codepoint: 0x1F385, name: "FATHER CHRISTMAS", aliases: &[] },
        Codepoint { codepoint: 0x1F386, name: "FIREWORKS", aliases: &[] },
        Codepoint { codepoint: 0x1F387, name: "FIREWORK SPARKLER", aliases: &[] },
        Codepoint { codepoint: 0x1F388, name: "BALLOON", aliases: &[] },
        Codepoint { codepoint: 0x1F389, name: "PARTY POPPER", aliases: &[] },
        Codepoint { codepoint: 0x1F38A, name: "CONFETTI BALL", aliases: &[] },
        Codepoint { codepoint: 0x1F38B, name: "TANABATA TREE", aliases: &[] },
        Codepoint { codepoint: 0x1F38C, name: "CROSSED FLAGS", aliases: &[] },
        Codepoint { codepoint: 0x1F38D, name: "PINE DECORATION", aliases: &[] },
        Codepoint { codepoint: 0x1F38E, name: "JAPANESE DOLLS", aliases: &[] },
        Codepoint { codepoint: 0x1F38F, name: "CARP STREAMER", aliases: &[] },
    ];
    assert(v@ =~= codepoint_table_795());
    v
}

pub open spec fn codepoint_table_796() -> Seq<Codepoint> {
    seq![
        Codepoint { codepoint: 0x1F390, name: "WIND CHIME", aliases: &[] },
        Codepoint { codepoint: 0x1F391, name: "MOON VIEWING CEREMONY", aliases: &[] },
        Codepoint { codepoint: 0x1F392, name: "SCHOOL SATCHEL", aliases: &[] },
        Codepoint { codepoint: 0x1F393, name: "GRADUATION CAP", aliases: &[] },
        Codepoint { codepoint: 0x1F394, name: "HEART WITH TIP ON THE LEFT", aliases: &[] },
        Codepoint { codepoint: 0x1F395, name: "BOUQUET OF FLOWERS", aliases: &[] },
        Codepoint { codepoint: 0x1F396, name: "MILITARY MEDAL", aliases: &[] },
        Codepoint { codepoint: 0x1F397, name: "REMINDER RIBBON", aliases: &[] },
        Codepoint { codepoint: 0x1F398, name: "MUSICAL KEYBOARD WITH JACKS", aliases: &[] },
        Codepoint { codepoint: 0x1F399, name: "STUDIO MICROPHONE", aliases: &[] },
        Codepoint { codepoint: 0x1F39A, name: "LEVEL SLIDER", aliases: &[] },
        Codepoint { codepoint: 0x1F39B, name: "CONTROL KNOBS", aliases: &[] },
        Codepoint { codepoint: 0x1F39C, name: "BEAMED ASCENDING MUSICAL NOTES", aliases: &[] },
        Codepoint { codepoint: 0x1F39D, name: "BEAMED DESCENDING MUSICAL NOTES", aliases: &[] },
        Codepoint { codepoint: 0x1F39E, name: "FILM FRAMES", aliases: &[] },
        Codepoint { codepoint: 0x1F39F, name: "ADMISSION TICKETS", aliases: &[] },
        Codepoint { codepoint: 0x1F3A0, name: "CAROUSEL HORSE", aliases: &[] },
        Codepoint { codepoint: 0x1F3A1, name: "FERRIS WHEEL", aliases: &[] },
        Codepoint { codepoint: 0x1F3A2, name: "ROLLER COASTER", aliases: &[] },
        Codepoint { codepoint: 0x1F3A3, name: "FISHING POLE AND FISH", aliases: &[] },
        Codepoint { codepoint: 0x1F3A4, name: "MICROPHONE", aliases: &[] },
        Codepoint { codepoint: 0x1F3A5, name: "MOVIE CAMERA", aliases: &[] },
        Codepoint { codepoint: 0x1F3A6, name: "CINEMA", aliases: &[] },
        Codepoint { codepoint: 0x1F3A7, name: "HEADPHONE", aliases: &[] },
        Codepoint { codepoint: 0x1F3A8, name: "ARTIST PALETTE", aliases: &[] },
        Codepoint { codepoint: 0x1F3A9, name: "TOP HAT", aliases: &[] },
        Codepoint { codepoint: 0x1F3AA, name: "CIRCUS TENT", aliases: &[] },
        Codepoint { codepoint: 0x1F3AB, name: "TICKET", aliases: &[] },
        Codepoint { codepoint: 0x1F3AC, name: "CLAPPER BOARD", aliases: &[] },
        Codepoint { codepoint: 0x1F3AD, name: "PERFORMING ARTS", aliases: &[] },
        Codepoint { codepoint: 0x1F3AE, name: "VIDEO GAME", aliases: &[] },
        Codepoint { codepoint: 0x1F3AF, name: "DIRECT HIT", aliases: &[] },
        Codepoint { codepoint: 0x1F3B0, name: "SLOT MACHINE", aliases: &[] },
        Codepoint { codepoint: 0x1F3B1, name: "BILLIARDS", aliases: &[] },
        Codepoint { codepoint: 0x1F3B2, name: "GAME DIE", aliases: &[] },
        Codepoint { codepoint: 0x1F3B3, name: "BOWLING", aliases: &[] },
        Codepoint { codepoint: 0x1F3B4, name: "FLOWER PLAYING CARDS", aliases: &[] },
        Codepoint { codepoint: 0x1F3B5, name: "MUSICAL NOTE", aliases: &[] },
        Codepoint { codepoint: 0x1F3B6, name: "MULTIPLE MUSICAL NOTES", aliases: &[] },
        Codepoint { codepoint: 0x1F3B7, name: "SAXOPHONE", aliases: &[] },
    ]
}

fn all_codepoints_796() -> (v: Vec<Codepoint>)
    ensures
        v@ == codepoint_table_796(),
{
    let v = vec![
        Codepoint { codepoint: 0x1F390, name: "WIND CHIME", aliases: &[] },
        Codepoint { codepoint: 0x1F391, name: "MOON VIEWING CEREMONY", aliases: &[] },
        Codepoint { codepoint: 0x1F392, name: "SCHOOL SATCHEL", aliases: &[] },
        Codepoint { codepoint: 0x1F393, name: "GRADUATION CAP", aliases: &[] },
        Codepoint { codepoint: 0x1F394, name: "HEART WITH TIP ON THE LEFT", aliases: &[] },
        Codepoint { codepoint: 0x1F395, name: "BOUQUET OF FLOWERS", aliases: &[] },
        Codepoint { codepoint: 0x1F396, name: "MILITARY MEDAL", aliases: &[] },
        Codepoint { codepoint: 0x1F397, name: "REMINDER RIBBON", aliases: &[] },
        Codepoint { codepoint: 0x1F398, name: "MUSICAL KEYBOARD WITH JACKS", aliases: &[] },
        Codepoint { codepoint: 0x1F399, name: "STUDIO MICROPHONE", aliases: &[] },
        Codepoint { codepoint: 0x1F39A, name: "LEVEL SLIDER", aliases: &[] },
        Codepoint { codepoint: 0x1F39B, name: "CONTROL KNOBS", aliases: &[] },
        Codepoint { codepoint: 0x1F39C, name: "BEAMED ASCENDING MUSICAL NOTES", aliases: &[] },
        Codepoint { codepoint: 0x1F39D, name: "BEAMED DESCENDING MUSICAL NOTES", aliases: &[] },
        Codepoint { codepoint: 0x1F39E, name: "FILM FRAMES", aliases: &[] },
        Codepoint { codepoint: 0x1F39F, name: "ADMISSION TICKETS", aliases: &[] },
        Codepoint { codepoint: 0x1F3A0, name: "CAROUSEL HORSE", aliases: &[] },
        Codepoint { codepoint: 0x1F3A1, name: "FERRIS WHEEL", aliases: &[] },
        Codepoint { codepoint: 0x1F3A2, name: "ROLLER COASTER", aliases: &[] },
        Codepoint { codepoint: 0x1F3A3, name: "FISHING POLE AND FISH", aliases: &[] },
        Codepoint { codepoint: 0x1F3A4, name: "MICROPHONE", aliases: &[] },
        Codepoint { codepoint: 0x1F3A5, name: "MOVIE CAMERA", aliases: &[] },
        Codepoint { codepoint: 0x1F3A6, name: "CINEMA", aliases: &[] },
        Codepoint { codepoint: 0x1F3A7, name: "HEADPHONE", aliases: &[] },
        Codepoint { codepoint: 0x1F3A8, name: "ARTIST PALETTE", aliases: &[] },
        Codepoint { codepoint: 0x1F3A9, name: "TOP HAT", aliases: &[] },
        Codepoint { codepoint: 0x1F3AA, name: "CIRCUS TENT", aliases: &[] },
        Codepoint { codepoint: 0x1F3AB, name: "TICKET", aliases: &[] },
        Codepoint { codepoint: 0x1F3AC, name: "CLAPPER BOARD", aliases: &[] },
        Codepoint { codepoint: 0x1F3AD, name: "PERFORMING ARTS", aliases: &[] },
        Codepoint { codepoint: 0x1F3AE, name: "VIDEO GAME", aliases: &[] },
        Codepoint { codepoint: 0x1F3AF, name: "DIRECT HIT", aliases: &[] },
        Codepoint { codepoint: 0x1F3B0, name: "SLOT MACHINE", aliases: &[] },
        Codepoint { codepoint: 0x1F3B1, name: "BILLIARDS", aliases: &[] },
        Codepoint { codepoint: 0x1F3B2, name: "GAME DIE", aliases: &[] },
        Codepoint { codepoint: 0x1F3B3, name: "BOWLING", aliases: &[] },
        Codepoint { codepoint: 0x1F3B4, name: "FLOWER PLAYING CARDS", aliases: &[] },
        Codepoint { codepoint: 0x1F3B5, name: "MUSICAL NOTE", aliases: &[] },
        Codepoint { codepoint: 0x1F3B6, name: "MULTIPLE MUSICAL NOTES", aliases: &[] },
        Codepoint { codepoint: 0x1F3B7, name: "SAXOPHONE", aliases: &[] },
    ];
    assert(v@ =~= codepoint_table_796());
    v
}

pub open spec fn codepoint_table_797() -> Seq<Codepoint> {
    seq![
        Codepoint { codepoint: 0x1F3B8, name: "GUITAR", aliases: &[] },
        Codepoint { codepoint: 0x1F3B9, name: "MUSICAL KEYBOARD", aliases: &[] },
        Codepoint { codepoint: 0x1F3BA, name: "TRUMPET", aliases: &[] },
        Codepoint { codepoint: 0x1F3BB, name: "VIOLIN", aliases: &[] },
        Codepoint { codepoint: 0x1F3BC, name: "MUSICAL SCORE", aliases: &[] },
        Codepoint { codepoint: 0x1F3BD, name: "RUNNING SHIRT WITH SASH", aliases: &[] },
        Codepoint { codepoint: 0x1F3BE, name: "TENNIS RACQUET AND BALL", aliases: &[] },
        Codepoint { codepoint: 0x1F3BF, name: "SKI AND SKI BOOT", aliases: &[] },
        Codepoint { codepoint: 0x1F3C0, name: "BASKETBALL AND HOOP", aliases: &[] },
        Codepoint { codepoint: 0x1F3C1, name: "CHEQUERED FLAG", aliases: &[] },
        Codepoint { codepoint: 0x1F3C2, name: "SNOWBOARDER", aliases: &[] },
        Codepoint { codepoint: 0x1F3C3, name: "RUNNER", aliases: &[] },
        Codepoint { codepoint: 0x1F3C4, name: "SURFER", aliases: &[] },
        Codepoint { codepoint: 0x1F3C5, name: "SPORTS MEDAL", aliases: &[] },
        Codepoint { codepoint: 0x1F3C6, name: "TROPHY", aliases: &[] },
        Codepoint { codepoint: 0x1F3C7, name: "HORSE RACING", aliases: &[] },
        Codepoint { codepoint: 0x1F3C8, name: "AMERICAN FOOTBALL", aliases: &[] },
        Codepoint { codepoint: 0x1F3C9, name: "RUGBY FOOTBALL", aliases: &[] },
        Codepoint { codepoint: 0x1F3CA, name: "SWIMMER", aliases: &[] },
        Codepoint { codepoint: 0x1F3CB, name: "WEIGHT LIFTER", aliases: &[] },
        Codepoint { codepoint: 0x1F3CC, name: "GOLFER", aliases: &[] },
        Codepoint { codepoint: 0x1F3CD, name: "RACING MOTORCYCLE", aliases: &[] },
        Codepoint { codepoint: 0x1F3CE, name: "RACING CAR", aliases: &[] },
        Codepoint { codepoint: 0x1F3CF, name: "CRICKET BAT AND BALL", aliases: &[] },
        Codepoint { codepoint: 0x1F3D0, name: "VOLLEYBALL", aliases: &[] },
        Codepoint { codepoint: 0x1F3D1, name: "FIELD HOCKEY STICK AND BALL", aliases: &[] },
        Codepoint { codepoint: 0x1F3D2, name: "ICE HOCKEY STICK AND PUCK", aliases: &[] },
        Codepoint { codepoint: 0x1F3D3, name: "TABLE TENNIS PADDLE AND BALL", aliases: &[] },
        Codepoint { codepoint: 0x1F3D4, name: "SNOW CAPPED MOUNTAIN", aliases: &[] },
        Codepoint { codepoint: 0x1F3D5, name: "CAMPING", aliases: &[] },
        Codepoint { codepoint: 0x1F3D6, name: "BEACH WITH UMBRELLA", aliases: &[] },
        Codepoint { codepoint: 0x1F3D7, name: "BUILDING CONSTRUCTION", aliases: &[] },
        Codepoint { codepoint: 0x1F3D8, name: "HOUSE BUILDINGS", aliases: &[] },
        Codepoint { codepoint: 0x1F3D9, name: "CITYSCAPE", aliases: &[] },
        Codepoint { codepoint: 0x1F3DA, name: "DERELICT HOUSE BUILDING", aliases: &[] },
        Codepoint { codepoint: 0x1F3DB, name: "CLASSICAL BUILDING", aliases: &[] },
        Codepoint { codepoint: 0x1F3DC, name: "DESERT", aliases: &[] },
        Codepoint { codepoint: 0x1F3DD, name: "DESERT ISLAND", aliases: &[] },
        Codepoint { codepoint: 0x1F3DE, name: "NATIONAL PARK", aliases: &[] },
        Codepoint { codepoint: 0x1F3DF, name: "STADIUM", aliases: &[] },
    ]
}

fn all_codepoints_797() -> (v: Vec<Codepoint>)
    ensures
        v@ == codepoint_table_797(),
{
    let v = vec![
        Codepoint { codepoint: 0x1F3B8, name: "GUITAR", aliases: &[] },
        Codepoint { codepoint: 0x1F3B9, name: "MUSICAL KEYBOARD", aliases: &[] },
        Codepoint { codepoint: 0x1F3BA, name: "TRUMPET", aliases: &[] },
        Codepoint { codepoint: 0x1F3BB, name: "VIOLIN", aliases: &[] },
        Codepoint { codepoint: 0x1F3BC, name: "MUSICAL SCORE", aliases: &[] },
        Codepoint { codepoint: 0x1F3BD, name: "RUNNING SHIRT WITH SASH", aliases: &[] },
        Codepoint { codepoint: 0x1F3BE, name: "TENNIS RACQUET AND BALL", aliases: &[] },
        Codepoint { codepoint: 0x1F3BF, name: "SKI AND SKI BOOT", aliases: &[] },
        Codepoint { codepoint: 0x1F3C0, name: "BASKETBALL AND HOOP", aliases: &[] },
        Codepoint { codepoint: 0x1F3C1, name: "CHEQUERED FLAG", aliases: &[] },
        Codepoint { codepoint: 0x1F3C2, name: "SNOWBOARDER", aliases: &[] },
        Codepoint { codepoint: 0x1F3C3, name: "RUNNER", aliases: &[] },
        Codepoint { codepoint: 0x1F3C4, name: "SURFER", aliases: &[] },
        Codepoint { codepoint: 0x1F3C5, name: "SPORTS MEDAL", aliases: &[] },
        Codepoint { codepoint: 0x1F3C6, name: "TROPHY", aliases: &[] },
        Codepoint { codepoint: 0x1F3C7, name: "HORSE RACING", aliases: &[] },
        Codepoint { codepoint: 0x1F3C8, name: "AMERICAN FOOTBALL", aliases: &[] },
        Codepoint { codepoint: 0x1F3C9, name: "RUGBY FOOTBALL", aliases: &[] },
        Codepoint { codepoint: 0x1F3CA, name: "SWIMMER", aliases: &[] },
        Codepoint { codepoint: 0x1F3CB, name: "WEIGHT LIFTER", aliases: &[] },
        Codepoint { codepoint: 0x1F3CC, name: "GOLFER", aliases: &[] },
        Codepoint { codepoint: 0x1F3CD, name: "RACING MOTORCYCLE", aliases: &[] },
        Codepoint { codepoint: 0x1F3CE, name: "RACING CAR", aliases: &[] },
        Codepoint { codepoint: 0x1F3CF, name: "CRICKET BAT AND BALL", aliases: &[] },
        Codepoint { codepoint: 0x1F3D0, name: "VOLLEYBALL", aliases: &[] },
        Codepoint { codepoint: 0x1F3D1, name: "FIELD HOCKEY STICK AND BALL", aliases: &[] },
        Codepoint { codepoint: 0x1F3D2, name: "ICE HOCKEY STICK AND PUCK", aliases: &[] },
        Codepoint { codepoint: 0x1F3D3, name: "TABLE TENNIS PADDLE AND BALL", aliases: &[] },
        Codepoint { codepoint: 0x1F3D4, name: "SNOW CAPPED MOUNTAIN", aliases: &[] },
        Codepoint { codepoint: 0x1F3D5, name: "CAMPING", aliases: &[] },
        Codepoint { codepoint: 0x1F3D6, name: "BEACH WITH UMBRELLA", aliases: &[] },
        Codepoint { codepoint: 0x1F3D7, name: "BUILDING CONSTRUCTION", aliases: &[] },
        Codepoint { codepoint: 0x1F3D8, name: "HOUSE BUILDINGS", aliases: &[] },
        Codepoint { codepoint: 0x1F3D9, name: "CITYSCAPE", aliases: &[] },
        Codepoint { codepoint: 0x1F3DA, name: "DERELICT HOUSE BUILDING", aliases: &[] },
        Codepoint { codepoint: 0x1F3DB, name: "CLASSICAL BUILDING", aliases: &[] },
        Codepoint { codepoint: 0x1F3DC, name: "DESERT", aliases: &[] },
        Codepoint { codepoint: 0x1F3DD, name: "DESERT ISLAND", aliases: &[] },
        Codepoint { codepoint: 0x1F3DE, name: "NATIONAL PARK", aliases: &[] },
        Codepoint { codepoint: 0x1F3DF, name: "STADIUM", aliases: &[] },
    ];
    assert(v@ =~= codepoint_table_797());
    v
}

pub open spec fn codepoint_table_798() -> Seq<Codepoint> {
    seq![
        Codepoint { codepoint: 0x1F3E0, name: "HOUSE BUILDING", aliases: &[] },
        Codepoint { codepoint: 0x1F3E1, name: "HOUSE WITH GARDEN", aliases: &[] },
        Codepoint { codepoint: 0x1F3E2, name: "OFFICE BUILDING", aliases: &[] },
        Codepoint { codepoint: 0x1F3E3, name: "JAPANESE POST OFFICE", aliases: &[] },
        Codepoint { codepoint: 0x1F3E4, name: "EUROPEAN POST OFFICE", aliases: &[] },
        Codepoint { codepoint: 0x1F3E5, name: "HOSPITAL", aliases: &[] },
        Codepoint { codepoint: 0x1F3E6, name: "BANK", aliases: &[] },
        Codepoint { codepoint: 0x1F3E7, name: "AUTOMATED TELLER MACHINE", aliases: &[] },
        Codepoint { codepoint: 0x1F3E8, name: "HOTEL", aliases: &[] },
        Codepoint { codepoint: 0x1F3E9, name: "LOVE HOTEL", aliases: &[] },
        Codepoint { codepoint: 0x1F3EA, name: "CONVENIENCE STORE", aliases: &[] },
        Codepoint { codepoint: 0x1F3EB, name: "SCHOOL", aliases: &[] },
        Codepoint { codepoint: 0x1F3EC, name: "DEPARTMENT STORE", aliases: &[] },
        Codepoint { codepoint: 0x1F3ED, name: "FACTORY", aliases: &[] },
        Codepoint { codepoint: 0x1F3EE, name: "IZAKAYA LANTERN", aliases: &[] },
        Codepoint { codepoint: 0x1F3EF, name: "JAPANESE CASTLE", aliases: &[] },
        Codepoint { codepoint: 0x1F3F0, name: "EUROPEAN CASTLE", aliases: &[] },
        Codepoint { codepoint: 0x1F3F1, name: "WHITE PENNANT", aliases: &[] },
        Codepoint { codepoint: 0x1F3F2, name: "BLACK PENNANT", aliases: &[] },
        Codepoint { codepoint: 0x1F3F3, name: "WAVING WHITE FLAG", aliases: &[] },
        Codepoint { codepoint: 0x1F3F4, name: "WAVING BLACK FLAG", aliases: &[] },
        Codepoint { codepoint: 0x1F3F5, name: "ROSETTE", aliases: &[] },
        Codepoint { codepoint: 0x1F3F6, name: "BLACK ROSETTE", aliases: &[] },
        Codepoint { codepoint: 0x1F3F7, name: "LABEL", aliases: &[] },
        Codepoint { codepoint: 0x1F3F8, name: "BADMINTON RACQUET AND SHUTTLECOCK", aliases: &[] },
        Codepoint { codepoint: 0x1F3F9, name: "BOW AND ARROW", aliases: &[] },
        Codepoint { codepoint: 0x1F3FA, name: "AMPHORA", aliases: &[] },
        Codepoint { codepoint: 0x1F3FB, name: "EMOJI MODIFIER FITZPATRICK TYPE-1-2", aliases: &[] },
        Codepoint { codepoint: 0x1F3FC, name: "EMOJI MODIFIER FITZPATRICK TYPE-3", aliases: &[] },
        Codepoint { codepoint: 0x1F3FD, name: "EMOJI MODIFIER FITZPATRICK TYPE-4", aliases: &[] },
        Codepoint { codepoint: 0x1F3FE, name: "EMOJI MODIFIER FITZPATRICK TYPE-5", aliases: &[] },
        Codepoint { codepoint: 0x1F3FF, name: "EMOJI MODIFIER FITZPATRICK TYPE-6", aliases: &[] },
        Codepoint { codepoint: 0x1F400, name: "RAT", aliases: &[] },
        Codepoint { codepoint: 0x1F401, name: "MOUSE", aliases: &[] },
        Codepoint { codepoint: 0x1F402, name: "OX", aliases: &[] },
        Codepoint { codepoint: 0x1F403, name: "WATER BUFFALO", aliases: &[] },
        Codepoint { codepoint: 0x1F404, name: "COW", aliases: &[] },
        Codepoint { codepoint: 0x1F405, name: "TIGER", aliases: &[] },
        Codepoint { codepoint: 0x1F406, name: "LEOPARD", aliases: &[] },
        Codepoint { codepoint: 0x1F407, name: "RABBIT", aliases: &[] },
    ]
}

fn all_codepoints_798() -> (v: Vec<Codepoint>)
    ensures
        v@ == codepoint_table_798(),
{
    let v = vec![
        Codepoint { codepoint: 0x1F3E0, name: "HOUSE BUILDING", aliases: &[] },
        Codepoint { codepoint: 0x1F3E1, name: "HOUSE WITH GARDEN", aliases: &[] },
        Codepoint { codepoint: 0x1F3E2, name: "OFFICE BUILDING", aliases: &[] },
        Codepoint { codepoint: 0x1F3E3, name: "JAPANESE POST OFFICE", aliases: &[] },
        Codepoint { codepoint: 0x1F3E4, name: "EUROPEAN POST OFFICE", aliases: &[] },
        Codepoint { codepoint: 0x1F3E5, name: "HOSPITAL", aliases: &[] },
        Codepoint { codepoint: 0x1F3E6, name: "BANK", aliases: &[] },
        Codepoint { codepoint: 0x1F3E7, name: "AUTOMATED TELLER MACHINE", aliases: &[] },
        Codepoint { codepoint: 0x1F3E8, name: "HOTEL", aliases: &[] },
        Codepoint { codepoint: 0x1F3E9, name: "LOVE HOTEL", aliases: &[] },
        Codepoint { codepoint: 0x1F3EA, name: "CONVENIENCE STORE", aliases: &[] },
        Codepoint { codepoint: 0x1F3EB, name: "SCHOOL", aliases: &[] },
        Codepoint { codepoint: 0x1F3EC, name: "DEPARTMENT STORE", aliases: &[] },
        Codepoint { codepoint: 0x1F3ED, name: "FACTORY", aliases: &[] },
        Codepoint { codepoint: 0x1F3EE, name: "IZAKAYA LANTERN", aliases: &[] },
        Codepoint { codepoint: 0x1F3EF, name: "JAPANESE CASTLE", aliases: &[] },
        Codepoint { codepoint: 0x1F3F0, name: "EUROPEAN CASTLE", aliases: &[] },
        Codepoint { codepoint: 0x1F3F1, name: "WHITE PENNANT", aliases: &[] },
        Codepoint { codepoint: 0x1F3F2, name: "BLACK PENNANT", aliases: &[] },
        Codepoint { codepoint: 0x1F3F3, name: "WAVING WHITE FLAG", aliases: &[] },
        Codepoint { codepoint: 0x1F3F4, name: "WAVING BLACK FLAG", aliases: &[] },
        Codepoint { codepoint: 0x1F3F5, name: "ROSETTE", aliases: &[] },
        Codepoint { codepoint: 0x1F3F6, name: "BLACK ROSETTE", aliases: &[] },
        Codepoint { codepoint: 0x1F3F7, name: "LABEL", aliases: &[] },
        Codepoint { codepoint: 0x1F3F8, name: "BADMINTON RACQUET AND SHUTTLECOCK", aliases: &[] },
        Codepoint { codepoint: 0x1F3F9, name: "BOW AND ARROW", aliases: &[] },
        Codepoint { codepoint: 0x1F3FA, name: "AMPHORA", aliases: &[] },
        Codepoint { codepoint: 0x1F3FB, name: "EMOJI MODIFIER FITZPATRICK TYPE-1-2", aliases: &[] },
        Codepoint { codepoint: 0x1F3FC, name: "EMOJI MODIFIER FITZPATRICK TYPE-3", aliases: &[] },
        Codepoint { codepoint: 0x1F3FD, name: "EMOJI MODIFIER FITZPATRICK TYPE-4", aliases: &[] },
        Codepoint { codepoint: 0x1F3FE, name: "EMOJI MODIFIER FITZPATRICK TYPE-5", aliases: &[] },
        Codepoint { codepoint: 0x1F3FF, name: "EMOJI MODIFIER FITZPATRICK TYPE-6", aliases: &[] },
        Codepoint { codepoint: 0x1F400, name: "RAT", aliases: &[] },
        Codepoint { codepoint: 0x1F401, name: "MOUSE", aliases: &[] },
        Codepoint { codepoint: 0x1F402, name: "OX", aliases: &[] },
        Codepoint { codepoint: 0x1F403, name: "WATER BUFFALO", aliases: &[] },
        Codepoint { codepoint: 0x1F404, name: "COW", aliases: &[] },
        Codepoint { codepoint: 0x1F405, name: "TIGER", aliases: &[] },
        Codepoint { codepoint: 0x1F406, name: "LEOPARD", aliases: &[] },
        Codepoint { codepoint: 0x1F407, name: "RABBIT", aliases: &[] },
    ];
    assert(v@ =~= codepoint_table_798());
    v
}

pub open spec fn codepoint_table_799() -> Seq<Codepoint> {
    seq![
        Codepoint { codepoint: 0x1F408, name: "CAT", aliases: &[] },
        Codepoint { codepoint: 0x1F409, name: "DRAGON", aliases: &[] },
        Codepoint { codepoint: 0x1F40A, name: "CROCODILE", aliases: &[] },
        Codepoint { codepoint: 0x1F40B, name: "WHALE", aliases: &[] },
        Codepoint { codepoint: 0x1F40C, name: "SNAIL", aliases: &[] },
        Codepoint { codepoint: 0x1F40D, name: "SNAKE", aliases: &[] },
        Codepoint { codepoint: 0x1F40E, name: "HORSE", aliases: &[] },
        Codepoint { codepoint: 0x1F40F, name: "RAM", aliases: &[] },
        Codepoint { codepoint: 0x1F410, name: "GOAT", aliases: &[] },
        Codepoint { codepoint: 0x1F411, name: "SHEEP", aliases: &[] },
        Codepoint { codepoint: 0x1F412, name: "MONKEY", aliases: &[] },
        Codepoint { codepoint: 0x1F413, name: "ROOSTER", aliases: &[] },
        Codepoint { codepoint: 0x1F414, name: "CHICKEN", aliases: &[] },
        Codepoint { codepoint: 0x1F415, name: "DOG", aliases: &[] },
        Codepoint { codepoint: 0x1F416, name: "PIG", aliases: &[] },
        Codepoint { codepoint: 0x1F417, name: "BOAR", aliases: &[] },
        Codepoint { codepoint: 0x1F418, name: "ELEPHANT", aliases: &[] },
        Codepoint { codepoint: 0x1F419, name: "OCTOPUS", aliases: &[] },
        Codepoint { codepoint: 0x1F41A, name: "SPIRAL SHELL", aliases: &[] },
        Codepoint { codepoint: 0x1F41B, name: "BUG", aliases: &[] },
        Codepoint { codepoint: 0x1F41C, name: "ANT", aliases: &[] },
        Codepoint { codepoint: 0x1F41D, name: "HONEYBEE", aliases: &[] },
        Codepoint { codepoint: 0x1F41E, name: "LADY BEETLE", aliases: &[] },
        Codepoint { codepoint: 0x1F41F, name: "FISH", aliases: &[] },
        Codepoint { codepoint: 0x1F420, name: "TROPICAL FISH", aliases: &[] },
        Codepoint { codepoint: 0x1F421, name: "BLOWFISH", aliases: &[] },
        Codepoint { codepoint: 0x1F422, name: "TURTLE", aliases: &[] },
        Codepoint { codepoint: 0x1F423, name: "HATCHING CHICK", aliases: &[] },
        Codepoint { codepoint: 0x1F424, name: "BABY CHICK", aliases: &[] },
        Codepoint { codepoint: 0x1F425, name: "FRONT-FACING BABY CHICK", aliases: &[] },
        Codepoint { codepoint: 0x1F426, name: "BIRD", aliases: &[] },
        Codepoint { codepoint: 0x1F427, name: "PENGUIN", aliases: &[] },
        Codepoint { codepoint: 0x1F428, name: "KOALA", aliases: &[] },
        Codepoint { codepoint: 0x1F429, name: "POODLE", aliases: &[] },
        Codepoint { codepoint: 0x1F42A, name: "DROMEDARY CAMEL", aliases: &[] },
        Codepoint { codepoint: 0x1F42B, name: "BACTRIAN CAMEL", aliases: &[] },
        Codepoint { codepoint: 0x1F42C, name: "DOLPHIN", aliases: &[] },
        Codepoint { codepoint: 0x1F42D, name: "MOUSE FACE", aliases: &[] },
        Codepoint { codepoint: 0x1F42E, name: "COW FACE", aliases: &[] },
        Codepoint { codepoint: 0x1F42F, name: "TIGER FACE", aliases: &[] },
    ]
}

fn all_codepoints_799() -> (v: Vec<Codepoint>)
    ensures
        v@ == codepoint_table_799(),
{
    let v = vec![
        Codepoint { codepoint: 0x1F408, name: "CAT", aliases: &[] },
        Codepoint { codepoint: 0x1F409, name: "DRAGON", aliases: &[] },
        Codepoint { codepoint: 0x1F40A, name: "CROCODILE", aliases: &[] },
        Codepoint { codepoint: 0x1F40B, name: "WHALE", aliases: &[] },
        Codepoint { codepoint: 0x1F40C, name: "SNAIL", aliases: &[] },
        Codepoint { codepoint: 0x1F40D, name: "SNAKE", aliases: &[] },
        Codepoint { codepoint: 0x1F40E, name: "HORSE", aliases: &[] },
        Codepoint { codepoint: 0x1F40F, name: "RAM", aliases: &[] },
        Codepoint { codepoint: 0x1F410, name: "GOAT", aliases: &[] },
        Codepoint { codepoint: 0x1F411, name: "SHEEP", aliases: &[] },
        Codepoint { codepoint: 0x1F412, name: "MONKEY", aliases: &[] },
        Codepoint { codepoint: 0x1F413, name: "ROOSTER", aliases: &[] },
        Codepoint { codepoint: 0x1F414, name: "CHICKEN", aliases: &[] },
        Codepoint { codepoint: 0x1F415, name: "DOG", aliases: &[] },
        Codepoint { codepoint: 0x1F416, name: "PIG", aliases: &[] },
        Codepoint { codepoint: 0x1F417, name: "BOAR", aliases: &[] },
        Codepoint { codepoint: 0x1F418, name: "ELEPHANT", aliases: &[] },
        Codepoint { codepoint: 0x1F419, name: "OCTOPUS", aliases: &[] },
        Codepoint { codepoint: 0x1F41A, name: "SPIRAL SHELL", aliases: &[] },
        Codepoint { codepoint: 0x1F41B, name: "BUG", aliases: &[] },
        Codepoint { codepoint: 0x1F41C, name: "ANT", aliases: &[] },
        Codepoint { codepoint: 0x1F41D, name: "HONEYBEE", aliases: &[] },
        Codepoint { codepoint: 0x1F41E, name: "LADY BEETLE", aliases: &[] },
        Codepoint { codepoint: 0x1F41F, name: "FISH", aliases: &[] },
        Codepoint { codepoint: 0x1F420, name: "TROPICAL FISH", aliases: &[] },
        Codepoint { codepoint: 0x1F421, name: "BLOWFISH", aliases: &[] },
        Codepoint { codepoint: 0x1F422, name: "TURTLE", aliases: &[] },
        Codepoint { codepoint: 0x1F423, name: "HATCHING CHICK", aliases: &[] },
        Codepoint { codepoint: 0x1F424, name: "BABY CHICK", aliases: &[] },
        Codepoint { codepoint: 0x1F425, name: "FRONT-FACING BABY CHICK", aliases: &[] },
        Codepoint { codepoint: 0x1F426, name: "BIRD", aliases: &[] },
        Codepoint { codepoint: 0x1F427, name: "PENGUIN", aliases: &[] },
        Codepoint { codepoint: 0x1F428, name: "KOALA", aliases: &[] },
        Codepoint { codepoint: 0x1F429, name: "POODLE", aliases: &[] },
        Codepoint { codepoint: 0x1F42A, name: "DROMEDARY CAMEL", aliases: &[] },
        Codepoint { codepoint: 0x1F42B, name: "BACTRIAN CAMEL", aliases: &[] },
        Codepoint { codepoint: 0x1F42C, name: "DOLPHIN", aliases: &[] },
        Codepoint { codepoint: 0x1F42D, name: "MOUSE FACE", aliases: &[] },
        Codepoint { codepoint: 0x1F42E, name: "COW FACE", aliases: &[] },
        Codepoint { codepoint: 0x1F42F, name: "TIGER FACE", aliases: &[] },
    ];
    assert(v@ =~= codepoint_table_799());
    v
}

/// The entries from position 31200 of the table, 800 at most.
pub open spec fn codepoint_group_39() -> Seq<Codepoint> {
    codepoint_table_780() + codepoint_table_781() + codepoint_table_782() + codepoint_table_783() + codepoint_table_784() + codepoint_table_785() + codepoint_table_786() + codepoint_table_787() + codepoint_table_788() + codepoint_table_789() + codepoint_table_790() + codepoint_table_791() + codepoint_table_792() + codepoint_table_793() + codepoint_table_794() + codepoint_table_795() + codepoint_table_796() + codepoint_table_797() + codepoint_table_798() + codepoint_table_799()
}

pub fn all_codepoints_group_39() -> (v: Vec<Codepoint>)
    ensures
        v@ == codepoint_group_39(),
{
    let mut v = all_codepoints_780();
    let mut part = all_codepoints_781();
    v.append(&mut part);
    let mut part = all_codepoints_782();
    v.append(&mut part);
    let mut part = all_codepoints_783();
    v.append(&mut part);
    let mut part = all_codepoints_784();
    v.append(&mut part);
    let mut part = all_codepoints_785();
    v.append(&mut part);
    let mut part = all_codepoints_786();
    v.append(&mut part);
    let mut part = all_codepoints_787();
    v.append(&mut part);
    let mut part = all_codepoints_788();
    v.append(&mut part);
    let mut part = all_codepoints_789();
    v.append(&mut part);
    let mut part = all_codepoints_790();
    v.append(&mut part);
    let mut part = all_codepoints_791();
    v.append(&mut part);
    let mut part = all_codepoints_792();
    v.append(&mut part);
    let mut part = all_codepoints_793();
    v.append(&mut part);
    let mut part = all_codepoints_794();
    v.append(&mut part);
    let mut part = all_codepoints_795();
    v.append(&mut part);
    let mut part = all_codepoints_796();
    v.append(&mut part);
    let mut part = all_codepoints_797();
    v.append(&mut part);
    let mut part = all_codepoints_798();
    v.append(&mut part);
    let mut part = all_codepoints_799();
    v.append(&mut part);
    v
}

} // verus!
