//! Part 2 of the character names: groups 20 to 29 of the table.
use vstd::prelude::*;

use crate::ucd::Codepoint;

verus! {

pub open spec fn codepoint_table_400() -> Seq<Codepoint> {
    seq![
        Codepoint { codepoint: 0xFC34, name: "ARABIC LIGATURE QAF WITH MEEM ISOLATED FORM", aliases: &[] },
        Codepoint { codepoint: 0xFC35, name: "ARABIC LIGATURE QAF WITH ALEF MAKSURA ISOLATED FORM", aliases: &[] },
        Codepoint { codepoint: 0xFC36, name: "ARABIC LIGATURE QAF WITH YEH ISOLATED FORM", aliases: &[] },
        Codepoint { codepoint: 0xFC37, name: "ARABIC LIGATURE KAF WITH ALEF ISOLATED FORM", aliases: &[] },
        Codepoint { codepoint: 0xFC38, name: "ARABIC LIGATURE KAF WITH JEEM ISOLATED FORM", aliases: &[] },
        Codepoint { codepoint: 0xFC39, name: "ARABIC LIGATURE KAF WITH HAH ISOLATED FORM", aliases: &[] },
        Codepoint { codepoint: 0xFC3A, name: "ARABIC LIGATURE KAF WITH KHAH ISOLATED FORM", aliases: &[] },
        Codepoint { codepoint: 0xFC3B, name: "ARABIC LIGATURE KAF WITH LAM ISOLATED FORM", aliases: &[] },
        Codepoint { codepoint: 0xFC3C, name: "ARABIC LIGATURE KAF WITH MEEM ISOLATED FORM", aliases: &[] },
        Codepoint { codepoint: 0xFC3D, name: "ARABIC LIGATURE KAF WITH ALEF MAKSURA ISOLATED FORM", aliases: &[] },
        Codepoint { codepoint: 0xFC3E, name: "ARABIC LIGATURE KAF WITH YEH ISOLATED FORM", aliases: &[] },
        Codepoint { codepoint: 0xFC3F, name: "ARABIC LIGATURE LAM WITH JEEM ISOLATED FORM", aliases: &[] },
        Codepoint { codepoint: 0xFC40, name: "ARABIC LIGATURE LAM WITH HAH ISOLATED FORM", aliases: &[] },
        Codepoint { codepoint: 0xFC41, name: "ARABIC LIGATURE LAM WITH KHAH ISOLATED FORM", aliases: &[] },
        Codepoint { codepoint: 0xFC42, name: "ARABIC LIGATURE LAM WITH MEEM ISOLATED FORM", aliases: &[] },
        Codepoint { codepoint: 0xFC43, name: "ARABIC LIGATURE LAM WITH ALEF MAKSURA ISOLATED FORM", aliases: &[] },
        Codepoint { codepoint: 0xFC44, name: "ARABIC LIGATURE LAM WITH YEH ISOLATED FORM", aliases: &[] },
        Codepoint { codepoint: 0xFC45, name: "ARABIC LIGATURE MEEM WITH JEEM ISOLATED FORM", aliases: &[] },
        Codepoint { codepoint: 0xFC46, name: "ARABIC LIGATURE MEEM WITH HAH ISOLATED FORM", aliases: &[] },
        Codepoint { codepoint: 0xFC47, name: "ARABIC LIGATURE MEEM WITH KHAH ISOLATED FORM", aliases: &[] },
        Codepoint { codepoint: 0xFC48, name: "ARABIC LIGATURE MEEM WITH MEEM ISOLATED FORM", aliases: &[] },
        Codepoint { codepoint: 0xFC49, name: "ARABIC LIGATURE MEEM WITH ALEF MAKSURA ISOLATED FORM", aliases: &[] },
        Codepoint { codepoint: 0xFC4A, name: "ARABIC LIGATURE MEEM WITH YEH ISOLATED FORM", aliases: &[] },
        Codepoint { codepoint: 0xFC4B, name: "ARABIC LIGATURE NOON WITH JEEM ISOLATED FORM", aliases: &[] },
        Codepoint { codepoint: 0xFC4C, name: "ARABIC LIGATURE NOON WITH HAH ISOLATED FORM", aliases: &[] },
        Codepoint { codepoint: 0xFC4D, name: "ARABIC LIGATURE NOON WITH KHAH ISOLATED FORM", aliases: &[] },
        Codepoint { codepoint: 0xFC4E, name: "ARABIC LIGATURE NOON WITH MEEM ISOLATED FORM", aliases: &[] },
        Codepoint { codepoint: 0xFC4F, name: "ARABIC LIGATURE NOON WITH ALEF MAKSURA ISOLATED FORM", aliases: &[] },
        Codepoint { codepoint: 0xFC50, name: "ARABIC LIGATURE NOON WITH YEH ISOLATED FORM", aliases: &[] },
        Codepoint { codepoint: 0xFC51, name: "ARABIC LIGATURE HEH WITH JEEM ISOLATED FORM", aliases: &[] },
        Codepoint { codepoint: 0xFC52, name: "ARABIC LIGATURE HEH WITH MEEM ISOLATED FORM", aliases: &[] },
        Codepoint { codepoint: 0xFC53, name: "ARABIC LIGATURE HEH WITH ALEF MAKSURA ISOLATED FORM", aliases: &[] },
        Codepoint { codepoint: 0xFC54, name: "ARABIC LIGATURE HEH WITH YEH ISOLATED FORM", aliases: &[] },
        Codepoint { codepoint: 0xFC55, name: "ARABIC LIGATURE YEH WITH JEEM ISOLATED FORM", aliases: &[] },
        Codepoint { codepoint: 0xFC56, name: "ARABIC LIGATURE YEH WITH HAH ISOLATED FORM", aliases: &[] },
        Codepoint { codepoint: 0xFC57, name: "ARABIC LIGATURE YEH WITH KHAH ISOLATED FORM", aliases: &[] },
        Codepoint { codepoint: 0xFC58, name: "ARABIC LIGATURE YEH WITH MEEM ISOLATED FORM", aliases: &[] },
        Codepoint { codepoint: 0xFC59, name: "ARABIC LIGATURE YEH WITH ALEF MAKSURA ISOLATED FORM", aliases: &[] },
        Codepoint { codepoint: 0xFC5A, name: "ARABIC LIGATURE YEH WITH YEH ISOLATED FORM", aliases: &[] },
        Codepoint { codepoint: 0xFC5B, name: "ARABIC LIGATURE THAL WITH SUPERSCRIPT ALEF ISOLATED FORM", aliases: &[] },
    ]
}

fn all_codepoints_400() -> (v: Vec<Codepoint>)
    ensures
        v@ == codepoint_table_400(),
{
    let v = vec![
        Codepoint { codepoint: 0xFC34, name: "ARABIC LIGATURE QAF WITH MEEM ISOLATED FORM", aliases: &[] },
        Codepoint { codepoint: 0xFC35, name: "ARABIC LIGATURE QAF WITH ALEF MAKSURA ISOLATED FORM", aliases: &[] },
        Codepoint { codepoint: 0xFC36, name: "ARABIC LIGATURE QAF WITH YEH ISOLATED FORM", aliases: &[] },
        Codepoint { codepoint: 0xFC37, name: "ARABIC LIGATURE KAF WITH ALEF ISOLATED FORM", aliases: &[] },
        Codepoint { codepoint: 0xFC38, name: "ARABIC LIGATURE KAF WITH JEEM ISOLATED FORM", aliases: &[] },
        Codepoint { codepoint: 0xFC39, name: "ARABIC LIGATURE KAF WITH HAH ISOLATED FORM", aliases: &[] },
        Codepoint { codepoint: 0xFC3A, name: "ARABIC LIGATURE KAF WITH KHAH ISOLATED FORM", aliases: &[] },
        Codepoint { codepoint: 0xFC3B, name: "ARABIC LIGATURE KAF WITH LAM ISOLATED FORM", aliases: &[] },
        Codepoint { codepoint: 0xFC3C, name: "ARABIC LIGATURE KAF WITH MEEM ISOLATED FORM", aliases: &[] },
        Codepoint { codepoint: 0xFC3D, name: "ARABIC LIGATURE KAF WITH ALEF MAKSURA ISOLATED FORM", aliases: &[] },
        Codepoint { codepoint: 0xFC3E, name: "ARABIC LIGATURE KAF WITH YEH ISOLATED FORM", aliases: &[] },
        Codepoint { codepoint: 0xFC3F, name: "ARABIC LIGATURE LAM WITH JEEM ISOLATED FORM", aliases: &[] },
        Codepoint { codepoint: 0xFC40, name: "ARABIC LIGATURE LAM WITH HAH ISOLATED FORM", aliases: &[] },
        Codepoint { codepoint: 0xFC41, name: "ARABIC LIGATURE LAM WITH KHAH ISOLATED FORM", aliases: &[] },
        Codepoint { codepoint: 0xFC42, name: "ARABIC LIGATURE LAM WITH MEEM ISOLATED FORM", aliases: &[] },
        Codepoint { codepoint: 0xFC43, name: "ARABIC LIGATURE LAM WITH ALEF MAKSURA ISOLATED FORM", aliases: &[] },
        Codepoint { codepoint: 0xFC44, name: "ARABIC LIGATURE LAM WITH YEH ISOLATED FORM", aliases: &[] },
        Codepoint { codepoint: 0xFC45, name: "ARABIC LIGATURE MEEM WITH JEEM ISOLATED FORM", aliases: &[] },
        Codepoint { codepoint: 0xFC46, name: "ARABIC LIGATURE MEEM WITH HAH ISOLATED FORM", aliases: &[] },
        Codepoint { codepoint: 0xFC47, name: "ARABIC LIGATURE MEEM WITH KHAH ISOLATED FORM", aliases: &[] },
        Codepoint { codepoint: 0xFC48, name: "ARABIC LIGATURE MEEM WITH MEEM ISOLATED FORM", aliases: &[] },
        Codepoint { codepoint: 0xFC49, name: "ARABIC LIGATURE MEEM WITH ALEF MAKSURA ISOLATED FORM", aliases: &[] },
        Codepoint { codepoint: 0xFC4A, name: "ARABIC LIGATURE MEEM WITH YEH ISOLATED FORM", aliases: &[] },
        Codepoint { codepoint: 0xFC4B, name: "ARABIC LIGATURE NOON WITH JEEM ISOLATED FORM", aliases: &[] },
        Codepoint { codepoint: 0xFC4C, name: "ARABIC LIGATURE NOON WITH HAH ISOLATED FORM", aliases: &[] },
        Codepoint { codepoint: 0xFC4D, name: "ARABIC LIGATURE NOON WITH KHAH ISOLATED FORM", aliases: &[] },
        Codepoint { codepoint: 0xFC4E, name: "ARABIC LIGATURE NOON WITH MEEM ISOLATED FORM", aliases: &[] },
        Codepoint { codepoint: 0xFC4F, name: "ARABIC LIGATURE NOON WITH ALEF MAKSURA ISOLATED FORM", aliases: &[] },
        Codepoint { codepoint: 0xFC50, name: "ARABIC LIGATURE NOON WITH YEH ISOLATED FORM", aliases: &[] },
        Codepoint { codepoint: 0xFC51, name: "ARABIC LIGATURE HEH WITH JEEM ISOLATED FORM", aliases: &[] },
        Codepoint { codepoint: 0xFC52, name: "ARABIC LIGATURE HEH WITH MEEM ISOLATED FORM", aliases: &[] },
        Codepoint { codepoint: 0xFC53, name: "ARABIC LIGATURE HEH WITH ALEF MAKSURA ISOLATED FORM", aliases: &[] },
        Codepoint { codepoint: 0xFC54, name: "ARABIC LIGATURE HEH WITH YEH ISOLATED FORM", aliases: &[] },
        Codepoint { codepoint: 0xFC55, name: "ARABIC LIGATURE YEH WITH JEEM ISOLATED FORM", aliases: &[] },
        Codepoint { codepoint: 0xFC56, name: "ARABIC LIGATURE YEH WITH HAH ISOLATED FORM", aliases: &[] },
        Codepoint { codepoint: 0xFC57, name: "ARABIC LIGATURE YEH WITH KHAH ISOLATED FORM", aliases: &[] },
        Codepoint { codepoint: 0xFC58, name: "ARABIC LIGATURE YEH WITH MEEM ISOLATED FORM", aliases: &[] },
        Codepoint { codepoint: 0xFC59, name: "ARABIC LIGATURE YEH WITH ALEF MAKSURA ISOLATED FORM", aliases: &[] },
        Codepoint { codepoint: 0xFC5A, name: "ARABIC LIGATURE YEH WITH YEH ISOLATED FORM", aliases: &[] },
        Codepoint { codepoint: 0xFC5B, name: "ARABIC LIGATURE THAL WITH SUPERSCRIPT ALEF ISOLATED FORM", aliases: &[] },
    ];
    assert(v@ =~= codepoint_table_400());
    v
}

pub open spec fn codepoint_table_401() -> Seq<Codepoint> {
    seq![
        Codepoint { codepoint: 0xFC5C, name: "ARABIC LIGATURE REH WITH SUPERSCRIPT ALEF ISOLATED FORM", aliases: &[] },
        Codepoint { codepoint: 0xFC5D, name: "ARABIC LIGATURE ALEF MAKSURA WITH SUPERSCRIPT ALEF ISOLATED FORM", aliases: &[] },
        Codepoint { codepoint: 0xFC5E, name: "ARABIC LIGATURE SHADDA WITH DAMMATAN ISOLATED FORM", aliases: &[] },
        Codepoint { codepoint: 0xFC5F, name: "ARABIC LIGATURE SHADDA WITH KASRATAN ISOLATED FORM", aliases: &[] },
        Codepoint { codepoint: 0xFC60, name: "ARABIC LIGATURE SHADDA WITH FATHA ISOLATED FORM", aliases: &[] },
        Codepoint { codepoint: 0xFC61, name: "ARABIC LIGATURE SHADDA WITH DAMMA ISOLATED FORM", aliases: &[] },
        Codepoint { codepoint: 0xFC62, name: "ARABIC LIGATURE SHADDA WITH KASRA ISOLATED FORM", aliases: &[] },
        Codepoint { codepoint: 0xFC63, name: "ARABIC LIGATURE SHADDA WITH SUPERSCRIPT ALEF ISOLATED FORM", aliases: &[] },
        Codepoint { codepoint: 0xFC64, name: "ARABIC LIGATURE YEH WITH HAMZA ABOVE WITH REH FINAL FORM", aliases: &[] },
        Codepoint { codepoint: 0xFC65, name: "ARABIC LIGATURE YEH WITH HAMZA ABOVE WITH ZAIN FINAL FORM", aliases: &[] },
        Codepoint { codepoint: 0xFC66, name: "ARABIC LIGATURE YEH WITH HAMZA ABOVE WITH MEEM FINAL FORM", aliases: &[] },
        Codepoint { codepoint: 0xFC67, name: "ARABIC LIGATURE YEH WITH HAMZA ABOVE WITH NOON FINAL FORM", aliases: &[] },
        Codepoint { codepoint: 0xFC68, name: "ARABIC LIGATURE YEH WITH HAMZA ABOVE WITH ALEF MAKSURA FINAL FORM", aliases: &[] },
        Codepoint { codepoint: 0xFC69, name: "ARABIC LIGATURE YEH WITH HAMZA ABOVE WITH YEH FINAL FORM", aliases: &[] },
        Codepoint { codepoint: 0xFC6A, name: "ARABIC LIGATURE BEH WITH REH FINAL FORM", aliases: &[] },
        Codepoint { codepoint: 0xFC6B, name: "ARABIC LIGATURE BEH WITH ZAIN FINAL FORM", aliases: &[] },
        Codepoint { codepoint: 0xFC6C, name: "ARABIC LIGATURE BEH WITH MEEM FINAL FORM", aliases: &[] },
        Codepoint { codepoint: 0xFC6D, name: "ARABIC LIGATURE BEH WITH NOON FINAL FORM", aliases: &[] },
        Codepoint { codepoint: 0xFC6E, name: "ARABIC LIGATURE BEH WITH ALEF MAKSURA FINAL FORM", aliases: &[] },
        Codepoint { codepoint: 0xFC6F, name: "ARABIC LIGATURE BEH WITH YEH FINAL FORM", aliases: &[] },
        Codepoint { codepoint: 0xFC70, name: "ARABIC LIGATURE TEH WITH REH FINAL FORM", aliases: &[] },
        Codepoint { codepoint: 0xFC71, name: "ARABIC LIGATURE TEH WITH ZAIN FINAL FORM", aliases: &[] },
        Codepoint { codepoint: 0xFC72, name: "ARABIC LIGATURE TEH WITH MEEM FINAL FORM", aliases: &[] },
        Codepoint { codepoint: 0xFC73, name: "ARABIC LIGATURE TEH WITH NOON FINAL FORM", aliases: &[] },
        Codepoint { codepoint: 0xFC74, name: "ARABIC LIGATURE TEH WITH ALEF MAKSURA FINAL FORM", aliases: &[] },
        Codepoint { codepoint: 0xFC75, name: "ARABIC LIGATURE TEH WITH YEH FINAL FORM", aliases: &[] },
        Codepoint { codepoint: 0xFC76, name: "ARABIC LIGATURE THEH WITH REH FINAL FORM", aliases: &[] },
        Codepoint { codepoint: 0xFC77, name: "ARABIC LIGATURE THEH WITH ZAIN FINAL FORM", aliases: &[] },
        Codepoint { codepoint: 0xFC78, name: "ARABIC LIGATURE THEH WITH MEEM FINAL FORM", aliases: &[] },
        Codepoint { codepoint: 0xFC79, name: "ARABIC LIGATURE THEH WITH NOON FINAL FORM", aliases: &[] },
        Codepoint { codepoint: 0xFC7A, name: "ARABIC LIGATURE THEH WITH ALEF MAKSURA FINAL FORM", aliases: &[] },
        Codepoint { codepoint: 0xFC7B, name: "ARABIC LIGATURE THEH WITH YEH FINAL FORM", aliases: &[] },
        Codepoint { codepoint: 0xFC7C, name: "ARABIC LIGATURE FEH WITH ALEF MAKSURA FINAL FORM", aliases: &[] },
        Codepoint { codepoint: 0xFC7D, name: "ARABIC LIGATURE FEH WITH YEH FINAL FORM", aliases: &[] },
        Codepoint { codepoint: 0xFC7E, name: "ARABIC LIGATURE QAF WITH ALEF MAKSURA FINAL FORM", aliases: &[] },
        Codepoint { codepoint: 0xFC7F, name: "ARABIC LIGATURE QAF WITH YEH FINAL FORM", aliases: &[] },
        Codepoint { codepoint: 0xFC80, name: "ARABIC LIGATURE KAF WITH ALEF FINAL FORM", aliases: &[] },
        Codepoint { codepoint: 0xFC81, name: "ARABIC LIGATURE KAF WITH LAM FINAL FORM", aliases: &[] },
        Codepoint { codepoint: 0xFC82, name: "ARABIC LIGATURE KAF WITH MEEM FINAL FORM", aliases: &[] },
        Codepoint { codepoint: 0xFC83, name: "ARABIC LIGATURE KAF WITH ALEF MAKSURA FINAL FORM", aliases: &[] },
    ]
}

fn all_codepoints_401() -> (v: Vec<Codepoint>)
    ensures
        v@ == codepoint_table_401(),
{
    let v = vec![
        Codepoint { codepoint: 0xFC5C, name: "ARABIC LIGATURE REH WITH SUPERSCRIPT ALEF ISOLATED FORM", aliases: &[] },
        Codepoint { codepoint: 0xFC5D, name: "ARABIC LIGATURE ALEF MAKSURA WITH SUPERSCRIPT ALEF ISOLATED FORM", aliases: &[] },
        Codepoint { codepoint: 0xFC5E, name: "ARABIC LIGATURE SHADDA WITH DAMMATAN ISOLATED FORM", aliases: &[] },
        Codepoint { codepoint: 0xFC5F, name: "ARABIC LIGATURE SHADDA WITH KASRATAN ISOLATED FORM", aliases: &[] },
        Codepoint { codepoint: 0xFC60, name: "ARABIC LIGATURE SHADDA WITH FATHA ISOLATED FORM", aliases: &[] },
        Codepoint { codepoint: 0xFC61, name: "ARABIC LIGATURE SHADDA WITH DAMMA ISOLATED FORM", aliases: &[] },
        Codepoint { codepoint: 0xFC62, name: "ARABIC LIGATURE SHADDA WITH KASRA ISOLATED FORM", aliases: &[] },
        Codepoint { codepoint: 0xFC63, name: "ARABIC LIGATURE SHADDA WITH SUPERSCRIPT ALEF ISOLATED FORM", aliases: &[] },
        Codepoint { codepoint: 0xFC64, name: "ARABIC LIGATURE YEH WITH HAMZA ABOVE WITH REH FINAL FORM", aliases: &[] },
        Codepoint { codepoint: 0xFC65, name: "ARABIC LIGATURE YEH WITH HAMZA ABOVE WITH ZAIN FINAL FORM", aliases: &[] },
        Codepoint { codepoint: 0xFC66, name: "ARABIC LIGATURE YEH WITH HAMZA ABOVE WITH MEEM FINAL FORM", aliases: &[] },
        Codepoint { codepoint: 0xFC67, name: "ARABIC LIGATURE YEH WITH HAMZA ABOVE WITH NOON FINAL FORM", aliases: &[] },
        Codepoint { codepoint: 0xFC68, name: "ARABIC LIGATURE YEH WITH HAMZA ABOVE WITH ALEF MAKSURA FINAL FORM", aliases: &[] },
        Codepoint { codepoint: 0xFC69, name: "ARABIC LIGATURE YEH WITH HAMZA ABOVE WITH YEH FINAL FORM", aliases: &[] },
        Codepoint { codepoint: 0xFC6A, name: "ARABIC LIGATURE BEH WITH REH FINAL FORM", aliases: &[] },
        Codepoint { codepoint: 0xFC6B, name: "ARABIC LIGATURE BEH WITH ZAIN FINAL FORM", aliases: &[] },
        Codepoint { codepoint: 0xFC6C, name: "ARABIC LIGATURE BEH WITH MEEM FINAL FORM", aliases: &[] },
        Codepoint { codepoint: 0xFC6D, name: "ARABIC LIGATURE BEH WITH NOON FINAL FORM", aliases: &[] },
        Codepoint { codepoint: 0xFC6E, name: "ARABIC LIGATURE BEH WITH ALEF MAKSURA FINAL FORM", aliases: &[] },
        Codepoint { codepoint: 0xFC6F, name: "ARABIC LIGATURE BEH WITH YEH FINAL FORM", aliases: &[] },
        Codepoint { codepoint: 0xFC70, name: "ARABIC LIGATURE TEH WITH REH FINAL FORM", aliases: &[] },
        Codepoint { codepoint: 0xFC71, name: "ARABIC LIGATURE TEH WITH ZAIN FINAL FORM", aliases: &[] },
        Codepoint { codepoint: 0xFC72, name: "ARABIC LIGATURE TEH WITH MEEM FINAL FORM", aliases: &[] },
        Codepoint { codepoint: 0xFC73, name: "ARABIC LIGATURE TEH WITH NOON FINAL FORM", aliases: &[] },
        Codepoint { codepoint: 0xFC74, name: "ARABIC LIGATURE TEH WITH ALEF MAKSURA FINAL FORM", aliases: &[] },
        Codepoint { codepoint: 0xFC75, name: "ARABIC LIGATURE TEH WITH YEH FINAL FORM", aliases: &[] },
        Codepoint { codepoint: 0xFC76, name: "ARABIC LIGATURE THEH WITH REH FINAL FORM", aliases: &[] },
        Codepoint { codepoint: 0xFC77, name: "ARABIC LIGATURE THEH WITH ZAIN FINAL FORM", aliases: &[] },
        Codepoint { codepoint: 0xFC78, name: "ARABIC LIGATURE THEH WITH MEEM FINAL FORM", aliases: &[] },
        Codepoint { codepoint: 0xFC79, name: "ARABIC LIGATURE THEH WITH NOON FINAL FORM", aliases: &[] },
        Codepoint { codepoint: 0xFC7A, name: "ARABIC LIGATURE THEH WITH ALEF MAKSURA FINAL FORM", aliases: &[] },
        Codepoint { codepoint: 0xFC7B, name: "ARABIC LIGATURE THEH WITH YEH FINAL FORM", aliases: &[] },
        Codepoint { codepoint: 0xFC7C, name: "ARABIC LIGATURE FEH WITH ALEF MAKSURA FINAL FORM", aliases: &[] },
        Codepoint { codepoint: 0xFC7D, name: "ARABIC LIGATURE FEH WITH YEH FINAL FORM", aliases: &[] },
        Codepoint { codepoint: 0xFC7E, name: "ARABIC LIGATURE QAF WITH ALEF MAKSURA FINAL FORM", aliases: &[] },
        Codepoint { codepoint: 0xFC7F, name: "ARABIC LIGATURE QAF WITH YEH FINAL FORM", aliases: &[] },
        Codepoint { codepoint: 0xFC80, name: "ARABIC LIGATURE KAF WITH ALEF FINAL FORM", aliases: &[] },
        Codepoint { codepoint: 0xFC81, name: "ARABIC LIGATURE KAF WITH LAM FINAL FORM", aliases: &[] },
        Codepoint { codepoint: 0xFC82, name: "ARABIC LIGATURE KAF WITH MEEM FINAL FORM", aliases: &[] },
        Codepoint { codepoint: 0xFC83, name: "ARABIC LIGATURE KAF WITH ALEF MAKSURA FINAL FORM", aliases: &[] },
    ];
    assert(v@ =~= codepoint_table_401());
    v
}

pub open spec fn codepoint_table_402() -> Seq<Codepoint> {
    seq![
        Codepoint { codepoint: 0xFC84, name: "ARABIC LIGATURE KAF WITH YEH FINAL FORM", aliases: &[] },
        Codepoint { codepoint: 0xFC85, name: "ARABIC LIGATURE LAM WITH MEEM FINAL FORM", aliases: &[] },
        Codepoint { codepoint: 0xFC86, name: "ARABIC LIGATURE LAM WITH ALEF MAKSURA FINAL FORM", aliases: &[] },
        Codepoint { codepoint: 0xFC87, name: "ARABIC LIGATURE LAM WITH YEH FINAL FORM", aliases: &[] },
        Codepoint { codepoint: 0xFC88, name: "ARABIC LIGATURE MEEM WITH ALEF FINAL FORM", aliases: &[] },
        Codepoint { codepoint: 0xFC89, name: "ARABIC LIGATURE MEEM WITH MEEM FINAL FORM", aliases: &[] },
        Codepoint { codepoint: 0xFC8A, name: "ARABIC LIGATURE NOON WITH REH FINAL FORM", aliases: &[] },
        Codepoint { codepoint: 0xFC8B, name: "ARABIC LIGATURE NOON WITH ZAIN FINAL FORM", aliases: &[] },
        Codepoint { codepoint: 0xFC8C, name: "ARABIC LIGATURE NOON WITH MEEM FINAL FORM", aliases: &[] },
        Codepoint { codepoint: 0xFC8D, name: "ARABIC LIGATURE NOON WITH NOON FINAL FORM", aliases: &[] },
        Codepoint { codepoint: 0xFC8E, name: "ARABIC LIGATURE NOON WITH ALEF MAKSURA FINAL FORM", aliases: &[] },
        Codepoint { codepoint: 0xFC8F, name: "ARABIC LIGATURE NOON WITH YEH FINAL FORM", aliases: &[] },
        Codepoint { codepoint: 0xFC90, name: "ARABIC LIGATURE ALEF MAKSURA WITH SUPERSCRIPT ALEF FINAL FORM", aliases: &[] },
        Codepoint { codepoint: 0xFC91, name: "ARABIC LIGATURE YEH WITH REH FINAL FORM", aliases: &[] },
        Codepoint { codepoint: 0xFC92, name: "ARABIC LIGATURE YEH WITH ZAIN FINAL FORM", aliases: &[] },
        Codepoint { codepoint: 0xFC93, name: "ARABIC LIGATURE YEH WITH MEEM FINAL FORM", aliases: &[] },
        Codepoint { codepoint: 0xFC94, name: "ARABIC LIGATURE YEH WITH NOON FINAL FORM", aliases: &[] },
        Codepoint { codepoint: 0xFC95, name: "ARABIC LIGATURE YEH WITH ALEF MAKSURA FINAL FORM", aliases: &[] },
        Codepoint { codepoint: 0xFC96, name: "ARABIC LIGATURE YEH WITH YEH FINAL FORM", aliases: &[] },
        Codepoint { codepoint: 0xFC97, name: "ARABIC LIGATURE YEH WITH HAMZA ABOVE WITH JEEM INITIAL FORM", aliases: &[] },
        Codepoint { codepoint: 0xFC98, name: "ARABIC LIGATURE YEH WITH HAMZA ABOVE WITH HAH INITIAL FORM", aliases: &[] },
        Codepoint { codepoint: 0xFC99, name: "ARABIC LIGATURE YEH WITH HAMZA ABOVE WITH KHAH INITIAL FORM", aliases: &[] },
        Codepoint { codepoint: 0xFC9A, name: "ARABIC LIGATURE YEH WITH HAMZA ABOVE WITH MEEM INITIAL FORM", aliases: &[] },
        Codepoint { codepoint: 0xFC9B, name: "ARABIC LIGATURE YEH WITH HAMZA ABOVE WITH HEH INITIAL FORM", aliases: &[] },
        Codepoint { codepoint: 0xFC9C, name: "ARABIC LIGATURE BEH WITH JEEM INITIAL FORM", aliases: &[] },
        Codepoint { codepoint: 0xFC9D, name: "ARABIC LIGATURE BEH WITH HAH INITIAL FORM", aliases: &[] },
        Codepoint { codepoint: 0xFC9E, name: "ARABIC LIGATURE BEH WITH KHAH INITIAL FORM", aliases: &[] },
        Codepoint { codepoint: 0xFC9F, name: "ARABIC LIGATURE BEH WITH MEEM INITIAL FORM", aliases: &[] },
        Codepoint { codepoint: 0xFCA0, name: "ARABIC LIGATURE BEH WITH HEH INITIAL FORM", aliases: &[] },
        Codepoint { codepoint: 0xFCA1, name: "ARABIC LIGATURE TEH WITH JEEM INITIAL FORM", aliases: &[] },
        Codepoint { codepoint: 0xFCA2, name: "ARABIC LIGATURE TEH WITH HAH INITIAL FORM", aliases: &[] },
        Codepoint { codepoint: 0xFCA3, name: "ARABIC LIGATURE TEH WITH KHAH INITIAL FORM", aliases: &[] },
        Codepoint { codepoint: 0xFCA4, name: "ARABIC LIGATURE TEH WITH MEEM INITIAL FORM", aliases: &[] },
        Codepoint { codepoint: 0xFCA5, name: "ARABIC LIGATURE TEH WITH HEH INITIAL FORM", aliases: &[] },
        Codepoint { codepoint: 0xFCA6, name: "ARABIC LIGATURE THEH WITH MEEM INITIAL FORM", aliases: &[] },
        Codepoint { codepoint: 0xFCA7, name: "ARABIC LIGATURE JEEM WITH HAH INITIAL FORM", aliases: &[] },
        Codepoint { codepoint: 0xFCA8, name: "ARABIC LIGATURE JEEM WITH MEEM INITIAL FORM", aliases: &[] },
        Codepoint { codepoint: 0xFCA9, name: "ARABIC LIGATURE HAH WITH JEEM INITIAL FORM", aliases: &[] },
        Codepoint { codepoint: 0xFCAA, name: "ARABIC LIGATURE HAH WITH MEEM INITIAL FORM", aliases: &[] },
        Codepoint { codepoint: 0xFCAB, name: "ARABIC LIGATURE KHAH WITH JEEM INITIAL FORM", aliases: &[] },
    ]
}

fn all_codepoints_402() -> (v: Vec<Codepoint>)
    ensures
        v@ == codepoint_table_402(),
{
    let v = vec![
        Codepoint { codepoint: 0xFC84, name: "ARABIC LIGATURE KAF WITH YEH FINAL FORM", aliases: &[] },
        Codepoint { codepoint: 0xFC85, name: "ARABIC LIGATURE LAM WITH MEEM FINAL FORM", aliases: &[] },
        Codepoint { codepoint: 0xFC86, name: "ARABIC LIGATURE LAM WITH ALEF MAKSURA FINAL FORM", aliases: &[] },
        Codepoint { codepoint: 0xFC87, name: "ARABIC LIGATURE LAM WITH YEH FINAL FORM", aliases: &[] },
        Codepoint { codepoint: 0xFC88, name: "ARABIC LIGATURE MEEM WITH ALEF FINAL FORM", aliases: &[] },
        Codepoint { codepoint: 0xFC89, name: "ARABIC LIGATURE MEEM WITH MEEM FINAL FORM", aliases: &[] },
        Codepoint { codepoint: 0xFC8A, name: "ARABIC LIGATURE NOON WITH REH FINAL FORM", aliases: &[] },
        Codepoint { codepoint: 0xFC8B, name: "ARABIC LIGATURE NOON WITH ZAIN FINAL FORM", aliases: &[] },
        Codepoint { codepoint: 0xFC8C, name: "ARABIC LIGATURE NOON WITH MEEM FINAL FORM", aliases: &[] },
        Codepoint { codepoint: 0xFC8D, name: "ARABIC LIGATURE NOON WITH NOON FINAL FORM", aliases: &[] },
        Codepoint { codepoint: 0xFC8E, name: "ARABIC LIGATURE NOON WITH ALEF MAKSURA FINAL FORM", aliases: &[] },
        Codepoint { codepoint: 0xFC8F, name: "ARABIC LIGATURE NOON WITH YEH FINAL FORM", aliases: &[] },
        Codepoint { codepoint: 0xFC90, name: "ARABIC LIGATURE ALEF MAKSURA WITH SUPERSCRIPT ALEF FINAL FORM", aliases: &[] },
        Codepoint { codepoint: 0xFC91, name: "ARABIC LIGATURE YEH WITH REH FINAL FORM", aliases: &[] },
        Codepoint { codepoint: 0xFC92, name: "ARABIC LIGATURE YEH WITH ZAIN FINAL FORM", aliases: &[] },
        Codepoint { codepoint: 0xFC93, name: "ARABIC LIGATURE YEH WITH MEEM FINAL FORM", aliases: &[] },
        Codepoint { codepoint: 0xFC94, name: "ARABIC LIGATURE YEH WITH NOON FINAL FORM", aliases: &[] },
        Codepoint { codepoint: 0xFC95, name: "ARABIC LIGATURE YEH WITH ALEF MAKSURA FINAL FORM", aliases: &[] },
        Codepoint { codepoint: 0xFC96, name: "ARABIC LIGATURE YEH WITH YEH FINAL FORM", aliases: &[] },
        Codepoint { codepoint: 0xFC97, name: "ARABIC LIGATURE YEH WITH HAMZA ABOVE WITH JEEM INITIAL FORM", aliases: &[] },
        Codepoint { codepoint: 0xFC98, name: "ARABIC LIGATURE YEH WITH HAMZA ABOVE WITH HAH INITIAL FORM", aliases: &[] },
        Codepoint { codepoint: 0xFC99, name: "ARABIC LIGATURE YEH WITH HAMZA ABOVE WITH KHAH INITIAL FORM", aliases: &[] },
        Codepoint { codepoint: 0xFC9A, name: "ARABIC LIGATURE YEH WITH HAMZA ABOVE WITH MEEM INITIAL FORM", aliases: &[] },
        Codepoint { codepoint: 0xFC9B, name: "ARABIC LIGATURE YEH WITH HAMZA ABOVE WITH HEH INITIAL FORM", aliases: &[] },
        Codepoint { codepoint: 0xFC9C, name: "ARABIC LIGATURE BEH WITH JEEM INITIAL FORM", aliases: &[] },
        Codepoint { codepoint: 0xFC9D, name: "ARABIC LIGATURE BEH WITH HAH INITIAL FORM", aliases: &[] },
        Codepoint { codepoint: 0xFC9E, name: "ARABIC LIGATURE BEH WITH KHAH INITIAL FORM", aliases: &[] },
        Codepoint { codepoint: 0xFC9F, name: "ARABIC LIGATURE BEH WITH MEEM INITIAL FORM", aliases: &[] },
        Codepoint { codepoint: 0xFCA0, name: "ARABIC LIGATURE BEH WITH HEH INITIAL FORM", aliases: &[] },
        Codepoint { codepoint: 0xFCA1, name: "ARABIC LIGATURE TEH WITH JEEM INITIAL FORM", aliases: &[] },
        Codepoint { codepoint: 0xFCA2, name: "ARABIC LIGATURE TEH WITH HAH INITIAL FORM", aliases: &[] },
        Codepoint { codepoint: 0xFCA3, name: "ARABIC LIGATURE TEH WITH KHAH INITIAL FORM", aliases: &[] },
        Codepoint { codepoint: 0xFCA4, name: "ARABIC LIGATURE TEH WITH MEEM INITIAL FORM", aliases: &[] },
        Codepoint { codepoint: 0xFCA5, name: "ARABIC LIGATURE TEH WITH HEH INITIAL FORM", aliases: &[] },
        Codepoint { codepoint: 0xFCA6, name: "ARABIC LIGATURE THEH WITH MEEM INITIAL FORM", aliases: &[] },
        Codepoint { codepoint: 0xFCA7, name: "ARABIC LIGATURE JEEM WITH HAH INITIAL FORM", aliases: &[] },
        Codepoint { codepoint: 0xFCA8, name: "ARABIC LIGATURE JEEM WITH MEEM INITIAL FORM", aliases: &[] },
        Codepoint { codepoint: 0xFCA9, name: "ARABIC LIGATURE HAH WITH JEEM INITIAL FORM", aliases: &[] },
        Codepoint { codepoint: 0xFCAA, name: "ARABIC LIGATURE HAH WITH MEEM INITIAL FORM", aliases: &[] },
        Codepoint { codepoint: 0xFCAB, name: "ARABIC LIGATURE KHAH WITH JEEM INITIAL FORM", aliases: &[] },
    ];
    assert(v@ =~= codepoint_table_402());
    v
}

pub open spec fn codepoint_table_403() -> Seq<Codepoint> {
    seq![
        Codepoint { codepoint: 0xFCAC, name: "ARABIC LIGATURE KHAH WITH MEEM INITIAL FORM", aliases: &[] },
        Codepoint { codepoint: 0xFCAD, name: "ARABIC LIGATURE SEEN WITH JEEM INITIAL FORM", aliases: &[] },
        Codepoint { codepoint: 0xFCAE, name: "ARABIC LIGATURE SEEN WITH HAH INITIAL FORM", aliases: &[] },
        Codepoint { codepoint: 0xFCAF, name: "ARABIC LIGATURE SEEN WITH KHAH INITIAL FORM", aliases: &[] },
        Codepoint { codepoint: 0xFCB0, name: "ARABIC LIGATURE SEEN WITH MEEM INITIAL FORM", aliases: &[] },
        Codepoint { codepoint: 0xFCB1, name: "ARABIC LIGATURE SAD WITH HAH INITIAL FORM", aliases: &[] },
        Codepoint { codepoint: 0xFCB2, name: "ARABIC LIGATURE SAD WITH KHAH INITIAL FORM", aliases: &[] },
        Codepoint { codepoint: 0xFCB3, name: "ARABIC LIGATURE SAD WITH MEEM INITIAL FORM", aliases: &[] },
        Codepoint { codepoint: 0xFCB4, name: "ARABIC LIGATURE DAD WITH JEEM INITIAL FORM", aliases: &[] },
        Codepoint { codepoint: 0xFCB5, name: "ARABIC LIGATURE DAD WITH HAH INITIAL FORM", aliases: &[] },
        Codepoint { codepoint: 0xFCB6, name: "ARABIC LIGATURE DAD WITH KHAH INITIAL FORM", aliases: &[] },
        Codepoint { codepoint: 0xFCB7, name: "ARABIC LIGATURE DAD WITH MEEM INITIAL FORM", aliases: &[] },
        Codepoint { codepoint: 0xFCB8, name: "ARABIC LIGATURE TAH WITH HAH INITIAL FORM", aliases: &[] },
        Codepoint { codepoint: 0xFCB9, name: "ARABIC LIGATURE ZAH WITH MEEM INITIAL FORM", aliases: &[] },
        Codepoint { codepoint: 0xFCBA, name: "ARABIC LIGATURE AIN WITH JEEM INITIAL FORM", aliases: &[] },
        Codepoint { codepoint: 0xFCBB, name: "ARABIC LIGATURE AIN WITH MEEM INITIAL FORM", aliases: &[] },
        Codepoint { codepoint: 0xFCBC, name: "ARABIC LIGATURE GHAIN WITH JEEM INITIAL FORM", aliases: &[] },
        Codepoint { codepoint: 0xFCBD, name: "ARABIC LIGATURE GHAIN WITH MEEM INITIAL FORM", aliases: &[] },
        Codepoint { codepoint: 0xFCBE, name: "ARABIC LIGATURE FEH WITH JEEM INITIAL FORM", aliases: &[] },
        Codepoint { codepoint: 0xFCBF, name: "ARABIC LIGATURE FEH WITH HAH INITIAL FORM", aliases: &[] },
        Codepoint { codepoint: 0xFCC0, name: "ARABIC LIGATURE FEH WITH KHAH INITIAL FORM", aliases: &[] },
        Codepoint { codepoint: 0xFCC1, name: "ARABIC LIGATURE FEH WITH MEEM INITIAL FORM", aliases: &[] },
        Codepoint { codepoint: 0xFCC2, name: "ARABIC LIGATURE QAF WITH HAH INITIAL FORM", aliases: &[] },
        Codepoint { codepoint: 0xFCC3, name: "ARABIC LIGATURE QAF WITH MEEM INITIAL FORM", aliases: &[] },
        Codepoint { codepoint: 0xFCC4, name: "ARABIC LIGATURE KAF WITH JEEM INITIAL FORM", aliases: &[] },
        Codepoint { codepoint: 0xFCC5, name: "ARABIC LIGATURE KAF WITH HAH INITIAL FORM", aliases: &[] },
        Codepoint { codepoint: 0xFCC6, name: "ARABIC LIGATURE KAF WITH KHAH INITIAL FORM", aliases: &[] },
        Codepoint { codepoint: 0xFCC7, name: "ARABIC LIGATURE KAF WITH LAM INITIAL FORM", aliases: &[] },
        Codepoint { codepoint: 0xFCC8, name: "ARABIC LIGATURE KAF WITH MEEM INITIAL FORM", aliases: &[] },
        Codepoint { codepoint: 0xFCC9, name: "ARABIC LIGATURE LAM WITH JEEM INITIAL FORM", aliases: &[] },
        Codepoint { codepoint: 0xFCCA, name: "ARABIC LIGATURE LAM WITH HAH INITIAL FORM", aliases: &[] },
        Codepoint { codepoint: 0xFCCB, name: "ARABIC LIGATURE LAM WITH KHAH INITIAL FORM", aliases: &[] },
        Codepoint { codepoint: 0xFCCC, name: "ARABIC LIGATURE LAM WITH MEEM INITIAL FORM", aliases: &[] },
        Codepoint { codepoint: 0xFCCD, name: "ARABIC LIGATURE LAM WITH HEH INITIAL FORM", aliases: &[] },
        Codepoint { codepoint: 0xFCCE, name: "ARABIC LIGATURE MEEM WITH JEEM INITIAL FORM", aliases: &[] },
        Codepoint { codepoint: 0xFCCF, name: "ARABIC LIGATURE MEEM WITH HAH INITIAL FORM", aliases: &[] },
        Codepoint { codepoint: 0xFCD0, name: "ARABIC LIGATURE MEEM WITH KHAH INITIAL FORM", aliases: &[] },
        Codepoint { codepoint: 0xFCD1, name: "ARABIC LIGATURE MEEM WITH MEEM INITIAL FORM", aliases: &[] },
        Codepoint { codepoint: 0xFCD2, name: "ARABIC LIGATURE NOON WITH JEEM INITIAL FORM", aliases: &[] },
        Codepoint { codepoint: 0xFCD3, name: "ARABIC LIGATURE NOON WITH HAH INITIAL FORM", aliases: &[] },
    ]
}

fn all_codepoints_403() -> (v: Vec<Codepoint>)
    ensures
        v@ == codepoint_table_403(),
{
    let v = vec![
        Codepoint { codepoint: 0xFCAC, name: "ARABIC LIGATURE KHAH WITH MEEM INITIAL FORM", aliases: &[] },
        Codepoint { codepoint: 0xFCAD, name: "ARABIC LIGATURE SEEN WITH JEEM INITIAL FORM", aliases: &[] },
        Codepoint { codepoint: 0xFCAE, name: "ARABIC LIGATURE SEEN WITH HAH INITIAL FORM", aliases: &[] },
        Codepoint { codepoint: 0xFCAF, name: "ARABIC LIGATURE SEEN WITH KHAH INITIAL FORM", aliases: &[] },
        Codepoint { codepoint: 0xFCB0, name: "ARABIC LIGATURE SEEN WITH MEEM INITIAL FORM", aliases: &[] },
        Codepoint { codepoint: 0xFCB1, name: "ARABIC LIGATURE SAD WITH HAH INITIAL FORM", aliases: &[] },
        Codepoint { codepoint: 0xFCB2, name: "ARABIC LIGATURE SAD WITH KHAH INITIAL FORM", aliases: &[] },
        Codepoint { codepoint: 0xFCB3, name: "ARABIC LIGATURE SAD WITH MEEM INITIAL FORM", aliases: &[] },
        Codepoint { codepoint: 0xFCB4, name: "ARABIC LIGATURE DAD WITH JEEM INITIAL FORM", aliases: &[] },
        Codepoint { codepoint: 0xFCB5, name: "ARABIC LIGATURE DAD WITH HAH INITIAL FORM", aliases: &[] },
        Codepoint { codepoint: 0xFCB6, name: "ARABIC LIGATURE DAD WITH KHAH INITIAL FORM", aliases: &[] },
        Codepoint { codepoint: 0xFCB7, name: "ARABIC LIGATURE DAD WITH MEEM INITIAL FORM", aliases: &[] },
        Codepoint { codepoint: 0xFCB8, name: "ARABIC LIGATURE TAH WITH HAH INITIAL FORM", aliases: &[] },
        Codepoint { codepoint: 0xFCB9, name: "ARABIC LIGATURE ZAH WITH MEEM INITIAL FORM", aliases: &[] },
        Codepoint { codepoint: 0xFCBA, name: "ARABIC LIGATURE AIN WITH JEEM INITIAL FORM", aliases: &[] },
        Codepoint { codepoint: 0xFCBB, name: "ARABIC LIGATURE AIN WITH MEEM INITIAL FORM", aliases: &[] },
        Codepoint { codepoint: 0xFCBC, name: "ARABIC LIGATURE GHAIN WITH JEEM INITIAL FORM", aliases: &[] },
        Codepoint { codepoint: 0xFCBD, name: "ARABIC LIGATURE GHAIN WITH MEEM INITIAL FORM", aliases: &[] },
        Codepoint { codepoint: 0xFCBE, name: "ARABIC LIGATURE FEH WITH JEEM INITIAL FORM", aliases: &[] },
        Codepoint { codepoint: 0xFCBF, name: "ARABIC LIGATURE FEH WITH HAH INITIAL FORM", aliases: &[] },
        Codepoint { codepoint: 0xFCC0, name: "ARABIC LIGATURE FEH WITH KHAH INITIAL FORM", aliases: &[] },
        Codepoint { codepoint: 0xFCC1, name: "ARABIC LIGATURE FEH WITH MEEM INITIAL FORM", aliases: &[] },
        Codepoint { codepoint: 0xFCC2, name: "ARABIC LIGATURE QAF WITH HAH INITIAL FORM", aliases: &[] },
        Codepoint { codepoint: 0xFCC3, name: "ARABIC LIGATURE QAF WITH MEEM INITIAL FORM", aliases: &[] },
        Codepoint { codepoint: 0xFCC4, name: "ARABIC LIGATURE KAF WITH JEEM INITIAL FORM", aliases: &[] },
        Codepoint { codepoint: 0xFCC5, name: "ARABIC LIGATURE KAF WITH HAH INITIAL FORM", aliases: &[] },
        Codepoint { codepoint: 0xFCC6, name: "ARABIC LIGATURE KAF WITH KHAH INITIAL FORM", aliases: &[] },
        Codepoint { codepoint: 0xFCC7, name: "ARABIC LIGATURE KAF WITH LAM INITIAL FORM", aliases: &[] },
        Codepoint { codepoint: 0xFCC8, name: "ARABIC LIGATURE KAF WITH MEEM INITIAL FORM", aliases: &[] },
        Codepoint { codepoint: 0xFCC9, name: "ARABIC LIGATURE LAM WITH JEEM INITIAL FORM", aliases: &[] },
        Codepoint { codepoint: 0xFCCA, name: "ARABIC LIGATURE LAM WITH HAH INITIAL FORM", aliases: &[] },
        Codepoint { codepoint: 0xFCCB, name: "ARABIC LIGATURE LAM WITH KHAH INITIAL FORM", aliases: &[] },
        Codepoint { codepoint: 0xFCCC, name: "ARABIC LIGATURE LAM WITH MEEM INITIAL FORM", aliases: &[] },
        Codepoint { codepoint: 0xFCCD, name: "ARABIC LIGATURE LAM WITH HEH INITIAL FORM", aliases: &[] },
        Codepoint { codepoint: 0xFCCE, name: "ARABIC LIGATURE MEEM WITH JEEM INITIAL FORM", aliases: &[] },
        Codepoint { codepoint: 0xFCCF, name: "ARABIC LIGATURE MEEM WITH HAH INITIAL FORM", aliases: &[] },
        Codepoint { codepoint: 0xFCD0, name: "ARABIC LIGATURE MEEM WITH KHAH INITIAL FORM", aliases: &[] },
        Codepoint { codepoint: 0xFCD1, name: "ARABIC LIGATURE MEEM WITH MEEM INITIAL FORM", aliases: &[] },
        Codepoint { codepoint: 0xFCD2, name: "ARABIC LIGATURE NOON WITH JEEM INITIAL FORM", aliases: &[] },
        Codepoint { codepoint: 0xFCD3, name: "ARABIC LIGATURE NOON WITH HAH INITIAL FORM", aliases: &[] },
    ];
    assert(v@ =~= codepoint_table_403());
    v
}

pub open spec fn codepoint_table_404() -> Seq<Codepoint> {
    seq![
        Codepoint { codepoint: 0xFCD4, name: "ARABIC LIGATURE NOON WITH KHAH INITIAL FORM", aliases: &[] },
        Codepoint { codepoint: 0xFCD5, name: "ARABIC LIGATURE NOON WITH MEEM INITIAL FORM", aliases: &[] },
        Codepoint { codepoint: 0xFCD6, name: "ARABIC LIGATURE NOON WITH HEH INITIAL FORM", aliases: &[] },
        Codepoint { codepoint: 0xFCD7, name: "ARABIC LIGATURE HEH WITH JEEM INITIAL FORM", aliases: &[] },
        Codepoint { codepoint: 0xFCD8, name: "ARABIC LIGATURE HEH WITH MEEM INITIAL FORM", aliases: &[] },
        Codepoint { codepoint: 0xFCD9, name: "ARABIC LIGATURE HEH WITH SUPERSCRIPT ALEF INITIAL FORM", aliases: &[] },
        Codepoint { codepoint: 0xFCDA, name: "ARABIC LIGATURE YEH WITH JEEM INITIAL FORM", aliases: &[] },
        Codepoint { codepoint: 0xFCDB, name: "ARABIC LIGATURE YEH WITH HAH INITIAL FORM", aliases: &[] },
        Codepoint { codepoint: 0xFCDC, name: "ARABIC LIGATURE YEH WITH KHAH INITIAL FORM", aliases: &[] },
        Codepoint { codepoint: 0xFCDD, name: "ARABIC LIGATURE YEH WITH MEEM INITIAL FORM", aliases: &[] },
        Codepoint { codepoint: 0xFCDE, name: "ARABIC LIGATURE YEH WITH HEH INITIAL FORM", aliases: &[] },
        Codepoint { codepoint: 0xFCDF, name: "ARABIC LIGATURE YEH WITH HAMZA ABOVE WITH MEEM MEDIAL FORM", aliases: &[] },
        Codepoint { codepoint: 0xFCE0, name: "ARABIC LIGATURE YEH WITH HAMZA ABOVE WITH HEH MEDIAL FORM", aliases: &[] },
        Codepoint { codepoint: 0xFCE1, name: "ARABIC LIGATURE BEH WITH MEEM MEDIAL FORM", aliases: &[] },
        Codepoint { codepoint: 0xFCE2, name: "ARABIC LIGATURE BEH WITH HEH MEDIAL FORM", aliases: &[] },
        Codepoint { codepoint: 0xFCE3, name: "ARABIC LIGATURE TEH WITH MEEM MEDIAL FORM", aliases: &[] },
        Codepoint { codepoint: 0xFCE4, name: "ARABIC LIGATURE TEH WITH HEH MEDIAL FORM", aliases: &[] },
        Codepoint { codepoint: 0xFCE5, name: "ARABIC LIGATURE THEH WITH MEEM MEDIAL FORM", aliases: &[] },
        Codepoint { codepoint: 0xFCE6, name: "ARABIC LIGATURE THEH WITH HEH MEDIAL FORM", aliases: &[] },
        Codepoint { codepoint: 0xFCE7, name: "ARABIC LIGATURE SEEN WITH MEEM MEDIAL FORM", aliases: &[] },
        Codepoint { codepoint: 0xFCE8, name: "ARABIC LIGATURE SEEN WITH HEH MEDIAL FORM", aliases: &[] },
        Codepoint { codepoint: 0xFCE9, name: "ARABIC LIGATURE SHEEN WITH MEEM MEDIAL FORM", aliases: &[] },
        Codepoint { codepoint: 0xFCEA, name: "ARABIC LIGATURE SHEEN WITH HEH MEDIAL FORM", aliases: &[] },
        Codepoint { codepoint: 0xFCEB, name: "ARABIC LIGATURE KAF WITH LAM MEDIAL FORM", aliases: &[] },
        Codepoint { codepoint: 0xFCEC, name: "ARABIC LIGATURE KAF WITH MEEM MEDIAL FORM", aliases: &[] },
        Codepoint { codepoint: 0xFCED, name: "ARABIC LIGATURE LAM WITH MEEM MEDIAL FORM", aliases: &[] },
        Codepoint { codepoint: 0xFCEE, name: "ARABIC LIGATURE NOON WITH MEEM MEDIAL FORM", aliases: &[] },
        Codepoint { codepoint: 0xFCEF, name: "ARABIC LIGATURE NOON WITH HEH MEDIAL FORM", aliases: &[] },
        Codepoint { codepoint: 0xFCF0, name: "ARABIC LIGATURE YEH WITH MEEM MEDIAL FORM", aliases: &[] },
        Codepoint { codepoint: 0xFCF1, name: "ARABIC LIGATURE YEH WITH HEH MEDIAL FORM", aliases: &[] },
        Codepoint { codepoint: 0xFCF2, name: "ARABIC LIGATURE SHADDA WITH FATHA MEDIAL FORM", aliases: &[] },
        Codepoint { codepoint: 0xFCF3, name: "ARABIC LIGATURE SHADDA WITH DAMMA MEDIAL FORM", aliases: &[] },
        Codepoint { codepoint: 0xFCF4, name: "ARABIC LIGATURE SHADDA WITH KASRA MEDIAL FORM", aliases: &[] },
        Codepoint { codepoint: 0xFCF5, name: "ARABIC LIGATURE TAH WITH ALEF MAKSURA ISOLATED FORM", aliases: &[] },
        Codepoint { codepoint: 0xFCF6, name: "ARABIC LIGATURE TAH WITH YEH ISOLATED FORM", aliases: &[] },
        Codepoint { codepoint: 0xFCF7, name: "ARABIC LIGATURE AIN WITH ALEF MAKSURA ISOLATED FORM", aliases: &[] },
        Codepoint { codepoint: 0xFCF8, name: "ARABIC LIGATURE AIN WITH YEH ISOLATED FORM", aliases: &[] },
        Codepoint { codepoint: 0xFCF9, name: "ARABIC LIGATURE GHAIN WITH ALEF MAKSURA ISOLATED FORM", aliases: &[] },
        Codepoint { codepoint: 0xFCFA, name: "ARABIC LIGATURE GHAIN WITH YEH ISOLATED FORM", aliases: &[] },
        Codepoint { codepoint: 0xFCFB, name: "ARABIC LIGATURE SEEN WITH ALEF MAKSURA ISOLATED FORM", aliases: &[] },
    ]
}

fn all_codepoints_404() -> (v: Vec<Codepoint>)
    ensures
        v@ == codepoint_table_404(),
{
    let v = vec![
        Codepoint { codepoint: 0xFCD4, name: "ARABIC LIGATURE NOON WITH KHAH INITIAL FORM", aliases: &[] },
        Codepoint { codepoint: 0xFCD5, name: "ARABIC LIGATURE NOON WITH MEEM INITIAL FORM", aliases: &[] },
        Codepoint { codepoint: 0xFCD6, name: "ARABIC LIGATURE NOON WITH HEH INITIAL FORM", aliases: &[] },
        Codepoint { codepoint: 0xFCD7, name: "ARABIC LIGATURE HEH WITH JEEM INITIAL FORM", aliases: &[] },
        Codepoint { codepoint: 0xFCD8, name: "ARABIC LIGATURE HEH WITH MEEM INITIAL FORM", aliases: &[] },
        Codepoint { codepoint: 0xFCD9, name: "ARABIC LIGATURE HEH WITH SUPERSCRIPT ALEF INITIAL FORM", aliases: &[] },
        Codepoint { codepoint: 0xFCDA, name: "ARABIC LIGATURE YEH WITH JEEM INITIAL FORM", aliases: &[] },
        Codepoint { codepoint: 0xFCDB, name: "ARABIC LIGATURE YEH WITH HAH INITIAL FORM", aliases: &[] },
        Codepoint { codepoint: 0xFCDC, name: "ARABIC LIGATURE YEH WITH KHAH INITIAL FORM", aliases: &[] },
        Codepoint { codepoint: 0xFCDD, name: "ARABIC LIGATURE YEH WITH MEEM INITIAL FORM", aliases: &[] },
        Codepoint { codepoint: 0xFCDE, name: "ARABIC LIGATURE YEH WITH HEH INITIAL FORM", aliases: &[] },
        Codepoint { codepoint: 0xFCDF, name: "ARABIC LIGATURE YEH WITH HAMZA ABOVE WITH MEEM MEDIAL FORM", aliases: &[] },
        Codepoint { codepoint: 0xFCE0, name: "ARABIC LIGATURE YEH WITH HAMZA ABOVE WITH HEH MEDIAL FORM", aliases: &[] },
        Codepoint { codepoint: 0xFCE1, name: "ARABIC LIGATURE BEH WITH MEEM MEDIAL FORM", aliases: &[] },
        Codepoint { codepoint: 0xFCE2, name: "ARABIC LIGATURE BEH WITH HEH MEDIAL FORM", aliases: &[] },
        Codepoint { codepoint: 0xFCE3, name: "ARABIC LIGATURE TEH WITH MEEM MEDIAL FORM", aliases: &[] },
        Codepoint { codepoint: 0xFCE4, name: "ARABIC LIGATURE TEH WITH HEH MEDIAL FORM", aliases: &[] },
        Codepoint { codepoint: 0xFCE5, name: "ARABIC LIGATURE THEH WITH MEEM MEDIAL FORM", aliases: &[] },
        Codepoint { codepoint: 0xFCE6, name: "ARABIC LIGATURE THEH WITH HEH MEDIAL FORM", aliases: &[] },
        Codepoint { codepoint: 0xFCE7, name: "ARABIC LIGATURE SEEN WITH MEEM MEDIAL FORM", aliases: &[] },
        Codepoint { codepoint: 0xFCE8, name: "ARABIC LIGATURE SEEN WITH HEH MEDIAL FORM", aliases: &[] },
        Codepoint { codepoint: 0xFCE9, name: "ARABIC LIGATURE SHEEN WITH MEEM MEDIAL FORM", aliases: &[] },
        Codepoint { codepoint: 0xFCEA, name: "ARABIC LIGATURE SHEEN WITH HEH MEDIAL FORM", aliases: &[] },
        Codepoint { codepoint: 0xFCEB, name: "ARABIC LIGATURE KAF WITH LAM MEDIAL FORM", aliases: &[] },
        Codepoint { codepoint: 0xFCEC, name: "ARABIC LIGATURE KAF WITH MEEM MEDIAL FORM", aliases: &[] },
        Codepoint { codepoint: 0xFCED, name: "ARABIC LIGATURE LAM WITH MEEM MEDIAL FORM", aliases: &[] },
        Codepoint { codepoint: 0xFCEE, name: "ARABIC LIGATURE NOON WITH MEEM MEDIAL FORM", aliases: &[] },
        Codepoint { codepoint: 0xFCEF, name: "ARABIC LIGATURE NOON WITH HEH MEDIAL FORM", aliases: &[] },
        Codepoint { codepoint: 0xFCF0, name: "ARABIC LIGATURE YEH WITH MEEM MEDIAL FORM", aliases: &[] },
        Codepoint { codepoint: 0xFCF1, name: "ARABIC LIGATURE YEH WITH HEH MEDIAL FORM", aliases: &[] },
        Codepoint { codepoint: 0xFCF2, name: "ARABIC LIGATURE SHADDA WITH FATHA MEDIAL FORM", aliases: &[] },
        Codepoint { codepoint: 0xFCF3, name: "ARABIC LIGATURE SHADDA WITH DAMMA MEDIAL FORM", aliases: &[] },
        Codepoint { codepoint: 0xFCF4, name: "ARABIC LIGATURE SHADDA WITH KASRA MEDIAL FORM", aliases: &[] },
        Codepoint { codepoint: 0xFCF5, name: "ARABIC LIGATURE TAH WITH ALEF MAKSURA ISOLATED FORM", aliases: &[] },
        Codepoint { codepoint: 0xFCF6, name: "ARABIC LIGATURE TAH WITH YEH ISOLATED FORM", aliases: &[] },
        Codepoint { codepoint: 0xFCF7, name: "ARABIC LIGATURE AIN WITH ALEF MAKSURA ISOLATED FORM", aliases: &[] },
        Codepoint { codepoint: 0xFCF8, name: "ARABIC LIGATURE AIN WITH YEH ISOLATED FORM", aliases: &[] },
        Codepoint { codepoint: 0xFCF9, name: "ARABIC LIGATURE GHAIN WITH ALEF MAKSURA ISOLATED FORM", aliases: &[] },
        Codepoint { codepoint: 0xFCFA, name: "ARABIC LIGATURE GHAIN WITH YEH ISOLATED FORM", aliases: &[] },
        Codepoint { codepoint: 0xFCFB, name: "ARABIC LIGATURE SEEN WITH ALEF MAKSURA ISOLATED FORM", aliases: &[] },
    ];
    assert(v@ =~= codepoint_table_404());
    v
}

pub open spec fn codepoint_table_405() -> Seq<Codepoint> {
    seq![
        Codepoint { codepoint: 0xFCFC, name: "ARABIC LIGATURE SEEN WITH YEH ISOLATED FORM", aliases: &[] },
        Codepoint { codepoint: 0xFCFD, name: "ARABIC LIGATURE SHEEN WITH ALEF MAKSURA ISOLATED FORM", aliases: &[] },
        Codepoint { codepoint: 0xFCFE, name: "ARABIC LIGATURE SHEEN WITH YEH ISOLATED FORM", aliases: &[] },
        Codepoint { codepoint: 0xFCFF, name: "ARABIC LIGATURE HAH WITH ALEF MAKSURA ISOLATED FORM", aliases: &[] },
        Codepoint { codepoint: 0xFD00, name: "ARABIC LIGATURE HAH WITH YEH ISOLATED FORM", aliases: &[] },
        Codepoint { codepoint: 0xFD01, name: "ARABIC LIGATURE JEEM WITH ALEF MAKSURA ISOLATED FORM", aliases: &[] },
        Codepoint { codepoint: 0xFD02, name: "ARABIC LIGATURE JEEM WITH YEH ISOLATED FORM", aliases: &[] },
        Codepoint { codepoint: 0xFD03, name: "ARABIC LIGATURE KHAH WITH ALEF MAKSURA ISOLATED FORM", aliases: &[] },
        Codepoint { codepoint: 0xFD04, name: "ARABIC LIGATURE KHAH WITH YEH ISOLATED FORM", aliases: &[] },
        Codepoint { codepoint: 0xFD05, name: "ARABIC LIGATURE SAD WITH ALEF MAKSURA ISOLATED FORM", aliases: &[] },
        Codepoint { codepoint: 0xFD06, name: "ARABIC LIGATURE SAD WITH YEH ISOLATED FORM", aliases: &[] },
        Codepoint { codepoint: 0xFD07, name: "ARABIC LIGATURE DAD WITH ALEF MAKSURA ISOLATED FORM", aliases: &[] },
        Codepoint { codepoint: 0xFD08, name: "ARABIC LIGATURE DAD WITH YEH ISOLATED FORM", aliases: &[] },
        Codepoint { codepoint: 0xFD09, name: "ARABIC LIGATURE SHEEN WITH JEEM ISOLATED FORM", aliases: &[] },
        Codepoint { codepoint: 0xFD0A, name: "ARABIC LIGATURE SHEEN WITH HAH ISOLATED FORM", aliases: &[] },
        Codepoint { codepoint: 0xFD0B, name: "ARABIC LIGATURE SHEEN WITH KHAH ISOLATED FORM", aliases: &[] },
        Codepoint { codepoint: 0xFD0C, name: "ARABIC LIGATURE SHEEN WITH MEEM ISOLATED FORM", aliases: &[] },
        Codepoint { codepoint: 0xFD0D, name: "ARABIC LIGATURE SHEEN WITH REH ISOLATED FORM", aliases: &[] },
        Codepoint { codepoint: 0xFD0E, name: "ARABIC LIGATURE SEEN WITH REH ISOLATED FORM", aliases: &[] },
        Codepoint { codepoint: 0xFD0F, name: "ARABIC LIGATURE SAD WITH REH ISOLATED FORM", aliases: &[] },
        Codepoint { codepoint: 0xFD10, name: "ARABIC LIGATURE DAD WITH REH ISOLATED FORM", aliases: &[] },
        Codepoint { codepoint: 0xFD11, name: "ARABIC LIGATURE TAH WITH ALEF MAKSURA FINAL FORM", aliases: &[] },
        Codepoint { codepoint: 0xFD12, name: "ARABIC LIGATURE TAH WITH YEH FINAL FORM", aliases: &[] },
        Codepoint { codepoint: 0xFD13, name: "ARABIC LIGATURE AIN WITH ALEF MAKSURA FINAL FORM", aliases: &[] },
        Codepoint { codepoint: 0xFD14, name: "ARABIC LIGATURE AIN WITH YEH FINAL FORM", aliases: &[] },
        Codepoint { codepoint: 0xFD15, name: "ARABIC LIGATURE GHAIN WITH ALEF MAKSURA FINAL FORM", aliases: &[] },
        Codepoint { codepoint: 0xFD16, name: "ARABIC LIGATURE GHAIN WITH YEH FINAL FORM", aliases: &[] },
        Codepoint { codepoint: 0xFD17, name: "ARABIC LIGATURE SEEN WITH ALEF MAKSURA FINAL FORM", aliases: &[] },
        Codepoint { codepoint: 0xFD18, name: "ARABIC LIGATURE SEEN WITH YEH FINAL FORM", aliases: &[] },
        Codepoint { codepoint: 0xFD19, name: "ARABIC LIGATURE SHEEN WITH ALEF MAKSURA FINAL FORM", aliases: &[] },
        Codepoint { codepoint: 0xFD1A, name: "ARABIC LIGATURE SHEEN WITH YEH FINAL FORM", aliases: &[] },
        Codepoint { codepoint: 0xFD1B, name: "ARABIC LIGATURE HAH WITH ALEF MAKSURA FINAL FORM", aliases: &[] },
        Codepoint { codepoint: 0xFD1C, name: "ARABIC LIGATURE HAH WITH YEH FINAL FORM", aliases: &[] },
        Codepoint { codepoint: 0xFD1D, name: "ARABIC LIGATURE JEEM WITH ALEF MAKSURA FINAL FORM", aliases: &[] },
        Codepoint { codepoint: 0xFD1E, name: "ARABIC LIGATURE JEEM WITH YEH FINAL FORM", aliases: &[] },
        Codepoint { codepoint: 0xFD1F, name: "ARABIC LIGATURE KHAH WITH ALEF MAKSURA FINAL FORM", aliases: &[] },
        Codepoint { codepoint: 0xFD20, name: "ARABIC LIGATURE KHAH WITH YEH FINAL FORM", aliases: &[] },
        Codepoint { codepoint: 0xFD21, name: "ARABIC LIGATURE SAD WITH ALEF MAKSURA FINAL FORM", aliases: &[] },
        Codepoint { codepoint: 0xFD22, name: "ARABIC LIGATURE SAD WITH YEH FINAL FORM", aliases: &[] },
        Codepoint { codepoint: 0xFD23, name: "ARABIC LIGATURE DAD WITH ALEF MAKSURA FINAL FORM", aliases: &[] },
    ]
}

fn all_codepoints_405() -> (v: Vec<Codepoint>)
    ensures
        v@ == codepoint_table_405(),
{
    let v = vec![
        Codepoint { codepoint: 0xFCFC, name: "ARABIC LIGATURE SEEN WITH YEH ISOLATED FORM", aliases: &[] },
        Codepoint { codepoint: 0xFCFD, name: "ARABIC LIGATURE SHEEN WITH ALEF MAKSURA ISOLATED FORM", aliases: &[] },
        Codepoint { codepoint: 0xFCFE, name: "ARABIC LIGATURE SHEEN WITH YEH ISOLATED FORM", aliases: &[] },
        Codepoint { codepoint: 0xFCFF, name: "ARABIC LIGATURE HAH WITH ALEF MAKSURA ISOLATED FORM", aliases: &[] },
        Codepoint { codepoint: 0xFD00, name: "ARABIC LIGATURE HAH WITH YEH ISOLATED FORM", aliases: &[] },
        Codepoint { codepoint: 0xFD01, name: "ARABIC LIGATURE JEEM WITH ALEF MAKSURA ISOLATED FORM", aliases: &[] },
        Codepoint { codepoint: 0xFD02, name: "ARABIC LIGATURE JEEM WITH YEH ISOLATED FORM", aliases: &[] },
        Codepoint { codepoint: 0xFD03, name: "ARABIC LIGATURE KHAH WITH ALEF MAKSURA ISOLATED FORM", aliases: &[] },
        Codepoint { codepoint: 0xFD04, name: "ARABIC LIGATURE KHAH WITH YEH ISOLATED FORM", aliases: &[] },
        Codepoint { codepoint: 0xFD05, name: "ARABIC LIGATURE SAD WITH ALEF MAKSURA ISOLATED FORM", aliases: &[] },
        Codepoint { codepoint: 0xFD06, name: "ARABIC LIGATURE SAD WITH YEH ISOLATED FORM", aliases: &[] },
        Codepoint { codepoint: 0xFD07, name: "ARABIC LIGATURE DAD WITH ALEF MAKSURA ISOLATED FORM", aliases: &[] },
        Codepoint { codepoint: 0xFD08, name: "ARABIC LIGATURE DAD WITH YEH ISOLATED FORM", aliases: &[] },
        Codepoint { codepoint: 0xFD09, name: "ARABIC LIGATURE SHEEN WITH JEEM ISOLATED FORM", aliases: &[] },
        Codepoint { codepoint: 0xFD0A, name: "ARABIC LIGATURE SHEEN WITH HAH ISOLATED FORM", aliases: &[] },
        Codepoint { codepoint: 0xFD0B, name: "ARABIC LIGATURE SHEEN WITH KHAH ISOLATED FORM", aliases: &[] },
        Codepoint { codepoint: 0xFD0C, name: "ARABIC LIGATURE SHEEN WITH MEEM ISOLATED FORM", aliases: &[] },
        Codepoint { codepoint: 0xFD0D, name: "ARABIC LIGATURE SHEEN WITH REH ISOLATED FORM", aliases: &[] },
        Codepoint { codepoint: 0xFD0E, name: "ARABIC LIGATURE SEEN WITH REH ISOLATED FORM", aliases: &[] },
        Codepoint { codepoint: 0xFD0F, name: "ARABIC LIGATURE SAD WITH REH ISOLATED FORM", aliases: &[] },
        Codepoint { codepoint: 0xFD10, name: "ARABIC LIGATURE DAD WITH REH ISOLATED FORM", aliases: &[] },
        Codepoint { codepoint: 0xFD11, name: "ARABIC LIGATURE TAH WITH ALEF MAKSURA FINAL FORM", aliases: &[] },
        Codepoint { codepoint: 0xFD12, name: "ARABIC LIGATURE TAH WITH YEH FINAL FORM", aliases: &[] },
        Codepoint { codepoint: 0xFD13, name: "ARABIC LIGATURE AIN WITH ALEF MAKSURA FINAL FORM", aliases: &[] },
        Codepoint { codepoint: 0xFD14, name: "ARABIC LIGATURE AIN WITH YEH FINAL FORM", aliases: &[] },
        Codepoint { codepoint: 0xFD15, name: "ARABIC LIGATURE GHAIN WITH ALEF MAKSURA FINAL FORM", aliases: &[] },
        Codepoint { codepoint: 0xFD16, name: "ARABIC LIGATURE GHAIN WITH YEH FINAL FORM", aliases: &[] },
        Codepoint { codepoint: 0xFD17, name: "ARABIC LIGATURE SEEN WITH ALEF MAKSURA FINAL FORM", aliases: &[] },
        Codepoint { codepoint: 0xFD18, name: "ARABIC LIGATURE SEEN WITH YEH FINAL FORM", aliases: &[] },
        Codepoint { codepoint: 0xFD19, name: "ARABIC LIGATURE SHEEN WITH ALEF MAKSURA FINAL FORM", aliases: &[] },
        Codepoint { codepoint: 0xFD1A, name: "ARABIC LIGATURE SHEEN WITH YEH FINAL FORM", aliases: &[] },
        Codepoint { codepoint: 0xFD1B, name: "ARABIC LIGATURE HAH WITH ALEF MAKSURA FINAL FORM", aliases: &[] },
        Codepoint { codepoint: 0xFD1C, name: "ARABIC LIGATURE HAH WITH YEH FINAL FORM", aliases: &[] },
        Codepoint { codepoint: 0xFD1D, name: "ARABIC LIGATURE JEEM WITH ALEF MAKSURA FINAL FORM", aliases: &[] },
        Codepoint { codepoint: 0xFD1E, name: "ARABIC LIGATURE JEEM WITH YEH FINAL FORM", aliases: &[] },
        Codepoint { codepoint: 0xFD1F, name: "ARABIC LIGATURE KHAH WITH ALEF MAKSURA FINAL FORM", aliases: &[] },
        Codepoint { codepoint: 0xFD20, name: "ARABIC LIGATURE KHAH WITH YEH FINAL FORM", aliases: &[] },
        Codepoint { codepoint: 0xFD21, name: "ARABIC LIGATURE SAD WITH ALEF MAKSURA FINAL FORM", aliases: &[] },
        Codepoint { codepoint: 0xFD22, name: "ARABIC LIGATURE SAD WITH YEH FINAL FORM", aliases: &[] },
        Codepoint { codepoint: 0xFD23, name: "ARABIC LIGATURE DAD WITH ALEF MAKSURA FINAL FORM", aliases: &[] },
    ];
    assert(v@ =~= codepoint_table_405());
    v
}

pub open spec fn codepoint_table_406() -> Seq<Codepoint> {
    seq![
        Codepoint { codepoint: 0xFD24, name: "ARABIC LIGATURE DAD WITH YEH FINAL FORM", aliases: &[] },
        Codepoint { codepoint: 0xFD25, name: "ARABIC LIGATURE SHEEN WITH JEEM FINAL FORM", aliases: &[] },
        Codepoint { codepoint: 0xFD26, name: "ARABIC LIGATURE SHEEN WITH HAH FINAL FORM", aliases: &[] },
        Codepoint { codepoint: 0xFD27, name: "ARABIC LIGATURE SHEEN WITH KHAH FINAL FORM", aliases: &[] },
        Codepoint { codepoint: 0xFD28, name: "ARABIC LIGATURE SHEEN WITH MEEM FINAL FORM", aliases: &[] },
        Codepoint { codepoint: 0xFD29, name: "ARABIC LIGATURE SHEEN WITH REH FINAL FORM", aliases: &[] },
        Codepoint { codepoint: 0xFD2A, name: "ARABIC LIGATURE SEEN WITH REH FINAL FORM", aliases: &[] },
        Codepoint { codepoint: 0xFD2B, name: "ARABIC LIGATURE SAD WITH REH FINAL FORM", aliases: &[] },
        Codepoint { codepoint: 0xFD2C, name: "ARABIC LIGATURE DAD WITH REH FINAL FORM", aliases: &[] },
        Codepoint { codepoint: 0xFD2D, name: "ARABIC LIGATURE SHEEN WITH JEEM INITIAL FORM", aliases: &[] },
        Codepoint { codepoint: 0xFD2E, name: "ARABIC LIGATURE SHEEN WITH HAH INITIAL FORM", aliases: &[] },
        Codepoint { codepoint: 0xFD2F, name: "ARABIC LIGATURE SHEEN WITH KHAH INITIAL FORM", aliases: &[] },
        Codepoint { codepoint: 0xFD30, name: "ARABIC LIGATURE SHEEN WITH MEEM INITIAL FORM", aliases: &[] },
        Codepoint { codepoint: 0xFD31, name: "ARABIC LIGATURE SEEN WITH HEH INITIAL FORM", aliases: &[] },
        Codepoint { codepoint: 0xFD32, name: "ARABIC LIGATURE SHEEN WITH HEH INITIAL FORM", aliases: &[] },
        Codepoint { codepoint: 0xFD33, name: "ARABIC LIGATURE TAH WITH MEEM INITIAL FORM", aliases: &[] },
        Codepoint { codepoint: 0xFD34, name: "ARABIC LIGATURE SEEN WITH JEEM MEDIAL FORM", aliases: &[] },
        Codepoint { codepoint: 0xFD35, name: "ARABIC LIGATURE SEEN WITH HAH MEDIAL FORM", aliases: &[] },
        Codepoint { codepoint: 0xFD36, name: "ARABIC LIGATURE SEEN WITH KHAH MEDIAL FORM", aliases: &[] },
        Codepoint { codepoint: 0xFD37, name: "ARABIC LIGATURE SHEEN WITH JEEM MEDIAL FORM", aliases: &[] },
        Codepoint { codepoint: 0xFD38, name: "ARABIC LIGATURE SHEEN WITH HAH MEDIAL FORM", aliases: &[] },
        Codepoint { codepoint: 0xFD39, name: "ARABIC LIGATURE SHEEN WITH KHAH MEDIAL FORM", aliases: &[] },
        Codepoint { codepoint: 0xFD3A, name: "ARABIC LIGATURE TAH WITH MEEM MEDIAL FORM", aliases: &[] },
        Codepoint { codepoint: 0xFD3B, name: "ARABIC LIGATURE ZAH WITH MEEM MEDIAL FORM", aliases: &[] },
        Codepoint { codepoint: 0xFD3C, name: "ARABIC LIGATURE ALEF WITH FATHATAN FINAL FORM", aliases: &[] },
        Codepoint { codepoint: 0xFD3D, name: "ARABIC LIGATURE ALEF WITH FATHATAN ISOLATED FORM", aliases: &[] },
        Codepoint { codepoint: 0xFD3E, name: "ORNATE LEFT PARENTHESIS", aliases: &[] },
        Codepoint { codepoint: 0xFD3F, name: "ORNATE RIGHT PARENTHESIS", aliases: &[] },
        Codepoint { codepoint: 0xFD40, name: "ARABIC LIGATURE RAHIMAHU ALLAAH", aliases: &[] },
        Codepoint { codepoint: 0xFD41, name: "ARABIC LIGATURE RADI ALLAAHU ANH", aliases: &[] },
        Codepoint { codepoint: 0xFD42, name: "ARABIC LIGATURE RADI ALLAAHU ANHAA", aliases: &[] },
        Codepoint { codepoint: 0xFD43, name: "ARABIC LIGATURE RADI ALLAAHU ANHUM", aliases: &[] },
        Codepoint { codepoint: 0xFD44, name: "ARABIC LIGATURE RADI ALLAAHU ANHUMAA", aliases: &[] },
        Codepoint { codepoint: 0xFD45, name: "ARABIC LIGATURE RADI ALLAAHU ANHUNNA", aliases: &[] },
        Codepoint { codepoint: 0xFD46, name: "ARABIC LIGATURE SALLALLAAHU ALAYHI WA-AALIH", aliases: &[] },
        Codepoint { codepoint: 0xFD47, name: "ARABIC LIGATURE ALAYHI AS-SALAAM", aliases: &[] },
        Codepoint { codepoint: 0xFD48, name: "ARABIC LIGATURE ALAYHIM AS-SALAAM", aliases: &[] },
        Codepoint { codepoint: 0xFD49, name: "ARABIC LIGATURE ALAYHIMAA AS-SALAAM", aliases: &[] },
        Codepoint { codepoint: 0xFD4A, name: "ARABIC LIGATURE ALAYHI AS-SALAATU WAS-SALAAM", aliases: &[] },
        Codepoint { codepoint: 0xFD4B, name: "ARABIC LIGATURE QUDDISA SIRRAH", aliases: &[] },
    ]
}

fn all_codepoints_406() -> (v: Vec<Codepoint>)
    ensures
        v@ == codepoint_table_406(),
{
    let v = vec![
        Codepoint { codepoint: 0xFD24, name: "ARABIC LIGATURE DAD WITH YEH FINAL FORM", aliases: &[] },
        Codepoint { codepoint: 0xFD25, name: "ARABIC LIGATURE SHEEN WITH JEEM FINAL FORM", aliases: &[] },
        Codepoint { codepoint: 0xFD26, name: "ARABIC LIGATURE SHEEN WITH HAH FINAL FORM", aliases: &[] },
        Codepoint { codepoint: 0xFD27, name: "ARABIC LIGATURE SHEEN WITH KHAH FINAL FORM", aliases: &[] },
        Codepoint { codepoint: 0xFD28, name: "ARABIC LIGATURE SHEEN WITH MEEM FINAL FORM", aliases: &[] },
        Codepoint { codepoint: 0xFD29, name: "ARABIC LIGATURE SHEEN WITH REH FINAL FORM", aliases: &[] },
        Codepoint { codepoint: 0xFD2A, name: "ARABIC LIGATURE SEEN WITH REH FINAL FORM", aliases: &[] },
        Codepoint { codepoint: 0xFD2B, name: "ARABIC LIGATURE SAD WITH REH FINAL FORM", aliases: &[] },
        Codepoint { codepoint: 0xFD2C, name: "ARABIC LIGATURE DAD WITH REH FINAL FORM", aliases: &[] },
        Codepoint { codepoint: 0xFD2D, name: "ARABIC LIGATURE SHEEN WITH JEEM INITIAL FORM", aliases: &[] },
        Codepoint { codepoint: 0xFD2E, name: "ARABIC LIGATURE SHEEN WITH HAH INITIAL FORM", aliases: &[] },
        Codepoint { codepoint: 0xFD2F, name: "ARABIC LIGATURE SHEEN WITH KHAH INITIAL FORM", aliases: &[] },
        Codepoint { codepoint: 0xFD30, name: "ARABIC LIGATURE SHEEN WITH MEEM INITIAL FORM", aliases: &[] },
        Codepoint { codepoint: 0xFD31, name: "ARABIC LIGATURE SEEN WITH HEH INITIAL FORM", aliases: &[] },
        Codepoint { codepoint: 0xFD32, name: "ARABIC LIGATURE SHEEN WITH HEH INITIAL FORM", aliases: &[] },
        Codepoint { codepoint: 0xFD33, name: "ARABIC LIGATURE TAH WITH MEEM INITIAL FORM", aliases: &[] },
        Codepoint { codepoint: 0xFD34, name: "ARABIC LIGATURE SEEN WITH JEEM MEDIAL FORM", aliases: &[] },
        Codepoint { codepoint: 0xFD35, name: "ARABIC LIGATURE SEEN WITH HAH MEDIAL FORM", aliases: &[] },
        Codepoint { codepoint: 0xFD36, name: "ARABIC LIGATURE SEEN WITH KHAH MEDIAL FORM", aliases: &[] },
        Codepoint { codepoint: 0xFD37, name: "ARABIC LIGATURE SHEEN WITH JEEM MEDIAL FORM", aliases: &[] },
        Codepoint { codepoint: 0xFD38, name: "ARABIC LIGATURE SHEEN WITH HAH MEDIAL FORM", aliases: &[] },
        Codepoint { codepoint: 0xFD39, name: "ARABIC LIGATURE SHEEN WITH KHAH MEDIAL FORM", aliases: &[] },
        Codepoint { codepoint: 0xFD3A, name: "ARABIC LIGATURE TAH WITH MEEM MEDIAL FORM", aliases: &[] },
        Codepoint { codepoint: 0xFD3B, name: "ARABIC LIGATURE ZAH WITH MEEM MEDIAL FORM", aliases: &[] },
        Codepoint { codepoint: 0xFD3C, name: "ARABIC LIGATURE ALEF WITH FATHATAN FINAL FORM", aliases: &[] },
        Codepoint { codepoint: 0xFD3D, name: "ARABIC LIGATURE ALEF WITH FATHATAN ISOLATED FORM", aliases: &[] },
        Codepoint { codepoint: 0xFD3E, name: "ORNATE LEFT PARENTHESIS", aliases: &[] },
        Codepoint { codepoint: 0xFD3F, name: "ORNATE RIGHT PARENTHESIS", aliases: &[] },
        Codepoint { codepoint: 0xFD40, name: "ARABIC LIGATURE RAHIMAHU ALLAAH", aliases: &[] },
        Codepoint { codepoint: 0xFD41, name: "ARABIC LIGATURE RADI ALLAAHU ANH", aliases: &[] },
        Codepoint { codepoint: 0xFD42, name: "ARABIC LIGATURE RADI ALLAAHU ANHAA", aliases: &[] },
        Codepoint { codepoint: 0xFD43, name: "ARABIC LIGATURE RADI ALLAAHU ANHUM", aliases: &[] },
        Codepoint { codepoint: 0xFD44, name: "ARABIC LIGATURE RADI ALLAAHU ANHUMAA", aliases: &[] },
        Codepoint { codepoint: 0xFD45, name: "ARABIC LIGATURE RADI ALLAAHU ANHUNNA", aliases: &[] },
        Codepoint { codepoint: 0xFD46, name: "ARABIC LIGATURE SALLALLAAHU ALAYHI WA-AALIH", aliases: &[] },
        Codepoint { codepoint: 0xFD47, name: "ARABIC LIGATURE ALAYHI AS-SALAAM", aliases: &[] },
        Codepoint { codepoint: 0xFD48, name: "ARABIC LIGATURE ALAYHIM AS-SALAAM", aliases: &[] },
        Codepoint { codepoint: 0xFD49, name: "ARABIC LIGATURE ALAYHIMAA AS-SALAAM", aliases: &[] },
        Codepoint { codepoint: 0xFD4A, name: "ARABIC LIGATURE ALAYHI AS-SALAATU WAS-SALAAM", aliases: &[] },
        Codepoint { codepoint: 0xFD4B, name: "ARABIC LIGATURE QUDDISA SIRRAH", aliases: &[] },
    ];
    assert(v@ =~= codepoint_table_406());
    v
}

pub open spec fn codepoint_table_407() -> Seq<Codepoint> {
    seq![
        Codepoint { codepoint: 0xFD4C, name: "ARABIC LIGATURE SALLALLAHU ALAYHI WAAALIHEE WA-SALLAM", aliases: &[] },
        Codepoint { codepoint: 0xFD4D, name: "ARABIC LIGATURE ALAYHAA AS-SALAAM", aliases: &[] },
        Codepoint { codepoint: 0xFD4E, name: "ARABIC LIGATURE TABAARAKA WA-TAAALAA", aliases: &[] },
        Codepoint { codepoint: 0xFD4F, name: "ARABIC LIGATURE RAHIMAHUM ALLAAH", aliases: &[] },
        Codepoint { codepoint: 0xFD50, name: "ARABIC LIGATURE TEH WITH JEEM WITH MEEM INITIAL FORM", aliases: &[] },
        Codepoint { codepoint: 0xFD51, name: "ARABIC LIGATURE TEH WITH HAH WITH JEEM FINAL FORM", aliases: &[] },
        Codepoint { codepoint: 0xFD52, name: "ARABIC LIGATURE TEH WITH HAH WITH JEEM INITIAL FORM", aliases: &[] },
        Codepoint { codepoint: 0xFD53, name: "ARABIC LIGATURE TEH WITH HAH WITH MEEM INITIAL FORM", aliases: &[] },
        Codepoint { codepoint: 0xFD54, name: "ARABIC LIGATURE TEH WITH KHAH WITH MEEM INITIAL FORM", aliases: &[] },
        Codepoint { codepoint: 0xFD55, name: "ARABIC LIGATURE TEH WITH MEEM WITH JEEM INITIAL FORM", aliases: &[] },
        Codepoint { codepoint: 0xFD56, name: "ARABIC LIGATURE TEH WITH MEEM WITH HAH INITIAL FORM", aliases: &[] },
        Codepoint { codepoint: 0xFD57, name: "ARABIC LIGATURE TEH WITH MEEM WITH KHAH INITIAL FORM", aliases: &[] },
        Codepoint { codepoint: 0xFD58, name: "ARABIC LIGATURE JEEM WITH MEEM WITH HAH FINAL FORM", aliases: &[] },
        Codepoint { codepoint: 0xFD59, name: "ARABIC LIGATURE JEEM WITH MEEM WITH HAH INITIAL FORM", aliases: &[] },
        Codepoint { codepoint: 0xFD5A, name: "ARABIC LIGATURE HAH WITH MEEM WITH YEH FINAL FORM", aliases: &[] },
        Codepoint { codepoint: 0xFD5B, name: "ARABIC LIGATURE HAH WITH MEEM WITH ALEF MAKSURA FINAL FORM", aliases: &[] },
        Codepoint { codepoint: 0xFD5C, name: "ARABIC LIGATURE SEEN WITH HAH WITH JEEM INITIAL FORM", aliases: &[] },
        Codepoint { codepoint: 0xFD5D, name: "ARABIC LIGATURE SEEN WITH JEEM WITH HAH INITIAL FORM", aliases: &[] },
        Codepoint { codepoint: 0xFD5E, name: "ARABIC LIGATURE SEEN WITH JEEM WITH ALEF MAKSURA FINAL FORM", aliases: &[] },
        Codepoint { codepoint: 0xFD5F, name: "ARABIC LIGATURE SEEN WITH MEEM WITH HAH FINAL FORM", aliases: &[] },
        Codepoint { codepoint: 0xFD60, name: "ARABIC LIGATURE SEEN WITH MEEM WITH HAH INITIAL FORM", aliases: &[] },
        Codepoint { codepoint: 0xFD61, name: "ARABIC LIGATURE SEEN WITH MEEM WITH JEEM INITIAL FORM", aliases: &[] },
        Codepoint { codepoint: 0xFD62, name: "ARABIC LIGATURE SEEN WITH MEEM WITH MEEM FINAL FORM", aliases: &[] },
        Codepoint { codepoint: 0xFD63, name: "ARABIC LIGATURE SEEN WITH MEEM WITH MEEM INITIAL FORM", aliases: &[] },
        Codepoint { codepoint: 0xFD64, name: "ARABIC LIGATURE SAD WITH HAH WITH HAH FINAL FORM", aliases: &[] },
        Codepoint { codepoint: 0xFD65, name: "ARABIC LIGATURE SAD WITH HAH WITH HAH INITIAL FORM", aliases: &[] },
        Codepoint { codepoint: 0xFD66, name: "ARABIC LIGATURE SAD WITH MEEM WITH MEEM FINAL FORM", aliases: &[] },
        Codepoint { codepoint: 0xFD67, name: "ARABIC LIGATURE SHEEN WITH HAH WITH MEEM FINAL FORM", aliases: &[] },
        Codepoint { codepoint: 0xFD68, name: "ARABIC LIGATURE SHEEN WITH HAH WITH MEEM INITIAL FORM", aliases: &[] },
        Codepoint { codepoint: 0xFD69, name: "ARABIC LIGATURE SHEEN WITH JEEM WITH YEH FINAL FORM", aliases: &[] },
        Codepoint { codepoint: 0xFD6A, name: "ARABIC LIGATURE SHEEN WITH MEEM WITH KHAH FINAL FORM", aliases: &[] },
        Codepoint { codepoint: 0xFD6B, name: "ARABIC LIGATURE SHEEN WITH MEEM WITH KHAH INITIAL FORM", aliases: &[] },
        Codepoint { codepoint: 0xFD6C, name: "ARABIC LIGATURE SHEEN WITH MEEM WITH MEEM FINAL FORM", aliases: &[] },
        Codepoint { codepoint: 0xFD6D, name: "ARABIC LIGATURE SHEEN WITH MEEM WITH MEEM INITIAL FORM", aliases: &[] },
        Codepoint { codepoint: 0xFD6E, name: "ARABIC LIGATURE DAD WITH HAH WITH ALEF MAKSURA FINAL FORM", aliases: &[] },
        Codepoint { codepoint: 0xFD6F, name: "ARABIC LIGATURE DAD WITH KHAH WITH MEEM FINAL FORM", aliases: &[] },
        Codepoint { codepoint: 0xFD70, name: "ARABIC LIGATURE DAD WITH KHAH WITH MEEM INITIAL FORM", aliases: &[] },
        Codepoint { codepoint: 0xFD71, name: "ARABIC LIGATURE TAH WITH MEEM WITH HAH FINAL FORM", aliases: &[] },
        Codepoint { codepoint: 0xFD72, name: "ARABIC LIGATURE TAH WITH MEEM WITH HAH INITIAL FORM", aliases: &[] },
        Codepoint { codepoint: 0xFD73, name: "ARABIC LIGATURE TAH WITH MEEM WITH MEEM INITIAL FORM", aliases: &[] },
    ]
}

fn all_codepoints_407() -> (v: Vec<Codepoint>)
    ensures
        v@ == codepoint_table_407(),
{
    let v = vec![
        Codepoint { codepoint: 0xFD4C, name: "ARABIC LIGATURE SALLALLAHU ALAYHI WAAALIHEE WA-SALLAM", aliases: &[] },
        Codepoint { codepoint: 0xFD4D, name: "ARABIC LIGATURE ALAYHAA AS-SALAAM", aliases: &[] },
        Codepoint { codepoint: 0xFD4E, name: "ARABIC LIGATURE TABAARAKA WA-TAAALAA", aliases: &[] },
        Codepoint { codepoint: 0xFD4F, name: "ARABIC LIGATURE RAHIMAHUM ALLAAH", aliases: &[] },
        Codepoint { codepoint: 0xFD50, name: "ARABIC LIGATURE TEH WITH JEEM WITH MEEM INITIAL FORM", aliases: &[] },
        Codepoint { codepoint: 0xFD51, name: "ARABIC LIGATURE TEH WITH HAH WITH JEEM FINAL FORM", aliases: &[] },
        Codepoint { codepoint: 0xFD52, name: "ARABIC LIGATURE TEH WITH HAH WITH JEEM INITIAL FORM", aliases: &[] },
        Codepoint { codepoint: 0xFD53, name: "ARABIC LIGATURE TEH WITH HAH WITH MEEM INITIAL FORM", aliases: &[] },
        Codepoint { codepoint: 0xFD54, name: "ARABIC LIGATURE TEH WITH KHAH WITH MEEM INITIAL FORM", aliases: &[] },
        Codepoint { codepoint: 0xFD55, name: "ARABIC LIGATURE TEH WITH MEEM WITH JEEM INITIAL FORM", aliases: &[] },
        Codepoint { codepoint: 0xFD56, name: "ARABIC LIGATURE TEH WITH MEEM WITH HAH INITIAL FORM", aliases: &[] },
        Codepoint { codepoint: 0xFD57, name: "ARABIC LIGATURE TEH WITH MEEM WITH KHAH INITIAL FORM", aliases: &[] },
        Codepoint { codepoint: 0xFD58, name: "ARABIC LIGATURE JEEM WITH MEEM WITH HAH FINAL FORM", aliases: &[] },
        Codepoint { codepoint: 0xFD59, name: "ARABIC LIGATURE JEEM WITH MEEM WITH HAH INITIAL FORM", aliases: &[] },
        Codepoint { codepoint: 0xFD5A, name: "ARABIC LIGATURE HAH WITH MEEM WITH YEH FINAL FORM", aliases: &[] },
        Codepoint { codepoint: 0xFD5B, name: "ARABIC LIGATURE HAH WITH MEEM WITH ALEF MAKSURA FINAL FORM", aliases: &[] },
        Codepoint { codepoint: 0xFD5C, name: "ARABIC LIGATURE SEEN WITH HAH WITH JEEM INITIAL FORM", aliases: &[] },
        Codepoint { codepoint: 0xFD5D, name: "ARABIC LIGATURE SEEN WITH JEEM WITH HAH INITIAL FORM", aliases: &[] },
        Codepoint { codepoint: 0xFD5E, name: "ARABIC LIGATURE SEEN WITH JEEM WITH ALEF MAKSURA FINAL FORM", aliases: &[] },
        Codepoint { codepoint: 0xFD5F, name: "ARABIC LIGATURE SEEN WITH MEEM WITH HAH FINAL FORM", aliases: &[] },
        Codepoint { codepoint: 0xFD60, name: "ARABIC LIGATURE SEEN WITH MEEM WITH HAH INITIAL FORM", aliases: &[] },
        Codepoint { codepoint: 0xFD61, name: "ARABIC LIGATURE SEEN WITH MEEM WITH JEEM INITIAL FORM", aliases: &[] },
        Codepoint { codepoint: 0xFD62, name: "ARABIC LIGATURE SEEN WITH MEEM WITH MEEM FINAL FORM", aliases: &[] },
        Codepoint { codepoint: 0xFD63, name: "ARABIC LIGATURE SEEN WITH MEEM WITH MEEM INITIAL FORM", aliases: &[] },
        Codepoint { codepoint: 0xFD64, name: "ARABIC LIGATURE SAD WITH HAH WITH HAH FINAL FORM", aliases: &[] },
        Codepoint { codepoint: 0xFD65, name: "ARABIC LIGATURE SAD WITH HAH WITH HAH INITIAL FORM", aliases: &[] },
        Codepoint { codepoint: 0xFD66, name: "ARABIC LIGATURE SAD WITH MEEM WITH MEEM FINAL FORM", aliases: &[] },
        Codepoint { codepoint: 0xFD67, name: "ARABIC LIGATURE SHEEN WITH HAH WITH MEEM FINAL FORM", aliases: &[] },
        Codepoint { codepoint: 0xFD68, name: "ARABIC LIGATURE SHEEN WITH HAH WITH MEEM INITIAL FORM", aliases: &[] },
        Codepoint { codepoint: 0xFD69, name: "ARABIC LIGATURE SHEEN WITH JEEM WITH YEH FINAL FORM", aliases: &[] },
        Codepoint { codepoint: 0xFD6A, name: "ARABIC LIGATURE SHEEN WITH MEEM WITH KHAH FINAL FORM", aliases: &[] },
        Codepoint { codepoint: 0xFD6B, name: "ARABIC LIGATURE SHEEN WITH MEEM WITH KHAH INITIAL FORM", aliases: &[] },
        Codepoint { codepoint: 0xFD6C, name: "ARABIC LIGATURE SHEEN WITH MEEM WITH MEEM FINAL FORM", aliases: &[] },
        Codepoint { codepoint: 0xFD6D, name: "ARABIC LIGATURE SHEEN WITH MEEM WITH MEEM INITIAL FORM", aliases: &[] },
        Codepoint { codepoint: 0xFD6E, name: "ARABIC LIGATURE DAD WITH HAH WITH ALEF MAKSURA FINAL FORM", aliases: &[] },
        Codepoint { codepoint: 0xFD6F, name: "ARABIC LIGATURE DAD WITH KHAH WITH MEEM FINAL FORM", aliases: &[] },
        Codepoint { codepoint: 0xFD70, name: "ARABIC LIGATURE DAD WITH KHAH WITH MEEM INITIAL FORM", aliases: &[] },
        Codepoint { codepoint: 0xFD71, name: "ARABIC LIGATURE TAH WITH MEEM WITH HAH FINAL FORM", aliases: &[] },
        Codepoint { codepoint: 0xFD72, name: "ARABIC LIGATURE TAH WITH MEEM WITH HAH INITIAL FORM", aliases: &[] },
        Codepoint { codepoint: 0xFD73, name: "ARABIC LIGATURE TAH WITH MEEM WITH MEEM INITIAL FORM", aliases: &[] },
    ];
    assert(v@ =~= codepoint_table_407());
    v
}

pub open spec fn codepoint_table_408() -> Seq<Codepoint> {
    seq![
        Codepoint { codepoint: 0xFD74, name: "ARABIC LIGATURE TAH WITH MEEM WITH YEH FINAL FORM", aliases: &[] },
        Codepoint { codepoint: 0xFD75, name: "ARABIC LIGATURE AIN WITH JEEM WITH MEEM FINAL FORM", aliases: &[] },
        Codepoint { codepoint: 0xFD76, name: "ARABIC LIGATURE AIN WITH MEEM WITH MEEM FINAL FORM", aliases: &[] },
        Codepoint { codepoint: 0xFD77, name: "ARABIC LIGATURE AIN WITH MEEM WITH MEEM INITIAL FORM", aliases: &[] },
        Codepoint { codepoint: 0xFD78, name: "ARABIC LIGATURE AIN WITH MEEM WITH ALEF MAKSURA FINAL FORM", aliases: &[] },
        Codepoint { codepoint: 0xFD79, name: "ARABIC LIGATURE GHAIN WITH MEEM WITH MEEM FINAL FORM", aliases: &[] },
        Codepoint { codepoint: 0xFD7A, name: "ARABIC LIGATURE GHAIN WITH MEEM WITH YEH FINAL FORM", aliases: &[] },
        Codepoint { codepoint: 0xFD7B, name: "ARABIC LIGATURE GHAIN WITH MEEM WITH ALEF MAKSURA FINAL FORM", aliases: &[] },
        Codepoint { codepoint: 0xFD7C, name: "ARABIC LIGATURE FEH WITH KHAH WITH MEEM FINAL FORM", aliases: &[] },
        Codepoint { codepoint: 0xFD7D, name: "ARABIC LIGATURE FEH WITH KHAH WITH MEEM INITIAL FORM", aliases: &[] },
        Codepoint { codepoint: 0xFD7E, name: "ARABIC LIGATURE QAF WITH MEEM WITH HAH FINAL FORM", aliases: &[] },
        Codepoint { codepoint: 0xFD7F, name: "ARABIC LIGATURE QAF WITH MEEM WITH MEEM FINAL FORM", aliases: &[] },
        Codepoint { codepoint: 0xFD80, name: "ARABIC LIGATURE LAM WITH HAH WITH MEEM FINAL FORM", aliases: &[] },
        Codepoint { codepoint: 0xFD81, name: "ARABIC LIGATURE LAM WITH HAH WITH YEH FINAL FORM", aliases: &[] },
        Codepoint { codepoint: 0xFD82, name: "ARABIC LIGATURE LAM WITH HAH WITH ALEF MAKSURA FINAL FORM", aliases: &[] },
        Codepoint { codepoint: 0xFD83, name: "ARABIC LIGATURE LAM WITH JEEM WITH JEEM INITIAL FORM", aliases: &[] },
        Codepoint { codepoint: 0xFD84, name: "ARABIC LIGATURE LAM WITH JEEM WITH JEEM FINAL FORM", aliases: &[] },
        Codepoint { codepoint: 0xFD85, name: "ARABIC LIGATURE LAM WITH KHAH WITH MEEM FINAL FORM", aliases: &[] },
        Codepoint { codepoint: 0xFD86, name: "ARABIC LIGATURE LAM WITH KHAH WITH MEEM INITIAL FORM", aliases: &[] },
        Codepoint { codepoint: 0xFD87, name: "ARABIC LIGATURE LAM WITH MEEM WITH HAH FINAL FORM", aliases: &[] },
        Codepoint { codepoint: 0xFD88, name: "ARABIC LIGATURE LAM WITH MEEM WITH HAH INITIAL FORM", aliases: &[] },
        Codepoint { codepoint: 0xFD89, name: "ARABIC LIGATURE MEEM WITH HAH WITH JEEM INITIAL FORM", aliases: &[] },
        Codepoint { codepoint: 0xFD8A, name: "ARABIC LIGATURE MEEM WITH HAH WITH MEEM INITIAL FORM", aliases: &[] },
        Codepoint { codepoint: 0xFD8B, name: "ARABIC LIGATURE MEEM WITH HAH WITH YEH FINAL FORM", aliases: &[] },
        Codepoint { codepoint: 0xFD8C, name: "ARABIC LIGATURE MEEM WITH JEEM WITH HAH INITIAL FORM", aliases: &[] },
        Codepoint { codepoint: 0xFD8D, name: "ARABIC LIGATURE MEEM WITH JEEM WITH MEEM INITIAL FORM", aliases: &[] },
        Codepoint { codepoint: 0xFD8E, name: "ARABIC LIGATURE MEEM WITH KHAH WITH JEEM INITIAL FORM", aliases: &[] },
        Codepoint { codepoint: 0xFD8F, name: "ARABIC LIGATURE MEEM WITH KHAH WITH MEEM INITIAL FORM", aliases: &[] },
        Codepoint { codepoint: 0xFD92, name: "ARABIC LIGATURE MEEM WITH JEEM WITH KHAH INITIAL FORM", aliases: &[] },
        Codepoint { codepoint: 0xFD93, name: "ARABIC LIGATURE HEH WITH MEEM WITH JEEM INITIAL FORM", aliases: &[] },
        Codepoint { codepoint: 0xFD94, name: "ARABIC LIGATURE HEH WITH MEEM WITH MEEM INITIAL FORM", aliases: &[] },
        Codepoint { codepoint: 0xFD95, name: "ARABIC LIGATURE NOON WITH HAH WITH MEEM INITIAL FORM", aliases: &[] },
        Codepoint { codepoint: 0xFD96, name: "ARABIC LIGATURE NOON WITH HAH WITH ALEF MAKSURA FINAL FORM", aliases: &[] },
        Codepoint { codepoint: 0xFD97, name: "ARABIC LIGATURE NOON WITH JEEM WITH MEEM FINAL FORM", aliases: &[] },
        Codepoint { codepoint: 0xFD98, name: "ARABIC LIGATURE NOON WITH JEEM WITH MEEM INITIAL FORM", aliases: &[] },
        Codepoint { codepoint: 0xFD99, name: "ARABIC LIGATURE NOON WITH JEEM WITH ALEF MAKSURA FINAL FORM", aliases: &[] },
        Codepoint { codepoint: 0xFD9A, name: "ARABIC LIGATURE NOON WITH MEEM WITH YEH FINAL FORM", aliases: &[] },
        Codepoint { codepoint: 0xFD9B, name: "ARABIC LIGATURE NOON WITH MEEM WITH ALEF MAKSURA FINAL FORM", aliases: &[] },
        Codepoint { codepoint: 0xFD9C, name: "ARABIC LIGATURE YEH WITH MEEM WITH MEEM FINAL FORM", aliases: &[] },
        Codepoint { codepoint: 0xFD9D, name: "ARABIC LIGATURE YEH WITH MEEM WITH MEEM INITIAL FORM", aliases: &[] },
    ]
}

fn all_codepoints_408() -> (v: Vec<Codepoint>)
    ensures
        v@ == codepoint_table_408(),
{
    let v = vec![
        Codepoint { codepoint: 0xFD74, name: "ARABIC LIGATURE TAH WITH MEEM WITH YEH FINAL FORM", aliases: &[] },
        Codepoint { codepoint: 0xFD75, name: "ARABIC LIGATURE AIN WITH JEEM WITH MEEM FINAL FORM", aliases: &[] },
        Codepoint { codepoint: 0xFD76, name: "ARABIC LIGATURE AIN WITH MEEM WITH MEEM FINAL FORM", aliases: &[] },
        Codepoint { codepoint: 0xFD77, name: "ARABIC LIGATURE AIN WITH MEEM WITH MEEM INITIAL FORM", aliases: &[] },
        Codepoint { codepoint: 0xFD78, name: "ARABIC LIGATURE AIN WITH MEEM WITH ALEF MAKSURA FINAL FORM", aliases: &[] },
        Codepoint { codepoint: 0xFD79, name: "ARABIC LIGATURE GHAIN WITH MEEM WITH MEEM FINAL FORM", aliases: &[] },
        Codepoint { codepoint: 0xFD7A, name: "ARABIC LIGATURE GHAIN WITH MEEM WITH YEH FINAL FORM", aliases: &[] },
        Codepoint { codepoint: 0xFD7B, name: "ARABIC LIGATURE GHAIN WITH MEEM WITH ALEF MAKSURA FINAL FORM", aliases: &[] },
        Codepoint { codepoint: 0xFD7C, name: "ARABIC LIGATURE FEH WITH KHAH WITH MEEM FINAL FORM", aliases: &[] },
        Codepoint { codepoint: 0xFD7D, name: "ARABIC LIGATURE FEH WITH KHAH WITH MEEM INITIAL FORM", aliases: &[] },
        Codepoint { codepoint: 0xFD7E, name: "ARABIC LIGATURE QAF WITH MEEM WITH HAH FINAL FORM", aliases: &[] },
        Codepoint { codepoint: 0xFD7F, name: "ARABIC LIGATURE QAF WITH MEEM WITH MEEM FINAL FORM", aliases: &[] },
        Codepoint { codepoint: 0xFD80, name: "ARABIC LIGATURE LAM WITH HAH WITH MEEM FINAL FORM", aliases: &[] },
        Codepoint { codepoint: 0xFD81, name: "ARABIC LIGATURE LAM WITH HAH WITH YEH FINAL FORM", aliases: &[] },
        Codepoint { codepoint: 0xFD82, name: "ARABIC LIGATURE LAM WITH HAH WITH ALEF MAKSURA FINAL FORM", aliases: &[] },
        Codepoint { codepoint: 0xFD83, name: "ARABIC LIGATURE LAM WITH JEEM WITH JEEM INITIAL FORM", aliases: &[] },
        Codepoint { codepoint: 0xFD84, name: "ARABIC LIGATURE LAM WITH JEEM WITH JEEM FINAL FORM", aliases: &[] },
        Codepoint { codepoint: 0xFD85, name: "ARABIC LIGATURE LAM WITH KHAH WITH MEEM FINAL FORM", aliases: &[] },
        Codepoint { codepoint: 0xFD86, name: "ARABIC LIGATURE LAM WITH KHAH WITH MEEM INITIAL FORM", aliases: &[] },
        Codepoint { codepoint: 0xFD87, name: "ARABIC LIGATURE LAM WITH MEEM WITH HAH FINAL FORM", aliases: &[] },
        Codepoint { codepoint: 0xFD88, name: "ARABIC LIGATURE LAM WITH MEEM WITH HAH INITIAL FORM", aliases: &[] },
        Codepoint { codepoint: 0xFD89, name: "ARABIC LIGATURE MEEM WITH HAH WITH JEEM INITIAL FORM", aliases: &[] },
        Codepoint { codepoint: 0xFD8A, name: "ARABIC LIGATURE MEEM WITH HAH WITH MEEM INITIAL FORM", aliases: &[] },
        Codepoint { codepoint: 0xFD8B, name: "ARABIC LIGATURE MEEM WITH HAH WITH YEH FINAL FORM", aliases: &[] },
        Codepoint { codepoint: 0xFD8C, name: "ARABIC LIGATURE MEEM WITH JEEM WITH HAH INITIAL FORM", aliases: &[] },
        Codepoint { codepoint: 0xFD8D, name: "ARABIC LIGATURE MEEM WITH JEEM WITH MEEM INITIAL FORM", aliases: &[] },
        Codepoint { codepoint: 0xFD8E, name: "ARABIC LIGATURE MEEM WITH KHAH WITH JEEM INITIAL FORM", aliases: &[] },
        Codepoint { codepoint: 0xFD8F, name: "ARABIC LIGATURE MEEM WITH KHAH WITH MEEM INITIAL FORM", aliases: &[] },
        Codepoint { codepoint: 0xFD92, name: "ARABIC LIGATURE MEEM WITH JEEM WITH KHAH INITIAL FORM", aliases: &[] },
        Codepoint { codepoint: 0xFD93, name: "ARABIC LIGATURE HEH WITH MEEM WITH JEEM INITIAL FORM", aliases: &[] },
        Codepoint { codepoint: 0xFD94, name: "ARABIC LIGATURE HEH WITH MEEM WITH MEEM INITIAL FORM", aliases: &[] },
        Codepoint { codepoint: 0xFD95, name: "ARABIC LIGATURE NOON WITH HAH WITH MEEM INITIAL FORM", aliases: &[] },
        Codepoint { codepoint: 0xFD96, name: "ARABIC LIGATURE NOON WITH HAH WITH ALEF MAKSURA FINAL FORM", aliases: &[] },
        Codepoint { codepoint: 0xFD97, name: "ARABIC LIGATURE NOON WITH JEEM WITH MEEM FINAL FORM", aliases: &[] },
        Codepoint { codepoint: 0xFD98, name: "ARABIC LIGATURE NOON WITH JEEM WITH MEEM INITIAL FORM", aliases: &[] },
        Codepoint { codepoint: 0xFD99, name: "ARABIC LIGATURE NOON WITH JEEM WITH ALEF MAKSURA FINAL FORM", aliases: &[] },
        Codepoint { codepoint: 0xFD9A, name: "ARABIC LIGATURE NOON WITH MEEM WITH YEH FINAL FORM", aliases: &[] },
        Codepoint { codepoint: 0xFD9B, name: "ARABIC LIGATURE NOON WITH MEEM WITH ALEF MAKSURA FINAL FORM", aliases: &[] },
        Codepoint { codepoint: 0xFD9C, name: "ARABIC LIGATURE YEH WITH MEEM WITH MEEM FINAL FORM", aliases: &[] },
        Codepoint { codepoint: 0xFD9D, name: "ARABIC LIGATURE YEH WITH MEEM WITH MEEM INITIAL FORM", aliases: &[] },
    ];
    assert(v@ =~= codepoint_table_408());
    v
}

pub open spec fn codepoint_table_409() -> Seq<Codepoint> {
    seq![
        Codepoint { codepoint: 0xFD9E, name: "ARABIC LIGATURE BEH WITH KHAH WITH YEH FINAL FORM", aliases: &[] },
        Codepoint { codepoint: 0xFD9F, name: "ARABIC LIGATURE TEH WITH JEEM WITH YEH FINAL FORM", aliases: &[] },
        Codepoint { codepoint: 0xFDA0, name: "ARABIC LIGATURE TEH WITH JEEM WITH ALEF MAKSURA FINAL FORM", aliases: &[] },
        Codepoint { codepoint: 0xFDA1, name: "ARABIC LIGATURE TEH WITH KHAH WITH YEH FINAL FORM", aliases: &[] },
        Codepoint { codepoint: 0xFDA2, name: "ARABIC LIGATURE TEH WITH KHAH WITH ALEF MAKSURA FINAL FORM", aliases: &[] },
        Codepoint { codepoint: 0xFDA3, name: "ARABIC LIGATURE TEH WITH MEEM WITH YEH FINAL FORM", aliases: &[] },
        Codepoint { codepoint: 0xFDA4, name: "ARABIC LIGATURE TEH WITH MEEM WITH ALEF MAKSURA FINAL FORM", aliases: &[] },
        Codepoint { codepoint: 0xFDA5, name: "ARABIC LIGATURE JEEM WITH MEEM WITH YEH FINAL FORM", aliases: &[] },
        Codepoint { codepoint: 0xFDA6, name: "ARABIC LIGATURE JEEM WITH HAH WITH ALEF MAKSURA FINAL FORM", aliases: &[] },
        Codepoint { codepoint: 0xFDA7, name: "ARABIC LIGATURE JEEM WITH MEEM WITH ALEF MAKSURA FINAL FORM", aliases: &[] },
        Codepoint { codepoint: 0xFDA8, name: "ARABIC LIGATURE SEEN WITH KHAH WITH ALEF MAKSURA FINAL FORM", aliases: &[] },
        Codepoint { codepoint: 0xFDA9, name: "ARABIC LIGATURE SAD WITH HAH WITH YEH FINAL FORM", aliases: &[] },
        Codepoint { codepoint: 0xFDAA, name: "ARABIC LIGATURE SHEEN WITH HAH WITH YEH FINAL FORM", aliases: &[] },
        Codepoint { codepoint: 0xFDAB, name: "ARABIC LIGATURE DAD WITH HAH WITH YEH FINAL FORM", aliases: &[] },
        Codepoint { codepoint: 0xFDAC, name: "ARABIC LIGATURE LAM WITH JEEM WITH YEH FINAL FORM", aliases: &[] },
        Codepoint { codepoint: 0xFDAD, name: "ARABIC LIGATURE LAM WITH MEEM WITH YEH FINAL FORM", aliases: &[] },
        Codepoint { codepoint: 0xFDAE, name: "ARABIC LIGATURE YEH WITH HAH WITH YEH FINAL FORM", aliases: &[] },
        Codepoint { codepoint: 0xFDAF, name: "ARABIC LIGATURE YEH WITH JEEM WITH YEH FINAL FORM", aliases: &[] },
        Codepoint { codepoint: 0xFDB0, name: "ARABIC LIGATURE YEH WITH MEEM WITH YEH FINAL FORM", aliases: &[] },
        Codepoint { codepoint: 0xFDB1, name: "ARABIC LIGATURE MEEM WITH MEEM WITH YEH FINAL FORM", aliases: &[] },
        Codepoint { codepoint: 0xFDB2, name: "ARABIC LIGATURE QAF WITH MEEM WITH YEH FINAL FORM", aliases: &[] },
        Codepoint { codepoint: 0xFDB3, name: "ARABIC LIGATURE NOON WITH HAH WITH YEH FINAL FORM", aliases: &[] },
        Codepoint { codepoint: 0xFDB4, name: "ARABIC LIGATURE QAF WITH MEEM WITH HAH INITIAL FORM", aliases: &[] },
        Codepoint { codepoint: 0xFDB5, name: "ARABIC LIGATURE LAM WITH HAH WITH MEEM INITIAL FORM", aliases: &[] },
        Codepoint { codepoint: 0xFDB6, name: "ARABIC LIGATURE AIN WITH MEEM WITH YEH FINAL FORM", aliases: &[] },
        Codepoint { codepoint: 0xFDB7, name: "ARABIC LIGATURE KAF WITH MEEM WITH YEH FINAL FORM", aliases: &[] },
        Codepoint { codepoint: 0xFDB8, name: "ARABIC LIGATURE NOON WITH JEEM WITH HAH INITIAL FORM", aliases: &[] },
        Codepoint { codepoint: 0xFDB9, name: "ARABIC LIGATURE MEEM WITH KHAH WITH YEH FINAL FORM", aliases: &[] },
        Codepoint { codepoint: 0xFDBA, name: "ARABIC LIGATURE LAM WITH JEEM WITH MEEM INITIAL FORM", aliases: &[] },
        Codepoint { codepoint: 0xFDBB, name: "ARABIC LIGATURE KAF WITH MEEM WITH MEEM FINAL FORM", aliases: &[] },
        Codepoint { codepoint: 0xFDBC, name: "ARABIC LIGATURE LAM WITH JEEM WITH MEEM FINAL FORM", aliases: &[] },
        Codepoint { codepoint: 0xFDBD, name: "ARABIC LIGATURE NOON WITH JEEM WITH HAH FINAL FORM", aliases: &[] },
        Codepoint { codepoint: 0xFDBE, name: "ARABIC LIGATURE JEEM WITH HAH WITH YEH FINAL FORM", aliases: &[] },
        Codepoint { codepoint: 0xFDBF, name: "ARABIC LIGATURE HAH WITH JEEM WITH YEH FINAL FORM", aliases: &[] },
        Codepoint { codepoint: 0xFDC0, name: "ARABIC LIGATURE MEEM WITH JEEM WITH YEH FINAL FORM", aliases: &[] },
        Codepoint { codepoint: 0xFDC1, name: "ARABIC LIGATURE FEH WITH MEEM WITH YEH FINAL FORM", aliases: &[] },
        Codepoint { codepoint: 0xFDC2, name: "ARABIC LIGATURE BEH WITH HAH WITH YEH FINAL FORM", aliases: &[] },
        Codepoint { codepoint: 0xFDC3, name: "ARABIC LIGATURE KAF WITH MEEM WITH MEEM INITIAL FORM", aliases: &[] },
        Codepoint { codepoint: 0xFDC4, name: "ARABIC LIGATURE AIN WITH JEEM WITH MEEM INITIAL FORM", aliases: &[] },
        Codepoint { codepoint: 0xFDC5, name: "ARABIC LIGATURE SAD WITH MEEM WITH MEEM INITIAL FORM", aliases: &[] },
    ]
}

fn all_codepoints_409() -> (v: Vec<Codepoint>)
    ensures
        v@ == codepoint_table_409(),
{
    let v = vec![
        Codepoint { codepoint: 0xFD9E, name: "ARABIC LIGATURE BEH WITH KHAH WITH YEH FINAL FORM", aliases: &[] },
        Codepoint { codepoint: 0xFD9F, name: "ARABIC LIGATURE TEH WITH JEEM WITH YEH FINAL FORM", aliases: &[] },
        Codepoint { codepoint: 0xFDA0, name: "ARABIC LIGATURE TEH WITH JEEM WITH ALEF MAKSURA FINAL FORM", aliases: &[] },
        Codepoint { codepoint: 0xFDA1, name: "ARABIC LIGATURE TEH WITH KHAH WITH YEH FINAL FORM", aliases: &[] },
        Codepoint { codepoint: 0xFDA2, name: "ARABIC LIGATURE TEH WITH KHAH WITH ALEF MAKSURA FINAL FORM", aliases: &[] },
        Codepoint { codepoint: 0xFDA3, name: "ARABIC LIGATURE TEH WITH MEEM WITH YEH FINAL FORM", aliases: &[] },
        Codepoint { codepoint: 0xFDA4, name: "ARABIC LIGATURE TEH WITH MEEM WITH ALEF MAKSURA FINAL FORM", aliases: &[] },
        Codepoint { codepoint: 0xFDA5, name: "ARABIC LIGATURE JEEM WITH MEEM WITH YEH FINAL FORM", aliases: &[] },
        Codepoint { codepoint: 0xFDA6, name: "ARABIC LIGATURE JEEM WITH HAH WITH ALEF MAKSURA FINAL FORM", aliases: &[] },
        Codepoint { codepoint: 0xFDA7, name: "ARABIC LIGATURE JEEM WITH MEEM WITH ALEF MAKSURA FINAL FORM", aliases: &[] },
        Codepoint { codepoint: 0xFDA8, name: "ARABIC LIGATURE SEEN WITH KHAH WITH ALEF MAKSURA FINAL FORM", aliases: &[] },
        Codepoint { codepoint: 0xFDA9, name: "ARABIC LIGATURE SAD WITH HAH WITH YEH FINAL FORM", aliases: &[] },
        Codepoint { codepoint: 0xFDAA, name: "ARABIC LIGATURE SHEEN WITH HAH WITH YEH FINAL FORM", aliases: &[] },
        Codepoint { codepoint: 0xFDAB, name: "ARABIC LIGATURE DAD WITH HAH WITH YEH FINAL FORM", aliases: &[] },
        Codepoint { codepoint: 0xFDAC, name: "ARABIC LIGATURE LAM WITH JEEM WITH YEH FINAL FORM", aliases: &[] },
        Codepoint { codepoint: 0xFDAD, name: "ARABIC LIGATURE LAM WITH MEEM WITH YEH FINAL FORM", aliases: &[] },
        Codepoint { codepoint: 0xFDAE, name: "ARABIC LIGATURE YEH WITH HAH WITH YEH FINAL FORM", aliases: &[] },
        Codepoint { codepoint: 0xFDAF, name: "ARABIC LIGATURE YEH WITH JEEM WITH YEH FINAL FORM", aliases: &[] },
        Codepoint { codepoint: 0xFDB0, name: "ARABIC LIGATURE YEH WITH MEEM WITH YEH FINAL FORM", aliases: &[] },
        Codepoint { codepoint: 0xFDB1, name: "ARABIC LIGATURE MEEM WITH MEEM WITH YEH FINAL FORM", aliases: &[] },
        Codepoint { codepoint: 0xFDB2, name: "ARABIC LIGATURE QAF WITH MEEM WITH YEH FINAL FORM", aliases: &[] },
        Codepoint { codepoint: 0xFDB3, name: "ARABIC LIGATURE NOON WITH HAH WITH YEH FINAL FORM", aliases: &[] },
        Codepoint { codepoint: 0xFDB4, name: "ARABIC LIGATURE QAF WITH MEEM WITH HAH INITIAL FORM", aliases: &[] },
        Codepoint { codepoint: 0xFDB5, name: "ARABIC LIGATURE LAM WITH HAH WITH MEEM INITIAL FORM", aliases: &[] },
        Codepoint { codepoint: 0xFDB6, name: "ARABIC LIGATURE AIN WITH MEEM WITH YEH FINAL FORM", aliases: &[] },
        Codepoint { codepoint: 0xFDB7, name: "ARABIC LIGATURE KAF WITH MEEM WITH YEH FINAL FORM", aliases: &[] },
        Codepoint { codepoint: 0xFDB8, name: "ARABIC LIGATURE NOON WITH JEEM WITH HAH INITIAL FORM", aliases: &[] },
        Codepoint { codepoint: 0xFDB9, name: "ARABIC LIGATURE MEEM WITH KHAH WITH YEH FINAL FORM", aliases: &[] },
        Codepoint { codepoint: 0xFDBA, name: "ARABIC LIGATURE LAM WITH JEEM WITH MEEM INITIAL FORM", aliases: &[] },
        Codepoint { codepoint: 0xFDBB, name: "ARABIC LIGATURE KAF WITH MEEM WITH MEEM FINAL FORM", aliases: &[] },
        Codepoint { codepoint: 0xFDBC, name: "ARABIC LIGATURE LAM WITH JEEM WITH MEEM FINAL FORM", aliases: &[] },
        Codepoint { codepoint: 0xFDBD, name: "ARABIC LIGATURE NOON WITH JEEM WITH HAH FINAL FORM", aliases: &[] },
        Codepoint { codepoint: 0xFDBE, name: "ARABIC LIGATURE JEEM WITH HAH WITH YEH FINAL FORM", aliases: &[] },
        Codepoint { codepoint: 0xFDBF, name: "ARABIC LIGATURE HAH WITH JEEM WITH YEH FINAL FORM", aliases: &[] },
        Codepoint { codepoint: 0xFDC0, name: "ARABIC LIGATURE MEEM WITH JEEM WITH YEH FINAL FORM", aliases: &[] },
        Codepoint { codepoint: 0xFDC1, name: "ARABIC LIGATURE FEH WITH MEEM WITH YEH FINAL FORM", aliases: &[] },
        Codepoint { codepoint: 0xFDC2, name: "ARABIC LIGATURE BEH WITH HAH WITH YEH FINAL FORM", aliases: &[] },
        Codepoint { codepoint: 0xFDC3, name: "ARABIC LIGATURE KAF WITH MEEM WITH MEEM INITIAL FORM", aliases: &[] },
        Codepoint { codepoint: 0xFDC4, name: "ARABIC LIGATURE AIN WITH JEEM WITH MEEM INITIAL FORM", aliases: &[] },
        Codepoint { codepoint: 0xFDC5, name: "ARABIC LIGATURE SAD WITH MEEM WITH MEEM INITIAL FORM", aliases: &[] },
    ];
    assert(v@ =~= codepoint_table_409());
    v
}

pub open spec fn codepoint_table_410() -> Seq<Codepoint> {
    seq![
        Codepoint { codepoint: 0xFDC6, name: "ARABIC LIGATURE SEEN WITH KHAH WITH YEH FINAL FORM", aliases: &[] },
        Codepoint { codepoint: 0xFDC7, name: "ARABIC LIGATURE NOON WITH JEEM WITH YEH FINAL FORM", aliases: &[] },
        Codepoint { codepoint: 0xFDCF, name: "ARABIC LIGATURE SALAAMUHU ALAYNAA", aliases: &[] },
        Codepoint { codepoint: 0xFDF0, name: "ARABIC LIGATURE SALLA USED AS KORANIC STOP SIGN ISOLATED FORM", aliases: &[] },
        Codepoint { codepoint: 0xFDF1, name: "ARABIC LIGATURE QALA USED AS KORANIC STOP SIGN ISOLATED FORM", aliases: &[] },
        Codepoint { codepoint: 0xFDF2, name: "ARABIC LIGATURE ALLAH ISOLATED FORM", aliases: &[] },
        Codepoint { codepoint: 0xFDF3, name: "ARABIC LIGATURE AKBAR ISOLATED FORM", aliases: &[] },
        Codepoint { codepoint: 0xFDF4, name: "ARABIC LIGATURE MOHAMMAD ISOLATED FORM", aliases: &[] },
        Codepoint { codepoint: 0xFDF5, name: "ARABIC LIGATURE SALAM ISOLATED FORM", aliases: &[] },
        Codepoint { codepoint: 0xFDF6, name: "ARABIC LIGATURE RASOUL ISOLATED FORM", aliases: &[] },
        Codepoint { codepoint: 0xFDF7, name: "ARABIC LIGATURE ALAYHE ISOLATED FORM", aliases: &[] },
        Codepoint { codepoint: 0xFDF8, name: "ARABIC LIGATURE WASALLAM ISOLATED FORM", aliases: &[] },
        Codepoint { codepoint: 0xFDF9, name: "ARABIC LIGATURE SALLA ISOLATED FORM", aliases: &[] },
        Codepoint { codepoint: 0xFDFA, name: "ARABIC LIGATURE SALLALLAHOU ALAYHE WASALLAM", aliases: &["ARABIC LETTER SALLALLAHOU ALAYHE WASALLAM"] },
        Codepoint { codepoint: 0xFDFB, name: "ARABIC LIGATURE JALLAJALALOUHOU", aliases: &["ARABIC LETTER JALLAJALALOUHOU"] },
        Codepoint { codepoint: 0xFDFC, name: "RIAL SIGN", aliases: &[] },
        Codepoint { codepoint: 0xFDFD, name: "ARABIC LIGATURE BISMILLAH AR-RAHMAN AR-RAHEEM", aliases: &[] },
        Codepoint { codepoint: 0xFDFE, name: "ARABIC LIGATURE SUBHAANAHU WA TAAALAA", aliases: &[] },
        Codepoint { codepoint: 0xFDFF, name: "ARABIC LIGATURE AZZA WA JALL", aliases: &[] },
        Codepoint { codepoint: 0xFE00, name: "VARIATION SELECTOR-1", aliases: &[] },
        Codepoint { codepoint: 0xFE01, name: "VARIATION SELECTOR-2", aliases: &[] },
        Codepoint { codepoint: 0xFE02, name: "VARIATION SELECTOR-3", aliases: &[] },
        Codepoint { codepoint: 0xFE03, name: "VARIATION SELECTOR-4", aliases: &[] },
        Codepoint { codepoint: 0xFE04, name: "VARIATION SELECTOR-5", aliases: &[] },
        Codepoint { codepoint: 0xFE05, name: "VARIATION SELECTOR-6", aliases: &[] },
        Codepoint { codepoint: 0xFE06, name: "VARIATION SELECTOR-7", aliases: &[] },
        Codepoint { codepoint: 0xFE07, name: "VARIATION SELECTOR-8", aliases: &[] },
        Codepoint { codepoint: 0xFE08, name: "VARIATION SELECTOR-9", aliases: &[] },
        Codepoint { codepoint: 0xFE09, name: "VARIATION SELECTOR-10", aliases: &[] },
        Codepoint { codepoint: 0xFE0A, name: "VARIATION SELECTOR-11", aliases: &[] },
        Codepoint { codepoint: 0xFE0B, name: "VARIATION SELECTOR-12", aliases: &[] },
        Codepoint { codepoint: 0xFE0C, name: "VARIATION SELECTOR-13", aliases: &[] },
        Codepoint { codepoint: 0xFE0D, name: "VARIATION SELECTOR-14", aliases: &[] },
        Codepoint { codepoint: 0xFE0E, name: "VARIATION SELECTOR-15", aliases: &[] },
        Codepoint { codepoint: 0xFE0F, name: "VARIATION SELECTOR-16", aliases: &[] },
        Codepoint { codepoint: 0xFE10, name: "PRESENTATION FORM FOR VERTICAL COMMA", aliases: &[] },
        Codepoint { codepoint: 0xFE11, name: "PRESENTATION FORM FOR VERTICAL IDEOGRAPHIC COMMA", aliases: &[] },
        Codepoint { codepoint: 0xFE12, name: "PRESENTATION FORM FOR VERTICAL IDEOGRAPHIC FULL STOP", aliases: &[] },
        Codepoint { codepoint: 0xFE13, name: "PRESENTATION FORM FOR VERTICAL COLON", aliases: &[] },
        Codepoint { codepoint: 0xFE14, name: "PRESENTATION FORM FOR VERTICAL SEMICOLON", aliases: &[] },
    ]
}

fn all_codepoints_410() -> (v: Vec<Codepoint>)
    ensures
        v@ == codepoint_table_410(),
{
    let v = vec![
        Codepoint { codepoint: 0xFDC6, name: "ARABIC LIGATURE SEEN WITH KHAH WITH YEH FINAL FORM", aliases: &[] },
        Codepoint { codepoint: 0xFDC7, name: "ARABIC LIGATURE NOON WITH JEEM WITH YEH FINAL FORM", aliases: &[] },
        Codepoint { codepoint: 0xFDCF, name: "ARABIC LIGATURE SALAAMUHU ALAYNAA", aliases: &[] },
        Codepoint { codepoint: 0xFDF0, name: "ARABIC LIGATURE SALLA USED AS KORANIC STOP SIGN ISOLATED FORM", aliases: &[] },
        Codepoint { codepoint: 0xFDF1, name: "ARABIC LIGATURE QALA USED AS KORANIC STOP SIGN ISOLATED FORM", aliases: &[] },
        Codepoint { codepoint: 0xFDF2, name: "ARABIC LIGATURE ALLAH ISOLATED FORM", aliases: &[] },
        Codepoint { codepoint: 0xFDF3, name: "ARABIC LIGATURE AKBAR ISOLATED FORM", aliases: &[] },
        Codepoint { codepoint: 0xFDF4, name: "ARABIC LIGATURE MOHAMMAD ISOLATED FORM", aliases: &[] },
        Codepoint { codepoint: 0xFDF5, name: "ARABIC LIGATURE SALAM ISOLATED FORM", aliases: &[] },
        Codepoint { codepoint: 0xFDF6, name: "ARABIC LIGATURE RASOUL ISOLATED FORM", aliases: &[] },
        Codepoint { codepoint: 0xFDF7, name: "ARABIC LIGATURE ALAYHE ISOLATED FORM", aliases: &[] },
        Codepoint { codepoint: 0xFDF8, name: "ARABIC LIGATURE WASALLAM ISOLATED FORM", aliases: &[] },
        Codepoint { codepoint: 0xFDF9, name: "ARABIC LIGATURE SALLA ISOLATED FORM", aliases: &[] },
        Codepoint { codepoint: 0xFDFA, name: "ARABIC LIGATURE SALLALLAHOU ALAYHE WASALLAM", aliases: &["ARABIC LETTER SALLALLAHOU ALAYHE WASALLAM"] },
        Codepoint { codepoint: 0xFDFB, name: "ARABIC LIGATURE JALLAJALALOUHOU", aliases: &["ARABIC LETTER JALLAJALALOUHOU"] },
        Codepoint { codepoint: 0xFDFC, name: "RIAL SIGN", aliases: &[] },
        Codepoint { codepoint: 0xFDFD, name: "ARABIC LIGATURE BISMILLAH AR-RAHMAN AR-RAHEEM", aliases: &[] },
        Codepoint { codepoint: 0xFDFE, name: "ARABIC LIGATURE SUBHAANAHU WA TAAALAA", aliases: &[] },
        Codepoint { codepoint: 0xFDFF, name: "ARABIC LIGATURE AZZA WA JALL", aliases: &[] },
        Codepoint { codepoint: 0xFE00, name: "VARIATION SELECTOR-1", aliases: &[] },
        Codepoint { codepoint: 0xFE01, name: "VARIATION SELECTOR-2", aliases: &[] },
        Codepoint { codepoint: 0xFE02, name: "VARIATION SELECTOR-3", aliases: &[] },
        Codepoint { codepoint: 0xFE03, name: "VARIATION SELECTOR-4", aliases: &[] },
        Codepoint { codepoint: 0xFE04, name: "VARIATION SELECTOR-5", aliases: &[] },
        Codepoint { codepoint: 0xFE05, name: "VARIATION SELECTOR-6", aliases: &[] },
        Codepoint { codepoint: 0xFE06, name: "VARIATION SELECTOR-7", aliases: &[] },
        Codepoint { codepoint: 0xFE07, name: "VARIATION SELECTOR-8", aliases: &[] },
        Codepoint { codepoint: 0xFE08, name: "VARIATION SELECTOR-9", aliases: &[] },
        Codepoint { codepoint: 0xFE09, name: "VARIATION SELECTOR-10", aliases: &[] },
        Codepoint { codepoint: 0xFE0A, name: "VARIATION SELECTOR-11", aliases: &[] },
        Codepoint { codepoint: 0xFE0B, name: "VARIATION SELECTOR-12", aliases: &[] },
        Codepoint { codepoint: 0xFE0C, name: "VARIATION SELECTOR-13", aliases: &[] },
        Codepoint { codepoint: 0xFE0D, name: "VARIATION SELECTOR-14", aliases: &[] },
        Codepoint { codepoint: 0xFE0E, name: "VARIATION SELECTOR-15", aliases: &[] },
        Codepoint { codepoint: 0xFE0F, name: "VARIATION SELECTOR-16", aliases: &[] },
        Codepoint { codepoint: 0xFE10, name: "PRESENTATION FORM FOR VERTICAL COMMA", aliases: &[] },
        Codepoint { codepoint: 0xFE11, name: "PRESENTATION FORM FOR VERTICAL IDEOGRAPHIC COMMA", aliases: &[] },
        Codepoint { codepoint: 0xFE12, name: "PRESENTATION FORM FOR VERTICAL IDEOGRAPHIC FULL STOP", aliases: &[] },
        Codepoint { codepoint: 0xFE13, name: "PRESENTATION FORM FOR VERTICAL COLON", aliases: &[] },
        Codepoint { codepoint: 0xFE14, name: "PRESENTATION FORM FOR VERTICAL SEMICOLON", aliases: &[] },
    ];
    assert(v@ =~= codepoint_table_410());
    v
}

pub open spec fn codepoint_table_411() -> Seq<Codepoint> {
    seq![
        Codepoint { codepoint: 0xFE15, name: "PRESENTATION FORM FOR VERTICAL EXCLAMATION MARK", aliases: &[] },
        Codepoint { codepoint: 0xFE16, name: "PRESENTATION FORM FOR VERTICAL QUESTION MARK", aliases: &[] },
        Codepoint { codepoint: 0xFE17, name: "PRESENTATION FORM FOR VERTICAL LEFT WHITE LENTICULAR BRACKET", aliases: &[] },
        Codepoint { codepoint: 0xFE18, name: "PRESENTATION FORM FOR VERTICAL RIGHT WHITE LENTICULAR BRAKCET", aliases: &[] },
        Codepoint { codepoint: 0xFE19, name: "PRESENTATION FORM FOR VERTICAL HORIZONTAL ELLIPSIS", aliases: &[] },
        Codepoint { codepoint: 0xFE20, name: "COMBINING LIGATURE LEFT HALF", aliases: &[] },
        Codepoint { codepoint: 0xFE21, name: "COMBINING LIGATURE RIGHT HALF", aliases: &[] },
        Codepoint { codepoint: 0xFE22, name: "COMBINING DOUBLE TILDE LEFT HALF", aliases: &[] },
        Codepoint { codepoint: 0xFE23, name: "COMBINING DOUBLE TILDE RIGHT HALF", aliases: &[] },
        Codepoint { codepoint: 0xFE24, name: "COMBINING MACRON LEFT HALF", aliases: &[] },
        Codepoint { codepoint: 0xFE25, name: "COMBINING MACRON RIGHT HALF", aliases: &[] },
        Codepoint { codepoint: 0xFE26, name: "COMBINING CONJOINING MACRON", aliases: &[] },
        Codepoint { codepoint: 0xFE27, name: "COMBINING LIGATURE LEFT HALF BELOW", aliases: &[] },
        Codepoint { codepoint: 0xFE28, name: "COMBINING LIGATURE RIGHT HALF BELOW", aliases: &[] },
        Codepoint { codepoint: 0xFE29, name: "COMBINING TILDE LEFT HALF BELOW", aliases: &[] },
        Codepoint { codepoint: 0xFE2A, name: "COMBINING TILDE RIGHT HALF BELOW", aliases: &[] },
        Codepoint { codepoint: 0xFE2B, name: "COMBINING MACRON LEFT HALF BELOW", aliases: &[] },
        Codepoint { codepoint: 0xFE2C, name: "COMBINING MACRON RIGHT HALF BELOW", aliases: &[] },
        Codepoint { codepoint: 0xFE2D, name: "COMBINING CONJOINING MACRON BELOW", aliases: &[] },
        Codepoint { codepoint: 0xFE2E, name: "COMBINING CYRILLIC TITLO LEFT HALF", aliases: &[] },
        Codepoint { codepoint: 0xFE2F, name: "COMBINING CYRILLIC TITLO RIGHT HALF", aliases: &[] },
        Codepoint { codepoint: 0xFE30, name: "PRESENTATION FORM FOR VERTICAL TWO DOT LEADER", aliases: &["GLYPH FOR VERTICAL TWO DOT LEADER"] },
        Codepoint { codepoint: 0xFE31, name: "PRESENTATION FORM FOR VERTICAL EM DASH", aliases: &["GLYPH FOR VERTICAL EM DASH"] },
        Codepoint { codepoint: 0xFE32, name: "PRESENTATION FORM FOR VERTICAL EN DASH", aliases: &["GLYPH FOR VERTICAL EN DASH"] },
        Codepoint { codepoint: 0xFE33, name: "PRESENTATION FORM FOR VERTICAL LOW LINE", aliases: &["GLYPH FOR VERTICAL SPACING UNDERSCORE"] },
        Codepoint { codepoint: 0xFE34, name: "PRESENTATION FORM FOR VERTICAL WAVY LOW LINE", aliases: &["GLYPH FOR VERTICAL SPACING WAVY UNDERSCORE"] },
        Codepoint { codepoint: 0xFE35, name: "PRESENTATION FORM FOR VERTICAL LEFT PARENTHESIS", aliases: &["GLYPH FOR VERTICAL OPENING PARENTHESIS"] },
        Codepoint { codepoint: 0xFE36, name: "PRESENTATION FORM FOR VERTICAL RIGHT PARENTHESIS", aliases: &["GLYPH FOR VERTICAL CLOSING PARENTHESIS"] },
        Codepoint { codepoint: 0xFE37, name: "PRESENTATION FORM FOR VERTICAL LEFT CURLY BRACKET", aliases: &["GLYPH FOR VERTICAL OPENING CURLY BRACKET"] },
        Codepoint { codepoint: 0xFE38, name: "PRESENTATION FORM FOR VERTICAL RIGHT CURLY BRACKET", aliases: &["GLYPH FOR VERTICAL CLOSING CURLY BRACKET"] },
        Codepoint { codepoint: 0xFE39, name: "PRESENTATION FORM FOR VERTICAL LEFT TORTOISE SHELL BRACKET", aliases: &["GLYPH FOR VERTICAL OPENING TORTOISE SHELL BRACKET"] },
        Codepoint { codepoint: 0xFE3A, name: "PRESENTATION FORM FOR VERTICAL RIGHT TORTOISE SHELL BRACKET", aliases: &["GLYPH FOR VERTICAL CLOSING TORTOISE SHELL BRACKET"] },
        Codepoint { codepoint: 0xFE3B, name: "PRESENTATION FORM FOR VERTICAL LEFT BLACK LENTICULAR BRACKET", aliases: &["GLYPH FOR VERTICAL OPENING BLACK LENTICULAR BRACKET"] },
        Codepoint { codepoint: 0xFE3C, name: "PRESENTATION FORM FOR VERTICAL RIGHT BLACK LENTICULAR BRACKET", aliases: &["GLYPH FOR VERTICAL CLOSING BLACK LENTICULAR BRACKET"] },
        Codepoint { codepoint: 0xFE3D, name: "PRESENTATION FORM FOR VERTICAL LEFT DOUBLE ANGLE BRACKET", aliases: &["GLYPH FOR VERTICAL OPENING DOUBLE ANGLE BRACKET"] },
        Codepoint { codepoint: 0xFE3E, name: "PRESENTATION FORM FOR VERTICAL RIGHT DOUBLE ANGLE BRACKET", aliases: &["GLYPH FOR VERTICAL CLOSING DOUBLE ANGLE BRACKET"] },
        Codepoint { codepoint: 0xFE3F, name: "PRESENTATION FORM FOR VERTICAL LEFT ANGLE BRACKET", aliases: &["GLYPH FOR VERTICAL OPENING ANGLE BRACKET"] },
        Codepoint { codepoint: 0xFE40, name: "PRESENTATION FORM FOR VERTICAL RIGHT ANGLE BRACKET", aliases: &["GLYPH FOR VERTICAL CLOSING ANGLE BRACKET"] },
        Codepoint { codepoint: 0xFE41, name: "PRESENTATION FORM FOR VERTICAL LEFT CORNER BRACKET", aliases: &["GLYPH FOR VERTICAL OPENING CORNER BRACKET"] },
        Codepoint { codepoint: 0xFE42, name: "PRESENTATION FORM FOR VERTICAL RIGHT CORNER BRACKET", aliases: &["GLYPH FOR VERTICAL CLOSING CORNER BRACKET"] },
    ]
}

fn all_codepoints_411() -> (v: Vec<Codepoint>)
    ensures
        v@ == codepoint_table_411(),
{
    let v = vec![
        Codepoint { codepoint: 0xFE15, name: "PRESENTATION FORM FOR VERTICAL EXCLAMATION MARK", aliases: &[] },
        Codepoint { codepoint: 0xFE16, name: "PRESENTATION FORM FOR VERTICAL QUESTION MARK", aliases: &[] },
        Codepoint { codepoint: 0xFE17, name: "PRESENTATION FORM FOR VERTICAL LEFT WHITE LENTICULAR BRACKET", aliases: &[] },
        Codepoint { codepoint: 0xFE18, name: "PRESENTATION FORM FOR VERTICAL RIGHT WHITE LENTICULAR BRAKCET", aliases: &[] },
        Codepoint { codepoint: 0xFE19, name: "PRESENTATION FORM FOR VERTICAL HORIZONTAL ELLIPSIS", aliases: &[] },
        Codepoint { codepoint: 0xFE20, name: "COMBINING LIGATURE LEFT HALF", aliases: &[] },
        Codepoint { codepoint: 0xFE21, name: "COMBINING LIGATURE RIGHT HALF", aliases: &[] },
        Codepoint { codepoint: 0xFE22, name: "COMBINING DOUBLE TILDE LEFT HALF", aliases: &[] },
        Codepoint { codepoint: 0xFE23, name: "COMBINING DOUBLE TILDE RIGHT HALF", aliases: &[] },
        Codepoint { codepoint: 0xFE24, name: "COMBINING MACRON LEFT HALF", aliases: &[] },
        Codepoint { codepoint: 0xFE25, name: "COMBINING MACRON RIGHT HALF", aliases: &[] },
        Codepoint { codepoint: 0xFE26, name: "COMBINING CONJOINING MACRON", aliases: &[] },
        Codepoint { codepoint: 0xFE27, name: "COMBINING LIGATURE LEFT HALF BELOW", aliases: &[] },
        Codepoint { codepoint: 0xFE28, name: "COMBINING LIGATURE RIGHT HALF BELOW", aliases: &[] },
        Codepoint { codepoint: 0xFE29, name: "COMBINING TILDE LEFT HALF BELOW", aliases: &[] },
        Codepoint { codepoint: 0xFE2A, name: "COMBINING TILDE RIGHT HALF BELOW", aliases: &[] },
        Codepoint { codepoint: 0xFE2B, name: "COMBINING MACRON LEFT HALF BELOW", aliases: &[] },
        Codepoint { codepoint: 0xFE2C, name: "COMBINING MACRON RIGHT HALF BELOW", aliases: &[] },
        Codepoint { codepoint: 0xFE2D, name: "COMBINING CONJOINING MACRON BELOW", aliases: &[] },
        Codepoint { codepoint: 0xFE2E, name: "COMBINING CYRILLIC TITLO LEFT HALF", aliases: &[] },
        Codepoint { codepoint: 0xFE2F, name: "COMBINING CYRILLIC TITLO RIGHT HALF", aliases: &[] },
        Codepoint { codepoint: 0xFE30, name: "PRESENTATION FORM FOR VERTICAL TWO DOT LEADER", aliases: &["GLYPH FOR VERTICAL TWO DOT LEADER"] },
        Codepoint { codepoint: 0xFE31, name: "PRESENTATION FORM FOR VERTICAL EM DASH", aliases: &["GLYPH FOR VERTICAL EM DASH"] },
        Codepoint { codepoint: 0xFE32, name: "PRESENTATION FORM FOR VERTICAL EN DASH", aliases: &["GLYPH FOR VERTICAL EN DASH"] },
        Codepoint { codepoint: 0xFE33, name: "PRESENTATION FORM FOR VERTICAL LOW LINE", aliases: &["GLYPH FOR VERTICAL SPACING UNDERSCORE"] },
        Codepoint { codepoint: 0xFE34, name: "PRESENTATION FORM FOR VERTICAL WAVY LOW LINE", aliases: &["GLYPH FOR VERTICAL SPACING WAVY UNDERSCORE"] },
        Codepoint { codepoint: 0xFE35, name: "PRESENTATION FORM FOR VERTICAL LEFT PARENTHESIS", aliases: &["GLYPH FOR VERTICAL OPENING PARENTHESIS"] },
        Codepoint { codepoint: 0xFE36, name: "PRESENTATION FORM FOR VERTICAL RIGHT PARENTHESIS", aliases: &["GLYPH FOR VERTICAL CLOSING PARENTHESIS"] },
        Codepoint { codepoint: 0xFE37, name: "PRESENTATION FORM FOR VERTICAL LEFT CURLY BRACKET", aliases: &["GLYPH FOR VERTICAL OPENING CURLY BRACKET"] },
        Codepoint { codepoint: 0xFE38, name: "PRESENTATION FORM FOR VERTICAL RIGHT CURLY BRACKET", aliases: &["GLYPH FOR VERTICAL CLOSING CURLY BRACKET"] },
        Codepoint { codepoint: 0xFE39, name: "PRESENTATION FORM FOR VERTICAL LEFT TORTOISE SHELL BRACKET", aliases: &["GLYPH FOR VERTICAL OPENING TORTOISE SHELL BRACKET"] },
        Codepoint { codepoint: 0xFE3A, name: "PRESENTATION FORM FOR VERTICAL RIGHT TORTOISE SHELL BRACKET", aliases: &["GLYPH FOR VERTICAL CLOSING TORTOISE SHELL BRACKET"] },
        Codepoint { codepoint: 0xFE3B, name: "PRESENTATION FORM FOR VERTICAL LEFT BLACK LENTICULAR BRACKET", aliases: &["GLYPH FOR VERTICAL OPENING BLACK LENTICULAR BRACKET"] },
        Codepoint { codepoint: 0xFE3C, name: "PRESENTATION FORM FOR VERTICAL RIGHT BLACK LENTICULAR BRACKET", aliases: &["GLYPH FOR VERTICAL CLOSING BLACK LENTICULAR BRACKET"] },
        Codepoint { codepoint: 0xFE3D, name: "PRESENTATION FORM FOR VERTICAL LEFT DOUBLE ANGLE BRACKET", aliases: &["GLYPH FOR VERTICAL OPENING DOUBLE ANGLE BRACKET"] },
        Codepoint { codepoint: 0xFE3E, name: "PRESENTATION FORM FOR VERTICAL RIGHT DOUBLE ANGLE BRACKET", aliases: &["GLYPH FOR VERTICAL CLOSING DOUBLE ANGLE BRACKET"] },
        Codepoint { codepoint: 0xFE3F, name: "PRESENTATION FORM FOR VERTICAL LEFT ANGLE BRACKET", aliases: &["GLYPH FOR VERTICAL OPENING ANGLE BRACKET"] },
        Codepoint { codepoint: 0xFE40, name: "PRESENTATION FORM FOR VERTICAL RIGHT ANGLE BRACKET", aliases: &["GLYPH FOR VERTICAL CLOSING ANGLE BRACKET"] },
        Codepoint { codepoint: 0xFE41, name: "PRESENTATION FORM FOR VERTICAL LEFT CORNER BRACKET", aliases: &["GLYPH FOR VERTICAL OPENING CORNER BRACKET"] },
        Codepoint { codepoint: 0xFE42, name: "PRESENTATION FORM FOR VERTICAL RIGHT CORNER BRACKET", aliases: &["GLYPH FOR VERTICAL CLOSING CORNER BRACKET"] },
    ];
    assert(v@ =~= codepoint_table_411());
    v
}

pub open spec fn codepoint_table_412() -> Seq<Codepoint> {
    seq![
        Codepoint { codepoint: 0xFE43, name: "PRESENTATION FORM FOR VERTICAL LEFT WHITE CORNER BRACKET", aliases: &["GLYPH FOR VERTICAL OPENING WHITE CORNER BRACKET"] },
        Codepoint { codepoint: 0xFE44, name: "PRESENTATION FORM FOR VERTICAL RIGHT WHITE CORNER BRACKET", aliases: &["GLYPH FOR VERTICAL CLOSING WHITE CORNER BRACKET"] },
        Codepoint { codepoint: 0xFE45, name: "SESAME DOT", aliases: &[] },
        Codepoint { codepoint: 0xFE46, name: "WHITE SESAME DOT", aliases: &[] },
        Codepoint { codepoint: 0xFE47, name: "PRESENTATION FORM FOR VERTICAL LEFT SQUARE BRACKET", aliases: &[] },
        Codepoint { codepoint: 0xFE48, name: "PRESENTATION FORM FOR VERTICAL RIGHT SQUARE BRACKET", aliases: &[] },
        Codepoint { codepoint: 0xFE49, name: "DASHED OVERLINE", aliases: &["SPACING DASHED OVERSCORE"] },
        Codepoint { codepoint: 0xFE4A, name: "CENTRELINE OVERLINE", aliases: &["SPACING CENTERLINE OVERSCORE"] },
        Codepoint { codepoint: 0xFE4B, name: "WAVY OVERLINE", aliases: &["SPACING WAVY OVERSCORE"] },
        Codepoint { codepoint: 0xFE4C, name: "DOUBLE WAVY OVERLINE", aliases: &["SPACING DOUBLE WAVY OVERSCORE"] },
        Codepoint { codepoint: 0xFE4D, name: "DASHED LOW LINE", aliases: &["SPACING DASHED UNDERSCORE"] },
        Codepoint { codepoint: 0xFE4E, name: "CENTRELINE LOW LINE", aliases: &["SPACING CENTERLINE UNDERSCORE"] },
        Codepoint { codepoint: 0xFE4F, name: "WAVY LOW LINE", aliases: &["SPACING WAVY UNDERSCORE"] },
        Codepoint { codepoint: 0xFE50, name: "SMALL COMMA", aliases: &[] },
        Codepoint { codepoint: 0xFE51, name: "SMALL IDEOGRAPHIC COMMA", aliases: &[] },
        Codepoint { codepoint: 0xFE52, name: "SMALL FULL STOP", aliases: &["SMALL PERIOD"] },
        Codepoint { codepoint: 0xFE54, name: "SMALL SEMICOLON", aliases: &[] },
        Codepoint { codepoint: 0xFE55, name: "SMALL COLON", aliases: &[] },
        Codepoint { codepoint: 0xFE56, name: "SMALL QUESTION MARK", aliases: &[] },
        Codepoint { codepoint: 0xFE57, name: "SMALL EXCLAMATION MARK", aliases: &[] },
        Codepoint { codepoint: 0xFE58, name: "SMALL EM DASH", aliases: &[] },
        Codepoint { codepoint: 0xFE59, name: "SMALL LEFT PARENTHESIS", aliases: &["SMALL OPENING PARENTHESIS"] },
        Codepoint { codepoint: 0xFE5A, name: "SMALL RIGHT PARENTHESIS", aliases: &["SMALL CLOSING PARENTHESIS"] },
        Codepoint { codepoint: 0xFE5B, name: "SMALL LEFT CURLY BRACKET", aliases: &["SMALL OPENING CURLY BRACKET"] },
        Codepoint { codepoint: 0xFE5C, name: "SMALL RIGHT CURLY BRACKET", aliases: &["SMALL CLOSING CURLY BRACKET"] },
        Codepoint { codepoint: 0xFE5D, name: "SMALL LEFT TORTOISE SHELL BRACKET", aliases: &["SMALL OPENING TORTOISE SHELL BRACKET"] },
        Codepoint { codepoint: 0xFE5E, name: "SMALL RIGHT TORTOISE SHELL BRACKET", aliases: &["SMALL CLOSING TORTOISE SHELL BRACKET"] },
        Codepoint { codepoint: 0xFE5F, name: "SMALL NUMBER SIGN", aliases: &[] },
        Codepoint { codepoint: 0xFE60, name: "SMALL AMPERSAND", aliases: &[] },
        Codepoint { codepoint: 0xFE61, name: "SMALL ASTERISK", aliases: &[] },
        Codepoint { codepoint: 0xFE62, name: "SMALL PLUS SIGN", aliases: &[] },
        Codepoint { codepoint: 0xFE63, name: "SMALL HYPHEN-MINUS", aliases: &[] },
        Codepoint { codepoint: 0xFE64, name: "SMALL LESS-THAN SIGN", aliases: &[] },
        Codepoint { codepoint: 0xFE65, name: "SMALL GREATER-THAN SIGN", aliases: &[] },
        Codepoint { codepoint: 0xFE66, name: "SMALL EQUALS SIGN", aliases: &[] },
        Codepoint { codepoint: 0xFE68, name: "SMALL REVERSE SOLIDUS", aliases: &["SMALL BACKSLASH"] },
        Codepoint { codepoint: 0xFE69, name: "SMALL DOLLAR SIGN", aliases: &[] },
        Codepoint { codepoint: 0xFE6A, name: "SMALL PERCENT SIGN", aliases: &[] },
        Codepoint { codepoint: 0xFE6B, name: "SMALL COMMERCIAL AT", aliases: &[] },
        Codepoint { codepoint: 0xFE70, name: "ARABIC FATHATAN ISOLATED FORM", aliases: &["ARABIC SPACING FATHATAN"] },
    ]
}

fn all_codepoints_412() -> (v: Vec<Codepoint>)
    ensures
        v@ == codepoint_table_412(),
{
    let v = vec![
        Codepoint { codepoint: 0xFE43, name: "PRESENTATION FORM FOR VERTICAL LEFT WHITE CORNER BRACKET", aliases: &["GLYPH FOR VERTICAL OPENING WHITE CORNER BRACKET"] },
        Codepoint { codepoint: 0xFE44, name: "PRESENTATION FORM FOR VERTICAL RIGHT WHITE CORNER BRACKET", aliases: &["GLYPH FOR VERTICAL CLOSING WHITE CORNER BRACKET"] },
        Codepoint { codepoint: 0xFE45, name: "SESAME DOT", aliases: &[] },
        Codepoint { codepoint: 0xFE46, name: "WHITE SESAME DOT", aliases: &[] },
        Codepoint { codepoint: 0xFE47, name: "PRESENTATION FORM FOR VERTICAL LEFT SQUARE BRACKET", aliases: &[] },
        Codepoint { codepoint: 0xFE48, name: "PRESENTATION FORM FOR VERTICAL RIGHT SQUARE BRACKET", aliases: &[] },
        Codepoint { codepoint: 0xFE49, name: "DASHED OVERLINE", aliases: &["SPACING DASHED OVERSCORE"] },
        Codepoint { codepoint: 0xFE4A, name: "CENTRELINE OVERLINE", aliases: &["SPACING CENTERLINE OVERSCORE"] },
        Codepoint { codepoint: 0xFE4B, name: "WAVY OVERLINE", aliases: &["SPACING WAVY OVERSCORE"] },
        Codepoint { codepoint: 0xFE4C, name: "DOUBLE WAVY OVERLINE", aliases: &["SPACING DOUBLE WAVY OVERSCORE"] },
        Codepoint { codepoint: 0xFE4D, name: "DASHED LOW LINE", aliases: &["SPACING DASHED UNDERSCORE"] },
        Codepoint { codepoint: 0xFE4E, name: "CENTRELINE LOW LINE", aliases: &["SPACING CENTERLINE UNDERSCORE"] },
        Codepoint { codepoint: 0xFE4F, name: "WAVY LOW LINE", aliases: &["SPACING WAVY UNDERSCORE"] },
        Codepoint { codepoint: 0xFE50, name: "SMALL COMMA", aliases: &[] },
        Codepoint { codepoint: 0xFE51, name: "SMALL IDEOGRAPHIC COMMA", aliases: &[] },
        Codepoint { codepoint: 0xFE52, name: "SMALL FULL STOP", aliases: &["SMALL PERIOD"] },
        Codepoint { codepoint: 0xFE54, name: "SMALL SEMICOLON", aliases: &[] },
        Codepoint { codepoint: 0xFE55, name: "SMALL COLON", aliases: &[] },
        Codepoint { codepoint: 0xFE56, name: "SMALL QUESTION MARK", aliases: &[] },
        Codepoint { codepoint: 0xFE57, name: "SMALL EXCLAMATION MARK", aliases: &[] },
        Codepoint { codepoint: 0xFE58, name: "SMALL EM DASH", aliases: &[] },
        Codepoint { codepoint: 0xFE59, name: "SMALL LEFT PARENTHESIS", aliases: &["SMALL OPENING PARENTHESIS"] },
        Codepoint { codepoint: 0xFE5A, name: "SMALL RIGHT PARENTHESIS", aliases: &["SMALL CLOSING PARENTHESIS"] },
        Codepoint { codepoint: 0xFE5B, name: "SMALL LEFT CURLY BRACKET", aliases: &["SMALL OPENING CURLY BRACKET"] },
        Codepoint { codepoint: 0xFE5C, name: "SMALL RIGHT CURLY BRACKET", aliases: &["SMALL CLOSING CURLY BRACKET"] },
        Codepoint { codepoint: 0xFE5D, name: "SMALL LEFT TORTOISE SHELL BRACKET", aliases: &["SMALL OPENING TORTOISE SHELL BRACKET"] },
        Codepoint { codepoint: 0xFE5E, name: "SMALL RIGHT TORTOISE SHELL BRACKET", aliases: &["SMALL CLOSING TORTOISE SHELL BRACKET"] },
        Codepoint { codepoint: 0xFE5F, name: "SMALL NUMBER SIGN", aliases: &[] },
        Codepoint { codepoint: 0xFE60, name: "SMALL AMPERSAND", aliases: &[] },
        Codepoint { codepoint: 0xFE61, name: "SMALL ASTERISK", aliases: &[] },
        Codepoint { codepoint: 0xFE62, name: "SMALL PLUS SIGN", aliases: &[] },
        Codepoint { codepoint: 0xFE63, name: "SMALL HYPHEN-MINUS", aliases: &[] },
        Codepoint { codepoint: 0xFE64, name: "SMALL LESS-THAN SIGN", aliases: &[] },
        Codepoint { codepoint: 0xFE65, name: "SMALL GREATER-THAN SIGN", aliases: &[] },
        Codepoint { codepoint: 0xFE66, name: "SMALL EQUALS SIGN", aliases: &[] },
        Codepoint { codepoint: 0xFE68, name: "SMALL REVERSE SOLIDUS", aliases: &["SMALL BACKSLASH"] },
        Codepoint { codepoint: 0xFE69, name: "SMALL DOLLAR SIGN", aliases: &[] },
        Codepoint { codepoint: 0xFE6A, name: "SMALL PERCENT SIGN", aliases: &[] },
        Codepoint { codepoint: 0xFE6B, name: "SMALL COMMERCIAL AT", aliases: &[] },
        Codepoint { codepoint: 0xFE70, name: "ARABIC FATHATAN ISOLATED FORM", aliases: &["ARABIC SPACING FATHATAN"] },
    ];
    assert(v@ =~= codepoint_table_412());
    v
}

pub open spec fn codepoint_table_413() -> Seq<Codepoint> {
    seq![
        Codepoint { codepoint: 0xFE71, name: "ARABIC TATWEEL WITH FATHATAN ABOVE", aliases: &["ARABIC FATHATAN ON TATWEEL"] },
        Codepoint { codepoint: 0xFE72, name: "ARABIC DAMMATAN ISOLATED FORM", aliases: &["ARABIC SPACING DAMMATAN"] },
        Codepoint { codepoint: 0xFE73, name: "ARABIC TAIL FRAGMENT", aliases: &[] },
        Codepoint { codepoint: 0xFE74, name: "ARABIC KASRATAN ISOLATED FORM", aliases: &["ARABIC SPACING KASRATAN"] },
        Codepoint { codepoint: 0xFE76, name: "ARABIC FATHA ISOLATED FORM", aliases: &["ARABIC SPACING FATHAH"] },
        Codepoint { codepoint: 0xFE77, name: "ARABIC FATHA MEDIAL FORM", aliases: &["ARABIC FATHAH ON TATWEEL"] },
        Codepoint { codepoint: 0xFE78, name: "ARABIC DAMMA ISOLATED FORM", aliases: &["ARABIC SPACING DAMMAH"] },
        Codepoint { codepoint: 0xFE79, name: "ARABIC DAMMA MEDIAL FORM", aliases: &["ARABIC DAMMAH ON TATWEEL"] },
        Codepoint { codepoint: 0xFE7A, name: "ARABIC KASRA ISOLATED FORM", aliases: &["ARABIC SPACING KASRAH"] },
        Codepoint { codepoint: 0xFE7B, name: "ARABIC KASRA MEDIAL FORM", aliases: &["ARABIC KASRAH ON TATWEEL"] },
        Codepoint { codepoint: 0xFE7C, name: "ARABIC SHADDA ISOLATED FORM", aliases: &["ARABIC SPACING SHADDAH"] },
        Codepoint { codepoint: 0xFE7D, name: "ARABIC SHADDA MEDIAL FORM", aliases: &["ARABIC SHADDAH ON TATWEEL"] },
        Codepoint { codepoint: 0xFE7E, name: "ARABIC SUKUN ISOLATED FORM", aliases: &["ARABIC SPACING SUKUN"] },
        Codepoint { codepoint: 0xFE7F, name: "ARABIC SUKUN MEDIAL FORM", aliases: &["ARABIC SUKUN ON TATWEEL"] },
        Codepoint { codepoint: 0xFE80, name: "ARABIC LETTER HAMZA ISOLATED FORM", aliases: &["GLYPH FOR ISOLATE ARABIC HAMZAH"] },
        Codepoint { codepoint: 0xFE81, name: "ARABIC LETTER ALEF WITH MADDA ABOVE ISOLATED FORM", aliases: &["GLYPH FOR ISOLATE ARABIC MADDAH ON ALEF"] },
        Codepoint { codepoint: 0xFE82, name: "ARABIC LETTER ALEF WITH MADDA ABOVE FINAL FORM", aliases: &["GLYPH FOR FINAL ARABIC MADDAH ON ALEF"] },
        Codepoint { codepoint: 0xFE83, name: "ARABIC LETTER ALEF WITH HAMZA ABOVE ISOLATED FORM", aliases: &["GLYPH FOR ISOLATE ARABIC HAMZAH ON ALEF"] },
        Codepoint { codepoint: 0xFE84, name: "ARABIC LETTER ALEF WITH HAMZA ABOVE FINAL FORM", aliases: &["GLYPH FOR FINAL ARABIC HAMZAH ON ALEF"] },
        Codepoint { codepoint: 0xFE85, name: "ARABIC LETTER WAW WITH HAMZA ABOVE ISOLATED FORM", aliases: &["GLYPH FOR ISOLATE ARABIC HAMZAH ON WAW"] },
        Codepoint { codepoint: 0xFE86, name: "ARABIC LETTER WAW WITH HAMZA ABOVE FINAL FORM", aliases: &["GLYPH FOR FINAL ARABIC HAMZAH ON WAW"] },
        Codepoint { codepoint: 0xFE87, name: "ARABIC LETTER ALEF WITH HAMZA BELOW ISOLATED FORM", aliases: &["GLYPH FOR ISOLATE ARABIC HAMZAH UNDER ALEF"] },
        Codepoint { codepoint: 0xFE88, name: "ARABIC LETTER ALEF WITH HAMZA BELOW FINAL FORM", aliases: &["GLYPH FOR FINAL ARABIC HAMZAH UNDER ALEF"] },
        Codepoint { codepoint: 0xFE89, name: "ARABIC LETTER YEH WITH HAMZA ABOVE ISOLATED FORM", aliases: &["GLYPH FOR ISOLATE ARABIC HAMZAH ON YA"] },
        Codepoint { codepoint: 0xFE8A, name: "ARABIC LETTER YEH WITH HAMZA ABOVE FINAL FORM", aliases: &["GLYPH FOR FINAL ARABIC HAMZAH ON YA"] },
        Codepoint { codepoint: 0xFE8B, name: "ARABIC LETTER YEH WITH HAMZA ABOVE INITIAL FORM", aliases: &["GLYPH FOR INITIAL ARABIC HAMZAH ON YA"] },
        Codepoint { codepoint: 0xFE8C, name: "ARABIC LETTER YEH WITH HAMZA ABOVE MEDIAL FORM", aliases: &["GLYPH FOR MEDIAL ARABIC HAMZAH ON YA"] },
        Codepoint { codepoint: 0xFE8D, name: "ARABIC LETTER ALEF ISOLATED FORM", aliases: &["GLYPH FOR ISOLATE ARABIC ALEF"] },
        Codepoint { codepoint: 0xFE8E, name: "ARABIC LETTER ALEF FINAL FORM", aliases: &["GLYPH FOR FINAL ARABIC ALEF"] },
        Codepoint { codepoint: 0xFE8F, name: "ARABIC LETTER BEH ISOLATED FORM", aliases: &["GLYPH FOR ISOLATE ARABIC BAA"] },
        Codepoint { codepoint: 0xFE90, name: "ARABIC LETTER BEH FINAL FORM", aliases: &["GLYPH FOR FINAL ARABIC BAA"] },
        Codepoint { codepoint: 0xFE91, name: "ARABIC LETTER BEH INITIAL FORM", aliases: &["GLYPH FOR INITIAL ARABIC BAA"] },
        Codepoint { codepoint: 0xFE92, name: "ARABIC LETTER BEH MEDIAL FORM", aliases: &["GLYPH FOR MEDIAL ARABIC BAA"] },
        Codepoint { codepoint: 0xFE93, name: "ARABIC LETTER TEH MARBUTA ISOLATED FORM", aliases: &["GLYPH FOR ISOLATE ARABIC TAA MARBUTAH"] },
        Codepoint { codepoint: 0xFE94, name: "ARABIC LETTER TEH MARBUTA FINAL FORM", aliases: &["GLYPH FOR FINAL ARABIC TAA MARBUTAH"] },
        Codepoint { codepoint: 0xFE95, name: "ARABIC LETTER TEH ISOLATED FORM", aliases: &["GLYPH FOR ISOLATE ARABIC TAA"] },
        Codepoint { codepoint: 0xFE96, name: "ARABIC LETTER TEH FINAL FORM", aliases: &["GLYPH FOR FINAL ARABIC TAA"] },
        Codepoint { codepoint: 0xFE97, name: "ARABIC LETTER TEH INITIAL FORM", aliases: &["GLYPH FOR INITIAL ARABIC TAA"] },
        Codepoint { codepoint: 0xFE98, name: "ARABIC LETTER TEH MEDIAL FORM", aliases: &["GLYPH FOR MEDIAL ARABIC TAA"] },
        Codepoint { codepoint: 0xFE99, name: "ARABIC LETTER THEH ISOLATED FORM", aliases: &["GLYPH FOR ISOLATE ARABIC THAA"] },
    ]
}

fn all_codepoints_413() -> (v: Vec<Codepoint>)
    ensures
        v@ == codepoint_table_413(),
{
    let v = vec![
        Codepoint { codepoint: 0xFE71, name: "ARABIC TATWEEL WITH FATHATAN ABOVE", aliases: &["ARABIC FATHATAN ON TATWEEL"] },
        Codepoint { codepoint: 0xFE72, name: "ARABIC DAMMATAN ISOLATED FORM", aliases: &["ARABIC SPACING DAMMATAN"] },
        Codepoint { codepoint: 0xFE73, name: "ARABIC TAIL FRAGMENT", aliases: &[] },
        Codepoint { codepoint: 0xFE74, name: "ARABIC KASRATAN ISOLATED FORM", aliases: &["ARABIC SPACING KASRATAN"] },
        Codepoint { codepoint: 0xFE76, name: "ARABIC FATHA ISOLATED FORM", aliases: &["ARABIC SPACING FATHAH"] },
        Codepoint { codepoint: 0xFE77, name: "ARABIC FATHA MEDIAL FORM", aliases: &["ARABIC FATHAH ON TATWEEL"] },
        Codepoint { codepoint: 0xFE78, name: "ARABIC DAMMA ISOLATED FORM", aliases: &["ARABIC SPACING DAMMAH"] },
        Codepoint { codepoint: 0xFE79, name: "ARABIC DAMMA MEDIAL FORM", aliases: &["ARABIC DAMMAH ON TATWEEL"] },
        Codepoint { codepoint: 0xFE7A, name: "ARABIC KASRA ISOLATED FORM", aliases: &["ARABIC SPACING KASRAH"] },
        Codepoint { codepoint: 0xFE7B, name: "ARABIC KASRA MEDIAL FORM", aliases: &["ARABIC KASRAH ON TATWEEL"] },
        Codepoint { codepoint: 0xFE7C, name: "ARABIC SHADDA ISOLATED FORM", aliases: &["ARABIC SPACING SHADDAH"] },
        Codepoint { codepoint: 0xFE7D, name: "ARABIC SHADDA MEDIAL FORM", aliases: &["ARABIC SHADDAH ON TATWEEL"] },
        Codepoint { codepoint: 0xFE7E, name: "ARABIC SUKUN ISOLATED FORM", aliases: &["ARABIC SPACING SUKUN"] },
        Codepoint { codepoint: 0xFE7F, name: "ARABIC SUKUN MEDIAL FORM", aliases: &["ARABIC SUKUN ON TATWEEL"] },
        Codepoint { codepoint: 0xFE80, name: "ARABIC LETTER HAMZA ISOLATED FORM", aliases: &["GLYPH FOR ISOLATE ARABIC HAMZAH"] },
        Codepoint { codepoint: 0xFE81, name: "ARABIC LETTER ALEF WITH MADDA ABOVE ISOLATED FORM", aliases: &["GLYPH FOR ISOLATE ARABIC MADDAH ON ALEF"] },
        Codepoint { codepoint: 0xFE82, name: "ARABIC LETTER ALEF WITH MADDA ABOVE FINAL FORM", aliases: &["GLYPH FOR FINAL ARABIC MADDAH ON ALEF"] },
        Codepoint { codepoint: 0xFE83, name: "ARABIC LETTER ALEF WITH HAMZA ABOVE ISOLATED FORM", aliases: &["GLYPH FOR ISOLATE ARABIC HAMZAH ON ALEF"] },
        Codepoint { codepoint: 0xFE84, name: "ARABIC LETTER ALEF WITH HAMZA ABOVE FINAL FORM", aliases: &["GLYPH FOR FINAL ARABIC HAMZAH ON ALEF"] },
        Codepoint { codepoint: 0xFE85, name: "ARABIC LETTER WAW WITH HAMZA ABOVE ISOLATED FORM", aliases: &["GLYPH FOR ISOLATE ARABIC HAMZAH ON WAW"] },
        Codepoint { codepoint: 0xFE86, name: "ARABIC LETTER WAW WITH HAMZA ABOVE FINAL FORM", aliases: &["GLYPH FOR FINAL ARABIC HAMZAH ON WAW"] },
        Codepoint { codepoint: 0xFE87, name: "ARABIC LETTER ALEF WITH HAMZA BELOW ISOLATED FORM", aliases: &["GLYPH FOR ISOLATE ARABIC HAMZAH UNDER ALEF"] },
        Codepoint { codepoint: 0xFE88, name: "ARABIC LETTER ALEF WITH HAMZA BELOW FINAL FORM", aliases: &["GLYPH FOR FINAL ARABIC HAMZAH UNDER ALEF"] },
        Codepoint { codepoint: 0xFE89, name: "ARABIC LETTER YEH WITH HAMZA ABOVE ISOLATED FORM", aliases: &["GLYPH FOR ISOLATE ARABIC HAMZAH ON YA"] },
        Codepoint { codepoint: 0xFE8A, name: "ARABIC LETTER YEH WITH HAMZA ABOVE FINAL FORM", aliases: &["GLYPH FOR FINAL ARABIC HAMZAH ON YA"] },
        Codepoint { codepoint: 0xFE8B, name: "ARABIC LETTER YEH WITH HAMZA ABOVE INITIAL FORM", aliases: &["GLYPH FOR INITIAL ARABIC HAMZAH ON YA"] },
        Codepoint { codepoint: 0xFE8C, name: "ARABIC LETTER YEH WITH HAMZA ABOVE MEDIAL FORM", aliases: &["GLYPH FOR MEDIAL ARABIC HAMZAH ON YA"] },
        Codepoint { codepoint: 0xFE8D, name: "ARABIC LETTER ALEF ISOLATED FORM", aliases: &["GLYPH FOR ISOLATE ARABIC ALEF"] },
        Codepoint { codepoint: 0xFE8E, name: "ARABIC LETTER ALEF FINAL FORM", aliases: &["GLYPH FOR FINAL ARABIC ALEF"] },
        Codepoint { codepoint: 0xFE8F, name: "ARABIC LETTER BEH ISOLATED FORM", aliases: &["GLYPH FOR ISOLATE ARABIC BAA"] },
        Codepoint { codepoint: 0xFE90, name: "ARABIC LETTER BEH FINAL FORM", aliases: &["GLYPH FOR FINAL ARABIC BAA"] },
        Codepoint { codepoint: 0xFE91, name: "ARABIC LETTER BEH INITIAL FORM", aliases: &["GLYPH FOR INITIAL ARABIC BAA"] },
        Codepoint { codepoint: 0xFE92, name: "ARABIC LETTER BEH MEDIAL FORM", aliases: &["GLYPH FOR MEDIAL ARABIC BAA"] },
        Codepoint { codepoint: 0xFE93, name: "ARABIC LETTER TEH MARBUTA ISOLATED FORM", aliases: &["GLYPH FOR ISOLATE ARABIC TAA MARBUTAH"] },
        Codepoint { codepoint: 0xFE94, name: "ARABIC LETTER TEH MARBUTA FINAL FORM", aliases: &["GLYPH FOR FINAL ARABIC TAA MARBUTAH"] },
        Codepoint { codepoint: 0xFE95, name: "ARABIC LETTER TEH ISOLATED FORM", aliases: &["GLYPH FOR ISOLATE ARABIC TAA"] },
        Codepoint { codepoint: 0xFE96, name: "ARABIC LETTER TEH FINAL FORM", aliases: &["GLYPH FOR FINAL ARABIC TAA"] },
        Codepoint { codepoint: 0xFE97, name: "ARABIC LETTER TEH INITIAL FORM", aliases: &["GLYPH FOR INITIAL ARABIC TAA"] },
        Codepoint { codepoint: 0xFE98, name: "ARABIC LETTER TEH MEDIAL FORM", aliases: &["GLYPH FOR MEDIAL ARABIC TAA"] },
        Codepoint { codepoint: 0xFE99, name: "ARABIC LETTER THEH ISOLATED FORM", aliases: &["GLYPH FOR ISOLATE ARABIC THAA"] },
    ];
    assert(v@ =~= codepoint_table_413());
    v
}

pub open spec fn codepoint_table_414() -> Seq<Codepoint> {
    seq![
        Codepoint { codepoint: 0xFE9A, name: "ARABIC LETTER THEH FINAL FORM", aliases: &["GLYPH FOR FINAL ARABIC THAA"] },
        Codepoint { codepoint: 0xFE9B, name: "ARABIC LETTER THEH INITIAL FORM", aliases: &["GLYPH FOR INITIAL ARABIC THAA"] },
        Codepoint { codepoint: 0xFE9C, name: "ARABIC LETTER THEH MEDIAL FORM", aliases: &["GLYPH FOR MEDIAL ARABIC THAA"] },
        Codepoint { codepoint: 0xFE9D, name: "ARABIC LETTER JEEM ISOLATED FORM", aliases: &["GLYPH FOR ISOLATE ARABIC JEEM"] },
        Codepoint { codepoint: 0xFE9E, name: "ARABIC LETTER JEEM FINAL FORM", aliases: &["GLYPH FOR FINAL ARABIC JEEM"] },
        Codepoint { codepoint: 0xFE9F, name: "ARABIC LETTER JEEM INITIAL FORM", aliases: &["GLYPH FOR INITIAL ARABIC JEEM"] },
        Codepoint { codepoint: 0xFEA0, name: "ARABIC LETTER JEEM MEDIAL FORM", aliases: &["GLYPH FOR MEDIAL ARABIC JEEM"] },
        Codepoint { codepoint: 0xFEA1, name: "ARABIC LETTER HAH ISOLATED FORM", aliases: &["GLYPH FOR ISOLATE ARABIC HAA"] },
        Codepoint { codepoint: 0xFEA2, name: "ARABIC LETTER HAH FINAL FORM", aliases: &["GLYPH FOR FINAL ARABIC HAA"] },
        Codepoint { codepoint: 0xFEA3, name: "ARABIC LETTER HAH INITIAL FORM", aliases: &["GLYPH FOR INITIAL ARABIC HAA"] },
        Codepoint { codepoint: 0xFEA4, name: "ARABIC LETTER HAH MEDIAL FORM", aliases: &["GLYPH FOR MEDIAL ARABIC HAA"] },
        Codepoint { codepoint: 0xFEA5, name: "ARABIC LETTER KHAH ISOLATED FORM", aliases: &["GLYPH FOR ISOLATE ARABIC KHAA"] },
        Codepoint { codepoint: 0xFEA6, name: "ARABIC LETTER KHAH FINAL FORM", aliases: &["GLYPH FOR FINAL ARABIC KHAA"] },
        Codepoint { codepoint: 0xFEA7, name: "ARABIC LETTER KHAH INITIAL FORM", aliases: &["GLYPH FOR INITIAL ARABIC KHAA"] },
        Codepoint { codepoint: 0xFEA8, name: "ARABIC LETTER KHAH MEDIAL FORM", aliases: &["GLYPH FOR MEDIAL ARABIC KHAA"] },
        Codepoint { codepoint: 0xFEA9, name: "ARABIC LETTER DAL ISOLATED FORM", aliases: &["GLYPH FOR ISOLATE ARABIC DAL"] },
        Codepoint { codepoint: 0xFEAA, name: "ARABIC LETTER DAL FINAL FORM", aliases: &["GLYPH FOR FINAL ARABIC DAL"] },
        Codepoint { codepoint: 0xFEAB, name: "ARABIC LETTER THAL ISOLATED FORM", aliases: &["GLYPH FOR ISOLATE ARABIC THAL"] },
        Codepoint { codepoint: 0xFEAC, name: "ARABIC LETTER THAL FINAL FORM", aliases: &["GLYPH FOR FINAL ARABIC THAL"] },
        Codepoint { codepoint: 0xFEAD, name: "ARABIC LETTER REH ISOLATED FORM", aliases: &["GLYPH FOR ISOLATE ARABIC RA"] },
        Codepoint { codepoint: 0xFEAE, name: "ARABIC LETTER REH FINAL FORM", aliases: &["GLYPH FOR FINAL ARABIC RA"] },
        Codepoint { codepoint: 0xFEAF, name: "ARABIC LETTER ZAIN ISOLATED FORM", aliases: &["GLYPH FOR ISOLATE ARABIC ZAIN"] },
        Codepoint { codepoint: 0xFEB0, name: "ARABIC LETTER ZAIN FINAL FORM", aliases: &["GLYPH FOR FINAL ARABIC ZAIN"] },
        Codepoint { codepoint: 0xFEB1, name: "ARABIC LETTER SEEN ISOLATED FORM", aliases: &["GLYPH FOR ISOLATE ARABIC SEEN"] },
        Codepoint { codepoint: 0xFEB2, name: "ARABIC LETTER SEEN FINAL FORM", aliases: &["GLYPH FOR FINAL ARABIC SEEN"] },
        Codepoint { codepoint: 0xFEB3, name: "ARABIC LETTER SEEN INITIAL FORM", aliases: &["GLYPH FOR INITIAL ARABIC SEEN"] },
        Codepoint { codepoint: 0xFEB4, name: "ARABIC LETTER SEEN MEDIAL FORM", aliases: &["GLYPH FOR MEDIAL ARABIC SEEN"] },
        Codepoint { codepoint: 0xFEB5, name: "ARABIC LETTER SHEEN ISOLATED FORM", aliases: &["GLYPH FOR ISOLATE ARABIC SHEEN"] },
        Codepoint { codepoint: 0xFEB6, name: "ARABIC LETTER SHEEN FINAL FORM", aliases: &["GLYPH FOR FINAL ARABIC SHEEN"] },
        Codepoint { codepoint: 0xFEB7, name: "ARABIC LETTER SHEEN INITIAL FORM", aliases: &["GLYPH FOR INITIAL ARABIC SHEEN"] },
        Codepoint { codepoint: 0xFEB8, name: "ARABIC LETTER SHEEN MEDIAL FORM", aliases: &["GLYPH FOR MEDIAL ARABIC SHEEN"] },
        Codepoint { codepoint: 0xFEB9, name: "ARABIC LETTER SAD ISOLATED FORM", aliases: &["GLYPH FOR ISOLATE ARABIC SAD"] },
        Codepoint { codepoint: 0xFEBA, name: "ARABIC LETTER SAD FINAL FORM", aliases: &["GLYPH FOR FINAL ARABIC SAD"] },
        Codepoint { codepoint: 0xFEBB, name: "ARABIC LETTER SAD INITIAL FORM", aliases: &["GLYPH FOR INITIAL ARABIC SAD"] },
        Codepoint { codepoint: 0xFEBC, name: "ARABIC LETTER SAD MEDIAL FORM", aliases: &["GLYPH FOR MEDIAL ARABIC SAD"] },
        Codepoint { codepoint: 0xFEBD, name: "ARABIC LETTER DAD ISOLATED FORM", aliases: &["GLYPH FOR ISOLATE ARABIC DAD"] },
        Codepoint { codepoint: 0xFEBE, name: "ARABIC LETTER DAD FINAL FORM", aliases: &["GLYPH FOR FINAL ARABIC DAD"] },
        Codepoint { codepoint: 0xFEBF, name: "ARABIC LETTER DAD INITIAL FORM", aliases: &["GLYPH FOR INITIAL ARABIC DAD"] },
        Codepoint { codepoint: 0xFEC0, name: "ARABIC LETTER DAD MEDIAL FORM", aliases: &["GLYPH FOR MEDIAL ARABIC DAD"] },
        Codepoint { codepoint: 0xFEC1, name: "ARABIC LETTER TAH ISOLATED FORM", aliases: &["GLYPH FOR ISOLATE ARABIC TAH"] },
    ]
}

fn all_codepoints_414() -> (v: Vec<Codepoint>)
    ensures
        v@ == codepoint_table_414(),
{
    let v = vec![
        Codepoint { codepoint: 0xFE9A, name: "ARABIC LETTER THEH FINAL FORM", aliases: &["GLYPH FOR FINAL ARABIC THAA"] },
        Codepoint { codepoint: 0xFE9B, name: "ARABIC LETTER THEH INITIAL FORM", aliases: &["GLYPH FOR INITIAL ARABIC THAA"] },
        Codepoint { codepoint: 0xFE9C, name: "ARABIC LETTER THEH MEDIAL FORM", aliases: &["GLYPH FOR MEDIAL ARABIC THAA"] },
        Codepoint { codepoint: 0xFE9D, name: "ARABIC LETTER JEEM ISOLATED FORM", aliases: &["GLYPH FOR ISOLATE ARABIC JEEM"] },
        Codepoint { codepoint: 0xFE9E, name: "ARABIC LETTER JEEM FINAL FORM", aliases: &["GLYPH FOR FINAL ARABIC JEEM"] },
        Codepoint { codepoint: 0xFE9F, name: "ARABIC LETTER JEEM INITIAL FORM", aliases: &["GLYPH FOR INITIAL ARABIC JEEM"] },
        Codepoint { codepoint: 0xFEA0, name: "ARABIC LETTER JEEM MEDIAL FORM", aliases: &["GLYPH FOR MEDIAL ARABIC JEEM"] },
        Codepoint { codepoint: 0xFEA1, name: "ARABIC LETTER HAH ISOLATED FORM", aliases: &["GLYPH FOR ISOLATE ARABIC HAA"] },
        Codepoint { codepoint: 0xFEA2, name: "ARABIC LETTER HAH FINAL FORM", aliases: &["GLYPH FOR FINAL ARABIC HAA"] },
        Codepoint { codepoint: 0xFEA3, name: "ARABIC LETTER HAH INITIAL FORM", aliases: &["GLYPH FOR INITIAL ARABIC HAA"] },
        Codepoint { codepoint: 0xFEA4, name: "ARABIC LETTER HAH MEDIAL FORM", aliases: &["GLYPH FOR MEDIAL ARABIC HAA"] },
        Codepoint { codepoint: 0xFEA5, name: "ARABIC LETTER KHAH ISOLATED FORM", aliases: &["GLYPH FOR ISOLATE ARABIC KHAA"] },
        Codepoint { codepoint: 0xFEA6, name: "ARABIC LETTER KHAH FINAL FORM", aliases: &["GLYPH FOR FINAL ARABIC KHAA"] },
        Codepoint { codepoint: 0xFEA7, name: "ARABIC LETTER KHAH INITIAL FORM", aliases: &["GLYPH FOR INITIAL ARABIC KHAA"] },
        Codepoint { codepoint: 0xFEA8, name: "ARABIC LETTER KHAH MEDIAL FORM", aliases: &["GLYPH FOR MEDIAL ARABIC KHAA"] },
        Codepoint { codepoint: 0xFEA9, name: "ARABIC LETTER DAL ISOLATED FORM", aliases: &["GLYPH FOR ISOLATE ARABIC DAL"] },
        Codepoint { codepoint: 0xFEAA, name: "ARABIC LETTER DAL FINAL FORM", aliases: &["GLYPH FOR FINAL ARABIC DAL"] },
        Codepoint { codepoint: 0xFEAB, name: "ARABIC LETTER THAL ISOLATED FORM", aliases: &["GLYPH FOR ISOLATE ARABIC THAL"] },
        Codepoint { codepoint: 0xFEAC, name: "ARABIC LETTER THAL FINAL FORM", aliases: &["GLYPH FOR FINAL ARABIC THAL"] },
        Codepoint { codepoint: 0xFEAD, name: "ARABIC LETTER REH ISOLATED FORM", aliases: &["GLYPH FOR ISOLATE ARABIC RA"] },
        Codepoint { codepoint: 0xFEAE, name: "ARABIC LETTER REH FINAL FORM", aliases: &["GLYPH FOR FINAL ARABIC RA"] },
        Codepoint { codepoint: 0xFEAF, name: "ARABIC LETTER ZAIN ISOLATED FORM", aliases: &["GLYPH FOR ISOLATE ARABIC ZAIN"] },
        Codepoint { codepoint: 0xFEB0, name: "ARABIC LETTER ZAIN FINAL FORM", aliases: &["GLYPH FOR FINAL ARABIC ZAIN"] },
        Codepoint { codepoint: 0xFEB1, name: "ARABIC LETTER SEEN ISOLATED FORM", aliases: &["GLYPH FOR ISOLATE ARABIC SEEN"] },
        Codepoint { codepoint: 0xFEB2, name: "ARABIC LETTER SEEN FINAL FORM", aliases: &["GLYPH FOR FINAL ARABIC SEEN"] },
        Codepoint { codepoint: 0xFEB3, name: "ARABIC LETTER SEEN INITIAL FORM", aliases: &["GLYPH FOR INITIAL ARABIC SEEN"] },
        Codepoint { codepoint: 0xFEB4, name: "ARABIC LETTER SEEN MEDIAL FORM", aliases: &["GLYPH FOR MEDIAL ARABIC SEEN"] },
        Codepoint { codepoint: 0xFEB5, name: "ARABIC LETTER SHEEN ISOLATED FORM", aliases: &["GLYPH FOR ISOLATE ARABIC SHEEN"] },
        Codepoint { codepoint: 0xFEB6, name: "ARABIC LETTER SHEEN FINAL FORM", aliases: &["GLYPH FOR FINAL ARABIC SHEEN"] },
        Codepoint { codepoint: 0xFEB7, name: "ARABIC LETTER SHEEN INITIAL FORM", aliases: &["GLYPH FOR INITIAL ARABIC SHEEN"] },
        Codepoint { codepoint: 0xFEB8, name: "ARABIC LETTER SHEEN MEDIAL FORM", aliases: &["GLYPH FOR MEDIAL ARABIC SHEEN"] },
        Codepoint { codepoint: 0xFEB9, name: "ARABIC LETTER SAD ISOLATED FORM", aliases: &["GLYPH FOR ISOLATE ARABIC SAD"] },
        Codepoint { codepoint: 0xFEBA, name: "ARABIC LETTER SAD FINAL FORM", aliases: &["GLYPH FOR FINAL ARABIC SAD"] },
        Codepoint { codepoint: 0xFEBB, name: "ARABIC LETTER SAD INITIAL FORM", aliases: &["GLYPH FOR INITIAL ARABIC SAD"] },
        Codepoint { codepoint: 0xFEBC, name: "ARABIC LETTER SAD MEDIAL FORM", aliases: &["GLYPH FOR MEDIAL ARABIC SAD"] },
        Codepoint { codepoint: 0xFEBD, name: "ARABIC LETTER DAD ISOLATED FORM", aliases: &["GLYPH FOR ISOLATE ARABIC DAD"] },
        Codepoint { codepoint: 0xFEBE, name: "ARABIC LETTER DAD FINAL FORM", aliases: &["GLYPH FOR FINAL ARABIC DAD"] },
        Codepoint { codepoint: 0xFEBF, name: "ARABIC LETTER DAD INITIAL FORM", aliases: &["GLYPH FOR INITIAL ARABIC DAD"] },
        Codepoint { codepoint: 0xFEC0, name: "ARABIC LETTER DAD MEDIAL FORM", aliases: &["GLYPH FOR MEDIAL ARABIC DAD"] },
        Codepoint { codepoint: 0xFEC1, name: "ARABIC LETTER TAH ISOLATED FORM", aliases: &["GLYPH FOR ISOLATE ARABIC TAH"] },
    ];
    assert(v@ =~= codepoint_table_414());
    v
}

pub open spec fn codepoint_table_415() -> Seq<Codepoint> {
    seq![
        Codepoint { codepoint: 0xFEC2, name: "ARABIC LETTER TAH FINAL FORM", aliases: &["GLYPH FOR FINAL ARABIC TAH"] },
        Codepoint { codepoint: 0xFEC3, name: "ARABIC LETTER TAH INITIAL FORM", aliases: &["GLYPH FOR INITIAL ARABIC TAH"] },
        Codepoint { codepoint: 0xFEC4, name: "ARABIC LETTER TAH MEDIAL FORM", aliases: &["GLYPH FOR MEDIAL ARABIC TAH"] },
        Codepoint { codepoint: 0xFEC5, name: "ARABIC LETTER ZAH ISOLATED FORM", aliases: &["GLYPH FOR ISOLATE ARABIC DHAH"] },
        Codepoint { codepoint: 0xFEC6, name: "ARABIC LETTER ZAH FINAL FORM", aliases: &["GLYPH FOR FINAL ARABIC DHAH"] },
        Codepoint { codepoint: 0xFEC7, name: "ARABIC LETTER ZAH INITIAL FORM", aliases: &["GLYPH FOR INITIAL ARABIC DHAH"] },
        Codepoint { codepoint: 0xFEC8, name: "ARABIC LETTER ZAH MEDIAL FORM", aliases: &["GLYPH FOR MEDIAL ARABIC DHAH"] },
        Codepoint { codepoint: 0xFEC9, name: "ARABIC LETTER AIN ISOLATED FORM", aliases: &["GLYPH FOR ISOLATE ARABIC AIN"] },
        Codepoint { codepoint: 0xFECA, name: "ARABIC LETTER AIN FINAL FORM", aliases: &["GLYPH FOR FINAL ARABIC AIN"] },
        Codepoint { codepoint: 0xFECB, name: "ARABIC LETTER AIN INITIAL FORM", aliases: &["GLYPH FOR INITIAL ARABIC AIN"] },
        Codepoint { codepoint: 0xFECC, name: "ARABIC LETTER AIN MEDIAL FORM", aliases: &["GLYPH FOR MEDIAL ARABIC AIN"] },
        Codepoint { codepoint: 0xFECD, name: "ARABIC LETTER GHAIN ISOLATED FORM", aliases: &["GLYPH FOR ISOLATE ARABIC GHAIN"] },
        Codepoint { codepoint: 0xFECE, name: "ARABIC LETTER GHAIN FINAL FORM", aliases: &["GLYPH FOR FINAL ARABIC GHAIN"] },
        Codepoint { codepoint: 0xFECF, name: "ARABIC LETTER GHAIN INITIAL FORM", aliases: &["GLYPH FOR INITIAL ARABIC GHAIN"] },
        Codepoint { codepoint: 0xFED0, name: "ARABIC LETTER GHAIN MEDIAL FORM", aliases: &["GLYPH FOR MEDIAL ARABIC GHAIN"] },
        Codepoint { codepoint: 0xFED1, name: "ARABIC LETTER FEH ISOLATED FORM", aliases: &["GLYPH FOR ISOLATE ARABIC FA"] },
        Codepoint { codepoint: 0xFED2, name: "ARABIC LETTER FEH FINAL FORM", aliases: &["GLYPH FOR FINAL ARABIC FA"] },
        Codepoint { codepoint: 0xFED3, name: "ARABIC LETTER FEH INITIAL FORM", aliases: &["GLYPH FOR INITIAL ARABIC FA"] },
        Codepoint { codepoint: 0xFED4, name: "ARABIC LETTER FEH MEDIAL FORM", aliases: &["GLYPH FOR MEDIAL ARABIC FA"] },
        Codepoint { codepoint: 0xFED5, name: "ARABIC LETTER QAF ISOLATED FORM", aliases: &["GLYPH FOR ISOLATE ARABIC QAF"] },
        Codepoint { codepoint: 0xFED6, name: "ARABIC LETTER QAF FINAL FORM", aliases: &["GLYPH FOR FINAL ARABIC QAF"] },
        Codepoint { codepoint: 0xFED7, name: "ARABIC LETTER QAF INITIAL FORM", aliases: &["GLYPH FOR INITIAL ARABIC QAF"] },
        Codepoint { codepoint: 0xFED8, name: "ARABIC LETTER QAF MEDIAL FORM", aliases: &["GLYPH FOR MEDIAL ARABIC QAF"] },
        Codepoint { codepoint: 0xFED9, name: "ARABIC LETTER KAF ISOLATED FORM", aliases: &["GLYPH FOR ISOLATE ARABIC CAF"] },
        Codepoint { codepoint: 0xFEDA, name: "ARABIC LETTER KAF FINAL FORM", aliases: &["GLYPH FOR FINAL ARABIC CAF"] },
        Codepoint { codepoint: 0xFEDB, name: "ARABIC LETTER KAF INITIAL FORM", aliases: &["GLYPH FOR INITIAL ARABIC CAF"] },
        Codepoint { codepoint: 0xFEDC, name: "ARABIC LETTER KAF MEDIAL FORM", aliases: &["GLYPH FOR MEDIAL ARABIC CAF"] },
        Codepoint { codepoint: 0xFEDD, name: "ARABIC LETTER LAM ISOLATED FORM", aliases: &["GLYPH FOR ISOLATE ARABIC LAM"] },
        Codepoint { codepoint: 0xFEDE, name: "ARABIC LETTER LAM FINAL FORM", aliases: &["GLYPH FOR FINAL ARABIC LAM"] },
        Codepoint { codepoint: 0xFEDF, name: "ARABIC LETTER LAM INITIAL FORM", aliases: &["GLYPH FOR INITIAL ARABIC LAM"] },
        Codepoint { codepoint: 0xFEE0, name: "ARABIC LETTER LAM MEDIAL FORM", aliases: &["GLYPH FOR MEDIAL ARABIC LAM"] },
        Codepoint { codepoint: 0xFEE1, name: "ARABIC LETTER MEEM ISOLATED FORM", aliases: &["GLYPH FOR ISOLATE ARABIC MEEM"] },
        Codepoint { codepoint: 0xFEE2, name: "ARABIC LETTER MEEM FINAL FORM", aliases: &["GLYPH FOR FINAL ARABIC MEEM"] },
        Codepoint { codepoint: 0xFEE3, name: "ARABIC LETTER MEEM INITIAL FORM", aliases: &["GLYPH FOR INITIAL ARABIC MEEM"] },
        Codepoint { codepoint: 0xFEE4, name: "ARABIC LETTER MEEM MEDIAL FORM", aliases: &["GLYPH FOR MEDIAL ARABIC MEEM"] },
        Codepoint { codepoint: 0xFEE5, name: "ARABIC LETTER NOON ISOLATED FORM", aliases: &["GLYPH FOR ISOLATE ARABIC NOON"] },
        Codepoint { codepoint: 0xFEE6, name: "ARABIC LETTER NOON FINAL FORM", aliases: &["GLYPH FOR FINAL ARABIC NOON"] },
        Codepoint { codepoint: 0xFEE7, name: "ARABIC LETTER NOON INITIAL FORM", aliases: &["GLYPH FOR INITIAL ARABIC NOON"] },
        Codepoint { codepoint: 0xFEE8, name: "ARABIC LETTER NOON MEDIAL FORM", aliases: &["GLYPH FOR MEDIAL ARABIC NOON"] },
        Codepoint { codepoint: 0xFEE9, name: "ARABIC LETTER HEH ISOLATED FORM", aliases: &["GLYPH FOR ISOLATE ARABIC HA"] },
    ]
}

fn all_codepoints_415() -> (v: Vec<Codepoint>)
    ensures
        v@ == codepoint_table_415(),
{
    let v = vec![
        Codepoint { codepoint: 0xFEC2, name: "ARABIC LETTER TAH FINAL FORM", aliases: &["GLYPH FOR FINAL ARABIC TAH"] },
        Codepoint { codepoint: 0xFEC3, name: "ARABIC LETTER TAH INITIAL FORM", aliases: &["GLYPH FOR INITIAL ARABIC TAH"] },
        Codepoint { codepoint: 0xFEC4, name: "ARABIC LETTER TAH MEDIAL FORM", aliases: &["GLYPH FOR MEDIAL ARABIC TAH"] },
        Codepoint { codepoint: 0xFEC5, name: "ARABIC LETTER ZAH ISOLATED FORM", aliases: &["GLYPH FOR ISOLATE ARABIC DHAH"] },
        Codepoint { codepoint: 0xFEC6, name: "ARABIC LETTER ZAH FINAL FORM", aliases: &["GLYPH FOR FINAL ARABIC DHAH"] },
        Codepoint { codepoint: 0xFEC7, name: "ARABIC LETTER ZAH INITIAL FORM", aliases: &["GLYPH FOR INITIAL ARABIC DHAH"] },
        Codepoint { codepoint: 0xFEC8, name: "ARABIC LETTER ZAH MEDIAL FORM", aliases: &["GLYPH FOR MEDIAL ARABIC DHAH"] },
        Codepoint { codepoint: 0xFEC9, name: "ARABIC LETTER AIN ISOLATED FORM", aliases: &["GLYPH FOR ISOLATE ARABIC AIN"] },
        Codepoint { codepoint: 0xFECA, name: "ARABIC LETTER AIN FINAL FORM", aliases: &["GLYPH FOR FINAL ARABIC AIN"] },
        Codepoint { codepoint: 0xFECB, name: "ARABIC LETTER AIN INITIAL FORM", aliases: &["GLYPH FOR INITIAL ARABIC AIN"] },
        Codepoint { codepoint: 0xFECC, name: "ARABIC LETTER AIN MEDIAL FORM", aliases: &["GLYPH FOR MEDIAL ARABIC AIN"] },
        Codepoint { codepoint: 0xFECD, name: "ARABIC LETTER GHAIN ISOLATED FORM", aliases: &["GLYPH FOR ISOLATE ARABIC GHAIN"] },
        Codepoint { codepoint: 0xFECE, name: "ARABIC LETTER GHAIN FINAL FORM", aliases: &["GLYPH FOR FINAL ARABIC GHAIN"] },
        Codepoint { codepoint: 0xFECF, name: "ARABIC LETTER GHAIN INITIAL FORM", aliases: &["GLYPH FOR INITIAL ARABIC GHAIN"] },
        Codepoint { codepoint: 0xFED0, name: "ARABIC LETTER GHAIN MEDIAL FORM", aliases: &["GLYPH FOR MEDIAL ARABIC GHAIN"] },
        Codepoint { codepoint: 0xFED1, name: "ARABIC LETTER FEH ISOLATED FORM", aliases: &["GLYPH FOR ISOLATE ARABIC FA"] },
        Codepoint { codepoint: 0xFED2, name: "ARABIC LETTER FEH FINAL FORM", aliases: &["GLYPH FOR FINAL ARABIC FA"] },
        Codepoint { codepoint: 0xFED3, name: "ARABIC LETTER FEH INITIAL FORM", aliases: &["GLYPH FOR INITIAL ARABIC FA"] },
        Codepoint { codepoint: 0xFED4, name: "ARABIC LETTER FEH MEDIAL FORM", aliases: &["GLYPH FOR MEDIAL ARABIC FA"] },
        Codepoint { codepoint: 0xFED5, name: "ARABIC LETTER QAF ISOLATED FORM", aliases: &["GLYPH FOR ISOLATE ARABIC QAF"] },
        Codepoint { codepoint: 0xFED6, name: "ARABIC LETTER QAF FINAL FORM", aliases: &["GLYPH FOR FINAL ARABIC QAF"] },
        Codepoint { codepoint: 0xFED7, name: "ARABIC LETTER QAF INITIAL FORM", aliases: &["GLYPH FOR INITIAL ARABIC QAF"] },
        Codepoint { codepoint: 0xFED8, name: "ARABIC LETTER QAF MEDIAL FORM", aliases: &["GLYPH FOR MEDIAL ARABIC QAF"] },
        Codepoint { codepoint: 0xFED9, name: "ARABIC LETTER KAF ISOLATED FORM", aliases: &["GLYPH FOR ISOLATE ARABIC CAF"] },
        Codepoint { codepoint: 0xFEDA, name: "ARABIC LETTER KAF FINAL FORM", aliases: &["GLYPH FOR FINAL ARABIC CAF"] },
        Codepoint { codepoint: 0xFEDB, name: "ARABIC LETTER KAF INITIAL FORM", aliases: &["GLYPH FOR INITIAL ARABIC CAF"] },
        Codepoint { codepoint: 0xFEDC, name: "ARABIC LETTER KAF MEDIAL FORM", aliases: &["GLYPH FOR MEDIAL ARABIC CAF"] },
        Codepoint { codepoint: 0xFEDD, name: "ARABIC LETTER LAM ISOLATED FORM", aliases: &["GLYPH FOR ISOLATE ARABIC LAM"] },
        Codepoint { codepoint: 0xFEDE, name: "ARABIC LETTER LAM FINAL FORM", aliases: &["GLYPH FOR FINAL ARABIC LAM"] },
        Codepoint { codepoint: 0xFEDF, name: "ARABIC LETTER LAM INITIAL FORM", aliases: &["GLYPH FOR INITIAL ARABIC LAM"] },
        Codepoint { codepoint: 0xFEE0, name: "ARABIC LETTER LAM MEDIAL FORM", aliases: &["GLYPH FOR MEDIAL ARABIC LAM"] },
        Codepoint { codepoint: 0xFEE1, name: "ARABIC LETTER MEEM ISOLATED FORM", aliases: &["GLYPH FOR ISOLATE ARABIC MEEM"] },
        Codepoint { codepoint: 0xFEE2, name: "ARABIC LETTER MEEM FINAL FORM", aliases: &["GLYPH FOR FINAL ARABIC MEEM"] },
        Codepoint { codepoint: 0xFEE3, name: "ARABIC LETTER MEEM INITIAL FORM", aliases: &["GLYPH FOR INITIAL ARABIC MEEM"] },
        Codepoint { codepoint: 0xFEE4, name: "ARABIC LETTER MEEM MEDIAL FORM", aliases: &["GLYPH FOR MEDIAL ARABIC MEEM"] },
        Codepoint { codepoint: 0xFEE5, name: "ARABIC LETTER NOON ISOLATED FORM", aliases: &["GLYPH FOR ISOLATE ARABIC NOON"] },
        Codepoint { codepoint: 0xFEE6, name: "ARABIC LETTER NOON FINAL FORM", aliases: &["GLYPH FOR FINAL ARABIC NOON"] },
        Codepoint { codepoint: 0xFEE7, name: "ARABIC LETTER NOON INITIAL FORM", aliases: &["GLYPH FOR INITIAL ARABIC NOON"] },
        Codepoint { codepoint: 0xFEE8, name: "ARABIC LETTER NOON MEDIAL FORM", aliases: &["GLYPH FOR MEDIAL ARABIC NOON"] },
        Codepoint { codepoint: 0xFEE9, name: "ARABIC LETTER HEH ISOLATED FORM", aliases: &["GLYPH FOR ISOLATE ARABIC HA"] },
    ];
    assert(v@ =~= codepoint_table_415());
    v
}

pub open spec fn codepoint_table_416() -> Seq<Codepoint> {
    seq![
        Codepoint { codepoint: 0xFEEA, name: "ARABIC LETTER HEH FINAL FORM", aliases: &["GLYPH FOR FINAL ARABIC HA"] },
        Codepoint { codepoint: 0xFEEB, name: "ARABIC LETTER HEH INITIAL FORM", aliases: &["GLYPH FOR INITIAL ARABIC HA"] },
        Codepoint { codepoint: 0xFEEC, name: "ARABIC LETTER HEH MEDIAL FORM", aliases: &["GLYPH FOR MEDIAL ARABIC HA"] },
        Codepoint { codepoint: 0xFEED, name: "ARABIC LETTER WAW ISOLATED FORM", aliases: &["GLYPH FOR ISOLATE ARABIC WAW"] },
        Codepoint { codepoint: 0xFEEE, name: "ARABIC LETTER WAW FINAL FORM", aliases: &["GLYPH FOR FINAL ARABIC WAW"] },
        Codepoint { codepoint: 0xFEEF, name: "ARABIC LETTER ALEF MAKSURA ISOLATED FORM", aliases: &["GLYPH FOR ISOLATE ARABIC ALEF MAQSURAH"] },
        Codepoint { codepoint: 0xFEF0, name: "ARABIC LETTER ALEF MAKSURA FINAL FORM", aliases: &["GLYPH FOR FINAL ARABIC ALEF MAQSURAH"] },
        Codepoint { codepoint: 0xFEF1, name: "ARABIC LETTER YEH ISOLATED FORM", aliases: &["GLYPH FOR ISOLATE ARABIC YA"] },
        Codepoint { codepoint: 0xFEF2, name: "ARABIC LETTER YEH FINAL FORM", aliases: &["GLYPH FOR FINAL ARABIC YA"] },
        Codepoint { codepoint: 0xFEF3, name: "ARABIC LETTER YEH INITIAL FORM", aliases: &["GLYPH FOR INITIAL ARABIC YA"] },
        Codepoint { codepoint: 0xFEF4, name: "ARABIC LETTER YEH MEDIAL FORM", aliases: &["GLYPH FOR MEDIAL ARABIC YA"] },
        Codepoint { codepoint: 0xFEF5, name: "ARABIC LIGATURE LAM WITH ALEF WITH MADDA ABOVE ISOLATED FORM", aliases: &["GLYPH FOR ISOLATE ARABIC MADDAH ON LIGATURE LAM ALEF"] },
        Codepoint { codepoint: 0xFEF6, name: "ARABIC LIGATURE LAM WITH ALEF WITH MADDA ABOVE FINAL FORM", aliases: &["GLYPH FOR FINAL ARABIC MADDAH ON LIGATURE LAM ALEF"] },
        Codepoint { codepoint: 0xFEF7, name: "ARABIC LIGATURE LAM WITH ALEF WITH HAMZA ABOVE ISOLATED FORM", aliases: &["GLYPH FOR ISOLATE ARABIC HAMZAH ON LIGATURE LAM ALEF"] },
        Codepoint { codepoint: 0xFEF8, name: "ARABIC LIGATURE LAM WITH ALEF WITH HAMZA ABOVE FINAL FORM", aliases: &["GLYPH FOR FINAL ARABIC HAMZAH ON LIGATURE LAM ALEF"] },
        Codepoint { codepoint: 0xFEF9, name: "ARABIC LIGATURE LAM WITH ALEF WITH HAMZA BELOW ISOLATED FORM", aliases: &["GLYPH FOR ISOLATE ARABIC HAMZAH UNDER LIGATURE LAM ALEF"] },
        Codepoint { codepoint: 0xFEFA, name: "ARABIC LIGATURE LAM WITH ALEF WITH HAMZA BELOW FINAL FORM", aliases: &["GLYPH FOR FINAL ARABIC HAMZAH UNDER LIGATURE LAM ALEF"] },
        Codepoint { codepoint: 0xFEFB, name: "ARABIC LIGATURE LAM WITH ALEF ISOLATED FORM", aliases: &["GLYPH FOR ISOLATE ARABIC LIGATURE LAM ALEF"] },
        Codepoint { codepoint: 0xFEFC, name: "ARABIC LIGATURE LAM WITH ALEF FINAL FORM", aliases: &["GLYPH FOR FINAL ARABIC LIGATURE LAM ALEF"] },
        Codepoint { codepoint: 0xFEFF, name: "ZERO WIDTH NO-BREAK SPACE", aliases: &["BYTE ORDER MARK"] },
        Codepoint { codepoint: 0xFF01, name: "FULLWIDTH EXCLAMATION MARK", aliases: &[] },
        Codepoint { codepoint: 0xFF02, name: "FULLWIDTH QUOTATION MARK", aliases: &[] },
        Codepoint { codepoint: 0xFF03, name: "FULLWIDTH NUMBER SIGN", aliases: &[] },
        Codepoint { codepoint: 0xFF04, name: "FULLWIDTH DOLLAR SIGN", aliases: &[] },
        Codepoint { codepoint: 0xFF05, name: "FULLWIDTH PERCENT SIGN", aliases: &[] },
        Codepoint { codepoint: 0xFF06, name: "FULLWIDTH AMPERSAND", aliases: &[] },
        Codepoint { codepoint: 0xFF07, name: "FULLWIDTH APOSTROPHE", aliases: &[] },
        Codepoint { codepoint: 0xFF08, name: "FULLWIDTH LEFT PARENTHESIS", aliases: &["FULLWIDTH OPENING PARENTHESIS"] },
        Codepoint { codepoint: 0xFF09, name: "FULLWIDTH RIGHT PARENTHESIS", aliases: &["FULLWIDTH CLOSING PARENTHESIS"] },
        Codepoint { codepoint: 0xFF0A, name: "FULLWIDTH ASTERISK", aliases: &[] },
        Codepoint { codepoint: 0xFF0B, name: "FULLWIDTH PLUS SIGN", aliases: &[] },
        Codepoint { codepoint: 0xFF0C, name: "FULLWIDTH COMMA", aliases: &[] },
        Codepoint { codepoint: 0xFF0D, name: "FULLWIDTH HYPHEN-MINUS", aliases: &[] },
        Codepoint { codepoint: 0xFF0E, name: "FULLWIDTH FULL STOP", aliases: &["FULLWIDTH PERIOD"] },
        Codepoint { codepoint: 0xFF0F, name: "FULLWIDTH SOLIDUS", aliases: &["FULLWIDTH SLASH"] },
        Codepoint { codepoint: 0xFF10, name: "FULLWIDTH DIGIT ZERO", aliases: &[] },
        Codepoint { codepoint: 0xFF11, name: "FULLWIDTH DIGIT ONE", aliases: &[] },
        Codepoint { codepoint: 0xFF12, name: "FULLWIDTH DIGIT TWO", aliases: &[] },
        Codepoint { codepoint: 0xFF13, name: "FULLWIDTH DIGIT THREE", aliases: &[] },
        Codepoint { codepoint: 0xFF14, name: "FULLWIDTH DIGIT FOUR", aliases: &[] },
    ]
}

fn all_codepoints_416() -> (v: Vec<Codepoint>)
    ensures
        v@ == codepoint_table_416(),
{
    let v = vec![
        Codepoint { codepoint: 0xFEEA, name: "ARABIC LETTER HEH FINAL FORM", aliases: &["GLYPH FOR FINAL ARABIC HA"] },
        Codepoint { codepoint: 0xFEEB, name: "ARABIC LETTER HEH INITIAL FORM", aliases: &["GLYPH FOR INITIAL ARABIC HA"] },
        Codepoint { codepoint: 0xFEEC, name: "ARABIC LETTER HEH MEDIAL FORM", aliases: &["GLYPH FOR MEDIAL ARABIC HA"] },
        Codepoint { codepoint: 0xFEED, name: "ARABIC LETTER WAW ISOLATED FORM", aliases: &["GLYPH FOR ISOLATE ARABIC WAW"] },
        Codepoint { codepoint: 0xFEEE, name: "ARABIC LETTER WAW FINAL FORM", aliases: &["GLYPH FOR FINAL ARABIC WAW"] },
        Codepoint { codepoint: 0xFEEF, name: "ARABIC LETTER ALEF MAKSURA ISOLATED FORM", aliases: &["GLYPH FOR ISOLATE ARABIC ALEF MAQSURAH"] },
        Codepoint { codepoint: 0xFEF0, name: "ARABIC LETTER ALEF MAKSURA FINAL FORM", aliases: &["GLYPH FOR FINAL ARABIC ALEF MAQSURAH"] },
        Codepoint { codepoint: 0xFEF1, name: "ARABIC LETTER YEH ISOLATED FORM", aliases: &["GLYPH FOR ISOLATE ARABIC YA"] },
        Codepoint { codepoint: 0xFEF2, name: "ARABIC LETTER YEH FINAL FORM", aliases: &["GLYPH FOR FINAL ARABIC YA"] },
        Codepoint { codepoint: 0xFEF3, name: "ARABIC LETTER YEH INITIAL FORM", aliases: &["GLYPH FOR INITIAL ARABIC YA"] },
        Codepoint { codepoint: 0xFEF4, name: "ARABIC LETTER YEH MEDIAL FORM", aliases: &["GLYPH FOR MEDIAL ARABIC YA"] },
        Codepoint { codepoint: 0xFEF5, name: "ARABIC LIGATURE LAM WITH ALEF WITH MADDA ABOVE ISOLATED FORM", aliases: &["GLYPH FOR ISOLATE ARABIC MADDAH ON LIGATURE LAM ALEF"] },
        Codepoint { codepoint: 0xFEF6, name: "ARABIC LIGATURE LAM WITH ALEF WITH MADDA ABOVE FINAL FORM", aliases: &["GLYPH FOR FINAL ARABIC MADDAH ON LIGATURE LAM ALEF"] },
        Codepoint { codepoint: 0xFEF7, name: "ARABIC LIGATURE LAM WITH ALEF WITH HAMZA ABOVE ISOLATED FORM", aliases: &["GLYPH FOR ISOLATE ARABIC HAMZAH ON LIGATURE LAM ALEF"] },
        Codepoint { codepoint: 0xFEF8, name: "ARABIC LIGATURE LAM WITH ALEF WITH HAMZA ABOVE FINAL FORM", aliases: &["GLYPH FOR FINAL ARABIC HAMZAH ON LIGATURE LAM ALEF"] },
        Codepoint { codepoint: 0xFEF9, name: "ARABIC LIGATURE LAM WITH ALEF WITH HAMZA BELOW ISOLATED FORM", aliases: &["GLYPH FOR ISOLATE ARABIC HAMZAH UNDER LIGATURE LAM ALEF"] },
        Codepoint { codepoint: 0xFEFA, name: "ARABIC LIGATURE LAM WITH ALEF WITH HAMZA BELOW FINAL FORM", aliases: &["GLYPH FOR FINAL ARABIC HAMZAH UNDER LIGATURE LAM ALEF"] },
        Codepoint { codepoint: 0xFEFB, name: "ARABIC LIGATURE LAM WITH ALEF ISOLATED FORM", aliases: &["GLYPH FOR ISOLATE ARABIC LIGATURE LAM ALEF"] },
        Codepoint { codepoint: 0xFEFC, name: "ARABIC LIGATURE LAM WITH ALEF FINAL FORM", aliases: &["GLYPH FOR FINAL ARABIC LIGATURE LAM ALEF"] },
        Codepoint { codepoint: 0xFEFF, name: "ZERO WIDTH NO-BREAK SPACE", aliases: &["BYTE ORDER MARK"] },
        Codepoint { codepoint: 0xFF01, name: "FULLWIDTH EXCLAMATION MARK", aliases: &[] },
        Codepoint { codepoint: 0xFF02, name: "FULLWIDTH QUOTATION MARK", aliases: &[] },
        Codepoint { codepoint: 0xFF03, name: "FULLWIDTH NUMBER SIGN", aliases: &[] },
        Codepoint { codepoint: 0xFF04, name: "FULLWIDTH DOLLAR SIGN", aliases: &[] },
        Codepoint { codepoint: 0xFF05, name: "FULLWIDTH PERCENT SIGN", aliases: &[] },
        Codepoint { codepoint: 0xFF06, name: "FULLWIDTH AMPERSAND", aliases: &[] },
        Codepoint { codepoint: 0xFF07, name: "FULLWIDTH APOSTROPHE", aliases: &[] },
        Codepoint { codepoint: 0xFF08, name: "FULLWIDTH LEFT PARENTHESIS", aliases: &["FULLWIDTH OPENING PARENTHESIS"] },
        Codepoint { codepoint: 0xFF09, name: "FULLWIDTH RIGHT PARENTHESIS", aliases: &["FULLWIDTH CLOSING PARENTHESIS"] },
        Codepoint { codepoint: 0xFF0A, name: "FULLWIDTH ASTERISK", aliases: &[] },
        Codepoint { codepoint: 0xFF0B, name: "FULLWIDTH PLUS SIGN", aliases: &[] },
        Codepoint { codepoint: 0xFF0C, name: "FULLWIDTH COMMA", aliases: &[] },
        Codepoint { codepoint: 0xFF0D, name: "FULLWIDTH HYPHEN-MINUS", aliases: &[] },
        Codepoint { codepoint: 0xFF0E, name: "FULLWIDTH FULL STOP", aliases: &["FULLWIDTH PERIOD"] },
        Codepoint { codepoint: 0xFF0F, name: "FULLWIDTH SOLIDUS", aliases: &["FULLWIDTH SLASH"] },
        Codepoint { codepoint: 0xFF10, name: "FULLWIDTH DIGIT ZERO", aliases: &[] },
        Codepoint { codepoint: 0xFF11, name: "FULLWIDTH DIGIT ONE", aliases: &[] },
        Codepoint { codepoint: 0xFF12, name: "FULLWIDTH DIGIT TWO", aliases: &[] },
        Codepoint { codepoint: 0xFF13, name: "FULLWIDTH DIGIT THREE", aliases: &[] },
        Codepoint { codepoint: 0xFF14, name: "FULLWIDTH DIGIT FOUR", aliases: &[] },
    ];
    assert(v@ =~= codepoint_table_416());
    v
}

pub open spec fn codepoint_table_417() -> Seq<Codepoint> {
    seq![
        Codepoint { codepoint: 0xFF15, name: "FULLWIDTH DIGIT FIVE", aliases: &[] },
        Codepoint { codepoint: 0xFF16, name: "FULLWIDTH DIGIT SIX", aliases: &[] },
        Codepoint { codepoint: 0xFF17, name: "FULLWIDTH DIGIT SEVEN", aliases: &[] },
        Codepoint { codepoint: 0xFF18, name: "FULLWIDTH DIGIT EIGHT", aliases: &[] },
        Codepoint { codepoint: 0xFF19, name: "FULLWIDTH DIGIT NINE", aliases: &[] },
        Codepoint { codepoint: 0xFF1A, name: "FULLWIDTH COLON", aliases: &[] },
        Codepoint { codepoint: 0xFF1B, name: "FULLWIDTH SEMICOLON", aliases: &[] },
        Codepoint { codepoint: 0xFF1C, name: "FULLWIDTH LESS-THAN SIGN", aliases: &[] },
        Codepoint { codepoint: 0xFF1D, name: "FULLWIDTH EQUALS SIGN", aliases: &[] },
        Codepoint { codepoint: 0xFF1E, name: "FULLWIDTH GREATER-THAN SIGN", aliases: &[] },
        Codepoint { codepoint: 0xFF1F, name: "FULLWIDTH QUESTION MARK", aliases: &[] },
        Codepoint { codepoint: 0xFF20, name: "FULLWIDTH COMMERCIAL AT", aliases: &[] },
        Codepoint { codepoint: 0xFF21, name: "FULLWIDTH LATIN CAPITAL LETTER A", aliases: &[] },
        Codepoint { codepoint: 0xFF22, name: "FULLWIDTH LATIN CAPITAL LETTER B", aliases: &[] },
        Codepoint { codepoint: 0xFF23, name: "FULLWIDTH LATIN CAPITAL LETTER C", aliases: &[] },
        Codepoint { codepoint: 0xFF24, name: "FULLWIDTH LATIN CAPITAL LETTER D", aliases: &[] },
        Codepoint { codepoint: 0xFF25, name: "FULLWIDTH LATIN CAPITAL LETTER E", aliases: &[] },
        Codepoint { codepoint: 0xFF26, name: "FULLWIDTH LATIN CAPITAL LETTER F", aliases: &[] },
        Codepoint { codepoint: 0xFF27, name: "FULLWIDTH LATIN CAPITAL LETTER G", aliases: &[] },
        Codepoint { codepoint: 0xFF28, name: "FULLWIDTH LATIN CAPITAL LETTER H", aliases: &[] },
        Codepoint { codepoint: 0xFF29, name: "FULLWIDTH LATIN CAPITAL LETTER I", aliases: &[] },
        Codepoint { codepoint: 0xFF2A, name: "FULLWIDTH LATIN CAPITAL LETTER J", aliases: &[] },
        Codepoint { codepoint: 0xFF2B, name: "FULLWIDTH LATIN CAPITAL LETTER K", aliases: &[] },
        Codepoint { codepoint: 0xFF2C, name: "FULLWIDTH LATIN CAPITAL LETTER L", aliases: &[] },
        Codepoint { codepoint: 0xFF2D, name: "FULLWIDTH LATIN CAPITAL LETTER M", aliases: &[] },
        Codepoint { codepoint: 0xFF2E, name: "FULLWIDTH LATIN CAPITAL LETTER N", aliases: &[] },
        Codepoint { codepoint: 0xFF2F, name: "FULLWIDTH LATIN CAPITAL LETTER O", aliases: &[] },
        Codepoint { codepoint: 0xFF30, name: "FULLWIDTH LATIN CAPITAL LETTER P", aliases: &[] },
        Codepoint { codepoint: 0xFF31, name: "FULLWIDTH LATIN CAPITAL LETTER Q", aliases: &[] },
        Codepoint { codepoint: 0xFF32, name: "FULLWIDTH LATIN CAPITAL LETTER R", aliases: &[] },
        Codepoint { codepoint: 0xFF33, name: "FULLWIDTH LATIN CAPITAL LETTER S", aliases: &[] },
        Codepoint { codepoint: 0xFF34, name: "FULLWIDTH LATIN CAPITAL LETTER T", aliases: &[] },
        Codepoint { codepoint: 0xFF35, name: "FULLWIDTH LATIN CAPITAL LETTER U", aliases: &[] },
        Codepoint { codepoint: 0xFF36, name: "FULLWIDTH LATIN CAPITAL LETTER V", aliases: &[] },
        Codepoint { codepoint: 0xFF37, name: "FULLWIDTH LATIN CAPITAL LETTER W", aliases: &[] },
        Codepoint { codepoint: 0xFF38, name: "FULLWIDTH LATIN CAPITAL LETTER X", aliases: &[] },
        Codepoint { codepoint: 0xFF39, name: "FULLWIDTH LATIN CAPITAL LETTER Y", aliases: &[] },
        Codepoint { codepoint: 0xFF3A, name: "FULLWIDTH LATIN CAPITAL LETTER Z", aliases: &[] },
        Codepoint { codepoint: 0xFF3B, name: "FULLWIDTH LEFT SQUARE BRACKET", aliases: &["FULLWIDTH OPENING SQUARE BRACKET"] },
        Codepoint { codepoint: 0xFF3C, name: "FULLWIDTH REVERSE SOLIDUS", aliases: &["FULLWIDTH BACKSLASH"] },
    ]
}

fn all_codepoints_417() -> (v: Vec<Codepoint>)
    ensures
        v@ == codepoint_table_417(),
{
    let v = vec![
        Codepoint { codepoint: 0xFF15, name: "FULLWIDTH DIGIT FIVE", aliases: &[] },
        Codepoint { codepoint: 0xFF16, name: "FULLWIDTH DIGIT SIX", aliases: &[] },
        Codepoint { codepoint: 0xFF17, name: "FULLWIDTH DIGIT SEVEN", aliases: &[] },
        Codepoint { codepoint: 0xFF18, name: "FULLWIDTH DIGIT EIGHT", aliases: &[] },
        Codepoint { codepoint: 0xFF19, name: "FULLWIDTH DIGIT NINE", aliases: &[] },
        Codepoint { codepoint: 0xFF1A, name: "FULLWIDTH COLON", aliases: &[] },
        Codepoint { codepoint: 0xFF1B, name: "FULLWIDTH SEMICOLON", aliases: &[] },
        Codepoint { codepoint: 0xFF1C, name: "FULLWIDTH LESS-THAN SIGN", aliases: &[] },
        Codepoint { codepoint: 0xFF1D, name: "FULLWIDTH EQUALS SIGN", aliases: &[] },
        Codepoint { codepoint: 0xFF1E, name: "FULLWIDTH GREATER-THAN SIGN", aliases: &[] },
        Codepoint { codepoint: 0xFF1F, name: "FULLWIDTH QUESTION MARK", aliases: &[] },
        Codepoint { codepoint: 0xFF20, name: "FULLWIDTH COMMERCIAL AT", aliases: &[] },
        Codepoint { codepoint: 0xFF21, name: "FULLWIDTH LATIN CAPITAL LETTER A", aliases: &[] },
        Codepoint { codepoint: 0xFF22, name: "FULLWIDTH LATIN CAPITAL LETTER B", aliases: &[] },
        Codepoint { codepoint: 0xFF23, name: "FULLWIDTH LATIN CAPITAL LETTER C", aliases: &[] },
        Codepoint { codepoint: 0xFF24, name: "FULLWIDTH LATIN CAPITAL LETTER D", aliases: &[] },
        Codepoint { codepoint: 0xFF25, name: "FULLWIDTH LATIN CAPITAL LETTER E", aliases: &[] },
        Codepoint { codepoint: 0xFF26, name: "FULLWIDTH LATIN CAPITAL LETTER F", aliases: &[] },
        Codepoint { codepoint: 0xFF27, name: "FULLWIDTH LATIN CAPITAL LETTER G", aliases: &[] },
        Codepoint { codepoint: 0xFF28, name: "FULLWIDTH LATIN CAPITAL LETTER H", aliases: &[] },
        Codepoint { codepoint: 0xFF29, name: "FULLWIDTH LATIN CAPITAL LETTER I", aliases: &[] },
        Codepoint { codepoint: 0xFF2A, name: "FULLWIDTH LATIN CAPITAL LETTER J", aliases: &[] },
        Codepoint { codepoint: 0xFF2B, name: "FULLWIDTH LATIN CAPITAL LETTER K", aliases: &[] },
        Codepoint { codepoint: 0xFF2C, name: "FULLWIDTH LATIN CAPITAL LETTER L", aliases: &[] },
        Codepoint { codepoint: 0xFF2D, name: "FULLWIDTH LATIN CAPITAL LETTER M", aliases: &[] },
        Codepoint { codepoint: 0xFF2E, name: "FULLWIDTH LATIN CAPITAL LETTER N", aliases: &[] },
        Codepoint { codepoint: 0xFF2F, name: "FULLWIDTH LATIN CAPITAL LETTER O", aliases: &[] },
        Codepoint { codepoint: 0xFF30, name: "FULLWIDTH LATIN CAPITAL LETTER P", aliases: &[] },
        Codepoint { codepoint: 0xFF31, name: "FULLWIDTH LATIN CAPITAL LETTER Q", aliases: &[] },
        Codepoint { codepoint: 0xFF32, name: "FULLWIDTH LATIN CAPITAL LETTER R", aliases: &[] },
        Codepoint { codepoint: 0xFF33, name: "FULLWIDTH LATIN CAPITAL LETTER S", aliases: &[] },
        Codepoint { codepoint: 0xFF34, name: "FULLWIDTH LATIN CAPITAL LETTER T", aliases: &[] },
        Codepoint { codepoint: 0xFF35, name: "FULLWIDTH LATIN CAPITAL LETTER U", aliases: &[] },
        Codepoint { codepoint: 0xFF36, name: "FULLWIDTH LATIN CAPITAL LETTER V", aliases: &[] },
        Codepoint { codepoint: 0xFF37, name: "FULLWIDTH LATIN CAPITAL LETTER W", aliases: &[] },
        Codepoint { codepoint: 0xFF38, name: "FULLWIDTH LATIN CAPITAL LETTER X", aliases: &[] },
        Codepoint { codepoint: 0xFF39, name: "FULLWIDTH LATIN CAPITAL LETTER Y", aliases: &[] },
        Codepoint { codepoint: 0xFF3A, name: "FULLWIDTH LATIN CAPITAL LETTER Z", aliases: &[] },
        Codepoint { codepoint: 0xFF3B, name: "FULLWIDTH LEFT SQUARE BRACKET", aliases: &["FULLWIDTH OPENING SQUARE BRACKET"] },
        Codepoint { codepoint: 0xFF3C, name: "FULLWIDTH REVERSE SOLIDUS", aliases: &["FULLWIDTH BACKSLASH"] },
    ];
    assert(v@ =~= codepoint_table_417());
    v
}

pub open spec fn codepoint_table_418() -> Seq<Codepoint> {
    seq![
        Codepoint { codepoint: 0xFF3D, name: "FULLWIDTH RIGHT SQUARE BRACKET", aliases: &["FULLWIDTH CLOSING SQUARE BRACKET"] },
        Codepoint { codepoint: 0xFF3E, name: "FULLWIDTH CIRCUMFLEX ACCENT", aliases: &["FULLWIDTH SPACING CIRCUMFLEX"] },
        Codepoint { codepoint: 0xFF3F, name: "FULLWIDTH LOW LINE", aliases: &["FULLWIDTH SPACING UNDERSCORE"] },
        Codepoint { codepoint: 0xFF40, name: "FULLWIDTH GRAVE ACCENT", aliases: &["FULLWIDTH SPACING GRAVE"] },
        Codepoint { codepoint: 0xFF41, name: "FULLWIDTH LATIN SMALL LETTER A", aliases: &[] },
        Codepoint { codepoint: 0xFF42, name: "FULLWIDTH LATIN SMALL LETTER B", aliases: &[] },
        Codepoint { codepoint: 0xFF43, name: "FULLWIDTH LATIN SMALL LETTER C", aliases: &[] },
        Codepoint { codepoint: 0xFF44, name: "FULLWIDTH LATIN SMALL LETTER D", aliases: &[] },
        Codepoint { codepoint: 0xFF45, name: "FULLWIDTH LATIN SMALL LETTER E", aliases: &[] },
        Codepoint { codepoint: 0xFF46, name: "FULLWIDTH LATIN SMALL LETTER F", aliases: &[] },
        Codepoint { codepoint: 0xFF47, name: "FULLWIDTH LATIN SMALL LETTER G", aliases: &[] },
        Codepoint { codepoint: 0xFF48, name: "FULLWIDTH LATIN SMALL LETTER H", aliases: &[] },
        Codepoint { codepoint: 0xFF49, name: "FULLWIDTH LATIN SMALL LETTER I", aliases: &[] },
        Codepoint { codepoint: 0xFF4A, name: "FULLWIDTH LATIN SMALL LETTER J", aliases: &[] },
        Codepoint { codepoint: 0xFF4B, name: "FULLWIDTH LATIN SMALL LETTER K", aliases: &[] },
        Codepoint { codepoint: 0xFF4C, name: "FULLWIDTH LATIN SMALL LETTER L", aliases: &[] },
        Codepoint { codepoint: 0xFF4D, name: "FULLWIDTH LATIN SMALL LETTER M", aliases: &[] },
        Codepoint { codepoint: 0xFF4E, name: "FULLWIDTH LATIN SMALL LETTER N", aliases: &[] },
        Codepoint { codepoint: 0xFF4F, name: "FULLWIDTH LATIN SMALL LETTER O", aliases: &[] },
        Codepoint { codepoint: 0xFF50, name: "FULLWIDTH LATIN SMALL LETTER P", aliases: &[] },
        Codepoint { codepoint: 0xFF51, name: "FULLWIDTH LATIN SMALL LETTER Q", aliases: &[] },
        Codepoint { codepoint: 0xFF52, name: "FULLWIDTH LATIN SMALL LETTER R", aliases: &[] },
        Codepoint { codepoint: 0xFF53, name: "FULLWIDTH LATIN SMALL LETTER S", aliases: &[] },
        Codepoint { codepoint: 0xFF54, name: "FULLWIDTH LATIN SMALL LETTER T", aliases: &[] },
        Codepoint { codepoint: 0xFF55, name: "FULLWIDTH LATIN SMALL LETTER U", aliases: &[] },
        Codepoint { codepoint: 0xFF56, name: "FULLWIDTH LATIN SMALL LETTER V", aliases: &[] },
        Codepoint { codepoint: 0xFF57, name: "FULLWIDTH LATIN SMALL LETTER W", aliases: &[] },
        Codepoint { codepoint: 0xFF58, name: "FULLWIDTH LATIN SMALL LETTER X", aliases: &[] },
        Codepoint { codepoint: 0xFF59, name: "FULLWIDTH LATIN SMALL LETTER Y", aliases: &[] },
        Codepoint { codepoint: 0xFF5A, name: "FULLWIDTH LATIN SMALL LETTER Z", aliases: &[] },
        Codepoint { codepoint: 0xFF5B, name: "FULLWIDTH LEFT CURLY BRACKET", aliases: &["FULLWIDTH OPENING CURLY BRACKET"] },
        Codepoint { codepoint: 0xFF5C, name: "FULLWIDTH VERTICAL LINE", aliases: &["FULLWIDTH VERTICAL BAR"] },
        Codepoint { codepoint: 0xFF5D, name: "FULLWIDTH RIGHT CURLY BRACKET", aliases: &["FULLWIDTH CLOSING CURLY BRACKET"] },
        Codepoint { codepoint: 0xFF5E, name: "FULLWIDTH TILDE", aliases: &["FULLWIDTH SPACING TILDE"] },
        Codepoint { codepoint: 0xFF5F, name: "FULLWIDTH LEFT WHITE PARENTHESIS", aliases: &[] },
        Codepoint { codepoint: 0xFF60, name: "FULLWIDTH RIGHT WHITE PARENTHESIS", aliases: &[] },
        Codepoint { codepoint: 0xFF61, name: "HALFWIDTH IDEOGRAPHIC FULL STOP", aliases: &["HALFWIDTH IDEOGRAPHIC PERIOD"] },
        Codepoint { codepoint: 0xFF62, name: "HALFWIDTH LEFT CORNER BRACKET", aliases: &["HALFWIDTH OPENING CORNER BRACKET"] },
        Codepoint { codepoint: 0xFF63, name: "HALFWIDTH RIGHT CORNER BRACKET", aliases: &["HALFWIDTH CLOSING CORNER BRACKET"] },
        Codepoint { codepoint: 0xFF64, name: "HALFWIDTH IDEOGRAPHIC COMMA", aliases: &[] },
    ]
}

fn all_codepoints_418() -> (v: Vec<Codepoint>)
    ensures
        v@ == codepoint_table_418(),
{
    let v = vec![
        Codepoint { codepoint: 0xFF3D, name: "FULLWIDTH RIGHT SQUARE BRACKET", aliases: &["FULLWIDTH CLOSING SQUARE BRACKET"] },
        Codepoint { codepoint: 0xFF3E, name: "FULLWIDTH CIRCUMFLEX ACCENT", aliases: &["FULLWIDTH SPACING CIRCUMFLEX"] },
        Codepoint { codepoint: 0xFF3F, name: "FULLWIDTH LOW LINE", aliases: &["FULLWIDTH SPACING UNDERSCORE"] },
        Codepoint { codepoint: 0xFF40, name: "FULLWIDTH GRAVE ACCENT", aliases: &["FULLWIDTH SPACING GRAVE"] },
        Codepoint { codepoint: 0xFF41, name: "FULLWIDTH LATIN SMALL LETTER A", aliases: &[] },
        Codepoint { codepoint: 0xFF42, name: "FULLWIDTH LATIN SMALL LETTER B", aliases: &[] },
        Codepoint { codepoint: 0xFF43, name: "FULLWIDTH LATIN SMALL LETTER C", aliases: &[] },
        Codepoint { codepoint: 0xFF44, name: "FULLWIDTH LATIN SMALL LETTER D", aliases: &[] },
        Codepoint { codepoint: 0xFF45, name: "FULLWIDTH LATIN SMALL LETTER E", aliases: &[] },
        Codepoint { codepoint: 0xFF46, name: "FULLWIDTH LATIN SMALL LETTER F", aliases: &[] },
        Codepoint { codepoint: 0xFF47, name: "FULLWIDTH LATIN SMALL LETTER G", aliases: &[] },
        Codepoint { codepoint: 0xFF48, name: "FULLWIDTH LATIN SMALL LETTER H", aliases: &[] },
        Codepoint { codepoint: 0xFF49, name: "FULLWIDTH LATIN SMALL LETTER I", aliases: &[] },
        Codepoint { codepoint: 0xFF4A, name: "FULLWIDTH LATIN SMALL LETTER J", aliases: &[] },
        Codepoint { codepoint: 0xFF4B, name: "FULLWIDTH LATIN SMALL LETTER K", aliases: &[] },
        Codepoint { codepoint: 0xFF4C, name: "FULLWIDTH LATIN SMALL LETTER L", aliases: &[] },
        Codepoint { codepoint: 0xFF4D, name: "FULLWIDTH LATIN SMALL LETTER M", aliases: &[] },
        Codepoint { codepoint: 0xFF4E, name: "FULLWIDTH LATIN SMALL LETTER N", aliases: &[] },
        Codepoint { codepoint: 0xFF4F, name: "FULLWIDTH LATIN SMALL LETTER O", aliases: &[] },
        Codepoint { codepoint: 0xFF50, name: "FULLWIDTH LATIN SMALL LETTER P", aliases: &[] },
        Codepoint { codepoint: 0xFF51, name: "FULLWIDTH LATIN SMALL LETTER Q", aliases: &[] },
        Codepoint { codepoint: 0xFF52, name: "FULLWIDTH LATIN SMALL LETTER R", aliases: &[] },
        Codepoint { codepoint: 0xFF53, name: "FULLWIDTH LATIN SMALL LETTER S", aliases: &[] },
        Codepoint { codepoint: 0xFF54, name: "FULLWIDTH LATIN SMALL LETTER T", aliases: &[] },
        Codepoint { codepoint: 0xFF55, name: "FULLWIDTH LATIN SMALL LETTER U", aliases: &[] },
        Codepoint { codepoint: 0xFF56, name: "FULLWIDTH LATIN SMALL LETTER V", aliases: &[] },
        Codepoint { codepoint: 0xFF57, name: "FULLWIDTH LATIN SMALL LETTER W", aliases: &[] },
        Codepoint { codepoint: 0xFF58, name: "FULLWIDTH LATIN SMALL LETTER X", aliases: &[] },
        Codepoint { codepoint: 0xFF59, name: "FULLWIDTH LATIN SMALL LETTER Y", aliases: &[] },
        Codepoint { codepoint: 0xFF5A, name: "FULLWIDTH LATIN SMALL LETTER Z", aliases: &[] },
        Codepoint { codepoint: 0xFF5B, name: "FULLWIDTH LEFT CURLY BRACKET", aliases: &["FULLWIDTH OPENING CURLY BRACKET"] },
        Codepoint { codepoint: 0xFF5C, name: "FULLWIDTH VERTICAL LINE", aliases: &["FULLWIDTH VERTICAL BAR"] },
        Codepoint { codepoint: 0xFF5D, name: "FULLWIDTH RIGHT CURLY BRACKET", aliases: &["FULLWIDTH CLOSING CURLY BRACKET"] },
        Codepoint { codepoint: 0xFF5E, name: "FULLWIDTH TILDE", aliases: &["FULLWIDTH SPACING TILDE"] },
        Codepoint { codepoint: 0xFF5F, name: "FULLWIDTH LEFT WHITE PARENTHESIS", aliases: &[] },
        Codepoint { codepoint: 0xFF60, name: "FULLWIDTH RIGHT WHITE PARENTHESIS", aliases: &[] },
        Codepoint { codepoint: 0xFF61, name: "HALFWIDTH IDEOGRAPHIC FULL STOP", aliases: &["HALFWIDTH IDEOGRAPHIC PERIOD"] },
        Codepoint { codepoint: 0xFF62, name: "HALFWIDTH LEFT CORNER BRACKET", aliases: &["HALFWIDTH OPENING CORNER BRACKET"] },
        Codepoint { codepoint: 0xFF63, name: "HALFWIDTH RIGHT CORNER BRACKET", aliases: &["HALFWIDTH CLOSING CORNER BRACKET"] },
        Codepoint { codepoint: 0xFF64, name: "HALFWIDTH IDEOGRAPHIC COMMA", aliases: &[] },
    ];
    assert(v@ =~= codepoint_table_418());
    v
}

pub open spec fn codepoint_table_419() -> Seq<Codepoint> {
    seq![
        Codepoint { codepoint: 0xFF65, name: "HALFWIDTH KATAKANA MIDDLE DOT", aliases: &[] },
        Codepoint { codepoint: 0xFF66, name: "HALFWIDTH KATAKANA LETTER WO", aliases: &[] },
        Codepoint { codepoint: 0xFF67, name: "HALFWIDTH KATAKANA LETTER SMALL A", aliases: &[] },
        Codepoint { codepoint: 0xFF68, name: "HALFWIDTH KATAKANA LETTER SMALL I", aliases: &[] },
        Codepoint { codepoint: 0xFF69, name: "HALFWIDTH KATAKANA LETTER SMALL U", aliases: &[] },
        Codepoint { codepoint: 0xFF6A, name: "HALFWIDTH KATAKANA LETTER SMALL E", aliases: &[] },
        Codepoint { codepoint: 0xFF6B, name: "HALFWIDTH KATAKANA LETTER SMALL O", aliases: &[] },
        Codepoint { codepoint: 0xFF6C, name: "HALFWIDTH KATAKANA LETTER SMALL YA", aliases: &[] },
        Codepoint { codepoint: 0xFF6D, name: "HALFWIDTH KATAKANA LETTER SMALL YU", aliases: &[] },
        Codepoint { codepoint: 0xFF6E, name: "HALFWIDTH KATAKANA LETTER SMALL YO", aliases: &[] },
        Codepoint { codepoint: 0xFF6F, name: "HALFWIDTH KATAKANA LETTER SMALL TU", aliases: &[] },
        Codepoint { codepoint: 0xFF70, name: "HALFWIDTH KATAKANA-HIRAGANA PROLONGED SOUND MARK", aliases: &[] },
        Codepoint { codepoint: 0xFF71, name: "HALFWIDTH KATAKANA LETTER A", aliases: &[] },
        Codepoint { codepoint: 0xFF72, name: "HALFWIDTH KATAKANA LETTER I", aliases: &[] },
        Codepoint { codepoint: 0xFF73, name: "HALFWIDTH KATAKANA LETTER U", aliases: &[] },
        Codepoint { codepoint: 0xFF74, name: "HALFWIDTH KATAKANA LETTER E", aliases: &[] },
        Codepoint { codepoint: 0xFF75, name: "HALFWIDTH KATAKANA LETTER O", aliases: &[] },
        Codepoint { codepoint: 0xFF76, name: "HALFWIDTH KATAKANA LETTER KA", aliases: &[] },
        Codepoint { codepoint: 0xFF77, name: "HALFWIDTH KATAKANA LETTER KI", aliases: &[] },
        Codepoint { codepoint: 0xFF78, name: "HALFWIDTH KATAKANA LETTER KU", aliases: &[] },
        Codepoint { codepoint: 0xFF79, name: "HALFWIDTH KATAKANA LETTER KE", aliases: &[] },
        Codepoint { codepoint: 0xFF7A, name: "HALFWIDTH KATAKANA LETTER KO", aliases: &[] },
        Codepoint { codepoint: 0xFF7B, name: "HALFWIDTH KATAKANA LETTER SA", aliases: &[] },
        Codepoint { codepoint: 0xFF7C, name: "HALFWIDTH KATAKANA LETTER SI", aliases: &[] },
        Codepoint { codepoint: 0xFF7D, name: "HALFWIDTH KATAKANA LETTER SU", aliases: &[] },
        Codepoint { codepoint: 0xFF7E, name: "HALFWIDTH KATAKANA LETTER SE", aliases: &[] },
        Codepoint { codepoint: 0xFF7F, name: "HALFWIDTH KATAKANA LETTER SO", aliases: &[] },
        Codepoint { codepoint: 0xFF80, name: "HALFWIDTH KATAKANA LETTER TA", aliases: &[] },
        Codepoint { codepoint: 0xFF81, name: "HALFWIDTH KATAKANA LETTER TI", aliases: &[] },
        Codepoint { codepoint: 0xFF82, name: "HALFWIDTH KATAKANA LETTER TU", aliases: &[] },
        Codepoint { codepoint: 0xFF83, name: "HALFWIDTH KATAKANA LETTER TE", aliases: &[] },
        Codepoint { codepoint: 0xFF84, name: "HALFWIDTH KATAKANA LETTER TO", aliases: &[] },
        Codepoint { codepoint: 0xFF85, name: "HALFWIDTH KATAKANA LETTER NA", aliases: &[] },
        Codepoint { codepoint: 0xFF86, name: "HALFWIDTH KATAKANA LETTER NI", aliases: &[] },
        Codepoint { codepoint: 0xFF87, name: "HALFWIDTH KATAKANA LETTER NU", aliases: &[] },
        Codepoint { codepoint: 0xFF88, name: "HALFWIDTH KATAKANA LETTER NE", aliases: &[] },
        Codepoint { codepoint: 0xFF89, name: "HALFWIDTH KATAKANA LETTER NO", aliases: &[] },
        Codepoint { codepoint: 0xFF8A, name: "HALFWIDTH KATAKANA LETTER HA", aliases: &[] },
        Codepoint { codepoint: 0xFF8B, name: "HALFWIDTH KATAKANA LETTER HI", aliases: &[] },
        Codepoint { codepoint: 0xFF8C, name: "HALFWIDTH KATAKANA LETTER HU", aliases: &[] },
    ]
}

fn all_codepoints_419() -> (v: Vec<Codepoint>)
    ensures
        v@ == codepoint_table_419(),
{
    let v = vec![
        Codepoint { codepoint: 0xFF65, name: "HALFWIDTH KATAKANA MIDDLE DOT", aliases: &[] },
        Codepoint { codepoint: 0xFF66, name: "HALFWIDTH KATAKANA LETTER WO", aliases: &[] },
        Codepoint { codepoint: 0xFF67, name: "HALFWIDTH KATAKANA LETTER SMALL A", aliases: &[] },
        Codepoint { codepoint: 0xFF68, name: "HALFWIDTH KATAKANA LETTER SMALL I", aliases: &[] },
        Codepoint { codepoint: 0xFF69, name: "HALFWIDTH KATAKANA LETTER SMALL U", aliases: &[] },
        Codepoint { codepoint: 0xFF6A, name: "HALFWIDTH KATAKANA LETTER SMALL E", aliases: &[] },
        Codepoint { codepoint: 0xFF6B, name: "HALFWIDTH KATAKANA LETTER SMALL O", aliases: &[] },
        Codepoint { codepoint: 0xFF6C, name: "HALFWIDTH KATAKANA LETTER SMALL YA", aliases: &[] },
        Codepoint { codepoint: 0xFF6D, name: "HALFWIDTH KATAKANA LETTER SMALL YU", aliases: &[] },
        Codepoint { codepoint: 0xFF6E, name: "HALFWIDTH KATAKANA LETTER SMALL YO", aliases: &[] },
        Codepoint { codepoint: 0xFF6F, name: "HALFWIDTH KATAKANA LETTER SMALL TU", aliases: &[] },
        Codepoint { codepoint: 0xFF70, name: "HALFWIDTH KATAKANA-HIRAGANA PROLONGED SOUND MARK", aliases: &[] },
        Codepoint { codepoint: 0xFF71, name: "HALFWIDTH KATAKANA LETTER A", aliases: &[] },
        Codepoint { codepoint: 0xFF72, name: "HALFWIDTH KATAKANA LETTER I", aliases: &[] },
        Codepoint { codepoint: 0xFF73, name: "HALFWIDTH KATAKANA LETTER U", aliases: &[] },
        Codepoint { codepoint: 0xFF74, name: "HALFWIDTH KATAKANA LETTER E", aliases: &[] },
        Codepoint { codepoint: 0xFF75, name: "HALFWIDTH KATAKANA LETTER O", aliases: &[] },
        Codepoint { codepoint: 0xFF76, name: "HALFWIDTH KATAKANA LETTER KA", aliases: &[] },
        Codepoint { codepoint: 0xFF77, name: "HALFWIDTH KATAKANA LETTER KI", aliases: &[] },
        Codepoint { codepoint: 0xFF78, name: "HALFWIDTH KATAKANA LETTER KU", aliases: &[] },
        Codepoint { codepoint: 0xFF79, name: "HALFWIDTH KATAKANA LETTER KE", aliases: &[] },
        Codepoint { codepoint: 0xFF7A, name: "HALFWIDTH KATAKANA LETTER KO", aliases: &[] },
        Codepoint { codepoint: 0xFF7B, name: "HALFWIDTH KATAKANA LETTER SA", aliases: &[] },
        Codepoint { codepoint: 0xFF7C, name: "HALFWIDTH KATAKANA LETTER SI", aliases: &[] },
        Codepoint { codepoint: 0xFF7D, name: "HALFWIDTH KATAKANA LETTER SU", aliases: &[] },
        Codepoint { codepoint: 0xFF7E, name: "HALFWIDTH KATAKANA LETTER SE", aliases: &[] },
        Codepoint { codepoint: 0xFF7F, name: "HALFWIDTH KATAKANA LETTER SO", aliases: &[] },
        Codepoint { codepoint: 0xFF80, name: "HALFWIDTH KATAKANA LETTER TA", aliases: &[] },
        Codepoint { codepoint: 0xFF81, name: "HALFWIDTH KATAKANA LETTER TI", aliases: &[] },
        Codepoint { codepoint: 0xFF82, name: "HALFWIDTH KATAKANA LETTER TU", aliases: &[] },
        Codepoint { codepoint: 0xFF83, name: "HALFWIDTH KATAKANA LETTER TE", aliases: &[] },
        Codepoint { codepoint: 0xFF84, name: "HALFWIDTH KATAKANA LETTER TO", aliases: &[] },
        Codepoint { codepoint: 0xFF85, name: "HALFWIDTH KATAKANA LETTER NA", aliases: &[] },
        Codepoint { codepoint: 0xFF86, name: "HALFWIDTH KATAKANA LETTER NI", aliases: &[] },
        Codepoint { codepoint: 0xFF87, name: "HALFWIDTH KATAKANA LETTER NU", aliases: &[] },
        Codepoint { codepoint: 0xFF88, name: "HALFWIDTH KATAKANA LETTER NE", aliases: &[] },
        Codepoint { codepoint: 0xFF89, name: "HALFWIDTH KATAKANA LETTER NO", aliases: &[] },
        Codepoint { codepoint: 0xFF8A, name: "HALFWIDTH KATAKANA LETTER HA", aliases: &[] },
        Codepoint { codepoint: 0xFF8B, name: "HALFWIDTH KATAKANA LETTER HI", aliases: &[] },
        Codepoint { codepoint: 0xFF8C, name: "HALFWIDTH KATAKANA LETTER HU", aliases: &[] },
    ];
    assert(v@ =~= codepoint_table_419());
    v
}

/// The entries from position 16000 of the table, 800 at most.
pub open spec fn codepoint_group_20() -> Seq<Codepoint> {
    codepoint_table_400() + codepoint_table_401() + codepoint_table_402() + codepoint_table_403() + codepoint_table_404() + codepoint_table_405() + codepoint_table_406() + codepoint_table_407() + codepoint_table_408() + codepoint_table_409() + codepoint_table_410() + codepoint_table_411() + codepoint_table_412() + codepoint_table_413() + codepoint_table_414() + codepoint_table_415() + codepoint_table_416() + codepoint_table_417() + codepoint_table_418() + codepoint_table_419()
}

pub fn all_codepoints_group_20() -> (v: Vec<Codepoint>)
    ensures
        v@ == codepoint_group_20(),
{
    let mut v = all_codepoints_400();
    let mut part = all_codepoints_401();
    v.append(&mut part);
    let mut part = all_codepoints_402();
    v.append(&mut part);
    let mut part = all_codepoints_403();
    v.append(&mut part);
    let mut part = all_codepoints_404();
    v.append(&mut part);
    let mut part = all_codepoints_405();
    v.append(&mut part);
    let mut part = all_codepoints_406();
    v.append(&mut part);
    let mut part = all_codepoints_407();
    v.append(&mut part);
    let mut part = all_codepoints_408();
    v.append(&mut part);
    let mut part = all_codepoints_409();
    v.append(&mut part);
    let mut part = all_codepoints_410();
    v.append(&mut part);
    let mut part = all_codepoints_411();
    v.append(&mut part);
    let mut part = all_codepoints_412();
    v.append(&mut part);
    let mut part = all_codepoints_413();
    v.append(&mut part);
    let mut part = all_codepoints_414();
    v.append(&mut part);
    let mut part = all_codepoints_415();
    v.append(&mut part);
    let mut part = all_codepoints_416();
    v.append(&mut part);
    let mut part = all_codepoints_417();
    v.append(&mut part);
    let mut part = all_codepoints_418();
    v.append(&mut part);
    let mut part = all_codepoints_419();
    v.append(&mut part);
    v
}

pub open spec fn codepoint_table_420() -> Seq<Codepoint> {
    seq![
        Codepoint { codepoint: 0xFF8D, name: "HALFWIDTH KATAKANA LETTER HE", aliases: &[] },
        Codepoint { codepoint: 0xFF8E, name: "HALFWIDTH KATAKANA LETTER HO", aliases: &[] },
        Codepoint { codepoint: 0xFF8F, name: "HALFWIDTH KATAKANA LETTER MA", aliases: &[] },
        Codepoint { codepoint: 0xFF90, name: "HALFWIDTH KATAKANA LETTER MI", aliases: &[] },
        Codepoint { codepoint: 0xFF91, name: "HALFWIDTH KATAKANA LETTER MU", aliases: &[] },
        Codepoint { codepoint: 0xFF92, name: "HALFWIDTH KATAKANA LETTER ME", aliases: &[] },
        Codepoint { codepoint: 0xFF93, name: "HALFWIDTH KATAKANA LETTER MO", aliases: &[] },
        Codepoint { codepoint: 0xFF94, name: "HALFWIDTH KATAKANA LETTER YA", aliases: &[] },
        Codepoint { codepoint: 0xFF95, name: "HALFWIDTH KATAKANA LETTER YU", aliases: &[] },
        Codepoint { codepoint: 0xFF96, name: "HALFWIDTH KATAKANA LETTER YO", aliases: &[] },
        Codepoint { codepoint: 0xFF97, name: "HALFWIDTH KATAKANA LETTER RA", aliases: &[] },
        Codepoint { codepoint: 0xFF98, name: "HALFWIDTH KATAKANA LETTER RI", aliases: &[] },
        Codepoint { codepoint: 0xFF99, name: "HALFWIDTH KATAKANA LETTER RU", aliases: &[] },
        Codepoint { codepoint: 0xFF9A, name: "HALFWIDTH KATAKANA LETTER RE", aliases: &[] },
        Codepoint { codepoint: 0xFF9B, name: "HALFWIDTH KATAKANA LETTER RO", aliases: &[] },
        Codepoint { codepoint: 0xFF9C, name: "HALFWIDTH KATAKANA LETTER WA", aliases: &[] },
        Codepoint { codepoint: 0xFF9D, name: "HALFWIDTH KATAKANA LETTER N", aliases: &[] },
        Codepoint { codepoint: 0xFF9E, name: "HALFWIDTH KATAKANA VOICED SOUND MARK", aliases: &[] },
        Codepoint { codepoint: 0xFF9F, name: "HALFWIDTH KATAKANA SEMI-VOICED SOUND MARK", aliases: &[] },
        Codepoint { codepoint: 0xFFA0, name: "HALFWIDTH HANGUL FILLER", aliases: &["HALFWIDTH HANGUL CAE OM"] },
        Codepoint { codepoint: 0xFFA1, name: "HALFWIDTH HANGUL LETTER KIYEOK", aliases: &["HALFWIDTH HANGUL LETTER GIYEOG"] },
        Codepoint { codepoint: 0xFFA2, name: "HALFWIDTH HANGUL LETTER SSANGKIYEOK", aliases: &["HALFWIDTH HANGUL LETTER SSANG GIYEOG"] },
        Codepoint { codepoint: 0xFFA3, name: "HALFWIDTH HANGUL LETTER KIYEOK-SIOS", aliases: &["HALFWIDTH HANGUL LETTER GIYEOG SIOS"] },
        Codepoint { codepoint: 0xFFA4, name: "HALFWIDTH HANGUL LETTER NIEUN", aliases: &[] },
        Codepoint { codepoint: 0xFFA5, name: "HALFWIDTH HANGUL LETTER NIEUN-CIEUC", aliases: &["HALFWIDTH HANGUL LETTER NIEUN JIEUJ"] },
        Codepoint { codepoint: 0xFFA6, name: "HALFWIDTH HANGUL LETTER NIEUN-HIEUH", aliases: &["HALFWIDTH HANGUL LETTER NIEUN HIEUH"] },
        Codepoint { codepoint: 0xFFA7, name: "HALFWIDTH HANGUL LETTER TIKEUT", aliases: &["HALFWIDTH HANGUL LETTER DIGEUD"] },
        Codepoint { codepoint: 0xFFA8, name: "HALFWIDTH HANGUL LETTER SSANGTIKEUT", aliases: &["HALFWIDTH HANGUL LETTER SSANG DIGEUD"] },
        Codepoint { codepoint: 0xFFA9, name: "HALFWIDTH HANGUL LETTER RIEUL", aliases: &["HALFWIDTH HANGUL LETTER LIEUL"] },
        Codepoint { codepoint: 0xFFAA, name: "HALFWIDTH HANGUL LETTER RIEUL-KIYEOK", aliases: &["HALFWIDTH HANGUL LETTER LIEUL GIYEOG"] },
        Codepoint { codepoint: 0xFFAB, name: "HALFWIDTH HANGUL LETTER RIEUL-MIEUM", aliases: &["HALFWIDTH HANGUL LETTER LIEUL MIEUM"] },
        Codepoint { codepoint: 0xFFAC, name: "HALFWIDTH HANGUL LETTER RIEUL-PIEUP", aliases: &["HALFWIDTH HANGUL LETTER LIEUL BIEUB"] },
        Codepoint { codepoint: 0xFFAD, name: "HALFWIDTH HANGUL LETTER RIEUL-SIOS", aliases: &["HALFWIDTH HANGUL LETTER LIEUL SIOS"] },
        Codepoint { codepoint: 0xFFAE, name: "HALFWIDTH HANGUL LETTER RIEUL-THIEUTH", aliases: &["HALFWIDTH HANGUL LETTER LIEUL TIEUT"] },
        Codepoint { codepoint: 0xFFAF, name: "HALFWIDTH HANGUL LETTER RIEUL-PHIEUPH", aliases: &["HALFWIDTH HANGUL LETTER LIEUL PIEUP"] },
        Codepoint { codepoint: 0xFFB0, name: "HALFWIDTH HANGUL LETTER RIEUL-HIEUH", aliases: &["HALFWIDTH HANGUL LETTER LIEUL HIEUH"] },
        Codepoint { codepoint: 0xFFB1, name: "HALFWIDTH HANGUL LETTER MIEUM", aliases: &[] },
        Codepoint { codepoint: 0xFFB2, name: "HALFWIDTH HANGUL LETTER PIEUP", aliases: &["HALFWIDTH HANGUL LETTER BIEUB"] },
        Codepoint { codepoint: 0xFFB3, name: "HALFWIDTH HANGUL LETTER SSANGPIEUP", aliases: &["HALFWIDTH HANGUL LETTER SSANG BIEUB"] },
        Codepoint { codepoint: 0xFFB4, name: "HALFWIDTH HANGUL LETTER PIEUP-SIOS", aliases: &["HALFWIDTH HANGUL LETTER BIEUB SIOS"] },
    ]
}

fn all_codepoints_420() -> (v: Vec<Codepoint>)
    ensures
        v@ == codepoint_table_420(),
{
    let v = vec![
        Codepoint { codepoint: 0xFF8D, name: "HALFWIDTH KATAKANA LETTER HE", aliases: &[] },
        Codepoint { codepoint: 0xFF8E, name: "HALFWIDTH KATAKANA LETTER HO", aliases: &[] },
        Codepoint { codepoint: 0xFF8F, name: "HALFWIDTH KATAKANA LETTER MA", aliases: &[] },
        Codepoint { codepoint: 0xFF90, name: "HALFWIDTH KATAKANA LETTER MI", aliases: &[] },
        Codepoint { codepoint: 0xFF91, name: "HALFWIDTH KATAKANA LETTER MU", aliases: &[] },
        Codepoint { codepoint: 0xFF92, name: "HALFWIDTH KATAKANA LETTER ME", aliases: &[] },
        Codepoint { codepoint: 0xFF93, name: "HALFWIDTH KATAKANA LETTER MO", aliases: &[] },
        Codepoint { codepoint: 0xFF94, name: "HALFWIDTH KATAKANA LETTER YA", aliases: &[] },
        Codepoint { codepoint: 0xFF95, name: "HALFWIDTH KATAKANA LETTER YU", aliases: &[] },
        Codepoint { codepoint: 0xFF96, name: "HALFWIDTH KATAKANA LETTER YO", aliases: &[] },
        Codepoint { codepoint: 0xFF97, name: "HALFWIDTH KATAKANA LETTER RA", aliases: &[] },
        Codepoint { codepoint: 0xFF98, name: "HALFWIDTH KATAKANA LETTER RI", aliases: &[] },
        Codepoint { codepoint: 0xFF99, name: "HALFWIDTH KATAKANA LETTER RU", aliases: &[] },
        Codepoint { codepoint: 0xFF9A, name: "HALFWIDTH KATAKANA LETTER RE", aliases: &[] },
        Codepoint { codepoint: 0xFF9B, name: "HALFWIDTH KATAKANA LETTER RO", aliases: &[] },
        Codepoint { codepoint: 0xFF9C, name: "HALFWIDTH KATAKANA LETTER WA", aliases: &[] },
        Codepoint { codepoint: 0xFF9D, name: "HALFWIDTH KATAKANA LETTER N", aliases: &[] },
        Codepoint { codepoint: 0xFF9E, name: "HALFWIDTH KATAKANA VOICED SOUND MARK", aliases: &[] },
        Codepoint { codepoint: 0xFF9F, name: "HALFWIDTH KATAKANA SEMI-VOICED SOUND MARK", aliases: &[] },
        Codepoint { codepoint: 0xFFA0, name: "HALFWIDTH HANGUL FILLER", aliases: &["HALFWIDTH HANGUL CAE OM"] },
        Codepoint { codepoint: 0xFFA1, name: "HALFWIDTH HANGUL LETTER KIYEOK", aliases: &["HALFWIDTH HANGUL LETTER GIYEOG"] },
        Codepoint { codepoint: 0xFFA2, name: "HALFWIDTH HANGUL LETTER SSANGKIYEOK", aliases: &["HALFWIDTH HANGUL LETTER SSANG GIYEOG"] },
        Codepoint { codepoint: 0xFFA3, name: "HALFWIDTH HANGUL LETTER KIYEOK-SIOS", aliases: &["HALFWIDTH HANGUL LETTER GIYEOG SIOS"] },
        Codepoint { codepoint: 0xFFA4, name: "HALFWIDTH HANGUL LETTER NIEUN", aliases: &[] },
        Codepoint { codepoint: 0xFFA5, name: "HALFWIDTH HANGUL LETTER NIEUN-CIEUC", aliases: &["HALFWIDTH HANGUL LETTER NIEUN JIEUJ"] },
        Codepoint { codepoint: 0xFFA6, name: "HALFWIDTH HANGUL LETTER NIEUN-HIEUH", aliases: &["HALFWIDTH HANGUL LETTER NIEUN HIEUH"] },
        Codepoint { codepoint: 0xFFA7, name: "HALFWIDTH HANGUL LETTER TIKEUT", aliases: &["HALFWIDTH HANGUL LETTER DIGEUD"] },
        Codepoint { codepoint: 0xFFA8, name: "HALFWIDTH HANGUL LETTER SSANGTIKEUT", aliases: &["HALFWIDTH HANGUL LETTER SSANG DIGEUD"] },
        Codepoint { codepoint: 0xFFA9, name: "HALFWIDTH HANGUL LETTER RIEUL", aliases: &["HALFWIDTH HANGUL LETTER LIEUL"] },
        Codepoint { codepoint: 0xFFAA, name: "HALFWIDTH HANGUL LETTER RIEUL-KIYEOK", aliases: &["HALFWIDTH HANGUL LETTER LIEUL GIYEOG"] },
        Codepoint { codepoint: 0xFFAB, name: "HALFWIDTH HANGUL LETTER RIEUL-MIEUM", aliases: &["HALFWIDTH HANGUL LETTER LIEUL MIEUM"] },
        Codepoint { codepoint: 0xFFAC, name: "HALFWIDTH HANGUL LETTER RIEUL-PIEUP", aliases: &["HALFWIDTH HANGUL LETTER LIEUL BIEUB"] },
        Codepoint { codepoint: 0xFFAD, name: "HALFWIDTH HANGUL LETTER RIEUL-SIOS", aliases: &["HALFWIDTH HANGUL LETTER LIEUL SIOS"] },
        Codepoint { codepoint: 0xFFAE, name: "HALFWIDTH HANGUL LETTER RIEUL-THIEUTH", aliases: &["HALFWIDTH HANGUL LETTER LIEUL TIEUT"] },
        Codepoint { codepoint: 0xFFAF, name: "HALFWIDTH HANGUL LETTER RIEUL-PHIEUPH", aliases: &["HALFWIDTH HANGUL LETTER LIEUL PIEUP"] },
        Codepoint { codepoint: 0xFFB0, name: "HALFWIDTH HANGUL LETTER RIEUL-HIEUH", aliases: &["HALFWIDTH HANGUL LETTER LIEUL HIEUH"] },
        Codepoint { codepoint: 0xFFB1, name: "HALFWIDTH HANGUL LETTER MIEUM", aliases: &[] },
        Codepoint { codepoint: 0xFFB2, name: "HALFWIDTH HANGUL LETTER PIEUP", aliases: &["HALFWIDTH HANGUL LETTER BIEUB"] },
        Codepoint { codepoint: 0xFFB3, name: "HALFWIDTH HANGUL LETTER SSANGPIEUP", aliases: &["HALFWIDTH HANGUL LETTER SSANG BIEUB"] },
        Codepoint { codepoint: 0xFFB4, name: "HALFWIDTH HANGUL LETTER PIEUP-SIOS", aliases: &["HALFWIDTH HANGUL LETTER BIEUB SIOS"] },
    ];
    assert(v@ =~= codepoint_table_420());
    v
}

pub open spec fn codepoint_table_421() -> Seq<Codepoint> {
    seq![
        Codepoint { codepoint: 0xFFB5, name: "HALFWIDTH HANGUL LETTER SIOS", aliases: &[] },
        Codepoint { codepoint: 0xFFB6, name: "HALFWIDTH HANGUL LETTER SSANGSIOS", aliases: &["HALFWIDTH HANGUL LETTER SSANG SIOS"] },
        Codepoint { codepoint: 0xFFB7, name: "HALFWIDTH HANGUL LETTER IEUNG", aliases: &[] },
        Codepoint { codepoint: 0xFFB8, name: "HALFWIDTH HANGUL LETTER CIEUC", aliases: &["HALFWIDTH HANGUL LETTER JIEUJ"] },
        Codepoint { codepoint: 0xFFB9, name: "HALFWIDTH HANGUL LETTER SSANGCIEUC", aliases: &["HALFWIDTH HANGUL LETTER SSANG JIEUJ"] },
        Codepoint { codepoint: 0xFFBA, name: "HALFWIDTH HANGUL LETTER CHIEUCH", aliases: &["HALFWIDTH HANGUL LETTER CIEUC"] },
        Codepoint { codepoint: 0xFFBB, name: "HALFWIDTH HANGUL LETTER KHIEUKH", aliases: &["HALFWIDTH HANGUL LETTER KIYEOK"] },
        Codepoint { codepoint: 0xFFBC, name: "HALFWIDTH HANGUL LETTER THIEUTH", aliases: &["HALFWIDTH HANGUL LETTER TIEUT"] },
        Codepoint { codepoint: 0xFFBD, name: "HALFWIDTH HANGUL LETTER PHIEUPH", aliases: &["HALFWIDTH HANGUL LETTER PIEUP"] },
        Codepoint { codepoint: 0xFFBE, name: "HALFWIDTH HANGUL LETTER HIEUH", aliases: &[] },
        Codepoint { codepoint: 0xFFC2, name: "HALFWIDTH HANGUL LETTER A", aliases: &[] },
        Codepoint { codepoint: 0xFFC3, name: "HALFWIDTH HANGUL LETTER AE", aliases: &[] },
        Codepoint { codepoint: 0xFFC4, name: "HALFWIDTH HANGUL LETTER YA", aliases: &[] },
        Codepoint { codepoint: 0xFFC5, name: "HALFWIDTH HANGUL LETTER YAE", aliases: &[] },
        Codepoint { codepoint: 0xFFC6, name: "HALFWIDTH HANGUL LETTER EO", aliases: &[] },
        Codepoint { codepoint: 0xFFC7, name: "HALFWIDTH HANGUL LETTER E", aliases: &[] },
        Codepoint { codepoint: 0xFFCA, name: "HALFWIDTH HANGUL LETTER YEO", aliases: &[] },
        Codepoint { codepoint: 0xFFCB, name: "HALFWIDTH HANGUL LETTER YE", aliases: &[] },
        Codepoint { codepoint: 0xFFCC, name: "HALFWIDTH HANGUL LETTER O", aliases: &[] },
        Codepoint { codepoint: 0xFFCD, name: "HALFWIDTH HANGUL LETTER WA", aliases: &[] },
        Codepoint { codepoint: 0xFFCE, name: "HALFWIDTH HANGUL LETTER WAE", aliases: &[] },
        Codepoint { codepoint: 0xFFCF, name: "HALFWIDTH HANGUL LETTER OE", aliases: &[] },
        Codepoint { codepoint: 0xFFD2, name: "HALFWIDTH HANGUL LETTER YO", aliases: &[] },
        Codepoint { codepoint: 0xFFD3, name: "HALFWIDTH HANGUL LETTER U", aliases: &[] },
        Codepoint { codepoint: 0xFFD4, name: "HALFWIDTH HANGUL LETTER WEO", aliases: &[] },
        Codepoint { codepoint: 0xFFD5, name: "HALFWIDTH HANGUL LETTER WE", aliases: &[] },
        Codepoint { codepoint: 0xFFD6, name: "HALFWIDTH HANGUL LETTER WI", aliases: &[] },
        Codepoint { codepoint: 0xFFD7, name: "HALFWIDTH HANGUL LETTER YU", aliases: &[] },
        Codepoint { codepoint: 0xFFDA, name: "HALFWIDTH HANGUL LETTER EU", aliases: &[] },
        Codepoint { codepoint: 0xFFDB, name: "HALFWIDTH HANGUL LETTER YI", aliases: &[] },
        Codepoint { codepoint: 0xFFDC, name: "HALFWIDTH HANGUL LETTER I", aliases: &[] },
        Codepoint { codepoint: 0xFFE0, name: "FULLWIDTH CENT SIGN", aliases: &[] },
        Codepoint { codepoint: 0xFFE1, name: "FULLWIDTH POUND SIGN", aliases: &[] },
        Codepoint { codepoint: 0xFFE2, name: "FULLWIDTH NOT SIGN", aliases: &[] },
        Codepoint { codepoint: 0xFFE3, name: "FULLWIDTH MACRON", aliases: &["FULLWIDTH SPACING MACRON"] },
        Codepoint { codepoint: 0xFFE4, name: "FULLWIDTH BROKEN BAR", aliases: &["FULLWIDTH BROKEN VERTICAL BAR"] },
        Codepoint { codepoint: 0xFFE5, name: "FULLWIDTH YEN SIGN", aliases: &[] },
        Codepoint { codepoint: 0xFFE6, name: "FULLWIDTH WON SIGN", aliases: &[] },
        Codepoint { codepoint: 0xFFE8, name: "HALFWIDTH FORMS LIGHT VERTICAL", aliases: &[] },
        Codepoint { codepoint: 0xFFE9, name: "HALFWIDTH LEFTWARDS ARROW", aliases: &[] },
    ]
}

fn all_codepoints_421() -> (v: Vec<Codepoint>)
    ensures
        v@ == codepoint_table_421(),
{
    let v = vec![
        Codepoint { codepoint: 0xFFB5, name: "HALFWIDTH HANGUL LETTER SIOS", aliases: &[] },
        Codepoint { codepoint: 0xFFB6, name: "HALFWIDTH HANGUL LETTER SSANGSIOS", aliases: &["HALFWIDTH HANGUL LETTER SSANG SIOS"] },
        Codepoint { codepoint: 0xFFB7, name: "HALFWIDTH HANGUL LETTER IEUNG", aliases: &[] },
        Codepoint { codepoint: 0xFFB8, name: "HALFWIDTH HANGUL LETTER CIEUC", aliases: &["HALFWIDTH HANGUL LETTER JIEUJ"] },
        Codepoint { codepoint: 0xFFB9, name: "HALFWIDTH HANGUL LETTER SSANGCIEUC", aliases: &["HALFWIDTH HANGUL LETTER SSANG JIEUJ"] },
        Codepoint { codepoint: 0xFFBA, name: "HALFWIDTH HANGUL LETTER CHIEUCH", aliases: &["HALFWIDTH HANGUL LETTER CIEUC"] },
        Codepoint { codepoint: 0xFFBB, name: "HALFWIDTH HANGUL LETTER KHIEUKH", aliases: &["HALFWIDTH HANGUL LETTER KIYEOK"] },
        Codepoint { codepoint: 0xFFBC, name: "HALFWIDTH HANGUL LETTER THIEUTH", aliases: &["HALFWIDTH HANGUL LETTER TIEUT"] },
        Codepoint { codepoint: 0xFFBD, name: "HALFWIDTH HANGUL LETTER PHIEUPH", aliases: &["HALFWIDTH HANGUL LETTER PIEUP"] },
        Codepoint { codepoint: 0xFFBE, name: "HALFWIDTH HANGUL LETTER HIEUH", aliases: &[] },
        Codepoint { codepoint: 0xFFC2, name: "HALFWIDTH HANGUL LETTER A", aliases: &[] },
        Codepoint { codepoint: 0xFFC3, name: "HALFWIDTH HANGUL LETTER AE", aliases: &[] },
        Codepoint { codepoint: 0xFFC4, name: "HALFWIDTH HANGUL LETTER YA", aliases: &[] },
        Codepoint { codepoint: 0xFFC5, name: "HALFWIDTH HANGUL LETTER YAE", aliases: &[] },
        Codepoint { codepoint: 0xFFC6, name: "HALFWIDTH HANGUL LETTER EO", aliases: &[] },
        Codepoint { codepoint: 0xFFC7, name: "HALFWIDTH HANGUL LETTER E", aliases: &[] },
        Codepoint { codepoint: 0xFFCA, name: "HALFWIDTH HANGUL LETTER YEO", aliases: &[] },
        Codepoint { codepoint: 0xFFCB, name: "HALFWIDTH HANGUL LETTER YE", aliases: &[] },
        Codepoint { codepoint: 0xFFCC, name: "HALFWIDTH HANGUL LETTER O", aliases: &[] },
        Codepoint { codepoint: 0xFFCD, name: "HALFWIDTH HANGUL LETTER WA", aliases: &[] },
        Codepoint { codepoint: 0xFFCE, name: "HALFWIDTH HANGUL LETTER WAE", aliases: &[] },
        Codepoint { codepoint: 0xFFCF, name: "HALFWIDTH HANGUL LETTER OE", aliases: &[] },
        Codepoint { codepoint: 0xFFD2, name: "HALFWIDTH HANGUL LETTER YO", aliases: &[] },
        Codepoint { codepoint: 0xFFD3, name: "HALFWIDTH HANGUL LETTER U", aliases: &[] },
        Codepoint { codepoint: 0xFFD4, name: "HALFWIDTH HANGUL LETTER WEO", aliases: &[] },
        Codepoint { codepoint: 0xFFD5, name: "HALFWIDTH HANGUL LETTER WE", aliases: &[] },
        Codepoint { codepoint: 0xFFD6, name: "HALFWIDTH HANGUL LETTER WI", aliases: &[] },
        Codepoint { codepoint: 0xFFD7, name: "HALFWIDTH HANGUL LETTER YU", aliases: &[] },
        Codepoint { codepoint: 0xFFDA, name: "HALFWIDTH HANGUL LETTER EU", aliases: &[] },
        Codepoint { codepoint: 0xFFDB, name: "HALFWIDTH HANGUL LETTER YI", aliases: &[] },
        Codepoint { codepoint: 0xFFDC, name: "HALFWIDTH HANGUL LETTER I", aliases: &[] },
        Codepoint { codepoint: 0xFFE0, name: "FULLWIDTH CENT SIGN", aliases: &[] },
        Codepoint { codepoint: 0xFFE1, name: "FULLWIDTH POUND SIGN", aliases: &[] },
        Codepoint { codepoint: 0xFFE2, name: "FULLWIDTH NOT SIGN", aliases: &[] },
        Codepoint { codepoint: 0xFFE3, name: "FULLWIDTH MACRON", aliases: &["FULLWIDTH SPACING MACRON"] },
        Codepoint { codepoint: 0xFFE4, name: "FULLWIDTH BROKEN BAR", aliases: &["FULLWIDTH BROKEN VERTICAL BAR"] },
        Codepoint { codepoint: 0xFFE5, name: "FULLWIDTH YEN SIGN", aliases: &[] },
        Codepoint { codepoint: 0xFFE6, name: "FULLWIDTH WON SIGN", aliases: &[] },
        Codepoint { codepoint: 0xFFE8, name: "HALFWIDTH FORMS LIGHT VERTICAL", aliases: &[] },
        Codepoint { codepoint: 0xFFE9, name: "HALFWIDTH LEFTWARDS ARROW", aliases: &[] },
    ];
    assert(v@ =~= codepoint_table_421());
    v
}

pub open spec fn codepoint_table_422() -> Seq<Codepoint> {
    seq![
        Codepoint { codepoint: 0xFFEA, name: "HALFWIDTH UPWARDS ARROW", aliases: &[] },
        Codepoint { codepoint: 0xFFEB, name: "HALFWIDTH RIGHTWARDS ARROW", aliases: &[] },
        Codepoint { codepoint: 0xFFEC, name: "HALFWIDTH DOWNWARDS ARROW", aliases: &[] },
        Codepoint { codepoint: 0xFFED, name: "HALFWIDTH BLACK SQUARE", aliases: &[] },
        Codepoint { codepoint: 0xFFEE, name: "HALFWIDTH WHITE CIRCLE", aliases: &[] },
        Codepoint { codepoint: 0xFFF9, name: "INTERLINEAR ANNOTATION ANCHOR", aliases: &[] },
        Codepoint { codepoint: 0xFFFA, name: "INTERLINEAR ANNOTATION SEPARATOR", aliases: &[] },
        Codepoint { codepoint: 0xFFFB, name: "INTERLINEAR ANNOTATION TERMINATOR", aliases: &[] },
        Codepoint { codepoint: 0xFFFC, name: "OBJECT REPLACEMENT CHARACTER", aliases: &[] },
        Codepoint { codepoint: 0xFFFD, name: "REPLACEMENT CHARACTER", aliases: &[] },
        Codepoint { codepoint: 0x10000, name: "LINEAR B SYLLABLE B008 A", aliases: &[] },
        Codepoint { codepoint: 0x10001, name: "LINEAR B SYLLABLE B038 E", aliases: &[] },
        Codepoint { codepoint: 0x10002, name: "LINEAR B SYLLABLE B028 I", aliases: &[] },
        Codepoint { codepoint: 0x10003, name: "LINEAR B SYLLABLE B061 O", aliases: &[] },
        Codepoint { codepoint: 0x10004, name: "LINEAR B SYLLABLE B010 U", aliases: &[] },
        Codepoint { codepoint: 0x10005, name: "LINEAR B SYLLABLE B001 DA", aliases: &[] },
        Codepoint { codepoint: 0x10006, name: "LINEAR B SYLLABLE B045 DE", aliases: &[] },
        Codepoint { codepoint: 0x10007, name: "LINEAR B SYLLABLE B007 DI", aliases: &[] },
        Codepoint { codepoint: 0x10008, name: "LINEAR B SYLLABLE B014 DO", aliases: &[] },
        Codepoint { codepoint: 0x10009, name: "LINEAR B SYLLABLE B051 DU", aliases: &[] },
        Codepoint { codepoint: 0x1000A, name: "LINEAR B SYLLABLE B057 JA", aliases: &[] },
        Codepoint { codepoint: 0x1000B, name: "LINEAR B SYLLABLE B046 JE", aliases: &[] },
        Codepoint { codepoint: 0x1000D, name: "LINEAR B SYLLABLE B036 JO", aliases: &[] },
        Codepoint { codepoint: 0x1000E, name: "LINEAR B SYLLABLE B065 JU", aliases: &[] },
        Codepoint { codepoint: 0x1000F, name: "LINEAR B SYLLABLE B077 KA", aliases: &[] },
        Codepoint { codepoint: 0x10010, name: "LINEAR B SYLLABLE B044 KE", aliases: &[] },
        Codepoint { codepoint: 0x10011, name: "LINEAR B SYLLABLE B067 KI", aliases: &[] },
        Codepoint { codepoint: 0x10012, name: "LINEAR B SYLLABLE B070 KO", aliases: &[] },
        Codepoint { codepoint: 0x10013, name: "LINEAR B SYLLABLE B081 KU", aliases: &[] },
        Codepoint { codepoint: 0x10014, name: "LINEAR B SYLLABLE B080 MA", aliases: &[] },
        Codepoint { codepoint: 0x10015, name: "LINEAR B SYLLABLE B013 ME", aliases: &[] },
        Codepoint { codepoint: 0x10016, name: "LINEAR B SYLLABLE B073 MI", aliases: &[] },
        Codepoint { codepoint: 0x10017, name: "LINEAR B SYLLABLE B015 MO", aliases: &[] },
        Codepoint { codepoint: 0x10018, name: "LINEAR B SYLLABLE B023 MU", aliases: &[] },
        Codepoint { codepoint: 0x10019, name: "LINEAR B SYLLABLE B006 NA", aliases: &[] },
        Codepoint { codepoint: 0x1001A, name: "LINEAR B SYLLABLE B024 NE", aliases: &[] },
        Codepoint { codepoint: 0x1001B, name: "LINEAR B SYLLABLE B030 NI", aliases: &[] },
        Codepoint { codepoint: 0x1001C, name: "LINEAR B SYLLABLE B052 NO", aliases: &[] },
        Codepoint { codepoint: 0x1001D, name: "LINEAR B SYLLABLE B055 NU", aliases: &[] },
        Codepoint { codepoint: 0x1001E, name: "LINEAR B SYLLABLE B003 PA", aliases: &[] },
    ]
}

fn all_codepoints_422() -> (v: Vec<Codepoint>)
    ensures
        v@ == codepoint_table_422(),
{
    let v = vec![
        Codepoint { codepoint: 0xFFEA, name: "HALFWIDTH UPWARDS ARROW", aliases: &[] },
        Codepoint { codepoint: 0xFFEB, name: "HALFWIDTH RIGHTWARDS ARROW", aliases: &[] },
        Codepoint { codepoint: 0xFFEC, name: "HALFWIDTH DOWNWARDS ARROW", aliases: &[] },
        Codepoint { codepoint: 0xFFED, name: "HALFWIDTH BLACK SQUARE", aliases: &[] },
        Codepoint { codepoint: 0xFFEE, name: "HALFWIDTH WHITE CIRCLE", aliases: &[] },
        Codepoint { codepoint: 0xFFF9, name: "INTERLINEAR ANNOTATION ANCHOR", aliases: &[] },
        Codepoint { codepoint: 0xFFFA, name: "INTERLINEAR ANNOTATION SEPARATOR", aliases: &[] },
        Codepoint { codepoint: 0xFFFB, name: "INTERLINEAR ANNOTATION TERMINATOR", aliases: &[] },
        Codepoint { codepoint: 0xFFFC, name: "OBJECT REPLACEMENT CHARACTER", aliases: &[] },
        Codepoint { codepoint: 0xFFFD, name: "REPLACEMENT CHARACTER", aliases: &[] },
        Codepoint { codepoint: 0x10000, name: "LINEAR B SYLLABLE B008 A", aliases: &[] },
        Codepoint { codepoint: 0x10001, name: "LINEAR B SYLLABLE B038 E", aliases: &[] },
        Codepoint { codepoint: 0x10002, name: "LINEAR B SYLLABLE B028 I", aliases: &[] },
        Codepoint { codepoint: 0x10003, name: "LINEAR B SYLLABLE B061 O", aliases: &[] },
        Codepoint { codepoint: 0x10004, name: "LINEAR B SYLLABLE B010 U", aliases: &[] },
        Codepoint { codepoint: 0x10005, name: "LINEAR B SYLLABLE B001 DA", aliases: &[] },
        Codepoint { codepoint: 0x10006, name: "LINEAR B SYLLABLE B045 DE", aliases: &[] },
        Codepoint { codepoint: 0x10007, name: "LINEAR B SYLLABLE B007 DI", aliases: &[] },
        Codepoint { codepoint: 0x10008, name: "LINEAR B SYLLABLE B014 DO", aliases: &[] },
        Codepoint { codepoint: 0x10009, name: "LINEAR B SYLLABLE B051 DU", aliases: &[] },
        Codepoint { codepoint: 0x1000A, name: "LINEAR B SYLLABLE B057 JA", aliases: &[] },
        Codepoint { codepoint: 0x1000B, name: "LINEAR B SYLLABLE B046 JE", aliases: &[] },
        Codepoint { codepoint: 0x1000D, name: "LINEAR B SYLLABLE B036 JO", aliases: &[] },
        Codepoint { codepoint: 0x1000E, name: "LINEAR B SYLLABLE B065 JU", aliases: &[] },
        Codepoint { codepoint: 0x1000F, name: "LINEAR B SYLLABLE B077 KA", aliases: &[] },
        Codepoint { codepoint: 0x10010, name: "LINEAR B SYLLABLE B044 KE", aliases: &[] },
        Codepoint { codepoint: 0x10011, name: "LINEAR B SYLLABLE B067 KI", aliases: &[] },
        Codepoint { codepoint: 0x10012, name: "LINEAR B SYLLABLE B070 KO", aliases: &[] },
        Codepoint { codepoint: 0x10013, name: "LINEAR B SYLLABLE B081 KU", aliases: &[] },
        Codepoint { codepoint: 0x10014, name: "LINEAR B SYLLABLE B080 MA", aliases: &[] },
        Codepoint { codepoint: 0x10015, name: "LINEAR B SYLLABLE B013 ME", aliases: &[] },
        Codepoint { codepoint: 0x10016, name: "LINEAR B SYLLABLE B073 MI", aliases: &[] },
        Codepoint { codepoint: 0x10017, name: "LINEAR B SYLLABLE B015 MO", aliases: &[] },
        Codepoint { codepoint: 0x10018, name: "LINEAR B SYLLABLE B023 MU", aliases: &[] },
        Codepoint { codepoint: 0x10019, name: "LINEAR B SYLLABLE B006 NA", aliases: &[] },
        Codepoint { codepoint: 0x1001A, name: "LINEAR B SYLLABLE B024 NE", aliases: &[] },
        Codepoint { codepoint: 0x1001B, name: "LINEAR B SYLLABLE B030 NI", aliases: &[] },
        Codepoint { codepoint: 0x1001C, name: "LINEAR B SYLLABLE B052 NO", aliases: &[] },
        Codepoint { codepoint: 0x1001D, name: "LINEAR B SYLLABLE B055 NU", aliases: &[] },
        Codepoint { codepoint: 0x1001E, name: "LINEAR B SYLLABLE B003 PA", aliases: &[] },
    ];
    assert(v@ =~= codepoint_table_422());
    v
}

pub open spec fn codepoint_table_423() -> Seq<Codepoint> {
    seq![
        Codepoint { codepoint: 0x1001F, name: "LINEAR B SYLLABLE B072 PE", aliases: &[] },
        Codepoint { codepoint: 0x10020, name: "LINEAR B SYLLABLE B039 PI", aliases: &[] },
        Codepoint { codepoint: 0x10021, name: "LINEAR B SYLLABLE B011 PO", aliases: &[] },
        Codepoint { codepoint: 0x10022, name: "LINEAR B SYLLABLE B050 PU", aliases: &[] },
        Codepoint { codepoint: 0x10023, name: "LINEAR B SYLLABLE B016 QA", aliases: &[] },
        Codepoint { codepoint: 0x10024, name: "LINEAR B SYLLABLE B078 QE", aliases: &[] },
        Codepoint { codepoint: 0x10025, name: "LINEAR B SYLLABLE B021 QI", aliases: &[] },
        Codepoint { codepoint: 0x10026, name: "LINEAR B SYLLABLE B032 QO", aliases: &[] },
        Codepoint { codepoint: 0x10028, name: "LINEAR B SYLLABLE B060 RA", aliases: &[] },
        Codepoint { codepoint: 0x10029, name: "LINEAR B SYLLABLE B027 RE", aliases: &[] },
        Codepoint { codepoint: 0x1002A, name: "LINEAR B SYLLABLE B053 RI", aliases: &[] },
        Codepoint { codepoint: 0x1002B, name: "LINEAR B SYLLABLE B002 RO", aliases: &[] },
        Codepoint { codepoint: 0x1002C, name: "LINEAR B SYLLABLE B026 RU", aliases: &[] },
        Codepoint { codepoint: 0x1002D, name: "LINEAR B SYLLABLE B031 SA", aliases: &[] },
        Codepoint { codepoint: 0x1002E, name: "LINEAR B SYLLABLE B009 SE", aliases: &[] },
        Codepoint { codepoint: 0x1002F, name: "LINEAR B SYLLABLE B041 SI", aliases: &[] },
        Codepoint { codepoint: 0x10030, name: "LINEAR B SYLLABLE B012 SO", aliases: &[] },
        Codepoint { codepoint: 0x10031, name: "LINEAR B SYLLABLE B058 SU", aliases: &[] },
        Codepoint { codepoint: 0x10032, name: "LINEAR B SYLLABLE B059 TA", aliases: &[] },
        Codepoint { codepoint: 0x10033, name: "LINEAR B SYLLABLE B004 TE", aliases: &[] },
        Codepoint { codepoint: 0x10034, name: "LINEAR B SYLLABLE B037 TI", aliases: &[] },
        Codepoint { codepoint: 0x10035, name: "LINEAR B SYLLABLE B005 TO", aliases: &[] },
        Codepoint { codepoint: 0x10036, name: "LINEAR B SYLLABLE B069 TU", aliases: &[] },
        Codepoint { codepoint: 0x10037, name: "LINEAR B SYLLABLE B054 WA", aliases: &[] },
        Codepoint { codepoint: 0x10038, name: "LINEAR B SYLLABLE B075 WE", aliases: &[] },
        Codepoint { codepoint: 0x10039, name: "LINEAR B SYLLABLE B040 WI", aliases: &[] },
        Codepoint { codepoint: 0x1003A, name: "LINEAR B SYLLABLE B042 WO", aliases: &[] },
        Codepoint { codepoint: 0x1003C, name: "LINEAR B SYLLABLE B017 ZA", aliases: &[] },
        Codepoint { codepoint: 0x1003D, name: "LINEAR B SYLLABLE B074 ZE", aliases: &[] },
        Codepoint { codepoint: 0x1003F, name: "LINEAR B SYLLABLE B020 ZO", aliases: &[] },
        Codepoint { codepoint: 0x10040, name: "LINEAR B SYLLABLE B025 A2", aliases: &[] },
        Codepoint { codepoint: 0x10041, name: "LINEAR B SYLLABLE B043 A3", aliases: &[] },
        Codepoint { codepoint: 0x10042, name: "LINEAR B SYLLABLE B085 AU", aliases: &[] },
        Codepoint { codepoint: 0x10043, name: "LINEAR B SYLLABLE B071 DWE", aliases: &[] },
        Codepoint { codepoint: 0x10044, name: "LINEAR B SYLLABLE B090 DWO", aliases: &[] },
        Codepoint { codepoint: 0x10045, name: "LINEAR B SYLLABLE B048 NWA", aliases: &[] },
        Codepoint { codepoint: 0x10046, name: "LINEAR B SYLLABLE B029 PU2", aliases: &[] },
        Codepoint { codepoint: 0x10047, name: "LINEAR B SYLLABLE B062 PTE", aliases: &[] },
        Codepoint { codepoint: 0x10048, name: "LINEAR B SYLLABLE B076 RA2", aliases: &[] },
        Codepoint { codepoint: 0x10049, name: "LINEAR B SYLLABLE B033 RA3", aliases: &[] },
    ]
}

fn all_codepoints_423() -> (v: Vec<Codepoint>)
    ensures
        v@ == codepoint_table_423(),
{
    let v = vec![
        Codepoint { codepoint: 0x1001F, name: "LINEAR B SYLLABLE B072 PE", aliases: &[] },
        Codepoint { codepoint: 0x10020, name: "LINEAR B SYLLABLE B039 PI", aliases: &[] },
        Codepoint { codepoint: 0x10021, name: "LINEAR B SYLLABLE B011 PO", aliases: &[] },
        Codepoint { codepoint: 0x10022, name: "LINEAR B SYLLABLE B050 PU", aliases: &[] },
        Codepoint { codepoint: 0x10023, name: "LINEAR B SYLLABLE B016 QA", aliases: &[] },
        Codepoint { codepoint: 0x10024, name: "LINEAR B SYLLABLE B078 QE", aliases: &[] },
        Codepoint { codepoint: 0x10025, name: "LINEAR B SYLLABLE B021 QI", aliases: &[] },
        Codepoint { codepoint: 0x10026, name: "LINEAR B SYLLABLE B032 QO", aliases: &[] },
        Codepoint { codepoint: 0x10028, name: "LINEAR B SYLLABLE B060 RA", aliases: &[] },
        Codepoint { codepoint: 0x10029, name: "LINEAR B SYLLABLE B027 RE", aliases: &[] },
        Codepoint { codepoint: 0x1002A, name: "LINEAR B SYLLABLE B053 RI", aliases: &[] },
        Codepoint { codepoint: 0x1002B, name: "LINEAR B SYLLABLE B002 RO", aliases: &[] },
        Codepoint { codepoint: 0x1002C, name: "LINEAR B SYLLABLE B026 RU", aliases: &[] },
        Codepoint { codepoint: 0x1002D, name: "LINEAR B SYLLABLE B031 SA", aliases: &[] },
        Codepoint { codepoint: 0x1002E, name: "LINEAR B SYLLABLE B009 SE", aliases: &[] },
        Codepoint { codepoint: 0x1002F, name: "LINEAR B SYLLABLE B041 SI", aliases: &[] },
        Codepoint { codepoint: 0x10030, name: "LINEAR B SYLLABLE B012 SO", aliases: &[] },
        Codepoint { codepoint: 0x10031, name: "LINEAR B SYLLABLE B058 SU", aliases: &[] },
        Codepoint { codepoint: 0x10032, name: "LINEAR B SYLLABLE B059 TA", aliases: &[] },
        Codepoint { codepoint: 0x10033, name: "LINEAR B SYLLABLE B004 TE", aliases: &[] },
        Codepoint { codepoint: 0x10034, name: "LINEAR B SYLLABLE B037 TI", aliases: &[] },
        Codepoint { codepoint: 0x10035, name: "LINEAR B SYLLABLE B005 TO", aliases: &[] },
        Codepoint { codepoint: 0x10036, name: "LINEAR B SYLLABLE B069 TU", aliases: &[] },
        Codepoint { codepoint: 0x10037, name: "LINEAR B SYLLABLE B054 WA", aliases: &[] },
        Codepoint { codepoint: 0x10038, name: "LINEAR B SYLLABLE B075 WE", aliases: &[] },
        Codepoint { codepoint: 0x10039, name: "LINEAR B SYLLABLE B040 WI", aliases: &[] },
        Codepoint { codepoint: 0x1003A, name: "LINEAR B SYLLABLE B042 WO", aliases: &[] },
        Codepoint { codepoint: 0x1003C, name: "LINEAR B SYLLABLE B017 ZA", aliases: &[] },
        Codepoint { codepoint: 0x1003D, name: "LINEAR B SYLLABLE B074 ZE", aliases: &[] },
        Codepoint { codepoint: 0x1003F, name: "LINEAR B SYLLABLE B020 ZO", aliases: &[] },
        Codepoint { codepoint: 0x10040, name: "LINEAR B SYLLABLE B025 A2", aliases: &[] },
        Codepoint { codepoint: 0x10041, name: "LINEAR B SYLLABLE B043 A3", aliases: &[] },
        Codepoint { codepoint: 0x10042, name: "LINEAR B SYLLABLE B085 AU", aliases: &[] },
        Codepoint { codepoint: 0x10043, name: "LINEAR B SYLLABLE B071 DWE", aliases: &[] },
        Codepoint { codepoint: 0x10044, name: "LINEAR B SYLLABLE B090 DWO", aliases: &[] },
        Codepoint { codepoint: 0x10045, name: "LINEAR B SYLLABLE B048 NWA", aliases: &[] },
        Codepoint { codepoint: 0x10046, name: "LINEAR B SYLLABLE B029 PU2", aliases: &[] },
        Codepoint { codepoint: 0x10047, name: "LINEAR B SYLLABLE B062 PTE", aliases: &[] },
        Codepoint { codepoint: 0x10048, name: "LINEAR B SYLLABLE B076 RA2", aliases: &[] },
        Codepoint { codepoint: 0x10049, name: "LINEAR B SYLLABLE B033 RA3", aliases: &[] },
    ];
    assert(v@ =~= codepoint_table_423());
    v
}

pub open spec fn codepoint_table_424() -> Seq<Codepoint> {
    seq![
        Codepoint { codepoint: 0x1004A, name: "LINEAR B SYLLABLE B068 RO2", aliases: &[] },
        Codepoint { codepoint: 0x1004B, name: "LINEAR B SYLLABLE B066 TA2", aliases: &[] },
        Codepoint { codepoint: 0x1004C, name: "LINEAR B SYLLABLE B087 TWE", aliases: &[] },
        Codepoint { codepoint: 0x1004D, name: "LINEAR B SYLLABLE B091 TWO", aliases: &[] },
        Codepoint { codepoint: 0x10050, name: "LINEAR B SYMBOL B018", aliases: &[] },
        Codepoint { codepoint: 0x10051, name: "LINEAR B SYMBOL B019", aliases: &[] },
        Codepoint { codepoint: 0x10052, name: "LINEAR B SYMBOL B022", aliases: &[] },
        Codepoint { codepoint: 0x10053, name: "LINEAR B SYMBOL B034", aliases: &[] },
        Codepoint { codepoint: 0x10054, name: "LINEAR B SYMBOL B047", aliases: &[] },
        Codepoint { codepoint: 0x10055, name: "LINEAR B SYMBOL B049", aliases: &[] },
        Codepoint { codepoint: 0x10056, name: "LINEAR B SYMBOL B056", aliases: &[] },
        Codepoint { codepoint: 0x10057, name: "LINEAR B SYMBOL B063", aliases: &[] },
        Codepoint { codepoint: 0x10058, name: "LINEAR B SYMBOL B064", aliases: &[] },
        Codepoint { codepoint: 0x10059, name: "LINEAR B SYMBOL B079", aliases: &[] },
        Codepoint { codepoint: 0x1005A, name: "LINEAR B SYMBOL B082", aliases: &[] },
        Codepoint { codepoint: 0x1005B, name: "LINEAR B SYMBOL B083", aliases: &[] },
        Codepoint { codepoint: 0x1005C, name: "LINEAR B SYMBOL B086", aliases: &[] },
        Codepoint { codepoint: 0x1005D, name: "LINEAR B SYMBOL B089", aliases: &[] },
        Codepoint { codepoint: 0x10080, name: "LINEAR B IDEOGRAM B100 MAN", aliases: &[] },
        Codepoint { codepoint: 0x10081, name: "LINEAR B IDEOGRAM B102 WOMAN", aliases: &[] },
        Codepoint { codepoint: 0x10082, name: "LINEAR B IDEOGRAM B104 DEER", aliases: &[] },
        Codepoint { codepoint: 0x10083, name: "LINEAR B IDEOGRAM B105 EQUID", aliases: &[] },
        Codepoint { codepoint: 0x10084, name: "LINEAR B IDEOGRAM B105F MARE", aliases: &[] },
        Codepoint { codepoint: 0x10085, name: "LINEAR B IDEOGRAM B105M STALLION", aliases: &[] },
        Codepoint { codepoint: 0x10086, name: "LINEAR B IDEOGRAM B106F EWE", aliases: &[] },
        Codepoint { codepoint: 0x10087, name: "LINEAR B IDEOGRAM B106M RAM", aliases: &[] },
        Codepoint { codepoint: 0x10088, name: "LINEAR B IDEOGRAM B107F SHE-GOAT", aliases: &[] },
        Codepoint { codepoint: 0x10089, name: "LINEAR B IDEOGRAM B107M HE-GOAT", aliases: &[] },
        Codepoint { codepoint: 0x1008A, name: "LINEAR B IDEOGRAM B108F SOW", aliases: &[] },
        Codepoint { codepoint: 0x1008B, name: "LINEAR B IDEOGRAM B108M BOAR", aliases: &[] },
        Codepoint { codepoint: 0x1008C, name: "LINEAR B IDEOGRAM B109F COW", aliases: &[] },
        Codepoint { codepoint: 0x1008D, name: "LINEAR B IDEOGRAM B109M BULL", aliases: &[] },
        Codepoint { codepoint: 0x1008E, name: "LINEAR B IDEOGRAM B120 WHEAT", aliases: &[] },
        Codepoint { codepoint: 0x1008F, name: "LINEAR B IDEOGRAM B121 BARLEY", aliases: &[] },
        Codepoint { codepoint: 0x10090, name: "LINEAR B IDEOGRAM B122 OLIVE", aliases: &[] },
        Codepoint { codepoint: 0x10091, name: "LINEAR B IDEOGRAM B123 SPICE", aliases: &[] },
        Codepoint { codepoint: 0x10092, name: "LINEAR B IDEOGRAM B125 CYPERUS", aliases: &[] },
        Codepoint { codepoint: 0x10093, name: "LINEAR B MONOGRAM B127 KAPO", aliases: &[] },
        Codepoint { codepoint: 0x10094, name: "LINEAR B MONOGRAM B128 KANAKO", aliases: &[] },
        Codepoint { codepoint: 0x10095, name: "LINEAR B IDEOGRAM B130 OIL", aliases: &[] },
    ]
}

fn all_codepoints_424() -> (v: Vec<Codepoint>)
    ensures
        v@ == codepoint_table_424(),
{
    let v = vec![
        Codepoint { codepoint: 0x1004A, name: "LINEAR B SYLLABLE B068 RO2", aliases: &[] },
        Codepoint { codepoint: 0x1004B, name: "LINEAR B SYLLABLE B066 TA2", aliases: &[] },
        Codepoint { codepoint: 0x1004C, name: "LINEAR B SYLLABLE B087 TWE", aliases: &[] },
        Codepoint { codepoint: 0x1004D, name: "LINEAR B SYLLABLE B091 TWO", aliases: &[] },
        Codepoint { codepoint: 0x10050, name: "LINEAR B SYMBOL B018", aliases: &[] },
        Codepoint { codepoint: 0x10051, name: "LINEAR B SYMBOL B019", aliases: &[] },
        Codepoint { codepoint: 0x10052, name: "LINEAR B SYMBOL B022", aliases: &[] },
        Codepoint { codepoint: 0x10053, name: "LINEAR B SYMBOL B034", aliases: &[] },
        Codepoint { codepoint: 0x10054, name: "LINEAR B SYMBOL B047", aliases: &[] },
        Codepoint { codepoint: 0x10055, name: "LINEAR B SYMBOL B049", aliases: &[] },
        Codepoint { codepoint: 0x10056, name: "LINEAR B SYMBOL B056", aliases: &[] },
        Codepoint { codepoint: 0x10057, name: "LINEAR B SYMBOL B063", aliases: &[] },
        Codepoint { codepoint: 0x10058, name: "LINEAR B SYMBOL B064", aliases: &[] },
        Codepoint { codepoint: 0x10059, name: "LINEAR B SYMBOL B079", aliases: &[] },
        Codepoint { codepoint: 0x1005A, name: "LINEAR B SYMBOL B082", aliases: &[] },
        Codepoint { codepoint: 0x1005B, name: "LINEAR B SYMBOL B083", aliases: &[] },
        Codepoint { codepoint: 0x1005C, name: "LINEAR B SYMBOL B086", aliases: &[] },
        Codepoint { codepoint: 0x1005D, name: "LINEAR B SYMBOL B089", aliases: &[] },
        Codepoint { codepoint: 0x10080, name: "LINEAR B IDEOGRAM B100 MAN", aliases: &[] },
        Codepoint { codepoint: 0x10081, name: "LINEAR B IDEOGRAM B102 WOMAN", aliases: &[] },
        Codepoint { codepoint: 0x10082, name: "LINEAR B IDEOGRAM B104 DEER", aliases: &[] },
        Codepoint { codepoint: 0x10083, name: "LINEAR B IDEOGRAM B105 EQUID", aliases: &[] },
        Codepoint { codepoint: 0x10084, name: "LINEAR B IDEOGRAM B105F MARE", aliases: &[] },
        Codepoint { codepoint: 0x10085, name: "LINEAR B IDEOGRAM B105M STALLION", aliases: &[] },
        Codepoint { codepoint: 0x10086, name: "LINEAR B IDEOGRAM B106F EWE", aliases: &[] },
        Codepoint { codepoint: 0x10087, name: "LINEAR B IDEOGRAM B106M RAM", aliases: &[] },
        Codepoint { codepoint: 0x10088, name: "LINEAR B IDEOGRAM B107F SHE-GOAT", aliases: &[] },
        Codepoint { codepoint: 0x10089, name: "LINEAR B IDEOGRAM B107M HE-GOAT", aliases: &[] },
        Codepoint { codepoint: 0x1008A, name: "LINEAR B IDEOGRAM B108F SOW", aliases: &[] },
        Codepoint { codepoint: 0x1008B, name: "LINEAR B IDEOGRAM B108M BOAR", aliases: &[] },
        Codepoint { codepoint: 0x1008C, name: "LINEAR B IDEOGRAM B109F COW", aliases: &[] },
        Codepoint { codepoint: 0x1008D, name: "LINEAR B IDEOGRAM B109M BULL", aliases: &[] },
        Codepoint { codepoint: 0x1008E, name: "LINEAR B IDEOGRAM B120 WHEAT", aliases: &[] },
        Codepoint { codepoint: 0x1008F, name: "LINEAR B IDEOGRAM B121 BARLEY", aliases: &[] },
        Codepoint { codepoint: 0x10090, name: "LINEAR B IDEOGRAM B122 OLIVE", aliases: &[] },
        Codepoint { codepoint: 0x10091, name: "LINEAR B IDEOGRAM B123 SPICE", aliases: &[] },
        Codepoint { codepoint: 0x10092, name: "LINEAR B IDEOGRAM B125 CYPERUS", aliases: &[] },
        Codepoint { codepoint: 0x10093, name: "LINEAR B MONOGRAM B127 KAPO", aliases: &[] },
        Codepoint { codepoint: 0x10094, name: "LINEAR B MONOGRAM B128 KANAKO", aliases: &[] },
        Codepoint { codepoint: 0x10095, name: "LINEAR B IDEOGRAM B130 OIL", aliases: &[] },
    ];
    assert(v@ =~= codepoint_table_424());
    v
}

pub open spec fn codepoint_table_425() -> Seq<Codepoint> {
    seq![
        Codepoint { codepoint: 0x10096, name: "LINEAR B IDEOGRAM B131 WINE", aliases: &[] },
        Codepoint { codepoint: 0x10097, name: "LINEAR B IDEOGRAM B132", aliases: &[] },
        Codepoint { codepoint: 0x10098, name: "LINEAR B MONOGRAM B133 AREPA", aliases: &[] },
        Codepoint { codepoint: 0x10099, name: "LINEAR B MONOGRAM B135 MERI", aliases: &[] },
        Codepoint { codepoint: 0x1009A, name: "LINEAR B IDEOGRAM B140 BRONZE", aliases: &[] },
        Codepoint { codepoint: 0x1009B, name: "LINEAR B IDEOGRAM B141 GOLD", aliases: &[] },
        Codepoint { codepoint: 0x1009C, name: "LINEAR B IDEOGRAM B142", aliases: &[] },
        Codepoint { codepoint: 0x1009D, name: "LINEAR B IDEOGRAM B145 WOOL", aliases: &[] },
        Codepoint { codepoint: 0x1009E, name: "LINEAR B IDEOGRAM B146", aliases: &[] },
        Codepoint { codepoint: 0x1009F, name: "LINEAR B IDEOGRAM B150", aliases: &[] },
        Codepoint { codepoint: 0x100A0, name: "LINEAR B IDEOGRAM B151 HORN", aliases: &[] },
        Codepoint { codepoint: 0x100A1, name: "LINEAR B IDEOGRAM B152", aliases: &[] },
        Codepoint { codepoint: 0x100A2, name: "LINEAR B IDEOGRAM B153", aliases: &[] },
        Codepoint { codepoint: 0x100A3, name: "LINEAR B IDEOGRAM B154", aliases: &[] },
        Codepoint { codepoint: 0x100A4, name: "LINEAR B MONOGRAM B156 TURO2", aliases: &[] },
        Codepoint { codepoint: 0x100A5, name: "LINEAR B IDEOGRAM B157", aliases: &[] },
        Codepoint { codepoint: 0x100A6, name: "LINEAR B IDEOGRAM B158", aliases: &[] },
        Codepoint { codepoint: 0x100A7, name: "LINEAR B IDEOGRAM B159 CLOTH", aliases: &[] },
        Codepoint { codepoint: 0x100A8, name: "LINEAR B IDEOGRAM B160", aliases: &[] },
        Codepoint { codepoint: 0x100A9, name: "LINEAR B IDEOGRAM B161", aliases: &[] },
        Codepoint { codepoint: 0x100AA, name: "LINEAR B IDEOGRAM B162 GARMENT", aliases: &[] },
        Codepoint { codepoint: 0x100AB, name: "LINEAR B IDEOGRAM B163 ARMOUR", aliases: &[] },
        Codepoint { codepoint: 0x100AC, name: "LINEAR B IDEOGRAM B164", aliases: &[] },
        Codepoint { codepoint: 0x100AD, name: "LINEAR B IDEOGRAM B165", aliases: &[] },
        Codepoint { codepoint: 0x100AE, name: "LINEAR B IDEOGRAM B166", aliases: &[] },
        Codepoint { codepoint: 0x100AF, name: "LINEAR B IDEOGRAM B167", aliases: &[] },
        Codepoint { codepoint: 0x100B0, name: "LINEAR B IDEOGRAM B168", aliases: &[] },
        Codepoint { codepoint: 0x100B1, name: "LINEAR B IDEOGRAM B169", aliases: &[] },
        Codepoint { codepoint: 0x100B2, name: "LINEAR B IDEOGRAM B170", aliases: &[] },
        Codepoint { codepoint: 0x100B3, name: "LINEAR B IDEOGRAM B171", aliases: &[] },
        Codepoint { codepoint: 0x100B4, name: "LINEAR B IDEOGRAM B172", aliases: &[] },
        Codepoint { codepoint: 0x100B5, name: "LINEAR B IDEOGRAM B173 MONTH", aliases: &[] },
        Codepoint { codepoint: 0x100B6, name: "LINEAR B IDEOGRAM B174", aliases: &[] },
        Codepoint { codepoint: 0x100B7, name: "LINEAR B IDEOGRAM B176 TREE", aliases: &[] },
        Codepoint { codepoint: 0x100B8, name: "LINEAR B IDEOGRAM B177", aliases: &[] },
        Codepoint { codepoint: 0x100B9, name: "LINEAR B IDEOGRAM B178", aliases: &[] },
        Codepoint { codepoint: 0x100BA, name: "LINEAR B IDEOGRAM B179", aliases: &[] },
        Codepoint { codepoint: 0x100BB, name: "LINEAR B IDEOGRAM B180", aliases: &[] },
        Codepoint { codepoint: 0x100BC, name: "LINEAR B IDEOGRAM B181", aliases: &[] },
        Codepoint { codepoint: 0x100BD, name: "LINEAR B IDEOGRAM B182", aliases: &[] },
    ]
}

fn all_codepoints_425() -> (v: Vec<Codepoint>)
    ensures
        v@ == codepoint_table_425(),
{
    let v = vec![
        Codepoint { codepoint: 0x10096, name: "LINEAR B IDEOGRAM B131 WINE", aliases: &[] },
        Codepoint { codepoint: 0x10097, name: "LINEAR B IDEOGRAM B132", aliases: &[] },
        Codepoint { codepoint: 0x10098, name: "LINEAR B MONOGRAM B133 AREPA", aliases: &[] },
        Codepoint { codepoint: 0x10099, name: "LINEAR B MONOGRAM B135 MERI", aliases: &[] },
        Codepoint { codepoint: 0x1009A, name: "LINEAR B IDEOGRAM B140 BRONZE", aliases: &[] },
        Codepoint { codepoint: 0x1009B, name: "LINEAR B IDEOGRAM B141 GOLD", aliases: &[] },
        Codepoint { codepoint: 0x1009C, name: "LINEAR B IDEOGRAM B142", aliases: &[] },
        Codepoint { codepoint: 0x1009D, name: "LINEAR B IDEOGRAM B145 WOOL", aliases: &[] },
        Codepoint { codepoint: 0x1009E, name: "LINEAR B IDEOGRAM B146", aliases: &[] },
        Codepoint { codepoint: 0x1009F, name: "LINEAR B IDEOGRAM B150", aliases: &[] },
        Codepoint { codepoint: 0x100A0, name: "LINEAR B IDEOGRAM B151 HORN", aliases: &[] },
        Codepoint { codepoint: 0x100A1, name: "LINEAR B IDEOGRAM B152", aliases: &[] },
        Codepoint { codepoint: 0x100A2, name: "LINEAR B IDEOGRAM B153", aliases: &[] },
        Codepoint { codepoint: 0x100A3, name: "LINEAR B IDEOGRAM B154", aliases: &[] },
        Codepoint { codepoint: 0x100A4, name: "LINEAR B MONOGRAM B156 TURO2", aliases: &[] },
        Codepoint { codepoint: 0x100A5, name: "LINEAR B IDEOGRAM B157", aliases: &[] },
        Codepoint { codepoint: 0x100A6, name: "LINEAR B IDEOGRAM B158", aliases: &[] },
        Codepoint { codepoint: 0x100A7, name: "LINEAR B IDEOGRAM B159 CLOTH", aliases: &[] },
        Codepoint { codepoint: 0x100A8, name: "LINEAR B IDEOGRAM B160", aliases: &[] },
        Codepoint { codepoint: 0x100A9, name: "LINEAR B IDEOGRAM B161", aliases: &[] },
        Codepoint { codepoint: 0x100AA, name: "LINEAR B IDEOGRAM B162 GARMENT", aliases: &[] },
        Codepoint { codepoint: 0x100AB, name: "LINEAR B IDEOGRAM B163 ARMOUR", aliases: &[] },
        Codepoint { codepoint: 0x100AC, name: "LINEAR B IDEOGRAM B164", aliases: &[] },
        Codepoint { codepoint: 0x100AD, name: "LINEAR B IDEOGRAM B165", aliases: &[] },
        Codepoint { codepoint: 0x100AE, name: "LINEAR B IDEOGRAM B166", aliases: &[] },
        Codepoint { codepoint: 0x100AF, name: "LINEAR B IDEOGRAM B167", aliases: &[] },
        Codepoint { codepoint: 0x100B0, name: "LINEAR B IDEOGRAM B168", aliases: &[] },
        Codepoint { codepoint: 0x100B1, name: "LINEAR B IDEOGRAM B169", aliases: &[] },
        Codepoint { codepoint: 0x100B2, name: "LINEAR B IDEOGRAM B170", aliases: &[] },
        Codepoint { codepoint: 0x100B3, name: "LINEAR B IDEOGRAM B171", aliases: &[] },
        Codepoint { codepoint: 0x100B4, name: "LINEAR B IDEOGRAM B172", aliases: &[] },
        Codepoint { codepoint: 0x100B5, name: "LINEAR B IDEOGRAM B173 MONTH", aliases: &[] },
        Codepoint { codepoint: 0x100B6, name: "LINEAR B IDEOGRAM B174", aliases: &[] },
        Codepoint { codepoint: 0x100B7, name: "LINEAR B IDEOGRAM B176 TREE", aliases: &[] },
        Codepoint { codepoint: 0x100B8, name: "LINEAR B IDEOGRAM B177", aliases: &[] },
        Codepoint { codepoint: 0x100B9, name: "LINEAR B IDEOGRAM B178", aliases: &[] },
        Codepoint { codepoint: 0x100BA, name: "LINEAR B IDEOGRAM B179", aliases: &[] },
        Codepoint { codepoint: 0x100BB, name: "LINEAR B IDEOGRAM B180", aliases: &[] },
        Codepoint { codepoint: 0x100BC, name: "LINEAR B IDEOGRAM B181", aliases: &[] },
        Codepoint { codepoint: 0x100BD, name: "LINEAR B IDEOGRAM B182", aliases: &[] },
    ];
    assert(v@ =~= codepoint_table_425());
    v
}

pub open spec fn codepoint_table_426() -> Seq<Codepoint> {
    seq![
        Codepoint { codepoint: 0x100BE, name: "LINEAR B IDEOGRAM B183", aliases: &[] },
        Codepoint { codepoint: 0x100BF, name: "LINEAR B IDEOGRAM B184", aliases: &[] },
        Codepoint { codepoint: 0x100C0, name: "LINEAR B IDEOGRAM B185", aliases: &[] },
        Codepoint { codepoint: 0x100C1, name: "LINEAR B IDEOGRAM B189", aliases: &[] },
        Codepoint { codepoint: 0x100C2, name: "LINEAR B IDEOGRAM B190", aliases: &[] },
        Codepoint { codepoint: 0x100C3, name: "LINEAR B IDEOGRAM B191 HELMET", aliases: &[] },
        Codepoint { codepoint: 0x100C4, name: "LINEAR B IDEOGRAM B220 FOOTSTOOL", aliases: &[] },
        Codepoint { codepoint: 0x100C5, name: "LINEAR B IDEOGRAM B225 BATHTUB", aliases: &[] },
        Codepoint { codepoint: 0x100C6, name: "LINEAR B IDEOGRAM B230 SPEAR", aliases: &[] },
        Codepoint { codepoint: 0x100C7, name: "LINEAR B IDEOGRAM B231 ARROW", aliases: &[] },
        Codepoint { codepoint: 0x100C8, name: "LINEAR B IDEOGRAM B232", aliases: &[] },
        Codepoint { codepoint: 0x100C9, name: "LINEAR B IDEOGRAM B233 SWORD", aliases: &[] },
        Codepoint { codepoint: 0x100CA, name: "LINEAR B IDEOGRAM B234", aliases: &[] },
        Codepoint { codepoint: 0x100CB, name: "LINEAR B IDEOGRAM B236", aliases: &[] },
        Codepoint { codepoint: 0x100CC, name: "LINEAR B IDEOGRAM B240 WHEELED CHARIOT", aliases: &[] },
        Codepoint { codepoint: 0x100CD, name: "LINEAR B IDEOGRAM B241 CHARIOT", aliases: &[] },
        Codepoint { codepoint: 0x100CE, name: "LINEAR B IDEOGRAM B242 CHARIOT FRAME", aliases: &[] },
        Codepoint { codepoint: 0x100CF, name: "LINEAR B IDEOGRAM B243 WHEEL", aliases: &[] },
        Codepoint { codepoint: 0x100D0, name: "LINEAR B IDEOGRAM B245", aliases: &[] },
        Codepoint { codepoint: 0x100D1, name: "LINEAR B IDEOGRAM B246", aliases: &[] },
        Codepoint { codepoint: 0x100D2, name: "LINEAR B MONOGRAM B247 DIPTE", aliases: &[] },
        Codepoint { codepoint: 0x100D3, name: "LINEAR B IDEOGRAM B248", aliases: &[] },
        Codepoint { codepoint: 0x100D4, name: "LINEAR B IDEOGRAM B249", aliases: &[] },
        Codepoint { codepoint: 0x100D5, name: "LINEAR B IDEOGRAM B251", aliases: &[] },
        Codepoint { codepoint: 0x100D6, name: "LINEAR B IDEOGRAM B252", aliases: &[] },
        Codepoint { codepoint: 0x100D7, name: "LINEAR B IDEOGRAM B253", aliases: &[] },
        Codepoint { codepoint: 0x100D8, name: "LINEAR B IDEOGRAM B254 DART", aliases: &[] },
        Codepoint { codepoint: 0x100D9, name: "LINEAR B IDEOGRAM B255", aliases: &[] },
        Codepoint { codepoint: 0x100DA, name: "LINEAR B IDEOGRAM B256", aliases: &[] },
        Codepoint { codepoint: 0x100DB, name: "LINEAR B IDEOGRAM B257", aliases: &[] },
        Codepoint { codepoint: 0x100DC, name: "LINEAR B IDEOGRAM B258", aliases: &[] },
        Codepoint { codepoint: 0x100DD, name: "LINEAR B IDEOGRAM B259", aliases: &[] },
        Codepoint { codepoint: 0x100DE, name: "LINEAR B IDEOGRAM VESSEL B155", aliases: &[] },
        Codepoint { codepoint: 0x100DF, name: "LINEAR B IDEOGRAM VESSEL B200", aliases: &[] },
        Codepoint { codepoint: 0x100E0, name: "LINEAR B IDEOGRAM VESSEL B201", aliases: &[] },
        Codepoint { codepoint: 0x100E1, name: "LINEAR B IDEOGRAM VESSEL B202", aliases: &[] },
        Codepoint { codepoint: 0x100E2, name: "LINEAR B IDEOGRAM VESSEL B203", aliases: &[] },
        Codepoint { codepoint: 0x100E3, name: "LINEAR B IDEOGRAM VESSEL B204", aliases: &[] },
        Codepoint { codepoint: 0x100E4, name: "LINEAR B IDEOGRAM VESSEL B205", aliases: &[] },
        Codepoint { codepoint: 0x100E5, name: "LINEAR B IDEOGRAM VESSEL B206", aliases: &[] },
    ]
}

fn all_codepoints_426() -> (v: Vec<Codepoint>)
    ensures
        v@ == codepoint_table_426(),
{
    let v = vec![
        Codepoint { codepoint: 0x100BE, name: "LINEAR B IDEOGRAM B183", aliases: &[] },
        Codepoint { codepoint: 0x100BF, name: "LINEAR B IDEOGRAM B184", aliases: &[] },
        Codepoint { codepoint: 0x100C0, name: "LINEAR B IDEOGRAM B185", aliases: &[] },
        Codepoint { codepoint: 0x100C1, name: "LINEAR B IDEOGRAM B189", aliases: &[] },
        Codepoint { codepoint: 0x100C2, name: "LINEAR B IDEOGRAM B190", aliases: &[] },
        Codepoint { codepoint: 0x100C3, name: "LINEAR B IDEOGRAM B191 HELMET", aliases: &[] },
        Codepoint { codepoint: 0x100C4, name: "LINEAR B IDEOGRAM B220 FOOTSTOOL", aliases: &[] },
        Codepoint { codepoint: 0x100C5, name: "LINEAR B IDEOGRAM B225 BATHTUB", aliases: &[] },
        Codepoint { codepoint: 0x100C6, name: "LINEAR B IDEOGRAM B230 SPEAR", aliases: &[] },
        Codepoint { codepoint: 0x100C7, name: "LINEAR B IDEOGRAM B231 ARROW", aliases: &[] },
        Codepoint { codepoint: 0x100C8, name: "LINEAR B IDEOGRAM B232", aliases: &[] },
        Codepoint { codepoint: 0x100C9, name: "LINEAR B IDEOGRAM B233 SWORD", aliases: &[] },
        Codepoint { codepoint: 0x100CA, name: "LINEAR B IDEOGRAM B234", aliases: &[] },
        Codepoint { codepoint: 0x100CB, name: "LINEAR B IDEOGRAM B236", aliases: &[] },
        Codepoint { codepoint: 0x100CC, name: "LINEAR B IDEOGRAM B240 WHEELED CHARIOT", aliases: &[] },
        Codepoint { codepoint: 0x100CD, name: "LINEAR B IDEOGRAM B241 CHARIOT", aliases: &[] },
        Codepoint { codepoint: 0x100CE, name: "LINEAR B IDEOGRAM B242 CHARIOT FRAME", aliases: &[] },
        Codepoint { codepoint: 0x100CF, name: "LINEAR B IDEOGRAM B243 WHEEL", aliases: &[] },
        Codepoint { codepoint: 0x100D0, name: "LINEAR B IDEOGRAM B245", aliases: &[] },
        Codepoint { codepoint: 0x100D1, name: "LINEAR B IDEOGRAM B246", aliases: &[] },
        Codepoint { codepoint: 0x100D2, name: "LINEAR B MONOGRAM B247 DIPTE", aliases: &[] },
        Codepoint { codepoint: 0x100D3, name: "LINEAR B IDEOGRAM B248", aliases: &[] },
        Codepoint { codepoint: 0x100D4, name: "LINEAR B IDEOGRAM B249", aliases: &[] },
        Codepoint { codepoint: 0x100D5, name: "LINEAR B IDEOGRAM B251", aliases: &[] },
        Codepoint { codepoint: 0x100D6, name: "LINEAR B IDEOGRAM B252", aliases: &[] },
        Codepoint { codepoint: 0x100D7, name: "LINEAR B IDEOGRAM B253", aliases: &[] },
        Codepoint { codepoint: 0x100D8, name: "LINEAR B IDEOGRAM B254 DART", aliases: &[] },
        Codepoint { codepoint: 0x100D9, name: "LINEAR B IDEOGRAM B255", aliases: &[] },
        Codepoint { codepoint: 0x100DA, name: "LINEAR B IDEOGRAM B256", aliases: &[] },
        Codepoint { codepoint: 0x100DB, name: "LINEAR B IDEOGRAM B257", aliases: &[] },
        Codepoint { codepoint: 0x100DC, name: "LINEAR B IDEOGRAM B258", aliases: &[] },
        Codepoint { codepoint: 0x100DD, name: "LINEAR B IDEOGRAM B259", aliases: &[] },
        Codepoint { codepoint: 0x100DE, name: "LINEAR B IDEOGRAM VESSEL B155", aliases: &[] },
        Codepoint { codepoint: 0x100DF, name: "LINEAR B IDEOGRAM VESSEL B200", aliases: &[] },
        Codepoint { codepoint: 0x100E0, name: "LINEAR B IDEOGRAM VESSEL B201", aliases: &[] },
        Codepoint { codepoint: 0x100E1, name: "LINEAR B IDEOGRAM VESSEL B202", aliases: &[] },
        Codepoint { codepoint: 0x100E2, name: "LINEAR B IDEOGRAM VESSEL B203", aliases: &[] },
        Codepoint { codepoint: 0x100E3, name: "LINEAR B IDEOGRAM VESSEL B204", aliases: &[] },
        Codepoint { codepoint: 0x100E4, name: "LINEAR B IDEOGRAM VESSEL B205", aliases: &[] },
        Codepoint { codepoint: 0x100E5, name: "LINEAR B IDEOGRAM VESSEL B206", aliases: &[] },
    ];
    assert(v@ =~= codepoint_table_426());
    v
}

pub open spec fn codepoint_table_427() -> Seq<Codepoint> {
    seq![
        Codepoint { codepoint: 0x100E6, name: "LINEAR B IDEOGRAM VESSEL B207", aliases: &[] },
        Codepoint { codepoint: 0x100E7, name: "LINEAR B IDEOGRAM VESSEL B208", aliases: &[] },
        Codepoint { codepoint: 0x100E8, name: "LINEAR B IDEOGRAM VESSEL B209", aliases: &[] },
        Codepoint { codepoint: 0x100E9, name: "LINEAR B IDEOGRAM VESSEL B210", aliases: &[] },
        Codepoint { codepoint: 0x100EA, name: "LINEAR B IDEOGRAM VESSEL B211", aliases: &[] },
        Codepoint { codepoint: 0x100EB, name: "LINEAR B IDEOGRAM VESSEL B212", aliases: &[] },
        Codepoint { codepoint: 0x100EC, name: "LINEAR B IDEOGRAM VESSEL B213", aliases: &[] },
        Codepoint { codepoint: 0x100ED, name: "LINEAR B IDEOGRAM VESSEL B214", aliases: &[] },
        Codepoint { codepoint: 0x100EE, name: "LINEAR B IDEOGRAM VESSEL B215", aliases: &[] },
        Codepoint { codepoint: 0x100EF, name: "LINEAR B IDEOGRAM VESSEL B216", aliases: &[] },
        Codepoint { codepoint: 0x100F0, name: "LINEAR B IDEOGRAM VESSEL B217", aliases: &[] },
        Codepoint { codepoint: 0x100F1, name: "LINEAR B IDEOGRAM VESSEL B218", aliases: &[] },
        Codepoint { codepoint: 0x100F2, name: "LINEAR B IDEOGRAM VESSEL B219", aliases: &[] },
        Codepoint { codepoint: 0x100F3, name: "LINEAR B IDEOGRAM VESSEL B221", aliases: &[] },
        Codepoint { codepoint: 0x100F4, name: "LINEAR B IDEOGRAM VESSEL B222", aliases: &[] },
        Codepoint { codepoint: 0x100F5, name: "LINEAR B IDEOGRAM VESSEL B226", aliases: &[] },
        Codepoint { codepoint: 0x100F6, name: "LINEAR B IDEOGRAM VESSEL B227", aliases: &[] },
        Codepoint { codepoint: 0x100F7, name: "LINEAR B IDEOGRAM VESSEL B228", aliases: &[] },
        Codepoint { codepoint: 0x100F8, name: "LINEAR B IDEOGRAM VESSEL B229", aliases: &[] },
        Codepoint { codepoint: 0x100F9, name: "LINEAR B IDEOGRAM VESSEL B250", aliases: &[] },
        Codepoint { codepoint: 0x100FA, name: "LINEAR B IDEOGRAM VESSEL B305", aliases: &[] },
        Codepoint { codepoint: 0x10100, name: "AEGEAN WORD SEPARATOR LINE", aliases: &[] },
        Codepoint { codepoint: 0x10101, name: "AEGEAN WORD SEPARATOR DOT", aliases: &[] },
        Codepoint { codepoint: 0x10102, name: "AEGEAN CHECK MARK", aliases: &[] },
        Codepoint { codepoint: 0x10107, name: "AEGEAN NUMBER ONE", aliases: &[] },
        Codepoint { codepoint: 0x10108, name: "AEGEAN NUMBER TWO", aliases: &[] },
        Codepoint { codepoint: 0x10109, name: "AEGEAN NUMBER THREE", aliases: &[] },
        Codepoint { codepoint: 0x1010A, name: "AEGEAN NUMBER FOUR", aliases: &[] },
        Codepoint { codepoint: 0x1010B, name: "AEGEAN NUMBER FIVE", aliases: &[] },
        Codepoint { codepoint: 0x1010C, name: "AEGEAN NUMBER SIX", aliases: &[] },
        Codepoint { codepoint: 0x1010D, name: "AEGEAN NUMBER SEVEN", aliases: &[] },
        Codepoint { codepoint: 0x1010E, name: "AEGEAN NUMBER EIGHT", aliases: &[] },
        Codepoint { codepoint: 0x1010F, name: "AEGEAN NUMBER NINE", aliases: &[] },
        Codepoint { codepoint: 0x10110, name: "AEGEAN NUMBER TEN", aliases: &[] },
        Codepoint { codepoint: 0x10111, name: "AEGEAN NUMBER TWENTY", aliases: &[] },
        Codepoint { codepoint: 0x10112, name: "AEGEAN NUMBER THIRTY", aliases: &[] },
        Codepoint { codepoint: 0x10113, name: "AEGEAN NUMBER FORTY", aliases: &[] },
        Codepoint { codepoint: 0x10114, name: "AEGEAN NUMBER FIFTY", aliases: &[] },
        Codepoint { codepoint: 0x10115, name: "AEGEAN NUMBER SIXTY", aliases: &[] },
        Codepoint { codepoint: 0x10116, name: "AEGEAN NUMBER SEVENTY", aliases: &[] },
    ]
}

fn all_codepoints_427() -> (v: Vec<Codepoint>)
    ensures
        v@ == codepoint_table_427(),
{
    let v = vec![
        Codepoint { codepoint: 0x100E6, name: "LINEAR B IDEOGRAM VESSEL B207", aliases: &[] },
        Codepoint { codepoint: 0x100E7, name: "LINEAR B IDEOGRAM VESSEL B208", aliases: &[] },
        Codepoint { codepoint: 0x100E8, name: "LINEAR B IDEOGRAM VESSEL B209", aliases: &[] },
        Codepoint { codepoint: 0x100E9, name: "LINEAR B IDEOGRAM VESSEL B210", aliases: &[] },
        Codepoint { codepoint: 0x100EA, name: "LINEAR B IDEOGRAM VESSEL B211", aliases: &[] },
        Codepoint { codepoint: 0x100EB, name: "LINEAR B IDEOGRAM VESSEL B212", aliases: &[] },
        Codepoint { codepoint: 0x100EC, name: "LINEAR B IDEOGRAM VESSEL B213", aliases: &[] },
        Codepoint { codepoint: 0x100ED, name: "LINEAR B IDEOGRAM VESSEL B214", aliases: &[] },
        Codepoint { codepoint: 0x100EE, name: "LINEAR B IDEOGRAM VESSEL B215", aliases: &[] },
        Codepoint { codepoint: 0x100EF, name: "LINEAR B IDEOGRAM VESSEL B216", aliases: &[] },
        Codepoint { codepoint: 0x100F0, name: "LINEAR B IDEOGRAM VESSEL B217", aliases: &[] },
        Codepoint { codepoint: 0x100F1, name: "LINEAR B IDEOGRAM VESSEL B218", aliases: &[] },
        Codepoint { codepoint: 0x100F2, name: "LINEAR B IDEOGRAM VESSEL B219", aliases: &[] },
        Codepoint { codepoint: 0x100F3, name: "LINEAR B IDEOGRAM VESSEL B221", aliases: &[] },
        Codepoint { codepoint: 0x100F4, name: "LINEAR B IDEOGRAM VESSEL B222", aliases: &[] },
        Codepoint { codepoint: 0x100F5, name: "LINEAR B IDEOGRAM VESSEL B226", aliases: &[] },
        Codepoint { codepoint: 0x100F6, name: "LINEAR B IDEOGRAM VESSEL B227", aliases: &[] },
        Codepoint { codepoint: 0x100F7, name: "LINEAR B IDEOGRAM VESSEL B228", aliases: &[] },
        Codepoint { codepoint: 0x100F8, name: "LINEAR B IDEOGRAM VESSEL B229", aliases: &[] },
        Codepoint { codepoint: 0x100F9, name: "LINEAR B IDEOGRAM VESSEL B250", aliases: &[] },
        Codepoint { codepoint: 0x100FA, name: "LINEAR B IDEOGRAM VESSEL B305", aliases: &[] },
        Codepoint { codepoint: 0x10100, name: "AEGEAN WORD SEPARATOR LINE", aliases: &[] },
        Codepoint { codepoint: 0x10101, name: "AEGEAN WORD SEPARATOR DOT", aliases: &[] },
        Codepoint { codepoint: 0x10102, name: "AEGEAN CHECK MARK", aliases: &[] },
        Codepoint { codepoint: 0x10107, name: "AEGEAN NUMBER ONE", aliases: &[] },
        Codepoint { codepoint: 0x10108, name: "AEGEAN NUMBER TWO", aliases: &[] },
        Codepoint { codepoint: 0x10109, name: "AEGEAN NUMBER THREE", aliases: &[] },
        Codepoint { codepoint: 0x1010A, name: "AEGEAN NUMBER FOUR", aliases: &[] },
        Codepoint { codepoint: 0x1010B, name: "AEGEAN NUMBER FIVE", aliases: &[] },
        Codepoint { codepoint: 0x1010C, name: "AEGEAN NUMBER SIX", aliases: &[] },
        Codepoint { codepoint: 0x1010D, name: "AEGEAN NUMBER SEVEN", aliases: &[] },
        Codepoint { codepoint: 0x1010E, name: "AEGEAN NUMBER EIGHT", aliases: &[] },
        Codepoint { codepoint: 0x1010F, name: "AEGEAN NUMBER NINE", aliases: &[] },
        Codepoint { codepoint: 0x10110, name: "AEGEAN NUMBER TEN", aliases: &[] },
        Codepoint { codepoint: 0x10111, name: "AEGEAN NUMBER TWENTY", aliases: &[] },
        Codepoint { codepoint: 0x10112, name: "AEGEAN NUMBER THIRTY", aliases: &[] },
        Codepoint { codepoint: 0x10113, name: "AEGEAN NUMBER FORTY", aliases: &[] },
        Codepoint { codepoint: 0x10114, name: "AEGEAN NUMBER FIFTY", aliases: &[] },
        Codepoint { codepoint: 0x10115, name: "AEGEAN NUMBER SIXTY", aliases: &[] },
        Codepoint { codepoint: 0x10116, name: "AEGEAN NUMBER SEVENTY", aliases: &[] },
    ];
    assert(v@ =~= codepoint_table_427());
    v
}

pub open spec fn codepoint_table_428() -> Seq<Codepoint> {
    seq![
        Codepoint { codepoint: 0x10117, name: "AEGEAN NUMBER EIGHTY", aliases: &[] },
        Codepoint { codepoint: 0x10118, name: "AEGEAN NUMBER NINETY", aliases: &[] },
        Codepoint { codepoint: 0x10119, name: "AEGEAN NUMBER ONE HUNDRED", aliases: &[] },
        Codepoint { codepoint: 0x1011A, name: "AEGEAN NUMBER TWO HUNDRED", aliases: &[] },
        Codepoint { codepoint: 0x1011B, name: "AEGEAN NUMBER THREE HUNDRED", aliases: &[] },
        Codepoint { codepoint: 0x1011C, name: "AEGEAN NUMBER FOUR HUNDRED", aliases: &[] },
        Codepoint { codepoint: 0x1011D, name: "AEGEAN NUMBER FIVE HUNDRED", aliases: &[] },
        Codepoint { codepoint: 0x1011E, name: "AEGEAN NUMBER SIX HUNDRED", aliases: &[] },
        Codepoint { codepoint: 0x1011F, name: "AEGEAN NUMBER SEVEN HUNDRED", aliases: &[] },
        Codepoint { codepoint: 0x10120, name: "AEGEAN NUMBER EIGHT HUNDRED", aliases: &[] },
        Codepoint { codepoint: 0x10121, name: "AEGEAN NUMBER NINE HUNDRED", aliases: &[] },
        Codepoint { codepoint: 0x10122, name: "AEGEAN NUMBER ONE THOUSAND", aliases: &[] },
        Codepoint { codepoint: 0x10123, name: "AEGEAN NUMBER TWO THOUSAND", aliases: &[] },
        Codepoint { codepoint: 0x10124, name: "AEGEAN NUMBER THREE THOUSAND", aliases: &[] },
        Codepoint { codepoint: 0x10125, name: "AEGEAN NUMBER FOUR THOUSAND", aliases: &[] },
        Codepoint { codepoint: 0x10126, name: "AEGEAN NUMBER FIVE THOUSAND", aliases: &[] },
        Codepoint { codepoint: 0x10127, name: "AEGEAN NUMBER SIX THOUSAND", aliases: &[] },
        Codepoint { codepoint: 0x10128, name: "AEGEAN NUMBER SEVEN THOUSAND", aliases: &[] },
        Codepoint { codepoint: 0x10129, name: "AEGEAN NUMBER EIGHT THOUSAND", aliases: &[] },
        Codepoint { codepoint: 0x1012A, name: "AEGEAN NUMBER NINE THOUSAND", aliases: &[] },
        Codepoint { codepoint: 0x1012B, name: "AEGEAN NUMBER TEN THOUSAND", aliases: &[] },
        Codepoint { codepoint: 0x1012C, name: "AEGEAN NUMBER TWENTY THOUSAND", aliases: &[] },
        Codepoint { codepoint: 0x1012D, name: "AEGEAN NUMBER THIRTY THOUSAND", aliases: &[] },
        Codepoint { codepoint: 0x1012E, name: "AEGEAN NUMBER FORTY THOUSAND", aliases: &[] },
        Codepoint { codepoint: 0x1012F, name: "AEGEAN NUMBER FIFTY THOUSAND", aliases: &[] },
        Codepoint { codepoint: 0x10130, name: "AEGEAN NUMBER SIXTY THOUSAND", aliases: &[] },
        Codepoint { codepoint: 0x10131, name: "AEGEAN NUMBER SEVENTY THOUSAND", aliases: &[] },
        Codepoint { codepoint: 0x10132, name: "AEGEAN NUMBER EIGHTY THOUSAND", aliases: &[] },
        Codepoint { codepoint: 0x10133, name: "AEGEAN NUMBER NINETY THOUSAND", aliases: &[] },
        Codepoint { codepoint: 0x10137, name: "AEGEAN WEIGHT BASE UNIT", aliases: &[] },
        Codepoint { codepoint: 0x10138, name: "AEGEAN WEIGHT FIRST SUBUNIT", aliases: &[] },
        Codepoint { codepoint: 0x10139, name: "AEGEAN WEIGHT SECOND SUBUNIT", aliases: &[] },
        Codepoint { codepoint: 0x1013A, name: "AEGEAN WEIGHT THIRD SUBUNIT", aliases: &[] },
        Codepoint { codepoint: 0x1013B, name: "AEGEAN WEIGHT FOURTH SUBUNIT", aliases: &[] },
        Codepoint { codepoint: 0x1013C, name: "AEGEAN DRY MEASURE FIRST SUBUNIT", aliases: &[] },
        Codepoint { codepoint: 0x1013D, name: "AEGEAN LIQUID MEASURE FIRST SUBUNIT", aliases: &[] },
        Codepoint { codepoint: 0x1013E, name: "AEGEAN MEASURE SECOND SUBUNIT", aliases: &[] },
        Codepoint { codepoint: 0x1013F, name: "AEGEAN MEASURE THIRD SUBUNIT", aliases: &[] },
        Codepoint { codepoint: 0x10140, name: "GREEK ACROPHONIC ATTIC ONE QUARTER", aliases: &[] },
        Codepoint { codepoint: 0x10141, name: "GREEK ACROPHONIC ATTIC ONE HALF", aliases: &[] },
    ]
}

fn all_codepoints_428() -> (v: Vec<Codepoint>)
    ensures
        v@ == codepoint_table_428(),
{
    let v = vec![
        Codepoint { codepoint: 0x10117, name: "AEGEAN NUMBER EIGHTY", aliases: &[] },
        Codepoint { codepoint: 0x10118, name: "AEGEAN NUMBER NINETY", aliases: &[] },
        Codepoint { codepoint: 0x10119, name: "AEGEAN NUMBER ONE HUNDRED", aliases: &[] },
        Codepoint { codepoint: 0x1011A, name: "AEGEAN NUMBER TWO HUNDRED", aliases: &[] },
        Codepoint { codepoint: 0x1011B, name: "AEGEAN NUMBER THREE HUNDRED", aliases: &[] },
        Codepoint { codepoint: 0x1011C, name: "AEGEAN NUMBER FOUR HUNDRED", aliases: &[] },
        Codepoint { codepoint: 0x1011D, name: "AEGEAN NUMBER FIVE HUNDRED", aliases: &[] },
        Codepoint { codepoint: 0x1011E, name: "AEGEAN NUMBER SIX HUNDRED", aliases: &[] },
        Codepoint { codepoint: 0x1011F, name: "AEGEAN NUMBER SEVEN HUNDRED", aliases: &[] },
        Codepoint { codepoint: 0x10120, name: "AEGEAN NUMBER EIGHT HUNDRED", aliases: &[] },
        Codepoint { codepoint: 0x10121, name: "AEGEAN NUMBER NINE HUNDRED", aliases: &[] },
        Codepoint { codepoint: 0x10122, name: "AEGEAN NUMBER ONE THOUSAND", aliases: &[] },
        Codepoint { codepoint: 0x10123, name: "AEGEAN NUMBER TWO THOUSAND", aliases: &[] },
        Codepoint { codepoint: 0x10124, name: "AEGEAN NUMBER THREE THOUSAND", aliases: &[] },
        Codepoint { codepoint: 0x10125, name: "AEGEAN NUMBER FOUR THOUSAND", aliases: &[] },
        Codepoint { codepoint: 0x10126, name: "AEGEAN NUMBER FIVE THOUSAND", aliases: &[] },
        Codepoint { codepoint: 0x10127, name: "AEGEAN NUMBER SIX THOUSAND", aliases: &[] },
        Codepoint { codepoint: 0x10128, name: "AEGEAN NUMBER SEVEN THOUSAND", aliases: &[] },
        Codepoint { codepoint: 0x10129, name: "AEGEAN NUMBER EIGHT THOUSAND", aliases: &[] },
        Codepoint { codepoint: 0x1012A, name: "AEGEAN NUMBER NINE THOUSAND", aliases: &[] },
        Codepoint { codepoint: 0x1012B, name: "AEGEAN NUMBER TEN THOUSAND", aliases: &[] },
        Codepoint { codepoint: 0x1012C, name: "AEGEAN NUMBER TWENTY THOUSAND", aliases: &[] },
        Codepoint { codepoint: 0x1012D, name: "AEGEAN NUMBER THIRTY THOUSAND", aliases: &[] },
        Codepoint { codepoint: 0x1012E, name: "AEGEAN NUMBER FORTY THOUSAND", aliases: &[] },
        Codepoint { codepoint: 0x1012F, name: "AEGEAN NUMBER FIFTY THOUSAND", aliases: &[] },
        Codepoint { codepoint: 0x10130, name: "AEGEAN NUMBER SIXTY THOUSAND", aliases: &[] },
        Codepoint { codepoint: 0x10131, name: "AEGEAN NUMBER SEVENTY THOUSAND", aliases: &[] },
        Codepoint { codepoint: 0x10132, name: "AEGEAN NUMBER EIGHTY THOUSAND", aliases: &[] },
        Codepoint { codepoint: 0x10133, name: "AEGEAN NUMBER NINETY THOUSAND", aliases: &[] },
        Codepoint { codepoint: 0x10137, name: "AEGEAN WEIGHT BASE UNIT", aliases: &[] },
        Codepoint { codepoint: 0x10138, name: "AEGEAN WEIGHT FIRST SUBUNIT", aliases: &[] },
        Codepoint { codepoint: 0x10139, name: "AEGEAN WEIGHT SECOND SUBUNIT", aliases: &[] },
        Codepoint { codepoint: 0x1013A, name: "AEGEAN WEIGHT THIRD SUBUNIT", aliases: &[] },
        Codepoint { codepoint: 0x1013B, name: "AEGEAN WEIGHT FOURTH SUBUNIT", aliases: &[] },
        Codepoint { codepoint: 0x1013C, name: "AEGEAN DRY MEASURE FIRST SUBUNIT", aliases: &[] },
        Codepoint { codepoint: 0x1013D, name: "AEGEAN LIQUID MEASURE FIRST SUBUNIT", aliases: &[] },
        Codepoint { codepoint: 0x1013E, name: "AEGEAN MEASURE SECOND SUBUNIT", aliases: &[] },
        Codepoint { codepoint: 0x1013F, name: "AEGEAN MEASURE THIRD SUBUNIT", aliases: &[] },
        Codepoint { codepoint: 0x10140, name: "GREEK ACROPHONIC ATTIC ONE QUARTER", aliases: &[] },
        Codepoint { codepoint: 0x10141, name: "GREEK ACROPHONIC ATTIC ONE HALF", aliases: &[] },
    ];
    assert(v@ =~= codepoint_table_428());
    v
}

pub open spec fn codepoint_table_429() -> Seq<Codepoint> {
    seq![
        Codepoint { codepoint: 0x10142, name: "GREEK ACROPHONIC ATTIC ONE DRACHMA", aliases: &[] },
        Codepoint { codepoint: 0x10143, name: "GREEK ACROPHONIC ATTIC FIVE", aliases: &[] },
        Codepoint { codepoint: 0x10144, name: "GREEK ACROPHONIC ATTIC FIFTY", aliases: &[] },
        Codepoint { codepoint: 0x10145, name: "GREEK ACROPHONIC ATTIC FIVE HUNDRED", aliases: &[] },
        Codepoint { codepoint: 0x10146, name: "GREEK ACROPHONIC ATTIC FIVE THOUSAND", aliases: &[] },
        Codepoint { codepoint: 0x10147, name: "GREEK ACROPHONIC ATTIC FIFTY THOUSAND", aliases: &[] },
        Codepoint { codepoint: 0x10148, name: "GREEK ACROPHONIC ATTIC FIVE TALENTS", aliases: &[] },
        Codepoint { codepoint: 0x10149, name: "GREEK ACROPHONIC ATTIC TEN TALENTS", aliases: &[] },
        Codepoint { codepoint: 0x1014A, name: "GREEK ACROPHONIC ATTIC FIFTY TALENTS", aliases: &[] },
        Codepoint { codepoint: 0x1014B, name: "GREEK ACROPHONIC ATTIC ONE HUNDRED TALENTS", aliases: &[] },
        Codepoint { codepoint: 0x1014C, name: "GREEK ACROPHONIC ATTIC FIVE HUNDRED TALENTS", aliases: &[] },
        Codepoint { codepoint: 0x1014D, name: "GREEK ACROPHONIC ATTIC ONE THOUSAND TALENTS", aliases: &[] },
        Codepoint { codepoint: 0x1014E, name: "GREEK ACROPHONIC ATTIC FIVE THOUSAND TALENTS", aliases: &[] },
        Codepoint { codepoint: 0x1014F, name: "GREEK ACROPHONIC ATTIC FIVE STATERS", aliases: &[] },
        Codepoint { codepoint: 0x10150, name: "GREEK ACROPHONIC ATTIC TEN STATERS", aliases: &[] },
        Codepoint { codepoint: 0x10151, name: "GREEK ACROPHONIC ATTIC FIFTY STATERS", aliases: &[] },
        Codepoint { codepoint: 0x10152, name: "GREEK ACROPHONIC ATTIC ONE HUNDRED STATERS", aliases: &[] },
        Codepoint { codepoint: 0x10153, name: "GREEK ACROPHONIC ATTIC FIVE HUNDRED STATERS", aliases: &[] },
        Codepoint { codepoint: 0x10154, name: "GREEK ACROPHONIC ATTIC ONE THOUSAND STATERS", aliases: &[] },
        Codepoint { codepoint: 0x10155, name: "GREEK ACROPHONIC ATTIC TEN THOUSAND STATERS", aliases: &[] },
        Codepoint { codepoint: 0x10156, name: "GREEK ACROPHONIC ATTIC FIFTY THOUSAND STATERS", aliases: &[] },
        Codepoint { codepoint: 0x10157, name: "GREEK ACROPHONIC ATTIC TEN MNAS", aliases: &[] },
        Codepoint { codepoint: 0x10158, name: "GREEK ACROPHONIC HERAEUM ONE PLETHRON", aliases: &[] },
        Codepoint { codepoint: 0x10159, name: "GREEK ACROPHONIC THESPIAN ONE", aliases: &[] },
        Codepoint { codepoint: 0x1015A, name: "GREEK ACROPHONIC HERMIONIAN ONE", aliases: &[] },
        Codepoint { codepoint: 0x1015B, name: "GREEK ACROPHONIC EPIDAUREAN TWO", aliases: &[] },
        Codepoint { codepoint: 0x1015C, name: "GREEK ACROPHONIC THESPIAN TWO", aliases: &[] },
        Codepoint { codepoint: 0x1015D, name: "GREEK ACROPHONIC CYRENAIC TWO DRACHMAS", aliases: &[] },
        Codepoint { codepoint: 0x1015E, name: "GREEK ACROPHONIC EPIDAUREAN TWO DRACHMAS", aliases: &[] },
        Codepoint { codepoint: 0x1015F, name: "GREEK ACROPHONIC TROEZENIAN FIVE", aliases: &[] },
        Codepoint { codepoint: 0x10160, name: "GREEK ACROPHONIC TROEZENIAN TEN", aliases: &[] },
        Codepoint { codepoint: 0x10161, name: "GREEK ACROPHONIC TROEZENIAN TEN ALTERNATE FORM", aliases: &[] },
        Codepoint { codepoint: 0x10162, name: "GREEK ACROPHONIC HERMIONIAN TEN", aliases: &[] },
        Codepoint { codepoint: 0x10163, name: "GREEK ACROPHONIC MESSENIAN TEN", aliases: &[] },
        Codepoint { codepoint: 0x10164, name: "GREEK ACROPHONIC THESPIAN TEN", aliases: &[] },
        Codepoint { codepoint: 0x10165, name: "GREEK ACROPHONIC THESPIAN THIRTY", aliases: &[] },
        Codepoint { codepoint: 0x10166, name: "GREEK ACROPHONIC TROEZENIAN FIFTY", aliases: &[] },
        Codepoint { codepoint: 0x10167, name: "GREEK ACROPHONIC TROEZENIAN FIFTY ALTERNATE FORM", aliases: &[] },
        Codepoint { codepoint: 0x10168, name: "GREEK ACROPHONIC HERMIONIAN FIFTY", aliases: &[] },
        Codepoint { codepoint: 0x10169, name: "GREEK ACROPHONIC THESPIAN FIFTY", aliases: &[] },
    ]
}

fn all_codepoints_429() -> (v: Vec<Codepoint>)
    ensures
        v@ == codepoint_table_429(),
{
    let v = vec![
        Codepoint { codepoint: 0x10142, name: "GREEK ACROPHONIC ATTIC ONE DRACHMA", aliases: &[] },
        Codepoint { codepoint: 0x10143, name: "GREEK ACROPHONIC ATTIC FIVE", aliases: &[] },
        Codepoint { codepoint: 0x10144, name: "GREEK ACROPHONIC ATTIC FIFTY", aliases: &[] },
        Codepoint { codepoint: 0x10145, name: "GREEK ACROPHONIC ATTIC FIVE HUNDRED", aliases: &[] },
        Codepoint { codepoint: 0x10146, name: "GREEK ACROPHONIC ATTIC FIVE THOUSAND", aliases: &[] },
        Codepoint { codepoint: 0x10147, name: "GREEK ACROPHONIC ATTIC FIFTY THOUSAND", aliases: &[] },
        Codepoint { codepoint: 0x10148, name: "GREEK ACROPHONIC ATTIC FIVE TALENTS", aliases: &[] },
        Codepoint { codepoint: 0x10149, name: "GREEK ACROPHONIC ATTIC TEN TALENTS", aliases: &[] },
        Codepoint { codepoint: 0x1014A, name: "GREEK ACROPHONIC ATTIC FIFTY TALENTS", aliases: &[] },
        Codepoint { codepoint: 0x1014B, name: "GREEK ACROPHONIC ATTIC ONE HUNDRED TALENTS", aliases: &[] },
        Codepoint { codepoint: 0x1014C, name: "GREEK ACROPHONIC ATTIC FIVE HUNDRED TALENTS", aliases: &[] },
        Codepoint { codepoint: 0x1014D, name: "GREEK ACROPHONIC ATTIC ONE THOUSAND TALENTS", aliases: &[] },
        Codepoint { codepoint: 0x1014E, name: "GREEK ACROPHONIC ATTIC FIVE THOUSAND TALENTS", aliases: &[] },
        Codepoint { codepoint: 0x1014F, name: "GREEK ACROPHONIC ATTIC FIVE STATERS", aliases: &[] },
        Codepoint { codepoint: 0x10150, name: "GREEK ACROPHONIC ATTIC TEN STATERS", aliases: &[] },
        Codepoint { codepoint: 0x10151, name: "GREEK ACROPHONIC ATTIC FIFTY STATERS", aliases: &[] },
        Codepoint { codepoint: 0x10152, name: "GREEK ACROPHONIC ATTIC ONE HUNDRED STATERS", aliases: &[] },
        Codepoint { codepoint: 0x10153, name: "GREEK ACROPHONIC ATTIC FIVE HUNDRED STATERS", aliases: &[] },
        Codepoint { codepoint: 0x10154, name: "GREEK ACROPHONIC ATTIC ONE THOUSAND STATERS", aliases: &[] },
        Codepoint { codepoint: 0x10155, name: "GREEK ACROPHONIC ATTIC TEN THOUSAND STATERS", aliases: &[] },
        Codepoint { codepoint: 0x10156, name: "GREEK ACROPHONIC ATTIC FIFTY THOUSAND STATERS", aliases: &[] },
        Codepoint { codepoint: 0x10157, name: "GREEK ACROPHONIC ATTIC TEN MNAS", aliases: &[] },
        Codepoint { codepoint: 0x10158, name: "GREEK ACROPHONIC HERAEUM ONE PLETHRON", aliases: &[] },
        Codepoint { codepoint: 0x10159, name: "GREEK ACROPHONIC THESPIAN ONE", aliases: &[] },
        Codepoint { codepoint: 0x1015A, name: "GREEK ACROPHONIC HERMIONIAN ONE", aliases: &[] },
        Codepoint { codepoint: 0x1015B, name: "GREEK ACROPHONIC EPIDAUREAN TWO", aliases: &[] },
        Codepoint { codepoint: 0x1015C, name: "GREEK ACROPHONIC THESPIAN TWO", aliases: &[] },
        Codepoint { codepoint: 0x1015D, name: "GREEK ACROPHONIC CYRENAIC TWO DRACHMAS", aliases: &[] },
        Codepoint { codepoint: 0x1015E, name: "GREEK ACROPHONIC EPIDAUREAN TWO DRACHMAS", aliases: &[] },
        Codepoint { codepoint: 0x1015F, name: "GREEK ACROPHONIC TROEZENIAN FIVE", aliases: &[] },
        Codepoint { codepoint: 0x10160, name: "GREEK ACROPHONIC TROEZENIAN TEN", aliases: &[] },
        Codepoint { codepoint: 0x10161, name: "GREEK ACROPHONIC TROEZENIAN TEN ALTERNATE FORM", aliases: &[] },
        Codepoint { codepoint: 0x10162, name: "GREEK ACROPHONIC HERMIONIAN TEN", aliases: &[] },
        Codepoint { codepoint: 0x10163, name: "GREEK ACROPHONIC MESSENIAN TEN", aliases: &[] },
        Codepoint { codepoint: 0x10164, name: "GREEK ACROPHONIC THESPIAN TEN", aliases: &[] },
        Codepoint { codepoint: 0x10165, name: "GREEK ACROPHONIC THESPIAN THIRTY", aliases: &[] },
        Codepoint { codepoint: 0x10166, name: "GREEK ACROPHONIC TROEZENIAN FIFTY", aliases: &[] },
        Codepoint { codepoint: 0x10167, name: "GREEK ACROPHONIC TROEZENIAN FIFTY ALTERNATE FORM", aliases: &[] },
        Codepoint { codepoint: 0x10168, name: "GREEK ACROPHONIC HERMIONIAN FIFTY", aliases: &[] },
        Codepoint { codepoint: 0x10169, name: "GREEK ACROPHONIC THESPIAN FIFTY", aliases: &[] },
    ];
    assert(v@ =~= codepoint_table_429());
    v
}

pub open spec fn codepoint_table_430() -> Seq<Codepoint> {
    seq![
        Codepoint { codepoint: 0x1016A, name: "GREEK ACROPHONIC THESPIAN ONE HUNDRED", aliases: &[] },
        Codepoint { codepoint: 0x1016B, name: "GREEK ACROPHONIC THESPIAN THREE HUNDRED", aliases: &[] },
        Codepoint { codepoint: 0x1016C, name: "GREEK ACROPHONIC EPIDAUREAN FIVE HUNDRED", aliases: &[] },
        Codepoint { codepoint: 0x1016D, name: "GREEK ACROPHONIC TROEZENIAN FIVE HUNDRED", aliases: &[] },
        Codepoint { codepoint: 0x1016E, name: "GREEK ACROPHONIC THESPIAN FIVE HUNDRED", aliases: &[] },
        Codepoint { codepoint: 0x1016F, name: "GREEK ACROPHONIC CARYSTIAN FIVE HUNDRED", aliases: &[] },
        Codepoint { codepoint: 0x10170, name: "GREEK ACROPHONIC NAXIAN FIVE HUNDRED", aliases: &[] },
        Codepoint { codepoint: 0x10171, name: "GREEK ACROPHONIC THESPIAN ONE THOUSAND", aliases: &[] },
        Codepoint { codepoint: 0x10172, name: "GREEK ACROPHONIC THESPIAN FIVE THOUSAND", aliases: &[] },
        Codepoint { codepoint: 0x10173, name: "GREEK ACROPHONIC DELPHIC FIVE MNAS", aliases: &[] },
        Codepoint { codepoint: 0x10174, name: "GREEK ACROPHONIC STRATIAN FIFTY MNAS", aliases: &[] },
        Codepoint { codepoint: 0x10175, name: "GREEK ONE HALF SIGN", aliases: &[] },
        Codepoint { codepoint: 0x10176, name: "GREEK ONE HALF SIGN ALTERNATE FORM", aliases: &[] },
        Codepoint { codepoint: 0x10177, name: "GREEK TWO THIRDS SIGN", aliases: &[] },
        Codepoint { codepoint: 0x10178, name: "GREEK THREE QUARTERS SIGN", aliases: &[] },
        Codepoint { codepoint: 0x10179, name: "GREEK YEAR SIGN", aliases: &[] },
        Codepoint { codepoint: 0x1017A, name: "GREEK TALENT SIGN", aliases: &[] },
        Codepoint { codepoint: 0x1017B, name: "GREEK DRACHMA SIGN", aliases: &[] },
        Codepoint { codepoint: 0x1017C, name: "GREEK OBOL SIGN", aliases: &[] },
        Codepoint { codepoint: 0x1017D, name: "GREEK TWO OBOLS SIGN", aliases: &[] },
        Codepoint { codepoint: 0x1017E, name: "GREEK THREE OBOLS SIGN", aliases: &[] },
        Codepoint { codepoint: 0x1017F, name: "GREEK FOUR OBOLS SIGN", aliases: &[] },
        Codepoint { codepoint: 0x10180, name: "GREEK FIVE OBOLS SIGN", aliases: &[] },
        Codepoint { codepoint: 0x10181, name: "GREEK METRETES SIGN", aliases: &[] },
        Codepoint { codepoint: 0x10182, name: "GREEK KYATHOS BASE SIGN", aliases: &[] },
        Codepoint { codepoint: 0x10183, name: "GREEK LITRA SIGN", aliases: &[] },
        Codepoint { codepoint: 0x10184, name: "GREEK OUNKIA SIGN", aliases: &[] },
        Codepoint { codepoint: 0x10185, name: "GREEK XESTES SIGN", aliases: &[] },
        Codepoint { codepoint: 0x10186, name: "GREEK ARTABE SIGN", aliases: &[] },
        Codepoint { codepoint: 0x10187, name: "GREEK AROURA SIGN", aliases: &[] },
        Codepoint { codepoint: 0x10188, name: "GREEK GRAMMA SIGN", aliases: &[] },
        Codepoint { codepoint: 0x10189, name: "GREEK TRYBLION BASE SIGN", aliases: &[] },
        Codepoint { codepoint: 0x1018A, name: "GREEK ZERO SIGN", aliases: &[] },
        Codepoint { codepoint: 0x1018B, name: "GREEK ONE QUARTER SIGN", aliases: &[] },
        Codepoint { codepoint: 0x1018C, name: "GREEK SINUSOID SIGN", aliases: &[] },
        Codepoint { codepoint: 0x1018D, name: "GREEK INDICTION SIGN", aliases: &[] },
        Codepoint { codepoint: 0x1018E, name: "NOMISMA SIGN", aliases: &[] },
        Codepoint { codepoint: 0x10190, name: "ROMAN SEXTANS SIGN", aliases: &[] },
        Codepoint { codepoint: 0x10191, name: "ROMAN UNCIA SIGN", aliases: &[] },
        Codepoint { codepoint: 0x10192, name: "ROMAN SEMUNCIA SIGN", aliases: &[] },
    ]
}

fn all_codepoints_430() -> (v: Vec<Codepoint>)
    ensures
        v@ == codepoint_table_430(),
{
    let v = vec![
        Codepoint { codepoint: 0x1016A, name: "GREEK ACROPHONIC THESPIAN ONE HUNDRED", aliases: &[] },
        Codepoint { codepoint: 0x1016B, name: "GREEK ACROPHONIC THESPIAN THREE HUNDRED", aliases: &[] },
        Codepoint { codepoint: 0x1016C, name: "GREEK ACROPHONIC EPIDAUREAN FIVE HUNDRED", aliases: &[] },
        Codepoint { codepoint: 0x1016D, name: "GREEK ACROPHONIC TROEZENIAN FIVE HUNDRED", aliases: &[] },
        Codepoint { codepoint: 0x1016E, name: "GREEK ACROPHONIC THESPIAN FIVE HUNDRED", aliases: &[] },
        Codepoint { codepoint: 0x1016F, name: "GREEK ACROPHONIC CARYSTIAN FIVE HUNDRED", aliases: &[] },
        Codepoint { codepoint: 0x10170, name: "GREEK ACROPHONIC NAXIAN FIVE HUNDRED", aliases: &[] },
        Codepoint { codepoint: 0x10171, name: "GREEK ACROPHONIC THESPIAN ONE THOUSAND", aliases: &[] },
        Codepoint { codepoint: 0x10172, name: "GREEK ACROPHONIC THESPIAN FIVE THOUSAND", aliases: &[] },
        Codepoint { codepoint: 0x10173, name: "GREEK ACROPHONIC DELPHIC FIVE MNAS", aliases: &[] },
        Codepoint { codepoint: 0x10174, name: "GREEK ACROPHONIC STRATIAN FIFTY MNAS", aliases: &[] },
        Codepoint { codepoint: 0x10175, name: "GREEK ONE HALF SIGN", aliases: &[] },
        Codepoint { codepoint: 0x10176, name: "GREEK ONE HALF SIGN ALTERNATE FORM", aliases: &[] },
        Codepoint { codepoint: 0x10177, name: "GREEK TWO THIRDS SIGN", aliases: &[] },
        Codepoint { codepoint: 0x10178, name: "GREEK THREE QUARTERS SIGN", aliases: &[] },
        Codepoint { codepoint: 0x10179, name: "GREEK YEAR SIGN", aliases: &[] },
        Codepoint { codepoint: 0x1017A, name: "GREEK TALENT SIGN", aliases: &[] },
        Codepoint { codepoint: 0x1017B, name: "GREEK DRACHMA SIGN", aliases: &[] },
        Codepoint { codepoint: 0x1017C, name: "GREEK OBOL SIGN", aliases: &[] },
        Codepoint { codepoint: 0x1017D, name: "GREEK TWO OBOLS SIGN", aliases: &[] },
        Codepoint { codepoint: 0x1017E, name: "GREEK THREE OBOLS SIGN", aliases: &[] },
        Codepoint { codepoint: 0x1017F, name: "GREEK FOUR OBOLS SIGN", aliases: &[] },
        Codepoint { codepoint: 0x10180, name: "GREEK FIVE OBOLS SIGN", aliases: &[] },
        Codepoint { codepoint: 0x10181, name: "GREEK METRETES SIGN", aliases: &[] },
        Codepoint { codepoint: 0x10182, name: "GREEK KYATHOS BASE SIGN", aliases: &[] },
        Codepoint { codepoint: 0x10183, name: "GREEK LITRA SIGN", aliases: &[] },
        Codepoint { codepoint: 0x10184, name: "GREEK OUNKIA SIGN", aliases: &[] },
        Codepoint { codepoint: 0x10185, name: "GREEK XESTES SIGN", aliases: &[] },
        Codepoint { codepoint: 0x10186, name: "GREEK ARTABE SIGN", aliases: &[] },
        Codepoint { codepoint: 0x10187, name: "GREEK AROURA SIGN", aliases: &[] },
        Codepoint { codepoint: 0x10188, name: "GREEK GRAMMA SIGN", aliases: &[] },
        Codepoint { codepoint: 0x10189, name: "GREEK TRYBLION BASE SIGN", aliases: &[] },
        Codepoint { codepoint: 0x1018A, name: "GREEK ZERO SIGN", aliases: &[] },
        Codepoint { codepoint: 0x1018B, name: "GREEK ONE QUARTER SIGN", aliases: &[] },
        Codepoint { codepoint: 0x1018C, name: "GREEK SINUSOID SIGN", aliases: &[] },
        Codepoint { codepoint: 0x1018D, name: "GREEK INDICTION SIGN", aliases: &[] },
        Codepoint { codepoint: 0x1018E, name: "NOMISMA SIGN", aliases: &[] },
        Codepoint { codepoint: 0x10190, name: "ROMAN SEXTANS SIGN", aliases: &[] },
        Codepoint { codepoint: 0x10191, name: "ROMAN UNCIA SIGN", aliases: &[] },
        Codepoint { codepoint: 0x10192, name: "ROMAN SEMUNCIA SIGN", aliases: &[] },
    ];
    assert(v@ =~= codepoint_table_430());
    v
}

pub open spec fn codepoint_table_431() -> Seq<Codepoint> {
    seq![
        Codepoint { codepoint: 0x10193, name: "ROMAN SEXTULA SIGN", aliases: &[] },
        Codepoint { codepoint: 0x10194, name: "ROMAN DIMIDIA SEXTULA SIGN", aliases: &[] },
        Codepoint { codepoint: 0x10195, name: "ROMAN SILIQUA SIGN", aliases: &[] },
        Codepoint { codepoint: 0x10196, name: "ROMAN DENARIUS SIGN", aliases: &[] },
        Codepoint { codepoint: 0x10197, name: "ROMAN QUINARIUS SIGN", aliases: &[] },
        Codepoint { codepoint: 0x10198, name: "ROMAN SESTERTIUS SIGN", aliases: &[] },
        Codepoint { codepoint: 0x10199, name: "ROMAN DUPONDIUS SIGN", aliases: &[] },
        Codepoint { codepoint: 0x1019A, name: "ROMAN AS SIGN", aliases: &[] },
        Codepoint { codepoint: 0x1019B, name: "ROMAN CENTURIAL SIGN", aliases: &[] },
        Codepoint { codepoint: 0x1019C, name: "ASCIA SYMBOL", aliases: &[] },
        Codepoint { codepoint: 0x101A0, name: "GREEK SYMBOL TAU RHO", aliases: &[] },
        Codepoint { codepoint: 0x101D0, name: "PHAISTOS DISC SIGN PEDESTRIAN", aliases: &[] },
        Codepoint { codepoint: 0x101D1, name: "PHAISTOS DISC SIGN PLUMED HEAD", aliases: &[] },
        Codepoint { codepoint: 0x101D2, name: "PHAISTOS DISC SIGN TATTOOED HEAD", aliases: &[] },
        Codepoint { codepoint: 0x101D3, name: "PHAISTOS DISC SIGN CAPTIVE", aliases: &[] },
        Codepoint { codepoint: 0x101D4, name: "PHAISTOS DISC SIGN CHILD", aliases: &[] },
        Codepoint { codepoint: 0x101D5, name: "PHAISTOS DISC SIGN WOMAN", aliases: &[] },
        Codepoint { codepoint: 0x101D6, name: "PHAISTOS DISC SIGN HELMET", aliases: &[] },
        Codepoint { codepoint: 0x101D7, name: "PHAISTOS DISC SIGN GAUNTLET", aliases: &[] },
        Codepoint { codepoint: 0x101D8, name: "PHAISTOS DISC SIGN TIARA", aliases: &[] },
        Codepoint { codepoint: 0x101D9, name: "PHAISTOS DISC SIGN ARROW", aliases: &[] },
        Codepoint { codepoint: 0x101DA, name: "PHAISTOS DISC SIGN BOW", aliases: &[] },
        Codepoint { codepoint: 0x101DB, name: "PHAISTOS DISC SIGN SHIELD", aliases: &[] },
        Codepoint { codepoint: 0x101DC, name: "PHAISTOS DISC SIGN CLUB", aliases: &[] },
        Codepoint { codepoint: 0x101DD, name: "PHAISTOS DISC SIGN MANACLES", aliases: &[] },
        Codepoint { codepoint: 0x101DE, name: "PHAISTOS DISC SIGN MATTOCK", aliases: &[] },
        Codepoint { codepoint: 0x101DF, name: "PHAISTOS DISC SIGN SAW", aliases: &[] },
        Codepoint { codepoint: 0x101E0, name: "PHAISTOS DISC SIGN LID", aliases: &[] },
        Codepoint { codepoint: 0x101E1, name: "PHAISTOS DISC SIGN BOOMERANG", aliases: &[] },
        Codepoint { codepoint: 0x101E2, name: "PHAISTOS DISC SIGN CARPENTRY PLANE", aliases: &[] },
        Codepoint { codepoint: 0x101E3, name: "PHAISTOS DISC SIGN DOLIUM", aliases: &[] },
        Codepoint { codepoint: 0x101E4, name: "PHAISTOS DISC SIGN COMB", aliases: &[] },
        Codepoint { codepoint: 0x101E5, name: "PHAISTOS DISC SIGN SLING", aliases: &[] },
        Codepoint { codepoint: 0x101E6, name: "PHAISTOS DISC SIGN COLUMN", aliases: &[] },
        Codepoint { codepoint: 0x101E7, name: "PHAISTOS DISC SIGN BEEHIVE", aliases: &[] },
        Codepoint { codepoint: 0x101E8, name: "PHAISTOS DISC SIGN SHIP", aliases: &[] },
        Codepoint { codepoint: 0x101E9, name: "PHAISTOS DISC SIGN HORN", aliases: &[] },
        Codepoint { codepoint: 0x101EA, name: "PHAISTOS DISC SIGN HIDE", aliases: &[] },
        Codepoint { codepoint: 0x101EB, name: "PHAISTOS DISC SIGN BULLS LEG", aliases: &[] },
        Codepoint { codepoint: 0x101EC, name: "PHAISTOS DISC SIGN CAT", aliases: &[] },
    ]
}

fn all_codepoints_431() -> (v: Vec<Codepoint>)
    ensures
        v@ == codepoint_table_431(),
{
    let v = vec![
        Codepoint { codepoint: 0x10193, name: "ROMAN SEXTULA SIGN", aliases: &[] },
        Codepoint { codepoint: 0x10194, name: "ROMAN DIMIDIA SEXTULA SIGN", aliases: &[] },
        Codepoint { codepoint: 0x10195, name: "ROMAN SILIQUA SIGN", aliases: &[] },
        Codepoint { codepoint: 0x10196, name: "ROMAN DENARIUS SIGN", aliases: &[] },
        Codepoint { codepoint: 0x10197, name: "ROMAN QUINARIUS SIGN", aliases: &[] },
        Codepoint { codepoint: 0x10198, name: "ROMAN SESTERTIUS SIGN", aliases: &[] },
        Codepoint { codepoint: 0x10199, name: "ROMAN DUPONDIUS SIGN", aliases: &[] },
        Codepoint { codepoint: 0x1019A, name: "ROMAN AS SIGN", aliases: &[] },
        Codepoint { codepoint: 0x1019B, name: "ROMAN CENTURIAL SIGN", aliases: &[] },
        Codepoint { codepoint: 0x1019C, name: "ASCIA SYMBOL", aliases: &[] },
        Codepoint { codepoint: 0x101A0, name: "GREEK SYMBOL TAU RHO", aliases: &[] },
        Codepoint { codepoint: 0x101D0, name: "PHAISTOS DISC SIGN PEDESTRIAN", aliases: &[] },
        Codepoint { codepoint: 0x101D1, name: "PHAISTOS DISC SIGN PLUMED HEAD", aliases: &[] },
        Codepoint { codepoint: 0x101D2, name: "PHAISTOS DISC SIGN TATTOOED HEAD", aliases: &[] },
        Codepoint { codepoint: 0x101D3, name: "PHAISTOS DISC SIGN CAPTIVE", aliases: &[] },
        Codepoint { codepoint: 0x101D4, name: "PHAISTOS DISC SIGN CHILD", aliases: &[] },
        Codepoint { codepoint: 0x101D5, name: "PHAISTOS DISC SIGN WOMAN", aliases: &[] },
        Codepoint { codepoint: 0x101D6, name: "PHAISTOS DISC SIGN HELMET", aliases: &[] },
        Codepoint { codepoint: 0x101D7, name: "PHAISTOS DISC SIGN GAUNTLET", aliases: &[] },
        Codepoint { codepoint: 0x101D8, name: "PHAISTOS DISC SIGN TIARA", aliases: &[] },
        Codepoint { codepoint: 0x101D9, name: "PHAISTOS DISC SIGN ARROW", aliases: &[] },
        Codepoint { codepoint: 0x101DA, name: "PHAISTOS DISC SIGN BOW", aliases: &[] },
        Codepoint { codepoint: 0x101DB, name: "PHAISTOS DISC SIGN SHIELD", aliases: &[] },
        Codepoint { codepoint: 0x101DC, name: "PHAISTOS DISC SIGN CLUB", aliases: &[] },
        Codepoint { codepoint: 0x101DD, name: "PHAISTOS DISC SIGN MANACLES", aliases: &[] },
        Codepoint { codepoint: 0x101DE, name: "PHAISTOS DISC SIGN MATTOCK", aliases: &[] },
        Codepoint { codepoint: 0x101DF, name: "PHAISTOS DISC SIGN SAW", aliases: &[] },
        Codepoint { codepoint: 0x101E0, name: "PHAISTOS DISC SIGN LID", aliases: &[] },
        Codepoint { codepoint: 0x101E1, name: "PHAISTOS DISC SIGN BOOMERANG", aliases: &[] },
        Codepoint { codepoint: 0x101E2, name: "PHAISTOS DISC SIGN CARPENTRY PLANE", aliases: &[] },
        Codepoint { codepoint: 0x101E3, name: "PHAISTOS DISC SIGN DOLIUM", aliases: &[] },
        Codepoint { codepoint: 0x101E4, name: "PHAISTOS DISC SIGN COMB", aliases: &[] },
        Codepoint { codepoint: 0x101E5, name: "PHAISTOS DISC SIGN SLING", aliases: &[] },
        Codepoint { codepoint: 0x101E6, name: "PHAISTOS DISC SIGN COLUMN", aliases: &[] },
        Codepoint { codepoint: 0x101E7, name: "PHAISTOS DISC SIGN BEEHIVE", aliases: &[] },
        Codepoint { codepoint: 0x101E8, name: "PHAISTOS DISC SIGN SHIP", aliases: &[] },
        Codepoint { codepoint: 0x101E9, name: "PHAISTOS DISC SIGN HORN", aliases: &[] },
        Codepoint { codepoint: 0x101EA, name: "PHAISTOS DISC SIGN HIDE", aliases: &[] },
        Codepoint { codepoint: 0x101EB, name: "PHAISTOS DISC SIGN BULLS LEG", aliases: &[] },
        Codepoint { codepoint: 0x101EC, name: "PHAISTOS DISC SIGN CAT", aliases: &[] },
    ];
    assert(v@ =~= codepoint_table_431());
    v
}

pub open spec fn codepoint_table_432() -> Seq<Codepoint> {
    seq![
        Codepoint { codepoint: 0x101ED, name: "PHAISTOS DISC SIGN RAM", aliases: &[] },
        Codepoint { codepoint: 0x101EE, name: "PHAISTOS DISC SIGN EAGLE", aliases: &[] },
        Codepoint { codepoint: 0x101EF, name: "PHAISTOS DISC SIGN DOVE", aliases: &[] },
        Codepoint { codepoint: 0x101F0, name: "PHAISTOS DISC SIGN TUNNY", aliases: &[] },
        Codepoint { codepoint: 0x101F1, name: "PHAISTOS DISC SIGN BEE", aliases: &[] },
        Codepoint { codepoint: 0x101F2, name: "PHAISTOS DISC SIGN PLANE TREE", aliases: &[] },
        Codepoint { codepoint: 0x101F3, name: "PHAISTOS DISC SIGN VINE", aliases: &[] },
        Codepoint { codepoint: 0x101F4, name: "PHAISTOS DISC SIGN PAPYRUS", aliases: &[] },
        Codepoint { codepoint: 0x101F5, name: "PHAISTOS DISC SIGN ROSETTE", aliases: &[] },
        Codepoint { codepoint: 0x101F6, name: "PHAISTOS DISC SIGN LILY", aliases: &[] },
        Codepoint { codepoint: 0x101F7, name: "PHAISTOS DISC SIGN OX BACK", aliases: &[] },
        Codepoint { codepoint: 0x101F8, name: "PHAISTOS DISC SIGN FLUTE", aliases: &[] },
        Codepoint { codepoint: 0x101F9, name: "PHAISTOS DISC SIGN GRATER", aliases: &[] },
        Codepoint { codepoint: 0x101FA, name: "PHAISTOS DISC SIGN STRAINER", aliases: &[] },
        Codepoint { codepoint: 0x101FB, name: "PHAISTOS DISC SIGN SMALL AXE", aliases: &[] },
        Codepoint { codepoint: 0x101FC, name: "PHAISTOS DISC SIGN WAVY BAND", aliases: &[] },
        Codepoint { codepoint: 0x101FD, name: "PHAISTOS DISC SIGN COMBINING OBLIQUE STROKE", aliases: &[] },
        Codepoint { codepoint: 0x10280, name: "LYCIAN LETTER A", aliases: &[] },
        Codepoint { codepoint: 0x10281, name: "LYCIAN LETTER E", aliases: &[] },
        Codepoint { codepoint: 0x10282, name: "LYCIAN LETTER B", aliases: &[] },
        Codepoint { codepoint: 0x10283, name: "LYCIAN LETTER BH", aliases: &[] },
        Codepoint { codepoint: 0x10284, name: "LYCIAN LETTER G", aliases: &[] },
        Codepoint { codepoint: 0x10285, name: "LYCIAN LETTER D", aliases: &[] },
        Codepoint { codepoint: 0x10286, name: "LYCIAN LETTER I", aliases: &[] },
        Codepoint { codepoint: 0x10287, name: "LYCIAN LETTER W", aliases: &[] },
        Codepoint { codepoint: 0x10288, name: "LYCIAN LETTER Z", aliases: &[] },
        Codepoint { codepoint: 0x10289, name: "LYCIAN LETTER TH", aliases: &[] },
        Codepoint { codepoint: 0x1028A, name: "LYCIAN LETTER J", aliases: &[] },
        Codepoint { codepoint: 0x1028B, name: "LYCIAN LETTER K", aliases: &[] },
        Codepoint { codepoint: 0x1028C, name: "LYCIAN LETTER Q", aliases: &[] },
        Codepoint { codepoint: 0x1028D, name: "LYCIAN LETTER L", aliases: &[] },
        Codepoint { codepoint: 0x1028E, name: "LYCIAN LETTER M", aliases: &[] },
        Codepoint { codepoint: 0x1028F, name: "LYCIAN LETTER N", aliases: &[] },
        Codepoint { codepoint: 0x10290, name: "LYCIAN LETTER MM", aliases: &[] },
        Codepoint { codepoint: 0x10291, name: "LYCIAN LETTER NN", aliases: &[] },
        Codepoint { codepoint: 0x10292, name: "LYCIAN LETTER U", aliases: &[] },
        Codepoint { codepoint: 0x10293, name: "LYCIAN LETTER P", aliases: &[] },
        Codepoint { codepoint: 0x10294, name: "LYCIAN LETTER KK", aliases: &[] },
        Codepoint { codepoint: 0x10295, name: "LYCIAN LETTER R", aliases: &[] },
        Codepoint { codepoint: 0x10296, name: "LYCIAN LETTER S", aliases: &[] },
    ]
}

fn all_codepoints_432() -> (v: Vec<Codepoint>)
    ensures
        v@ == codepoint_table_432(),
{
    let v = vec![
        Codepoint { codepoint: 0x101ED, name: "PHAISTOS DISC SIGN RAM", aliases: &[] },
        Codepoint { codepoint: 0x101EE, name: "PHAISTOS DISC SIGN EAGLE", aliases: &[] },
        Codepoint { codepoint: 0x101EF, name: "PHAISTOS DISC SIGN DOVE", aliases: &[] },
        Codepoint { codepoint: 0x101F0, name: "PHAISTOS DISC SIGN TUNNY", aliases: &[] },
        Codepoint { codepoint: 0x101F1, name: "PHAISTOS DISC SIGN BEE", aliases: &[] },
        Codepoint { codepoint: 0x101F2, name: "PHAISTOS DISC SIGN PLANE TREE", aliases: &[] },
        Codepoint { codepoint: 0x101F3, name: "PHAISTOS DISC SIGN VINE", aliases: &[] },
        Codepoint { codepoint: 0x101F4, name: "PHAISTOS DISC SIGN PAPYRUS", aliases: &[] },
        Codepoint { codepoint: 0x101F5, name: "PHAISTOS DISC SIGN ROSETTE", aliases: &[] },
        Codepoint { codepoint: 0x101F6, name: "PHAISTOS DISC SIGN LILY", aliases: &[] },
        Codepoint { codepoint: 0x101F7, name: "PHAISTOS DISC SIGN OX BACK", aliases: &[] },
        Codepoint { codepoint: 0x101F8, name: "PHAISTOS DISC SIGN FLUTE", aliases: &[] },
        Codepoint { codepoint: 0x101F9, name: "PHAISTOS DISC SIGN GRATER", aliases: &[] },
        Codepoint { codepoint: 0x101FA, name: "PHAISTOS DISC SIGN STRAINER", aliases: &[] },
        Codepoint { codepoint: 0x101FB, name: "PHAISTOS DISC SIGN SMALL AXE", aliases: &[] },
        Codepoint { codepoint: 0x101FC, name: "PHAISTOS DISC SIGN WAVY BAND", aliases: &[] },
        Codepoint { codepoint: 0x101FD, name: "PHAISTOS DISC SIGN COMBINING OBLIQUE STROKE", aliases: &[] },
        Codepoint { codepoint: 0x10280, name: "LYCIAN LETTER A", aliases: &[] },
        Codepoint { codepoint: 0x10281, name: "LYCIAN LETTER E", aliases: &[] },
        Codepoint { codepoint: 0x10282, name: "LYCIAN LETTER B", aliases: &[] },
        Codepoint { codepoint: 0x10283, name: "LYCIAN LETTER BH", aliases: &[] },
        Codepoint { codepoint: 0x10284, name: "LYCIAN LETTER G", aliases: &[] },
        Codepoint { codepoint: 0x10285, name: "LYCIAN LETTER D", aliases: &[] },
        Codepoint { codepoint: 0x10286, name: "LYCIAN LETTER I", aliases: &[] },
        Codepoint { codepoint: 0x10287, name: "LYCIAN LETTER W", aliases: &[] },
        Codepoint { codepoint: 0x10288, name: "LYCIAN LETTER Z", aliases: &[] },
        Codepoint { codepoint: 0x10289, name: "LYCIAN LETTER TH", aliases: &[] },
        Codepoint { codepoint: 0x1028A, name: "LYCIAN LETTER J", aliases: &[] },
        Codepoint { codepoint: 0x1028B, name: "LYCIAN LETTER K", aliases: &[] },
        Codepoint { codepoint: 0x1028C, name: "LYCIAN LETTER Q", aliases: &[] },
        Codepoint { codepoint: 0x1028D, name: "LYCIAN LETTER L", aliases: &[] },
        Codepoint { codepoint: 0x1028E, name: "LYCIAN LETTER M", aliases: &[] },
        Codepoint { codepoint: 0x1028F, name: "LYCIAN LETTER N", aliases: &[] },
        Codepoint { codepoint: 0x10290, name: "LYCIAN LETTER MM", aliases: &[] },
        Codepoint { codepoint: 0x10291, name: "LYCIAN LETTER NN", aliases: &[] },
        Codepoint { codepoint: 0x10292, name: "LYCIAN LETTER U", aliases: &[] },
        Codepoint { codepoint: 0x10293, name: "LYCIAN LETTER P", aliases: &[] },
        Codepoint { codepoint: 0x10294, name: "LYCIAN LETTER KK", aliases: &[] },
        Codepoint { codepoint: 0x10295, name: "LYCIAN LETTER R", aliases: &[] },
        Codepoint { codepoint: 0x10296, name: "LYCIAN LETTER S", aliases: &[] },
    ];
    assert(v@ =~= codepoint_table_432());
    v
}

pub open spec fn codepoint_table_433() -> Seq<Codepoint> {
    seq![
        Codepoint { codepoint: 0x10297, name: "LYCIAN LETTER T", aliases: &[] },
        Codepoint { codepoint: 0x10298, name: "LYCIAN LETTER TT", aliases: &[] },
        Codepoint { codepoint: 0x10299, name: "LYCIAN LETTER AN", aliases: &[] },
        Codepoint { codepoint: 0x1029A, name: "LYCIAN LETTER EN", aliases: &[] },
        Codepoint { codepoint: 0x1029B, name: "LYCIAN LETTER H", aliases: &[] },
        Codepoint { codepoint: 0x1029C, name: "LYCIAN LETTER X", aliases: &[] },
        Codepoint { codepoint: 0x102A0, name: "CARIAN LETTER A", aliases: &[] },
        Codepoint { codepoint: 0x102A1, name: "CARIAN LETTER P2", aliases: &[] },
        Codepoint { codepoint: 0x102A2, name: "CARIAN LETTER D", aliases: &[] },
        Codepoint { codepoint: 0x102A3, name: "CARIAN LETTER L", aliases: &[] },
        Codepoint { codepoint: 0x102A4, name: "CARIAN LETTER UUU", aliases: &[] },
        Codepoint { codepoint: 0x102A5, name: "CARIAN LETTER R", aliases: &[] },
        Codepoint { codepoint: 0x102A6, name: "CARIAN LETTER LD", aliases: &[] },
        Codepoint { codepoint: 0x102A7, name: "CARIAN LETTER A2", aliases: &[] },
        Codepoint { codepoint: 0x102A8, name: "CARIAN LETTER Q", aliases: &[] },
        Codepoint { codepoint: 0x102A9, name: "CARIAN LETTER B", aliases: &[] },
        Codepoint { codepoint: 0x102AA, name: "CARIAN LETTER M", aliases: &[] },
        Codepoint { codepoint: 0x102AB, name: "CARIAN LETTER O", aliases: &[] },
        Codepoint { codepoint: 0x102AC, name: "CARIAN LETTER D2", aliases: &[] },
        Codepoint { codepoint: 0x102AD, name: "CARIAN LETTER T", aliases: &[] },
        Codepoint { codepoint: 0x102AE, name: "CARIAN LETTER SH", aliases: &[] },
        Codepoint { codepoint: 0x102AF, name: "CARIAN LETTER SH2", aliases: &[] },
        Codepoint { codepoint: 0x102B0, name: "CARIAN LETTER S", aliases: &[] },
        Codepoint { codepoint: 0x102B1, name: "CARIAN LETTER C-18", aliases: &[] },
        Codepoint { codepoint: 0x102B2, name: "CARIAN LETTER U", aliases: &[] },
        Codepoint { codepoint: 0x102B3, name: "CARIAN LETTER NN", aliases: &[] },
        Codepoint { codepoint: 0x102B4, name: "CARIAN LETTER X", aliases: &[] },
        Codepoint { codepoint: 0x102B5, name: "CARIAN LETTER N", aliases: &[] },
        Codepoint { codepoint: 0x102B6, name: "CARIAN LETTER TT2", aliases: &[] },
        Codepoint { codepoint: 0x102B7, name: "CARIAN LETTER P", aliases: &[] },
        Codepoint { codepoint: 0x102B8, name: "CARIAN LETTER SS", aliases: &[] },
        Codepoint { codepoint: 0x102B9, name: "CARIAN LETTER I", aliases: &[] },
        Codepoint { codepoint: 0x102BA, name: "CARIAN LETTER E", aliases: &[] },
        Codepoint { codepoint: 0x102BB, name: "CARIAN LETTER UUUU", aliases: &[] },
        Codepoint { codepoint: 0x102BC, name: "CARIAN LETTER K", aliases: &[] },
        Codepoint { codepoint: 0x102BD, name: "CARIAN LETTER K2", aliases: &[] },
        Codepoint { codepoint: 0x102BE, name: "CARIAN LETTER ND", aliases: &[] },
        Codepoint { codepoint: 0x102BF, name: "CARIAN LETTER UU", aliases: &[] },
        Codepoint { codepoint: 0x102C0, name: "CARIAN LETTER G", aliases: &[] },
        Codepoint { codepoint: 0x102C1, name: "CARIAN LETTER G2", aliases: &[] },
    ]
}

fn all_codepoints_433() -> (v: Vec<Codepoint>)
    ensures
        v@ == codepoint_table_433(),
{
    let v = vec![
        Codepoint { codepoint: 0x10297, name: "LYCIAN LETTER T", aliases: &[] },
        Codepoint { codepoint: 0x10298, name: "LYCIAN LETTER TT", aliases: &[] },
        Codepoint { codepoint: 0x10299, name: "LYCIAN LETTER AN", aliases: &[] },
        Codepoint { codepoint: 0x1029A, name: "LYCIAN LETTER EN", aliases: &[] },
        Codepoint { codepoint: 0x1029B, name: "LYCIAN LETTER H", aliases: &[] },
        Codepoint { codepoint: 0x1029C, name: "LYCIAN LETTER X", aliases: &[] },
        Codepoint { codepoint: 0x102A0, name: "CARIAN LETTER A", aliases: &[] },
        Codepoint { codepoint: 0x102A1, name: "CARIAN LETTER P2", aliases: &[] },
        Codepoint { codepoint: 0x102A2, name: "CARIAN LETTER D", aliases: &[] },
        Codepoint { codepoint: 0x102A3, name: "CARIAN LETTER L", aliases: &[] },
        Codepoint { codepoint: 0x102A4, name: "CARIAN LETTER UUU", aliases: &[] },
        Codepoint { codepoint: 0x102A5, name: "CARIAN LETTER R", aliases: &[] },
        Codepoint { codepoint: 0x102A6, name: "CARIAN LETTER LD", aliases: &[] },
        Codepoint { codepoint: 0x102A7, name: "CARIAN LETTER A2", aliases: &[] },
        Codepoint { codepoint: 0x102A8, name: "CARIAN LETTER Q", aliases: &[] },
        Codepoint { codepoint: 0x102A9, name: "CARIAN LETTER B", aliases: &[] },
        Codepoint { codepoint: 0x102AA, name: "CARIAN LETTER M", aliases: &[] },
        Codepoint { codepoint: 0x102AB, name: "CARIAN LETTER O", aliases: &[] },
        Codepoint { codepoint: 0x102AC, name: "CARIAN LETTER D2", aliases: &[] },
        Codepoint { codepoint: 0x102AD, name: "CARIAN LETTER T", aliases: &[] },
        Codepoint { codepoint: 0x102AE, name: "CARIAN LETTER SH", aliases: &[] },
        Codepoint { codepoint: 0x102AF, name: "CARIAN LETTER SH2", aliases: &[] },
        Codepoint { codepoint: 0x102B0, name: "CARIAN LETTER S", aliases: &[] },
        Codepoint { codepoint: 0x102B1, name: "CARIAN LETTER C-18", aliases: &[] },
        Codepoint { codepoint: 0x102B2, name: "CARIAN LETTER U", aliases: &[] },
        Codepoint { codepoint: 0x102B3, name: "CARIAN LETTER NN", aliases: &[] },
        Codepoint { codepoint: 0x102B4, name: "CARIAN LETTER X", aliases: &[] },
        Codepoint { codepoint: 0x102B5, name: "CARIAN LETTER N", aliases: &[] },
        Codepoint { codepoint: 0x102B6, name: "CARIAN LETTER TT2", aliases: &[] },
        Codepoint { codepoint: 0x102B7, name: "CARIAN LETTER P", aliases: &[] },
        Codepoint { codepoint: 0x102B8, name: "CARIAN LETTER SS", aliases: &[] },
        Codepoint { codepoint: 0x102B9, name: "CARIAN LETTER I", aliases: &[] },
        Codepoint { codepoint: 0x102BA, name: "CARIAN LETTER E", aliases: &[] },
        Codepoint { codepoint: 0x102BB, name: "CARIAN LETTER UUUU", aliases: &[] },
        Codepoint { codepoint: 0x102BC, name: "CARIAN LETTER K", aliases: &[] },
        Codepoint { codepoint: 0x102BD, name: "CARIAN LETTER K2", aliases: &[] },
        Codepoint { codepoint: 0x102BE, name: "CARIAN LETTER ND", aliases: &[] },
        Codepoint { codepoint: 0x102BF, name: "CARIAN LETTER UU", aliases: &[] },
        Codepoint { codepoint: 0x102C0, name: "CARIAN LETTER G", aliases: &[] },
        Codepoint { codepoint: 0x102C1, name: "CARIAN LETTER G2", aliases: &[] },
    ];
    assert(v@ =~= codepoint_table_433());
    v
}

pub open spec fn codepoint_table_434() -> Seq<Codepoint> {
    seq![
        Codepoint { codepoint: 0x102C2, name: "CARIAN LETTER ST", aliases: &[] },
        Codepoint { codepoint: 0x102C3, name: "CARIAN LETTER ST2", aliases: &[] },
        Codepoint { codepoint: 0x102C4, name: "CARIAN LETTER NG", aliases: &[] },
        Codepoint { codepoint: 0x102C5, name: "CARIAN LETTER II", aliases: &[] },
        Codepoint { codepoint: 0x102C6, name: "CARIAN LETTER C-39", aliases: &[] },
        Codepoint { codepoint: 0x102C7, name: "CARIAN LETTER TT", aliases: &[] },
        Codepoint { codepoint: 0x102C8, name: "CARIAN LETTER UUU2", aliases: &[] },
        Codepoint { codepoint: 0x102C9, name: "CARIAN LETTER RR", aliases: &[] },
        Codepoint { codepoint: 0x102CA, name: "CARIAN LETTER MB", aliases: &[] },
        Codepoint { codepoint: 0x102CB, name: "CARIAN LETTER MB2", aliases: &[] },
        Codepoint { codepoint: 0x102CC, name: "CARIAN LETTER MB3", aliases: &[] },
        Codepoint { codepoint: 0x102CD, name: "CARIAN LETTER MB4", aliases: &[] },
        Codepoint { codepoint: 0x102CE, name: "CARIAN LETTER LD2", aliases: &[] },
        Codepoint { codepoint: 0x102CF, name: "CARIAN LETTER E2", aliases: &[] },
        Codepoint { codepoint: 0x102D0, name: "CARIAN LETTER UUU3", aliases: &[] },
        Codepoint { codepoint: 0x102E0, name: "COPTIC EPACT THOUSANDS MARK", aliases: &[] },
        Codepoint { codepoint: 0x102E1, name: "COPTIC EPACT DIGIT ONE", aliases: &[] },
        Codepoint { codepoint: 0x102E2, name: "COPTIC EPACT DIGIT TWO", aliases: &[] },
        Codepoint { codepoint: 0x102E3, name: "COPTIC EPACT DIGIT THREE", aliases: &[] },
        Codepoint { codepoint: 0x102E4, name: "COPTIC EPACT DIGIT FOUR", aliases: &[] },
        Codepoint { codepoint: 0x102E5, name: "COPTIC EPACT DIGIT FIVE", aliases: &[] },
        Codepoint { codepoint: 0x102E6, name: "COPTIC EPACT DIGIT SIX", aliases: &[] },
        Codepoint { codepoint: 0x102E7, name: "COPTIC EPACT DIGIT SEVEN", aliases: &[] },
        Codepoint { codepoint: 0x102E8, name: "COPTIC EPACT DIGIT EIGHT", aliases: &[] },
        Codepoint { codepoint: 0x102E9, name: "COPTIC EPACT DIGIT NINE", aliases: &[] },
        Codepoint { codepoint: 0x102EA, name: "COPTIC EPACT NUMBER TEN", aliases: &[] },
        Codepoint { codepoint: 0x102EB, name: "COPTIC EPACT NUMBER TWENTY", aliases: &[] },
        Codepoint { codepoint: 0x102EC, name: "COPTIC EPACT NUMBER THIRTY", aliases: &[] },
        Codepoint { codepoint: 0x102ED, name: "COPTIC EPACT NUMBER FORTY", aliases: &[] },
        Codepoint { codepoint: 0x102EE, name: "COPTIC EPACT NUMBER FIFTY", aliases: &[] },
        Codepoint { codepoint: 0x102EF, name: "COPTIC EPACT NUMBER SIXTY", aliases: &[] },
        Codepoint { codepoint: 0x102F0, name: "COPTIC EPACT NUMBER SEVENTY", aliases: &[] },
        Codepoint { codepoint: 0x102F1, name: "COPTIC EPACT NUMBER EIGHTY", aliases: &[] },
        Codepoint { codepoint: 0x102F2, name: "COPTIC EPACT NUMBER NINETY", aliases: &[] },
        Codepoint { codepoint: 0x102F3, name: "COPTIC EPACT NUMBER ONE HUNDRED", aliases: &[] },
        Codepoint { codepoint: 0x102F4, name: "COPTIC EPACT NUMBER TWO HUNDRED", aliases: &[] },
        Codepoint { codepoint: 0x102F5, name: "COPTIC EPACT NUMBER THREE HUNDRED", aliases: &[] },
        Codepoint { codepoint: 0x102F6, name: "COPTIC EPACT NUMBER FOUR HUNDRED", aliases: &[] },
        Codepoint { codepoint: 0x102F7, name: "COPTIC EPACT NUMBER FIVE HUNDRED", aliases: &[] },
        Codepoint { codepoint: 0x102F8, name: "COPTIC EPACT NUMBER SIX HUNDRED", aliases: &[] },
    ]
}

fn all_codepoints_434() -> (v: Vec<Codepoint>)
    ensures
        v@ == codepoint_table_434(),
{
    let v = vec![
        Codepoint { codepoint: 0x102C2, name: "CARIAN LETTER ST", aliases: &[] },
        Codepoint { codepoint: 0x102C3, name: "CARIAN LETTER ST2", aliases: &[] },
        Codepoint { codepoint: 0x102C4, name: "CARIAN LETTER NG", aliases: &[] },
        Codepoint { codepoint: 0x102C5, name: "CARIAN LETTER II", aliases: &[] },
        Codepoint { codepoint: 0x102C6, name: "CARIAN LETTER C-39", aliases: &[] },
        Codepoint { codepoint: 0x102C7, name: "CARIAN LETTER TT", aliases: &[] },
        Codepoint { codepoint: 0x102C8, name: "CARIAN LETTER UUU2", aliases: &[] },
        Codepoint { codepoint: 0x102C9, name: "CARIAN LETTER RR", aliases: &[] },
        Codepoint { codepoint: 0x102CA, name: "CARIAN LETTER MB", aliases: &[] },
        Codepoint { codepoint: 0x102CB, name: "CARIAN LETTER MB2", aliases: &[] },
        Codepoint { codepoint: 0x102CC, name: "CARIAN LETTER MB3", aliases: &[] },
        Codepoint { codepoint: 0x102CD, name: "CARIAN LETTER MB4", aliases: &[] },
        Codepoint { codepoint: 0x102CE, name: "CARIAN LETTER LD2", aliases: &[] },
        Codepoint { codepoint: 0x102CF, name: "CARIAN LETTER E2", aliases: &[] },
        Codepoint { codepoint: 0x102D0, name: "CARIAN LETTER UUU3", aliases: &[] },
        Codepoint { codepoint: 0x102E0, name: "COPTIC EPACT THOUSANDS MARK", aliases: &[] },
        Codepoint { codepoint: 0x102E1, name: "COPTIC EPACT DIGIT ONE", aliases: &[] },
        Codepoint { codepoint: 0x102E2, name: "COPTIC EPACT DIGIT TWO", aliases: &[] },
        Codepoint { codepoint: 0x102E3, name: "COPTIC EPACT DIGIT THREE", aliases: &[] },
        Codepoint { codepoint: 0x102E4, name: "COPTIC EPACT DIGIT FOUR", aliases: &[] },
        Codepoint { codepoint: 0x102E5, name: "COPTIC EPACT DIGIT FIVE", aliases: &[] },
        Codepoint { codepoint: 0x102E6, name: "COPTIC EPACT DIGIT SIX", aliases: &[] },
        Codepoint { codepoint: 0x102E7, name: "COPTIC EPACT DIGIT SEVEN", aliases: &[] },
        Codepoint { codepoint: 0x102E8, name: "COPTIC EPACT DIGIT EIGHT", aliases: &[] },
        Codepoint { codepoint: 0x102E9, name: "COPTIC EPACT DIGIT NINE", aliases: &[] },
        Codepoint { codepoint: 0x102EA, name: "COPTIC EPACT NUMBER TEN", aliases: &[] },
        Codepoint { codepoint: 0x102EB, name: "COPTIC EPACT NUMBER TWENTY", aliases: &[] },
        Codepoint { codepoint: 0x102EC, name: "COPTIC EPACT NUMBER THIRTY", aliases: &[] },
        Codepoint { codepoint: 0x102ED, name: "COPTIC EPACT NUMBER FORTY", aliases: &[] },
        Codepoint { codepoint: 0x102EE, name: "COPTIC EPACT NUMBER FIFTY", aliases: &[] },
        Codepoint { codepoint: 0x102EF, name: "COPTIC EPACT NUMBER SIXTY", aliases: &[] },
        Codepoint { codepoint: 0x102F0, name: "COPTIC EPACT NUMBER SEVENTY", aliases: &[] },
        Codepoint { codepoint: 0x102F1, name: "COPTIC EPACT NUMBER EIGHTY", aliases: &[] },
        Codepoint { codepoint: 0x102F2, name: "COPTIC EPACT NUMBER NINETY", aliases: &[] },
        Codepoint { codepoint: 0x102F3, name: "COPTIC EPACT NUMBER ONE HUNDRED", aliases: &[] },
        Codepoint { codepoint: 0x102F4, name: "COPTIC EPACT NUMBER TWO HUNDRED", aliases: &[] },
        Codepoint { codepoint: 0x102F5, name: "COPTIC EPACT NUMBER THREE HUNDRED", aliases: &[] },
        Codepoint { codepoint: 0x102F6, name: "COPTIC EPACT NUMBER FOUR HUNDRED", aliases: &[] },
        Codepoint { codepoint: 0x102F7, name: "COPTIC EPACT NUMBER FIVE HUNDRED", aliases: &[] },
        Codepoint { codepoint: 0x102F8, name: "COPTIC EPACT NUMBER SIX HUNDRED", aliases: &[] },
    ];
    assert(v@ =~= codepoint_table_434());
    v
}

pub open spec fn codepoint_table_435() -> Seq<Codepoint> {
    seq![
        Codepoint { codepoint: 0x102F9, name: "COPTIC EPACT NUMBER SEVEN HUNDRED", aliases: &[] },
        Codepoint { codepoint: 0x102FA, name: "COPTIC EPACT NUMBER EIGHT HUNDRED", aliases: &[] },
        Codepoint { codepoint: 0x102FB, name: "COPTIC EPACT NUMBER NINE HUNDRED", aliases: &[] },
        Codepoint { codepoint: 0x10300, name: "OLD ITALIC LETTER A", aliases: &[] },
        Codepoint { codepoint: 0x10301, name: "OLD ITALIC LETTER BE", aliases: &[] },
        Codepoint { codepoint: 0x10302, name: "OLD ITALIC LETTER KE", aliases: &[] },
        Codepoint { codepoint: 0x10303, name: "OLD ITALIC LETTER DE", aliases: &[] },
        Codepoint { codepoint: 0x10304, name: "OLD ITALIC LETTER E", aliases: &[] },
        Codepoint { codepoint: 0x10305, name: "OLD ITALIC LETTER VE", aliases: &[] },
        Codepoint { codepoint: 0x10306, name: "OLD ITALIC LETTER ZE", aliases: &[] },
        Codepoint { codepoint: 0x10307, name: "OLD ITALIC LETTER HE", aliases: &[] },
        Codepoint { codepoint: 0x10308, name: "OLD ITALIC LETTER THE", aliases: &[] },
        Codepoint { codepoint: 0x10309, name: "OLD ITALIC LETTER I", aliases: &[] },
        Codepoint { codepoint: 0x1030A, name: "OLD ITALIC LETTER KA", aliases: &[] },
        Codepoint { codepoint: 0x1030B, name: "OLD ITALIC LETTER EL", aliases: &[] },
        Codepoint { codepoint: 0x1030C, name: "OLD ITALIC LETTER EM", aliases: &[] },
        Codepoint { codepoint: 0x1030D, name: "OLD ITALIC LETTER EN", aliases: &[] },
        Codepoint { codepoint: 0x1030E, name: "OLD ITALIC LETTER ESH", aliases: &[] },
        Codepoint { codepoint: 0x1030F, name: "OLD ITALIC LETTER O", aliases: &[] },
        Codepoint { codepoint: 0x10310, name: "OLD ITALIC LETTER PE", aliases: &[] },
        Codepoint { codepoint: 0x10311, name: "OLD ITALIC LETTER SHE", aliases: &[] },
        Codepoint { codepoint: 0x10312, name: "OLD ITALIC LETTER KU", aliases: &[] },
        Codepoint { codepoint: 0x10313, name: "OLD ITALIC LETTER ER", aliases: &[] },
        Codepoint { codepoint: 0x10314, name: "OLD ITALIC LETTER ES", aliases: &[] },
        Codepoint { codepoint: 0x10315, name: "OLD ITALIC LETTER TE", aliases: &[] },
        Codepoint { codepoint: 0x10316, name: "OLD ITALIC LETTER U", aliases: &[] },
        Codepoint { codepoint: 0x10317, name: "OLD ITALIC LETTER EKS", aliases: &[] },
        Codepoint { codepoint: 0x10318, name: "OLD ITALIC LETTER PHE", aliases: &[] },
        Codepoint { codepoint: 0x10319, name: "OLD ITALIC LETTER KHE", aliases: &[] },
        Codepoint { codepoint: 0x1031A, name: "OLD ITALIC LETTER EF", aliases: &[] },
        Codepoint { codepoint: 0x1031B, name: "OLD ITALIC LETTER ERS", aliases: &[] },
        Codepoint { codepoint: 0x1031C, name: "OLD ITALIC LETTER CHE", aliases: &[] },
        Codepoint { codepoint: 0x1031D, name: "OLD ITALIC LETTER II", aliases: &[] },
        Codepoint { codepoint: 0x1031E, name: "OLD ITALIC LETTER UU", aliases: &[] },
        Codepoint { codepoint: 0x1031F, name: "OLD ITALIC LETTER ESS", aliases: &[] },
        Codepoint { codepoint: 0x10320, name: "OLD ITALIC NUMERAL ONE", aliases: &[] },
        Codepoint { codepoint: 0x10321, name: "OLD ITALIC NUMERAL FIVE", aliases: &[] },
        Codepoint { codepoint: 0x10322, name: "OLD ITALIC NUMERAL TEN", aliases: &[] },
        Codepoint { codepoint: 0x10323, name: "OLD ITALIC NUMERAL FIFTY", aliases: &[] },
        Codepoint { codepoint: 0x1032D, name: "OLD ITALIC LETTER YE", aliases: &[] },
    ]
}

fn all_codepoints_435() -> (v: Vec<Codepoint>)
    ensures
        v@ == codepoint_table_435(),
{
    let v = vec![
        Codepoint { codepoint: 0x102F9, name: "COPTIC EPACT NUMBER SEVEN HUNDRED", aliases: &[] },
        Codepoint { codepoint: 0x102FA, name: "COPTIC EPACT NUMBER EIGHT HUNDRED", aliases: &[] },
        Codepoint { codepoint: 0x102FB, name: "COPTIC EPACT NUMBER NINE HUNDRED", aliases: &[] },
        Codepoint { codepoint: 0x10300, name: "OLD ITALIC LETTER A", aliases: &[] },
        Codepoint { codepoint: 0x10301, name: "OLD ITALIC LETTER BE", aliases: &[] },
        Codepoint { codepoint: 0x10302, name: "OLD ITALIC LETTER KE", aliases: &[] },
        Codepoint { codepoint: 0x10303, name: "OLD ITALIC LETTER DE", aliases: &[] },
        Codepoint { codepoint: 0x10304, name: "OLD ITALIC LETTER E", aliases: &[] },
        Codepoint { codepoint: 0x10305, name: "OLD ITALIC LETTER VE", aliases: &[] },
        Codepoint { codepoint: 0x10306, name: "OLD ITALIC LETTER ZE", aliases: &[] },
        Codepoint { codepoint: 0x10307, name: "OLD ITALIC LETTER HE", aliases: &[] },
        Codepoint { codepoint: 0x10308, name: "OLD ITALIC LETTER THE", aliases: &[] },
        Codepoint { codepoint: 0x10309, name: "OLD ITALIC LETTER I", aliases: &[] },
        Codepoint { codepoint: 0x1030A, name: "OLD ITALIC LETTER KA", aliases: &[] },
        Codepoint { codepoint: 0x1030B, name: "OLD ITALIC LETTER EL", aliases: &[] },
        Codepoint { codepoint: 0x1030C, name: "OLD ITALIC LETTER EM", aliases: &[] },
        Codepoint { codepoint: 0x1030D, name: "OLD ITALIC LETTER EN", aliases: &[] },
        Codepoint { codepoint: 0x1030E, name: "OLD ITALIC LETTER ESH", aliases: &[] },
        Codepoint { codepoint: 0x1030F, name: "OLD ITALIC LETTER O", aliases: &[] },
        Codepoint { codepoint: 0x10310, name: "OLD ITALIC LETTER PE", aliases: &[] },
        Codepoint { codepoint: 0x10311, name: "OLD ITALIC LETTER SHE", aliases: &[] },
        Codepoint { codepoint: 0x10312, name: "OLD ITALIC LETTER KU", aliases: &[] },
        Codepoint { codepoint: 0x10313, name: "OLD ITALIC LETTER ER", aliases: &[] },
        Codepoint { codepoint: 0x10314, name: "OLD ITALIC LETTER ES", aliases: &[] },
        Codepoint { codepoint: 0x10315, name: "OLD ITALIC LETTER TE", aliases: &[] },
        Codepoint { codepoint: 0x10316, name: "OLD ITALIC LETTER U", aliases: &[] },
        Codepoint { codepoint: 0x10317, name: "OLD ITALIC LETTER EKS", aliases: &[] },
        Codepoint { codepoint: 0x10318, name: "OLD ITALIC LETTER PHE", aliases: &[] },
        Codepoint { codepoint: 0x10319, name: "OLD ITALIC LETTER KHE", aliases: &[] },
        Codepoint { codepoint: 0x1031A, name: "OLD ITALIC LETTER EF", aliases: &[] },
        Codepoint { codepoint: 0x1031B, name: "OLD ITALIC LETTER ERS", aliases: &[] },
        Codepoint { codepoint: 0x1031C, name: "OLD ITALIC LETTER CHE", aliases: &[] },
        Codepoint { codepoint: 0x1031D, name: "OLD ITALIC LETTER II", aliases: &[] },
        Codepoint { codepoint: 0x1031E, name: "OLD ITALIC LETTER UU", aliases: &[] },
        Codepoint { codepoint: 0x1031F, name: "OLD ITALIC LETTER ESS", aliases: &[] },
        Codepoint { codepoint: 0x10320, name: "OLD ITALIC NUMERAL ONE", aliases: &[] },
        Codepoint { codepoint: 0x10321, name: "OLD ITALIC NUMERAL FIVE", aliases: &[] },
        Codepoint { codepoint: 0x10322, name: "OLD ITALIC NUMERAL TEN", aliases: &[] },
        Codepoint { codepoint: 0x10323, name: "OLD ITALIC NUMERAL FIFTY", aliases: &[] },
        Codepoint { codepoint: 0x1032D, name: "OLD ITALIC LETTER YE", aliases: &[] },
    ];
    assert(v@ =~= codepoint_table_435());
    v
}

pub open spec fn codepoint_table_436() -> Seq<Codepoint> {
    seq![
        Codepoint { codepoint: 0x1032E, name: "OLD ITALIC LETTER NORTHERN TSE", aliases: &[] },
        Codepoint { codepoint: 0x1032F, name: "OLD ITALIC LETTER SOUTHERN TSE", aliases: &[] },
        Codepoint { codepoint: 0x10330, name: "GOTHIC LETTER AHSA", aliases: &[] },
        Codepoint { codepoint: 0x10331, name: "GOTHIC LETTER BAIRKAN", aliases: &[] },
        Codepoint { codepoint: 0x10332, name: "GOTHIC LETTER GIBA", aliases: &[] },
        Codepoint { codepoint: 0x10333, name: "GOTHIC LETTER DAGS", aliases: &[] },
        Codepoint { codepoint: 0x10334, name: "GOTHIC LETTER AIHVUS", aliases: &[] },
        Codepoint { codepoint: 0x10335, name: "GOTHIC LETTER QAIRTHRA", aliases: &[] },
        Codepoint { codepoint: 0x10336, name: "GOTHIC LETTER IUJA", aliases: &[] },
        Codepoint { codepoint: 0x10337, name: "GOTHIC LETTER HAGL", aliases: &[] },
        Codepoint { codepoint: 0x10338, name: "GOTHIC LETTER THIUTH", aliases: &[] },
        Codepoint { codepoint: 0x10339, name: "GOTHIC LETTER EIS", aliases: &[] },
        Codepoint { codepoint: 0x1033A, name: "GOTHIC LETTER KUSMA", aliases: &[] },
        Codepoint { codepoint: 0x1033B, name: "GOTHIC LETTER LAGUS", aliases: &[] },
        Codepoint { codepoint: 0x1033C, name: "GOTHIC LETTER MANNA", aliases: &[] },
        Codepoint { codepoint: 0x1033D, name: "GOTHIC LETTER NAUTHS", aliases: &[] },
        Codepoint { codepoint: 0x1033E, name: "GOTHIC LETTER JER", aliases: &[] },
        Codepoint { codepoint: 0x1033F, name: "GOTHIC LETTER URUS", aliases: &[] },
        Codepoint { codepoint: 0x10340, name: "GOTHIC LETTER PAIRTHRA", aliases: &[] },
        Codepoint { codepoint: 0x10341, name: "GOTHIC LETTER NINETY", aliases: &[] },
        Codepoint { codepoint: 0x10342, name: "GOTHIC LETTER RAIDA", aliases: &[] },
        Codepoint { codepoint: 0x10343, name: "GOTHIC LETTER SAUIL", aliases: &[] },
        Codepoint { codepoint: 0x10344, name: "GOTHIC LETTER TEIWS", aliases: &[] },
        Codepoint { codepoint: 0x10345, name: "GOTHIC LETTER WINJA", aliases: &[] },
        Codepoint { codepoint: 0x10346, name: "GOTHIC LETTER FAIHU", aliases: &[] },
        Codepoint { codepoint: 0x10347, name: "GOTHIC LETTER IGGWS", aliases: &[] },
        Codepoint { codepoint: 0x10348, name: "GOTHIC LETTER HWAIR", aliases: &[] },
        Codepoint { codepoint: 0x10349, name: "GOTHIC LETTER OTHAL", aliases: &[] },
        Codepoint { codepoint: 0x1034A, name: "GOTHIC LETTER NINE HUNDRED", aliases: &[] },
        Codepoint { codepoint: 0x10350, name: "OLD PERMIC LETTER AN", aliases: &[] },
        Codepoint { codepoint: 0x10351, name: "OLD PERMIC LETTER BUR", aliases: &[] },
        Codepoint { codepoint: 0x10352, name: "OLD PERMIC LETTER GAI", aliases: &[] },
        Codepoint { codepoint: 0x10353, name: "OLD PERMIC LETTER DOI", aliases: &[] },
        Codepoint { codepoint: 0x10354, name: "OLD PERMIC LETTER E", aliases: &[] },
        Codepoint { codepoint: 0x10355, name: "OLD PERMIC LETTER ZHOI", aliases: &[] },
        Codepoint { codepoint: 0x10356, name: "OLD PERMIC LETTER DZHOI", aliases: &[] },
        Codepoint { codepoint: 0x10357, name: "OLD PERMIC LETTER ZATA", aliases: &[] },
        Codepoint { codepoint: 0x10358, name: "OLD PERMIC LETTER DZITA", aliases: &[] },
        Codepoint { codepoint: 0x10359, name: "OLD PERMIC LETTER I", aliases: &[] },
        Codepoint { codepoint: 0x1035A, name: "OLD PERMIC LETTER KOKE", aliases: &[] },
    ]
}

fn all_codepoints_436() -> (v: Vec<Codepoint>)
    ensures
        v@ == codepoint_table_436(),
{
    let v = vec![
        Codepoint { codepoint: 0x1032E, name: "OLD ITALIC LETTER NORTHERN TSE", aliases: &[] },
        Codepoint { codepoint: 0x1032F, name: "OLD ITALIC LETTER SOUTHERN TSE", aliases: &[] },
        Codepoint { codepoint: 0x10330, name: "GOTHIC LETTER AHSA", aliases: &[] },
        Codepoint { codepoint: 0x10331, name: "GOTHIC LETTER BAIRKAN", aliases: &[] },
        Codepoint { codepoint: 0x10332, name: "GOTHIC LETTER GIBA", aliases: &[] },
        Codepoint { codepoint: 0x10333, name: "GOTHIC LETTER DAGS", aliases: &[] },
        Codepoint { codepoint: 0x10334, name: "GOTHIC LETTER AIHVUS", aliases: &[] },
        Codepoint { codepoint: 0x10335, name: "GOTHIC LETTER QAIRTHRA", aliases: &[] },
        Codepoint { codepoint: 0x10336, name: "GOTHIC LETTER IUJA", aliases: &[] },
        Codepoint { codepoint: 0x10337, name: "GOTHIC LETTER HAGL", aliases: &[] },
        Codepoint { codepoint: 0x10338, name: "GOTHIC LETTER THIUTH", aliases: &[] },
        Codepoint { codepoint: 0x10339, name: "GOTHIC LETTER EIS", aliases: &[] },
        Codepoint { codepoint: 0x1033A, name: "GOTHIC LETTER KUSMA", aliases: &[] },
        Codepoint { codepoint: 0x1033B, name: "GOTHIC LETTER LAGUS", aliases: &[] },
        Codepoint { codepoint: 0x1033C, name: "GOTHIC LETTER MANNA", aliases: &[] },
        Codepoint { codepoint: 0x1033D, name: "GOTHIC LETTER NAUTHS", aliases: &[] },
        Codepoint { codepoint: 0x1033E, name: "GOTHIC LETTER JER", aliases: &[] },
        Codepoint { codepoint: 0x1033F, name: "GOTHIC LETTER URUS", aliases: &[] },
        Codepoint { codepoint: 0x10340, name: "GOTHIC LETTER PAIRTHRA", aliases: &[] },
        Codepoint { codepoint: 0x10341, name: "GOTHIC LETTER NINETY", aliases: &[] },
        Codepoint { codepoint: 0x10342, name: "GOTHIC LETTER RAIDA", aliases: &[] },
        Codepoint { codepoint: 0x10343, name: "GOTHIC LETTER SAUIL", aliases: &[] },
        Codepoint { codepoint: 0x10344, name: "GOTHIC LETTER TEIWS", aliases: &[] },
        Codepoint { codepoint: 0x10345, name: "GOTHIC LETTER WINJA", aliases: &[] },
        Codepoint { codepoint: 0x10346, name: "GOTHIC LETTER FAIHU", aliases: &[] },
        Codepoint { codepoint: 0x10347, name: "GOTHIC LETTER IGGWS", aliases: &[] },
        Codepoint { codepoint: 0x10348, name: "GOTHIC LETTER HWAIR", aliases: &[] },
        Codepoint { codepoint: 0x10349, name: "GOTHIC LETTER OTHAL", aliases: &[] },
        Codepoint { codepoint: 0x1034A, name: "GOTHIC LETTER NINE HUNDRED", aliases: &[] },
        Codepoint { codepoint: 0x10350, name: "OLD PERMIC LETTER AN", aliases: &[] },
        Codepoint { codepoint: 0x10351, name: "OLD PERMIC LETTER BUR", aliases: &[] },
        Codepoint { codepoint: 0x10352, name: "OLD PERMIC LETTER GAI", aliases: &[] },
        Codepoint { codepoint: 0x10353, name: "OLD PERMIC LETTER DOI", aliases: &[] },
        Codepoint { codepoint: 0x10354, name: "OLD PERMIC LETTER E", aliases: &[] },
        Codepoint { codepoint: 0x10355, name: "OLD PERMIC LETTER ZHOI", aliases: &[] },
        Codepoint { codepoint: 0x10356, name: "OLD PERMIC LETTER DZHOI", aliases: &[] },
        Codepoint { codepoint: 0x10357, name: "OLD PERMIC LETTER ZATA", aliases: &[] },
        Codepoint { codepoint: 0x10358, name: "OLD PERMIC LETTER DZITA", aliases: &[] },
        Codepoint { codepoint: 0x10359, name: "OLD PERMIC LETTER I", aliases: &[] },
        Codepoint { codepoint: 0x1035A, name: "OLD PERMIC LETTER KOKE", aliases: &[] },
    ];
    assert(v@ =~= codepoint_table_436());
    v
}

pub open spec fn codepoint_table_437() -> Seq<Codepoint> {
    seq![
        Codepoint { codepoint: 0x1035B, name: "OLD PERMIC LETTER LEI", aliases: &[] },
        Codepoint { codepoint: 0x1035C, name: "OLD PERMIC LETTER MENOE", aliases: &[] },
        Codepoint { codepoint: 0x1035D, name: "OLD PERMIC LETTER NENOE", aliases: &[] },
        Codepoint { codepoint: 0x1035E, name: "OLD PERMIC LETTER VOOI", aliases: &[] },
        Codepoint { codepoint: 0x1035F, name: "OLD PERMIC LETTER PEEI", aliases: &[] },
        Codepoint { codepoint: 0x10360, name: "OLD PERMIC LETTER REI", aliases: &[] },
        Codepoint { codepoint: 0x10361, name: "OLD PERMIC LETTER SII", aliases: &[] },
        Codepoint { codepoint: 0x10362, name: "OLD PERMIC LETTER TAI", aliases: &[] },
        Codepoint { codepoint: 0x10363, name: "OLD PERMIC LETTER U", aliases: &[] },
        Codepoint { codepoint: 0x10364, name: "OLD PERMIC LETTER CHERY", aliases: &[] },
        Codepoint { codepoint: 0x10365, name: "OLD PERMIC LETTER SHOOI", aliases: &[] },
        Codepoint { codepoint: 0x10366, name: "OLD PERMIC LETTER SHCHOOI", aliases: &[] },
        Codepoint { codepoint: 0x10367, name: "OLD PERMIC LETTER YRY", aliases: &[] },
        Codepoint { codepoint: 0x10368, name: "OLD PERMIC LETTER YERU", aliases: &[] },
        Codepoint { codepoint: 0x10369, name: "OLD PERMIC LETTER O", aliases: &[] },
        Codepoint { codepoint: 0x1036A, name: "OLD PERMIC LETTER OO", aliases: &[] },
        Codepoint { codepoint: 0x1036B, name: "OLD PERMIC LETTER EF", aliases: &[] },
        Codepoint { codepoint: 0x1036C, name: "OLD PERMIC LETTER HA", aliases: &[] },
        Codepoint { codepoint: 0x1036D, name: "OLD PERMIC LETTER TSIU", aliases: &[] },
        Codepoint { codepoint: 0x1036E, name: "OLD PERMIC LETTER VER", aliases: &[] },
        Codepoint { codepoint: 0x1036F, name: "OLD PERMIC LETTER YER", aliases: &[] },
        Codepoint { codepoint: 0x10370, name: "OLD PERMIC LETTER YERI", aliases: &[] },
        Codepoint { codepoint: 0x10371, name: "OLD PERMIC LETTER YAT", aliases: &[] },
        Codepoint { codepoint: 0x10372, name: "OLD PERMIC LETTER IE", aliases: &[] },
        Codepoint { codepoint: 0x10373, name: "OLD PERMIC LETTER YU", aliases: &[] },
        Codepoint { codepoint: 0x10374, name: "OLD PERMIC LETTER YA", aliases: &[] },
        Codepoint { codepoint: 0x10375, name: "OLD PERMIC LETTER IA", aliases: &[] },
        Codepoint { codepoint: 0x10376, name: "COMBINING OLD PERMIC LETTER AN", aliases: &[] },
        Codepoint { codepoint: 0x10377, name: "COMBINING OLD PERMIC LETTER DOI", aliases: &[] },
        Codepoint { codepoint: 0x10378, name: "COMBINING OLD PERMIC LETTER ZATA", aliases: &[] },
        Codepoint { codepoint: 0x10379, name: "COMBINING OLD PERMIC LETTER NENOE", aliases: &[] },
        Codepoint { codepoint: 0x1037A, name: "COMBINING OLD PERMIC LETTER SII", aliases: &[] },
        Codepoint { codepoint: 0x10380, name: "UGARITIC LETTER ALPA", aliases: &[] },
        Codepoint { codepoint: 0x10381, name: "UGARITIC LETTER BETA", aliases: &[] },
        Codepoint { codepoint: 0x10382, name: "UGARITIC LETTER GAMLA", aliases: &[] },
        Codepoint { codepoint: 0x10383, name: "UGARITIC LETTER KHA", aliases: &[] },
        Codepoint { codepoint: 0x10384, name: "UGARITIC LETTER DELTA", aliases: &[] },
        Codepoint { codepoint: 0x10385, name: "UGARITIC LETTER HO", aliases: &[] },
        Codepoint { codepoint: 0x10386, name: "UGARITIC LETTER WO", aliases: &[] },
        Codepoint { codepoint: 0x10387, name: "UGARITIC LETTER ZETA", aliases: &[] },
    ]
}

fn all_codepoints_437() -> (v: Vec<Codepoint>)
    ensures
        v@ == codepoint_table_437(),
{
    let v = vec![
        Codepoint { codepoint: 0x1035B, name: "OLD PERMIC LETTER LEI", aliases: &[] },
        Codepoint { codepoint: 0x1035C, name: "OLD PERMIC LETTER MENOE", aliases: &[] },
        Codepoint { codepoint: 0x1035D, name: "OLD PERMIC LETTER NENOE", aliases: &[] },
        Codepoint { codepoint: 0x1035E, name: "OLD PERMIC LETTER VOOI", aliases: &[] },
        Codepoint { codepoint: 0x1035F, name: "OLD PERMIC LETTER PEEI", aliases: &[] },
        Codepoint { codepoint: 0x10360, name: "OLD PERMIC LETTER REI", aliases: &[] },
        Codepoint { codepoint: 0x10361, name: "OLD PERMIC LETTER SII", aliases: &[] },
        Codepoint { codepoint: 0x10362, name: "OLD PERMIC LETTER TAI", aliases: &[] },
        Codepoint { codepoint: 0x10363, name: "OLD PERMIC LETTER U", aliases: &[] },
        Codepoint { codepoint: 0x10364, name: "OLD PERMIC LETTER CHERY", aliases: &[] },
        Codepoint { codepoint: 0x10365, name: "OLD PERMIC LETTER SHOOI", aliases: &[] },
        Codepoint { codepoint: 0x10366, name: "OLD PERMIC LETTER SHCHOOI", aliases: &[] },
        Codepoint { codepoint: 0x10367, name: "OLD PERMIC LETTER YRY", aliases: &[] },
        Codepoint { codepoint: 0x10368, name: "OLD PERMIC LETTER YERU", aliases: &[] },
        Codepoint { codepoint: 0x10369, name: "OLD PERMIC LETTER O", aliases: &[] },
        Codepoint { codepoint: 0x1036A, name: "OLD PERMIC LETTER OO", aliases: &[] },
        Codepoint { codepoint: 0x1036B, name: "OLD PERMIC LETTER EF", aliases: &[] },
        Codepoint { codepoint: 0x1036C, name: "OLD PERMIC LETTER HA", aliases: &[] },
        Codepoint { codepoint: 0x1036D, name: "OLD PERMIC LETTER TSIU", aliases: &[] },
        Codepoint { codepoint: 0x1036E, name: "OLD PERMIC LETTER VER", aliases: &[] },
        Codepoint { codepoint: 0x1036F, name: "OLD PERMIC LETTER YER", aliases: &[] },
        Codepoint { codepoint: 0x10370, name: "OLD PERMIC LETTER YERI", aliases: &[] },
        Codepoint { codepoint: 0x10371, name: "OLD PERMIC LETTER YAT", aliases: &[] },
        Codepoint { codepoint: 0x10372, name: "OLD PERMIC LETTER IE", aliases: &[] },
        Codepoint { codepoint: 0x10373, name: "OLD PERMIC LETTER YU", aliases: &[] },
        Codepoint { codepoint: 0x10374, name: "OLD PERMIC LETTER YA", aliases: &[] },
        Codepoint { codepoint: 0x10375, name: "OLD PERMIC LETTER IA", aliases: &[] },
        Codepoint { codepoint: 0x10376, name: "COMBINING OLD PERMIC LETTER AN", aliases: &[] },
        Codepoint { codepoint: 0x10377, name: "COMBINING OLD PERMIC LETTER DOI", aliases: &[] },
        Codepoint { codepoint: 0x10378, name: "COMBINING OLD PERMIC LETTER ZATA", aliases: &[] },
        Codepoint { codepoint: 0x10379, name: "COMBINING OLD PERMIC LETTER NENOE", aliases: &[] },
        Codepoint { codepoint: 0x1037A, name: "COMBINING OLD PERMIC LETTER SII", aliases: &[] },
        Codepoint { codepoint: 0x10380, name: "UGARITIC LETTER ALPA", aliases: &[] },
        Codepoint { codepoint: 0x10381, name: "UGARITIC LETTER BETA", aliases: &[] },
        Codepoint { codepoint: 0x10382, name: "UGARITIC LETTER GAMLA", aliases: &[] },
        Codepoint { codepoint: 0x10383, name: "UGARITIC LETTER KHA", aliases: &[] },
        Codepoint { codepoint: 0x10384, name: "UGARITIC LETTER DELTA", aliases: &[] },
        Codepoint { codepoint: 0x10385, name: "UGARITIC LETTER HO", aliases: &[] },
        Codepoint { codepoint: 0x10386, name: "UGARITIC LETTER WO", aliases: &[] },
        Codepoint { codepoint: 0x10387, name: "UGARITIC LETTER ZETA", aliases: &[] },
    ];
    assert(v@ =~= codepoint_table_437());
    v
}

pub open spec fn codepoint_table_438() -> Seq<Codepoint> {
    seq![
        Codepoint { codepoint: 0x10388, name: "UGARITIC LETTER HOTA", aliases: &[] },
        Codepoint { codepoint: 0x10389, name: "UGARITIC LETTER TET", aliases: &[] },
        Codepoint { codepoint: 0x1038A, name: "UGARITIC LETTER YOD", aliases: &[] },
        Codepoint { codepoint: 0x1038B, name: "UGARITIC LETTER KAF", aliases: &[] },
        Codepoint { codepoint: 0x1038C, name: "UGARITIC LETTER SHIN", aliases: &[] },
        Codepoint { codepoint: 0x1038D, name: "UGARITIC LETTER LAMDA", aliases: &[] },
        Codepoint { codepoint: 0x1038E, name: "UGARITIC LETTER MEM", aliases: &[] },
        Codepoint { codepoint: 0x1038F, name: "UGARITIC LETTER DHAL", aliases: &[] },
        Codepoint { codepoint: 0x10390, name: "UGARITIC LETTER NUN", aliases: &[] },
        Codepoint { codepoint: 0x10391, name: "UGARITIC LETTER ZU", aliases: &[] },
        Codepoint { codepoint: 0x10392, name: "UGARITIC LETTER SAMKA", aliases: &[] },
        Codepoint { codepoint: 0x10393, name: "UGARITIC LETTER AIN", aliases: &[] },
        Codepoint { codepoint: 0x10394, name: "UGARITIC LETTER PU", aliases: &[] },
        Codepoint { codepoint: 0x10395, name: "UGARITIC LETTER SADE", aliases: &[] },
        Codepoint { codepoint: 0x10396, name: "UGARITIC LETTER QOPA", aliases: &[] },
        Codepoint { codepoint: 0x10397, name: "UGARITIC LETTER RASHA", aliases: &[] },
        Codepoint { codepoint: 0x10398, name: "UGARITIC LETTER THANNA", aliases: &[] },
        Codepoint { codepoint: 0x10399, name: "UGARITIC LETTER GHAIN", aliases: &[] },
        Codepoint { codepoint: 0x1039A, name: "UGARITIC LETTER TO", aliases: &[] },
        Codepoint { codepoint: 0x1039B, name: "UGARITIC LETTER I", aliases: &[] },
        Codepoint { codepoint: 0x1039C, name: "UGARITIC LETTER U", aliases: &[] },
        Codepoint { codepoint: 0x1039D, name: "UGARITIC LETTER SSU", aliases: &[] },
        Codepoint { codepoint: 0x1039F, name: "UGARITIC WORD DIVIDER", aliases: &[] },
        Codepoint { codepoint: 0x103A0, name: "OLD PERSIAN SIGN A", aliases: &[] },
        Codepoint { codepoint: 0x103A1, name: "OLD PERSIAN SIGN I", aliases: &[] },
        Codepoint { codepoint: 0x103A2, name: "OLD PERSIAN SIGN U", aliases: &[] },
        Codepoint { codepoint: 0x103A3, name: "OLD PERSIAN SIGN KA", aliases: &[] },
        Codepoint { codepoint: 0x103A4, name: "OLD PERSIAN SIGN KU", aliases: &[] },
        Codepoint { codepoint: 0x103A5, name: "OLD PERSIAN SIGN GA", aliases: &[] },
        Codepoint { codepoint: 0x103A6, name: "OLD PERSIAN SIGN GU", aliases: &[] },
        Codepoint { codepoint: 0x103A7, name: "OLD PERSIAN SIGN XA", aliases: &[] },
        Codepoint { codepoint: 0x103A8, name: "OLD PERSIAN SIGN CA", aliases: &[] },
        Codepoint { codepoint: 0x103A9, name: "OLD PERSIAN SIGN JA", aliases: &[] },
        Codepoint { codepoint: 0x103AA, name: "OLD PERSIAN SIGN JI", aliases: &[] },
        Codepoint { codepoint: 0x103AB, name: "OLD PERSIAN SIGN TA", aliases: &[] },
        Codepoint { codepoint: 0x103AC, name: "OLD PERSIAN SIGN TU", aliases: &[] },
        Codepoint { codepoint: 0x103AD, name: "OLD PERSIAN SIGN DA", aliases: &[] },
        Codepoint { codepoint: 0x103AE, name: "OLD PERSIAN SIGN DI", aliases: &[] },
        Codepoint { codepoint: 0x103AF, name: "OLD PERSIAN SIGN DU", aliases: &[] },
        Codepoint { codepoint: 0x103B0, name: "OLD PERSIAN SIGN THA", aliases: &[] },
    ]
}

fn all_codepoints_438() -> (v: Vec<Codepoint>)
    ensures
        v@ == codepoint_table_438(),
{
    let v = vec![
        Codepoint { codepoint: 0x10388, name: "UGARITIC LETTER HOTA", aliases: &[] },
        Codepoint { codepoint: 0x10389, name: "UGARITIC LETTER TET", aliases: &[] },
        Codepoint { codepoint: 0x1038A, name: "UGARITIC LETTER YOD", aliases: &[] },
        Codepoint { codepoint: 0x1038B, name: "UGARITIC LETTER KAF", aliases: &[] },
        Codepoint { codepoint: 0x1038C, name: "UGARITIC LETTER SHIN", aliases: &[] },
        Codepoint { codepoint: 0x1038D, name: "UGARITIC LETTER LAMDA", aliases: &[] },
        Codepoint { codepoint: 0x1038E, name: "UGARITIC LETTER MEM", aliases: &[] },
        Codepoint { codepoint: 0x1038F, name: "UGARITIC LETTER DHAL", aliases: &[] },
        Codepoint { codepoint: 0x10390, name: "UGARITIC LETTER NUN", aliases: &[] },
        Codepoint { codepoint: 0x10391, name: "UGARITIC LETTER ZU", aliases: &[] },
        Codepoint { codepoint: 0x10392, name: "UGARITIC LETTER SAMKA", aliases: &[] },
        Codepoint { codepoint: 0x10393, name: "UGARITIC LETTER AIN", aliases: &[] },
        Codepoint { codepoint: 0x10394, name: "UGARITIC LETTER PU", aliases: &[] },
        Codepoint { codepoint: 0x10395, name: "UGARITIC LETTER SADE", aliases: &[] },
        Codepoint { codepoint: 0x10396, name: "UGARITIC LETTER QOPA", aliases: &[] },
        Codepoint { codepoint: 0x10397, name: "UGARITIC LETTER RASHA", aliases: &[] },
        Codepoint { codepoint: 0x10398, name: "UGARITIC LETTER THANNA", aliases: &[] },
        Codepoint { codepoint: 0x10399, name: "UGARITIC LETTER GHAIN", aliases: &[] },
        Codepoint { codepoint: 0x1039A, name: "UGARITIC LETTER TO", aliases: &[] },
        Codepoint { codepoint: 0x1039B, name: "UGARITIC LETTER I", aliases: &[] },
        Codepoint { codepoint: 0x1039C, name: "UGARITIC LETTER U", aliases: &[] },
        Codepoint { codepoint: 0x1039D, name: "UGARITIC LETTER SSU", aliases: &[] },
        Codepoint { codepoint: 0x1039F, name: "UGARITIC WORD DIVIDER", aliases: &[] },
        Codepoint { codepoint: 0x103A0, name: "OLD PERSIAN SIGN A", aliases: &[] },
        Codepoint { codepoint: 0x103A1, name: "OLD PERSIAN SIGN I", aliases: &[] },
        Codepoint { codepoint: 0x103A2, name: "OLD PERSIAN SIGN U", aliases: &[] },
        Codepoint { codepoint: 0x103A3, name: "OLD PERSIAN SIGN KA", aliases: &[] },
        Codepoint { codepoint: 0x103A4, name: "OLD PERSIAN SIGN KU", aliases: &[] },
        Codepoint { codepoint: 0x103A5, name: "OLD PERSIAN SIGN GA", aliases: &[] },
        Codepoint { codepoint: 0x103A6, name: "OLD PERSIAN SIGN GU", aliases: &[] },
        Codepoint { codepoint: 0x103A7, name: "OLD PERSIAN SIGN XA", aliases: &[] },
        Codepoint { codepoint: 0x103A8, name: "OLD PERSIAN SIGN CA", aliases: &[] },
        Codepoint { codepoint: 0x103A9, name: "OLD PERSIAN SIGN JA", aliases: &[] },
        Codepoint { codepoint: 0x103AA, name: "OLD PERSIAN SIGN JI", aliases: &[] },
        Codepoint { codepoint: 0x103AB, name: "OLD PERSIAN SIGN TA", aliases: &[] },
        Codepoint { codepoint: 0x103AC, name: "OLD PERSIAN SIGN TU", aliases: &[] },
        Codepoint { codepoint: 0x103AD, name: "OLD PERSIAN SIGN DA", aliases: &[] },
        Codepoint { codepoint: 0x103AE, name: "OLD PERSIAN SIGN DI", aliases: &[] },
        Codepoint { codepoint: 0x103AF, name: "OLD PERSIAN SIGN DU", aliases: &[] },
        Codepoint { codepoint: 0x103B0, name: "OLD PERSIAN SIGN THA", aliases: &[] },
    ];
    assert(v@ =~= codepoint_table_438());
    v
}

pub open spec fn codepoint_table_439() -> Seq<Codepoint> {
    seq![
        Codepoint { codepoint: 0x103B1, name: "OLD PERSIAN SIGN PA", aliases: &[] },
        Codepoint { codepoint: 0x103B2, name: "OLD PERSIAN SIGN BA", aliases: &[] },
        Codepoint { codepoint: 0x103B3, name: "OLD PERSIAN SIGN FA", aliases: &[] },
        Codepoint { codepoint: 0x103B4, name: "OLD PERSIAN SIGN NA", aliases: &[] },
        Codepoint { codepoint: 0x103B5, name: "OLD PERSIAN SIGN NU", aliases: &[] },
        Codepoint { codepoint: 0x103B6, name: "OLD PERSIAN SIGN MA", aliases: &[] },
        Codepoint { codepoint: 0x103B7, name: "OLD PERSIAN SIGN MI", aliases: &[] },
        Codepoint { codepoint: 0x103B8, name: "OLD PERSIAN SIGN MU", aliases: &[] },
        Codepoint { codepoint: 0x103B9, name: "OLD PERSIAN SIGN YA", aliases: &[] },
        Codepoint { codepoint: 0x103BA, name: "OLD PERSIAN SIGN VA", aliases: &[] },
        Codepoint { codepoint: 0x103BB, name: "OLD PERSIAN SIGN VI", aliases: &[] },
        Codepoint { codepoint: 0x103BC, name: "OLD PERSIAN SIGN RA", aliases: &[] },
        Codepoint { codepoint: 0x103BD, name: "OLD PERSIAN SIGN RU", aliases: &[] },
        Codepoint { codepoint: 0x103BE, name: "OLD PERSIAN SIGN LA", aliases: &[] },
        Codepoint { codepoint: 0x103BF, name: "OLD PERSIAN SIGN SA", aliases: &[] },
        Codepoint { codepoint: 0x103C0, name: "OLD PERSIAN SIGN ZA", aliases: &[] },
        Codepoint { codepoint: 0x103C1, name: "OLD PERSIAN SIGN SHA", aliases: &[] },
        Codepoint { codepoint: 0x103C2, name: "OLD PERSIAN SIGN SSA", aliases: &[] },
        Codepoint { codepoint: 0x103C3, name: "OLD PERSIAN SIGN HA", aliases: &[] },
        Codepoint { codepoint: 0x103C8, name: "OLD PERSIAN SIGN AURAMAZDAA", aliases: &[] },
        Codepoint { codepoint: 0x103C9, name: "OLD PERSIAN SIGN AURAMAZDAA-2", aliases: &[] },
        Codepoint { codepoint: 0x103CA, name: "OLD PERSIAN SIGN AURAMAZDAAHA", aliases: &[] },
        Codepoint { codepoint: 0x103CB, name: "OLD PERSIAN SIGN XSHAAYATHIYA", aliases: &[] },
        Codepoint { codepoint: 0x103CC, name: "OLD PERSIAN SIGN DAHYAAUSH", aliases: &[] },
        Codepoint { codepoint: 0x103CD, name: "OLD PERSIAN SIGN DAHYAAUSH-2", aliases: &[] },
        Codepoint { codepoint: 0x103CE, name: "OLD PERSIAN SIGN BAGA", aliases: &[] },
        Codepoint { codepoint: 0x103CF, name: "OLD PERSIAN SIGN BUUMISH", aliases: &[] },
        Codepoint { codepoint: 0x103D0, name: "OLD PERSIAN WORD DIVIDER", aliases: &[] },
        Codepoint { codepoint: 0x103D1, name: "OLD PERSIAN NUMBER ONE", aliases: &[] },
        Codepoint { codepoint: 0x103D2, name: "OLD PERSIAN NUMBER TWO", aliases: &[] },
        Codepoint { codepoint: 0x103D3, name: "OLD PERSIAN NUMBER TEN", aliases: &[] },
        Codepoint { codepoint: 0x103D4, name: "OLD PERSIAN NUMBER TWENTY", aliases: &[] },
        Codepoint { codepoint: 0x103D5, name: "OLD PERSIAN NUMBER HUNDRED", aliases: &[] },
        Codepoint { codepoint: 0x10400, name: "DESERET CAPITAL LETTER LONG I", aliases: &[] },
        Codepoint { codepoint: 0x10401, name: "DESERET CAPITAL LETTER LONG E", aliases: &[] },
        Codepoint { codepoint: 0x10402, name: "DESERET CAPITAL LETTER LONG A", aliases: &[] },
        Codepoint { codepoint: 0x10403, name: "DESERET CAPITAL LETTER LONG AH", aliases: &[] },
        Codepoint { codepoint: 0x10404, name: "DESERET CAPITAL LETTER LONG O", aliases: &[] },
        Codepoint { codepoint: 0x10405, name: "DESERET CAPITAL LETTER LONG OO", aliases: &[] },
        Codepoint { codepoint: 0x10406, name: "DESERET CAPITAL LETTER SHORT I", aliases: &[] },
    ]
}

fn all_codepoints_439() -> (v: Vec<Codepoint>)
    ensures
        v@ == codepoint_table_439(),
{
    let v = vec![
        Codepoint { codepoint: 0x103B1, name: "OLD PERSIAN SIGN PA", aliases: &[] },
        Codepoint { codepoint: 0x103B2, name: "OLD PERSIAN SIGN BA", aliases: &[] },
        Codepoint { codepoint: 0x103B3, name: "OLD PERSIAN SIGN FA", aliases: &[] },
        Codepoint { codepoint: 0x103B4, name: "OLD PERSIAN SIGN NA", aliases: &[] },
        Codepoint { codepoint: 0x103B5, name: "OLD PERSIAN SIGN NU", aliases: &[] },
        Codepoint { codepoint: 0x103B6, name: "OLD PERSIAN SIGN MA", aliases: &[] },
        Codepoint { codepoint: 0x103B7, name: "OLD PERSIAN SIGN MI", aliases: &[] },
        Codepoint { codepoint: 0x103B8, name: "OLD PERSIAN SIGN MU", aliases: &[] },
        Codepoint { codepoint: 0x103B9, name: "OLD PERSIAN SIGN YA", aliases: &[] },
        Codepoint { codepoint: 0x103BA, name: "OLD PERSIAN SIGN VA", aliases: &[] },
        Codepoint { codepoint: 0x103BB, name: "OLD PERSIAN SIGN VI", aliases: &[] },
        Codepoint { codepoint: 0x103BC, name: "OLD PERSIAN SIGN RA", aliases: &[] },
        Codepoint { codepoint: 0x103BD, name: "OLD PERSIAN SIGN RU", aliases: &[] },
        Codepoint { codepoint: 0x103BE, name: "OLD PERSIAN SIGN LA", aliases: &[] },
        Codepoint { codepoint: 0x103BF, name: "OLD PERSIAN SIGN SA", aliases: &[] },
        Codepoint { codepoint: 0x103C0, name: "OLD PERSIAN SIGN ZA", aliases: &[] },
        Codepoint { codepoint: 0x103C1, name: "OLD PERSIAN SIGN SHA", aliases: &[] },
        Codepoint { codepoint: 0x103C2, name: "OLD PERSIAN SIGN SSA", aliases: &[] },
        Codepoint { codepoint: 0x103C3, name: "OLD PERSIAN SIGN HA", aliases: &[] },
        Codepoint { codepoint: 0x103C8, name: "OLD PERSIAN SIGN AURAMAZDAA", aliases: &[] },
        Codepoint { codepoint: 0x103C9, name: "OLD PERSIAN SIGN AURAMAZDAA-2", aliases: &[] },
        Codepoint { codepoint: 0x103CA, name: "OLD PERSIAN SIGN AURAMAZDAAHA", aliases: &[] },
        Codepoint { codepoint: 0x103CB, name: "OLD PERSIAN SIGN XSHAAYATHIYA", aliases: &[] },
        Codepoint { codepoint: 0x103CC, name: "OLD PERSIAN SIGN DAHYAAUSH", aliases: &[] },
        Codepoint { codepoint: 0x103CD, name: "OLD PERSIAN SIGN DAHYAAUSH-2", aliases: &[] },
        Codepoint { codepoint: 0x103CE, name: "OLD PERSIAN SIGN BAGA", aliases: &[] },
        Codepoint { codepoint: 0x103CF, name: "OLD PERSIAN SIGN BUUMISH", aliases: &[] },
        Codepoint { codepoint: 0x103D0, name: "OLD PERSIAN WORD DIVIDER", aliases: &[] },
        Codepoint { codepoint: 0x103D1, name: "OLD PERSIAN NUMBER ONE", aliases: &[] },
        Codepoint { codepoint: 0x103D2, name: "OLD PERSIAN NUMBER TWO", aliases: &[] },
        Codepoint { codepoint: 0x103D3, name: "OLD PERSIAN NUMBER TEN", aliases: &[] },
        Codepoint { codepoint: 0x103D4, name: "OLD PERSIAN NUMBER TWENTY", aliases: &[] },
        Codepoint { codepoint: 0x103D5, name: "OLD PERSIAN NUMBER HUNDRED", aliases: &[] },
        Codepoint { codepoint: 0x10400, name: "DESERET CAPITAL LETTER LONG I", aliases: &[] },
        Codepoint { codepoint: 0x10401, name: "DESERET CAPITAL LETTER LONG E", aliases: &[] },
        Codepoint { codepoint: 0x10402, name: "DESERET CAPITAL LETTER LONG A", aliases: &[] },
        Codepoint { codepoint: 0x10403, name: "DESERET CAPITAL LETTER LONG AH", aliases: &[] },
        Codepoint { codepoint: 0x10404, name: "DESERET CAPITAL LETTER LONG O", aliases: &[] },
        Codepoint { codepoint: 0x10405, name: "DESERET CAPITAL LETTER LONG OO", aliases: &[] },
        Codepoint { codepoint: 0x10406, name: "DESERET CAPITAL LETTER SHORT I", aliases: &[] },
    ];
    assert(v@ =~= codepoint_table_439());
    v
}

/// The entries from position 16800 of the table, 800 at most.
pub open spec fn codepoint_group_21() -> Seq<Codepoint> {
    codepoint_table_420() + codepoint_table_421() + codepoint_table_422() + codepoint_table_423() + codepoint_table_424() + codepoint_table_425() + codepoint_table_426() + codepoint_table_427() + codepoint_table_428() + codepoint_table_429() + codepoint_table_430() + codepoint_table_431() + codepoint_table_432() + codepoint_table_433() + codepoint_table_434() + codepoint_table_435() + codepoint_table_436() + codepoint_table_437() + codepoint_table_438() + codepoint_table_439()
}

pub fn all_codepoints_group_21() -> (v: Vec<Codepoint>)
    ensures
        v@ == codepoint_group_21(),
{
    let mut v = all_codepoints_420();
    let mut part = all_codepoints_421();
    v.append(&mut part);
    let mut part = all_codepoints_422();
    v.append(&mut part);
    let mut part = all_codepoints_423();
    v.append(&mut part);
    let mut part = all_codepoints_424();
    v.append(&mut part);
    let mut part = all_codepoints_425();
    v.append(&mut part);
    let mut part = all_codepoints_426();
    v.append(&mut part);
    let mut part = all_codepoints_427();
    v.append(&mut part);
    let mut part = all_codepoints_428();
    v.append(&mut part);
    let mut part = all_codepoints_429();
    v.append(&mut part);
    let mut part = all_codepoints_430();
    v.append(&mut part);
    let mut part = all_codepoints_431();
    v.append(&mut part);
    let mut part = all_codepoints_432();
    v.append(&mut part);
    let mut part = all_codepoints_433();
    v.append(&mut part);
    let mut part = all_codepoints_434();
    v.append(&mut part);
    let mut part = all_codepoints_435();
    v.append(&mut part);
    let mut part = all_codepoints_436();
    v.append(&mut part);
    let mut part = all_codepoints_437();
    v.append(&mut part);
    let mut part = all_codepoints_438();
    v.append(&mut part);
    let mut part = all_codepoints_439();
    v.append(&mut part);
    v
}

pub open spec fn codepoint_table_440() -> Seq<Codepoint> {
    seq![
        Codepoint { codepoint: 0x10407, name: "DESERET CAPITAL LETTER SHORT E", aliases: &[] },
        Codepoint { codepoint: 0x10408, name: "DESERET CAPITAL LETTER SHORT A", aliases: &[] },
        Codepoint { codepoint: 0x10409, name: "DESERET CAPITAL LETTER SHORT AH", aliases: &[] },
        Codepoint { codepoint: 0x1040A, name: "DESERET CAPITAL LETTER SHORT O", aliases: &[] },
        Codepoint { codepoint: 0x1040B, name: "DESERET CAPITAL LETTER SHORT OO", aliases: &[] },
        Codepoint { codepoint: 0x1040C, name: "DESERET CAPITAL LETTER AY", aliases: &[] },
        Codepoint { codepoint: 0x1040D, name: "DESERET CAPITAL LETTER OW", aliases: &[] },
        Codepoint { codepoint: 0x1040E, name: "DESERET CAPITAL LETTER WU", aliases: &[] },
        Codepoint { codepoint: 0x1040F, name: "DESERET CAPITAL LETTER YEE", aliases: &[] },
        Codepoint { codepoint: 0x10410, name: "DESERET CAPITAL LETTER H", aliases: &[] },
        Codepoint { codepoint: 0x10411, name: "DESERET CAPITAL LETTER PEE", aliases: &[] },
        Codepoint { codepoint: 0x10412, name: "DESERET CAPITAL LETTER BEE", aliases: &[] },
        Codepoint { codepoint: 0x10413, name: "DESERET CAPITAL LETTER TEE", aliases: &[] },
        Codepoint { codepoint: 0x10414, name: "DESERET CAPITAL LETTER DEE", aliases: &[] },
        Codepoint { codepoint: 0x10415, name: "DESERET CAPITAL LETTER CHEE", aliases: &[] },
        Codepoint { codepoint: 0x10416, name: "DESERET CAPITAL LETTER JEE", aliases: &[] },
        Codepoint { codepoint: 0x10417, name: "DESERET CAPITAL LETTER KAY", aliases: &[] },
        Codepoint { codepoint: 0x10418, name: "DESERET CAPITAL LETTER GAY", aliases: &[] },
        Codepoint { codepoint: 0x10419, name: "DESERET CAPITAL LETTER EF", aliases: &[] },
        Codepoint { codepoint: 0x1041A, name: "DESERET CAPITAL LETTER VEE", aliases: &[] },
        Codepoint { codepoint: 0x1041B, name: "DESERET CAPITAL LETTER ETH", aliases: &[] },
        Codepoint { codepoint: 0x1041C, name: "DESERET CAPITAL LETTER THEE", aliases: &[] },
        Codepoint { codepoint: 0x1041D, name: "DESERET CAPITAL LETTER ES", aliases: &[] },
        Codepoint { codepoint: 0x1041E, name: "DESERET CAPITAL LETTER ZEE", aliases: &[] },
        Codepoint { codepoint: 0x1041F, name: "DESERET CAPITAL LETTER ESH", aliases: &[] },
        Codepoint { codepoint: 0x10420, name: "DESERET CAPITAL LETTER ZHEE", aliases: &[] },
        Codepoint { codepoint: 0x10421, name: "DESERET CAPITAL LETTER ER", aliases: &[] },
        Codepoint { codepoint: 0x10422, name: "DESERET CAPITAL LETTER EL", aliases: &[] },
        Codepoint { codepoint: 0x10423, name: "DESERET CAPITAL LETTER EM", aliases: &[] },
        Codepoint { codepoint: 0x10424, name: "DESERET CAPITAL LETTER EN", aliases: &[] },
        Codepoint { codepoint: 0x10425, name: "DESERET CAPITAL LETTER ENG", aliases: &[] },
        Codepoint { codepoint: 0x10426, name: "DESERET CAPITAL LETTER OI", aliases: &[] },
        Codepoint { codepoint: 0x10427, name: "DESERET CAPITAL LETTER EW", aliases: &[] },
        Codepoint { codepoint: 0x10428, name: "DESERET SMALL LETTER LONG I", aliases: &[] },
        Codepoint { codepoint: 0x10429, name: "DESERET SMALL LETTER LONG E", aliases: &[] },
        Codepoint { codepoint: 0x1042A, name: "DESERET SMALL LETTER LONG A", aliases: &[] },
        Codepoint { codepoint: 0x1042B, name: "DESERET SMALL LETTER LONG AH", aliases: &[] },
        Codepoint { codepoint: 0x1042C, name: "DESERET SMALL LETTER LONG O", aliases: &[] },
        Codepoint { codepoint: 0x1042D, name: "DESERET SMALL LETTER LONG OO", aliases: &[] },
        Codepoint { codepoint: 0x1042E, name: "DESERET SMALL LETTER SHORT I", aliases: &[] },
    ]
}

fn all_codepoints_440() -> (v: Vec<Codepoint>)
    ensures
        v@ == codepoint_table_440(),
{
    let v = vec![
        Codepoint { codepoint: 0x10407, name: "DESERET CAPITAL LETTER SHORT E", aliases: &[] },
        Codepoint { codepoint: 0x10408, name: "DESERET CAPITAL LETTER SHORT A", aliases: &[] },
        Codepoint { codepoint: 0x10409, name: "DESERET CAPITAL LETTER SHORT AH", aliases: &[] },
        Codepoint { codepoint: 0x1040A, name: "DESERET CAPITAL LETTER SHORT O", aliases: &[] },
        Codepoint { codepoint: 0x1040B, name: "DESERET CAPITAL LETTER SHORT OO", aliases: &[] },
        Codepoint { codepoint: 0x1040C, name: "DESERET CAPITAL LETTER AY", aliases: &[] },
        Codepoint { codepoint: 0x1040D, name: "DESERET CAPITAL LETTER OW", aliases: &[] },
        Codepoint { codepoint: 0x1040E, name: "DESERET CAPITAL LETTER WU", aliases: &[] },
        Codepoint { codepoint: 0x1040F, name: "DESERET CAPITAL LETTER YEE", aliases: &[] },
        Codepoint { codepoint: 0x10410, name: "DESERET CAPITAL LETTER H", aliases: &[] },
        Codepoint { codepoint: 0x10411, name: "DESERET CAPITAL LETTER PEE", aliases: &[] },
        Codepoint { codepoint: 0x10412, name: "DESERET CAPITAL LETTER BEE", aliases: &[] },
        Codepoint { codepoint: 0x10413, name: "DESERET CAPITAL LETTER TEE", aliases: &[] },
        Codepoint { codepoint: 0x10414, name: "DESERET CAPITAL LETTER DEE", aliases: &[] },
        Codepoint { codepoint: 0x10415, name: "DESERET CAPITAL LETTER CHEE", aliases: &[] },
        Codepoint { codepoint: 0x10416, name: "DESERET CAPITAL LETTER JEE", aliases: &[] },
        Codepoint { codepoint: 0x10417, name: "DESERET CAPITAL LETTER KAY", aliases: &[] },
        Codepoint { codepoint: 0x10418, name: "DESERET CAPITAL LETTER GAY", aliases: &[] },
        Codepoint { codepoint: 0x10419, name: "DESERET CAPITAL LETTER EF", aliases: &[] },
        Codepoint { codepoint: 0x1041A, name: "DESERET CAPITAL LETTER VEE", aliases: &[] },
        Codepoint { codepoint: 0x1041B, name: "DESERET CAPITAL LETTER ETH", aliases: &[] },
        Codepoint { codepoint: 0x1041C, name: "DESERET CAPITAL LETTER THEE", aliases: &[] },
        Codepoint { codepoint: 0x1041D, name: "DESERET CAPITAL LETTER ES", aliases: &[] },
        Codepoint { codepoint: 0x1041E, name: "DESERET CAPITAL LETTER ZEE", aliases: &[] },
        Codepoint { codepoint: 0x1041F, name: "DESERET CAPITAL LETTER ESH", aliases: &[] },
        Codepoint { codepoint: 0x10420, name: "DESERET CAPITAL LETTER ZHEE", aliases: &[] },
        Codepoint { codepoint: 0x10421, name: "DESERET CAPITAL LETTER ER", aliases: &[] },
        Codepoint { codepoint: 0x10422, name: "DESERET CAPITAL LETTER EL", aliases: &[] },
        Codepoint { codepoint: 0x10423, name: "DESERET CAPITAL LETTER EM", aliases: &[] },
        Codepoint { codepoint: 0x10424, name: "DESERET CAPITAL LETTER EN", aliases: &[] },
        Codepoint { codepoint: 0x10425, name: "DESERET CAPITAL LETTER ENG", aliases: &[] },
        Codepoint { codepoint: 0x10426, name: "DESERET CAPITAL LETTER OI", aliases: &[] },
        Codepoint { codepoint: 0x10427, name: "DESERET CAPITAL LETTER EW", aliases: &[] },
        Codepoint { codepoint: 0x10428, name: "DESERET SMALL LETTER LONG I", aliases: &[] },
        Codepoint { codepoint: 0x10429, name: "DESERET SMALL LETTER LONG E", aliases: &[] },
        Codepoint { codepoint: 0x1042A, name: "DESERET SMALL LETTER LONG A", aliases: &[] },
        Codepoint { codepoint: 0x1042B, name: "DESERET SMALL LETTER LONG AH", aliases: &[] },
        Codepoint { codepoint: 0x1042C, name: "DESERET SMALL LETTER LONG O", aliases: &[] },
        Codepoint { codepoint: 0x1042D, name: "DESERET SMALL LETTER LONG OO", aliases: &[] },
        Codepoint { codepoint: 0x1042E, name: "DESERET SMALL LETTER SHORT I", aliases: &[] },
    ];
    assert(v@ =~= codepoint_table_440());
    v
}

pub open spec fn codepoint_table_441() -> Seq<Codepoint> {
    seq![
        Codepoint { codepoint: 0x1042F, name: "DESERET SMALL LETTER SHORT E", aliases: &[] },
        Codepoint { codepoint: 0x10430, name: "DESERET SMALL LETTER SHORT A", aliases: &[] },
        Codepoint { codepoint: 0x10431, name: "DESERET SMALL LETTER SHORT AH", aliases: &[] },
        Codepoint { codepoint: 0x10432, name: "DESERET SMALL LETTER SHORT O", aliases: &[] },
        Codepoint { codepoint: 0x10433, name: "DESERET SMALL LETTER SHORT OO", aliases: &[] },
        Codepoint { codepoint: 0x10434, name: "DESERET SMALL LETTER AY", aliases: &[] },
        Codepoint { codepoint: 0x10435, name: "DESERET SMALL LETTER OW", aliases: &[] },
        Codepoint { codepoint: 0x10436, name: "DESERET SMALL LETTER WU", aliases: &[] },
        Codepoint { codepoint: 0x10437, name: "DESERET SMALL LETTER YEE", aliases: &[] },
        Codepoint { codepoint: 0x10438, name: "DESERET SMALL LETTER H", aliases: &[] },
        Codepoint { codepoint: 0x10439, name: "DESERET SMALL LETTER PEE", aliases: &[] },
        Codepoint { codepoint: 0x1043A, name: "DESERET SMALL LETTER BEE", aliases: &[] },
        Codepoint { codepoint: 0x1043B, name: "DESERET SMALL LETTER TEE", aliases: &[] },
        Codepoint { codepoint: 0x1043C, name: "DESERET SMALL LETTER DEE", aliases: &[] },
        Codepoint { codepoint: 0x1043D, name: "DESERET SMALL LETTER CHEE", aliases: &[] },
        Codepoint { codepoint: 0x1043E, name: "DESERET SMALL LETTER JEE", aliases: &[] },
        Codepoint { codepoint: 0x1043F, name: "DESERET SMALL LETTER KAY", aliases: &[] },
        Codepoint { codepoint: 0x10440, name: "DESERET SMALL LETTER GAY", aliases: &[] },
        Codepoint { codepoint: 0x10441, name: "DESERET SMALL LETTER EF", aliases: &[] },
        Codepoint { codepoint: 0x10442, name: "DESERET SMALL LETTER VEE", aliases: &[] },
        Codepoint { codepoint: 0x10443, name: "DESERET SMALL LETTER ETH", aliases: &[] },
        Codepoint { codepoint: 0x10444, name: "DESERET SMALL LETTER THEE", aliases: &[] },
        Codepoint { codepoint: 0x10445, name: "DESERET SMALL LETTER ES", aliases: &[] },
        Codepoint { codepoint: 0x10446, name: "DESERET SMALL LETTER ZEE", aliases: &[] },
        Codepoint { codepoint: 0x10447, name: "DESERET SMALL LETTER ESH", aliases: &[] },
        Codepoint { codepoint: 0x10448, name: "DESERET SMALL LETTER ZHEE", aliases: &[] },
        Codepoint { codepoint: 0x10449, name: "DESERET SMALL LETTER ER", aliases: &[] },
        Codepoint { codepoint: 0x1044A, name: "DESERET SMALL LETTER EL", aliases: &[] },
        Codepoint { codepoint: 0x1044B, name: "DESERET SMALL LETTER EM", aliases: &[] },
        Codepoint { codepoint: 0x1044C, name: "DESERET SMALL LETTER EN", aliases: &[] },
        Codepoint { codepoint: 0x1044D, name: "DESERET SMALL LETTER ENG", aliases: &[] },
        Codepoint { codepoint: 0x1044E, name: "DESERET SMALL LETTER OI", aliases: &[] },
        Codepoint { codepoint: 0x1044F, name: "DESERET SMALL LETTER EW", aliases: &[] },
        Codepoint { codepoint: 0x10450, name: "SHAVIAN LETTER PEEP", aliases: &[] },
        Codepoint { codepoint: 0x10451, name: "SHAVIAN LETTER TOT", aliases: &[] },
        Codepoint { codepoint: 0x10452, name: "SHAVIAN LETTER KICK", aliases: &[] },
        Codepoint { codepoint: 0x10453, name: "SHAVIAN LETTER FEE", aliases: &[] },
        Codepoint { codepoint: 0x10454, name: "SHAVIAN LETTER THIGH", aliases: &[] },
        Codepoint { codepoint: 0x10455, name: "SHAVIAN LETTER SO", aliases: &[] },
        Codepoint { codepoint: 0x10456, name: "SHAVIAN LETTER SURE", aliases: &[] },
    ]
}

fn all_codepoints_441() -> (v: Vec<Codepoint>)
    ensures
        v@ == codepoint_table_441(),
{
    let v = vec![
        Codepoint { codepoint: 0x1042F, name: "DESERET SMALL LETTER SHORT E", aliases: &[] },
        Codepoint { codepoint: 0x10430, name: "DESERET SMALL LETTER SHORT A", aliases: &[] },
        Codepoint { codepoint: 0x10431, name: "DESERET SMALL LETTER SHORT AH", aliases: &[] },
        Codepoint { codepoint: 0x10432, name: "DESERET SMALL LETTER SHORT O", aliases: &[] },
        Codepoint { codepoint: 0x10433, name: "DESERET SMALL LETTER SHORT OO", aliases: &[] },
        Codepoint { codepoint: 0x10434, name: "DESERET SMALL LETTER AY", aliases: &[] },
        Codepoint { codepoint: 0x10435, name: "DESERET SMALL LETTER OW", aliases: &[] },
        Codepoint { codepoint: 0x10436, name: "DESERET SMALL LETTER WU", aliases: &[] },
        Codepoint { codepoint: 0x10437, name: "DESERET SMALL LETTER YEE", aliases: &[] },
        Codepoint { codepoint: 0x10438, name: "DESERET SMALL LETTER H", aliases: &[] },
        Codepoint { codepoint: 0x10439, name: "DESERET SMALL LETTER PEE", aliases: &[] },
        Codepoint { codepoint: 0x1043A, name: "DESERET SMALL LETTER BEE", aliases: &[] },
        Codepoint { codepoint: 0x1043B, name: "DESERET SMALL LETTER TEE", aliases: &[] },
        Codepoint { codepoint: 0x1043C, name: "DESERET SMALL LETTER DEE", aliases: &[] },
        Codepoint { codepoint: 0x1043D, name: "DESERET SMALL LETTER CHEE", aliases: &[] },
        Codepoint { codepoint: 0x1043E, name: "DESERET SMALL LETTER JEE", aliases: &[] },
        Codepoint { codepoint: 0x1043F, name: "DESERET SMALL LETTER KAY", aliases: &[] },
        Codepoint { codepoint: 0x10440, name: "DESERET SMALL LETTER GAY", aliases: &[] },
        Codepoint { codepoint: 0x10441, name: "DESERET SMALL LETTER EF", aliases: &[] },
        Codepoint { codepoint: 0x10442, name: "DESERET SMALL LETTER VEE", aliases: &[] },
        Codepoint { codepoint: 0x10443, name: "DESERET SMALL LETTER ETH", aliases: &[] },
        Codepoint { codepoint: 0x10444, name: "DESERET SMALL LETTER THEE", aliases: &[] },
        Codepoint { codepoint: 0x10445, name: "DESERET SMALL LETTER ES", aliases: &[] },
        Codepoint { codepoint: 0x10446, name: "DESERET SMALL LETTER ZEE", aliases: &[] },
        Codepoint { codepoint: 0x10447, name: "DESERET SMALL LETTER ESH", aliases: &[] },
        Codepoint { codepoint: 0x10448, name: "DESERET SMALL LETTER ZHEE", aliases: &[] },
        Codepoint { codepoint: 0x10449, name: "DESERET SMALL LETTER ER", aliases: &[] },
        Codepoint { codepoint: 0x1044A, name: "DESERET SMALL LETTER EL", aliases: &[] },
        Codepoint { codepoint: 0x1044B, name: "DESERET SMALL LETTER EM", aliases: &[] },
        Codepoint { codepoint: 0x1044C, name: "DESERET SMALL LETTER EN", aliases: &[] },
        Codepoint { codepoint: 0x1044D, name: "DESERET SMALL LETTER ENG", aliases: &[] },
        Codepoint { codepoint: 0x1044E, name: "DESERET SMALL LETTER OI", aliases: &[] },
        Codepoint { codepoint: 0x1044F, name: "DESERET SMALL LETTER EW", aliases: &[] },
        Codepoint { codepoint: 0x10450, name: "SHAVIAN LETTER PEEP", aliases: &[] },
        Codepoint { codepoint: 0x10451, name: "SHAVIAN LETTER TOT", aliases: &[] },
        Codepoint { codepoint: 0x10452, name: "SHAVIAN LETTER KICK", aliases: &[] },
        Codepoint { codepoint: 0x10453, name: "SHAVIAN LETTER FEE", aliases: &[] },
        Codepoint { codepoint: 0x10454, name: "SHAVIAN LETTER THIGH", aliases: &[] },
        Codepoint { codepoint: 0x10455, name: "SHAVIAN LETTER SO", aliases: &[] },
        Codepoint { codepoint: 0x10456, name: "SHAVIAN LETTER SURE", aliases: &[] },
    ];
    assert(v@ =~= codepoint_table_441());
    v
}

pub open spec fn codepoint_table_442() -> Seq<Codepoint> {
    seq![
        Codepoint { codepoint: 0x10457, name: "SHAVIAN LETTER CHURCH", aliases: &[] },
        Codepoint { codepoint: 0x10458, name: "SHAVIAN LETTER YEA", aliases: &[] },
        Codepoint { codepoint: 0x10459, name: "SHAVIAN LETTER HUNG", aliases: &[] },
        Codepoint { codepoint: 0x1045A, name: "SHAVIAN LETTER BIB", aliases: &[] },
        Codepoint { codepoint: 0x1045B, name: "SHAVIAN LETTER DEAD", aliases: &[] },
        Codepoint { codepoint: 0x1045C, name: "SHAVIAN LETTER GAG", aliases: &[] },
        Codepoint { codepoint: 0x1045D, name: "SHAVIAN LETTER VOW", aliases: &[] },
        Codepoint { codepoint: 0x1045E, name: "SHAVIAN LETTER THEY", aliases: &[] },
        Codepoint { codepoint: 0x1045F, name: "SHAVIAN LETTER ZOO", aliases: &[] },
        Codepoint { codepoint: 0x10460, name: "SHAVIAN LETTER MEASURE", aliases: &[] },
        Codepoint { codepoint: 0x10461, name: "SHAVIAN LETTER JUDGE", aliases: &[] },
        Codepoint { codepoint: 0x10462, name: "SHAVIAN LETTER WOE", aliases: &[] },
        Codepoint { codepoint: 0x10463, name: "SHAVIAN LETTER HA-HA", aliases: &[] },
        Codepoint { codepoint: 0x10464, name: "SHAVIAN LETTER LOLL", aliases: &[] },
        Codepoint { codepoint: 0x10465, name: "SHAVIAN LETTER MIME", aliases: &[] },
        Codepoint { codepoint: 0x10466, name: "SHAVIAN LETTER IF", aliases: &[] },
        Codepoint { codepoint: 0x10467, name: "SHAVIAN LETTER EGG", aliases: &[] },
        Codepoint { codepoint: 0x10468, name: "SHAVIAN LETTER ASH", aliases: &[] },
        Codepoint { codepoint: 0x10469, name: "SHAVIAN LETTER ADO", aliases: &[] },
        Codepoint { codepoint: 0x1046A, name: "SHAVIAN LETTER ON", aliases: &[] },
        Codepoint { codepoint: 0x1046B, name: "SHAVIAN LETTER WOOL", aliases: &[] },
        Codepoint { codepoint: 0x1046C, name: "SHAVIAN LETTER OUT", aliases: &[] },
        Codepoint { codepoint: 0x1046D, name: "SHAVIAN LETTER AH", aliases: &[] },
        Codepoint { codepoint: 0x1046E, name: "SHAVIAN LETTER ROAR", aliases: &[] },
        Codepoint { codepoint: 0x1046F, name: "SHAVIAN LETTER NUN", aliases: &[] },
        Codepoint { codepoint: 0x10470, name: "SHAVIAN LETTER EAT", aliases: &[] },
        Codepoint { codepoint: 0x10471, name: "SHAVIAN LETTER AGE", aliases: &[] },
        Codepoint { codepoint: 0x10472, name: "SHAVIAN LETTER ICE", aliases: &[] },
        Codepoint { codepoint: 0x10473, name: "SHAVIAN LETTER UP", aliases: &[] },
        Codepoint { codepoint: 0x10474, name: "SHAVIAN LETTER OAK", aliases: &[] },
        Codepoint { codepoint: 0x10475, name: "SHAVIAN LETTER OOZE", aliases: &[] },
        Codepoint { codepoint: 0x10476, name: "SHAVIAN LETTER OIL", aliases: &[] },
        Codepoint { codepoint: 0x10477, name: "SHAVIAN LETTER AWE", aliases: &[] },
        Codepoint { codepoint: 0x10478, name: "SHAVIAN LETTER ARE", aliases: &[] },
        Codepoint { codepoint: 0x10479, name: "SHAVIAN LETTER OR", aliases: &[] },
        Codepoint { codepoint: 0x1047A, name: "SHAVIAN LETTER AIR", aliases: &[] },
        Codepoint { codepoint: 0x1047B, name: "SHAVIAN LETTER ERR", aliases: &[] },
        Codepoint { codepoint: 0x1047C, name: "SHAVIAN LETTER ARRAY", aliases: &[] },
        Codepoint { codepoint: 0x1047D, name: "SHAVIAN LETTER EAR", aliases: &[] },
        Codepoint { codepoint: 0x1047E, name: "SHAVIAN LETTER IAN", aliases: &[] },
    ]
}

fn all_codepoints_442() -> (v: Vec<Codepoint>)
    ensures
        v@ == codepoint_table_442(),
{
    let v = vec![
        Codepoint { codepoint: 0x10457, name: "SHAVIAN LETTER CHURCH", aliases: &[] },
        Codepoint { codepoint: 0x10458, name: "SHAVIAN LETTER YEA", aliases: &[] },
        Codepoint { codepoint: 0x10459, name: "SHAVIAN LETTER HUNG", aliases: &[] },
        Codepoint { codepoint: 0x1045A, name: "SHAVIAN LETTER BIB", aliases: &[] },
        Codepoint { codepoint: 0x1045B, name: "SHAVIAN LETTER DEAD", aliases: &[] },
        Codepoint { codepoint: 0x1045C, name: "SHAVIAN LETTER GAG", aliases: &[] },
        Codepoint { codepoint: 0x1045D, name: "SHAVIAN LETTER VOW", aliases: &[] },
        Codepoint { codepoint: 0x1045E, name: "SHAVIAN LETTER THEY", aliases: &[] },
        Codepoint { codepoint: 0x1045F, name: "SHAVIAN LETTER ZOO", aliases: &[] },
        Codepoint { codepoint: 0x10460, name: "SHAVIAN LETTER MEASURE", aliases: &[] },
        Codepoint { codepoint: 0x10461, name: "SHAVIAN LETTER JUDGE", aliases: &[] },
        Codepoint { codepoint: 0x10462, name: "SHAVIAN LETTER WOE", aliases: &[] },
        Codepoint { codepoint: 0x10463, name: "SHAVIAN LETTER HA-HA", aliases: &[] },
        Codepoint { codepoint: 0x10464, name: "SHAVIAN LETTER LOLL", aliases: &[] },
        Codepoint { codepoint: 0x10465, name: "SHAVIAN LETTER MIME", aliases: &[] },
        Codepoint { codepoint: 0x10466, name: "SHAVIAN LETTER IF", aliases: &[] },
        Codepoint { codepoint: 0x10467, name: "SHAVIAN LETTER EGG", aliases: &[] },
        Codepoint { codepoint: 0x10468, name: "SHAVIAN LETTER ASH", aliases: &[] },
        Codepoint { codepoint: 0x10469, name: "SHAVIAN LETTER ADO", aliases: &[] },
        Codepoint { codepoint: 0x1046A, name: "SHAVIAN LETTER ON", aliases: &[] },
        Codepoint { codepoint: 0x1046B, name: "SHAVIAN LETTER WOOL", aliases: &[] },
        Codepoint { codepoint: 0x1046C, name: "SHAVIAN LETTER OUT", aliases: &[] },
        Codepoint { codepoint: 0x1046D, name: "SHAVIAN LETTER AH", aliases: &[] },
        Codepoint { codepoint: 0x1046E, name: "SHAVIAN LETTER ROAR", aliases: &[] },
        Codepoint { codepoint: 0x1046F, name: "SHAVIAN LETTER NUN", aliases: &[] },
        Codepoint { codepoint: 0x10470, name: "SHAVIAN LETTER EAT", aliases: &[] },
        Codepoint { codepoint: 0x10471, name: "SHAVIAN LETTER AGE", aliases: &[] },
        Codepoint { codepoint: 0x10472, name: "SHAVIAN LETTER ICE", aliases: &[] },
        Codepoint { codepoint: 0x10473, name: "SHAVIAN LETTER UP", aliases: &[] },
        Codepoint { codepoint: 0x10474, name: "SHAVIAN LETTER OAK", aliases: &[] },
        Codepoint { codepoint: 0x10475, name: "SHAVIAN LETTER OOZE", aliases: &[] },
        Codepoint { codepoint: 0x10476, name: "SHAVIAN LETTER OIL", aliases: &[] },
        Codepoint { codepoint: 0x10477, name: "SHAVIAN LETTER AWE", aliases: &[] },
        Codepoint { codepoint: 0x10478, name: "SHAVIAN LETTER ARE", aliases: &[] },
        Codepoint { codepoint: 0x10479, name: "SHAVIAN LETTER OR", aliases: &[] },
        Codepoint { codepoint: 0x1047A, name: "SHAVIAN LETTER AIR", aliases: &[] },
        Codepoint { codepoint: 0x1047B, name: "SHAVIAN LETTER ERR", aliases: &[] },
        Codepoint { codepoint: 0x1047C, name: "SHAVIAN LETTER ARRAY", aliases: &[] },
        Codepoint { codepoint: 0x1047D, name: "SHAVIAN LETTER EAR", aliases: &[] },
        Codepoint { codepoint: 0x1047E, name: "SHAVIAN LETTER IAN", aliases: &[] },
    ];
    assert(v@ =~= codepoint_table_442());
    v
}

pub open spec fn codepoint_table_443() -> Seq<Codepoint> {
    seq![
        Codepoint { codepoint: 0x1047F, name: "SHAVIAN LETTER YEW", aliases: &[] },
        Codepoint { codepoint: 0x10480, name: "OSMANYA LETTER ALEF", aliases: &[] },
        Codepoint { codepoint: 0x10481, name: "OSMANYA LETTER BA", aliases: &[] },
        Codepoint { codepoint: 0x10482, name: "OSMANYA LETTER TA", aliases: &[] },
        Codepoint { codepoint: 0x10483, name: "OSMANYA LETTER JA", aliases: &[] },
        Codepoint { codepoint: 0x10484, name: "OSMANYA LETTER XA", aliases: &[] },
        Codepoint { codepoint: 0x10485, name: "OSMANYA LETTER KHA", aliases: &[] },
        Codepoint { codepoint: 0x10486, name: "OSMANYA LETTER DEEL", aliases: &[] },
        Codepoint { codepoint: 0x10487, name: "OSMANYA LETTER RA", aliases: &[] },
        Codepoint { codepoint: 0x10488, name: "OSMANYA LETTER SA", aliases: &[] },
        Codepoint { codepoint: 0x10489, name: "OSMANYA LETTER SHIIN", aliases: &[] },
        Codepoint { codepoint: 0x1048A, name: "OSMANYA LETTER DHA", aliases: &[] },
        Codepoint { codepoint: 0x1048B, name: "OSMANYA LETTER CAYN", aliases: &[] },
        Codepoint { codepoint: 0x1048C, name: "OSMANYA LETTER GA", aliases: &[] },
        Codepoint { codepoint: 0x1048D, name: "OSMANYA LETTER FA", aliases: &[] },
        Codepoint { codepoint: 0x1048E, name: "OSMANYA LETTER QAAF", aliases: &[] },
        Codepoint { codepoint: 0x1048F, name: "OSMANYA LETTER KAAF", aliases: &[] },
        Codepoint { codepoint: 0x10490, name: "OSMANYA LETTER LAAN", aliases: &[] },
        Codepoint { codepoint: 0x10491, name: "OSMANYA LETTER MIIN", aliases: &[] },
        Codepoint { codepoint: 0x10492, name: "OSMANYA LETTER NUUN", aliases: &[] },
        Codepoint { codepoint: 0x10493, name: "OSMANYA LETTER WAW", aliases: &[] },
        Codepoint { codepoint: 0x10494, name: "OSMANYA LETTER HA", aliases: &[] },
        Codepoint { codepoint: 0x10495, name: "OSMANYA LETTER YA", aliases: &[] },
        Codepoint { codepoint: 0x10496, name: "OSMANYA LETTER A", aliases: &[] },
        Codepoint { codepoint: 0x10497, name: "OSMANYA LETTER E", aliases: &[] },
        Codepoint { codepoint: 0x10498, name: "OSMANYA LETTER I", aliases: &[] },
        Codepoint { codepoint: 0x10499, name: "OSMANYA LETTER O", aliases: &[] },
        Codepoint { codepoint: 0x1049A, name: "OSMANYA LETTER U", aliases: &[] },
        Codepoint { codepoint: 0x1049B, name: "OSMANYA LETTER AA", aliases: &[] },
        Codepoint { codepoint: 0x1049C, name: "OSMANYA LETTER EE", aliases: &[] },
        Codepoint { codepoint: 0x1049D, name: "OSMANYA LETTER OO", aliases: &[] },
        Codepoint { codepoint: 0x104A0, name: "OSMANYA DIGIT ZERO", aliases: &[] },
        Codepoint { codepoint: 0x104A1, name: "OSMANYA DIGIT ONE", aliases: &[] },
        Codepoint { codepoint: 0x104A2, name: "OSMANYA DIGIT TWO", aliases: &[] },
        Codepoint { codepoint: 0x104A3, name: "OSMANYA DIGIT THREE", aliases: &[] },
        Codepoint { codepoint: 0x104A4, name: "OSMANYA DIGIT FOUR", aliases: &[] },
        Codepoint { codepoint: 0x104A5, name: "OSMANYA DIGIT FIVE", aliases: &[] },
        Codepoint { codepoint: 0x104A6, name: "OSMANYA DIGIT SIX", aliases: &[] },
        Codepoint { codepoint: 0x104A7, name: "OSMANYA DIGIT SEVEN", aliases: &[] },
        Codepoint { codepoint: 0x104A8, name: "OSMANYA DIGIT EIGHT", aliases: &[] },
    ]
}

fn all_codepoints_443() -> (v: Vec<Codepoint>)
    ensures
        v@ == codepoint_table_443(),
{
    let v = vec![
        Codepoint { codepoint: 0x1047F, name: "SHAVIAN LETTER YEW", aliases: &[] },
        Codepoint { codepoint: 0x10480, name: "OSMANYA LETTER ALEF", aliases: &[] },
        Codepoint { codepoint: 0x10481, name: "OSMANYA LETTER BA", aliases: &[] },
        Codepoint { codepoint: 0x10482, name: "OSMANYA LETTER TA", aliases: &[] },
        Codepoint { codepoint: 0x10483, name: "OSMANYA LETTER JA", aliases: &[] },
        Codepoint { codepoint: 0x10484, name: "OSMANYA LETTER XA", aliases: &[] },
        Codepoint { codepoint: 0x10485, name: "OSMANYA LETTER KHA", aliases: &[] },
        Codepoint { codepoint: 0x10486, name: "OSMANYA LETTER DEEL", aliases: &[] },
        Codepoint { codepoint: 0x10487, name: "OSMANYA LETTER RA", aliases: &[] },
        Codepoint { codepoint: 0x10488, name: "OSMANYA LETTER SA", aliases: &[] },
        Codepoint { codepoint: 0x10489, name: "OSMANYA LETTER SHIIN", aliases: &[] },
        Codepoint { codepoint: 0x1048A, name: "OSMANYA LETTER DHA", aliases: &[] },
        Codepoint { codepoint: 0x1048B, name: "OSMANYA LETTER CAYN", aliases: &[] },
        Codepoint { codepoint: 0x1048C, name: "OSMANYA LETTER GA", aliases: &[] },
        Codepoint { codepoint: 0x1048D, name: "OSMANYA LETTER FA", aliases: &[] },
        Codepoint { codepoint: 0x1048E, name: "OSMANYA LETTER QAAF", aliases: &[] },
        Codepoint { codepoint: 0x1048F, name: "OSMANYA LETTER KAAF", aliases: &[] },
        Codepoint { codepoint: 0x10490, name: "OSMANYA LETTER LAAN", aliases: &[] },
        Codepoint { codepoint: 0x10491, name: "OSMANYA LETTER MIIN", aliases: &[] },
        Codepoint { codepoint: 0x10492, name: "OSMANYA LETTER NUUN", aliases: &[] },
        Codepoint { codepoint: 0x10493, name: "OSMANYA LETTER WAW", aliases: &[] },
        Codepoint { codepoint: 0x10494, name: "OSMANYA LETTER HA", aliases: &[] },
        Codepoint { codepoint: 0x10495, name: "OSMANYA LETTER YA", aliases: &[] },
        Codepoint { codepoint: 0x10496, name: "OSMANYA LETTER A", aliases: &[] },
        Codepoint { codepoint: 0x10497, name: "OSMANYA LETTER E", aliases: &[] },
        Codepoint { codepoint: 0x10498, name: "OSMANYA LETTER I", aliases: &[] },
        Codepoint { codepoint: 0x10499, name: "OSMANYA LETTER O", aliases: &[] },
        Codepoint { codepoint: 0x1049A, name: "OSMANYA LETTER U", aliases: &[] },
        Codepoint { codepoint: 0x1049B, name: "OSMANYA LETTER AA", aliases: &[] },
        Codepoint { codepoint: 0x1049C, name: "OSMANYA LETTER EE", aliases: &[] },
        Codepoint { codepoint: 0x1049D, name: "OSMANYA LETTER OO", aliases: &[] },
        Codepoint { codepoint: 0x104A0, name: "OSMANYA DIGIT ZERO", aliases: &[] },
        Codepoint { codepoint: 0x104A1, name: "OSMANYA DIGIT ONE", aliases: &[] },
        Codepoint { codepoint: 0x104A2, name: "OSMANYA DIGIT TWO", aliases: &[] },
        Codepoint { codepoint: 0x104A3, name: "OSMANYA DIGIT THREE", aliases: &[] },
        Codepoint { codepoint: 0x104A4, name: "OSMANYA DIGIT FOUR", aliases: &[] },
        Codepoint { codepoint: 0x104A5, name: "OSMANYA DIGIT FIVE", aliases: &[] },
        Codepoint { codepoint: 0x104A6, name: "OSMANYA DIGIT SIX", aliases: &[] },
        Codepoint { codepoint: 0x104A7, name: "OSMANYA DIGIT SEVEN", aliases: &[] },
        Codepoint { codepoint: 0x104A8, name: "OSMANYA DIGIT EIGHT", aliases: &[] },
    ];
    assert(v@ =~= codepoint_table_443());
    v
}

pub open spec fn codepoint_table_444() -> Seq<Codepoint> {
    seq![
        Codepoint { codepoint: 0x104A9, name: "OSMANYA DIGIT NINE", aliases: &[] },
        Codepoint { codepoint: 0x104B0, name: "OSAGE CAPITAL LETTER A", aliases: &[] },
        Codepoint { codepoint: 0x104B1, name: "OSAGE CAPITAL LETTER AI", aliases: &[] },
        Codepoint { codepoint: 0x104B2, name: "OSAGE CAPITAL LETTER AIN", aliases: &[] },
        Codepoint { codepoint: 0x104B3, name: "OSAGE CAPITAL LETTER AH", aliases: &[] },
        Codepoint { codepoint: 0x104B4, name: "OSAGE CAPITAL LETTER BRA", aliases: &[] },
        Codepoint { codepoint: 0x104B5, name: "OSAGE CAPITAL LETTER CHA", aliases: &[] },
        Codepoint { codepoint: 0x104B6, name: "OSAGE CAPITAL LETTER EHCHA", aliases: &[] },
        Codepoint { codepoint: 0x104B7, name: "OSAGE CAPITAL LETTER E", aliases: &[] },
        Codepoint { codepoint: 0x104B8, name: "OSAGE CAPITAL LETTER EIN", aliases: &[] },
        Codepoint { codepoint: 0x104B9, name: "OSAGE CAPITAL LETTER HA", aliases: &[] },
        Codepoint { codepoint: 0x104BA, name: "OSAGE CAPITAL LETTER HYA", aliases: &[] },
        Codepoint { codepoint: 0x104BB, name: "OSAGE CAPITAL LETTER I", aliases: &[] },
        Codepoint { codepoint: 0x104BC, name: "OSAGE CAPITAL LETTER KA", aliases: &[] },
        Codepoint { codepoint: 0x104BD, name: "OSAGE CAPITAL LETTER EHKA", aliases: &[] },
        Codepoint { codepoint: 0x104BE, name: "OSAGE CAPITAL LETTER KYA", aliases: &[] },
        Codepoint { codepoint: 0x104BF, name: "OSAGE CAPITAL LETTER LA", aliases: &[] },
        Codepoint { codepoint: 0x104C0, name: "OSAGE CAPITAL LETTER MA", aliases: &[] },
        Codepoint { codepoint: 0x104C1, name: "OSAGE CAPITAL LETTER NA", aliases: &[] },
        Codepoint { codepoint: 0x104C2, name: "OSAGE CAPITAL LETTER O", aliases: &[] },
        Codepoint { codepoint: 0x104C3, name: "OSAGE CAPITAL LETTER OIN", aliases: &[] },
        Codepoint { codepoint: 0x104C4, name: "OSAGE CAPITAL LETTER PA", aliases: &[] },
        Codepoint { codepoint: 0x104C5, name: "OSAGE CAPITAL LETTER EHPA", aliases: &[] },
        Codepoint { codepoint: 0x104C6, name: "OSAGE CAPITAL LETTER SA", aliases: &[] },
        Codepoint { codepoint: 0x104C7, name: "OSAGE CAPITAL LETTER SHA", aliases: &[] },
        Codepoint { codepoint: 0x104C8, name: "OSAGE CAPITAL LETTER TA", aliases: &[] },
        Codepoint { codepoint: 0x104C9, name: "OSAGE CAPITAL LETTER EHTA", aliases: &[] },
        Codepoint { codepoint: 0x104CA, name: "OSAGE CAPITAL LETTER TSA", aliases: &[] },
        Codepoint { codepoint: 0x104CB, name: "OSAGE CAPITAL LETTER EHTSA", aliases: &[] },
        Codepoint { codepoint: 0x104CC, name: "OSAGE CAPITAL LETTER TSHA", aliases: &[] },
        Codepoint { codepoint: 0x104CD, name: "OSAGE CAPITAL LETTER DHA", aliases: &[] },
        Codepoint { codepoint: 0x104CE, name: "OSAGE CAPITAL LETTER U", aliases: &[] },
        Codepoint { codepoint: 0x104CF, name: "OSAGE CAPITAL LETTER WA", aliases: &[] },
        Codepoint { codepoint: 0x104D0, name: "OSAGE CAPITAL LETTER KHA", aliases: &[] },
        Codepoint { codepoint: 0x104D1, name: "OSAGE CAPITAL LETTER GHA", aliases: &[] },
        Codepoint { codepoint: 0x104D2, name: "OSAGE CAPITAL LETTER ZA", aliases: &[] },
        Codepoint { codepoint: 0x104D3, name: "OSAGE CAPITAL LETTER ZHA", aliases: &[] },
        Codepoint { codepoint: 0x104D8, name: "OSAGE SMALL LETTER A", aliases: &[] },
        Codepoint { codepoint: 0x104D9, name: "OSAGE SMALL LETTER AI", aliases: &[] },
        Codepoint { codepoint: 0x104DA, name: "OSAGE SMALL LETTER AIN", aliases: &[] },
    ]
}

fn all_codepoints_444() -> (v: Vec<Codepoint>)
    ensures
        v@ == codepoint_table_444(),
{
    let v = vec![
        Codepoint { codepoint: 0x104A9, name: "OSMANYA DIGIT NINE", aliases: &[] },
        Codepoint { codepoint: 0x104B0, name: "OSAGE CAPITAL LETTER A", aliases: &[] },
        Codepoint { codepoint: 0x104B1, name: "OSAGE CAPITAL LETTER AI", aliases: &[] },
        Codepoint { codepoint: 0x104B2, name: "OSAGE CAPITAL LETTER AIN", aliases: &[] },
        Codepoint { codepoint: 0x104B3, name: "OSAGE CAPITAL LETTER AH", aliases: &[] },
        Codepoint { codepoint: 0x104B4, name: "OSAGE CAPITAL LETTER BRA", aliases: &[] },
        Codepoint { codepoint: 0x104B5, name: "OSAGE CAPITAL LETTER CHA", aliases: &[] },
        Codepoint { codepoint: 0x104B6, name: "OSAGE CAPITAL LETTER EHCHA", aliases: &[] },
        Codepoint { codepoint: 0x104B7, name: "OSAGE CAPITAL LETTER E", aliases: &[] },
        Codepoint { codepoint: 0x104B8, name: "OSAGE CAPITAL LETTER EIN", aliases: &[] },
        Codepoint { codepoint: 0x104B9, name: "OSAGE CAPITAL LETTER HA", aliases: &[] },
        Codepoint { codepoint: 0x104BA, name: "OSAGE CAPITAL LETTER HYA", aliases: &[] },
        Codepoint { codepoint: 0x104BB, name: "OSAGE CAPITAL LETTER I", aliases: &[] },
        Codepoint { codepoint: 0x104BC, name: "OSAGE CAPITAL LETTER KA", aliases: &[] },
        Codepoint { codepoint: 0x104BD, name: "OSAGE CAPITAL LETTER EHKA", aliases: &[] },
        Codepoint { codepoint: 0x104BE, name: "OSAGE CAPITAL LETTER KYA", aliases: &[] },
        Codepoint { codepoint: 0x104BF, name: "OSAGE CAPITAL LETTER LA", aliases: &[] },
        Codepoint { codepoint: 0x104C0, name: "OSAGE CAPITAL LETTER MA", aliases: &[] },
        Codepoint { codepoint: 0x104C1, name: "OSAGE CAPITAL LETTER NA", aliases: &[] },
        Codepoint { codepoint: 0x104C2, name: "OSAGE CAPITAL LETTER O", aliases: &[] },
        Codepoint { codepoint: 0x104C3, name: "OSAGE CAPITAL LETTER OIN", aliases: &[] },
        Codepoint { codepoint: 0x104C4, name: "OSAGE CAPITAL LETTER PA", aliases: &[] },
        Codepoint { codepoint: 0x104C5, name: "OSAGE CAPITAL LETTER EHPA", aliases: &[] },
        Codepoint { codepoint: 0x104C6, name: "OSAGE CAPITAL LETTER SA", aliases: &[] },
        Codepoint { codepoint: 0x104C7, name: "OSAGE CAPITAL LETTER SHA", aliases: &[] },
        Codepoint { codepoint: 0x104C8, name: "OSAGE CAPITAL LETTER TA", aliases: &[] },
        Codepoint { codepoint: 0x104C9, name: "OSAGE CAPITAL LETTER EHTA", aliases: &[] },
        Codepoint { codepoint: 0x104CA, name: "OSAGE CAPITAL LETTER TSA", aliases: &[] },
        Codepoint { codepoint: 0x104CB, name: "OSAGE CAPITAL LETTER EHTSA", aliases: &[] },
        Codepoint { codepoint: 0x104CC, name: "OSAGE CAPITAL LETTER TSHA", aliases: &[] },
        Codepoint { codepoint: 0x104CD, name: "OSAGE CAPITAL LETTER DHA", aliases: &[] },
        Codepoint { codepoint: 0x104CE, name: "OSAGE CAPITAL LETTER U", aliases: &[] },
        Codepoint { codepoint: 0x104CF, name: "OSAGE CAPITAL LETTER WA", aliases: &[] },
        Codepoint { codepoint: 0x104D0, name: "OSAGE CAPITAL LETTER KHA", aliases: &[] },
        Codepoint { codepoint: 0x104D1, name: "OSAGE CAPITAL LETTER GHA", aliases: &[] },
        Codepoint { codepoint: 0x104D2, name: "OSAGE CAPITAL LETTER ZA", aliases: &[] },
        Codepoint { codepoint: 0x104D3, name: "OSAGE CAPITAL LETTER ZHA", aliases: &[] },
        Codepoint { codepoint: 0x104D8, name: "OSAGE SMALL LETTER A", aliases: &[] },
        Codepoint { codepoint: 0x104D9, name: "OSAGE SMALL LETTER AI", aliases: &[] },
        Codepoint { codepoint: 0x104DA, name: "OSAGE SMALL LETTER AIN", aliases: &[] },
    ];
    assert(v@ =~= codepoint_table_444());
    v
}

pub open spec fn codepoint_table_445() -> Seq<Codepoint> {
    seq![
        Codepoint { codepoint: 0x104DB, name: "OSAGE SMALL LETTER AH", aliases: &[] },
        Codepoint { codepoint: 0x104DC, name: "OSAGE SMALL LETTER BRA", aliases: &[] },
        Codepoint { codepoint: 0x104DD, name: "OSAGE SMALL LETTER CHA", aliases: &[] },
        Codepoint { codepoint: 0x104DE, name: "OSAGE SMALL LETTER EHCHA", aliases: &[] },
        Codepoint { codepoint: 0x104DF, name: "OSAGE SMALL LETTER E", aliases: &[] },
        Codepoint { codepoint: 0x104E0, name: "OSAGE SMALL LETTER EIN", aliases: &[] },
        Codepoint { codepoint: 0x104E1, name: "OSAGE SMALL LETTER HA", aliases: &[] },
        Codepoint { codepoint: 0x104E2, name: "OSAGE SMALL LETTER HYA", aliases: &[] },
        Codepoint { codepoint: 0x104E3, name: "OSAGE SMALL LETTER I", aliases: &[] },
        Codepoint { codepoint: 0x104E4, name: "OSAGE SMALL LETTER KA", aliases: &[] },
        Codepoint { codepoint: 0x104E5, name: "OSAGE SMALL LETTER EHKA", aliases: &[] },
        Codepoint { codepoint: 0x104E6, name: "OSAGE SMALL LETTER KYA", aliases: &[] },
        Codepoint { codepoint: 0x104E7, name: "OSAGE SMALL LETTER LA", aliases: &[] },
        Codepoint { codepoint: 0x104E8, name: "OSAGE SMALL LETTER MA", aliases: &[] },
        Codepoint { codepoint: 0x104E9, name: "OSAGE SMALL LETTER NA", aliases: &[] },
        Codepoint { codepoint: 0x104EA, name: "OSAGE SMALL LETTER O", aliases: &[] },
        Codepoint { codepoint: 0x104EB, name: "OSAGE SMALL LETTER OIN", aliases: &[] },
        Codepoint { codepoint: 0x104EC, name: "OSAGE SMALL LETTER PA", aliases: &[] },
        Codepoint { codepoint: 0x104ED, name: "OSAGE SMALL LETTER EHPA", aliases: &[] },
        Codepoint { codepoint: 0x104EE, name: "OSAGE SMALL LETTER SA", aliases: &[] },
        Codepoint { codepoint: 0x104EF, name: "OSAGE SMALL LETTER SHA", aliases: &[] },
        Codepoint { codepoint: 0x104F0, name: "OSAGE SMALL LETTER TA", aliases: &[] },
        Codepoint { codepoint: 0x104F1, name: "OSAGE SMALL LETTER EHTA", aliases: &[] },
        Codepoint { codepoint: 0x104F2, name: "OSAGE SMALL LETTER TSA", aliases: &[] },
        Codepoint { codepoint: 0x104F3, name: "OSAGE SMALL LETTER EHTSA", aliases: &[] },
        Codepoint { codepoint: 0x104F4, name: "OSAGE SMALL LETTER TSHA", aliases: &[] },
        Codepoint { codepoint: 0x104F5, name: "OSAGE SMALL LETTER DHA", aliases: &[] },
        Codepoint { codepoint: 0x104F6, name: "OSAGE SMALL LETTER U", aliases: &[] },
        Codepoint { codepoint: 0x104F7, name: "OSAGE SMALL LETTER WA", aliases: &[] },
        Codepoint { codepoint: 0x104F8, name: "OSAGE SMALL LETTER KHA", aliases: &[] },
        Codepoint { codepoint: 0x104F9, name: "OSAGE SMALL LETTER GHA", aliases: &[] },
        Codepoint { codepoint: 0x104FA, name: "OSAGE SMALL LETTER ZA", aliases: &[] },
        Codepoint { codepoint: 0x104FB, name: "OSAGE SMALL LETTER ZHA", aliases: &[] },
        Codepoint { codepoint: 0x10500, name: "ELBASAN LETTER A", aliases: &[] },
        Codepoint { codepoint: 0x10501, name: "ELBASAN LETTER BE", aliases: &[] },
        Codepoint { codepoint: 0x10502, name: "ELBASAN LETTER CE", aliases: &[] },
        Codepoint { codepoint: 0x10503, name: "ELBASAN LETTER CHE", aliases: &[] },
        Codepoint { codepoint: 0x10504, name: "ELBASAN LETTER DE", aliases: &[] },
        Codepoint { codepoint: 0x10505, name: "ELBASAN LETTER NDE", aliases: &[] },
        Codepoint { codepoint: 0x10506, name: "ELBASAN LETTER DHE", aliases: &[] },
    ]
}

fn all_codepoints_445() -> (v: Vec<Codepoint>)
    ensures
        v@ == codepoint_table_445(),
{
    let v = vec![
        Codepoint { codepoint: 0x104DB, name: "OSAGE SMALL LETTER AH", aliases: &[] },
        Codepoint { codepoint: 0x104DC, name: "OSAGE SMALL LETTER BRA", aliases: &[] },
        Codepoint { codepoint: 0x104DD, name: "OSAGE SMALL LETTER CHA", aliases: &[] },
        Codepoint { codepoint: 0x104DE, name: "OSAGE SMALL LETTER EHCHA", aliases: &[] },
        Codepoint { codepoint: 0x104DF, name: "OSAGE SMALL LETTER E", aliases: &[] },
        Codepoint { codepoint: 0x104E0, name: "OSAGE SMALL LETTER EIN", aliases: &[] },
        Codepoint { codepoint: 0x104E1, name: "OSAGE SMALL LETTER HA", aliases: &[] },
        Codepoint { codepoint: 0x104E2, name: "OSAGE SMALL LETTER HYA", aliases: &[] },
        Codepoint { codepoint: 0x104E3, name: "OSAGE SMALL LETTER I", aliases: &[] },
        Codepoint { codepoint: 0x104E4, name: "OSAGE SMALL LETTER KA", aliases: &[] },
        Codepoint { codepoint: 0x104E5, name: "OSAGE SMALL LETTER EHKA", aliases: &[] },
        Codepoint { codepoint: 0x104E6, name: "OSAGE SMALL LETTER KYA", aliases: &[] },
        Codepoint { codepoint: 0x104E7, name: "OSAGE SMALL LETTER LA", aliases: &[] },
        Codepoint { codepoint: 0x104E8, name: "OSAGE SMALL LETTER MA", aliases: &[] },
        Codepoint { codepoint: 0x104E9, name: "OSAGE SMALL LETTER NA", aliases: &[] },
        Codepoint { codepoint: 0x104EA, name: "OSAGE SMALL LETTER O", aliases: &[] },
        Codepoint { codepoint: 0x104EB, name: "OSAGE SMALL LETTER OIN", aliases: &[] },
        Codepoint { codepoint: 0x104EC, name: "OSAGE SMALL LETTER PA", aliases: &[] },
        Codepoint { codepoint: 0x104ED, name: "OSAGE SMALL LETTER EHPA", aliases: &[] },
        Codepoint { codepoint: 0x104EE, name: "OSAGE SMALL LETTER SA", aliases: &[] },
        Codepoint { codepoint: 0x104EF, name: "OSAGE SMALL LETTER SHA", aliases: &[] },
        Codepoint { codepoint: 0x104F0, name: "OSAGE SMALL LETTER TA", aliases: &[] },
        Codepoint { codepoint: 0x104F1, name: "OSAGE SMALL LETTER EHTA", aliases: &[] },
        Codepoint { codepoint: 0x104F2, name: "OSAGE SMALL LETTER TSA", aliases: &[] },
        Codepoint { codepoint: 0x104F3, name: "OSAGE SMALL LETTER EHTSA", aliases: &[] },
        Codepoint { codepoint: 0x104F4, name: "OSAGE SMALL LETTER TSHA", aliases: &[] },
        Codepoint { codepoint: 0x104F5, name: "OSAGE SMALL LETTER DHA", aliases: &[] },
        Codepoint { codepoint: 0x104F6, name: "OSAGE SMALL LETTER U", aliases: &[] },
        Codepoint { codepoint: 0x104F7, name: "OSAGE SMALL LETTER WA", aliases: &[] },
        Codepoint { codepoint: 0x104F8, name: "OSAGE SMALL LETTER KHA", aliases: &[] },
        Codepoint { codepoint: 0x104F9, name: "OSAGE SMALL LETTER GHA", aliases: &[] },
        Codepoint { codepoint: 0x104FA, name: "OSAGE SMALL LETTER ZA", aliases: &[] },
        Codepoint { codepoint: 0x104FB, name: "OSAGE SMALL LETTER ZHA", aliases: &[] },
        Codepoint { codepoint: 0x10500, name: "ELBASAN LETTER A", aliases: &[] },
        Codepoint { codepoint: 0x10501, name: "ELBASAN LETTER BE", aliases: &[] },
        Codepoint { codepoint: 0x10502, name: "ELBASAN LETTER CE", aliases: &[] },
        Codepoint { codepoint: 0x10503, name: "ELBASAN LETTER CHE", aliases: &[] },
        Codepoint { codepoint: 0x10504, name: "ELBASAN LETTER DE", aliases: &[] },
        Codepoint { codepoint: 0x10505, name: "ELBASAN LETTER NDE", aliases: &[] },
        Codepoint { codepoint: 0x10506, name: "ELBASAN LETTER DHE", aliases: &[] },
    ];
    assert(v@ =~= codepoint_table_445());
    v
}

pub open spec fn codepoint_table_446() -> Seq<Codepoint> {
    seq![
        Codepoint { codepoint: 0x10507, name: "ELBASAN LETTER EI", aliases: &[] },
        Codepoint { codepoint: 0x10508, name: "ELBASAN LETTER E", aliases: &[] },
        Codepoint { codepoint: 0x10509, name: "ELBASAN LETTER FE", aliases: &[] },
        Codepoint { codepoint: 0x1050A, name: "ELBASAN LETTER GE", aliases: &[] },
        Codepoint { codepoint: 0x1050B, name: "ELBASAN LETTER GJE", aliases: &[] },
        Codepoint { codepoint: 0x1050C, name: "ELBASAN LETTER HE", aliases: &[] },
        Codepoint { codepoint: 0x1050D, name: "ELBASAN LETTER I", aliases: &[] },
        Codepoint { codepoint: 0x1050E, name: "ELBASAN LETTER JE", aliases: &[] },
        Codepoint { codepoint: 0x1050F, name: "ELBASAN LETTER KE", aliases: &[] },
        Codepoint { codepoint: 0x10510, name: "ELBASAN LETTER LE", aliases: &[] },
        Codepoint { codepoint: 0x10511, name: "ELBASAN LETTER LLE", aliases: &[] },
        Codepoint { codepoint: 0x10512, name: "ELBASAN LETTER ME", aliases: &[] },
        Codepoint { codepoint: 0x10513, name: "ELBASAN LETTER NE", aliases: &[] },
        Codepoint { codepoint: 0x10514, name: "ELBASAN LETTER NA", aliases: &[] },
        Codepoint { codepoint: 0x10515, name: "ELBASAN LETTER NJE", aliases: &[] },
        Codepoint { codepoint: 0x10516, name: "ELBASAN LETTER O", aliases: &[] },
        Codepoint { codepoint: 0x10517, name: "ELBASAN LETTER PE", aliases: &[] },
        Codepoint { codepoint: 0x10518, name: "ELBASAN LETTER QE", aliases: &[] },
        Codepoint { codepoint: 0x10519, name: "ELBASAN LETTER RE", aliases: &[] },
        Codepoint { codepoint: 0x1051A, name: "ELBASAN LETTER RRE", aliases: &[] },
        Codepoint { codepoint: 0x1051B, name: "ELBASAN LETTER SE", aliases: &[] },
        Codepoint { codepoint: 0x1051C, name: "ELBASAN LETTER SHE", aliases: &[] },
        Codepoint { codepoint: 0x1051D, name: "ELBASAN LETTER TE", aliases: &[] },
        Codepoint { codepoint: 0x1051E, name: "ELBASAN LETTER THE", aliases: &[] },
        Codepoint { codepoint: 0x1051F, name: "ELBASAN LETTER U", aliases: &[] },
        Codepoint { codepoint: 0x10520, name: "ELBASAN LETTER VE", aliases: &[] },
        Codepoint { codepoint: 0x10521, name: "ELBASAN LETTER XE", aliases: &[] },
        Codepoint { codepoint: 0x10522, name: "ELBASAN LETTER Y", aliases: &[] },
        Codepoint { codepoint: 0x10523, name: "ELBASAN LETTER ZE", aliases: &[] },
        Codepoint { codepoint: 0x10524, name: "ELBASAN LETTER ZHE", aliases: &[] },
        Codepoint { codepoint: 0x10525, name: "ELBASAN LETTER GHE", aliases: &[] },
        Codepoint { codepoint: 0x10526, name: "ELBASAN LETTER GHAMMA", aliases: &[] },
        Codepoint { codepoint: 0x10527, name: "ELBASAN LETTER KHE", aliases: &[] },
        Codepoint { codepoint: 0x10530, name: "CAUCASIAN ALBANIAN LETTER ALT", aliases: &[] },
        Codepoint { codepoint: 0x10531, name: "CAUCASIAN ALBANIAN LETTER BET", aliases: &[] },
        Codepoint { codepoint: 0x10532, name: "CAUCASIAN ALBANIAN LETTER GIM", aliases: &[] },
        Codepoint { codepoint: 0x10533, name: "CAUCASIAN ALBANIAN LETTER DAT", aliases: &[] },
        Codepoint { codepoint: 0x10534, name: "CAUCASIAN ALBANIAN LETTER EB", aliases: &[] },
        Codepoint { codepoint: 0x10535, name: "CAUCASIAN ALBANIAN LETTER ZARL", aliases: &[] },
        Codepoint { codepoint: 0x10536, name: "CAUCASIAN ALBANIAN LETTER EYN", aliases: &[] },
    ]
}

fn all_codepoints_446() -> (v: Vec<Codepoint>)
    ensures
        v@ == codepoint_table_446(),
{
    let v = vec![
        Codepoint { codepoint: 0x10507, name: "ELBASAN LETTER EI", aliases: &[] },
        Codepoint { codepoint: 0x10508, name: "ELBASAN LETTER E", aliases: &[] },
        Codepoint { codepoint: 0x10509, name: "ELBASAN LETTER FE", aliases: &[] },
        Codepoint { codepoint: 0x1050A, name: "ELBASAN LETTER GE", aliases: &[] },
        Codepoint { codepoint: 0x1050B, name: "ELBASAN LETTER GJE", aliases: &[] },
        Codepoint { codepoint: 0x1050C, name: "ELBASAN LETTER HE", aliases: &[] },
        Codepoint { codepoint: 0x1050D, name: "ELBASAN LETTER I", aliases: &[] },
        Codepoint { codepoint: 0x1050E, name: "ELBASAN LETTER JE", aliases: &[] },
        Codepoint { codepoint: 0x1050F, name: "ELBASAN LETTER KE", aliases: &[] },
        Codepoint { codepoint: 0x10510, name: "ELBASAN LETTER LE", aliases: &[] },
        Codepoint { codepoint: 0x10511, name: "ELBASAN LETTER LLE", aliases: &[] },
        Codepoint { codepoint: 0x10512, name: "ELBASAN LETTER ME", aliases: &[] },
        Codepoint { codepoint: 0x10513, name: "ELBASAN LETTER NE", aliases: &[] },
        Codepoint { codepoint: 0x10514, name: "ELBASAN LETTER NA", aliases: &[] },
        Codepoint { codepoint: 0x10515, name: "ELBASAN LETTER NJE", aliases: &[] },
        Codepoint { codepoint: 0x10516, name: "ELBASAN LETTER O", aliases: &[] },
        Codepoint { codepoint: 0x10517, name: "ELBASAN LETTER PE", aliases: &[] },
        Codepoint { codepoint: 0x10518, name: "ELBASAN LETTER QE", aliases: &[] },
        Codepoint { codepoint: 0x10519, name: "ELBASAN LETTER RE", aliases: &[] },
        Codepoint { codepoint: 0x1051A, name: "ELBASAN LETTER RRE", aliases: &[] },
        Codepoint { codepoint: 0x1051B, name: "ELBASAN LETTER SE", aliases: &[] },
        Codepoint { codepoint: 0x1051C, name: "ELBASAN LETTER SHE", aliases: &[] },
        Codepoint { codepoint: 0x1051D, name: "ELBASAN LETTER TE", aliases: &[] },
        Codepoint { codepoint: 0x1051E, name: "ELBASAN LETTER THE", aliases: &[] },
        Codepoint { codepoint: 0x1051F, name: "ELBASAN LETTER U", aliases: &[] },
        Codepoint { codepoint: 0x10520, name: "ELBASAN LETTER VE", aliases: &[] },
        Codepoint { codepoint: 0x10521, name: "ELBASAN LETTER XE", aliases: &[] },
        Codepoint { codepoint: 0x10522, name: "ELBASAN LETTER Y", aliases: &[] },
        Codepoint { codepoint: 0x10523, name: "ELBASAN LETTER ZE", aliases: &[] },
        Codepoint { codepoint: 0x10524, name: "ELBASAN LETTER ZHE", aliases: &[] },
        Codepoint { codepoint: 0x10525, name: "ELBASAN LETTER GHE", aliases: &[] },
        Codepoint { codepoint: 0x10526, name: "ELBASAN LETTER GHAMMA", aliases: &[] },
        Codepoint { codepoint: 0x10527, name: "ELBASAN LETTER KHE", aliases: &[] },
        Codepoint { codepoint: 0x10530, name: "CAUCASIAN ALBANIAN LETTER ALT", aliases: &[] },
        Codepoint { codepoint: 0x10531, name: "CAUCASIAN ALBANIAN LETTER BET", aliases: &[] },
        Codepoint { codepoint: 0x10532, name: "CAUCASIAN ALBANIAN LETTER GIM", aliases: &[] },
        Codepoint { codepoint: 0x10533, name: "CAUCASIAN ALBANIAN LETTER DAT", aliases: &[] },
        Codepoint { codepoint: 0x10534, name: "CAUCASIAN ALBANIAN LETTER EB", aliases: &[] },
        Codepoint { codepoint: 0x10535, name: "CAUCASIAN ALBANIAN LETTER ZARL", aliases: &[] },
        Codepoint { codepoint: 0x10536, name: "CAUCASIAN ALBANIAN LETTER EYN", aliases: &[] },
    ];
    assert(v@ =~= codepoint_table_446());
    v
}

pub open spec fn codepoint_table_447() -> Seq<Codepoint> {
    seq![
        Codepoint { codepoint: 0x10537, name: "CAUCASIAN ALBANIAN LETTER ZHIL", aliases: &[] },
        Codepoint { codepoint: 0x10538, name: "CAUCASIAN ALBANIAN LETTER TAS", aliases: &[] },
        Codepoint { codepoint: 0x10539, name: "CAUCASIAN ALBANIAN LETTER CHA", aliases: &[] },
        Codepoint { codepoint: 0x1053A, name: "CAUCASIAN ALBANIAN LETTER YOWD", aliases: &[] },
        Codepoint { codepoint: 0x1053B, name: "CAUCASIAN ALBANIAN LETTER ZHA", aliases: &[] },
        Codepoint { codepoint: 0x1053C, name: "CAUCASIAN ALBANIAN LETTER IRB", aliases: &[] },
        Codepoint { codepoint: 0x1053D, name: "CAUCASIAN ALBANIAN LETTER SHA", aliases: &[] },
        Codepoint { codepoint: 0x1053E, name: "CAUCASIAN ALBANIAN LETTER LAN", aliases: &[] },
        Codepoint { codepoint: 0x1053F, name: "CAUCASIAN ALBANIAN LETTER INYA", aliases: &[] },
        Codepoint { codepoint: 0x10540, name: "CAUCASIAN ALBANIAN LETTER XEYN", aliases: &[] },
        Codepoint { codepoint: 0x10541, name: "CAUCASIAN ALBANIAN LETTER DYAN", aliases: &[] },
        Codepoint { codepoint: 0x10542, name: "CAUCASIAN ALBANIAN LETTER CAR", aliases: &[] },
        Codepoint { codepoint: 0x10543, name: "CAUCASIAN ALBANIAN LETTER JHOX", aliases: &[] },
        Codepoint { codepoint: 0x10544, name: "CAUCASIAN ALBANIAN LETTER KAR", aliases: &[] },
        Codepoint { codepoint: 0x10545, name: "CAUCASIAN ALBANIAN LETTER LYIT", aliases: &[] },
        Codepoint { codepoint: 0x10546, name: "CAUCASIAN ALBANIAN LETTER HEYT", aliases: &[] },
        Codepoint { codepoint: 0x10547, name: "CAUCASIAN ALBANIAN LETTER QAY", aliases: &[] },
        Codepoint { codepoint: 0x10548, name: "CAUCASIAN ALBANIAN LETTER AOR", aliases: &[] },
        Codepoint { codepoint: 0x10549, name: "CAUCASIAN ALBANIAN LETTER CHOY", aliases: &[] },
        Codepoint { codepoint: 0x1054A, name: "CAUCASIAN ALBANIAN LETTER CHI", aliases: &[] },
        Codepoint { codepoint: 0x1054B, name: "CAUCASIAN ALBANIAN LETTER CYAY", aliases: &[] },
        Codepoint { codepoint: 0x1054C, name: "CAUCASIAN ALBANIAN LETTER MAQ", aliases: &[] },
        Codepoint { codepoint: 0x1054D, name: "CAUCASIAN ALBANIAN LETTER QAR", aliases: &[] },
        Codepoint { codepoint: 0x1054E, name: "CAUCASIAN ALBANIAN LETTER NOWC", aliases: &[] },
        Codepoint { codepoint: 0x1054F, name: "CAUCASIAN ALBANIAN LETTER DZYAY", aliases: &[] },
        Codepoint { codepoint: 0x10550, name: "CAUCASIAN ALBANIAN LETTER SHAK", aliases: &[] },
        Codepoint { codepoint: 0x10551, name: "CAUCASIAN ALBANIAN LETTER JAYN", aliases: &[] },
        Codepoint { codepoint: 0x10552, name: "CAUCASIAN ALBANIAN LETTER ON", aliases: &[] },
        Codepoint { codepoint: 0x10553, name: "CAUCASIAN ALBANIAN LETTER TYAY", aliases: &[] },
        Codepoint { codepoint: 0x10554, name: "CAUCASIAN ALBANIAN LETTER FAM", aliases: &[] },
        Codepoint { codepoint: 0x10555, name: "CAUCASIAN ALBANIAN LETTER DZAY", aliases: &[] },
        Codepoint { codepoint: 0x10556, name: "CAUCASIAN ALBANIAN LETTER CHAT", aliases: &[] },
        Codepoint { codepoint: 0x10557, name: "CAUCASIAN ALBANIAN LETTER PEN", aliases: &[] },
        Codepoint { codepoint: 0x10558, name: "CAUCASIAN ALBANIAN LETTER GHEYS", aliases: &[] },
        Codepoint { codepoint: 0x10559, name: "CAUCASIAN ALBANIAN LETTER RAT", aliases: &[] },
        Codepoint { codepoint: 0x1055A, name: "CAUCASIAN ALBANIAN LETTER SEYK", aliases: &[] },
        Codepoint { codepoint: 0x1055B, name: "CAUCASIAN ALBANIAN LETTER VEYZ", aliases: &[] },
        Codepoint { codepoint: 0x1055C, name: "CAUCASIAN ALBANIAN LETTER TIWR", aliases: &[] },
        Codepoint { codepoint: 0x1055D, name: "CAUCASIAN ALBANIAN LETTER SHOY", aliases: &[] },
        Codepoint { codepoint: 0x1055E, name: "CAUCASIAN ALBANIAN LETTER IWN", aliases: &[] },
    ]
}

fn all_codepoints_447() -> (v: Vec<Codepoint>)
    ensures
        v@ == codepoint_table_447(),
{
    let v = vec![
        Codepoint { codepoint: 0x10537, name: "CAUCASIAN ALBANIAN LETTER ZHIL", aliases: &[] },
        Codepoint { codepoint: 0x10538, name: "CAUCASIAN ALBANIAN LETTER TAS", aliases: &[] },
        Codepoint { codepoint: 0x10539, name: "CAUCASIAN ALBANIAN LETTER CHA", aliases: &[] },
        Codepoint { codepoint: 0x1053A, name: "CAUCASIAN ALBANIAN LETTER YOWD", aliases: &[] },
        Codepoint { codepoint: 0x1053B, name: "CAUCASIAN ALBANIAN LETTER ZHA", aliases: &[] },
        Codepoint { codepoint: 0x1053C, name: "CAUCASIAN ALBANIAN LETTER IRB", aliases: &[] },
        Codepoint { codepoint: 0x1053D, name: "CAUCASIAN ALBANIAN LETTER SHA", aliases: &[] },
        Codepoint { codepoint: 0x1053E, name: "CAUCASIAN ALBANIAN LETTER LAN", aliases: &[] },
        Codepoint { codepoint: 0x1053F, name: "CAUCASIAN ALBANIAN LETTER INYA", aliases: &[] },
        Codepoint { codepoint: 0x10540, name: "CAUCASIAN ALBANIAN LETTER XEYN", aliases: &[] },
        Codepoint { codepoint: 0x10541, name: "CAUCASIAN ALBANIAN LETTER DYAN", aliases: &[] },
        Codepoint { codepoint: 0x10542, name: "CAUCASIAN ALBANIAN LETTER CAR", aliases: &[] },
        Codepoint { codepoint: 0x10543, name: "CAUCASIAN ALBANIAN LETTER JHOX", aliases: &[] },
        Codepoint { codepoint: 0x10544, name: "CAUCASIAN ALBANIAN LETTER KAR", aliases: &[] },
        Codepoint { codepoint: 0x10545, name: "CAUCASIAN ALBANIAN LETTER LYIT", aliases: &[] },
        Codepoint { codepoint: 0x10546, name: "CAUCASIAN ALBANIAN LETTER HEYT", aliases: &[] },
        Codepoint { codepoint: 0x10547, name: "CAUCASIAN ALBANIAN LETTER QAY", aliases: &[] },
        Codepoint { codepoint: 0x10548, name: "CAUCASIAN ALBANIAN LETTER AOR", aliases: &[] },
        Codepoint { codepoint: 0x10549, name: "CAUCASIAN ALBANIAN LETTER CHOY", aliases: &[] },
        Codepoint { codepoint: 0x1054A, name: "CAUCASIAN ALBANIAN LETTER CHI", aliases: &[] },
        Codepoint { codepoint: 0x1054B, name: "CAUCASIAN ALBANIAN LETTER CYAY", aliases: &[] },
        Codepoint { codepoint: 0x1054C, name: "CAUCASIAN ALBANIAN LETTER MAQ", aliases: &[] },
        Codepoint { codepoint: 0x1054D, name: "CAUCASIAN ALBANIAN LETTER QAR", aliases: &[] },
        Codepoint { codepoint: 0x1054E, name: "CAUCASIAN ALBANIAN LETTER NOWC", aliases: &[] },
        Codepoint { codepoint: 0x1054F, name: "CAUCASIAN ALBANIAN LETTER DZYAY", aliases: &[] },
        Codepoint { codepoint: 0x10550, name: "CAUCASIAN ALBANIAN LETTER SHAK", aliases: &[] },
        Codepoint { codepoint: 0x10551, name: "CAUCASIAN ALBANIAN LETTER JAYN", aliases: &[] },
        Codepoint { codepoint: 0x10552, name: "CAUCASIAN ALBANIAN LETTER ON", aliases: &[] },
        Codepoint { codepoint: 0x10553, name: "CAUCASIAN ALBANIAN LETTER TYAY", aliases: &[] },
        Codepoint { codepoint: 0x10554, name: "CAUCASIAN ALBANIAN LETTER FAM", aliases: &[] },
        Codepoint { codepoint: 0x10555, name: "CAUCASIAN ALBANIAN LETTER DZAY", aliases: &[] },
        Codepoint { codepoint: 0x10556, name: "CAUCASIAN ALBANIAN LETTER CHAT", aliases: &[] },
        Codepoint { codepoint: 0x10557, name: "CAUCASIAN ALBANIAN LETTER PEN", aliases: &[] },
        Codepoint { codepoint: 0x10558, name: "CAUCASIAN ALBANIAN LETTER GHEYS", aliases: &[] },
        Codepoint { codepoint: 0x10559, name: "CAUCASIAN ALBANIAN LETTER RAT", aliases: &[] },
        Codepoint { codepoint: 0x1055A, name: "CAUCASIAN ALBANIAN LETTER SEYK", aliases: &[] },
        Codepoint { codepoint: 0x1055B, name: "CAUCASIAN ALBANIAN LETTER VEYZ", aliases: &[] },
        Codepoint { codepoint: 0x1055C, name: "CAUCASIAN ALBANIAN LETTER TIWR", aliases: &[] },
        Codepoint { codepoint: 0x1055D, name: "CAUCASIAN ALBANIAN LETTER SHOY", aliases: &[] },
        Codepoint { codepoint: 0x1055E, name: "CAUCASIAN ALBANIAN LETTER IWN", aliases: &[] },
    ];
    assert(v@ =~= codepoint_table_447());
    v
}

pub open spec fn codepoint_table_448() -> Seq<Codepoint> {
    seq![
        Codepoint { codepoint: 0x1055F, name: "CAUCASIAN ALBANIAN LETTER CYAW", aliases: &[] },
        Codepoint { codepoint: 0x10560, name: "CAUCASIAN ALBANIAN LETTER CAYN", aliases: &[] },
        Codepoint { codepoint: 0x10561, name: "CAUCASIAN ALBANIAN LETTER YAYD", aliases: &[] },
        Codepoint { codepoint: 0x10562, name: "CAUCASIAN ALBANIAN LETTER PIWR", aliases: &[] },
        Codepoint { codepoint: 0x10563, name: "CAUCASIAN ALBANIAN LETTER KIW", aliases: &[] },
        Codepoint { codepoint: 0x1056F, name: "CAUCASIAN ALBANIAN CITATION MARK", aliases: &[] },
        Codepoint { codepoint: 0x10570, name: "VITHKUQI CAPITAL LETTER A", aliases: &[] },
        Codepoint { codepoint: 0x10571, name: "VITHKUQI CAPITAL LETTER BBE", aliases: &[] },
        Codepoint { codepoint: 0x10572, name: "VITHKUQI CAPITAL LETTER BE", aliases: &[] },
        Codepoint { codepoint: 0x10573, name: "VITHKUQI CAPITAL LETTER CE", aliases: &[] },
        Codepoint { codepoint: 0x10574, name: "VITHKUQI CAPITAL LETTER CHE", aliases: &[] },
        Codepoint { codepoint: 0x10575, name: "VITHKUQI CAPITAL LETTER DE", aliases: &[] },
        Codepoint { codepoint: 0x10576, name: "VITHKUQI CAPITAL LETTER DHE", aliases: &[] },
        Codepoint { codepoint: 0x10577, name: "VITHKUQI CAPITAL LETTER EI", aliases: &[] },
        Codepoint { codepoint: 0x10578, name: "VITHKUQI CAPITAL LETTER E", aliases: &[] },
        Codepoint { codepoint: 0x10579, name: "VITHKUQI CAPITAL LETTER FE", aliases: &[] },
        Codepoint { codepoint: 0x1057A, name: "VITHKUQI CAPITAL LETTER GA", aliases: &[] },
        Codepoint { codepoint: 0x1057C, name: "VITHKUQI CAPITAL LETTER HA", aliases: &[] },
        Codepoint { codepoint: 0x1057D, name: "VITHKUQI CAPITAL LETTER HHA", aliases: &[] },
        Codepoint { codepoint: 0x1057E, name: "VITHKUQI CAPITAL LETTER I", aliases: &[] },
        Codepoint { codepoint: 0x1057F, name: "VITHKUQI CAPITAL LETTER IJE", aliases: &[] },
        Codepoint { codepoint: 0x10580, name: "VITHKUQI CAPITAL LETTER JE", aliases: &[] },
        Codepoint { codepoint: 0x10581, name: "VITHKUQI CAPITAL LETTER KA", aliases: &[] },
        Codepoint { codepoint: 0x10582, name: "VITHKUQI CAPITAL LETTER LA", aliases: &[] },
        Codepoint { codepoint: 0x10583, name: "VITHKUQI CAPITAL LETTER LLA", aliases: &[] },
        Codepoint { codepoint: 0x10584, name: "VITHKUQI CAPITAL LETTER ME", aliases: &[] },
        Codepoint { codepoint: 0x10585, name: "VITHKUQI CAPITAL LETTER NE", aliases: &[] },
        Codepoint { codepoint: 0x10586, name: "VITHKUQI CAPITAL LETTER NJE", aliases: &[] },
        Codepoint { codepoint: 0x10587, name: "VITHKUQI CAPITAL LETTER O", aliases: &[] },
        Codepoint { codepoint: 0x10588, name: "VITHKUQI CAPITAL LETTER PE", aliases: &[] },
        Codepoint { codepoint: 0x10589, name: "VITHKUQI CAPITAL LETTER QA", aliases: &[] },
        Codepoint { codepoint: 0x1058A, name: "VITHKUQI CAPITAL LETTER RE", aliases: &[] },
        Codepoint { codepoint: 0x1058C, name: "VITHKUQI CAPITAL LETTER SE", aliases: &[] },
        Codepoint { codepoint: 0x1058D, name: "VITHKUQI CAPITAL LETTER SHE", aliases: &[] },
        Codepoint { codepoint: 0x1058E, name: "VITHKUQI CAPITAL LETTER TE", aliases: &[] },
        Codepoint { codepoint: 0x1058F, name: "VITHKUQI CAPITAL LETTER THE", aliases: &[] },
        Codepoint { codepoint: 0x10590, name: "VITHKUQI CAPITAL LETTER U", aliases: &[] },
        Codepoint { codepoint: 0x10591, name: "VITHKUQI CAPITAL LETTER VE", aliases: &[] },
        Codepoint { codepoint: 0x10592, name: "VITHKUQI CAPITAL LETTER XE", aliases: &[] },
        Codepoint { codepoint: 0x10594, name: "VITHKUQI CAPITAL LETTER Y", aliases: &[] },
    ]
}

fn all_codepoints_448() -> (v: Vec<Codepoint>)
    ensures
        v@ == codepoint_table_448(),
{
    let v = vec![
        Codepoint { codepoint: 0x1055F, name: "CAUCASIAN ALBANIAN LETTER CYAW", aliases: &[] },
        Codepoint { codepoint: 0x10560, name: "CAUCASIAN ALBANIAN LETTER CAYN", aliases: &[] },
        Codepoint { codepoint: 0x10561, name: "CAUCASIAN ALBANIAN LETTER YAYD", aliases: &[] },
        Codepoint { codepoint: 0x10562, name: "CAUCASIAN ALBANIAN LETTER PIWR", aliases: &[] },
        Codepoint { codepoint: 0x10563, name: "CAUCASIAN ALBANIAN LETTER KIW", aliases: &[] },
        Codepoint { codepoint: 0x1056F, name: "CAUCASIAN ALBANIAN CITATION MARK", aliases: &[] },
        Codepoint { codepoint: 0x10570, name: "VITHKUQI CAPITAL LETTER A", aliases: &[] },
        Codepoint { codepoint: 0x10571, name: "VITHKUQI CAPITAL LETTER BBE", aliases: &[] },
        Codepoint { codepoint: 0x10572, name: "VITHKUQI CAPITAL LETTER BE", aliases: &[] },
        Codepoint { codepoint: 0x10573, name: "VITHKUQI CAPITAL LETTER CE", aliases: &[] },
        Codepoint { codepoint: 0x10574, name: "VITHKUQI CAPITAL LETTER CHE", aliases: &[] },
        Codepoint { codepoint: 0x10575, name: "VITHKUQI CAPITAL LETTER DE", aliases: &[] },
        Codepoint { codepoint: 0x10576, name: "VITHKUQI CAPITAL LETTER DHE", aliases: &[] },
        Codepoint { codepoint: 0x10577, name: "VITHKUQI CAPITAL LETTER EI", aliases: &[] },
        Codepoint { codepoint: 0x10578, name: "VITHKUQI CAPITAL LETTER E", aliases: &[] },
        Codepoint { codepoint: 0x10579, name: "VITHKUQI CAPITAL LETTER FE", aliases: &[] },
        Codepoint { codepoint: 0x1057A, name: "VITHKUQI CAPITAL LETTER GA", aliases: &[] },
        Codepoint { codepoint: 0x1057C, name: "VITHKUQI CAPITAL LETTER HA", aliases: &[] },
        Codepoint { codepoint: 0x1057D, name: "VITHKUQI CAPITAL LETTER HHA", aliases: &[] },
        Codepoint { codepoint: 0x1057E, name: "VITHKUQI CAPITAL LETTER I", aliases: &[] },
        Codepoint { codepoint: 0x1057F, name: "VITHKUQI CAPITAL LETTER IJE", aliases: &[] },
        Codepoint { codepoint: 0x10580, name: "VITHKUQI CAPITAL LETTER JE", aliases: &[] },
        Codepoint { codepoint: 0x10581, name: "VITHKUQI CAPITAL LETTER KA", aliases: &[] },
        Codepoint { codepoint: 0x10582, name: "VITHKUQI CAPITAL LETTER LA", aliases: &[] },
        Codepoint { codepoint: 0x10583, name: "VITHKUQI CAPITAL LETTER LLA", aliases: &[] },
        Codepoint { codepoint: 0x10584, name: "VITHKUQI CAPITAL LETTER ME", aliases: &[] },
        Codepoint { codepoint: 0x10585, name: "VITHKUQI CAPITAL LETTER NE", aliases: &[] },
        Codepoint { codepoint: 0x10586, name: "VITHKUQI CAPITAL LETTER NJE", aliases: &[] },
        Codepoint { codepoint: 0x10587, name: "VITHKUQI CAPITAL LETTER O", aliases: &[] },
        Codepoint { codepoint: 0x10588, name: "VITHKUQI CAPITAL LETTER PE", aliases: &[] },
        Codepoint { codepoint: 0x10589, name: "VITHKUQI CAPITAL LETTER QA", aliases: &[] },
        Codepoint { codepoint: 0x1058A, name: "VITHKUQI CAPITAL LETTER RE", aliases: &[] },
        Codepoint { codepoint: 0x1058C, name: "VITHKUQI CAPITAL LETTER SE", aliases: &[] },
        Codepoint { codepoint: 0x1058D, name: "VITHKUQI CAPITAL LETTER SHE", aliases: &[] },
        Codepoint { codepoint: 0x1058E, name: "VITHKUQI CAPITAL LETTER TE", aliases: &[] },
        Codepoint { codepoint: 0x1058F, name: "VITHKUQI CAPITAL LETTER THE", aliases: &[] },
        Codepoint { codepoint: 0x10590, name: "VITHKUQI CAPITAL LETTER U", aliases: &[] },
        Codepoint { codepoint: 0x10591, name: "VITHKUQI CAPITAL LETTER VE", aliases: &[] },
        Codepoint { codepoint: 0x10592, name: "VITHKUQI CAPITAL LETTER XE", aliases: &[] },
        Codepoint { codepoint: 0x10594, name: "VITHKUQI CAPITAL LETTER Y", aliases: &[] },
    ];
    assert(v@ =~= codepoint_table_448());
    v
}

pub open spec fn codepoint_table_449() -> Seq<Codepoint> {
    seq![
        Codepoint { codepoint: 0x10595, name: "VITHKUQI CAPITAL LETTER ZE", aliases: &[] },
        Codepoint { codepoint: 0x10597, name: "VITHKUQI SMALL LETTER A", aliases: &[] },
        Codepoint { codepoint: 0x10598, name: "VITHKUQI SMALL LETTER BBE", aliases: &[] },
        Codepoint { codepoint: 0x10599, name: "VITHKUQI SMALL LETTER BE", aliases: &[] },
        Codepoint { codepoint: 0x1059A, name: "VITHKUQI SMALL LETTER CE", aliases: &[] },
        Codepoint { codepoint: 0x1059B, name: "VITHKUQI SMALL LETTER CHE", aliases: &[] },
        Codepoint { codepoint: 0x1059C, name: "VITHKUQI SMALL LETTER DE", aliases: &[] },
        Codepoint { codepoint: 0x1059D, name: "VITHKUQI SMALL LETTER DHE", aliases: &[] },
        Codepoint { codepoint: 0x1059E, name: "VITHKUQI SMALL LETTER EI", aliases: &[] },
        Codepoint { codepoint: 0x1059F, name: "VITHKUQI SMALL LETTER E", aliases: &[] },
        Codepoint { codepoint: 0x105A0, name: "VITHKUQI SMALL LETTER FE", aliases: &[] },
        Codepoint { codepoint: 0x105A1, name: "VITHKUQI SMALL LETTER GA", aliases: &[] },
        Codepoint { codepoint: 0x105A3, name: "VITHKUQI SMALL LETTER HA", aliases: &[] },
        Codepoint { codepoint: 0x105A4, name: "VITHKUQI SMALL LETTER HHA", aliases: &[] },
        Codepoint { codepoint: 0x105A5, name: "VITHKUQI SMALL LETTER I", aliases: &[] },
        Codepoint { codepoint: 0x105A6, name: "VITHKUQI SMALL LETTER IJE", aliases: &[] },
        Codepoint { codepoint: 0x105A7, name: "VITHKUQI SMALL LETTER JE", aliases: &[] },
        Codepoint { codepoint: 0x105A8, name: "VITHKUQI SMALL LETTER KA", aliases: &[] },
        Codepoint { codepoint: 0x105A9, name: "VITHKUQI SMALL LETTER LA", aliases: &[] },
        Codepoint { codepoint: 0x105AA, name: "VITHKUQI SMALL LETTER LLA", aliases: &[] },
        Codepoint { codepoint: 0x105AB, name: "VITHKUQI SMALL LETTER ME", aliases: &[] },
        Codepoint { codepoint: 0x105AC, name: "VITHKUQI SMALL LETTER NE", aliases: &[] },
        Codepoint { codepoint: 0x105AD, name: "VITHKUQI SMALL LETTER NJE", aliases: &[] },
        Codepoint { codepoint: 0x105AE, name: "VITHKUQI SMALL LETTER O", aliases: &[] },
        Codepoint { codepoint: 0x105AF, name: "VITHKUQI SMALL LETTER PE", aliases: &[] },
        Codepoint { codepoint: 0x105B0, name: "VITHKUQI SMALL LETTER QA", aliases: &[] },
        Codepoint { codepoint: 0x105B1, name: "VITHKUQI SMALL LETTER RE", aliases: &[] },
        Codepoint { codepoint: 0x105B3, name: "VITHKUQI SMALL LETTER SE", aliases: &[] },
        Codepoint { codepoint: 0x105B4, name: "VITHKUQI SMALL LETTER SHE", aliases: &[] },
        Codepoint { codepoint: 0x105B5, name: "VITHKUQI SMALL LETTER TE", aliases: &[] },
        Codepoint { codepoint: 0x105B6, name: "VITHKUQI SMALL LETTER THE", aliases: &[] },
        Codepoint { codepoint: 0x105B7, name: "VITHKUQI SMALL LETTER U", aliases: &[] },
        Codepoint { codepoint: 0x105B8, name: "VITHKUQI SMALL LETTER VE", aliases: &[] },
        Codepoint { codepoint: 0x105B9, name: "VITHKUQI SMALL LETTER XE", aliases: &[] },
        Codepoint { codepoint: 0x105BB, name: "VITHKUQI SMALL LETTER Y", aliases: &[] },
        Codepoint { codepoint: 0x105BC, name: "VITHKUQI SMALL LETTER ZE", aliases: &[] },
        Codepoint { codepoint: 0x10600, name: "LINEAR A SIGN AB001", aliases: &[] },
        Codepoint { codepoint: 0x10601, name: "LINEAR A SIGN AB002", aliases: &[] },
        Codepoint { codepoint: 0x10602, name: "LINEAR A SIGN AB003", aliases: &[] },
        Codepoint { codepoint: 0x10603, name: "LINEAR A SIGN AB004", aliases: &[] },
    ]
}

fn all_codepoints_449() -> (v: Vec<Codepoint>)
    ensures
        v@ == codepoint_table_449(),
{
    let v = vec![
        Codepoint { codepoint: 0x10595, name: "VITHKUQI CAPITAL LETTER ZE", aliases: &[] },
        Codepoint { codepoint: 0x10597, name: "VITHKUQI SMALL LETTER A", aliases: &[] },
        Codepoint { codepoint: 0x10598, name: "VITHKUQI SMALL LETTER BBE", aliases: &[] },
        Codepoint { codepoint: 0x10599, name: "VITHKUQI SMALL LETTER BE", aliases: &[] },
        Codepoint { codepoint: 0x1059A, name: "VITHKUQI SMALL LETTER CE", aliases: &[] },
        Codepoint { codepoint: 0x1059B, name: "VITHKUQI SMALL LETTER CHE", aliases: &[] },
        Codepoint { codepoint: 0x1059C, name: "VITHKUQI SMALL LETTER DE", aliases: &[] },
        Codepoint { codepoint: 0x1059D, name: "VITHKUQI SMALL LETTER DHE", aliases: &[] },
        Codepoint { codepoint: 0x1059E, name: "VITHKUQI SMALL LETTER EI", aliases: &[] },
        Codepoint { codepoint: 0x1059F, name: "VITHKUQI SMALL LETTER E", aliases: &[] },
        Codepoint { codepoint: 0x105A0, name: "VITHKUQI SMALL LETTER FE", aliases: &[] },
        Codepoint { codepoint: 0x105A1, name: "VITHKUQI SMALL LETTER GA", aliases: &[] },
        Codepoint { codepoint: 0x105A3, name: "VITHKUQI SMALL LETTER HA", aliases: &[] },
        Codepoint { codepoint: 0x105A4, name: "VITHKUQI SMALL LETTER HHA", aliases: &[] },
        Codepoint { codepoint: 0x105A5, name: "VITHKUQI SMALL LETTER I", aliases: &[] },
        Codepoint { codepoint: 0x105A6, name: "VITHKUQI SMALL LETTER IJE", aliases: &[] },
        Codepoint { codepoint: 0x105A7, name: "VITHKUQI SMALL LETTER JE", aliases: &[] },
        Codepoint { codepoint: 0x105A8, name: "VITHKUQI SMALL LETTER KA", aliases: &[] },
        Codepoint { codepoint: 0x105A9, name: "VITHKUQI SMALL LETTER LA", aliases: &[] },
        Codepoint { codepoint: 0x105AA, name: "VITHKUQI SMALL LETTER LLA", aliases: &[] },
        Codepoint { codepoint: 0x105AB, name: "VITHKUQI SMALL LETTER ME", aliases: &[] },
        Codepoint { codepoint: 0x105AC, name: "VITHKUQI SMALL LETTER NE", aliases: &[] },
        Codepoint { codepoint: 0x105AD, name: "VITHKUQI SMALL LETTER NJE", aliases: &[] },
        Codepoint { codepoint: 0x105AE, name: "VITHKUQI SMALL LETTER O", aliases: &[] },
        Codepoint { codepoint: 0x105AF, name: "VITHKUQI SMALL LETTER PE", aliases: &[] },
        Codepoint { codepoint: 0x105B0, name: "VITHKUQI SMALL LETTER QA", aliases: &[] },
        Codepoint { codepoint: 0x105B1, name: "VITHKUQI SMALL LETTER RE", aliases: &[] },
        Codepoint { codepoint: 0x105B3, name: "VITHKUQI SMALL LETTER SE", aliases: &[] },
        Codepoint { codepoint: 0x105B4, name: "VITHKUQI SMALL LETTER SHE", aliases: &[] },
        Codepoint { codepoint: 0x105B5, name: "VITHKUQI SMALL LETTER TE", aliases: &[] },
        Codepoint { codepoint: 0x105B6, name: "VITHKUQI SMALL LETTER THE", aliases: &[] },
        Codepoint { codepoint: 0x105B7, name: "VITHKUQI SMALL LETTER U", aliases: &[] },
        Codepoint { codepoint: 0x105B8, name: "VITHKUQI SMALL LETTER VE", aliases: &[] },
        Codepoint { codepoint: 0x105B9, name: "VITHKUQI SMALL LETTER XE", aliases: &[] },
        Codepoint { codepoint: 0x105BB, name: "VITHKUQI SMALL LETTER Y", aliases: &[] },
        Codepoint { codepoint: 0x105BC, name: "VITHKUQI SMALL LETTER ZE", aliases: &[] },
        Codepoint { codepoint: 0x10600, name: "LINEAR A SIGN AB001", aliases: &[] },
        Codepoint { codepoint: 0x10601, name: "LINEAR A SIGN AB002", aliases: &[] },
        Codepoint { codepoint: 0x10602, name: "LINEAR A SIGN AB003", aliases: &[] },
        Codepoint { codepoint: 0x10603, name: "LINEAR A SIGN AB004", aliases: &[] },
    ];
    assert(v@ =~= codepoint_table_449());
    v
}

pub open spec fn codepoint_table_450() -> Seq<Codepoint> {
    seq![
        Codepoint { codepoint: 0x10604, name: "LINEAR A SIGN AB005", aliases: &[] },
        Codepoint { codepoint: 0x10605, name: "LINEAR A SIGN AB006", aliases: &[] },
        Codepoint { codepoint: 0x10606, name: "LINEAR A SIGN AB007", aliases: &[] },
        Codepoint { codepoint: 0x10607, name: "LINEAR A SIGN AB008", aliases: &[] },
        Codepoint { codepoint: 0x10608, name: "LINEAR A SIGN AB009", aliases: &[] },
        Codepoint { codepoint: 0x10609, name: "LINEAR A SIGN AB010", aliases: &[] },
        Codepoint { codepoint: 0x1060A, name: "LINEAR A SIGN AB011", aliases: &[] },
        Codepoint { codepoint: 0x1060B, name: "LINEAR A SIGN AB013", aliases: &[] },
        Codepoint { codepoint: 0x1060C, name: "LINEAR A SIGN AB016", aliases: &[] },
        Codepoint { codepoint: 0x1060D, name: "LINEAR A SIGN AB017", aliases: &[] },
        Codepoint { codepoint: 0x1060E, name: "LINEAR A SIGN AB020", aliases: &[] },
        Codepoint { codepoint: 0x1060F, name: "LINEAR A SIGN AB021", aliases: &[] },
        Codepoint { codepoint: 0x10610, name: "LINEAR A SIGN AB021F", aliases: &[] },
        Codepoint { codepoint: 0x10611, name: "LINEAR A SIGN AB021M", aliases: &[] },
        Codepoint { codepoint: 0x10612, name: "LINEAR A SIGN AB022", aliases: &[] },
        Codepoint { codepoint: 0x10613, name: "LINEAR A SIGN AB022F", aliases: &[] },
        Codepoint { codepoint: 0x10614, name: "LINEAR A SIGN AB022M", aliases: &[] },
        Codepoint { codepoint: 0x10615, name: "LINEAR A SIGN AB023", aliases: &[] },
        Codepoint { codepoint: 0x10616, name: "LINEAR A SIGN AB023M", aliases: &[] },
        Codepoint { codepoint: 0x10617, name: "LINEAR A SIGN AB024", aliases: &[] },
        Codepoint { codepoint: 0x10618, name: "LINEAR A SIGN AB026", aliases: &[] },
        Codepoint { codepoint: 0x10619, name: "LINEAR A SIGN AB027", aliases: &[] },
        Codepoint { codepoint: 0x1061A, name: "LINEAR A SIGN AB028", aliases: &[] },
        Codepoint { codepoint: 0x1061B, name: "LINEAR A SIGN A028B", aliases: &[] },
        Codepoint { codepoint: 0x1061C, name: "LINEAR A SIGN AB029", aliases: &[] },
        Codepoint { codepoint: 0x1061D, name: "LINEAR A SIGN AB030", aliases: &[] },
        Codepoint { codepoint: 0x1061E, name: "LINEAR A SIGN AB031", aliases: &[] },
        Codepoint { codepoint: 0x1061F, name: "LINEAR A SIGN AB034", aliases: &[] },
        Codepoint { codepoint: 0x10620, name: "LINEAR A SIGN AB037", aliases: &[] },
        Codepoint { codepoint: 0x10621, name: "LINEAR A SIGN AB038", aliases: &[] },
        Codepoint { codepoint: 0x10622, name: "LINEAR A SIGN AB039", aliases: &[] },
        Codepoint { codepoint: 0x10623, name: "LINEAR A SIGN AB040", aliases: &[] },
        Codepoint { codepoint: 0x10624, name: "LINEAR A SIGN AB041", aliases: &[] },
        Codepoint { codepoint: 0x10625, name: "LINEAR A SIGN AB044", aliases: &[] },
        Codepoint { codepoint: 0x10626, name: "LINEAR A SIGN AB045", aliases: &[] },
        Codepoint { codepoint: 0x10627, name: "LINEAR A SIGN AB046", aliases: &[] },
        Codepoint { codepoint: 0x10628, name: "LINEAR A SIGN AB047", aliases: &[] },
        Codepoint { codepoint: 0x10629, name: "LINEAR A SIGN AB048", aliases: &[] },
        Codepoint { codepoint: 0x1062A, name: "LINEAR A SIGN AB049", aliases: &[] },
        Codepoint { codepoint: 0x1062B, name: "LINEAR A SIGN AB050", aliases: &[] },
    ]
}

fn all_codepoints_450() -> (v: Vec<Codepoint>)
    ensures
        v@ == codepoint_table_450(),
{
    let v = vec![
        Codepoint { codepoint: 0x10604, name: "LINEAR A SIGN AB005", aliases: &[] },
        Codepoint { codepoint: 0x10605, name: "LINEAR A SIGN AB006", aliases: &[] },
        Codepoint { codepoint: 0x10606, name: "LINEAR A SIGN AB007", aliases: &[] },
        Codepoint { codepoint: 0x10607, name: "LINEAR A SIGN AB008", aliases: &[] },
        Codepoint { codepoint: 0x10608, name: "LINEAR A SIGN AB009", aliases: &[] },
        Codepoint { codepoint: 0x10609, name: "LINEAR A SIGN AB010", aliases: &[] },
        Codepoint { codepoint: 0x1060A, name: "LINEAR A SIGN AB011", aliases: &[] },
        Codepoint { codepoint: 0x1060B, name: "LINEAR A SIGN AB013", aliases: &[] },
        Codepoint { codepoint: 0x1060C, name: "LINEAR A SIGN AB016", aliases: &[] },
        Codepoint { codepoint: 0x1060D, name: "LINEAR A SIGN AB017", aliases: &[] },
        Codepoint { codepoint: 0x1060E, name: "LINEAR A SIGN AB020", aliases: &[] },
        Codepoint { codepoint: 0x1060F, name: "LINEAR A SIGN AB021", aliases: &[] },
        Codepoint { codepoint: 0x10610, name: "LINEAR A SIGN AB021F", aliases: &[] },
        Codepoint { codepoint: 0x10611, name: "LINEAR A SIGN AB021M", aliases: &[] },
        Codepoint { codepoint: 0x10612, name: "LINEAR A SIGN AB022", aliases: &[] },
        Codepoint { codepoint: 0x10613, name: "LINEAR A SIGN AB022F", aliases: &[] },
        Codepoint { codepoint: 0x10614, name: "LINEAR A SIGN AB022M", aliases: &[] },
        Codepoint { codepoint: 0x10615, name: "LINEAR A SIGN AB023", aliases: &[] },
        Codepoint { codepoint: 0x10616, name: "LINEAR A SIGN AB023M", aliases: &[] },
        Codepoint { codepoint: 0x10617, name: "LINEAR A SIGN AB024", aliases: &[] },
        Codepoint { codepoint: 0x10618, name: "LINEAR A SIGN AB026", aliases: &[] },
        Codepoint { codepoint: 0x10619, name: "LINEAR A SIGN AB027", aliases: &[] },
        Codepoint { codepoint: 0x1061A, name: "LINEAR A SIGN AB028", aliases: &[] },
        Codepoint { codepoint: 0x1061B, name: "LINEAR A SIGN A028B", aliases: &[] },
        Codepoint { codepoint: 0x1061C, name: "LINEAR A SIGN AB029", aliases: &[] },
        Codepoint { codepoint: 0x1061D, name: "LINEAR A SIGN AB030", aliases: &[] },
        Codepoint { codepoint: 0x1061E, name: "LINEAR A SIGN AB031", aliases: &[] },
        Codepoint { codepoint: 0x1061F, name: "LINEAR A SIGN AB034", aliases: &[] },
        Codepoint { codepoint: 0x10620, name: "LINEAR A SIGN AB037", aliases: &[] },
        Codepoint { codepoint: 0x10621, name: "LINEAR A SIGN AB038", aliases: &[] },
        Codepoint { codepoint: 0x10622, name: "LINEAR A SIGN AB039", aliases: &[] },
        Codepoint { codepoint: 0x10623, name: "LINEAR A SIGN AB040", aliases: &[] },
        Codepoint { codepoint: 0x10624, name: "LINEAR A SIGN AB041", aliases: &[] },
        Codepoint { codepoint: 0x10625, name: "LINEAR A SIGN AB044", aliases: &[] },
        Codepoint { codepoint: 0x10626, name: "LINEAR A SIGN AB045", aliases: &[] },
        Codepoint { codepoint: 0x10627, name: "LINEAR A SIGN AB046", aliases: &[] },
        Codepoint { codepoint: 0x10628, name: "LINEAR A SIGN AB047", aliases: &[] },
        Codepoint { codepoint: 0x10629, name: "LINEAR A SIGN AB048", aliases: &[] },
        Codepoint { codepoint: 0x1062A, name: "LINEAR A SIGN AB049", aliases: &[] },
        Codepoint { codepoint: 0x1062B, name: "LINEAR A SIGN AB050", aliases: &[] },
    ];
    assert(v@ =~= codepoint_table_450());
    v
}

pub open spec fn codepoint_table_451() -> Seq<Codepoint> {
    seq![
        Codepoint { codepoint: 0x1062C, name: "LINEAR A SIGN AB051", aliases: &[] },
        Codepoint { codepoint: 0x1062D, name: "LINEAR A SIGN AB053", aliases: &[] },
        Codepoint { codepoint: 0x1062E, name: "LINEAR A SIGN AB054", aliases: &[] },
        Codepoint { codepoint: 0x1062F, name: "LINEAR A SIGN AB055", aliases: &[] },
        Codepoint { codepoint: 0x10630, name: "LINEAR A SIGN AB056", aliases: &[] },
        Codepoint { codepoint: 0x10631, name: "LINEAR A SIGN AB057", aliases: &[] },
        Codepoint { codepoint: 0x10632, name: "LINEAR A SIGN AB058", aliases: &[] },
        Codepoint { codepoint: 0x10633, name: "LINEAR A SIGN AB059", aliases: &[] },
        Codepoint { codepoint: 0x10634, name: "LINEAR A SIGN AB060", aliases: &[] },
        Codepoint { codepoint: 0x10635, name: "LINEAR A SIGN AB061", aliases: &[] },
        Codepoint { codepoint: 0x10636, name: "LINEAR A SIGN AB065", aliases: &[] },
        Codepoint { codepoint: 0x10637, name: "LINEAR A SIGN AB066", aliases: &[] },
        Codepoint { codepoint: 0x10638, name: "LINEAR A SIGN AB067", aliases: &[] },
        Codepoint { codepoint: 0x10639, name: "LINEAR A SIGN AB069", aliases: &[] },
        Codepoint { codepoint: 0x1063A, name: "LINEAR A SIGN AB070", aliases: &[] },
        Codepoint { codepoint: 0x1063B, name: "LINEAR A SIGN AB073", aliases: &[] },
        Codepoint { codepoint: 0x1063C, name: "LINEAR A SIGN AB074", aliases: &[] },
        Codepoint { codepoint: 0x1063D, name: "LINEAR A SIGN AB076", aliases: &[] },
        Codepoint { codepoint: 0x1063E, name: "LINEAR A SIGN AB077", aliases: &[] },
        Codepoint { codepoint: 0x1063F, name: "LINEAR A SIGN AB078", aliases: &[] },
        Codepoint { codepoint: 0x10640, name: "LINEAR A SIGN AB079", aliases: &[] },
        Codepoint { codepoint: 0x10641, name: "LINEAR A SIGN AB080", aliases: &[] },
        Codepoint { codepoint: 0x10642, name: "LINEAR A SIGN AB081", aliases: &[] },
        Codepoint { codepoint: 0x10643, name: "LINEAR A SIGN AB082", aliases: &[] },
        Codepoint { codepoint: 0x10644, name: "LINEAR A SIGN AB085", aliases: &[] },
        Codepoint { codepoint: 0x10645, name: "LINEAR A SIGN AB086", aliases: &[] },
        Codepoint { codepoint: 0x10646, name: "LINEAR A SIGN AB087", aliases: &[] },
        Codepoint { codepoint: 0x10647, name: "LINEAR A SIGN A100-102", aliases: &[] },
        Codepoint { codepoint: 0x10648, name: "LINEAR A SIGN AB118", aliases: &[] },
        Codepoint { codepoint: 0x10649, name: "LINEAR A SIGN AB120", aliases: &[] },
        Codepoint { codepoint: 0x1064A, name: "LINEAR A SIGN A120B", aliases: &[] },
        Codepoint { codepoint: 0x1064B, name: "LINEAR A SIGN AB122", aliases: &[] },
        Codepoint { codepoint: 0x1064C, name: "LINEAR A SIGN AB123", aliases: &[] },
        Codepoint { codepoint: 0x1064D, name: "LINEAR A SIGN AB131A", aliases: &[] },
        Codepoint { codepoint: 0x1064E, name: "LINEAR A SIGN AB131B", aliases: &[] },
        Codepoint { codepoint: 0x1064F, name: "LINEAR A SIGN A131C", aliases: &[] },
        Codepoint { codepoint: 0x10650, name: "LINEAR A SIGN AB164", aliases: &[] },
        Codepoint { codepoint: 0x10651, name: "LINEAR A SIGN AB171", aliases: &[] },
        Codepoint { codepoint: 0x10652, name: "LINEAR A SIGN AB180", aliases: &[] },
        Codepoint { codepoint: 0x10653, name: "LINEAR A SIGN AB188", aliases: &[] },
    ]
}

fn all_codepoints_451() -> (v: Vec<Codepoint>)
    ensures
        v@ == codepoint_table_451(),
{
    let v = vec![
        Codepoint { codepoint: 0x1062C, name: "LINEAR A SIGN AB051", aliases: &[] },
        Codepoint { codepoint: 0x1062D, name: "LINEAR A SIGN AB053", aliases: &[] },
        Codepoint { codepoint: 0x1062E, name: "LINEAR A SIGN AB054", aliases: &[] },
        Codepoint { codepoint: 0x1062F, name: "LINEAR A SIGN AB055", aliases: &[] },
        Codepoint { codepoint: 0x10630, name: "LINEAR A SIGN AB056", aliases: &[] },
        Codepoint { codepoint: 0x10631, name: "LINEAR A SIGN AB057", aliases: &[] },
        Codepoint { codepoint: 0x10632, name: "LINEAR A SIGN AB058", aliases: &[] },
        Codepoint { codepoint: 0x10633, name: "LINEAR A SIGN AB059", aliases: &[] },
        Codepoint { codepoint: 0x10634, name: "LINEAR A SIGN AB060", aliases: &[] },
        Codepoint { codepoint: 0x10635, name: "LINEAR A SIGN AB061", aliases: &[] },
        Codepoint { codepoint: 0x10636, name: "LINEAR A SIGN AB065", aliases: &[] },
        Codepoint { codepoint: 0x10637, name: "LINEAR A SIGN AB066", aliases: &[] },
        Codepoint { codepoint: 0x10638, name: "LINEAR A SIGN AB067", aliases: &[] },
        Codepoint { codepoint: 0x10639, name: "LINEAR A SIGN AB069", aliases: &[] },
        Codepoint { codepoint: 0x1063A, name: "LINEAR A SIGN AB070", aliases: &[] },
        Codepoint { codepoint: 0x1063B, name: "LINEAR A SIGN AB073", aliases: &[] },
        Codepoint { codepoint: 0x1063C, name: "LINEAR A SIGN AB074", aliases: &[] },
        Codepoint { codepoint: 0x1063D, name: "LINEAR A SIGN AB076", aliases: &[] },
        Codepoint { codepoint: 0x1063E, name: "LINEAR A SIGN AB077", aliases: &[] },
        Codepoint { codepoint: 0x1063F, name: "LINEAR A SIGN AB078", aliases: &[] },
        Codepoint { codepoint: 0x10640, name: "LINEAR A SIGN AB079", aliases: &[] },
        Codepoint { codepoint: 0x10641, name: "LINEAR A SIGN AB080", aliases: &[] },
        Codepoint { codepoint: 0x10642, name: "LINEAR A SIGN AB081", aliases: &[] },
        Codepoint { codepoint: 0x10643, name: "LINEAR A SIGN AB082", aliases: &[] },
        Codepoint { codepoint: 0x10644, name: "LINEAR A SIGN AB085", aliases: &[] },
        Codepoint { codepoint: 0x10645, name: "LINEAR A SIGN AB086", aliases: &[] },
        Codepoint { codepoint: 0x10646, name: "LINEAR A SIGN AB087", aliases: &[] },
        Codepoint { codepoint: 0x10647, name: "LINEAR A SIGN A100-102", aliases: &[] },
        Codepoint { codepoint: 0x10648, name: "LINEAR A SIGN AB118", aliases: &[] },
        Codepoint { codepoint: 0x10649, name: "LINEAR A SIGN AB120", aliases: &[] },
        Codepoint { codepoint: 0x1064A, name: "LINEAR A SIGN A120B", aliases: &[] },
        Codepoint { codepoint: 0x1064B, name: "LINEAR A SIGN AB122", aliases: &[] },
        Codepoint { codepoint: 0x1064C, name: "LINEAR A SIGN AB123", aliases: &[] },
        Codepoint { codepoint: 0x1064D, name: "LINEAR A SIGN AB131A", aliases: &[] },
        Codepoint { codepoint: 0x1064E, name: "LINEAR A SIGN AB131B", aliases: &[] },
        Codepoint { codepoint: 0x1064F, name: "LINEAR A SIGN A131C", aliases: &[] },
        Codepoint { codepoint: 0x10650, name: "LINEAR A SIGN AB164", aliases: &[] },
        Codepoint { codepoint: 0x10651, name: "LINEAR A SIGN AB171", aliases: &[] },
        Codepoint { codepoint: 0x10652, name: "LINEAR A SIGN AB180", aliases: &[] },
        Codepoint { codepoint: 0x10653, name: "LINEAR A SIGN AB188", aliases: &[] },
    ];
    assert(v@ =~= codepoint_table_451());
    v
}

pub open spec fn codepoint_table_452() -> Seq<Codepoint> {
    seq![
        Codepoint { codepoint: 0x10654, name: "LINEAR A SIGN AB191", aliases: &[] },
        Codepoint { codepoint: 0x10655, name: "LINEAR A SIGN A301", aliases: &[] },
        Codepoint { codepoint: 0x10656, name: "LINEAR A SIGN A302", aliases: &[] },
        Codepoint { codepoint: 0x10657, name: "LINEAR A SIGN A303", aliases: &[] },
        Codepoint { codepoint: 0x10658, name: "LINEAR A SIGN A304", aliases: &[] },
        Codepoint { codepoint: 0x10659, name: "LINEAR A SIGN A305", aliases: &[] },
        Codepoint { codepoint: 0x1065A, name: "LINEAR A SIGN A306", aliases: &[] },
        Codepoint { codepoint: 0x1065B, name: "LINEAR A SIGN A307", aliases: &[] },
        Codepoint { codepoint: 0x1065C, name: "LINEAR A SIGN A308", aliases: &[] },
        Codepoint { codepoint: 0x1065D, name: "LINEAR A SIGN A309A", aliases: &[] },
        Codepoint { codepoint: 0x1065E, name: "LINEAR A SIGN A309B", aliases: &[] },
        Codepoint { codepoint: 0x1065F, name: "LINEAR A SIGN A309C", aliases: &[] },
        Codepoint { codepoint: 0x10660, name: "LINEAR A SIGN A310", aliases: &[] },
        Codepoint { codepoint: 0x10661, name: "LINEAR A SIGN A311", aliases: &[] },
        Codepoint { codepoint: 0x10662, name: "LINEAR A SIGN A312", aliases: &[] },
        Codepoint { codepoint: 0x10663, name: "LINEAR A SIGN A313A", aliases: &[] },
        Codepoint { codepoint: 0x10664, name: "LINEAR A SIGN A313B", aliases: &[] },
        Codepoint { codepoint: 0x10665, name: "LINEAR A SIGN A313C", aliases: &[] },
        Codepoint { codepoint: 0x10666, name: "LINEAR A SIGN A314", aliases: &[] },
        Codepoint { codepoint: 0x10667, name: "LINEAR A SIGN A315", aliases: &[] },
        Codepoint { codepoint: 0x10668, name: "LINEAR A SIGN A316", aliases: &[] },
        Codepoint { codepoint: 0x10669, name: "LINEAR A SIGN A317", aliases: &[] },
        Codepoint { codepoint: 0x1066A, name: "LINEAR A SIGN A318", aliases: &[] },
        Codepoint { codepoint: 0x1066B, name: "LINEAR A SIGN A319", aliases: &[] },
        Codepoint { codepoint: 0x1066C, name: "LINEAR A SIGN A320", aliases: &[] },
        Codepoint { codepoint: 0x1066D, name: "LINEAR A SIGN A321", aliases: &[] },
        Codepoint { codepoint: 0x1066E, name: "LINEAR A SIGN A322", aliases: &[] },
        Codepoint { codepoint: 0x1066F, name: "LINEAR A SIGN A323", aliases: &[] },
        Codepoint { codepoint: 0x10670, name: "LINEAR A SIGN A324", aliases: &[] },
        Codepoint { codepoint: 0x10671, name: "LINEAR A SIGN A325", aliases: &[] },
        Codepoint { codepoint: 0x10672, name: "LINEAR A SIGN A326", aliases: &[] },
        Codepoint { codepoint: 0x10673, name: "LINEAR A SIGN A327", aliases: &[] },
        Codepoint { codepoint: 0x10674, name: "LINEAR A SIGN A328", aliases: &[] },
        Codepoint { codepoint: 0x10675, name: "LINEAR A SIGN A329", aliases: &[] },
        Codepoint { codepoint: 0x10676, name: "LINEAR A SIGN A330", aliases: &[] },
        Codepoint { codepoint: 0x10677, name: "LINEAR A SIGN A331", aliases: &[] },
        Codepoint { codepoint: 0x10678, name: "LINEAR A SIGN A332", aliases: &[] },
        Codepoint { codepoint: 0x10679, name: "LINEAR A SIGN A333", aliases: &[] },
        Codepoint { codepoint: 0x1067A, name: "LINEAR A SIGN A334", aliases: &[] },
        Codepoint { codepoint: 0x1067B, name: "LINEAR A SIGN A335", aliases: &[] },
    ]
}

fn all_codepoints_452() -> (v: Vec<Codepoint>)
    ensures
        v@ == codepoint_table_452(),
{
    let v = vec![
        Codepoint { codepoint: 0x10654, name: "LINEAR A SIGN AB191", aliases: &[] },
        Codepoint { codepoint: 0x10655, name: "LINEAR A SIGN A301", aliases: &[] },
        Codepoint { codepoint: 0x10656, name: "LINEAR A SIGN A302", aliases: &[] },
        Codepoint { codepoint: 0x10657, name: "LINEAR A SIGN A303", aliases: &[] },
        Codepoint { codepoint: 0x10658, name: "LINEAR A SIGN A304", aliases: &[] },
        Codepoint { codepoint: 0x10659, name: "LINEAR A SIGN A305", aliases: &[] },
        Codepoint { codepoint: 0x1065A, name: "LINEAR A SIGN A306", aliases: &[] },
        Codepoint { codepoint: 0x1065B, name: "LINEAR A SIGN A307", aliases: &[] },
        Codepoint { codepoint: 0x1065C, name: "LINEAR A SIGN A308", aliases: &[] },
        Codepoint { codepoint: 0x1065D, name: "LINEAR A SIGN A309A", aliases: &[] },
        Codepoint { codepoint: 0x1065E, name: "LINEAR A SIGN A309B", aliases: &[] },
        Codepoint { codepoint: 0x1065F, name: "LINEAR A SIGN A309C", aliases: &[] },
        Codepoint { codepoint: 0x10660, name: "LINEAR A SIGN A310", aliases: &[] },
        Codepoint { codepoint: 0x10661, name: "LINEAR A SIGN A311", aliases: &[] },
        Codepoint { codepoint: 0x10662, name: "LINEAR A SIGN A312", aliases: &[] },
        Codepoint { codepoint: 0x10663, name: "LINEAR A SIGN A313A", aliases: &[] },
        Codepoint { codepoint: 0x10664, name: "LINEAR A SIGN A313B", aliases: &[] },
        Codepoint { codepoint: 0x10665, name: "LINEAR A SIGN A313C", aliases: &[] },
        Codepoint { codepoint: 0x10666, name: "LINEAR A SIGN A314", aliases: &[] },
        Codepoint { codepoint: 0x10667, name: "LINEAR A SIGN A315", aliases: &[] },
        Codepoint { codepoint: 0x10668, name: "LINEAR A SIGN A316", aliases: &[] },
        Codepoint { codepoint: 0x10669, name: "LINEAR A SIGN A317", aliases: &[] },
        Codepoint { codepoint: 0x1066A, name: "LINEAR A SIGN A318", aliases: &[] },
        Codepoint { codepoint: 0x1066B, name: "LINEAR A SIGN A319", aliases: &[] },
        Codepoint { codepoint: 0x1066C, name: "LINEAR A SIGN A320", aliases: &[] },
        Codepoint { codepoint: 0x1066D, name: "LINEAR A SIGN A321", aliases: &[] },
        Codepoint { codepoint: 0x1066E, name: "LINEAR A SIGN A322", aliases: &[] },
        Codepoint { codepoint: 0x1066F, name: "LINEAR A SIGN A323", aliases: &[] },
        Codepoint { codepoint: 0x10670, name: "LINEAR A SIGN A324", aliases: &[] },
        Codepoint { codepoint: 0x10671, name: "LINEAR A SIGN A325", aliases: &[] },
        Codepoint { codepoint: 0x10672, name: "LINEAR A SIGN A326", aliases: &[] },
        Codepoint { codepoint: 0x10673, name: "LINEAR A SIGN A327", aliases: &[] },
        Codepoint { codepoint: 0x10674, name: "LINEAR A SIGN A328", aliases: &[] },
        Codepoint { codepoint: 0x10675, name: "LINEAR A SIGN A329", aliases: &[] },
        Codepoint { codepoint: 0x10676, name: "LINEAR A SIGN A330", aliases: &[] },
        Codepoint { codepoint: 0x10677, name: "LINEAR A SIGN A331", aliases: &[] },
        Codepoint { codepoint: 0x10678, name: "LINEAR A SIGN A332", aliases: &[] },
        Codepoint { codepoint: 0x10679, name: "LINEAR A SIGN A333", aliases: &[] },
        Codepoint { codepoint: 0x1067A, name: "LINEAR A SIGN A334", aliases: &[] },
        Codepoint { codepoint: 0x1067B, name: "LINEAR A SIGN A335", aliases: &[] },
    ];
    assert(v@ =~= codepoint_table_452());
    v
}

pub open spec fn codepoint_table_453() -> Seq<Codepoint> {
    seq![
        Codepoint { codepoint: 0x1067C, name: "LINEAR A SIGN A336", aliases: &[] },
        Codepoint { codepoint: 0x1067D, name: "LINEAR A SIGN A337", aliases: &[] },
        Codepoint { codepoint: 0x1067E, name: "LINEAR A SIGN A338", aliases: &[] },
        Codepoint { codepoint: 0x1067F, name: "LINEAR A SIGN A339", aliases: &[] },
        Codepoint { codepoint: 0x10680, name: "LINEAR A SIGN A340", aliases: &[] },
        Codepoint { codepoint: 0x10681, name: "LINEAR A SIGN A341", aliases: &[] },
        Codepoint { codepoint: 0x10682, name: "LINEAR A SIGN A342", aliases: &[] },
        Codepoint { codepoint: 0x10683, name: "LINEAR A SIGN A343", aliases: &[] },
        Codepoint { codepoint: 0x10684, name: "LINEAR A SIGN A344", aliases: &[] },
        Codepoint { codepoint: 0x10685, name: "LINEAR A SIGN A345", aliases: &[] },
        Codepoint { codepoint: 0x10686, name: "LINEAR A SIGN A346", aliases: &[] },
        Codepoint { codepoint: 0x10687, name: "LINEAR A SIGN A347", aliases: &[] },
        Codepoint { codepoint: 0x10688, name: "LINEAR A SIGN A348", aliases: &[] },
        Codepoint { codepoint: 0x10689, name: "LINEAR A SIGN A349", aliases: &[] },
        Codepoint { codepoint: 0x1068A, name: "LINEAR A SIGN A350", aliases: &[] },
        Codepoint { codepoint: 0x1068B, name: "LINEAR A SIGN A351", aliases: &[] },
        Codepoint { codepoint: 0x1068C, name: "LINEAR A SIGN A352", aliases: &[] },
        Codepoint { codepoint: 0x1068D, name: "LINEAR A SIGN A353", aliases: &[] },
        Codepoint { codepoint: 0x1068E, name: "LINEAR A SIGN A354", aliases: &[] },
        Codepoint { codepoint: 0x1068F, name: "LINEAR A SIGN A355", aliases: &[] },
        Codepoint { codepoint: 0x10690, name: "LINEAR A SIGN A356", aliases: &[] },
        Codepoint { codepoint: 0x10691, name: "LINEAR A SIGN A357", aliases: &[] },
        Codepoint { codepoint: 0x10692, name: "LINEAR A SIGN A358", aliases: &[] },
        Codepoint { codepoint: 0x10693, name: "LINEAR A SIGN A359", aliases: &[] },
        Codepoint { codepoint: 0x10694, name: "LINEAR A SIGN A360", aliases: &[] },
        Codepoint { codepoint: 0x10695, name: "LINEAR A SIGN A361", aliases: &[] },
        Codepoint { codepoint: 0x10696, name: "LINEAR A SIGN A362", aliases: &[] },
        Codepoint { codepoint: 0x10697, name: "LINEAR A SIGN A363", aliases: &[] },
        Codepoint { codepoint: 0x10698, name: "LINEAR A SIGN A364", aliases: &[] },
        Codepoint { codepoint: 0x10699, name: "LINEAR A SIGN A365", aliases: &[] },
        Codepoint { codepoint: 0x1069A, name: "LINEAR A SIGN A366", aliases: &[] },
        Codepoint { codepoint: 0x1069B, name: "LINEAR A SIGN A367", aliases: &[] },
        Codepoint { codepoint: 0x1069C, name: "LINEAR A SIGN A368", aliases: &[] },
        Codepoint { codepoint: 0x1069D, name: "LINEAR A SIGN A369", aliases: &[] },
        Codepoint { codepoint: 0x1069E, name: "LINEAR A SIGN A370", aliases: &[] },
        Codepoint { codepoint: 0x1069F, name: "LINEAR A SIGN A371", aliases: &[] },
        Codepoint { codepoint: 0x106A0, name: "LINEAR A SIGN A400-VAS", aliases: &[] },
        Codepoint { codepoint: 0x106A1, name: "LINEAR A SIGN A401-VAS", aliases: &[] },
        Codepoint { codepoint: 0x106A2, name: "LINEAR A SIGN A402-VAS", aliases: &[] },
        Codepoint { codepoint: 0x106A3, name: "LINEAR A SIGN A403-VAS", aliases: &[] },
    ]
}

fn all_codepoints_453() -> (v: Vec<Codepoint>)
    ensures
        v@ == codepoint_table_453(),
{
    let v = vec![
        Codepoint { codepoint: 0x1067C, name: "LINEAR A SIGN A336", aliases: &[] },
        Codepoint { codepoint: 0x1067D, name: "LINEAR A SIGN A337", aliases: &[] },
        Codepoint { codepoint: 0x1067E, name: "LINEAR A SIGN A338", aliases: &[] },
        Codepoint { codepoint: 0x1067F, name: "LINEAR A SIGN A339", aliases: &[] },
        Codepoint { codepoint: 0x10680, name: "LINEAR A SIGN A340", aliases: &[] },
        Codepoint { codepoint: 0x10681, name: "LINEAR A SIGN A341", aliases: &[] },
        Codepoint { codepoint: 0x10682, name: "LINEAR A SIGN A342", aliases: &[] },
        Codepoint { codepoint: 0x10683, name: "LINEAR A SIGN A343", aliases: &[] },
        Codepoint { codepoint: 0x10684, name: "LINEAR A SIGN A344", aliases: &[] },
        Codepoint { codepoint: 0x10685, name: "LINEAR A SIGN A345", aliases: &[] },
        Codepoint { codepoint: 0x10686, name: "LINEAR A SIGN A346", aliases: &[] },
        Codepoint { codepoint: 0x10687, name: "LINEAR A SIGN A347", aliases: &[] },
        Codepoint { codepoint: 0x10688, name: "LINEAR A SIGN A348", aliases: &[] },
        Codepoint { codepoint: 0x10689, name: "LINEAR A SIGN A349", aliases: &[] },
        Codepoint { codepoint: 0x1068A, name: "LINEAR A SIGN A350", aliases: &[] },
        Codepoint { codepoint: 0x1068B, name: "LINEAR A SIGN A351", aliases: &[] },
        Codepoint { codepoint: 0x1068C, name: "LINEAR A SIGN A352", aliases: &[] },
        Codepoint { codepoint: 0x1068D, name: "LINEAR A SIGN A353", aliases: &[] },
        Codepoint { codepoint: 0x1068E, name: "LINEAR A SIGN A354", aliases: &[] },
        Codepoint { codepoint: 0x1068F, name: "LINEAR A SIGN A355", aliases: &[] },
        Codepoint { codepoint: 0x10690, name: "LINEAR A SIGN A356", aliases: &[] },
        Codepoint { codepoint: 0x10691, name: "LINEAR A SIGN A357", aliases: &[] },
        Codepoint { codepoint: 0x10692, name: "LINEAR A SIGN A358", aliases: &[] },
        Codepoint { codepoint: 0x10693, name: "LINEAR A SIGN A359", aliases: &[] },
        Codepoint { codepoint: 0x10694, name: "LINEAR A SIGN A360", aliases: &[] },
        Codepoint { codepoint: 0x10695, name: "LINEAR A SIGN A361", aliases: &[] },
        Codepoint { codepoint: 0x10696, name: "LINEAR A SIGN A362", aliases: &[] },
        Codepoint { codepoint: 0x10697, name: "LINEAR A SIGN A363", aliases: &[] },
        Codepoint { codepoint: 0x10698, name: "LINEAR A SIGN A364", aliases: &[] },
        Codepoint { codepoint: 0x10699, name: "LINEAR A SIGN A365", aliases: &[] },
        Codepoint { codepoint: 0x1069A, name: "LINEAR A SIGN A366", aliases: &[] },
        Codepoint { codepoint: 0x1069B, name: "LINEAR A SIGN A367", aliases: &[] },
        Codepoint { codepoint: 0x1069C, name: "LINEAR A SIGN A368", aliases: &[] },
        Codepoint { codepoint: 0x1069D, name: "LINEAR A SIGN A369", aliases: &[] },
        Codepoint { codepoint: 0x1069E, name: "LINEAR A SIGN A370", aliases: &[] },
        Codepoint { codepoint: 0x1069F, name: "LINEAR A SIGN A371", aliases: &[] },
        Codepoint { codepoint: 0x106A0, name: "LINEAR A SIGN A400-VAS", aliases: &[] },
        Codepoint { codepoint: 0x106A1, name: "LINEAR A SIGN A401-VAS", aliases: &[] },
        Codepoint { codepoint: 0x106A2, name: "LINEAR A SIGN A402-VAS", aliases: &[] },
        Codepoint { codepoint: 0x106A3, name: "LINEAR A SIGN A403-VAS", aliases: &[] },
    ];
    assert(v@ =~= codepoint_table_453());
    v
}

pub open spec fn codepoint_table_454() -> Seq<Codepoint> {
    seq![
        Codepoint { codepoint: 0x106A4, name: "LINEAR A SIGN A404-VAS", aliases: &[] },
        Codepoint { codepoint: 0x106A5, name: "LINEAR A SIGN A405-VAS", aliases: &[] },
        Codepoint { codepoint: 0x106A6, name: "LINEAR A SIGN A406-VAS", aliases: &[] },
        Codepoint { codepoint: 0x106A7, name: "LINEAR A SIGN A407-VAS", aliases: &[] },
        Codepoint { codepoint: 0x106A8, name: "LINEAR A SIGN A408-VAS", aliases: &[] },
        Codepoint { codepoint: 0x106A9, name: "LINEAR A SIGN A409-VAS", aliases: &[] },
        Codepoint { codepoint: 0x106AA, name: "LINEAR A SIGN A410-VAS", aliases: &[] },
        Codepoint { codepoint: 0x106AB, name: "LINEAR A SIGN A411-VAS", aliases: &[] },
        Codepoint { codepoint: 0x106AC, name: "LINEAR A SIGN A412-VAS", aliases: &[] },
        Codepoint { codepoint: 0x106AD, name: "LINEAR A SIGN A413-VAS", aliases: &[] },
        Codepoint { codepoint: 0x106AE, name: "LINEAR A SIGN A414-VAS", aliases: &[] },
        Codepoint { codepoint: 0x106AF, name: "LINEAR A SIGN A415-VAS", aliases: &[] },
        Codepoint { codepoint: 0x106B0, name: "LINEAR A SIGN A416-VAS", aliases: &[] },
        Codepoint { codepoint: 0x106B1, name: "LINEAR A SIGN A417-VAS", aliases: &[] },
        Codepoint { codepoint: 0x106B2, name: "LINEAR A SIGN A418-VAS", aliases: &[] },
        Codepoint { codepoint: 0x106B3, name: "LINEAR A SIGN A501", aliases: &[] },
        Codepoint { codepoint: 0x106B4, name: "LINEAR A SIGN A502", aliases: &[] },
        Codepoint { codepoint: 0x106B5, name: "LINEAR A SIGN A503", aliases: &[] },
        Codepoint { codepoint: 0x106B6, name: "LINEAR A SIGN A504", aliases: &[] },
        Codepoint { codepoint: 0x106B7, name: "LINEAR A SIGN A505", aliases: &[] },
        Codepoint { codepoint: 0x106B8, name: "LINEAR A SIGN A506", aliases: &[] },
        Codepoint { codepoint: 0x106B9, name: "LINEAR A SIGN A508", aliases: &[] },
        Codepoint { codepoint: 0x106BA, name: "LINEAR A SIGN A509", aliases: &[] },
        Codepoint { codepoint: 0x106BB, name: "LINEAR A SIGN A510", aliases: &[] },
        Codepoint { codepoint: 0x106BC, name: "LINEAR A SIGN A511", aliases: &[] },
        Codepoint { codepoint: 0x106BD, name: "LINEAR A SIGN A512", aliases: &[] },
        Codepoint { codepoint: 0x106BE, name: "LINEAR A SIGN A513", aliases: &[] },
        Codepoint { codepoint: 0x106BF, name: "LINEAR A SIGN A515", aliases: &[] },
        Codepoint { codepoint: 0x106C0, name: "LINEAR A SIGN A516", aliases: &[] },
        Codepoint { codepoint: 0x106C1, name: "LINEAR A SIGN A520", aliases: &[] },
        Codepoint { codepoint: 0x106C2, name: "LINEAR A SIGN A521", aliases: &[] },
        Codepoint { codepoint: 0x106C3, name: "LINEAR A SIGN A523", aliases: &[] },
        Codepoint { codepoint: 0x106C4, name: "LINEAR A SIGN A524", aliases: &[] },
        Codepoint { codepoint: 0x106C5, name: "LINEAR A SIGN A525", aliases: &[] },
        Codepoint { codepoint: 0x106C6, name: "LINEAR A SIGN A526", aliases: &[] },
        Codepoint { codepoint: 0x106C7, name: "LINEAR A SIGN A527", aliases: &[] },
        Codepoint { codepoint: 0x106C8, name: "LINEAR A SIGN A528", aliases: &[] },
        Codepoint { codepoint: 0x106C9, name: "LINEAR A SIGN A529", aliases: &[] },
        Codepoint { codepoint: 0x106CA, name: "LINEAR A SIGN A530", aliases: &[] },
        Codepoint { codepoint: 0x106CB, name: "LINEAR A SIGN A531", aliases: &[] },
    ]
}

fn all_codepoints_454() -> (v: Vec<Codepoint>)
    ensures
        v@ == codepoint_table_454(),
{
    let v = vec![
        Codepoint { codepoint: 0x106A4, name: "LINEAR A SIGN A404-VAS", aliases: &[] },
        Codepoint { codepoint: 0x106A5, name: "LINEAR A SIGN A405-VAS", aliases: &[] },
        Codepoint { codepoint: 0x106A6, name: "LINEAR A SIGN A406-VAS", aliases: &[] },
        Codepoint { codepoint: 0x106A7, name: "LINEAR A SIGN A407-VAS", aliases: &[] },
        Codepoint { codepoint: 0x106A8, name: "LINEAR A SIGN A408-VAS", aliases: &[] },
        Codepoint { codepoint: 0x106A9, name: "LINEAR A SIGN A409-VAS", aliases: &[] },
        Codepoint { codepoint: 0x106AA, name: "LINEAR A SIGN A410-VAS", aliases: &[] },
        Codepoint { codepoint: 0x106AB, name: "LINEAR A SIGN A411-VAS", aliases: &[] },
        Codepoint { codepoint: 0x106AC, name: "LINEAR A SIGN A412-VAS", aliases: &[] },
        Codepoint { codepoint: 0x106AD, name: "LINEAR A SIGN A413-VAS", aliases: &[] },
        Codepoint { codepoint: 0x106AE, name: "LINEAR A SIGN A414-VAS", aliases: &[] },
        Codepoint { codepoint: 0x106AF, name: "LINEAR A SIGN A415-VAS", aliases: &[] },
        Codepoint { codepoint: 0x106B0, name: "LINEAR A SIGN A416-VAS", aliases: &[] },
        Codepoint { codepoint: 0x106B1, name: "LINEAR A SIGN A417-VAS", aliases: &[] },
        Codepoint { codepoint: 0x106B2, name: "LINEAR A SIGN A418-VAS", aliases: &[] },
        Codepoint { codepoint: 0x106B3, name: "LINEAR A SIGN A501", aliases: &[] },
        Codepoint { codepoint: 0x106B4, name: "LINEAR A SIGN A502", aliases: &[] },
        Codepoint { codepoint: 0x106B5, name: "LINEAR A SIGN A503", aliases: &[] },
        Codepoint { codepoint: 0x106B6, name: "LINEAR A SIGN A504", aliases: &[] },
        Codepoint { codepoint: 0x106B7, name: "LINEAR A SIGN A505", aliases: &[] },
        Codepoint { codepoint: 0x106B8, name: "LINEAR A SIGN A506", aliases: &[] },
        Codepoint { codepoint: 0x106B9, name: "LINEAR A SIGN A508", aliases: &[] },
        Codepoint { codepoint: 0x106BA, name: "LINEAR A SIGN A509", aliases: &[] },
        Codepoint { codepoint: 0x106BB, name: "LINEAR A SIGN A510", aliases: &[] },
        Codepoint { codepoint: 0x106BC, name: "LINEAR A SIGN A511", aliases: &[] },
        Codepoint { codepoint: 0x106BD, name: "LINEAR A SIGN A512", aliases: &[] },
        Codepoint { codepoint: 0x106BE, name: "LINEAR A SIGN A513", aliases: &[] },
        Codepoint { codepoint: 0x106BF, name: "LINEAR A SIGN A515", aliases: &[] },
        Codepoint { codepoint: 0x106C0, name: "LINEAR A SIGN A516", aliases: &[] },
        Codepoint { codepoint: 0x106C1, name: "LINEAR A SIGN A520", aliases: &[] },
        Codepoint { codepoint: 0x106C2, name: "LINEAR A SIGN A521", aliases: &[] },
        Codepoint { codepoint: 0x106C3, name: "LINEAR A SIGN A523", aliases: &[] },
        Codepoint { codepoint: 0x106C4, name: "LINEAR A SIGN A524", aliases: &[] },
        Codepoint { codepoint: 0x106C5, name: "LINEAR A SIGN A525", aliases: &[] },
        Codepoint { codepoint: 0x106C6, name: "LINEAR A SIGN A526", aliases: &[] },
        Codepoint { codepoint: 0x106C7, name: "LINEAR A SIGN A527", aliases: &[] },
        Codepoint { codepoint: 0x106C8, name: "LINEAR A SIGN A528", aliases: &[] },
        Codepoint { codepoint: 0x106C9, name: "LINEAR A SIGN A529", aliases: &[] },
        Codepoint { codepoint: 0x106CA, name: "LINEAR A SIGN A530", aliases: &[] },
        Codepoint { codepoint: 0x106CB, name: "LINEAR A SIGN A531", aliases: &[] },
    ];
    assert(v@ =~= codepoint_table_454());
    v
}

pub open spec fn codepoint_table_455() -> Seq<Codepoint> {
    seq![
        Codepoint { codepoint: 0x106CC, name: "LINEAR A SIGN A532", aliases: &[] },
        Codepoint { codepoint: 0x106CD, name: "LINEAR A SIGN A534", aliases: &[] },
        Codepoint { codepoint: 0x106CE, name: "LINEAR A SIGN A535", aliases: &[] },
        Codepoint { codepoint: 0x106CF, name: "LINEAR A SIGN A536", aliases: &[] },
        Codepoint { codepoint: 0x106D0, name: "LINEAR A SIGN A537", aliases: &[] },
        Codepoint { codepoint: 0x106D1, name: "LINEAR A SIGN A538", aliases: &[] },
        Codepoint { codepoint: 0x106D2, name: "LINEAR A SIGN A539", aliases: &[] },
        Codepoint { codepoint: 0x106D3, name: "LINEAR A SIGN A540", aliases: &[] },
        Codepoint { codepoint: 0x106D4, name: "LINEAR A SIGN A541", aliases: &[] },
        Codepoint { codepoint: 0x106D5, name: "LINEAR A SIGN A542", aliases: &[] },
        Codepoint { codepoint: 0x106D6, name: "LINEAR A SIGN A545", aliases: &[] },
        Codepoint { codepoint: 0x106D7, name: "LINEAR A SIGN A547", aliases: &[] },
        Codepoint { codepoint: 0x106D8, name: "LINEAR A SIGN A548", aliases: &[] },
        Codepoint { codepoint: 0x106D9, name: "LINEAR A SIGN A549", aliases: &[] },
        Codepoint { codepoint: 0x106DA, name: "LINEAR A SIGN A550", aliases: &[] },
        Codepoint { codepoint: 0x106DB, name: "LINEAR A SIGN A551", aliases: &[] },
        Codepoint { codepoint: 0x106DC, name: "LINEAR A SIGN A552", aliases: &[] },
        Codepoint { codepoint: 0x106DD, name: "LINEAR A SIGN A553", aliases: &[] },
        Codepoint { codepoint: 0x106DE, name: "LINEAR A SIGN A554", aliases: &[] },
        Codepoint { codepoint: 0x106DF, name: "LINEAR A SIGN A555", aliases: &[] },
        Codepoint { codepoint: 0x106E0, name: "LINEAR A SIGN A556", aliases: &[] },
        Codepoint { codepoint: 0x106E1, name: "LINEAR A SIGN A557", aliases: &[] },
        Codepoint { codepoint: 0x106E2, name: "LINEAR A SIGN A559", aliases: &[] },
        Codepoint { codepoint: 0x106E3, name: "LINEAR A SIGN A563", aliases: &[] },
        Codepoint { codepoint: 0x106E4, name: "LINEAR A SIGN A564", aliases: &[] },
        Codepoint { codepoint: 0x106E5, name: "LINEAR A SIGN A565", aliases: &[] },
        Codepoint { codepoint: 0x106E6, name: "LINEAR A SIGN A566", aliases: &[] },
        Codepoint { codepoint: 0x106E7, name: "LINEAR A SIGN A568", aliases: &[] },
        Codepoint { codepoint: 0x106E8, name: "LINEAR A SIGN A569", aliases: &[] },
        Codepoint { codepoint: 0x106E9, name: "LINEAR A SIGN A570", aliases: &[] },
        Codepoint { codepoint: 0x106EA, name: "LINEAR A SIGN A571", aliases: &[] },
        Codepoint { codepoint: 0x106EB, name: "LINEAR A SIGN A572", aliases: &[] },
        Codepoint { codepoint: 0x106EC, name: "LINEAR A SIGN A573", aliases: &[] },
        Codepoint { codepoint: 0x106ED, name: "LINEAR A SIGN A574", aliases: &[] },
        Codepoint { codepoint: 0x106EE, name: "LINEAR A SIGN A575", aliases: &[] },
        Codepoint { codepoint: 0x106EF, name: "LINEAR A SIGN A576", aliases: &[] },
        Codepoint { codepoint: 0x106F0, name: "LINEAR A SIGN A577", aliases: &[] },
        Codepoint { codepoint: 0x106F1, name: "LINEAR A SIGN A578", aliases: &[] },
        Codepoint { codepoint: 0x106F2, name: "LINEAR A SIGN A579", aliases: &[] },
        Codepoint { codepoint: 0x106F3, name: "LINEAR A SIGN A580", aliases: &[] },
    ]
}

fn all_codepoints_455() -> (v: Vec<Codepoint>)
    ensures
        v@ == codepoint_table_455(),
{
    let v = vec![
        Codepoint { codepoint: 0x106CC, name: "LINEAR A SIGN A532", aliases: &[] },
        Codepoint { codepoint: 0x106CD, name: "LINEAR A SIGN A534", aliases: &[] },
        Codepoint { codepoint: 0x106CE, name: "LINEAR A SIGN A535", aliases: &[] },
        Codepoint { codepoint: 0x106CF, name: "LINEAR A SIGN A536", aliases: &[] },
        Codepoint { codepoint: 0x106D0, name: "LINEAR A SIGN A537", aliases: &[] },
        Codepoint { codepoint: 0x106D1, name: "LINEAR A SIGN A538", aliases: &[] },
        Codepoint { codepoint: 0x106D2, name: "LINEAR A SIGN A539", aliases: &[] },
        Codepoint { codepoint: 0x106D3, name: "LINEAR A SIGN A540", aliases: &[] },
        Codepoint { codepoint: 0x106D4, name: "LINEAR A SIGN A541", aliases: &[] },
        Codepoint { codepoint: 0x106D5, name: "LINEAR A SIGN A542", aliases: &[] },
        Codepoint { codepoint: 0x106D6, name: "LINEAR A SIGN A545", aliases: &[] },
        Codepoint { codepoint: 0x106D7, name: "LINEAR A SIGN A547", aliases: &[] },
        Codepoint { codepoint: 0x106D8, name: "LINEAR A SIGN A548", aliases: &[] },
        Codepoint { codepoint: 0x106D9, name: "LINEAR A SIGN A549", aliases: &[] },
        Codepoint { codepoint: 0x106DA, name: "LINEAR A SIGN A550", aliases: &[] },
        Codepoint { codepoint: 0x106DB, name: "LINEAR A SIGN A551", aliases: &[] },
        Codepoint { codepoint: 0x106DC, name: "LINEAR A SIGN A552", aliases: &[] },
        Codepoint { codepoint: 0x106DD, name: "LINEAR A SIGN A553", aliases: &[] },
        Codepoint { codepoint: 0x106DE, name: "LINEAR A SIGN A554", aliases: &[] },
        Codepoint { codepoint: 0x106DF, name: "LINEAR A SIGN A555", aliases: &[] },
        Codepoint { codepoint: 0x106E0, name: "LINEAR A SIGN A556", aliases: &[] },
        Codepoint { codepoint: 0x106E1, name: "LINEAR A SIGN A557", aliases: &[] },
        Codepoint { codepoint: 0x106E2, name: "LINEAR A SIGN A559", aliases: &[] },
        Codepoint { codepoint: 0x106E3, name: "LINEAR A SIGN A563", aliases: &[] },
        Codepoint { codepoint: 0x106E4, name: "LINEAR A SIGN A564", aliases: &[] },
        Codepoint { codepoint: 0x106E5, name: "LINEAR A SIGN A565", aliases: &[] },
        Codepoint { codepoint: 0x106E6, name: "LINEAR A SIGN A566", aliases: &[] },
        Codepoint { codepoint: 0x106E7, name: "LINEAR A SIGN A568", aliases: &[] },
        Codepoint { codepoint: 0x106E8, name: "LINEAR A SIGN A569", aliases: &[] },
        Codepoint { codepoint: 0x106E9, name: "LINEAR A SIGN A570", aliases: &[] },
        Codepoint { codepoint: 0x106EA, name: "LINEAR A SIGN A571", aliases: &[] },
        Codepoint { codepoint: 0x106EB, name: "LINEAR A SIGN A572", aliases: &[] },
        Codepoint { codepoint: 0x106EC, name: "LINEAR A SIGN A573", aliases: &[] },
        Codepoint { codepoint: 0x106ED, name: "LINEAR A SIGN A574", aliases: &[] },
        Codepoint { codepoint: 0x106EE, name: "LINEAR A SIGN A575", aliases: &[] },
        Codepoint { codepoint: 0x106EF, name: "LINEAR A SIGN A576", aliases: &[] },
        Codepoint { codepoint: 0x106F0, name: "LINEAR A SIGN A577", aliases: &[] },
        Codepoint { codepoint: 0x106F1, name: "LINEAR A SIGN A578", aliases: &[] },
        Codepoint { codepoint: 0x106F2, name: "LINEAR A SIGN A579", aliases: &[] },
        Codepoint { codepoint: 0x106F3, name: "LINEAR A SIGN A580", aliases: &[] },
    ];
    assert(v@ =~= codepoint_table_455());
    v
}

pub open spec fn codepoint_table_456() -> Seq<Codepoint> {
    seq![
        Codepoint { codepoint: 0x106F4, name: "LINEAR A SIGN A581", aliases: &[] },
        Codepoint { codepoint: 0x106F5, name: "LINEAR A SIGN A582", aliases: &[] },
        Codepoint { codepoint: 0x106F6, name: "LINEAR A SIGN A583", aliases: &[] },
        Codepoint { codepoint: 0x106F7, name: "LINEAR A SIGN A584", aliases: &[] },
        Codepoint { codepoint: 0x106F8, name: "LINEAR A SIGN A585", aliases: &[] },
        Codepoint { codepoint: 0x106F9, name: "LINEAR A SIGN A586", aliases: &[] },
        Codepoint { codepoint: 0x106FA, name: "LINEAR A SIGN A587", aliases: &[] },
        Codepoint { codepoint: 0x106FB, name: "LINEAR A SIGN A588", aliases: &[] },
        Codepoint { codepoint: 0x106FC, name: "LINEAR A SIGN A589", aliases: &[] },
        Codepoint { codepoint: 0x106FD, name: "LINEAR A SIGN A591", aliases: &[] },
        Codepoint { codepoint: 0x106FE, name: "LINEAR A SIGN A592", aliases: &[] },
        Codepoint { codepoint: 0x106FF, name: "LINEAR A SIGN A594", aliases: &[] },
        Codepoint { codepoint: 0x10700, name: "LINEAR A SIGN A595", aliases: &[] },
        Codepoint { codepoint: 0x10701, name: "LINEAR A SIGN A596", aliases: &[] },
        Codepoint { codepoint: 0x10702, name: "LINEAR A SIGN A598", aliases: &[] },
        Codepoint { codepoint: 0x10703, name: "LINEAR A SIGN A600", aliases: &[] },
        Codepoint { codepoint: 0x10704, name: "LINEAR A SIGN A601", aliases: &[] },
        Codepoint { codepoint: 0x10705, name: "LINEAR A SIGN A602", aliases: &[] },
        Codepoint { codepoint: 0x10706, name: "LINEAR A SIGN A603", aliases: &[] },
        Codepoint { codepoint: 0x10707, name: "LINEAR A SIGN A604", aliases: &[] },
        Codepoint { codepoint: 0x10708, name: "LINEAR A SIGN A606", aliases: &[] },
        Codepoint { codepoint: 0x10709, name: "LINEAR A SIGN A608", aliases: &[] },
        Codepoint { codepoint: 0x1070A, name: "LINEAR A SIGN A609", aliases: &[] },
        Codepoint { codepoint: 0x1070B, name: "LINEAR A SIGN A610", aliases: &[] },
        Codepoint { codepoint: 0x1070C, name: "LINEAR A SIGN A611", aliases: &[] },
        Codepoint { codepoint: 0x1070D, name: "LINEAR A SIGN A612", aliases: &[] },
        Codepoint { codepoint: 0x1070E, name: "LINEAR A SIGN A613", aliases: &[] },
        Codepoint { codepoint: 0x1070F, name: "LINEAR A SIGN A614", aliases: &[] },
        Codepoint { codepoint: 0x10710, name: "LINEAR A SIGN A615", aliases: &[] },
        Codepoint { codepoint: 0x10711, name: "LINEAR A SIGN A616", aliases: &[] },
        Codepoint { codepoint: 0x10712, name: "LINEAR A SIGN A617", aliases: &[] },
        Codepoint { codepoint: 0x10713, name: "LINEAR A SIGN A618", aliases: &[] },
        Codepoint { codepoint: 0x10714, name: "LINEAR A SIGN A619", aliases: &[] },
        Codepoint { codepoint: 0x10715, name: "LINEAR A SIGN A620", aliases: &[] },
        Codepoint { codepoint: 0x10716, name: "LINEAR A SIGN A621", aliases: &[] },
        Codepoint { codepoint: 0x10717, name: "LINEAR A SIGN A622", aliases: &[] },
        Codepoint { codepoint: 0x10718, name: "LINEAR A SIGN A623", aliases: &[] },
        Codepoint { codepoint: 0x10719, name: "LINEAR A SIGN A624", aliases: &[] },
        Codepoint { codepoint: 0x1071A, name: "LINEAR A SIGN A626", aliases: &[] },
        Codepoint { codepoint: 0x1071B, name: "LINEAR A SIGN A627", aliases: &[] },
    ]
}

fn all_codepoints_456() -> (v: Vec<Codepoint>)
    ensures
        v@ == codepoint_table_456(),
{
    let v = vec![
        Codepoint { codepoint: 0x106F4, name: "LINEAR A SIGN A581", aliases: &[] },
        Codepoint { codepoint: 0x106F5, name: "LINEAR A SIGN A582", aliases: &[] },
        Codepoint { codepoint: 0x106F6, name: "LINEAR A SIGN A583", aliases: &[] },
        Codepoint { codepoint: 0x106F7, name: "LINEAR A SIGN A584", aliases: &[] },
        Codepoint { codepoint: 0x106F8, name: "LINEAR A SIGN A585", aliases: &[] },
        Codepoint { codepoint: 0x106F9, name: "LINEAR A SIGN A586", aliases: &[] },
        Codepoint { codepoint: 0x106FA, name: "LINEAR A SIGN A587", aliases: &[] },
        Codepoint { codepoint: 0x106FB, name: "LINEAR A SIGN A588", aliases: &[] },
        Codepoint { codepoint: 0x106FC, name: "LINEAR A SIGN A589", aliases: &[] },
        Codepoint { codepoint: 0x106FD, name: "LINEAR A SIGN A591", aliases: &[] },
        Codepoint { codepoint: 0x106FE, name: "LINEAR A SIGN A592", aliases: &[] },
        Codepoint { codepoint: 0x106FF, name: "LINEAR A SIGN A594", aliases: &[] },
        Codepoint { codepoint: 0x10700, name: "LINEAR A SIGN A595", aliases: &[] },
        Codepoint { codepoint: 0x10701, name: "LINEAR A SIGN A596", aliases: &[] },
        Codepoint { codepoint: 0x10702, name: "LINEAR A SIGN A598", aliases: &[] },
        Codepoint { codepoint: 0x10703, name: "LINEAR A SIGN A600", aliases: &[] },
        Codepoint { codepoint: 0x10704, name: "LINEAR A SIGN A601", aliases: &[] },
        Codepoint { codepoint: 0x10705, name: "LINEAR A SIGN A602", aliases: &[] },
        Codepoint { codepoint: 0x10706, name: "LINEAR A SIGN A603", aliases: &[] },
        Codepoint { codepoint: 0x10707, name: "LINEAR A SIGN A604", aliases: &[] },
        Codepoint { codepoint: 0x10708, name: "LINEAR A SIGN A606", aliases: &[] },
        Codepoint { codepoint: 0x10709, name: "LINEAR A SIGN A608", aliases: &[] },
        Codepoint { codepoint: 0x1070A, name: "LINEAR A SIGN A609", aliases: &[] },
        Codepoint { codepoint: 0x1070B, name: "LINEAR A SIGN A610", aliases: &[] },
        Codepoint { codepoint: 0x1070C, name: "LINEAR A SIGN A611", aliases: &[] },
        Codepoint { codepoint: 0x1070D, name: "LINEAR A SIGN A612", aliases: &[] },
        Codepoint { codepoint: 0x1070E, name: "LINEAR A SIGN A613", aliases: &[] },
        Codepoint { codepoint: 0x1070F, name: "LINEAR A SIGN A614", aliases: &[] },
        Codepoint { codepoint: 0x10710, name: "LINEAR A SIGN A615", aliases: &[] },
        Codepoint { codepoint: 0x10711, name: "LINEAR A SIGN A616", aliases: &[] },
        Codepoint { codepoint: 0x10712, name: "LINEAR A SIGN A617", aliases: &[] },
        Codepoint { codepoint: 0x10713, name: "LINEAR A SIGN A618", aliases: &[] },
        Codepoint { codepoint: 0x10714, name: "LINEAR A SIGN A619", aliases: &[] },
        Codepoint { codepoint: 0x10715, name: "LINEAR A SIGN A620", aliases: &[] },
        Codepoint { codepoint: 0x10716, name: "LINEAR A SIGN A621", aliases: &[] },
        Codepoint { codepoint: 0x10717, name: "LINEAR A SIGN A622", aliases: &[] },
        Codepoint { codepoint: 0x10718, name: "LINEAR A SIGN A623", aliases: &[] },
        Codepoint { codepoint: 0x10719, name: "LINEAR A SIGN A624", aliases: &[] },
        Codepoint { codepoint: 0x1071A, name: "LINEAR A SIGN A626", aliases: &[] },
        Codepoint { codepoint: 0x1071B, name: "LINEAR A SIGN A627", aliases: &[] },
    ];
    assert(v@ =~= codepoint_table_456());
    v
}

pub open spec fn codepoint_table_457() -> Seq<Codepoint> {
    seq![
        Codepoint { codepoint: 0x1071C, name: "LINEAR A SIGN A628", aliases: &[] },
        Codepoint { codepoint: 0x1071D, name: "LINEAR A SIGN A629", aliases: &[] },
        Codepoint { codepoint: 0x1071E, name: "LINEAR A SIGN A634", aliases: &[] },
        Codepoint { codepoint: 0x1071F, name: "LINEAR A SIGN A637", aliases: &[] },
        Codepoint { codepoint: 0x10720, name: "LINEAR A SIGN A638", aliases: &[] },
        Codepoint { codepoint: 0x10721, name: "LINEAR A SIGN A640", aliases: &[] },
        Codepoint { codepoint: 0x10722, name: "LINEAR A SIGN A642", aliases: &[] },
        Codepoint { codepoint: 0x10723, name: "LINEAR A SIGN A643", aliases: &[] },
        Codepoint { codepoint: 0x10724, name: "LINEAR A SIGN A644", aliases: &[] },
        Codepoint { codepoint: 0x10725, name: "LINEAR A SIGN A645", aliases: &[] },
        Codepoint { codepoint: 0x10726, name: "LINEAR A SIGN A646", aliases: &[] },
        Codepoint { codepoint: 0x10727, name: "LINEAR A SIGN A648", aliases: &[] },
        Codepoint { codepoint: 0x10728, name: "LINEAR A SIGN A649", aliases: &[] },
        Codepoint { codepoint: 0x10729, name: "LINEAR A SIGN A651", aliases: &[] },
        Codepoint { codepoint: 0x1072A, name: "LINEAR A SIGN A652", aliases: &[] },
        Codepoint { codepoint: 0x1072B, name: "LINEAR A SIGN A653", aliases: &[] },
        Codepoint { codepoint: 0x1072C, name: "LINEAR A SIGN A654", aliases: &[] },
        Codepoint { codepoint: 0x1072D, name: "LINEAR A SIGN A655", aliases: &[] },
        Codepoint { codepoint: 0x1072E, name: "LINEAR A SIGN A656", aliases: &[] },
        Codepoint { codepoint: 0x1072F, name: "LINEAR A SIGN A657", aliases: &[] },
        Codepoint { codepoint: 0x10730, name: "LINEAR A SIGN A658", aliases: &[] },
        Codepoint { codepoint: 0x10731, name: "LINEAR A SIGN A659", aliases: &[] },
        Codepoint { codepoint: 0x10732, name: "LINEAR A SIGN A660", aliases: &[] },
        Codepoint { codepoint: 0x10733, name: "LINEAR A SIGN A661", aliases: &[] },
        Codepoint { codepoint: 0x10734, name: "LINEAR A SIGN A662", aliases: &[] },
        Codepoint { codepoint: 0x10735, name: "LINEAR A SIGN A663", aliases: &[] },
        Codepoint { codepoint: 0x10736, name: "LINEAR A SIGN A664", aliases: &[] },
        Codepoint { codepoint: 0x10740, name: "LINEAR A SIGN A701 A", aliases: &[] },
        Codepoint { codepoint: 0x10741, name: "LINEAR A SIGN A702 B", aliases: &[] },
        Codepoint { codepoint: 0x10742, name: "LINEAR A SIGN A703 D", aliases: &[] },
        Codepoint { codepoint: 0x10743, name: "LINEAR A SIGN A704 E", aliases: &[] },
        Codepoint { codepoint: 0x10744, name: "LINEAR A SIGN A705 F", aliases: &[] },
        Codepoint { codepoint: 0x10745, name: "LINEAR A SIGN A706 H", aliases: &[] },
        Codepoint { codepoint: 0x10746, name: "LINEAR A SIGN A707 J", aliases: &[] },
        Codepoint { codepoint: 0x10747, name: "LINEAR A SIGN A708 K", aliases: &[] },
        Codepoint { codepoint: 0x10748, name: "LINEAR A SIGN A709 L", aliases: &[] },
        Codepoint { codepoint: 0x10749, name: "LINEAR A SIGN A709-2 L2", aliases: &[] },
        Codepoint { codepoint: 0x1074A, name: "LINEAR A SIGN A709-3 L3", aliases: &[] },
        Codepoint { codepoint: 0x1074B, name: "LINEAR A SIGN A709-4 L4", aliases: &[] },
        Codepoint { codepoint: 0x1074C, name: "LINEAR A SIGN A709-6 L6", aliases: &[] },
    ]
}

fn all_codepoints_457() -> (v: Vec<Codepoint>)
    ensures
        v@ == codepoint_table_457(),
{
    let v = vec![
        Codepoint { codepoint: 0x1071C, name: "LINEAR A SIGN A628", aliases: &[] },
        Codepoint { codepoint: 0x1071D, name: "LINEAR A SIGN A629", aliases: &[] },
        Codepoint { codepoint: 0x1071E, name: "LINEAR A SIGN A634", aliases: &[] },
        Codepoint { codepoint: 0x1071F, name: "LINEAR A SIGN A637", aliases: &[] },
        Codepoint { codepoint: 0x10720, name: "LINEAR A SIGN A638", aliases: &[] },
        Codepoint { codepoint: 0x10721, name: "LINEAR A SIGN A640", aliases: &[] },
        Codepoint { codepoint: 0x10722, name: "LINEAR A SIGN A642", aliases: &[] },
        Codepoint { codepoint: 0x10723, name: "LINEAR A SIGN A643", aliases: &[] },
        Codepoint { codepoint: 0x10724, name: "LINEAR A SIGN A644", aliases: &[] },
        Codepoint { codepoint: 0x10725, name: "LINEAR A SIGN A645", aliases: &[] },
        Codepoint { codepoint: 0x10726, name: "LINEAR A SIGN A646", aliases: &[] },
        Codepoint { codepoint: 0x10727, name: "LINEAR A SIGN A648", aliases: &[] },
        Codepoint { codepoint: 0x10728, name: "LINEAR A SIGN A649", aliases: &[] },
        Codepoint { codepoint: 0x10729, name: "LINEAR A SIGN A651", aliases: &[] },
        Codepoint { codepoint: 0x1072A, name: "LINEAR A SIGN A652", aliases: &[] },
        Codepoint { codepoint: 0x1072B, name: "LINEAR A SIGN A653", aliases: &[] },
        Codepoint { codepoint: 0x1072C, name: "LINEAR A SIGN A654", aliases: &[] },
        Codepoint { codepoint: 0x1072D, name: "LINEAR A SIGN A655", aliases: &[] },
        Codepoint { codepoint: 0x1072E, name: "LINEAR A SIGN A656", aliases: &[] },
        Codepoint { codepoint: 0x1072F, name: "LINEAR A SIGN A657", aliases: &[] },
        Codepoint { codepoint: 0x10730, name: "LINEAR A SIGN A658", aliases: &[] },
        Codepoint { codepoint: 0x10731, name: "LINEAR A SIGN A659", aliases: &[] },
        Codepoint { codepoint: 0x10732, name: "LINEAR A SIGN A660", aliases: &[] },
        Codepoint { codepoint: 0x10733, name: "LINEAR A SIGN A661", aliases: &[] },
        Codepoint { codepoint: 0x10734, name: "LINEAR A SIGN A662", aliases: &[] },
        Codepoint { codepoint: 0x10735, name: "LINEAR A SIGN A663", aliases: &[] },
        Codepoint { codepoint: 0x10736, name: "LINEAR A SIGN A664", aliases: &[] },
        Codepoint { codepoint: 0x10740, name: "LINEAR A SIGN A701 A", aliases: &[] },
        Codepoint { codepoint: 0x10741, name: "LINEAR A SIGN A702 B", aliases: &[] },
        Codepoint { codepoint: 0x10742, name: "LINEAR A SIGN A703 D", aliases: &[] },
        Codepoint { codepoint: 0x10743, name: "LINEAR A SIGN A704 E", aliases: &[] },
        Codepoint { codepoint: 0x10744, name: "LINEAR A SIGN A705 F", aliases: &[] },
        Codepoint { codepoint: 0x10745, name: "LINEAR A SIGN A706 H", aliases: &[] },
        Codepoint { codepoint: 0x10746, name: "LINEAR A SIGN A707 J", aliases: &[] },
        Codepoint { codepoint: 0x10747, name: "LINEAR A SIGN A708 K", aliases: &[] },
        Codepoint { codepoint: 0x10748, name: "LINEAR A SIGN A709 L", aliases: &[] },
        Codepoint { codepoint: 0x10749, name: "LINEAR A SIGN A709-2 L2", aliases: &[] },
        Codepoint { codepoint: 0x1074A, name: "LINEAR A SIGN A709-3 L3", aliases: &[] },
        Codepoint { codepoint: 0x1074B, name: "LINEAR A SIGN A709-4 L4", aliases: &[] },
        Codepoint { codepoint: 0x1074C, name: "LINEAR A SIGN A709-6 L6", aliases: &[] },
    ];
    assert(v@ =~= codepoint_table_457());
    v
}

pub open spec fn codepoint_table_458() -> Seq<Codepoint> {
    seq![
        Codepoint { codepoint: 0x1074D, name: "LINEAR A SIGN A710 W", aliases: &[] },
        Codepoint { codepoint: 0x1074E, name: "LINEAR A SIGN A711 X", aliases: &[] },
        Codepoint { codepoint: 0x1074F, name: "LINEAR A SIGN A712 Y", aliases: &[] },
        Codepoint { codepoint: 0x10750, name: "LINEAR A SIGN A713 OMEGA", aliases: &[] },
        Codepoint { codepoint: 0x10751, name: "LINEAR A SIGN A714 ABB", aliases: &[] },
        Codepoint { codepoint: 0x10752, name: "LINEAR A SIGN A715 BB", aliases: &[] },
        Codepoint { codepoint: 0x10753, name: "LINEAR A SIGN A717 DD", aliases: &[] },
        Codepoint { codepoint: 0x10754, name: "LINEAR A SIGN A726 EYYY", aliases: &[] },
        Codepoint { codepoint: 0x10755, name: "LINEAR A SIGN A732 JE", aliases: &[] },
        Codepoint { codepoint: 0x10760, name: "LINEAR A SIGN A800", aliases: &[] },
        Codepoint { codepoint: 0x10761, name: "LINEAR A SIGN A801", aliases: &[] },
        Codepoint { codepoint: 0x10762, name: "LINEAR A SIGN A802", aliases: &[] },
        Codepoint { codepoint: 0x10763, name: "LINEAR A SIGN A803", aliases: &[] },
        Codepoint { codepoint: 0x10764, name: "LINEAR A SIGN A804", aliases: &[] },
        Codepoint { codepoint: 0x10765, name: "LINEAR A SIGN A805", aliases: &[] },
        Codepoint { codepoint: 0x10766, name: "LINEAR A SIGN A806", aliases: &[] },
        Codepoint { codepoint: 0x10767, name: "LINEAR A SIGN A807", aliases: &[] },
        Codepoint { codepoint: 0x10780, name: "MODIFIER LETTER SMALL CAPITAL AA", aliases: &[] },
        Codepoint { codepoint: 0x10781, name: "MODIFIER LETTER SUPERSCRIPT TRIANGULAR COLON", aliases: &[] },
        Codepoint { codepoint: 0x10782, name: "MODIFIER LETTER SUPERSCRIPT HALF TRIANGULAR COLON", aliases: &[] },
        Codepoint { codepoint: 0x10783, name: "MODIFIER LETTER SMALL AE", aliases: &[] },
        Codepoint { codepoint: 0x10784, name: "MODIFIER LETTER SMALL CAPITAL B", aliases: &[] },
        Codepoint { codepoint: 0x10785, name: "MODIFIER LETTER SMALL B WITH HOOK", aliases: &[] },
        Codepoint { codepoint: 0x10787, name: "MODIFIER LETTER SMALL DZ DIGRAPH", aliases: &[] },
        Codepoint { codepoint: 0x10788, name: "MODIFIER LETTER SMALL DZ DIGRAPH WITH RETROFLEX HOOK", aliases: &[] },
        Codepoint { codepoint: 0x10789, name: "MODIFIER LETTER SMALL DZ DIGRAPH WITH CURL", aliases: &[] },
        Codepoint { codepoint: 0x1078A, name: "MODIFIER LETTER SMALL DEZH DIGRAPH", aliases: &[] },
        Codepoint { codepoint: 0x1078B, name: "MODIFIER LETTER SMALL D WITH TAIL", aliases: &[] },
        Codepoint { codepoint: 0x1078C, name: "MODIFIER LETTER SMALL D WITH HOOK", aliases: &[] },
        Codepoint { codepoint: 0x1078D, name: "MODIFIER LETTER SMALL D WITH HOOK AND TAIL", aliases: &[] },
        Codepoint { codepoint: 0x1078E, name: "MODIFIER LETTER SMALL REVERSED E", aliases: &[] },
        Codepoint { codepoint: 0x1078F, name: "MODIFIER LETTER SMALL CLOSED REVERSED OPEN E", aliases: &[] },
        Codepoint { codepoint: 0x10790, name: "MODIFIER LETTER SMALL FENG DIGRAPH", aliases: &[] },
        Codepoint { codepoint: 0x10791, name: "MODIFIER LETTER SMALL RAMS HORN", aliases: &[] },
        Codepoint { codepoint: 0x10792, name: "MODIFIER LETTER SMALL CAPITAL G", aliases: &[] },
        Codepoint { codepoint: 0x10793, name: "MODIFIER LETTER SMALL G WITH HOOK", aliases: &[] },
        Codepoint { codepoint: 0x10794, name: "MODIFIER LETTER SMALL CAPITAL G WITH HOOK", aliases: &[] },
        Codepoint { codepoint: 0x10795, name: "MODIFIER LETTER SMALL H WITH STROKE", aliases: &[] },
        Codepoint { codepoint: 0x10796, name: "MODIFIER LETTER SMALL CAPITAL H", aliases: &[] },
        Codepoint { codepoint: 0x10797, name: "MODIFIER LETTER SMALL HENG WITH HOOK", aliases: &[] },
    ]
}

fn all_codepoints_458() -> (v: Vec<Codepoint>)
    ensures
        v@ == codepoint_table_458(),
{
    let v = vec![
        Codepoint { codepoint: 0x1074D, name: "LINEAR A SIGN A710 W", aliases: &[] },
        Codepoint { codepoint: 0x1074E, name: "LINEAR A SIGN A711 X", aliases: &[] },
        Codepoint { codepoint: 0x1074F, name: "LINEAR A SIGN A712 Y", aliases: &[] },
        Codepoint { codepoint: 0x10750, name: "LINEAR A SIGN A713 OMEGA", aliases: &[] },
        Codepoint { codepoint: 0x10751, name: "LINEAR A SIGN A714 ABB", aliases: &[] },
        Codepoint { codepoint: 0x10752, name: "LINEAR A SIGN A715 BB", aliases: &[] },
        Codepoint { codepoint: 0x10753, name: "LINEAR A SIGN A717 DD", aliases: &[] },
        Codepoint { codepoint: 0x10754, name: "LINEAR A SIGN A726 EYYY", aliases: &[] },
        Codepoint { codepoint: 0x10755, name: "LINEAR A SIGN A732 JE", aliases: &[] },
        Codepoint { codepoint: 0x10760, name: "LINEAR A SIGN A800", aliases: &[] },
        Codepoint { codepoint: 0x10761, name: "LINEAR A SIGN A801", aliases: &[] },
        Codepoint { codepoint: 0x10762, name: "LINEAR A SIGN A802", aliases: &[] },
        Codepoint { codepoint: 0x10763, name: "LINEAR A SIGN A803", aliases: &[] },
        Codepoint { codepoint: 0x10764, name: "LINEAR A SIGN A804", aliases: &[] },
        Codepoint { codepoint: 0x10765, name: "LINEAR A SIGN A805", aliases: &[] },
        Codepoint { codepoint: 0x10766, name: "LINEAR A SIGN A806", aliases: &[] },
        Codepoint { codepoint: 0x10767, name: "LINEAR A SIGN A807", aliases: &[] },
        Codepoint { codepoint: 0x10780, name: "MODIFIER LETTER SMALL CAPITAL AA", aliases: &[] },
        Codepoint { codepoint: 0x10781, name: "MODIFIER LETTER SUPERSCRIPT TRIANGULAR COLON", aliases: &[] },
        Codepoint { codepoint: 0x10782, name: "MODIFIER LETTER SUPERSCRIPT HALF TRIANGULAR COLON", aliases: &[] },
        Codepoint { codepoint: 0x10783, name: "MODIFIER LETTER SMALL AE", aliases: &[] },
        Codepoint { codepoint: 0x10784, name: "MODIFIER LETTER SMALL CAPITAL B", aliases: &[] },
        Codepoint { codepoint: 0x10785, name: "MODIFIER LETTER SMALL B WITH HOOK", aliases: &[] },
        Codepoint { codepoint: 0x10787, name: "MODIFIER LETTER SMALL DZ DIGRAPH", aliases: &[] },
        Codepoint { codepoint: 0x10788, name: "MODIFIER LETTER SMALL DZ DIGRAPH WITH RETROFLEX HOOK", aliases: &[] },
        Codepoint { codepoint: 0x10789, name: "MODIFIER LETTER SMALL DZ DIGRAPH WITH CURL", aliases: &[] },
        Codepoint { codepoint: 0x1078A, name: "MODIFIER LETTER SMALL DEZH DIGRAPH", aliases: &[] },
        Codepoint { codepoint: 0x1078B, name: "MODIFIER LETTER SMALL D WITH TAIL", aliases: &[] },
        Codepoint { codepoint: 0x1078C, name: "MODIFIER LETTER SMALL D WITH HOOK", aliases: &[] },
        Codepoint { codepoint: 0x1078D, name: "MODIFIER LETTER SMALL D WITH HOOK AND TAIL", aliases: &[] },
        Codepoint { codepoint: 0x1078E, name: "MODIFIER LETTER SMALL REVERSED E", aliases: &[] },
        Codepoint { codepoint: 0x1078F, name: "MODIFIER LETTER SMALL CLOSED REVERSED OPEN E", aliases: &[] },
        Codepoint { codepoint: 0x10790, name: "MODIFIER LETTER SMALL FENG DIGRAPH", aliases: &[] },
        Codepoint { codepoint: 0x10791, name: "MODIFIER LETTER SMALL RAMS HORN", aliases: &[] },
        Codepoint { codepoint: 0x10792, name: "MODIFIER LETTER SMALL CAPITAL G", aliases: &[] },
        Codepoint { codepoint: 0x10793, name: "MODIFIER LETTER SMALL G WITH HOOK", aliases: &[] },
        Codepoint { codepoint: 0x10794, name: "MODIFIER LETTER SMALL CAPITAL G WITH HOOK", aliases: &[] },
        Codepoint { codepoint: 0x10795, name: "MODIFIER LETTER SMALL H WITH STROKE", aliases: &[] },
        Codepoint { codepoint: 0x10796, name: "MODIFIER LETTER SMALL CAPITAL H", aliases: &[] },
        Codepoint { codepoint: 0x10797, name: "MODIFIER LETTER SMALL HENG WITH HOOK", aliases: &[] },
    ];
    assert(v@ =~= codepoint_table_458());
    v
}

pub open spec fn codepoint_table_459() -> Seq<Codepoint> {
    seq![
        Codepoint { codepoint: 0x10798, name: "MODIFIER LETTER SMALL DOTLESS J WITH STROKE AND HOOK", aliases: &[] },
        Codepoint { codepoint: 0x10799, name: "MODIFIER LETTER SMALL LS DIGRAPH", aliases: &[] },
        Codepoint { codepoint: 0x1079A, name: "MODIFIER LETTER SMALL LZ DIGRAPH", aliases: &[] },
        Codepoint { codepoint: 0x1079B, name: "MODIFIER LETTER SMALL L WITH BELT", aliases: &[] },
        Codepoint { codepoint: 0x1079C, name: "MODIFIER LETTER SMALL CAPITAL L WITH BELT", aliases: &[] },
        Codepoint { codepoint: 0x1079D, name: "MODIFIER LETTER SMALL L WITH RETROFLEX HOOK AND BELT", aliases: &[] },
        Codepoint { codepoint: 0x1079E, name: "MODIFIER LETTER SMALL LEZH", aliases: &[] },
        Codepoint { codepoint: 0x1079F, name: "MODIFIER LETTER SMALL LEZH WITH RETROFLEX HOOK", aliases: &[] },
        Codepoint { codepoint: 0x107A0, name: "MODIFIER LETTER SMALL TURNED Y", aliases: &[] },
        Codepoint { codepoint: 0x107A1, name: "MODIFIER LETTER SMALL TURNED Y WITH BELT", aliases: &[] },
        Codepoint { codepoint: 0x107A2, name: "MODIFIER LETTER SMALL O WITH STROKE", aliases: &[] },
        Codepoint { codepoint: 0x107A3, name: "MODIFIER LETTER SMALL CAPITAL OE", aliases: &[] },
        Codepoint { codepoint: 0x107A4, name: "MODIFIER LETTER SMALL CLOSED OMEGA", aliases: &[] },
        Codepoint { codepoint: 0x107A5, name: "MODIFIER LETTER SMALL Q", aliases: &[] },
        Codepoint { codepoint: 0x107A6, name: "MODIFIER LETTER SMALL TURNED R WITH LONG LEG", aliases: &[] },
        Codepoint { codepoint: 0x107A7, name: "MODIFIER LETTER SMALL TURNED R WITH LONG LEG AND RETROFLEX HOOK", aliases: &[] },
        Codepoint { codepoint: 0x107A8, name: "MODIFIER LETTER SMALL R WITH TAIL", aliases: &[] },
        Codepoint { codepoint: 0x107A9, name: "MODIFIER LETTER SMALL R WITH FISHHOOK", aliases: &[] },
        Codepoint { codepoint: 0x107AA, name: "MODIFIER LETTER SMALL CAPITAL R", aliases: &[] },
        Codepoint { codepoint: 0x107AB, name: "MODIFIER LETTER SMALL TC DIGRAPH WITH CURL", aliases: &[] },
        Codepoint { codepoint: 0x107AC, name: "MODIFIER LETTER SMALL TS DIGRAPH", aliases: &[] },
        Codepoint { codepoint: 0x107AD, name: "MODIFIER LETTER SMALL TS DIGRAPH WITH RETROFLEX HOOK", aliases: &[] },
        Codepoint { codepoint: 0x107AE, name: "MODIFIER LETTER SMALL TESH DIGRAPH", aliases: &[] },
        Codepoint { codepoint: 0x107AF, name: "MODIFIER LETTER SMALL T WITH RETROFLEX HOOK", aliases: &[] },
        Codepoint { codepoint: 0x107B0, name: "MODIFIER LETTER SMALL V WITH RIGHT HOOK", aliases: &[] },
        Codepoint { codepoint: 0x107B2, name: "MODIFIER LETTER SMALL CAPITAL Y", aliases: &[] },
        Codepoint { codepoint: 0x107B3, name: "MODIFIER LETTER GLOTTAL STOP WITH STROKE", aliases: &[] },
        Codepoint { codepoint: 0x107B4, name: "MODIFIER LETTER REVERSED GLOTTAL STOP WITH STROKE", aliases: &[] },
        Codepoint { codepoint: 0x107B5, name: "MODIFIER LETTER BILABIAL CLICK", aliases: &[] },
        Codepoint { codepoint: 0x107B6, name: "MODIFIER LETTER DENTAL CLICK", aliases: &[] },
        Codepoint { codepoint: 0x107B7, name: "MODIFIER LETTER LATERAL CLICK", aliases: &[] },
        Codepoint { codepoint: 0x107B8, name: "MODIFIER LETTER ALVEOLAR CLICK", aliases: &[] },
        Codepoint { codepoint: 0x107B9, name: "MODIFIER LETTER RETROFLEX CLICK WITH RETROFLEX HOOK", aliases: &[] },
        Codepoint { codepoint: 0x107BA, name: "MODIFIER LETTER SMALL S WITH CURL", aliases: &[] },
        Codepoint { codepoint: 0x10800, name: "CYPRIOT SYLLABLE A", aliases: &[] },
        Codepoint { codepoint: 0x10801, name: "CYPRIOT SYLLABLE E", aliases: &[] },
        Codepoint { codepoint: 0x10802, name: "CYPRIOT SYLLABLE I", aliases: &[] },
        Codepoint { codepoint: 0x10803, name: "CYPRIOT SYLLABLE O", aliases: &[] },
        Codepoint { codepoint: 0x10804, name: "CYPRIOT SYLLABLE U", aliases: &[] },
        Codepoint { codepoint: 0x10805, name: "CYPRIOT SYLLABLE JA", aliases: &[] },
    ]
}

fn all_codepoints_459() -> (v: Vec<Codepoint>)
    ensures
        v@ == codepoint_table_459(),
{
    let v = vec![
        Codepoint { codepoint: 0x10798, name: "MODIFIER LETTER SMALL DOTLESS J WITH STROKE AND HOOK", aliases: &[] },
        Codepoint { codepoint: 0x10799, name: "MODIFIER LETTER SMALL LS DIGRAPH", aliases: &[] },
        Codepoint { codepoint: 0x1079A, name: "MODIFIER LETTER SMALL LZ DIGRAPH", aliases: &[] },
        Codepoint { codepoint: 0x1079B, name: "MODIFIER LETTER SMALL L WITH BELT", aliases: &[] },
        Codepoint { codepoint: 0x1079C, name: "MODIFIER LETTER SMALL CAPITAL L WITH BELT", aliases: &[] },
        Codepoint { codepoint: 0x1079D, name: "MODIFIER LETTER SMALL L WITH RETROFLEX HOOK AND BELT", aliases: &[] },
        Codepoint { codepoint: 0x1079E, name: "MODIFIER LETTER SMALL LEZH", aliases: &[] },
        Codepoint { codepoint: 0x1079F, name: "MODIFIER LETTER SMALL LEZH WITH RETROFLEX HOOK", aliases: &[] },
        Codepoint { codepoint: 0x107A0, name: "MODIFIER LETTER SMALL TURNED Y", aliases: &[] },
        Codepoint { codepoint: 0x107A1, name: "MODIFIER LETTER SMALL TURNED Y WITH BELT", aliases: &[] },
        Codepoint { codepoint: 0x107A2, name: "MODIFIER LETTER SMALL O WITH STROKE", aliases: &[] },
        Codepoint { codepoint: 0x107A3, name: "MODIFIER LETTER SMALL CAPITAL OE", aliases: &[] },
        Codepoint { codepoint: 0x107A4, name: "MODIFIER LETTER SMALL CLOSED OMEGA", aliases: &[] },
        Codepoint { codepoint: 0x107A5, name: "MODIFIER LETTER SMALL Q", aliases: &[] },
        Codepoint { codepoint: 0x107A6, name: "MODIFIER LETTER SMALL TURNED R WITH LONG LEG", aliases: &[] },
        Codepoint { codepoint: 0x107A7, name: "MODIFIER LETTER SMALL TURNED R WITH LONG LEG AND RETROFLEX HOOK", aliases: &[] },
        Codepoint { codepoint: 0x107A8, name: "MODIFIER LETTER SMALL R WITH TAIL", aliases: &[] },
        Codepoint { codepoint: 0x107A9, name: "MODIFIER LETTER SMALL R WITH FISHHOOK", aliases: &[] },
        Codepoint { codepoint: 0x107AA, name: "MODIFIER LETTER SMALL CAPITAL R", aliases: &[] },
        Codepoint { codepoint: 0x107AB, name: "MODIFIER LETTER SMALL TC DIGRAPH WITH CURL", aliases: &[] },
        Codepoint { codepoint: 0x107AC, name: "MODIFIER LETTER SMALL TS DIGRAPH", aliases: &[] },
        Codepoint { codepoint: 0x107AD, name: "MODIFIER LETTER SMALL TS DIGRAPH WITH RETROFLEX HOOK", aliases: &[] },
        Codepoint { codepoint: 0x107AE, name: "MODIFIER LETTER SMALL TESH DIGRAPH", aliases: &[] },
        Codepoint { codepoint: 0x107AF, name: "MODIFIER LETTER SMALL T WITH RETROFLEX HOOK", aliases: &[] },
        Codepoint { codepoint: 0x107B0, name: "MODIFIER LETTER SMALL V WITH RIGHT HOOK", aliases: &[] },
        Codepoint { codepoint: 0x107B2, name: "MODIFIER LETTER SMALL CAPITAL Y", aliases: &[] },
        Codepoint { codepoint: 0x107B3, name: "MODIFIER LETTER GLOTTAL STOP WITH STROKE", aliases: &[] },
        Codepoint { codepoint: 0x107B4, name: "MODIFIER LETTER REVERSED GLOTTAL STOP WITH STROKE", aliases: &[] },
        Codepoint { codepoint: 0x107B5, name: "MODIFIER LETTER BILABIAL CLICK", aliases: &[] },
        Codepoint { codepoint: 0x107B6, name: "MODIFIER LETTER DENTAL CLICK", aliases: &[] },
        Codepoint { codepoint: 0x107B7, name: "MODIFIER LETTER LATERAL CLICK", aliases: &[] },
        Codepoint { codepoint: 0x107B8, name: "MODIFIER LETTER ALVEOLAR CLICK", aliases: &[] },
        Codepoint { codepoint: 0x107B9, name: "MODIFIER LETTER RETROFLEX CLICK WITH RETROFLEX HOOK", aliases: &[] },
        Codepoint { codepoint: 0x107BA, name: "MODIFIER LETTER SMALL S WITH CURL", aliases: &[] },
        Codepoint { codepoint: 0x10800, name: "CYPRIOT SYLLABLE A", aliases: &[] },
        Codepoint { codepoint: 0x10801, name: "CYPRIOT SYLLABLE E", aliases: &[] },
        Codepoint { codepoint: 0x10802, name: "CYPRIOT SYLLABLE I", aliases: &[] },
        Codepoint { codepoint: 0x10803, name: "CYPRIOT SYLLABLE O", aliases: &[] },
        Codepoint { codepoint: 0x10804, name: "CYPRIOT SYLLABLE U", aliases: &[] },
        Codepoint { codepoint: 0x10805, name: "CYPRIOT SYLLABLE JA", aliases: &[] },
    ];
    assert(v@ =~= codepoint_table_459());
    v
}

/// The entries from position 17600 of the table, 800 at most.
pub open spec fn codepoint_group_22() -> Seq<Codepoint> {
    codepoint_table_440() + codepoint_table_441() + codepoint_table_442() + codepoint_table_443() + codepoint_table_444() + codepoint_table_445() + codepoint_table_446() + codepoint_table_447() + codepoint_table_448() + codepoint_table_449() + codepoint_table_450() + codepoint_table_451() + codepoint_table_452() + codepoint_table_453() + codepoint_table_454() + codepoint_table_455() + codepoint_table_456() + codepoint_table_457() + codepoint_table_458() + codepoint_table_459()
}

pub fn all_codepoints_group_22() -> (v: Vec<Codepoint>)
    ensures
        v@ == codepoint_group_22(),
{
    let mut v = all_codepoints_440();
    let mut part = all_codepoints_441();
    v.append(&mut part);
    let mut part = all_codepoints_442();
    v.append(&mut part);
    let mut part = all_codepoints_443();
    v.append(&mut part);
    let mut part = all_codepoints_444();
    v.append(&mut part);
    let mut part = all_codepoints_445();
    v.append(&mut part);
    let mut part = all_codepoints_446();
    v.append(&mut part);
    let mut part = all_codepoints_447();
    v.append(&mut part);
    let mut part = all_codepoints_448();
    v.append(&mut part);
    let mut part = all_codepoints_449();
    v.append(&mut part);
    let mut part = all_codepoints_450();
    v.append(&mut part);
    let mut part = all_codepoints_451();
    v.append(&mut part);
    let mut part = all_codepoints_452();
    v.append(&mut part);
    let mut part = all_codepoints_453();
    v.append(&mut part);
    let mut part = all_codepoints_454();
    v.append(&mut part);
    let mut part = all_codepoints_455();
    v.append(&mut part);
    let mut part = all_codepoints_456();
    v.append(&mut part);
    let mut part = all_codepoints_457();
    v.append(&mut part);
    let mut part = all_codepoints_458();
    v.append(&mut part);
    let mut part = all_codepoints_459();
    v.append(&mut part);
    v
}

pub open spec fn codepoint_table_460() -> Seq<Codepoint> {
    seq![
        Codepoint { codepoint: 0x10808, name: "CYPRIOT SYLLABLE JO", aliases: &[] },
        Codepoint { codepoint: 0x1080A, name: "CYPRIOT SYLLABLE KA", aliases: &[] },
        Codepoint { codepoint: 0x1080B, name: "CYPRIOT SYLLABLE KE", aliases: &[] },
        Codepoint { codepoint: 0x1080C, name: "CYPRIOT SYLLABLE KI", aliases: &[] },
        Codepoint { codepoint: 0x1080D, name: "CYPRIOT SYLLABLE KO", aliases: &[] },
        Codepoint { codepoint: 0x1080E, name: "CYPRIOT SYLLABLE KU", aliases: &[] },
        Codepoint { codepoint: 0x1080F, name: "CYPRIOT SYLLABLE LA", aliases: &[] },
        Codepoint { codepoint: 0x10810, name: "CYPRIOT SYLLABLE LE", aliases: &[] },
        Codepoint { codepoint: 0x10811, name: "CYPRIOT SYLLABLE LI", aliases: &[] },
        Codepoint { codepoint: 0x10812, name: "CYPRIOT SYLLABLE LO", aliases: &[] },
        Codepoint { codepoint: 0x10813, name: "CYPRIOT SYLLABLE LU", aliases: &[] },
        Codepoint { codepoint: 0x10814, name: "CYPRIOT SYLLABLE MA", aliases: &[] },
        Codepoint { codepoint: 0x10815, name: "CYPRIOT SYLLABLE ME", aliases: &[] },
        Codepoint { codepoint: 0x10816, name: "CYPRIOT SYLLABLE MI", aliases: &[] },
        Codepoint { codepoint: 0x10817, name: "CYPRIOT SYLLABLE MO", aliases: &[] },
        Codepoint { codepoint: 0x10818, name: "CYPRIOT SYLLABLE MU", aliases: &[] },
        Codepoint { codepoint: 0x10819, name: "CYPRIOT SYLLABLE NA", aliases: &[] },
        Codepoint { codepoint: 0x1081A, name: "CYPRIOT SYLLABLE NE", aliases: &[] },
        Codepoint { codepoint: 0x1081B, name: "CYPRIOT SYLLABLE NI", aliases: &[] },
        Codepoint { codepoint: 0x1081C, name: "CYPRIOT SYLLABLE NO", aliases: &[] },
        Codepoint { codepoint: 0x1081D, name: "CYPRIOT SYLLABLE NU", aliases: &[] },
        Codepoint { codepoint: 0x1081E, name: "CYPRIOT SYLLABLE PA", aliases: &[] },
        Codepoint { codepoint: 0x1081F, name: "CYPRIOT SYLLABLE PE", aliases: &[] },
        Codepoint { codepoint: 0x10820, name: "CYPRIOT SYLLABLE PI", aliases: &[] },
        Codepoint { codepoint: 0x10821, name: "CYPRIOT SYLLABLE PO", aliases: &[] },
        Codepoint { codepoint: 0x10822, name: "CYPRIOT SYLLABLE PU", aliases: &[] },
        Codepoint { codepoint: 0x10823, name: "CYPRIOT SYLLABLE RA", aliases: &[] },
        Codepoint { codepoint: 0x10824, name: "CYPRIOT SYLLABLE RE", aliases: &[] },
        Codepoint { codepoint: 0x10825, name: "CYPRIOT SYLLABLE RI", aliases: &[] },
        Codepoint { codepoint: 0x10826, name: "CYPRIOT SYLLABLE RO", aliases: &[] },
        Codepoint { codepoint: 0x10827, name: "CYPRIOT SYLLABLE RU", aliases: &[] },
        Codepoint { codepoint: 0x10828, name: "CYPRIOT SYLLABLE SA", aliases: &[] },
        Codepoint { codepoint: 0x10829, name: "CYPRIOT SYLLABLE SE", aliases: &[] },
        Codepoint { codepoint: 0x1082A, name: "CYPRIOT SYLLABLE SI", aliases: &[] },
        Codepoint { codepoint: 0x1082B, name: "CYPRIOT SYLLABLE SO", aliases: &[] },
        Codepoint { codepoint: 0x1082C, name: "CYPRIOT SYLLABLE SU", aliases: &[] },
        Codepoint { codepoint: 0x1082D, name: "CYPRIOT SYLLABLE TA", aliases: &[] },
        Codepoint { codepoint: 0x1082E, name: "CYPRIOT SYLLABLE TE", aliases: &[] },
        Codepoint { codepoint: 0x1082F, name: "CYPRIOT SYLLABLE TI", aliases: &[] },
        Codepoint { codepoint: 0x10830, name: "CYPRIOT SYLLABLE TO", aliases: &[] },
    ]
}

fn all_codepoints_460() -> (v: Vec<Codepoint>)
    ensures
        v@ == codepoint_table_460(),
{
    let v = vec![
        Codepoint { codepoint: 0x10808, name: "CYPRIOT SYLLABLE JO", aliases: &[] },
        Codepoint { codepoint: 0x1080A, name: "CYPRIOT SYLLABLE KA", aliases: &[] },
        Codepoint { codepoint: 0x1080B, name: "CYPRIOT SYLLABLE KE", aliases: &[] },
        Codepoint { codepoint: 0x1080C, name: "CYPRIOT SYLLABLE KI", aliases: &[] },
        Codepoint { codepoint: 0x1080D, name: "CYPRIOT SYLLABLE KO", aliases: &[] },
        Codepoint { codepoint: 0x1080E, name: "CYPRIOT SYLLABLE KU", aliases: &[] },
        Codepoint { codepoint: 0x1080F, name: "CYPRIOT SYLLABLE LA", aliases: &[] },
        Codepoint { codepoint: 0x10810, name: "CYPRIOT SYLLABLE LE", aliases: &[] },
        Codepoint { codepoint: 0x10811, name: "CYPRIOT SYLLABLE LI", aliases: &[] },
        Codepoint { codepoint: 0x10812, name: "CYPRIOT SYLLABLE LO", aliases: &[] },
        Codepoint { codepoint: 0x10813, name: "CYPRIOT SYLLABLE LU", aliases: &[] },
        Codepoint { codepoint: 0x10814, name: "CYPRIOT SYLLABLE MA", aliases: &[] },
        Codepoint { codepoint: 0x10815, name: "CYPRIOT SYLLABLE ME", aliases: &[] },
        Codepoint { codepoint: 0x10816, name: "CYPRIOT SYLLABLE MI", aliases: &[] },
        Codepoint { codepoint: 0x10817, name: "CYPRIOT SYLLABLE MO", aliases: &[] },
        Codepoint { codepoint: 0x10818, name: "CYPRIOT SYLLABLE MU", aliases: &[] },
        Codepoint { codepoint: 0x10819, name: "CYPRIOT SYLLABLE NA", aliases: &[] },
        Codepoint { codepoint: 0x1081A, name: "CYPRIOT SYLLABLE NE", aliases: &[] },
        Codepoint { codepoint: 0x1081B, name: "CYPRIOT SYLLABLE NI", aliases: &[] },
        Codepoint { codepoint: 0x1081C, name: "CYPRIOT SYLLABLE NO", aliases: &[] },
        Codepoint { codepoint: 0x1081D, name: "CYPRIOT SYLLABLE NU", aliases: &[] },
        Codepoint { codepoint: 0x1081E, name: "CYPRIOT SYLLABLE PA", aliases: &[] },
        Codepoint { codepoint: 0x1081F, name: "CYPRIOT SYLLABLE PE", aliases: &[] },
        Codepoint { codepoint: 0x10820, name: "CYPRIOT SYLLABLE PI", aliases: &[] },
        Codepoint { codepoint: 0x10821, name: "CYPRIOT SYLLABLE PO", aliases: &[] },
        Codepoint { codepoint: 0x10822, name: "CYPRIOT SYLLABLE PU", aliases: &[] },
        Codepoint { codepoint: 0x10823, name: "CYPRIOT SYLLABLE RA", aliases: &[] },
        Codepoint { codepoint: 0x10824, name: "CYPRIOT SYLLABLE RE", aliases: &[] },
        Codepoint { codepoint: 0x10825, name: "CYPRIOT SYLLABLE RI", aliases: &[] },
        Codepoint { codepoint: 0x10826, name: "CYPRIOT SYLLABLE RO", aliases: &[] },
        Codepoint { codepoint: 0x10827, name: "CYPRIOT SYLLABLE RU", aliases: &[] },
        Codepoint { codepoint: 0x10828, name: "CYPRIOT SYLLABLE SA", aliases: &[] },
        Codepoint { codepoint: 0x10829, name: "CYPRIOT SYLLABLE SE", aliases: &[] },
        Codepoint { codepoint: 0x1082A, name: "CYPRIOT SYLLABLE SI", aliases: &[] },
        Codepoint { codepoint: 0x1082B, name: "CYPRIOT SYLLABLE SO", aliases: &[] },
        Codepoint { codepoint: 0x1082C, name: "CYPRIOT SYLLABLE SU", aliases: &[] },
        Codepoint { codepoint: 0x1082D, name: "CYPRIOT SYLLABLE TA", aliases: &[] },
        Codepoint { codepoint: 0x1082E, name: "CYPRIOT SYLLABLE TE", aliases: &[] },
        Codepoint { codepoint: 0x1082F, name: "CYPRIOT SYLLABLE TI", aliases: &[] },
        Codepoint { codepoint: 0x10830, name: "CYPRIOT SYLLABLE TO", aliases: &[] },
    ];
    assert(v@ =~= codepoint_table_460());
    v
}

pub open spec fn codepoint_table_461() -> Seq<Codepoint> {
    seq![
        Codepoint { codepoint: 0x10831, name: "CYPRIOT SYLLABLE TU", aliases: &[] },
        Codepoint { codepoint: 0x10832, name: "CYPRIOT SYLLABLE WA", aliases: &[] },
        Codepoint { codepoint: 0x10833, name: "CYPRIOT SYLLABLE WE", aliases: &[] },
        Codepoint { codepoint: 0x10834, name: "CYPRIOT SYLLABLE WI", aliases: &[] },
        Codepoint { codepoint: 0x10835, name: "CYPRIOT SYLLABLE WO", aliases: &[] },
        Codepoint { codepoint: 0x10837, name: "CYPRIOT SYLLABLE XA", aliases: &[] },
        Codepoint { codepoint: 0x10838, name: "CYPRIOT SYLLABLE XE", aliases: &[] },
        Codepoint { codepoint: 0x1083C, name: "CYPRIOT SYLLABLE ZA", aliases: &[] },
        Codepoint { codepoint: 0x1083F, name: "CYPRIOT SYLLABLE ZO", aliases: &[] },
        Codepoint { codepoint: 0x10840, name: "IMPERIAL ARAMAIC LETTER ALEPH", aliases: &[] },
        Codepoint { codepoint: 0x10841, name: "IMPERIAL ARAMAIC LETTER BETH", aliases: &[] },
        Codepoint { codepoint: 0x10842, name: "IMPERIAL ARAMAIC LETTER GIMEL", aliases: &[] },
        Codepoint { codepoint: 0x10843, name: "IMPERIAL ARAMAIC LETTER DALETH", aliases: &[] },
        Codepoint { codepoint: 0x10844, name: "IMPERIAL ARAMAIC LETTER HE", aliases: &[] },
        Codepoint { codepoint: 0x10845, name: "IMPERIAL ARAMAIC LETTER WAW", aliases: &[] },
        Codepoint { codepoint: 0x10846, name: "IMPERIAL ARAMAIC LETTER ZAYIN", aliases: &[] },
        Codepoint { codepoint: 0x10847, name: "IMPERIAL ARAMAIC LETTER HETH", aliases: &[] },
        Codepoint { codepoint: 0x10848, name: "IMPERIAL ARAMAIC LETTER TETH", aliases: &[] },
        Codepoint { codepoint: 0x10849, name: "IMPERIAL ARAMAIC LETTER YODH", aliases: &[] },
        Codepoint { codepoint: 0x1084A, name: "IMPERIAL ARAMAIC LETTER KAPH", aliases: &[] },
        Codepoint { codepoint: 0x1084B, name: "IMPERIAL ARAMAIC LETTER LAMEDH", aliases: &[] },
        Codepoint { codepoint: 0x1084C, name: "IMPERIAL ARAMAIC LETTER MEM", aliases: &[] },
        Codepoint { codepoint: 0x1084D, name: "IMPERIAL ARAMAIC LETTER NUN", aliases: &[] },
        Codepoint { codepoint: 0x1084E, name: "IMPERIAL ARAMAIC LETTER SAMEKH", aliases: &[] },
        Codepoint { codepoint: 0x1084F, name: "IMPERIAL ARAMAIC LETTER AYIN", aliases: &[] },
        Codepoint { codepoint: 0x10850, name: "IMPERIAL ARAMAIC LETTER PE", aliases: &[] },
        Codepoint { codepoint: 0x10851, name: "IMPERIAL ARAMAIC LETTER SADHE", aliases: &[] },
        Codepoint { codepoint: 0x10852, name: "IMPERIAL ARAMAIC LETTER QOPH", aliases: &[] },
        Codepoint { codepoint: 0x10853, name: "IMPERIAL ARAMAIC LETTER RESH", aliases: &[] },
        Codepoint { codepoint: 0x10854, name: "IMPERIAL ARAMAIC LETTER SHIN", aliases: &[] },
        Codepoint { codepoint: 0x10855, name: "IMPERIAL ARAMAIC LETTER TAW", aliases: &[] },
        Codepoint { codepoint: 0x10857, name: "IMPERIAL ARAMAIC SECTION SIGN", aliases: &[] },
        Codepoint { codepoint: 0x10858, name: "IMPERIAL ARAMAIC NUMBER ONE", aliases: &[] },
        Codepoint { codepoint: 0x10859, name: "IMPERIAL ARAMAIC NUMBER TWO", aliases: &[] },
        Codepoint { codepoint: 0x1085A, name: "IMPERIAL ARAMAIC NUMBER THREE", aliases: &[] },
        Codepoint { codepoint: 0x1085B, name: "IMPERIAL ARAMAIC NUMBER TEN", aliases: &[] },
        Codepoint { codepoint: 0x1085C, name: "IMPERIAL ARAMAIC NUMBER TWENTY", aliases: &[] },
        Codepoint { codepoint: 0x1085D, name: "IMPERIAL ARAMAIC NUMBER ONE HUNDRED", aliases: &[] },
        Codepoint { codepoint: 0x1085E, name: "IMPERIAL ARAMAIC NUMBER ONE THOUSAND", aliases: &[] },
        Codepoint { codepoint: 0x1085F, name: "IMPERIAL ARAMAIC NUMBER TEN THOUSAND", aliases: &[] },
    ]
}

fn all_codepoints_461() -> (v: Vec<Codepoint>)
    ensures
        v@ == codepoint_table_461(),
{
    let v = vec![
        Codepoint { codepoint: 0x10831, name: "CYPRIOT SYLLABLE TU", aliases: &[] },
        Codepoint { codepoint: 0x10832, name: "CYPRIOT SYLLABLE WA", aliases: &[] },
        Codepoint { codepoint: 0x10833, name: "CYPRIOT SYLLABLE WE", aliases: &[] },
        Codepoint { codepoint: 0x10834, name: "CYPRIOT SYLLABLE WI", aliases: &[] },
        Codepoint { codepoint: 0x10835, name: "CYPRIOT SYLLABLE WO", aliases: &[] },
        Codepoint { codepoint: 0x10837, name: "CYPRIOT SYLLABLE XA", aliases: &[] },
        Codepoint { codepoint: 0x10838, name: "CYPRIOT SYLLABLE XE", aliases: &[] },
        Codepoint { codepoint: 0x1083C, name: "CYPRIOT SYLLABLE ZA", aliases: &[] },
        Codepoint { codepoint: 0x1083F, name: "CYPRIOT SYLLABLE ZO", aliases: &[] },
        Codepoint { codepoint: 0x10840, name: "IMPERIAL ARAMAIC LETTER ALEPH", aliases: &[] },
        Codepoint { codepoint: 0x10841, name: "IMPERIAL ARAMAIC LETTER BETH", aliases: &[] },
        Codepoint { codepoint: 0x10842, name: "IMPERIAL ARAMAIC LETTER GIMEL", aliases: &[] },
        Codepoint { codepoint: 0x10843, name: "IMPERIAL ARAMAIC LETTER DALETH", aliases: &[] },
        Codepoint { codepoint: 0x10844, name: "IMPERIAL ARAMAIC LETTER HE", aliases: &[] },
        Codepoint { codepoint: 0x10845, name: "IMPERIAL ARAMAIC LETTER WAW", aliases: &[] },
        Codepoint { codepoint: 0x10846, name: "IMPERIAL ARAMAIC LETTER ZAYIN", aliases: &[] },
        Codepoint { codepoint: 0x10847, name: "IMPERIAL ARAMAIC LETTER HETH", aliases: &[] },
        Codepoint { codepoint: 0x10848, name: "IMPERIAL ARAMAIC LETTER TETH", aliases: &[] },
        Codepoint { codepoint: 0x10849, name: "IMPERIAL ARAMAIC LETTER YODH", aliases: &[] },
        Codepoint { codepoint: 0x1084A, name: "IMPERIAL ARAMAIC LETTER KAPH", aliases: &[] },
        Codepoint { codepoint: 0x1084B, name: "IMPERIAL ARAMAIC LETTER LAMEDH", aliases: &[] },
        Codepoint { codepoint: 0x1084C, name: "IMPERIAL ARAMAIC LETTER MEM", aliases: &[] },
        Codepoint { codepoint: 0x1084D, name: "IMPERIAL ARAMAIC LETTER NUN", aliases: &[] },
        Codepoint { codepoint: 0x1084E, name: "IMPERIAL ARAMAIC LETTER SAMEKH", aliases: &[] },
        Codepoint { codepoint: 0x1084F, name: "IMPERIAL ARAMAIC LETTER AYIN", aliases: &[] },
        Codepoint { codepoint: 0x10850, name: "IMPERIAL ARAMAIC LETTER PE", aliases: &[] },
        Codepoint { codepoint: 0x10851, name: "IMPERIAL ARAMAIC LETTER SADHE", aliases: &[] },
        Codepoint { codepoint: 0x10852, name: "IMPERIAL ARAMAIC LETTER QOPH", aliases: &[] },
        Codepoint { codepoint: 0x10853, name: "IMPERIAL ARAMAIC LETTER RESH", aliases: &[] },
        Codepoint { codepoint: 0x10854, name: "IMPERIAL ARAMAIC LETTER SHIN", aliases: &[] },
        Codepoint { codepoint: 0x10855, name: "IMPERIAL ARAMAIC LETTER TAW", aliases: &[] },
        Codepoint { codepoint: 0x10857, name: "IMPERIAL ARAMAIC SECTION SIGN", aliases: &[] },
        Codepoint { codepoint: 0x10858, name: "IMPERIAL ARAMAIC NUMBER ONE", aliases: &[] },
        Codepoint { codepoint: 0x10859, name: "IMPERIAL ARAMAIC NUMBER TWO", aliases: &[] },
        Codepoint { codepoint: 0x1085A, name: "IMPERIAL ARAMAIC NUMBER THREE", aliases: &[] },
        Codepoint { codepoint: 0x1085B, name: "IMPERIAL ARAMAIC NUMBER TEN", aliases: &[] },
        Codepoint { codepoint: 0x1085C, name: "IMPERIAL ARAMAIC NUMBER TWENTY", aliases: &[] },
        Codepoint { codepoint: 0x1085D, name: "IMPERIAL ARAMAIC NUMBER ONE HUNDRED", aliases: &[] },
        Codepoint { codepoint: 0x1085E, name: "IMPERIAL ARAMAIC NUMBER ONE THOUSAND", aliases: &[] },
        Codepoint { codepoint: 0x1085F, name: "IMPERIAL ARAMAIC NUMBER TEN THOUSAND", aliases: &[] },
    ];
    assert(v@ =~= codepoint_table_461());
    v
}

pub open spec fn codepoint_table_462() -> Seq<Codepoint> {
    seq![
        Codepoint { codepoint: 0x10860, name: "PALMYRENE LETTER ALEPH", aliases: &[] },
        Codepoint { codepoint: 0x10861, name: "PALMYRENE LETTER BETH", aliases: &[] },
        Codepoint { codepoint: 0x10862, name: "PALMYRENE LETTER GIMEL", aliases: &[] },
        Codepoint { codepoint: 0x10863, name: "PALMYRENE LETTER DALETH", aliases: &[] },
        Codepoint { codepoint: 0x10864, name: "PALMYRENE LETTER HE", aliases: &[] },
        Codepoint { codepoint: 0x10865, name: "PALMYRENE LETTER WAW", aliases: &[] },
        Codepoint { codepoint: 0x10866, name: "PALMYRENE LETTER ZAYIN", aliases: &[] },
        Codepoint { codepoint: 0x10867, name: "PALMYRENE LETTER HETH", aliases: &[] },
        Codepoint { codepoint: 0x10868, name: "PALMYRENE LETTER TETH", aliases: &[] },
        Codepoint { codepoint: 0x10869, name: "PALMYRENE LETTER YODH", aliases: &[] },
        Codepoint { codepoint: 0x1086A, name: "PALMYRENE LETTER KAPH", aliases: &[] },
        Codepoint { codepoint: 0x1086B, name: "PALMYRENE LETTER LAMEDH", aliases: &[] },
        Codepoint { codepoint: 0x1086C, name: "PALMYRENE LETTER MEM", aliases: &[] },
        Codepoint { codepoint: 0x1086D, name: "PALMYRENE LETTER FINAL NUN", aliases: &[] },
        Codepoint { codepoint: 0x1086E, name: "PALMYRENE LETTER NUN", aliases: &[] },
        Codepoint { codepoint: 0x1086F, name: "PALMYRENE LETTER SAMEKH", aliases: &[] },
        Codepoint { codepoint: 0x10870, name: "PALMYRENE LETTER AYIN", aliases: &[] },
        Codepoint { codepoint: 0x10871, name: "PALMYRENE LETTER PE", aliases: &[] },
        Codepoint { codepoint: 0x10872, name: "PALMYRENE LETTER SADHE", aliases: &[] },
        Codepoint { codepoint: 0x10873, name: "PALMYRENE LETTER QOPH", aliases: &[] },
        Codepoint { codepoint: 0x10874, name: "PALMYRENE LETTER RESH", aliases: &[] },
        Codepoint { codepoint: 0x10875, name: "PALMYRENE LETTER SHIN", aliases: &[] },
        Codepoint { codepoint: 0x10876, name: "PALMYRENE LETTER TAW", aliases: &[] },
        Codepoint { codepoint: 0x10877, name: "PALMYRENE LEFT-POINTING FLEURON", aliases: &[] },
        Codepoint { codepoint: 0x10878, name: "PALMYRENE RIGHT-POINTING FLEURON", aliases: &[] },
        Codepoint { codepoint: 0x10879, name: "PALMYRENE NUMBER ONE", aliases: &[] },
        Codepoint { codepoint: 0x1087A, name: "PALMYRENE NUMBER TWO", aliases: &[] },
        Codepoint { codepoint: 0x1087B, name: "PALMYRENE NUMBER THREE", aliases: &[] },
        Codepoint { codepoint: 0x1087C, name: "PALMYRENE NUMBER FOUR", aliases: &[] },
        Codepoint { codepoint: 0x1087D, name: "PALMYRENE NUMBER FIVE", aliases: &[] },
        Codepoint { codepoint: 0x1087E, name: "PALMYRENE NUMBER TEN", aliases: &[] },
        Codepoint { codepoint: 0x1087F, name: "PALMYRENE NUMBER TWENTY", aliases: &[] },
        Codepoint { codepoint: 0x10880, name: "NABATAEAN LETTER FINAL ALEPH", aliases: &[] },
        Codepoint { codepoint: 0x10881, name: "NABATAEAN LETTER ALEPH", aliases: &[] },
        Codepoint { codepoint: 0x10882, name: "NABATAEAN LETTER FINAL BETH", aliases: &[] },
        Codepoint { codepoint: 0x10883, name: "NABATAEAN LETTER BETH", aliases: &[] },
        Codepoint { codepoint: 0x10884, name: "NABATAEAN LETTER GIMEL", aliases: &[] },
        Codepoint { codepoint: 0x10885, name: "NABATAEAN LETTER DALETH", aliases: &[] },
        Codepoint { codepoint: 0x10886, name: "NABATAEAN LETTER FINAL HE", aliases: &[] },
        Codepoint { codepoint: 0x10887, name: "NABATAEAN LETTER HE", aliases: &[] },
    ]
}

fn all_codepoints_462() -> (v: Vec<Codepoint>)
    ensures
        v@ == codepoint_table_462(),
{
    let v = vec![
        Codepoint { codepoint: 0x10860, name: "PALMYRENE LETTER ALEPH", aliases: &[] },
        Codepoint { codepoint: 0x10861, name: "PALMYRENE LETTER BETH", aliases: &[] },
        Codepoint { codepoint: 0x10862, name: "PALMYRENE LETTER GIMEL", aliases: &[] },
        Codepoint { codepoint: 0x10863, name: "PALMYRENE LETTER DALETH", aliases: &[] },
        Codepoint { codepoint: 0x10864, name: "PALMYRENE LETTER HE", aliases: &[] },
        Codepoint { codepoint: 0x10865, name: "PALMYRENE LETTER WAW", aliases: &[] },
        Codepoint { codepoint: 0x10866, name: "PALMYRENE LETTER ZAYIN", aliases: &[] },
        Codepoint { codepoint: 0x10867, name: "PALMYRENE LETTER HETH", aliases: &[] },
        Codepoint { codepoint: 0x10868, name: "PALMYRENE LETTER TETH", aliases: &[] },
        Codepoint { codepoint: 0x10869, name: "PALMYRENE LETTER YODH", aliases: &[] },
        Codepoint { codepoint: 0x1086A, name: "PALMYRENE LETTER KAPH", aliases: &[] },
        Codepoint { codepoint: 0x1086B, name: "PALMYRENE LETTER LAMEDH", aliases: &[] },
        Codepoint { codepoint: 0x1086C, name: "PALMYRENE LETTER MEM", aliases: &[] },
        Codepoint { codepoint: 0x1086D, name: "PALMYRENE LETTER FINAL NUN", aliases: &[] },
        Codepoint { codepoint: 0x1086E, name: "PALMYRENE LETTER NUN", aliases: &[] },
        Codepoint { codepoint: 0x1086F, name: "PALMYRENE LETTER SAMEKH", aliases: &[] },
        Codepoint { codepoint: 0x10870, name: "PALMYRENE LETTER AYIN", aliases: &[] },
        Codepoint { codepoint: 0x10871, name: "PALMYRENE LETTER PE", aliases: &[] },
        Codepoint { codepoint: 0x10872, name: "PALMYRENE LETTER SADHE", aliases: &[] },
        Codepoint { codepoint: 0x10873, name: "PALMYRENE LETTER QOPH", aliases: &[] },
        Codepoint { codepoint: 0x10874, name: "PALMYRENE LETTER RESH", aliases: &[] },
        Codepoint { codepoint: 0x10875, name: "PALMYRENE LETTER SHIN", aliases: &[] },
        Codepoint { codepoint: 0x10876, name: "PALMYRENE LETTER TAW", aliases: &[] },
        Codepoint { codepoint: 0x10877, name: "PALMYRENE LEFT-POINTING FLEURON", aliases: &[] },
        Codepoint { codepoint: 0x10878, name: "PALMYRENE RIGHT-POINTING FLEURON", aliases: &[] },
        Codepoint { codepoint: 0x10879, name: "PALMYRENE NUMBER ONE", aliases: &[] },
        Codepoint { codepoint: 0x1087A, name: "PALMYRENE NUMBER TWO", aliases: &[] },
        Codepoint { codepoint: 0x1087B, name: "PALMYRENE NUMBER THREE", aliases: &[] },
        Codepoint { codepoint: 0x1087C, name: "PALMYRENE NUMBER FOUR", aliases: &[] },
        Codepoint { codepoint: 0x1087D, name: "PALMYRENE NUMBER FIVE", aliases: &[] },
        Codepoint { codepoint: 0x1087E, name: "PALMYRENE NUMBER TEN", aliases: &[] },
        Codepoint { codepoint: 0x1087F, name: "PALMYRENE NUMBER TWENTY", aliases: &[] },
        Codepoint { codepoint: 0x10880, name: "NABATAEAN LETTER FINAL ALEPH", aliases: &[] },
        Codepoint { codepoint: 0x10881, name: "NABATAEAN LETTER ALEPH", aliases: &[] },
        Codepoint { codepoint: 0x10882, name: "NABATAEAN LETTER FINAL BETH", aliases: &[] },
        Codepoint { codepoint: 0x10883, name: "NABATAEAN LETTER BETH", aliases: &[] },
        Codepoint { codepoint: 0x10884, name: "NABATAEAN LETTER GIMEL", aliases: &[] },
        Codepoint { codepoint: 0x10885, name: "NABATAEAN LETTER DALETH", aliases: &[] },
        Codepoint { codepoint: 0x10886, name: "NABATAEAN LETTER FINAL HE", aliases: &[] },
        Codepoint { codepoint: 0x10887, name: "NABATAEAN LETTER HE", aliases: &[] },
    ];
    assert(v@ =~= codepoint_table_462());
    v
}

pub open spec fn codepoint_table_463() -> Seq<Codepoint> {
    seq![
        Codepoint { codepoint: 0x10888, name: "NABATAEAN LETTER WAW", aliases: &[] },
        Codepoint { codepoint: 0x10889, name: "NABATAEAN LETTER ZAYIN", aliases: &[] },
        Codepoint { codepoint: 0x1088A, name: "NABATAEAN LETTER HETH", aliases: &[] },
        Codepoint { codepoint: 0x1088B, name: "NABATAEAN LETTER TETH", aliases: &[] },
        Codepoint { codepoint: 0x1088C, name: "NABATAEAN LETTER FINAL YODH", aliases: &[] },
        Codepoint { codepoint: 0x1088D, name: "NABATAEAN LETTER YODH", aliases: &[] },
        Codepoint { codepoint: 0x1088E, name: "NABATAEAN LETTER FINAL KAPH", aliases: &[] },
        Codepoint { codepoint: 0x1088F, name: "NABATAEAN LETTER KAPH", aliases: &[] },
        Codepoint { codepoint: 0x10890, name: "NABATAEAN LETTER FINAL LAMEDH", aliases: &[] },
        Codepoint { codepoint: 0x10891, name: "NABATAEAN LETTER LAMEDH", aliases: &[] },
        Codepoint { codepoint: 0x10892, name: "NABATAEAN LETTER FINAL MEM", aliases: &[] },
        Codepoint { codepoint: 0x10893, name: "NABATAEAN LETTER MEM", aliases: &[] },
        Codepoint { codepoint: 0x10894, name: "NABATAEAN LETTER FINAL NUN", aliases: &[] },
        Codepoint { codepoint: 0x10895, name: "NABATAEAN LETTER NUN", aliases: &[] },
        Codepoint { codepoint: 0x10896, name: "NABATAEAN LETTER SAMEKH", aliases: &[] },
        Codepoint { codepoint: 0x10897, name: "NABATAEAN LETTER AYIN", aliases: &[] },
        Codepoint { codepoint: 0x10898, name: "NABATAEAN LETTER PE", aliases: &[] },
        Codepoint { codepoint: 0x10899, name: "NABATAEAN LETTER SADHE", aliases: &[] },
        Codepoint { codepoint: 0x1089A, name: "NABATAEAN LETTER QOPH", aliases: &[] },
        Codepoint { codepoint: 0x1089B, name: "NABATAEAN LETTER RESH", aliases: &[] },
        Codepoint { codepoint: 0x1089C, name: "NABATAEAN LETTER FINAL SHIN", aliases: &[] },
        Codepoint { codepoint: 0x1089D, name: "NABATAEAN LETTER SHIN", aliases: &[] },
        Codepoint { codepoint: 0x1089E, name: "NABATAEAN LETTER TAW", aliases: &[] },
        Codepoint { codepoint: 0x108A7, name: "NABATAEAN NUMBER ONE", aliases: &[] },
        Codepoint { codepoint: 0x108A8, name: "NABATAEAN NUMBER TWO", aliases: &[] },
        Codepoint { codepoint: 0x108A9, name: "NABATAEAN NUMBER THREE", aliases: &[] },
        Codepoint { codepoint: 0x108AA, name: "NABATAEAN NUMBER FOUR", aliases: &[] },
        Codepoint { codepoint: 0x108AB, name: "NABATAEAN CRUCIFORM NUMBER FOUR", aliases: &[] },
        Codepoint { codepoint: 0x108AC, name: "NABATAEAN NUMBER FIVE", aliases: &[] },
        Codepoint { codepoint: 0x108AD, name: "NABATAEAN NUMBER TEN", aliases: &[] },
        Codepoint { codepoint: 0x108AE, name: "NABATAEAN NUMBER TWENTY", aliases: &[] },
        Codepoint { codepoint: 0x108AF, name: "NABATAEAN NUMBER ONE HUNDRED", aliases: &[] },
        Codepoint { codepoint: 0x108E0, name: "HATRAN LETTER ALEPH", aliases: &[] },
        Codepoint { codepoint: 0x108E1, name: "HATRAN LETTER BETH", aliases: &[] },
        Codepoint { codepoint: 0x108E2, name: "HATRAN LETTER GIMEL", aliases: &[] },
        Codepoint { codepoint: 0x108E3, name: "HATRAN LETTER DALETH-RESH", aliases: &[] },
        Codepoint { codepoint: 0x108E4, name: "HATRAN LETTER HE", aliases: &[] },
        Codepoint { codepoint: 0x108E5, name: "HATRAN LETTER WAW", aliases: &[] },
        Codepoint { codepoint: 0x108E6, name: "HATRAN LETTER ZAYN", aliases: &[] },
        Codepoint { codepoint: 0x108E7, name: "HATRAN LETTER HETH", aliases: &[] },
    ]
}

fn all_codepoints_463() -> (v: Vec<Codepoint>)
    ensures
        v@ == codepoint_table_463(),
{
    let v = vec![
        Codepoint { codepoint: 0x10888, name: "NABATAEAN LETTER WAW", aliases: &[] },
        Codepoint { codepoint: 0x10889, name: "NABATAEAN LETTER ZAYIN", aliases: &[] },
        Codepoint { codepoint: 0x1088A, name: "NABATAEAN LETTER HETH", aliases: &[] },
        Codepoint { codepoint: 0x1088B, name: "NABATAEAN LETTER TETH", aliases: &[] },
        Codepoint { codepoint: 0x1088C, name: "NABATAEAN LETTER FINAL YODH", aliases: &[] },
        Codepoint { codepoint: 0x1088D, name: "NABATAEAN LETTER YODH", aliases: &[] },
        Codepoint { codepoint: 0x1088E, name: "NABATAEAN LETTER FINAL KAPH", aliases: &[] },
        Codepoint { codepoint: 0x1088F, name: "NABATAEAN LETTER KAPH", aliases: &[] },
        Codepoint { codepoint: 0x10890, name: "NABATAEAN LETTER FINAL LAMEDH", aliases: &[] },
        Codepoint { codepoint: 0x10891, name: "NABATAEAN LETTER LAMEDH", aliases: &[] },
        Codepoint { codepoint: 0x10892, name: "NABATAEAN LETTER FINAL MEM", aliases: &[] },
        Codepoint { codepoint: 0x10893, name: "NABATAEAN LETTER MEM", aliases: &[] },
        Codepoint { codepoint: 0x10894, name: "NABATAEAN LETTER FINAL NUN", aliases: &[] },
        Codepoint { codepoint: 0x10895, name: "NABATAEAN LETTER NUN", aliases: &[] },
        Codepoint { codepoint: 0x10896, name: "NABATAEAN LETTER SAMEKH", aliases: &[] },
        Codepoint { codepoint: 0x10897, name: "NABATAEAN LETTER AYIN", aliases: &[] },
        Codepoint { codepoint: 0x10898, name: "NABATAEAN LETTER PE", aliases: &[] },
        Codepoint { codepoint: 0x10899, name: "NABATAEAN LETTER SADHE", aliases: &[] },
        Codepoint { codepoint: 0x1089A, name: "NABATAEAN LETTER QOPH", aliases: &[] },
        Codepoint { codepoint: 0x1089B, name: "NABATAEAN LETTER RESH", aliases: &[] },
        Codepoint { codepoint: 0x1089C, name: "NABATAEAN LETTER FINAL SHIN", aliases: &[] },
        Codepoint { codepoint: 0x1089D, name: "NABATAEAN LETTER SHIN", aliases: &[] },
        Codepoint { codepoint: 0x1089E, name: "NABATAEAN LETTER TAW", aliases: &[] },
        Codepoint { codepoint: 0x108A7, name: "NABATAEAN NUMBER ONE", aliases: &[] },
        Codepoint { codepoint: 0x108A8, name: "NABATAEAN NUMBER TWO", aliases: &[] },
        Codepoint { codepoint: 0x108A9, name: "NABATAEAN NUMBER THREE", aliases: &[] },
        Codepoint { codepoint: 0x108AA, name: "NABATAEAN NUMBER FOUR", aliases: &[] },
        Codepoint { codepoint: 0x108AB, name: "NABATAEAN CRUCIFORM NUMBER FOUR", aliases: &[] },
        Codepoint { codepoint: 0x108AC, name: "NABATAEAN NUMBER FIVE", aliases: &[] },
        Codepoint { codepoint: 0x108AD, name: "NABATAEAN NUMBER TEN", aliases: &[] },
        Codepoint { codepoint: 0x108AE, name: "NABATAEAN NUMBER TWENTY", aliases: &[] },
        Codepoint { codepoint: 0x108AF, name: "NABATAEAN NUMBER ONE HUNDRED", aliases: &[] },
        Codepoint { codepoint: 0x108E0, name: "HATRAN LETTER ALEPH", aliases: &[] },
        Codepoint { codepoint: 0x108E1, name: "HATRAN LETTER BETH", aliases: &[] },
        Codepoint { codepoint: 0x108E2, name: "HATRAN LETTER GIMEL", aliases: &[] },
        Codepoint { codepoint: 0x108E3, name: "HATRAN LETTER DALETH-RESH", aliases: &[] },
        Codepoint { codepoint: 0x108E4, name: "HATRAN LETTER HE", aliases: &[] },
        Codepoint { codepoint: 0x108E5, name: "HATRAN LETTER WAW", aliases: &[] },
        Codepoint { codepoint: 0x108E6, name: "HATRAN LETTER ZAYN", aliases: &[] },
        Codepoint { codepoint: 0x108E7, name: "HATRAN LETTER HETH", aliases: &[] },
    ];
    assert(v@ =~= codepoint_table_463());
    v
}

pub open spec fn codepoint_table_464() -> Seq<Codepoint> {
    seq![
        Codepoint { codepoint: 0x108E8, name: "HATRAN LETTER TETH", aliases: &[] },
        Codepoint { codepoint: 0x108E9, name: "HATRAN LETTER YODH", aliases: &[] },
        Codepoint { codepoint: 0x108EA, name: "HATRAN LETTER KAPH", aliases: &[] },
        Codepoint { codepoint: 0x108EB, name: "HATRAN LETTER LAMEDH", aliases: &[] },
        Codepoint { codepoint: 0x108EC, name: "HATRAN LETTER MEM", aliases: &[] },
        Codepoint { codepoint: 0x108ED, name: "HATRAN LETTER NUN", aliases: &[] },
        Codepoint { codepoint: 0x108EE, name: "HATRAN LETTER SAMEKH", aliases: &[] },
        Codepoint { codepoint: 0x108EF, name: "HATRAN LETTER AYN", aliases: &[] },
        Codepoint { codepoint: 0x108F0, name: "HATRAN LETTER PE", aliases: &[] },
        Codepoint { codepoint: 0x108F1, name: "HATRAN LETTER SADHE", aliases: &[] },
        Codepoint { codepoint: 0x108F2, name: "HATRAN LETTER QOPH", aliases: &[] },
        Codepoint { codepoint: 0x108F4, name: "HATRAN LETTER SHIN", aliases: &[] },
        Codepoint { codepoint: 0x108F5, name: "HATRAN LETTER TAW", aliases: &[] },
        Codepoint { codepoint: 0x108FB, name: "HATRAN NUMBER ONE", aliases: &[] },
        Codepoint { codepoint: 0x108FC, name: "HATRAN NUMBER FIVE", aliases: &[] },
        Codepoint { codepoint: 0x108FD, name: "HATRAN NUMBER TEN", aliases: &[] },
        Codepoint { codepoint: 0x108FE, name: "HATRAN NUMBER TWENTY", aliases: &[] },
        Codepoint { codepoint: 0x108FF, name: "HATRAN NUMBER ONE HUNDRED", aliases: &[] },
        Codepoint { codepoint: 0x10900, name: "PHOENICIAN LETTER ALF", aliases: &[] },
        Codepoint { codepoint: 0x10901, name: "PHOENICIAN LETTER BET", aliases: &[] },
        Codepoint { codepoint: 0x10902, name: "PHOENICIAN LETTER GAML", aliases: &[] },
        Codepoint { codepoint: 0x10903, name: "PHOENICIAN LETTER DELT", aliases: &[] },
        Codepoint { codepoint: 0x10904, name: "PHOENICIAN LETTER HE", aliases: &[] },
        Codepoint { codepoint: 0x10905, name: "PHOENICIAN LETTER WAU", aliases: &[] },
        Codepoint { codepoint: 0x10906, name: "PHOENICIAN LETTER ZAI", aliases: &[] },
        Codepoint { codepoint: 0x10907, name: "PHOENICIAN LETTER HET", aliases: &[] },
        Codepoint { codepoint: 0x10908, name: "PHOENICIAN LETTER TET", aliases: &[] },
        Codepoint { codepoint: 0x10909, name: "PHOENICIAN LETTER YOD", aliases: &[] },
        Codepoint { codepoint: 0x1090A, name: "PHOENICIAN LETTER KAF", aliases: &[] },
        Codepoint { codepoint: 0x1090B, name: "PHOENICIAN LETTER LAMD", aliases: &[] },
        Codepoint { codepoint: 0x1090C, name: "PHOENICIAN LETTER MEM", aliases: &[] },
        Codepoint { codepoint: 0x1090D, name: "PHOENICIAN LETTER NUN", aliases: &[] },
        Codepoint { codepoint: 0x1090E, name: "PHOENICIAN LETTER SEMK", aliases: &[] },
        Codepoint { codepoint: 0x1090F, name: "PHOENICIAN LETTER AIN", aliases: &[] },
        Codepoint { codepoint: 0x10910, name: "PHOENICIAN LETTER PE", aliases: &[] },
        Codepoint { codepoint: 0x10911, name: "PHOENICIAN LETTER SADE", aliases: &[] },
        Codepoint { codepoint: 0x10912, name: "PHOENICIAN LETTER QOF", aliases: &[] },
        Codepoint { codepoint: 0x10913, name: "PHOENICIAN LETTER ROSH", aliases: &[] },
        Codepoint { codepoint: 0x10914, name: "PHOENICIAN LETTER SHIN", aliases: &[] },
        Codepoint { codepoint: 0x10915, name: "PHOENICIAN LETTER TAU", aliases: &[] },
    ]
}

fn all_codepoints_464() -> (v: Vec<Codepoint>)
    ensures
        v@ == codepoint_table_464(),
{
    let v = vec![
        Codepoint { codepoint: 0x108E8, name: "HATRAN LETTER TETH", aliases: &[] },
        Codepoint { codepoint: 0x108E9, name: "HATRAN LETTER YODH", aliases: &[] },
        Codepoint { codepoint: 0x108EA, name: "HATRAN LETTER KAPH", aliases: &[] },
        Codepoint { codepoint: 0x108EB, name: "HATRAN LETTER LAMEDH", aliases: &[] },
        Codepoint { codepoint: 0x108EC, name: "HATRAN LETTER MEM", aliases: &[] },
        Codepoint { codepoint: 0x108ED, name: "HATRAN LETTER NUN", aliases: &[] },
        Codepoint { codepoint: 0x108EE, name: "HATRAN LETTER SAMEKH", aliases: &[] },
        Codepoint { codepoint: 0x108EF, name: "HATRAN LETTER AYN", aliases: &[] },
        Codepoint { codepoint: 0x108F0, name: "HATRAN LETTER PE", aliases: &[] },
        Codepoint { codepoint: 0x108F1, name: "HATRAN LETTER SADHE", aliases: &[] },
        Codepoint { codepoint: 0x108F2, name: "HATRAN LETTER QOPH", aliases: &[] },
        Codepoint { codepoint: 0x108F4, name: "HATRAN LETTER SHIN", aliases: &[] },
        Codepoint { codepoint: 0x108F5, name: "HATRAN LETTER TAW", aliases: &[] },
        Codepoint { codepoint: 0x108FB, name: "HATRAN NUMBER ONE", aliases: &[] },
        Codepoint { codepoint: 0x108FC, name: "HATRAN NUMBER FIVE", aliases: &[] },
        Codepoint { codepoint: 0x108FD, name: "HATRAN NUMBER TEN", aliases: &[] },
        Codepoint { codepoint: 0x108FE, name: "HATRAN NUMBER TWENTY", aliases: &[] },
        Codepoint { codepoint: 0x108FF, name: "HATRAN NUMBER ONE HUNDRED", aliases: &[] },
        Codepoint { codepoint: 0x10900, name: "PHOENICIAN LETTER ALF", aliases: &[] },
        Codepoint { codepoint: 0x10901, name: "PHOENICIAN LETTER BET", aliases: &[] },
        Codepoint { codepoint: 0x10902, name: "PHOENICIAN LETTER GAML", aliases: &[] },
        Codepoint { codepoint: 0x10903, name: "PHOENICIAN LETTER DELT", aliases: &[] },
        Codepoint { codepoint: 0x10904, name: "PHOENICIAN LETTER HE", aliases: &[] },
        Codepoint { codepoint: 0x10905, name: "PHOENICIAN LETTER WAU", aliases: &[] },
        Codepoint { codepoint: 0x10906, name: "PHOENICIAN LETTER ZAI", aliases: &[] },
        Codepoint { codepoint: 0x10907, name: "PHOENICIAN LETTER HET", aliases: &[] },
        Codepoint { codepoint: 0x10908, name: "PHOENICIAN LETTER TET", aliases: &[] },
        Codepoint { codepoint: 0x10909, name: "PHOENICIAN LETTER YOD", aliases: &[] },
        Codepoint { codepoint: 0x1090A, name: "PHOENICIAN LETTER KAF", aliases: &[] },
        Codepoint { codepoint: 0x1090B, name: "PHOENICIAN LETTER LAMD", aliases: &[] },
        Codepoint { codepoint: 0x1090C, name: "PHOENICIAN LETTER MEM", aliases: &[] },
        Codepoint { codepoint: 0x1090D, name: "PHOENICIAN LETTER NUN", aliases: &[] },
        Codepoint { codepoint: 0x1090E, name: "PHOENICIAN LETTER SEMK", aliases: &[] },
        Codepoint { codepoint: 0x1090F, name: "PHOENICIAN LETTER AIN", aliases: &[] },
        Codepoint { codepoint: 0x10910, name: "PHOENICIAN LETTER PE", aliases: &[] },
        Codepoint { codepoint: 0x10911, name: "PHOENICIAN LETTER SADE", aliases: &[] },
        Codepoint { codepoint: 0x10912, name: "PHOENICIAN LETTER QOF", aliases: &[] },
        Codepoint { codepoint: 0x10913, name: "PHOENICIAN LETTER ROSH", aliases: &[] },
        Codepoint { codepoint: 0x10914, name: "PHOENICIAN LETTER SHIN", aliases: &[] },
        Codepoint { codepoint: 0x10915, name: "PHOENICIAN LETTER TAU", aliases: &[] },
    ];
    assert(v@ =~= codepoint_table_464());
    v
}

pub open spec fn codepoint_table_465() -> Seq<Codepoint> {
    seq![
        Codepoint { codepoint: 0x10916, name: "PHOENICIAN NUMBER ONE", aliases: &[] },
        Codepoint { codepoint: 0x10917, name: "PHOENICIAN NUMBER TEN", aliases: &[] },
        Codepoint { codepoint: 0x10918, name: "PHOENICIAN NUMBER TWENTY", aliases: &[] },
        Codepoint { codepoint: 0x10919, name: "PHOENICIAN NUMBER ONE HUNDRED", aliases: &[] },
        Codepoint { codepoint: 0x1091A, name: "PHOENICIAN NUMBER TWO", aliases: &[] },
        Codepoint { codepoint: 0x1091B, name: "PHOENICIAN NUMBER THREE", aliases: &[] },
        Codepoint { codepoint: 0x1091F, name: "PHOENICIAN WORD SEPARATOR", aliases: &[] },
        Codepoint { codepoint: 0x10920, name: "LYDIAN LETTER A", aliases: &[] },
        Codepoint { codepoint: 0x10921, name: "LYDIAN LETTER B", aliases: &[] },
        Codepoint { codepoint: 0x10922, name: "LYDIAN LETTER G", aliases: &[] },
        Codepoint { codepoint: 0x10923, name: "LYDIAN LETTER D", aliases: &[] },
        Codepoint { codepoint: 0x10924, name: "LYDIAN LETTER E", aliases: &[] },
        Codepoint { codepoint: 0x10925, name: "LYDIAN LETTER V", aliases: &[] },
        Codepoint { codepoint: 0x10926, name: "LYDIAN LETTER I", aliases: &[] },
        Codepoint { codepoint: 0x10927, name: "LYDIAN LETTER Y", aliases: &[] },
        Codepoint { codepoint: 0x10928, name: "LYDIAN LETTER K", aliases: &[] },
        Codepoint { codepoint: 0x10929, name: "LYDIAN LETTER L", aliases: &[] },
        Codepoint { codepoint: 0x1092A, name: "LYDIAN LETTER M", aliases: &[] },
        Codepoint { codepoint: 0x1092B, name: "LYDIAN LETTER N", aliases: &[] },
        Codepoint { codepoint: 0x1092C, name: "LYDIAN LETTER O", aliases: &[] },
        Codepoint { codepoint: 0x1092D, name: "LYDIAN LETTER R", aliases: &[] },
        Codepoint { codepoint: 0x1092E, name: "LYDIAN LETTER SS", aliases: &[] },
        Codepoint { codepoint: 0x1092F, name: "LYDIAN LETTER T", aliases: &[] },
        Codepoint { codepoint: 0x10930, name: "LYDIAN LETTER U", aliases: &[] },
        Codepoint { codepoint: 0x10931, name: "LYDIAN LETTER F", aliases: &[] },
        Codepoint { codepoint: 0x10932, name: "LYDIAN LETTER Q", aliases: &[] },
        Codepoint { codepoint: 0x10933, name: "LYDIAN LETTER S", aliases: &[] },
        Codepoint { codepoint: 0x10934, name: "LYDIAN LETTER TT", aliases: &[] },
        Codepoint { codepoint: 0x10935, name: "LYDIAN LETTER AN", aliases: &[] },
        Codepoint { codepoint: 0x10936, name: "LYDIAN LETTER EN", aliases: &[] },
        Codepoint { codepoint: 0x10937, name: "LYDIAN LETTER LY", aliases: &[] },
        Codepoint { codepoint: 0x10938, name: "LYDIAN LETTER NN", aliases: &[] },
        Codepoint { codepoint: 0x10939, name: "LYDIAN LETTER C", aliases: &[] },
        Codepoint { codepoint: 0x1093F, name: "LYDIAN TRIANGULAR MARK", aliases: &[] },
        Codepoint { codepoint: 0x10980, name: "MEROITIC HIEROGLYPHIC LETTER A", aliases: &[] },
        Codepoint { codepoint: 0x10981, name: "MEROITIC HIEROGLYPHIC LETTER E", aliases: &[] },
        Codepoint { codepoint: 0x10982, name: "MEROITIC HIEROGLYPHIC LETTER I", aliases: &[] },
        Codepoint { codepoint: 0x10983, name: "MEROITIC HIEROGLYPHIC LETTER O", aliases: &[] },
        Codepoint { codepoint: 0x10984, name: "MEROITIC HIEROGLYPHIC LETTER YA", aliases: &[] },
        Codepoint { codepoint: 0x10985, name: "MEROITIC HIEROGLYPHIC LETTER WA", aliases: &[] },
    ]
}

fn all_codepoints_465() -> (v: Vec<Codepoint>)
    ensures
        v@ == codepoint_table_465(),
{
    let v = vec![
        Codepoint { codepoint: 0x10916, name: "PHOENICIAN NUMBER ONE", aliases: &[] },
        Codepoint { codepoint: 0x10917, name: "PHOENICIAN NUMBER TEN", aliases: &[] },
        Codepoint { codepoint: 0x10918, name: "PHOENICIAN NUMBER TWENTY", aliases: &[] },
        Codepoint { codepoint: 0x10919, name: "PHOENICIAN NUMBER ONE HUNDRED", aliases: &[] },
        Codepoint { codepoint: 0x1091A, name: "PHOENICIAN NUMBER TWO", aliases: &[] },
        Codepoint { codepoint: 0x1091B, name: "PHOENICIAN NUMBER THREE", aliases: &[] },
        Codepoint { codepoint: 0x1091F, name: "PHOENICIAN WORD SEPARATOR", aliases: &[] },
        Codepoint { codepoint: 0x10920, name: "LYDIAN LETTER A", aliases: &[] },
        Codepoint { codepoint: 0x10921, name: "LYDIAN LETTER B", aliases: &[] },
        Codepoint { codepoint: 0x10922, name: "LYDIAN LETTER G", aliases: &[] },
        Codepoint { codepoint: 0x10923, name: "LYDIAN LETTER D", aliases: &[] },
        Codepoint { codepoint: 0x10924, name: "LYDIAN LETTER E", aliases: &[] },
        Codepoint { codepoint: 0x10925, name: "LYDIAN LETTER V", aliases: &[] },
        Codepoint { codepoint: 0x10926, name: "LYDIAN LETTER I", aliases: &[] },
        Codepoint { codepoint: 0x10927, name: "LYDIAN LETTER Y", aliases: &[] },
        Codepoint { codepoint: 0x10928, name: "LYDIAN LETTER K", aliases: &[] },
        Codepoint { codepoint: 0x10929, name: "LYDIAN LETTER L", aliases: &[] },
        Codepoint { codepoint: 0x1092A, name: "LYDIAN LETTER M", aliases: &[] },
        Codepoint { codepoint: 0x1092B, name: "LYDIAN LETTER N", aliases: &[] },
        Codepoint { codepoint: 0x1092C, name: "LYDIAN LETTER O", aliases: &[] },
        Codepoint { codepoint: 0x1092D, name: "LYDIAN LETTER R", aliases: &[] },
        Codepoint { codepoint: 0x1092E, name: "LYDIAN LETTER SS", aliases: &[] },
        Codepoint { codepoint: 0x1092F, name: "LYDIAN LETTER T", aliases: &[] },
        Codepoint { codepoint: 0x10930, name: "LYDIAN LETTER U", aliases: &[] },
        Codepoint { codepoint: 0x10931, name: "LYDIAN LETTER F", aliases: &[] },
        Codepoint { codepoint: 0x10932, name: "LYDIAN LETTER Q", aliases: &[] },
        Codepoint { codepoint: 0x10933, name: "LYDIAN LETTER S", aliases: &[] },
        Codepoint { codepoint: 0x10934, name: "LYDIAN LETTER TT", aliases: &[] },
        Codepoint { codepoint: 0x10935, name: "LYDIAN LETTER AN", aliases: &[] },
        Codepoint { codepoint: 0x10936, name: "LYDIAN LETTER EN", aliases: &[] },
        Codepoint { codepoint: 0x10937, name: "LYDIAN LETTER LY", aliases: &[] },
        Codepoint { codepoint: 0x10938, name: "LYDIAN LETTER NN", aliases: &[] },
        Codepoint { codepoint: 0x10939, name: "LYDIAN LETTER C", aliases: &[] },
        Codepoint { codepoint: 0x1093F, name: "LYDIAN TRIANGULAR MARK", aliases: &[] },
        Codepoint { codepoint: 0x10980, name: "MEROITIC HIEROGLYPHIC LETTER A", aliases: &[] },
        Codepoint { codepoint: 0x10981, name: "MEROITIC HIEROGLYPHIC LETTER E", aliases: &[] },
        Codepoint { codepoint: 0x10982, name: "MEROITIC HIEROGLYPHIC LETTER I", aliases: &[] },
        Codepoint { codepoint: 0x10983, name: "MEROITIC HIEROGLYPHIC LETTER O", aliases: &[] },
        Codepoint { codepoint: 0x10984, name: "MEROITIC HIEROGLYPHIC LETTER YA", aliases: &[] },
        Codepoint { codepoint: 0x10985, name: "MEROITIC HIEROGLYPHIC LETTER WA", aliases: &[] },
    ];
    assert(v@ =~= codepoint_table_465());
    v
}

pub open spec fn codepoint_table_466() -> Seq<Codepoint> {
    seq![
        Codepoint { codepoint: 0x10986, name: "MEROITIC HIEROGLYPHIC LETTER BA", aliases: &[] },
        Codepoint { codepoint: 0x10987, name: "MEROITIC HIEROGLYPHIC LETTER BA-2", aliases: &[] },
        Codepoint { codepoint: 0x10988, name: "MEROITIC HIEROGLYPHIC LETTER PA", aliases: &[] },
        Codepoint { codepoint: 0x10989, name: "MEROITIC HIEROGLYPHIC LETTER MA", aliases: &[] },
        Codepoint { codepoint: 0x1098A, name: "MEROITIC HIEROGLYPHIC LETTER NA", aliases: &[] },
        Codepoint { codepoint: 0x1098B, name: "MEROITIC HIEROGLYPHIC LETTER NA-2", aliases: &[] },
        Codepoint { codepoint: 0x1098C, name: "MEROITIC HIEROGLYPHIC LETTER NE", aliases: &[] },
        Codepoint { codepoint: 0x1098D, name: "MEROITIC HIEROGLYPHIC LETTER NE-2", aliases: &[] },
        Codepoint { codepoint: 0x1098E, name: "MEROITIC HIEROGLYPHIC LETTER RA", aliases: &[] },
        Codepoint { codepoint: 0x1098F, name: "MEROITIC HIEROGLYPHIC LETTER RA-2", aliases: &[] },
        Codepoint { codepoint: 0x10990, name: "MEROITIC HIEROGLYPHIC LETTER LA", aliases: &[] },
        Codepoint { codepoint: 0x10991, name: "MEROITIC HIEROGLYPHIC LETTER KHA", aliases: &[] },
        Codepoint { codepoint: 0x10992, name: "MEROITIC HIEROGLYPHIC LETTER HHA", aliases: &[] },
        Codepoint { codepoint: 0x10993, name: "MEROITIC HIEROGLYPHIC LETTER SA", aliases: &[] },
        Codepoint { codepoint: 0x10994, name: "MEROITIC HIEROGLYPHIC LETTER SA-2", aliases: &[] },
        Codepoint { codepoint: 0x10995, name: "MEROITIC HIEROGLYPHIC LETTER SE", aliases: &[] },
        Codepoint { codepoint: 0x10996, name: "MEROITIC HIEROGLYPHIC LETTER KA", aliases: &[] },
        Codepoint { codepoint: 0x10997, name: "MEROITIC HIEROGLYPHIC LETTER QA", aliases: &[] },
        Codepoint { codepoint: 0x10998, name: "MEROITIC HIEROGLYPHIC LETTER TA", aliases: &[] },
        Codepoint { codepoint: 0x10999, name: "MEROITIC HIEROGLYPHIC LETTER TA-2", aliases: &[] },
        Codepoint { codepoint: 0x1099A, name: "MEROITIC HIEROGLYPHIC LETTER TE", aliases: &[] },
        Codepoint { codepoint: 0x1099B, name: "MEROITIC HIEROGLYPHIC LETTER TE-2", aliases: &[] },
        Codepoint { codepoint: 0x1099C, name: "MEROITIC HIEROGLYPHIC LETTER TO", aliases: &[] },
        Codepoint { codepoint: 0x1099D, name: "MEROITIC HIEROGLYPHIC LETTER DA", aliases: &[] },
        Codepoint { codepoint: 0x1099E, name: "MEROITIC HIEROGLYPHIC SYMBOL VIDJ", aliases: &[] },
        Codepoint { codepoint: 0x1099F, name: "MEROITIC HIEROGLYPHIC SYMBOL VIDJ-2", aliases: &[] },
        Codepoint { codepoint: 0x109A0, name: "MEROITIC CURSIVE LETTER A", aliases: &[] },
        Codepoint { codepoint: 0x109A1, name: "MEROITIC CURSIVE LETTER E", aliases: &[] },
        Codepoint { codepoint: 0x109A2, name: "MEROITIC CURSIVE LETTER I", aliases: &[] },
        Codepoint { codepoint: 0x109A3, name: "MEROITIC CURSIVE LETTER O", aliases: &[] },
        Codepoint { codepoint: 0x109A4, name: "MEROITIC CURSIVE LETTER YA", aliases: &[] },
        Codepoint { codepoint: 0x109A5, name: "MEROITIC CURSIVE LETTER WA", aliases: &[] },
        Codepoint { codepoint: 0x109A6, name: "MEROITIC CURSIVE LETTER BA", aliases: &[] },
        Codepoint { codepoint: 0x109A7, name: "MEROITIC CURSIVE LETTER PA", aliases: &[] },
        Codepoint { codepoint: 0x109A8, name: "MEROITIC CURSIVE LETTER MA", aliases: &[] },
        Codepoint { codepoint: 0x109A9, name: "MEROITIC CURSIVE LETTER NA", aliases: &[] },
        Codepoint { codepoint: 0x109AA, name: "MEROITIC CURSIVE LETTER NE", aliases: &[] },
        Codepoint { codepoint: 0x109AB, name: "MEROITIC CURSIVE LETTER RA", aliases: &[] },
        Codepoint { codepoint: 0x109AC, name: "MEROITIC CURSIVE LETTER LA", aliases: &[] },
        Codepoint { codepoint: 0x109AD, name: "MEROITIC CURSIVE LETTER KHA", aliases: &[] },
    ]
}

fn all_codepoints_466() -> (v: Vec<Codepoint>)
    ensures
        v@ == codepoint_table_466(),
{
    let v = vec![
        Codepoint { codepoint: 0x10986, name: "MEROITIC HIEROGLYPHIC LETTER BA", aliases: &[] },
        Codepoint { codepoint: 0x10987, name: "MEROITIC HIEROGLYPHIC LETTER BA-2", aliases: &[] },
        Codepoint { codepoint: 0x10988, name: "MEROITIC HIEROGLYPHIC LETTER PA", aliases: &[] },
        Codepoint { codepoint: 0x10989, name: "MEROITIC HIEROGLYPHIC LETTER MA", aliases: &[] },
        Codepoint { codepoint: 0x1098A, name: "MEROITIC HIEROGLYPHIC LETTER NA", aliases: &[] },
        Codepoint { codepoint: 0x1098B, name: "MEROITIC HIEROGLYPHIC LETTER NA-2", aliases: &[] },
        Codepoint { codepoint: 0x1098C, name: "MEROITIC HIEROGLYPHIC LETTER NE", aliases: &[] },
        Codepoint { codepoint: 0x1098D, name: "MEROITIC HIEROGLYPHIC LETTER NE-2", aliases: &[] },
        Codepoint { codepoint: 0x1098E, name: "MEROITIC HIEROGLYPHIC LETTER RA", aliases: &[] },
        Codepoint { codepoint: 0x1098F, name: "MEROITIC HIEROGLYPHIC LETTER RA-2", aliases: &[] },
        Codepoint { codepoint: 0x10990, name: "MEROITIC HIEROGLYPHIC LETTER LA", aliases: &[] },
        Codepoint { codepoint: 0x10991, name: "MEROITIC HIEROGLYPHIC LETTER KHA", aliases: &[] },
        Codepoint { codepoint: 0x10992, name: "MEROITIC HIEROGLYPHIC LETTER HHA", aliases: &[] },
        Codepoint { codepoint: 0x10993, name: "MEROITIC HIEROGLYPHIC LETTER SA", aliases: &[] },
        Codepoint { codepoint: 0x10994, name: "MEROITIC HIEROGLYPHIC LETTER SA-2", aliases: &[] },
        Codepoint { codepoint: 0x10995, name: "MEROITIC HIEROGLYPHIC LETTER SE", aliases: &[] },
        Codepoint { codepoint: 0x10996, name: "MEROITIC HIEROGLYPHIC LETTER KA", aliases: &[] },
        Codepoint { codepoint: 0x10997, name: "MEROITIC HIEROGLYPHIC LETTER QA", aliases: &[] },
        Codepoint { codepoint: 0x10998, name: "MEROITIC HIEROGLYPHIC LETTER TA", aliases: &[] },
        Codepoint { codepoint: 0x10999, name: "MEROITIC HIEROGLYPHIC LETTER TA-2", aliases: &[] },
        Codepoint { codepoint: 0x1099A, name: "MEROITIC HIEROGLYPHIC LETTER TE", aliases: &[] },
        Codepoint { codepoint: 0x1099B, name: "MEROITIC HIEROGLYPHIC LETTER TE-2", aliases: &[] },
        Codepoint { codepoint: 0x1099C, name: "MEROITIC HIEROGLYPHIC LETTER TO", aliases: &[] },
        Codepoint { codepoint: 0x1099D, name: "MEROITIC HIEROGLYPHIC LETTER DA", aliases: &[] },
        Codepoint { codepoint: 0x1099E, name: "MEROITIC HIEROGLYPHIC SYMBOL VIDJ", aliases: &[] },
        Codepoint { codepoint: 0x1099F, name: "MEROITIC HIEROGLYPHIC SYMBOL VIDJ-2", aliases: &[] },
        Codepoint { codepoint: 0x109A0, name: "MEROITIC CURSIVE LETTER A", aliases: &[] },
        Codepoint { codepoint: 0x109A1, name: "MEROITIC CURSIVE LETTER E", aliases: &[] },
        Codepoint { codepoint: 0x109A2, name: "MEROITIC CURSIVE LETTER I", aliases: &[] },
        Codepoint { codepoint: 0x109A3, name: "MEROITIC CURSIVE LETTER O", aliases: &[] },
        Codepoint { codepoint: 0x109A4, name: "MEROITIC CURSIVE LETTER YA", aliases: &[] },
        Codepoint { codepoint: 0x109A5, name: "MEROITIC CURSIVE LETTER WA", aliases: &[] },
        Codepoint { codepoint: 0x109A6, name: "MEROITIC CURSIVE LETTER BA", aliases: &[] },
        Codepoint { codepoint: 0x109A7, name: "MEROITIC CURSIVE LETTER PA", aliases: &[] },
        Codepoint { codepoint: 0x109A8, name: "MEROITIC CURSIVE LETTER MA", aliases: &[] },
        Codepoint { codepoint: 0x109A9, name: "MEROITIC CURSIVE LETTER NA", aliases: &[] },
        Codepoint { codepoint: 0x109AA, name: "MEROITIC CURSIVE LETTER NE", aliases: &[] },
        Codepoint { codepoint: 0x109AB, name: "MEROITIC CURSIVE LETTER RA", aliases: &[] },
        Codepoint { codepoint: 0x109AC, name: "MEROITIC CURSIVE LETTER LA", aliases: &[] },
        Codepoint { codepoint: 0x109AD, name: "MEROITIC CURSIVE LETTER KHA", aliases: &[] },
    ];
    assert(v@ =~= codepoint_table_466());
    v
}

pub open spec fn codepoint_table_467() -> Seq<Codepoint> {
    seq![
        Codepoint { codepoint: 0x109AE, name: "MEROITIC CURSIVE LETTER HHA", aliases: &[] },
        Codepoint { codepoint: 0x109AF, name: "MEROITIC CURSIVE LETTER SA", aliases: &[] },
        Codepoint { codepoint: 0x109B0, name: "MEROITIC CURSIVE LETTER ARCHAIC SA", aliases: &[] },
        Codepoint { codepoint: 0x109B1, name: "MEROITIC CURSIVE LETTER SE", aliases: &[] },
        Codepoint { codepoint: 0x109B2, name: "MEROITIC CURSIVE LETTER KA", aliases: &[] },
        Codepoint { codepoint: 0x109B3, name: "MEROITIC CURSIVE LETTER QA", aliases: &[] },
        Codepoint { codepoint: 0x109B4, name: "MEROITIC CURSIVE LETTER TA", aliases: &[] },
        Codepoint { codepoint: 0x109B5, name: "MEROITIC CURSIVE LETTER TE", aliases: &[] },
        Codepoint { codepoint: 0x109B6, name: "MEROITIC CURSIVE LETTER TO", aliases: &[] },
        Codepoint { codepoint: 0x109B7, name: "MEROITIC CURSIVE LETTER DA", aliases: &[] },
        Codepoint { codepoint: 0x109BC, name: "MEROITIC CURSIVE FRACTION ELEVEN TWELFTHS", aliases: &[] },
        Codepoint { codepoint: 0x109BD, name: "MEROITIC CURSIVE FRACTION ONE HALF", aliases: &[] },
        Codepoint { codepoint: 0x109BE, name: "MEROITIC CURSIVE LOGOGRAM RMT", aliases: &[] },
        Codepoint { codepoint: 0x109BF, name: "MEROITIC CURSIVE LOGOGRAM IMN", aliases: &[] },
        Codepoint { codepoint: 0x109C0, name: "MEROITIC CURSIVE NUMBER ONE", aliases: &[] },
        Codepoint { codepoint: 0x109C1, name: "MEROITIC CURSIVE NUMBER TWO", aliases: &[] },
        Codepoint { codepoint: 0x109C2, name: "MEROITIC CURSIVE NUMBER THREE", aliases: &[] },
        Codepoint { codepoint: 0x109C3, name: "MEROITIC CURSIVE NUMBER FOUR", aliases: &[] },
        Codepoint { codepoint: 0x109C4, name: "MEROITIC CURSIVE NUMBER FIVE", aliases: &[] },
        Codepoint { codepoint: 0x109C5, name: "MEROITIC CURSIVE NUMBER SIX", aliases: &[] },
        Codepoint { codepoint: 0x109C6, name: "MEROITIC CURSIVE NUMBER SEVEN", aliases: &[] },
        Codepoint { codepoint: 0x109C7, name: "MEROITIC CURSIVE NUMBER EIGHT", aliases: &[] },
        Codepoint { codepoint: 0x109C8, name: "MEROITIC CURSIVE NUMBER NINE", aliases: &[] },
        Codepoint { codepoint: 0x109C9, name: "MEROITIC CURSIVE NUMBER TEN", aliases: &[] },
        Codepoint { codepoint: 0x109CA, name: "MEROITIC CURSIVE NUMBER TWENTY", aliases: &[] },
        Codepoint { codepoint: 0x109CB, name: "MEROITIC CURSIVE NUMBER THIRTY", aliases: &[] },
        Codepoint { codepoint: 0x109CC, name: "MEROITIC CURSIVE NUMBER FORTY", aliases: &[] },
        Codepoint { codepoint: 0x109CD, name: "MEROITIC CURSIVE NUMBER FIFTY", aliases: &[] },
        Codepoint { codepoint: 0x109CE, name: "MEROITIC CURSIVE NUMBER SIXTY", aliases: &[] },
        Codepoint { codepoint: 0x109CF, name: "MEROITIC CURSIVE NUMBER SEVENTY", aliases: &[] },
        Codepoint { codepoint: 0x109D2, name: "MEROITIC CURSIVE NUMBER ONE HUNDRED", aliases: &[] },
        Codepoint { codepoint: 0x109D3, name: "MEROITIC CURSIVE NUMBER TWO HUNDRED", aliases: &[] },
        Codepoint { codepoint: 0x109D4, name: "MEROITIC CURSIVE NUMBER THREE HUNDRED", aliases: &[] },
        Codepoint { codepoint: 0x109D5, name: "MEROITIC CURSIVE NUMBER FOUR HUNDRED", aliases: &[] },
        Codepoint { codepoint: 0x109D6, name: "MEROITIC CURSIVE NUMBER FIVE HUNDRED", aliases: &[] },
        Codepoint { codepoint: 0x109D7, name: "MEROITIC CURSIVE NUMBER SIX HUNDRED", aliases: &[] },
        Codepoint { codepoint: 0x109D8, name: "MEROITIC CURSIVE NUMBER SEVEN HUNDRED", aliases: &[] },
        Codepoint { codepoint: 0x109D9, name: "MEROITIC CURSIVE NUMBER EIGHT HUNDRED", aliases: &[] },
        Codepoint { codepoint: 0x109DA, name: "MEROITIC CURSIVE NUMBER NINE HUNDRED", aliases: &[] },
        Codepoint { codepoint: 0x109DB, name: "MEROITIC CURSIVE NUMBER ONE THOUSAND", aliases: &[] },
    ]
}

fn all_codepoints_467() -> (v: Vec<Codepoint>)
    ensures
        v@ == codepoint_table_467(),
{
    let v = vec![
        Codepoint { codepoint: 0x109AE, name: "MEROITIC CURSIVE LETTER HHA", aliases: &[] },
        Codepoint { codepoint: 0x109AF, name: "MEROITIC CURSIVE LETTER SA", aliases: &[] },
        Codepoint { codepoint: 0x109B0, name: "MEROITIC CURSIVE LETTER ARCHAIC SA", aliases: &[] },
        Codepoint { codepoint: 0x109B1, name: "MEROITIC CURSIVE LETTER SE", aliases: &[] },
        Codepoint { codepoint: 0x109B2, name: "MEROITIC CURSIVE LETTER KA", aliases: &[] },
        Codepoint { codepoint: 0x109B3, name: "MEROITIC CURSIVE LETTER QA", aliases: &[] },
        Codepoint { codepoint: 0x109B4, name: "MEROITIC CURSIVE LETTER TA", aliases: &[] },
        Codepoint { codepoint: 0x109B5, name: "MEROITIC CURSIVE LETTER TE", aliases: &[] },
        Codepoint { codepoint: 0x109B6, name: "MEROITIC CURSIVE LETTER TO", aliases: &[] },
        Codepoint { codepoint: 0x109B7, name: "MEROITIC CURSIVE LETTER DA", aliases: &[] },
        Codepoint { codepoint: 0x109BC, name: "MEROITIC CURSIVE FRACTION ELEVEN TWELFTHS", aliases: &[] },
        Codepoint { codepoint: 0x109BD, name: "MEROITIC CURSIVE FRACTION ONE HALF", aliases: &[] },
        Codepoint { codepoint: 0x109BE, name: "MEROITIC CURSIVE LOGOGRAM RMT", aliases: &[] },
        Codepoint { codepoint: 0x109BF, name: "MEROITIC CURSIVE LOGOGRAM IMN", aliases: &[] },
        Codepoint { codepoint: 0x109C0, name: "MEROITIC CURSIVE NUMBER ONE", aliases: &[] },
        Codepoint { codepoint: 0x109C1, name: "MEROITIC CURSIVE NUMBER TWO", aliases: &[] },
        Codepoint { codepoint: 0x109C2, name: "MEROITIC CURSIVE NUMBER THREE", aliases: &[] },
        Codepoint { codepoint: 0x109C3, name: "MEROITIC CURSIVE NUMBER FOUR", aliases: &[] },
        Codepoint { codepoint: 0x109C4, name: "MEROITIC CURSIVE NUMBER FIVE", aliases: &[] },
        Codepoint { codepoint: 0x109C5, name: "MEROITIC CURSIVE NUMBER SIX", aliases: &[] },
        Codepoint { codepoint: 0x109C6, name: "MEROITIC CURSIVE NUMBER SEVEN", aliases: &[] },
        Codepoint { codepoint: 0x109C7, name: "MEROITIC CURSIVE NUMBER EIGHT", aliases: &[] },
        Codepoint { codepoint: 0x109C8, name: "MEROITIC CURSIVE NUMBER NINE", aliases: &[] },
        Codepoint { codepoint: 0x109C9, name: "MEROITIC CURSIVE NUMBER TEN", aliases: &[] },
        Codepoint { codepoint: 0x109CA, name: "MEROITIC CURSIVE NUMBER TWENTY", aliases: &[] },
        Codepoint { codepoint: 0x109CB, name: "MEROITIC CURSIVE NUMBER THIRTY", aliases: &[] },
        Codepoint { codepoint: 0x109CC, name: "MEROITIC CURSIVE NUMBER FORTY", aliases: &[] },
        Codepoint { codepoint: 0x109CD, name: "MEROITIC CURSIVE NUMBER FIFTY", aliases: &[] },
        Codepoint { codepoint: 0x109CE, name: "MEROITIC CURSIVE NUMBER SIXTY", aliases: &[] },
        Codepoint { codepoint: 0x109CF, name: "MEROITIC CURSIVE NUMBER SEVENTY", aliases: &[] },
        Codepoint { codepoint: 0x109D2, name: "MEROITIC CURSIVE NUMBER ONE HUNDRED", aliases: &[] },
        Codepoint { codepoint: 0x109D3, name: "MEROITIC CURSIVE NUMBER TWO HUNDRED", aliases: &[] },
        Codepoint { codepoint: 0x109D4, name: "MEROITIC CURSIVE NUMBER THREE HUNDRED", aliases: &[] },
        Codepoint { codepoint: 0x109D5, name: "MEROITIC CURSIVE NUMBER FOUR HUNDRED", aliases: &[] },
        Codepoint { codepoint: 0x109D6, name: "MEROITIC CURSIVE NUMBER FIVE HUNDRED", aliases: &[] },
        Codepoint { codepoint: 0x109D7, name: "MEROITIC CURSIVE NUMBER SIX HUNDRED", aliases: &[] },
        Codepoint { codepoint: 0x109D8, name: "MEROITIC CURSIVE NUMBER SEVEN HUNDRED", aliases: &[] },
        Codepoint { codepoint: 0x109D9, name: "MEROITIC CURSIVE NUMBER EIGHT HUNDRED", aliases: &[] },
        Codepoint { codepoint: 0x109DA, name: "MEROITIC CURSIVE NUMBER NINE HUNDRED", aliases: &[] },
        Codepoint { codepoint: 0x109DB, name: "MEROITIC CURSIVE NUMBER ONE THOUSAND", aliases: &[] },
    ];
    assert(v@ =~= codepoint_table_467());
    v
}

pub open spec fn codepoint_table_468() -> Seq<Codepoint> {
    seq![
        Codepoint { codepoint: 0x109DC, name: "MEROITIC CURSIVE NUMBER TWO THOUSAND", aliases: &[] },
        Codepoint { codepoint: 0x109DD, name: "MEROITIC CURSIVE NUMBER THREE THOUSAND", aliases: &[] },
        Codepoint { codepoint: 0x109DE, name: "MEROITIC CURSIVE NUMBER FOUR THOUSAND", aliases: &[] },
        Codepoint { codepoint: 0x109DF, name: "MEROITIC CURSIVE NUMBER FIVE THOUSAND", aliases: &[] },
        Codepoint { codepoint: 0x109E0, name: "MEROITIC CURSIVE NUMBER SIX THOUSAND", aliases: &[] },
        Codepoint { codepoint: 0x109E1, name: "MEROITIC CURSIVE NUMBER SEVEN THOUSAND", aliases: &[] },
        Codepoint { codepoint: 0x109E2, name: "MEROITIC CURSIVE NUMBER EIGHT THOUSAND", aliases: &[] },
        Codepoint { codepoint: 0x109E3, name: "MEROITIC CURSIVE NUMBER NINE THOUSAND", aliases: &[] },
        Codepoint { codepoint: 0x109E4, name: "MEROITIC CURSIVE NUMBER TEN THOUSAND", aliases: &[] },
        Codepoint { codepoint: 0x109E5, name: "MEROITIC CURSIVE NUMBER TWENTY THOUSAND", aliases: &[] },
        Codepoint { codepoint: 0x109E6, name: "MEROITIC CURSIVE NUMBER THIRTY THOUSAND", aliases: &[] },
        Codepoint { codepoint: 0x109E7, name: "MEROITIC CURSIVE NUMBER FORTY THOUSAND", aliases: &[] },
        Codepoint { codepoint: 0x109E8, name: "MEROITIC CURSIVE NUMBER FIFTY THOUSAND", aliases: &[] },
        Codepoint { codepoint: 0x109E9, name: "MEROITIC CURSIVE NUMBER SIXTY THOUSAND", aliases: &[] },
        Codepoint { codepoint: 0x109EA, name: "MEROITIC CURSIVE NUMBER SEVENTY THOUSAND", aliases: &[] },
        Codepoint { codepoint: 0x109EB, name: "MEROITIC CURSIVE NUMBER EIGHTY THOUSAND", aliases: &[] },
        Codepoint { codepoint: 0x109EC, name: "MEROITIC CURSIVE NUMBER NINETY THOUSAND", aliases: &[] },
        Codepoint { codepoint: 0x109ED, name: "MEROITIC CURSIVE NUMBER ONE HUNDRED THOUSAND", aliases: &[] },
        Codepoint { codepoint: 0x109EE, name: "MEROITIC CURSIVE NUMBER TWO HUNDRED THOUSAND", aliases: &[] },
        Codepoint { codepoint: 0x109EF, name: "MEROITIC CURSIVE NUMBER THREE HUNDRED THOUSAND", aliases: &[] },
        Codepoint { codepoint: 0x109F0, name: "MEROITIC CURSIVE NUMBER FOUR HUNDRED THOUSAND", aliases: &[] },
        Codepoint { codepoint: 0x109F1, name: "MEROITIC CURSIVE NUMBER FIVE HUNDRED THOUSAND", aliases: &[] },
        Codepoint { codepoint: 0x109F2, name: "MEROITIC CURSIVE NUMBER SIX HUNDRED THOUSAND", aliases: &[] },
        Codepoint { codepoint: 0x109F3, name: "MEROITIC CURSIVE NUMBER SEVEN HUNDRED THOUSAND", aliases: &[] },
        Codepoint { codepoint: 0x109F4, name: "MEROITIC CURSIVE NUMBER EIGHT HUNDRED THOUSAND", aliases: &[] },
        Codepoint { codepoint: 0x109F5, name: "MEROITIC CURSIVE NUMBER NINE HUNDRED THOUSAND", aliases: &[] },
        Codepoint { codepoint: 0x109F6, name: "MEROITIC CURSIVE FRACTION ONE TWELFTH", aliases: &[] },
        Codepoint { codepoint: 0x109F7, name: "MEROITIC CURSIVE FRACTION TWO TWELFTHS", aliases: &[] },
        Codepoint { codepoint: 0x109F8, name: "MEROITIC CURSIVE FRACTION THREE TWELFTHS", aliases: &[] },
        Codepoint { codepoint: 0x109F9, name: "MEROITIC CURSIVE FRACTION FOUR TWELFTHS", aliases: &[] },
        Codepoint { codepoint: 0x109FA, name: "MEROITIC CURSIVE FRACTION FIVE TWELFTHS", aliases: &[] },
        Codepoint { codepoint: 0x109FB, name: "MEROITIC CURSIVE FRACTION SIX TWELFTHS", aliases: &[] },
        Codepoint { codepoint: 0x109FC, name: "MEROITIC CURSIVE FRACTION SEVEN TWELFTHS", aliases: &[] },
        Codepoint { codepoint: 0x109FD, name: "MEROITIC CURSIVE FRACTION EIGHT TWELFTHS", aliases: &[] },
        Codepoint { codepoint: 0x109FE, name: "MEROITIC CURSIVE FRACTION NINE TWELFTHS", aliases: &[] },
        Codepoint { codepoint: 0x109FF, name: "MEROITIC CURSIVE FRACTION TEN TWELFTHS", aliases: &[] },
        Codepoint { codepoint: 0x10A00, name: "KHAROSHTHI LETTER A", aliases: &[] },
        Codepoint { codepoint: 0x10A01, name: "KHAROSHTHI VOWEL SIGN I", aliases: &[] },
        Codepoint { codepoint: 0x10A02, name: "KHAROSHTHI VOWEL SIGN U", aliases: &[] },
        Codepoint { codepoint: 0x10A03, name: "KHAROSHTHI VOWEL SIGN VOCALIC R", aliases: &[] },
    ]
}

fn all_codepoints_468() -> (v: Vec<Codepoint>)
    ensures
        v@ == codepoint_table_468(),
{
    let v = vec![
        Codepoint { codepoint: 0x109DC, name: "MEROITIC CURSIVE NUMBER TWO THOUSAND", aliases: &[] },
        Codepoint { codepoint: 0x109DD, name: "MEROITIC CURSIVE NUMBER THREE THOUSAND", aliases: &[] },
        Codepoint { codepoint: 0x109DE, name: "MEROITIC CURSIVE NUMBER FOUR THOUSAND", aliases: &[] },
        Codepoint { codepoint: 0x109DF, name: "MEROITIC CURSIVE NUMBER FIVE THOUSAND", aliases: &[] },
        Codepoint { codepoint: 0x109E0, name: "MEROITIC CURSIVE NUMBER SIX THOUSAND", aliases: &[] },
        Codepoint { codepoint: 0x109E1, name: "MEROITIC CURSIVE NUMBER SEVEN THOUSAND", aliases: &[] },
        Codepoint { codepoint: 0x109E2, name: "MEROITIC CURSIVE NUMBER EIGHT THOUSAND", aliases: &[] },
        Codepoint { codepoint: 0x109E3, name: "MEROITIC CURSIVE NUMBER NINE THOUSAND", aliases: &[] },
        Codepoint { codepoint: 0x109E4, name: "MEROITIC CURSIVE NUMBER TEN THOUSAND", aliases: &[] },
        Codepoint { codepoint: 0x109E5, name: "MEROITIC CURSIVE NUMBER TWENTY THOUSAND", aliases: &[] },
        Codepoint { codepoint: 0x109E6, name: "MEROITIC CURSIVE NUMBER THIRTY THOUSAND", aliases: &[] },
        Codepoint { codepoint: 0x109E7, name: "MEROITIC CURSIVE NUMBER FORTY THOUSAND", aliases: &[] },
        Codepoint { codepoint: 0x109E8, name: "MEROITIC CURSIVE NUMBER FIFTY THOUSAND", aliases: &[] },
        Codepoint { codepoint: 0x109E9, name: "MEROITIC CURSIVE NUMBER SIXTY THOUSAND", aliases: &[] },
        Codepoint { codepoint: 0x109EA, name: "MEROITIC CURSIVE NUMBER SEVENTY THOUSAND", aliases: &[] },
        Codepoint { codepoint: 0x109EB, name: "MEROITIC CURSIVE NUMBER EIGHTY THOUSAND", aliases: &[] },
        Codepoint { codepoint: 0x109EC, name: "MEROITIC CURSIVE NUMBER NINETY THOUSAND", aliases: &[] },
        Codepoint { codepoint: 0x109ED, name: "MEROITIC CURSIVE NUMBER ONE HUNDRED THOUSAND", aliases: &[] },
        Codepoint { codepoint: 0x109EE, name: "MEROITIC CURSIVE NUMBER TWO HUNDRED THOUSAND", aliases: &[] },
        Codepoint { codepoint: 0x109EF, name: "MEROITIC CURSIVE NUMBER THREE HUNDRED THOUSAND", aliases: &[] },
        Codepoint { codepoint: 0x109F0, name: "MEROITIC CURSIVE NUMBER FOUR HUNDRED THOUSAND", aliases: &[] },
        Codepoint { codepoint: 0x109F1, name: "MEROITIC CURSIVE NUMBER FIVE HUNDRED THOUSAND", aliases: &[] },
        Codepoint { codepoint: 0x109F2, name: "MEROITIC CURSIVE NUMBER SIX HUNDRED THOUSAND", aliases: &[] },
        Codepoint { codepoint: 0x109F3, name: "MEROITIC CURSIVE NUMBER SEVEN HUNDRED THOUSAND", aliases: &[] },
        Codepoint { codepoint: 0x109F4, name: "MEROITIC CURSIVE NUMBER EIGHT HUNDRED THOUSAND", aliases: &[] },
        Codepoint { codepoint: 0x109F5, name: "MEROITIC CURSIVE NUMBER NINE HUNDRED THOUSAND", aliases: &[] },
        Codepoint { codepoint: 0x109F6, name: "MEROITIC CURSIVE FRACTION ONE TWELFTH", aliases: &[] },
        Codepoint { codepoint: 0x109F7, name: "MEROITIC CURSIVE FRACTION TWO TWELFTHS", aliases: &[] },
        Codepoint { codepoint: 0x109F8, name: "MEROITIC CURSIVE FRACTION THREE TWELFTHS", aliases: &[] },
        Codepoint { codepoint: 0x109F9, name: "MEROITIC CURSIVE FRACTION FOUR TWELFTHS", aliases: &[] },
        Codepoint { codepoint: 0x109FA, name: "MEROITIC CURSIVE FRACTION FIVE TWELFTHS", aliases: &[] },
        Codepoint { codepoint: 0x109FB, name: "MEROITIC CURSIVE FRACTION SIX TWELFTHS", aliases: &[] },
        Codepoint { codepoint: 0x109FC, name: "MEROITIC CURSIVE FRACTION SEVEN TWELFTHS", aliases: &[] },
        Codepoint { codepoint: 0x109FD, name: "MEROITIC CURSIVE FRACTION EIGHT TWELFTHS", aliases: &[] },
        Codepoint { codepoint: 0x109FE, name: "MEROITIC CURSIVE FRACTION NINE TWELFTHS", aliases: &[] },
        Codepoint { codepoint: 0x109FF, name: "MEROITIC CURSIVE FRACTION TEN TWELFTHS", aliases: &[] },
        Codepoint { codepoint: 0x10A00, name: "KHAROSHTHI LETTER A", aliases: &[] },
        Codepoint { codepoint: 0x10A01, name: "KHAROSHTHI VOWEL SIGN I", aliases: &[] },
        Codepoint { codepoint: 0x10A02, name: "KHAROSHTHI VOWEL SIGN U", aliases: &[] },
        Codepoint { codepoint: 0x10A03, name: "KHAROSHTHI VOWEL SIGN VOCALIC R", aliases: &[] },
    ];
    assert(v@ =~= codepoint_table_468());
    v
}

pub open spec fn codepoint_table_469() -> Seq<Codepoint> {
    seq![
        Codepoint { codepoint: 0x10A05, name: "KHAROSHTHI VOWEL SIGN E", aliases: &[] },
        Codepoint { codepoint: 0x10A06, name: "KHAROSHTHI VOWEL SIGN O", aliases: &[] },
        Codepoint { codepoint: 0x10A0C, name: "KHAROSHTHI VOWEL LENGTH MARK", aliases: &[] },
        Codepoint { codepoint: 0x10A0D, name: "KHAROSHTHI SIGN DOUBLE RING BELOW", aliases: &[] },
        Codepoint { codepoint: 0x10A0E, name: "KHAROSHTHI SIGN ANUSVARA", aliases: &[] },
        Codepoint { codepoint: 0x10A0F, name: "KHAROSHTHI SIGN VISARGA", aliases: &[] },
        Codepoint { codepoint: 0x10A10, name: "KHAROSHTHI LETTER KA", aliases: &[] },
        Codepoint { codepoint: 0x10A11, name: "KHAROSHTHI LETTER KHA", aliases: &[] },
        Codepoint { codepoint: 0x10A12, name: "KHAROSHTHI LETTER GA", aliases: &[] },
        Codepoint { codepoint: 0x10A13, name: "KHAROSHTHI LETTER GHA", aliases: &[] },
        Codepoint { codepoint: 0x10A15, name: "KHAROSHTHI LETTER CA", aliases: &[] },
        Codepoint { codepoint: 0x10A16, name: "KHAROSHTHI LETTER CHA", aliases: &[] },
        Codepoint { codepoint: 0x10A17, name: "KHAROSHTHI LETTER JA", aliases: &[] },
        Codepoint { codepoint: 0x10A19, name: "KHAROSHTHI LETTER NYA", aliases: &[] },
        Codepoint { codepoint: 0x10A1A, name: "KHAROSHTHI LETTER TTA", aliases: &[] },
        Codepoint { codepoint: 0x10A1B, name: "KHAROSHTHI LETTER TTHA", aliases: &[] },
        Codepoint { codepoint: 0x10A1C, name: "KHAROSHTHI LETTER DDA", aliases: &[] },
        Codepoint { codepoint: 0x10A1D, name: "KHAROSHTHI LETTER DDHA", aliases: &[] },
        Codepoint { codepoint: 0x10A1E, name: "KHAROSHTHI LETTER NNA", aliases: &[] },
        Codepoint { codepoint: 0x10A1F, name: "KHAROSHTHI LETTER TA", aliases: &[] },
        Codepoint { codepoint: 0x10A20, name: "KHAROSHTHI LETTER THA", aliases: &[] },
        Codepoint { codepoint: 0x10A21, name: "KHAROSHTHI LETTER DA", aliases: &[] },
        Codepoint { codepoint: 0x10A22, name: "KHAROSHTHI LETTER DHA", aliases: &[] },
        Codepoint { codepoint: 0x10A23, name: "KHAROSHTHI LETTER NA", aliases: &[] },
        Codepoint { codepoint: 0x10A24, name: "KHAROSHTHI LETTER PA", aliases: &[] },
        Codepoint { codepoint: 0x10A25, name: "KHAROSHTHI LETTER PHA", aliases: &[] },
        Codepoint { codepoint: 0x10A26, name: "KHAROSHTHI LETTER BA", aliases: &[] },
        Codepoint { codepoint: 0x10A27, name: "KHAROSHTHI LETTER BHA", aliases: &[] },
        Codepoint { codepoint: 0x10A28, name: "KHAROSHTHI LETTER MA", aliases: &[] },
        Codepoint { codepoint: 0x10A29, name: "KHAROSHTHI LETTER YA", aliases: &[] },
        Codepoint { codepoint: 0x10A2A, name: "KHAROSHTHI LETTER RA", aliases: &[] },
        Codepoint { codepoint: 0x10A2B, name: "KHAROSHTHI LETTER LA", aliases: &[] },
        Codepoint { codepoint: 0x10A2C, name: "KHAROSHTHI LETTER VA", aliases: &[] },
        Codepoint { codepoint: 0x10A2D, name: "KHAROSHTHI LETTER SHA", aliases: &[] },
        Codepoint { codepoint: 0x10A2E, name: "KHAROSHTHI LETTER SSA", aliases: &[] },
        Codepoint { codepoint: 0x10A2F, name: "KHAROSHTHI LETTER SA", aliases: &[] },
        Codepoint { codepoint: 0x10A30, name: "KHAROSHTHI LETTER ZA", aliases: &[] },
        Codepoint { codepoint: 0x10A31, name: "KHAROSHTHI LETTER HA", aliases: &[] },
        Codepoint { codepoint: 0x10A32, name: "KHAROSHTHI LETTER KKA", aliases: &[] },
        Codepoint { codepoint: 0x10A33, name: "KHAROSHTHI LETTER TTTHA", aliases: &[] },
    ]
}

fn all_codepoints_469() -> (v: Vec<Codepoint>)
    ensures
        v@ == codepoint_table_469(),
{
    let v = vec![
        Codepoint { codepoint: 0x10A05, name: "KHAROSHTHI VOWEL SIGN E", aliases: &[] },
        Codepoint { codepoint: 0x10A06, name: "KHAROSHTHI VOWEL SIGN O", aliases: &[] },
        Codepoint { codepoint: 0x10A0C, name: "KHAROSHTHI VOWEL LENGTH MARK", aliases: &[] },
        Codepoint { codepoint: 0x10A0D, name: "KHAROSHTHI SIGN DOUBLE RING BELOW", aliases: &[] },
        Codepoint { codepoint: 0x10A0E, name: "KHAROSHTHI SIGN ANUSVARA", aliases: &[] },
        Codepoint { codepoint: 0x10A0F, name: "KHAROSHTHI SIGN VISARGA", aliases: &[] },
        Codepoint { codepoint: 0x10A10, name: "KHAROSHTHI LETTER KA", aliases: &[] },
        Codepoint { codepoint: 0x10A11, name: "KHAROSHTHI LETTER KHA", aliases: &[] },
        Codepoint { codepoint: 0x10A12, name: "KHAROSHTHI LETTER GA", aliases: &[] },
        Codepoint { codepoint: 0x10A13, name: "KHAROSHTHI LETTER GHA", aliases: &[] },
        Codepoint { codepoint: 0x10A15, name: "KHAROSHTHI LETTER CA", aliases: &[] },
        Codepoint { codepoint: 0x10A16, name: "KHAROSHTHI LETTER CHA", aliases: &[] },
        Codepoint { codepoint: 0x10A17, name: "KHAROSHTHI LETTER JA", aliases: &[] },
        Codepoint { codepoint: 0x10A19, name: "KHAROSHTHI LETTER NYA", aliases: &[] },
        Codepoint { codepoint: 0x10A1A, name: "KHAROSHTHI LETTER TTA", aliases: &[] },
        Codepoint { codepoint: 0x10A1B, name: "KHAROSHTHI LETTER TTHA", aliases: &[] },
        Codepoint { codepoint: 0x10A1C, name: "KHAROSHTHI LETTER DDA", aliases: &[] },
        Codepoint { codepoint: 0x10A1D, name: "KHAROSHTHI LETTER DDHA", aliases: &[] },
        Codepoint { codepoint: 0x10A1E, name: "KHAROSHTHI LETTER NNA", aliases: &[] },
        Codepoint { codepoint: 0x10A1F, name: "KHAROSHTHI LETTER TA", aliases: &[] },
        Codepoint { codepoint: 0x10A20, name: "KHAROSHTHI LETTER THA", aliases: &[] },
        Codepoint { codepoint: 0x10A21, name: "KHAROSHTHI LETTER DA", aliases: &[] },
        Codepoint { codepoint: 0x10A22, name: "KHAROSHTHI LETTER DHA", aliases: &[] },
        Codepoint { codepoint: 0x10A23, name: "KHAROSHTHI LETTER NA", aliases: &[] },
        Codepoint { codepoint: 0x10A24, name: "KHAROSHTHI LETTER PA", aliases: &[] },
        Codepoint { codepoint: 0x10A25, name: "KHAROSHTHI LETTER PHA", aliases: &[] },
        Codepoint { codepoint: 0x10A26, name: "KHAROSHTHI LETTER BA", aliases: &[] },
        Codepoint { codepoint: 0x10A27, name: "KHAROSHTHI LETTER BHA", aliases: &[] },
        Codepoint { codepoint: 0x10A28, name: "KHAROSHTHI LETTER MA", aliases: &[] },
        Codepoint { codepoint: 0x10A29, name: "KHAROSHTHI LETTER YA", aliases: &[] },
        Codepoint { codepoint: 0x10A2A, name: "KHAROSHTHI LETTER RA", aliases: &[] },
        Codepoint { codepoint: 0x10A2B, name: "KHAROSHTHI LETTER LA", aliases: &[] },
        Codepoint { codepoint: 0x10A2C, name: "KHAROSHTHI LETTER VA", aliases: &[] },
        Codepoint { codepoint: 0x10A2D, name: "KHAROSHTHI LETTER SHA", aliases: &[] },
        Codepoint { codepoint: 0x10A2E, name: "KHAROSHTHI LETTER SSA", aliases: &[] },
        Codepoint { codepoint: 0x10A2F, name: "KHAROSHTHI LETTER SA", aliases: &[] },
        Codepoint { codepoint: 0x10A30, name: "KHAROSHTHI LETTER ZA", aliases: &[] },
        Codepoint { codepoint: 0x10A31, name: "KHAROSHTHI LETTER HA", aliases: &[] },
        Codepoint { codepoint: 0x10A32, name: "KHAROSHTHI LETTER KKA", aliases: &[] },
        Codepoint { codepoint: 0x10A33, name: "KHAROSHTHI LETTER TTTHA", aliases: &[] },
    ];
    assert(v@ =~= codepoint_table_469());
    v
}

pub open spec fn codepoint_table_470() -> Seq<Codepoint> {
    seq![
        Codepoint { codepoint: 0x10A34, name: "KHAROSHTHI LETTER TTTA", aliases: &[] },
        Codepoint { codepoint: 0x10A35, name: "KHAROSHTHI LETTER VHA", aliases: &[] },
        Codepoint { codepoint: 0x10A38, name: "KHAROSHTHI SIGN BAR ABOVE", aliases: &[] },
        Codepoint { codepoint: 0x10A39, name: "KHAROSHTHI SIGN CAUDA", aliases: &[] },
        Codepoint { codepoint: 0x10A3A, name: "KHAROSHTHI SIGN DOT BELOW", aliases: &[] },
        Codepoint { codepoint: 0x10A3F, name: "KHAROSHTHI VIRAMA", aliases: &[] },
        Codepoint { codepoint: 0x10A40, name: "KHAROSHTHI DIGIT ONE", aliases: &[] },
        Codepoint { codepoint: 0x10A41, name: "KHAROSHTHI DIGIT TWO", aliases: &[] },
        Codepoint { codepoint: 0x10A42, name: "KHAROSHTHI DIGIT THREE", aliases: &[] },
        Codepoint { codepoint: 0x10A43, name: "KHAROSHTHI DIGIT FOUR", aliases: &[] },
        Codepoint { codepoint: 0x10A44, name: "KHAROSHTHI NUMBER TEN", aliases: &[] },
        Codepoint { codepoint: 0x10A45, name: "KHAROSHTHI NUMBER TWENTY", aliases: &[] },
        Codepoint { codepoint: 0x10A46, name: "KHAROSHTHI NUMBER ONE HUNDRED", aliases: &[] },
        Codepoint { codepoint: 0x10A47, name: "KHAROSHTHI NUMBER ONE THOUSAND", aliases: &[] },
        Codepoint { codepoint: 0x10A48, name: "KHAROSHTHI FRACTION ONE HALF", aliases: &[] },
        Codepoint { codepoint: 0x10A50, name: "KHAROSHTHI PUNCTUATION DOT", aliases: &[] },
        Codepoint { codepoint: 0x10A51, name: "KHAROSHTHI PUNCTUATION SMALL CIRCLE", aliases: &[] },
        Codepoint { codepoint: 0x10A52, name: "KHAROSHTHI PUNCTUATION CIRCLE", aliases: &[] },
        Codepoint { codepoint: 0x10A53, name: "KHAROSHTHI PUNCTUATION CRESCENT BAR", aliases: &[] },
        Codepoint { codepoint: 0x10A54, name: "KHAROSHTHI PUNCTUATION MANGALAM", aliases: &[] },
        Codepoint { codepoint: 0x10A55, name: "KHAROSHTHI PUNCTUATION LOTUS", aliases: &[] },
        Codepoint { codepoint: 0x10A56, name: "KHAROSHTHI PUNCTUATION DANDA", aliases: &[] },
        Codepoint { codepoint: 0x10A57, name: "KHAROSHTHI PUNCTUATION DOUBLE DANDA", aliases: &[] },
        Codepoint { codepoint: 0x10A58, name: "KHAROSHTHI PUNCTUATION LINES", aliases: &[] },
        Codepoint { codepoint: 0x10A60, name: "OLD SOUTH ARABIAN LETTER HE", aliases: &[] },
        Codepoint { codepoint: 0x10A61, name: "OLD SOUTH ARABIAN LETTER LAMEDH", aliases: &[] },
        Codepoint { codepoint: 0x10A62, name: "OLD SOUTH ARABIAN LETTER HETH", aliases: &[] },
        Codepoint { codepoint: 0x10A63, name: "OLD SOUTH ARABIAN LETTER MEM", aliases: &[] },
        Codepoint { codepoint: 0x10A64, name: "OLD SOUTH ARABIAN LETTER QOPH", aliases: &[] },
        Codepoint { codepoint: 0x10A65, name: "OLD SOUTH ARABIAN LETTER WAW", aliases: &[] },
        Codepoint { codepoint: 0x10A66, name: "OLD SOUTH ARABIAN LETTER SHIN", aliases: &[] },
        Codepoint { codepoint: 0x10A67, name: "OLD SOUTH ARABIAN LETTER RESH", aliases: &[] },
        Codepoint { codepoint: 0x10A68, name: "OLD SOUTH ARABIAN LETTER BETH", aliases: &[] },
        Codepoint { codepoint: 0x10A69, name: "OLD SOUTH ARABIAN LETTER TAW", aliases: &[] },
        Codepoint { codepoint: 0x10A6A, name: "OLD SOUTH ARABIAN LETTER SAT", aliases: &[] },
        Codepoint { codepoint: 0x10A6B, name: "OLD SOUTH ARABIAN LETTER KAPH", aliases: &[] },
        Codepoint { codepoint: 0x10A6C, name: "OLD SOUTH ARABIAN LETTER NUN", aliases: &[] },
        Codepoint { codepoint: 0x10A6D, name: "OLD SOUTH ARABIAN LETTER KHETH", aliases: &[] },
        Codepoint { codepoint: 0x10A6E, name: "OLD SOUTH ARABIAN LETTER SADHE", aliases: &[] },
        Codepoint { codepoint: 0x10A6F, name: "OLD SOUTH ARABIAN LETTER SAMEKH", aliases: &[] },
    ]
}

fn all_codepoints_470() -> (v: Vec<Codepoint>)
    ensures
        v@ == codepoint_table_470(),
{
    let v = vec![
        Codepoint { codepoint: 0x10A34, name: "KHAROSHTHI LETTER TTTA", aliases: &[] },
        Codepoint { codepoint: 0x10A35, name: "KHAROSHTHI LETTER VHA", aliases: &[] },
        Codepoint { codepoint: 0x10A38, name: "KHAROSHTHI SIGN BAR ABOVE", aliases: &[] },
        Codepoint { codepoint: 0x10A39, name: "KHAROSHTHI SIGN CAUDA", aliases: &[] },
        Codepoint { codepoint: 0x10A3A, name: "KHAROSHTHI SIGN DOT BELOW", aliases: &[] },
        Codepoint { codepoint: 0x10A3F, name: "KHAROSHTHI VIRAMA", aliases: &[] },
        Codepoint { codepoint: 0x10A40, name: "KHAROSHTHI DIGIT ONE", aliases: &[] },
        Codepoint { codepoint: 0x10A41, name: "KHAROSHTHI DIGIT TWO", aliases: &[] },
        Codepoint { codepoint: 0x10A42, name: "KHAROSHTHI DIGIT THREE", aliases: &[] },
        Codepoint { codepoint: 0x10A43, name: "KHAROSHTHI DIGIT FOUR", aliases: &[] },
        Codepoint { codepoint: 0x10A44, name: "KHAROSHTHI NUMBER TEN", aliases: &[] },
        Codepoint { codepoint: 0x10A45, name: "KHAROSHTHI NUMBER TWENTY", aliases: &[] },
        Codepoint { codepoint: 0x10A46, name: "KHAROSHTHI NUMBER ONE HUNDRED", aliases: &[] },
        Codepoint { codepoint: 0x10A47, name: "KHAROSHTHI NUMBER ONE THOUSAND", aliases: &[] },
        Codepoint { codepoint: 0x10A48, name: "KHAROSHTHI FRACTION ONE HALF", aliases: &[] },
        Codepoint { codepoint: 0x10A50, name: "KHAROSHTHI PUNCTUATION DOT", aliases: &[] },
        Codepoint { codepoint: 0x10A51, name: "KHAROSHTHI PUNCTUATION SMALL CIRCLE", aliases: &[] },
        Codepoint { codepoint: 0x10A52, name: "KHAROSHTHI PUNCTUATION CIRCLE", aliases: &[] },
        Codepoint { codepoint: 0x10A53, name: "KHAROSHTHI PUNCTUATION CRESCENT BAR", aliases: &[] },
        Codepoint { codepoint: 0x10A54, name: "KHAROSHTHI PUNCTUATION MANGALAM", aliases: &[] },
        Codepoint { codepoint: 0x10A55, name: "KHAROSHTHI PUNCTUATION LOTUS", aliases: &[] },
        Codepoint { codepoint: 0x10A56, name: "KHAROSHTHI PUNCTUATION DANDA", aliases: &[] },
        Codepoint { codepoint: 0x10A57, name: "KHAROSHTHI PUNCTUATION DOUBLE DANDA", aliases: &[] },
        Codepoint { codepoint: 0x10A58, name: "KHAROSHTHI PUNCTUATION LINES", aliases: &[] },
        Codepoint { codepoint: 0x10A60, name: "OLD SOUTH ARABIAN LETTER HE", aliases: &[] },
        Codepoint { codepoint: 0x10A61, name: "OLD SOUTH ARABIAN LETTER LAMEDH", aliases: &[] },
        Codepoint { codepoint: 0x10A62, name: "OLD SOUTH ARABIAN LETTER HETH", aliases: &[] },
        Codepoint { codepoint: 0x10A63, name: "OLD SOUTH ARABIAN LETTER MEM", aliases: &[] },
        Codepoint { codepoint: 0x10A64, name: "OLD SOUTH ARABIAN LETTER QOPH", aliases: &[] },
        Codepoint { codepoint: 0x10A65, name: "OLD SOUTH ARABIAN LETTER WAW", aliases: &[] },
        Codepoint { codepoint: 0x10A66, name: "OLD SOUTH ARABIAN LETTER SHIN", aliases: &[] },
        Codepoint { codepoint: 0x10A67, name: "OLD SOUTH ARABIAN LETTER RESH", aliases: &[] },
        Codepoint { codepoint: 0x10A68, name: "OLD SOUTH ARABIAN LETTER BETH", aliases: &[] },
        Codepoint { codepoint: 0x10A69, name: "OLD SOUTH ARABIAN LETTER TAW", aliases: &[] },
        Codepoint { codepoint: 0x10A6A, name: "OLD SOUTH ARABIAN LETTER SAT", aliases: &[] },
        Codepoint { codepoint: 0x10A6B, name: "OLD SOUTH ARABIAN LETTER KAPH", aliases: &[] },
        Codepoint { codepoint: 0x10A6C, name: "OLD SOUTH ARABIAN LETTER NUN", aliases: &[] },
        Codepoint { codepoint: 0x10A6D, name: "OLD SOUTH ARABIAN LETTER KHETH", aliases: &[] },
        Codepoint { codepoint: 0x10A6E, name: "OLD SOUTH ARABIAN LETTER SADHE", aliases: &[] },
        Codepoint { codepoint: 0x10A6F, name: "OLD SOUTH ARABIAN LETTER SAMEKH", aliases: &[] },
    ];
    assert(v@ =~= codepoint_table_470());
    v
}

pub open spec fn codepoint_table_471() -> Seq<Codepoint> {
    seq![
        Codepoint { codepoint: 0x10A70, name: "OLD SOUTH ARABIAN LETTER FE", aliases: &[] },
        Codepoint { codepoint: 0x10A71, name: "OLD SOUTH ARABIAN LETTER ALEF", aliases: &[] },
        Codepoint { codepoint: 0x10A72, name: "OLD SOUTH ARABIAN LETTER AYN", aliases: &[] },
        Codepoint { codepoint: 0x10A73, name: "OLD SOUTH ARABIAN LETTER DHADHE", aliases: &[] },
        Codepoint { codepoint: 0x10A74, name: "OLD SOUTH ARABIAN LETTER GIMEL", aliases: &[] },
        Codepoint { codepoint: 0x10A75, name: "OLD SOUTH ARABIAN LETTER DALETH", aliases: &[] },
        Codepoint { codepoint: 0x10A76, name: "OLD SOUTH ARABIAN LETTER GHAYN", aliases: &[] },
        Codepoint { codepoint: 0x10A77, name: "OLD SOUTH ARABIAN LETTER TETH", aliases: &[] },
        Codepoint { codepoint: 0x10A78, name: "OLD SOUTH ARABIAN LETTER ZAYN", aliases: &[] },
        Codepoint { codepoint: 0x10A79, name: "OLD SOUTH ARABIAN LETTER DHALETH", aliases: &[] },
        Codepoint { codepoint: 0x10A7A, name: "OLD SOUTH ARABIAN LETTER YODH", aliases: &[] },
        Codepoint { codepoint: 0x10A7B, name: "OLD SOUTH ARABIAN LETTER THAW", aliases: &[] },
        Codepoint { codepoint: 0x10A7C, name: "OLD SOUTH ARABIAN LETTER THETH", aliases: &[] },
        Codepoint { codepoint: 0x10A7D, name: "OLD SOUTH ARABIAN NUMBER ONE", aliases: &[] },
        Codepoint { codepoint: 0x10A7E, name: "OLD SOUTH ARABIAN NUMBER FIFTY", aliases: &[] },
        Codepoint { codepoint: 0x10A7F, name: "OLD SOUTH ARABIAN NUMERIC INDICATOR", aliases: &[] },
        Codepoint { codepoint: 0x10A80, name: "OLD NORTH ARABIAN LETTER HEH", aliases: &[] },
        Codepoint { codepoint: 0x10A81, name: "OLD NORTH ARABIAN LETTER LAM", aliases: &[] },
        Codepoint { codepoint: 0x10A82, name: "OLD NORTH ARABIAN LETTER HAH", aliases: &[] },
        Codepoint { codepoint: 0x10A83, name: "OLD NORTH ARABIAN LETTER MEEM", aliases: &[] },
        Codepoint { codepoint: 0x10A84, name: "OLD NORTH ARABIAN LETTER QAF", aliases: &[] },
        Codepoint { codepoint: 0x10A85, name: "OLD NORTH ARABIAN LETTER WAW", aliases: &[] },
        Codepoint { codepoint: 0x10A86, name: "OLD NORTH ARABIAN LETTER ES-2", aliases: &[] },
        Codepoint { codepoint: 0x10A87, name: "OLD NORTH ARABIAN LETTER REH", aliases: &[] },
        Codepoint { codepoint: 0x10A88, name: "OLD NORTH ARABIAN LETTER BEH", aliases: &[] },
        Codepoint { codepoint: 0x10A89, name: "OLD NORTH ARABIAN LETTER TEH", aliases: &[] },
        Codepoint { codepoint: 0x10A8A, name: "OLD NORTH ARABIAN LETTER ES-1", aliases: &[] },
        Codepoint { codepoint: 0x10A8B, name: "OLD NORTH ARABIAN LETTER KAF", aliases: &[] },
        Codepoint { codepoint: 0x10A8C, name: "OLD NORTH ARABIAN LETTER NOON", aliases: &[] },
        Codepoint { codepoint: 0x10A8D, name: "OLD NORTH ARABIAN LETTER KHAH", aliases: &[] },
        Codepoint { codepoint: 0x10A8E, name: "OLD NORTH ARABIAN LETTER SAD", aliases: &[] },
        Codepoint { codepoint: 0x10A8F, name: "OLD NORTH ARABIAN LETTER ES-3", aliases: &[] },
        Codepoint { codepoint: 0x10A90, name: "OLD NORTH ARABIAN LETTER FEH", aliases: &[] },
        Codepoint { codepoint: 0x10A91, name: "OLD NORTH ARABIAN LETTER ALEF", aliases: &[] },
        Codepoint { codepoint: 0x10A92, name: "OLD NORTH ARABIAN LETTER AIN", aliases: &[] },
        Codepoint { codepoint: 0x10A93, name: "OLD NORTH ARABIAN LETTER DAD", aliases: &[] },
        Codepoint { codepoint: 0x10A94, name: "OLD NORTH ARABIAN LETTER GEEM", aliases: &[] },
        Codepoint { codepoint: 0x10A95, name: "OLD NORTH ARABIAN LETTER DAL", aliases: &[] },
        Codepoint { codepoint: 0x10A96, name: "OLD NORTH ARABIAN LETTER GHAIN", aliases: &[] },
        Codepoint { codepoint: 0x10A97, name: "OLD NORTH ARABIAN LETTER TAH", aliases: &[] },
    ]
}

fn all_codepoints_471() -> (v: Vec<Codepoint>)
    ensures
        v@ == codepoint_table_471(),
{
    let v = vec![
        Codepoint { codepoint: 0x10A70, name: "OLD SOUTH ARABIAN LETTER FE", aliases: &[] },
        Codepoint { codepoint: 0x10A71, name: "OLD SOUTH ARABIAN LETTER ALEF", aliases: &[] },
        Codepoint { codepoint: 0x10A72, name: "OLD SOUTH ARABIAN LETTER AYN", aliases: &[] },
        Codepoint { codepoint: 0x10A73, name: "OLD SOUTH ARABIAN LETTER DHADHE", aliases: &[] },
        Codepoint { codepoint: 0x10A74, name: "OLD SOUTH ARABIAN LETTER GIMEL", aliases: &[] },
        Codepoint { codepoint: 0x10A75, name: "OLD SOUTH ARABIAN LETTER DALETH", aliases: &[] },
        Codepoint { codepoint: 0x10A76, name: "OLD SOUTH ARABIAN LETTER GHAYN", aliases: &[] },
        Codepoint { codepoint: 0x10A77, name: "OLD SOUTH ARABIAN LETTER TETH", aliases: &[] },
        Codepoint { codepoint: 0x10A78, name: "OLD SOUTH ARABIAN LETTER ZAYN", aliases: &[] },
        Codepoint { codepoint: 0x10A79, name: "OLD SOUTH ARABIAN LETTER DHALETH", aliases: &[] },
        Codepoint { codepoint: 0x10A7A, name: "OLD SOUTH ARABIAN LETTER YODH", aliases: &[] },
        Codepoint { codepoint: 0x10A7B, name: "OLD SOUTH ARABIAN LETTER THAW", aliases: &[] },
        Codepoint { codepoint: 0x10A7C, name: "OLD SOUTH ARABIAN LETTER THETH", aliases: &[] },
        Codepoint { codepoint: 0x10A7D, name: "OLD SOUTH ARABIAN NUMBER ONE", aliases: &[] },
        Codepoint { codepoint: 0x10A7E, name: "OLD SOUTH ARABIAN NUMBER FIFTY", aliases: &[] },
        Codepoint { codepoint: 0x10A7F, name: "OLD SOUTH ARABIAN NUMERIC INDICATOR", aliases: &[] },
        Codepoint { codepoint: 0x10A80, name: "OLD NORTH ARABIAN LETTER HEH", aliases: &[] },
        Codepoint { codepoint: 0x10A81, name: "OLD NORTH ARABIAN LETTER LAM", aliases: &[] },
        Codepoint { codepoint: 0x10A82, name: "OLD NORTH ARABIAN LETTER HAH", aliases: &[] },
        Codepoint { codepoint: 0x10A83, name: "OLD NORTH ARABIAN LETTER MEEM", aliases: &[] },
        Codepoint { codepoint: 0x10A84, name: "OLD NORTH ARABIAN LETTER QAF", aliases: &[] },
        Codepoint { codepoint: 0x10A85, name: "OLD NORTH ARABIAN LETTER WAW", aliases: &[] },
        Codepoint { codepoint: 0x10A86, name: "OLD NORTH ARABIAN LETTER ES-2", aliases: &[] },
        Codepoint { codepoint: 0x10A87, name: "OLD NORTH ARABIAN LETTER REH", aliases: &[] },
        Codepoint { codepoint: 0x10A88, name: "OLD NORTH ARABIAN LETTER BEH", aliases: &[] },
        Codepoint { codepoint: 0x10A89, name: "OLD NORTH ARABIAN LETTER TEH", aliases: &[] },
        Codepoint { codepoint: 0x10A8A, name: "OLD NORTH ARABIAN LETTER ES-1", aliases: &[] },
        Codepoint { codepoint: 0x10A8B, name: "OLD NORTH ARABIAN LETTER KAF", aliases: &[] },
        Codepoint { codepoint: 0x10A8C, name: "OLD NORTH ARABIAN LETTER NOON", aliases: &[] },
        Codepoint { codepoint: 0x10A8D, name: "OLD NORTH ARABIAN LETTER KHAH", aliases: &[] },
        Codepoint { codepoint: 0x10A8E, name: "OLD NORTH ARABIAN LETTER SAD", aliases: &[] },
        Codepoint { codepoint: 0x10A8F, name: "OLD NORTH ARABIAN LETTER ES-3", aliases: &[] },
        Codepoint { codepoint: 0x10A90, name: "OLD NORTH ARABIAN LETTER FEH", aliases: &[] },
        Codepoint { codepoint: 0x10A91, name: "OLD NORTH ARABIAN LETTER ALEF", aliases: &[] },
        Codepoint { codepoint: 0x10A92, name: "OLD NORTH ARABIAN LETTER AIN", aliases: &[] },
        Codepoint { codepoint: 0x10A93, name: "OLD NORTH ARABIAN LETTER DAD", aliases: &[] },
        Codepoint { codepoint: 0x10A94, name: "OLD NORTH ARABIAN LETTER GEEM", aliases: &[] },
        Codepoint { codepoint: 0x10A95, name: "OLD NORTH ARABIAN LETTER DAL", aliases: &[] },
        Codepoint { codepoint: 0x10A96, name: "OLD NORTH ARABIAN LETTER GHAIN", aliases: &[] },
        Codepoint { codepoint: 0x10A97, name: "OLD NORTH ARABIAN LETTER TAH", aliases: &[] },
    ];
    assert(v@ =~= codepoint_table_471());
    v
}

pub open spec fn codepoint_table_472() -> Seq<Codepoint> {
    seq![
        Codepoint { codepoint: 0x10A98, name: "OLD NORTH ARABIAN LETTER ZAIN", aliases: &[] },
        Codepoint { codepoint: 0x10A99, name: "OLD NORTH ARABIAN LETTER THAL", aliases: &[] },
        Codepoint { codepoint: 0x10A9A, name: "OLD NORTH ARABIAN LETTER YEH", aliases: &[] },
        Codepoint { codepoint: 0x10A9B, name: "OLD NORTH ARABIAN LETTER THEH", aliases: &[] },
        Codepoint { codepoint: 0x10A9C, name: "OLD NORTH ARABIAN LETTER ZAH", aliases: &[] },
        Codepoint { codepoint: 0x10A9D, name: "OLD NORTH ARABIAN NUMBER ONE", aliases: &[] },
        Codepoint { codepoint: 0x10A9E, name: "OLD NORTH ARABIAN NUMBER TEN", aliases: &[] },
        Codepoint { codepoint: 0x10A9F, name: "OLD NORTH ARABIAN NUMBER TWENTY", aliases: &[] },
        Codepoint { codepoint: 0x10AC0, name: "MANICHAEAN LETTER ALEPH", aliases: &[] },
        Codepoint { codepoint: 0x10AC1, name: "MANICHAEAN LETTER BETH", aliases: &[] },
        Codepoint { codepoint: 0x10AC2, name: "MANICHAEAN LETTER BHETH", aliases: &[] },
        Codepoint { codepoint: 0x10AC3, name: "MANICHAEAN LETTER GIMEL", aliases: &[] },
        Codepoint { codepoint: 0x10AC4, name: "MANICHAEAN LETTER GHIMEL", aliases: &[] },
        Codepoint { codepoint: 0x10AC5, name: "MANICHAEAN LETTER DALETH", aliases: &[] },
        Codepoint { codepoint: 0x10AC6, name: "MANICHAEAN LETTER HE", aliases: &[] },
        Codepoint { codepoint: 0x10AC7, name: "MANICHAEAN LETTER WAW", aliases: &[] },
        Codepoint { codepoint: 0x10AC8, name: "MANICHAEAN SIGN UD", aliases: &[] },
        Codepoint { codepoint: 0x10AC9, name: "MANICHAEAN LETTER ZAYIN", aliases: &[] },
        Codepoint { codepoint: 0x10ACA, name: "MANICHAEAN LETTER ZHAYIN", aliases: &[] },
        Codepoint { codepoint: 0x10ACB, name: "MANICHAEAN LETTER JAYIN", aliases: &[] },
        Codepoint { codepoint: 0x10ACC, name: "MANICHAEAN LETTER JHAYIN", aliases: &[] },
        Codepoint { codepoint: 0x10ACD, name: "MANICHAEAN LETTER HETH", aliases: &[] },
        Codepoint { codepoint: 0x10ACE, name: "MANICHAEAN LETTER TETH", aliases: &[] },
        Codepoint { codepoint: 0x10ACF, name: "MANICHAEAN LETTER YODH", aliases: &[] },
        Codepoint { codepoint: 0x10AD0, name: "MANICHAEAN LETTER KAPH", aliases: &[] },
        Codepoint { codepoint: 0x10AD1, name: "MANICHAEAN LETTER XAPH", aliases: &[] },
        Codepoint { codepoint: 0x10AD2, name: "MANICHAEAN LETTER KHAPH", aliases: &[] },
        Codepoint { codepoint: 0x10AD3, name: "MANICHAEAN LETTER LAMEDH", aliases: &[] },
        Codepoint { codepoint: 0x10AD4, name: "MANICHAEAN LETTER DHAMEDH", aliases: &[] },
        Codepoint { codepoint: 0x10AD5, name: "MANICHAEAN LETTER THAMEDH", aliases: &[] },
        Codepoint { codepoint: 0x10AD6, name: "MANICHAEAN LETTER MEM", aliases: &[] },
        Codepoint { codepoint: 0x10AD7, name: "MANICHAEAN LETTER NUN", aliases: &[] },
        Codepoint { codepoint: 0x10AD8, name: "MANICHAEAN LETTER SAMEKH", aliases: &[] },
        Codepoint { codepoint: 0x10AD9, name: "MANICHAEAN LETTER AYIN", aliases: &[] },
        Codepoint { codepoint: 0x10ADA, name: "MANICHAEAN LETTER AAYIN", aliases: &[] },
        Codepoint { codepoint: 0x10ADB, name: "MANICHAEAN LETTER PE", aliases: &[] },
        Codepoint { codepoint: 0x10ADC, name: "MANICHAEAN LETTER FE", aliases: &[] },
        Codepoint { codepoint: 0x10ADD, name: "MANICHAEAN LETTER SADHE", aliases: &[] },
        Codepoint { codepoint: 0x10ADE, name: "MANICHAEAN LETTER QOPH", aliases: &[] },
        Codepoint { codepoint: 0x10ADF, name: "MANICHAEAN LETTER XOPH", aliases: &[] },
    ]
}

fn all_codepoints_472() -> (v: Vec<Codepoint>)
    ensures
        v@ == codepoint_table_472(),
{
    let v = vec![
        Codepoint { codepoint: 0x10A98, name: "OLD NORTH ARABIAN LETTER ZAIN", aliases: &[] },
        Codepoint { codepoint: 0x10A99, name: "OLD NORTH ARABIAN LETTER THAL", aliases: &[] },
        Codepoint { codepoint: 0x10A9A, name: "OLD NORTH ARABIAN LETTER YEH", aliases: &[] },
        Codepoint { codepoint: 0x10A9B, name: "OLD NORTH ARABIAN LETTER THEH", aliases: &[] },
        Codepoint { codepoint: 0x10A9C, name: "OLD NORTH ARABIAN LETTER ZAH", aliases: &[] },
        Codepoint { codepoint: 0x10A9D, name: "OLD NORTH ARABIAN NUMBER ONE", aliases: &[] },
        Codepoint { codepoint: 0x10A9E, name: "OLD NORTH ARABIAN NUMBER TEN", aliases: &[] },
        Codepoint { codepoint: 0x10A9F, name: "OLD NORTH ARABIAN NUMBER TWENTY", aliases: &[] },
        Codepoint { codepoint: 0x10AC0, name: "MANICHAEAN LETTER ALEPH", aliases: &[] },
        Codepoint { codepoint: 0x10AC1, name: "MANICHAEAN LETTER BETH", aliases: &[] },
        Codepoint { codepoint: 0x10AC2, name: "MANICHAEAN LETTER BHETH", aliases: &[] },
        Codepoint { codepoint: 0x10AC3, name: "MANICHAEAN LETTER GIMEL", aliases: &[] },
        Codepoint { codepoint: 0x10AC4, name: "MANICHAEAN LETTER GHIMEL", aliases: &[] },
        Codepoint { codepoint: 0x10AC5, name: "MANICHAEAN LETTER DALETH", aliases: &[] },
        Codepoint { codepoint: 0x10AC6, name: "MANICHAEAN LETTER HE", aliases: &[] },
        Codepoint { codepoint: 0x10AC7, name: "MANICHAEAN LETTER WAW", aliases: &[] },
        Codepoint { codepoint: 0x10AC8, name: "MANICHAEAN SIGN UD", aliases: &[] },
        Codepoint { codepoint: 0x10AC9, name: "MANICHAEAN LETTER ZAYIN", aliases: &[] },
        Codepoint { codepoint: 0x10ACA, name: "MANICHAEAN LETTER ZHAYIN", aliases: &[] },
        Codepoint { codepoint: 0x10ACB, name: "MANICHAEAN LETTER JAYIN", aliases: &[] },
        Codepoint { codepoint: 0x10ACC, name: "MANICHAEAN LETTER JHAYIN", aliases: &[] },
        Codepoint { codepoint: 0x10ACD, name: "MANICHAEAN LETTER HETH", aliases: &[] },
        Codepoint { codepoint: 0x10ACE, name: "MANICHAEAN LETTER TETH", aliases: &[] },
        Codepoint { codepoint: 0x10ACF, name: "MANICHAEAN LETTER YODH", aliases: &[] },
        Codepoint { codepoint: 0x10AD0, name: "MANICHAEAN LETTER KAPH", aliases: &[] },
        Codepoint { codepoint: 0x10AD1, name: "MANICHAEAN LETTER XAPH", aliases: &[] },
        Codepoint { codepoint: 0x10AD2, name: "MANICHAEAN LETTER KHAPH", aliases: &[] },
        Codepoint { codepoint: 0x10AD3, name: "MANICHAEAN LETTER LAMEDH", aliases: &[] },
        Codepoint { codepoint: 0x10AD4, name: "MANICHAEAN LETTER DHAMEDH", aliases: &[] },
        Codepoint { codepoint: 0x10AD5, name: "MANICHAEAN LETTER THAMEDH", aliases: &[] },
        Codepoint { codepoint: 0x10AD6, name: "MANICHAEAN LETTER MEM", aliases: &[] },
        Codepoint { codepoint: 0x10AD7, name: "MANICHAEAN LETTER NUN", aliases: &[] },
        Codepoint { codepoint: 0x10AD8, name: "MANICHAEAN LETTER SAMEKH", aliases: &[] },
        Codepoint { codepoint: 0x10AD9, name: "MANICHAEAN LETTER AYIN", aliases: &[] },
        Codepoint { codepoint: 0x10ADA, name: "MANICHAEAN LETTER AAYIN", aliases: &[] },
        Codepoint { codepoint: 0x10ADB, name: "MANICHAEAN LETTER PE", aliases: &[] },
        Codepoint { codepoint: 0x10ADC, name: "MANICHAEAN LETTER FE", aliases: &[] },
        Codepoint { codepoint: 0x10ADD, name: "MANICHAEAN LETTER SADHE", aliases: &[] },
        Codepoint { codepoint: 0x10ADE, name: "MANICHAEAN LETTER QOPH", aliases: &[] },
        Codepoint { codepoint: 0x10ADF, name: "MANICHAEAN LETTER XOPH", aliases: &[] },
    ];
    assert(v@ =~= codepoint_table_472());
    v
}

pub open spec fn codepoint_table_473() -> Seq<Codepoint> {
    seq![
        Codepoint { codepoint: 0x10AE0, name: "MANICHAEAN LETTER QHOPH", aliases: &[] },
        Codepoint { codepoint: 0x10AE1, name: "MANICHAEAN LETTER RESH", aliases: &[] },
        Codepoint { codepoint: 0x10AE2, name: "MANICHAEAN LETTER SHIN", aliases: &[] },
        Codepoint { codepoint: 0x10AE3, name: "MANICHAEAN LETTER SSHIN", aliases: &[] },
        Codepoint { codepoint: 0x10AE4, name: "MANICHAEAN LETTER TAW", aliases: &[] },
        Codepoint { codepoint: 0x10AE5, name: "MANICHAEAN ABBREVIATION MARK ABOVE", aliases: &[] },
        Codepoint { codepoint: 0x10AE6, name: "MANICHAEAN ABBREVIATION MARK BELOW", aliases: &[] },
        Codepoint { codepoint: 0x10AEB, name: "MANICHAEAN NUMBER ONE", aliases: &[] },
        Codepoint { codepoint: 0x10AEC, name: "MANICHAEAN NUMBER FIVE", aliases: &[] },
        Codepoint { codepoint: 0x10AED, name: "MANICHAEAN NUMBER TEN", aliases: &[] },
        Codepoint { codepoint: 0x10AEE, name: "MANICHAEAN NUMBER TWENTY", aliases: &[] },
        Codepoint { codepoint: 0x10AEF, name: "MANICHAEAN NUMBER ONE HUNDRED", aliases: &[] },
        Codepoint { codepoint: 0x10AF0, name: "MANICHAEAN PUNCTUATION STAR", aliases: &[] },
        Codepoint { codepoint: 0x10AF1, name: "MANICHAEAN PUNCTUATION FLEURON", aliases: &[] },
        Codepoint { codepoint: 0x10AF2, name: "MANICHAEAN PUNCTUATION DOUBLE DOT WITHIN DOT", aliases: &[] },
        Codepoint { codepoint: 0x10AF3, name: "MANICHAEAN PUNCTUATION DOT WITHIN DOT", aliases: &[] },
        Codepoint { codepoint: 0x10AF4, name: "MANICHAEAN PUNCTUATION DOT", aliases: &[] },
        Codepoint { codepoint: 0x10AF5, name: "MANICHAEAN PUNCTUATION TWO DOTS", aliases: &[] },
        Codepoint { codepoint: 0x10AF6, name: "MANICHAEAN PUNCTUATION LINE FILLER", aliases: &[] },
        Codepoint { codepoint: 0x10B00, name: "AVESTAN LETTER A", aliases: &[] },
        Codepoint { codepoint: 0x10B01, name: "AVESTAN LETTER AA", aliases: &[] },
        Codepoint { codepoint: 0x10B02, name: "AVESTAN LETTER AO", aliases: &[] },
        Codepoint { codepoint: 0x10B03, name: "AVESTAN LETTER AAO", aliases: &[] },
        Codepoint { codepoint: 0x10B04, name: "AVESTAN LETTER AN", aliases: &[] },
        Codepoint { codepoint: 0x10B05, name: "AVESTAN LETTER AAN", aliases: &[] },
        Codepoint { codepoint: 0x10B06, name: "AVESTAN LETTER AE", aliases: &[] },
        Codepoint { codepoint: 0x10B07, name: "AVESTAN LETTER AEE", aliases: &[] },
        Codepoint { codepoint: 0x10B08, name: "AVESTAN LETTER E", aliases: &[] },
        Codepoint { codepoint: 0x10B09, name: "AVESTAN LETTER EE", aliases: &[] },
        Codepoint { codepoint: 0x10B0A, name: "AVESTAN LETTER O", aliases: &[] },
        Codepoint { codepoint: 0x10B0B, name: "AVESTAN LETTER OO", aliases: &[] },
        Codepoint { codepoint: 0x10B0C, name: "AVESTAN LETTER I", aliases: &[] },
        Codepoint { codepoint: 0x10B0D, name: "AVESTAN LETTER II", aliases: &[] },
        Codepoint { codepoint: 0x10B0E, name: "AVESTAN LETTER U", aliases: &[] },
        Codepoint { codepoint: 0x10B0F, name: "AVESTAN LETTER UU", aliases: &[] },
        Codepoint { codepoint: 0x10B10, name: "AVESTAN LETTER KE", aliases: &[] },
        Codepoint { codepoint: 0x10B11, name: "AVESTAN LETTER XE", aliases: &[] },
        Codepoint { codepoint: 0x10B12, name: "AVESTAN LETTER XYE", aliases: &[] },
        Codepoint { codepoint: 0x10B13, name: "AVESTAN LETTER XVE", aliases: &[] },
        Codepoint { codepoint: 0x10B14, name: "AVESTAN LETTER GE", aliases: &[] },
    ]
}

fn all_codepoints_473() -> (v: Vec<Codepoint>)
    ensures
        v@ == codepoint_table_473(),
{
    let v = vec![
        Codepoint { codepoint: 0x10AE0, name: "MANICHAEAN LETTER QHOPH", aliases: &[] },
        Codepoint { codepoint: 0x10AE1, name: "MANICHAEAN LETTER RESH", aliases: &[] },
        Codepoint { codepoint: 0x10AE2, name: "MANICHAEAN LETTER SHIN", aliases: &[] },
        Codepoint { codepoint: 0x10AE3, name: "MANICHAEAN LETTER SSHIN", aliases: &[] },
        Codepoint { codepoint: 0x10AE4, name: "MANICHAEAN LETTER TAW", aliases: &[] },
        Codepoint { codepoint: 0x10AE5, name: "MANICHAEAN ABBREVIATION MARK ABOVE", aliases: &[] },
        Codepoint { codepoint: 0x10AE6, name: "MANICHAEAN ABBREVIATION MARK BELOW", aliases: &[] },
        Codepoint { codepoint: 0x10AEB, name: "MANICHAEAN NUMBER ONE", aliases: &[] },
        Codepoint { codepoint: 0x10AEC, name: "MANICHAEAN NUMBER FIVE", aliases: &[] },
        Codepoint { codepoint: 0x10AED, name: "MANICHAEAN NUMBER TEN", aliases: &[] },
        Codepoint { codepoint: 0x10AEE, name: "MANICHAEAN NUMBER TWENTY", aliases: &[] },
        Codepoint { codepoint: 0x10AEF, name: "MANICHAEAN NUMBER ONE HUNDRED", aliases: &[] },
        Codepoint { codepoint: 0x10AF0, name: "MANICHAEAN PUNCTUATION STAR", aliases: &[] },
        Codepoint { codepoint: 0x10AF1, name: "MANICHAEAN PUNCTUATION FLEURON", aliases: &[] },
        Codepoint { codepoint: 0x10AF2, name: "MANICHAEAN PUNCTUATION DOUBLE DOT WITHIN DOT", aliases: &[] },
        Codepoint { codepoint: 0x10AF3, name: "MANICHAEAN PUNCTUATION DOT WITHIN DOT", aliases: &[] },
        Codepoint { codepoint: 0x10AF4, name: "MANICHAEAN PUNCTUATION DOT", aliases: &[] },
        Codepoint { codepoint: 0x10AF5, name: "MANICHAEAN PUNCTUATION TWO DOTS", aliases: &[] },
        Codepoint { codepoint: 0x10AF6, name: "MANICHAEAN PUNCTUATION LINE FILLER", aliases: &[] },
        Codepoint { codepoint: 0x10B00, name: "AVESTAN LETTER A", aliases: &[] },
        Codepoint { codepoint: 0x10B01, name: "AVESTAN LETTER AA", aliases: &[] },
        Codepoint { codepoint: 0x10B02, name: "AVESTAN LETTER AO", aliases: &[] },
        Codepoint { codepoint: 0x10B03, name: "AVESTAN LETTER AAO", aliases: &[] },
        Codepoint { codepoint: 0x10B04, name: "AVESTAN LETTER AN", aliases: &[] },
        Codepoint { codepoint: 0x10B05, name: "AVESTAN LETTER AAN", aliases: &[] },
        Codepoint { codepoint: 0x10B06, name: "AVESTAN LETTER AE", aliases: &[] },
        Codepoint { codepoint: 0x10B07, name: "AVESTAN LETTER AEE", aliases: &[] },
        Codepoint { codepoint: 0x10B08, name: "AVESTAN LETTER E", aliases: &[] },
        Codepoint { codepoint: 0x10B09, name: "AVESTAN LETTER EE", aliases: &[] },
        Codepoint { codepoint: 0x10B0A, name: "AVESTAN LETTER O", aliases: &[] },
        Codepoint { codepoint: 0x10B0B, name: "AVESTAN LETTER OO", aliases: &[] },
        Codepoint { codepoint: 0x10B0C, name: "AVESTAN LETTER I", aliases: &[] },
        Codepoint { codepoint: 0x10B0D, name: "AVESTAN LETTER II", aliases: &[] },
        Codepoint { codepoint: 0x10B0E, name: "AVESTAN LETTER U", aliases: &[] },
        Codepoint { codepoint: 0x10B0F, name: "AVESTAN LETTER UU", aliases: &[] },
        Codepoint { codepoint: 0x10B10, name: "AVESTAN LETTER KE", aliases: &[] },
        Codepoint { codepoint: 0x10B11, name: "AVESTAN LETTER XE", aliases: &[] },
        Codepoint { codepoint: 0x10B12, name: "AVESTAN LETTER XYE", aliases: &[] },
        Codepoint { codepoint: 0x10B13, name: "AVESTAN LETTER XVE", aliases: &[] },
        Codepoint { codepoint: 0x10B14, name: "AVESTAN LETTER GE", aliases: &[] },
    ];
    assert(v@ =~= codepoint_table_473());
    v
}

pub open spec fn codepoint_table_474() -> Seq<Codepoint> {
    seq![
        Codepoint { codepoint: 0x10B15, name: "AVESTAN LETTER GGE", aliases: &[] },
        Codepoint { codepoint: 0x10B16, name: "AVESTAN LETTER GHE", aliases: &[] },
        Codepoint { codepoint: 0x10B17, name: "AVESTAN LETTER CE", aliases: &[] },
        Codepoint { codepoint: 0x10B18, name: "AVESTAN LETTER JE", aliases: &[] },
        Codepoint { codepoint: 0x10B19, name: "AVESTAN LETTER TE", aliases: &[] },
        Codepoint { codepoint: 0x10B1A, name: "AVESTAN LETTER THE", aliases: &[] },
        Codepoint { codepoint: 0x10B1B, name: "AVESTAN LETTER DE", aliases: &[] },
        Codepoint { codepoint: 0x10B1C, name: "AVESTAN LETTER DHE", aliases: &[] },
        Codepoint { codepoint: 0x10B1D, name: "AVESTAN LETTER TTE", aliases: &[] },
        Codepoint { codepoint: 0x10B1E, name: "AVESTAN LETTER PE", aliases: &[] },
        Codepoint { codepoint: 0x10B1F, name: "AVESTAN LETTER FE", aliases: &[] },
        Codepoint { codepoint: 0x10B20, name: "AVESTAN LETTER BE", aliases: &[] },
        Codepoint { codepoint: 0x10B21, name: "AVESTAN LETTER BHE", aliases: &[] },
        Codepoint { codepoint: 0x10B22, name: "AVESTAN LETTER NGE", aliases: &[] },
        Codepoint { codepoint: 0x10B23, name: "AVESTAN LETTER NGYE", aliases: &[] },
        Codepoint { codepoint: 0x10B24, name: "AVESTAN LETTER NGVE", aliases: &[] },
        Codepoint { codepoint: 0x10B25, name: "AVESTAN LETTER NE", aliases: &[] },
        Codepoint { codepoint: 0x10B26, name: "AVESTAN LETTER NYE", aliases: &[] },
        Codepoint { codepoint: 0x10B27, name: "AVESTAN LETTER NNE", aliases: &[] },
        Codepoint { codepoint: 0x10B28, name: "AVESTAN LETTER ME", aliases: &[] },
        Codepoint { codepoint: 0x10B29, name: "AVESTAN LETTER HME", aliases: &[] },
        Codepoint { codepoint: 0x10B2A, name: "AVESTAN LETTER YYE", aliases: &[] },
        Codepoint { codepoint: 0x10B2B, name: "AVESTAN LETTER YE", aliases: &[] },
        Codepoint { codepoint: 0x10B2C, name: "AVESTAN LETTER VE", aliases: &[] },
        Codepoint { codepoint: 0x10B2D, name: "AVESTAN LETTER RE", aliases: &[] },
        Codepoint { codepoint: 0x10B2E, name: "AVESTAN LETTER LE", aliases: &[] },
        Codepoint { codepoint: 0x10B2F, name: "AVESTAN LETTER SE", aliases: &[] },
        Codepoint { codepoint: 0x10B30, name: "AVESTAN LETTER ZE", aliases: &[] },
        Codepoint { codepoint: 0x10B31, name: "AVESTAN LETTER SHE", aliases: &[] },
        Codepoint { codepoint: 0x10B32, name: "AVESTAN LETTER ZHE", aliases: &[] },
        Codepoint { codepoint: 0x10B33, name: "AVESTAN LETTER SHYE", aliases: &[] },
        Codepoint { codepoint: 0x10B34, name: "AVESTAN LETTER SSHE", aliases: &[] },
        Codepoint { codepoint: 0x10B35, name: "AVESTAN LETTER HE", aliases: &[] },
        Codepoint { codepoint: 0x10B39, name: "AVESTAN ABBREVIATION MARK", aliases: &[] },
        Codepoint { codepoint: 0x10B3A, name: "TINY TWO DOTS OVER ONE DOT PUNCTUATION", aliases: &[] },
        Codepoint { codepoint: 0x10B3B, name: "SMALL TWO DOTS OVER ONE DOT PUNCTUATION", aliases: &[] },
        Codepoint { codepoint: 0x10B3C, name: "LARGE TWO DOTS OVER ONE DOT PUNCTUATION", aliases: &[] },
        Codepoint { codepoint: 0x10B3D, name: "LARGE ONE DOT OVER TWO DOTS PUNCTUATION", aliases: &[] },
        Codepoint { codepoint: 0x10B3E, name: "LARGE TWO RINGS OVER ONE RING PUNCTUATION", aliases: &[] },
        Codepoint { codepoint: 0x10B3F, name: "LARGE ONE RING OVER TWO RINGS PUNCTUATION", aliases: &[] },
    ]
}

fn all_codepoints_474() -> (v: Vec<Codepoint>)
    ensures
        v@ == codepoint_table_474(),
{
    let v = vec![
        Codepoint { codepoint: 0x10B15, name: "AVESTAN LETTER GGE", aliases: &[] },
        Codepoint { codepoint: 0x10B16, name: "AVESTAN LETTER GHE", aliases: &[] },
        Codepoint { codepoint: 0x10B17, name: "AVESTAN LETTER CE", aliases: &[] },
        Codepoint { codepoint: 0x10B18, name: "AVESTAN LETTER JE", aliases: &[] },
        Codepoint { codepoint: 0x10B19, name: "AVESTAN LETTER TE", aliases: &[] },
        Codepoint { codepoint: 0x10B1A, name: "AVESTAN LETTER THE", aliases: &[] },
        Codepoint { codepoint: 0x10B1B, name: "AVESTAN LETTER DE", aliases: &[] },
        Codepoint { codepoint: 0x10B1C, name: "AVESTAN LETTER DHE", aliases: &[] },
        Codepoint { codepoint: 0x10B1D, name: "AVESTAN LETTER TTE", aliases: &[] },
        Codepoint { codepoint: 0x10B1E, name: "AVESTAN LETTER PE", aliases: &[] },
        Codepoint { codepoint: 0x10B1F, name: "AVESTAN LETTER FE", aliases: &[] },
        Codepoint { codepoint: 0x10B20, name: "AVESTAN LETTER BE", aliases: &[] },
        Codepoint { codepoint: 0x10B21, name: "AVESTAN LETTER BHE", aliases: &[] },
        Codepoint { codepoint: 0x10B22, name: "AVESTAN LETTER NGE", aliases: &[] },
        Codepoint { codepoint: 0x10B23, name: "AVESTAN LETTER NGYE", aliases: &[] },
        Codepoint { codepoint: 0x10B24, name: "AVESTAN LETTER NGVE", aliases: &[] },
        Codepoint { codepoint: 0x10B25, name: "AVESTAN LETTER NE", aliases: &[] },
        Codepoint { codepoint: 0x10B26, name: "AVESTAN LETTER NYE", aliases: &[] },
        Codepoint { codepoint: 0x10B27, name: "AVESTAN LETTER NNE", aliases: &[] },
        Codepoint { codepoint: 0x10B28, name: "AVESTAN LETTER ME", aliases: &[] },
        Codepoint { codepoint: 0x10B29, name: "AVESTAN LETTER HME", aliases: &[] },
        Codepoint { codepoint: 0x10B2A, name: "AVESTAN LETTER YYE", aliases: &[] },
        Codepoint { codepoint: 0x10B2B, name: "AVESTAN LETTER YE", aliases: &[] },
        Codepoint { codepoint: 0x10B2C, name: "AVESTAN LETTER VE", aliases: &[] },
        Codepoint { codepoint: 0x10B2D, name: "AVESTAN LETTER RE", aliases: &[] },
        Codepoint { codepoint: 0x10B2E, name: "AVESTAN LETTER LE", aliases: &[] },
        Codepoint { codepoint: 0x10B2F, name: "AVESTAN LETTER SE", aliases: &[] },
        Codepoint { codepoint: 0x10B30, name: "AVESTAN LETTER ZE", aliases: &[] },
        Codepoint { codepoint: 0x10B31, name: "AVESTAN LETTER SHE", aliases: &[] },
        Codepoint { codepoint: 0x10B32, name: "AVESTAN LETTER ZHE", aliases: &[] },
        Codepoint { codepoint: 0x10B33, name: "AVESTAN LETTER SHYE", aliases: &[] },
        Codepoint { codepoint: 0x10B34, name: "AVESTAN LETTER SSHE", aliases: &[] },
        Codepoint { codepoint: 0x10B35, name: "AVESTAN LETTER HE", aliases: &[] },
        Codepoint { codepoint: 0x10B39, name: "AVESTAN ABBREVIATION MARK", aliases: &[] },
        Codepoint { codepoint: 0x10B3A, name: "TINY TWO DOTS OVER ONE DOT PUNCTUATION", aliases: &[] },
        Codepoint { codepoint: 0x10B3B, name: "SMALL TWO DOTS OVER ONE DOT PUNCTUATION", aliases: &[] },
        Codepoint { codepoint: 0x10B3C, name: "LARGE TWO DOTS OVER ONE DOT PUNCTUATION", aliases: &[] },
        Codepoint { codepoint: 0x10B3D, name: "LARGE ONE DOT OVER TWO DOTS PUNCTUATION", aliases: &[] },
        Codepoint { codepoint: 0x10B3E, name: "LARGE TWO RINGS OVER ONE RING PUNCTUATION", aliases: &[] },
        Codepoint { codepoint: 0x10B3F, name: "LARGE ONE RING OVER TWO RINGS PUNCTUATION", aliases: &[] },
    ];
    assert(v@ =~= codepoint_table_474());
    v
}

pub open spec fn codepoint_table_475() -> Seq<Codepoint> {
    seq![
        Codepoint { codepoint: 0x10B40, name: "INSCRIPTIONAL PARTHIAN LETTER ALEPH", aliases: &[] },
        Codepoint { codepoint: 0x10B41, name: "INSCRIPTIONAL PARTHIAN LETTER BETH", aliases: &[] },
        Codepoint { codepoint: 0x10B42, name: "INSCRIPTIONAL PARTHIAN LETTER GIMEL", aliases: &[] },
        Codepoint { codepoint: 0x10B43, name: "INSCRIPTIONAL PARTHIAN LETTER DALETH", aliases: &[] },
        Codepoint { codepoint: 0x10B44, name: "INSCRIPTIONAL PARTHIAN LETTER HE", aliases: &[] },
        Codepoint { codepoint: 0x10B45, name: "INSCRIPTIONAL PARTHIAN LETTER WAW", aliases: &[] },
        Codepoint { codepoint: 0x10B46, name: "INSCRIPTIONAL PARTHIAN LETTER ZAYIN", aliases: &[] },
        Codepoint { codepoint: 0x10B47, name: "INSCRIPTIONAL PARTHIAN LETTER HETH", aliases: &[] },
        Codepoint { codepoint: 0x10B48, name: "INSCRIPTIONAL PARTHIAN LETTER TETH", aliases: &[] },
        Codepoint { codepoint: 0x10B49, name: "INSCRIPTIONAL PARTHIAN LETTER YODH", aliases: &[] },
        Codepoint { codepoint: 0x10B4A, name: "INSCRIPTIONAL PARTHIAN LETTER KAPH", aliases: &[] },
        Codepoint { codepoint: 0x10B4B, name: "INSCRIPTIONAL PARTHIAN LETTER LAMEDH", aliases: &[] },
        Codepoint { codepoint: 0x10B4C, name: "INSCRIPTIONAL PARTHIAN LETTER MEM", aliases: &[] },
        Codepoint { codepoint: 0x10B4D, name: "INSCRIPTIONAL PARTHIAN LETTER NUN", aliases: &[] },
        Codepoint { codepoint: 0x10B4E, name: "INSCRIPTIONAL PARTHIAN LETTER SAMEKH", aliases: &[] },
        Codepoint { codepoint: 0x10B4F, name: "INSCRIPTIONAL PARTHIAN LETTER AYIN", aliases: &[] },
        Codepoint { codepoint: 0x10B50, name: "INSCRIPTIONAL PARTHIAN LETTER PE", aliases: &[] },
        Codepoint { codepoint: 0x10B51, name: "INSCRIPTIONAL PARTHIAN LETTER SADHE", aliases: &[] },
        Codepoint { codepoint: 0x10B52, name: "INSCRIPTIONAL PARTHIAN LETTER QOPH", aliases: &[] },
        Codepoint { codepoint: 0x10B53, name: "INSCRIPTIONAL PARTHIAN LETTER RESH", aliases: &[] },
        Codepoint { codepoint: 0x10B54, name: "INSCRIPTIONAL PARTHIAN LETTER SHIN", aliases: &[] },
        Codepoint { codepoint: 0x10B55, name: "INSCRIPTIONAL PARTHIAN LETTER TAW", aliases: &[] },
        Codepoint { codepoint: 0x10B58, name: "INSCRIPTIONAL PARTHIAN NUMBER ONE", aliases: &[] },
        Codepoint { codepoint: 0x10B59, name: "INSCRIPTIONAL PARTHIAN NUMBER TWO", aliases: &[] },
        Codepoint { codepoint: 0x10B5A, name: "INSCRIPTIONAL PARTHIAN NUMBER THREE", aliases: &[] },
        Codepoint { codepoint: 0x10B5B, name: "INSCRIPTIONAL PARTHIAN NUMBER FOUR", aliases: &[] },
        Codepoint { codepoint: 0x10B5C, name: "INSCRIPTIONAL PARTHIAN NUMBER TEN", aliases: &[] },
        Codepoint { codepoint: 0x10B5D, name: "INSCRIPTIONAL PARTHIAN NUMBER TWENTY", aliases: &[] },
        Codepoint { codepoint: 0x10B5E, name: "INSCRIPTIONAL PARTHIAN NUMBER ONE HUNDRED", aliases: &[] },
        Codepoint { codepoint: 0x10B5F, name: "INSCRIPTIONAL PARTHIAN NUMBER ONE THOUSAND", aliases: &[] },
        Codepoint { codepoint: 0x10B60, name: "INSCRIPTIONAL PAHLAVI LETTER ALEPH", aliases: &[] },
        Codepoint { codepoint: 0x10B61, name: "INSCRIPTIONAL PAHLAVI LETTER BETH", aliases: &[] },
        Codepoint { codepoint: 0x10B62, name: "INSCRIPTIONAL PAHLAVI LETTER GIMEL", aliases: &[] },
        Codepoint { codepoint: 0x10B63, name: "INSCRIPTIONAL PAHLAVI LETTER DALETH", aliases: &[] },
        Codepoint { codepoint: 0x10B64, name: "INSCRIPTIONAL PAHLAVI LETTER HE", aliases: &[] },
        Codepoint { codepoint: 0x10B65, name: "INSCRIPTIONAL PAHLAVI LETTER WAW-AYIN-RESH", aliases: &[] },
        Codepoint { codepoint: 0x10B66, name: "INSCRIPTIONAL PAHLAVI LETTER ZAYIN", aliases: &[] },
        Codepoint { codepoint: 0x10B67, name: "INSCRIPTIONAL PAHLAVI LETTER HETH", aliases: &[] },
        Codepoint { codepoint: 0x10B68, name: "INSCRIPTIONAL PAHLAVI LETTER TETH", aliases: &[] },
        Codepoint { codepoint: 0x10B69, name: "INSCRIPTIONAL PAHLAVI LETTER YODH", aliases: &[] },
    ]
}

fn all_codepoints_475() -> (v: Vec<Codepoint>)
    ensures
        v@ == codepoint_table_475(),
{
    let v = vec![
        Codepoint { codepoint: 0x10B40, name: "INSCRIPTIONAL PARTHIAN LETTER ALEPH", aliases: &[] },
        Codepoint { codepoint: 0x10B41, name: "INSCRIPTIONAL PARTHIAN LETTER BETH", aliases: &[] },
        Codepoint { codepoint: 0x10B42, name: "INSCRIPTIONAL PARTHIAN LETTER GIMEL", aliases: &[] },
        Codepoint { codepoint: 0x10B43, name: "INSCRIPTIONAL PARTHIAN LETTER DALETH", aliases: &[] },
        Codepoint { codepoint: 0x10B44, name: "INSCRIPTIONAL PARTHIAN LETTER HE", aliases: &[] },
        Codepoint { codepoint: 0x10B45, name: "INSCRIPTIONAL PARTHIAN LETTER WAW", aliases: &[] },
        Codepoint { codepoint: 0x10B46, name: "INSCRIPTIONAL PARTHIAN LETTER ZAYIN", aliases: &[] },
        Codepoint { codepoint: 0x10B47, name: "INSCRIPTIONAL PARTHIAN LETTER HETH", aliases: &[] },
        Codepoint { codepoint: 0x10B48, name: "INSCRIPTIONAL PARTHIAN LETTER TETH", aliases: &[] },
        Codepoint { codepoint: 0x10B49, name: "INSCRIPTIONAL PARTHIAN LETTER YODH", aliases: &[] },
        Codepoint { codepoint: 0x10B4A, name: "INSCRIPTIONAL PARTHIAN LETTER KAPH", aliases: &[] },
        Codepoint { codepoint: 0x10B4B, name: "INSCRIPTIONAL PARTHIAN LETTER LAMEDH", aliases: &[] },
        Codepoint { codepoint: 0x10B4C, name: "INSCRIPTIONAL PARTHIAN LETTER MEM", aliases: &[] },
        Codepoint { codepoint: 0x10B4D, name: "INSCRIPTIONAL PARTHIAN LETTER NUN", aliases: &[] },
        Codepoint { codepoint: 0x10B4E, name: "INSCRIPTIONAL PARTHIAN LETTER SAMEKH", aliases: &[] },
        Codepoint { codepoint: 0x10B4F, name: "INSCRIPTIONAL PARTHIAN LETTER AYIN", aliases: &[] },
        Codepoint { codepoint: 0x10B50, name: "INSCRIPTIONAL PARTHIAN LETTER PE", aliases: &[] },
        Codepoint { codepoint: 0x10B51, name: "INSCRIPTIONAL PARTHIAN LETTER SADHE", aliases: &[] },
        Codepoint { codepoint: 0x10B52, name: "INSCRIPTIONAL PARTHIAN LETTER QOPH", aliases: &[] },
        Codepoint { codepoint: 0x10B53, name: "INSCRIPTIONAL PARTHIAN LETTER RESH", aliases: &[] },
        Codepoint { codepoint: 0x10B54, name: "INSCRIPTIONAL PARTHIAN LETTER SHIN", aliases: &[] },
        Codepoint { codepoint: 0x10B55, name: "INSCRIPTIONAL PARTHIAN LETTER TAW", aliases: &[] },
        Codepoint { codepoint: 0x10B58, name: "INSCRIPTIONAL PARTHIAN NUMBER ONE", aliases: &[] },
        Codepoint { codepoint: 0x10B59, name: "INSCRIPTIONAL PARTHIAN NUMBER TWO", aliases: &[] },
        Codepoint { codepoint: 0x10B5A, name: "INSCRIPTIONAL PARTHIAN NUMBER THREE", aliases: &[] },
        Codepoint { codepoint: 0x10B5B, name: "INSCRIPTIONAL PARTHIAN NUMBER FOUR", aliases: &[] },
        Codepoint { codepoint: 0x10B5C, name: "INSCRIPTIONAL PARTHIAN NUMBER TEN", aliases: &[] },
        Codepoint { codepoint: 0x10B5D, name: "INSCRIPTIONAL PARTHIAN NUMBER TWENTY", aliases: &[] },
        Codepoint { codepoint: 0x10B5E, name: "INSCRIPTIONAL PARTHIAN NUMBER ONE HUNDRED", aliases: &[] },
        Codepoint { codepoint: 0x10B5F, name: "INSCRIPTIONAL PARTHIAN NUMBER ONE THOUSAND", aliases: &[] },
        Codepoint { codepoint: 0x10B60, name: "INSCRIPTIONAL PAHLAVI LETTER ALEPH", aliases: &[] },
        Codepoint { codepoint: 0x10B61, name: "INSCRIPTIONAL PAHLAVI LETTER BETH", aliases: &[] },
        Codepoint { codepoint: 0x10B62, name: "INSCRIPTIONAL PAHLAVI LETTER GIMEL", aliases: &[] },
        Codepoint { codepoint: 0x10B63, name: "INSCRIPTIONAL PAHLAVI LETTER DALETH", aliases: &[] },
        Codepoint { codepoint: 0x10B64, name: "INSCRIPTIONAL PAHLAVI LETTER HE", aliases: &[] },
        Codepoint { codepoint: 0x10B65, name: "INSCRIPTIONAL PAHLAVI LETTER WAW-AYIN-RESH", aliases: &[] },
        Codepoint { codepoint: 0x10B66, name: "INSCRIPTIONAL PAHLAVI LETTER ZAYIN", aliases: &[] },
        Codepoint { codepoint: 0x10B67, name: "INSCRIPTIONAL PAHLAVI LETTER HETH", aliases: &[] },
        Codepoint { codepoint: 0x10B68, name: "INSCRIPTIONAL PAHLAVI LETTER TETH", aliases: &[] },
        Codepoint { codepoint: 0x10B69, name: "INSCRIPTIONAL PAHLAVI LETTER YODH", aliases: &[] },
    ];
    assert(v@ =~= codepoint_table_475());
    v
}

pub open spec fn codepoint_table_476() -> Seq<Codepoint> {
    seq![
        Codepoint { codepoint: 0x10B6A, name: "INSCRIPTIONAL PAHLAVI LETTER KAPH", aliases: &[] },
        Codepoint { codepoint: 0x10B6B, name: "INSCRIPTIONAL PAHLAVI LETTER LAMEDH", aliases: &[] },
        Codepoint { codepoint: 0x10B6C, name: "INSCRIPTIONAL PAHLAVI LETTER MEM-QOPH", aliases: &[] },
        Codepoint { codepoint: 0x10B6D, name: "INSCRIPTIONAL PAHLAVI LETTER NUN", aliases: &[] },
        Codepoint { codepoint: 0x10B6E, name: "INSCRIPTIONAL PAHLAVI LETTER SAMEKH", aliases: &[] },
        Codepoint { codepoint: 0x10B6F, name: "INSCRIPTIONAL PAHLAVI LETTER PE", aliases: &[] },
        Codepoint { codepoint: 0x10B70, name: "INSCRIPTIONAL PAHLAVI LETTER SADHE", aliases: &[] },
        Codepoint { codepoint: 0x10B71, name: "INSCRIPTIONAL PAHLAVI LETTER SHIN", aliases: &[] },
        Codepoint { codepoint: 0x10B72, name: "INSCRIPTIONAL PAHLAVI LETTER TAW", aliases: &[] },
        Codepoint { codepoint: 0x10B78, name: "INSCRIPTIONAL PAHLAVI NUMBER ONE", aliases: &[] },
        Codepoint { codepoint: 0x10B79, name: "INSCRIPTIONAL PAHLAVI NUMBER TWO", aliases: &[] },
        Codepoint { codepoint: 0x10B7A, name: "INSCRIPTIONAL PAHLAVI NUMBER THREE", aliases: &[] },
        Codepoint { codepoint: 0x10B7B, name: "INSCRIPTIONAL PAHLAVI NUMBER FOUR", aliases: &[] },
        Codepoint { codepoint: 0x10B7C, name: "INSCRIPTIONAL PAHLAVI NUMBER TEN", aliases: &[] },
        Codepoint { codepoint: 0x10B7D, name: "INSCRIPTIONAL PAHLAVI NUMBER TWENTY", aliases: &[] },
        Codepoint { codepoint: 0x10B7E, name: "INSCRIPTIONAL PAHLAVI NUMBER ONE HUNDRED", aliases: &[] },
        Codepoint { codepoint: 0x10B7F, name: "INSCRIPTIONAL PAHLAVI NUMBER ONE THOUSAND", aliases: &[] },
        Codepoint { codepoint: 0x10B80, name: "PSALTER PAHLAVI LETTER ALEPH", aliases: &[] },
        Codepoint { codepoint: 0x10B81, name: "PSALTER PAHLAVI LETTER BETH", aliases: &[] },
        Codepoint { codepoint: 0x10B82, name: "PSALTER PAHLAVI LETTER GIMEL", aliases: &[] },
        Codepoint { codepoint: 0x10B83, name: "PSALTER PAHLAVI LETTER DALETH", aliases: &[] },
        Codepoint { codepoint: 0x10B84, name: "PSALTER PAHLAVI LETTER HE", aliases: &[] },
        Codepoint { codepoint: 0x10B85, name: "PSALTER PAHLAVI LETTER WAW-AYIN-RESH", aliases: &[] },
        Codepoint { codepoint: 0x10B86, name: "PSALTER PAHLAVI LETTER ZAYIN", aliases: &[] },
        Codepoint { codepoint: 0x10B87, name: "PSALTER PAHLAVI LETTER HETH", aliases: &[] },
        Codepoint { codepoint: 0x10B88, name: "PSALTER PAHLAVI LETTER YODH", aliases: &[] },
        Codepoint { codepoint: 0x10B89, name: "PSALTER PAHLAVI LETTER KAPH", aliases: &[] },
        Codepoint { codepoint: 0x10B8A, name: "PSALTER PAHLAVI LETTER LAMEDH", aliases: &[] },
        Codepoint { codepoint: 0x10B8B, name: "PSALTER PAHLAVI LETTER MEM-QOPH", aliases: &[] },
        Codepoint { codepoint: 0x10B8C, name: "PSALTER PAHLAVI LETTER NUN", aliases: &[] },
        Codepoint { codepoint: 0x10B8D, name: "PSALTER PAHLAVI LETTER SAMEKH", aliases: &[] },
        Codepoint { codepoint: 0x10B8E, name: "PSALTER PAHLAVI LETTER PE", aliases: &[] },
        Codepoint { codepoint: 0x10B8F, name: "PSALTER PAHLAVI LETTER SADHE", aliases: &[] },
        Codepoint { codepoint: 0x10B90, name: "PSALTER PAHLAVI LETTER SHIN", aliases: &[] },
        Codepoint { codepoint: 0x10B91, name: "PSALTER PAHLAVI LETTER TAW", aliases: &[] },
        Codepoint { codepoint: 0x10B99, name: "PSALTER PAHLAVI SECTION MARK", aliases: &[] },
        Codepoint { codepoint: 0x10B9A, name: "PSALTER PAHLAVI TURNED SECTION MARK", aliases: &[] },
        Codepoint { codepoint: 0x10B9B, name: "PSALTER PAHLAVI FOUR DOTS WITH CROSS", aliases: &[] },
        Codepoint { codepoint: 0x10B9C, name: "PSALTER PAHLAVI FOUR DOTS WITH DOT", aliases: &[] },
        Codepoint { codepoint: 0x10BA9, name: "PSALTER PAHLAVI NUMBER ONE", aliases: &[] },
    ]
}

fn all_codepoints_476() -> (v: Vec<Codepoint>)
    ensures
        v@ == codepoint_table_476(),
{
    let v = vec![
        Codepoint { codepoint: 0x10B6A, name: "INSCRIPTIONAL PAHLAVI LETTER KAPH", aliases: &[] },
        Codepoint { codepoint: 0x10B6B, name: "INSCRIPTIONAL PAHLAVI LETTER LAMEDH", aliases: &[] },
        Codepoint { codepoint: 0x10B6C, name: "INSCRIPTIONAL PAHLAVI LETTER MEM-QOPH", aliases: &[] },
        Codepoint { codepoint: 0x10B6D, name: "INSCRIPTIONAL PAHLAVI LETTER NUN", aliases: &[] },
        Codepoint { codepoint: 0x10B6E, name: "INSCRIPTIONAL PAHLAVI LETTER SAMEKH", aliases: &[] },
        Codepoint { codepoint: 0x10B6F, name: "INSCRIPTIONAL PAHLAVI LETTER PE", aliases: &[] },
        Codepoint { codepoint: 0x10B70, name: "INSCRIPTIONAL PAHLAVI LETTER SADHE", aliases: &[] },
        Codepoint { codepoint: 0x10B71, name: "INSCRIPTIONAL PAHLAVI LETTER SHIN", aliases: &[] },
        Codepoint { codepoint: 0x10B72, name: "INSCRIPTIONAL PAHLAVI LETTER TAW", aliases: &[] },
        Codepoint { codepoint: 0x10B78, name: "INSCRIPTIONAL PAHLAVI NUMBER ONE", aliases: &[] },
        Codepoint { codepoint: 0x10B79, name: "INSCRIPTIONAL PAHLAVI NUMBER TWO", aliases: &[] },
        Codepoint { codepoint: 0x10B7A, name: "INSCRIPTIONAL PAHLAVI NUMBER THREE", aliases: &[] },
        Codepoint { codepoint: 0x10B7B, name: "INSCRIPTIONAL PAHLAVI NUMBER FOUR", aliases: &[] },
        Codepoint { codepoint: 0x10B7C, name: "INSCRIPTIONAL PAHLAVI NUMBER TEN", aliases: &[] },
        Codepoint { codepoint: 0x10B7D, name: "INSCRIPTIONAL PAHLAVI NUMBER TWENTY", aliases: &[] },
        Codepoint { codepoint: 0x10B7E, name: "INSCRIPTIONAL PAHLAVI NUMBER ONE HUNDRED", aliases: &[] },
        Codepoint { codepoint: 0x10B7F, name: "INSCRIPTIONAL PAHLAVI NUMBER ONE THOUSAND", aliases: &[] },
        Codepoint { codepoint: 0x10B80, name: "PSALTER PAHLAVI LETTER ALEPH", aliases: &[] },
        Codepoint { codepoint: 0x10B81, name: "PSALTER PAHLAVI LETTER BETH", aliases: &[] },
        Codepoint { codepoint: 0x10B82, name: "PSALTER PAHLAVI LETTER GIMEL", aliases: &[] },
        Codepoint { codepoint: 0x10B83, name: "PSALTER PAHLAVI LETTER DALETH", aliases: &[] },
        Codepoint { codepoint: 0x10B84, name: "PSALTER PAHLAVI LETTER HE", aliases: &[] },
        Codepoint { codepoint: 0x10B85, name: "PSALTER PAHLAVI LETTER WAW-AYIN-RESH", aliases: &[] },
        Codepoint { codepoint: 0x10B86, name: "PSALTER PAHLAVI LETTER ZAYIN", aliases: &[] },
        Codepoint { codepoint: 0x10B87, name: "PSALTER PAHLAVI LETTER HETH", aliases: &[] },
        Codepoint { codepoint: 0x10B88, name: "PSALTER PAHLAVI LETTER YODH", aliases: &[] },
        Codepoint { codepoint: 0x10B89, name: "PSALTER PAHLAVI LETTER KAPH", aliases: &[] },
        Codepoint { codepoint: 0x10B8A, name: "PSALTER PAHLAVI LETTER LAMEDH", aliases: &[] },
        Codepoint { codepoint: 0x10B8B, name: "PSALTER PAHLAVI LETTER MEM-QOPH", aliases: &[] },
        Codepoint { codepoint: 0x10B8C, name: "PSALTER PAHLAVI LETTER NUN", aliases: &[] },
        Codepoint { codepoint: 0x10B8D, name: "PSALTER PAHLAVI LETTER SAMEKH", aliases: &[] },
        Codepoint { codepoint: 0x10B8E, name: "PSALTER PAHLAVI LETTER PE", aliases: &[] },
        Codepoint { codepoint: 0x10B8F, name: "PSALTER PAHLAVI LETTER SADHE", aliases: &[] },
        Codepoint { codepoint: 0x10B90, name: "PSALTER PAHLAVI LETTER SHIN", aliases: &[] },
        Codepoint { codepoint: 0x10B91, name: "PSALTER PAHLAVI LETTER TAW", aliases: &[] },
        Codepoint { codepoint: 0x10B99, name: "PSALTER PAHLAVI SECTION MARK", aliases: &[] },
        Codepoint { codepoint: 0x10B9A, name: "PSALTER PAHLAVI TURNED SECTION MARK", aliases: &[] },
        Codepoint { codepoint: 0x10B9B, name: "PSALTER PAHLAVI FOUR DOTS WITH CROSS", aliases: &[] },
        Codepoint { codepoint: 0x10B9C, name: "PSALTER PAHLAVI FOUR DOTS WITH DOT", aliases: &[] },
        Codepoint { codepoint: 0x10BA9, name: "PSALTER PAHLAVI NUMBER ONE", aliases: &[] },
    ];
    assert(v@ =~= codepoint_table_476());
    v
}

pub open spec fn codepoint_table_477() -> Seq<Codepoint> {
    seq![
        Codepoint { codepoint: 0x10BAA, name: "PSALTER PAHLAVI NUMBER TWO", aliases: &[] },
        Codepoint { codepoint: 0x10BAB, name: "PSALTER PAHLAVI NUMBER THREE", aliases: &[] },
        Codepoint { codepoint: 0x10BAC, name: "PSALTER PAHLAVI NUMBER FOUR", aliases: &[] },
        Codepoint { codepoint: 0x10BAD, name: "PSALTER PAHLAVI NUMBER TEN", aliases: &[] },
        Codepoint { codepoint: 0x10BAE, name: "PSALTER PAHLAVI NUMBER TWENTY", aliases: &[] },
        Codepoint { codepoint: 0x10BAF, name: "PSALTER PAHLAVI NUMBER ONE HUNDRED", aliases: &[] },
        Codepoint { codepoint: 0x10C00, name: "OLD TURKIC LETTER ORKHON A", aliases: &[] },
        Codepoint { codepoint: 0x10C01, name: "OLD TURKIC LETTER YENISEI A", aliases: &[] },
        Codepoint { codepoint: 0x10C02, name: "OLD TURKIC LETTER YENISEI AE", aliases: &[] },
        Codepoint { codepoint: 0x10C03, name: "OLD TURKIC LETTER ORKHON I", aliases: &[] },
        Codepoint { codepoint: 0x10C04, name: "OLD TURKIC LETTER YENISEI I", aliases: &[] },
        Codepoint { codepoint: 0x10C05, name: "OLD TURKIC LETTER YENISEI E", aliases: &[] },
        Codepoint { codepoint: 0x10C06, name: "OLD TURKIC LETTER ORKHON O", aliases: &[] },
        Codepoint { codepoint: 0x10C07, name: "OLD TURKIC LETTER ORKHON OE", aliases: &[] },
        Codepoint { codepoint: 0x10C08, name: "OLD TURKIC LETTER YENISEI OE", aliases: &[] },
        Codepoint { codepoint: 0x10C09, name: "OLD TURKIC LETTER ORKHON AB", aliases: &[] },
        Codepoint { codepoint: 0x10C0A, name: "OLD TURKIC LETTER YENISEI AB", aliases: &[] },
        Codepoint { codepoint: 0x10C0B, name: "OLD TURKIC LETTER ORKHON AEB", aliases: &[] },
        Codepoint { codepoint: 0x10C0C, name: "OLD TURKIC LETTER YENISEI AEB", aliases: &[] },
        Codepoint { codepoint: 0x10C0D, name: "OLD TURKIC LETTER ORKHON AG", aliases: &[] },
        Codepoint { codepoint: 0x10C0E, name: "OLD TURKIC LETTER YENISEI AG", aliases: &[] },
        Codepoint { codepoint: 0x10C0F, name: "OLD TURKIC LETTER ORKHON AEG", aliases: &[] },
        Codepoint { codepoint: 0x10C10, name: "OLD TURKIC LETTER YENISEI AEG", aliases: &[] },
        Codepoint { codepoint: 0x10C11, name: "OLD TURKIC LETTER ORKHON AD", aliases: &[] },
        Codepoint { codepoint: 0x10C12, name: "OLD TURKIC LETTER YENISEI AD", aliases: &[] },
        Codepoint { codepoint: 0x10C13, name: "OLD TURKIC LETTER ORKHON AED", aliases: &[] },
        Codepoint { codepoint: 0x10C14, name: "OLD TURKIC LETTER ORKHON EZ", aliases: &[] },
        Codepoint { codepoint: 0x10C15, name: "OLD TURKIC LETTER YENISEI EZ", aliases: &[] },
        Codepoint { codepoint: 0x10C16, name: "OLD TURKIC LETTER ORKHON AY", aliases: &[] },
        Codepoint { codepoint: 0x10C17, name: "OLD TURKIC LETTER YENISEI AY", aliases: &[] },
        Codepoint { codepoint: 0x10C18, name: "OLD TURKIC LETTER ORKHON AEY", aliases: &[] },
        Codepoint { codepoint: 0x10C19, name: "OLD TURKIC LETTER YENISEI AEY", aliases: &[] },
        Codepoint { codepoint: 0x10C1A, name: "OLD TURKIC LETTER ORKHON AEK", aliases: &[] },
        Codepoint { codepoint: 0x10C1B, name: "OLD TURKIC LETTER YENISEI AEK", aliases: &[] },
        Codepoint { codepoint: 0x10C1C, name: "OLD TURKIC LETTER ORKHON OEK", aliases: &[] },
        Codepoint { codepoint: 0x10C1D, name: "OLD TURKIC LETTER YENISEI OEK", aliases: &[] },
        Codepoint { codepoint: 0x10C1E, name: "OLD TURKIC LETTER ORKHON AL", aliases: &[] },
        Codepoint { codepoint: 0x10C1F, name: "OLD TURKIC LETTER YENISEI AL", aliases: &[] },
        Codepoint { codepoint: 0x10C20, name: "OLD TURKIC LETTER ORKHON AEL", aliases: &[] },
        Codepoint { codepoint: 0x10C21, name: "OLD TURKIC LETTER ORKHON ELT", aliases: &[] },
    ]
}

fn all_codepoints_477() -> (v: Vec<Codepoint>)
    ensures
        v@ == codepoint_table_477(),
{
    let v = vec![
        Codepoint { codepoint: 0x10BAA, name: "PSALTER PAHLAVI NUMBER TWO", aliases: &[] },
        Codepoint { codepoint: 0x10BAB, name: "PSALTER PAHLAVI NUMBER THREE", aliases: &[] },
        Codepoint { codepoint: 0x10BAC, name: "PSALTER PAHLAVI NUMBER FOUR", aliases: &[] },
        Codepoint { codepoint: 0x10BAD, name: "PSALTER PAHLAVI NUMBER TEN", aliases: &[] },
        Codepoint { codepoint: 0x10BAE, name: "PSALTER PAHLAVI NUMBER TWENTY", aliases: &[] },
        Codepoint { codepoint: 0x10BAF, name: "PSALTER PAHLAVI NUMBER ONE HUNDRED", aliases: &[] },
        Codepoint { codepoint: 0x10C00, name: "OLD TURKIC LETTER ORKHON A", aliases: &[] },
        Codepoint { codepoint: 0x10C01, name: "OLD TURKIC LETTER YENISEI A", aliases: &[] },
        Codepoint { codepoint: 0x10C02, name: "OLD TURKIC LETTER YENISEI AE", aliases: &[] },
        Codepoint { codepoint: 0x10C03, name: "OLD TURKIC LETTER ORKHON I", aliases: &[] },
        Codepoint { codepoint: 0x10C04, name: "OLD TURKIC LETTER YENISEI I", aliases: &[] },
        Codepoint { codepoint: 0x10C05, name: "OLD TURKIC LETTER YENISEI E", aliases: &[] },
        Codepoint { codepoint: 0x10C06, name: "OLD TURKIC LETTER ORKHON O", aliases: &[] },
        Codepoint { codepoint: 0x10C07, name: "OLD TURKIC LETTER ORKHON OE", aliases: &[] },
        Codepoint { codepoint: 0x10C08, name: "OLD TURKIC LETTER YENISEI OE", aliases: &[] },
        Codepoint { codepoint: 0x10C09, name: "OLD TURKIC LETTER ORKHON AB", aliases: &[] },
        Codepoint { codepoint: 0x10C0A, name: "OLD TURKIC LETTER YENISEI AB", aliases: &[] },
        Codepoint { codepoint: 0x10C0B, name: "OLD TURKIC LETTER ORKHON AEB", aliases: &[] },
        Codepoint { codepoint: 0x10C0C, name: "OLD TURKIC LETTER YENISEI AEB", aliases: &[] },
        Codepoint { codepoint: 0x10C0D, name: "OLD TURKIC LETTER ORKHON AG", aliases: &[] },
        Codepoint { codepoint: 0x10C0E, name: "OLD TURKIC LETTER YENISEI AG", aliases: &[] },
        Codepoint { codepoint: 0x10C0F, name: "OLD TURKIC LETTER ORKHON AEG", aliases: &[] },
        Codepoint { codepoint: 0x10C10, name: "OLD TURKIC LETTER YENISEI AEG", aliases: &[] },
        Codepoint { codepoint: 0x10C11, name: "OLD TURKIC LETTER ORKHON AD", aliases: &[] },
        Codepoint { codepoint: 0x10C12, name: "OLD TURKIC LETTER YENISEI AD", aliases: &[] },
        Codepoint { codepoint: 0x10C13, name: "OLD TURKIC LETTER ORKHON AED", aliases: &[] },
        Codepoint { codepoint: 0x10C14, name: "OLD TURKIC LETTER ORKHON EZ", aliases: &[] },
        Codepoint { codepoint: 0x10C15, name: "OLD TURKIC LETTER YENISEI EZ", aliases: &[] },
        Codepoint { codepoint: 0x10C16, name: "OLD TURKIC LETTER ORKHON AY", aliases: &[] },
        Codepoint { codepoint: 0x10C17, name: "OLD TURKIC LETTER YENISEI AY", aliases: &[] },
        Codepoint { codepoint: 0x10C18, name: "OLD TURKIC LETTER ORKHON AEY", aliases: &[] },
        Codepoint { codepoint: 0x10C19, name: "OLD TURKIC LETTER YENISEI AEY", aliases: &[] },
        Codepoint { codepoint: 0x10C1A, name: "OLD TURKIC LETTER ORKHON AEK", aliases: &[] },
        Codepoint { codepoint: 0x10C1B, name: "OLD TURKIC LETTER YENISEI AEK", aliases: &[] },
        Codepoint { codepoint: 0x10C1C, name: "OLD TURKIC LETTER ORKHON OEK", aliases: &[] },
        Codepoint { codepoint: 0x10C1D, name: "OLD TURKIC LETTER YENISEI OEK", aliases: &[] },
        Codepoint { codepoint: 0x10C1E, name: "OLD TURKIC LETTER ORKHON AL", aliases: &[] },
        Codepoint { codepoint: 0x10C1F, name: "OLD TURKIC LETTER YENISEI AL", aliases: &[] },
        Codepoint { codepoint: 0x10C20, name: "OLD TURKIC LETTER ORKHON AEL", aliases: &[] },
        Codepoint { codepoint: 0x10C21, name: "OLD TURKIC LETTER ORKHON ELT", aliases: &[] },
    ];
    assert(v@ =~= codepoint_table_477());
    v
}

pub open spec fn codepoint_table_478() -> Seq<Codepoint> {
    seq![
        Codepoint { codepoint: 0x10C22, name: "OLD TURKIC LETTER ORKHON EM", aliases: &[] },
        Codepoint { codepoint: 0x10C23, name: "OLD TURKIC LETTER ORKHON AN", aliases: &[] },
        Codepoint { codepoint: 0x10C24, name: "OLD TURKIC LETTER ORKHON AEN", aliases: &[] },
        Codepoint { codepoint: 0x10C25, name: "OLD TURKIC LETTER YENISEI AEN", aliases: &[] },
        Codepoint { codepoint: 0x10C26, name: "OLD TURKIC LETTER ORKHON ENT", aliases: &[] },
        Codepoint { codepoint: 0x10C27, name: "OLD TURKIC LETTER YENISEI ENT", aliases: &[] },
        Codepoint { codepoint: 0x10C28, name: "OLD TURKIC LETTER ORKHON ENC", aliases: &[] },
        Codepoint { codepoint: 0x10C29, name: "OLD TURKIC LETTER YENISEI ENC", aliases: &[] },
        Codepoint { codepoint: 0x10C2A, name: "OLD TURKIC LETTER ORKHON ENY", aliases: &[] },
        Codepoint { codepoint: 0x10C2B, name: "OLD TURKIC LETTER YENISEI ENY", aliases: &[] },
        Codepoint { codepoint: 0x10C2C, name: "OLD TURKIC LETTER YENISEI ANG", aliases: &[] },
        Codepoint { codepoint: 0x10C2D, name: "OLD TURKIC LETTER ORKHON ENG", aliases: &[] },
        Codepoint { codepoint: 0x10C2E, name: "OLD TURKIC LETTER YENISEI AENG", aliases: &[] },
        Codepoint { codepoint: 0x10C2F, name: "OLD TURKIC LETTER ORKHON EP", aliases: &[] },
        Codepoint { codepoint: 0x10C30, name: "OLD TURKIC LETTER ORKHON OP", aliases: &[] },
        Codepoint { codepoint: 0x10C31, name: "OLD TURKIC LETTER ORKHON IC", aliases: &[] },
        Codepoint { codepoint: 0x10C32, name: "OLD TURKIC LETTER ORKHON EC", aliases: &[] },
        Codepoint { codepoint: 0x10C33, name: "OLD TURKIC LETTER YENISEI EC", aliases: &[] },
        Codepoint { codepoint: 0x10C34, name: "OLD TURKIC LETTER ORKHON AQ", aliases: &[] },
        Codepoint { codepoint: 0x10C35, name: "OLD TURKIC LETTER YENISEI AQ", aliases: &[] },
        Codepoint { codepoint: 0x10C36, name: "OLD TURKIC LETTER ORKHON IQ", aliases: &[] },
        Codepoint { codepoint: 0x10C37, name: "OLD TURKIC LETTER YENISEI IQ", aliases: &[] },
        Codepoint { codepoint: 0x10C38, name: "OLD TURKIC LETTER ORKHON OQ", aliases: &[] },
        Codepoint { codepoint: 0x10C39, name: "OLD TURKIC LETTER YENISEI OQ", aliases: &[] },
        Codepoint { codepoint: 0x10C3A, name: "OLD TURKIC LETTER ORKHON AR", aliases: &[] },
        Codepoint { codepoint: 0x10C3B, name: "OLD TURKIC LETTER YENISEI AR", aliases: &[] },
        Codepoint { codepoint: 0x10C3C, name: "OLD TURKIC LETTER ORKHON AER", aliases: &[] },
        Codepoint { codepoint: 0x10C3D, name: "OLD TURKIC LETTER ORKHON AS", aliases: &[] },
        Codepoint { codepoint: 0x10C3E, name: "OLD TURKIC LETTER ORKHON AES", aliases: &[] },
        Codepoint { codepoint: 0x10C3F, name: "OLD TURKIC LETTER ORKHON ASH", aliases: &[] },
        Codepoint { codepoint: 0x10C40, name: "OLD TURKIC LETTER YENISEI ASH", aliases: &[] },
        Codepoint { codepoint: 0x10C41, name: "OLD TURKIC LETTER ORKHON ESH", aliases: &[] },
        Codepoint { codepoint: 0x10C42, name: "OLD TURKIC LETTER YENISEI ESH", aliases: &[] },
        Codepoint { codepoint: 0x10C43, name: "OLD TURKIC LETTER ORKHON AT", aliases: &[] },
        Codepoint { codepoint: 0x10C44, name: "OLD TURKIC LETTER YENISEI AT", aliases: &[] },
        Codepoint { codepoint: 0x10C45, name: "OLD TURKIC LETTER ORKHON AET", aliases: &[] },
        Codepoint { codepoint: 0x10C46, name: "OLD TURKIC LETTER YENISEI AET", aliases: &[] },
        Codepoint { codepoint: 0x10C47, name: "OLD TURKIC LETTER ORKHON OT", aliases: &[] },
        Codepoint { codepoint: 0x10C48, name: "OLD TURKIC LETTER ORKHON BASH", aliases: &[] },
        Codepoint { codepoint: 0x10C80, name: "OLD HUNGARIAN CAPITAL LETTER A", aliases: &[] },
    ]
}

fn all_codepoints_478() -> (v: Vec<Codepoint>)
    ensures
        v@ == codepoint_table_478(),
{
    let v = vec![
        Codepoint { codepoint: 0x10C22, name: "OLD TURKIC LETTER ORKHON EM", aliases: &[] },
        Codepoint { codepoint: 0x10C23, name: "OLD TURKIC LETTER ORKHON AN", aliases: &[] },
        Codepoint { codepoint: 0x10C24, name: "OLD TURKIC LETTER ORKHON AEN", aliases: &[] },
        Codepoint { codepoint: 0x10C25, name: "OLD TURKIC LETTER YENISEI AEN", aliases: &[] },
        Codepoint { codepoint: 0x10C26, name: "OLD TURKIC LETTER ORKHON ENT", aliases: &[] },
        Codepoint { codepoint: 0x10C27, name: "OLD TURKIC LETTER YENISEI ENT", aliases: &[] },
        Codepoint { codepoint: 0x10C28, name: "OLD TURKIC LETTER ORKHON ENC", aliases: &[] },
        Codepoint { codepoint: 0x10C29, name: "OLD TURKIC LETTER YENISEI ENC", aliases: &[] },
        Codepoint { codepoint: 0x10C2A, name: "OLD TURKIC LETTER ORKHON ENY", aliases: &[] },
        Codepoint { codepoint: 0x10C2B, name: "OLD TURKIC LETTER YENISEI ENY", aliases: &[] },
        Codepoint { codepoint: 0x10C2C, name: "OLD TURKIC LETTER YENISEI ANG", aliases: &[] },
        Codepoint { codepoint: 0x10C2D, name: "OLD TURKIC LETTER ORKHON ENG", aliases: &[] },
        Codepoint { codepoint: 0x10C2E, name: "OLD TURKIC LETTER YENISEI AENG", aliases: &[] },
        Codepoint { codepoint: 0x10C2F, name: "OLD TURKIC LETTER ORKHON EP", aliases: &[] },
        Codepoint { codepoint: 0x10C30, name: "OLD TURKIC LETTER ORKHON OP", aliases: &[] },
        Codepoint { codepoint: 0x10C31, name: "OLD TURKIC LETTER ORKHON IC", aliases: &[] },
        Codepoint { codepoint: 0x10C32, name: "OLD TURKIC LETTER ORKHON EC", aliases: &[] },
        Codepoint { codepoint: 0x10C33, name: "OLD TURKIC LETTER YENISEI EC", aliases: &[] },
        Codepoint { codepoint: 0x10C34, name: "OLD TURKIC LETTER ORKHON AQ", aliases: &[] },
        Codepoint { codepoint: 0x10C35, name: "OLD TURKIC LETTER YENISEI AQ", aliases: &[] },
        Codepoint { codepoint: 0x10C36, name: "OLD TURKIC LETTER ORKHON IQ", aliases: &[] },
        Codepoint { codepoint: 0x10C37, name: "OLD TURKIC LETTER YENISEI IQ", aliases: &[] },
        Codepoint { codepoint: 0x10C38, name: "OLD TURKIC LETTER ORKHON OQ", aliases: &[] },
        Codepoint { codepoint: 0x10C39, name: "OLD TURKIC LETTER YENISEI OQ", aliases: &[] },
        Codepoint { codepoint: 0x10C3A, name: "OLD TURKIC LETTER ORKHON AR", aliases: &[] },
        Codepoint { codepoint: 0x10C3B, name: "OLD TURKIC LETTER YENISEI AR", aliases: &[] },
        Codepoint { codepoint: 0x10C3C, name: "OLD TURKIC LETTER ORKHON AER", aliases: &[] },
        Codepoint { codepoint: 0x10C3D, name: "OLD TURKIC LETTER ORKHON AS", aliases: &[] },
        Codepoint { codepoint: 0x10C3E, name: "OLD TURKIC LETTER ORKHON AES", aliases: &[] },
        Codepoint { codepoint: 0x10C3F, name: "OLD TURKIC LETTER ORKHON ASH", aliases: &[] },
        Codepoint { codepoint: 0x10C40, name: "OLD TURKIC LETTER YENISEI ASH", aliases: &[] },
        Codepoint { codepoint: 0x10C41, name: "OLD TURKIC LETTER ORKHON ESH", aliases: &[] },
        Codepoint { codepoint: 0x10C42, name: "OLD TURKIC LETTER YENISEI ESH", aliases: &[] },
        Codepoint { codepoint: 0x10C43, name: "OLD TURKIC LETTER ORKHON AT", aliases: &[] },
        Codepoint { codepoint: 0x10C44, name: "OLD TURKIC LETTER YENISEI AT", aliases: &[] },
        Codepoint { codepoint: 0x10C45, name: "OLD TURKIC LETTER ORKHON AET", aliases: &[] },
        Codepoint { codepoint: 0x10C46, name: "OLD TURKIC LETTER YENISEI AET", aliases: &[] },
        Codepoint { codepoint: 0x10C47, name: "OLD TURKIC LETTER ORKHON OT", aliases: &[] },
        Codepoint { codepoint: 0x10C48, name: "OLD TURKIC LETTER ORKHON BASH", aliases: &[] },
        Codepoint { codepoint: 0x10C80, name: "OLD HUNGARIAN CAPITAL LETTER A", aliases: &[] },
    ];
    assert(v@ =~= codepoint_table_478());
    v
}

pub open spec fn codepoint_table_479() -> Seq<Codepoint> {
    seq![
        Codepoint { codepoint: 0x10C81, name: "OLD HUNGARIAN CAPITAL LETTER AA", aliases: &[] },
        Codepoint { codepoint: 0x10C82, name: "OLD HUNGARIAN CAPITAL LETTER EB", aliases: &[] },
        Codepoint { codepoint: 0x10C83, name: "OLD HUNGARIAN CAPITAL LETTER AMB", aliases: &[] },
        Codepoint { codepoint: 0x10C84, name: "OLD HUNGARIAN CAPITAL LETTER EC", aliases: &[] },
        Codepoint { codepoint: 0x10C85, name: "OLD HUNGARIAN CAPITAL LETTER ENC", aliases: &[] },
        Codepoint { codepoint: 0x10C86, name: "OLD HUNGARIAN CAPITAL LETTER ECS", aliases: &[] },
        Codepoint { codepoint: 0x10C87, name: "OLD HUNGARIAN CAPITAL LETTER ED", aliases: &[] },
        Codepoint { codepoint: 0x10C88, name: "OLD HUNGARIAN CAPITAL LETTER AND", aliases: &[] },
        Codepoint { codepoint: 0x10C89, name: "OLD HUNGARIAN CAPITAL LETTER E", aliases: &[] },
        Codepoint { codepoint: 0x10C8A, name: "OLD HUNGARIAN CAPITAL LETTER CLOSE E", aliases: &[] },
        Codepoint { codepoint: 0x10C8B, name: "OLD HUNGARIAN CAPITAL LETTER EE", aliases: &[] },
        Codepoint { codepoint: 0x10C8C, name: "OLD HUNGARIAN CAPITAL LETTER EF", aliases: &[] },
        Codepoint { codepoint: 0x10C8D, name: "OLD HUNGARIAN CAPITAL LETTER EG", aliases: &[] },
        Codepoint { codepoint: 0x10C8E, name: "OLD HUNGARIAN CAPITAL LETTER EGY", aliases: &[] },
        Codepoint { codepoint: 0x10C8F, name: "OLD HUNGARIAN CAPITAL LETTER EH", aliases: &[] },
        Codepoint { codepoint: 0x10C90, name: "OLD HUNGARIAN CAPITAL LETTER I", aliases: &[] },
        Codepoint { codepoint: 0x10C91, name: "OLD HUNGARIAN CAPITAL LETTER II", aliases: &[] },
        Codepoint { codepoint: 0x10C92, name: "OLD HUNGARIAN CAPITAL LETTER EJ", aliases: &[] },
        Codepoint { codepoint: 0x10C93, name: "OLD HUNGARIAN CAPITAL LETTER EK", aliases: &[] },
        Codepoint { codepoint: 0x10C94, name: "OLD HUNGARIAN CAPITAL LETTER AK", aliases: &[] },
        Codepoint { codepoint: 0x10C95, name: "OLD HUNGARIAN CAPITAL LETTER UNK", aliases: &[] },
        Codepoint { codepoint: 0x10C96, name: "OLD HUNGARIAN CAPITAL LETTER EL", aliases: &[] },
        Codepoint { codepoint: 0x10C97, name: "OLD HUNGARIAN CAPITAL LETTER ELY", aliases: &[] },
        Codepoint { codepoint: 0x10C98, name: "OLD HUNGARIAN CAPITAL LETTER EM", aliases: &[] },
        Codepoint { codepoint: 0x10C99, name: "OLD HUNGARIAN CAPITAL LETTER EN", aliases: &[] },
        Codepoint { codepoint: 0x10C9A, name: "OLD HUNGARIAN CAPITAL LETTER ENY", aliases: &[] },
        Codepoint { codepoint: 0x10C9B, name: "OLD HUNGARIAN CAPITAL LETTER O", aliases: &[] },
        Codepoint { codepoint: 0x10C9C, name: "OLD HUNGARIAN CAPITAL LETTER OO", aliases: &[] },
        Codepoint { codepoint: 0x10C9D, name: "OLD HUNGARIAN CAPITAL LETTER NIKOLSBURG OE", aliases: &[] },
        Codepoint { codepoint: 0x10C9E, name: "OLD HUNGARIAN CAPITAL LETTER RUDIMENTA OE", aliases: &[] },
        Codepoint { codepoint: 0x10C9F, name: "OLD HUNGARIAN CAPITAL LETTER OEE", aliases: &[] },
        Codepoint { codepoint: 0x10CA0, name: "OLD HUNGARIAN CAPITAL LETTER EP", aliases: &[] },
        Codepoint { codepoint: 0x10CA1, name: "OLD HUNGARIAN CAPITAL LETTER EMP", aliases: &[] },
        Codepoint { codepoint: 0x10CA2, name: "OLD HUNGARIAN CAPITAL LETTER ER", aliases: &[] },
        Codepoint { codepoint: 0x10CA3, name: "OLD HUNGARIAN CAPITAL LETTER SHORT ER", aliases: &[] },
        Codepoint { codepoint: 0x10CA4, name: "OLD HUNGARIAN CAPITAL LETTER ES", aliases: &[] },
        Codepoint { codepoint: 0x10CA5, name: "OLD HUNGARIAN CAPITAL LETTER ESZ", aliases: &[] },
        Codepoint { codepoint: 0x10CA6, name: "OLD HUNGARIAN CAPITAL LETTER ET", aliases: &[] },
        Codepoint { codepoint: 0x10CA7, name: "OLD HUNGARIAN CAPITAL LETTER ENT", aliases: &[] },
        Codepoint { codepoint: 0x10CA8, name: "OLD HUNGARIAN CAPITAL LETTER ETY", aliases: &[] },
    ]
}

fn all_codepoints_479() -> (v: Vec<Codepoint>)
    ensures
        v@ == codepoint_table_479(),
{
    let v = vec![
        Codepoint { codepoint: 0x10C81, name: "OLD HUNGARIAN CAPITAL LETTER AA", aliases: &[] },
        Codepoint { codepoint: 0x10C82, name: "OLD HUNGARIAN CAPITAL LETTER EB", aliases: &[] },
        Codepoint { codepoint: 0x10C83, name: "OLD HUNGARIAN CAPITAL LETTER AMB", aliases: &[] },
        Codepoint { codepoint: 0x10C84, name: "OLD HUNGARIAN CAPITAL LETTER EC", aliases: &[] },
        Codepoint { codepoint: 0x10C85, name: "OLD HUNGARIAN CAPITAL LETTER ENC", aliases: &[] },
        Codepoint { codepoint: 0x10C86, name: "OLD HUNGARIAN CAPITAL LETTER ECS", aliases: &[] },
        Codepoint { codepoint: 0x10C87, name: "OLD HUNGARIAN CAPITAL LETTER ED", aliases: &[] },
        Codepoint { codepoint: 0x10C88, name: "OLD HUNGARIAN CAPITAL LETTER AND", aliases: &[] },
        Codepoint { codepoint: 0x10C89, name: "OLD HUNGARIAN CAPITAL LETTER E", aliases: &[] },
        Codepoint { codepoint: 0x10C8A, name: "OLD HUNGARIAN CAPITAL LETTER CLOSE E", aliases: &[] },
        Codepoint { codepoint: 0x10C8B, name: "OLD HUNGARIAN CAPITAL LETTER EE", aliases: &[] },
        Codepoint { codepoint: 0x10C8C, name: "OLD HUNGARIAN CAPITAL LETTER EF", aliases: &[] },
        Codepoint { codepoint: 0x10C8D, name: "OLD HUNGARIAN CAPITAL LETTER EG", aliases: &[] },
        Codepoint { codepoint: 0x10C8E, name: "OLD HUNGARIAN CAPITAL LETTER EGY", aliases: &[] },
        Codepoint { codepoint: 0x10C8F, name: "OLD HUNGARIAN CAPITAL LETTER EH", aliases: &[] },
        Codepoint { codepoint: 0x10C90, name: "OLD HUNGARIAN CAPITAL LETTER I", aliases: &[] },
        Codepoint { codepoint: 0x10C91, name: "OLD HUNGARIAN CAPITAL LETTER II", aliases: &[] },
        Codepoint { codepoint: 0x10C92, name: "OLD HUNGARIAN CAPITAL LETTER EJ", aliases: &[] },
        Codepoint { codepoint: 0x10C93, name: "OLD HUNGARIAN CAPITAL LETTER EK", aliases: &[] },
        Codepoint { codepoint: 0x10C94, name: "OLD HUNGARIAN CAPITAL LETTER AK", aliases: &[] },
        Codepoint { codepoint: 0x10C95, name: "OLD HUNGARIAN CAPITAL LETTER UNK", aliases: &[] },
        Codepoint { codepoint: 0x10C96, name: "OLD HUNGARIAN CAPITAL LETTER EL", aliases: &[] },
        Codepoint { codepoint: 0x10C97, name: "OLD HUNGARIAN CAPITAL LETTER ELY", aliases: &[] },
        Codepoint { codepoint: 0x10C98, name: "OLD HUNGARIAN CAPITAL LETTER EM", aliases: &[] },
        Codepoint { codepoint: 0x10C99, name: "OLD HUNGARIAN CAPITAL LETTER EN", aliases: &[] },
        Codepoint { codepoint: 0x10C9A, name: "OLD HUNGARIAN CAPITAL LETTER ENY", aliases: &[] },
        Codepoint { codepoint: 0x10C9B, name: "OLD HUNGARIAN CAPITAL LETTER O", aliases: &[] },
        Codepoint { codepoint: 0x10C9C, name: "OLD HUNGARIAN CAPITAL LETTER OO", aliases: &[] },
        Codepoint { codepoint: 0x10C9D, name: "OLD HUNGARIAN CAPITAL LETTER NIKOLSBURG OE", aliases: &[] },
        Codepoint { codepoint: 0x10C9E, name: "OLD HUNGARIAN CAPITAL LETTER RUDIMENTA OE", aliases: &[] },
        Codepoint { codepoint: 0x10C9F, name: "OLD HUNGARIAN CAPITAL LETTER OEE", aliases: &[] },
        Codepoint { codepoint: 0x10CA0, name: "OLD HUNGARIAN CAPITAL LETTER EP", aliases: &[] },
        Codepoint { codepoint: 0x10CA1, name: "OLD HUNGARIAN CAPITAL LETTER EMP", aliases: &[] },
        Codepoint { codepoint: 0x10CA2, name: "OLD HUNGARIAN CAPITAL LETTER ER", aliases: &[] },
        Codepoint { codepoint: 0x10CA3, name: "OLD HUNGARIAN CAPITAL LETTER SHORT ER", aliases: &[] },
        Codepoint { codepoint: 0x10CA4, name: "OLD HUNGARIAN CAPITAL LETTER ES", aliases: &[] },
        Codepoint { codepoint: 0x10CA5, name: "OLD HUNGARIAN CAPITAL LETTER ESZ", aliases: &[] },
        Codepoint { codepoint: 0x10CA6, name: "OLD HUNGARIAN CAPITAL LETTER ET", aliases: &[] },
        Codepoint { codepoint: 0x10CA7, name: "OLD HUNGARIAN CAPITAL LETTER ENT", aliases: &[] },
        Codepoint { codepoint: 0x10CA8, name: "OLD HUNGARIAN CAPITAL LETTER ETY", aliases: &[] },
    ];
    assert(v@ =~= codepoint_table_479());
    v
}

/// The entries from position 18400 of the table, 800 at most.
pub open spec fn codepoint_group_23() -> Seq<Codepoint> {
    codepoint_table_460() + codepoint_table_461() + codepoint_table_462() + codepoint_table_463() + codepoint_table_464() + codepoint_table_465() + codepoint_table_466() + codepoint_table_467() + codepoint_table_468() + codepoint_table_469() + codepoint_table_470() + codepoint_table_471() + codepoint_table_472() + codepoint_table_473() + codepoint_table_474() + codepoint_table_475() + codepoint_table_476() + codepoint_table_477() + codepoint_table_478() + codepoint_table_479()
}

pub fn all_codepoints_group_23() -> (v: Vec<Codepoint>)
    ensures
        v@ == codepoint_group_23(),
{
    let mut v = all_codepoints_460();
    let mut part = all_codepoints_461();
    v.append(&mut part);
    let mut part = all_codepoints_462();
    v.append(&mut part);
    let mut part = all_codepoints_463();
    v.append(&mut part);
    let mut part = all_codepoints_464();
    v.append(&mut part);
    let mut part = all_codepoints_465();
    v.append(&mut part);
    let mut part = all_codepoints_466();
    v.append(&mut part);
    let mut part = all_codepoints_467();
    v.append(&mut part);
    let mut part = all_codepoints_468();
    v.append(&mut part);
    let mut part = all_codepoints_469();
    v.append(&mut part);
    let mut part = all_codepoints_470();
    v.append(&mut part);
    let mut part = all_codepoints_471();
    v.append(&mut part);
    let mut part = all_codepoints_472();
    v.append(&mut part);
    let mut part = all_codepoints_473();
    v.append(&mut part);
    let mut part = all_codepoints_474();
    v.append(&mut part);
    let mut part = all_codepoints_475();
    v.append(&mut part);
    let mut part = all_codepoints_476();
    v.append(&mut part);
    let mut part = all_codepoints_477();
    v.append(&mut part);
    let mut part = all_codepoints_478();
    v.append(&mut part);
    let mut part = all_codepoints_479();
    v.append(&mut part);
    v
}

pub open spec fn codepoint_table_480() -> Seq<Codepoint> {
    seq![
        Codepoint { codepoint: 0x10CA9, name: "OLD HUNGARIAN CAPITAL LETTER ECH", aliases: &[] },
        Codepoint { codepoint: 0x10CAA, name: "OLD HUNGARIAN CAPITAL LETTER U", aliases: &[] },
        Codepoint { codepoint: 0x10CAB, name: "OLD HUNGARIAN CAPITAL LETTER UU", aliases: &[] },
        Codepoint { codepoint: 0x10CAC, name: "OLD HUNGARIAN CAPITAL LETTER NIKOLSBURG UE", aliases: &[] },
        Codepoint { codepoint: 0x10CAD, name: "OLD HUNGARIAN CAPITAL LETTER RUDIMENTA UE", aliases: &[] },
        Codepoint { codepoint: 0x10CAE, name: "OLD HUNGARIAN CAPITAL LETTER EV", aliases: &[] },
        Codepoint { codepoint: 0x10CAF, name: "OLD HUNGARIAN CAPITAL LETTER EZ", aliases: &[] },
        Codepoint { codepoint: 0x10CB0, name: "OLD HUNGARIAN CAPITAL LETTER EZS", aliases: &[] },
        Codepoint { codepoint: 0x10CB1, name: "OLD HUNGARIAN CAPITAL LETTER ENT-SHAPED SIGN", aliases: &[] },
        Codepoint { codepoint: 0x10CB2, name: "OLD HUNGARIAN CAPITAL LETTER US", aliases: &[] },
        Codepoint { codepoint: 0x10CC0, name: "OLD HUNGARIAN SMALL LETTER A", aliases: &[] },
        Codepoint { codepoint: 0x10CC1, name: "OLD HUNGARIAN SMALL LETTER AA", aliases: &[] },
        Codepoint { codepoint: 0x10CC2, name: "OLD HUNGARIAN SMALL LETTER EB", aliases: &[] },
        Codepoint { codepoint: 0x10CC3, name: "OLD HUNGARIAN SMALL LETTER AMB", aliases: &[] },
        Codepoint { codepoint: 0x10CC4, name: "OLD HUNGARIAN SMALL LETTER EC", aliases: &[] },
        Codepoint { codepoint: 0x10CC5, name: "OLD HUNGARIAN SMALL LETTER ENC", aliases: &[] },
        Codepoint { codepoint: 0x10CC6, name: "OLD HUNGARIAN SMALL LETTER ECS", aliases: &[] },
        Codepoint { codepoint: 0x10CC7, name: "OLD HUNGARIAN SMALL LETTER ED", aliases: &[] },
        Codepoint { codepoint: 0x10CC8, name: "OLD HUNGARIAN SMALL LETTER AND", aliases: &[] },
        Codepoint { codepoint: 0x10CC9, name: "OLD HUNGARIAN SMALL LETTER E", aliases: &[] },
        Codepoint { codepoint: 0x10CCA, name: "OLD HUNGARIAN SMALL LETTER CLOSE E", aliases: &[] },
        Codepoint { codepoint: 0x10CCB, name: "OLD HUNGARIAN SMALL LETTER EE", aliases: &[] },
        Codepoint { codepoint: 0x10CCC, name: "OLD HUNGARIAN SMALL LETTER EF", aliases: &[] },
        Codepoint { codepoint: 0x10CCD, name: "OLD HUNGARIAN SMALL LETTER EG", aliases: &[] },
        Codepoint { codepoint: 0x10CCE, name: "OLD HUNGARIAN SMALL LETTER EGY", aliases: &[] },
        Codepoint { codepoint: 0x10CCF, name: "OLD HUNGARIAN SMALL LETTER EH", aliases: &[] },
        Codepoint { codepoint: 0x10CD0, name: "OLD HUNGARIAN SMALL LETTER I", aliases: &[] },
        Codepoint { codepoint: 0x10CD1, name: "OLD HUNGARIAN SMALL LETTER II", aliases: &[] },
        Codepoint { codepoint: 0x10CD2, name: "OLD HUNGARIAN SMALL LETTER EJ", aliases: &[] },
        Codepoint { codepoint: 0x10CD3, name: "OLD HUNGARIAN SMALL LETTER EK", aliases: &[] },
        Codepoint { codepoint: 0x10CD4, name: "OLD HUNGARIAN SMALL LETTER AK", aliases: &[] },
        Codepoint { codepoint: 0x10CD5, name: "OLD HUNGARIAN SMALL LETTER UNK", aliases: &[] },
        Codepoint { codepoint: 0x10CD6, name: "OLD HUNGARIAN SMALL LETTER EL", aliases: &[] },
        Codepoint { codepoint: 0x10CD7, name: "OLD HUNGARIAN SMALL LETTER ELY", aliases: &[] },
        Codepoint { codepoint: 0x10CD8, name: "OLD HUNGARIAN SMALL LETTER EM", aliases: &[] },
        Codepoint { codepoint: 0x10CD9, name: "OLD HUNGARIAN SMALL LETTER EN", aliases: &[] },
        Codepoint { codepoint: 0x10CDA, name: "OLD HUNGARIAN SMALL LETTER ENY", aliases: &[] },
        Codepoint { codepoint: 0x10CDB, name: "OLD HUNGARIAN SMALL LETTER O", aliases: &[] },
        Codepoint { codepoint: 0x10CDC, name: "OLD HUNGARIAN SMALL LETTER OO", aliases: &[] },
        Codepoint { codepoint: 0x10CDD, name: "OLD HUNGARIAN SMALL LETTER NIKOLSBURG OE", aliases: &[] },
    ]
}

fn all_codepoints_480() -> (v: Vec<Codepoint>)
    ensures
        v@ == codepoint_table_480(),
{
    let v = vec![
        Codepoint { codepoint: 0x10CA9, name: "OLD HUNGARIAN CAPITAL LETTER ECH", aliases: &[] },
        Codepoint { codepoint: 0x10CAA, name: "OLD HUNGARIAN CAPITAL LETTER U", aliases: &[] },
        Codepoint { codepoint: 0x10CAB, name: "OLD HUNGARIAN CAPITAL LETTER UU", aliases: &[] },
        Codepoint { codepoint: 0x10CAC, name: "OLD HUNGARIAN CAPITAL LETTER NIKOLSBURG UE", aliases: &[] },
        Codepoint { codepoint: 0x10CAD, name: "OLD HUNGARIAN CAPITAL LETTER RUDIMENTA UE", aliases: &[] },
        Codepoint { codepoint: 0x10CAE, name: "OLD HUNGARIAN CAPITAL LETTER EV", aliases: &[] },
        Codepoint { codepoint: 0x10CAF, name: "OLD HUNGARIAN CAPITAL LETTER EZ", aliases: &[] },
        Codepoint { codepoint: 0x10CB0, name: "OLD HUNGARIAN CAPITAL LETTER EZS", aliases: &[] },
        Codepoint { codepoint: 0x10CB1, name: "OLD HUNGARIAN CAPITAL LETTER ENT-SHAPED SIGN", aliases: &[] },
        Codepoint { codepoint: 0x10CB2, name: "OLD HUNGARIAN CAPITAL LETTER US", aliases: &[] },
        Codepoint { codepoint: 0x10CC0, name: "OLD HUNGARIAN SMALL LETTER A", aliases: &[] },
        Codepoint { codepoint: 0x10CC1, name: "OLD HUNGARIAN SMALL LETTER AA", aliases: &[] },
        Codepoint { codepoint: 0x10CC2, name: "OLD HUNGARIAN SMALL LETTER EB", aliases: &[] },
        Codepoint { codepoint: 0x10CC3, name: "OLD HUNGARIAN SMALL LETTER AMB", aliases: &[] },
        Codepoint { codepoint: 0x10CC4, name: "OLD HUNGARIAN SMALL LETTER EC", aliases: &[] },
        Codepoint { codepoint: 0x10CC5, name: "OLD HUNGARIAN SMALL LETTER ENC", aliases: &[] },
        Codepoint { codepoint: 0x10CC6, name: "OLD HUNGARIAN SMALL LETTER ECS", aliases: &[] },
        Codepoint { codepoint: 0x10CC7, name: "OLD HUNGARIAN SMALL LETTER ED", aliases: &[] },
        Codepoint { codepoint: 0x10CC8, name: "OLD HUNGARIAN SMALL LETTER AND", aliases: &[] },
        Codepoint { codepoint: 0x10CC9, name: "OLD HUNGARIAN SMALL LETTER E", aliases: &[] },
        Codepoint { codepoint: 0x10CCA, name: "OLD HUNGARIAN SMALL LETTER CLOSE E", aliases: &[] },
        Codepoint { codepoint: 0x10CCB, name: "OLD HUNGARIAN SMALL LETTER EE", aliases: &[] },
        Codepoint { codepoint: 0x10CCC, name: "OLD HUNGARIAN SMALL LETTER EF", aliases: &[] },
        Codepoint { codepoint: 0x10CCD, name: "OLD HUNGARIAN SMALL LETTER EG", aliases: &[] },
        Codepoint { codepoint: 0x10CCE, name: "OLD HUNGARIAN SMALL LETTER EGY", aliases: &[] },
        Codepoint { codepoint: 0x10CCF, name: "OLD HUNGARIAN SMALL LETTER EH", aliases: &[] },
        Codepoint { codepoint: 0x10CD0, name: "OLD HUNGARIAN SMALL LETTER I", aliases: &[] },
        Codepoint { codepoint: 0x10CD1, name: "OLD HUNGARIAN SMALL LETTER II", aliases: &[] },
        Codepoint { codepoint: 0x10CD2, name: "OLD HUNGARIAN SMALL LETTER EJ", aliases: &[] },
        Codepoint { codepoint: 0x10CD3, name: "OLD HUNGARIAN SMALL LETTER EK", aliases: &[] },
        Codepoint { codepoint: 0x10CD4, name: "OLD HUNGARIAN SMALL LETTER AK", aliases: &[] },
        Codepoint { codepoint: 0x10CD5, name: "OLD HUNGARIAN SMALL LETTER UNK", aliases: &[] },
        Codepoint { codepoint: 0x10CD6, name: "OLD HUNGARIAN SMALL LETTER EL", aliases: &[] },
        Codepoint { codepoint: 0x10CD7, name: "OLD HUNGARIAN SMALL LETTER ELY", aliases: &[] },
        Codepoint { codepoint: 0x10CD8, name: "OLD HUNGARIAN SMALL LETTER EM", aliases: &[] },
        Codepoint { codepoint: 0x10CD9, name: "OLD HUNGARIAN SMALL LETTER EN", aliases: &[] },
        Codepoint { codepoint: 0x10CDA, name: "OLD HUNGARIAN SMALL LETTER ENY", aliases: &[] },
        Codepoint { codepoint: 0x10CDB, name: "OLD HUNGARIAN SMALL LETTER O", aliases: &[] },
        Codepoint { codepoint: 0x10CDC, name: "OLD HUNGARIAN SMALL LETTER OO", aliases: &[] },
        Codepoint { codepoint: 0x10CDD, name: "OLD HUNGARIAN SMALL LETTER NIKOLSBURG OE", aliases: &[] },
    ];
    assert(v@ =~= codepoint_table_480());
    v
}

pub open spec fn codepoint_table_481() -> Seq<Codepoint> {
    seq![
        Codepoint { codepoint: 0x10CDE, name: "OLD HUNGARIAN SMALL LETTER RUDIMENTA OE", aliases: &[] },
        Codepoint { codepoint: 0x10CDF, name: "OLD HUNGARIAN SMALL LETTER OEE", aliases: &[] },
        Codepoint { codepoint: 0x10CE0, name: "OLD HUNGARIAN SMALL LETTER EP", aliases: &[] },
        Codepoint { codepoint: 0x10CE1, name: "OLD HUNGARIAN SMALL LETTER EMP", aliases: &[] },
        Codepoint { codepoint: 0x10CE2, name: "OLD HUNGARIAN SMALL LETTER ER", aliases: &[] },
        Codepoint { codepoint: 0x10CE3, name: "OLD HUNGARIAN SMALL LETTER SHORT ER", aliases: &[] },
        Codepoint { codepoint: 0x10CE4, name: "OLD HUNGARIAN SMALL LETTER ES", aliases: &[] },
        Codepoint { codepoint: 0x10CE5, name: "OLD HUNGARIAN SMALL LETTER ESZ", aliases: &[] },
        Codepoint { codepoint: 0x10CE6, name: "OLD HUNGARIAN SMALL LETTER ET", aliases: &[] },
        Codepoint { codepoint: 0x10CE7, name: "OLD HUNGARIAN SMALL LETTER ENT", aliases: &[] },
        Codepoint { codepoint: 0x10CE8, name: "OLD HUNGARIAN SMALL LETTER ETY", aliases: &[] },
        Codepoint { codepoint: 0x10CE9, name: "OLD HUNGARIAN SMALL LETTER ECH", aliases: &[] },
        Codepoint { codepoint: 0x10CEA, name: "OLD HUNGARIAN SMALL LETTER U", aliases: &[] },
        Codepoint { codepoint: 0x10CEB, name: "OLD HUNGARIAN SMALL LETTER UU", aliases: &[] },
        Codepoint { codepoint: 0x10CEC, name: "OLD HUNGARIAN SMALL LETTER NIKOLSBURG UE", aliases: &[] },
        Codepoint { codepoint: 0x10CED, name: "OLD HUNGARIAN SMALL LETTER RUDIMENTA UE", aliases: &[] },
        Codepoint { codepoint: 0x10CEE, name: "OLD HUNGARIAN SMALL LETTER EV", aliases: &[] },
        Codepoint { codepoint: 0x10CEF, name: "OLD HUNGARIAN SMALL LETTER EZ", aliases: &[] },
        Codepoint { codepoint: 0x10CF0, name: "OLD HUNGARIAN SMALL LETTER EZS", aliases: &[] },
        Codepoint { codepoint: 0x10CF1, name: "OLD HUNGARIAN SMALL LETTER ENT-SHAPED SIGN", aliases: &[] },
        Codepoint { codepoint: 0x10CF2, name: "OLD HUNGARIAN SMALL LETTER US", aliases: &[] },
        Codepoint { codepoint: 0x10CFA, name: "OLD HUNGARIAN NUMBER ONE", aliases: &[] },
        Codepoint { codepoint: 0x10CFB, name: "OLD HUNGARIAN NUMBER FIVE", aliases: &[] },
        Codepoint { codepoint: 0x10CFC, name: "OLD HUNGARIAN NUMBER TEN", aliases: &[] },
        Codepoint { codepoint: 0x10CFD, name: "OLD HUNGARIAN NUMBER FIFTY", aliases: &[] },
        Codepoint { codepoint: 0x10CFE, name: "OLD HUNGARIAN NUMBER ONE HUNDRED", aliases: &[] },
        Codepoint { codepoint: 0x10CFF, name: "OLD HUNGARIAN NUMBER ONE THOUSAND", aliases: &[] },
        Codepoint { codepoint: 0x10D00, name: "HANIFI ROHINGYA LETTER A", aliases: &[] },
        Codepoint { codepoint: 0x10D01, name: "HANIFI ROHINGYA LETTER BA", aliases: &[] },
        Codepoint { codepoint: 0x10D02, name: "HANIFI ROHINGYA LETTER PA", aliases: &[] },
        Codepoint { codepoint: 0x10D03, name: "HANIFI ROHINGYA LETTER TA", aliases: &[] },
        Codepoint { codepoint: 0x10D04, name: "HANIFI ROHINGYA LETTER TTA", aliases: &[] },
        Codepoint { codepoint: 0x10D05, name: "HANIFI ROHINGYA LETTER JA", aliases: &[] },
        Codepoint { codepoint: 0x10D06, name: "HANIFI ROHINGYA LETTER CA", aliases: &[] },
        Codepoint { codepoint: 0x10D07, name: "HANIFI ROHINGYA LETTER HA", aliases: &[] },
        Codepoint { codepoint: 0x10D08, name: "HANIFI ROHINGYA LETTER KHA", aliases: &[] },
        Codepoint { codepoint: 0x10D09, name: "HANIFI ROHINGYA LETTER FA", aliases: &[] },
        Codepoint { codepoint: 0x10D0A, name: "HANIFI ROHINGYA LETTER DA", aliases: &[] },
        Codepoint { codepoint: 0x10D0B, name: "HANIFI ROHINGYA LETTER DDA", aliases: &[] },
        Codepoint { codepoint: 0x10D0C, name: "HANIFI ROHINGYA LETTER RA", aliases: &[] },
    ]
}

fn all_codepoints_481() -> (v: Vec<Codepoint>)
    ensures
        v@ == codepoint_table_481(),
{
    let v = vec![
        Codepoint { codepoint: 0x10CDE, name: "OLD HUNGARIAN SMALL LETTER RUDIMENTA OE", aliases: &[] },
        Codepoint { codepoint: 0x10CDF, name: "OLD HUNGARIAN SMALL LETTER OEE", aliases: &[] },
        Codepoint { codepoint: 0x10CE0, name: "OLD HUNGARIAN SMALL LETTER EP", aliases: &[] },
        Codepoint { codepoint: 0x10CE1, name: "OLD HUNGARIAN SMALL LETTER EMP", aliases: &[] },
        Codepoint { codepoint: 0x10CE2, name: "OLD HUNGARIAN SMALL LETTER ER", aliases: &[] },
        Codepoint { codepoint: 0x10CE3, name: "OLD HUNGARIAN SMALL LETTER SHORT ER", aliases: &[] },
        Codepoint { codepoint: 0x10CE4, name: "OLD HUNGARIAN SMALL LETTER ES", aliases: &[] },
        Codepoint { codepoint: 0x10CE5, name: "OLD HUNGARIAN SMALL LETTER ESZ", aliases: &[] },
        Codepoint { codepoint: 0x10CE6, name: "OLD HUNGARIAN SMALL LETTER ET", aliases: &[] },
        Codepoint { codepoint: 0x10CE7, name: "OLD HUNGARIAN SMALL LETTER ENT", aliases: &[] },
        Codepoint { codepoint: 0x10CE8, name: "OLD HUNGARIAN SMALL LETTER ETY", aliases: &[] },
        Codepoint { codepoint: 0x10CE9, name: "OLD HUNGARIAN SMALL LETTER ECH", aliases: &[] },
        Codepoint { codepoint: 0x10CEA, name: "OLD HUNGARIAN SMALL LETTER U", aliases: &[] },
        Codepoint { codepoint: 0x10CEB, name: "OLD HUNGARIAN SMALL LETTER UU", aliases: &[] },
        Codepoint { codepoint: 0x10CEC, name: "OLD HUNGARIAN SMALL LETTER NIKOLSBURG UE", aliases: &[] },
        Codepoint { codepoint: 0x10CED, name: "OLD HUNGARIAN SMALL LETTER RUDIMENTA UE", aliases: &[] },
        Codepoint { codepoint: 0x10CEE, name: "OLD HUNGARIAN SMALL LETTER EV", aliases: &[] },
        Codepoint { codepoint: 0x10CEF, name: "OLD HUNGARIAN SMALL LETTER EZ", aliases: &[] },
        Codepoint { codepoint: 0x10CF0, name: "OLD HUNGARIAN SMALL LETTER EZS", aliases: &[] },
        Codepoint { codepoint: 0x10CF1, name: "OLD HUNGARIAN SMALL LETTER ENT-SHAPED SIGN", aliases: &[] },
        Codepoint { codepoint: 0x10CF2, name: "OLD HUNGARIAN SMALL LETTER US", aliases: &[] },
        Codepoint { codepoint: 0x10CFA, name: "OLD HUNGARIAN NUMBER ONE", aliases: &[] },
        Codepoint { codepoint: 0x10CFB, name: "OLD HUNGARIAN NUMBER FIVE", aliases: &[] },
        Codepoint { codepoint: 0x10CFC, name: "OLD HUNGARIAN NUMBER TEN", aliases: &[] },
        Codepoint { codepoint: 0x10CFD, name: "OLD HUNGARIAN NUMBER FIFTY", aliases: &[] },
        Codepoint { codepoint: 0x10CFE, name: "OLD HUNGARIAN NUMBER ONE HUNDRED", aliases: &[] },
        Codepoint { codepoint: 0x10CFF, name: "OLD HUNGARIAN NUMBER ONE THOUSAND", aliases: &[] },
        Codepoint { codepoint: 0x10D00, name: "HANIFI ROHINGYA LETTER A", aliases: &[] },
        Codepoint { codepoint: 0x10D01, name: "HANIFI ROHINGYA LETTER BA", aliases: &[] },
        Codepoint { codepoint: 0x10D02, name: "HANIFI ROHINGYA LETTER PA", aliases: &[] },
        Codepoint { codepoint: 0x10D03, name: "HANIFI ROHINGYA LETTER TA", aliases: &[] },
        Codepoint { codepoint: 0x10D04, name: "HANIFI ROHINGYA LETTER TTA", aliases: &[] },
        Codepoint { codepoint: 0x10D05, name: "HANIFI ROHINGYA LETTER JA", aliases: &[] },
        Codepoint { codepoint: 0x10D06, name: "HANIFI ROHINGYA LETTER CA", aliases: &[] },
        Codepoint { codepoint: 0x10D07, name: "HANIFI ROHINGYA LETTER HA", aliases: &[] },
        Codepoint { codepoint: 0x10D08, name: "HANIFI ROHINGYA LETTER KHA", aliases: &[] },
        Codepoint { codepoint: 0x10D09, name: "HANIFI ROHINGYA LETTER FA", aliases: &[] },
        Codepoint { codepoint: 0x10D0A, name: "HANIFI ROHINGYA LETTER DA", aliases: &[] },
        Codepoint { codepoint: 0x10D0B, name: "HANIFI ROHINGYA LETTER DDA", aliases: &[] },
        Codepoint { codepoint: 0x10D0C, name: "HANIFI ROHINGYA LETTER RA", aliases: &[] },
    ];
    assert(v@ =~= codepoint_table_481());
    v
}

pub open spec fn codepoint_table_482() -> Seq<Codepoint> {
    seq![
        Codepoint { codepoint: 0x10D0D, name: "HANIFI ROHINGYA LETTER RRA", aliases: &[] },
        Codepoint { codepoint: 0x10D0E, name: "HANIFI ROHINGYA LETTER ZA", aliases: &[] },
        Codepoint { codepoint: 0x10D0F, name: "HANIFI ROHINGYA LETTER SA", aliases: &[] },
        Codepoint { codepoint: 0x10D10, name: "HANIFI ROHINGYA LETTER SHA", aliases: &[] },
        Codepoint { codepoint: 0x10D11, name: "HANIFI ROHINGYA LETTER KA", aliases: &[] },
        Codepoint { codepoint: 0x10D12, name: "HANIFI ROHINGYA LETTER GA", aliases: &[] },
        Codepoint { codepoint: 0x10D13, name: "HANIFI ROHINGYA LETTER LA", aliases: &[] },
        Codepoint { codepoint: 0x10D14, name: "HANIFI ROHINGYA LETTER MA", aliases: &[] },
        Codepoint { codepoint: 0x10D15, name: "HANIFI ROHINGYA LETTER NA", aliases: &[] },
        Codepoint { codepoint: 0x10D16, name: "HANIFI ROHINGYA LETTER WA", aliases: &[] },
        Codepoint { codepoint: 0x10D17, name: "HANIFI ROHINGYA LETTER KINNA WA", aliases: &[] },
        Codepoint { codepoint: 0x10D18, name: "HANIFI ROHINGYA LETTER YA", aliases: &[] },
        Codepoint { codepoint: 0x10D19, name: "HANIFI ROHINGYA LETTER KINNA YA", aliases: &[] },
        Codepoint { codepoint: 0x10D1A, name: "HANIFI ROHINGYA LETTER NGA", aliases: &[] },
        Codepoint { codepoint: 0x10D1B, name: "HANIFI ROHINGYA LETTER NYA", aliases: &[] },
        Codepoint { codepoint: 0x10D1C, name: "HANIFI ROHINGYA LETTER VA", aliases: &[] },
        Codepoint { codepoint: 0x10D1D, name: "HANIFI ROHINGYA VOWEL A", aliases: &[] },
        Codepoint { codepoint: 0x10D1E, name: "HANIFI ROHINGYA VOWEL I", aliases: &[] },
        Codepoint { codepoint: 0x10D1F, name: "HANIFI ROHINGYA VOWEL U", aliases: &[] },
        Codepoint { codepoint: 0x10D20, name: "HANIFI ROHINGYA VOWEL E", aliases: &[] },
        Codepoint { codepoint: 0x10D21, name: "HANIFI ROHINGYA VOWEL O", aliases: &[] },
        Codepoint { codepoint: 0x10D22, name: "HANIFI ROHINGYA MARK SAKIN", aliases: &[] },
        Codepoint { codepoint: 0x10D23, name: "HANIFI ROHINGYA MARK NA KHONNA", aliases: &[] },
        Codepoint { codepoint: 0x10D24, name: "HANIFI ROHINGYA SIGN HARBAHAY", aliases: &[] },
        Codepoint { codepoint: 0x10D25, name: "HANIFI ROHINGYA SIGN TAHALA", aliases: &[] },
        Codepoint { codepoint: 0x10D26, name: "HANIFI ROHINGYA SIGN TANA", aliases: &[] },
        Codepoint { codepoint: 0x10D27, name: "HANIFI ROHINGYA SIGN TASSI", aliases: &[] },
        Codepoint { codepoint: 0x10D30, name: "HANIFI ROHINGYA DIGIT ZERO", aliases: &[] },
        Codepoint { codepoint: 0x10D31, name: "HANIFI ROHINGYA DIGIT ONE", aliases: &[] },
        Codepoint { codepoint: 0x10D32, name: "HANIFI ROHINGYA DIGIT TWO", aliases: &[] },
        Codepoint { codepoint: 0x10D33, name: "HANIFI ROHINGYA DIGIT THREE", aliases: &[] },
        Codepoint { codepoint: 0x10D34, name: "HANIFI ROHINGYA DIGIT FOUR", aliases: &[] },
        Codepoint { codepoint: 0x10D35, name: "HANIFI ROHINGYA DIGIT FIVE", aliases: &[] },
        Codepoint { codepoint: 0x10D36, name: "HANIFI ROHINGYA DIGIT SIX", aliases: &[] },
        Codepoint { codepoint: 0x10D37, name: "HANIFI ROHINGYA DIGIT SEVEN", aliases: &[] },
        Codepoint { codepoint: 0x10D38, name: "HANIFI ROHINGYA DIGIT EIGHT", aliases: &[] },
        Codepoint { codepoint: 0x10D39, name: "HANIFI ROHINGYA DIGIT NINE", aliases: &[] },
        Codepoint { codepoint: 0x10E60, name: "RUMI DIGIT ONE", aliases: &[] },
        Codepoint { codepoint: 0x10E61, name: "RUMI DIGIT TWO", aliases: &[] },
        Codepoint { codepoint: 0x10E62, name: "RUMI DIGIT THREE", aliases: &[] },
    ]
}

fn all_codepoints_482() -> (v: Vec<Codepoint>)
    ensures
        v@ == codepoint_table_482(),
{
    let v = vec![
        Codepoint { codepoint: 0x10D0D, name: "HANIFI ROHINGYA LETTER RRA", aliases: &[] },
        Codepoint { codepoint: 0x10D0E, name: "HANIFI ROHINGYA LETTER ZA", aliases: &[] },
        Codepoint { codepoint: 0x10D0F, name: "HANIFI ROHINGYA LETTER SA", aliases: &[] },
        Codepoint { codepoint: 0x10D10, name: "HANIFI ROHINGYA LETTER SHA", aliases: &[] },
        Codepoint { codepoint: 0x10D11, name: "HANIFI ROHINGYA LETTER KA", aliases: &[] },
        Codepoint { codepoint: 0x10D12, name: "HANIFI ROHINGYA LETTER GA", aliases: &[] },
        Codepoint { codepoint: 0x10D13, name: "HANIFI ROHINGYA LETTER LA", aliases: &[] },
        Codepoint { codepoint: 0x10D14, name: "HANIFI ROHINGYA LETTER MA", aliases: &[] },
        Codepoint { codepoint: 0x10D15, name: "HANIFI ROHINGYA LETTER NA", aliases: &[] },
        Codepoint { codepoint: 0x10D16, name: "HANIFI ROHINGYA LETTER WA", aliases: &[] },
        Codepoint { codepoint: 0x10D17, name: "HANIFI ROHINGYA LETTER KINNA WA", aliases: &[] },
        Codepoint { codepoint: 0x10D18, name: "HANIFI ROHINGYA LETTER YA", aliases: &[] },
        Codepoint { codepoint: 0x10D19, name: "HANIFI ROHINGYA LETTER KINNA YA", aliases: &[] },
        Codepoint { codepoint: 0x10D1A, name: "HANIFI ROHINGYA LETTER NGA", aliases: &[] },
        Codepoint { codepoint: 0x10D1B, name: "HANIFI ROHINGYA LETTER NYA", aliases: &[] },
        Codepoint { codepoint: 0x10D1C, name: "HANIFI ROHINGYA LETTER VA", aliases: &[] },
        Codepoint { codepoint: 0x10D1D, name: "HANIFI ROHINGYA VOWEL A", aliases: &[] },
        Codepoint { codepoint: 0x10D1E, name: "HANIFI ROHINGYA VOWEL I", aliases: &[] },
        Codepoint { codepoint: 0x10D1F, name: "HANIFI ROHINGYA VOWEL U", aliases: &[] },
        Codepoint { codepoint: 0x10D20, name: "HANIFI ROHINGYA VOWEL E", aliases: &[] },
        Codepoint { codepoint: 0x10D21, name: "HANIFI ROHINGYA VOWEL O", aliases: &[] },
        Codepoint { codepoint: 0x10D22, name: "HANIFI ROHINGYA MARK SAKIN", aliases: &[] },
        Codepoint { codepoint: 0x10D23, name: "HANIFI ROHINGYA MARK NA KHONNA", aliases: &[] },
        Codepoint { codepoint: 0x10D24, name: "HANIFI ROHINGYA SIGN HARBAHAY", aliases: &[] },
        Codepoint { codepoint: 0x10D25, name: "HANIFI ROHINGYA SIGN TAHALA", aliases: &[] },
        Codepoint { codepoint: 0x10D26, name: "HANIFI ROHINGYA SIGN TANA", aliases: &[] },
        Codepoint { codepoint: 0x10D27, name: "HANIFI ROHINGYA SIGN TASSI", aliases: &[] },
        Codepoint { codepoint: 0x10D30, name: "HANIFI ROHINGYA DIGIT ZERO", aliases: &[] },
        Codepoint { codepoint: 0x10D31, name: "HANIFI ROHINGYA DIGIT ONE", aliases: &[] },
        Codepoint { codepoint: 0x10D32, name: "HANIFI ROHINGYA DIGIT TWO", aliases: &[] },
        Codepoint { codepoint: 0x10D33, name: "HANIFI ROHINGYA DIGIT THREE", aliases: &[] },
        Codepoint { codepoint: 0x10D34, name: "HANIFI ROHINGYA DIGIT FOUR", aliases: &[] },
        Codepoint { codepoint: 0x10D35, name: "HANIFI ROHINGYA DIGIT FIVE", aliases: &[] },
        Codepoint { codepoint: 0x10D36, name: "HANIFI ROHINGYA DIGIT SIX", aliases: &[] },
        Codepoint { codepoint: 0x10D37, name: "HANIFI ROHINGYA DIGIT SEVEN", aliases: &[] },
        Codepoint { codepoint: 0x10D38, name: "HANIFI ROHINGYA DIGIT EIGHT", aliases: &[] },
        Codepoint { codepoint: 0x10D39, name: "HANIFI ROHINGYA DIGIT NINE", aliases: &[] },
        Codepoint { codepoint: 0x10E60, name: "RUMI DIGIT ONE", aliases: &[] },
        Codepoint { codepoint: 0x10E61, name: "RUMI DIGIT TWO", aliases: &[] },
        Codepoint { codepoint: 0x10E62, name: "RUMI DIGIT THREE", aliases: &[] },
    ];
    assert(v@ =~= codepoint_table_482());
    v
}

pub open spec fn codepoint_table_483() -> Seq<Codepoint> {
    seq![
        Codepoint { codepoint: 0x10E63, name: "RUMI DIGIT FOUR", aliases: &[] },
        Codepoint { codepoint: 0x10E64, name: "RUMI DIGIT FIVE", aliases: &[] },
        Codepoint { codepoint: 0x10E65, name: "RUMI DIGIT SIX", aliases: &[] },
        Codepoint { codepoint: 0x10E66, name: "RUMI DIGIT SEVEN", aliases: &[] },
        Codepoint { codepoint: 0x10E67, name: "RUMI DIGIT EIGHT", aliases: &[] },
        Codepoint { codepoint: 0x10E68, name: "RUMI DIGIT NINE", aliases: &[] },
        Codepoint { codepoint: 0x10E69, name: "RUMI NUMBER TEN", aliases: &[] },
        Codepoint { codepoint: 0x10E6A, name: "RUMI NUMBER TWENTY", aliases: &[] },
        Codepoint { codepoint: 0x10E6B, name: "RUMI NUMBER THIRTY", aliases: &[] },
        Codepoint { codepoint: 0x10E6C, name: "RUMI NUMBER FORTY", aliases: &[] },
        Codepoint { codepoint: 0x10E6D, name: "RUMI NUMBER FIFTY", aliases: &[] },
        Codepoint { codepoint: 0x10E6E, name: "RUMI NUMBER SIXTY", aliases: &[] },
        Codepoint { codepoint: 0x10E6F, name: "RUMI NUMBER SEVENTY", aliases: &[] },
        Codepoint { codepoint: 0x10E70, name: "RUMI NUMBER EIGHTY", aliases: &[] },
        Codepoint { codepoint: 0x10E71, name: "RUMI NUMBER NINETY", aliases: &[] },
        Codepoint { codepoint: 0x10E72, name: "RUMI NUMBER ONE HUNDRED", aliases: &[] },
        Codepoint { codepoint: 0x10E73, name: "RUMI NUMBER TWO HUNDRED", aliases: &[] },
        Codepoint { codepoint: 0x10E74, name: "RUMI NUMBER THREE HUNDRED", aliases: &[] },
        Codepoint { codepoint: 0x10E75, name: "RUMI NUMBER FOUR HUNDRED", aliases: &[] },
        Codepoint { codepoint: 0x10E76, name: "RUMI NUMBER FIVE HUNDRED", aliases: &[] },
        Codepoint { codepoint: 0x10E77, name: "RUMI NUMBER SIX HUNDRED", aliases: &[] },
        Codepoint { codepoint: 0x10E78, name: "RUMI NUMBER SEVEN HUNDRED", aliases: &[] },
        Codepoint { codepoint: 0x10E79, name: "RUMI NUMBER EIGHT HUNDRED", aliases: &[] },
        Codepoint { codepoint: 0x10E7A, name: "RUMI NUMBER NINE HUNDRED", aliases: &[] },
        Codepoint { codepoint: 0x10E7B, name: "RUMI FRACTION ONE HALF", aliases: &[] },
        Codepoint { codepoint: 0x10E7C, name: "RUMI FRACTION ONE QUARTER", aliases: &[] },
        Codepoint { codepoint: 0x10E7D, name: "RUMI FRACTION ONE THIRD", aliases: &[] },
        Codepoint { codepoint: 0x10E7E, name: "RUMI FRACTION TWO THIRDS", aliases: &[] },
        Codepoint { codepoint: 0x10E80, name: "YEZIDI LETTER ELIF", aliases: &[] },
        Codepoint { codepoint: 0x10E81, name: "YEZIDI LETTER BE", aliases: &[] },
        Codepoint { codepoint: 0x10E82, name: "YEZIDI LETTER PE", aliases: &[] },
        Codepoint { codepoint: 0x10E83, name: "YEZIDI LETTER PHE", aliases: &[] },
        Codepoint { codepoint: 0x10E84, name: "YEZIDI LETTER THE", aliases: &[] },
        Codepoint { codepoint: 0x10E85, name: "YEZIDI LETTER SE", aliases: &[] },
        Codepoint { codepoint: 0x10E86, name: "YEZIDI LETTER CIM", aliases: &[] },
        Codepoint { codepoint: 0x10E87, name: "YEZIDI LETTER CHIM", aliases: &[] },
        Codepoint { codepoint: 0x10E88, name: "YEZIDI LETTER CHHIM", aliases: &[] },
        Codepoint { codepoint: 0x10E89, name: "YEZIDI LETTER HHA", aliases: &[] },
        Codepoint { codepoint: 0x10E8A, name: "YEZIDI LETTER XA", aliases: &[] },
        Codepoint { codepoint: 0x10E8B, name: "YEZIDI LETTER DAL", aliases: &[] },
    ]
}

fn all_codepoints_483() -> (v: Vec<Codepoint>)
    ensures
        v@ == codepoint_table_483(),
{
    let v = vec![
        Codepoint { codepoint: 0x10E63, name: "RUMI DIGIT FOUR", aliases: &[] },
        Codepoint { codepoint: 0x10E64, name: "RUMI DIGIT FIVE", aliases: &[] },
        Codepoint { codepoint: 0x10E65, name: "RUMI DIGIT SIX", aliases: &[] },
        Codepoint { codepoint: 0x10E66, name: "RUMI DIGIT SEVEN", aliases: &[] },
        Codepoint { codepoint: 0x10E67, name: "RUMI DIGIT EIGHT", aliases: &[] },
        Codepoint { codepoint: 0x10E68, name: "RUMI DIGIT NINE", aliases: &[] },
        Codepoint { codepoint: 0x10E69, name: "RUMI NUMBER TEN", aliases: &[] },
        Codepoint { codepoint: 0x10E6A, name: "RUMI NUMBER TWENTY", aliases: &[] },
        Codepoint { codepoint: 0x10E6B, name: "RUMI NUMBER THIRTY", aliases: &[] },
        Codepoint { codepoint: 0x10E6C, name: "RUMI NUMBER FORTY", aliases: &[] },
        Codepoint { codepoint: 0x10E6D, name: "RUMI NUMBER FIFTY", aliases: &[] },
        Codepoint { codepoint: 0x10E6E, name: "RUMI NUMBER SIXTY", aliases: &[] },
        Codepoint { codepoint: 0x10E6F, name: "RUMI NUMBER SEVENTY", aliases: &[] },
        Codepoint { codepoint: 0x10E70, name: "RUMI NUMBER EIGHTY", aliases: &[] },
        Codepoint { codepoint: 0x10E71, name: "RUMI NUMBER NINETY", aliases: &[] },
        Codepoint { codepoint: 0x10E72, name: "RUMI NUMBER ONE HUNDRED", aliases: &[] },
        Codepoint { codepoint: 0x10E73, name: "RUMI NUMBER TWO HUNDRED", aliases: &[] },
        Codepoint { codepoint: 0x10E74, name: "RUMI NUMBER THREE HUNDRED", aliases: &[] },
        Codepoint { codepoint: 0x10E75, name: "RUMI NUMBER FOUR HUNDRED", aliases: &[] },
        Codepoint { codepoint: 0x10E76, name: "RUMI NUMBER FIVE HUNDRED", aliases: &[] },
        Codepoint { codepoint: 0x10E77, name: "RUMI NUMBER SIX HUNDRED", aliases: &[] },
        Codepoint { codepoint: 0x10E78, name: "RUMI NUMBER SEVEN HUNDRED", aliases: &[] },
        Codepoint { codepoint: 0x10E79, name: "RUMI NUMBER EIGHT HUNDRED", aliases: &[] },
        Codepoint { codepoint: 0x10E7A, name: "RUMI NUMBER NINE HUNDRED", aliases: &[] },
        Codepoint { codepoint: 0x10E7B, name: "RUMI FRACTION ONE HALF", aliases: &[] },
        Codepoint { codepoint: 0x10E7C, name: "RUMI FRACTION ONE QUARTER", aliases: &[] },
        Codepoint { codepoint: 0x10E7D, name: "RUMI FRACTION ONE THIRD", aliases: &[] },
        Codepoint { codepoint: 0x10E7E, name: "RUMI FRACTION TWO THIRDS", aliases: &[] },
        Codepoint { codepoint: 0x10E80, name: "YEZIDI LETTER ELIF", aliases: &[] },
        Codepoint { codepoint: 0x10E81, name: "YEZIDI LETTER BE", aliases: &[] },
        Codepoint { codepoint: 0x10E82, name: "YEZIDI LETTER PE", aliases: &[] },
        Codepoint { codepoint: 0x10E83, name: "YEZIDI LETTER PHE", aliases: &[] },
        Codepoint { codepoint: 0x10E84, name: "YEZIDI LETTER THE", aliases: &[] },
        Codepoint { codepoint: 0x10E85, name: "YEZIDI LETTER SE", aliases: &[] },
        Codepoint { codepoint: 0x10E86, name: "YEZIDI LETTER CIM", aliases: &[] },
        Codepoint { codepoint: 0x10E87, name: "YEZIDI LETTER CHIM", aliases: &[] },
        Codepoint { codepoint: 0x10E88, name: "YEZIDI LETTER CHHIM", aliases: &[] },
        Codepoint { codepoint: 0x10E89, name: "YEZIDI LETTER HHA", aliases: &[] },
        Codepoint { codepoint: 0x10E8A, name: "YEZIDI LETTER XA", aliases: &[] },
        Codepoint { codepoint: 0x10E8B, name: "YEZIDI LETTER DAL", aliases: &[] },
    ];
    assert(v@ =~= codepoint_table_483());
    v
}

pub open spec fn codepoint_table_484() -> Seq<Codepoint> {
    seq![
        Codepoint { codepoint: 0x10E8C, name: "YEZIDI LETTER ZAL", aliases: &[] },
        Codepoint { codepoint: 0x10E8D, name: "YEZIDI LETTER RA", aliases: &[] },
        Codepoint { codepoint: 0x10E8E, name: "YEZIDI LETTER RHA", aliases: &[] },
        Codepoint { codepoint: 0x10E8F, name: "YEZIDI LETTER ZA", aliases: &[] },
        Codepoint { codepoint: 0x10E90, name: "YEZIDI LETTER JA", aliases: &[] },
        Codepoint { codepoint: 0x10E91, name: "YEZIDI LETTER SIN", aliases: &[] },
        Codepoint { codepoint: 0x10E92, name: "YEZIDI LETTER SHIN", aliases: &[] },
        Codepoint { codepoint: 0x10E93, name: "YEZIDI LETTER SAD", aliases: &[] },
        Codepoint { codepoint: 0x10E94, name: "YEZIDI LETTER DAD", aliases: &[] },
        Codepoint { codepoint: 0x10E95, name: "YEZIDI LETTER TA", aliases: &[] },
        Codepoint { codepoint: 0x10E96, name: "YEZIDI LETTER ZE", aliases: &[] },
        Codepoint { codepoint: 0x10E97, name: "YEZIDI LETTER EYN", aliases: &[] },
        Codepoint { codepoint: 0x10E98, name: "YEZIDI LETTER XHEYN", aliases: &[] },
        Codepoint { codepoint: 0x10E99, name: "YEZIDI LETTER FA", aliases: &[] },
        Codepoint { codepoint: 0x10E9A, name: "YEZIDI LETTER VA", aliases: &[] },
        Codepoint { codepoint: 0x10E9B, name: "YEZIDI LETTER VA ALTERNATE FORM", aliases: &[] },
        Codepoint { codepoint: 0x10E9C, name: "YEZIDI LETTER QAF", aliases: &[] },
        Codepoint { codepoint: 0x10E9D, name: "YEZIDI LETTER KAF", aliases: &[] },
        Codepoint { codepoint: 0x10E9E, name: "YEZIDI LETTER KHAF", aliases: &[] },
        Codepoint { codepoint: 0x10E9F, name: "YEZIDI LETTER GAF", aliases: &[] },
        Codepoint { codepoint: 0x10EA0, name: "YEZIDI LETTER LAM", aliases: &[] },
        Codepoint { codepoint: 0x10EA1, name: "YEZIDI LETTER MIM", aliases: &[] },
        Codepoint { codepoint: 0x10EA2, name: "YEZIDI LETTER NUN", aliases: &[] },
        Codepoint { codepoint: 0x10EA3, name: "YEZIDI LETTER UM", aliases: &[] },
        Codepoint { codepoint: 0x10EA4, name: "YEZIDI LETTER WAW", aliases: &[] },
        Codepoint { codepoint: 0x10EA5, name: "YEZIDI LETTER OW", aliases: &[] },
        Codepoint { codepoint: 0x10EA6, name: "YEZIDI LETTER EW", aliases: &[] },
        Codepoint { codepoint: 0x10EA7, name: "YEZIDI LETTER HAY", aliases: &[] },
        Codepoint { codepoint: 0x10EA8, name: "YEZIDI LETTER YOT", aliases: &[] },
        Codepoint { codepoint: 0x10EA9, name: "YEZIDI LETTER ET", aliases: &[] },
        Codepoint { codepoint: 0x10EAB, name: "YEZIDI COMBINING HAMZA MARK", aliases: &[] },
        Codepoint { codepoint: 0x10EAC, name: "YEZIDI COMBINING MADDA MARK", aliases: &[] },
        Codepoint { codepoint: 0x10EAD, name: "YEZIDI HYPHENATION MARK", aliases: &[] },
        Codepoint { codepoint: 0x10EB0, name: "YEZIDI LETTER LAM WITH DOT ABOVE", aliases: &[] },
        Codepoint { codepoint: 0x10EB1, name: "YEZIDI LETTER YOT WITH CIRCUMFLEX ABOVE", aliases: &[] },
        Codepoint { codepoint: 0x10F00, name: "OLD SOGDIAN LETTER ALEPH", aliases: &[] },
        Codepoint { codepoint: 0x10F01, name: "OLD SOGDIAN LETTER FINAL ALEPH", aliases: &[] },
        Codepoint { codepoint: 0x10F02, name: "OLD SOGDIAN LETTER BETH", aliases: &[] },
        Codepoint { codepoint: 0x10F03, name: "OLD SOGDIAN LETTER FINAL BETH", aliases: &[] },
        Codepoint { codepoint: 0x10F04, name: "OLD SOGDIAN LETTER GIMEL", aliases: &[] },
    ]
}

fn all_codepoints_484() -> (v: Vec<Codepoint>)
    ensures
        v@ == codepoint_table_484(),
{
    let v = vec![
        Codepoint { codepoint: 0x10E8C, name: "YEZIDI LETTER ZAL", aliases: &[] },
        Codepoint { codepoint: 0x10E8D, name: "YEZIDI LETTER RA", aliases: &[] },
        Codepoint { codepoint: 0x10E8E, name: "YEZIDI LETTER RHA", aliases: &[] },
        Codepoint { codepoint: 0x10E8F, name: "YEZIDI LETTER ZA", aliases: &[] },
        Codepoint { codepoint: 0x10E90, name: "YEZIDI LETTER JA", aliases: &[] },
        Codepoint { codepoint: 0x10E91, name: "YEZIDI LETTER SIN", aliases: &[] },
        Codepoint { codepoint: 0x10E92, name: "YEZIDI LETTER SHIN", aliases: &[] },
        Codepoint { codepoint: 0x10E93, name: "YEZIDI LETTER SAD", aliases: &[] },
        Codepoint { codepoint: 0x10E94, name: "YEZIDI LETTER DAD", aliases: &[] },
        Codepoint { codepoint: 0x10E95, name: "YEZIDI LETTER TA", aliases: &[] },
        Codepoint { codepoint: 0x10E96, name: "YEZIDI LETTER ZE", aliases: &[] },
        Codepoint { codepoint: 0x10E97, name: "YEZIDI LETTER EYN", aliases: &[] },
        Codepoint { codepoint: 0x10E98, name: "YEZIDI LETTER XHEYN", aliases: &[] },
        Codepoint { codepoint: 0x10E99, name: "YEZIDI LETTER FA", aliases: &[] },
        Codepoint { codepoint: 0x10E9A, name: "YEZIDI LETTER VA", aliases: &[] },
        Codepoint { codepoint: 0x10E9B, name: "YEZIDI LETTER VA ALTERNATE FORM", aliases: &[] },
        Codepoint { codepoint: 0x10E9C, name: "YEZIDI LETTER QAF", aliases: &[] },
        Codepoint { codepoint: 0x10E9D, name: "YEZIDI LETTER KAF", aliases: &[] },
        Codepoint { codepoint: 0x10E9E, name: "YEZIDI LETTER KHAF", aliases: &[] },
        Codepoint { codepoint: 0x10E9F, name: "YEZIDI LETTER GAF", aliases: &[] },
        Codepoint { codepoint: 0x10EA0, name: "YEZIDI LETTER LAM", aliases: &[] },
        Codepoint { codepoint: 0x10EA1, name: "YEZIDI LETTER MIM", aliases: &[] },
        Codepoint { codepoint: 0x10EA2, name: "YEZIDI LETTER NUN", aliases: &[] },
        Codepoint { codepoint: 0x10EA3, name: "YEZIDI LETTER UM", aliases: &[] },
        Codepoint { codepoint: 0x10EA4, name: "YEZIDI LETTER WAW", aliases: &[] },
        Codepoint { codepoint: 0x10EA5, name: "YEZIDI LETTER OW", aliases: &[] },
        Codepoint { codepoint: 0x10EA6, name: "YEZIDI LETTER EW", aliases: &[] },
        Codepoint { codepoint: 0x10EA7, name: "YEZIDI LETTER HAY", aliases: &[] },
        Codepoint { codepoint: 0x10EA8, name: "YEZIDI LETTER YOT", aliases: &[] },
        Codepoint { codepoint: 0x10EA9, name: "YEZIDI LETTER ET", aliases: &[] },
        Codepoint { codepoint: 0x10EAB, name: "YEZIDI COMBINING HAMZA MARK", aliases: &[] },
        Codepoint { codepoint: 0x10EAC, name: "YEZIDI COMBINING MADDA MARK", aliases: &[] },
        Codepoint { codepoint: 0x10EAD, name: "YEZIDI HYPHENATION MARK", aliases: &[] },
        Codepoint { codepoint: 0x10EB0, name: "YEZIDI LETTER LAM WITH DOT ABOVE", aliases: &[] },
        Codepoint { codepoint: 0x10EB1, name: "YEZIDI LETTER YOT WITH CIRCUMFLEX ABOVE", aliases: &[] },
        Codepoint { codepoint: 0x10F00, name: "OLD SOGDIAN LETTER ALEPH", aliases: &[] },
        Codepoint { codepoint: 0x10F01, name: "OLD SOGDIAN LETTER FINAL ALEPH", aliases: &[] },
        Codepoint { codepoint: 0x10F02, name: "OLD SOGDIAN LETTER BETH", aliases: &[] },
        Codepoint { codepoint: 0x10F03, name: "OLD SOGDIAN LETTER FINAL BETH", aliases: &[] },
        Codepoint { codepoint: 0x10F04, name: "OLD SOGDIAN LETTER GIMEL", aliases: &[] },
    ];
    assert(v@ =~= codepoint_table_484());
    v
}

pub open spec fn codepoint_table_485() -> Seq<Codepoint> {
    seq![
        Codepoint { codepoint: 0x10F05, name: "OLD SOGDIAN LETTER HE", aliases: &[] },
        Codepoint { codepoint: 0x10F06, name: "OLD SOGDIAN LETTER FINAL HE", aliases: &[] },
        Codepoint { codepoint: 0x10F07, name: "OLD SOGDIAN LETTER WAW", aliases: &[] },
        Codepoint { codepoint: 0x10F08, name: "OLD SOGDIAN LETTER ZAYIN", aliases: &[] },
        Codepoint { codepoint: 0x10F09, name: "OLD SOGDIAN LETTER HETH", aliases: &[] },
        Codepoint { codepoint: 0x10F0A, name: "OLD SOGDIAN LETTER YODH", aliases: &[] },
        Codepoint { codepoint: 0x10F0B, name: "OLD SOGDIAN LETTER KAPH", aliases: &[] },
        Codepoint { codepoint: 0x10F0C, name: "OLD SOGDIAN LETTER LAMEDH", aliases: &[] },
        Codepoint { codepoint: 0x10F0D, name: "OLD SOGDIAN LETTER MEM", aliases: &[] },
        Codepoint { codepoint: 0x10F0E, name: "OLD SOGDIAN LETTER NUN", aliases: &[] },
        Codepoint { codepoint: 0x10F0F, name: "OLD SOGDIAN LETTER FINAL NUN", aliases: &[] },
        Codepoint { codepoint: 0x10F10, name: "OLD SOGDIAN LETTER FINAL NUN WITH VERTICAL TAIL", aliases: &[] },
        Codepoint { codepoint: 0x10F11, name: "OLD SOGDIAN LETTER SAMEKH", aliases: &[] },
        Codepoint { codepoint: 0x10F12, name: "OLD SOGDIAN LETTER AYIN", aliases: &[] },
        Codepoint { codepoint: 0x10F13, name: "OLD SOGDIAN LETTER ALTERNATE AYIN", aliases: &[] },
        Codepoint { codepoint: 0x10F14, name: "OLD SOGDIAN LETTER PE", aliases: &[] },
        Codepoint { codepoint: 0x10F15, name: "OLD SOGDIAN LETTER SADHE", aliases: &[] },
        Codepoint { codepoint: 0x10F16, name: "OLD SOGDIAN LETTER FINAL SADHE", aliases: &[] },
        Codepoint { codepoint: 0x10F17, name: "OLD SOGDIAN LETTER FINAL SADHE WITH VERTICAL TAIL", aliases: &[] },
        Codepoint { codepoint: 0x10F18, name: "OLD SOGDIAN LETTER RESH-AYIN-DALETH", aliases: &[] },
        Codepoint { codepoint: 0x10F19, name: "OLD SOGDIAN LETTER SHIN", aliases: &[] },
        Codepoint { codepoint: 0x10F1A, name: "OLD SOGDIAN LETTER TAW", aliases: &[] },
        Codepoint { codepoint: 0x10F1B, name: "OLD SOGDIAN LETTER FINAL TAW", aliases: &[] },
        Codepoint { codepoint: 0x10F1C, name: "OLD SOGDIAN LETTER FINAL TAW WITH VERTICAL TAIL", aliases: &[] },
        Codepoint { codepoint: 0x10F1D, name: "OLD SOGDIAN NUMBER ONE", aliases: &[] },
        Codepoint { codepoint: 0x10F1E, name: "OLD SOGDIAN NUMBER TWO", aliases: &[] },
        Codepoint { codepoint: 0x10F1F, name: "OLD SOGDIAN NUMBER THREE", aliases: &[] },
        Codepoint { codepoint: 0x10F20, name: "OLD SOGDIAN NUMBER FOUR", aliases: &[] },
        Codepoint { codepoint: 0x10F21, name: "OLD SOGDIAN NUMBER FIVE", aliases: &[] },
        Codepoint { codepoint: 0x10F22, name: "OLD SOGDIAN NUMBER TEN", aliases: &[] },
        Codepoint { codepoint: 0x10F23, name: "OLD SOGDIAN NUMBER TWENTY", aliases: &[] },
        Codepoint { codepoint: 0x10F24, name: "OLD SOGDIAN NUMBER THIRTY", aliases: &[] },
        Codepoint { codepoint: 0x10F25, name: "OLD SOGDIAN NUMBER ONE HUNDRED", aliases: &[] },
        Codepoint { codepoint: 0x10F26, name: "OLD SOGDIAN FRACTION ONE HALF", aliases: &[] },
        Codepoint { codepoint: 0x10F27, name: "OLD SOGDIAN LIGATURE AYIN-DALETH", aliases: &[] },
        Codepoint { codepoint: 0x10F30, name: "SOGDIAN LETTER ALEPH", aliases: &[] },
        Codepoint { codepoint: 0x10F31, name: "SOGDIAN LETTER BETH", aliases: &[] },
        Codepoint { codepoint: 0x10F32, name: "SOGDIAN LETTER GIMEL", aliases: &[] },
        Codepoint { codepoint: 0x10F33, name: "SOGDIAN LETTER HE", aliases: &[] },
        Codepoint { codepoint: 0x10F34, name: "SOGDIAN LETTER WAW", aliases: &[] },
    ]
}

fn all_codepoints_485() -> (v: Vec<Codepoint>)
    ensures
        v@ == codepoint_table_485(),
{
    let v = vec![
        Codepoint { codepoint: 0x10F05, name: "OLD SOGDIAN LETTER HE", aliases: &[] },
        Codepoint { codepoint: 0x10F06, name: "OLD SOGDIAN LETTER FINAL HE", aliases: &[] },
        Codepoint { codepoint: 0x10F07, name: "OLD SOGDIAN LETTER WAW", aliases: &[] },
        Codepoint { codepoint: 0x10F08, name: "OLD SOGDIAN LETTER ZAYIN", aliases: &[] },
        Codepoint { codepoint: 0x10F09, name: "OLD SOGDIAN LETTER HETH", aliases: &[] },
        Codepoint { codepoint: 0x10F0A, name: "OLD SOGDIAN LETTER YODH", aliases: &[] },
        Codepoint { codepoint: 0x10F0B, name: "OLD SOGDIAN LETTER KAPH", aliases: &[] },
        Codepoint { codepoint: 0x10F0C, name: "OLD SOGDIAN LETTER LAMEDH", aliases: &[] },
        Codepoint { codepoint: 0x10F0D, name: "OLD SOGDIAN LETTER MEM", aliases: &[] },
        Codepoint { codepoint: 0x10F0E, name: "OLD SOGDIAN LETTER NUN", aliases: &[] },
        Codepoint { codepoint: 0x10F0F, name: "OLD SOGDIAN LETTER FINAL NUN", aliases: &[] },
        Codepoint { codepoint: 0x10F10, name: "OLD SOGDIAN LETTER FINAL NUN WITH VERTICAL TAIL", aliases: &[] },
        Codepoint { codepoint: 0x10F11, name: "OLD SOGDIAN LETTER SAMEKH", aliases: &[] },
        Codepoint { codepoint: 0x10F12, name: "OLD SOGDIAN LETTER AYIN", aliases: &[] },
        Codepoint { codepoint: 0x10F13, name: "OLD SOGDIAN LETTER ALTERNATE AYIN", aliases: &[] },
        Codepoint { codepoint: 0x10F14, name: "OLD SOGDIAN LETTER PE", aliases: &[] },
        Codepoint { codepoint: 0x10F15, name: "OLD SOGDIAN LETTER SADHE", aliases: &[] },
        Codepoint { codepoint: 0x10F16, name: "OLD SOGDIAN LETTER FINAL SADHE", aliases: &[] },
        Codepoint { codepoint: 0x10F17, name: "OLD SOGDIAN LETTER FINAL SADHE WITH VERTICAL TAIL", aliases: &[] },
        Codepoint { codepoint: 0x10F18, name: "OLD SOGDIAN LETTER RESH-AYIN-DALETH", aliases: &[] },
        Codepoint { codepoint: 0x10F19, name: "OLD SOGDIAN LETTER SHIN", aliases: &[] },
        Codepoint { codepoint: 0x10F1A, name: "OLD SOGDIAN LETTER TAW", aliases: &[] },
        Codepoint { codepoint: 0x10F1B, name: "OLD SOGDIAN LETTER FINAL TAW", aliases: &[] },
        Codepoint { codepoint: 0x10F1C, name: "OLD SOGDIAN LETTER FINAL TAW WITH VERTICAL TAIL", aliases: &[] },
        Codepoint { codepoint: 0x10F1D, name: "OLD SOGDIAN NUMBER ONE", aliases: &[] },
        Codepoint { codepoint: 0x10F1E, name: "OLD SOGDIAN NUMBER TWO", aliases: &[] },
        Codepoint { codepoint: 0x10F1F, name: "OLD SOGDIAN NUMBER THREE", aliases: &[] },
        Codepoint { codepoint: 0x10F20, name: "OLD SOGDIAN NUMBER FOUR", aliases: &[] },
        Codepoint { codepoint: 0x10F21, name: "OLD SOGDIAN NUMBER FIVE", aliases: &[] },
        Codepoint { codepoint: 0x10F22, name: "OLD SOGDIAN NUMBER TEN", aliases: &[] },
        Codepoint { codepoint: 0x10F23, name: "OLD SOGDIAN NUMBER TWENTY", aliases: &[] },
        Codepoint { codepoint: 0x10F24, name: "OLD SOGDIAN NUMBER THIRTY", aliases: &[] },
        Codepoint { codepoint: 0x10F25, name: "OLD SOGDIAN NUMBER ONE HUNDRED", aliases: &[] },
        Codepoint { codepoint: 0x10F26, name: "OLD SOGDIAN FRACTION ONE HALF", aliases: &[] },
        Codepoint { codepoint: 0x10F27, name: "OLD SOGDIAN LIGATURE AYIN-DALETH", aliases: &[] },
        Codepoint { codepoint: 0x10F30, name: "SOGDIAN LETTER ALEPH", aliases: &[] },
        Codepoint { codepoint: 0x10F31, name: "SOGDIAN LETTER BETH", aliases: &[] },
        Codepoint { codepoint: 0x10F32, name: "SOGDIAN LETTER GIMEL", aliases: &[] },
        Codepoint { codepoint: 0x10F33, name: "SOGDIAN LETTER HE", aliases: &[] },
        Codepoint { codepoint: 0x10F34, name: "SOGDIAN LETTER WAW", aliases: &[] },
    ];
    assert(v@ =~= codepoint_table_485());
    v
}

pub open spec fn codepoint_table_486() -> Seq<Codepoint> {
    seq![
        Codepoint { codepoint: 0x10F35, name: "SOGDIAN LETTER ZAYIN", aliases: &[] },
        Codepoint { codepoint: 0x10F36, name: "SOGDIAN LETTER HETH", aliases: &[] },
        Codepoint { codepoint: 0x10F37, name: "SOGDIAN LETTER YODH", aliases: &[] },
        Codepoint { codepoint: 0x10F38, name: "SOGDIAN LETTER KAPH", aliases: &[] },
        Codepoint { codepoint: 0x10F39, name: "SOGDIAN LETTER LAMEDH", aliases: &[] },
        Codepoint { codepoint: 0x10F3A, name: "SOGDIAN LETTER MEM", aliases: &[] },
        Codepoint { codepoint: 0x10F3B, name: "SOGDIAN LETTER NUN", aliases: &[] },
        Codepoint { codepoint: 0x10F3C, name: "SOGDIAN LETTER SAMEKH", aliases: &[] },
        Codepoint { codepoint: 0x10F3D, name: "SOGDIAN LETTER AYIN", aliases: &[] },
        Codepoint { codepoint: 0x10F3E, name: "SOGDIAN LETTER PE", aliases: &[] },
        Codepoint { codepoint: 0x10F3F, name: "SOGDIAN LETTER SADHE", aliases: &[] },
        Codepoint { codepoint: 0x10F40, name: "SOGDIAN LETTER RESH-AYIN", aliases: &[] },
        Codepoint { codepoint: 0x10F41, name: "SOGDIAN LETTER SHIN", aliases: &[] },
        Codepoint { codepoint: 0x10F42, name: "SOGDIAN LETTER TAW", aliases: &[] },
        Codepoint { codepoint: 0x10F43, name: "SOGDIAN LETTER FETH", aliases: &[] },
        Codepoint { codepoint: 0x10F44, name: "SOGDIAN LETTER LESH", aliases: &[] },
        Codepoint { codepoint: 0x10F45, name: "SOGDIAN INDEPENDENT SHIN", aliases: &[] },
        Codepoint { codepoint: 0x10F46, name: "SOGDIAN COMBINING DOT BELOW", aliases: &[] },
        Codepoint { codepoint: 0x10F47, name: "SOGDIAN COMBINING TWO DOTS BELOW", aliases: &[] },
        Codepoint { codepoint: 0x10F48, name: "SOGDIAN COMBINING DOT ABOVE", aliases: &[] },
        Codepoint { codepoint: 0x10F49, name: "SOGDIAN COMBINING TWO DOTS ABOVE", aliases: &[] },
        Codepoint { codepoint: 0x10F4A, name: "SOGDIAN COMBINING CURVE ABOVE", aliases: &[] },
        Codepoint { codepoint: 0x10F4B, name: "SOGDIAN COMBINING CURVE BELOW", aliases: &[] },
        Codepoint { codepoint: 0x10F4C, name: "SOGDIAN COMBINING HOOK ABOVE", aliases: &[] },
        Codepoint { codepoint: 0x10F4D, name: "SOGDIAN COMBINING HOOK BELOW", aliases: &[] },
        Codepoint { codepoint: 0x10F4E, name: "SOGDIAN COMBINING LONG HOOK BELOW", aliases: &[] },
        Codepoint { codepoint: 0x10F4F, name: "SOGDIAN COMBINING RESH BELOW", aliases: &[] },
        Codepoint { codepoint: 0x10F50, name: "SOGDIAN COMBINING STROKE BELOW", aliases: &[] },
        Codepoint { codepoint: 0x10F51, name: "SOGDIAN NUMBER ONE", aliases: &[] },
        Codepoint { codepoint: 0x10F52, name: "SOGDIAN NUMBER TEN", aliases: &[] },
        Codepoint { codepoint: 0x10F53, name: "SOGDIAN NUMBER TWENTY", aliases: &[] },
        Codepoint { codepoint: 0x10F54, name: "SOGDIAN NUMBER ONE HUNDRED", aliases: &[] },
        Codepoint { codepoint: 0x10F55, name: "SOGDIAN PUNCTUATION TWO VERTICAL BARS", aliases: &[] },
        Codepoint { codepoint: 0x10F56, name: "SOGDIAN PUNCTUATION TWO VERTICAL BARS WITH DOTS", aliases: &[] },
        Codepoint { codepoint: 0x10F57, name: "SOGDIAN PUNCTUATION CIRCLE WITH DOT", aliases: &[] },
        Codepoint { codepoint: 0x10F58, name: "SOGDIAN PUNCTUATION TWO CIRCLES WITH DOTS", aliases: &[] },
        Codepoint { codepoint: 0x10F59, name: "SOGDIAN PUNCTUATION HALF CIRCLE WITH DOT", aliases: &[] },
        Codepoint { codepoint: 0x10F70, name: "OLD UYGHUR LETTER ALEPH", aliases: &[] },
        Codepoint { codepoint: 0x10F71, name: "OLD UYGHUR LETTER BETH", aliases: &[] },
        Codepoint { codepoint: 0x10F72, name: "OLD UYGHUR LETTER GIMEL-HETH", aliases: &[] },
    ]
}

fn all_codepoints_486() -> (v: Vec<Codepoint>)
    ensures
        v@ == codepoint_table_486(),
{
    let v = vec![
        Codepoint { codepoint: 0x10F35, name: "SOGDIAN LETTER ZAYIN", aliases: &[] },
        Codepoint { codepoint: 0x10F36, name: "SOGDIAN LETTER HETH", aliases: &[] },
        Codepoint { codepoint: 0x10F37, name: "SOGDIAN LETTER YODH", aliases: &[] },
        Codepoint { codepoint: 0x10F38, name: "SOGDIAN LETTER KAPH", aliases: &[] },
        Codepoint { codepoint: 0x10F39, name: "SOGDIAN LETTER LAMEDH", aliases: &[] },
        Codepoint { codepoint: 0x10F3A, name: "SOGDIAN LETTER MEM", aliases: &[] },
        Codepoint { codepoint: 0x10F3B, name: "SOGDIAN LETTER NUN", aliases: &[] },
        Codepoint { codepoint: 0x10F3C, name: "SOGDIAN LETTER SAMEKH", aliases: &[] },
        Codepoint { codepoint: 0x10F3D, name: "SOGDIAN LETTER AYIN", aliases: &[] },
        Codepoint { codepoint: 0x10F3E, name: "SOGDIAN LETTER PE", aliases: &[] },
        Codepoint { codepoint: 0x10F3F, name: "SOGDIAN LETTER SADHE", aliases: &[] },
        Codepoint { codepoint: 0x10F40, name: "SOGDIAN LETTER RESH-AYIN", aliases: &[] },
        Codepoint { codepoint: 0x10F41, name: "SOGDIAN LETTER SHIN", aliases: &[] },
        Codepoint { codepoint: 0x10F42, name: "SOGDIAN LETTER TAW", aliases: &[] },
        Codepoint { codepoint: 0x10F43, name: "SOGDIAN LETTER FETH", aliases: &[] },
        Codepoint { codepoint: 0x10F44, name: "SOGDIAN LETTER LESH", aliases: &[] },
        Codepoint { codepoint: 0x10F45, name: "SOGDIAN INDEPENDENT SHIN", aliases: &[] },
        Codepoint { codepoint: 0x10F46, name: "SOGDIAN COMBINING DOT BELOW", aliases: &[] },
        Codepoint { codepoint: 0x10F47, name: "SOGDIAN COMBINING TWO DOTS BELOW", aliases: &[] },
        Codepoint { codepoint: 0x10F48, name: "SOGDIAN COMBINING DOT ABOVE", aliases: &[] },
        Codepoint { codepoint: 0x10F49, name: "SOGDIAN COMBINING TWO DOTS ABOVE", aliases: &[] },
        Codepoint { codepoint: 0x10F4A, name: "SOGDIAN COMBINING CURVE ABOVE", aliases: &[] },
        Codepoint { codepoint: 0x10F4B, name: "SOGDIAN COMBINING CURVE BELOW", aliases: &[] },
        Codepoint { codepoint: 0x10F4C, name: "SOGDIAN COMBINING HOOK ABOVE", aliases: &[] },
        Codepoint { codepoint: 0x10F4D, name: "SOGDIAN COMBINING HOOK BELOW", aliases: &[] },
        Codepoint { codepoint: 0x10F4E, name: "SOGDIAN COMBINING LONG HOOK BELOW", aliases: &[] },
        Codepoint { codepoint: 0x10F4F, name: "SOGDIAN COMBINING RESH BELOW", aliases: &[] },
        Codepoint { codepoint: 0x10F50, name: "SOGDIAN COMBINING STROKE BELOW", aliases: &[] },
        Codepoint { codepoint: 0x10F51, name: "SOGDIAN NUMBER ONE", aliases: &[] },
        Codepoint { codepoint: 0x10F52, name: "SOGDIAN NUMBER TEN", aliases: &[] },
        Codepoint { codepoint: 0x10F53, name: "SOGDIAN NUMBER TWENTY", aliases: &[] },
        Codepoint { codepoint: 0x10F54, name: "SOGDIAN NUMBER ONE HUNDRED", aliases: &[] },
        Codepoint { codepoint: 0x10F55, name: "SOGDIAN PUNCTUATION TWO VERTICAL BARS", aliases: &[] },
        Codepoint { codepoint: 0x10F56, name: "SOGDIAN PUNCTUATION TWO VERTICAL BARS WITH DOTS", aliases: &[] },
        Codepoint { codepoint: 0x10F57, name: "SOGDIAN PUNCTUATION CIRCLE WITH DOT", aliases: &[] },
        Codepoint { codepoint: 0x10F58, name: "SOGDIAN PUNCTUATION TWO CIRCLES WITH DOTS", aliases: &[] },
        Codepoint { codepoint: 0x10F59, name: "SOGDIAN PUNCTUATION HALF CIRCLE WITH DOT", aliases: &[] },
        Codepoint { codepoint: 0x10F70, name: "OLD UYGHUR LETTER ALEPH", aliases: &[] },
        Codepoint { codepoint: 0x10F71, name: "OLD UYGHUR LETTER BETH", aliases: &[] },
        Codepoint { codepoint: 0x10F72, name: "OLD UYGHUR LETTER GIMEL-HETH", aliases: &[] },
    ];
    assert(v@ =~= codepoint_table_486());
    v
}

pub open spec fn codepoint_table_487() -> Seq<Codepoint> {
    seq![
        Codepoint { codepoint: 0x10F73, name: "OLD UYGHUR LETTER WAW", aliases: &[] },
        Codepoint { codepoint: 0x10F74, name: "OLD UYGHUR LETTER ZAYIN", aliases: &[] },
        Codepoint { codepoint: 0x10F75, name: "OLD UYGHUR LETTER FINAL HETH", aliases: &[] },
        Codepoint { codepoint: 0x10F76, name: "OLD UYGHUR LETTER YODH", aliases: &[] },
        Codepoint { codepoint: 0x10F77, name: "OLD UYGHUR LETTER KAPH", aliases: &[] },
        Codepoint { codepoint: 0x10F78, name: "OLD UYGHUR LETTER LAMEDH", aliases: &[] },
        Codepoint { codepoint: 0x10F79, name: "OLD UYGHUR LETTER MEM", aliases: &[] },
        Codepoint { codepoint: 0x10F7A, name: "OLD UYGHUR LETTER NUN", aliases: &[] },
        Codepoint { codepoint: 0x10F7B, name: "OLD UYGHUR LETTER SAMEKH", aliases: &[] },
        Codepoint { codepoint: 0x10F7C, name: "OLD UYGHUR LETTER PE", aliases: &[] },
        Codepoint { codepoint: 0x10F7D, name: "OLD UYGHUR LETTER SADHE", aliases: &[] },
        Codepoint { codepoint: 0x10F7E, name: "OLD UYGHUR LETTER RESH", aliases: &[] },
        Codepoint { codepoint: 0x10F7F, name: "OLD UYGHUR LETTER SHIN", aliases: &[] },
        Codepoint { codepoint: 0x10F80, name: "OLD UYGHUR LETTER TAW", aliases: &[] },
        Codepoint { codepoint: 0x10F81, name: "OLD UYGHUR LETTER LESH", aliases: &[] },
        Codepoint { codepoint: 0x10F82, name: "OLD UYGHUR COMBINING DOT ABOVE", aliases: &[] },
        Codepoint { codepoint: 0x10F83, name: "OLD UYGHUR COMBINING DOT BELOW", aliases: &[] },
        Codepoint { codepoint: 0x10F84, name: "OLD UYGHUR COMBINING TWO DOTS ABOVE", aliases: &[] },
        Codepoint { codepoint: 0x10F85, name: "OLD UYGHUR COMBINING TWO DOTS BELOW", aliases: &[] },
        Codepoint { codepoint: 0x10F86, name: "OLD UYGHUR PUNCTUATION BAR", aliases: &[] },
        Codepoint { codepoint: 0x10F87, name: "OLD UYGHUR PUNCTUATION TWO BARS", aliases: &[] },
        Codepoint { codepoint: 0x10F88, name: "OLD UYGHUR PUNCTUATION TWO DOTS", aliases: &[] },
        Codepoint { codepoint: 0x10F89, name: "OLD UYGHUR PUNCTUATION FOUR DOTS", aliases: &[] },
        Codepoint { codepoint: 0x10FB0, name: "CHORASMIAN LETTER ALEPH", aliases: &[] },
        Codepoint { codepoint: 0x10FB1, name: "CHORASMIAN LETTER SMALL ALEPH", aliases: &[] },
        Codepoint { codepoint: 0x10FB2, name: "CHORASMIAN LETTER BETH", aliases: &[] },
        Codepoint { codepoint: 0x10FB3, name: "CHORASMIAN LETTER GIMEL", aliases: &[] },
        Codepoint { codepoint: 0x10FB4, name: "CHORASMIAN LETTER DALETH", aliases: &[] },
        Codepoint { codepoint: 0x10FB5, name: "CHORASMIAN LETTER HE", aliases: &[] },
        Codepoint { codepoint: 0x10FB6, name: "CHORASMIAN LETTER WAW", aliases: &[] },
        Codepoint { codepoint: 0x10FB7, name: "CHORASMIAN LETTER CURLED WAW", aliases: &[] },
        Codepoint { codepoint: 0x10FB8, name: "CHORASMIAN LETTER ZAYIN", aliases: &[] },
        Codepoint { codepoint: 0x10FB9, name: "CHORASMIAN LETTER HETH", aliases: &[] },
        Codepoint { codepoint: 0x10FBA, name: "CHORASMIAN LETTER YODH", aliases: &[] },
        Codepoint { codepoint: 0x10FBB, name: "CHORASMIAN LETTER KAPH", aliases: &[] },
        Codepoint { codepoint: 0x10FBC, name: "CHORASMIAN LETTER LAMEDH", aliases: &[] },
        Codepoint { codepoint: 0x10FBD, name: "CHORASMIAN LETTER MEM", aliases: &[] },
        Codepoint { codepoint: 0x10FBE, name: "CHORASMIAN LETTER NUN", aliases: &[] },
        Codepoint { codepoint: 0x10FBF, name: "CHORASMIAN LETTER SAMEKH", aliases: &[] },
        Codepoint { codepoint: 0x10FC0, name: "CHORASMIAN LETTER AYIN", aliases: &[] },
    ]
}

fn all_codepoints_487() -> (v: Vec<Codepoint>)
    ensures
        v@ == codepoint_table_487(),
{
    let v = vec![
        Codepoint { codepoint: 0x10F73, name: "OLD UYGHUR LETTER WAW", aliases: &[] },
        Codepoint { codepoint: 0x10F74, name: "OLD UYGHUR LETTER ZAYIN", aliases: &[] },
        Codepoint { codepoint: 0x10F75, name: "OLD UYGHUR LETTER FINAL HETH", aliases: &[] },
        Codepoint { codepoint: 0x10F76, name: "OLD UYGHUR LETTER YODH", aliases: &[] },
        Codepoint { codepoint: 0x10F77, name: "OLD UYGHUR LETTER KAPH", aliases: &[] },
        Codepoint { codepoint: 0x10F78, name: "OLD UYGHUR LETTER LAMEDH", aliases: &[] },
        Codepoint { codepoint: 0x10F79, name: "OLD UYGHUR LETTER MEM", aliases: &[] },
        Codepoint { codepoint: 0x10F7A, name: "OLD UYGHUR LETTER NUN", aliases: &[] },
        Codepoint { codepoint: 0x10F7B, name: "OLD UYGHUR LETTER SAMEKH", aliases: &[] },
        Codepoint { codepoint: 0x10F7C, name: "OLD UYGHUR LETTER PE", aliases: &[] },
        Codepoint { codepoint: 0x10F7D, name: "OLD UYGHUR LETTER SADHE", aliases: &[] },
        Codepoint { codepoint: 0x10F7E, name: "OLD UYGHUR LETTER RESH", aliases: &[] },
        Codepoint { codepoint: 0x10F7F, name: "OLD UYGHUR LETTER SHIN", aliases: &[] },
        Codepoint { codepoint: 0x10F80, name: "OLD UYGHUR LETTER TAW", aliases: &[] },
        Codepoint { codepoint: 0x10F81, name: "OLD UYGHUR LETTER LESH", aliases: &[] },
        Codepoint { codepoint: 0x10F82, name: "OLD UYGHUR COMBINING DOT ABOVE", aliases: &[] },
        Codepoint { codepoint: 0x10F83, name: "OLD UYGHUR COMBINING DOT BELOW", aliases: &[] },
        Codepoint { codepoint: 0x10F84, name: "OLD UYGHUR COMBINING TWO DOTS ABOVE", aliases: &[] },
        Codepoint { codepoint: 0x10F85, name: "OLD UYGHUR COMBINING TWO DOTS BELOW", aliases: &[] },
        Codepoint { codepoint: 0x10F86, name: "OLD UYGHUR PUNCTUATION BAR", aliases: &[] },
        Codepoint { codepoint: 0x10F87, name: "OLD UYGHUR PUNCTUATION TWO BARS", aliases: &[] },
        Codepoint { codepoint: 0x10F88, name: "OLD UYGHUR PUNCTUATION TWO DOTS", aliases: &[] },
        Codepoint { codepoint: 0x10F89, name: "OLD UYGHUR PUNCTUATION FOUR DOTS", aliases: &[] },
        Codepoint { codepoint: 0x10FB0, name: "CHORASMIAN LETTER ALEPH", aliases: &[] },
        Codepoint { codepoint: 0x10FB1, name: "CHORASMIAN LETTER SMALL ALEPH", aliases: &[] },
        Codepoint { codepoint: 0x10FB2, name: "CHORASMIAN LETTER BETH", aliases: &[] },
        Codepoint { codepoint: 0x10FB3, name: "CHORASMIAN LETTER GIMEL", aliases: &[] },
        Codepoint { codepoint: 0x10FB4, name: "CHORASMIAN LETTER DALETH", aliases: &[] },
        Codepoint { codepoint: 0x10FB5, name: "CHORASMIAN LETTER HE", aliases: &[] },
        Codepoint { codepoint: 0x10FB6, name: "CHORASMIAN LETTER WAW", aliases: &[] },
        Codepoint { codepoint: 0x10FB7, name: "CHORASMIAN LETTER CURLED WAW", aliases: &[] },
        Codepoint { codepoint: 0x10FB8, name: "CHORASMIAN LETTER ZAYIN", aliases: &[] },
        Codepoint { codepoint: 0x10FB9, name: "CHORASMIAN LETTER HETH", aliases: &[] },
        Codepoint { codepoint: 0x10FBA, name: "CHORASMIAN LETTER YODH", aliases: &[] },
        Codepoint { codepoint: 0x10FBB, name: "CHORASMIAN LETTER KAPH", aliases: &[] },
        Codepoint { codepoint: 0x10FBC, name: "CHORASMIAN LETTER LAMEDH", aliases: &[] },
        Codepoint { codepoint: 0x10FBD, name: "CHORASMIAN LETTER MEM", aliases: &[] },
        Codepoint { codepoint: 0x10FBE, name: "CHORASMIAN LETTER NUN", aliases: &[] },
        Codepoint { codepoint: 0x10FBF, name: "CHORASMIAN LETTER SAMEKH", aliases: &[] },
        Codepoint { codepoint: 0x10FC0, name: "CHORASMIAN LETTER AYIN", aliases: &[] },
    ];
    assert(v@ =~= codepoint_table_487());
    v
}

pub open spec fn codepoint_table_488() -> Seq<Codepoint> {
    seq![
        Codepoint { codepoint: 0x10FC1, name: "CHORASMIAN LETTER PE", aliases: &[] },
        Codepoint { codepoint: 0x10FC2, name: "CHORASMIAN LETTER RESH", aliases: &[] },
        Codepoint { codepoint: 0x10FC3, name: "CHORASMIAN LETTER SHIN", aliases: &[] },
        Codepoint { codepoint: 0x10FC4, name: "CHORASMIAN LETTER TAW", aliases: &[] },
        Codepoint { codepoint: 0x10FC5, name: "CHORASMIAN NUMBER ONE", aliases: &[] },
        Codepoint { codepoint: 0x10FC6, name: "CHORASMIAN NUMBER TWO", aliases: &[] },
        Codepoint { codepoint: 0x10FC7, name: "CHORASMIAN NUMBER THREE", aliases: &[] },
        Codepoint { codepoint: 0x10FC8, name: "CHORASMIAN NUMBER FOUR", aliases: &[] },
        Codepoint { codepoint: 0x10FC9, name: "CHORASMIAN NUMBER TEN", aliases: &[] },
        Codepoint { codepoint: 0x10FCA, name: "CHORASMIAN NUMBER TWENTY", aliases: &[] },
        Codepoint { codepoint: 0x10FCB, name: "CHORASMIAN NUMBER ONE HUNDRED", aliases: &[] },
        Codepoint { codepoint: 0x10FE0, name: "ELYMAIC LETTER ALEPH", aliases: &[] },
        Codepoint { codepoint: 0x10FE1, name: "ELYMAIC LETTER BETH", aliases: &[] },
        Codepoint { codepoint: 0x10FE2, name: "ELYMAIC LETTER GIMEL", aliases: &[] },
        Codepoint { codepoint: 0x10FE3, name: "ELYMAIC LETTER DALETH", aliases: &[] },
        Codepoint { codepoint: 0x10FE4, name: "ELYMAIC LETTER HE", aliases: &[] },
        Codepoint { codepoint: 0x10FE5, name: "ELYMAIC LETTER WAW", aliases: &[] },
        Codepoint { codepoint: 0x10FE6, name: "ELYMAIC LETTER ZAYIN", aliases: &[] },
        Codepoint { codepoint: 0x10FE7, name: "ELYMAIC LETTER HETH", aliases: &[] },
        Codepoint { codepoint: 0x10FE8, name: "ELYMAIC LETTER TETH", aliases: &[] },
        Codepoint { codepoint: 0x10FE9, name: "ELYMAIC LETTER YODH", aliases: &[] },
        Codepoint { codepoint: 0x10FEA, name: "ELYMAIC LETTER KAPH", aliases: &[] },
        Codepoint { codepoint: 0x10FEB, name: "ELYMAIC LETTER LAMEDH", aliases: &[] },
        Codepoint { codepoint: 0x10FEC, name: "ELYMAIC LETTER MEM", aliases: &[] },
        Codepoint { codepoint: 0x10FED, name: "ELYMAIC LETTER NUN", aliases: &[] },
        Codepoint { codepoint: 0x10FEE, name: "ELYMAIC LETTER SAMEKH", aliases: &[] },
        Codepoint { codepoint: 0x10FEF, name: "ELYMAIC LETTER AYIN", aliases: &[] },
        Codepoint { codepoint: 0x10FF0, name: "ELYMAIC LETTER PE", aliases: &[] },
        Codepoint { codepoint: 0x10FF1, name: "ELYMAIC LETTER SADHE", aliases: &[] },
        Codepoint { codepoint: 0x10FF2, name: "ELYMAIC LETTER QOPH", aliases: &[] },
        Codepoint { codepoint: 0x10FF3, name: "ELYMAIC LETTER RESH", aliases: &[] },
        Codepoint { codepoint: 0x10FF4, name: "ELYMAIC LETTER SHIN", aliases: &[] },
        Codepoint { codepoint: 0x10FF5, name: "ELYMAIC LETTER TAW", aliases: &[] },
        Codepoint { codepoint: 0x10FF6, name: "ELYMAIC LIGATURE ZAYIN-YODH", aliases: &[] },
        Codepoint { codepoint: 0x11000, name: "BRAHMI SIGN CANDRABINDU", aliases: &[] },
        Codepoint { codepoint: 0x11001, name: "BRAHMI SIGN ANUSVARA", aliases: &[] },
        Codepoint { codepoint: 0x11002, name: "BRAHMI SIGN VISARGA", aliases: &[] },
        Codepoint { codepoint: 0x11003, name: "BRAHMI SIGN JIHVAMULIYA", aliases: &[] },
        Codepoint { codepoint: 0x11004, name: "BRAHMI SIGN UPADHMANIYA", aliases: &[] },
        Codepoint { codepoint: 0x11005, name: "BRAHMI LETTER A", aliases: &[] },
    ]
}

fn all_codepoints_488() -> (v: Vec<Codepoint>)
    ensures
        v@ == codepoint_table_488(),
{
    let v = vec![
        Codepoint { codepoint: 0x10FC1, name: "CHORASMIAN LETTER PE", aliases: &[] },
        Codepoint { codepoint: 0x10FC2, name: "CHORASMIAN LETTER RESH", aliases: &[] },
        Codepoint { codepoint: 0x10FC3, name: "CHORASMIAN LETTER SHIN", aliases: &[] },
        Codepoint { codepoint: 0x10FC4, name: "CHORASMIAN LETTER TAW", aliases: &[] },
        Codepoint { codepoint: 0x10FC5, name: "CHORASMIAN NUMBER ONE", aliases: &[] },
        Codepoint { codepoint: 0x10FC6, name: "CHORASMIAN NUMBER TWO", aliases: &[] },
        Codepoint { codepoint: 0x10FC7, name: "CHORASMIAN NUMBER THREE", aliases: &[] },
        Codepoint { codepoint: 0x10FC8, name: "CHORASMIAN NUMBER FOUR", aliases: &[] },
        Codepoint { codepoint: 0x10FC9, name: "CHORASMIAN NUMBER TEN", aliases: &[] },
        Codepoint { codepoint: 0x10FCA, name: "CHORASMIAN NUMBER TWENTY", aliases: &[] },
        Codepoint { codepoint: 0x10FCB, name: "CHORASMIAN NUMBER ONE HUNDRED", aliases: &[] },
        Codepoint { codepoint: 0x10FE0, name: "ELYMAIC LETTER ALEPH", aliases: &[] },
        Codepoint { codepoint: 0x10FE1, name: "ELYMAIC LETTER BETH", aliases: &[] },
        Codepoint { codepoint: 0x10FE2, name: "ELYMAIC LETTER GIMEL", aliases: &[] },
        Codepoint { codepoint: 0x10FE3, name: "ELYMAIC LETTER DALETH", aliases: &[] },
        Codepoint { codepoint: 0x10FE4, name: "ELYMAIC LETTER HE", aliases: &[] },
        Codepoint { codepoint: 0x10FE5, name: "ELYMAIC LETTER WAW", aliases: &[] },
        Codepoint { codepoint: 0x10FE6, name: "ELYMAIC LETTER ZAYIN", aliases: &[] },
        Codepoint { codepoint: 0x10FE7, name: "ELYMAIC LETTER HETH", aliases: &[] },
        Codepoint { codepoint: 0x10FE8, name: "ELYMAIC LETTER TETH", aliases: &[] },
        Codepoint { codepoint: 0x10FE9, name: "ELYMAIC LETTER YODH", aliases: &[] },
        Codepoint { codepoint: 0x10FEA, name: "ELYMAIC LETTER KAPH", aliases: &[] },
        Codepoint { codepoint: 0x10FEB, name: "ELYMAIC LETTER LAMEDH", aliases: &[] },
        Codepoint { codepoint: 0x10FEC, name: "ELYMAIC LETTER MEM", aliases: &[] },
        Codepoint { codepoint: 0x10FED, name: "ELYMAIC LETTER NUN", aliases: &[] },
        Codepoint { codepoint: 0x10FEE, name: "ELYMAIC LETTER SAMEKH", aliases: &[] },
        Codepoint { codepoint: 0x10FEF, name: "ELYMAIC LETTER AYIN", aliases: &[] },
        Codepoint { codepoint: 0x10FF0, name: "ELYMAIC LETTER PE", aliases: &[] },
        Codepoint { codepoint: 0x10FF1, name: "ELYMAIC LETTER SADHE", aliases: &[] },
        Codepoint { codepoint: 0x10FF2, name: "ELYMAIC LETTER QOPH", aliases: &[] },
        Codepoint { codepoint: 0x10FF3, name: "ELYMAIC LETTER RESH", aliases: &[] },
        Codepoint { codepoint: 0x10FF4, name: "ELYMAIC LETTER SHIN", aliases: &[] },
        Codepoint { codepoint: 0x10FF5, name: "ELYMAIC LETTER TAW", aliases: &[] },
        Codepoint { codepoint: 0x10FF6, name: "ELYMAIC LIGATURE ZAYIN-YODH", aliases: &[] },
        Codepoint { codepoint: 0x11000, name: "BRAHMI SIGN CANDRABINDU", aliases: &[] },
        Codepoint { codepoint: 0x11001, name: "BRAHMI SIGN ANUSVARA", aliases: &[] },
        Codepoint { codepoint: 0x11002, name: "BRAHMI SIGN VISARGA", aliases: &[] },
        Codepoint { codepoint: 0x11003, name: "BRAHMI SIGN JIHVAMULIYA", aliases: &[] },
        Codepoint { codepoint: 0x11004, name: "BRAHMI SIGN UPADHMANIYA", aliases: &[] },
        Codepoint { codepoint: 0x11005, name: "BRAHMI LETTER A", aliases: &[] },
    ];
    assert(v@ =~= codepoint_table_488());
    v
}

pub open spec fn codepoint_table_489() -> Seq<Codepoint> {
    seq![
        Codepoint { codepoint: 0x11006, name: "BRAHMI LETTER AA", aliases: &[] },
        Codepoint { codepoint: 0x11007, name: "BRAHMI LETTER I", aliases: &[] },
        Codepoint { codepoint: 0x11008, name: "BRAHMI LETTER II", aliases: &[] },
        Codepoint { codepoint: 0x11009, name: "BRAHMI LETTER U", aliases: &[] },
        Codepoint { codepoint: 0x1100A, name: "BRAHMI LETTER UU", aliases: &[] },
        Codepoint { codepoint: 0x1100B, name: "BRAHMI LETTER VOCALIC R", aliases: &[] },
        Codepoint { codepoint: 0x1100C, name: "BRAHMI LETTER VOCALIC RR", aliases: &[] },
        Codepoint { codepoint: 0x1100D, name: "BRAHMI LETTER VOCALIC L", aliases: &[] },
        Codepoint { codepoint: 0x1100E, name: "BRAHMI LETTER VOCALIC LL", aliases: &[] },
        Codepoint { codepoint: 0x1100F, name: "BRAHMI LETTER E", aliases: &[] },
        Codepoint { codepoint: 0x11010, name: "BRAHMI LETTER AI", aliases: &[] },
        Codepoint { codepoint: 0x11011, name: "BRAHMI LETTER O", aliases: &[] },
        Codepoint { codepoint: 0x11012, name: "BRAHMI LETTER AU", aliases: &[] },
        Codepoint { codepoint: 0x11013, name: "BRAHMI LETTER KA", aliases: &[] },
        Codepoint { codepoint: 0x11014, name: "BRAHMI LETTER KHA", aliases: &[] },
        Codepoint { codepoint: 0x11015, name: "BRAHMI LETTER GA", aliases: &[] },
        Codepoint { codepoint: 0x11016, name: "BRAHMI LETTER GHA", aliases: &[] },
        Codepoint { codepoint: 0x11017, name: "BRAHMI LETTER NGA", aliases: &[] },
        Codepoint { codepoint: 0x11018, name: "BRAHMI LETTER CA", aliases: &[] },
        Codepoint { codepoint: 0x11019, name: "BRAHMI LETTER CHA", aliases: &[] },
        Codepoint { codepoint: 0x1101A, name: "BRAHMI LETTER JA", aliases: &[] },
        Codepoint { codepoint: 0x1101B, name: "BRAHMI LETTER JHA", aliases: &[] },
        Codepoint { codepoint: 0x1101C, name: "BRAHMI LETTER NYA", aliases: &[] },
        Codepoint { codepoint: 0x1101D, name: "BRAHMI LETTER TTA", aliases: &[] },
        Codepoint { codepoint: 0x1101E, name: "BRAHMI LETTER TTHA", aliases: &[] },
        Codepoint { codepoint: 0x1101F, name: "BRAHMI LETTER DDA", aliases: &[] },
        Codepoint { codepoint: 0x11020, name: "BRAHMI LETTER DDHA", aliases: &[] },
        Codepoint { codepoint: 0x11021, name: "BRAHMI LETTER NNA", aliases: &[] },
        Codepoint { codepoint: 0x11022, name: "BRAHMI LETTER TA", aliases: &[] },
        Codepoint { codepoint: 0x11023, name: "BRAHMI LETTER THA", aliases: &[] },
        Codepoint { codepoint: 0x11024, name: "BRAHMI LETTER DA", aliases: &[] },
        Codepoint { codepoint: 0x11025, name: "BRAHMI LETTER DHA", aliases: &[] },
        Codepoint { codepoint: 0x11026, name: "BRAHMI LETTER NA", aliases: &[] },
        Codepoint { codepoint: 0x11027, name: "BRAHMI LETTER PA", aliases: &[] },
        Codepoint { codepoint: 0x11028, name: "BRAHMI LETTER PHA", aliases: &[] },
        Codepoint { codepoint: 0x11029, name: "BRAHMI LETTER BA", aliases: &[] },
        Codepoint { codepoint: 0x1102A, name: "BRAHMI LETTER BHA", aliases: &[] },
        Codepoint { codepoint: 0x1102B, name: "BRAHMI LETTER MA", aliases: &[] },
        Codepoint { codepoint: 0x1102C, name: "BRAHMI LETTER YA", aliases: &[] },
        Codepoint { codepoint: 0x1102D, name: "BRAHMI LETTER RA", aliases: &[] },
    ]
}

fn all_codepoints_489() -> (v: Vec<Codepoint>)
    ensures
        v@ == codepoint_table_489(),
{
    let v = vec![
        Codepoint { codepoint: 0x11006, name: "BRAHMI LETTER AA", aliases: &[] },
        Codepoint { codepoint: 0x11007, name: "BRAHMI LETTER I", aliases: &[] },
        Codepoint { codepoint: 0x11008, name: "BRAHMI LETTER II", aliases: &[] },
        Codepoint { codepoint: 0x11009, name: "BRAHMI LETTER U", aliases: &[] },
        Codepoint { codepoint: 0x1100A, name: "BRAHMI LETTER UU", aliases: &[] },
        Codepoint { codepoint: 0x1100B, name: "BRAHMI LETTER VOCALIC R", aliases: &[] },
        Codepoint { codepoint: 0x1100C, name: "BRAHMI LETTER VOCALIC RR", aliases: &[] },
        Codepoint { codepoint: 0x1100D, name: "BRAHMI LETTER VOCALIC L", aliases: &[] },
        Codepoint { codepoint: 0x1100E, name: "BRAHMI LETTER VOCALIC LL", aliases: &[] },
        Codepoint { codepoint: 0x1100F, name: "BRAHMI LETTER E", aliases: &[] },
        Codepoint { codepoint: 0x11010, name: "BRAHMI LETTER AI", aliases: &[] },
        Codepoint { codepoint: 0x11011, name: "BRAHMI LETTER O", aliases: &[] },
        Codepoint { codepoint: 0x11012, name: "BRAHMI LETTER AU", aliases: &[] },
        Codepoint { codepoint: 0x11013, name: "BRAHMI LETTER KA", aliases: &[] },
        Codepoint { codepoint: 0x11014, name: "BRAHMI LETTER KHA", aliases: &[] },
        Codepoint { codepoint: 0x11015, name: "BRAHMI LETTER GA", aliases: &[] },
        Codepoint { codepoint: 0x11016, name: "BRAHMI LETTER GHA", aliases: &[] },
        Codepoint { codepoint: 0x11017, name: "BRAHMI LETTER NGA", aliases: &[] },
        Codepoint { codepoint: 0x11018, name: "BRAHMI LETTER CA", aliases: &[] },
        Codepoint { codepoint: 0x11019, name: "BRAHMI LETTER CHA", aliases: &[] },
        Codepoint { codepoint: 0x1101A, name: "BRAHMI LETTER JA", aliases: &[] },
        Codepoint { codepoint: 0x1101B, name: "BRAHMI LETTER JHA", aliases: &[] },
        Codepoint { codepoint: 0x1101C, name: "BRAHMI LETTER NYA", aliases: &[] },
        Codepoint { codepoint: 0x1101D, name: "BRAHMI LETTER TTA", aliases: &[] },
        Codepoint { codepoint: 0x1101E, name: "BRAHMI LETTER TTHA", aliases: &[] },
        Codepoint { codepoint: 0x1101F, name: "BRAHMI LETTER DDA", aliases: &[] },
        Codepoint { codepoint: 0x11020, name: "BRAHMI LETTER DDHA", aliases: &[] },
        Codepoint { codepoint: 0x11021, name: "BRAHMI LETTER NNA", aliases: &[] },
        Codepoint { codepoint: 0x11022, name: "BRAHMI LETTER TA", aliases: &[] },
        Codepoint { codepoint: 0x11023, name: "BRAHMI LETTER THA", aliases: &[] },
        Codepoint { codepoint: 0x11024, name: "BRAHMI LETTER DA", aliases: &[] },
        Codepoint { codepoint: 0x11025, name: "BRAHMI LETTER DHA", aliases: &[] },
        Codepoint { codepoint: 0x11026, name: "BRAHMI LETTER NA", aliases: &[] },
        Codepoint { codepoint: 0x11027, name: "BRAHMI LETTER PA", aliases: &[] },
        Codepoint { codepoint: 0x11028, name: "BRAHMI LETTER PHA", aliases: &[] },
        Codepoint { codepoint: 0x11029, name: "BRAHMI LETTER BA", aliases: &[] },
        Codepoint { codepoint: 0x1102A, name: "BRAHMI LETTER BHA", aliases: &[] },
        Codepoint { codepoint: 0x1102B, name: "BRAHMI LETTER MA", aliases: &[] },
        Codepoint { codepoint: 0x1102C, name: "BRAHMI LETTER YA", aliases: &[] },
        Codepoint { codepoint: 0x1102D, name: "BRAHMI LETTER RA", aliases: &[] },
    ];
    assert(v@ =~= codepoint_table_489());
    v
}

pub open spec fn codepoint_table_490() -> Seq<Codepoint> {
    seq![
        Codepoint { codepoint: 0x1102E, name: "BRAHMI LETTER LA", aliases: &[] },
        Codepoint { codepoint: 0x1102F, name: "BRAHMI LETTER VA", aliases: &[] },
        Codepoint { codepoint: 0x11030, name: "BRAHMI LETTER SHA", aliases: &[] },
        Codepoint { codepoint: 0x11031, name: "BRAHMI LETTER SSA", aliases: &[] },
        Codepoint { codepoint: 0x11032, name: "BRAHMI LETTER SA", aliases: &[] },
        Codepoint { codepoint: 0x11033, name: "BRAHMI LETTER HA", aliases: &[] },
        Codepoint { codepoint: 0x11034, name: "BRAHMI LETTER LLA", aliases: &[] },
        Codepoint { codepoint: 0x11035, name: "BRAHMI LETTER OLD TAMIL LLLA", aliases: &[] },
        Codepoint { codepoint: 0x11036, name: "BRAHMI LETTER OLD TAMIL RRA", aliases: &[] },
        Codepoint { codepoint: 0x11037, name: "BRAHMI LETTER OLD TAMIL NNNA", aliases: &[] },
        Codepoint { codepoint: 0x11038, name: "BRAHMI VOWEL SIGN AA", aliases: &[] },
        Codepoint { codepoint: 0x11039, name: "BRAHMI VOWEL SIGN BHATTIPROLU AA", aliases: &[] },
        Codepoint { codepoint: 0x1103A, name: "BRAHMI VOWEL SIGN I", aliases: &[] },
        Codepoint { codepoint: 0x1103B, name: "BRAHMI VOWEL SIGN II", aliases: &[] },
        Codepoint { codepoint: 0x1103C, name: "BRAHMI VOWEL SIGN U", aliases: &[] },
        Codepoint { codepoint: 0x1103D, name: "BRAHMI VOWEL SIGN UU", aliases: &[] },
        Codepoint { codepoint: 0x1103E, name: "BRAHMI VOWEL SIGN VOCALIC R", aliases: &[] },
        Codepoint { codepoint: 0x1103F, name: "BRAHMI VOWEL SIGN VOCALIC RR", aliases: &[] },
        Codepoint { codepoint: 0x11040, name: "BRAHMI VOWEL SIGN VOCALIC L", aliases: &[] },
        Codepoint { codepoint: 0x11041, name: "BRAHMI VOWEL SIGN VOCALIC LL", aliases: &[] },
        Codepoint { codepoint: 0x11042, name: "BRAHMI VOWEL SIGN E", aliases: &[] },
        Codepoint { codepoint: 0x11043, name: "BRAHMI VOWEL SIGN AI", aliases: &[] },
        Codepoint { codepoint: 0x11044, name: "BRAHMI VOWEL SIGN O", aliases: &[] },
        Codepoint { codepoint: 0x11045, name: "BRAHMI VOWEL SIGN AU", aliases: &[] },
        Codepoint { codepoint: 0x11046, name: "BRAHMI VIRAMA", aliases: &[] },
        Codepoint { codepoint: 0x11047, name: "BRAHMI DANDA", aliases: &[] },
        Codepoint { codepoint: 0x11048, name: "BRAHMI DOUBLE DANDA", aliases: &[] },
        Codepoint { codepoint: 0x11049, name: "BRAHMI PUNCTUATION DOT", aliases: &[] },
        Codepoint { codepoint: 0x1104A, name: "BRAHMI PUNCTUATION DOUBLE DOT", aliases: &[] },
        Codepoint { codepoint: 0x1104B, name: "BRAHMI PUNCTUATION LINE", aliases: &[] },
        Codepoint { codepoint: 0x1104C, name: "BRAHMI PUNCTUATION CRESCENT BAR", aliases: &[] },
        Codepoint { codepoint: 0x1104D, name: "BRAHMI PUNCTUATION LOTUS", aliases: &[] },
        Codepoint { codepoint: 0x11052, name: "BRAHMI NUMBER ONE", aliases: &[] },
        Codepoint { codepoint: 0x11053, name: "BRAHMI NUMBER TWO", aliases: &[] },
        Codepoint { codepoint: 0x11054, name: "BRAHMI NUMBER THREE", aliases: &[] },
        Codepoint { codepoint: 0x11055, name: "BRAHMI NUMBER FOUR", aliases: &[] },
        Codepoint { codepoint: 0x11056, name: "BRAHMI NUMBER FIVE", aliases: &[] },
        Codepoint { codepoint: 0x11057, name: "BRAHMI NUMBER SIX", aliases: &[] },
        Codepoint { codepoint: 0x11058, name: "BRAHMI NUMBER SEVEN", aliases: &[] },
        Codepoint { codepoint: 0x11059, name: "BRAHMI NUMBER EIGHT", aliases: &[] },
    ]
}

fn all_codepoints_490() -> (v: Vec<Codepoint>)
    ensures
        v@ == codepoint_table_490(),
{
    let v = vec![
        Codepoint { codepoint: 0x1102E, name: "BRAHMI LETTER LA", aliases: &[] },
        Codepoint { codepoint: 0x1102F, name: "BRAHMI LETTER VA", aliases: &[] },
        Codepoint { codepoint: 0x11030, name: "BRAHMI LETTER SHA", aliases: &[] },
        Codepoint { codepoint: 0x11031, name: "BRAHMI LETTER SSA", aliases: &[] },
        Codepoint { codepoint: 0x11032, name: "BRAHMI LETTER SA", aliases: &[] },
        Codepoint { codepoint: 0x11033, name: "BRAHMI LETTER HA", aliases: &[] },
        Codepoint { codepoint: 0x11034, name: "BRAHMI LETTER LLA", aliases: &[] },
        Codepoint { codepoint: 0x11035, name: "BRAHMI LETTER OLD TAMIL LLLA", aliases: &[] },
        Codepoint { codepoint: 0x11036, name: "BRAHMI LETTER OLD TAMIL RRA", aliases: &[] },
        Codepoint { codepoint: 0x11037, name: "BRAHMI LETTER OLD TAMIL NNNA", aliases: &[] },
        Codepoint { codepoint: 0x11038, name: "BRAHMI VOWEL SIGN AA", aliases: &[] },
        Codepoint { codepoint: 0x11039, name: "BRAHMI VOWEL SIGN BHATTIPROLU AA", aliases: &[] },
        Codepoint { codepoint: 0x1103A, name: "BRAHMI VOWEL SIGN I", aliases: &[] },
        Codepoint { codepoint: 0x1103B, name: "BRAHMI VOWEL SIGN II", aliases: &[] },
        Codepoint { codepoint: 0x1103C, name: "BRAHMI VOWEL SIGN U", aliases: &[] },
        Codepoint { codepoint: 0x1103D, name: "BRAHMI VOWEL SIGN UU", aliases: &[] },
        Codepoint { codepoint: 0x1103E, name: "BRAHMI VOWEL SIGN VOCALIC R", aliases: &[] },
        Codepoint { codepoint: 0x1103F, name: "BRAHMI VOWEL SIGN VOCALIC RR", aliases: &[] },
        Codepoint { codepoint: 0x11040, name: "BRAHMI VOWEL SIGN VOCALIC L", aliases: &[] },
        Codepoint { codepoint: 0x11041, name: "BRAHMI VOWEL SIGN VOCALIC LL", aliases: &[] },
        Codepoint { codepoint: 0x11042, name: "BRAHMI VOWEL SIGN E", aliases: &[] },
        Codepoint { codepoint: 0x11043, name: "BRAHMI VOWEL SIGN AI", aliases: &[] },
        Codepoint { codepoint: 0x11044, name: "BRAHMI VOWEL SIGN O", aliases: &[] },
        Codepoint { codepoint: 0x11045, name: "BRAHMI VOWEL SIGN AU", aliases: &[] },
        Codepoint { codepoint: 0x11046, name: "BRAHMI VIRAMA", aliases: &[] },
        Codepoint { codepoint: 0x11047, name: "BRAHMI DANDA", aliases: &[] },
        Codepoint { codepoint: 0x11048, name: "BRAHMI DOUBLE DANDA", aliases: &[] },
        Codepoint { codepoint: 0x11049, name: "BRAHMI PUNCTUATION DOT", aliases: &[] },
        Codepoint { codepoint: 0x1104A, name: "BRAHMI PUNCTUATION DOUBLE DOT", aliases: &[] },
        Codepoint { codepoint: 0x1104B, name: "BRAHMI PUNCTUATION LINE", aliases: &[] },
        Codepoint { codepoint: 0x1104C, name: "BRAHMI PUNCTUATION CRESCENT BAR", aliases: &[] },
        Codepoint { codepoint: 0x1104D, name: "BRAHMI PUNCTUATION LOTUS", aliases: &[] },
        Codepoint { codepoint: 0x11052, name: "BRAHMI NUMBER ONE", aliases: &[] },
        Codepoint { codepoint: 0x11053, name: "BRAHMI NUMBER TWO", aliases: &[] },
        Codepoint { codepoint: 0x11054, name: "BRAHMI NUMBER THREE", aliases: &[] },
        Codepoint { codepoint: 0x11055, name: "BRAHMI NUMBER FOUR", aliases: &[] },
        Codepoint { codepoint: 0x11056, name: "BRAHMI NUMBER FIVE", aliases: &[] },
        Codepoint { codepoint: 0x11057, name: "BRAHMI NUMBER SIX", aliases: &[] },
        Codepoint { codepoint: 0x11058, name: "BRAHMI NUMBER SEVEN", aliases: &[] },
        Codepoint { codepoint: 0x11059, name: "BRAHMI NUMBER EIGHT", aliases: &[] },
    ];
    assert(v@ =~= codepoint_table_490());
    v
}

pub open spec fn codepoint_table_491() -> Seq<Codepoint> {
    seq![
        Codepoint { codepoint: 0x1105A, name: "BRAHMI NUMBER NINE", aliases: &[] },
        Codepoint { codepoint: 0x1105B, name: "BRAHMI NUMBER TEN", aliases: &[] },
        Codepoint { codepoint: 0x1105C, name: "BRAHMI NUMBER TWENTY", aliases: &[] },
        Codepoint { codepoint: 0x1105D, name: "BRAHMI NUMBER THIRTY", aliases: &[] },
        Codepoint { codepoint: 0x1105E, name: "BRAHMI NUMBER FORTY", aliases: &[] },
        Codepoint { codepoint: 0x1105F, name: "BRAHMI NUMBER FIFTY", aliases: &[] },
        Codepoint { codepoint: 0x11060, name: "BRAHMI NUMBER SIXTY", aliases: &[] },
        Codepoint { codepoint: 0x11061, name: "BRAHMI NUMBER SEVENTY", aliases: &[] },
        Codepoint { codepoint: 0x11062, name: "BRAHMI NUMBER EIGHTY", aliases: &[] },
        Codepoint { codepoint: 0x11063, name: "BRAHMI NUMBER NINETY", aliases: &[] },
        Codepoint { codepoint: 0x11064, name: "BRAHMI NUMBER ONE HUNDRED", aliases: &[] },
        Codepoint { codepoint: 0x11065, name: "BRAHMI NUMBER ONE THOUSAND", aliases: &[] },
        Codepoint { codepoint: 0x11066, name: "BRAHMI DIGIT ZERO", aliases: &[] },
        Codepoint { codepoint: 0x11067, name: "BRAHMI DIGIT ONE", aliases: &[] },
        Codepoint { codepoint: 0x11068, name: "BRAHMI DIGIT TWO", aliases: &[] },
        Codepoint { codepoint: 0x11069, name: "BRAHMI DIGIT THREE", aliases: &[] },
        Codepoint { codepoint: 0x1106A, name: "BRAHMI DIGIT FOUR", aliases: &[] },
        Codepoint { codepoint: 0x1106B, name: "BRAHMI DIGIT FIVE", aliases: &[] },
        Codepoint { codepoint: 0x1106C, name: "BRAHMI DIGIT SIX", aliases: &[] },
        Codepoint { codepoint: 0x1106D, name: "BRAHMI DIGIT SEVEN", aliases: &[] },
        Codepoint { codepoint: 0x1106E, name: "BRAHMI DIGIT EIGHT", aliases: &[] },
        Codepoint { codepoint: 0x1106F, name: "BRAHMI DIGIT NINE", aliases: &[] },
        Codepoint { codepoint: 0x11070, name: "BRAHMI SIGN OLD TAMIL VIRAMA", aliases: &[] },
        Codepoint { codepoint: 0x11071, name: "BRAHMI LETTER OLD TAMIL SHORT E", aliases: &[] },
        Codepoint { codepoint: 0x11072, name: "BRAHMI LETTER OLD TAMIL SHORT O", aliases: &[] },
        Codepoint { codepoint: 0x11073, name: "BRAHMI VOWEL SIGN OLD TAMIL SHORT E", aliases: &[] },
        Codepoint { codepoint: 0x11074, name: "BRAHMI VOWEL SIGN OLD TAMIL SHORT O", aliases: &[] },
        Codepoint { codepoint: 0x11075, name: "BRAHMI LETTER OLD TAMIL LLA", aliases: &[] },
        Codepoint { codepoint: 0x1107F, name: "BRAHMI NUMBER JOINER", aliases: &[] },
        Codepoint { codepoint: 0x11080, name: "KAITHI SIGN CANDRABINDU", aliases: &[] },
        Codepoint { codepoint: 0x11081, name: "KAITHI SIGN ANUSVARA", aliases: &[] },
        Codepoint { codepoint: 0x11082, name: "KAITHI SIGN VISARGA", aliases: &[] },
        Codepoint { codepoint: 0x11083, name: "KAITHI LETTER A", aliases: &[] },
        Codepoint { codepoint: 0x11084, name: "KAITHI LETTER AA", aliases: &[] },
        Codepoint { codepoint: 0x11085, name: "KAITHI LETTER I", aliases: &[] },
        Codepoint { codepoint: 0x11086, name: "KAITHI LETTER II", aliases: &[] },
        Codepoint { codepoint: 0x11087, name: "KAITHI LETTER U", aliases: &[] },
        Codepoint { codepoint: 0x11088, name: "KAITHI LETTER UU", aliases: &[] },
        Codepoint { codepoint: 0x11089, name: "KAITHI LETTER E", aliases: &[] },
        Codepoint { codepoint: 0x1108A, name: "KAITHI LETTER AI", aliases: &[] },
    ]
}

fn all_codepoints_491() -> (v: Vec<Codepoint>)
    ensures
        v@ == codepoint_table_491(),
{
    let v = vec![
        Codepoint { codepoint: 0x1105A, name: "BRAHMI NUMBER NINE", aliases: &[] },
        Codepoint { codepoint: 0x1105B, name: "BRAHMI NUMBER TEN", aliases: &[] },
        Codepoint { codepoint: 0x1105C, name: "BRAHMI NUMBER TWENTY", aliases: &[] },
        Codepoint { codepoint: 0x1105D, name: "BRAHMI NUMBER THIRTY", aliases: &[] },
        Codepoint { codepoint: 0x1105E, name: "BRAHMI NUMBER FORTY", aliases: &[] },
        Codepoint { codepoint: 0x1105F, name: "BRAHMI NUMBER FIFTY", aliases: &[] },
        Codepoint { codepoint: 0x11060, name: "BRAHMI NUMBER SIXTY", aliases: &[] },
        Codepoint { codepoint: 0x11061, name: "BRAHMI NUMBER SEVENTY", aliases: &[] },
        Codepoint { codepoint: 0x11062, name: "BRAHMI NUMBER EIGHTY", aliases: &[] },
        Codepoint { codepoint: 0x11063, name: "BRAHMI NUMBER NINETY", aliases: &[] },
        Codepoint { codepoint: 0x11064, name: "BRAHMI NUMBER ONE HUNDRED", aliases: &[] },
        Codepoint { codepoint: 0x11065, name: "BRAHMI NUMBER ONE THOUSAND", aliases: &[] },
        Codepoint { codepoint: 0x11066, name: "BRAHMI DIGIT ZERO", aliases: &[] },
        Codepoint { codepoint: 0x11067, name: "BRAHMI DIGIT ONE", aliases: &[] },
        Codepoint { codepoint: 0x11068, name: "BRAHMI DIGIT TWO", aliases: &[] },
        Codepoint { codepoint: 0x11069, name: "BRAHMI DIGIT THREE", aliases: &[] },
        Codepoint { codepoint: 0x1106A, name: "BRAHMI DIGIT FOUR", aliases: &[] },
        Codepoint { codepoint: 0x1106B, name: "BRAHMI DIGIT FIVE", aliases: &[] },
        Codepoint { codepoint: 0x1106C, name: "BRAHMI DIGIT SIX", aliases: &[] },
        Codepoint { codepoint: 0x1106D, name: "BRAHMI DIGIT SEVEN", aliases: &[] },
        Codepoint { codepoint: 0x1106E, name: "BRAHMI DIGIT EIGHT", aliases: &[] },
        Codepoint { codepoint: 0x1106F, name: "BRAHMI DIGIT NINE", aliases: &[] },
        Codepoint { codepoint: 0x11070, name: "BRAHMI SIGN OLD TAMIL VIRAMA", aliases: &[] },
        Codepoint { codepoint: 0x11071, name: "BRAHMI LETTER OLD TAMIL SHORT E", aliases: &[] },
        Codepoint { codepoint: 0x11072, name: "BRAHMI LETTER OLD TAMIL SHORT O", aliases: &[] },
        Codepoint { codepoint: 0x11073, name: "BRAHMI VOWEL SIGN OLD TAMIL SHORT E", aliases: &[] },
        Codepoint { codepoint: 0x11074, name: "BRAHMI VOWEL SIGN OLD TAMIL SHORT O", aliases: &[] },
        Codepoint { codepoint: 0x11075, name: "BRAHMI LETTER OLD TAMIL LLA", aliases: &[] },
        Codepoint { codepoint: 0x1107F, name: "BRAHMI NUMBER JOINER", aliases: &[] },
        Codepoint { codepoint: 0x11080, name: "KAITHI SIGN CANDRABINDU", aliases: &[] },
        Codepoint { codepoint: 0x11081, name: "KAITHI SIGN ANUSVARA", aliases: &[] },
        Codepoint { codepoint: 0x11082, name: "KAITHI SIGN VISARGA", aliases: &[] },
        Codepoint { codepoint: 0x11083, name: "KAITHI LETTER A", aliases: &[] },
        Codepoint { codepoint: 0x11084, name: "KAITHI LETTER AA", aliases: &[] },
        Codepoint { codepoint: 0x11085, name: "KAITHI LETTER I", aliases: &[] },
        Codepoint { codepoint: 0x11086, name: "KAITHI LETTER II", aliases: &[] },
        Codepoint { codepoint: 0x11087, name: "KAITHI LETTER U", aliases: &[] },
        Codepoint { codepoint: 0x11088, name: "KAITHI LETTER UU", aliases: &[] },
        Codepoint { codepoint: 0x11089, name: "KAITHI LETTER E", aliases: &[] },
        Codepoint { codepoint: 0x1108A, name: "KAITHI LETTER AI", aliases: &[] },
    ];
    assert(v@ =~= codepoint_table_491());
    v
}

pub open spec fn codepoint_table_492() -> Seq<Codepoint> {
    seq![
        Codepoint { codepoint: 0x1108B, name: "KAITHI LETTER O", aliases: &[] },
        Codepoint { codepoint: 0x1108C, name: "KAITHI LETTER AU", aliases: &[] },
        Codepoint { codepoint: 0x1108D, name: "KAITHI LETTER KA", aliases: &[] },
        Codepoint { codepoint: 0x1108E, name: "KAITHI LETTER KHA", aliases: &[] },
        Codepoint { codepoint: 0x1108F, name: "KAITHI LETTER GA", aliases: &[] },
        Codepoint { codepoint: 0x11090, name: "KAITHI LETTER GHA", aliases: &[] },
        Codepoint { codepoint: 0x11091, name: "KAITHI LETTER NGA", aliases: &[] },
        Codepoint { codepoint: 0x11092, name: "KAITHI LETTER CA", aliases: &[] },
        Codepoint { codepoint: 0x11093, name: "KAITHI LETTER CHA", aliases: &[] },
        Codepoint { codepoint: 0x11094, name: "KAITHI LETTER JA", aliases: &[] },
        Codepoint { codepoint: 0x11095, name: "KAITHI LETTER JHA", aliases: &[] },
        Codepoint { codepoint: 0x11096, name: "KAITHI LETTER NYA", aliases: &[] },
        Codepoint { codepoint: 0x11097, name: "KAITHI LETTER TTA", aliases: &[] },
        Codepoint { codepoint: 0x11098, name: "KAITHI LETTER TTHA", aliases: &[] },
        Codepoint { codepoint: 0x11099, name: "KAITHI LETTER DDA", aliases: &[] },
        Codepoint { codepoint: 0x1109A, name: "KAITHI LETTER DDDHA", aliases: &[] },
        Codepoint { codepoint: 0x1109B, name: "KAITHI LETTER DDHA", aliases: &[] },
        Codepoint { codepoint: 0x1109C, name: "KAITHI LETTER RHA", aliases: &[] },
        Codepoint { codepoint: 0x1109D, name: "KAITHI LETTER NNA", aliases: &[] },
        Codepoint { codepoint: 0x1109E, name: "KAITHI LETTER TA", aliases: &[] },
        Codepoint { codepoint: 0x1109F, name: "KAITHI LETTER THA", aliases: &[] },
        Codepoint { codepoint: 0x110A0, name: "KAITHI LETTER DA", aliases: &[] },
        Codepoint { codepoint: 0x110A1, name: "KAITHI LETTER DHA", aliases: &[] },
        Codepoint { codepoint: 0x110A2, name: "KAITHI LETTER NA", aliases: &[] },
        Codepoint { codepoint: 0x110A3, name: "KAITHI LETTER PA", aliases: &[] },
        Codepoint { codepoint: 0x110A4, name: "KAITHI LETTER PHA", aliases: &[] },
        Codepoint { codepoint: 0x110A5, name: "KAITHI LETTER BA", aliases: &[] },
        Codepoint { codepoint: 0x110A6, name: "KAITHI LETTER BHA", aliases: &[] },
        Codepoint { codepoint: 0x110A7, name: "KAITHI LETTER MA", aliases: &[] },
        Codepoint { codepoint: 0x110A8, name: "KAITHI LETTER YA", aliases: &[] },
        Codepoint { codepoint: 0x110A9, name: "KAITHI LETTER RA", aliases: &[] },
        Codepoint { codepoint: 0x110AA, name: "KAITHI LETTER LA", aliases: &[] },
        Codepoint { codepoint: 0x110AB, name: "KAITHI LETTER VA", aliases: &[] },
        Codepoint { codepoint: 0x110AC, name: "KAITHI LETTER SHA", aliases: &[] },
        Codepoint { codepoint: 0x110AD, name: "KAITHI LETTER SSA", aliases: &[] },
        Codepoint { codepoint: 0x110AE, name: "KAITHI LETTER SA", aliases: &[] },
        Codepoint { codepoint: 0x110AF, name: "KAITHI LETTER HA", aliases: &[] },
        Codepoint { codepoint: 0x110B0, name: "KAITHI VOWEL SIGN AA", aliases: &[] },
        Codepoint { codepoint: 0x110B1, name: "KAITHI VOWEL SIGN I", aliases: &[] },
        Codepoint { codepoint: 0x110B2, name: "KAITHI VOWEL SIGN II", aliases: &[] },
    ]
}

fn all_codepoints_492() -> (v: Vec<Codepoint>)
    ensures
        v@ == codepoint_table_492(),
{
    let v = vec![
        Codepoint { codepoint: 0x1108B, name: "KAITHI LETTER O", aliases: &[] },
        Codepoint { codepoint: 0x1108C, name: "KAITHI LETTER AU", aliases: &[] },
        Codepoint { codepoint: 0x1108D, name: "KAITHI LETTER KA", aliases: &[] },
        Codepoint { codepoint: 0x1108E, name: "KAITHI LETTER KHA", aliases: &[] },
        Codepoint { codepoint: 0x1108F, name: "KAITHI LETTER GA", aliases: &[] },
        Codepoint { codepoint: 0x11090, name: "KAITHI LETTER GHA", aliases: &[] },
        Codepoint { codepoint: 0x11091, name: "KAITHI LETTER NGA", aliases: &[] },
        Codepoint { codepoint: 0x11092, name: "KAITHI LETTER CA", aliases: &[] },
        Codepoint { codepoint: 0x11093, name: "KAITHI LETTER CHA", aliases: &[] },
        Codepoint { codepoint: 0x11094, name: "KAITHI LETTER JA", aliases: &[] },
        Codepoint { codepoint: 0x11095, name: "KAITHI LETTER JHA", aliases: &[] },
        Codepoint { codepoint: 0x11096, name: "KAITHI LETTER NYA", aliases: &[] },
        Codepoint { codepoint: 0x11097, name: "KAITHI LETTER TTA", aliases: &[] },
        Codepoint { codepoint: 0x11098, name: "KAITHI LETTER TTHA", aliases: &[] },
        Codepoint { codepoint: 0x11099, name: "KAITHI LETTER DDA", aliases: &[] },
        Codepoint { codepoint: 0x1109A, name: "KAITHI LETTER DDDHA", aliases: &[] },
        Codepoint { codepoint: 0x1109B, name: "KAITHI LETTER DDHA", aliases: &[] },
        Codepoint { codepoint: 0x1109C, name: "KAITHI LETTER RHA", aliases: &[] },
        Codepoint { codepoint: 0x1109D, name: "KAITHI LETTER NNA", aliases: &[] },
        Codepoint { codepoint: 0x1109E, name: "KAITHI LETTER TA", aliases: &[] },
        Codepoint { codepoint: 0x1109F, name: "KAITHI LETTER THA", aliases: &[] },
        Codepoint { codepoint: 0x110A0, name: "KAITHI LETTER DA", aliases: &[] },
        Codepoint { codepoint: 0x110A1, name: "KAITHI LETTER DHA", aliases: &[] },
        Codepoint { codepoint: 0x110A2, name: "KAITHI LETTER NA", aliases: &[] },
        Codepoint { codepoint: 0x110A3, name: "KAITHI LETTER PA", aliases: &[] },
        Codepoint { codepoint: 0x110A4, name: "KAITHI LETTER PHA", aliases: &[] },
        Codepoint { codepoint: 0x110A5, name: "KAITHI LETTER BA", aliases: &[] },
        Codepoint { codepoint: 0x110A6, name: "KAITHI LETTER BHA", aliases: &[] },
        Codepoint { codepoint: 0x110A7, name: "KAITHI LETTER MA", aliases: &[] },
        Codepoint { codepoint: 0x110A8, name: "KAITHI LETTER YA", aliases: &[] },
        Codepoint { codepoint: 0x110A9, name: "KAITHI LETTER RA", aliases: &[] },
        Codepoint { codepoint: 0x110AA, name: "KAITHI LETTER LA", aliases: &[] },
        Codepoint { codepoint: 0x110AB, name: "KAITHI LETTER VA", aliases: &[] },
        Codepoint { codepoint: 0x110AC, name: "KAITHI LETTER SHA", aliases: &[] },
        Codepoint { codepoint: 0x110AD, name: "KAITHI LETTER SSA", aliases: &[] },
        Codepoint { codepoint: 0x110AE, name: "KAITHI LETTER SA", aliases: &[] },
        Codepoint { codepoint: 0x110AF, name: "KAITHI LETTER HA", aliases: &[] },
        Codepoint { codepoint: 0x110B0, name: "KAITHI VOWEL SIGN AA", aliases: &[] },
        Codepoint { codepoint: 0x110B1, name: "KAITHI VOWEL SIGN I", aliases: &[] },
        Codepoint { codepoint: 0x110B2, name: "KAITHI VOWEL SIGN II", aliases: &[] },
    ];
    assert(v@ =~= codepoint_table_492());
    v
}

pub open spec fn codepoint_table_493() -> Seq<Codepoint> {
    seq![
        Codepoint { codepoint: 0x110B3, name: "KAITHI VOWEL SIGN U", aliases: &[] },
        Codepoint { codepoint: 0x110B4, name: "KAITHI VOWEL SIGN UU", aliases: &[] },
        Codepoint { codepoint: 0x110B5, name: "KAITHI VOWEL SIGN E", aliases: &[] },
        Codepoint { codepoint: 0x110B6, name: "KAITHI VOWEL SIGN AI", aliases: &[] },
        Codepoint { codepoint: 0x110B7, name: "KAITHI VOWEL SIGN O", aliases: &[] },
        Codepoint { codepoint: 0x110B8, name: "KAITHI VOWEL SIGN AU", aliases: &[] },
        Codepoint { codepoint: 0x110B9, name: "KAITHI SIGN VIRAMA", aliases: &[] },
        Codepoint { codepoint: 0x110BA, name: "KAITHI SIGN NUKTA", aliases: &[] },
        Codepoint { codepoint: 0x110BB, name: "KAITHI ABBREVIATION SIGN", aliases: &[] },
        Codepoint { codepoint: 0x110BC, name: "KAITHI ENUMERATION SIGN", aliases: &[] },
        Codepoint { codepoint: 0x110BD, name: "KAITHI NUMBER SIGN", aliases: &[] },
        Codepoint { codepoint: 0x110BE, name: "KAITHI SECTION MARK", aliases: &[] },
        Codepoint { codepoint: 0x110BF, name: "KAITHI DOUBLE SECTION MARK", aliases: &[] },
        Codepoint { codepoint: 0x110C0, name: "KAITHI DANDA", aliases: &[] },
        Codepoint { codepoint: 0x110C1, name: "KAITHI DOUBLE DANDA", aliases: &[] },
        Codepoint { codepoint: 0x110C2, name: "KAITHI VOWEL SIGN VOCALIC R", aliases: &[] },
        Codepoint { codepoint: 0x110CD, name: "KAITHI NUMBER SIGN ABOVE", aliases: &[] },
        Codepoint { codepoint: 0x110D0, name: "SORA SOMPENG LETTER SAH", aliases: &[] },
        Codepoint { codepoint: 0x110D1, name: "SORA SOMPENG LETTER TAH", aliases: &[] },
        Codepoint { codepoint: 0x110D2, name: "SORA SOMPENG LETTER BAH", aliases: &[] },
        Codepoint { codepoint: 0x110D3, name: "SORA SOMPENG LETTER CAH", aliases: &[] },
        Codepoint { codepoint: 0x110D4, name: "SORA SOMPENG LETTER DAH", aliases: &[] },
        Codepoint { codepoint: 0x110D5, name: "SORA SOMPENG LETTER GAH", aliases: &[] },
        Codepoint { codepoint: 0x110D6, name: "SORA SOMPENG LETTER MAH", aliases: &[] },
        Codepoint { codepoint: 0x110D7, name: "SORA SOMPENG LETTER NGAH", aliases: &[] },
        Codepoint { codepoint: 0x110D8, name: "SORA SOMPENG LETTER LAH", aliases: &[] },
        Codepoint { codepoint: 0x110D9, name: "SORA SOMPENG LETTER NAH", aliases: &[] },
        Codepoint { codepoint: 0x110DA, name: "SORA SOMPENG LETTER VAH", aliases: &[] },
        Codepoint { codepoint: 0x110DB, name: "SORA SOMPENG LETTER PAH", aliases: &[] },
        Codepoint { codepoint: 0x110DC, name: "SORA SOMPENG LETTER YAH", aliases: &[] },
        Codepoint { codepoint: 0x110DD, name: "SORA SOMPENG LETTER RAH", aliases: &[] },
        Codepoint { codepoint: 0x110DE, name: "SORA SOMPENG LETTER HAH", aliases: &[] },
        Codepoint { codepoint: 0x110DF, name: "SORA SOMPENG LETTER KAH", aliases: &[] },
        Codepoint { codepoint: 0x110E0, name: "SORA SOMPENG LETTER JAH", aliases: &[] },
        Codepoint { codepoint: 0x110E1, name: "SORA SOMPENG LETTER NYAH", aliases: &[] },
        Codepoint { codepoint: 0x110E2, name: "SORA SOMPENG LETTER AH", aliases: &[] },
        Codepoint { codepoint: 0x110E3, name: "SORA SOMPENG LETTER EEH", aliases: &[] },
        Codepoint { codepoint: 0x110E4, name: "SORA SOMPENG LETTER IH", aliases: &[] },
        Codepoint { codepoint: 0x110E5, name: "SORA SOMPENG LETTER UH", aliases: &[] },
        Codepoint { codepoint: 0x110E6, name: "SORA SOMPENG LETTER OH", aliases: &[] },
    ]
}

fn all_codepoints_493() -> (v: Vec<Codepoint>)
    ensures
        v@ == codepoint_table_493(),
{
    let v = vec![
        Codepoint { codepoint: 0x110B3, name: "KAITHI VOWEL SIGN U", aliases: &[] },
        Codepoint { codepoint: 0x110B4, name: "KAITHI VOWEL SIGN UU", aliases: &[] },
        Codepoint { codepoint: 0x110B5, name: "KAITHI VOWEL SIGN E", aliases: &[] },
        Codepoint { codepoint: 0x110B6, name: "KAITHI VOWEL SIGN AI", aliases: &[] },
        Codepoint { codepoint: 0x110B7, name: "KAITHI VOWEL SIGN O", aliases: &[] },
        Codepoint { codepoint: 0x110B8, name: "KAITHI VOWEL SIGN AU", aliases: &[] },
        Codepoint { codepoint: 0x110B9, name: "KAITHI SIGN VIRAMA", aliases: &[] },
        Codepoint { codepoint: 0x110BA, name: "KAITHI SIGN NUKTA", aliases: &[] },
        Codepoint { codepoint: 0x110BB, name: "KAITHI ABBREVIATION SIGN", aliases: &[] },
        Codepoint { codepoint: 0x110BC, name: "KAITHI ENUMERATION SIGN", aliases: &[] },
        Codepoint { codepoint: 0x110BD, name: "KAITHI NUMBER SIGN", aliases: &[] },
        Codepoint { codepoint: 0x110BE, name: "KAITHI SECTION MARK", aliases: &[] },
        Codepoint { codepoint: 0x110BF, name: "KAITHI DOUBLE SECTION MARK", aliases: &[] },
        Codepoint { codepoint: 0x110C0, name: "KAITHI DANDA", aliases: &[] },
        Codepoint { codepoint: 0x110C1, name: "KAITHI DOUBLE DANDA", aliases: &[] },
        Codepoint { codepoint: 0x110C2, name: "KAITHI VOWEL SIGN VOCALIC R", aliases: &[] },
        Codepoint { codepoint: 0x110CD, name: "KAITHI NUMBER SIGN ABOVE", aliases: &[] },
        Codepoint { codepoint: 0x110D0, name: "SORA SOMPENG LETTER SAH", aliases: &[] },
        Codepoint { codepoint: 0x110D1, name: "SORA SOMPENG LETTER TAH", aliases: &[] },
        Codepoint { codepoint: 0x110D2, name: "SORA SOMPENG LETTER BAH", aliases: &[] },
        Codepoint { codepoint: 0x110D3, name: "SORA SOMPENG LETTER CAH", aliases: &[] },
        Codepoint { codepoint: 0x110D4, name: "SORA SOMPENG LETTER DAH", aliases: &[] },
        Codepoint { codepoint: 0x110D5, name: "SORA SOMPENG LETTER GAH", aliases: &[] },
        Codepoint { codepoint: 0x110D6, name: "SORA SOMPENG LETTER MAH", aliases: &[] },
        Codepoint { codepoint: 0x110D7, name: "SORA SOMPENG LETTER NGAH", aliases: &[] },
        Codepoint { codepoint: 0x110D8, name: "SORA SOMPENG LETTER LAH", aliases: &[] },
        Codepoint { codepoint: 0x110D9, name: "SORA SOMPENG LETTER NAH", aliases: &[] },
        Codepoint { codepoint: 0x110DA, name: "SORA SOMPENG LETTER VAH", aliases: &[] },
        Codepoint { codepoint: 0x110DB, name: "SORA SOMPENG LETTER PAH", aliases: &[] },
        Codepoint { codepoint: 0x110DC, name: "SORA SOMPENG LETTER YAH", aliases: &[] },
        Codepoint { codepoint: 0x110DD, name: "SORA SOMPENG LETTER RAH", aliases: &[] },
        Codepoint { codepoint: 0x110DE, name: "SORA SOMPENG LETTER HAH", aliases: &[] },
        Codepoint { codepoint: 0x110DF, name: "SORA SOMPENG LETTER KAH", aliases: &[] },
        Codepoint { codepoint: 0x110E0, name: "SORA SOMPENG LETTER JAH", aliases: &[] },
        Codepoint { codepoint: 0x110E1, name: "SORA SOMPENG LETTER NYAH", aliases: &[] },
        Codepoint { codepoint: 0x110E2, name: "SORA SOMPENG LETTER AH", aliases: &[] },
        Codepoint { codepoint: 0x110E3, name: "SORA SOMPENG LETTER EEH", aliases: &[] },
        Codepoint { codepoint: 0x110E4, name: "SORA SOMPENG LETTER IH", aliases: &[] },
        Codepoint { codepoint: 0x110E5, name: "SORA SOMPENG LETTER UH", aliases: &[] },
        Codepoint { codepoint: 0x110E6, name: "SORA SOMPENG LETTER OH", aliases: &[] },
    ];
    assert(v@ =~= codepoint_table_493());
    v
}

pub open spec fn codepoint_table_494() -> Seq<Codepoint> {
    seq![
        Codepoint { codepoint: 0x110E7, name: "SORA SOMPENG LETTER EH", aliases: &[] },
        Codepoint { codepoint: 0x110E8, name: "SORA SOMPENG LETTER MAE", aliases: &[] },
        Codepoint { codepoint: 0x110F0, name: "SORA SOMPENG DIGIT ZERO", aliases: &[] },
        Codepoint { codepoint: 0x110F1, name: "SORA SOMPENG DIGIT ONE", aliases: &[] },
        Codepoint { codepoint: 0x110F2, name: "SORA SOMPENG DIGIT TWO", aliases: &[] },
        Codepoint { codepoint: 0x110F3, name: "SORA SOMPENG DIGIT THREE", aliases: &[] },
        Codepoint { codepoint: 0x110F4, name: "SORA SOMPENG DIGIT FOUR", aliases: &[] },
        Codepoint { codepoint: 0x110F5, name: "SORA SOMPENG DIGIT FIVE", aliases: &[] },
        Codepoint { codepoint: 0x110F6, name: "SORA SOMPENG DIGIT SIX", aliases: &[] },
        Codepoint { codepoint: 0x110F7, name: "SORA SOMPENG DIGIT SEVEN", aliases: &[] },
        Codepoint { codepoint: 0x110F8, name: "SORA SOMPENG DIGIT EIGHT", aliases: &[] },
        Codepoint { codepoint: 0x110F9, name: "SORA SOMPENG DIGIT NINE", aliases: &[] },
        Codepoint { codepoint: 0x11100, name: "CHAKMA SIGN CANDRABINDU", aliases: &[] },
        Codepoint { codepoint: 0x11101, name: "CHAKMA SIGN ANUSVARA", aliases: &[] },
        Codepoint { codepoint: 0x11102, name: "CHAKMA SIGN VISARGA", aliases: &[] },
        Codepoint { codepoint: 0x11103, name: "CHAKMA LETTER AA", aliases: &[] },
        Codepoint { codepoint: 0x11104, name: "CHAKMA LETTER I", aliases: &[] },
        Codepoint { codepoint: 0x11105, name: "CHAKMA LETTER U", aliases: &[] },
        Codepoint { codepoint: 0x11106, name: "CHAKMA LETTER E", aliases: &[] },
        Codepoint { codepoint: 0x11107, name: "CHAKMA LETTER KAA", aliases: &[] },
        Codepoint { codepoint: 0x11108, name: "CHAKMA LETTER KHAA", aliases: &[] },
        Codepoint { codepoint: 0x11109, name: "CHAKMA LETTER GAA", aliases: &[] },
        Codepoint { codepoint: 0x1110A, name: "CHAKMA LETTER GHAA", aliases: &[] },
        Codepoint { codepoint: 0x1110B, name: "CHAKMA LETTER NGAA", aliases: &[] },
        Codepoint { codepoint: 0x1110C, name: "CHAKMA LETTER CAA", aliases: &[] },
        Codepoint { codepoint: 0x1110D, name: "CHAKMA LETTER CHAA", aliases: &[] },
        Codepoint { codepoint: 0x1110E, name: "CHAKMA LETTER JAA", aliases: &[] },
        Codepoint { codepoint: 0x1110F, name: "CHAKMA LETTER JHAA", aliases: &[] },
        Codepoint { codepoint: 0x11110, name: "CHAKMA LETTER NYAA", aliases: &[] },
        Codepoint { codepoint: 0x11111, name: "CHAKMA LETTER TTAA", aliases: &[] },
        Codepoint { codepoint: 0x11112, name: "CHAKMA LETTER TTHAA", aliases: &[] },
        Codepoint { codepoint: 0x11113, name: "CHAKMA LETTER DDAA", aliases: &[] },
        Codepoint { codepoint: 0x11114, name: "CHAKMA LETTER DDHAA", aliases: &[] },
        Codepoint { codepoint: 0x11115, name: "CHAKMA LETTER NNAA", aliases: &[] },
        Codepoint { codepoint: 0x11116, name: "CHAKMA LETTER TAA", aliases: &[] },
        Codepoint { codepoint: 0x11117, name: "CHAKMA LETTER THAA", aliases: &[] },
        Codepoint { codepoint: 0x11118, name: "CHAKMA LETTER DAA", aliases: &[] },
        Codepoint { codepoint: 0x11119, name: "CHAKMA LETTER DHAA", aliases: &[] },
        Codepoint { codepoint: 0x1111A, name: "CHAKMA LETTER NAA", aliases: &[] },
        Codepoint { codepoint: 0x1111B, name: "CHAKMA LETTER PAA", aliases: &[] },
    ]
}

fn all_codepoints_494() -> (v: Vec<Codepoint>)
    ensures
        v@ == codepoint_table_494(),
{
    let v = vec![
        Codepoint { codepoint: 0x110E7, name: "SORA SOMPENG LETTER EH", aliases: &[] },
        Codepoint { codepoint: 0x110E8, name: "SORA SOMPENG LETTER MAE", aliases: &[] },
        Codepoint { codepoint: 0x110F0, name: "SORA SOMPENG DIGIT ZERO", aliases: &[] },
        Codepoint { codepoint: 0x110F1, name: "SORA SOMPENG DIGIT ONE", aliases: &[] },
        Codepoint { codepoint: 0x110F2, name: "SORA SOMPENG DIGIT TWO", aliases: &[] },
        Codepoint { codepoint: 0x110F3, name: "SORA SOMPENG DIGIT THREE", aliases: &[] },
        Codepoint { codepoint: 0x110F4, name: "SORA SOMPENG DIGIT FOUR", aliases: &[] },
        Codepoint { codepoint: 0x110F5, name: "SORA SOMPENG DIGIT FIVE", aliases: &[] },
        Codepoint { codepoint: 0x110F6, name: "SORA SOMPENG DIGIT SIX", aliases: &[] },
        Codepoint { codepoint: 0x110F7, name: "SORA SOMPENG DIGIT SEVEN", aliases: &[] },
        Codepoint { codepoint: 0x110F8, name: "SORA SOMPENG DIGIT EIGHT", aliases: &[] },
        Codepoint { codepoint: 0x110F9, name: "SORA SOMPENG DIGIT NINE", aliases: &[] },
        Codepoint { codepoint: 0x11100, name: "CHAKMA SIGN CANDRABINDU", aliases: &[] },
        Codepoint { codepoint: 0x11101, name: "CHAKMA SIGN ANUSVARA", aliases: &[] },
        Codepoint { codepoint: 0x11102, name: "CHAKMA SIGN VISARGA", aliases: &[] },
        Codepoint { codepoint: 0x11103, name: "CHAKMA LETTER AA", aliases: &[] },
        Codepoint { codepoint: 0x11104, name: "CHAKMA LETTER I", aliases: &[] },
        Codepoint { codepoint: 0x11105, name: "CHAKMA LETTER U", aliases: &[] },
        Codepoint { codepoint: 0x11106, name: "CHAKMA LETTER E", aliases: &[] },
        Codepoint { codepoint: 0x11107, name: "CHAKMA LETTER KAA", aliases: &[] },
        Codepoint { codepoint: 0x11108, name: "CHAKMA LETTER KHAA", aliases: &[] },
        Codepoint { codepoint: 0x11109, name: "CHAKMA LETTER GAA", aliases: &[] },
        Codepoint { codepoint: 0x1110A, name: "CHAKMA LETTER GHAA", aliases: &[] },
        Codepoint { codepoint: 0x1110B, name: "CHAKMA LETTER NGAA", aliases: &[] },
        Codepoint { codepoint: 0x1110C, name: "CHAKMA LETTER CAA", aliases: &[] },
        Codepoint { codepoint: 0x1110D, name: "CHAKMA LETTER CHAA", aliases: &[] },
        Codepoint { codepoint: 0x1110E, name: "CHAKMA LETTER JAA", aliases: &[] },
        Codepoint { codepoint: 0x1110F, name: "CHAKMA LETTER JHAA", aliases: &[] },
        Codepoint { codepoint: 0x11110, name: "CHAKMA LETTER NYAA", aliases: &[] },
        Codepoint { codepoint: 0x11111, name: "CHAKMA LETTER TTAA", aliases: &[] },
        Codepoint { codepoint: 0x11112, name: "CHAKMA LETTER TTHAA", aliases: &[] },
        Codepoint { codepoint: 0x11113, name: "CHAKMA LETTER DDAA", aliases: &[] },
        Codepoint { codepoint: 0x11114, name: "CHAKMA LETTER DDHAA", aliases: &[] },
        Codepoint { codepoint: 0x11115, name: "CHAKMA LETTER NNAA", aliases: &[] },
        Codepoint { codepoint: 0x11116, name: "CHAKMA LETTER TAA", aliases: &[] },
        Codepoint { codepoint: 0x11117, name: "CHAKMA LETTER THAA", aliases: &[] },
        Codepoint { codepoint: 0x11118, name: "CHAKMA LETTER DAA", aliases: &[] },
        Codepoint { codepoint: 0x11119, name: "CHAKMA LETTER DHAA", aliases: &[] },
        Codepoint { codepoint: 0x1111A, name: "CHAKMA LETTER NAA", aliases: &[] },
        Codepoint { codepoint: 0x1111B, name: "CHAKMA LETTER PAA", aliases: &[] },
    ];
    assert(v@ =~= codepoint_table_494());
    v
}

pub open spec fn codepoint_table_495() -> Seq<Codepoint> {
    seq![
        Codepoint { codepoint: 0x1111C, name: "CHAKMA LETTER PHAA", aliases: &[] },
        Codepoint { codepoint: 0x1111D, name: "CHAKMA LETTER BAA", aliases: &[] },
        Codepoint { codepoint: 0x1111E, name: "CHAKMA LETTER BHAA", aliases: &[] },
        Codepoint { codepoint: 0x1111F, name: "CHAKMA LETTER MAA", aliases: &[] },
        Codepoint { codepoint: 0x11120, name: "CHAKMA LETTER YYAA", aliases: &[] },
        Codepoint { codepoint: 0x11121, name: "CHAKMA LETTER YAA", aliases: &[] },
        Codepoint { codepoint: 0x11122, name: "CHAKMA LETTER RAA", aliases: &[] },
        Codepoint { codepoint: 0x11123, name: "CHAKMA LETTER LAA", aliases: &[] },
        Codepoint { codepoint: 0x11124, name: "CHAKMA LETTER WAA", aliases: &[] },
        Codepoint { codepoint: 0x11125, name: "CHAKMA LETTER SAA", aliases: &[] },
        Codepoint { codepoint: 0x11126, name: "CHAKMA LETTER HAA", aliases: &[] },
        Codepoint { codepoint: 0x11127, name: "CHAKMA VOWEL SIGN A", aliases: &[] },
        Codepoint { codepoint: 0x11128, name: "CHAKMA VOWEL SIGN I", aliases: &[] },
        Codepoint { codepoint: 0x11129, name: "CHAKMA VOWEL SIGN II", aliases: &[] },
        Codepoint { codepoint: 0x1112A, name: "CHAKMA VOWEL SIGN U", aliases: &[] },
        Codepoint { codepoint: 0x1112B, name: "CHAKMA VOWEL SIGN UU", aliases: &[] },
        Codepoint { codepoint: 0x1112C, name: "CHAKMA VOWEL SIGN E", aliases: &[] },
        Codepoint { codepoint: 0x1112D, name: "CHAKMA VOWEL SIGN AI", aliases: &[] },
        Codepoint { codepoint: 0x1112E, name: "CHAKMA VOWEL SIGN O", aliases: &[] },
        Codepoint { codepoint: 0x1112F, name: "CHAKMA VOWEL SIGN AU", aliases: &[] },
        Codepoint { codepoint: 0x11130, name: "CHAKMA VOWEL SIGN OI", aliases: &[] },
        Codepoint { codepoint: 0x11131, name: "CHAKMA O MARK", aliases: &[] },
        Codepoint { codepoint: 0x11132, name: "CHAKMA AU MARK", aliases: &[] },
        Codepoint { codepoint: 0x11133, name: "CHAKMA VIRAMA", aliases: &[] },
        Codepoint { codepoint: 0x11134, name: "CHAKMA MAAYYAA", aliases: &[] },
        Codepoint { codepoint: 0x11136, name: "CHAKMA DIGIT ZERO", aliases: &[] },
        Codepoint { codepoint: 0x11137, name: "CHAKMA DIGIT ONE", aliases: &[] },
        Codepoint { codepoint: 0x11138, name: "CHAKMA DIGIT TWO", aliases: &[] },
        Codepoint { codepoint: 0x11139, name: "CHAKMA DIGIT THREE", aliases: &[] },
        Codepoint { codepoint: 0x1113A, name: "CHAKMA DIGIT FOUR", aliases: &[] },
        Codepoint { codepoint: 0x1113B, name: "CHAKMA DIGIT FIVE", aliases: &[] },
        Codepoint { codepoint: 0x1113C, name: "CHAKMA DIGIT SIX", aliases: &[] },
        Codepoint { codepoint: 0x1113D, name: "CHAKMA DIGIT SEVEN", aliases: &[] },
        Codepoint { codepoint: 0x1113E, name: "CHAKMA DIGIT EIGHT", aliases: &[] },
        Codepoint { codepoint: 0x1113F, name: "CHAKMA DIGIT NINE", aliases: &[] },
        Codepoint { codepoint: 0x11140, name: "CHAKMA SECTION MARK", aliases: &[] },
        Codepoint { codepoint: 0x11141, name: "CHAKMA DANDA", aliases: &[] },
        Codepoint { codepoint: 0x11142, name: "CHAKMA DOUBLE DANDA", aliases: &[] },
        Codepoint { codepoint: 0x11143, name: "CHAKMA QUESTION MARK", aliases: &[] },
        Codepoint { codepoint: 0x11144, name: "CHAKMA LETTER LHAA", aliases: &[] },
    ]
}

fn all_codepoints_495() -> (v: Vec<Codepoint>)
    ensures
        v@ == codepoint_table_495(),
{
    let v = vec![
        Codepoint { codepoint: 0x1111C, name: "CHAKMA LETTER PHAA", aliases: &[] },
        Codepoint { codepoint: 0x1111D, name: "CHAKMA LETTER BAA", aliases: &[] },
        Codepoint { codepoint: 0x1111E, name: "CHAKMA LETTER BHAA", aliases: &[] },
        Codepoint { codepoint: 0x1111F, name: "CHAKMA LETTER MAA", aliases: &[] },
        Codepoint { codepoint: 0x11120, name: "CHAKMA LETTER YYAA", aliases: &[] },
        Codepoint { codepoint: 0x11121, name: "CHAKMA LETTER YAA", aliases: &[] },
        Codepoint { codepoint: 0x11122, name: "CHAKMA LETTER RAA", aliases: &[] },
        Codepoint { codepoint: 0x11123, name: "CHAKMA LETTER LAA", aliases: &[] },
        Codepoint { codepoint: 0x11124, name: "CHAKMA LETTER WAA", aliases: &[] },
        Codepoint { codepoint: 0x11125, name: "CHAKMA LETTER SAA", aliases: &[] },
        Codepoint { codepoint: 0x11126, name: "CHAKMA LETTER HAA", aliases: &[] },
        Codepoint { codepoint: 0x11127, name: "CHAKMA VOWEL SIGN A", aliases: &[] },
        Codepoint { codepoint: 0x11128, name: "CHAKMA VOWEL SIGN I", aliases: &[] },
        Codepoint { codepoint: 0x11129, name: "CHAKMA VOWEL SIGN II", aliases: &[] },
        Codepoint { codepoint: 0x1112A, name: "CHAKMA VOWEL SIGN U", aliases: &[] },
        Codepoint { codepoint: 0x1112B, name: "CHAKMA VOWEL SIGN UU", aliases: &[] },
        Codepoint { codepoint: 0x1112C, name: "CHAKMA VOWEL SIGN E", aliases: &[] },
        Codepoint { codepoint: 0x1112D, name: "CHAKMA VOWEL SIGN AI", aliases: &[] },
        Codepoint { codepoint: 0x1112E, name: "CHAKMA VOWEL SIGN O", aliases: &[] },
        Codepoint { codepoint: 0x1112F, name: "CHAKMA VOWEL SIGN AU", aliases: &[] },
        Codepoint { codepoint: 0x11130, name: "CHAKMA VOWEL SIGN OI", aliases: &[] },
        Codepoint { codepoint: 0x11131, name: "CHAKMA O MARK", aliases: &[] },
        Codepoint { codepoint: 0x11132, name: "CHAKMA AU MARK", aliases: &[] },
        Codepoint { codepoint: 0x11133, name: "CHAKMA VIRAMA", aliases: &[] },
        Codepoint { codepoint: 0x11134, name: "CHAKMA MAAYYAA", aliases: &[] },
        Codepoint { codepoint: 0x11136, name: "CHAKMA DIGIT ZERO", aliases: &[] },
        Codepoint { codepoint: 0x11137, name: "CHAKMA DIGIT ONE", aliases: &[] },
        Codepoint { codepoint: 0x11138, name: "CHAKMA DIGIT TWO", aliases: &[] },
        Codepoint { codepoint: 0x11139, name: "CHAKMA DIGIT THREE", aliases: &[] },
        Codepoint { codepoint: 0x1113A, name: "CHAKMA DIGIT FOUR", aliases: &[] },
        Codepoint { codepoint: 0x1113B, name: "CHAKMA DIGIT FIVE", aliases: &[] },
        Codepoint { codepoint: 0x1113C, name: "CHAKMA DIGIT SIX", aliases: &[] },
        Codepoint { codepoint: 0x1113D, name: "CHAKMA DIGIT SEVEN", aliases: &[] },
        Codepoint { codepoint: 0x1113E, name: "CHAKMA DIGIT EIGHT", aliases: &[] },
        Codepoint { codepoint: 0x1113F, name: "CHAKMA DIGIT NINE", aliases: &[] },
        Codepoint { codepoint: 0x11140, name: "CHAKMA SECTION MARK", aliases: &[] },
        Codepoint { codepoint: 0x11141, name: "CHAKMA DANDA", aliases: &[] },
        Codepoint { codepoint: 0x11142, name: "CHAKMA DOUBLE DANDA", aliases: &[] },
        Codepoint { codepoint: 0x11143, name: "CHAKMA QUESTION MARK", aliases: &[] },
        Codepoint { codepoint: 0x11144, name: "CHAKMA LETTER LHAA", aliases: &[] },
    ];
    assert(v@ =~= codepoint_table_495());
    v
}

pub open spec fn codepoint_table_496() -> Seq<Codepoint> {
    seq![
        Codepoint { codepoint: 0x11145, name: "CHAKMA VOWEL SIGN AA", aliases: &[] },
        Codepoint { codepoint: 0x11146, name: "CHAKMA VOWEL SIGN EI", aliases: &[] },
        Codepoint { codepoint: 0x11147, name: "CHAKMA LETTER VAA", aliases: &[] },
        Codepoint { codepoint: 0x11150, name: "MAHAJANI LETTER A", aliases: &[] },
        Codepoint { codepoint: 0x11151, name: "MAHAJANI LETTER I", aliases: &[] },
        Codepoint { codepoint: 0x11152, name: "MAHAJANI LETTER U", aliases: &[] },
        Codepoint { codepoint: 0x11153, name: "MAHAJANI LETTER E", aliases: &[] },
        Codepoint { codepoint: 0x11154, name: "MAHAJANI LETTER O", aliases: &[] },
        Codepoint { codepoint: 0x11155, name: "MAHAJANI LETTER KA", aliases: &[] },
        Codepoint { codepoint: 0x11156, name: "MAHAJANI LETTER KHA", aliases: &[] },
        Codepoint { codepoint: 0x11157, name: "MAHAJANI LETTER GA", aliases: &[] },
        Codepoint { codepoint: 0x11158, name: "MAHAJANI LETTER GHA", aliases: &[] },
        Codepoint { codepoint: 0x11159, name: "MAHAJANI LETTER CA", aliases: &[] },
        Codepoint { codepoint: 0x1115A, name: "MAHAJANI LETTER CHA", aliases: &[] },
        Codepoint { codepoint: 0x1115B, name: "MAHAJANI LETTER JA", aliases: &[] },
        Codepoint { codepoint: 0x1115C, name: "MAHAJANI LETTER JHA", aliases: &[] },
        Codepoint { codepoint: 0x1115D, name: "MAHAJANI LETTER NYA", aliases: &[] },
        Codepoint { codepoint: 0x1115E, name: "MAHAJANI LETTER TTA", aliases: &[] },
        Codepoint { codepoint: 0x1115F, name: "MAHAJANI LETTER TTHA", aliases: &[] },
        Codepoint { codepoint: 0x11160, name: "MAHAJANI LETTER DDA", aliases: &[] },
        Codepoint { codepoint: 0x11161, name: "MAHAJANI LETTER DDHA", aliases: &[] },
        Codepoint { codepoint: 0x11162, name: "MAHAJANI LETTER NNA", aliases: &[] },
        Codepoint { codepoint: 0x11163, name: "MAHAJANI LETTER TA", aliases: &[] },
        Codepoint { codepoint: 0x11164, name: "MAHAJANI LETTER THA", aliases: &[] },
        Codepoint { codepoint: 0x11165, name: "MAHAJANI LETTER DA", aliases: &[] },
        Codepoint { codepoint: 0x11166, name: "MAHAJANI LETTER DHA", aliases: &[] },
        Codepoint { codepoint: 0x11167, name: "MAHAJANI LETTER NA", aliases: &[] },
        Codepoint { codepoint: 0x11168, name: "MAHAJANI LETTER PA", aliases: &[] },
        Codepoint { codepoint: 0x11169, name: "MAHAJANI LETTER PHA", aliases: &[] },
        Codepoint { codepoint: 0x1116A, name: "MAHAJANI LETTER BA", aliases: &[] },
        Codepoint { codepoint: 0x1116B, name: "MAHAJANI LETTER BHA", aliases: &[] },
        Codepoint { codepoint: 0x1116C, name: "MAHAJANI LETTER MA", aliases: &[] },
        Codepoint { codepoint: 0x1116D, name: "MAHAJANI LETTER RA", aliases: &[] },
        Codepoint { codepoint: 0x1116E, name: "MAHAJANI LETTER LA", aliases: &[] },
        Codepoint { codepoint: 0x1116F, name: "MAHAJANI LETTER VA", aliases: &[] },
        Codepoint { codepoint: 0x11170, name: "MAHAJANI LETTER SA", aliases: &[] },
        Codepoint { codepoint: 0x11171, name: "MAHAJANI LETTER HA", aliases: &[] },
        Codepoint { codepoint: 0x11172, name: "MAHAJANI LETTER RRA", aliases: &[] },
        Codepoint { codepoint: 0x11173, name: "MAHAJANI SIGN NUKTA", aliases: &[] },
        Codepoint { codepoint: 0x11174, name: "MAHAJANI ABBREVIATION SIGN", aliases: &[] },
    ]
}

fn all_codepoints_496() -> (v: Vec<Codepoint>)
    ensures
        v@ == codepoint_table_496(),
{
    let v = vec![
        Codepoint { codepoint: 0x11145, name: "CHAKMA VOWEL SIGN AA", aliases: &[] },
        Codepoint { codepoint: 0x11146, name: "CHAKMA VOWEL SIGN EI", aliases: &[] },
        Codepoint { codepoint: 0x11147, name: "CHAKMA LETTER VAA", aliases: &[] },
        Codepoint { codepoint: 0x11150, name: "MAHAJANI LETTER A", aliases: &[] },
        Codepoint { codepoint: 0x11151, name: "MAHAJANI LETTER I", aliases: &[] },
        Codepoint { codepoint: 0x11152, name: "MAHAJANI LETTER U", aliases: &[] },
        Codepoint { codepoint: 0x11153, name: "MAHAJANI LETTER E", aliases: &[] },
        Codepoint { codepoint: 0x11154, name: "MAHAJANI LETTER O", aliases: &[] },
        Codepoint { codepoint: 0x11155, name: "MAHAJANI LETTER KA", aliases: &[] },
        Codepoint { codepoint: 0x11156, name: "MAHAJANI LETTER KHA", aliases: &[] },
        Codepoint { codepoint: 0x11157, name: "MAHAJANI LETTER GA", aliases: &[] },
        Codepoint { codepoint: 0x11158, name: "MAHAJANI LETTER GHA", aliases: &[] },
        Codepoint { codepoint: 0x11159, name: "MAHAJANI LETTER CA", aliases: &[] },
        Codepoint { codepoint: 0x1115A, name: "MAHAJANI LETTER CHA", aliases: &[] },
        Codepoint { codepoint: 0x1115B, name: "MAHAJANI LETTER JA", aliases: &[] },
        Codepoint { codepoint: 0x1115C, name: "MAHAJANI LETTER JHA", aliases: &[] },
        Codepoint { codepoint: 0x1115D, name: "MAHAJANI LETTER NYA", aliases: &[] },
        Codepoint { codepoint: 0x1115E, name: "MAHAJANI LETTER TTA", aliases: &[] },
        Codepoint { codepoint: 0x1115F, name: "MAHAJANI LETTER TTHA", aliases: &[] },
        Codepoint { codepoint: 0x11160, name: "MAHAJANI LETTER DDA", aliases: &[] },
        Codepoint { codepoint: 0x11161, name: "MAHAJANI LETTER DDHA", aliases: &[] },
        Codepoint { codepoint: 0x11162, name: "MAHAJANI LETTER NNA", aliases: &[] },
        Codepoint { codepoint: 0x11163, name: "MAHAJANI LETTER TA", aliases: &[] },
        Codepoint { codepoint: 0x11164, name: "MAHAJANI LETTER THA", aliases: &[] },
        Codepoint { codepoint: 0x11165, name: "MAHAJANI LETTER DA", aliases: &[] },
        Codepoint { codepoint: 0x11166, name: "MAHAJANI LETTER DHA", aliases: &[] },
        Codepoint { codepoint: 0x11167, name: "MAHAJANI LETTER NA", aliases: &[] },
        Codepoint { codepoint: 0x11168, name: "MAHAJANI LETTER PA", aliases: &[] },
        Codepoint { codepoint: 0x11169, name: "MAHAJANI LETTER PHA", aliases: &[] },
        Codepoint { codepoint: 0x1116A, name: "MAHAJANI LETTER BA", aliases: &[] },
        Codepoint { codepoint: 0x1116B, name: "MAHAJANI LETTER BHA", aliases: &[] },
        Codepoint { codepoint: 0x1116C, name: "MAHAJANI LETTER MA", aliases: &[] },
        Codepoint { codepoint: 0x1116D, name: "MAHAJANI LETTER RA", aliases: &[] },
        Codepoint { codepoint: 0x1116E, name: "MAHAJANI LETTER LA", aliases: &[] },
        Codepoint { codepoint: 0x1116F, name: "MAHAJANI LETTER VA", aliases: &[] },
        Codepoint { codepoint: 0x11170, name: "MAHAJANI LETTER SA", aliases: &[] },
        Codepoint { codepoint: 0x11171, name: "MAHAJANI LETTER HA", aliases: &[] },
        Codepoint { codepoint: 0x11172, name: "MAHAJANI LETTER RRA", aliases: &[] },
        Codepoint { codepoint: 0x11173, name: "MAHAJANI SIGN NUKTA", aliases: &[] },
        Codepoint { codepoint: 0x11174, name: "MAHAJANI ABBREVIATION SIGN", aliases: &[] },
    ];
    assert(v@ =~= codepoint_table_496());
    v
}

pub open spec fn codepoint_table_497() -> Seq<Codepoint> {
    seq![
        Codepoint { codepoint: 0x11175, name: "MAHAJANI SECTION MARK", aliases: &[] },
        Codepoint { codepoint: 0x11176, name: "MAHAJANI LIGATURE SHRI", aliases: &[] },
        Codepoint { codepoint: 0x11180, name: "SHARADA SIGN CANDRABINDU", aliases: &[] },
        Codepoint { codepoint: 0x11181, name: "SHARADA SIGN ANUSVARA", aliases: &[] },
        Codepoint { codepoint: 0x11182, name: "SHARADA SIGN VISARGA", aliases: &[] },
        Codepoint { codepoint: 0x11183, name: "SHARADA LETTER A", aliases: &[] },
        Codepoint { codepoint: 0x11184, name: "SHARADA LETTER AA", aliases: &[] },
        Codepoint { codepoint: 0x11185, name: "SHARADA LETTER I", aliases: &[] },
        Codepoint { codepoint: 0x11186, name: "SHARADA LETTER II", aliases: &[] },
        Codepoint { codepoint: 0x11187, name: "SHARADA LETTER U", aliases: &[] },
        Codepoint { codepoint: 0x11188, name: "SHARADA LETTER UU", aliases: &[] },
        Codepoint { codepoint: 0x11189, name: "SHARADA LETTER VOCALIC R", aliases: &[] },
        Codepoint { codepoint: 0x1118A, name: "SHARADA LETTER VOCALIC RR", aliases: &[] },
        Codepoint { codepoint: 0x1118B, name: "SHARADA LETTER VOCALIC L", aliases: &[] },
        Codepoint { codepoint: 0x1118C, name: "SHARADA LETTER VOCALIC LL", aliases: &[] },
        Codepoint { codepoint: 0x1118D, name: "SHARADA LETTER E", aliases: &[] },
        Codepoint { codepoint: 0x1118E, name: "SHARADA LETTER AI", aliases: &[] },
        Codepoint { codepoint: 0x1118F, name: "SHARADA LETTER O", aliases: &[] },
        Codepoint { codepoint: 0x11190, name: "SHARADA LETTER AU", aliases: &[] },
        Codepoint { codepoint: 0x11191, name: "SHARADA LETTER KA", aliases: &[] },
        Codepoint { codepoint: 0x11192, name: "SHARADA LETTER KHA", aliases: &[] },
        Codepoint { codepoint: 0x11193, name: "SHARADA LETTER GA", aliases: &[] },
        Codepoint { codepoint: 0x11194, name: "SHARADA LETTER GHA", aliases: &[] },
        Codepoint { codepoint: 0x11195, name: "SHARADA LETTER NGA", aliases: &[] },
        Codepoint { codepoint: 0x11196, name: "SHARADA LETTER CA", aliases: &[] },
        Codepoint { codepoint: 0x11197, name: "SHARADA LETTER CHA", aliases: &[] },
        Codepoint { codepoint: 0x11198, name: "SHARADA LETTER JA", aliases: &[] },
        Codepoint { codepoint: 0x11199, name: "SHARADA LETTER JHA", aliases: &[] },
        Codepoint { codepoint: 0x1119A, name: "SHARADA LETTER NYA", aliases: &[] },
        Codepoint { codepoint: 0x1119B, name: "SHARADA LETTER TTA", aliases: &[] },
        Codepoint { codepoint: 0x1119C, name: "SHARADA LETTER TTHA", aliases: &[] },
        Codepoint { codepoint: 0x1119D, name: "SHARADA LETTER DDA", aliases: &[] },
        Codepoint { codepoint: 0x1119E, name: "SHARADA LETTER DDHA", aliases: &[] },
        Codepoint { codepoint: 0x1119F, name: "SHARADA LETTER NNA", aliases: &[] },
        Codepoint { codepoint: 0x111A0, name: "SHARADA LETTER TA", aliases: &[] },
        Codepoint { codepoint: 0x111A1, name: "SHARADA LETTER THA", aliases: &[] },
        Codepoint { codepoint: 0x111A2, name: "SHARADA LETTER DA", aliases: &[] },
        Codepoint { codepoint: 0x111A3, name: "SHARADA LETTER DHA", aliases: &[] },
        Codepoint { codepoint: 0x111A4, name: "SHARADA LETTER NA", aliases: &[] },
        Codepoint { codepoint: 0x111A5, name: "SHARADA LETTER PA", aliases: &[] },
    ]
}

fn all_codepoints_497() -> (v: Vec<Codepoint>)
    ensures
        v@ == codepoint_table_497(),
{
    let v = vec![
        Codepoint { codepoint: 0x11175, name: "MAHAJANI SECTION MARK", aliases: &[] },
        Codepoint { codepoint: 0x11176, name: "MAHAJANI LIGATURE SHRI", aliases: &[] },
        Codepoint { codepoint: 0x11180, name: "SHARADA SIGN CANDRABINDU", aliases: &[] },
        Codepoint { codepoint: 0x11181, name: "SHARADA SIGN ANUSVARA", aliases: &[] },
        Codepoint { codepoint: 0x11182, name: "SHARADA SIGN VISARGA", aliases: &[] },
        Codepoint { codepoint: 0x11183, name: "SHARADA LETTER A", aliases: &[] },
        Codepoint { codepoint: 0x11184, name: "SHARADA LETTER AA", aliases: &[] },
        Codepoint { codepoint: 0x11185, name: "SHARADA LETTER I", aliases: &[] },
        Codepoint { codepoint: 0x11186, name: "SHARADA LETTER II", aliases: &[] },
        Codepoint { codepoint: 0x11187, name: "SHARADA LETTER U", aliases: &[] },
        Codepoint { codepoint: 0x11188, name: "SHARADA LETTER UU", aliases: &[] },
        Codepoint { codepoint: 0x11189, name: "SHARADA LETTER VOCALIC R", aliases: &[] },
        Codepoint { codepoint: 0x1118A, name: "SHARADA LETTER VOCALIC RR", aliases: &[] },
        Codepoint { codepoint: 0x1118B, name: "SHARADA LETTER VOCALIC L", aliases: &[] },
        Codepoint { codepoint: 0x1118C, name: "SHARADA LETTER VOCALIC LL", aliases: &[] },
        Codepoint { codepoint: 0x1118D, name: "SHARADA LETTER E", aliases: &[] },
        Codepoint { codepoint: 0x1118E, name: "SHARADA LETTER AI", aliases: &[] },
        Codepoint { codepoint: 0x1118F, name: "SHARADA LETTER O", aliases: &[] },
        Codepoint { codepoint: 0x11190, name: "SHARADA LETTER AU", aliases: &[] },
        Codepoint { codepoint: 0x11191, name: "SHARADA LETTER KA", aliases: &[] },
        Codepoint { codepoint: 0x11192, name: "SHARADA LETTER KHA", aliases: &[] },
        Codepoint { codepoint: 0x11193, name: "SHARADA LETTER GA", aliases: &[] },
        Codepoint { codepoint: 0x11194, name: "SHARADA LETTER GHA", aliases: &[] },
        Codepoint { codepoint: 0x11195, name: "SHARADA LETTER NGA", aliases: &[] },
        Codepoint { codepoint: 0x11196, name: "SHARADA LETTER CA", aliases: &[] },
        Codepoint { codepoint: 0x11197, name: "SHARADA LETTER CHA", aliases: &[] },
        Codepoint { codepoint: 0x11198, name: "SHARADA LETTER JA", aliases: &[] },
        Codepoint { codepoint: 0x11199, name: "SHARADA LETTER JHA", aliases: &[] },
        Codepoint { codepoint: 0x1119A, name: "SHARADA LETTER NYA", aliases: &[] },
        Codepoint { codepoint: 0x1119B, name: "SHARADA LETTER TTA", aliases: &[] },
        Codepoint { codepoint: 0x1119C, name: "SHARADA LETTER TTHA", aliases: &[] },
        Codepoint { codepoint: 0x1119D, name: "SHARADA LETTER DDA", aliases: &[] },
        Codepoint { codepoint: 0x1119E, name: "SHARADA LETTER DDHA", aliases: &[] },
        Codepoint { codepoint: 0x1119F, name: "SHARADA LETTER NNA", aliases: &[] },
        Codepoint { codepoint: 0x111A0, name: "SHARADA LETTER TA", aliases: &[] },
        Codepoint { codepoint: 0x111A1, name: "SHARADA LETTER THA", aliases: &[] },
        Codepoint { codepoint: 0x111A2, name: "SHARADA LETTER DA", aliases: &[] },
        Codepoint { codepoint: 0x111A3, name: "SHARADA LETTER DHA", aliases: &[] },
        Codepoint { codepoint: 0x111A4, name: "SHARADA LETTER NA", aliases: &[] },
        Codepoint { codepoint: 0x111A5, name: "SHARADA LETTER PA", aliases: &[] },
    ];
    assert(v@ =~= codepoint_table_497());
    v
}

pub open spec fn codepoint_table_498() -> Seq<Codepoint> {
    seq![
        Codepoint { codepoint: 0x111A6, name: "SHARADA LETTER PHA", aliases: &[] },
        Codepoint { codepoint: 0x111A7, name: "SHARADA LETTER BA", aliases: &[] },
        Codepoint { codepoint: 0x111A8, name: "SHARADA LETTER BHA", aliases: &[] },
        Codepoint { codepoint: 0x111A9, name: "SHARADA LETTER MA", aliases: &[] },
        Codepoint { codepoint: 0x111AA, name: "SHARADA LETTER YA", aliases: &[] },
        Codepoint { codepoint: 0x111AB, name: "SHARADA LETTER RA", aliases: &[] },
        Codepoint { codepoint: 0x111AC, name: "SHARADA LETTER LA", aliases: &[] },
        Codepoint { codepoint: 0x111AD, name: "SHARADA LETTER LLA", aliases: &[] },
        Codepoint { codepoint: 0x111AE, name: "SHARADA LETTER VA", aliases: &[] },
        Codepoint { codepoint: 0x111AF, name: "SHARADA LETTER SHA", aliases: &[] },
        Codepoint { codepoint: 0x111B0, name: "SHARADA LETTER SSA", aliases: &[] },
        Codepoint { codepoint: 0x111B1, name: "SHARADA LETTER SA", aliases: &[] },
        Codepoint { codepoint: 0x111B2, name: "SHARADA LETTER HA", aliases: &[] },
        Codepoint { codepoint: 0x111B3, name: "SHARADA VOWEL SIGN AA", aliases: &[] },
        Codepoint { codepoint: 0x111B4, name: "SHARADA VOWEL SIGN I", aliases: &[] },
        Codepoint { codepoint: 0x111B5, name: "SHARADA VOWEL SIGN II", aliases: &[] },
        Codepoint { codepoint: 0x111B6, name: "SHARADA VOWEL SIGN U", aliases: &[] },
        Codepoint { codepoint: 0x111B7, name: "SHARADA VOWEL SIGN UU", aliases: &[] },
        Codepoint { codepoint: 0x111B8, name: "SHARADA VOWEL SIGN VOCALIC R", aliases: &[] },
        Codepoint { codepoint: 0x111B9, name: "SHARADA VOWEL SIGN VOCALIC RR", aliases: &[] },
        Codepoint { codepoint: 0x111BA, name: "SHARADA VOWEL SIGN VOCALIC L", aliases: &[] },
        Codepoint { codepoint: 0x111BB, name: "SHARADA VOWEL SIGN VOCALIC LL", aliases: &[] },
        Codepoint { codepoint: 0x111BC, name: "SHARADA VOWEL SIGN E", aliases: &[] },
        Codepoint { codepoint: 0x111BD, name: "SHARADA VOWEL SIGN AI", aliases: &[] },
        Codepoint { codepoint: 0x111BE, name: "SHARADA VOWEL SIGN O", aliases: &[] },
        Codepoint { codepoint: 0x111BF, name: "SHARADA VOWEL SIGN AU", aliases: &[] },
        Codepoint { codepoint: 0x111C0, name: "SHARADA SIGN VIRAMA", aliases: &[] },
        Codepoint { codepoint: 0x111C1, name: "SHARADA SIGN AVAGRAHA", aliases: &[] },
        Codepoint { codepoint: 0x111C2, name: "SHARADA SIGN JIHVAMULIYA", aliases: &[] },
        Codepoint { codepoint: 0x111C3, name: "SHARADA SIGN UPADHMANIYA", aliases: &[] },
        Codepoint { codepoint: 0x111C4, name: "SHARADA OM", aliases: &[] },
        Codepoint { codepoint: 0x111C5, name: "SHARADA DANDA", aliases: &[] },
        Codepoint { codepoint: 0x111C6, name: "SHARADA DOUBLE DANDA", aliases: &[] },
        Codepoint { codepoint: 0x111C7, name: "SHARADA ABBREVIATION SIGN", aliases: &[] },
        Codepoint { codepoint: 0x111C8, name: "SHARADA SEPARATOR", aliases: &[] },
        Codepoint { codepoint: 0x111C9, name: "SHARADA SANDHI MARK", aliases: &[] },
        Codepoint { codepoint: 0x111CA, name: "SHARADA SIGN NUKTA", aliases: &[] },
        Codepoint { codepoint: 0x111CB, name: "SHARADA VOWEL MODIFIER MARK", aliases: &[] },
        Codepoint { codepoint: 0x111CC, name: "SHARADA EXTRA SHORT VOWEL MARK", aliases: &[] },
        Codepoint { codepoint: 0x111CD, name: "SHARADA SUTRA MARK", aliases: &[] },
    ]
}

fn all_codepoints_498() -> (v: Vec<Codepoint>)
    ensures
        v@ == codepoint_table_498(),
{
    let v = vec![
        Codepoint { codepoint: 0x111A6, name: "SHARADA LETTER PHA", aliases: &[] },
        Codepoint { codepoint: 0x111A7, name: "SHARADA LETTER BA", aliases: &[] },
        Codepoint { codepoint: 0x111A8, name: "SHARADA LETTER BHA", aliases: &[] },
        Codepoint { codepoint: 0x111A9, name: "SHARADA LETTER MA", aliases: &[] },
        Codepoint { codepoint: 0x111AA, name: "SHARADA LETTER YA", aliases: &[] },
        Codepoint { codepoint: 0x111AB, name: "SHARADA LETTER RA", aliases: &[] },
        Codepoint { codepoint: 0x111AC, name: "SHARADA LETTER LA", aliases: &[] },
        Codepoint { codepoint: 0x111AD, name: "SHARADA LETTER LLA", aliases: &[] },
        Codepoint { codepoint: 0x111AE, name: "SHARADA LETTER VA", aliases: &[] },
        Codepoint { codepoint: 0x111AF, name: "SHARADA LETTER SHA", aliases: &[] },
        Codepoint { codepoint: 0x111B0, name: "SHARADA LETTER SSA", aliases: &[] },
        Codepoint { codepoint: 0x111B1, name: "SHARADA LETTER SA", aliases: &[] },
        Codepoint { codepoint: 0x111B2, name: "SHARADA LETTER HA", aliases: &[] },
        Codepoint { codepoint: 0x111B3, name: "SHARADA VOWEL SIGN AA", aliases: &[] },
        Codepoint { codepoint: 0x111B4, name: "SHARADA VOWEL SIGN I", aliases: &[] },
        Codepoint { codepoint: 0x111B5, name: "SHARADA VOWEL SIGN II", aliases: &[] },
        Codepoint { codepoint: 0x111B6, name: "SHARADA VOWEL SIGN U", aliases: &[] },
        Codepoint { codepoint: 0x111B7, name: "SHARADA VOWEL SIGN UU", aliases: &[] },
        Codepoint { codepoint: 0x111B8, name: "SHARADA VOWEL SIGN VOCALIC R", aliases: &[] },
        Codepoint { codepoint: 0x111B9, name: "SHARADA VOWEL SIGN VOCALIC RR", aliases: &[] },
        Codepoint { codepoint: 0x111BA, name: "SHARADA VOWEL SIGN VOCALIC L", aliases: &[] },
        Codepoint { codepoint: 0x111BB, name: "SHARADA VOWEL SIGN VOCALIC LL", aliases: &[] },
        Codepoint { codepoint: 0x111BC, name: "SHARADA VOWEL SIGN E", aliases: &[] },
        Codepoint { codepoint: 0x111BD, name: "SHARADA VOWEL SIGN AI", aliases: &[] },
        Codepoint { codepoint: 0x111BE, name: "SHARADA VOWEL SIGN O", aliases: &[] },
        Codepoint { codepoint: 0x111BF, name: "SHARADA VOWEL SIGN AU", aliases: &[] },
        Codepoint { codepoint: 0x111C0, name: "SHARADA SIGN VIRAMA", aliases: &[] },
        Codepoint { codepoint: 0x111C1, name: "SHARADA SIGN AVAGRAHA", aliases: &[] },
        Codepoint { codepoint: 0x111C2, name: "SHARADA SIGN JIHVAMULIYA", aliases: &[] },
        Codepoint { codepoint: 0x111C3, name: "SHARADA SIGN UPADHMANIYA", aliases: &[] },
        Codepoint { codepoint: 0x111C4, name: "SHARADA OM", aliases: &[] },
        Codepoint { codepoint: 0x111C5, name: "SHARADA DANDA", aliases: &[] },
        Codepoint { codepoint: 0x111C6, name: "SHARADA DOUBLE DANDA", aliases: &[] },
        Codepoint { codepoint: 0x111C7, name: "SHARADA ABBREVIATION SIGN", aliases: &[] },
        Codepoint { codepoint: 0x111C8, name: "SHARADA SEPARATOR", aliases: &[] },
        Codepoint { codepoint: 0x111C9, name: "SHARADA SANDHI MARK", aliases: &[] },
        Codepoint { codepoint: 0x111CA, name: "SHARADA SIGN NUKTA", aliases: &[] },
        Codepoint { codepoint: 0x111CB, name: "SHARADA VOWEL MODIFIER MARK", aliases: &[] },
        Codepoint { codepoint: 0x111CC, name: "SHARADA EXTRA SHORT VOWEL MARK", aliases: &[] },
        Codepoint { codepoint: 0x111CD, name: "SHARADA SUTRA MARK", aliases: &[] },
    ];
    assert(v@ =~= codepoint_table_498());
    v
}

pub open spec fn codepoint_table_499() -> Seq<Codepoint> {
    seq![
        Codepoint { codepoint: 0x111CE, name: "SHARADA VOWEL SIGN PRISHTHAMATRA E", aliases: &[] },
        Codepoint { codepoint: 0x111CF, name: "SHARADA SIGN INVERTED CANDRABINDU", aliases: &[] },
        Codepoint { codepoint: 0x111D0, name: "SHARADA DIGIT ZERO", aliases: &[] },
        Codepoint { codepoint: 0x111D1, name: "SHARADA DIGIT ONE", aliases: &[] },
        Codepoint { codepoint: 0x111D2, name: "SHARADA DIGIT TWO", aliases: &[] },
        Codepoint { codepoint: 0x111D3, name: "SHARADA DIGIT THREE", aliases: &[] },
        Codepoint { codepoint: 0x111D4, name: "SHARADA DIGIT FOUR", aliases: &[] },
        Codepoint { codepoint: 0x111D5, name: "SHARADA DIGIT FIVE", aliases: &[] },
        Codepoint { codepoint: 0x111D6, name: "SHARADA DIGIT SIX", aliases: &[] },
        Codepoint { codepoint: 0x111D7, name: "SHARADA DIGIT SEVEN", aliases: &[] },
        Codepoint { codepoint: 0x111D8, name: "SHARADA DIGIT EIGHT", aliases: &[] },
        Codepoint { codepoint: 0x111D9, name: "SHARADA DIGIT NINE", aliases: &[] },
        Codepoint { codepoint: 0x111DA, name: "SHARADA EKAM", aliases: &[] },
        Codepoint { codepoint: 0x111DB, name: "SHARADA SIGN SIDDHAM", aliases: &[] },
        Codepoint { codepoint: 0x111DC, name: "SHARADA HEADSTROKE", aliases: &[] },
        Codepoint { codepoint: 0x111DD, name: "SHARADA CONTINUATION SIGN", aliases: &[] },
        Codepoint { codepoint: 0x111DE, name: "SHARADA SECTION MARK-1", aliases: &[] },
        Codepoint { codepoint: 0x111DF, name: "SHARADA SECTION MARK-2", aliases: &[] },
        Codepoint { codepoint: 0x111E1, name: "SINHALA ARCHAIC DIGIT ONE", aliases: &[] },
        Codepoint { codepoint: 0x111E2, name: "SINHALA ARCHAIC DIGIT TWO", aliases: &[] },
        Codepoint { codepoint: 0x111E3, name: "SINHALA ARCHAIC DIGIT THREE", aliases: &[] },
        Codepoint { codepoint: 0x111E4, name: "SINHALA ARCHAIC DIGIT FOUR", aliases: &[] },
        Codepoint { codepoint: 0x111E5, name: "SINHALA ARCHAIC DIGIT FIVE", aliases: &[] },
        Codepoint { codepoint: 0x111E6, name: "SINHALA ARCHAIC DIGIT SIX", aliases: &[] },
        Codepoint { codepoint: 0x111E7, name: "SINHALA ARCHAIC DIGIT SEVEN", aliases: &[] },
        Codepoint { codepoint: 0x111E8, name: "SINHALA ARCHAIC DIGIT EIGHT", aliases: &[] },
        Codepoint { codepoint: 0x111E9, name: "SINHALA ARCHAIC DIGIT NINE", aliases: &[] },
        Codepoint { codepoint: 0x111EA, name: "SINHALA ARCHAIC NUMBER TEN", aliases: &[] },
        Codepoint { codepoint: 0x111EB, name: "SINHALA ARCHAIC NUMBER TWENTY", aliases: &[] },
        Codepoint { codepoint: 0x111EC, name: "SINHALA ARCHAIC NUMBER THIRTY", aliases: &[] },
        Codepoint { codepoint: 0x111ED, name: "SINHALA ARCHAIC NUMBER FORTY", aliases: &[] },
        Codepoint { codepoint: 0x111EE, name: "SINHALA ARCHAIC NUMBER FIFTY", aliases: &[] },
        Codepoint { codepoint: 0x111EF, name: "SINHALA ARCHAIC NUMBER SIXTY", aliases: &[] },
        Codepoint { codepoint: 0x111F0, name: "SINHALA ARCHAIC NUMBER SEVENTY", aliases: &[] },
        Codepoint { codepoint: 0x111F1, name: "SINHALA ARCHAIC NUMBER EIGHTY", aliases: &[] },
        Codepoint { codepoint: 0x111F2, name: "SINHALA ARCHAIC NUMBER NINETY", aliases: &[] },
        Codepoint { codepoint: 0x111F3, name: "SINHALA ARCHAIC NUMBER ONE HUNDRED", aliases: &[] },
        Codepoint { codepoint: 0x111F4, name: "SINHALA ARCHAIC NUMBER ONE THOUSAND", aliases: &[] },
        Codepoint { codepoint: 0x11200, name: "KHOJKI LETTER A", aliases: &[] },
        Codepoint { codepoint: 0x11201, name: "KHOJKI LETTER AA", aliases: &[] },
    ]
}

fn all_codepoints_499() -> (v: Vec<Codepoint>)
    ensures
        v@ == codepoint_table_499(),
{
    let v = vec![
        Codepoint { codepoint: 0x111CE, name: "SHARADA VOWEL SIGN PRISHTHAMATRA E", aliases: &[] },
        Codepoint { codepoint: 0x111CF, name: "SHARADA SIGN INVERTED CANDRABINDU", aliases: &[] },
        Codepoint { codepoint: 0x111D0, name: "SHARADA DIGIT ZERO", aliases: &[] },
        Codepoint { codepoint: 0x111D1, name: "SHARADA DIGIT ONE", aliases: &[] },
        Codepoint { codepoint: 0x111D2, name: "SHARADA DIGIT TWO", aliases: &[] },
        Codepoint { codepoint: 0x111D3, name: "SHARADA DIGIT THREE", aliases: &[] },
        Codepoint { codepoint: 0x111D4, name: "SHARADA DIGIT FOUR", aliases: &[] },
        Codepoint { codepoint: 0x111D5, name: "SHARADA DIGIT FIVE", aliases: &[] },
        Codepoint { codepoint: 0x111D6, name: "SHARADA DIGIT SIX", aliases: &[] },
        Codepoint { codepoint: 0x111D7, name: "SHARADA DIGIT SEVEN", aliases: &[] },
        Codepoint { codepoint: 0x111D8, name: "SHARADA DIGIT EIGHT", aliases: &[] },
        Codepoint { codepoint: 0x111D9, name: "SHARADA DIGIT NINE", aliases: &[] },
        Codepoint { codepoint: 0x111DA, name: "SHARADA EKAM", aliases: &[] },
        Codepoint { codepoint: 0x111DB, name: "SHARADA SIGN SIDDHAM", aliases: &[] },
        Codepoint { codepoint: 0x111DC, name: "SHARADA HEADSTROKE", aliases: &[] },
        Codepoint { codepoint: 0x111DD, name: "SHARADA CONTINUATION SIGN", aliases: &[] },
        Codepoint { codepoint: 0x111DE, name: "SHARADA SECTION MARK-1", aliases: &[] },
        Codepoint { codepoint: 0x111DF, name: "SHARADA SECTION MARK-2", aliases: &[] },
        Codepoint { codepoint: 0x111E1, name: "SINHALA ARCHAIC DIGIT ONE", aliases: &[] },
        Codepoint { codepoint: 0x111E2, name: "SINHALA ARCHAIC DIGIT TWO", aliases: &[] },
        Codepoint { codepoint: 0x111E3, name: "SINHALA ARCHAIC DIGIT THREE", aliases: &[] },
        Codepoint { codepoint: 0x111E4, name: "SINHALA ARCHAIC DIGIT FOUR", aliases: &[] },
        Codepoint { codepoint: 0x111E5, name: "SINHALA ARCHAIC DIGIT FIVE", aliases: &[] },
        Codepoint { codepoint: 0x111E6, name: "SINHALA ARCHAIC DIGIT SIX", aliases: &[] },
        Codepoint { codepoint: 0x111E7, name: "SINHALA ARCHAIC DIGIT SEVEN", aliases: &[] },
        Codepoint { codepoint: 0x111E8, name: "SINHALA ARCHAIC DIGIT EIGHT", aliases: &[] },
        Codepoint { codepoint: 0x111E9, name: "SINHALA ARCHAIC DIGIT NINE", aliases: &[] },
        Codepoint { codepoint: 0x111EA, name: "SINHALA ARCHAIC NUMBER TEN", aliases: &[] },
        Codepoint { codepoint: 0x111EB, name: "SINHALA ARCHAIC NUMBER TWENTY", aliases: &[] },
        Codepoint { codepoint: 0x111EC, name: "SINHALA ARCHAIC NUMBER THIRTY", aliases: &[] },
        Codepoint { codepoint: 0x111ED, name: "SINHALA ARCHAIC NUMBER FORTY", aliases: &[] },
        Codepoint { codepoint: 0x111EE, name: "SINHALA ARCHAIC NUMBER FIFTY", aliases: &[] },
        Codepoint { codepoint: 0x111EF, name: "SINHALA ARCHAIC NUMBER SIXTY", aliases: &[] },
        Codepoint { codepoint: 0x111F0, name: "SINHALA ARCHAIC NUMBER SEVENTY", aliases: &[] },
        Codepoint { codepoint: 0x111F1, name: "SINHALA ARCHAIC NUMBER EIGHTY", aliases: &[] },
        Codepoint { codepoint: 0x111F2, name: "SINHALA ARCHAIC NUMBER NINETY", aliases: &[] },
        Codepoint { codepoint: 0x111F3, name: "SINHALA ARCHAIC NUMBER ONE HUNDRED", aliases: &[] },
        Codepoint { codepoint: 0x111F4, name: "SINHALA ARCHAIC NUMBER ONE THOUSAND", aliases: &[] },
        Codepoint { codepoint: 0x11200, name: "KHOJKI LETTER A", aliases: &[] },
        Codepoint { codepoint: 0x11201, name: "KHOJKI LETTER AA", aliases: &[] },
    ];
    assert(v@ =~= codepoint_table_499());
    v
}

/// The entries from position 19200 of the table, 800 at most.
pub open spec fn codepoint_group_24() -> Seq<Codepoint> {
    codepoint_table_480() + codepoint_table_481() + codepoint_table_482() + codepoint_table_483() + codepoint_table_484() + codepoint_table_485() + codepoint_table_486() + codepoint_table_487() + codepoint_table_488() + codepoint_table_489() + codepoint_table_490() + codepoint_table_491() + codepoint_table_492() + codepoint_table_493() + codepoint_table_494() + codepoint_table_495() + codepoint_table_496() + codepoint_table_497() + codepoint_table_498() + codepoint_table_499()
}

pub fn all_codepoints_group_24() -> (v: Vec<Codepoint>)
    ensures
        v@ == codepoint_group_24(),
{
    let mut v = all_codepoints_480();
    let mut part = all_codepoints_481();
    v.append(&mut part);
    let mut part = all_codepoints_482();
    v.append(&mut part);
    let mut part = all_codepoints_483();
    v.append(&mut part);
    let mut part = all_codepoints_484();
    v.append(&mut part);
    let mut part = all_codepoints_485();
    v.append(&mut part);
    let mut part = all_codepoints_486();
    v.append(&mut part);
    let mut part = all_codepoints_487();
    v.append(&mut part);
    let mut part = all_codepoints_488();
    v.append(&mut part);
    let mut part = all_codepoints_489();
    v.append(&mut part);
    let mut part = all_codepoints_490();
    v.append(&mut part);
    let mut part = all_codepoints_491();
    v.append(&mut part);
    let mut part = all_codepoints_492();
    v.append(&mut part);
    let mut part = all_codepoints_493();
    v.append(&mut part);
    let mut part = all_codepoints_494();
    v.append(&mut part);
    let mut part = all_codepoints_495();
    v.append(&mut part);
    let mut part = all_codepoints_496();
    v.append(&mut part);
    let mut part = all_codepoints_497();
    v.append(&mut part);
    let mut part = all_codepoints_498();
    v.append(&mut part);
    let mut part = all_codepoints_499();
    v.append(&mut part);
    v
}

pub open spec fn codepoint_table_500() -> Seq<Codepoint> {
    seq![
        Codepoint { codepoint: 0x11202, name: "KHOJKI LETTER I", aliases: &[] },
        Codepoint { codepoint: 0x11203, name: "KHOJKI LETTER U", aliases: &[] },
        Codepoint { codepoint: 0x11204, name: "KHOJKI LETTER E", aliases: &[] },
        Codepoint { codepoint: 0x11205, name: "KHOJKI LETTER AI", aliases: &[] },
        Codepoint { codepoint: 0x11206, name: "KHOJKI LETTER O", aliases: &[] },
        Codepoint { codepoint: 0x11207, name: "KHOJKI LETTER AU", aliases: &[] },
        Codepoint { codepoint: 0x11208, name: "KHOJKI LETTER KA", aliases: &[] },
        Codepoint { codepoint: 0x11209, name: "KHOJKI LETTER KHA", aliases: &[] },
        Codepoint { codepoint: 0x1120A, name: "KHOJKI LETTER GA", aliases: &[] },
        Codepoint { codepoint: 0x1120B, name: "KHOJKI LETTER GGA", aliases: &[] },
        Codepoint { codepoint: 0x1120C, name: "KHOJKI LETTER GHA", aliases: &[] },
        Codepoint { codepoint: 0x1120D, name: "KHOJKI LETTER NGA", aliases: &[] },
        Codepoint { codepoint: 0x1120E, name: "KHOJKI LETTER CA", aliases: &[] },
        Codepoint { codepoint: 0x1120F, name: "KHOJKI LETTER CHA", aliases: &[] },
        Codepoint { codepoint: 0x11210, name: "KHOJKI LETTER JA", aliases: &[] },
        Codepoint { codepoint: 0x11211, name: "KHOJKI LETTER JJA", aliases: &[] },
        Codepoint { codepoint: 0x11213, name: "KHOJKI LETTER NYA", aliases: &[] },
        Codepoint { codepoint: 0x11214, name: "KHOJKI LETTER TTA", aliases: &[] },
        Codepoint { codepoint: 0x11215, name: "KHOJKI LETTER TTHA", aliases: &[] },
        Codepoint { codepoint: 0x11216, name: "KHOJKI LETTER DDA", aliases: &[] },
        Codepoint { codepoint: 0x11217, name: "KHOJKI LETTER DDHA", aliases: &[] },
        Codepoint { codepoint: 0x11218, name: "KHOJKI LETTER NNA", aliases: &[] },
        Codepoint { codepoint: 0x11219, name: "KHOJKI LETTER TA", aliases: &[] },
        Codepoint { codepoint: 0x1121A, name: "KHOJKI LETTER THA", aliases: &[] },
        Codepoint { codepoint: 0x1121B, name: "KHOJKI LETTER DA", aliases: &[] },
        Codepoint { codepoint: 0x1121C, name: "KHOJKI LETTER DDDA", aliases: &[] },
        Codepoint { codepoint: 0x1121D, name: "KHOJKI LETTER DHA", aliases: &[] },
        Codepoint { codepoint: 0x1121E, name: "KHOJKI LETTER NA", aliases: &[] },
        Codepoint { codepoint: 0x1121F, name: "KHOJKI LETTER PA", aliases: &[] },
        Codepoint { codepoint: 0x11220, name: "KHOJKI LETTER PHA", aliases: &[] },
        Codepoint { codepoint: 0x11221, name: "KHOJKI LETTER BA", aliases: &[] },
        Codepoint { codepoint: 0x11222, name: "KHOJKI LETTER BBA", aliases: &[] },
        Codepoint { codepoint: 0x11223, name: "KHOJKI LETTER BHA", aliases: &[] },
        Codepoint { codepoint: 0x11224, name: "KHOJKI LETTER MA", aliases: &[] },
        Codepoint { codepoint: 0x11225, name: "KHOJKI LETTER YA", aliases: &[] },
        Codepoint { codepoint: 0x11226, name: "KHOJKI LETTER RA", aliases: &[] },
        Codepoint { codepoint: 0x11227, name: "KHOJKI LETTER LA", aliases: &[] },
        Codepoint { codepoint: 0x11228, name: "KHOJKI LETTER VA", aliases: &[] },
        Codepoint { codepoint: 0x11229, name: "KHOJKI LETTER SA", aliases: &[] },
        Codepoint { codepoint: 0x1122A, name: "KHOJKI LETTER HA", aliases: &[] },
    ]
}

fn all_codepoints_500() -> (v: Vec<Codepoint>)
    ensures
        v@ == codepoint_table_500(),
{
    let v = vec![
        Codepoint { codepoint: 0x11202, name: "KHOJKI LETTER I", aliases: &[] },
        Codepoint { codepoint: 0x11203, name: "KHOJKI LETTER U", aliases: &[] },
        Codepoint { codepoint: 0x11204, name: "KHOJKI LETTER E", aliases: &[] },
        Codepoint { codepoint: 0x11205, name: "KHOJKI LETTER AI", aliases: &[] },
        Codepoint { codepoint: 0x11206, name: "KHOJKI LETTER O", aliases: &[] },
        Codepoint { codepoint: 0x11207, name: "KHOJKI LETTER AU", aliases: &[] },
        Codepoint { codepoint: 0x11208, name: "KHOJKI LETTER KA", aliases: &[] },
        Codepoint { codepoint: 0x11209, name: "KHOJKI LETTER KHA", aliases: &[] },
        Codepoint { codepoint: 0x1120A, name: "KHOJKI LETTER GA", aliases: &[] },
        Codepoint { codepoint: 0x1120B, name: "KHOJKI LETTER GGA", aliases: &[] },
        Codepoint { codepoint: 0x1120C, name: "KHOJKI LETTER GHA", aliases: &[] },
        Codepoint { codepoint: 0x1120D, name: "KHOJKI LETTER NGA", aliases: &[] },
        Codepoint { codepoint: 0x1120E, name: "KHOJKI LETTER CA", aliases: &[] },
        Codepoint { codepoint: 0x1120F, name: "KHOJKI LETTER CHA", aliases: &[] },
        Codepoint { codepoint: 0x11210, name: "KHOJKI LETTER JA", aliases: &[] },
        Codepoint { codepoint: 0x11211, name: "KHOJKI LETTER JJA", aliases: &[] },
        Codepoint { codepoint: 0x11213, name: "KHOJKI LETTER NYA", aliases: &[] },
        Codepoint { codepoint: 0x11214, name: "KHOJKI LETTER TTA", aliases: &[] },
        Codepoint { codepoint: 0x11215, name: "KHOJKI LETTER TTHA", aliases: &[] },
        Codepoint { codepoint: 0x11216, name: "KHOJKI LETTER DDA", aliases: &[] },
        Codepoint { codepoint: 0x11217, name: "KHOJKI LETTER DDHA", aliases: &[] },
        Codepoint { codepoint: 0x11218, name: "KHOJKI LETTER NNA", aliases: &[] },
        Codepoint { codepoint: 0x11219, name: "KHOJKI LETTER TA", aliases: &[] },
        Codepoint { codepoint: 0x1121A, name: "KHOJKI LETTER THA", aliases: &[] },
        Codepoint { codepoint: 0x1121B, name: "KHOJKI LETTER DA", aliases: &[] },
        Codepoint { codepoint: 0x1121C, name: "KHOJKI LETTER DDDA", aliases: &[] },
        Codepoint { codepoint: 0x1121D, name: "KHOJKI LETTER DHA", aliases: &[] },
        Codepoint { codepoint: 0x1121E, name: "KHOJKI LETTER NA", aliases: &[] },
        Codepoint { codepoint: 0x1121F, name: "KHOJKI LETTER PA", aliases: &[] },
        Codepoint { codepoint: 0x11220, name: "KHOJKI LETTER PHA", aliases: &[] },
        Codepoint { codepoint: 0x11221, name: "KHOJKI LETTER BA", aliases: &[] },
        Codepoint { codepoint: 0x11222, name: "KHOJKI LETTER BBA", aliases: &[] },
        Codepoint { codepoint: 0x11223, name: "KHOJKI LETTER BHA", aliases: &[] },
        Codepoint { codepoint: 0x11224, name: "KHOJKI LETTER MA", aliases: &[] },
        Codepoint { codepoint: 0x11225, name: "KHOJKI LETTER YA", aliases: &[] },
        Codepoint { codepoint: 0x11226, name: "KHOJKI LETTER RA", aliases: &[] },
        Codepoint { codepoint: 0x11227, name: "KHOJKI LETTER LA", aliases: &[] },
        Codepoint { codepoint: 0x11228, name: "KHOJKI LETTER VA", aliases: &[] },
        Codepoint { codepoint: 0x11229, name: "KHOJKI LETTER SA", aliases: &[] },
        Codepoint { codepoint: 0x1122A, name: "KHOJKI LETTER HA", aliases: &[] },
    ];
    assert(v@ =~= codepoint_table_500());
    v
}

pub open spec fn codepoint_table_501() -> Seq<Codepoint> {
    seq![
        Codepoint { codepoint: 0x1122B, name: "KHOJKI LETTER LLA", aliases: &[] },
        Codepoint { codepoint: 0x1122C, name: "KHOJKI VOWEL SIGN AA", aliases: &[] },
        Codepoint { codepoint: 0x1122D, name: "KHOJKI VOWEL SIGN I", aliases: &[] },
        Codepoint { codepoint: 0x1122E, name: "KHOJKI VOWEL SIGN II", aliases: &[] },
        Codepoint { codepoint: 0x1122F, name: "KHOJKI VOWEL SIGN U", aliases: &[] },
        Codepoint { codepoint: 0x11230, name: "KHOJKI VOWEL SIGN E", aliases: &[] },
        Codepoint { codepoint: 0x11231, name: "KHOJKI VOWEL SIGN AI", aliases: &[] },
        Codepoint { codepoint: 0x11232, name: "KHOJKI VOWEL SIGN O", aliases: &[] },
        Codepoint { codepoint: 0x11233, name: "KHOJKI VOWEL SIGN AU", aliases: &[] },
        Codepoint { codepoint: 0x11234, name: "KHOJKI SIGN ANUSVARA", aliases: &[] },
        Codepoint { codepoint: 0x11235, name: "KHOJKI SIGN VIRAMA", aliases: &[] },
        Codepoint { codepoint: 0x11236, name: "KHOJKI SIGN NUKTA", aliases: &[] },
        Codepoint { codepoint: 0x11237, name: "KHOJKI SIGN SHADDA", aliases: &[] },
        Codepoint { codepoint: 0x11238, name: "KHOJKI DANDA", aliases: &[] },
        Codepoint { codepoint: 0x11239, name: "KHOJKI DOUBLE DANDA", aliases: &[] },
        Codepoint { codepoint: 0x1123A, name: "KHOJKI WORD SEPARATOR", aliases: &[] },
        Codepoint { codepoint: 0x1123B, name: "KHOJKI SECTION MARK", aliases: &[] },
        Codepoint { codepoint: 0x1123C, name: "KHOJKI DOUBLE SECTION MARK", aliases: &[] },
        Codepoint { codepoint: 0x1123D, name: "KHOJKI ABBREVIATION SIGN", aliases: &[] },
        Codepoint { codepoint: 0x1123E, name: "KHOJKI SIGN SUKUN", aliases: &[] },
        Codepoint { codepoint: 0x11280, name: "MULTANI LETTER A", aliases: &[] },
        Codepoint { codepoint: 0x11281, name: "MULTANI LETTER I", aliases: &[] },
        Codepoint { codepoint: 0x11282, name: "MULTANI LETTER U", aliases: &[] },
        Codepoint { codepoint: 0x11283, name: "MULTANI LETTER E", aliases: &[] },
        Codepoint { codepoint: 0x11284, name: "MULTANI LETTER KA", aliases: &[] },
        Codepoint { codepoint: 0x11285, name: "MULTANI LETTER KHA", aliases: &[] },
        Codepoint { codepoint: 0x11286, name: "MULTANI LETTER GA", aliases: &[] },
        Codepoint { codepoint: 0x11288, name: "MULTANI LETTER GHA", aliases: &[] },
        Codepoint { codepoint: 0x1128A, name: "MULTANI LETTER CA", aliases: &[] },
        Codepoint { codepoint: 0x1128B, name: "MULTANI LETTER CHA", aliases: &[] },
        Codepoint { codepoint: 0x1128C, name: "MULTANI LETTER JA", aliases: &[] },
        Codepoint { codepoint: 0x1128D, name: "MULTANI LETTER JJA", aliases: &[] },
        Codepoint { codepoint: 0x1128F, name: "MULTANI LETTER NYA", aliases: &[] },
        Codepoint { codepoint: 0x11290, name: "MULTANI LETTER TTA", aliases: &[] },
        Codepoint { codepoint: 0x11291, name: "MULTANI LETTER TTHA", aliases: &[] },
        Codepoint { codepoint: 0x11292, name: "MULTANI LETTER DDA", aliases: &[] },
        Codepoint { codepoint: 0x11293, name: "MULTANI LETTER DDDA", aliases: &[] },
        Codepoint { codepoint: 0x11294, name: "MULTANI LETTER DDHA", aliases: &[] },
        Codepoint { codepoint: 0x11295, name: "MULTANI LETTER NNA", aliases: &[] },
        Codepoint { codepoint: 0x11296, name: "MULTANI LETTER TA", aliases: &[] },
    ]
}

fn all_codepoints_501() -> (v: Vec<Codepoint>)
    ensures
        v@ == codepoint_table_501(),
{
    let v = vec![
        Codepoint { codepoint: 0x1122B, name: "KHOJKI LETTER LLA", aliases: &[] },
        Codepoint { codepoint: 0x1122C, name: "KHOJKI VOWEL SIGN AA", aliases: &[] },
        Codepoint { codepoint: 0x1122D, name: "KHOJKI VOWEL SIGN I", aliases: &[] },
        Codepoint { codepoint: 0x1122E, name: "KHOJKI VOWEL SIGN II", aliases: &[] },
        Codepoint { codepoint: 0x1122F, name: "KHOJKI VOWEL SIGN U", aliases: &[] },
        Codepoint { codepoint: 0x11230, name: "KHOJKI VOWEL SIGN E", aliases: &[] },
        Codepoint { codepoint: 0x11231, name: "KHOJKI VOWEL SIGN AI", aliases: &[] },
        Codepoint { codepoint: 0x11232, name: "KHOJKI VOWEL SIGN O", aliases: &[] },
        Codepoint { codepoint: 0x11233, name: "KHOJKI VOWEL SIGN AU", aliases: &[] },
        Codepoint { codepoint: 0x11234, name: "KHOJKI SIGN ANUSVARA", aliases: &[] },
        Codepoint { codepoint: 0x11235, name: "KHOJKI SIGN VIRAMA", aliases: &[] },
        Codepoint { codepoint: 0x11236, name: "KHOJKI SIGN NUKTA", aliases: &[] },
        Codepoint { codepoint: 0x11237, name: "KHOJKI SIGN SHADDA", aliases: &[] },
        Codepoint { codepoint: 0x11238, name: "KHOJKI DANDA", aliases: &[] },
        Codepoint { codepoint: 0x11239, name: "KHOJKI DOUBLE DANDA", aliases: &[] },
        Codepoint { codepoint: 0x1123A, name: "KHOJKI WORD SEPARATOR", aliases: &[] },
        Codepoint { codepoint: 0x1123B, name: "KHOJKI SECTION MARK", aliases: &[] },
        Codepoint { codepoint: 0x1123C, name: "KHOJKI DOUBLE SECTION MARK", aliases: &[] },
        Codepoint { codepoint: 0x1123D, name: "KHOJKI ABBREVIATION SIGN", aliases: &[] },
        Codepoint { codepoint: 0x1123E, name: "KHOJKI SIGN SUKUN", aliases: &[] },
        Codepoint { codepoint: 0x11280, name: "MULTANI LETTER A", aliases: &[] },
        Codepoint { codepoint: 0x11281, name: "MULTANI LETTER I", aliases: &[] },
        Codepoint { codepoint: 0x11282, name: "MULTANI LETTER U", aliases: &[] },
        Codepoint { codepoint: 0x11283, name: "MULTANI LETTER E", aliases: &[] },
        Codepoint { codepoint: 0x11284, name: "MULTANI LETTER KA", aliases: &[] },
        Codepoint { codepoint: 0x11285, name: "MULTANI LETTER KHA", aliases: &[] },
        Codepoint { codepoint: 0x11286, name: "MULTANI LETTER GA", aliases: &[] },
        Codepoint { codepoint: 0x11288, name: "MULTANI LETTER GHA", aliases: &[] },
        Codepoint { codepoint: 0x1128A, name: "MULTANI LETTER CA", aliases: &[] },
        Codepoint { codepoint: 0x1128B, name: "MULTANI LETTER CHA", aliases: &[] },
        Codepoint { codepoint: 0x1128C, name: "MULTANI LETTER JA", aliases: &[] },
        Codepoint { codepoint: 0x1128D, name: "MULTANI LETTER JJA", aliases: &[] },
        Codepoint { codepoint: 0x1128F, name: "MULTANI LETTER NYA", aliases: &[] },
        Codepoint { codepoint: 0x11290, name: "MULTANI LETTER TTA", aliases: &[] },
        Codepoint { codepoint: 0x11291, name: "MULTANI LETTER TTHA", aliases: &[] },
        Codepoint { codepoint: 0x11292, name: "MULTANI LETTER DDA", aliases: &[] },
        Codepoint { codepoint: 0x11293, name: "MULTANI LETTER DDDA", aliases: &[] },
        Codepoint { codepoint: 0x11294, name: "MULTANI LETTER DDHA", aliases: &[] },
        Codepoint { codepoint: 0x11295, name: "MULTANI LETTER NNA", aliases: &[] },
        Codepoint { codepoint: 0x11296, name: "MULTANI LETTER TA", aliases: &[] },
    ];
    assert(v@ =~= codepoint_table_501());
    v
}

pub open spec fn codepoint_table_502() -> Seq<Codepoint> {
    seq![
        Codepoint { codepoint: 0x11297, name: "MULTANI LETTER THA", aliases: &[] },
        Codepoint { codepoint: 0x11298, name: "MULTANI LETTER DA", aliases: &[] },
        Codepoint { codepoint: 0x11299, name: "MULTANI LETTER DHA", aliases: &[] },
        Codepoint { codepoint: 0x1129A, name: "MULTANI LETTER NA", aliases: &[] },
        Codepoint { codepoint: 0x1129B, name: "MULTANI LETTER PA", aliases: &[] },
        Codepoint { codepoint: 0x1129C, name: "MULTANI LETTER PHA", aliases: &[] },
        Codepoint { codepoint: 0x1129D, name: "MULTANI LETTER BA", aliases: &[] },
        Codepoint { codepoint: 0x1129F, name: "MULTANI LETTER BHA", aliases: &[] },
        Codepoint { codepoint: 0x112A0, name: "MULTANI LETTER MA", aliases: &[] },
        Codepoint { codepoint: 0x112A1, name: "MULTANI LETTER YA", aliases: &[] },
        Codepoint { codepoint: 0x112A2, name: "MULTANI LETTER RA", aliases: &[] },
        Codepoint { codepoint: 0x112A3, name: "MULTANI LETTER LA", aliases: &[] },
        Codepoint { codepoint: 0x112A4, name: "MULTANI LETTER VA", aliases: &[] },
        Codepoint { codepoint: 0x112A5, name: "MULTANI LETTER SA", aliases: &[] },
        Codepoint { codepoint: 0x112A6, name: "MULTANI LETTER HA", aliases: &[] },
        Codepoint { codepoint: 0x112A7, name: "MULTANI LETTER RRA", aliases: &[] },
        Codepoint { codepoint: 0x112A8, name: "MULTANI LETTER RHA", aliases: &[] },
        Codepoint { codepoint: 0x112A9, name: "MULTANI SECTION MARK", aliases: &[] },
        Codepoint { codepoint: 0x112B0, name: "KHUDAWADI LETTER A", aliases: &[] },
        Codepoint { codepoint: 0x112B1, name: "KHUDAWADI LETTER AA", aliases: &[] },
        Codepoint { codepoint: 0x112B2, name: "KHUDAWADI LETTER I", aliases: &[] },
        Codepoint { codepoint: 0x112B3, name: "KHUDAWADI LETTER II", aliases: &[] },
        Codepoint { codepoint: 0x112B4, name: "KHUDAWADI LETTER U", aliases: &[] },
        Codepoint { codepoint: 0x112B5, name: "KHUDAWADI LETTER UU", aliases: &[] },
        Codepoint { codepoint: 0x112B6, name: "KHUDAWADI LETTER E", aliases: &[] },
        Codepoint { codepoint: 0x112B7, name: "KHUDAWADI LETTER AI", aliases: &[] },
        Codepoint { codepoint: 0x112B8, name: "KHUDAWADI LETTER O", aliases: &[] },
        Codepoint { codepoint: 0x112B9, name: "KHUDAWADI LETTER AU", aliases: &[] },
        Codepoint { codepoint: 0x112BA, name: "KHUDAWADI LETTER KA", aliases: &[] },
        Codepoint { codepoint: 0x112BB, name: "KHUDAWADI LETTER KHA", aliases: &[] },
        Codepoint { codepoint: 0x112BC, name: "KHUDAWADI LETTER GA", aliases: &[] },
        Codepoint { codepoint: 0x112BD, name: "KHUDAWADI LETTER GGA", aliases: &[] },
        Codepoint { codepoint: 0x112BE, name: "KHUDAWADI LETTER GHA", aliases: &[] },
        Codepoint { codepoint: 0x112BF, name: "KHUDAWADI LETTER NGA", aliases: &[] },
        Codepoint { codepoint: 0x112C0, name: "KHUDAWADI LETTER CA", aliases: &[] },
        Codepoint { codepoint: 0x112C1, name: "KHUDAWADI LETTER CHA", aliases: &[] },
        Codepoint { codepoint: 0x112C2, name: "KHUDAWADI LETTER JA", aliases: &[] },
        Codepoint { codepoint: 0x112C3, name: "KHUDAWADI LETTER JJA", aliases: &[] },
        Codepoint { codepoint: 0x112C4, name: "KHUDAWADI LETTER JHA", aliases: &[] },
        Codepoint { codepoint: 0x112C5, name: "KHUDAWADI LETTER NYA", aliases: &[] },
    ]
}

fn all_codepoints_502() -> (v: Vec<Codepoint>)
    ensures
        v@ == codepoint_table_502(),
{
    let v = vec![
        Codepoint { codepoint: 0x11297, name: "MULTANI LETTER THA", aliases: &[] },
        Codepoint { codepoint: 0x11298, name: "MULTANI LETTER DA", aliases: &[] },
        Codepoint { codepoint: 0x11299, name: "MULTANI LETTER DHA", aliases: &[] },
        Codepoint { codepoint: 0x1129A, name: "MULTANI LETTER NA", aliases: &[] },
        Codepoint { codepoint: 0x1129B, name: "MULTANI LETTER PA", aliases: &[] },
        Codepoint { codepoint: 0x1129C, name: "MULTANI LETTER PHA", aliases: &[] },
        Codepoint { codepoint: 0x1129D, name: "MULTANI LETTER BA", aliases: &[] },
        Codepoint { codepoint: 0x1129F, name: "MULTANI LETTER BHA", aliases: &[] },
        Codepoint { codepoint: 0x112A0, name: "MULTANI LETTER MA", aliases: &[] },
        Codepoint { codepoint: 0x112A1, name: "MULTANI LETTER YA", aliases: &[] },
        Codepoint { codepoint: 0x112A2, name: "MULTANI LETTER RA", aliases: &[] },
        Codepoint { codepoint: 0x112A3, name: "MULTANI LETTER LA", aliases: &[] },
        Codepoint { codepoint: 0x112A4, name: "MULTANI LETTER VA", aliases: &[] },
        Codepoint { codepoint: 0x112A5, name: "MULTANI LETTER SA", aliases: &[] },
        Codepoint { codepoint: 0x112A6, name: "MULTANI LETTER HA", aliases: &[] },
        Codepoint { codepoint: 0x112A7, name: "MULTANI LETTER RRA", aliases: &[] },
        Codepoint { codepoint: 0x112A8, name: "MULTANI LETTER RHA", aliases: &[] },
        Codepoint { codepoint: 0x112A9, name: "MULTANI SECTION MARK", aliases: &[] },
        Codepoint { codepoint: 0x112B0, name: "KHUDAWADI LETTER A", aliases: &[] },
        Codepoint { codepoint: 0x112B1, name: "KHUDAWADI LETTER AA", aliases: &[] },
        Codepoint { codepoint: 0x112B2, name: "KHUDAWADI LETTER I", aliases: &[] },
        Codepoint { codepoint: 0x112B3, name: "KHUDAWADI LETTER II", aliases: &[] },
        Codepoint { codepoint: 0x112B4, name: "KHUDAWADI LETTER U", aliases: &[] },
        Codepoint { codepoint: 0x112B5, name: "KHUDAWADI LETTER UU", aliases: &[] },
        Codepoint { codepoint: 0x112B6, name: "KHUDAWADI LETTER E", aliases: &[] },
        Codepoint { codepoint: 0x112B7, name: "KHUDAWADI LETTER AI", aliases: &[] },
        Codepoint { codepoint: 0x112B8, name: "KHUDAWADI LETTER O", aliases: &[] },
        Codepoint { codepoint: 0x112B9, name: "KHUDAWADI LETTER AU", aliases: &[] },
        Codepoint { codepoint: 0x112BA, name: "KHUDAWADI LETTER KA", aliases: &[] },
        Codepoint { codepoint: 0x112BB, name: "KHUDAWADI LETTER KHA", aliases: &[] },
        Codepoint { codepoint: 0x112BC, name: "KHUDAWADI LETTER GA", aliases: &[] },
        Codepoint { codepoint: 0x112BD, name: "KHUDAWADI LETTER GGA", aliases: &[] },
        Codepoint { codepoint: 0x112BE, name: "KHUDAWADI LETTER GHA", aliases: &[] },
        Codepoint { codepoint: 0x112BF, name: "KHUDAWADI LETTER NGA", aliases: &[] },
        Codepoint { codepoint: 0x112C0, name: "KHUDAWADI LETTER CA", aliases: &[] },
        Codepoint { codepoint: 0x112C1, name: "KHUDAWADI LETTER CHA", aliases: &[] },
        Codepoint { codepoint: 0x112C2, name: "KHUDAWADI LETTER JA", aliases: &[] },
        Codepoint { codepoint: 0x112C3, name: "KHUDAWADI LETTER JJA", aliases: &[] },
        Codepoint { codepoint: 0x112C4, name: "KHUDAWADI LETTER JHA", aliases: &[] },
        Codepoint { codepoint: 0x112C5, name: "KHUDAWADI LETTER NYA", aliases: &[] },
    ];
    assert(v@ =~= codepoint_table_502());
    v
}

pub open spec fn codepoint_table_503() -> Seq<Codepoint> {
    seq![
        Codepoint { codepoint: 0x112C6, name: "KHUDAWADI LETTER TTA", aliases: &[] },
        Codepoint { codepoint: 0x112C7, name: "KHUDAWADI LETTER TTHA", aliases: &[] },
        Codepoint { codepoint: 0x112C8, name: "KHUDAWADI LETTER DDA", aliases: &[] },
        Codepoint { codepoint: 0x112C9, name: "KHUDAWADI LETTER DDDA", aliases: &[] },
        Codepoint { codepoint: 0x112CA, name: "KHUDAWADI LETTER RRA", aliases: &[] },
        Codepoint { codepoint: 0x112CB, name: "KHUDAWADI LETTER DDHA", aliases: &[] },
        Codepoint { codepoint: 0x112CC, name: "KHUDAWADI LETTER NNA", aliases: &[] },
        Codepoint { codepoint: 0x112CD, name: "KHUDAWADI LETTER TA", aliases: &[] },
        Codepoint { codepoint: 0x112CE, name: "KHUDAWADI LETTER THA", aliases: &[] },
        Codepoint { codepoint: 0x112CF, name: "KHUDAWADI LETTER DA", aliases: &[] },
        Codepoint { codepoint: 0x112D0, name: "KHUDAWADI LETTER DHA", aliases: &[] },
        Codepoint { codepoint: 0x112D1, name: "KHUDAWADI LETTER NA", aliases: &[] },
        Codepoint { codepoint: 0x112D2, name: "KHUDAWADI LETTER PA", aliases: &[] },
        Codepoint { codepoint: 0x112D3, name: "KHUDAWADI LETTER PHA", aliases: &[] },
        Codepoint { codepoint: 0x112D4, name: "KHUDAWADI LETTER BA", aliases: &[] },
        Codepoint { codepoint: 0x112D5, name: "KHUDAWADI LETTER BBA", aliases: &[] },
        Codepoint { codepoint: 0x112D6, name: "KHUDAWADI LETTER BHA", aliases: &[] },
        Codepoint { codepoint: 0x112D7, name: "KHUDAWADI LETTER MA", aliases: &[] },
        Codepoint { codepoint: 0x112D8, name: "KHUDAWADI LETTER YA", aliases: &[] },
        Codepoint { codepoint: 0x112D9, name: "KHUDAWADI LETTER RA", aliases: &[] },
        Codepoint { codepoint: 0x112DA, name: "KHUDAWADI LETTER LA", aliases: &[] },
        Codepoint { codepoint: 0x112DB, name: "KHUDAWADI LETTER VA", aliases: &[] },
        Codepoint { codepoint: 0x112DC, name: "KHUDAWADI LETTER SHA", aliases: &[] },
        Codepoint { codepoint: 0x112DD, name: "KHUDAWADI LETTER SA", aliases: &[] },
        Codepoint { codepoint: 0x112DE, name: "KHUDAWADI LETTER HA", aliases: &[] },
        Codepoint { codepoint: 0x112DF, name: "KHUDAWADI SIGN ANUSVARA", aliases: &[] },
        Codepoint { codepoint: 0x112E0, name: "KHUDAWADI VOWEL SIGN AA", aliases: &[] },
        Codepoint { codepoint: 0x112E1, name: "KHUDAWADI VOWEL SIGN I", aliases: &[] },
        Codepoint { codepoint: 0x112E2, name: "KHUDAWADI VOWEL SIGN II", aliases: &[] },
        Codepoint { codepoint: 0x112E3, name: "KHUDAWADI VOWEL SIGN U", aliases: &[] },
        Codepoint { codepoint: 0x112E4, name: "KHUDAWADI VOWEL SIGN UU", aliases: &[] },
        Codepoint { codepoint: 0x112E5, name: "KHUDAWADI VOWEL SIGN E", aliases: &[] },
        Codepoint { codepoint: 0x112E6, name: "KHUDAWADI VOWEL SIGN AI", aliases: &[] },
        Codepoint { codepoint: 0x112E7, name: "KHUDAWADI VOWEL SIGN O", aliases: &[] },
        Codepoint { codepoint: 0x112E8, name: "KHUDAWADI VOWEL SIGN AU", aliases: &[] },
        Codepoint { codepoint: 0x112E9, name: "KHUDAWADI SIGN NUKTA", aliases: &[] },
        Codepoint { codepoint: 0x112EA, name: "KHUDAWADI SIGN VIRAMA", aliases: &[] },
        Codepoint { codepoint: 0x112F0, name: "KHUDAWADI DIGIT ZERO", aliases: &[] },
        Codepoint { codepoint: 0x112F1, name: "KHUDAWADI DIGIT ONE", aliases: &[] },
        Codepoint { codepoint: 0x112F2, name: "KHUDAWADI DIGIT TWO", aliases: &[] },
    ]
}

fn all_codepoints_503() -> (v: Vec<Codepoint>)
    ensures
        v@ == codepoint_table_503(),
{
    let v = vec![
        Codepoint { codepoint: 0x112C6, name: "KHUDAWADI LETTER TTA", aliases: &[] },
        Codepoint { codepoint: 0x112C7, name: "KHUDAWADI LETTER TTHA", aliases: &[] },
        Codepoint { codepoint: 0x112C8, name: "KHUDAWADI LETTER DDA", aliases: &[] },
        Codepoint { codepoint: 0x112C9, name: "KHUDAWADI LETTER DDDA", aliases: &[] },
        Codepoint { codepoint: 0x112CA, name: "KHUDAWADI LETTER RRA", aliases: &[] },
        Codepoint { codepoint: 0x112CB, name: "KHUDAWADI LETTER DDHA", aliases: &[] },
        Codepoint { codepoint: 0x112CC, name: "KHUDAWADI LETTER NNA", aliases: &[] },
        Codepoint { codepoint: 0x112CD, name: "KHUDAWADI LETTER TA", aliases: &[] },
        Codepoint { codepoint: 0x112CE, name: "KHUDAWADI LETTER THA", aliases: &[] },
        Codepoint { codepoint: 0x112CF, name: "KHUDAWADI LETTER DA", aliases: &[] },
        Codepoint { codepoint: 0x112D0, name: "KHUDAWADI LETTER DHA", aliases: &[] },
        Codepoint { codepoint: 0x112D1, name: "KHUDAWADI LETTER NA", aliases: &[] },
        Codepoint { codepoint: 0x112D2, name: "KHUDAWADI LETTER PA", aliases: &[] },
        Codepoint { codepoint: 0x112D3, name: "KHUDAWADI LETTER PHA", aliases: &[] },
        Codepoint { codepoint: 0x112D4, name: "KHUDAWADI LETTER BA", aliases: &[] },
        Codepoint { codepoint: 0x112D5, name: "KHUDAWADI LETTER BBA", aliases: &[] },
        Codepoint { codepoint: 0x112D6, name: "KHUDAWADI LETTER BHA", aliases: &[] },
        Codepoint { codepoint: 0x112D7, name: "KHUDAWADI LETTER MA", aliases: &[] },
        Codepoint { codepoint: 0x112D8, name: "KHUDAWADI LETTER YA", aliases: &[] },
        Codepoint { codepoint: 0x112D9, name: "KHUDAWADI LETTER RA", aliases: &[] },
        Codepoint { codepoint: 0x112DA, name: "KHUDAWADI LETTER LA", aliases: &[] },
        Codepoint { codepoint: 0x112DB, name: "KHUDAWADI LETTER VA", aliases: &[] },
        Codepoint { codepoint: 0x112DC, name: "KHUDAWADI LETTER SHA", aliases: &[] },
        Codepoint { codepoint: 0x112DD, name: "KHUDAWADI LETTER SA", aliases: &[] },
        Codepoint { codepoint: 0x112DE, name: "KHUDAWADI LETTER HA", aliases: &[] },
        Codepoint { codepoint: 0x112DF, name: "KHUDAWADI SIGN ANUSVARA", aliases: &[] },
        Codepoint { codepoint: 0x112E0, name: "KHUDAWADI VOWEL SIGN AA", aliases: &[] },
        Codepoint { codepoint: 0x112E1, name: "KHUDAWADI VOWEL SIGN I", aliases: &[] },
        Codepoint { codepoint: 0x112E2, name: "KHUDAWADI VOWEL SIGN II", aliases: &[] },
        Codepoint { codepoint: 0x112E3, name: "KHUDAWADI VOWEL SIGN U", aliases: &[] },
        Codepoint { codepoint: 0x112E4, name: "KHUDAWADI VOWEL SIGN UU", aliases: &[] },
        Codepoint { codepoint: 0x112E5, name: "KHUDAWADI VOWEL SIGN E", aliases: &[] },
        Codepoint { codepoint: 0x112E6, name: "KHUDAWADI VOWEL SIGN AI", aliases: &[] },
        Codepoint { codepoint: 0x112E7, name: "KHUDAWADI VOWEL SIGN O", aliases: &[] },
        Codepoint { codepoint: 0x112E8, name: "KHUDAWADI VOWEL SIGN AU", aliases: &[] },
        Codepoint { codepoint: 0x112E9, name: "KHUDAWADI SIGN NUKTA", aliases: &[] },
        Codepoint { codepoint: 0x112EA, name: "KHUDAWADI SIGN VIRAMA", aliases: &[] },
        Codepoint { codepoint: 0x112F0, name: "KHUDAWADI DIGIT ZERO", aliases: &[] },
        Codepoint { codepoint: 0x112F1, name: "KHUDAWADI DIGIT ONE", aliases: &[] },
        Codepoint { codepoint: 0x112F2, name: "KHUDAWADI DIGIT TWO", aliases: &[] },
    ];
    assert(v@ =~= codepoint_table_503());
    v
}

pub open spec fn codepoint_table_504() -> Seq<Codepoint> {
    seq![
        Codepoint { codepoint: 0x112F3, name: "KHUDAWADI DIGIT THREE", aliases: &[] },
        Codepoint { codepoint: 0x112F4, name: "KHUDAWADI DIGIT FOUR", aliases: &[] },
        Codepoint { codepoint: 0x112F5, name: "KHUDAWADI DIGIT FIVE", aliases: &[] },
        Codepoint { codepoint: 0x112F6, name: "KHUDAWADI DIGIT SIX", aliases: &[] },
        Codepoint { codepoint: 0x112F7, name: "KHUDAWADI DIGIT SEVEN", aliases: &[] },
        Codepoint { codepoint: 0x112F8, name: "KHUDAWADI DIGIT EIGHT", aliases: &[] },
        Codepoint { codepoint: 0x112F9, name: "KHUDAWADI DIGIT NINE", aliases: &[] },
        Codepoint { codepoint: 0x11300, name: "GRANTHA SIGN COMBINING ANUSVARA ABOVE", aliases: &[] },
        Codepoint { codepoint: 0x11301, name: "GRANTHA SIGN CANDRABINDU", aliases: &[] },
        Codepoint { codepoint: 0x11302, name: "GRANTHA SIGN ANUSVARA", aliases: &[] },
        Codepoint { codepoint: 0x11303, name: "GRANTHA SIGN VISARGA", aliases: &[] },
        Codepoint { codepoint: 0x11305, name: "GRANTHA LETTER A", aliases: &[] },
        Codepoint { codepoint: 0x11306, name: "GRANTHA LETTER AA", aliases: &[] },
        Codepoint { codepoint: 0x11307, name: "GRANTHA LETTER I", aliases: &[] },
        Codepoint { codepoint: 0x11308, name: "GRANTHA LETTER II", aliases: &[] },
        Codepoint { codepoint: 0x11309, name: "GRANTHA LETTER U", aliases: &[] },
        Codepoint { codepoint: 0x1130A, name: "GRANTHA LETTER UU", aliases: &[] },
        Codepoint { codepoint: 0x1130B, name: "GRANTHA LETTER VOCALIC R", aliases: &[] },
        Codepoint { codepoint: 0x1130C, name: "GRANTHA LETTER VOCALIC L", aliases: &[] },
        Codepoint { codepoint: 0x1130F, name: "GRANTHA LETTER EE", aliases: &[] },
        Codepoint { codepoint: 0x11310, name: "GRANTHA LETTER AI", aliases: &[] },
        Codepoint { codepoint: 0x11313, name: "GRANTHA LETTER OO", aliases: &[] },
        Codepoint { codepoint: 0x11314, name: "GRANTHA LETTER AU", aliases: &[] },
        Codepoint { codepoint: 0x11315, name: "GRANTHA LETTER KA", aliases: &[] },
        Codepoint { codepoint: 0x11316, name: "GRANTHA LETTER KHA", aliases: &[] },
        Codepoint { codepoint: 0x11317, name: "GRANTHA LETTER GA", aliases: &[] },
        Codepoint { codepoint: 0x11318, name: "GRANTHA LETTER GHA", aliases: &[] },
        Codepoint { codepoint: 0x11319, name: "GRANTHA LETTER NGA", aliases: &[] },
        Codepoint { codepoint: 0x1131A, name: "GRANTHA LETTER CA", aliases: &[] },
        Codepoint { codepoint: 0x1131B, name: "GRANTHA LETTER CHA", aliases: &[] },
        Codepoint { codepoint: 0x1131C, name: "GRANTHA LETTER JA", aliases: &[] },
        Codepoint { codepoint: 0x1131D, name: "GRANTHA LETTER JHA", aliases: &[] },
        Codepoint { codepoint: 0x1131E, name: "GRANTHA LETTER NYA", aliases: &[] },
        Codepoint { codepoint: 0x1131F, name: "GRANTHA LETTER TTA", aliases: &[] },
        Codepoint { codepoint: 0x11320, name: "GRANTHA LETTER TTHA", aliases: &[] },
        Codepoint { codepoint: 0x11321, name: "GRANTHA LETTER DDA", aliases: &[] },
        Codepoint { codepoint: 0x11322, name: "GRANTHA LETTER DDHA", aliases: &[] },
        Codepoint { codepoint: 0x11323, name: "GRANTHA LETTER NNA", aliases: &[] },
        Codepoint { codepoint: 0x11324, name: "GRANTHA LETTER TA", aliases: &[] },
        Codepoint { codepoint: 0x11325, name: "GRANTHA LETTER THA", aliases: &[] },
    ]
}

fn all_codepoints_504() -> (v: Vec<Codepoint>)
    ensures
        v@ == codepoint_table_504(),
{
    let v = vec![
        Codepoint { codepoint: 0x112F3, name: "KHUDAWADI DIGIT THREE", aliases: &[] },
        Codepoint { codepoint: 0x112F4, name: "KHUDAWADI DIGIT FOUR", aliases: &[] },
        Codepoint { codepoint: 0x112F5, name: "KHUDAWADI DIGIT FIVE", aliases: &[] },
        Codepoint { codepoint: 0x112F6, name: "KHUDAWADI DIGIT SIX", aliases: &[] },
        Codepoint { codepoint: 0x112F7, name: "KHUDAWADI DIGIT SEVEN", aliases: &[] },
        Codepoint { codepoint: 0x112F8, name: "KHUDAWADI DIGIT EIGHT", aliases: &[] },
        Codepoint { codepoint: 0x112F9, name: "KHUDAWADI DIGIT NINE", aliases: &[] },
        Codepoint { codepoint: 0x11300, name: "GRANTHA SIGN COMBINING ANUSVARA ABOVE", aliases: &[] },
        Codepoint { codepoint: 0x11301, name: "GRANTHA SIGN CANDRABINDU", aliases: &[] },
        Codepoint { codepoint: 0x11302, name: "GRANTHA SIGN ANUSVARA", aliases: &[] },
        Codepoint { codepoint: 0x11303, name: "GRANTHA SIGN VISARGA", aliases: &[] },
        Codepoint { codepoint: 0x11305, name: "GRANTHA LETTER A", aliases: &[] },
        Codepoint { codepoint: 0x11306, name: "GRANTHA LETTER AA", aliases: &[] },
        Codepoint { codepoint: 0x11307, name: "GRANTHA LETTER I", aliases: &[] },
        Codepoint { codepoint: 0x11308, name: "GRANTHA LETTER II", aliases: &[] },
        Codepoint { codepoint: 0x11309, name: "GRANTHA LETTER U", aliases: &[] },
        Codepoint { codepoint: 0x1130A, name: "GRANTHA LETTER UU", aliases: &[] },
        Codepoint { codepoint: 0x1130B, name: "GRANTHA LETTER VOCALIC R", aliases: &[] },
        Codepoint { codepoint: 0x1130C, name: "GRANTHA LETTER VOCALIC L", aliases: &[] },
        Codepoint { codepoint: 0x1130F, name: "GRANTHA LETTER EE", aliases: &[] },
        Codepoint { codepoint: 0x11310, name: "GRANTHA LETTER AI", aliases: &[] },
        Codepoint { codepoint: 0x11313, name: "GRANTHA LETTER OO", aliases: &[] },
        Codepoint { codepoint: 0x11314, name: "GRANTHA LETTER AU", aliases: &[] },
        Codepoint { codepoint: 0x11315, name: "GRANTHA LETTER KA", aliases: &[] },
        Codepoint { codepoint: 0x11316, name: "GRANTHA LETTER KHA", aliases: &[] },
        Codepoint { codepoint: 0x11317, name: "GRANTHA LETTER GA", aliases: &[] },
        Codepoint { codepoint: 0x11318, name: "GRANTHA LETTER GHA", aliases: &[] },
        Codepoint { codepoint: 0x11319, name: "GRANTHA LETTER NGA", aliases: &[] },
        Codepoint { codepoint: 0x1131A, name: "GRANTHA LETTER CA", aliases: &[] },
        Codepoint { codepoint: 0x1131B, name: "GRANTHA LETTER CHA", aliases: &[] },
        Codepoint { codepoint: 0x1131C, name: "GRANTHA LETTER JA", aliases: &[] },
        Codepoint { codepoint: 0x1131D, name: "GRANTHA LETTER JHA", aliases: &[] },
        Codepoint { codepoint: 0x1131E, name: "GRANTHA LETTER NYA", aliases: &[] },
        Codepoint { codepoint: 0x1131F, name: "GRANTHA LETTER TTA", aliases: &[] },
        Codepoint { codepoint: 0x11320, name: "GRANTHA LETTER TTHA", aliases: &[] },
        Codepoint { codepoint: 0x11321, name: "GRANTHA LETTER DDA", aliases: &[] },
        Codepoint { codepoint: 0x11322, name: "GRANTHA LETTER DDHA", aliases: &[] },
        Codepoint { codepoint: 0x11323, name: "GRANTHA LETTER NNA", aliases: &[] },
        Codepoint { codepoint: 0x11324, name: "GRANTHA LETTER TA", aliases: &[] },
        Codepoint { codepoint: 0x11325, name: "GRANTHA LETTER THA", aliases: &[] },
    ];
    assert(v@ =~= codepoint_table_504());
    v
}

pub open spec fn codepoint_table_505() -> Seq<Codepoint> {
    seq![
        Codepoint { codepoint: 0x11326, name: "GRANTHA LETTER DA", aliases: &[] },
        Codepoint { codepoint: 0x11327, name: "GRANTHA LETTER DHA", aliases: &[] },
        Codepoint { codepoint: 0x11328, name: "GRANTHA LETTER NA", aliases: &[] },
        Codepoint { codepoint: 0x1132A, name: "GRANTHA LETTER PA", aliases: &[] },
        Codepoint { codepoint: 0x1132B, name: "GRANTHA LETTER PHA", aliases: &[] },
        Codepoint { codepoint: 0x1132C, name: "GRANTHA LETTER BA", aliases: &[] },
        Codepoint { codepoint: 0x1132D, name: "GRANTHA LETTER BHA", aliases: &[] },
        Codepoint { codepoint: 0x1132E, name: "GRANTHA LETTER MA", aliases: &[] },
        Codepoint { codepoint: 0x1132F, name: "GRANTHA LETTER YA", aliases: &[] },
        Codepoint { codepoint: 0x11330, name: "GRANTHA LETTER RA", aliases: &[] },
        Codepoint { codepoint: 0x11332, name: "GRANTHA LETTER LA", aliases: &[] },
        Codepoint { codepoint: 0x11333, name: "GRANTHA LETTER LLA", aliases: &[] },
        Codepoint { codepoint: 0x11335, name: "GRANTHA LETTER VA", aliases: &[] },
        Codepoint { codepoint: 0x11336, name: "GRANTHA LETTER SHA", aliases: &[] },
        Codepoint { codepoint: 0x11337, name: "GRANTHA LETTER SSA", aliases: &[] },
        Codepoint { codepoint: 0x11338, name: "GRANTHA LETTER SA", aliases: &[] },
        Codepoint { codepoint: 0x11339, name: "GRANTHA LETTER HA", aliases: &[] },
        Codepoint { codepoint: 0x1133B, name: "COMBINING BINDU BELOW", aliases: &[] },
        Codepoint { codepoint: 0x1133C, name: "GRANTHA SIGN NUKTA", aliases: &[] },
        Codepoint { codepoint: 0x1133D, name: "GRANTHA SIGN AVAGRAHA", aliases: &[] },
        Codepoint { codepoint: 0x1133E, name: "GRANTHA VOWEL SIGN AA", aliases: &[] },
        Codepoint { codepoint: 0x1133F, name: "GRANTHA VOWEL SIGN I", aliases: &[] },
        Codepoint { codepoint: 0x11340, name: "GRANTHA VOWEL SIGN II", aliases: &[] },
        Codepoint { codepoint: 0x11341, name: "GRANTHA VOWEL SIGN U", aliases: &[] },
        Codepoint { codepoint: 0x11342, name: "GRANTHA VOWEL SIGN UU", aliases: &[] },
        Codepoint { codepoint: 0x11343, name: "GRANTHA VOWEL SIGN VOCALIC R", aliases: &[] },
        Codepoint { codepoint: 0x11344, name: "GRANTHA VOWEL SIGN VOCALIC RR", aliases: &[] },
        Codepoint { codepoint: 0x11347, name: "GRANTHA VOWEL SIGN EE", aliases: &[] },
        Codepoint { codepoint: 0x11348, name: "GRANTHA VOWEL SIGN AI", aliases: &[] },
        Codepoint { codepoint: 0x1134B, name: "GRANTHA VOWEL SIGN OO", aliases: &[] },
        Codepoint { codepoint: 0x1134C, name: "GRANTHA VOWEL SIGN AU", aliases: &[] },
        Codepoint { codepoint: 0x1134D, name: "GRANTHA SIGN VIRAMA", aliases: &[] },
        Codepoint { codepoint: 0x11350, name: "GRANTHA OM", aliases: &[] },
        Codepoint { codepoint: 0x11357, name: "GRANTHA AU LENGTH MARK", aliases: &[] },
        Codepoint { codepoint: 0x1135D, name: "GRANTHA SIGN PLUTA", aliases: &[] },
        Codepoint { codepoint: 0x1135E, name: "GRANTHA LETTER VEDIC ANUSVARA", aliases: &[] },
        Codepoint { codepoint: 0x1135F, name: "GRANTHA LETTER VEDIC DOUBLE ANUSVARA", aliases: &[] },
        Codepoint { codepoint: 0x11360, name: "GRANTHA LETTER VOCALIC RR", aliases: &[] },
        Codepoint { codepoint: 0x11361, name: "GRANTHA LETTER VOCALIC LL", aliases: &[] },
        Codepoint { codepoint: 0x11362, name: "GRANTHA VOWEL SIGN VOCALIC L", aliases: &[] },
    ]
}

fn all_codepoints_505() -> (v: Vec<Codepoint>)
    ensures
        v@ == codepoint_table_505(),
{
    let v = vec![
        Codepoint { codepoint: 0x11326, name: "GRANTHA LETTER DA", aliases: &[] },
        Codepoint { codepoint: 0x11327, name: "GRANTHA LETTER DHA", aliases: &[] },
        Codepoint { codepoint: 0x11328, name: "GRANTHA LETTER NA", aliases: &[] },
        Codepoint { codepoint: 0x1132A, name: "GRANTHA LETTER PA", aliases: &[] },
        Codepoint { codepoint: 0x1132B, name: "GRANTHA LETTER PHA", aliases: &[] },
        Codepoint { codepoint: 0x1132C, name: "GRANTHA LETTER BA", aliases: &[] },
        Codepoint { codepoint: 0x1132D, name: "GRANTHA LETTER BHA", aliases: &[] },
        Codepoint { codepoint: 0x1132E, name: "GRANTHA LETTER MA", aliases: &[] },
        Codepoint { codepoint: 0x1132F, name: "GRANTHA LETTER YA", aliases: &[] },
        Codepoint { codepoint: 0x11330, name: "GRANTHA LETTER RA", aliases: &[] },
        Codepoint { codepoint: 0x11332, name: "GRANTHA LETTER LA", aliases: &[] },
        Codepoint { codepoint: 0x11333, name: "GRANTHA LETTER LLA", aliases: &[] },
        Codepoint { codepoint: 0x11335, name: "GRANTHA LETTER VA", aliases: &[] },
        Codepoint { codepoint: 0x11336, name: "GRANTHA LETTER SHA", aliases: &[] },
        Codepoint { codepoint: 0x11337, name: "GRANTHA LETTER SSA", aliases: &[] },
        Codepoint { codepoint: 0x11338, name: "GRANTHA LETTER SA", aliases: &[] },
        Codepoint { codepoint: 0x11339, name: "GRANTHA LETTER HA", aliases: &[] },
        Codepoint { codepoint: 0x1133B, name: "COMBINING BINDU BELOW", aliases: &[] },
        Codepoint { codepoint: 0x1133C, name: "GRANTHA SIGN NUKTA", aliases: &[] },
        Codepoint { codepoint: 0x1133D, name: "GRANTHA SIGN AVAGRAHA", aliases: &[] },
        Codepoint { codepoint: 0x1133E, name: "GRANTHA VOWEL SIGN AA", aliases: &[] },
        Codepoint { codepoint: 0x1133F, name: "GRANTHA VOWEL SIGN I", aliases: &[] },
        Codepoint { codepoint: 0x11340, name: "GRANTHA VOWEL SIGN II", aliases: &[] },
        Codepoint { codepoint: 0x11341, name: "GRANTHA VOWEL SIGN U", aliases: &[] },
        Codepoint { codepoint: 0x11342, name: "GRANTHA VOWEL SIGN UU", aliases: &[] },
        Codepoint { codepoint: 0x11343, name: "GRANTHA VOWEL SIGN VOCALIC R", aliases: &[] },
        Codepoint { codepoint: 0x11344, name: "GRANTHA VOWEL SIGN VOCALIC RR", aliases: &[] },
        Codepoint { codepoint: 0x11347, name: "GRANTHA VOWEL SIGN EE", aliases: &[] },
        Codepoint { codepoint: 0x11348, name: "GRANTHA VOWEL SIGN AI", aliases: &[] },
        Codepoint { codepoint: 0x1134B, name: "GRANTHA VOWEL SIGN OO", aliases: &[] },
        Codepoint { codepoint: 0x1134C, name: "GRANTHA VOWEL SIGN AU", aliases: &[] },
        Codepoint { codepoint: 0x1134D, name: "GRANTHA SIGN VIRAMA", aliases: &[] },
        Codepoint { codepoint: 0x11350, name: "GRANTHA OM", aliases: &[] },
        Codepoint { codepoint: 0x11357, name: "GRANTHA AU LENGTH MARK", aliases: &[] },
        Codepoint { codepoint: 0x1135D, name: "GRANTHA SIGN PLUTA", aliases: &[] },
        Codepoint { codepoint: 0x1135E, name: "GRANTHA LETTER VEDIC ANUSVARA", aliases: &[] },
        Codepoint { codepoint: 0x1135F, name: "GRANTHA LETTER VEDIC DOUBLE ANUSVARA", aliases: &[] },
        Codepoint { codepoint: 0x11360, name: "GRANTHA LETTER VOCALIC RR", aliases: &[] },
        Codepoint { codepoint: 0x11361, name: "GRANTHA LETTER VOCALIC LL", aliases: &[] },
        Codepoint { codepoint: 0x11362, name: "GRANTHA VOWEL SIGN VOCALIC L", aliases: &[] },
    ];
    assert(v@ =~= codepoint_table_505());
    v
}

pub open spec fn codepoint_table_506() -> Seq<Codepoint> {
    seq![
        Codepoint { codepoint: 0x11363, name: "GRANTHA VOWEL SIGN VOCALIC LL", aliases: &[] },
        Codepoint { codepoint: 0x11366, name: "COMBINING GRANTHA DIGIT ZERO", aliases: &[] },
        Codepoint { codepoint: 0x11367, name: "COMBINING GRANTHA DIGIT ONE", aliases: &[] },
        Codepoint { codepoint: 0x11368, name: "COMBINING GRANTHA DIGIT TWO", aliases: &[] },
        Codepoint { codepoint: 0x11369, name: "COMBINING GRANTHA DIGIT THREE", aliases: &[] },
        Codepoint { codepoint: 0x1136A, name: "COMBINING GRANTHA DIGIT FOUR", aliases: &[] },
        Codepoint { codepoint: 0x1136B, name: "COMBINING GRANTHA DIGIT FIVE", aliases: &[] },
        Codepoint { codepoint: 0x1136C, name: "COMBINING GRANTHA DIGIT SIX", aliases: &[] },
        Codepoint { codepoint: 0x11370, name: "COMBINING GRANTHA LETTER A", aliases: &[] },
        Codepoint { codepoint: 0x11371, name: "COMBINING GRANTHA LETTER KA", aliases: &[] },
        Codepoint { codepoint: 0x11372, name: "COMBINING GRANTHA LETTER NA", aliases: &[] },
        Codepoint { codepoint: 0x11373, name: "COMBINING GRANTHA LETTER VI", aliases: &[] },
        Codepoint { codepoint: 0x11374, name: "COMBINING GRANTHA LETTER PA", aliases: &[] },
        Codepoint { codepoint: 0x11400, name: "NEWA LETTER A", aliases: &[] },
        Codepoint { codepoint: 0x11401, name: "NEWA LETTER AA", aliases: &[] },
        Codepoint { codepoint: 0x11402, name: "NEWA LETTER I", aliases: &[] },
        Codepoint { codepoint: 0x11403, name: "NEWA LETTER II", aliases: &[] },
        Codepoint { codepoint: 0x11404, name: "NEWA LETTER U", aliases: &[] },
        Codepoint { codepoint: 0x11405, name: "NEWA LETTER UU", aliases: &[] },
        Codepoint { codepoint: 0x11406, name: "NEWA LETTER VOCALIC R", aliases: &[] },
        Codepoint { codepoint: 0x11407, name: "NEWA LETTER VOCALIC RR", aliases: &[] },
        Codepoint { codepoint: 0x11408, name: "NEWA LETTER VOCALIC L", aliases: &[] },
        Codepoint { codepoint: 0x11409, name: "NEWA LETTER VOCALIC LL", aliases: &[] },
        Codepoint { codepoint: 0x1140A, name: "NEWA LETTER E", aliases: &[] },
        Codepoint { codepoint: 0x1140B, name: "NEWA LETTER AI", aliases: &[] },
        Codepoint { codepoint: 0x1140C, name: "NEWA LETTER O", aliases: &[] },
        Codepoint { codepoint: 0x1140D, name: "NEWA LETTER AU", aliases: &[] },
        Codepoint { codepoint: 0x1140E, name: "NEWA LETTER KA", aliases: &[] },
        Codepoint { codepoint: 0x1140F, name: "NEWA LETTER KHA", aliases: &[] },
        Codepoint { codepoint: 0x11410, name: "NEWA LETTER GA", aliases: &[] },
        Codepoint { codepoint: 0x11411, name: "NEWA LETTER GHA", aliases: &[] },
        Codepoint { codepoint: 0x11412, name: "NEWA LETTER NGA", aliases: &[] },
        Codepoint { codepoint: 0x11413, name: "NEWA LETTER NGHA", aliases: &[] },
        Codepoint { codepoint: 0x11414, name: "NEWA LETTER CA", aliases: &[] },
        Codepoint { codepoint: 0x11415, name: "NEWA LETTER CHA", aliases: &[] },
        Codepoint { codepoint: 0x11416, name: "NEWA LETTER JA", aliases: &[] },
        Codepoint { codepoint: 0x11417, name: "NEWA LETTER JHA", aliases: &[] },
        Codepoint { codepoint: 0x11418, name: "NEWA LETTER NYA", aliases: &[] },
        Codepoint { codepoint: 0x11419, name: "NEWA LETTER NYHA", aliases: &[] },
        Codepoint { codepoint: 0x1141A, name: "NEWA LETTER TTA", aliases: &[] },
    ]
}

fn all_codepoints_506() -> (v: Vec<Codepoint>)
    ensures
        v@ == codepoint_table_506(),
{
    let v = vec![
        Codepoint { codepoint: 0x11363, name: "GRANTHA VOWEL SIGN VOCALIC LL", aliases: &[] },
        Codepoint { codepoint: 0x11366, name: "COMBINING GRANTHA DIGIT ZERO", aliases: &[] },
        Codepoint { codepoint: 0x11367, name: "COMBINING GRANTHA DIGIT ONE", aliases: &[] },
        Codepoint { codepoint: 0x11368, name: "COMBINING GRANTHA DIGIT TWO", aliases: &[] },
        Codepoint { codepoint: 0x11369, name: "COMBINING GRANTHA DIGIT THREE", aliases: &[] },
        Codepoint { codepoint: 0x1136A, name: "COMBINING GRANTHA DIGIT FOUR", aliases: &[] },
        Codepoint { codepoint: 0x1136B, name: "COMBINING GRANTHA DIGIT FIVE", aliases: &[] },
        Codepoint { codepoint: 0x1136C, name: "COMBINING GRANTHA DIGIT SIX", aliases: &[] },
        Codepoint { codepoint: 0x11370, name: "COMBINING GRANTHA LETTER A", aliases: &[] },
        Codepoint { codepoint: 0x11371, name: "COMBINING GRANTHA LETTER KA", aliases: &[] },
        Codepoint { codepoint: 0x11372, name: "COMBINING GRANTHA LETTER NA", aliases: &[] },
        Codepoint { codepoint: 0x11373, name: "COMBINING GRANTHA LETTER VI", aliases: &[] },
        Codepoint { codepoint: 0x11374, name: "COMBINING GRANTHA LETTER PA", aliases: &[] },
        Codepoint { codepoint: 0x11400, name: "NEWA LETTER A", aliases: &[] },
        Codepoint { codepoint: 0x11401, name: "NEWA LETTER AA", aliases: &[] },
        Codepoint { codepoint: 0x11402, name: "NEWA LETTER I", aliases: &[] },
        Codepoint { codepoint: 0x11403, name: "NEWA LETTER II", aliases: &[] },
        Codepoint { codepoint: 0x11404, name: "NEWA LETTER U", aliases: &[] },
        Codepoint { codepoint: 0x11405, name: "NEWA LETTER UU", aliases: &[] },
        Codepoint { codepoint: 0x11406, name: "NEWA LETTER VOCALIC R", aliases: &[] },
        Codepoint { codepoint: 0x11407, name: "NEWA LETTER VOCALIC RR", aliases: &[] },
        Codepoint { codepoint: 0x11408, name: "NEWA LETTER VOCALIC L", aliases: &[] },
        Codepoint { codepoint: 0x11409, name: "NEWA LETTER VOCALIC LL", aliases: &[] },
        Codepoint { codepoint: 0x1140A, name: "NEWA LETTER E", aliases: &[] },
        Codepoint { codepoint: 0x1140B, name: "NEWA LETTER AI", aliases: &[] },
        Codepoint { codepoint: 0x1140C, name: "NEWA LETTER O", aliases: &[] },
        Codepoint { codepoint: 0x1140D, name: "NEWA LETTER AU", aliases: &[] },
        Codepoint { codepoint: 0x1140E, name: "NEWA LETTER KA", aliases: &[] },
        Codepoint { codepoint: 0x1140F, name: "NEWA LETTER KHA", aliases: &[] },
        Codepoint { codepoint: 0x11410, name: "NEWA LETTER GA", aliases: &[] },
        Codepoint { codepoint: 0x11411, name: "NEWA LETTER GHA", aliases: &[] },
        Codepoint { codepoint: 0x11412, name: "NEWA LETTER NGA", aliases: &[] },
        Codepoint { codepoint: 0x11413, name: "NEWA LETTER NGHA", aliases: &[] },
        Codepoint { codepoint: 0x11414, name: "NEWA LETTER CA", aliases: &[] },
        Codepoint { codepoint: 0x11415, name: "NEWA LETTER CHA", aliases: &[] },
        Codepoint { codepoint: 0x11416, name: "NEWA LETTER JA", aliases: &[] },
        Codepoint { codepoint: 0x11417, name: "NEWA LETTER JHA", aliases: &[] },
        Codepoint { codepoint: 0x11418, name: "NEWA LETTER NYA", aliases: &[] },
        Codepoint { codepoint: 0x11419, name: "NEWA LETTER NYHA", aliases: &[] },
        Codepoint { codepoint: 0x1141A, name: "NEWA LETTER TTA", aliases: &[] },
    ];
    assert(v@ =~= codepoint_table_506());
    v
}

pub open spec fn codepoint_table_507() -> Seq<Codepoint> {
    seq![
        Codepoint { codepoint: 0x1141B, name: "NEWA LETTER TTHA", aliases: &[] },
        Codepoint { codepoint: 0x1141C, name: "NEWA LETTER DDA", aliases: &[] },
        Codepoint { codepoint: 0x1141D, name: "NEWA LETTER DDHA", aliases: &[] },
        Codepoint { codepoint: 0x1141E, name: "NEWA LETTER NNA", aliases: &[] },
        Codepoint { codepoint: 0x1141F, name: "NEWA LETTER TA", aliases: &[] },
        Codepoint { codepoint: 0x11420, name: "NEWA LETTER THA", aliases: &[] },
        Codepoint { codepoint: 0x11421, name: "NEWA LETTER DA", aliases: &[] },
        Codepoint { codepoint: 0x11422, name: "NEWA LETTER DHA", aliases: &[] },
        Codepoint { codepoint: 0x11423, name: "NEWA LETTER NA", aliases: &[] },
        Codepoint { codepoint: 0x11424, name: "NEWA LETTER NHA", aliases: &[] },
        Codepoint { codepoint: 0x11425, name: "NEWA LETTER PA", aliases: &[] },
        Codepoint { codepoint: 0x11426, name: "NEWA LETTER PHA", aliases: &[] },
        Codepoint { codepoint: 0x11427, name: "NEWA LETTER BA", aliases: &[] },
        Codepoint { codepoint: 0x11428, name: "NEWA LETTER BHA", aliases: &[] },
        Codepoint { codepoint: 0x11429, name: "NEWA LETTER MA", aliases: &[] },
        Codepoint { codepoint: 0x1142A, name: "NEWA LETTER MHA", aliases: &[] },
        Codepoint { codepoint: 0x1142B, name: "NEWA LETTER YA", aliases: &[] },
        Codepoint { codepoint: 0x1142C, name: "NEWA LETTER RA", aliases: &[] },
        Codepoint { codepoint: 0x1142D, name: "NEWA LETTER RHA", aliases: &[] },
        Codepoint { codepoint: 0x1142E, name: "NEWA LETTER LA", aliases: &[] },
        Codepoint { codepoint: 0x1142F, name: "NEWA LETTER LHA", aliases: &[] },
        Codepoint { codepoint: 0x11430, name: "NEWA LETTER WA", aliases: &[] },
        Codepoint { codepoint: 0x11431, name: "NEWA LETTER SHA", aliases: &[] },
        Codepoint { codepoint: 0x11432, name: "NEWA LETTER SSA", aliases: &[] },
        Codepoint { codepoint: 0x11433, name: "NEWA LETTER SA", aliases: &[] },
        Codepoint { codepoint: 0x11434, name: "NEWA LETTER HA", aliases: &[] },
        Codepoint { codepoint: 0x11435, name: "NEWA VOWEL SIGN AA", aliases: &[] },
        Codepoint { codepoint: 0x11436, name: "NEWA VOWEL SIGN I", aliases: &[] },
        Codepoint { codepoint: 0x11437, name: "NEWA VOWEL SIGN II", aliases: &[] },
        Codepoint { codepoint: 0x11438, name: "NEWA VOWEL SIGN U", aliases: &[] },
        Codepoint { codepoint: 0x11439, name: "NEWA VOWEL SIGN UU", aliases: &[] },
        Codepoint { codepoint: 0x1143A, name: "NEWA VOWEL SIGN VOCALIC R", aliases: &[] },
        Codepoint { codepoint: 0x1143B, name: "NEWA VOWEL SIGN VOCALIC RR", aliases: &[] },
        Codepoint { codepoint: 0x1143C, name: "NEWA VOWEL SIGN VOCALIC L", aliases: &[] },
        Codepoint { codepoint: 0x1143D, name: "NEWA VOWEL SIGN VOCALIC LL", aliases: &[] },
        Codepoint { codepoint: 0x1143E, name: "NEWA VOWEL SIGN E", aliases: &[] },
        Codepoint { codepoint: 0x1143F, name: "NEWA VOWEL SIGN AI", aliases: &[] },
        Codepoint { codepoint: 0x11440, name: "NEWA VOWEL SIGN O", aliases: &[] },
        Codepoint { codepoint: 0x11441, name: "NEWA VOWEL SIGN AU", aliases: &[] },
        Codepoint { codepoint: 0x11442, name: "NEWA SIGN VIRAMA", aliases: &[] },
    ]
}

fn all_codepoints_507() -> (v: Vec<Codepoint>)
    ensures
        v@ == codepoint_table_507(),
{
    let v = vec![
        Codepoint { codepoint: 0x1141B, name: "NEWA LETTER TTHA", aliases: &[] },
        Codepoint { codepoint: 0x1141C, name: "NEWA LETTER DDA", aliases: &[] },
        Codepoint { codepoint: 0x1141D, name: "NEWA LETTER DDHA", aliases: &[] },
        Codepoint { codepoint: 0x1141E, name: "NEWA LETTER NNA", aliases: &[] },
        Codepoint { codepoint: 0x1141F, name: "NEWA LETTER TA", aliases: &[] },
        Codepoint { codepoint: 0x11420, name: "NEWA LETTER THA", aliases: &[] },
        Codepoint { codepoint: 0x11421, name: "NEWA LETTER DA", aliases: &[] },
        Codepoint { codepoint: 0x11422, name: "NEWA LETTER DHA", aliases: &[] },
        Codepoint { codepoint: 0x11423, name: "NEWA LETTER NA", aliases: &[] },
        Codepoint { codepoint: 0x11424, name: "NEWA LETTER NHA", aliases: &[] },
        Codepoint { codepoint: 0x11425, name: "NEWA LETTER PA", aliases: &[] },
        Codepoint { codepoint: 0x11426, name: "NEWA LETTER PHA", aliases: &[] },
        Codepoint { codepoint: 0x11427, name: "NEWA LETTER BA", aliases: &[] },
        Codepoint { codepoint: 0x11428, name: "NEWA LETTER BHA", aliases: &[] },
        Codepoint { codepoint: 0x11429, name: "NEWA LETTER MA", aliases: &[] },
        Codepoint { codepoint: 0x1142A, name: "NEWA LETTER MHA", aliases: &[] },
        Codepoint { codepoint: 0x1142B, name: "NEWA LETTER YA", aliases: &[] },
        Codepoint { codepoint: 0x1142C, name: "NEWA LETTER RA", aliases: &[] },
        Codepoint { codepoint: 0x1142D, name: "NEWA LETTER RHA", aliases: &[] },
        Codepoint { codepoint: 0x1142E, name: "NEWA LETTER LA", aliases: &[] },
        Codepoint { codepoint: 0x1142F, name: "NEWA LETTER LHA", aliases: &[] },
        Codepoint { codepoint: 0x11430, name: "NEWA LETTER WA", aliases: &[] },
        Codepoint { codepoint: 0x11431, name: "NEWA LETTER SHA", aliases: &[] },
        Codepoint { codepoint: 0x11432, name: "NEWA LETTER SSA", aliases: &[] },
        Codepoint { codepoint: 0x11433, name: "NEWA LETTER SA", aliases: &[] },
        Codepoint { codepoint: 0x11434, name: "NEWA LETTER HA", aliases: &[] },
        Codepoint { codepoint: 0x11435, name: "NEWA VOWEL SIGN AA", aliases: &[] },
        Codepoint { codepoint: 0x11436, name: "NEWA VOWEL SIGN I", aliases: &[] },
        Codepoint { codepoint: 0x11437, name: "NEWA VOWEL SIGN II", aliases: &[] },
        Codepoint { codepoint: 0x11438, name: "NEWA VOWEL SIGN U", aliases: &[] },
        Codepoint { codepoint: 0x11439, name: "NEWA VOWEL SIGN UU", aliases: &[] },
        Codepoint { codepoint: 0x1143A, name: "NEWA VOWEL SIGN VOCALIC R", aliases: &[] },
        Codepoint { codepoint: 0x1143B, name: "NEWA VOWEL SIGN VOCALIC RR", aliases: &[] },
        Codepoint { codepoint: 0x1143C, name: "NEWA VOWEL SIGN VOCALIC L", aliases: &[] },
        Codepoint { codepoint: 0x1143D, name: "NEWA VOWEL SIGN VOCALIC LL", aliases: &[] },
        Codepoint { codepoint: 0x1143E, name: "NEWA VOWEL SIGN E", aliases: &[] },
        Codepoint { codepoint: 0x1143F, name: "NEWA VOWEL SIGN AI", aliases: &[] },
        Codepoint { codepoint: 0x11440, name: "NEWA VOWEL SIGN O", aliases: &[] },
        Codepoint { codepoint: 0x11441, name: "NEWA VOWEL SIGN AU", aliases: &[] },
        Codepoint { codepoint: 0x11442, name: "NEWA SIGN VIRAMA", aliases: &[] },
    ];
    assert(v@ =~= codepoint_table_507());
    v
}

pub open spec fn codepoint_table_508() -> Seq<Codepoint> {
    seq![
        Codepoint { codepoint: 0x11443, name: "NEWA SIGN CANDRABINDU", aliases: &[] },
        Codepoint { codepoint: 0x11444, name: "NEWA SIGN ANUSVARA", aliases: &[] },
        Codepoint { codepoint: 0x11445, name: "NEWA SIGN VISARGA", aliases: &[] },
        Codepoint { codepoint: 0x11446, name: "NEWA SIGN NUKTA", aliases: &[] },
        Codepoint { codepoint: 0x11447, name: "NEWA SIGN AVAGRAHA", aliases: &[] },
        Codepoint { codepoint: 0x11448, name: "NEWA SIGN FINAL ANUSVARA", aliases: &[] },
        Codepoint { codepoint: 0x11449, name: "NEWA OM", aliases: &[] },
        Codepoint { codepoint: 0x1144A, name: "NEWA SIDDHI", aliases: &[] },
        Codepoint { codepoint: 0x1144B, name: "NEWA DANDA", aliases: &[] },
        Codepoint { codepoint: 0x1144C, name: "NEWA DOUBLE DANDA", aliases: &[] },
        Codepoint { codepoint: 0x1144D, name: "NEWA COMMA", aliases: &[] },
        Codepoint { codepoint: 0x1144E, name: "NEWA GAP FILLER", aliases: &[] },
        Codepoint { codepoint: 0x1144F, name: "NEWA ABBREVIATION SIGN", aliases: &[] },
        Codepoint { codepoint: 0x11450, name: "NEWA DIGIT ZERO", aliases: &[] },
        Codepoint { codepoint: 0x11451, name: "NEWA DIGIT ONE", aliases: &[] },
        Codepoint { codepoint: 0x11452, name: "NEWA DIGIT TWO", aliases: &[] },
        Codepoint { codepoint: 0x11453, name: "NEWA DIGIT THREE", aliases: &[] },
        Codepoint { codepoint: 0x11454, name: "NEWA DIGIT FOUR", aliases: &[] },
        Codepoint { codepoint: 0x11455, name: "NEWA DIGIT FIVE", aliases: &[] },
        Codepoint { codepoint: 0x11456, name: "NEWA DIGIT SIX", aliases: &[] },
        Codepoint { codepoint: 0x11457, name: "NEWA DIGIT SEVEN", aliases: &[] },
        Codepoint { codepoint: 0x11458, name: "NEWA DIGIT EIGHT", aliases: &[] },
        Codepoint { codepoint: 0x11459, name: "NEWA DIGIT NINE", aliases: &[] },
        Codepoint { codepoint: 0x1145A, name: "NEWA DOUBLE COMMA", aliases: &[] },
        Codepoint { codepoint: 0x1145B, name: "NEWA PLACEHOLDER MARK", aliases: &[] },
        Codepoint { codepoint: 0x1145D, name: "NEWA INSERTION SIGN", aliases: &[] },
        Codepoint { codepoint: 0x1145E, name: "NEWA SANDHI MARK", aliases: &[] },
        Codepoint { codepoint: 0x1145F, name: "NEWA LETTER VEDIC ANUSVARA", aliases: &[] },
        Codepoint { codepoint: 0x11460, name: "NEWA SIGN JIHVAMULIYA", aliases: &[] },
        Codepoint { codepoint: 0x11461, name: "NEWA SIGN UPADHMANIYA", aliases: &[] },
        Codepoint { codepoint: 0x11480, name: "TIRHUTA ANJI", aliases: &[] },
        Codepoint { codepoint: 0x11481, name: "TIRHUTA LETTER A", aliases: &[] },
        Codepoint { codepoint: 0x11482, name: "TIRHUTA LETTER AA", aliases: &[] },
        Codepoint { codepoint: 0x11483, name: "TIRHUTA LETTER I", aliases: &[] },
        Codepoint { codepoint: 0x11484, name: "TIRHUTA LETTER II", aliases: &[] },
        Codepoint { codepoint: 0x11485, name: "TIRHUTA LETTER U", aliases: &[] },
        Codepoint { codepoint: 0x11486, name: "TIRHUTA LETTER UU", aliases: &[] },
        Codepoint { codepoint: 0x11487, name: "TIRHUTA LETTER VOCALIC R", aliases: &[] },
        Codepoint { codepoint: 0x11488, name: "TIRHUTA LETTER VOCALIC RR", aliases: &[] },
        Codepoint { codepoint: 0x11489, name: "TIRHUTA LETTER VOCALIC L", aliases: &[] },
    ]
}

fn all_codepoints_508() -> (v: Vec<Codepoint>)
    ensures
        v@ == codepoint_table_508(),
{
    let v = vec![
        Codepoint { codepoint: 0x11443, name: "NEWA SIGN CANDRABINDU", aliases: &[] },
        Codepoint { codepoint: 0x11444, name: "NEWA SIGN ANUSVARA", aliases: &[] },
        Codepoint { codepoint: 0x11445, name: "NEWA SIGN VISARGA", aliases: &[] },
        Codepoint { codepoint: 0x11446, name: "NEWA SIGN NUKTA", aliases: &[] },
        Codepoint { codepoint: 0x11447, name: "NEWA SIGN AVAGRAHA", aliases: &[] },
        Codepoint { codepoint: 0x11448, name: "NEWA SIGN FINAL ANUSVARA", aliases: &[] },
        Codepoint { codepoint: 0x11449, name: "NEWA OM", aliases: &[] },
        Codepoint { codepoint: 0x1144A, name: "NEWA SIDDHI", aliases: &[] },
        Codepoint { codepoint: 0x1144B, name: "NEWA DANDA", aliases: &[] },
        Codepoint { codepoint: 0x1144C, name: "NEWA DOUBLE DANDA", aliases: &[] },
        Codepoint { codepoint: 0x1144D, name: "NEWA COMMA", aliases: &[] },
        Codepoint { codepoint: 0x1144E, name: "NEWA GAP FILLER", aliases: &[] },
        Codepoint { codepoint: 0x1144F, name: "NEWA ABBREVIATION SIGN", aliases: &[] },
        Codepoint { codepoint: 0x11450, name: "NEWA DIGIT ZERO", aliases: &[] },
        Codepoint { codepoint: 0x11451, name: "NEWA DIGIT ONE", aliases: &[] },
        Codepoint { codepoint: 0x11452, name: "NEWA DIGIT TWO", aliases: &[] },
        Codepoint { codepoint: 0x11453, name: "NEWA DIGIT THREE", aliases: &[] },
        Codepoint { codepoint: 0x11454, name: "NEWA DIGIT FOUR", aliases: &[] },
        Codepoint { codepoint: 0x11455, name: "NEWA DIGIT FIVE", aliases: &[] },
        Codepoint { codepoint: 0x11456, name: "NEWA DIGIT SIX", aliases: &[] },
        Codepoint { codepoint: 0x11457, name: "NEWA DIGIT SEVEN", aliases: &[] },
        Codepoint { codepoint: 0x11458, name: "NEWA DIGIT EIGHT", aliases: &[] },
        Codepoint { codepoint: 0x11459, name: "NEWA DIGIT NINE", aliases: &[] },
        Codepoint { codepoint: 0x1145A, name: "NEWA DOUBLE COMMA", aliases: &[] },
        Codepoint { codepoint: 0x1145B, name: "NEWA PLACEHOLDER MARK", aliases: &[] },
        Codepoint { codepoint: 0x1145D, name: "NEWA INSERTION SIGN", aliases: &[] },
        Codepoint { codepoint: 0x1145E, name: "NEWA SANDHI MARK", aliases: &[] },
        Codepoint { codepoint: 0x1145F, name: "NEWA LETTER VEDIC ANUSVARA", aliases: &[] },
        Codepoint { codepoint: 0x11460, name: "NEWA SIGN JIHVAMULIYA", aliases: &[] },
        Codepoint { codepoint: 0x11461, name: "NEWA SIGN UPADHMANIYA", aliases: &[] },
        Codepoint { codepoint: 0x11480, name: "TIRHUTA ANJI", aliases: &[] },
        Codepoint { codepoint: 0x11481, name: "TIRHUTA LETTER A", aliases: &[] },
        Codepoint { codepoint: 0x11482, name: "TIRHUTA LETTER AA", aliases: &[] },
        Codepoint { codepoint: 0x11483, name: "TIRHUTA LETTER I", aliases: &[] },
        Codepoint { codepoint: 0x11484, name: "TIRHUTA LETTER II", aliases: &[] },
        Codepoint { codepoint: 0x11485, name: "TIRHUTA LETTER U", aliases: &[] },
        Codepoint { codepoint: 0x11486, name: "TIRHUTA LETTER UU", aliases: &[] },
        Codepoint { codepoint: 0x11487, name: "TIRHUTA LETTER VOCALIC R", aliases: &[] },
        Codepoint { codepoint: 0x11488, name: "TIRHUTA LETTER VOCALIC RR", aliases: &[] },
        Codepoint { codepoint: 0x11489, name: "TIRHUTA LETTER VOCALIC L", aliases: &[] },
    ];
    assert(v@ =~= codepoint_table_508());
    v
}

pub open spec fn codepoint_table_509() -> Seq<Codepoint> {
    seq![
        Codepoint { codepoint: 0x1148A, name: "TIRHUTA LETTER VOCALIC LL", aliases: &[] },
        Codepoint { codepoint: 0x1148B, name: "TIRHUTA LETTER E", aliases: &[] },
        Codepoint { codepoint: 0x1148C, name: "TIRHUTA LETTER AI", aliases: &[] },
        Codepoint { codepoint: 0x1148D, name: "TIRHUTA LETTER O", aliases: &[] },
        Codepoint { codepoint: 0x1148E, name: "TIRHUTA LETTER AU", aliases: &[] },
        Codepoint { codepoint: 0x1148F, name: "TIRHUTA LETTER KA", aliases: &[] },
        Codepoint { codepoint: 0x11490, name: "TIRHUTA LETTER KHA", aliases: &[] },
        Codepoint { codepoint: 0x11491, name: "TIRHUTA LETTER GA", aliases: &[] },
        Codepoint { codepoint: 0x11492, name: "TIRHUTA LETTER GHA", aliases: &[] },
        Codepoint { codepoint: 0x11493, name: "TIRHUTA LETTER NGA", aliases: &[] },
        Codepoint { codepoint: 0x11494, name: "TIRHUTA LETTER CA", aliases: &[] },
        Codepoint { codepoint: 0x11495, name: "TIRHUTA LETTER CHA", aliases: &[] },
        Codepoint { codepoint: 0x11496, name: "TIRHUTA LETTER JA", aliases: &[] },
        Codepoint { codepoint: 0x11497, name: "TIRHUTA LETTER JHA", aliases: &[] },
        Codepoint { codepoint: 0x11498, name: "TIRHUTA LETTER NYA", aliases: &[] },
        Codepoint { codepoint: 0x11499, name: "TIRHUTA LETTER TTA", aliases: &[] },
        Codepoint { codepoint: 0x1149A, name: "TIRHUTA LETTER TTHA", aliases: &[] },
        Codepoint { codepoint: 0x1149B, name: "TIRHUTA LETTER DDA", aliases: &[] },
        Codepoint { codepoint: 0x1149C, name: "TIRHUTA LETTER DDHA", aliases: &[] },
        Codepoint { codepoint: 0x1149D, name: "TIRHUTA LETTER NNA", aliases: &[] },
        Codepoint { codepoint: 0x1149E, name: "TIRHUTA LETTER TA", aliases: &[] },
        Codepoint { codepoint: 0x1149F, name: "TIRHUTA LETTER THA", aliases: &[] },
        Codepoint { codepoint: 0x114A0, name: "TIRHUTA LETTER DA", aliases: &[] },
        Codepoint { codepoint: 0x114A1, name: "TIRHUTA LETTER DHA", aliases: &[] },
        Codepoint { codepoint: 0x114A2, name: "TIRHUTA LETTER NA", aliases: &[] },
        Codepoint { codepoint: 0x114A3, name: "TIRHUTA LETTER PA", aliases: &[] },
        Codepoint { codepoint: 0x114A4, name: "TIRHUTA LETTER PHA", aliases: &[] },
        Codepoint { codepoint: 0x114A5, name: "TIRHUTA LETTER BA", aliases: &[] },
        Codepoint { codepoint: 0x114A6, name: "TIRHUTA LETTER BHA", aliases: &[] },
        Codepoint { codepoint: 0x114A7, name: "TIRHUTA LETTER MA", aliases: &[] },
        Codepoint { codepoint: 0x114A8, name: "TIRHUTA LETTER YA", aliases: &[] },
        Codepoint { codepoint: 0x114A9, name: "TIRHUTA LETTER RA", aliases: &[] },
        Codepoint { codepoint: 0x114AA, name: "TIRHUTA LETTER LA", aliases: &[] },
        Codepoint { codepoint: 0x114AB, name: "TIRHUTA LETTER VA", aliases: &[] },
        Codepoint { codepoint: 0x114AC, name: "TIRHUTA LETTER SHA", aliases: &[] },
        Codepoint { codepoint: 0x114AD, name: "TIRHUTA LETTER SSA", aliases: &[] },
        Codepoint { codepoint: 0x114AE, name: "TIRHUTA LETTER SA", aliases: &[] },
        Codepoint { codepoint: 0x114AF, name: "TIRHUTA LETTER HA", aliases: &[] },
        Codepoint { codepoint: 0x114B0, name: "TIRHUTA VOWEL SIGN AA", aliases: &[] },
        Codepoint { codepoint: 0x114B1, name: "TIRHUTA VOWEL SIGN I", aliases: &[] },
    ]
}

fn all_codepoints_509() -> (v: Vec<Codepoint>)
    ensures
        v@ == codepoint_table_509(),
{
    let v = vec![
        Codepoint { codepoint: 0x1148A, name: "TIRHUTA LETTER VOCALIC LL", aliases: &[] },
        Codepoint { codepoint: 0x1148B, name: "TIRHUTA LETTER E", aliases: &[] },
        Codepoint { codepoint: 0x1148C, name: "TIRHUTA LETTER AI", aliases: &[] },
        Codepoint { codepoint: 0x1148D, name: "TIRHUTA LETTER O", aliases: &[] },
        Codepoint { codepoint: 0x1148E, name: "TIRHUTA LETTER AU", aliases: &[] },
        Codepoint { codepoint: 0x1148F, name: "TIRHUTA LETTER KA", aliases: &[] },
        Codepoint { codepoint: 0x11490, name: "TIRHUTA LETTER KHA", aliases: &[] },
        Codepoint { codepoint: 0x11491, name: "TIRHUTA LETTER GA", aliases: &[] },
        Codepoint { codepoint: 0x11492, name: "TIRHUTA LETTER GHA", aliases: &[] },
        Codepoint { codepoint: 0x11493, name: "TIRHUTA LETTER NGA", aliases: &[] },
        Codepoint { codepoint: 0x11494, name: "TIRHUTA LETTER CA", aliases: &[] },
        Codepoint { codepoint: 0x11495, name: "TIRHUTA LETTER CHA", aliases: &[] },
        Codepoint { codepoint: 0x11496, name: "TIRHUTA LETTER JA", aliases: &[] },
        Codepoint { codepoint: 0x11497, name: "TIRHUTA LETTER JHA", aliases: &[] },
        Codepoint { codepoint: 0x11498, name: "TIRHUTA LETTER NYA", aliases: &[] },
        Codepoint { codepoint: 0x11499, name: "TIRHUTA LETTER TTA", aliases: &[] },
        Codepoint { codepoint: 0x1149A, name: "TIRHUTA LETTER TTHA", aliases: &[] },
        Codepoint { codepoint: 0x1149B, name: "TIRHUTA LETTER DDA", aliases: &[] },
        Codepoint { codepoint: 0x1149C, name: "TIRHUTA LETTER DDHA", aliases: &[] },
        Codepoint { codepoint: 0x1149D, name: "TIRHUTA LETTER NNA", aliases: &[] },
        Codepoint { codepoint: 0x1149E, name: "TIRHUTA LETTER TA", aliases: &[] },
        Codepoint { codepoint: 0x1149F, name: "TIRHUTA LETTER THA", aliases: &[] },
        Codepoint { codepoint: 0x114A0, name: "TIRHUTA LETTER DA", aliases: &[] },
        Codepoint { codepoint: 0x114A1, name: "TIRHUTA LETTER DHA", aliases: &[] },
        Codepoint { codepoint: 0x114A2, name: "TIRHUTA LETTER NA", aliases: &[] },
        Codepoint { codepoint: 0x114A3, name: "TIRHUTA LETTER PA", aliases: &[] },
        Codepoint { codepoint: 0x114A4, name: "TIRHUTA LETTER PHA", aliases: &[] },
        Codepoint { codepoint: 0x114A5, name: "TIRHUTA LETTER BA", aliases: &[] },
        Codepoint { codepoint: 0x114A6, name: "TIRHUTA LETTER BHA", aliases: &[] },
        Codepoint { codepoint: 0x114A7, name: "TIRHUTA LETTER MA", aliases: &[] },
        Codepoint { codepoint: 0x114A8, name: "TIRHUTA LETTER YA", aliases: &[] },
        Codepoint { codepoint: 0x114A9, name: "TIRHUTA LETTER RA", aliases: &[] },
        Codepoint { codepoint: 0x114AA, name: "TIRHUTA LETTER LA", aliases: &[] },
        Codepoint { codepoint: 0x114AB, name: "TIRHUTA LETTER VA", aliases: &[] },
        Codepoint { codepoint: 0x114AC, name: "TIRHUTA LETTER SHA", aliases: &[] },
        Codepoint { codepoint: 0x114AD, name: "TIRHUTA LETTER SSA", aliases: &[] },
        Codepoint { codepoint: 0x114AE, name: "TIRHUTA LETTER SA", aliases: &[] },
        Codepoint { codepoint: 0x114AF, name: "TIRHUTA LETTER HA", aliases: &[] },
        Codepoint { codepoint: 0x114B0, name: "TIRHUTA VOWEL SIGN AA", aliases: &[] },
        Codepoint { codepoint: 0x114B1, name: "TIRHUTA VOWEL SIGN I", aliases: &[] },
    ];
    assert(v@ =~= codepoint_table_509());
    v
}

pub open spec fn codepoint_table_510() -> Seq<Codepoint> {
    seq![
        Codepoint { codepoint: 0x114B2, name: "TIRHUTA VOWEL SIGN II", aliases: &[] },
        Codepoint { codepoint: 0x114B3, name: "TIRHUTA VOWEL SIGN U", aliases: &[] },
        Codepoint { codepoint: 0x114B4, name: "TIRHUTA VOWEL SIGN UU", aliases: &[] },
        Codepoint { codepoint: 0x114B5, name: "TIRHUTA VOWEL SIGN VOCALIC R", aliases: &[] },
        Codepoint { codepoint: 0x114B6, name: "TIRHUTA VOWEL SIGN VOCALIC RR", aliases: &[] },
        Codepoint { codepoint: 0x114B7, name: "TIRHUTA VOWEL SIGN VOCALIC L", aliases: &[] },
        Codepoint { codepoint: 0x114B8, name: "TIRHUTA VOWEL SIGN VOCALIC LL", aliases: &[] },
        Codepoint { codepoint: 0x114B9, name: "TIRHUTA VOWEL SIGN E", aliases: &[] },
        Codepoint { codepoint: 0x114BA, name: "TIRHUTA VOWEL SIGN SHORT E", aliases: &[] },
        Codepoint { codepoint: 0x114BB, name: "TIRHUTA VOWEL SIGN AI", aliases: &[] },
        Codepoint { codepoint: 0x114BC, name: "TIRHUTA VOWEL SIGN O", aliases: &[] },
        Codepoint { codepoint: 0x114BD, name: "TIRHUTA VOWEL SIGN SHORT O", aliases: &[] },
        Codepoint { codepoint: 0x114BE, name: "TIRHUTA VOWEL SIGN AU", aliases: &[] },
        Codepoint { codepoint: 0x114BF, name: "TIRHUTA SIGN CANDRABINDU", aliases: &[] },
        Codepoint { codepoint: 0x114C0, name: "TIRHUTA SIGN ANUSVARA", aliases: &[] },
        Codepoint { codepoint: 0x114C1, name: "TIRHUTA SIGN VISARGA", aliases: &[] },
        Codepoint { codepoint: 0x114C2, name: "TIRHUTA SIGN VIRAMA", aliases: &[] },
        Codepoint { codepoint: 0x114C3, name: "TIRHUTA SIGN NUKTA", aliases: &[] },
        Codepoint { codepoint: 0x114C4, name: "TIRHUTA SIGN AVAGRAHA", aliases: &[] },
        Codepoint { codepoint: 0x114C5, name: "TIRHUTA GVANG", aliases: &[] },
        Codepoint { codepoint: 0x114C6, name: "TIRHUTA ABBREVIATION SIGN", aliases: &[] },
        Codepoint { codepoint: 0x114C7, name: "TIRHUTA OM", aliases: &[] },
        Codepoint { codepoint: 0x114D0, name: "TIRHUTA DIGIT ZERO", aliases: &[] },
        Codepoint { codepoint: 0x114D1, name: "TIRHUTA DIGIT ONE", aliases: &[] },
        Codepoint { codepoint: 0x114D2, name: "TIRHUTA DIGIT TWO", aliases: &[] },
        Codepoint { codepoint: 0x114D3, name: "TIRHUTA DIGIT THREE", aliases: &[] },
        Codepoint { codepoint: 0x114D4, name: "TIRHUTA DIGIT FOUR", aliases: &[] },
        Codepoint { codepoint: 0x114D5, name: "TIRHUTA DIGIT FIVE", aliases: &[] },
        Codepoint { codepoint: 0x114D6, name: "TIRHUTA DIGIT SIX", aliases: &[] },
        Codepoint { codepoint: 0x114D7, name: "TIRHUTA DIGIT SEVEN", aliases: &[] },
        Codepoint { codepoint: 0x114D8, name: "TIRHUTA DIGIT EIGHT", aliases: &[] },
        Codepoint { codepoint: 0x114D9, name: "TIRHUTA DIGIT NINE", aliases: &[] },
        Codepoint { codepoint: 0x11580, name: "SIDDHAM LETTER A", aliases: &[] },
        Codepoint { codepoint: 0x11581, name: "SIDDHAM LETTER AA", aliases: &[] },
        Codepoint { codepoint: 0x11582, name: "SIDDHAM LETTER I", aliases: &[] },
        Codepoint { codepoint: 0x11583, name: "SIDDHAM LETTER II", aliases: &[] },
        Codepoint { codepoint: 0x11584, name: "SIDDHAM LETTER U", aliases: &[] },
        Codepoint { codepoint: 0x11585, name: "SIDDHAM LETTER UU", aliases: &[] },
        Codepoint { codepoint: 0x11586, name: "SIDDHAM LETTER VOCALIC R", aliases: &[] },
        Codepoint { codepoint: 0x11587, name: "SIDDHAM LETTER VOCALIC RR", aliases: &[] },
    ]
}

fn all_codepoints_510() -> (v: Vec<Codepoint>)
    ensures
        v@ == codepoint_table_510(),
{
    let v = vec![
        Codepoint { codepoint: 0x114B2, name: "TIRHUTA VOWEL SIGN II", aliases: &[] },
        Codepoint { codepoint: 0x114B3, name: "TIRHUTA VOWEL SIGN U", aliases: &[] },
        Codepoint { codepoint: 0x114B4, name: "TIRHUTA VOWEL SIGN UU", aliases: &[] },
        Codepoint { codepoint: 0x114B5, name: "TIRHUTA VOWEL SIGN VOCALIC R", aliases: &[] },
        Codepoint { codepoint: 0x114B6, name: "TIRHUTA VOWEL SIGN VOCALIC RR", aliases: &[] },
        Codepoint { codepoint: 0x114B7, name: "TIRHUTA VOWEL SIGN VOCALIC L", aliases: &[] },
        Codepoint { codepoint: 0x114B8, name: "TIRHUTA VOWEL SIGN VOCALIC LL", aliases: &[] },
        Codepoint { codepoint: 0x114B9, name: "TIRHUTA VOWEL SIGN E", aliases: &[] },
        Codepoint { codepoint: 0x114BA, name: "TIRHUTA VOWEL SIGN SHORT E", aliases: &[] },
        Codepoint { codepoint: 0x114BB, name: "TIRHUTA VOWEL SIGN AI", aliases: &[] },
        Codepoint { codepoint: 0x114BC, name: "TIRHUTA VOWEL SIGN O", aliases: &[] },
        Codepoint { codepoint: 0x114BD, name: "TIRHUTA VOWEL SIGN SHORT O", aliases: &[] },
        Codepoint { codepoint: 0x114BE, name: "TIRHUTA VOWEL SIGN AU", aliases: &[] },
        Codepoint { codepoint: 0x114BF, name: "TIRHUTA SIGN CANDRABINDU", aliases: &[] },
        Codepoint { codepoint: 0x114C0, name: "TIRHUTA SIGN ANUSVARA", aliases: &[] },
        Codepoint { codepoint: 0x114C1, name: "TIRHUTA SIGN VISARGA", aliases: &[] },
        Codepoint { codepoint: 0x114C2, name: "TIRHUTA SIGN VIRAMA", aliases: &[] },
        Codepoint { codepoint: 0x114C3, name: "TIRHUTA SIGN NUKTA", aliases: &[] },
        Codepoint { codepoint: 0x114C4, name: "TIRHUTA SIGN AVAGRAHA", aliases: &[] },
        Codepoint { codepoint: 0x114C5, name: "TIRHUTA GVANG", aliases: &[] },
        Codepoint { codepoint: 0x114C6, name: "TIRHUTA ABBREVIATION SIGN", aliases: &[] },
        Codepoint { codepoint: 0x114C7, name: "TIRHUTA OM", aliases: &[] },
        Codepoint { codepoint: 0x114D0, name: "TIRHUTA DIGIT ZERO", aliases: &[] },
        Codepoint { codepoint: 0x114D1, name: "TIRHUTA DIGIT ONE", aliases: &[] },
        Codepoint { codepoint: 0x114D2, name: "TIRHUTA DIGIT TWO", aliases: &[] },
        Codepoint { codepoint: 0x114D3, name: "TIRHUTA DIGIT THREE", aliases: &[] },
        Codepoint { codepoint: 0x114D4, name: "TIRHUTA DIGIT FOUR", aliases: &[] },
        Codepoint { codepoint: 0x114D5, name: "TIRHUTA DIGIT FIVE", aliases: &[] },
        Codepoint { codepoint: 0x114D6, name: "TIRHUTA DIGIT SIX", aliases: &[] },
        Codepoint { codepoint: 0x114D7, name: "TIRHUTA DIGIT SEVEN", aliases: &[] },
        Codepoint { codepoint: 0x114D8, name: "TIRHUTA DIGIT EIGHT", aliases: &[] },
        Codepoint { codepoint: 0x114D9, name: "TIRHUTA DIGIT NINE", aliases: &[] },
        Codepoint { codepoint: 0x11580, name: "SIDDHAM LETTER A", aliases: &[] },
        Codepoint { codepoint: 0x11581, name: "SIDDHAM LETTER AA", aliases: &[] },
        Codepoint { codepoint: 0x11582, name: "SIDDHAM LETTER I", aliases: &[] },
        Codepoint { codepoint: 0x11583, name: "SIDDHAM LETTER II", aliases: &[] },
        Codepoint { codepoint: 0x11584, name: "SIDDHAM LETTER U", aliases: &[] },
        Codepoint { codepoint: 0x11585, name: "SIDDHAM LETTER UU", aliases: &[] },
        Codepoint { codepoint: 0x11586, name: "SIDDHAM LETTER VOCALIC R", aliases: &[] },
        Codepoint { codepoint: 0x11587, name: "SIDDHAM LETTER VOCALIC RR", aliases: &[] },
    ];
    assert(v@ =~= codepoint_table_510());
    v
}

pub open spec fn codepoint_table_511() -> Seq<Codepoint> {
    seq![
        Codepoint { codepoint: 0x11588, name: "SIDDHAM LETTER VOCALIC L", aliases: &[] },
        Codepoint { codepoint: 0x11589, name: "SIDDHAM LETTER VOCALIC LL", aliases: &[] },
        Codepoint { codepoint: 0x1158A, name: "SIDDHAM LETTER E", aliases: &[] },
        Codepoint { codepoint: 0x1158B, name: "SIDDHAM LETTER AI", aliases: &[] },
        Codepoint { codepoint: 0x1158C, name: "SIDDHAM LETTER O", aliases: &[] },
        Codepoint { codepoint: 0x1158D, name: "SIDDHAM LETTER AU", aliases: &[] },
        Codepoint { codepoint: 0x1158E, name: "SIDDHAM LETTER KA", aliases: &[] },
        Codepoint { codepoint: 0x1158F, name: "SIDDHAM LETTER KHA", aliases: &[] },
        Codepoint { codepoint: 0x11590, name: "SIDDHAM LETTER GA", aliases: &[] },
        Codepoint { codepoint: 0x11591, name: "SIDDHAM LETTER GHA", aliases: &[] },
        Codepoint { codepoint: 0x11592, name: "SIDDHAM LETTER NGA", aliases: &[] },
        Codepoint { codepoint: 0x11593, name: "SIDDHAM LETTER CA", aliases: &[] },
        Codepoint { codepoint: 0x11594, name: "SIDDHAM LETTER CHA", aliases: &[] },
        Codepoint { codepoint: 0x11595, name: "SIDDHAM LETTER JA", aliases: &[] },
        Codepoint { codepoint: 0x11596, name: "SIDDHAM LETTER JHA", aliases: &[] },
        Codepoint { codepoint: 0x11597, name: "SIDDHAM LETTER NYA", aliases: &[] },
        Codepoint { codepoint: 0x11598, name: "SIDDHAM LETTER TTA", aliases: &[] },
        Codepoint { codepoint: 0x11599, name: "SIDDHAM LETTER TTHA", aliases: &[] },
        Codepoint { codepoint: 0x1159A, name: "SIDDHAM LETTER DDA", aliases: &[] },
        Codepoint { codepoint: 0x1159B, name: "SIDDHAM LETTER DDHA", aliases: &[] },
        Codepoint { codepoint: 0x1159C, name: "SIDDHAM LETTER NNA", aliases: &[] },
        Codepoint { codepoint: 0x1159D, name: "SIDDHAM LETTER TA", aliases: &[] },
        Codepoint { codepoint: 0x1159E, name: "SIDDHAM LETTER THA", aliases: &[] },
        Codepoint { codepoint: 0x1159F, name: "SIDDHAM LETTER DA", aliases: &[] },
        Codepoint { codepoint: 0x115A0, name: "SIDDHAM LETTER DHA", aliases: &[] },
        Codepoint { codepoint: 0x115A1, name: "SIDDHAM LETTER NA", aliases: &[] },
        Codepoint { codepoint: 0x115A2, name: "SIDDHAM LETTER PA", aliases: &[] },
        Codepoint { codepoint: 0x115A3, name: "SIDDHAM LETTER PHA", aliases: &[] },
        Codepoint { codepoint: 0x115A4, name: "SIDDHAM LETTER BA", aliases: &[] },
        Codepoint { codepoint: 0x115A5, name: "SIDDHAM LETTER BHA", aliases: &[] },
        Codepoint { codepoint: 0x115A6, name: "SIDDHAM LETTER MA", aliases: &[] },
        Codepoint { codepoint: 0x115A7, name: "SIDDHAM LETTER YA", aliases: &[] },
        Codepoint { codepoint: 0x115A8, name: "SIDDHAM LETTER RA", aliases: &[] },
        Codepoint { codepoint: 0x115A9, name: "SIDDHAM LETTER LA", aliases: &[] },
        Codepoint { codepoint: 0x115AA, name: "SIDDHAM LETTER VA", aliases: &[] },
        Codepoint { codepoint: 0x115AB, name: "SIDDHAM LETTER SHA", aliases: &[] },
        Codepoint { codepoint: 0x115AC, name: "SIDDHAM LETTER SSA", aliases: &[] },
        Codepoint { codepoint: 0x115AD, name: "SIDDHAM LETTER SA", aliases: &[] },
        Codepoint { codepoint: 0x115AE, name: "SIDDHAM LETTER HA", aliases: &[] },
        Codepoint { codepoint: 0x115AF, name: "SIDDHAM VOWEL SIGN AA", aliases: &[] },
    ]
}

fn all_codepoints_511() -> (v: Vec<Codepoint>)
    ensures
        v@ == codepoint_table_511(),
{
    let v = vec![
        Codepoint { codepoint: 0x11588, name: "SIDDHAM LETTER VOCALIC L", aliases: &[] },
        Codepoint { codepoint: 0x11589, name: "SIDDHAM LETTER VOCALIC LL", aliases: &[] },
        Codepoint { codepoint: 0x1158A, name: "SIDDHAM LETTER E", aliases: &[] },
        Codepoint { codepoint: 0x1158B, name: "SIDDHAM LETTER AI", aliases: &[] },
        Codepoint { codepoint: 0x1158C, name: "SIDDHAM LETTER O", aliases: &[] },
        Codepoint { codepoint: 0x1158D, name: "SIDDHAM LETTER AU", aliases: &[] },
        Codepoint { codepoint: 0x1158E, name: "SIDDHAM LETTER KA", aliases: &[] },
        Codepoint { codepoint: 0x1158F, name: "SIDDHAM LETTER KHA", aliases: &[] },
        Codepoint { codepoint: 0x11590, name: "SIDDHAM LETTER GA", aliases: &[] },
        Codepoint { codepoint: 0x11591, name: "SIDDHAM LETTER GHA", aliases: &[] },
        Codepoint { codepoint: 0x11592, name: "SIDDHAM LETTER NGA", aliases: &[] },
        Codepoint { codepoint: 0x11593, name: "SIDDHAM LETTER CA", aliases: &[] },
        Codepoint { codepoint: 0x11594, name: "SIDDHAM LETTER CHA", aliases: &[] },
        Codepoint { codepoint: 0x11595, name: "SIDDHAM LETTER JA", aliases: &[] },
        Codepoint { codepoint: 0x11596, name: "SIDDHAM LETTER JHA", aliases: &[] },
        Codepoint { codepoint: 0x11597, name: "SIDDHAM LETTER NYA", aliases: &[] },
        Codepoint { codepoint: 0x11598, name: "SIDDHAM LETTER TTA", aliases: &[] },
        Codepoint { codepoint: 0x11599, name: "SIDDHAM LETTER TTHA", aliases: &[] },
        Codepoint { codepoint: 0x1159A, name: "SIDDHAM LETTER DDA", aliases: &[] },
        Codepoint { codepoint: 0x1159B, name: "SIDDHAM LETTER DDHA", aliases: &[] },
        Codepoint { codepoint: 0x1159C, name: "SIDDHAM LETTER NNA", aliases: &[] },
        Codepoint { codepoint: 0x1159D, name: "SIDDHAM LETTER TA", aliases: &[] },
        Codepoint { codepoint: 0x1159E, name: "SIDDHAM LETTER THA", aliases: &[] },
        Codepoint { codepoint: 0x1159F, name: "SIDDHAM LETTER DA", aliases: &[] },
        Codepoint { codepoint: 0x115A0, name: "SIDDHAM LETTER DHA", aliases: &[] },
        Codepoint { codepoint: 0x115A1, name: "SIDDHAM LETTER NA", aliases: &[] },
        Codepoint { codepoint: 0x115A2, name: "SIDDHAM LETTER PA", aliases: &[] },
        Codepoint { codepoint: 0x115A3, name: "SIDDHAM LETTER PHA", aliases: &[] },
        Codepoint { codepoint: 0x115A4, name: "SIDDHAM LETTER BA", aliases: &[] },
        Codepoint { codepoint: 0x115A5, name: "SIDDHAM LETTER BHA", aliases: &[] },
        Codepoint { codepoint: 0x115A6, name: "SIDDHAM LETTER MA", aliases: &[] },
        Codepoint { codepoint: 0x115A7, name: "SIDDHAM LETTER YA", aliases: &[] },
        Codepoint { codepoint: 0x115A8, name: "SIDDHAM LETTER RA", aliases: &[] },
        Codepoint { codepoint: 0x115A9, name: "SIDDHAM LETTER LA", aliases: &[] },
        Codepoint { codepoint: 0x115AA, name: "SIDDHAM LETTER VA", aliases: &[] },
        Codepoint { codepoint: 0x115AB, name: "SIDDHAM LETTER SHA", aliases: &[] },
        Codepoint { codepoint: 0x115AC, name: "SIDDHAM LETTER SSA", aliases: &[] },
        Codepoint { codepoint: 0x115AD, name: "SIDDHAM LETTER SA", aliases: &[] },
        Codepoint { codepoint: 0x115AE, name: "SIDDHAM LETTER HA", aliases: &[] },
        Codepoint { codepoint: 0x115AF, name: "SIDDHAM VOWEL SIGN AA", aliases: &[] },
    ];
    assert(v@ =~= codepoint_table_511());
    v
}

pub open spec fn codepoint_table_512() -> Seq<Codepoint> {
    seq![
        Codepoint { codepoint: 0x115B0, name: "SIDDHAM VOWEL SIGN I", aliases: &[] },
        Codepoint { codepoint: 0x115B1, name: "SIDDHAM VOWEL SIGN II", aliases: &[] },
        Codepoint { codepoint: 0x115B2, name: "SIDDHAM VOWEL SIGN U", aliases: &[] },
        Codepoint { codepoint: 0x115B3, name: "SIDDHAM VOWEL SIGN UU", aliases: &[] },
        Codepoint { codepoint: 0x115B4, name: "SIDDHAM VOWEL SIGN VOCALIC R", aliases: &[] },
        Codepoint { codepoint: 0x115B5, name: "SIDDHAM VOWEL SIGN VOCALIC RR", aliases: &[] },
        Codepoint { codepoint: 0x115B8, name: "SIDDHAM VOWEL SIGN E", aliases: &[] },
        Codepoint { codepoint: 0x115B9, name: "SIDDHAM VOWEL SIGN AI", aliases: &[] },
        Codepoint { codepoint: 0x115BA, name: "SIDDHAM VOWEL SIGN O", aliases: &[] },
        Codepoint { codepoint: 0x115BB, name: "SIDDHAM VOWEL SIGN AU", aliases: &[] },
        Codepoint { codepoint: 0x115BC, name: "SIDDHAM SIGN CANDRABINDU", aliases: &[] },
        Codepoint { codepoint: 0x115BD, name: "SIDDHAM SIGN ANUSVARA", aliases: &[] },
        Codepoint { codepoint: 0x115BE, name: "SIDDHAM SIGN VISARGA", aliases: &[] },
        Codepoint { codepoint: 0x115BF, name: "SIDDHAM SIGN VIRAMA", aliases: &[] },
        Codepoint { codepoint: 0x115C0, name: "SIDDHAM SIGN NUKTA", aliases: &[] },
        Codepoint { codepoint: 0x115C1, name: "SIDDHAM SIGN SIDDHAM", aliases: &[] },
        Codepoint { codepoint: 0x115C2, name: "SIDDHAM DANDA", aliases: &[] },
        Codepoint { codepoint: 0x115C3, name: "SIDDHAM DOUBLE DANDA", aliases: &[] },
        Codepoint { codepoint: 0x115C4, name: "SIDDHAM SEPARATOR DOT", aliases: &[] },
        Codepoint { codepoint: 0x115C5, name: "SIDDHAM SEPARATOR BAR", aliases: &[] },
        Codepoint { codepoint: 0x115C6, name: "SIDDHAM REPETITION MARK-1", aliases: &[] },
        Codepoint { codepoint: 0x115C7, name: "SIDDHAM REPETITION MARK-2", aliases: &[] },
        Codepoint { codepoint: 0x115C8, name: "SIDDHAM REPETITION MARK-3", aliases: &[] },
        Codepoint { codepoint: 0x115C9, name: "SIDDHAM END OF TEXT MARK", aliases: &[] },
        Codepoint { codepoint: 0x115CA, name: "SIDDHAM SECTION MARK WITH TRIDENT AND U-SHAPED ORNAMENTS", aliases: &[] },
        Codepoint { codepoint: 0x115CB, name: "SIDDHAM SECTION MARK WITH TRIDENT AND DOTTED CRESCENTS", aliases: &[] },
        Codepoint { codepoint: 0x115CC, name: "SIDDHAM SECTION MARK WITH RAYS AND DOTTED CRESCENTS", aliases: &[] },
        Codepoint { codepoint: 0x115CD, name: "SIDDHAM SECTION MARK WITH RAYS AND DOTTED DOUBLE CRESCENTS", aliases: &[] },
        Codepoint { codepoint: 0x115CE, name: "SIDDHAM SECTION MARK WITH RAYS AND DOTTED TRIPLE CRESCENTS", aliases: &[] },
        Codepoint { codepoint: 0x115CF, name: "SIDDHAM SECTION MARK DOUBLE RING", aliases: &[] },
        Codepoint { codepoint: 0x115D0, name: "SIDDHAM SECTION MARK DOUBLE RING WITH RAYS", aliases: &[] },
        Codepoint { codepoint: 0x115D1, name: "SIDDHAM SECTION MARK WITH DOUBLE CRESCENTS", aliases: &[] },
        Codepoint { codepoint: 0x115D2, name: "SIDDHAM SECTION MARK WITH TRIPLE CRESCENTS", aliases: &[] },
        Codepoint { codepoint: 0x115D3, name: "SIDDHAM SECTION MARK WITH QUADRUPLE CRESCENTS", aliases: &[] },
        Codepoint { codepoint: 0x115D4, name: "SIDDHAM SECTION MARK WITH SEPTUPLE CRESCENTS", aliases: &[] },
        Codepoint { codepoint: 0x115D5, name: "SIDDHAM SECTION MARK WITH CIRCLES AND RAYS", aliases: &[] },
        Codepoint { codepoint: 0x115D6, name: "SIDDHAM SECTION MARK WITH CIRCLES AND TWO ENCLOSURES", aliases: &[] },
        Codepoint { codepoint: 0x115D7, name: "SIDDHAM SECTION MARK WITH CIRCLES AND FOUR ENCLOSURES", aliases: &[] },
        Codepoint { codepoint: 0x115D8, name: "SIDDHAM LETTER THREE-CIRCLE ALTERNATE I", aliases: &[] },
        Codepoint { codepoint: 0x115D9, name: "SIDDHAM LETTER TWO-CIRCLE ALTERNATE I", aliases: &[] },
    ]
}

fn all_codepoints_512() -> (v: Vec<Codepoint>)
    ensures
        v@ == codepoint_table_512(),
{
    let v = vec![
        Codepoint { codepoint: 0x115B0, name: "SIDDHAM VOWEL SIGN I", aliases: &[] },
        Codepoint { codepoint: 0x115B1, name: "SIDDHAM VOWEL SIGN II", aliases: &[] },
        Codepoint { codepoint: 0x115B2, name: "SIDDHAM VOWEL SIGN U", aliases: &[] },
        Codepoint { codepoint: 0x115B3, name: "SIDDHAM VOWEL SIGN UU", aliases: &[] },
        Codepoint { codepoint: 0x115B4, name: "SIDDHAM VOWEL SIGN VOCALIC R", aliases: &[] },
        Codepoint { codepoint: 0x115B5, name: "SIDDHAM VOWEL SIGN VOCALIC RR", aliases: &[] },
        Codepoint { codepoint: 0x115B8, name: "SIDDHAM VOWEL SIGN E", aliases: &[] },
        Codepoint { codepoint: 0x115B9, name: "SIDDHAM VOWEL SIGN AI", aliases: &[] },
        Codepoint { codepoint: 0x115BA, name: "SIDDHAM VOWEL SIGN O", aliases: &[] },
        Codepoint { codepoint: 0x115BB, name: "SIDDHAM VOWEL SIGN AU", aliases: &[] },
        Codepoint { codepoint: 0x115BC, name: "SIDDHAM SIGN CANDRABINDU", aliases: &[] },
        Codepoint { codepoint: 0x115BD, name: "SIDDHAM SIGN ANUSVARA", aliases: &[] },
        Codepoint { codepoint: 0x115BE, name: "SIDDHAM SIGN VISARGA", aliases: &[] },
        Codepoint { codepoint: 0x115BF, name: "SIDDHAM SIGN VIRAMA", aliases: &[] },
        Codepoint { codepoint: 0x115C0, name: "SIDDHAM SIGN NUKTA", aliases: &[] },
        Codepoint { codepoint: 0x115C1, name: "SIDDHAM SIGN SIDDHAM", aliases: &[] },
        Codepoint { codepoint: 0x115C2, name: "SIDDHAM DANDA", aliases: &[] },
        Codepoint { codepoint: 0x115C3, name: "SIDDHAM DOUBLE DANDA", aliases: &[] },
        Codepoint { codepoint: 0x115C4, name: "SIDDHAM SEPARATOR DOT", aliases: &[] },
        Codepoint { codepoint: 0x115C5, name: "SIDDHAM SEPARATOR BAR", aliases: &[] },
        Codepoint { codepoint: 0x115C6, name: "SIDDHAM REPETITION MARK-1", aliases: &[] },
        Codepoint { codepoint: 0x115C7, name: "SIDDHAM REPETITION MARK-2", aliases: &[] },
        Codepoint { codepoint: 0x115C8, name: "SIDDHAM REPETITION MARK-3", aliases: &[] },
        Codepoint { codepoint: 0x115C9, name: "SIDDHAM END OF TEXT MARK", aliases: &[] },
        Codepoint { codepoint: 0x115CA, name: "SIDDHAM SECTION MARK WITH TRIDENT AND U-SHAPED ORNAMENTS", aliases: &[] },
        Codepoint { codepoint: 0x115CB, name: "SIDDHAM SECTION MARK WITH TRIDENT AND DOTTED CRESCENTS", aliases: &[] },
        Codepoint { codepoint: 0x115CC, name: "SIDDHAM SECTION MARK WITH RAYS AND DOTTED CRESCENTS", aliases: &[] },
        Codepoint { codepoint: 0x115CD, name: "SIDDHAM SECTION MARK WITH RAYS AND DOTTED DOUBLE CRESCENTS", aliases: &[] },
        Codepoint { codepoint: 0x115CE, name: "SIDDHAM SECTION MARK WITH RAYS AND DOTTED TRIPLE CRESCENTS", aliases: &[] },
        Codepoint { codepoint: 0x115CF, name: "SIDDHAM SECTION MARK DOUBLE RING", aliases: &[] },
        Codepoint { codepoint: 0x115D0, name: "SIDDHAM SECTION MARK DOUBLE RING WITH RAYS", aliases: &[] },
        Codepoint { codepoint: 0x115D1, name: "SIDDHAM SECTION MARK WITH DOUBLE CRESCENTS", aliases: &[] },
        Codepoint { codepoint: 0x115D2, name: "SIDDHAM SECTION MARK WITH TRIPLE CRESCENTS", aliases: &[] },
        Codepoint { codepoint: 0x115D3, name: "SIDDHAM SECTION MARK WITH QUADRUPLE CRESCENTS", aliases: &[] },
        Codepoint { codepoint: 0x115D4, name: "SIDDHAM SECTION MARK WITH SEPTUPLE CRESCENTS", aliases: &[] },
        Codepoint { codepoint: 0x115D5, name: "SIDDHAM SECTION MARK WITH CIRCLES AND RAYS", aliases: &[] },
        Codepoint { codepoint: 0x115D6, name: "SIDDHAM SECTION MARK WITH CIRCLES AND TWO ENCLOSURES", aliases: &[] },
        Codepoint { codepoint: 0x115D7, name: "SIDDHAM SECTION MARK WITH CIRCLES AND FOUR ENCLOSURES", aliases: &[] },
        Codepoint { codepoint: 0x115D8, name: "SIDDHAM LETTER THREE-CIRCLE ALTERNATE I", aliases: &[] },
        Codepoint { codepoint: 0x115D9, name: "SIDDHAM LETTER TWO-CIRCLE ALTERNATE I", aliases: &[] },
    ];
    assert(v@ =~= codepoint_table_512());
    v
}

pub open spec fn codepoint_table_513() -> Seq<Codepoint> {
    seq![
        Codepoint { codepoint: 0x115DA, name: "SIDDHAM LETTER TWO-CIRCLE ALTERNATE II", aliases: &[] },
        Codepoint { codepoint: 0x115DB, name: "SIDDHAM LETTER ALTERNATE U", aliases: &[] },
        Codepoint { codepoint: 0x115DC, name: "SIDDHAM VOWEL SIGN ALTERNATE U", aliases: &[] },
        Codepoint { codepoint: 0x115DD, name: "SIDDHAM VOWEL SIGN ALTERNATE UU", aliases: &[] },
        Codepoint { codepoint: 0x11600, name: "MODI LETTER A", aliases: &[] },
        Codepoint { codepoint: 0x11601, name: "MODI LETTER AA", aliases: &[] },
        Codepoint { codepoint: 0x11602, name: "MODI LETTER I", aliases: &[] },
        Codepoint { codepoint: 0x11603, name: "MODI LETTER II", aliases: &[] },
        Codepoint { codepoint: 0x11604, name: "MODI LETTER U", aliases: &[] },
        Codepoint { codepoint: 0x11605, name: "MODI LETTER UU", aliases: &[] },
        Codepoint { codepoint: 0x11606, name: "MODI LETTER VOCALIC R", aliases: &[] },
        Codepoint { codepoint: 0x11607, name: "MODI LETTER VOCALIC RR", aliases: &[] },
        Codepoint { codepoint: 0x11608, name: "MODI LETTER VOCALIC L", aliases: &[] },
        Codepoint { codepoint: 0x11609, name: "MODI LETTER VOCALIC LL", aliases: &[] },
        Codepoint { codepoint: 0x1160A, name: "MODI LETTER E", aliases: &[] },
        Codepoint { codepoint: 0x1160B, name: "MODI LETTER AI", aliases: &[] },
        Codepoint { codepoint: 0x1160C, name: "MODI LETTER O", aliases: &[] },
        Codepoint { codepoint: 0x1160D, name: "MODI LETTER AU", aliases: &[] },
        Codepoint { codepoint: 0x1160E, name: "MODI LETTER KA", aliases: &[] },
        Codepoint { codepoint: 0x1160F, name: "MODI LETTER KHA", aliases: &[] },
        Codepoint { codepoint: 0x11610, name: "MODI LETTER GA", aliases: &[] },
        Codepoint { codepoint: 0x11611, name: "MODI LETTER GHA", aliases: &[] },
        Codepoint { codepoint: 0x11612, name: "MODI LETTER NGA", aliases: &[] },
        Codepoint { codepoint: 0x11613, name: "MODI LETTER CA", aliases: &[] },
        Codepoint { codepoint: 0x11614, name: "MODI LETTER CHA", aliases: &[] },
        Codepoint { codepoint: 0x11615, name: "MODI LETTER JA", aliases: &[] },
        Codepoint { codepoint: 0x11616, name: "MODI LETTER JHA", aliases: &[] },
        Codepoint { codepoint: 0x11617, name: "MODI LETTER NYA", aliases: &[] },
        Codepoint { codepoint: 0x11618, name: "MODI LETTER TTA", aliases: &[] },
        Codepoint { codepoint: 0x11619, name: "MODI LETTER TTHA", aliases: &[] },
        Codepoint { codepoint: 0x1161A, name: "MODI LETTER DDA", aliases: &[] },
        Codepoint { codepoint: 0x1161B, name: "MODI LETTER DDHA", aliases: &[] },
        Codepoint { codepoint: 0x1161C, name: "MODI LETTER NNA", aliases: &[] },
        Codepoint { codepoint: 0x1161D, name: "MODI LETTER TA", aliases: &[] },
        Codepoint { codepoint: 0x1161E, name: "MODI LETTER THA", aliases: &[] },
        Codepoint { codepoint: 0x1161F, name: "MODI LETTER DA", aliases: &[] },
        Codepoint { codepoint: 0x11620, name: "MODI LETTER DHA", aliases: &[] },
        Codepoint { codepoint: 0x11621, name: "MODI LETTER NA", aliases: &[] },
        Codepoint { codepoint: 0x11622, name: "MODI LETTER PA", aliases: &[] },
        Codepoint { codepoint: 0x11623, name: "MODI LETTER PHA", aliases: &[] },
    ]
}

fn all_codepoints_513() -> (v: Vec<Codepoint>)
    ensures
        v@ == codepoint_table_513(),
{
    let v = vec![
        Codepoint { codepoint: 0x115DA, name: "SIDDHAM LETTER TWO-CIRCLE ALTERNATE II", aliases: &[] },
        Codepoint { codepoint: 0x115DB, name: "SIDDHAM LETTER ALTERNATE U", aliases: &[] },
        Codepoint { codepoint: 0x115DC, name: "SIDDHAM VOWEL SIGN ALTERNATE U", aliases: &[] },
        Codepoint { codepoint: 0x115DD, name: "SIDDHAM VOWEL SIGN ALTERNATE UU", aliases: &[] },
        Codepoint { codepoint: 0x11600, name: "MODI LETTER A", aliases: &[] },
        Codepoint { codepoint: 0x11601, name: "MODI LETTER AA", aliases: &[] },
        Codepoint { codepoint: 0x11602, name: "MODI LETTER I", aliases: &[] },
        Codepoint { codepoint: 0x11603, name: "MODI LETTER II", aliases: &[] },
        Codepoint { codepoint: 0x11604, name: "MODI LETTER U", aliases: &[] },
        Codepoint { codepoint: 0x11605, name: "MODI LETTER UU", aliases: &[] },
        Codepoint { codepoint: 0x11606, name: "MODI LETTER VOCALIC R", aliases: &[] },
        Codepoint { codepoint: 0x11607, name: "MODI LETTER VOCALIC RR", aliases: &[] },
        Codepoint { codepoint: 0x11608, name: "MODI LETTER VOCALIC L", aliases: &[] },
        Codepoint { codepoint: 0x11609, name: "MODI LETTER VOCALIC LL", aliases: &[] },
        Codepoint { codepoint: 0x1160A, name: "MODI LETTER E", aliases: &[] },
        Codepoint { codepoint: 0x1160B, name: "MODI LETTER AI", aliases: &[] },
        Codepoint { codepoint: 0x1160C, name: "MODI LETTER O", aliases: &[] },
        Codepoint { codepoint: 0x1160D, name: "MODI LETTER AU", aliases: &[] },
        Codepoint { codepoint: 0x1160E, name: "MODI LETTER KA", aliases: &[] },
        Codepoint { codepoint: 0x1160F, name: "MODI LETTER KHA", aliases: &[] },
        Codepoint { codepoint: 0x11610, name: "MODI LETTER GA", aliases: &[] },
        Codepoint { codepoint: 0x11611, name: "MODI LETTER GHA", aliases: &[] },
        Codepoint { codepoint: 0x11612, name: "MODI LETTER NGA", aliases: &[] },
        Codepoint { codepoint: 0x11613, name: "MODI LETTER CA", aliases: &[] },
        Codepoint { codepoint: 0x11614, name: "MODI LETTER CHA", aliases: &[] },
        Codepoint { codepoint: 0x11615, name: "MODI LETTER JA", aliases: &[] },
        Codepoint { codepoint: 0x11616, name: "MODI LETTER JHA", aliases: &[] },
        Codepoint { codepoint: 0x11617, name: "MODI LETTER NYA", aliases: &[] },
        Codepoint { codepoint: 0x11618, name: "MODI LETTER TTA", aliases: &[] },
        Codepoint { codepoint: 0x11619, name: "MODI LETTER TTHA", aliases: &[] },
        Codepoint { codepoint: 0x1161A, name: "MODI LETTER DDA", aliases: &[] },
        Codepoint { codepoint: 0x1161B, name: "MODI LETTER DDHA", aliases: &[] },
        Codepoint { codepoint: 0x1161C, name: "MODI LETTER NNA", aliases: &[] },
        Codepoint { codepoint: 0x1161D, name: "MODI LETTER TA", aliases: &[] },
        Codepoint { codepoint: 0x1161E, name: "MODI LETTER THA", aliases: &[] },
        Codepoint { codepoint: 0x1161F, name: "MODI LETTER DA", aliases: &[] },
        Codepoint { codepoint: 0x11620, name: "MODI LETTER DHA", aliases: &[] },
        Codepoint { codepoint: 0x11621, name: "MODI LETTER NA", aliases: &[] },
        Codepoint { codepoint: 0x11622, name: "MODI LETTER PA", aliases: &[] },
        Codepoint { codepoint: 0x11623, name: "MODI LETTER PHA", aliases: &[] },
    ];
    assert(v@ =~= codepoint_table_513());
    v
}

pub open spec fn codepoint_table_514() -> Seq<Codepoint> {
    seq![
        Codepoint { codepoint: 0x11624, name: "MODI LETTER BA", aliases: &[] },
        Codepoint { codepoint: 0x11625, name: "MODI LETTER BHA", aliases: &[] },
        Codepoint { codepoint: 0x11626, name: "MODI LETTER MA", aliases: &[] },
        Codepoint { codepoint: 0x11627, name: "MODI LETTER YA", aliases: &[] },
        Codepoint { codepoint: 0x11628, name: "MODI LETTER RA", aliases: &[] },
        Codepoint { codepoint: 0x11629, name: "MODI LETTER LA", aliases: &[] },
        Codepoint { codepoint: 0x1162A, name: "MODI LETTER VA", aliases: &[] },
        Codepoint { codepoint: 0x1162B, name: "MODI LETTER SHA", aliases: &[] },
        Codepoint { codepoint: 0x1162C, name: "MODI LETTER SSA", aliases: &[] },
        Codepoint { codepoint: 0x1162D, name: "MODI LETTER SA", aliases: &[] },
        Codepoint { codepoint: 0x1162E, name: "MODI LETTER HA", aliases: &[] },
        Codepoint { codepoint: 0x1162F, name: "MODI LETTER LLA", aliases: &[] },
        Codepoint { codepoint: 0x11630, name: "MODI VOWEL SIGN AA", aliases: &[] },
        Codepoint { codepoint: 0x11631, name: "MODI VOWEL SIGN I", aliases: &[] },
        Codepoint { codepoint: 0x11632, name: "MODI VOWEL SIGN II", aliases: &[] },
        Codepoint { codepoint: 0x11633, name: "MODI VOWEL SIGN U", aliases: &[] },
        Codepoint { codepoint: 0x11634, name: "MODI VOWEL SIGN UU", aliases: &[] },
        Codepoint { codepoint: 0x11635, name: "MODI VOWEL SIGN VOCALIC R", aliases: &[] },
        Codepoint { codepoint: 0x11636, name: "MODI VOWEL SIGN VOCALIC RR", aliases: &[] },
        Codepoint { codepoint: 0x11637, name: "MODI VOWEL SIGN VOCALIC L", aliases: &[] },
        Codepoint { codepoint: 0x11638, name: "MODI VOWEL SIGN VOCALIC LL", aliases: &[] },
        Codepoint { codepoint: 0x11639, name: "MODI VOWEL SIGN E", aliases: &[] },
        Codepoint { codepoint: 0x1163A, name: "MODI VOWEL SIGN AI", aliases: &[] },
        Codepoint { codepoint: 0x1163B, name: "MODI VOWEL SIGN O", aliases: &[] },
        Codepoint { codepoint: 0x1163C, name: "MODI VOWEL SIGN AU", aliases: &[] },
        Codepoint { codepoint: 0x1163D, name: "MODI SIGN ANUSVARA", aliases: &[] },
        Codepoint { codepoint: 0x1163E, name: "MODI SIGN VISARGA", aliases: &[] },
        Codepoint { codepoint: 0x1163F, name: "MODI SIGN VIRAMA", aliases: &[] },
        Codepoint { codepoint: 0x11640, name: "MODI SIGN ARDHACANDRA", aliases: &[] },
        Codepoint { codepoint: 0x11641, name: "MODI DANDA", aliases: &[] },
        Codepoint { codepoint: 0x11642, name: "MODI DOUBLE DANDA", aliases: &[] },
        Codepoint { codepoint: 0x11643, name: "MODI ABBREVIATION SIGN", aliases: &[] },
        Codepoint { codepoint: 0x11644, name: "MODI SIGN HUVA", aliases: &[] },
        Codepoint { codepoint: 0x11650, name: "MODI DIGIT ZERO", aliases: &[] },
        Codepoint { codepoint: 0x11651, name: "MODI DIGIT ONE", aliases: &[] },
        Codepoint { codepoint: 0x11652, name: "MODI DIGIT TWO", aliases: &[] },
        Codepoint { codepoint: 0x11653, name: "MODI DIGIT THREE", aliases: &[] },
        Codepoint { codepoint: 0x11654, name: "MODI DIGIT FOUR", aliases: &[] },
        Codepoint { codepoint: 0x11655, name: "MODI DIGIT FIVE", aliases: &[] },
        Codepoint { codepoint: 0x11656, name: "MODI DIGIT SIX", aliases: &[] },
    ]
}

fn all_codepoints_514() -> (v: Vec<Codepoint>)
    ensures
        v@ == codepoint_table_514(),
{
    let v = vec![
        Codepoint { codepoint: 0x11624, name: "MODI LETTER BA", aliases: &[] },
        Codepoint { codepoint: 0x11625, name: "MODI LETTER BHA", aliases: &[] },
        Codepoint { codepoint: 0x11626, name: "MODI LETTER MA", aliases: &[] },
        Codepoint { codepoint: 0x11627, name: "MODI LETTER YA", aliases: &[] },
        Codepoint { codepoint: 0x11628, name: "MODI LETTER RA", aliases: &[] },
        Codepoint { codepoint: 0x11629, name: "MODI LETTER LA", aliases: &[] },
        Codepoint { codepoint: 0x1162A, name: "MODI LETTER VA", aliases: &[] },
        Codepoint { codepoint: 0x1162B, name: "MODI LETTER SHA", aliases: &[] },
        Codepoint { codepoint: 0x1162C, name: "MODI LETTER SSA", aliases: &[] },
        Codepoint { codepoint: 0x1162D, name: "MODI LETTER SA", aliases: &[] },
        Codepoint { codepoint: 0x1162E, name: "MODI LETTER HA", aliases: &[] },
        Codepoint { codepoint: 0x1162F, name: "MODI LETTER LLA", aliases: &[] },
        Codepoint { codepoint: 0x11630, name: "MODI VOWEL SIGN AA", aliases: &[] },
        Codepoint { codepoint: 0x11631, name: "MODI VOWEL SIGN I", aliases: &[] },
        Codepoint { codepoint: 0x11632, name: "MODI VOWEL SIGN II", aliases: &[] },
        Codepoint { codepoint: 0x11633, name: "MODI VOWEL SIGN U", aliases: &[] },
        Codepoint { codepoint: 0x11634, name: "MODI VOWEL SIGN UU", aliases: &[] },
        Codepoint { codepoint: 0x11635, name: "MODI VOWEL SIGN VOCALIC R", aliases: &[] },
        Codepoint { codepoint: 0x11636, name: "MODI VOWEL SIGN VOCALIC RR", aliases: &[] },
        Codepoint { codepoint: 0x11637, name: "MODI VOWEL SIGN VOCALIC L", aliases: &[] },
        Codepoint { codepoint: 0x11638, name: "MODI VOWEL SIGN VOCALIC LL", aliases: &[] },
        Codepoint { codepoint: 0x11639, name: "MODI VOWEL SIGN E", aliases: &[] },
        Codepoint { codepoint: 0x1163A, name: "MODI VOWEL SIGN AI", aliases: &[] },
        Codepoint { codepoint: 0x1163B, name: "MODI VOWEL SIGN O", aliases: &[] },
        Codepoint { codepoint: 0x1163C, name: "MODI VOWEL SIGN AU", aliases: &[] },
        Codepoint { codepoint: 0x1163D, name: "MODI SIGN ANUSVARA", aliases: &[] },
        Codepoint { codepoint: 0x1163E, name: "MODI SIGN VISARGA", aliases: &[] },
        Codepoint { codepoint: 0x1163F, name: "MODI SIGN VIRAMA", aliases: &[] },
        Codepoint { codepoint: 0x11640, name: "MODI SIGN ARDHACANDRA", aliases: &[] },
        Codepoint { codepoint: 0x11641, name: "MODI DANDA", aliases: &[] },
        Codepoint { codepoint: 0x11642, name: "MODI DOUBLE DANDA", aliases: &[] },
        Codepoint { codepoint: 0x11643, name: "MODI ABBREVIATION SIGN", aliases: &[] },
        Codepoint { codepoint: 0x11644, name: "MODI SIGN HUVA", aliases: &[] },
        Codepoint { codepoint: 0x11650, name: "MODI DIGIT ZERO", aliases: &[] },
        Codepoint { codepoint: 0x11651, name: "MODI DIGIT ONE", aliases: &[] },
        Codepoint { codepoint: 0x11652, name: "MODI DIGIT TWO", aliases: &[] },
        Codepoint { codepoint: 0x11653, name: "MODI DIGIT THREE", aliases: &[] },
        Codepoint { codepoint: 0x11654, name: "MODI DIGIT FOUR", aliases: &[] },
        Codepoint { codepoint: 0x11655, name: "MODI DIGIT FIVE", aliases: &[] },
        Codepoint { codepoint: 0x11656, name: "MODI DIGIT SIX", aliases: &[] },
    ];
    assert(v@ =~= codepoint_table_514());
    v
}

pub open spec fn codepoint_table_515() -> Seq<Codepoint> {
    seq![
        Codepoint { codepoint: 0x11657, name: "MODI DIGIT SEVEN", aliases: &[] },
        Codepoint { codepoint: 0x11658, name: "MODI DIGIT EIGHT", aliases: &[] },
        Codepoint { codepoint: 0x11659, name: "MODI DIGIT NINE", aliases: &[] },
        Codepoint { codepoint: 0x11660, name: "MONGOLIAN BIRGA WITH ORNAMENT", aliases: &[] },
        Codepoint { codepoint: 0x11661, name: "MONGOLIAN ROTATED BIRGA", aliases: &[] },
        Codepoint { codepoint: 0x11662, name: "MONGOLIAN DOUBLE BIRGA WITH ORNAMENT", aliases: &[] },
        Codepoint { codepoint: 0x11663, name: "MONGOLIAN TRIPLE BIRGA WITH ORNAMENT", aliases: &[] },
        Codepoint { codepoint: 0x11664, name: "MONGOLIAN BIRGA WITH DOUBLE ORNAMENT", aliases: &[] },
        Codepoint { codepoint: 0x11665, name: "MONGOLIAN ROTATED BIRGA WITH ORNAMENT", aliases: &[] },
        Codepoint { codepoint: 0x11666, name: "MONGOLIAN ROTATED BIRGA WITH DOUBLE ORNAMENT", aliases: &[] },
        Codepoint { codepoint: 0x11667, name: "MONGOLIAN INVERTED BIRGA", aliases: &[] },
        Codepoint { codepoint: 0x11668, name: "MONGOLIAN INVERTED BIRGA WITH DOUBLE ORNAMENT", aliases: &[] },
        Codepoint { codepoint: 0x11669, name: "MONGOLIAN SWIRL BIRGA", aliases: &[] },
        Codepoint { codepoint: 0x1166A, name: "MONGOLIAN SWIRL BIRGA WITH ORNAMENT", aliases: &[] },
        Codepoint { codepoint: 0x1166B, name: "MONGOLIAN SWIRL BIRGA WITH DOUBLE ORNAMENT", aliases: &[] },
        Codepoint { codepoint: 0x1166C, name: "MONGOLIAN TURNED SWIRL BIRGA WITH DOUBLE ORNAMENT", aliases: &[] },
        Codepoint { codepoint: 0x11680, name: "TAKRI LETTER A", aliases: &[] },
        Codepoint { codepoint: 0x11681, name: "TAKRI LETTER AA", aliases: &[] },
        Codepoint { codepoint: 0x11682, name: "TAKRI LETTER I", aliases: &[] },
        Codepoint { codepoint: 0x11683, name: "TAKRI LETTER II", aliases: &[] },
        Codepoint { codepoint: 0x11684, name: "TAKRI LETTER U", aliases: &[] },
        Codepoint { codepoint: 0x11685, name: "TAKRI LETTER UU", aliases: &[] },
        Codepoint { codepoint: 0x11686, name: "TAKRI LETTER E", aliases: &[] },
        Codepoint { codepoint: 0x11687, name: "TAKRI LETTER AI", aliases: &[] },
        Codepoint { codepoint: 0x11688, name: "TAKRI LETTER O", aliases: &[] },
        Codepoint { codepoint: 0x11689, name: "TAKRI LETTER AU", aliases: &[] },
        Codepoint { codepoint: 0x1168A, name: "TAKRI LETTER KA", aliases: &[] },
        Codepoint { codepoint: 0x1168B, name: "TAKRI LETTER KHA", aliases: &[] },
        Codepoint { codepoint: 0x1168C, name: "TAKRI LETTER GA", aliases: &[] },
        Codepoint { codepoint: 0x1168D, name: "TAKRI LETTER GHA", aliases: &[] },
        Codepoint { codepoint: 0x1168E, name: "TAKRI LETTER NGA", aliases: &[] },
        Codepoint { codepoint: 0x1168F, name: "TAKRI LETTER CA", aliases: &[] },
        Codepoint { codepoint: 0x11690, name: "TAKRI LETTER CHA", aliases: &[] },
        Codepoint { codepoint: 0x11691, name: "TAKRI LETTER JA", aliases: &[] },
        Codepoint { codepoint: 0x11692, name: "TAKRI LETTER JHA", aliases: &[] },
        Codepoint { codepoint: 0x11693, name: "TAKRI LETTER NYA", aliases: &[] },
        Codepoint { codepoint: 0x11694, name: "TAKRI LETTER TTA", aliases: &[] },
        Codepoint { codepoint: 0x11695, name: "TAKRI LETTER TTHA", aliases: &[] },
        Codepoint { codepoint: 0x11696, name: "TAKRI LETTER DDA", aliases: &[] },
        Codepoint { codepoint: 0x11697, name: "TAKRI LETTER DDHA", aliases: &[] },
    ]
}

fn all_codepoints_515() -> (v: Vec<Codepoint>)
    ensures
        v@ == codepoint_table_515(),
{
    let v = vec![
        Codepoint { codepoint: 0x11657, name: "MODI DIGIT SEVEN", aliases: &[] },
        Codepoint { codepoint: 0x11658, name: "MODI DIGIT EIGHT", aliases: &[] },
        Codepoint { codepoint: 0x11659, name: "MODI DIGIT NINE", aliases: &[] },
        Codepoint { codepoint: 0x11660, name: "MONGOLIAN BIRGA WITH ORNAMENT", aliases: &[] },
        Codepoint { codepoint: 0x11661, name: "MONGOLIAN ROTATED BIRGA", aliases: &[] },
        Codepoint { codepoint: 0x11662, name: "MONGOLIAN DOUBLE BIRGA WITH ORNAMENT", aliases: &[] },
        Codepoint { codepoint: 0x11663, name: "MONGOLIAN TRIPLE BIRGA WITH ORNAMENT", aliases: &[] },
        Codepoint { codepoint: 0x11664, name: "MONGOLIAN BIRGA WITH DOUBLE ORNAMENT", aliases: &[] },
        Codepoint { codepoint: 0x11665, name: "MONGOLIAN ROTATED BIRGA WITH ORNAMENT", aliases: &[] },
        Codepoint { codepoint: 0x11666, name: "MONGOLIAN ROTATED BIRGA WITH DOUBLE ORNAMENT", aliases: &[] },
        Codepoint { codepoint: 0x11667, name: "MONGOLIAN INVERTED BIRGA", aliases: &[] },
        Codepoint { codepoint: 0x11668, name: "MONGOLIAN INVERTED BIRGA WITH DOUBLE ORNAMENT", aliases: &[] },
        Codepoint { codepoint: 0x11669, name: "MONGOLIAN SWIRL BIRGA", aliases: &[] },
        Codepoint { codepoint: 0x1166A, name: "MONGOLIAN SWIRL BIRGA WITH ORNAMENT", aliases: &[] },
        Codepoint { codepoint: 0x1166B, name: "MONGOLIAN SWIRL BIRGA WITH DOUBLE ORNAMENT", aliases: &[] },
        Codepoint { codepoint: 0x1166C, name: "MONGOLIAN TURNED SWIRL BIRGA WITH DOUBLE ORNAMENT", aliases: &[] },
        Codepoint { codepoint: 0x11680, name: "TAKRI LETTER A", aliases: &[] },
        Codepoint { codepoint: 0x11681, name: "TAKRI LETTER AA", aliases: &[] },
        Codepoint { codepoint: 0x11682, name: "TAKRI LETTER I", aliases: &[] },
        Codepoint { codepoint: 0x11683, name: "TAKRI LETTER II", aliases: &[] },
        Codepoint { codepoint: 0x11684, name: "TAKRI LETTER U", aliases: &[] },
        Codepoint { codepoint: 0x11685, name: "TAKRI LETTER UU", aliases: &[] },
        Codepoint { codepoint: 0x11686, name: "TAKRI LETTER E", aliases: &[] },
        Codepoint { codepoint: 0x11687, name: "TAKRI LETTER AI", aliases: &[] },
        Codepoint { codepoint: 0x11688, name: "TAKRI LETTER O", aliases: &[] },
        Codepoint { codepoint: 0x11689, name: "TAKRI LETTER AU", aliases: &[] },
        Codepoint { codepoint: 0x1168A, name: "TAKRI LETTER KA", aliases: &[] },
        Codepoint { codepoint: 0x1168B, name: "TAKRI LETTER KHA", aliases: &[] },
        Codepoint { codepoint: 0x1168C, name: "TAKRI LETTER GA", aliases: &[] },
        Codepoint { codepoint: 0x1168D, name: "TAKRI LETTER GHA", aliases: &[] },
        Codepoint { codepoint: 0x1168E, name: "TAKRI LETTER NGA", aliases: &[] },
        Codepoint { codepoint: 0x1168F, name: "TAKRI LETTER CA", aliases: &[] },
        Codepoint { codepoint: 0x11690, name: "TAKRI LETTER CHA", aliases: &[] },
        Codepoint { codepoint: 0x11691, name: "TAKRI LETTER JA", aliases: &[] },
        Codepoint { codepoint: 0x11692, name: "TAKRI LETTER JHA", aliases: &[] },
        Codepoint { codepoint: 0x11693, name: "TAKRI LETTER NYA", aliases: &[] },
        Codepoint { codepoint: 0x11694, name: "TAKRI LETTER TTA", aliases: &[] },
        Codepoint { codepoint: 0x11695, name: "TAKRI LETTER TTHA", aliases: &[] },
        Codepoint { codepoint: 0x11696, name: "TAKRI LETTER DDA", aliases: &[] },
        Codepoint { codepoint: 0x11697, name: "TAKRI LETTER DDHA", aliases: &[] },
    ];
    assert(v@ =~= codepoint_table_515());
    v
}

pub open spec fn codepoint_table_516() -> Seq<Codepoint> {
    seq![
        Codepoint { codepoint: 0x11698, name: "TAKRI LETTER NNA", aliases: &[] },
        Codepoint { codepoint: 0x11699, name: "TAKRI LETTER TA", aliases: &[] },
        Codepoint { codepoint: 0x1169A, name: "TAKRI LETTER THA", aliases: &[] },
        Codepoint { codepoint: 0x1169B, name: "TAKRI LETTER DA", aliases: &[] },
        Codepoint { codepoint: 0x1169C, name: "TAKRI LETTER DHA", aliases: &[] },
        Codepoint { codepoint: 0x1169D, name: "TAKRI LETTER NA", aliases: &[] },
        Codepoint { codepoint: 0x1169E, name: "TAKRI LETTER PA", aliases: &[] },
        Codepoint { codepoint: 0x1169F, name: "TAKRI LETTER PHA", aliases: &[] },
        Codepoint { codepoint: 0x116A0, name: "TAKRI LETTER BA", aliases: &[] },
        Codepoint { codepoint: 0x116A1, name: "TAKRI LETTER BHA", aliases: &[] },
        Codepoint { codepoint: 0x116A2, name: "TAKRI LETTER MA", aliases: &[] },
        Codepoint { codepoint: 0x116A3, name: "TAKRI LETTER YA", aliases: &[] },
        Codepoint { codepoint: 0x116A4, name: "TAKRI LETTER RA", aliases: &[] },
        Codepoint { codepoint: 0x116A5, name: "TAKRI LETTER LA", aliases: &[] },
        Codepoint { codepoint: 0x116A6, name: "TAKRI LETTER VA", aliases: &[] },
        Codepoint { codepoint: 0x116A7, name: "TAKRI LETTER SHA", aliases: &[] },
        Codepoint { codepoint: 0x116A8, name: "TAKRI LETTER SA", aliases: &[] },
        Codepoint { codepoint: 0x116A9, name: "TAKRI LETTER HA", aliases: &[] },
        Codepoint { codepoint: 0x116AA, name: "TAKRI LETTER RRA", aliases: &[] },
        Codepoint { codepoint: 0x116AB, name: "TAKRI SIGN ANUSVARA", aliases: &[] },
        Codepoint { codepoint: 0x116AC, name: "TAKRI SIGN VISARGA", aliases: &[] },
        Codepoint { codepoint: 0x116AD, name: "TAKRI VOWEL SIGN AA", aliases: &[] },
        Codepoint { codepoint: 0x116AE, name: "TAKRI VOWEL SIGN I", aliases: &[] },
        Codepoint { codepoint: 0x116AF, name: "TAKRI VOWEL SIGN II", aliases: &[] },
        Codepoint { codepoint: 0x116B0, name: "TAKRI VOWEL SIGN U", aliases: &[] },
        Codepoint { codepoint: 0x116B1, name: "TAKRI VOWEL SIGN UU", aliases: &[] },
        Codepoint { codepoint: 0x116B2, name: "TAKRI VOWEL SIGN E", aliases: &[] },
        Codepoint { codepoint: 0x116B3, name: "TAKRI VOWEL SIGN AI", aliases: &[] },
        Codepoint { codepoint: 0x116B4, name: "TAKRI VOWEL SIGN O", aliases: &[] },
        Codepoint { codepoint: 0x116B5, name: "TAKRI VOWEL SIGN AU", aliases: &[] },
        Codepoint { codepoint: 0x116B6, name: "TAKRI SIGN VIRAMA", aliases: &[] },
        Codepoint { codepoint: 0x116B7, name: "TAKRI SIGN NUKTA", aliases: &[] },
        Codepoint { codepoint: 0x116B8, name: "TAKRI LETTER ARCHAIC KHA", aliases: &[] },
        Codepoint { codepoint: 0x116B9, name: "TAKRI ABBREVIATION SIGN", aliases: &[] },
        Codepoint { codepoint: 0x116C0, name: "TAKRI DIGIT ZERO", aliases: &[] },
        Codepoint { codepoint: 0x116C1, name: "TAKRI DIGIT ONE", aliases: &[] },
        Codepoint { codepoint: 0x116C2, name: "TAKRI DIGIT TWO", aliases: &[] },
        Codepoint { codepoint: 0x116C3, name: "TAKRI DIGIT THREE", aliases: &[] },
        Codepoint { codepoint: 0x116C4, name: "TAKRI DIGIT FOUR", aliases: &[] },
        Codepoint { codepoint: 0x116C5, name: "TAKRI DIGIT FIVE", aliases: &[] },
    ]
}

fn all_codepoints_516() -> (v: Vec<Codepoint>)
    ensures
        v@ == codepoint_table_516(),
{
    let v = vec![
        Codepoint { codepoint: 0x11698, name: "TAKRI LETTER NNA", aliases: &[] },
        Codepoint { codepoint: 0x11699, name: "TAKRI LETTER TA", aliases: &[] },
        Codepoint { codepoint: 0x1169A, name: "TAKRI LETTER THA", aliases: &[] },
        Codepoint { codepoint: 0x1169B, name: "TAKRI LETTER DA", aliases: &[] },
        Codepoint { codepoint: 0x1169C, name: "TAKRI LETTER DHA", aliases: &[] },
        Codepoint { codepoint: 0x1169D, name: "TAKRI LETTER NA", aliases: &[] },
        Codepoint { codepoint: 0x1169E, name: "TAKRI LETTER PA", aliases: &[] },
        Codepoint { codepoint: 0x1169F, name: "TAKRI LETTER PHA", aliases: &[] },
        Codepoint { codepoint: 0x116A0, name: "TAKRI LETTER BA", aliases: &[] },
        Codepoint { codepoint: 0x116A1, name: "TAKRI LETTER BHA", aliases: &[] },
        Codepoint { codepoint: 0x116A2, name: "TAKRI LETTER MA", aliases: &[] },
        Codepoint { codepoint: 0x116A3, name: "TAKRI LETTER YA", aliases: &[] },
        Codepoint { codepoint: 0x116A4, name: "TAKRI LETTER RA", aliases: &[] },
        Codepoint { codepoint: 0x116A5, name: "TAKRI LETTER LA", aliases: &[] },
        Codepoint { codepoint: 0x116A6, name: "TAKRI LETTER VA", aliases: &[] },
        Codepoint { codepoint: 0x116A7, name: "TAKRI LETTER SHA", aliases: &[] },
        Codepoint { codepoint: 0x116A8, name: "TAKRI LETTER SA", aliases: &[] },
        Codepoint { codepoint: 0x116A9, name: "TAKRI LETTER HA", aliases: &[] },
        Codepoint { codepoint: 0x116AA, name: "TAKRI LETTER RRA", aliases: &[] },
        Codepoint { codepoint: 0x116AB, name: "TAKRI SIGN ANUSVARA", aliases: &[] },
        Codepoint { codepoint: 0x116AC, name: "TAKRI SIGN VISARGA", aliases: &[] },
        Codepoint { codepoint: 0x116AD, name: "TAKRI VOWEL SIGN AA", aliases: &[] },
        Codepoint { codepoint: 0x116AE, name: "TAKRI VOWEL SIGN I", aliases: &[] },
        Codepoint { codepoint: 0x116AF, name: "TAKRI VOWEL SIGN II", aliases: &[] },
        Codepoint { codepoint: 0x116B0, name: "TAKRI VOWEL SIGN U", aliases: &[] },
        Codepoint { codepoint: 0x116B1, name: "TAKRI VOWEL SIGN UU", aliases: &[] },
        Codepoint { codepoint: 0x116B2, name: "TAKRI VOWEL SIGN E", aliases: &[] },
        Codepoint { codepoint: 0x116B3, name: "TAKRI VOWEL SIGN AI", aliases: &[] },
        Codepoint { codepoint: 0x116B4, name: "TAKRI VOWEL SIGN O", aliases: &[] },
        Codepoint { codepoint: 0x116B5, name: "TAKRI VOWEL SIGN AU", aliases: &[] },
        Codepoint { codepoint: 0x116B6, name: "TAKRI SIGN VIRAMA", aliases: &[] },
        Codepoint { codepoint: 0x116B7, name: "TAKRI SIGN NUKTA", aliases: &[] },
        Codepoint { codepoint: 0x116B8, name: "TAKRI LETTER ARCHAIC KHA", aliases: &[] },
        Codepoint { codepoint: 0x116B9, name: "TAKRI ABBREVIATION SIGN", aliases: &[] },
        Codepoint { codepoint: 0x116C0, name: "TAKRI DIGIT ZERO", aliases: &[] },
        Codepoint { codepoint: 0x116C1, name: "TAKRI DIGIT ONE", aliases: &[] },
        Codepoint { codepoint: 0x116C2, name: "TAKRI DIGIT TWO", aliases: &[] },
        Codepoint { codepoint: 0x116C3, name: "TAKRI DIGIT THREE", aliases: &[] },
        Codepoint { codepoint: 0x116C4, name: "TAKRI DIGIT FOUR", aliases: &[] },
        Codepoint { codepoint: 0x116C5, name: "TAKRI DIGIT FIVE", aliases: &[] },
    ];
    assert(v@ =~= codepoint_table_516());
    v
}

pub open spec fn codepoint_table_517() -> Seq<Codepoint> {
    seq![
        Codepoint { codepoint: 0x116C6, name: "TAKRI DIGIT SIX", aliases: &[] },
        Codepoint { codepoint: 0x116C7, name: "TAKRI DIGIT SEVEN", aliases: &[] },
        Codepoint { codepoint: 0x116C8, name: "TAKRI DIGIT EIGHT", aliases: &[] },
        Codepoint { codepoint: 0x116C9, name: "TAKRI DIGIT NINE", aliases: &[] },
        Codepoint { codepoint: 0x11700, name: "AHOM LETTER KA", aliases: &[] },
        Codepoint { codepoint: 0x11701, name: "AHOM LETTER KHA", aliases: &[] },
        Codepoint { codepoint: 0x11702, name: "AHOM LETTER NGA", aliases: &[] },
        Codepoint { codepoint: 0x11703, name: "AHOM LETTER NA", aliases: &[] },
        Codepoint { codepoint: 0x11704, name: "AHOM LETTER TA", aliases: &[] },
        Codepoint { codepoint: 0x11705, name: "AHOM LETTER ALTERNATE TA", aliases: &[] },
        Codepoint { codepoint: 0x11706, name: "AHOM LETTER PA", aliases: &[] },
        Codepoint { codepoint: 0x11707, name: "AHOM LETTER PHA", aliases: &[] },
        Codepoint { codepoint: 0x11708, name: "AHOM LETTER BA", aliases: &[] },
        Codepoint { codepoint: 0x11709, name: "AHOM LETTER MA", aliases: &[] },
        Codepoint { codepoint: 0x1170A, name: "AHOM LETTER JA", aliases: &[] },
        Codepoint { codepoint: 0x1170B, name: "AHOM LETTER CHA", aliases: &[] },
        Codepoint { codepoint: 0x1170C, name: "AHOM LETTER THA", aliases: &[] },
        Codepoint { codepoint: 0x1170D, name: "AHOM LETTER RA", aliases: &[] },
        Codepoint { codepoint: 0x1170E, name: "AHOM LETTER LA", aliases: &[] },
        Codepoint { codepoint: 0x1170F, name: "AHOM LETTER SA", aliases: &[] },
        Codepoint { codepoint: 0x11710, name: "AHOM LETTER NYA", aliases: &[] },
        Codepoint { codepoint: 0x11711, name: "AHOM LETTER HA", aliases: &[] },
        Codepoint { codepoint: 0x11712, name: "AHOM LETTER A", aliases: &[] },
        Codepoint { codepoint: 0x11713, name: "AHOM LETTER DA", aliases: &[] },
        Codepoint { codepoint: 0x11714, name: "AHOM LETTER DHA", aliases: &[] },
        Codepoint { codepoint: 0x11715, name: "AHOM LETTER GA", aliases: &[] },
        Codepoint { codepoint: 0x11716, name: "AHOM LETTER ALTERNATE GA", aliases: &[] },
        Codepoint { codepoint: 0x11717, name: "AHOM LETTER GHA", aliases: &[] },
        Codepoint { codepoint: 0x11718, name: "AHOM LETTER BHA", aliases: &[] },
        Codepoint { codepoint: 0x11719, name: "AHOM LETTER JHA", aliases: &[] },
        Codepoint { codepoint: 0x1171A, name: "AHOM LETTER ALTERNATE BA", aliases: &[] },
        Codepoint { codepoint: 0x1171D, name: "AHOM CONSONANT SIGN MEDIAL LA", aliases: &[] },
        Codepoint { codepoint: 0x1171E, name: "AHOM CONSONANT SIGN MEDIAL RA", aliases: &[] },
        Codepoint { codepoint: 0x1171F, name: "AHOM CONSONANT SIGN MEDIAL LIGATING RA", aliases: &[] },
        Codepoint { codepoint: 0x11720, name: "AHOM VOWEL SIGN A", aliases: &[] },
        Codepoint { codepoint: 0x11721, name: "AHOM VOWEL SIGN AA", aliases: &[] },
        Codepoint { codepoint: 0x11722, name: "AHOM VOWEL SIGN I", aliases: &[] },
        Codepoint { codepoint: 0x11723, name: "AHOM VOWEL SIGN II", aliases: &[] },
        Codepoint { codepoint: 0x11724, name: "AHOM VOWEL SIGN U", aliases: &[] },
        Codepoint { codepoint: 0x11725, name: "AHOM VOWEL SIGN UU", aliases: &[] },
    ]
}

fn all_codepoints_517() -> (v: Vec<Codepoint>)
    ensures
        v@ == codepoint_table_517(),
{
    let v = vec![
        Codepoint { codepoint: 0x116C6, name: "TAKRI DIGIT SIX", aliases: &[] },
        Codepoint { codepoint: 0x116C7, name: "TAKRI DIGIT SEVEN", aliases: &[] },
        Codepoint { codepoint: 0x116C8, name: "TAKRI DIGIT EIGHT", aliases: &[] },
        Codepoint { codepoint: 0x116C9, name: "TAKRI DIGIT NINE", aliases: &[] },
        Codepoint { codepoint: 0x11700, name: "AHOM LETTER KA", aliases: &[] },
        Codepoint { codepoint: 0x11701, name: "AHOM LETTER KHA", aliases: &[] },
        Codepoint { codepoint: 0x11702, name: "AHOM LETTER NGA", aliases: &[] },
        Codepoint { codepoint: 0x11703, name: "AHOM LETTER NA", aliases: &[] },
        Codepoint { codepoint: 0x11704, name: "AHOM LETTER TA", aliases: &[] },
        Codepoint { codepoint: 0x11705, name: "AHOM LETTER ALTERNATE TA", aliases: &[] },
        Codepoint { codepoint: 0x11706, name: "AHOM LETTER PA", aliases: &[] },
        Codepoint { codepoint: 0x11707, name: "AHOM LETTER PHA", aliases: &[] },
        Codepoint { codepoint: 0x11708, name: "AHOM LETTER BA", aliases: &[] },
        Codepoint { codepoint: 0x11709, name: "AHOM LETTER MA", aliases: &[] },
        Codepoint { codepoint: 0x1170A, name: "AHOM LETTER JA", aliases: &[] },
        Codepoint { codepoint: 0x1170B, name: "AHOM LETTER CHA", aliases: &[] },
        Codepoint { codepoint: 0x1170C, name: "AHOM LETTER THA", aliases: &[] },
        Codepoint { codepoint: 0x1170D, name: "AHOM LETTER RA", aliases: &[] },
        Codepoint { codepoint: 0x1170E, name: "AHOM LETTER LA", aliases: &[] },
        Codepoint { codepoint: 0x1170F, name: "AHOM LETTER SA", aliases: &[] },
        Codepoint { codepoint: 0x11710, name: "AHOM LETTER NYA", aliases: &[] },
        Codepoint { codepoint: 0x11711, name: "AHOM LETTER HA", aliases: &[] },
        Codepoint { codepoint: 0x11712, name: "AHOM LETTER A", aliases: &[] },
        Codepoint { codepoint: 0x11713, name: "AHOM LETTER DA", aliases: &[] },
        Codepoint { codepoint: 0x11714, name: "AHOM LETTER DHA", aliases: &[] },
        Codepoint { codepoint: 0x11715, name: "AHOM LETTER GA", aliases: &[] },
        Codepoint { codepoint: 0x11716, name: "AHOM LETTER ALTERNATE GA", aliases: &[] },
        Codepoint { codepoint: 0x11717, name: "AHOM LETTER GHA", aliases: &[] },
        Codepoint { codepoint: 0x11718, name: "AHOM LETTER BHA", aliases: &[] },
        Codepoint { codepoint: 0x11719, name: "AHOM LETTER JHA", aliases: &[] },
        Codepoint { codepoint: 0x1171A, name: "AHOM LETTER ALTERNATE BA", aliases: &[] },
        Codepoint { codepoint: 0x1171D, name: "AHOM CONSONANT SIGN MEDIAL LA", aliases: &[] },
        Codepoint { codepoint: 0x1171E, name: "AHOM CONSONANT SIGN MEDIAL RA", aliases: &[] },
        Codepoint { codepoint: 0x1171F, name: "AHOM CONSONANT SIGN MEDIAL LIGATING RA", aliases: &[] },
        Codepoint { codepoint: 0x11720, name: "AHOM VOWEL SIGN A", aliases: &[] },
        Codepoint { codepoint: 0x11721, name: "AHOM VOWEL SIGN AA", aliases: &[] },
        Codepoint { codepoint: 0x11722, name: "AHOM VOWEL SIGN I", aliases: &[] },
        Codepoint { codepoint: 0x11723, name: "AHOM VOWEL SIGN II", aliases: &[] },
        Codepoint { codepoint: 0x11724, name: "AHOM VOWEL SIGN U", aliases: &[] },
        Codepoint { codepoint: 0x11725, name: "AHOM VOWEL SIGN UU", aliases: &[] },
    ];
    assert(v@ =~= codepoint_table_517());
    v
}

pub open spec fn codepoint_table_518() -> Seq<Codepoint> {
    seq![
        Codepoint { codepoint: 0x11726, name: "AHOM VOWEL SIGN E", aliases: &[] },
        Codepoint { codepoint: 0x11727, name: "AHOM VOWEL SIGN AW", aliases: &[] },
        Codepoint { codepoint: 0x11728, name: "AHOM VOWEL SIGN O", aliases: &[] },
        Codepoint { codepoint: 0x11729, name: "AHOM VOWEL SIGN AI", aliases: &[] },
        Codepoint { codepoint: 0x1172A, name: "AHOM VOWEL SIGN AM", aliases: &[] },
        Codepoint { codepoint: 0x1172B, name: "AHOM SIGN KILLER", aliases: &[] },
        Codepoint { codepoint: 0x11730, name: "AHOM DIGIT ZERO", aliases: &[] },
        Codepoint { codepoint: 0x11731, name: "AHOM DIGIT ONE", aliases: &[] },
        Codepoint { codepoint: 0x11732, name: "AHOM DIGIT TWO", aliases: &[] },
        Codepoint { codepoint: 0x11733, name: "AHOM DIGIT THREE", aliases: &[] },
        Codepoint { codepoint: 0x11734, name: "AHOM DIGIT FOUR", aliases: &[] },
        Codepoint { codepoint: 0x11735, name: "AHOM DIGIT FIVE", aliases: &[] },
        Codepoint { codepoint: 0x11736, name: "AHOM DIGIT SIX", aliases: &[] },
        Codepoint { codepoint: 0x11737, name: "AHOM DIGIT SEVEN", aliases: &[] },
        Codepoint { codepoint: 0x11738, name: "AHOM DIGIT EIGHT", aliases: &[] },
        Codepoint { codepoint: 0x11739, name: "AHOM DIGIT NINE", aliases: &[] },
        Codepoint { codepoint: 0x1173A, name: "AHOM NUMBER TEN", aliases: &[] },
        Codepoint { codepoint: 0x1173B, name: "AHOM NUMBER TWENTY", aliases: &[] },
        Codepoint { codepoint: 0x1173C, name: "AHOM SIGN SMALL SECTION", aliases: &[] },
        Codepoint { codepoint: 0x1173D, name: "AHOM SIGN SECTION", aliases: &[] },
        Codepoint { codepoint: 0x1173E, name: "AHOM SIGN RULAI", aliases: &[] },
        Codepoint { codepoint: 0x1173F, name: "AHOM SYMBOL VI", aliases: &[] },
        Codepoint { codepoint: 0x11740, name: "AHOM LETTER CA", aliases: &[] },
        Codepoint { codepoint: 0x11741, name: "AHOM LETTER TTA", aliases: &[] },
        Codepoint { codepoint: 0x11742, name: "AHOM LETTER TTHA", aliases: &[] },
        Codepoint { codepoint: 0x11743, name: "AHOM LETTER DDA", aliases: &[] },
        Codepoint { codepoint: 0x11744, name: "AHOM LETTER DDHA", aliases: &[] },
        Codepoint { codepoint: 0x11745, name: "AHOM LETTER NNA", aliases: &[] },
        Codepoint { codepoint: 0x11746, name: "AHOM LETTER LLA", aliases: &[] },
        Codepoint { codepoint: 0x11800, name: "DOGRA LETTER A", aliases: &[] },
        Codepoint { codepoint: 0x11801, name: "DOGRA LETTER AA", aliases: &[] },
        Codepoint { codepoint: 0x11802, name: "DOGRA LETTER I", aliases: &[] },
        Codepoint { codepoint: 0x11803, name: "DOGRA LETTER II", aliases: &[] },
        Codepoint { codepoint: 0x11804, name: "DOGRA LETTER U", aliases: &[] },
        Codepoint { codepoint: 0x11805, name: "DOGRA LETTER UU", aliases: &[] },
        Codepoint { codepoint: 0x11806, name: "DOGRA LETTER E", aliases: &[] },
        Codepoint { codepoint: 0x11807, name: "DOGRA LETTER AI", aliases: &[] },
        Codepoint { codepoint: 0x11808, name: "DOGRA LETTER O", aliases: &[] },
        Codepoint { codepoint: 0x11809, name: "DOGRA LETTER AU", aliases: &[] },
        Codepoint { codepoint: 0x1180A, name: "DOGRA LETTER KA", aliases: &[] },
    ]
}

fn all_codepoints_518() -> (v: Vec<Codepoint>)
    ensures
        v@ == codepoint_table_518(),
{
    let v = vec![
        Codepoint { codepoint: 0x11726, name: "AHOM VOWEL SIGN E", aliases: &[] },
        Codepoint { codepoint: 0x11727, name: "AHOM VOWEL SIGN AW", aliases: &[] },
        Codepoint { codepoint: 0x11728, name: "AHOM VOWEL SIGN O", aliases: &[] },
        Codepoint { codepoint: 0x11729, name: "AHOM VOWEL SIGN AI", aliases: &[] },
        Codepoint { codepoint: 0x1172A, name: "AHOM VOWEL SIGN AM", aliases: &[] },
        Codepoint { codepoint: 0x1172B, name: "AHOM SIGN KILLER", aliases: &[] },
        Codepoint { codepoint: 0x11730, name: "AHOM DIGIT ZERO", aliases: &[] },
        Codepoint { codepoint: 0x11731, name: "AHOM DIGIT ONE", aliases: &[] },
        Codepoint { codepoint: 0x11732, name: "AHOM DIGIT TWO", aliases: &[] },
        Codepoint { codepoint: 0x11733, name: "AHOM DIGIT THREE", aliases: &[] },
        Codepoint { codepoint: 0x11734, name: "AHOM DIGIT FOUR", aliases: &[] },
        Codepoint { codepoint: 0x11735, name: "AHOM DIGIT FIVE", aliases: &[] },
        Codepoint { codepoint: 0x11736, name: "AHOM DIGIT SIX", aliases: &[] },
        Codepoint { codepoint: 0x11737, name: "AHOM DIGIT SEVEN", aliases: &[] },
        Codepoint { codepoint: 0x11738, name: "AHOM DIGIT EIGHT", aliases: &[] },
        Codepoint { codepoint: 0x11739, name: "AHOM DIGIT NINE", aliases: &[] },
        Codepoint { codepoint: 0x1173A, name: "AHOM NUMBER TEN", aliases: &[] },
        Codepoint { codepoint: 0x1173B, name: "AHOM NUMBER TWENTY", aliases: &[] },
        Codepoint { codepoint: 0x1173C, name: "AHOM SIGN SMALL SECTION", aliases: &[] },
        Codepoint { codepoint: 0x1173D, name: "AHOM SIGN SECTION", aliases: &[] },
        Codepoint { codepoint: 0x1173E, name: "AHOM SIGN RULAI", aliases: &[] },
        Codepoint { codepoint: 0x1173F, name: "AHOM SYMBOL VI", aliases: &[] },
        Codepoint { codepoint: 0x11740, name: "AHOM LETTER CA", aliases: &[] },
        Codepoint { codepoint: 0x11741, name: "AHOM LETTER TTA", aliases: &[] },
        Codepoint { codepoint: 0x11742, name: "AHOM LETTER TTHA", aliases: &[] },
        Codepoint { codepoint: 0x11743, name: "AHOM LETTER DDA", aliases: &[] },
        Codepoint { codepoint: 0x11744, name: "AHOM LETTER DDHA", aliases: &[] },
        Codepoint { codepoint: 0x11745, name: "AHOM LETTER NNA", aliases: &[] },
        Codepoint { codepoint: 0x11746, name: "AHOM LETTER LLA", aliases: &[] },
        Codepoint { codepoint: 0x11800, name: "DOGRA LETTER A", aliases: &[] },
        Codepoint { codepoint: 0x11801, name: "DOGRA LETTER AA", aliases: &[] },
        Codepoint { codepoint: 0x11802, name: "DOGRA LETTER I", aliases: &[] },
        Codepoint { codepoint: 0x11803, name: "DOGRA LETTER II", aliases: &[] },
        Codepoint { codepoint: 0x11804, name: "DOGRA LETTER U", aliases: &[] },
        Codepoint { codepoint: 0x11805, name: "DOGRA LETTER UU", aliases: &[] },
        Codepoint { codepoint: 0x11806, name: "DOGRA LETTER E", aliases: &[] },
        Codepoint { codepoint: 0x11807, name: "DOGRA LETTER AI", aliases: &[] },
        Codepoint { codepoint: 0x11808, name: "DOGRA LETTER O", aliases: &[] },
        Codepoint { codepoint: 0x11809, name: "DOGRA LETTER AU", aliases: &[] },
        Codepoint { codepoint: 0x1180A, name: "DOGRA LETTER KA", aliases: &[] },
    ];
    assert(v@ =~= codepoint_table_518());
    v
}

pub open spec fn codepoint_table_519() -> Seq<Codepoint> {
    seq![
        Codepoint { codepoint: 0x1180B, name: "DOGRA LETTER KHA", aliases: &[] },
        Codepoint { codepoint: 0x1180C, name: "DOGRA LETTER GA", aliases: &[] },
        Codepoint { codepoint: 0x1180D, name: "DOGRA LETTER GHA", aliases: &[] },
        Codepoint { codepoint: 0x1180E, name: "DOGRA LETTER NGA", aliases: &[] },
        Codepoint { codepoint: 0x1180F, name: "DOGRA LETTER CA", aliases: &[] },
        Codepoint { codepoint: 0x11810, name: "DOGRA LETTER CHA", aliases: &[] },
        Codepoint { codepoint: 0x11811, name: "DOGRA LETTER JA", aliases: &[] },
        Codepoint { codepoint: 0x11812, name: "DOGRA LETTER JHA", aliases: &[] },
        Codepoint { codepoint: 0x11813, name: "DOGRA LETTER NYA", aliases: &[] },
        Codepoint { codepoint: 0x11814, name: "DOGRA LETTER TTA", aliases: &[] },
        Codepoint { codepoint: 0x11815, name: "DOGRA LETTER TTHA", aliases: &[] },
        Codepoint { codepoint: 0x11816, name: "DOGRA LETTER DDA", aliases: &[] },
        Codepoint { codepoint: 0x11817, name: "DOGRA LETTER DDHA", aliases: &[] },
        Codepoint { codepoint: 0x11818, name: "DOGRA LETTER NNA", aliases: &[] },
        Codepoint { codepoint: 0x11819, name: "DOGRA LETTER TA", aliases: &[] },
        Codepoint { codepoint: 0x1181A, name: "DOGRA LETTER THA", aliases: &[] },
        Codepoint { codepoint: 0x1181B, name: "DOGRA LETTER DA", aliases: &[] },
        Codepoint { codepoint: 0x1181C, name: "DOGRA LETTER DHA", aliases: &[] },
        Codepoint { codepoint: 0x1181D, name: "DOGRA LETTER NA", aliases: &[] },
        Codepoint { codepoint: 0x1181E, name: "DOGRA LETTER PA", aliases: &[] },
        Codepoint { codepoint: 0x1181F, name: "DOGRA LETTER PHA", aliases: &[] },
        Codepoint { codepoint: 0x11820, name: "DOGRA LETTER BA", aliases: &[] },
        Codepoint { codepoint: 0x11821, name: "DOGRA LETTER BHA", aliases: &[] },
        Codepoint { codepoint: 0x11822, name: "DOGRA LETTER MA", aliases: &[] },
        Codepoint { codepoint: 0x11823, name: "DOGRA LETTER YA", aliases: &[] },
        Codepoint { codepoint: 0x11824, name: "DOGRA LETTER RA", aliases: &[] },
        Codepoint { codepoint: 0x11825, name: "DOGRA LETTER LA", aliases: &[] },
        Codepoint { codepoint: 0x11826, name: "DOGRA LETTER VA", aliases: &[] },
        Codepoint { codepoint: 0x11827, name: "DOGRA LETTER SHA", aliases: &[] },
        Codepoint { codepoint: 0x11828, name: "DOGRA LETTER SSA", aliases: &[] },
        Codepoint { codepoint: 0x11829, name: "DOGRA LETTER SA", aliases: &[] },
        Codepoint { codepoint: 0x1182A, name: "DOGRA LETTER HA", aliases: &[] },
        Codepoint { codepoint: 0x1182B, name: "DOGRA LETTER RRA", aliases: &[] },
        Codepoint { codepoint: 0x1182C, name: "DOGRA VOWEL SIGN AA", aliases: &[] },
        Codepoint { codepoint: 0x1182D, name: "DOGRA VOWEL SIGN I", aliases: &[] },
        Codepoint { codepoint: 0x1182E, name: "DOGRA VOWEL SIGN II", aliases: &[] },
        Codepoint { codepoint: 0x1182F, name: "DOGRA VOWEL SIGN U", aliases: &[] },
        Codepoint { codepoint: 0x11830, name: "DOGRA VOWEL SIGN UU", aliases: &[] },
        Codepoint { codepoint: 0x11831, name: "DOGRA VOWEL SIGN VOCALIC R", aliases: &[] },
        Codepoint { codepoint: 0x11832, name: "DOGRA VOWEL SIGN VOCALIC RR", aliases: &[] },
    ]
}

fn all_codepoints_519() -> (v: Vec<Codepoint>)
    ensures
        v@ == codepoint_table_519(),
{
    let v = vec![
        Codepoint { codepoint: 0x1180B, name: "DOGRA LETTER KHA", aliases: &[] },
        Codepoint { codepoint: 0x1180C, name: "DOGRA LETTER GA", aliases: &[] },
        Codepoint { codepoint: 0x1180D, name: "DOGRA LETTER GHA", aliases: &[] },
        Codepoint { codepoint: 0x1180E, name: "DOGRA LETTER NGA", aliases: &[] },
        Codepoint { codepoint: 0x1180F, name: "DOGRA LETTER CA", aliases: &[] },
        Codepoint { codepoint: 0x11810, name: "DOGRA LETTER CHA", aliases: &[] },
        Codepoint { codepoint: 0x11811, name: "DOGRA LETTER JA", aliases: &[] },
        Codepoint { codepoint: 0x11812, name: "DOGRA LETTER JHA", aliases: &[] },
        Codepoint { codepoint: 0x11813, name: "DOGRA LETTER NYA", aliases: &[] },
        Codepoint { codepoint: 0x11814, name: "DOGRA LETTER TTA", aliases: &[] },
        Codepoint { codepoint: 0x11815, name: "DOGRA LETTER TTHA", aliases: &[] },
        Codepoint { codepoint: 0x11816, name: "DOGRA LETTER DDA", aliases: &[] },
        Codepoint { codepoint: 0x11817, name: "DOGRA LETTER DDHA", aliases: &[] },
        Codepoint { codepoint: 0x11818, name: "DOGRA LETTER NNA", aliases: &[] },
        Codepoint { codepoint: 0x11819, name: "DOGRA LETTER TA", aliases: &[] },
        Codepoint { codepoint: 0x1181A, name: "DOGRA LETTER THA", aliases: &[] },
        Codepoint { codepoint: 0x1181B, name: "DOGRA LETTER DA", aliases: &[] },
        Codepoint { codepoint: 0x1181C, name: "DOGRA LETTER DHA", aliases: &[] },
        Codepoint { codepoint: 0x1181D, name: "DOGRA LETTER NA", aliases: &[] },
        Codepoint { codepoint: 0x1181E, name: "DOGRA LETTER PA", aliases: &[] },
        Codepoint { codepoint: 0x1181F, name: "DOGRA LETTER PHA", aliases: &[] },
        Codepoint { codepoint: 0x11820, name: "DOGRA LETTER BA", aliases: &[] },
        Codepoint { codepoint: 0x11821, name: "DOGRA LETTER BHA", aliases: &[] },
        Codepoint { codepoint: 0x11822, name: "DOGRA LETTER MA", aliases: &[] },
        Codepoint { codepoint: 0x11823, name: "DOGRA LETTER YA", aliases: &[] },
        Codepoint { codepoint: 0x11824, name: "DOGRA LETTER RA", aliases: &[] },
        Codepoint { codepoint: 0x11825, name: "DOGRA LETTER LA", aliases: &[] },
        Codepoint { codepoint: 0x11826, name: "DOGRA LETTER VA", aliases: &[] },
        Codepoint { codepoint: 0x11827, name: "DOGRA LETTER SHA", aliases: &[] },
        Codepoint { codepoint: 0x11828, name: "DOGRA LETTER SSA", aliases: &[] },
        Codepoint { codepoint: 0x11829, name: "DOGRA LETTER SA", aliases: &[] },
        Codepoint { codepoint: 0x1182A, name: "DOGRA LETTER HA", aliases: &[] },
        Codepoint { codepoint: 0x1182B, name: "DOGRA LETTER RRA", aliases: &[] },
        Codepoint { codepoint: 0x1182C, name: "DOGRA VOWEL SIGN AA", aliases: &[] },
        Codepoint { codepoint: 0x1182D, name: "DOGRA VOWEL SIGN I", aliases: &[] },
        Codepoint { codepoint: 0x1182E, name: "DOGRA VOWEL SIGN II", aliases: &[] },
        Codepoint { codepoint: 0x1182F, name: "DOGRA VOWEL SIGN U", aliases: &[] },
        Codepoint { codepoint: 0x11830, name: "DOGRA VOWEL SIGN UU", aliases: &[] },
        Codepoint { codepoint: 0x11831, name: "DOGRA VOWEL SIGN VOCALIC R", aliases: &[] },
        Codepoint { codepoint: 0x11832, name: "DOGRA VOWEL SIGN VOCALIC RR", aliases: &[] },
    ];
    assert(v@ =~= codepoint_table_519());
    v
}

/// The entries from position 20000 of the table, 800 at most.
pub open spec fn codepoint_group_25() -> Seq<Codepoint> {
    codepoint_table_500() + codepoint_table_501() + codepoint_table_502() + codepoint_table_503() + codepoint_table_504() + codepoint_table_505() + codepoint_table_506() + codepoint_table_507() + codepoint_table_508() + codepoint_table_509() + codepoint_table_510() + codepoint_table_511() + codepoint_table_512() + codepoint_table_513() + codepoint_table_514() + codepoint_table_515() + codepoint_table_516() + codepoint_table_517() + codepoint_table_518() + codepoint_table_519()
}

pub fn all_codepoints_group_25() -> (v: Vec<Codepoint>)
    ensures
        v@ == codepoint_group_25(),
{
    let mut v = all_codepoints_500();
    let mut part = all_codepoints_501();
    v.append(&mut part);
    let mut part = all_codepoints_502();
    v.append(&mut part);
    let mut part = all_codepoints_503();
    v.append(&mut part);
    let mut part = all_codepoints_504();
    v.append(&mut part);
    let mut part = all_codepoints_505();
    v.append(&mut part);
    let mut part = all_codepoints_506();
    v.append(&mut part);
    let mut part = all_codepoints_507();
    v.append(&mut part);
    let mut part = all_codepoints_508();
    v.append(&mut part);
    let mut part = all_codepoints_509();
    v.append(&mut part);
    let mut part = all_codepoints_510();
    v.append(&mut part);
    let mut part = all_codepoints_511();
    v.append(&mut part);
    let mut part = all_codepoints_512();
    v.append(&mut part);
    let mut part = all_codepoints_513();
    v.append(&mut part);
    let mut part = all_codepoints_514();
    v.append(&mut part);
    let mut part = all_codepoints_515();
    v.append(&mut part);
    let mut part = all_codepoints_516();
    v.append(&mut part);
    let mut part = all_codepoints_517();
    v.append(&mut part);
    let mut part = all_codepoints_518();
    v.append(&mut part);
    let mut part = all_codepoints_519();
    v.append(&mut part);
    v
}

pub open spec fn codepoint_table_520() -> Seq<Codepoint> {
    seq![
        Codepoint { codepoint: 0x11833, name: "DOGRA VOWEL SIGN E", aliases: &[] },
        Codepoint { codepoint: 0x11834, name: "DOGRA VOWEL SIGN AI", aliases: &[] },
        Codepoint { codepoint: 0x11835, name: "DOGRA VOWEL SIGN O", aliases: &[] },
        Codepoint { codepoint: 0x11836, name: "DOGRA VOWEL SIGN AU", aliases: &[] },
        Codepoint { codepoint: 0x11837, name: "DOGRA SIGN ANUSVARA", aliases: &[] },
        Codepoint { codepoint: 0x11838, name: "DOGRA SIGN VISARGA", aliases: &[] },
        Codepoint { codepoint: 0x11839, name: "DOGRA SIGN VIRAMA", aliases: &[] },
        Codepoint { codepoint: 0x1183A, name: "DOGRA SIGN NUKTA", aliases: &[] },
        Codepoint { codepoint: 0x1183B, name: "DOGRA ABBREVIATION SIGN", aliases: &[] },
        Codepoint { codepoint: 0x118A0, name: "WARANG CITI CAPITAL LETTER NGAA", aliases: &[] },
        Codepoint { codepoint: 0x118A1, name: "WARANG CITI CAPITAL LETTER A", aliases: &[] },
        Codepoint { codepoint: 0x118A2, name: "WARANG CITI CAPITAL LETTER WI", aliases: &[] },
        Codepoint { codepoint: 0x118A3, name: "WARANG CITI CAPITAL LETTER YU", aliases: &[] },
        Codepoint { codepoint: 0x118A4, name: "WARANG CITI CAPITAL LETTER YA", aliases: &[] },
        Codepoint { codepoint: 0x118A5, name: "WARANG CITI CAPITAL LETTER YO", aliases: &[] },
        Codepoint { codepoint: 0x118A6, name: "WARANG CITI CAPITAL LETTER II", aliases: &[] },
        Codepoint { codepoint: 0x118A7, name: "WARANG CITI CAPITAL LETTER UU", aliases: &[] },
        Codepoint { codepoint: 0x118A8, name: "WARANG CITI CAPITAL LETTER E", aliases: &[] },
        Codepoint { codepoint: 0x118A9, name: "WARANG CITI CAPITAL LETTER O", aliases: &[] },
        Codepoint { codepoint: 0x118AA, name: "WARANG CITI CAPITAL LETTER ANG", aliases: &[] },
        Codepoint { codepoint: 0x118AB, name: "WARANG CITI CAPITAL LETTER GA", aliases: &[] },
        Codepoint { codepoint: 0x118AC, name: "WARANG CITI CAPITAL LETTER KO", aliases: &[] },
        Codepoint { codepoint: 0x118AD, name: "WARANG CITI CAPITAL LETTER ENY", aliases: &[] },
        Codepoint { codepoint: 0x118AE, name: "WARANG CITI CAPITAL LETTER YUJ", aliases: &[] },
        Codepoint { codepoint: 0x118AF, name: "WARANG CITI CAPITAL LETTER UC", aliases: &[] },
        Codepoint { codepoint: 0x118B0, name: "WARANG CITI CAPITAL LETTER ENN", aliases: &[] },
        Codepoint { codepoint: 0x118B1, name: "WARANG CITI CAPITAL LETTER ODD", aliases: &[] },
        Codepoint { codepoint: 0x118B2, name: "WARANG CITI CAPITAL LETTER TTE", aliases: &[] },
        Codepoint { codepoint: 0x118B3, name: "WARANG CITI CAPITAL LETTER NUNG", aliases: &[] },
        Codepoint { codepoint: 0x118B4, name: "WARANG CITI CAPITAL LETTER DA", aliases: &[] },
        Codepoint { codepoint: 0x118B5, name: "WARANG CITI CAPITAL LETTER AT", aliases: &[] },
        Codepoint { codepoint: 0x118B6, name: "WARANG CITI CAPITAL LETTER AM", aliases: &[] },
        Codepoint { codepoint: 0x118B7, name: "WARANG CITI CAPITAL LETTER BU", aliases: &[] },
        Codepoint { codepoint: 0x118B8, name: "WARANG CITI CAPITAL LETTER PU", aliases: &[] },
        Codepoint { codepoint: 0x118B9, name: "WARANG CITI CAPITAL LETTER HIYO", aliases: &[] },
        Codepoint { codepoint: 0x118BA, name: "WARANG CITI CAPITAL LETTER HOLO", aliases: &[] },
        Codepoint { codepoint: 0x118BB, name: "WARANG CITI CAPITAL LETTER HORR", aliases: &[] },
        Codepoint { codepoint: 0x118BC, name: "WARANG CITI CAPITAL LETTER HAR", aliases: &[] },
        Codepoint { codepoint: 0x118BD, name: "WARANG CITI CAPITAL LETTER SSUU", aliases: &[] },
        Codepoint { codepoint: 0x118BE, name: "WARANG CITI CAPITAL LETTER SII", aliases: &[] },
    ]
}

fn all_codepoints_520() -> (v: Vec<Codepoint>)
    ensures
        v@ == codepoint_table_520(),
{
    let v = vec![
        Codepoint { codepoint: 0x11833, name: "DOGRA VOWEL SIGN E", aliases: &[] },
        Codepoint { codepoint: 0x11834, name: "DOGRA VOWEL SIGN AI", aliases: &[] },
        Codepoint { codepoint: 0x11835, name: "DOGRA VOWEL SIGN O", aliases: &[] },
        Codepoint { codepoint: 0x11836, name: "DOGRA VOWEL SIGN AU", aliases: &[] },
        Codepoint { codepoint: 0x11837, name: "DOGRA SIGN ANUSVARA", aliases: &[] },
        Codepoint { codepoint: 0x11838, name: "DOGRA SIGN VISARGA", aliases: &[] },
        Codepoint { codepoint: 0x11839, name: "DOGRA SIGN VIRAMA", aliases: &[] },
        Codepoint { codepoint: 0x1183A, name: "DOGRA SIGN NUKTA", aliases: &[] },
        Codepoint { codepoint: 0x1183B, name: "DOGRA ABBREVIATION SIGN", aliases: &[] },
        Codepoint { codepoint: 0x118A0, name: "WARANG CITI CAPITAL LETTER NGAA", aliases: &[] },
        Codepoint { codepoint: 0x118A1, name: "WARANG CITI CAPITAL LETTER A", aliases: &[] },
        Codepoint { codepoint: 0x118A2, name: "WARANG CITI CAPITAL LETTER WI", aliases: &[] },
        Codepoint { codepoint: 0x118A3, name: "WARANG CITI CAPITAL LETTER YU", aliases: &[] },
        Codepoint { codepoint: 0x118A4, name: "WARANG CITI CAPITAL LETTER YA", aliases: &[] },
        Codepoint { codepoint: 0x118A5, name: "WARANG CITI CAPITAL LETTER YO", aliases: &[] },
        Codepoint { codepoint: 0x118A6, name: "WARANG CITI CAPITAL LETTER II", aliases: &[] },
        Codepoint { codepoint: 0x118A7, name: "WARANG CITI CAPITAL LETTER UU", aliases: &[] },
        Codepoint { codepoint: 0x118A8, name: "WARANG CITI CAPITAL LETTER E", aliases: &[] },
        Codepoint { codepoint: 0x118A9, name: "WARANG CITI CAPITAL LETTER O", aliases: &[] },
        Codepoint { codepoint: 0x118AA, name: "WARANG CITI CAPITAL LETTER ANG", aliases: &[] },
        Codepoint { codepoint: 0x118AB, name: "WARANG CITI CAPITAL LETTER GA", aliases: &[] },
        Codepoint { codepoint: 0x118AC, name: "WARANG CITI CAPITAL LETTER KO", aliases: &[] },
        Codepoint { codepoint: 0x118AD, name: "WARANG CITI CAPITAL LETTER ENY", aliases: &[] },
        Codepoint { codepoint: 0x118AE, name: "WARANG CITI CAPITAL LETTER YUJ", aliases: &[] },
        Codepoint { codepoint: 0x118AF, name: "WARANG CITI CAPITAL LETTER UC", aliases: &[] },
        Codepoint { codepoint: 0x118B0, name: "WARANG CITI CAPITAL LETTER ENN", aliases: &[] },
        Codepoint { codepoint: 0x118B1, name: "WARANG CITI CAPITAL LETTER ODD", aliases: &[] },
        Codepoint { codepoint: 0x118B2, name: "WARANG CITI CAPITAL LETTER TTE", aliases: &[] },
        Codepoint { codepoint: 0x118B3, name: "WARANG CITI CAPITAL LETTER NUNG", aliases: &[] },
        Codepoint { codepoint: 0x118B4, name: "WARANG CITI CAPITAL LETTER DA", aliases: &[] },
        Codepoint { codepoint: 0x118B5, name: "WARANG CITI CAPITAL LETTER AT", aliases: &[] },
        Codepoint { codepoint: 0x118B6, name: "WARANG CITI CAPITAL LETTER AM", aliases: &[] },
        Codepoint { codepoint: 0x118B7, name: "WARANG CITI CAPITAL LETTER BU", aliases: &[] },
        Codepoint { codepoint: 0x118B8, name: "WARANG CITI CAPITAL LETTER PU", aliases: &[] },
        Codepoint { codepoint: 0x118B9, name: "WARANG CITI CAPITAL LETTER HIYO", aliases: &[] },
        Codepoint { codepoint: 0x118BA, name: "WARANG CITI CAPITAL LETTER HOLO", aliases: &[] },
        Codepoint { codepoint: 0x118BB, name: "WARANG CITI CAPITAL LETTER HORR", aliases: &[] },
        Codepoint { codepoint: 0x118BC, name: "WARANG CITI CAPITAL LETTER HAR", aliases: &[] },
        Codepoint { codepoint: 0x118BD, name: "WARANG CITI CAPITAL LETTER SSUU", aliases: &[] },
        Codepoint { codepoint: 0x118BE, name: "WARANG CITI CAPITAL LETTER SII", aliases: &[] },
    ];
    assert(v@ =~= codepoint_table_520());
    v
}

pub open spec fn codepoint_table_521() -> Seq<Codepoint> {
    seq![
        Codepoint { codepoint: 0x118BF, name: "WARANG CITI CAPITAL LETTER VIYO", aliases: &[] },
        Codepoint { codepoint: 0x118C0, name: "WARANG CITI SMALL LETTER NGAA", aliases: &[] },
        Codepoint { codepoint: 0x118C1, name: "WARANG CITI SMALL LETTER A", aliases: &[] },
        Codepoint { codepoint: 0x118C2, name: "WARANG CITI SMALL LETTER WI", aliases: &[] },
        Codepoint { codepoint: 0x118C3, name: "WARANG CITI SMALL LETTER YU", aliases: &[] },
        Codepoint { codepoint: 0x118C4, name: "WARANG CITI SMALL LETTER YA", aliases: &[] },
        Codepoint { codepoint: 0x118C5, name: "WARANG CITI SMALL LETTER YO", aliases: &[] },
        Codepoint { codepoint: 0x118C6, name: "WARANG CITI SMALL LETTER II", aliases: &[] },
        Codepoint { codepoint: 0x118C7, name: "WARANG CITI SMALL LETTER UU", aliases: &[] },
        Codepoint { codepoint: 0x118C8, name: "WARANG CITI SMALL LETTER E", aliases: &[] },
        Codepoint { codepoint: 0x118C9, name: "WARANG CITI SMALL LETTER O", aliases: &[] },
        Codepoint { codepoint: 0x118CA, name: "WARANG CITI SMALL LETTER ANG", aliases: &[] },
        Codepoint { codepoint: 0x118CB, name: "WARANG CITI SMALL LETTER GA", aliases: &[] },
        Codepoint { codepoint: 0x118CC, name: "WARANG CITI SMALL LETTER KO", aliases: &[] },
        Codepoint { codepoint: 0x118CD, name: "WARANG CITI SMALL LETTER ENY", aliases: &[] },
        Codepoint { codepoint: 0x118CE, name: "WARANG CITI SMALL LETTER YUJ", aliases: &[] },
        Codepoint { codepoint: 0x118CF, name: "WARANG CITI SMALL LETTER UC", aliases: &[] },
        Codepoint { codepoint: 0x118D0, name: "WARANG CITI SMALL LETTER ENN", aliases: &[] },
        Codepoint { codepoint: 0x118D1, name: "WARANG CITI SMALL LETTER ODD", aliases: &[] },
        Codepoint { codepoint: 0x118D2, name: "WARANG CITI SMALL LETTER TTE", aliases: &[] },
        Codepoint { codepoint: 0x118D3, name: "WARANG CITI SMALL LETTER NUNG", aliases: &[] },
        Codepoint { codepoint: 0x118D4, name: "WARANG CITI SMALL LETTER DA", aliases: &[] },
        Codepoint { codepoint: 0x118D5, name: "WARANG CITI SMALL LETTER AT", aliases: &[] },
        Codepoint { codepoint: 0x118D6, name: "WARANG CITI SMALL LETTER AM", aliases: &[] },
        Codepoint { codepoint: 0x118D7, name: "WARANG CITI SMALL LETTER BU", aliases: &[] },
        Codepoint { codepoint: 0x118D8, name: "WARANG CITI SMALL LETTER PU", aliases: &[] },
        Codepoint { codepoint: 0x118D9, name: "WARANG CITI SMALL LETTER HIYO", aliases: &[] },
        Codepoint { codepoint: 0x118DA, name: "WARANG CITI SMALL LETTER HOLO", aliases: &[] },
        Codepoint { codepoint: 0x118DB, name: "WARANG CITI SMALL LETTER HORR", aliases: &[] },
        Codepoint { codepoint: 0x118DC, name: "WARANG CITI SMALL LETTER HAR", aliases: &[] },
        Codepoint { codepoint: 0x118DD, name: "WARANG CITI SMALL LETTER SSUU", aliases: &[] },
        Codepoint { codepoint: 0x118DE, name: "WARANG CITI SMALL LETTER SII", aliases: &[] },
        Codepoint { codepoint: 0x118DF, name: "WARANG CITI SMALL LETTER VIYO", aliases: &[] },
        Codepoint { codepoint: 0x118E0, name: "WARANG CITI DIGIT ZERO", aliases: &[] },
        Codepoint { codepoint: 0x118E1, name: "WARANG CITI DIGIT ONE", aliases: &[] },
        Codepoint { codepoint: 0x118E2, name: "WARANG CITI DIGIT TWO", aliases: &[] },
        Codepoint { codepoint: 0x118E3, name: "WARANG CITI DIGIT THREE", aliases: &[] },
        Codepoint { codepoint: 0x118E4, name: "WARANG CITI DIGIT FOUR", aliases: &[] },
        Codepoint { codepoint: 0x118E5, name: "WARANG CITI DIGIT FIVE", aliases: &[] },
        Codepoint { codepoint: 0x118E6, name: "WARANG CITI DIGIT SIX", aliases: &[] },
    ]
}

fn all_codepoints_521() -> (v: Vec<Codepoint>)
    ensures
        v@ == codepoint_table_521(),
{
    let v = vec![
        Codepoint { codepoint: 0x118BF, name: "WARANG CITI CAPITAL LETTER VIYO", aliases: &[] },
        Codepoint { codepoint: 0x118C0, name: "WARANG CITI SMALL LETTER NGAA", aliases: &[] },
        Codepoint { codepoint: 0x118C1, name: "WARANG CITI SMALL LETTER A", aliases: &[] },
        Codepoint { codepoint: 0x118C2, name: "WARANG CITI SMALL LETTER WI", aliases: &[] },
        Codepoint { codepoint: 0x118C3, name: "WARANG CITI SMALL LETTER YU", aliases: &[] },
        Codepoint { codepoint: 0x118C4, name: "WARANG CITI SMALL LETTER YA", aliases: &[] },
        Codepoint { codepoint: 0x118C5, name: "WARANG CITI SMALL LETTER YO", aliases: &[] },
        Codepoint { codepoint: 0x118C6, name: "WARANG CITI SMALL LETTER II", aliases: &[] },
        Codepoint { codepoint: 0x118C7, name: "WARANG CITI SMALL LETTER UU", aliases: &[] },
        Codepoint { codepoint: 0x118C8, name: "WARANG CITI SMALL LETTER E", aliases: &[] },
        Codepoint { codepoint: 0x118C9, name: "WARANG CITI SMALL LETTER O", aliases: &[] },
        Codepoint { codepoint: 0x118CA, name: "WARANG CITI SMALL LETTER ANG", aliases: &[] },
        Codepoint { codepoint: 0x118CB, name: "WARANG CITI SMALL LETTER GA", aliases: &[] },
        Codepoint { codepoint: 0x118CC, name: "WARANG CITI SMALL LETTER KO", aliases: &[] },
        Codepoint { codepoint: 0x118CD, name: "WARANG CITI SMALL LETTER ENY", aliases: &[] },
        Codepoint { codepoint: 0x118CE, name: "WARANG CITI SMALL LETTER YUJ", aliases: &[] },
        Codepoint { codepoint: 0x118CF, name: "WARANG CITI SMALL LETTER UC", aliases: &[] },
        Codepoint { codepoint: 0x118D0, name: "WARANG CITI SMALL LETTER ENN", aliases: &[] },
        Codepoint { codepoint: 0x118D1, name: "WARANG CITI SMALL LETTER ODD", aliases: &[] },
        Codepoint { codepoint: 0x118D2, name: "WARANG CITI SMALL LETTER TTE", aliases: &[] },
        Codepoint { codepoint: 0x118D3, name: "WARANG CITI SMALL LETTER NUNG", aliases: &[] },
        Codepoint { codepoint: 0x118D4, name: "WARANG CITI SMALL LETTER DA", aliases: &[] },
        Codepoint { codepoint: 0x118D5, name: "WARANG CITI SMALL LETTER AT", aliases: &[] },
        Codepoint { codepoint: 0x118D6, name: "WARANG CITI SMALL LETTER AM", aliases: &[] },
        Codepoint { codepoint: 0x118D7, name: "WARANG CITI SMALL LETTER BU", aliases: &[] },
        Codepoint { codepoint: 0x118D8, name: "WARANG CITI SMALL LETTER PU", aliases: &[] },
        Codepoint { codepoint: 0x118D9, name: "WARANG CITI SMALL LETTER HIYO", aliases: &[] },
        Codepoint { codepoint: 0x118DA, name: "WARANG CITI SMALL LETTER HOLO", aliases: &[] },
        Codepoint { codepoint: 0x118DB, name: "WARANG CITI SMALL LETTER HORR", aliases: &[] },
        Codepoint { codepoint: 0x118DC, name: "WARANG CITI SMALL LETTER HAR", aliases: &[] },
        Codepoint { codepoint: 0x118DD, name: "WARANG CITI SMALL LETTER SSUU", aliases: &[] },
        Codepoint { codepoint: 0x118DE, name: "WARANG CITI SMALL LETTER SII", aliases: &[] },
        Codepoint { codepoint: 0x118DF, name: "WARANG CITI SMALL LETTER VIYO", aliases: &[] },
        Codepoint { codepoint: 0x118E0, name: "WARANG CITI DIGIT ZERO", aliases: &[] },
        Codepoint { codepoint: 0x118E1, name: "WARANG CITI DIGIT ONE", aliases: &[] },
        Codepoint { codepoint: 0x118E2, name: "WARANG CITI DIGIT TWO", aliases: &[] },
        Codepoint { codepoint: 0x118E3, name: "WARANG CITI DIGIT THREE", aliases: &[] },
        Codepoint { codepoint: 0x118E4, name: "WARANG CITI DIGIT FOUR", aliases: &[] },
        Codepoint { codepoint: 0x118E5, name: "WARANG CITI DIGIT FIVE", aliases: &[] },
        Codepoint { codepoint: 0x118E6, name: "WARANG CITI DIGIT SIX", aliases: &[] },
    ];
    assert(v@ =~= codepoint_table_521());
    v
}

pub open spec fn codepoint_table_522() -> Seq<Codepoint> {
    seq![
        Codepoint { codepoint: 0x118E7, name: "WARANG CITI DIGIT SEVEN", aliases: &[] },
        Codepoint { codepoint: 0x118E8, name: "WARANG CITI DIGIT EIGHT", aliases: &[] },
        Codepoint { codepoint: 0x118E9, name: "WARANG CITI DIGIT NINE", aliases: &[] },
        Codepoint { codepoint: 0x118EA, name: "WARANG CITI NUMBER TEN", aliases: &[] },
        Codepoint { codepoint: 0x118EB, name: "WARANG CITI NUMBER TWENTY", aliases: &[] },
        Codepoint { codepoint: 0x118EC, name: "WARANG CITI NUMBER THIRTY", aliases: &[] },
        Codepoint { codepoint: 0x118ED, name: "WARANG CITI NUMBER FORTY", aliases: &[] },
        Codepoint { codepoint: 0x118EE, name: "WARANG CITI NUMBER FIFTY", aliases: &[] },
        Codepoint { codepoint: 0x118EF, name: "WARANG CITI NUMBER SIXTY", aliases: &[] },
        Codepoint { codepoint: 0x118F0, name: "WARANG CITI NUMBER SEVENTY", aliases: &[] },
        Codepoint { codepoint: 0x118F1, name: "WARANG CITI NUMBER EIGHTY", aliases: &[] },
        Codepoint { codepoint: 0x118F2, name: "WARANG CITI NUMBER NINETY", aliases: &[] },
        Codepoint { codepoint: 0x118FF, name: "WARANG CITI OM", aliases: &[] },
        Codepoint { codepoint: 0x11900, name: "DIVES AKURU LETTER A", aliases: &[] },
        Codepoint { codepoint: 0x11901, name: "DIVES AKURU LETTER AA", aliases: &[] },
        Codepoint { codepoint: 0x11902, name: "DIVES AKURU LETTER I", aliases: &[] },
        Codepoint { codepoint: 0x11903, name: "DIVES AKURU LETTER II", aliases: &[] },
        Codepoint { codepoint: 0x11904, name: "DIVES AKURU LETTER U", aliases: &[] },
        Codepoint { codepoint: 0x11905, name: "DIVES AKURU LETTER UU", aliases: &[] },
        Codepoint { codepoint: 0x11906, name: "DIVES AKURU LETTER E", aliases: &[] },
        Codepoint { codepoint: 0x11909, name: "DIVES AKURU LETTER O", aliases: &[] },
        Codepoint { codepoint: 0x1190C, name: "DIVES AKURU LETTER KA", aliases: &[] },
        Codepoint { codepoint: 0x1190D, name: "DIVES AKURU LETTER KHA", aliases: &[] },
        Codepoint { codepoint: 0x1190E, name: "DIVES AKURU LETTER GA", aliases: &[] },
        Codepoint { codepoint: 0x1190F, name: "DIVES AKURU LETTER GHA", aliases: &[] },
        Codepoint { codepoint: 0x11910, name: "DIVES AKURU LETTER NGA", aliases: &[] },
        Codepoint { codepoint: 0x11911, name: "DIVES AKURU LETTER CA", aliases: &[] },
        Codepoint { codepoint: 0x11912, name: "DIVES AKURU LETTER CHA", aliases: &[] },
        Codepoint { codepoint: 0x11913, name: "DIVES AKURU LETTER JA", aliases: &[] },
        Codepoint { codepoint: 0x11915, name: "DIVES AKURU LETTER NYA", aliases: &[] },
        Codepoint { codepoint: 0x11916, name: "DIVES AKURU LETTER TTA", aliases: &[] },
        Codepoint { codepoint: 0x11918, name: "DIVES AKURU LETTER DDA", aliases: &[] },
        Codepoint { codepoint: 0x11919, name: "DIVES AKURU LETTER DDHA", aliases: &[] },
        Codepoint { codepoint: 0x1191A, name: "DIVES AKURU LETTER NNA", aliases: &[] },
        Codepoint { codepoint: 0x1191B, name: "DIVES AKURU LETTER TA", aliases: &[] },
        Codepoint { codepoint: 0x1191C, name: "DIVES AKURU LETTER THA", aliases: &[] },
        Codepoint { codepoint: 0x1191D, name: "DIVES AKURU LETTER DA", aliases: &[] },
        Codepoint { codepoint: 0x1191E, name: "DIVES AKURU LETTER DHA", aliases: &[] },
        Codepoint { codepoint: 0x1191F, name: "DIVES AKURU LETTER NA", aliases: &[] },
        Codepoint { codepoint: 0x11920, name: "DIVES AKURU LETTER PA", aliases: &[] },
    ]
}

fn all_codepoints_522() -> (v: Vec<Codepoint>)
    ensures
        v@ == codepoint_table_522(),
{
    let v = vec![
        Codepoint { codepoint: 0x118E7, name: "WARANG CITI DIGIT SEVEN", aliases: &[] },
        Codepoint { codepoint: 0x118E8, name: "WARANG CITI DIGIT EIGHT", aliases: &[] },
        Codepoint { codepoint: 0x118E9, name: "WARANG CITI DIGIT NINE", aliases: &[] },
        Codepoint { codepoint: 0x118EA, name: "WARANG CITI NUMBER TEN", aliases: &[] },
        Codepoint { codepoint: 0x118EB, name: "WARANG CITI NUMBER TWENTY", aliases: &[] },
        Codepoint { codepoint: 0x118EC, name: "WARANG CITI NUMBER THIRTY", aliases: &[] },
        Codepoint { codepoint: 0x118ED, name: "WARANG CITI NUMBER FORTY", aliases: &[] },
        Codepoint { codepoint: 0x118EE, name: "WARANG CITI NUMBER FIFTY", aliases: &[] },
        Codepoint { codepoint: 0x118EF, name: "WARANG CITI NUMBER SIXTY", aliases: &[] },
        Codepoint { codepoint: 0x118F0, name: "WARANG CITI NUMBER SEVENTY", aliases: &[] },
        Codepoint { codepoint: 0x118F1, name: "WARANG CITI NUMBER EIGHTY", aliases: &[] },
        Codepoint { codepoint: 0x118F2, name: "WARANG CITI NUMBER NINETY", aliases: &[] },
        Codepoint { codepoint: 0x118FF, name: "WARANG CITI OM", aliases: &[] },
        Codepoint { codepoint: 0x11900, name: "DIVES AKURU LETTER A", aliases: &[] },
        Codepoint { codepoint: 0x11901, name: "DIVES AKURU LETTER AA", aliases: &[] },
        Codepoint { codepoint: 0x11902, name: "DIVES AKURU LETTER I", aliases: &[] },
        Codepoint { codepoint: 0x11903, name: "DIVES AKURU LETTER II", aliases: &[] },
        Codepoint { codepoint: 0x11904, name: "DIVES AKURU LETTER U", aliases: &[] },
        Codepoint { codepoint: 0x11905, name: "DIVES AKURU LETTER UU", aliases: &[] },
        Codepoint { codepoint: 0x11906, name: "DIVES AKURU LETTER E", aliases: &[] },
        Codepoint { codepoint: 0x11909, name: "DIVES AKURU LETTER O", aliases: &[] },
        Codepoint { codepoint: 0x1190C, name: "DIVES AKURU LETTER KA", aliases: &[] },
        Codepoint { codepoint: 0x1190D, name: "DIVES AKURU LETTER KHA", aliases: &[] },
        Codepoint { codepoint: 0x1190E, name: "DIVES AKURU LETTER GA", aliases: &[] },
        Codepoint { codepoint: 0x1190F, name: "DIVES AKURU LETTER GHA", aliases: &[] },
        Codepoint { codepoint: 0x11910, name: "DIVES AKURU LETTER NGA", aliases: &[] },
        Codepoint { codepoint: 0x11911, name: "DIVES AKURU LETTER CA", aliases: &[] },
        Codepoint { codepoint: 0x11912, name: "DIVES AKURU LETTER CHA", aliases: &[] },
        Codepoint { codepoint: 0x11913, name: "DIVES AKURU LETTER JA", aliases: &[] },
        Codepoint { codepoint: 0x11915, name: "DIVES AKURU LETTER NYA", aliases: &[] },
        Codepoint { codepoint: 0x11916, name: "DIVES AKURU LETTER TTA", aliases: &[] },
        Codepoint { codepoint: 0x11918, name: "DIVES AKURU LETTER DDA", aliases: &[] },
        Codepoint { codepoint: 0x11919, name: "DIVES AKURU LETTER DDHA", aliases: &[] },
        Codepoint { codepoint: 0x1191A, name: "DIVES AKURU LETTER NNA", aliases: &[] },
        Codepoint { codepoint: 0x1191B, name: "DIVES AKURU LETTER TA", aliases: &[] },
        Codepoint { codepoint: 0x1191C, name: "DIVES AKURU LETTER THA", aliases: &[] },
        Codepoint { codepoint: 0x1191D, name: "DIVES AKURU LETTER DA", aliases: &[] },
        Codepoint { codepoint: 0x1191E, name: "DIVES AKURU LETTER DHA", aliases: &[] },
        Codepoint { codepoint: 0x1191F, name: "DIVES AKURU LETTER NA", aliases: &[] },
        Codepoint { codepoint: 0x11920, name: "DIVES AKURU LETTER PA", aliases: &[] },
    ];
    assert(v@ =~= codepoint_table_522());
    v
}

pub open spec fn codepoint_table_523() -> Seq<Codepoint> {
    seq![
        Codepoint { codepoint: 0x11921, name: "DIVES AKURU LETTER PHA", aliases: &[] },
        Codepoint { codepoint: 0x11922, name: "DIVES AKURU LETTER BA", aliases: &[] },
        Codepoint { codepoint: 0x11923, name: "DIVES AKURU LETTER BHA", aliases: &[] },
        Codepoint { codepoint: 0x11924, name: "DIVES AKURU LETTER MA", aliases: &[] },
        Codepoint { codepoint: 0x11925, name: "DIVES AKURU LETTER YA", aliases: &[] },
        Codepoint { codepoint: 0x11926, name: "DIVES AKURU LETTER YYA", aliases: &[] },
        Codepoint { codepoint: 0x11927, name: "DIVES AKURU LETTER RA", aliases: &[] },
        Codepoint { codepoint: 0x11928, name: "DIVES AKURU LETTER LA", aliases: &[] },
        Codepoint { codepoint: 0x11929, name: "DIVES AKURU LETTER VA", aliases: &[] },
        Codepoint { codepoint: 0x1192A, name: "DIVES AKURU LETTER SHA", aliases: &[] },
        Codepoint { codepoint: 0x1192B, name: "DIVES AKURU LETTER SSA", aliases: &[] },
        Codepoint { codepoint: 0x1192C, name: "DIVES AKURU LETTER SA", aliases: &[] },
        Codepoint { codepoint: 0x1192D, name: "DIVES AKURU LETTER HA", aliases: &[] },
        Codepoint { codepoint: 0x1192E, name: "DIVES AKURU LETTER LLA", aliases: &[] },
        Codepoint { codepoint: 0x1192F, name: "DIVES AKURU LETTER ZA", aliases: &[] },
        Codepoint { codepoint: 0x11930, name: "DIVES AKURU VOWEL SIGN AA", aliases: &[] },
        Codepoint { codepoint: 0x11931, name: "DIVES AKURU VOWEL SIGN I", aliases: &[] },
        Codepoint { codepoint: 0x11932, name: "DIVES AKURU VOWEL SIGN II", aliases: &[] },
        Codepoint { codepoint: 0x11933, name: "DIVES AKURU VOWEL SIGN U", aliases: &[] },
        Codepoint { codepoint: 0x11934, name: "DIVES AKURU VOWEL SIGN UU", aliases: &[] },
        Codepoint { codepoint: 0x11935, name: "DIVES AKURU VOWEL SIGN E", aliases: &[] },
        Codepoint { codepoint: 0x11937, name: "DIVES AKURU VOWEL SIGN AI", aliases: &[] },
        Codepoint { codepoint: 0x11938, name: "DIVES AKURU VOWEL SIGN O", aliases: &[] },
        Codepoint { codepoint: 0x1193B, name: "DIVES AKURU SIGN ANUSVARA", aliases: &[] },
        Codepoint { codepoint: 0x1193C, name: "DIVES AKURU SIGN CANDRABINDU", aliases: &[] },
        Codepoint { codepoint: 0x1193D, name: "DIVES AKURU SIGN HALANTA", aliases: &[] },
        Codepoint { codepoint: 0x1193E, name: "DIVES AKURU VIRAMA", aliases: &[] },
        Codepoint { codepoint: 0x1193F, name: "DIVES AKURU PREFIXED NASAL SIGN", aliases: &[] },
        Codepoint { codepoint: 0x11940, name: "DIVES AKURU MEDIAL YA", aliases: &[] },
        Codepoint { codepoint: 0x11941, name: "DIVES AKURU INITIAL RA", aliases: &[] },
        Codepoint { codepoint: 0x11942, name: "DIVES AKURU MEDIAL RA", aliases: &[] },
        Codepoint { codepoint: 0x11943, name: "DIVES AKURU SIGN NUKTA", aliases: &[] },
        Codepoint { codepoint: 0x11944, name: "DIVES AKURU DOUBLE DANDA", aliases: &[] },
        Codepoint { codepoint: 0x11945, name: "DIVES AKURU GAP FILLER", aliases: &[] },
        Codepoint { codepoint: 0x11946, name: "DIVES AKURU END OF TEXT MARK", aliases: &[] },
        Codepoint { codepoint: 0x11950, name: "DIVES AKURU DIGIT ZERO", aliases: &[] },
        Codepoint { codepoint: 0x11951, name: "DIVES AKURU DIGIT ONE", aliases: &[] },
        Codepoint { codepoint: 0x11952, name: "DIVES AKURU DIGIT TWO", aliases: &[] },
        Codepoint { codepoint: 0x11953, name: "DIVES AKURU DIGIT THREE", aliases: &[] },
        Codepoint { codepoint: 0x11954, name: "DIVES AKURU DIGIT FOUR", aliases: &[] },
    ]
}

fn all_codepoints_523() -> (v: Vec<Codepoint>)
    ensures
        v@ == codepoint_table_523(),
{
    let v = vec![
        Codepoint { codepoint: 0x11921, name: "DIVES AKURU LETTER PHA", aliases: &[] },
        Codepoint { codepoint: 0x11922, name: "DIVES AKURU LETTER BA", aliases: &[] },
        Codepoint { codepoint: 0x11923, name: "DIVES AKURU LETTER BHA", aliases: &[] },
        Codepoint { codepoint: 0x11924, name: "DIVES AKURU LETTER MA", aliases: &[] },
        Codepoint { codepoint: 0x11925, name: "DIVES AKURU LETTER YA", aliases: &[] },
        Codepoint { codepoint: 0x11926, name: "DIVES AKURU LETTER YYA", aliases: &[] },
        Codepoint { codepoint: 0x11927, name: "DIVES AKURU LETTER RA", aliases: &[] },
        Codepoint { codepoint: 0x11928, name: "DIVES AKURU LETTER LA", aliases: &[] },
        Codepoint { codepoint: 0x11929, name: "DIVES AKURU LETTER VA", aliases: &[] },
        Codepoint { codepoint: 0x1192A, name: "DIVES AKURU LETTER SHA", aliases: &[] },
        Codepoint { codepoint: 0x1192B, name: "DIVES AKURU LETTER SSA", aliases: &[] },
        Codepoint { codepoint: 0x1192C, name: "DIVES AKURU LETTER SA", aliases: &[] },
        Codepoint { codepoint: 0x1192D, name: "DIVES AKURU LETTER HA", aliases: &[] },
        Codepoint { codepoint: 0x1192E, name: "DIVES AKURU LETTER LLA", aliases: &[] },
        Codepoint { codepoint: 0x1192F, name: "DIVES AKURU LETTER ZA", aliases: &[] },
        Codepoint { codepoint: 0x11930, name: "DIVES AKURU VOWEL SIGN AA", aliases: &[] },
        Codepoint { codepoint: 0x11931, name: "DIVES AKURU VOWEL SIGN I", aliases: &[] },
        Codepoint { codepoint: 0x11932, name: "DIVES AKURU VOWEL SIGN II", aliases: &[] },
        Codepoint { codepoint: 0x11933, name: "DIVES AKURU VOWEL SIGN U", aliases: &[] },
        Codepoint { codepoint: 0x11934, name: "DIVES AKURU VOWEL SIGN UU", aliases: &[] },
        Codepoint { codepoint: 0x11935, name: "DIVES AKURU VOWEL SIGN E", aliases: &[] },
        Codepoint { codepoint: 0x11937, name: "DIVES AKURU VOWEL SIGN AI", aliases: &[] },
        Codepoint { codepoint: 0x11938, name: "DIVES AKURU VOWEL SIGN O", aliases: &[] },
        Codepoint { codepoint: 0x1193B, name: "DIVES AKURU SIGN ANUSVARA", aliases: &[] },
        Codepoint { codepoint: 0x1193C, name: "DIVES AKURU SIGN CANDRABINDU", aliases: &[] },
        Codepoint { codepoint: 0x1193D, name: "DIVES AKURU SIGN HALANTA", aliases: &[] },
        Codepoint { codepoint: 0x1193E, name: "DIVES AKURU VIRAMA", aliases: &[] },
        Codepoint { codepoint: 0x1193F, name: "DIVES AKURU PREFIXED NASAL SIGN", aliases: &[] },
        Codepoint { codepoint: 0x11940, name: "DIVES AKURU MEDIAL YA", aliases: &[] },
        Codepoint { codepoint: 0x11941, name: "DIVES AKURU INITIAL RA", aliases: &[] },
        Codepoint { codepoint: 0x11942, name: "DIVES AKURU MEDIAL RA", aliases: &[] },
        Codepoint { codepoint: 0x11943, name: "DIVES AKURU SIGN NUKTA", aliases: &[] },
        Codepoint { codepoint: 0x11944, name: "DIVES AKURU DOUBLE DANDA", aliases: &[] },
        Codepoint { codepoint: 0x11945, name: "DIVES AKURU GAP FILLER", aliases: &[] },
        Codepoint { codepoint: 0x11946, name: "DIVES AKURU END OF TEXT MARK", aliases: &[] },
        Codepoint { codepoint: 0x11950, name: "DIVES AKURU DIGIT ZERO", aliases: &[] },
        Codepoint { codepoint: 0x11951, name: "DIVES AKURU DIGIT ONE", aliases: &[] },
        Codepoint { codepoint: 0x11952, name: "DIVES AKURU DIGIT TWO", aliases: &[] },
        Codepoint { codepoint: 0x11953, name: "DIVES AKURU DIGIT THREE", aliases: &[] },
        Codepoint { codepoint: 0x11954, name: "DIVES AKURU DIGIT FOUR", aliases: &[] },
    ];
    assert(v@ =~= codepoint_table_523());
    v
}

pub open spec fn codepoint_table_524() -> Seq<Codepoint> {
    seq![
        Codepoint { codepoint: 0x11955, name: "DIVES AKURU DIGIT FIVE", aliases: &[] },
        Codepoint { codepoint: 0x11956, name: "DIVES AKURU DIGIT SIX", aliases: &[] },
        Codepoint { codepoint: 0x11957, name: "DIVES AKURU DIGIT SEVEN", aliases: &[] },
        Codepoint { codepoint: 0x11958, name: "DIVES AKURU DIGIT EIGHT", aliases: &[] },
        Codepoint { codepoint: 0x11959, name: "DIVES AKURU DIGIT NINE", aliases: &[] },
        Codepoint { codepoint: 0x119A0, name: "NANDINAGARI LETTER A", aliases: &[] },
        Codepoint { codepoint: 0x119A1, name: "NANDINAGARI LETTER AA", aliases: &[] },
        Codepoint { codepoint: 0x119A2, name: "NANDINAGARI LETTER I", aliases: &[] },
        Codepoint { codepoint: 0x119A3, name: "NANDINAGARI LETTER II", aliases: &[] },
        Codepoint { codepoint: 0x119A4, name: "NANDINAGARI LETTER U", aliases: &[] },
        Codepoint { codepoint: 0x119A5, name: "NANDINAGARI LETTER UU", aliases: &[] },
        Codepoint { codepoint: 0x119A6, name: "NANDINAGARI LETTER VOCALIC R", aliases: &[] },
        Codepoint { codepoint: 0x119A7, name: "NANDINAGARI LETTER VOCALIC RR", aliases: &[] },
        Codepoint { codepoint: 0x119AA, name: "NANDINAGARI LETTER E", aliases: &[] },
        Codepoint { codepoint: 0x119AB, name: "NANDINAGARI LETTER AI", aliases: &[] },
        Codepoint { codepoint: 0x119AC, name: "NANDINAGARI LETTER O", aliases: &[] },
        Codepoint { codepoint: 0x119AD, name: "NANDINAGARI LETTER AU", aliases: &[] },
        Codepoint { codepoint: 0x119AE, name: "NANDINAGARI LETTER KA", aliases: &[] },
        Codepoint { codepoint: 0x119AF, name: "NANDINAGARI LETTER KHA", aliases: &[] },
        Codepoint { codepoint: 0x119B0, name: "NANDINAGARI LETTER GA", aliases: &[] },
        Codepoint { codepoint: 0x119B1, name: "NANDINAGARI LETTER GHA", aliases: &[] },
        Codepoint { codepoint: 0x119B2, name: "NANDINAGARI LETTER NGA", aliases: &[] },
        Codepoint { codepoint: 0x119B3, name: "NANDINAGARI LETTER CA", aliases: &[] },
        Codepoint { codepoint: 0x119B4, name: "NANDINAGARI LETTER CHA", aliases: &[] },
        Codepoint { codepoint: 0x119B5, name: "NANDINAGARI LETTER JA", aliases: &[] },
        Codepoint { codepoint: 0x119B6, name: "NANDINAGARI LETTER JHA", aliases: &[] },
        Codepoint { codepoint: 0x119B7, name: "NANDINAGARI LETTER NYA", aliases: &[] },
        Codepoint { codepoint: 0x119B8, name: "NANDINAGARI LETTER TTA", aliases: &[] },
        Codepoint { codepoint: 0x119B9, name: "NANDINAGARI LETTER TTHA", aliases: &[] },
        Codepoint { codepoint: 0x119BA, name: "NANDINAGARI LETTER DDA", aliases: &[] },
        Codepoint { codepoint: 0x119BB, name: "NANDINAGARI LETTER DDHA", aliases: &[] },
        Codepoint { codepoint: 0x119BC, name: "NANDINAGARI LETTER NNA", aliases: &[] },
        Codepoint { codepoint: 0x119BD, name: "NANDINAGARI LETTER TA", aliases: &[] },
        Codepoint { codepoint: 0x119BE, name: "NANDINAGARI LETTER THA", aliases: &[] },
        Codepoint { codepoint: 0x119BF, name: "NANDINAGARI LETTER DA", aliases: &[] },
        Codepoint { codepoint: 0x119C0, name: "NANDINAGARI LETTER DHA", aliases: &[] },
        Codepoint { codepoint: 0x119C1, name: "NANDINAGARI LETTER NA", aliases: &[] },
        Codepoint { codepoint: 0x119C2, name: "NANDINAGARI LETTER PA", aliases: &[] },
        Codepoint { codepoint: 0x119C3, name: "NANDINAGARI LETTER PHA", aliases: &[] },
        Codepoint { codepoint: 0x119C4, name: "NANDINAGARI LETTER BA", aliases: &[] },
    ]
}

fn all_codepoints_524() -> (v: Vec<Codepoint>)
    ensures
        v@ == codepoint_table_524(),
{
    let v = vec![
        Codepoint { codepoint: 0x11955, name: "DIVES AKURU DIGIT FIVE", aliases: &[] },
        Codepoint { codepoint: 0x11956, name: "DIVES AKURU DIGIT SIX", aliases: &[] },
        Codepoint { codepoint: 0x11957, name: "DIVES AKURU DIGIT SEVEN", aliases: &[] },
        Codepoint { codepoint: 0x11958, name: "DIVES AKURU DIGIT EIGHT", aliases: &[] },
        Codepoint { codepoint: 0x11959, name: "DIVES AKURU DIGIT NINE", aliases: &[] },
        Codepoint { codepoint: 0x119A0, name: "NANDINAGARI LETTER A", aliases: &[] },
        Codepoint { codepoint: 0x119A1, name: "NANDINAGARI LETTER AA", aliases: &[] },
        Codepoint { codepoint: 0x119A2, name: "NANDINAGARI LETTER I", aliases: &[] },
        Codepoint { codepoint: 0x119A3, name: "NANDINAGARI LETTER II", aliases: &[] },
        Codepoint { codepoint: 0x119A4, name: "NANDINAGARI LETTER U", aliases: &[] },
        Codepoint { codepoint: 0x119A5, name: "NANDINAGARI LETTER UU", aliases: &[] },
        Codepoint { codepoint: 0x119A6, name: "NANDINAGARI LETTER VOCALIC R", aliases: &[] },
        Codepoint { codepoint: 0x119A7, name: "NANDINAGARI LETTER VOCALIC RR", aliases: &[] },
        Codepoint { codepoint: 0x119AA, name: "NANDINAGARI LETTER E", aliases: &[] },
        Codepoint { codepoint: 0x119AB, name: "NANDINAGARI LETTER AI", aliases: &[] },
        Codepoint { codepoint: 0x119AC, name: "NANDINAGARI LETTER O", aliases: &[] },
        Codepoint { codepoint: 0x119AD, name: "NANDINAGARI LETTER AU", aliases: &[] },
        Codepoint { codepoint: 0x119AE, name: "NANDINAGARI LETTER KA", aliases: &[] },
        Codepoint { codepoint: 0x119AF, name: "NANDINAGARI LETTER KHA", aliases: &[] },
        Codepoint { codepoint: 0x119B0, name: "NANDINAGARI LETTER GA", aliases: &[] },
        Codepoint { codepoint: 0x119B1, name: "NANDINAGARI LETTER GHA", aliases: &[] },
        Codepoint { codepoint: 0x119B2, name: "NANDINAGARI LETTER NGA", aliases: &[] },
        Codepoint { codepoint: 0x119B3, name: "NANDINAGARI LETTER CA", aliases: &[] },
        Codepoint { codepoint: 0x119B4, name: "NANDINAGARI LETTER CHA", aliases: &[] },
        Codepoint { codepoint: 0x119B5, name: "NANDINAGARI LETTER JA", aliases: &[] },
        Codepoint { codepoint: 0x119B6, name: "NANDINAGARI LETTER JHA", aliases: &[] },
        Codepoint { codepoint: 0x119B7, name: "NANDINAGARI LETTER NYA", aliases: &[] },
        Codepoint { codepoint: 0x119B8, name: "NANDINAGARI LETTER TTA", aliases: &[] },
        Codepoint { codepoint: 0x119B9, name: "NANDINAGARI LETTER TTHA", aliases: &[] },
        Codepoint { codepoint: 0x119BA, name: "NANDINAGARI LETTER DDA", aliases: &[] },
        Codepoint { codepoint: 0x119BB, name: "NANDINAGARI LETTER DDHA", aliases: &[] },
        Codepoint { codepoint: 0x119BC, name: "NANDINAGARI LETTER NNA", aliases: &[] },
        Codepoint { codepoint: 0x119BD, name: "NANDINAGARI LETTER TA", aliases: &[] },
        Codepoint { codepoint: 0x119BE, name: "NANDINAGARI LETTER THA", aliases: &[] },
        Codepoint { codepoint: 0x119BF, name: "NANDINAGARI LETTER DA", aliases: &[] },
        Codepoint { codepoint: 0x119C0, name: "NANDINAGARI LETTER DHA", aliases: &[] },
        Codepoint { codepoint: 0x119C1, name: "NANDINAGARI LETTER NA", aliases: &[] },
        Codepoint { codepoint: 0x119C2, name: "NANDINAGARI LETTER PA", aliases: &[] },
        Codepoint { codepoint: 0x119C3, name: "NANDINAGARI LETTER PHA", aliases: &[] },
        Codepoint { codepoint: 0x119C4, name: "NANDINAGARI LETTER BA", aliases: &[] },
    ];
    assert(v@ =~= codepoint_table_524());
    v
}

pub open spec fn codepoint_table_525() -> Seq<Codepoint> {
    seq![
        Codepoint { codepoint: 0x119C5, name: "NANDINAGARI LETTER BHA", aliases: &[] },
        Codepoint { codepoint: 0x119C6, name: "NANDINAGARI LETTER MA", aliases: &[] },
        Codepoint { codepoint: 0x119C7, name: "NANDINAGARI LETTER YA", aliases: &[] },
        Codepoint { codepoint: 0x119C8, name: "NANDINAGARI LETTER RA", aliases: &[] },
        Codepoint { codepoint: 0x119C9, name: "NANDINAGARI LETTER LA", aliases: &[] },
        Codepoint { codepoint: 0x119CA, name: "NANDINAGARI LETTER VA", aliases: &[] },
        Codepoint { codepoint: 0x119CB, name: "NANDINAGARI LETTER SHA", aliases: &[] },
        Codepoint { codepoint: 0x119CC, name: "NANDINAGARI LETTER SSA", aliases: &[] },
        Codepoint { codepoint: 0x119CD, name: "NANDINAGARI LETTER SA", aliases: &[] },
        Codepoint { codepoint: 0x119CE, name: "NANDINAGARI LETTER HA", aliases: &[] },
        Codepoint { codepoint: 0x119CF, name: "NANDINAGARI LETTER LLA", aliases: &[] },
        Codepoint { codepoint: 0x119D0, name: "NANDINAGARI LETTER RRA", aliases: &[] },
        Codepoint { codepoint: 0x119D1, name: "NANDINAGARI VOWEL SIGN AA", aliases: &[] },
        Codepoint { codepoint: 0x119D2, name: "NANDINAGARI VOWEL SIGN I", aliases: &[] },
        Codepoint { codepoint: 0x119D3, name: "NANDINAGARI VOWEL SIGN II", aliases: &[] },
        Codepoint { codepoint: 0x119D4, name: "NANDINAGARI VOWEL SIGN U", aliases: &[] },
        Codepoint { codepoint: 0x119D5, name: "NANDINAGARI VOWEL SIGN UU", aliases: &[] },
        Codepoint { codepoint: 0x119D6, name: "NANDINAGARI VOWEL SIGN VOCALIC R", aliases: &[] },
        Codepoint { codepoint: 0x119D7, name: "NANDINAGARI VOWEL SIGN VOCALIC RR", aliases: &[] },
        Codepoint { codepoint: 0x119DA, name: "NANDINAGARI VOWEL SIGN E", aliases: &[] },
        Codepoint { codepoint: 0x119DB, name: "NANDINAGARI VOWEL SIGN AI", aliases: &[] },
        Codepoint { codepoint: 0x119DC, name: "NANDINAGARI VOWEL SIGN O", aliases: &[] },
        Codepoint { codepoint: 0x119DD, name: "NANDINAGARI VOWEL SIGN AU", aliases: &[] },
        Codepoint { codepoint: 0x119DE, name: "NANDINAGARI SIGN ANUSVARA", aliases: &[] },
        Codepoint { codepoint: 0x119DF, name: "NANDINAGARI SIGN VISARGA", aliases: &[] },
        Codepoint { codepoint: 0x119E0, name: "NANDINAGARI SIGN VIRAMA", aliases: &[] },
        Codepoint { codepoint: 0x119E1, name: "NANDINAGARI SIGN AVAGRAHA", aliases: &[] },
        Codepoint { codepoint: 0x119E2, name: "NANDINAGARI SIGN SIDDHAM", aliases: &[] },
        Codepoint { codepoint: 0x119E3, name: "NANDINAGARI HEADSTROKE", aliases: &[] },
        Codepoint { codepoint: 0x119E4, name: "NANDINAGARI VOWEL SIGN PRISHTHAMATRA E", aliases: &[] },
        Codepoint { codepoint: 0x11A00, name: "ZANABAZAR SQUARE LETTER A", aliases: &[] },
        Codepoint { codepoint: 0x11A01, name: "ZANABAZAR SQUARE VOWEL SIGN I", aliases: &[] },
        Codepoint { codepoint: 0x11A02, name: "ZANABAZAR SQUARE VOWEL SIGN UE", aliases: &[] },
        Codepoint { codepoint: 0x11A03, name: "ZANABAZAR SQUARE VOWEL SIGN U", aliases: &[] },
        Codepoint { codepoint: 0x11A04, name: "ZANABAZAR SQUARE VOWEL SIGN E", aliases: &[] },
        Codepoint { codepoint: 0x11A05, name: "ZANABAZAR SQUARE VOWEL SIGN OE", aliases: &[] },
        Codepoint { codepoint: 0x11A06, name: "ZANABAZAR SQUARE VOWEL SIGN O", aliases: &[] },
        Codepoint { codepoint: 0x11A07, name: "ZANABAZAR SQUARE VOWEL SIGN AI", aliases: &[] },
        Codepoint { codepoint: 0x11A08, name: "ZANABAZAR SQUARE VOWEL SIGN AU", aliases: &[] },
        Codepoint { codepoint: 0x11A09, name: "ZANABAZAR SQUARE VOWEL SIGN REVERSED I", aliases: &[] },
    ]
}

fn all_codepoints_525() -> (v: Vec<Codepoint>)
    ensures
        v@ == codepoint_table_525(),
{
    let v = vec![
        Codepoint { codepoint: 0x119C5, name: "NANDINAGARI LETTER BHA", aliases: &[] },
        Codepoint { codepoint: 0x119C6, name: "NANDINAGARI LETTER MA", aliases: &[] },
        Codepoint { codepoint: 0x119C7, name: "NANDINAGARI LETTER YA", aliases: &[] },
        Codepoint { codepoint: 0x119C8, name: "NANDINAGARI LETTER RA", aliases: &[] },
        Codepoint { codepoint: 0x119C9, name: "NANDINAGARI LETTER LA", aliases: &[] },
        Codepoint { codepoint: 0x119CA, name: "NANDINAGARI LETTER VA", aliases: &[] },
        Codepoint { codepoint: 0x119CB, name: "NANDINAGARI LETTER SHA", aliases: &[] },
        Codepoint { codepoint: 0x119CC, name: "NANDINAGARI LETTER SSA", aliases: &[] },
        Codepoint { codepoint: 0x119CD, name: "NANDINAGARI LETTER SA", aliases: &[] },
        Codepoint { codepoint: 0x119CE, name: "NANDINAGARI LETTER HA", aliases: &[] },
        Codepoint { codepoint: 0x119CF, name: "NANDINAGARI LETTER LLA", aliases: &[] },
        Codepoint { codepoint: 0x119D0, name: "NANDINAGARI LETTER RRA", aliases: &[] },
        Codepoint { codepoint: 0x119D1, name: "NANDINAGARI VOWEL SIGN AA", aliases: &[] },
        Codepoint { codepoint: 0x119D2, name: "NANDINAGARI VOWEL SIGN I", aliases: &[] },
        Codepoint { codepoint: 0x119D3, name: "NANDINAGARI VOWEL SIGN II", aliases: &[] },
        Codepoint { codepoint: 0x119D4, name: "NANDINAGARI VOWEL SIGN U", aliases: &[] },
        Codepoint { codepoint: 0x119D5, name: "NANDINAGARI VOWEL SIGN UU", aliases: &[] },
        Codepoint { codepoint: 0x119D6, name: "NANDINAGARI VOWEL SIGN VOCALIC R", aliases: &[] },
        Codepoint { codepoint: 0x119D7, name: "NANDINAGARI VOWEL SIGN VOCALIC RR", aliases: &[] },
        Codepoint { codepoint: 0x119DA, name: "NANDINAGARI VOWEL SIGN E", aliases: &[] },
        Codepoint { codepoint: 0x119DB, name: "NANDINAGARI VOWEL SIGN AI", aliases: &[] },
        Codepoint { codepoint: 0x119DC, name: "NANDINAGARI VOWEL SIGN O", aliases: &[] },
        Codepoint { codepoint: 0x119DD, name: "NANDINAGARI VOWEL SIGN AU", aliases: &[] },
        Codepoint { codepoint: 0x119DE, name: "NANDINAGARI SIGN ANUSVARA", aliases: &[] },
        Codepoint { codepoint: 0x119DF, name: "NANDINAGARI SIGN VISARGA", aliases: &[] },
        Codepoint { codepoint: 0x119E0, name: "NANDINAGARI SIGN VIRAMA", aliases: &[] },
        Codepoint { codepoint: 0x119E1, name: "NANDINAGARI SIGN AVAGRAHA", aliases: &[] },
        Codepoint { codepoint: 0x119E2, name: "NANDINAGARI SIGN SIDDHAM", aliases: &[] },
        Codepoint { codepoint: 0x119E3, name: "NANDINAGARI HEADSTROKE", aliases: &[] },
        Codepoint { codepoint: 0x119E4, name: "NANDINAGARI VOWEL SIGN PRISHTHAMATRA E", aliases: &[] },
        Codepoint { codepoint: 0x11A00, name: "ZANABAZAR SQUARE LETTER A", aliases: &[] },
        Codepoint { codepoint: 0x11A01, name: "ZANABAZAR SQUARE VOWEL SIGN I", aliases: &[] },
        Codepoint { codepoint: 0x11A02, name: "ZANABAZAR SQUARE VOWEL SIGN UE", aliases: &[] },
        Codepoint { codepoint: 0x11A03, name: "ZANABAZAR SQUARE VOWEL SIGN U", aliases: &[] },
        Codepoint { codepoint: 0x11A04, name: "ZANABAZAR SQUARE VOWEL SIGN E", aliases: &[] },
        Codepoint { codepoint: 0x11A05, name: "ZANABAZAR SQUARE VOWEL SIGN OE", aliases: &[] },
        Codepoint { codepoint: 0x11A06, name: "ZANABAZAR SQUARE VOWEL SIGN O", aliases: &[] },
        Codepoint { codepoint: 0x11A07, name: "ZANABAZAR SQUARE VOWEL SIGN AI", aliases: &[] },
        Codepoint { codepoint: 0x11A08, name: "ZANABAZAR SQUARE VOWEL SIGN AU", aliases: &[] },
        Codepoint { codepoint: 0x11A09, name: "ZANABAZAR SQUARE VOWEL SIGN REVERSED I", aliases: &[] },
    ];
    assert(v@ =~= codepoint_table_525());
    v
}

pub open spec fn codepoint_table_526() -> Seq<Codepoint> {
    seq![
        Codepoint { codepoint: 0x11A0A, name: "ZANABAZAR SQUARE VOWEL LENGTH MARK", aliases: &[] },
        Codepoint { codepoint: 0x11A0B, name: "ZANABAZAR SQUARE LETTER KA", aliases: &[] },
        Codepoint { codepoint: 0x11A0C, name: "ZANABAZAR SQUARE LETTER KHA", aliases: &[] },
        Codepoint { codepoint: 0x11A0D, name: "ZANABAZAR SQUARE LETTER GA", aliases: &[] },
        Codepoint { codepoint: 0x11A0E, name: "ZANABAZAR SQUARE LETTER GHA", aliases: &[] },
        Codepoint { codepoint: 0x11A0F, name: "ZANABAZAR SQUARE LETTER NGA", aliases: &[] },
        Codepoint { codepoint: 0x11A10, name: "ZANABAZAR SQUARE LETTER CA", aliases: &[] },
        Codepoint { codepoint: 0x11A11, name: "ZANABAZAR SQUARE LETTER CHA", aliases: &[] },
        Codepoint { codepoint: 0x11A12, name: "ZANABAZAR SQUARE LETTER JA", aliases: &[] },
        Codepoint { codepoint: 0x11A13, name: "ZANABAZAR SQUARE LETTER NYA", aliases: &[] },
        Codepoint { codepoint: 0x11A14, name: "ZANABAZAR SQUARE LETTER TTA", aliases: &[] },
        Codepoint { codepoint: 0x11A15, name: "ZANABAZAR SQUARE LETTER TTHA", aliases: &[] },
        Codepoint { codepoint: 0x11A16, name: "ZANABAZAR SQUARE LETTER DDA", aliases: &[] },
        Codepoint { codepoint: 0x11A17, name: "ZANABAZAR SQUARE LETTER DDHA", aliases: &[] },
        Codepoint { codepoint: 0x11A18, name: "ZANABAZAR SQUARE LETTER NNA", aliases: &[] },
        Codepoint { codepoint: 0x11A19, name: "ZANABAZAR SQUARE LETTER TA", aliases: &[] },
        Codepoint { codepoint: 0x11A1A, name: "ZANABAZAR SQUARE LETTER THA", aliases: &[] },
        Codepoint { codepoint: 0x11A1B, name: "ZANABAZAR SQUARE LETTER DA", aliases: &[] },
        Codepoint { codepoint: 0x11A1C, name: "ZANABAZAR SQUARE LETTER DHA", aliases: &[] },
        Codepoint { codepoint: 0x11A1D, name: "ZANABAZAR SQUARE LETTER NA", aliases: &[] },
        Codepoint { codepoint: 0x11A1E, name: "ZANABAZAR SQUARE LETTER PA", aliases: &[] },
        Codepoint { codepoint: 0x11A1F, name: "ZANABAZAR SQUARE LETTER PHA", aliases: &[] },
        Codepoint { codepoint: 0x11A20, name: "ZANABAZAR SQUARE LETTER BA", aliases: &[] },
        Codepoint { codepoint: 0x11A21, name: "ZANABAZAR SQUARE LETTER BHA", aliases: &[] },
        Codepoint { codepoint: 0x11A22, name: "ZANABAZAR SQUARE LETTER MA", aliases: &[] },
        Codepoint { codepoint: 0x11A23, name: "ZANABAZAR SQUARE LETTER TSA", aliases: &[] },
        Codepoint { codepoint: 0x11A24, name: "ZANABAZAR SQUARE LETTER TSHA", aliases: &[] },
        Codepoint { codepoint: 0x11A25, name: "ZANABAZAR SQUARE LETTER DZA", aliases: &[] },
        Codepoint { codepoint: 0x11A26, name: "ZANABAZAR SQUARE LETTER DZHA", aliases: &[] },
        Codepoint { codepoint: 0x11A27, name: "ZANABAZAR SQUARE LETTER ZHA", aliases: &[] },
        Codepoint { codepoint: 0x11A28, name: "ZANABAZAR SQUARE LETTER ZA", aliases: &[] },
        Codepoint { codepoint: 0x11A29, name: "ZANABAZAR SQUARE LETTER -A", aliases: &[] },
        Codepoint { codepoint: 0x11A2A, name: "ZANABAZAR SQUARE LETTER YA", aliases: &[] },
        Codepoint { codepoint: 0x11A2B, name: "ZANABAZAR SQUARE LETTER RA", aliases: &[] },
        Codepoint { codepoint: 0x11A2C, name: "ZANABAZAR SQUARE LETTER LA", aliases: &[] },
        Codepoint { codepoint: 0x11A2D, name: "ZANABAZAR SQUARE LETTER VA", aliases: &[] },
        Codepoint { codepoint: 0x11A2E, name: "ZANABAZAR SQUARE LETTER SHA", aliases: &[] },
        Codepoint { codepoint: 0x11A2F, name: "ZANABAZAR SQUARE LETTER SSA", aliases: &[] },
        Codepoint { codepoint: 0x11A30, name: "ZANABAZAR SQUARE LETTER SA", aliases: &[] },
        Codepoint { codepoint: 0x11A31, name: "ZANABAZAR SQUARE LETTER HA", aliases: &[] },
    ]
}

fn all_codepoints_526() -> (v: Vec<Codepoint>)
    ensures
        v@ == codepoint_table_526(),
{
    let v = vec![
        Codepoint { codepoint: 0x11A0A, name: "ZANABAZAR SQUARE VOWEL LENGTH MARK", aliases: &[] },
        Codepoint { codepoint: 0x11A0B, name: "ZANABAZAR SQUARE LETTER KA", aliases: &[] },
        Codepoint { codepoint: 0x11A0C, name: "ZANABAZAR SQUARE LETTER KHA", aliases: &[] },
        Codepoint { codepoint: 0x11A0D, name: "ZANABAZAR SQUARE LETTER GA", aliases: &[] },
        Codepoint { codepoint: 0x11A0E, name: "ZANABAZAR SQUARE LETTER GHA", aliases: &[] },
        Codepoint { codepoint: 0x11A0F, name: "ZANABAZAR SQUARE LETTER NGA", aliases: &[] },
        Codepoint { codepoint: 0x11A10, name: "ZANABAZAR SQUARE LETTER CA", aliases: &[] },
        Codepoint { codepoint: 0x11A11, name: "ZANABAZAR SQUARE LETTER CHA", aliases: &[] },
        Codepoint { codepoint: 0x11A12, name: "ZANABAZAR SQUARE LETTER JA", aliases: &[] },
        Codepoint { codepoint: 0x11A13, name: "ZANABAZAR SQUARE LETTER NYA", aliases: &[] },
        Codepoint { codepoint: 0x11A14, name: "ZANABAZAR SQUARE LETTER TTA", aliases: &[] },
        Codepoint { codepoint: 0x11A15, name: "ZANABAZAR SQUARE LETTER TTHA", aliases: &[] },
        Codepoint { codepoint: 0x11A16, name: "ZANABAZAR SQUARE LETTER DDA", aliases: &[] },
        Codepoint { codepoint: 0x11A17, name: "ZANABAZAR SQUARE LETTER DDHA", aliases: &[] },
        Codepoint { codepoint: 0x11A18, name: "ZANABAZAR SQUARE LETTER NNA", aliases: &[] },
        Codepoint { codepoint: 0x11A19, name: "ZANABAZAR SQUARE LETTER TA", aliases: &[] },
        Codepoint { codepoint: 0x11A1A, name: "ZANABAZAR SQUARE LETTER THA", aliases: &[] },
        Codepoint { codepoint: 0x11A1B, name: "ZANABAZAR SQUARE LETTER DA", aliases: &[] },
        Codepoint { codepoint: 0x11A1C, name: "ZANABAZAR SQUARE LETTER DHA", aliases: &[] },
        Codepoint { codepoint: 0x11A1D, name: "ZANABAZAR SQUARE LETTER NA", aliases: &[] },
        Codepoint { codepoint: 0x11A1E, name: "ZANABAZAR SQUARE LETTER PA", aliases: &[] },
        Codepoint { codepoint: 0x11A1F, name: "ZANABAZAR SQUARE LETTER PHA", aliases: &[] },
        Codepoint { codepoint: 0x11A20, name: "ZANABAZAR SQUARE LETTER BA", aliases: &[] },
        Codepoint { codepoint: 0x11A21, name: "ZANABAZAR SQUARE LETTER BHA", aliases: &[] },
        Codepoint { codepoint: 0x11A22, name: "ZANABAZAR SQUARE LETTER MA", aliases: &[] },
        Codepoint { codepoint: 0x11A23, name: "ZANABAZAR SQUARE LETTER TSA", aliases: &[] },
        Codepoint { codepoint: 0x11A24, name: "ZANABAZAR SQUARE LETTER TSHA", aliases: &[] },
        Codepoint { codepoint: 0x11A25, name: "ZANABAZAR SQUARE LETTER DZA", aliases: &[] },
        Codepoint { codepoint: 0x11A26, name: "ZANABAZAR SQUARE LETTER DZHA", aliases: &[] },
        Codepoint { codepoint: 0x11A27, name: "ZANABAZAR SQUARE LETTER ZHA", aliases: &[] },
        Codepoint { codepoint: 0x11A28, name: "ZANABAZAR SQUARE LETTER ZA", aliases: &[] },
        Codepoint { codepoint: 0x11A29, name: "ZANABAZAR SQUARE LETTER -A", aliases: &[] },
        Codepoint { codepoint: 0x11A2A, name: "ZANABAZAR SQUARE LETTER YA", aliases: &[] },
        Codepoint { codepoint: 0x11A2B, name: "ZANABAZAR SQUARE LETTER RA", aliases: &[] },
        Codepoint { codepoint: 0x11A2C, name: "ZANABAZAR SQUARE LETTER LA", aliases: &[] },
        Codepoint { codepoint: 0x11A2D, name: "ZANABAZAR SQUARE LETTER VA", aliases: &[] },
        Codepoint { codepoint: 0x11A2E, name: "ZANABAZAR SQUARE LETTER SHA", aliases: &[] },
        Codepoint { codepoint: 0x11A2F, name: "ZANABAZAR SQUARE LETTER SSA", aliases: &[] },
        Codepoint { codepoint: 0x11A30, name: "ZANABAZAR SQUARE LETTER SA", aliases: &[] },
        Codepoint { codepoint: 0x11A31, name: "ZANABAZAR SQUARE LETTER HA", aliases: &[] },
    ];
    assert(v@ =~= codepoint_table_526());
    v
}

pub open spec fn codepoint_table_527() -> Seq<Codepoint> {
    seq![
        Codepoint { codepoint: 0x11A32, name: "ZANABAZAR SQUARE LETTER KSSA", aliases: &[] },
        Codepoint { codepoint: 0x11A33, name: "ZANABAZAR SQUARE FINAL CONSONANT MARK", aliases: &[] },
        Codepoint { codepoint: 0x11A34, name: "ZANABAZAR SQUARE SIGN VIRAMA", aliases: &[] },
        Codepoint { codepoint: 0x11A35, name: "ZANABAZAR SQUARE SIGN CANDRABINDU", aliases: &[] },
        Codepoint { codepoint: 0x11A36, name: "ZANABAZAR SQUARE SIGN CANDRABINDU WITH ORNAMENT", aliases: &[] },
        Codepoint { codepoint: 0x11A37, name: "ZANABAZAR SQUARE SIGN CANDRA WITH ORNAMENT", aliases: &[] },
        Codepoint { codepoint: 0x11A38, name: "ZANABAZAR SQUARE SIGN ANUSVARA", aliases: &[] },
        Codepoint { codepoint: 0x11A39, name: "ZANABAZAR SQUARE SIGN VISARGA", aliases: &[] },
        Codepoint { codepoint: 0x11A3A, name: "ZANABAZAR SQUARE CLUSTER-INITIAL LETTER RA", aliases: &[] },
        Codepoint { codepoint: 0x11A3B, name: "ZANABAZAR SQUARE CLUSTER-FINAL LETTER YA", aliases: &[] },
        Codepoint { codepoint: 0x11A3C, name: "ZANABAZAR SQUARE CLUSTER-FINAL LETTER RA", aliases: &[] },
        Codepoint { codepoint: 0x11A3D, name: "ZANABAZAR SQUARE CLUSTER-FINAL LETTER LA", aliases: &[] },
        Codepoint { codepoint: 0x11A3E, name: "ZANABAZAR SQUARE CLUSTER-FINAL LETTER VA", aliases: &[] },
        Codepoint { codepoint: 0x11A3F, name: "ZANABAZAR SQUARE INITIAL HEAD MARK", aliases: &[] },
        Codepoint { codepoint: 0x11A40, name: "ZANABAZAR SQUARE CLOSING HEAD MARK", aliases: &[] },
        Codepoint { codepoint: 0x11A41, name: "ZANABAZAR SQUARE MARK TSHEG", aliases: &[] },
        Codepoint { codepoint: 0x11A42, name: "ZANABAZAR SQUARE MARK SHAD", aliases: &[] },
        Codepoint { codepoint: 0x11A43, name: "ZANABAZAR SQUARE MARK DOUBLE SHAD", aliases: &[] },
        Codepoint { codepoint: 0x11A44, name: "ZANABAZAR SQUARE MARK LONG TSHEG", aliases: &[] },
        Codepoint { codepoint: 0x11A45, name: "ZANABAZAR SQUARE INITIAL DOUBLE-LINED HEAD MARK", aliases: &[] },
        Codepoint { codepoint: 0x11A46, name: "ZANABAZAR SQUARE CLOSING DOUBLE-LINED HEAD MARK", aliases: &[] },
        Codepoint { codepoint: 0x11A47, name: "ZANABAZAR SQUARE SUBJOINER", aliases: &[] },
        Codepoint { codepoint: 0x11A50, name: "SOYOMBO LETTER A", aliases: &[] },
        Codepoint { codepoint: 0x11A51, name: "SOYOMBO VOWEL SIGN I", aliases: &[] },
        Codepoint { codepoint: 0x11A52, name: "SOYOMBO VOWEL SIGN UE", aliases: &[] },
        Codepoint { codepoint: 0x11A53, name: "SOYOMBO VOWEL SIGN U", aliases: &[] },
        Codepoint { codepoint: 0x11A54, name: "SOYOMBO VOWEL SIGN E", aliases: &[] },
        Codepoint { codepoint: 0x11A55, name: "SOYOMBO VOWEL SIGN O", aliases: &[] },
        Codepoint { codepoint: 0x11A56, name: "SOYOMBO VOWEL SIGN OE", aliases: &[] },
        Codepoint { codepoint: 0x11A57, name: "SOYOMBO VOWEL SIGN AI", aliases: &[] },
        Codepoint { codepoint: 0x11A58, name: "SOYOMBO VOWEL SIGN AU", aliases: &[] },
        Codepoint { codepoint: 0x11A59, name: "SOYOMBO VOWEL SIGN VOCALIC R", aliases: &[] },
        Codepoint { codepoint: 0x11A5A, name: "SOYOMBO VOWEL SIGN VOCALIC L", aliases: &[] },
        Codepoint { codepoint: 0x11A5B, name: "SOYOMBO VOWEL LENGTH MARK", aliases: &[] },
        Codepoint { codepoint: 0x11A5C, name: "SOYOMBO LETTER KA", aliases: &[] },
        Codepoint { codepoint: 0x11A5D, name: "SOYOMBO LETTER KHA", aliases: &[] },
        Codepoint { codepoint: 0x11A5E, name: "SOYOMBO LETTER GA", aliases: &[] },
        Codepoint { codepoint: 0x11A5F, name: "SOYOMBO LETTER GHA", aliases: &[] },
        Codepoint { codepoint: 0x11A60, name: "SOYOMBO LETTER NGA", aliases: &[] },
        Codepoint { codepoint: 0x11A61, name: "SOYOMBO LETTER CA", aliases: &[] },
    ]
}

fn all_codepoints_527() -> (v: Vec<Codepoint>)
    ensures
        v@ == codepoint_table_527(),
{
    let v = vec![
        Codepoint { codepoint: 0x11A32, name: "ZANABAZAR SQUARE LETTER KSSA", aliases: &[] },
        Codepoint { codepoint: 0x11A33, name: "ZANABAZAR SQUARE FINAL CONSONANT MARK", aliases: &[] },
        Codepoint { codepoint: 0x11A34, name: "ZANABAZAR SQUARE SIGN VIRAMA", aliases: &[] },
        Codepoint { codepoint: 0x11A35, name: "ZANABAZAR SQUARE SIGN CANDRABINDU", aliases: &[] },
        Codepoint { codepoint: 0x11A36, name: "ZANABAZAR SQUARE SIGN CANDRABINDU WITH ORNAMENT", aliases: &[] },
        Codepoint { codepoint: 0x11A37, name: "ZANABAZAR SQUARE SIGN CANDRA WITH ORNAMENT", aliases: &[] },
        Codepoint { codepoint: 0x11A38, name: "ZANABAZAR SQUARE SIGN ANUSVARA", aliases: &[] },
        Codepoint { codepoint: 0x11A39, name: "ZANABAZAR SQUARE SIGN VISARGA", aliases: &[] },
        Codepoint { codepoint: 0x11A3A, name: "ZANABAZAR SQUARE CLUSTER-INITIAL LETTER RA", aliases: &[] },
        Codepoint { codepoint: 0x11A3B, name: "ZANABAZAR SQUARE CLUSTER-FINAL LETTER YA", aliases: &[] },
        Codepoint { codepoint: 0x11A3C, name: "ZANABAZAR SQUARE CLUSTER-FINAL LETTER RA", aliases: &[] },
        Codepoint { codepoint: 0x11A3D, name: "ZANABAZAR SQUARE CLUSTER-FINAL LETTER LA", aliases: &[] },
        Codepoint { codepoint: 0x11A3E, name: "ZANABAZAR SQUARE CLUSTER-FINAL LETTER VA", aliases: &[] },
        Codepoint { codepoint: 0x11A3F, name: "ZANABAZAR SQUARE INITIAL HEAD MARK", aliases: &[] },
        Codepoint { codepoint: 0x11A40, name: "ZANABAZAR SQUARE CLOSING HEAD MARK", aliases: &[] },
        Codepoint { codepoint: 0x11A41, name: "ZANABAZAR SQUARE MARK TSHEG", aliases: &[] },
        Codepoint { codepoint: 0x11A42, name: "ZANABAZAR SQUARE MARK SHAD", aliases: &[] },
        Codepoint { codepoint: 0x11A43, name: "ZANABAZAR SQUARE MARK DOUBLE SHAD", aliases: &[] },
        Codepoint { codepoint: 0x11A44, name: "ZANABAZAR SQUARE MARK LONG TSHEG", aliases: &[] },
        Codepoint { codepoint: 0x11A45, name: "ZANABAZAR SQUARE INITIAL DOUBLE-LINED HEAD MARK", aliases: &[] },
        Codepoint { codepoint: 0x11A46, name: "ZANABAZAR SQUARE CLOSING DOUBLE-LINED HEAD MARK", aliases: &[] },
        Codepoint { codepoint: 0x11A47, name: "ZANABAZAR SQUARE SUBJOINER", aliases: &[] },
        Codepoint { codepoint: 0x11A50, name: "SOYOMBO LETTER A", aliases: &[] },
        Codepoint { codepoint: 0x11A51, name: "SOYOMBO VOWEL SIGN I", aliases: &[] },
        Codepoint { codepoint: 0x11A52, name: "SOYOMBO VOWEL SIGN UE", aliases: &[] },
        Codepoint { codepoint: 0x11A53, name: "SOYOMBO VOWEL SIGN U", aliases: &[] },
        Codepoint { codepoint: 0x11A54, name: "SOYOMBO VOWEL SIGN E", aliases: &[] },
        Codepoint { codepoint: 0x11A55, name: "SOYOMBO VOWEL SIGN O", aliases: &[] },
        Codepoint { codepoint: 0x11A56, name: "SOYOMBO VOWEL SIGN OE", aliases: &[] },
        Codepoint { codepoint: 0x11A57, name: "SOYOMBO VOWEL SIGN AI", aliases: &[] },
        Codepoint { codepoint: 0x11A58, name: "SOYOMBO VOWEL SIGN AU", aliases: &[] },
        Codepoint { codepoint: 0x11A59, name: "SOYOMBO VOWEL SIGN VOCALIC R", aliases: &[] },
        Codepoint { codepoint: 0x11A5A, name: "SOYOMBO VOWEL SIGN VOCALIC L", aliases: &[] },
        Codepoint { codepoint: 0x11A5B, name: "SOYOMBO VOWEL LENGTH MARK", aliases: &[] },
        Codepoint { codepoint: 0x11A5C, name: "SOYOMBO LETTER KA", aliases: &[] },
        Codepoint { codepoint: 0x11A5D, name: "SOYOMBO LETTER KHA", aliases: &[] },
        Codepoint { codepoint: 0x11A5E, name: "SOYOMBO LETTER GA", aliases: &[] },
        Codepoint { codepoint: 0x11A5F, name: "SOYOMBO LETTER GHA", aliases: &[] },
        Codepoint { codepoint: 0x11A60, name: "SOYOMBO LETTER NGA", aliases: &[] },
        Codepoint { codepoint: 0x11A61, name: "SOYOMBO LETTER CA", aliases: &[] },
    ];
    assert(v@ =~= codepoint_table_527());
    v
}

pub open spec fn codepoint_table_528() -> Seq<Codepoint> {
    seq![
        Codepoint { codepoint: 0x11A62, name: "SOYOMBO LETTER CHA", aliases: &[] },
        Codepoint { codepoint: 0x11A63, name: "SOYOMBO LETTER JA", aliases: &[] },
        Codepoint { codepoint: 0x11A64, name: "SOYOMBO LETTER JHA", aliases: &[] },
        Codepoint { codepoint: 0x11A65, name: "SOYOMBO LETTER NYA", aliases: &[] },
        Codepoint { codepoint: 0x11A66, name: "SOYOMBO LETTER TTA", aliases: &[] },
        Codepoint { codepoint: 0x11A67, name: "SOYOMBO LETTER TTHA", aliases: &[] },
        Codepoint { codepoint: 0x11A68, name: "SOYOMBO LETTER DDA", aliases: &[] },
        Codepoint { codepoint: 0x11A69, name: "SOYOMBO LETTER DDHA", aliases: &[] },
        Codepoint { codepoint: 0x11A6A, name: "SOYOMBO LETTER NNA", aliases: &[] },
        Codepoint { codepoint: 0x11A6B, name: "SOYOMBO LETTER TA", aliases: &[] },
        Codepoint { codepoint: 0x11A6C, name: "SOYOMBO LETTER THA", aliases: &[] },
        Codepoint { codepoint: 0x11A6D, name: "SOYOMBO LETTER DA", aliases: &[] },
        Codepoint { codepoint: 0x11A6E, name: "SOYOMBO LETTER DHA", aliases: &[] },
        Codepoint { codepoint: 0x11A6F, name: "SOYOMBO LETTER NA", aliases: &[] },
        Codepoint { codepoint: 0x11A70, name: "SOYOMBO LETTER PA", aliases: &[] },
        Codepoint { codepoint: 0x11A71, name: "SOYOMBO LETTER PHA", aliases: &[] },
        Codepoint { codepoint: 0x11A72, name: "SOYOMBO LETTER BA", aliases: &[] },
        Codepoint { codepoint: 0x11A73, name: "SOYOMBO LETTER BHA", aliases: &[] },
        Codepoint { codepoint: 0x11A74, name: "SOYOMBO LETTER MA", aliases: &[] },
        Codepoint { codepoint: 0x11A75, name: "SOYOMBO LETTER TSA", aliases: &[] },
        Codepoint { codepoint: 0x11A76, name: "SOYOMBO LETTER TSHA", aliases: &[] },
        Codepoint { codepoint: 0x11A77, name: "SOYOMBO LETTER DZA", aliases: &[] },
        Codepoint { codepoint: 0x11A78, name: "SOYOMBO LETTER ZHA", aliases: &[] },
        Codepoint { codepoint: 0x11A79, name: "SOYOMBO LETTER ZA", aliases: &[] },
        Codepoint { codepoint: 0x11A7A, name: "SOYOMBO LETTER -A", aliases: &[] },
        Codepoint { codepoint: 0x11A7B, name: "SOYOMBO LETTER YA", aliases: &[] },
        Codepoint { codepoint: 0x11A7C, name: "SOYOMBO LETTER RA", aliases: &[] },
        Codepoint { codepoint: 0x11A7D, name: "SOYOMBO LETTER LA", aliases: &[] },
        Codepoint { codepoint: 0x11A7E, name: "SOYOMBO LETTER VA", aliases: &[] },
        Codepoint { codepoint: 0x11A7F, name: "SOYOMBO LETTER SHA", aliases: &[] },
        Codepoint { codepoint: 0x11A80, name: "SOYOMBO LETTER SSA", aliases: &[] },
        Codepoint { codepoint: 0x11A81, name: "SOYOMBO LETTER SA", aliases: &[] },
        Codepoint { codepoint: 0x11A82, name: "SOYOMBO LETTER HA", aliases: &[] },
        Codepoint { codepoint: 0x11A83, name: "SOYOMBO LETTER KSSA", aliases: &[] },
        Codepoint { codepoint: 0x11A84, name: "SOYOMBO SIGN JIHVAMULIYA", aliases: &[] },
        Codepoint { codepoint: 0x11A85, name: "SOYOMBO SIGN UPADHMANIYA", aliases: &[] },
        Codepoint { codepoint: 0x11A86, name: "SOYOMBO CLUSTER-INITIAL LETTER RA", aliases: &[] },
        Codepoint { codepoint: 0x11A87, name: "SOYOMBO CLUSTER-INITIAL LETTER LA", aliases: &[] },
        Codepoint { codepoint: 0x11A88, name: "SOYOMBO CLUSTER-INITIAL LETTER SHA", aliases: &[] },
        Codepoint { codepoint: 0x11A89, name: "SOYOMBO CLUSTER-INITIAL LETTER SA", aliases: &[] },
    ]
}

fn all_codepoints_528() -> (v: Vec<Codepoint>)
    ensures
        v@ == codepoint_table_528(),
{
    let v = vec![
        Codepoint { codepoint: 0x11A62, name: "SOYOMBO LETTER CHA", aliases: &[] },
        Codepoint { codepoint: 0x11A63, name: "SOYOMBO LETTER JA", aliases: &[] },
        Codepoint { codepoint: 0x11A64, name: "SOYOMBO LETTER JHA", aliases: &[] },
        Codepoint { codepoint: 0x11A65, name: "SOYOMBO LETTER NYA", aliases: &[] },
        Codepoint { codepoint: 0x11A66, name: "SOYOMBO LETTER TTA", aliases: &[] },
        Codepoint { codepoint: 0x11A67, name: "SOYOMBO LETTER TTHA", aliases: &[] },
        Codepoint { codepoint: 0x11A68, name: "SOYOMBO LETTER DDA", aliases: &[] },
        Codepoint { codepoint: 0x11A69, name: "SOYOMBO LETTER DDHA", aliases: &[] },
        Codepoint { codepoint: 0x11A6A, name: "SOYOMBO LETTER NNA", aliases: &[] },
        Codepoint { codepoint: 0x11A6B, name: "SOYOMBO LETTER TA", aliases: &[] },
        Codepoint { codepoint: 0x11A6C, name: "SOYOMBO LETTER THA", aliases: &[] },
        Codepoint { codepoint: 0x11A6D, name: "SOYOMBO LETTER DA", aliases: &[] },
        Codepoint { codepoint: 0x11A6E, name: "SOYOMBO LETTER DHA", aliases: &[] },
        Codepoint { codepoint: 0x11A6F, name: "SOYOMBO LETTER NA", aliases: &[] },
        Codepoint { codepoint: 0x11A70, name: "SOYOMBO LETTER PA", aliases: &[] },
        Codepoint { codepoint: 0x11A71, name: "SOYOMBO LETTER PHA", aliases: &[] },
        Codepoint { codepoint: 0x11A72, name: "SOYOMBO LETTER BA", aliases: &[] },
        Codepoint { codepoint: 0x11A73, name: "SOYOMBO LETTER BHA", aliases: &[] },
        Codepoint { codepoint: 0x11A74, name: "SOYOMBO LETTER MA", aliases: &[] },
        Codepoint { codepoint: 0x11A75, name: "SOYOMBO LETTER TSA", aliases: &[] },
        Codepoint { codepoint: 0x11A76, name: "SOYOMBO LETTER TSHA", aliases: &[] },
        Codepoint { codepoint: 0x11A77, name: "SOYOMBO LETTER DZA", aliases: &[] },
        Codepoint { codepoint: 0x11A78, name: "SOYOMBO LETTER ZHA", aliases: &[] },
        Codepoint { codepoint: 0x11A79, name: "SOYOMBO LETTER ZA", aliases: &[] },
        Codepoint { codepoint: 0x11A7A, name: "SOYOMBO LETTER -A", aliases: &[] },
        Codepoint { codepoint: 0x11A7B, name: "SOYOMBO LETTER YA", aliases: &[] },
        Codepoint { codepoint: 0x11A7C, name: "SOYOMBO LETTER RA", aliases: &[] },
        Codepoint { codepoint: 0x11A7D, name: "SOYOMBO LETTER LA", aliases: &[] },
        Codepoint { codepoint: 0x11A7E, name: "SOYOMBO LETTER VA", aliases: &[] },
        Codepoint { codepoint: 0x11A7F, name: "SOYOMBO LETTER SHA", aliases: &[] },
        Codepoint { codepoint: 0x11A80, name: "SOYOMBO LETTER SSA", aliases: &[] },
        Codepoint { codepoint: 0x11A81, name: "SOYOMBO LETTER SA", aliases: &[] },
        Codepoint { codepoint: 0x11A82, name: "SOYOMBO LETTER HA", aliases: &[] },
        Codepoint { codepoint: 0x11A83, name: "SOYOMBO LETTER KSSA", aliases: &[] },
        Codepoint { codepoint: 0x11A84, name: "SOYOMBO SIGN JIHVAMULIYA", aliases: &[] },
        Codepoint { codepoint: 0x11A85, name: "SOYOMBO SIGN UPADHMANIYA", aliases: &[] },
        Codepoint { codepoint: 0x11A86, name: "SOYOMBO CLUSTER-INITIAL LETTER RA", aliases: &[] },
        Codepoint { codepoint: 0x11A87, name: "SOYOMBO CLUSTER-INITIAL LETTER LA", aliases: &[] },
        Codepoint { codepoint: 0x11A88, name: "SOYOMBO CLUSTER-INITIAL LETTER SHA", aliases: &[] },
        Codepoint { codepoint: 0x11A89, name: "SOYOMBO CLUSTER-INITIAL LETTER SA", aliases: &[] },
    ];
    assert(v@ =~= codepoint_table_528());
    v
}

pub open spec fn codepoint_table_529() -> Seq<Codepoint> {
    seq![
        Codepoint { codepoint: 0x11A8A, name: "SOYOMBO FINAL CONSONANT SIGN G", aliases: &[] },
        Codepoint { codepoint: 0x11A8B, name: "SOYOMBO FINAL CONSONANT SIGN K", aliases: &[] },
        Codepoint { codepoint: 0x11A8C, name: "SOYOMBO FINAL CONSONANT SIGN NG", aliases: &[] },
        Codepoint { codepoint: 0x11A8D, name: "SOYOMBO FINAL CONSONANT SIGN D", aliases: &[] },
        Codepoint { codepoint: 0x11A8E, name: "SOYOMBO FINAL CONSONANT SIGN N", aliases: &[] },
        Codepoint { codepoint: 0x11A8F, name: "SOYOMBO FINAL CONSONANT SIGN B", aliases: &[] },
        Codepoint { codepoint: 0x11A90, name: "SOYOMBO FINAL CONSONANT SIGN M", aliases: &[] },
        Codepoint { codepoint: 0x11A91, name: "SOYOMBO FINAL CONSONANT SIGN R", aliases: &[] },
        Codepoint { codepoint: 0x11A92, name: "SOYOMBO FINAL CONSONANT SIGN L", aliases: &[] },
        Codepoint { codepoint: 0x11A93, name: "SOYOMBO FINAL CONSONANT SIGN SH", aliases: &[] },
        Codepoint { codepoint: 0x11A94, name: "SOYOMBO FINAL CONSONANT SIGN S", aliases: &[] },
        Codepoint { codepoint: 0x11A95, name: "SOYOMBO FINAL CONSONANT SIGN -A", aliases: &[] },
        Codepoint { codepoint: 0x11A96, name: "SOYOMBO SIGN ANUSVARA", aliases: &[] },
        Codepoint { codepoint: 0x11A97, name: "SOYOMBO SIGN VISARGA", aliases: &[] },
        Codepoint { codepoint: 0x11A98, name: "SOYOMBO GEMINATION MARK", aliases: &[] },
        Codepoint { codepoint: 0x11A99, name: "SOYOMBO SUBJOINER", aliases: &[] },
        Codepoint { codepoint: 0x11A9A, name: "SOYOMBO MARK TSHEG", aliases: &[] },
        Codepoint { codepoint: 0x11A9B, name: "SOYOMBO MARK SHAD", aliases: &[] },
        Codepoint { codepoint: 0x11A9C, name: "SOYOMBO MARK DOUBLE SHAD", aliases: &[] },
        Codepoint { codepoint: 0x11A9D, name: "SOYOMBO MARK PLUTA", aliases: &[] },
        Codepoint { codepoint: 0x11A9E, name: "SOYOMBO HEAD MARK WITH MOON AND SUN AND TRIPLE FLAME", aliases: &[] },
        Codepoint { codepoint: 0x11A9F, name: "SOYOMBO HEAD MARK WITH MOON AND SUN AND FLAME", aliases: &[] },
        Codepoint { codepoint: 0x11AA0, name: "SOYOMBO HEAD MARK WITH MOON AND SUN", aliases: &[] },
        Codepoint { codepoint: 0x11AA1, name: "SOYOMBO TERMINAL MARK-1", aliases: &[] },
        Codepoint { codepoint: 0x11AA2, name: "SOYOMBO TERMINAL MARK-2", aliases: &[] },
        Codepoint { codepoint: 0x11AB0, name: "CANADIAN SYLLABICS NATTILIK HI", aliases: &[] },
        Codepoint { codepoint: 0x11AB1, name: "CANADIAN SYLLABICS NATTILIK HII", aliases: &[] },
        Codepoint { codepoint: 0x11AB2, name: "CANADIAN SYLLABICS NATTILIK HO", aliases: &[] },
        Codepoint { codepoint: 0x11AB3, name: "CANADIAN SYLLABICS NATTILIK HOO", aliases: &[] },
        Codepoint { codepoint: 0x11AB4, name: "CANADIAN SYLLABICS NATTILIK HA", aliases: &[] },
        Codepoint { codepoint: 0x11AB5, name: "CANADIAN SYLLABICS NATTILIK HAA", aliases: &[] },
        Codepoint { codepoint: 0x11AB6, name: "CANADIAN SYLLABICS NATTILIK SHRI", aliases: &[] },
        Codepoint { codepoint: 0x11AB7, name: "CANADIAN SYLLABICS NATTILIK SHRII", aliases: &[] },
        Codepoint { codepoint: 0x11AB8, name: "CANADIAN SYLLABICS NATTILIK SHRO", aliases: &[] },
        Codepoint { codepoint: 0x11AB9, name: "CANADIAN SYLLABICS NATTILIK SHROO", aliases: &[] },
        Codepoint { codepoint: 0x11ABA, name: "CANADIAN SYLLABICS NATTILIK SHRA", aliases: &[] },
        Codepoint { codepoint: 0x11ABB, name: "CANADIAN SYLLABICS NATTILIK SHRAA", aliases: &[] },
        Codepoint { codepoint: 0x11ABC, name: "CANADIAN SYLLABICS SPE", aliases: &[] },
        Codepoint { codepoint: 0x11ABD, name: "CANADIAN SYLLABICS SPI", aliases: &[] },
        Codepoint { codepoint: 0x11ABE, name: "CANADIAN SYLLABICS SPO", aliases: &[] },
    ]
}

fn all_codepoints_529() -> (v: Vec<Codepoint>)
    ensures
        v@ == codepoint_table_529(),
{
    let v = vec![
        Codepoint { codepoint: 0x11A8A, name: "SOYOMBO FINAL CONSONANT SIGN G", aliases: &[] },
        Codepoint { codepoint: 0x11A8B, name: "SOYOMBO FINAL CONSONANT SIGN K", aliases: &[] },
        Codepoint { codepoint: 0x11A8C, name: "SOYOMBO FINAL CONSONANT SIGN NG", aliases: &[] },
        Codepoint { codepoint: 0x11A8D, name: "SOYOMBO FINAL CONSONANT SIGN D", aliases: &[] },
        Codepoint { codepoint: 0x11A8E, name: "SOYOMBO FINAL CONSONANT SIGN N", aliases: &[] },
        Codepoint { codepoint: 0x11A8F, name: "SOYOMBO FINAL CONSONANT SIGN B", aliases: &[] },
        Codepoint { codepoint: 0x11A90, name: "SOYOMBO FINAL CONSONANT SIGN M", aliases: &[] },
        Codepoint { codepoint: 0x11A91, name: "SOYOMBO FINAL CONSONANT SIGN R", aliases: &[] },
        Codepoint { codepoint: 0x11A92, name: "SOYOMBO FINAL CONSONANT SIGN L", aliases: &[] },
        Codepoint { codepoint: 0x11A93, name: "SOYOMBO FINAL CONSONANT SIGN SH", aliases: &[] },
        Codepoint { codepoint: 0x11A94, name: "SOYOMBO FINAL CONSONANT SIGN S", aliases: &[] },
        Codepoint { codepoint: 0x11A95, name: "SOYOMBO FINAL CONSONANT SIGN -A", aliases: &[] },
        Codepoint { codepoint: 0x11A96, name: "SOYOMBO SIGN ANUSVARA", aliases: &[] },
        Codepoint { codepoint: 0x11A97, name: "SOYOMBO SIGN VISARGA", aliases: &[] },
        Codepoint { codepoint: 0x11A98, name: "SOYOMBO GEMINATION MARK", aliases: &[] },
        Codepoint { codepoint: 0x11A99, name: "SOYOMBO SUBJOINER", aliases: &[] },
        Codepoint { codepoint: 0x11A9A, name: "SOYOMBO MARK TSHEG", aliases: &[] },
        Codepoint { codepoint: 0x11A9B, name: "SOYOMBO MARK SHAD", aliases: &[] },
        Codepoint { codepoint: 0x11A9C, name: "SOYOMBO MARK DOUBLE SHAD", aliases: &[] },
        Codepoint { codepoint: 0x11A9D, name: "SOYOMBO MARK PLUTA", aliases: &[] },
        Codepoint { codepoint: 0x11A9E, name: "SOYOMBO HEAD MARK WITH MOON AND SUN AND TRIPLE FLAME", aliases: &[] },
        Codepoint { codepoint: 0x11A9F, name: "SOYOMBO HEAD MARK WITH MOON AND SUN AND FLAME", aliases: &[] },
        Codepoint { codepoint: 0x11AA0, name: "SOYOMBO HEAD MARK WITH MOON AND SUN", aliases: &[] },
        Codepoint { codepoint: 0x11AA1, name: "SOYOMBO TERMINAL MARK-1", aliases: &[] },
        Codepoint { codepoint: 0x11AA2, name: "SOYOMBO TERMINAL MARK-2", aliases: &[] },
        Codepoint { codepoint: 0x11AB0, name: "CANADIAN SYLLABICS NATTILIK HI", aliases: &[] },
        Codepoint { codepoint: 0x11AB1, name: "CANADIAN SYLLABICS NATTILIK HII", aliases: &[] },
        Codepoint { codepoint: 0x11AB2, name: "CANADIAN SYLLABICS NATTILIK HO", aliases: &[] },
        Codepoint { codepoint: 0x11AB3, name: "CANADIAN SYLLABICS NATTILIK HOO", aliases: &[] },
        Codepoint { codepoint: 0x11AB4, name: "CANADIAN SYLLABICS NATTILIK HA", aliases: &[] },
        Codepoint { codepoint: 0x11AB5, name: "CANADIAN SYLLABICS NATTILIK HAA", aliases: &[] },
        Codepoint { codepoint: 0x11AB6, name: "CANADIAN SYLLABICS NATTILIK SHRI", aliases: &[] },
        Codepoint { codepoint: 0x11AB7, name: "CANADIAN SYLLABICS NATTILIK SHRII", aliases: &[] },
        Codepoint { codepoint: 0x11AB8, name: "CANADIAN SYLLABICS NATTILIK SHRO", aliases: &[] },
        Codepoint { codepoint: 0x11AB9, name: "CANADIAN SYLLABICS NATTILIK SHROO", aliases: &[] },
        Codepoint { codepoint: 0x11ABA, name: "CANADIAN SYLLABICS NATTILIK SHRA", aliases: &[] },
        Codepoint { codepoint: 0x11ABB, name: "CANADIAN SYLLABICS NATTILIK SHRAA", aliases: &[] },
        Codepoint { codepoint: 0x11ABC, name: "CANADIAN SYLLABICS SPE", aliases: &[] },
        Codepoint { codepoint: 0x11ABD, name: "CANADIAN SYLLABICS SPI", aliases: &[] },
        Codepoint { codepoint: 0x11ABE, name: "CANADIAN SYLLABICS SPO", aliases: &[] },
    ];
    assert(v@ =~= codepoint_table_529());
    v
}

pub open spec fn codepoint_table_530() -> Seq<Codepoint> {
    seq![
        Codepoint { codepoint: 0x11ABF, name: "CANADIAN SYLLABICS SPA", aliases: &[] },
        Codepoint { codepoint: 0x11AC0, name: "PAU CIN HAU LETTER PA", aliases: &[] },
        Codepoint { codepoint: 0x11AC1, name: "PAU CIN HAU LETTER KA", aliases: &[] },
        Codepoint { codepoint: 0x11AC2, name: "PAU CIN HAU LETTER LA", aliases: &[] },
        Codepoint { codepoint: 0x11AC3, name: "PAU CIN HAU LETTER MA", aliases: &[] },
        Codepoint { codepoint: 0x11AC4, name: "PAU CIN HAU LETTER DA", aliases: &[] },
        Codepoint { codepoint: 0x11AC5, name: "PAU CIN HAU LETTER ZA", aliases: &[] },
        Codepoint { codepoint: 0x11AC6, name: "PAU CIN HAU LETTER VA", aliases: &[] },
        Codepoint { codepoint: 0x11AC7, name: "PAU CIN HAU LETTER NGA", aliases: &[] },
        Codepoint { codepoint: 0x11AC8, name: "PAU CIN HAU LETTER HA", aliases: &[] },
        Codepoint { codepoint: 0x11AC9, name: "PAU CIN HAU LETTER GA", aliases: &[] },
        Codepoint { codepoint: 0x11ACA, name: "PAU CIN HAU LETTER KHA", aliases: &[] },
        Codepoint { codepoint: 0x11ACB, name: "PAU CIN HAU LETTER SA", aliases: &[] },
        Codepoint { codepoint: 0x11ACC, name: "PAU CIN HAU LETTER BA", aliases: &[] },
        Codepoint { codepoint: 0x11ACD, name: "PAU CIN HAU LETTER CA", aliases: &[] },
        Codepoint { codepoint: 0x11ACE, name: "PAU CIN HAU LETTER TA", aliases: &[] },
        Codepoint { codepoint: 0x11ACF, name: "PAU CIN HAU LETTER THA", aliases: &[] },
        Codepoint { codepoint: 0x11AD0, name: "PAU CIN HAU LETTER NA", aliases: &[] },
        Codepoint { codepoint: 0x11AD1, name: "PAU CIN HAU LETTER PHA", aliases: &[] },
        Codepoint { codepoint: 0x11AD2, name: "PAU CIN HAU LETTER RA", aliases: &[] },
        Codepoint { codepoint: 0x11AD3, name: "PAU CIN HAU LETTER FA", aliases: &[] },
        Codepoint { codepoint: 0x11AD4, name: "PAU CIN HAU LETTER CHA", aliases: &[] },
        Codepoint { codepoint: 0x11AD5, name: "PAU CIN HAU LETTER A", aliases: &[] },
        Codepoint { codepoint: 0x11AD6, name: "PAU CIN HAU LETTER E", aliases: &[] },
        Codepoint { codepoint: 0x11AD7, name: "PAU CIN HAU LETTER I", aliases: &[] },
        Codepoint { codepoint: 0x11AD8, name: "PAU CIN HAU LETTER O", aliases: &[] },
        Codepoint { codepoint: 0x11AD9, name: "PAU CIN HAU LETTER U", aliases: &[] },
        Codepoint { codepoint: 0x11ADA, name: "PAU CIN HAU LETTER UA", aliases: &[] },
        Codepoint { codepoint: 0x11ADB, name: "PAU CIN HAU LETTER IA", aliases: &[] },
        Codepoint { codepoint: 0x11ADC, name: "PAU CIN HAU LETTER FINAL P", aliases: &[] },
        Codepoint { codepoint: 0x11ADD, name: "PAU CIN HAU LETTER FINAL K", aliases: &[] },
        Codepoint { codepoint: 0x11ADE, name: "PAU CIN HAU LETTER FINAL T", aliases: &[] },
        Codepoint { codepoint: 0x11ADF, name: "PAU CIN HAU LETTER FINAL M", aliases: &[] },
        Codepoint { codepoint: 0x11AE0, name: "PAU CIN HAU LETTER FINAL N", aliases: &[] },
        Codepoint { codepoint: 0x11AE1, name: "PAU CIN HAU LETTER FINAL L", aliases: &[] },
        Codepoint { codepoint: 0x11AE2, name: "PAU CIN HAU LETTER FINAL W", aliases: &[] },
        Codepoint { codepoint: 0x11AE3, name: "PAU CIN HAU LETTER FINAL NG", aliases: &[] },
        Codepoint { codepoint: 0x11AE4, name: "PAU CIN HAU LETTER FINAL Y", aliases: &[] },
        Codepoint { codepoint: 0x11AE5, name: "PAU CIN HAU RISING TONE LONG", aliases: &[] },
        Codepoint { codepoint: 0x11AE6, name: "PAU CIN HAU RISING TONE", aliases: &[] },
    ]
}

fn all_codepoints_530() -> (v: Vec<Codepoint>)
    ensures
        v@ == codepoint_table_530(),
{
    let v = vec![
        Codepoint { codepoint: 0x11ABF, name: "CANADIAN SYLLABICS SPA", aliases: &[] },
        Codepoint { codepoint: 0x11AC0, name: "PAU CIN HAU LETTER PA", aliases: &[] },
        Codepoint { codepoint: 0x11AC1, name: "PAU CIN HAU LETTER KA", aliases: &[] },
        Codepoint { codepoint: 0x11AC2, name: "PAU CIN HAU LETTER LA", aliases: &[] },
        Codepoint { codepoint: 0x11AC3, name: "PAU CIN HAU LETTER MA", aliases: &[] },
        Codepoint { codepoint: 0x11AC4, name: "PAU CIN HAU LETTER DA", aliases: &[] },
        Codepoint { codepoint: 0x11AC5, name: "PAU CIN HAU LETTER ZA", aliases: &[] },
        Codepoint { codepoint: 0x11AC6, name: "PAU CIN HAU LETTER VA", aliases: &[] },
        Codepoint { codepoint: 0x11AC7, name: "PAU CIN HAU LETTER NGA", aliases: &[] },
        Codepoint { codepoint: 0x11AC8, name: "PAU CIN HAU LETTER HA", aliases: &[] },
        Codepoint { codepoint: 0x11AC9, name: "PAU CIN HAU LETTER GA", aliases: &[] },
        Codepoint { codepoint: 0x11ACA, name: "PAU CIN HAU LETTER KHA", aliases: &[] },
        Codepoint { codepoint: 0x11ACB, name: "PAU CIN HAU LETTER SA", aliases: &[] },
        Codepoint { codepoint: 0x11ACC, name: "PAU CIN HAU LETTER BA", aliases: &[] },
        Codepoint { codepoint: 0x11ACD, name: "PAU CIN HAU LETTER CA", aliases: &[] },
        Codepoint { codepoint: 0x11ACE, name: "PAU CIN HAU LETTER TA", aliases: &[] },
        Codepoint { codepoint: 0x11ACF, name: "PAU CIN HAU LETTER THA", aliases: &[] },
        Codepoint { codepoint: 0x11AD0, name: "PAU CIN HAU LETTER NA", aliases: &[] },
        Codepoint { codepoint: 0x11AD1, name: "PAU CIN HAU LETTER PHA", aliases: &[] },
        Codepoint { codepoint: 0x11AD2, name: "PAU CIN HAU LETTER RA", aliases: &[] },
        Codepoint { codepoint: 0x11AD3, name: "PAU CIN HAU LETTER FA", aliases: &[] },
        Codepoint { codepoint: 0x11AD4, name: "PAU CIN HAU LETTER CHA", aliases: &[] },
        Codepoint { codepoint: 0x11AD5, name: "PAU CIN HAU LETTER A", aliases: &[] },
        Codepoint { codepoint: 0x11AD6, name: "PAU CIN HAU LETTER E", aliases: &[] },
        Codepoint { codepoint: 0x11AD7, name: "PAU CIN HAU LETTER I", aliases: &[] },
        Codepoint { codepoint: 0x11AD8, name: "PAU CIN HAU LETTER O", aliases: &[] },
        Codepoint { codepoint: 0x11AD9, name: "PAU CIN HAU LETTER U", aliases: &[] },
        Codepoint { codepoint: 0x11ADA, name: "PAU CIN HAU LETTER UA", aliases: &[] },
        Codepoint { codepoint: 0x11ADB, name: "PAU CIN HAU LETTER IA", aliases: &[] },
        Codepoint { codepoint: 0x11ADC, name: "PAU CIN HAU LETTER FINAL P", aliases: &[] },
        Codepoint { codepoint: 0x11ADD, name: "PAU CIN HAU LETTER FINAL K", aliases: &[] },
        Codepoint { codepoint: 0x11ADE, name: "PAU CIN HAU LETTER FINAL T", aliases: &[] },
        Codepoint { codepoint: 0x11ADF, name: "PAU CIN HAU LETTER FINAL M", aliases: &[] },
        Codepoint { codepoint: 0x11AE0, name: "PAU CIN HAU LETTER FINAL N", aliases: &[] },
        Codepoint { codepoint: 0x11AE1, name: "PAU CIN HAU LETTER FINAL L", aliases: &[] },
        Codepoint { codepoint: 0x11AE2, name: "PAU CIN HAU LETTER FINAL W", aliases: &[] },
        Codepoint { codepoint: 0x11AE3, name: "PAU CIN HAU LETTER FINAL NG", aliases: &[] },
        Codepoint { codepoint: 0x11AE4, name: "PAU CIN HAU LETTER FINAL Y", aliases: &[] },
        Codepoint { codepoint: 0x11AE5, name: "PAU CIN HAU RISING TONE LONG", aliases: &[] },
        Codepoint { codepoint: 0x11AE6, name: "PAU CIN HAU RISING TONE", aliases: &[] },
    ];
    assert(v@ =~= codepoint_table_530());
    v
}

pub open spec fn codepoint_table_531() -> Seq<Codepoint> {
    seq![
        Codepoint { codepoint: 0x11AE7, name: "PAU CIN HAU SANDHI GLOTTAL STOP", aliases: &[] },
        Codepoint { codepoint: 0x11AE8, name: "PAU CIN HAU RISING TONE LONG FINAL", aliases: &[] },
        Codepoint { codepoint: 0x11AE9, name: "PAU CIN HAU RISING TONE FINAL", aliases: &[] },
        Codepoint { codepoint: 0x11AEA, name: "PAU CIN HAU SANDHI GLOTTAL STOP FINAL", aliases: &[] },
        Codepoint { codepoint: 0x11AEB, name: "PAU CIN HAU SANDHI TONE LONG", aliases: &[] },
        Codepoint { codepoint: 0x11AEC, name: "PAU CIN HAU SANDHI TONE", aliases: &[] },
        Codepoint { codepoint: 0x11AED, name: "PAU CIN HAU SANDHI TONE LONG FINAL", aliases: &[] },
        Codepoint { codepoint: 0x11AEE, name: "PAU CIN HAU SANDHI TONE FINAL", aliases: &[] },
        Codepoint { codepoint: 0x11AEF, name: "PAU CIN HAU MID-LEVEL TONE", aliases: &[] },
        Codepoint { codepoint: 0x11AF0, name: "PAU CIN HAU GLOTTAL STOP VARIANT", aliases: &[] },
        Codepoint { codepoint: 0x11AF1, name: "PAU CIN HAU MID-LEVEL TONE LONG FINAL", aliases: &[] },
        Codepoint { codepoint: 0x11AF2, name: "PAU CIN HAU MID-LEVEL TONE FINAL", aliases: &[] },
        Codepoint { codepoint: 0x11AF3, name: "PAU CIN HAU LOW-FALLING TONE LONG", aliases: &[] },
        Codepoint { codepoint: 0x11AF4, name: "PAU CIN HAU LOW-FALLING TONE", aliases: &[] },
        Codepoint { codepoint: 0x11AF5, name: "PAU CIN HAU GLOTTAL STOP", aliases: &[] },
        Codepoint { codepoint: 0x11AF6, name: "PAU CIN HAU LOW-FALLING TONE LONG FINAL", aliases: &[] },
        Codepoint { codepoint: 0x11AF7, name: "PAU CIN HAU LOW-FALLING TONE FINAL", aliases: &[] },
        Codepoint { codepoint: 0x11AF8, name: "PAU CIN HAU GLOTTAL STOP FINAL", aliases: &[] },
        Codepoint { codepoint: 0x11C00, name: "BHAIKSUKI LETTER A", aliases: &[] },
        Codepoint { codepoint: 0x11C01, name: "BHAIKSUKI LETTER AA", aliases: &[] },
        Codepoint { codepoint: 0x11C02, name: "BHAIKSUKI LETTER I", aliases: &[] },
        Codepoint { codepoint: 0x11C03, name: "BHAIKSUKI LETTER II", aliases: &[] },
        Codepoint { codepoint: 0x11C04, name: "BHAIKSUKI LETTER U", aliases: &[] },
        Codepoint { codepoint: 0x11C05, name: "BHAIKSUKI LETTER UU", aliases: &[] },
        Codepoint { codepoint: 0x11C06, name: "BHAIKSUKI LETTER VOCALIC R", aliases: &[] },
        Codepoint { codepoint: 0x11C07, name: "BHAIKSUKI LETTER VOCALIC RR", aliases: &[] },
        Codepoint { codepoint: 0x11C08, name: "BHAIKSUKI LETTER VOCALIC L", aliases: &[] },
        Codepoint { codepoint: 0x11C0A, name: "BHAIKSUKI LETTER E", aliases: &[] },
        Codepoint { codepoint: 0x11C0B, name: "BHAIKSUKI LETTER AI", aliases: &[] },
        Codepoint { codepoint: 0x11C0C, name: "BHAIKSUKI LETTER O", aliases: &[] },
        Codepoint { codepoint: 0x11C0D, name: "BHAIKSUKI LETTER AU", aliases: &[] },
        Codepoint { codepoint: 0x11C0E, name: "BHAIKSUKI LETTER KA", aliases: &[] },
        Codepoint { codepoint: 0x11C0F, name: "BHAIKSUKI LETTER KHA", aliases: &[] },
        Codepoint { codepoint: 0x11C10, name: "BHAIKSUKI LETTER GA", aliases: &[] },
        Codepoint { codepoint: 0x11C11, name: "BHAIKSUKI LETTER GHA", aliases: &[] },
        Codepoint { codepoint: 0x11C12, name: "BHAIKSUKI LETTER NGA", aliases: &[] },
        Codepoint { codepoint: 0x11C13, name: "BHAIKSUKI LETTER CA", aliases: &[] },
        Codepoint { codepoint: 0x11C14, name: "BHAIKSUKI LETTER CHA", aliases: &[] },
        Codepoint { codepoint: 0x11C15, name: "BHAIKSUKI LETTER JA", aliases: &[] },
        Codepoint { codepoint: 0x11C16, name: "BHAIKSUKI LETTER JHA", aliases: &[] },
    ]
}

fn all_codepoints_531() -> (v: Vec<Codepoint>)
    ensures
        v@ == codepoint_table_531(),
{
    let v = vec![
        Codepoint { codepoint: 0x11AE7, name: "PAU CIN HAU SANDHI GLOTTAL STOP", aliases: &[] },
        Codepoint { codepoint: 0x11AE8, name: "PAU CIN HAU RISING TONE LONG FINAL", aliases: &[] },
        Codepoint { codepoint: 0x11AE9, name: "PAU CIN HAU RISING TONE FINAL", aliases: &[] },
        Codepoint { codepoint: 0x11AEA, name: "PAU CIN HAU SANDHI GLOTTAL STOP FINAL", aliases: &[] },
        Codepoint { codepoint: 0x11AEB, name: "PAU CIN HAU SANDHI TONE LONG", aliases: &[] },
        Codepoint { codepoint: 0x11AEC, name: "PAU CIN HAU SANDHI TONE", aliases: &[] },
        Codepoint { codepoint: 0x11AED, name: "PAU CIN HAU SANDHI TONE LONG FINAL", aliases: &[] },
        Codepoint { codepoint: 0x11AEE, name: "PAU CIN HAU SANDHI TONE FINAL", aliases: &[] },
        Codepoint { codepoint: 0x11AEF, name: "PAU CIN HAU MID-LEVEL TONE", aliases: &[] },
        Codepoint { codepoint: 0x11AF0, name: "PAU CIN HAU GLOTTAL STOP VARIANT", aliases: &[] },
        Codepoint { codepoint: 0x11AF1, name: "PAU CIN HAU MID-LEVEL TONE LONG FINAL", aliases: &[] },
        Codepoint { codepoint: 0x11AF2, name: "PAU CIN HAU MID-LEVEL TONE FINAL", aliases: &[] },
        Codepoint { codepoint: 0x11AF3, name: "PAU CIN HAU LOW-FALLING TONE LONG", aliases: &[] },
        Codepoint { codepoint: 0x11AF4, name: "PAU CIN HAU LOW-FALLING TONE", aliases: &[] },
        Codepoint { codepoint: 0x11AF5, name: "PAU CIN HAU GLOTTAL STOP", aliases: &[] },
        Codepoint { codepoint: 0x11AF6, name: "PAU CIN HAU LOW-FALLING TONE LONG FINAL", aliases: &[] },
        Codepoint { codepoint: 0x11AF7, name: "PAU CIN HAU LOW-FALLING TONE FINAL", aliases: &[] },
        Codepoint { codepoint: 0x11AF8, name: "PAU CIN HAU GLOTTAL STOP FINAL", aliases: &[] },
        Codepoint { codepoint: 0x11C00, name: "BHAIKSUKI LETTER A", aliases: &[] },
        Codepoint { codepoint: 0x11C01, name: "BHAIKSUKI LETTER AA", aliases: &[] },
        Codepoint { codepoint: 0x11C02, name: "BHAIKSUKI LETTER I", aliases: &[] },
        Codepoint { codepoint: 0x11C03, name: "BHAIKSUKI LETTER II", aliases: &[] },
        Codepoint { codepoint: 0x11C04, name: "BHAIKSUKI LETTER U", aliases: &[] },
        Codepoint { codepoint: 0x11C05, name: "BHAIKSUKI LETTER UU", aliases: &[] },
        Codepoint { codepoint: 0x11C06, name: "BHAIKSUKI LETTER VOCALIC R", aliases: &[] },
        Codepoint { codepoint: 0x11C07, name: "BHAIKSUKI LETTER VOCALIC RR", aliases: &[] },
        Codepoint { codepoint: 0x11C08, name: "BHAIKSUKI LETTER VOCALIC L", aliases: &[] },
        Codepoint { codepoint: 0x11C0A, name: "BHAIKSUKI LETTER E", aliases: &[] },
        Codepoint { codepoint: 0x11C0B, name: "BHAIKSUKI LETTER AI", aliases: &[] },
        Codepoint { codepoint: 0x11C0C, name: "BHAIKSUKI LETTER O", aliases: &[] },
        Codepoint { codepoint: 0x11C0D, name: "BHAIKSUKI LETTER AU", aliases: &[] },
        Codepoint { codepoint: 0x11C0E, name: "BHAIKSUKI LETTER KA", aliases: &[] },
        Codepoint { codepoint: 0x11C0F, name: "BHAIKSUKI LETTER KHA", aliases: &[] },
        Codepoint { codepoint: 0x11C10, name: "BHAIKSUKI LETTER GA", aliases: &[] },
        Codepoint { codepoint: 0x11C11, name: "BHAIKSUKI LETTER GHA", aliases: &[] },
        Codepoint { codepoint: 0x11C12, name: "BHAIKSUKI LETTER NGA", aliases: &[] },
        Codepoint { codepoint: 0x11C13, name: "BHAIKSUKI LETTER CA", aliases: &[] },
        Codepoint { codepoint: 0x11C14, name: "BHAIKSUKI LETTER CHA", aliases: &[] },
        Codepoint { codepoint: 0x11C15, name: "BHAIKSUKI LETTER JA", aliases: &[] },
        Codepoint { codepoint: 0x11C16, name: "BHAIKSUKI LETTER JHA", aliases: &[] },
    ];
    assert(v@ =~= codepoint_table_531());
    v
}

pub open spec fn codepoint_table_532() -> Seq<Codepoint> {
    seq![
        Codepoint { codepoint: 0x11C17, name: "BHAIKSUKI LETTER NYA", aliases: &[] },
        Codepoint { codepoint: 0x11C18, name: "BHAIKSUKI LETTER TTA", aliases: &[] },
        Codepoint { codepoint: 0x11C19, name: "BHAIKSUKI LETTER TTHA", aliases: &[] },
        Codepoint { codepoint: 0x11C1A, name: "BHAIKSUKI LETTER DDA", aliases: &[] },
        Codepoint { codepoint: 0x11C1B, name: "BHAIKSUKI LETTER DDHA", aliases: &[] },
        Codepoint { codepoint: 0x11C1C, name: "BHAIKSUKI LETTER NNA", aliases: &[] },
        Codepoint { codepoint: 0x11C1D, name: "BHAIKSUKI LETTER TA", aliases: &[] },
        Codepoint { codepoint: 0x11C1E, name: "BHAIKSUKI LETTER THA", aliases: &[] },
        Codepoint { codepoint: 0x11C1F, name: "BHAIKSUKI LETTER DA", aliases: &[] },
        Codepoint { codepoint: 0x11C20, name: "BHAIKSUKI LETTER DHA", aliases: &[] },
        Codepoint { codepoint: 0x11C21, name: "BHAIKSUKI LETTER NA", aliases: &[] },
        Codepoint { codepoint: 0x11C22, name: "BHAIKSUKI LETTER PA", aliases: &[] },
        Codepoint { codepoint: 0x11C23, name: "BHAIKSUKI LETTER PHA", aliases: &[] },
        Codepoint { codepoint: 0x11C24, name: "BHAIKSUKI LETTER BA", aliases: &[] },
        Codepoint { codepoint: 0x11C25, name: "BHAIKSUKI LETTER BHA", aliases: &[] },
        Codepoint { codepoint: 0x11C26, name: "BHAIKSUKI LETTER MA", aliases: &[] },
        Codepoint { codepoint: 0x11C27, name: "BHAIKSUKI LETTER YA", aliases: &[] },
        Codepoint { codepoint: 0x11C28, name: "BHAIKSUKI LETTER RA", aliases: &[] },
        Codepoint { codepoint: 0x11C29, name: "BHAIKSUKI LETTER LA", aliases: &[] },
        Codepoint { codepoint: 0x11C2A, name: "BHAIKSUKI LETTER VA", aliases: &[] },
        Codepoint { codepoint: 0x11C2B, name: "BHAIKSUKI LETTER SHA", aliases: &[] },
        Codepoint { codepoint: 0x11C2C, name: "BHAIKSUKI LETTER SSA", aliases: &[] },
        Codepoint { codepoint: 0x11C2D, name: "BHAIKSUKI LETTER SA", aliases: &[] },
        Codepoint { codepoint: 0x11C2E, name: "BHAIKSUKI LETTER HA", aliases: &[] },
        Codepoint { codepoint: 0x11C2F, name: "BHAIKSUKI VOWEL SIGN AA", aliases: &[] },
        Codepoint { codepoint: 0x11C30, name: "BHAIKSUKI VOWEL SIGN I", aliases: &[] },
        Codepoint { codepoint: 0x11C31, name: "BHAIKSUKI VOWEL SIGN II", aliases: &[] },
        Codepoint { codepoint: 0x11C32, name: "BHAIKSUKI VOWEL SIGN U", aliases: &[] },
        Codepoint { codepoint: 0x11C33, name: "BHAIKSUKI VOWEL SIGN UU", aliases: &[] },
        Codepoint { codepoint: 0x11C34, name: "BHAIKSUKI VOWEL SIGN VOCALIC R", aliases: &[] },
        Codepoint { codepoint: 0x11C35, name: "BHAIKSUKI VOWEL SIGN VOCALIC RR", aliases: &[] },
        Codepoint { codepoint: 0x11C36, name: "BHAIKSUKI VOWEL SIGN VOCALIC L", aliases: &[] },
        Codepoint { codepoint: 0x11C38, name: "BHAIKSUKI VOWEL SIGN E", aliases: &[] },
        Codepoint { codepoint: 0x11C39, name: "BHAIKSUKI VOWEL SIGN AI", aliases: &[] },
        Codepoint { codepoint: 0x11C3A, name: "BHAIKSUKI VOWEL SIGN O", aliases: &[] },
        Codepoint { codepoint: 0x11C3B, name: "BHAIKSUKI VOWEL SIGN AU", aliases: &[] },
        Codepoint { codepoint: 0x11C3C, name: "BHAIKSUKI SIGN CANDRABINDU", aliases: &[] },
        Codepoint { codepoint: 0x11C3D, name: "BHAIKSUKI SIGN ANUSVARA", aliases: &[] },
        Codepoint { codepoint: 0x11C3E, name: "BHAIKSUKI SIGN VISARGA", aliases: &[] },
        Codepoint { codepoint: 0x11C3F, name: "BHAIKSUKI SIGN VIRAMA", aliases: &[] },
    ]
}

fn all_codepoints_532() -> (v: Vec<Codepoint>)
    ensures
        v@ == codepoint_table_532(),
{
    let v = vec![
        Codepoint { codepoint: 0x11C17, name: "BHAIKSUKI LETTER NYA", aliases: &[] },
        Codepoint { codepoint: 0x11C18, name: "BHAIKSUKI LETTER TTA", aliases: &[] },
        Codepoint { codepoint: 0x11C19, name: "BHAIKSUKI LETTER TTHA", aliases: &[] },
        Codepoint { codepoint: 0x11C1A, name: "BHAIKSUKI LETTER DDA", aliases: &[] },
        Codepoint { codepoint: 0x11C1B, name: "BHAIKSUKI LETTER DDHA", aliases: &[] },
        Codepoint { codepoint: 0x11C1C, name: "BHAIKSUKI LETTER NNA", aliases: &[] },
        Codepoint { codepoint: 0x11C1D, name: "BHAIKSUKI LETTER TA", aliases: &[] },
        Codepoint { codepoint: 0x11C1E, name: "BHAIKSUKI LETTER THA", aliases: &[] },
        Codepoint { codepoint: 0x11C1F, name: "BHAIKSUKI LETTER DA", aliases: &[] },
        Codepoint { codepoint: 0x11C20, name: "BHAIKSUKI LETTER DHA", aliases: &[] },
        Codepoint { codepoint: 0x11C21, name: "BHAIKSUKI LETTER NA", aliases: &[] },
        Codepoint { codepoint: 0x11C22, name: "BHAIKSUKI LETTER PA", aliases: &[] },
        Codepoint { codepoint: 0x11C23, name: "BHAIKSUKI LETTER PHA", aliases: &[] },
        Codepoint { codepoint: 0x11C24, name: "BHAIKSUKI LETTER BA", aliases: &[] },
        Codepoint { codepoint: 0x11C25, name: "BHAIKSUKI LETTER BHA", aliases: &[] },
        Codepoint { codepoint: 0x11C26, name: "BHAIKSUKI LETTER MA", aliases: &[] },
        Codepoint { codepoint: 0x11C27, name: "BHAIKSUKI LETTER YA", aliases: &[] },
        Codepoint { codepoint: 0x11C28, name: "BHAIKSUKI LETTER RA", aliases: &[] },
        Codepoint { codepoint: 0x11C29, name: "BHAIKSUKI LETTER LA", aliases: &[] },
        Codepoint { codepoint: 0x11C2A, name: "BHAIKSUKI LETTER VA", aliases: &[] },
        Codepoint { codepoint: 0x11C2B, name: "BHAIKSUKI LETTER SHA", aliases: &[] },
        Codepoint { codepoint: 0x11C2C, name: "BHAIKSUKI LETTER SSA", aliases: &[] },
        Codepoint { codepoint: 0x11C2D, name: "BHAIKSUKI LETTER SA", aliases: &[] },
        Codepoint { codepoint: 0x11C2E, name: "BHAIKSUKI LETTER HA", aliases: &[] },
        Codepoint { codepoint: 0x11C2F, name: "BHAIKSUKI VOWEL SIGN AA", aliases: &[] },
        Codepoint { codepoint: 0x11C30, name: "BHAIKSUKI VOWEL SIGN I", aliases: &[] },
        Codepoint { codepoint: 0x11C31, name: "BHAIKSUKI VOWEL SIGN II", aliases: &[] },
        Codepoint { codepoint: 0x11C32, name: "BHAIKSUKI VOWEL SIGN U", aliases: &[] },
        Codepoint { codepoint: 0x11C33, name: "BHAIKSUKI VOWEL SIGN UU", aliases: &[] },
        Codepoint { codepoint: 0x11C34, name: "BHAIKSUKI VOWEL SIGN VOCALIC R", aliases: &[] },
        Codepoint { codepoint: 0x11C35, name: "BHAIKSUKI VOWEL SIGN VOCALIC RR", aliases: &[] },
        Codepoint { codepoint: 0x11C36, name: "BHAIKSUKI VOWEL SIGN VOCALIC L", aliases: &[] },
        Codepoint { codepoint: 0x11C38, name: "BHAIKSUKI VOWEL SIGN E", aliases: &[] },
        Codepoint { codepoint: 0x11C39, name: "BHAIKSUKI VOWEL SIGN AI", aliases: &[] },
        Codepoint { codepoint: 0x11C3A, name: "BHAIKSUKI VOWEL SIGN O", aliases: &[] },
        Codepoint { codepoint: 0x11C3B, name: "BHAIKSUKI VOWEL SIGN AU", aliases: &[] },
        Codepoint { codepoint: 0x11C3C, name: "BHAIKSUKI SIGN CANDRABINDU", aliases: &[] },
        Codepoint { codepoint: 0x11C3D, name: "BHAIKSUKI SIGN ANUSVARA", aliases: &[] },
        Codepoint { codepoint: 0x11C3E, name: "BHAIKSUKI SIGN VISARGA", aliases: &[] },
        Codepoint { codepoint: 0x11C3F, name: "BHAIKSUKI SIGN VIRAMA", aliases: &[] },
    ];
    assert(v@ =~= codepoint_table_532());
    v
}

pub open spec fn codepoint_table_533() -> Seq<Codepoint> {
    seq![
        Codepoint { codepoint: 0x11C40, name: "BHAIKSUKI SIGN AVAGRAHA", aliases: &[] },
        Codepoint { codepoint: 0x11C41, name: "BHAIKSUKI DANDA", aliases: &[] },
        Codepoint { codepoint: 0x11C42, name: "BHAIKSUKI DOUBLE DANDA", aliases: &[] },
        Codepoint { codepoint: 0x11C43, name: "BHAIKSUKI WORD SEPARATOR", aliases: &[] },
        Codepoint { codepoint: 0x11C44, name: "BHAIKSUKI GAP FILLER-1", aliases: &[] },
        Codepoint { codepoint: 0x11C45, name: "BHAIKSUKI GAP FILLER-2", aliases: &[] },
        Codepoint { codepoint: 0x11C50, name: "BHAIKSUKI DIGIT ZERO", aliases: &[] },
        Codepoint { codepoint: 0x11C51, name: "BHAIKSUKI DIGIT ONE", aliases: &[] },
        Codepoint { codepoint: 0x11C52, name: "BHAIKSUKI DIGIT TWO", aliases: &[] },
        Codepoint { codepoint: 0x11C53, name: "BHAIKSUKI DIGIT THREE", aliases: &[] },
        Codepoint { codepoint: 0x11C54, name: "BHAIKSUKI DIGIT FOUR", aliases: &[] },
        Codepoint { codepoint: 0x11C55, name: "BHAIKSUKI DIGIT FIVE", aliases: &[] },
        Codepoint { codepoint: 0x11C56, name: "BHAIKSUKI DIGIT SIX", aliases: &[] },
        Codepoint { codepoint: 0x11C57, name: "BHAIKSUKI DIGIT SEVEN", aliases: &[] },
        Codepoint { codepoint: 0x11C58, name: "BHAIKSUKI DIGIT EIGHT", aliases: &[] },
        Codepoint { codepoint: 0x11C59, name: "BHAIKSUKI DIGIT NINE", aliases: &[] },
        Codepoint { codepoint: 0x11C5A, name: "BHAIKSUKI NUMBER ONE", aliases: &[] },
        Codepoint { codepoint: 0x11C5B, name: "BHAIKSUKI NUMBER TWO", aliases: &[] },
        Codepoint { codepoint: 0x11C5C, name: "BHAIKSUKI NUMBER THREE", aliases: &[] },
        Codepoint { codepoint: 0x11C5D, name: "BHAIKSUKI NUMBER FOUR", aliases: &[] },
        Codepoint { codepoint: 0x11C5E, name: "BHAIKSUKI NUMBER FIVE", aliases: &[] },
        Codepoint { codepoint: 0x11C5F, name: "BHAIKSUKI NUMBER SIX", aliases: &[] },
        Codepoint { codepoint: 0x11C60, name: "BHAIKSUKI NUMBER SEVEN", aliases: &[] },
        Codepoint { codepoint: 0x11C61, name: "BHAIKSUKI NUMBER EIGHT", aliases: &[] },
        Codepoint { codepoint: 0x11C62, name: "BHAIKSUKI NUMBER NINE", aliases: &[] },
        Codepoint { codepoint: 0x11C63, name: "BHAIKSUKI NUMBER TEN", aliases: &[] },
        Codepoint { codepoint: 0x11C64, name: "BHAIKSUKI NUMBER TWENTY", aliases: &[] },
        Codepoint { codepoint: 0x11C65, name: "BHAIKSUKI NUMBER THIRTY", aliases: &[] },
        Codepoint { codepoint: 0x11C66, name: "BHAIKSUKI NUMBER FORTY", aliases: &[] },
        Codepoint { codepoint: 0x11C67, name: "BHAIKSUKI NUMBER FIFTY", aliases: &[] },
        Codepoint { codepoint: 0x11C68, name: "BHAIKSUKI NUMBER SIXTY", aliases: &[] },
        Codepoint { codepoint: 0x11C69, name: "BHAIKSUKI NUMBER SEVENTY", aliases: &[] },
        Codepoint { codepoint: 0x11C6A, name: "BHAIKSUKI NUMBER EIGHTY", aliases: &[] },
        Codepoint { codepoint: 0x11C6B, name: "BHAIKSUKI NUMBER NINETY", aliases: &[] },
        Codepoint { codepoint: 0x11C6C, name: "BHAIKSUKI HUNDREDS UNIT MARK", aliases: &[] },
        Codepoint { codepoint: 0x11C70, name: "MARCHEN HEAD MARK", aliases: &[] },
        Codepoint { codepoint: 0x11C71, name: "MARCHEN MARK SHAD", aliases: &[] },
        Codepoint { codepoint: 0x11C72, name: "MARCHEN LETTER KA", aliases: &[] },
        Codepoint { codepoint: 0x11C73, name: "MARCHEN LETTER KHA", aliases: &[] },
        Codepoint { codepoint: 0x11C74, name: "MARCHEN LETTER GA", aliases: &[] },
    ]
}

fn all_codepoints_533() -> (v: Vec<Codepoint>)
    ensures
        v@ == codepoint_table_533(),
{
    let v = vec![
        Codepoint { codepoint: 0x11C40, name: "BHAIKSUKI SIGN AVAGRAHA", aliases: &[] },
        Codepoint { codepoint: 0x11C41, name: "BHAIKSUKI DANDA", aliases: &[] },
        Codepoint { codepoint: 0x11C42, name: "BHAIKSUKI DOUBLE DANDA", aliases: &[] },
        Codepoint { codepoint: 0x11C43, name: "BHAIKSUKI WORD SEPARATOR", aliases: &[] },
        Codepoint { codepoint: 0x11C44, name: "BHAIKSUKI GAP FILLER-1", aliases: &[] },
        Codepoint { codepoint: 0x11C45, name: "BHAIKSUKI GAP FILLER-2", aliases: &[] },
        Codepoint { codepoint: 0x11C50, name: "BHAIKSUKI DIGIT ZERO", aliases: &[] },
        Codepoint { codepoint: 0x11C51, name: "BHAIKSUKI DIGIT ONE", aliases: &[] },
        Codepoint { codepoint: 0x11C52, name: "BHAIKSUKI DIGIT TWO", aliases: &[] },
        Codepoint { codepoint: 0x11C53, name: "BHAIKSUKI DIGIT THREE", aliases: &[] },
        Codepoint { codepoint: 0x11C54, name: "BHAIKSUKI DIGIT FOUR", aliases: &[] },
        Codepoint { codepoint: 0x11C55, name: "BHAIKSUKI DIGIT FIVE", aliases: &[] },
        Codepoint { codepoint: 0x11C56, name: "BHAIKSUKI DIGIT SIX", aliases: &[] },
        Codepoint { codepoint: 0x11C57, name: "BHAIKSUKI DIGIT SEVEN", aliases: &[] },
        Codepoint { codepoint: 0x11C58, name: "BHAIKSUKI DIGIT EIGHT", aliases: &[] },
        Codepoint { codepoint: 0x11C59, name: "BHAIKSUKI DIGIT NINE", aliases: &[] },
        Codepoint { codepoint: 0x11C5A, name: "BHAIKSUKI NUMBER ONE", aliases: &[] },
        Codepoint { codepoint: 0x11C5B, name: "BHAIKSUKI NUMBER TWO", aliases: &[] },
        Codepoint { codepoint: 0x11C5C, name: "BHAIKSUKI NUMBER THREE", aliases: &[] },
        Codepoint { codepoint: 0x11C5D, name: "BHAIKSUKI NUMBER FOUR", aliases: &[] },
        Codepoint { codepoint: 0x11C5E, name: "BHAIKSUKI NUMBER FIVE", aliases: &[] },
        Codepoint { codepoint: 0x11C5F, name: "BHAIKSUKI NUMBER SIX", aliases: &[] },
        Codepoint { codepoint: 0x11C60, name: "BHAIKSUKI NUMBER SEVEN", aliases: &[] },
        Codepoint { codepoint: 0x11C61, name: "BHAIKSUKI NUMBER EIGHT", aliases: &[] },
        Codepoint { codepoint: 0x11C62, name: "BHAIKSUKI NUMBER NINE", aliases: &[] },
        Codepoint { codepoint: 0x11C63, name: "BHAIKSUKI NUMBER TEN", aliases: &[] },
        Codepoint { codepoint: 0x11C64, name: "BHAIKSUKI NUMBER TWENTY", aliases: &[] },
        Codepoint { codepoint: 0x11C65, name: "BHAIKSUKI NUMBER THIRTY", aliases: &[] },
        Codepoint { codepoint: 0x11C66, name: "BHAIKSUKI NUMBER FORTY", aliases: &[] },
        Codepoint { codepoint: 0x11C67, name: "BHAIKSUKI NUMBER FIFTY", aliases: &[] },
        Codepoint { codepoint: 0x11C68, name: "BHAIKSUKI NUMBER SIXTY", aliases: &[] },
        Codepoint { codepoint: 0x11C69, name: "BHAIKSUKI NUMBER SEVENTY", aliases: &[] },
        Codepoint { codepoint: 0x11C6A, name: "BHAIKSUKI NUMBER EIGHTY", aliases: &[] },
        Codepoint { codepoint: 0x11C6B, name: "BHAIKSUKI NUMBER NINETY", aliases: &[] },
        Codepoint { codepoint: 0x11C6C, name: "BHAIKSUKI HUNDREDS UNIT MARK", aliases: &[] },
        Codepoint { codepoint: 0x11C70, name: "MARCHEN HEAD MARK", aliases: &[] },
        Codepoint { codepoint: 0x11C71, name: "MARCHEN MARK SHAD", aliases: &[] },
        Codepoint { codepoint: 0x11C72, name: "MARCHEN LETTER KA", aliases: &[] },
        Codepoint { codepoint: 0x11C73, name: "MARCHEN LETTER KHA", aliases: &[] },
        Codepoint { codepoint: 0x11C74, name: "MARCHEN LETTER GA", aliases: &[] },
    ];
    assert(v@ =~= codepoint_table_533());
    v
}

pub open spec fn codepoint_table_534() -> Seq<Codepoint> {
    seq![
        Codepoint { codepoint: 0x11C75, name: "MARCHEN LETTER NGA", aliases: &[] },
        Codepoint { codepoint: 0x11C76, name: "MARCHEN LETTER CA", aliases: &[] },
        Codepoint { codepoint: 0x11C77, name: "MARCHEN LETTER CHA", aliases: &[] },
        Codepoint { codepoint: 0x11C78, name: "MARCHEN LETTER JA", aliases: &[] },
        Codepoint { codepoint: 0x11C79, name: "MARCHEN LETTER NYA", aliases: &[] },
        Codepoint { codepoint: 0x11C7A, name: "MARCHEN LETTER TA", aliases: &[] },
        Codepoint { codepoint: 0x11C7B, name: "MARCHEN LETTER THA", aliases: &[] },
        Codepoint { codepoint: 0x11C7C, name: "MARCHEN LETTER DA", aliases: &[] },
        Codepoint { codepoint: 0x11C7D, name: "MARCHEN LETTER NA", aliases: &[] },
        Codepoint { codepoint: 0x11C7E, name: "MARCHEN LETTER PA", aliases: &[] },
        Codepoint { codepoint: 0x11C7F, name: "MARCHEN LETTER PHA", aliases: &[] },
        Codepoint { codepoint: 0x11C80, name: "MARCHEN LETTER BA", aliases: &[] },
        Codepoint { codepoint: 0x11C81, name: "MARCHEN LETTER MA", aliases: &[] },
        Codepoint { codepoint: 0x11C82, name: "MARCHEN LETTER TSA", aliases: &[] },
        Codepoint { codepoint: 0x11C83, name: "MARCHEN LETTER TSHA", aliases: &[] },
        Codepoint { codepoint: 0x11C84, name: "MARCHEN LETTER DZA", aliases: &[] },
        Codepoint { codepoint: 0x11C85, name: "MARCHEN LETTER WA", aliases: &[] },
        Codepoint { codepoint: 0x11C86, name: "MARCHEN LETTER ZHA", aliases: &[] },
        Codepoint { codepoint: 0x11C87, name: "MARCHEN LETTER ZA", aliases: &[] },
        Codepoint { codepoint: 0x11C88, name: "MARCHEN LETTER -A", aliases: &[] },
        Codepoint { codepoint: 0x11C89, name: "MARCHEN LETTER YA", aliases: &[] },
        Codepoint { codepoint: 0x11C8A, name: "MARCHEN LETTER RA", aliases: &[] },
        Codepoint { codepoint: 0x11C8B, name: "MARCHEN LETTER LA", aliases: &[] },
        Codepoint { codepoint: 0x11C8C, name: "MARCHEN LETTER SHA", aliases: &[] },
        Codepoint { codepoint: 0x11C8D, name: "MARCHEN LETTER SA", aliases: &[] },
        Codepoint { codepoint: 0x11C8E, name: "MARCHEN LETTER HA", aliases: &[] },
        Codepoint { codepoint: 0x11C8F, name: "MARCHEN LETTER A", aliases: &[] },
        Codepoint { codepoint: 0x11C92, name: "MARCHEN SUBJOINED LETTER KA", aliases: &[] },
        Codepoint { codepoint: 0x11C93, name: "MARCHEN SUBJOINED LETTER KHA", aliases: &[] },
        Codepoint { codepoint: 0x11C94, name: "MARCHEN SUBJOINED LETTER GA", aliases: &[] },
        Codepoint { codepoint: 0x11C95, name: "MARCHEN SUBJOINED LETTER NGA", aliases: &[] },
        Codepoint { codepoint: 0x11C96, name: "MARCHEN SUBJOINED LETTER CA", aliases: &[] },
        Codepoint { codepoint: 0x11C97, name: "MARCHEN SUBJOINED LETTER CHA", aliases: &[] },
        Codepoint { codepoint: 0x11C98, name: "MARCHEN SUBJOINED LETTER JA", aliases: &[] },
        Codepoint { codepoint: 0x11C99, name: "MARCHEN SUBJOINED LETTER NYA", aliases: &[] },
        Codepoint { codepoint: 0x11C9A, name: "MARCHEN SUBJOINED LETTER TA", aliases: &[] },
        Codepoint { codepoint: 0x11C9B, name: "MARCHEN SUBJOINED LETTER THA", aliases: &[] },
        Codepoint { codepoint: 0x11C9C, name: "MARCHEN SUBJOINED LETTER DA", aliases: &[] },
        Codepoint { codepoint: 0x11C9D, name: "MARCHEN SUBJOINED LETTER NA", aliases: &[] },
        Codepoint { codepoint: 0x11C9E, name: "MARCHEN SUBJOINED LETTER PA", aliases: &[] },
    ]
}

fn all_codepoints_534() -> (v: Vec<Codepoint>)
    ensures
        v@ == codepoint_table_534(),
{
    let v = vec![
        Codepoint { codepoint: 0x11C75, name: "MARCHEN LETTER NGA", aliases: &[] },
        Codepoint { codepoint: 0x11C76, name: "MARCHEN LETTER CA", aliases: &[] },
        Codepoint { codepoint: 0x11C77, name: "MARCHEN LETTER CHA", aliases: &[] },
        Codepoint { codepoint: 0x11C78, name: "MARCHEN LETTER JA", aliases: &[] },
        Codepoint { codepoint: 0x11C79, name: "MARCHEN LETTER NYA", aliases: &[] },
        Codepoint { codepoint: 0x11C7A, name: "MARCHEN LETTER TA", aliases: &[] },
        Codepoint { codepoint: 0x11C7B, name: "MARCHEN LETTER THA", aliases: &[] },
        Codepoint { codepoint: 0x11C7C, name: "MARCHEN LETTER DA", aliases: &[] },
        Codepoint { codepoint: 0x11C7D, name: "MARCHEN LETTER NA", aliases: &[] },
        Codepoint { codepoint: 0x11C7E, name: "MARCHEN LETTER PA", aliases: &[] },
        Codepoint { codepoint: 0x11C7F, name: "MARCHEN LETTER PHA", aliases: &[] },
        Codepoint { codepoint: 0x11C80, name: "MARCHEN LETTER BA", aliases: &[] },
        Codepoint { codepoint: 0x11C81, name: "MARCHEN LETTER MA", aliases: &[] },
        Codepoint { codepoint: 0x11C82, name: "MARCHEN LETTER TSA", aliases: &[] },
        Codepoint { codepoint: 0x11C83, name: "MARCHEN LETTER TSHA", aliases: &[] },
        Codepoint { codepoint: 0x11C84, name: "MARCHEN LETTER DZA", aliases: &[] },
        Codepoint { codepoint: 0x11C85, name: "MARCHEN LETTER WA", aliases: &[] },
        Codepoint { codepoint: 0x11C86, name: "MARCHEN LETTER ZHA", aliases: &[] },
        Codepoint { codepoint: 0x11C87, name: "MARCHEN LETTER ZA", aliases: &[] },
        Codepoint { codepoint: 0x11C88, name: "MARCHEN LETTER -A", aliases: &[] },
        Codepoint { codepoint: 0x11C89, name: "MARCHEN LETTER YA", aliases: &[] },
        Codepoint { codepoint: 0x11C8A, name: "MARCHEN LETTER RA", aliases: &[] },
        Codepoint { codepoint: 0x11C8B, name: "MARCHEN LETTER LA", aliases: &[] },
        Codepoint { codepoint: 0x11C8C, name: "MARCHEN LETTER SHA", aliases: &[] },
        Codepoint { codepoint: 0x11C8D, name: "MARCHEN LETTER SA", aliases: &[] },
        Codepoint { codepoint: 0x11C8E, name: "MARCHEN LETTER HA", aliases: &[] },
        Codepoint { codepoint: 0x11C8F, name: "MARCHEN LETTER A", aliases: &[] },
        Codepoint { codepoint: 0x11C92, name: "MARCHEN SUBJOINED LETTER KA", aliases: &[] },
        Codepoint { codepoint: 0x11C93, name: "MARCHEN SUBJOINED LETTER KHA", aliases: &[] },
        Codepoint { codepoint: 0x11C94, name: "MARCHEN SUBJOINED LETTER GA", aliases: &[] },
        Codepoint { codepoint: 0x11C95, name: "MARCHEN SUBJOINED LETTER NGA", aliases: &[] },
        Codepoint { codepoint: 0x11C96, name: "MARCHEN SUBJOINED LETTER CA", aliases: &[] },
        Codepoint { codepoint: 0x11C97, name: "MARCHEN SUBJOINED LETTER CHA", aliases: &[] },
        Codepoint { codepoint: 0x11C98, name: "MARCHEN SUBJOINED LETTER JA", aliases: &[] },
        Codepoint { codepoint: 0x11C99, name: "MARCHEN SUBJOINED LETTER NYA", aliases: &[] },
        Codepoint { codepoint: 0x11C9A, name: "MARCHEN SUBJOINED LETTER TA", aliases: &[] },
        Codepoint { codepoint: 0x11C9B, name: "MARCHEN SUBJOINED LETTER THA", aliases: &[] },
        Codepoint { codepoint: 0x11C9C, name: "MARCHEN SUBJOINED LETTER DA", aliases: &[] },
        Codepoint { codepoint: 0x11C9D, name: "MARCHEN SUBJOINED LETTER NA", aliases: &[] },
        Codepoint { codepoint: 0x11C9E, name: "MARCHEN SUBJOINED LETTER PA", aliases: &[] },
    ];
    assert(v@ =~= codepoint_table_534());
    v
}

pub open spec fn codepoint_table_535() -> Seq<Codepoint> {
    seq![
        Codepoint { codepoint: 0x11C9F, name: "MARCHEN SUBJOINED LETTER PHA", aliases: &[] },
        Codepoint { codepoint: 0x11CA0, name: "MARCHEN SUBJOINED LETTER BA", aliases: &[] },
        Codepoint { codepoint: 0x11CA1, name: "MARCHEN SUBJOINED LETTER MA", aliases: &[] },
        Codepoint { codepoint: 0x11CA2, name: "MARCHEN SUBJOINED LETTER TSA", aliases: &[] },
        Codepoint { codepoint: 0x11CA3, name: "MARCHEN SUBJOINED LETTER TSHA", aliases: &[] },
        Codepoint { codepoint: 0x11CA4, name: "MARCHEN SUBJOINED LETTER DZA", aliases: &[] },
        Codepoint { codepoint: 0x11CA5, name: "MARCHEN SUBJOINED LETTER WA", aliases: &[] },
        Codepoint { codepoint: 0x11CA6, name: "MARCHEN SUBJOINED LETTER ZHA", aliases: &[] },
        Codepoint { codepoint: 0x11CA7, name: "MARCHEN SUBJOINED LETTER ZA", aliases: &[] },
        Codepoint { codepoint: 0x11CA9, name: "MARCHEN SUBJOINED LETTER YA", aliases: &[] },
        Codepoint { codepoint: 0x11CAA, name: "MARCHEN SUBJOINED LETTER RA", aliases: &[] },
        Codepoint { codepoint: 0x11CAB, name: "MARCHEN SUBJOINED LETTER LA", aliases: &[] },
        Codepoint { codepoint: 0x11CAC, name: "MARCHEN SUBJOINED LETTER SHA", aliases: &[] },
        Codepoint { codepoint: 0x11CAD, name: "MARCHEN SUBJOINED LETTER SA", aliases: &[] },
        Codepoint { codepoint: 0x11CAE, name: "MARCHEN SUBJOINED LETTER HA", aliases: &[] },
        Codepoint { codepoint: 0x11CAF, name: "MARCHEN SUBJOINED LETTER A", aliases: &[] },
        Codepoint { codepoint: 0x11CB0, name: "MARCHEN VOWEL SIGN AA", aliases: &[] },
        Codepoint { codepoint: 0x11CB1, name: "MARCHEN VOWEL SIGN I", aliases: &[] },
        Codepoint { codepoint: 0x11CB2, name: "MARCHEN VOWEL SIGN U", aliases: &[] },
        Codepoint { codepoint: 0x11CB3, name: "MARCHEN VOWEL SIGN E", aliases: &[] },
        Codepoint { codepoint: 0x11CB4, name: "MARCHEN VOWEL SIGN O", aliases: &[] },
        Codepoint { codepoint: 0x11CB5, name: "MARCHEN SIGN ANUSVARA", aliases: &[] },
        Codepoint { codepoint: 0x11CB6, name: "MARCHEN SIGN CANDRABINDU", aliases: &[] },
        Codepoint { codepoint: 0x11D00, name: "MASARAM GONDI LETTER A", aliases: &[] },
        Codepoint { codepoint: 0x11D01, name: "MASARAM GONDI LETTER AA", aliases: &[] },
        Codepoint { codepoint: 0x11D02, name: "MASARAM GONDI LETTER I", aliases: &[] },
        Codepoint { codepoint: 0x11D03, name: "MASARAM GONDI LETTER II", aliases: &[] },
        Codepoint { codepoint: 0x11D04, name: "MASARAM GONDI LETTER U", aliases: &[] },
        Codepoint { codepoint: 0x11D05, name: "MASARAM GONDI LETTER UU", aliases: &[] },
        Codepoint { codepoint: 0x11D06, name: "MASARAM GONDI LETTER E", aliases: &[] },
        Codepoint { codepoint: 0x11D08, name: "MASARAM GONDI LETTER AI", aliases: &[] },
        Codepoint { codepoint: 0x11D09, name: "MASARAM GONDI LETTER O", aliases: &[] },
        Codepoint { codepoint: 0x11D0B, name: "MASARAM GONDI LETTER AU", aliases: &[] },
        Codepoint { codepoint: 0x11D0C, name: "MASARAM GONDI LETTER KA", aliases: &[] },
        Codepoint { codepoint: 0x11D0D, name: "MASARAM GONDI LETTER KHA", aliases: &[] },
        Codepoint { codepoint: 0x11D0E, name: "MASARAM GONDI LETTER GA", aliases: &[] },
        Codepoint { codepoint: 0x11D0F, name: "MASARAM GONDI LETTER GHA", aliases: &[] },
        Codepoint { codepoint: 0x11D10, name: "MASARAM GONDI LETTER NGA", aliases: &[] },
        Codepoint { codepoint: 0x11D11, name: "MASARAM GONDI LETTER CA", aliases: &[] },
        Codepoint { codepoint: 0x11D12, name: "MASARAM GONDI LETTER CHA", aliases: &[] },
    ]
}

fn all_codepoints_535() -> (v: Vec<Codepoint>)
    ensures
        v@ == codepoint_table_535(),
{
    let v = vec![
        Codepoint { codepoint: 0x11C9F, name: "MARCHEN SUBJOINED LETTER PHA", aliases: &[] },
        Codepoint { codepoint: 0x11CA0, name: "MARCHEN SUBJOINED LETTER BA", aliases: &[] },
        Codepoint { codepoint: 0x11CA1, name: "MARCHEN SUBJOINED LETTER MA", aliases: &[] },
        Codepoint { codepoint: 0x11CA2, name: "MARCHEN SUBJOINED LETTER TSA", aliases: &[] },
        Codepoint { codepoint: 0x11CA3, name: "MARCHEN SUBJOINED LETTER TSHA", aliases: &[] },
        Codepoint { codepoint: 0x11CA4, name: "MARCHEN SUBJOINED LETTER DZA", aliases: &[] },
        Codepoint { codepoint: 0x11CA5, name: "MARCHEN SUBJOINED LETTER WA", aliases: &[] },
        Codepoint { codepoint: 0x11CA6, name: "MARCHEN SUBJOINED LETTER ZHA", aliases: &[] },
        Codepoint { codepoint: 0x11CA7, name: "MARCHEN SUBJOINED LETTER ZA", aliases: &[] },
        Codepoint { codepoint: 0x11CA9, name: "MARCHEN SUBJOINED LETTER YA", aliases: &[] },
        Codepoint { codepoint: 0x11CAA, name: "MARCHEN SUBJOINED LETTER RA", aliases: &[] },
        Codepoint { codepoint: 0x11CAB, name: "MARCHEN SUBJOINED LETTER LA", aliases: &[] },
        Codepoint { codepoint: 0x11CAC, name: "MARCHEN SUBJOINED LETTER SHA", aliases: &[] },
        Codepoint { codepoint: 0x11CAD, name: "MARCHEN SUBJOINED LETTER SA", aliases: &[] },
        Codepoint { codepoint: 0x11CAE, name: "MARCHEN SUBJOINED LETTER HA", aliases: &[] },
        Codepoint { codepoint: 0x11CAF, name: "MARCHEN SUBJOINED LETTER A", aliases: &[] },
        Codepoint { codepoint: 0x11CB0, name: "MARCHEN VOWEL SIGN AA", aliases: &[] },
        Codepoint { codepoint: 0x11CB1, name: "MARCHEN VOWEL SIGN I", aliases: &[] },
        Codepoint { codepoint: 0x11CB2, name: "MARCHEN VOWEL SIGN U", aliases: &[] },
        Codepoint { codepoint: 0x11CB3, name: "MARCHEN VOWEL SIGN E", aliases: &[] },
        Codepoint { codepoint: 0x11CB4, name: "MARCHEN VOWEL SIGN O", aliases: &[] },
        Codepoint { codepoint: 0x11CB5, name: "MARCHEN SIGN ANUSVARA", aliases: &[] },
        Codepoint { codepoint: 0x11CB6, name: "MARCHEN SIGN CANDRABINDU", aliases: &[] },
        Codepoint { codepoint: 0x11D00, name: "MASARAM GONDI LETTER A", aliases: &[] },
        Codepoint { codepoint: 0x11D01, name: "MASARAM GONDI LETTER AA", aliases: &[] },
        Codepoint { codepoint: 0x11D02, name: "MASARAM GONDI LETTER I", aliases: &[] },
        Codepoint { codepoint: 0x11D03, name: "MASARAM GONDI LETTER II", aliases: &[] },
        Codepoint { codepoint: 0x11D04, name: "MASARAM GONDI LETTER U", aliases: &[] },
        Codepoint { codepoint: 0x11D05, name: "MASARAM GONDI LETTER UU", aliases: &[] },
        Codepoint { codepoint: 0x11D06, name: "MASARAM GONDI LETTER E", aliases: &[] },
        Codepoint { codepoint: 0x11D08, name: "MASARAM GONDI LETTER AI", aliases: &[] },
        Codepoint { codepoint: 0x11D09, name: "MASARAM GONDI LETTER O", aliases: &[] },
        Codepoint { codepoint: 0x11D0B, name: "MASARAM GONDI LETTER AU", aliases: &[] },
        Codepoint { codepoint: 0x11D0C, name: "MASARAM GONDI LETTER KA", aliases: &[] },
        Codepoint { codepoint: 0x11D0D, name: "MASARAM GONDI LETTER KHA", aliases: &[] },
        Codepoint { codepoint: 0x11D0E, name: "MASARAM GONDI LETTER GA", aliases: &[] },
        Codepoint { codepoint: 0x11D0F, name: "MASARAM GONDI LETTER GHA", aliases: &[] },
        Codepoint { codepoint: 0x11D10, name: "MASARAM GONDI LETTER NGA", aliases: &[] },
        Codepoint { codepoint: 0x11D11, name: "MASARAM GONDI LETTER CA", aliases: &[] },
        Codepoint { codepoint: 0x11D12, name: "MASARAM GONDI LETTER CHA", aliases: &[] },
    ];
    assert(v@ =~= codepoint_table_535());
    v
}

pub open spec fn codepoint_table_536() -> Seq<Codepoint> {
    seq![
        Codepoint { codepoint: 0x11D13, name: "MASARAM GONDI LETTER JA", aliases: &[] },
        Codepoint { codepoint: 0x11D14, name: "MASARAM GONDI LETTER JHA", aliases: &[] },
        Codepoint { codepoint: 0x11D15, name: "MASARAM GONDI LETTER NYA", aliases: &[] },
        Codepoint { codepoint: 0x11D16, name: "MASARAM GONDI LETTER TTA", aliases: &[] },
        Codepoint { codepoint: 0x11D17, name: "MASARAM GONDI LETTER TTHA", aliases: &[] },
        Codepoint { codepoint: 0x11D18, name: "MASARAM GONDI LETTER DDA", aliases: &[] },
        Codepoint { codepoint: 0x11D19, name: "MASARAM GONDI LETTER DDHA", aliases: &[] },
        Codepoint { codepoint: 0x11D1A, name: "MASARAM GONDI LETTER NNA", aliases: &[] },
        Codepoint { codepoint: 0x11D1B, name: "MASARAM GONDI LETTER TA", aliases: &[] },
        Codepoint { codepoint: 0x11D1C, name: "MASARAM GONDI LETTER THA", aliases: &[] },
        Codepoint { codepoint: 0x11D1D, name: "MASARAM GONDI LETTER DA", aliases: &[] },
        Codepoint { codepoint: 0x11D1E, name: "MASARAM GONDI LETTER DHA", aliases: &[] },
        Codepoint { codepoint: 0x11D1F, name: "MASARAM GONDI LETTER NA", aliases: &[] },
        Codepoint { codepoint: 0x11D20, name: "MASARAM GONDI LETTER PA", aliases: &[] },
        Codepoint { codepoint: 0x11D21, name: "MASARAM GONDI LETTER PHA", aliases: &[] },
        Codepoint { codepoint: 0x11D22, name: "MASARAM GONDI LETTER BA", aliases: &[] },
        Codepoint { codepoint: 0x11D23, name: "MASARAM GONDI LETTER BHA", aliases: &[] },
        Codepoint { codepoint: 0x11D24, name: "MASARAM GONDI LETTER MA", aliases: &[] },
        Codepoint { codepoint: 0x11D25, name: "MASARAM GONDI LETTER YA", aliases: &[] },
        Codepoint { codepoint: 0x11D26, name: "MASARAM GONDI LETTER RA", aliases: &[] },
        Codepoint { codepoint: 0x11D27, name: "MASARAM GONDI LETTER LA", aliases: &[] },
        Codepoint { codepoint: 0x11D28, name: "MASARAM GONDI LETTER VA", aliases: &[] },
        Codepoint { codepoint: 0x11D29, name: "MASARAM GONDI LETTER SHA", aliases: &[] },
        Codepoint { codepoint: 0x11D2A, name: "MASARAM GONDI LETTER SSA", aliases: &[] },
        Codepoint { codepoint: 0x11D2B, name: "MASARAM GONDI LETTER SA", aliases: &[] },
        Codepoint { codepoint: 0x11D2C, name: "MASARAM GONDI LETTER HA", aliases: &[] },
        Codepoint { codepoint: 0x11D2D, name: "MASARAM GONDI LETTER LLA", aliases: &[] },
        Codepoint { codepoint: 0x11D2E, name: "MASARAM GONDI LETTER KSSA", aliases: &[] },
        Codepoint { codepoint: 0x11D2F, name: "MASARAM GONDI LETTER JNYA", aliases: &[] },
        Codepoint { codepoint: 0x11D30, name: "MASARAM GONDI LETTER TRA", aliases: &[] },
        Codepoint { codepoint: 0x11D31, name: "MASARAM GONDI VOWEL SIGN AA", aliases: &[] },
        Codepoint { codepoint: 0x11D32, name: "MASARAM GONDI VOWEL SIGN I", aliases: &[] },
        Codepoint { codepoint: 0x11D33, name: "MASARAM GONDI VOWEL SIGN II", aliases: &[] },
        Codepoint { codepoint: 0x11D34, name: "MASARAM GONDI VOWEL SIGN U", aliases: &[] },
        Codepoint { codepoint: 0x11D35, name: "MASARAM GONDI VOWEL SIGN UU", aliases: &[] },
        Codepoint { codepoint: 0x11D36, name: "MASARAM GONDI VOWEL SIGN VOCALIC R", aliases: &[] },
        Codepoint { codepoint: 0x11D3A, name: "MASARAM GONDI VOWEL SIGN E", aliases: &[] },
        Codepoint { codepoint: 0x11D3C, name: "MASARAM GONDI VOWEL SIGN AI", aliases: &[] },
        Codepoint { codepoint: 0x11D3D, name: "MASARAM GONDI VOWEL SIGN O", aliases: &[] },
        Codepoint { codepoint: 0x11D3F, name: "MASARAM GONDI VOWEL SIGN AU", aliases: &[] },
    ]
}

fn all_codepoints_536() -> (v: Vec<Codepoint>)
    ensures
        v@ == codepoint_table_536(),
{
    let v = vec![
        Codepoint { codepoint: 0x11D13, name: "MASARAM GONDI LETTER JA", aliases: &[] },
        Codepoint { codepoint: 0x11D14, name: "MASARAM GONDI LETTER JHA", aliases: &[] },
        Codepoint { codepoint: 0x11D15, name: "MASARAM GONDI LETTER NYA", aliases: &[] },
        Codepoint { codepoint: 0x11D16, name: "MASARAM GONDI LETTER TTA", aliases: &[] },
        Codepoint { codepoint: 0x11D17, name: "MASARAM GONDI LETTER TTHA", aliases: &[] },
        Codepoint { codepoint: 0x11D18, name: "MASARAM GONDI LETTER DDA", aliases: &[] },
        Codepoint { codepoint: 0x11D19, name: "MASARAM GONDI LETTER DDHA", aliases: &[] },
        Codepoint { codepoint: 0x11D1A, name: "MASARAM GONDI LETTER NNA", aliases: &[] },
        Codepoint { codepoint: 0x11D1B, name: "MASARAM GONDI LETTER TA", aliases: &[] },
        Codepoint { codepoint: 0x11D1C, name: "MASARAM GONDI LETTER THA", aliases: &[] },
        Codepoint { codepoint: 0x11D1D, name: "MASARAM GONDI LETTER DA", aliases: &[] },
        Codepoint { codepoint: 0x11D1E, name: "MASARAM GONDI LETTER DHA", aliases: &[] },
        Codepoint { codepoint: 0x11D1F, name: "MASARAM GONDI LETTER NA", aliases: &[] },
        Codepoint { codepoint: 0x11D20, name: "MASARAM GONDI LETTER PA", aliases: &[] },
        Codepoint { codepoint: 0x11D21, name: "MASARAM GONDI LETTER PHA", aliases: &[] },
        Codepoint { codepoint: 0x11D22, name: "MASARAM GONDI LETTER BA", aliases: &[] },
        Codepoint { codepoint: 0x11D23, name: "MASARAM GONDI LETTER BHA", aliases: &[] },
        Codepoint { codepoint: 0x11D24, name: "MASARAM GONDI LETTER MA", aliases: &[] },
        Codepoint { codepoint: 0x11D25, name: "MASARAM GONDI LETTER YA", aliases: &[] },
        Codepoint { codepoint: 0x11D26, name: "MASARAM GONDI LETTER RA", aliases: &[] },
        Codepoint { codepoint: 0x11D27, name: "MASARAM GONDI LETTER LA", aliases: &[] },
        Codepoint { codepoint: 0x11D28, name: "MASARAM GONDI LETTER VA", aliases: &[] },
        Codepoint { codepoint: 0x11D29, name: "MASARAM GONDI LETTER SHA", aliases: &[] },
        Codepoint { codepoint: 0x11D2A, name: "MASARAM GONDI LETTER SSA", aliases: &[] },
        Codepoint { codepoint: 0x11D2B, name: "MASARAM GONDI LETTER SA", aliases: &[] },
        Codepoint { codepoint: 0x11D2C, name: "MASARAM GONDI LETTER HA", aliases: &[] },
        Codepoint { codepoint: 0x11D2D, name: "MASARAM GONDI LETTER LLA", aliases: &[] },
        Codepoint { codepoint: 0x11D2E, name: "MASARAM GONDI LETTER KSSA", aliases: &[] },
        Codepoint { codepoint: 0x11D2F, name: "MASARAM GONDI LETTER JNYA", aliases: &[] },
        Codepoint { codepoint: 0x11D30, name: "MASARAM GONDI LETTER TRA", aliases: &[] },
        Codepoint { codepoint: 0x11D31, name: "MASARAM GONDI VOWEL SIGN AA", aliases: &[] },
        Codepoint { codepoint: 0x11D32, name: "MASARAM GONDI VOWEL SIGN I", aliases: &[] },
        Codepoint { codepoint: 0x11D33, name: "MASARAM GONDI VOWEL SIGN II", aliases: &[] },
        Codepoint { codepoint: 0x11D34, name: "MASARAM GONDI VOWEL SIGN U", aliases: &[] },
        Codepoint { codepoint: 0x11D35, name: "MASARAM GONDI VOWEL SIGN UU", aliases: &[] },
        Codepoint { codepoint: 0x11D36, name: "MASARAM GONDI VOWEL SIGN VOCALIC R", aliases: &[] },
        Codepoint { codepoint: 0x11D3A, name: "MASARAM GONDI VOWEL SIGN E", aliases: &[] },
        Codepoint { codepoint: 0x11D3C, name: "MASARAM GONDI VOWEL SIGN AI", aliases: &[] },
        Codepoint { codepoint: 0x11D3D, name: "MASARAM GONDI VOWEL SIGN O", aliases: &[] },
        Codepoint { codepoint: 0x11D3F, name: "MASARAM GONDI VOWEL SIGN AU", aliases: &[] },
    ];
    assert(v@ =~= codepoint_table_536());
    v
}

pub open spec fn codepoint_table_537() -> Seq<Codepoint> {
    seq![
        Codepoint { codepoint: 0x11D40, name: "MASARAM GONDI SIGN ANUSVARA", aliases: &[] },
        Codepoint { codepoint: 0x11D41, name: "MASARAM GONDI SIGN VISARGA", aliases: &[] },
        Codepoint { codepoint: 0x11D42, name: "MASARAM GONDI SIGN NUKTA", aliases: &[] },
        Codepoint { codepoint: 0x11D43, name: "MASARAM GONDI SIGN CANDRA", aliases: &[] },
        Codepoint { codepoint: 0x11D44, name: "MASARAM GONDI SIGN HALANTA", aliases: &[] },
        Codepoint { codepoint: 0x11D45, name: "MASARAM GONDI VIRAMA", aliases: &[] },
        Codepoint { codepoint: 0x11D46, name: "MASARAM GONDI REPHA", aliases: &[] },
        Codepoint { codepoint: 0x11D47, name: "MASARAM GONDI RA-KARA", aliases: &[] },
        Codepoint { codepoint: 0x11D50, name: "MASARAM GONDI DIGIT ZERO", aliases: &[] },
        Codepoint { codepoint: 0x11D51, name: "MASARAM GONDI DIGIT ONE", aliases: &[] },
        Codepoint { codepoint: 0x11D52, name: "MASARAM GONDI DIGIT TWO", aliases: &[] },
        Codepoint { codepoint: 0x11D53, name: "MASARAM GONDI DIGIT THREE", aliases: &[] },
        Codepoint { codepoint: 0x11D54, name: "MASARAM GONDI DIGIT FOUR", aliases: &[] },
        Codepoint { codepoint: 0x11D55, name: "MASARAM GONDI DIGIT FIVE", aliases: &[] },
        Codepoint { codepoint: 0x11D56, name: "MASARAM GONDI DIGIT SIX", aliases: &[] },
        Codepoint { codepoint: 0x11D57, name: "MASARAM GONDI DIGIT SEVEN", aliases: &[] },
        Codepoint { codepoint: 0x11D58, name: "MASARAM GONDI DIGIT EIGHT", aliases: &[] },
        Codepoint { codepoint: 0x11D59, name: "MASARAM GONDI DIGIT NINE", aliases: &[] },
        Codepoint { codepoint: 0x11D60, name: "GUNJALA GONDI LETTER A", aliases: &[] },
        Codepoint { codepoint: 0x11D61, name: "GUNJALA GONDI LETTER AA", aliases: &[] },
        Codepoint { codepoint: 0x11D62, name: "GUNJALA GONDI LETTER I", aliases: &[] },
        Codepoint { codepoint: 0x11D63, name: "GUNJALA GONDI LETTER II", aliases: &[] },
        Codepoint { codepoint: 0x11D64, name: "GUNJALA GONDI LETTER U", aliases: &[] },
        Codepoint { codepoint: 0x11D65, name: "GUNJALA GONDI LETTER UU", aliases: &[] },
        Codepoint { codepoint: 0x11D67, name: "GUNJALA GONDI LETTER EE", aliases: &[] },
        Codepoint { codepoint: 0x11D68, name: "GUNJALA GONDI LETTER AI", aliases: &[] },
        Codepoint { codepoint: 0x11D6A, name: "GUNJALA GONDI LETTER OO", aliases: &[] },
        Codepoint { codepoint: 0x11D6B, name: "GUNJALA GONDI LETTER AU", aliases: &[] },
        Codepoint { codepoint: 0x11D6C, name: "GUNJALA GONDI LETTER YA", aliases: &[] },
        Codepoint { codepoint: 0x11D6D, name: "GUNJALA GONDI LETTER VA", aliases: &[] },
        Codepoint { codepoint: 0x11D6E, name: "GUNJALA GONDI LETTER BA", aliases: &[] },
        Codepoint { codepoint: 0x11D6F, name: "GUNJALA GONDI LETTER BHA", aliases: &[] },
        Codepoint { codepoint: 0x11D70, name: "GUNJALA GONDI LETTER MA", aliases: &[] },
        Codepoint { codepoint: 0x11D71, name: "GUNJALA GONDI LETTER KA", aliases: &[] },
        Codepoint { codepoint: 0x11D72, name: "GUNJALA GONDI LETTER KHA", aliases: &[] },
        Codepoint { codepoint: 0x11D73, name: "GUNJALA GONDI LETTER TA", aliases: &[] },
        Codepoint { codepoint: 0x11D74, name: "GUNJALA GONDI LETTER THA", aliases: &[] },
        Codepoint { codepoint: 0x11D75, name: "GUNJALA GONDI LETTER LA", aliases: &[] },
        Codepoint { codepoint: 0x11D76, name: "GUNJALA GONDI LETTER GA", aliases: &[] },
        Codepoint { codepoint: 0x11D77, name: "GUNJALA GONDI LETTER GHA", aliases: &[] },
    ]
}

fn all_codepoints_537() -> (v: Vec<Codepoint>)
    ensures
        v@ == codepoint_table_537(),
{
    let v = vec![
        Codepoint { codepoint: 0x11D40, name: "MASARAM GONDI SIGN ANUSVARA", aliases: &[] },
        Codepoint { codepoint: 0x11D41, name: "MASARAM GONDI SIGN VISARGA", aliases: &[] },
        Codepoint { codepoint: 0x11D42, name: "MASARAM GONDI SIGN NUKTA", aliases: &[] },
        Codepoint { codepoint: 0x11D43, name: "MASARAM GONDI SIGN CANDRA", aliases: &[] },
        Codepoint { codepoint: 0x11D44, name: "MASARAM GONDI SIGN HALANTA", aliases: &[] },
        Codepoint { codepoint: 0x11D45, name: "MASARAM GONDI VIRAMA", aliases: &[] },
        Codepoint { codepoint: 0x11D46, name: "MASARAM GONDI REPHA", aliases: &[] },
        Codepoint { codepoint: 0x11D47, name: "MASARAM GONDI RA-KARA", aliases: &[] },
        Codepoint { codepoint: 0x11D50, name: "MASARAM GONDI DIGIT ZERO", aliases: &[] },
        Codepoint { codepoint: 0x11D51, name: "MASARAM GONDI DIGIT ONE", aliases: &[] },
        Codepoint { codepoint: 0x11D52, name: "MASARAM GONDI DIGIT TWO", aliases: &[] },
        Codepoint { codepoint: 0x11D53, name: "MASARAM GONDI DIGIT THREE", aliases: &[] },
        Codepoint { codepoint: 0x11D54, name: "MASARAM GONDI DIGIT FOUR", aliases: &[] },
        Codepoint { codepoint: 0x11D55, name: "MASARAM GONDI DIGIT FIVE", aliases: &[] },
        Codepoint { codepoint: 0x11D56, name: "MASARAM GONDI DIGIT SIX", aliases: &[] },
        Codepoint { codepoint: 0x11D57, name: "MASARAM GONDI DIGIT SEVEN", aliases: &[] },
        Codepoint { codepoint: 0x11D58, name: "MASARAM GONDI DIGIT EIGHT", aliases: &[] },
        Codepoint { codepoint: 0x11D59, name: "MASARAM GONDI DIGIT NINE", aliases: &[] },
        Codepoint { codepoint: 0x11D60, name: "GUNJALA GONDI LETTER A", aliases: &[] },
        Codepoint { codepoint: 0x11D61, name: "GUNJALA GONDI LETTER AA", aliases: &[] },
        Codepoint { codepoint: 0x11D62, name: "GUNJALA GONDI LETTER I", aliases: &[] },
        Codepoint { codepoint: 0x11D63, name: "GUNJALA GONDI LETTER II", aliases: &[] },
        Codepoint { codepoint: 0x11D64, name: "GUNJALA GONDI LETTER U", aliases: &[] },
        Codepoint { codepoint: 0x11D65, name: "GUNJALA GONDI LETTER UU", aliases: &[] },
        Codepoint { codepoint: 0x11D67, name: "GUNJALA GONDI LETTER EE", aliases: &[] },
        Codepoint { codepoint: 0x11D68, name: "GUNJALA GONDI LETTER AI", aliases: &[] },
        Codepoint { codepoint: 0x11D6A, name: "GUNJALA GONDI LETTER OO", aliases: &[] },
        Codepoint { codepoint: 0x11D6B, name: "GUNJALA GONDI LETTER AU", aliases: &[] },
        Codepoint { codepoint: 0x11D6C, name: "GUNJALA GONDI LETTER YA", aliases: &[] },
        Codepoint { codepoint: 0x11D6D, name: "GUNJALA GONDI LETTER VA", aliases: &[] },
        Codepoint { codepoint: 0x11D6E, name: "GUNJALA GONDI LETTER BA", aliases: &[] },
        Codepoint { codepoint: 0x11D6F, name: "GUNJALA GONDI LETTER BHA", aliases: &[] },
        Codepoint { codepoint: 0x11D70, name: "GUNJALA GONDI LETTER MA", aliases: &[] },
        Codepoint { codepoint: 0x11D71, name: "GUNJALA GONDI LETTER KA", aliases: &[] },
        Codepoint { codepoint: 0x11D72, name: "GUNJALA GONDI LETTER KHA", aliases: &[] },
        Codepoint { codepoint: 0x11D73, name: "GUNJALA GONDI LETTER TA", aliases: &[] },
        Codepoint { codepoint: 0x11D74, name: "GUNJALA GONDI LETTER THA", aliases: &[] },
        Codepoint { codepoint: 0x11D75, name: "GUNJALA GONDI LETTER LA", aliases: &[] },
        Codepoint { codepoint: 0x11D76, name: "GUNJALA GONDI LETTER GA", aliases: &[] },
        Codepoint { codepoint: 0x11D77, name: "GUNJALA GONDI LETTER GHA", aliases: &[] },
    ];
    assert(v@ =~= codepoint_table_537());
    v
}

pub open spec fn codepoint_table_538() -> Seq<Codepoint> {
    seq![
        Codepoint { codepoint: 0x11D78, name: "GUNJALA GONDI LETTER DA", aliases: &[] },
        Codepoint { codepoint: 0x11D79, name: "GUNJALA GONDI LETTER DHA", aliases: &[] },
        Codepoint { codepoint: 0x11D7A, name: "GUNJALA GONDI LETTER NA", aliases: &[] },
        Codepoint { codepoint: 0x11D7B, name: "GUNJALA GONDI LETTER CA", aliases: &[] },
        Codepoint { codepoint: 0x11D7C, name: "GUNJALA GONDI LETTER CHA", aliases: &[] },
        Codepoint { codepoint: 0x11D7D, name: "GUNJALA GONDI LETTER TTA", aliases: &[] },
        Codepoint { codepoint: 0x11D7E, name: "GUNJALA GONDI LETTER TTHA", aliases: &[] },
        Codepoint { codepoint: 0x11D7F, name: "GUNJALA GONDI LETTER LLA", aliases: &[] },
        Codepoint { codepoint: 0x11D80, name: "GUNJALA GONDI LETTER JA", aliases: &[] },
        Codepoint { codepoint: 0x11D81, name: "GUNJALA GONDI LETTER JHA", aliases: &[] },
        Codepoint { codepoint: 0x11D82, name: "GUNJALA GONDI LETTER DDA", aliases: &[] },
        Codepoint { codepoint: 0x11D83, name: "GUNJALA GONDI LETTER DDHA", aliases: &[] },
        Codepoint { codepoint: 0x11D84, name: "GUNJALA GONDI LETTER NGA", aliases: &[] },
        Codepoint { codepoint: 0x11D85, name: "GUNJALA GONDI LETTER PA", aliases: &[] },
        Codepoint { codepoint: 0x11D86, name: "GUNJALA GONDI LETTER PHA", aliases: &[] },
        Codepoint { codepoint: 0x11D87, name: "GUNJALA GONDI LETTER HA", aliases: &[] },
        Codepoint { codepoint: 0x11D88, name: "GUNJALA GONDI LETTER RA", aliases: &[] },
        Codepoint { codepoint: 0x11D89, name: "GUNJALA GONDI LETTER SA", aliases: &[] },
        Codepoint { codepoint: 0x11D8A, name: "GUNJALA GONDI VOWEL SIGN AA", aliases: &[] },
        Codepoint { codepoint: 0x11D8B, name: "GUNJALA GONDI VOWEL SIGN I", aliases: &[] },
        Codepoint { codepoint: 0x11D8C, name: "GUNJALA GONDI VOWEL SIGN II", aliases: &[] },
        Codepoint { codepoint: 0x11D8D, name: "GUNJALA GONDI VOWEL SIGN U", aliases: &[] },
        Codepoint { codepoint: 0x11D8E, name: "GUNJALA GONDI VOWEL SIGN UU", aliases: &[] },
        Codepoint { codepoint: 0x11D90, name: "GUNJALA GONDI VOWEL SIGN EE", aliases: &[] },
        Codepoint { codepoint: 0x11D91, name: "GUNJALA GONDI VOWEL SIGN AI", aliases: &[] },
        Codepoint { codepoint: 0x11D93, name: "GUNJALA GONDI VOWEL SIGN OO", aliases: &[] },
        Codepoint { codepoint: 0x11D94, name: "GUNJALA GONDI VOWEL SIGN AU", aliases: &[] },
        Codepoint { codepoint: 0x11D95, name: "GUNJALA GONDI SIGN ANUSVARA", aliases: &[] },
        Codepoint { codepoint: 0x11D96, name: "GUNJALA GONDI SIGN VISARGA", aliases: &[] },
        Codepoint { codepoint: 0x11D97, name: "GUNJALA GONDI VIRAMA", aliases: &[] },
        Codepoint { codepoint: 0x11D98, name: "GUNJALA GONDI OM", aliases: &[] },
        Codepoint { codepoint: 0x11DA0, name: "GUNJALA GONDI DIGIT ZERO", aliases: &[] },
        Codepoint { codepoint: 0x11DA1, name: "GUNJALA GONDI DIGIT ONE", aliases: &[] },
        Codepoint { codepoint: 0x11DA2, name: "GUNJALA GONDI DIGIT TWO", aliases: &[] },
        Codepoint { codepoint: 0x11DA3, name: "GUNJALA GONDI DIGIT THREE", aliases: &[] },
        Codepoint { codepoint: 0x11DA4, name: "GUNJALA GONDI DIGIT FOUR", aliases: &[] },
        Codepoint { codepoint: 0x11DA5, name: "GUNJALA GONDI DIGIT FIVE", aliases: &[] },
        Codepoint { codepoint: 0x11DA6, name: "GUNJALA GONDI DIGIT SIX", aliases: &[] },
        Codepoint { codepoint: 0x11DA7, name: "GUNJALA GONDI DIGIT SEVEN", aliases: &[] },
        Codepoint { codepoint: 0x11DA8, name: "GUNJALA GONDI DIGIT EIGHT", aliases: &[] },
    ]
}

fn all_codepoints_538() -> (v: Vec<Codepoint>)
    ensures
        v@ == codepoint_table_538(),
{
    let v = vec![
        Codepoint { codepoint: 0x11D78, name: "GUNJALA GONDI LETTER DA", aliases: &[] },
        Codepoint { codepoint: 0x11D79, name: "GUNJALA GONDI LETTER DHA", aliases: &[] },
        Codepoint { codepoint: 0x11D7A, name: "GUNJALA GONDI LETTER NA", aliases: &[] },
        Codepoint { codepoint: 0x11D7B, name: "GUNJALA GONDI LETTER CA", aliases: &[] },
        Codepoint { codepoint: 0x11D7C, name: "GUNJALA GONDI LETTER CHA", aliases: &[] },
        Codepoint { codepoint: 0x11D7D, name: "GUNJALA GONDI LETTER TTA", aliases: &[] },
        Codepoint { codepoint: 0x11D7E, name: "GUNJALA GONDI LETTER TTHA", aliases: &[] },
        Codepoint { codepoint: 0x11D7F, name: "GUNJALA GONDI LETTER LLA", aliases: &[] },
        Codepoint { codepoint: 0x11D80, name: "GUNJALA GONDI LETTER JA", aliases: &[] },
        Codepoint { codepoint: 0x11D81, name: "GUNJALA GONDI LETTER JHA", aliases: &[] },
        Codepoint { codepoint: 0x11D82, name: "GUNJALA GONDI LETTER DDA", aliases: &[] },
        Codepoint { codepoint: 0x11D83, name: "GUNJALA GONDI LETTER DDHA", aliases: &[] },
        Codepoint { codepoint: 0x11D84, name: "GUNJALA GONDI LETTER NGA", aliases: &[] },
        Codepoint { codepoint: 0x11D85, name: "GUNJALA GONDI LETTER PA", aliases: &[] },
        Codepoint { codepoint: 0x11D86, name: "GUNJALA GONDI LETTER PHA", aliases: &[] },
        Codepoint { codepoint: 0x11D87, name: "GUNJALA GONDI LETTER HA", aliases: &[] },
        Codepoint { codepoint: 0x11D88, name: "GUNJALA GONDI LETTER RA", aliases: &[] },
        Codepoint { codepoint: 0x11D89, name: "GUNJALA GONDI LETTER SA", aliases: &[] },
        Codepoint { codepoint: 0x11D8A, name: "GUNJALA GONDI VOWEL SIGN AA", aliases: &[] },
        Codepoint { codepoint: 0x11D8B, name: "GUNJALA GONDI VOWEL SIGN I", aliases: &[] },
        Codepoint { codepoint: 0x11D8C, name: "GUNJALA GONDI VOWEL SIGN II", aliases: &[] },
        Codepoint { codepoint: 0x11D8D, name: "GUNJALA GONDI VOWEL SIGN U", aliases: &[] },
        Codepoint { codepoint: 0x11D8E, name: "GUNJALA GONDI VOWEL SIGN UU", aliases: &[] },
        Codepoint { codepoint: 0x11D90, name: "GUNJALA GONDI VOWEL SIGN EE", aliases: &[] },
        Codepoint { codepoint: 0x11D91, name: "GUNJALA GONDI VOWEL SIGN AI", aliases: &[] },
        Codepoint { codepoint: 0x11D93, name: "GUNJALA GONDI VOWEL SIGN OO", aliases: &[] },
        Codepoint { codepoint: 0x11D94, name: "GUNJALA GONDI VOWEL SIGN AU", aliases: &[] },
        Codepoint { codepoint: 0x11D95, name: "GUNJALA GONDI SIGN ANUSVARA", aliases: &[] },
        Codepoint { codepoint: 0x11D96, name: "GUNJALA GONDI SIGN VISARGA", aliases: &[] },
        Codepoint { codepoint: 0x11D97, name: "GUNJALA GONDI VIRAMA", aliases: &[] },
        Codepoint { codepoint: 0x11D98, name: "GUNJALA GONDI OM", aliases: &[] },
        Codepoint { codepoint: 0x11DA0, name: "GUNJALA GONDI DIGIT ZERO", aliases: &[] },
        Codepoint { codepoint: 0x11DA1, name: "GUNJALA GONDI DIGIT ONE", aliases: &[] },
        Codepoint { codepoint: 0x11DA2, name: "GUNJALA GONDI DIGIT TWO", aliases: &[] },
        Codepoint { codepoint: 0x11DA3, name: "GUNJALA GONDI DIGIT THREE", aliases: &[] },
        Codepoint { codepoint: 0x11DA4, name: "GUNJALA GONDI DIGIT FOUR", aliases: &[] },
        Codepoint { codepoint: 0x11DA5, name: "GUNJALA GONDI DIGIT FIVE", aliases: &[] },
        Codepoint { codepoint: 0x11DA6, name: "GUNJALA GONDI DIGIT SIX", aliases: &[] },
        Codepoint { codepoint: 0x11DA7, name: "GUNJALA GONDI DIGIT SEVEN", aliases: &[] },
        Codepoint { codepoint: 0x11DA8, name: "GUNJALA GONDI DIGIT EIGHT", aliases: &[] },
    ];
    assert(v@ =~= codepoint_table_538());
    v
}

pub open spec fn codepoint_table_539() -> Seq<Codepoint> {
    seq![
        Codepoint { codepoint: 0x11DA9, name: "GUNJALA GONDI DIGIT NINE", aliases: &[] },
        Codepoint { codepoint: 0x11EE0, name: "MAKASAR LETTER KA", aliases: &[] },
        Codepoint { codepoint: 0x11EE1, name: "MAKASAR LETTER GA", aliases: &[] },
        Codepoint { codepoint: 0x11EE2, name: "MAKASAR LETTER NGA", aliases: &[] },
        Codepoint { codepoint: 0x11EE3, name: "MAKASAR LETTER PA", aliases: &[] },
        Codepoint { codepoint: 0x11EE4, name: "MAKASAR LETTER BA", aliases: &[] },
        Codepoint { codepoint: 0x11EE5, name: "MAKASAR LETTER MA", aliases: &[] },
        Codepoint { codepoint: 0x11EE6, name: "MAKASAR LETTER TA", aliases: &[] },
        Codepoint { codepoint: 0x11EE7, name: "MAKASAR LETTER DA", aliases: &[] },
        Codepoint { codepoint: 0x11EE8, name: "MAKASAR LETTER NA", aliases: &[] },
        Codepoint { codepoint: 0x11EE9, name: "MAKASAR LETTER CA", aliases: &[] },
        Codepoint { codepoint: 0x11EEA, name: "MAKASAR LETTER JA", aliases: &[] },
        Codepoint { codepoint: 0x11EEB, name: "MAKASAR LETTER NYA", aliases: &[] },
        Codepoint { codepoint: 0x11EEC, name: "MAKASAR LETTER YA", aliases: &[] },
        Codepoint { codepoint: 0x11EED, name: "MAKASAR LETTER RA", aliases: &[] },
        Codepoint { codepoint: 0x11EEE, name: "MAKASAR LETTER LA", aliases: &[] },
        Codepoint { codepoint: 0x11EEF, name: "MAKASAR LETTER VA", aliases: &[] },
        Codepoint { codepoint: 0x11EF0, name: "MAKASAR LETTER SA", aliases: &[] },
        Codepoint { codepoint: 0x11EF1, name: "MAKASAR LETTER A", aliases: &[] },
        Codepoint { codepoint: 0x11EF2, name: "MAKASAR ANGKA", aliases: &[] },
        Codepoint { codepoint: 0x11EF3, name: "MAKASAR VOWEL SIGN I", aliases: &[] },
        Codepoint { codepoint: 0x11EF4, name: "MAKASAR VOWEL SIGN U", aliases: &[] },
        Codepoint { codepoint: 0x11EF5, name: "MAKASAR VOWEL SIGN E", aliases: &[] },
        Codepoint { codepoint: 0x11EF6, name: "MAKASAR VOWEL SIGN O", aliases: &[] },
        Codepoint { codepoint: 0x11EF7, name: "MAKASAR PASSIMBANG", aliases: &[] },
        Codepoint { codepoint: 0x11EF8, name: "MAKASAR END OF SECTION", aliases: &[] },
        Codepoint { codepoint: 0x11FB0, name: "LISU LETTER YHA", aliases: &[] },
        Codepoint { codepoint: 0x11FC0, name: "TAMIL FRACTION ONE THREE-HUNDRED-AND-TWENTIETH", aliases: &[] },
        Codepoint { codepoint: 0x11FC1, name: "TAMIL FRACTION ONE ONE-HUNDRED-AND-SIXTIETH", aliases: &[] },
        Codepoint { codepoint: 0x11FC2, name: "TAMIL FRACTION ONE EIGHTIETH", aliases: &[] },
        Codepoint { codepoint: 0x11FC3, name: "TAMIL FRACTION ONE SIXTY-FOURTH", aliases: &[] },
        Codepoint { codepoint: 0x11FC4, name: "TAMIL FRACTION ONE FORTIETH", aliases: &[] },
        Codepoint { codepoint: 0x11FC5, name: "TAMIL FRACTION ONE THIRTY-SECOND", aliases: &[] },
        Codepoint { codepoint: 0x11FC6, name: "TAMIL FRACTION THREE EIGHTIETHS", aliases: &[] },
        Codepoint { codepoint: 0x11FC7, name: "TAMIL FRACTION THREE SIXTY-FOURTHS", aliases: &[] },
        Codepoint { codepoint: 0x11FC8, name: "TAMIL FRACTION ONE TWENTIETH", aliases: &[] },
        Codepoint { codepoint: 0x11FC9, name: "TAMIL FRACTION ONE SIXTEENTH-1", aliases: &[] },
        Codepoint { codepoint: 0x11FCA, name: "TAMIL FRACTION ONE SIXTEENTH-2", aliases: &[] },
        Codepoint { codepoint: 0x11FCB, name: "TAMIL FRACTION ONE TENTH", aliases: &[] },
        Codepoint { codepoint: 0x11FCC, name: "TAMIL FRACTION ONE EIGHTH", aliases: &[] },
    ]
}

fn all_codepoints_539() -> (v: Vec<Codepoint>)
    ensures
        v@ == codepoint_table_539(),
{
    let v = vec![
        Codepoint { codepoint: 0x11DA9, name: "GUNJALA GONDI DIGIT NINE", aliases: &[] },
        Codepoint { codepoint: 0x11EE0, name: "MAKASAR LETTER KA", aliases: &[] },
        Codepoint { codepoint: 0x11EE1, name: "MAKASAR LETTER GA", aliases: &[] },
        Codepoint { codepoint: 0x11EE2, name: "MAKASAR LETTER NGA", aliases: &[] },
        Codepoint { codepoint: 0x11EE3, name: "MAKASAR LETTER PA", aliases: &[] },
        Codepoint { codepoint: 0x11EE4, name: "MAKASAR LETTER BA", aliases: &[] },
        Codepoint { codepoint: 0x11EE5, name: "MAKASAR LETTER MA", aliases: &[] },
        Codepoint { codepoint: 0x11EE6, name: "MAKASAR LETTER TA", aliases: &[] },
        Codepoint { codepoint: 0x11EE7, name: "MAKASAR LETTER DA", aliases: &[] },
        Codepoint { codepoint: 0x11EE8, name: "MAKASAR LETTER NA", aliases: &[] },
        Codepoint { codepoint: 0x11EE9, name: "MAKASAR LETTER CA", aliases: &[] },
        Codepoint { codepoint: 0x11EEA, name: "MAKASAR LETTER JA", aliases: &[] },
        Codepoint { codepoint: 0x11EEB, name: "MAKASAR LETTER NYA", aliases: &[] },
        Codepoint { codepoint: 0x11EEC, name: "MAKASAR LETTER YA", aliases: &[] },
        Codepoint { codepoint: 0x11EED, name: "MAKASAR LETTER RA", aliases: &[] },
        Codepoint { codepoint: 0x11EEE, name: "MAKASAR LETTER LA", aliases: &[] },
        Codepoint { codepoint: 0x11EEF, name: "MAKASAR LETTER VA", aliases: &[] },
        Codepoint { codepoint: 0x11EF0, name: "MAKASAR LETTER SA", aliases: &[] },
        Codepoint { codepoint: 0x11EF1, name: "MAKASAR LETTER A", aliases: &[] },
        Codepoint { codepoint: 0x11EF2, name: "MAKASAR ANGKA", aliases: &[] },
        Codepoint { codepoint: 0x11EF3, name: "MAKASAR VOWEL SIGN I", aliases: &[] },
        Codepoint { codepoint: 0x11EF4, name: "MAKASAR VOWEL SIGN U", aliases: &[] },
        Codepoint { codepoint: 0x11EF5, name: "MAKASAR VOWEL SIGN E", aliases: &[] },
        Codepoint { codepoint: 0x11EF6, name: "MAKASAR VOWEL SIGN O", aliases: &[] },
        Codepoint { codepoint: 0x11EF7, name: "MAKASAR PASSIMBANG", aliases: &[] },
        Codepoint { codepoint: 0x11EF8, name: "MAKASAR END OF SECTION", aliases: &[] },
        Codepoint { codepoint: 0x11FB0, name: "LISU LETTER YHA", aliases: &[] },
        Codepoint { codepoint: 0x11FC0, name: "TAMIL FRACTION ONE THREE-HUNDRED-AND-TWENTIETH", aliases: &[] },
        Codepoint { codepoint: 0x11FC1, name: "TAMIL FRACTION ONE ONE-HUNDRED-AND-SIXTIETH", aliases: &[] },
        Codepoint { codepoint: 0x11FC2, name: "TAMIL FRACTION ONE EIGHTIETH", aliases: &[] },
        Codepoint { codepoint: 0x11FC3, name: "TAMIL FRACTION ONE SIXTY-FOURTH", aliases: &[] },
        Codepoint { codepoint: 0x11FC4, name: "TAMIL FRACTION ONE FORTIETH", aliases: &[] },
        Codepoint { codepoint: 0x11FC5, name: "TAMIL FRACTION ONE THIRTY-SECOND", aliases: &[] },
        Codepoint { codepoint: 0x11FC6, name: "TAMIL FRACTION THREE EIGHTIETHS", aliases: &[] },
        Codepoint { codepoint: 0x11FC7, name: "TAMIL FRACTION THREE SIXTY-FOURTHS", aliases: &[] },
        Codepoint { codepoint: 0x11FC8, name: "TAMIL FRACTION ONE TWENTIETH", aliases: &[] },
        Codepoint { codepoint: 0x11FC9, name: "TAMIL FRACTION ONE SIXTEENTH-1", aliases: &[] },
        Codepoint { codepoint: 0x11FCA, name: "TAMIL FRACTION ONE SIXTEENTH-2", aliases: &[] },
        Codepoint { codepoint: 0x11FCB, name: "TAMIL FRACTION ONE TENTH", aliases: &[] },
        Codepoint { codepoint: 0x11FCC, name: "TAMIL FRACTION ONE EIGHTH", aliases: &[] },
    ];
    assert(v@ =~= codepoint_table_539());
    v
}

/// The entries from position 20800 of the table, 800 at most.
pub open spec fn codepoint_group_26() -> Seq<Codepoint> {
    codepoint_table_520() + codepoint_table_521() + codepoint_table_522() + codepoint_table_523() + codepoint_table_524() + codepoint_table_525() + codepoint_table_526() + codepoint_table_527() + codepoint_table_528() + codepoint_table_529() + codepoint_table_530() + codepoint_table_531() + codepoint_table_532() + codepoint_table_533() + codepoint_table_534() + codepoint_table_535() + codepoint_table_536() + codepoint_table_537() + codepoint_table_538() + codepoint_table_539()
}

pub fn all_codepoints_group_26() -> (v: Vec<Codepoint>)
    ensures
        v@ == codepoint_group_26(),
{
    let mut v = all_codepoints_520();
    let mut part = all_codepoints_521();
    v.append(&mut part);
    let mut part = all_codepoints_522();
    v.append(&mut part);
    let mut part = all_codepoints_523();
    v.append(&mut part);
    let mut part = all_codepoints_524();
    v.append(&mut part);
    let mut part = all_codepoints_525();
    v.append(&mut part);
    let mut part = all_codepoints_526();
    v.append(&mut part);
    let mut part = all_codepoints_527();
    v.append(&mut part);
    let mut part = all_codepoints_528();
    v.append(&mut part);
    let mut part = all_codepoints_529();
    v.append(&mut part);
    let mut part = all_codepoints_530();
    v.append(&mut part);
    let mut part = all_codepoints_531();
    v.append(&mut part);
    let mut part = all_codepoints_532();
    v.append(&mut part);
    let mut part = all_codepoints_533();
    v.append(&mut part);
    let mut part = all_codepoints_534();
    v.append(&mut part);
    let mut part = all_codepoints_535();
    v.append(&mut part);
    let mut part = all_codepoints_536();
    v.append(&mut part);
    let mut part = all_codepoints_537();
    v.append(&mut part);
    let mut part = all_codepoints_538();
    v.append(&mut part);
    let mut part = all_codepoints_539();
    v.append(&mut part);
    v
}

pub open spec fn codepoint_table_540() -> Seq<Codepoint> {
    seq![
        Codepoint { codepoint: 0x11FCD, name: "TAMIL FRACTION THREE TWENTIETHS", aliases: &[] },
        Codepoint { codepoint: 0x11FCE, name: "TAMIL FRACTION THREE SIXTEENTHS", aliases: &[] },
        Codepoint { codepoint: 0x11FCF, name: "TAMIL FRACTION ONE FIFTH", aliases: &[] },
        Codepoint { codepoint: 0x11FD0, name: "TAMIL FRACTION ONE QUARTER", aliases: &[] },
        Codepoint { codepoint: 0x11FD1, name: "TAMIL FRACTION ONE HALF-1", aliases: &[] },
        Codepoint { codepoint: 0x11FD2, name: "TAMIL FRACTION ONE HALF-2", aliases: &[] },
        Codepoint { codepoint: 0x11FD3, name: "TAMIL FRACTION THREE QUARTERS", aliases: &[] },
        Codepoint { codepoint: 0x11FD4, name: "TAMIL FRACTION DOWNSCALING FACTOR KIIZH", aliases: &[] },
        Codepoint { codepoint: 0x11FD5, name: "TAMIL SIGN NEL", aliases: &[] },
        Codepoint { codepoint: 0x11FD6, name: "TAMIL SIGN CEVITU", aliases: &[] },
        Codepoint { codepoint: 0x11FD7, name: "TAMIL SIGN AAZHAAKKU", aliases: &[] },
        Codepoint { codepoint: 0x11FD8, name: "TAMIL SIGN UZHAKKU", aliases: &[] },
        Codepoint { codepoint: 0x11FD9, name: "TAMIL SIGN MUUVUZHAKKU", aliases: &[] },
        Codepoint { codepoint: 0x11FDA, name: "TAMIL SIGN KURUNI", aliases: &[] },
        Codepoint { codepoint: 0x11FDB, name: "TAMIL SIGN PATHAKKU", aliases: &[] },
        Codepoint { codepoint: 0x11FDC, name: "TAMIL SIGN MUKKURUNI", aliases: &[] },
        Codepoint { codepoint: 0x11FDD, name: "TAMIL SIGN KAACU", aliases: &[] },
        Codepoint { codepoint: 0x11FDE, name: "TAMIL SIGN PANAM", aliases: &[] },
        Codepoint { codepoint: 0x11FDF, name: "TAMIL SIGN PON", aliases: &[] },
        Codepoint { codepoint: 0x11FE0, name: "TAMIL SIGN VARAAKAN", aliases: &[] },
        Codepoint { codepoint: 0x11FE1, name: "TAMIL SIGN PAARAM", aliases: &[] },
        Codepoint { codepoint: 0x11FE2, name: "TAMIL SIGN KUZHI", aliases: &[] },
        Codepoint { codepoint: 0x11FE3, name: "TAMIL SIGN VELI", aliases: &[] },
        Codepoint { codepoint: 0x11FE4, name: "TAMIL WET CULTIVATION SIGN", aliases: &[] },
        Codepoint { codepoint: 0x11FE5, name: "TAMIL DRY CULTIVATION SIGN", aliases: &[] },
        Codepoint { codepoint: 0x11FE6, name: "TAMIL LAND SIGN", aliases: &[] },
        Codepoint { codepoint: 0x11FE7, name: "TAMIL SALT PAN SIGN", aliases: &[] },
        Codepoint { codepoint: 0x11FE8, name: "TAMIL TRADITIONAL CREDIT SIGN", aliases: &[] },
        Codepoint { codepoint: 0x11FE9, name: "TAMIL TRADITIONAL NUMBER SIGN", aliases: &[] },
        Codepoint { codepoint: 0x11FEA, name: "TAMIL CURRENT SIGN", aliases: &[] },
        Codepoint { codepoint: 0x11FEB, name: "TAMIL AND ODD SIGN", aliases: &[] },
        Codepoint { codepoint: 0x11FEC, name: "TAMIL SPENT SIGN", aliases: &[] },
        Codepoint { codepoint: 0x11FED, name: "TAMIL TOTAL SIGN", aliases: &[] },
        Codepoint { codepoint: 0x11FEE, name: "TAMIL IN POSSESSION SIGN", aliases: &[] },
        Codepoint { codepoint: 0x11FEF, name: "TAMIL STARTING FROM SIGN", aliases: &[] },
        Codepoint { codepoint: 0x11FF0, name: "TAMIL SIGN MUTHALIYA", aliases: &[] },
        Codepoint { codepoint: 0x11FF1, name: "TAMIL SIGN VAKAIYARAA", aliases: &[] },
        Codepoint { codepoint: 0x11FFF, name: "TAMIL PUNCTUATION END OF TEXT", aliases: &[] },
        Codepoint { codepoint: 0x12000, name: "CUNEIFORM SIGN A", aliases: &[] },
        Codepoint { codepoint: 0x12001, name: "CUNEIFORM SIGN A TIMES A", aliases: &[] },
    ]
}

fn all_codepoints_540() -> (v: Vec<Codepoint>)
    ensures
        v@ == codepoint_table_540(),
{
    let v = vec![
        Codepoint { codepoint: 0x11FCD, name: "TAMIL FRACTION THREE TWENTIETHS", aliases: &[] },
        Codepoint { codepoint: 0x11FCE, name: "TAMIL FRACTION THREE SIXTEENTHS", aliases: &[] },
        Codepoint { codepoint: 0x11FCF, name: "TAMIL FRACTION ONE FIFTH", aliases: &[] },
        Codepoint { codepoint: 0x11FD0, name: "TAMIL FRACTION ONE QUARTER", aliases: &[] },
        Codepoint { codepoint: 0x11FD1, name: "TAMIL FRACTION ONE HALF-1", aliases: &[] },
        Codepoint { codepoint: 0x11FD2, name: "TAMIL FRACTION ONE HALF-2", aliases: &[] },
        Codepoint { codepoint: 0x11FD3, name: "TAMIL FRACTION THREE QUARTERS", aliases: &[] },
        Codepoint { codepoint: 0x11FD4, name: "TAMIL FRACTION DOWNSCALING FACTOR KIIZH", aliases: &[] },
        Codepoint { codepoint: 0x11FD5, name: "TAMIL SIGN NEL", aliases: &[] },
        Codepoint { codepoint: 0x11FD6, name: "TAMIL SIGN CEVITU", aliases: &[] },
        Codepoint { codepoint: 0x11FD7, name: "TAMIL SIGN AAZHAAKKU", aliases: &[] },
        Codepoint { codepoint: 0x11FD8, name: "TAMIL SIGN UZHAKKU", aliases: &[] },
        Codepoint { codepoint: 0x11FD9, name: "TAMIL SIGN MUUVUZHAKKU", aliases: &[] },
        Codepoint { codepoint: 0x11FDA, name: "TAMIL SIGN KURUNI", aliases: &[] },
        Codepoint { codepoint: 0x11FDB, name: "TAMIL SIGN PATHAKKU", aliases: &[] },
        Codepoint { codepoint: 0x11FDC, name: "TAMIL SIGN MUKKURUNI", aliases: &[] },
        Codepoint { codepoint: 0x11FDD, name: "TAMIL SIGN KAACU", aliases: &[] },
        Codepoint { codepoint: 0x11FDE, name: "TAMIL SIGN PANAM", aliases: &[] },
        Codepoint { codepoint: 0x11FDF, name: "TAMIL SIGN PON", aliases: &[] },
        Codepoint { codepoint: 0x11FE0, name: "TAMIL SIGN VARAAKAN", aliases: &[] },
        Codepoint { codepoint: 0x11FE1, name: "TAMIL SIGN PAARAM", aliases: &[] },
        Codepoint { codepoint: 0x11FE2, name: "TAMIL SIGN KUZHI", aliases: &[] },
        Codepoint { codepoint: 0x11FE3, name: "TAMIL SIGN VELI", aliases: &[] },
        Codepoint { codepoint: 0x11FE4, name: "TAMIL WET CULTIVATION SIGN", aliases: &[] },
        Codepoint { codepoint: 0x11FE5, name: "TAMIL DRY CULTIVATION SIGN", aliases: &[] },
        Codepoint { codepoint: 0x11FE6, name: "TAMIL LAND SIGN", aliases: &[] },
        Codepoint { codepoint: 0x11FE7, name: "TAMIL SALT PAN SIGN", aliases: &[] },
        Codepoint { codepoint: 0x11FE8, name: "TAMIL TRADITIONAL CREDIT SIGN", aliases: &[] },
        Codepoint { codepoint: 0x11FE9, name: "TAMIL TRADITIONAL NUMBER SIGN", aliases: &[] },
        Codepoint { codepoint: 0x11FEA, name: "TAMIL CURRENT SIGN", aliases: &[] },
        Codepoint { codepoint: 0x11FEB, name: "TAMIL AND ODD SIGN", aliases: &[] },
        Codepoint { codepoint: 0x11FEC, name: "TAMIL SPENT SIGN", aliases: &[] },
        Codepoint { codepoint: 0x11FED, name: "TAMIL TOTAL SIGN", aliases: &[] },
        Codepoint { codepoint: 0x11FEE, name: "TAMIL IN POSSESSION SIGN", aliases: &[] },
        Codepoint { codepoint: 0x11FEF, name: "TAMIL STARTING FROM SIGN", aliases: &[] },
        Codepoint { codepoint: 0x11FF0, name: "TAMIL SIGN MUTHALIYA", aliases: &[] },
        Codepoint { codepoint: 0x11FF1, name: "TAMIL SIGN VAKAIYARAA", aliases: &[] },
        Codepoint { codepoint: 0x11FFF, name: "TAMIL PUNCTUATION END OF TEXT", aliases: &[] },
        Codepoint { codepoint: 0x12000, name: "CUNEIFORM SIGN A", aliases: &[] },
        Codepoint { codepoint: 0x12001, name: "CUNEIFORM SIGN A TIMES A", aliases: &[] },
    ];
    assert(v@ =~= codepoint_table_540());
    v
}

pub open spec fn codepoint_table_541() -> Seq<Codepoint> {
    seq![
        Codepoint { codepoint: 0x12002, name: "CUNEIFORM SIGN A TIMES BAD", aliases: &[] },
        Codepoint { codepoint: 0x12003, name: "CUNEIFORM SIGN A TIMES GAN2 TENU", aliases: &[] },
        Codepoint { codepoint: 0x12004, name: "CUNEIFORM SIGN A TIMES HA", aliases: &[] },
        Codepoint { codepoint: 0x12005, name: "CUNEIFORM SIGN A TIMES IGI", aliases: &[] },
        Codepoint { codepoint: 0x12006, name: "CUNEIFORM SIGN A TIMES LAGAR GUNU", aliases: &[] },
        Codepoint { codepoint: 0x12007, name: "CUNEIFORM SIGN A TIMES MUSH", aliases: &[] },
        Codepoint { codepoint: 0x12008, name: "CUNEIFORM SIGN A TIMES SAG", aliases: &[] },
        Codepoint { codepoint: 0x12009, name: "CUNEIFORM SIGN A2", aliases: &[] },
        Codepoint { codepoint: 0x1200A, name: "CUNEIFORM SIGN AB", aliases: &[] },
        Codepoint { codepoint: 0x1200B, name: "CUNEIFORM SIGN AB TIMES ASH2", aliases: &[] },
        Codepoint { codepoint: 0x1200C, name: "CUNEIFORM SIGN AB TIMES DUN3 GUNU", aliases: &[] },
        Codepoint { codepoint: 0x1200D, name: "CUNEIFORM SIGN AB TIMES GAL", aliases: &[] },
        Codepoint { codepoint: 0x1200E, name: "CUNEIFORM SIGN AB TIMES GAN2 TENU", aliases: &[] },
        Codepoint { codepoint: 0x1200F, name: "CUNEIFORM SIGN AB TIMES HA", aliases: &[] },
        Codepoint { codepoint: 0x12010, name: "CUNEIFORM SIGN AB TIMES IGI GUNU", aliases: &[] },
        Codepoint { codepoint: 0x12011, name: "CUNEIFORM SIGN AB TIMES IMIN", aliases: &[] },
        Codepoint { codepoint: 0x12012, name: "CUNEIFORM SIGN AB TIMES LAGAB", aliases: &[] },
        Codepoint { codepoint: 0x12013, name: "CUNEIFORM SIGN AB TIMES SHESH", aliases: &[] },
        Codepoint { codepoint: 0x12014, name: "CUNEIFORM SIGN AB TIMES U PLUS U PLUS U", aliases: &[] },
        Codepoint { codepoint: 0x12015, name: "CUNEIFORM SIGN AB GUNU", aliases: &[] },
        Codepoint { codepoint: 0x12016, name: "CUNEIFORM SIGN AB2", aliases: &[] },
        Codepoint { codepoint: 0x12017, name: "CUNEIFORM SIGN AB2 TIMES BALAG", aliases: &[] },
        Codepoint { codepoint: 0x12018, name: "CUNEIFORM SIGN AB2 TIMES GAN2 TENU", aliases: &[] },
        Codepoint { codepoint: 0x12019, name: "CUNEIFORM SIGN AB2 TIMES ME PLUS EN", aliases: &[] },
        Codepoint { codepoint: 0x1201A, name: "CUNEIFORM SIGN AB2 TIMES SHA3", aliases: &[] },
        Codepoint { codepoint: 0x1201B, name: "CUNEIFORM SIGN AB2 TIMES TAK4", aliases: &[] },
        Codepoint { codepoint: 0x1201C, name: "CUNEIFORM SIGN AD", aliases: &[] },
        Codepoint { codepoint: 0x1201D, name: "CUNEIFORM SIGN AK", aliases: &[] },
        Codepoint { codepoint: 0x1201E, name: "CUNEIFORM SIGN AK TIMES ERIN2", aliases: &[] },
        Codepoint { codepoint: 0x1201F, name: "CUNEIFORM SIGN AK TIMES SHITA PLUS GISH", aliases: &[] },
        Codepoint { codepoint: 0x12020, name: "CUNEIFORM SIGN AL", aliases: &[] },
        Codepoint { codepoint: 0x12021, name: "CUNEIFORM SIGN AL TIMES AL", aliases: &[] },
        Codepoint { codepoint: 0x12022, name: "CUNEIFORM SIGN AL TIMES DIM2", aliases: &[] },
        Codepoint { codepoint: 0x12023, name: "CUNEIFORM SIGN AL TIMES GISH", aliases: &[] },
        Codepoint { codepoint: 0x12024, name: "CUNEIFORM SIGN AL TIMES HA", aliases: &[] },
        Codepoint { codepoint: 0x12025, name: "CUNEIFORM SIGN AL TIMES KAD3", aliases: &[] },
        Codepoint { codepoint: 0x12026, name: "CUNEIFORM SIGN AL TIMES KI", aliases: &[] },
        Codepoint { codepoint: 0x12027, name: "CUNEIFORM SIGN AL TIMES SHE", aliases: &[] },
        Codepoint { codepoint: 0x12028, name: "CUNEIFORM SIGN AL TIMES USH", aliases: &[] },
        Codepoint { codepoint: 0x12029, name: "CUNEIFORM SIGN ALAN", aliases: &[] },
    ]
}

fn all_codepoints_541() -> (v: Vec<Codepoint>)
    ensures
        v@ == codepoint_table_541(),
{
    let v = vec![
        Codepoint { codepoint: 0x12002, name: "CUNEIFORM SIGN A TIMES BAD", aliases: &[] },
        Codepoint { codepoint: 0x12003, name: "CUNEIFORM SIGN A TIMES GAN2 TENU", aliases: &[] },
        Codepoint { codepoint: 0x12004, name: "CUNEIFORM SIGN A TIMES HA", aliases: &[] },
        Codepoint { codepoint: 0x12005, name: "CUNEIFORM SIGN A TIMES IGI", aliases: &[] },
        Codepoint { codepoint: 0x12006, name: "CUNEIFORM SIGN A TIMES LAGAR GUNU", aliases: &[] },
        Codepoint { codepoint: 0x12007, name: "CUNEIFORM SIGN A TIMES MUSH", aliases: &[] },
        Codepoint { codepoint: 0x12008, name: "CUNEIFORM SIGN A TIMES SAG", aliases: &[] },
        Codepoint { codepoint: 0x12009, name: "CUNEIFORM SIGN A2", aliases: &[] },
        Codepoint { codepoint: 0x1200A, name: "CUNEIFORM SIGN AB", aliases: &[] },
        Codepoint { codepoint: 0x1200B, name: "CUNEIFORM SIGN AB TIMES ASH2", aliases: &[] },
        Codepoint { codepoint: 0x1200C, name: "CUNEIFORM SIGN AB TIMES DUN3 GUNU", aliases: &[] },
        Codepoint { codepoint: 0x1200D, name: "CUNEIFORM SIGN AB TIMES GAL", aliases: &[] },
        Codepoint { codepoint: 0x1200E, name: "CUNEIFORM SIGN AB TIMES GAN2 TENU", aliases: &[] },
        Codepoint { codepoint: 0x1200F, name: "CUNEIFORM SIGN AB TIMES HA", aliases: &[] },
        Codepoint { codepoint: 0x12010, name: "CUNEIFORM SIGN AB TIMES IGI GUNU", aliases: &[] },
        Codepoint { codepoint: 0x12011, name: "CUNEIFORM SIGN AB TIMES IMIN", aliases: &[] },
        Codepoint { codepoint: 0x12012, name: "CUNEIFORM SIGN AB TIMES LAGAB", aliases: &[] },
        Codepoint { codepoint: 0x12013, name: "CUNEIFORM SIGN AB TIMES SHESH", aliases: &[] },
        Codepoint { codepoint: 0x12014, name: "CUNEIFORM SIGN AB TIMES U PLUS U PLUS U", aliases: &[] },
        Codepoint { codepoint: 0x12015, name: "CUNEIFORM SIGN AB GUNU", aliases: &[] },
        Codepoint { codepoint: 0x12016, name: "CUNEIFORM SIGN AB2", aliases: &[] },
        Codepoint { codepoint: 0x12017, name: "CUNEIFORM SIGN AB2 TIMES BALAG", aliases: &[] },
        Codepoint { codepoint: 0x12018, name: "CUNEIFORM SIGN AB2 TIMES GAN2 TENU", aliases: &[] },
        Codepoint { codepoint: 0x12019, name: "CUNEIFORM SIGN AB2 TIMES ME PLUS EN", aliases: &[] },
        Codepoint { codepoint: 0x1201A, name: "CUNEIFORM SIGN AB2 TIMES SHA3", aliases: &[] },
        Codepoint { codepoint: 0x1201B, name: "CUNEIFORM SIGN AB2 TIMES TAK4", aliases: &[] },
        Codepoint { codepoint: 0x1201C, name: "CUNEIFORM SIGN AD", aliases: &[] },
        Codepoint { codepoint: 0x1201D, name: "CUNEIFORM SIGN AK", aliases: &[] },
        Codepoint { codepoint: 0x1201E, name: "CUNEIFORM SIGN AK TIMES ERIN2", aliases: &[] },
        Codepoint { codepoint: 0x1201F, name: "CUNEIFORM SIGN AK TIMES SHITA PLUS GISH", aliases: &[] },
        Codepoint { codepoint: 0x12020, name: "CUNEIFORM SIGN AL", aliases: &[] },
        Codepoint { codepoint: 0x12021, name: "CUNEIFORM SIGN AL TIMES AL", aliases: &[] },
        Codepoint { codepoint: 0x12022, name: "CUNEIFORM SIGN AL TIMES DIM2", aliases: &[] },
        Codepoint { codepoint: 0x12023, name: "CUNEIFORM SIGN AL TIMES GISH", aliases: &[] },
        Codepoint { codepoint: 0x12024, name: "CUNEIFORM SIGN AL TIMES HA", aliases: &[] },
        Codepoint { codepoint: 0x12025, name: "CUNEIFORM SIGN AL TIMES KAD3", aliases: &[] },
        Codepoint { codepoint: 0x12026, name: "CUNEIFORM SIGN AL TIMES KI", aliases: &[] },
        Codepoint { codepoint: 0x12027, name: "CUNEIFORM SIGN AL TIMES SHE", aliases: &[] },
        Codepoint { codepoint: 0x12028, name: "CUNEIFORM SIGN AL TIMES USH", aliases: &[] },
        Codepoint { codepoint: 0x12029, name: "CUNEIFORM SIGN ALAN", aliases: &[] },
    ];
    assert(v@ =~= codepoint_table_541());
    v
}

pub open spec fn codepoint_table_542() -> Seq<Codepoint> {
    seq![
        Codepoint { codepoint: 0x1202A, name: "CUNEIFORM SIGN ALEPH", aliases: &[] },
        Codepoint { codepoint: 0x1202B, name: "CUNEIFORM SIGN AMAR", aliases: &[] },
        Codepoint { codepoint: 0x1202C, name: "CUNEIFORM SIGN AMAR TIMES SHE", aliases: &[] },
        Codepoint { codepoint: 0x1202D, name: "CUNEIFORM SIGN AN", aliases: &[] },
        Codepoint { codepoint: 0x1202E, name: "CUNEIFORM SIGN AN OVER AN", aliases: &[] },
        Codepoint { codepoint: 0x1202F, name: "CUNEIFORM SIGN AN THREE TIMES", aliases: &[] },
        Codepoint { codepoint: 0x12030, name: "CUNEIFORM SIGN AN PLUS NAGA OPPOSING AN PLUS NAGA", aliases: &[] },
        Codepoint { codepoint: 0x12031, name: "CUNEIFORM SIGN AN PLUS NAGA SQUARED", aliases: &[] },
        Codepoint { codepoint: 0x12032, name: "CUNEIFORM SIGN ANSHE", aliases: &[] },
        Codepoint { codepoint: 0x12033, name: "CUNEIFORM SIGN APIN", aliases: &[] },
        Codepoint { codepoint: 0x12034, name: "CUNEIFORM SIGN ARAD", aliases: &[] },
        Codepoint { codepoint: 0x12035, name: "CUNEIFORM SIGN ARAD TIMES KUR", aliases: &[] },
        Codepoint { codepoint: 0x12036, name: "CUNEIFORM SIGN ARKAB", aliases: &[] },
        Codepoint { codepoint: 0x12037, name: "CUNEIFORM SIGN ASAL2", aliases: &[] },
        Codepoint { codepoint: 0x12038, name: "CUNEIFORM SIGN ASH", aliases: &[] },
        Codepoint { codepoint: 0x12039, name: "CUNEIFORM SIGN ASH ZIDA TENU", aliases: &[] },
        Codepoint { codepoint: 0x1203A, name: "CUNEIFORM SIGN ASH KABA TENU", aliases: &[] },
        Codepoint { codepoint: 0x1203B, name: "CUNEIFORM SIGN ASH OVER ASH TUG2 OVER TUG2 TUG2 OVER TUG2 PAP", aliases: &[] },
        Codepoint { codepoint: 0x1203C, name: "CUNEIFORM SIGN ASH OVER ASH OVER ASH", aliases: &[] },
        Codepoint { codepoint: 0x1203D, name: "CUNEIFORM SIGN ASH OVER ASH OVER ASH CROSSING ASH OVER ASH OVER ASH", aliases: &[] },
        Codepoint { codepoint: 0x1203E, name: "CUNEIFORM SIGN ASH2", aliases: &[] },
        Codepoint { codepoint: 0x1203F, name: "CUNEIFORM SIGN ASHGAB", aliases: &[] },
        Codepoint { codepoint: 0x12040, name: "CUNEIFORM SIGN BA", aliases: &[] },
        Codepoint { codepoint: 0x12041, name: "CUNEIFORM SIGN BAD", aliases: &[] },
        Codepoint { codepoint: 0x12042, name: "CUNEIFORM SIGN BAG3", aliases: &[] },
        Codepoint { codepoint: 0x12043, name: "CUNEIFORM SIGN BAHAR2", aliases: &[] },
        Codepoint { codepoint: 0x12044, name: "CUNEIFORM SIGN BAL", aliases: &[] },
        Codepoint { codepoint: 0x12045, name: "CUNEIFORM SIGN BAL OVER BAL", aliases: &[] },
        Codepoint { codepoint: 0x12046, name: "CUNEIFORM SIGN BALAG", aliases: &[] },
        Codepoint { codepoint: 0x12047, name: "CUNEIFORM SIGN BAR", aliases: &[] },
        Codepoint { codepoint: 0x12048, name: "CUNEIFORM SIGN BARA2", aliases: &[] },
        Codepoint { codepoint: 0x12049, name: "CUNEIFORM SIGN BI", aliases: &[] },
        Codepoint { codepoint: 0x1204A, name: "CUNEIFORM SIGN BI TIMES A", aliases: &[] },
        Codepoint { codepoint: 0x1204B, name: "CUNEIFORM SIGN BI TIMES GAR", aliases: &[] },
        Codepoint { codepoint: 0x1204C, name: "CUNEIFORM SIGN BI TIMES IGI GUNU", aliases: &[] },
        Codepoint { codepoint: 0x1204D, name: "CUNEIFORM SIGN BU", aliases: &[] },
        Codepoint { codepoint: 0x1204E, name: "CUNEIFORM SIGN BU OVER BU AB", aliases: &[] },
        Codepoint { codepoint: 0x1204F, name: "CUNEIFORM SIGN BU OVER BU UN", aliases: &[] },
        Codepoint { codepoint: 0x12050, name: "CUNEIFORM SIGN BU CROSSING BU", aliases: &[] },
        Codepoint { codepoint: 0x12051, name: "CUNEIFORM SIGN BULUG", aliases: &[] },
    ]
}

fn all_codepoints_542() -> (v: Vec<Codepoint>)
    ensures
        v@ == codepoint_table_542(),
{
    let v = vec![
        Codepoint { codepoint: 0x1202A, name: "CUNEIFORM SIGN ALEPH", aliases: &[] },
        Codepoint { codepoint: 0x1202B, name: "CUNEIFORM SIGN AMAR", aliases: &[] },
        Codepoint { codepoint: 0x1202C, name: "CUNEIFORM SIGN AMAR TIMES SHE", aliases: &[] },
        Codepoint { codepoint: 0x1202D, name: "CUNEIFORM SIGN AN", aliases: &[] },
        Codepoint { codepoint: 0x1202E, name: "CUNEIFORM SIGN AN OVER AN", aliases: &[] },
        Codepoint { codepoint: 0x1202F, name: "CUNEIFORM SIGN AN THREE TIMES", aliases: &[] },
        Codepoint { codepoint: 0x12030, name: "CUNEIFORM SIGN AN PLUS NAGA OPPOSING AN PLUS NAGA", aliases: &[] },
        Codepoint { codepoint: 0x12031, name: "CUNEIFORM SIGN AN PLUS NAGA SQUARED", aliases: &[] },
        Codepoint { codepoint: 0x12032, name: "CUNEIFORM SIGN ANSHE", aliases: &[] },
        Codepoint { codepoint: 0x12033, name: "CUNEIFORM SIGN APIN", aliases: &[] },
        Codepoint { codepoint: 0x12034, name: "CUNEIFORM SIGN ARAD", aliases: &[] },
        Codepoint { codepoint: 0x12035, name: "CUNEIFORM SIGN ARAD TIMES KUR", aliases: &[] },
        Codepoint { codepoint: 0x12036, name: "CUNEIFORM SIGN ARKAB", aliases: &[] },
        Codepoint { codepoint: 0x12037, name: "CUNEIFORM SIGN ASAL2", aliases: &[] },
        Codepoint { codepoint: 0x12038, name: "CUNEIFORM SIGN ASH", aliases: &[] },
        Codepoint { codepoint: 0x12039, name: "CUNEIFORM SIGN ASH ZIDA TENU", aliases: &[] },
        Codepoint { codepoint: 0x1203A, name: "CUNEIFORM SIGN ASH KABA TENU", aliases: &[] },
        Codepoint { codepoint: 0x1203B, name: "CUNEIFORM SIGN ASH OVER ASH TUG2 OVER TUG2 TUG2 OVER TUG2 PAP", aliases: &[] },
        Codepoint { codepoint: 0x1203C, name: "CUNEIFORM SIGN ASH OVER ASH OVER ASH", aliases: &[] },
        Codepoint { codepoint: 0x1203D, name: "CUNEIFORM SIGN ASH OVER ASH OVER ASH CROSSING ASH OVER ASH OVER ASH", aliases: &[] },
        Codepoint { codepoint: 0x1203E, name: "CUNEIFORM SIGN ASH2", aliases: &[] },
        Codepoint { codepoint: 0x1203F, name: "CUNEIFORM SIGN ASHGAB", aliases: &[] },
        Codepoint { codepoint: 0x12040, name: "CUNEIFORM SIGN BA", aliases: &[] },
        Codepoint { codepoint: 0x12041, name: "CUNEIFORM SIGN BAD", aliases: &[] },
        Codepoint { codepoint: 0x12042, name: "CUNEIFORM SIGN BAG3", aliases: &[] },
        Codepoint { codepoint: 0x12043, name: "CUNEIFORM SIGN BAHAR2", aliases: &[] },
        Codepoint { codepoint: 0x12044, name: "CUNEIFORM SIGN BAL", aliases: &[] },
        Codepoint { codepoint: 0x12045, name: "CUNEIFORM SIGN BAL OVER BAL", aliases: &[] },
        Codepoint { codepoint: 0x12046, name: "CUNEIFORM SIGN BALAG", aliases: &[] },
        Codepoint { codepoint: 0x12047, name: "CUNEIFORM SIGN BAR", aliases: &[] },
        Codepoint { codepoint: 0x12048, name: "CUNEIFORM SIGN BARA2", aliases: &[] },
        Codepoint { codepoint: 0x12049, name: "CUNEIFORM SIGN BI", aliases: &[] },
        Codepoint { codepoint: 0x1204A, name: "CUNEIFORM SIGN BI TIMES A", aliases: &[] },
        Codepoint { codepoint: 0x1204B, name: "CUNEIFORM SIGN BI TIMES GAR", aliases: &[] },
        Codepoint { codepoint: 0x1204C, name: "CUNEIFORM SIGN BI TIMES IGI GUNU", aliases: &[] },
        Codepoint { codepoint: 0x1204D, name: "CUNEIFORM SIGN BU", aliases: &[] },
        Codepoint { codepoint: 0x1204E, name: "CUNEIFORM SIGN BU OVER BU AB", aliases: &[] },
        Codepoint { codepoint: 0x1204F, name: "CUNEIFORM SIGN BU OVER BU UN", aliases: &[] },
        Codepoint { codepoint: 0x12050, name: "CUNEIFORM SIGN BU CROSSING BU", aliases: &[] },
        Codepoint { codepoint: 0x12051, name: "CUNEIFORM SIGN BULUG", aliases: &[] },
    ];
    assert(v@ =~= codepoint_table_542());
    v
}

pub open spec fn codepoint_table_543() -> Seq<Codepoint> {
    seq![
        Codepoint { codepoint: 0x12052, name: "CUNEIFORM SIGN BULUG OVER BULUG", aliases: &[] },
        Codepoint { codepoint: 0x12053, name: "CUNEIFORM SIGN BUR", aliases: &[] },
        Codepoint { codepoint: 0x12054, name: "CUNEIFORM SIGN BUR2", aliases: &[] },
        Codepoint { codepoint: 0x12055, name: "CUNEIFORM SIGN DA", aliases: &[] },
        Codepoint { codepoint: 0x12056, name: "CUNEIFORM SIGN DAG", aliases: &[] },
        Codepoint { codepoint: 0x12057, name: "CUNEIFORM SIGN DAG KISIM5 TIMES A PLUS MASH", aliases: &[] },
        Codepoint { codepoint: 0x12058, name: "CUNEIFORM SIGN DAG KISIM5 TIMES AMAR", aliases: &[] },
        Codepoint { codepoint: 0x12059, name: "CUNEIFORM SIGN DAG KISIM5 TIMES BALAG", aliases: &[] },
        Codepoint { codepoint: 0x1205A, name: "CUNEIFORM SIGN DAG KISIM5 TIMES BI", aliases: &[] },
        Codepoint { codepoint: 0x1205B, name: "CUNEIFORM SIGN DAG KISIM5 TIMES GA", aliases: &[] },
        Codepoint { codepoint: 0x1205C, name: "CUNEIFORM SIGN DAG KISIM5 TIMES GA PLUS MASH", aliases: &[] },
        Codepoint { codepoint: 0x1205D, name: "CUNEIFORM SIGN DAG KISIM5 TIMES GI", aliases: &[] },
        Codepoint { codepoint: 0x1205E, name: "CUNEIFORM SIGN DAG KISIM5 TIMES GIR2", aliases: &[] },
        Codepoint { codepoint: 0x1205F, name: "CUNEIFORM SIGN DAG KISIM5 TIMES GUD", aliases: &[] },
        Codepoint { codepoint: 0x12060, name: "CUNEIFORM SIGN DAG KISIM5 TIMES HA", aliases: &[] },
        Codepoint { codepoint: 0x12061, name: "CUNEIFORM SIGN DAG KISIM5 TIMES IR", aliases: &[] },
        Codepoint { codepoint: 0x12062, name: "CUNEIFORM SIGN DAG KISIM5 TIMES IR PLUS LU", aliases: &[] },
        Codepoint { codepoint: 0x12063, name: "CUNEIFORM SIGN DAG KISIM5 TIMES KAK", aliases: &[] },
        Codepoint { codepoint: 0x12064, name: "CUNEIFORM SIGN DAG KISIM5 TIMES LA", aliases: &[] },
        Codepoint { codepoint: 0x12065, name: "CUNEIFORM SIGN DAG KISIM5 TIMES LU", aliases: &[] },
        Codepoint { codepoint: 0x12066, name: "CUNEIFORM SIGN DAG KISIM5 TIMES LU PLUS MASH2", aliases: &[] },
        Codepoint { codepoint: 0x12067, name: "CUNEIFORM SIGN DAG KISIM5 TIMES LUM", aliases: &[] },
        Codepoint { codepoint: 0x12068, name: "CUNEIFORM SIGN DAG KISIM5 TIMES NE", aliases: &[] },
        Codepoint { codepoint: 0x12069, name: "CUNEIFORM SIGN DAG KISIM5 TIMES PAP PLUS PAP", aliases: &[] },
        Codepoint { codepoint: 0x1206A, name: "CUNEIFORM SIGN DAG KISIM5 TIMES SI", aliases: &[] },
        Codepoint { codepoint: 0x1206B, name: "CUNEIFORM SIGN DAG KISIM5 TIMES TAK4", aliases: &[] },
        Codepoint { codepoint: 0x1206C, name: "CUNEIFORM SIGN DAG KISIM5 TIMES U2 PLUS GIR2", aliases: &[] },
        Codepoint { codepoint: 0x1206D, name: "CUNEIFORM SIGN DAG KISIM5 TIMES USH", aliases: &[] },
        Codepoint { codepoint: 0x1206E, name: "CUNEIFORM SIGN DAM", aliases: &[] },
        Codepoint { codepoint: 0x1206F, name: "CUNEIFORM SIGN DAR", aliases: &[] },
        Codepoint { codepoint: 0x12070, name: "CUNEIFORM SIGN DARA3", aliases: &[] },
        Codepoint { codepoint: 0x12071, name: "CUNEIFORM SIGN DARA4", aliases: &[] },
        Codepoint { codepoint: 0x12072, name: "CUNEIFORM SIGN DI", aliases: &[] },
        Codepoint { codepoint: 0x12073, name: "CUNEIFORM SIGN DIB", aliases: &[] },
        Codepoint { codepoint: 0x12074, name: "CUNEIFORM SIGN DIM", aliases: &[] },
        Codepoint { codepoint: 0x12075, name: "CUNEIFORM SIGN DIM TIMES SHE", aliases: &[] },
        Codepoint { codepoint: 0x12076, name: "CUNEIFORM SIGN DIM2", aliases: &[] },
        Codepoint { codepoint: 0x12077, name: "CUNEIFORM SIGN DIN", aliases: &[] },
        Codepoint { codepoint: 0x12078, name: "CUNEIFORM SIGN DIN KASKAL U GUNU DISH", aliases: &[] },
        Codepoint { codepoint: 0x12079, name: "CUNEIFORM SIGN DISH", aliases: &[] },
    ]
}

fn all_codepoints_543() -> (v: Vec<Codepoint>)
    ensures
        v@ == codepoint_table_543(),
{
    let v = vec![
        Codepoint { codepoint: 0x12052, name: "CUNEIFORM SIGN BULUG OVER BULUG", aliases: &[] },
        Codepoint { codepoint: 0x12053, name: "CUNEIFORM SIGN BUR", aliases: &[] },
        Codepoint { codepoint: 0x12054, name: "CUNEIFORM SIGN BUR2", aliases: &[] },
        Codepoint { codepoint: 0x12055, name: "CUNEIFORM SIGN DA", aliases: &[] },
        Codepoint { codepoint: 0x12056, name: "CUNEIFORM SIGN DAG", aliases: &[] },
        Codepoint { codepoint: 0x12057, name: "CUNEIFORM SIGN DAG KISIM5 TIMES A PLUS MASH", aliases: &[] },
        Codepoint { codepoint: 0x12058, name: "CUNEIFORM SIGN DAG KISIM5 TIMES AMAR", aliases: &[] },
        Codepoint { codepoint: 0x12059, name: "CUNEIFORM SIGN DAG KISIM5 TIMES BALAG", aliases: &[] },
        Codepoint { codepoint: 0x1205A, name: "CUNEIFORM SIGN DAG KISIM5 TIMES BI", aliases: &[] },
        Codepoint { codepoint: 0x1205B, name: "CUNEIFORM SIGN DAG KISIM5 TIMES GA", aliases: &[] },
        Codepoint { codepoint: 0x1205C, name: "CUNEIFORM SIGN DAG KISIM5 TIMES GA PLUS MASH", aliases: &[] },
        Codepoint { codepoint: 0x1205D, name: "CUNEIFORM SIGN DAG KISIM5 TIMES GI", aliases: &[] },
        Codepoint { codepoint: 0x1205E, name: "CUNEIFORM SIGN DAG KISIM5 TIMES GIR2", aliases: &[] },
        Codepoint { codepoint: 0x1205F, name: "CUNEIFORM SIGN DAG KISIM5 TIMES GUD", aliases: &[] },
        Codepoint { codepoint: 0x12060, name: "CUNEIFORM SIGN DAG KISIM5 TIMES HA", aliases: &[] },
        Codepoint { codepoint: 0x12061, name: "CUNEIFORM SIGN DAG KISIM5 TIMES IR", aliases: &[] },
        Codepoint { codepoint: 0x12062, name: "CUNEIFORM SIGN DAG KISIM5 TIMES IR PLUS LU", aliases: &[] },
        Codepoint { codepoint: 0x12063, name: "CUNEIFORM SIGN DAG KISIM5 TIMES KAK", aliases: &[] },
        Codepoint { codepoint: 0x12064, name: "CUNEIFORM SIGN DAG KISIM5 TIMES LA", aliases: &[] },
        Codepoint { codepoint: 0x12065, name: "CUNEIFORM SIGN DAG KISIM5 TIMES LU", aliases: &[] },
        Codepoint { codepoint: 0x12066, name: "CUNEIFORM SIGN DAG KISIM5 TIMES LU PLUS MASH2", aliases: &[] },
        Codepoint { codepoint: 0x12067, name: "CUNEIFORM SIGN DAG KISIM5 TIMES LUM", aliases: &[] },
        Codepoint { codepoint: 0x12068, name: "CUNEIFORM SIGN DAG KISIM5 TIMES NE", aliases: &[] },
        Codepoint { codepoint: 0x12069, name: "CUNEIFORM SIGN DAG KISIM5 TIMES PAP PLUS PAP", aliases: &[] },
        Codepoint { codepoint: 0x1206A, name: "CUNEIFORM SIGN DAG KISIM5 TIMES SI", aliases: &[] },
        Codepoint { codepoint: 0x1206B, name: "CUNEIFORM SIGN DAG KISIM5 TIMES TAK4", aliases: &[] },
        Codepoint { codepoint: 0x1206C, name: "CUNEIFORM SIGN DAG KISIM5 TIMES U2 PLUS GIR2", aliases: &[] },
        Codepoint { codepoint: 0x1206D, name: "CUNEIFORM SIGN DAG KISIM5 TIMES USH", aliases: &[] },
        Codepoint { codepoint: 0x1206E, name: "CUNEIFORM SIGN DAM", aliases: &[] },
        Codepoint { codepoint: 0x1206F, name: "CUNEIFORM SIGN DAR", aliases: &[] },
        Codepoint { codepoint: 0x12070, name: "CUNEIFORM SIGN DARA3", aliases: &[] },
        Codepoint { codepoint: 0x12071, name: "CUNEIFORM SIGN DARA4", aliases: &[] },
        Codepoint { codepoint: 0x12072, name: "CUNEIFORM SIGN DI", aliases: &[] },
        Codepoint { codepoint: 0x12073, name: "CUNEIFORM SIGN DIB", aliases: &[] },
        Codepoint { codepoint: 0x12074, name: "CUNEIFORM SIGN DIM", aliases: &[] },
        Codepoint { codepoint: 0x12075, name: "CUNEIFORM SIGN DIM TIMES SHE", aliases: &[] },
        Codepoint { codepoint: 0x12076, name: "CUNEIFORM SIGN DIM2", aliases: &[] },
        Codepoint { codepoint: 0x12077, name: "CUNEIFORM SIGN DIN", aliases: &[] },
        Codepoint { codepoint: 0x12078, name: "CUNEIFORM SIGN DIN KASKAL U GUNU DISH", aliases: &[] },
        Codepoint { codepoint: 0x12079, name: "CUNEIFORM SIGN DISH", aliases: &[] },
    ];
    assert(v@ =~= codepoint_table_543());
    v
}

pub open spec fn codepoint_table_544() -> Seq<Codepoint> {
    seq![
        Codepoint { codepoint: 0x1207A, name: "CUNEIFORM SIGN DU", aliases: &[] },
        Codepoint { codepoint: 0x1207B, name: "CUNEIFORM SIGN DU OVER DU", aliases: &[] },
        Codepoint { codepoint: 0x1207C, name: "CUNEIFORM SIGN DU GUNU", aliases: &[] },
        Codepoint { codepoint: 0x1207D, name: "CUNEIFORM SIGN DU SHESHIG", aliases: &[] },
        Codepoint { codepoint: 0x1207E, name: "CUNEIFORM SIGN DUB", aliases: &[] },
        Codepoint { codepoint: 0x1207F, name: "CUNEIFORM SIGN DUB TIMES ESH2", aliases: &[] },
        Codepoint { codepoint: 0x12080, name: "CUNEIFORM SIGN DUB2", aliases: &[] },
        Codepoint { codepoint: 0x12081, name: "CUNEIFORM SIGN DUG", aliases: &[] },
        Codepoint { codepoint: 0x12082, name: "CUNEIFORM SIGN DUGUD", aliases: &[] },
        Codepoint { codepoint: 0x12083, name: "CUNEIFORM SIGN DUH", aliases: &[] },
        Codepoint { codepoint: 0x12084, name: "CUNEIFORM SIGN DUN", aliases: &[] },
        Codepoint { codepoint: 0x12085, name: "CUNEIFORM SIGN DUN3", aliases: &[] },
        Codepoint { codepoint: 0x12086, name: "CUNEIFORM SIGN DUN3 GUNU", aliases: &[] },
        Codepoint { codepoint: 0x12087, name: "CUNEIFORM SIGN DUN3 GUNU GUNU", aliases: &[] },
        Codepoint { codepoint: 0x12088, name: "CUNEIFORM SIGN DUN4", aliases: &[] },
        Codepoint { codepoint: 0x12089, name: "CUNEIFORM SIGN DUR2", aliases: &[] },
        Codepoint { codepoint: 0x1208A, name: "CUNEIFORM SIGN E", aliases: &[] },
        Codepoint { codepoint: 0x1208B, name: "CUNEIFORM SIGN E TIMES PAP", aliases: &[] },
        Codepoint { codepoint: 0x1208C, name: "CUNEIFORM SIGN E OVER E NUN OVER NUN", aliases: &[] },
        Codepoint { codepoint: 0x1208D, name: "CUNEIFORM SIGN E2", aliases: &[] },
        Codepoint { codepoint: 0x1208E, name: "CUNEIFORM SIGN E2 TIMES A PLUS HA PLUS DA", aliases: &[] },
        Codepoint { codepoint: 0x1208F, name: "CUNEIFORM SIGN E2 TIMES GAR", aliases: &[] },
        Codepoint { codepoint: 0x12090, name: "CUNEIFORM SIGN E2 TIMES MI", aliases: &[] },
        Codepoint { codepoint: 0x12091, name: "CUNEIFORM SIGN E2 TIMES SAL", aliases: &[] },
        Codepoint { codepoint: 0x12092, name: "CUNEIFORM SIGN E2 TIMES SHE", aliases: &[] },
        Codepoint { codepoint: 0x12093, name: "CUNEIFORM SIGN E2 TIMES U", aliases: &[] },
        Codepoint { codepoint: 0x12094, name: "CUNEIFORM SIGN EDIN", aliases: &[] },
        Codepoint { codepoint: 0x12095, name: "CUNEIFORM SIGN EGIR", aliases: &[] },
        Codepoint { codepoint: 0x12096, name: "CUNEIFORM SIGN EL", aliases: &[] },
        Codepoint { codepoint: 0x12097, name: "CUNEIFORM SIGN EN", aliases: &[] },
        Codepoint { codepoint: 0x12098, name: "CUNEIFORM SIGN EN TIMES GAN2", aliases: &[] },
        Codepoint { codepoint: 0x12099, name: "CUNEIFORM SIGN EN TIMES GAN2 TENU", aliases: &[] },
        Codepoint { codepoint: 0x1209A, name: "CUNEIFORM SIGN EN TIMES ME", aliases: &[] },
        Codepoint { codepoint: 0x1209B, name: "CUNEIFORM SIGN EN CROSSING EN", aliases: &[] },
        Codepoint { codepoint: 0x1209C, name: "CUNEIFORM SIGN EN OPPOSING EN", aliases: &[] },
        Codepoint { codepoint: 0x1209D, name: "CUNEIFORM SIGN EN SQUARED", aliases: &[] },
        Codepoint { codepoint: 0x1209E, name: "CUNEIFORM SIGN EREN", aliases: &[] },
        Codepoint { codepoint: 0x1209F, name: "CUNEIFORM SIGN ERIN2", aliases: &[] },
        Codepoint { codepoint: 0x120A0, name: "CUNEIFORM SIGN ESH2", aliases: &[] },
        Codepoint { codepoint: 0x120A1, name: "CUNEIFORM SIGN EZEN", aliases: &[] },
    ]
}

fn all_codepoints_544() -> (v: Vec<Codepoint>)
    ensures
        v@ == codepoint_table_544(),
{
    let v = vec![
        Codepoint { codepoint: 0x1207A, name: "CUNEIFORM SIGN DU", aliases: &[] },
        Codepoint { codepoint: 0x1207B, name: "CUNEIFORM SIGN DU OVER DU", aliases: &[] },
        Codepoint { codepoint: 0x1207C, name: "CUNEIFORM SIGN DU GUNU", aliases: &[] },
        Codepoint { codepoint: 0x1207D, name: "CUNEIFORM SIGN DU SHESHIG", aliases: &[] },
        Codepoint { codepoint: 0x1207E, name: "CUNEIFORM SIGN DUB", aliases: &[] },
        Codepoint { codepoint: 0x1207F, name: "CUNEIFORM SIGN DUB TIMES ESH2", aliases: &[] },
        Codepoint { codepoint: 0x12080, name: "CUNEIFORM SIGN DUB2", aliases: &[] },
        Codepoint { codepoint: 0x12081, name: "CUNEIFORM SIGN DUG", aliases: &[] },
        Codepoint { codepoint: 0x12082, name: "CUNEIFORM SIGN DUGUD", aliases: &[] },
        Codepoint { codepoint: 0x12083, name: "CUNEIFORM SIGN DUH", aliases: &[] },
        Codepoint { codepoint: 0x12084, name: "CUNEIFORM SIGN DUN", aliases: &[] },
        Codepoint { codepoint: 0x12085, name: "CUNEIFORM SIGN DUN3", aliases: &[] },
        Codepoint { codepoint: 0x12086, name: "CUNEIFORM SIGN DUN3 GUNU", aliases: &[] },
        Codepoint { codepoint: 0x12087, name: "CUNEIFORM SIGN DUN3 GUNU GUNU", aliases: &[] },
        Codepoint { codepoint: 0x12088, name: "CUNEIFORM SIGN DUN4", aliases: &[] },
        Codepoint { codepoint: 0x12089, name: "CUNEIFORM SIGN DUR2", aliases: &[] },
        Codepoint { codepoint: 0x1208A, name: "CUNEIFORM SIGN E", aliases: &[] },
        Codepoint { codepoint: 0x1208B, name: "CUNEIFORM SIGN E TIMES PAP", aliases: &[] },
        Codepoint { codepoint: 0x1208C, name: "CUNEIFORM SIGN E OVER E NUN OVER NUN", aliases: &[] },
        Codepoint { codepoint: 0x1208D, name: "CUNEIFORM SIGN E2", aliases: &[] },
        Codepoint { codepoint: 0x1208E, name: "CUNEIFORM SIGN E2 TIMES A PLUS HA PLUS DA", aliases: &[] },
        Codepoint { codepoint: 0x1208F, name: "CUNEIFORM SIGN E2 TIMES GAR", aliases: &[] },
        Codepoint { codepoint: 0x12090, name: "CUNEIFORM SIGN E2 TIMES MI", aliases: &[] },
        Codepoint { codepoint: 0x12091, name: "CUNEIFORM SIGN E2 TIMES SAL", aliases: &[] },
        Codepoint { codepoint: 0x12092, name: "CUNEIFORM SIGN E2 TIMES SHE", aliases: &[] },
        Codepoint { codepoint: 0x12093, name: "CUNEIFORM SIGN E2 TIMES U", aliases: &[] },
        Codepoint { codepoint: 0x12094, name: "CUNEIFORM SIGN EDIN", aliases: &[] },
        Codepoint { codepoint: 0x12095, name: "CUNEIFORM SIGN EGIR", aliases: &[] },
        Codepoint { codepoint: 0x12096, name: "CUNEIFORM SIGN EL", aliases: &[] },
        Codepoint { codepoint: 0x12097, name: "CUNEIFORM SIGN EN", aliases: &[] },
        Codepoint { codepoint: 0x12098, name: "CUNEIFORM SIGN EN TIMES GAN2", aliases: &[] },
        Codepoint { codepoint: 0x12099, name: "CUNEIFORM SIGN EN TIMES GAN2 TENU", aliases: &[] },
        Codepoint { codepoint: 0x1209A, name: "CUNEIFORM SIGN EN TIMES ME", aliases: &[] },
        Codepoint { codepoint: 0x1209B, name: "CUNEIFORM SIGN EN CROSSING EN", aliases: &[] },
        Codepoint { codepoint: 0x1209C, name: "CUNEIFORM SIGN EN OPPOSING EN", aliases: &[] },
        Codepoint { codepoint: 0x1209D, name: "CUNEIFORM SIGN EN SQUARED", aliases: &[] },
        Codepoint { codepoint: 0x1209E, name: "CUNEIFORM SIGN EREN", aliases: &[] },
        Codepoint { codepoint: 0x1209F, name: "CUNEIFORM SIGN ERIN2", aliases: &[] },
        Codepoint { codepoint: 0x120A0, name: "CUNEIFORM SIGN ESH2", aliases: &[] },
        Codepoint { codepoint: 0x120A1, name: "CUNEIFORM SIGN EZEN", aliases: &[] },
    ];
    assert(v@ =~= codepoint_table_544());
    v
}

pub open spec fn codepoint_table_545() -> Seq<Codepoint> {
    seq![
        Codepoint { codepoint: 0x120A2, name: "CUNEIFORM SIGN EZEN TIMES A", aliases: &[] },
        Codepoint { codepoint: 0x120A3, name: "CUNEIFORM SIGN EZEN TIMES A PLUS LAL", aliases: &[] },
        Codepoint { codepoint: 0x120A4, name: "CUNEIFORM SIGN EZEN TIMES A PLUS LAL TIMES LAL", aliases: &[] },
        Codepoint { codepoint: 0x120A5, name: "CUNEIFORM SIGN EZEN TIMES AN", aliases: &[] },
        Codepoint { codepoint: 0x120A6, name: "CUNEIFORM SIGN EZEN TIMES BAD", aliases: &[] },
        Codepoint { codepoint: 0x120A7, name: "CUNEIFORM SIGN EZEN TIMES DUN3 GUNU", aliases: &[] },
        Codepoint { codepoint: 0x120A8, name: "CUNEIFORM SIGN EZEN TIMES DUN3 GUNU GUNU", aliases: &[] },
        Codepoint { codepoint: 0x120A9, name: "CUNEIFORM SIGN EZEN TIMES HA", aliases: &[] },
        Codepoint { codepoint: 0x120AA, name: "CUNEIFORM SIGN EZEN TIMES HA GUNU", aliases: &[] },
        Codepoint { codepoint: 0x120AB, name: "CUNEIFORM SIGN EZEN TIMES IGI GUNU", aliases: &[] },
        Codepoint { codepoint: 0x120AC, name: "CUNEIFORM SIGN EZEN TIMES KASKAL", aliases: &[] },
        Codepoint { codepoint: 0x120AD, name: "CUNEIFORM SIGN EZEN TIMES KASKAL SQUARED", aliases: &[] },
        Codepoint { codepoint: 0x120AE, name: "CUNEIFORM SIGN EZEN TIMES KU3", aliases: &[] },
        Codepoint { codepoint: 0x120AF, name: "CUNEIFORM SIGN EZEN TIMES LA", aliases: &[] },
        Codepoint { codepoint: 0x120B0, name: "CUNEIFORM SIGN EZEN TIMES LAL TIMES LAL", aliases: &[] },
        Codepoint { codepoint: 0x120B1, name: "CUNEIFORM SIGN EZEN TIMES LI", aliases: &[] },
        Codepoint { codepoint: 0x120B2, name: "CUNEIFORM SIGN EZEN TIMES LU", aliases: &[] },
        Codepoint { codepoint: 0x120B3, name: "CUNEIFORM SIGN EZEN TIMES U2", aliases: &[] },
        Codepoint { codepoint: 0x120B4, name: "CUNEIFORM SIGN EZEN TIMES UD", aliases: &[] },
        Codepoint { codepoint: 0x120B5, name: "CUNEIFORM SIGN GA", aliases: &[] },
        Codepoint { codepoint: 0x120B6, name: "CUNEIFORM SIGN GA GUNU", aliases: &[] },
        Codepoint { codepoint: 0x120B7, name: "CUNEIFORM SIGN GA2", aliases: &[] },
        Codepoint { codepoint: 0x120B8, name: "CUNEIFORM SIGN GA2 TIMES A PLUS DA PLUS HA", aliases: &[] },
        Codepoint { codepoint: 0x120B9, name: "CUNEIFORM SIGN GA2 TIMES A PLUS HA", aliases: &[] },
        Codepoint { codepoint: 0x120BA, name: "CUNEIFORM SIGN GA2 TIMES A PLUS IGI", aliases: &[] },
        Codepoint { codepoint: 0x120BB, name: "CUNEIFORM SIGN GA2 TIMES AB2 TENU PLUS TAB", aliases: &[] },
        Codepoint { codepoint: 0x120BC, name: "CUNEIFORM SIGN GA2 TIMES AN", aliases: &[] },
        Codepoint { codepoint: 0x120BD, name: "CUNEIFORM SIGN GA2 TIMES ASH", aliases: &[] },
        Codepoint { codepoint: 0x120BE, name: "CUNEIFORM SIGN GA2 TIMES ASH2 PLUS GAL", aliases: &[] },
        Codepoint { codepoint: 0x120BF, name: "CUNEIFORM SIGN GA2 TIMES BAD", aliases: &[] },
        Codepoint { codepoint: 0x120C0, name: "CUNEIFORM SIGN GA2 TIMES BAR PLUS RA", aliases: &[] },
        Codepoint { codepoint: 0x120C1, name: "CUNEIFORM SIGN GA2 TIMES BUR", aliases: &[] },
        Codepoint { codepoint: 0x120C2, name: "CUNEIFORM SIGN GA2 TIMES BUR PLUS RA", aliases: &[] },
        Codepoint { codepoint: 0x120C3, name: "CUNEIFORM SIGN GA2 TIMES DA", aliases: &[] },
        Codepoint { codepoint: 0x120C4, name: "CUNEIFORM SIGN GA2 TIMES DI", aliases: &[] },
        Codepoint { codepoint: 0x120C5, name: "CUNEIFORM SIGN GA2 TIMES DIM TIMES SHE", aliases: &[] },
        Codepoint { codepoint: 0x120C6, name: "CUNEIFORM SIGN GA2 TIMES DUB", aliases: &[] },
        Codepoint { codepoint: 0x120C7, name: "CUNEIFORM SIGN GA2 TIMES EL", aliases: &[] },
        Codepoint { codepoint: 0x120C8, name: "CUNEIFORM SIGN GA2 TIMES EL PLUS LA", aliases: &[] },
        Codepoint { codepoint: 0x120C9, name: "CUNEIFORM SIGN GA2 TIMES EN", aliases: &[] },
    ]
}

fn all_codepoints_545() -> (v: Vec<Codepoint>)
    ensures
        v@ == codepoint_table_545(),
{
    let v = vec![
        Codepoint { codepoint: 0x120A2, name: "CUNEIFORM SIGN EZEN TIMES A", aliases: &[] },
        Codepoint { codepoint: 0x120A3, name: "CUNEIFORM SIGN EZEN TIMES A PLUS LAL", aliases: &[] },
        Codepoint { codepoint: 0x120A4, name: "CUNEIFORM SIGN EZEN TIMES A PLUS LAL TIMES LAL", aliases: &[] },
        Codepoint { codepoint: 0x120A5, name: "CUNEIFORM SIGN EZEN TIMES AN", aliases: &[] },
        Codepoint { codepoint: 0x120A6, name: "CUNEIFORM SIGN EZEN TIMES BAD", aliases: &[] },
        Codepoint { codepoint: 0x120A7, name: "CUNEIFORM SIGN EZEN TIMES DUN3 GUNU", aliases: &[] },
        Codepoint { codepoint: 0x120A8, name: "CUNEIFORM SIGN EZEN TIMES DUN3 GUNU GUNU", aliases: &[] },
        Codepoint { codepoint: 0x120A9, name: "CUNEIFORM SIGN EZEN TIMES HA", aliases: &[] },
        Codepoint { codepoint: 0x120AA, name: "CUNEIFORM SIGN EZEN TIMES HA GUNU", aliases: &[] },
        Codepoint { codepoint: 0x120AB, name: "CUNEIFORM SIGN EZEN TIMES IGI GUNU", aliases: &[] },
        Codepoint { codepoint: 0x120AC, name: "CUNEIFORM SIGN EZEN TIMES KASKAL", aliases: &[] },
        Codepoint { codepoint: 0x120AD, name: "CUNEIFORM SIGN EZEN TIMES KASKAL SQUARED", aliases: &[] },
        Codepoint { codepoint: 0x120AE, name: "CUNEIFORM SIGN EZEN TIMES KU3", aliases: &[] },
        Codepoint { codepoint: 0x120AF, name: "CUNEIFORM SIGN EZEN TIMES LA", aliases: &[] },
        Codepoint { codepoint: 0x120B0, name: "CUNEIFORM SIGN EZEN TIMES LAL TIMES LAL", aliases: &[] },
        Codepoint { codepoint: 0x120B1, name: "CUNEIFORM SIGN EZEN TIMES LI", aliases: &[] },
        Codepoint { codepoint: 0x120B2, name: "CUNEIFORM SIGN EZEN TIMES LU", aliases: &[] },
        Codepoint { codepoint: 0x120B3, name: "CUNEIFORM SIGN EZEN TIMES U2", aliases: &[] },
        Codepoint { codepoint: 0x120B4, name: "CUNEIFORM SIGN EZEN TIMES UD", aliases: &[] },
        Codepoint { codepoint: 0x120B5, name: "CUNEIFORM SIGN GA", aliases: &[] },
        Codepoint { codepoint: 0x120B6, name: "CUNEIFORM SIGN GA GUNU", aliases: &[] },
        Codepoint { codepoint: 0x120B7, name: "CUNEIFORM SIGN GA2", aliases: &[] },
        Codepoint { codepoint: 0x120B8, name: "CUNEIFORM SIGN GA2 TIMES A PLUS DA PLUS HA", aliases: &[] },
        Codepoint { codepoint: 0x120B9, name: "CUNEIFORM SIGN GA2 TIMES A PLUS HA", aliases: &[] },
        Codepoint { codepoint: 0x120BA, name: "CUNEIFORM SIGN GA2 TIMES A PLUS IGI", aliases: &[] },
        Codepoint { codepoint: 0x120BB, name: "CUNEIFORM SIGN GA2 TIMES AB2 TENU PLUS TAB", aliases: &[] },
        Codepoint { codepoint: 0x120BC, name: "CUNEIFORM SIGN GA2 TIMES AN", aliases: &[] },
        Codepoint { codepoint: 0x120BD, name: "CUNEIFORM SIGN GA2 TIMES ASH", aliases: &[] },
        Codepoint { codepoint: 0x120BE, name: "CUNEIFORM SIGN GA2 TIMES ASH2 PLUS GAL", aliases: &[] },
        Codepoint { codepoint: 0x120BF, name: "CUNEIFORM SIGN GA2 TIMES BAD", aliases: &[] },
        Codepoint { codepoint: 0x120C0, name: "CUNEIFORM SIGN GA2 TIMES BAR PLUS RA", aliases: &[] },
        Codepoint { codepoint: 0x120C1, name: "CUNEIFORM SIGN GA2 TIMES BUR", aliases: &[] },
        Codepoint { codepoint: 0x120C2, name: "CUNEIFORM SIGN GA2 TIMES BUR PLUS RA", aliases: &[] },
        Codepoint { codepoint: 0x120C3, name: "CUNEIFORM SIGN GA2 TIMES DA", aliases: &[] },
        Codepoint { codepoint: 0x120C4, name: "CUNEIFORM SIGN GA2 TIMES DI", aliases: &[] },
        Codepoint { codepoint: 0x120C5, name: "CUNEIFORM SIGN GA2 TIMES DIM TIMES SHE", aliases: &[] },
        Codepoint { codepoint: 0x120C6, name: "CUNEIFORM SIGN GA2 TIMES DUB", aliases: &[] },
        Codepoint { codepoint: 0x120C7, name: "CUNEIFORM SIGN GA2 TIMES EL", aliases: &[] },
        Codepoint { codepoint: 0x120C8, name: "CUNEIFORM SIGN GA2 TIMES EL PLUS LA", aliases: &[] },
        Codepoint { codepoint: 0x120C9, name: "CUNEIFORM SIGN GA2 TIMES EN", aliases: &[] },
    ];
    assert(v@ =~= codepoint_table_545());
    v
}

pub open spec fn codepoint_table_546() -> Seq<Codepoint> {
    seq![
        Codepoint { codepoint: 0x120CA, name: "CUNEIFORM SIGN GA2 TIMES EN TIMES GAN2 TENU", aliases: &[] },
        Codepoint { codepoint: 0x120CB, name: "CUNEIFORM SIGN GA2 TIMES GAN2 TENU", aliases: &[] },
        Codepoint { codepoint: 0x120CC, name: "CUNEIFORM SIGN GA2 TIMES GAR", aliases: &[] },
        Codepoint { codepoint: 0x120CD, name: "CUNEIFORM SIGN GA2 TIMES GI", aliases: &[] },
        Codepoint { codepoint: 0x120CE, name: "CUNEIFORM SIGN GA2 TIMES GI4", aliases: &[] },
        Codepoint { codepoint: 0x120CF, name: "CUNEIFORM SIGN GA2 TIMES GI4 PLUS A", aliases: &[] },
        Codepoint { codepoint: 0x120D0, name: "CUNEIFORM SIGN GA2 TIMES GIR2 PLUS SU", aliases: &[] },
        Codepoint { codepoint: 0x120D1, name: "CUNEIFORM SIGN GA2 TIMES HA PLUS LU PLUS ESH2", aliases: &[] },
        Codepoint { codepoint: 0x120D2, name: "CUNEIFORM SIGN GA2 TIMES HAL", aliases: &[] },
        Codepoint { codepoint: 0x120D3, name: "CUNEIFORM SIGN GA2 TIMES HAL PLUS LA", aliases: &[] },
        Codepoint { codepoint: 0x120D4, name: "CUNEIFORM SIGN GA2 TIMES HI PLUS LI", aliases: &[] },
        Codepoint { codepoint: 0x120D5, name: "CUNEIFORM SIGN GA2 TIMES HUB2", aliases: &[] },
        Codepoint { codepoint: 0x120D6, name: "CUNEIFORM SIGN GA2 TIMES IGI GUNU", aliases: &[] },
        Codepoint { codepoint: 0x120D7, name: "CUNEIFORM SIGN GA2 TIMES ISH PLUS HU PLUS ASH", aliases: &[] },
        Codepoint { codepoint: 0x120D8, name: "CUNEIFORM SIGN GA2 TIMES KAK", aliases: &[] },
        Codepoint { codepoint: 0x120D9, name: "CUNEIFORM SIGN GA2 TIMES KASKAL", aliases: &[] },
        Codepoint { codepoint: 0x120DA, name: "CUNEIFORM SIGN GA2 TIMES KID", aliases: &[] },
        Codepoint { codepoint: 0x120DB, name: "CUNEIFORM SIGN GA2 TIMES KID PLUS LAL", aliases: &[] },
        Codepoint { codepoint: 0x120DC, name: "CUNEIFORM SIGN GA2 TIMES KU3 PLUS AN", aliases: &[] },
        Codepoint { codepoint: 0x120DD, name: "CUNEIFORM SIGN GA2 TIMES LA", aliases: &[] },
        Codepoint { codepoint: 0x120DE, name: "CUNEIFORM SIGN GA2 TIMES ME PLUS EN", aliases: &[] },
        Codepoint { codepoint: 0x120DF, name: "CUNEIFORM SIGN GA2 TIMES MI", aliases: &[] },
        Codepoint { codepoint: 0x120E0, name: "CUNEIFORM SIGN GA2 TIMES NUN", aliases: &[] },
        Codepoint { codepoint: 0x120E1, name: "CUNEIFORM SIGN GA2 TIMES NUN OVER NUN", aliases: &[] },
        Codepoint { codepoint: 0x120E2, name: "CUNEIFORM SIGN GA2 TIMES PA", aliases: &[] },
        Codepoint { codepoint: 0x120E3, name: "CUNEIFORM SIGN GA2 TIMES SAL", aliases: &[] },
        Codepoint { codepoint: 0x120E4, name: "CUNEIFORM SIGN GA2 TIMES SAR", aliases: &[] },
        Codepoint { codepoint: 0x120E5, name: "CUNEIFORM SIGN GA2 TIMES SHE", aliases: &[] },
        Codepoint { codepoint: 0x120E6, name: "CUNEIFORM SIGN GA2 TIMES SHE PLUS TUR", aliases: &[] },
        Codepoint { codepoint: 0x120E7, name: "CUNEIFORM SIGN GA2 TIMES SHID", aliases: &[] },
        Codepoint { codepoint: 0x120E8, name: "CUNEIFORM SIGN GA2 TIMES SUM", aliases: &[] },
        Codepoint { codepoint: 0x120E9, name: "CUNEIFORM SIGN GA2 TIMES TAK4", aliases: &[] },
        Codepoint { codepoint: 0x120EA, name: "CUNEIFORM SIGN GA2 TIMES U", aliases: &[] },
        Codepoint { codepoint: 0x120EB, name: "CUNEIFORM SIGN GA2 TIMES UD", aliases: &[] },
        Codepoint { codepoint: 0x120EC, name: "CUNEIFORM SIGN GA2 TIMES UD PLUS DU", aliases: &[] },
        Codepoint { codepoint: 0x120ED, name: "CUNEIFORM SIGN GA2 OVER GA2", aliases: &[] },
        Codepoint { codepoint: 0x120EE, name: "CUNEIFORM SIGN GABA", aliases: &[] },
        Codepoint { codepoint: 0x120EF, name: "CUNEIFORM SIGN GABA CROSSING GABA", aliases: &[] },
        Codepoint { codepoint: 0x120F0, name: "CUNEIFORM SIGN GAD", aliases: &[] },
        Codepoint { codepoint: 0x120F1, name: "CUNEIFORM SIGN GAD OVER GAD GAR OVER GAR", aliases: &[] },
    ]
}

fn all_codepoints_546() -> (v: Vec<Codepoint>)
    ensures
        v@ == codepoint_table_546(),
{
    let v = vec![
        Codepoint { codepoint: 0x120CA, name: "CUNEIFORM SIGN GA2 TIMES EN TIMES GAN2 TENU", aliases: &[] },
        Codepoint { codepoint: 0x120CB, name: "CUNEIFORM SIGN GA2 TIMES GAN2 TENU", aliases: &[] },
        Codepoint { codepoint: 0x120CC, name: "CUNEIFORM SIGN GA2 TIMES GAR", aliases: &[] },
        Codepoint { codepoint: 0x120CD, name: "CUNEIFORM SIGN GA2 TIMES GI", aliases: &[] },
        Codepoint { codepoint: 0x120CE, name: "CUNEIFORM SIGN GA2 TIMES GI4", aliases: &[] },
        Codepoint { codepoint: 0x120CF, name: "CUNEIFORM SIGN GA2 TIMES GI4 PLUS A", aliases: &[] },
        Codepoint { codepoint: 0x120D0, name: "CUNEIFORM SIGN GA2 TIMES GIR2 PLUS SU", aliases: &[] },
        Codepoint { codepoint: 0x120D1, name: "CUNEIFORM SIGN GA2 TIMES HA PLUS LU PLUS ESH2", aliases: &[] },
        Codepoint { codepoint: 0x120D2, name: "CUNEIFORM SIGN GA2 TIMES HAL", aliases: &[] },
        Codepoint { codepoint: 0x120D3, name: "CUNEIFORM SIGN GA2 TIMES HAL PLUS LA", aliases: &[] },
        Codepoint { codepoint: 0x120D4, name: "CUNEIFORM SIGN GA2 TIMES HI PLUS LI", aliases: &[] },
        Codepoint { codepoint: 0x120D5, name: "CUNEIFORM SIGN GA2 TIMES HUB2", aliases: &[] },
        Codepoint { codepoint: 0x120D6, name: "CUNEIFORM SIGN GA2 TIMES IGI GUNU", aliases: &[] },
        Codepoint { codepoint: 0x120D7, name: "CUNEIFORM SIGN GA2 TIMES ISH PLUS HU PLUS ASH", aliases: &[] },
        Codepoint { codepoint: 0x120D8, name: "CUNEIFORM SIGN GA2 TIMES KAK", aliases: &[] },
        Codepoint { codepoint: 0x120D9, name: "CUNEIFORM SIGN GA2 TIMES KASKAL", aliases: &[] },
        Codepoint { codepoint: 0x120DA, name: "CUNEIFORM SIGN GA2 TIMES KID", aliases: &[] },
        Codepoint { codepoint: 0x120DB, name: "CUNEIFORM SIGN GA2 TIMES KID PLUS LAL", aliases: &[] },
        Codepoint { codepoint: 0x120DC, name: "CUNEIFORM SIGN GA2 TIMES KU3 PLUS AN", aliases: &[] },
        Codepoint { codepoint: 0x120DD, name: "CUNEIFORM SIGN GA2 TIMES LA", aliases: &[] },
        Codepoint { codepoint: 0x120DE, name: "CUNEIFORM SIGN GA2 TIMES ME PLUS EN", aliases: &[] },
        Codepoint { codepoint: 0x120DF, name: "CUNEIFORM SIGN GA2 TIMES MI", aliases: &[] },
        Codepoint { codepoint: 0x120E0, name: "CUNEIFORM SIGN GA2 TIMES NUN", aliases: &[] },
        Codepoint { codepoint: 0x120E1, name: "CUNEIFORM SIGN GA2 TIMES NUN OVER NUN", aliases: &[] },
        Codepoint { codepoint: 0x120E2, name: "CUNEIFORM SIGN GA2 TIMES PA", aliases: &[] },
        Codepoint { codepoint: 0x120E3, name: "CUNEIFORM SIGN GA2 TIMES SAL", aliases: &[] },
        Codepoint { codepoint: 0x120E4, name: "CUNEIFORM SIGN GA2 TIMES SAR", aliases: &[] },
        Codepoint { codepoint: 0x120E5, name: "CUNEIFORM SIGN GA2 TIMES SHE", aliases: &[] },
        Codepoint { codepoint: 0x120E6, name: "CUNEIFORM SIGN GA2 TIMES SHE PLUS TUR", aliases: &[] },
        Codepoint { codepoint: 0x120E7, name: "CUNEIFORM SIGN GA2 TIMES SHID", aliases: &[] },
        Codepoint { codepoint: 0x120E8, name: "CUNEIFORM SIGN GA2 TIMES SUM", aliases: &[] },
        Codepoint { codepoint: 0x120E9, name: "CUNEIFORM SIGN GA2 TIMES TAK4", aliases: &[] },
        Codepoint { codepoint: 0x120EA, name: "CUNEIFORM SIGN GA2 TIMES U", aliases: &[] },
        Codepoint { codepoint: 0x120EB, name: "CUNEIFORM SIGN GA2 TIMES UD", aliases: &[] },
        Codepoint { codepoint: 0x120EC, name: "CUNEIFORM SIGN GA2 TIMES UD PLUS DU", aliases: &[] },
        Codepoint { codepoint: 0x120ED, name: "CUNEIFORM SIGN GA2 OVER GA2", aliases: &[] },
        Codepoint { codepoint: 0x120EE, name: "CUNEIFORM SIGN GABA", aliases: &[] },
        Codepoint { codepoint: 0x120EF, name: "CUNEIFORM SIGN GABA CROSSING GABA", aliases: &[] },
        Codepoint { codepoint: 0x120F0, name: "CUNEIFORM SIGN GAD", aliases: &[] },
        Codepoint { codepoint: 0x120F1, name: "CUNEIFORM SIGN GAD OVER GAD GAR OVER GAR", aliases: &[] },
    ];
    assert(v@ =~= codepoint_table_546());
    v
}

pub open spec fn codepoint_table_547() -> Seq<Codepoint> {
    seq![
        Codepoint { codepoint: 0x120F2, name: "CUNEIFORM SIGN GAL", aliases: &[] },
        Codepoint { codepoint: 0x120F3, name: "CUNEIFORM SIGN GAL GAD OVER GAD GAR OVER GAR", aliases: &[] },
        Codepoint { codepoint: 0x120F4, name: "CUNEIFORM SIGN GALAM", aliases: &[] },
        Codepoint { codepoint: 0x120F5, name: "CUNEIFORM SIGN GAM", aliases: &[] },
        Codepoint { codepoint: 0x120F6, name: "CUNEIFORM SIGN GAN", aliases: &[] },
        Codepoint { codepoint: 0x120F7, name: "CUNEIFORM SIGN GAN2", aliases: &[] },
        Codepoint { codepoint: 0x120F8, name: "CUNEIFORM SIGN GAN2 TENU", aliases: &[] },
        Codepoint { codepoint: 0x120F9, name: "CUNEIFORM SIGN GAN2 OVER GAN2", aliases: &[] },
        Codepoint { codepoint: 0x120FA, name: "CUNEIFORM SIGN GAN2 CROSSING GAN2", aliases: &[] },
        Codepoint { codepoint: 0x120FB, name: "CUNEIFORM SIGN GAR", aliases: &[] },
        Codepoint { codepoint: 0x120FC, name: "CUNEIFORM SIGN GAR3", aliases: &[] },
        Codepoint { codepoint: 0x120FD, name: "CUNEIFORM SIGN GASHAN", aliases: &[] },
        Codepoint { codepoint: 0x120FE, name: "CUNEIFORM SIGN GESHTIN", aliases: &[] },
        Codepoint { codepoint: 0x120FF, name: "CUNEIFORM SIGN GESHTIN TIMES KUR", aliases: &[] },
        Codepoint { codepoint: 0x12100, name: "CUNEIFORM SIGN GI", aliases: &[] },
        Codepoint { codepoint: 0x12101, name: "CUNEIFORM SIGN GI TIMES E", aliases: &[] },
        Codepoint { codepoint: 0x12102, name: "CUNEIFORM SIGN GI TIMES U", aliases: &[] },
        Codepoint { codepoint: 0x12103, name: "CUNEIFORM SIGN GI CROSSING GI", aliases: &[] },
        Codepoint { codepoint: 0x12104, name: "CUNEIFORM SIGN GI4", aliases: &[] },
        Codepoint { codepoint: 0x12105, name: "CUNEIFORM SIGN GI4 OVER GI4", aliases: &[] },
        Codepoint { codepoint: 0x12106, name: "CUNEIFORM SIGN GI4 CROSSING GI4", aliases: &[] },
        Codepoint { codepoint: 0x12107, name: "CUNEIFORM SIGN GIDIM", aliases: &[] },
        Codepoint { codepoint: 0x12108, name: "CUNEIFORM SIGN GIR2", aliases: &[] },
        Codepoint { codepoint: 0x12109, name: "CUNEIFORM SIGN GIR2 GUNU", aliases: &[] },
        Codepoint { codepoint: 0x1210A, name: "CUNEIFORM SIGN GIR3", aliases: &[] },
        Codepoint { codepoint: 0x1210B, name: "CUNEIFORM SIGN GIR3 TIMES A PLUS IGI", aliases: &[] },
        Codepoint { codepoint: 0x1210C, name: "CUNEIFORM SIGN GIR3 TIMES GAN2 TENU", aliases: &[] },
        Codepoint { codepoint: 0x1210D, name: "CUNEIFORM SIGN GIR3 TIMES IGI", aliases: &[] },
        Codepoint { codepoint: 0x1210E, name: "CUNEIFORM SIGN GIR3 TIMES LU PLUS IGI", aliases: &[] },
        Codepoint { codepoint: 0x1210F, name: "CUNEIFORM SIGN GIR3 TIMES PA", aliases: &[] },
        Codepoint { codepoint: 0x12110, name: "CUNEIFORM SIGN GISAL", aliases: &[] },
        Codepoint { codepoint: 0x12111, name: "CUNEIFORM SIGN GISH", aliases: &[] },
        Codepoint { codepoint: 0x12112, name: "CUNEIFORM SIGN GISH CROSSING GISH", aliases: &[] },
        Codepoint { codepoint: 0x12113, name: "CUNEIFORM SIGN GISH TIMES BAD", aliases: &[] },
        Codepoint { codepoint: 0x12114, name: "CUNEIFORM SIGN GISH TIMES TAK4", aliases: &[] },
        Codepoint { codepoint: 0x12115, name: "CUNEIFORM SIGN GISH TENU", aliases: &[] },
        Codepoint { codepoint: 0x12116, name: "CUNEIFORM SIGN GU", aliases: &[] },
        Codepoint { codepoint: 0x12117, name: "CUNEIFORM SIGN GU CROSSING GU", aliases: &[] },
        Codepoint { codepoint: 0x12118, name: "CUNEIFORM SIGN GU2", aliases: &[] },
        Codepoint { codepoint: 0x12119, name: "CUNEIFORM SIGN GU2 TIMES KAK", aliases: &[] },
    ]
}

fn all_codepoints_547() -> (v: Vec<Codepoint>)
    ensures
        v@ == codepoint_table_547(),
{
    let v = vec![
        Codepoint { codepoint: 0x120F2, name: "CUNEIFORM SIGN GAL", aliases: &[] },
        Codepoint { codepoint: 0x120F3, name: "CUNEIFORM SIGN GAL GAD OVER GAD GAR OVER GAR", aliases: &[] },
        Codepoint { codepoint: 0x120F4, name: "CUNEIFORM SIGN GALAM", aliases: &[] },
        Codepoint { codepoint: 0x120F5, name: "CUNEIFORM SIGN GAM", aliases: &[] },
        Codepoint { codepoint: 0x120F6, name: "CUNEIFORM SIGN GAN", aliases: &[] },
        Codepoint { codepoint: 0x120F7, name: "CUNEIFORM SIGN GAN2", aliases: &[] },
        Codepoint { codepoint: 0x120F8, name: "CUNEIFORM SIGN GAN2 TENU", aliases: &[] },
        Codepoint { codepoint: 0x120F9, name: "CUNEIFORM SIGN GAN2 OVER GAN2", aliases: &[] },
        Codepoint { codepoint: 0x120FA, name: "CUNEIFORM SIGN GAN2 CROSSING GAN2", aliases: &[] },
        Codepoint { codepoint: 0x120FB, name: "CUNEIFORM SIGN GAR", aliases: &[] },
        Codepoint { codepoint: 0x120FC, name: "CUNEIFORM SIGN GAR3", aliases: &[] },
        Codepoint { codepoint: 0x120FD, name: "CUNEIFORM SIGN GASHAN", aliases: &[] },
        Codepoint { codepoint: 0x120FE, name: "CUNEIFORM SIGN GESHTIN", aliases: &[] },
        Codepoint { codepoint: 0x120FF, name: "CUNEIFORM SIGN GESHTIN TIMES KUR", aliases: &[] },
        Codepoint { codepoint: 0x12100, name: "CUNEIFORM SIGN GI", aliases: &[] },
        Codepoint { codepoint: 0x12101, name: "CUNEIFORM SIGN GI TIMES E", aliases: &[] },
        Codepoint { codepoint: 0x12102, name: "CUNEIFORM SIGN GI TIMES U", aliases: &[] },
        Codepoint { codepoint: 0x12103, name: "CUNEIFORM SIGN GI CROSSING GI", aliases: &[] },
        Codepoint { codepoint: 0x12104, name: "CUNEIFORM SIGN GI4", aliases: &[] },
        Codepoint { codepoint: 0x12105, name: "CUNEIFORM SIGN GI4 OVER GI4", aliases: &[] },
        Codepoint { codepoint: 0x12106, name: "CUNEIFORM SIGN GI4 CROSSING GI4", aliases: &[] },
        Codepoint { codepoint: 0x12107, name: "CUNEIFORM SIGN GIDIM", aliases: &[] },
        Codepoint { codepoint: 0x12108, name: "CUNEIFORM SIGN GIR2", aliases: &[] },
        Codepoint { codepoint: 0x12109, name: "CUNEIFORM SIGN GIR2 GUNU", aliases: &[] },
        Codepoint { codepoint: 0x1210A, name: "CUNEIFORM SIGN GIR3", aliases: &[] },
        Codepoint { codepoint: 0x1210B, name: "CUNEIFORM SIGN GIR3 TIMES A PLUS IGI", aliases: &[] },
        Codepoint { codepoint: 0x1210C, name: "CUNEIFORM SIGN GIR3 TIMES GAN2 TENU", aliases: &[] },
        Codepoint { codepoint: 0x1210D, name: "CUNEIFORM SIGN GIR3 TIMES IGI", aliases: &[] },
        Codepoint { codepoint: 0x1210E, name: "CUNEIFORM SIGN GIR3 TIMES LU PLUS IGI", aliases: &[] },
        Codepoint { codepoint: 0x1210F, name: "CUNEIFORM SIGN GIR3 TIMES PA", aliases: &[] },
        Codepoint { codepoint: 0x12110, name: "CUNEIFORM SIGN GISAL", aliases: &[] },
        Codepoint { codepoint: 0x12111, name: "CUNEIFORM SIGN GISH", aliases: &[] },
        Codepoint { codepoint: 0x12112, name: "CUNEIFORM SIGN GISH CROSSING GISH", aliases: &[] },
        Codepoint { codepoint: 0x12113, name: "CUNEIFORM SIGN GISH TIMES BAD", aliases: &[] },
        Codepoint { codepoint: 0x12114, name: "CUNEIFORM SIGN GISH TIMES TAK4", aliases: &[] },
        Codepoint { codepoint: 0x12115, name: "CUNEIFORM SIGN GISH TENU", aliases: &[] },
        Codepoint { codepoint: 0x12116, name: "CUNEIFORM SIGN GU", aliases: &[] },
        Codepoint { codepoint: 0x12117, name: "CUNEIFORM SIGN GU CROSSING GU", aliases: &[] },
        Codepoint { codepoint: 0x12118, name: "CUNEIFORM SIGN GU2", aliases: &[] },
        Codepoint { codepoint: 0x12119, name: "CUNEIFORM SIGN GU2 TIMES KAK", aliases: &[] },
    ];
    assert(v@ =~= codepoint_table_547());
    v
}

pub open spec fn codepoint_table_548() -> Seq<Codepoint> {
    seq![
        Codepoint { codepoint: 0x1211A, name: "CUNEIFORM SIGN GU2 TIMES KAK TIMES IGI GUNU", aliases: &[] },
        Codepoint { codepoint: 0x1211B, name: "CUNEIFORM SIGN GU2 TIMES NUN", aliases: &[] },
        Codepoint { codepoint: 0x1211C, name: "CUNEIFORM SIGN GU2 TIMES SAL PLUS TUG2", aliases: &[] },
        Codepoint { codepoint: 0x1211D, name: "CUNEIFORM SIGN GU2 GUNU", aliases: &[] },
        Codepoint { codepoint: 0x1211E, name: "CUNEIFORM SIGN GUD", aliases: &[] },
        Codepoint { codepoint: 0x1211F, name: "CUNEIFORM SIGN GUD TIMES A PLUS KUR", aliases: &[] },
        Codepoint { codepoint: 0x12120, name: "CUNEIFORM SIGN GUD TIMES KUR", aliases: &[] },
        Codepoint { codepoint: 0x12121, name: "CUNEIFORM SIGN GUD OVER GUD LUGAL", aliases: &[] },
        Codepoint { codepoint: 0x12122, name: "CUNEIFORM SIGN GUL", aliases: &[] },
        Codepoint { codepoint: 0x12123, name: "CUNEIFORM SIGN GUM", aliases: &[] },
        Codepoint { codepoint: 0x12124, name: "CUNEIFORM SIGN GUM TIMES SHE", aliases: &[] },
        Codepoint { codepoint: 0x12125, name: "CUNEIFORM SIGN GUR", aliases: &[] },
        Codepoint { codepoint: 0x12126, name: "CUNEIFORM SIGN GUR7", aliases: &[] },
        Codepoint { codepoint: 0x12127, name: "CUNEIFORM SIGN GURUN", aliases: &[] },
        Codepoint { codepoint: 0x12128, name: "CUNEIFORM SIGN GURUSH", aliases: &[] },
        Codepoint { codepoint: 0x12129, name: "CUNEIFORM SIGN HA", aliases: &[] },
        Codepoint { codepoint: 0x1212A, name: "CUNEIFORM SIGN HA TENU", aliases: &[] },
        Codepoint { codepoint: 0x1212B, name: "CUNEIFORM SIGN HA GUNU", aliases: &[] },
        Codepoint { codepoint: 0x1212C, name: "CUNEIFORM SIGN HAL", aliases: &[] },
        Codepoint { codepoint: 0x1212D, name: "CUNEIFORM SIGN HI", aliases: &[] },
        Codepoint { codepoint: 0x1212E, name: "CUNEIFORM SIGN HI TIMES ASH", aliases: &[] },
        Codepoint { codepoint: 0x1212F, name: "CUNEIFORM SIGN HI TIMES ASH2", aliases: &[] },
        Codepoint { codepoint: 0x12130, name: "CUNEIFORM SIGN HI TIMES BAD", aliases: &[] },
        Codepoint { codepoint: 0x12131, name: "CUNEIFORM SIGN HI TIMES DISH", aliases: &[] },
        Codepoint { codepoint: 0x12132, name: "CUNEIFORM SIGN HI TIMES GAD", aliases: &[] },
        Codepoint { codepoint: 0x12133, name: "CUNEIFORM SIGN HI TIMES KIN", aliases: &[] },
        Codepoint { codepoint: 0x12134, name: "CUNEIFORM SIGN HI TIMES NUN", aliases: &[] },
        Codepoint { codepoint: 0x12135, name: "CUNEIFORM SIGN HI TIMES SHE", aliases: &[] },
        Codepoint { codepoint: 0x12136, name: "CUNEIFORM SIGN HI TIMES U", aliases: &[] },
        Codepoint { codepoint: 0x12137, name: "CUNEIFORM SIGN HU", aliases: &[] },
        Codepoint { codepoint: 0x12138, name: "CUNEIFORM SIGN HUB2", aliases: &[] },
        Codepoint { codepoint: 0x12139, name: "CUNEIFORM SIGN HUB2 TIMES AN", aliases: &[] },
        Codepoint { codepoint: 0x1213A, name: "CUNEIFORM SIGN HUB2 TIMES HAL", aliases: &[] },
        Codepoint { codepoint: 0x1213B, name: "CUNEIFORM SIGN HUB2 TIMES KASKAL", aliases: &[] },
        Codepoint { codepoint: 0x1213C, name: "CUNEIFORM SIGN HUB2 TIMES LISH", aliases: &[] },
        Codepoint { codepoint: 0x1213D, name: "CUNEIFORM SIGN HUB2 TIMES UD", aliases: &[] },
        Codepoint { codepoint: 0x1213E, name: "CUNEIFORM SIGN HUL2", aliases: &[] },
        Codepoint { codepoint: 0x1213F, name: "CUNEIFORM SIGN I", aliases: &[] },
        Codepoint { codepoint: 0x12140, name: "CUNEIFORM SIGN I A", aliases: &[] },
        Codepoint { codepoint: 0x12141, name: "CUNEIFORM SIGN IB", aliases: &[] },
    ]
}

fn all_codepoints_548() -> (v: Vec<Codepoint>)
    ensures
        v@ == codepoint_table_548(),
{
    let v = vec![
        Codepoint { codepoint: 0x1211A, name: "CUNEIFORM SIGN GU2 TIMES KAK TIMES IGI GUNU", aliases: &[] },
        Codepoint { codepoint: 0x1211B, name: "CUNEIFORM SIGN GU2 TIMES NUN", aliases: &[] },
        Codepoint { codepoint: 0x1211C, name: "CUNEIFORM SIGN GU2 TIMES SAL PLUS TUG2", aliases: &[] },
        Codepoint { codepoint: 0x1211D, name: "CUNEIFORM SIGN GU2 GUNU", aliases: &[] },
        Codepoint { codepoint: 0x1211E, name: "CUNEIFORM SIGN GUD", aliases: &[] },
        Codepoint { codepoint: 0x1211F, name: "CUNEIFORM SIGN GUD TIMES A PLUS KUR", aliases: &[] },
        Codepoint { codepoint: 0x12120, name: "CUNEIFORM SIGN GUD TIMES KUR", aliases: &[] },
        Codepoint { codepoint: 0x12121, name: "CUNEIFORM SIGN GUD OVER GUD LUGAL", aliases: &[] },
        Codepoint { codepoint: 0x12122, name: "CUNEIFORM SIGN GUL", aliases: &[] },
        Codepoint { codepoint: 0x12123, name: "CUNEIFORM SIGN GUM", aliases: &[] },
        Codepoint { codepoint: 0x12124, name: "CUNEIFORM SIGN GUM TIMES SHE", aliases: &[] },
        Codepoint { codepoint: 0x12125, name: "CUNEIFORM SIGN GUR", aliases: &[] },
        Codepoint { codepoint: 0x12126, name: "CUNEIFORM SIGN GUR7", aliases: &[] },
        Codepoint { codepoint: 0x12127, name: "CUNEIFORM SIGN GURUN", aliases: &[] },
        Codepoint { codepoint: 0x12128, name: "CUNEIFORM SIGN GURUSH", aliases: &[] },
        Codepoint { codepoint: 0x12129, name: "CUNEIFORM SIGN HA", aliases: &[] },
        Codepoint { codepoint: 0x1212A, name: "CUNEIFORM SIGN HA TENU", aliases: &[] },
        Codepoint { codepoint: 0x1212B, name: "CUNEIFORM SIGN HA GUNU", aliases: &[] },
        Codepoint { codepoint: 0x1212C, name: "CUNEIFORM SIGN HAL", aliases: &[] },
        Codepoint { codepoint: 0x1212D, name: "CUNEIFORM SIGN HI", aliases: &[] },
        Codepoint { codepoint: 0x1212E, name: "CUNEIFORM SIGN HI TIMES ASH", aliases: &[] },
        Codepoint { codepoint: 0x1212F, name: "CUNEIFORM SIGN HI TIMES ASH2", aliases: &[] },
        Codepoint { codepoint: 0x12130, name: "CUNEIFORM SIGN HI TIMES BAD", aliases: &[] },
        Codepoint { codepoint: 0x12131, name: "CUNEIFORM SIGN HI TIMES DISH", aliases: &[] },
        Codepoint { codepoint: 0x12132, name: "CUNEIFORM SIGN HI TIMES GAD", aliases: &[] },
        Codepoint { codepoint: 0x12133, name: "CUNEIFORM SIGN HI TIMES KIN", aliases: &[] },
        Codepoint { codepoint: 0x12134, name: "CUNEIFORM SIGN HI TIMES NUN", aliases: &[] },
        Codepoint { codepoint: 0x12135, name: "CUNEIFORM SIGN HI TIMES SHE", aliases: &[] },
        Codepoint { codepoint: 0x12136, name: "CUNEIFORM SIGN HI TIMES U", aliases: &[] },
        Codepoint { codepoint: 0x12137, name: "CUNEIFORM SIGN HU", aliases: &[] },
        Codepoint { codepoint: 0x12138, name: "CUNEIFORM SIGN HUB2", aliases: &[] },
        Codepoint { codepoint: 0x12139, name: "CUNEIFORM SIGN HUB2 TIMES AN", aliases: &[] },
        Codepoint { codepoint: 0x1213A, name: "CUNEIFORM SIGN HUB2 TIMES HAL", aliases: &[] },
        Codepoint { codepoint: 0x1213B, name: "CUNEIFORM SIGN HUB2 TIMES KASKAL", aliases: &[] },
        Codepoint { codepoint: 0x1213C, name: "CUNEIFORM SIGN HUB2 TIMES LISH", aliases: &[] },
        Codepoint { codepoint: 0x1213D, name: "CUNEIFORM SIGN HUB2 TIMES UD", aliases: &[] },
        Codepoint { codepoint: 0x1213E, name: "CUNEIFORM SIGN HUL2", aliases: &[] },
        Codepoint { codepoint: 0x1213F, name: "CUNEIFORM SIGN I", aliases: &[] },
        Codepoint { codepoint: 0x12140, name: "CUNEIFORM SIGN I A", aliases: &[] },
        Codepoint { codepoint: 0x12141, name: "CUNEIFORM SIGN IB", aliases: &[] },
    ];
    assert(v@ =~= codepoint_table_548());
    v
}

pub open spec fn codepoint_table_549() -> Seq<Codepoint> {
    seq![
        Codepoint { codepoint: 0x12142, name: "CUNEIFORM SIGN IDIM", aliases: &[] },
        Codepoint { codepoint: 0x12143, name: "CUNEIFORM SIGN IDIM OVER IDIM BUR", aliases: &[] },
        Codepoint { codepoint: 0x12144, name: "CUNEIFORM SIGN IDIM OVER IDIM SQUARED", aliases: &[] },
        Codepoint { codepoint: 0x12145, name: "CUNEIFORM SIGN IG", aliases: &[] },
        Codepoint { codepoint: 0x12146, name: "CUNEIFORM SIGN IGI", aliases: &[] },
        Codepoint { codepoint: 0x12147, name: "CUNEIFORM SIGN IGI DIB", aliases: &[] },
        Codepoint { codepoint: 0x12148, name: "CUNEIFORM SIGN IGI RI", aliases: &[] },
        Codepoint { codepoint: 0x12149, name: "CUNEIFORM SIGN IGI OVER IGI SHIR OVER SHIR UD OVER UD", aliases: &[] },
        Codepoint { codepoint: 0x1214A, name: "CUNEIFORM SIGN IGI GUNU", aliases: &[] },
        Codepoint { codepoint: 0x1214B, name: "CUNEIFORM SIGN IL", aliases: &[] },
        Codepoint { codepoint: 0x1214C, name: "CUNEIFORM SIGN IL TIMES GAN2 TENU", aliases: &[] },
        Codepoint { codepoint: 0x1214D, name: "CUNEIFORM SIGN IL2", aliases: &[] },
        Codepoint { codepoint: 0x1214E, name: "CUNEIFORM SIGN IM", aliases: &[] },
        Codepoint { codepoint: 0x1214F, name: "CUNEIFORM SIGN IM TIMES TAK4", aliases: &[] },
        Codepoint { codepoint: 0x12150, name: "CUNEIFORM SIGN IM CROSSING IM", aliases: &[] },
        Codepoint { codepoint: 0x12151, name: "CUNEIFORM SIGN IM OPPOSING IM", aliases: &[] },
        Codepoint { codepoint: 0x12152, name: "CUNEIFORM SIGN IM SQUARED", aliases: &[] },
        Codepoint { codepoint: 0x12153, name: "CUNEIFORM SIGN IMIN", aliases: &[] },
        Codepoint { codepoint: 0x12154, name: "CUNEIFORM SIGN IN", aliases: &[] },
        Codepoint { codepoint: 0x12155, name: "CUNEIFORM SIGN IR", aliases: &[] },
        Codepoint { codepoint: 0x12156, name: "CUNEIFORM SIGN ISH", aliases: &[] },
        Codepoint { codepoint: 0x12157, name: "CUNEIFORM SIGN KA", aliases: &[] },
        Codepoint { codepoint: 0x12158, name: "CUNEIFORM SIGN KA TIMES A", aliases: &[] },
        Codepoint { codepoint: 0x12159, name: "CUNEIFORM SIGN KA TIMES AD", aliases: &[] },
        Codepoint { codepoint: 0x1215A, name: "CUNEIFORM SIGN KA TIMES AD PLUS KU3", aliases: &[] },
        Codepoint { codepoint: 0x1215B, name: "CUNEIFORM SIGN KA TIMES ASH2", aliases: &[] },
        Codepoint { codepoint: 0x1215C, name: "CUNEIFORM SIGN KA TIMES BAD", aliases: &[] },
        Codepoint { codepoint: 0x1215D, name: "CUNEIFORM SIGN KA TIMES BALAG", aliases: &[] },
        Codepoint { codepoint: 0x1215E, name: "CUNEIFORM SIGN KA TIMES BAR", aliases: &[] },
        Codepoint { codepoint: 0x1215F, name: "CUNEIFORM SIGN KA TIMES BI", aliases: &[] },
        Codepoint { codepoint: 0x12160, name: "CUNEIFORM SIGN KA TIMES ERIN2", aliases: &[] },
        Codepoint { codepoint: 0x12161, name: "CUNEIFORM SIGN KA TIMES ESH2", aliases: &[] },
        Codepoint { codepoint: 0x12162, name: "CUNEIFORM SIGN KA TIMES GA", aliases: &[] },
        Codepoint { codepoint: 0x12163, name: "CUNEIFORM SIGN KA TIMES GAL", aliases: &[] },
        Codepoint { codepoint: 0x12164, name: "CUNEIFORM SIGN KA TIMES GAN2 TENU", aliases: &[] },
        Codepoint { codepoint: 0x12165, name: "CUNEIFORM SIGN KA TIMES GAR", aliases: &[] },
        Codepoint { codepoint: 0x12166, name: "CUNEIFORM SIGN KA TIMES GAR PLUS SHA3 PLUS A", aliases: &[] },
        Codepoint { codepoint: 0x12167, name: "CUNEIFORM SIGN KA TIMES GI", aliases: &[] },
        Codepoint { codepoint: 0x12168, name: "CUNEIFORM SIGN KA TIMES GIR2", aliases: &[] },
        Codepoint { codepoint: 0x12169, name: "CUNEIFORM SIGN KA TIMES GISH PLUS SAR", aliases: &[] },
    ]
}

fn all_codepoints_549() -> (v: Vec<Codepoint>)
    ensures
        v@ == codepoint_table_549(),
{
    let v = vec![
        Codepoint { codepoint: 0x12142, name: "CUNEIFORM SIGN IDIM", aliases: &[] },
        Codepoint { codepoint: 0x12143, name: "CUNEIFORM SIGN IDIM OVER IDIM BUR", aliases: &[] },
        Codepoint { codepoint: 0x12144, name: "CUNEIFORM SIGN IDIM OVER IDIM SQUARED", aliases: &[] },
        Codepoint { codepoint: 0x12145, name: "CUNEIFORM SIGN IG", aliases: &[] },
        Codepoint { codepoint: 0x12146, name: "CUNEIFORM SIGN IGI", aliases: &[] },
        Codepoint { codepoint: 0x12147, name: "CUNEIFORM SIGN IGI DIB", aliases: &[] },
        Codepoint { codepoint: 0x12148, name: "CUNEIFORM SIGN IGI RI", aliases: &[] },
        Codepoint { codepoint: 0x12149, name: "CUNEIFORM SIGN IGI OVER IGI SHIR OVER SHIR UD OVER UD", aliases: &[] },
        Codepoint { codepoint: 0x1214A, name: "CUNEIFORM SIGN IGI GUNU", aliases: &[] },
        Codepoint { codepoint: 0x1214B, name: "CUNEIFORM SIGN IL", aliases: &[] },
        Codepoint { codepoint: 0x1214C, name: "CUNEIFORM SIGN IL TIMES GAN2 TENU", aliases: &[] },
        Codepoint { codepoint: 0x1214D, name: "CUNEIFORM SIGN IL2", aliases: &[] },
        Codepoint { codepoint: 0x1214E, name: "CUNEIFORM SIGN IM", aliases: &[] },
        Codepoint { codepoint: 0x1214F, name: "CUNEIFORM SIGN IM TIMES TAK4", aliases: &[] },
        Codepoint { codepoint: 0x12150, name: "CUNEIFORM SIGN IM CROSSING IM", aliases: &[] },
        Codepoint { codepoint: 0x12151, name: "CUNEIFORM SIGN IM OPPOSING IM", aliases: &[] },
        Codepoint { codepoint: 0x12152, name: "CUNEIFORM SIGN IM SQUARED", aliases: &[] },
        Codepoint { codepoint: 0x12153, name: "CUNEIFORM SIGN IMIN", aliases: &[] },
        Codepoint { codepoint: 0x12154, name: "CUNEIFORM SIGN IN", aliases: &[] },
        Codepoint { codepoint: 0x12155, name: "CUNEIFORM SIGN IR", aliases: &[] },
        Codepoint { codepoint: 0x12156, name: "CUNEIFORM SIGN ISH", aliases: &[] },
        Codepoint { codepoint: 0x12157, name: "CUNEIFORM SIGN KA", aliases: &[] },
        Codepoint { codepoint: 0x12158, name: "CUNEIFORM SIGN KA TIMES A", aliases: &[] },
        Codepoint { codepoint: 0x12159, name: "CUNEIFORM SIGN KA TIMES AD", aliases: &[] },
        Codepoint { codepoint: 0x1215A, name: "CUNEIFORM SIGN KA TIMES AD PLUS KU3", aliases: &[] },
        Codepoint { codepoint: 0x1215B, name: "CUNEIFORM SIGN KA TIMES ASH2", aliases: &[] },
        Codepoint { codepoint: 0x1215C, name: "CUNEIFORM SIGN KA TIMES BAD", aliases: &[] },
        Codepoint { codepoint: 0x1215D, name: "CUNEIFORM SIGN KA TIMES BALAG", aliases: &[] },
        Codepoint { codepoint: 0x1215E, name: "CUNEIFORM SIGN KA TIMES BAR", aliases: &[] },
        Codepoint { codepoint: 0x1215F, name: "CUNEIFORM SIGN KA TIMES BI", aliases: &[] },
        Codepoint { codepoint: 0x12160, name: "CUNEIFORM SIGN KA TIMES ERIN2", aliases: &[] },
        Codepoint { codepoint: 0x12161, name: "CUNEIFORM SIGN KA TIMES ESH2", aliases: &[] },
        Codepoint { codepoint: 0x12162, name: "CUNEIFORM SIGN KA TIMES GA", aliases: &[] },
        Codepoint { codepoint: 0x12163, name: "CUNEIFORM SIGN KA TIMES GAL", aliases: &[] },
        Codepoint { codepoint: 0x12164, name: "CUNEIFORM SIGN KA TIMES GAN2 TENU", aliases: &[] },
        Codepoint { codepoint: 0x12165, name: "CUNEIFORM SIGN KA TIMES GAR", aliases: &[] },
        Codepoint { codepoint: 0x12166, name: "CUNEIFORM SIGN KA TIMES GAR PLUS SHA3 PLUS A", aliases: &[] },
        Codepoint { codepoint: 0x12167, name: "CUNEIFORM SIGN KA TIMES GI", aliases: &[] },
        Codepoint { codepoint: 0x12168, name: "CUNEIFORM SIGN KA TIMES GIR2", aliases: &[] },
        Codepoint { codepoint: 0x12169, name: "CUNEIFORM SIGN KA TIMES GISH PLUS SAR", aliases: &[] },
    ];
    assert(v@ =~= codepoint_table_549());
    v
}

pub open spec fn codepoint_table_550() -> Seq<Codepoint> {
    seq![
        Codepoint { codepoint: 0x1216A, name: "CUNEIFORM SIGN KA TIMES GISH CROSSING GISH", aliases: &[] },
        Codepoint { codepoint: 0x1216B, name: "CUNEIFORM SIGN KA TIMES GU", aliases: &[] },
        Codepoint { codepoint: 0x1216C, name: "CUNEIFORM SIGN KA TIMES GUR7", aliases: &[] },
        Codepoint { codepoint: 0x1216D, name: "CUNEIFORM SIGN KA TIMES IGI", aliases: &[] },
        Codepoint { codepoint: 0x1216E, name: "CUNEIFORM SIGN KA TIMES IM", aliases: &[] },
        Codepoint { codepoint: 0x1216F, name: "CUNEIFORM SIGN KA TIMES KAK", aliases: &[] },
        Codepoint { codepoint: 0x12170, name: "CUNEIFORM SIGN KA TIMES KI", aliases: &[] },
        Codepoint { codepoint: 0x12171, name: "CUNEIFORM SIGN KA TIMES KID", aliases: &[] },
        Codepoint { codepoint: 0x12172, name: "CUNEIFORM SIGN KA TIMES LI", aliases: &[] },
        Codepoint { codepoint: 0x12173, name: "CUNEIFORM SIGN KA TIMES LU", aliases: &[] },
        Codepoint { codepoint: 0x12174, name: "CUNEIFORM SIGN KA TIMES ME", aliases: &[] },
        Codepoint { codepoint: 0x12175, name: "CUNEIFORM SIGN KA TIMES ME PLUS DU", aliases: &[] },
        Codepoint { codepoint: 0x12176, name: "CUNEIFORM SIGN KA TIMES ME PLUS GI", aliases: &[] },
        Codepoint { codepoint: 0x12177, name: "CUNEIFORM SIGN KA TIMES ME PLUS TE", aliases: &[] },
        Codepoint { codepoint: 0x12178, name: "CUNEIFORM SIGN KA TIMES MI", aliases: &[] },
        Codepoint { codepoint: 0x12179, name: "CUNEIFORM SIGN KA TIMES MI PLUS NUNUZ", aliases: &[] },
        Codepoint { codepoint: 0x1217A, name: "CUNEIFORM SIGN KA TIMES NE", aliases: &[] },
        Codepoint { codepoint: 0x1217B, name: "CUNEIFORM SIGN KA TIMES NUN", aliases: &[] },
        Codepoint { codepoint: 0x1217C, name: "CUNEIFORM SIGN KA TIMES PI", aliases: &[] },
        Codepoint { codepoint: 0x1217D, name: "CUNEIFORM SIGN KA TIMES RU", aliases: &[] },
        Codepoint { codepoint: 0x1217E, name: "CUNEIFORM SIGN KA TIMES SA", aliases: &[] },
        Codepoint { codepoint: 0x1217F, name: "CUNEIFORM SIGN KA TIMES SAR", aliases: &[] },
        Codepoint { codepoint: 0x12180, name: "CUNEIFORM SIGN KA TIMES SHA", aliases: &[] },
        Codepoint { codepoint: 0x12181, name: "CUNEIFORM SIGN KA TIMES SHE", aliases: &[] },
        Codepoint { codepoint: 0x12182, name: "CUNEIFORM SIGN KA TIMES SHID", aliases: &[] },
        Codepoint { codepoint: 0x12183, name: "CUNEIFORM SIGN KA TIMES SHU", aliases: &[] },
        Codepoint { codepoint: 0x12184, name: "CUNEIFORM SIGN KA TIMES SIG", aliases: &[] },
        Codepoint { codepoint: 0x12185, name: "CUNEIFORM SIGN KA TIMES SUHUR", aliases: &[] },
        Codepoint { codepoint: 0x12186, name: "CUNEIFORM SIGN KA TIMES TAR", aliases: &[] },
        Codepoint { codepoint: 0x12187, name: "CUNEIFORM SIGN KA TIMES U", aliases: &[] },
        Codepoint { codepoint: 0x12188, name: "CUNEIFORM SIGN KA TIMES U2", aliases: &[] },
        Codepoint { codepoint: 0x12189, name: "CUNEIFORM SIGN KA TIMES UD", aliases: &[] },
        Codepoint { codepoint: 0x1218A, name: "CUNEIFORM SIGN KA TIMES UMUM TIMES PA", aliases: &[] },
        Codepoint { codepoint: 0x1218B, name: "CUNEIFORM SIGN KA TIMES USH", aliases: &[] },
        Codepoint { codepoint: 0x1218C, name: "CUNEIFORM SIGN KA TIMES ZI", aliases: &[] },
        Codepoint { codepoint: 0x1218D, name: "CUNEIFORM SIGN KA2", aliases: &[] },
        Codepoint { codepoint: 0x1218E, name: "CUNEIFORM SIGN KA2 CROSSING KA2", aliases: &[] },
        Codepoint { codepoint: 0x1218F, name: "CUNEIFORM SIGN KAB", aliases: &[] },
        Codepoint { codepoint: 0x12190, name: "CUNEIFORM SIGN KAD2", aliases: &[] },
        Codepoint { codepoint: 0x12191, name: "CUNEIFORM SIGN KAD3", aliases: &[] },
    ]
}

fn all_codepoints_550() -> (v: Vec<Codepoint>)
    ensures
        v@ == codepoint_table_550(),
{
    let v = vec![
        Codepoint { codepoint: 0x1216A, name: "CUNEIFORM SIGN KA TIMES GISH CROSSING GISH", aliases: &[] },
        Codepoint { codepoint: 0x1216B, name: "CUNEIFORM SIGN KA TIMES GU", aliases: &[] },
        Codepoint { codepoint: 0x1216C, name: "CUNEIFORM SIGN KA TIMES GUR7", aliases: &[] },
        Codepoint { codepoint: 0x1216D, name: "CUNEIFORM SIGN KA TIMES IGI", aliases: &[] },
        Codepoint { codepoint: 0x1216E, name: "CUNEIFORM SIGN KA TIMES IM", aliases: &[] },
        Codepoint { codepoint: 0x1216F, name: "CUNEIFORM SIGN KA TIMES KAK", aliases: &[] },
        Codepoint { codepoint: 0x12170, name: "CUNEIFORM SIGN KA TIMES KI", aliases: &[] },
        Codepoint { codepoint: 0x12171, name: "CUNEIFORM SIGN KA TIMES KID", aliases: &[] },
        Codepoint { codepoint: 0x12172, name: "CUNEIFORM SIGN KA TIMES LI", aliases: &[] },
        Codepoint { codepoint: 0x12173, name: "CUNEIFORM SIGN KA TIMES LU", aliases: &[] },
        Codepoint { codepoint: 0x12174, name: "CUNEIFORM SIGN KA TIMES ME", aliases: &[] },
        Codepoint { codepoint: 0x12175, name: "CUNEIFORM SIGN KA TIMES ME PLUS DU", aliases: &[] },
        Codepoint { codepoint: 0x12176, name: "CUNEIFORM SIGN KA TIMES ME PLUS GI", aliases: &[] },
        Codepoint { codepoint: 0x12177, name: "CUNEIFORM SIGN KA TIMES ME PLUS TE", aliases: &[] },
        Codepoint { codepoint: 0x12178, name: "CUNEIFORM SIGN KA TIMES MI", aliases: &[] },
        Codepoint { codepoint: 0x12179, name: "CUNEIFORM SIGN KA TIMES MI PLUS NUNUZ", aliases: &[] },
        Codepoint { codepoint: 0x1217A, name: "CUNEIFORM SIGN KA TIMES NE", aliases: &[] },
        Codepoint { codepoint: 0x1217B, name: "CUNEIFORM SIGN KA TIMES NUN", aliases: &[] },
        Codepoint { codepoint: 0x1217C, name: "CUNEIFORM SIGN KA TIMES PI", aliases: &[] },
        Codepoint { codepoint: 0x1217D, name: "CUNEIFORM SIGN KA TIMES RU", aliases: &[] },
        Codepoint { codepoint: 0x1217E, name: "CUNEIFORM SIGN KA TIMES SA", aliases: &[] },
        Codepoint { codepoint: 0x1217F, name: "CUNEIFORM SIGN KA TIMES SAR", aliases: &[] },
        Codepoint { codepoint: 0x12180, name: "CUNEIFORM SIGN KA TIMES SHA", aliases: &[] },
        Codepoint { codepoint: 0x12181, name: "CUNEIFORM SIGN KA TIMES SHE", aliases: &[] },
        Codepoint { codepoint: 0x12182, name: "CUNEIFORM SIGN KA TIMES SHID", aliases: &[] },
        Codepoint { codepoint: 0x12183, name: "CUNEIFORM SIGN KA TIMES SHU", aliases: &[] },
        Codepoint { codepoint: 0x12184, name: "CUNEIFORM SIGN KA TIMES SIG", aliases: &[] },
        Codepoint { codepoint: 0x12185, name: "CUNEIFORM SIGN KA TIMES SUHUR", aliases: &[] },
        Codepoint { codepoint: 0x12186, name: "CUNEIFORM SIGN KA TIMES TAR", aliases: &[] },
        Codepoint { codepoint: 0x12187, name: "CUNEIFORM SIGN KA TIMES U", aliases: &[] },
        Codepoint { codepoint: 0x12188, name: "CUNEIFORM SIGN KA TIMES U2", aliases: &[] },
        Codepoint { codepoint: 0x12189, name: "CUNEIFORM SIGN KA TIMES UD", aliases: &[] },
        Codepoint { codepoint: 0x1218A, name: "CUNEIFORM SIGN KA TIMES UMUM TIMES PA", aliases: &[] },
        Codepoint { codepoint: 0x1218B, name: "CUNEIFORM SIGN KA TIMES USH", aliases: &[] },
        Codepoint { codepoint: 0x1218C, name: "CUNEIFORM SIGN KA TIMES ZI", aliases: &[] },
        Codepoint { codepoint: 0x1218D, name: "CUNEIFORM SIGN KA2", aliases: &[] },
        Codepoint { codepoint: 0x1218E, name: "CUNEIFORM SIGN KA2 CROSSING KA2", aliases: &[] },
        Codepoint { codepoint: 0x1218F, name: "CUNEIFORM SIGN KAB", aliases: &[] },
        Codepoint { codepoint: 0x12190, name: "CUNEIFORM SIGN KAD2", aliases: &[] },
        Codepoint { codepoint: 0x12191, name: "CUNEIFORM SIGN KAD3", aliases: &[] },
    ];
    assert(v@ =~= codepoint_table_550());
    v
}

pub open spec fn codepoint_table_551() -> Seq<Codepoint> {
    seq![
        Codepoint { codepoint: 0x12192, name: "CUNEIFORM SIGN KAD4", aliases: &[] },
        Codepoint { codepoint: 0x12193, name: "CUNEIFORM SIGN KAD5", aliases: &[] },
        Codepoint { codepoint: 0x12194, name: "CUNEIFORM SIGN KAD5 OVER KAD5", aliases: &[] },
        Codepoint { codepoint: 0x12195, name: "CUNEIFORM SIGN KAK", aliases: &[] },
        Codepoint { codepoint: 0x12196, name: "CUNEIFORM SIGN KAK TIMES IGI GUNU", aliases: &[] },
        Codepoint { codepoint: 0x12197, name: "CUNEIFORM SIGN KAL", aliases: &[] },
        Codepoint { codepoint: 0x12198, name: "CUNEIFORM SIGN KAL TIMES BAD", aliases: &[] },
        Codepoint { codepoint: 0x12199, name: "CUNEIFORM SIGN KAL CROSSING KAL", aliases: &[] },
        Codepoint { codepoint: 0x1219A, name: "CUNEIFORM SIGN KAM2", aliases: &[] },
        Codepoint { codepoint: 0x1219B, name: "CUNEIFORM SIGN KAM4", aliases: &[] },
        Codepoint { codepoint: 0x1219C, name: "CUNEIFORM SIGN KASKAL", aliases: &[] },
        Codepoint { codepoint: 0x1219D, name: "CUNEIFORM SIGN KASKAL LAGAB TIMES U OVER LAGAB TIMES U", aliases: &[] },
        Codepoint { codepoint: 0x1219E, name: "CUNEIFORM SIGN KASKAL OVER KASKAL LAGAB TIMES U OVER LAGAB TIMES U", aliases: &[] },
        Codepoint { codepoint: 0x1219F, name: "CUNEIFORM SIGN KESH2", aliases: &[] },
        Codepoint { codepoint: 0x121A0, name: "CUNEIFORM SIGN KI", aliases: &[] },
        Codepoint { codepoint: 0x121A1, name: "CUNEIFORM SIGN KI TIMES BAD", aliases: &[] },
        Codepoint { codepoint: 0x121A2, name: "CUNEIFORM SIGN KI TIMES U", aliases: &[] },
        Codepoint { codepoint: 0x121A3, name: "CUNEIFORM SIGN KI TIMES UD", aliases: &[] },
        Codepoint { codepoint: 0x121A4, name: "CUNEIFORM SIGN KID", aliases: &[] },
        Codepoint { codepoint: 0x121A5, name: "CUNEIFORM SIGN KIN", aliases: &[] },
        Codepoint { codepoint: 0x121A6, name: "CUNEIFORM SIGN KISAL", aliases: &[] },
        Codepoint { codepoint: 0x121A7, name: "CUNEIFORM SIGN KISH", aliases: &[] },
        Codepoint { codepoint: 0x121A8, name: "CUNEIFORM SIGN KISIM5", aliases: &[] },
        Codepoint { codepoint: 0x121A9, name: "CUNEIFORM SIGN KISIM5 OVER KISIM5", aliases: &[] },
        Codepoint { codepoint: 0x121AA, name: "CUNEIFORM SIGN KU", aliases: &[] },
        Codepoint { codepoint: 0x121AB, name: "CUNEIFORM SIGN KU OVER HI TIMES ASH2 KU OVER HI TIMES ASH2", aliases: &[] },
        Codepoint { codepoint: 0x121AC, name: "CUNEIFORM SIGN KU3", aliases: &[] },
        Codepoint { codepoint: 0x121AD, name: "CUNEIFORM SIGN KU4", aliases: &[] },
        Codepoint { codepoint: 0x121AE, name: "CUNEIFORM SIGN KU4 VARIANT FORM", aliases: &[] },
        Codepoint { codepoint: 0x121AF, name: "CUNEIFORM SIGN KU7", aliases: &[] },
        Codepoint { codepoint: 0x121B0, name: "CUNEIFORM SIGN KUL", aliases: &[] },
        Codepoint { codepoint: 0x121B1, name: "CUNEIFORM SIGN KUL GUNU", aliases: &[] },
        Codepoint { codepoint: 0x121B2, name: "CUNEIFORM SIGN KUN", aliases: &[] },
        Codepoint { codepoint: 0x121B3, name: "CUNEIFORM SIGN KUR", aliases: &[] },
        Codepoint { codepoint: 0x121B4, name: "CUNEIFORM SIGN KUR OPPOSING KUR", aliases: &[] },
        Codepoint { codepoint: 0x121B5, name: "CUNEIFORM SIGN KUSHU2", aliases: &[] },
        Codepoint { codepoint: 0x121B6, name: "CUNEIFORM SIGN KWU318", aliases: &[] },
        Codepoint { codepoint: 0x121B7, name: "CUNEIFORM SIGN LA", aliases: &[] },
        Codepoint { codepoint: 0x121B8, name: "CUNEIFORM SIGN LAGAB", aliases: &[] },
        Codepoint { codepoint: 0x121B9, name: "CUNEIFORM SIGN LAGAB TIMES A", aliases: &[] },
    ]
}

fn all_codepoints_551() -> (v: Vec<Codepoint>)
    ensures
        v@ == codepoint_table_551(),
{
    let v = vec![
        Codepoint { codepoint: 0x12192, name: "CUNEIFORM SIGN KAD4", aliases: &[] },
        Codepoint { codepoint: 0x12193, name: "CUNEIFORM SIGN KAD5", aliases: &[] },
        Codepoint { codepoint: 0x12194, name: "CUNEIFORM SIGN KAD5 OVER KAD5", aliases: &[] },
        Codepoint { codepoint: 0x12195, name: "CUNEIFORM SIGN KAK", aliases: &[] },
        Codepoint { codepoint: 0x12196, name: "CUNEIFORM SIGN KAK TIMES IGI GUNU", aliases: &[] },
        Codepoint { codepoint: 0x12197, name: "CUNEIFORM SIGN KAL", aliases: &[] },
        Codepoint { codepoint: 0x12198, name: "CUNEIFORM SIGN KAL TIMES BAD", aliases: &[] },
        Codepoint { codepoint: 0x12199, name: "CUNEIFORM SIGN KAL CROSSING KAL", aliases: &[] },
        Codepoint { codepoint: 0x1219A, name: "CUNEIFORM SIGN KAM2", aliases: &[] },
        Codepoint { codepoint: 0x1219B, name: "CUNEIFORM SIGN KAM4", aliases: &[] },
        Codepoint { codepoint: 0x1219C, name: "CUNEIFORM SIGN KASKAL", aliases: &[] },
        Codepoint { codepoint: 0x1219D, name: "CUNEIFORM SIGN KASKAL LAGAB TIMES U OVER LAGAB TIMES U", aliases: &[] },
        Codepoint { codepoint: 0x1219E, name: "CUNEIFORM SIGN KASKAL OVER KASKAL LAGAB TIMES U OVER LAGAB TIMES U", aliases: &[] },
        Codepoint { codepoint: 0x1219F, name: "CUNEIFORM SIGN KESH2", aliases: &[] },
        Codepoint { codepoint: 0x121A0, name: "CUNEIFORM SIGN KI", aliases: &[] },
        Codepoint { codepoint: 0x121A1, name: "CUNEIFORM SIGN KI TIMES BAD", aliases: &[] },
        Codepoint { codepoint: 0x121A2, name: "CUNEIFORM SIGN KI TIMES U", aliases: &[] },
        Codepoint { codepoint: 0x121A3, name: "CUNEIFORM SIGN KI TIMES UD", aliases: &[] },
        Codepoint { codepoint: 0x121A4, name: "CUNEIFORM SIGN KID", aliases: &[] },
        Codepoint { codepoint: 0x121A5, name: "CUNEIFORM SIGN KIN", aliases: &[] },
        Codepoint { codepoint: 0x121A6, name: "CUNEIFORM SIGN KISAL", aliases: &[] },
        Codepoint { codepoint: 0x121A7, name: "CUNEIFORM SIGN KISH", aliases: &[] },
        Codepoint { codepoint: 0x121A8, name: "CUNEIFORM SIGN KISIM5", aliases: &[] },
        Codepoint { codepoint: 0x121A9, name: "CUNEIFORM SIGN KISIM5 OVER KISIM5", aliases: &[] },
        Codepoint { codepoint: 0x121AA, name: "CUNEIFORM SIGN KU", aliases: &[] },
        Codepoint { codepoint: 0x121AB, name: "CUNEIFORM SIGN KU OVER HI TIMES ASH2 KU OVER HI TIMES ASH2", aliases: &[] },
        Codepoint { codepoint: 0x121AC, name: "CUNEIFORM SIGN KU3", aliases: &[] },
        Codepoint { codepoint: 0x121AD, name: "CUNEIFORM SIGN KU4", aliases: &[] },
        Codepoint { codepoint: 0x121AE, name: "CUNEIFORM SIGN KU4 VARIANT FORM", aliases: &[] },
        Codepoint { codepoint: 0x121AF, name: "CUNEIFORM SIGN KU7", aliases: &[] },
        Codepoint { codepoint: 0x121B0, name: "CUNEIFORM SIGN KUL", aliases: &[] },
        Codepoint { codepoint: 0x121B1, name: "CUNEIFORM SIGN KUL GUNU", aliases: &[] },
        Codepoint { codepoint: 0x121B2, name: "CUNEIFORM SIGN KUN", aliases: &[] },
        Codepoint { codepoint: 0x121B3, name: "CUNEIFORM SIGN KUR", aliases: &[] },
        Codepoint { codepoint: 0x121B4, name: "CUNEIFORM SIGN KUR OPPOSING KUR", aliases: &[] },
        Codepoint { codepoint: 0x121B5, name: "CUNEIFORM SIGN KUSHU2", aliases: &[] },
        Codepoint { codepoint: 0x121B6, name: "CUNEIFORM SIGN KWU318", aliases: &[] },
        Codepoint { codepoint: 0x121B7, name: "CUNEIFORM SIGN LA", aliases: &[] },
        Codepoint { codepoint: 0x121B8, name: "CUNEIFORM SIGN LAGAB", aliases: &[] },
        Codepoint { codepoint: 0x121B9, name: "CUNEIFORM SIGN LAGAB TIMES A", aliases: &[] },
    ];
    assert(v@ =~= codepoint_table_551());
    v
}

pub open spec fn codepoint_table_552() -> Seq<Codepoint> {
    seq![
        Codepoint { codepoint: 0x121BA, name: "CUNEIFORM SIGN LAGAB TIMES A PLUS DA PLUS HA", aliases: &[] },
        Codepoint { codepoint: 0x121BB, name: "CUNEIFORM SIGN LAGAB TIMES A PLUS GAR", aliases: &[] },
        Codepoint { codepoint: 0x121BC, name: "CUNEIFORM SIGN LAGAB TIMES A PLUS LAL", aliases: &[] },
        Codepoint { codepoint: 0x121BD, name: "CUNEIFORM SIGN LAGAB TIMES AL", aliases: &[] },
        Codepoint { codepoint: 0x121BE, name: "CUNEIFORM SIGN LAGAB TIMES AN", aliases: &[] },
        Codepoint { codepoint: 0x121BF, name: "CUNEIFORM SIGN LAGAB TIMES ASH ZIDA TENU", aliases: &[] },
        Codepoint { codepoint: 0x121C0, name: "CUNEIFORM SIGN LAGAB TIMES BAD", aliases: &[] },
        Codepoint { codepoint: 0x121C1, name: "CUNEIFORM SIGN LAGAB TIMES BI", aliases: &[] },
        Codepoint { codepoint: 0x121C2, name: "CUNEIFORM SIGN LAGAB TIMES DAR", aliases: &[] },
        Codepoint { codepoint: 0x121C3, name: "CUNEIFORM SIGN LAGAB TIMES EN", aliases: &[] },
        Codepoint { codepoint: 0x121C4, name: "CUNEIFORM SIGN LAGAB TIMES GA", aliases: &[] },
        Codepoint { codepoint: 0x121C5, name: "CUNEIFORM SIGN LAGAB TIMES GAR", aliases: &[] },
        Codepoint { codepoint: 0x121C6, name: "CUNEIFORM SIGN LAGAB TIMES GUD", aliases: &[] },
        Codepoint { codepoint: 0x121C7, name: "CUNEIFORM SIGN LAGAB TIMES GUD PLUS GUD", aliases: &[] },
        Codepoint { codepoint: 0x121C8, name: "CUNEIFORM SIGN LAGAB TIMES HA", aliases: &[] },
        Codepoint { codepoint: 0x121C9, name: "CUNEIFORM SIGN LAGAB TIMES HAL", aliases: &[] },
        Codepoint { codepoint: 0x121CA, name: "CUNEIFORM SIGN LAGAB TIMES HI TIMES NUN", aliases: &[] },
        Codepoint { codepoint: 0x121CB, name: "CUNEIFORM SIGN LAGAB TIMES IGI GUNU", aliases: &[] },
        Codepoint { codepoint: 0x121CC, name: "CUNEIFORM SIGN LAGAB TIMES IM", aliases: &[] },
        Codepoint { codepoint: 0x121CD, name: "CUNEIFORM SIGN LAGAB TIMES IM PLUS HA", aliases: &[] },
        Codepoint { codepoint: 0x121CE, name: "CUNEIFORM SIGN LAGAB TIMES IM PLUS LU", aliases: &[] },
        Codepoint { codepoint: 0x121CF, name: "CUNEIFORM SIGN LAGAB TIMES KI", aliases: &[] },
        Codepoint { codepoint: 0x121D0, name: "CUNEIFORM SIGN LAGAB TIMES KIN", aliases: &[] },
        Codepoint { codepoint: 0x121D1, name: "CUNEIFORM SIGN LAGAB TIMES KU3", aliases: &[] },
        Codepoint { codepoint: 0x121D2, name: "CUNEIFORM SIGN LAGAB TIMES KUL", aliases: &[] },
        Codepoint { codepoint: 0x121D3, name: "CUNEIFORM SIGN LAGAB TIMES KUL PLUS HI PLUS A", aliases: &[] },
        Codepoint { codepoint: 0x121D4, name: "CUNEIFORM SIGN LAGAB TIMES LAGAB", aliases: &[] },
        Codepoint { codepoint: 0x121D5, name: "CUNEIFORM SIGN LAGAB TIMES LISH", aliases: &[] },
        Codepoint { codepoint: 0x121D6, name: "CUNEIFORM SIGN LAGAB TIMES LU", aliases: &[] },
        Codepoint { codepoint: 0x121D7, name: "CUNEIFORM SIGN LAGAB TIMES LUL", aliases: &[] },
        Codepoint { codepoint: 0x121D8, name: "CUNEIFORM SIGN LAGAB TIMES ME", aliases: &[] },
        Codepoint { codepoint: 0x121D9, name: "CUNEIFORM SIGN LAGAB TIMES ME PLUS EN", aliases: &[] },
        Codepoint { codepoint: 0x121DA, name: "CUNEIFORM SIGN LAGAB TIMES MUSH", aliases: &[] },
        Codepoint { codepoint: 0x121DB, name: "CUNEIFORM SIGN LAGAB TIMES NE", aliases: &[] },
        Codepoint { codepoint: 0x121DC, name: "CUNEIFORM SIGN LAGAB TIMES SHE PLUS SUM", aliases: &[] },
        Codepoint { codepoint: 0x121DD, name: "CUNEIFORM SIGN LAGAB TIMES SHITA PLUS GISH PLUS ERIN2", aliases: &[] },
        Codepoint { codepoint: 0x121DE, name: "CUNEIFORM SIGN LAGAB TIMES SHITA PLUS GISH TENU", aliases: &[] },
        Codepoint { codepoint: 0x121DF, name: "CUNEIFORM SIGN LAGAB TIMES SHU2", aliases: &[] },
        Codepoint { codepoint: 0x121E0, name: "CUNEIFORM SIGN LAGAB TIMES SHU2 PLUS SHU2", aliases: &[] },
        Codepoint { codepoint: 0x121E1, name: "CUNEIFORM SIGN LAGAB TIMES SUM", aliases: &[] },
    ]
}

fn all_codepoints_552() -> (v: Vec<Codepoint>)
    ensures
        v@ == codepoint_table_552(),
{
    let v = vec![
        Codepoint { codepoint: 0x121BA, name: "CUNEIFORM SIGN LAGAB TIMES A PLUS DA PLUS HA", aliases: &[] },
        Codepoint { codepoint: 0x121BB, name: "CUNEIFORM SIGN LAGAB TIMES A PLUS GAR", aliases: &[] },
        Codepoint { codepoint: 0x121BC, name: "CUNEIFORM SIGN LAGAB TIMES A PLUS LAL", aliases: &[] },
        Codepoint { codepoint: 0x121BD, name: "CUNEIFORM SIGN LAGAB TIMES AL", aliases: &[] },
        Codepoint { codepoint: 0x121BE, name: "CUNEIFORM SIGN LAGAB TIMES AN", aliases: &[] },
        Codepoint { codepoint: 0x121BF, name: "CUNEIFORM SIGN LAGAB TIMES ASH ZIDA TENU", aliases: &[] },
        Codepoint { codepoint: 0x121C0, name: "CUNEIFORM SIGN LAGAB TIMES BAD", aliases: &[] },
        Codepoint { codepoint: 0x121C1, name: "CUNEIFORM SIGN LAGAB TIMES BI", aliases: &[] },
        Codepoint { codepoint: 0x121C2, name: "CUNEIFORM SIGN LAGAB TIMES DAR", aliases: &[] },
        Codepoint { codepoint: 0x121C3, name: "CUNEIFORM SIGN LAGAB TIMES EN", aliases: &[] },
        Codepoint { codepoint: 0x121C4, name: "CUNEIFORM SIGN LAGAB TIMES GA", aliases: &[] },
        Codepoint { codepoint: 0x121C5, name: "CUNEIFORM SIGN LAGAB TIMES GAR", aliases: &[] },
        Codepoint { codepoint: 0x121C6, name: "CUNEIFORM SIGN LAGAB TIMES GUD", aliases: &[] },
        Codepoint { codepoint: 0x121C7, name: "CUNEIFORM SIGN LAGAB TIMES GUD PLUS GUD", aliases: &[] },
        Codepoint { codepoint: 0x121C8, name: "CUNEIFORM SIGN LAGAB TIMES HA", aliases: &[] },
        Codepoint { codepoint: 0x121C9, name: "CUNEIFORM SIGN LAGAB TIMES HAL", aliases: &[] },
        Codepoint { codepoint: 0x121CA, name: "CUNEIFORM SIGN LAGAB TIMES HI TIMES NUN", aliases: &[] },
        Codepoint { codepoint: 0x121CB, name: "CUNEIFORM SIGN LAGAB TIMES IGI GUNU", aliases: &[] },
        Codepoint { codepoint: 0x121CC, name: "CUNEIFORM SIGN LAGAB TIMES IM", aliases: &[] },
        Codepoint { codepoint: 0x121CD, name: "CUNEIFORM SIGN LAGAB TIMES IM PLUS HA", aliases: &[] },
        Codepoint { codepoint: 0x121CE, name: "CUNEIFORM SIGN LAGAB TIMES IM PLUS LU", aliases: &[] },
        Codepoint { codepoint: 0x121CF, name: "CUNEIFORM SIGN LAGAB TIMES KI", aliases: &[] },
        Codepoint { codepoint: 0x121D0, name: "CUNEIFORM SIGN LAGAB TIMES KIN", aliases: &[] },
        Codepoint { codepoint: 0x121D1, name: "CUNEIFORM SIGN LAGAB TIMES KU3", aliases: &[] },
        Codepoint { codepoint: 0x121D2, name: "CUNEIFORM SIGN LAGAB TIMES KUL", aliases: &[] },
        Codepoint { codepoint: 0x121D3, name: "CUNEIFORM SIGN LAGAB TIMES KUL PLUS HI PLUS A", aliases: &[] },
        Codepoint { codepoint: 0x121D4, name: "CUNEIFORM SIGN LAGAB TIMES LAGAB", aliases: &[] },
        Codepoint { codepoint: 0x121D5, name: "CUNEIFORM SIGN LAGAB TIMES LISH", aliases: &[] },
        Codepoint { codepoint: 0x121D6, name: "CUNEIFORM SIGN LAGAB TIMES LU", aliases: &[] },
        Codepoint { codepoint: 0x121D7, name: "CUNEIFORM SIGN LAGAB TIMES LUL", aliases: &[] },
        Codepoint { codepoint: 0x121D8, name: "CUNEIFORM SIGN LAGAB TIMES ME", aliases: &[] },
        Codepoint { codepoint: 0x121D9, name: "CUNEIFORM SIGN LAGAB TIMES ME PLUS EN", aliases: &[] },
        Codepoint { codepoint: 0x121DA, name: "CUNEIFORM SIGN LAGAB TIMES MUSH", aliases: &[] },
        Codepoint { codepoint: 0x121DB, name: "CUNEIFORM SIGN LAGAB TIMES NE", aliases: &[] },
        Codepoint { codepoint: 0x121DC, name: "CUNEIFORM SIGN LAGAB TIMES SHE PLUS SUM", aliases: &[] },
        Codepoint { codepoint: 0x121DD, name: "CUNEIFORM SIGN LAGAB TIMES SHITA PLUS GISH PLUS ERIN2", aliases: &[] },
        Codepoint { codepoint: 0x121DE, name: "CUNEIFORM SIGN LAGAB TIMES SHITA PLUS GISH TENU", aliases: &[] },
        Codepoint { codepoint: 0x121DF, name: "CUNEIFORM SIGN LAGAB TIMES SHU2", aliases: &[] },
        Codepoint { codepoint: 0x121E0, name: "CUNEIFORM SIGN LAGAB TIMES SHU2 PLUS SHU2", aliases: &[] },
        Codepoint { codepoint: 0x121E1, name: "CUNEIFORM SIGN LAGAB TIMES SUM", aliases: &[] },
    ];
    assert(v@ =~= codepoint_table_552());
    v
}

pub open spec fn codepoint_table_553() -> Seq<Codepoint> {
    seq![
        Codepoint { codepoint: 0x121E2, name: "CUNEIFORM SIGN LAGAB TIMES TAG", aliases: &[] },
        Codepoint { codepoint: 0x121E3, name: "CUNEIFORM SIGN LAGAB TIMES TAK4", aliases: &[] },
        Codepoint { codepoint: 0x121E4, name: "CUNEIFORM SIGN LAGAB TIMES TE PLUS A PLUS SU PLUS NA", aliases: &[] },
        Codepoint { codepoint: 0x121E5, name: "CUNEIFORM SIGN LAGAB TIMES U", aliases: &[] },
        Codepoint { codepoint: 0x121E6, name: "CUNEIFORM SIGN LAGAB TIMES U PLUS A", aliases: &[] },
        Codepoint { codepoint: 0x121E7, name: "CUNEIFORM SIGN LAGAB TIMES U PLUS U PLUS U", aliases: &[] },
        Codepoint { codepoint: 0x121E8, name: "CUNEIFORM SIGN LAGAB TIMES U2 PLUS ASH", aliases: &[] },
        Codepoint { codepoint: 0x121E9, name: "CUNEIFORM SIGN LAGAB TIMES UD", aliases: &[] },
        Codepoint { codepoint: 0x121EA, name: "CUNEIFORM SIGN LAGAB TIMES USH", aliases: &[] },
        Codepoint { codepoint: 0x121EB, name: "CUNEIFORM SIGN LAGAB SQUARED", aliases: &[] },
        Codepoint { codepoint: 0x121EC, name: "CUNEIFORM SIGN LAGAR", aliases: &[] },
        Codepoint { codepoint: 0x121ED, name: "CUNEIFORM SIGN LAGAR TIMES SHE", aliases: &[] },
        Codepoint { codepoint: 0x121EE, name: "CUNEIFORM SIGN LAGAR TIMES SHE PLUS SUM", aliases: &[] },
        Codepoint { codepoint: 0x121EF, name: "CUNEIFORM SIGN LAGAR GUNU", aliases: &[] },
        Codepoint { codepoint: 0x121F0, name: "CUNEIFORM SIGN LAGAR GUNU OVER LAGAR GUNU SHE", aliases: &[] },
        Codepoint { codepoint: 0x121F1, name: "CUNEIFORM SIGN LAHSHU", aliases: &[] },
        Codepoint { codepoint: 0x121F2, name: "CUNEIFORM SIGN LAL", aliases: &[] },
        Codepoint { codepoint: 0x121F3, name: "CUNEIFORM SIGN LAL TIMES LAL", aliases: &[] },
        Codepoint { codepoint: 0x121F4, name: "CUNEIFORM SIGN LAM", aliases: &[] },
        Codepoint { codepoint: 0x121F5, name: "CUNEIFORM SIGN LAM TIMES KUR", aliases: &[] },
        Codepoint { codepoint: 0x121F6, name: "CUNEIFORM SIGN LAM TIMES KUR PLUS RU", aliases: &[] },
        Codepoint { codepoint: 0x121F7, name: "CUNEIFORM SIGN LI", aliases: &[] },
        Codepoint { codepoint: 0x121F8, name: "CUNEIFORM SIGN LIL", aliases: &[] },
        Codepoint { codepoint: 0x121F9, name: "CUNEIFORM SIGN LIMMU2", aliases: &[] },
        Codepoint { codepoint: 0x121FA, name: "CUNEIFORM SIGN LISH", aliases: &[] },
        Codepoint { codepoint: 0x121FB, name: "CUNEIFORM SIGN LU", aliases: &[] },
        Codepoint { codepoint: 0x121FC, name: "CUNEIFORM SIGN LU TIMES BAD", aliases: &[] },
        Codepoint { codepoint: 0x121FD, name: "CUNEIFORM SIGN LU2", aliases: &[] },
        Codepoint { codepoint: 0x121FE, name: "CUNEIFORM SIGN LU2 TIMES AL", aliases: &[] },
        Codepoint { codepoint: 0x121FF, name: "CUNEIFORM SIGN LU2 TIMES BAD", aliases: &[] },
        Codepoint { codepoint: 0x12200, name: "CUNEIFORM SIGN LU2 TIMES ESH2", aliases: &[] },
        Codepoint { codepoint: 0x12201, name: "CUNEIFORM SIGN LU2 TIMES ESH2 TENU", aliases: &[] },
        Codepoint { codepoint: 0x12202, name: "CUNEIFORM SIGN LU2 TIMES GAN2 TENU", aliases: &[] },
        Codepoint { codepoint: 0x12203, name: "CUNEIFORM SIGN LU2 TIMES HI TIMES BAD", aliases: &[] },
        Codepoint { codepoint: 0x12204, name: "CUNEIFORM SIGN LU2 TIMES IM", aliases: &[] },
        Codepoint { codepoint: 0x12205, name: "CUNEIFORM SIGN LU2 TIMES KAD2", aliases: &[] },
        Codepoint { codepoint: 0x12206, name: "CUNEIFORM SIGN LU2 TIMES KAD3", aliases: &[] },
        Codepoint { codepoint: 0x12207, name: "CUNEIFORM SIGN LU2 TIMES KAD3 PLUS ASH", aliases: &[] },
        Codepoint { codepoint: 0x12208, name: "CUNEIFORM SIGN LU2 TIMES KI", aliases: &[] },
        Codepoint { codepoint: 0x12209, name: "CUNEIFORM SIGN LU2 TIMES LA PLUS ASH", aliases: &[] },
    ]
}

fn all_codepoints_553() -> (v: Vec<Codepoint>)
    ensures
        v@ == codepoint_table_553(),
{
    let v = vec![
        Codepoint { codepoint: 0x121E2, name: "CUNEIFORM SIGN LAGAB TIMES TAG", aliases: &[] },
        Codepoint { codepoint: 0x121E3, name: "CUNEIFORM SIGN LAGAB TIMES TAK4", aliases: &[] },
        Codepoint { codepoint: 0x121E4, name: "CUNEIFORM SIGN LAGAB TIMES TE PLUS A PLUS SU PLUS NA", aliases: &[] },
        Codepoint { codepoint: 0x121E5, name: "CUNEIFORM SIGN LAGAB TIMES U", aliases: &[] },
        Codepoint { codepoint: 0x121E6, name: "CUNEIFORM SIGN LAGAB TIMES U PLUS A", aliases: &[] },
        Codepoint { codepoint: 0x121E7, name: "CUNEIFORM SIGN LAGAB TIMES U PLUS U PLUS U", aliases: &[] },
        Codepoint { codepoint: 0x121E8, name: "CUNEIFORM SIGN LAGAB TIMES U2 PLUS ASH", aliases: &[] },
        Codepoint { codepoint: 0x121E9, name: "CUNEIFORM SIGN LAGAB TIMES UD", aliases: &[] },
        Codepoint { codepoint: 0x121EA, name: "CUNEIFORM SIGN LAGAB TIMES USH", aliases: &[] },
        Codepoint { codepoint: 0x121EB, name: "CUNEIFORM SIGN LAGAB SQUARED", aliases: &[] },
        Codepoint { codepoint: 0x121EC, name: "CUNEIFORM SIGN LAGAR", aliases: &[] },
        Codepoint { codepoint: 0x121ED, name: "CUNEIFORM SIGN LAGAR TIMES SHE", aliases: &[] },
        Codepoint { codepoint: 0x121EE, name: "CUNEIFORM SIGN LAGAR TIMES SHE PLUS SUM", aliases: &[] },
        Codepoint { codepoint: 0x121EF, name: "CUNEIFORM SIGN LAGAR GUNU", aliases: &[] },
        Codepoint { codepoint: 0x121F0, name: "CUNEIFORM SIGN LAGAR GUNU OVER LAGAR GUNU SHE", aliases: &[] },
        Codepoint { codepoint: 0x121F1, name: "CUNEIFORM SIGN LAHSHU", aliases: &[] },
        Codepoint { codepoint: 0x121F2, name: "CUNEIFORM SIGN LAL", aliases: &[] },
        Codepoint { codepoint: 0x121F3, name: "CUNEIFORM SIGN LAL TIMES LAL", aliases: &[] },
        Codepoint { codepoint: 0x121F4, name: "CUNEIFORM SIGN LAM", aliases: &[] },
        Codepoint { codepoint: 0x121F5, name: "CUNEIFORM SIGN LAM TIMES KUR", aliases: &[] },
        Codepoint { codepoint: 0x121F6, name: "CUNEIFORM SIGN LAM TIMES KUR PLUS RU", aliases: &[] },
        Codepoint { codepoint: 0x121F7, name: "CUNEIFORM SIGN LI", aliases: &[] },
        Codepoint { codepoint: 0x121F8, name: "CUNEIFORM SIGN LIL", aliases: &[] },
        Codepoint { codepoint: 0x121F9, name: "CUNEIFORM SIGN LIMMU2", aliases: &[] },
        Codepoint { codepoint: 0x121FA, name: "CUNEIFORM SIGN LISH", aliases: &[] },
        Codepoint { codepoint: 0x121FB, name: "CUNEIFORM SIGN LU", aliases: &[] },
        Codepoint { codepoint: 0x121FC, name: "CUNEIFORM SIGN LU TIMES BAD", aliases: &[] },
        Codepoint { codepoint: 0x121FD, name: "CUNEIFORM SIGN LU2", aliases: &[] },
        Codepoint { codepoint: 0x121FE, name: "CUNEIFORM SIGN LU2 TIMES AL", aliases: &[] },
        Codepoint { codepoint: 0x121FF, name: "CUNEIFORM SIGN LU2 TIMES BAD", aliases: &[] },
        Codepoint { codepoint: 0x12200, name: "CUNEIFORM SIGN LU2 TIMES ESH2", aliases: &[] },
        Codepoint { codepoint: 0x12201, name: "CUNEIFORM SIGN LU2 TIMES ESH2 TENU", aliases: &[] },
        Codepoint { codepoint: 0x12202, name: "CUNEIFORM SIGN LU2 TIMES GAN2 TENU", aliases: &[] },
        Codepoint { codepoint: 0x12203, name: "CUNEIFORM SIGN LU2 TIMES HI TIMES BAD", aliases: &[] },
        Codepoint { codepoint: 0x12204, name: "CUNEIFORM SIGN LU2 TIMES IM", aliases: &[] },
        Codepoint { codepoint: 0x12205, name: "CUNEIFORM SIGN LU2 TIMES KAD2", aliases: &[] },
        Codepoint { codepoint: 0x12206, name: "CUNEIFORM SIGN LU2 TIMES KAD3", aliases: &[] },
        Codepoint { codepoint: 0x12207, name: "CUNEIFORM SIGN LU2 TIMES KAD3 PLUS ASH", aliases: &[] },
        Codepoint { codepoint: 0x12208, name: "CUNEIFORM SIGN LU2 TIMES KI", aliases: &[] },
        Codepoint { codepoint: 0x12209, name: "CUNEIFORM SIGN LU2 TIMES LA PLUS ASH", aliases: &[] },
    ];
    assert(v@ =~= codepoint_table_553());
    v
}

pub open spec fn codepoint_table_554() -> Seq<Codepoint> {
    seq![
        Codepoint { codepoint: 0x1220A, name: "CUNEIFORM SIGN LU2 TIMES LAGAB", aliases: &[] },
        Codepoint { codepoint: 0x1220B, name: "CUNEIFORM SIGN LU2 TIMES ME PLUS EN", aliases: &[] },
        Codepoint { codepoint: 0x1220C, name: "CUNEIFORM SIGN LU2 TIMES NE", aliases: &[] },
        Codepoint { codepoint: 0x1220D, name: "CUNEIFORM SIGN LU2 TIMES NU", aliases: &[] },
        Codepoint { codepoint: 0x1220E, name: "CUNEIFORM SIGN LU2 TIMES SI PLUS ASH", aliases: &[] },
        Codepoint { codepoint: 0x1220F, name: "CUNEIFORM SIGN LU2 TIMES SIK2 PLUS BU", aliases: &[] },
        Codepoint { codepoint: 0x12210, name: "CUNEIFORM SIGN LU2 TIMES TUG2", aliases: &[] },
        Codepoint { codepoint: 0x12211, name: "CUNEIFORM SIGN LU2 TENU", aliases: &[] },
        Codepoint { codepoint: 0x12212, name: "CUNEIFORM SIGN LU2 CROSSING LU2", aliases: &[] },
        Codepoint { codepoint: 0x12213, name: "CUNEIFORM SIGN LU2 OPPOSING LU2", aliases: &[] },
        Codepoint { codepoint: 0x12214, name: "CUNEIFORM SIGN LU2 SQUARED", aliases: &[] },
        Codepoint { codepoint: 0x12215, name: "CUNEIFORM SIGN LU2 SHESHIG", aliases: &[] },
        Codepoint { codepoint: 0x12216, name: "CUNEIFORM SIGN LU3", aliases: &[] },
        Codepoint { codepoint: 0x12217, name: "CUNEIFORM SIGN LUGAL", aliases: &[] },
        Codepoint { codepoint: 0x12218, name: "CUNEIFORM SIGN LUGAL OVER LUGAL", aliases: &[] },
        Codepoint { codepoint: 0x12219, name: "CUNEIFORM SIGN LUGAL OPPOSING LUGAL", aliases: &[] },
        Codepoint { codepoint: 0x1221A, name: "CUNEIFORM SIGN LUGAL SHESHIG", aliases: &[] },
        Codepoint { codepoint: 0x1221B, name: "CUNEIFORM SIGN LUH", aliases: &[] },
        Codepoint { codepoint: 0x1221C, name: "CUNEIFORM SIGN LUL", aliases: &[] },
        Codepoint { codepoint: 0x1221D, name: "CUNEIFORM SIGN LUM", aliases: &[] },
        Codepoint { codepoint: 0x1221E, name: "CUNEIFORM SIGN LUM OVER LUM", aliases: &[] },
        Codepoint { codepoint: 0x1221F, name: "CUNEIFORM SIGN LUM OVER LUM GAR OVER GAR", aliases: &[] },
        Codepoint { codepoint: 0x12220, name: "CUNEIFORM SIGN MA", aliases: &[] },
        Codepoint { codepoint: 0x12221, name: "CUNEIFORM SIGN MA TIMES TAK4", aliases: &[] },
        Codepoint { codepoint: 0x12222, name: "CUNEIFORM SIGN MA GUNU", aliases: &[] },
        Codepoint { codepoint: 0x12223, name: "CUNEIFORM SIGN MA2", aliases: &[] },
        Codepoint { codepoint: 0x12224, name: "CUNEIFORM SIGN MAH", aliases: &[] },
        Codepoint { codepoint: 0x12225, name: "CUNEIFORM SIGN MAR", aliases: &[] },
        Codepoint { codepoint: 0x12226, name: "CUNEIFORM SIGN MASH", aliases: &[] },
        Codepoint { codepoint: 0x12227, name: "CUNEIFORM SIGN MASH2", aliases: &[] },
        Codepoint { codepoint: 0x12228, name: "CUNEIFORM SIGN ME", aliases: &[] },
        Codepoint { codepoint: 0x12229, name: "CUNEIFORM SIGN MES", aliases: &[] },
        Codepoint { codepoint: 0x1222A, name: "CUNEIFORM SIGN MI", aliases: &[] },
        Codepoint { codepoint: 0x1222B, name: "CUNEIFORM SIGN MIN", aliases: &[] },
        Codepoint { codepoint: 0x1222C, name: "CUNEIFORM SIGN MU", aliases: &[] },
        Codepoint { codepoint: 0x1222D, name: "CUNEIFORM SIGN MU OVER MU", aliases: &[] },
        Codepoint { codepoint: 0x1222E, name: "CUNEIFORM SIGN MUG", aliases: &[] },
        Codepoint { codepoint: 0x1222F, name: "CUNEIFORM SIGN MUG GUNU", aliases: &[] },
        Codepoint { codepoint: 0x12230, name: "CUNEIFORM SIGN MUNSUB", aliases: &[] },
        Codepoint { codepoint: 0x12231, name: "CUNEIFORM SIGN MURGU2", aliases: &[] },
    ]
}

fn all_codepoints_554() -> (v: Vec<Codepoint>)
    ensures
        v@ == codepoint_table_554(),
{
    let v = vec![
        Codepoint { codepoint: 0x1220A, name: "CUNEIFORM SIGN LU2 TIMES LAGAB", aliases: &[] },
        Codepoint { codepoint: 0x1220B, name: "CUNEIFORM SIGN LU2 TIMES ME PLUS EN", aliases: &[] },
        Codepoint { codepoint: 0x1220C, name: "CUNEIFORM SIGN LU2 TIMES NE", aliases: &[] },
        Codepoint { codepoint: 0x1220D, name: "CUNEIFORM SIGN LU2 TIMES NU", aliases: &[] },
        Codepoint { codepoint: 0x1220E, name: "CUNEIFORM SIGN LU2 TIMES SI PLUS ASH", aliases: &[] },
        Codepoint { codepoint: 0x1220F, name: "CUNEIFORM SIGN LU2 TIMES SIK2 PLUS BU", aliases: &[] },
        Codepoint { codepoint: 0x12210, name: "CUNEIFORM SIGN LU2 TIMES TUG2", aliases: &[] },
        Codepoint { codepoint: 0x12211, name: "CUNEIFORM SIGN LU2 TENU", aliases: &[] },
        Codepoint { codepoint: 0x12212, name: "CUNEIFORM SIGN LU2 CROSSING LU2", aliases: &[] },
        Codepoint { codepoint: 0x12213, name: "CUNEIFORM SIGN LU2 OPPOSING LU2", aliases: &[] },
        Codepoint { codepoint: 0x12214, name: "CUNEIFORM SIGN LU2 SQUARED", aliases: &[] },
        Codepoint { codepoint: 0x12215, name: "CUNEIFORM SIGN LU2 SHESHIG", aliases: &[] },
        Codepoint { codepoint: 0x12216, name: "CUNEIFORM SIGN LU3", aliases: &[] },
        Codepoint { codepoint: 0x12217, name: "CUNEIFORM SIGN LUGAL", aliases: &[] },
        Codepoint { codepoint: 0x12218, name: "CUNEIFORM SIGN LUGAL OVER LUGAL", aliases: &[] },
        Codepoint { codepoint: 0x12219, name: "CUNEIFORM SIGN LUGAL OPPOSING LUGAL", aliases: &[] },
        Codepoint { codepoint: 0x1221A, name: "CUNEIFORM SIGN LUGAL SHESHIG", aliases: &[] },
        Codepoint { codepoint: 0x1221B, name: "CUNEIFORM SIGN LUH", aliases: &[] },
        Codepoint { codepoint: 0x1221C, name: "CUNEIFORM SIGN LUL", aliases: &[] },
        Codepoint { codepoint: 0x1221D, name: "CUNEIFORM SIGN LUM", aliases: &[] },
        Codepoint { codepoint: 0x1221E, name: "CUNEIFORM SIGN LUM OVER LUM", aliases: &[] },
        Codepoint { codepoint: 0x1221F, name: "CUNEIFORM SIGN LUM OVER LUM GAR OVER GAR", aliases: &[] },
        Codepoint { codepoint: 0x12220, name: "CUNEIFORM SIGN MA", aliases: &[] },
        Codepoint { codepoint: 0x12221, name: "CUNEIFORM SIGN MA TIMES TAK4", aliases: &[] },
        Codepoint { codepoint: 0x12222, name: "CUNEIFORM SIGN MA GUNU", aliases: &[] },
        Codepoint { codepoint: 0x12223, name: "CUNEIFORM SIGN MA2", aliases: &[] },
        Codepoint { codepoint: 0x12224, name: "CUNEIFORM SIGN MAH", aliases: &[] },
        Codepoint { codepoint: 0x12225, name: "CUNEIFORM SIGN MAR", aliases: &[] },
        Codepoint { codepoint: 0x12226, name: "CUNEIFORM SIGN MASH", aliases: &[] },
        Codepoint { codepoint: 0x12227, name: "CUNEIFORM SIGN MASH2", aliases: &[] },
        Codepoint { codepoint: 0x12228, name: "CUNEIFORM SIGN ME", aliases: &[] },
        Codepoint { codepoint: 0x12229, name: "CUNEIFORM SIGN MES", aliases: &[] },
        Codepoint { codepoint: 0x1222A, name: "CUNEIFORM SIGN MI", aliases: &[] },
        Codepoint { codepoint: 0x1222B, name: "CUNEIFORM SIGN MIN", aliases: &[] },
        Codepoint { codepoint: 0x1222C, name: "CUNEIFORM SIGN MU", aliases: &[] },
        Codepoint { codepoint: 0x1222D, name: "CUNEIFORM SIGN MU OVER MU", aliases: &[] },
        Codepoint { codepoint: 0x1222E, name: "CUNEIFORM SIGN MUG", aliases: &[] },
        Codepoint { codepoint: 0x1222F, name: "CUNEIFORM SIGN MUG GUNU", aliases: &[] },
        Codepoint { codepoint: 0x12230, name: "CUNEIFORM SIGN MUNSUB", aliases: &[] },
        Codepoint { codepoint: 0x12231, name: "CUNEIFORM SIGN MURGU2", aliases: &[] },
    ];
    assert(v@ =~= codepoint_table_554());
    v
}

pub open spec fn codepoint_table_555() -> Seq<Codepoint> {
    seq![
        Codepoint { codepoint: 0x12232, name: "CUNEIFORM SIGN MUSH", aliases: &[] },
        Codepoint { codepoint: 0x12233, name: "CUNEIFORM SIGN MUSH TIMES A", aliases: &[] },
        Codepoint { codepoint: 0x12234, name: "CUNEIFORM SIGN MUSH TIMES KUR", aliases: &[] },
        Codepoint { codepoint: 0x12235, name: "CUNEIFORM SIGN MUSH TIMES ZA", aliases: &[] },
        Codepoint { codepoint: 0x12236, name: "CUNEIFORM SIGN MUSH OVER MUSH", aliases: &[] },
        Codepoint { codepoint: 0x12237, name: "CUNEIFORM SIGN MUSH OVER MUSH TIMES A PLUS NA", aliases: &[] },
        Codepoint { codepoint: 0x12238, name: "CUNEIFORM SIGN MUSH CROSSING MUSH", aliases: &[] },
        Codepoint { codepoint: 0x12239, name: "CUNEIFORM SIGN MUSH3", aliases: &[] },
        Codepoint { codepoint: 0x1223A, name: "CUNEIFORM SIGN MUSH3 TIMES A", aliases: &[] },
        Codepoint { codepoint: 0x1223B, name: "CUNEIFORM SIGN MUSH3 TIMES A PLUS DI", aliases: &[] },
        Codepoint { codepoint: 0x1223C, name: "CUNEIFORM SIGN MUSH3 TIMES DI", aliases: &[] },
        Codepoint { codepoint: 0x1223D, name: "CUNEIFORM SIGN MUSH3 GUNU", aliases: &[] },
        Codepoint { codepoint: 0x1223E, name: "CUNEIFORM SIGN NA", aliases: &[] },
        Codepoint { codepoint: 0x1223F, name: "CUNEIFORM SIGN NA2", aliases: &[] },
        Codepoint { codepoint: 0x12240, name: "CUNEIFORM SIGN NAGA", aliases: &[] },
        Codepoint { codepoint: 0x12241, name: "CUNEIFORM SIGN NAGA INVERTED", aliases: &[] },
        Codepoint { codepoint: 0x12242, name: "CUNEIFORM SIGN NAGA TIMES SHU TENU", aliases: &[] },
        Codepoint { codepoint: 0x12243, name: "CUNEIFORM SIGN NAGA OPPOSING NAGA", aliases: &[] },
        Codepoint { codepoint: 0x12244, name: "CUNEIFORM SIGN NAGAR", aliases: &[] },
        Codepoint { codepoint: 0x12245, name: "CUNEIFORM SIGN NAM NUTILLU", aliases: &[] },
        Codepoint { codepoint: 0x12246, name: "CUNEIFORM SIGN NAM", aliases: &[] },
        Codepoint { codepoint: 0x12247, name: "CUNEIFORM SIGN NAM2", aliases: &[] },
        Codepoint { codepoint: 0x12248, name: "CUNEIFORM SIGN NE", aliases: &[] },
        Codepoint { codepoint: 0x12249, name: "CUNEIFORM SIGN NE TIMES A", aliases: &[] },
        Codepoint { codepoint: 0x1224A, name: "CUNEIFORM SIGN NE TIMES UD", aliases: &[] },
        Codepoint { codepoint: 0x1224B, name: "CUNEIFORM SIGN NE SHESHIG", aliases: &[] },
        Codepoint { codepoint: 0x1224C, name: "CUNEIFORM SIGN NI", aliases: &[] },
        Codepoint { codepoint: 0x1224D, name: "CUNEIFORM SIGN NI TIMES E", aliases: &[] },
        Codepoint { codepoint: 0x1224E, name: "CUNEIFORM SIGN NI2", aliases: &[] },
        Codepoint { codepoint: 0x1224F, name: "CUNEIFORM SIGN NIM", aliases: &[] },
        Codepoint { codepoint: 0x12250, name: "CUNEIFORM SIGN NIM TIMES GAN2 TENU", aliases: &[] },
        Codepoint { codepoint: 0x12251, name: "CUNEIFORM SIGN NIM TIMES GAR PLUS GAN2 TENU", aliases: &[] },
        Codepoint { codepoint: 0x12252, name: "CUNEIFORM SIGN NINDA2", aliases: &[] },
        Codepoint { codepoint: 0x12253, name: "CUNEIFORM SIGN NINDA2 TIMES AN", aliases: &[] },
        Codepoint { codepoint: 0x12254, name: "CUNEIFORM SIGN NINDA2 TIMES ASH", aliases: &[] },
        Codepoint { codepoint: 0x12255, name: "CUNEIFORM SIGN NINDA2 TIMES ASH PLUS ASH", aliases: &[] },
        Codepoint { codepoint: 0x12256, name: "CUNEIFORM SIGN NINDA2 TIMES GUD", aliases: &[] },
        Codepoint { codepoint: 0x12257, name: "CUNEIFORM SIGN NINDA2 TIMES ME PLUS GAN2 TENU", aliases: &[] },
        Codepoint { codepoint: 0x12258, name: "CUNEIFORM SIGN NINDA2 TIMES NE", aliases: &[] },
        Codepoint { codepoint: 0x12259, name: "CUNEIFORM SIGN NINDA2 TIMES NUN", aliases: &[] },
    ]
}

fn all_codepoints_555() -> (v: Vec<Codepoint>)
    ensures
        v@ == codepoint_table_555(),
{
    let v = vec![
        Codepoint { codepoint: 0x12232, name: "CUNEIFORM SIGN MUSH", aliases: &[] },
        Codepoint { codepoint: 0x12233, name: "CUNEIFORM SIGN MUSH TIMES A", aliases: &[] },
        Codepoint { codepoint: 0x12234, name: "CUNEIFORM SIGN MUSH TIMES KUR", aliases: &[] },
        Codepoint { codepoint: 0x12235, name: "CUNEIFORM SIGN MUSH TIMES ZA", aliases: &[] },
        Codepoint { codepoint: 0x12236, name: "CUNEIFORM SIGN MUSH OVER MUSH", aliases: &[] },
        Codepoint { codepoint: 0x12237, name: "CUNEIFORM SIGN MUSH OVER MUSH TIMES A PLUS NA", aliases: &[] },
        Codepoint { codepoint: 0x12238, name: "CUNEIFORM SIGN MUSH CROSSING MUSH", aliases: &[] },
        Codepoint { codepoint: 0x12239, name: "CUNEIFORM SIGN MUSH3", aliases: &[] },
        Codepoint { codepoint: 0x1223A, name: "CUNEIFORM SIGN MUSH3 TIMES A", aliases: &[] },
        Codepoint { codepoint: 0x1223B, name: "CUNEIFORM SIGN MUSH3 TIMES A PLUS DI", aliases: &[] },
        Codepoint { codepoint: 0x1223C, name: "CUNEIFORM SIGN MUSH3 TIMES DI", aliases: &[] },
        Codepoint { codepoint: 0x1223D, name: "CUNEIFORM SIGN MUSH3 GUNU", aliases: &[] },
        Codepoint { codepoint: 0x1223E, name: "CUNEIFORM SIGN NA", aliases: &[] },
        Codepoint { codepoint: 0x1223F, name: "CUNEIFORM SIGN NA2", aliases: &[] },
        Codepoint { codepoint: 0x12240, name: "CUNEIFORM SIGN NAGA", aliases: &[] },
        Codepoint { codepoint: 0x12241, name: "CUNEIFORM SIGN NAGA INVERTED", aliases: &[] },
        Codepoint { codepoint: 0x12242, name: "CUNEIFORM SIGN NAGA TIMES SHU TENU", aliases: &[] },
        Codepoint { codepoint: 0x12243, name: "CUNEIFORM SIGN NAGA OPPOSING NAGA", aliases: &[] },
        Codepoint { codepoint: 0x12244, name: "CUNEIFORM SIGN NAGAR", aliases: &[] },
        Codepoint { codepoint: 0x12245, name: "CUNEIFORM SIGN NAM NUTILLU", aliases: &[] },
        Codepoint { codepoint: 0x12246, name: "CUNEIFORM SIGN NAM", aliases: &[] },
        Codepoint { codepoint: 0x12247, name: "CUNEIFORM SIGN NAM2", aliases: &[] },
        Codepoint { codepoint: 0x12248, name: "CUNEIFORM SIGN NE", aliases: &[] },
        Codepoint { codepoint: 0x12249, name: "CUNEIFORM SIGN NE TIMES A", aliases: &[] },
        Codepoint { codepoint: 0x1224A, name: "CUNEIFORM SIGN NE TIMES UD", aliases: &[] },
        Codepoint { codepoint: 0x1224B, name: "CUNEIFORM SIGN NE SHESHIG", aliases: &[] },
        Codepoint { codepoint: 0x1224C, name: "CUNEIFORM SIGN NI", aliases: &[] },
        Codepoint { codepoint: 0x1224D, name: "CUNEIFORM SIGN NI TIMES E", aliases: &[] },
        Codepoint { codepoint: 0x1224E, name: "CUNEIFORM SIGN NI2", aliases: &[] },
        Codepoint { codepoint: 0x1224F, name: "CUNEIFORM SIGN NIM", aliases: &[] },
        Codepoint { codepoint: 0x12250, name: "CUNEIFORM SIGN NIM TIMES GAN2 TENU", aliases: &[] },
        Codepoint { codepoint: 0x12251, name: "CUNEIFORM SIGN NIM TIMES GAR PLUS GAN2 TENU", aliases: &[] },
        Codepoint { codepoint: 0x12252, name: "CUNEIFORM SIGN NINDA2", aliases: &[] },
        Codepoint { codepoint: 0x12253, name: "CUNEIFORM SIGN NINDA2 TIMES AN", aliases: &[] },
        Codepoint { codepoint: 0x12254, name: "CUNEIFORM SIGN NINDA2 TIMES ASH", aliases: &[] },
        Codepoint { codepoint: 0x12255, name: "CUNEIFORM SIGN NINDA2 TIMES ASH PLUS ASH", aliases: &[] },
        Codepoint { codepoint: 0x12256, name: "CUNEIFORM SIGN NINDA2 TIMES GUD", aliases: &[] },
        Codepoint { codepoint: 0x12257, name: "CUNEIFORM SIGN NINDA2 TIMES ME PLUS GAN2 TENU", aliases: &[] },
        Codepoint { codepoint: 0x12258, name: "CUNEIFORM SIGN NINDA2 TIMES NE", aliases: &[] },
        Codepoint { codepoint: 0x12259, name: "CUNEIFORM SIGN NINDA2 TIMES NUN", aliases: &[] },
    ];
    assert(v@ =~= codepoint_table_555());
    v
}

pub open spec fn codepoint_table_556() -> Seq<Codepoint> {
    seq![
        Codepoint { codepoint: 0x1225A, name: "CUNEIFORM SIGN NINDA2 TIMES SHE", aliases: &[] },
        Codepoint { codepoint: 0x1225B, name: "CUNEIFORM SIGN NINDA2 TIMES SHE PLUS A AN", aliases: &[] },
        Codepoint { codepoint: 0x1225C, name: "CUNEIFORM SIGN NINDA2 TIMES SHE PLUS ASH", aliases: &[] },
        Codepoint { codepoint: 0x1225D, name: "CUNEIFORM SIGN NINDA2 TIMES SHE PLUS ASH PLUS ASH", aliases: &[] },
        Codepoint { codepoint: 0x1225E, name: "CUNEIFORM SIGN NINDA2 TIMES U2 PLUS ASH", aliases: &[] },
        Codepoint { codepoint: 0x1225F, name: "CUNEIFORM SIGN NINDA2 TIMES USH", aliases: &[] },
        Codepoint { codepoint: 0x12260, name: "CUNEIFORM SIGN NISAG", aliases: &[] },
        Codepoint { codepoint: 0x12261, name: "CUNEIFORM SIGN NU", aliases: &[] },
        Codepoint { codepoint: 0x12262, name: "CUNEIFORM SIGN NU11", aliases: &[] },
        Codepoint { codepoint: 0x12263, name: "CUNEIFORM SIGN NUN", aliases: &[] },
        Codepoint { codepoint: 0x12264, name: "CUNEIFORM SIGN NUN LAGAR TIMES GAR", aliases: &[] },
        Codepoint { codepoint: 0x12265, name: "CUNEIFORM SIGN NUN LAGAR TIMES MASH", aliases: &[] },
        Codepoint { codepoint: 0x12266, name: "CUNEIFORM SIGN NUN LAGAR TIMES SAL", aliases: &[] },
        Codepoint { codepoint: 0x12267, name: "CUNEIFORM SIGN NUN LAGAR TIMES SAL OVER NUN LAGAR TIMES SAL", aliases: &[] },
        Codepoint { codepoint: 0x12268, name: "CUNEIFORM SIGN NUN LAGAR TIMES USH", aliases: &[] },
        Codepoint { codepoint: 0x12269, name: "CUNEIFORM SIGN NUN TENU", aliases: &[] },
        Codepoint { codepoint: 0x1226A, name: "CUNEIFORM SIGN NUN OVER NUN", aliases: &[] },
        Codepoint { codepoint: 0x1226B, name: "CUNEIFORM SIGN NUN CROSSING NUN", aliases: &[] },
        Codepoint { codepoint: 0x1226C, name: "CUNEIFORM SIGN NUN CROSSING NUN LAGAR OVER LAGAR", aliases: &[] },
        Codepoint { codepoint: 0x1226D, name: "CUNEIFORM SIGN NUNUZ", aliases: &[] },
        Codepoint { codepoint: 0x1226E, name: "CUNEIFORM SIGN NUNUZ AB2 TIMES ASHGAB", aliases: &[] },
        Codepoint { codepoint: 0x1226F, name: "CUNEIFORM SIGN NUNUZ AB2 TIMES BI", aliases: &[] },
        Codepoint { codepoint: 0x12270, name: "CUNEIFORM SIGN NUNUZ AB2 TIMES DUG", aliases: &[] },
        Codepoint { codepoint: 0x12271, name: "CUNEIFORM SIGN NUNUZ AB2 TIMES GUD", aliases: &[] },
        Codepoint { codepoint: 0x12272, name: "CUNEIFORM SIGN NUNUZ AB2 TIMES IGI GUNU", aliases: &[] },
        Codepoint { codepoint: 0x12273, name: "CUNEIFORM SIGN NUNUZ AB2 TIMES KAD3", aliases: &[] },
        Codepoint { codepoint: 0x12274, name: "CUNEIFORM SIGN NUNUZ AB2 TIMES LA", aliases: &[] },
        Codepoint { codepoint: 0x12275, name: "CUNEIFORM SIGN NUNUZ AB2 TIMES NE", aliases: &[] },
        Codepoint { codepoint: 0x12276, name: "CUNEIFORM SIGN NUNUZ AB2 TIMES SILA3", aliases: &[] },
        Codepoint { codepoint: 0x12277, name: "CUNEIFORM SIGN NUNUZ AB2 TIMES U2", aliases: &[] },
        Codepoint { codepoint: 0x12278, name: "CUNEIFORM SIGN NUNUZ KISIM5 TIMES BI", aliases: &[] },
        Codepoint { codepoint: 0x12279, name: "CUNEIFORM SIGN NUNUZ KISIM5 TIMES BI U", aliases: &[] },
        Codepoint { codepoint: 0x1227A, name: "CUNEIFORM SIGN PA", aliases: &[] },
        Codepoint { codepoint: 0x1227B, name: "CUNEIFORM SIGN PAD", aliases: &[] },
        Codepoint { codepoint: 0x1227C, name: "CUNEIFORM SIGN PAN", aliases: &[] },
        Codepoint { codepoint: 0x1227D, name: "CUNEIFORM SIGN PAP", aliases: &[] },
        Codepoint { codepoint: 0x1227E, name: "CUNEIFORM SIGN PESH2", aliases: &[] },
        Codepoint { codepoint: 0x1227F, name: "CUNEIFORM SIGN PI", aliases: &[] },
        Codepoint { codepoint: 0x12280, name: "CUNEIFORM SIGN PI TIMES A", aliases: &[] },
        Codepoint { codepoint: 0x12281, name: "CUNEIFORM SIGN PI TIMES AB", aliases: &[] },
    ]
}

fn all_codepoints_556() -> (v: Vec<Codepoint>)
    ensures
        v@ == codepoint_table_556(),
{
    let v = vec![
        Codepoint { codepoint: 0x1225A, name: "CUNEIFORM SIGN NINDA2 TIMES SHE", aliases: &[] },
        Codepoint { codepoint: 0x1225B, name: "CUNEIFORM SIGN NINDA2 TIMES SHE PLUS A AN", aliases: &[] },
        Codepoint { codepoint: 0x1225C, name: "CUNEIFORM SIGN NINDA2 TIMES SHE PLUS ASH", aliases: &[] },
        Codepoint { codepoint: 0x1225D, name: "CUNEIFORM SIGN NINDA2 TIMES SHE PLUS ASH PLUS ASH", aliases: &[] },
        Codepoint { codepoint: 0x1225E, name: "CUNEIFORM SIGN NINDA2 TIMES U2 PLUS ASH", aliases: &[] },
        Codepoint { codepoint: 0x1225F, name: "CUNEIFORM SIGN NINDA2 TIMES USH", aliases: &[] },
        Codepoint { codepoint: 0x12260, name: "CUNEIFORM SIGN NISAG", aliases: &[] },
        Codepoint { codepoint: 0x12261, name: "CUNEIFORM SIGN NU", aliases: &[] },
        Codepoint { codepoint: 0x12262, name: "CUNEIFORM SIGN NU11", aliases: &[] },
        Codepoint { codepoint: 0x12263, name: "CUNEIFORM SIGN NUN", aliases: &[] },
        Codepoint { codepoint: 0x12264, name: "CUNEIFORM SIGN NUN LAGAR TIMES GAR", aliases: &[] },
        Codepoint { codepoint: 0x12265, name: "CUNEIFORM SIGN NUN LAGAR TIMES MASH", aliases: &[] },
        Codepoint { codepoint: 0x12266, name: "CUNEIFORM SIGN NUN LAGAR TIMES SAL", aliases: &[] },
        Codepoint { codepoint: 0x12267, name: "CUNEIFORM SIGN NUN LAGAR TIMES SAL OVER NUN LAGAR TIMES SAL", aliases: &[] },
        Codepoint { codepoint: 0x12268, name: "CUNEIFORM SIGN NUN LAGAR TIMES USH", aliases: &[] },
        Codepoint { codepoint: 0x12269, name: "CUNEIFORM SIGN NUN TENU", aliases: &[] },
        Codepoint { codepoint: 0x1226A, name: "CUNEIFORM SIGN NUN OVER NUN", aliases: &[] },
        Codepoint { codepoint: 0x1226B, name: "CUNEIFORM SIGN NUN CROSSING NUN", aliases: &[] },
        Codepoint { codepoint: 0x1226C, name: "CUNEIFORM SIGN NUN CROSSING NUN LAGAR OVER LAGAR", aliases: &[] },
        Codepoint { codepoint: 0x1226D, name: "CUNEIFORM SIGN NUNUZ", aliases: &[] },
        Codepoint { codepoint: 0x1226E, name: "CUNEIFORM SIGN NUNUZ AB2 TIMES ASHGAB", aliases: &[] },
        Codepoint { codepoint: 0x1226F, name: "CUNEIFORM SIGN NUNUZ AB2 TIMES BI", aliases: &[] },
        Codepoint { codepoint: 0x12270, name: "CUNEIFORM SIGN NUNUZ AB2 TIMES DUG", aliases: &[] },
        Codepoint { codepoint: 0x12271, name: "CUNEIFORM SIGN NUNUZ AB2 TIMES GUD", aliases: &[] },
        Codepoint { codepoint: 0x12272, name: "CUNEIFORM SIGN NUNUZ AB2 TIMES IGI GUNU", aliases: &[] },
        Codepoint { codepoint: 0x12273, name: "CUNEIFORM SIGN NUNUZ AB2 TIMES KAD3", aliases: &[] },
        Codepoint { codepoint: 0x12274, name: "CUNEIFORM SIGN NUNUZ AB2 TIMES LA", aliases: &[] },
        Codepoint { codepoint: 0x12275, name: "CUNEIFORM SIGN NUNUZ AB2 TIMES NE", aliases: &[] },
        Codepoint { codepoint: 0x12276, name: "CUNEIFORM SIGN NUNUZ AB2 TIMES SILA3", aliases: &[] },
        Codepoint { codepoint: 0x12277, name: "CUNEIFORM SIGN NUNUZ AB2 TIMES U2", aliases: &[] },
        Codepoint { codepoint: 0x12278, name: "CUNEIFORM SIGN NUNUZ KISIM5 TIMES BI", aliases: &[] },
        Codepoint { codepoint: 0x12279, name: "CUNEIFORM SIGN NUNUZ KISIM5 TIMES BI U", aliases: &[] },
        Codepoint { codepoint: 0x1227A, name: "CUNEIFORM SIGN PA", aliases: &[] },
        Codepoint { codepoint: 0x1227B, name: "CUNEIFORM SIGN PAD", aliases: &[] },
        Codepoint { codepoint: 0x1227C, name: "CUNEIFORM SIGN PAN", aliases: &[] },
        Codepoint { codepoint: 0x1227D, name: "CUNEIFORM SIGN PAP", aliases: &[] },
        Codepoint { codepoint: 0x1227E, name: "CUNEIFORM SIGN PESH2", aliases: &[] },
        Codepoint { codepoint: 0x1227F, name: "CUNEIFORM SIGN PI", aliases: &[] },
        Codepoint { codepoint: 0x12280, name: "CUNEIFORM SIGN PI TIMES A", aliases: &[] },
        Codepoint { codepoint: 0x12281, name: "CUNEIFORM SIGN PI TIMES AB", aliases: &[] },
    ];
    assert(v@ =~= codepoint_table_556());
    v
}

pub open spec fn codepoint_table_557() -> Seq<Codepoint> {
    seq![
        Codepoint { codepoint: 0x12282, name: "CUNEIFORM SIGN PI TIMES BI", aliases: &[] },
        Codepoint { codepoint: 0x12283, name: "CUNEIFORM SIGN PI TIMES BU", aliases: &[] },
        Codepoint { codepoint: 0x12284, name: "CUNEIFORM SIGN PI TIMES E", aliases: &[] },
        Codepoint { codepoint: 0x12285, name: "CUNEIFORM SIGN PI TIMES I", aliases: &[] },
        Codepoint { codepoint: 0x12286, name: "CUNEIFORM SIGN PI TIMES IB", aliases: &[] },
        Codepoint { codepoint: 0x12287, name: "CUNEIFORM SIGN PI TIMES U", aliases: &[] },
        Codepoint { codepoint: 0x12288, name: "CUNEIFORM SIGN PI TIMES U2", aliases: &[] },
        Codepoint { codepoint: 0x12289, name: "CUNEIFORM SIGN PI CROSSING PI", aliases: &[] },
        Codepoint { codepoint: 0x1228A, name: "CUNEIFORM SIGN PIRIG", aliases: &[] },
        Codepoint { codepoint: 0x1228B, name: "CUNEIFORM SIGN PIRIG TIMES KAL", aliases: &[] },
        Codepoint { codepoint: 0x1228C, name: "CUNEIFORM SIGN PIRIG TIMES UD", aliases: &[] },
        Codepoint { codepoint: 0x1228D, name: "CUNEIFORM SIGN PIRIG TIMES ZA", aliases: &[] },
        Codepoint { codepoint: 0x1228E, name: "CUNEIFORM SIGN PIRIG OPPOSING PIRIG", aliases: &[] },
        Codepoint { codepoint: 0x1228F, name: "CUNEIFORM SIGN RA", aliases: &[] },
        Codepoint { codepoint: 0x12290, name: "CUNEIFORM SIGN RAB", aliases: &[] },
        Codepoint { codepoint: 0x12291, name: "CUNEIFORM SIGN RI", aliases: &[] },
        Codepoint { codepoint: 0x12292, name: "CUNEIFORM SIGN RU", aliases: &[] },
        Codepoint { codepoint: 0x12293, name: "CUNEIFORM SIGN SA", aliases: &[] },
        Codepoint { codepoint: 0x12294, name: "CUNEIFORM SIGN SAG NUTILLU", aliases: &[] },
        Codepoint { codepoint: 0x12295, name: "CUNEIFORM SIGN SAG", aliases: &[] },
        Codepoint { codepoint: 0x12296, name: "CUNEIFORM SIGN SAG TIMES A", aliases: &[] },
        Codepoint { codepoint: 0x12297, name: "CUNEIFORM SIGN SAG TIMES DU", aliases: &[] },
        Codepoint { codepoint: 0x12298, name: "CUNEIFORM SIGN SAG TIMES DUB", aliases: &[] },
        Codepoint { codepoint: 0x12299, name: "CUNEIFORM SIGN SAG TIMES HA", aliases: &[] },
        Codepoint { codepoint: 0x1229A, name: "CUNEIFORM SIGN SAG TIMES KAK", aliases: &[] },
        Codepoint { codepoint: 0x1229B, name: "CUNEIFORM SIGN SAG TIMES KUR", aliases: &[] },
        Codepoint { codepoint: 0x1229C, name: "CUNEIFORM SIGN SAG TIMES LUM", aliases: &[] },
        Codepoint { codepoint: 0x1229D, name: "CUNEIFORM SIGN SAG TIMES MI", aliases: &[] },
        Codepoint { codepoint: 0x1229E, name: "CUNEIFORM SIGN SAG TIMES NUN", aliases: &[] },
        Codepoint { codepoint: 0x1229F, name: "CUNEIFORM SIGN SAG TIMES SAL", aliases: &[] },
        Codepoint { codepoint: 0x122A0, name: "CUNEIFORM SIGN SAG TIMES SHID", aliases: &[] },
        Codepoint { codepoint: 0x122A1, name: "CUNEIFORM SIGN SAG TIMES TAB", aliases: &[] },
        Codepoint { codepoint: 0x122A2, name: "CUNEIFORM SIGN SAG TIMES U2", aliases: &[] },
        Codepoint { codepoint: 0x122A3, name: "CUNEIFORM SIGN SAG TIMES UB", aliases: &[] },
        Codepoint { codepoint: 0x122A4, name: "CUNEIFORM SIGN SAG TIMES UM", aliases: &[] },
        Codepoint { codepoint: 0x122A5, name: "CUNEIFORM SIGN SAG TIMES UR", aliases: &[] },
        Codepoint { codepoint: 0x122A6, name: "CUNEIFORM SIGN SAG TIMES USH", aliases: &[] },
        Codepoint { codepoint: 0x122A7, name: "CUNEIFORM SIGN SAG OVER SAG", aliases: &[] },
        Codepoint { codepoint: 0x122A8, name: "CUNEIFORM SIGN SAG GUNU", aliases: &[] },
        Codepoint { codepoint: 0x122A9, name: "CUNEIFORM SIGN SAL", aliases: &[] },
    ]
}

fn all_codepoints_557() -> (v: Vec<Codepoint>)
    ensures
        v@ == codepoint_table_557(),
{
    let v = vec![
        Codepoint { codepoint: 0x12282, name: "CUNEIFORM SIGN PI TIMES BI", aliases: &[] },
        Codepoint { codepoint: 0x12283, name: "CUNEIFORM SIGN PI TIMES BU", aliases: &[] },
        Codepoint { codepoint: 0x12284, name: "CUNEIFORM SIGN PI TIMES E", aliases: &[] },
        Codepoint { codepoint: 0x12285, name: "CUNEIFORM SIGN PI TIMES I", aliases: &[] },
        Codepoint { codepoint: 0x12286, name: "CUNEIFORM SIGN PI TIMES IB", aliases: &[] },
        Codepoint { codepoint: 0x12287, name: "CUNEIFORM SIGN PI TIMES U", aliases: &[] },
        Codepoint { codepoint: 0x12288, name: "CUNEIFORM SIGN PI TIMES U2", aliases: &[] },
        Codepoint { codepoint: 0x12289, name: "CUNEIFORM SIGN PI CROSSING PI", aliases: &[] },
        Codepoint { codepoint: 0x1228A, name: "CUNEIFORM SIGN PIRIG", aliases: &[] },
        Codepoint { codepoint: 0x1228B, name: "CUNEIFORM SIGN PIRIG TIMES KAL", aliases: &[] },
        Codepoint { codepoint: 0x1228C, name: "CUNEIFORM SIGN PIRIG TIMES UD", aliases: &[] },
        Codepoint { codepoint: 0x1228D, name: "CUNEIFORM SIGN PIRIG TIMES ZA", aliases: &[] },
        Codepoint { codepoint: 0x1228E, name: "CUNEIFORM SIGN PIRIG OPPOSING PIRIG", aliases: &[] },
        Codepoint { codepoint: 0x1228F, name: "CUNEIFORM SIGN RA", aliases: &[] },
        Codepoint { codepoint: 0x12290, name: "CUNEIFORM SIGN RAB", aliases: &[] },
        Codepoint { codepoint: 0x12291, name: "CUNEIFORM SIGN RI", aliases: &[] },
        Codepoint { codepoint: 0x12292, name: "CUNEIFORM SIGN RU", aliases: &[] },
        Codepoint { codepoint: 0x12293, name: "CUNEIFORM SIGN SA", aliases: &[] },
        Codepoint { codepoint: 0x12294, name: "CUNEIFORM SIGN SAG NUTILLU", aliases: &[] },
        Codepoint { codepoint: 0x12295, name: "CUNEIFORM SIGN SAG", aliases: &[] },
        Codepoint { codepoint: 0x12296, name: "CUNEIFORM SIGN SAG TIMES A", aliases: &[] },
        Codepoint { codepoint: 0x12297, name: "CUNEIFORM SIGN SAG TIMES DU", aliases: &[] },
        Codepoint { codepoint: 0x12298, name: "CUNEIFORM SIGN SAG TIMES DUB", aliases: &[] },
        Codepoint { codepoint: 0x12299, name: "CUNEIFORM SIGN SAG TIMES HA", aliases: &[] },
        Codepoint { codepoint: 0x1229A, name: "CUNEIFORM SIGN SAG TIMES KAK", aliases: &[] },
        Codepoint { codepoint: 0x1229B, name: "CUNEIFORM SIGN SAG TIMES KUR", aliases: &[] },
        Codepoint { codepoint: 0x1229C, name: "CUNEIFORM SIGN SAG TIMES LUM", aliases: &[] },
        Codepoint { codepoint: 0x1229D, name: "CUNEIFORM SIGN SAG TIMES MI", aliases: &[] },
        Codepoint { codepoint: 0x1229E, name: "CUNEIFORM SIGN SAG TIMES NUN", aliases: &[] },
        Codepoint { codepoint: 0x1229F, name: "CUNEIFORM SIGN SAG TIMES SAL", aliases: &[] },
        Codepoint { codepoint: 0x122A0, name: "CUNEIFORM SIGN SAG TIMES SHID", aliases: &[] },
        Codepoint { codepoint: 0x122A1, name: "CUNEIFORM SIGN SAG TIMES TAB", aliases: &[] },
        Codepoint { codepoint: 0x122A2, name: "CUNEIFORM SIGN SAG TIMES U2", aliases: &[] },
        Codepoint { codepoint: 0x122A3, name: "CUNEIFORM SIGN SAG TIMES UB", aliases: &[] },
        Codepoint { codepoint: 0x122A4, name: "CUNEIFORM SIGN SAG TIMES UM", aliases: &[] },
        Codepoint { codepoint: 0x122A5, name: "CUNEIFORM SIGN SAG TIMES UR", aliases: &[] },
        Codepoint { codepoint: 0x122A6, name: "CUNEIFORM SIGN SAG TIMES USH", aliases: &[] },
        Codepoint { codepoint: 0x122A7, name: "CUNEIFORM SIGN SAG OVER SAG", aliases: &[] },
        Codepoint { codepoint: 0x122A8, name: "CUNEIFORM SIGN SAG GUNU", aliases: &[] },
        Codepoint { codepoint: 0x122A9, name: "CUNEIFORM SIGN SAL", aliases: &[] },
    ];
    assert(v@ =~= codepoint_table_557());
    v
}

pub open spec fn codepoint_table_558() -> Seq<Codepoint> {
    seq![
        Codepoint { codepoint: 0x122AA, name: "CUNEIFORM SIGN SAL LAGAB TIMES ASH2", aliases: &[] },
        Codepoint { codepoint: 0x122AB, name: "CUNEIFORM SIGN SANGA2", aliases: &[] },
        Codepoint { codepoint: 0x122AC, name: "CUNEIFORM SIGN SAR", aliases: &[] },
        Codepoint { codepoint: 0x122AD, name: "CUNEIFORM SIGN SHA", aliases: &[] },
        Codepoint { codepoint: 0x122AE, name: "CUNEIFORM SIGN SHA3", aliases: &[] },
        Codepoint { codepoint: 0x122AF, name: "CUNEIFORM SIGN SHA3 TIMES A", aliases: &[] },
        Codepoint { codepoint: 0x122B0, name: "CUNEIFORM SIGN SHA3 TIMES BAD", aliases: &[] },
        Codepoint { codepoint: 0x122B1, name: "CUNEIFORM SIGN SHA3 TIMES GISH", aliases: &[] },
        Codepoint { codepoint: 0x122B2, name: "CUNEIFORM SIGN SHA3 TIMES NE", aliases: &[] },
        Codepoint { codepoint: 0x122B3, name: "CUNEIFORM SIGN SHA3 TIMES SHU2", aliases: &[] },
        Codepoint { codepoint: 0x122B4, name: "CUNEIFORM SIGN SHA3 TIMES TUR", aliases: &[] },
        Codepoint { codepoint: 0x122B5, name: "CUNEIFORM SIGN SHA3 TIMES U", aliases: &[] },
        Codepoint { codepoint: 0x122B6, name: "CUNEIFORM SIGN SHA3 TIMES U PLUS A", aliases: &[] },
        Codepoint { codepoint: 0x122B7, name: "CUNEIFORM SIGN SHA6", aliases: &[] },
        Codepoint { codepoint: 0x122B8, name: "CUNEIFORM SIGN SHAB6", aliases: &[] },
        Codepoint { codepoint: 0x122B9, name: "CUNEIFORM SIGN SHAR2", aliases: &[] },
        Codepoint { codepoint: 0x122BA, name: "CUNEIFORM SIGN SHE", aliases: &[] },
        Codepoint { codepoint: 0x122BB, name: "CUNEIFORM SIGN SHE HU", aliases: &[] },
        Codepoint { codepoint: 0x122BC, name: "CUNEIFORM SIGN SHE OVER SHE GAD OVER GAD GAR OVER GAR", aliases: &[] },
        Codepoint { codepoint: 0x122BD, name: "CUNEIFORM SIGN SHE OVER SHE TAB OVER TAB GAR OVER GAR", aliases: &[] },
        Codepoint { codepoint: 0x122BE, name: "CUNEIFORM SIGN SHEG9", aliases: &[] },
        Codepoint { codepoint: 0x122BF, name: "CUNEIFORM SIGN SHEN", aliases: &[] },
        Codepoint { codepoint: 0x122C0, name: "CUNEIFORM SIGN SHESH", aliases: &[] },
        Codepoint { codepoint: 0x122C1, name: "CUNEIFORM SIGN SHESH2", aliases: &[] },
        Codepoint { codepoint: 0x122C2, name: "CUNEIFORM SIGN SHESHLAM", aliases: &[] },
        Codepoint { codepoint: 0x122C3, name: "CUNEIFORM SIGN SHID", aliases: &[] },
        Codepoint { codepoint: 0x122C4, name: "CUNEIFORM SIGN SHID TIMES A", aliases: &[] },
        Codepoint { codepoint: 0x122C5, name: "CUNEIFORM SIGN SHID TIMES IM", aliases: &[] },
        Codepoint { codepoint: 0x122C6, name: "CUNEIFORM SIGN SHIM", aliases: &[] },
        Codepoint { codepoint: 0x122C7, name: "CUNEIFORM SIGN SHIM TIMES A", aliases: &[] },
        Codepoint { codepoint: 0x122C8, name: "CUNEIFORM SIGN SHIM TIMES BAL", aliases: &[] },
        Codepoint { codepoint: 0x122C9, name: "CUNEIFORM SIGN SHIM TIMES BULUG", aliases: &[] },
        Codepoint { codepoint: 0x122CA, name: "CUNEIFORM SIGN SHIM TIMES DIN", aliases: &[] },
        Codepoint { codepoint: 0x122CB, name: "CUNEIFORM SIGN SHIM TIMES GAR", aliases: &[] },
        Codepoint { codepoint: 0x122CC, name: "CUNEIFORM SIGN SHIM TIMES IGI", aliases: &[] },
        Codepoint { codepoint: 0x122CD, name: "CUNEIFORM SIGN SHIM TIMES IGI GUNU", aliases: &[] },
        Codepoint { codepoint: 0x122CE, name: "CUNEIFORM SIGN SHIM TIMES KUSHU2", aliases: &[] },
        Codepoint { codepoint: 0x122CF, name: "CUNEIFORM SIGN SHIM TIMES LUL", aliases: &[] },
        Codepoint { codepoint: 0x122D0, name: "CUNEIFORM SIGN SHIM TIMES MUG", aliases: &[] },
        Codepoint { codepoint: 0x122D1, name: "CUNEIFORM SIGN SHIM TIMES SAL", aliases: &[] },
    ]
}

fn all_codepoints_558() -> (v: Vec<Codepoint>)
    ensures
        v@ == codepoint_table_558(),
{
    let v = vec![
        Codepoint { codepoint: 0x122AA, name: "CUNEIFORM SIGN SAL LAGAB TIMES ASH2", aliases: &[] },
        Codepoint { codepoint: 0x122AB, name: "CUNEIFORM SIGN SANGA2", aliases: &[] },
        Codepoint { codepoint: 0x122AC, name: "CUNEIFORM SIGN SAR", aliases: &[] },
        Codepoint { codepoint: 0x122AD, name: "CUNEIFORM SIGN SHA", aliases: &[] },
        Codepoint { codepoint: 0x122AE, name: "CUNEIFORM SIGN SHA3", aliases: &[] },
        Codepoint { codepoint: 0x122AF, name: "CUNEIFORM SIGN SHA3 TIMES A", aliases: &[] },
        Codepoint { codepoint: 0x122B0, name: "CUNEIFORM SIGN SHA3 TIMES BAD", aliases: &[] },
        Codepoint { codepoint: 0x122B1, name: "CUNEIFORM SIGN SHA3 TIMES GISH", aliases: &[] },
        Codepoint { codepoint: 0x122B2, name: "CUNEIFORM SIGN SHA3 TIMES NE", aliases: &[] },
        Codepoint { codepoint: 0x122B3, name: "CUNEIFORM SIGN SHA3 TIMES SHU2", aliases: &[] },
        Codepoint { codepoint: 0x122B4, name: "CUNEIFORM SIGN SHA3 TIMES TUR", aliases: &[] },
        Codepoint { codepoint: 0x122B5, name: "CUNEIFORM SIGN SHA3 TIMES U", aliases: &[] },
        Codepoint { codepoint: 0x122B6, name: "CUNEIFORM SIGN SHA3 TIMES U PLUS A", aliases: &[] },
        Codepoint { codepoint: 0x122B7, name: "CUNEIFORM SIGN SHA6", aliases: &[] },
        Codepoint { codepoint: 0x122B8, name: "CUNEIFORM SIGN SHAB6", aliases: &[] },
        Codepoint { codepoint: 0x122B9, name: "CUNEIFORM SIGN SHAR2", aliases: &[] },
        Codepoint { codepoint: 0x122BA, name: "CUNEIFORM SIGN SHE", aliases: &[] },
        Codepoint { codepoint: 0x122BB, name: "CUNEIFORM SIGN SHE HU", aliases: &[] },
        Codepoint { codepoint: 0x122BC, name: "CUNEIFORM SIGN SHE OVER SHE GAD OVER GAD GAR OVER GAR", aliases: &[] },
        Codepoint { codepoint: 0x122BD, name: "CUNEIFORM SIGN SHE OVER SHE TAB OVER TAB GAR OVER GAR", aliases: &[] },
        Codepoint { codepoint: 0x122BE, name: "CUNEIFORM SIGN SHEG9", aliases: &[] },
        Codepoint { codepoint: 0x122BF, name: "CUNEIFORM SIGN SHEN", aliases: &[] },
        Codepoint { codepoint: 0x122C0, name: "CUNEIFORM SIGN SHESH", aliases: &[] },
        Codepoint { codepoint: 0x122C1, name: "CUNEIFORM SIGN SHESH2", aliases: &[] },
        Codepoint { codepoint: 0x122C2, name: "CUNEIFORM SIGN SHESHLAM", aliases: &[] },
        Codepoint { codepoint: 0x122C3, name: "CUNEIFORM SIGN SHID", aliases: &[] },
        Codepoint { codepoint: 0x122C4, name: "CUNEIFORM SIGN SHID TIMES A", aliases: &[] },
        Codepoint { codepoint: 0x122C5, name: "CUNEIFORM SIGN SHID TIMES IM", aliases: &[] },
        Codepoint { codepoint: 0x122C6, name: "CUNEIFORM SIGN SHIM", aliases: &[] },
        Codepoint { codepoint: 0x122C7, name: "CUNEIFORM SIGN SHIM TIMES A", aliases: &[] },
        Codepoint { codepoint: 0x122C8, name: "CUNEIFORM SIGN SHIM TIMES BAL", aliases: &[] },
        Codepoint { codepoint: 0x122C9, name: "CUNEIFORM SIGN SHIM TIMES BULUG", aliases: &[] },
        Codepoint { codepoint: 0x122CA, name: "CUNEIFORM SIGN SHIM TIMES DIN", aliases: &[] },
        Codepoint { codepoint: 0x122CB, name: "CUNEIFORM SIGN SHIM TIMES GAR", aliases: &[] },
        Codepoint { codepoint: 0x122CC, name: "CUNEIFORM SIGN SHIM TIMES IGI", aliases: &[] },
        Codepoint { codepoint: 0x122CD, name: "CUNEIFORM SIGN SHIM TIMES IGI GUNU", aliases: &[] },
        Codepoint { codepoint: 0x122CE, name: "CUNEIFORM SIGN SHIM TIMES KUSHU2", aliases: &[] },
        Codepoint { codepoint: 0x122CF, name: "CUNEIFORM SIGN SHIM TIMES LUL", aliases: &[] },
        Codepoint { codepoint: 0x122D0, name: "CUNEIFORM SIGN SHIM TIMES MUG", aliases: &[] },
        Codepoint { codepoint: 0x122D1, name: "CUNEIFORM SIGN SHIM TIMES SAL", aliases: &[] },
    ];
    assert(v@ =~= codepoint_table_558());
    v
}

pub open spec fn codepoint_table_559() -> Seq<Codepoint> {
    seq![
        Codepoint { codepoint: 0x122D2, name: "CUNEIFORM SIGN SHINIG", aliases: &[] },
        Codepoint { codepoint: 0x122D3, name: "CUNEIFORM SIGN SHIR", aliases: &[] },
        Codepoint { codepoint: 0x122D4, name: "CUNEIFORM SIGN SHIR TENU", aliases: &[] },
        Codepoint { codepoint: 0x122D5, name: "CUNEIFORM SIGN SHIR OVER SHIR BUR OVER BUR", aliases: &[] },
        Codepoint { codepoint: 0x122D6, name: "CUNEIFORM SIGN SHITA", aliases: &[] },
        Codepoint { codepoint: 0x122D7, name: "CUNEIFORM SIGN SHU", aliases: &[] },
        Codepoint { codepoint: 0x122D8, name: "CUNEIFORM SIGN SHU OVER INVERTED SHU", aliases: &[] },
        Codepoint { codepoint: 0x122D9, name: "CUNEIFORM SIGN SHU2", aliases: &[] },
        Codepoint { codepoint: 0x122DA, name: "CUNEIFORM SIGN SHUBUR", aliases: &[] },
        Codepoint { codepoint: 0x122DB, name: "CUNEIFORM SIGN SI", aliases: &[] },
        Codepoint { codepoint: 0x122DC, name: "CUNEIFORM SIGN SI GUNU", aliases: &[] },
        Codepoint { codepoint: 0x122DD, name: "CUNEIFORM SIGN SIG", aliases: &[] },
        Codepoint { codepoint: 0x122DE, name: "CUNEIFORM SIGN SIG4", aliases: &[] },
        Codepoint { codepoint: 0x122DF, name: "CUNEIFORM SIGN SIG4 OVER SIG4 SHU2", aliases: &[] },
        Codepoint { codepoint: 0x122E0, name: "CUNEIFORM SIGN SIK2", aliases: &[] },
        Codepoint { codepoint: 0x122E1, name: "CUNEIFORM SIGN SILA3", aliases: &[] },
        Codepoint { codepoint: 0x122E2, name: "CUNEIFORM SIGN SU", aliases: &[] },
        Codepoint { codepoint: 0x122E3, name: "CUNEIFORM SIGN SU OVER SU", aliases: &[] },
        Codepoint { codepoint: 0x122E4, name: "CUNEIFORM SIGN SUD", aliases: &[] },
        Codepoint { codepoint: 0x122E5, name: "CUNEIFORM SIGN SUD2", aliases: &[] },
        Codepoint { codepoint: 0x122E6, name: "CUNEIFORM SIGN SUHUR", aliases: &[] },
        Codepoint { codepoint: 0x122E7, name: "CUNEIFORM SIGN SUM", aliases: &[] },
        Codepoint { codepoint: 0x122E8, name: "CUNEIFORM SIGN SUMASH", aliases: &[] },
        Codepoint { codepoint: 0x122E9, name: "CUNEIFORM SIGN SUR", aliases: &[] },
        Codepoint { codepoint: 0x122EA, name: "CUNEIFORM SIGN SUR9", aliases: &[] },
        Codepoint { codepoint: 0x122EB, name: "CUNEIFORM SIGN TA", aliases: &[] },
        Codepoint { codepoint: 0x122EC, name: "CUNEIFORM SIGN TA ASTERISK", aliases: &[] },
        Codepoint { codepoint: 0x122ED, name: "CUNEIFORM SIGN TA TIMES HI", aliases: &[] },
        Codepoint { codepoint: 0x122EE, name: "CUNEIFORM SIGN TA TIMES MI", aliases: &[] },
        Codepoint { codepoint: 0x122EF, name: "CUNEIFORM SIGN TA GUNU", aliases: &[] },
        Codepoint { codepoint: 0x122F0, name: "CUNEIFORM SIGN TAB", aliases: &[] },
        Codepoint { codepoint: 0x122F1, name: "CUNEIFORM SIGN TAB OVER TAB NI OVER NI DISH OVER DISH", aliases: &[] },
        Codepoint { codepoint: 0x122F2, name: "CUNEIFORM SIGN TAB SQUARED", aliases: &[] },
        Codepoint { codepoint: 0x122F3, name: "CUNEIFORM SIGN TAG", aliases: &[] },
        Codepoint { codepoint: 0x122F4, name: "CUNEIFORM SIGN TAG TIMES BI", aliases: &[] },
        Codepoint { codepoint: 0x122F5, name: "CUNEIFORM SIGN TAG TIMES GUD", aliases: &[] },
        Codepoint { codepoint: 0x122F6, name: "CUNEIFORM SIGN TAG TIMES SHE", aliases: &[] },
        Codepoint { codepoint: 0x122F7, name: "CUNEIFORM SIGN TAG TIMES SHU", aliases: &[] },
        Codepoint { codepoint: 0x122F8, name: "CUNEIFORM SIGN TAG TIMES TUG2", aliases: &[] },
        Codepoint { codepoint: 0x122F9, name: "CUNEIFORM SIGN TAG TIMES UD", aliases: &[] },
    ]
}

fn all_codepoints_559() -> (v: Vec<Codepoint>)
    ensures
        v@ == codepoint_table_559(),
{
    let v = vec![
        Codepoint { codepoint: 0x122D2, name: "CUNEIFORM SIGN SHINIG", aliases: &[] },
        Codepoint { codepoint: 0x122D3, name: "CUNEIFORM SIGN SHIR", aliases: &[] },
        Codepoint { codepoint: 0x122D4, name: "CUNEIFORM SIGN SHIR TENU", aliases: &[] },
        Codepoint { codepoint: 0x122D5, name: "CUNEIFORM SIGN SHIR OVER SHIR BUR OVER BUR", aliases: &[] },
        Codepoint { codepoint: 0x122D6, name: "CUNEIFORM SIGN SHITA", aliases: &[] },
        Codepoint { codepoint: 0x122D7, name: "CUNEIFORM SIGN SHU", aliases: &[] },
        Codepoint { codepoint: 0x122D8, name: "CUNEIFORM SIGN SHU OVER INVERTED SHU", aliases: &[] },
        Codepoint { codepoint: 0x122D9, name: "CUNEIFORM SIGN SHU2", aliases: &[] },
        Codepoint { codepoint: 0x122DA, name: "CUNEIFORM SIGN SHUBUR", aliases: &[] },
        Codepoint { codepoint: 0x122DB, name: "CUNEIFORM SIGN SI", aliases: &[] },
        Codepoint { codepoint: 0x122DC, name: "CUNEIFORM SIGN SI GUNU", aliases: &[] },
        Codepoint { codepoint: 0x122DD, name: "CUNEIFORM SIGN SIG", aliases: &[] },
        Codepoint { codepoint: 0x122DE, name: "CUNEIFORM SIGN SIG4", aliases: &[] },
        Codepoint { codepoint: 0x122DF, name: "CUNEIFORM SIGN SIG4 OVER SIG4 SHU2", aliases: &[] },
        Codepoint { codepoint: 0x122E0, name: "CUNEIFORM SIGN SIK2", aliases: &[] },
        Codepoint { codepoint: 0x122E1, name: "CUNEIFORM SIGN SILA3", aliases: &[] },
        Codepoint { codepoint: 0x122E2, name: "CUNEIFORM SIGN SU", aliases: &[] },
        Codepoint { codepoint: 0x122E3, name: "CUNEIFORM SIGN SU OVER SU", aliases: &[] },
        Codepoint { codepoint: 0x122E4, name: "CUNEIFORM SIGN SUD", aliases: &[] },
        Codepoint { codepoint: 0x122E5, name: "CUNEIFORM SIGN SUD2", aliases: &[] },
        Codepoint { codepoint: 0x122E6, name: "CUNEIFORM SIGN SUHUR", aliases: &[] },
        Codepoint { codepoint: 0x122E7, name: "CUNEIFORM SIGN SUM", aliases: &[] },
        Codepoint { codepoint: 0x122E8, name: "CUNEIFORM SIGN SUMASH", aliases: &[] },
        Codepoint { codepoint: 0x122E9, name: "CUNEIFORM SIGN SUR", aliases: &[] },
        Codepoint { codepoint: 0x122EA, name: "CUNEIFORM SIGN SUR9", aliases: &[] },
        Codepoint { codepoint: 0x122EB, name: "CUNEIFORM SIGN TA", aliases: &[] },
        Codepoint { codepoint: 0x122EC, name: "CUNEIFORM SIGN TA ASTERISK", aliases: &[] },
        Codepoint { codepoint: 0x122ED, name: "CUNEIFORM SIGN TA TIMES HI", aliases: &[] },
        Codepoint { codepoint: 0x122EE, name: "CUNEIFORM SIGN TA TIMES MI", aliases: &[] },
        Codepoint { codepoint: 0x122EF, name: "CUNEIFORM SIGN TA GUNU", aliases: &[] },
        Codepoint { codepoint: 0x122F0, name: "CUNEIFORM SIGN TAB", aliases: &[] },
        Codepoint { codepoint: 0x122F1, name: "CUNEIFORM SIGN TAB OVER TAB NI OVER NI DISH OVER DISH", aliases: &[] },
        Codepoint { codepoint: 0x122F2, name: "CUNEIFORM SIGN TAB SQUARED", aliases: &[] },
        Codepoint { codepoint: 0x122F3, name: "CUNEIFORM SIGN TAG", aliases: &[] },
        Codepoint { codepoint: 0x122F4, name: "CUNEIFORM SIGN TAG TIMES BI", aliases: &[] },
        Codepoint { codepoint: 0x122F5, name: "CUNEIFORM SIGN TAG TIMES GUD", aliases: &[] },
        Codepoint { codepoint: 0x122F6, name: "CUNEIFORM SIGN TAG TIMES SHE", aliases: &[] },
        Codepoint { codepoint: 0x122F7, name: "CUNEIFORM SIGN TAG TIMES SHU", aliases: &[] },
        Codepoint { codepoint: 0x122F8, name: "CUNEIFORM SIGN TAG TIMES TUG2", aliases: &[] },
        Codepoint { codepoint: 0x122F9, name: "CUNEIFORM SIGN TAG TIMES UD", aliases: &[] },
    ];
    assert(v@ =~= codepoint_table_559());
    v
}

/// The entries from position 21600 of the table, 800 at most.
pub open spec fn codepoint_group_27() -> Seq<Codepoint> {
    codepoint_table_540() + codepoint_table_541() + codepoint_table_542() + codepoint_table_543() + codepoint_table_544() + codepoint_table_545() + codepoint_table_546() + codepoint_table_547() + codepoint_table_548() + codepoint_table_549() + codepoint_table_550() + codepoint_table_551() + codepoint_table_552() + codepoint_table_553() + codepoint_table_554() + codepoint_table_555() + codepoint_table_556() + codepoint_table_557() + codepoint_table_558() + codepoint_table_559()
}

pub fn all_codepoints_group_27() -> (v: Vec<Codepoint>)
    ensures
        v@ == codepoint_group_27(),
{
    let mut v = all_codepoints_540();
    let mut part = all_codepoints_541();
    v.append(&mut part);
    let mut part = all_codepoints_542();
    v.append(&mut part);
    let mut part = all_codepoints_543();
    v.append(&mut part);
    let mut part = all_codepoints_544();
    v.append(&mut part);
    let mut part = all_codepoints_545();
    v.append(&mut part);
    let mut part = all_codepoints_546();
    v.append(&mut part);
    let mut part = all_codepoints_547();
    v.append(&mut part);
    let mut part = all_codepoints_548();
    v.append(&mut part);
    let mut part = all_codepoints_549();
    v.append(&mut part);
    let mut part = all_codepoints_550();
    v.append(&mut part);
    let mut part = all_codepoints_551();
    v.append(&mut part);
    let mut part = all_codepoints_552();
    v.append(&mut part);
    let mut part = all_codepoints_553();
    v.append(&mut part);
    let mut part = all_codepoints_554();
    v.append(&mut part);
    let mut part = all_codepoints_555();
    v.append(&mut part);
    let mut part = all_codepoints_556();
    v.append(&mut part);
    let mut part = all_codepoints_557();
    v.append(&mut part);
    let mut part = all_codepoints_558();
    v.append(&mut part);
    let mut part = all_codepoints_559();
    v.append(&mut part);
    v
}

pub open spec fn codepoint_table_560() -> Seq<Codepoint> {
    seq![
        Codepoint { codepoint: 0x122FA, name: "CUNEIFORM SIGN TAK4", aliases: &[] },
        Codepoint { codepoint: 0x122FB, name: "CUNEIFORM SIGN TAR", aliases: &[] },
        Codepoint { codepoint: 0x122FC, name: "CUNEIFORM SIGN TE", aliases: &[] },
        Codepoint { codepoint: 0x122FD, name: "CUNEIFORM SIGN TE GUNU", aliases: &[] },
        Codepoint { codepoint: 0x122FE, name: "CUNEIFORM SIGN TI", aliases: &[] },
        Codepoint { codepoint: 0x122FF, name: "CUNEIFORM SIGN TI TENU", aliases: &[] },
        Codepoint { codepoint: 0x12300, name: "CUNEIFORM SIGN TIL", aliases: &[] },
        Codepoint { codepoint: 0x12301, name: "CUNEIFORM SIGN TIR", aliases: &[] },
        Codepoint { codepoint: 0x12302, name: "CUNEIFORM SIGN TIR TIMES TAK4", aliases: &[] },
        Codepoint { codepoint: 0x12303, name: "CUNEIFORM SIGN TIR OVER TIR", aliases: &[] },
        Codepoint { codepoint: 0x12304, name: "CUNEIFORM SIGN TIR OVER TIR GAD OVER GAD GAR OVER GAR", aliases: &[] },
        Codepoint { codepoint: 0x12305, name: "CUNEIFORM SIGN TU", aliases: &[] },
        Codepoint { codepoint: 0x12306, name: "CUNEIFORM SIGN TUG2", aliases: &[] },
        Codepoint { codepoint: 0x12307, name: "CUNEIFORM SIGN TUK", aliases: &[] },
        Codepoint { codepoint: 0x12308, name: "CUNEIFORM SIGN TUM", aliases: &[] },
        Codepoint { codepoint: 0x12309, name: "CUNEIFORM SIGN TUR", aliases: &[] },
        Codepoint { codepoint: 0x1230A, name: "CUNEIFORM SIGN TUR OVER TUR ZA OVER ZA", aliases: &[] },
        Codepoint { codepoint: 0x1230B, name: "CUNEIFORM SIGN U", aliases: &[] },
        Codepoint { codepoint: 0x1230C, name: "CUNEIFORM SIGN U GUD", aliases: &[] },
        Codepoint { codepoint: 0x1230D, name: "CUNEIFORM SIGN U U U", aliases: &[] },
        Codepoint { codepoint: 0x1230E, name: "CUNEIFORM SIGN U OVER U PA OVER PA GAR OVER GAR", aliases: &[] },
        Codepoint { codepoint: 0x1230F, name: "CUNEIFORM SIGN U OVER U SUR OVER SUR", aliases: &[] },
        Codepoint { codepoint: 0x12310, name: "CUNEIFORM SIGN U OVER U U REVERSED OVER U REVERSED", aliases: &[] },
        Codepoint { codepoint: 0x12311, name: "CUNEIFORM SIGN U2", aliases: &[] },
        Codepoint { codepoint: 0x12312, name: "CUNEIFORM SIGN UB", aliases: &[] },
        Codepoint { codepoint: 0x12313, name: "CUNEIFORM SIGN UD", aliases: &[] },
        Codepoint { codepoint: 0x12314, name: "CUNEIFORM SIGN UD KUSHU2", aliases: &[] },
        Codepoint { codepoint: 0x12315, name: "CUNEIFORM SIGN UD TIMES BAD", aliases: &[] },
        Codepoint { codepoint: 0x12316, name: "CUNEIFORM SIGN UD TIMES MI", aliases: &[] },
        Codepoint { codepoint: 0x12317, name: "CUNEIFORM SIGN UD TIMES U PLUS U PLUS U", aliases: &[] },
        Codepoint { codepoint: 0x12318, name: "CUNEIFORM SIGN UD TIMES U PLUS U PLUS U GUNU", aliases: &[] },
        Codepoint { codepoint: 0x12319, name: "CUNEIFORM SIGN UD GUNU", aliases: &[] },
        Codepoint { codepoint: 0x1231A, name: "CUNEIFORM SIGN UD SHESHIG", aliases: &[] },
        Codepoint { codepoint: 0x1231B, name: "CUNEIFORM SIGN UD SHESHIG TIMES BAD", aliases: &[] },
        Codepoint { codepoint: 0x1231C, name: "CUNEIFORM SIGN UDUG", aliases: &[] },
        Codepoint { codepoint: 0x1231D, name: "CUNEIFORM SIGN UM", aliases: &[] },
        Codepoint { codepoint: 0x1231E, name: "CUNEIFORM SIGN UM TIMES LAGAB", aliases: &[] },
        Codepoint { codepoint: 0x1231F, name: "CUNEIFORM SIGN UM TIMES ME PLUS DA", aliases: &[] },
        Codepoint { codepoint: 0x12320, name: "CUNEIFORM SIGN UM TIMES SHA3", aliases: &[] },
        Codepoint { codepoint: 0x12321, name: "CUNEIFORM SIGN UM TIMES U", aliases: &[] },
    ]
}

fn all_codepoints_560() -> (v: Vec<Codepoint>)
    ensures
        v@ == codepoint_table_560(),
{
    let v = vec![
        Codepoint { codepoint: 0x122FA, name: "CUNEIFORM SIGN TAK4", aliases: &[] },
        Codepoint { codepoint: 0x122FB, name: "CUNEIFORM SIGN TAR", aliases: &[] },
        Codepoint { codepoint: 0x122FC, name: "CUNEIFORM SIGN TE", aliases: &[] },
        Codepoint { codepoint: 0x122FD, name: "CUNEIFORM SIGN TE GUNU", aliases: &[] },
        Codepoint { codepoint: 0x122FE, name: "CUNEIFORM SIGN TI", aliases: &[] },
        Codepoint { codepoint: 0x122FF, name: "CUNEIFORM SIGN TI TENU", aliases: &[] },
        Codepoint { codepoint: 0x12300, name: "CUNEIFORM SIGN TIL", aliases: &[] },
        Codepoint { codepoint: 0x12301, name: "CUNEIFORM SIGN TIR", aliases: &[] },
        Codepoint { codepoint: 0x12302, name: "CUNEIFORM SIGN TIR TIMES TAK4", aliases: &[] },
        Codepoint { codepoint: 0x12303, name: "CUNEIFORM SIGN TIR OVER TIR", aliases: &[] },
        Codepoint { codepoint: 0x12304, name: "CUNEIFORM SIGN TIR OVER TIR GAD OVER GAD GAR OVER GAR", aliases: &[] },
        Codepoint { codepoint: 0x12305, name: "CUNEIFORM SIGN TU", aliases: &[] },
        Codepoint { codepoint: 0x12306, name: "CUNEIFORM SIGN TUG2", aliases: &[] },
        Codepoint { codepoint: 0x12307, name: "CUNEIFORM SIGN TUK", aliases: &[] },
        Codepoint { codepoint: 0x12308, name: "CUNEIFORM SIGN TUM", aliases: &[] },
        Codepoint { codepoint: 0x12309, name: "CUNEIFORM SIGN TUR", aliases: &[] },
        Codepoint { codepoint: 0x1230A, name: "CUNEIFORM SIGN TUR OVER TUR ZA OVER ZA", aliases: &[] },
        Codepoint { codepoint: 0x1230B, name: "CUNEIFORM SIGN U", aliases: &[] },
        Codepoint { codepoint: 0x1230C, name: "CUNEIFORM SIGN U GUD", aliases: &[] },
        Codepoint { codepoint: 0x1230D, name: "CUNEIFORM SIGN U U U", aliases: &[] },
        Codepoint { codepoint: 0x1230E, name: "CUNEIFORM SIGN U OVER U PA OVER PA GAR OVER GAR", aliases: &[] },
        Codepoint { codepoint: 0x1230F, name: "CUNEIFORM SIGN U OVER U SUR OVER SUR", aliases: &[] },
        Codepoint { codepoint: 0x12310, name: "CUNEIFORM SIGN U OVER U U REVERSED OVER U REVERSED", aliases: &[] },
        Codepoint { codepoint: 0x12311, name: "CUNEIFORM SIGN U2", aliases: &[] },
        Codepoint { codepoint: 0x12312, name: "CUNEIFORM SIGN UB", aliases: &[] },
        Codepoint { codepoint: 0x12313, name: "CUNEIFORM SIGN UD", aliases: &[] },
        Codepoint { codepoint: 0x12314, name: "CUNEIFORM SIGN UD KUSHU2", aliases: &[] },
        Codepoint { codepoint: 0x12315, name: "CUNEIFORM SIGN UD TIMES BAD", aliases: &[] },
        Codepoint { codepoint: 0x12316, name: "CUNEIFORM SIGN UD TIMES MI", aliases: &[] },
        Codepoint { codepoint: 0x12317, name: "CUNEIFORM SIGN UD TIMES U PLUS U PLUS U", aliases: &[] },
        Codepoint { codepoint: 0x12318, name: "CUNEIFORM SIGN UD TIMES U PLUS U PLUS U GUNU", aliases: &[] },
        Codepoint { codepoint: 0x12319, name: "CUNEIFORM SIGN UD GUNU", aliases: &[] },
        Codepoint { codepoint: 0x1231A, name: "CUNEIFORM SIGN UD SHESHIG", aliases: &[] },
        Codepoint { codepoint: 0x1231B, name: "CUNEIFORM SIGN UD SHESHIG TIMES BAD", aliases: &[] },
        Codepoint { codepoint: 0x1231C, name: "CUNEIFORM SIGN UDUG", aliases: &[] },
        Codepoint { codepoint: 0x1231D, name: "CUNEIFORM SIGN UM", aliases: &[] },
        Codepoint { codepoint: 0x1231E, name: "CUNEIFORM SIGN UM TIMES LAGAB", aliases: &[] },
        Codepoint { codepoint: 0x1231F, name: "CUNEIFORM SIGN UM TIMES ME PLUS DA", aliases: &[] },
        Codepoint { codepoint: 0x12320, name: "CUNEIFORM SIGN UM TIMES SHA3", aliases: &[] },
        Codepoint { codepoint: 0x12321, name: "CUNEIFORM SIGN UM TIMES U", aliases: &[] },
    ];
    assert(v@ =~= codepoint_table_560());
    v
}

pub open spec fn codepoint_table_561() -> Seq<Codepoint> {
    seq![
        Codepoint { codepoint: 0x12322, name: "CUNEIFORM SIGN UMBIN", aliases: &[] },
        Codepoint { codepoint: 0x12323, name: "CUNEIFORM SIGN UMUM", aliases: &[] },
        Codepoint { codepoint: 0x12324, name: "CUNEIFORM SIGN UMUM TIMES KASKAL", aliases: &[] },
        Codepoint { codepoint: 0x12325, name: "CUNEIFORM SIGN UMUM TIMES PA", aliases: &[] },
        Codepoint { codepoint: 0x12326, name: "CUNEIFORM SIGN UN", aliases: &[] },
        Codepoint { codepoint: 0x12327, name: "CUNEIFORM SIGN UN GUNU", aliases: &[] },
        Codepoint { codepoint: 0x12328, name: "CUNEIFORM SIGN UR", aliases: &[] },
        Codepoint { codepoint: 0x12329, name: "CUNEIFORM SIGN UR CROSSING UR", aliases: &[] },
        Codepoint { codepoint: 0x1232A, name: "CUNEIFORM SIGN UR SHESHIG", aliases: &[] },
        Codepoint { codepoint: 0x1232B, name: "CUNEIFORM SIGN UR2", aliases: &[] },
        Codepoint { codepoint: 0x1232C, name: "CUNEIFORM SIGN UR2 TIMES A PLUS HA", aliases: &[] },
        Codepoint { codepoint: 0x1232D, name: "CUNEIFORM SIGN UR2 TIMES A PLUS NA", aliases: &[] },
        Codepoint { codepoint: 0x1232E, name: "CUNEIFORM SIGN UR2 TIMES AL", aliases: &[] },
        Codepoint { codepoint: 0x1232F, name: "CUNEIFORM SIGN UR2 TIMES HA", aliases: &[] },
        Codepoint { codepoint: 0x12330, name: "CUNEIFORM SIGN UR2 TIMES NUN", aliases: &[] },
        Codepoint { codepoint: 0x12331, name: "CUNEIFORM SIGN UR2 TIMES U2", aliases: &[] },
        Codepoint { codepoint: 0x12332, name: "CUNEIFORM SIGN UR2 TIMES U2 PLUS ASH", aliases: &[] },
        Codepoint { codepoint: 0x12333, name: "CUNEIFORM SIGN UR2 TIMES U2 PLUS BI", aliases: &[] },
        Codepoint { codepoint: 0x12334, name: "CUNEIFORM SIGN UR4", aliases: &[] },
        Codepoint { codepoint: 0x12335, name: "CUNEIFORM SIGN URI", aliases: &[] },
        Codepoint { codepoint: 0x12336, name: "CUNEIFORM SIGN URI3", aliases: &[] },
        Codepoint { codepoint: 0x12337, name: "CUNEIFORM SIGN URU", aliases: &[] },
        Codepoint { codepoint: 0x12338, name: "CUNEIFORM SIGN URU TIMES A", aliases: &[] },
        Codepoint { codepoint: 0x12339, name: "CUNEIFORM SIGN URU TIMES ASHGAB", aliases: &[] },
        Codepoint { codepoint: 0x1233A, name: "CUNEIFORM SIGN URU TIMES BAR", aliases: &[] },
        Codepoint { codepoint: 0x1233B, name: "CUNEIFORM SIGN URU TIMES DUN", aliases: &[] },
        Codepoint { codepoint: 0x1233C, name: "CUNEIFORM SIGN URU TIMES GA", aliases: &[] },
        Codepoint { codepoint: 0x1233D, name: "CUNEIFORM SIGN URU TIMES GAL", aliases: &[] },
        Codepoint { codepoint: 0x1233E, name: "CUNEIFORM SIGN URU TIMES GAN2 TENU", aliases: &[] },
        Codepoint { codepoint: 0x1233F, name: "CUNEIFORM SIGN URU TIMES GAR", aliases: &[] },
        Codepoint { codepoint: 0x12340, name: "CUNEIFORM SIGN URU TIMES GU", aliases: &[] },
        Codepoint { codepoint: 0x12341, name: "CUNEIFORM SIGN URU TIMES HA", aliases: &[] },
        Codepoint { codepoint: 0x12342, name: "CUNEIFORM SIGN URU TIMES IGI", aliases: &[] },
        Codepoint { codepoint: 0x12343, name: "CUNEIFORM SIGN URU TIMES IM", aliases: &[] },
        Codepoint { codepoint: 0x12344, name: "CUNEIFORM SIGN URU TIMES ISH", aliases: &[] },
        Codepoint { codepoint: 0x12345, name: "CUNEIFORM SIGN URU TIMES KI", aliases: &[] },
        Codepoint { codepoint: 0x12346, name: "CUNEIFORM SIGN URU TIMES LUM", aliases: &[] },
        Codepoint { codepoint: 0x12347, name: "CUNEIFORM SIGN URU TIMES MIN", aliases: &[] },
        Codepoint { codepoint: 0x12348, name: "CUNEIFORM SIGN URU TIMES PA", aliases: &[] },
        Codepoint { codepoint: 0x12349, name: "CUNEIFORM SIGN URU TIMES SHE", aliases: &[] },
    ]
}

fn all_codepoints_561() -> (v: Vec<Codepoint>)
    ensures
        v@ == codepoint_table_561(),
{
    let v = vec![
        Codepoint { codepoint: 0x12322, name: "CUNEIFORM SIGN UMBIN", aliases: &[] },
        Codepoint { codepoint: 0x12323, name: "CUNEIFORM SIGN UMUM", aliases: &[] },
        Codepoint { codepoint: 0x12324, name: "CUNEIFORM SIGN UMUM TIMES KASKAL", aliases: &[] },
        Codepoint { codepoint: 0x12325, name: "CUNEIFORM SIGN UMUM TIMES PA", aliases: &[] },
        Codepoint { codepoint: 0x12326, name: "CUNEIFORM SIGN UN", aliases: &[] },
        Codepoint { codepoint: 0x12327, name: "CUNEIFORM SIGN UN GUNU", aliases: &[] },
        Codepoint { codepoint: 0x12328, name: "CUNEIFORM SIGN UR", aliases: &[] },
        Codepoint { codepoint: 0x12329, name: "CUNEIFORM SIGN UR CROSSING UR", aliases: &[] },
        Codepoint { codepoint: 0x1232A, name: "CUNEIFORM SIGN UR SHESHIG", aliases: &[] },
        Codepoint { codepoint: 0x1232B, name: "CUNEIFORM SIGN UR2", aliases: &[] },
        Codepoint { codepoint: 0x1232C, name: "CUNEIFORM SIGN UR2 TIMES A PLUS HA", aliases: &[] },
        Codepoint { codepoint: 0x1232D, name: "CUNEIFORM SIGN UR2 TIMES A PLUS NA", aliases: &[] },
        Codepoint { codepoint: 0x1232E, name: "CUNEIFORM SIGN UR2 TIMES AL", aliases: &[] },
        Codepoint { codepoint: 0x1232F, name: "CUNEIFORM SIGN UR2 TIMES HA", aliases: &[] },
        Codepoint { codepoint: 0x12330, name: "CUNEIFORM SIGN UR2 TIMES NUN", aliases: &[] },
        Codepoint { codepoint: 0x12331, name: "CUNEIFORM SIGN UR2 TIMES U2", aliases: &[] },
        Codepoint { codepoint: 0x12332, name: "CUNEIFORM SIGN UR2 TIMES U2 PLUS ASH", aliases: &[] },
        Codepoint { codepoint: 0x12333, name: "CUNEIFORM SIGN UR2 TIMES U2 PLUS BI", aliases: &[] },
        Codepoint { codepoint: 0x12334, name: "CUNEIFORM SIGN UR4", aliases: &[] },
        Codepoint { codepoint: 0x12335, name: "CUNEIFORM SIGN URI", aliases: &[] },
        Codepoint { codepoint: 0x12336, name: "CUNEIFORM SIGN URI3", aliases: &[] },
        Codepoint { codepoint: 0x12337, name: "CUNEIFORM SIGN URU", aliases: &[] },
        Codepoint { codepoint: 0x12338, name: "CUNEIFORM SIGN URU TIMES A", aliases: &[] },
        Codepoint { codepoint: 0x12339, name: "CUNEIFORM SIGN URU TIMES ASHGAB", aliases: &[] },
        Codepoint { codepoint: 0x1233A, name: "CUNEIFORM SIGN URU TIMES BAR", aliases: &[] },
        Codepoint { codepoint: 0x1233B, name: "CUNEIFORM SIGN URU TIMES DUN", aliases: &[] },
        Codepoint { codepoint: 0x1233C, name: "CUNEIFORM SIGN URU TIMES GA", aliases: &[] },
        Codepoint { codepoint: 0x1233D, name: "CUNEIFORM SIGN URU TIMES GAL", aliases: &[] },
        Codepoint { codepoint: 0x1233E, name: "CUNEIFORM SIGN URU TIMES GAN2 TENU", aliases: &[] },
        Codepoint { codepoint: 0x1233F, name: "CUNEIFORM SIGN URU TIMES GAR", aliases: &[] },
        Codepoint { codepoint: 0x12340, name: "CUNEIFORM SIGN URU TIMES GU", aliases: &[] },
        Codepoint { codepoint: 0x12341, name: "CUNEIFORM SIGN URU TIMES HA", aliases: &[] },
        Codepoint { codepoint: 0x12342, name: "CUNEIFORM SIGN URU TIMES IGI", aliases: &[] },
        Codepoint { codepoint: 0x12343, name: "CUNEIFORM SIGN URU TIMES IM", aliases: &[] },
        Codepoint { codepoint: 0x12344, name: "CUNEIFORM SIGN URU TIMES ISH", aliases: &[] },
        Codepoint { codepoint: 0x12345, name: "CUNEIFORM SIGN URU TIMES KI", aliases: &[] },
        Codepoint { codepoint: 0x12346, name: "CUNEIFORM SIGN URU TIMES LUM", aliases: &[] },
        Codepoint { codepoint: 0x12347, name: "CUNEIFORM SIGN URU TIMES MIN", aliases: &[] },
        Codepoint { codepoint: 0x12348, name: "CUNEIFORM SIGN URU TIMES PA", aliases: &[] },
        Codepoint { codepoint: 0x12349, name: "CUNEIFORM SIGN URU TIMES SHE", aliases: &[] },
    ];
    assert(v@ =~= codepoint_table_561());
    v
}

pub open spec fn codepoint_table_562() -> Seq<Codepoint> {
    seq![
        Codepoint { codepoint: 0x1234A, name: "CUNEIFORM SIGN URU TIMES SIG4", aliases: &[] },
        Codepoint { codepoint: 0x1234B, name: "CUNEIFORM SIGN URU TIMES TU", aliases: &[] },
        Codepoint { codepoint: 0x1234C, name: "CUNEIFORM SIGN URU TIMES U PLUS GUD", aliases: &[] },
        Codepoint { codepoint: 0x1234D, name: "CUNEIFORM SIGN URU TIMES UD", aliases: &[] },
        Codepoint { codepoint: 0x1234E, name: "CUNEIFORM SIGN URU TIMES URUDA", aliases: &[] },
        Codepoint { codepoint: 0x1234F, name: "CUNEIFORM SIGN URUDA", aliases: &[] },
        Codepoint { codepoint: 0x12350, name: "CUNEIFORM SIGN URUDA TIMES U", aliases: &[] },
        Codepoint { codepoint: 0x12351, name: "CUNEIFORM SIGN USH", aliases: &[] },
        Codepoint { codepoint: 0x12352, name: "CUNEIFORM SIGN USH TIMES A", aliases: &[] },
        Codepoint { codepoint: 0x12353, name: "CUNEIFORM SIGN USH TIMES KU", aliases: &[] },
        Codepoint { codepoint: 0x12354, name: "CUNEIFORM SIGN USH TIMES KUR", aliases: &[] },
        Codepoint { codepoint: 0x12355, name: "CUNEIFORM SIGN USH TIMES TAK4", aliases: &[] },
        Codepoint { codepoint: 0x12356, name: "CUNEIFORM SIGN USHX", aliases: &[] },
        Codepoint { codepoint: 0x12357, name: "CUNEIFORM SIGN USH2", aliases: &[] },
        Codepoint { codepoint: 0x12358, name: "CUNEIFORM SIGN USHUMX", aliases: &[] },
        Codepoint { codepoint: 0x12359, name: "CUNEIFORM SIGN UTUKI", aliases: &[] },
        Codepoint { codepoint: 0x1235A, name: "CUNEIFORM SIGN UZ3", aliases: &[] },
        Codepoint { codepoint: 0x1235B, name: "CUNEIFORM SIGN UZ3 TIMES KASKAL", aliases: &[] },
        Codepoint { codepoint: 0x1235C, name: "CUNEIFORM SIGN UZU", aliases: &[] },
        Codepoint { codepoint: 0x1235D, name: "CUNEIFORM SIGN ZA", aliases: &[] },
        Codepoint { codepoint: 0x1235E, name: "CUNEIFORM SIGN ZA TENU", aliases: &[] },
        Codepoint { codepoint: 0x1235F, name: "CUNEIFORM SIGN ZA SQUARED TIMES KUR", aliases: &[] },
        Codepoint { codepoint: 0x12360, name: "CUNEIFORM SIGN ZAG", aliases: &[] },
        Codepoint { codepoint: 0x12361, name: "CUNEIFORM SIGN ZAMX", aliases: &[] },
        Codepoint { codepoint: 0x12362, name: "CUNEIFORM SIGN ZE2", aliases: &[] },
        Codepoint { codepoint: 0x12363, name: "CUNEIFORM SIGN ZI", aliases: &[] },
        Codepoint { codepoint: 0x12364, name: "CUNEIFORM SIGN ZI OVER ZI", aliases: &[] },
        Codepoint { codepoint: 0x12365, name: "CUNEIFORM SIGN ZI3", aliases: &[] },
        Codepoint { codepoint: 0x12366, name: "CUNEIFORM SIGN ZIB", aliases: &[] },
        Codepoint { codepoint: 0x12367, name: "CUNEIFORM SIGN ZIB KABA TENU", aliases: &[] },
        Codepoint { codepoint: 0x12368, name: "CUNEIFORM SIGN ZIG", aliases: &[] },
        Codepoint { codepoint: 0x12369, name: "CUNEIFORM SIGN ZIZ2", aliases: &[] },
        Codepoint { codepoint: 0x1236A, name: "CUNEIFORM SIGN ZU", aliases: &[] },
        Codepoint { codepoint: 0x1236B, name: "CUNEIFORM SIGN ZU5", aliases: &[] },
        Codepoint { codepoint: 0x1236C, name: "CUNEIFORM SIGN ZU5 TIMES A", aliases: &[] },
        Codepoint { codepoint: 0x1236D, name: "CUNEIFORM SIGN ZUBUR", aliases: &[] },
        Codepoint { codepoint: 0x1236E, name: "CUNEIFORM SIGN ZUM", aliases: &[] },
        Codepoint { codepoint: 0x1236F, name: "CUNEIFORM SIGN KAP ELAMITE", aliases: &[] },
        Codepoint { codepoint: 0x12370, name: "CUNEIFORM SIGN AB TIMES NUN", aliases: &[] },
        Codepoint { codepoint: 0x12371, name: "CUNEIFORM SIGN AB2 TIMES A", aliases: &[] },
    ]
}

fn all_codepoints_562() -> (v: Vec<Codepoint>)
    ensures
        v@ == codepoint_table_562(),
{
    let v = vec![
        Codepoint { codepoint: 0x1234A, name: "CUNEIFORM SIGN URU TIMES SIG4", aliases: &[] },
        Codepoint { codepoint: 0x1234B, name: "CUNEIFORM SIGN URU TIMES TU", aliases: &[] },
        Codepoint { codepoint: 0x1234C, name: "CUNEIFORM SIGN URU TIMES U PLUS GUD", aliases: &[] },
        Codepoint { codepoint: 0x1234D, name: "CUNEIFORM SIGN URU TIMES UD", aliases: &[] },
        Codepoint { codepoint: 0x1234E, name: "CUNEIFORM SIGN URU TIMES URUDA", aliases: &[] },
        Codepoint { codepoint: 0x1234F, name: "CUNEIFORM SIGN URUDA", aliases: &[] },
        Codepoint { codepoint: 0x12350, name: "CUNEIFORM SIGN URUDA TIMES U", aliases: &[] },
        Codepoint { codepoint: 0x12351, name: "CUNEIFORM SIGN USH", aliases: &[] },
        Codepoint { codepoint: 0x12352, name: "CUNEIFORM SIGN USH TIMES A", aliases: &[] },
        Codepoint { codepoint: 0x12353, name: "CUNEIFORM SIGN USH TIMES KU", aliases: &[] },
        Codepoint { codepoint: 0x12354, name: "CUNEIFORM SIGN USH TIMES KUR", aliases: &[] },
        Codepoint { codepoint: 0x12355, name: "CUNEIFORM SIGN USH TIMES TAK4", aliases: &[] },
        Codepoint { codepoint: 0x12356, name: "CUNEIFORM SIGN USHX", aliases: &[] },
        Codepoint { codepoint: 0x12357, name: "CUNEIFORM SIGN USH2", aliases: &[] },
        Codepoint { codepoint: 0x12358, name: "CUNEIFORM SIGN USHUMX", aliases: &[] },
        Codepoint { codepoint: 0x12359, name: "CUNEIFORM SIGN UTUKI", aliases: &[] },
        Codepoint { codepoint: 0x1235A, name: "CUNEIFORM SIGN UZ3", aliases: &[] },
        Codepoint { codepoint: 0x1235B, name: "CUNEIFORM SIGN UZ3 TIMES KASKAL", aliases: &[] },
        Codepoint { codepoint: 0x1235C, name: "CUNEIFORM SIGN UZU", aliases: &[] },
        Codepoint { codepoint: 0x1235D, name: "CUNEIFORM SIGN ZA", aliases: &[] },
        Codepoint { codepoint: 0x1235E, name: "CUNEIFORM SIGN ZA TENU", aliases: &[] },
        Codepoint { codepoint: 0x1235F, name: "CUNEIFORM SIGN ZA SQUARED TIMES KUR", aliases: &[] },
        Codepoint { codepoint: 0x12360, name: "CUNEIFORM SIGN ZAG", aliases: &[] },
        Codepoint { codepoint: 0x12361, name: "CUNEIFORM SIGN ZAMX", aliases: &[] },
        Codepoint { codepoint: 0x12362, name: "CUNEIFORM SIGN ZE2", aliases: &[] },
        Codepoint { codepoint: 0x12363, name: "CUNEIFORM SIGN ZI", aliases: &[] },
        Codepoint { codepoint: 0x12364, name: "CUNEIFORM SIGN ZI OVER ZI", aliases: &[] },
        Codepoint { codepoint: 0x12365, name: "CUNEIFORM SIGN ZI3", aliases: &[] },
        Codepoint { codepoint: 0x12366, name: "CUNEIFORM SIGN ZIB", aliases: &[] },
        Codepoint { codepoint: 0x12367, name: "CUNEIFORM SIGN ZIB KABA TENU", aliases: &[] },
        Codepoint { codepoint: 0x12368, name: "CUNEIFORM SIGN ZIG", aliases: &[] },
        Codepoint { codepoint: 0x12369, name: "CUNEIFORM SIGN ZIZ2", aliases: &[] },
        Codepoint { codepoint: 0x1236A, name: "CUNEIFORM SIGN ZU", aliases: &[] },
        Codepoint { codepoint: 0x1236B, name: "CUNEIFORM SIGN ZU5", aliases: &[] },
        Codepoint { codepoint: 0x1236C, name: "CUNEIFORM SIGN ZU5 TIMES A", aliases: &[] },
        Codepoint { codepoint: 0x1236D, name: "CUNEIFORM SIGN ZUBUR", aliases: &[] },
        Codepoint { codepoint: 0x1236E, name: "CUNEIFORM SIGN ZUM", aliases: &[] },
        Codepoint { codepoint: 0x1236F, name: "CUNEIFORM SIGN KAP ELAMITE", aliases: &[] },
        Codepoint { codepoint: 0x12370, name: "CUNEIFORM SIGN AB TIMES NUN", aliases: &[] },
        Codepoint { codepoint: 0x12371, name: "CUNEIFORM SIGN AB2 TIMES A", aliases: &[] },
    ];
    assert(v@ =~= codepoint_table_562());
    v
}

pub open spec fn codepoint_table_563() -> Seq<Codepoint> {
    seq![
        Codepoint { codepoint: 0x12372, name: "CUNEIFORM SIGN AMAR TIMES KUG", aliases: &[] },
        Codepoint { codepoint: 0x12373, name: "CUNEIFORM SIGN DAG KISIM5 TIMES U2 PLUS MASH", aliases: &[] },
        Codepoint { codepoint: 0x12374, name: "CUNEIFORM SIGN DAG3", aliases: &[] },
        Codepoint { codepoint: 0x12375, name: "CUNEIFORM SIGN DISH PLUS SHU", aliases: &[] },
        Codepoint { codepoint: 0x12376, name: "CUNEIFORM SIGN DUB TIMES SHE", aliases: &[] },
        Codepoint { codepoint: 0x12377, name: "CUNEIFORM SIGN EZEN TIMES GUD", aliases: &[] },
        Codepoint { codepoint: 0x12378, name: "CUNEIFORM SIGN EZEN TIMES SHE", aliases: &[] },
        Codepoint { codepoint: 0x12379, name: "CUNEIFORM SIGN GA2 TIMES AN PLUS KAK PLUS A", aliases: &[] },
        Codepoint { codepoint: 0x1237A, name: "CUNEIFORM SIGN GA2 TIMES ASH2", aliases: &[] },
        Codepoint { codepoint: 0x1237B, name: "CUNEIFORM SIGN GE22", aliases: &[] },
        Codepoint { codepoint: 0x1237C, name: "CUNEIFORM SIGN GIG", aliases: &[] },
        Codepoint { codepoint: 0x1237D, name: "CUNEIFORM SIGN HUSH", aliases: &[] },
        Codepoint { codepoint: 0x1237E, name: "CUNEIFORM SIGN KA TIMES ANSHE", aliases: &[] },
        Codepoint { codepoint: 0x1237F, name: "CUNEIFORM SIGN KA TIMES ASH3", aliases: &[] },
        Codepoint { codepoint: 0x12380, name: "CUNEIFORM SIGN KA TIMES GISH", aliases: &[] },
        Codepoint { codepoint: 0x12381, name: "CUNEIFORM SIGN KA TIMES GUD", aliases: &[] },
        Codepoint { codepoint: 0x12382, name: "CUNEIFORM SIGN KA TIMES HI TIMES ASH2", aliases: &[] },
        Codepoint { codepoint: 0x12383, name: "CUNEIFORM SIGN KA TIMES LUM", aliases: &[] },
        Codepoint { codepoint: 0x12384, name: "CUNEIFORM SIGN KA TIMES PA", aliases: &[] },
        Codepoint { codepoint: 0x12385, name: "CUNEIFORM SIGN KA TIMES SHUL", aliases: &[] },
        Codepoint { codepoint: 0x12386, name: "CUNEIFORM SIGN KA TIMES TU", aliases: &[] },
        Codepoint { codepoint: 0x12387, name: "CUNEIFORM SIGN KA TIMES UR2", aliases: &[] },
        Codepoint { codepoint: 0x12388, name: "CUNEIFORM SIGN LAGAB TIMES GI", aliases: &[] },
        Codepoint { codepoint: 0x12389, name: "CUNEIFORM SIGN LU2 SHESHIG TIMES BAD", aliases: &[] },
        Codepoint { codepoint: 0x1238A, name: "CUNEIFORM SIGN LU2 TIMES ESH2 PLUS LAL", aliases: &[] },
        Codepoint { codepoint: 0x1238B, name: "CUNEIFORM SIGN LU2 TIMES SHU", aliases: &[] },
        Codepoint { codepoint: 0x1238C, name: "CUNEIFORM SIGN MESH", aliases: &[] },
        Codepoint { codepoint: 0x1238D, name: "CUNEIFORM SIGN MUSH3 TIMES ZA", aliases: &[] },
        Codepoint { codepoint: 0x1238E, name: "CUNEIFORM SIGN NA4", aliases: &[] },
        Codepoint { codepoint: 0x1238F, name: "CUNEIFORM SIGN NIN", aliases: &[] },
        Codepoint { codepoint: 0x12390, name: "CUNEIFORM SIGN NIN9", aliases: &[] },
        Codepoint { codepoint: 0x12391, name: "CUNEIFORM SIGN NINDA2 TIMES BAL", aliases: &[] },
        Codepoint { codepoint: 0x12392, name: "CUNEIFORM SIGN NINDA2 TIMES GI", aliases: &[] },
        Codepoint { codepoint: 0x12393, name: "CUNEIFORM SIGN NU11 ROTATED NINETY DEGREES", aliases: &[] },
        Codepoint { codepoint: 0x12394, name: "CUNEIFORM SIGN PESH2 ASTERISK", aliases: &[] },
        Codepoint { codepoint: 0x12395, name: "CUNEIFORM SIGN PIR2", aliases: &[] },
        Codepoint { codepoint: 0x12396, name: "CUNEIFORM SIGN SAG TIMES IGI GUNU", aliases: &[] },
        Codepoint { codepoint: 0x12397, name: "CUNEIFORM SIGN TI2", aliases: &[] },
        Codepoint { codepoint: 0x12398, name: "CUNEIFORM SIGN UM TIMES ME", aliases: &[] },
        Codepoint { codepoint: 0x12399, name: "CUNEIFORM SIGN U U", aliases: &[] },
    ]
}

fn all_codepoints_563() -> (v: Vec<Codepoint>)
    ensures
        v@ == codepoint_table_563(),
{
    let v = vec![
        Codepoint { codepoint: 0x12372, name: "CUNEIFORM SIGN AMAR TIMES KUG", aliases: &[] },
        Codepoint { codepoint: 0x12373, name: "CUNEIFORM SIGN DAG KISIM5 TIMES U2 PLUS MASH", aliases: &[] },
        Codepoint { codepoint: 0x12374, name: "CUNEIFORM SIGN DAG3", aliases: &[] },
        Codepoint { codepoint: 0x12375, name: "CUNEIFORM SIGN DISH PLUS SHU", aliases: &[] },
        Codepoint { codepoint: 0x12376, name: "CUNEIFORM SIGN DUB TIMES SHE", aliases: &[] },
        Codepoint { codepoint: 0x12377, name: "CUNEIFORM SIGN EZEN TIMES GUD", aliases: &[] },
        Codepoint { codepoint: 0x12378, name: "CUNEIFORM SIGN EZEN TIMES SHE", aliases: &[] },
        Codepoint { codepoint: 0x12379, name: "CUNEIFORM SIGN GA2 TIMES AN PLUS KAK PLUS A", aliases: &[] },
        Codepoint { codepoint: 0x1237A, name: "CUNEIFORM SIGN GA2 TIMES ASH2", aliases: &[] },
        Codepoint { codepoint: 0x1237B, name: "CUNEIFORM SIGN GE22", aliases: &[] },
        Codepoint { codepoint: 0x1237C, name: "CUNEIFORM SIGN GIG", aliases: &[] },
        Codepoint { codepoint: 0x1237D, name: "CUNEIFORM SIGN HUSH", aliases: &[] },
        Codepoint { codepoint: 0x1237E, name: "CUNEIFORM SIGN KA TIMES ANSHE", aliases: &[] },
        Codepoint { codepoint: 0x1237F, name: "CUNEIFORM SIGN KA TIMES ASH3", aliases: &[] },
        Codepoint { codepoint: 0x12380, name: "CUNEIFORM SIGN KA TIMES GISH", aliases: &[] },
        Codepoint { codepoint: 0x12381, name: "CUNEIFORM SIGN KA TIMES GUD", aliases: &[] },
        Codepoint { codepoint: 0x12382, name: "CUNEIFORM SIGN KA TIMES HI TIMES ASH2", aliases: &[] },
        Codepoint { codepoint: 0x12383, name: "CUNEIFORM SIGN KA TIMES LUM", aliases: &[] },
        Codepoint { codepoint: 0x12384, name: "CUNEIFORM SIGN KA TIMES PA", aliases: &[] },
        Codepoint { codepoint: 0x12385, name: "CUNEIFORM SIGN KA TIMES SHUL", aliases: &[] },
        Codepoint { codepoint: 0x12386, name: "CUNEIFORM SIGN KA TIMES TU", aliases: &[] },
        Codepoint { codepoint: 0x12387, name: "CUNEIFORM SIGN KA TIMES UR2", aliases: &[] },
        Codepoint { codepoint: 0x12388, name: "CUNEIFORM SIGN LAGAB TIMES GI", aliases: &[] },
        Codepoint { codepoint: 0x12389, name: "CUNEIFORM SIGN LU2 SHESHIG TIMES BAD", aliases: &[] },
        Codepoint { codepoint: 0x1238A, name: "CUNEIFORM SIGN LU2 TIMES ESH2 PLUS LAL", aliases: &[] },
        Codepoint { codepoint: 0x1238B, name: "CUNEIFORM SIGN LU2 TIMES SHU", aliases: &[] },
        Codepoint { codepoint: 0x1238C, name: "CUNEIFORM SIGN MESH", aliases: &[] },
        Codepoint { codepoint: 0x1238D, name: "CUNEIFORM SIGN MUSH3 TIMES ZA", aliases: &[] },
        Codepoint { codepoint: 0x1238E, name: "CUNEIFORM SIGN NA4", aliases: &[] },
        Codepoint { codepoint: 0x1238F, name: "CUNEIFORM SIGN NIN", aliases: &[] },
        Codepoint { codepoint: 0x12390, name: "CUNEIFORM SIGN NIN9", aliases: &[] },
        Codepoint { codepoint: 0x12391, name: "CUNEIFORM SIGN NINDA2 TIMES BAL", aliases: &[] },
        Codepoint { codepoint: 0x12392, name: "CUNEIFORM SIGN NINDA2 TIMES GI", aliases: &[] },
        Codepoint { codepoint: 0x12393, name: "CUNEIFORM SIGN NU11 ROTATED NINETY DEGREES", aliases: &[] },
        Codepoint { codepoint: 0x12394, name: "CUNEIFORM SIGN PESH2 ASTERISK", aliases: &[] },
        Codepoint { codepoint: 0x12395, name: "CUNEIFORM SIGN PIR2", aliases: &[] },
        Codepoint { codepoint: 0x12396, name: "CUNEIFORM SIGN SAG TIMES IGI GUNU", aliases: &[] },
        Codepoint { codepoint: 0x12397, name: "CUNEIFORM SIGN TI2", aliases: &[] },
        Codepoint { codepoint: 0x12398, name: "CUNEIFORM SIGN UM TIMES ME", aliases: &[] },
        Codepoint { codepoint: 0x12399, name: "CUNEIFORM SIGN U U", aliases: &[] },
    ];
    assert(v@ =~= codepoint_table_563());
    v
}

pub open spec fn codepoint_table_564() -> Seq<Codepoint> {
    seq![
        Codepoint { codepoint: 0x12400, name: "CUNEIFORM NUMERIC SIGN TWO ASH", aliases: &[] },
        Codepoint { codepoint: 0x12401, name: "CUNEIFORM NUMERIC SIGN THREE ASH", aliases: &[] },
        Codepoint { codepoint: 0x12402, name: "CUNEIFORM NUMERIC SIGN FOUR ASH", aliases: &[] },
        Codepoint { codepoint: 0x12403, name: "CUNEIFORM NUMERIC SIGN FIVE ASH", aliases: &[] },
        Codepoint { codepoint: 0x12404, name: "CUNEIFORM NUMERIC SIGN SIX ASH", aliases: &[] },
        Codepoint { codepoint: 0x12405, name: "CUNEIFORM NUMERIC SIGN SEVEN ASH", aliases: &[] },
        Codepoint { codepoint: 0x12406, name: "CUNEIFORM NUMERIC SIGN EIGHT ASH", aliases: &[] },
        Codepoint { codepoint: 0x12407, name: "CUNEIFORM NUMERIC SIGN NINE ASH", aliases: &[] },
        Codepoint { codepoint: 0x12408, name: "CUNEIFORM NUMERIC SIGN THREE DISH", aliases: &[] },
        Codepoint { codepoint: 0x12409, name: "CUNEIFORM NUMERIC SIGN FOUR DISH", aliases: &[] },
        Codepoint { codepoint: 0x1240A, name: "CUNEIFORM NUMERIC SIGN FIVE DISH", aliases: &[] },
        Codepoint { codepoint: 0x1240B, name: "CUNEIFORM NUMERIC SIGN SIX DISH", aliases: &[] },
        Codepoint { codepoint: 0x1240C, name: "CUNEIFORM NUMERIC SIGN SEVEN DISH", aliases: &[] },
        Codepoint { codepoint: 0x1240D, name: "CUNEIFORM NUMERIC SIGN EIGHT DISH", aliases: &[] },
        Codepoint { codepoint: 0x1240E, name: "CUNEIFORM NUMERIC SIGN NINE DISH", aliases: &[] },
        Codepoint { codepoint: 0x1240F, name: "CUNEIFORM NUMERIC SIGN FOUR U", aliases: &[] },
        Codepoint { codepoint: 0x12410, name: "CUNEIFORM NUMERIC SIGN FIVE U", aliases: &[] },
        Codepoint { codepoint: 0x12411, name: "CUNEIFORM NUMERIC SIGN SIX U", aliases: &[] },
        Codepoint { codepoint: 0x12412, name: "CUNEIFORM NUMERIC SIGN SEVEN U", aliases: &[] },
        Codepoint { codepoint: 0x12413, name: "CUNEIFORM NUMERIC SIGN EIGHT U", aliases: &[] },
        Codepoint { codepoint: 0x12414, name: "CUNEIFORM NUMERIC SIGN NINE U", aliases: &[] },
        Codepoint { codepoint: 0x12415, name: "CUNEIFORM NUMERIC SIGN ONE GESH2", aliases: &[] },
        Codepoint { codepoint: 0x12416, name: "CUNEIFORM NUMERIC SIGN TWO GESH2", aliases: &[] },
        Codepoint { codepoint: 0x12417, name: "CUNEIFORM NUMERIC SIGN THREE GESH2", aliases: &[] },
        Codepoint { codepoint: 0x12418, name: "CUNEIFORM NUMERIC SIGN FOUR GESH2", aliases: &[] },
        Codepoint { codepoint: 0x12419, name: "CUNEIFORM NUMERIC SIGN FIVE GESH2", aliases: &[] },
        Codepoint { codepoint: 0x1241A, name: "CUNEIFORM NUMERIC SIGN SIX GESH2", aliases: &[] },
        Codepoint { codepoint: 0x1241B, name: "CUNEIFORM NUMERIC SIGN SEVEN GESH2", aliases: &[] },
        Codepoint { codepoint: 0x1241C, name: "CUNEIFORM NUMERIC SIGN EIGHT GESH2", aliases: &[] },
        Codepoint { codepoint: 0x1241D, name: "CUNEIFORM NUMERIC SIGN NINE GESH2", aliases: &[] },
        Codepoint { codepoint: 0x1241E, name: "CUNEIFORM NUMERIC SIGN ONE GESHU", aliases: &[] },
        Codepoint { codepoint: 0x1241F, name: "CUNEIFORM NUMERIC SIGN TWO GESHU", aliases: &[] },
        Codepoint { codepoint: 0x12420, name: "CUNEIFORM NUMERIC SIGN THREE GESHU", aliases: &[] },
        Codepoint { codepoint: 0x12421, name: "CUNEIFORM NUMERIC SIGN FOUR GESHU", aliases: &[] },
        Codepoint { codepoint: 0x12422, name: "CUNEIFORM NUMERIC SIGN FIVE GESHU", aliases: &[] },
        Codepoint { codepoint: 0x12423, name: "CUNEIFORM NUMERIC SIGN TWO SHAR2", aliases: &[] },
        Codepoint { codepoint: 0x12424, name: "CUNEIFORM NUMERIC SIGN THREE SHAR2", aliases: &[] },
        Codepoint { codepoint: 0x12425, name: "CUNEIFORM NUMERIC SIGN THREE SHAR2 VARIANT FORM", aliases: &[] },
        Codepoint { codepoint: 0x12426, name: "CUNEIFORM NUMERIC SIGN FOUR SHAR2", aliases: &[] },
        Codepoint { codepoint: 0x12427, name: "CUNEIFORM NUMERIC SIGN FIVE SHAR2", aliases: &[] },
    ]
}

fn all_codepoints_564() -> (v: Vec<Codepoint>)
    ensures
        v@ == codepoint_table_564(),
{
    let v = vec![
        Codepoint { codepoint: 0x12400, name: "CUNEIFORM NUMERIC SIGN TWO ASH", aliases: &[] },
        Codepoint { codepoint: 0x12401, name: "CUNEIFORM NUMERIC SIGN THREE ASH", aliases: &[] },
        Codepoint { codepoint: 0x12402, name: "CUNEIFORM NUMERIC SIGN FOUR ASH", aliases: &[] },
        Codepoint { codepoint: 0x12403, name: "CUNEIFORM NUMERIC SIGN FIVE ASH", aliases: &[] },
        Codepoint { codepoint: 0x12404, name: "CUNEIFORM NUMERIC SIGN SIX ASH", aliases: &[] },
        Codepoint { codepoint: 0x12405, name: "CUNEIFORM NUMERIC SIGN SEVEN ASH", aliases: &[] },
        Codepoint { codepoint: 0x12406, name: "CUNEIFORM NUMERIC SIGN EIGHT ASH", aliases: &[] },
        Codepoint { codepoint: 0x12407, name: "CUNEIFORM NUMERIC SIGN NINE ASH", aliases: &[] },
        Codepoint { codepoint: 0x12408, name: "CUNEIFORM NUMERIC SIGN THREE DISH", aliases: &[] },
        Codepoint { codepoint: 0x12409, name: "CUNEIFORM NUMERIC SIGN FOUR DISH", aliases: &[] },
        Codepoint { codepoint: 0x1240A, name: "CUNEIFORM NUMERIC SIGN FIVE DISH", aliases: &[] },
        Codepoint { codepoint: 0x1240B, name: "CUNEIFORM NUMERIC SIGN SIX DISH", aliases: &[] },
        Codepoint { codepoint: 0x1240C, name: "CUNEIFORM NUMERIC SIGN SEVEN DISH", aliases: &[] },
        Codepoint { codepoint: 0x1240D, name: "CUNEIFORM NUMERIC SIGN EIGHT DISH", aliases: &[] },
        Codepoint { codepoint: 0x1240E, name: "CUNEIFORM NUMERIC SIGN NINE DISH", aliases: &[] },
        Codepoint { codepoint: 0x1240F, name: "CUNEIFORM NUMERIC SIGN FOUR U", aliases: &[] },
        Codepoint { codepoint: 0x12410, name: "CUNEIFORM NUMERIC SIGN FIVE U", aliases: &[] },
        Codepoint { codepoint: 0x12411, name: "CUNEIFORM NUMERIC SIGN SIX U", aliases: &[] },
        Codepoint { codepoint: 0x12412, name: "CUNEIFORM NUMERIC SIGN SEVEN U", aliases: &[] },
        Codepoint { codepoint: 0x12413, name: "CUNEIFORM NUMERIC SIGN EIGHT U", aliases: &[] },
        Codepoint { codepoint: 0x12414, name: "CUNEIFORM NUMERIC SIGN NINE U", aliases: &[] },
        Codepoint { codepoint: 0x12415, name: "CUNEIFORM NUMERIC SIGN ONE GESH2", aliases: &[] },
        Codepoint { codepoint: 0x12416, name: "CUNEIFORM NUMERIC SIGN TWO GESH2", aliases: &[] },
        Codepoint { codepoint: 0x12417, name: "CUNEIFORM NUMERIC SIGN THREE GESH2", aliases: &[] },
        Codepoint { codepoint: 0x12418, name: "CUNEIFORM NUMERIC SIGN FOUR GESH2", aliases: &[] },
        Codepoint { codepoint: 0x12419, name: "CUNEIFORM NUMERIC SIGN FIVE GESH2", aliases: &[] },
        Codepoint { codepoint: 0x1241A, name: "CUNEIFORM NUMERIC SIGN SIX GESH2", aliases: &[] },
        Codepoint { codepoint: 0x1241B, name: "CUNEIFORM NUMERIC SIGN SEVEN GESH2", aliases: &[] },
        Codepoint { codepoint: 0x1241C, name: "CUNEIFORM NUMERIC SIGN EIGHT GESH2", aliases: &[] },
        Codepoint { codepoint: 0x1241D, name: "CUNEIFORM NUMERIC SIGN NINE GESH2", aliases: &[] },
        Codepoint { codepoint: 0x1241E, name: "CUNEIFORM NUMERIC SIGN ONE GESHU", aliases: &[] },
        Codepoint { codepoint: 0x1241F, name: "CUNEIFORM NUMERIC SIGN TWO GESHU", aliases: &[] },
        Codepoint { codepoint: 0x12420, name: "CUNEIFORM NUMERIC SIGN THREE GESHU", aliases: &[] },
        Codepoint { codepoint: 0x12421, name: "CUNEIFORM NUMERIC SIGN FOUR GESHU", aliases: &[] },
        Codepoint { codepoint: 0x12422, name: "CUNEIFORM NUMERIC SIGN FIVE GESHU", aliases: &[] },
        Codepoint { codepoint: 0x12423, name: "CUNEIFORM NUMERIC SIGN TWO SHAR2", aliases: &[] },
        Codepoint { codepoint: 0x12424, name: "CUNEIFORM NUMERIC SIGN THREE SHAR2", aliases: &[] },
        Codepoint { codepoint: 0x12425, name: "CUNEIFORM NUMERIC SIGN THREE SHAR2 VARIANT FORM", aliases: &[] },
        Codepoint { codepoint: 0x12426, name: "CUNEIFORM NUMERIC SIGN FOUR SHAR2", aliases: &[] },
        Codepoint { codepoint: 0x12427, name: "CUNEIFORM NUMERIC SIGN FIVE SHAR2", aliases: &[] },
    ];
    assert(v@ =~= codepoint_table_564());
    v
}

pub open spec fn codepoint_table_565() -> Seq<Codepoint> {
    seq![
        Codepoint { codepoint: 0x12428, name: "CUNEIFORM NUMERIC SIGN SIX SHAR2", aliases: &[] },
        Codepoint { codepoint: 0x12429, name: "CUNEIFORM NUMERIC SIGN SEVEN SHAR2", aliases: &[] },
        Codepoint { codepoint: 0x1242A, name: "CUNEIFORM NUMERIC SIGN EIGHT SHAR2", aliases: &[] },
        Codepoint { codepoint: 0x1242B, name: "CUNEIFORM NUMERIC SIGN NINE SHAR2", aliases: &[] },
        Codepoint { codepoint: 0x1242C, name: "CUNEIFORM NUMERIC SIGN ONE SHARU", aliases: &[] },
        Codepoint { codepoint: 0x1242D, name: "CUNEIFORM NUMERIC SIGN TWO SHARU", aliases: &[] },
        Codepoint { codepoint: 0x1242E, name: "CUNEIFORM NUMERIC SIGN THREE SHARU", aliases: &[] },
        Codepoint { codepoint: 0x1242F, name: "CUNEIFORM NUMERIC SIGN THREE SHARU VARIANT FORM", aliases: &[] },
        Codepoint { codepoint: 0x12430, name: "CUNEIFORM NUMERIC SIGN FOUR SHARU", aliases: &[] },
        Codepoint { codepoint: 0x12431, name: "CUNEIFORM NUMERIC SIGN FIVE SHARU", aliases: &[] },
        Codepoint { codepoint: 0x12432, name: "CUNEIFORM NUMERIC SIGN SHAR2 TIMES GAL PLUS DISH", aliases: &[] },
        Codepoint { codepoint: 0x12433, name: "CUNEIFORM NUMERIC SIGN SHAR2 TIMES GAL PLUS MIN", aliases: &[] },
        Codepoint { codepoint: 0x12434, name: "CUNEIFORM NUMERIC SIGN ONE BURU", aliases: &[] },
        Codepoint { codepoint: 0x12435, name: "CUNEIFORM NUMERIC SIGN TWO BURU", aliases: &[] },
        Codepoint { codepoint: 0x12436, name: "CUNEIFORM NUMERIC SIGN THREE BURU", aliases: &[] },
        Codepoint { codepoint: 0x12437, name: "CUNEIFORM NUMERIC SIGN THREE BURU VARIANT FORM", aliases: &[] },
        Codepoint { codepoint: 0x12438, name: "CUNEIFORM NUMERIC SIGN FOUR BURU", aliases: &[] },
        Codepoint { codepoint: 0x12439, name: "CUNEIFORM NUMERIC SIGN FIVE BURU", aliases: &[] },
        Codepoint { codepoint: 0x1243A, name: "CUNEIFORM NUMERIC SIGN THREE VARIANT FORM ESH16", aliases: &[] },
        Codepoint { codepoint: 0x1243B, name: "CUNEIFORM NUMERIC SIGN THREE VARIANT FORM ESH21", aliases: &[] },
        Codepoint { codepoint: 0x1243C, name: "CUNEIFORM NUMERIC SIGN FOUR VARIANT FORM LIMMU", aliases: &[] },
        Codepoint { codepoint: 0x1243D, name: "CUNEIFORM NUMERIC SIGN FOUR VARIANT FORM LIMMU4", aliases: &[] },
        Codepoint { codepoint: 0x1243E, name: "CUNEIFORM NUMERIC SIGN FOUR VARIANT FORM LIMMU A", aliases: &[] },
        Codepoint { codepoint: 0x1243F, name: "CUNEIFORM NUMERIC SIGN FOUR VARIANT FORM LIMMU B", aliases: &[] },
        Codepoint { codepoint: 0x12440, name: "CUNEIFORM NUMERIC SIGN SIX VARIANT FORM ASH9", aliases: &[] },
        Codepoint { codepoint: 0x12441, name: "CUNEIFORM NUMERIC SIGN SEVEN VARIANT FORM IMIN3", aliases: &[] },
        Codepoint { codepoint: 0x12442, name: "CUNEIFORM NUMERIC SIGN SEVEN VARIANT FORM IMIN A", aliases: &[] },
        Codepoint { codepoint: 0x12443, name: "CUNEIFORM NUMERIC SIGN SEVEN VARIANT FORM IMIN B", aliases: &[] },
        Codepoint { codepoint: 0x12444, name: "CUNEIFORM NUMERIC SIGN EIGHT VARIANT FORM USSU", aliases: &[] },
        Codepoint { codepoint: 0x12445, name: "CUNEIFORM NUMERIC SIGN EIGHT VARIANT FORM USSU3", aliases: &[] },
        Codepoint { codepoint: 0x12446, name: "CUNEIFORM NUMERIC SIGN NINE VARIANT FORM ILIMMU", aliases: &[] },
        Codepoint { codepoint: 0x12447, name: "CUNEIFORM NUMERIC SIGN NINE VARIANT FORM ILIMMU3", aliases: &[] },
        Codepoint { codepoint: 0x12448, name: "CUNEIFORM NUMERIC SIGN NINE VARIANT FORM ILIMMU4", aliases: &[] },
        Codepoint { codepoint: 0x12449, name: "CUNEIFORM NUMERIC SIGN NINE VARIANT FORM ILIMMU A", aliases: &[] },
        Codepoint { codepoint: 0x1244A, name: "CUNEIFORM NUMERIC SIGN TWO ASH TENU", aliases: &[] },
        Codepoint { codepoint: 0x1244B, name: "CUNEIFORM NUMERIC SIGN THREE ASH TENU", aliases: &[] },
        Codepoint { codepoint: 0x1244C, name: "CUNEIFORM NUMERIC SIGN FOUR ASH TENU", aliases: &[] },
        Codepoint { codepoint: 0x1244D, name: "CUNEIFORM NUMERIC SIGN FIVE ASH TENU", aliases: &[] },
        Codepoint { codepoint: 0x1244E, name: "CUNEIFORM NUMERIC SIGN SIX ASH TENU", aliases: &[] },
        Codepoint { codepoint: 0x1244F, name: "CUNEIFORM NUMERIC SIGN ONE BAN2", aliases: &[] },
    ]
}

fn all_codepoints_565() -> (v: Vec<Codepoint>)
    ensures
        v@ == codepoint_table_565(),
{
    let v = vec![
        Codepoint { codepoint: 0x12428, name: "CUNEIFORM NUMERIC SIGN SIX SHAR2", aliases: &[] },
        Codepoint { codepoint: 0x12429, name: "CUNEIFORM NUMERIC SIGN SEVEN SHAR2", aliases: &[] },
        Codepoint { codepoint: 0x1242A, name: "CUNEIFORM NUMERIC SIGN EIGHT SHAR2", aliases: &[] },
        Codepoint { codepoint: 0x1242B, name: "CUNEIFORM NUMERIC SIGN NINE SHAR2", aliases: &[] },
        Codepoint { codepoint: 0x1242C, name: "CUNEIFORM NUMERIC SIGN ONE SHARU", aliases: &[] },
        Codepoint { codepoint: 0x1242D, name: "CUNEIFORM NUMERIC SIGN TWO SHARU", aliases: &[] },
        Codepoint { codepoint: 0x1242E, name: "CUNEIFORM NUMERIC SIGN THREE SHARU", aliases: &[] },
        Codepoint { codepoint: 0x1242F, name: "CUNEIFORM NUMERIC SIGN THREE SHARU VARIANT FORM", aliases: &[] },
        Codepoint { codepoint: 0x12430, name: "CUNEIFORM NUMERIC SIGN FOUR SHARU", aliases: &[] },
        Codepoint { codepoint: 0x12431, name: "CUNEIFORM NUMERIC SIGN FIVE SHARU", aliases: &[] },
        Codepoint { codepoint: 0x12432, name: "CUNEIFORM NUMERIC SIGN SHAR2 TIMES GAL PLUS DISH", aliases: &[] },
        Codepoint { codepoint: 0x12433, name: "CUNEIFORM NUMERIC SIGN SHAR2 TIMES GAL PLUS MIN", aliases: &[] },
        Codepoint { codepoint: 0x12434, name: "CUNEIFORM NUMERIC SIGN ONE BURU", aliases: &[] },
        Codepoint { codepoint: 0x12435, name: "CUNEIFORM NUMERIC SIGN TWO BURU", aliases: &[] },
        Codepoint { codepoint: 0x12436, name: "CUNEIFORM NUMERIC SIGN THREE BURU", aliases: &[] },
        Codepoint { codepoint: 0x12437, name: "CUNEIFORM NUMERIC SIGN THREE BURU VARIANT FORM", aliases: &[] },
        Codepoint { codepoint: 0x12438, name: "CUNEIFORM NUMERIC SIGN FOUR BURU", aliases: &[] },
        Codepoint { codepoint: 0x12439, name: "CUNEIFORM NUMERIC SIGN FIVE BURU", aliases: &[] },
        Codepoint { codepoint: 0x1243A, name: "CUNEIFORM NUMERIC SIGN THREE VARIANT FORM ESH16", aliases: &[] },
        Codepoint { codepoint: 0x1243B, name: "CUNEIFORM NUMERIC SIGN THREE VARIANT FORM ESH21", aliases: &[] },
        Codepoint { codepoint: 0x1243C, name: "CUNEIFORM NUMERIC SIGN FOUR VARIANT FORM LIMMU", aliases: &[] },
        Codepoint { codepoint: 0x1243D, name: "CUNEIFORM NUMERIC SIGN FOUR VARIANT FORM LIMMU4", aliases: &[] },
        Codepoint { codepoint: 0x1243E, name: "CUNEIFORM NUMERIC SIGN FOUR VARIANT FORM LIMMU A", aliases: &[] },
        Codepoint { codepoint: 0x1243F, name: "CUNEIFORM NUMERIC SIGN FOUR VARIANT FORM LIMMU B", aliases: &[] },
        Codepoint { codepoint: 0x12440, name: "CUNEIFORM NUMERIC SIGN SIX VARIANT FORM ASH9", aliases: &[] },
        Codepoint { codepoint: 0x12441, name: "CUNEIFORM NUMERIC SIGN SEVEN VARIANT FORM IMIN3", aliases: &[] },
        Codepoint { codepoint: 0x12442, name: "CUNEIFORM NUMERIC SIGN SEVEN VARIANT FORM IMIN A", aliases: &[] },
        Codepoint { codepoint: 0x12443, name: "CUNEIFORM NUMERIC SIGN SEVEN VARIANT FORM IMIN B", aliases: &[] },
        Codepoint { codepoint: 0x12444, name: "CUNEIFORM NUMERIC SIGN EIGHT VARIANT FORM USSU", aliases: &[] },
        Codepoint { codepoint: 0x12445, name: "CUNEIFORM NUMERIC SIGN EIGHT VARIANT FORM USSU3", aliases: &[] },
        Codepoint { codepoint: 0x12446, name: "CUNEIFORM NUMERIC SIGN NINE VARIANT FORM ILIMMU", aliases: &[] },
        Codepoint { codepoint: 0x12447, name: "CUNEIFORM NUMERIC SIGN NINE VARIANT FORM ILIMMU3", aliases: &[] },
        Codepoint { codepoint: 0x12448, name: "CUNEIFORM NUMERIC SIGN NINE VARIANT FORM ILIMMU4", aliases: &[] },
        Codepoint { codepoint: 0x12449, name: "CUNEIFORM NUMERIC SIGN NINE VARIANT FORM ILIMMU A", aliases: &[] },
        Codepoint { codepoint: 0x1244A, name: "CUNEIFORM NUMERIC SIGN TWO ASH TENU", aliases: &[] },
        Codepoint { codepoint: 0x1244B, name: "CUNEIFORM NUMERIC SIGN THREE ASH TENU", aliases: &[] },
        Codepoint { codepoint: 0x1244C, name: "CUNEIFORM NUMERIC SIGN FOUR ASH TENU", aliases: &[] },
        Codepoint { codepoint: 0x1244D, name: "CUNEIFORM NUMERIC SIGN FIVE ASH TENU", aliases: &[] },
        Codepoint { codepoint: 0x1244E, name: "CUNEIFORM NUMERIC SIGN SIX ASH TENU", aliases: &[] },
        Codepoint { codepoint: 0x1244F, name: "CUNEIFORM NUMERIC SIGN ONE BAN2", aliases: &[] },
    ];
    assert(v@ =~= codepoint_table_565());
    v
}

pub open spec fn codepoint_table_566() -> Seq<Codepoint> {
    seq![
        Codepoint { codepoint: 0x12450, name: "CUNEIFORM NUMERIC SIGN TWO BAN2", aliases: &[] },
        Codepoint { codepoint: 0x12451, name: "CUNEIFORM NUMERIC SIGN THREE BAN2", aliases: &[] },
        Codepoint { codepoint: 0x12452, name: "CUNEIFORM NUMERIC SIGN FOUR BAN2", aliases: &[] },
        Codepoint { codepoint: 0x12453, name: "CUNEIFORM NUMERIC SIGN FOUR BAN2 VARIANT FORM", aliases: &[] },
        Codepoint { codepoint: 0x12454, name: "CUNEIFORM NUMERIC SIGN FIVE BAN2", aliases: &[] },
        Codepoint { codepoint: 0x12455, name: "CUNEIFORM NUMERIC SIGN FIVE BAN2 VARIANT FORM", aliases: &[] },
        Codepoint { codepoint: 0x12456, name: "CUNEIFORM NUMERIC SIGN NIGIDAMIN", aliases: &[] },
        Codepoint { codepoint: 0x12457, name: "CUNEIFORM NUMERIC SIGN NIGIDAESH", aliases: &[] },
        Codepoint { codepoint: 0x12458, name: "CUNEIFORM NUMERIC SIGN ONE ESHE3", aliases: &[] },
        Codepoint { codepoint: 0x12459, name: "CUNEIFORM NUMERIC SIGN TWO ESHE3", aliases: &[] },
        Codepoint { codepoint: 0x1245A, name: "CUNEIFORM NUMERIC SIGN ONE THIRD DISH", aliases: &[] },
        Codepoint { codepoint: 0x1245B, name: "CUNEIFORM NUMERIC SIGN TWO THIRDS DISH", aliases: &[] },
        Codepoint { codepoint: 0x1245C, name: "CUNEIFORM NUMERIC SIGN FIVE SIXTHS DISH", aliases: &[] },
        Codepoint { codepoint: 0x1245D, name: "CUNEIFORM NUMERIC SIGN ONE THIRD VARIANT FORM A", aliases: &[] },
        Codepoint { codepoint: 0x1245E, name: "CUNEIFORM NUMERIC SIGN TWO THIRDS VARIANT FORM A", aliases: &[] },
        Codepoint { codepoint: 0x1245F, name: "CUNEIFORM NUMERIC SIGN ONE EIGHTH ASH", aliases: &[] },
        Codepoint { codepoint: 0x12460, name: "CUNEIFORM NUMERIC SIGN ONE QUARTER ASH", aliases: &[] },
        Codepoint { codepoint: 0x12461, name: "CUNEIFORM NUMERIC SIGN OLD ASSYRIAN ONE SIXTH", aliases: &[] },
        Codepoint { codepoint: 0x12462, name: "CUNEIFORM NUMERIC SIGN OLD ASSYRIAN ONE QUARTER", aliases: &[] },
        Codepoint { codepoint: 0x12463, name: "CUNEIFORM NUMERIC SIGN ONE QUARTER GUR", aliases: &[] },
        Codepoint { codepoint: 0x12464, name: "CUNEIFORM NUMERIC SIGN ONE HALF GUR", aliases: &[] },
        Codepoint { codepoint: 0x12465, name: "CUNEIFORM NUMERIC SIGN ELAMITE ONE THIRD", aliases: &[] },
        Codepoint { codepoint: 0x12466, name: "CUNEIFORM NUMERIC SIGN ELAMITE TWO THIRDS", aliases: &[] },
        Codepoint { codepoint: 0x12467, name: "CUNEIFORM NUMERIC SIGN ELAMITE FORTY", aliases: &[] },
        Codepoint { codepoint: 0x12468, name: "CUNEIFORM NUMERIC SIGN ELAMITE FIFTY", aliases: &[] },
        Codepoint { codepoint: 0x12469, name: "CUNEIFORM NUMERIC SIGN FOUR U VARIANT FORM", aliases: &[] },
        Codepoint { codepoint: 0x1246A, name: "CUNEIFORM NUMERIC SIGN FIVE U VARIANT FORM", aliases: &[] },
        Codepoint { codepoint: 0x1246B, name: "CUNEIFORM NUMERIC SIGN SIX U VARIANT FORM", aliases: &[] },
        Codepoint { codepoint: 0x1246C, name: "CUNEIFORM NUMERIC SIGN SEVEN U VARIANT FORM", aliases: &[] },
        Codepoint { codepoint: 0x1246D, name: "CUNEIFORM NUMERIC SIGN EIGHT U VARIANT FORM", aliases: &[] },
        Codepoint { codepoint: 0x1246E, name: "CUNEIFORM NUMERIC SIGN NINE U VARIANT FORM", aliases: &[] },
        Codepoint { codepoint: 0x12470, name: "CUNEIFORM PUNCTUATION SIGN OLD ASSYRIAN WORD DIVIDER", aliases: &[] },
        Codepoint { codepoint: 0x12471, name: "CUNEIFORM PUNCTUATION SIGN VERTICAL COLON", aliases: &[] },
        Codepoint { codepoint: 0x12472, name: "CUNEIFORM PUNCTUATION SIGN DIAGONAL COLON", aliases: &[] },
        Codepoint { codepoint: 0x12473, name: "CUNEIFORM PUNCTUATION SIGN DIAGONAL TRICOLON", aliases: &[] },
        Codepoint { codepoint: 0x12474, name: "CUNEIFORM PUNCTUATION SIGN DIAGONAL QUADCOLON", aliases: &[] },
        Codepoint { codepoint: 0x12480, name: "CUNEIFORM SIGN AB TIMES NUN TENU", aliases: &[] },
        Codepoint { codepoint: 0x12481, name: "CUNEIFORM SIGN AB TIMES SHU2", aliases: &[] },
        Codepoint { codepoint: 0x12482, name: "CUNEIFORM SIGN AD TIMES ESH2", aliases: &[] },
        Codepoint { codepoint: 0x12483, name: "CUNEIFORM SIGN BAD TIMES DISH TENU", aliases: &[] },
    ]
}

fn all_codepoints_566() -> (v: Vec<Codepoint>)
    ensures
        v@ == codepoint_table_566(),
{
    let v = vec![
        Codepoint { codepoint: 0x12450, name: "CUNEIFORM NUMERIC SIGN TWO BAN2", aliases: &[] },
        Codepoint { codepoint: 0x12451, name: "CUNEIFORM NUMERIC SIGN THREE BAN2", aliases: &[] },
        Codepoint { codepoint: 0x12452, name: "CUNEIFORM NUMERIC SIGN FOUR BAN2", aliases: &[] },
        Codepoint { codepoint: 0x12453, name: "CUNEIFORM NUMERIC SIGN FOUR BAN2 VARIANT FORM", aliases: &[] },
        Codepoint { codepoint: 0x12454, name: "CUNEIFORM NUMERIC SIGN FIVE BAN2", aliases: &[] },
        Codepoint { codepoint: 0x12455, name: "CUNEIFORM NUMERIC SIGN FIVE BAN2 VARIANT FORM", aliases: &[] },
        Codepoint { codepoint: 0x12456, name: "CUNEIFORM NUMERIC SIGN NIGIDAMIN", aliases: &[] },
        Codepoint { codepoint: 0x12457, name: "CUNEIFORM NUMERIC SIGN NIGIDAESH", aliases: &[] },
        Codepoint { codepoint: 0x12458, name: "CUNEIFORM NUMERIC SIGN ONE ESHE3", aliases: &[] },
        Codepoint { codepoint: 0x12459, name: "CUNEIFORM NUMERIC SIGN TWO ESHE3", aliases: &[] },
        Codepoint { codepoint: 0x1245A, name: "CUNEIFORM NUMERIC SIGN ONE THIRD DISH", aliases: &[] },
        Codepoint { codepoint: 0x1245B, name: "CUNEIFORM NUMERIC SIGN TWO THIRDS DISH", aliases: &[] },
        Codepoint { codepoint: 0x1245C, name: "CUNEIFORM NUMERIC SIGN FIVE SIXTHS DISH", aliases: &[] },
        Codepoint { codepoint: 0x1245D, name: "CUNEIFORM NUMERIC SIGN ONE THIRD VARIANT FORM A", aliases: &[] },
        Codepoint { codepoint: 0x1245E, name: "CUNEIFORM NUMERIC SIGN TWO THIRDS VARIANT FORM A", aliases: &[] },
        Codepoint { codepoint: 0x1245F, name: "CUNEIFORM NUMERIC SIGN ONE EIGHTH ASH", aliases: &[] },
        Codepoint { codepoint: 0x12460, name: "CUNEIFORM NUMERIC SIGN ONE QUARTER ASH", aliases: &[] },
        Codepoint { codepoint: 0x12461, name: "CUNEIFORM NUMERIC SIGN OLD ASSYRIAN ONE SIXTH", aliases: &[] },
        Codepoint { codepoint: 0x12462, name: "CUNEIFORM NUMERIC SIGN OLD ASSYRIAN ONE QUARTER", aliases: &[] },
        Codepoint { codepoint: 0x12463, name: "CUNEIFORM NUMERIC SIGN ONE QUARTER GUR", aliases: &[] },
        Codepoint { codepoint: 0x12464, name: "CUNEIFORM NUMERIC SIGN ONE HALF GUR", aliases: &[] },
        Codepoint { codepoint: 0x12465, name: "CUNEIFORM NUMERIC SIGN ELAMITE ONE THIRD", aliases: &[] },
        Codepoint { codepoint: 0x12466, name: "CUNEIFORM NUMERIC SIGN ELAMITE TWO THIRDS", aliases: &[] },
        Codepoint { codepoint: 0x12467, name: "CUNEIFORM NUMERIC SIGN ELAMITE FORTY", aliases: &[] },
        Codepoint { codepoint: 0x12468, name: "CUNEIFORM NUMERIC SIGN ELAMITE FIFTY", aliases: &[] },
        Codepoint { codepoint: 0x12469, name: "CUNEIFORM NUMERIC SIGN FOUR U VARIANT FORM", aliases: &[] },
        Codepoint { codepoint: 0x1246A, name: "CUNEIFORM NUMERIC SIGN FIVE U VARIANT FORM", aliases: &[] },
        Codepoint { codepoint: 0x1246B, name: "CUNEIFORM NUMERIC SIGN SIX U VARIANT FORM", aliases: &[] },
        Codepoint { codepoint: 0x1246C, name: "CUNEIFORM NUMERIC SIGN SEVEN U VARIANT FORM", aliases: &[] },
        Codepoint { codepoint: 0x1246D, name: "CUNEIFORM NUMERIC SIGN EIGHT U VARIANT FORM", aliases: &[] },
        Codepoint { codepoint: 0x1246E, name: "CUNEIFORM NUMERIC SIGN NINE U VARIANT FORM", aliases: &[] },
        Codepoint { codepoint: 0x12470, name: "CUNEIFORM PUNCTUATION SIGN OLD ASSYRIAN WORD DIVIDER", aliases: &[] },
        Codepoint { codepoint: 0x12471, name: "CUNEIFORM PUNCTUATION SIGN VERTICAL COLON", aliases: &[] },
        Codepoint { codepoint: 0x12472, name: "CUNEIFORM PUNCTUATION SIGN DIAGONAL COLON", aliases: &[] },
        Codepoint { codepoint: 0x12473, name: "CUNEIFORM PUNCTUATION SIGN DIAGONAL TRICOLON", aliases: &[] },
        Codepoint { codepoint: 0x12474, name: "CUNEIFORM PUNCTUATION SIGN DIAGONAL QUADCOLON", aliases: &[] },
        Codepoint { codepoint: 0x12480, name: "CUNEIFORM SIGN AB TIMES NUN TENU", aliases: &[] },
        Codepoint { codepoint: 0x12481, name: "CUNEIFORM SIGN AB TIMES SHU2", aliases: &[] },
        Codepoint { codepoint: 0x12482, name: "CUNEIFORM SIGN AD TIMES ESH2", aliases: &[] },
        Codepoint { codepoint: 0x12483, name: "CUNEIFORM SIGN BAD TIMES DISH TENU", aliases: &[] },
    ];
    assert(v@ =~= codepoint_table_566());
    v
}

pub open spec fn codepoint_table_567() -> Seq<Codepoint> {
    seq![
        Codepoint { codepoint: 0x12484, name: "CUNEIFORM SIGN BAHAR2 TIMES AB2", aliases: &[] },
        Codepoint { codepoint: 0x12485, name: "CUNEIFORM SIGN BAHAR2 TIMES NI", aliases: &[] },
        Codepoint { codepoint: 0x12486, name: "CUNEIFORM SIGN BAHAR2 TIMES ZA", aliases: &[] },
        Codepoint { codepoint: 0x12487, name: "CUNEIFORM SIGN BU OVER BU TIMES NA2", aliases: &[] },
        Codepoint { codepoint: 0x12488, name: "CUNEIFORM SIGN DA TIMES TAK4", aliases: &[] },
        Codepoint { codepoint: 0x12489, name: "CUNEIFORM SIGN DAG TIMES KUR", aliases: &[] },
        Codepoint { codepoint: 0x1248A, name: "CUNEIFORM SIGN DIM TIMES IGI", aliases: &[] },
        Codepoint { codepoint: 0x1248B, name: "CUNEIFORM SIGN DIM TIMES U U U", aliases: &[] },
        Codepoint { codepoint: 0x1248C, name: "CUNEIFORM SIGN DIM2 TIMES UD", aliases: &[] },
        Codepoint { codepoint: 0x1248D, name: "CUNEIFORM SIGN DUG TIMES ANSHE", aliases: &[] },
        Codepoint { codepoint: 0x1248E, name: "CUNEIFORM SIGN DUG TIMES ASH", aliases: &[] },
        Codepoint { codepoint: 0x1248F, name: "CUNEIFORM SIGN DUG TIMES ASH AT LEFT", aliases: &[] },
        Codepoint { codepoint: 0x12490, name: "CUNEIFORM SIGN DUG TIMES DIN", aliases: &[] },
        Codepoint { codepoint: 0x12491, name: "CUNEIFORM SIGN DUG TIMES DUN", aliases: &[] },
        Codepoint { codepoint: 0x12492, name: "CUNEIFORM SIGN DUG TIMES ERIN2", aliases: &[] },
        Codepoint { codepoint: 0x12493, name: "CUNEIFORM SIGN DUG TIMES GA", aliases: &[] },
        Codepoint { codepoint: 0x12494, name: "CUNEIFORM SIGN DUG TIMES GI", aliases: &[] },
        Codepoint { codepoint: 0x12495, name: "CUNEIFORM SIGN DUG TIMES GIR2 GUNU", aliases: &[] },
        Codepoint { codepoint: 0x12496, name: "CUNEIFORM SIGN DUG TIMES GISH", aliases: &[] },
        Codepoint { codepoint: 0x12497, name: "CUNEIFORM SIGN DUG TIMES HA", aliases: &[] },
        Codepoint { codepoint: 0x12498, name: "CUNEIFORM SIGN DUG TIMES HI", aliases: &[] },
        Codepoint { codepoint: 0x12499, name: "CUNEIFORM SIGN DUG TIMES IGI GUNU", aliases: &[] },
        Codepoint { codepoint: 0x1249A, name: "CUNEIFORM SIGN DUG TIMES KASKAL", aliases: &[] },
        Codepoint { codepoint: 0x1249B, name: "CUNEIFORM SIGN DUG TIMES KUR", aliases: &[] },
        Codepoint { codepoint: 0x1249C, name: "CUNEIFORM SIGN DUG TIMES KUSHU2", aliases: &[] },
        Codepoint { codepoint: 0x1249D, name: "CUNEIFORM SIGN DUG TIMES KUSHU2 PLUS KASKAL", aliases: &[] },
        Codepoint { codepoint: 0x1249E, name: "CUNEIFORM SIGN DUG TIMES LAK-020", aliases: &[] },
        Codepoint { codepoint: 0x1249F, name: "CUNEIFORM SIGN DUG TIMES LAM", aliases: &[] },
        Codepoint { codepoint: 0x124A0, name: "CUNEIFORM SIGN DUG TIMES LAM TIMES KUR", aliases: &[] },
        Codepoint { codepoint: 0x124A1, name: "CUNEIFORM SIGN DUG TIMES LUH PLUS GISH", aliases: &[] },
        Codepoint { codepoint: 0x124A2, name: "CUNEIFORM SIGN DUG TIMES MASH", aliases: &[] },
        Codepoint { codepoint: 0x124A3, name: "CUNEIFORM SIGN DUG TIMES MES", aliases: &[] },
        Codepoint { codepoint: 0x124A4, name: "CUNEIFORM SIGN DUG TIMES MI", aliases: &[] },
        Codepoint { codepoint: 0x124A5, name: "CUNEIFORM SIGN DUG TIMES NI", aliases: &[] },
        Codepoint { codepoint: 0x124A6, name: "CUNEIFORM SIGN DUG TIMES PI", aliases: &[] },
        Codepoint { codepoint: 0x124A7, name: "CUNEIFORM SIGN DUG TIMES SHE", aliases: &[] },
        Codepoint { codepoint: 0x124A8, name: "CUNEIFORM SIGN DUG TIMES SI GUNU", aliases: &[] },
        Codepoint { codepoint: 0x124A9, name: "CUNEIFORM SIGN E2 TIMES KUR", aliases: &[] },
        Codepoint { codepoint: 0x124AA, name: "CUNEIFORM SIGN E2 TIMES PAP", aliases: &[] },
        Codepoint { codepoint: 0x124AB, name: "CUNEIFORM SIGN ERIN2 X", aliases: &[] },
    ]
}

fn all_codepoints_567() -> (v: Vec<Codepoint>)
    ensures
        v@ == codepoint_table_567(),
{
    let v = vec![
        Codepoint { codepoint: 0x12484, name: "CUNEIFORM SIGN BAHAR2 TIMES AB2", aliases: &[] },
        Codepoint { codepoint: 0x12485, name: "CUNEIFORM SIGN BAHAR2 TIMES NI", aliases: &[] },
        Codepoint { codepoint: 0x12486, name: "CUNEIFORM SIGN BAHAR2 TIMES ZA", aliases: &[] },
        Codepoint { codepoint: 0x12487, name: "CUNEIFORM SIGN BU OVER BU TIMES NA2", aliases: &[] },
        Codepoint { codepoint: 0x12488, name: "CUNEIFORM SIGN DA TIMES TAK4", aliases: &[] },
        Codepoint { codepoint: 0x12489, name: "CUNEIFORM SIGN DAG TIMES KUR", aliases: &[] },
        Codepoint { codepoint: 0x1248A, name: "CUNEIFORM SIGN DIM TIMES IGI", aliases: &[] },
        Codepoint { codepoint: 0x1248B, name: "CUNEIFORM SIGN DIM TIMES U U U", aliases: &[] },
        Codepoint { codepoint: 0x1248C, name: "CUNEIFORM SIGN DIM2 TIMES UD", aliases: &[] },
        Codepoint { codepoint: 0x1248D, name: "CUNEIFORM SIGN DUG TIMES ANSHE", aliases: &[] },
        Codepoint { codepoint: 0x1248E, name: "CUNEIFORM SIGN DUG TIMES ASH", aliases: &[] },
        Codepoint { codepoint: 0x1248F, name: "CUNEIFORM SIGN DUG TIMES ASH AT LEFT", aliases: &[] },
        Codepoint { codepoint: 0x12490, name: "CUNEIFORM SIGN DUG TIMES DIN", aliases: &[] },
        Codepoint { codepoint: 0x12491, name: "CUNEIFORM SIGN DUG TIMES DUN", aliases: &[] },
        Codepoint { codepoint: 0x12492, name: "CUNEIFORM SIGN DUG TIMES ERIN2", aliases: &[] },
        Codepoint { codepoint: 0x12493, name: "CUNEIFORM SIGN DUG TIMES GA", aliases: &[] },
        Codepoint { codepoint: 0x12494, name: "CUNEIFORM SIGN DUG TIMES GI", aliases: &[] },
        Codepoint { codepoint: 0x12495, name: "CUNEIFORM SIGN DUG TIMES GIR2 GUNU", aliases: &[] },
        Codepoint { codepoint: 0x12496, name: "CUNEIFORM SIGN DUG TIMES GISH", aliases: &[] },
        Codepoint { codepoint: 0x12497, name: "CUNEIFORM SIGN DUG TIMES HA", aliases: &[] },
        Codepoint { codepoint: 0x12498, name: "CUNEIFORM SIGN DUG TIMES HI", aliases: &[] },
        Codepoint { codepoint: 0x12499, name: "CUNEIFORM SIGN DUG TIMES IGI GUNU", aliases: &[] },
        Codepoint { codepoint: 0x1249A, name: "CUNEIFORM SIGN DUG TIMES KASKAL", aliases: &[] },
        Codepoint { codepoint: 0x1249B, name: "CUNEIFORM SIGN DUG TIMES KUR", aliases: &[] },
        Codepoint { codepoint: 0x1249C, name: "CUNEIFORM SIGN DUG TIMES KUSHU2", aliases: &[] },
        Codepoint { codepoint: 0x1249D, name: "CUNEIFORM SIGN DUG TIMES KUSHU2 PLUS KASKAL", aliases: &[] },
        Codepoint { codepoint: 0x1249E, name: "CUNEIFORM SIGN DUG TIMES LAK-020", aliases: &[] },
        Codepoint { codepoint: 0x1249F, name: "CUNEIFORM SIGN DUG TIMES LAM", aliases: &[] },
        Codepoint { codepoint: 0x124A0, name: "CUNEIFORM SIGN DUG TIMES LAM TIMES KUR", aliases: &[] },
        Codepoint { codepoint: 0x124A1, name: "CUNEIFORM SIGN DUG TIMES LUH PLUS GISH", aliases: &[] },
        Codepoint { codepoint: 0x124A2, name: "CUNEIFORM SIGN DUG TIMES MASH", aliases: &[] },
        Codepoint { codepoint: 0x124A3, name: "CUNEIFORM SIGN DUG TIMES MES", aliases: &[] },
        Codepoint { codepoint: 0x124A4, name: "CUNEIFORM SIGN DUG TIMES MI", aliases: &[] },
        Codepoint { codepoint: 0x124A5, name: "CUNEIFORM SIGN DUG TIMES NI", aliases: &[] },
        Codepoint { codepoint: 0x124A6, name: "CUNEIFORM SIGN DUG TIMES PI", aliases: &[] },
        Codepoint { codepoint: 0x124A7, name: "CUNEIFORM SIGN DUG TIMES SHE", aliases: &[] },
        Codepoint { codepoint: 0x124A8, name: "CUNEIFORM SIGN DUG TIMES SI GUNU", aliases: &[] },
        Codepoint { codepoint: 0x124A9, name: "CUNEIFORM SIGN E2 TIMES KUR", aliases: &[] },
        Codepoint { codepoint: 0x124AA, name: "CUNEIFORM SIGN E2 TIMES PAP", aliases: &[] },
        Codepoint { codepoint: 0x124AB, name: "CUNEIFORM SIGN ERIN2 X", aliases: &[] },
    ];
    assert(v@ =~= codepoint_table_567());
    v
}

pub open spec fn codepoint_table_568() -> Seq<Codepoint> {
    seq![
        Codepoint { codepoint: 0x124AC, name: "CUNEIFORM SIGN ESH2 CROSSING ESH2", aliases: &[] },
        Codepoint { codepoint: 0x124AD, name: "CUNEIFORM SIGN EZEN SHESHIG TIMES ASH", aliases: &[] },
        Codepoint { codepoint: 0x124AE, name: "CUNEIFORM SIGN EZEN SHESHIG TIMES HI", aliases: &[] },
        Codepoint { codepoint: 0x124AF, name: "CUNEIFORM SIGN EZEN SHESHIG TIMES IGI GUNU", aliases: &[] },
        Codepoint { codepoint: 0x124B0, name: "CUNEIFORM SIGN EZEN SHESHIG TIMES LA", aliases: &[] },
        Codepoint { codepoint: 0x124B1, name: "CUNEIFORM SIGN EZEN SHESHIG TIMES LAL", aliases: &[] },
        Codepoint { codepoint: 0x124B2, name: "CUNEIFORM SIGN EZEN SHESHIG TIMES ME", aliases: &[] },
        Codepoint { codepoint: 0x124B3, name: "CUNEIFORM SIGN EZEN SHESHIG TIMES MES", aliases: &[] },
        Codepoint { codepoint: 0x124B4, name: "CUNEIFORM SIGN EZEN SHESHIG TIMES SU", aliases: &[] },
        Codepoint { codepoint: 0x124B5, name: "CUNEIFORM SIGN EZEN TIMES SU", aliases: &[] },
        Codepoint { codepoint: 0x124B6, name: "CUNEIFORM SIGN GA2 TIMES BAHAR2", aliases: &[] },
        Codepoint { codepoint: 0x124B7, name: "CUNEIFORM SIGN GA2 TIMES DIM GUNU", aliases: &[] },
        Codepoint { codepoint: 0x124B8, name: "CUNEIFORM SIGN GA2 TIMES DUG TIMES IGI GUNU", aliases: &[] },
        Codepoint { codepoint: 0x124B9, name: "CUNEIFORM SIGN GA2 TIMES DUG TIMES KASKAL", aliases: &[] },
        Codepoint { codepoint: 0x124BA, name: "CUNEIFORM SIGN GA2 TIMES EREN", aliases: &[] },
        Codepoint { codepoint: 0x124BB, name: "CUNEIFORM SIGN GA2 TIMES GA", aliases: &[] },
        Codepoint { codepoint: 0x124BC, name: "CUNEIFORM SIGN GA2 TIMES GAR PLUS DI", aliases: &[] },
        Codepoint { codepoint: 0x124BD, name: "CUNEIFORM SIGN GA2 TIMES GAR PLUS NE", aliases: &[] },
        Codepoint { codepoint: 0x124BE, name: "CUNEIFORM SIGN GA2 TIMES HA PLUS A", aliases: &[] },
        Codepoint { codepoint: 0x124BF, name: "CUNEIFORM SIGN GA2 TIMES KUSHU2 PLUS KASKAL", aliases: &[] },
        Codepoint { codepoint: 0x124C0, name: "CUNEIFORM SIGN GA2 TIMES LAM", aliases: &[] },
        Codepoint { codepoint: 0x124C1, name: "CUNEIFORM SIGN GA2 TIMES LAM TIMES KUR", aliases: &[] },
        Codepoint { codepoint: 0x124C2, name: "CUNEIFORM SIGN GA2 TIMES LUH", aliases: &[] },
        Codepoint { codepoint: 0x124C3, name: "CUNEIFORM SIGN GA2 TIMES MUSH", aliases: &[] },
        Codepoint { codepoint: 0x124C4, name: "CUNEIFORM SIGN GA2 TIMES NE", aliases: &[] },
        Codepoint { codepoint: 0x124C5, name: "CUNEIFORM SIGN GA2 TIMES NE PLUS E2", aliases: &[] },
        Codepoint { codepoint: 0x124C6, name: "CUNEIFORM SIGN GA2 TIMES NE PLUS GI", aliases: &[] },
        Codepoint { codepoint: 0x124C7, name: "CUNEIFORM SIGN GA2 TIMES SHIM", aliases: &[] },
        Codepoint { codepoint: 0x124C8, name: "CUNEIFORM SIGN GA2 TIMES ZIZ2", aliases: &[] },
        Codepoint { codepoint: 0x124C9, name: "CUNEIFORM SIGN GABA ROTATED NINETY DEGREES", aliases: &[] },
        Codepoint { codepoint: 0x124CA, name: "CUNEIFORM SIGN GESHTIN TIMES U", aliases: &[] },
        Codepoint { codepoint: 0x124CB, name: "CUNEIFORM SIGN GISH TIMES GISH CROSSING GISH", aliases: &[] },
        Codepoint { codepoint: 0x124CC, name: "CUNEIFORM SIGN GU2 TIMES IGI GUNU", aliases: &[] },
        Codepoint { codepoint: 0x124CD, name: "CUNEIFORM SIGN GUD PLUS GISH TIMES TAK4", aliases: &[] },
        Codepoint { codepoint: 0x124CE, name: "CUNEIFORM SIGN HA TENU GUNU", aliases: &[] },
        Codepoint { codepoint: 0x124CF, name: "CUNEIFORM SIGN HI TIMES ASH OVER HI TIMES ASH", aliases: &[] },
        Codepoint { codepoint: 0x124D0, name: "CUNEIFORM SIGN KA TIMES BU", aliases: &[] },
        Codepoint { codepoint: 0x124D1, name: "CUNEIFORM SIGN KA TIMES KA", aliases: &[] },
        Codepoint { codepoint: 0x124D2, name: "CUNEIFORM SIGN KA TIMES U U U", aliases: &[] },
        Codepoint { codepoint: 0x124D3, name: "CUNEIFORM SIGN KA TIMES UR", aliases: &[] },
    ]
}

fn all_codepoints_568() -> (v: Vec<Codepoint>)
    ensures
        v@ == codepoint_table_568(),
{
    let v = vec![
        Codepoint { codepoint: 0x124AC, name: "CUNEIFORM SIGN ESH2 CROSSING ESH2", aliases: &[] },
        Codepoint { codepoint: 0x124AD, name: "CUNEIFORM SIGN EZEN SHESHIG TIMES ASH", aliases: &[] },
        Codepoint { codepoint: 0x124AE, name: "CUNEIFORM SIGN EZEN SHESHIG TIMES HI", aliases: &[] },
        Codepoint { codepoint: 0x124AF, name: "CUNEIFORM SIGN EZEN SHESHIG TIMES IGI GUNU", aliases: &[] },
        Codepoint { codepoint: 0x124B0, name: "CUNEIFORM SIGN EZEN SHESHIG TIMES LA", aliases: &[] },
        Codepoint { codepoint: 0x124B1, name: "CUNEIFORM SIGN EZEN SHESHIG TIMES LAL", aliases: &[] },
        Codepoint { codepoint: 0x124B2, name: "CUNEIFORM SIGN EZEN SHESHIG TIMES ME", aliases: &[] },
        Codepoint { codepoint: 0x124B3, name: "CUNEIFORM SIGN EZEN SHESHIG TIMES MES", aliases: &[] },
        Codepoint { codepoint: 0x124B4, name: "CUNEIFORM SIGN EZEN SHESHIG TIMES SU", aliases: &[] },
        Codepoint { codepoint: 0x124B5, name: "CUNEIFORM SIGN EZEN TIMES SU", aliases: &[] },
        Codepoint { codepoint: 0x124B6, name: "CUNEIFORM SIGN GA2 TIMES BAHAR2", aliases: &[] },
        Codepoint { codepoint: 0x124B7, name: "CUNEIFORM SIGN GA2 TIMES DIM GUNU", aliases: &[] },
        Codepoint { codepoint: 0x124B8, name: "CUNEIFORM SIGN GA2 TIMES DUG TIMES IGI GUNU", aliases: &[] },
        Codepoint { codepoint: 0x124B9, name: "CUNEIFORM SIGN GA2 TIMES DUG TIMES KASKAL", aliases: &[] },
        Codepoint { codepoint: 0x124BA, name: "CUNEIFORM SIGN GA2 TIMES EREN", aliases: &[] },
        Codepoint { codepoint: 0x124BB, name: "CUNEIFORM SIGN GA2 TIMES GA", aliases: &[] },
        Codepoint { codepoint: 0x124BC, name: "CUNEIFORM SIGN GA2 TIMES GAR PLUS DI", aliases: &[] },
        Codepoint { codepoint: 0x124BD, name: "CUNEIFORM SIGN GA2 TIMES GAR PLUS NE", aliases: &[] },
        Codepoint { codepoint: 0x124BE, name: "CUNEIFORM SIGN GA2 TIMES HA PLUS A", aliases: &[] },
        Codepoint { codepoint: 0x124BF, name: "CUNEIFORM SIGN GA2 TIMES KUSHU2 PLUS KASKAL", aliases: &[] },
        Codepoint { codepoint: 0x124C0, name: "CUNEIFORM SIGN GA2 TIMES LAM", aliases: &[] },
        Codepoint { codepoint: 0x124C1, name: "CUNEIFORM SIGN GA2 TIMES LAM TIMES KUR", aliases: &[] },
        Codepoint { codepoint: 0x124C2, name: "CUNEIFORM SIGN GA2 TIMES LUH", aliases: &[] },
        Codepoint { codepoint: 0x124C3, name: "CUNEIFORM SIGN GA2 TIMES MUSH", aliases: &[] },
        Codepoint { codepoint: 0x124C4, name: "CUNEIFORM SIGN GA2 TIMES NE", aliases: &[] },
        Codepoint { codepoint: 0x124C5, name: "CUNEIFORM SIGN GA2 TIMES NE PLUS E2", aliases: &[] },
        Codepoint { codepoint: 0x124C6, name: "CUNEIFORM SIGN GA2 TIMES NE PLUS GI", aliases: &[] },
        Codepoint { codepoint: 0x124C7, name: "CUNEIFORM SIGN GA2 TIMES SHIM", aliases: &[] },
        Codepoint { codepoint: 0x124C8, name: "CUNEIFORM SIGN GA2 TIMES ZIZ2", aliases: &[] },
        Codepoint { codepoint: 0x124C9, name: "CUNEIFORM SIGN GABA ROTATED NINETY DEGREES", aliases: &[] },
        Codepoint { codepoint: 0x124CA, name: "CUNEIFORM SIGN GESHTIN TIMES U", aliases: &[] },
        Codepoint { codepoint: 0x124CB, name: "CUNEIFORM SIGN GISH TIMES GISH CROSSING GISH", aliases: &[] },
        Codepoint { codepoint: 0x124CC, name: "CUNEIFORM SIGN GU2 TIMES IGI GUNU", aliases: &[] },
        Codepoint { codepoint: 0x124CD, name: "CUNEIFORM SIGN GUD PLUS GISH TIMES TAK4", aliases: &[] },
        Codepoint { codepoint: 0x124CE, name: "CUNEIFORM SIGN HA TENU GUNU", aliases: &[] },
        Codepoint { codepoint: 0x124CF, name: "CUNEIFORM SIGN HI TIMES ASH OVER HI TIMES ASH", aliases: &[] },
        Codepoint { codepoint: 0x124D0, name: "CUNEIFORM SIGN KA TIMES BU", aliases: &[] },
        Codepoint { codepoint: 0x124D1, name: "CUNEIFORM SIGN KA TIMES KA", aliases: &[] },
        Codepoint { codepoint: 0x124D2, name: "CUNEIFORM SIGN KA TIMES U U U", aliases: &[] },
        Codepoint { codepoint: 0x124D3, name: "CUNEIFORM SIGN KA TIMES UR", aliases: &[] },
    ];
    assert(v@ =~= codepoint_table_568());
    v
}

pub open spec fn codepoint_table_569() -> Seq<Codepoint> {
    seq![
        Codepoint { codepoint: 0x124D4, name: "CUNEIFORM SIGN LAGAB TIMES ZU OVER ZU", aliases: &[] },
        Codepoint { codepoint: 0x124D5, name: "CUNEIFORM SIGN LAK-003", aliases: &[] },
        Codepoint { codepoint: 0x124D6, name: "CUNEIFORM SIGN LAK-021", aliases: &[] },
        Codepoint { codepoint: 0x124D7, name: "CUNEIFORM SIGN LAK-025", aliases: &[] },
        Codepoint { codepoint: 0x124D8, name: "CUNEIFORM SIGN LAK-030", aliases: &[] },
        Codepoint { codepoint: 0x124D9, name: "CUNEIFORM SIGN LAK-050", aliases: &[] },
        Codepoint { codepoint: 0x124DA, name: "CUNEIFORM SIGN LAK-051", aliases: &[] },
        Codepoint { codepoint: 0x124DB, name: "CUNEIFORM SIGN LAK-062", aliases: &[] },
        Codepoint { codepoint: 0x124DC, name: "CUNEIFORM SIGN LAK-079 OVER LAK-079 GUNU", aliases: &[] },
        Codepoint { codepoint: 0x124DD, name: "CUNEIFORM SIGN LAK-080", aliases: &[] },
        Codepoint { codepoint: 0x124DE, name: "CUNEIFORM SIGN LAK-081 OVER LAK-081", aliases: &[] },
        Codepoint { codepoint: 0x124DF, name: "CUNEIFORM SIGN LAK-092", aliases: &[] },
        Codepoint { codepoint: 0x124E0, name: "CUNEIFORM SIGN LAK-130", aliases: &[] },
        Codepoint { codepoint: 0x124E1, name: "CUNEIFORM SIGN LAK-142", aliases: &[] },
        Codepoint { codepoint: 0x124E2, name: "CUNEIFORM SIGN LAK-210", aliases: &[] },
        Codepoint { codepoint: 0x124E3, name: "CUNEIFORM SIGN LAK-219", aliases: &[] },
        Codepoint { codepoint: 0x124E4, name: "CUNEIFORM SIGN LAK-220", aliases: &[] },
        Codepoint { codepoint: 0x124E5, name: "CUNEIFORM SIGN LAK-225", aliases: &[] },
        Codepoint { codepoint: 0x124E6, name: "CUNEIFORM SIGN LAK-228", aliases: &[] },
        Codepoint { codepoint: 0x124E7, name: "CUNEIFORM SIGN LAK-238", aliases: &[] },
        Codepoint { codepoint: 0x124E8, name: "CUNEIFORM SIGN LAK-265", aliases: &[] },
        Codepoint { codepoint: 0x124E9, name: "CUNEIFORM SIGN LAK-266", aliases: &[] },
        Codepoint { codepoint: 0x124EA, name: "CUNEIFORM SIGN LAK-343", aliases: &[] },
        Codepoint { codepoint: 0x124EB, name: "CUNEIFORM SIGN LAK-347", aliases: &[] },
        Codepoint { codepoint: 0x124EC, name: "CUNEIFORM SIGN LAK-348", aliases: &[] },
        Codepoint { codepoint: 0x124ED, name: "CUNEIFORM SIGN LAK-383", aliases: &[] },
        Codepoint { codepoint: 0x124EE, name: "CUNEIFORM SIGN LAK-384", aliases: &[] },
        Codepoint { codepoint: 0x124EF, name: "CUNEIFORM SIGN LAK-390", aliases: &[] },
        Codepoint { codepoint: 0x124F0, name: "CUNEIFORM SIGN LAK-441", aliases: &[] },
        Codepoint { codepoint: 0x124F1, name: "CUNEIFORM SIGN LAK-449", aliases: &[] },
        Codepoint { codepoint: 0x124F2, name: "CUNEIFORM SIGN LAK-449 TIMES GU", aliases: &[] },
        Codepoint { codepoint: 0x124F3, name: "CUNEIFORM SIGN LAK-449 TIMES IGI", aliases: &[] },
        Codepoint { codepoint: 0x124F4, name: "CUNEIFORM SIGN LAK-449 TIMES PAP PLUS LU3", aliases: &[] },
        Codepoint { codepoint: 0x124F5, name: "CUNEIFORM SIGN LAK-449 TIMES PAP PLUS PAP PLUS LU3", aliases: &[] },
        Codepoint { codepoint: 0x124F6, name: "CUNEIFORM SIGN LAK-449 TIMES U2 PLUS BA", aliases: &[] },
        Codepoint { codepoint: 0x124F7, name: "CUNEIFORM SIGN LAK-450", aliases: &[] },
        Codepoint { codepoint: 0x124F8, name: "CUNEIFORM SIGN LAK-457", aliases: &[] },
        Codepoint { codepoint: 0x124F9, name: "CUNEIFORM SIGN LAK-470", aliases: &[] },
        Codepoint { codepoint: 0x124FA, name: "CUNEIFORM SIGN LAK-483", aliases: &[] },
        Codepoint { codepoint: 0x124FB, name: "CUNEIFORM SIGN LAK-490", aliases: &[] },
    ]
}

fn all_codepoints_569() -> (v: Vec<Codepoint>)
    ensures
        v@ == codepoint_table_569(),
{
    let v = vec![
        Codepoint { codepoint: 0x124D4, name: "CUNEIFORM SIGN LAGAB TIMES ZU OVER ZU", aliases: &[] },
        Codepoint { codepoint: 0x124D5, name: "CUNEIFORM SIGN LAK-003", aliases: &[] },
        Codepoint { codepoint: 0x124D6, name: "CUNEIFORM SIGN LAK-021", aliases: &[] },
        Codepoint { codepoint: 0x124D7, name: "CUNEIFORM SIGN LAK-025", aliases: &[] },
        Codepoint { codepoint: 0x124D8, name: "CUNEIFORM SIGN LAK-030", aliases: &[] },
        Codepoint { codepoint: 0x124D9, name: "CUNEIFORM SIGN LAK-050", aliases: &[] },
        Codepoint { codepoint: 0x124DA, name: "CUNEIFORM SIGN LAK-051", aliases: &[] },
        Codepoint { codepoint: 0x124DB, name: "CUNEIFORM SIGN LAK-062", aliases: &[] },
        Codepoint { codepoint: 0x124DC, name: "CUNEIFORM SIGN LAK-079 OVER LAK-079 GUNU", aliases: &[] },
        Codepoint { codepoint: 0x124DD, name: "CUNEIFORM SIGN LAK-080", aliases: &[] },
        Codepoint { codepoint: 0x124DE, name: "CUNEIFORM SIGN LAK-081 OVER LAK-081", aliases: &[] },
        Codepoint { codepoint: 0x124DF, name: "CUNEIFORM SIGN LAK-092", aliases: &[] },
        Codepoint { codepoint: 0x124E0, name: "CUNEIFORM SIGN LAK-130", aliases: &[] },
        Codepoint { codepoint: 0x124E1, name: "CUNEIFORM SIGN LAK-142", aliases: &[] },
        Codepoint { codepoint: 0x124E2, name: "CUNEIFORM SIGN LAK-210", aliases: &[] },
        Codepoint { codepoint: 0x124E3, name: "CUNEIFORM SIGN LAK-219", aliases: &[] },
        Codepoint { codepoint: 0x124E4, name: "CUNEIFORM SIGN LAK-220", aliases: &[] },
        Codepoint { codepoint: 0x124E5, name: "CUNEIFORM SIGN LAK-225", aliases: &[] },
        Codepoint { codepoint: 0x124E6, name: "CUNEIFORM SIGN LAK-228", aliases: &[] },
        Codepoint { codepoint: 0x124E7, name: "CUNEIFORM SIGN LAK-238", aliases: &[] },
        Codepoint { codepoint: 0x124E8, name: "CUNEIFORM SIGN LAK-265", aliases: &[] },
        Codepoint { codepoint: 0x124E9, name: "CUNEIFORM SIGN LAK-266", aliases: &[] },
        Codepoint { codepoint: 0x124EA, name: "CUNEIFORM SIGN LAK-343", aliases: &[] },
        Codepoint { codepoint: 0x124EB, name: "CUNEIFORM SIGN LAK-347", aliases: &[] },
        Codepoint { codepoint: 0x124EC, name: "CUNEIFORM SIGN LAK-348", aliases: &[] },
        Codepoint { codepoint: 0x124ED, name: "CUNEIFORM SIGN LAK-383", aliases: &[] },
        Codepoint { codepoint: 0x124EE, name: "CUNEIFORM SIGN LAK-384", aliases: &[] },
        Codepoint { codepoint: 0x124EF, name: "CUNEIFORM SIGN LAK-390", aliases: &[] },
        Codepoint { codepoint: 0x124F0, name: "CUNEIFORM SIGN LAK-441", aliases: &[] },
        Codepoint { codepoint: 0x124F1, name: "CUNEIFORM SIGN LAK-449", aliases: &[] },
        Codepoint { codepoint: 0x124F2, name: "CUNEIFORM SIGN LAK-449 TIMES GU", aliases: &[] },
        Codepoint { codepoint: 0x124F3, name: "CUNEIFORM SIGN LAK-449 TIMES IGI", aliases: &[] },
        Codepoint { codepoint: 0x124F4, name: "CUNEIFORM SIGN LAK-449 TIMES PAP PLUS LU3", aliases: &[] },
        Codepoint { codepoint: 0x124F5, name: "CUNEIFORM SIGN LAK-449 TIMES PAP PLUS PAP PLUS LU3", aliases: &[] },
        Codepoint { codepoint: 0x124F6, name: "CUNEIFORM SIGN LAK-449 TIMES U2 PLUS BA", aliases: &[] },
        Codepoint { codepoint: 0x124F7, name: "CUNEIFORM SIGN LAK-450", aliases: &[] },
        Codepoint { codepoint: 0x124F8, name: "CUNEIFORM SIGN LAK-457", aliases: &[] },
        Codepoint { codepoint: 0x124F9, name: "CUNEIFORM SIGN LAK-470", aliases: &[] },
        Codepoint { codepoint: 0x124FA, name: "CUNEIFORM SIGN LAK-483", aliases: &[] },
        Codepoint { codepoint: 0x124FB, name: "CUNEIFORM SIGN LAK-490", aliases: &[] },
    ];
    assert(v@ =~= codepoint_table_569());
    v
}

pub open spec fn codepoint_table_570() -> Seq<Codepoint> {
    seq![
        Codepoint { codepoint: 0x124FC, name: "CUNEIFORM SIGN LAK-492", aliases: &[] },
        Codepoint { codepoint: 0x124FD, name: "CUNEIFORM SIGN LAK-493", aliases: &[] },
        Codepoint { codepoint: 0x124FE, name: "CUNEIFORM SIGN LAK-495", aliases: &[] },
        Codepoint { codepoint: 0x124FF, name: "CUNEIFORM SIGN LAK-550", aliases: &[] },
        Codepoint { codepoint: 0x12500, name: "CUNEIFORM SIGN LAK-608", aliases: &[] },
        Codepoint { codepoint: 0x12501, name: "CUNEIFORM SIGN LAK-617", aliases: &[] },
        Codepoint { codepoint: 0x12502, name: "CUNEIFORM SIGN LAK-617 TIMES ASH", aliases: &[] },
        Codepoint { codepoint: 0x12503, name: "CUNEIFORM SIGN LAK-617 TIMES BAD", aliases: &[] },
        Codepoint { codepoint: 0x12504, name: "CUNEIFORM SIGN LAK-617 TIMES DUN3 GUNU GUNU", aliases: &[] },
        Codepoint { codepoint: 0x12505, name: "CUNEIFORM SIGN LAK-617 TIMES KU3", aliases: &[] },
        Codepoint { codepoint: 0x12506, name: "CUNEIFORM SIGN LAK-617 TIMES LA", aliases: &[] },
        Codepoint { codepoint: 0x12507, name: "CUNEIFORM SIGN LAK-617 TIMES TAR", aliases: &[] },
        Codepoint { codepoint: 0x12508, name: "CUNEIFORM SIGN LAK-617 TIMES TE", aliases: &[] },
        Codepoint { codepoint: 0x12509, name: "CUNEIFORM SIGN LAK-617 TIMES U2", aliases: &[] },
        Codepoint { codepoint: 0x1250A, name: "CUNEIFORM SIGN LAK-617 TIMES UD", aliases: &[] },
        Codepoint { codepoint: 0x1250B, name: "CUNEIFORM SIGN LAK-617 TIMES URUDA", aliases: &[] },
        Codepoint { codepoint: 0x1250C, name: "CUNEIFORM SIGN LAK-636", aliases: &[] },
        Codepoint { codepoint: 0x1250D, name: "CUNEIFORM SIGN LAK-648", aliases: &[] },
        Codepoint { codepoint: 0x1250E, name: "CUNEIFORM SIGN LAK-648 TIMES DUB", aliases: &[] },
        Codepoint { codepoint: 0x1250F, name: "CUNEIFORM SIGN LAK-648 TIMES GA", aliases: &[] },
        Codepoint { codepoint: 0x12510, name: "CUNEIFORM SIGN LAK-648 TIMES IGI", aliases: &[] },
        Codepoint { codepoint: 0x12511, name: "CUNEIFORM SIGN LAK-648 TIMES IGI GUNU", aliases: &[] },
        Codepoint { codepoint: 0x12512, name: "CUNEIFORM SIGN LAK-648 TIMES NI", aliases: &[] },
        Codepoint { codepoint: 0x12513, name: "CUNEIFORM SIGN LAK-648 TIMES PAP PLUS PAP PLUS LU3", aliases: &[] },
        Codepoint { codepoint: 0x12514, name: "CUNEIFORM SIGN LAK-648 TIMES SHESH PLUS KI", aliases: &[] },
        Codepoint { codepoint: 0x12515, name: "CUNEIFORM SIGN LAK-648 TIMES UD", aliases: &[] },
        Codepoint { codepoint: 0x12516, name: "CUNEIFORM SIGN LAK-648 TIMES URUDA", aliases: &[] },
        Codepoint { codepoint: 0x12517, name: "CUNEIFORM SIGN LAK-724", aliases: &[] },
        Codepoint { codepoint: 0x12518, name: "CUNEIFORM SIGN LAK-749", aliases: &[] },
        Codepoint { codepoint: 0x12519, name: "CUNEIFORM SIGN LU2 GUNU TIMES ASH", aliases: &[] },
        Codepoint { codepoint: 0x1251A, name: "CUNEIFORM SIGN LU2 TIMES DISH", aliases: &[] },
        Codepoint { codepoint: 0x1251B, name: "CUNEIFORM SIGN LU2 TIMES HAL", aliases: &[] },
        Codepoint { codepoint: 0x1251C, name: "CUNEIFORM SIGN LU2 TIMES PAP", aliases: &[] },
        Codepoint { codepoint: 0x1251D, name: "CUNEIFORM SIGN LU2 TIMES PAP PLUS PAP PLUS LU3", aliases: &[] },
        Codepoint { codepoint: 0x1251E, name: "CUNEIFORM SIGN LU2 TIMES TAK4", aliases: &[] },
        Codepoint { codepoint: 0x1251F, name: "CUNEIFORM SIGN MI PLUS ZA7", aliases: &[] },
        Codepoint { codepoint: 0x12520, name: "CUNEIFORM SIGN MUSH OVER MUSH TIMES GA", aliases: &[] },
        Codepoint { codepoint: 0x12521, name: "CUNEIFORM SIGN MUSH OVER MUSH TIMES KAK", aliases: &[] },
        Codepoint { codepoint: 0x12522, name: "CUNEIFORM SIGN NINDA2 TIMES DIM GUNU", aliases: &[] },
        Codepoint { codepoint: 0x12523, name: "CUNEIFORM SIGN NINDA2 TIMES GISH", aliases: &[] },
    ]
}

fn all_codepoints_570() -> (v: Vec<Codepoint>)
    ensures
        v@ == codepoint_table_570(),
{
    let v = vec![
        Codepoint { codepoint: 0x124FC, name: "CUNEIFORM SIGN LAK-492", aliases: &[] },
        Codepoint { codepoint: 0x124FD, name: "CUNEIFORM SIGN LAK-493", aliases: &[] },
        Codepoint { codepoint: 0x124FE, name: "CUNEIFORM SIGN LAK-495", aliases: &[] },
        Codepoint { codepoint: 0x124FF, name: "CUNEIFORM SIGN LAK-550", aliases: &[] },
        Codepoint { codepoint: 0x12500, name: "CUNEIFORM SIGN LAK-608", aliases: &[] },
        Codepoint { codepoint: 0x12501, name: "CUNEIFORM SIGN LAK-617", aliases: &[] },
        Codepoint { codepoint: 0x12502, name: "CUNEIFORM SIGN LAK-617 TIMES ASH", aliases: &[] },
        Codepoint { codepoint: 0x12503, name: "CUNEIFORM SIGN LAK-617 TIMES BAD", aliases: &[] },
        Codepoint { codepoint: 0x12504, name: "CUNEIFORM SIGN LAK-617 TIMES DUN3 GUNU GUNU", aliases: &[] },
        Codepoint { codepoint: 0x12505, name: "CUNEIFORM SIGN LAK-617 TIMES KU3", aliases: &[] },
        Codepoint { codepoint: 0x12506, name: "CUNEIFORM SIGN LAK-617 TIMES LA", aliases: &[] },
        Codepoint { codepoint: 0x12507, name: "CUNEIFORM SIGN LAK-617 TIMES TAR", aliases: &[] },
        Codepoint { codepoint: 0x12508, name: "CUNEIFORM SIGN LAK-617 TIMES TE", aliases: &[] },
        Codepoint { codepoint: 0x12509, name: "CUNEIFORM SIGN LAK-617 TIMES U2", aliases: &[] },
        Codepoint { codepoint: 0x1250A, name: "CUNEIFORM SIGN LAK-617 TIMES UD", aliases: &[] },
        Codepoint { codepoint: 0x1250B, name: "CUNEIFORM SIGN LAK-617 TIMES URUDA", aliases: &[] },
        Codepoint { codepoint: 0x1250C, name: "CUNEIFORM SIGN LAK-636", aliases: &[] },
        Codepoint { codepoint: 0x1250D, name: "CUNEIFORM SIGN LAK-648", aliases: &[] },
        Codepoint { codepoint: 0x1250E, name: "CUNEIFORM SIGN LAK-648 TIMES DUB", aliases: &[] },
        Codepoint { codepoint: 0x1250F, name: "CUNEIFORM SIGN LAK-648 TIMES GA", aliases: &[] },
        Codepoint { codepoint: 0x12510, name: "CUNEIFORM SIGN LAK-648 TIMES IGI", aliases: &[] },
        Codepoint { codepoint: 0x12511, name: "CUNEIFORM SIGN LAK-648 TIMES IGI GUNU", aliases: &[] },
        Codepoint { codepoint: 0x12512, name: "CUNEIFORM SIGN LAK-648 TIMES NI", aliases: &[] },
        Codepoint { codepoint: 0x12513, name: "CUNEIFORM SIGN LAK-648 TIMES PAP PLUS PAP PLUS LU3", aliases: &[] },
        Codepoint { codepoint: 0x12514, name: "CUNEIFORM SIGN LAK-648 TIMES SHESH PLUS KI", aliases: &[] },
        Codepoint { codepoint: 0x12515, name: "CUNEIFORM SIGN LAK-648 TIMES UD", aliases: &[] },
        Codepoint { codepoint: 0x12516, name: "CUNEIFORM SIGN LAK-648 TIMES URUDA", aliases: &[] },
        Codepoint { codepoint: 0x12517, name: "CUNEIFORM SIGN LAK-724", aliases: &[] },
        Codepoint { codepoint: 0x12518, name: "CUNEIFORM SIGN LAK-749", aliases: &[] },
        Codepoint { codepoint: 0x12519, name: "CUNEIFORM SIGN LU2 GUNU TIMES ASH", aliases: &[] },
        Codepoint { codepoint: 0x1251A, name: "CUNEIFORM SIGN LU2 TIMES DISH", aliases: &[] },
        Codepoint { codepoint: 0x1251B, name: "CUNEIFORM SIGN LU2 TIMES HAL", aliases: &[] },
        Codepoint { codepoint: 0x1251C, name: "CUNEIFORM SIGN LU2 TIMES PAP", aliases: &[] },
        Codepoint { codepoint: 0x1251D, name: "CUNEIFORM SIGN LU2 TIMES PAP PLUS PAP PLUS LU3", aliases: &[] },
        Codepoint { codepoint: 0x1251E, name: "CUNEIFORM SIGN LU2 TIMES TAK4", aliases: &[] },
        Codepoint { codepoint: 0x1251F, name: "CUNEIFORM SIGN MI PLUS ZA7", aliases: &[] },
        Codepoint { codepoint: 0x12520, name: "CUNEIFORM SIGN MUSH OVER MUSH TIMES GA", aliases: &[] },
        Codepoint { codepoint: 0x12521, name: "CUNEIFORM SIGN MUSH OVER MUSH TIMES KAK", aliases: &[] },
        Codepoint { codepoint: 0x12522, name: "CUNEIFORM SIGN NINDA2 TIMES DIM GUNU", aliases: &[] },
        Codepoint { codepoint: 0x12523, name: "CUNEIFORM SIGN NINDA2 TIMES GISH", aliases: &[] },
    ];
    assert(v@ =~= codepoint_table_570());
    v
}

pub open spec fn codepoint_table_571() -> Seq<Codepoint> {
    seq![
        Codepoint { codepoint: 0x12524, name: "CUNEIFORM SIGN NINDA2 TIMES GUL", aliases: &[] },
        Codepoint { codepoint: 0x12525, name: "CUNEIFORM SIGN NINDA2 TIMES HI", aliases: &[] },
        Codepoint { codepoint: 0x12526, name: "CUNEIFORM SIGN NINDA2 TIMES KESH2", aliases: &[] },
        Codepoint { codepoint: 0x12527, name: "CUNEIFORM SIGN NINDA2 TIMES LAK-050", aliases: &[] },
        Codepoint { codepoint: 0x12528, name: "CUNEIFORM SIGN NINDA2 TIMES MASH", aliases: &[] },
        Codepoint { codepoint: 0x12529, name: "CUNEIFORM SIGN NINDA2 TIMES PAP PLUS PAP", aliases: &[] },
        Codepoint { codepoint: 0x1252A, name: "CUNEIFORM SIGN NINDA2 TIMES U", aliases: &[] },
        Codepoint { codepoint: 0x1252B, name: "CUNEIFORM SIGN NINDA2 TIMES U PLUS U", aliases: &[] },
        Codepoint { codepoint: 0x1252C, name: "CUNEIFORM SIGN NINDA2 TIMES URUDA", aliases: &[] },
        Codepoint { codepoint: 0x1252D, name: "CUNEIFORM SIGN SAG GUNU TIMES HA", aliases: &[] },
        Codepoint { codepoint: 0x1252E, name: "CUNEIFORM SIGN SAG TIMES EN", aliases: &[] },
        Codepoint { codepoint: 0x1252F, name: "CUNEIFORM SIGN SAG TIMES SHE AT LEFT", aliases: &[] },
        Codepoint { codepoint: 0x12530, name: "CUNEIFORM SIGN SAG TIMES TAK4", aliases: &[] },
        Codepoint { codepoint: 0x12531, name: "CUNEIFORM SIGN SHA6 TENU", aliases: &[] },
        Codepoint { codepoint: 0x12532, name: "CUNEIFORM SIGN SHE OVER SHE", aliases: &[] },
        Codepoint { codepoint: 0x12533, name: "CUNEIFORM SIGN SHE PLUS HUB2", aliases: &[] },
        Codepoint { codepoint: 0x12534, name: "CUNEIFORM SIGN SHE PLUS NAM2", aliases: &[] },
        Codepoint { codepoint: 0x12535, name: "CUNEIFORM SIGN SHE PLUS SAR", aliases: &[] },
        Codepoint { codepoint: 0x12536, name: "CUNEIFORM SIGN SHU2 PLUS DUG TIMES NI", aliases: &[] },
        Codepoint { codepoint: 0x12537, name: "CUNEIFORM SIGN SHU2 PLUS E2 TIMES AN", aliases: &[] },
        Codepoint { codepoint: 0x12538, name: "CUNEIFORM SIGN SI TIMES TAK4", aliases: &[] },
        Codepoint { codepoint: 0x12539, name: "CUNEIFORM SIGN TAK4 PLUS SAG", aliases: &[] },
        Codepoint { codepoint: 0x1253A, name: "CUNEIFORM SIGN TUM TIMES GAN2 TENU", aliases: &[] },
        Codepoint { codepoint: 0x1253B, name: "CUNEIFORM SIGN TUM TIMES THREE DISH", aliases: &[] },
        Codepoint { codepoint: 0x1253C, name: "CUNEIFORM SIGN UR2 INVERTED", aliases: &[] },
        Codepoint { codepoint: 0x1253D, name: "CUNEIFORM SIGN UR2 TIMES UD", aliases: &[] },
        Codepoint { codepoint: 0x1253E, name: "CUNEIFORM SIGN URU TIMES DARA3", aliases: &[] },
        Codepoint { codepoint: 0x1253F, name: "CUNEIFORM SIGN URU TIMES LAK-668", aliases: &[] },
        Codepoint { codepoint: 0x12540, name: "CUNEIFORM SIGN URU TIMES LU3", aliases: &[] },
        Codepoint { codepoint: 0x12541, name: "CUNEIFORM SIGN ZA7", aliases: &[] },
        Codepoint { codepoint: 0x12542, name: "CUNEIFORM SIGN ZU OVER ZU PLUS SAR", aliases: &[] },
        Codepoint { codepoint: 0x12543, name: "CUNEIFORM SIGN ZU5 TIMES THREE DISH TENU", aliases: &[] },
        Codepoint { codepoint: 0x12F90, name: "CYPRO-MINOAN SIGN CM001", aliases: &[] },
        Codepoint { codepoint: 0x12F91, name: "CYPRO-MINOAN SIGN CM002", aliases: &[] },
        Codepoint { codepoint: 0x12F92, name: "CYPRO-MINOAN SIGN CM004", aliases: &[] },
        Codepoint { codepoint: 0x12F93, name: "CYPRO-MINOAN SIGN CM005", aliases: &[] },
        Codepoint { codepoint: 0x12F94, name: "CYPRO-MINOAN SIGN CM006", aliases: &[] },
        Codepoint { codepoint: 0x12F95, name: "CYPRO-MINOAN SIGN CM007", aliases: &[] },
        Codepoint { codepoint: 0x12F96, name: "CYPRO-MINOAN SIGN CM008", aliases: &[] },
        Codepoint { codepoint: 0x12F97, name: "CYPRO-MINOAN SIGN CM009", aliases: &[] },
    ]
}

fn all_codepoints_571() -> (v: Vec<Codepoint>)
    ensures
        v@ == codepoint_table_571(),
{
    let v = vec![
        Codepoint { codepoint: 0x12524, name: "CUNEIFORM SIGN NINDA2 TIMES GUL", aliases: &[] },
        Codepoint { codepoint: 0x12525, name: "CUNEIFORM SIGN NINDA2 TIMES HI", aliases: &[] },
        Codepoint { codepoint: 0x12526, name: "CUNEIFORM SIGN NINDA2 TIMES KESH2", aliases: &[] },
        Codepoint { codepoint: 0x12527, name: "CUNEIFORM SIGN NINDA2 TIMES LAK-050", aliases: &[] },
        Codepoint { codepoint: 0x12528, name: "CUNEIFORM SIGN NINDA2 TIMES MASH", aliases: &[] },
        Codepoint { codepoint: 0x12529, name: "CUNEIFORM SIGN NINDA2 TIMES PAP PLUS PAP", aliases: &[] },
        Codepoint { codepoint: 0x1252A, name: "CUNEIFORM SIGN NINDA2 TIMES U", aliases: &[] },
        Codepoint { codepoint: 0x1252B, name: "CUNEIFORM SIGN NINDA2 TIMES U PLUS U", aliases: &[] },
        Codepoint { codepoint: 0x1252C, name: "CUNEIFORM SIGN NINDA2 TIMES URUDA", aliases: &[] },
        Codepoint { codepoint: 0x1252D, name: "CUNEIFORM SIGN SAG GUNU TIMES HA", aliases: &[] },
        Codepoint { codepoint: 0x1252E, name: "CUNEIFORM SIGN SAG TIMES EN", aliases: &[] },
        Codepoint { codepoint: 0x1252F, name: "CUNEIFORM SIGN SAG TIMES SHE AT LEFT", aliases: &[] },
        Codepoint { codepoint: 0x12530, name: "CUNEIFORM SIGN SAG TIMES TAK4", aliases: &[] },
        Codepoint { codepoint: 0x12531, name: "CUNEIFORM SIGN SHA6 TENU", aliases: &[] },
        Codepoint { codepoint: 0x12532, name: "CUNEIFORM SIGN SHE OVER SHE", aliases: &[] },
        Codepoint { codepoint: 0x12533, name: "CUNEIFORM SIGN SHE PLUS HUB2", aliases: &[] },
        Codepoint { codepoint: 0x12534, name: "CUNEIFORM SIGN SHE PLUS NAM2", aliases: &[] },
        Codepoint { codepoint: 0x12535, name: "CUNEIFORM SIGN SHE PLUS SAR", aliases: &[] },
        Codepoint { codepoint: 0x12536, name: "CUNEIFORM SIGN SHU2 PLUS DUG TIMES NI", aliases: &[] },
        Codepoint { codepoint: 0x12537, name: "CUNEIFORM SIGN SHU2 PLUS E2 TIMES AN", aliases: &[] },
        Codepoint { codepoint: 0x12538, name: "CUNEIFORM SIGN SI TIMES TAK4", aliases: &[] },
        Codepoint { codepoint: 0x12539, name: "CUNEIFORM SIGN TAK4 PLUS SAG", aliases: &[] },
        Codepoint { codepoint: 0x1253A, name: "CUNEIFORM SIGN TUM TIMES GAN2 TENU", aliases: &[] },
        Codepoint { codepoint: 0x1253B, name: "CUNEIFORM SIGN TUM TIMES THREE DISH", aliases: &[] },
        Codepoint { codepoint: 0x1253C, name: "CUNEIFORM SIGN UR2 INVERTED", aliases: &[] },
        Codepoint { codepoint: 0x1253D, name: "CUNEIFORM SIGN UR2 TIMES UD", aliases: &[] },
        Codepoint { codepoint: 0x1253E, name: "CUNEIFORM SIGN URU TIMES DARA3", aliases: &[] },
        Codepoint { codepoint: 0x1253F, name: "CUNEIFORM SIGN URU TIMES LAK-668", aliases: &[] },
        Codepoint { codepoint: 0x12540, name: "CUNEIFORM SIGN URU TIMES LU3", aliases: &[] },
        Codepoint { codepoint: 0x12541, name: "CUNEIFORM SIGN ZA7", aliases: &[] },
        Codepoint { codepoint: 0x12542, name: "CUNEIFORM SIGN ZU OVER ZU PLUS SAR", aliases: &[] },
        Codepoint { codepoint: 0x12543, name: "CUNEIFORM SIGN ZU5 TIMES THREE DISH TENU", aliases: &[] },
        Codepoint { codepoint: 0x12F90, name: "CYPRO-MINOAN SIGN CM001", aliases: &[] },
        Codepoint { codepoint: 0x12F91, name: "CYPRO-MINOAN SIGN CM002", aliases: &[] },
        Codepoint { codepoint: 0x12F92, name: "CYPRO-MINOAN SIGN CM004", aliases: &[] },
        Codepoint { codepoint: 0x12F93, name: "CYPRO-MINOAN SIGN CM005", aliases: &[] },
        Codepoint { codepoint: 0x12F94, name: "CYPRO-MINOAN SIGN CM006", aliases: &[] },
        Codepoint { codepoint: 0x12F95, name: "CYPRO-MINOAN SIGN CM007", aliases: &[] },
        Codepoint { codepoint: 0x12F96, name: "CYPRO-MINOAN SIGN CM008", aliases: &[] },
        Codepoint { codepoint: 0x12F97, name: "CYPRO-MINOAN SIGN CM009", aliases: &[] },
    ];
    assert(v@ =~= codepoint_table_571());
    v
}

pub open spec fn codepoint_table_572() -> Seq<Codepoint> {
    seq![
        Codepoint { codepoint: 0x12F98, name: "CYPRO-MINOAN SIGN CM010", aliases: &[] },
        Codepoint { codepoint: 0x12F99, name: "CYPRO-MINOAN SIGN CM011", aliases: &[] },
        Codepoint { codepoint: 0x12F9A, name: "CYPRO-MINOAN SIGN CM012", aliases: &[] },
        Codepoint { codepoint: 0x12F9B, name: "CYPRO-MINOAN SIGN CM012B", aliases: &[] },
        Codepoint { codepoint: 0x12F9C, name: "CYPRO-MINOAN SIGN CM013", aliases: &[] },
        Codepoint { codepoint: 0x12F9D, name: "CYPRO-MINOAN SIGN CM015", aliases: &[] },
        Codepoint { codepoint: 0x12F9E, name: "CYPRO-MINOAN SIGN CM017", aliases: &[] },
        Codepoint { codepoint: 0x12F9F, name: "CYPRO-MINOAN SIGN CM019", aliases: &[] },
        Codepoint { codepoint: 0x12FA0, name: "CYPRO-MINOAN SIGN CM021", aliases: &[] },
        Codepoint { codepoint: 0x12FA1, name: "CYPRO-MINOAN SIGN CM023", aliases: &[] },
        Codepoint { codepoint: 0x12FA2, name: "CYPRO-MINOAN SIGN CM024", aliases: &[] },
        Codepoint { codepoint: 0x12FA3, name: "CYPRO-MINOAN SIGN CM025", aliases: &[] },
        Codepoint { codepoint: 0x12FA4, name: "CYPRO-MINOAN SIGN CM026", aliases: &[] },
        Codepoint { codepoint: 0x12FA5, name: "CYPRO-MINOAN SIGN CM027", aliases: &[] },
        Codepoint { codepoint: 0x12FA6, name: "CYPRO-MINOAN SIGN CM028", aliases: &[] },
        Codepoint { codepoint: 0x12FA7, name: "CYPRO-MINOAN SIGN CM029", aliases: &[] },
        Codepoint { codepoint: 0x12FA8, name: "CYPRO-MINOAN SIGN CM030", aliases: &[] },
        Codepoint { codepoint: 0x12FA9, name: "CYPRO-MINOAN SIGN CM033", aliases: &[] },
        Codepoint { codepoint: 0x12FAA, name: "CYPRO-MINOAN SIGN CM034", aliases: &[] },
        Codepoint { codepoint: 0x12FAB, name: "CYPRO-MINOAN SIGN CM035", aliases: &[] },
        Codepoint { codepoint: 0x12FAC, name: "CYPRO-MINOAN SIGN CM036", aliases: &[] },
        Codepoint { codepoint: 0x12FAD, name: "CYPRO-MINOAN SIGN CM037", aliases: &[] },
        Codepoint { codepoint: 0x12FAE, name: "CYPRO-MINOAN SIGN CM038", aliases: &[] },
        Codepoint { codepoint: 0x12FAF, name: "CYPRO-MINOAN SIGN CM039", aliases: &[] },
        Codepoint { codepoint: 0x12FB0, name: "CYPRO-MINOAN SIGN CM040", aliases: &[] },
        Codepoint { codepoint: 0x12FB1, name: "CYPRO-MINOAN SIGN CM041", aliases: &[] },
        Codepoint { codepoint: 0x12FB2, name: "CYPRO-MINOAN SIGN CM044", aliases: &[] },
        Codepoint { codepoint: 0x12FB3, name: "CYPRO-MINOAN SIGN CM046", aliases: &[] },
        Codepoint { codepoint: 0x12FB4, name: "CYPRO-MINOAN SIGN CM047", aliases: &[] },
        Codepoint { codepoint: 0x12FB5, name: "CYPRO-MINOAN SIGN CM049", aliases: &[] },
        Codepoint { codepoint: 0x12FB6, name: "CYPRO-MINOAN SIGN CM050", aliases: &[] },
        Codepoint { codepoint: 0x12FB7, name: "CYPRO-MINOAN SIGN CM051", aliases: &[] },
        Codepoint { codepoint: 0x12FB8, name: "CYPRO-MINOAN SIGN CM052", aliases: &[] },
        Codepoint { codepoint: 0x12FB9, name: "CYPRO-MINOAN SIGN CM053", aliases: &[] },
        Codepoint { codepoint: 0x12FBA, name: "CYPRO-MINOAN SIGN CM054", aliases: &[] },
        Codepoint { codepoint: 0x12FBB, name: "CYPRO-MINOAN SIGN CM055", aliases: &[] },
        Codepoint { codepoint: 0x12FBC, name: "CYPRO-MINOAN SIGN CM056", aliases: &[] },
        Codepoint { codepoint: 0x12FBD, name: "CYPRO-MINOAN SIGN CM058", aliases: &[] },
        Codepoint { codepoint: 0x12FBE, name: "CYPRO-MINOAN SIGN CM059", aliases: &[] },
        Codepoint { codepoint: 0x12FBF, name: "CYPRO-MINOAN SIGN CM060", aliases: &[] },
    ]
}

fn all_codepoints_572() -> (v: Vec<Codepoint>)
    ensures
        v@ == codepoint_table_572(),
{
    let v = vec![
        Codepoint { codepoint: 0x12F98, name: "CYPRO-MINOAN SIGN CM010", aliases: &[] },
        Codepoint { codepoint: 0x12F99, name: "CYPRO-MINOAN SIGN CM011", aliases: &[] },
        Codepoint { codepoint: 0x12F9A, name: "CYPRO-MINOAN SIGN CM012", aliases: &[] },
        Codepoint { codepoint: 0x12F9B, name: "CYPRO-MINOAN SIGN CM012B", aliases: &[] },
        Codepoint { codepoint: 0x12F9C, name: "CYPRO-MINOAN SIGN CM013", aliases: &[] },
        Codepoint { codepoint: 0x12F9D, name: "CYPRO-MINOAN SIGN CM015", aliases: &[] },
        Codepoint { codepoint: 0x12F9E, name: "CYPRO-MINOAN SIGN CM017", aliases: &[] },
        Codepoint { codepoint: 0x12F9F, name: "CYPRO-MINOAN SIGN CM019", aliases: &[] },
        Codepoint { codepoint: 0x12FA0, name: "CYPRO-MINOAN SIGN CM021", aliases: &[] },
        Codepoint { codepoint: 0x12FA1, name: "CYPRO-MINOAN SIGN CM023", aliases: &[] },
        Codepoint { codepoint: 0x12FA2, name: "CYPRO-MINOAN SIGN CM024", aliases: &[] },
        Codepoint { codepoint: 0x12FA3, name: "CYPRO-MINOAN SIGN CM025", aliases: &[] },
        Codepoint { codepoint: 0x12FA4, name: "CYPRO-MINOAN SIGN CM026", aliases: &[] },
        Codepoint { codepoint: 0x12FA5, name: "CYPRO-MINOAN SIGN CM027", aliases: &[] },
        Codepoint { codepoint: 0x12FA6, name: "CYPRO-MINOAN SIGN CM028", aliases: &[] },
        Codepoint { codepoint: 0x12FA7, name: "CYPRO-MINOAN SIGN CM029", aliases: &[] },
        Codepoint { codepoint: 0x12FA8, name: "CYPRO-MINOAN SIGN CM030", aliases: &[] },
        Codepoint { codepoint: 0x12FA9, name: "CYPRO-MINOAN SIGN CM033", aliases: &[] },
        Codepoint { codepoint: 0x12FAA, name: "CYPRO-MINOAN SIGN CM034", aliases: &[] },
        Codepoint { codepoint: 0x12FAB, name: "CYPRO-MINOAN SIGN CM035", aliases: &[] },
        Codepoint { codepoint: 0x12FAC, name: "CYPRO-MINOAN SIGN CM036", aliases: &[] },
        Codepoint { codepoint: 0x12FAD, name: "CYPRO-MINOAN SIGN CM037", aliases: &[] },
        Codepoint { codepoint: 0x12FAE, name: "CYPRO-MINOAN SIGN CM038", aliases: &[] },
        Codepoint { codepoint: 0x12FAF, name: "CYPRO-MINOAN SIGN CM039", aliases: &[] },
        Codepoint { codepoint: 0x12FB0, name: "CYPRO-MINOAN SIGN CM040", aliases: &[] },
        Codepoint { codepoint: 0x12FB1, name: "CYPRO-MINOAN SIGN CM041", aliases: &[] },
        Codepoint { codepoint: 0x12FB2, name: "CYPRO-MINOAN SIGN CM044", aliases: &[] },
        Codepoint { codepoint: 0x12FB3, name: "CYPRO-MINOAN SIGN CM046", aliases: &[] },
        Codepoint { codepoint: 0x12FB4, name: "CYPRO-MINOAN SIGN CM047", aliases: &[] },
        Codepoint { codepoint: 0x12FB5, name: "CYPRO-MINOAN SIGN CM049", aliases: &[] },
        Codepoint { codepoint: 0x12FB6, name: "CYPRO-MINOAN SIGN CM050", aliases: &[] },
        Codepoint { codepoint: 0x12FB7, name: "CYPRO-MINOAN SIGN CM051", aliases: &[] },
        Codepoint { codepoint: 0x12FB8, name: "CYPRO-MINOAN SIGN CM052", aliases: &[] },
        Codepoint { codepoint: 0x12FB9, name: "CYPRO-MINOAN SIGN CM053", aliases: &[] },
        Codepoint { codepoint: 0x12FBA, name: "CYPRO-MINOAN SIGN CM054", aliases: &[] },
        Codepoint { codepoint: 0x12FBB, name: "CYPRO-MINOAN SIGN CM055", aliases: &[] },
        Codepoint { codepoint: 0x12FBC, name: "CYPRO-MINOAN SIGN CM056", aliases: &[] },
        Codepoint { codepoint: 0x12FBD, name: "CYPRO-MINOAN SIGN CM058", aliases: &[] },
        Codepoint { codepoint: 0x12FBE, name: "CYPRO-MINOAN SIGN CM059", aliases: &[] },
        Codepoint { codepoint: 0x12FBF, name: "CYPRO-MINOAN SIGN CM060", aliases: &[] },
    ];
    assert(v@ =~= codepoint_table_572());
    v
}

pub open spec fn codepoint_table_573() -> Seq<Codepoint> {
    seq![
        Codepoint { codepoint: 0x12FC0, name: "CYPRO-MINOAN SIGN CM061", aliases: &[] },
        Codepoint { codepoint: 0x12FC1, name: "CYPRO-MINOAN SIGN CM062", aliases: &[] },
        Codepoint { codepoint: 0x12FC2, name: "CYPRO-MINOAN SIGN CM063", aliases: &[] },
        Codepoint { codepoint: 0x12FC3, name: "CYPRO-MINOAN SIGN CM064", aliases: &[] },
        Codepoint { codepoint: 0x12FC4, name: "CYPRO-MINOAN SIGN CM066", aliases: &[] },
        Codepoint { codepoint: 0x12FC5, name: "CYPRO-MINOAN SIGN CM067", aliases: &[] },
        Codepoint { codepoint: 0x12FC6, name: "CYPRO-MINOAN SIGN CM068", aliases: &[] },
        Codepoint { codepoint: 0x12FC7, name: "CYPRO-MINOAN SIGN CM069", aliases: &[] },
        Codepoint { codepoint: 0x12FC8, name: "CYPRO-MINOAN SIGN CM070", aliases: &[] },
        Codepoint { codepoint: 0x12FC9, name: "CYPRO-MINOAN SIGN CM071", aliases: &[] },
        Codepoint { codepoint: 0x12FCA, name: "CYPRO-MINOAN SIGN CM072", aliases: &[] },
        Codepoint { codepoint: 0x12FCB, name: "CYPRO-MINOAN SIGN CM073", aliases: &[] },
        Codepoint { codepoint: 0x12FCC, name: "CYPRO-MINOAN SIGN CM074", aliases: &[] },
        Codepoint { codepoint: 0x12FCD, name: "CYPRO-MINOAN SIGN CM075", aliases: &[] },
        Codepoint { codepoint: 0x12FCE, name: "CYPRO-MINOAN SIGN CM075B", aliases: &[] },
        Codepoint { codepoint: 0x12FCF, name: "CYPRO-MINOAN SIGN CM076", aliases: &[] },
        Codepoint { codepoint: 0x12FD0, name: "CYPRO-MINOAN SIGN CM078", aliases: &[] },
        Codepoint { codepoint: 0x12FD1, name: "CYPRO-MINOAN SIGN CM079", aliases: &[] },
        Codepoint { codepoint: 0x12FD2, name: "CYPRO-MINOAN SIGN CM080", aliases: &[] },
        Codepoint { codepoint: 0x12FD3, name: "CYPRO-MINOAN SIGN CM081", aliases: &[] },
        Codepoint { codepoint: 0x12FD4, name: "CYPRO-MINOAN SIGN CM082", aliases: &[] },
        Codepoint { codepoint: 0x12FD5, name: "CYPRO-MINOAN SIGN CM083", aliases: &[] },
        Codepoint { codepoint: 0x12FD6, name: "CYPRO-MINOAN SIGN CM084", aliases: &[] },
        Codepoint { codepoint: 0x12FD7, name: "CYPRO-MINOAN SIGN CM085", aliases: &[] },
        Codepoint { codepoint: 0x12FD8, name: "CYPRO-MINOAN SIGN CM086", aliases: &[] },
        Codepoint { codepoint: 0x12FD9, name: "CYPRO-MINOAN SIGN CM087", aliases: &[] },
        Codepoint { codepoint: 0x12FDA, name: "CYPRO-MINOAN SIGN CM088", aliases: &[] },
        Codepoint { codepoint: 0x12FDB, name: "CYPRO-MINOAN SIGN CM089", aliases: &[] },
        Codepoint { codepoint: 0x12FDC, name: "CYPRO-MINOAN SIGN CM090", aliases: &[] },
        Codepoint { codepoint: 0x12FDD, name: "CYPRO-MINOAN SIGN CM091", aliases: &[] },
        Codepoint { codepoint: 0x12FDE, name: "CYPRO-MINOAN SIGN CM092", aliases: &[] },
        Codepoint { codepoint: 0x12FDF, name: "CYPRO-MINOAN SIGN CM094", aliases: &[] },
        Codepoint { codepoint: 0x12FE0, name: "CYPRO-MINOAN SIGN CM095", aliases: &[] },
        Codepoint { codepoint: 0x12FE1, name: "CYPRO-MINOAN SIGN CM096", aliases: &[] },
        Codepoint { codepoint: 0x12FE2, name: "CYPRO-MINOAN SIGN CM097", aliases: &[] },
        Codepoint { codepoint: 0x12FE3, name: "CYPRO-MINOAN SIGN CM098", aliases: &[] },
        Codepoint { codepoint: 0x12FE4, name: "CYPRO-MINOAN SIGN CM099", aliases: &[] },
        Codepoint { codepoint: 0x12FE5, name: "CYPRO-MINOAN SIGN CM100", aliases: &[] },
        Codepoint { codepoint: 0x12FE6, name: "CYPRO-MINOAN SIGN CM101", aliases: &[] },
        Codepoint { codepoint: 0x12FE7, name: "CYPRO-MINOAN SIGN CM102", aliases: &[] },
    ]
}

fn all_codepoints_573() -> (v: Vec<Codepoint>)
    ensures
        v@ == codepoint_table_573(),
{
    let v = vec![
        Codepoint { codepoint: 0x12FC0, name: "CYPRO-MINOAN SIGN CM061", aliases: &[] },
        Codepoint { codepoint: 0x12FC1, name: "CYPRO-MINOAN SIGN CM062", aliases: &[] },
        Codepoint { codepoint: 0x12FC2, name: "CYPRO-MINOAN SIGN CM063", aliases: &[] },
        Codepoint { codepoint: 0x12FC3, name: "CYPRO-MINOAN SIGN CM064", aliases: &[] },
        Codepoint { codepoint: 0x12FC4, name: "CYPRO-MINOAN SIGN CM066", aliases: &[] },
        Codepoint { codepoint: 0x12FC5, name: "CYPRO-MINOAN SIGN CM067", aliases: &[] },
        Codepoint { codepoint: 0x12FC6, name: "CYPRO-MINOAN SIGN CM068", aliases: &[] },
        Codepoint { codepoint: 0x12FC7, name: "CYPRO-MINOAN SIGN CM069", aliases: &[] },
        Codepoint { codepoint: 0x12FC8, name: "CYPRO-MINOAN SIGN CM070", aliases: &[] },
        Codepoint { codepoint: 0x12FC9, name: "CYPRO-MINOAN SIGN CM071", aliases: &[] },
        Codepoint { codepoint: 0x12FCA, name: "CYPRO-MINOAN SIGN CM072", aliases: &[] },
        Codepoint { codepoint: 0x12FCB, name: "CYPRO-MINOAN SIGN CM073", aliases: &[] },
        Codepoint { codepoint: 0x12FCC, name: "CYPRO-MINOAN SIGN CM074", aliases: &[] },
        Codepoint { codepoint: 0x12FCD, name: "CYPRO-MINOAN SIGN CM075", aliases: &[] },
        Codepoint { codepoint: 0x12FCE, name: "CYPRO-MINOAN SIGN CM075B", aliases: &[] },
        Codepoint { codepoint: 0x12FCF, name: "CYPRO-MINOAN SIGN CM076", aliases: &[] },
        Codepoint { codepoint: 0x12FD0, name: "CYPRO-MINOAN SIGN CM078", aliases: &[] },
        Codepoint { codepoint: 0x12FD1, name: "CYPRO-MINOAN SIGN CM079", aliases: &[] },
        Codepoint { codepoint: 0x12FD2, name: "CYPRO-MINOAN SIGN CM080", aliases: &[] },
        Codepoint { codepoint: 0x12FD3, name: "CYPRO-MINOAN SIGN CM081", aliases: &[] },
        Codepoint { codepoint: 0x12FD4, name: "CYPRO-MINOAN SIGN CM082", aliases: &[] },
        Codepoint { codepoint: 0x12FD5, name: "CYPRO-MINOAN SIGN CM083", aliases: &[] },
        Codepoint { codepoint: 0x12FD6, name: "CYPRO-MINOAN SIGN CM084", aliases: &[] },
        Codepoint { codepoint: 0x12FD7, name: "CYPRO-MINOAN SIGN CM085", aliases: &[] },
        Codepoint { codepoint: 0x12FD8, name: "CYPRO-MINOAN SIGN CM086", aliases: &[] },
        Codepoint { codepoint: 0x12FD9, name: "CYPRO-MINOAN SIGN CM087", aliases: &[] },
        Codepoint { codepoint: 0x12FDA, name: "CYPRO-MINOAN SIGN CM088", aliases: &[] },
        Codepoint { codepoint: 0x12FDB, name: "CYPRO-MINOAN SIGN CM089", aliases: &[] },
        Codepoint { codepoint: 0x12FDC, name: "CYPRO-MINOAN SIGN CM090", aliases: &[] },
        Codepoint { codepoint: 0x12FDD, name: "CYPRO-MINOAN SIGN CM091", aliases: &[] },
        Codepoint { codepoint: 0x12FDE, name: "CYPRO-MINOAN SIGN CM092", aliases: &[] },
        Codepoint { codepoint: 0x12FDF, name: "CYPRO-MINOAN SIGN CM094", aliases: &[] },
        Codepoint { codepoint: 0x12FE0, name: "CYPRO-MINOAN SIGN CM095", aliases: &[] },
        Codepoint { codepoint: 0x12FE1, name: "CYPRO-MINOAN SIGN CM096", aliases: &[] },
        Codepoint { codepoint: 0x12FE2, name: "CYPRO-MINOAN SIGN CM097", aliases: &[] },
        Codepoint { codepoint: 0x12FE3, name: "CYPRO-MINOAN SIGN CM098", aliases: &[] },
        Codepoint { codepoint: 0x12FE4, name: "CYPRO-MINOAN SIGN CM099", aliases: &[] },
        Codepoint { codepoint: 0x12FE5, name: "CYPRO-MINOAN SIGN CM100", aliases: &[] },
        Codepoint { codepoint: 0x12FE6, name: "CYPRO-MINOAN SIGN CM101", aliases: &[] },
        Codepoint { codepoint: 0x12FE7, name: "CYPRO-MINOAN SIGN CM102", aliases: &[] },
    ];
    assert(v@ =~= codepoint_table_573());
    v
}

pub open spec fn codepoint_table_574() -> Seq<Codepoint> {
    seq![
        Codepoint { codepoint: 0x12FE8, name: "CYPRO-MINOAN SIGN CM103", aliases: &[] },
        Codepoint { codepoint: 0x12FE9, name: "CYPRO-MINOAN SIGN CM104", aliases: &[] },
        Codepoint { codepoint: 0x12FEA, name: "CYPRO-MINOAN SIGN CM105", aliases: &[] },
        Codepoint { codepoint: 0x12FEB, name: "CYPRO-MINOAN SIGN CM107", aliases: &[] },
        Codepoint { codepoint: 0x12FEC, name: "CYPRO-MINOAN SIGN CM108", aliases: &[] },
        Codepoint { codepoint: 0x12FED, name: "CYPRO-MINOAN SIGN CM109", aliases: &[] },
        Codepoint { codepoint: 0x12FEE, name: "CYPRO-MINOAN SIGN CM110", aliases: &[] },
        Codepoint { codepoint: 0x12FEF, name: "CYPRO-MINOAN SIGN CM112", aliases: &[] },
        Codepoint { codepoint: 0x12FF0, name: "CYPRO-MINOAN SIGN CM114", aliases: &[] },
        Codepoint { codepoint: 0x12FF1, name: "CYPRO-MINOAN SIGN CM301", aliases: &[] },
        Codepoint { codepoint: 0x12FF2, name: "CYPRO-MINOAN SIGN CM302", aliases: &[] },
        Codepoint { codepoint: 0x13000, name: "EGYPTIAN HIEROGLYPH A001", aliases: &[] },
        Codepoint { codepoint: 0x13001, name: "EGYPTIAN HIEROGLYPH A002", aliases: &[] },
        Codepoint { codepoint: 0x13002, name: "EGYPTIAN HIEROGLYPH A003", aliases: &[] },
        Codepoint { codepoint: 0x13003, name: "EGYPTIAN HIEROGLYPH A004", aliases: &[] },
        Codepoint { codepoint: 0x13004, name: "EGYPTIAN HIEROGLYPH A005", aliases: &[] },
        Codepoint { codepoint: 0x13005, name: "EGYPTIAN HIEROGLYPH A005A", aliases: &[] },
        Codepoint { codepoint: 0x13006, name: "EGYPTIAN HIEROGLYPH A006", aliases: &[] },
        Codepoint { codepoint: 0x13007, name: "EGYPTIAN HIEROGLYPH A006A", aliases: &[] },
        Codepoint { codepoint: 0x13008, name: "EGYPTIAN HIEROGLYPH A006B", aliases: &[] },
        Codepoint { codepoint: 0x13009, name: "EGYPTIAN HIEROGLYPH A007", aliases: &[] },
        Codepoint { codepoint: 0x1300A, name: "EGYPTIAN HIEROGLYPH A008", aliases: &[] },
        Codepoint { codepoint: 0x1300B, name: "EGYPTIAN HIEROGLYPH A009", aliases: &[] },
        Codepoint { codepoint: 0x1300C, name: "EGYPTIAN HIEROGLYPH A010", aliases: &[] },
        Codepoint { codepoint: 0x1300D, name: "EGYPTIAN HIEROGLYPH A011", aliases: &[] },
        Codepoint { codepoint: 0x1300E, name: "EGYPTIAN HIEROGLYPH A012", aliases: &[] },
        Codepoint { codepoint: 0x1300F, name: "EGYPTIAN HIEROGLYPH A013", aliases: &[] },
        Codepoint { codepoint: 0x13010, name: "EGYPTIAN HIEROGLYPH A014", aliases: &[] },
        Codepoint { codepoint: 0x13011, name: "EGYPTIAN HIEROGLYPH A014A", aliases: &[] },
        Codepoint { codepoint: 0x13012, name: "EGYPTIAN HIEROGLYPH A015", aliases: &[] },
        Codepoint { codepoint: 0x13013, name: "EGYPTIAN HIEROGLYPH A016", aliases: &[] },
        Codepoint { codepoint: 0x13014, name: "EGYPTIAN HIEROGLYPH A017", aliases: &[] },
        Codepoint { codepoint: 0x13015, name: "EGYPTIAN HIEROGLYPH A017A", aliases: &[] },
        Codepoint { codepoint: 0x13016, name: "EGYPTIAN HIEROGLYPH A018", aliases: &[] },
        Codepoint { codepoint: 0x13017, name: "EGYPTIAN HIEROGLYPH A019", aliases: &[] },
        Codepoint { codepoint: 0x13018, name: "EGYPTIAN HIEROGLYPH A020", aliases: &[] },
        Codepoint { codepoint: 0x13019, name: "EGYPTIAN HIEROGLYPH A021", aliases: &[] },
        Codepoint { codepoint: 0x1301A, name: "EGYPTIAN HIEROGLYPH A022", aliases: &[] },
        Codepoint { codepoint: 0x1301B, name: "EGYPTIAN HIEROGLYPH A023", aliases: &[] },
        Codepoint { codepoint: 0x1301C, name: "EGYPTIAN HIEROGLYPH A024", aliases: &[] },
    ]
}

fn all_codepoints_574() -> (v: Vec<Codepoint>)
    ensures
        v@ == codepoint_table_574(),
{
    let v = vec![
        Codepoint { codepoint: 0x12FE8, name: "CYPRO-MINOAN SIGN CM103", aliases: &[] },
        Codepoint { codepoint: 0x12FE9, name: "CYPRO-MINOAN SIGN CM104", aliases: &[] },
        Codepoint { codepoint: 0x12FEA, name: "CYPRO-MINOAN SIGN CM105", aliases: &[] },
        Codepoint { codepoint: 0x12FEB, name: "CYPRO-MINOAN SIGN CM107", aliases: &[] },
        Codepoint { codepoint: 0x12FEC, name: "CYPRO-MINOAN SIGN CM108", aliases: &[] },
        Codepoint { codepoint: 0x12FED, name: "CYPRO-MINOAN SIGN CM109", aliases: &[] },
        Codepoint { codepoint: 0x12FEE, name: "CYPRO-MINOAN SIGN CM110", aliases: &[] },
        Codepoint { codepoint: 0x12FEF, name: "CYPRO-MINOAN SIGN CM112", aliases: &[] },
        Codepoint { codepoint: 0x12FF0, name: "CYPRO-MINOAN SIGN CM114", aliases: &[] },
        Codepoint { codepoint: 0x12FF1, name: "CYPRO-MINOAN SIGN CM301", aliases: &[] },
        Codepoint { codepoint: 0x12FF2, name: "CYPRO-MINOAN SIGN CM302", aliases: &[] },
        Codepoint { codepoint: 0x13000, name: "EGYPTIAN HIEROGLYPH A001", aliases: &[] },
        Codepoint { codepoint: 0x13001, name: "EGYPTIAN HIEROGLYPH A002", aliases: &[] },
        Codepoint { codepoint: 0x13002, name: "EGYPTIAN HIEROGLYPH A003", aliases: &[] },
        Codepoint { codepoint: 0x13003, name: "EGYPTIAN HIEROGLYPH A004", aliases: &[] },
        Codepoint { codepoint: 0x13004, name: "EGYPTIAN HIEROGLYPH A005", aliases: &[] },
        Codepoint { codepoint: 0x13005, name: "EGYPTIAN HIEROGLYPH A005A", aliases: &[] },
        Codepoint { codepoint: 0x13006, name: "EGYPTIAN HIEROGLYPH A006", aliases: &[] },
        Codepoint { codepoint: 0x13007, name: "EGYPTIAN HIEROGLYPH A006A", aliases: &[] },
        Codepoint { codepoint: 0x13008, name: "EGYPTIAN HIEROGLYPH A006B", aliases: &[] },
        Codepoint { codepoint: 0x13009, name: "EGYPTIAN HIEROGLYPH A007", aliases: &[] },
        Codepoint { codepoint: 0x1300A, name: "EGYPTIAN HIEROGLYPH A008", aliases: &[] },
        Codepoint { codepoint: 0x1300B, name: "EGYPTIAN HIEROGLYPH A009", aliases: &[] },
        Codepoint { codepoint: 0x1300C, name: "EGYPTIAN HIEROGLYPH A010", aliases: &[] },
        Codepoint { codepoint: 0x1300D, name: "EGYPTIAN HIEROGLYPH A011", aliases: &[] },
        Codepoint { codepoint: 0x1300E, name: "EGYPTIAN HIEROGLYPH A012", aliases: &[] },
        Codepoint { codepoint: 0x1300F, name: "EGYPTIAN HIEROGLYPH A013", aliases: &[] },
        Codepoint { codepoint: 0x13010, name: "EGYPTIAN HIEROGLYPH A014", aliases: &[] },
        Codepoint { codepoint: 0x13011, name: "EGYPTIAN HIEROGLYPH A014A", aliases: &[] },
        Codepoint { codepoint: 0x13012, name: "EGYPTIAN HIEROGLYPH A015", aliases: &[] },
        Codepoint { codepoint: 0x13013, name: "EGYPTIAN HIEROGLYPH A016", aliases: &[] },
        Codepoint { codepoint: 0x13014, name: "EGYPTIAN HIEROGLYPH A017", aliases: &[] },
        Codepoint { codepoint: 0x13015, name: "EGYPTIAN HIEROGLYPH A017A", aliases: &[] },
        Codepoint { codepoint: 0x13016, name: "EGYPTIAN HIEROGLYPH A018", aliases: &[] },
        Codepoint { codepoint: 0x13017, name: "EGYPTIAN HIEROGLYPH A019", aliases: &[] },
        Codepoint { codepoint: 0x13018, name: "EGYPTIAN HIEROGLYPH A020", aliases: &[] },
        Codepoint { codepoint: 0x13019, name: "EGYPTIAN HIEROGLYPH A021", aliases: &[] },
        Codepoint { codepoint: 0x1301A, name: "EGYPTIAN HIEROGLYPH A022", aliases: &[] },
        Codepoint { codepoint: 0x1301B, name: "EGYPTIAN HIEROGLYPH A023", aliases: &[] },
        Codepoint { codepoint: 0x1301C, name: "EGYPTIAN HIEROGLYPH A024", aliases: &[] },
    ];
    assert(v@ =~= codepoint_table_574());
    v
}

pub open spec fn codepoint_table_575() -> Seq<Codepoint> {
    seq![
        Codepoint { codepoint: 0x1301D, name: "EGYPTIAN HIEROGLYPH A025", aliases: &[] },
        Codepoint { codepoint: 0x1301E, name: "EGYPTIAN HIEROGLYPH A026", aliases: &[] },
        Codepoint { codepoint: 0x1301F, name: "EGYPTIAN HIEROGLYPH A027", aliases: &[] },
        Codepoint { codepoint: 0x13020, name: "EGYPTIAN HIEROGLYPH A028", aliases: &[] },
        Codepoint { codepoint: 0x13021, name: "EGYPTIAN HIEROGLYPH A029", aliases: &[] },
        Codepoint { codepoint: 0x13022, name: "EGYPTIAN HIEROGLYPH A030", aliases: &[] },
        Codepoint { codepoint: 0x13023, name: "EGYPTIAN HIEROGLYPH A031", aliases: &[] },
        Codepoint { codepoint: 0x13024, name: "EGYPTIAN HIEROGLYPH A032", aliases: &[] },
        Codepoint { codepoint: 0x13025, name: "EGYPTIAN HIEROGLYPH A032A", aliases: &[] },
        Codepoint { codepoint: 0x13026, name: "EGYPTIAN HIEROGLYPH A033", aliases: &[] },
        Codepoint { codepoint: 0x13027, name: "EGYPTIAN HIEROGLYPH A034", aliases: &[] },
        Codepoint { codepoint: 0x13028, name: "EGYPTIAN HIEROGLYPH A035", aliases: &[] },
        Codepoint { codepoint: 0x13029, name: "EGYPTIAN HIEROGLYPH A036", aliases: &[] },
        Codepoint { codepoint: 0x1302A, name: "EGYPTIAN HIEROGLYPH A037", aliases: &[] },
        Codepoint { codepoint: 0x1302B, name: "EGYPTIAN HIEROGLYPH A038", aliases: &[] },
        Codepoint { codepoint: 0x1302C, name: "EGYPTIAN HIEROGLYPH A039", aliases: &[] },
        Codepoint { codepoint: 0x1302D, name: "EGYPTIAN HIEROGLYPH A040", aliases: &[] },
        Codepoint { codepoint: 0x1302E, name: "EGYPTIAN HIEROGLYPH A040A", aliases: &[] },
        Codepoint { codepoint: 0x1302F, name: "EGYPTIAN HIEROGLYPH A041", aliases: &[] },
        Codepoint { codepoint: 0x13030, name: "EGYPTIAN HIEROGLYPH A042", aliases: &[] },
        Codepoint { codepoint: 0x13031, name: "EGYPTIAN HIEROGLYPH A042A", aliases: &[] },
        Codepoint { codepoint: 0x13032, name: "EGYPTIAN HIEROGLYPH A043", aliases: &[] },
        Codepoint { codepoint: 0x13033, name: "EGYPTIAN HIEROGLYPH A043A", aliases: &[] },
        Codepoint { codepoint: 0x13034, name: "EGYPTIAN HIEROGLYPH A044", aliases: &[] },
        Codepoint { codepoint: 0x13035, name: "EGYPTIAN HIEROGLYPH A045", aliases: &[] },
        Codepoint { codepoint: 0x13036, name: "EGYPTIAN HIEROGLYPH A045A", aliases: &[] },
        Codepoint { codepoint: 0x13037, name: "EGYPTIAN HIEROGLYPH A046", aliases: &[] },
        Codepoint { codepoint: 0x13038, name: "EGYPTIAN HIEROGLYPH A047", aliases: &[] },
        Codepoint { codepoint: 0x13039, name: "EGYPTIAN HIEROGLYPH A048", aliases: &[] },
        Codepoint { codepoint: 0x1303A, name: "EGYPTIAN HIEROGLYPH A049", aliases: &[] },
        Codepoint { codepoint: 0x1303B, name: "EGYPTIAN HIEROGLYPH A050", aliases: &[] },
        Codepoint { codepoint: 0x1303C, name: "EGYPTIAN HIEROGLYPH A051", aliases: &[] },
        Codepoint { codepoint: 0x1303D, name: "EGYPTIAN HIEROGLYPH A052", aliases: &[] },
        Codepoint { codepoint: 0x1303E, name: "EGYPTIAN HIEROGLYPH A053", aliases: &[] },
        Codepoint { codepoint: 0x1303F, name: "EGYPTIAN HIEROGLYPH A054", aliases: &[] },
        Codepoint { codepoint: 0x13040, name: "EGYPTIAN HIEROGLYPH A055", aliases: &[] },
        Codepoint { codepoint: 0x13041, name: "EGYPTIAN HIEROGLYPH A056", aliases: &[] },
        Codepoint { codepoint: 0x13042, name: "EGYPTIAN HIEROGLYPH A057", aliases: &[] },
        Codepoint { codepoint: 0x13043, name: "EGYPTIAN HIEROGLYPH A058", aliases: &[] },
        Codepoint { codepoint: 0x13044, name: "EGYPTIAN HIEROGLYPH A059", aliases: &[] },
    ]
}

fn all_codepoints_575() -> (v: Vec<Codepoint>)
    ensures
        v@ == codepoint_table_575(),
{
    let v = vec![
        Codepoint { codepoint: 0x1301D, name: "EGYPTIAN HIEROGLYPH A025", aliases: &[] },
        Codepoint { codepoint: 0x1301E, name: "EGYPTIAN HIEROGLYPH A026", aliases: &[] },
        Codepoint { codepoint: 0x1301F, name: "EGYPTIAN HIEROGLYPH A027", aliases: &[] },
        Codepoint { codepoint: 0x13020, name: "EGYPTIAN HIEROGLYPH A028", aliases: &[] },
        Codepoint { codepoint: 0x13021, name: "EGYPTIAN HIEROGLYPH A029", aliases: &[] },
        Codepoint { codepoint: 0x13022, name: "EGYPTIAN HIEROGLYPH A030", aliases: &[] },
        Codepoint { codepoint: 0x13023, name: "EGYPTIAN HIEROGLYPH A031", aliases: &[] },
        Codepoint { codepoint: 0x13024, name: "EGYPTIAN HIEROGLYPH A032", aliases: &[] },
        Codepoint { codepoint: 0x13025, name: "EGYPTIAN HIEROGLYPH A032A", aliases: &[] },
        Codepoint { codepoint: 0x13026, name: "EGYPTIAN HIEROGLYPH A033", aliases: &[] },
        Codepoint { codepoint: 0x13027, name: "EGYPTIAN HIEROGLYPH A034", aliases: &[] },
        Codepoint { codepoint: 0x13028, name: "EGYPTIAN HIEROGLYPH A035", aliases: &[] },
        Codepoint { codepoint: 0x13029, name: "EGYPTIAN HIEROGLYPH A036", aliases: &[] },
        Codepoint { codepoint: 0x1302A, name: "EGYPTIAN HIEROGLYPH A037", aliases: &[] },
        Codepoint { codepoint: 0x1302B, name: "EGYPTIAN HIEROGLYPH A038", aliases: &[] },
        Codepoint { codepoint: 0x1302C, name: "EGYPTIAN HIEROGLYPH A039", aliases: &[] },
        Codepoint { codepoint: 0x1302D, name: "EGYPTIAN HIEROGLYPH A040", aliases: &[] },
        Codepoint { codepoint: 0x1302E, name: "EGYPTIAN HIEROGLYPH A040A", aliases: &[] },
        Codepoint { codepoint: 0x1302F, name: "EGYPTIAN HIEROGLYPH A041", aliases: &[] },
        Codepoint { codepoint: 0x13030, name: "EGYPTIAN HIEROGLYPH A042", aliases: &[] },
        Codepoint { codepoint: 0x13031, name: "EGYPTIAN HIEROGLYPH A042A", aliases: &[] },
        Codepoint { codepoint: 0x13032, name: "EGYPTIAN HIEROGLYPH A043", aliases: &[] },
        Codepoint { codepoint: 0x13033, name: "EGYPTIAN HIEROGLYPH A043A", aliases: &[] },
        Codepoint { codepoint: 0x13034, name: "EGYPTIAN HIEROGLYPH A044", aliases: &[] },
        Codepoint { codepoint: 0x13035, name: "EGYPTIAN HIEROGLYPH A045", aliases: &[] },
        Codepoint { codepoint: 0x13036, name: "EGYPTIAN HIEROGLYPH A045A", aliases: &[] },
        Codepoint { codepoint: 0x13037, name: "EGYPTIAN HIEROGLYPH A046", aliases: &[] },
        Codepoint { codepoint: 0x13038, name: "EGYPTIAN HIEROGLYPH A047", aliases: &[] },
        Codepoint { codepoint: 0x13039, name: "EGYPTIAN HIEROGLYPH A048", aliases: &[] },
        Codepoint { codepoint: 0x1303A, name: "EGYPTIAN HIEROGLYPH A049", aliases: &[] },
        Codepoint { codepoint: 0x1303B, name: "EGYPTIAN HIEROGLYPH A050", aliases: &[] },
        Codepoint { codepoint: 0x1303C, name: "EGYPTIAN HIEROGLYPH A051", aliases: &[] },
        Codepoint { codepoint: 0x1303D, name: "EGYPTIAN HIEROGLYPH A052", aliases: &[] },
        Codepoint { codepoint: 0x1303E, name: "EGYPTIAN HIEROGLYPH A053", aliases: &[] },
        Codepoint { codepoint: 0x1303F, name: "EGYPTIAN HIEROGLYPH A054", aliases: &[] },
        Codepoint { codepoint: 0x13040, name: "EGYPTIAN HIEROGLYPH A055", aliases: &[] },
        Codepoint { codepoint: 0x13041, name: "EGYPTIAN HIEROGLYPH A056", aliases: &[] },
        Codepoint { codepoint: 0x13042, name: "EGYPTIAN HIEROGLYPH A057", aliases: &[] },
        Codepoint { codepoint: 0x13043, name: "EGYPTIAN HIEROGLYPH A058", aliases: &[] },
        Codepoint { codepoint: 0x13044, name: "EGYPTIAN HIEROGLYPH A059", aliases: &[] },
    ];
    assert(v@ =~= codepoint_table_575());
    v
}

pub open spec fn codepoint_table_576() -> Seq<Codepoint> {
    seq![
        Codepoint { codepoint: 0x13045, name: "EGYPTIAN HIEROGLYPH A060", aliases: &[] },
        Codepoint { codepoint: 0x13046, name: "EGYPTIAN HIEROGLYPH A061", aliases: &[] },
        Codepoint { codepoint: 0x13047, name: "EGYPTIAN HIEROGLYPH A062", aliases: &[] },
        Codepoint { codepoint: 0x13048, name: "EGYPTIAN HIEROGLYPH A063", aliases: &[] },
        Codepoint { codepoint: 0x13049, name: "EGYPTIAN HIEROGLYPH A064", aliases: &[] },
        Codepoint { codepoint: 0x1304A, name: "EGYPTIAN HIEROGLYPH A065", aliases: &[] },
        Codepoint { codepoint: 0x1304B, name: "EGYPTIAN HIEROGLYPH A066", aliases: &[] },
        Codepoint { codepoint: 0x1304C, name: "EGYPTIAN HIEROGLYPH A067", aliases: &[] },
        Codepoint { codepoint: 0x1304D, name: "EGYPTIAN HIEROGLYPH A068", aliases: &[] },
        Codepoint { codepoint: 0x1304E, name: "EGYPTIAN HIEROGLYPH A069", aliases: &[] },
        Codepoint { codepoint: 0x1304F, name: "EGYPTIAN HIEROGLYPH A070", aliases: &[] },
        Codepoint { codepoint: 0x13050, name: "EGYPTIAN HIEROGLYPH B001", aliases: &[] },
        Codepoint { codepoint: 0x13051, name: "EGYPTIAN HIEROGLYPH B002", aliases: &[] },
        Codepoint { codepoint: 0x13052, name: "EGYPTIAN HIEROGLYPH B003", aliases: &[] },
        Codepoint { codepoint: 0x13053, name: "EGYPTIAN HIEROGLYPH B004", aliases: &[] },
        Codepoint { codepoint: 0x13054, name: "EGYPTIAN HIEROGLYPH B005", aliases: &[] },
        Codepoint { codepoint: 0x13055, name: "EGYPTIAN HIEROGLYPH B005A", aliases: &[] },
        Codepoint { codepoint: 0x13056, name: "EGYPTIAN HIEROGLYPH B006", aliases: &[] },
        Codepoint { codepoint: 0x13057, name: "EGYPTIAN HIEROGLYPH B007", aliases: &[] },
        Codepoint { codepoint: 0x13058, name: "EGYPTIAN HIEROGLYPH B008", aliases: &[] },
        Codepoint { codepoint: 0x13059, name: "EGYPTIAN HIEROGLYPH B009", aliases: &[] },
        Codepoint { codepoint: 0x1305A, name: "EGYPTIAN HIEROGLYPH C001", aliases: &[] },
        Codepoint { codepoint: 0x1305B, name: "EGYPTIAN HIEROGLYPH C002", aliases: &[] },
        Codepoint { codepoint: 0x1305C, name: "EGYPTIAN HIEROGLYPH C002A", aliases: &[] },
        Codepoint { codepoint: 0x1305D, name: "EGYPTIAN HIEROGLYPH C002B", aliases: &[] },
        Codepoint { codepoint: 0x1305E, name: "EGYPTIAN HIEROGLYPH C002C", aliases: &[] },
        Codepoint { codepoint: 0x1305F, name: "EGYPTIAN HIEROGLYPH C003", aliases: &[] },
        Codepoint { codepoint: 0x13060, name: "EGYPTIAN HIEROGLYPH C004", aliases: &[] },
        Codepoint { codepoint: 0x13061, name: "EGYPTIAN HIEROGLYPH C005", aliases: &[] },
        Codepoint { codepoint: 0x13062, name: "EGYPTIAN HIEROGLYPH C006", aliases: &[] },
        Codepoint { codepoint: 0x13063, name: "EGYPTIAN HIEROGLYPH C007", aliases: &[] },
        Codepoint { codepoint: 0x13064, name: "EGYPTIAN HIEROGLYPH C008", aliases: &[] },
        Codepoint { codepoint: 0x13065, name: "EGYPTIAN HIEROGLYPH C009", aliases: &[] },
        Codepoint { codepoint: 0x13066, name: "EGYPTIAN HIEROGLYPH C010", aliases: &[] },
        Codepoint { codepoint: 0x13067, name: "EGYPTIAN HIEROGLYPH C010A", aliases: &[] },
        Codepoint { codepoint: 0x13068, name: "EGYPTIAN HIEROGLYPH C011", aliases: &[] },
        Codepoint { codepoint: 0x13069, name: "EGYPTIAN HIEROGLYPH C012", aliases: &[] },
        Codepoint { codepoint: 0x1306A, name: "EGYPTIAN HIEROGLYPH C013", aliases: &[] },
        Codepoint { codepoint: 0x1306B, name: "EGYPTIAN HIEROGLYPH C014", aliases: &[] },
        Codepoint { codepoint: 0x1306C, name: "EGYPTIAN HIEROGLYPH C015", aliases: &[] },
    ]
}

fn all_codepoints_576() -> (v: Vec<Codepoint>)
    ensures
        v@ == codepoint_table_576(),
{
    let v = vec![
        Codepoint { codepoint: 0x13045, name: "EGYPTIAN HIEROGLYPH A060", aliases: &[] },
        Codepoint { codepoint: 0x13046, name: "EGYPTIAN HIEROGLYPH A061", aliases: &[] },
        Codepoint { codepoint: 0x13047, name: "EGYPTIAN HIEROGLYPH A062", aliases: &[] },
        Codepoint { codepoint: 0x13048, name: "EGYPTIAN HIEROGLYPH A063", aliases: &[] },
        Codepoint { codepoint: 0x13049, name: "EGYPTIAN HIEROGLYPH A064", aliases: &[] },
        Codepoint { codepoint: 0x1304A, name: "EGYPTIAN HIEROGLYPH A065", aliases: &[] },
        Codepoint { codepoint: 0x1304B, name: "EGYPTIAN HIEROGLYPH A066", aliases: &[] },
        Codepoint { codepoint: 0x1304C, name: "EGYPTIAN HIEROGLYPH A067", aliases: &[] },
        Codepoint { codepoint: 0x1304D, name: "EGYPTIAN HIEROGLYPH A068", aliases: &[] },
        Codepoint { codepoint: 0x1304E, name: "EGYPTIAN HIEROGLYPH A069", aliases: &[] },
        Codepoint { codepoint: 0x1304F, name: "EGYPTIAN HIEROGLYPH A070", aliases: &[] },
        Codepoint { codepoint: 0x13050, name: "EGYPTIAN HIEROGLYPH B001", aliases: &[] },
        Codepoint { codepoint: 0x13051, name: "EGYPTIAN HIEROGLYPH B002", aliases: &[] },
        Codepoint { codepoint: 0x13052, name: "EGYPTIAN HIEROGLYPH B003", aliases: &[] },
        Codepoint { codepoint: 0x13053, name: "EGYPTIAN HIEROGLYPH B004", aliases: &[] },
        Codepoint { codepoint: 0x13054, name: "EGYPTIAN HIEROGLYPH B005", aliases: &[] },
        Codepoint { codepoint: 0x13055, name: "EGYPTIAN HIEROGLYPH B005A", aliases: &[] },
        Codepoint { codepoint: 0x13056, name: "EGYPTIAN HIEROGLYPH B006", aliases: &[] },
        Codepoint { codepoint: 0x13057, name: "EGYPTIAN HIEROGLYPH B007", aliases: &[] },
        Codepoint { codepoint: 0x13058, name: "EGYPTIAN HIEROGLYPH B008", aliases: &[] },
        Codepoint { codepoint: 0x13059, name: "EGYPTIAN HIEROGLYPH B009", aliases: &[] },
        Codepoint { codepoint: 0x1305A, name: "EGYPTIAN HIEROGLYPH C001", aliases: &[] },
        Codepoint { codepoint: 0x1305B, name: "EGYPTIAN HIEROGLYPH C002", aliases: &[] },
        Codepoint { codepoint: 0x1305C, name: "EGYPTIAN HIEROGLYPH C002A", aliases: &[] },
        Codepoint { codepoint: 0x1305D, name: "EGYPTIAN HIEROGLYPH C002B", aliases: &[] },
        Codepoint { codepoint: 0x1305E, name: "EGYPTIAN HIEROGLYPH C002C", aliases: &[] },
        Codepoint { codepoint: 0x1305F, name: "EGYPTIAN HIEROGLYPH C003", aliases: &[] },
        Codepoint { codepoint: 0x13060, name: "EGYPTIAN HIEROGLYPH C004", aliases: &[] },
        Codepoint { codepoint: 0x13061, name: "EGYPTIAN HIEROGLYPH C005", aliases: &[] },
        Codepoint { codepoint: 0x13062, name: "EGYPTIAN HIEROGLYPH C006", aliases: &[] },
        Codepoint { codepoint: 0x13063, name: "EGYPTIAN HIEROGLYPH C007", aliases: &[] },
        Codepoint { codepoint: 0x13064, name: "EGYPTIAN HIEROGLYPH C008", aliases: &[] },
        Codepoint { codepoint: 0x13065, name: "EGYPTIAN HIEROGLYPH C009", aliases: &[] },
        Codepoint { codepoint: 0x13066, name: "EGYPTIAN HIEROGLYPH C010", aliases: &[] },
        Codepoint { codepoint: 0x13067, name: "EGYPTIAN HIEROGLYPH C010A", aliases: &[] },
        Codepoint { codepoint: 0x13068, name: "EGYPTIAN HIEROGLYPH C011", aliases: &[] },
        Codepoint { codepoint: 0x13069, name: "EGYPTIAN HIEROGLYPH C012", aliases: &[] },
        Codepoint { codepoint: 0x1306A, name: "EGYPTIAN HIEROGLYPH C013", aliases: &[] },
        Codepoint { codepoint: 0x1306B, name: "EGYPTIAN HIEROGLYPH C014", aliases: &[] },
        Codepoint { codepoint: 0x1306C, name: "EGYPTIAN HIEROGLYPH C015", aliases: &[] },
    ];
    assert(v@ =~= codepoint_table_576());
    v
}

pub open spec fn codepoint_table_577() -> Seq<Codepoint> {
    seq![
        Codepoint { codepoint: 0x1306D, name: "EGYPTIAN HIEROGLYPH C016", aliases: &[] },
        Codepoint { codepoint: 0x1306E, name: "EGYPTIAN HIEROGLYPH C017", aliases: &[] },
        Codepoint { codepoint: 0x1306F, name: "EGYPTIAN HIEROGLYPH C018", aliases: &[] },
        Codepoint { codepoint: 0x13070, name: "EGYPTIAN HIEROGLYPH C019", aliases: &[] },
        Codepoint { codepoint: 0x13071, name: "EGYPTIAN HIEROGLYPH C020", aliases: &[] },
        Codepoint { codepoint: 0x13072, name: "EGYPTIAN HIEROGLYPH C021", aliases: &[] },
        Codepoint { codepoint: 0x13073, name: "EGYPTIAN HIEROGLYPH C022", aliases: &[] },
        Codepoint { codepoint: 0x13074, name: "EGYPTIAN HIEROGLYPH C023", aliases: &[] },
        Codepoint { codepoint: 0x13075, name: "EGYPTIAN HIEROGLYPH C024", aliases: &[] },
        Codepoint { codepoint: 0x13076, name: "EGYPTIAN HIEROGLYPH D001", aliases: &[] },
        Codepoint { codepoint: 0x13077, name: "EGYPTIAN HIEROGLYPH D002", aliases: &[] },
        Codepoint { codepoint: 0x13078, name: "EGYPTIAN HIEROGLYPH D003", aliases: &[] },
        Codepoint { codepoint: 0x13079, name: "EGYPTIAN HIEROGLYPH D004", aliases: &[] },
        Codepoint { codepoint: 0x1307A, name: "EGYPTIAN HIEROGLYPH D005", aliases: &[] },
        Codepoint { codepoint: 0x1307B, name: "EGYPTIAN HIEROGLYPH D006", aliases: &[] },
        Codepoint { codepoint: 0x1307C, name: "EGYPTIAN HIEROGLYPH D007", aliases: &[] },
        Codepoint { codepoint: 0x1307D, name: "EGYPTIAN HIEROGLYPH D008", aliases: &[] },
        Codepoint { codepoint: 0x1307E, name: "EGYPTIAN HIEROGLYPH D008A", aliases: &[] },
        Codepoint { codepoint: 0x1307F, name: "EGYPTIAN HIEROGLYPH D009", aliases: &[] },
        Codepoint { codepoint: 0x13080, name: "EGYPTIAN HIEROGLYPH D010", aliases: &[] },
        Codepoint { codepoint: 0x13081, name: "EGYPTIAN HIEROGLYPH D011", aliases: &[] },
        Codepoint { codepoint: 0x13082, name: "EGYPTIAN HIEROGLYPH D012", aliases: &[] },
        Codepoint { codepoint: 0x13083, name: "EGYPTIAN HIEROGLYPH D013", aliases: &[] },
        Codepoint { codepoint: 0x13084, name: "EGYPTIAN HIEROGLYPH D014", aliases: &[] },
        Codepoint { codepoint: 0x13085, name: "EGYPTIAN HIEROGLYPH D015", aliases: &[] },
        Codepoint { codepoint: 0x13086, name: "EGYPTIAN HIEROGLYPH D016", aliases: &[] },
        Codepoint { codepoint: 0x13087, name: "EGYPTIAN HIEROGLYPH D017", aliases: &[] },
        Codepoint { codepoint: 0x13088, name: "EGYPTIAN HIEROGLYPH D018", aliases: &[] },
        Codepoint { codepoint: 0x13089, name: "EGYPTIAN HIEROGLYPH D019", aliases: &[] },
        Codepoint { codepoint: 0x1308A, name: "EGYPTIAN HIEROGLYPH D020", aliases: &[] },
        Codepoint { codepoint: 0x1308B, name: "EGYPTIAN HIEROGLYPH D021", aliases: &[] },
        Codepoint { codepoint: 0x1308C, name: "EGYPTIAN HIEROGLYPH D022", aliases: &[] },
        Codepoint { codepoint: 0x1308D, name: "EGYPTIAN HIEROGLYPH D023", aliases: &[] },
        Codepoint { codepoint: 0x1308E, name: "EGYPTIAN HIEROGLYPH D024", aliases: &[] },
        Codepoint { codepoint: 0x1308F, name: "EGYPTIAN HIEROGLYPH D025", aliases: &[] },
        Codepoint { codepoint: 0x13090, name: "EGYPTIAN HIEROGLYPH D026", aliases: &[] },
        Codepoint { codepoint: 0x13091, name: "EGYPTIAN HIEROGLYPH D027", aliases: &[] },
        Codepoint { codepoint: 0x13092, name: "EGYPTIAN HIEROGLYPH D027A", aliases: &[] },
        Codepoint { codepoint: 0x13093, name: "EGYPTIAN HIEROGLYPH D028", aliases: &[] },
        Codepoint { codepoint: 0x13094, name: "EGYPTIAN HIEROGLYPH D029", aliases: &[] },
    ]
}

fn all_codepoints_577() -> (v: Vec<Codepoint>)
    ensures
        v@ == codepoint_table_577(),
{
    let v = vec![
        Codepoint { codepoint: 0x1306D, name: "EGYPTIAN HIEROGLYPH C016", aliases: &[] },
        Codepoint { codepoint: 0x1306E, name: "EGYPTIAN HIEROGLYPH C017", aliases: &[] },
        Codepoint { codepoint: 0x1306F, name: "EGYPTIAN HIEROGLYPH C018", aliases: &[] },
        Codepoint { codepoint: 0x13070, name: "EGYPTIAN HIEROGLYPH C019", aliases: &[] },
        Codepoint { codepoint: 0x13071, name: "EGYPTIAN HIEROGLYPH C020", aliases: &[] },
        Codepoint { codepoint: 0x13072, name: "EGYPTIAN HIEROGLYPH C021", aliases: &[] },
        Codepoint { codepoint: 0x13073, name: "EGYPTIAN HIEROGLYPH C022", aliases: &[] },
        Codepoint { codepoint: 0x13074, name: "EGYPTIAN HIEROGLYPH C023", aliases: &[] },
        Codepoint { codepoint: 0x13075, name: "EGYPTIAN HIEROGLYPH C024", aliases: &[] },
        Codepoint { codepoint: 0x13076, name: "EGYPTIAN HIEROGLYPH D001", aliases: &[] },
        Codepoint { codepoint: 0x13077, name: "EGYPTIAN HIEROGLYPH D002", aliases: &[] },
        Codepoint { codepoint: 0x13078, name: "EGYPTIAN HIEROGLYPH D003", aliases: &[] },
        Codepoint { codepoint: 0x13079, name: "EGYPTIAN HIEROGLYPH D004", aliases: &[] },
        Codepoint { codepoint: 0x1307A, name: "EGYPTIAN HIEROGLYPH D005", aliases: &[] },
        Codepoint { codepoint: 0x1307B, name: "EGYPTIAN HIEROGLYPH D006", aliases: &[] },
        Codepoint { codepoint: 0x1307C, name: "EGYPTIAN HIEROGLYPH D007", aliases: &[] },
        Codepoint { codepoint: 0x1307D, name: "EGYPTIAN HIEROGLYPH D008", aliases: &[] },
        Codepoint { codepoint: 0x1307E, name: "EGYPTIAN HIEROGLYPH D008A", aliases: &[] },
        Codepoint { codepoint: 0x1307F, name: "EGYPTIAN HIEROGLYPH D009", aliases: &[] },
        Codepoint { codepoint: 0x13080, name: "EGYPTIAN HIEROGLYPH D010", aliases: &[] },
        Codepoint { codepoint: 0x13081, name: "EGYPTIAN HIEROGLYPH D011", aliases: &[] },
        Codepoint { codepoint: 0x13082, name: "EGYPTIAN HIEROGLYPH D012", aliases: &[] },
        Codepoint { codepoint: 0x13083, name: "EGYPTIAN HIEROGLYPH D013", aliases: &[] },
        Codepoint { codepoint: 0x13084, name: "EGYPTIAN HIEROGLYPH D014", aliases: &[] },
        Codepoint { codepoint: 0x13085, name: "EGYPTIAN HIEROGLYPH D015", aliases: &[] },
        Codepoint { codepoint: 0x13086, name: "EGYPTIAN HIEROGLYPH D016", aliases: &[] },
        Codepoint { codepoint: 0x13087, name: "EGYPTIAN HIEROGLYPH D017", aliases: &[] },
        Codepoint { codepoint: 0x13088, name: "EGYPTIAN HIEROGLYPH D018", aliases: &[] },
        Codepoint { codepoint: 0x13089, name: "EGYPTIAN HIEROGLYPH D019", aliases: &[] },
        Codepoint { codepoint: 0x1308A, name: "EGYPTIAN HIEROGLYPH D020", aliases: &[] },
        Codepoint { codepoint: 0x1308B, name: "EGYPTIAN HIEROGLYPH D021", aliases: &[] },
        Codepoint { codepoint: 0x1308C, name: "EGYPTIAN HIEROGLYPH D022", aliases: &[] },
        Codepoint { codepoint: 0x1308D, name: "EGYPTIAN HIEROGLYPH D023", aliases: &[] },
        Codepoint { codepoint: 0x1308E, name: "EGYPTIAN HIEROGLYPH D024", aliases: &[] },
        Codepoint { codepoint: 0x1308F, name: "EGYPTIAN HIEROGLYPH D025", aliases: &[] },
        Codepoint { codepoint: 0x13090, name: "EGYPTIAN HIEROGLYPH D026", aliases: &[] },
        Codepoint { codepoint: 0x13091, name: "EGYPTIAN HIEROGLYPH D027", aliases: &[] },
        Codepoint { codepoint: 0x13092, name: "EGYPTIAN HIEROGLYPH D027A", aliases: &[] },
        Codepoint { codepoint: 0x13093, name: "EGYPTIAN HIEROGLYPH D028", aliases: &[] },
        Codepoint { codepoint: 0x13094, name: "EGYPTIAN HIEROGLYPH D029", aliases: &[] },
    ];
    assert(v@ =~= codepoint_table_577());
    v
}

pub open spec fn codepoint_table_578() -> Seq<Codepoint> {
    seq![
        Codepoint { codepoint: 0x13095, name: "EGYPTIAN HIEROGLYPH D030", aliases: &[] },
        Codepoint { codepoint: 0x13096, name: "EGYPTIAN HIEROGLYPH D031", aliases: &[] },
        Codepoint { codepoint: 0x13097, name: "EGYPTIAN HIEROGLYPH D031A", aliases: &[] },
        Codepoint { codepoint: 0x13098, name: "EGYPTIAN HIEROGLYPH D032", aliases: &[] },
        Codepoint { codepoint: 0x13099, name: "EGYPTIAN HIEROGLYPH D033", aliases: &[] },
        Codepoint { codepoint: 0x1309A, name: "EGYPTIAN HIEROGLYPH D034", aliases: &[] },
        Codepoint { codepoint: 0x1309B, name: "EGYPTIAN HIEROGLYPH D034A", aliases: &[] },
        Codepoint { codepoint: 0x1309C, name: "EGYPTIAN HIEROGLYPH D035", aliases: &[] },
        Codepoint { codepoint: 0x1309D, name: "EGYPTIAN HIEROGLYPH D036", aliases: &[] },
        Codepoint { codepoint: 0x1309E, name: "EGYPTIAN HIEROGLYPH D037", aliases: &[] },
        Codepoint { codepoint: 0x1309F, name: "EGYPTIAN HIEROGLYPH D038", aliases: &[] },
        Codepoint { codepoint: 0x130A0, name: "EGYPTIAN HIEROGLYPH D039", aliases: &[] },
        Codepoint { codepoint: 0x130A1, name: "EGYPTIAN HIEROGLYPH D040", aliases: &[] },
        Codepoint { codepoint: 0x130A2, name: "EGYPTIAN HIEROGLYPH D041", aliases: &[] },
        Codepoint { codepoint: 0x130A3, name: "EGYPTIAN HIEROGLYPH D042", aliases: &[] },
        Codepoint { codepoint: 0x130A4, name: "EGYPTIAN HIEROGLYPH D043", aliases: &[] },
        Codepoint { codepoint: 0x130A5, name: "EGYPTIAN HIEROGLYPH D044", aliases: &[] },
        Codepoint { codepoint: 0x130A6, name: "EGYPTIAN HIEROGLYPH D045", aliases: &[] },
        Codepoint { codepoint: 0x130A7, name: "EGYPTIAN HIEROGLYPH D046", aliases: &[] },
        Codepoint { codepoint: 0x130A8, name: "EGYPTIAN HIEROGLYPH D046A", aliases: &[] },
        Codepoint { codepoint: 0x130A9, name: "EGYPTIAN HIEROGLYPH D047", aliases: &[] },
        Codepoint { codepoint: 0x130AA, name: "EGYPTIAN HIEROGLYPH D048", aliases: &[] },
        Codepoint { codepoint: 0x130AB, name: "EGYPTIAN HIEROGLYPH D048A", aliases: &[] },
        Codepoint { codepoint: 0x130AC, name: "EGYPTIAN HIEROGLYPH D049", aliases: &[] },
        Codepoint { codepoint: 0x130AD, name: "EGYPTIAN HIEROGLYPH D050", aliases: &[] },
        Codepoint { codepoint: 0x130AE, name: "EGYPTIAN HIEROGLYPH D050A", aliases: &[] },
        Codepoint { codepoint: 0x130AF, name: "EGYPTIAN HIEROGLYPH D050B", aliases: &[] },
        Codepoint { codepoint: 0x130B0, name: "EGYPTIAN HIEROGLYPH D050C", aliases: &[] },
        Codepoint { codepoint: 0x130B1, name: "EGYPTIAN HIEROGLYPH D050D", aliases: &[] },
        Codepoint { codepoint: 0x130B2, name: "EGYPTIAN HIEROGLYPH D050E", aliases: &[] },
        Codepoint { codepoint: 0x130B3, name: "EGYPTIAN HIEROGLYPH D050F", aliases: &[] },
        Codepoint { codepoint: 0x130B4, name: "EGYPTIAN HIEROGLYPH D050G", aliases: &[] },
        Codepoint { codepoint: 0x130B5, name: "EGYPTIAN HIEROGLYPH D050H", aliases: &[] },
        Codepoint { codepoint: 0x130B6, name: "EGYPTIAN HIEROGLYPH D050I", aliases: &[] },
        Codepoint { codepoint: 0x130B7, name: "EGYPTIAN HIEROGLYPH D051", aliases: &[] },
        Codepoint { codepoint: 0x130B8, name: "EGYPTIAN HIEROGLYPH D052", aliases: &[] },
        Codepoint { codepoint: 0x130B9, name: "EGYPTIAN HIEROGLYPH D052A", aliases: &[] },
        Codepoint { codepoint: 0x130BA, name: "EGYPTIAN HIEROGLYPH D053", aliases: &[] },
        Codepoint { codepoint: 0x130BB, name: "EGYPTIAN HIEROGLYPH D054", aliases: &[] },
        Codepoint { codepoint: 0x130BC, name: "EGYPTIAN HIEROGLYPH D054A", aliases: &[] },
    ]
}

fn all_codepoints_578() -> (v: Vec<Codepoint>)
    ensures
        v@ == codepoint_table_578(),
{
    let v = vec![
        Codepoint { codepoint: 0x13095, name: "EGYPTIAN HIEROGLYPH D030", aliases: &[] },
        Codepoint { codepoint: 0x13096, name: "EGYPTIAN HIEROGLYPH D031", aliases: &[] },
        Codepoint { codepoint: 0x13097, name: "EGYPTIAN HIEROGLYPH D031A", aliases: &[] },
        Codepoint { codepoint: 0x13098, name: "EGYPTIAN HIEROGLYPH D032", aliases: &[] },
        Codepoint { codepoint: 0x13099, name: "EGYPTIAN HIEROGLYPH D033", aliases: &[] },
        Codepoint { codepoint: 0x1309A, name: "EGYPTIAN HIEROGLYPH D034", aliases: &[] },
        Codepoint { codepoint: 0x1309B, name: "EGYPTIAN HIEROGLYPH D034A", aliases: &[] },
        Codepoint { codepoint: 0x1309C, name: "EGYPTIAN HIEROGLYPH D035", aliases: &[] },
        Codepoint { codepoint: 0x1309D, name: "EGYPTIAN HIEROGLYPH D036", aliases: &[] },
        Codepoint { codepoint: 0x1309E, name: "EGYPTIAN HIEROGLYPH D037", aliases: &[] },
        Codepoint { codepoint: 0x1309F, name: "EGYPTIAN HIEROGLYPH D038", aliases: &[] },
        Codepoint { codepoint: 0x130A0, name: "EGYPTIAN HIEROGLYPH D039", aliases: &[] },
        Codepoint { codepoint: 0x130A1, name: "EGYPTIAN HIEROGLYPH D040", aliases: &[] },
        Codepoint { codepoint: 0x130A2, name: "EGYPTIAN HIEROGLYPH D041", aliases: &[] },
        Codepoint { codepoint: 0x130A3, name: "EGYPTIAN HIEROGLYPH D042", aliases: &[] },
        Codepoint { codepoint: 0x130A4, name: "EGYPTIAN HIEROGLYPH D043", aliases: &[] },
        Codepoint { codepoint: 0x130A5, name: "EGYPTIAN HIEROGLYPH D044", aliases: &[] },
        Codepoint { codepoint: 0x130A6, name: "EGYPTIAN HIEROGLYPH D045", aliases: &[] },
        Codepoint { codepoint: 0x130A7, name: "EGYPTIAN HIEROGLYPH D046", aliases: &[] },
        Codepoint { codepoint: 0x130A8, name: "EGYPTIAN HIEROGLYPH D046A", aliases: &[] },
        Codepoint { codepoint: 0x130A9, name: "EGYPTIAN HIEROGLYPH D047", aliases: &[] },
        Codepoint { codepoint: 0x130AA, name: "EGYPTIAN HIEROGLYPH D048", aliases: &[] },
        Codepoint { codepoint: 0x130AB, name: "EGYPTIAN HIEROGLYPH D048A", aliases: &[] },
        Codepoint { codepoint: 0x130AC, name: "EGYPTIAN HIEROGLYPH D049", aliases: &[] },
        Codepoint { codepoint: 0x130AD, name: "EGYPTIAN HIEROGLYPH D050", aliases: &[] },
        Codepoint { codepoint: 0x130AE, name: "EGYPTIAN HIEROGLYPH D050A", aliases: &[] },
        Codepoint { codepoint: 0x130AF, name: "EGYPTIAN HIEROGLYPH D050B", aliases: &[] },
        Codepoint { codepoint: 0x130B0, name: "EGYPTIAN HIEROGLYPH D050C", aliases: &[] },
        Codepoint { codepoint: 0x130B1, name: "EGYPTIAN HIEROGLYPH D050D", aliases: &[] },
        Codepoint { codepoint: 0x130B2, name: "EGYPTIAN HIEROGLYPH D050E", aliases: &[] },
        Codepoint { codepoint: 0x130B3, name: "EGYPTIAN HIEROGLYPH D050F", aliases: &[] },
        Codepoint { codepoint: 0x130B4, name: "EGYPTIAN HIEROGLYPH D050G", aliases: &[] },
        Codepoint { codepoint: 0x130B5, name: "EGYPTIAN HIEROGLYPH D050H", aliases: &[] },
        Codepoint { codepoint: 0x130B6, name: "EGYPTIAN HIEROGLYPH D050I", aliases: &[] },
        Codepoint { codepoint: 0x130B7, name: "EGYPTIAN HIEROGLYPH D051", aliases: &[] },
        Codepoint { codepoint: 0x130B8, name: "EGYPTIAN HIEROGLYPH D052", aliases: &[] },
        Codepoint { codepoint: 0x130B9, name: "EGYPTIAN HIEROGLYPH D052A", aliases: &[] },
        Codepoint { codepoint: 0x130BA, name: "EGYPTIAN HIEROGLYPH D053", aliases: &[] },
        Codepoint { codepoint: 0x130BB, name: "EGYPTIAN HIEROGLYPH D054", aliases: &[] },
        Codepoint { codepoint: 0x130BC, name: "EGYPTIAN HIEROGLYPH D054A", aliases: &[] },
    ];
    assert(v@ =~= codepoint_table_578());
    v
}

pub open spec fn codepoint_table_579() -> Seq<Codepoint> {
    seq![
        Codepoint { codepoint: 0x130BD, name: "EGYPTIAN HIEROGLYPH D055", aliases: &[] },
        Codepoint { codepoint: 0x130BE, name: "EGYPTIAN HIEROGLYPH D056", aliases: &[] },
        Codepoint { codepoint: 0x130BF, name: "EGYPTIAN HIEROGLYPH D057", aliases: &[] },
        Codepoint { codepoint: 0x130C0, name: "EGYPTIAN HIEROGLYPH D058", aliases: &[] },
        Codepoint { codepoint: 0x130C1, name: "EGYPTIAN HIEROGLYPH D059", aliases: &[] },
        Codepoint { codepoint: 0x130C2, name: "EGYPTIAN HIEROGLYPH D060", aliases: &[] },
        Codepoint { codepoint: 0x130C3, name: "EGYPTIAN HIEROGLYPH D061", aliases: &[] },
        Codepoint { codepoint: 0x130C4, name: "EGYPTIAN HIEROGLYPH D062", aliases: &[] },
        Codepoint { codepoint: 0x130C5, name: "EGYPTIAN HIEROGLYPH D063", aliases: &[] },
        Codepoint { codepoint: 0x130C6, name: "EGYPTIAN HIEROGLYPH D064", aliases: &[] },
        Codepoint { codepoint: 0x130C7, name: "EGYPTIAN HIEROGLYPH D065", aliases: &[] },
        Codepoint { codepoint: 0x130C8, name: "EGYPTIAN HIEROGLYPH D066", aliases: &[] },
        Codepoint { codepoint: 0x130C9, name: "EGYPTIAN HIEROGLYPH D067", aliases: &[] },
        Codepoint { codepoint: 0x130CA, name: "EGYPTIAN HIEROGLYPH D067A", aliases: &[] },
        Codepoint { codepoint: 0x130CB, name: "EGYPTIAN HIEROGLYPH D067B", aliases: &[] },
        Codepoint { codepoint: 0x130CC, name: "EGYPTIAN HIEROGLYPH D067C", aliases: &[] },
        Codepoint { codepoint: 0x130CD, name: "EGYPTIAN HIEROGLYPH D067D", aliases: &[] },
        Codepoint { codepoint: 0x130CE, name: "EGYPTIAN HIEROGLYPH D067E", aliases: &[] },
        Codepoint { codepoint: 0x130CF, name: "EGYPTIAN HIEROGLYPH D067F", aliases: &[] },
        Codepoint { codepoint: 0x130D0, name: "EGYPTIAN HIEROGLYPH D067G", aliases: &[] },
        Codepoint { codepoint: 0x130D1, name: "EGYPTIAN HIEROGLYPH D067H", aliases: &[] },
        Codepoint { codepoint: 0x130D2, name: "EGYPTIAN HIEROGLYPH E001", aliases: &[] },
        Codepoint { codepoint: 0x130D3, name: "EGYPTIAN HIEROGLYPH E002", aliases: &[] },
        Codepoint { codepoint: 0x130D4, name: "EGYPTIAN HIEROGLYPH E003", aliases: &[] },
        Codepoint { codepoint: 0x130D5, name: "EGYPTIAN HIEROGLYPH E004", aliases: &[] },
        Codepoint { codepoint: 0x130D6, name: "EGYPTIAN HIEROGLYPH E005", aliases: &[] },
        Codepoint { codepoint: 0x130D7, name: "EGYPTIAN HIEROGLYPH E006", aliases: &[] },
        Codepoint { codepoint: 0x130D8, name: "EGYPTIAN HIEROGLYPH E007", aliases: &[] },
        Codepoint { codepoint: 0x130D9, name: "EGYPTIAN HIEROGLYPH E008", aliases: &[] },
        Codepoint { codepoint: 0x130DA, name: "EGYPTIAN HIEROGLYPH E008A", aliases: &[] },
        Codepoint { codepoint: 0x130DB, name: "EGYPTIAN HIEROGLYPH E009", aliases: &[] },
        Codepoint { codepoint: 0x130DC, name: "EGYPTIAN HIEROGLYPH E009A", aliases: &[] },
        Codepoint { codepoint: 0x130DD, name: "EGYPTIAN HIEROGLYPH E010", aliases: &[] },
        Codepoint { codepoint: 0x130DE, name: "EGYPTIAN HIEROGLYPH E011", aliases: &[] },
        Codepoint { codepoint: 0x130DF, name: "EGYPTIAN HIEROGLYPH E012", aliases: &[] },
        Codepoint { codepoint: 0x130E0, name: "EGYPTIAN HIEROGLYPH E013", aliases: &[] },
        Codepoint { codepoint: 0x130E1, name: "EGYPTIAN HIEROGLYPH E014", aliases: &[] },
        Codepoint { codepoint: 0x130E2, name: "EGYPTIAN HIEROGLYPH E015", aliases: &[] },
        Codepoint { codepoint: 0x130E3, name: "EGYPTIAN HIEROGLYPH E016", aliases: &[] },
        Codepoint { codepoint: 0x130E4, name: "EGYPTIAN HIEROGLYPH E016A", aliases: &[] },
    ]
}

fn all_codepoints_579() -> (v: Vec<Codepoint>)
    ensures
        v@ == codepoint_table_579(),
{
    let v = vec![
        Codepoint { codepoint: 0x130BD, name: "EGYPTIAN HIEROGLYPH D055", aliases: &[] },
        Codepoint { codepoint: 0x130BE, name: "EGYPTIAN HIEROGLYPH D056", aliases: &[] },
        Codepoint { codepoint: 0x130BF, name: "EGYPTIAN HIEROGLYPH D057", aliases: &[] },
        Codepoint { codepoint: 0x130C0, name: "EGYPTIAN HIEROGLYPH D058", aliases: &[] },
        Codepoint { codepoint: 0x130C1, name: "EGYPTIAN HIEROGLYPH D059", aliases: &[] },
        Codepoint { codepoint: 0x130C2, name: "EGYPTIAN HIEROGLYPH D060", aliases: &[] },
        Codepoint { codepoint: 0x130C3, name: "EGYPTIAN HIEROGLYPH D061", aliases: &[] },
        Codepoint { codepoint: 0x130C4, name: "EGYPTIAN HIEROGLYPH D062", aliases: &[] },
        Codepoint { codepoint: 0x130C5, name: "EGYPTIAN HIEROGLYPH D063", aliases: &[] },
        Codepoint { codepoint: 0x130C6, name: "EGYPTIAN HIEROGLYPH D064", aliases: &[] },
        Codepoint { codepoint: 0x130C7, name: "EGYPTIAN HIEROGLYPH D065", aliases: &[] },
        Codepoint { codepoint: 0x130C8, name: "EGYPTIAN HIEROGLYPH D066", aliases: &[] },
        Codepoint { codepoint: 0x130C9, name: "EGYPTIAN HIEROGLYPH D067", aliases: &[] },
        Codepoint { codepoint: 0x130CA, name: "EGYPTIAN HIEROGLYPH D067A", aliases: &[] },
        Codepoint { codepoint: 0x130CB, name: "EGYPTIAN HIEROGLYPH D067B", aliases: &[] },
        Codepoint { codepoint: 0x130CC, name: "EGYPTIAN HIEROGLYPH D067C", aliases: &[] },
        Codepoint { codepoint: 0x130CD, name: "EGYPTIAN HIEROGLYPH D067D", aliases: &[] },
        Codepoint { codepoint: 0x130CE, name: "EGYPTIAN HIEROGLYPH D067E", aliases: &[] },
        Codepoint { codepoint: 0x130CF, name: "EGYPTIAN HIEROGLYPH D067F", aliases: &[] },
        Codepoint { codepoint: 0x130D0, name: "EGYPTIAN HIEROGLYPH D067G", aliases: &[] },
        Codepoint { codepoint: 0x130D1, name: "EGYPTIAN HIEROGLYPH D067H", aliases: &[] },
        Codepoint { codepoint: 0x130D2, name: "EGYPTIAN HIEROGLYPH E001", aliases: &[] },
        Codepoint { codepoint: 0x130D3, name: "EGYPTIAN HIEROGLYPH E002", aliases: &[] },
        Codepoint { codepoint: 0x130D4, name: "EGYPTIAN HIEROGLYPH E003", aliases: &[] },
        Codepoint { codepoint: 0x130D5, name: "EGYPTIAN HIEROGLYPH E004", aliases: &[] },
        Codepoint { codepoint: 0x130D6, name: "EGYPTIAN HIEROGLYPH E005", aliases: &[] },
        Codepoint { codepoint: 0x130D7, name: "EGYPTIAN HIEROGLYPH E006", aliases: &[] },
        Codepoint { codepoint: 0x130D8, name: "EGYPTIAN HIEROGLYPH E007", aliases: &[] },
        Codepoint { codepoint: 0x130D9, name: "EGYPTIAN HIEROGLYPH E008", aliases: &[] },
        Codepoint { codepoint: 0x130DA, name: "EGYPTIAN HIEROGLYPH E008A", aliases: &[] },
        Codepoint { codepoint: 0x130DB, name: "EGYPTIAN HIEROGLYPH E009", aliases: &[] },
        Codepoint { codepoint: 0x130DC, name: "EGYPTIAN HIEROGLYPH E009A", aliases: &[] },
        Codepoint { codepoint: 0x130DD, name: "EGYPTIAN HIEROGLYPH E010", aliases: &[] },
        Codepoint { codepoint: 0x130DE, name: "EGYPTIAN HIEROGLYPH E011", aliases: &[] },
        Codepoint { codepoint: 0x130DF, name: "EGYPTIAN HIEROGLYPH E012", aliases: &[] },
        Codepoint { codepoint: 0x130E0, name: "EGYPTIAN HIEROGLYPH E013", aliases: &[] },
        Codepoint { codepoint: 0x130E1, name: "EGYPTIAN HIEROGLYPH E014", aliases: &[] },
        Codepoint { codepoint: 0x130E2, name: "EGYPTIAN HIEROGLYPH E015", aliases: &[] },
        Codepoint { codepoint: 0x130E3, name: "EGYPTIAN HIEROGLYPH E016", aliases: &[] },
        Codepoint { codepoint: 0x130E4, name: "EGYPTIAN HIEROGLYPH E016A", aliases: &[] },
    ];
    assert(v@ =~= codepoint_table_579());
    v
}

/// The entries from position 22400 of the table, 800 at most.
pub open spec fn codepoint_group_28() -> Seq<Codepoint> {
    codepoint_table_560() + codepoint_table_561() + codepoint_table_562() + codepoint_table_563() + codepoint_table_564() + codepoint_table_565() + codepoint_table_566() + codepoint_table_567() + codepoint_table_568() + codepoint_table_569() + codepoint_table_570() + codepoint_table_571() + codepoint_table_572() + codepoint_table_573() + codepoint_table_574() + codepoint_table_575() + codepoint_table_576() + codepoint_table_577() + codepoint_table_578() + codepoint_table_579()
}

pub fn all_codepoints_group_28() -> (v: Vec<Codepoint>)
    ensures
        v@ == codepoint_group_28(),
{
    let mut v = all_codepoints_560();
    let mut part = all_codepoints_561();
    v.append(&mut part);
    let mut part = all_codepoints_562();
    v.append(&mut part);
    let mut part = all_codepoints_563();
    v.append(&mut part);
    let mut part = all_codepoints_564();
    v.append(&mut part);
    let mut part = all_codepoints_565();
    v.append(&mut part);
    let mut part = all_codepoints_566();
    v.append(&mut part);
    let mut part = all_codepoints_567();
    v.append(&mut part);
    let mut part = all_codepoints_568();
    v.append(&mut part);
    let mut part = all_codepoints_569();
    v.append(&mut part);
    let mut part = all_codepoints_570();
    v.append(&mut part);
    let mut part = all_codepoints_571();
    v.append(&mut part);
    let mut part = all_codepoints_572();
    v.append(&mut part);
    let mut part = all_codepoints_573();
    v.append(&mut part);
    let mut part = all_codepoints_574();
    v.append(&mut part);
    let mut part = all_codepoints_575();
    v.append(&mut part);
    let mut part = all_codepoints_576();
    v.append(&mut part);
    let mut part = all_codepoints_577();
    v.append(&mut part);
    let mut part = all_codepoints_578();
    v.append(&mut part);
    let mut part = all_codepoints_579();
    v.append(&mut part);
    v
}

pub open spec fn codepoint_table_580() -> Seq<Codepoint> {
    seq![
        Codepoint { codepoint: 0x130E5, name: "EGYPTIAN HIEROGLYPH E017", aliases: &[] },
        Codepoint { codepoint: 0x130E6, name: "EGYPTIAN HIEROGLYPH E017A", aliases: &[] },
        Codepoint { codepoint: 0x130E7, name: "EGYPTIAN HIEROGLYPH E018", aliases: &[] },
        Codepoint { codepoint: 0x130E8, name: "EGYPTIAN HIEROGLYPH E019", aliases: &[] },
        Codepoint { codepoint: 0x130E9, name: "EGYPTIAN HIEROGLYPH E020", aliases: &[] },
        Codepoint { codepoint: 0x130EA, name: "EGYPTIAN HIEROGLYPH E020A", aliases: &[] },
        Codepoint { codepoint: 0x130EB, name: "EGYPTIAN HIEROGLYPH E021", aliases: &[] },
        Codepoint { codepoint: 0x130EC, name: "EGYPTIAN HIEROGLYPH E022", aliases: &[] },
        Codepoint { codepoint: 0x130ED, name: "EGYPTIAN HIEROGLYPH E023", aliases: &[] },
        Codepoint { codepoint: 0x130EE, name: "EGYPTIAN HIEROGLYPH E024", aliases: &[] },
        Codepoint { codepoint: 0x130EF, name: "EGYPTIAN HIEROGLYPH E025", aliases: &[] },
        Codepoint { codepoint: 0x130F0, name: "EGYPTIAN HIEROGLYPH E026", aliases: &[] },
        Codepoint { codepoint: 0x130F1, name: "EGYPTIAN HIEROGLYPH E027", aliases: &[] },
        Codepoint { codepoint: 0x130F2, name: "EGYPTIAN HIEROGLYPH E028", aliases: &[] },
        Codepoint { codepoint: 0x130F3, name: "EGYPTIAN HIEROGLYPH E028A", aliases: &[] },
        Codepoint { codepoint: 0x130F4, name: "EGYPTIAN HIEROGLYPH E029", aliases: &[] },
        Codepoint { codepoint: 0x130F5, name: "EGYPTIAN HIEROGLYPH E030", aliases: &[] },
        Codepoint { codepoint: 0x130F6, name: "EGYPTIAN HIEROGLYPH E031", aliases: &[] },
        Codepoint { codepoint: 0x130F7, name: "EGYPTIAN HIEROGLYPH E032", aliases: &[] },
        Codepoint { codepoint: 0x130F8, name: "EGYPTIAN HIEROGLYPH E033", aliases: &[] },
        Codepoint { codepoint: 0x130F9, name: "EGYPTIAN HIEROGLYPH E034", aliases: &[] },
        Codepoint { codepoint: 0x130FA, name: "EGYPTIAN HIEROGLYPH E034A", aliases: &[] },
        Codepoint { codepoint: 0x130FB, name: "EGYPTIAN HIEROGLYPH E036", aliases: &[] },
        Codepoint { codepoint: 0x130FC, name: "EGYPTIAN HIEROGLYPH E037", aliases: &[] },
        Codepoint { codepoint: 0x130FD, name: "EGYPTIAN HIEROGLYPH E038", aliases: &[] },
        Codepoint { codepoint: 0x130FE, name: "EGYPTIAN HIEROGLYPH F001", aliases: &[] },
        Codepoint { codepoint: 0x130FF, name: "EGYPTIAN HIEROGLYPH F001A", aliases: &[] },
        Codepoint { codepoint: 0x13100, name: "EGYPTIAN HIEROGLYPH F002", aliases: &[] },
        Codepoint { codepoint: 0x13101, name: "EGYPTIAN HIEROGLYPH F003", aliases: &[] },
        Codepoint { codepoint: 0x13102, name: "EGYPTIAN HIEROGLYPH F004", aliases: &[] },
        Codepoint { codepoint: 0x13103, name: "EGYPTIAN HIEROGLYPH F005", aliases: &[] },
        Codepoint { codepoint: 0x13104, name: "EGYPTIAN HIEROGLYPH F006", aliases: &[] },
        Codepoint { codepoint: 0x13105, name: "EGYPTIAN HIEROGLYPH F007", aliases: &[] },
        Codepoint { codepoint: 0x13106, name: "EGYPTIAN HIEROGLYPH F008", aliases: &[] },
        Codepoint { codepoint: 0x13107, name: "EGYPTIAN HIEROGLYPH F009", aliases: &[] },
        Codepoint { codepoint: 0x13108, name: "EGYPTIAN HIEROGLYPH F010", aliases: &[] },
        Codepoint { codepoint: 0x13109, name: "EGYPTIAN HIEROGLYPH F011", aliases: &[] },
        Codepoint { codepoint: 0x1310A, name: "EGYPTIAN HIEROGLYPH F012", aliases: &[] },
        Codepoint { codepoint: 0x1310B, name: "EGYPTIAN HIEROGLYPH F013", aliases: &[] },
        Codepoint { codepoint: 0x1310C, name: "EGYPTIAN HIEROGLYPH F013A", aliases: &[] },
    ]
}

fn all_codepoints_580() -> (v: Vec<Codepoint>)
    ensures
        v@ == codepoint_table_580(),
{
    let v = vec![
        Codepoint { codepoint: 0x130E5, name: "EGYPTIAN HIEROGLYPH E017", aliases: &[] },
        Codepoint { codepoint: 0x130E6, name: "EGYPTIAN HIEROGLYPH E017A", aliases: &[] },
        Codepoint { codepoint: 0x130E7, name: "EGYPTIAN HIEROGLYPH E018", aliases: &[] },
        Codepoint { codepoint: 0x130E8, name: "EGYPTIAN HIEROGLYPH E019", aliases: &[] },
        Codepoint { codepoint: 0x130E9, name: "EGYPTIAN HIEROGLYPH E020", aliases: &[] },
        Codepoint { codepoint: 0x130EA, name: "EGYPTIAN HIEROGLYPH E020A", aliases: &[] },
        Codepoint { codepoint: 0x130EB, name: "EGYPTIAN HIEROGLYPH E021", aliases: &[] },
        Codepoint { codepoint: 0x130EC, name: "EGYPTIAN HIEROGLYPH E022", aliases: &[] },
        Codepoint { codepoint: 0x130ED, name: "EGYPTIAN HIEROGLYPH E023", aliases: &[] },
        Codepoint { codepoint: 0x130EE, name: "EGYPTIAN HIEROGLYPH E024", aliases: &[] },
        Codepoint { codepoint: 0x130EF, name: "EGYPTIAN HIEROGLYPH E025", aliases: &[] },
        Codepoint { codepoint: 0x130F0, name: "EGYPTIAN HIEROGLYPH E026", aliases: &[] },
        Codepoint { codepoint: 0x130F1, name: "EGYPTIAN HIEROGLYPH E027", aliases: &[] },
        Codepoint { codepoint: 0x130F2, name: "EGYPTIAN HIEROGLYPH E028", aliases: &[] },
        Codepoint { codepoint: 0x130F3, name: "EGYPTIAN HIEROGLYPH E028A", aliases: &[] },
        Codepoint { codepoint: 0x130F4, name: "EGYPTIAN HIEROGLYPH E029", aliases: &[] },
        Codepoint { codepoint: 0x130F5, name: "EGYPTIAN HIEROGLYPH E030", aliases: &[] },
        Codepoint { codepoint: 0x130F6, name: "EGYPTIAN HIEROGLYPH E031", aliases: &[] },
        Codepoint { codepoint: 0x130F7, name: "EGYPTIAN HIEROGLYPH E032", aliases: &[] },
        Codepoint { codepoint: 0x130F8, name: "EGYPTIAN HIEROGLYPH E033", aliases: &[] },
        Codepoint { codepoint: 0x130F9, name: "EGYPTIAN HIEROGLYPH E034", aliases: &[] },
        Codepoint { codepoint: 0x130FA, name: "EGYPTIAN HIEROGLYPH E034A", aliases: &[] },
        Codepoint { codepoint: 0x130FB, name: "EGYPTIAN HIEROGLYPH E036", aliases: &[] },
        Codepoint { codepoint: 0x130FC, name: "EGYPTIAN HIEROGLYPH E037", aliases: &[] },
        Codepoint { codepoint: 0x130FD, name: "EGYPTIAN HIEROGLYPH E038", aliases: &[] },
        Codepoint { codepoint: 0x130FE, name: "EGYPTIAN HIEROGLYPH F001", aliases: &[] },
        Codepoint { codepoint: 0x130FF, name: "EGYPTIAN HIEROGLYPH F001A", aliases: &[] },
        Codepoint { codepoint: 0x13100, name: "EGYPTIAN HIEROGLYPH F002", aliases: &[] },
        Codepoint { codepoint: 0x13101, name: "EGYPTIAN HIEROGLYPH F003", aliases: &[] },
        Codepoint { codepoint: 0x13102, name: "EGYPTIAN HIEROGLYPH F004", aliases: &[] },
        Codepoint { codepoint: 0x13103, name: "EGYPTIAN HIEROGLYPH F005", aliases: &[] },
        Codepoint { codepoint: 0x13104, name: "EGYPTIAN HIEROGLYPH F006", aliases: &[] },
        Codepoint { codepoint: 0x13105, name: "EGYPTIAN HIEROGLYPH F007", aliases: &[] },
        Codepoint { codepoint: 0x13106, name: "EGYPTIAN HIEROGLYPH F008", aliases: &[] },
        Codepoint { codepoint: 0x13107, name: "EGYPTIAN HIEROGLYPH F009", aliases: &[] },
        Codepoint { codepoint: 0x13108, name: "EGYPTIAN HIEROGLYPH F010", aliases: &[] },
        Codepoint { codepoint: 0x13109, name: "EGYPTIAN HIEROGLYPH F011", aliases: &[] },
        Codepoint { codepoint: 0x1310A, name: "EGYPTIAN HIEROGLYPH F012", aliases: &[] },
        Codepoint { codepoint: 0x1310B, name: "EGYPTIAN HIEROGLYPH F013", aliases: &[] },
        Codepoint { codepoint: 0x1310C, name: "EGYPTIAN HIEROGLYPH F013A", aliases: &[] },
    ];
    assert(v@ =~= codepoint_table_580());
    v
}

pub open spec fn codepoint_table_581() -> Seq<Codepoint> {
    seq![
        Codepoint { codepoint: 0x1310D, name: "EGYPTIAN HIEROGLYPH F014", aliases: &[] },
        Codepoint { codepoint: 0x1310E, name: "EGYPTIAN HIEROGLYPH F015", aliases: &[] },
        Codepoint { codepoint: 0x1310F, name: "EGYPTIAN HIEROGLYPH F016", aliases: &[] },
        Codepoint { codepoint: 0x13110, name: "EGYPTIAN HIEROGLYPH F017", aliases: &[] },
        Codepoint { codepoint: 0x13111, name: "EGYPTIAN HIEROGLYPH F018", aliases: &[] },
        Codepoint { codepoint: 0x13112, name: "EGYPTIAN HIEROGLYPH F019", aliases: &[] },
        Codepoint { codepoint: 0x13113, name: "EGYPTIAN HIEROGLYPH F020", aliases: &[] },
        Codepoint { codepoint: 0x13114, name: "EGYPTIAN HIEROGLYPH F021", aliases: &[] },
        Codepoint { codepoint: 0x13115, name: "EGYPTIAN HIEROGLYPH F021A", aliases: &[] },
        Codepoint { codepoint: 0x13116, name: "EGYPTIAN HIEROGLYPH F022", aliases: &[] },
        Codepoint { codepoint: 0x13117, name: "EGYPTIAN HIEROGLYPH F023", aliases: &[] },
        Codepoint { codepoint: 0x13118, name: "EGYPTIAN HIEROGLYPH F024", aliases: &[] },
        Codepoint { codepoint: 0x13119, name: "EGYPTIAN HIEROGLYPH F025", aliases: &[] },
        Codepoint { codepoint: 0x1311A, name: "EGYPTIAN HIEROGLYPH F026", aliases: &[] },
        Codepoint { codepoint: 0x1311B, name: "EGYPTIAN HIEROGLYPH F027", aliases: &[] },
        Codepoint { codepoint: 0x1311C, name: "EGYPTIAN HIEROGLYPH F028", aliases: &[] },
        Codepoint { codepoint: 0x1311D, name: "EGYPTIAN HIEROGLYPH F029", aliases: &[] },
        Codepoint { codepoint: 0x1311E, name: "EGYPTIAN HIEROGLYPH F030", aliases: &[] },
        Codepoint { codepoint: 0x1311F, name: "EGYPTIAN HIEROGLYPH F031", aliases: &[] },
        Codepoint { codepoint: 0x13120, name: "EGYPTIAN HIEROGLYPH F031A", aliases: &[] },
        Codepoint { codepoint: 0x13121, name: "EGYPTIAN HIEROGLYPH F032", aliases: &[] },
        Codepoint { codepoint: 0x13122, name: "EGYPTIAN HIEROGLYPH F033", aliases: &[] },
        Codepoint { codepoint: 0x13123, name: "EGYPTIAN HIEROGLYPH F034", aliases: &[] },
        Codepoint { codepoint: 0x13124, name: "EGYPTIAN HIEROGLYPH F035", aliases: &[] },
        Codepoint { codepoint: 0x13125, name: "EGYPTIAN HIEROGLYPH F036", aliases: &[] },
        Codepoint { codepoint: 0x13126, name: "EGYPTIAN HIEROGLYPH F037", aliases: &[] },
        Codepoint { codepoint: 0x13127, name: "EGYPTIAN HIEROGLYPH F037A", aliases: &[] },
        Codepoint { codepoint: 0x13128, name: "EGYPTIAN HIEROGLYPH F038", aliases: &[] },
        Codepoint { codepoint: 0x13129, name: "EGYPTIAN HIEROGLYPH F038A", aliases: &[] },
        Codepoint { codepoint: 0x1312A, name: "EGYPTIAN HIEROGLYPH F039", aliases: &[] },
        Codepoint { codepoint: 0x1312B, name: "EGYPTIAN HIEROGLYPH F040", aliases: &[] },
        Codepoint { codepoint: 0x1312C, name: "EGYPTIAN HIEROGLYPH F041", aliases: &[] },
        Codepoint { codepoint: 0x1312D, name: "EGYPTIAN HIEROGLYPH F042", aliases: &[] },
        Codepoint { codepoint: 0x1312E, name: "EGYPTIAN HIEROGLYPH F043", aliases: &[] },
        Codepoint { codepoint: 0x1312F, name: "EGYPTIAN HIEROGLYPH F044", aliases: &[] },
        Codepoint { codepoint: 0x13130, name: "EGYPTIAN HIEROGLYPH F045", aliases: &[] },
        Codepoint { codepoint: 0x13131, name: "EGYPTIAN HIEROGLYPH F045A", aliases: &[] },
        Codepoint { codepoint: 0x13132, name: "EGYPTIAN HIEROGLYPH F046", aliases: &[] },
        Codepoint { codepoint: 0x13133, name: "EGYPTIAN HIEROGLYPH F046A", aliases: &[] },
        Codepoint { codepoint: 0x13134, name: "EGYPTIAN HIEROGLYPH F047", aliases: &[] },
    ]
}

fn all_codepoints_581() -> (v: Vec<Codepoint>)
    ensures
        v@ == codepoint_table_581(),
{
    let v = vec![
        Codepoint { codepoint: 0x1310D, name: "EGYPTIAN HIEROGLYPH F014", aliases: &[] },
        Codepoint { codepoint: 0x1310E, name: "EGYPTIAN HIEROGLYPH F015", aliases: &[] },
        Codepoint { codepoint: 0x1310F, name: "EGYPTIAN HIEROGLYPH F016", aliases: &[] },
        Codepoint { codepoint: 0x13110, name: "EGYPTIAN HIEROGLYPH F017", aliases: &[] },
        Codepoint { codepoint: 0x13111, name: "EGYPTIAN HIEROGLYPH F018", aliases: &[] },
        Codepoint { codepoint: 0x13112, name: "EGYPTIAN HIEROGLYPH F019", aliases: &[] },
        Codepoint { codepoint: 0x13113, name: "EGYPTIAN HIEROGLYPH F020", aliases: &[] },
        Codepoint { codepoint: 0x13114, name: "EGYPTIAN HIEROGLYPH F021", aliases: &[] },
        Codepoint { codepoint: 0x13115, name: "EGYPTIAN HIEROGLYPH F021A", aliases: &[] },
        Codepoint { codepoint: 0x13116, name: "EGYPTIAN HIEROGLYPH F022", aliases: &[] },
        Codepoint { codepoint: 0x13117, name: "EGYPTIAN HIEROGLYPH F023", aliases: &[] },
        Codepoint { codepoint: 0x13118, name: "EGYPTIAN HIEROGLYPH F024", aliases: &[] },
        Codepoint { codepoint: 0x13119, name: "EGYPTIAN HIEROGLYPH F025", aliases: &[] },
        Codepoint { codepoint: 0x1311A, name: "EGYPTIAN HIEROGLYPH F026", aliases: &[] },
        Codepoint { codepoint: 0x1311B, name: "EGYPTIAN HIEROGLYPH F027", aliases: &[] },
        Codepoint { codepoint: 0x1311C, name: "EGYPTIAN HIEROGLYPH F028", aliases: &[] },
        Codepoint { codepoint: 0x1311D, name: "EGYPTIAN HIEROGLYPH F029", aliases: &[] },
        Codepoint { codepoint: 0x1311E, name: "EGYPTIAN HIEROGLYPH F030", aliases: &[] },
        Codepoint { codepoint: 0x1311F, name: "EGYPTIAN HIEROGLYPH F031", aliases: &[] },
        Codepoint { codepoint: 0x13120, name: "EGYPTIAN HIEROGLYPH F031A", aliases: &[] },
        Codepoint { codepoint: 0x13121, name: "EGYPTIAN HIEROGLYPH F032", aliases: &[] },
        Codepoint { codepoint: 0x13122, name: "EGYPTIAN HIEROGLYPH F033", aliases: &[] },
        Codepoint { codepoint: 0x13123, name: "EGYPTIAN HIEROGLYPH F034", aliases: &[] },
        Codepoint { codepoint: 0x13124, name: "EGYPTIAN HIEROGLYPH F035", aliases: &[] },
        Codepoint { codepoint: 0x13125, name: "EGYPTIAN HIEROGLYPH F036", aliases: &[] },
        Codepoint { codepoint: 0x13126, name: "EGYPTIAN HIEROGLYPH F037", aliases: &[] },
        Codepoint { codepoint: 0x13127, name: "EGYPTIAN HIEROGLYPH F037A", aliases: &[] },
        Codepoint { codepoint: 0x13128, name: "EGYPTIAN HIEROGLYPH F038", aliases: &[] },
        Codepoint { codepoint: 0x13129, name: "EGYPTIAN HIEROGLYPH F038A", aliases: &[] },
        Codepoint { codepoint: 0x1312A, name: "EGYPTIAN HIEROGLYPH F039", aliases: &[] },
        Codepoint { codepoint: 0x1312B, name: "EGYPTIAN HIEROGLYPH F040", aliases: &[] },
        Codepoint { codepoint: 0x1312C, name: "EGYPTIAN HIEROGLYPH F041", aliases: &[] },
        Codepoint { codepoint: 0x1312D, name: "EGYPTIAN HIEROGLYPH F042", aliases: &[] },
        Codepoint { codepoint: 0x1312E, name: "EGYPTIAN HIEROGLYPH F043", aliases: &[] },
        Codepoint { codepoint: 0x1312F, name: "EGYPTIAN HIEROGLYPH F044", aliases: &[] },
        Codepoint { codepoint: 0x13130, name: "EGYPTIAN HIEROGLYPH F045", aliases: &[] },
        Codepoint { codepoint: 0x13131, name: "EGYPTIAN HIEROGLYPH F045A", aliases: &[] },
        Codepoint { codepoint: 0x13132, name: "EGYPTIAN HIEROGLYPH F046", aliases: &[] },
        Codepoint { codepoint: 0x13133, name: "EGYPTIAN HIEROGLYPH F046A", aliases: &[] },
        Codepoint { codepoint: 0x13134, name: "EGYPTIAN HIEROGLYPH F047", aliases: &[] },
    ];
    assert(v@ =~= codepoint_table_581());
    v
}

pub open spec fn codepoint_table_582() -> Seq<Codepoint> {
    seq![
        Codepoint { codepoint: 0x13135, name: "EGYPTIAN HIEROGLYPH F047A", aliases: &[] },
        Codepoint { codepoint: 0x13136, name: "EGYPTIAN HIEROGLYPH F048", aliases: &[] },
        Codepoint { codepoint: 0x13137, name: "EGYPTIAN HIEROGLYPH F049", aliases: &[] },
        Codepoint { codepoint: 0x13138, name: "EGYPTIAN HIEROGLYPH F050", aliases: &[] },
        Codepoint { codepoint: 0x13139, name: "EGYPTIAN HIEROGLYPH F051", aliases: &[] },
        Codepoint { codepoint: 0x1313A, name: "EGYPTIAN HIEROGLYPH F051A", aliases: &[] },
        Codepoint { codepoint: 0x1313B, name: "EGYPTIAN HIEROGLYPH F051B", aliases: &[] },
        Codepoint { codepoint: 0x1313C, name: "EGYPTIAN HIEROGLYPH F051C", aliases: &[] },
        Codepoint { codepoint: 0x1313D, name: "EGYPTIAN HIEROGLYPH F052", aliases: &[] },
        Codepoint { codepoint: 0x1313E, name: "EGYPTIAN HIEROGLYPH F053", aliases: &[] },
        Codepoint { codepoint: 0x1313F, name: "EGYPTIAN HIEROGLYPH G001", aliases: &[] },
        Codepoint { codepoint: 0x13140, name: "EGYPTIAN HIEROGLYPH G002", aliases: &[] },
        Codepoint { codepoint: 0x13141, name: "EGYPTIAN HIEROGLYPH G003", aliases: &[] },
        Codepoint { codepoint: 0x13142, name: "EGYPTIAN HIEROGLYPH G004", aliases: &[] },
        Codepoint { codepoint: 0x13143, name: "EGYPTIAN HIEROGLYPH G005", aliases: &[] },
        Codepoint { codepoint: 0x13144, name: "EGYPTIAN HIEROGLYPH G006", aliases: &[] },
        Codepoint { codepoint: 0x13145, name: "EGYPTIAN HIEROGLYPH G006A", aliases: &[] },
        Codepoint { codepoint: 0x13146, name: "EGYPTIAN HIEROGLYPH G007", aliases: &[] },
        Codepoint { codepoint: 0x13147, name: "EGYPTIAN HIEROGLYPH G007A", aliases: &[] },
        Codepoint { codepoint: 0x13148, name: "EGYPTIAN HIEROGLYPH G007B", aliases: &[] },
        Codepoint { codepoint: 0x13149, name: "EGYPTIAN HIEROGLYPH G008", aliases: &[] },
        Codepoint { codepoint: 0x1314A, name: "EGYPTIAN HIEROGLYPH G009", aliases: &[] },
        Codepoint { codepoint: 0x1314B, name: "EGYPTIAN HIEROGLYPH G010", aliases: &[] },
        Codepoint { codepoint: 0x1314C, name: "EGYPTIAN HIEROGLYPH G011", aliases: &[] },
        Codepoint { codepoint: 0x1314D, name: "EGYPTIAN HIEROGLYPH G011A", aliases: &[] },
        Codepoint { codepoint: 0x1314E, name: "EGYPTIAN HIEROGLYPH G012", aliases: &[] },
        Codepoint { codepoint: 0x1314F, name: "EGYPTIAN HIEROGLYPH G013", aliases: &[] },
        Codepoint { codepoint: 0x13150, name: "EGYPTIAN HIEROGLYPH G014", aliases: &[] },
        Codepoint { codepoint: 0x13151, name: "EGYPTIAN HIEROGLYPH G015", aliases: &[] },
        Codepoint { codepoint: 0x13152, name: "EGYPTIAN HIEROGLYPH G016", aliases: &[] },
        Codepoint { codepoint: 0x13153, name: "EGYPTIAN HIEROGLYPH G017", aliases: &[] },
        Codepoint { codepoint: 0x13154, name: "EGYPTIAN HIEROGLYPH G018", aliases: &[] },
        Codepoint { codepoint: 0x13155, name: "EGYPTIAN HIEROGLYPH G019", aliases: &[] },
        Codepoint { codepoint: 0x13156, name: "EGYPTIAN HIEROGLYPH G020", aliases: &[] },
        Codepoint { codepoint: 0x13157, name: "EGYPTIAN HIEROGLYPH G020A", aliases: &[] },
        Codepoint { codepoint: 0x13158, name: "EGYPTIAN HIEROGLYPH G021", aliases: &[] },
        Codepoint { codepoint: 0x13159, name: "EGYPTIAN HIEROGLYPH G022", aliases: &[] },
        Codepoint { codepoint: 0x1315A, name: "EGYPTIAN HIEROGLYPH G023", aliases: &[] },
        Codepoint { codepoint: 0x1315B, name: "EGYPTIAN HIEROGLYPH G024", aliases: &[] },
        Codepoint { codepoint: 0x1315C, name: "EGYPTIAN HIEROGLYPH G025", aliases: &[] },
    ]
}

fn all_codepoints_582() -> (v: Vec<Codepoint>)
    ensures
        v@ == codepoint_table_582(),
{
    let v = vec![
        Codepoint { codepoint: 0x13135, name: "EGYPTIAN HIEROGLYPH F047A", aliases: &[] },
        Codepoint { codepoint: 0x13136, name: "EGYPTIAN HIEROGLYPH F048", aliases: &[] },
        Codepoint { codepoint: 0x13137, name: "EGYPTIAN HIEROGLYPH F049", aliases: &[] },
        Codepoint { codepoint: 0x13138, name: "EGYPTIAN HIEROGLYPH F050", aliases: &[] },
        Codepoint { codepoint: 0x13139, name: "EGYPTIAN HIEROGLYPH F051", aliases: &[] },
        Codepoint { codepoint: 0x1313A, name: "EGYPTIAN HIEROGLYPH F051A", aliases: &[] },
        Codepoint { codepoint: 0x1313B, name: "EGYPTIAN HIEROGLYPH F051B", aliases: &[] },
        Codepoint { codepoint: 0x1313C, name: "EGYPTIAN HIEROGLYPH F051C", aliases: &[] },
        Codepoint { codepoint: 0x1313D, name: "EGYPTIAN HIEROGLYPH F052", aliases: &[] },
        Codepoint { codepoint: 0x1313E, name: "EGYPTIAN HIEROGLYPH F053", aliases: &[] },
        Codepoint { codepoint: 0x1313F, name: "EGYPTIAN HIEROGLYPH G001", aliases: &[] },
        Codepoint { codepoint: 0x13140, name: "EGYPTIAN HIEROGLYPH G002", aliases: &[] },
        Codepoint { codepoint: 0x13141, name: "EGYPTIAN HIEROGLYPH G003", aliases: &[] },
        Codepoint { codepoint: 0x13142, name: "EGYPTIAN HIEROGLYPH G004", aliases: &[] },
        Codepoint { codepoint: 0x13143, name: "EGYPTIAN HIEROGLYPH G005", aliases: &[] },
        Codepoint { codepoint: 0x13144, name: "EGYPTIAN HIEROGLYPH G006", aliases: &[] },
        Codepoint { codepoint: 0x13145, name: "EGYPTIAN HIEROGLYPH G006A", aliases: &[] },
        Codepoint { codepoint: 0x13146, name: "EGYPTIAN HIEROGLYPH G007", aliases: &[] },
        Codepoint { codepoint: 0x13147, name: "EGYPTIAN HIEROGLYPH G007A", aliases: &[] },
        Codepoint { codepoint: 0x13148, name: "EGYPTIAN HIEROGLYPH G007B", aliases: &[] },
        Codepoint { codepoint: 0x13149, name: "EGYPTIAN HIEROGLYPH G008", aliases: &[] },
        Codepoint { codepoint: 0x1314A, name: "EGYPTIAN HIEROGLYPH G009", aliases: &[] },
        Codepoint { codepoint: 0x1314B, name: "EGYPTIAN HIEROGLYPH G010", aliases: &[] },
        Codepoint { codepoint: 0x1314C, name: "EGYPTIAN HIEROGLYPH G011", aliases: &[] },
        Codepoint { codepoint: 0x1314D, name: "EGYPTIAN HIEROGLYPH G011A", aliases: &[] },
        Codepoint { codepoint: 0x1314E, name: "EGYPTIAN HIEROGLYPH G012", aliases: &[] },
        Codepoint { codepoint: 0x1314F, name: "EGYPTIAN HIEROGLYPH G013", aliases: &[] },
        Codepoint { codepoint: 0x13150, name: "EGYPTIAN HIEROGLYPH G014", aliases: &[] },
        Codepoint { codepoint: 0x13151, name: "EGYPTIAN HIEROGLYPH G015", aliases: &[] },
        Codepoint { codepoint: 0x13152, name: "EGYPTIAN HIEROGLYPH G016", aliases: &[] },
        Codepoint { codepoint: 0x13153, name: "EGYPTIAN HIEROGLYPH G017", aliases: &[] },
        Codepoint { codepoint: 0x13154, name: "EGYPTIAN HIEROGLYPH G018", aliases: &[] },
        Codepoint { codepoint: 0x13155, name: "EGYPTIAN HIEROGLYPH G019", aliases: &[] },
        Codepoint { codepoint: 0x13156, name: "EGYPTIAN HIEROGLYPH G020", aliases: &[] },
        Codepoint { codepoint: 0x13157, name: "EGYPTIAN HIEROGLYPH G020A", aliases: &[] },
        Codepoint { codepoint: 0x13158, name: "EGYPTIAN HIEROGLYPH G021", aliases: &[] },
        Codepoint { codepoint: 0x13159, name: "EGYPTIAN HIEROGLYPH G022", aliases: &[] },
        Codepoint { codepoint: 0x1315A, name: "EGYPTIAN HIEROGLYPH G023", aliases: &[] },
        Codepoint { codepoint: 0x1315B, name: "EGYPTIAN HIEROGLYPH G024", aliases: &[] },
        Codepoint { codepoint: 0x1315C, name: "EGYPTIAN HIEROGLYPH G025", aliases: &[] },
    ];
    assert(v@ =~= codepoint_table_582());
    v
}

pub open spec fn codepoint_table_583() -> Seq<Codepoint> {
    seq![
        Codepoint { codepoint: 0x1315D, name: "EGYPTIAN HIEROGLYPH G026", aliases: &[] },
        Codepoint { codepoint: 0x1315E, name: "EGYPTIAN HIEROGLYPH G026A", aliases: &[] },
        Codepoint { codepoint: 0x1315F, name: "EGYPTIAN HIEROGLYPH G027", aliases: &[] },
        Codepoint { codepoint: 0x13160, name: "EGYPTIAN HIEROGLYPH G028", aliases: &[] },
        Codepoint { codepoint: 0x13161, name: "EGYPTIAN HIEROGLYPH G029", aliases: &[] },
        Codepoint { codepoint: 0x13162, name: "EGYPTIAN HIEROGLYPH G030", aliases: &[] },
        Codepoint { codepoint: 0x13163, name: "EGYPTIAN HIEROGLYPH G031", aliases: &[] },
        Codepoint { codepoint: 0x13164, name: "EGYPTIAN HIEROGLYPH G032", aliases: &[] },
        Codepoint { codepoint: 0x13165, name: "EGYPTIAN HIEROGLYPH G033", aliases: &[] },
        Codepoint { codepoint: 0x13166, name: "EGYPTIAN HIEROGLYPH G034", aliases: &[] },
        Codepoint { codepoint: 0x13167, name: "EGYPTIAN HIEROGLYPH G035", aliases: &[] },
        Codepoint { codepoint: 0x13168, name: "EGYPTIAN HIEROGLYPH G036", aliases: &[] },
        Codepoint { codepoint: 0x13169, name: "EGYPTIAN HIEROGLYPH G036A", aliases: &[] },
        Codepoint { codepoint: 0x1316A, name: "EGYPTIAN HIEROGLYPH G037", aliases: &[] },
        Codepoint { codepoint: 0x1316B, name: "EGYPTIAN HIEROGLYPH G037A", aliases: &[] },
        Codepoint { codepoint: 0x1316C, name: "EGYPTIAN HIEROGLYPH G038", aliases: &[] },
        Codepoint { codepoint: 0x1316D, name: "EGYPTIAN HIEROGLYPH G039", aliases: &[] },
        Codepoint { codepoint: 0x1316E, name: "EGYPTIAN HIEROGLYPH G040", aliases: &[] },
        Codepoint { codepoint: 0x1316F, name: "EGYPTIAN HIEROGLYPH G041", aliases: &[] },
        Codepoint { codepoint: 0x13170, name: "EGYPTIAN HIEROGLYPH G042", aliases: &[] },
        Codepoint { codepoint: 0x13171, name: "EGYPTIAN HIEROGLYPH G043", aliases: &[] },
        Codepoint { codepoint: 0x13172, name: "EGYPTIAN HIEROGLYPH G043A", aliases: &[] },
        Codepoint { codepoint: 0x13173, name: "EGYPTIAN HIEROGLYPH G044", aliases: &[] },
        Codepoint { codepoint: 0x13174, name: "EGYPTIAN HIEROGLYPH G045", aliases: &[] },
        Codepoint { codepoint: 0x13175, name: "EGYPTIAN HIEROGLYPH G045A", aliases: &[] },
        Codepoint { codepoint: 0x13176, name: "EGYPTIAN HIEROGLYPH G046", aliases: &[] },
        Codepoint { codepoint: 0x13177, name: "EGYPTIAN HIEROGLYPH G047", aliases: &[] },
        Codepoint { codepoint: 0x13178, name: "EGYPTIAN HIEROGLYPH G048", aliases: &[] },
        Codepoint { codepoint: 0x13179, name: "EGYPTIAN HIEROGLYPH G049", aliases: &[] },
        Codepoint { codepoint: 0x1317A, name: "EGYPTIAN HIEROGLYPH G050", aliases: &[] },
        Codepoint { codepoint: 0x1317B, name: "EGYPTIAN HIEROGLYPH G051", aliases: &[] },
        Codepoint { codepoint: 0x1317C, name: "EGYPTIAN HIEROGLYPH G052", aliases: &[] },
        Codepoint { codepoint: 0x1317D, name: "EGYPTIAN HIEROGLYPH G053", aliases: &[] },
        Codepoint { codepoint: 0x1317E, name: "EGYPTIAN HIEROGLYPH G054", aliases: &[] },
        Codepoint { codepoint: 0x1317F, name: "EGYPTIAN HIEROGLYPH H001", aliases: &[] },
        Codepoint { codepoint: 0x13180, name: "EGYPTIAN HIEROGLYPH H002", aliases: &[] },
        Codepoint { codepoint: 0x13181, name: "EGYPTIAN HIEROGLYPH H003", aliases: &[] },
        Codepoint { codepoint: 0x13182, name: "EGYPTIAN HIEROGLYPH H004", aliases: &[] },
        Codepoint { codepoint: 0x13183, name: "EGYPTIAN HIEROGLYPH H005", aliases: &[] },
        Codepoint { codepoint: 0x13184, name: "EGYPTIAN HIEROGLYPH H006", aliases: &[] },
    ]
}

fn all_codepoints_583() -> (v: Vec<Codepoint>)
    ensures
        v@ == codepoint_table_583(),
{
    let v = vec![
        Codepoint { codepoint: 0x1315D, name: "EGYPTIAN HIEROGLYPH G026", aliases: &[] },
        Codepoint { codepoint: 0x1315E, name: "EGYPTIAN HIEROGLYPH G026A", aliases: &[] },
        Codepoint { codepoint: 0x1315F, name: "EGYPTIAN HIEROGLYPH G027", aliases: &[] },
        Codepoint { codepoint: 0x13160, name: "EGYPTIAN HIEROGLYPH G028", aliases: &[] },
        Codepoint { codepoint: 0x13161, name: "EGYPTIAN HIEROGLYPH G029", aliases: &[] },
        Codepoint { codepoint: 0x13162, name: "EGYPTIAN HIEROGLYPH G030", aliases: &[] },
        Codepoint { codepoint: 0x13163, name: "EGYPTIAN HIEROGLYPH G031", aliases: &[] },
        Codepoint { codepoint: 0x13164, name: "EGYPTIAN HIEROGLYPH G032", aliases: &[] },
        Codepoint { codepoint: 0x13165, name: "EGYPTIAN HIEROGLYPH G033", aliases: &[] },
        Codepoint { codepoint: 0x13166, name: "EGYPTIAN HIEROGLYPH G034", aliases: &[] },
        Codepoint { codepoint: 0x13167, name: "EGYPTIAN HIEROGLYPH G035", aliases: &[] },
        Codepoint { codepoint: 0x13168, name: "EGYPTIAN HIEROGLYPH G036", aliases: &[] },
        Codepoint { codepoint: 0x13169, name: "EGYPTIAN HIEROGLYPH G036A", aliases: &[] },
        Codepoint { codepoint: 0x1316A, name: "EGYPTIAN HIEROGLYPH G037", aliases: &[] },
        Codepoint { codepoint: 0x1316B, name: "EGYPTIAN HIEROGLYPH G037A", aliases: &[] },
        Codepoint { codepoint: 0x1316C, name: "EGYPTIAN HIEROGLYPH G038", aliases: &[] },
        Codepoint { codepoint: 0x1316D, name: "EGYPTIAN HIEROGLYPH G039", aliases: &[] },
        Codepoint { codepoint: 0x1316E, name: "EGYPTIAN HIEROGLYPH G040", aliases: &[] },
        Codepoint { codepoint: 0x1316F, name: "EGYPTIAN HIEROGLYPH G041", aliases: &[] },
        Codepoint { codepoint: 0x13170, name: "EGYPTIAN HIEROGLYPH G042", aliases: &[] },
        Codepoint { codepoint: 0x13171, name: "EGYPTIAN HIEROGLYPH G043", aliases: &[] },
        Codepoint { codepoint: 0x13172, name: "EGYPTIAN HIEROGLYPH G043A", aliases: &[] },
        Codepoint { codepoint: 0x13173, name: "EGYPTIAN HIEROGLYPH G044", aliases: &[] },
        Codepoint { codepoint: 0x13174, name: "EGYPTIAN HIEROGLYPH G045", aliases: &[] },
        Codepoint { codepoint: 0x13175, name: "EGYPTIAN HIEROGLYPH G045A", aliases: &[] },
        Codepoint { codepoint: 0x13176, name: "EGYPTIAN HIEROGLYPH G046", aliases: &[] },
        Codepoint { codepoint: 0x13177, name: "EGYPTIAN HIEROGLYPH G047", aliases: &[] },
        Codepoint { codepoint: 0x13178, name: "EGYPTIAN HIEROGLYPH G048", aliases: &[] },
        Codepoint { codepoint: 0x13179, name: "EGYPTIAN HIEROGLYPH G049", aliases: &[] },
        Codepoint { codepoint: 0x1317A, name: "EGYPTIAN HIEROGLYPH G050", aliases: &[] },
        Codepoint { codepoint: 0x1317B, name: "EGYPTIAN HIEROGLYPH G051", aliases: &[] },
        Codepoint { codepoint: 0x1317C, name: "EGYPTIAN HIEROGLYPH G052", aliases: &[] },
        Codepoint { codepoint: 0x1317D, name: "EGYPTIAN HIEROGLYPH G053", aliases: &[] },
        Codepoint { codepoint: 0x1317E, name: "EGYPTIAN HIEROGLYPH G054", aliases: &[] },
        Codepoint { codepoint: 0x1317F, name: "EGYPTIAN HIEROGLYPH H001", aliases: &[] },
        Codepoint { codepoint: 0x13180, name: "EGYPTIAN HIEROGLYPH H002", aliases: &[] },
        Codepoint { codepoint: 0x13181, name: "EGYPTIAN HIEROGLYPH H003", aliases: &[] },
        Codepoint { codepoint: 0x13182, name: "EGYPTIAN HIEROGLYPH H004", aliases: &[] },
        Codepoint { codepoint: 0x13183, name: "EGYPTIAN HIEROGLYPH H005", aliases: &[] },
        Codepoint { codepoint: 0x13184, name: "EGYPTIAN HIEROGLYPH H006", aliases: &[] },
    ];
    assert(v@ =~= codepoint_table_583());
    v
}

pub open spec fn codepoint_table_584() -> Seq<Codepoint> {
    seq![
        Codepoint { codepoint: 0x13185, name: "EGYPTIAN HIEROGLYPH H006A", aliases: &[] },
        Codepoint { codepoint: 0x13186, name: "EGYPTIAN HIEROGLYPH H007", aliases: &[] },
        Codepoint { codepoint: 0x13187, name: "EGYPTIAN HIEROGLYPH H008", aliases: &[] },
        Codepoint { codepoint: 0x13188, name: "EGYPTIAN HIEROGLYPH I001", aliases: &[] },
        Codepoint { codepoint: 0x13189, name: "EGYPTIAN HIEROGLYPH I002", aliases: &[] },
        Codepoint { codepoint: 0x1318A, name: "EGYPTIAN HIEROGLYPH I003", aliases: &[] },
        Codepoint { codepoint: 0x1318B, name: "EGYPTIAN HIEROGLYPH I004", aliases: &[] },
        Codepoint { codepoint: 0x1318C, name: "EGYPTIAN HIEROGLYPH I005", aliases: &[] },
        Codepoint { codepoint: 0x1318D, name: "EGYPTIAN HIEROGLYPH I005A", aliases: &[] },
        Codepoint { codepoint: 0x1318E, name: "EGYPTIAN HIEROGLYPH I006", aliases: &[] },
        Codepoint { codepoint: 0x1318F, name: "EGYPTIAN HIEROGLYPH I007", aliases: &[] },
        Codepoint { codepoint: 0x13190, name: "EGYPTIAN HIEROGLYPH I008", aliases: &[] },
        Codepoint { codepoint: 0x13191, name: "EGYPTIAN HIEROGLYPH I009", aliases: &[] },
        Codepoint { codepoint: 0x13192, name: "EGYPTIAN HIEROGLYPH I009A", aliases: &[] },
        Codepoint { codepoint: 0x13193, name: "EGYPTIAN HIEROGLYPH I010", aliases: &[] },
        Codepoint { codepoint: 0x13194, name: "EGYPTIAN HIEROGLYPH I010A", aliases: &[] },
        Codepoint { codepoint: 0x13195, name: "EGYPTIAN HIEROGLYPH I011", aliases: &[] },
        Codepoint { codepoint: 0x13196, name: "EGYPTIAN HIEROGLYPH I011A", aliases: &[] },
        Codepoint { codepoint: 0x13197, name: "EGYPTIAN HIEROGLYPH I012", aliases: &[] },
        Codepoint { codepoint: 0x13198, name: "EGYPTIAN HIEROGLYPH I013", aliases: &[] },
        Codepoint { codepoint: 0x13199, name: "EGYPTIAN HIEROGLYPH I014", aliases: &[] },
        Codepoint { codepoint: 0x1319A, name: "EGYPTIAN HIEROGLYPH I015", aliases: &[] },
        Codepoint { codepoint: 0x1319B, name: "EGYPTIAN HIEROGLYPH K001", aliases: &[] },
        Codepoint { codepoint: 0x1319C, name: "EGYPTIAN HIEROGLYPH K002", aliases: &[] },
        Codepoint { codepoint: 0x1319D, name: "EGYPTIAN HIEROGLYPH K003", aliases: &[] },
        Codepoint { codepoint: 0x1319E, name: "EGYPTIAN HIEROGLYPH K004", aliases: &[] },
        Codepoint { codepoint: 0x1319F, name: "EGYPTIAN HIEROGLYPH K005", aliases: &[] },
        Codepoint { codepoint: 0x131A0, name: "EGYPTIAN HIEROGLYPH K006", aliases: &[] },
        Codepoint { codepoint: 0x131A1, name: "EGYPTIAN HIEROGLYPH K007", aliases: &[] },
        Codepoint { codepoint: 0x131A2, name: "EGYPTIAN HIEROGLYPH K008", aliases: &[] },
        Codepoint { codepoint: 0x131A3, name: "EGYPTIAN HIEROGLYPH L001", aliases: &[] },
        Codepoint { codepoint: 0x131A4, name: "EGYPTIAN HIEROGLYPH L002", aliases: &[] },
        Codepoint { codepoint: 0x131A5, name: "EGYPTIAN HIEROGLYPH L002A", aliases: &[] },
        Codepoint { codepoint: 0x131A6, name: "EGYPTIAN HIEROGLYPH L003", aliases: &[] },
        Codepoint { codepoint: 0x131A7, name: "EGYPTIAN HIEROGLYPH L004", aliases: &[] },
        Codepoint { codepoint: 0x131A8, name: "EGYPTIAN HIEROGLYPH L005", aliases: &[] },
        Codepoint { codepoint: 0x131A9, name: "EGYPTIAN HIEROGLYPH L006", aliases: &[] },
        Codepoint { codepoint: 0x131AA, name: "EGYPTIAN HIEROGLYPH L006A", aliases: &[] },
        Codepoint { codepoint: 0x131AB, name: "EGYPTIAN HIEROGLYPH L007", aliases: &[] },
        Codepoint { codepoint: 0x131AC, name: "EGYPTIAN HIEROGLYPH L008", aliases: &[] },
    ]
}

fn all_codepoints_584() -> (v: Vec<Codepoint>)
    ensures
        v@ == codepoint_table_584(),
{
    let v = vec![
        Codepoint { codepoint: 0x13185, name: "EGYPTIAN HIEROGLYPH H006A", aliases: &[] },
        Codepoint { codepoint: 0x13186, name: "EGYPTIAN HIEROGLYPH H007", aliases: &[] },
        Codepoint { codepoint: 0x13187, name: "EGYPTIAN HIEROGLYPH H008", aliases: &[] },
        Codepoint { codepoint: 0x13188, name: "EGYPTIAN HIEROGLYPH I001", aliases: &[] },
        Codepoint { codepoint: 0x13189, name: "EGYPTIAN HIEROGLYPH I002", aliases: &[] },
        Codepoint { codepoint: 0x1318A, name: "EGYPTIAN HIEROGLYPH I003", aliases: &[] },
        Codepoint { codepoint: 0x1318B, name: "EGYPTIAN HIEROGLYPH I004", aliases: &[] },
        Codepoint { codepoint: 0x1318C, name: "EGYPTIAN HIEROGLYPH I005", aliases: &[] },
        Codepoint { codepoint: 0x1318D, name: "EGYPTIAN HIEROGLYPH I005A", aliases: &[] },
        Codepoint { codepoint: 0x1318E, name: "EGYPTIAN HIEROGLYPH I006", aliases: &[] },
        Codepoint { codepoint: 0x1318F, name: "EGYPTIAN HIEROGLYPH I007", aliases: &[] },
        Codepoint { codepoint: 0x13190, name: "EGYPTIAN HIEROGLYPH I008", aliases: &[] },
        Codepoint { codepoint: 0x13191, name: "EGYPTIAN HIEROGLYPH I009", aliases: &[] },
        Codepoint { codepoint: 0x13192, name: "EGYPTIAN HIEROGLYPH I009A", aliases: &[] },
        Codepoint { codepoint: 0x13193, name: "EGYPTIAN HIEROGLYPH I010", aliases: &[] },
        Codepoint { codepoint: 0x13194, name: "EGYPTIAN HIEROGLYPH I010A", aliases: &[] },
        Codepoint { codepoint: 0x13195, name: "EGYPTIAN HIEROGLYPH I011", aliases: &[] },
        Codepoint { codepoint: 0x13196, name: "EGYPTIAN HIEROGLYPH I011A", aliases: &[] },
        Codepoint { codepoint: 0x13197, name: "EGYPTIAN HIEROGLYPH I012", aliases: &[] },
        Codepoint { codepoint: 0x13198, name: "EGYPTIAN HIEROGLYPH I013", aliases: &[] },
        Codepoint { codepoint: 0x13199, name: "EGYPTIAN HIEROGLYPH I014", aliases: &[] },
        Codepoint { codepoint: 0x1319A, name: "EGYPTIAN HIEROGLYPH I015", aliases: &[] },
        Codepoint { codepoint: 0x1319B, name: "EGYPTIAN HIEROGLYPH K001", aliases: &[] },
        Codepoint { codepoint: 0x1319C, name: "EGYPTIAN HIEROGLYPH K002", aliases: &[] },
        Codepoint { codepoint: 0x1319D, name: "EGYPTIAN HIEROGLYPH K003", aliases: &[] },
        Codepoint { codepoint: 0x1319E, name: "EGYPTIAN HIEROGLYPH K004", aliases: &[] },
        Codepoint { codepoint: 0x1319F, name: "EGYPTIAN HIEROGLYPH K005", aliases: &[] },
        Codepoint { codepoint: 0x131A0, name: "EGYPTIAN HIEROGLYPH K006", aliases: &[] },
        Codepoint { codepoint: 0x131A1, name: "EGYPTIAN HIEROGLYPH K007", aliases: &[] },
        Codepoint { codepoint: 0x131A2, name: "EGYPTIAN HIEROGLYPH K008", aliases: &[] },
        Codepoint { codepoint: 0x131A3, name: "EGYPTIAN HIEROGLYPH L001", aliases: &[] },
        Codepoint { codepoint: 0x131A4, name: "EGYPTIAN HIEROGLYPH L002", aliases: &[] },
        Codepoint { codepoint: 0x131A5, name: "EGYPTIAN HIEROGLYPH L002A", aliases: &[] },
        Codepoint { codepoint: 0x131A6, name: "EGYPTIAN HIEROGLYPH L003", aliases: &[] },
        Codepoint { codepoint: 0x131A7, name: "EGYPTIAN HIEROGLYPH L004", aliases: &[] },
        Codepoint { codepoint: 0x131A8, name: "EGYPTIAN HIEROGLYPH L005", aliases: &[] },
        Codepoint { codepoint: 0x131A9, name: "EGYPTIAN HIEROGLYPH L006", aliases: &[] },
        Codepoint { codepoint: 0x131AA, name: "EGYPTIAN HIEROGLYPH L006A", aliases: &[] },
        Codepoint { codepoint: 0x131AB, name: "EGYPTIAN HIEROGLYPH L007", aliases: &[] },
        Codepoint { codepoint: 0x131AC, name: "EGYPTIAN HIEROGLYPH L008", aliases: &[] },
    ];
    assert(v@ =~= codepoint_table_584());
    v
}

pub open spec fn codepoint_table_585() -> Seq<Codepoint> {
    seq![
        Codepoint { codepoint: 0x131AD, name: "EGYPTIAN HIEROGLYPH M001", aliases: &[] },
        Codepoint { codepoint: 0x131AE, name: "EGYPTIAN HIEROGLYPH M001A", aliases: &[] },
        Codepoint { codepoint: 0x131AF, name: "EGYPTIAN HIEROGLYPH M001B", aliases: &[] },
        Codepoint { codepoint: 0x131B0, name: "EGYPTIAN HIEROGLYPH M002", aliases: &[] },
        Codepoint { codepoint: 0x131B1, name: "EGYPTIAN HIEROGLYPH M003", aliases: &[] },
        Codepoint { codepoint: 0x131B2, name: "EGYPTIAN HIEROGLYPH M003A", aliases: &[] },
        Codepoint { codepoint: 0x131B3, name: "EGYPTIAN HIEROGLYPH M004", aliases: &[] },
        Codepoint { codepoint: 0x131B4, name: "EGYPTIAN HIEROGLYPH M005", aliases: &[] },
        Codepoint { codepoint: 0x131B5, name: "EGYPTIAN HIEROGLYPH M006", aliases: &[] },
        Codepoint { codepoint: 0x131B6, name: "EGYPTIAN HIEROGLYPH M007", aliases: &[] },
        Codepoint { codepoint: 0x131B7, name: "EGYPTIAN HIEROGLYPH M008", aliases: &[] },
        Codepoint { codepoint: 0x131B8, name: "EGYPTIAN HIEROGLYPH M009", aliases: &[] },
        Codepoint { codepoint: 0x131B9, name: "EGYPTIAN HIEROGLYPH M010", aliases: &[] },
        Codepoint { codepoint: 0x131BA, name: "EGYPTIAN HIEROGLYPH M010A", aliases: &[] },
        Codepoint { codepoint: 0x131BB, name: "EGYPTIAN HIEROGLYPH M011", aliases: &[] },
        Codepoint { codepoint: 0x131BC, name: "EGYPTIAN HIEROGLYPH M012", aliases: &[] },
        Codepoint { codepoint: 0x131BD, name: "EGYPTIAN HIEROGLYPH M012A", aliases: &[] },
        Codepoint { codepoint: 0x131BE, name: "EGYPTIAN HIEROGLYPH M012B", aliases: &[] },
        Codepoint { codepoint: 0x131BF, name: "EGYPTIAN HIEROGLYPH M012C", aliases: &[] },
        Codepoint { codepoint: 0x131C0, name: "EGYPTIAN HIEROGLYPH M012D", aliases: &[] },
        Codepoint { codepoint: 0x131C1, name: "EGYPTIAN HIEROGLYPH M012E", aliases: &[] },
        Codepoint { codepoint: 0x131C2, name: "EGYPTIAN HIEROGLYPH M012F", aliases: &[] },
        Codepoint { codepoint: 0x131C3, name: "EGYPTIAN HIEROGLYPH M012G", aliases: &[] },
        Codepoint { codepoint: 0x131C4, name: "EGYPTIAN HIEROGLYPH M012H", aliases: &[] },
        Codepoint { codepoint: 0x131C5, name: "EGYPTIAN HIEROGLYPH M013", aliases: &[] },
        Codepoint { codepoint: 0x131C6, name: "EGYPTIAN HIEROGLYPH M014", aliases: &[] },
        Codepoint { codepoint: 0x131C7, name: "EGYPTIAN HIEROGLYPH M015", aliases: &[] },
        Codepoint { codepoint: 0x131C8, name: "EGYPTIAN HIEROGLYPH M015A", aliases: &[] },
        Codepoint { codepoint: 0x131C9, name: "EGYPTIAN HIEROGLYPH M016", aliases: &[] },
        Codepoint { codepoint: 0x131CA, name: "EGYPTIAN HIEROGLYPH M016A", aliases: &[] },
        Codepoint { codepoint: 0x131CB, name: "EGYPTIAN HIEROGLYPH M017", aliases: &[] },
        Codepoint { codepoint: 0x131CC, name: "EGYPTIAN HIEROGLYPH M017A", aliases: &[] },
        Codepoint { codepoint: 0x131CD, name: "EGYPTIAN HIEROGLYPH M018", aliases: &[] },
        Codepoint { codepoint: 0x131CE, name: "EGYPTIAN HIEROGLYPH M019", aliases: &[] },
        Codepoint { codepoint: 0x131CF, name: "EGYPTIAN HIEROGLYPH M020", aliases: &[] },
        Codepoint { codepoint: 0x131D0, name: "EGYPTIAN HIEROGLYPH M021", aliases: &[] },
        Codepoint { codepoint: 0x131D1, name: "EGYPTIAN HIEROGLYPH M022", aliases: &[] },
        Codepoint { codepoint: 0x131D2, name: "EGYPTIAN HIEROGLYPH M022A", aliases: &[] },
        Codepoint { codepoint: 0x131D3, name: "EGYPTIAN HIEROGLYPH M023", aliases: &[] },
        Codepoint { codepoint: 0x131D4, name: "EGYPTIAN HIEROGLYPH M024", aliases: &[] },
    ]
}

fn all_codepoints_585() -> (v: Vec<Codepoint>)
    ensures
        v@ == codepoint_table_585(),
{
    let v = vec![
        Codepoint { codepoint: 0x131AD, name: "EGYPTIAN HIEROGLYPH M001", aliases: &[] },
        Codepoint { codepoint: 0x131AE, name: "EGYPTIAN HIEROGLYPH M001A", aliases: &[] },
        Codepoint { codepoint: 0x131AF, name: "EGYPTIAN HIEROGLYPH M001B", aliases: &[] },
        Codepoint { codepoint: 0x131B0, name: "EGYPTIAN HIEROGLYPH M002", aliases: &[] },
        Codepoint { codepoint: 0x131B1, name: "EGYPTIAN HIEROGLYPH M003", aliases: &[] },
        Codepoint { codepoint: 0x131B2, name: "EGYPTIAN HIEROGLYPH M003A", aliases: &[] },
        Codepoint { codepoint: 0x131B3, name: "EGYPTIAN HIEROGLYPH M004", aliases: &[] },
        Codepoint { codepoint: 0x131B4, name: "EGYPTIAN HIEROGLYPH M005", aliases: &[] },
        Codepoint { codepoint: 0x131B5, name: "EGYPTIAN HIEROGLYPH M006", aliases: &[] },
        Codepoint { codepoint: 0x131B6, name: "EGYPTIAN HIEROGLYPH M007", aliases: &[] },
        Codepoint { codepoint: 0x131B7, name: "EGYPTIAN HIEROGLYPH M008", aliases: &[] },
        Codepoint { codepoint: 0x131B8, name: "EGYPTIAN HIEROGLYPH M009", aliases: &[] },
        Codepoint { codepoint: 0x131B9, name: "EGYPTIAN HIEROGLYPH M010", aliases: &[] },
        Codepoint { codepoint: 0x131BA, name: "EGYPTIAN HIEROGLYPH M010A", aliases: &[] },
        Codepoint { codepoint: 0x131BB, name: "EGYPTIAN HIEROGLYPH M011", aliases: &[] },
        Codepoint { codepoint: 0x131BC, name: "EGYPTIAN HIEROGLYPH M012", aliases: &[] },
        Codepoint { codepoint: 0x131BD, name: "EGYPTIAN HIEROGLYPH M012A", aliases: &[] },
        Codepoint { codepoint: 0x131BE, name: "EGYPTIAN HIEROGLYPH M012B", aliases: &[] },
        Codepoint { codepoint: 0x131BF, name: "EGYPTIAN HIEROGLYPH M012C", aliases: &[] },
        Codepoint { codepoint: 0x131C0, name: "EGYPTIAN HIEROGLYPH M012D", aliases: &[] },
        Codepoint { codepoint: 0x131C1, name: "EGYPTIAN HIEROGLYPH M012E", aliases: &[] },
        Codepoint { codepoint: 0x131C2, name: "EGYPTIAN HIEROGLYPH M012F", aliases: &[] },
        Codepoint { codepoint: 0x131C3, name: "EGYPTIAN HIEROGLYPH M012G", aliases: &[] },
        Codepoint { codepoint: 0x131C4, name: "EGYPTIAN HIEROGLYPH M012H", aliases: &[] },
        Codepoint { codepoint: 0x131C5, name: "EGYPTIAN HIEROGLYPH M013", aliases: &[] },
        Codepoint { codepoint: 0x131C6, name: "EGYPTIAN HIEROGLYPH M014", aliases: &[] },
        Codepoint { codepoint: 0x131C7, name: "EGYPTIAN HIEROGLYPH M015", aliases: &[] },
        Codepoint { codepoint: 0x131C8, name: "EGYPTIAN HIEROGLYPH M015A", aliases: &[] },
        Codepoint { codepoint: 0x131C9, name: "EGYPTIAN HIEROGLYPH M016", aliases: &[] },
        Codepoint { codepoint: 0x131CA, name: "EGYPTIAN HIEROGLYPH M016A", aliases: &[] },
        Codepoint { codepoint: 0x131CB, name: "EGYPTIAN HIEROGLYPH M017", aliases: &[] },
        Codepoint { codepoint: 0x131CC, name: "EGYPTIAN HIEROGLYPH M017A", aliases: &[] },
        Codepoint { codepoint: 0x131CD, name: "EGYPTIAN HIEROGLYPH M018", aliases: &[] },
        Codepoint { codepoint: 0x131CE, name: "EGYPTIAN HIEROGLYPH M019", aliases: &[] },
        Codepoint { codepoint: 0x131CF, name: "EGYPTIAN HIEROGLYPH M020", aliases: &[] },
        Codepoint { codepoint: 0x131D0, name: "EGYPTIAN HIEROGLYPH M021", aliases: &[] },
        Codepoint { codepoint: 0x131D1, name: "EGYPTIAN HIEROGLYPH M022", aliases: &[] },
        Codepoint { codepoint: 0x131D2, name: "EGYPTIAN HIEROGLYPH M022A", aliases: &[] },
        Codepoint { codepoint: 0x131D3, name: "EGYPTIAN HIEROGLYPH M023", aliases: &[] },
        Codepoint { codepoint: 0x131D4, name: "EGYPTIAN HIEROGLYPH M024", aliases: &[] },
    ];
    assert(v@ =~= codepoint_table_585());
    v
}

pub open spec fn codepoint_table_586() -> Seq<Codepoint> {
    seq![
        Codepoint { codepoint: 0x131D5, name: "EGYPTIAN HIEROGLYPH M024A", aliases: &[] },
        Codepoint { codepoint: 0x131D6, name: "EGYPTIAN HIEROGLYPH M025", aliases: &[] },
        Codepoint { codepoint: 0x131D7, name: "EGYPTIAN HIEROGLYPH M026", aliases: &[] },
        Codepoint { codepoint: 0x131D8, name: "EGYPTIAN HIEROGLYPH M027", aliases: &[] },
        Codepoint { codepoint: 0x131D9, name: "EGYPTIAN HIEROGLYPH M028", aliases: &[] },
        Codepoint { codepoint: 0x131DA, name: "EGYPTIAN HIEROGLYPH M028A", aliases: &[] },
        Codepoint { codepoint: 0x131DB, name: "EGYPTIAN HIEROGLYPH M029", aliases: &[] },
        Codepoint { codepoint: 0x131DC, name: "EGYPTIAN HIEROGLYPH M030", aliases: &[] },
        Codepoint { codepoint: 0x131DD, name: "EGYPTIAN HIEROGLYPH M031", aliases: &[] },
        Codepoint { codepoint: 0x131DE, name: "EGYPTIAN HIEROGLYPH M031A", aliases: &[] },
        Codepoint { codepoint: 0x131DF, name: "EGYPTIAN HIEROGLYPH M032", aliases: &[] },
        Codepoint { codepoint: 0x131E0, name: "EGYPTIAN HIEROGLYPH M033", aliases: &[] },
        Codepoint { codepoint: 0x131E1, name: "EGYPTIAN HIEROGLYPH M033A", aliases: &[] },
        Codepoint { codepoint: 0x131E2, name: "EGYPTIAN HIEROGLYPH M033B", aliases: &[] },
        Codepoint { codepoint: 0x131E3, name: "EGYPTIAN HIEROGLYPH M034", aliases: &[] },
        Codepoint { codepoint: 0x131E4, name: "EGYPTIAN HIEROGLYPH M035", aliases: &[] },
        Codepoint { codepoint: 0x131E5, name: "EGYPTIAN HIEROGLYPH M036", aliases: &[] },
        Codepoint { codepoint: 0x131E6, name: "EGYPTIAN HIEROGLYPH M037", aliases: &[] },
        Codepoint { codepoint: 0x131E7, name: "EGYPTIAN HIEROGLYPH M038", aliases: &[] },
        Codepoint { codepoint: 0x131E8, name: "EGYPTIAN HIEROGLYPH M039", aliases: &[] },
        Codepoint { codepoint: 0x131E9, name: "EGYPTIAN HIEROGLYPH M040", aliases: &[] },
        Codepoint { codepoint: 0x131EA, name: "EGYPTIAN HIEROGLYPH M040A", aliases: &[] },
        Codepoint { codepoint: 0x131EB, name: "EGYPTIAN HIEROGLYPH M041", aliases: &[] },
        Codepoint { codepoint: 0x131EC, name: "EGYPTIAN HIEROGLYPH M042", aliases: &[] },
        Codepoint { codepoint: 0x131ED, name: "EGYPTIAN HIEROGLYPH M043", aliases: &[] },
        Codepoint { codepoint: 0x131EE, name: "EGYPTIAN HIEROGLYPH M044", aliases: &[] },
        Codepoint { codepoint: 0x131EF, name: "EGYPTIAN HIEROGLYPH N001", aliases: &[] },
        Codepoint { codepoint: 0x131F0, name: "EGYPTIAN HIEROGLYPH N002", aliases: &[] },
        Codepoint { codepoint: 0x131F1, name: "EGYPTIAN HIEROGLYPH N003", aliases: &[] },
        Codepoint { codepoint: 0x131F2, name: "EGYPTIAN HIEROGLYPH N004", aliases: &[] },
        Codepoint { codepoint: 0x131F3, name: "EGYPTIAN HIEROGLYPH N005", aliases: &[] },
        Codepoint { codepoint: 0x131F4, name: "EGYPTIAN HIEROGLYPH N006", aliases: &[] },
        Codepoint { codepoint: 0x131F5, name: "EGYPTIAN HIEROGLYPH N007", aliases: &[] },
        Codepoint { codepoint: 0x131F6, name: "EGYPTIAN HIEROGLYPH N008", aliases: &[] },
        Codepoint { codepoint: 0x131F7, name: "EGYPTIAN HIEROGLYPH N009", aliases: &[] },
        Codepoint { codepoint: 0x131F8, name: "EGYPTIAN HIEROGLYPH N010", aliases: &[] },
        Codepoint { codepoint: 0x131F9, name: "EGYPTIAN HIEROGLYPH N011", aliases: &[] },
        Codepoint { codepoint: 0x131FA, name: "EGYPTIAN HIEROGLYPH N012", aliases: &[] },
        Codepoint { codepoint: 0x131FB, name: "EGYPTIAN HIEROGLYPH N013", aliases: &[] },
        Codepoint { codepoint: 0x131FC, name: "EGYPTIAN HIEROGLYPH N014", aliases: &[] },
    ]
}

fn all_codepoints_586() -> (v: Vec<Codepoint>)
    ensures
        v@ == codepoint_table_586(),
{
    let v = vec![
        Codepoint { codepoint: 0x131D5, name: "EGYPTIAN HIEROGLYPH M024A", aliases: &[] },
        Codepoint { codepoint: 0x131D6, name: "EGYPTIAN HIEROGLYPH M025", aliases: &[] },
        Codepoint { codepoint: 0x131D7, name: "EGYPTIAN HIEROGLYPH M026", aliases: &[] },
        Codepoint { codepoint: 0x131D8, name: "EGYPTIAN HIEROGLYPH M027", aliases: &[] },
        Codepoint { codepoint: 0x131D9, name: "EGYPTIAN HIEROGLYPH M028", aliases: &[] },
        Codepoint { codepoint: 0x131DA, name: "EGYPTIAN HIEROGLYPH M028A", aliases: &[] },
        Codepoint { codepoint: 0x131DB, name: "EGYPTIAN HIEROGLYPH M029", aliases: &[] },
        Codepoint { codepoint: 0x131DC, name: "EGYPTIAN HIEROGLYPH M030", aliases: &[] },
        Codepoint { codepoint: 0x131DD, name: "EGYPTIAN HIEROGLYPH M031", aliases: &[] },
        Codepoint { codepoint: 0x131DE, name: "EGYPTIAN HIEROGLYPH M031A", aliases: &[] },
        Codepoint { codepoint: 0x131DF, name: "EGYPTIAN HIEROGLYPH M032", aliases: &[] },
        Codepoint { codepoint: 0x131E0, name: "EGYPTIAN HIEROGLYPH M033", aliases: &[] },
        Codepoint { codepoint: 0x131E1, name: "EGYPTIAN HIEROGLYPH M033A", aliases: &[] },
        Codepoint { codepoint: 0x131E2, name: "EGYPTIAN HIEROGLYPH M033B", aliases: &[] },
        Codepoint { codepoint: 0x131E3, name: "EGYPTIAN HIEROGLYPH M034", aliases: &[] },
        Codepoint { codepoint: 0x131E4, name: "EGYPTIAN HIEROGLYPH M035", aliases: &[] },
        Codepoint { codepoint: 0x131E5, name: "EGYPTIAN HIEROGLYPH M036", aliases: &[] },
        Codepoint { codepoint: 0x131E6, name: "EGYPTIAN HIEROGLYPH M037", aliases: &[] },
        Codepoint { codepoint: 0x131E7, name: "EGYPTIAN HIEROGLYPH M038", aliases: &[] },
        Codepoint { codepoint: 0x131E8, name: "EGYPTIAN HIEROGLYPH M039", aliases: &[] },
        Codepoint { codepoint: 0x131E9, name: "EGYPTIAN HIEROGLYPH M040", aliases: &[] },
        Codepoint { codepoint: 0x131EA, name: "EGYPTIAN HIEROGLYPH M040A", aliases: &[] },
        Codepoint { codepoint: 0x131EB, name: "EGYPTIAN HIEROGLYPH M041", aliases: &[] },
        Codepoint { codepoint: 0x131EC, name: "EGYPTIAN HIEROGLYPH M042", aliases: &[] },
        Codepoint { codepoint: 0x131ED, name: "EGYPTIAN HIEROGLYPH M043", aliases: &[] },
        Codepoint { codepoint: 0x131EE, name: "EGYPTIAN HIEROGLYPH M044", aliases: &[] },
        Codepoint { codepoint: 0x131EF, name: "EGYPTIAN HIEROGLYPH N001", aliases: &[] },
        Codepoint { codepoint: 0x131F0, name: "EGYPTIAN HIEROGLYPH N002", aliases: &[] },
        Codepoint { codepoint: 0x131F1, name: "EGYPTIAN HIEROGLYPH N003", aliases: &[] },
        Codepoint { codepoint: 0x131F2, name: "EGYPTIAN HIEROGLYPH N004", aliases: &[] },
        Codepoint { codepoint: 0x131F3, name: "EGYPTIAN HIEROGLYPH N005", aliases: &[] },
        Codepoint { codepoint: 0x131F4, name: "EGYPTIAN HIEROGLYPH N006", aliases: &[] },
        Codepoint { codepoint: 0x131F5, name: "EGYPTIAN HIEROGLYPH N007", aliases: &[] },
        Codepoint { codepoint: 0x131F6, name: "EGYPTIAN HIEROGLYPH N008", aliases: &[] },
        Codepoint { codepoint: 0x131F7, name: "EGYPTIAN HIEROGLYPH N009", aliases: &[] },
        Codepoint { codepoint: 0x131F8, name: "EGYPTIAN HIEROGLYPH N010", aliases: &[] },
        Codepoint { codepoint: 0x131F9, name: "EGYPTIAN HIEROGLYPH N011", aliases: &[] },
        Codepoint { codepoint: 0x131FA, name: "EGYPTIAN HIEROGLYPH N012", aliases: &[] },
        Codepoint { codepoint: 0x131FB, name: "EGYPTIAN HIEROGLYPH N013", aliases: &[] },
        Codepoint { codepoint: 0x131FC, name: "EGYPTIAN HIEROGLYPH N014", aliases: &[] },
    ];
    assert(v@ =~= codepoint_table_586());
    v
}

pub open spec fn codepoint_table_587() -> Seq<Codepoint> {
    seq![
        Codepoint { codepoint: 0x131FD, name: "EGYPTIAN HIEROGLYPH N015", aliases: &[] },
        Codepoint { codepoint: 0x131FE, name: "EGYPTIAN HIEROGLYPH N016", aliases: &[] },
        Codepoint { codepoint: 0x131FF, name: "EGYPTIAN HIEROGLYPH N017", aliases: &[] },
        Codepoint { codepoint: 0x13200, name: "EGYPTIAN HIEROGLYPH N018", aliases: &[] },
        Codepoint { codepoint: 0x13201, name: "EGYPTIAN HIEROGLYPH N018A", aliases: &[] },
        Codepoint { codepoint: 0x13202, name: "EGYPTIAN HIEROGLYPH N018B", aliases: &[] },
        Codepoint { codepoint: 0x13203, name: "EGYPTIAN HIEROGLYPH N019", aliases: &[] },
        Codepoint { codepoint: 0x13204, name: "EGYPTIAN HIEROGLYPH N020", aliases: &[] },
        Codepoint { codepoint: 0x13205, name: "EGYPTIAN HIEROGLYPH N021", aliases: &[] },
        Codepoint { codepoint: 0x13206, name: "EGYPTIAN HIEROGLYPH N022", aliases: &[] },
        Codepoint { codepoint: 0x13207, name: "EGYPTIAN HIEROGLYPH N023", aliases: &[] },
        Codepoint { codepoint: 0x13208, name: "EGYPTIAN HIEROGLYPH N024", aliases: &[] },
        Codepoint { codepoint: 0x13209, name: "EGYPTIAN HIEROGLYPH N025", aliases: &[] },
        Codepoint { codepoint: 0x1320A, name: "EGYPTIAN HIEROGLYPH N025A", aliases: &[] },
        Codepoint { codepoint: 0x1320B, name: "EGYPTIAN HIEROGLYPH N026", aliases: &[] },
        Codepoint { codepoint: 0x1320C, name: "EGYPTIAN HIEROGLYPH N027", aliases: &[] },
        Codepoint { codepoint: 0x1320D, name: "EGYPTIAN HIEROGLYPH N028", aliases: &[] },
        Codepoint { codepoint: 0x1320E, name: "EGYPTIAN HIEROGLYPH N029", aliases: &[] },
        Codepoint { codepoint: 0x1320F, name: "EGYPTIAN HIEROGLYPH N030", aliases: &[] },
        Codepoint { codepoint: 0x13210, name: "EGYPTIAN HIEROGLYPH N031", aliases: &[] },
        Codepoint { codepoint: 0x13211, name: "EGYPTIAN HIEROGLYPH N032", aliases: &[] },
        Codepoint { codepoint: 0x13212, name: "EGYPTIAN HIEROGLYPH N033", aliases: &[] },
        Codepoint { codepoint: 0x13213, name: "EGYPTIAN HIEROGLYPH N033A", aliases: &[] },
        Codepoint { codepoint: 0x13214, name: "EGYPTIAN HIEROGLYPH N034", aliases: &[] },
        Codepoint { codepoint: 0x13215, name: "EGYPTIAN HIEROGLYPH N034A", aliases: &[] },
        Codepoint { codepoint: 0x13216, name: "EGYPTIAN HIEROGLYPH N035", aliases: &[] },
        Codepoint { codepoint: 0x13217, name: "EGYPTIAN HIEROGLYPH N035A", aliases: &[] },
        Codepoint { codepoint: 0x13218, name: "EGYPTIAN HIEROGLYPH N036", aliases: &[] },
        Codepoint { codepoint: 0x13219, name: "EGYPTIAN HIEROGLYPH N037", aliases: &[] },
        Codepoint { codepoint: 0x1321A, name: "EGYPTIAN HIEROGLYPH N037A", aliases: &[] },
        Codepoint { codepoint: 0x1321B, name: "EGYPTIAN HIEROGLYPH N038", aliases: &[] },
        Codepoint { codepoint: 0x1321C, name: "EGYPTIAN HIEROGLYPH N039", aliases: &[] },
        Codepoint { codepoint: 0x1321D, name: "EGYPTIAN HIEROGLYPH N040", aliases: &[] },
        Codepoint { codepoint: 0x1321E, name: "EGYPTIAN HIEROGLYPH N041", aliases: &[] },
        Codepoint { codepoint: 0x1321F, name: "EGYPTIAN HIEROGLYPH N042", aliases: &[] },
        Codepoint { codepoint: 0x13220, name: "EGYPTIAN HIEROGLYPH NL001", aliases: &[] },
        Codepoint { codepoint: 0x13221, name: "EGYPTIAN HIEROGLYPH NL002", aliases: &[] },
        Codepoint { codepoint: 0x13222, name: "EGYPTIAN HIEROGLYPH NL003", aliases: &[] },
        Codepoint { codepoint: 0x13223, name: "EGYPTIAN HIEROGLYPH NL004", aliases: &[] },
        Codepoint { codepoint: 0x13224, name: "EGYPTIAN HIEROGLYPH NL005", aliases: &[] },
    ]
}

fn all_codepoints_587() -> (v: Vec<Codepoint>)
    ensures
        v@ == codepoint_table_587(),
{
    let v = vec![
        Codepoint { codepoint: 0x131FD, name: "EGYPTIAN HIEROGLYPH N015", aliases: &[] },
        Codepoint { codepoint: 0x131FE, name: "EGYPTIAN HIEROGLYPH N016", aliases: &[] },
        Codepoint { codepoint: 0x131FF, name: "EGYPTIAN HIEROGLYPH N017", aliases: &[] },
        Codepoint { codepoint: 0x13200, name: "EGYPTIAN HIEROGLYPH N018", aliases: &[] },
        Codepoint { codepoint: 0x13201, name: "EGYPTIAN HIEROGLYPH N018A", aliases: &[] },
        Codepoint { codepoint: 0x13202, name: "EGYPTIAN HIEROGLYPH N018B", aliases: &[] },
        Codepoint { codepoint: 0x13203, name: "EGYPTIAN HIEROGLYPH N019", aliases: &[] },
        Codepoint { codepoint: 0x13204, name: "EGYPTIAN HIEROGLYPH N020", aliases: &[] },
        Codepoint { codepoint: 0x13205, name: "EGYPTIAN HIEROGLYPH N021", aliases: &[] },
        Codepoint { codepoint: 0x13206, name: "EGYPTIAN HIEROGLYPH N022", aliases: &[] },
        Codepoint { codepoint: 0x13207, name: "EGYPTIAN HIEROGLYPH N023", aliases: &[] },
        Codepoint { codepoint: 0x13208, name: "EGYPTIAN HIEROGLYPH N024", aliases: &[] },
        Codepoint { codepoint: 0x13209, name: "EGYPTIAN HIEROGLYPH N025", aliases: &[] },
        Codepoint { codepoint: 0x1320A, name: "EGYPTIAN HIEROGLYPH N025A", aliases: &[] },
        Codepoint { codepoint: 0x1320B, name: "EGYPTIAN HIEROGLYPH N026", aliases: &[] },
        Codepoint { codepoint: 0x1320C, name: "EGYPTIAN HIEROGLYPH N027", aliases: &[] },
        Codepoint { codepoint: 0x1320D, name: "EGYPTIAN HIEROGLYPH N028", aliases: &[] },
        Codepoint { codepoint: 0x1320E, name: "EGYPTIAN HIEROGLYPH N029", aliases: &[] },
        Codepoint { codepoint: 0x1320F, name: "EGYPTIAN HIEROGLYPH N030", aliases: &[] },
        Codepoint { codepoint: 0x13210, name: "EGYPTIAN HIEROGLYPH N031", aliases: &[] },
        Codepoint { codepoint: 0x13211, name: "EGYPTIAN HIEROGLYPH N032", aliases: &[] },
        Codepoint { codepoint: 0x13212, name: "EGYPTIAN HIEROGLYPH N033", aliases: &[] },
        Codepoint { codepoint: 0x13213, name: "EGYPTIAN HIEROGLYPH N033A", aliases: &[] },
        Codepoint { codepoint: 0x13214, name: "EGYPTIAN HIEROGLYPH N034", aliases: &[] },
        Codepoint { codepoint: 0x13215, name: "EGYPTIAN HIEROGLYPH N034A", aliases: &[] },
        Codepoint { codepoint: 0x13216, name: "EGYPTIAN HIEROGLYPH N035", aliases: &[] },
        Codepoint { codepoint: 0x13217, name: "EGYPTIAN HIEROGLYPH N035A", aliases: &[] },
        Codepoint { codepoint: 0x13218, name: "EGYPTIAN HIEROGLYPH N036", aliases: &[] },
        Codepoint { codepoint: 0x13219, name: "EGYPTIAN HIEROGLYPH N037", aliases: &[] },
        Codepoint { codepoint: 0x1321A, name: "EGYPTIAN HIEROGLYPH N037A", aliases: &[] },
        Codepoint { codepoint: 0x1321B, name: "EGYPTIAN HIEROGLYPH N038", aliases: &[] },
        Codepoint { codepoint: 0x1321C, name: "EGYPTIAN HIEROGLYPH N039", aliases: &[] },
        Codepoint { codepoint: 0x1321D, name: "EGYPTIAN HIEROGLYPH N040", aliases: &[] },
        Codepoint { codepoint: 0x1321E, name: "EGYPTIAN HIEROGLYPH N041", aliases: &[] },
        Codepoint { codepoint: 0x1321F, name: "EGYPTIAN HIEROGLYPH N042", aliases: &[] },
        Codepoint { codepoint: 0x13220, name: "EGYPTIAN HIEROGLYPH NL001", aliases: &[] },
        Codepoint { codepoint: 0x13221, name: "EGYPTIAN HIEROGLYPH NL002", aliases: &[] },
        Codepoint { codepoint: 0x13222, name: "EGYPTIAN HIEROGLYPH NL003", aliases: &[] },
        Codepoint { codepoint: 0x13223, name: "EGYPTIAN HIEROGLYPH NL004", aliases: &[] },
        Codepoint { codepoint: 0x13224, name: "EGYPTIAN HIEROGLYPH NL005", aliases: &[] },
    ];
    assert(v@ =~= codepoint_table_587());
    v
}

pub open spec fn codepoint_table_588() -> Seq<Codepoint> {
    seq![
        Codepoint { codepoint: 0x13225, name: "EGYPTIAN HIEROGLYPH NL005A", aliases: &[] },
        Codepoint { codepoint: 0x13226, name: "EGYPTIAN HIEROGLYPH NL006", aliases: &[] },
        Codepoint { codepoint: 0x13227, name: "EGYPTIAN HIEROGLYPH NL007", aliases: &[] },
        Codepoint { codepoint: 0x13228, name: "EGYPTIAN HIEROGLYPH NL008", aliases: &[] },
        Codepoint { codepoint: 0x13229, name: "EGYPTIAN HIEROGLYPH NL009", aliases: &[] },
        Codepoint { codepoint: 0x1322A, name: "EGYPTIAN HIEROGLYPH NL010", aliases: &[] },
        Codepoint { codepoint: 0x1322B, name: "EGYPTIAN HIEROGLYPH NL011", aliases: &[] },
        Codepoint { codepoint: 0x1322C, name: "EGYPTIAN HIEROGLYPH NL012", aliases: &[] },
        Codepoint { codepoint: 0x1322D, name: "EGYPTIAN HIEROGLYPH NL013", aliases: &[] },
        Codepoint { codepoint: 0x1322E, name: "EGYPTIAN HIEROGLYPH NL014", aliases: &[] },
        Codepoint { codepoint: 0x1322F, name: "EGYPTIAN HIEROGLYPH NL015", aliases: &[] },
        Codepoint { codepoint: 0x13230, name: "EGYPTIAN HIEROGLYPH NL016", aliases: &[] },
        Codepoint { codepoint: 0x13231, name: "EGYPTIAN HIEROGLYPH NL017", aliases: &[] },
        Codepoint { codepoint: 0x13232, name: "EGYPTIAN HIEROGLYPH NL017A", aliases: &[] },
        Codepoint { codepoint: 0x13233, name: "EGYPTIAN HIEROGLYPH NL018", aliases: &[] },
        Codepoint { codepoint: 0x13234, name: "EGYPTIAN HIEROGLYPH NL019", aliases: &[] },
        Codepoint { codepoint: 0x13235, name: "EGYPTIAN HIEROGLYPH NL020", aliases: &[] },
        Codepoint { codepoint: 0x13236, name: "EGYPTIAN HIEROGLYPH NU001", aliases: &[] },
        Codepoint { codepoint: 0x13237, name: "EGYPTIAN HIEROGLYPH NU002", aliases: &[] },
        Codepoint { codepoint: 0x13238, name: "EGYPTIAN HIEROGLYPH NU003", aliases: &[] },
        Codepoint { codepoint: 0x13239, name: "EGYPTIAN HIEROGLYPH NU004", aliases: &[] },
        Codepoint { codepoint: 0x1323A, name: "EGYPTIAN HIEROGLYPH NU005", aliases: &[] },
        Codepoint { codepoint: 0x1323B, name: "EGYPTIAN HIEROGLYPH NU006", aliases: &[] },
        Codepoint { codepoint: 0x1323C, name: "EGYPTIAN HIEROGLYPH NU007", aliases: &[] },
        Codepoint { codepoint: 0x1323D, name: "EGYPTIAN HIEROGLYPH NU008", aliases: &[] },
        Codepoint { codepoint: 0x1323E, name: "EGYPTIAN HIEROGLYPH NU009", aliases: &[] },
        Codepoint { codepoint: 0x1323F, name: "EGYPTIAN HIEROGLYPH NU010", aliases: &[] },
        Codepoint { codepoint: 0x13240, name: "EGYPTIAN HIEROGLYPH NU010A", aliases: &[] },
        Codepoint { codepoint: 0x13241, name: "EGYPTIAN HIEROGLYPH NU011", aliases: &[] },
        Codepoint { codepoint: 0x13242, name: "EGYPTIAN HIEROGLYPH NU011A", aliases: &[] },
        Codepoint { codepoint: 0x13243, name: "EGYPTIAN HIEROGLYPH NU012", aliases: &[] },
        Codepoint { codepoint: 0x13244, name: "EGYPTIAN HIEROGLYPH NU013", aliases: &[] },
        Codepoint { codepoint: 0x13245, name: "EGYPTIAN HIEROGLYPH NU014", aliases: &[] },
        Codepoint { codepoint: 0x13246, name: "EGYPTIAN HIEROGLYPH NU015", aliases: &[] },
        Codepoint { codepoint: 0x13247, name: "EGYPTIAN HIEROGLYPH NU016", aliases: &[] },
        Codepoint { codepoint: 0x13248, name: "EGYPTIAN HIEROGLYPH NU017", aliases: &[] },
        Codepoint { codepoint: 0x13249, name: "EGYPTIAN HIEROGLYPH NU018", aliases: &[] },
        Codepoint { codepoint: 0x1324A, name: "EGYPTIAN HIEROGLYPH NU018A", aliases: &[] },
        Codepoint { codepoint: 0x1324B, name: "EGYPTIAN HIEROGLYPH NU019", aliases: &[] },
        Codepoint { codepoint: 0x1324C, name: "EGYPTIAN HIEROGLYPH NU020", aliases: &[] },
    ]
}

fn all_codepoints_588() -> (v: Vec<Codepoint>)
    ensures
        v@ == codepoint_table_588(),
{
    let v = vec![
        Codepoint { codepoint: 0x13225, name: "EGYPTIAN HIEROGLYPH NL005A", aliases: &[] },
        Codepoint { codepoint: 0x13226, name: "EGYPTIAN HIEROGLYPH NL006", aliases: &[] },
        Codepoint { codepoint: 0x13227, name: "EGYPTIAN HIEROGLYPH NL007", aliases: &[] },
        Codepoint { codepoint: 0x13228, name: "EGYPTIAN HIEROGLYPH NL008", aliases: &[] },
        Codepoint { codepoint: 0x13229, name: "EGYPTIAN HIEROGLYPH NL009", aliases: &[] },
        Codepoint { codepoint: 0x1322A, name: "EGYPTIAN HIEROGLYPH NL010", aliases: &[] },
        Codepoint { codepoint: 0x1322B, name: "EGYPTIAN HIEROGLYPH NL011", aliases: &[] },
        Codepoint { codepoint: 0x1322C, name: "EGYPTIAN HIEROGLYPH NL012", aliases: &[] },
        Codepoint { codepoint: 0x1322D, name: "EGYPTIAN HIEROGLYPH NL013", aliases: &[] },
        Codepoint { codepoint: 0x1322E, name: "EGYPTIAN HIEROGLYPH NL014", aliases: &[] },
        Codepoint { codepoint: 0x1322F, name: "EGYPTIAN HIEROGLYPH NL015", aliases: &[] },
        Codepoint { codepoint: 0x13230, name: "EGYPTIAN HIEROGLYPH NL016", aliases: &[] },
        Codepoint { codepoint: 0x13231, name: "EGYPTIAN HIEROGLYPH NL017", aliases: &[] },
        Codepoint { codepoint: 0x13232, name: "EGYPTIAN HIEROGLYPH NL017A", aliases: &[] },
        Codepoint { codepoint: 0x13233, name: "EGYPTIAN HIEROGLYPH NL018", aliases: &[] },
        Codepoint { codepoint: 0x13234, name: "EGYPTIAN HIEROGLYPH NL019", aliases: &[] },
        Codepoint { codepoint: 0x13235, name: "EGYPTIAN HIEROGLYPH NL020", aliases: &[] },
        Codepoint { codepoint: 0x13236, name: "EGYPTIAN HIEROGLYPH NU001", aliases: &[] },
        Codepoint { codepoint: 0x13237, name: "EGYPTIAN HIEROGLYPH NU002", aliases: &[] },
        Codepoint { codepoint: 0x13238, name: "EGYPTIAN HIEROGLYPH NU003", aliases: &[] },
        Codepoint { codepoint: 0x13239, name: "EGYPTIAN HIEROGLYPH NU004", aliases: &[] },
        Codepoint { codepoint: 0x1323A, name: "EGYPTIAN HIEROGLYPH NU005", aliases: &[] },
        Codepoint { codepoint: 0x1323B, name: "EGYPTIAN HIEROGLYPH NU006", aliases: &[] },
        Codepoint { codepoint: 0x1323C, name: "EGYPTIAN HIEROGLYPH NU007", aliases: &[] },
        Codepoint { codepoint: 0x1323D, name: "EGYPTIAN HIEROGLYPH NU008", aliases: &[] },
        Codepoint { codepoint: 0x1323E, name: "EGYPTIAN HIEROGLYPH NU009", aliases: &[] },
        Codepoint { codepoint: 0x1323F, name: "EGYPTIAN HIEROGLYPH NU010", aliases: &[] },
        Codepoint { codepoint: 0x13240, name: "EGYPTIAN HIEROGLYPH NU010A", aliases: &[] },
        Codepoint { codepoint: 0x13241, name: "EGYPTIAN HIEROGLYPH NU011", aliases: &[] },
        Codepoint { codepoint: 0x13242, name: "EGYPTIAN HIEROGLYPH NU011A", aliases: &[] },
        Codepoint { codepoint: 0x13243, name: "EGYPTIAN HIEROGLYPH NU012", aliases: &[] },
        Codepoint { codepoint: 0x13244, name: "EGYPTIAN HIEROGLYPH NU013", aliases: &[] },
        Codepoint { codepoint: 0x13245, name: "EGYPTIAN HIEROGLYPH NU014", aliases: &[] },
        Codepoint { codepoint: 0x13246, name: "EGYPTIAN HIEROGLYPH NU015", aliases: &[] },
        Codepoint { codepoint: 0x13247, name: "EGYPTIAN HIEROGLYPH NU016", aliases: &[] },
        Codepoint { codepoint: 0x13248, name: "EGYPTIAN HIEROGLYPH NU017", aliases: &[] },
        Codepoint { codepoint: 0x13249, name: "EGYPTIAN HIEROGLYPH NU018", aliases: &[] },
        Codepoint { codepoint: 0x1324A, name: "EGYPTIAN HIEROGLYPH NU018A", aliases: &[] },
        Codepoint { codepoint: 0x1324B, name: "EGYPTIAN HIEROGLYPH NU019", aliases: &[] },
        Codepoint { codepoint: 0x1324C, name: "EGYPTIAN HIEROGLYPH NU020", aliases: &[] },
    ];
    assert(v@ =~= codepoint_table_588());
    v
}

pub open spec fn codepoint_table_589() -> Seq<Codepoint> {
    seq![
        Codepoint { codepoint: 0x1324D, name: "EGYPTIAN HIEROGLYPH NU021", aliases: &[] },
        Codepoint { codepoint: 0x1324E, name: "EGYPTIAN HIEROGLYPH NU022", aliases: &[] },
        Codepoint { codepoint: 0x1324F, name: "EGYPTIAN HIEROGLYPH NU022A", aliases: &[] },
        Codepoint { codepoint: 0x13250, name: "EGYPTIAN HIEROGLYPH O001", aliases: &[] },
        Codepoint { codepoint: 0x13251, name: "EGYPTIAN HIEROGLYPH O001A", aliases: &[] },
        Codepoint { codepoint: 0x13252, name: "EGYPTIAN HIEROGLYPH O002", aliases: &[] },
        Codepoint { codepoint: 0x13253, name: "EGYPTIAN HIEROGLYPH O003", aliases: &[] },
        Codepoint { codepoint: 0x13254, name: "EGYPTIAN HIEROGLYPH O004", aliases: &[] },
        Codepoint { codepoint: 0x13255, name: "EGYPTIAN HIEROGLYPH O005", aliases: &[] },
        Codepoint { codepoint: 0x13256, name: "EGYPTIAN HIEROGLYPH O005A", aliases: &[] },
        Codepoint { codepoint: 0x13257, name: "EGYPTIAN HIEROGLYPH O006", aliases: &[] },
        Codepoint { codepoint: 0x13258, name: "EGYPTIAN HIEROGLYPH O006A", aliases: &[] },
        Codepoint { codepoint: 0x13259, name: "EGYPTIAN HIEROGLYPH O006B", aliases: &[] },
        Codepoint { codepoint: 0x1325A, name: "EGYPTIAN HIEROGLYPH O006C", aliases: &[] },
        Codepoint { codepoint: 0x1325B, name: "EGYPTIAN HIEROGLYPH O006D", aliases: &[] },
        Codepoint { codepoint: 0x1325C, name: "EGYPTIAN HIEROGLYPH O006E", aliases: &[] },
        Codepoint { codepoint: 0x1325D, name: "EGYPTIAN HIEROGLYPH O006F", aliases: &[] },
        Codepoint { codepoint: 0x1325E, name: "EGYPTIAN HIEROGLYPH O007", aliases: &[] },
        Codepoint { codepoint: 0x1325F, name: "EGYPTIAN HIEROGLYPH O008", aliases: &[] },
        Codepoint { codepoint: 0x13260, name: "EGYPTIAN HIEROGLYPH O009", aliases: &[] },
        Codepoint { codepoint: 0x13261, name: "EGYPTIAN HIEROGLYPH O010", aliases: &[] },
        Codepoint { codepoint: 0x13262, name: "EGYPTIAN HIEROGLYPH O010A", aliases: &[] },
        Codepoint { codepoint: 0x13263, name: "EGYPTIAN HIEROGLYPH O010B", aliases: &[] },
        Codepoint { codepoint: 0x13264, name: "EGYPTIAN HIEROGLYPH O010C", aliases: &[] },
        Codepoint { codepoint: 0x13265, name: "EGYPTIAN HIEROGLYPH O011", aliases: &[] },
        Codepoint { codepoint: 0x13266, name: "EGYPTIAN HIEROGLYPH O012", aliases: &[] },
        Codepoint { codepoint: 0x13267, name: "EGYPTIAN HIEROGLYPH O013", aliases: &[] },
        Codepoint { codepoint: 0x13268, name: "EGYPTIAN HIEROGLYPH O014", aliases: &[] },
        Codepoint { codepoint: 0x13269, name: "EGYPTIAN HIEROGLYPH O015", aliases: &[] },
        Codepoint { codepoint: 0x1326A, name: "EGYPTIAN HIEROGLYPH O016", aliases: &[] },
        Codepoint { codepoint: 0x1326B, name: "EGYPTIAN HIEROGLYPH O017", aliases: &[] },
        Codepoint { codepoint: 0x1326C, name: "EGYPTIAN HIEROGLYPH O018", aliases: &[] },
        Codepoint { codepoint: 0x1326D, name: "EGYPTIAN HIEROGLYPH O019", aliases: &[] },
        Codepoint { codepoint: 0x1326E, name: "EGYPTIAN HIEROGLYPH O019A", aliases: &[] },
        Codepoint { codepoint: 0x1326F, name: "EGYPTIAN HIEROGLYPH O020", aliases: &[] },
        Codepoint { codepoint: 0x13270, name: "EGYPTIAN HIEROGLYPH O020A", aliases: &[] },
        Codepoint { codepoint: 0x13271, name: "EGYPTIAN HIEROGLYPH O021", aliases: &[] },
        Codepoint { codepoint: 0x13272, name: "EGYPTIAN HIEROGLYPH O022", aliases: &[] },
        Codepoint { codepoint: 0x13273, name: "EGYPTIAN HIEROGLYPH O023", aliases: &[] },
        Codepoint { codepoint: 0x13274, name: "EGYPTIAN HIEROGLYPH O024", aliases: &[] },
    ]
}

fn all_codepoints_589() -> (v: Vec<Codepoint>)
    ensures
        v@ == codepoint_table_589(),
{
    let v = vec![
        Codepoint { codepoint: 0x1324D, name: "EGYPTIAN HIEROGLYPH NU021", aliases: &[] },
        Codepoint { codepoint: 0x1324E, name: "EGYPTIAN HIEROGLYPH NU022", aliases: &[] },
        Codepoint { codepoint: 0x1324F, name: "EGYPTIAN HIEROGLYPH NU022A", aliases: &[] },
        Codepoint { codepoint: 0x13250, name: "EGYPTIAN HIEROGLYPH O001", aliases: &[] },
        Codepoint { codepoint: 0x13251, name: "EGYPTIAN HIEROGLYPH O001A", aliases: &[] },
        Codepoint { codepoint: 0x13252, name: "EGYPTIAN HIEROGLYPH O002", aliases: &[] },
        Codepoint { codepoint: 0x13253, name: "EGYPTIAN HIEROGLYPH O003", aliases: &[] },
        Codepoint { codepoint: 0x13254, name: "EGYPTIAN HIEROGLYPH O004", aliases: &[] },
        Codepoint { codepoint: 0x13255, name: "EGYPTIAN HIEROGLYPH O005", aliases: &[] },
        Codepoint { codepoint: 0x13256, name: "EGYPTIAN HIEROGLYPH O005A", aliases: &[] },
        Codepoint { codepoint: 0x13257, name: "EGYPTIAN HIEROGLYPH O006", aliases: &[] },
        Codepoint { codepoint: 0x13258, name: "EGYPTIAN HIEROGLYPH O006A", aliases: &[] },
        Codepoint { codepoint: 0x13259, name: "EGYPTIAN HIEROGLYPH O006B", aliases: &[] },
        Codepoint { codepoint: 0x1325A, name: "EGYPTIAN HIEROGLYPH O006C", aliases: &[] },
        Codepoint { codepoint: 0x1325B, name: "EGYPTIAN HIEROGLYPH O006D", aliases: &[] },
        Codepoint { codepoint: 0x1325C, name: "EGYPTIAN HIEROGLYPH O006E", aliases: &[] },
        Codepoint { codepoint: 0x1325D, name: "EGYPTIAN HIEROGLYPH O006F", aliases: &[] },
        Codepoint { codepoint: 0x1325E, name: "EGYPTIAN HIEROGLYPH O007", aliases: &[] },
        Codepoint { codepoint: 0x1325F, name: "EGYPTIAN HIEROGLYPH O008", aliases: &[] },
        Codepoint { codepoint: 0x13260, name: "EGYPTIAN HIEROGLYPH O009", aliases: &[] },
        Codepoint { codepoint: 0x13261, name: "EGYPTIAN HIEROGLYPH O010", aliases: &[] },
        Codepoint { codepoint: 0x13262, name: "EGYPTIAN HIEROGLYPH O010A", aliases: &[] },
        Codepoint { codepoint: 0x13263, name: "EGYPTIAN HIEROGLYPH O010B", aliases: &[] },
        Codepoint { codepoint: 0x13264, name: "EGYPTIAN HIEROGLYPH O010C", aliases: &[] },
        Codepoint { codepoint: 0x13265, name: "EGYPTIAN HIEROGLYPH O011", aliases: &[] },
        Codepoint { codepoint: 0x13266, name: "EGYPTIAN HIEROGLYPH O012", aliases: &[] },
        Codepoint { codepoint: 0x13267, name: "EGYPTIAN HIEROGLYPH O013", aliases: &[] },
        Codepoint { codepoint: 0x13268, name: "EGYPTIAN HIEROGLYPH O014", aliases: &[] },
        Codepoint { codepoint: 0x13269, name: "EGYPTIAN HIEROGLYPH O015", aliases: &[] },
        Codepoint { codepoint: 0x1326A, name: "EGYPTIAN HIEROGLYPH O016", aliases: &[] },
        Codepoint { codepoint: 0x1326B, name: "EGYPTIAN HIEROGLYPH O017", aliases: &[] },
        Codepoint { codepoint: 0x1326C, name: "EGYPTIAN HIEROGLYPH O018", aliases: &[] },
        Codepoint { codepoint: 0x1326D, name: "EGYPTIAN HIEROGLYPH O019", aliases: &[] },
        Codepoint { codepoint: 0x1326E, name: "EGYPTIAN HIEROGLYPH O019A", aliases: &[] },
        Codepoint { codepoint: 0x1326F, name: "EGYPTIAN HIEROGLYPH O020", aliases: &[] },
        Codepoint { codepoint: 0x13270, name: "EGYPTIAN HIEROGLYPH O020A", aliases: &[] },
        Codepoint { codepoint: 0x13271, name: "EGYPTIAN HIEROGLYPH O021", aliases: &[] },
        Codepoint { codepoint: 0x13272, name: "EGYPTIAN HIEROGLYPH O022", aliases: &[] },
        Codepoint { codepoint: 0x13273, name: "EGYPTIAN HIEROGLYPH O023", aliases: &[] },
        Codepoint { codepoint: 0x13274, name: "EGYPTIAN HIEROGLYPH O024", aliases: &[] },
    ];
    assert(v@ =~= codepoint_table_589());
    v
}

pub open spec fn codepoint_table_590() -> Seq<Codepoint> {
    seq![
        Codepoint { codepoint: 0x13275, name: "EGYPTIAN HIEROGLYPH O024A", aliases: &[] },
        Codepoint { codepoint: 0x13276, name: "EGYPTIAN HIEROGLYPH O025", aliases: &[] },
        Codepoint { codepoint: 0x13277, name: "EGYPTIAN HIEROGLYPH O025A", aliases: &[] },
        Codepoint { codepoint: 0x13278, name: "EGYPTIAN HIEROGLYPH O026", aliases: &[] },
        Codepoint { codepoint: 0x13279, name: "EGYPTIAN HIEROGLYPH O027", aliases: &[] },
        Codepoint { codepoint: 0x1327A, name: "EGYPTIAN HIEROGLYPH O028", aliases: &[] },
        Codepoint { codepoint: 0x1327B, name: "EGYPTIAN HIEROGLYPH O029", aliases: &[] },
        Codepoint { codepoint: 0x1327C, name: "EGYPTIAN HIEROGLYPH O029A", aliases: &[] },
        Codepoint { codepoint: 0x1327D, name: "EGYPTIAN HIEROGLYPH O030", aliases: &[] },
        Codepoint { codepoint: 0x1327E, name: "EGYPTIAN HIEROGLYPH O030A", aliases: &[] },
        Codepoint { codepoint: 0x1327F, name: "EGYPTIAN HIEROGLYPH O031", aliases: &[] },
        Codepoint { codepoint: 0x13280, name: "EGYPTIAN HIEROGLYPH O032", aliases: &[] },
        Codepoint { codepoint: 0x13281, name: "EGYPTIAN HIEROGLYPH O033", aliases: &[] },
        Codepoint { codepoint: 0x13282, name: "EGYPTIAN HIEROGLYPH O033A", aliases: &[] },
        Codepoint { codepoint: 0x13283, name: "EGYPTIAN HIEROGLYPH O034", aliases: &[] },
        Codepoint { codepoint: 0x13284, name: "EGYPTIAN HIEROGLYPH O035", aliases: &[] },
        Codepoint { codepoint: 0x13285, name: "EGYPTIAN HIEROGLYPH O036", aliases: &[] },
        Codepoint { codepoint: 0x13286, name: "EGYPTIAN HIEROGLYPH O036A", aliases: &[] },
        Codepoint { codepoint: 0x13287, name: "EGYPTIAN HIEROGLYPH O036B", aliases: &[] },
        Codepoint { codepoint: 0x13288, name: "EGYPTIAN HIEROGLYPH O036C", aliases: &[] },
        Codepoint { codepoint: 0x13289, name: "EGYPTIAN HIEROGLYPH O036D", aliases: &[] },
        Codepoint { codepoint: 0x1328A, name: "EGYPTIAN HIEROGLYPH O037", aliases: &[] },
        Codepoint { codepoint: 0x1328B, name: "EGYPTIAN HIEROGLYPH O038", aliases: &[] },
        Codepoint { codepoint: 0x1328C, name: "EGYPTIAN HIEROGLYPH O039", aliases: &[] },
        Codepoint { codepoint: 0x1328D, name: "EGYPTIAN HIEROGLYPH O040", aliases: &[] },
        Codepoint { codepoint: 0x1328E, name: "EGYPTIAN HIEROGLYPH O041", aliases: &[] },
        Codepoint { codepoint: 0x1328F, name: "EGYPTIAN HIEROGLYPH O042", aliases: &[] },
        Codepoint { codepoint: 0x13290, name: "EGYPTIAN HIEROGLYPH O043", aliases: &[] },
        Codepoint { codepoint: 0x13291, name: "EGYPTIAN HIEROGLYPH O044", aliases: &[] },
        Codepoint { codepoint: 0x13292, name: "EGYPTIAN HIEROGLYPH O045", aliases: &[] },
        Codepoint { codepoint: 0x13293, name: "EGYPTIAN HIEROGLYPH O046", aliases: &[] },
        Codepoint { codepoint: 0x13294, name: "EGYPTIAN HIEROGLYPH O047", aliases: &[] },
        Codepoint { codepoint: 0x13295, name: "EGYPTIAN HIEROGLYPH O048", aliases: &[] },
        Codepoint { codepoint: 0x13296, name: "EGYPTIAN HIEROGLYPH O049", aliases: &[] },
        Codepoint { codepoint: 0x13297, name: "EGYPTIAN HIEROGLYPH O050", aliases: &[] },
        Codepoint { codepoint: 0x13298, name: "EGYPTIAN HIEROGLYPH O050A", aliases: &[] },
        Codepoint { codepoint: 0x13299, name: "EGYPTIAN HIEROGLYPH O050B", aliases: &[] },
        Codepoint { codepoint: 0x1329A, name: "EGYPTIAN HIEROGLYPH O051", aliases: &[] },
        Codepoint { codepoint: 0x1329B, name: "EGYPTIAN HIEROGLYPH P001", aliases: &[] },
        Codepoint { codepoint: 0x1329C, name: "EGYPTIAN HIEROGLYPH P001A", aliases: &[] },
    ]
}

fn all_codepoints_590() -> (v: Vec<Codepoint>)
    ensures
        v@ == codepoint_table_590(),
{
    let v = vec![
        Codepoint { codepoint: 0x13275, name: "EGYPTIAN HIEROGLYPH O024A", aliases: &[] },
        Codepoint { codepoint: 0x13276, name: "EGYPTIAN HIEROGLYPH O025", aliases: &[] },
        Codepoint { codepoint: 0x13277, name: "EGYPTIAN HIEROGLYPH O025A", aliases: &[] },
        Codepoint { codepoint: 0x13278, name: "EGYPTIAN HIEROGLYPH O026", aliases: &[] },
        Codepoint { codepoint: 0x13279, name: "EGYPTIAN HIEROGLYPH O027", aliases: &[] },
        Codepoint { codepoint: 0x1327A, name: "EGYPTIAN HIEROGLYPH O028", aliases: &[] },
        Codepoint { codepoint: 0x1327B, name: "EGYPTIAN HIEROGLYPH O029", aliases: &[] },
        Codepoint { codepoint: 0x1327C, name: "EGYPTIAN HIEROGLYPH O029A", aliases: &[] },
        Codepoint { codepoint: 0x1327D, name: "EGYPTIAN HIEROGLYPH O030", aliases: &[] },
        Codepoint { codepoint: 0x1327E, name: "EGYPTIAN HIEROGLYPH O030A", aliases: &[] },
        Codepoint { codepoint: 0x1327F, name: "EGYPTIAN HIEROGLYPH O031", aliases: &[] },
        Codepoint { codepoint: 0x13280, name: "EGYPTIAN HIEROGLYPH O032", aliases: &[] },
        Codepoint { codepoint: 0x13281, name: "EGYPTIAN HIEROGLYPH O033", aliases: &[] },
        Codepoint { codepoint: 0x13282, name: "EGYPTIAN HIEROGLYPH O033A", aliases: &[] },
        Codepoint { codepoint: 0x13283, name: "EGYPTIAN HIEROGLYPH O034", aliases: &[] },
        Codepoint { codepoint: 0x13284, name: "EGYPTIAN HIEROGLYPH O035", aliases: &[] },
        Codepoint { codepoint: 0x13285, name: "EGYPTIAN HIEROGLYPH O036", aliases: &[] },
        Codepoint { codepoint: 0x13286, name: "EGYPTIAN HIEROGLYPH O036A", aliases: &[] },
        Codepoint { codepoint: 0x13287, name: "EGYPTIAN HIEROGLYPH O036B", aliases: &[] },
        Codepoint { codepoint: 0x13288, name: "EGYPTIAN HIEROGLYPH O036C", aliases: &[] },
        Codepoint { codepoint: 0x13289, name: "EGYPTIAN HIEROGLYPH O036D", aliases: &[] },
        Codepoint { codepoint: 0x1328A, name: "EGYPTIAN HIEROGLYPH O037", aliases: &[] },
        Codepoint { codepoint: 0x1328B, name: "EGYPTIAN HIEROGLYPH O038", aliases: &[] },
        Codepoint { codepoint: 0x1328C, name: "EGYPTIAN HIEROGLYPH O039", aliases: &[] },
        Codepoint { codepoint: 0x1328D, name: "EGYPTIAN HIEROGLYPH O040", aliases: &[] },
        Codepoint { codepoint: 0x1328E, name: "EGYPTIAN HIEROGLYPH O041", aliases: &[] },
        Codepoint { codepoint: 0x1328F, name: "EGYPTIAN HIEROGLYPH O042", aliases: &[] },
        Codepoint { codepoint: 0x13290, name: "EGYPTIAN HIEROGLYPH O043", aliases: &[] },
        Codepoint { codepoint: 0x13291, name: "EGYPTIAN HIEROGLYPH O044", aliases: &[] },
        Codepoint { codepoint: 0x13292, name: "EGYPTIAN HIEROGLYPH O045", aliases: &[] },
        Codepoint { codepoint: 0x13293, name: "EGYPTIAN HIEROGLYPH O046", aliases: &[] },
        Codepoint { codepoint: 0x13294, name: "EGYPTIAN HIEROGLYPH O047", aliases: &[] },
        Codepoint { codepoint: 0x13295, name: "EGYPTIAN HIEROGLYPH O048", aliases: &[] },
        Codepoint { codepoint: 0x13296, name: "EGYPTIAN HIEROGLYPH O049", aliases: &[] },
        Codepoint { codepoint: 0x13297, name: "EGYPTIAN HIEROGLYPH O050", aliases: &[] },
        Codepoint { codepoint: 0x13298, name: "EGYPTIAN HIEROGLYPH O050A", aliases: &[] },
        Codepoint { codepoint: 0x13299, name: "EGYPTIAN HIEROGLYPH O050B", aliases: &[] },
        Codepoint { codepoint: 0x1329A, name: "EGYPTIAN HIEROGLYPH O051", aliases: &[] },
        Codepoint { codepoint: 0x1329B, name: "EGYPTIAN HIEROGLYPH P001", aliases: &[] },
        Codepoint { codepoint: 0x1329C, name: "EGYPTIAN HIEROGLYPH P001A", aliases: &[] },
    ];
    assert(v@ =~= codepoint_table_590());
    v
}

pub open spec fn codepoint_table_591() -> Seq<Codepoint> {
    seq![
        Codepoint { codepoint: 0x1329D, name: "EGYPTIAN HIEROGLYPH P002", aliases: &[] },
        Codepoint { codepoint: 0x1329E, name: "EGYPTIAN HIEROGLYPH P003", aliases: &[] },
        Codepoint { codepoint: 0x1329F, name: "EGYPTIAN HIEROGLYPH P003A", aliases: &[] },
        Codepoint { codepoint: 0x132A0, name: "EGYPTIAN HIEROGLYPH P004", aliases: &[] },
        Codepoint { codepoint: 0x132A1, name: "EGYPTIAN HIEROGLYPH P005", aliases: &[] },
        Codepoint { codepoint: 0x132A2, name: "EGYPTIAN HIEROGLYPH P006", aliases: &[] },
        Codepoint { codepoint: 0x132A3, name: "EGYPTIAN HIEROGLYPH P007", aliases: &[] },
        Codepoint { codepoint: 0x132A4, name: "EGYPTIAN HIEROGLYPH P008", aliases: &[] },
        Codepoint { codepoint: 0x132A5, name: "EGYPTIAN HIEROGLYPH P009", aliases: &[] },
        Codepoint { codepoint: 0x132A6, name: "EGYPTIAN HIEROGLYPH P010", aliases: &[] },
        Codepoint { codepoint: 0x132A7, name: "EGYPTIAN HIEROGLYPH P011", aliases: &[] },
        Codepoint { codepoint: 0x132A8, name: "EGYPTIAN HIEROGLYPH Q001", aliases: &[] },
        Codepoint { codepoint: 0x132A9, name: "EGYPTIAN HIEROGLYPH Q002", aliases: &[] },
        Codepoint { codepoint: 0x132AA, name: "EGYPTIAN HIEROGLYPH Q003", aliases: &[] },
        Codepoint { codepoint: 0x132AB, name: "EGYPTIAN HIEROGLYPH Q004", aliases: &[] },
        Codepoint { codepoint: 0x132AC, name: "EGYPTIAN HIEROGLYPH Q005", aliases: &[] },
        Codepoint { codepoint: 0x132AD, name: "EGYPTIAN HIEROGLYPH Q006", aliases: &[] },
        Codepoint { codepoint: 0x132AE, name: "EGYPTIAN HIEROGLYPH Q007", aliases: &[] },
        Codepoint { codepoint: 0x132AF, name: "EGYPTIAN HIEROGLYPH R001", aliases: &[] },
        Codepoint { codepoint: 0x132B0, name: "EGYPTIAN HIEROGLYPH R002", aliases: &[] },
        Codepoint { codepoint: 0x132B1, name: "EGYPTIAN HIEROGLYPH R002A", aliases: &[] },
        Codepoint { codepoint: 0x132B2, name: "EGYPTIAN HIEROGLYPH R003", aliases: &[] },
        Codepoint { codepoint: 0x132B3, name: "EGYPTIAN HIEROGLYPH R003A", aliases: &[] },
        Codepoint { codepoint: 0x132B4, name: "EGYPTIAN HIEROGLYPH R003B", aliases: &[] },
        Codepoint { codepoint: 0x132B5, name: "EGYPTIAN HIEROGLYPH R004", aliases: &[] },
        Codepoint { codepoint: 0x132B6, name: "EGYPTIAN HIEROGLYPH R005", aliases: &[] },
        Codepoint { codepoint: 0x132B7, name: "EGYPTIAN HIEROGLYPH R006", aliases: &[] },
        Codepoint { codepoint: 0x132B8, name: "EGYPTIAN HIEROGLYPH R007", aliases: &[] },
        Codepoint { codepoint: 0x132B9, name: "EGYPTIAN HIEROGLYPH R008", aliases: &[] },
        Codepoint { codepoint: 0x132BA, name: "EGYPTIAN HIEROGLYPH R009", aliases: &[] },
        Codepoint { codepoint: 0x132BB, name: "EGYPTIAN HIEROGLYPH R010", aliases: &[] },
        Codepoint { codepoint: 0x132BC, name: "EGYPTIAN HIEROGLYPH R010A", aliases: &[] },
        Codepoint { codepoint: 0x132BD, name: "EGYPTIAN HIEROGLYPH R011", aliases: &[] },
        Codepoint { codepoint: 0x132BE, name: "EGYPTIAN HIEROGLYPH R012", aliases: &[] },
        Codepoint { codepoint: 0x132BF, name: "EGYPTIAN HIEROGLYPH R013", aliases: &[] },
        Codepoint { codepoint: 0x132C0, name: "EGYPTIAN HIEROGLYPH R014", aliases: &[] },
        Codepoint { codepoint: 0x132C1, name: "EGYPTIAN HIEROGLYPH R015", aliases: &[] },
        Codepoint { codepoint: 0x132C2, name: "EGYPTIAN HIEROGLYPH R016", aliases: &[] },
        Codepoint { codepoint: 0x132C3, name: "EGYPTIAN HIEROGLYPH R016A", aliases: &[] },
        Codepoint { codepoint: 0x132C4, name: "EGYPTIAN HIEROGLYPH R017", aliases: &[] },
    ]
}

fn all_codepoints_591() -> (v: Vec<Codepoint>)
    ensures
        v@ == codepoint_table_591(),
{
    let v = vec![
        Codepoint { codepoint: 0x1329D, name: "EGYPTIAN HIEROGLYPH P002", aliases: &[] },
        Codepoint { codepoint: 0x1329E, name: "EGYPTIAN HIEROGLYPH P003", aliases: &[] },
        Codepoint { codepoint: 0x1329F, name: "EGYPTIAN HIEROGLYPH P003A", aliases: &[] },
        Codepoint { codepoint: 0x132A0, name: "EGYPTIAN HIEROGLYPH P004", aliases: &[] },
        Codepoint { codepoint: 0x132A1, name: "EGYPTIAN HIEROGLYPH P005", aliases: &[] },
        Codepoint { codepoint: 0x132A2, name: "EGYPTIAN HIEROGLYPH P006", aliases: &[] },
        Codepoint { codepoint: 0x132A3, name: "EGYPTIAN HIEROGLYPH P007", aliases: &[] },
        Codepoint { codepoint: 0x132A4, name: "EGYPTIAN HIEROGLYPH P008", aliases: &[] },
        Codepoint { codepoint: 0x132A5, name: "EGYPTIAN HIEROGLYPH P009", aliases: &[] },
        Codepoint { codepoint: 0x132A6, name: "EGYPTIAN HIEROGLYPH P010", aliases: &[] },
        Codepoint { codepoint: 0x132A7, name: "EGYPTIAN HIEROGLYPH P011", aliases: &[] },
        Codepoint { codepoint: 0x132A8, name: "EGYPTIAN HIEROGLYPH Q001", aliases: &[] },
        Codepoint { codepoint: 0x132A9, name: "EGYPTIAN HIEROGLYPH Q002", aliases: &[] },
        Codepoint { codepoint: 0x132AA, name: "EGYPTIAN HIEROGLYPH Q003", aliases: &[] },
        Codepoint { codepoint: 0x132AB, name: "EGYPTIAN HIEROGLYPH Q004", aliases: &[] },
        Codepoint { codepoint: 0x132AC, name: "EGYPTIAN HIEROGLYPH Q005", aliases: &[] },
        Codepoint { codepoint: 0x132AD, name: "EGYPTIAN HIEROGLYPH Q006", aliases: &[] },
        Codepoint { codepoint: 0x132AE, name: "EGYPTIAN HIEROGLYPH Q007", aliases: &[] },
        Codepoint { codepoint: 0x132AF, name: "EGYPTIAN HIEROGLYPH R001", aliases: &[] },
        Codepoint { codepoint: 0x132B0, name: "EGYPTIAN HIEROGLYPH R002", aliases: &[] },
        Codepoint { codepoint: 0x132B1, name: "EGYPTIAN HIEROGLYPH R002A", aliases: &[] },
        Codepoint { codepoint: 0x132B2, name: "EGYPTIAN HIEROGLYPH R003", aliases: &[] },
        Codepoint { codepoint: 0x132B3, name: "EGYPTIAN HIEROGLYPH R003A", aliases: &[] },
        Codepoint { codepoint: 0x132B4, name: "EGYPTIAN HIEROGLYPH R003B", aliases: &[] },
        Codepoint { codepoint: 0x132B5, name: "EGYPTIAN HIEROGLYPH R004", aliases: &[] },
        Codepoint { codepoint: 0x132B6, name: "EGYPTIAN HIEROGLYPH R005", aliases: &[] },
        Codepoint { codepoint: 0x132B7, name: "EGYPTIAN HIEROGLYPH R006", aliases: &[] },
        Codepoint { codepoint: 0x132B8, name: "EGYPTIAN HIEROGLYPH R007", aliases: &[] },
        Codepoint { codepoint: 0x132B9, name: "EGYPTIAN HIEROGLYPH R008", aliases: &[] },
        Codepoint { codepoint: 0x132BA, name: "EGYPTIAN HIEROGLYPH R009", aliases: &[] },
        Codepoint { codepoint: 0x132BB, name: "EGYPTIAN HIEROGLYPH R010", aliases: &[] },
        Codepoint { codepoint: 0x132BC, name: "EGYPTIAN HIEROGLYPH R010A", aliases: &[] },
        Codepoint { codepoint: 0x132BD, name: "EGYPTIAN HIEROGLYPH R011", aliases: &[] },
        Codepoint { codepoint: 0x132BE, name: "EGYPTIAN HIEROGLYPH R012", aliases: &[] },
        Codepoint { codepoint: 0x132BF, name: "EGYPTIAN HIEROGLYPH R013", aliases: &[] },
        Codepoint { codepoint: 0x132C0, name: "EGYPTIAN HIEROGLYPH R014", aliases: &[] },
        Codepoint { codepoint: 0x132C1, name: "EGYPTIAN HIEROGLYPH R015", aliases: &[] },
        Codepoint { codepoint: 0x132C2, name: "EGYPTIAN HIEROGLYPH R016", aliases: &[] },
        Codepoint { codepoint: 0x132C3, name: "EGYPTIAN HIEROGLYPH R016A", aliases: &[] },
        Codepoint { codepoint: 0x132C4, name: "EGYPTIAN HIEROGLYPH R017", aliases: &[] },
    ];
    assert(v@ =~= codepoint_table_591());
    v
}

pub open spec fn codepoint_table_592() -> Seq<Codepoint> {
    seq![
        Codepoint { codepoint: 0x132C5, name: "EGYPTIAN HIEROGLYPH R018", aliases: &[] },
        Codepoint { codepoint: 0x132C6, name: "EGYPTIAN HIEROGLYPH R019", aliases: &[] },
        Codepoint { codepoint: 0x132C7, name: "EGYPTIAN HIEROGLYPH R020", aliases: &[] },
        Codepoint { codepoint: 0x132C8, name: "EGYPTIAN HIEROGLYPH R021", aliases: &[] },
        Codepoint { codepoint: 0x132C9, name: "EGYPTIAN HIEROGLYPH R022", aliases: &[] },
        Codepoint { codepoint: 0x132CA, name: "EGYPTIAN HIEROGLYPH R023", aliases: &[] },
        Codepoint { codepoint: 0x132CB, name: "EGYPTIAN HIEROGLYPH R024", aliases: &[] },
        Codepoint { codepoint: 0x132CC, name: "EGYPTIAN HIEROGLYPH R025", aliases: &[] },
        Codepoint { codepoint: 0x132CD, name: "EGYPTIAN HIEROGLYPH R026", aliases: &[] },
        Codepoint { codepoint: 0x132CE, name: "EGYPTIAN HIEROGLYPH R027", aliases: &[] },
        Codepoint { codepoint: 0x132CF, name: "EGYPTIAN HIEROGLYPH R028", aliases: &[] },
        Codepoint { codepoint: 0x132D0, name: "EGYPTIAN HIEROGLYPH R029", aliases: &[] },
        Codepoint { codepoint: 0x132D1, name: "EGYPTIAN HIEROGLYPH S001", aliases: &[] },
        Codepoint { codepoint: 0x132D2, name: "EGYPTIAN HIEROGLYPH S002", aliases: &[] },
        Codepoint { codepoint: 0x132D3, name: "EGYPTIAN HIEROGLYPH S002A", aliases: &[] },
        Codepoint { codepoint: 0x132D4, name: "EGYPTIAN HIEROGLYPH S003", aliases: &[] },
        Codepoint { codepoint: 0x132D5, name: "EGYPTIAN HIEROGLYPH S004", aliases: &[] },
        Codepoint { codepoint: 0x132D6, name: "EGYPTIAN HIEROGLYPH S005", aliases: &[] },
        Codepoint { codepoint: 0x132D7, name: "EGYPTIAN HIEROGLYPH S006", aliases: &[] },
        Codepoint { codepoint: 0x132D8, name: "EGYPTIAN HIEROGLYPH S006A", aliases: &[] },
        Codepoint { codepoint: 0x132D9, name: "EGYPTIAN HIEROGLYPH S007", aliases: &[] },
        Codepoint { codepoint: 0x132DA, name: "EGYPTIAN HIEROGLYPH S008", aliases: &[] },
        Codepoint { codepoint: 0x132DB, name: "EGYPTIAN HIEROGLYPH S009", aliases: &[] },
        Codepoint { codepoint: 0x132DC, name: "EGYPTIAN HIEROGLYPH S010", aliases: &[] },
        Codepoint { codepoint: 0x132DD, name: "EGYPTIAN HIEROGLYPH S011", aliases: &[] },
        Codepoint { codepoint: 0x132DE, name: "EGYPTIAN HIEROGLYPH S012", aliases: &[] },
        Codepoint { codepoint: 0x132DF, name: "EGYPTIAN HIEROGLYPH S013", aliases: &[] },
        Codepoint { codepoint: 0x132E0, name: "EGYPTIAN HIEROGLYPH S014", aliases: &[] },
        Codepoint { codepoint: 0x132E1, name: "EGYPTIAN HIEROGLYPH S014A", aliases: &[] },
        Codepoint { codepoint: 0x132E2, name: "EGYPTIAN HIEROGLYPH S014B", aliases: &[] },
        Codepoint { codepoint: 0x132E3, name: "EGYPTIAN HIEROGLYPH S015", aliases: &[] },
        Codepoint { codepoint: 0x132E4, name: "EGYPTIAN HIEROGLYPH S016", aliases: &[] },
        Codepoint { codepoint: 0x132E5, name: "EGYPTIAN HIEROGLYPH S017", aliases: &[] },
        Codepoint { codepoint: 0x132E6, name: "EGYPTIAN HIEROGLYPH S017A", aliases: &[] },
        Codepoint { codepoint: 0x132E7, name: "EGYPTIAN HIEROGLYPH S018", aliases: &[] },
        Codepoint { codepoint: 0x132E8, name: "EGYPTIAN HIEROGLYPH S019", aliases: &[] },
        Codepoint { codepoint: 0x132E9, name: "EGYPTIAN HIEROGLYPH S020", aliases: &[] },
        Codepoint { codepoint: 0x132EA, name: "EGYPTIAN HIEROGLYPH S021", aliases: &[] },
        Codepoint { codepoint: 0x132EB, name: "EGYPTIAN HIEROGLYPH S022", aliases: &[] },
        Codepoint { codepoint: 0x132EC, name: "EGYPTIAN HIEROGLYPH S023", aliases: &[] },
    ]
}

fn all_codepoints_592() -> (v: Vec<Codepoint>)
    ensures
        v@ == codepoint_table_592(),
{
    let v = vec![
        Codepoint { codepoint: 0x132C5, name: "EGYPTIAN HIEROGLYPH R018", aliases: &[] },
        Codepoint { codepoint: 0x132C6, name: "EGYPTIAN HIEROGLYPH R019", aliases: &[] },
        Codepoint { codepoint: 0x132C7, name: "EGYPTIAN HIEROGLYPH R020", aliases: &[] },
        Codepoint { codepoint: 0x132C8, name: "EGYPTIAN HIEROGLYPH R021", aliases: &[] },
        Codepoint { codepoint: 0x132C9, name: "EGYPTIAN HIEROGLYPH R022", aliases: &[] },
        Codepoint { codepoint: 0x132CA, name: "EGYPTIAN HIEROGLYPH R023", aliases: &[] },
        Codepoint { codepoint: 0x132CB, name: "EGYPTIAN HIEROGLYPH R024", aliases: &[] },
        Codepoint { codepoint: 0x132CC, name: "EGYPTIAN HIEROGLYPH R025", aliases: &[] },
        Codepoint { codepoint: 0x132CD, name: "EGYPTIAN HIEROGLYPH R026", aliases: &[] },
        Codepoint { codepoint: 0x132CE, name: "EGYPTIAN HIEROGLYPH R027", aliases: &[] },
        Codepoint { codepoint: 0x132CF, name: "EGYPTIAN HIEROGLYPH R028", aliases: &[] },
        Codepoint { codepoint: 0x132D0, name: "EGYPTIAN HIEROGLYPH R029", aliases: &[] },
        Codepoint { codepoint: 0x132D1, name: "EGYPTIAN HIEROGLYPH S001", aliases: &[] },
        Codepoint { codepoint: 0x132D2, name: "EGYPTIAN HIEROGLYPH S002", aliases: &[] },
        Codepoint { codepoint: 0x132D3, name: "EGYPTIAN HIEROGLYPH S002A", aliases: &[] },
        Codepoint { codepoint: 0x132D4, name: "EGYPTIAN HIEROGLYPH S003", aliases: &[] },
        Codepoint { codepoint: 0x132D5, name: "EGYPTIAN HIEROGLYPH S004", aliases: &[] },
        Codepoint { codepoint: 0x132D6, name: "EGYPTIAN HIEROGLYPH S005", aliases: &[] },
        Codepoint { codepoint: 0x132D7, name: "EGYPTIAN HIEROGLYPH S006", aliases: &[] },
        Codepoint { codepoint: 0x132D8, name: "EGYPTIAN HIEROGLYPH S006A", aliases: &[] },
        Codepoint { codepoint: 0x132D9, name: "EGYPTIAN HIEROGLYPH S007", aliases: &[] },
        Codepoint { codepoint: 0x132DA, name: "EGYPTIAN HIEROGLYPH S008", aliases: &[] },
        Codepoint { codepoint: 0x132DB, name: "EGYPTIAN HIEROGLYPH S009", aliases: &[] },
        Codepoint { codepoint: 0x132DC, name: "EGYPTIAN HIEROGLYPH S010", aliases: &[] },
        Codepoint { codepoint: 0x132DD, name: "EGYPTIAN HIEROGLYPH S011", aliases: &[] },
        Codepoint { codepoint: 0x132DE, name: "EGYPTIAN HIEROGLYPH S012", aliases: &[] },
        Codepoint { codepoint: 0x132DF, name: "EGYPTIAN HIEROGLYPH S013", aliases: &[] },
        Codepoint { codepoint: 0x132E0, name: "EGYPTIAN HIEROGLYPH S014", aliases: &[] },
        Codepoint { codepoint: 0x132E1, name: "EGYPTIAN HIEROGLYPH S014A", aliases: &[] },
        Codepoint { codepoint: 0x132E2, name: "EGYPTIAN HIEROGLYPH S014B", aliases: &[] },
        Codepoint { codepoint: 0x132E3, name: "EGYPTIAN HIEROGLYPH S015", aliases: &[] },
        Codepoint { codepoint: 0x132E4, name: "EGYPTIAN HIEROGLYPH S016", aliases: &[] },
        Codepoint { codepoint: 0x132E5, name: "EGYPTIAN HIEROGLYPH S017", aliases: &[] },
        Codepoint { codepoint: 0x132E6, name: "EGYPTIAN HIEROGLYPH S017A", aliases: &[] },
        Codepoint { codepoint: 0x132E7, name: "EGYPTIAN HIEROGLYPH S018", aliases: &[] },
        Codepoint { codepoint: 0x132E8, name: "EGYPTIAN HIEROGLYPH S019", aliases: &[] },
        Codepoint { codepoint: 0x132E9, name: "EGYPTIAN HIEROGLYPH S020", aliases: &[] },
        Codepoint { codepoint: 0x132EA, name: "EGYPTIAN HIEROGLYPH S021", aliases: &[] },
        Codepoint { codepoint: 0x132EB, name: "EGYPTIAN HIEROGLYPH S022", aliases: &[] },
        Codepoint { codepoint: 0x132EC, name: "EGYPTIAN HIEROGLYPH S023", aliases: &[] },
    ];
    assert(v@ =~= codepoint_table_592());
    v
}

pub open spec fn codepoint_table_593() -> Seq<Codepoint> {
    seq![
        Codepoint { codepoint: 0x132ED, name: "EGYPTIAN HIEROGLYPH S024", aliases: &[] },
        Codepoint { codepoint: 0x132EE, name: "EGYPTIAN HIEROGLYPH S025", aliases: &[] },
        Codepoint { codepoint: 0x132EF, name: "EGYPTIAN HIEROGLYPH S026", aliases: &[] },
        Codepoint { codepoint: 0x132F0, name: "EGYPTIAN HIEROGLYPH S026A", aliases: &[] },
        Codepoint { codepoint: 0x132F1, name: "EGYPTIAN HIEROGLYPH S026B", aliases: &[] },
        Codepoint { codepoint: 0x132F2, name: "EGYPTIAN HIEROGLYPH S027", aliases: &[] },
        Codepoint { codepoint: 0x132F3, name: "EGYPTIAN HIEROGLYPH S028", aliases: &[] },
        Codepoint { codepoint: 0x132F4, name: "EGYPTIAN HIEROGLYPH S029", aliases: &[] },
        Codepoint { codepoint: 0x132F5, name: "EGYPTIAN HIEROGLYPH S030", aliases: &[] },
        Codepoint { codepoint: 0x132F6, name: "EGYPTIAN HIEROGLYPH S031", aliases: &[] },
        Codepoint { codepoint: 0x132F7, name: "EGYPTIAN HIEROGLYPH S032", aliases: &[] },
        Codepoint { codepoint: 0x132F8, name: "EGYPTIAN HIEROGLYPH S033", aliases: &[] },
        Codepoint { codepoint: 0x132F9, name: "EGYPTIAN HIEROGLYPH S034", aliases: &[] },
        Codepoint { codepoint: 0x132FA, name: "EGYPTIAN HIEROGLYPH S035", aliases: &[] },
        Codepoint { codepoint: 0x132FB, name: "EGYPTIAN HIEROGLYPH S035A", aliases: &[] },
        Codepoint { codepoint: 0x132FC, name: "EGYPTIAN HIEROGLYPH S036", aliases: &[] },
        Codepoint { codepoint: 0x132FD, name: "EGYPTIAN HIEROGLYPH S037", aliases: &[] },
        Codepoint { codepoint: 0x132FE, name: "EGYPTIAN HIEROGLYPH S038", aliases: &[] },
        Codepoint { codepoint: 0x132FF, name: "EGYPTIAN HIEROGLYPH S039", aliases: &[] },
        Codepoint { codepoint: 0x13300, name: "EGYPTIAN HIEROGLYPH S040", aliases: &[] },
        Codepoint { codepoint: 0x13301, name: "EGYPTIAN HIEROGLYPH S041", aliases: &[] },
        Codepoint { codepoint: 0x13302, name: "EGYPTIAN HIEROGLYPH S042", aliases: &[] },
        Codepoint { codepoint: 0x13303, name: "EGYPTIAN HIEROGLYPH S043", aliases: &[] },
        Codepoint { codepoint: 0x13304, name: "EGYPTIAN HIEROGLYPH S044", aliases: &[] },
        Codepoint { codepoint: 0x13305, name: "EGYPTIAN HIEROGLYPH S045", aliases: &[] },
        Codepoint { codepoint: 0x13306, name: "EGYPTIAN HIEROGLYPH S046", aliases: &[] },
        Codepoint { codepoint: 0x13307, name: "EGYPTIAN HIEROGLYPH T001", aliases: &[] },
        Codepoint { codepoint: 0x13308, name: "EGYPTIAN HIEROGLYPH T002", aliases: &[] },
        Codepoint { codepoint: 0x13309, name: "EGYPTIAN HIEROGLYPH T003", aliases: &[] },
        Codepoint { codepoint: 0x1330A, name: "EGYPTIAN HIEROGLYPH T003A", aliases: &[] },
        Codepoint { codepoint: 0x1330B, name: "EGYPTIAN HIEROGLYPH T004", aliases: &[] },
        Codepoint { codepoint: 0x1330C, name: "EGYPTIAN HIEROGLYPH T005", aliases: &[] },
        Codepoint { codepoint: 0x1330D, name: "EGYPTIAN HIEROGLYPH T006", aliases: &[] },
        Codepoint { codepoint: 0x1330E, name: "EGYPTIAN HIEROGLYPH T007", aliases: &[] },
        Codepoint { codepoint: 0x1330F, name: "EGYPTIAN HIEROGLYPH T007A", aliases: &[] },
        Codepoint { codepoint: 0x13310, name: "EGYPTIAN HIEROGLYPH T008", aliases: &[] },
        Codepoint { codepoint: 0x13311, name: "EGYPTIAN HIEROGLYPH T008A", aliases: &[] },
        Codepoint { codepoint: 0x13312, name: "EGYPTIAN HIEROGLYPH T009", aliases: &[] },
        Codepoint { codepoint: 0x13313, name: "EGYPTIAN HIEROGLYPH T009A", aliases: &[] },
        Codepoint { codepoint: 0x13314, name: "EGYPTIAN HIEROGLYPH T010", aliases: &[] },
    ]
}

fn all_codepoints_593() -> (v: Vec<Codepoint>)
    ensures
        v@ == codepoint_table_593(),
{
    let v = vec![
        Codepoint { codepoint: 0x132ED, name: "EGYPTIAN HIEROGLYPH S024", aliases: &[] },
        Codepoint { codepoint: 0x132EE, name: "EGYPTIAN HIEROGLYPH S025", aliases: &[] },
        Codepoint { codepoint: 0x132EF, name: "EGYPTIAN HIEROGLYPH S026", aliases: &[] },
        Codepoint { codepoint: 0x132F0, name: "EGYPTIAN HIEROGLYPH S026A", aliases: &[] },
        Codepoint { codepoint: 0x132F1, name: "EGYPTIAN HIEROGLYPH S026B", aliases: &[] },
        Codepoint { codepoint: 0x132F2, name: "EGYPTIAN HIEROGLYPH S027", aliases: &[] },
        Codepoint { codepoint: 0x132F3, name: "EGYPTIAN HIEROGLYPH S028", aliases: &[] },
        Codepoint { codepoint: 0x132F4, name: "EGYPTIAN HIEROGLYPH S029", aliases: &[] },
        Codepoint { codepoint: 0x132F5, name: "EGYPTIAN HIEROGLYPH S030", aliases: &[] },
        Codepoint { codepoint: 0x132F6, name: "EGYPTIAN HIEROGLYPH S031", aliases: &[] },
        Codepoint { codepoint: 0x132F7, name: "EGYPTIAN HIEROGLYPH S032", aliases: &[] },
        Codepoint { codepoint: 0x132F8, name: "EGYPTIAN HIEROGLYPH S033", aliases: &[] },
        Codepoint { codepoint: 0x132F9, name: "EGYPTIAN HIEROGLYPH S034", aliases: &[] },
        Codepoint { codepoint: 0x132FA, name: "EGYPTIAN HIEROGLYPH S035", aliases: &[] },
        Codepoint { codepoint: 0x132FB, name: "EGYPTIAN HIEROGLYPH S035A", aliases: &[] },
        Codepoint { codepoint: 0x132FC, name: "EGYPTIAN HIEROGLYPH S036", aliases: &[] },
        Codepoint { codepoint: 0x132FD, name: "EGYPTIAN HIEROGLYPH S037", aliases: &[] },
        Codepoint { codepoint: 0x132FE, name: "EGYPTIAN HIEROGLYPH S038", aliases: &[] },
        Codepoint { codepoint: 0x132FF, name: "EGYPTIAN HIEROGLYPH S039", aliases: &[] },
        Codepoint { codepoint: 0x13300, name: "EGYPTIAN HIEROGLYPH S040", aliases: &[] },
        Codepoint { codepoint: 0x13301, name: "EGYPTIAN HIEROGLYPH S041", aliases: &[] },
        Codepoint { codepoint: 0x13302, name: "EGYPTIAN HIEROGLYPH S042", aliases: &[] },
        Codepoint { codepoint: 0x13303, name: "EGYPTIAN HIEROGLYPH S043", aliases: &[] },
        Codepoint { codepoint: 0x13304, name: "EGYPTIAN HIEROGLYPH S044", aliases: &[] },
        Codepoint { codepoint: 0x13305, name: "EGYPTIAN HIEROGLYPH S045", aliases: &[] },
        Codepoint { codepoint: 0x13306, name: "EGYPTIAN HIEROGLYPH S046", aliases: &[] },
        Codepoint { codepoint: 0x13307, name: "EGYPTIAN HIEROGLYPH T001", aliases: &[] },
        Codepoint { codepoint: 0x13308, name: "EGYPTIAN HIEROGLYPH T002", aliases: &[] },
        Codepoint { codepoint: 0x13309, name: "EGYPTIAN HIEROGLYPH T003", aliases: &[] },
        Codepoint { codepoint: 0x1330A, name: "EGYPTIAN HIEROGLYPH T003A", aliases: &[] },
        Codepoint { codepoint: 0x1330B, name: "EGYPTIAN HIEROGLYPH T004", aliases: &[] },
        Codepoint { codepoint: 0x1330C, name: "EGYPTIAN HIEROGLYPH T005", aliases: &[] },
        Codepoint { codepoint: 0x1330D, name: "EGYPTIAN HIEROGLYPH T006", aliases: &[] },
        Codepoint { codepoint: 0x1330E, name: "EGYPTIAN HIEROGLYPH T007", aliases: &[] },
        Codepoint { codepoint: 0x1330F, name: "EGYPTIAN HIEROGLYPH T007A", aliases: &[] },
        Codepoint { codepoint: 0x13310, name: "EGYPTIAN HIEROGLYPH T008", aliases: &[] },
        Codepoint { codepoint: 0x13311, name: "EGYPTIAN HIEROGLYPH T008A", aliases: &[] },
        Codepoint { codepoint: 0x13312, name: "EGYPTIAN HIEROGLYPH T009", aliases: &[] },
        Codepoint { codepoint: 0x13313, name: "EGYPTIAN HIEROGLYPH T009A", aliases: &[] },
        Codepoint { codepoint: 0x13314, name: "EGYPTIAN HIEROGLYPH T010", aliases: &[] },
    ];
    assert(v@ =~= codepoint_table_593());
    v
}

pub open spec fn codepoint_table_594() -> Seq<Codepoint> {
    seq![
        Codepoint { codepoint: 0x13315, name: "EGYPTIAN HIEROGLYPH T011", aliases: &[] },
        Codepoint { codepoint: 0x13316, name: "EGYPTIAN HIEROGLYPH T011A", aliases: &[] },
        Codepoint { codepoint: 0x13317, name: "EGYPTIAN HIEROGLYPH T012", aliases: &[] },
        Codepoint { codepoint: 0x13318, name: "EGYPTIAN HIEROGLYPH T013", aliases: &[] },
        Codepoint { codepoint: 0x13319, name: "EGYPTIAN HIEROGLYPH T014", aliases: &[] },
        Codepoint { codepoint: 0x1331A, name: "EGYPTIAN HIEROGLYPH T015", aliases: &[] },
        Codepoint { codepoint: 0x1331B, name: "EGYPTIAN HIEROGLYPH T016", aliases: &[] },
        Codepoint { codepoint: 0x1331C, name: "EGYPTIAN HIEROGLYPH T016A", aliases: &[] },
        Codepoint { codepoint: 0x1331D, name: "EGYPTIAN HIEROGLYPH T017", aliases: &[] },
        Codepoint { codepoint: 0x1331E, name: "EGYPTIAN HIEROGLYPH T018", aliases: &[] },
        Codepoint { codepoint: 0x1331F, name: "EGYPTIAN HIEROGLYPH T019", aliases: &[] },
        Codepoint { codepoint: 0x13320, name: "EGYPTIAN HIEROGLYPH T020", aliases: &[] },
        Codepoint { codepoint: 0x13321, name: "EGYPTIAN HIEROGLYPH T021", aliases: &[] },
        Codepoint { codepoint: 0x13322, name: "EGYPTIAN HIEROGLYPH T022", aliases: &[] },
        Codepoint { codepoint: 0x13323, name: "EGYPTIAN HIEROGLYPH T023", aliases: &[] },
        Codepoint { codepoint: 0x13324, name: "EGYPTIAN HIEROGLYPH T024", aliases: &[] },
        Codepoint { codepoint: 0x13325, name: "EGYPTIAN HIEROGLYPH T025", aliases: &[] },
        Codepoint { codepoint: 0x13326, name: "EGYPTIAN HIEROGLYPH T026", aliases: &[] },
        Codepoint { codepoint: 0x13327, name: "EGYPTIAN HIEROGLYPH T027", aliases: &[] },
        Codepoint { codepoint: 0x13328, name: "EGYPTIAN HIEROGLYPH T028", aliases: &[] },
        Codepoint { codepoint: 0x13329, name: "EGYPTIAN HIEROGLYPH T029", aliases: &[] },
        Codepoint { codepoint: 0x1332A, name: "EGYPTIAN HIEROGLYPH T030", aliases: &[] },
        Codepoint { codepoint: 0x1332B, name: "EGYPTIAN HIEROGLYPH T031", aliases: &[] },
        Codepoint { codepoint: 0x1332C, name: "EGYPTIAN HIEROGLYPH T032", aliases: &[] },
        Codepoint { codepoint: 0x1332D, name: "EGYPTIAN HIEROGLYPH T032A", aliases: &[] },
        Codepoint { codepoint: 0x1332E, name: "EGYPTIAN HIEROGLYPH T033", aliases: &[] },
        Codepoint { codepoint: 0x1332F, name: "EGYPTIAN HIEROGLYPH T033A", aliases: &[] },
        Codepoint { codepoint: 0x13330, name: "EGYPTIAN HIEROGLYPH T034", aliases: &[] },
        Codepoint { codepoint: 0x13331, name: "EGYPTIAN HIEROGLYPH T035", aliases: &[] },
        Codepoint { codepoint: 0x13332, name: "EGYPTIAN HIEROGLYPH T036", aliases: &[] },
        Codepoint { codepoint: 0x13333, name: "EGYPTIAN HIEROGLYPH U001", aliases: &[] },
        Codepoint { codepoint: 0x13334, name: "EGYPTIAN HIEROGLYPH U002", aliases: &[] },
        Codepoint { codepoint: 0x13335, name: "EGYPTIAN HIEROGLYPH U003", aliases: &[] },
        Codepoint { codepoint: 0x13336, name: "EGYPTIAN HIEROGLYPH U004", aliases: &[] },
        Codepoint { codepoint: 0x13337, name: "EGYPTIAN HIEROGLYPH U005", aliases: &[] },
        Codepoint { codepoint: 0x13338, name: "EGYPTIAN HIEROGLYPH U006", aliases: &[] },
        Codepoint { codepoint: 0x13339, name: "EGYPTIAN HIEROGLYPH U006A", aliases: &[] },
        Codepoint { codepoint: 0x1333A, name: "EGYPTIAN HIEROGLYPH U006B", aliases: &[] },
        Codepoint { codepoint: 0x1333B, name: "EGYPTIAN HIEROGLYPH U007", aliases: &[] },
        Codepoint { codepoint: 0x1333C, name: "EGYPTIAN HIEROGLYPH U008", aliases: &[] },
    ]
}

fn all_codepoints_594() -> (v: Vec<Codepoint>)
    ensures
        v@ == codepoint_table_594(),
{
    let v = vec![
        Codepoint { codepoint: 0x13315, name: "EGYPTIAN HIEROGLYPH T011", aliases: &[] },
        Codepoint { codepoint: 0x13316, name: "EGYPTIAN HIEROGLYPH T011A", aliases: &[] },
        Codepoint { codepoint: 0x13317, name: "EGYPTIAN HIEROGLYPH T012", aliases: &[] },
        Codepoint { codepoint: 0x13318, name: "EGYPTIAN HIEROGLYPH T013", aliases: &[] },
        Codepoint { codepoint: 0x13319, name: "EGYPTIAN HIEROGLYPH T014", aliases: &[] },
        Codepoint { codepoint: 0x1331A, name: "EGYPTIAN HIEROGLYPH T015", aliases: &[] },
        Codepoint { codepoint: 0x1331B, name: "EGYPTIAN HIEROGLYPH T016", aliases: &[] },
        Codepoint { codepoint: 0x1331C, name: "EGYPTIAN HIEROGLYPH T016A", aliases: &[] },
        Codepoint { codepoint: 0x1331D, name: "EGYPTIAN HIEROGLYPH T017", aliases: &[] },
        Codepoint { codepoint: 0x1331E, name: "EGYPTIAN HIEROGLYPH T018", aliases: &[] },
        Codepoint { codepoint: 0x1331F, name: "EGYPTIAN HIEROGLYPH T019", aliases: &[] },
        Codepoint { codepoint: 0x13320, name: "EGYPTIAN HIEROGLYPH T020", aliases: &[] },
        Codepoint { codepoint: 0x13321, name: "EGYPTIAN HIEROGLYPH T021", aliases: &[] },
        Codepoint { codepoint: 0x13322, name: "EGYPTIAN HIEROGLYPH T022", aliases: &[] },
        Codepoint { codepoint: 0x13323, name: "EGYPTIAN HIEROGLYPH T023", aliases: &[] },
        Codepoint { codepoint: 0x13324, name: "EGYPTIAN HIEROGLYPH T024", aliases: &[] },
        Codepoint { codepoint: 0x13325, name: "EGYPTIAN HIEROGLYPH T025", aliases: &[] },
        Codepoint { codepoint: 0x13326, name: "EGYPTIAN HIEROGLYPH T026", aliases: &[] },
        Codepoint { codepoint: 0x13327, name: "EGYPTIAN HIEROGLYPH T027", aliases: &[] },
        Codepoint { codepoint: 0x13328, name: "EGYPTIAN HIEROGLYPH T028", aliases: &[] },
        Codepoint { codepoint: 0x13329, name: "EGYPTIAN HIEROGLYPH T029", aliases: &[] },
        Codepoint { codepoint: 0x1332A, name: "EGYPTIAN HIEROGLYPH T030", aliases: &[] },
        Codepoint { codepoint: 0x1332B, name: "EGYPTIAN HIEROGLYPH T031", aliases: &[] },
        Codepoint { codepoint: 0x1332C, name: "EGYPTIAN HIEROGLYPH T032", aliases: &[] },
        Codepoint { codepoint: 0x1332D, name: "EGYPTIAN HIEROGLYPH T032A", aliases: &[] },
        Codepoint { codepoint: 0x1332E, name: "EGYPTIAN HIEROGLYPH T033", aliases: &[] },
        Codepoint { codepoint: 0x1332F, name: "EGYPTIAN HIEROGLYPH T033A", aliases: &[] },
        Codepoint { codepoint: 0x13330, name: "EGYPTIAN HIEROGLYPH T034", aliases: &[] },
        Codepoint { codepoint: 0x13331, name: "EGYPTIAN HIEROGLYPH T035", aliases: &[] },
        Codepoint { codepoint: 0x13332, name: "EGYPTIAN HIEROGLYPH T036", aliases: &[] },
        Codepoint { codepoint: 0x13333, name: "EGYPTIAN HIEROGLYPH U001", aliases: &[] },
        Codepoint { codepoint: 0x13334, name: "EGYPTIAN HIEROGLYPH U002", aliases: &[] },
        Codepoint { codepoint: 0x13335, name: "EGYPTIAN HIEROGLYPH U003", aliases: &[] },
        Codepoint { codepoint: 0x13336, name: "EGYPTIAN HIEROGLYPH U004", aliases: &[] },
        Codepoint { codepoint: 0x13337, name: "EGYPTIAN HIEROGLYPH U005", aliases: &[] },
        Codepoint { codepoint: 0x13338, name: "EGYPTIAN HIEROGLYPH U006", aliases: &[] },
        Codepoint { codepoint: 0x13339, name: "EGYPTIAN HIEROGLYPH U006A", aliases: &[] },
        Codepoint { codepoint: 0x1333A, name: "EGYPTIAN HIEROGLYPH U006B", aliases: &[] },
        Codepoint { codepoint: 0x1333B, name: "EGYPTIAN HIEROGLYPH U007", aliases: &[] },
        Codepoint { codepoint: 0x1333C, name: "EGYPTIAN HIEROGLYPH U008", aliases: &[] },
    ];
    assert(v@ =~= codepoint_table_594());
    v
}

pub open spec fn codepoint_table_595() -> Seq<Codepoint> {
    seq![
        Codepoint { codepoint: 0x1333D, name: "EGYPTIAN HIEROGLYPH U009", aliases: &[] },
        Codepoint { codepoint: 0x1333E, name: "EGYPTIAN HIEROGLYPH U010", aliases: &[] },
        Codepoint { codepoint: 0x1333F, name: "EGYPTIAN HIEROGLYPH U011", aliases: &[] },
        Codepoint { codepoint: 0x13340, name: "EGYPTIAN HIEROGLYPH U012", aliases: &[] },
        Codepoint { codepoint: 0x13341, name: "EGYPTIAN HIEROGLYPH U013", aliases: &[] },
        Codepoint { codepoint: 0x13342, name: "EGYPTIAN HIEROGLYPH U014", aliases: &[] },
        Codepoint { codepoint: 0x13343, name: "EGYPTIAN HIEROGLYPH U015", aliases: &[] },
        Codepoint { codepoint: 0x13344, name: "EGYPTIAN HIEROGLYPH U016", aliases: &[] },
        Codepoint { codepoint: 0x13345, name: "EGYPTIAN HIEROGLYPH U017", aliases: &[] },
        Codepoint { codepoint: 0x13346, name: "EGYPTIAN HIEROGLYPH U018", aliases: &[] },
        Codepoint { codepoint: 0x13347, name: "EGYPTIAN HIEROGLYPH U019", aliases: &[] },
        Codepoint { codepoint: 0x13348, name: "EGYPTIAN HIEROGLYPH U020", aliases: &[] },
        Codepoint { codepoint: 0x13349, name: "EGYPTIAN HIEROGLYPH U021", aliases: &[] },
        Codepoint { codepoint: 0x1334A, name: "EGYPTIAN HIEROGLYPH U022", aliases: &[] },
        Codepoint { codepoint: 0x1334B, name: "EGYPTIAN HIEROGLYPH U023", aliases: &[] },
        Codepoint { codepoint: 0x1334C, name: "EGYPTIAN HIEROGLYPH U023A", aliases: &[] },
        Codepoint { codepoint: 0x1334D, name: "EGYPTIAN HIEROGLYPH U024", aliases: &[] },
        Codepoint { codepoint: 0x1334E, name: "EGYPTIAN HIEROGLYPH U025", aliases: &[] },
        Codepoint { codepoint: 0x1334F, name: "EGYPTIAN HIEROGLYPH U026", aliases: &[] },
        Codepoint { codepoint: 0x13350, name: "EGYPTIAN HIEROGLYPH U027", aliases: &[] },
        Codepoint { codepoint: 0x13351, name: "EGYPTIAN HIEROGLYPH U028", aliases: &[] },
        Codepoint { codepoint: 0x13352, name: "EGYPTIAN HIEROGLYPH U029", aliases: &[] },
        Codepoint { codepoint: 0x13353, name: "EGYPTIAN HIEROGLYPH U029A", aliases: &[] },
        Codepoint { codepoint: 0x13354, name: "EGYPTIAN HIEROGLYPH U030", aliases: &[] },
        Codepoint { codepoint: 0x13355, name: "EGYPTIAN HIEROGLYPH U031", aliases: &[] },
        Codepoint { codepoint: 0x13356, name: "EGYPTIAN HIEROGLYPH U032", aliases: &[] },
        Codepoint { codepoint: 0x13357, name: "EGYPTIAN HIEROGLYPH U032A", aliases: &[] },
        Codepoint { codepoint: 0x13358, name: "EGYPTIAN HIEROGLYPH U033", aliases: &[] },
        Codepoint { codepoint: 0x13359, name: "EGYPTIAN HIEROGLYPH U034", aliases: &[] },
        Codepoint { codepoint: 0x1335A, name: "EGYPTIAN HIEROGLYPH U035", aliases: &[] },
        Codepoint { codepoint: 0x1335B, name: "EGYPTIAN HIEROGLYPH U036", aliases: &[] },
        Codepoint { codepoint: 0x1335C, name: "EGYPTIAN HIEROGLYPH U037", aliases: &[] },
        Codepoint { codepoint: 0x1335D, name: "EGYPTIAN HIEROGLYPH U038", aliases: &[] },
        Codepoint { codepoint: 0x1335E, name: "EGYPTIAN HIEROGLYPH U039", aliases: &[] },
        Codepoint { codepoint: 0x1335F, name: "EGYPTIAN HIEROGLYPH U040", aliases: &[] },
        Codepoint { codepoint: 0x13360, name: "EGYPTIAN HIEROGLYPH U041", aliases: &[] },
        Codepoint { codepoint: 0x13361, name: "EGYPTIAN HIEROGLYPH U042", aliases: &[] },
        Codepoint { codepoint: 0x13362, name: "EGYPTIAN HIEROGLYPH V001", aliases: &[] },
        Codepoint { codepoint: 0x13363, name: "EGYPTIAN HIEROGLYPH V001A", aliases: &[] },
        Codepoint { codepoint: 0x13364, name: "EGYPTIAN HIEROGLYPH V001B", aliases: &[] },
    ]
}

fn all_codepoints_595() -> (v: Vec<Codepoint>)
    ensures
        v@ == codepoint_table_595(),
{
    let v = vec![
        Codepoint { codepoint: 0x1333D, name: "EGYPTIAN HIEROGLYPH U009", aliases: &[] },
        Codepoint { codepoint: 0x1333E, name: "EGYPTIAN HIEROGLYPH U010", aliases: &[] },
        Codepoint { codepoint: 0x1333F, name: "EGYPTIAN HIEROGLYPH U011", aliases: &[] },
        Codepoint { codepoint: 0x13340, name: "EGYPTIAN HIEROGLYPH U012", aliases: &[] },
        Codepoint { codepoint: 0x13341, name: "EGYPTIAN HIEROGLYPH U013", aliases: &[] },
        Codepoint { codepoint: 0x13342, name: "EGYPTIAN HIEROGLYPH U014", aliases: &[] },
        Codepoint { codepoint: 0x13343, name: "EGYPTIAN HIEROGLYPH U015", aliases: &[] },
        Codepoint { codepoint: 0x13344, name: "EGYPTIAN HIEROGLYPH U016", aliases: &[] },
        Codepoint { codepoint: 0x13345, name: "EGYPTIAN HIEROGLYPH U017", aliases: &[] },
        Codepoint { codepoint: 0x13346, name: "EGYPTIAN HIEROGLYPH U018", aliases: &[] },
        Codepoint { codepoint: 0x13347, name: "EGYPTIAN HIEROGLYPH U019", aliases: &[] },
        Codepoint { codepoint: 0x13348, name: "EGYPTIAN HIEROGLYPH U020", aliases: &[] },
        Codepoint { codepoint: 0x13349, name: "EGYPTIAN HIEROGLYPH U021", aliases: &[] },
        Codepoint { codepoint: 0x1334A, name: "EGYPTIAN HIEROGLYPH U022", aliases: &[] },
        Codepoint { codepoint: 0x1334B, name: "EGYPTIAN HIEROGLYPH U023", aliases: &[] },
        Codepoint { codepoint: 0x1334C, name: "EGYPTIAN HIEROGLYPH U023A", aliases: &[] },
        Codepoint { codepoint: 0x1334D, name: "EGYPTIAN HIEROGLYPH U024", aliases: &[] },
        Codepoint { codepoint: 0x1334E, name: "EGYPTIAN HIEROGLYPH U025", aliases: &[] },
        Codepoint { codepoint: 0x1334F, name: "EGYPTIAN HIEROGLYPH U026", aliases: &[] },
        Codepoint { codepoint: 0x13350, name: "EGYPTIAN HIEROGLYPH U027", aliases: &[] },
        Codepoint { codepoint: 0x13351, name: "EGYPTIAN HIEROGLYPH U028", aliases: &[] },
        Codepoint { codepoint: 0x13352, name: "EGYPTIAN HIEROGLYPH U029", aliases: &[] },
        Codepoint { codepoint: 0x13353, name: "EGYPTIAN HIEROGLYPH U029A", aliases: &[] },
        Codepoint { codepoint: 0x13354, name: "EGYPTIAN HIEROGLYPH U030", aliases: &[] },
        Codepoint { codepoint: 0x13355, name: "EGYPTIAN HIEROGLYPH U031", aliases: &[] },
        Codepoint { codepoint: 0x13356, name: "EGYPTIAN HIEROGLYPH U032", aliases: &[] },
        Codepoint { codepoint: 0x13357, name: "EGYPTIAN HIEROGLYPH U032A", aliases: &[] },
        Codepoint { codepoint: 0x13358, name: "EGYPTIAN HIEROGLYPH U033", aliases: &[] },
        Codepoint { codepoint: 0x13359, name: "EGYPTIAN HIEROGLYPH U034", aliases: &[] },
        Codepoint { codepoint: 0x1335A, name: "EGYPTIAN HIEROGLYPH U035", aliases: &[] },
        Codepoint { codepoint: 0x1335B, name: "EGYPTIAN HIEROGLYPH U036", aliases: &[] },
        Codepoint { codepoint: 0x1335C, name: "EGYPTIAN HIEROGLYPH U037", aliases: &[] },
        Codepoint { codepoint: 0x1335D, name: "EGYPTIAN HIEROGLYPH U038", aliases: &[] },
        Codepoint { codepoint: 0x1335E, name: "EGYPTIAN HIEROGLYPH U039", aliases: &[] },
        Codepoint { codepoint: 0x1335F, name: "EGYPTIAN HIEROGLYPH U040", aliases: &[] },
        Codepoint { codepoint: 0x13360, name: "EGYPTIAN HIEROGLYPH U041", aliases: &[] },
        Codepoint { codepoint: 0x13361, name: "EGYPTIAN HIEROGLYPH U042", aliases: &[] },
        Codepoint { codepoint: 0x13362, name: "EGYPTIAN HIEROGLYPH V001", aliases: &[] },
        Codepoint { codepoint: 0x13363, name: "EGYPTIAN HIEROGLYPH V001A", aliases: &[] },
        Codepoint { codepoint: 0x13364, name: "EGYPTIAN HIEROGLYPH V001B", aliases: &[] },
    ];
    assert(v@ =~= codepoint_table_595());
    v
}

pub open spec fn codepoint_table_596() -> Seq<Codepoint> {
    seq![
        Codepoint { codepoint: 0x13365, name: "EGYPTIAN HIEROGLYPH V001C", aliases: &[] },
        Codepoint { codepoint: 0x13366, name: "EGYPTIAN HIEROGLYPH V001D", aliases: &[] },
        Codepoint { codepoint: 0x13367, name: "EGYPTIAN HIEROGLYPH V001E", aliases: &[] },
        Codepoint { codepoint: 0x13368, name: "EGYPTIAN HIEROGLYPH V001F", aliases: &[] },
        Codepoint { codepoint: 0x13369, name: "EGYPTIAN HIEROGLYPH V001G", aliases: &[] },
        Codepoint { codepoint: 0x1336A, name: "EGYPTIAN HIEROGLYPH V001H", aliases: &[] },
        Codepoint { codepoint: 0x1336B, name: "EGYPTIAN HIEROGLYPH V001I", aliases: &[] },
        Codepoint { codepoint: 0x1336C, name: "EGYPTIAN HIEROGLYPH V002", aliases: &[] },
        Codepoint { codepoint: 0x1336D, name: "EGYPTIAN HIEROGLYPH V002A", aliases: &[] },
        Codepoint { codepoint: 0x1336E, name: "EGYPTIAN HIEROGLYPH V003", aliases: &[] },
        Codepoint { codepoint: 0x1336F, name: "EGYPTIAN HIEROGLYPH V004", aliases: &[] },
        Codepoint { codepoint: 0x13370, name: "EGYPTIAN HIEROGLYPH V005", aliases: &[] },
        Codepoint { codepoint: 0x13371, name: "EGYPTIAN HIEROGLYPH V006", aliases: &[] },
        Codepoint { codepoint: 0x13372, name: "EGYPTIAN HIEROGLYPH V007", aliases: &[] },
        Codepoint { codepoint: 0x13373, name: "EGYPTIAN HIEROGLYPH V007A", aliases: &[] },
        Codepoint { codepoint: 0x13374, name: "EGYPTIAN HIEROGLYPH V007B", aliases: &[] },
        Codepoint { codepoint: 0x13375, name: "EGYPTIAN HIEROGLYPH V008", aliases: &[] },
        Codepoint { codepoint: 0x13376, name: "EGYPTIAN HIEROGLYPH V009", aliases: &[] },
        Codepoint { codepoint: 0x13377, name: "EGYPTIAN HIEROGLYPH V010", aliases: &[] },
        Codepoint { codepoint: 0x13378, name: "EGYPTIAN HIEROGLYPH V011", aliases: &[] },
        Codepoint { codepoint: 0x13379, name: "EGYPTIAN HIEROGLYPH V011A", aliases: &[] },
        Codepoint { codepoint: 0x1337A, name: "EGYPTIAN HIEROGLYPH V011B", aliases: &[] },
        Codepoint { codepoint: 0x1337B, name: "EGYPTIAN HIEROGLYPH V011C", aliases: &[] },
        Codepoint { codepoint: 0x1337C, name: "EGYPTIAN HIEROGLYPH V012", aliases: &[] },
        Codepoint { codepoint: 0x1337D, name: "EGYPTIAN HIEROGLYPH V012A", aliases: &[] },
        Codepoint { codepoint: 0x1337E, name: "EGYPTIAN HIEROGLYPH V012B", aliases: &[] },
        Codepoint { codepoint: 0x1337F, name: "EGYPTIAN HIEROGLYPH V013", aliases: &[] },
        Codepoint { codepoint: 0x13380, name: "EGYPTIAN HIEROGLYPH V014", aliases: &[] },
        Codepoint { codepoint: 0x13381, name: "EGYPTIAN HIEROGLYPH V015", aliases: &[] },
        Codepoint { codepoint: 0x13382, name: "EGYPTIAN HIEROGLYPH V016", aliases: &[] },
        Codepoint { codepoint: 0x13383, name: "EGYPTIAN HIEROGLYPH V017", aliases: &[] },
        Codepoint { codepoint: 0x13384, name: "EGYPTIAN HIEROGLYPH V018", aliases: &[] },
        Codepoint { codepoint: 0x13385, name: "EGYPTIAN HIEROGLYPH V019", aliases: &[] },
        Codepoint { codepoint: 0x13386, name: "EGYPTIAN HIEROGLYPH V020", aliases: &[] },
        Codepoint { codepoint: 0x13387, name: "EGYPTIAN HIEROGLYPH V020A", aliases: &[] },
        Codepoint { codepoint: 0x13388, name: "EGYPTIAN HIEROGLYPH V020B", aliases: &[] },
        Codepoint { codepoint: 0x13389, name: "EGYPTIAN HIEROGLYPH V020C", aliases: &[] },
        Codepoint { codepoint: 0x1338A, name: "EGYPTIAN HIEROGLYPH V020D", aliases: &[] },
        Codepoint { codepoint: 0x1338B, name: "EGYPTIAN HIEROGLYPH V020E", aliases: &[] },
        Codepoint { codepoint: 0x1338C, name: "EGYPTIAN HIEROGLYPH V020F", aliases: &[] },
    ]
}

fn all_codepoints_596() -> (v: Vec<Codepoint>)
    ensures
        v@ == codepoint_table_596(),
{
    let v = vec![
        Codepoint { codepoint: 0x13365, name: "EGYPTIAN HIEROGLYPH V001C", aliases: &[] },
        Codepoint { codepoint: 0x13366, name: "EGYPTIAN HIEROGLYPH V001D", aliases: &[] },
        Codepoint { codepoint: 0x13367, name: "EGYPTIAN HIEROGLYPH V001E", aliases: &[] },
        Codepoint { codepoint: 0x13368, name: "EGYPTIAN HIEROGLYPH V001F", aliases: &[] },
        Codepoint { codepoint: 0x13369, name: "EGYPTIAN HIEROGLYPH V001G", aliases: &[] },
        Codepoint { codepoint: 0x1336A, name: "EGYPTIAN HIEROGLYPH V001H", aliases: &[] },
        Codepoint { codepoint: 0x1336B, name: "EGYPTIAN HIEROGLYPH V001I", aliases: &[] },
        Codepoint { codepoint: 0x1336C, name: "EGYPTIAN HIEROGLYPH V002", aliases: &[] },
        Codepoint { codepoint: 0x1336D, name: "EGYPTIAN HIEROGLYPH V002A", aliases: &[] },
        Codepoint { codepoint: 0x1336E, name: "EGYPTIAN HIEROGLYPH V003", aliases: &[] },
        Codepoint { codepoint: 0x1336F, name: "EGYPTIAN HIEROGLYPH V004", aliases: &[] },
        Codepoint { codepoint: 0x13370, name: "EGYPTIAN HIEROGLYPH V005", aliases: &[] },
        Codepoint { codepoint: 0x13371, name: "EGYPTIAN HIEROGLYPH V006", aliases: &[] },
        Codepoint { codepoint: 0x13372, name: "EGYPTIAN HIEROGLYPH V007", aliases: &[] },
        Codepoint { codepoint: 0x13373, name: "EGYPTIAN HIEROGLYPH V007A", aliases: &[] },
        Codepoint { codepoint: 0x13374, name: "EGYPTIAN HIEROGLYPH V007B", aliases: &[] },
        Codepoint { codepoint: 0x13375, name: "EGYPTIAN HIEROGLYPH V008", aliases: &[] },
        Codepoint { codepoint: 0x13376, name: "EGYPTIAN HIEROGLYPH V009", aliases: &[] },
        Codepoint { codepoint: 0x13377, name: "EGYPTIAN HIEROGLYPH V010", aliases: &[] },
        Codepoint { codepoint: 0x13378, name: "EGYPTIAN HIEROGLYPH V011", aliases: &[] },
        Codepoint { codepoint: 0x13379, name: "EGYPTIAN HIEROGLYPH V011A", aliases: &[] },
        Codepoint { codepoint: 0x1337A, name: "EGYPTIAN HIEROGLYPH V011B", aliases: &[] },
        Codepoint { codepoint: 0x1337B, name: "EGYPTIAN HIEROGLYPH V011C", aliases: &[] },
        Codepoint { codepoint: 0x1337C, name: "EGYPTIAN HIEROGLYPH V012", aliases: &[] },
        Codepoint { codepoint: 0x1337D, name: "EGYPTIAN HIEROGLYPH V012A", aliases: &[] },
        Codepoint { codepoint: 0x1337E, name: "EGYPTIAN HIEROGLYPH V012B", aliases: &[] },
        Codepoint { codepoint: 0x1337F, name: "EGYPTIAN HIEROGLYPH V013", aliases: &[] },
        Codepoint { codepoint: 0x13380, name: "EGYPTIAN HIEROGLYPH V014", aliases: &[] },
        Codepoint { codepoint: 0x13381, name: "EGYPTIAN HIEROGLYPH V015", aliases: &[] },
        Codepoint { codepoint: 0x13382, name: "EGYPTIAN HIEROGLYPH V016", aliases: &[] },
        Codepoint { codepoint: 0x13383, name: "EGYPTIAN HIEROGLYPH V017", aliases: &[] },
        Codepoint { codepoint: 0x13384, name: "EGYPTIAN HIEROGLYPH V018", aliases: &[] },
        Codepoint { codepoint: 0x13385, name: "EGYPTIAN HIEROGLYPH V019", aliases: &[] },
        Codepoint { codepoint: 0x13386, name: "EGYPTIAN HIEROGLYPH V020", aliases: &[] },
        Codepoint { codepoint: 0x13387, name: "EGYPTIAN HIEROGLYPH V020A", aliases: &[] },
        Codepoint { codepoint: 0x13388, name: "EGYPTIAN HIEROGLYPH V020B", aliases: &[] },
        Codepoint { codepoint: 0x13389, name: "EGYPTIAN HIEROGLYPH V020C", aliases: &[] },
        Codepoint { codepoint: 0x1338A, name: "EGYPTIAN HIEROGLYPH V020D", aliases: &[] },
        Codepoint { codepoint: 0x1338B, name: "EGYPTIAN HIEROGLYPH V020E", aliases: &[] },
        Codepoint { codepoint: 0x1338C, name: "EGYPTIAN HIEROGLYPH V020F", aliases: &[] },
    ];
    assert(v@ =~= codepoint_table_596());
    v
}

pub open spec fn codepoint_table_597() -> Seq<Codepoint> {
    seq![
        Codepoint { codepoint: 0x1338D, name: "EGYPTIAN HIEROGLYPH V020G", aliases: &[] },
        Codepoint { codepoint: 0x1338E, name: "EGYPTIAN HIEROGLYPH V020H", aliases: &[] },
        Codepoint { codepoint: 0x1338F, name: "EGYPTIAN HIEROGLYPH V020I", aliases: &[] },
        Codepoint { codepoint: 0x13390, name: "EGYPTIAN HIEROGLYPH V020J", aliases: &[] },
        Codepoint { codepoint: 0x13391, name: "EGYPTIAN HIEROGLYPH V020K", aliases: &[] },
        Codepoint { codepoint: 0x13392, name: "EGYPTIAN HIEROGLYPH V020L", aliases: &[] },
        Codepoint { codepoint: 0x13393, name: "EGYPTIAN HIEROGLYPH V021", aliases: &[] },
        Codepoint { codepoint: 0x13394, name: "EGYPTIAN HIEROGLYPH V022", aliases: &[] },
        Codepoint { codepoint: 0x13395, name: "EGYPTIAN HIEROGLYPH V023", aliases: &[] },
        Codepoint { codepoint: 0x13396, name: "EGYPTIAN HIEROGLYPH V023A", aliases: &[] },
        Codepoint { codepoint: 0x13397, name: "EGYPTIAN HIEROGLYPH V024", aliases: &[] },
        Codepoint { codepoint: 0x13398, name: "EGYPTIAN HIEROGLYPH V025", aliases: &[] },
        Codepoint { codepoint: 0x13399, name: "EGYPTIAN HIEROGLYPH V026", aliases: &[] },
        Codepoint { codepoint: 0x1339A, name: "EGYPTIAN HIEROGLYPH V027", aliases: &[] },
        Codepoint { codepoint: 0x1339B, name: "EGYPTIAN HIEROGLYPH V028", aliases: &[] },
        Codepoint { codepoint: 0x1339C, name: "EGYPTIAN HIEROGLYPH V028A", aliases: &[] },
        Codepoint { codepoint: 0x1339D, name: "EGYPTIAN HIEROGLYPH V029", aliases: &[] },
        Codepoint { codepoint: 0x1339E, name: "EGYPTIAN HIEROGLYPH V029A", aliases: &[] },
        Codepoint { codepoint: 0x1339F, name: "EGYPTIAN HIEROGLYPH V030", aliases: &[] },
        Codepoint { codepoint: 0x133A0, name: "EGYPTIAN HIEROGLYPH V030A", aliases: &[] },
        Codepoint { codepoint: 0x133A1, name: "EGYPTIAN HIEROGLYPH V031", aliases: &[] },
        Codepoint { codepoint: 0x133A2, name: "EGYPTIAN HIEROGLYPH V031A", aliases: &[] },
        Codepoint { codepoint: 0x133A3, name: "EGYPTIAN HIEROGLYPH V032", aliases: &[] },
        Codepoint { codepoint: 0x133A4, name: "EGYPTIAN HIEROGLYPH V033", aliases: &[] },
        Codepoint { codepoint: 0x133A5, name: "EGYPTIAN HIEROGLYPH V033A", aliases: &[] },
        Codepoint { codepoint: 0x133A6, name: "EGYPTIAN HIEROGLYPH V034", aliases: &[] },
        Codepoint { codepoint: 0x133A7, name: "EGYPTIAN HIEROGLYPH V035", aliases: &[] },
        Codepoint { codepoint: 0x133A8, name: "EGYPTIAN HIEROGLYPH V036", aliases: &[] },
        Codepoint { codepoint: 0x133A9, name: "EGYPTIAN HIEROGLYPH V037", aliases: &[] },
        Codepoint { codepoint: 0x133AA, name: "EGYPTIAN HIEROGLYPH V037A", aliases: &[] },
        Codepoint { codepoint: 0x133AB, name: "EGYPTIAN HIEROGLYPH V038", aliases: &[] },
        Codepoint { codepoint: 0x133AC, name: "EGYPTIAN HIEROGLYPH V039", aliases: &[] },
        Codepoint { codepoint: 0x133AD, name: "EGYPTIAN HIEROGLYPH V040", aliases: &[] },
        Codepoint { codepoint: 0x133AE, name: "EGYPTIAN HIEROGLYPH V040A", aliases: &[] },
        Codepoint { codepoint: 0x133AF, name: "EGYPTIAN HIEROGLYPH W001", aliases: &[] },
        Codepoint { codepoint: 0x133B0, name: "EGYPTIAN HIEROGLYPH W002", aliases: &[] },
        Codepoint { codepoint: 0x133B1, name: "EGYPTIAN HIEROGLYPH W003", aliases: &[] },
        Codepoint { codepoint: 0x133B2, name: "EGYPTIAN HIEROGLYPH W003A", aliases: &[] },
        Codepoint { codepoint: 0x133B3, name: "EGYPTIAN HIEROGLYPH W004", aliases: &[] },
        Codepoint { codepoint: 0x133B4, name: "EGYPTIAN HIEROGLYPH W005", aliases: &[] },
    ]
}

fn all_codepoints_597() -> (v: Vec<Codepoint>)
    ensures
        v@ == codepoint_table_597(),
{
    let v = vec![
        Codepoint { codepoint: 0x1338D, name: "EGYPTIAN HIEROGLYPH V020G", aliases: &[] },
        Codepoint { codepoint: 0x1338E, name: "EGYPTIAN HIEROGLYPH V020H", aliases: &[] },
        Codepoint { codepoint: 0x1338F, name: "EGYPTIAN HIEROGLYPH V020I", aliases: &[] },
        Codepoint { codepoint: 0x13390, name: "EGYPTIAN HIEROGLYPH V020J", aliases: &[] },
        Codepoint { codepoint: 0x13391, name: "EGYPTIAN HIEROGLYPH V020K", aliases: &[] },
        Codepoint { codepoint: 0x13392, name: "EGYPTIAN HIEROGLYPH V020L", aliases: &[] },
        Codepoint { codepoint: 0x13393, name: "EGYPTIAN HIEROGLYPH V021", aliases: &[] },
        Codepoint { codepoint: 0x13394, name: "EGYPTIAN HIEROGLYPH V022", aliases: &[] },
        Codepoint { codepoint: 0x13395, name: "EGYPTIAN HIEROGLYPH V023", aliases: &[] },
        Codepoint { codepoint: 0x13396, name: "EGYPTIAN HIEROGLYPH V023A", aliases: &[] },
        Codepoint { codepoint: 0x13397, name: "EGYPTIAN HIEROGLYPH V024", aliases: &[] },
        Codepoint { codepoint: 0x13398, name: "EGYPTIAN HIEROGLYPH V025", aliases: &[] },
        Codepoint { codepoint: 0x13399, name: "EGYPTIAN HIEROGLYPH V026", aliases: &[] },
        Codepoint { codepoint: 0x1339A, name: "EGYPTIAN HIEROGLYPH V027", aliases: &[] },
        Codepoint { codepoint: 0x1339B, name: "EGYPTIAN HIEROGLYPH V028", aliases: &[] },
        Codepoint { codepoint: 0x1339C, name: "EGYPTIAN HIEROGLYPH V028A", aliases: &[] },
        Codepoint { codepoint: 0x1339D, name: "EGYPTIAN HIEROGLYPH V029", aliases: &[] },
        Codepoint { codepoint: 0x1339E, name: "EGYPTIAN HIEROGLYPH V029A", aliases: &[] },
        Codepoint { codepoint: 0x1339F, name: "EGYPTIAN HIEROGLYPH V030", aliases: &[] },
        Codepoint { codepoint: 0x133A0, name: "EGYPTIAN HIEROGLYPH V030A", aliases: &[] },
        Codepoint { codepoint: 0x133A1, name: "EGYPTIAN HIEROGLYPH V031", aliases: &[] },
        Codepoint { codepoint: 0x133A2, name: "EGYPTIAN HIEROGLYPH V031A", aliases: &[] },
        Codepoint { codepoint: 0x133A3, name: "EGYPTIAN HIEROGLYPH V032", aliases: &[] },
        Codepoint { codepoint: 0x133A4, name: "EGYPTIAN HIEROGLYPH V033", aliases: &[] },
        Codepoint { codepoint: 0x133A5, name: "EGYPTIAN HIEROGLYPH V033A", aliases: &[] },
        Codepoint { codepoint: 0x133A6, name: "EGYPTIAN HIEROGLYPH V034", aliases: &[] },
        Codepoint { codepoint: 0x133A7, name: "EGYPTIAN HIEROGLYPH V035", aliases: &[] },
        Codepoint { codepoint: 0x133A8, name: "EGYPTIAN HIEROGLYPH V036", aliases: &[] },
        Codepoint { codepoint: 0x133A9, name: "EGYPTIAN HIEROGLYPH V037", aliases: &[] },
        Codepoint { codepoint: 0x133AA, name: "EGYPTIAN HIEROGLYPH V037A", aliases: &[] },
        Codepoint { codepoint: 0x133AB, name: "EGYPTIAN HIEROGLYPH V038", aliases: &[] },
        Codepoint { codepoint: 0x133AC, name: "EGYPTIAN HIEROGLYPH V039", aliases: &[] },
        Codepoint { codepoint: 0x133AD, name: "EGYPTIAN HIEROGLYPH V040", aliases: &[] },
        Codepoint { codepoint: 0x133AE, name: "EGYPTIAN HIEROGLYPH V040A", aliases: &[] },
        Codepoint { codepoint: 0x133AF, name: "EGYPTIAN HIEROGLYPH W001", aliases: &[] },
        Codepoint { codepoint: 0x133B0, name: "EGYPTIAN HIEROGLYPH W002", aliases: &[] },
        Codepoint { codepoint: 0x133B1, name: "EGYPTIAN HIEROGLYPH W003", aliases: &[] },
        Codepoint { codepoint: 0x133B2, name: "EGYPTIAN HIEROGLYPH W003A", aliases: &[] },
        Codepoint { codepoint: 0x133B3, name: "EGYPTIAN HIEROGLYPH W004", aliases: &[] },
        Codepoint { codepoint: 0x133B4, name: "EGYPTIAN HIEROGLYPH W005", aliases: &[] },
    ];
    assert(v@ =~= codepoint_table_597());
    v
}

pub open spec fn codepoint_table_598() -> Seq<Codepoint> {
    seq![
        Codepoint { codepoint: 0x133B5, name: "EGYPTIAN HIEROGLYPH W006", aliases: &[] },
        Codepoint { codepoint: 0x133B6, name: "EGYPTIAN HIEROGLYPH W007", aliases: &[] },
        Codepoint { codepoint: 0x133B7, name: "EGYPTIAN HIEROGLYPH W008", aliases: &[] },
        Codepoint { codepoint: 0x133B8, name: "EGYPTIAN HIEROGLYPH W009", aliases: &[] },
        Codepoint { codepoint: 0x133B9, name: "EGYPTIAN HIEROGLYPH W009A", aliases: &[] },
        Codepoint { codepoint: 0x133BA, name: "EGYPTIAN HIEROGLYPH W010", aliases: &[] },
        Codepoint { codepoint: 0x133BB, name: "EGYPTIAN HIEROGLYPH W010A", aliases: &[] },
        Codepoint { codepoint: 0x133BC, name: "EGYPTIAN HIEROGLYPH W011", aliases: &[] },
        Codepoint { codepoint: 0x133BD, name: "EGYPTIAN HIEROGLYPH W012", aliases: &[] },
        Codepoint { codepoint: 0x133BE, name: "EGYPTIAN HIEROGLYPH W013", aliases: &[] },
        Codepoint { codepoint: 0x133BF, name: "EGYPTIAN HIEROGLYPH W014", aliases: &[] },
        Codepoint { codepoint: 0x133C0, name: "EGYPTIAN HIEROGLYPH W014A", aliases: &[] },
        Codepoint { codepoint: 0x133C1, name: "EGYPTIAN HIEROGLYPH W015", aliases: &[] },
        Codepoint { codepoint: 0x133C2, name: "EGYPTIAN HIEROGLYPH W016", aliases: &[] },
        Codepoint { codepoint: 0x133C3, name: "EGYPTIAN HIEROGLYPH W017", aliases: &[] },
        Codepoint { codepoint: 0x133C4, name: "EGYPTIAN HIEROGLYPH W017A", aliases: &[] },
        Codepoint { codepoint: 0x133C5, name: "EGYPTIAN HIEROGLYPH W018", aliases: &[] },
        Codepoint { codepoint: 0x133C6, name: "EGYPTIAN HIEROGLYPH W018A", aliases: &[] },
        Codepoint { codepoint: 0x133C7, name: "EGYPTIAN HIEROGLYPH W019", aliases: &[] },
        Codepoint { codepoint: 0x133C8, name: "EGYPTIAN HIEROGLYPH W020", aliases: &[] },
        Codepoint { codepoint: 0x133C9, name: "EGYPTIAN HIEROGLYPH W021", aliases: &[] },
        Codepoint { codepoint: 0x133CA, name: "EGYPTIAN HIEROGLYPH W022", aliases: &[] },
        Codepoint { codepoint: 0x133CB, name: "EGYPTIAN HIEROGLYPH W023", aliases: &[] },
        Codepoint { codepoint: 0x133CC, name: "EGYPTIAN HIEROGLYPH W024", aliases: &[] },
        Codepoint { codepoint: 0x133CD, name: "EGYPTIAN HIEROGLYPH W024A", aliases: &[] },
        Codepoint { codepoint: 0x133CE, name: "EGYPTIAN HIEROGLYPH W025", aliases: &[] },
        Codepoint { codepoint: 0x133CF, name: "EGYPTIAN HIEROGLYPH X001", aliases: &[] },
        Codepoint { codepoint: 0x133D0, name: "EGYPTIAN HIEROGLYPH X002", aliases: &[] },
        Codepoint { codepoint: 0x133D1, name: "EGYPTIAN HIEROGLYPH X003", aliases: &[] },
        Codepoint { codepoint: 0x133D2, name: "EGYPTIAN HIEROGLYPH X004", aliases: &[] },
        Codepoint { codepoint: 0x133D3, name: "EGYPTIAN HIEROGLYPH X004A", aliases: &[] },
        Codepoint { codepoint: 0x133D4, name: "EGYPTIAN HIEROGLYPH X004B", aliases: &[] },
        Codepoint { codepoint: 0x133D5, name: "EGYPTIAN HIEROGLYPH X005", aliases: &[] },
        Codepoint { codepoint: 0x133D6, name: "EGYPTIAN HIEROGLYPH X006", aliases: &[] },
        Codepoint { codepoint: 0x133D7, name: "EGYPTIAN HIEROGLYPH X006A", aliases: &[] },
        Codepoint { codepoint: 0x133D8, name: "EGYPTIAN HIEROGLYPH X007", aliases: &[] },
        Codepoint { codepoint: 0x133D9, name: "EGYPTIAN HIEROGLYPH X008", aliases: &[] },
        Codepoint { codepoint: 0x133DA, name: "EGYPTIAN HIEROGLYPH X008A", aliases: &[] },
        Codepoint { codepoint: 0x133DB, name: "EGYPTIAN HIEROGLYPH Y001", aliases: &[] },
        Codepoint { codepoint: 0x133DC, name: "EGYPTIAN HIEROGLYPH Y001A", aliases: &[] },
    ]
}

fn all_codepoints_598() -> (v: Vec<Codepoint>)
    ensures
        v@ == codepoint_table_598(),
{
    let v = vec![
        Codepoint { codepoint: 0x133B5, name: "EGYPTIAN HIEROGLYPH W006", aliases: &[] },
        Codepoint { codepoint: 0x133B6, name: "EGYPTIAN HIEROGLYPH W007", aliases: &[] },
        Codepoint { codepoint: 0x133B7, name: "EGYPTIAN HIEROGLYPH W008", aliases: &[] },
        Codepoint { codepoint: 0x133B8, name: "EGYPTIAN HIEROGLYPH W009", aliases: &[] },
        Codepoint { codepoint: 0x133B9, name: "EGYPTIAN HIEROGLYPH W009A", aliases: &[] },
        Codepoint { codepoint: 0x133BA, name: "EGYPTIAN HIEROGLYPH W010", aliases: &[] },
        Codepoint { codepoint: 0x133BB, name: "EGYPTIAN HIEROGLYPH W010A", aliases: &[] },
        Codepoint { codepoint: 0x133BC, name: "EGYPTIAN HIEROGLYPH W011", aliases: &[] },
        Codepoint { codepoint: 0x133BD, name: "EGYPTIAN HIEROGLYPH W012", aliases: &[] },
        Codepoint { codepoint: 0x133BE, name: "EGYPTIAN HIEROGLYPH W013", aliases: &[] },
        Codepoint { codepoint: 0x133BF, name: "EGYPTIAN HIEROGLYPH W014", aliases: &[] },
        Codepoint { codepoint: 0x133C0, name: "EGYPTIAN HIEROGLYPH W014A", aliases: &[] },
        Codepoint { codepoint: 0x133C1, name: "EGYPTIAN HIEROGLYPH W015", aliases: &[] },
        Codepoint { codepoint: 0x133C2, name: "EGYPTIAN HIEROGLYPH W016", aliases: &[] },
        Codepoint { codepoint: 0x133C3, name: "EGYPTIAN HIEROGLYPH W017", aliases: &[] },
        Codepoint { codepoint: 0x133C4, name: "EGYPTIAN HIEROGLYPH W017A", aliases: &[] },
        Codepoint { codepoint: 0x133C5, name: "EGYPTIAN HIEROGLYPH W018", aliases: &[] },
        Codepoint { codepoint: 0x133C6, name: "EGYPTIAN HIEROGLYPH W018A", aliases: &[] },
        Codepoint { codepoint: 0x133C7, name: "EGYPTIAN HIEROGLYPH W019", aliases: &[] },
        Codepoint { codepoint: 0x133C8, name: "EGYPTIAN HIEROGLYPH W020", aliases: &[] },
        Codepoint { codepoint: 0x133C9, name: "EGYPTIAN HIEROGLYPH W021", aliases: &[] },
        Codepoint { codepoint: 0x133CA, name: "EGYPTIAN HIEROGLYPH W022", aliases: &[] },
        Codepoint { codepoint: 0x133CB, name: "EGYPTIAN HIEROGLYPH W023", aliases: &[] },
        Codepoint { codepoint: 0x133CC, name: "EGYPTIAN HIEROGLYPH W024", aliases: &[] },
        Codepoint { codepoint: 0x133CD, name: "EGYPTIAN HIEROGLYPH W024A", aliases: &[] },
        Codepoint { codepoint: 0x133CE, name: "EGYPTIAN HIEROGLYPH W025", aliases: &[] },
        Codepoint { codepoint: 0x133CF, name: "EGYPTIAN HIEROGLYPH X001", aliases: &[] },
        Codepoint { codepoint: 0x133D0, name: "EGYPTIAN HIEROGLYPH X002", aliases: &[] },
        Codepoint { codepoint: 0x133D1, name: "EGYPTIAN HIEROGLYPH X003", aliases: &[] },
        Codepoint { codepoint: 0x133D2, name: "EGYPTIAN HIEROGLYPH X004", aliases: &[] },
        Codepoint { codepoint: 0x133D3, name: "EGYPTIAN HIEROGLYPH X004A", aliases: &[] },
        Codepoint { codepoint: 0x133D4, name: "EGYPTIAN HIEROGLYPH X004B", aliases: &[] },
        Codepoint { codepoint: 0x133D5, name: "EGYPTIAN HIEROGLYPH X005", aliases: &[] },
        Codepoint { codepoint: 0x133D6, name: "EGYPTIAN HIEROGLYPH X006", aliases: &[] },
        Codepoint { codepoint: 0x133D7, name: "EGYPTIAN HIEROGLYPH X006A", aliases: &[] },
        Codepoint { codepoint: 0x133D8, name: "EGYPTIAN HIEROGLYPH X007", aliases: &[] },
        Codepoint { codepoint: 0x133D9, name: "EGYPTIAN HIEROGLYPH X008", aliases: &[] },
        Codepoint { codepoint: 0x133DA, name: "EGYPTIAN HIEROGLYPH X008A", aliases: &[] },
        Codepoint { codepoint: 0x133DB, name: "EGYPTIAN HIEROGLYPH Y001", aliases: &[] },
        Codepoint { codepoint: 0x133DC, name: "EGYPTIAN HIEROGLYPH Y001A", aliases: &[] },
    ];
    assert(v@ =~= codepoint_table_598());
    v
}

pub open spec fn codepoint_table_599() -> Seq<Codepoint> {
    seq![
        Codepoint { codepoint: 0x133DD, name: "EGYPTIAN HIEROGLYPH Y002", aliases: &[] },
        Codepoint { codepoint: 0x133DE, name: "EGYPTIAN HIEROGLYPH Y003", aliases: &[] },
        Codepoint { codepoint: 0x133DF, name: "EGYPTIAN HIEROGLYPH Y004", aliases: &[] },
        Codepoint { codepoint: 0x133E0, name: "EGYPTIAN HIEROGLYPH Y005", aliases: &[] },
        Codepoint { codepoint: 0x133E1, name: "EGYPTIAN HIEROGLYPH Y006", aliases: &[] },
        Codepoint { codepoint: 0x133E2, name: "EGYPTIAN HIEROGLYPH Y007", aliases: &[] },
        Codepoint { codepoint: 0x133E3, name: "EGYPTIAN HIEROGLYPH Y008", aliases: &[] },
        Codepoint { codepoint: 0x133E4, name: "EGYPTIAN HIEROGLYPH Z001", aliases: &[] },
        Codepoint { codepoint: 0x133E5, name: "EGYPTIAN HIEROGLYPH Z002", aliases: &[] },
        Codepoint { codepoint: 0x133E6, name: "EGYPTIAN HIEROGLYPH Z002A", aliases: &[] },
        Codepoint { codepoint: 0x133E7, name: "EGYPTIAN HIEROGLYPH Z002B", aliases: &[] },
        Codepoint { codepoint: 0x133E8, name: "EGYPTIAN HIEROGLYPH Z002C", aliases: &[] },
        Codepoint { codepoint: 0x133E9, name: "EGYPTIAN HIEROGLYPH Z002D", aliases: &[] },
        Codepoint { codepoint: 0x133EA, name: "EGYPTIAN HIEROGLYPH Z003", aliases: &[] },
        Codepoint { codepoint: 0x133EB, name: "EGYPTIAN HIEROGLYPH Z003A", aliases: &[] },
        Codepoint { codepoint: 0x133EC, name: "EGYPTIAN HIEROGLYPH Z003B", aliases: &[] },
        Codepoint { codepoint: 0x133ED, name: "EGYPTIAN HIEROGLYPH Z004", aliases: &[] },
        Codepoint { codepoint: 0x133EE, name: "EGYPTIAN HIEROGLYPH Z004A", aliases: &[] },
        Codepoint { codepoint: 0x133EF, name: "EGYPTIAN HIEROGLYPH Z005", aliases: &[] },
        Codepoint { codepoint: 0x133F0, name: "EGYPTIAN HIEROGLYPH Z005A", aliases: &[] },
        Codepoint { codepoint: 0x133F1, name: "EGYPTIAN HIEROGLYPH Z006", aliases: &[] },
        Codepoint { codepoint: 0x133F2, name: "EGYPTIAN HIEROGLYPH Z007", aliases: &[] },
        Codepoint { codepoint: 0x133F3, name: "EGYPTIAN HIEROGLYPH Z008", aliases: &[] },
        Codepoint { codepoint: 0x133F4, name: "EGYPTIAN HIEROGLYPH Z009", aliases: &[] },
        Codepoint { codepoint: 0x133F5, name: "EGYPTIAN HIEROGLYPH Z010", aliases: &[] },
        Codepoint { codepoint: 0x133F6, name: "EGYPTIAN HIEROGLYPH Z011", aliases: &[] },
        Codepoint { codepoint: 0x133F7, name: "EGYPTIAN HIEROGLYPH Z012", aliases: &[] },
        Codepoint { codepoint: 0x133F8, name: "EGYPTIAN HIEROGLYPH Z013", aliases: &[] },
        Codepoint { codepoint: 0x133F9, name: "EGYPTIAN HIEROGLYPH Z014", aliases: &[] },
        Codepoint { codepoint: 0x133FA, name: "EGYPTIAN HIEROGLYPH Z015", aliases: &[] },
        Codepoint { codepoint: 0x133FB, name: "EGYPTIAN HIEROGLYPH Z015A", aliases: &[] },
        Codepoint { codepoint: 0x133FC, name: "EGYPTIAN HIEROGLYPH Z015B", aliases: &[] },
        Codepoint { codepoint: 0x133FD, name: "EGYPTIAN HIEROGLYPH Z015C", aliases: &[] },
        Codepoint { codepoint: 0x133FE, name: "EGYPTIAN HIEROGLYPH Z015D", aliases: &[] },
        Codepoint { codepoint: 0x133FF, name: "EGYPTIAN HIEROGLYPH Z015E", aliases: &[] },
        Codepoint { codepoint: 0x13400, name: "EGYPTIAN HIEROGLYPH Z015F", aliases: &[] },
        Codepoint { codepoint: 0x13401, name: "EGYPTIAN HIEROGLYPH Z015G", aliases: &[] },
        Codepoint { codepoint: 0x13402, name: "EGYPTIAN HIEROGLYPH Z015H", aliases: &[] },
        Codepoint { codepoint: 0x13403, name: "EGYPTIAN HIEROGLYPH Z015I", aliases: &[] },
        Codepoint { codepoint: 0x13404, name: "EGYPTIAN HIEROGLYPH Z016", aliases: &[] },
    ]
}

fn all_codepoints_599() -> (v: Vec<Codepoint>)
    ensures
        v@ == codepoint_table_599(),
{
    let v = vec![
        Codepoint { codepoint: 0x133DD, name: "EGYPTIAN HIEROGLYPH Y002", aliases: &[] },
        Codepoint { codepoint: 0x133DE, name: "EGYPTIAN HIEROGLYPH Y003", aliases: &[] },
        Codepoint { codepoint: 0x133DF, name: "EGYPTIAN HIEROGLYPH Y004", aliases: &[] },
        Codepoint { codepoint: 0x133E0, name: "EGYPTIAN HIEROGLYPH Y005", aliases: &[] },
        Codepoint { codepoint: 0x133E1, name: "EGYPTIAN HIEROGLYPH Y006", aliases: &[] },
        Codepoint { codepoint: 0x133E2, name: "EGYPTIAN HIEROGLYPH Y007", aliases: &[] },
        Codepoint { codepoint: 0x133E3, name: "EGYPTIAN HIEROGLYPH Y008", aliases: &[] },
        Codepoint { codepoint: 0x133E4, name: "EGYPTIAN HIEROGLYPH Z001", aliases: &[] },
        Codepoint { codepoint: 0x133E5, name: "EGYPTIAN HIEROGLYPH Z002", aliases: &[] },
        Codepoint { codepoint: 0x133E6, name: "EGYPTIAN HIEROGLYPH Z002A", aliases: &[] },
        Codepoint { codepoint: 0x133E7, name: "EGYPTIAN HIEROGLYPH Z002B", aliases: &[] },
        Codepoint { codepoint: 0x133E8, name: "EGYPTIAN HIEROGLYPH Z002C", aliases: &[] },
        Codepoint { codepoint: 0x133E9, name: "EGYPTIAN HIEROGLYPH Z002D", aliases: &[] },
        Codepoint { codepoint: 0x133EA, name: "EGYPTIAN HIEROGLYPH Z003", aliases: &[] },
        Codepoint { codepoint: 0x133EB, name: "EGYPTIAN HIEROGLYPH Z003A", aliases: &[] },
        Codepoint { codepoint: 0x133EC, name: "EGYPTIAN HIEROGLYPH Z003B", aliases: &[] },
        Codepoint { codepoint: 0x133ED, name: "EGYPTIAN HIEROGLYPH Z004", aliases: &[] },
        Codepoint { codepoint: 0x133EE, name: "EGYPTIAN HIEROGLYPH Z004A", aliases: &[] },
        Codepoint { codepoint: 0x133EF, name: "EGYPTIAN HIEROGLYPH Z005", aliases: &[] },
        Codepoint { codepoint: 0x133F0, name: "EGYPTIAN HIEROGLYPH Z005A", aliases: &[] },
        Codepoint { codepoint: 0x133F1, name: "EGYPTIAN HIEROGLYPH Z006", aliases: &[] },
        Codepoint { codepoint: 0x133F2, name: "EGYPTIAN HIEROGLYPH Z007", aliases: &[] },
        Codepoint { codepoint: 0x133F3, name: "EGYPTIAN HIEROGLYPH Z008", aliases: &[] },
        Codepoint { codepoint: 0x133F4, name: "EGYPTIAN HIEROGLYPH Z009", aliases: &[] },
        Codepoint { codepoint: 0x133F5, name: "EGYPTIAN HIEROGLYPH Z010", aliases: &[] },
        Codepoint { codepoint: 0x133F6, name: "EGYPTIAN HIEROGLYPH Z011", aliases: &[] },
        Codepoint { codepoint: 0x133F7, name: "EGYPTIAN HIEROGLYPH Z012", aliases: &[] },
        Codepoint { codepoint: 0x133F8, name: "EGYPTIAN HIEROGLYPH Z013", aliases: &[] },
        Codepoint { codepoint: 0x133F9, name: "EGYPTIAN HIEROGLYPH Z014", aliases: &[] },
        Codepoint { codepoint: 0x133FA, name: "EGYPTIAN HIEROGLYPH Z015", aliases: &[] },
        Codepoint { codepoint: 0x133FB, name: "EGYPTIAN HIEROGLYPH Z015A", aliases: &[] },
        Codepoint { codepoint: 0x133FC, name: "EGYPTIAN HIEROGLYPH Z015B", aliases: &[] },
        Codepoint { codepoint: 0x133FD, name: "EGYPTIAN HIEROGLYPH Z015C", aliases: &[] },
        Codepoint { codepoint: 0x133FE, name: "EGYPTIAN HIEROGLYPH Z015D", aliases: &[] },
        Codepoint { codepoint: 0x133FF, name: "EGYPTIAN HIEROGLYPH Z015E", aliases: &[] },
        Codepoint { codepoint: 0x13400, name: "EGYPTIAN HIEROGLYPH Z015F", aliases: &[] },
        Codepoint { codepoint: 0x13401, name: "EGYPTIAN HIEROGLYPH Z015G", aliases: &[] },
        Codepoint { codepoint: 0x13402, name: "EGYPTIAN HIEROGLYPH Z015H", aliases: &[] },
        Codepoint { codepoint: 0x13403, name: "EGYPTIAN HIEROGLYPH Z015I", aliases: &[] },
        Codepoint { codepoint: 0x13404, name: "EGYPTIAN HIEROGLYPH Z016", aliases: &[] },
    ];
    assert(v@ =~= codepoint_table_599());
    v
}

/// The entries from position 23200 of the table, 800 at most.
pub open spec fn codepoint_group_29() -> Seq<Codepoint> {
    codepoint_table_580() + codepoint_table_581() + codepoint_table_582() + codepoint_table_583() + codepoint_table_584() + codepoint_table_585() + codepoint_table_586() + codepoint_table_587() + codepoint_table_588() + codepoint_table_589() + codepoint_table_590() + codepoint_table_591() + codepoint_table_592() + codepoint_table_593() + codepoint_table_594() + codepoint_table_595() + codepoint_table_596() + codepoint_table_597() + codepoint_table_598() + codepoint_table_599()
}

pub fn all_codepoints_group_29() -> (v: Vec<Codepoint>)
    ensures
        v@ == codepoint_group_29(),
{
    let mut v = all_codepoints_580();
    let mut part = all_codepoints_581();
    v.append(&mut part);
    let mut part = all_codepoints_582();
    v.append(&mut part);
    let mut part = all_codepoints_583();
    v.append(&mut part);
    let mut part = all_codepoints_584();
    v.append(&mut part);
    let mut part = all_codepoints_585();
    v.append(&mut part);
    let mut part = all_codepoints_586();
    v.append(&mut part);
    let mut part = all_codepoints_587();
    v.append(&mut part);
    let mut part = all_codepoints_588();
    v.append(&mut part);
    let mut part = all_codepoints_589();
    v.append(&mut part);
    let mut part = all_codepoints_590();
    v.append(&mut part);
    let mut part = all_codepoints_591();
    v.append(&mut part);
    let mut part = all_codepoints_592();
    v.append(&mut part);
    let mut part = all_codepoints_593();
    v.append(&mut part);
    let mut part = all_codepoints_594();
    v.append(&mut part);
    let mut part = all_codepoints_595();
    v.append(&mut part);
    let mut part = all_codepoints_596();
    v.append(&mut part);
    let mut part = all_codepoints_597();
    v.append(&mut part);
    let mut part = all_codepoints_598();
    v.append(&mut part);
    let mut part = all_codepoints_599();
    v.append(&mut part);
    v
}

} // verus!
