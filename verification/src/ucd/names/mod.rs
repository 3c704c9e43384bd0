//! Character names from the Unicode Character Database (version 14.0.0):
//! one entry per line of its character list, in order of codepoint. A range
//! of characters that the list gives by its first and last codepoint, such as
//! the CJK ideographs, has an entry for each of those two, named as the list
//! names them.
use vstd::prelude::*;

pub mod part0;
pub mod part1;
pub mod part2;
pub mod part3;
pub mod part4;

use crate::ucd::Codepoint;
use crate::ucd::names::part0::{all_codepoints_group_0, codepoint_group_0, all_codepoints_group_1, codepoint_group_1, all_codepoints_group_2, codepoint_group_2, all_codepoints_group_3, codepoint_group_3, all_codepoints_group_4, codepoint_group_4, all_codepoints_group_5, codepoint_group_5, all_codepoints_group_6, codepoint_group_6, all_codepoints_group_7, codepoint_group_7, all_codepoints_group_8, codepoint_group_8, all_codepoints_group_9, codepoint_group_9, lemma_group_0_dense};
use crate::ucd::names::part1::{all_codepoints_group_10, codepoint_group_10, all_codepoints_group_11, codepoint_group_11, all_codepoints_group_12, codepoint_group_12, all_codepoints_group_13, codepoint_group_13, all_codepoints_group_14, codepoint_group_14, all_codepoints_group_15, codepoint_group_15, all_codepoints_group_16, codepoint_group_16, all_codepoints_group_17, codepoint_group_17, all_codepoints_group_18, codepoint_group_18, all_codepoints_group_19, codepoint_group_19};
use crate::ucd::names::part2::{all_codepoints_group_20, codepoint_group_20, all_codepoints_group_21, codepoint_group_21, all_codepoints_group_22, codepoint_group_22, all_codepoints_group_23, codepoint_group_23, all_codepoints_group_24, codepoint_group_24, all_codepoints_group_25, codepoint_group_25, all_codepoints_group_26, codepoint_group_26, all_codepoints_group_27, codepoint_group_27, all_codepoints_group_28, codepoint_group_28, all_codepoints_group_29, codepoint_group_29};
use crate::ucd::names::part3::{all_codepoints_group_30, codepoint_group_30, all_codepoints_group_31, codepoint_group_31, all_codepoints_group_32, codepoint_group_32, all_codepoints_group_33, codepoint_group_33, all_codepoints_group_34, codepoint_group_34, all_codepoints_group_35, codepoint_group_35, all_codepoints_group_36, codepoint_group_36, all_codepoints_group_37, codepoint_group_37, all_codepoints_group_38, codepoint_group_38, all_codepoints_group_39, codepoint_group_39};
use crate::ucd::names::part4::{all_codepoints_group_40, codepoint_group_40, all_codepoints_group_41, codepoint_group_41, all_codepoints_group_42, codepoint_group_42, all_codepoints_group_43, codepoint_group_43};

verus! {

/// The named codepoints in increasing order, each with its Unicode 1.0 name as
/// an alias where it has one.
pub open spec fn codepoint_table() -> Seq<Codepoint> {
    codepoint_group_0() + later_groups()
}

/// The entries after the first group. A proof that needs them reveals them.
#[verifier::opaque]
pub open spec fn later_groups() -> Seq<Codepoint> {
    codepoint_group_1() + codepoint_group_2() + codepoint_group_3() + codepoint_group_4() + codepoint_group_5() + codepoint_group_6() + codepoint_group_7() + codepoint_group_8() + codepoint_group_9() + codepoint_group_10() + codepoint_group_11() + codepoint_group_12() + codepoint_group_13() + codepoint_group_14() + codepoint_group_15() + codepoint_group_16() + codepoint_group_17() + codepoint_group_18() + codepoint_group_19() + codepoint_group_20() + codepoint_group_21() + codepoint_group_22() + codepoint_group_23() + codepoint_group_24() + codepoint_group_25() + codepoint_group_26() + codepoint_group_27() + codepoint_group_28() + codepoint_group_29() + codepoint_group_30() + codepoint_group_31() + codepoint_group_32() + codepoint_group_33() + codepoint_group_34() + codepoint_group_35() + codepoint_group_36() + codepoint_group_37() + codepoint_group_38() + codepoint_group_39() + codepoint_group_40() + codepoint_group_41() + codepoint_group_42() + codepoint_group_43()
}

/// The table names each codepoint from U+0000 to U+024F, in order, each at
/// the position of its own number.
pub proof fn lemma_codepoint_table_dense()
    ensures
        codepoint_table().len() >= 0x250,
        forall|k: int| 0 <= k < 0x250 ==> #[trigger] codepoint_table()[k].codepoint == k,
{
    lemma_group_0_dense();
    let g = codepoint_group_0();
    let t = codepoint_table();
    assert forall|k: int| 0 <= k < 0x250 implies #[trigger] t[k].codepoint == k by {
        assert(t[k] == g[k]);
    }
}

/// The named codepoints in increasing order, each with its Unicode 1.0 name as
/// an alias where it has one.
/// The entries after the first group.
fn all_later_groups() -> (v: Vec<Codepoint>)
    ensures
        v@ == later_groups(),
{
    reveal(later_groups);
    let mut v = all_codepoints_group_1();
    let mut part = all_codepoints_group_2();
    v.append(&mut part);
    let mut part = all_codepoints_group_3();
    v.append(&mut part);
    let mut part = all_codepoints_group_4();
    v.append(&mut part);
    let mut part = all_codepoints_group_5();
    v.append(&mut part);
    let mut part = all_codepoints_group_6();
    v.append(&mut part);
    let mut part = all_codepoints_group_7();
    v.append(&mut part);
    let mut part = all_codepoints_group_8();
    v.append(&mut part);
    let mut part = all_codepoints_group_9();
    v.append(&mut part);
    let mut part = all_codepoints_group_10();
    v.append(&mut part);
    let mut part = all_codepoints_group_11();
    v.append(&mut part);
    let mut part = all_codepoints_group_12();
    v.append(&mut part);
    let mut part = all_codepoints_group_13();
    v.append(&mut part);
    let mut part = all_codepoints_group_14();
    v.append(&mut part);
    let mut part = all_codepoints_group_15();
    v.append(&mut part);
    let mut part = all_codepoints_group_16();
    v.append(&mut part);
    let mut part = all_codepoints_group_17();
    v.append(&mut part);
    let mut part = all_codepoints_group_18();
    v.append(&mut part);
    let mut part = all_codepoints_group_19();
    v.append(&mut part);
    let mut part = all_codepoints_group_20();
    v.append(&mut part);
    let mut part = all_codepoints_group_21();
    v.append(&mut part);
    let mut part = all_codepoints_group_22();
    v.append(&mut part);
    let mut part = all_codepoints_group_23();
    v.append(&mut part);
    let mut part = all_codepoints_group_24();
    v.append(&mut part);
    let mut part = all_codepoints_group_25();
    v.append(&mut part);
    let mut part = all_codepoints_group_26();
    v.append(&mut part);
    let mut part = all_codepoints_group_27();
    v.append(&mut part);
    let mut part = all_codepoints_group_28();
    v.append(&mut part);
    let mut part = all_codepoints_group_29();
    v.append(&mut part);
    let mut part = all_codepoints_group_30();
    v.append(&mut part);
    let mut part = all_codepoints_group_31();
    v.append(&mut part);
    let mut part = all_codepoints_group_32();
    v.append(&mut part);
    let mut part = all_codepoints_group_33();
    v.append(&mut part);
    let mut part = all_codepoints_group_34();
    v.append(&mut part);
    let mut part = all_codepoints_group_35();
    v.append(&mut part);
    let mut part = all_codepoints_group_36();
    v.append(&mut part);
    let mut part = all_codepoints_group_37();
    v.append(&mut part);
    let mut part = all_codepoints_group_38();
    v.append(&mut part);
    let mut part = all_codepoints_group_39();
    v.append(&mut part);
    let mut part = all_codepoints_group_40();
    v.append(&mut part);
    let mut part = all_codepoints_group_41();
    v.append(&mut part);
    let mut part = all_codepoints_group_42();
    v.append(&mut part);
    let mut part = all_codepoints_group_43();
    v.append(&mut part);
    v
}

/// The named codepoints in increasing order, each with its Unicode 1.0 name as
/// an alias where it has one.
pub fn all_codepoints() -> (v: Vec<Codepoint>)
    ensures
        v@ == codepoint_table(),
{
    let mut v = all_codepoints_group_0();
    let mut rest = all_later_groups();
    v.append(&mut rest);
    v
}

} // verus!
