//! Bundled `TWVariantsRev` dictionary: entries `source<TAB>replacement`, one per line.

use vstd::prelude::*;

verus! {

/// Part 0 of the text.
pub const TW_VARIANTS_REV_0: &'static str = "偽\t偽\n啟\t啟\n吃\t吃\n嫻\t嫻\n媯\t媯\n峰\t峰\n么\t幺\n梁\t梁\n抬\t抬\n稜\t稜\n樑\t樑\n簷\t檐\n汙\t污\n洩\t泄\n溈\t溈\n潀\t潀\n為\t為\n床\t牀\n痺\t痹\n痴\t痴\n皂\t皂\n著\t著\n睪\t睾\n灶\t灶\n粽\t糉\n韁\t繮\n才\t才\n群\t群\n唇\t脣\n參\t蔘\n蒍\t蒍\n眾\t眾\n裡\t裡\n核\t核\n踴\t踊\n缽\t鉢\n針\t針\n鯰\t鮎\n麵\t麵\n麼\t麼\n顎\t齶\n煙\t煙\n艷\t艷\n";

/// The number of parts of the text.
pub const PARTS: usize = 1;

/// Part `i` of the `TWVariantsRev` text; a later entry for the same source wins.
pub open spec fn part(i: int) -> Seq<char> {
    if i == 0 {
        TW_VARIANTS_REV_0@
    } else {
        Seq::empty()
    }
}

/// Part `i` of the text.
pub fn part_exec(i: usize) -> (r: &'static str)
    requires
        i < PARTS,
    ensures
        r@ == part(i as int),
{
    match i {
        0 => TW_VARIANTS_REV_0,
        _ => TW_VARIANTS_REV_0,
    }
}

} // verus!
