//! Bundled `TWVariants` dictionary: entries `source<TAB>replacement`, one per line.

use vstd::prelude::*;

verus! {

/// Part 0 of the text.
pub const TW_VARIANTS_0: &'static str = "僞\t偽\n啓\t啟\n喫\t吃\n嫺\t嫻\n嬀\t媯\n峯\t峰\n幺\t么\n梁\t梁\n擡\t抬\n棱\t稜\n樑\t梁\n檐\t簷\n污\t汙\n泄\t洩\n潙\t溈\n潨\t潀\n爲\t為\n牀\t床\n痹\t痺\n癡\t痴\n皁\t皂\n着\t著\n睾\t睪\n竈\t灶\n糉\t粽\n繮\t韁\n纔\t才\n羣\t群\n脣\t唇\n蔘\t參\n蔿\t蒍\n衆\t眾\n裏\t裡\n覈\t核\n踊\t踴\n鉢\t缽\n鍼\t針\n鮎\t鯰\n麪\t麵\n麼\t麼\n齶\t顎\n偽\t偽\n吃\t吃\n啟\t啟\n媯\t媯\n嫻\t嫻\n峰\t峰\n才\t才\n抬\t抬\n核\t核\n溈\t溈\n潀\t潀\n灶\t灶\n為\t為\n煙\t煙\n痴\t痴\n皂\t皂\n眾\t眾\n稜\t稜\n群\t群\n艷\t艷\n著\t著\n蒍\t蒍\n裡\t裡\n針\t針\n麵\t麵\n";

/// The number of parts of the text.
pub const PARTS: usize = 1;

/// Part `i` of the `TWVariants` text; a later entry for the same source wins.
pub open spec fn part(i: int) -> Seq<char> {
    if i == 0 {
        TW_VARIANTS_0@
    } else {
        Seq::empty()
    }
}

/// Part `i` of the text.
pub fn part_exec(i: usize) -> (r: &'static str)
    requires
        i < PARTS,
    ensures
        r@ == part(i as int),
{
    match i {
        0 => TW_VARIANTS_0,
        _ => TW_VARIANTS_0,
    }
}

} // verus!
