//! Bundled `HKVariantsRev` dictionary: entries `source<TAB>replacement`, one per line.

use vstd::prelude::*;

verus! {

/// Part 0 of the text.
pub const HK_VARIANTS_REV_0: &'static str = "偽\t僞\n兑\t兌\n叁\t叄\n只\t只\n衹\t只\n啓\t啓\n啟\t啓\n吃\t吃\n囱\t囪\n妝\t妝\n粧\t妝\n媪\t媼\n媯\t嬀\n悦\t悅\n愠\t慍\n户\t戶\n才\t才\n捝\t挩\n揾\t搵\n抬\t抬\n敚\t敓\n敍\t敘\n敘\t敘\n枴\t柺\n核\t核\n棁\t梲\n稜\t稜\n棱\t棱\n榅\t榲\n枱\t檯\n氲\t氳\n涚\t涗\n温\t溫\n濕\t溼\n溈\t潙\n潀\t潨\n煙\t煙\n煴\t熅\n為\t爲\n痴\t痴\n皂\t皂\n秘\t祕\n税\t稅\n灶\t灶\n粽\t糉\n糉\t糉\n糭\t糉\n線\t線\n綫\t線\n緼\t縕\n纔\t纔\n唇\t脣\n脱\t脫\n腽\t膃\n卧\t臥\n台\t臺\n菸\t菸\n蒀\t蒕\n葱\t蔥\n蒍\t蔿\n藴\t蘊\n蜕\t蛻\n眾\t眾\n衞\t衛\n覈\t覈\n説\t說\n踴\t踊\n輼\t轀\n醖\t醞\n缽\t鉢\n鈎\t鉤\n鋭\t銳\n針\t針\n閲\t閱\n鰛\t鰮\n艷\t艷\n著\t著\n裡\t裡\n";

/// The number of parts of the text.
pub const PARTS: usize = 1;

/// Part `i` of the `HKVariantsRev` text; a later entry for the same source wins.
pub open spec fn part(i: int) -> Seq<char> {
    if i == 0 {
        HK_VARIANTS_REV_0@
    } else {
        Seq::empty()
    }
}

/// Part `i` of the text.
pub fn part_exec(i: usize) -> (r: &'static str)
    requires
        i < PARTS,
    ensures
        r@ == part(i as int),
{
    match i {
        0 => HK_VARIANTS_REV_0,
        _ => HK_VARIANTS_REV_0,
    }
}

} // verus!
