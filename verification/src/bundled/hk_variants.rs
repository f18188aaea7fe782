//! Bundled `HKVariants` dictionary: entries `source<TAB>replacement`, one per line.

use vstd::prelude::*;

verus! {

/// Part 0 of the text.
pub const HK_VARIANTS_0: &'static str = "僞\t偽\n兌\t兑\n叄\t叁\n只\t只\n啓\t啓\n喫\t吃\n囪\t囱\n妝\t妝\n媼\t媪\n嬀\t媯\n悅\t悦\n慍\t愠\n戶\t户\n才\t才\n挩\t捝\n搵\t揾\n擡\t抬\n敓\t敚\n敘\t敍\n柺\t枴\n核\t核\n梲\t棁\n棱\t稜\n榲\t榅\n檯\t枱\n氳\t氲\n涗\t涚\n溫\t温\n溼\t濕\n潙\t溈\n潨\t潀\n煙\t煙\n熅\t煴\n爲\t為\n癡\t痴\n皁\t皂\n祕\t秘\n稅\t税\n竈\t灶\n糉\t粽\n線\t線\n縕\t緼\n纔\t才\n脣\t唇\n脫\t脱\n膃\t腽\n臥\t卧\n臺\t台\n菸\t煙\n蒕\t蒀\n蔥\t葱\n蔿\t蒍\n蘊\t藴\n蛻\t蜕\n衆\t眾\n衛\t衞\n覈\t核\n說\t説\n踊\t踴\n轀\t輼\n醞\t醖\n鉢\t缽\n鉤\t鈎\n銳\t鋭\n鍼\t針\n閱\t閲\n鰮\t鰛\n吃\t吃\n抬\t抬\n灶\t灶\n痴\t痴\n皂\t皂\n眾\t眾\n稜\t稜\n艷\t艷\n著\t著\n裏\t裡\n裡\t裡\n針\t針\n";

/// The number of parts of the text.
pub const PARTS: usize = 1;

/// Part `i` of the `HKVariants` text; a later entry for the same source wins.
pub open spec fn part(i: int) -> Seq<char> {
    if i == 0 {
        HK_VARIANTS_0@
    } else {
        Seq::empty()
    }
}

/// Part `i` of the text.
pub fn part_exec(i: usize) -> (r: &'static str)
    requires
        i < PARTS,
    ensures
        r@ == part(i as int),
{
    match i {
        0 => HK_VARIANTS_0,
        _ => HK_VARIANTS_0,
    }
}

} // verus!
