//! Bundled `HKPhrases` dictionary: entries `source<TAB>replacement`, one per line.

use vstd::prelude::*;

verus! {

/// Part 0 of the text.
pub const HK_PHRASES_0: &'static str = "丹尼·博伊爾\t丹尼·波爾\n亞歷杭德羅·岡薩雷斯·伊納裏圖\t艾力謝路·高沙里斯·依拿力圖\n伊利亞·卡贊\t伊力·卡山\n伊利諾伊\t伊利諾\n伊利諾伊州\t伊利諾州\n伍迪·艾倫\t活地·亞倫\n俄克拉何馬\t奧克拉荷馬\n俄克拉何馬州\t奧克拉荷馬州\n俄克拉荷馬\t奧克拉荷馬\n俄克拉荷馬州\t奧克拉荷馬州\n保羅·哈吉斯\t保羅·夏傑斯\n保羅·托馬斯·安德森\t保羅·湯馬士·安德遜\n光標\t游標\n克林特·伊斯特伍德\t奇連·伊士活\n克里斯托弗·諾蘭\t基斯杜化·路蘭\n內存條\t記憶體模組\n凱文·科斯特納\t奇雲·高士拿\n凱瑟琳·畢格羅\t嘉芙蓮·碧格露\n北卡羅來納\t北卡羅萊納\n北卡羅來納州\t北卡羅萊納州\n南卡羅來納\t南卡羅萊納\n南卡羅來納州\t南卡羅萊納州\n史蒂夫·麥奎因\t史提夫·麥昆\n吉列爾莫·德爾托羅\t古利姆·迪托路\n喬治·克魯尼\t佐治·古尼\n大衛·利恩\t大衛·連\n奧利弗·斯通\t奧利華·史東\n威廉·弗萊德金\t威廉·佛烈金\n密歇根\t密芝根\n密歇根州\t密芝根州\n寬帶\t寬頻\n山姆·曼德斯\t森·曼特斯\n布拉德·皮特\t畢·彼特\n幾率\t機率\n弗吉尼亞\t維珍尼亞\n弗吉尼亞州\t維珍尼亞州\n弗朗西絲·麥克多曼德\t法蘭絲·麥杜雯\n彼得·傑克遜\t彼德·積遜\n得克薩斯\t德薩斯\n得克薩斯州\t德薩斯州\n德克薩斯\t德薩斯\n德克薩斯州\t德薩斯州\n搜索\t搜尋\n操作系統\t作業系統\n文件夾\t資料夾\n斯蒂芬·斯皮爾伯格\t史提芬·史匹堡\n服務器\t伺服器\n朗·霍華德\t朗·侯活\n本·阿弗萊克\t賓·艾佛力\n查爾斯·羅文\t查理士·路雲\n梅爾·吉布森\t米路·吉遜\n概率\t概率\n沃倫·比蒂\t華倫·比提\n湯姆·霍伯\t湯賀柏\n硬盤\t硬碟\n科恩兄弟\t高安兄弟\n簡·坎皮恩\t珍·甘比茵\n米歇爾·阿扎納維西於斯\t米高·哈薩拿維斯\n約瑟夫·曼凱維奇\t約瑟·曼基威士\n編程語言\t程式語言\n羅伯特·懷斯\t羅拔·淮斯\n羅伯特·澤米吉斯\t羅拔·湛米基斯\n羅伯特·雷德福\t羅拔·烈福\n羅得島\t羅德島\n羅得島州\t羅德島州\n肖恩·貝克\t辛·貝克\n舒芙蕾\t梳芙厘\n艾瑪·托馬斯\t愛瑪·湯馬士\n西弗吉尼亞\t西維珍尼亞\n西弗吉尼亞州\t西維珍尼亞州\n詹姆斯·卡梅隆\t占士·金馬倫\n諾蘭\t路蘭\n賓夕法尼亞\t賓夕凡尼亞\n賓夕法尼亞州\t賓夕凡尼亞州\n邁克·尼科爾斯\t米克·尼高斯\n邁克爾·道格拉斯\t米高·德格拉斯\n阿黛爾·羅曼斯基\t愛黛兒·羅曼斯基\n隱私權\t私隱權\n馬丁·斯科塞斯\t馬田·史高西斯\n馬里蘭\t馬利蘭\n馬里蘭州\t馬利蘭州\n鼠標\t滑鼠\n";

/// The number of parts of the text.
pub const PARTS: usize = 1;

/// Part `i` of the `HKPhrases` text; a later entry for the same source wins.
pub open spec fn part(i: int) -> Seq<char> {
    if i == 0 {
        HK_PHRASES_0@
    } else {
        Seq::empty()
    }
}

/// Part `i` of the text.
pub fn part_exec(i: usize) -> (r: &'static str)
    requires
        i < PARTS,
    ensures
        r@ == part(i as int),
{
    match i {
        0 => HK_PHRASES_0,
        _ => HK_PHRASES_0,
    }
}

} // verus!
