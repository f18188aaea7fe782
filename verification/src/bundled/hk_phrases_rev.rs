//! Bundled `HKPhrasesRev` dictionary: entries `source<TAB>replacement`, one per line.

use vstd::prelude::*;

verus! {

/// Part 0 of the text.
pub const HK_PHRASES_REV_0: &'static str = "丹尼·波爾\t丹尼·博伊爾\n伊利諾\t伊利諾伊\n伊利諾州\t伊利諾伊州\n伊力·卡山\t伊利亞·卡贊\n伺服器\t服務器\n佐治·古尼\t喬治·克魯尼\n作業系統\t操作系統\n保羅·夏傑斯\t保羅·哈吉斯\n保羅·湯馬士·安德遜\t保羅·托馬斯·安德森\n北卡羅萊納\t北卡羅來納\n北卡羅萊納州\t北卡羅來納州\n南卡羅萊納\t南卡羅來納\n南卡羅萊納州\t南卡羅來納州\n占士·金馬倫\t詹姆斯·卡梅隆\n古利姆·迪托路\t吉列爾莫·德爾托羅\n史提夫·麥昆\t史蒂夫·麥奎因\n史提芬·史匹堡\t斯蒂芬·斯皮爾伯格\n嘉芙蓮·碧格露\t凱瑟琳·畢格羅\n基斯杜化·路蘭\t克里斯托弗·諾蘭\n大衛·連\t大衛·利恩\n奇連·伊士活\t克林特·伊斯特伍德\n奇雲·高士拿\t凱文·科斯特納\n奧克拉荷馬\t俄克拉何馬\n奧克拉荷馬州\t俄克拉何馬州\n奧利華·史東\t奧利弗·斯通\n威廉·佛烈金\t威廉·弗萊德金\n密芝根\t密歇根\n密芝根州\t密歇根州\n寬頻\t寬帶\n彼德·積遜\t彼得·傑克遜\n德薩斯\t得克薩斯\n德薩斯州\t得克薩斯州\n愛瑪·湯馬士\t艾瑪·托馬斯\n愛黛兒·羅曼斯基\t阿黛爾·羅曼斯基\n搜尋\t搜索\n朗·侯活\t朗·霍華德\n查理士·路雲\t查爾斯·羅文\n梳芙厘\t舒芙蕾\n森·曼特斯\t山姆·曼德斯\n概率\t概率\n機會率\t概率\n機率\t幾率\n法蘭絲·麥杜雯\t弗朗西絲·麥克多曼德\n活地·亞倫\t伍迪·艾倫\n游標\t光標\n湯賀柏\t湯姆·霍伯\n滑鼠\t鼠標\n珍·甘比茵\t簡·坎皮恩\n畢·彼特\t布拉德·皮特\n硬碟\t硬盤\n私隱權\t隱私權\n程式語言\t編程語言\n米克·尼高斯\t邁克·尼科爾斯\n米路·吉遜\t梅爾·吉布森\n米高·哈薩拿維斯\t米歇爾·阿扎納維西於斯\n米高·德格拉斯\t邁克爾·道格拉斯\n約瑟·曼基威士\t約瑟夫·曼凱維奇\n維珍尼亞\t弗吉尼亞\n維珍尼亞州\t弗吉尼亞州\n羅德島\t羅得島\n羅德島州\t羅得島州\n羅拔·淮斯\t羅伯特·懷斯\n羅拔·湛米基斯\t羅伯特·澤米吉斯\n羅拔·烈福\t羅伯特·雷德福\n艾力謝路·高沙里斯·依拿力圖\t亞歷杭德羅·岡薩雷斯·伊納裏圖\n華倫·比提\t沃倫·比蒂\n西維珍尼亞\t西弗吉尼亞\n西維珍尼亞州\t西弗吉尼亞州\n記憶體模組\t內存條\n資料夾\t文件夾\n賓·艾佛力\t本·阿弗萊克\n賓夕凡尼亞\t賓夕法尼亞\n賓夕凡尼亞州\t賓夕法尼亞州\n路蘭\t諾蘭\n辛·貝克\t肖恩·貝克\n馬利蘭\t馬里蘭\n馬利蘭州\t馬里蘭州\n馬田·史高西斯\t馬丁·斯科塞斯\n高安兄弟\t科恩兄弟\n";

/// The number of parts of the text.
pub const PARTS: usize = 1;

/// Part `i` of the `HKPhrasesRev` text; a later entry for the same source wins.
pub open spec fn part(i: int) -> Seq<char> {
    if i == 0 {
        HK_PHRASES_REV_0@
    } else {
        Seq::empty()
    }
}

/// Part `i` of the text.
pub fn part_exec(i: usize) -> (r: &'static str)
    requires
        i < PARTS,
    ensures
        r@ == part(i as int),
{
    match i {
        0 => HK_PHRASES_REV_0,
        _ => HK_PHRASES_REV_0,
    }
}

} // verus!
