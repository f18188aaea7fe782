//! Bundled `JPSCharacters` dictionary: entries `source<TAB>replacement`, one per line.

use vstd::prelude::*;

verus! {

/// Part 0 of the text.
pub const JPS_CHARACTERS_0: &'static str = "䀋\t䀋\n万\t萬\n与\t與\n両\t兩\n並\t竝\n乗\t乘\n乱\t亂\n亀\t龜\n予\t豫\n争\t爭\n亘\t亙\n亜\t亞\n仏\t佛\n仮\t假\n会\t會\n伝\t傳\n体\t體\n余\t餘\n併\t倂\n侠\t侠\n価\t價\n値\t値\n倶\t倶\n倹\t儉\n偽\t僞\n兎\t兎\n児\t兒\n党\t黨\n内\t内\n円\t圓\n写\t寫\n凜\t凛\n処\t處\n刹\t刹\n剣\t劍\n剤\t劑\n剰\t剩\n励\t勵\n労\t勞\n効\t效\n勅\t敕\n勧\t勸\n勲\t勳\n匀\t匀\n区\t區\n医\t醫\n単\t單\n即\t卽\n却\t却\n厠\t厠\n厳\t嚴\n参\t參\n双\t雙\n収\t收\n叙\t敍\n台\t臺\n号\t號\n呉\t呉\n呪\t呪\n唇\t唇\n唖\t啞\n営\t營\n嘘\t嘘\n嘱\t囑\n噛\t嚙\n団\t團\n囲\t圍\n図\t圖\n国\t國\n圏\t圈\n圧\t壓\n堕\t墮\n塁\t壘\n塡\t塡\n塩\t鹽\n増\t增\n壊\t壞\n壌\t壤\n壮\t壯\n声\t聲\n壱\t壹\n売\t賣\n変\t變\n奥\t奧\n奨\t奬\n姉\t姉\n姫\t姫\n嬢\t孃\n学\t學\n宝\t寶\n実\t實\n寛\t寬\n寝\t寢\n対\t對\n寿\t壽\n専\t專\n将\t將\n尭\t堯\n尽\t盡\n届\t屆\n属\t屬\n岳\t嶽\n峡\t峽\n峰\t峰\n巌\t巖\n巣\t巢\n巻\t卷\n帯\t帶\n帰\t歸\n庁\t廳\n広\t廣\n庄\t庄\n床\t床\n廃\t廢\n弁\t辨\n弐\t貳\n弥\t彌\n弯\t彎\n弾\t彈\n当\t當\n彦\t彦\n径\t徑\n従\t從\n御\t御\n徳\t德\n徴\t徵\n応\t應\n恋\t戀\n恒\t恆\n恵\t惠\n悦\t悦\n悩\t惱\n悪\t惡\n惨\t慘\n慎\t愼\n懐\t懷\n戦\t戰\n戯\t戲\n戸\t戸\n戻\t戾\n才\t才\n払\t拂\n抜\t拔\n択\t擇\n担\t擔\n拝\t拜\n拠\t據\n拡\t擴\n挙\t擧\n挟\t挾\n挿\t插\n捜\t搜\n掲\t揭\n掴\t掴\n掻\t搔\n揺\t搖\n摂\t攝\n撃\t擊\n撹\t攪\n数\t數\n斉\t齊\n斎\t齋\n断\t斷\n旧\t舊\n昼\t晝\n晃\t晄\n晋\t晋\n晩\t晚\n暁\t曉\n暦\t曆\n曁\t曁\n曽\t曾\n条\t條\n来\t來\n枢\t樞\n査\t査\n栄\t榮\n桜\t櫻\n桝\t枡\n桟\t棧\n桧\t檜\n検\t檢\n楡\t楡\n楼\t樓\n楽\t樂\n概\t槪\n様\t樣\n槙\t槇\n権\t權\n横\t橫\n欠\t缺\n欧\t歐\n歓\t歡\n歩\t步\n歯\t齒\n歳\t歲\n歴\t歷\n残\t殘\n殴\t毆\n殻\t殼\n毎\t每\n気\t氣\n氷\t氷\n汚\t汚\n没\t没\n沢\t澤\n沪\t濾\n浄\t淨\n浅\t淺\n浜\t濱\n涙\t淚\n涛\t涛\n渇\t渴\n済\t濟\n渉\t涉\n渋\t澁\n渓\t溪\n温\t溫\n湾\t灣\n湿\t濕\n満\t滿\n溌\t溌\n滝\t瀧\n滞\t滯\n潜\t潛\n瀬\t瀨\n灯\t燈\n炉\t爐\n点\t點\n為\t爲\n焔\t焔\n焼\t燒\n煙\t煙\n犠\t犧\n状\t狀\n独\t獨\n狭\t狹\n猟\t獵\n猫\t猫\n献\t獻\n獣\t獸\n瓶\t甁\n産\t産\n画\t畫\n畳\t疊\n畵\t畵\n痩\t瘦\n痴\t癡\n痺\t痺\n発\t發\n皐\t皐\n盗\t盜\n県\t縣\n真\t眞\n研\t硏\n砕\t碎\n砺\t砺\n礼\t禮\n祢\t禰\n祷\t禱\n禄\t祿\n禅\t禪\n秘\t祕\n称\t稱\n税\t税\n稜\t稜\n稲\t稻\n穂\t穗\n穏\t穩\n穣\t穰\n窃\t竊\n竃\t竃\n竜\t龍\n粋\t粹\n粛\t肅\n粧\t粧\n粽\t粽\n糸\t絲\n経\t經\n絵\t繪\n絶\t絶\n継\t繼\n続\t續\n総\t總\n緑\t綠\n緒\t緖\n縁\t緣\n縄\t繩\n縦\t縱\n繊\t纖\n繋\t繋\n繍\t繡\n缶\t罐\n群\t群\n翻\t飜\n聡\t聡\n聴\t聽\n胆\t膽\n脚\t腳\n脱\t脫\n脳\t腦\n臓\t臟\n舎\t舎\n舖\t舖\n舗\t舗\n艶\t艷\n芦\t蘆\n芸\t藝\n茎\t莖\n茘\t茘\n荘\t莊\n莱\t莱\n萌\t萠\n葱\t葱\n蒋\t蔣\n蔵\t藏\n薫\t薰\n薬\t藥\n虚\t虛\n虫\t蟲\n蚕\t蠶\n蛍\t螢\n蛮\t蠻\n蝉\t蝉\n蝋\t蠟\n衛\t衞\n装\t裝\n褒\t襃\n覇\t霸\n覚\t覺\n覧\t覽\n観\t觀\n触\t觸\n訳\t譯\n証\t證\n誉\t譽\n説\t說\n読\t讀\n謡\t謠\n譲\t讓\n豊\t豐\n賛\t贊\n贋\t贋\n践\t踐\n転\t轉\n軽\t輕\n輌\t輌\n辞\t辭\n辺\t邊\n逓\t遞\n連\t連\n遅\t遲\n遥\t遙\n郎\t郞\n郷\t鄕\n酔\t醉\n醗\t醗\n醤\t醬\n醸\t釀\n釈\t釋\n鉄\t鐵\n鉱\t鑛\n銭\t錢\n鋭\t鋭\n鋳\t鑄\n錬\t鍊\n録\t錄\n鎮\t鎭\n関\t關\n閲\t閱\n闘\t鬭\n陥\t陷\n険\t險\n随\t隨\n隠\t隱\n隣\t隣\n雑\t雜\n霊\t靈\n静\t靜\n頴\t穎\n頼\t賴\n顔\t顏\n顕\t顯\n餅\t餠\n駅\t驛\n駆\t驅\n駈\t駈\n騒\t騷\n験\t驗\n髄\t髓\n髪\t髮\n鬪\t鬪\n鴎\t鷗\n鶏\t鷄\n鹸\t鹼\n麦\t麥\n麹\t麴\n麺\t麵\n黄\t黃\n黒\t黑\n黙\t默\n鼈\t鼈\n齢\t齡\n";

/// The number of parts of the text.
pub const PARTS: usize = 1;

/// Part `i` of the `JPSCharacters` text; a later entry for the same source wins.
pub open spec fn part(i: int) -> Seq<char> {
    if i == 0 {
        JPS_CHARACTERS_0@
    } else {
        Seq::empty()
    }
}

/// Part `i` of the text.
pub fn part_exec(i: usize) -> (r: &'static str)
    requires
        i < PARTS,
    ensures
        r@ == part(i as int),
{
    match i {
        0 => JPS_CHARACTERS_0,
        _ => JPS_CHARACTERS_0,
    }
}

} // verus!
