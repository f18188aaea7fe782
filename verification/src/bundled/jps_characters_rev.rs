//! Bundled `JPSCharactersRev` dictionary: entries `source<TAB>replacement`, one per line.

use vstd::prelude::*;

verus! {

/// Part 0 of the text.
pub const JPS_CHARACTERS_REV_0: &'static str = "乘\t乗\n亂\t乱\n亙\t亘\n亞\t亜\n佛\t仏\n來\t来\n俱\t倶\n倂\t併\n値\t値\n倶\t倶\n值\t値\n假\t仮\n傳\t伝\n僞\t偽\n價\t価\n儉\t倹\n兎\t兎\n兒\t児\n兔\t兎\n內\t内\n兩\t両\n内\t内\n冰\t氷\n凛\t凜\n刹\t刹\n剎\t刹\n剩\t剰\n劍\t剣\n劑\t剤\n勞\t労\n勳\t勲\n勵\t励\n勸\t勧\n勻\t匀\n匀\t匀\n區\t区\n却\t却\n卷\t巻\n卻\t却\n卽\t即\n厠\t厠\n參\t参\n吳\t呉\n呉\t呉\n呪\t呪\n咒\t呪\n唇\t唇\n啞\t唖\n單\t単\n嘘\t嘘\n噓\t嘘\n嚙\t噛\n嚴\t厳\n囑\t嘱\n圈\t圏\n國\t国\n圍\t囲\n圓\t円\n圖\t図\n團\t団\n堯\t尭\n塡\t塡\n填\t塡\n增\t増\n墮\t堕\n壓\t圧\n壘\t塁\n壞\t壊\n壤\t壌\n壯\t壮\n壹\t壱\n壽\t寿\n奧\t奥\n奬\t奨\n妝\t粧\n姫\t姫\n姬\t姫\n孃\t嬢\n學\t学\n寢\t寝\n實\t実\n寫\t写\n寬\t寛\n寶\t宝\n將\t将\n專\t専\n對\t対\n屆\t届\n屬\t属\n峯\t峰\n峰\t峰\n峽\t峡\n嶽\t岳\n巖\t巌\n巢\t巣\n帶\t帯\n床\t床\n廁\t厠\n廢\t廃\n廣\t広\n廳\t庁\n彈\t弾\n彌\t弥\n彎\t弯\n彥\t彦\n彦\t彦\n徑\t径\n從\t従\n御\t御\n徵\t徴\n德\t徳\n恆\t恒\n悅\t悦\n悦\t悦\n惠\t恵\n惡\t悪\n惱\t悩\n愼\t慎\n慘\t惨\n應\t応\n懷\t懐\n戀\t恋\n戰\t戦\n戲\t戯\n戶\t戸\n戸\t戸\n戾\t戻\n才\t才\n拂\t払\n拔\t抜\n拜\t拝\n挾\t挟\n掴\t掴\n插\t挿\n揭\t掲\n搜\t捜\n搔\t掻\n搖\t揺\n摑\t掴\n擇\t択\n擊\t撃\n擔\t担\n據\t拠\n擧\t挙\n擴\t拡\n攝\t摂\n攪\t撹\n收\t収\n效\t効\n敍\t叙\n敕\t勅\n敘\t叙\n數\t数\n斷\t断\n晄\t晃\n晉\t晋\n晋\t晋\n晚\t晩\n晝\t昼\n暨\t曁\n曁\t曁\n曆\t暦\n曉\t暁\n曾\t曽\n會\t会\n枡\t桝\n查\t査\n査\t査\n條\t条\n棧\t桟\n棱\t稜\n楡\t楡\n榆\t楡\n榮\t栄\n槇\t槙\n槪\t概\n樂\t楽\n樓\t楼\n樞\t枢\n樣\t様\n橫\t横\n檜\t桧\n檢\t検\n櫻\t桜\n權\t権\n歐\t欧\n歡\t歓\n步\t歩\n歲\t歳\n歷\t歴\n歸\t帰\n殘\t残\n殼\t殻\n毆\t殴\n每\t毎\n氣\t気\n氷\t氷\n汚\t汚\n污\t汚\n沒\t没\n没\t没\n涉\t渉\n涛\t涛\n淚\t涙\n淨\t浄\n淺\t浅\n渴\t渇\n溌\t溌\n溪\t渓\n溫\t温\n溼\t湿\n滯\t滞\n滿\t満\n潑\t溌\n潛\t潜\n澁\t渋\n澤\t沢\n澀\t渋\n濕\t湿\n濟\t済\n濤\t涛\n濱\t浜\n濾\t沪\n瀧\t滝\n瀨\t瀬\n灣\t湾\n焔\t焔\n焰\t焔\n煙\t煙\n燈\t灯\n燒\t焼\n營\t営\n爐\t炉\n爭\t争\n爲\t為\n牀\t床\n犧\t犠\n狀\t状\n狹\t狭\n猫\t猫\n獎\t奨\n獨\t独\n獵\t猟\n獸\t獣\n獻\t献\n瓣\t弁\n甁\t瓶\n產\t産\n産\t産\n畫\t画\n當\t当\n疊\t畳\n痹\t痺\n痺\t痺\n瘦\t痩\n癡\t痴\n發\t発\n皋\t皐\n皐\t皐\n盜\t盗\n盡\t尽\n眞\t真\n砺\t砺\n硏\t研\n碎\t砕\n礪\t砺\n祕\t秘\n祿\t禄\n禦\t御\n禪\t禅\n禮\t礼\n禰\t祢\n禱\t祷\n萬\t万\n稅\t税\n税\t税\n稜\t稜\n稱\t称\n稻\t稲\n穎\t頴\n穗\t穂\n穩\t穏\n穰\t穣\n竃\t竃\n竈\t竃\n竊\t窃\n竝\t並\n粧\t粧\n粹\t粋\n粽\t粽\n糉\t粽\n絕\t絶\n絲\t糸\n絶\t絶\n經\t経\n綠\t緑\n緖\t緒\n緣\t縁\n縣\t県\n縱\t縦\n總\t総\n繡\t繍\n繋\t繋\n繩\t縄\n繪\t絵\n繫\t繋\n繼\t継\n續\t続\n纔\t才\n纖\t繊\n缺\t欠\n罐\t缶\n羣\t群\n群\t群\n聡\t聡\n聯\t連\n聰\t聡\n聲\t声\n聽\t聴\n肅\t粛\n脣\t唇\n脫\t脱\n腦\t脳\n腳\t脚\n膽\t胆\n臟\t臓\n臺\t台\n與\t与\n舉\t挙\n舊\t旧\n舍\t舎\n舎\t舎\n舗\t舗\n艷\t艶\n茘\t茘\n荔\t茘\n莊\t荘\n莖\t茎\n莱\t莱\n菸\t煙\n萊\t莱\n萠\t萌\n葱\t葱\n蔣\t蒋\n蔥\t葱\n薰\t薫\n藏\t蔵\n藝\t芸\n藥\t薬\n蘆\t芦\n處\t処\n虛\t虚\n號\t号\n螢\t蛍\n蟲\t虫\n蠟\t蝋\n蠶\t蚕\n蠻\t蛮\n衞\t衛\n裝\t装\n襃\t褒\n覺\t覚\n覽\t覧\n觀\t観\n觸\t触\n說\t説\n謠\t謡\n證\t証\n譯\t訳\n譽\t誉\n讀\t読\n變\t変\n讓\t譲\n豐\t豊\n豫\t予\n貓\t猫\n貳\t弐\n賣\t売\n賴\t頼\n贊\t賛\n贋\t贋\n贗\t贋\n踐\t践\n輌\t輌\n輕\t軽\n輛\t輌\n轉\t転\n辨\t弁\n辭\t辞\n辯\t弁\n連\t連\n遙\t遥\n遞\t逓\n遲\t遅\n邊\t辺\n郞\t郎\n鄉\t郷\n鄕\t郷\n醉\t酔\n醗\t醗\n醫\t医\n醬\t醤\n醱\t醗\n釀\t醸\n釋\t釈\n鋪\t舗\n錄\t録\n錢\t銭\n鍊\t錬\n鎭\t鎮\n鐵\t鉄\n鑄\t鋳\n鑛\t鉱\n閱\t閲\n關\t関\n陷\t陥\n隨\t随\n險\t険\n隱\t隠\n雙\t双\n雜\t雑\n雞\t鶏\n霸\t覇\n靈\t霊\n靜\t静\n顏\t顔\n顯\t顕\n飜\t翻\n餘\t余\n餠\t餅\n騷\t騒\n驅\t駆\n驗\t験\n驛\t駅\n髓\t髄\n體\t体\n髮\t髪\n鬥\t闘\n鬭\t闘\n鱉\t鼈\n鷄\t鶏\n鷗\t鴎\n鹼\t鹸\n鹽\t塩\n麥\t麦\n麪\t麺\n麴\t麹\n麵\t麺\n黃\t黄\n黑\t黒\n默\t黙\n點\t点\n黨\t党\n鼈\t鼈\n齊\t斉\n齋\t斎\n齒\t歯\n齡\t齢\n龍\t竜\n龜\t亀\n";

/// The number of parts of the text.
pub const PARTS: usize = 1;

/// Part `i` of the `JPSCharactersRev` text; a later entry for the same source wins.
pub open spec fn part(i: int) -> Seq<char> {
    if i == 0 {
        JPS_CHARACTERS_REV_0@
    } else {
        Seq::empty()
    }
}

/// Part `i` of the text.
pub fn part_exec(i: usize) -> (r: &'static str)
    requires
        i < PARTS,
    ensures
        r@ == part(i as int),
{
    match i {
        0 => JPS_CHARACTERS_REV_0,
        _ => JPS_CHARACTERS_REV_0,
    }
}

} // verus!
