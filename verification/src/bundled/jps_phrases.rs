//! Bundled `JPSPhrases` dictionary: entries `source<TAB>replacement`, one per line.

use vstd::prelude::*;

verus! {

/// Part 0 of the text.
pub const JPS_PHRASES_0: &'static str = "一獲千金\t一攫千金\n丁寧\t叮嚀\n丁重\t鄭重\n三差路\t三叉路\n世論\t輿論\n予備\t預備\n予告\t預告\n予定\t預定\n予感\t預感\n予測\t預測\n予算\t預算\n予約\t預約\n予習\t預習\n予言\t預言\n予防\t預防\n亜鈴\t啞鈴\n交差\t交叉\n代弁\t代辯\n供宴\t饗宴\n俊馬\t駿馬\n保塁\t堡壘\n個条書\t箇条書\n偏平\t扁平\n停泊\t碇泊\n優俊\t優駿\n先兵\t尖兵\n先端\t尖端\n先鋭\t尖銳\n共役\t共軛\n冗舌\t饒舌\n凶器\t兇器\n削岩\t鑿岩\n包丁\t庖丁\n包帯\t繃帶\n区画\t區劃\n厳然\t儼然\n友宜\t友誼\n反乱\t叛亂\n収集\t蒐集\n叙情\t抒情\n台頭\t擡頭\n合弁\t合辦\n喜遊曲\t嬉遊曲\n嘆願\t歎願\n回転\t廻転\n回遊\t回游\n国際連盟\t國際聯盟\n奉持\t捧持\n委縮\t萎縮\n安全弁\t安全瓣\n展転\t輾轉\n希少\t稀少\n幻惑\t眩惑\n広範\t廣泛\n広野\t曠野\n廃虚\t廢墟\n建坪率\t建蔽率\n弁別\t辨別\n弁当\t辨當\n弁才\t辯才\n弁明\t辯明\n弁膜\t瓣膜\n弁解\t辯解\n弁証\t辯證\n弁論\t辯論\n弁論家\t辯論家\n弁護\t辯護\n弁護士\t辯護士\n弁財天\t辯財天\n弁駁\t辯駁\n弁髪\t辮髮\n弦歌\t絃歌\n恩義\t恩誼\n意向\t意嚮\n慰謝料\t慰藉料\n憶断\t臆斷\n憶病\t臆病\n戦没\t戰歿\n扇情\t煽情\n手帳\t手帖\n技量\t伎倆\n抜粋\t抜萃\n披歴\t披瀝\n抵触\t牴觸\n抽選\t抽籤\n拘引\t勾引\n拠出\t醵出\n拠金\t醵金\n掘削\t掘鑿\n控除\t扣除\n援護\t掩護\n放棄\t抛棄\n散水\t撒水\n敬謙\t敬虔\n敷延\t敷衍\n断固\t斷乎\n族生\t簇生\n昇叙\t陞敘\n暖房\t煖房\n暗唱\t暗誦\n暗夜\t闇夜\n暴露\t曝露\n枯渇\t涸渴\n格好\t恰好\n格幅\t恰幅\n棄損\t毀損\n模索\t摸索\n橋頭保\t橋頭堡\n欠缺\t欠缺\n欧州\t歐洲\n欧州連合\t歐洲聯盟\n死体\t屍體\n殿部\t臀部\n母指\t拇指\n気迫\t氣魄\n決別\t訣別\n決壊\t決潰\n沈殿\t沈澱\n油送船\t油槽船\n波乱\t波瀾\n注釈\t註釋\n洗浄\t洗滌\n活発\t活潑\n浸透\t滲透\n浸食\t浸蝕\n消却\t銷卻\n混然\t渾然\n湾曲\t彎曲\n溶接\t熔接\n漁労\t漁撈\n漂然\t飄然\n激高\t激昂\n火炎\t火焰\n焦燥\t焦躁\n猶予\t猶豫\n班点\t斑點\n留飲\t溜飲\n略奪\t掠奪\n疎通\t疏通\n発酵\t醱酵\n白亜\t白堊\n相克\t相剋\n知恵\t智慧\n破棄\t破毀\n確固\t確乎\n禁固\t禁錮\n符丁\t符牒\n粉装\t扮裝\n紫班\t紫斑\n終息\t終熄\n総合\t綜合\n編集\t編輯\n義援\t義捐\n耕運機\t耕耘機\n肝心\t肝腎\n肩甲骨\t肩胛骨\n背徳\t悖德\n脈拍\t脈搏\n膨張\t膨脹\n花弁\t花瓣\n芳純\t芳醇\n英知\t叡智\n蒸留\t蒸溜\n薫蒸\t燻蒸\n薫製\t燻製\n衣装\t衣裳\n衰退\t衰退\n裕然\t悠然\n補佐\t輔佐\n訓戒\t訓誡\n試練\t試煉\n詭弁\t詭辯\n講和\t媾和\n象眼\t象嵌\n貫録\t貫祿\n買弁\t買辦\n賛辞\t讚辭\n踏襲\t蹈襲\n車両\t車輛\n転倒\t顛倒\n輪郭\t輪廓\n退色\t褪色\n途絶\t杜絕\n連係\t連繫\n連合\t聯合\n連合会\t聯合會\n連合国\t聯合國\n連合艦隊\t聯合艦隊\n連合軍\t聯合軍\n連名\t聯名\n連想\t聯想\n連携\t聯攜\n連盟\t聯盟\n連立\t聯立\n連結\t聯結\n連結器\t聯結器\n連結性\t聯結性\n連絡\t聯絡\n連絡員\t聯絡員\n連絡網\t聯絡網\n連絡線\t聯絡線\n連絡船\t聯絡船\n連邦\t聯邦\n連邦共和国\t聯邦共和國\n連邦制\t聯邦制\n連邦国\t聯邦國\n連邦国家\t聯邦國家\n連邦政府\t聯邦政府\n連邦議会\t聯邦議會\n連邦軍\t聯邦軍\n連隊\t聯隊\n選考\t銓衡\n酢酸\t醋酸\n野卑\t野鄙\n鉱石\t礦石\n間欠\t間歇\n関数\t函數\n関連\t關聯\n関連図\t關聯圖\n関連性\t關聯性\n関連語\t關聯語\n防御\t防禦\n険阻\t嶮岨\n障壁\t牆壁\n障害\t障礙\n隠滅\t湮滅\n雄弁\t雄辯\n集落\t聚落\n雇用\t僱傭\n風諭\t諷喩\n飛語\t蜚語\n香典\t香奠\n骨格\t骨骼\n高進\t亢進\n鳥観\t鳥瞰\n";

/// The number of parts of the text.
pub const PARTS: usize = 1;

/// Part `i` of the `JPSPhrases` text; a later entry for the same source wins.
pub open spec fn part(i: int) -> Seq<char> {
    if i == 0 {
        JPS_PHRASES_0@
    } else {
        Seq::empty()
    }
}

/// Part `i` of the text.
pub fn part_exec(i: usize) -> (r: &'static str)
    requires
        i < PARTS,
    ensures
        r@ == part(i as int),
{
    match i {
        0 => JPS_PHRASES_0,
        _ => JPS_PHRASES_0,
    }
}

} // verus!
