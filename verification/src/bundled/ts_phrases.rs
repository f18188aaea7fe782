//! Bundled `TSPhrases` dictionary: entries `source<TAB>replacement`, one per line.

use vstd::prelude::*;

verus! {

/// Part 0 of the text.
pub const TS_PHRASES_0: &'static str = "一坏\t一坯\n一目瞭然\t一目了然\n七逕\t七迳\n上逕\t上迳\n上鍊\t上链\n不可貲計\t不可赀計\n不瞭解\t不了解\n么麼\t幺麽\n么麽\t幺麽\n九逕山\t九迳山\n乾乾淨淨\t干干净净\n乾乾脆脆\t干干脆脆\n乾佑縣\t乾佑县\n乾元\t乾元\n乾卦\t乾卦\n乾嘉\t乾嘉\n乾圖\t乾图\n乾坤\t乾坤\n乾坤一擲\t乾坤一掷\n乾坤再造\t乾坤再造\n乾坤大挪移\t乾坤大挪移\n乾宅\t乾宅\n乾安縣\t乾安县\n乾安鎮\t乾安镇\n乾州\t乾州\n乾斷\t乾断\n乾斷食\t干断食\n乾旦\t乾旦\n乾曜\t乾曜\n乾清宮\t乾清宫\n乾盛世\t乾盛世\n乾紅\t干红\n乾綱\t乾纲\n乾縣\t乾县\n乾象\t乾象\n乾造\t乾造\n乾道\t乾道\n乾闥婆\t乾闼婆\n乾陵\t乾陵\n乾隆\t乾隆\n乾隆年間\t乾隆年间\n乾隆皇帝\t乾隆皇帝\n二噁英\t二𫫇英\n仇讎\t仇雠\n以免藉口\t以免借口\n以功覆過\t以功覆过\n任筆沈詩\t任笔沈诗\n侔德覆載\t侔德覆载\n傢俱\t家具\n傷亡枕藉\t伤亡枕藉\n允祕\t允祕\n八濛山\t八濛山\n其陰多蒐\t其阴多蒐\n凌藉\t凌借\n出醜狼藉\t出丑狼藉\n函覆\t函复\n剋架\t剋架\n剋毒\t剋毒\n千鍾粟\t千锺粟\n南氾\t南氾\n南逕\t南迳\n反反覆覆\t反反复复\n反覆\t反复\n反覆思維\t反复思维\n反覆思量\t反复思量\n反覆性\t反复性\n名覆金甌\t名复金瓯\n吳祕\t吴祕\n吳育昇\t吴育昇\n哪吒\t哪吒\n回覆\t回复\n土坏\t土坯\n坏土\t坯土\n坏子\t坯子\n坏布\t坯布\n坏戶\t坯户\n墨沈沈\t墨沉沉\n壺裏乾坤\t壶里乾坤\n夥多\t夥多\n夥頤\t夥颐\n大目乾連冥間救母變文\t大目乾连冥间救母变文\n宮商角徵羽\t宫商角徵羽\n射覆\t射覆\n尼乾子\t尼乾子\n尼乾陀\t尼乾陀\n年釐\t年釐\n幷州\t并州\n幺麼\t幺麽\n幺麼小丑\t幺麽小丑\n幺麼小醜\t幺麽小丑\n康乾\t康乾\n張昇\t张昇\n張法乾\t张法乾\n彷彿\t仿佛\n彷徨\t彷徨\n徐胤昇\t徐胤昇\n復甦\t复苏\n徵弦\t徵弦\n徵絃\t徵弦\n徵羽摩柯\t徵羽摩柯\n徵聲\t徵声\n徵調\t征调\n徵調式\t徵调式\n徵音\t徵音\n情有獨鍾\t情有独钟\n想像\t想像\n意志消沈\t意志消沉\n慰藉\t慰藉\n慰藉着\t慰藉着\n慰藉著\t慰藉着\n憑藉\t凭借\n憑藉着\t凭借着\n憑藉著\t凭借着\n懷釐\t怀釐\n成甦\t成甦\n所費不貲\t所费不赀\n手鍊\t手链\n打坏\t打坯\n扞格\t扞格\n扭轉乾坤\t扭转乾坤\n批覆\t批复\n找藉口\t找借口\n折戟沈沙\t折戟沉沙\n折戟沈河\t折戟沉河\n拉坏\t拉坯\n拉鍊\t拉链\n拉鍊工程\t拉链工程\n拜覆\t拜复\n挨剋\t挨剋\n捏坏\t捏坯\n擊沈\t击沉\n據瞭解\t据了解\n文錦覆阱\t文锦覆阱\n於世成\t於世成\n於乎\t於乎\n於仲完\t於仲完\n於倫\t於伦\n於其一\t於其一\n於則\t於则\n於勇明\t於勇明\n於呼哀哉\t於呼哀哉\n於單\t於单\n於坦\t於坦\n於崇文\t於崇文\n於忠祥\t於忠祥\n於惟一\t於惟一\n於戲\t於戏\n於敖\t於敖\n於梨華\t於梨华\n於清言\t於清言\n於潛\t於潜\n於琳\t於琳\n於穆\t於穆\n於竹屋\t於竹屋\n於菟\t於菟\n於邑\t於邑\n於陵子\t於陵子\n旋乾轉坤\t旋乾转坤\n旋轉乾坤\t旋转乾坤\n旋轉乾坤之力\t旋转乾坤之力\n明瞭\t明了\n明覆\t明复\n昏沈\t昏沉\n春蒐\t春蒐\n春釐\t春釐\n暗沈沈\t暗沉沉\n書中自有千鍾粟\t书中自有千锺粟\n有序\t有序\n朝乾夕惕\t朝乾夕惕\n木吒\t木吒\n李乾德\t李乾德\n李昇\t李昇\n李昇勳\t李昇勋\n李澤鉅\t李泽钜\n李祕\t李祕\n李鍊福\t李链福\n李鍾郁\t李锺郁\n束脩\t束脩\n東氾\t东氾\n林甦\t林甦\n校讎\t校雠\n梁昇卿\t梁昇卿\n梁章鉅\t梁章钜\n楊甦棣\t杨甦棣\n楊聯陞\t杨联陞\n樊於期\t樊於期\n橡椀\t橡椀\n死氣沈沈\t死气沉沉\n段脩\t段脩\n毛坏\t毛坯\n水逕\t水迳\n氾勝之\t氾胜之\n氾南\t氾南\n氾國\t氾国\n氾水\t氾水\n沈下\t沉下\n沈不住氣\t沉不住气\n沈住氣\t沉住气\n沈冤\t沉冤\n沈厚\t沉厚\n沈吟\t沉吟\n沈寂\t沉寂\n沈得住氣\t沉得住气\n沈思\t沉思\n沈思往事\t沉思往事\n沈悶\t沉闷\n沈沒\t沉没\n沈沒成本\t沉没成本\n沈浮\t沉浮\n沈浸\t沉浸\n沈浸於\t沉浸于\n沈淪\t沉沦\n沈湎\t沉湎\n沈湎酒色\t沉湎酒色\n沈溺\t沉溺\n沈滯\t沉滞\n沈滯性\t沉滞性\n沈澱\t沉淀\n沈澱出來\t沉淀出来\n沈澱劑\t沉淀剂\n沈澱法\t沉淀法\n沈澱物\t沉淀物\n沈濁\t沉浊\n沈甸甸\t沉甸甸\n沈痛\t沉痛\n沈痼\t沉痼\n沈痾\t沉疴\n沈睡\t沉睡\n沈睡不醒\t沉睡不醒\n沈砂池\t沉砂池\n沈積\t沉积\n沈積岩\t沉积岩\n沈積石\t沉积石\n沈筒\t沉筒\n沈船\t沉船\n沈落\t沉落\n沈詩任筆\t沈诗任笔\n沈迷\t沉迷\n沈迷不醒\t沉迷不醒\n沈醉\t沉醉\n沈重\t沉重\n沈降\t沉降\n沈陷\t沉陷\n沈靜\t沉静\n沈靜下來\t沉静下来\n沈香\t沉香\n沈鬱\t沉郁\n沈魚落雁\t沉鱼落雁\n沈默\t沉默\n沈默不語\t沉默不语\n沈默寡言\t沉默寡言\n沙逕\t沙迳\n河逕\t河迳\n流徵\t流徵\n浪蕩乾坤\t浪荡乾坤\n浮沈\t浮沉\n海哩\t海里\n深沈\t深沉\n深沈不露\t深沉不露\n溫昇豪\t温昇豪\n滑藉\t滑借\n烏昇\t乌昇\n烏沈沈\t乌沉沉\n烏逕\t乌迳\n無序\t无序\n牴牾\t抵牾\n牴觸\t抵触\n狐藉虎威\t狐借虎威\n王彥昇\t王彦昇\n珍珠項鍊\t珍珠项链\n甚夥\t甚夥\n甚鉅\t甚钜\n甦生\t苏生\n甦醒\t苏醒\n申昇勳\t申昇勋\n申覆\t申复\n畢昇\t毕昇\n發覆\t发覆\n盧象昇\t卢象昇\n目劄\t目劄\n瞭哨\t瞭哨\n瞭如\t了如\n瞭如指掌\t了如指掌\n瞭望\t瞭望\n瞭然\t了然\n瞭然於心\t了然于心\n瞭若指掌\t了若指掌\n瞭解\t了解\n瞭解到\t了解到\n破釜沈舟\t破釜沉舟\n磚坏\t砖坯\n示覆\t示复\n社逕\t社迳\n祕丕笈\t祕丕笈\n祕彭祖\t祕彭祖\n祕瓊\t祕琼\n祝釐\t祝釐\n神祇\t神祇\n稟覆\t禀复\n竺乾\t竺乾\n答覆\t答复\n篤麼\t笃麽\n簡單明瞭\t简单明了\n籌畫\t筹划\n籍籍無名\t籍籍无名\n素藉\t素借\n老態龍鍾\t老态龙钟\n耳沈\t耳沉\n肉脩\t肉脩\n肘手鍊足\t肘手链足\n胤祕\t胤祕\n脩敬\t脩敬\n脩炳\t脩炳\n脩脡\t脩脡\n脩脯\t脩脯\n脩金\t脩金\n脫坏\t脱坯\n腶脩\t腶脩\n英哩\t英里\n茅蒐\t茅蒐\n茵藉\t茵借\n萬鍾\t万锺\n落雁沈魚\t落雁沉鱼\n蒐于紅\t蒐于红\n蒐於紅\t蒐于红\n蒐狩\t蒐狩\n蒐獮\t蒐狝\n蒐獵\t蒐猎\n蒐田\t蒐田\n蒐畋\t蒐畋\n蒐苗\t蒐苗\n蒜薹\t蒜薹\n蔣昇\t蒋昇\n蕓薹\t芸薹\n蕩覆\t荡覆\n蕭乾\t萧乾\n藉代\t借代\n藉以\t借以\n藉助\t借助\n藉助於\t借助于\n藉卉\t借卉\n藉口\t借口\n藉喻\t借喻\n藉寇兵\t借寇兵\n藉寇兵齎盜糧\t借寇兵赍盗粮\n藉手\t借手\n藉據\t借据\n藉故\t借故\n藉故推辭\t借故推辞\n藉方\t借方\n藉條\t借条\n藉槁\t借槁\n藉機\t借机\n藉此\t借此\n藉此機會\t借此机会\n藉甚\t借甚\n藉由\t借由\n藉着\t借着\n藉端\t借端\n藉端生事\t借端生事\n藉箸代籌\t借箸代筹\n藉草枕塊\t借草枕块\n藉藉\t藉藉\n藉詞\t借词\n藉讀\t借读\n藉資\t借资\n衹得\t只得\n衹見樹木\t只见树木\n衹見樹木不見森林\t只见树木不见森林\n袁祕\t袁祕\n袖裏乾坤\t袖里乾坤\n袷袢\t袷袢\n製坏\t制坯\n覆上\t覆上\n覆住\t覆住\n覆信\t复信\n覆冒\t覆冒\n覆呈\t复呈\n覆命\t复命\n覆墓\t复墓\n覆宗\t覆宗\n覆帳\t复帐\n覆幬\t覆帱\n覆成\t覆成\n覆按\t复按\n覆文\t复文\n覆杯\t覆杯\n覆校\t复校\n覆瓿\t覆瓿\n覆盂\t覆盂\n覆盆\t覆盆\n覆盆子\t覆盆子\n覆盤\t覆盘\n覆育\t覆育\n";

/// Part 1 of the text.
pub const TS_PHRASES_1: &'static str = "覆蕉尋鹿\t覆蕉寻鹿\n覆逆\t覆逆\n覆醢\t覆醢\n覆醬瓿\t覆酱瓿\n覆電\t复电\n覆露\t覆露\n覆鹿尋蕉\t覆鹿寻蕉\n覆鹿遺蕉\t覆鹿遗蕉\n覆鼎\t覆鼎\n見覆\t见复\n角徵\t角徵\n角徵羽\t角徵羽\n計畫\t计划\n許甦魂\t许甦魂\n變徵\t变徵\n變徵之聲\t变徵之声\n變徵之音\t变徵之音\n讎定\t雠定\n谿工\t谿工\n貂覆額\t貂覆额\n買臣覆水\t买臣覆水\n赤石逕\t赤石迳\n踅門瞭戶\t踅门了户\n躪藉\t躏借\n載沈載浮\t载沉载浮\n載浮載沈\t载浮载沉\n辛祕\t辛祕\n逆釐\t逆釐\n逕口\t迳口\n逕聯\t迳联\n逕頭\t迳头\n郭子乾\t郭子乾\n酒逢知己千鍾少\t酒逢知己千锺少\n醞藉\t酝借\n重覆\t重复\n金吒\t金吒\n金昇玟\t金昇玟\n金鍊\t金链\n鈞覆\t钧复\n鉅子\t钜子\n鉅萬\t钜万\n鉅防\t钜防\n鉸鍊\t铰链\n銀鍊\t银链\n鋼坏\t钢坯\n錢鍾書\t钱锺书\n鍊墜\t链坠\n鍊子\t链子\n鍊形\t链形\n鍊條\t链条\n鍊錘\t链锤\n鍊鎖\t链锁\n鍛鍾\t锻锺\n鍾繇\t锺繇\n鍾萬梅\t锺万梅\n鍾重發\t锺重发\n鍾鍛\t锺锻\n鍾馗\t锺馗\n鎖鍊\t锁链\n鐵鍊\t铁链\n鑽石項鍊\t钻石项链\n鑿坏\t凿坯\n閻鶴昇\t阎鹤昇\n陰沈\t阴沉\n陰沈沈\t阴沉沉\n陰陰沈沈\t阴阴沉沉\n陳志昇\t陈志昇\n陳昇\t陈昇\n陳甦\t陈甦\n陶坏\t陶坯\n雁杳魚沈\t雁杳鱼沉\n雖覆能復\t虽覆能复\n電覆\t电复\n露覆\t露覆\n韓昇延\t韩昇延\n韓甦\t韩甦\n項鍊\t项链\n頗覆\t颇覆\n頸鍊\t颈链\n顛乾倒坤\t颠乾倒坤\n顛倒乾坤\t颠倒乾坤\n顧藉\t顾借\n馮甦\t冯甦\n魏徵\t魏徵\n魚沈雁杳\t鱼沉雁杳\n麪坏兒\t面坯儿\n麵坏兒\t面坯儿\n麼些族\t麽些族\n黃甦\t黄甦\n黃鍾公\t黄锺公\n黑沈沈\t黑沉沉\n龍鍾\t龙钟\n龔昇\t龚昇\n碼頭\t码头\n甚麼\t什么\n新抱\t媳妇\n原著\t原著\n論著\t论著\n較著\t较著\n名著\t名著\n土著\t土著\n顯著\t显著\n譯著\t译著\n遺著\t遗著\n著作\t著作\n鉅著\t巨著\n巨著\t巨著\n著名\t著名\n著式\t著式\n著志\t著志\n著於\t著於\n著書\t著书\n著白\t著白\n著稱\t著称\n著者\t著者\n著述\t著述\n著錄\t著录\n合著\t合著\n合著者\t合著者\n顯著標志\t显著标志\n著稱於世\t著称于世\n鴻篇鉅著\t鸿篇巨著\n惡名昭著\t恶名昭著\n昭著\t昭著\n專著\t专著\n編著\t编著\n卓著\t卓著\n撰著\t撰著\n積微成著\t积微成著\n見微知著\t见微知著\n彰明較著\t彰明较著\n";

/// The number of parts of the text.
pub const PARTS: usize = 2;

/// Part `i` of the `TSPhrases` text; a later entry for the same source wins.
pub open spec fn part(i: int) -> Seq<char> {
    if i == 0 {
        TS_PHRASES_0@
    } else if i == 1 {
        TS_PHRASES_1@
    } else {
        Seq::empty()
    }
}

/// Part `i` of the text.
pub fn part_exec(i: usize) -> (r: &'static str)
    requires
        i < PARTS,
    ensures
        r@ == part(i as int),
{
    match i {
        0 => TS_PHRASES_0,
        1 => TS_PHRASES_1,
        _ => TS_PHRASES_0,
    }
}

} // verus!
