//! Bundled `TWVariantsRevPhrases` dictionary: entries `source<TAB>replacement`, one per line.

use vstd::prelude::*;

verus! {

/// Part 0 of the text.
pub const TW_VARIANTS_REV_PHRASES_0: &'static str = "一口吃個\t一口吃個\n一口吃成\t一口吃成\n一家三口\t一家三口\n一家五口\t一家五口\n一家六口\t一家六口\n一家四口\t一家四口\n一展長才\t一展長才\n一流人才\t一流人才\n一表人才\t一表人才\n一針\t一針\n一針見血\t一針見血\n七步之才\t七步之才\n七步奇才\t七步奇才\n三才\t三才\n三才圖會\t三才圖會\n三針\t三針\n上梁\t上樑\n上梁不正\t上樑不正\n上梁不正下梁歪\t上樑不正下樑歪\n上梁文\t上樑文\n下才\t下才\n下梁\t下樑\n不成才\t不成才\n不才\t不才\n不打不成才\t不打不成才\n不良才\t不良才\n丟巧針\t丟巧針\n中才\t中才\n中核\t中核\n丹稜\t丹稜\n主梁\t主樑\n之核\t之核\n九針\t九針\n乾奴才\t乾奴才\n亂針繡\t亂針繡\n二流人才\t二流人才\n亞核\t亞核\n人才\t人才\n人才出衆\t人才出衆\n人才外流\t人才外流\n人才庫\t人才庫\n人才流失\t人才流失\n人才濟濟\t人才濟濟\n人才輩出\t人才輩出\n人才難得\t人才難得\n人盡其才\t人盡其才\n什么\t什麼\n仙才\t仙才\n伊核\t伊核\n作育英才\t作育英才\n佳人才子\t佳人才子\n個核\t個核\n倒了核桃車子\t倒了核桃車子\n倒扣針兒\t倒扣針兒\n偏才\t偏才\n做針線\t做針線\n偷梁換柱\t偷樑換柱\n傲世輕才\t傲世輕才\n僅作參考\t僅作參考\n僅供參考\t僅供參考\n儲訓人才\t儲訓人才\n光脊梁\t光脊樑\n免參\t免參\n內參\t內參\n內核\t內核\n全才\t全才\n全程參加\t全程參加\n全面禁止核試驗條約\t全面禁止核試驗條約\n八字方針\t八字方針\n八斗之才\t八斗之才\n八斗才\t八斗才\n公才公望\t公才公望\n公衆參與\t公衆參與\n六才子書\t六才子書\n其核\t其核\n冠世之才\t冠世之才\n冰核\t冰核\n几案之才\t几案之才\n凡才\t凡才\n出倫之才\t出倫之才\n刀割針扎\t刀割針扎\n分針\t分針\n初露才華\t初露才華\n別針\t別針\n利弊參半\t利弊參半\n刺股懸梁\t刺股懸樑\n刺胳針\t刺胳針\n刺針\t刺針\n刺骨懸梁\t刺骨懸樑\n剋核\t剋核\n前核\t前核\n力薄才疏\t力薄才疏\n功過參半\t功過參半\n動如參商\t動如參商\n匡濟之才\t匡濟之才\n十針\t十針\n千噸級核武器\t千噸級核武器\n南針\t南針\n博學多才\t博學多才\n卯酉參辰\t卯酉參辰\n印核\t印核\n卵核\t卵核\n原子核\t原子核\n原核\t原核\n去核\t去核\n參予\t參予\n參事\t參事\n參伍\t參伍\n參佐\t參佐\n參假\t參假\n參兩院\t參兩院\n參前落後\t參前落後\n參加\t參加\n參加人\t參加人\n參加國\t參加國\n參加完\t參加完\n參加爲\t參加爲\n參加獎\t參加獎\n參加者\t參加者\n參劾\t參劾\n參半\t參半\n參合\t參合\n參同契\t參同契\n參商\t參商\n參團\t參團\n參堂\t參堂\n參場\t參場\n參天\t參天\n參奏\t參奏\n參孫\t參孫\n參宿\t參宿\n參宿七\t參宿七\n參將\t參將\n參展\t參展\n參展商\t參展商\n參展團\t參展團\n參差\t參差\n參差不齊\t參差不齊\n參差錯落\t參差錯落\n參度\t參度\n參悟\t參悟\n參戰\t參戰\n參戰國\t參戰國\n參拜\t參拜\n參拾壹\t參拾壹\n參拾陸\t參拾陸\n參政\t參政\n參政權\t參政權\n參數\t參數\n參數表\t參數表\n參會\t參會\n參朝\t參朝\n參本\t參本\n參校\t參校\n參演\t參演\n參照\t參照\n參照卡\t參照卡\n參照物\t參照物\n參照系\t參照系\n參看\t參看\n參知政事\t參知政事\n參破\t參破\n參禪\t參禪\n參綜\t參綜\n參考\t參考\n參考值\t參考值\n參考價\t參考價\n參考價值\t參考價值\n參考參考\t參考參考\n參考座標\t參考座標\n參考性\t參考性\n參考手冊\t參考手冊\n參考文獻\t參考文獻\n參考書\t參考書\n參考書目\t參考書目\n參考材料\t參考材料\n參考法\t參考法\n參考消息\t參考消息\n參考特藏\t參考特藏\n參考系\t參考系\n參考資料\t參考資料\n參股\t參股\n參與\t參與\n參與人員\t參與人員\n參與制\t參與制\n參與度\t參與度\n參與感\t參與感\n參與權\t參與權\n參與率\t參與率\n參與者\t參與者\n參衆兩院\t參衆兩院\n參見\t參見\n參見互照\t參見互照\n參見注\t參見注\n參觀\t參觀\n參觀券\t參觀券\n參觀參觀\t參觀參觀\n參觀團\t參觀團\n參觀團體\t參觀團體\n參觀完\t參觀完\n參觀者\t參觀者\n參訂\t參訂\n參訓\t參訓\n參訪\t參訪\n參訪團\t參訪團\n參評\t參評\n參話頭\t參話頭\n參請\t參請\n參謀\t參謀\n參謀總部\t參謀總部\n參謀總長\t參謀總長\n參謀長\t參謀長\n參謁\t參謁\n參譚\t參譚\n參議\t參議\n參議員\t參議員\n參議會\t參議會\n參議院\t參議院\n參賽\t參賽\n參賽國\t參賽國\n參賽權\t參賽權\n參賽片\t參賽片\n參賽者\t參賽者\n參贊\t參贊\n參軍\t參軍\n參辰\t參辰\n參辰卯酉\t參辰卯酉\n參辰日月\t參辰日月\n參透\t參透\n參道\t參道\n參選\t參選\n參選人\t參選人\n參酌\t參酌\n參量\t參量\n參量空間\t參量空間\n參錯\t參錯\n參閱\t參閱\n參院\t參院\n參雜\t參雜\n參靈\t參靈\n參革\t參革\n參預\t參預\n參頭\t參頭\n參驗\t參驗\n反時針\t反時針\n反核\t反核\n取才\t取才\n口吃\t口吃\n口才\t口才\n口才好\t口才好\n口才辨給\t口才辨給\n可供參考\t可供參考\n可憎才\t可憎才\n吃口\t吃口\n吃口令\t吃口令\n吃口飯\t吃口飯\n吃吃\t吃吃\n吃子\t吃子\n合著\t合著\n合著者\t合著者\n同參\t同參\n名著\t名著\n向風針\t向風針\n命世之才\t命世之才\n命世才\t命世才\n和核\t和核\n唐才常\t唐才常\n唱針\t唱針\n啄針兒\t啄針兒\n善才\t善才\n善才童子\t善才童子\n喜憂參半\t喜憂參半\n喝參\t喝參\n喫敲才\t吃敲才\n喬才\t喬才\n單核\t單核\n單核細胞增多症\t單核細胞增多症\n嗎啡針\t嗎啡針\n四才子\t四才子\n四核\t四核\n圈梁\t圈樑\n國家棟梁\t國家棟樑\n土參\t土參\n在橋梁工地上\t在橋樑工地上\n地核\t地核\n地面核爆炸\t地面核爆炸\n埋沒人才\t埋沒人才\n增量參數\t增量參數\n外才\t外才\n外核\t外核\n多么\t多麼\n多事逞才\t多事逞才\n多才\t多才\n多才多藝\t多才多藝\n多核\t多核\n大廈棟梁\t大廈棟樑\n大才\t大才\n大才小用\t大才小用\n大才槃槃\t大才槃槃\n大政方針\t大政方針\n大曆十才子\t大曆十才子\n大核\t大核\n大梁\t大梁\n大海撈針\t大海撈針\n大頭針\t大頭針\n天妒英才\t天妒英才\n天才\t天才\n天才兒童\t天才兒童\n天才出自勤奮\t天才出自勤奮\n天才型\t天才型\n天才教育\t天才教育\n天才橫溢\t天才橫溢\n天才論\t天才論\n天縱之才\t天縱之才\n太乙神針\t太乙神針\n奇才\t奇才\n奇才異能\t奇才異能\n女人心海底針\t女人心海底針\n女子參政主義\t女子參政主義\n女子參政權\t女子參政權\n女秀才\t女秀才\n女貌郎才\t女貌郎才\n奴才\t奴才\n好么\t好麼\n妙才\t妙才\n學優才贍\t學優才贍\n學淺才疏\t學淺才疏\n學疏才淺\t學疏才淺\n宏內核\t宏內核\n定南針\t定南針\n定風針\t定風針\n實才\t實才\n將才\t將才\n將遇良才\t將遇良才\n專才\t專才\n專業人才\t專業人才\n專門人才\t專門人才\n對針\t對針\n小丑跳梁\t小丑跳樑\n小才大用\t小才大用\n小才子\t小才子\n小秀才\t小秀才\n小秀才學堂\t小秀才學堂\n小醜跳梁\t小醜跳樑\n小針\t小針\n小針美容\t小針美容\n少年才俊\t少年才俊\n";

/// Part 1 of the text.
pub const TW_VARIANTS_REV_PHRASES_1: &'static str = "尺二秀才\t尺二秀才\n屈才\t屈才\n屋梁\t屋樑\n展才\t展才\n山梁\t山樑\n岑參\t岑參\n巨著\t巨著\n帶團參加\t帶團參加\n常用參考書\t常用參考書\n平梁\t平樑\n平針縫\t平針縫\n幹才\t幹才\n幾針\t幾針\n庸才\t庸才\n廩膳秀才\t廩膳秀才\n引線穿針\t引線穿針\n張口\t張口\n張飛穿針\t張飛穿針\n強心針\t強心針\n弼針\t弼針\n彈針\t彈針\n彗核\t彗核\n形名參同\t形名參同\n待著\t待著\n得失參半\t得失參半\n微核\t微核\n徵才\t徵才\n德才\t德才\n德才兼備\t德才兼備\n德薄才疏\t德薄才疏\n志大才疏\t志大才疏\n志大才短\t志大才短\n志廣才疏\t志廣才疏\n怎么\t怎麼\n恃才傲物\t恃才傲物\n恃才矜己\t恃才矜己\n恃才自專\t恃才自專\n惡名昭著\t惡名昭著\n意廣才疏\t意廣才疏\n愛才\t愛才\n愛才好士\t愛才好士\n愛才如命\t愛才如命\n愛才若渴\t愛才若渴\n憂喜參半\t憂喜參半\n憐才\t憐才\n懷才不遇\t懷才不遇\n懷才抱德\t懷才抱德\n懸梁\t懸樑\n懸梁刺股\t懸樑刺股\n懸梁自盡\t懸樑自盡\n懸臂梁\t懸臂樑\n懸針\t懸針\n懸針垂露\t懸針垂露\n成兆才\t成兆才\n成核\t成核\n戰術核武器\t戰術核武器\n戳脊梁\t戳脊樑\n戳脊梁骨\t戳脊樑骨\n手腕式指北針\t手腕式指北針\n才人\t才人\n才俊\t才俊\n才儲八斗\t才儲八斗\n才具\t才具\n才兼文武\t才兼文武\n才分\t才分\n才力\t才力\n才勇兼優\t才勇兼優\n才名\t才名\n才器\t才器\n才士\t才士\n才大難用\t才大難用\n才女\t才女\n才如史遷\t才如史遷\n才媛\t才媛\n才子\t才子\n才子佳人\t才子佳人\n才子書\t才子書\n才學\t才學\n才學兼優\t才學兼優\n才守\t才守\n才定\t才定\n才幹\t才幹\n才廣妨身\t才廣妨身\n才微智淺\t才微智淺\n才德\t才德\n才德兼備\t才德兼備\n才思\t才思\n才思敏捷\t才思敏捷\n才悟\t才悟\n才情\t才情\n才智\t才智\n才望\t才望\n才氣\t才氣\n才氣無雙\t才氣無雙\n才氣縱橫\t才氣縱橫\n才氣過人\t才氣過人\n才爲世出\t才爲世出\n才用\t才用\n才略\t才略\n才略過人\t才略過人\n才當曹斗\t才當曹斗\n才疏學淺\t才疏學淺\n才疏德薄\t才疏德薄\n才疏志大\t才疏志大\n才疏意廣\t才疏意廣\n才疏計拙\t才疏計拙\n才短氣粗\t才短氣粗\n才秀人微\t才秀人微\n才能\t才能\n才能幹濟\t才能幹濟\n才色\t才色\n才華\t才華\n才華出衆\t才華出衆\n才華橫溢\t才華橫溢\n才華洋溢\t才華洋溢\n才華蓋世\t才華蓋世\n才蔽識淺\t才蔽識淺\n才藝\t才藝\n才藝卓絕\t才藝卓絕\n才藝技能\t才藝技能\n才藝班\t才藝班\n才藝秀\t才藝秀\n才藻\t才藻\n才語\t才語\n才識\t才識\n才識過人\t才識過人\n才貌\t才貌\n才貌出衆\t才貌出衆\n才貌雙全\t才貌雙全\n才貫二酉\t才貫二酉\n才資\t才資\n才輕德薄\t才輕德薄\n才過子建\t才過子建\n才過屈宋\t才過屈宋\n才非玉潤\t才非玉潤\n才高八斗\t才高八斗\n才高意廣\t才高意廣\n才高氣傲\t才高氣傲\n才高行厚\t才高行厚\n才高行潔\t才高行潔\n扎針\t扎針\n打參\t打參\n打完針\t打完針\n打針\t打針\n扛大梁\t扛大樑\n披針形葉\t披針形葉\n抵針\t抵針\n拈針指\t拈針指\n拔地參天\t拔地參天\n指北針\t指北針\n指南針\t指南針\n指針\t指針\n指針式\t指針式\n挑大梁\t挑大樑\n挑正梁\t挑正樑\n捫參歷井\t捫參歷井\n捷才\t捷才\n掃眉才子\t掃眉才子\n探針\t探針\n提梁\t提樑\n插針\t插針\n揚己露才\t揚己露才\n搖針\t搖針\n搗針\t搗針\n撞針\t撞針\n撥亂之才\t撥亂之才\n撫梁易柱\t撫樑易柱\n擬核\t擬核\n擺針\t擺針\n收針\t收針\n放參\t放參\n教育方針\t教育方針\n敹一針\t敹一針\n文才\t文才\n文武全才\t文武全才\n文選爛秀才半\t文選爛秀才半\n斗筲之才\t斗筲之才\n斗轉參橫\t斗轉參橫\n方針\t方針\n日月參辰\t日月參辰\n早參\t早參\n昭著\t昭著\n時針\t時針\n晚參\t晚參\n晨參暮省\t晨參暮省\n晨參暮禮\t晨參暮禮\n晶核\t晶核\n暈針\t暈針\n暮禮晨參\t暮禮晨參\n曠世之才\t曠世之才\n曠世奇才\t曠世奇才\n曠世逸才\t曠世逸才\n曲別針\t曲別針\n曹參\t曹參\n曾參\t曾參\n曾參殺人\t曾參殺人\n月核\t月核\n月落參橫\t月落參橫\n有才\t有才\n有才幹\t有才幹\n有才無命\t有才無命\n有核\t有核\n朝參暮禮\t朝參暮禮\n朝核\t朝核\n木梁\t木樑\n未易才\t未易才\n朽木之才\t朽木之才\n杏核\t杏核\n東海撈針\t東海撈針\n松針\t松針\n板梁橋\t板樑橋\n林木參天\t林木參天\n果核\t果核\n枝針\t枝針\n架梁\t架樑\n架海金梁\t架海金樑\n柱梁\t柱樑\n核下\t核下\n核二廠\t核二廠\n核人\t核人\n核仁\t核仁\n核以\t核以\n核僵持\t核僵持\n核兒\t核兒\n核冬天\t核冬天\n核出口控制\t核出口控制\n核力\t核力\n核化\t核化\n核區\t核區\n核可\t核可\n核合成\t核合成\n核和\t核和\n核四\t核四\n核型\t核型\n核子\t核子\n核子廠\t核子廠\n核孔\t核孔\n核島\t核島\n核工\t核工\n核彈\t核彈\n核心\t核心\n核戰\t核戰\n核戰鬥部\t核戰鬥部\n核技術\t核技術\n核數\t核數\n核是\t核是\n核有\t核有\n核果\t核果\n核桃\t核桃\n核武\t核武\n核火箭發動機\t核火箭發動機\n核炫\t核炫\n核燃料後處理\t核燃料後處理\n核爆\t核爆\n核爆炸煙雲\t核爆炸煙雲\n核狀\t核狀\n核球\t核球\n核甘\t核甘\n核當量\t核當量\n核發\t核發\n核發電\t核發電\n核發電廠\t核發電廠\n核的\t核的\n核磁\t核磁\n核種\t核種\n核突\t核突\n核粒\t核粒\n核糖\t核糖\n核糖核酸\t核糖核酸\n核素\t核素\n核線\t核線\n核能\t核能\n核能技術\t核能技術\n核能發電\t核能發電\n核能發電廠\t核能發電廠\n核能電廠\t核能電廠\n核膜\t核膜\n核苷\t核苷\n核菌\t核菌\n核融合\t核融合\n核融合發電\t核融合發電\n核解\t核解\n核計劃\t核計劃\n核試\t核試\n核談\t核談\n核質\t核質\n核載\t核載\n核辦\t核辦\n核配\t核配\n核酪\t核酪\n核酶\t核酶\n核酸\t核酸\n核防禦\t核防禦\n核電\t核電\n核電廠\t核電廠\n核電磁脈衝\t核電磁脈衝\n核體\t核體\n核點\t核點\n桃核\t桃核\n桃核雕\t桃核雕\n桑針\t桑針\n梁上\t樑上\n梁上君子\t樑上君子\n梁子\t樑子\n梁木\t梁木\n梁木其壞\t樑木其壞\n梁架\t樑架\n梁柱\t樑柱\n梁棟\t樑棟\n梁龍\t梁龍\n梅核\t梅核\n棄核\t棄核\n棋逢對手將遇良才\t棋逢對手將遇良才\n棒針\t棒針\n棒針衫\t棒針衫\n棗核\t棗核\n棘針\t棘針\n棘針科\t棘針科\n棘針門\t棘針門\n棟梁\t棟樑\n棟梁之任\t棟樑之任\n棟梁之材\t棟樑之材\n棟梁之臣\t棟樑之臣\n椽梁\t椽樑\n極核\t極核\n槃才\t槃才\n槃槃大才\t槃槃大才\n樹梁\t樹樑\n橋梁\t橋樑\n橋梁工事\t橋樑工事\n橋梁工程\t橋樑工程\n橘核\t橘核\n橫打鼻梁兒\t橫打鼻樑兒\n橫梁\t橫樑\n檢核\t檢核\n檢核表\t檢核表\n歌聲繞梁\t歌聲繞樑\n正則參數\t正則參數\n正梁\t正樑\n步線行針\t步線行針\n歪才\t歪才\n歷練之才\t歷練之才\n殺才\t殺才\n毒針\t毒針\n比才\t比才\n毛線針\t毛線針\n毫針\t毫針\n氘核\t氘核\n水底撈針\t水底撈針\n求才\t求才\n求才若渴\t求才若渴\n江南四大才子\t江南四大才子\n江參\t江參\n江淹才盡\t江淹才盡\n江郎才盡\t江郎才盡\n沒梁桶\t沒樑桶\n沒脊梁\t沒脊樑\n河梁\t河樑\n";

/// Part 2 of the text.
pub const TW_VARIANTS_REV_PHRASES_2: &'static str = "沿才授職\t沿才授職\n注射針\t注射針\n注射針頭\t注射針頭\n泰山梁木\t泰山樑木\n洗面皂\t洗面皂\n洗髮皂\t洗髮皂\n洛陽才子\t洛陽才子\n津梁\t津樑\n派團參加\t派團參加\n海參威\t海參威\n海參崴\t海參崴\n海底撈針\t海底撈針\n滿腹才學\t滿腹才學\n漁梁\t漁樑\n漏針\t漏針\n潑才\t潑才\n澤梁\t澤樑\n濟世之才\t濟世之才\n濠梁\t濠樑\n無核\t無核\n無梁\t無樑\n無梁斗\t無樑斗\n無梁樓蓋\t無樑樓蓋\n無針不引線\t無針不引線\n無針注射器\t無針注射器\n煤核\t煤核\n熔核\t熔核\n熱核\t熱核\n燔針\t燔針\n片善小才\t片善小才\n物色人才\t物色人才\n特殊才能\t特殊才能\n狀態參數\t狀態參數\n狗才\t狗才\n獨挑大梁\t獨挑大樑\n率團參加\t率團參加\n玉參差\t玉參差\n玉尺量才\t玉尺量才\n王佐之才\t王佐之才\n玳梁\t玳樑\n玳瑁梁\t玳瑁樑\n瑣才\t瑣才\n甄才品能\t甄才品能\n甄選人才\t甄選人才\n甚么\t甚麼\n男才女貌\t男才女貌\n畎畝下才\t畎畝下才\n留針\t留針\n略無參商\t略無參商\n畫梁雕棟\t畫樑雕棟\n畫棟雕梁\t畫棟雕樑\n異才\t異才\n當世才度\t當世才度\n疑信參半\t疑信參半\n疑核\t疑核\n痔核\t痔核\n痛失英才\t痛失英才\n登庸人才\t登庸人才\n發展核武器\t發展核武器\n白鶴梁\t白鶴梁\n白鶴秀才\t白鶴秀才\n百萬噸級核武器\t百萬噸級核武器\n百里之才\t百里之才\n皂化\t皂化\n皂莢\t皂莢\n皂莢樹\t皂莢樹\n皂角\t皂角\n的核\t的核\n直接參與\t直接參與\n真才實學\t真才實學\n真核\t真核\n矜才使氣\t矜才使氣\n矜能負才\t矜能負才\n短針\t短針\n石梁\t石樑\n石針\t石針\n硬核\t硬核\n硬肥皂\t硬肥皂\n碌碌庸才\t碌碌庸才\n磁核\t磁核\n磁針\t磁針\n磨杵成針\t磨杵成針\n磨脊梁\t磨脊樑\n磨針溪\t磨針溪\n磨鐵成針\t磨鐵成針\n社交才能\t社交才能\n禁核\t禁核\n秀才\t秀才\n秀才不出門能知天下事\t秀才不出門能知天下事\n秀才人情\t秀才人情\n秀才作醫如菜作虀\t秀才作醫如菜作虀\n秀才造反\t秀才造反\n秒針\t秒針\n秧針\t秧針\n穆稜\t穆稜\n積極參加\t積極參加\n積極參與\t積極參與\n空梁落燕泥\t空樑落燕泥\n穿針\t穿針\n穿針引線\t穿針引線\n穿針走線\t穿針走線\n筆參造化\t筆參造化\n管理人才\t管理人才\n箱梁\t箱樑\n精核\t精核\n約核\t約核\n約翰參書\t約翰參書\n紋光針\t紋光針\n細針密縷\t細針密縷\n結核\t結核\n結核桿菌\t結核桿菌\n結梁子\t結樑子\n絕對參照\t絕對參照\n絕才\t絕才\n絞包針\t絞包針\n給個棒錘當針認\t給個棒錘當針認\n綏稜\t綏稜\n經世之才\t經世之才\n經國之才\t經國之才\n經濟之才\t經濟之才\n網羅人才\t網羅人才\n綿裏藏針\t綿裏藏針\n綿裏針\t綿裏針\n縫衣針\t縫衣針\n縫針\t縫針\n縫針補線\t縫針補線\n縫針跡\t縫針跡\n縱梁\t縱樑\n總參謀部\t總參謀部\n總參謀長\t總參謀長\n總方針\t總方針\n繃針\t繃針\n繞梁\t繞樑\n繞梁三日\t繞樑三日\n繞梁之音\t繞樑之音\n繞梁韻永\t繞樑韻永\n繡花針\t繡花針\n繡花針兒\t繡花針兒\n繡針\t繡針\n羅盤針\t羅盤針\n美國參議院\t美國參議院\n美才\t美才\n美白針\t美白針\n老奴才\t老奴才\n耐多藥結核病\t耐多藥結核病\n耳針\t耳針\n聯合參謀\t聯合參謀\n聰明才智\t聰明才智\n肥皂\t肥皂\n肥皂劇\t肥皂劇\n肥皂泡\t肥皂泡\n肥皂粉\t肥皂粉\n肥皂絲\t肥皂絲\n肥皂莢\t肥皂莢\n育才\t育才\n胃口\t胃口\n背梁骨\t背樑骨\n胡才勇\t胡才勇\n胸針\t胸針\n脊梁\t脊樑\n脊梁背\t脊樑背\n脊梁骨\t脊樑骨\n自學成才\t自學成才\n自核\t自核\n船不漏針漏針沒外人\t船不漏針漏針沒外人\n花兒針\t花兒針\n花旗參\t花旗參\n英才\t英才\n英才俊偉\t英才俊偉\n茂才\t茂才\n茂才異等\t茂才異等\n茅針\t茅針\n茲核\t茲核\n菌核\t菌核\n菲才寡學\t菲才寡學\n落月屋梁\t落月屋樑\n葉針\t葉針\n著作\t著作\n著名\t著名\n著式\t著式\n著志\t著志\n著於\t著於\n著書\t著書\n著白\t著白\n著稱\t著稱\n著稱於世\t著稱於世\n著者\t著者\n著述\t著述\n著錄\t著錄\n蓋世之才\t蓋世之才\n藏針縫\t藏針縫\n藥皂\t藥皂\n藥針\t藥針\n蘋果核\t蘋果核\n蛇口蜂針\t蛇口蜂針\n螫針\t螫針\n蠹啄剖梁柱\t蠹啄剖樑柱\n蠻針瞎灸\t蠻針瞎灸\n行短才喬\t行短才喬\n行短才高\t行短才高\n補血針\t補血針\n補針\t補針\n製麵\t製麵\n西洋參\t西洋參\n要么\t要麼\n見縫插針\t見縫插針\n討針線\t討針線\n詠雪之才\t詠雪之才\n詩才\t詩才\n誇才賣智\t誇才賣智\n說參請\t說參請\n請參閱\t請參閱\n謊敲才\t謊敲才\n謝絕參觀\t謝絕參觀\n識多才廣\t識多才廣\n識才\t識才\n識才尊賢\t識才尊賢\n譭譽參半\t譭譽參半\n豎柱上梁\t豎柱上樑\n豎起脊梁\t豎起脊樑\n象牙針尖\t象牙針尖\n豬八戒喫人參果\t豬八戒吃人參果\n負才\t負才\n負才任氣\t負才任氣\n負才使氣\t負才使氣\n賀爾蒙針\t賀爾蒙針\n賢才\t賢才\n賤才\t賤才\n超世之才\t超世之才\n趫才\t趫才\n跳梁\t跳樑\n跳梁小丑\t跳樑小丑\n跳梁小醜\t跳樑小醜\n跳梁猖獗之小丑\t跳樑猖獗之小丑\n跳梁猖獗之小醜\t跳樑猖獗之小醜\n跳針\t跳針\n蹇吃\t蹇吃\n身才\t身才\n軟肥皂\t軟肥皂\n輇才\t輇才\n輕核\t輕核\n辯才\t辯才\n辯才天\t辯才天\n辯才無礙\t辯才無礙\n这么\t这麼\n迴紋針\t迴紋針\n退針\t退針\n逆時針\t逆時針\n這么\t這麼\n通人達才\t通人達才\n通才\t通才\n通才教育\t通才教育\n通才練識\t通才練識\n造就人才\t造就人才\n逸才\t逸才\n逸羣之才\t逸羣之才\n過人才略\t過人才略\n過梁\t過樑\n違紀參選\t違紀參選\n適才\t適才\n選才\t選才\n選民參加率\t選民參加率\n遺才\t遺才\n避雷針\t避雷針\n邊核\t邊核\n那么\t那麼\n郎才女姿\t郎才女姿\n郎才女貌\t郎才女貌\n鄧艾吃\t鄧艾吃\n野無遺才\t野無遺才\n量才錄用\t量才錄用\n金針\t金針\n金針山\t金針山\n金針度人\t金針度人\n金針花\t金針花\n金針菇\t金針菇\n金針菜\t金針菜\n釘書針\t釘書針\n針具\t針具\n針刺\t針刺\n針刺麻醉\t針刺麻醉\n針劑\t針劑\n針孔\t針孔\n針孔攝影機\t針孔攝影機\n針孔照像\t針孔照像\n針孔照像機\t針孔照像機\n針孔現象\t針孔現象\n針對\t針對\n針對性\t針對性\n針對於\t針對於\n針尖\t針尖\n針尖兒\t針尖兒\n針工\t針工\n針布\t針布\n針形葉\t針形葉\n針指\t針指\n針挑刀挖\t針挑刀挖\n針梳機\t針梳機\n針氈\t針氈\n針法\t針法\n針炙\t針炙\n針狀\t針狀\n針狀物\t針狀物\n針盤\t針盤\n針眼\t針眼\n針眼子\t針眼子\n針神\t針神\n針筆\t針筆\n針筆匠\t針筆匠\n針筒\t針筒\n針箍\t針箍\n針箍兒\t針箍兒\n針線\t針線\n針線包\t針線包\n針線娘\t針線娘\n針線活\t針線活\n針線活計\t針線活計\n針線盒\t針線盒\n針線箔籬\t針線箔籬\n針織\t針織\n針織品\t針織品\n針織廠\t針織廠\n針織料\t針織料\n針腳\t針腳\n針葉\t針葉\n針葉林\t針葉林\n針葉植物\t針葉植物\n針葉樹\t針葉樹\n針針見血\t針針見血\n針釦\t針釦\n針鋒\t針鋒\n針鋒相對\t針鋒相對\n針鋒相投\t針鋒相投\n針鋩\t針鋩\n針頭\t針頭\n針餌莫減\t針餌莫減\n針骨\t針骨\n";

/// Part 3 of the text.
pub const TW_VARIANTS_REV_PHRASES_3: &'static str = "針魚\t針魚\n針黹\t針黹\n針黹紡績\t針黹紡績\n針鼴\t針鼴\n針鼻\t針鼻\n針鼻兒\t針鼻兒\n釦針\t釦針\n鉅著\t鉅著\n鉤針\t鉤針\n銀核\t銀核\n銀針\t銀針\n鋼梁\t鋼樑\n鋼針\t鋼針\n錶針\t錶針\n鐵針\t鐵針\n鑑核備查\t鑑核備查\n鑿壁懸梁\t鑿壁懸樑\n長才\t長才\n長針\t長針\n開口\t開口\n防疫針\t防疫針\n陰核\t陰核\n隨才器使\t隨才器使\n雄才\t雄才\n雄才大略\t雄才大略\n雌核\t雌核\n雕梁\t雕樑\n雕梁畫柱\t雕樑畫柱\n雕梁畫棟\t雕樑畫棟\n雙核\t雙核\n雙鏈核酸\t雙鏈核酸\n電唱針\t電唱針\n電針\t電針\n電針麻醉\t電針麻醉\n需才孔亟\t需才孔亟\n露才\t露才\n露才揚己\t露才揚己\n霸才\t霸才\n非才\t非才\n非核\t非核\n面皂\t面皂\n頂核\t頂核\n頂梁柱\t頂樑柱\n頂梁骨走了真魂\t頂樑骨走了真魂\n頂針\t頂針\n頂針兒\t頂針兒\n頂針捱住\t頂針捱住\n頂門針\t頂門針\n順時針\t順時針\n預防針\t預防針\n領帶針\t領帶針\n頭懸梁錐刺股\t頭懸樑錐刺股\n顯著\t顯著\n顯著標志\t顯著標志\n風向針\t風向針\n風流才子\t風流才子\n飛梁\t飛樑\n飛針走線\t飛針走線\n飽學秀才\t飽學秀才\n餘音繞梁\t餘音繞樑\n餘響繞梁\t餘響繞樑\n香皂\t香皂\n馮驥才\t馮驥才\n驚才絕豔\t驚才絕豔\n骨針\t骨針\n高參\t高參\n高才\t高才\n高才生\t高才生\n高級管理人才\t高級管理人才\n髮針\t髮針\n鬼才\t鬼才\n鬼針草\t鬼針草\n魚梁\t魚樑\n魚頭參政\t魚頭參政\n鴻篇鉅著\t鴻篇鉅著\n鹽水針\t鹽水針\n麴秀才\t麴秀才\n麻醉針\t麻醉針\n黃有才\t黃有才\n點核\t點核\n鼻梁\t鼻樑\n鼻梁兒\t鼻樑兒\n鼻梁骨\t鼻樑骨\n鼻無梁柱\t鼻無樑柱\n鼻針療法\t鼻針療法\n齧蘗吞針\t齧蘗吞針\n";

/// The number of parts of the text.
pub const PARTS: usize = 4;

/// Part `i` of the `TWVariantsRevPhrases` text; a later entry for the same source wins.
pub open spec fn part(i: int) -> Seq<char> {
    if i == 0 {
        TW_VARIANTS_REV_PHRASES_0@
    } else if i == 1 {
        TW_VARIANTS_REV_PHRASES_1@
    } else if i == 2 {
        TW_VARIANTS_REV_PHRASES_2@
    } else if i == 3 {
        TW_VARIANTS_REV_PHRASES_3@
    } else {
        Seq::empty()
    }
}

/// Part `i` of the text.
pub fn part_exec(i: usize) -> (r: &'static str)
    requires
        i < PARTS,
    ensures
        r@ == part(i as int),
{
    match i {
        0 => TW_VARIANTS_REV_PHRASES_0,
        1 => TW_VARIANTS_REV_PHRASES_1,
        2 => TW_VARIANTS_REV_PHRASES_2,
        3 => TW_VARIANTS_REV_PHRASES_3,
        _ => TW_VARIANTS_REV_PHRASES_0,
    }
}

} // verus!
