//! Bundled `HKVariantsRevPhrases` dictionary: entries `source<TAB>replacement`, one per line.

use vstd::prelude::*;

verus! {

/// Part 0 of the text.
pub const HK_VARIANTS_REV_PHRASES_0: &'static str = "一口吃個\t一口吃個\n一口吃成\t一口吃成\n一家三口\t一家三口\n一家五口\t一家五口\n一家六口\t一家六口\n一家四口\t一家四口\n一展長才\t一展長才\n一流人才\t一流人才\n一溜煙\t一溜煙\n一表人才\t一表人才\n一道煙\t一道煙\n一針\t一針\n一針見血\t一針見血\n七孔生煙\t七孔生煙\n七步之才\t七步之才\n七步奇才\t七步奇才\n七竅冒煙\t七竅冒煙\n七竅生煙\t七竅生煙\n三才\t三才\n三才圖會\t三才圖會\n三針\t三針\n下才\t下才\n不喫煙火食\t不吃煙火食\n不成才\t不成才\n不才\t不才\n不打不成才\t不打不成才\n不良才\t不良才\n不食人間煙火\t不食人間煙火\n不食煙火\t不食煙火\n丟巧針\t丟巧針\n中才\t中才\n中核\t中核\n丹稜\t丹稜\n之核\t之核\n九針\t九針\n乾冒煙\t乾冒煙\n乾奴才\t乾奴才\n亂針繡\t亂針繡\n二流人才\t二流人才\n于臺煙\t于臺煙\n亞核\t亞核\n人才\t人才\n人才出衆\t人才出衆\n人才外流\t人才外流\n人才庫\t人才庫\n人才流失\t人才流失\n人才濟濟\t人才濟濟\n人才輩出\t人才輩出\n人才難得\t人才難得\n人煙\t人煙\n人煙浩穰\t人煙浩穰\n人煙湊集\t人煙湊集\n人煙稀少\t人煙稀少\n人煙稠密\t人煙稠密\n人煙輻輳\t人煙輻輳\n人盡其才\t人盡其才\n人間煙火\t人間煙火\n仙台\t仙台\n仙才\t仙才\n伊核\t伊核\n作育英才\t作育英才\n佳人才子\t佳人才子\n個核\t個核\n倒了核桃車子\t倒了核桃車子\n倒扣針兒\t倒扣針兒\n偏才\t偏才\n做針線\t做針線\n傲世輕才\t傲世輕才\n儲訓人才\t儲訓人才\n光煙霧\t光煙霧\n內核\t內核\n全才\t全才\n全面禁止核試驗條約\t全面禁止核試驗條約\n八字方針\t八字方針\n八斗之才\t八斗之才\n八斗才\t八斗才\n公才公望\t公才公望\n六才子書\t六才子書\n其核\t其核\n冒煙\t冒煙\n冒煙突火\t冒煙突火\n冠世之才\t冠世之才\n冰核\t冰核\n凌煙閣\t凌煙閣\n几案之才\t几案之才\n凡才\t凡才\n出倫之才\t出倫之才\n刀割針扎\t刀割針扎\n分針\t分針\n初露才華\t初露才華\n別針\t別針\n刺胳針\t刺胳針\n刺針\t刺針\n剋核\t剋核\n前核\t前核\n力薄才疏\t力薄才疏\n北港島綫\t北港島線\n匡濟之才\t匡濟之才\n十針\t十針\n千噸級核武器\t千噸級核武器\n南港島綫\t南港島線\n南針\t南針\n博學多才\t博學多才\n印核\t印核\n卵核\t卵核\n原子核\t原子核\n原核\t原核\n去核\t去核\n反時針\t反時針\n反核\t反核\n反煙\t反煙\n反煙運動\t反煙運動\n取才\t取才\n口吃\t口吃\n口才\t口才\n口才好\t口才好\n口才辨給\t口才辨給\n另起煙爨\t另起煙爨\n可憎才\t可憎才\n台山\t台山\n台山市\t台山市\n台州\t台州\n台州地區\t台州地區\n台州市\t台州市\n吃口\t吃口\n吃口令\t吃口令\n吃口飯\t吃口飯\n吃吃\t吃吃\n吃子\t吃子\n向風針\t向風針\n吞煙\t吞煙\n含煙籠霧\t含煙籠霧\n吸油煙機\t吸油煙機\n呂芳煙\t呂芳煙\n命世之才\t命世之才\n命世才\t命世才\n和核\t和核\n唐才常\t唐才常\n唱針\t唱針\n啄針兒\t啄針兒\n善才\t善才\n善才童子\t善才童子\n喝風呵煙\t喝風呵煙\n喝風痾煙\t喝風痾煙\n喫敲才\t吃敲才\n喫煙\t吃煙\n喬才\t喬才\n單核\t單核\n單核細胞增多症\t單核細胞增多症\n嗎啡針\t嗎啡針\n嚴禁煙火\t嚴禁煙火\n四才子\t四才子\n四核\t四核\n地核\t地核\n地面核爆炸\t地面核爆炸\n埋沒人才\t埋沒人才\n堅臥煙霞\t堅臥煙霞\n夕煙\t夕煙\n外才\t外才\n外核\t外核\n多事逞才\t多事逞才\n多才\t多才\n多才多藝\t多才多藝\n多核\t多核\n大才\t大才\n大才小用\t大才小用\n大才槃槃\t大才槃槃\n大政方針\t大政方針\n大曆十才子\t大曆十才子\n大核\t大核\n大海撈針\t大海撈針\n大煙\t大煙\n大頭針\t大頭針\n大麻煙\t大麻煙\n天台\t天台\n天台女\t天台女\n天台宗\t天台宗\n天台山\t天台山\n天台縣\t天台縣\n天妒英才\t天妒英才\n天才\t天才\n天才兒童\t天才兒童\n天才出自勤奮\t天才出自勤奮\n天才型\t天才型\n天才教育\t天才教育\n天才橫溢\t天才橫溢\n天才論\t天才論\n天縱之才\t天縱之才\n太乙神針\t太乙神針\n奇台\t奇台\n奇才\t奇才\n奇才異能\t奇才異能\n女人心海底針\t女人心海底針\n女秀才\t女秀才\n女貌郎才\t女貌郎才\n奴才\t奴才\n如墮煙霧\t如墮煙霧\n妙才\t妙才\n學優才贍\t學優才贍\n學淺才疏\t學淺才疏\n學疏才淺\t學疏才淺\n宏內核\t宏內核\n定南針\t定南針\n定風針\t定風針\n實才\t實才\n將才\t將才\n將軍澳綫\t將軍澳線\n將遇良才\t將遇良才\n專才\t專才\n專業人才\t專業人才\n專門人才\t專門人才\n對針\t對針\n小才大用\t小才大用\n小才子\t小才子\n小秀才\t小秀才\n小秀才學堂\t小秀才學堂\n小針\t小針\n小針美容\t小針美容\n少年才俊\t少年才俊\n尺二秀才\t尺二秀才\n屈才\t屈才\n展才\t展才\n屯馬綫\t屯馬線\n嵐煙波影\t嵐煙波影\n平針縫\t平針縫\n幹才\t幹才\n幾針\t幾針\n庸才\t庸才\n廖本煙\t廖本煙\n廩膳秀才\t廩膳秀才\n引線穿針\t引線穿針\n張口\t張口\n張柏芝\t張柏芝\n張栢芝\t張栢芝\n張飛穿針\t張飛穿針\n強心針\t強心針\n弼針\t弼針\n彈針\t彈針\n彗核\t彗核\n往事如煙\t往事如煙\n微核\t微核\n徵才\t徵才\n德才\t德才\n德才兼備\t德才兼備\n德薄才疏\t德薄才疏\n志大才疏\t志大才疏\n志大才短\t志大才短\n志廣才疏\t志廣才疏\n恃才傲物\t恃才傲物\n恃才矜己\t恃才矜己\n恃才自專\t恃才自專\n意廣才疏\t意廣才疏\n愛才\t愛才\n愛才好士\t愛才好士\n愛才如命\t愛才如命\n愛才若渴\t愛才若渴\n憐才\t憐才\n懷才不遇\t懷才不遇\n懷才抱德\t懷才抱德\n懸針\t懸針\n懸針垂露\t懸針垂露\n成兆才\t成兆才\n成核\t成核\n戰術核武器\t戰術核武器\n手腕式指北針\t手腕式指北針\n才人\t才人\n才俊\t才俊\n才儲八斗\t才儲八斗\n才具\t才具\n才兼文武\t才兼文武\n才分\t才分\n才力\t才力\n才勇兼優\t才勇兼優\n才名\t才名\n才器\t才器\n才士\t才士\n才大難用\t才大難用\n才女\t才女\n才如史遷\t才如史遷\n才媛\t才媛\n才子\t才子\n才子佳人\t才子佳人\n才子書\t才子書\n才學\t才學\n才學兼優\t才學兼優\n才守\t才守\n才定\t才定\n才幹\t才幹\n才廣妨身\t才廣妨身\n才微智淺\t才微智淺\n才德\t才德\n才德兼備\t才德兼備\n才思\t才思\n才思敏捷\t才思敏捷\n才悟\t才悟\n才情\t才情\n才智\t才智\n才望\t才望\n才氣\t才氣\n才氣無雙\t才氣無雙\n才氣縱橫\t才氣縱橫\n才氣過人\t才氣過人\n才爲世出\t才爲世出\n才用\t才用\n才略\t才略\n才略過人\t才略過人\n才當曹斗\t才當曹斗\n才疏學淺\t才疏學淺\n才疏德薄\t才疏德薄\n才疏志大\t才疏志大\n才疏意廣\t才疏意廣\n才疏計拙\t才疏計拙\n才短氣粗\t才短氣粗\n才秀人微\t才秀人微\n才能\t才能\n才能幹濟\t才能幹濟\n才色\t才色\n才華\t才華\n才華出衆\t才華出衆\n才華橫溢\t才華橫溢\n才華洋溢\t才華洋溢\n才華蓋世\t才華蓋世\n才蔽識淺\t才蔽識淺\n才藝\t才藝\n才藝卓絕\t才藝卓絕\n才藝技能\t才藝技能\n才藝班\t才藝班\n才藝秀\t才藝秀\n才藻\t才藻\n才語\t才語\n才識\t才識\n";

/// Part 1 of the text.
pub const HK_VARIANTS_REV_PHRASES_1: &'static str = "才識過人\t才識過人\n才貌\t才貌\n才貌出衆\t才貌出衆\n才貌雙全\t才貌雙全\n才貫二酉\t才貫二酉\n才資\t才資\n才輕德薄\t才輕德薄\n才過子建\t才過子建\n才過屈宋\t才過屈宋\n才非玉潤\t才非玉潤\n才高八斗\t才高八斗\n才高意廣\t才高意廣\n才高氣傲\t才高氣傲\n才高行厚\t才高行厚\n才高行潔\t才高行潔\n扎針\t扎針\n打完針\t打完針\n打針\t打針\n披針形葉\t披針形葉\n抵針\t抵針\n抽油煙機\t抽油煙機\n拈針指\t拈針指\n指北針\t指北針\n指南針\t指南針\n指揮台\t指揮台\n指針\t指針\n指針式\t指針式\n捲煙畫片\t捲煙畫片\n捷才\t捷才\n掃眉才子\t掃眉才子\n排煙\t排煙\n探針\t探針\n接紹香煙\t接紹香煙\n接續香煙\t接續香煙\n控制台\t控制台\n插針\t插針\n揚己露才\t揚己露才\n搖針\t搖針\n搗針\t搗針\n撞針\t撞針\n撥亂之才\t撥亂之才\n擬核\t擬核\n擺針\t擺針\n收針\t收針\n放射性煙羽\t放射性煙羽\n放煙\t放煙\n放煙幕\t放煙幕\n放煙幕彈\t放煙幕彈\n放煙火\t放煙火\n教育方針\t教育方針\n敹一針\t敹一針\n文才\t文才\n文武全才\t文武全才\n文選爛秀才半\t文選爛秀才半\n斗筲之才\t斗筲之才\n斷煙\t斷煙\n方針\t方針\n施放煙火\t施放煙火\n時針\t時針\n晶核\t晶核\n暈針\t暈針\n暮煙\t暮煙\n曠世之才\t曠世之才\n曠世奇才\t曠世奇才\n曠世逸才\t曠世逸才\n曲別針\t曲別針\n月核\t月核\n有才\t有才\n有才幹\t有才幹\n有才無命\t有才無命\n有核\t有核\n有煙煤\t有煙煤\n朝核\t朝核\n未易才\t未易才\n朽木之才\t朽木之才\n杏核\t杏核\n東九龍綫\t東九龍線\n東海撈針\t東海撈針\n東涌綫\t東涌線\n東鐵綫\t東鐵線\n杳無人煙\t杳無人煙\n松煙\t松煙\n松煙墨\t松煙墨\n松針\t松針\n板煙\t板煙\n果核\t果核\n枝針\t枝針\n柳煙花霧\t柳煙花霧\n核下\t核下\n核二廠\t核二廠\n核人\t核人\n核仁\t核仁\n核以\t核以\n核僵持\t核僵持\n核兒\t核兒\n核冬天\t核冬天\n核出口控制\t核出口控制\n核力\t核力\n核化\t核化\n核區\t核區\n核可\t核可\n核合成\t核合成\n核和\t核和\n核四\t核四\n核型\t核型\n核子\t核子\n核子廠\t核子廠\n核孔\t核孔\n核島\t核島\n核工\t核工\n核彈\t核彈\n核心\t核心\n核戰\t核戰\n核戰鬥部\t核戰鬥部\n核技術\t核技術\n核數\t核數\n核是\t核是\n核有\t核有\n核果\t核果\n核桃\t核桃\n核武\t核武\n核火箭發動機\t核火箭發動機\n核炫\t核炫\n核燃料後處理\t核燃料後處理\n核爆\t核爆\n核爆炸煙雲\t核爆炸煙雲\n核狀\t核狀\n核球\t核球\n核甘\t核甘\n核當量\t核當量\n核發\t核發\n核發電\t核發電\n核發電廠\t核發電廠\n核的\t核的\n核磁\t核磁\n核種\t核種\n核突\t核突\n核粒\t核粒\n核糖\t核糖\n核糖核酸\t核糖核酸\n核素\t核素\n核線\t核線\n核能\t核能\n核能技術\t核能技術\n核能發電\t核能發電\n核能發電廠\t核能發電廠\n核能電廠\t核能電廠\n核膜\t核膜\n核苷\t核苷\n核菌\t核菌\n核融合\t核融合\n核融合發電\t核融合發電\n核解\t核解\n核計劃\t核計劃\n核試\t核試\n核談\t核談\n核質\t核質\n核載\t核載\n核辦\t核辦\n核配\t核配\n核酪\t核酪\n核酶\t核酶\n核酸\t核酸\n核防禦\t核防禦\n核電\t核電\n核電廠\t核電廠\n核電磁脈衝\t核電磁脈衝\n核體\t核體\n核點\t核點\n桃核\t桃核\n桃核雕\t桃核雕\n桐花煙\t桐花煙\n桑針\t桑針\n梅核\t梅核\n棄核\t棄核\n棋逢對手將遇良才\t棋逢對手將遇良才\n棒針\t棒針\n棒針衫\t棒針衫\n棗核\t棗核\n棘針\t棘針\n棘針科\t棘針科\n棘針門\t棘針門\n極核\t極核\n槃才\t槃才\n槃槃大才\t槃槃大才\n橘核\t橘核\n機場快綫\t機場快線\n檢核\t檢核\n檢核表\t檢核表\n步線行針\t步線行針\n步飛煙傳\t步飛煙傳\n歪才\t歪才\n歷練之才\t歷練之才\n歸煙\t歸煙\n殺才\t殺才\n毒針\t毒針\n比才\t比才\n毛線針\t毛線針\n毫針\t毫針\n氘核\t氘核\n水底撈針\t水底撈針\n水煙\t水煙\n求才\t求才\n求才若渴\t求才若渴\n江南四大才子\t江南四大才子\n江淹才盡\t江淹才盡\n江郎才盡\t江郎才盡\n沒人煙\t沒人煙\n沒有人煙\t沒有人煙\n沙中綫\t沙中線\n油煙\t油煙\n油煙機\t油煙機\n沿才授職\t沿才授職\n注射針\t注射針\n注射針頭\t注射針頭\n洗面皂\t洗面皂\n洗髮皂\t洗髮皂\n洛陽才子\t洛陽才子\n浙江天台縣\t浙江天台縣\n浩如煙氣\t浩如煙氣\n浩如煙海\t浩如煙海\n海底撈針\t海底撈針\n深海煙囪\t深海煙囪\n清水煙\t清水煙\n港島綫\t港島線\n渺無人煙\t渺無人煙\n滿腹才學\t滿腹才學\n漏針\t漏針\n潑才\t潑才\n潑煙花\t潑煙花\n潑賤煙花\t潑賤煙花\n濃煙\t濃煙\n濟世之才\t濟世之才\n火滅煙消\t火滅煙消\n火煙\t火煙\n灰飛煙滅\t灰飛煙滅\n炊煙\t炊煙\n炊煙裊裊\t炊煙裊裊\n炮台山循道衛理中學\t炮台山循道衛理中學\n烏煙瘴氣\t烏煙瘴氣\n烤煙\t烤煙\n烽煙\t烽煙\n烽煙四起\t烽煙四起\n烽煙四起戰火紛飛\t烽煙四起戰火紛飛\n烽煙遍地\t烽煙遍地\n無核\t無核\n無煙\t無煙\n無煙囪工業\t無煙囪工業\n無煙火藥\t無煙火藥\n無煙炭\t無煙炭\n無煙焦煤\t無煙焦煤\n無煙煤\t無煙煤\n無線新聞台\t無線新聞台\n無針不引線\t無針不引線\n無針注射器\t無針注射器\n煙供\t煙供\n煙傢伙\t煙傢伙\n煙具\t煙具\n煙合包\t煙合包\n煙味\t煙味\n煙商\t煙商\n煙囪\t煙囪\n煙土\t煙土\n煙塵\t煙塵\n煙夜蛾\t煙夜蛾\n煙子\t煙子\n煙客\t煙客\n煙岸\t煙岸\n煙嵐\t煙嵐\n煙嵐雲岫\t煙嵐雲岫\n煙幕\t煙幕\n煙幕彈\t煙幕彈\n煙戶\t煙戶\n煙景\t煙景\n煙月\t煙月\n煙月場\t煙月場\n煙月牌\t煙月牌\n煙柱\t煙柱\n煙桿\t煙桿\n煙槍\t煙槍\n煙槍洞\t煙槍洞\n煙樹\t煙樹\n煙機\t煙機\n煙毒\t煙毒\n煙毒犯\t煙毒犯\n煙氣\t煙氣\n煙油\t煙油\n煙泡\t煙泡\n煙波\t煙波\n煙波客\t煙波客\n煙波浩渺\t煙波浩渺\n煙波萬頃\t煙波萬頃\n煙波釣叟\t煙波釣叟\n煙波釣徒\t煙波釣徒\n煙海\t煙海\n煙消冰釋\t煙消冰釋\n煙消火滅\t煙消火滅\n煙消雲散\t煙消雲散\n煙消霧散\t煙消霧散\n煙渚\t煙渚\n煙火\t煙火\n煙火之警\t煙火之警\n煙火氣\t煙火氣\n煙火秀\t煙火秀\n煙火節\t煙火節\n煙火鄰居\t煙火鄰居\n煙火食\t煙火食\n煙煤\t煙煤\n煙熅\t煙熅\n煙熏火燎\t煙熏火燎\n煙燄障天\t煙燄障天\n煙燈\t煙燈\n煙燻\t煙燻\n煙燻妝\t煙燻妝\n煙爨\t煙爨\n煙生喉舌\t煙生喉舌\n煙瘴\t煙瘴\n煙癮\t煙癮\n煙盒\t煙盒\n煙硝\t煙硝\n煙硝味\t煙硝味\n煙穗\t煙穗\n煙突\t煙突\n煙窩\t煙窩\n煙筒\t煙筒\n煙筒山\t煙筒山\n煙管\t煙管\n煙管麪\t煙管麪\n煙篷\t煙篷\n煙籠霧鎖\t煙籠霧鎖\n煙粉\t煙粉\n煙縷\t煙縷\n煙肉\t煙肉\n煙膏\t煙膏\n煙臭\t煙臭\n煙臭味\t煙臭味\n煙臺\t煙臺\n煙臺地區\t煙臺地區\n煙臺市\t煙臺市\n煙臺師範學院\t煙臺師範學院\n煙花\t煙花\n煙花債\t煙花債\n煙花場\t煙花場\n煙花女\t煙花女\n煙花寨\t煙花寨\n煙花寨主\t煙花寨主\n煙花巷\t煙花巷\n煙花市\t煙花市\n煙花廠\t煙花廠\n煙花柳巷\t煙花柳巷\n煙花窟\t煙花窟\n煙花簿\t煙花簿\n煙花粉柳\t煙花粉柳\n煙花粉黛\t煙花粉黛\n煙花行院\t煙花行院\n煙花門戶\t煙花門戶\n煙花陣\t煙花陣\n";

/// Part 2 of the text.
pub const HK_VARIANTS_REV_PHRASES_2: &'static str = "煙花隊\t煙花隊\n煙花風月\t煙花風月\n煙苗\t煙苗\n煙蓑雨笠\t煙蓑雨笠\n煙視媚行\t煙視媚行\n煙酒不沾\t煙酒不沾\n煙酸\t煙酸\n煙鍋\t煙鍋\n煙雨\t煙雨\n煙雨樓\t煙雨樓\n煙雲\t煙雲\n煙雲供養\t煙雲供養\n煙雲過眼\t煙雲過眼\n煙霏\t煙霏\n煙霏霧集\t煙霏霧集\n煙霏露結\t煙霏露結\n煙霞\t煙霞\n煙霞外人\t煙霞外人\n煙霞痼疾\t煙霞痼疾\n煙霞癖\t煙霞癖\n煙霧\t煙霧\n煙霧劑\t煙霧劑\n煙霧彈\t煙霧彈\n煙霧瀰漫\t煙霧瀰漫\n煙霧症\t煙霧症\n煙霧迷漫\t煙霧迷漫\n煙霾\t煙霾\n煙靄\t煙靄\n煙飛星散\t煙飛星散\n煙館\t煙館\n煙鬟\t煙鬟\n煙鬼\t煙鬼\n煤核\t煤核\n煤煙\t煤煙\n熔核\t熔核\n熱核\t熱核\n燔針\t燔針\n片善小才\t片善小才\n物色人才\t物色人才\n特殊才能\t特殊才能\n狗才\t狗才\n狼煙\t狼煙\n狼煙四起\t狼煙四起\n玉尺量才\t玉尺量才\n王佐之才\t王佐之才\n瑣才\t瑣才\n甄才品能\t甄才品能\n甄選人才\t甄選人才\n男才女貌\t男才女貌\n畎畝下才\t畎畝下才\n留針\t留針\n異才\t異才\n當世才度\t當世才度\n疑核\t疑核\n痔核\t痔核\n痛失英才\t痛失英才\n登庸人才\t登庸人才\n發展核武器\t發展核武器\n發煙\t發煙\n發煙劑\t發煙劑\n白煙\t白煙\n白鶴秀才\t白鶴秀才\n百萬噸級核武器\t百萬噸級核武器\n百里之才\t百里之才\n皂化\t皂化\n皂莢\t皂莢\n皂莢樹\t皂莢樹\n皂角\t皂角\n的核\t的核\n真才實學\t真才實學\n真核\t真核\n矜才使氣\t矜才使氣\n矜能負才\t矜能負才\n短針\t短針\n石針\t石針\n硝煙\t硝煙\n硝煙彈雨\t硝煙彈雨\n硬核\t硬核\n硬肥皂\t硬肥皂\n碌碌庸才\t碌碌庸才\n磁核\t磁核\n磁針\t磁針\n磨杵成針\t磨杵成針\n磨針溪\t磨針溪\n磨鐵成針\t磨鐵成針\n社交才能\t社交才能\n禁核\t禁核\n秀才\t秀才\n秀才不出門能知天下事\t秀才不出門能知天下事\n秀才人情\t秀才人情\n秀才作醫如菜作虀\t秀才作醫如菜作虀\n秀才造反\t秀才造反\n秒針\t秒針\n秧針\t秧針\n穆稜\t穆稜\n穿針\t穿針\n穿針引線\t穿針引線\n穿針走線\t穿針走線\n管理人才\t管理人才\n篆煙\t篆煙\n精核\t精核\n約核\t約核\n紋光針\t紋光針\n紛如煙\t紛如煙\n細針密縷\t細針密縷\n結核\t結核\n結核桿菌\t結核桿菌\n絕才\t絕才\n絞包針\t絞包針\n給個棒錘當針認\t給個棒錘當針認\n綏稜\t綏稜\n經世之才\t經世之才\n經國之才\t經國之才\n經濟之才\t經濟之才\n綠煙紅霧\t綠煙紅霧\n網羅人才\t網羅人才\n綿裏藏針\t綿裏藏針\n綿裏針\t綿裏針\n縫衣針\t縫衣針\n縫針\t縫針\n縫針補線\t縫針補線\n縫針跡\t縫針跡\n總方針\t總方針\n繃針\t繃針\n繡花針\t繡花針\n繡花針兒\t繡花針兒\n繡針\t繡針\n羅盤針\t羅盤針\n美才\t美才\n美白針\t美白針\n老奴才\t老奴才\n老煙槍\t老煙槍\n老煙鬼\t老煙鬼\n耐多藥結核病\t耐多藥結核病\n耳針\t耳針\n聰明才智\t聰明才智\n肥皂\t肥皂\n肥皂劇\t肥皂劇\n肥皂泡\t肥皂泡\n肥皂粉\t肥皂粉\n肥皂絲\t肥皂絲\n肥皂莢\t肥皂莢\n育才\t育才\n胃口\t胃口\n胡才勇\t胡才勇\n胸針\t胸針\n自學成才\t自學成才\n自核\t自核\n臺灣台\t臺灣台\n舊公煙\t舊公煙\n船不漏針漏針沒外人\t船不漏針漏針沒外人\n船載的金銀填不滿煙花債\t船載的金銀填不滿煙花債\n花兒針\t花兒針\n花煙館\t花煙館\n英才\t英才\n英才俊偉\t英才俊偉\n茂才\t茂才\n茂才異等\t茂才異等\n茅針\t茅針\n茲核\t茲核\n荃灣綫\t荃灣線\n荒無人煙\t荒無人煙\n荒煙漫草\t荒煙漫草\n荒煙蔓草\t荒煙蔓草\n菌核\t菌核\n菲才寡學\t菲才寡學\n葉針\t葉針\n蓋世之才\t蓋世之才\n藏針縫\t藏針縫\n藥皂\t藥皂\n藥針\t藥針\n蘋果核\t蘋果核\n蘭花煙\t蘭花煙\n蛇口蜂針\t蛇口蜂針\n螫針\t螫針\n蠻針瞎灸\t蠻針瞎灸\n行短才喬\t行短才喬\n行短才高\t行短才高\n裊裊炊煙\t裊裊炊煙\n補血針\t補血針\n補針\t補針\n見縫插針\t見縫插針\n觀塘綫\t觀塘線\n討針線\t討針線\n詠雪之才\t詠雪之才\n詩才\t詩才\n誇才賣智\t誇才賣智\n誰家竈內無煙\t誰家竈內無煙\n謊敲才\t謊敲才\n識多才廣\t識多才廣\n識才\t識才\n識才尊賢\t識才尊賢\n象牙針尖\t象牙針尖\n負才\t負才\n負才任氣\t負才任氣\n負才使氣\t負才使氣\n賀爾蒙針\t賀爾蒙針\n賢才\t賢才\n賤才\t賤才\n超世之才\t超世之才\n趫才\t趫才\n跳針\t跳針\n蹇吃\t蹇吃\n身才\t身才\n軟肥皂\t軟肥皂\n輇才\t輇才\n輕核\t輕核\n輕煙\t輕煙\n辯才\t辯才\n辯才天\t辯才天\n辯才無礙\t辯才無礙\n迪士尼綫\t迪士尼線\n迴紋針\t迴紋針\n退針\t退針\n逆時針\t逆時針\n通人達才\t通人達才\n通才\t通才\n通才教育\t通才教育\n通才練識\t通才練識\n造就人才\t造就人才\n逸才\t逸才\n逸羣之才\t逸羣之才\n過人才略\t過人才略\n過眼煙雲\t過眼煙雲\n過眼雲煙\t過眼雲煙\n適才\t適才\n選才\t選才\n遺才\t遺才\n避雷針\t避雷針\n郭台成\t郭台成\n郭台銘\t郭台銘\n邊核\t邊核\n郎才女姿\t郎才女姿\n郎才女貌\t郎才女貌\n鄧艾吃\t鄧艾吃\n野無遺才\t野無遺才\n量才錄用\t量才錄用\n金針\t金針\n金針山\t金針山\n金針度人\t金針度人\n金針花\t金針花\n金針菇\t金針菇\n金針菜\t金針菜\n釘書針\t釘書針\n針具\t針具\n針刺\t針刺\n針刺麻醉\t針刺麻醉\n針劑\t針劑\n針孔\t針孔\n針孔攝影機\t針孔攝影機\n針孔照像\t針孔照像\n針孔照像機\t針孔照像機\n針孔現象\t針孔現象\n針對\t針對\n針對性\t針對性\n針對於\t針對於\n針尖\t針尖\n針尖兒\t針尖兒\n針工\t針工\n針布\t針布\n針形葉\t針形葉\n針指\t針指\n針挑刀挖\t針挑刀挖\n針梳機\t針梳機\n針氈\t針氈\n針法\t針法\n針炙\t針炙\n針狀\t針狀\n針狀物\t針狀物\n針盤\t針盤\n針眼\t針眼\n針眼子\t針眼子\n針神\t針神\n針筆\t針筆\n針筆匠\t針筆匠\n針筒\t針筒\n針箍\t針箍\n針箍兒\t針箍兒\n針線\t針線\n針線包\t針線包\n針線娘\t針線娘\n針線活\t針線活\n針線活計\t針線活計\n針線盒\t針線盒\n針線箔籬\t針線箔籬\n針織\t針織\n針織品\t針織品\n針織廠\t針織廠\n針織料\t針織料\n針腳\t針腳\n針葉\t針葉\n針葉林\t針葉林\n針葉植物\t針葉植物\n針葉樹\t針葉樹\n針針見血\t針針見血\n針釦\t針釦\n針鋒\t針鋒\n針鋒相對\t針鋒相對\n針鋒相投\t針鋒相投\n針鋩\t針鋩\n針頭\t針頭\n針餌莫減\t針餌莫減\n針骨\t針骨\n針魚\t針魚\n針黹\t針黹\n針黹紡績\t針黹紡績\n針鼴\t針鼴\n針鼻\t針鼻\n針鼻兒\t針鼻兒\n釦針\t釦針\n鉤針\t鉤針\n銀核\t銀核\n銀針\t銀針\n鋼針\t鋼針\n錶針\t錶針\n鍋煙\t鍋煙\n鍋煙子\t鍋煙子\n鐵針\t鐵針\n鑑核備查\t鑑核備查\n長才\t長才\n長煙\t長煙\n長煙一空\t長煙一空\n長針\t長針\n開口\t開口\n防疫針\t防疫針\n陰核\t陰核\n隨才器使\t隨才器使\n雄才\t雄才\n雄才大略\t雄才大略\n雌核\t雌核\n雙核\t雙核\n雙鏈核酸\t雙鏈核酸\n雪茄煙\t雪茄煙\n雲煙\t雲煙\n雲煙過眼\t雲煙過眼\n雲煙過眼錄\t雲煙過眼錄\n電唱針\t電唱針\n電針\t電針\n電針麻醉\t電針麻醉\n需才孔亟\t需才孔亟\n露才\t露才\n露才揚己\t露才揚己\n霸才\t霸才\n青煙\t青煙\n非才\t非才\n非核\t非核\n";

/// Part 3 of the text.
pub const HK_VARIANTS_REV_PHRASES_3: &'static str = "面皂\t面皂\n頂核\t頂核\n頂針\t頂針\n頂針兒\t頂針兒\n頂針捱住\t頂針捱住\n頂門針\t頂門針\n順時針\t順時針\n預防針\t預防針\n領帶針\t領帶針\n風向針\t風向針\n風流才子\t風流才子\n風煙\t風煙\n飛煙傳\t飛煙傳\n飛針走線\t飛針走線\n飽學秀才\t飽學秀才\n香煙不絕\t香煙不絕\n香煙後代\t香煙後代\n香皂\t香皂\n馮驥才\t馮驥才\n驚才絕豔\t驚才絕豔\n骨針\t骨針\n高才\t高才\n高才生\t高才生\n高級管理人才\t高級管理人才\n髮針\t髮針\n鬼才\t鬼才\n鬼針草\t鬼針草\n鳳台\t鳳台\n鴉片煙\t鴉片煙\n鹽水針\t鹽水針\n麴秀才\t麴秀才\n麻醉針\t麻醉針\n黃成\t黃成\n黃有才\t黃有才\n黑煙\t黑煙\n點染雲煙\t點染雲煙\n點核\t點核\n鼻針療法\t鼻針療法\n齊煙九點\t齊煙九點\n齧蘗吞針\t齧蘗吞針\n龍應台\t龍應台\n龍煙鐵礦\t龍煙鐵礦\n甚麼\t什麼\n";

/// The number of parts of the text.
pub const PARTS: usize = 4;

/// Part `i` of the `HKVariantsRevPhrases` text; a later entry for the same source wins.
pub open spec fn part(i: int) -> Seq<char> {
    if i == 0 {
        HK_VARIANTS_REV_PHRASES_0@
    } else if i == 1 {
        HK_VARIANTS_REV_PHRASES_1@
    } else if i == 2 {
        HK_VARIANTS_REV_PHRASES_2@
    } else if i == 3 {
        HK_VARIANTS_REV_PHRASES_3@
    } else {
        Seq::empty()
    }
}

/// Part `i` of the text.
pub fn part_exec(i: usize) -> (r: &'static str)
    requires
        i < PARTS,
    ensures
        r@ == part(i as int),
{
    match i {
        0 => HK_VARIANTS_REV_PHRASES_0,
        1 => HK_VARIANTS_REV_PHRASES_1,
        2 => HK_VARIANTS_REV_PHRASES_2,
        3 => HK_VARIANTS_REV_PHRASES_3,
        _ => HK_VARIANTS_REV_PHRASES_0,
    }
}

} // verus!
